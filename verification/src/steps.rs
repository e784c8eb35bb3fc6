//! The steps of a leg: each step is built at a running cursor into the
//! leg's coordinate indices, which tells which annotations and incidents of
//! the leg are the step's.

use vstd::prelude::*;
use crate::annotations::{annotation_window, get_annotation_slice, zip_optional, zipped_optional};
use crate::backend::{OsrmRouteStep, OsrmRouteStepView, RouteLeg, RouteLegView};
use crate::geometry::{decoded_geometry, get_coordinates_from_geometry};
use crate::incidents::{clip_incidents, clipped_incidents};
use crate::instructions::{spoken_without_ids, visuals_of};
use crate::models::{
    optional_seq, steps_utterance_ids, steps_without_ids, utterance_ids, AnnotationValue,
    GeographicCoordinate,
    Incident, IncidentView, ParsingError, ParsingErrorView, RouteStep, RouteStepView,
};
use crate::utterance::{lemma_after_after, lemma_after_nothing, lemma_yields_concat, UtteranceIdSource};
use crate::views::lemma_deep_view_push;

verus! {

/// The number of segments between the coordinates of a geometry: one less
/// than the number of coordinates.
pub open spec fn span_of(geometry: Seq<GeographicCoordinate>) -> nat {
    if geometry.len() > 0 {
        (geometry.len() - 1) as nat
    } else {
        0
    }
}

/// The step that a backend step becomes with the given coordinates,
/// annotations and incidents, apart from its utterance identifiers.
pub open spec fn step_with(
    step: OsrmRouteStepView,
    geometry: Seq<GeographicCoordinate>,
    annotations: Option<Seq<AnnotationValue>>,
    incidents: Seq<IncidentView>,
) -> RouteStepView {
    RouteStepView {
        geometry,
        distance: step.distance,
        duration: step.duration,
        road_name: step.name,
        instruction: step.maneuver.instruction_text(),
        visual_instructions: visuals_of(step.banner_instructions),
        spoken_instructions: spoken_without_ids(step.voice_instructions),
        annotations,
        incidents,
    }
}

/// The step that a backend step becomes at a cursor: its window of the
/// leg's coordinate indices starts at the cursor and is as long as the
/// step's span; it has the leg's annotations in that window and the leg's
/// incidents clipped to it.
pub open spec fn step_at(
    step: OsrmRouteStepView,
    geometry: Seq<GeographicCoordinate>,
    cursor: nat,
    leg_annotations: Option<Seq<AnnotationValue>>,
    leg_incidents: Seq<IncidentView>,
) -> RouteStepView {
    let end = cursor + span_of(geometry);
    step_with(
        step,
        geometry,
        annotation_window(leg_annotations, cursor as int, end as int),
        clipped_incidents(leg_incidents, cursor, end),
    )
}

/// One step of the fold over a leg's steps: the step at the cursor and the
/// cursor after it, or the error of the step's geometry.
pub open spec fn folded_step(
    step: OsrmRouteStepView,
    cursor: nat,
    leg_annotations: Option<Seq<AnnotationValue>>,
    leg_incidents: Seq<IncidentView>,
    precision: u32,
) -> Result<(RouteStepView, nat), ParsingErrorView> {
    match decoded_geometry(step.geometry, precision) {
        Err(e) => Err(e),
        Ok((geometry, _)) => Ok(
            (
                step_at(step, geometry, cursor, leg_annotations, leg_incidents),
                cursor + span_of(geometry),
            ),
        ),
    }
}

/// The fold over the first `count` steps of a leg, from cursor 0: the route
/// steps and the cursor after them, or the error of the first step whose
/// geometry has none.
pub open spec fn folded_steps(
    steps: Seq<OsrmRouteStepView>,
    count: nat,
    leg_annotations: Option<Seq<AnnotationValue>>,
    leg_incidents: Seq<IncidentView>,
    precision: u32,
) -> Result<(Seq<RouteStepView>, nat), ParsingErrorView>
    decreases count,
{
    if count == 0 {
        Ok((Seq::empty(), 0))
    } else {
        match folded_steps(steps, (count - 1) as nat, leg_annotations, leg_incidents, precision) {
            Err(e) => Err(e),
            Ok((done, cursor)) => match folded_step(
                steps[count - 1],
                cursor,
                leg_annotations,
                leg_incidents,
                precision,
            ) {
                Err(e) => Err(e),
                Ok((step, next)) => Ok((done.push(step), next)),
            },
        }
    }
}

/// The route steps of a leg, apart from their utterance identifiers.
pub open spec fn leg_steps(leg: RouteLegView, precision: u32) -> Result<
    Seq<RouteStepView>,
    ParsingErrorView,
> {
    match folded_steps(
        leg.steps,
        leg.steps.len(),
        zipped_optional(leg.annotation),
        leg.incidents,
        precision,
    ) {
        Err(e) => Err(e),
        Ok((steps, _)) => Ok(steps),
    }
}

/// The largest cursor that leaves room for one more span.
pub open spec fn max_cursor() -> int {
    u128::MAX - usize::MAX
}

impl RouteStep {
    /// Builds a step from a backend step, its decoded coordinates, its
    /// annotations and its incidents. Each spoken instruction gets the next
    /// identifier of the source.
    pub fn from_osrm_and_geom(
        value: &OsrmRouteStep,
        geometry: Vec<GeographicCoordinate>,
        annotations: Option<Vec<AnnotationValue>>,
        incidents: Vec<Incident>,
        ids: &mut UtteranceIdSource,
    ) -> (step: RouteStep)
        ensures
            step@.without_utterance_ids() == step_with(
                value@,
                geometry@,
                optional_seq(annotations),
                incidents.deep_view(),
            ),
            old(ids).yields(step@.utterance_ids()),
            step@.utterance_ids().len() == value.voice_instructions.len(),
            *final(ids) == old(ids).after(value.voice_instructions.len() as nat),
    {
        let visual_instructions = crate::instructions::visual_instructions(
            &value.banner_instructions,
        );
        let spoken_instructions = crate::instructions::spoken_instructions(
            &value.voice_instructions,
            ids,
        );
        assert(utterance_ids(spoken_instructions.deep_view()).len() == spoken_instructions@.len());
        RouteStep {
            geometry,
            distance: value.distance,
            duration: value.duration,
            road_name: value.name.clone(),
            instruction: value.maneuver.get_instruction(),
            visual_instructions,
            spoken_instructions,
            annotations,
            incidents,
        }
    }

    /// Builds the step at a cursor into the leg's coordinate indices, and
    /// gives the cursor after it.
    ///
    /// The step's geometry is decoded first: where that fails, no identifier
    /// is drawn.
    pub fn from_osrm_at(
        value: &OsrmRouteStep,
        cursor: u128,
        leg_annotations: &Option<Vec<AnnotationValue>>,
        leg_incidents: &Vec<Incident>,
        polyline_precision: u32,
        ids: &mut UtteranceIdSource,
    ) -> (r: Result<(RouteStep, u128), ParsingError>)
        requires
            cursor <= max_cursor(),
        ensures
            match r {
                Ok((step, next)) => {
                    &&& cursor <= next <= cursor + usize::MAX
                    &&& folded_step(
                        value@,
                        cursor as nat,
                        optional_seq(*leg_annotations),
                        leg_incidents.deep_view(),
                        polyline_precision,
                    ) == Ok::<(RouteStepView, nat), ParsingErrorView>(
                        (step@.without_utterance_ids(), next as nat),
                    )
                    &&& old(ids).yields(step@.utterance_ids())
                    &&& step@.utterance_ids().len() == value.voice_instructions.len()
                    &&& *final(ids) == old(ids).after(value.voice_instructions.len() as nat)
                },
                Err(e) => {
                    &&& folded_step(
                        value@,
                        cursor as nat,
                        optional_seq(*leg_annotations),
                        leg_incidents.deep_view(),
                        polyline_precision,
                    ) == Err::<(RouteStepView, nat), ParsingErrorView>(e@)
                    &&& *final(ids) == *old(ids)
                },
            },
    {
        let geometry = match get_coordinates_from_geometry(
            value.geometry.as_str(),
            polyline_precision,
        ) {
            Ok(geometry) => geometry,
            Err(e) => {
                return Err(e);
            },
        };
        let span = (geometry.len() - 1) as u128;
        let end = cursor + span;
        let annotations = get_annotation_slice(leg_annotations, cursor, end);
        let incidents = clip_incidents(leg_incidents, cursor, end);
        let step = RouteStep::from_osrm_and_geom(value, geometry, annotations, incidents, ids);
        Ok((step, end))
    }
}

/// Once the fold over a leg's steps has failed, it fails in the same way
/// however many more steps it is asked for.
pub proof fn lemma_fold_error_stays(
    steps: Seq<OsrmRouteStepView>,
    count: nat,
    more: nat,
    leg_annotations: Option<Seq<AnnotationValue>>,
    leg_incidents: Seq<IncidentView>,
    precision: u32,
)
    requires
        count <= more,
        folded_steps(steps, count, leg_annotations, leg_incidents, precision) is Err,
    ensures
        folded_steps(steps, more, leg_annotations, leg_incidents, precision) == folded_steps(
            steps,
            count,
            leg_annotations,
            leg_incidents,
            precision,
        ),
    decreases more - count,
{
    if count < more {
        lemma_fold_error_stays(
            steps,
            count,
            (more - 1) as nat,
            leg_annotations,
            leg_incidents,
            precision,
        );
    }
}

/// The utterance identifiers of steps with one more step at their end.
pub proof fn lemma_utterance_ids_push(steps: Seq<RouteStepView>, last: RouteStepView)
    ensures
        steps_utterance_ids(steps.push(last)) == steps_utterance_ids(steps) + last.utterance_ids(),
{
    assert(steps.push(last).drop_last() =~= steps);
}

/// The bound on the cursor ahead of step `i` of a leg leaves room for the
/// step's span.
proof fn lemma_cursor_room(cursor: u128, i: usize, count: usize)
    requires
        i < count,
        cursor <= i * usize::MAX,
    ensures
        cursor <= max_cursor(),
        (i + 1) * usize::MAX == i * usize::MAX + usize::MAX,
{
    let m = usize::MAX as int;
    assert(i * m + m <= m * m) by (nonlinear_arith)
        requires
            0 <= i < m,
    ;
    assert(m * m <= 0xffff_ffff_ffff_ffff * 0xffff_ffff_ffff_ffff) by (nonlinear_arith)
        requires
            0 <= m <= 0xffff_ffff_ffff_ffff,
    ;
    assert((i + 1) * m == i * m + m) by (nonlinear_arith);
}

/// Builds the route steps of a leg, in order, from cursor 0.
///
/// Where the geometry of a step cannot be decoded, the leg has no steps,
/// and the source of identifiers is left as it was.
pub fn steps_of_leg(leg: &RouteLeg, polyline_precision: u32, ids: &mut UtteranceIdSource) -> (r:
    Result<Vec<RouteStep>, ParsingError>)
    ensures
        match r {
            Ok(steps) => {
                &&& leg_steps(leg@, polyline_precision) == Ok::<
                    Seq<RouteStepView>,
                    ParsingErrorView,
                >(steps_without_ids(steps.deep_view()))
                &&& old(ids).yields(steps_utterance_ids(steps.deep_view()))
                &&& *final(ids) == old(ids).after(steps_utterance_ids(steps.deep_view()).len())
            },
            Err(e) => {
                &&& leg_steps(leg@, polyline_precision) == Err::<
                    Seq<RouteStepView>,
                    ParsingErrorView,
                >(e@)
                &&& *final(ids) == *old(ids)
            },
        },
{
    let annotations = zip_optional(&leg.annotation);
    let saved = *ids;
    let mut steps: Vec<RouteStep> = Vec::new();
    let mut cursor: u128 = 0;
    let mut i: usize = 0;
    proof {
        lemma_after_nothing(saved);
        assert(steps_without_ids(steps.deep_view()) =~= Seq::<RouteStepView>::empty());
    }
    while i < leg.steps.len()
        invariant
            i <= leg.steps.len(),
            cursor <= i * usize::MAX,
            optional_seq(annotations) == zipped_optional(leg@.annotation),
            folded_steps(
                leg@.steps,
                i as nat,
                zipped_optional(leg@.annotation),
                leg@.incidents,
                polyline_precision,
            ) == Ok::<(Seq<RouteStepView>, nat), ParsingErrorView>(
                (steps_without_ids(steps.deep_view()), cursor as nat),
            ),
            saved == *old(ids),
            saved.yields(steps_utterance_ids(steps.deep_view())),
            *ids == saved.after(steps_utterance_ids(steps.deep_view()).len()),
        decreases leg.steps.len() - i,
    {
        let ghost before = steps;
        let ghost drawn = steps_utterance_ids(steps.deep_view());
        proof {
            lemma_cursor_room(cursor, i, leg.steps.len());
        }
        match RouteStep::from_osrm_at(
            &leg.steps[i],
            cursor,
            &annotations,
            &leg.incidents,
            polyline_precision,
            ids,
        ) {
            Ok((step, next)) => {
                steps.push(step);
                cursor = next;
                proof {
                    lemma_deep_view_push(before, steps, step);
                    lemma_utterance_ids_push(before.deep_view(), step@);
                    lemma_yields_concat(saved, drawn, step@.utterance_ids());
                    lemma_after_after(saved, drawn.len(), step@.utterance_ids().len());
                    assert(steps_without_ids(steps.deep_view()) =~= steps_without_ids(
                        before.deep_view(),
                    ).push(step@.without_utterance_ids()));
                }
            },
            Err(e) => {
                proof {
                    lemma_fold_error_stays(
                        leg@.steps,
                        (i + 1) as nat,
                        leg@.steps.len(),
                        zipped_optional(leg@.annotation),
                        leg@.incidents,
                        polyline_precision,
                    );
                }
                *ids = saved;
                return Err(e);
            },
        }
        i += 1;
    }
    Ok(steps)
}

} // verus!
