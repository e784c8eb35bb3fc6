//! What holds of every response: the laws of the library, each proved from
//! the definitions that the contracts of its functions use.

use vstd::prelude::*;
use crate::annotations::{annotation_window, zipped_optional};
use crate::backend::{
    BannerContentComponentView, OsrmRouteStepView, OsrmRouteView, OsrmWaypointView, RouteLegView,
    RouteResponseView,
};
use crate::incidents::{clip, clipped_incidents, overlaps_window};
use crate::instructions::{lane_info_of, lane_of, lane_type, lanes_of};
use crate::models::{
    AnnotationValue, IncidentView, ParsingErrorView, RouteStepView, RouteView, WaypointKind,
};
use crate::parser::{parsed, parsed_routes, routes_without_ids, success_code};
use crate::route::{assembled, classified, is_via, leg_passes, route_steps};
use crate::steps::{folded_step, folded_steps, leg_steps, span_of, step_at};

verus! {

/// The sum of the spans of steps.
pub open spec fn spans_total(steps: Seq<RouteStepView>) -> nat
    decreases steps.len(),
{
    if steps.len() == 0 {
        0
    } else {
        spans_total(steps.drop_last()) + span_of(steps.last().geometry)
    }
}

/// The annotations of steps, step by step and in order; a step without
/// annotations adds none.
pub open spec fn annotations_of(steps: Seq<RouteStepView>) -> Seq<AnnotationValue>
    decreases steps.len(),
{
    if steps.len() == 0 {
        Seq::empty()
    } else {
        annotations_of(steps.drop_last()) + match steps.last().annotations {
            Some(values) => values,
            None => Seq::empty(),
        }
    }
}

/// A response with another status code than the success code parses to the
/// error that carries that code, whatever else it holds.
pub proof fn lemma_status_code_is_carried(response: RouteResponseView, precision: u32)
    requires
        response.code != success_code(),
    ensures
        parsed(response, precision) == Err::<Seq<RouteView>, ParsingErrorView>(
            ParsingErrorView::InvalidStatusCode { code: response.code },
        ),
{
}

/// The first `count` routes parse to routes exactly when each of them can
/// be assembled, and then there are `count` routes, the route at each
/// position being the assembly of the backend route at that position.
pub proof fn lemma_parsed_routes_in_order(
    routes: Seq<OsrmRouteView>,
    count: nat,
    waypoints: Seq<OsrmWaypointView>,
    precision: u32,
)
    requires
        count <= routes.len(),
    ensures
        parsed_routes(routes, count, waypoints, precision) is Ok <==> forall|i: int|
            0 <= i < count ==> (#[trigger] assembled(routes[i], waypoints, precision)) is Ok,
        parsed_routes(routes, count, waypoints, precision) matches Ok(parsed) ==> {
            &&& parsed.len() == count
            &&& forall|i: int|
                0 <= i < count ==> assembled(routes[i], waypoints, precision) == Ok::<
                    RouteView,
                    ParsingErrorView,
                >(#[trigger] parsed[i])
        },
    decreases count,
{
    if count > 0 {
        lemma_parsed_routes_in_order(routes, (count - 1) as nat, waypoints, precision);
        match parsed_routes(routes, (count - 1) as nat, waypoints, precision) {
            Err(_) => {},
            Ok(done) => {
                match assembled(routes[count - 1], waypoints, precision) {
                    Err(_) => {},
                    Ok(route) => {
                        assert forall|i: int| 0 <= i < count implies (#[trigger] assembled(
                            routes[i],
                            waypoints,
                            precision,
                        )) is Ok by {
                            if i < count - 1 {
                            }
                        }
                    },
                }
            },
        }
    }
}

/// A response with the success code, each of whose routes can be assembled,
/// parses to as many routes as it holds, in the same order.
pub proof fn lemma_every_route_is_returned(response: RouteResponseView, precision: u32)
    requires
        response.code == success_code(),
        forall|i: int|
            0 <= i < response.routes.len() ==> (#[trigger] assembled(
                response.routes[i],
                response.waypoints,
                precision,
            )) is Ok,
    ensures
        parsed(response, precision) matches Ok(routes) && routes.len() == response.routes.len()
            && forall|i: int|
            0 <= i < routes.len() ==> assembled(response.routes[i], response.waypoints, precision)
                == Ok::<RouteView, ParsingErrorView>(#[trigger] routes[i]),
{
    lemma_parsed_routes_in_order(
        response.routes,
        response.routes.len(),
        response.waypoints,
        precision,
    );
}

/// The shape of a fold that succeeded: it made one step of each backend
/// step, its cursor is the sum of their spans, and its last step was made
/// at the cursor of the fold before it.
pub proof fn lemma_fold_shape(
    steps: Seq<OsrmRouteStepView>,
    count: nat,
    leg_annotations: Option<Seq<AnnotationValue>>,
    leg_incidents: Seq<IncidentView>,
    precision: u32,
)
    requires
        folded_steps(steps, count, leg_annotations, leg_incidents, precision) is Ok,
    ensures
        ({
            let (done, cursor) = folded_steps(
                steps,
                count,
                leg_annotations,
                leg_incidents,
                precision,
            )->Ok_0;
            &&& done.len() == count
            &&& cursor == spans_total(done)
            &&& count > 0 ==> {
                &&& folded_steps(
                    steps,
                    (count - 1) as nat,
                    leg_annotations,
                    leg_incidents,
                    precision,
                ) == Ok::<(Seq<RouteStepView>, nat), ParsingErrorView>(
                    (done.drop_last(), spans_total(done.drop_last())),
                )
                &&& folded_step(
                    steps[count - 1],
                    spans_total(done.drop_last()),
                    leg_annotations,
                    leg_incidents,
                    precision,
                ) == Ok::<(RouteStepView, nat), ParsingErrorView>((done.last(), cursor))
            }
        }),
    decreases count,
{
    if count > 0 {
        lemma_fold_shape(steps, (count - 1) as nat, leg_annotations, leg_incidents, precision);
        let (before, _) = folded_steps(
            steps,
            (count - 1) as nat,
            leg_annotations,
            leg_incidents,
            precision,
        )->Ok_0;
        let (done, _) = folded_steps(steps, count, leg_annotations, leg_incidents, precision)->Ok_0;
        assert(done.drop_last() =~= before);
    }
}

/// A fold that succeeded on `count` steps succeeded on every prefix of
/// them, with the same steps.
pub proof fn lemma_fold_prefix(
    steps: Seq<OsrmRouteStepView>,
    count: nat,
    fewer: nat,
    leg_annotations: Option<Seq<AnnotationValue>>,
    leg_incidents: Seq<IncidentView>,
    precision: u32,
)
    requires
        fewer <= count,
        folded_steps(steps, count, leg_annotations, leg_incidents, precision) is Ok,
    ensures
        ({
            let (done, _) = folded_steps(
                steps,
                count,
                leg_annotations,
                leg_incidents,
                precision,
            )->Ok_0;
            folded_steps(steps, fewer, leg_annotations, leg_incidents, precision) == Ok::<
                (Seq<RouteStepView>, nat),
                ParsingErrorView,
            >((done.take(fewer as int), spans_total(done.take(fewer as int))))
        }),
    decreases count - fewer,
{
    lemma_fold_shape(steps, count, leg_annotations, leg_incidents, precision);
    let (done, _) = folded_steps(steps, count, leg_annotations, leg_incidents, precision)->Ok_0;
    if fewer == count {
        assert(done.take(fewer as int) =~= done);
    } else {
        lemma_fold_prefix(
            steps,
            (count - 1) as nat,
            fewer,
            leg_annotations,
            leg_incidents,
            precision,
        );
        assert(done.drop_last().take(fewer as int) =~= done.take(fewer as int));
    }
}

/// Every step of a leg is made at the sum of the spans of the steps before
/// it: the windows of a leg's steps follow one another without gap or
/// overlap, from 0 to the sum of all spans.
pub proof fn lemma_step_windows(
    steps: Seq<OsrmRouteStepView>,
    count: nat,
    k: int,
    leg_annotations: Option<Seq<AnnotationValue>>,
    leg_incidents: Seq<IncidentView>,
    precision: u32,
)
    requires
        0 <= k < count,
        folded_steps(steps, count, leg_annotations, leg_incidents, precision) is Ok,
    ensures
        ({
            let (done, cursor) = folded_steps(
                steps,
                count,
                leg_annotations,
                leg_incidents,
                precision,
            )->Ok_0;
            &&& done.len() == count
            &&& cursor == spans_total(done)
            &&& done[k] == step_at(
                steps[k],
                done[k].geometry,
                spans_total(done.take(k)),
                leg_annotations,
                leg_incidents,
            )
            &&& spans_total(done.take(k + 1)) == spans_total(done.take(k)) + span_of(
                done[k].geometry,
            )
        }),
{
    lemma_fold_shape(steps, count, leg_annotations, leg_incidents, precision);
    lemma_fold_prefix(steps, count, (k + 1) as nat, leg_annotations, leg_incidents, precision);
    lemma_fold_shape(steps, (k + 1) as nat, leg_annotations, leg_incidents, precision);
    let (done, _) = folded_steps(steps, count, leg_annotations, leg_incidents, precision)->Ok_0;
    assert(done.take(k + 1).drop_last() =~= done.take(k));
    assert(done.take(k + 1).last() == done[k]);
}

/// The annotations of a step of a leg.
///
/// They are the leg's records in the step's window. A step whose geometry
/// has a single coordinate has none. Where the leg has records that reach
/// the end of the step's window and the step's geometry has more than one
/// coordinate, the step has one annotation for each of its segments: one
/// less than it has coordinates.
pub proof fn lemma_step_annotations(
    steps: Seq<OsrmRouteStepView>,
    count: nat,
    k: int,
    leg_annotations: Option<Seq<AnnotationValue>>,
    leg_incidents: Seq<IncidentView>,
    precision: u32,
)
    requires
        0 <= k < count,
        folded_steps(steps, count, leg_annotations, leg_incidents, precision) is Ok,
    ensures
        ({
            let (done, _) = folded_steps(
                steps,
                count,
                leg_annotations,
                leg_incidents,
                precision,
            )->Ok_0;
            let start = spans_total(done.take(k));
            let end = start + span_of(done[k].geometry);
            &&& done[k].annotations == annotation_window(leg_annotations, start as int, end as int)
            &&& done[k].geometry.len() <= 1 ==> done[k].annotations is None
            &&& done[k].annotations matches Some(values) ==> values.len() == done[k].geometry.len()
                - 1
            &&& (leg_annotations matches Some(records) && end <= records.len()
                && done[k].geometry.len() > 1) ==> done[k].annotations is Some
        }),
{
    lemma_step_windows(steps, count, k, leg_annotations, leg_incidents, precision);
}

/// The annotations of a leg's steps tile the leg's records: where the
/// records reach the sum of the steps' spans, the annotations of the steps,
/// one after another, are the records up to that sum. So where the sum of
/// the spans is the number of records, every record is on exactly one step.
pub proof fn lemma_annotations_tile(
    steps: Seq<OsrmRouteStepView>,
    count: nat,
    records: Seq<AnnotationValue>,
    leg_incidents: Seq<IncidentView>,
    precision: u32,
)
    requires
        folded_steps(steps, count, Some(records), leg_incidents, precision) is Ok,
        folded_steps(steps, count, Some(records), leg_incidents, precision)->Ok_0.1
            <= records.len(),
    ensures
        ({
            let (done, cursor) = folded_steps(
                steps,
                count,
                Some(records),
                leg_incidents,
                precision,
            )->Ok_0;
            &&& cursor == spans_total(done)
            &&& annotations_of(done) == records.subrange(0, cursor as int)
            &&& cursor == records.len() ==> annotations_of(done) == records
        }),
    decreases count,
{
    let leg_annotations = Some(records);
    lemma_fold_shape(steps, count, leg_annotations, leg_incidents, precision);
    let (done, cursor) = folded_steps(steps, count, leg_annotations, leg_incidents, precision)->Ok_0;
    if count == 0 {
        assert(annotations_of(done) =~= records.subrange(0, 0));
    } else {
        let before = spans_total(done.drop_last());
        lemma_annotations_tile(steps, (count - 1) as nat, records, leg_incidents, precision);
        let last = done.last();
        assert(last.annotations == annotation_window(leg_annotations, before as int, cursor as int));
        if before < cursor {
            assert(records.subrange(0, before as int) + records.subrange(
                before as int,
                cursor as int,
            ) =~= records.subrange(0, cursor as int));
        } else {
            assert(records.subrange(0, before as int) + Seq::<AnnotationValue>::empty()
                =~= records.subrange(0, cursor as int));
        }
    }
    assert(records.subrange(0, records.len() as int) =~= records);
}

/// Whether the end index of an incident, where it has one, is at most the
/// given length.
pub open spec fn ends_within(incident: IncidentView, length: nat) -> bool {
    match incident.geometry_index_end {
        Some(incident_end) => incident_end <= length,
        None => true,
    }
}

/// The indices of a clipped incident.
///
/// Its end index, where it has one, is at most the length of the window.
/// Its start index is less than the length of the window where the incident
/// started before the window's end.
pub proof fn lemma_clipped_incident_bounds(incident: IncidentView, start: nat, end: nat)
    requires
        start <= end,
        clip(incident, start, end) is Some,
    ensures
        ({
            let kept = clip(incident, start, end)->Some_0;
            &&& ends_within(kept, (end - start) as nat)
            &&& kept.geometry_index_start == incident.geometry_index_start - start
            &&& incident.geometry_index_start < end ==> kept.geometry_index_start < end - start
            &&& incident.geometry_index_end is None ==> kept.geometry_index_start <= end - start
        }),
{
}

/// Every clipped incident is within the window that it was clipped to: its
/// end index, where it has one, is at most the window's length, and its
/// start index is less than the window's length, provided that no
/// overlapping incident of the leg starts at or after the window's end.
pub proof fn lemma_clipped_incidents_bounds(incidents: Seq<IncidentView>, start: nat, end: nat)
    requires
        start <= end,
    ensures
        forall|j: int|
            0 <= j < clipped_incidents(incidents, start, end).len() ==> ends_within(
                #[trigger] clipped_incidents(incidents, start, end)[j],
                (end - start) as nat,
            ),
        (forall|i: int|
            0 <= i < incidents.len() && overlaps_window(#[trigger] incidents[i], start, end)
                ==> incidents[i].geometry_index_start < end) ==> forall|j: int|
            0 <= j < clipped_incidents(incidents, start, end).len() ==> (#[trigger] clipped_incidents(
                incidents,
                start,
                end,
            )[j]).geometry_index_start < end - start,
    decreases incidents.len(),
{
    let f = |incident: IncidentView| clip(incident, start, end);
    if incidents.len() > 0 {
        lemma_clipped_incidents_bounds(incidents.drop_last(), start, end);
        let rest = clipped_incidents(incidents.drop_last(), start, end);
        assert(incidents.drop_last().filter_map(f) == rest);
        let all = clipped_incidents(incidents, start, end);
        assert(incidents[incidents.len() - 1] == incidents.last());
        match clip(incidents.last(), start, end) {
            Some(kept) => {
                assert(all == rest + seq![kept]);
                lemma_clipped_incident_bounds(incidents.last(), start, end);
                assert forall|j: int| 0 <= j < all.len() implies ends_within(
                    #[trigger] all[j],
                    (end - start) as nat,
                ) by {
                    if j < rest.len() {
                        assert(all[j] == rest[j]);
                    } else {
                        assert(all[j] == kept);
                    }
                }
                if forall|i: int|
                    0 <= i < incidents.len() && overlaps_window(#[trigger] incidents[i], start, end)
                        ==> incidents[i].geometry_index_start < end {
                    assert forall|i: int|
                        0 <= i < incidents.drop_last().len() && overlaps_window(
                            #[trigger] incidents.drop_last()[i],
                            start,
                            end,
                        ) implies incidents.drop_last()[i].geometry_index_start < end by {
                        assert(incidents.drop_last()[i] == incidents[i]);
                    }
                    assert forall|j: int| 0 <= j < all.len() implies (#[trigger] all[j]).geometry_index_start
                        < end - start by {
                        if j < rest.len() {
                            assert(all[j] == rest[j]);
                        } else {
                            assert(all[j] == kept);
                        }
                    }
                }
            },
            None => {
                assert(all == rest);
                if forall|i: int|
                    0 <= i < incidents.len() && overlaps_window(#[trigger] incidents[i], start, end)
                        ==> incidents[i].geometry_index_start < end {
                    assert forall|i: int|
                        0 <= i < incidents.drop_last().len() && overlaps_window(
                            #[trigger] incidents.drop_last()[i],
                            start,
                            end,
                        ) implies incidents.drop_last()[i].geometry_index_start < end by {
                        assert(incidents.drop_last()[i] == incidents[i]);
                    }
                }
            },
        }
    }
}

/// The incidents of a step of a leg are the leg's incidents clipped to the
/// step's window, so their end indices are at most the step's span: one
/// less than the number of its coordinates.
pub proof fn lemma_step_incidents(
    steps: Seq<OsrmRouteStepView>,
    count: nat,
    k: int,
    leg_annotations: Option<Seq<AnnotationValue>>,
    leg_incidents: Seq<IncidentView>,
    precision: u32,
)
    requires
        0 <= k < count,
        folded_steps(steps, count, leg_annotations, leg_incidents, precision) is Ok,
    ensures
        ({
            let (done, _) = folded_steps(
                steps,
                count,
                leg_annotations,
                leg_incidents,
                precision,
            )->Ok_0;
            let start = spans_total(done.take(k));
            let span = span_of(done[k].geometry);
            &&& done[k].incidents == clipped_incidents(leg_incidents, start, start + span)
            &&& forall|j: int|
                0 <= j < done[k].incidents.len() ==> ends_within(
                    #[trigger] done[k].incidents[j],
                    span,
                )
            &&& (forall|i: int|
                0 <= i < leg_incidents.len() && overlaps_window(
                    #[trigger] leg_incidents[i],
                    start,
                    start + span,
                ) ==> leg_incidents[i].geometry_index_start < start + span) ==> forall|j: int|
                0 <= j < done[k].incidents.len() ==> (#[trigger] done[k].incidents[j]).geometry_index_start
                    < span
        }),
{
    lemma_step_windows(steps, count, k, leg_annotations, leg_incidents, precision);
    let (done, _) = folded_steps(steps, count, leg_annotations, leg_incidents, precision)->Ok_0;
    let start = spans_total(done.take(k));
    let span = span_of(done[k].geometry);
    lemma_clipped_incidents_bounds(leg_incidents, start, start + span);
}

/// Whether the annotations and the incidents of a step fit its geometry:
/// a step with at most one coordinate has no annotations, a step with
/// annotations has one less of them than it has coordinates, and no
/// incident of the step ends beyond the step's last coordinate.
pub open spec fn fits_geometry(step: RouteStepView) -> bool {
    &&& step.geometry.len() <= 1 ==> step.annotations is None
    &&& match step.annotations {
        Some(values) => values.len() == step.geometry.len() - 1,
        None => true,
    }
    &&& forall|j: int|
        0 <= j < step.incidents.len() ==> ends_within(
            #[trigger] step.incidents[j],
            span_of(step.geometry),
        )
}

/// The annotations and incidents of every step of a leg fit the step's
/// geometry.
pub proof fn lemma_leg_steps_fit(leg: RouteLegView, precision: u32)
    requires
        leg_steps(leg, precision) is Ok,
    ensures
        forall|k: int|
            0 <= k < leg_steps(leg, precision)->Ok_0.len() ==> fits_geometry(
                #[trigger] leg_steps(leg, precision)->Ok_0[k],
            ),
{
    let leg_annotations = zipped_optional(leg.annotation);
    let steps = leg_steps(leg, precision)->Ok_0;
    lemma_fold_shape(leg.steps, leg.steps.len(), leg_annotations, leg.incidents, precision);
    assert forall|k: int| 0 <= k < steps.len() implies fits_geometry(#[trigger] steps[k]) by {
        lemma_step_annotations(
            leg.steps,
            leg.steps.len(),
            k,
            leg_annotations,
            leg.incidents,
            precision,
        );
        lemma_step_incidents(
            leg.steps,
            leg.steps.len(),
            k,
            leg_annotations,
            leg.incidents,
            precision,
        );
    }
}

/// The annotations and incidents of every step of the first `count` legs
/// fit the step's geometry.
pub proof fn lemma_route_steps_fit(legs: Seq<RouteLegView>, count: nat, precision: u32)
    requires
        route_steps(legs, count, precision) is Ok,
    ensures
        forall|k: int|
            0 <= k < route_steps(legs, count, precision)->Ok_0.len() ==> fits_geometry(
                #[trigger] route_steps(legs, count, precision)->Ok_0[k],
            ),
    decreases count,
{
    if count > 0 {
        lemma_route_steps_fit(legs, (count - 1) as nat, precision);
        lemma_leg_steps_fit(legs[count - 1], precision);
        let done = route_steps(legs, (count - 1) as nat, precision)->Ok_0;
        let more = leg_steps(legs[count - 1], precision)->Ok_0;
        let all = route_steps(legs, count, precision)->Ok_0;
        assert forall|k: int| 0 <= k < all.len() implies fits_geometry(#[trigger] all[k]) by {
            if k < done.len() {
                assert(all[k] == done[k]);
            } else {
                assert(all[k] == more[k - done.len()]);
            }
        }
    }
}

/// In every route that a response parses to, the annotations and
/// incidents of every step fit the step's geometry: a step with a single
/// coordinate has no annotations, a step with annotations has one less of
/// them than it has coordinates, and no incident of a step ends beyond the
/// step's last coordinate. This holds of the routes with their utterance
/// identifiers as well, which are no part of it.
pub proof fn lemma_parsed_steps_fit(
    response: RouteResponseView,
    precision: u32,
    routes: Seq<RouteView>,
)
    requires
        parsed(response, precision) == Ok::<Seq<RouteView>, ParsingErrorView>(
            routes_without_ids(routes),
        ),
    ensures
        forall|i: int, k: int|
            0 <= i < routes.len() && 0 <= k < routes[i].steps.len() ==> fits_geometry(
                #[trigger] routes[i].steps[k],
            ),
{
    lemma_parsed_routes_in_order(
        response.routes,
        response.routes.len(),
        response.waypoints,
        precision,
    );
    assert forall|i: int, k: int|
        0 <= i < routes.len() && 0 <= k < routes[i].steps.len() implies fits_geometry(
        #[trigger] routes[i].steps[k],
    ) by {
        let plain = routes_without_ids(routes)[i];
        assert(plain == routes[i].without_utterance_ids());
        assert(assembled(response.routes[i], response.waypoints, precision) == Ok::<
            RouteView,
            ParsingErrorView,
        >(plain));
        lemma_route_steps_fit(response.routes[i].legs, response.routes[i].legs.len(), precision);
        let step = plain.steps[k];
        assert(step == routes[i].steps[k].without_utterance_ids());
        assert(fits_geometry(step));
        assert(step.incidents == routes[i].steps[k].incidents);
    }
}

/// A waypoint of a route is a via waypoint if and only if its index stands
/// in the list of via waypoints of some leg; otherwise it is a break.
pub proof fn lemma_waypoint_kinds(waypoints: Seq<OsrmWaypointView>, legs: Seq<RouteLegView>)
    ensures
        classified(waypoints, legs).len() == waypoints.len(),
        forall|index: int|
            0 <= index < waypoints.len() ==> {
                &&& (#[trigger] classified(waypoints, legs)[index]).coordinate
                    == waypoints[index].location
                &&& classified(waypoints, legs)[index].kind == WaypointKind::Via <==> exists|
                    leg: int,
                    position: int,
                |
                    0 <= leg < legs.len() && 0 <= position < legs[leg].via_waypoints.len() && (
                    #[trigger] legs[leg].via_waypoints[position]).waypoint_index == index
                &&& classified(waypoints, legs)[index].kind == WaypointKind::Break <==> !is_via(
                    legs,
                    index,
                )
            },
{
    assert forall|index: int| 0 <= index < waypoints.len() implies (classified(
        waypoints,
        legs,
    )[index].kind == WaypointKind::Via <==> exists|leg: int, position: int|
        0 <= leg < legs.len() && 0 <= position < legs[leg].via_waypoints.len() && (
        #[trigger] legs[leg].via_waypoints[position]).waypoint_index == index) by {
        if is_via(legs, index) {
            let leg = choose|leg: int|
                0 <= leg < legs.len() && leg_passes(#[trigger] legs[leg], index);
            let position = choose|position: int|
                0 <= position < legs[leg].via_waypoints.len() && (
                #[trigger] legs[leg].via_waypoints[position]).waypoint_index == index;
            assert(legs[leg].via_waypoints[position].waypoint_index == index);
        }
        if exists|leg: int, position: int|
            0 <= leg < legs.len() && 0 <= position < legs[leg].via_waypoints.len() && (
            #[trigger] legs[leg].via_waypoints[position]).waypoint_index == index {
            let (leg, position) = choose|leg: int, position: int|
                0 <= leg < legs.len() && 0 <= position < legs[leg].via_waypoints.len() && (
                #[trigger] legs[leg].via_waypoints[position]).waypoint_index == index;
            assert(leg_passes(legs[leg], index));
        }
    }
}

/// The lane information of a banner content has one entry for each of its
/// components of the lane type, and it is absent if and only if there is no
/// such component.
pub proof fn lemma_lane_count(components: Seq<BannerContentComponentView>)
    ensures
        lanes_of(components).len() == components.filter(
            |component: BannerContentComponentView| component.component_type == Some(lane_type()),
        ).len(),
        lane_info_of(components) is None <==> lanes_of(components).len() == 0,
        lane_info_of(components) matches Some(lanes) ==> lanes == lanes_of(components)
            && lanes.len() > 0,
    decreases components.len(),
{
    let is_lane = |component: BannerContentComponentView|
        component.component_type == Some(lane_type());
    let f = |component: BannerContentComponentView| lane_of(component);
    reveal(Seq::filter);
    if components.len() > 0 {
        lemma_lane_count(components.drop_last());
        assert(lanes_of(components.drop_last()) == components.drop_last().filter_map(f));
    }
}

} // verus!
