//! The route assembler: a backend route and the response's waypoints become
//! a normalized route.

use vstd::prelude::*;
use crate::backend::{OsrmRoute, OsrmRouteView, OsrmWaypoint, OsrmWaypointView, RouteLeg, RouteLegView};
use crate::geometry::{decode_geometry, decoded_geometry};
use crate::models::{
    steps_utterance_ids, steps_without_ids, ParsingError, ParsingErrorView, Route, RouteStep,
    RouteStepView, RouteView, Waypoint, WaypointKind,
};
use crate::steps::{leg_steps, steps_of_leg};
use crate::utterance::{lemma_after_after, lemma_after_nothing, lemma_yields_concat, UtteranceIdSource};
use crate::views::lemma_deep_view_append;

verus! {

/// Whether a leg passes through the waypoint with the given index: the
/// index stands in the leg's list of via waypoints.
pub open spec fn leg_passes(leg: RouteLegView, index: int) -> bool {
    exists|position: int|
        0 <= position < leg.via_waypoints.len() && (
        #[trigger] leg.via_waypoints[position]).waypoint_index == index
}

/// Whether the waypoint with the given index is a via waypoint of the
/// route: some leg passes through it.
pub open spec fn is_via(legs: Seq<RouteLegView>, index: int) -> bool {
    exists|leg: int| 0 <= leg < legs.len() && leg_passes(#[trigger] legs[leg], index)
}

/// The kind of the waypoint with the given index.
pub open spec fn kind_of(legs: Seq<RouteLegView>, index: int) -> WaypointKind {
    if is_via(legs, index) {
        WaypointKind::Via
    } else {
        WaypointKind::Break
    }
}

/// The waypoints of the route: each of the response's waypoints at its
/// location, with its kind.
pub open spec fn classified(waypoints: Seq<OsrmWaypointView>, legs: Seq<RouteLegView>) -> Seq<
    Waypoint,
> {
    Seq::new(
        waypoints.len(),
        |index: int| Waypoint { coordinate: waypoints[index].location, kind: kind_of(legs, index) },
    )
}

/// The route steps of the first `count` legs, leg by leg, apart from their
/// utterance identifiers; or the error of the first leg that has none.
pub open spec fn route_steps(legs: Seq<RouteLegView>, count: nat, precision: u32) -> Result<
    Seq<RouteStepView>,
    ParsingErrorView,
>
    decreases count,
{
    if count == 0 {
        Ok(Seq::empty())
    } else {
        match route_steps(legs, (count - 1) as nat, precision) {
            Err(e) => Err(e),
            Ok(done) => match leg_steps(legs[count - 1], precision) {
                Err(e) => Err(e),
                Ok(steps) => Ok(done + steps),
            },
        }
    }
}

/// The route that a backend route becomes, apart from its utterance
/// identifiers: its geometry and bounding box are those of the route-level
/// polyline, its distance and duration are the backend's, and its steps are
/// those of its legs. It fails with the error of the route's geometry, or
/// else with that of the first step whose geometry has one.
pub open spec fn assembled(
    route: OsrmRouteView,
    waypoints: Seq<OsrmWaypointView>,
    precision: u32,
) -> Result<RouteView, ParsingErrorView> {
    match decoded_geometry(route.geometry, precision) {
        Err(e) => Err(e),
        Ok((geometry, bbox)) => match route_steps(route.legs, route.legs.len(), precision) {
            Err(e) => Err(e),
            Ok(steps) => Ok(
                RouteView {
                    geometry,
                    bbox,
                    distance: route.distance,
                    duration: route.duration,
                    waypoints: classified(waypoints, route.legs),
                    steps,
                },
            ),
        },
    }
}

/// Whether a leg passes through the waypoint with the given index.
pub fn passes_through(leg: &RouteLeg, index: usize) -> (r: bool)
    ensures
        r == leg_passes(leg@, index as int),
{
    let mut position: usize = 0;
    while position < leg.via_waypoints.len()
        invariant
            position <= leg.via_waypoints.len(),
            forall|k: int|
                0 <= k < position ==> (#[trigger] leg@.via_waypoints[k]).waypoint_index != index,
        decreases leg.via_waypoints.len() - position,
    {
        if leg.via_waypoints[position].waypoint_index == index {
            assert(leg@.via_waypoints[position as int].waypoint_index == index);
            return true;
        }
        position += 1;
    }
    false
}

/// The kind of the waypoint with the given index: `Via` if and only if some
/// leg passes through it.
pub fn waypoint_kind(legs: &Vec<RouteLeg>, index: usize) -> (kind: WaypointKind)
    ensures
        kind == kind_of(legs.deep_view(), index as int),
{
    let mut leg: usize = 0;
    while leg < legs.len()
        invariant
            leg <= legs.len(),
            forall|k: int| 0 <= k < leg ==> !leg_passes(#[trigger] legs.deep_view()[k], index as int),
        decreases legs.len() - leg,
    {
        if passes_through(&legs[leg], index) {
            assert(legs.deep_view()[leg as int] == legs[leg as int]@);
            return WaypointKind::Via;
        }
        assert(legs.deep_view()[leg as int] == legs[leg as int]@);
        leg += 1;
    }
    WaypointKind::Break
}

/// The waypoints of a route, each with its kind.
pub fn classify_waypoints(waypoints: &[OsrmWaypoint], legs: &Vec<RouteLeg>) -> (r: Vec<Waypoint>)
    ensures
        r@ == classified(waypoints.deep_view(), legs.deep_view()),
{
    let mut r: Vec<Waypoint> = Vec::new();
    let mut index: usize = 0;
    while index < waypoints.len()
        invariant
            index <= waypoints.len(),
            r@.len() == index,
            forall|k: int|
                0 <= k < index ==> #[trigger] r@[k] == (Waypoint {
                    coordinate: waypoints@[k].location,
                    kind: kind_of(legs.deep_view(), k),
                }),
        decreases waypoints.len() - index,
    {
        r.push(Waypoint { coordinate: waypoints[index].location, kind: waypoint_kind(legs, index) });
        index += 1;
    }
    assert(r@ =~= classified(waypoints.deep_view(), legs.deep_view()));
    r
}

/// Once a leg has no steps, the route has none, however many more legs it
/// is asked for.
pub proof fn lemma_route_error_stays(legs: Seq<RouteLegView>, count: nat, more: nat, precision: u32)
    requires
        count <= more,
        route_steps(legs, count, precision) is Err,
    ensures
        route_steps(legs, more, precision) == route_steps(legs, count, precision),
    decreases more - count,
{
    if count < more {
        lemma_route_error_stays(legs, count, (more - 1) as nat, precision);
    }
}

/// The utterance identifiers of steps followed by more steps.
pub proof fn lemma_utterance_ids_concat(first: Seq<RouteStepView>, second: Seq<RouteStepView>)
    ensures
        steps_utterance_ids(first + second) == steps_utterance_ids(first) + steps_utterance_ids(
            second,
        ),
    decreases second.len(),
{
    if second.len() == 0 {
        assert(first + second =~= first);
        assert(steps_utterance_ids(first) + Seq::<u128>::empty() =~= steps_utterance_ids(first));
    } else {
        lemma_utterance_ids_concat(first, second.drop_last());
        assert((first + second).drop_last() =~= first + second.drop_last());
        assert((first + second).last() == second.last());
        assert((steps_utterance_ids(first) + steps_utterance_ids(second.drop_last()))
            + second.last().utterance_ids() =~= steps_utterance_ids(first) + (steps_utterance_ids(
            second.drop_last(),
        ) + second.last().utterance_ids()));
    }
}

/// Builds the route steps of all legs of a route, leg by leg.
///
/// Where a leg has no steps, the route has none, and the source of
/// identifiers is left as it was.
pub fn steps_of_legs(legs: &Vec<RouteLeg>, polyline_precision: u32, ids: &mut UtteranceIdSource) -> (r:
    Result<Vec<RouteStep>, ParsingError>)
    ensures
        match r {
            Ok(steps) => {
                &&& route_steps(legs.deep_view(), legs.len() as nat, polyline_precision) == Ok::<
                    Seq<RouteStepView>,
                    ParsingErrorView,
                >(steps_without_ids(steps.deep_view()))
                &&& old(ids).yields(steps_utterance_ids(steps.deep_view()))
                &&& *final(ids) == old(ids).after(steps_utterance_ids(steps.deep_view()).len())
            },
            Err(e) => {
                &&& route_steps(legs.deep_view(), legs.len() as nat, polyline_precision) == Err::<
                    Seq<RouteStepView>,
                    ParsingErrorView,
                >(e@)
                &&& *final(ids) == *old(ids)
            },
        },
{
    let saved = *ids;
    let mut steps: Vec<RouteStep> = Vec::new();
    let mut i: usize = 0;
    proof {
        lemma_after_nothing(saved);
        assert(steps_without_ids(steps.deep_view()) =~= Seq::<RouteStepView>::empty());
    }
    while i < legs.len()
        invariant
            i <= legs.len(),
            route_steps(legs.deep_view(), i as nat, polyline_precision) == Ok::<
                Seq<RouteStepView>,
                ParsingErrorView,
            >(steps_without_ids(steps.deep_view())),
            saved == *old(ids),
            saved.yields(steps_utterance_ids(steps.deep_view())),
            *ids == saved.after(steps_utterance_ids(steps.deep_view()).len()),
        decreases legs.len() - i,
    {
        let ghost before = steps;
        let ghost drawn = steps_utterance_ids(steps.deep_view());
        assert(legs.deep_view()[i as int] == legs[i as int]@);
        match steps_of_leg(&legs[i], polyline_precision, ids) {
            Ok(mut more) => {
                let ghost added = more;
                steps.append(&mut more);
                proof {
                    lemma_deep_view_append(before, added, steps);
                    lemma_utterance_ids_concat(before.deep_view(), added.deep_view());
                    lemma_yields_concat(saved, drawn, steps_utterance_ids(added.deep_view()));
                    lemma_after_after(
                        saved,
                        drawn.len(),
                        steps_utterance_ids(added.deep_view()).len(),
                    );
                    assert(steps_without_ids(steps.deep_view()) =~= steps_without_ids(
                        before.deep_view(),
                    ) + steps_without_ids(added.deep_view()));
                }
            },
            Err(e) => {
                proof {
                    lemma_route_error_stays(
                        legs.deep_view(),
                        (i + 1) as nat,
                        legs.len() as nat,
                        polyline_precision,
                    );
                }
                *ids = saved;
                return Err(e);
            },
        }
        i += 1;
    }
    Ok(steps)
}

/// The view of an assembly result, apart from utterance identifiers.
pub open spec fn assembly_view(r: Result<Route, ParsingError>) -> Result<RouteView, ParsingErrorView> {
    match r {
        Ok(route) => Ok(route@.without_utterance_ids()),
        Err(e) => Err(e@),
    }
}

impl Route {
    /// Assembles the normalized route of a backend route.
    ///
    /// Apart from utterance identifiers the result is [`assembled`]. The
    /// utterance identifiers of the route are, in order, what the source
    /// yields; where the assembly fails, the source is left as it was.
    pub fn from_osrm(
        route: &OsrmRoute,
        waypoints: &[OsrmWaypoint],
        polyline_precision: u32,
        ids: &mut UtteranceIdSource,
    ) -> (r: Result<Route, ParsingError>)
        ensures
            assembly_view(r) == assembled(route@, waypoints.deep_view(), polyline_precision),
            match r {
                Ok(assembled_route) => {
                    &&& old(ids).yields(assembled_route@.utterance_ids())
                    &&& *final(ids) == old(ids).after(assembled_route@.utterance_ids().len())
                },
                Err(_) => *final(ids) == *old(ids),
            },
    {
        let waypoints = classify_waypoints(waypoints, &route.legs);
        let (geometry, bbox) = match decode_geometry(route.geometry.as_str(), polyline_precision) {
            Ok(decoded) => decoded,
            Err(e) => {
                return Err(e);
            },
        };
        let steps = match steps_of_legs(&route.legs, polyline_precision, ids) {
            Ok(steps) => steps,
            Err(e) => {
                return Err(e);
            },
        };
        Ok(
            Route {
                geometry,
                bbox,
                distance: route.distance,
                duration: route.duration,
                waypoints,
                steps,
            },
        )
    }
}

} // verus!
