//! The response parser: the entry point of the library.

use vstd::prelude::*;
use crate::backend::{OsrmRouteView, OsrmWaypointView, RouteResponse, RouteResponseView};
use crate::models::{ParsingError, ParsingErrorView, Route, RouteView};
use crate::route::assembled;
use crate::utterance::{lemma_after_after, lemma_after_nothing, lemma_yields_concat, UtteranceIdSource};
use crate::views::lemma_deep_view_push;

verus! {

/// The status code of a successful response.
pub open spec fn success_code() -> Seq<char> {
    "Ok"@
}

/// The routes that the first `count` routes of a response become, in order
/// and apart from their utterance identifiers; or the error of the first
/// route that cannot be assembled.
pub open spec fn parsed_routes(
    routes: Seq<OsrmRouteView>,
    count: nat,
    waypoints: Seq<OsrmWaypointView>,
    precision: u32,
) -> Result<Seq<RouteView>, ParsingErrorView>
    decreases count,
{
    if count == 0 {
        Ok(Seq::empty())
    } else {
        match parsed_routes(routes, (count - 1) as nat, waypoints, precision) {
            Err(e) => Err(e),
            Ok(done) => match assembled(routes[count - 1], waypoints, precision) {
                Err(e) => Err(e),
                Ok(route) => Ok(done.push(route)),
            },
        }
    }
}

/// What a response parses to, apart from utterance identifiers: the error
/// that carries its status code if that is not the success code, and
/// otherwise all of its routes or the error of the first that cannot be
/// assembled.
pub open spec fn parsed(response: RouteResponseView, precision: u32) -> Result<
    Seq<RouteView>,
    ParsingErrorView,
> {
    if response.code != success_code() {
        Err(ParsingErrorView::InvalidStatusCode { code: response.code })
    } else {
        parsed_routes(response.routes, response.routes.len(), response.waypoints, precision)
    }
}

/// Routes with the utterance identifiers of their spoken instructions set
/// to zero.
pub open spec fn routes_without_ids(routes: Seq<RouteView>) -> Seq<RouteView> {
    routes.map_values(|route: RouteView| route.without_utterance_ids())
}

/// The utterance identifiers of the spoken instructions of routes, route by
/// route and in order.
pub open spec fn routes_utterance_ids(routes: Seq<RouteView>) -> Seq<u128>
    decreases routes.len(),
{
    if routes.len() == 0 {
        Seq::empty()
    } else {
        routes_utterance_ids(routes.drop_last()) + routes.last().utterance_ids()
    }
}

/// The view of a parsing result, apart from utterance identifiers.
pub open spec fn parsing_view(r: Result<Vec<Route>, ParsingError>) -> Result<
    Seq<RouteView>,
    ParsingErrorView,
> {
    match r {
        Ok(routes) => Ok(routes_without_ids(routes.deep_view())),
        Err(e) => Err(e@),
    }
}

/// Once a route cannot be assembled, the response has no routes, however
/// many more routes it is asked for.
pub proof fn lemma_parse_error_stays(
    routes: Seq<OsrmRouteView>,
    count: nat,
    more: nat,
    waypoints: Seq<OsrmWaypointView>,
    precision: u32,
)
    requires
        count <= more,
        parsed_routes(routes, count, waypoints, precision) is Err,
    ensures
        parsed_routes(routes, more, waypoints, precision) == parsed_routes(
            routes,
            count,
            waypoints,
            precision,
        ),
    decreases more - count,
{
    if count < more {
        lemma_parse_error_stays(routes, count, (more - 1) as nat, waypoints, precision);
    }
}

/// Parses a response, drawing utterance identifiers from the given source.
///
/// Apart from utterance identifiers the result is [`parsed`]. The utterance
/// identifiers of the routes are, in order, what the source yields; where
/// parsing fails, the source is left as it was.
pub fn parse_with(response: &RouteResponse, polyline_precision: u32, ids: &mut UtteranceIdSource) -> (r:
    Result<Vec<Route>, ParsingError>)
    ensures
        parsing_view(r) == parsed(response@, polyline_precision),
        match r {
            Ok(routes) => {
                &&& routes@.len() == response.routes@.len()
                &&& old(ids).yields(routes_utterance_ids(routes.deep_view()))
                &&& *final(ids) == old(ids).after(routes_utterance_ids(routes.deep_view()).len())
            },
            Err(_) => *final(ids) == *old(ids),
        },
{
    let ok = "Ok".to_owned();
    if response.code != ok {
        return Err(ParsingError::InvalidStatusCode { code: response.code.clone() });
    }
    let saved = *ids;
    let mut routes: Vec<Route> = Vec::new();
    let mut i: usize = 0;
    proof {
        lemma_after_nothing(saved);
        assert(routes_without_ids(routes.deep_view()) =~= Seq::<RouteView>::empty());
    }
    while i < response.routes.len()
        invariant
            i <= response.routes.len(),
            routes@.len() == i,
            response@.code == success_code(),
            parsed_routes(response@.routes, i as nat, response@.waypoints, polyline_precision)
                == Ok::<Seq<RouteView>, ParsingErrorView>(routes_without_ids(routes.deep_view())),
            saved == *old(ids),
            saved.yields(routes_utterance_ids(routes.deep_view())),
            *ids == saved.after(routes_utterance_ids(routes.deep_view()).len()),
        decreases response.routes.len() - i,
    {
        let ghost before = routes;
        let ghost drawn = routes_utterance_ids(routes.deep_view());
        assert(response@.routes[i as int] == response.routes[i as int]@);
        match Route::from_osrm(
            &response.routes[i],
            response.waypoints.as_slice(),
            polyline_precision,
            ids,
        ) {
            Ok(route) => {
                routes.push(route);
                proof {
                    lemma_deep_view_push(before, routes, route);
                    assert(routes.deep_view().drop_last() =~= before.deep_view());
                    lemma_yields_concat(saved, drawn, route@.utterance_ids());
                    lemma_after_after(saved, drawn.len(), route@.utterance_ids().len());
                    assert(routes_without_ids(routes.deep_view()) =~= routes_without_ids(
                        before.deep_view(),
                    ).push(route@.without_utterance_ids()));
                }
            },
            Err(e) => {
                proof {
                    lemma_parse_error_stays(
                        response@.routes,
                        (i + 1) as nat,
                        response@.routes.len(),
                        response@.waypoints,
                        polyline_precision,
                    );
                }
                *ids = saved;
                return Err(e);
            },
        }
        i += 1;
    }
    Ok(routes)
}

/// A response parser for OSRM-compatible routing backends.
///
/// The parser is not limited to the standard OSRM format: what Valhalla and
/// Mapbox add to it is taken into the routes as well.
#[derive(Debug)]
pub struct OsrmResponseParser {
    polyline_precision: u32,
    utterance_ids: UtteranceIdSource,
}

impl OsrmResponseParser {
    /// The precision at which the parser decodes polylines.
    pub closed spec fn precision(&self) -> u32 {
        self.polyline_precision
    }

    /// The source that every response's utterance identifiers start from.
    pub closed spec fn id_source(&self) -> UtteranceIdSource {
        self.utterance_ids
    }

    /// A parser that decodes polylines at the given precision and gives
    /// every spoken instruction a fresh random identifier.
    pub fn new(polyline_precision: u32) -> (parser: Self)
        ensures
            parser.precision() == polyline_precision,
            parser.id_source() == UtteranceIdSource::Random,
    {
        Self { polyline_precision, utterance_ids: UtteranceIdSource::Random }
    }

    /// A parser that decodes polylines at the given precision and draws the
    /// utterance identifiers of every response from a copy of the given
    /// source.
    pub fn with_utterance_ids(polyline_precision: u32, utterance_ids: UtteranceIdSource) -> (parser:
        Self)
        ensures
            parser.precision() == polyline_precision,
            parser.id_source() == utterance_ids,
    {
        Self { polyline_precision, utterance_ids }
    }

    /// The precision at which the parser decodes polylines.
    pub fn polyline_precision(&self) -> (precision: u32)
        ensures
            precision == self.precision(),
    {
        self.polyline_precision
    }

    /// Parses a response into its routes.
    ///
    /// Apart from utterance identifiers the result is [`parsed`]: either
    /// all routes of the response, in order, or the first error. The
    /// utterance identifiers are what the parser's source yields.
    pub fn parse_response(&self, response: &RouteResponse) -> (r: Result<Vec<Route>, ParsingError>)
        ensures
            parsing_view(r) == parsed(response@, self.precision()),
            r matches Ok(routes) ==> routes@.len() == response.routes@.len()
                && self.id_source().yields(routes_utterance_ids(routes.deep_view())),
    {
        let mut ids = self.utterance_ids;
        parse_with(response, self.polyline_precision, &mut ids)
    }
}

} // verus!
