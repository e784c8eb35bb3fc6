//! The route response as an OSRM-compatible backend sends it.
//!
//! One combined schema serves OSRM, Valhalla and Mapbox: what only some
//! backends send is optional here, and its absence is no error.

use vstd::prelude::*;
use crate::models::{GeographicCoordinate, Incident, IncidentView, ManeuverModifier, ManeuverType, MaxSpeed};
use crate::scalar::Double;

verus! {

/// A waypoint, as the backend snapped it to the road network.
#[derive(Clone, Debug, PartialEq, Eq)]
pub struct OsrmWaypoint {
    pub name: Option<String>,
    pub location: GeographicCoordinate,
    pub distance: Option<Double>,
}

/// The view of an [`OsrmWaypoint`].
pub struct OsrmWaypointView {
    pub name: Option<Seq<char>>,
    pub location: GeographicCoordinate,
    pub distance: Option<Double>,
}

impl View for OsrmWaypoint {
    type V = OsrmWaypointView;

    open spec fn view(&self) -> OsrmWaypointView {
        OsrmWaypointView {
            name: self.name.deep_view(),
            location: self.location,
            distance: self.distance,
        }
    }
}

impl DeepView for OsrmWaypoint {
    type V = OsrmWaypointView;

    open spec fn deep_view(&self) -> OsrmWaypointView {
        self@
    }
}

/// A waypoint that a leg passes through without stopping.
#[derive(Clone, Copy, Debug, PartialEq, Eq, Structural, Hash)]
pub struct ViaWaypoint {
    /// The index of the waypoint in the response's waypoint list.
    pub waypoint_index: usize,
    pub distance_from_start: Double,
    pub geometry_index: u64,
}

/// The telemetry of a leg, column by column: each array has one entry per
/// segment between two consecutive coordinates of the leg.
#[derive(Clone, Debug, PartialEq, Eq)]
pub struct Annotation {
    pub distance: Vec<Double>,
    pub duration: Vec<Double>,
    pub speed: Vec<Double>,
    pub maxspeed: Vec<MaxSpeed>,
}

/// The view of an [`Annotation`].
pub struct AnnotationView {
    pub distance: Seq<Double>,
    pub duration: Seq<Double>,
    pub speed: Seq<Double>,
    pub maxspeed: Seq<MaxSpeed>,
}

impl View for Annotation {
    type V = AnnotationView;

    open spec fn view(&self) -> AnnotationView {
        AnnotationView {
            distance: self.distance@,
            duration: self.duration@,
            speed: self.speed@,
            maxspeed: self.maxspeed@,
        }
    }
}

impl DeepView for Annotation {
    type V = AnnotationView;

    open spec fn deep_view(&self) -> AnnotationView {
        self@
    }
}

/// One component of a banner's content.
#[derive(Clone, Debug, PartialEq, Eq)]
pub struct BannerContentComponent {
    pub text: Option<String>,
    /// The kind of the component; `"lane"` marks a lane of a lane banner.
    pub component_type: Option<String>,
    pub directions: Option<Vec<String>>,
    pub active: Option<bool>,
    pub active_direction: Option<String>,
}

/// The view of a [`BannerContentComponent`].
pub struct BannerContentComponentView {
    pub text: Option<Seq<char>>,
    pub component_type: Option<Seq<char>>,
    pub directions: Option<Seq<Seq<char>>>,
    pub active: Option<bool>,
    pub active_direction: Option<Seq<char>>,
}

impl View for BannerContentComponent {
    type V = BannerContentComponentView;

    open spec fn view(&self) -> BannerContentComponentView {
        BannerContentComponentView {
            text: self.text.deep_view(),
            component_type: self.component_type.deep_view(),
            directions: self.directions.deep_view(),
            active: self.active,
            active_direction: self.active_direction.deep_view(),
        }
    }
}

impl DeepView for BannerContentComponent {
    type V = BannerContentComponentView;

    open spec fn deep_view(&self) -> BannerContentComponentView {
        self@
    }
}

/// One part of a banner: its text, its maneuver and its components.
#[derive(Clone, Debug, PartialEq, Eq)]
pub struct BannerContent {
    pub text: String,
    pub maneuver_type: Option<ManeuverType>,
    pub maneuver_modifier: Option<ManeuverModifier>,
    pub roundabout_exit_degrees: Option<u16>,
    pub components: Vec<BannerContentComponent>,
}

/// The view of a [`BannerContent`].
pub struct BannerContentView {
    pub text: Seq<char>,
    pub maneuver_type: Option<ManeuverType>,
    pub maneuver_modifier: Option<ManeuverModifier>,
    pub roundabout_exit_degrees: Option<u16>,
    pub components: Seq<BannerContentComponentView>,
}

impl View for BannerContent {
    type V = BannerContentView;

    open spec fn view(&self) -> BannerContentView {
        BannerContentView {
            text: self.text@,
            maneuver_type: self.maneuver_type,
            maneuver_modifier: self.maneuver_modifier,
            roundabout_exit_degrees: self.roundabout_exit_degrees,
            components: self.components.deep_view(),
        }
    }
}

impl DeepView for BannerContent {
    type V = BannerContentView;

    open spec fn deep_view(&self) -> BannerContentView {
        self@
    }
}

/// The backend's visual guidance for a step.
#[derive(Clone, Debug, PartialEq, Eq)]
pub struct BannerInstruction {
    pub distance_along_geometry: Double,
    pub primary: BannerContent,
    pub secondary: Option<BannerContent>,
    pub sub: Option<BannerContent>,
}

/// The view of a [`BannerInstruction`].
pub struct BannerInstructionView {
    pub distance_along_geometry: Double,
    pub primary: BannerContentView,
    pub secondary: Option<BannerContentView>,
    pub sub: Option<BannerContentView>,
}

impl View for BannerInstruction {
    type V = BannerInstructionView;

    open spec fn view(&self) -> BannerInstructionView {
        BannerInstructionView {
            distance_along_geometry: self.distance_along_geometry,
            primary: self.primary@,
            secondary: self.secondary.deep_view(),
            sub: self.sub.deep_view(),
        }
    }
}

impl DeepView for BannerInstruction {
    type V = BannerInstructionView;

    open spec fn deep_view(&self) -> BannerInstructionView {
        self@
    }
}

/// The backend's spoken guidance for a step.
#[derive(Clone, Debug, PartialEq, Eq)]
pub struct VoiceInstruction {
    pub announcement: String,
    pub ssml_announcement: Option<String>,
    pub distance_along_geometry: Double,
}

/// The view of a [`VoiceInstruction`].
pub struct VoiceInstructionView {
    pub announcement: Seq<char>,
    pub ssml_announcement: Option<Seq<char>>,
    pub distance_along_geometry: Double,
}

impl View for VoiceInstruction {
    type V = VoiceInstructionView;

    open spec fn view(&self) -> VoiceInstructionView {
        VoiceInstructionView {
            announcement: self.announcement@,
            ssml_announcement: self.ssml_announcement.deep_view(),
            distance_along_geometry: self.distance_along_geometry,
        }
    }
}

impl DeepView for VoiceInstruction {
    type V = VoiceInstructionView;

    open spec fn deep_view(&self) -> VoiceInstructionView {
        self@
    }
}

/// The maneuver that a step begins with.
#[derive(Clone, Debug, PartialEq, Eq)]
pub struct StepManeuver {
    /// The backend's own wording of the maneuver, where it sends one.
    pub instruction: Option<String>,
    pub maneuver_type: Option<ManeuverType>,
    pub modifier: Option<ManeuverModifier>,
    pub location: GeographicCoordinate,
}

/// The view of a [`StepManeuver`].
pub struct StepManeuverView {
    pub instruction: Option<Seq<char>>,
    pub maneuver_type: Option<ManeuverType>,
    pub modifier: Option<ManeuverModifier>,
    pub location: GeographicCoordinate,
}

impl View for StepManeuver {
    type V = StepManeuverView;

    open spec fn view(&self) -> StepManeuverView {
        StepManeuverView {
            instruction: self.instruction.deep_view(),
            maneuver_type: self.maneuver_type,
            modifier: self.modifier,
            location: self.location,
        }
    }
}

impl StepManeuverView {
    /// The instruction text of the maneuver: the backend's wording, or the
    /// empty text where it sent none.
    pub open spec fn instruction_text(self) -> Seq<char> {
        match self.instruction {
            Some(text) => text,
            None => Seq::empty(),
        }
    }
}

impl StepManeuver {
    /// The human-readable instruction of the maneuver.
    pub fn get_instruction(&self) -> (text: String)
        ensures
            text@ == self@.instruction_text(),
    {
        match &self.instruction {
            Some(text) => text.clone(),
            None => String::new(),
        }
    }
}

/// One maneuver-level segment of a leg.
#[derive(Clone, Debug, PartialEq, Eq)]
pub struct OsrmRouteStep {
    /// The step's coordinates, as an encoded polyline.
    pub geometry: String,
    pub maneuver: StepManeuver,
    pub banner_instructions: Vec<BannerInstruction>,
    pub voice_instructions: Vec<VoiceInstruction>,
    pub distance: Double,
    pub duration: Double,
    pub name: Option<String>,
}

/// The view of an [`OsrmRouteStep`].
pub struct OsrmRouteStepView {
    pub geometry: Seq<char>,
    pub maneuver: StepManeuverView,
    pub banner_instructions: Seq<BannerInstructionView>,
    pub voice_instructions: Seq<VoiceInstructionView>,
    pub distance: Double,
    pub duration: Double,
    pub name: Option<Seq<char>>,
}

impl View for OsrmRouteStep {
    type V = OsrmRouteStepView;

    open spec fn view(&self) -> OsrmRouteStepView {
        OsrmRouteStepView {
            geometry: self.geometry@,
            maneuver: self.maneuver@,
            banner_instructions: self.banner_instructions.deep_view(),
            voice_instructions: self.voice_instructions.deep_view(),
            distance: self.distance,
            duration: self.duration,
            name: self.name.deep_view(),
        }
    }
}

impl DeepView for OsrmRouteStep {
    type V = OsrmRouteStepView;

    open spec fn deep_view(&self) -> OsrmRouteStepView {
        self@
    }
}

/// The part of a route between two consecutive waypoints.
#[derive(Clone, Debug, PartialEq, Eq)]
pub struct RouteLeg {
    pub steps: Vec<OsrmRouteStep>,
    pub annotation: Option<Annotation>,
    /// The incidents on the leg, indexed from the leg's first coordinate.
    pub incidents: Vec<Incident>,
    pub via_waypoints: Vec<ViaWaypoint>,
}

/// The view of a [`RouteLeg`].
pub struct RouteLegView {
    pub steps: Seq<OsrmRouteStepView>,
    pub annotation: Option<AnnotationView>,
    pub incidents: Seq<IncidentView>,
    pub via_waypoints: Seq<ViaWaypoint>,
}

impl View for RouteLeg {
    type V = RouteLegView;

    open spec fn view(&self) -> RouteLegView {
        RouteLegView {
            steps: self.steps.deep_view(),
            annotation: self.annotation.deep_view(),
            incidents: self.incidents.deep_view(),
            via_waypoints: self.via_waypoints@,
        }
    }
}

impl DeepView for RouteLeg {
    type V = RouteLegView;

    open spec fn deep_view(&self) -> RouteLegView {
        self@
    }
}

/// One route of a response.
#[derive(Clone, Debug, PartialEq, Eq)]
pub struct OsrmRoute {
    pub legs: Vec<RouteLeg>,
    /// The route's coordinates, as an encoded polyline.
    pub geometry: String,
    pub distance: Double,
    pub duration: Double,
}

/// The view of an [`OsrmRoute`].
pub struct OsrmRouteView {
    pub legs: Seq<RouteLegView>,
    pub geometry: Seq<char>,
    pub distance: Double,
    pub duration: Double,
}

impl View for OsrmRoute {
    type V = OsrmRouteView;

    open spec fn view(&self) -> OsrmRouteView {
        OsrmRouteView {
            legs: self.legs.deep_view(),
            geometry: self.geometry@,
            distance: self.distance,
            duration: self.duration,
        }
    }
}

impl DeepView for OsrmRoute {
    type V = OsrmRouteView;

    open spec fn deep_view(&self) -> OsrmRouteView {
        self@
    }
}

/// A route response.
#[derive(Clone, Debug, PartialEq, Eq)]
pub struct RouteResponse {
    /// The status code; `"Ok"` on success.
    pub code: String,
    pub routes: Vec<OsrmRoute>,
    pub waypoints: Vec<OsrmWaypoint>,
}

/// The view of a [`RouteResponse`].
pub struct RouteResponseView {
    pub code: Seq<char>,
    pub routes: Seq<OsrmRouteView>,
    pub waypoints: Seq<OsrmWaypointView>,
}

impl View for RouteResponse {
    type V = RouteResponseView;

    open spec fn view(&self) -> RouteResponseView {
        RouteResponseView {
            code: self.code@,
            routes: self.routes.deep_view(),
            waypoints: self.waypoints.deep_view(),
        }
    }
}

} // verus!
