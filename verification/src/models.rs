//! The normalized route model that the library produces.
//!
//! Every type that owns text or sequences has a view: the same record over
//! `Seq`, which the contracts of the library speak of.

use vstd::prelude::*;
use crate::scalar::Double;

verus! {

/// A position on the globe.
#[derive(Clone, Copy, Debug, PartialEq, Eq, Structural, Hash)]
pub struct GeographicCoordinate {
    pub lat: Double,
    pub lng: Double,
}

/// A rectangle on the globe, given by its south-west and north-east corners.
#[derive(Clone, Copy, Debug, PartialEq, Eq, Structural, Hash)]
pub struct BoundingBox {
    pub sw: GeographicCoordinate,
    pub ne: GeographicCoordinate,
}

/// Whether a waypoint interrupts the route (`Break`) or is passed through (`Via`).
#[derive(Clone, Copy, Debug, PartialEq, Eq, Structural, Hash)]
pub enum WaypointKind {
    Break,
    Via,
}

/// A waypoint of the route, with its derived kind.
#[derive(Clone, Copy, Debug, PartialEq, Eq, Structural, Hash)]
pub struct Waypoint {
    pub coordinate: GeographicCoordinate,
    pub kind: WaypointKind,
}

/// The broad kind of a maneuver.
#[derive(Clone, Copy, Debug, PartialEq, Eq, Structural, Hash)]
pub enum ManeuverType {
    Turn,
    NewName,
    Depart,
    Arrive,
    Merge,
    OnRamp,
    OffRamp,
    Fork,
    EndOfRoad,
    Continue,
    Roundabout,
    Rotary,
    RoundaboutTurn,
    Notification,
    ExitRoundabout,
    ExitRotary,
}

/// The direction that refines a maneuver.
#[derive(Clone, Copy, Debug, PartialEq, Eq, Structural, Hash)]
pub enum ManeuverModifier {
    UTurn,
    SharpRight,
    Right,
    SlightRight,
    Straight,
    SlightLeft,
    Left,
    SharpLeft,
}

/// The unit of a speed limit.
#[derive(Clone, Copy, Debug, PartialEq, Eq, Structural, Hash)]
pub enum SpeedUnit {
    KilometersPerHour,
    MilesPerHour,
    Knots,
}

/// The speed limit on one segment, as far as the backend knows it.
#[derive(Clone, Copy, Debug, PartialEq, Eq, Structural, Hash)]
pub enum MaxSpeed {
    /// The backend does not know the limit.
    Unknown,
    /// The segment has no limit.
    NoLimit,
    /// The limit, in the given unit.
    Known { speed: Double, unit: SpeedUnit },
}

/// The telemetry of one segment between two consecutive coordinates.
///
/// A field is `None` where the backend's array for it does not reach the segment.
#[derive(Clone, Copy, Debug, PartialEq, Eq, Hash)]
pub struct AnnotationValue {
    pub distance: Option<Double>,
    pub duration: Option<Double>,
    pub speed: Option<Double>,
    pub max_speed: Option<MaxSpeed>,
}

/// What kind of event an incident is.
#[derive(Clone, Copy, Debug, PartialEq, Eq, Structural, Hash)]
pub enum IncidentType {
    Accident,
    Congestion,
    Construction,
    DisabledVehicle,
    LaneRestriction,
    MassTransit,
    Miscellaneous,
    OtherNews,
    PlannedEvent,
    RoadClosure,
    RoadHazard,
    Weather,
}

/// How severely an incident affects traffic.
#[derive(Clone, Copy, Debug, PartialEq, Eq, Structural, Hash)]
pub enum Impact {
    Unknown,
    Critical,
    Major,
    Minor,
    Low,
}

/// A reported event tied to a range of coordinate indices.
///
/// In a backend leg the indices count from the leg's first coordinate; in a
/// route step they count from the step's first coordinate.
#[derive(Debug, PartialEq, Eq)]
pub struct Incident {
    pub id: String,
    pub incident_type: IncidentType,
    pub description: Option<String>,
    pub impact: Option<Impact>,
    pub closed: Option<bool>,
    pub geometry_index_start: u64,
    pub geometry_index_end: Option<u64>,
}

/// The view of an [`Incident`].
pub struct IncidentView {
    pub id: Seq<char>,
    pub incident_type: IncidentType,
    pub description: Option<Seq<char>>,
    pub impact: Option<Impact>,
    pub closed: Option<bool>,
    pub geometry_index_start: u64,
    pub geometry_index_end: Option<u64>,
}

impl View for Incident {
    type V = IncidentView;

    open spec fn view(&self) -> IncidentView {
        IncidentView {
            id: self.id@,
            incident_type: self.incident_type,
            description: self.description.deep_view(),
            impact: self.impact,
            closed: self.closed,
            geometry_index_start: self.geometry_index_start,
            geometry_index_end: self.geometry_index_end,
        }
    }
}

impl DeepView for Incident {
    type V = IncidentView;

    open spec fn deep_view(&self) -> IncidentView {
        self@
    }
}

impl Clone for Incident {
    fn clone(&self) -> (r: Self)
        ensures
            r@ == self@,
    {
        Incident {
            id: self.id.clone(),
            incident_type: self.incident_type,
            description: self.description.clone(),
            impact: self.impact,
            closed: self.closed,
            geometry_index_start: self.geometry_index_start,
            geometry_index_end: self.geometry_index_end,
        }
    }
}

/// What one lane of a lane banner shows.
#[derive(Clone, Debug, PartialEq, Eq)]
pub struct LaneInfo {
    pub active: bool,
    pub directions: Vec<String>,
    pub active_direction: Option<String>,
}

/// The view of a [`LaneInfo`].
pub struct LaneInfoView {
    pub active: bool,
    pub directions: Seq<Seq<char>>,
    pub active_direction: Option<Seq<char>>,
}

impl View for LaneInfo {
    type V = LaneInfoView;

    open spec fn view(&self) -> LaneInfoView {
        LaneInfoView {
            active: self.active,
            directions: self.directions.deep_view(),
            active_direction: self.active_direction.deep_view(),
        }
    }
}

impl DeepView for LaneInfo {
    type V = LaneInfoView;

    open spec fn deep_view(&self) -> LaneInfoView {
        self@
    }
}

/// One part of a visual instruction: what to show for a maneuver.
#[derive(Clone, Debug, PartialEq, Eq)]
pub struct VisualInstructionContent {
    pub text: String,
    pub maneuver_type: Option<ManeuverType>,
    pub maneuver_modifier: Option<ManeuverModifier>,
    pub roundabout_exit_degrees: Option<u16>,
    pub lane_info: Option<Vec<LaneInfo>>,
}

/// The view of a [`VisualInstructionContent`].
pub struct VisualInstructionContentView {
    pub text: Seq<char>,
    pub maneuver_type: Option<ManeuverType>,
    pub maneuver_modifier: Option<ManeuverModifier>,
    pub roundabout_exit_degrees: Option<u16>,
    pub lane_info: Option<Seq<LaneInfoView>>,
}

impl View for VisualInstructionContent {
    type V = VisualInstructionContentView;

    open spec fn view(&self) -> VisualInstructionContentView {
        VisualInstructionContentView {
            text: self.text@,
            maneuver_type: self.maneuver_type,
            maneuver_modifier: self.maneuver_modifier,
            roundabout_exit_degrees: self.roundabout_exit_degrees,
            lane_info: self.lane_info.deep_view(),
        }
    }
}

impl DeepView for VisualInstructionContent {
    type V = VisualInstructionContentView;

    open spec fn deep_view(&self) -> VisualInstructionContentView {
        self@
    }
}

/// What to show the traveller ahead of a maneuver.
#[derive(Clone, Debug, PartialEq, Eq)]
pub struct VisualInstruction {
    pub primary_content: VisualInstructionContent,
    pub secondary_content: Option<VisualInstructionContent>,
    pub sub_content: Option<VisualInstructionContent>,
    pub trigger_distance_before_maneuver: Double,
}

/// The view of a [`VisualInstruction`].
pub struct VisualInstructionView {
    pub primary_content: VisualInstructionContentView,
    pub secondary_content: Option<VisualInstructionContentView>,
    pub sub_content: Option<VisualInstructionContentView>,
    pub trigger_distance_before_maneuver: Double,
}

impl View for VisualInstruction {
    type V = VisualInstructionView;

    open spec fn view(&self) -> VisualInstructionView {
        VisualInstructionView {
            primary_content: self.primary_content@,
            secondary_content: self.secondary_content.deep_view(),
            sub_content: self.sub_content.deep_view(),
            trigger_distance_before_maneuver: self.trigger_distance_before_maneuver,
        }
    }
}

impl DeepView for VisualInstruction {
    type V = VisualInstructionView;

    open spec fn deep_view(&self) -> VisualInstructionView {
        self@
    }
}

/// What to say to the traveller ahead of a maneuver.
#[derive(Clone, Debug, PartialEq, Eq)]
pub struct SpokenInstruction {
    pub text: String,
    pub ssml: Option<String>,
    pub trigger_distance_before_maneuver: Double,
    /// The identifier of this utterance, as the 128-bit value of a UUID.
    pub utterance_id: u128,
}

/// The view of a [`SpokenInstruction`].
pub struct SpokenInstructionView {
    pub text: Seq<char>,
    pub ssml: Option<Seq<char>>,
    pub trigger_distance_before_maneuver: Double,
    pub utterance_id: u128,
}

impl View for SpokenInstruction {
    type V = SpokenInstructionView;

    open spec fn view(&self) -> SpokenInstructionView {
        SpokenInstructionView {
            text: self.text@,
            ssml: self.ssml.deep_view(),
            trigger_distance_before_maneuver: self.trigger_distance_before_maneuver,
            utterance_id: self.utterance_id,
        }
    }
}

impl DeepView for SpokenInstruction {
    type V = SpokenInstructionView;

    open spec fn deep_view(&self) -> SpokenInstructionView {
        self@
    }
}

/// Spoken instructions with their utterance identifiers set to zero.
pub open spec fn without_ids(spoken: Seq<SpokenInstructionView>) -> Seq<SpokenInstructionView> {
    spoken.map_values(
        |instruction: SpokenInstructionView|
            SpokenInstructionView { utterance_id: 0, ..instruction },
    )
}

/// The utterance identifiers of spoken instructions, in their order.
pub open spec fn utterance_ids(spoken: Seq<SpokenInstructionView>) -> Seq<u128> {
    spoken.map_values(|instruction: SpokenInstructionView| instruction.utterance_id)
}

/// The elements of an optional vector, as an optional sequence.
pub open spec fn optional_seq<T>(values: Option<Vec<T>>) -> Option<Seq<T>> {
    match values {
        Some(v) => Some(v@),
        None => None,
    }
}

/// One maneuver-level segment of the route.
#[derive(Clone, Debug, PartialEq, Eq)]
pub struct RouteStep {
    pub geometry: Vec<GeographicCoordinate>,
    pub distance: Double,
    pub duration: Double,
    pub road_name: Option<String>,
    pub instruction: String,
    pub visual_instructions: Vec<VisualInstruction>,
    pub spoken_instructions: Vec<SpokenInstruction>,
    /// The telemetry of the step's segments, one value per segment.
    pub annotations: Option<Vec<AnnotationValue>>,
    /// The incidents on the step, indexed from the step's first coordinate.
    pub incidents: Vec<Incident>,
}

/// The view of a [`RouteStep`].
pub struct RouteStepView {
    pub geometry: Seq<GeographicCoordinate>,
    pub distance: Double,
    pub duration: Double,
    pub road_name: Option<Seq<char>>,
    pub instruction: Seq<char>,
    pub visual_instructions: Seq<VisualInstructionView>,
    pub spoken_instructions: Seq<SpokenInstructionView>,
    pub annotations: Option<Seq<AnnotationValue>>,
    pub incidents: Seq<IncidentView>,
}

impl View for RouteStep {
    type V = RouteStepView;

    open spec fn view(&self) -> RouteStepView {
        RouteStepView {
            geometry: self.geometry@,
            distance: self.distance,
            duration: self.duration,
            road_name: self.road_name.deep_view(),
            instruction: self.instruction@,
            visual_instructions: self.visual_instructions.deep_view(),
            spoken_instructions: self.spoken_instructions.deep_view(),
            annotations: optional_seq(self.annotations),
            incidents: self.incidents.deep_view(),
        }
    }
}

impl DeepView for RouteStep {
    type V = RouteStepView;

    open spec fn deep_view(&self) -> RouteStepView {
        self@
    }
}

impl RouteStepView {
    /// The step with the utterance identifiers of its spoken instructions
    /// set to zero.
    pub open spec fn without_utterance_ids(self) -> RouteStepView {
        RouteStepView { spoken_instructions: without_ids(self.spoken_instructions), ..self }
    }

    /// The utterance identifiers of the step's spoken instructions, in order.
    pub open spec fn utterance_ids(self) -> Seq<u128> {
        utterance_ids(self.spoken_instructions)
    }
}

/// Steps with the utterance identifiers of their spoken instructions set to
/// zero.
pub open spec fn steps_without_ids(steps: Seq<RouteStepView>) -> Seq<RouteStepView> {
    steps.map_values(|step: RouteStepView| step.without_utterance_ids())
}

/// The utterance identifiers of the spoken instructions of steps, step by
/// step and in order.
pub open spec fn steps_utterance_ids(steps: Seq<RouteStepView>) -> Seq<u128>
    decreases steps.len(),
{
    if steps.len() == 0 {
        Seq::empty()
    } else {
        steps_utterance_ids(steps.drop_last()) + steps.last().utterance_ids()
    }
}

/// A route, normalized.
#[derive(Clone, Debug, PartialEq, Eq)]
pub struct Route {
    pub geometry: Vec<GeographicCoordinate>,
    pub bbox: BoundingBox,
    pub distance: Double,
    pub duration: Double,
    pub waypoints: Vec<Waypoint>,
    pub steps: Vec<RouteStep>,
}

/// The view of a [`Route`].
pub struct RouteView {
    pub geometry: Seq<GeographicCoordinate>,
    pub bbox: BoundingBox,
    pub distance: Double,
    pub duration: Double,
    pub waypoints: Seq<Waypoint>,
    pub steps: Seq<RouteStepView>,
}

impl View for Route {
    type V = RouteView;

    open spec fn view(&self) -> RouteView {
        RouteView {
            geometry: self.geometry@,
            bbox: self.bbox,
            distance: self.distance,
            duration: self.duration,
            waypoints: self.waypoints@,
            steps: self.steps.deep_view(),
        }
    }
}

impl DeepView for Route {
    type V = RouteView;

    open spec fn deep_view(&self) -> RouteView {
        self@
    }
}

impl RouteView {
    /// The route with the utterance identifiers of its spoken instructions
    /// set to zero.
    pub open spec fn without_utterance_ids(self) -> RouteView {
        RouteView { steps: steps_without_ids(self.steps), ..self }
    }

    /// The utterance identifiers of the route's spoken instructions, step by
    /// step and in order.
    pub open spec fn utterance_ids(self) -> Seq<u128> {
        steps_utterance_ids(self.steps)
    }
}

/// Why a response could not be turned into routes.
#[derive(Clone, Debug, PartialEq, Eq)]
pub enum ParsingError {
    /// The response's status code is not the success code.
    InvalidStatusCode { code: String },
    /// A polyline could not be decoded, or it holds no coordinate.
    InvalidGeometry { error: String },
}

/// The view of a [`ParsingError`].
pub enum ParsingErrorView {
    InvalidStatusCode { code: Seq<char> },
    InvalidGeometry { error: Seq<char> },
}

impl View for ParsingError {
    type V = ParsingErrorView;

    open spec fn view(&self) -> ParsingErrorView {
        match self {
            ParsingError::InvalidStatusCode { code } => ParsingErrorView::InvalidStatusCode { code: code@ },
            ParsingError::InvalidGeometry { error } => ParsingErrorView::InvalidGeometry { error: error@ },
        }
    }
}

impl ParsingError {
    /// The message of this error.
    pub fn message(&self) -> (text: String)
        ensures
            text@ == match self@ {
                ParsingErrorView::InvalidStatusCode { code } => code,
                ParsingErrorView::InvalidGeometry { error } => error,
            },
    {
        match self {
            ParsingError::InvalidStatusCode { code } => code.clone(),
            ParsingError::InvalidGeometry { error } => error.clone(),
        }
    }
}

} // verus!
