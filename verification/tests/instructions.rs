use osrm_parser::backend::{
    BannerContent, BannerContentComponent, BannerInstruction, VoiceInstruction,
};
use osrm_parser::instructions::{
    lane_info, lane_infos, spoken_instructions, visual_instruction, visual_instructions,
};
use osrm_parser::models::{LaneInfo, ManeuverModifier, ManeuverType};
use osrm_parser::scalar::Double;
use osrm_parser::utterance::UtteranceIdSource;

fn double(x: f64) -> Double {
    Double::from_bits(x.to_bits())
}

fn component(kind: Option<&str>) -> BannerContentComponent {
    BannerContentComponent {
        text: Some(String::new()),
        component_type: kind.map(str::to_string),
        directions: Some(vec!["straight".to_string()]),
        active: Some(false),
        active_direction: None,
    }
}

fn content(text: &str, degrees: Option<u16>, components: Vec<BannerContentComponent>) -> BannerContent {
    BannerContent {
        text: text.to_string(),
        maneuver_type: Some(ManeuverType::Turn),
        maneuver_modifier: Some(ManeuverModifier::Left),
        roundabout_exit_degrees: degrees,
        components,
    }
}

#[test]
fn four_lane_components_give_four_lanes() {
    let components = vec![
        component(Some("lane")),
        component(Some("lane")),
        component(Some("lane")),
        component(Some("lane")),
    ];
    assert_eq!(lane_infos(&components).map(|lanes| lanes.len()), Some(4));
}

#[test]
fn no_lane_component_gives_no_lane_information() {
    assert_eq!(lane_infos(&vec![component(Some("text")), component(Some("delimiter"))]), None);
    assert_eq!(lane_infos(&vec![component(None)]), None);
    assert_eq!(lane_infos(&Vec::new()), None);
}

#[test]
fn only_lane_components_become_lanes() {
    let mut active = component(Some("lane"));
    active.active = Some(true);
    active.directions = Some(vec!["straight".to_string(), "right".to_string()]);
    active.active_direction = Some("right".to_string());
    let components =
        vec![component(Some("text")), component(Some("lane")), component(Some("Lane")), active];
    assert_eq!(
        lane_infos(&components),
        Some(vec![
            LaneInfo {
                active: false,
                directions: vec!["straight".to_string()],
                active_direction: None,
            },
            LaneInfo {
                active: true,
                directions: vec!["straight".to_string(), "right".to_string()],
                active_direction: Some("right".to_string()),
            },
        ])
    );
}

#[test]
fn a_lane_without_flags_is_inactive_and_has_no_directions() {
    let bare = BannerContentComponent {
        text: None,
        component_type: Some("lane".to_string()),
        directions: None,
        active: None,
        active_direction: None,
    };
    assert_eq!(
        lane_info(&bare),
        Some(LaneInfo { active: false, directions: vec![], active_direction: None })
    );
    assert_eq!(lane_info(&component(Some("text"))), None);
}

#[test]
fn a_banner_becomes_a_visual_instruction() {
    let banner = BannerInstruction {
        distance_along_geometry: double(111.25),
        primary: content("Main Street", Some(90), vec![component(Some("lane"))]),
        secondary: Some(content("towards the centre", Some(180), vec![component(Some("lane"))])),
        sub: Some(content("", Some(270), vec![component(Some("lane")), component(Some("text"))])),
    };
    let visual = visual_instruction(&banner);
    assert_eq!(visual.trigger_distance_before_maneuver, double(111.25));
    assert_eq!(visual.primary_content.text, "Main Street");
    assert_eq!(visual.primary_content.maneuver_type, Some(ManeuverType::Turn));
    assert_eq!(visual.primary_content.maneuver_modifier, Some(ManeuverModifier::Left));
    assert_eq!(visual.primary_content.roundabout_exit_degrees, Some(90));
    assert_eq!(visual.primary_content.lane_info, None);
    let secondary = visual.secondary_content.expect("secondary content");
    assert_eq!(secondary.text, "towards the centre");
    assert_eq!(secondary.roundabout_exit_degrees, Some(90));
    assert_eq!(secondary.lane_info, None);
    let sub = visual.sub_content.expect("sub content");
    assert_eq!(sub.roundabout_exit_degrees, Some(270));
    assert_eq!(sub.lane_info.map(|lanes| lanes.len()), Some(1));
}

#[test]
fn a_banner_without_optional_parts_has_none() {
    let banner = BannerInstruction {
        distance_along_geometry: double(5.0),
        primary: content("Arrive", None, vec![]),
        secondary: None,
        sub: None,
    };
    let visuals = visual_instructions(&vec![banner.clone(), banner]);
    assert_eq!(visuals.len(), 2);
    assert_eq!(visuals[0], visuals[1]);
    assert!(visuals[0].secondary_content.is_none());
    assert!(visuals[0].sub_content.is_none());
    assert!(visual_instructions(&Vec::new()).is_empty());
}

fn voice(text: &str, ssml: Option<&str>, distance: f64) -> VoiceInstruction {
    VoiceInstruction {
        announcement: text.to_string(),
        ssml_announcement: ssml.map(str::to_string),
        distance_along_geometry: double(distance),
    }
}

#[test]
fn spoken_instructions_carry_the_voice_through() {
    let voices = vec![
        voice("Turn left.", Some("<speak>Turn left.</speak>"), 100.0),
        voice("Arrive.", None, 10.0),
    ];
    let mut ids = UtteranceIdSource::Sequential { next: 7 };
    let spoken = spoken_instructions(&voices, &mut ids);
    assert_eq!(spoken.len(), 2);
    assert_eq!(spoken[0].text, "Turn left.");
    assert_eq!(spoken[0].ssml, Some("<speak>Turn left.</speak>".to_string()));
    assert_eq!(spoken[0].trigger_distance_before_maneuver, double(100.0));
    assert_eq!(spoken[0].utterance_id, 7);
    assert_eq!(spoken[1].text, "Arrive.");
    assert_eq!(spoken[1].ssml, None);
    assert_eq!(spoken[1].utterance_id, 8);
    assert_eq!(ids, UtteranceIdSource::Sequential { next: 9 });
}

#[test]
fn random_identifiers_are_version_four_and_fresh() {
    let voices = vec![voice("a", None, 1.0), voice("b", None, 2.0), voice("c", None, 3.0)];
    let mut ids = UtteranceIdSource::Random;
    let spoken = spoken_instructions(&voices, &mut ids);
    assert_eq!(ids, UtteranceIdSource::Random);
    for instruction in &spoken {
        let uuid = uuid::Uuid::from_u128(instruction.utterance_id);
        assert_eq!(uuid.get_version_num(), 4);
        assert_eq!(uuid.get_variant(), uuid::Variant::RFC4122);
        assert_eq!((instruction.utterance_id >> 76) & 0xf, 4);
        assert_eq!((instruction.utterance_id >> 62) & 0x3, 2);
    }
    assert_ne!(spoken[0].utterance_id, spoken[1].utterance_id);
    assert_ne!(spoken[1].utterance_id, spoken[2].utterance_id);
}

#[test]
fn sequential_identifiers_wrap_round() {
    let mut ids = UtteranceIdSource::Sequential { next: u128::MAX };
    assert_eq!(ids.next_id(), u128::MAX);
    assert_eq!(ids, UtteranceIdSource::Sequential { next: 0 });
    assert_eq!(ids.next_id(), 0);
    assert_eq!(ids.next_id(), 1);
    assert_eq!(ids, UtteranceIdSource::Sequential { next: 2 });
}
