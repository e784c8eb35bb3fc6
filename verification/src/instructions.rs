//! The instruction normalizer: a step's banner and voice instructions become
//! visual and spoken instructions.

use vstd::prelude::*;
use crate::backend::{
    BannerContentComponent, BannerContentComponentView, BannerInstruction, BannerInstructionView,
    VoiceInstruction, VoiceInstructionView,
};
use crate::models::{
    utterance_ids, without_ids, LaneInfo, LaneInfoView, SpokenInstruction, SpokenInstructionView,
    VisualInstruction, VisualInstructionContent, VisualInstructionContentView,
    VisualInstructionView,
};
use crate::utterance::{lemma_after_after, lemma_after_nothing, lemma_yields_concat, UtteranceIdSource};
use crate::views::lemma_deep_view_push;

verus! {

/// The component type that marks a lane.
pub open spec fn lane_type() -> Seq<char> {
    "lane"@
}

/// What a component says of a lane, if it is of the lane type: an absent
/// `active` flag counts as inactive, an absent list of directions as empty.
pub open spec fn lane_of(component: BannerContentComponentView) -> Option<LaneInfoView> {
    if component.component_type == Some(lane_type()) {
        Some(
            LaneInfoView {
                active: match component.active {
                    Some(active) => active,
                    None => false,
                },
                directions: match component.directions {
                    Some(directions) => directions,
                    None => Seq::empty(),
                },
                active_direction: component.active_direction,
            },
        )
    } else {
        None
    }
}

/// The lanes among the components of a banner content, in their order.
pub open spec fn lanes_of(components: Seq<BannerContentComponentView>) -> Seq<LaneInfoView> {
    components.filter_map(|component: BannerContentComponentView| lane_of(component))
}

/// The lane information of a banner content: absent where no component is
/// a lane, and otherwise the lanes in their order.
pub open spec fn lane_info_of(components: Seq<BannerContentComponentView>) -> Option<
    Seq<LaneInfoView>,
> {
    let lanes = lanes_of(components);
    if lanes.len() == 0 {
        None
    } else {
        Some(lanes)
    }
}

/// The primary content of a banner; it carries no lane information.
pub open spec fn primary_content_of(banner: BannerInstructionView) -> VisualInstructionContentView {
    VisualInstructionContentView {
        text: banner.primary.text,
        maneuver_type: banner.primary.maneuver_type,
        maneuver_modifier: banner.primary.maneuver_modifier,
        roundabout_exit_degrees: banner.primary.roundabout_exit_degrees,
        lane_info: None,
    }
}

/// The secondary content of a banner, where it has one. Its roundabout exit
/// is that of the primary content, and it carries no lane information.
pub open spec fn secondary_content_of(banner: BannerInstructionView) -> Option<
    VisualInstructionContentView,
> {
    match banner.secondary {
        Some(secondary) => Some(
            VisualInstructionContentView {
                text: secondary.text,
                maneuver_type: secondary.maneuver_type,
                maneuver_modifier: secondary.maneuver_modifier,
                roundabout_exit_degrees: banner.primary.roundabout_exit_degrees,
                lane_info: None,
            },
        ),
        None => None,
    }
}

/// The sub content of a banner, where it has one, with the lane information
/// of its components.
pub open spec fn sub_content_of(banner: BannerInstructionView) -> Option<
    VisualInstructionContentView,
> {
    match banner.sub {
        Some(sub) => Some(
            VisualInstructionContentView {
                text: sub.text,
                maneuver_type: sub.maneuver_type,
                maneuver_modifier: sub.maneuver_modifier,
                roundabout_exit_degrees: sub.roundabout_exit_degrees,
                lane_info: lane_info_of(sub.components),
            },
        ),
        None => None,
    }
}

/// The visual instruction that a banner becomes.
pub open spec fn visual_of(banner: BannerInstructionView) -> VisualInstructionView {
    VisualInstructionView {
        primary_content: primary_content_of(banner),
        secondary_content: secondary_content_of(banner),
        sub_content: sub_content_of(banner),
        trigger_distance_before_maneuver: banner.distance_along_geometry,
    }
}

/// The visual instructions that the banners of a step become.
pub open spec fn visuals_of(banners: Seq<BannerInstructionView>) -> Seq<VisualInstructionView> {
    banners.map_values(|banner: BannerInstructionView| visual_of(banner))
}

/// The spoken instruction that a voice instruction becomes under an
/// utterance identifier.
pub open spec fn spoken_of(voice: VoiceInstructionView, id: u128) -> SpokenInstructionView {
    SpokenInstructionView {
        text: voice.announcement,
        ssml: voice.ssml_announcement,
        trigger_distance_before_maneuver: voice.distance_along_geometry,
        utterance_id: id,
    }
}

/// The spoken instructions that the voice instructions of a step become,
/// apart from their utterance identifiers, which are left at zero.
pub open spec fn spoken_without_ids(voices: Seq<VoiceInstructionView>) -> Seq<
    SpokenInstructionView,
> {
    voices.map_values(|voice: VoiceInstructionView| spoken_of(voice, 0))
}

/// A copy of a list of texts.
fn clone_texts(texts: &Vec<String>) -> (copy: Vec<String>)
    ensures
        copy.deep_view() == texts.deep_view(),
{
    let copy = texts.clone();
    assert(copy.deep_view() =~= texts.deep_view());
    copy
}

/// Whether a component is of the lane type.
fn is_lane(component: &BannerContentComponent) -> (r: bool)
    ensures
        r == (component@.component_type == Some(lane_type())),
{
    match &component.component_type {
        Some(component_type) => {
            let lane = "lane".to_owned();
            *component_type == lane
        },
        None => false,
    }
}

/// What a component says of a lane, if it is of the lane type.
pub fn lane_info(component: &BannerContentComponent) -> (lane: Option<LaneInfo>)
    ensures
        lane.deep_view() == lane_of(component@),
{
    if is_lane(component) {
        let active = match component.active {
            Some(active) => active,
            None => false,
        };
        let directions = match &component.directions {
            Some(directions) => clone_texts(directions),
            None => Vec::new(),
        };
        assert(component.directions is None ==> directions.deep_view() =~= Seq::<
            Seq<char>,
        >::empty());
        Some(LaneInfo { active, directions, active_direction: component.active_direction.clone() })
    } else {
        None
    }
}

/// The lanes of a prefix of the components, grown by one.
proof fn lemma_lanes_take_succ(components: Seq<BannerContentComponentView>, i: int)
    requires
        0 <= i < components.len(),
    ensures
        lanes_of(components.take(i + 1)) == match lane_of(components[i]) {
            Some(lane) => lanes_of(components.take(i)).push(lane),
            None => lanes_of(components.take(i)),
        },
{
    let f = |component: BannerContentComponentView| lane_of(component);
    components.lemma_filter_map_take_succ(f, i);
    let before = components.take(i).filter_map(f);
    match lane_of(components[i]) {
        Some(lane) => {
            assert(before + seq![lane] =~= before.push(lane));
        },
        None => {
            assert(before + Seq::<LaneInfoView>::empty() =~= before);
        },
    }
}

/// The lane information of a banner content's components.
pub fn lane_infos(components: &Vec<BannerContentComponent>) -> (lanes: Option<Vec<LaneInfo>>)
    ensures
        lanes.deep_view() == lane_info_of(components.deep_view()),
{
    let mut lanes: Vec<LaneInfo> = Vec::new();
    let mut i: usize = 0;
    assert(lanes.deep_view() =~= lanes_of(components.deep_view().take(0)));
    while i < components.len()
        invariant
            i <= components.len(),
            lanes.deep_view() == lanes_of(components.deep_view().take(i as int)),
        decreases components.len() - i,
    {
        let ghost before = lanes;
        proof {
            lemma_lanes_take_succ(components.deep_view(), i as int);
        }
        match lane_info(&components[i]) {
            Some(lane) => {
                lanes.push(lane);
                proof {
                    lemma_deep_view_push(before, lanes, lane);
                }
            },
            None => {},
        }
        i += 1;
    }
    assert(components.deep_view().take(i as int) =~= components.deep_view());
    if lanes.len() == 0 {
        None
    } else {
        Some(lanes)
    }
}

/// The visual instruction that a banner becomes.
pub fn visual_instruction(banner: &BannerInstruction) -> (visual: VisualInstruction)
    ensures
        visual@ == visual_of(banner@),
{
    let primary_content = VisualInstructionContent {
        text: banner.primary.text.clone(),
        maneuver_type: banner.primary.maneuver_type,
        maneuver_modifier: banner.primary.maneuver_modifier,
        roundabout_exit_degrees: banner.primary.roundabout_exit_degrees,
        lane_info: None,
    };
    let secondary_content = match &banner.secondary {
        Some(secondary) => Some(
            VisualInstructionContent {
                text: secondary.text.clone(),
                maneuver_type: secondary.maneuver_type,
                maneuver_modifier: secondary.maneuver_modifier,
                roundabout_exit_degrees: banner.primary.roundabout_exit_degrees,
                lane_info: None,
            },
        ),
        None => None,
    };
    let sub_content = match &banner.sub {
        Some(sub) => Some(
            VisualInstructionContent {
                text: sub.text.clone(),
                maneuver_type: sub.maneuver_type,
                maneuver_modifier: sub.maneuver_modifier,
                roundabout_exit_degrees: sub.roundabout_exit_degrees,
                lane_info: lane_infos(&sub.components),
            },
        ),
        None => None,
    };
    VisualInstruction {
        primary_content,
        secondary_content,
        sub_content,
        trigger_distance_before_maneuver: banner.distance_along_geometry,
    }
}

/// The visual instructions that the banners of a step become.
pub fn visual_instructions(banners: &Vec<BannerInstruction>) -> (visuals: Vec<VisualInstruction>)
    ensures
        visuals.deep_view() == visuals_of(banners.deep_view()),
{
    let mut visuals: Vec<VisualInstruction> = Vec::new();
    let mut i: usize = 0;
    while i < banners.len()
        invariant
            i <= banners.len(),
            visuals@.len() == i,
            forall|k: int| 0 <= k < i ==> (#[trigger] visuals@[k])@ == visual_of(banners@[k]@),
        decreases banners.len() - i,
    {
        visuals.push(visual_instruction(&banners[i]));
        i += 1;
    }
    assert(visuals.deep_view() =~= visuals_of(banners.deep_view()));
    visuals
}

/// The spoken instructions that the voice instructions of a step become,
/// each under the next identifier of the source.
pub fn spoken_instructions(voices: &Vec<VoiceInstruction>, ids: &mut UtteranceIdSource) -> (spoken:
    Vec<SpokenInstruction>)
    ensures
        spoken@.len() == voices@.len(),
        without_ids(spoken.deep_view()) == spoken_without_ids(voices.deep_view()),
        old(ids).yields(utterance_ids(spoken.deep_view())),
        *final(ids) == old(ids).after(voices.len() as nat),
{
    let mut spoken: Vec<SpokenInstruction> = Vec::new();
    let mut i: usize = 0;
    proof {
        lemma_after_nothing(*ids);
        assert(utterance_ids(spoken.deep_view()) =~= Seq::<u128>::empty());
    }
    while i < voices.len()
        invariant
            i <= voices.len(),
            spoken@.len() == i,
            forall|k: int|
                0 <= k < i ==> (#[trigger] spoken@[k])@ == spoken_of(
                    voices@[k]@,
                    spoken@[k].utterance_id,
                ),
            old(ids).yields(utterance_ids(spoken.deep_view())),
            *ids == old(ids).after(i as nat),
        decreases voices.len() - i,
    {
        let ghost drawn = utterance_ids(spoken.deep_view());
        let ghost source = *ids;
        let voice = &voices[i];
        let utterance_id = ids.next_id();
        spoken.push(
            SpokenInstruction {
                text: voice.announcement.clone(),
                ssml: voice.ssml_announcement.clone(),
                trigger_distance_before_maneuver: voice.distance_along_geometry,
                utterance_id,
            },
        );
        proof {
            assert(utterance_ids(spoken.deep_view()) =~= drawn + seq![utterance_id]);
            lemma_yields_concat(*old(ids), drawn, seq![utterance_id]);
            lemma_after_after(*old(ids), i as nat, 1);
        }
        i += 1;
    }
    assert(without_ids(spoken.deep_view()) =~= spoken_without_ids(voices.deep_view()));
    spoken
}

} // verus!
