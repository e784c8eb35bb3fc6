//! The incident clipper.
//!
//! A leg's incidents carry indices into the leg's coordinates. For one step
//! the clipper keeps the incidents that overlap the step's window of
//! coordinate indices, and counts their indices from the window's start.

use vstd::prelude::*;
use crate::models::{Incident, IncidentView};
use crate::views::lemma_deep_view_push;

verus! {

/// Whether an incident overlaps the window `[start, end)`.
///
/// One with only a start index overlaps if that index lies in the window,
/// its end included; one with both indices overlaps if it starts at or after
/// the window's start and ends at or before the window's end.
pub open spec fn overlaps_window(incident: IncidentView, start: nat, end: nat) -> bool {
    match incident.geometry_index_end {
        Some(incident_end) => incident.geometry_index_start >= start && incident_end <= end,
        None => start <= incident.geometry_index_start <= end,
    }
}

/// An index difference, held at zero where it would be negative.
pub open spec fn at_least_zero(difference: int) -> int {
    if difference > 0 {
        difference
    } else {
        0
    }
}

/// The lesser of two numbers.
pub open spec fn lesser(a: int, b: int) -> int {
    if a <= b {
        a
    } else {
        b
    }
}

/// An incident with its indices counted from the window's start: the start
/// index moves by `start`, and the end index moves by `start` and stops at
/// the window's length.
pub open spec fn reindexed(incident: IncidentView, start: nat, end: nat) -> IncidentView {
    IncidentView {
        geometry_index_start: at_least_zero(incident.geometry_index_start - start) as u64,
        geometry_index_end: match incident.geometry_index_end {
            Some(incident_end) => Some(
                at_least_zero(lesser(end - start, incident_end - start)) as u64,
            ),
            None => None,
        },
        ..incident
    }
}

/// What the clipper makes of one incident: the incident with its indices
/// counted from the window's start if it overlaps the window, and nothing
/// otherwise.
pub open spec fn clip(incident: IncidentView, start: nat, end: nat) -> Option<IncidentView> {
    if overlaps_window(incident, start, end) {
        Some(reindexed(incident, start, end))
    } else {
        None
    }
}

/// The incidents of a leg that overlap the window `[start, end)`, in their
/// order, with their indices counted from the window's start.
pub open spec fn clipped_incidents(incidents: Seq<IncidentView>, start: nat, end: nat) -> Seq<
    IncidentView,
> {
    incidents.filter_map(|incident: IncidentView| clip(incident, start, end))
}

/// Clips one incident to the window `[start, end)`.
pub fn clip_incident(incident: &Incident, start: u128, end: u128) -> (r: Option<Incident>)
    ensures
        r.deep_view() == clip(incident@, start as nat, end as nat),
{
    let incident_start = incident.geometry_index_start as u128;
    let overlaps = match incident.geometry_index_end {
        Some(incident_end) => incident_start >= start && incident_end as u128 <= end,
        None => start <= incident_start && incident_start <= end,
    };
    if !overlaps {
        return None;
    }
    let new_start = (incident_start - start) as u64;
    let new_end = match incident.geometry_index_end {
        Some(incident_end) => {
            let incident_end = incident_end as u128;
            if incident_end >= start {
                let moved = incident_end - start;
                let length = end - start;
                Some(
                    if moved <= length {
                        moved as u64
                    } else {
                        length as u64
                    },
                )
            } else {
                Some(0)
            }
        },
        None => None,
    };
    let mut adjusted = incident.clone();
    adjusted.geometry_index_start = new_start;
    adjusted.geometry_index_end = new_end;
    Some(adjusted)
}

/// The clipped incidents of a prefix of the leg's incidents, grown by one.
proof fn lemma_clipped_take_succ(incidents: Seq<IncidentView>, start: nat, end: nat, i: int)
    requires
        0 <= i < incidents.len(),
    ensures
        clipped_incidents(incidents.take(i + 1), start, end) == match clip(
            incidents[i],
            start,
            end,
        ) {
            Some(kept) => clipped_incidents(incidents.take(i), start, end).push(kept),
            None => clipped_incidents(incidents.take(i), start, end),
        },
{
    let f = |incident: IncidentView| clip(incident, start, end);
    incidents.lemma_filter_map_take_succ(f, i);
    let before = incidents.take(i).filter_map(f);
    match clip(incidents[i], start, end) {
        Some(kept) => {
            assert(before + seq![kept] =~= before.push(kept));
        },
        None => {
            assert(before + Seq::<IncidentView>::empty() =~= before);
        },
    }
}

/// Keeps the incidents that overlap the window `[start, end)` and counts
/// their indices from the window's start.
pub fn clip_incidents(incidents: &Vec<Incident>, start: u128, end: u128) -> (kept: Vec<Incident>)
    ensures
        kept.deep_view() == clipped_incidents(incidents.deep_view(), start as nat, end as nat),
{
    let mut kept: Vec<Incident> = Vec::new();
    let mut i: usize = 0;
    assert(kept.deep_view() =~= clipped_incidents(
        incidents.deep_view().take(0),
        start as nat,
        end as nat,
    ));
    while i < incidents.len()
        invariant
            i <= incidents.len(),
            kept.deep_view() == clipped_incidents(
                incidents.deep_view().take(i as int),
                start as nat,
                end as nat,
            ),
        decreases incidents.len() - i,
    {
        let ghost before = kept;
        proof {
            lemma_clipped_take_succ(incidents.deep_view(), start as nat, end as nat, i as int);
        }
        match clip_incident(&incidents[i], start, end) {
            Some(incident) => {
                kept.push(incident);
                proof {
                    lemma_deep_view_push(before, kept, incident);
                }
            },
            None => {},
        }
        i += 1;
    }
    assert(incidents.deep_view().take(i as int) =~= incidents.deep_view());
    kept
}

} // verus!
