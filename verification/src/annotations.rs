//! The annotation zipper and slicer.
//!
//! A backend sends a leg's telemetry column by column. The zipper turns the
//! columns into one record per segment; the slicer hands out the records of
//! one window of segments.

use vstd::prelude::*;
use crate::backend::{Annotation, AnnotationView};
use crate::models::{optional_seq, AnnotationValue};

verus! {

/// The greater of two lengths.
pub open spec fn longer(a: nat, b: nat) -> nat {
    if a >= b {
        a
    } else {
        b
    }
}

/// The number of segments that a leg's annotation speaks of: the length of
/// its longest array.
pub open spec fn segment_count(annotation: AnnotationView) -> nat {
    longer(
        longer(annotation.distance.len(), annotation.duration.len()),
        longer(annotation.speed.len(), annotation.maxspeed.len()),
    )
}

/// The entry of an array for a segment, if the array reaches it.
pub open spec fn entry<T>(values: Seq<T>, segment: int) -> Option<T> {
    if 0 <= segment < values.len() {
        Some(values[segment])
    } else {
        None
    }
}

/// The record of one segment: the entry of each array for it.
pub open spec fn segment_value(annotation: AnnotationView, segment: int) -> AnnotationValue {
    AnnotationValue {
        distance: entry(annotation.distance, segment),
        duration: entry(annotation.duration, segment),
        speed: entry(annotation.speed, segment),
        max_speed: entry(annotation.maxspeed, segment),
    }
}

/// The records of all segments of a leg, in order.
pub open spec fn zipped(annotation: AnnotationView) -> Seq<AnnotationValue> {
    Seq::new(segment_count(annotation), |segment: int| segment_value(annotation, segment))
}

/// The records of a leg that may have no annotation.
pub open spec fn zipped_optional(annotation: Option<AnnotationView>) -> Option<
    Seq<AnnotationValue>,
> {
    match annotation {
        Some(a) => Some(zipped(a)),
        None => None,
    }
}

/// The records in the window `[start, end)`: nothing where there are no
/// records, where the window is empty, and where it reaches beyond them.
pub open spec fn annotation_window(
    annotations: Option<Seq<AnnotationValue>>,
    start: int,
    end: int,
) -> Option<Seq<AnnotationValue>> {
    match annotations {
        Some(values) => if 0 <= start < end <= values.len() {
            Some(values.subrange(start, end))
        } else {
            None
        },
        None => None,
    }
}

fn larger(a: usize, b: usize) -> (r: usize)
    ensures
        r == longer(a as nat, b as nat),
{
    if a >= b {
        a
    } else {
        b
    }
}

fn entry_at<T: Copy>(values: &Vec<T>, segment: usize) -> (r: Option<T>)
    ensures
        r == entry(values@, segment as int),
{
    if segment < values.len() {
        Some(values[segment])
    } else {
        None
    }
}

/// Turns the parallel arrays of a leg's annotation into one record per
/// segment.
pub fn zip_annotations(annotation: &Annotation) -> (records: Vec<AnnotationValue>)
    ensures
        records@ == zipped(annotation@),
{
    let count = larger(
        larger(annotation.distance.len(), annotation.duration.len()),
        larger(annotation.speed.len(), annotation.maxspeed.len()),
    );
    let mut records: Vec<AnnotationValue> = Vec::new();
    let mut segment: usize = 0;
    while segment < count
        invariant
            segment <= count,
            count == segment_count(annotation@),
            records@ == Seq::new(
                segment as nat,
                |s: int| segment_value(annotation@, s),
            ),
        decreases count - segment,
    {
        records.push(
            AnnotationValue {
                distance: entry_at(&annotation.distance, segment),
                duration: entry_at(&annotation.duration, segment),
                speed: entry_at(&annotation.speed, segment),
                max_speed: entry_at(&annotation.maxspeed, segment),
            },
        );
        segment += 1;
        assert(records@ =~= Seq::new(segment as nat, |s: int| segment_value(annotation@, s)));
    }
    records
}

/// The records of a leg's annotation, where the leg has one.
pub fn zip_optional(annotation: &Option<Annotation>) -> (records: Option<Vec<AnnotationValue>>)
    ensures
        optional_seq(records) == zipped_optional(annotation.deep_view()),
{
    match annotation {
        Some(a) => Some(zip_annotations(a)),
        None => None,
    }
}

/// The records of the window `[start_index, end_index)` of a leg's records.
pub fn get_annotation_slice(
    annotations: &Option<Vec<AnnotationValue>>,
    start_index: u128,
    end_index: u128,
) -> (slice: Option<Vec<AnnotationValue>>)
    ensures
        optional_seq(slice) == annotation_window(
            optional_seq(*annotations),
            start_index as int,
            end_index as int,
        ),
{
    match annotations {
        None => None,
        Some(values) => {
            if start_index < end_index && end_index <= values.len() as u128 {
                let end = end_index as usize;
                let mut slice: Vec<AnnotationValue> = Vec::new();
                let mut i = start_index as usize;
                while i < end
                    invariant
                        start_index <= i <= end <= values.len(),
                        slice@ == values@.subrange(start_index as int, i as int),
                    decreases end - i,
                {
                    slice.push(values[i]);
                    i += 1;
                    assert(slice@ =~= values@.subrange(start_index as int, i as int));
                }
                Some(slice)
            } else {
                None
            }
        },
    }
}

} // verus!
