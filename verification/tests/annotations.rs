use osrm_parser::annotations::{get_annotation_slice, zip_annotations, zip_optional};
use osrm_parser::backend::Annotation;
use osrm_parser::models::{AnnotationValue, MaxSpeed, SpeedUnit};
use osrm_parser::scalar::Double;

fn double(x: f64) -> Double {
    Double::from_bits(x.to_bits())
}

fn doubles(values: &[f64]) -> Vec<Double> {
    values.iter().map(|x| double(*x)).collect()
}

fn record(distance: f64) -> AnnotationValue {
    AnnotationValue { distance: Some(double(distance)), duration: None, speed: None, max_speed: None }
}

#[test]
fn zipping_combines_the_entries_of_each_segment() {
    let limit = MaxSpeed::Known { speed: double(30.0), unit: SpeedUnit::KilometersPerHour };
    let annotation = Annotation {
        distance: doubles(&[1.5, 2.5]),
        duration: doubles(&[10.0, 20.0]),
        speed: doubles(&[0.15, 0.125]),
        maxspeed: vec![MaxSpeed::Unknown, limit],
    };
    let records = zip_annotations(&annotation);
    assert_eq!(
        records,
        vec![
            AnnotationValue {
                distance: Some(double(1.5)),
                duration: Some(double(10.0)),
                speed: Some(double(0.15)),
                max_speed: Some(MaxSpeed::Unknown),
            },
            AnnotationValue {
                distance: Some(double(2.5)),
                duration: Some(double(20.0)),
                speed: Some(double(0.125)),
                max_speed: Some(limit),
            },
        ]
    );
}

#[test]
fn a_shorter_array_leaves_its_field_unavailable() {
    let annotation = Annotation {
        distance: doubles(&[1.0, 2.0, 3.0]),
        duration: doubles(&[4.0]),
        speed: doubles(&[5.0, 6.0]),
        maxspeed: vec![],
    };
    let records = zip_annotations(&annotation);
    assert_eq!(records.len(), 3);
    assert_eq!(records[0].duration, Some(double(4.0)));
    assert_eq!(records[1].duration, None);
    assert_eq!(records[1].speed, Some(double(6.0)));
    assert_eq!(records[2].speed, None);
    assert_eq!(records[2].distance, Some(double(3.0)));
    assert!(records.iter().all(|record| record.max_speed.is_none()));
}

#[test]
fn the_longest_array_decides_the_number_of_records() {
    let annotation = Annotation {
        distance: vec![],
        duration: vec![],
        speed: vec![],
        maxspeed: vec![MaxSpeed::NoLimit, MaxSpeed::Unknown],
    };
    let records = zip_annotations(&annotation);
    assert_eq!(records.len(), 2);
    assert_eq!(records[0].max_speed, Some(MaxSpeed::NoLimit));
    assert_eq!(records[0].distance, None);
}

#[test]
fn zipping_nothing_gives_nothing() {
    let annotation =
        Annotation { distance: vec![], duration: vec![], speed: vec![], maxspeed: vec![] };
    assert!(zip_annotations(&annotation).is_empty());
    assert_eq!(zip_optional(&None), None);
    assert_eq!(zip_optional(&Some(annotation)), Some(vec![]));
}

#[test]
fn a_window_within_the_records_is_handed_out() {
    let records = Some(vec![record(0.0), record(1.0), record(2.0), record(3.0)]);
    assert_eq!(get_annotation_slice(&records, 1, 3), Some(vec![record(1.0), record(2.0)]));
    assert_eq!(get_annotation_slice(&records, 0, 4), records);
    assert_eq!(get_annotation_slice(&records, 3, 4), Some(vec![record(3.0)]));
}

#[test]
fn an_empty_window_gives_nothing() {
    let records = Some(vec![record(0.0), record(1.0)]);
    assert_eq!(get_annotation_slice(&records, 1, 1), None);
    assert_eq!(get_annotation_slice(&records, 0, 0), None);
    assert_eq!(get_annotation_slice(&records, 2, 1), None);
}

#[test]
fn a_window_beyond_the_records_gives_nothing() {
    let records = Some(vec![record(0.0), record(1.0)]);
    assert_eq!(get_annotation_slice(&records, 1, 3), None);
    assert_eq!(get_annotation_slice(&records, 2, 3), None);
    assert_eq!(get_annotation_slice(&records, 0, u128::MAX), None);
}

#[test]
fn no_records_give_no_window() {
    assert_eq!(get_annotation_slice(&None, 0, 1), None);
}
