use osrm_parser::incidents::{clip_incident, clip_incidents};
use osrm_parser::models::{Impact, Incident, IncidentType};

fn incident(id: &str, start: u64, end: Option<u64>) -> Incident {
    Incident {
        id: id.to_string(),
        incident_type: IncidentType::Construction,
        description: Some("Road works".to_string()),
        impact: Some(Impact::Minor),
        closed: Some(false),
        geometry_index_start: start,
        geometry_index_end: end,
    }
}

#[test]
fn an_incident_inside_the_window_is_counted_from_its_start() {
    let kept = clip_incident(&incident("a", 7, Some(9)), 5, 10).expect("kept");
    assert_eq!(kept, incident("a", 2, Some(4)));
}

#[test]
fn an_incident_with_only_a_start_is_kept_up_to_the_windows_end() {
    assert_eq!(clip_incident(&incident("a", 5, None), 5, 10), Some(incident("a", 0, None)));
    assert_eq!(clip_incident(&incident("a", 7, None), 5, 10), Some(incident("a", 2, None)));
    assert_eq!(clip_incident(&incident("a", 10, None), 5, 10), Some(incident("a", 5, None)));
    assert_eq!(clip_incident(&incident("a", 4, None), 5, 10), None);
    assert_eq!(clip_incident(&incident("a", 11, None), 5, 10), None);
}

#[test]
fn an_incident_that_leaves_the_window_is_dropped() {
    assert_eq!(clip_incident(&incident("a", 7, Some(11)), 5, 10), None);
    assert_eq!(clip_incident(&incident("a", 4, Some(9)), 5, 10), None);
    assert_eq!(clip_incident(&incident("a", 0, Some(20)), 5, 10), None);
}

#[test]
fn an_incident_that_fills_the_window_is_kept() {
    assert_eq!(clip_incident(&incident("a", 5, Some(10)), 5, 10), Some(incident("a", 0, Some(5))));
}

#[test]
fn an_end_before_the_window_is_held_at_zero() {
    assert_eq!(clip_incident(&incident("a", 8, Some(3)), 5, 10), Some(incident("a", 3, Some(0))));
}

#[test]
fn clipping_keeps_order_and_everything_but_the_indices() {
    let leg = vec![
        incident("before", 1, Some(2)),
        incident("first", 6, Some(8)),
        incident("across", 9, Some(12)),
        incident("second", 10, None),
        incident("after", 14, None),
    ];
    let kept = clip_incidents(&leg, 5, 10);
    assert_eq!(kept, vec![incident("first", 1, Some(3)), incident("second", 5, None)]);
    assert_eq!(kept[0].description, Some("Road works".to_string()));
    assert_eq!(kept[0].impact, Some(Impact::Minor));
}

#[test]
fn clipped_ends_stay_within_the_window() {
    let leg: Vec<Incident> = (0..20u64)
        .flat_map(|start| (0..20u64).map(move |end| incident("x", start, Some(end))))
        .collect();
    for kept in clip_incidents(&leg, 4, 9) {
        assert!(kept.geometry_index_end.expect("an end") <= 5);
    }
    let started: Vec<Incident> = (0..20u64).map(|start| incident("y", start, None)).collect();
    let kept = clip_incidents(&started, 4, 9);
    assert_eq!(kept.len(), 6);
    assert!(kept.iter().all(|incident| incident.geometry_index_start <= 5));
}

#[test]
fn clipping_nothing_gives_nothing() {
    assert!(clip_incidents(&Vec::new(), 0, 10).is_empty());
}
