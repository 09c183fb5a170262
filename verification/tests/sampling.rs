use task_tracker::device::{read_sample, sample_now};
use task_tracker::sample::{KeyStrokes, MousePosition, TrackingData};

fn names(keys: &[&str]) -> Vec<String> {
    keys.iter().map(|k| k.to_string()).collect()
}

#[test]
fn reading_at_origin_without_keys_records_nothing() {
    let sample = TrackingData::from_reading("2024-05-01T10:00:00+00:00".to_string(), 0, 0, vec![]);
    assert_eq!(sample.date, "2024-05-01T10:00:00+00:00");
    assert_eq!(sample.mouse_position, None);
    assert_eq!(sample.key_strokes, None);
}

#[test]
fn pointer_is_recorded_when_both_coordinates_are_nonzero() {
    let sample = TrackingData::from_reading("d".to_string(), 100, 200, vec![]);
    assert_eq!(sample.mouse_position, Some(MousePosition { x: 100, y: 200 }));
    assert_eq!(sample.key_strokes, None);
}

#[test]
fn pointer_with_negative_coordinates_is_recorded() {
    let sample = TrackingData::from_reading("d".to_string(), -3, 7, vec![]);
    assert_eq!(sample.mouse_position, Some(MousePosition { x: -3, y: 7 }));
    let sample = TrackingData::from_reading("d".to_string(), i32::MIN, i32::MAX, vec![]);
    assert_eq!(sample.mouse_position, Some(MousePosition { x: i32::MIN, y: i32::MAX }));
}

#[test]
fn pointer_with_one_zero_coordinate_is_not_recorded() {
    let on_left_edge = TrackingData::from_reading("d".to_string(), 0, 5, vec![]);
    assert_eq!(on_left_edge.mouse_position, None);
    let on_top_edge = TrackingData::from_reading("d".to_string(), 5, 0, vec![]);
    assert_eq!(on_top_edge.mouse_position, None);
}

#[test]
fn pointer_presence_for_coordinates_that_are_both_zero_or_both_nonzero() {
    for (x, y) in [(0, 0), (1, 1), (-1, 4), (640, 480)] {
        let sample = TrackingData::from_reading("d".to_string(), x, y, vec![]);
        assert_eq!(sample.mouse_position.is_some(), x != 0 || y != 0);
        assert_eq!(sample.mouse_position.is_none(), x == 0 && y == 0);
    }
}

#[test]
fn keys_are_recorded_exactly_when_some_are_pressed() {
    let none = TrackingData::from_reading("d".to_string(), 1, 1, vec![]);
    assert!(none.key_strokes.is_none());
    let one = TrackingData::from_reading("d".to_string(), 1, 1, names(&["A"]));
    assert_eq!(one.key_strokes, Some(KeyStrokes { keys: names(&["A"]) }));
}

#[test]
fn keys_keep_their_order_and_their_duplicates() {
    let sample = TrackingData::from_reading("d".to_string(), 0, 0, names(&["LShift", "B", "A", "B"]));
    assert_eq!(sample.mouse_position, None);
    assert_eq!(sample.key_strokes, Some(KeyStrokes { keys: names(&["LShift", "B", "A", "B"]) }));
}

#[test]
fn from_coords_follows_the_pointer_rule() {
    assert_eq!(MousePosition::from_coords(0, 0), None);
    assert_eq!(MousePosition::from_coords(0, 9), None);
    assert_eq!(MousePosition::from_coords(9, 0), None);
    assert_eq!(MousePosition::from_coords(9, -9), Some(MousePosition { x: 9, y: -9 }));
}

#[test]
fn from_names_follows_the_key_rule() {
    assert_eq!(KeyStrokes::from_names(vec![]), None);
    assert_eq!(KeyStrokes::from_names(names(&["Enter"])), Some(KeyStrokes { keys: names(&["Enter"]) }));
}

#[test]
fn clone_of_a_sample_is_equal_to_it() {
    let full = TrackingData::from_reading("d".to_string(), 3, 4, names(&["A", "B"]));
    assert_eq!(full.clone(), full);
    let bare = TrackingData::from_reading("e".to_string(), 0, 0, vec![]);
    assert_eq!(bare.clone(), bare);
    assert_ne!(full.clone(), bare);
    let strokes = KeyStrokes { keys: names(&["X", "Y", "X"]) };
    assert_eq!(strokes.clone(), strokes);
}

#[test]
fn sample_now_applies_the_rules_and_stamps_with_rfc3339() {
    let before = chrono::Utc::now();
    let sample = sample_now(100, 200, names(&["A"]));
    let after = chrono::Utc::now();
    assert_eq!(sample.mouse_position, Some(MousePosition { x: 100, y: 200 }));
    assert_eq!(sample.key_strokes, Some(KeyStrokes { keys: names(&["A"]) }));
    let stamp = chrono::DateTime::parse_from_rfc3339(&sample.date).expect("an RFC 3339 timestamp");
    assert_eq!(stamp.offset().local_minus_utc(), 0);
    assert!(before <= stamp && stamp <= after);
    assert!(sample.date.chars().count() >= 25);
    assert!(sample.date.ends_with("+00:00"));

    let empty = sample_now(0, 7, vec![]);
    assert_eq!(empty.mouse_position, None);
    assert_eq!(empty.key_strokes, None);
    assert!(chrono::DateTime::parse_from_rfc3339(&empty.date).is_ok());
    assert!(empty.date.chars().count() >= 25);
    assert!(empty.date.ends_with("+00:00"));
}

#[test]
fn timestamp_is_the_text_that_chrono_writes_for_the_same_instant() {
    let sample = sample_now(1, 1, vec![]);
    let stamp = chrono::DateTime::parse_from_rfc3339(&sample.date).expect("an RFC 3339 timestamp");
    assert_eq!(stamp.with_timezone(&chrono::Utc).to_rfc3339(), sample.date);
    // A date, the letter T, a time of day, and the offset at the end.
    let text: Vec<char> = sample.date.chars().collect();
    assert_eq!(text[4], '-');
    assert_eq!(text[7], '-');
    assert_eq!(text[10], 'T');
    assert_eq!(text[13], ':');
    assert_eq!(text[16], ':');
}

#[test]
fn read_sample_on_a_display_gives_a_reading() {
    // Without a display there is no device to read from.
    if let Some(device) = device_query::DeviceState::checked_new() {
        let sample = read_sample(&device);
        assert!(chrono::DateTime::parse_from_rfc3339(&sample.date).is_ok());
        assert!(sample.date.ends_with("+00:00"));
        if let Some(position) = sample.mouse_position {
            assert!(position.x != 0 && position.y != 0);
        }
        if let Some(strokes) = sample.key_strokes {
            assert!(!strokes.keys.is_empty());
        }
    }
}
