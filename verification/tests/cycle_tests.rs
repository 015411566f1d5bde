//! One full poll flow through the library: parse both payloads, prime,
//! diff a later snapshot, and render the messages.

use seatwatch::fetch::{parse_names, parse_seats};
use seatwatch::notify::render_notifications;
use seatwatch::poll::PollState;

const CATALOG: &str = r#"{"data": {
    "courses": [{"pk": 3, "id": "CS101", "title": "Intro to Computing"}],
    "streams": [{"pk": 1, "blocks": [{"pk": 2, "blockCourses": [{"coursePk": 3}]}]}]
}}"#;

#[test]
fn full_cycle_notifies_once_for_a_freed_seat() {
    // Prime with a full section.
    let first = parse_seats(r#"{"seats": [{"streamPk": 1, "blockPk": 2, "coursePk": 3, "free": 0}]}"#)
        .unwrap();
    let (state, transitions) = PollState::Priming.on_snapshot(first);
    assert_eq!(transitions.len(), 0);

    // A seat frees up: exactly one message, with the catalog label.
    let names = parse_names(CATALOG).unwrap();
    let second = parse_seats(r#"{"seats": [{"streamPk": 1, "blockPk": 2, "coursePk": 3, "free": 2}]}"#)
        .unwrap();
    let (state, transitions) = state.on_snapshot(second);
    let messages = render_notifications(&transitions, &names);
    assert_eq!(messages.len(), 1);
    assert_eq!(messages[0].as_str(), "CS101: Intro to Computing\nSome(0) -> 2");

    // The next cycle reports nothing while the count stays put.
    let third = parse_seats(r#"{"seats": [{"streamPk": 1, "blockPk": 2, "coursePk": 3, "free": 2}]}"#)
        .unwrap();
    let (_, transitions) = state.on_snapshot(third);
    assert_eq!(transitions.len(), 0);
}
