use seatwatch::diff::Transition;
use seatwatch::key::SectionKey;
use seatwatch::kvmap::KvMap;
use seatwatch::notify::{render_message, render_notifications, u64_to_string};
use seatwatch::snapshot::NameSnapshot;

fn key(n: u64) -> SectionKey {
    SectionKey { stream_id: n, block_id: n, course_id: n }
}

#[test]
fn decimal_rendering() {
    assert_eq!(u64_to_string(0).as_str(), "0");
    assert_eq!(u64_to_string(7).as_str(), "7");
    assert_eq!(u64_to_string(10).as_str(), "10");
    assert_eq!(u64_to_string(12345).as_str(), "12345");
    assert_eq!(u64_to_string(u64::MAX).as_str(), "18446744073709551615");
}

#[test]
fn message_with_unknown_name_and_stored_zero() {
    let m = render_message(None, Some(0), 3);
    assert_eq!(m.as_str(), "unknown\nSome(0) -> 3");
}

#[test]
fn message_with_name_and_absent_previous() {
    let name = String::from("CS101: Intro to Computing");
    let m = render_message(Some(&name), None, 5);
    assert_eq!(m.as_str(), "CS101: Intro to Computing\nNone -> 5");
}

#[test]
fn notifications_use_labels_and_fall_back_to_unknown() {
    let mut names: NameSnapshot = KvMap::new();
    names.insert(key(1), String::from("CS101: Intro to Computing"));
    let transitions = vec![
        Transition { key: key(1), previous: Some(0), current: 3 },
        Transition { key: key(2), previous: None, current: 8 },
    ];
    let msgs = render_notifications(&transitions, &names);
    assert_eq!(msgs.len(), 2);
    assert_eq!(msgs[0].as_str(), "CS101: Intro to Computing\nSome(0) -> 3");
    assert_eq!(msgs[1].as_str(), "unknown\nNone -> 8");
}
