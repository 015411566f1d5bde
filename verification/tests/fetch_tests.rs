use seatwatch::fetch::{parse_names, parse_seats, DataFault};
use seatwatch::key::SectionKey;

fn key(stream: u64, block: u64, course: u64) -> SectionKey {
    SectionKey { stream_id: stream, block_id: block, course_id: course }
}

#[test]
fn seats_valid_payload() {
    let text = r#"{"seats": [
        {"streamPk": 1, "blockPk": 2, "coursePk": 3, "free": 4},
        {"streamPk": 5, "blockPk": 6, "coursePk": 7, "free": 0}
    ]}"#;
    let snap = parse_seats(text).unwrap();
    assert_eq!(snap.len(), 2);
    assert_eq!(snap.get(&key(1, 2, 3)), Some(&4));
    assert_eq!(snap.get(&key(5, 6, 7)), Some(&0));
    assert_eq!(snap.get(&key(9, 9, 9)), None);
}

#[test]
fn seats_empty_list() {
    let snap = parse_seats(r#"{"seats": []}"#).unwrap();
    assert_eq!(snap.len(), 0);
}

#[test]
fn seats_repeated_section_keeps_last_record() {
    let text = r#"{"seats": [
        {"streamPk": 1, "blockPk": 2, "coursePk": 3, "free": 4},
        {"streamPk": 1, "blockPk": 2, "coursePk": 3, "free": 9}
    ]}"#;
    let snap = parse_seats(text).unwrap();
    assert_eq!(snap.len(), 1);
    assert_eq!(snap.get(&key(1, 2, 3)), Some(&9));
}

#[test]
fn seats_malformed_json_is_a_syntax_fault() {
    assert_eq!(parse_seats("{not json"), Err(DataFault::Syntax));
    assert_eq!(parse_seats(""), Err(DataFault::Syntax));
}

#[test]
fn seats_shape_faults_name_the_failing_field() {
    assert_eq!(parse_seats("[1, 2]"), Err(DataFault::TopNotObject));
    assert_eq!(parse_seats("{}"), Err(DataFault::SeatsMissing));
    assert_eq!(parse_seats(r#"{"seats": 3}"#), Err(DataFault::SeatsNotArray));
    assert_eq!(parse_seats(r#"{"seats": [7]}"#), Err(DataFault::SeatNotObject));
    assert_eq!(
        parse_seats(r#"{"seats": [{"blockPk": 2, "coursePk": 3, "free": 4}]}"#),
        Err(DataFault::SeatStreamPkMissing)
    );
    assert_eq!(
        parse_seats(r#"{"seats": [{"streamPk": "x", "blockPk": 2, "coursePk": 3, "free": 4}]}"#),
        Err(DataFault::SeatStreamPkNotU64)
    );
    assert_eq!(
        parse_seats(r#"{"seats": [{"streamPk": 1, "coursePk": 3, "free": 4}]}"#),
        Err(DataFault::SeatBlockPkMissing)
    );
    assert_eq!(
        parse_seats(r#"{"seats": [{"streamPk": 1, "blockPk": "x", "coursePk": 3, "free": 4}]}"#),
        Err(DataFault::SeatBlockPkNotU64)
    );
    assert_eq!(
        parse_seats(r#"{"seats": [{"streamPk": 1, "blockPk": 2, "coursePk": null, "free": 4}]}"#),
        Err(DataFault::SeatCoursePkNotU64)
    );
    assert_eq!(
        parse_seats(r#"{"seats": [{"streamPk": 1, "blockPk": 2, "free": 4}]}"#),
        Err(DataFault::SeatCoursePkMissing)
    );
    assert_eq!(
        parse_seats(r#"{"seats": [{"streamPk": 1, "blockPk": 2, "coursePk": 3}]}"#),
        Err(DataFault::SeatFreeMissing)
    );
    assert_eq!(
        parse_seats(r#"{"seats": [{"streamPk": 1, "blockPk": 2, "coursePk": 3, "free": -1}]}"#),
        Err(DataFault::SeatFreeNotU64)
    );
    assert_eq!(
        parse_seats(r#"{"seats": [{"streamPk": 1, "blockPk": 2, "coursePk": 3, "free": 1.5}]}"#),
        Err(DataFault::SeatFreeNotU64)
    );
}

fn catalog_text() -> &'static str {
    r#"{"data": {
        "courses": [
            {"pk": 3, "id": "CS101", "title": "Intro to Computing"},
            {"pk": 7, "id": "MA201", "title": "Linear Algebra"}
        ],
        "streams": [
            {"pk": 1, "blocks": [
                {"pk": 2, "blockCourses": [{"coursePk": 3}, {"coursePk": 7}]}
            ]},
            {"pk": 5, "blocks": [
                {"pk": 6, "blockCourses": [{"coursePk": 7}]}
            ]}
        ]
    }}"#
}

#[test]
fn names_valid_payload() {
    let names = parse_names(catalog_text()).unwrap();
    assert_eq!(names.len(), 3);
    assert_eq!(names.get(&key(1, 2, 3)).map(|s| s.as_str()), Some("CS101: Intro to Computing"));
    assert_eq!(names.get(&key(1, 2, 7)).map(|s| s.as_str()), Some("MA201: Linear Algebra"));
    assert_eq!(names.get(&key(5, 6, 7)).map(|s| s.as_str()), Some("MA201: Linear Algebra"));
    assert_eq!(names.get(&key(5, 6, 3)), None);
}

#[test]
fn names_malformed_json_is_a_syntax_fault() {
    assert_eq!(parse_names("]["), Err(DataFault::Syntax));
}

#[test]
fn names_shape_faults_name_the_failing_field() {
    assert_eq!(parse_names("7"), Err(DataFault::TopNotObject));
    assert_eq!(parse_names("{}"), Err(DataFault::DataMissing));
    assert_eq!(parse_names(r#"{"data": []}"#), Err(DataFault::DataNotObject));
    assert_eq!(parse_names(r#"{"data": {}}"#), Err(DataFault::CoursesMissing));
    assert_eq!(parse_names(r#"{"data": {"courses": 0}}"#), Err(DataFault::CoursesNotArray));
    assert_eq!(parse_names(r#"{"data": {"courses": [0]}}"#), Err(DataFault::CourseNotObject));
    assert_eq!(
        parse_names(r#"{"data": {"courses": [{"id": "CS101", "title": "T"}]}}"#),
        Err(DataFault::CoursePkMissing)
    );
    assert_eq!(
        parse_names(r#"{"data": {"courses": [{"pk": 3, "id": "CS101"}]}}"#),
        Err(DataFault::CourseTitleMissing)
    );
    assert_eq!(
        parse_names(r#"{"data": {"courses": [{"pk": 3, "title": 0, "id": "CS101"}]}}"#),
        Err(DataFault::CourseTitleNotString)
    );
    assert_eq!(
        parse_names(r#"{"data": {"courses": [{"pk": 3, "title": "T"}]}}"#),
        Err(DataFault::CourseIdMissing)
    );
    assert_eq!(
        parse_names(r#"{"data": {"courses": [{"pk": "x", "id": "C", "title": "T"}]}}"#),
        Err(DataFault::CoursePkNotU64)
    );
    assert_eq!(
        parse_names(r#"{"data": {"courses": [{"pk": 3, "title": "T", "id": 5}]}}"#),
        Err(DataFault::CourseIdNotString)
    );
    assert_eq!(
        parse_names(r#"{"data": {"courses": []}}"#),
        Err(DataFault::StreamsMissing)
    );
    assert_eq!(
        parse_names(r#"{"data": {"courses": [], "streams": {}}}"#),
        Err(DataFault::StreamsNotArray)
    );
    assert_eq!(
        parse_names(r#"{"data": {"courses": [], "streams": [4]}}"#),
        Err(DataFault::StreamNotObject)
    );
    assert_eq!(
        parse_names(r#"{"data": {"courses": [], "streams": [{"blocks": []}]}}"#),
        Err(DataFault::StreamPkMissing)
    );
    assert_eq!(
        parse_names(r#"{"data": {"courses": [], "streams": [{"pk": 1}]}}"#),
        Err(DataFault::BlocksMissing)
    );
    assert_eq!(
        parse_names(r#"{"data": {"courses": [], "streams": [{"pk": 1, "blocks": [[]]}]}}"#),
        Err(DataFault::BlockNotObject)
    );
    assert_eq!(
        parse_names(
            r#"{"data": {"courses": [], "streams": [{"pk": 1, "blocks": [{"pk": 2}]}]}}"#
        ),
        Err(DataFault::BlockCoursesMissing)
    );
    assert_eq!(
        parse_names(
            r#"{"data": {"courses": [], "streams": [{"pk": 1, "blocks": [{"pk": 2, "blockCourses": [{}]}]}]}}"#
        ),
        Err(DataFault::BlockCoursePkMissing)
    );
    assert_eq!(
        parse_names(r#"{"data": {"courses": [], "streams": [{"pk": [], "blocks": []}]}}"#),
        Err(DataFault::StreamPkNotU64)
    );
    assert_eq!(
        parse_names(r#"{"data": {"courses": [], "streams": [{"pk": 1, "blocks": {}}]}}"#),
        Err(DataFault::BlocksNotArray)
    );
    assert_eq!(
        parse_names(
            r#"{"data": {"courses": [], "streams": [{"pk": 1, "blocks": [{"blockCourses": []}]}]}}"#
        ),
        Err(DataFault::BlockPkMissing)
    );
    assert_eq!(
        parse_names(
            r#"{"data": {"courses": [], "streams": [{"pk": 1, "blocks": [{"pk": "y", "blockCourses": []}]}]}}"#
        ),
        Err(DataFault::BlockPkNotU64)
    );
    assert_eq!(
        parse_names(
            r#"{"data": {"courses": [], "streams": [{"pk": 1, "blocks": [{"pk": 2, "blockCourses": 3}]}]}}"#
        ),
        Err(DataFault::BlockCoursesNotArray)
    );
    assert_eq!(
        parse_names(
            r#"{"data": {"courses": [], "streams": [{"pk": 1, "blocks": [{"pk": 2, "blockCourses": [5]}]}]}}"#
        ),
        Err(DataFault::BlockCourseNotObject)
    );
    assert_eq!(
        parse_names(
            r#"{"data": {"courses": [], "streams": [{"pk": 1, "blocks": [{"pk": 2, "blockCourses": [{"coursePk": "z"}]}]}]}}"#
        ),
        Err(DataFault::BlockCoursePkNotU64)
    );
}

#[test]
fn names_unlisted_course_reference_is_a_hard_fault() {
    let text = r#"{"data": {
        "courses": [{"pk": 3, "id": "CS101", "title": "T"}],
        "streams": [{"pk": 1, "blocks": [
            {"pk": 2, "blockCourses": [{"coursePk": 4}]}
        ]}]
    }}"#;
    assert_eq!(parse_names(text), Err(DataFault::CourseNameMissing));
}

#[test]
fn names_repeated_course_pk_keeps_last_label() {
    let text = r#"{"data": {
        "courses": [
            {"pk": 3, "id": "CS101", "title": "Old"},
            {"pk": 3, "id": "CS101", "title": "New"}
        ],
        "streams": [{"pk": 1, "blocks": [
            {"pk": 2, "blockCourses": [{"coursePk": 3}]}
        ]}]
    }}"#;
    let names = parse_names(text).unwrap();
    assert_eq!(names.get(&key(1, 2, 3)).map(|s| s.as_str()), Some("CS101: New"));
}
