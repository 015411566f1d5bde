//! Shape validation of the two external payloads.
//!
//! Each payload arrives as JSON text. The text is parsed by the external
//! parser (see [`crate::json`]) and the resulting tree is validated field by
//! field against the fixed shape each data source promises; the failure mode
//! is a [`DataFault`] naming the first field that is missing or mistyped, in
//! the order the fields are checked.

use vstd::prelude::*;

use crate::json::{spec_parse_json, spec_member_lookup, member_lookup, parse_json, JsonValue};
use crate::key::SectionKey;
use crate::kvmap::KvMap;
use crate::snapshot::{NameSnapshot, SeatSnapshot};
use vstd::string::StringExecFns;

verus! {

/// The first shape check that the payload failed.
///
/// `Syntax` stands for text that is not JSON at all. The `Seat*` variants
/// concern the seat payload's records; the rest concern the catalog payload.
/// `CourseNameMissing` marks a section that references a course primary key
/// for which the catalog listed no course: the two datasets are internally
/// inconsistent, a hard failure rather than a soft fallback.
#[derive(PartialEq, Eq, Structural, Clone, Copy, Debug)]
pub enum DataFault {
    Syntax,
    TopNotObject,
    SeatsMissing,
    SeatsNotArray,
    SeatNotObject,
    SeatStreamPkMissing,
    SeatStreamPkNotU64,
    SeatBlockPkMissing,
    SeatBlockPkNotU64,
    SeatCoursePkMissing,
    SeatCoursePkNotU64,
    SeatFreeMissing,
    SeatFreeNotU64,
    DataMissing,
    DataNotObject,
    CoursesMissing,
    CoursesNotArray,
    CourseNotObject,
    CoursePkMissing,
    CoursePkNotU64,
    CourseTitleMissing,
    CourseTitleNotString,
    CourseIdMissing,
    CourseIdNotString,
    StreamsMissing,
    StreamsNotArray,
    StreamNotObject,
    StreamPkMissing,
    StreamPkNotU64,
    BlocksMissing,
    BlocksNotArray,
    BlockNotObject,
    BlockPkMissing,
    BlockPkNotU64,
    BlockCoursesMissing,
    BlockCoursesNotArray,
    BlockCourseNotObject,
    BlockCoursePkMissing,
    BlockCoursePkNotU64,
    CourseNameMissing,
}

/// The `u64` stored under `key`, or which of the two faults the member fails.
pub open spec fn spec_field_u64(
    members: Seq<(String, JsonValue)>,
    key: Seq<char>,
    missing: DataFault,
    not_u64: DataFault,
) -> Result<u64, DataFault> {
    match spec_member_lookup(members, key) {
        Option::None => Err(missing),
        Option::Some(JsonValue::Num(Option::Some(n))) => Ok(n),
        Option::Some(_) => Err(not_u64),
    }
}

/// Reads a required nonnegative-integer field of a JSON object.
fn field_u64(
    members: &Vec<(String, JsonValue)>,
    key: &str,
    missing: DataFault,
    not_u64: DataFault,
) -> (r: Result<u64, DataFault>)
    ensures
        r == spec_field_u64(members@, key@, missing, not_u64),
{
    match member_lookup(members, key) {
        Option::None => Err(missing),
        Option::Some(JsonValue::Num(Option::Some(n))) => Ok(*n),
        Option::Some(_) => Err(not_u64),
    }
}

/// The string stored under `key`, or which of the two faults the member
/// fails.
pub open spec fn spec_field_str(
    members: Seq<(String, JsonValue)>,
    key: Seq<char>,
    missing: DataFault,
    not_str: DataFault,
) -> Result<Seq<char>, DataFault> {
    match spec_member_lookup(members, key) {
        Option::None => Err(missing),
        Option::Some(JsonValue::Str(s)) => Ok(s@),
        Option::Some(_) => Err(not_str),
    }
}

/// Reads a required string field of a JSON object.
fn field_str<'a>(
    members: &'a Vec<(String, JsonValue)>,
    key: &str,
    missing: DataFault,
    not_str: DataFault,
) -> (r: Result<&'a String, DataFault>)
    ensures
        match r {
            Ok(s) => spec_field_str(members@, key@, missing, not_str) == Ok::<Seq<char>, DataFault>(
                s@,
            ),
            Err(f) => spec_field_str(members@, key@, missing, not_str) == Err::<
                Seq<char>,
                DataFault,
            >(f),
        },
{
    match member_lookup(members, key) {
        Option::None => Err(missing),
        Option::Some(JsonValue::Str(s)) => Ok(s),
        Option::Some(_) => Err(not_str),
    }
}

/// One seat record: the section it identifies and its free-seat count, or
/// the first fault among its four required fields, checked in the order
/// `streamPk`, `blockPk`, `coursePk`, `free`.
pub open spec fn spec_seat_record(v: JsonValue) -> Result<(SectionKey, u64), DataFault> {
    match v {
        JsonValue::Obj(members) => match spec_field_u64(
            members@,
            "streamPk"@,
            DataFault::SeatStreamPkMissing,
            DataFault::SeatStreamPkNotU64,
        ) {
            Err(f) => Err(f),
            Ok(stream_id) => match spec_field_u64(
                members@,
                "blockPk"@,
                DataFault::SeatBlockPkMissing,
                DataFault::SeatBlockPkNotU64,
            ) {
                Err(f) => Err(f),
                Ok(block_id) => match spec_field_u64(
                    members@,
                    "coursePk"@,
                    DataFault::SeatCoursePkMissing,
                    DataFault::SeatCoursePkNotU64,
                ) {
                    Err(f) => Err(f),
                    Ok(course_id) => match spec_field_u64(
                        members@,
                        "free"@,
                        DataFault::SeatFreeMissing,
                        DataFault::SeatFreeNotU64,
                    ) {
                        Err(f) => Err(f),
                        Ok(free) => Ok((SectionKey { stream_id, block_id, course_id }, free)),
                    },
                },
            },
        },
        _ => Err(DataFault::SeatNotObject),
    }
}

/// Validates one seat record.
fn seat_record(v: &JsonValue) -> (r: Result<(SectionKey, u64), DataFault>)
    ensures
        r == spec_seat_record(*v),
{
    match v {
        JsonValue::Obj(members) => {
            let stream_id = match field_u64(
                members,
                "streamPk",
                DataFault::SeatStreamPkMissing,
                DataFault::SeatStreamPkNotU64,
            ) {
                Ok(n) => n,
                Err(f) => {
                    return Err(f);
                },
            };
            let block_id = match field_u64(
                members,
                "blockPk",
                DataFault::SeatBlockPkMissing,
                DataFault::SeatBlockPkNotU64,
            ) {
                Ok(n) => n,
                Err(f) => {
                    return Err(f);
                },
            };
            let course_id = match field_u64(
                members,
                "coursePk",
                DataFault::SeatCoursePkMissing,
                DataFault::SeatCoursePkNotU64,
            ) {
                Ok(n) => n,
                Err(f) => {
                    return Err(f);
                },
            };
            let free = match field_u64(
                members,
                "free",
                DataFault::SeatFreeMissing,
                DataFault::SeatFreeNotU64,
            ) {
                Ok(n) => n,
                Err(f) => {
                    return Err(f);
                },
            };
            Ok((SectionKey { stream_id, block_id, course_id }, free))
        },
        _ => Err(DataFault::SeatNotObject),
    }
}

/// Folds the seat records from index `i` on into the accumulated snapshot,
/// stopping at the first faulty record.
pub open spec fn spec_seats_fold(
    items: Seq<JsonValue>,
    i: int,
    acc: Map<SectionKey, u64>,
) -> Result<Map<SectionKey, u64>, DataFault>
    decreases items.len() - i,
{
    if i < 0 || i >= items.len() {
        Ok(acc)
    } else {
        match spec_seat_record(items[i]) {
            Err(f) => Err(f),
            Ok(kc) => spec_seats_fold(items, i + 1, acc.insert(kc.0, kc.1)),
        }
    }
}

/// The seat snapshot the seat payload's tree denotes: the top level must be
/// an object whose `seats` member is an array of seat records.
pub open spec fn spec_seats_of_value(v: JsonValue) -> Result<Map<SectionKey, u64>, DataFault> {
    match v {
        JsonValue::Obj(members) => match spec_member_lookup(members@, "seats"@) {
            Option::None => Err(DataFault::SeatsMissing),
            Option::Some(JsonValue::Arr(items)) => spec_seats_fold(items@, 0, Map::empty()),
            Option::Some(_) => Err(DataFault::SeatsNotArray),
        },
        _ => Err(DataFault::TopNotObject),
    }
}

/// The seat snapshot the seat payload's text denotes, or the first fault.
pub open spec fn spec_parse_seats(text: Seq<char>) -> Result<Map<SectionKey, u64>, DataFault> {
    match spec_parse_json(text) {
        Option::None => Err(DataFault::Syntax),
        Option::Some(v) => spec_seats_of_value(v),
    }
}

/// Parses and validates the seat payload: JSON text shaped as
/// `{"seats": [{"streamPk": n, "blockPk": n, "coursePk": n, "free": n}, ..]}`.
/// Returns the snapshot mapping each listed section to its free-seat count
/// (a repeated section keeps the last record), or the first fault found.
pub fn parse_seats(text: &str) -> (r: Result<SeatSnapshot, DataFault>)
    ensures
        match r {
            Ok(snap) => snap.wf() && spec_parse_seats(text@) == Ok::<_, DataFault>(snap@),
            Err(f) => spec_parse_seats(text@) == Err::<Map<SectionKey, u64>, _>(f),
        },
{
    let tree = match parse_json(text) {
        Option::Some(v) => v,
        Option::None => {
            return Err(DataFault::Syntax);
        },
    };
    let members = match &tree {
        JsonValue::Obj(members) => members,
        _ => {
            return Err(DataFault::TopNotObject);
        },
    };
    let items = match member_lookup(members, "seats") {
        Option::None => {
            return Err(DataFault::SeatsMissing);
        },
        Option::Some(JsonValue::Arr(items)) => items,
        Option::Some(_) => {
            return Err(DataFault::SeatsNotArray);
        },
    };
    let mut snap: SeatSnapshot = KvMap::new();
    proof {
        assert(spec_parse_seats(text@) == spec_seats_fold(items@, 0, Map::<SectionKey, u64>::empty()));
    }
    let len: usize = items.len();
    let mut i: usize = 0;
    while i < len
        invariant
            len == items@.len(),
            i <= len,
            snap.wf(),
            spec_parse_seats(text@) == spec_seats_fold(items@, i as int, snap@),
        decreases len - i,
    {
        match seat_record(&items[i]) {
            Ok((key, free)) => {
                snap.insert(key, free);
            },
            Err(f) => {
                return Err(f);
            },
        }
        i += 1;
    }
    Ok(snap)
}

/// The map with every `String` value read as its character sequence.
pub open spec fn string_views<K>(m: Map<K, String>) -> Map<K, Seq<char>> {
    m.map_values(|s: String| s@)
}

proof fn lemma_string_views_insert<K>(m: Map<K, String>, k: K, s: String)
    ensures
        string_views(m.insert(k, s)) == string_views(m).insert(k, s@),
{
    assert(string_views(m.insert(k, s)) =~= string_views(m).insert(k, s@));
}

/// One catalog course entry: its primary key and its display label
/// `"<id>: <title>"`, or the first fault among its fields, checked in the
/// order `pk`, `title`, `id`.
pub open spec fn spec_course_label(v: JsonValue) -> Result<(u64, Seq<char>), DataFault> {
    match v {
        JsonValue::Obj(members) => match spec_field_u64(
            members@,
            "pk"@,
            DataFault::CoursePkMissing,
            DataFault::CoursePkNotU64,
        ) {
            Err(f) => Err(f),
            Ok(pk) => match spec_field_str(
                members@,
                "title"@,
                DataFault::CourseTitleMissing,
                DataFault::CourseTitleNotString,
            ) {
                Err(f) => Err(f),
                Ok(title) => match spec_field_str(
                    members@,
                    "id"@,
                    DataFault::CourseIdMissing,
                    DataFault::CourseIdNotString,
                ) {
                    Err(f) => Err(f),
                    Ok(id) => Ok((pk, id + ": "@ + title)),
                },
            },
        },
        _ => Err(DataFault::CourseNotObject),
    }
}

/// Validates one catalog course entry and builds its display label.
fn course_label(v: &JsonValue) -> (r: Result<(u64, String), DataFault>)
    ensures
        match r {
            Ok(pl) => spec_course_label(*v) == Ok::<(u64, Seq<char>), DataFault>((pl.0, pl.1@)),
            Err(f) => spec_course_label(*v) == Err::<(u64, Seq<char>), DataFault>(f),
        },
{
    match v {
        JsonValue::Obj(members) => {
            let pk = match field_u64(
                members,
                "pk",
                DataFault::CoursePkMissing,
                DataFault::CoursePkNotU64,
            ) {
                Ok(n) => n,
                Err(f) => {
                    return Err(f);
                },
            };
            let title = match field_str(
                members,
                "title",
                DataFault::CourseTitleMissing,
                DataFault::CourseTitleNotString,
            ) {
                Ok(s) => s,
                Err(f) => {
                    return Err(f);
                },
            };
            let id = match field_str(
                members,
                "id",
                DataFault::CourseIdMissing,
                DataFault::CourseIdNotString,
            ) {
                Ok(s) => s,
                Err(f) => {
                    return Err(f);
                },
            };
            let mut label = id.clone();
            label.append(": ");
            label.append(title.as_str());
            Ok((pk, label))
        },
        _ => Err(DataFault::CourseNotObject),
    }
}

/// Folds the course entries from index `i` on into the label mapping,
/// stopping at the first faulty entry.
pub open spec fn spec_courses_fold(items: Seq<JsonValue>, i: int, acc: Map<u64, Seq<char>>) -> Result<
    Map<u64, Seq<char>>,
    DataFault,
>
    decreases items.len() - i,
{
    if i < 0 || i >= items.len() {
        Ok(acc)
    } else {
        match spec_course_label(items[i]) {
            Err(f) => Err(f),
            Ok(pl) => spec_courses_fold(items, i + 1, acc.insert(pl.0, pl.1)),
        }
    }
}

/// One section reference inside a block: the section it identifies together
/// with the referenced course's label, or the first fault. A reference to a
/// course the catalog did not list is the fault `CourseNameMissing`.
pub open spec fn spec_block_course(
    v: JsonValue,
    stream_pk: u64,
    block_pk: u64,
    labels: Map<u64, Seq<char>>,
) -> Result<(SectionKey, Seq<char>), DataFault> {
    match v {
        JsonValue::Obj(members) => match spec_field_u64(
            members@,
            "coursePk"@,
            DataFault::BlockCoursePkMissing,
            DataFault::BlockCoursePkNotU64,
        ) {
            Err(f) => Err(f),
            Ok(course_pk) => if labels.dom().contains(course_pk) {
                Ok(
                    (
                        SectionKey {
                            stream_id: stream_pk,
                            block_id: block_pk,
                            course_id: course_pk,
                        },
                        labels[course_pk],
                    ),
                )
            } else {
                Err(DataFault::CourseNameMissing)
            },
        },
        _ => Err(DataFault::BlockCourseNotObject),
    }
}

/// Validates one section reference and looks its label up.
fn block_course(
    v: &JsonValue,
    stream_pk: u64,
    block_pk: u64,
    labels: &KvMap<u64, String>,
) -> (r: Result<(SectionKey, String), DataFault>)
    requires
        labels.wf(),
    ensures
        match r {
            Ok(kl) => spec_block_course(*v, stream_pk, block_pk, string_views(labels@)) == Ok::<
                (SectionKey, Seq<char>),
                DataFault,
            >((kl.0, kl.1@)),
            Err(f) => spec_block_course(*v, stream_pk, block_pk, string_views(labels@)) == Err::<
                (SectionKey, Seq<char>),
                DataFault,
            >(f),
        },
{
    match v {
        JsonValue::Obj(members) => {
            let course_pk = match field_u64(
                members,
                "coursePk",
                DataFault::BlockCoursePkMissing,
                DataFault::BlockCoursePkNotU64,
            ) {
                Ok(n) => n,
                Err(f) => {
                    return Err(f);
                },
            };
            match labels.get(&course_pk) {
                Option::Some(label) => Ok(
                    (
                        SectionKey {
                            stream_id: stream_pk,
                            block_id: block_pk,
                            course_id: course_pk,
                        },
                        label.clone(),
                    ),
                ),
                Option::None => Err(DataFault::CourseNameMissing),
            }
        },
        _ => Err(DataFault::BlockCourseNotObject),
    }
}

/// Folds the section references of one block from index `l` on into the name
/// mapping, stopping at the first fault.
pub open spec fn spec_block_courses_fold(
    items: Seq<JsonValue>,
    l: int,
    stream_pk: u64,
    block_pk: u64,
    labels: Map<u64, Seq<char>>,
    acc: Map<SectionKey, Seq<char>>,
) -> Result<Map<SectionKey, Seq<char>>, DataFault>
    decreases items.len() - l,
{
    if l < 0 || l >= items.len() {
        Ok(acc)
    } else {
        match spec_block_course(items[l], stream_pk, block_pk, labels) {
            Err(f) => Err(f),
            Ok(kl) => spec_block_courses_fold(items, l + 1, stream_pk, block_pk, labels, acc.insert(
                kl.0,
                kl.1,
            )),
        }
    }
}

/// One block of a stream: folds its section references into the name
/// mapping. The block must be an object with a `pk` and a `blockCourses`
/// array.
pub open spec fn spec_block(
    v: JsonValue,
    stream_pk: u64,
    labels: Map<u64, Seq<char>>,
    acc: Map<SectionKey, Seq<char>>,
) -> Result<Map<SectionKey, Seq<char>>, DataFault> {
    match v {
        JsonValue::Obj(members) => match spec_field_u64(
            members@,
            "pk"@,
            DataFault::BlockPkMissing,
            DataFault::BlockPkNotU64,
        ) {
            Err(f) => Err(f),
            Ok(block_pk) => match spec_member_lookup(members@, "blockCourses"@) {
                Option::None => Err(DataFault::BlockCoursesMissing),
                Option::Some(JsonValue::Arr(items)) => spec_block_courses_fold(
                    items@,
                    0,
                    stream_pk,
                    block_pk,
                    labels,
                    acc,
                ),
                Option::Some(_) => Err(DataFault::BlockCoursesNotArray),
            },
        },
        _ => Err(DataFault::BlockNotObject),
    }
}

/// Folds the blocks of one stream from index `j` on.
pub open spec fn spec_blocks_fold(
    items: Seq<JsonValue>,
    j: int,
    stream_pk: u64,
    labels: Map<u64, Seq<char>>,
    acc: Map<SectionKey, Seq<char>>,
) -> Result<Map<SectionKey, Seq<char>>, DataFault>
    decreases items.len() - j,
{
    if j < 0 || j >= items.len() {
        Ok(acc)
    } else {
        match spec_block(items[j], stream_pk, labels, acc) {
            Err(f) => Err(f),
            Ok(m) => spec_blocks_fold(items, j + 1, stream_pk, labels, m),
        }
    }
}

/// One stream: folds its blocks into the name mapping. The stream must be
/// an object with a `pk` and a `blocks` array.
pub open spec fn spec_stream(
    v: JsonValue,
    labels: Map<u64, Seq<char>>,
    acc: Map<SectionKey, Seq<char>>,
) -> Result<Map<SectionKey, Seq<char>>, DataFault> {
    match v {
        JsonValue::Obj(members) => match spec_field_u64(
            members@,
            "pk"@,
            DataFault::StreamPkMissing,
            DataFault::StreamPkNotU64,
        ) {
            Err(f) => Err(f),
            Ok(stream_pk) => match spec_member_lookup(members@, "blocks"@) {
                Option::None => Err(DataFault::BlocksMissing),
                Option::Some(JsonValue::Arr(items)) => spec_blocks_fold(
                    items@,
                    0,
                    stream_pk,
                    labels,
                    acc,
                ),
                Option::Some(_) => Err(DataFault::BlocksNotArray),
            },
        },
        _ => Err(DataFault::StreamNotObject),
    }
}

/// Folds the streams from index `i` on.
pub open spec fn spec_streams_fold(
    items: Seq<JsonValue>,
    i: int,
    labels: Map<u64, Seq<char>>,
    acc: Map<SectionKey, Seq<char>>,
) -> Result<Map<SectionKey, Seq<char>>, DataFault>
    decreases items.len() - i,
{
    if i < 0 || i >= items.len() {
        Ok(acc)
    } else {
        match spec_stream(items[i], labels, acc) {
            Err(f) => Err(f),
            Ok(m) => spec_streams_fold(items, i + 1, labels, m),
        }
    }
}

/// Continues a partial result through the streams from index `i` on.
pub open spec fn after_streams(
    items: Seq<JsonValue>,
    i: int,
    labels: Map<u64, Seq<char>>,
    r: Result<Map<SectionKey, Seq<char>>, DataFault>,
) -> Result<Map<SectionKey, Seq<char>>, DataFault> {
    match r {
        Err(f) => Err(f),
        Ok(m) => spec_streams_fold(items, i, labels, m),
    }
}

/// Continues a partial result through the blocks from index `j` on.
pub open spec fn after_blocks(
    items: Seq<JsonValue>,
    j: int,
    stream_pk: u64,
    labels: Map<u64, Seq<char>>,
    r: Result<Map<SectionKey, Seq<char>>, DataFault>,
) -> Result<Map<SectionKey, Seq<char>>, DataFault> {
    match r {
        Err(f) => Err(f),
        Ok(m) => spec_blocks_fold(items, j, stream_pk, labels, m),
    }
}

/// The streams part of the catalog payload, given the finished label
/// mapping: the `streams` member of `data` must be an array of streams.
pub open spec fn spec_streams_part(
    data_members: Seq<(String, JsonValue)>,
    labels: Map<u64, Seq<char>>,
) -> Result<Map<SectionKey, Seq<char>>, DataFault> {
    match spec_member_lookup(data_members, "streams"@) {
        Option::None => Err(DataFault::StreamsMissing),
        Option::Some(JsonValue::Arr(items)) => spec_streams_fold(items@, 0, labels, Map::empty()),
        Option::Some(_) => Err(DataFault::StreamsNotArray),
    }
}

/// Continues a partial label mapping through the courses from index `i` on,
/// then through the streams part.
pub open spec fn after_courses(
    courses: Seq<JsonValue>,
    i: int,
    acc: Map<u64, Seq<char>>,
    data_members: Seq<(String, JsonValue)>,
) -> Result<Map<SectionKey, Seq<char>>, DataFault> {
    match spec_courses_fold(courses, i, acc) {
        Err(f) => Err(f),
        Ok(labels) => spec_streams_part(data_members, labels),
    }
}

/// The name snapshot the catalog payload's tree denotes: an object whose
/// `data` member holds a `courses` array (building the label mapping) and a
/// `streams` array (naming each section through its course reference).
pub open spec fn spec_names_of_value(v: JsonValue) -> Result<Map<SectionKey, Seq<char>>, DataFault> {
    match v {
        JsonValue::Obj(top) => match spec_member_lookup(top@, "data"@) {
            Option::None => Err(DataFault::DataMissing),
            Option::Some(JsonValue::Obj(data_members)) => match spec_member_lookup(
                data_members@,
                "courses"@,
            ) {
                Option::None => Err(DataFault::CoursesMissing),
                Option::Some(JsonValue::Arr(courses)) => after_courses(
                    courses@,
                    0,
                    Map::empty(),
                    data_members@,
                ),
                Option::Some(_) => Err(DataFault::CoursesNotArray),
            },
            Option::Some(_) => Err(DataFault::DataNotObject),
        },
        _ => Err(DataFault::TopNotObject),
    }
}

/// The name snapshot the catalog payload's text denotes, or the first fault.
pub open spec fn spec_parse_names(text: Seq<char>) -> Result<Map<SectionKey, Seq<char>>, DataFault> {
    match spec_parse_json(text) {
        Option::None => Err(DataFault::Syntax),
        Option::Some(v) => spec_names_of_value(v),
    }
}

/// Parses and validates the catalog payload and builds the name snapshot:
/// for every `(stream, block, blockCourse)` triple one entry mapping the
/// section to the referenced course's label `"<id>: <title>"`. Returns the
/// snapshot, or the first fault found, including a course reference whose
/// primary key the catalog's course list does not carry.
pub fn parse_names(text: &str) -> (r: Result<NameSnapshot, DataFault>)
    ensures
        match r {
            Ok(names) => names.wf() && spec_parse_names(text@) == Ok::<_, DataFault>(
                string_views(names@),
            ),
            Err(f) => spec_parse_names(text@) == Err::<Map<SectionKey, Seq<char>>, _>(f),
        },
{
    let tree = match parse_json(text) {
        Option::Some(v) => v,
        Option::None => {
            return Err(DataFault::Syntax);
        },
    };
    let top = match &tree {
        JsonValue::Obj(members) => members,
        _ => {
            return Err(DataFault::TopNotObject);
        },
    };
    let data_members = match member_lookup(top, "data") {
        Option::None => {
            return Err(DataFault::DataMissing);
        },
        Option::Some(JsonValue::Obj(members)) => members,
        Option::Some(_) => {
            return Err(DataFault::DataNotObject);
        },
    };
    let courses = match member_lookup(data_members, "courses") {
        Option::None => {
            return Err(DataFault::CoursesMissing);
        },
        Option::Some(JsonValue::Arr(items)) => items,
        Option::Some(_) => {
            return Err(DataFault::CoursesNotArray);
        },
    };

    let mut labels: KvMap<u64, String> = KvMap::new();
    proof {
        assert(string_views(labels@) =~= Map::<u64, Seq<char>>::empty());
        assert(spec_parse_names(text@) == after_courses(
            courses@,
            0,
            string_views(labels@),
            data_members@,
        ));
    }
    let n_courses: usize = courses.len();
    let mut ci: usize = 0;
    while ci < n_courses
        invariant
            n_courses == courses@.len(),
            ci <= n_courses,
            labels.wf(),
            spec_parse_names(text@) == after_courses(
                courses@,
                ci as int,
                string_views(labels@),
                data_members@,
            ),
        decreases n_courses - ci,
    {
        match course_label(&courses[ci]) {
            Ok((pk, label)) => {
                proof {
                    lemma_string_views_insert(labels@, pk, label);
                }
                labels.insert(pk, label);
            },
            Err(f) => {
                return Err(f);
            },
        }
        ci += 1;
    }

    let streams = match member_lookup(data_members, "streams") {
        Option::None => {
            return Err(DataFault::StreamsMissing);
        },
        Option::Some(JsonValue::Arr(items)) => items,
        Option::Some(_) => {
            return Err(DataFault::StreamsNotArray);
        },
    };

    let ghost final_labels: Map<u64, Seq<char>> = string_views(labels@);
    let mut names: NameSnapshot = KvMap::new();
    proof {
        assert(string_views(names@) =~= Map::<SectionKey, Seq<char>>::empty());
        assert(spec_parse_names(text@) == after_streams(
            streams@,
            0,
            final_labels,
            Ok(string_views(names@)),
        ));
    }
    let n_streams: usize = streams.len();
    let mut si: usize = 0;
    while si < n_streams
        invariant
            n_streams == streams@.len(),
            si <= n_streams,
            labels.wf(),
            names.wf(),
            final_labels == string_views(labels@),
            spec_parse_names(text@) == after_streams(
                streams@,
                si as int,
                final_labels,
                Ok(string_views(names@)),
            ),
        decreases n_streams - si,
    {
        let stream_members = match &streams[si] {
            JsonValue::Obj(members) => members,
            _ => {
                return Err(DataFault::StreamNotObject);
            },
        };
        let stream_pk = match field_u64(
            stream_members,
            "pk",
            DataFault::StreamPkMissing,
            DataFault::StreamPkNotU64,
        ) {
            Ok(n) => n,
            Err(f) => {
                return Err(f);
            },
        };
        let blocks = match member_lookup(stream_members, "blocks") {
            Option::None => {
                return Err(DataFault::BlocksMissing);
            },
            Option::Some(JsonValue::Arr(items)) => items,
            Option::Some(_) => {
                return Err(DataFault::BlocksNotArray);
            },
        };
        let n_blocks: usize = blocks.len();
        let mut bj: usize = 0;
        while bj < n_blocks
            invariant
                n_streams == streams@.len(),
                si < n_streams,
                n_blocks == blocks@.len(),
                bj <= n_blocks,
                labels.wf(),
                names.wf(),
                final_labels == string_views(labels@),
                spec_parse_names(text@) == after_streams(
                    streams@,
                    si + 1,
                    final_labels,
                    spec_blocks_fold(
                        blocks@,
                        bj as int,
                        stream_pk,
                        final_labels,
                        string_views(names@),
                    ),
                ),
            decreases n_blocks - bj,
        {
            let block_members = match &blocks[bj] {
                JsonValue::Obj(members) => members,
                _ => {
                    return Err(DataFault::BlockNotObject);
                },
            };
            let block_pk = match field_u64(
                block_members,
                "pk",
                DataFault::BlockPkMissing,
                DataFault::BlockPkNotU64,
            ) {
                Ok(n) => n,
                Err(f) => {
                    return Err(f);
                },
            };
            let block_courses = match member_lookup(block_members, "blockCourses") {
                Option::None => {
                    return Err(DataFault::BlockCoursesMissing);
                },
                Option::Some(JsonValue::Arr(items)) => items,
                Option::Some(_) => {
                    return Err(DataFault::BlockCoursesNotArray);
                },
            };
            let n_bc: usize = block_courses.len();
            let mut bl: usize = 0;
            while bl < n_bc
                invariant
                    n_streams == streams@.len(),
                    si < n_streams,
                    n_blocks == blocks@.len(),
                    bj < n_blocks,
                    n_bc == block_courses@.len(),
                    bl <= n_bc,
                    labels.wf(),
                    names.wf(),
                    final_labels == string_views(labels@),
                    spec_parse_names(text@) == after_streams(
                        streams@,
                        si + 1,
                        final_labels,
                        after_blocks(
                            blocks@,
                            bj + 1,
                            stream_pk,
                            final_labels,
                            spec_block_courses_fold(
                                block_courses@,
                                bl as int,
                                stream_pk,
                                block_pk,
                                final_labels,
                                string_views(names@),
                            ),
                        ),
                    ),
                decreases n_bc - bl,
            {
                match block_course(&block_courses[bl], stream_pk, block_pk, &labels) {
                    Ok((key, label)) => {
                        proof {
                            lemma_string_views_insert(names@, key, label);
                        }
                        names.insert(key, label);
                    },
                    Err(f) => {
                        return Err(f);
                    },
                }
                bl += 1;
            }
            bj += 1;
        }
        si += 1;
    }
    Ok(names)
}

} // verus!
