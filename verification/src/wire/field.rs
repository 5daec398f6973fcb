//! The members of a JSON object, read and written one by one.

use crate::date_time::DateTime;
use crate::json::{
    boolean,
    list,
    member,
    null,
    put,
    signed,
    text,
    tree,
    trees,
    unsigned,
    JsonTree,
};
use crate::tag_string::{deserialize_tag_string, joined, serialize_tag_string, tags_of, texts};
use serde_json::Value;
use vstd::prelude::*;

verus! {

/// The text that stands for `time` in a document: date and time of day in
/// UTC after RFC 3339, with as many digits of the second's fraction as are
/// needed. `None` where the calendar does not reach `time`.
pub uninterp spec fn rfc3339_text(time: DateTime) -> Option<Seq<char>>;

/// The point in time that `text` names after RFC 3339, brought to UTC;
/// `None` where `text` names none.
pub uninterp spec fn rfc3339_time(text: Seq<char>) -> Option<DateTime>;

/// The first second of the year 0 and the last second of the year 9999, in
/// seconds since the epoch: RFC 3339 writes years of four digits.
pub const FIRST_WRITABLE_SECOND: i64 = -62_167_219_200;

pub const LAST_WRITABLE_SECOND: i64 = 253_402_300_799;

/// Whether RFC 3339 has a year for `time`.
pub open spec fn writable(time: DateTime) -> bool {
    FIRST_WRITABLE_SECOND <= time.secs <= LAST_WRITABLE_SECOND
}

/// `chrono::DateTime::from_timestamp`, then `to_rfc3339_opts` with
/// `SecondsFormat::AutoSi` and `Z` for UTC: the text is a function of the
/// point in time alone. Within the years that RFC 3339 can write, reading the
/// text gives the point in time back.
#[verifier::external_body]
fn write_rfc3339(time: DateTime) -> (written: Option<String>)
    ensures
        written is Some <==> rfc3339_text(time) is Some,
        written matches Some(t) ==> rfc3339_text(time) == Some(t@),
        written matches Some(t) ==> writable(time) ==> rfc3339_time(t@) == Some(time),
{
    match chrono::DateTime::from_timestamp(time.secs, time.nanos) {
        Some(utc) => Some(utc.to_rfc3339_opts(chrono::SecondsFormat::AutoSi, true)),
        None => None,
    }
}

/// `str::parse::<chrono::DateTime<chrono::FixedOffset>>`, then
/// `with_timezone(&Utc)`, handed out as seconds and nanoseconds.
#[verifier::external_body]
fn read_rfc3339(written: &str) -> (time: Option<DateTime>)
    ensures
        time == rfc3339_time(written@),
{
    match written.parse::<chrono::DateTime<chrono::FixedOffset>>() {
        Ok(read) => {
            let utc = read.with_timezone(&chrono::Utc);
            Some(DateTime { secs: utc.timestamp(), nanos: utc.timestamp_subsec_nanos() })
        },
        Err(_) => None,
    }
}

/// Whether `time` is written as a text that reads as `time` again.
pub open spec fn reads_back(time: DateTime) -> bool {
    rfc3339_text(time) matches Some(written) && rfc3339_time(written) == Some(time)
}

/// The document that stands for a number that may be missing.
pub open spec fn maybe_u64_tree(number: Option<u64>) -> JsonTree {
    match number {
        Some(n) => JsonTree::Number(n as int),
        None => JsonTree::Null,
    }
}

pub open spec fn maybe_i64_tree(number: Option<i64>) -> JsonTree {
    match number {
        Some(n) => JsonTree::Number(n as int),
        None => JsonTree::Null,
    }
}

pub open spec fn maybe_bool_tree(truth: Option<bool>) -> JsonTree {
    match truth {
        Some(b) => JsonTree::Bool(b),
        None => JsonTree::Null,
    }
}

/// The document that stands for a point in time.
pub open spec fn time_tree(time: DateTime) -> Option<JsonTree> {
    match rfc3339_text(time) {
        Some(written) => Some(JsonTree::Text(written)),
        None => None,
    }
}

pub open spec fn field_u64(document: JsonTree, name: Seq<char>) -> Option<u64> {
    match document.member(name) {
        Some(found) => found.as_u64(),
        None => None,
    }
}

pub open spec fn field_i64(document: JsonTree, name: Seq<char>) -> Option<i64> {
    match document.member(name) {
        Some(found) => found.as_i64(),
        None => None,
    }
}

pub open spec fn field_bool(document: JsonTree, name: Seq<char>) -> Option<bool> {
    match document.member(name) {
        Some(found) => found.as_bool(),
        None => None,
    }
}

pub open spec fn field_text(document: JsonTree, name: Seq<char>) -> Option<Seq<char>> {
    match document.member(name) {
        Some(found) => found.as_text(),
        None => None,
    }
}

pub open spec fn field_time(document: JsonTree, name: Seq<char>) -> Option<DateTime> {
    match field_text(document, name) {
        Some(written) => rfc3339_time(written),
        None => None,
    }
}

/// A member that may be missing: a member that is not there, or is null,
/// reads as missing; one of another kind does not read at all.
pub open spec fn field_maybe_u64(document: JsonTree, name: Seq<char>) -> Option<Option<u64>> {
    match document.member(name) {
        None => Some(None),
        Some(JsonTree::Null) => Some(None),
        Some(found) => match found.as_u64() {
            Some(n) => Some(Some(n)),
            None => None,
        },
    }
}

pub open spec fn field_maybe_i64(document: JsonTree, name: Seq<char>) -> Option<Option<i64>> {
    match document.member(name) {
        None => Some(None),
        Some(JsonTree::Null) => Some(None),
        Some(found) => match found.as_i64() {
            Some(n) => Some(Some(n)),
            None => None,
        },
    }
}

pub open spec fn field_maybe_bool(document: JsonTree, name: Seq<char>) -> Option<Option<bool>> {
    match document.member(name) {
        None => Some(None),
        Some(JsonTree::Null) => Some(None),
        Some(found) => match found.as_bool() {
            Some(b) => Some(Some(b)),
            None => None,
        },
    }
}

pub open spec fn field_u32(document: JsonTree, name: Seq<char>) -> Option<u32> {
    match field_u64(document, name) {
        Some(n) => if n <= u32::MAX {
            Some(n as u32)
        } else {
            None
        },
        None => None,
    }
}

pub open spec fn field_i32(document: JsonTree, name: Seq<char>) -> Option<i32> {
    match field_i64(document, name) {
        Some(n) => if i32::MIN <= n <= i32::MAX {
            Some(n as i32)
        } else {
            None
        },
        None => None,
    }
}

pub open spec fn field_usize(document: JsonTree, name: Seq<char>) -> Option<usize> {
    match field_u64(document, name) {
        Some(n) => if n <= usize::MAX {
            Some(n as usize)
        } else {
            None
        },
        None => None,
    }
}

pub open spec fn field_maybe_u32(document: JsonTree, name: Seq<char>) -> Option<Option<u32>> {
    match field_maybe_u64(document, name) {
        Some(Some(n)) => if n <= u32::MAX {
            Some(Some(n as u32))
        } else {
            None
        },
        Some(None) => Some(None),
        None => None,
    }
}

pub open spec fn field_maybe_text(document: JsonTree, name: Seq<char>) -> Option<
    Option<Seq<char>>,
> {
    match document.member(name) {
        None => Some(None),
        Some(JsonTree::Null) => Some(None),
        Some(found) => match found.as_text() {
            Some(content) => Some(Some(content)),
            None => None,
        },
    }
}

pub open spec fn field_maybe_time(document: JsonTree, name: Seq<char>) -> Option<
    Option<DateTime>,
> {
    match field_maybe_text(document, name) {
        Some(Some(written)) => match rfc3339_time(written) {
            Some(time) => Some(Some(time)),
            None => None,
        },
        Some(None) => Some(None),
        None => None,
    }
}

/// A list of tags that is written as one text.
pub open spec fn field_tags(document: JsonTree, name: Seq<char>) -> Option<Seq<Seq<char>>> {
    match field_text(document, name) {
        Some(written) => Some(tags_of(written)),
        None => None,
    }
}

/// The texts of a list of documents that are all texts.
pub open spec fn texts_of(items: Seq<JsonTree>) -> Option<Seq<Seq<char>>> {
    if forall|i: int| 0 <= i < items.len() ==> (#[trigger] items[i]) is Text {
        Some(Seq::new(items.len(), |i: int| items[i]->Text_0))
    } else {
        None
    }
}

/// A list of texts.
pub open spec fn field_texts(document: JsonTree, name: Seq<char>) -> Option<Seq<Seq<char>>> {
    match document.member(name) {
        Some(JsonTree::List(items)) => texts_of(items),
        _ => None,
    }
}

/// The document of a list of tags that is written as one text.
pub open spec fn tags_tree(tags: Seq<Seq<char>>) -> JsonTree {
    JsonTree::Text(joined(tags, tags.len()))
}

/// The list of documents that are the texts of `list`.
pub open spec fn texts_tree(list: Seq<Seq<char>>) -> JsonTree {
    JsonTree::List(Seq::new(list.len(), |i: int| JsonTree::Text(list[i])))
}

pub fn get_u32(document: &Value, name: &str) -> (number: Option<u32>)
    ensures
        number == field_u32(tree(*document), name@),
{
    let wide = get_u64(document, name)?;
    if wide <= u32::MAX as u64 {
        Some(wide as u32)
    } else {
        None
    }
}

pub fn get_i32(document: &Value, name: &str) -> (number: Option<i32>)
    ensures
        number == field_i32(tree(*document), name@),
{
    let wide = get_i64(document, name)?;
    if i32::MIN as i64 <= wide && wide <= i32::MAX as i64 {
        Some(wide as i32)
    } else {
        None
    }
}

pub fn get_usize(document: &Value, name: &str) -> (number: Option<usize>)
    ensures
        number == field_usize(tree(*document), name@),
{
    let wide = get_u64(document, name)?;
    if wide <= usize::MAX as u64 {
        Some(wide as usize)
    } else {
        None
    }
}

pub fn get_maybe_u32(document: &Value, name: &str) -> (number: Option<Option<u32>>)
    ensures
        number == field_maybe_u32(tree(*document), name@),
{
    match get_maybe_u64(document, name)? {
        Some(wide) => if wide <= u32::MAX as u64 {
            Some(Some(wide as u32))
        } else {
            None
        },
        None => Some(None),
    }
}

pub fn get_maybe_text(document: &Value, name: &str) -> (content: Option<Option<String>>)
    ensures
        match field_maybe_text(tree(*document), name@) {
            Some(Some(expected)) => content matches Some(Some(c)) && c@ == expected,
            Some(None) => content == Some(None::<String>),
            None => content is None,
        },
{
    match member(document, name) {
        None => Some(None),
        Some(found) => if found.is_null() {
            Some(None)
        } else {
            match found.as_str() {
                Some(content) => Some(Some(content.to_owned())),
                None => None,
            }
        },
    }
}

pub fn get_maybe_time(document: &Value, name: &str) -> (time: Option<Option<DateTime>>)
    ensures
        time == field_maybe_time(tree(*document), name@),
{
    match member(document, name) {
        None => Some(None),
        Some(found) => if found.is_null() {
            Some(None)
        } else {
            match found.as_str() {
                Some(written) => match read_rfc3339(written) {
                    Some(time) => Some(Some(time)),
                    None => None,
                },
                None => None,
            }
        },
    }
}

pub fn get_tags(document: &Value, name: &str) -> (tags: Option<Vec<String>>)
    ensures
        tags is Some <==> field_tags(tree(*document), name@) is Some,
        tags matches Some(list) ==> field_tags(tree(*document), name@) == Some(texts(list@)),
{
    match member(document, name) {
        Some(found) => match found.as_str() {
            Some(written) => Some(deserialize_tag_string(written)),
            None => None,
        },
        None => None,
    }
}

pub fn get_texts(document: &Value, name: &str) -> (list: Option<Vec<String>>)
    ensures
        list is Some <==> field_texts(tree(*document), name@) is Some,
        list matches Some(l) ==> field_texts(tree(*document), name@) == Some(texts(l@)),
{
    let found = member(document, name)?;
    let items = found.as_array()?;
    let mut list: Vec<String> = Vec::new();
    let mut i: usize = 0;
    while i < items.len()
        invariant
            i <= items.len(),
            list@.len() == i,
            tree(*document).member(name@) == Some(JsonTree::List(trees(items@))),
            forall|j: int| 0 <= j < i ==> tree(items@[j]) == JsonTree::Text(#[trigger] list@[j]@),
        decreases items.len() - i,
    {
        match items[i].as_str() {
            Some(content) => {
                list.push(content.to_owned());
            },
            None => {
                assert(!(trees(items@)[i as int] is Text));
                return None;
            },
        }
        i += 1;
    }
    proof {
        assert forall|j: int| 0 <= j < trees(items@).len() implies (#[trigger] trees(
            items@,
        )[j]) is Text by {
            assert(tree(items@[j]) == JsonTree::Text(list@[j]@));
        }
        assert(texts_of(trees(items@))->0 =~= texts(list@)) by {
            assert forall|j: int| 0 <= j < list@.len() implies texts_of(trees(items@))->0[j]
                == texts(list@)[j] by {
                assert(tree(items@[j]) == JsonTree::Text(list@[j]@));
            }
        }
    }
    Some(list)
}

pub fn put_tags(object: &mut Value, name: &str, tags: &Vec<String>)
    requires
        tree(*old(object)) is Object,
    ensures
        tree(*final(object)) == tree(*old(object)).with(name@, tags_tree(texts(tags@))),
{
    let written = serialize_tag_string(tags);
    put(object, name, text(written.as_str()));
}

pub fn put_texts(object: &mut Value, name: &str, contents: &Vec<String>)
    requires
        tree(*old(object)) is Object,
    ensures
        tree(*final(object)) == tree(*old(object)).with(name@, texts_tree(texts(contents@))),
{
    let mut items: Vec<Value> = Vec::new();
    let mut i: usize = 0;
    while i < contents.len()
        invariant
            i <= contents.len(),
            items@.len() == i,
            forall|j: int|
                0 <= j < i ==> tree(#[trigger] items@[j]) == JsonTree::Text(contents@[j]@),
        decreases contents.len() - i,
    {
        items.push(text(contents[i].as_str()));
        i += 1;
    }
    assert(trees(items@) =~= texts_tree(texts(contents@))->List_0);
    put(object, name, list(items));
}

pub fn put_maybe_text(object: &mut Value, name: &str, content: &Option<String>)
    requires
        tree(*old(object)) is Object,
    ensures
        tree(*final(object)) == tree(*old(object)).with(
            name@,
            match *content {
                Some(c) => JsonTree::Text(c@),
                None => JsonTree::Null,
            },
        ),
{
    match content {
        Some(c) => put(object, name, text(c.as_str())),
        None => put(object, name, null()),
    }
}

/// Write a point in time that may be missing. Where it is there and the
/// calendar does not reach it, nothing is written, and the result says so.
pub fn put_maybe_time(object: &mut Value, name: &str, time: Option<DateTime>) -> (written: bool)
    requires
        tree(*old(object)) is Object,
    ensures
        written <==> (time matches Some(t) ==> time_tree(t) is Some),
        written ==> tree(*final(object)) == tree(*old(object)).with(
            name@,
            match time {
                Some(t) => time_tree(t)->0,
                None => JsonTree::Null,
            },
        ),
        !written ==> tree(*final(object)) == tree(*old(object)),
        written ==> (time matches Some(t) ==> (writable(t) ==> reads_back(t))),
{
    match time {
        Some(t) => put_time(object, name, t),
        None => {
            put(object, name, null());
            true
        },
    }
}

pub fn get_u64(document: &Value, name: &str) -> (number: Option<u64>)
    ensures
        number == field_u64(tree(*document), name@),
{
    match member(document, name) {
        Some(found) => found.as_u64(),
        None => None,
    }
}

pub fn get_i64(document: &Value, name: &str) -> (number: Option<i64>)
    ensures
        number == field_i64(tree(*document), name@),
{
    match member(document, name) {
        Some(found) => found.as_i64(),
        None => None,
    }
}

pub fn get_bool(document: &Value, name: &str) -> (truth: Option<bool>)
    ensures
        truth == field_bool(tree(*document), name@),
{
    match member(document, name) {
        Some(found) => found.as_bool(),
        None => None,
    }
}

pub fn get_text(document: &Value, name: &str) -> (content: Option<String>)
    ensures
        content is Some <==> field_text(tree(*document), name@) is Some,
        content matches Some(t) ==> field_text(tree(*document), name@) == Some(t@),
{
    match member(document, name) {
        Some(found) => match found.as_str() {
            Some(content) => Some(content.to_owned()),
            None => None,
        },
        None => None,
    }
}

pub fn get_time(document: &Value, name: &str) -> (time: Option<DateTime>)
    ensures
        time == field_time(tree(*document), name@),
{
    match member(document, name) {
        Some(found) => match found.as_str() {
            Some(written) => read_rfc3339(written),
            None => None,
        },
        None => None,
    }
}

pub fn get_maybe_u64(document: &Value, name: &str) -> (number: Option<Option<u64>>)
    ensures
        number == field_maybe_u64(tree(*document), name@),
{
    match member(document, name) {
        None => Some(None),
        Some(found) => if found.is_null() {
            Some(None)
        } else {
            match found.as_u64() {
                Some(n) => Some(Some(n)),
                None => None,
            }
        },
    }
}

pub fn get_maybe_i64(document: &Value, name: &str) -> (number: Option<Option<i64>>)
    ensures
        number == field_maybe_i64(tree(*document), name@),
{
    match member(document, name) {
        None => Some(None),
        Some(found) => if found.is_null() {
            Some(None)
        } else {
            match found.as_i64() {
                Some(n) => Some(Some(n)),
                None => None,
            }
        },
    }
}

pub fn get_maybe_bool(document: &Value, name: &str) -> (truth: Option<Option<bool>>)
    ensures
        truth == field_maybe_bool(tree(*document), name@),
{
    match member(document, name) {
        None => Some(None),
        Some(found) => if found.is_null() {
            Some(None)
        } else {
            match found.as_bool() {
                Some(b) => Some(Some(b)),
                None => None,
            }
        },
    }
}

pub fn put_u64(object: &mut Value, name: &str, number: u64)
    requires
        tree(*old(object)) is Object,
    ensures
        tree(*final(object)) == tree(*old(object)).with(name@, JsonTree::Number(number as int)),
{
    put(object, name, unsigned(number));
}

pub fn put_i64(object: &mut Value, name: &str, number: i64)
    requires
        tree(*old(object)) is Object,
    ensures
        tree(*final(object)) == tree(*old(object)).with(name@, JsonTree::Number(number as int)),
{
    put(object, name, signed(number));
}

pub fn put_bool(object: &mut Value, name: &str, truth: bool)
    requires
        tree(*old(object)) is Object,
    ensures
        tree(*final(object)) == tree(*old(object)).with(name@, JsonTree::Bool(truth)),
{
    put(object, name, boolean(truth));
}

pub fn put_text(object: &mut Value, name: &str, content: &str)
    requires
        tree(*old(object)) is Object,
    ensures
        tree(*final(object)) == tree(*old(object)).with(name@, JsonTree::Text(content@)),
{
    put(object, name, text(content));
}

/// Write a point in time under `name`. Where the calendar does not reach it,
/// nothing is written, and the result says so.
pub fn put_time(object: &mut Value, name: &str, time: DateTime) -> (written: bool)
    requires
        tree(*old(object)) is Object,
    ensures
        written <==> time_tree(time) is Some,
        written ==> tree(*final(object)) == tree(*old(object)).with(name@, time_tree(time)->0),
        !written ==> tree(*final(object)) == tree(*old(object)),
        written && writable(time) ==> reads_back(time),
{
    match write_rfc3339(time) {
        Some(content) => {
            put(object, name, text(content.as_str()));
            true
        },
        None => false,
    }
}

pub fn put_maybe_u64(object: &mut Value, name: &str, number: Option<u64>)
    requires
        tree(*old(object)) is Object,
    ensures
        tree(*final(object)) == tree(*old(object)).with(name@, maybe_u64_tree(number)),
{
    match number {
        Some(n) => put(object, name, unsigned(n)),
        None => put(object, name, null()),
    }
}

pub fn put_maybe_i64(object: &mut Value, name: &str, number: Option<i64>)
    requires
        tree(*old(object)) is Object,
    ensures
        tree(*final(object)) == tree(*old(object)).with(name@, maybe_i64_tree(number)),
{
    match number {
        Some(n) => put(object, name, signed(n)),
        None => put(object, name, null()),
    }
}

pub fn put_maybe_bool(object: &mut Value, name: &str, truth: Option<bool>)
    requires
        tree(*old(object)) is Object,
    ensures
        tree(*final(object)) == tree(*old(object)).with(name@, maybe_bool_tree(truth)),
{
    match truth {
        Some(b) => put(object, name, boolean(b)),
        None => put(object, name, null()),
    }
}

} // verus!
