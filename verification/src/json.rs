//! JSON documents, as `serde_json` holds them.
//!
//! A document is kept as a `serde_json::Value`. What such a value holds is
//! its [`tree`]; everything that is read from a document or put into one is
//! stated over that tree.

use serde_json::Value;
use vstd::prelude::*;

verus! {

/// What a JSON document holds.
pub enum JsonTree {
    Null,
    Bool(bool),
    /// A whole number, between the least `i64` and the greatest `u64`.
    Number(int),
    /// A number that is not whole, or too large to be kept exactly. It is
    /// told by the 64 bits in which it is held, so that two such numbers are
    /// the same document only if they are the same number.
    Fraction(u64),
    Text(Seq<char>),
    List(Seq<JsonTree>),
    /// The members of an object by their names. No name occurs twice.
    Object(Map<Seq<char>, JsonTree>),
}

/// `serde_json::Value`, whose inside is read through [`tree`] only.
#[verifier::external_type_specification]
#[verifier::external_body]
pub struct ExValue(Value);

/// What the document `value` holds.
pub uninterp spec fn tree(value: Value) -> JsonTree;

/// What the text `bytes` holds as a JSON document; `None` where it is none.
pub uninterp spec fn parsed(bytes: Seq<u8>) -> Option<JsonTree>;

/// The bytes that `serde_json` writes for a document.
pub uninterp spec fn printed(document: JsonTree) -> Seq<u8>;

/// The text that `serde_json` writes for a document.
pub uninterp spec fn printed_text(document: JsonTree) -> Seq<char>;

/// What the documents of a list hold, one by one.
pub open spec fn trees(values: Seq<Value>) -> Seq<JsonTree> {
    Seq::new(values.len(), |i: int| tree(values[i]))
}

impl JsonTree {
    /// The member `name` of an object; `None` where this is no object or has
    /// no such member.
    pub open spec fn member(self, name: Seq<char>) -> Option<JsonTree> {
        match self {
            JsonTree::Object(members) => if members.dom().contains(name) {
                Some(members[name])
            } else {
                None
            },
            _ => None,
        }
    }

    /// Whether `count` is the number of members of the document: for an
    /// object the number of its names, which is finite; else 0.
    pub open spec fn has_members(self, count: usize) -> bool {
        match self {
            JsonTree::Object(members) => members.dom().finite() && count == members.dom().len(),
            _ => count == 0,
        }
    }

    /// What stands under the tag `name` of a tagged document: the member
    /// `name` of an object that has this one member and no other. A variant
    /// is written under its tag alone, so an object with a second member
    /// names no variant at all.
    pub open spec fn variant(self, name: Seq<char>) -> Option<JsonTree> {
        match self {
            JsonTree::Object(members) => if members.dom().finite() && members.dom().len() == 1
                && members.dom().contains(name) {
                Some(members[name])
            } else {
                None
            },
            _ => None,
        }
    }

    /// The number as a `u64`, where this is a whole number that fits.
    pub open spec fn as_u64(self) -> Option<u64> {
        match self {
            JsonTree::Number(n) => if 0 <= n <= u64::MAX {
                Some(n as u64)
            } else {
                None
            },
            _ => None,
        }
    }

    /// The number as an `i64`, where this is a whole number that fits.
    pub open spec fn as_i64(self) -> Option<i64> {
        match self {
            JsonTree::Number(n) => if i64::MIN <= n <= i64::MAX {
                Some(n as i64)
            } else {
                None
            },
            _ => None,
        }
    }

    pub open spec fn as_bool(self) -> Option<bool> {
        match self {
            JsonTree::Bool(b) => Some(b),
            _ => None,
        }
    }

    pub open spec fn as_text(self) -> Option<Seq<char>> {
        match self {
            JsonTree::Text(text) => Some(text),
            _ => None,
        }
    }

    /// The object that has the members of this one and `member` under `name`.
    pub open spec fn with(self, name: Seq<char>, member: JsonTree) -> JsonTree {
        match self {
            JsonTree::Object(members) => JsonTree::Object(members.insert(name, member)),
            other => other,
        }
    }

    /// The object without members.
    pub open spec fn empty_object() -> JsonTree {
        JsonTree::Object(Map::empty())
    }
}

/// `Value::as_u64`: the number, where the document is a whole number that a
/// `u64` holds.
pub assume_specification[ Value::as_u64 ](value: &Value) -> (number: Option<u64>)
    ensures
        number == tree(*value).as_u64(),
;

/// `Value::as_i64`: the number, where the document is a whole number that an
/// `i64` holds.
pub assume_specification[ Value::as_i64 ](value: &Value) -> (number: Option<i64>)
    ensures
        number == tree(*value).as_i64(),
;

/// `Value::as_bool`: the truth value, where the document is one.
pub assume_specification[ Value::as_bool ](value: &Value) -> (truth: Option<bool>)
    ensures
        truth == tree(*value).as_bool(),
;

/// `Value::as_array`: the documents of the list, where the document is a
/// list.
pub assume_specification<'a>[ Value::as_array ](value: &'a Value) -> (items: Option<
    &'a Vec<Value>,
>)
    ensures
        items is Some <==> tree(*value) is List,
        items matches Some(list) ==> tree(*value) == JsonTree::List(trees(list@)),
;

/// `Value::is_null`: whether the document is null.
pub assume_specification[ Value::is_null ](value: &Value) -> (nothing: bool)
    ensures
        nothing == (tree(*value) is Null),
;

/// `Value::as_str`: the text, where the document is a text.
pub assume_specification<'a>[ Value::as_str ](value: &'a Value) -> (string: Option<&'a str>)
    ensures
        string is Some <==> tree(*value) is Text,
        string matches Some(s) ==> tree(*value) == JsonTree::Text(s@),
;

/// `Value::get` with a name: the member of that name, where the document is
/// an object and has one.
#[verifier::external_body]
pub(crate) fn member<'a>(value: &'a Value, name: &str) -> (found: Option<&'a Value>)
    ensures
        found is Some <==> tree(*value).member(name@) is Some,
        found matches Some(m) ==> tree(*value).member(name@) == Some(tree(*m)),
{
    value.get(name)
}

/// `serde_json::Map::len` on the members of an object: how many members it
/// has, each name counted once; 0 for a document that is no object.
#[verifier::external_body]
pub(crate) fn member_count(value: &Value) -> (count: usize)
    ensures
        tree(*value).has_members(count),
{
    match value {
        Value::Object(members) => members.len(),
        _ => 0,
    }
}

/// What stands under the tag `name`, where the document is an object with
/// that one member and no other.
pub fn variant<'a>(value: &'a Value, name: &str) -> (found: Option<&'a Value>)
    ensures
        found is Some <==> tree(*value).variant(name@) is Some,
        found matches Some(m) ==> tree(*value).variant(name@) == Some(tree(*m)),
{
    if member_count(value) == 1 {
        member(value, name)
    } else {
        None
    }
}

/// `Value::Null`.
#[verifier::external_body]
pub(crate) fn null() -> (value: Value)
    ensures
        tree(value) == JsonTree::Null,
{
    Value::Null
}

/// `Value::Bool`.
#[verifier::external_body]
pub(crate) fn boolean(truth: bool) -> (value: Value)
    ensures
        tree(value) == JsonTree::Bool(truth),
{
    Value::Bool(truth)
}

/// `Value::from` a `u64`: the document that is this number.
#[verifier::external_body]
pub(crate) fn unsigned(number: u64) -> (value: Value)
    ensures
        tree(value) == JsonTree::Number(number as int),
{
    Value::from(number)
}

/// `Value::from` an `i64`: the document that is this number.
#[verifier::external_body]
pub(crate) fn signed(number: i64) -> (value: Value)
    ensures
        tree(value) == JsonTree::Number(number as int),
{
    Value::from(number)
}

/// `Value::from` a text: the document that is this text.
#[verifier::external_body]
pub(crate) fn text(content: &str) -> (value: Value)
    ensures
        tree(value) == JsonTree::Text(content@),
{
    Value::from(content)
}

/// `Value::Array`: the list of the documents, in their order.
#[verifier::external_body]
pub(crate) fn list(items: Vec<Value>) -> (value: Value)
    ensures
        tree(value) == JsonTree::List(trees(items@)),
{
    Value::Array(items)
}

/// `Value::Object` of `serde_json::Map::new()`: the object without members.
#[verifier::external_body]
pub(crate) fn object() -> (value: Value)
    ensures
        tree(value) == JsonTree::empty_object(),
{
    Value::Object(serde_json::Map::new())
}

/// `serde_json::Map::insert` on the members of an object: `member` stands
/// under `name` afterwards, in place of what stood there; the other members
/// stay.
#[verifier::external_body]
pub(crate) fn put(object: &mut Value, name: &str, member: Value)
    requires
        tree(*old(object)) is Object,
    ensures
        tree(*final(object)) == tree(*old(object)).with(name@, tree(member)),
{
    if let Value::Object(members) = object {
        members.insert(name.to_owned(), member);
    }
}

/// `serde_json::from_slice::<Value>`: the document that the text holds, or
/// `None` where the text is no JSON.
#[verifier::external_body]
pub(crate) fn parse(bytes: &[u8]) -> (document: Option<Value>)
    ensures
        document is Some <==> parsed(bytes@) is Some,
        document matches Some(value) ==> parsed(bytes@) == Some(tree(value)),
{
    serde_json::from_slice::<Value>(bytes).ok()
}

/// `serde_json::to_vec` of a document: its bytes. Writing fails only where
/// a name is no text or the writer refuses; a document has texts for names
/// and is written into memory, so its bytes always come.
#[verifier::external_body]
pub(crate) fn print(document: &Value) -> (bytes: Option<Vec<u8>>)
    ensures
        bytes is Some,
        bytes matches Some(b) ==> b@ == printed(tree(*document)),
{
    serde_json::to_vec(document).ok()
}

/// `serde_json::to_string` of a document: its text. As with the bytes, the
/// text of a document always comes.
#[verifier::external_body]
pub(crate) fn print_text(document: &Value) -> (written: Option<String>)
    ensures
        written is Some,
        written matches Some(w) ==> w@ == printed_text(tree(*document)),
{
    serde_json::to_string(document).ok()
}

} // verus!
