//! A record of a booru state: a new post, a new tag, a post change.

use crate::json::{object, print_text, printed_text, put, tree, JsonTree};
use crate::snowflake::Snowflake;
use crate::wire::field::{put_i64, put_text};
use serde_json::Value;
use vstd::prelude::*;

verus! {

/// The most generic form of what has been recorded of a booru. It tells the
/// boorus apart; what is specific to one booru lies in the inner type.
#[derive(Debug, Clone, Hash)]
pub struct Record {
    /// This record's snowflake ID.
    pub id: Snowflake,
    /// The data of this record.
    pub data: BooruRecord,
}

#[derive(Debug, Clone, Hash)]
pub enum BooruRecord {
    /// A record from Danbooru.
    Danbooru(crate::danbooru::record::Record),
}

impl BooruRecord {
    pub open spec fn spec_type_id(&self) -> u32 {
        match *self {
            BooruRecord::Danbooru(_) => 1,
        }
    }

    pub open spec fn spec_entity_type_id(&self) -> u32 {
        match *self {
            BooruRecord::Danbooru(record) => record.spec_entity().spec_type_id(),
        }
    }

    pub open spec fn spec_entity_id(&self) -> i64 {
        match *self {
            BooruRecord::Danbooru(record) => record.spec_entity().spec_booru_id(),
        }
    }

    /// Get the ID of the type of booru this is.
    /// This must not change between versions.
    pub fn type_id(&self) -> (t: u32)
        ensures
            t == self.spec_type_id(),
    {
        match self {
            BooruRecord::Danbooru(_) => 1,
        }
    }

    /// Get the type of entity this record is about.
    pub fn entity_type_id(&self) -> (t: u32)
        ensures
            t == self.spec_entity_type_id(),
    {
        match self {
            BooruRecord::Danbooru(record) => record.get_entity().type_id(),
        }
    }

    /// Get the booru ID of the entity this record is about.
    pub fn entity_id(&self) -> (id: i64)
        ensures
            id == self.spec_entity_id(),
    {
        match self {
            BooruRecord::Danbooru(record) => record.get_entity().booru_id(),
        }
    }

    /// The record of a Danbooru entity, as a record of any booru.
    pub fn from_danbooru(record: crate::danbooru::record::Record) -> (booru: BooruRecord)
        ensures
            booru == BooruRecord::Danbooru(record),
    {
        BooruRecord::Danbooru(record)
    }
}

impl BooruRecord {
    /// Whether every point in time of the record can be written.
    pub open spec fn writable(&self) -> bool {
        match *self {
            BooruRecord::Danbooru(record) => record.writable(),
        }
    }

    /// The document that stands for the record: the booru, and what the
    /// booru's record holds as the data.
    pub open spec fn document(&self) -> JsonTree {
        match *self {
            BooruRecord::Danbooru(record) => JsonTree::empty_object().with(
                "booru"@,
                JsonTree::Text("Danbooru"@),
            ).with("data"@, record.document()),
        }
    }

    /// Write the record as a document; `None` where one of its points in
    /// time cannot be written.
    pub fn encode(&self) -> (written: Option<Value>)
        ensures
            written is Some <==> self.writable(),
            written matches Some(value) ==> tree(value) == self.document(),
    {
        match self {
            BooruRecord::Danbooru(record) => {
                let data = record.encode()?;
                let mut document = object();
                put_text(&mut document, "booru", "Danbooru");
                put(&mut document, "data", data);
                Some(document)
            },
        }
    }

    /// Write the record as the JSON text that the backends store. Nothing is
    /// written for a record with a point in time that cannot be written.
    pub fn to_json(&self) -> (written: Option<String>)
        ensures
            written is Some <==> self.writable(),
            written matches Some(w) ==> w@ == printed_text(self.document()),
    {
        let document = self.encode()?;
        print_text(&document)
    }
}

impl Record {
    /// The document that stands for the record: its identifier as a number,
    /// and its data.
    pub open spec fn document(&self) -> JsonTree {
        JsonTree::empty_object().with("id"@, JsonTree::Number(self.id.spec_value() as int)).with(
            "data"@,
            self.data.document(),
        )
    }

    /// Write the record as a document; `None` where one of its points in
    /// time cannot be written.
    pub fn encode(&self) -> (written: Option<Value>)
        ensures
            written is Some <==> self.data.writable(),
            written matches Some(value) ==> tree(value) == self.document(),
    {
        let data = self.data.encode()?;
        let mut document = object();
        put_i64(&mut document, "id", self.id.value());
        put(&mut document, "data", data);
        Some(document)
    }
}

impl From<crate::danbooru::record::Record> for BooruRecord {
    fn from(value: crate::danbooru::record::Record) -> (made: BooruRecord) {
        BooruRecord::Danbooru(value)
    }
}

impl vstd::std_specs::convert::FromSpecImpl<crate::danbooru::record::Record> for BooruRecord {
    open spec fn obeys_from_spec() -> bool {
        true
    }

    open spec fn from_spec(value: crate::danbooru::record::Record) -> BooruRecord {
        BooruRecord::Danbooru(value)
    }
}

} // verus!
