//! The record itself on the wire, as a document and as bytes.

use crate::json::{
    member,
    object,
    parse,
    parsed,
    print,
    printed,
    put,
    tree,
    variant,
    JsonTree,
};
use crate::record::{Record, RecordData, RecordDataView, RecordView};
use crate::record_types::danbooru::{DanbooruRecord, DanbooruRecordView};
use crate::record_types::media::{MediaRecord, MediaRecordView};
use crate::record_types::rule34::{Rule34Record, Rule34RecordView};
use crate::snowflake::Snowflake;
use crate::wire::field::{field_i64, get_i64, put_i64};
use serde_json::Value;
use vstd::prelude::*;

verus! {

impl RecordDataView {
    /// Whether every point in time of the data lies in a year that can be
    /// written: the years 0 to 9999.
    pub open spec fn writable(self) -> bool {
        match self {
            RecordDataView::Media(_) => true,
            RecordDataView::Rule34(record) => record.writable(),
            RecordDataView::Danbooru(record) => record.writable(),
        }
    }

    /// Whether every point in time of the data is written as a text that
    /// reads as that point again.
    pub open spec fn reads_back(self) -> bool {
        match self {
            RecordDataView::Media(_) => true,
            RecordDataView::Rule34(record) => record.reads_back(),
            RecordDataView::Danbooru(record) => record.reads_back(),
        }
    }

    /// The document that stands for the data: the source, and under it what
    /// the source's record holds.
    pub open spec fn document(self) -> Option<JsonTree> {
        match self {
            RecordDataView::Media(record) => Some(
                JsonTree::empty_object().with("Media"@, record.document()),
            ),
            RecordDataView::Rule34(record) => match record.document() {
                Some(inner) => Some(JsonTree::empty_object().with("Rule34"@, inner)),
                None => None,
            },
            RecordDataView::Danbooru(record) => match record.document() {
                Some(inner) => Some(JsonTree::empty_object().with("Danbooru"@, inner)),
                None => None,
            },
        }
    }

    /// The data that a document stands for, if any: an object whose one
    /// member is the tag of the source. A document with two tags, or with a
    /// member beside its tag, stands for no data.
    pub open spec fn of_document(document: JsonTree) -> Option<RecordDataView> {
        if document.variant("Media"@) is Some {
            match MediaRecordView::of_document(document.variant("Media"@)->0) {
                Some(record) => Some(RecordDataView::Media(record)),
                None => None,
            }
        } else if document.variant("Rule34"@) is Some {
            match Rule34RecordView::of_document(document.variant("Rule34"@)->0) {
                Some(record) => Some(RecordDataView::Rule34(record)),
                None => None,
            }
        } else if document.variant("Danbooru"@) is Some {
            match DanbooruRecordView::of_document(document.variant("Danbooru"@)->0) {
                Some(record) => Some(RecordDataView::Danbooru(record)),
                None => None,
            }
        } else {
            None
        }
    }
}

impl RecordData {
    /// Write the data as a document; `None` where one of its points in time
    /// cannot be written.
    pub fn encode(&self) -> (document: Option<Value>)
        ensures
            document is Some <==> self@.document() is Some,
            document matches Some(value) ==> self@.document() == Some(tree(value)),
            document is Some && self@.writable() ==> self@.reads_back(),
    {
        let mut document = object();
        match self {
            RecordData::Media(record) => {
                put(&mut document, "Media", record.encode());
            },
            RecordData::Rule34(record) => {
                put(&mut document, "Rule34", record.encode()?);
            },
            RecordData::Danbooru(record) => {
                put(&mut document, "Danbooru", record.encode()?);
            },
        }
        Some(document)
    }

    /// Read data from a document; `None` where the document is none of
    /// record data.
    pub fn decode(document: &Value) -> (data: Option<RecordData>)
        ensures
            data is Some <==> RecordDataView::of_document(tree(*document)) is Some,
            data matches Some(d) ==> RecordDataView::of_document(tree(*document)) == Some(d@),
    {
        if let Some(inner) = variant(document, "Media") {
            return Some(RecordData::Media(MediaRecord::decode(inner)?));
        }
        if let Some(inner) = variant(document, "Rule34") {
            return Some(RecordData::Rule34(Rule34Record::decode(inner)?));
        }
        if let Some(inner) = variant(document, "Danbooru") {
            return Some(RecordData::Danbooru(DanbooruRecord::decode(inner)?));
        }
        None
    }
}

impl RecordView {
    /// Whether every point in time of the record lies in a year that can be
    /// written: the years 0 to 9999.
    pub open spec fn writable(self) -> bool {
        self.data.writable()
    }

    /// Whether every point in time of the record is written as a text that
    /// reads as that point again.
    pub open spec fn reads_back(self) -> bool {
        self.data.reads_back()
    }

    /// The document that stands for the record: its identifier as a number,
    /// and its data.
    pub open spec fn document(self) -> Option<JsonTree> {
        match self.data.document() {
            Some(data) => Some(
                JsonTree::empty_object().with(
                    "id"@,
                    JsonTree::Number(self.id.spec_value() as int),
                ).with("data"@, data),
            ),
            None => None,
        }
    }

    /// The record that a document stands for, if any.
    pub open spec fn of_document(document: JsonTree) -> Option<RecordView> {
        if field_i64(document, "id"@) is Some && document.member("data"@) is Some
            && RecordDataView::of_document(document.member("data"@)->0) is Some {
            Some(
                RecordView {
                    id: id_of(field_i64(document, "id"@)->0),
                    data: RecordDataView::of_document(document.member("data"@)->0)->0,
                },
            )
        } else {
            None
        }
    }

    /// The record that bytes stand for: they must be a JSON document, and
    /// the document that of a record.
    pub open spec fn of_bytes(bytes: Seq<u8>) -> Option<RecordView> {
        match parsed(bytes) {
            Some(document) => RecordView::of_document(document),
            None => None,
        }
    }
}

/// The identifier that is stored as `value`.
pub open spec fn id_of(value: i64) -> Snowflake {
    choose|id: Snowflake| id.spec_value() == value
}

impl Record {
    /// Write the record as a document; `None` where one of its points in
    /// time cannot be written. A record whose points in time lie in the
    /// years 0 to 9999 is written so that it reads as itself.
    pub fn encode(&self) -> (document: Option<Value>)
        ensures
            document is Some <==> self@.document() is Some,
            document matches Some(value) ==> self@.document() == Some(tree(value)),
            document matches Some(value) ==> self@.writable() ==> RecordView::of_document(
                tree(value),
            ) == Some(self@),
    {
        let data = self.data.encode()?;
        let mut document = object();
        put_i64(&mut document, "id", self.id.value());
        put(&mut document, "data", data);
        proof {
            if self@.writable() {
                lemma_record_round_trip(self@);
            }
        }
        Some(document)
    }

    /// Read a record from a document; `None` where the document is none of
    /// a record.
    pub fn decode(document: &Value) -> (record: Option<Record>)
        ensures
            record is Some <==> RecordView::of_document(tree(*document)) is Some,
            record matches Some(r) ==> RecordView::of_document(tree(*document)) == Some(r@),
    {
        let id = get_i64(document, "id")?;
        let data = RecordData::decode(member(document, "data")?)?;
        let record = Record { id: Snowflake::from_value(id), data };
        proof {
            crate::snowflake::lemma_value_names_identifier(record.id, id_of(id));
        }
        Some(record)
    }

    /// Write the record as the bytes that go over the bus: those of its
    /// document. Nothing is written for a record that has no document.
    pub fn to_bytes(&self) -> (bytes: Option<Vec<u8>>)
        ensures
            bytes is Some <==> self@.document() is Some,
            bytes matches Some(b) ==> b@ == printed(self@.document()->0),
    {
        let document = self.encode()?;
        print(&document)
    }

    /// Read a record from the bytes that came over the bus; `None` where
    /// they are no valid encoding of a record.
    pub fn from_bytes(bytes: &[u8]) -> (record: Option<Record>)
        ensures
            record is Some <==> RecordView::of_bytes(bytes@) is Some,
            record matches Some(r) ==> RecordView::of_bytes(bytes@) == Some(r@),
    {
        let document = parse(bytes)?;
        Record::decode(&document)
    }
}

/// Only a document with one member, the tag of its source, is the data of a
/// record.
pub proof fn lemma_data_has_one_tag(document: JsonTree)
    ensures
        RecordDataView::of_document(document) is Some ==> document.has_members(1),
{
}

/// A document that carries two tags is the data of no record, whatever
/// stands under the tags, and so no record is read from a document that
/// holds it as its data.
pub proof fn lemma_two_tags_are_no_data(
    first: Seq<char>,
    under_first: JsonTree,
    second: Seq<char>,
    under_second: JsonTree,
    id: JsonTree,
)
    requires
        first != second,
    ensures
        RecordDataView::of_document(
            JsonTree::empty_object().with(first, under_first).with(second, under_second),
        ) is None,
        RecordView::of_document(
            JsonTree::empty_object().with("id"@, id).with(
                "data"@,
                JsonTree::empty_object().with(first, under_first).with(second, under_second),
            ),
        ) is None,
{
    let members = Map::<Seq<char>, JsonTree>::empty().insert(first, under_first).insert(
        second,
        under_second,
    );
    assert(members.dom() =~= Set::<Seq<char>>::empty().insert(first).insert(second));
    assert(members.dom().len() == 2);
    let data = JsonTree::empty_object().with(first, under_first).with(second, under_second);
    assert(data == JsonTree::Object(members));
    assert(!data.has_members(1));
    reveal_strlit("id");
    reveal_strlit("data");
    assert("id"@.len() == 2 && "data"@.len() == 4);
    let whole = JsonTree::empty_object().with("id"@, id).with("data"@, data);
    assert(whole.member("data"@) == Some(data));
}

/// Data that was written reads as itself.
pub proof fn lemma_data_round_trip(data: RecordDataView)
    requires
        data.reads_back(),
    ensures
        data.document() is Some,
        RecordDataView::of_document(data.document()->0) == Some(data),
{
    reveal_strlit("Media");
    reveal_strlit("Rule34");
    reveal_strlit("Danbooru");
    assert("Media"@.len() == 5 && "Rule34"@.len() == 6 && "Danbooru"@.len() == 8);
    match data {
        RecordDataView::Media(record) => {
            crate::wire::media::lemma_record_round_trip(record);
        },
        RecordDataView::Rule34(record) => {
            crate::wire::rule34::lemma_record_round_trip(record);
            assert(data.document()->0.variant("Media"@) is None);
        },
        RecordDataView::Danbooru(record) => {
            crate::wire::danbooru::lemma_record_round_trip(record);
            assert(data.document()->0.variant("Media"@) is None);
            assert(data.document()->0.variant("Rule34"@) is None);
        },
    }
}

/// A record that was written reads as itself: decoding what was encoded
/// gives an equal record, with its identifier and all of its data.
pub proof fn lemma_record_round_trip(record: RecordView)
    requires
        record.reads_back(),
    ensures
        record.document() is Some,
        RecordView::of_document(record.document()->0) == Some(record),
{
    reveal_strlit("id");
    reveal_strlit("data");
    assert("id"@.len() == 2 && "data"@.len() == 4);
    lemma_data_round_trip(record.data);
    let document = record.document()->0;
    assert(document.member("data"@) == Some(record.data.document()->0));
    assert(field_i64(document, "id"@) == Some(record.id.spec_value()));
    crate::snowflake::lemma_value_names_identifier(record.id, id_of(record.id.spec_value()));
}

/// The document of a record is what is written again for the record that
/// was read from it: reading and writing leave such a document as it is.
pub proof fn lemma_written_document_is_fixed(record: RecordView)
    requires
        record.reads_back(),
    ensures
        record.document() is Some,
        RecordView::of_document(record.document()->0) is Some,
        RecordView::of_document(record.document()->0)->0.document() == record.document(),
{
    lemma_record_round_trip(record);
}

/// What was read from a document and is written again reads as the same
/// record: writing and reading keep the meaning of a document.
pub proof fn lemma_decoded_record_is_stable(document: JsonTree)
    requires
        RecordView::of_document(document) is Some,
        RecordView::of_document(document)->0.reads_back(),
    ensures
        RecordView::of_document(document)->0.document() is Some,
        RecordView::of_document(RecordView::of_document(document)->0.document()->0)
            == RecordView::of_document(document),
{
    lemma_record_round_trip(RecordView::of_document(document)->0);
}

} // verus!
