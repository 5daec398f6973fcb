//! Rule34's records on the wire.

use crate::json::{
    member,
    object,
    put,
    text,
    tree,
    variant,
    JsonTree,
};
use crate::record_types::rule34::comment::{
    CommentRecord,
    CommentRecordView,
    CommentState,
    CommentStateView,
};
use crate::record_types::rule34::{Rule34Record, Rule34RecordView};
use crate::wire::field::{
    field_maybe_bool,
    field_maybe_i64,
    field_maybe_u64,
    field_text,
    field_time,
    field_u64,
    get_maybe_bool,
    get_maybe_i64,
    get_maybe_u64,
    get_text,
    get_time,
    get_u64,
    maybe_bool_tree,
    maybe_i64_tree,
    maybe_u64_tree,
    put_maybe_bool,
    put_maybe_i64,
    put_maybe_u64,
    put_text,
    put_time,
    put_u64,
    reads_back,
    time_tree,
    writable,
};
use serde_json::Value;
use vstd::prelude::*;

verus! {

impl CommentStateView {
    /// Whether every point in time of the state lies in a year that can be
    /// written.
    pub open spec fn writable(self) -> bool {
        match self {
            CommentStateView::Absent => true,
            CommentStateView::Present { created_at, .. } => writable(created_at),
        }
    }

    /// Whether every point in time of the state is written as a text that
    /// reads as that point again.
    pub open spec fn reads_back(self) -> bool {
        match self {
            CommentStateView::Absent => true,
            CommentStateView::Present { created_at, .. } => reads_back(created_at),
        }
    }

    /// The document that stands for the state: the name of the variant, and
    /// under it the fields of the variant by their names.
    pub open spec fn document(self) -> Option<JsonTree> {
        match self {
            CommentStateView::Absent => Some(JsonTree::Text("Absent"@)),
            CommentStateView::Present {
                post_id,
                author_id,
                author_name,
                created_at,
                text,
                score,
                is_reported,
            } => if time_tree(created_at) is Some {
                Some(
                    JsonTree::empty_object().with(
                        "Present"@,
                        JsonTree::empty_object().with(
                            "post_id"@,
                            JsonTree::Number(post_id as int),
                        ).with("author_id"@, maybe_u64_tree(author_id)).with(
                            "author_name"@,
                            JsonTree::Text(author_name),
                        ).with("created_at"@, time_tree(created_at)->0).with(
                            "text"@,
                            JsonTree::Text(text),
                        ).with("score"@, maybe_i64_tree(score)).with(
                            "is_reported"@,
                            maybe_bool_tree(is_reported),
                        ),
                    ),
                )
            } else {
                None
            },
        }
    }

    /// The fields of a present comment, read from the members of `fields`.
    pub open spec fn present_of(fields: JsonTree) -> Option<CommentStateView> {
        if field_u64(fields, "post_id"@) is Some && field_maybe_u64(fields, "author_id"@) is Some
            && field_text(fields, "author_name"@) is Some && field_time(fields, "created_at"@)
            is Some && field_text(fields, "text"@) is Some && field_maybe_i64(fields, "score"@)
            is Some && field_maybe_bool(fields, "is_reported"@) is Some {
            Some(
                CommentStateView::Present {
                    post_id: field_u64(fields, "post_id"@)->0,
                    author_id: field_maybe_u64(fields, "author_id"@)->0,
                    author_name: field_text(fields, "author_name"@)->0,
                    created_at: field_time(fields, "created_at"@)->0,
                    text: field_text(fields, "text"@)->0,
                    score: field_maybe_i64(fields, "score"@)->0,
                    is_reported: field_maybe_bool(fields, "is_reported"@)->0,
                },
            )
        } else {
            None
        }
    }

    /// The state that a document stands for, if any: the bare name of a
    /// variant without fields, or an object whose one member is the tag of a
    /// variant with fields. An object with a second member stands for none.
    pub open spec fn of_document(document: JsonTree) -> Option<CommentStateView> {
        if document == JsonTree::Text("Absent"@) {
            Some(CommentStateView::Absent)
        } else if document.variant("Present"@) is Some {
            CommentStateView::present_of(document.variant("Present"@)->0)
        } else {
            None
        }
    }
}

impl CommentState {
    /// Write the state as a document; `None` where its point in time cannot
    /// be written.
    pub fn encode(&self) -> (document: Option<Value>)
        ensures
            document is Some <==> self@.document() is Some,
            document matches Some(value) ==> self@.document() == Some(tree(value)),
            document is Some && self@.writable() ==> self@.reads_back(),
    {
        match self {
            CommentState::Absent => Some(text("Absent")),
            CommentState::Present {
                post_id,
                author_id,
                author_name,
                created_at,
                text,
                score,
                is_reported,
            } => {
                let mut fields = object();
                put_u64(&mut fields, "post_id", *post_id);
                put_maybe_u64(&mut fields, "author_id", *author_id);
                put_text(&mut fields, "author_name", author_name.as_str());
                if !put_time(&mut fields, "created_at", *created_at) {
                    return None;
                }
                put_text(&mut fields, "text", text.as_str());
                put_maybe_i64(&mut fields, "score", *score);
                put_maybe_bool(&mut fields, "is_reported", *is_reported);
                let mut tagged = object();
                put(&mut tagged, "Present", fields);
                Some(tagged)
            },
        }
    }

    /// Read the fields of a present comment.
    fn decode_present(fields: &Value) -> (state: Option<CommentState>)
        ensures
            state is Some <==> CommentStateView::present_of(tree(*fields)) is Some,
            state matches Some(s) ==> CommentStateView::present_of(tree(*fields)) == Some(s@),
    {
        let post_id = get_u64(fields, "post_id")?;
        let author_id = get_maybe_u64(fields, "author_id")?;
        let author_name = get_text(fields, "author_name")?;
        let created_at = get_time(fields, "created_at")?;
        let text = get_text(fields, "text")?;
        let score = get_maybe_i64(fields, "score")?;
        let is_reported = get_maybe_bool(fields, "is_reported")?;
        Some(
            CommentState::Present {
                post_id,
                author_id,
                author_name,
                created_at,
                text,
                score,
                is_reported,
            },
        )
    }

    /// Read a state from a document; `None` where the document is none of a
    /// state.
    pub fn decode(document: &Value) -> (state: Option<CommentState>)
        ensures
            state is Some <==> CommentStateView::of_document(tree(*document)) is Some,
            state matches Some(s) ==> CommentStateView::of_document(tree(*document)) == Some(s@),
    {
        if let Some(name) = document.as_str() {
            if crate::text::same_text(name, "Absent") {
                return Some(CommentState::Absent);
            }
        }
        if let Some(fields) = variant(document, "Present") {
            return CommentState::decode_present(fields);
        }
        None
    }
}

impl CommentRecordView {
    pub open spec fn writable(self) -> bool {
        self.state.writable()
    }

    pub open spec fn reads_back(self) -> bool {
        self.state.reads_back()
    }

    /// The document that stands for the comment: its ID and its state.
    pub open spec fn document(self) -> Option<JsonTree> {
        match self.state.document() {
            Some(state) => Some(
                JsonTree::empty_object().with("id"@, JsonTree::Number(self.id as int)).with(
                    "state"@,
                    state,
                ),
            ),
            None => None,
        }
    }

    /// The comment that a document stands for, if any.
    pub open spec fn of_document(document: JsonTree) -> Option<CommentRecordView> {
        if field_u64(document, "id"@) is Some && document.member("state"@) is Some
            && CommentStateView::of_document(document.member("state"@)->0) is Some {
            Some(
                CommentRecordView {
                    id: field_u64(document, "id"@)->0,
                    state: CommentStateView::of_document(document.member("state"@)->0)->0,
                },
            )
        } else {
            None
        }
    }
}

impl CommentRecord {
    /// Write the comment as a document; `None` where its point in time
    /// cannot be written.
    pub fn encode(&self) -> (document: Option<Value>)
        ensures
            document is Some <==> self@.document() is Some,
            document matches Some(value) ==> self@.document() == Some(tree(value)),
            document is Some && self@.writable() ==> self@.reads_back(),
    {
        let state = self.state.encode()?;
        let mut document = object();
        put_u64(&mut document, "id", self.id);
        put(&mut document, "state", state);
        Some(document)
    }

    /// Read a comment from a document; `None` where the document is none of
    /// a comment.
    pub fn decode(document: &Value) -> (record: Option<CommentRecord>)
        ensures
            record is Some <==> CommentRecordView::of_document(tree(*document)) is Some,
            record matches Some(r) ==> CommentRecordView::of_document(tree(*document)) == Some(
                r@,
            ),
    {
        let id = get_u64(document, "id")?;
        let state = CommentState::decode(member(document, "state")?)?;
        Some(CommentRecord { id, state })
    }
}

impl Rule34RecordView {
    pub open spec fn writable(self) -> bool {
        match self {
            Rule34RecordView::Comment(comment) => comment.writable(),
        }
    }

    pub open spec fn reads_back(self) -> bool {
        match self {
            Rule34RecordView::Comment(comment) => comment.reads_back(),
        }
    }

    /// The document that stands for the record: the kind of entity, and
    /// under it the entity.
    pub open spec fn document(self) -> Option<JsonTree> {
        match self {
            Rule34RecordView::Comment(comment) => match comment.document() {
                Some(inner) => Some(JsonTree::empty_object().with("Comment"@, inner)),
                None => None,
            },
        }
    }

    /// The record that a document stands for, if any: an object whose one
    /// member is the tag of the kind of entity.
    pub open spec fn of_document(document: JsonTree) -> Option<Rule34RecordView> {
        if document.variant("Comment"@) is Some && CommentRecordView::of_document(
            document.variant("Comment"@)->0,
        ) is Some {
            Some(
                Rule34RecordView::Comment(
                    CommentRecordView::of_document(document.variant("Comment"@)->0)->0,
                ),
            )
        } else {
            None
        }
    }
}

impl Rule34Record {
    /// Write the record as a document; `None` where its point in time
    /// cannot be written.
    pub fn encode(&self) -> (document: Option<Value>)
        ensures
            document is Some <==> self@.document() is Some,
            document matches Some(value) ==> self@.document() == Some(tree(value)),
            document is Some && self@.writable() ==> self@.reads_back(),
    {
        match self {
            Rule34Record::Comment(comment) => {
                let inner = comment.encode()?;
                let mut document = object();
                put(&mut document, "Comment", inner);
                Some(document)
            },
        }
    }

    /// Read a record from a document; `None` where the document is none of
    /// a record.
    pub fn decode(document: &Value) -> (record: Option<Rule34Record>)
        ensures
            record is Some <==> Rule34RecordView::of_document(tree(*document)) is Some,
            record matches Some(r) ==> Rule34RecordView::of_document(tree(*document)) == Some(r@),
    {
        let comment = CommentRecord::decode(variant(document, "Comment")?)?;
        Some(Rule34Record::Comment(comment))
    }
}

/// A state that was written reads as itself.
pub proof fn lemma_state_round_trip(state: CommentStateView)
    requires
        state.reads_back(),
    ensures
        state.document() is Some,
        CommentStateView::of_document(state.document()->0) == Some(state),
{
    reveal_strlit("post_id");
    reveal_strlit("author_id");
    reveal_strlit("author_name");
    reveal_strlit("created_at");
    reveal_strlit("text");
    reveal_strlit("score");
    reveal_strlit("is_reported");
    assert("post_id"@.len() == 7 && "author_id"@.len() == 9 && "author_name"@.len() == 11
        && "created_at"@.len() == 10 && "text"@.len() == 4 && "score"@.len() == 5
        && "is_reported"@.len() == 11);
    assert("author_name"@[0] == 'a' && "is_reported"@[0] == 'i');
    match state {
        CommentStateView::Absent => {},
        CommentStateView::Present { .. } => {
            let document = state.document()->0;
            let fields = document.variant("Present"@)->0;
            assert(document.variant("Present"@) is Some);
            assert(CommentStateView::present_of(fields) == Some(state));
        },
    }
}

/// A record that was written reads as itself.
pub proof fn lemma_record_round_trip(record: Rule34RecordView)
    requires
        record.reads_back(),
    ensures
        record.document() is Some,
        Rule34RecordView::of_document(record.document()->0) == Some(record),
{
    reveal_strlit("id");
    reveal_strlit("state");
    assert("id"@.len() == 2 && "state"@.len() == 5);
    match record {
        Rule34RecordView::Comment(comment) => {
            lemma_state_round_trip(comment.state);
            let inner = comment.document()->0;
            assert(inner.member("state"@) == Some(comment.state.document()->0));
            assert(CommentRecordView::of_document(inner) == Some(comment));
            assert(record.document()->0.variant("Comment"@) == Some(inner));
        },
    }
}

} // verus!
