//! Danbooru's records on the wire.

use crate::json::{
    member,
    object,
    put,
    text,
    tree,
    variant,
    JsonTree,
};
use crate::record_types::danbooru::comment::{
    CommentRecord,
    CommentRecordView,
    CommentState,
    CommentStateView,
};
use crate::record_types::danbooru::{DanbooruRecord, DanbooruRecordView};
use crate::wire::field::{
    field_bool,
    field_i64,
    field_text,
    field_time,
    field_u64,
    get_bool,
    get_i64,
    get_text,
    get_time,
    get_u64,
    put_bool,
    put_i64,
    put_text,
    put_time,
    put_u64,
    reads_back,
    time_tree,
    writable,
};
use serde_json::Value;
use vstd::prelude::*;

verus! {

impl CommentStateView {
    /// Whether every point in time of the state lies in a year that can be
    /// written.
    pub open spec fn writable(self) -> bool {
        match self {
            CommentStateView::Absent => true,
            CommentStateView::Present { created_at, updated_at, .. } => writable(created_at)
                && writable(updated_at),
            CommentStateView::Deleted { created_at, updated_at, .. } => writable(created_at)
                && writable(updated_at),
        }
    }

    /// Whether every point in time of the state is written as a text that
    /// reads as that point again.
    pub open spec fn reads_back(self) -> bool {
        match self {
            CommentStateView::Absent => true,
            CommentStateView::Present { created_at, updated_at, .. } => reads_back(created_at)
                && reads_back(updated_at),
            CommentStateView::Deleted { created_at, updated_at, .. } => reads_back(created_at)
                && reads_back(updated_at),
        }
    }

    /// The document that stands for the state: the name of the variant, and
    /// under it the fields of the variant by their names.
    pub open spec fn document(self) -> Option<JsonTree> {
        match self {
            CommentStateView::Absent => Some(JsonTree::Text("Absent"@)),
            CommentStateView::Present {
                post_id,
                created_at,
                updated_at,
                creator_id,
                updater_id,
                body,
                score,
                do_not_bump_post,
                is_sticky,
            } => if time_tree(created_at) is Some && time_tree(updated_at) is Some {
                Some(
                    JsonTree::empty_object().with(
                        "Present"@,
                        JsonTree::empty_object().with(
                            "post_id"@,
                            JsonTree::Number(post_id as int),
                        ).with("created_at"@, time_tree(created_at)->0).with(
                            "updated_at"@,
                            time_tree(updated_at)->0,
                        ).with("creator_id"@, JsonTree::Number(creator_id as int)).with(
                            "updater_id"@,
                            JsonTree::Number(updater_id as int),
                        ).with("body"@, JsonTree::Text(body)).with(
                            "score"@,
                            JsonTree::Number(score as int),
                        ).with("do_not_bump_post"@, JsonTree::Bool(do_not_bump_post)).with(
                            "is_sticky"@,
                            JsonTree::Bool(is_sticky),
                        ),
                    ),
                )
            } else {
                None
            },
            CommentStateView::Deleted {
                post_id,
                created_at,
                updated_at,
                creator_id,
                updater_id,
            } => if time_tree(created_at) is Some && time_tree(updated_at) is Some {
                Some(
                    JsonTree::empty_object().with(
                        "Deleted"@,
                        JsonTree::empty_object().with(
                            "post_id"@,
                            JsonTree::Number(post_id as int),
                        ).with("created_at"@, time_tree(created_at)->0).with(
                            "updated_at"@,
                            time_tree(updated_at)->0,
                        ).with("creator_id"@, JsonTree::Number(creator_id as int)).with(
                            "updater_id"@,
                            JsonTree::Number(updater_id as int),
                        ),
                    ),
                )
            } else {
                None
            },
        }
    }

    /// The fields of a present comment, read from the members of `fields`.
    pub open spec fn present_of(fields: JsonTree) -> Option<CommentStateView> {
        if field_u64(fields, "post_id"@) is Some && field_time(fields, "created_at"@) is Some
            && field_time(fields, "updated_at"@) is Some && field_u64(fields, "creator_id"@)
            is Some && field_u64(fields, "updater_id"@) is Some && field_text(fields, "body"@)
            is Some && field_i64(fields, "score"@) is Some && field_bool(
            fields,
            "do_not_bump_post"@,
        ) is Some && field_bool(fields, "is_sticky"@) is Some {
            Some(
                CommentStateView::Present {
                    post_id: field_u64(fields, "post_id"@)->0,
                    created_at: field_time(fields, "created_at"@)->0,
                    updated_at: field_time(fields, "updated_at"@)->0,
                    creator_id: field_u64(fields, "creator_id"@)->0,
                    updater_id: field_u64(fields, "updater_id"@)->0,
                    body: field_text(fields, "body"@)->0,
                    score: field_i64(fields, "score"@)->0,
                    do_not_bump_post: field_bool(fields, "do_not_bump_post"@)->0,
                    is_sticky: field_bool(fields, "is_sticky"@)->0,
                },
            )
        } else {
            None
        }
    }

    /// The fields of a deleted comment, read from the members of `fields`.
    pub open spec fn deleted_of(fields: JsonTree) -> Option<CommentStateView> {
        if field_u64(fields, "post_id"@) is Some && field_time(fields, "created_at"@) is Some
            && field_time(fields, "updated_at"@) is Some && field_u64(fields, "creator_id"@)
            is Some && field_u64(fields, "updater_id"@) is Some {
            Some(
                CommentStateView::Deleted {
                    post_id: field_u64(fields, "post_id"@)->0,
                    created_at: field_time(fields, "created_at"@)->0,
                    updated_at: field_time(fields, "updated_at"@)->0,
                    creator_id: field_u64(fields, "creator_id"@)->0,
                    updater_id: field_u64(fields, "updater_id"@)->0,
                },
            )
        } else {
            None
        }
    }

    /// The state that a document stands for, if any: the bare name of a
    /// variant without fields, or an object whose one member is the tag of a
    /// variant with fields. An object with a second member stands for none.
    /// Among the fields under the tag, those that the state does not know are
    /// passed over.
    pub open spec fn of_document(document: JsonTree) -> Option<CommentStateView> {
        if document == JsonTree::Text("Absent"@) {
            Some(CommentStateView::Absent)
        } else if document.variant("Present"@) is Some {
            CommentStateView::present_of(document.variant("Present"@)->0)
        } else if document.variant("Deleted"@) is Some {
            CommentStateView::deleted_of(document.variant("Deleted"@)->0)
        } else {
            None
        }
    }
}

impl CommentState {
    /// Write the state as a document; `None` where one of its points in time
    /// cannot be written.
    pub fn encode(&self) -> (document: Option<Value>)
        ensures
            document is Some <==> self@.document() is Some,
            document matches Some(value) ==> self@.document() == Some(tree(value)),
            document is Some && self@.writable() ==> self@.reads_back(),
    {
        match self {
            CommentState::Absent => Some(text("Absent")),
            CommentState::Present {
                post_id,
                created_at,
                updated_at,
                creator_id,
                updater_id,
                body,
                score,
                do_not_bump_post,
                is_sticky,
            } => {
                let mut fields = object();
                put_u64(&mut fields, "post_id", *post_id);
                if !put_time(&mut fields, "created_at", *created_at) {
                    return None;
                }
                if !put_time(&mut fields, "updated_at", *updated_at) {
                    return None;
                }
                put_u64(&mut fields, "creator_id", *creator_id);
                put_u64(&mut fields, "updater_id", *updater_id);
                put_text(&mut fields, "body", body.as_str());
                put_i64(&mut fields, "score", *score);
                put_bool(&mut fields, "do_not_bump_post", *do_not_bump_post);
                put_bool(&mut fields, "is_sticky", *is_sticky);
                let mut tagged = object();
                put(&mut tagged, "Present", fields);
                Some(tagged)
            },
            CommentState::Deleted { post_id, created_at, updated_at, creator_id, updater_id } => {
                let mut fields = object();
                put_u64(&mut fields, "post_id", *post_id);
                if !put_time(&mut fields, "created_at", *created_at) {
                    return None;
                }
                if !put_time(&mut fields, "updated_at", *updated_at) {
                    return None;
                }
                put_u64(&mut fields, "creator_id", *creator_id);
                put_u64(&mut fields, "updater_id", *updater_id);
                let mut tagged = object();
                put(&mut tagged, "Deleted", fields);
                Some(tagged)
            },
        }
    }

    /// Read the fields of a present comment.
    fn decode_present(fields: &Value) -> (state: Option<CommentState>)
        ensures
            state is Some <==> CommentStateView::present_of(tree(*fields)) is Some,
            state matches Some(s) ==> CommentStateView::present_of(tree(*fields)) == Some(s@),
    {
        let post_id = get_u64(fields, "post_id")?;
        let created_at = get_time(fields, "created_at")?;
        let updated_at = get_time(fields, "updated_at")?;
        let creator_id = get_u64(fields, "creator_id")?;
        let updater_id = get_u64(fields, "updater_id")?;
        let body = get_text(fields, "body")?;
        let score = get_i64(fields, "score")?;
        let do_not_bump_post = get_bool(fields, "do_not_bump_post")?;
        let is_sticky = get_bool(fields, "is_sticky")?;
        Some(
            CommentState::Present {
                post_id,
                created_at,
                updated_at,
                creator_id,
                updater_id,
                body,
                score,
                do_not_bump_post,
                is_sticky,
            },
        )
    }

    /// Read the fields of a deleted comment.
    fn decode_deleted(fields: &Value) -> (state: Option<CommentState>)
        ensures
            state is Some <==> CommentStateView::deleted_of(tree(*fields)) is Some,
            state matches Some(s) ==> CommentStateView::deleted_of(tree(*fields)) == Some(s@),
    {
        let post_id = get_u64(fields, "post_id")?;
        let created_at = get_time(fields, "created_at")?;
        let updated_at = get_time(fields, "updated_at")?;
        let creator_id = get_u64(fields, "creator_id")?;
        let updater_id = get_u64(fields, "updater_id")?;
        Some(CommentState::Deleted { post_id, created_at, updated_at, creator_id, updater_id })
    }

    /// Read a state from a document; `None` where the document is none of a
    /// state.
    pub fn decode(document: &Value) -> (state: Option<CommentState>)
        ensures
            state is Some <==> CommentStateView::of_document(tree(*document)) is Some,
            state matches Some(s) ==> CommentStateView::of_document(tree(*document)) == Some(s@),
    {
        if let Some(name) = document.as_str() {
            if crate::text::same_text(name, "Absent") {
                return Some(CommentState::Absent);
            }
        }
        if let Some(fields) = variant(document, "Present") {
            return CommentState::decode_present(fields);
        }
        if let Some(fields) = variant(document, "Deleted") {
            return CommentState::decode_deleted(fields);
        }
        None
    }
}

impl CommentRecordView {
    pub open spec fn writable(self) -> bool {
        self.state.writable()
    }

    pub open spec fn reads_back(self) -> bool {
        self.state.reads_back()
    }

    /// The document that stands for the comment: its ID and its state.
    pub open spec fn document(self) -> Option<JsonTree> {
        match self.state.document() {
            Some(state) => Some(
                JsonTree::empty_object().with("id"@, JsonTree::Number(self.id as int)).with(
                    "state"@,
                    state,
                ),
            ),
            None => None,
        }
    }

    /// The comment that a document stands for, if any.
    pub open spec fn of_document(document: JsonTree) -> Option<CommentRecordView> {
        if field_u64(document, "id"@) is Some && document.member("state"@) is Some
            && CommentStateView::of_document(document.member("state"@)->0) is Some {
            Some(
                CommentRecordView {
                    id: field_u64(document, "id"@)->0,
                    state: CommentStateView::of_document(document.member("state"@)->0)->0,
                },
            )
        } else {
            None
        }
    }
}

impl CommentRecord {
    /// Write the comment as a document; `None` where one of its points in
    /// time cannot be written.
    pub fn encode(&self) -> (document: Option<Value>)
        ensures
            document is Some <==> self@.document() is Some,
            document matches Some(value) ==> self@.document() == Some(tree(value)),
            document is Some && self@.writable() ==> self@.reads_back(),
    {
        let state = self.state.encode()?;
        let mut document = object();
        put_u64(&mut document, "id", self.id);
        put(&mut document, "state", state);
        Some(document)
    }

    /// Read a comment from a document; `None` where the document is none of
    /// a comment.
    pub fn decode(document: &Value) -> (record: Option<CommentRecord>)
        ensures
            record is Some <==> CommentRecordView::of_document(tree(*document)) is Some,
            record matches Some(r) ==> CommentRecordView::of_document(tree(*document)) == Some(
                r@,
            ),
    {
        let id = get_u64(document, "id")?;
        let state = CommentState::decode(member(document, "state")?)?;
        Some(CommentRecord { id, state })
    }
}

impl DanbooruRecordView {
    pub open spec fn writable(self) -> bool {
        match self {
            DanbooruRecordView::Comment(comment) => comment.writable(),
        }
    }

    pub open spec fn reads_back(self) -> bool {
        match self {
            DanbooruRecordView::Comment(comment) => comment.reads_back(),
        }
    }

    /// The document that stands for the record: the kind of entity, and
    /// under it the entity.
    pub open spec fn document(self) -> Option<JsonTree> {
        match self {
            DanbooruRecordView::Comment(comment) => match comment.document() {
                Some(inner) => Some(JsonTree::empty_object().with("Comment"@, inner)),
                None => None,
            },
        }
    }

    /// The record that a document stands for, if any: an object whose one
    /// member is the tag of the kind of entity.
    pub open spec fn of_document(document: JsonTree) -> Option<DanbooruRecordView> {
        if document.variant("Comment"@) is Some && CommentRecordView::of_document(
            document.variant("Comment"@)->0,
        ) is Some {
            Some(
                DanbooruRecordView::Comment(
                    CommentRecordView::of_document(document.variant("Comment"@)->0)->0,
                ),
            )
        } else {
            None
        }
    }
}

impl DanbooruRecord {
    /// Write the record as a document; `None` where one of its points in
    /// time cannot be written.
    pub fn encode(&self) -> (document: Option<Value>)
        ensures
            document is Some <==> self@.document() is Some,
            document matches Some(value) ==> self@.document() == Some(tree(value)),
            document is Some && self@.writable() ==> self@.reads_back(),
    {
        match self {
            DanbooruRecord::Comment(comment) => {
                let inner = comment.encode()?;
                let mut document = object();
                put(&mut document, "Comment", inner);
                Some(document)
            },
        }
    }

    /// Read a record from a document; `None` where the document is none of
    /// a record.
    pub fn decode(document: &Value) -> (record: Option<DanbooruRecord>)
        ensures
            record is Some <==> DanbooruRecordView::of_document(tree(*document)) is Some,
            record matches Some(r) ==> DanbooruRecordView::of_document(tree(*document)) == Some(
                r@,
            ),
    {
        let comment = CommentRecord::decode(variant(document, "Comment")?)?;
        Some(DanbooruRecord::Comment(comment))
    }
}

/// The names of the members of a comment's state are all different.
pub proof fn lemma_state_names_differ()
    ensures
        "post_id"@ != "created_at"@,
        "post_id"@ != "updated_at"@,
        "post_id"@ != "creator_id"@,
        "post_id"@ != "updater_id"@,
        "post_id"@ != "body"@,
        "post_id"@ != "score"@,
        "post_id"@ != "do_not_bump_post"@,
        "post_id"@ != "is_sticky"@,
        "created_at"@ != "updated_at"@,
        "created_at"@ != "creator_id"@,
        "created_at"@ != "updater_id"@,
        "created_at"@ != "body"@,
        "created_at"@ != "score"@,
        "created_at"@ != "do_not_bump_post"@,
        "created_at"@ != "is_sticky"@,
        "updated_at"@ != "creator_id"@,
        "updated_at"@ != "updater_id"@,
        "updated_at"@ != "body"@,
        "updated_at"@ != "score"@,
        "updated_at"@ != "do_not_bump_post"@,
        "updated_at"@ != "is_sticky"@,
        "creator_id"@ != "updater_id"@,
        "creator_id"@ != "body"@,
        "creator_id"@ != "score"@,
        "creator_id"@ != "do_not_bump_post"@,
        "creator_id"@ != "is_sticky"@,
        "updater_id"@ != "body"@,
        "updater_id"@ != "score"@,
        "updater_id"@ != "do_not_bump_post"@,
        "updater_id"@ != "is_sticky"@,
        "body"@ != "score"@,
        "body"@ != "do_not_bump_post"@,
        "body"@ != "is_sticky"@,
        "score"@ != "do_not_bump_post"@,
        "score"@ != "is_sticky"@,
        "do_not_bump_post"@ != "is_sticky"@,
        "Present"@ != "Deleted"@,
        "Present"@ != "Absent"@,
{
    reveal_strlit("post_id");
    reveal_strlit("created_at");
    reveal_strlit("updated_at");
    reveal_strlit("creator_id");
    reveal_strlit("updater_id");
    reveal_strlit("body");
    reveal_strlit("score");
    reveal_strlit("do_not_bump_post");
    reveal_strlit("is_sticky");
    reveal_strlit("Present");
    reveal_strlit("Deleted");
    reveal_strlit("Absent");
    assert("post_id"@.len() == 7 && "created_at"@.len() == 10 && "updated_at"@.len() == 10
        && "creator_id"@.len() == 10 && "updater_id"@.len() == 10 && "body"@.len() == 4
        && "score"@.len() == 5 && "do_not_bump_post"@.len() == 16 && "is_sticky"@.len() == 9
        && "Present"@.len() == 7 && "Deleted"@.len() == 7 && "Absent"@.len() == 6);
    assert("created_at"@[1] == 'r' && "updated_at"@[1] == 'p' && "creator_id"@[1] == 'r'
        && "updater_id"@[1] == 'p');
    assert("created_at"@[5] == 'e' && "creator_id"@[5] == 'o');
    assert("updated_at"@[4] == 't' && "updater_id"@[4] == 't' && "updated_at"@[5] == 'e'
        && "updater_id"@[5] == 'e' && "updated_at"@[6] == 'd' && "updater_id"@[6] == 'r');
    assert("Present"@[0] == 'P' && "Deleted"@[0] == 'D');
}

/// A state that was written reads as itself: what is read back from its
/// document is the state, with nothing lost and nothing changed.
pub proof fn lemma_state_round_trip(state: CommentStateView)
    requires
        state.reads_back(),
    ensures
        state.document() is Some,
        CommentStateView::of_document(state.document()->0) == Some(state),
{
    lemma_state_names_differ();
    match state {
        CommentStateView::Absent => {},
        CommentStateView::Present { .. } => {
            let document = state.document()->0;
            let fields = document.variant("Present"@)->0;
            assert(document.variant("Present"@) is Some);
            assert(CommentStateView::present_of(fields) == Some(state));
        },
        CommentStateView::Deleted { .. } => {
            let document = state.document()->0;
            assert(document.variant("Present"@) is None);
            let fields = document.variant("Deleted"@)->0;
            assert(CommentStateView::deleted_of(fields) == Some(state));
        },
    }
}

/// A record that was written reads as itself.
pub proof fn lemma_record_round_trip(record: DanbooruRecordView)
    requires
        record.reads_back(),
    ensures
        record.document() is Some,
        DanbooruRecordView::of_document(record.document()->0) == Some(record),
{
    reveal_strlit("id");
    reveal_strlit("state");
    assert("id"@.len() == 2 && "state"@.len() == 5);
    match record {
        DanbooruRecordView::Comment(comment) => {
            lemma_state_round_trip(comment.state);
            let inner = comment.document()->0;
            assert(inner.member("state"@) == Some(comment.state.document()->0));
            assert(CommentRecordView::of_document(inner) == Some(comment));
            assert(record.document()->0.variant("Comment"@) == Some(inner));
        },
    }
}

} // verus!
