//! Comments as the Danbooru listing gives them, and the records made of them.

use crate::acquisition::fresh::{fresh_order, is_fresh_order, Mark};
use crate::date_time::DateTime;
use crate::json::{member, parse, parsed, tree, trees, JsonTree};
use crate::record::{RecordData, RecordDataView};
use crate::record_types::danbooru::comment::{
    CommentRecord,
    CommentRecordView,
    CommentState,
    CommentStateView,
};
use crate::record_types::danbooru::{DanbooruRecord, DanbooruRecordView};
use crate::wire::field::{
    field_bool,
    field_i64,
    field_text,
    field_time,
    field_u64,
    get_bool,
    get_i64,
    get_text,
    get_time,
    get_u64,
};
use serde_json::Value;
use vstd::prelude::*;

verus! {

/// A comment of the listing of comments that have not been deleted.
#[derive(Clone, Debug)]
pub struct FullComment {
    pub id: u64,
    pub created_at: DateTime,
    pub post_id: u64,
    pub creator_id: u64,
    pub body: String,
    pub score: i64,
    pub updated_at: DateTime,
    pub updater_id: u64,
    pub do_not_bump_post: bool,
    pub is_deleted: bool,
    pub is_sticky: bool,
}

/// A user, of whom the listing of deleted comments gives the ID only.
#[derive(Clone, Copy, Debug)]
pub struct IdHolder {
    pub id: u64,
}

/// A comment of the listing of deleted comments.
#[derive(Clone, Copy, Debug)]
pub struct DeletedComment {
    pub id: u64,
    pub created_at: DateTime,
    pub post_id: u64,
    pub creator: IdHolder,
    pub updated_at: DateTime,
    pub updater: IdHolder,
    pub is_deleted: bool,
}

impl FullComment {
    /// The record data that states this comment as present.
    pub open spec fn spec_record_data(&self) -> RecordDataView {
        RecordDataView::Danbooru(
            DanbooruRecordView::Comment(
                CommentRecordView {
                    id: self.id,
                    state: CommentStateView::Present {
                        post_id: self.post_id,
                        created_at: self.created_at,
                        updated_at: self.updated_at,
                        creator_id: self.creator_id,
                        updater_id: self.updater_id,
                        body: self.body@,
                        score: self.score,
                        do_not_bump_post: self.do_not_bump_post,
                        is_sticky: self.is_sticky,
                    },
                },
            ),
        )
    }

    /// Turn the comment into record data. The listing this comes from holds
    /// no deleted comments.
    pub fn into_record_data(self) -> (data: RecordData)
        requires
            !self.is_deleted,
        ensures
            data@ == self.spec_record_data(),
    {
        RecordData::Danbooru(
            DanbooruRecord::Comment(
                CommentRecord {
                    id: self.id,
                    state: CommentState::Present {
                        post_id: self.post_id,
                        created_at: self.created_at,
                        updated_at: self.updated_at,
                        creator_id: self.creator_id,
                        updater_id: self.updater_id,
                        body: self.body,
                        score: self.score,
                        do_not_bump_post: self.do_not_bump_post,
                        is_sticky: self.is_sticky,
                    },
                },
            ),
        )
    }
}

impl DeletedComment {
    /// The record data that states this comment as deleted.
    pub open spec fn spec_record_data(&self) -> RecordDataView {
        RecordDataView::Danbooru(
            DanbooruRecordView::Comment(
                CommentRecordView {
                    id: self.id,
                    state: CommentStateView::Deleted {
                        post_id: self.post_id,
                        created_at: self.created_at,
                        updated_at: self.updated_at,
                        creator_id: self.creator.id,
                        updater_id: self.updater.id,
                    },
                },
            ),
        )
    }

    /// Turn the comment into record data. The listing this comes from holds
    /// deleted comments only.
    pub fn into_record_data(self) -> (data: RecordData)
        requires
            self.is_deleted,
        ensures
            data@ == self.spec_record_data(),
    {
        RecordData::Danbooru(
            DanbooruRecord::Comment(
                CommentRecord {
                    id: self.id,
                    state: CommentState::Deleted {
                        post_id: self.post_id,
                        created_at: self.created_at,
                        updated_at: self.updated_at,
                        creator_id: self.creator.id,
                        updater_id: self.updater.id,
                    },
                },
            ),
        )
    }
}

/// The update times of a page of comments, in page order.
pub open spec fn update_marks(page: Seq<FullComment>) -> Seq<DateTime> {
    Seq::new(page.len(), |i: int| page[i].updated_at)
}

/// The update times of a page of deleted comments, in page order.
pub open spec fn deletion_marks(page: Seq<DeletedComment>) -> Seq<DateTime> {
    Seq::new(page.len(), |i: int| page[i].updated_at)
}

/// Which comments of the page were updated after the watermark, in the order
/// of their update times. A comment's score is no part of this: a comment
/// whose score alone has changed keeps its update time and stays behind the
/// watermark.
pub fn new_comments(page: &Vec<FullComment>, watermark: &DateTime) -> (order: Vec<usize>)
    ensures
        is_fresh_order(update_marks(page@), *watermark, order@),
{
    let mut marks: Vec<DateTime> = Vec::new();
    let mut i: usize = 0;
    while i < page.len()
        invariant
            i <= page.len(),
            marks@ == update_marks(page@.take(i as int)),
        decreases page.len() - i,
    {
        marks.push(page[i].updated_at);
        assert(marks@ =~= update_marks(page@.take(i + 1)));
        i += 1;
    }
    assert(page@.take(i as int) == page@);
    fresh_order(&marks, watermark)
}

/// Which comments of the page were deleted after the watermark, in the order
/// of their deletion.
pub fn new_deletions(page: &Vec<DeletedComment>, watermark: &DateTime) -> (order: Vec<usize>)
    ensures
        is_fresh_order(deletion_marks(page@), *watermark, order@),
{
    let mut marks: Vec<DateTime> = Vec::new();
    let mut i: usize = 0;
    while i < page.len()
        invariant
            i <= page.len(),
            marks@ == deletion_marks(page@.take(i as int)),
        decreases page.len() - i,
    {
        marks.push(page[i].updated_at);
        assert(marks@ =~= deletion_marks(page@.take(i + 1)));
        i += 1;
    }
    assert(page@.take(i as int) == page@);
    fresh_order(&marks, watermark)
}

/// A comment that was handed over before and comes again with nothing but
/// its score changed is not handed over again, so it cannot move the
/// watermark.
pub proof fn lemma_score_drift_is_not_new(
    page: Seq<FullComment>,
    watermark: DateTime,
    order: Seq<usize>,
    k: usize,
    seen: FullComment,
)
    requires
        is_fresh_order(update_marks(page), watermark, order),
        k < page.len(),
        seen.updated_at.rank() <= watermark.rank(),
        page[k as int] == (FullComment { score: page[k as int].score, ..seen }),
    ensures
        !order.contains(k),
{
    assert(update_marks(page)[k as int] == seen.updated_at);
    crate::acquisition::fresh::lemma_stale_entry_is_skipped(
        update_marks(page),
        watermark,
        order,
        k,
    );
}

impl FullComment {
    /// Whether a document has all that a comment needs, each member of its
    /// kind.
    pub open spec fn readable(document: JsonTree) -> bool {
        &&& field_u64(document, "id"@) is Some
        &&& field_time(document, "created_at"@) is Some
        &&& field_u64(document, "post_id"@) is Some
        &&& field_u64(document, "creator_id"@) is Some
        &&& field_text(document, "body"@) is Some
        &&& field_i64(document, "score"@) is Some
        &&& field_time(document, "updated_at"@) is Some
        &&& field_u64(document, "updater_id"@) is Some
        &&& field_bool(document, "do_not_bump_post"@) is Some
        &&& field_bool(document, "is_deleted"@) is Some
        &&& field_bool(document, "is_sticky"@) is Some
    }

    /// Whether the fields are what the members of `document` say.
    pub open spec fn reads(&self, document: JsonTree) -> bool {
        &&& field_u64(document, "id"@) == Some(self.id)
        &&& field_time(document, "created_at"@) == Some(self.created_at)
        &&& field_u64(document, "post_id"@) == Some(self.post_id)
        &&& field_u64(document, "creator_id"@) == Some(self.creator_id)
        &&& field_text(document, "body"@) == Some(self.body@)
        &&& field_i64(document, "score"@) == Some(self.score)
        &&& field_time(document, "updated_at"@) == Some(self.updated_at)
        &&& field_u64(document, "updater_id"@) == Some(self.updater_id)
        &&& field_bool(document, "do_not_bump_post"@) == Some(self.do_not_bump_post)
        &&& field_bool(document, "is_deleted"@) == Some(self.is_deleted)
        &&& field_bool(document, "is_sticky"@) == Some(self.is_sticky)
    }

    /// Read a comment from a document of the listing; `None` where a member
    /// is missing or not of its kind.
    pub fn decode(document: &Value) -> (read: Option<FullComment>)
        ensures
            read is Some <==> FullComment::readable(tree(*document)),
            read matches Some(it) ==> it.reads(tree(*document)),
    {
        let id = get_u64(document, "id")?;
        let created_at = get_time(document, "created_at")?;
        let post_id = get_u64(document, "post_id")?;
        let creator_id = get_u64(document, "creator_id")?;
        let body = get_text(document, "body")?;
        let score = get_i64(document, "score")?;
        let updated_at = get_time(document, "updated_at")?;
        let updater_id = get_u64(document, "updater_id")?;
        let do_not_bump_post = get_bool(document, "do_not_bump_post")?;
        let is_deleted = get_bool(document, "is_deleted")?;
        let is_sticky = get_bool(document, "is_sticky")?;
        Some(
            FullComment {
                id,
                created_at,
                post_id,
                creator_id,
                body,
                score,
                updated_at,
                updater_id,
                do_not_bump_post,
                is_deleted,
                is_sticky,
            },
        )
    }
}

/// The ID of the user that stands under `name`.
pub open spec fn field_holder(document: JsonTree, name: Seq<char>) -> Option<u64> {
    match document.member(name) {
        Some(holder) => field_u64(holder, "id"@),
        None => None,
    }
}

fn get_holder(document: &Value, name: &str) -> (holder: Option<IdHolder>)
    ensures
        holder is Some <==> field_holder(tree(*document), name@) is Some,
        holder matches Some(h) ==> field_holder(tree(*document), name@) == Some(h.id),
{
    let found = member(document, name)?;
    let id = get_u64(found, "id")?;
    Some(IdHolder { id })
}

impl DeletedComment {
    /// Whether a document has all that a deleted comment needs, each member
    /// of its kind.
    pub open spec fn readable(document: JsonTree) -> bool {
        &&& field_u64(document, "id"@) is Some
        &&& field_time(document, "created_at"@) is Some
        &&& field_u64(document, "post_id"@) is Some
        &&& field_holder(document, "creator"@) is Some
        &&& field_time(document, "updated_at"@) is Some
        &&& field_holder(document, "updater"@) is Some
        &&& field_bool(document, "is_deleted"@) is Some
    }

    /// Whether the fields are what the members of `document` say.
    pub open spec fn reads(&self, document: JsonTree) -> bool {
        &&& field_u64(document, "id"@) == Some(self.id)
        &&& field_time(document, "created_at"@) == Some(self.created_at)
        &&& field_u64(document, "post_id"@) == Some(self.post_id)
        &&& field_holder(document, "creator"@) == Some(self.creator.id)
        &&& field_time(document, "updated_at"@) == Some(self.updated_at)
        &&& field_holder(document, "updater"@) == Some(self.updater.id)
        &&& field_bool(document, "is_deleted"@) == Some(self.is_deleted)
    }

    /// Read a deleted comment from a document of the listing; `None` where a
    /// member is missing or not of its kind.
    pub fn decode(document: &Value) -> (read: Option<DeletedComment>)
        ensures
            read is Some <==> DeletedComment::readable(tree(*document)),
            read matches Some(it) ==> it.reads(tree(*document)),
    {
        let id = get_u64(document, "id")?;
        let created_at = get_time(document, "created_at")?;
        let post_id = get_u64(document, "post_id")?;
        let creator = get_holder(document, "creator")?;
        let updated_at = get_time(document, "updated_at")?;
        let updater = get_holder(document, "updater")?;
        let is_deleted = get_bool(document, "is_deleted")?;
        Some(DeletedComment { id, created_at, post_id, creator, updated_at, updater, is_deleted })
    }
}

/// Whether `page` holds comments, one for each document of `items`.
pub open spec fn comments_of_listing_read(page: Seq<FullComment>, items: Seq<JsonTree>) -> bool {
    &&& page.len() == items.len()
    &&& forall|i: int| 0 <= i < page.len() ==> (#[trigger] page[i]).reads(items[i])
}

/// Whether `bytes` is a listing of comments: a JSON list whose documents are
/// all readable.
pub open spec fn comments_of_listing_readable(bytes: Seq<u8>) -> bool {
    match parsed(bytes) {
        Some(JsonTree::List(items)) => forall|i: int|
            0 <= i < items.len() ==> FullComment::readable(#[trigger] items[i]),
        _ => false,
    }
}

/// Read a listing of comments; `None` where the body is no JSON list, or one
/// of its documents cannot be read. A body that cannot be read is a failed
/// batch.
pub fn comments_of_listing(bytes: &[u8]) -> (page: Option<Vec<FullComment>>)
    ensures
        page is Some <==> comments_of_listing_readable(bytes@),
        page matches Some(list) ==> match parsed(bytes@) {
            Some(JsonTree::List(items)) => comments_of_listing_read(list@, items),
            _ => false,
        },
{
    let document = parse(bytes)?;
    let items = document.as_array()?;
    let mut page: Vec<FullComment> = Vec::new();
    let mut i: usize = 0;
    while i < items.len()
        invariant
            i <= items.len(),
            page@.len() == i,
            parsed(bytes@) == Some(JsonTree::List(trees(items@))),
            forall|j: int| 0 <= j < i ==> FullComment::readable(#[trigger] trees(items@)[j]),
            forall|j: int| 0 <= j < i ==> (#[trigger] page@[j]).reads(trees(items@)[j]),
        decreases items.len() - i,
    {
        match FullComment::decode(&items[i]) {
            Some(read) => {
                page.push(read);
            },
            None => {
                proof {
                    let listed = parsed(bytes@)->Some_0->List_0;
                    assert(listed == trees(items@));
                    assert(listed[i as int] == tree(items@[i as int]));
                    assert(!FullComment::readable(listed[i as int]));
                }
                return None;
            },
        }
        i += 1;
    }
    Some(page)
}

/// Whether `page` holds deleted comments, one for each document of `items`.
pub open spec fn deletions_of_listing_read(page: Seq<DeletedComment>, items: Seq<JsonTree>)
    -> bool {
    &&& page.len() == items.len()
    &&& forall|i: int| 0 <= i < page.len() ==> (#[trigger] page[i]).reads(items[i])
}

/// Whether `bytes` is a listing of deleted comments: a JSON list whose documents are
/// all readable.
pub open spec fn deletions_of_listing_readable(bytes: Seq<u8>) -> bool {
    match parsed(bytes) {
        Some(JsonTree::List(items)) => forall|i: int|
            0 <= i < items.len() ==> DeletedComment::readable(#[trigger] items[i]),
        _ => false,
    }
}

/// Read a listing of deleted comments; `None` where the body is no JSON list, or one
/// of its documents cannot be read. A body that cannot be read is a failed
/// batch.
pub fn deletions_of_listing(bytes: &[u8]) -> (page: Option<Vec<DeletedComment>>)
    ensures
        page is Some <==> deletions_of_listing_readable(bytes@),
        page matches Some(list) ==> match parsed(bytes@) {
            Some(JsonTree::List(items)) => deletions_of_listing_read(list@, items),
            _ => false,
        },
{
    let document = parse(bytes)?;
    let items = document.as_array()?;
    let mut page: Vec<DeletedComment> = Vec::new();
    let mut i: usize = 0;
    while i < items.len()
        invariant
            i <= items.len(),
            page@.len() == i,
            parsed(bytes@) == Some(JsonTree::List(trees(items@))),
            forall|j: int| 0 <= j < i ==> DeletedComment::readable(#[trigger] trees(items@)[j]),
            forall|j: int| 0 <= j < i ==> (#[trigger] page@[j]).reads(trees(items@)[j]),
        decreases items.len() - i,
    {
        match DeletedComment::decode(&items[i]) {
            Some(read) => {
                page.push(read);
            },
            None => {
                proof {
                    let listed = parsed(bytes@)->Some_0->List_0;
                    assert(listed == trees(items@));
                    assert(listed[i as int] == tree(items@[i as int]));
                    assert(!DeletedComment::readable(listed[i as int]));
                }
                return None;
            },
        }
        i += 1;
    }
    Some(page)
}

} // verus!
