//! Comments on Danbooru.

use crate::date_time::DateTime;
use vstd::prelude::*;

verus! {

/// What is known of one comment.
#[derive(Clone, Debug, Hash)]
pub struct CommentRecord {
    /// This is the comment's ID on the Danbooru site.
    pub id: u64,
    pub state: CommentState,
}

#[derive(Clone, Debug, Hash)]
pub enum CommentState {
    /// The comment with the given ID does not exist.
    /// It may not have been created yet.
    Absent,
    /// The comment with the given ID exists as follows.
    Present {
        /// The post that this comment is associated with.
        post_id: u64,
        /// The comment creation and update date. If it wasn't updated yet, they match.
        created_at: DateTime,
        updated_at: DateTime,
        /// The user IDs of the creator and updater. If it wasn't updated yet, they match.
        creator_id: u64,
        updater_id: u64,
        /// The text content.
        body: String,
        /// The total up/down score on the comment.
        /// Changes to this do not count as updates.
        score: i64,
        do_not_bump_post: bool,
        is_sticky: bool,
    },
    /// The comment with the given ID has been deleted.
    Deleted {
        /// The post that the comment would have been associated with.
        post_id: u64,
        /// The comment creation and update date. Update here implies deletion.
        created_at: DateTime,
        updated_at: DateTime,
        /// The user IDs of the creator and updater.
        creator_id: u64,
        updater_id: u64,
    },
}

/// A comment's state with its text as a sequence of characters.
pub enum CommentStateView {
    Absent,
    Present {
        post_id: u64,
        created_at: DateTime,
        updated_at: DateTime,
        creator_id: u64,
        updater_id: u64,
        body: Seq<char>,
        score: i64,
        do_not_bump_post: bool,
        is_sticky: bool,
    },
    Deleted {
        post_id: u64,
        created_at: DateTime,
        updated_at: DateTime,
        creator_id: u64,
        updater_id: u64,
    },
}

pub struct CommentRecordView {
    pub id: u64,
    pub state: CommentStateView,
}

impl View for CommentState {
    type V = CommentStateView;

    open spec fn view(&self) -> CommentStateView {
        match *self {
            CommentState::Absent => CommentStateView::Absent,
            CommentState::Present {
                post_id,
                created_at,
                updated_at,
                creator_id,
                updater_id,
                body,
                score,
                do_not_bump_post,
                is_sticky,
            } => CommentStateView::Present {
                post_id,
                created_at,
                updated_at,
                creator_id,
                updater_id,
                body: body@,
                score,
                do_not_bump_post,
                is_sticky,
            },
            CommentState::Deleted { post_id, created_at, updated_at, creator_id, updater_id } =>
                CommentStateView::Deleted {
                    post_id,
                    created_at,
                    updated_at,
                    creator_id,
                    updater_id,
                },
        }
    }
}

impl View for CommentRecord {
    type V = CommentRecordView;

    open spec fn view(&self) -> CommentRecordView {
        CommentRecordView { id: self.id, state: self.state@ }
    }
}

impl CommentRecord {
    /// The comment's ID on the site, which keys its latest state.
    pub fn entity_id(&self) -> (id: u64)
        ensures
            id == self.id,
    {
        self.id
    }
}

} // verus!
