//! Comments on Rule34.

use crate::date_time::DateTime;
use vstd::prelude::*;

verus! {

/// What is known of one comment.
#[derive(Clone, Debug, Hash)]
pub struct CommentRecord {
    /// This is the comment's ID on the Rule34 site.
    pub id: u64,
    pub state: CommentState,
}

#[derive(Clone, Debug, Hash)]
pub enum CommentState {
    /// The comment with the given ID does not exist.
    /// It may not have been created yet, or been deleted.
    Absent,
    /// The comment with the given ID exists as follows.
    Present {
        /// The post that this comment is associated with.
        post_id: u64,
        /// The comment author's user ID.
        /// This is provided in API responses but not in the website.
        author_id: Option<u64>,
        /// The comment author's username.
        author_name: String,
        /// The comment creation date.
        /// In API responses this is only the server time at the moment the
        /// response was rendered.
        created_at: DateTime,
        /// The comment's contents.
        text: String,
        /// The comment's score, based on upvotes and downvotes.
        /// It is not provided in API responses.
        score: Option<i64>,
        /// Whether the comment has been reported.
        /// This is not provided in API responses.
        is_reported: Option<bool>,
    },
}

/// A comment's state with its texts as sequences of characters.
pub enum CommentStateView {
    Absent,
    Present {
        post_id: u64,
        author_id: Option<u64>,
        author_name: Seq<char>,
        created_at: DateTime,
        text: Seq<char>,
        score: Option<i64>,
        is_reported: Option<bool>,
    },
}

pub struct CommentRecordView {
    pub id: u64,
    pub state: CommentStateView,
}

impl View for CommentState {
    type V = CommentStateView;

    open spec fn view(&self) -> CommentStateView {
        match *self {
            CommentState::Absent => CommentStateView::Absent,
            CommentState::Present {
                post_id,
                author_id,
                author_name,
                created_at,
                text,
                score,
                is_reported,
            } => CommentStateView::Present {
                post_id,
                author_id,
                author_name: author_name@,
                created_at,
                text: text@,
                score,
                is_reported,
            },
        }
    }
}

impl View for CommentRecord {
    type V = CommentRecordView;

    open spec fn view(&self) -> CommentRecordView {
        CommentRecordView { id: self.id, state: self.state@ }
    }
}

impl CommentRecord {
    /// The comment's ID on the site, which keys its latest state.
    pub fn entity_id(&self) -> (id: u64)
        ensures
            id == self.id,
    {
        self.id
    }
}

} // verus!
