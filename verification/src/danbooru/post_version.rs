//! Versions of posts: what one edit of a post changed.

use crate::danbooru::Rating;
use crate::date_time::DateTime;
use vstd::prelude::*;

verus! {

#[derive(Debug, Clone, Hash)]
pub struct PostVersion {
    pub id: i64,
    pub post_id: i64,
    pub version: i32,
    pub updater_id: i64,
    pub updated_at: DateTime,
    /// The listing writes these as one text.
    pub tags: Vec<String>,
    pub added_tags: Vec<String>,
    pub removed_tags: Vec<String>,
    /// The listing writes these as one text.
    pub unchanged_tags: Vec<String>,
    /// The listing writes these as one text.
    pub obsolete_added_tags: Vec<String>,
    /// The listing writes these as one text.
    pub obsolete_removed_tags: Vec<String>,
    pub rating: Rating,
    pub rating_changed: bool,
    pub source: String,
    pub source_changed: bool,
    pub parent_id: Option<i64>,
    pub parent_changed: bool,
}

} // verus!
