//! Tags.

use crate::date_time::DateTime;
use vstd::prelude::*;

verus! {

/// A tag on Danbooru is identified by a numeric ID, but that is seldom used:
/// posts name their tags by the tags' names.
#[derive(Debug, Clone, Hash)]
pub struct Tag {
    pub id: u64,
    pub name: String,
    pub post_count: u64,
    pub category: TagCategory,
    pub created_at: DateTime,
    /// If never updated, this is the same as `created_at`.
    pub updated_at: DateTime,
    pub is_deprecated: bool,
}

#[derive(Debug, Clone, Copy, PartialEq, Eq, Structural, Hash)]
pub enum TagCategory {
    General,
    Artist,
    Copyright,
    Character,
    Meta,
}

impl TagCategory {
    /// The number that the listings write for this category. Number 2 is not
    /// in use.
    pub open spec fn spec_code(self) -> u8 {
        match self {
            TagCategory::General => 0,
            TagCategory::Artist => 1,
            TagCategory::Copyright => 3,
            TagCategory::Character => 4,
            TagCategory::Meta => 5,
        }
    }

    /// The category that a number of the listings stands for, if any.
    pub open spec fn spec_from_code(code: u8) -> Option<TagCategory> {
        if code == 0 {
            Some(TagCategory::General)
        } else if code == 1 {
            Some(TagCategory::Artist)
        } else if code == 3 {
            Some(TagCategory::Copyright)
        } else if code == 4 {
            Some(TagCategory::Character)
        } else if code == 5 {
            Some(TagCategory::Meta)
        } else {
            None
        }
    }

    #[verifier::when_used_as_spec(spec_code)]
    pub fn code(self) -> (code: u8)
        ensures
            code == self.spec_code(),
    {
        match self {
            TagCategory::General => 0,
            TagCategory::Artist => 1,
            TagCategory::Copyright => 3,
            TagCategory::Character => 4,
            TagCategory::Meta => 5,
        }
    }

    /// Read a category from its number.
    pub fn from_code(code: u8) -> (category: Option<TagCategory>)
        ensures
            category == TagCategory::spec_from_code(code),
            category matches Some(c) ==> c.spec_code() == code,
    {
        if code == 0 {
            Some(TagCategory::General)
        } else if code == 1 {
            Some(TagCategory::Artist)
        } else if code == 3 {
            Some(TagCategory::Copyright)
        } else if code == 4 {
            Some(TagCategory::Character)
        } else if code == 5 {
            Some(TagCategory::Meta)
        } else {
            None
        }
    }
}

/// Every category comes back from its own number.
pub proof fn lemma_category_round_trip(category: TagCategory)
    ensures
        TagCategory::spec_from_code(category.spec_code()) == Some(category),
{
}

} // verus!
