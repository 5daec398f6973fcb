//! Entities that come from Danbooru.

pub mod comment;

use crate::record_types::danbooru::comment::{CommentRecord, CommentRecordView};
use vstd::prelude::*;

verus! {

#[derive(Clone, Debug, Hash)]
pub enum DanbooruRecord {
    /// This describes the state of a comment.
    Comment(CommentRecord),
}

pub enum DanbooruRecordView {
    Comment(CommentRecordView),
}

impl View for DanbooruRecord {
    type V = DanbooruRecordView;

    open spec fn view(&self) -> DanbooruRecordView {
        match *self {
            DanbooruRecord::Comment(record) => DanbooruRecordView::Comment(record@),
        }
    }
}

/// The kinds of entity that Danbooru records speak of.
#[derive(Clone, Copy, Debug, PartialEq, Eq, Structural)]
pub enum DanbooruRecordType {
    Comment,
}

impl DanbooruRecordType {
    /// The number under which this kind is stored. It never changes.
    pub open spec fn spec_code(self) -> u32 {
        match self {
            DanbooruRecordType::Comment => 1,
        }
    }

    #[verifier::when_used_as_spec(spec_code)]
    pub fn code(self) -> (c: u32)
        ensures
            c == self.spec_code(),
    {
        match self {
            DanbooruRecordType::Comment => 1,
        }
    }
}

impl DanbooruRecord {
    pub open spec fn spec_entity_type(&self) -> DanbooruRecordType {
        match *self {
            DanbooruRecord::Comment(_) => DanbooruRecordType::Comment,
        }
    }

    pub open spec fn spec_entity_id(&self) -> u64 {
        match *self {
            DanbooruRecord::Comment(record) => record.id,
        }
    }

    /// What kind of entity this record is about.
    pub fn entity_type(&self) -> (kind: DanbooruRecordType)
        ensures
            kind == self.spec_entity_type(),
    {
        match self {
            DanbooruRecord::Comment(_) => DanbooruRecordType::Comment,
        }
    }

    /// The site's own ID of the entity this record is about.
    pub fn entity_id(&self) -> (id: u64)
        ensures
            id == self.spec_entity_id(),
    {
        match self {
            DanbooruRecord::Comment(record) => record.entity_id(),
        }
    }
}

} // verus!
