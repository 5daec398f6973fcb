//! Entities that come from Rule34.

pub mod comment;

use crate::record_types::rule34::comment::{CommentRecord, CommentRecordView};
use vstd::prelude::*;

verus! {

#[derive(Clone, Debug, Hash)]
pub enum Rule34Record {
    /// This describes the state of a comment.
    Comment(CommentRecord),
}

pub enum Rule34RecordView {
    Comment(CommentRecordView),
}

impl View for Rule34Record {
    type V = Rule34RecordView;

    open spec fn view(&self) -> Rule34RecordView {
        match *self {
            Rule34Record::Comment(record) => Rule34RecordView::Comment(record@),
        }
    }
}

/// The kinds of entity that Rule34 records speak of.
#[derive(Clone, Copy, Debug, PartialEq, Eq, Structural)]
pub enum Rule34EntityType {
    Comment,
}

impl Rule34EntityType {
    /// The number under which this kind is stored. It never changes.
    pub open spec fn spec_code(self) -> u32 {
        match self {
            Rule34EntityType::Comment => 1,
        }
    }

    #[verifier::when_used_as_spec(spec_code)]
    pub fn code(self) -> (c: u32)
        ensures
            c == self.spec_code(),
    {
        match self {
            Rule34EntityType::Comment => 1,
        }
    }
}

impl Rule34Record {
    pub open spec fn spec_entity_type(&self) -> Rule34EntityType {
        match *self {
            Rule34Record::Comment(_) => Rule34EntityType::Comment,
        }
    }

    pub open spec fn spec_entity_id(&self) -> u64 {
        match *self {
            Rule34Record::Comment(record) => record.id,
        }
    }

    /// What kind of entity this record is about.
    pub fn entity_type(&self) -> (kind: Rule34EntityType)
        ensures
            kind == self.spec_entity_type(),
    {
        match self {
            Rule34Record::Comment(_) => Rule34EntityType::Comment,
        }
    }

    /// The site's own ID of the entity this record is about.
    pub fn entity_id(&self) -> (id: u64)
        ensures
            id == self.spec_entity_id(),
    {
        match self {
            Rule34Record::Comment(record) => record.entity_id(),
        }
    }
}

} // verus!
