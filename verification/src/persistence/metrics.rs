//! What is counted of the records that pass through.

use vstd::prelude::*;

verus! {

/// How the handling of a record ended.
#[derive(Clone, Copy, Debug, Hash, PartialEq, Eq, Structural)]
pub enum RecordStatus {
    /// The record was stored. It is counted as `ok`.
    Stored,
    FailedToParse,
    FailedToSave,
}

/// The labels under which a record is counted.
#[derive(Clone, Copy, Debug, Hash, PartialEq, Eq, Structural)]
pub struct RecordLabels {
    pub status: RecordStatus,
}

impl RecordStatus {
    /// The name under which this outcome is counted.
    pub open spec fn spec_label(self) -> Seq<char> {
        match self {
            RecordStatus::Stored => "ok"@,
            RecordStatus::FailedToParse => "failed_to_parse"@,
            RecordStatus::FailedToSave => "failed_to_save"@,
        }
    }

    /// The name under which this outcome is counted.
    pub fn label(&self) -> (label: &'static str)
        ensures
            label@ == self.spec_label(),
    {
        match self {
            RecordStatus::Stored => "ok",
            RecordStatus::FailedToParse => "failed_to_parse",
            RecordStatus::FailedToSave => "failed_to_save",
        }
    }
}

} // verus!
