//! What becomes of a message that comes off the bus: it is decoded, stored
//! and acknowledged, or rejected for good where one of the two fails.

use crate::json::{print_text, printed_text};
use crate::persistence::metrics::RecordStatus;
use crate::record::Record;
use crate::record::RecordView;
use crate::snowflake::{reinterpret_as_i64, u64_to_i64};
use vstd::prelude::*;

verus! {

/// What the consumer tells the bus about a message.
#[derive(Clone, Copy, Debug, PartialEq, Eq, Structural)]
pub enum Verdict {
    /// The message was handled and may be forgotten.
    Ack,
    /// The message is given back. Without `requeue` the bus sets it aside
    /// instead of delivering it again.
    Reject { requeue: bool },
}

/// How the handling of a message ended: what the bus is told, and what is
/// counted.
#[derive(Clone, Copy, Debug, PartialEq, Eq, Structural)]
pub struct Handling {
    pub verdict: Verdict,
    pub status: RecordStatus,
}

/// The row that is stored for a record.
#[derive(Clone, Debug)]
pub struct RecordRow {
    pub id: i64,
    pub type_id: i64,
    pub booru_id: i64,
    pub entity_type: i64,
    /// The entity's ID, bit for bit: an ID past the greatest `i64` is stored
    /// as a negative number.
    pub entity_id: i64,
    /// The data of the record as a JSON text.
    pub data_json: String,
}

/// A message that failed for `status` is rejected and never delivered again:
/// one that cannot be read or stored now will not be either when it comes
/// back.
pub open spec fn rejected(status: RecordStatus) -> Handling {
    Handling { verdict: Verdict::Reject { requeue: false }, status }
}

/// A message that was stored is acknowledged.
pub open spec fn acknowledged() -> Handling {
    Handling { verdict: Verdict::Ack, status: RecordStatus::Stored }
}

/// Decode a message. Bytes that are no valid encoding of a record are
/// rejected without requeue and counted as failed to parse; nothing of them
/// reaches the storage.
pub fn decode_delivery(content: &[u8]) -> (res: Result<Record, Handling>)
    ensures
        res is Err <==> RecordView::of_bytes(content@) is None,
        res matches Err(handling) ==> handling == rejected(RecordStatus::FailedToParse),
        res matches Ok(record) ==> RecordView::of_bytes(content@) == Some(record@),
{
    match Record::from_bytes(content) {
        Some(record) => Ok(record),
        None => Err(
            Handling {
                verdict: Verdict::Reject { requeue: false },
                status: RecordStatus::FailedToParse,
            },
        ),
    }
}

/// The row to store for a record. A record whose data cannot be written
/// counts as failed to save.
pub fn row_of(record: &Record) -> (res: Result<RecordRow, Handling>)
    ensures
        res matches Err(handling) ==> handling == rejected(RecordStatus::FailedToSave),
        res is Ok <==> record.data@.document() is Some,
        res matches Ok(row) ==> {
            &&& row.id == record.id.spec_value()
            &&& row.type_id == record.data.spec_type_id().spec_code()
            &&& row.booru_id == record.data.spec_booru_id().spec_code()
            &&& row.entity_type == record.data.spec_entity_type()
            &&& row.entity_id == reinterpret_as_i64(record.data.spec_entity_id() as u64)
            &&& record.data@.document() is Some
            &&& row.data_json@ == printed_text(record.data@.document()->0)
        },
{
    let failed = Handling {
        verdict: Verdict::Reject { requeue: false },
        status: RecordStatus::FailedToSave,
    };
    let document = match record.data.encode() {
        Some(document) => document,
        None => {
            return Err(failed);
        },
    };
    let data_json = match print_text(&document) {
        Some(data_json) => data_json,
        None => {
            return Err(failed);
        },
    };
    Ok(
        RecordRow {
            id: record.id.value(),
            type_id: record.data.type_id().code() as i64,
            booru_id: record.data.booru_id().code() as i64,
            entity_type: record.data.entity_type() as i64,
            entity_id: u64_to_i64(record.data.entity_id()),
            data_json,
        },
    )
}

/// Decide on a message once the storage has answered: a stored record is
/// acknowledged, one that the storage refused is rejected without requeue.
pub fn on_stored(stored: bool) -> (handling: Handling)
    ensures
        handling == if stored {
            acknowledged()
        } else {
            rejected(RecordStatus::FailedToSave)
        },
{
    if stored {
        Handling { verdict: Verdict::Ack, status: RecordStatus::Stored }
    } else {
        Handling {
            verdict: Verdict::Reject { requeue: false },
            status: RecordStatus::FailedToSave,
        }
    }
}

/// Whatever becomes of a message, it is never delivered again: it is either
/// acknowledged or rejected without requeue.
pub proof fn lemma_no_message_is_requeued(status: RecordStatus)
    ensures
        rejected(status).verdict == (Verdict::Reject { requeue: false }),
        acknowledged().verdict == Verdict::Ack,
{
}

} // verus!
