//! The record: one fact observed about one entity at one point in time.

use crate::record_types::danbooru::{DanbooruRecord, DanbooruRecordView};
use crate::record_types::media::resource_locator::MediaResourceLocator;
use crate::record_types::media::{MediaRecord, MediaRecordView};
use crate::record_types::rule34::{Rule34Record, Rule34RecordView};
use crate::snowflake::{ClockError, Snowflake, MILLIS_LIMIT};
use std::hash::{Hash, Hasher};
use vstd::prelude::*;

verus! {

/// A record is immutable: a new observation is a new record.
#[derive(Clone, Debug, Hash)]
pub struct Record {
    pub id: Snowflake,
    pub data: RecordData,
}

/// All the payloads that a record can carry.
#[derive(Clone, Debug, Hash)]
#[non_exhaustive]
pub enum RecordData {
    /// This record describes a media file, such as an image.
    Media(MediaRecord),
    /// This record describes an entity that comes from Rule34.
    Rule34(Rule34Record),
    /// This record describes an entity that comes from Danbooru.
    Danbooru(DanbooruRecord),
}

pub enum RecordDataView {
    Media(MediaRecordView),
    Rule34(Rule34RecordView),
    Danbooru(DanbooruRecordView),
}

pub struct RecordView {
    pub id: Snowflake,
    pub data: RecordDataView,
}

impl View for RecordData {
    type V = RecordDataView;

    open spec fn view(&self) -> RecordDataView {
        match *self {
            RecordData::Media(record) => RecordDataView::Media(record@),
            RecordData::Rule34(record) => RecordDataView::Rule34(record@),
            RecordData::Danbooru(record) => RecordDataView::Danbooru(record@),
        }
    }
}

impl View for Record {
    type V = RecordView;

    open spec fn view(&self) -> RecordView {
        RecordView { id: self.id, data: self.data@ }
    }
}

/// Which arm of [`RecordData`] a record holds.
#[derive(Clone, Copy, Debug, PartialEq, Eq, Structural)]
#[non_exhaustive]
pub enum RecordType {
    Media,
    Rule34,
    Danbooru,
}

impl RecordType {
    /// The number under which this type is stored. It never changes.
    pub open spec fn spec_code(self) -> u32 {
        match self {
            RecordType::Media => 1,
            RecordType::Rule34 => 2,
            RecordType::Danbooru => 3,
        }
    }

    #[verifier::when_used_as_spec(spec_code)]
    pub fn code(self) -> (c: u32)
        ensures
            c == self.spec_code(),
    {
        match self {
            RecordType::Media => 1,
            RecordType::Rule34 => 2,
            RecordType::Danbooru => 3,
        }
    }
}

/// The imageboard that a record belongs to.
#[derive(Clone, Copy, Debug, PartialEq, Eq, Structural)]
#[non_exhaustive]
pub enum BooruId {
    Danbooru,
    Rule34,
}

impl BooruId {
    /// The number under which this imageboard is stored. It never changes.
    pub open spec fn spec_code(self) -> u32 {
        match self {
            BooruId::Danbooru => 1,
            BooruId::Rule34 => 2,
        }
    }

    #[verifier::when_used_as_spec(spec_code)]
    pub fn code(self) -> (c: u32)
        ensures
            c == self.spec_code(),
    {
        match self {
            BooruId::Danbooru => 1,
            BooruId::Rule34 => 2,
        }
    }
}

impl RecordData {
    pub open spec fn spec_type_id(&self) -> RecordType {
        match *self {
            RecordData::Media(_) => RecordType::Media,
            RecordData::Rule34(_) => RecordType::Rule34,
            RecordData::Danbooru(_) => RecordType::Danbooru,
        }
    }

    pub open spec fn spec_entity_type(&self) -> u32 {
        match *self {
            RecordData::Media(record) => record.spec_state().spec_code(),
            RecordData::Rule34(record) => record.spec_entity_type().spec_code(),
            RecordData::Danbooru(record) => record.spec_entity_type().spec_code(),
        }
    }

    pub open spec fn spec_booru_id(&self) -> BooruId {
        match *self {
            RecordData::Media(record) => match record.locator {
                MediaResourceLocator::Danbooru { .. } => BooruId::Danbooru,
            },
            RecordData::Rule34(_) => BooruId::Rule34,
            RecordData::Danbooru(_) => BooruId::Danbooru,
        }
    }

    pub open spec fn spec_entity_id(&self) -> nat {
        match *self {
            RecordData::Media(record) => record.locator@.true_hash(),
            RecordData::Rule34(record) => record.spec_entity_id() as nat,
            RecordData::Danbooru(record) => record.spec_entity_id() as nat,
        }
    }

    /// Get this record's type.
    /// Use this to quickly filter records from a stream.
    pub fn type_id(&self) -> (t: RecordType)
        ensures
            t == self.spec_type_id(),
    {
        match self {
            RecordData::Media(_) => RecordType::Media,
            RecordData::Rule34(_) => RecordType::Rule34,
            RecordData::Danbooru(_) => RecordType::Danbooru,
        }
    }

    /// Get this record's entity type, a number whose meaning depends on the
    /// record type: for media records the state of the media, for booru
    /// records the kind of entity.
    pub fn entity_type(&self) -> (t: u32)
        ensures
            t == self.spec_entity_type(),
    {
        match self {
            RecordData::Media(record) => record.get_state().code(),
            RecordData::Rule34(record) => record.entity_type().code(),
            RecordData::Danbooru(record) => record.entity_type().code(),
        }
    }

    /// Get the imageboard that this record belongs to. A media record belongs
    /// to the imageboard that its locator points into.
    pub fn booru_id(&self) -> (b: BooruId)
        ensures
            b == self.spec_booru_id(),
    {
        match self {
            RecordData::Media(record) => match record.locator {
                MediaResourceLocator::Danbooru { .. } => BooruId::Danbooru,
            },
            RecordData::Rule34(_) => BooruId::Rule34,
            RecordData::Danbooru(_) => BooruId::Danbooru,
        }
    }

    /// Get the ID of the entity that this record is about: for booru records
    /// the ID that the imageboard gave it, for media a hash of the locator.
    pub fn entity_id(&self) -> (id: u64)
        ensures
            id == self.spec_entity_id(),
    {
        match self {
            RecordData::Media(record) => record.locator.true_hash_as_u64(),
            RecordData::Rule34(record) => record.entity_id(),
            RecordData::Danbooru(record) => record.entity_id(),
        }
    }
}

/// What addresses the latest known state of one entity.
#[derive(Clone, Copy, Debug, PartialEq, Eq, Structural, Hash)]
pub struct EntityKey {
    pub type_id: u32,
    pub entity_type: u32,
    pub entity_id: u64,
}

impl RecordData {
    pub open spec fn spec_key(&self) -> EntityKey {
        EntityKey {
            type_id: self.spec_type_id().spec_code(),
            entity_type: self.spec_entity_type(),
            entity_id: self.spec_entity_id() as u64,
        }
    }

    /// The natural key under which the latest state of this record's entity
    /// is kept.
    pub fn key(&self) -> (key: EntityKey)
        ensures
            key == self.spec_key(),
    {
        EntityKey {
            type_id: self.type_id().code(),
            entity_type: self.entity_type(),
            entity_id: self.entity_id(),
        }
    }
}

impl Record {
    /// Wrap `data` into a record with a fresh identifier.
    ///
    /// The identifier's timestamp is the current time, and its discriminator
    /// is drawn from a hash of the data. Whether this succeeds lies with the
    /// system clock.
    pub fn new(data: RecordData) -> (res: Result<Record, ClockError>)
        ensures
            res matches Ok(record) ==> record.data == data && record.id.discriminator() < 0xffff
                && 0 <= record.id.millis() < MILLIS_LIMIT,
    {
        // The hash and the clock decide; what is made of them is `from_clock`'s.
        let data_hash = hash_of(&data);
        let clock = crate::snowflake::unix_millis();
        Record::from_clock(data, data_hash, clock)
    }

    /// Whether `res` is what `data`, its hash and a reading of the clock
    /// make: a record of `data` whose identifier holds the reading and, as
    /// its discriminator, what is left of the hash after division by
    /// `0xffff`; or the reason why the reading gives no identifier.
    pub open spec fn made_at(
        res: Result<Record, ClockError>,
        data: RecordData,
        data_hash: u64,
        clock: Option<u128>,
    ) -> bool {
        match clock {
            None => res matches Err(e) && e == ClockError::BeforeEpoch,
            Some(millis) => if millis < MILLIS_LIMIT {
                res matches Ok(record) && record.data == data && record.id.spec_value()
                    == crate::snowflake::compose(millis as int, data_hash as int % 0xffff)
            } else {
                res matches Err(e) && e == ClockError::TooFarInFuture
            },
        }
    }

    /// Wrap `data` into a record for a given hash of the data and a given
    /// reading of the clock: `None` is a clock that stands before the epoch,
    /// `Some` its milliseconds since then.
    pub fn from_clock(data: RecordData, data_hash: u64, clock: Option<u128>) -> (res: Result<
        Record,
        ClockError,
    >)
        ensures
            Record::made_at(res, data, data_hash, clock),
            res matches Ok(record) ==> record.id.discriminator() == data_hash % 0xffff && 0
                <= record.id.millis() < MILLIS_LIMIT,
    {
        let uid: u16 = (data_hash % 0xffff) as u16;
        match Snowflake::from_clock(clock, uid) {
            Ok(id) => Ok(Record { id, data }),
            Err(e) => Err(e),
        }
    }
}

/// The data's hash under `std::collections::hash_map::DefaultHasher`. What
/// the data feeds into the hasher is not known here, so nothing is known of
/// the number.
fn hash_of(data: &RecordData) -> u64 {
    let mut hasher = std::collections::hash_map::DefaultHasher::new();
    feed(data, &mut hasher);
    hasher.finish()
}

/// `Hash::hash` of the data into a hasher. Nothing is claimed of what the
/// hasher has taken in afterwards.
#[verifier::external_body]
fn feed(data: &RecordData, hasher: &mut std::collections::hash_map::DefaultHasher) {
    data.hash(hasher);
}

impl From<MediaRecord> for RecordData {
    fn from(value: MediaRecord) -> (made: RecordData) {
        RecordData::Media(value)
    }
}

impl vstd::std_specs::convert::FromSpecImpl<MediaRecord> for RecordData {
    open spec fn obeys_from_spec() -> bool {
        true
    }

    open spec fn from_spec(value: MediaRecord) -> RecordData {
        RecordData::Media(value)
    }
}

impl From<Rule34Record> for RecordData {
    fn from(value: Rule34Record) -> (made: RecordData) {
        RecordData::Rule34(value)
    }
}

impl vstd::std_specs::convert::FromSpecImpl<Rule34Record> for RecordData {
    open spec fn obeys_from_spec() -> bool {
        true
    }

    open spec fn from_spec(value: Rule34Record) -> RecordData {
        RecordData::Rule34(value)
    }
}

impl From<DanbooruRecord> for RecordData {
    fn from(value: DanbooruRecord) -> (made: RecordData) {
        RecordData::Danbooru(value)
    }
}

impl vstd::std_specs::convert::FromSpecImpl<DanbooruRecord> for RecordData {
    open spec fn obeys_from_spec() -> bool {
        true
    }

    open spec fn from_spec(value: DanbooruRecord) -> RecordData {
        RecordData::Danbooru(value)
    }
}

} // verus!
