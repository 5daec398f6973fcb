//! Fresh records for what a loop has found.

use crate::record::{Record, RecordData};
use crate::snowflake::{compose, ClockError, MILLIS_LIMIT};
use vstd::prelude::*;

verus! {

/// Wrap `data` into a record whose identifier holds the current time and a
/// random discriminator, so that two records minted within one millisecond
/// stay apart. Whether this succeeds lies with the system clock.
pub fn mint_record(data: RecordData) -> (res: Result<Record, ClockError>)
    ensures
        res matches Ok(record) ==> record.data == data && 0 <= record.id.millis() < MILLIS_LIMIT,
{
    // The clock and chance decide; what is made of them is `reseal`'s.
    let made = Record::new(data);
    reseal(made, random_discriminator())
}

/// Give a record that was made a discriminator of its own: its data and the
/// timestamp of its identifier stay, the discriminator becomes `uid`. Where
/// no record was made, the reason stays.
pub fn reseal(made: Result<Record, ClockError>, uid: u16) -> (res: Result<Record, ClockError>)
    ensures
        made is Ok <==> res is Ok,
        made matches Ok(record) ==> res matches Ok(sealed) && sealed.data == record.data
            && sealed.id.spec_value() == compose(record.id.millis(), uid as int)
            && sealed.id.millis() == record.id.millis() && sealed.id.discriminator() == uid,
        made matches Err(e) ==> res matches Err(kept) && kept == e,
{
    match made {
        Ok(record) => {
            let Record { id, data } = record;
            Ok(Record { id: id.with_low_bits(uid), data })
        },
        Err(e) => Err(e),
    }
}

/// `rand::random::<u16>()`: any discriminator may come.
#[verifier::external_body]
pub(crate) fn random_discriminator() -> u16 {
    rand::random::<u16>()
}

} // verus!
