//! The append-only backend: one file per record, named by a fresh identifier.

use crate::acquisition::mint::random_discriminator;
use crate::snowflake::{ClockError, Snowflake, MILLIS_LIMIT};
use crate::text::{decimal, decimal_text, lemma_decimal_injective};
use vstd::prelude::*;
use vstd::string::StringExecFns;

verus! {

/// The name of the file that holds the record stored under `id`: the
/// identifier in decimal, then `.json`.
pub open spec fn spec_file_name(id: Snowflake) -> Seq<char> {
    decimal(id.spec_value() as int) + ".json"@
}

/// The name of the file for the record stored under `id`. Identifiers are
/// fresh, so no file is ever written twice.
pub fn file_name(id: Snowflake) -> (name: String)
    ensures
        name@ == spec_file_name(id),
{
    let mut name = decimal_text(id.value());
    name.append(".json");
    name
}

/// The name of the file for the next record: that of a fresh identifier,
/// which holds the current time and a discriminator drawn by chance, so that
/// two records stored within one millisecond get names of their own.
/// Whether an identifier is to be had lies with the system clock.
pub fn fresh_file_name() -> (res: Result<String, ClockError>)
    ensures
        res matches Ok(name) ==> exists|id: Snowflake|
            name@ == spec_file_name(id) && 0 <= id.millis() < MILLIS_LIMIT,
{
    // The clock and chance decide; what is made of them is `name_for`'s.
    let made = Snowflake::new(random_discriminator());
    name_for(made)
}

/// The name of the file for an identifier that was made; where none was
/// made, the reason stays.
pub fn name_for(made: Result<Snowflake, ClockError>) -> (res: Result<String, ClockError>)
    ensures
        made matches Ok(id) ==> res matches Ok(name) && name@ == spec_file_name(id),
        made matches Err(e) ==> res matches Err(kept) && kept == e,
{
    match made {
        Ok(id) => Ok(file_name(id)),
        Err(e) => Err(e),
    }
}

/// Two identifiers never share a file name: the name tells the identifier.
pub proof fn lemma_name_tells_identifier(a: Snowflake, b: Snowflake)
    requires
        spec_file_name(a) == spec_file_name(b),
    ensures
        a == b,
{
    let text_a = decimal(a.spec_value() as int);
    let text_b = decimal(b.spec_value() as int);
    let ending = ".json"@;
    assert(text_a.len() == text_b.len()) by {
        assert((text_a + ending).len() == (text_b + ending).len());
    }
    assert(text_a =~= (text_a + ending).take(text_a.len() as int));
    assert(text_b =~= (text_b + ending).take(text_b.len() as int));
    lemma_decimal_injective(a.spec_value() as int, b.spec_value() as int);
    crate::snowflake::lemma_value_names_identifier(a, b);
}

/// Two identifiers of one millisecond with different discriminators have
/// different file names: a record never takes the file of another.
pub proof fn lemma_discriminators_part_names(a: Snowflake, b: Snowflake)
    requires
        a.millis() == b.millis(),
        a.discriminator() != b.discriminator(),
    ensures
        spec_file_name(a) != spec_file_name(b),
{
    if spec_file_name(a) == spec_file_name(b) {
        lemma_name_tells_identifier(a, b);
    }
}

} // verus!
