//! The order of identifiers: that of the numbers they are stored as, and so,
//! among identifiers of one sign, that of their timestamps.

use crate::snowflake::Snowflake;
use std::cmp::Ordering;
use vstd::prelude::*;
use vstd::std_specs::cmp::PartialOrdSpec;

verus! {

impl PartialOrd for Snowflake {
    fn partial_cmp(&self, other: &Snowflake) -> (order: Option<Ordering>) {
        let mine = self.value();
        let theirs = other.value();
        if mine < theirs {
            Some(Ordering::Less)
        } else if mine > theirs {
            Some(Ordering::Greater)
        } else {
            Some(Ordering::Equal)
        }
    }
}

impl vstd::std_specs::cmp::PartialOrdSpecImpl for Snowflake {
    open spec fn obeys_partial_cmp_spec() -> bool {
        true
    }

    open spec fn partial_cmp_spec(&self, other: &Snowflake) -> Option<Ordering> {
        if self.spec_value() < other.spec_value() {
            Some(Ordering::Less)
        } else if self.spec_value() > other.spec_value() {
            Some(Ordering::Greater)
        } else {
            Some(Ordering::Equal)
        }
    }
}

/// Whether `a` is the later identifier.
pub fn is_later(a: Snowflake, b: Snowflake) -> (later: bool)
    ensures
        later == (a.spec_value() > b.spec_value()),
{
    a > b
}

/// An identifier minted at least a millisecond after another one of its
/// sign compares greater, whatever the two discriminators are.
pub proof fn lemma_later_compares_greater(a: Snowflake, b: Snowflake)
    requires
        a.millis() > b.millis(),
        (a.spec_value() < 0) == (b.spec_value() < 0),
    ensures
        a.partial_cmp_spec(&b) == Some(Ordering::Greater),
        b.partial_cmp_spec(&a) == Some(Ordering::Less),
{
    crate::snowflake::lemma_later_is_greater(a, b);
}

} // verus!
