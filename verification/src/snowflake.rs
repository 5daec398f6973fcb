//! Time-ordered 64-bit identifiers.
//!
//! A [`Snowflake`] carries a 48-bit count of milliseconds since the Unix epoch
//! in its high bits and a 16-bit discriminator in its low bits. The
//! discriminator only keeps identifiers minted within one millisecond apart.

pub mod order;

use std::time::SystemTime;
use vstd::prelude::*;

verus! {

/// Number of discriminator values, `2^16`.
pub const DISCRIMINATOR_SPAN: u64 = 0x1_0000;

/// First millisecond count that no longer fits into 48 bits.
pub const MILLIS_LIMIT: u64 = 0x1_0000_0000_0000;

/// The signed integer that has the same 64 bits as `x`.
pub open spec fn reinterpret_as_i64(x: u64) -> i64 {
    if x < 0x8000_0000_0000_0000 {
        x as i64
    } else {
        (x - 0x1_0000_0000_0000_0000) as i64
    }
}

/// The unsigned integer that has the same 64 bits as `x`.
pub open spec fn reinterpret_as_u64(x: i64) -> u64 {
    if x >= 0 {
        x as u64
    } else {
        (x + 0x1_0000_0000_0000_0000) as u64
    }
}

/// Losslessly convert a `u64` to an `i64`, copying every bit.
/// The result is negative when the top bit of `x` is set.
pub fn u64_to_i64(x: u64) -> (r: i64)
    ensures
        r == reinterpret_as_i64(x),
        reinterpret_as_u64(r) == x,
{
    assert(x < 0x8000_0000_0000_0000u64 ==> (x as i64) == x) by (bit_vector);
    assert(x >= 0x8000_0000_0000_0000u64 ==> (x as i64) == x - 0x1_0000_0000_0000_0000)
        by (bit_vector);
    assert(((x as i64) as u64) == x) by (bit_vector);
    #[verifier::truncate]
    (x as i64)
}

/// Losslessly convert an `i64` to a `u64`, copying every bit.
pub fn i64_to_u64(x: i64) -> (r: u64)
    ensures
        r == reinterpret_as_u64(x),
        reinterpret_as_i64(r) == x,
{
    assert(x >= 0 ==> (x as u64) == x) by (bit_vector);
    assert(x < 0 ==> (x as u64) == x + 0x1_0000_0000_0000_0000) by (bit_vector);
    assert(((x as u64) as i64) == x) by (bit_vector);
    #[verifier::truncate]
    (x as u64)
}

/// Why the clock could not be turned into an identifier.
#[derive(Clone, Copy, Debug, PartialEq, Eq, Structural)]
pub enum ClockError {
    /// The system clock stands before the Unix epoch.
    BeforeEpoch,
    /// The millisecond count does not fit into 48 bits.
    TooFarInFuture,
}

/// The main identifier type: a 64-bit integer, unique across all entities,
/// that encodes the time of its creation.
#[derive(Clone, Copy, Debug, PartialEq, Eq, Structural, Ord, Hash)]
pub struct Snowflake(i64);

/// The identifier made of `millis` and `uid`, as a signed integer.
pub open spec fn compose(millis: int, uid: int) -> i64 {
    reinterpret_as_i64((millis * 0x1_0000 + uid) as u64)
}

impl Snowflake {
    /// The identifier as a plain signed integer.
    pub closed spec fn spec_value(self) -> i64 {
        self.0
    }

    /// The timestamp held in the high 48 bits, in milliseconds since the epoch.
    pub open spec fn millis(self) -> int {
        reinterpret_as_u64(self.spec_value()) as int / 0x1_0000
    }

    /// The discriminator held in the low 16 bits.
    pub open spec fn discriminator(self) -> int {
        reinterpret_as_u64(self.spec_value()) as int % 0x1_0000
    }

    /// The identifier as a plain signed integer, as it is stored.
    #[verifier::when_used_as_spec(spec_value)]
    pub fn value(self) -> (v: i64)
        ensures
            v == self.spec_value(),
    {
        self.0
    }

    /// The identifier that is stored as `id`.
    pub fn from_value(id: i64) -> (sn: Snowflake)
        ensures
            sn.spec_value() == id,
    {
        Snowflake(id)
    }

    /// Build the identifier for a given time and discriminator.
    ///
    /// Fails exactly when `millis` does not fit into 48 bits.
    pub fn from_parts(millis: u128, uid: u16) -> (res: Result<Snowflake, ClockError>)
        ensures
            millis < MILLIS_LIMIT <==> res is Ok,
            res matches Ok(sn) ==> sn.spec_value() == compose(millis as int, uid as int)
                && sn.millis() == millis && sn.discriminator() == uid,
            res matches Err(e) ==> e == ClockError::TooFarInFuture,
    {
        if millis >= MILLIS_LIMIT as u128 {
            return Err(ClockError::TooFarInFuture);
        }
        let narrow: u64 = millis as u64;
        let raw: u64 = narrow * DISCRIMINATOR_SPAN + uid as u64;
        let sn = Snowflake(u64_to_i64(raw));
        assert(sn.millis() == millis && sn.discriminator() == uid) by {
            assert(reinterpret_as_u64(sn.spec_value()) == raw);
            assert(raw as int / 0x1_0000 == narrow && raw as int % 0x1_0000 == uid) by {
                lemma_split(narrow as int, uid as int);
            }
        }
        Ok(sn)
    }

    /// Create a new identifier from the current time.
    ///
    /// `uid` sets the discriminator. Whether this succeeds lies with the
    /// system clock; an identifier that comes back holds `uid` and a
    /// timestamp of 48 bits.
    pub fn new(uid: u16) -> (res: Result<Snowflake, ClockError>)
        ensures
            res matches Ok(sn) ==> sn.discriminator() == uid && 0 <= sn.millis() < MILLIS_LIMIT,
            res matches Err(e) ==> e == ClockError::BeforeEpoch || e == ClockError::TooFarInFuture,
    {
        // The clock decides; what is made of its reading is `from_clock`'s.
        let clock = unix_millis();
        let made = Snowflake::from_clock(clock, uid);
        made
    }

    /// Replace the discriminator with the provided value.
    /// The timestamp stays as it is.
    pub fn with_low_bits(self, new_uid: u16) -> (sn: Snowflake)
        ensures
            sn.millis() == self.millis(),
            sn.discriminator() == new_uid,
            sn.spec_value() == compose(self.millis(), new_uid as int),
    {
        let raw: u64 = i64_to_u64(self.0);
        let high: u64 = raw / DISCRIMINATOR_SPAN;
        let replaced: u64 = high * DISCRIMINATOR_SPAN + new_uid as u64;
        proof {
            lemma_split(high as int, new_uid as int);
        }
        Snowflake(u64_to_i64(replaced))
    }

    /// The timestamp of this identifier, in milliseconds since the Unix epoch.
    pub fn timestamp_millis(&self) -> (m: u64)
        ensures
            m == self.millis(),
            m < MILLIS_LIMIT,
    {
        i64_to_u64(self.0) / DISCRIMINATOR_SPAN
    }

    /// The discriminator of this identifier.
    pub fn low_bits(&self) -> (uid: u16)
        ensures
            uid == self.discriminator(),
    {
        (i64_to_u64(self.0) % DISCRIMINATOR_SPAN) as u16
    }

    /// Get the time that this identifier corresponds to.
    pub fn as_time(&self) -> (t: SystemTime)
        ensures
            t == time_after_epoch(self.millis() as u64),
    {
        epoch_plus_millis(self.timestamp_millis())
    }
}

/// Quotient and remainder of `high * 2^16 + low` by `2^16`.
proof fn lemma_split(high: int, low: int)
    requires
        0 <= low < 0x1_0000,
        0 <= high,
    ensures
        (high * 0x1_0000 + low) / 0x1_0000 == high,
        (high * 0x1_0000 + low) % 0x1_0000 == low,
{
    vstd::arithmetic::div_mod::lemma_fundamental_div_mod_converse(
        high * 0x1_0000 + low,
        0x1_0000,
        high,
        low,
    );
}

/// Identifiers that share a sign order as their timestamps do, whatever the
/// discriminators are: one minted at least a millisecond later is greater.
pub proof fn lemma_later_is_greater(a: Snowflake, b: Snowflake)
    requires
        a.millis() > b.millis(),
        (a.spec_value() < 0) == (b.spec_value() < 0),
    ensures
        a.spec_value() > b.spec_value(),
{
    let ra = reinterpret_as_u64(a.spec_value()) as int;
    let rb = reinterpret_as_u64(b.spec_value()) as int;
    vstd::arithmetic::div_mod::lemma_fundamental_div_mod(ra, 0x1_0000);
    vstd::arithmetic::div_mod::lemma_fundamental_div_mod(rb, 0x1_0000);
}

/// Identifiers built from timestamps below `2^47` are never negative, so
/// among them a later timestamp always gives the greater identifier.
pub proof fn lemma_generated_order(millis_a: int, uid_a: int, millis_b: int, uid_b: int)
    requires
        0 <= millis_b < millis_a < 0x8000_0000_0000,
        0 <= uid_a < 0x1_0000,
        0 <= uid_b < 0x1_0000,
    ensures
        compose(millis_a, uid_a) > compose(millis_b, uid_b),
{
}

/// Replacing the discriminator, once or repeatedly, never changes the time
/// that an identifier corresponds to.
pub proof fn lemma_low_bits_keep_time(sn: Snowflake, replaced: Snowflake, uid: int)
    requires
        0 <= uid < 0x1_0000,
        replaced.spec_value() == compose(sn.millis(), uid),
    ensures
        replaced.millis() == sn.millis(),
        replaced.discriminator() == uid,
        time_after_epoch(replaced.millis() as u64) == time_after_epoch(sn.millis() as u64),
{
    let raw = reinterpret_as_u64(sn.spec_value()) as int;
    vstd::arithmetic::div_mod::lemma_fundamental_div_mod(raw, 0x1_0000);
    lemma_split(sn.millis(), uid);
}

/// Two identifiers that are stored as the same number are the same.
pub proof fn lemma_value_names_identifier(a: Snowflake, b: Snowflake)
    requires
        a.spec_value() == b.spec_value(),
    ensures
        a == b,
{
}

/// `std::time::SystemTime`, carried through as it is.
#[verifier::external_type_specification]
#[verifier::external_body]
pub struct ExSystemTime(SystemTime);

/// The point in time that lies `millis` milliseconds after the Unix epoch.
pub uninterp spec fn time_after_epoch(millis: u64) -> SystemTime;

/// `SystemTime + Duration`, with `UNIX_EPOCH` and the length of `millis`
/// milliseconds: the one call is the sum, and `Duration::from_millis` only
/// turns the number into the type that the sum takes. The sum is a function
/// of `millis` alone. The bound keeps it within what every platform's clock
/// can represent.
#[verifier::external_body]
fn epoch_plus_millis(millis: u64) -> (t: SystemTime)
    requires
        millis < MILLIS_LIMIT,
    ensures
        t == time_after_epoch(millis),
{
    std::time::UNIX_EPOCH + std::time::Duration::from_millis(millis)
}

/// The time since the Unix epoch in whole milliseconds, or `None` where the
/// clock stands before the epoch. Nothing is known of the number: it is
/// whatever the clock says.
pub(crate) fn unix_millis() -> Option<u128> {
    match since_epoch() {
        Some(elapsed) => Some(elapsed.as_millis()),
        None => None,
    }
}

/// `SystemTime::elapsed` of `UNIX_EPOCH`: how long ago the epoch was by the
/// system clock, or `None` where the clock stands before it. Nothing is
/// claimed of the length.
#[verifier::external_body]
fn since_epoch() -> Option<std::time::Duration> {
    std::time::UNIX_EPOCH.elapsed().ok()
}

/// `Duration::as_millis`: the whole milliseconds of a length of time.
pub assume_specification[ std::time::Duration::as_millis ](span: &std::time::Duration) -> u128;

impl From<i64> for Snowflake {
    fn from(id: i64) -> (sn: Snowflake) {
        Snowflake(id)
    }
}

impl vstd::std_specs::convert::FromSpecImpl<i64> for Snowflake {
    open spec fn obeys_from_spec() -> bool {
        true
    }

    closed spec fn from_spec(id: i64) -> Snowflake {
        Snowflake(id)
    }
}

impl From<Snowflake> for i64 {
    fn from(snowflake: Snowflake) -> (id: i64) {
        snowflake.0
    }
}

impl vstd::std_specs::convert::FromSpecImpl<Snowflake> for i64 {
    open spec fn obeys_from_spec() -> bool {
        true
    }

    open spec fn from_spec(snowflake: Snowflake) -> i64 {
        snowflake.spec_value()
    }
}

/// The identifier made from a stored number is stored as that number.
pub proof fn lemma_from_stored(id: i64)
    ensures
        <Snowflake as vstd::std_specs::convert::FromSpec<i64>>::from_spec(id).spec_value() == id,
{
}

/// Why a text is no identifier.
#[derive(Clone, Copy, Debug, PartialEq, Eq, Structural)]
pub struct ParseSnowflakeError;

/// The number that `text` spells in decimal, as `str::parse::<i64>` reads
/// it: decimal digits after at most one sign, `+` or `-`, and a number that
/// an `i64` holds. `None` for any other text.
pub open spec fn parsed_i64(text: Seq<char>) -> Option<i64> {
    if text.len() > 0 && text[0] == '-' {
        match crate::text::number_in(text.drop_first(), 10) {
            Some(n) => if n <= 0x8000_0000_0000_0000 {
                Some((-n) as i64)
            } else {
                None
            },
            None => None,
        }
    } else {
        let digits = if text.len() > 0 && text[0] == '+' {
            text.drop_first()
        } else {
            text
        };
        match crate::text::number_in(digits, 10) {
            Some(n) => if n <= 0x7fff_ffff_ffff_ffff {
                Some(n as i64)
            } else {
                None
            },
            None => None,
        }
    }
}

/// Read the number that a text spells in decimal.
fn parse_i64(text: &str) -> (number: Option<i64>)
    ensures
        number == parsed_i64(text@),
{
    let chars = crate::text::chars_of(text);
    assert(chars@.subrange(1, chars@.len() as int) =~= chars@.drop_first());
    assert(chars@.subrange(0, chars@.len() as int) =~= chars@);
    if chars.len() > 0 && chars[0] == '-' {
        match crate::text::read_number(&chars, 1, 10, 0x8000_0000_0000_0000) {
            Some(magnitude) => if magnitude == 0x8000_0000_0000_0000 {
                Some(i64::MIN)
            } else if magnitude < 0x8000_0000_0000_0000 {
                Some(-(magnitude as i64))
            } else {
                None
            },
            None => None,
        }
    } else {
        let start: usize = if chars.len() > 0 && chars[0] == '+' {
            1
        } else {
            0
        };
        match crate::text::read_number(&chars, start, 10, 0x7fff_ffff_ffff_ffff) {
            Some(number) => if number <= 0x7fff_ffff_ffff_ffff {
                Some(number as i64)
            } else {
                None
            },
            None => None,
        }
    }
}

impl Snowflake {
    /// The identifier in decimal, as it is written into file names and logs.
    pub fn to_string(&self) -> (text: String)
        ensures
            text@ == crate::text::decimal(self.spec_value() as int),
    {
        crate::text::decimal_text(self.0)
    }

    /// Read an identifier from its decimal text.
    pub fn parse(text: &str) -> (res: Result<Snowflake, ParseSnowflakeError>)
        ensures
            res is Ok <==> parsed_i64(text@) is Some,
            res matches Ok(sn) ==> Some(sn.spec_value()) == parsed_i64(text@),
    {
        match parse_i64(text) {
            Some(id) => Ok(Snowflake(id)),
            None => Err(ParseSnowflakeError),
        }
    }
}

impl std::str::FromStr for Snowflake {
    type Err = ParseSnowflakeError;

    fn from_str(s: &str) -> (res: Result<Snowflake, ParseSnowflakeError>)
        ensures
            res is Ok <==> parsed_i64(s@) is Some,
            res matches Ok(sn) ==> Some(sn.spec_value()) == parsed_i64(s@),
    {
        Snowflake::parse(s)
    }
}

impl Default for Snowflake {
    fn default() -> (sn: Snowflake)
        ensures
            sn.spec_value() == 0,
    {
        Snowflake(0)
    }
}

impl Snowflake {
    /// Whether `res` is what a reading of the clock and a discriminator
    /// make: an identifier of the two, or the reason why the reading gives
    /// none.
    pub open spec fn made_at(
        res: Result<Snowflake, ClockError>,
        clock: Option<u128>,
        uid: u16,
    ) -> bool {
        match clock {
            None => res == Err::<Snowflake, ClockError>(ClockError::BeforeEpoch),
            Some(millis) => if millis < MILLIS_LIMIT {
                res is Ok && res->Ok_0.spec_value() == compose(millis as int, uid as int)
            } else {
                res == Err::<Snowflake, ClockError>(ClockError::TooFarInFuture)
            },
        }
    }

    /// Build the identifier for a reading of the clock: `None` is a clock
    /// that stands before the epoch, `Some` its milliseconds since then.
    pub fn from_clock(clock: Option<u128>, uid: u16) -> (res: Result<Snowflake, ClockError>)
        ensures
            Snowflake::made_at(res, clock, uid),
            res matches Ok(sn) ==> sn.discriminator() == uid && 0 <= sn.millis() < MILLIS_LIMIT,
    {
        match clock {
            None => Err(ClockError::BeforeEpoch),
            Some(millis) => Snowflake::from_parts(millis, uid),
        }
    }
}

} // verus!
