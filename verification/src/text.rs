//! Texts as sequences of characters.

use vstd::prelude::*;

verus! {

/// The characters of `s`, one by one.
pub fn chars_of(s: &str) -> (chars: Vec<char>)
    ensures
        chars@ == s@,
{
    let mut chars: Vec<char> = Vec::new();
    for c in it: s.chars()
        invariant
            it.seq() == s@,
            chars@ == it.seq().take(it.index() as int),
    {
        chars.push(c);
        assert(chars@ =~= it.seq().take(it.index() + 1));
    }
    assert(chars@ =~= s@);
    chars
}

/// Whether two texts hold the same characters.
pub fn same_text(a: &str, b: &str) -> (same: bool)
    ensures
        same == (a@ == b@),
{
    let left = chars_of(a);
    let right = chars_of(b);
    if left.len() != right.len() {
        return false;
    }
    let mut i: usize = 0;
    while i < left.len()
        invariant
            i <= left.len(),
            left.len() == right.len(),
            left@ == a@,
            right@ == b@,
            forall|j: int| 0 <= j < i ==> left@[j] == right@[j],
        decreases left.len() - i,
    {
        if left[i] != right[i] {
            return false;
        }
        i += 1;
    }
    assert(left@ =~= right@);
    true
}

/// The text made of `chars`.
pub fn text_of(chars: &Vec<char>) -> (text: String)
    ensures
        text@ == chars@,
{
    let mut text = String::new();
    let mut i: usize = 0;
    while i < chars.len()
        invariant
            i <= chars.len(),
            text@ == chars@.take(i as int),
        decreases chars.len() - i,
    {
        text.push(chars[i]);
        assert(text@ =~= chars@.take(i + 1));
        i += 1;
    }
    assert(chars@.take(i as int) == chars@);
    text
}

/// The character that writes the digit `d`, which is below 10.
pub open spec fn digit_char(d: nat) -> char {
    (0x30u8 + d as u8) as char
}

/// A natural number written in decimal, without leading zeros.
pub open spec fn decimal_nat(n: nat) -> Seq<char>
    decreases n,
{
    if n < 10 {
        seq![digit_char(n)]
    } else {
        decimal_nat(n / 10).push(digit_char(n % 10))
    }
}

/// An integer written in decimal, with a `-` before a negative one.
pub open spec fn decimal(n: int) -> Seq<char> {
    if n < 0 {
        seq!['-'] + decimal_nat((-n) as nat)
    } else {
        decimal_nat(n as nat)
    }
}

/// The decimal text of a natural number is not empty and begins with a
/// digit; a number of two digits or more has a text of two characters or
/// more.
proof fn lemma_decimal_nat_shape(n: nat)
    ensures
        decimal_nat(n).len() >= 1,
        n >= 10 ==> decimal_nat(n).len() >= 2,
        decimal_nat(n)[0] != '-',
    decreases n,
{
    if n < 10 {
        assert(digit_char(n) as nat == 0x30 + n);
    } else {
        lemma_decimal_nat_shape(n / 10);
        assert(decimal_nat(n)[0] == decimal_nat(n / 10)[0]);
    }
}

/// Two natural numbers with the same decimal text are the same number.
proof fn lemma_decimal_nat_injective(a: nat, b: nat)
    requires
        decimal_nat(a) == decimal_nat(b),
    ensures
        a == b,
    decreases a,
{
    lemma_decimal_nat_shape(a);
    lemma_decimal_nat_shape(b);
    if a < 10 && b < 10 {
        assert(decimal_nat(a)[0] == digit_char(a) && decimal_nat(b)[0] == digit_char(b));
        assert(digit_char(a) as nat == 0x30 + a);
        assert(digit_char(b) as nat == 0x30 + b);
    } else if a >= 10 && b >= 10 {
        let high_a = decimal_nat(a / 10);
        let high_b = decimal_nat(b / 10);
        assert(decimal_nat(a).drop_last() =~= high_a);
        assert(decimal_nat(b).drop_last() =~= high_b);
        assert(decimal_nat(a).last() == digit_char(a % 10));
        assert(decimal_nat(b).last() == digit_char(b % 10));
        assert(digit_char(a % 10) as nat == 0x30 + a % 10);
        assert(digit_char(b % 10) as nat == 0x30 + b % 10);
        lemma_decimal_nat_injective(a / 10, b / 10);
    }
}

/// Two integers with the same decimal text are the same integer.
pub proof fn lemma_decimal_injective(a: int, b: int)
    requires
        decimal(a) == decimal(b),
    ensures
        a == b,
{
    lemma_decimal_nat_shape(if a < 0 {
        (-a) as nat
    } else {
        a as nat
    });
    lemma_decimal_nat_shape(if b < 0 {
        (-b) as nat
    } else {
        b as nat
    });
    if a < 0 && b < 0 {
        let text_a = decimal_nat((-a) as nat);
        let text_b = decimal_nat((-b) as nat);
        assert(decimal(a).drop_first() =~= text_a);
        assert(decimal(b).drop_first() =~= text_b);
        lemma_decimal_nat_injective((-a) as nat, (-b) as nat);
    } else if a >= 0 && b >= 0 {
        lemma_decimal_nat_injective(a as nat, b as nat);
    } else if a < 0 {
        assert(decimal(a)[0] == '-');
        assert(decimal(b)[0] == decimal_nat(b as nat)[0]);
    } else {
        assert(decimal(b)[0] == '-');
        assert(decimal(a)[0] == decimal_nat(a as nat)[0]);
    }
}

/// Write `n` in decimal at the end of `out`.
fn push_decimal(n: u64, out: &mut Vec<char>)
    ensures
        final(out)@ == old(out)@ + decimal_nat(n as nat),
    decreases n,
{
    if n >= 10 {
        push_decimal(n / 10, out);
    }
    let d: u8 = (n % 10) as u8;
    out.push((0x30u8 + d) as char);
    assert(final(out)@ =~= old(out)@ + decimal_nat(n as nat));
}

/// An integer written in decimal.
pub fn decimal_text(n: i64) -> (text: String)
    ensures
        text@ == decimal(n as int),
{
    let mut out: Vec<char> = Vec::new();
    if n < 0 {
        out.push('-');
        let magnitude: u64 = if n == i64::MIN {
            0x8000_0000_0000_0000u64
        } else {
            (-n) as u64
        };
        push_decimal(magnitude, &mut out);
        assert(out@ =~= decimal(n as int));
    } else {
        push_decimal(n as u64, &mut out);
        assert(out@ =~= decimal(n as int));
    }
    text_of(&out)
}

/// What a digit is worth in a number of base `radix`: `0` to `9`, then the
/// letters in either case from ten on; `None` for what is no digit of the
/// base.
pub open spec fn digit_value(c: char, radix: nat) -> Option<nat> {
    let code = c as nat;
    let value: Option<nat> = if 0x30 <= code <= 0x39 {
        Some((code - 0x30) as nat)
    } else if 0x61 <= code <= 0x7a {
        Some((code - 0x61 + 10) as nat)
    } else if 0x41 <= code <= 0x5a {
        Some((code - 0x41 + 10) as nat)
    } else {
        None
    };
    match value {
        Some(v) => if v < radix {
            Some(v)
        } else {
            None
        },
        None => None,
    }
}

/// The number that `digits` spell in base `radix`, most significant digit
/// first; `None` where there is no digit, or something that is none.
pub open spec fn number_in(digits: Seq<char>, radix: nat) -> Option<nat>
    decreases digits.len(),
{
    if digits.len() == 0 {
        None
    } else {
        match digit_value(digits.last(), radix) {
            None => None,
            Some(low) => if digits.len() == 1 {
                Some(low)
            } else {
                match number_in(digits.drop_last(), radix) {
                    None => None,
                    Some(high) => Some(high * radix + low),
                }
            },
        }
    }
}

/// Digits that begin with something that spells no number spell none.
proof fn lemma_bad_start_spoils(digits: Seq<char>, radix: nat, k: int)
    requires
        1 <= k <= digits.len(),
        number_in(digits.take(k), radix) is None,
    ensures
        number_in(digits, radix) is None,
    decreases digits.len() - k,
{
    if k < digits.len() {
        assert(digits.take(k + 1).drop_last() =~= digits.take(k));
        lemma_bad_start_spoils(digits, radix, k + 1);
    } else {
        assert(digits.take(k) =~= digits);
    }
}

/// What one digit is worth in base `radix`.
fn digit_of(c: char, radix: u32) -> (digit: Option<u32>)
    requires
        2 <= radix <= 36,
    ensures
        match digit_value(c, radix as nat) {
            Some(v) => digit == Some(v as u32),
            None => digit is None,
        },
{
    let code = c as u32;
    let value: u32 = if 0x30 <= code && code <= 0x39 {
        code - 0x30
    } else if 0x61 <= code && code <= 0x7a {
        code - 0x61 + 10
    } else if 0x41 <= code && code <= 0x5a {
        code - 0x41 + 10
    } else {
        return None;
    };
    if value < radix {
        Some(value)
    } else {
        None
    }
}

/// The greatest bound that [`read_number`] keeps numbers under.
pub const GREATEST_CAP: u128 = 0x1_0000_0000_0000_0000_0000;

/// Read the number that the characters from `start` on spell in base
/// `radix`. A number past `cap` is handed out as `cap + 1`, however long it
/// is; `None` where the characters spell no number.
pub fn read_number(chars: &Vec<char>, start: usize, radix: u32, cap: u128) -> (res: Option<u128>)
    requires
        start <= chars@.len(),
        2 <= radix <= 36,
        cap <= GREATEST_CAP,
    ensures
        match number_in(chars@.subrange(start as int, chars@.len() as int), radix as nat) {
            Some(v) => res == Some(
                if v <= cap {
                    v as u128
                } else {
                    (cap + 1) as u128
                },
            ),
            None => res is None,
        },
{
    let ghost digits = chars@.subrange(start as int, chars@.len() as int);
    if start == chars.len() {
        return None;
    }
    let mut held: u128 = 0;
    let mut i: usize = start;
    while i < chars.len()
        invariant
            start <= i <= chars@.len(),
            start < chars@.len(),
            2 <= radix <= 36,
            cap <= GREATEST_CAP,
            digits == chars@.subrange(start as int, chars@.len() as int),
            held <= cap + 1,
            i == start ==> held == 0,
            i > start ==> match number_in(digits.take(i - start), radix as nat) {
                Some(v) => held == if v <= cap {
                    v as u128
                } else {
                    (cap + 1) as u128
                },
                None => false,
            },
        decreases chars@.len() - i,
    {
        let ghost seen = digits.take(i - start);
        let ghost now = digits.take(i - start + 1);
        assert(now.drop_last() =~= seen);
        assert(now.last() == chars@[i as int]);
        let digit = match digit_of(chars[i], radix) {
            Some(digit) => digit,
            None => {
                proof {
                    assert(number_in(now, radix as nat) is None);
                    lemma_bad_start_spoils(digits, radix as nat, i - start + 1);
                }
                return None;
            },
        };
        proof {
            if i > start {
                let v = number_in(seen, radix as nat)->0;
                assert(number_in(now, radix as nat) == Some((v * radix + digit) as nat));
                assert(v > cap ==> v * radix + digit > cap) by (nonlinear_arith)
                    requires
                        radix >= 2,
                        v >= 0,
                        digit >= 0,
                        cap >= 0,
                ;
                assert(v <= cap ==> held * radix == v * radix);
            } else {
                assert(now.len() == 1);
                assert(number_in(now, radix as nat) == Some(digit as nat));
            }
            assert(held * radix <= (GREATEST_CAP + 1) * 36) by (nonlinear_arith)
                requires
                    held <= GREATEST_CAP + 1,
                    radix <= 36,
            ;
        }
        let grown: u128 = held * (radix as u128) + digit as u128;
        proof {
            if i > start {
                let v = number_in(seen, radix as nat)->0;
                if v > cap {
                    assert(grown > cap) by (nonlinear_arith)
                        requires
                            grown == held * radix + digit,
                            held == cap + 1,
                            radix >= 2,
                            digit >= 0,
                    ;
                }
            }
        }
        held = if grown > cap {
            cap + 1
        } else {
            grown
        };
        i += 1;
    }
    assert(digits.take(i - start) =~= digits);
    Some(held)
}

/// `String::push`: the character is put at the end of the text.
pub assume_specification[ String::push ](string: &mut String, c: char)
    ensures
        final(string)@ == old(string)@.push(c),
;

} // verus!
