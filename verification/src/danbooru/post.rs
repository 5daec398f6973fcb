//! Posts.

pub use crate::danbooru::Rating;
use crate::date_time::DateTime;
use crate::media_assets::media_asset::{hex_encode, hex_text};
use crate::tag_string::texts;
use crate::text::{chars_of, digit_value, number_in, read_number, same_text};
use vstd::prelude::*;

verus! {

#[derive(Debug, Clone, Hash)]
pub struct Post {
    pub id: u64,
    pub created_at: DateTime,
    /// Where a post was never updated, this is the same as `created_at`.
    pub updated_at: DateTime,
    pub uploader_id: u64,
    pub approver_id: Option<u64>,
    pub tags_general: Vec<String>,
    pub tags_artist: Vec<String>,
    pub tags_copyright: Vec<String>,
    pub tags_character: Vec<String>,
    pub tags_meta: Vec<String>,
    /// All tags of the post: the five lists above taken together. It is kept
    /// to notice tags of a kind that is not known yet.
    pub tags: Vec<String>,
    pub rating: Rating,
    pub parent_id: Option<u64>,
    pub source: Option<String>,
    /// This can be missing, as on posts that are banned.
    pub md5: Option<[u8; 16]>,
    /// Where the file is; previews are not recorded.
    pub url: String,
    pub file_size: usize,
    pub file_ext: String,
    pub image_width: u32,
    pub image_height: u32,
    pub has_large: bool,
    pub score: i32,
    pub up_score: Option<u32>,
    pub down_score: Option<u32>,
    pub fav_count: u32,
    pub last_commented_at: Option<DateTime>,
    pub last_comment_bumped_at: Option<DateTime>,
    pub last_noted_at: Option<DateTime>,
    pub has_children: bool,
    pub has_active_children: bool,
    pub has_visible_children: bool,
    pub pixiv_id: Option<u64>,
    pub is_pending: bool,
    pub is_flagged: bool,
    pub is_deleted: bool,
    pub is_banned: bool,
    pub bit_flags: u32,
}

/// How often `tag` stands in `list`.
pub open spec fn occurrences(list: Seq<Seq<char>>, tag: Seq<char>) -> nat
    decreases list.len(),
{
    if list.len() == 0 {
        0
    } else {
        occurrences(list.drop_last(), tag) + if list.last() == tag {
            1nat
        } else {
            0nat
        }
    }
}

/// Two lists hold the same tags, each as often in the one as in the other,
/// in whatever order.
pub open spec fn same_tags(a: Seq<Seq<char>>, b: Seq<Seq<char>>) -> bool {
    forall|tag: Seq<char>| occurrences(a, tag) == occurrences(b, tag)
}

/// How often a tag stands in a list is how often the list, taken as a bag,
/// holds it.
pub proof fn lemma_occurrences_count(list: Seq<Seq<char>>, tag: Seq<char>)
    ensures
        occurrences(list, tag) == list.to_multiset().count(tag),
    decreases list.len(),
{
    if list.len() == 0 {
        list.to_multiset_ensures();
        assert(list.to_multiset().len() == 0);
        if list.to_multiset().count(tag) > 0 {
            assert(list.contains(tag));
        }
    } else {
        let before = list.drop_last();
        lemma_occurrences_count(before, tag);
        before.to_multiset_ensures();
        assert(list =~= before.push(list.last()));
        assert(list.to_multiset() =~= before.to_multiset().insert(list.last()));
    }
}

/// Two lists hold the same tags exactly when they are the same bag of tags.
pub proof fn lemma_same_tags_is_the_same_bag(a: Seq<Seq<char>>, b: Seq<Seq<char>>)
    ensures
        same_tags(a, b) <==> a.to_multiset() =~= b.to_multiset(),
{
    if a.to_multiset() =~= b.to_multiset() {
        assert forall|tag: Seq<char>| occurrences(a, tag) == occurrences(b, tag) by {
            lemma_occurrences_count(a, tag);
            lemma_occurrences_count(b, tag);
        }
    }
    if same_tags(a, b) {
        assert forall|tag: Seq<char>|
            a.to_multiset().count(tag) == b.to_multiset().count(tag) by {
            lemma_occurrences_count(a, tag);
            lemma_occurrences_count(b, tag);
            assert(occurrences(a, tag) == occurrences(b, tag));
        }
        assert(a.to_multiset() =~= b.to_multiset());
    }
}

/// A tag that stands in a list stands at some place of it.
proof fn lemma_occurrence_has_place(list: Seq<Seq<char>>, tag: Seq<char>)
    requires
        occurrences(list, tag) > 0,
    ensures
        exists|i: int| 0 <= i < list.len() && list[i] == tag,
    decreases list.len(),
{
    if list.last() == tag {
        assert(list[list.len() - 1] == tag);
    } else {
        lemma_occurrence_has_place(list.drop_last(), tag);
        let i = choose|i: int| 0 <= i < list.drop_last().len() && list.drop_last()[i] == tag;
        assert(list[i] == tag);
    }
}

/// Count how often `tag` stands in `list`.
fn count_of(list: &Vec<String>, tag: &str) -> (count: usize)
    ensures
        count == occurrences(texts(list@), tag@),
{
    let mut count: usize = 0;
    let mut i: usize = 0;
    assert(texts(list@).take(0) =~= Seq::<Seq<char>>::empty());
    while i < list.len()
        invariant
            i <= list.len(),
            count <= i,
            count == occurrences(texts(list@).take(i as int), tag@),
        decreases list.len() - i,
    {
        assert(texts(list@).take(i + 1).drop_last() =~= texts(list@).take(i as int));
        assert(texts(list@).take(i + 1).last() == list@[i as int]@);
        if same_text(list[i].as_str(), tag) {
            count += 1;
        }
        i += 1;
    }
    assert(texts(list@).take(i as int) =~= texts(list@));
    count
}

/// Whether every tag of `a` stands in `b` as often as in `a`.
fn covered(a: &Vec<String>, b: &Vec<String>) -> (all: bool)
    ensures
        all == forall|i: int|
            0 <= i < a@.len() ==> occurrences(texts(a@), #[trigger] texts(a@)[i]) == occurrences(
                texts(b@),
                texts(a@)[i],
            ),
{
    let mut i: usize = 0;
    while i < a.len()
        invariant
            i <= a.len(),
            forall|j: int|
                0 <= j < i ==> occurrences(texts(a@), #[trigger] texts(a@)[j]) == occurrences(
                    texts(b@),
                    texts(a@)[j],
                ),
        decreases a.len() - i,
    {
        assert(texts(a@)[i as int] == a@[i as int]@);
        if count_of(a, a[i].as_str()) != count_of(b, a[i].as_str()) {
            return false;
        }
        i += 1;
    }
    true
}

/// Put a copy of every tag of `from` at the end of `onto`.
fn extend(onto: &mut Vec<String>, from: &Vec<String>)
    ensures
        texts(final(onto)@) == texts(old(onto)@) + texts(from@),
{
    let mut i: usize = 0;
    assert(texts(from@).take(0) =~= Seq::<Seq<char>>::empty());
    assert(texts(onto@) =~= texts(old(onto)@) + texts(from@).take(0));
    while i < from.len()
        invariant
            i <= from.len(),
            texts(onto@) == texts(old(onto)@) + texts(from@).take(i as int),
        decreases from.len() - i,
    {
        let ghost held = onto@;
        onto.push(from[i].clone());
        assert(texts(onto@) =~= texts(held).push(from@[i as int]@));
        assert(texts(from@).take(i + 1) =~= texts(from@).take(i as int).push(from@[i as int]@));
        i += 1;
    }
    assert(texts(from@).take(i as int) =~= texts(from@));
}

impl Post {
    /// The tags of the five kinds, one list after the other.
    pub open spec fn tags_by_kind(&self) -> Seq<Seq<char>> {
        texts(self.tags_general@) + texts(self.tags_artist@) + texts(self.tags_copyright@) + texts(
            self.tags_character@,
        ) + texts(self.tags_meta@)
    }

    /// Check that `tags` holds the tags of the five kinds taken together, no
    /// more and no less. If it does not, some tags are being missed: perhaps
    /// there are more kinds of tag than are known here.
    pub fn tag_string_is_union(&self) -> (is_union: bool)
        ensures
            is_union == same_tags(texts(self.tags@), self.tags_by_kind()),
    {
        let mut union_tags: Vec<String> = Vec::new();
        assert(texts(union_tags@) =~= Seq::<Seq<char>>::empty());
        extend(&mut union_tags, &self.tags_general);
        extend(&mut union_tags, &self.tags_artist);
        extend(&mut union_tags, &self.tags_copyright);
        extend(&mut union_tags, &self.tags_character);
        extend(&mut union_tags, &self.tags_meta);
        assert(texts(union_tags@) =~= self.tags_by_kind());
        let is_union = covered(&self.tags, &union_tags) && covered(&union_tags, &self.tags);
        proof {
            let a = texts(self.tags@);
            let b = texts(union_tags@);
            if is_union {
                assert forall|tag: Seq<char>| occurrences(a, tag) == occurrences(b, tag) by {
                    if occurrences(a, tag) > 0 {
                        lemma_occurrence_has_place(a, tag);
                        let i = choose|i: int| 0 <= i < a.len() && a[i] == tag;
                        assert(occurrences(a, a[i]) == occurrences(b, a[i]));
                    } else if occurrences(b, tag) > 0 {
                        lemma_occurrence_has_place(b, tag);
                        let i = choose|i: int| 0 <= i < b.len() && b[i] == tag;
                        assert(occurrences(b, b[i]) == occurrences(a, b[i]));
                    }
                }
            } else {
                if !covered_spec(a, b) {
                    let i = choose|i: int|
                        0 <= i < a.len() && occurrences(a, #[trigger] a[i]) != occurrences(
                            b,
                            a[i],
                        );
                    assert(occurrences(a, a[i]) != occurrences(b, a[i]));
                } else {
                    let i = choose|i: int|
                        0 <= i < b.len() && occurrences(b, #[trigger] b[i]) != occurrences(
                            a,
                            b[i],
                        );
                    assert(occurrences(a, b[i]) != occurrences(b, b[i]));
                }
            }
        }
        is_union
    }
}

/// Why a text is no MD5 hash.
#[derive(Debug, Clone, Copy, PartialEq, Eq, Structural)]
pub enum Md5Error {
    /// The text is not 32 bytes long, but this long.
    WrongLength(usize),
    /// The pair of bytes at this place is no text of its own.
    InvalidUtf8(usize),
    /// The pair of bytes at this place is no hexadecimal number.
    InvalidHex(usize),
}

/// The value of a hexadecimal digit, upper or lower case.
pub open spec fn hex_value(c: char) -> Option<nat> {
    digit_value(c, 16)
}

/// The number that `digits` spell in base 16; `None` where there is no digit
/// or something that is none.
pub open spec fn hex_number(digits: Seq<char>) -> Option<nat> {
    number_in(digits, 16)
}

/// The byte that `text` spells in base 16: digits only, after at most one
/// `+`, and no more than 255.
pub open spec fn hex_byte(text: Seq<char>) -> Option<u8> {
    let digits = if text.len() > 0 && text[0] == '+' {
        text.drop_first()
    } else {
        text
    };
    match hex_number(digits) {
        Some(n) => if n <= 255 {
            Some(n as u8)
        } else {
            None
        },
        None => None,
    }
}

/// The byte that the pair of bytes at place `i` of `bytes` spells.
pub open spec fn md5_byte(bytes: Seq<u8>, i: int) -> Option<u8> {
    let pair = bytes.subrange(2 * i, 2 * i + 2);
    if vstd::utf8::valid_utf8(pair) {
        hex_byte(vstd::utf8::decode_utf8(pair))
    } else {
        None
    }
}

/// Whether the pairs of `bytes` before place `n` all spell a byte.
pub open spec fn md5_pairs_good(bytes: Seq<u8>, n: int) -> bool {
    forall|i: int| 0 <= i < n ==> (#[trigger] md5_byte(bytes, i)) is Some
}

/// Read an MD5 hash from its 32 hexadecimal digits. A hash that is missing
/// stays missing.
///
/// The text must be 32 bytes long, and each pair of bytes must spell one byte
/// of the hash. The error names the first pair that does not.
pub fn deserialize_md5(md5_str: Option<&str>) -> (res: Result<Option<[u8; 16]>, Md5Error>)
    ensures
        md5_str is None ==> res == Ok::<Option<[u8; 16]>, Md5Error>(None),
        md5_str matches Some(text) ==> {
            let bytes = vstd::utf8::encode_utf8(text@);
            &&& res is Ok <==> bytes.len() == 32 && md5_pairs_good(bytes, 16)
            &&& res matches Ok(md5) ==> md5 matches Some(hash) && forall|i: int|
                0 <= i < 16 ==> md5_byte(bytes, i) == Some(#[trigger] hash@[i])
            &&& res matches Err(Md5Error::WrongLength(len)) ==> len == bytes.len() && len != 32
            &&& res matches Err(Md5Error::InvalidUtf8(at)) ==> bytes.len() == 32 && at < 16
                && md5_pairs_good(bytes, at as int) && !vstd::utf8::valid_utf8(
                bytes.subrange(2 * at, 2 * at + 2),
            )
            &&& res matches Err(Md5Error::InvalidHex(at)) ==> bytes.len() == 32 && at < 16
                && md5_pairs_good(bytes, at as int) && vstd::utf8::valid_utf8(
                bytes.subrange(2 * at, 2 * at + 2),
            ) && md5_byte(bytes, at as int) is None
        },
{
    let text = match md5_str {
        None => {
            return Ok(None);
        },
        Some(text) => text,
    };
    let bytes = text.as_bytes();
    if bytes.len() != 32 {
        return Err(Md5Error::WrongLength(bytes.len()));
    }
    let mut output: [u8; 16] = [0u8;16];
    let mut i: usize = 0;
    while i < 16
        invariant
            i <= 16,
            bytes@.len() == 32,
            md5_str == Some(text),
            bytes@ == vstd::utf8::encode_utf8(text@),
            md5_pairs_good(bytes@, i as int),
            forall|j: int| 0 <= j < i ==> md5_byte(bytes@, j) == Some(#[trigger] output@[j]),
        decreases 16 - i,
    {
        let pair = vstd::slice::slice_subrange(bytes, 2 * i, 2 * i + 2);
        let piece = match text_in(pair) {
            None => {
                assert(md5_byte(bytes@, i as int) is None);
                return Err(Md5Error::InvalidUtf8(i));
            },
            Some(piece) => piece,
        };
        proof {
            vstd::utf8::encode_utf8_decode_utf8(piece@);
        }
        let byte = match parse_hex_byte(piece) {
            None => {
                assert(md5_byte(bytes@, i as int) is None);
                return Err(Md5Error::InvalidHex(i));
            },
            Some(byte) => byte,
        };
        output[i] = byte;
        i += 1;
    }
    Ok(Some(output))
}

/// Write an MD5 hash as 32 hexadecimal digits in lower case. A hash that is
/// missing stays missing.
pub fn serialize_md5(md5: &Option<[u8; 16]>) -> (text: Option<String>)
    ensures
        match *md5 {
            Some(hash) => text matches Some(digits) && digits@ == hex_text(hash@),
            None => text is None,
        },
{
    match md5 {
        Some(hash) => Some(hex_encode(hash.as_slice())),
        None => None,
    }
}

/// A hexadecimal digit is worth what it was written for.
proof fn lemma_hex_digit_value(n: u8)
    requires
        n < 16,
    ensures
        hex_value(crate::media_assets::media_asset::hex_digit(n)) == Some(n as nat),
        '\0' <= crate::media_assets::media_asset::hex_digit(n) <= '\u{7f}',
{
    let c = crate::media_assets::media_asset::hex_digit(n);
    if n < 10 {
        assert(c as nat == 0x30 + n);
    } else {
        assert(c as nat == 0x57 + n);
    }
    assert(digit_value(c, 16) == Some(n as nat));
}

/// A hash that was written reads as itself: its 32 digits spell its 16
/// bytes, pair by pair.
pub proof fn lemma_md5_round_trip(hash: Seq<u8>)
    requires
        hash.len() == 16,
    ensures
        vstd::utf8::encode_utf8(hex_text(hash)).len() == 32,
        md5_pairs_good(vstd::utf8::encode_utf8(hex_text(hash)), 16),
        forall|i: int|
            0 <= i < 16 ==> md5_byte(vstd::utf8::encode_utf8(hex_text(hash)), i) == Some(
                #[trigger] hash[i],
            ),
{
    let written = hex_text(hash);
    let bytes = vstd::utf8::encode_utf8(written);
    assert forall|k: int| 0 <= k < written.len() implies '\0' <= #[trigger] written[k]
        <= '\u{7f}' by {
        lemma_hex_digit_value(hash[k / 2] / 16);
        lemma_hex_digit_value(hash[k / 2] % 16);
    }
    assert(vstd::utf8::is_ascii_chars(written));
    vstd::utf8::is_ascii_chars_encode_utf8(written);
    assert forall|i: int| 0 <= i < 16 implies md5_byte(bytes, i) == Some(#[trigger] hash[i]) by {
        let high = written[2 * i];
        let low = written[2 * i + 1];
        let digits = seq![high, low];
        let pair = bytes.subrange(2 * i, 2 * i + 2);
        assert(vstd::utf8::is_ascii_chars(digits));
        vstd::utf8::is_ascii_chars_encode_utf8(digits);
        assert(written[2 * i] as u8 == bytes[2 * i]);
        assert(written[2 * i + 1] as u8 == bytes[2 * i + 1]);
        assert(digits[0] as u8 == vstd::utf8::encode_utf8(digits)[0]);
        assert(digits[1] as u8 == vstd::utf8::encode_utf8(digits)[1]);
        assert(pair =~= vstd::utf8::encode_utf8(digits));
        vstd::utf8::encode_utf8_valid_utf8(digits);
        vstd::utf8::encode_utf8_decode_utf8(digits);
        lemma_hex_digit_value(hash[i] / 16);
        lemma_hex_digit_value(hash[i] % 16);
        assert(high == crate::media_assets::media_asset::hex_digit(hash[i] / 16));
        assert(low == crate::media_assets::media_asset::hex_digit(hash[i] % 16));
        assert(digits.drop_last() =~= seq![high]);
        assert(hex_number(seq![high]) == Some((hash[i] / 16) as nat));
        assert(hex_number(digits) == Some(((hash[i] / 16) * 16 + hash[i] % 16) as nat));
        assert(high != '+');
    }
}

/// `std::str::from_utf8`: the text that the bytes are in UTF-8, or `None`
/// where they are no UTF-8.
#[verifier::external_body]
fn text_in(bytes: &[u8]) -> (text: Option<&str>)
    ensures
        text is Some <==> vstd::utf8::valid_utf8(bytes@),
        text matches Some(t) ==> vstd::utf8::encode_utf8(t@) == bytes@,
{
    std::str::from_utf8(bytes).ok()
}

/// Read the byte that a text spells in base 16, as `u8::from_str_radix`
/// reads it: hexadecimal digits after at most one `+`, and no more than 255.
fn parse_hex_byte(text: &str) -> (byte: Option<u8>)
    ensures
        byte == hex_byte(text@),
{
    let chars = chars_of(text);
    let start: usize = if chars.len() > 0 && chars[0] == '+' {
        1
    } else {
        0
    };
    assert(chars@.subrange(1, chars@.len() as int) =~= chars@.drop_first());
    assert(chars@.subrange(0, chars@.len() as int) =~= chars@);
    match read_number(&chars, start, 16, 255) {
        Some(number) => if number <= 255 {
            Some(number as u8)
        } else {
            None
        },
        None => None,
    }
}

/// Every tag of `a` stands in `b` as often as in `a`.
spec fn covered_spec(a: Seq<Seq<char>>, b: Seq<Seq<char>>) -> bool {
    forall|i: int|
        0 <= i < a.len() ==> occurrences(a, #[trigger] a[i]) == occurrences(b, a[i])
}

} // verus!
