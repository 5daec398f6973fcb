//! Lists of tags written as one text, the tags parted by spaces.

use crate::text::{chars_of, text_of};
use vstd::prelude::*;
use vstd::string::StringExecFns;

verus! {

/// Whether `c` is white space, as `char::is_whitespace` tells it: one of the
/// characters that Unicode gives the property White_Space.
pub open spec fn is_whitespace(c: char) -> bool {
    let code = c as nat;
    ||| 0x09 <= code <= 0x0d
    ||| code == 0x20
    ||| code == 0x85
    ||| code == 0xa0
    ||| code == 0x1680
    ||| 0x2000 <= code <= 0x200a
    ||| code == 0x2028
    ||| code == 0x2029
    ||| code == 0x202f
    ||| code == 0x205f
    ||| code == 0x3000
}

/// Whether `c` is white space.
pub fn is_white_space(c: char) -> (b: bool)
    ensures
        b == is_whitespace(c),
{
    let code = c as u32;
    (0x09 <= code && code <= 0x0d) || code == 0x20 || code == 0x85 || code == 0xa0 || code
        == 0x1680 || (0x2000 <= code && code <= 0x200a) || code == 0x2028 || code == 0x2029
        || code == 0x202f || code == 0x205f || code == 0x3000
}

/// The texts of a list of strings.
pub open spec fn texts(list: Seq<String>) -> Seq<Seq<char>> {
    Seq::new(list.len(), |i: int| list[i]@)
}

/// A piece between two spaces is a tag if it holds anything but white space.
pub open spec fn is_tag(piece: Seq<char>) -> bool {
    exists|i: int| 0 <= i < piece.len() && !is_whitespace(#[trigger] piece[i])
}

/// What follows the last space of `text`; all of it where it holds none.
pub open spec fn open_piece(text: Seq<char>) -> Seq<char>
    decreases text.len(),
{
    if text.len() == 0 || text.last() == ' ' {
        Seq::<char>::empty()
    } else {
        open_piece(text.drop_last()).push(text.last())
    }
}

/// The tags among the pieces of `text` that a space ends, in order.
pub open spec fn closed_tags(text: Seq<char>) -> Seq<Seq<char>>
    decreases text.len(),
{
    if text.len() == 0 {
        Seq::<Seq<char>>::empty()
    } else if text.last() == ' ' && is_tag(open_piece(text.drop_last())) {
        closed_tags(text.drop_last()).push(open_piece(text.drop_last()))
    } else {
        closed_tags(text.drop_last())
    }
}

/// The tags of `text`: its pieces between single spaces, without those that
/// are empty or hold white space only.
pub open spec fn tags_of(text: Seq<char>) -> Seq<Seq<char>> {
    if is_tag(open_piece(text)) {
        closed_tags(text).push(open_piece(text))
    } else {
        closed_tags(text)
    }
}

/// Read a list of tags from a text in which spaces part them.
pub fn deserialize_tag_string(tags: &str) -> (list: Vec<String>)
    ensures
        texts(list@) == tags_of(tags@),
{
    let chars = chars_of(tags);
    let mut list: Vec<String> = Vec::new();
    let mut piece: Vec<char> = Vec::new();
    let mut solid = false;
    let mut i: usize = 0;
    assert(chars@.take(0) =~= Seq::<char>::empty());
    assert(texts(list@) =~= closed_tags(chars@.take(0)));
    while i < chars.len()
        invariant
            i <= chars.len(),
            texts(list@) == closed_tags(chars@.take(i as int)),
            piece@ == open_piece(chars@.take(i as int)),
            solid == is_tag(piece@),
        decreases chars.len() - i,
    {
        let c = chars[i];
        let ghost before = chars@.take(i as int);
        let ghost now = chars@.take(i + 1);
        assert(now.drop_last() =~= before);
        assert(now.last() == c);
        if c == ' ' {
            if solid {
                let tag = text_of(&piece);
                let ghost listed = list@;
                list.push(tag);
                assert(texts(list@) =~= texts(listed).push(piece@));
            }
            piece = Vec::new();
            solid = false;
            assert(piece@ =~= open_piece(now));
        } else {
            let ghost held = piece@;
            piece.push(c);
            if !is_white_space(c) {
                solid = true;
                assert(!is_whitespace(piece@[piece@.len() - 1]));
            } else {
                assert(is_tag(held) ==> is_tag(piece@)) by {
                    if is_tag(held) {
                        let at = choose|at: int| 0 <= at < held.len() && !is_whitespace(held[at]);
                        assert(piece@[at] == held[at]);
                    }
                }
                assert(is_tag(piece@) ==> is_tag(held)) by {
                    if is_tag(piece@) {
                        let at = choose|at: int|
                            0 <= at < piece@.len() && !is_whitespace(piece@[at]);
                        assert(at < held.len());
                        assert(held[at] == piece@[at]);
                    }
                }
            }
        }
        i += 1;
    }
    assert(chars@.take(i as int) =~= tags@);
    if solid {
        let tag = text_of(&piece);
        let ghost listed = list@;
        list.push(tag);
        assert(texts(list@) =~= texts(listed).push(piece@));
    }
    list
}

/// The first `n` tags of `tags`, written one after the other with one space
/// between any two neighbours, and none before the first or after the last.
pub open spec fn joined(tags: Seq<Seq<char>>, n: nat) -> Seq<char>
    decreases n,
{
    if n == 0 {
        Seq::<char>::empty()
    } else if n == 1 {
        tags[0]
    } else {
        joined(tags, (n - 1) as nat).push(' ') + tags[n - 1]
    }
}

/// Write a list of tags as one text: the tags in their order, with one space
/// between any two neighbours.
pub fn serialize_tag_string(tags: &Vec<String>) -> (text: String)
    ensures
        text@ == joined(texts(tags@), tags@.len()),
{
    let mut text = String::new();
    let mut i: usize = 0;
    while i < tags.len()
        invariant
            i <= tags.len(),
            text@ == joined(texts(tags@), i as nat),
        decreases tags.len() - i,
    {
        if i > 0 {
            text.push(' ');
        }
        text.append(tags[i].as_str());
        assert(texts(tags@)[i as int] == tags@[i as int]@);
        assert(i == 0 ==> text@ =~= texts(tags@)[0]);
        i += 1;
    }
    text
}

/// A word without a space lengthens the piece that is open and ends none.
proof fn lemma_word_extends_open_piece(text: Seq<char>, word: Seq<char>)
    requires
        !word.contains(' '),
    ensures
        open_piece(text + word) == open_piece(text) + word,
        closed_tags(text + word) == closed_tags(text),
    decreases word.len(),
{
    if word.len() == 0 {
        assert(text + word =~= text);
        assert(open_piece(text) + word =~= open_piece(text));
    } else {
        let shorter = word.drop_last();
        assert(!shorter.contains(' ')) by {
            if shorter.contains(' ') {
                let at = choose|at: int| 0 <= at < shorter.len() && shorter[at] == ' ';
                assert(word[at] == ' ');
            }
        }
        lemma_word_extends_open_piece(text, shorter);
        assert((text + word).drop_last() =~= text + shorter);
        assert((text + word).last() == word.last());
        assert(word.last() != ' ') by {
            assert(word[word.len() - 1] == word.last());
        }
        assert(open_piece(text) + word =~= (open_piece(text) + shorter).push(word.last()));
    }
}

/// Whether a list of tags can be written as one text and read back: every
/// tag holds something besides white space, and no space.
pub open spec fn writable_tags(tags: Seq<Seq<char>>) -> bool {
    forall|i: int| 0 <= i < tags.len() ==> is_tag(#[trigger] tags[i]) && !tags[i].contains(' ')
}

/// In the text of the first `n` tags the last of them is the piece that is
/// open, and the tags before it are the closed ones.
proof fn lemma_joined_pieces(tags: Seq<Seq<char>>, n: nat)
    requires
        writable_tags(tags),
        1 <= n <= tags.len(),
    ensures
        open_piece(joined(tags, n)) == tags[n - 1],
        closed_tags(joined(tags, n)) == tags.take(n - 1),
    decreases n,
{
    let tag = tags[n - 1];
    if n == 1 {
        lemma_word_extends_open_piece(Seq::<char>::empty(), tag);
        assert(Seq::<char>::empty() + tag =~= tag);
        assert(tags.take(0) =~= Seq::<Seq<char>>::empty());
    } else {
        let before = joined(tags, (n - 1) as nat);
        lemma_joined_pieces(tags, (n - 1) as nat);
        let parted = before.push(' ');
        assert(parted.drop_last() =~= before);
        assert(is_tag(tags[n - 2]));
        assert(closed_tags(parted) == tags.take(n - 2).push(tags[n - 2]));
        assert(tags.take(n - 1) =~= tags.take(n - 2).push(tags[n - 2]));
        assert(open_piece(parted) == Seq::<char>::empty());
        lemma_word_extends_open_piece(parted, tag);
        assert(Seq::<char>::empty() + tag =~= tag);
    }
}

/// A list of tags that was written as one text reads as itself: the same
/// tags, in the same order, each as often as it stood in the list.
pub proof fn lemma_tags_round_trip(tags: Seq<Seq<char>>)
    requires
        writable_tags(tags),
    ensures
        tags_of(joined(tags, tags.len())) == tags,
{
    if tags.len() == 0 {
        assert(tags =~= Seq::<Seq<char>>::empty());
    } else {
        lemma_joined_pieces(tags, tags.len());
        assert(tags.take(tags.len() - 1).push(tags[tags.len() - 1]) =~= tags);
    }
}

/// The text of a list of tags is what is written again for the tags that
/// were read from it: such a text is left as it is.
pub proof fn lemma_written_tags_are_fixed(tags: Seq<Seq<char>>)
    requires
        writable_tags(tags),
    ensures
        joined(tags_of(joined(tags, tags.len())), tags.len()) == joined(tags, tags.len()),
{
    lemma_tags_round_trip(tags);
}

} // verus!
