//! Danbooru's posts, tags and post versions as its listings give them.

pub mod post;
pub mod post_version;
pub mod record;
pub mod round_trip;
pub mod tag;
pub mod wire;

pub use post::Post;
pub use post_version::PostVersion;
pub use tag::Tag;

use crate::text::same_text;
use vstd::prelude::*;

verus! {

/// How explicit a post is.
#[derive(Debug, Clone, Copy, PartialEq, Eq, Structural, Hash)]
pub enum Rating {
    General,
    Sensitive,
    Questionable,
    Explicit,
}

impl Rating {
    /// The letter that the listings write for this rating.
    pub open spec fn spec_letter(self) -> Seq<char> {
        match self {
            Rating::General => "g"@,
            Rating::Sensitive => "s"@,
            Rating::Questionable => "q"@,
            Rating::Explicit => "e"@,
        }
    }

    /// The rating that a letter of the listings stands for, if any.
    pub open spec fn spec_from_letter(letter: Seq<char>) -> Option<Rating> {
        if letter == "g"@ {
            Some(Rating::General)
        } else if letter == "s"@ {
            Some(Rating::Sensitive)
        } else if letter == "q"@ {
            Some(Rating::Questionable)
        } else if letter == "e"@ {
            Some(Rating::Explicit)
        } else {
            None
        }
    }

    /// The letter that the listings write for this rating.
    pub fn letter(&self) -> (letter: &'static str)
        ensures
            letter@ == self.spec_letter(),
    {
        match self {
            Rating::General => "g",
            Rating::Sensitive => "s",
            Rating::Questionable => "q",
            Rating::Explicit => "e",
        }
    }

    /// Read a rating from its letter.
    pub fn from_letter(letter: &str) -> (rating: Option<Rating>)
        ensures
            rating == Rating::spec_from_letter(letter@),
    {
        if same_text(letter, "g") {
            Some(Rating::General)
        } else if same_text(letter, "s") {
            Some(Rating::Sensitive)
        } else if same_text(letter, "q") {
            Some(Rating::Questionable)
        } else if same_text(letter, "e") {
            Some(Rating::Explicit)
        } else {
            None
        }
    }
}

/// Every rating comes back from its own letter.
pub proof fn lemma_rating_round_trip(rating: Rating)
    ensures
        Rating::spec_from_letter(rating.spec_letter()) == Some(rating),
{
    reveal_strlit("g");
    reveal_strlit("s");
    reveal_strlit("q");
    reveal_strlit("e");
    assert("g"@[0] == 'g' && "s"@[0] == 's' && "q"@[0] == 'q' && "e"@[0] == 'e');
}

} // verus!
