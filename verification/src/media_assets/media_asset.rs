//! One stored media file.

use crate::media_assets::media_type::MediaType;
use vstd::prelude::*;
use vstd::string::StringExecFns;

verus! {

/// This struct represents a media asset: an image, video, etc.
///
/// Media assets in boorus are perennial: once uploaded and stored, they never
/// change. They are identified by the SHA-256 hash of their content, so that
/// two files with the same content are stored once.
#[derive(Debug, Clone, Copy, PartialEq, Eq, Hash)]
pub struct MediaAsset {
    /// The SHA-256 hash of this asset.
    pub hash: [u8; 32],
    /// The size of this asset, in bytes.
    pub size: u32,
    /// The media type of this asset.
    pub media_type: MediaType,
}

/// The lower-case hexadecimal digit for `n`, which is below 16.
pub open spec fn hex_digit(n: u8) -> char {
    if n < 10 {
        (0x30u8 + n) as char
    } else {
        (0x57u8 + n) as char
    }
}

/// The bytes of `data` in lower-case hexadecimal, two digits each.
pub open spec fn hex_text(data: Seq<u8>) -> Seq<char> {
    Seq::new(
        2 * data.len(),
        |i: int|
            if i % 2 == 0 {
                hex_digit(data[i / 2] / 16)
            } else {
                hex_digit(data[i / 2] % 16)
            },
    )
}

impl MediaAsset {
    /// Where the asset lies below the root of the store: two directories
    /// named by the first and the second byte of the hash, then the whole
    /// hash with the extension of the media type.
    pub open spec fn spec_path(&self) -> Seq<char> {
        hex_text(seq![self.hash@[0]]) + seq!['/'] + hex_text(seq![self.hash@[1]]) + seq!['/']
            + hex_text(self.hash@) + seq!['.'] + self.media_type.spec_extension()
    }

    /// Get the relative path where this asset should be stored.
    ///
    /// For example, a JPEG image with a hash that starts with `0xabcdef...`
    /// is stored at `ab/cd/abcdef...jpg`.
    pub fn path(&self) -> (path: String)
        ensures
            path@ == self.spec_path(),
    {
        let mut first: Vec<u8> = Vec::new();
        first.push(self.hash[0]);
        let mut second: Vec<u8> = Vec::new();
        second.push(self.hash[1]);
        assert(first@ =~= seq![self.hash@[0]]);
        assert(second@ =~= seq![self.hash@[1]]);
        proof {
            reveal_strlit("/");
            reveal_strlit(".");
            assert("/"@ =~= seq!['/']);
            assert("."@ =~= seq!['.']);
        }
        let mut path = hex_encode(first.as_slice());
        path.append("/");
        path.append(hex_encode(second.as_slice()).as_str());
        path.append("/");
        path.append(hex_encode(self.hash.as_slice()).as_str());
        path.append(".");
        path.append(self.media_type.extension());
        path
    }
}

/// `hex::encode`: every byte as two lower-case hexadecimal digits, in order.
#[verifier::external_body]
pub(crate) fn hex_encode(data: &[u8]) -> (text: String)
    ensures
        text@ == hex_text(data@),
{
    hex::encode(data)
}

} // verus!
