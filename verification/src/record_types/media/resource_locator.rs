//! Where a media file lives on an imageboard.

use vstd::prelude::*;
use vstd::string::StringSliceAdditionalSpecFns;

verus! {

/// This represents a location of a media file on an imageboard.
/// From this, a web URL can be built. It leaves out what can change within
/// one imageboard, such as the CDN server to download from.
#[derive(Clone, Debug, Hash)]
pub enum MediaResourceLocator {
    /// This image is from the Danbooru imageboard.
    Danbooru {
        /// The hash string of the image, like `09bbe06d7f8c4bb3d2e992221693c21e`
        hash: String,
        /// The file extension of the image as it was uploaded, like `png`
        ext: String,
    },
}

pub enum MediaResourceLocatorView {
    Danbooru { hash: Seq<char>, ext: Seq<char> },
}

impl View for MediaResourceLocator {
    type V = MediaResourceLocatorView;

    open spec fn view(&self) -> MediaResourceLocatorView {
        match *self {
            MediaResourceLocator::Danbooru { hash, ext } => MediaResourceLocatorView::Danbooru {
                hash: hash@,
                ext: ext@,
            },
        }
    }
}

/// The bytes of the word `danbooru`, which open the hashed text of a
/// Danbooru locator.
pub open spec fn danbooru_prefix() -> Seq<u8> {
    seq![0x64u8, 0x61u8, 0x6eu8, 0x62u8, 0x6fu8, 0x6fu8, 0x72u8, 0x75u8]
}

/// The SHA-512 digest of `data`, 64 bytes long.
pub uninterp spec fn sha512(data: Seq<u8>) -> Seq<u8>;

/// The number that the bytes `bytes[0..n]` spell, most significant byte first.
pub open spec fn big_endian(bytes: Seq<u8>, n: nat) -> nat
    decreases n,
{
    if n == 0 {
        0
    } else {
        big_endian(bytes, (n - 1) as nat) * 256 + bytes[n - 1] as nat
    }
}

impl MediaResourceLocatorView {
    /// The text whose digest identifies the locator: the source's name, then
    /// the locator's parts, each in UTF-8.
    pub open spec fn hashed_text(self) -> Seq<u8> {
        match self {
            MediaResourceLocatorView::Danbooru { hash, ext } => danbooru_prefix()
                + vstd::utf8::encode_utf8(hash) + vstd::utf8::encode_utf8(ext),
        }
    }

    /// The first eight bytes of the digest of the hashed text, read as one
    /// number, most significant byte first.
    pub open spec fn true_hash(self) -> nat {
        big_endian(sha512(self.hashed_text()), 8)
    }
}

impl MediaResourceLocator {
    /// A stable 64-bit key for this locator, taken from its SHA-512 digest.
    pub fn true_hash_as_u64(&self) -> (key: u64)
        ensures
            key == self@.true_hash(),
    {
        let mut text: Vec<u8> = Vec::new();
        text.push(0x64u8);
        text.push(0x61u8);
        text.push(0x6eu8);
        text.push(0x62u8);
        text.push(0x6fu8);
        text.push(0x6fu8);
        text.push(0x72u8);
        text.push(0x75u8);
        assert(text@ =~= danbooru_prefix());
        match self {
            MediaResourceLocator::Danbooru { hash, ext } => {
                text.extend_from_slice(hash.as_str().as_bytes());
                text.extend_from_slice(ext.as_str().as_bytes());
            },
        }
        assert(text@ =~= self@.hashed_text());
        let digest = sha512_digest(text.as_slice());
        leading_u64(&digest)
    }
}

/// Read the first eight bytes of a digest as one number.
fn leading_u64(digest: &[u8; 64]) -> (key: u64)
    ensures
        key == big_endian(digest@, 8),
{
    let mut key: u64 = 0;
    let mut i: usize = 0;
    while i < 8
        invariant
            i <= 8,
            key == big_endian(digest@, i as nat),
            key < pow256(i as nat),
        decreases 8 - i,
    {
        proof {
            reveal_with_fuel(pow256, 10);
        }
        key = key * 256 + digest[i] as u64;
        i += 1;
    }
    key
}

/// `256^n`.
pub open spec fn pow256(n: nat) -> nat
    decreases n,
{
    if n == 0 {
        1
    } else {
        256 * pow256((n - 1) as nat)
    }
}

/// `sha2::Sha512::digest`: the digest is a function of the bytes alone, and
/// SHA-512 always gives 64 bytes.
#[verifier::external_body]
fn sha512_digest(data: &[u8]) -> (digest: [u8; 64])
    ensures
        digest@ == sha512(data@),
{
    <sha2::Sha512 as sha2::Digest>::digest(data).into()
}

} // verus!
