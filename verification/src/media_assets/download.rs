//! Measuring a download while it streams in: its size, its content hash and,
//! at the end, the asset that it is.

use crate::media_assets::media_asset::MediaAsset;
use crate::media_assets::media_type::MediaType;
use crate::text::{chars_of, text_of};
use sha2::Digest;
use vstd::prelude::*;
use vstd::string::StringExecFns;

verus! {

/// The largest size of an asset, in bytes: one below 4 GiB.
pub const MAX_ASSET_SIZE: u64 = 0xffff_ffff;

/// The download has passed the largest size of an asset.
#[derive(Clone, Copy, Debug, PartialEq, Eq, Structural)]
pub struct FileTooBig;

/// The SHA-256 digest of `data`, 32 bytes long.
pub uninterp spec fn sha256(data: Seq<u8>) -> Seq<u8>;

/// A running SHA-256 computation: a `sha2::Sha256`, which is reached
/// through the three functions below and seen through [`absorbed`] only.
#[verifier::external_body]
pub struct ContentHasher {
    state: sha2::Sha256,
}

/// The bytes that a hasher has taken in so far, in order.
pub uninterp spec fn absorbed(hasher: ContentHasher) -> Seq<u8>;

/// `sha2::Sha256::new`: a hasher that has taken in nothing.
#[verifier::external_body]
fn hasher_new() -> (hasher: ContentHasher)
    ensures
        absorbed(hasher) == Seq::<u8>::empty(),
{
    ContentHasher { state: sha2::Sha256::new() }
}

/// `Digest::update`: the hasher takes in `data` after what it has.
#[verifier::external_body]
fn hasher_update(hasher: &mut ContentHasher, data: &[u8])
    ensures
        absorbed(*final(hasher)) == absorbed(*old(hasher)) + data@,
{
    hasher.state.update(data);
}

/// `Digest::finalize`: the SHA-256 digest of all that the hasher took in.
#[verifier::external_body]
fn hasher_finalize(hasher: ContentHasher) -> (digest: [u8; 32])
    ensures
        digest@ == sha256(absorbed(hasher)),
{
    hasher.state.finalize().into()
}

/// A download under way.
pub struct Download {
    hasher: ContentHasher,
    size: u64,
}

/// What follows position `dot` of `url`.
pub open spec fn after(url: Seq<char>, dot: int) -> Seq<char> {
    url.subrange(dot + 1, url.len() as int)
}

/// Whether `dot` is where the last `.` of `url` stands.
pub open spec fn is_last_dot(url: Seq<char>, dot: int) -> bool {
    &&& 0 <= dot < url.len()
    &&& url[dot] == '.'
    &&& forall|i: int| dot < i < url.len() ==> url[i] != '.'
}

/// Whether a download that has received `received` bytes may take `chunk`
/// bytes more without passing the largest size of an asset.
pub fn fits(received: u64, chunk: usize) -> (fits: bool)
    ensures
        fits == (received + chunk <= MAX_ASSET_SIZE),
{
    received <= MAX_ASSET_SIZE && chunk as u64 <= MAX_ASSET_SIZE - received
}

impl Download {
    /// The bytes received so far.
    pub closed spec fn content(&self) -> Seq<u8> {
        absorbed(self.hasher)
    }

    /// The size is that of the content, and within the largest size.
    pub closed spec fn wf(&self) -> bool {
        self.size == absorbed(self.hasher).len() && self.size <= MAX_ASSET_SIZE
    }

    /// A download that has received nothing yet.
    pub fn begin() -> (download: Download)
        ensures
            download.wf(),
            download.content() == Seq::<u8>::empty(),
    {
        Download { hasher: hasher_new(), size: 0 }
    }

    /// The number of bytes received so far.
    pub fn size(&self) -> (size: u64)
        requires
            self.wf(),
        ensures
            size == self.content().len(),
            size <= MAX_ASSET_SIZE,
    {
        self.size
    }

    /// Take in the next chunk of the stream. A chunk that takes the download
    /// past the largest size is refused, and the download is to be given up.
    pub fn receive(&mut self, chunk: &[u8]) -> (res: Result<(), FileTooBig>)
        requires
            old(self).wf(),
        ensures
            final(self).wf(),
            res is Ok <==> old(self).content().len() + chunk@.len() <= MAX_ASSET_SIZE,
            res is Ok ==> final(self).content() == old(self).content() + chunk@,
            res is Err ==> final(self).content() == old(self).content(),
    {
        if !fits(self.size, chunk.len()) {
            return Err(FileTooBig);
        }
        hasher_update(&mut self.hasher, chunk);
        self.size = self.size + chunk.len() as u64;
        Ok(())
    }

    /// Close the download: the asset that was downloaded from `url`. Its hash
    /// is that of the content, its type that of the extension of `url`.
    pub fn finish(self, url: &str) -> (asset: MediaAsset)
        requires
            self.wf(),
        ensures
            asset.hash@ == sha256(self.content()),
            asset.size == self.content().len(),
            asset.media_type == MediaType::spec_from_extension(url_extension(url@)),
    {
        let size = self.size as u32;
        let hash = hasher_finalize(self.hasher);
        let extension = extension_in(url);
        MediaAsset { hash, size, media_type: MediaType::from_extension(extension.as_str()) }
    }
}

/// What follows the last `.` of `url`; all of `url` where it holds none.
pub open spec fn url_extension(url: Seq<char>) -> Seq<char> {
    if exists|dot: int| is_last_dot(url, dot) {
        after(url, choose|dot: int| is_last_dot(url, dot))
    } else {
        url
    }
}

/// The extension of `url`, by which its media type is told.
pub fn extension_in(url: &str) -> (extension: String)
    ensures
        extension@ == url_extension(url@),
{
    let chars = chars_of(url);
    let mut start: usize = 0;
    let mut i: usize = 0;
    let ghost mut found: Option<int> = None;
    while i < chars.len()
        invariant
            i <= chars.len(),
            start <= i,
            found matches Some(dot) ==> start == dot + 1 && 0 <= dot < i && chars@[dot] == '.'
                && forall|j: int| dot < j < i ==> chars@[j] != '.',
            found is None ==> start == 0 && forall|j: int| 0 <= j < i ==> chars@[j] != '.',
        decreases chars.len() - i,
    {
        if chars[i] == '.' {
            start = i + 1;
            proof {
                found = Some(i as int);
            }
        }
        i += 1;
    }
    let mut tail: Vec<char> = Vec::new();
    let mut k: usize = start;
    while k < chars.len()
        invariant
            start <= k <= chars.len(),
            tail@ == chars@.subrange(start as int, k as int),
        decreases chars.len() - k,
    {
        tail.push(chars[k]);
        assert(tail@ =~= chars@.subrange(start as int, k + 1));
        k += 1;
    }
    proof {
        match found {
            Some(dot) => {
                assert(is_last_dot(url@, dot));
                let chosen = choose|d: int| is_last_dot(url@, d);
                assert(chosen == dot) by {
                    if chosen < dot {
                        assert(url@[dot] != '.');
                    } else if chosen > dot {
                        assert(url@[chosen] != '.');
                    }
                }
            },
            None => {
                assert(!exists|d: int| is_last_dot(url@, d));
                assert(tail@ =~= url@);
            },
        }
    }
    text_of(&tail)
}

/// Whether `text` has the form in which a UUID is written: 36 characters,
/// hyphens at places 8, 13, 18 and 23, and lower-case hexadecimal digits
/// elsewhere.
pub open spec fn is_uuid_text(text: Seq<char>) -> bool {
    &&& text.len() == 36
    &&& forall|i: int|
        0 <= i < 36 ==> if i == 8 || i == 13 || i == 18 || i == 23 {
            #[trigger] text[i] == '-'
        } else {
            ('0' <= text[i] && text[i] <= '9') || ('a' <= text[i] && text[i] <= 'f')
        }
}

/// `uuid::Uuid::new_v4`, written as text. Which UUID comes is up to chance;
/// every one is written in the same form.
#[verifier::external_body]
fn random_uuid() -> (text: String)
    ensures
        is_uuid_text(text@),
{
    uuid::Uuid::new_v4().to_string()
}

/// The name of a fresh temporary file to stream a download into: a random
/// UUID, then `.tmp`, so that it is never taken for an asset. It is a plain
/// file name, with nothing in it that parts directories.
pub fn temporary_file_name() -> (name: String)
    ensures
        name@.len() == 40,
        is_uuid_text(name@.subrange(0, 36)),
        name@.subrange(36, 40) == ".tmp"@,
        !name@.contains('/'),
{
    let mut name = random_uuid();
    let ghost stem = name@;
    name.append(".tmp");
    proof {
        reveal_strlit(".tmp");
        assert(name@ == stem + ".tmp"@);
        assert(name@.subrange(0, 36) =~= stem);
        assert(name@.subrange(36, 40) =~= ".tmp"@);
        if name@.contains('/') {
            let at = choose|at: int| 0 <= at < name@.len() && name@[at] == '/';
            if at < 36 {
                assert(stem[at] == '/');
            } else {
                assert(".tmp"@[at - 36] == '/');
            }
        }
    }
    name
}

} // verus!
