//! What the store does with a request: answer from its index, or download,
//! and then what it writes for a finished download.
//!
//! The tables themselves live in a database; [`StoreModel`] says what they
//! hold, and the laws at the end of this file are stated over it.

use crate::media_assets::media_asset::MediaAsset;
use crate::media_assets::media_type::MediaType;
use vstd::prelude::*;

verus! {

/// What the asset table holds under one hash.
#[derive(Clone, Copy, Debug, PartialEq, Eq, Structural)]
pub struct StoredAsset {
    pub size: u32,
    pub media_type: MediaType,
}

/// What is written to the asset table for a finished download.
#[derive(Clone, Copy, Debug, PartialEq, Eq, Structural)]
pub enum AssetWrite {
    /// The hash is new: insert the row.
    Create(StoredAsset),
    /// The hash is known, its type was not: set the type.
    Upgrade(MediaType),
    /// The row stays as it is.
    Keep,
}

/// What the store does for a finished download: one write to the asset
/// table, the URL mapped to the hash, and the asset that is handed back.
/// What becomes of the temporary file follows from the write: see
/// [`file_step`].
#[derive(Clone, Copy, Debug)]
pub struct StorePlan {
    pub write: AssetWrite,
    pub asset: MediaAsset,
}

/// What becomes of the temporary file that a download was streamed into.
#[derive(Clone, Copy, Debug, PartialEq, Eq, Structural)]
pub enum FileStep {
    /// The content is new to the store: the file is moved to where the asset
    /// lies, once its row is written.
    MoveIntoPlace,
    /// The content is on disk already: the file is removed.
    Discard,
}

/// Decide what becomes of the temporary file of a finished download: it is
/// moved into place exactly when its asset is created, and removed when the
/// store holds the content already.
pub fn file_step(write: AssetWrite) -> (step: FileStep)
    ensures
        step == match write {
            AssetWrite::Create(_) => FileStep::MoveIntoPlace,
            _ => FileStep::Discard,
        },
{
    match write {
        AssetWrite::Create(_) => FileStep::MoveIntoPlace,
        _ => FileStep::Discard,
    }
}

/// Two contents of different size under one hash: the hash function is
/// broken, and the store must halt rather than go on.
#[derive(Clone, Copy, Debug)]
pub struct HashCollision {
    pub downloaded: MediaAsset,
    pub existing: StoredAsset,
}

/// Why a request for a media asset failed.
#[derive(Clone, Debug)]
pub enum MediaDownloadError {
    /// An error happened while creating, writing to, moving or deleting a file.
    FileManagementError(String),
    /// An error happened while making a web request.
    WebRequestError(String),
    /// An error happened during the download process.
    DownloadError(String),
    /// The file download is bigger than 4GB.
    FileTooBig,
    /// An error happened while recording the media asset or associated
    /// information in the database.
    DatabaseError(String),
}

/// What the worker does after it has looked a URL up in its index.
#[derive(Clone, Copy, Debug)]
pub enum UrlDecision {
    /// The URL is known: hand the asset back, without any network access.
    Reply(MediaAsset),
    /// The URL is new: download it.
    Download,
}

/// Decide on a request from what the index holds for its URL.
pub fn on_url_lookup(hit: Option<MediaAsset>) -> (decision: UrlDecision)
    ensures
        decision == match hit {
            Some(asset) => UrlDecision::Reply(asset),
            None => UrlDecision::Download,
        },
{
    match hit {
        Some(asset) => UrlDecision::Reply(asset),
        None => UrlDecision::Download,
    }
}

/// The plan for a download, or `None` where it collides with what is stored.
pub open spec fn spec_plan(downloaded: MediaAsset, existing: Option<StoredAsset>) -> Option<
    StorePlan,
> {
    match existing {
        None => Some(
            StorePlan {
                write: AssetWrite::Create(
                    StoredAsset { size: downloaded.size, media_type: downloaded.media_type },
                ),
                asset: downloaded,
            },
        ),
        Some(stored) => if stored.size != downloaded.size {
            None
        } else if stored.media_type == MediaType::Unknown && downloaded.media_type
            != MediaType::Unknown {
            Some(StorePlan { write: AssetWrite::Upgrade(downloaded.media_type), asset: downloaded })
        } else {
            Some(
                StorePlan {
                    write: AssetWrite::Keep,
                    asset: MediaAsset {
                        hash: downloaded.hash,
                        size: stored.size,
                        media_type: stored.media_type,
                    },
                },
            )
        },
    }
}

/// Decide what to write for a finished download. `existing` is what the
/// asset table holds under the hash of the download.
///
/// A new hash is inserted. A known hash with the same size is the same
/// content: its type is set where it was unknown and is known now, and the
/// stored asset is handed back. A known hash with another size is a
/// collision.
pub fn plan_store(downloaded: MediaAsset, existing: Option<StoredAsset>) -> (res: Result<
    StorePlan,
    HashCollision,
>)
    ensures
        res matches Ok(plan) ==> spec_plan(downloaded, existing) == Some(plan),
        res matches Err(collision) ==> spec_plan(downloaded, existing) is None
            && collision.downloaded == downloaded && existing == Some(collision.existing),
{
    match existing {
        None => Ok(
            StorePlan {
                write: AssetWrite::Create(
                    StoredAsset { size: downloaded.size, media_type: downloaded.media_type },
                ),
                asset: downloaded,
            },
        ),
        Some(stored) => {
            if stored.size != downloaded.size {
                Err(HashCollision { downloaded, existing: stored })
            } else if stored.media_type == MediaType::Unknown && downloaded.media_type
                != MediaType::Unknown {
                Ok(
                    StorePlan {
                        write: AssetWrite::Upgrade(downloaded.media_type),
                        asset: downloaded,
                    },
                )
            } else {
                Ok(
                    StorePlan {
                        write: AssetWrite::Keep,
                        asset: MediaAsset {
                            hash: downloaded.hash,
                            size: stored.size,
                            media_type: stored.media_type,
                        },
                    },
                )
            }
        },
    }
}

/// What the two tables of the store hold: the assets by their hash, and the
/// hash that each known URL leads to.
pub struct StoreModel {
    pub assets: Map<Seq<u8>, StoredAsset>,
    pub web: Map<Seq<char>, Seq<u8>>,
}

/// How a download ended, as far as the store is concerned.
pub enum Fetched {
    /// The download was given up; nothing of it is kept.
    Failed,
    /// The download came in whole, and this is the asset that it is.
    Asset(MediaAsset),
}

/// What a request came to.
pub enum Answer {
    /// The asset that the URL leads to.
    Asset(MediaAsset),
    /// The request failed; the requester may try again.
    Failed,
    /// The store found a hash collision and halts.
    Halted,
}

impl StoreModel {
    /// What the asset table holds under `hash`.
    pub open spec fn lookup_hash(self, hash: Seq<u8>) -> Option<StoredAsset> {
        if self.assets.dom().contains(hash) {
            Some(self.assets[hash])
        } else {
            None
        }
    }

    /// Whether the index leads from `url` to a stored asset.
    pub open spec fn knows(self, url: Seq<char>) -> bool {
        self.web.dom().contains(url) && self.assets.dom().contains(self.web[url])
    }

    /// Every URL of the index leads to a stored asset.
    pub open spec fn wf(self) -> bool {
        forall|url: Seq<char>| self.web.dom().contains(url) ==> self.assets.dom().contains(
            #[trigger] self.web[url],
        )
    }

    /// The tables after `plan` was carried out for a download from `url`.
    pub open spec fn apply(self, url: Seq<char>, plan: StorePlan) -> StoreModel {
        let hash = plan.asset.hash@;
        StoreModel {
            assets: match plan.write {
                AssetWrite::Create(row) => self.assets.insert(hash, row),
                AssetWrite::Upgrade(media_type) => self.assets.insert(
                    hash,
                    StoredAsset { size: self.assets[hash].size, media_type },
                ),
                AssetWrite::Keep => self.assets,
            },
            web: self.web.insert(url, hash),
        }
    }

    /// The tables after a request for `url` whose download, where one was
    /// made, ended as `fetched`; and what the requester is told. A URL that
    /// the index knows is answered from the tables, which stay as they are.
    pub open spec fn request(self, url: Seq<char>, fetched: Fetched) -> (StoreModel, Answer) {
        if self.knows(url) {
            (self, Answer::Asset(self.stored(url)))
        } else {
            match fetched {
                Fetched::Failed => (self, Answer::Failed),
                Fetched::Asset(downloaded) => match spec_plan(
                    downloaded,
                    self.lookup_hash(downloaded.hash@),
                ) {
                    None => (self, Answer::Halted),
                    Some(plan) => (self.apply(url, plan), Answer::Asset(plan.asset)),
                },
            }
        }
    }

    /// The asset that a known URL leads to. Its hash has 32 bytes wherever
    /// the store wrote it.
    pub open spec fn stored(self, url: Seq<char>) -> MediaAsset {
        let hash = self.web[url];
        let row = self.assets[hash];
        MediaAsset { hash: array_of(hash), size: row.size, media_type: row.media_type }
    }
}

/// The array that holds the 32 bytes of `bytes`.
pub open spec fn array_of(bytes: Seq<u8>) -> [u8; 32] {
    choose|array: [u8; 32]| array@ == bytes
}

/// Carrying a plan out keeps every URL of the index leading to a stored
/// asset.
pub proof fn lemma_apply_keeps_wf(model: StoreModel, url: Seq<char>, downloaded: MediaAsset)
    requires
        model.wf(),
        spec_plan(downloaded, model.lookup_hash(downloaded.hash@)) is Some,
    ensures
        model.apply(
            url,
            spec_plan(downloaded, model.lookup_hash(downloaded.hash@))->0,
        ).wf(),
        model.apply(url, spec_plan(downloaded, model.lookup_hash(downloaded.hash@))->0).knows(
            url,
        ),
{
    let plan = spec_plan(downloaded, model.lookup_hash(downloaded.hash@))->0;
    let after = model.apply(url, plan);
    assert(plan.asset.hash@ == downloaded.hash@);
    assert forall|other: Seq<char>|
        after.web.dom().contains(other) implies after.assets.dom().contains(
        #[trigger] after.web[other],
    ) by {
        if other != url {
            assert(model.web.dom().contains(other));
            assert(model.assets.dom().contains(model.web[other]));
        }
    }
}

/// Two downloads of the same content, one after the other: the second is
/// handed the hash of the first, the asset table holds no more hashes than
/// after the first, and both URLs lead to that one hash.
pub proof fn lemma_same_content_is_stored_once(
    model: StoreModel,
    first_url: Seq<char>,
    first: MediaAsset,
    second_url: Seq<char>,
    second: MediaAsset,
)
    requires
        model.wf(),
        !model.knows(first_url),
        !model.knows(second_url),
        first.hash@ == second.hash@,
        first.size == second.size,
        model.request(first_url, Fetched::Asset(first)).1 is Asset,
    ensures
        ({
            let (after_first, first_answer) = model.request(first_url, Fetched::Asset(first));
            let (after_second, second_answer) = after_first.request(
                second_url,
                Fetched::Asset(second),
            );
            &&& second_answer is Asset
            &&& second_answer->Asset_0.hash@ == first_answer->Asset_0.hash@
            &&& after_second.assets.dom() == after_first.assets.dom()
            &&& after_second.web.dom().contains(first_url)
            &&& after_second.web.dom().contains(second_url)
            &&& after_second.web[first_url] == first.hash@
            &&& after_second.web[second_url] == first.hash@
        }),
{
    let (after_first, first_answer) = model.request(first_url, Fetched::Asset(first));
    let first_plan = spec_plan(first, model.lookup_hash(first.hash@))->0;
    assert(after_first == model.apply(first_url, first_plan));
    assert(first_plan.asset.hash@ == first.hash@);
    assert(after_first.assets.dom().contains(first.hash@));
    assert(after_first.assets[first.hash@].size == first.size);
    lemma_apply_keeps_wf(model, first_url, first);
    if after_first.knows(second_url) {
        if second_url != first_url {
            assert(after_first.web.dom().contains(second_url));
            assert(model.web.dom().contains(second_url));
            assert(after_first.web[second_url] == model.web[second_url]);
            assert(model.assets.dom().contains(model.web[second_url]));
        }
        assert(after_first.web[second_url] == first.hash@);
        assert(array_of(first.hash@)@ == first.hash@);
    } else {
        let second_plan = spec_plan(second, after_first.lookup_hash(second.hash@))->0;
        assert(spec_plan(second, after_first.lookup_hash(second.hash@)) is Some);
        assert(second_plan.asset.hash@ == second.hash@);
        let after_second = after_first.apply(second_url, second_plan);
        assert(after_second.assets.dom() =~= after_first.assets.dom());
    }
}

/// The temporary file of a download is moved into place exactly when the
/// store did not hold its hash before; otherwise the content on disk stays
/// the one that was stored first.
pub proof fn lemma_file_is_moved_for_new_content(
    downloaded: MediaAsset,
    existing: Option<StoredAsset>,
)
    requires
        spec_plan(downloaded, existing) is Some,
    ensures
        (spec_plan(downloaded, existing)->0.write is Create) <==> existing is None,
{
}

/// A download that was given up, as one that passed the largest size is,
/// leaves both tables as they were: no asset and no mapping is created.
pub proof fn lemma_failed_download_writes_nothing(model: StoreModel, url: Seq<char>)
    ensures
        model.request(url, Fetched::Failed).0 == model,
        !model.knows(url) ==> model.request(url, Fetched::Failed).1 is Failed,
{
}

} // verus!
