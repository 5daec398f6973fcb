//! What the Danbooru listings of posts, tags and post versions are turned
//! into: the records to submit, the files to download, and where the next
//! poll begins.

use crate::danbooru::post::Post;
use crate::danbooru::post_version::PostVersion;
use crate::danbooru::record::{PostState, Record, TagState};
use crate::danbooru::tag::Tag;
use crate::model::record::BooruRecord;
use crate::snowflake::{reinterpret_as_i64, u64_to_i64};
use vstd::prelude::*;

verus! {

/// The greatest of `last` and `ids`.
pub open spec fn greatest_id(last: u64, ids: Seq<u64>) -> u64
    decreases ids.len(),
{
    if ids.len() == 0 {
        last
    } else {
        let before = greatest_id(last, ids.drop_last());
        if ids.last() > before {
            ids.last()
        } else {
            before
        }
    }
}

/// The ID that follows `id`; the greatest ID is followed by itself.
pub open spec fn following(id: u64) -> u64 {
    if id < u64::MAX {
        (id + 1) as u64
    } else {
        id
    }
}

/// The IDs of a page of posts, in page order.
pub open spec fn post_ids(posts: Seq<Post>) -> Seq<u64> {
    Seq::new(posts.len(), |i: int| posts[i].id)
}

/// The IDs of a page of tags, in page order.
pub open spec fn tag_ids(tags: Seq<Tag>) -> Seq<u64> {
    Seq::new(tags.len(), |i: int| tags[i].id)
}

/// The record that states `post` as existing.
pub open spec fn post_record(post: Post) -> BooruRecord {
    BooruRecord::Danbooru(
        Record::Post { id: reinterpret_as_i64(post.id), state: PostState::Exists(post) },
    )
}

/// The record that states that there is no post under `id` yet.
pub open spec fn post_gap(id: u64) -> BooruRecord {
    BooruRecord::Danbooru(
        Record::Post { id: reinterpret_as_i64(id), state: PostState::MissingTemporarily },
    )
}

/// The record that states `tag` as existing.
pub open spec fn tag_record(tag: Tag) -> BooruRecord {
    BooruRecord::Danbooru(
        Record::Tag { id: reinterpret_as_i64(tag.id), state: TagState::Exists(tag) },
    )
}

/// The record that states that there is no tag under `id` yet.
pub open spec fn tag_gap(id: u64) -> BooruRecord {
    BooruRecord::Danbooru(
        Record::Tag { id: reinterpret_as_i64(id), state: TagState::MissingTemporarily },
    )
}

/// The record that states a version of a post.
pub open spec fn version_record(version: PostVersion) -> BooruRecord {
    BooruRecord::Danbooru(Record::PostVersion { id: version.id, state: version })
}

/// A file to download for a post.
#[derive(Clone, Debug)]
pub struct PostDownload {
    pub post_id: u64,
    pub url: String,
}

/// What is done for one page of posts.
#[derive(Debug)]
pub struct PostBatch {
    /// The records to submit, in this order.
    pub records: Vec<BooruRecord>,
    /// The files to download once the records are submitted.
    pub downloads: Vec<PostDownload>,
    /// The greatest post ID seen so far: the next page is asked for past it.
    pub last_post_id: u64,
}

/// What is done for one page of tags.
#[derive(Debug)]
pub struct TagBatch {
    /// The records to submit, in this order.
    pub records: Vec<BooruRecord>,
    /// The greatest tag ID seen so far.
    pub last_tag_id: u64,
}

/// What is done for one page of post versions.
#[derive(Debug)]
pub struct VersionBatch {
    /// The records to submit, in this order.
    pub records: Vec<BooruRecord>,
    /// The greatest version ID seen so far: the next page is asked for past
    /// it. It never moves back.
    pub last_post_version_id: i64,
}

/// Turn a page of posts into records.
///
/// Every post is stated as existing, in page order. After a page that held
/// any post, the ID past the greatest one is stated as missing for now. The
/// file of every post is to be downloaded.
pub fn post_batch(last_post_id: u64, posts: Vec<Post>) -> (batch: PostBatch)
    ensures
        batch.last_post_id == greatest_id(last_post_id, post_ids(posts@)),
        batch.records@.len() == posts@.len() + if posts@.len() > 0 {
            1int
        } else {
            0int
        },
        forall|i: int| 0 <= i < posts@.len() ==> #[trigger] batch.records@[i]
            == post_record(posts@[i]),
        posts@.len() > 0 ==> batch.records@[posts@.len() as int] == post_gap(
            following(batch.last_post_id),
        ),
        batch.downloads@.len() == posts@.len(),
        forall|i: int|
            0 <= i < posts@.len() ==> (#[trigger] batch.downloads@[i]).post_id == posts@[i].id
                && batch.downloads@[i].url@ == posts@[i].url@,
{
    let mut records: Vec<BooruRecord> = Vec::new();
    let mut downloads: Vec<PostDownload> = Vec::new();
    let mut last = last_post_id;
    let count = posts.len();
    let ghost page = posts@;
    assert(post_ids(page).take(0) =~= Seq::<u64>::empty());
    for post in it: posts
        invariant
            it.seq() == page,
            count == page.len(),
            last == greatest_id(last_post_id, post_ids(page).take(it.index() as int)),
            records@.len() == it.index(),
            downloads@.len() == it.index(),
            forall|i: int| 0 <= i < it.index() ==> #[trigger] records@[i] == post_record(page[i]),
            forall|i: int|
                0 <= i < it.index() ==> (#[trigger] downloads@[i]).post_id == page[i].id
                    && downloads@[i].url@ == page[i].url@,
    {
        assert(post_ids(page).take(it.index() + 1).drop_last() =~= post_ids(page).take(
            it.index() as int,
        ));
        if post.id > last {
            last = post.id;
        }
        downloads.push(PostDownload { post_id: post.id, url: post.url.clone() });
        records.push(
            BooruRecord::Danbooru(
                Record::Post { id: u64_to_i64(post.id), state: PostState::Exists(post) },
            ),
        );
    }
    assert(post_ids(page).take(page.len() as int) =~= post_ids(page));
    if count > 0 {
        let next = if last < u64::MAX {
            last + 1
        } else {
            last
        };
        records.push(
            BooruRecord::Danbooru(
                Record::Post { id: u64_to_i64(next), state: PostState::MissingTemporarily },
            ),
        );
    }
    PostBatch { records, downloads, last_post_id: last }
}

/// Turn a page of tags into records.
///
/// Every tag is stated as existing, in page order. After a page that held
/// any tag, the ID past the greatest one is stated as missing for now.
pub fn tag_batch(last_tag_id: u64, tags: Vec<Tag>) -> (batch: TagBatch)
    ensures
        batch.last_tag_id == greatest_id(last_tag_id, tag_ids(tags@)),
        batch.records@.len() == tags@.len() + if tags@.len() > 0 {
            1int
        } else {
            0int
        },
        forall|i: int| 0 <= i < tags@.len() ==> #[trigger] batch.records@[i]
            == tag_record(tags@[i]),
        tags@.len() > 0 ==> batch.records@[tags@.len() as int] == tag_gap(
            following(batch.last_tag_id),
        ),
{
    let mut records: Vec<BooruRecord> = Vec::new();
    let mut last = last_tag_id;
    let count = tags.len();
    let ghost page = tags@;
    assert(tag_ids(page).take(0) =~= Seq::<u64>::empty());
    for tag in it: tags
        invariant
            it.seq() == page,
            count == page.len(),
            last == greatest_id(last_tag_id, tag_ids(page).take(it.index() as int)),
            records@.len() == it.index(),
            forall|i: int| 0 <= i < it.index() ==> #[trigger] records@[i] == tag_record(page[i]),
    {
        assert(tag_ids(page).take(it.index() + 1).drop_last() =~= tag_ids(page).take(
            it.index() as int,
        ));
        if tag.id > last {
            last = tag.id;
        }
        records.push(
            BooruRecord::Danbooru(
                Record::Tag { id: u64_to_i64(tag.id), state: TagState::Exists(tag) },
            ),
        );
    }
    assert(tag_ids(page).take(page.len() as int) =~= tag_ids(page));
    if count > 0 {
        let next = if last < u64::MAX {
            last + 1
        } else {
            last
        };
        records.push(
            BooruRecord::Danbooru(
                Record::Tag { id: u64_to_i64(next), state: TagState::MissingTemporarily },
            ),
        );
    }
    TagBatch { records, last_tag_id: last }
}

/// The IDs of a page of post versions, in page order.
pub open spec fn version_ids(versions: Seq<PostVersion>) -> Seq<i64> {
    Seq::new(versions.len(), |i: int| versions[i].id)
}

/// The greatest of `last` and `ids`.
pub open spec fn greatest_version_id(last: i64, ids: Seq<i64>) -> i64
    decreases ids.len(),
{
    if ids.len() == 0 {
        last
    } else {
        let before = greatest_version_id(last, ids.drop_last());
        if ids.last() > before {
            ids.last()
        } else {
            before
        }
    }
}

/// Turn a page of post versions into records: every version is stated, in
/// page order, and the next page is asked for past the greatest version ID
/// seen so far, whatever the order of the page.
pub fn version_batch(last_post_version_id: i64, versions: Vec<PostVersion>) -> (batch:
    VersionBatch)
    ensures
        batch.last_post_version_id == greatest_version_id(
            last_post_version_id,
            version_ids(versions@),
        ),
        batch.records@.len() == versions@.len(),
        forall|i: int|
            0 <= i < versions@.len() ==> #[trigger] batch.records@[i] == version_record(
                versions@[i],
            ),
{
    let mut records: Vec<BooruRecord> = Vec::new();
    let mut last = last_post_version_id;
    let ghost page = versions@;
    assert(version_ids(page).take(0) =~= Seq::<i64>::empty());
    for version in it: versions
        invariant
            it.seq() == page,
            last == greatest_version_id(
                last_post_version_id,
                version_ids(page).take(it.index() as int),
            ),
            records@.len() == it.index(),
            forall|i: int|
                0 <= i < it.index() ==> #[trigger] records@[i] == version_record(page[i]),
    {
        assert(version_ids(page).take(it.index() + 1).drop_last() =~= version_ids(page).take(
            it.index() as int,
        ));
        if version.id > last {
            last = version.id;
        }
        records.push(BooruRecord::Danbooru(Record::PostVersion { id: version.id, state: version }));
    }
    assert(version_ids(page).take(page.len() as int) =~= version_ids(page));
    VersionBatch { records, last_post_version_id: last }
}

/// The cursor of posts and tags never moves back, and lies at or past every
/// ID of the page.
pub proof fn lemma_greatest_id_bounds(last: u64, ids: Seq<u64>)
    ensures
        greatest_id(last, ids) >= last,
        forall|i: int| 0 <= i < ids.len() ==> greatest_id(last, ids) >= #[trigger] ids[i],
        greatest_id(last, ids) == last || ids.contains(greatest_id(last, ids)),
    decreases ids.len(),
{
    if ids.len() > 0 {
        let before = ids.drop_last();
        lemma_greatest_id_bounds(last, before);
        assert forall|i: int| 0 <= i < ids.len() implies greatest_id(last, ids)
            >= #[trigger] ids[i] by {
            if i < ids.len() - 1 {
                assert(before[i] == ids[i]);
            }
        }
        if greatest_id(last, ids) != last {
            if greatest_id(last, ids) == ids.last() {
                assert(ids[ids.len() - 1] == ids.last());
            } else {
                let at = choose|at: int|
                    0 <= at < before.len() && before[at] == greatest_id(last, before);
                assert(ids[at] == greatest_id(last, ids));
            }
        }
    }
}

/// The cursor of post versions never moves back, and lies at or past every
/// ID of the page.
pub proof fn lemma_greatest_version_id_bounds(last: i64, ids: Seq<i64>)
    ensures
        greatest_version_id(last, ids) >= last,
        forall|i: int| 0 <= i < ids.len() ==> greatest_version_id(last, ids) >= #[trigger] ids[i],
        greatest_version_id(last, ids) == last || ids.contains(greatest_version_id(last, ids)),
    decreases ids.len(),
{
    if ids.len() > 0 {
        let before = ids.drop_last();
        lemma_greatest_version_id_bounds(last, before);
        assert forall|i: int| 0 <= i < ids.len() implies greatest_version_id(last, ids)
            >= #[trigger] ids[i] by {
            if i < ids.len() - 1 {
                assert(before[i] == ids[i]);
            }
        }
        if greatest_version_id(last, ids) != last {
            if greatest_version_id(last, ids) == ids.last() {
                assert(ids[ids.len() - 1] == ids.last());
            } else {
                let at = choose|at: int|
                    0 <= at < before.len() && before[at] == greatest_version_id(last, before);
                assert(ids[at] == greatest_version_id(last, ids));
            }
        }
    }
}

} // verus!
