//! What was written of Danbooru's listings reads as itself.

use crate::danbooru::post::Post;
use crate::danbooru::post_version::PostVersion;
use crate::danbooru::tag::Tag;
use crate::danbooru::wire::{maybe_text_tree, maybe_time_tree, maybe_u32_tree, md5_tree};
use crate::json::JsonTree;
use crate::tag_string::{lemma_tags_round_trip, texts, writable_tags};
use crate::wire::field::{
    field_texts,
    maybe_i64_tree,
    maybe_u64_tree,
    reads_back,
    tags_tree,
    texts_of,
    texts_tree,
    time_tree,
    writable,
};
use vstd::prelude::*;

verus! {

/// A list of texts that was written as a list of documents reads as itself.
pub proof fn lemma_texts_round_trip(list: Seq<Seq<char>>)
    ensures
        texts_of(texts_tree(list)->List_0) == Some(list),
{
    let items = texts_tree(list)->List_0;
    assert forall|i: int| 0 <= i < items.len() implies (#[trigger] items[i]) is Text by {}
    assert(texts_of(items)->0 =~= list);
}

impl Tag {
    /// Whether every point in time of a tag lies in a year that can be
    /// written: the years 0 to 9999.
    pub open spec fn years_writable(&self) -> bool {
        &&& writable(self.created_at)
        &&& writable(self.updated_at)
    }

    /// Whether every point in time of a tag is written as a text that
    /// reads as that point again.
    pub open spec fn times_read_back(&self) -> bool {
        &&& reads_back(self.created_at)
        &&& reads_back(self.updated_at)
    }
}

impl Tag {
    /// Whether `document` holds every field of a tag under its name, as
    /// it is written.
    pub open spec fn stands_in(&self, document: JsonTree) -> bool {
        let value = self;
        &&& document.member("id"@) == Some(JsonTree::Number(value.id as int))
        &&& document.member("name"@) == Some(JsonTree::Text(value.name@))
        &&& document.member("post_count"@) == Some(JsonTree::Number(value.post_count as int))
        &&& document.member("category"@)
            == Some(JsonTree::Number(value.category.spec_code() as int))
        &&& document.member("created_at"@) == Some(time_tree(value.created_at)->0)
        &&& document.member("updated_at"@) == Some(time_tree(value.updated_at)->0)
        &&& document.member("is_deprecated"@) == Some(JsonTree::Bool(value.is_deprecated))
    }
}

/// The document of a tag holds every field under its name: no name
/// stands for two fields.
proof fn lemma_tag_round_trip_members(value: Tag)
    ensures
        value.stands_in(value.document()),
{
    reveal_strlit("id");
    reveal_strlit("name");
    reveal_strlit("post_count");
    reveal_strlit("category");
    reveal_strlit("created_at");
    reveal_strlit("updated_at");
    reveal_strlit("is_deprecated");
    assert("id"@.len() == 2);
    assert("name"@.len() == 4);
    assert("post_count"@.len() == 10 && "post_count"@[0] == 'p');
    assert("category"@.len() == 8);
    assert("created_at"@.len() == 10 && "created_at"@[0] == 'c');
    assert("updated_at"@.len() == 10 && "updated_at"@[0] == 'u');
    assert("is_deprecated"@.len() == 13);
    let document = value.document();
    assert(document.member("id"@) == Some(JsonTree::Number(value.id as int)));
    assert(document.member("name"@) == Some(JsonTree::Text(value.name@)));
    assert(document.member("post_count"@) == Some(JsonTree::Number(value.post_count as int)));
    assert(document.member("category"@)
        == Some(JsonTree::Number(value.category.spec_code() as int)));
    assert(document.member("created_at"@) == Some(time_tree(value.created_at)->0));
    assert(document.member("updated_at"@) == Some(time_tree(value.updated_at)->0));
    assert(document.member("is_deprecated"@) == Some(JsonTree::Bool(value.is_deprecated)));
}

/// A document that holds every field of a tag under its name has all
/// that is needed to read it, and reads as that value.
proof fn lemma_tag_round_trip_reading(value: Tag, document: JsonTree)
    requires
        value.stands_in(document),
        value.times_read_back(),
    ensures
        Tag::readable(document),
        value.reads(document),
{
    crate::danbooru::tag::lemma_category_round_trip(value.category);
}

/// A tag that was written reads as itself: its document has all that
/// is needed, and every field is what the document says.
pub proof fn lemma_tag_round_trip(value: Tag)
    requires
        value.times_read_back(),
    ensures
        Tag::readable(value.document()),
        value.reads(value.document()),
{
    lemma_tag_round_trip_members(value);
    lemma_tag_round_trip_reading(value, value.document());
}

impl PostVersion {
    /// Whether every point in time of a version of a post lies in a year that can be
    /// written: the years 0 to 9999.
    pub open spec fn years_writable(&self) -> bool {
        &&& writable(self.updated_at)
    }

    /// Whether every point in time of a version of a post is written as a text that
    /// reads as that point again.
    pub open spec fn times_read_back(&self) -> bool {
        &&& reads_back(self.updated_at)
    }

    /// Whether every list of tags that is written as one text can be read
    /// back from it: each tag holds something besides white space, and no
    /// space.
    pub open spec fn tags_read_back(&self) -> bool {
        &&& writable_tags(texts(self.tags@))
        &&& writable_tags(texts(self.unchanged_tags@))
        &&& writable_tags(texts(self.obsolete_added_tags@))
        &&& writable_tags(texts(self.obsolete_removed_tags@))
    }
}

impl PostVersion {
    /// Whether `document` holds every field of a version of a post under its name, as
    /// it is written.
    pub open spec fn stands_in(&self, document: JsonTree) -> bool {
        let value = self;
        &&& document.member("id"@) == Some(JsonTree::Number(value.id as int))
        &&& document.member("post_id"@) == Some(JsonTree::Number(value.post_id as int))
        &&& document.member("version"@) == Some(JsonTree::Number(value.version as int))
        &&& document.member("updater_id"@) == Some(JsonTree::Number(value.updater_id as int))
        &&& document.member("updated_at"@) == Some(time_tree(value.updated_at)->0)
        &&& document.member("tags"@) == Some(tags_tree(texts(value.tags@)))
        &&& document.member("added_tags"@) == Some(texts_tree(texts(value.added_tags@)))
        &&& document.member("removed_tags"@) == Some(texts_tree(texts(value.removed_tags@)))
        &&& document.member("unchanged_tags"@) == Some(tags_tree(texts(value.unchanged_tags@)))
        &&& document.member("obsolete_added_tags"@)
            == Some(tags_tree(texts(value.obsolete_added_tags@)))
        &&& document.member("obsolete_removed_tags"@)
            == Some(tags_tree(texts(value.obsolete_removed_tags@)))
        &&& document.member("rating"@) == Some(JsonTree::Text(value.rating.spec_letter()))
        &&& document.member("rating_changed"@) == Some(JsonTree::Bool(value.rating_changed))
        &&& document.member("source"@) == Some(JsonTree::Text(value.source@))
        &&& document.member("source_changed"@) == Some(JsonTree::Bool(value.source_changed))
        &&& document.member("parent_id"@) == Some(maybe_i64_tree(value.parent_id))
        &&& document.member("parent_changed"@) == Some(JsonTree::Bool(value.parent_changed))
    }
}

/// The document of a version of a post holds every field under its name: no name
/// stands for two fields.
proof fn lemma_post_version_round_trip_members(value: PostVersion)
    ensures
        value.stands_in(value.document()),
{
    reveal_strlit("id");
    reveal_strlit("post_id");
    reveal_strlit("version");
    reveal_strlit("updater_id");
    reveal_strlit("updated_at");
    reveal_strlit("tags");
    reveal_strlit("added_tags");
    reveal_strlit("removed_tags");
    reveal_strlit("unchanged_tags");
    reveal_strlit("obsolete_added_tags");
    reveal_strlit("obsolete_removed_tags");
    reveal_strlit("rating");
    reveal_strlit("rating_changed");
    reveal_strlit("source");
    reveal_strlit("source_changed");
    reveal_strlit("parent_id");
    reveal_strlit("parent_changed");
    assert("id"@.len() == 2);
    assert("post_id"@.len() == 7 && "post_id"@[0] == 'p');
    assert("version"@.len() == 7 && "version"@[0] == 'v');
    assert("updater_id"@.len() == 10 && "updater_id"@[0] == 'u' && "updater_id"@[6] == 'r');
    assert("updated_at"@.len() == 10 && "updated_at"@[0] == 'u' && "updated_at"@[6] == 'd');
    assert("tags"@.len() == 4);
    assert("added_tags"@.len() == 10 && "added_tags"@[0] == 'a');
    assert("removed_tags"@.len() == 12);
    assert("unchanged_tags"@.len() == 14 && "unchanged_tags"@[0] == 'u');
    assert("obsolete_added_tags"@.len() == 19);
    assert("obsolete_removed_tags"@.len() == 21);
    assert("rating"@.len() == 6 && "rating"@[0] == 'r');
    assert("rating_changed"@.len() == 14 && "rating_changed"@[0] == 'r');
    assert("source"@.len() == 6 && "source"@[0] == 's');
    assert("source_changed"@.len() == 14 && "source_changed"@[0] == 's');
    assert("parent_id"@.len() == 9);
    assert("parent_changed"@.len() == 14 && "parent_changed"@[0] == 'p');
    let document = value.document();
    assert(document.member("id"@) == Some(JsonTree::Number(value.id as int)));
    assert(document.member("post_id"@) == Some(JsonTree::Number(value.post_id as int)));
    assert(document.member("version"@) == Some(JsonTree::Number(value.version as int)));
    assert(document.member("updater_id"@) == Some(JsonTree::Number(value.updater_id as int)));
    assert(document.member("updated_at"@) == Some(time_tree(value.updated_at)->0));
    assert(document.member("tags"@) == Some(tags_tree(texts(value.tags@))));
    assert(document.member("added_tags"@) == Some(texts_tree(texts(value.added_tags@))));
    assert(document.member("removed_tags"@) == Some(texts_tree(texts(value.removed_tags@))));
    assert(document.member("unchanged_tags"@) == Some(tags_tree(texts(value.unchanged_tags@))));
    assert(document.member("obsolete_added_tags"@)
        == Some(tags_tree(texts(value.obsolete_added_tags@))));
    assert(document.member("obsolete_removed_tags"@)
        == Some(tags_tree(texts(value.obsolete_removed_tags@))));
    assert(document.member("rating"@) == Some(JsonTree::Text(value.rating.spec_letter())));
    assert(document.member("rating_changed"@) == Some(JsonTree::Bool(value.rating_changed)));
    assert(document.member("source"@) == Some(JsonTree::Text(value.source@)));
    assert(document.member("source_changed"@) == Some(JsonTree::Bool(value.source_changed)));
    assert(document.member("parent_id"@) == Some(maybe_i64_tree(value.parent_id)));
    assert(document.member("parent_changed"@) == Some(JsonTree::Bool(value.parent_changed)));
}

/// A document that holds every field of a version of a post under its name has all
/// that is needed to read it, and reads as that value.
proof fn lemma_post_version_round_trip_reading(value: PostVersion, document: JsonTree)
    requires
        value.stands_in(document),
        value.times_read_back(),
        value.tags_read_back(),
    ensures
        PostVersion::readable(document),
        value.reads(document),
{
    lemma_tags_round_trip(texts(value.tags@));
    lemma_texts_round_trip(texts(value.added_tags@));
    lemma_texts_round_trip(texts(value.removed_tags@));
    lemma_tags_round_trip(texts(value.unchanged_tags@));
    lemma_tags_round_trip(texts(value.obsolete_added_tags@));
    lemma_tags_round_trip(texts(value.obsolete_removed_tags@));
    crate::danbooru::lemma_rating_round_trip(value.rating);
}

/// A version of a post that was written reads as itself: its document has all that
/// is needed, and every field is what the document says.
pub proof fn lemma_post_version_round_trip(value: PostVersion)
    requires
        value.times_read_back(),
        value.tags_read_back(),
    ensures
        PostVersion::readable(value.document()),
        value.reads(value.document()),
{
    lemma_post_version_round_trip_members(value);
    lemma_post_version_round_trip_reading(value, value.document());
}

impl Post {
    /// Whether every point in time of a post lies in a year that can be
    /// written: the years 0 to 9999.
    pub open spec fn years_writable(&self) -> bool {
        &&& writable(self.created_at)
        &&& writable(self.updated_at)
        &&& (self.last_commented_at matches Some(time) ==> writable(time))
        &&& (self.last_comment_bumped_at matches Some(time) ==> writable(time))
        &&& (self.last_noted_at matches Some(time) ==> writable(time))
    }

    /// Whether every point in time of a post is written as a text that
    /// reads as that point again.
    pub open spec fn times_read_back(&self) -> bool {
        &&& reads_back(self.created_at)
        &&& reads_back(self.updated_at)
        &&& (self.last_commented_at matches Some(time) ==> reads_back(time))
        &&& (self.last_comment_bumped_at matches Some(time) ==> reads_back(time))
        &&& (self.last_noted_at matches Some(time) ==> reads_back(time))
    }

    /// Whether every list of tags that is written as one text can be read
    /// back from it: each tag holds something besides white space, and no
    /// space.
    pub open spec fn tags_read_back(&self) -> bool {
        &&& writable_tags(texts(self.tags_general@))
        &&& writable_tags(texts(self.tags_artist@))
        &&& writable_tags(texts(self.tags_copyright@))
        &&& writable_tags(texts(self.tags_character@))
        &&& writable_tags(texts(self.tags_meta@))
        &&& writable_tags(texts(self.tags@))
    }
}

impl Post {
    /// Whether `document` holds every field of a post under its name, as
    /// it is written.
    pub open spec fn stands_in(&self, document: JsonTree) -> bool {
        let value = self;
        &&& document.member("id"@) == Some(JsonTree::Number(value.id as int))
        &&& document.member("created_at"@) == Some(time_tree(value.created_at)->0)
        &&& document.member("updated_at"@) == Some(time_tree(value.updated_at)->0)
        &&& document.member("uploader_id"@) == Some(JsonTree::Number(value.uploader_id as int))
        &&& document.member("approver_id"@) == Some(maybe_u64_tree(value.approver_id))
        &&& document.member("tags_general"@) == Some(tags_tree(texts(value.tags_general@)))
        &&& document.member("tags_artist"@) == Some(tags_tree(texts(value.tags_artist@)))
        &&& document.member("tags_copyright"@) == Some(tags_tree(texts(value.tags_copyright@)))
        &&& document.member("tags_character"@) == Some(tags_tree(texts(value.tags_character@)))
        &&& document.member("tags_meta"@) == Some(tags_tree(texts(value.tags_meta@)))
        &&& document.member("tags"@) == Some(tags_tree(texts(value.tags@)))
        &&& document.member("rating"@) == Some(JsonTree::Text(value.rating.spec_letter()))
        &&& document.member("parent_id"@) == Some(maybe_u64_tree(value.parent_id))
        &&& document.member("source"@) == Some(maybe_text_tree(value.source))
        &&& document.member("md5"@) == Some(md5_tree(value.md5))
        &&& document.member("url"@) == Some(JsonTree::Text(value.url@))
        &&& document.member("file_size"@) == Some(JsonTree::Number(value.file_size as int))
        &&& document.member("file_ext"@) == Some(JsonTree::Text(value.file_ext@))
        &&& document.member("image_width"@) == Some(JsonTree::Number(value.image_width as int))
        &&& document.member("image_height"@) == Some(JsonTree::Number(value.image_height as int))
        &&& document.member("has_large"@) == Some(JsonTree::Bool(value.has_large))
        &&& document.member("score"@) == Some(JsonTree::Number(value.score as int))
        &&& document.member("up_score"@) == Some(maybe_u32_tree(value.up_score))
        &&& document.member("down_score"@) == Some(maybe_u32_tree(value.down_score))
        &&& document.member("fav_count"@) == Some(JsonTree::Number(value.fav_count as int))
        &&& document.member("last_commented_at"@) == Some(maybe_time_tree(value.last_commented_at))
        &&& document.member("last_comment_bumped_at"@)
            == Some(maybe_time_tree(value.last_comment_bumped_at))
        &&& document.member("last_noted_at"@) == Some(maybe_time_tree(value.last_noted_at))
        &&& document.member("has_children"@) == Some(JsonTree::Bool(value.has_children))
        &&& document.member("has_active_children"@)
            == Some(JsonTree::Bool(value.has_active_children))
        &&& document.member("has_visible_children"@)
            == Some(JsonTree::Bool(value.has_visible_children))
        &&& document.member("pixiv_id"@) == Some(maybe_u64_tree(value.pixiv_id))
        &&& document.member("is_pending"@) == Some(JsonTree::Bool(value.is_pending))
        &&& document.member("is_flagged"@) == Some(JsonTree::Bool(value.is_flagged))
        &&& document.member("is_deleted"@) == Some(JsonTree::Bool(value.is_deleted))
        &&& document.member("is_banned"@) == Some(JsonTree::Bool(value.is_banned))
        &&& document.member("bit_flags"@) == Some(JsonTree::Number(value.bit_flags as int))
    }
}

/// The document of a post holds every field under its name: no name
/// stands for two fields.
#[verifier::rlimit(100)]
proof fn lemma_post_round_trip_members(value: Post)
    ensures
        value.stands_in(value.document()),
{
    reveal_strlit("id");
    reveal_strlit("created_at");
    reveal_strlit("updated_at");
    reveal_strlit("uploader_id");
    reveal_strlit("approver_id");
    reveal_strlit("tags_general");
    reveal_strlit("tags_artist");
    reveal_strlit("tags_copyright");
    reveal_strlit("tags_character");
    reveal_strlit("tags_meta");
    reveal_strlit("tags");
    reveal_strlit("rating");
    reveal_strlit("parent_id");
    reveal_strlit("source");
    reveal_strlit("md5");
    reveal_strlit("url");
    reveal_strlit("file_size");
    reveal_strlit("file_ext");
    reveal_strlit("image_width");
    reveal_strlit("image_height");
    reveal_strlit("has_large");
    reveal_strlit("score");
    reveal_strlit("up_score");
    reveal_strlit("down_score");
    reveal_strlit("fav_count");
    reveal_strlit("last_commented_at");
    reveal_strlit("last_comment_bumped_at");
    reveal_strlit("last_noted_at");
    reveal_strlit("has_children");
    reveal_strlit("has_active_children");
    reveal_strlit("has_visible_children");
    reveal_strlit("pixiv_id");
    reveal_strlit("is_pending");
    reveal_strlit("is_flagged");
    reveal_strlit("is_deleted");
    reveal_strlit("is_banned");
    reveal_strlit("bit_flags");
    assert("id"@.len() == 2);
    assert("created_at"@.len() == 10 && "created_at"@[0] == 'c');
    assert("updated_at"@.len() == 10 && "updated_at"@[0] == 'u');
    assert("uploader_id"@.len() == 11 && "uploader_id"@[0] == 'u');
    assert("approver_id"@.len() == 11 && "approver_id"@[0] == 'a');
    assert("tags_general"@.len() == 12 && "tags_general"@[0] == 't');
    assert("tags_artist"@.len() == 11 && "tags_artist"@[0] == 't');
    assert("tags_copyright"@.len() == 14 && "tags_copyright"@[6] == 'o');
    assert("tags_character"@.len() == 14 && "tags_character"@[6] == 'h');
    assert("tags_meta"@.len() == 9 && "tags_meta"@[0] == 't');
    assert("tags"@.len() == 4);
    assert("rating"@.len() == 6 && "rating"@[0] == 'r');
    assert("parent_id"@.len() == 9 && "parent_id"@[0] == 'p');
    assert("source"@.len() == 6 && "source"@[0] == 's');
    assert("md5"@.len() == 3 && "md5"@[0] == 'm');
    assert("url"@.len() == 3 && "url"@[0] == 'u');
    assert("file_size"@.len() == 9 && "file_size"@[0] == 'f' && "file_size"@[1] == 'i');
    assert("file_ext"@.len() == 8 && "file_ext"@[0] == 'f');
    assert("image_width"@.len() == 11 && "image_width"@[0] == 'i');
    assert("image_height"@.len() == 12 && "image_height"@[0] == 'i');
    assert("has_large"@.len() == 9 && "has_large"@[0] == 'h');
    assert("score"@.len() == 5);
    assert("up_score"@.len() == 8 && "up_score"@[0] == 'u');
    assert("down_score"@.len() == 10 && "down_score"@[0] == 'd');
    assert("fav_count"@.len() == 9 && "fav_count"@[0] == 'f' && "fav_count"@[1] == 'a');
    assert("last_commented_at"@.len() == 17);
    assert("last_comment_bumped_at"@.len() == 22);
    assert("last_noted_at"@.len() == 13);
    assert("has_children"@.len() == 12 && "has_children"@[0] == 'h');
    assert("has_active_children"@.len() == 19);
    assert("has_visible_children"@.len() == 20);
    assert("pixiv_id"@.len() == 8 && "pixiv_id"@[0] == 'p');
    assert("is_pending"@.len() == 10 && "is_pending"@[0] == 'i' && "is_pending"@[3] == 'p');
    assert("is_flagged"@.len() == 10 && "is_flagged"@[0] == 'i' && "is_flagged"@[3] == 'f');
    assert("is_deleted"@.len() == 10 && "is_deleted"@[0] == 'i' && "is_deleted"@[3] == 'd');
    assert("is_banned"@.len() == 9 && "is_banned"@[0] == 'i');
    assert("bit_flags"@.len() == 9 && "bit_flags"@[0] == 'b');
    let document = value.document();
    assert(document.member("id"@) == Some(JsonTree::Number(value.id as int)));
    assert(document.member("created_at"@) == Some(time_tree(value.created_at)->0));
    assert(document.member("updated_at"@) == Some(time_tree(value.updated_at)->0));
    assert(document.member("uploader_id"@) == Some(JsonTree::Number(value.uploader_id as int)));
    assert(document.member("approver_id"@) == Some(maybe_u64_tree(value.approver_id)));
    assert(document.member("tags_general"@) == Some(tags_tree(texts(value.tags_general@))));
    assert(document.member("tags_artist"@) == Some(tags_tree(texts(value.tags_artist@))));
    assert(document.member("tags_copyright"@) == Some(tags_tree(texts(value.tags_copyright@))));
    assert(document.member("tags_character"@) == Some(tags_tree(texts(value.tags_character@))));
    assert(document.member("tags_meta"@) == Some(tags_tree(texts(value.tags_meta@))));
    assert(document.member("tags"@) == Some(tags_tree(texts(value.tags@))));
    assert(document.member("rating"@) == Some(JsonTree::Text(value.rating.spec_letter())));
    assert(document.member("parent_id"@) == Some(maybe_u64_tree(value.parent_id)));
    assert(document.member("source"@) == Some(maybe_text_tree(value.source)));
    assert(document.member("md5"@) == Some(md5_tree(value.md5)));
    assert(document.member("url"@) == Some(JsonTree::Text(value.url@)));
    assert(document.member("file_size"@) == Some(JsonTree::Number(value.file_size as int)));
    assert(document.member("file_ext"@) == Some(JsonTree::Text(value.file_ext@)));
    assert(document.member("image_width"@) == Some(JsonTree::Number(value.image_width as int)));
    assert(document.member("image_height"@) == Some(JsonTree::Number(value.image_height as int)));
    assert(document.member("has_large"@) == Some(JsonTree::Bool(value.has_large)));
    assert(document.member("score"@) == Some(JsonTree::Number(value.score as int)));
    assert(document.member("up_score"@) == Some(maybe_u32_tree(value.up_score)));
    assert(document.member("down_score"@) == Some(maybe_u32_tree(value.down_score)));
    assert(document.member("fav_count"@) == Some(JsonTree::Number(value.fav_count as int)));
    assert(document.member("last_commented_at"@) == Some(maybe_time_tree(value.last_commented_at)));
    assert(document.member("last_comment_bumped_at"@)
        == Some(maybe_time_tree(value.last_comment_bumped_at)));
    assert(document.member("last_noted_at"@) == Some(maybe_time_tree(value.last_noted_at)));
    assert(document.member("has_children"@) == Some(JsonTree::Bool(value.has_children)));
    assert(document.member("has_active_children"@)
        == Some(JsonTree::Bool(value.has_active_children)));
    assert(document.member("has_visible_children"@)
        == Some(JsonTree::Bool(value.has_visible_children)));
    assert(document.member("pixiv_id"@) == Some(maybe_u64_tree(value.pixiv_id)));
    assert(document.member("is_pending"@) == Some(JsonTree::Bool(value.is_pending)));
    assert(document.member("is_flagged"@) == Some(JsonTree::Bool(value.is_flagged)));
    assert(document.member("is_deleted"@) == Some(JsonTree::Bool(value.is_deleted)));
    assert(document.member("is_banned"@) == Some(JsonTree::Bool(value.is_banned)));
    assert(document.member("bit_flags"@) == Some(JsonTree::Number(value.bit_flags as int)));
}

/// A document that holds every field of a post under its name has all
/// that is needed to read it, and reads as that value.
proof fn lemma_post_round_trip_reading(value: Post, document: JsonTree)
    requires
        value.stands_in(document),
        value.times_read_back(),
        value.tags_read_back(),
    ensures
        Post::readable(document),
        value.reads(document),
{
    lemma_tags_round_trip(texts(value.tags_general@));
    lemma_tags_round_trip(texts(value.tags_artist@));
    lemma_tags_round_trip(texts(value.tags_copyright@));
    lemma_tags_round_trip(texts(value.tags_character@));
    lemma_tags_round_trip(texts(value.tags_meta@));
    lemma_tags_round_trip(texts(value.tags@));
    crate::danbooru::lemma_rating_round_trip(value.rating);
    if let Some(hash) = value.md5 {
        crate::danbooru::post::lemma_md5_round_trip(hash@);
    }
}

/// A post that was written reads as itself: its document has all that
/// is needed, and every field is what the document says.
pub proof fn lemma_post_round_trip(value: Post)
    requires
        value.times_read_back(),
        value.tags_read_back(),
    ensures
        Post::readable(value.document()),
        value.reads(value.document()),
{
    lemma_post_round_trip_members(value);
    lemma_post_round_trip_reading(value, value.document());
}

} // verus!
