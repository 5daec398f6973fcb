//! Danbooru's listings as JSON: posts, tags and post versions are read
//! from the documents that the listings give, and written as documents to
//! be stored.

use crate::danbooru::post::{deserialize_md5, md5_byte, md5_pairs_good, serialize_md5, Post};
use crate::danbooru::post_version::PostVersion;
use crate::danbooru::record::{PostState, Record, TagState};
use crate::danbooru::tag::{Tag, TagCategory};
use crate::danbooru::Rating;
use crate::date_time::DateTime;
use crate::json::{
    member,
    object,
    parse,
    parsed,
    print_text,
    printed_text,
    put,
    text,
    tree,
    trees,
    JsonTree,
};
use vstd::string::StringSliceAdditionalSpecFns;
use crate::media_assets::media_asset::hex_text;
use crate::tag_string::{deserialize_tag_string, tags_of, texts};
use crate::wire::field::{
    field_bool,
    field_i32,
    field_i64,
    field_maybe_i64,
    field_maybe_text,
    field_maybe_time,
    field_maybe_u32,
    field_maybe_u64,
    field_tags,
    field_text,
    field_texts,
    field_time,
    field_u32,
    field_u64,
    field_usize,
    get_bool,
    get_i32,
    get_i64,
    get_maybe_i64,
    get_maybe_text,
    get_maybe_time,
    get_maybe_u32,
    get_maybe_u64,
    get_tags,
    get_text,
    get_texts,
    get_time,
    get_u32,
    get_u64,
    get_usize,
    maybe_i64_tree,
    maybe_u64_tree,
    put_bool,
    put_i64,
    put_maybe_i64,
    put_maybe_text,
    put_maybe_time,
    put_maybe_u64,
    put_tags,
    put_text,
    put_texts,
    put_time,
    put_u64,
    tags_tree,
    texts_tree,
    time_tree,
};
use serde_json::Value;
use vstd::prelude::*;

verus! {

/// The member that goes by `name`, or else by `other`: the listings and the
/// store do not name every member alike.
pub open spec fn member_either(document: JsonTree, name: Seq<char>, other: Seq<char>) -> Option<
    JsonTree,
> {
    if document.member(name) is Some {
        document.member(name)
    } else {
        document.member(other)
    }
}

pub open spec fn field_text_either(
    document: JsonTree,
    name: Seq<char>,
    other: Seq<char>,
) -> Option<Seq<char>> {
    match member_either(document, name, other) {
        Some(found) => found.as_text(),
        None => None,
    }
}

pub open spec fn field_tags_either(
    document: JsonTree,
    name: Seq<char>,
    other: Seq<char>,
) -> Option<Seq<Seq<char>>> {
    match field_text_either(document, name, other) {
        Some(written) => Some(tags_of(written)),
        None => None,
    }
}

/// The text of a string that may be missing.
pub open spec fn maybe_view(content: Option<String>) -> Option<Option<Seq<char>>> {
    match content {
        Some(c) => Some(Some(c@)),
        None => Some(None),
    }
}

pub open spec fn maybe_text_tree(content: Option<String>) -> JsonTree {
    match content {
        Some(c) => JsonTree::Text(c@),
        None => JsonTree::Null,
    }
}

pub open spec fn maybe_u32_tree(number: Option<u32>) -> JsonTree {
    match number {
        Some(n) => JsonTree::Number(n as int),
        None => JsonTree::Null,
    }
}

pub open spec fn maybe_time_tree(time: Option<DateTime>) -> JsonTree {
    match time {
        Some(t) => time_tree(t)->0,
        None => JsonTree::Null,
    }
}

pub open spec fn md5_tree(md5: Option<[u8; 16]>) -> JsonTree {
    match md5 {
        Some(hash) => JsonTree::Text(hex_text(hash@)),
        None => JsonTree::Null,
    }
}

pub open spec fn field_rating(document: JsonTree, name: Seq<char>) -> Option<Rating> {
    match field_text(document, name) {
        Some(letter) => Rating::spec_from_letter(letter),
        None => None,
    }
}

pub open spec fn field_category(document: JsonTree, name: Seq<char>) -> Option<TagCategory> {
    match field_u64(document, name) {
        Some(code) => if code <= u8::MAX {
            TagCategory::spec_from_code(code as u8)
        } else {
            None
        },
        None => None,
    }
}

/// Whether the member `md5` is missing, or a text that spells an MD5 hash.
pub open spec fn md5_readable(document: JsonTree) -> bool {
    match field_maybe_text(document, "md5"@) {
        Some(Some(written)) => vstd::utf8::encode_utf8(written).len() == 32 && md5_pairs_good(
            vstd::utf8::encode_utf8(written),
            16,
        ),
        Some(None) => true,
        None => false,
    }
}

/// Whether `md5` is what the member `md5` of `document` spells.
pub open spec fn reads_md5(document: JsonTree, md5: Option<[u8; 16]>) -> bool {
    match field_maybe_text(document, "md5"@) {
        Some(Some(written)) => md5 matches Some(hash) && forall|i: int|
            0 <= i < 16 ==> md5_byte(vstd::utf8::encode_utf8(written), i) == Some(
                #[trigger] hash@[i],
            ),
        Some(None) => md5 is None,
        None => false,
    }
}

/// A number that may be missing, widened.
fn widen(number: Option<u32>) -> (wide: Option<u64>)
    ensures
        maybe_u64_tree(wide) == maybe_u32_tree(number),
{
    match number {
        Some(n) => Some(n as u64),
        None => None,
    }
}

fn get_text_either(document: &Value, name: &str, other: &str) -> (content: Option<String>)
    ensures
        content is Some <==> field_text_either(tree(*document), name@, other@) is Some,
        content matches Some(c) ==> field_text_either(tree(*document), name@, other@) == Some(
            c@,
        ),
{
    let found = match member(document, name) {
        Some(found) => found,
        None => member(document, other)?,
    };
    match found.as_str() {
        Some(content) => Some(content.to_owned()),
        None => None,
    }
}

fn get_tags_either(document: &Value, name: &str, other: &str) -> (tags: Option<Vec<String>>)
    ensures
        tags is Some <==> field_tags_either(tree(*document), name@, other@) is Some,
        tags matches Some(list) ==> field_tags_either(tree(*document), name@, other@) == Some(
            texts(list@),
        ),
{
    let written = get_text_either(document, name, other)?;
    Some(deserialize_tag_string(written.as_str()))
}

fn get_rating(document: &Value, name: &str) -> (rating: Option<Rating>)
    ensures
        rating == field_rating(tree(*document), name@),
{
    let letter = get_text(document, name)?;
    Rating::from_letter(letter.as_str())
}

fn get_category(document: &Value, name: &str) -> (category: Option<TagCategory>)
    ensures
        category == field_category(tree(*document), name@),
{
    let code = get_u64(document, name)?;
    if code <= u8::MAX as u64 {
        TagCategory::from_code(code as u8)
    } else {
        None
    }
}

fn get_md5(document: &Value, name: &str) -> (md5: Option<Option<[u8; 16]>>)
    requires
        name@ == "md5"@,
    ensures
        md5 is Some <==> md5_readable(tree(*document)),
        md5 matches Some(read) ==> reads_md5(tree(*document), read),
{
    match get_maybe_text(document, name)? {
        Some(written) => match deserialize_md5(Some(written.as_str())) {
            Ok(md5) => Some(md5),
            Err(_) => None,
        },
        None => Some(None),
    }
}


/// Write an MD5 hash that may be missing under `md5`.
fn put_md5(object: &mut Value, md5: &Option<[u8; 16]>)
    requires
        tree(*old(object)) is Object,
    ensures
        tree(*final(object)) == tree(*old(object)).with("md5"@, md5_tree(*md5)),
{
    let written = serialize_md5(md5);
    put_maybe_text(object, "md5", &written);
}

impl Post {
    /// Whether a document has all that a post needs, each member of its kind.
    pub open spec fn readable(document: JsonTree) -> bool {
        &&& field_u64(document, "id"@) is Some
        &&& field_time(document, "created_at"@) is Some
        &&& field_time(document, "updated_at"@) is Some
        &&& field_u64(document, "uploader_id"@) is Some
        &&& field_maybe_u64(document, "approver_id"@) is Some
        &&& field_tags_either(document, "tags_general"@, "tag_string_general"@) is Some
        &&& field_tags_either(document, "tags_artist"@, "tag_string_artist"@) is Some
        &&& field_tags_either(document, "tags_copyright"@, "tag_string_copyright"@) is Some
        &&& field_tags_either(document, "tags_character"@, "tag_string_character"@) is Some
        &&& field_tags_either(document, "tags_meta"@, "tag_string_meta"@) is Some
        &&& field_tags_either(document, "tags"@, "tag_string"@) is Some
        &&& field_rating(document, "rating"@) is Some
        &&& field_maybe_u64(document, "parent_id"@) is Some
        &&& field_maybe_text(document, "source"@) is Some
        &&& md5_readable(document)
        &&& field_text_either(document, "url"@, "file_url"@) is Some
        &&& field_usize(document, "file_size"@) is Some
        &&& field_text(document, "file_ext"@) is Some
        &&& field_u32(document, "image_width"@) is Some
        &&& field_u32(document, "image_height"@) is Some
        &&& field_bool(document, "has_large"@) is Some
        &&& field_i32(document, "score"@) is Some
        &&& field_maybe_u32(document, "up_score"@) is Some
        &&& field_maybe_u32(document, "down_score"@) is Some
        &&& field_u32(document, "fav_count"@) is Some
        &&& field_maybe_time(document, "last_commented_at"@) is Some
        &&& field_maybe_time(document, "last_comment_bumped_at"@) is Some
        &&& field_maybe_time(document, "last_noted_at"@) is Some
        &&& field_bool(document, "has_children"@) is Some
        &&& field_bool(document, "has_active_children"@) is Some
        &&& field_bool(document, "has_visible_children"@) is Some
        &&& field_maybe_u64(document, "pixiv_id"@) is Some
        &&& field_bool(document, "is_pending"@) is Some
        &&& field_bool(document, "is_flagged"@) is Some
        &&& field_bool(document, "is_deleted"@) is Some
        &&& field_bool(document, "is_banned"@) is Some
        &&& field_u32(document, "bit_flags"@) is Some
    }

    /// Whether the fields are what the members of `document` say.
    pub open spec fn reads(&self, document: JsonTree) -> bool {
        &&& field_u64(document, "id"@) == Some(self.id)
        &&& field_time(document, "created_at"@) == Some(self.created_at)
        &&& field_time(document, "updated_at"@) == Some(self.updated_at)
        &&& field_u64(document, "uploader_id"@) == Some(self.uploader_id)
        &&& field_maybe_u64(document, "approver_id"@) == Some(self.approver_id)
        &&& field_tags_either(document, "tags_general"@, "tag_string_general"@)
            == Some(texts(self.tags_general@))
        &&& field_tags_either(document, "tags_artist"@, "tag_string_artist"@)
            == Some(texts(self.tags_artist@))
        &&& field_tags_either(document, "tags_copyright"@, "tag_string_copyright"@)
            == Some(texts(self.tags_copyright@))
        &&& field_tags_either(document, "tags_character"@, "tag_string_character"@)
            == Some(texts(self.tags_character@))
        &&& field_tags_either(document, "tags_meta"@, "tag_string_meta"@)
            == Some(texts(self.tags_meta@))
        &&& field_tags_either(document, "tags"@, "tag_string"@) == Some(texts(self.tags@))
        &&& field_rating(document, "rating"@) == Some(self.rating)
        &&& field_maybe_u64(document, "parent_id"@) == Some(self.parent_id)
        &&& field_maybe_text(document, "source"@) == maybe_view(self.source)
        &&& reads_md5(document, self.md5)
        &&& field_text_either(document, "url"@, "file_url"@) == Some(self.url@)
        &&& field_usize(document, "file_size"@) == Some(self.file_size)
        &&& field_text(document, "file_ext"@) == Some(self.file_ext@)
        &&& field_u32(document, "image_width"@) == Some(self.image_width)
        &&& field_u32(document, "image_height"@) == Some(self.image_height)
        &&& field_bool(document, "has_large"@) == Some(self.has_large)
        &&& field_i32(document, "score"@) == Some(self.score)
        &&& field_maybe_u32(document, "up_score"@) == Some(self.up_score)
        &&& field_maybe_u32(document, "down_score"@) == Some(self.down_score)
        &&& field_u32(document, "fav_count"@) == Some(self.fav_count)
        &&& field_maybe_time(document, "last_commented_at"@) == Some(self.last_commented_at)
        &&& field_maybe_time(document, "last_comment_bumped_at"@)
            == Some(self.last_comment_bumped_at)
        &&& field_maybe_time(document, "last_noted_at"@) == Some(self.last_noted_at)
        &&& field_bool(document, "has_children"@) == Some(self.has_children)
        &&& field_bool(document, "has_active_children"@) == Some(self.has_active_children)
        &&& field_bool(document, "has_visible_children"@) == Some(self.has_visible_children)
        &&& field_maybe_u64(document, "pixiv_id"@) == Some(self.pixiv_id)
        &&& field_bool(document, "is_pending"@) == Some(self.is_pending)
        &&& field_bool(document, "is_flagged"@) == Some(self.is_flagged)
        &&& field_bool(document, "is_deleted"@) == Some(self.is_deleted)
        &&& field_bool(document, "is_banned"@) == Some(self.is_banned)
        &&& field_u32(document, "bit_flags"@) == Some(self.bit_flags)
    }

    /// Whether every point in time can be written.
    pub open spec fn writable(&self) -> bool {
        &&& time_tree(self.created_at) is Some
        &&& time_tree(self.updated_at) is Some
        &&& (self.last_commented_at matches Some(time) ==> time_tree(time) is Some)
        &&& (self.last_comment_bumped_at matches Some(time) ==> time_tree(time) is Some)
        &&& (self.last_noted_at matches Some(time) ==> time_tree(time) is Some)
    }

    /// The document that stands for a post: its fields by their names.
    pub open spec fn document(&self) -> JsonTree {
        JsonTree::empty_object()
            .with("id"@, JsonTree::Number(self.id as int))
            .with("created_at"@, time_tree(self.created_at)->0)
            .with("updated_at"@, time_tree(self.updated_at)->0)
            .with("uploader_id"@, JsonTree::Number(self.uploader_id as int))
            .with("approver_id"@, maybe_u64_tree(self.approver_id))
            .with("tags_general"@, tags_tree(texts(self.tags_general@)))
            .with("tags_artist"@, tags_tree(texts(self.tags_artist@)))
            .with("tags_copyright"@, tags_tree(texts(self.tags_copyright@)))
            .with("tags_character"@, tags_tree(texts(self.tags_character@)))
            .with("tags_meta"@, tags_tree(texts(self.tags_meta@)))
            .with("tags"@, tags_tree(texts(self.tags@)))
            .with("rating"@, JsonTree::Text(self.rating.spec_letter()))
            .with("parent_id"@, maybe_u64_tree(self.parent_id))
            .with("source"@, maybe_text_tree(self.source))
            .with("md5"@, md5_tree(self.md5))
            .with("url"@, JsonTree::Text(self.url@))
            .with("file_size"@, JsonTree::Number(self.file_size as int))
            .with("file_ext"@, JsonTree::Text(self.file_ext@))
            .with("image_width"@, JsonTree::Number(self.image_width as int))
            .with("image_height"@, JsonTree::Number(self.image_height as int))
            .with("has_large"@, JsonTree::Bool(self.has_large))
            .with("score"@, JsonTree::Number(self.score as int))
            .with("up_score"@, maybe_u32_tree(self.up_score))
            .with("down_score"@, maybe_u32_tree(self.down_score))
            .with("fav_count"@, JsonTree::Number(self.fav_count as int))
            .with("last_commented_at"@, maybe_time_tree(self.last_commented_at))
            .with("last_comment_bumped_at"@, maybe_time_tree(self.last_comment_bumped_at))
            .with("last_noted_at"@, maybe_time_tree(self.last_noted_at))
            .with("has_children"@, JsonTree::Bool(self.has_children))
            .with("has_active_children"@, JsonTree::Bool(self.has_active_children))
            .with("has_visible_children"@, JsonTree::Bool(self.has_visible_children))
            .with("pixiv_id"@, maybe_u64_tree(self.pixiv_id))
            .with("is_pending"@, JsonTree::Bool(self.is_pending))
            .with("is_flagged"@, JsonTree::Bool(self.is_flagged))
            .with("is_deleted"@, JsonTree::Bool(self.is_deleted))
            .with("is_banned"@, JsonTree::Bool(self.is_banned))
            .with("bit_flags"@, JsonTree::Number(self.bit_flags as int))
    }

    /// Read a post from a document of a listing; `None` where a member is
    /// missing or not of its kind. Members that are not known are passed over.
    pub fn decode(document: &Value) -> (read: Option<Post>)
        ensures
            read is Some <==> Post::readable(tree(*document)),
            read matches Some(it) ==> it.reads(tree(*document)),
    {
        let id = get_u64(document, "id")?;
        let created_at = get_time(document, "created_at")?;
        let updated_at = get_time(document, "updated_at")?;
        let uploader_id = get_u64(document, "uploader_id")?;
        let approver_id = get_maybe_u64(document, "approver_id")?;
        let tags_general = get_tags_either(document, "tags_general", "tag_string_general")?;
        let tags_artist = get_tags_either(document, "tags_artist", "tag_string_artist")?;
        let tags_copyright = get_tags_either(document, "tags_copyright", "tag_string_copyright")?;
        let tags_character = get_tags_either(document, "tags_character", "tag_string_character")?;
        let tags_meta = get_tags_either(document, "tags_meta", "tag_string_meta")?;
        let tags = get_tags_either(document, "tags", "tag_string")?;
        let rating = get_rating(document, "rating")?;
        let parent_id = get_maybe_u64(document, "parent_id")?;
        let source = get_maybe_text(document, "source")?;
        let md5 = get_md5(document, "md5")?;
        let url = get_text_either(document, "url", "file_url")?;
        let file_size = get_usize(document, "file_size")?;
        let file_ext = get_text(document, "file_ext")?;
        let image_width = get_u32(document, "image_width")?;
        let image_height = get_u32(document, "image_height")?;
        let has_large = get_bool(document, "has_large")?;
        let score = get_i32(document, "score")?;
        let up_score = get_maybe_u32(document, "up_score")?;
        let down_score = get_maybe_u32(document, "down_score")?;
        let fav_count = get_u32(document, "fav_count")?;
        let last_commented_at = get_maybe_time(document, "last_commented_at")?;
        let last_comment_bumped_at = get_maybe_time(document, "last_comment_bumped_at")?;
        let last_noted_at = get_maybe_time(document, "last_noted_at")?;
        let has_children = get_bool(document, "has_children")?;
        let has_active_children = get_bool(document, "has_active_children")?;
        let has_visible_children = get_bool(document, "has_visible_children")?;
        let pixiv_id = get_maybe_u64(document, "pixiv_id")?;
        let is_pending = get_bool(document, "is_pending")?;
        let is_flagged = get_bool(document, "is_flagged")?;
        let is_deleted = get_bool(document, "is_deleted")?;
        let is_banned = get_bool(document, "is_banned")?;
        let bit_flags = get_u32(document, "bit_flags")?;
        Some(Post {
            id,
            created_at,
            updated_at,
            uploader_id,
            approver_id,
            tags_general,
            tags_artist,
            tags_copyright,
            tags_character,
            tags_meta,
            tags,
            rating,
            parent_id,
            source,
            md5,
            url,
            file_size,
            file_ext,
            image_width,
            image_height,
            has_large,
            score,
            up_score,
            down_score,
            fav_count,
            last_commented_at,
            last_comment_bumped_at,
            last_noted_at,
            has_children,
            has_active_children,
            has_visible_children,
            pixiv_id,
            is_pending,
            is_flagged,
            is_deleted,
            is_banned,
            bit_flags,
        })
    }

    /// Write a post as a document; `None` where one of its points in time
    /// cannot be written.
    pub fn encode(&self) -> (written: Option<Value>)
        ensures
            written is Some <==> self.writable(),
            written matches Some(value) ==> tree(value) == self.document(),
            written is Some && self.years_writable() ==> self.times_read_back(),
    {
        let mut document = object();
        put_u64(&mut document, "id", self.id);
        if !put_time(&mut document, "created_at", self.created_at) {
            return None;
        }
        if !put_time(&mut document, "updated_at", self.updated_at) {
            return None;
        }
        put_u64(&mut document, "uploader_id", self.uploader_id);
        put_maybe_u64(&mut document, "approver_id", self.approver_id);
        put_tags(&mut document, "tags_general", &self.tags_general);
        put_tags(&mut document, "tags_artist", &self.tags_artist);
        put_tags(&mut document, "tags_copyright", &self.tags_copyright);
        put_tags(&mut document, "tags_character", &self.tags_character);
        put_tags(&mut document, "tags_meta", &self.tags_meta);
        put_tags(&mut document, "tags", &self.tags);
        put_text(&mut document, "rating", self.rating.letter());
        put_maybe_u64(&mut document, "parent_id", self.parent_id);
        put_maybe_text(&mut document, "source", &self.source);
        put_md5(&mut document, &self.md5);
        put_text(&mut document, "url", self.url.as_str());
        put_u64(&mut document, "file_size", self.file_size as u64);
        put_text(&mut document, "file_ext", self.file_ext.as_str());
        put_u64(&mut document, "image_width", self.image_width as u64);
        put_u64(&mut document, "image_height", self.image_height as u64);
        put_bool(&mut document, "has_large", self.has_large);
        put_i64(&mut document, "score", self.score as i64);
        put_maybe_u64(&mut document, "up_score", widen(self.up_score));
        put_maybe_u64(&mut document, "down_score", widen(self.down_score));
        put_u64(&mut document, "fav_count", self.fav_count as u64);
        if !put_maybe_time(&mut document, "last_commented_at", self.last_commented_at) {
            return None;
        }
        if !put_maybe_time(&mut document, "last_comment_bumped_at", self.last_comment_bumped_at) {
            return None;
        }
        if !put_maybe_time(&mut document, "last_noted_at", self.last_noted_at) {
            return None;
        }
        put_bool(&mut document, "has_children", self.has_children);
        put_bool(&mut document, "has_active_children", self.has_active_children);
        put_bool(&mut document, "has_visible_children", self.has_visible_children);
        put_maybe_u64(&mut document, "pixiv_id", self.pixiv_id);
        put_bool(&mut document, "is_pending", self.is_pending);
        put_bool(&mut document, "is_flagged", self.is_flagged);
        put_bool(&mut document, "is_deleted", self.is_deleted);
        put_bool(&mut document, "is_banned", self.is_banned);
        put_u64(&mut document, "bit_flags", self.bit_flags as u64);
        Some(document)
    }
}

impl Tag {
    /// Whether a document has all that a tag needs, each member of its kind.
    pub open spec fn readable(document: JsonTree) -> bool {
        &&& field_u64(document, "id"@) is Some
        &&& field_text(document, "name"@) is Some
        &&& field_u64(document, "post_count"@) is Some
        &&& field_category(document, "category"@) is Some
        &&& field_time(document, "created_at"@) is Some
        &&& field_time(document, "updated_at"@) is Some
        &&& field_bool(document, "is_deprecated"@) is Some
    }

    /// Whether the fields are what the members of `document` say.
    pub open spec fn reads(&self, document: JsonTree) -> bool {
        &&& field_u64(document, "id"@) == Some(self.id)
        &&& field_text(document, "name"@) == Some(self.name@)
        &&& field_u64(document, "post_count"@) == Some(self.post_count)
        &&& field_category(document, "category"@) == Some(self.category)
        &&& field_time(document, "created_at"@) == Some(self.created_at)
        &&& field_time(document, "updated_at"@) == Some(self.updated_at)
        &&& field_bool(document, "is_deprecated"@) == Some(self.is_deprecated)
    }

    /// Whether every point in time can be written.
    pub open spec fn writable(&self) -> bool {
        &&& time_tree(self.created_at) is Some
        &&& time_tree(self.updated_at) is Some
    }

    /// The document that stands for a tag: its fields by their names.
    pub open spec fn document(&self) -> JsonTree {
        JsonTree::empty_object()
            .with("id"@, JsonTree::Number(self.id as int))
            .with("name"@, JsonTree::Text(self.name@))
            .with("post_count"@, JsonTree::Number(self.post_count as int))
            .with("category"@, JsonTree::Number(self.category.spec_code() as int))
            .with("created_at"@, time_tree(self.created_at)->0)
            .with("updated_at"@, time_tree(self.updated_at)->0)
            .with("is_deprecated"@, JsonTree::Bool(self.is_deprecated))
    }

    /// Read a tag from a document of a listing; `None` where a member is
    /// missing or not of its kind. Members that are not known are passed over.
    pub fn decode(document: &Value) -> (read: Option<Tag>)
        ensures
            read is Some <==> Tag::readable(tree(*document)),
            read matches Some(it) ==> it.reads(tree(*document)),
    {
        let id = get_u64(document, "id")?;
        let name = get_text(document, "name")?;
        let post_count = get_u64(document, "post_count")?;
        let category = get_category(document, "category")?;
        let created_at = get_time(document, "created_at")?;
        let updated_at = get_time(document, "updated_at")?;
        let is_deprecated = get_bool(document, "is_deprecated")?;
        Some(Tag {
            id,
            name,
            post_count,
            category,
            created_at,
            updated_at,
            is_deprecated,
        })
    }

    /// Write a tag as a document; `None` where one of its points in time
    /// cannot be written.
    pub fn encode(&self) -> (written: Option<Value>)
        ensures
            written is Some <==> self.writable(),
            written matches Some(value) ==> tree(value) == self.document(),
            written is Some && self.years_writable() ==> self.times_read_back(),
    {
        let mut document = object();
        put_u64(&mut document, "id", self.id);
        put_text(&mut document, "name", self.name.as_str());
        put_u64(&mut document, "post_count", self.post_count);
        put_u64(&mut document, "category", self.category.code() as u64);
        if !put_time(&mut document, "created_at", self.created_at) {
            return None;
        }
        if !put_time(&mut document, "updated_at", self.updated_at) {
            return None;
        }
        put_bool(&mut document, "is_deprecated", self.is_deprecated);
        Some(document)
    }
}

impl PostVersion {
    /// Whether a document has all that a version of a post needs, each member of its kind.
    pub open spec fn readable(document: JsonTree) -> bool {
        &&& field_i64(document, "id"@) is Some
        &&& field_i64(document, "post_id"@) is Some
        &&& field_i32(document, "version"@) is Some
        &&& field_i64(document, "updater_id"@) is Some
        &&& field_time(document, "updated_at"@) is Some
        &&& field_tags(document, "tags"@) is Some
        &&& field_texts(document, "added_tags"@) is Some
        &&& field_texts(document, "removed_tags"@) is Some
        &&& field_tags(document, "unchanged_tags"@) is Some
        &&& field_tags(document, "obsolete_added_tags"@) is Some
        &&& field_tags(document, "obsolete_removed_tags"@) is Some
        &&& field_rating(document, "rating"@) is Some
        &&& field_bool(document, "rating_changed"@) is Some
        &&& field_text(document, "source"@) is Some
        &&& field_bool(document, "source_changed"@) is Some
        &&& field_maybe_i64(document, "parent_id"@) is Some
        &&& field_bool(document, "parent_changed"@) is Some
    }

    /// Whether the fields are what the members of `document` say.
    pub open spec fn reads(&self, document: JsonTree) -> bool {
        &&& field_i64(document, "id"@) == Some(self.id)
        &&& field_i64(document, "post_id"@) == Some(self.post_id)
        &&& field_i32(document, "version"@) == Some(self.version)
        &&& field_i64(document, "updater_id"@) == Some(self.updater_id)
        &&& field_time(document, "updated_at"@) == Some(self.updated_at)
        &&& field_tags(document, "tags"@) == Some(texts(self.tags@))
        &&& field_texts(document, "added_tags"@) == Some(texts(self.added_tags@))
        &&& field_texts(document, "removed_tags"@) == Some(texts(self.removed_tags@))
        &&& field_tags(document, "unchanged_tags"@) == Some(texts(self.unchanged_tags@))
        &&& field_tags(document, "obsolete_added_tags"@) == Some(texts(self.obsolete_added_tags@))
        &&& field_tags(document, "obsolete_removed_tags"@)
            == Some(texts(self.obsolete_removed_tags@))
        &&& field_rating(document, "rating"@) == Some(self.rating)
        &&& field_bool(document, "rating_changed"@) == Some(self.rating_changed)
        &&& field_text(document, "source"@) == Some(self.source@)
        &&& field_bool(document, "source_changed"@) == Some(self.source_changed)
        &&& field_maybe_i64(document, "parent_id"@) == Some(self.parent_id)
        &&& field_bool(document, "parent_changed"@) == Some(self.parent_changed)
    }

    /// Whether every point in time can be written.
    pub open spec fn writable(&self) -> bool {
        &&& time_tree(self.updated_at) is Some
    }

    /// The document that stands for a version of a post: its fields by their names.
    pub open spec fn document(&self) -> JsonTree {
        JsonTree::empty_object()
            .with("id"@, JsonTree::Number(self.id as int))
            .with("post_id"@, JsonTree::Number(self.post_id as int))
            .with("version"@, JsonTree::Number(self.version as int))
            .with("updater_id"@, JsonTree::Number(self.updater_id as int))
            .with("updated_at"@, time_tree(self.updated_at)->0)
            .with("tags"@, tags_tree(texts(self.tags@)))
            .with("added_tags"@, texts_tree(texts(self.added_tags@)))
            .with("removed_tags"@, texts_tree(texts(self.removed_tags@)))
            .with("unchanged_tags"@, tags_tree(texts(self.unchanged_tags@)))
            .with("obsolete_added_tags"@, tags_tree(texts(self.obsolete_added_tags@)))
            .with("obsolete_removed_tags"@, tags_tree(texts(self.obsolete_removed_tags@)))
            .with("rating"@, JsonTree::Text(self.rating.spec_letter()))
            .with("rating_changed"@, JsonTree::Bool(self.rating_changed))
            .with("source"@, JsonTree::Text(self.source@))
            .with("source_changed"@, JsonTree::Bool(self.source_changed))
            .with("parent_id"@, maybe_i64_tree(self.parent_id))
            .with("parent_changed"@, JsonTree::Bool(self.parent_changed))
    }

    /// Read a version of a post from a document of a listing; `None` where a member is
    /// missing or not of its kind. Members that are not known are passed over.
    pub fn decode(document: &Value) -> (read: Option<PostVersion>)
        ensures
            read is Some <==> PostVersion::readable(tree(*document)),
            read matches Some(it) ==> it.reads(tree(*document)),
    {
        let id = get_i64(document, "id")?;
        let post_id = get_i64(document, "post_id")?;
        let version = get_i32(document, "version")?;
        let updater_id = get_i64(document, "updater_id")?;
        let updated_at = get_time(document, "updated_at")?;
        let tags = get_tags(document, "tags")?;
        let added_tags = get_texts(document, "added_tags")?;
        let removed_tags = get_texts(document, "removed_tags")?;
        let unchanged_tags = get_tags(document, "unchanged_tags")?;
        let obsolete_added_tags = get_tags(document, "obsolete_added_tags")?;
        let obsolete_removed_tags = get_tags(document, "obsolete_removed_tags")?;
        let rating = get_rating(document, "rating")?;
        let rating_changed = get_bool(document, "rating_changed")?;
        let source = get_text(document, "source")?;
        let source_changed = get_bool(document, "source_changed")?;
        let parent_id = get_maybe_i64(document, "parent_id")?;
        let parent_changed = get_bool(document, "parent_changed")?;
        Some(PostVersion {
            id,
            post_id,
            version,
            updater_id,
            updated_at,
            tags,
            added_tags,
            removed_tags,
            unchanged_tags,
            obsolete_added_tags,
            obsolete_removed_tags,
            rating,
            rating_changed,
            source,
            source_changed,
            parent_id,
            parent_changed,
        })
    }

    /// Write a version of a post as a document; `None` where one of its points in time
    /// cannot be written.
    pub fn encode(&self) -> (written: Option<Value>)
        ensures
            written is Some <==> self.writable(),
            written matches Some(value) ==> tree(value) == self.document(),
            written is Some && self.years_writable() ==> self.times_read_back(),
    {
        let mut document = object();
        put_i64(&mut document, "id", self.id);
        put_i64(&mut document, "post_id", self.post_id);
        put_i64(&mut document, "version", self.version as i64);
        put_i64(&mut document, "updater_id", self.updater_id);
        if !put_time(&mut document, "updated_at", self.updated_at) {
            return None;
        }
        put_tags(&mut document, "tags", &self.tags);
        put_texts(&mut document, "added_tags", &self.added_tags);
        put_texts(&mut document, "removed_tags", &self.removed_tags);
        put_tags(&mut document, "unchanged_tags", &self.unchanged_tags);
        put_tags(&mut document, "obsolete_added_tags", &self.obsolete_added_tags);
        put_tags(&mut document, "obsolete_removed_tags", &self.obsolete_removed_tags);
        put_text(&mut document, "rating", self.rating.letter());
        put_bool(&mut document, "rating_changed", self.rating_changed);
        put_text(&mut document, "source", self.source.as_str());
        put_bool(&mut document, "source_changed", self.source_changed);
        put_maybe_i64(&mut document, "parent_id", self.parent_id);
        put_bool(&mut document, "parent_changed", self.parent_changed);
        Some(document)
    }
}

/// Whether `page` holds posts, one for each document of `items`.
pub open spec fn posts_of_listing_read(page: Seq<Post>, items: Seq<JsonTree>) -> bool {
    &&& page.len() == items.len()
    &&& forall|i: int| 0 <= i < page.len() ==> (#[trigger] page[i]).reads(items[i])
}

/// Whether `bytes` is a listing of posts: a JSON list whose documents are
/// all readable.
pub open spec fn posts_of_listing_readable(bytes: Seq<u8>) -> bool {
    match parsed(bytes) {
        Some(JsonTree::List(items)) => forall|i: int|
            0 <= i < items.len() ==> Post::readable(#[trigger] items[i]),
        _ => false,
    }
}

/// Read a listing of posts; `None` where the body is no JSON list, or one
/// of its documents cannot be read.
pub fn posts_of_listing(bytes: &[u8]) -> (page: Option<Vec<Post>>)
    ensures
        page is Some <==> posts_of_listing_readable(bytes@),
        page matches Some(list) ==> match parsed(bytes@) {
            Some(JsonTree::List(items)) => posts_of_listing_read(list@, items),
            _ => false,
        },
{
    let document = parse(bytes)?;
    let items = document.as_array()?;
    let mut page: Vec<Post> = Vec::new();
    let mut i: usize = 0;
    while i < items.len()
        invariant
            i <= items.len(),
            page@.len() == i,
            parsed(bytes@) == Some(JsonTree::List(trees(items@))),
            forall|j: int| 0 <= j < i ==> Post::readable(#[trigger] trees(items@)[j]),
            forall|j: int| 0 <= j < i ==> (#[trigger] page@[j]).reads(trees(items@)[j]),
        decreases items.len() - i,
    {
        match Post::decode(&items[i]) {
            Some(read) => {
                page.push(read);
            },
            None => {
                proof {
                    let listed = parsed(bytes@)->Some_0->List_0;
                    assert(listed == trees(items@));
                    assert(listed[i as int] == tree(items@[i as int]));
                    assert(!Post::readable(listed[i as int]));
                }
                return None;
            },
        }
        i += 1;
    }
    Some(page)
}

/// Whether `page` holds tags, one for each document of `items`.
pub open spec fn tags_of_listing_read(page: Seq<Tag>, items: Seq<JsonTree>) -> bool {
    &&& page.len() == items.len()
    &&& forall|i: int| 0 <= i < page.len() ==> (#[trigger] page[i]).reads(items[i])
}

/// Whether `bytes` is a listing of tags: a JSON list whose documents are
/// all readable.
pub open spec fn tags_of_listing_readable(bytes: Seq<u8>) -> bool {
    match parsed(bytes) {
        Some(JsonTree::List(items)) => forall|i: int|
            0 <= i < items.len() ==> Tag::readable(#[trigger] items[i]),
        _ => false,
    }
}

/// Read a listing of tags; `None` where the body is no JSON list, or one
/// of its documents cannot be read.
pub fn tags_of_listing(bytes: &[u8]) -> (page: Option<Vec<Tag>>)
    ensures
        page is Some <==> tags_of_listing_readable(bytes@),
        page matches Some(list) ==> match parsed(bytes@) {
            Some(JsonTree::List(items)) => tags_of_listing_read(list@, items),
            _ => false,
        },
{
    let document = parse(bytes)?;
    let items = document.as_array()?;
    let mut page: Vec<Tag> = Vec::new();
    let mut i: usize = 0;
    while i < items.len()
        invariant
            i <= items.len(),
            page@.len() == i,
            parsed(bytes@) == Some(JsonTree::List(trees(items@))),
            forall|j: int| 0 <= j < i ==> Tag::readable(#[trigger] trees(items@)[j]),
            forall|j: int| 0 <= j < i ==> (#[trigger] page@[j]).reads(trees(items@)[j]),
        decreases items.len() - i,
    {
        match Tag::decode(&items[i]) {
            Some(read) => {
                page.push(read);
            },
            None => {
                proof {
                    let listed = parsed(bytes@)->Some_0->List_0;
                    assert(listed == trees(items@));
                    assert(listed[i as int] == tree(items@[i as int]));
                    assert(!Tag::readable(listed[i as int]));
                }
                return None;
            },
        }
        i += 1;
    }
    Some(page)
}

/// Whether `page` holds versions of posts, one for each document of `items`.
pub open spec fn versions_of_listing_read(page: Seq<PostVersion>, items: Seq<JsonTree>) -> bool {
    &&& page.len() == items.len()
    &&& forall|i: int| 0 <= i < page.len() ==> (#[trigger] page[i]).reads(items[i])
}

/// Whether `bytes` is a listing of versions of posts: a JSON list whose documents are
/// all readable.
pub open spec fn versions_of_listing_readable(bytes: Seq<u8>) -> bool {
    match parsed(bytes) {
        Some(JsonTree::List(items)) => forall|i: int|
            0 <= i < items.len() ==> PostVersion::readable(#[trigger] items[i]),
        _ => false,
    }
}

/// Read a listing of versions of posts; `None` where the body is no JSON list, or one
/// of its documents cannot be read.
pub fn versions_of_listing(bytes: &[u8]) -> (page: Option<Vec<PostVersion>>)
    ensures
        page is Some <==> versions_of_listing_readable(bytes@),
        page matches Some(list) ==> match parsed(bytes@) {
            Some(JsonTree::List(items)) => versions_of_listing_read(list@, items),
            _ => false,
        },
{
    let document = parse(bytes)?;
    let items = document.as_array()?;
    let mut page: Vec<PostVersion> = Vec::new();
    let mut i: usize = 0;
    while i < items.len()
        invariant
            i <= items.len(),
            page@.len() == i,
            parsed(bytes@) == Some(JsonTree::List(trees(items@))),
            forall|j: int| 0 <= j < i ==> PostVersion::readable(#[trigger] trees(items@)[j]),
            forall|j: int| 0 <= j < i ==> (#[trigger] page@[j]).reads(trees(items@)[j]),
        decreases items.len() - i,
    {
        match PostVersion::decode(&items[i]) {
            Some(read) => {
                page.push(read);
            },
            None => {
                proof {
                    let listed = parsed(bytes@)->Some_0->List_0;
                    assert(listed == trees(items@));
                    assert(listed[i as int] == tree(items@[i as int]));
                    assert(!PostVersion::readable(listed[i as int]));
                }
                return None;
            },
        }
        i += 1;
    }
    Some(page)
}

impl Post {
    /// Read a post from a JSON text; `None` where the text is no JSON, or
    /// its document cannot be read.
    pub fn from_json(written: &str) -> (read: Option<Post>)
        ensures
            read is Some <==> match parsed(vstd::utf8::encode_utf8(written@)) {
                Some(document) => Post::readable(document),
                None => false,
            },
            read matches Some(it) ==> it.reads(parsed(vstd::utf8::encode_utf8(written@))->0),
    {
        let document = parse(written.as_bytes())?;
        Post::decode(&document)
    }

    /// Write a post as a JSON text. Nothing is written where one of its
    /// points in time cannot be written.
    pub fn to_json(&self) -> (written: Option<String>)
        ensures
            written is Some <==> self.writable(),
            written matches Some(w) ==> w@ == printed_text(self.document()),
    {
        let document = self.encode()?;
        print_text(&document)
    }
}

impl Tag {
    /// Read a tag from a JSON text; `None` where the text is no JSON, or
    /// its document cannot be read.
    pub fn from_json(written: &str) -> (read: Option<Tag>)
        ensures
            read is Some <==> match parsed(vstd::utf8::encode_utf8(written@)) {
                Some(document) => Tag::readable(document),
                None => false,
            },
            read matches Some(it) ==> it.reads(parsed(vstd::utf8::encode_utf8(written@))->0),
    {
        let document = parse(written.as_bytes())?;
        Tag::decode(&document)
    }

    /// Write a tag as a JSON text. Nothing is written where one of its
    /// points in time cannot be written.
    pub fn to_json(&self) -> (written: Option<String>)
        ensures
            written is Some <==> self.writable(),
            written matches Some(w) ==> w@ == printed_text(self.document()),
    {
        let document = self.encode()?;
        print_text(&document)
    }
}

impl PostVersion {
    /// Read a version of a post from a JSON text; `None` where the text is no JSON, or
    /// its document cannot be read.
    pub fn from_json(written: &str) -> (read: Option<PostVersion>)
        ensures
            read is Some <==> match parsed(vstd::utf8::encode_utf8(written@)) {
                Some(document) => PostVersion::readable(document),
                None => false,
            },
            read matches Some(it) ==> it.reads(parsed(vstd::utf8::encode_utf8(written@))->0),
    {
        let document = parse(written.as_bytes())?;
        PostVersion::decode(&document)
    }

    /// Write a version of a post as a JSON text. Nothing is written where one of its
    /// points in time cannot be written.
    pub fn to_json(&self) -> (written: Option<String>)
        ensures
            written is Some <==> self.writable(),
            written matches Some(w) ==> w@ == printed_text(self.document()),
    {
        let document = self.encode()?;
        print_text(&document)
    }
}

impl PostState {
    /// Whether every point in time of the state can be written.
    pub open spec fn writable(&self) -> bool {
        match *self {
            PostState::Exists(post) => post.writable(),
            _ => true,
        }
    }

    /// The document that stands for the state: the name of the variant, and
    /// under it the post where there is one.
    pub open spec fn document(&self) -> JsonTree {
        match *self {
            PostState::Exists(post) => JsonTree::empty_object().with("Exists"@, post.document()),
            PostState::MissingTemporarily => JsonTree::Text("MissingTemporarily"@),
            PostState::MissingPermanently => JsonTree::Text("MissingPermanently"@),
        }
    }

    /// Write the state as a document; `None` where one of its points in time
    /// cannot be written.
    pub fn encode(&self) -> (written: Option<Value>)
        ensures
            written is Some <==> self.writable(),
            written matches Some(value) ==> tree(value) == self.document(),
    {
        match self {
            PostState::Exists(post) => {
                let inner = post.encode()?;
                let mut tagged = object();
                put(&mut tagged, "Exists", inner);
                Some(tagged)
            },
            PostState::MissingTemporarily => Some(text("MissingTemporarily")),
            PostState::MissingPermanently => Some(text("MissingPermanently")),
        }
    }
}

impl TagState {
    /// Whether every point in time of the state can be written.
    pub open spec fn writable(&self) -> bool {
        match *self {
            TagState::Exists(tag) => tag.writable(),
            _ => true,
        }
    }

    /// The document that stands for the state: the name of the variant, and
    /// under it the tag where there is one.
    pub open spec fn document(&self) -> JsonTree {
        match *self {
            TagState::Exists(tag) => JsonTree::empty_object().with("Exists"@, tag.document()),
            TagState::MissingTemporarily => JsonTree::Text("MissingTemporarily"@),
            TagState::MissingPermanently => JsonTree::Text("MissingPermanently"@),
        }
    }

    /// Write the state as a document; `None` where one of its points in time
    /// cannot be written.
    pub fn encode(&self) -> (written: Option<Value>)
        ensures
            written is Some <==> self.writable(),
            written matches Some(value) ==> tree(value) == self.document(),
    {
        match self {
            TagState::Exists(tag) => {
                let inner = tag.encode()?;
                let mut tagged = object();
                put(&mut tagged, "Exists", inner);
                Some(tagged)
            },
            TagState::MissingTemporarily => Some(text("MissingTemporarily")),
            TagState::MissingPermanently => Some(text("MissingPermanently")),
        }
    }
}

/// The document of an entity of kind `entity` with `id` in `state`.
pub open spec fn entity_document(entity: Seq<char>, id: i64, state: JsonTree) -> JsonTree {
    JsonTree::empty_object().with("entity"@, JsonTree::Text(entity)).with(
        "data"@,
        JsonTree::empty_object().with("id"@, JsonTree::Number(id as int)).with("state"@, state),
    )
}

/// Write the document of an entity of kind `entity` with `id` in `state`.
fn entity_value(entity: &str, id: i64, state: Value) -> (written: Value)
    ensures
        tree(written) == entity_document(entity@, id, tree(state)),
{
    let mut data = object();
    put_i64(&mut data, "id", id);
    put(&mut data, "state", state);
    let mut document = object();
    put_text(&mut document, "entity", entity);
    put(&mut document, "data", data);
    document
}

impl Record {
    /// Whether every point in time of the record can be written.
    pub open spec fn writable(&self) -> bool {
        match *self {
            Record::Post { state, .. } => state.writable(),
            Record::Tag { state, .. } => state.writable(),
            Record::PostVersion { state, .. } => state.writable(),
        }
    }

    /// The document that stands for the record: the kind of entity, and its
    /// ID and state as the data.
    pub open spec fn document(&self) -> JsonTree {
        match *self {
            Record::Post { id, state } => entity_document("Post"@, id, state.document()),
            Record::Tag { id, state } => entity_document("Tag"@, id, state.document()),
            Record::PostVersion { id, state } => entity_document(
                "PostVersion"@,
                id,
                state.document(),
            ),
        }
    }

    /// Write the record as a document; `None` where one of its points in
    /// time cannot be written.
    pub fn encode(&self) -> (written: Option<Value>)
        ensures
            written is Some <==> self.writable(),
            written matches Some(value) ==> tree(value) == self.document(),
    {
        match self {
            Record::Post { id, state } => Some(entity_value("Post", *id, state.encode()?)),
            Record::Tag { id, state } => Some(entity_value("Tag", *id, state.encode()?)),
            Record::PostVersion { id, state } => Some(
                entity_value("PostVersion", *id, state.encode()?),
            ),
        }
    }
}

} // verus!
