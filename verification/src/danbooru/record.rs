//! What can be recorded of Danbooru: an entity, and the state it was seen in.

use crate::danbooru::post::Post;
use crate::danbooru::post_version::PostVersion;
use crate::danbooru::tag::Tag;
use vstd::prelude::*;

verus! {

/// One entity of Danbooru, named by its kind and its ID there.
#[derive(Debug, Clone, Copy, PartialEq, Eq, Structural, Hash)]
pub enum Entity {
    Post(i64),
    Tag(i64),
    PostVersion(i64),
}

/// An entity together with the state it was seen in.
#[derive(Debug, Clone, Hash)]
pub enum Record {
    Post { id: i64, state: PostState },
    Tag { id: i64, state: TagState },
    PostVersion { id: i64, state: PostVersion },
}

/// An enum representing the state of a post.
#[derive(Debug, Clone, Hash)]
pub enum PostState {
    /// The post exists.
    Exists(Post),
    /// The post is missing, but it might exist in the future.
    /// This usually means the post's ID is past the last known post ID.
    MissingTemporarily,
    /// The post is missing, and it is expected to never exist anymore:
    /// its ID lies in the past, so it was probably deleted.
    MissingPermanently,
}

/// An enum representing the state of a tag.
#[derive(Debug, Clone, Hash)]
pub enum TagState {
    /// The tag exists.
    Exists(Tag),
    /// The tag is missing, but it might exist in the future.
    MissingTemporarily,
    /// The tag is missing, and it is expected to never exist anymore.
    MissingPermanently,
}

impl Entity {
    pub open spec fn spec_type_id(self) -> u32 {
        match self {
            Entity::Post(_) => 1,
            Entity::Tag(_) => 2,
            Entity::PostVersion(_) => 3,
        }
    }

    pub open spec fn spec_booru_id(self) -> i64 {
        match self {
            Entity::Post(id) => id,
            Entity::Tag(id) => id,
            Entity::PostVersion(id) => id,
        }
    }

    /// Get the ID of the type of entity this is.
    /// It is used for database lookups and storage, so it must not change
    /// between versions.
    pub fn type_id(&self) -> (t: u32)
        ensures
            t == self.spec_type_id(),
    {
        match self {
            Entity::Post(_) => 1,
            Entity::Tag(_) => 2,
            Entity::PostVersion(_) => 3,
        }
    }

    /// Get the booru ID of this entity.
    pub fn booru_id(&self) -> (id: i64)
        ensures
            id == self.spec_booru_id(),
    {
        match self {
            Entity::Post(id) => *id,
            Entity::Tag(id) => *id,
            Entity::PostVersion(id) => *id,
        }
    }
}

impl Record {
    pub open spec fn spec_entity(&self) -> Entity {
        match *self {
            Record::Post { id, .. } => Entity::Post(id),
            Record::Tag { id, .. } => Entity::Tag(id),
            Record::PostVersion { id, .. } => Entity::PostVersion(id),
        }
    }

    /// The entity that this record is about.
    pub fn get_entity(&self) -> (entity: Entity)
        ensures
            entity == self.spec_entity(),
    {
        match self {
            Record::Post { id, .. } => Entity::Post(*id),
            Record::Tag { id, .. } => Entity::Tag(*id),
            Record::PostVersion { id, .. } => Entity::PostVersion(*id),
        }
    }
}

impl PostState {
    /// The state of a post that was seen.
    pub fn from_post(post: Post) -> (state: PostState)
        ensures
            state == PostState::Exists(post),
    {
        PostState::Exists(post)
    }
}

impl From<Post> for PostState {
    fn from(value: Post) -> (made: PostState) {
        PostState::Exists(value)
    }
}

impl vstd::std_specs::convert::FromSpecImpl<Post> for PostState {
    open spec fn obeys_from_spec() -> bool {
        true
    }

    open spec fn from_spec(value: Post) -> PostState {
        PostState::Exists(value)
    }
}

impl From<Record> for Entity {
    fn from(value: Record) -> (made: Entity) {
        value.get_entity()
    }
}

impl vstd::std_specs::convert::FromSpecImpl<Record> for Entity {
    open spec fn obeys_from_spec() -> bool {
        true
    }

    open spec fn from_spec(value: Record) -> Entity {
        value.spec_entity()
    }
}

} // verus!
