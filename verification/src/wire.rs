//! The wire format of records: a JSON document that names the source and the
//! kind of entity in its tags, written so that what is read back is what was
//! written.

pub mod danbooru;
pub mod field;
pub mod media;
pub mod record;
pub mod rule34;
