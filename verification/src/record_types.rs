//! The payloads that a record can carry, by source.

pub mod danbooru;
pub mod media;
pub mod rule34;
