//! The decisions of the polling loops: what is new on a page and in which
//! order it is handled, when the watermark moves, how long to wait, and when
//! a loop has seen too many errors to go on.

pub mod batch;
pub mod danbooru_comment;
pub mod fresh;
pub mod mint;
pub mod poll;
pub mod rule34_comment;
