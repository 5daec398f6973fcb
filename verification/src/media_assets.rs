//! The content-addressed store of media files.

pub mod database;
pub mod download;
pub mod media_asset;
pub mod media_type;
pub mod store;
