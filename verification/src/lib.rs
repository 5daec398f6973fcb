//! Harvesting, normalising and storing imageboard entities.
//!
//! This library holds what the programs around it decide and compute; the
//! programs sleep, fetch, publish and write. Its parts:
//!
//! - [`snowflake`]: identifiers that carry the time of their making and
//!   order by it.
//! - [`record`] and [`record_types`]: the record, one fact observed about
//!   one entity, and the payloads it can carry; [`wire`] writes records as
//!   JSON and reads them back.
//! - [`acquisition`]: the polling loops' decisions: which entries of a page
//!   are new and in which order they are handled, when the watermark moves,
//!   how long to wait, and when a loop has seen too many errors.
//! - [`persistence`]: when a backend takes a record, what the fan-out makes
//!   of two answers, under which key the latest state of an entity is kept,
//!   and what becomes of a message from the bus.
//! - [`media_assets`]: the content-addressed store of media files: how a
//!   download is measured and hashed, where an asset lies, and what is
//!   written for a finished download.
//! - [`danbooru`], [`model`] and [`danbooru_scraping`]: Danbooru's posts,
//!   tags and post versions, and the records that their listings become.
//! - [`json`], [`text`], [`tag_string`] and [`date_time`]: documents, texts
//!   and points in time as the parts above use them.

pub mod acquisition;
pub mod danbooru;
pub mod danbooru_scraping;
pub mod date_time;
pub mod json;
pub mod media_assets;
pub mod model;
pub mod persistence;
pub mod record;
pub mod record_types;
pub mod snowflake;
pub mod tag_string;
pub mod text;
pub mod wire;

pub use date_time::DateTime;
pub use snowflake::Snowflake;
