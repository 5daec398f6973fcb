//! The record that spans all imageboards.

pub mod record;
