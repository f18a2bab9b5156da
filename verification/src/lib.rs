//! Verified core of an incremental search-index synchroniser for a numbered
//! comic feed.

pub mod chat;
pub mod comic;
pub mod config;
pub mod error;
pub mod fetch;
pub mod index;
pub mod run;
pub mod settings;
pub mod status;
pub mod sync;
pub mod text;
