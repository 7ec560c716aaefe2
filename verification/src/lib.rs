//! Post extraction logic for imageboard APIs: post models, tag handling,
//! blacklist filtering, request URLs and the paging decisions of the
//! extractors, all checked by Verus.

pub mod auth;
pub mod blacklist;
pub mod caps;
pub mod error;
pub mod extractor;
pub mod extractor_config;
pub mod hashing;
pub mod imageboards;
pub mod post;
pub mod sarf;
pub mod text;
pub mod web;
