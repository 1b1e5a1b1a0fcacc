//! A URL shortener's core: the slug codec and the mapping store.
//!
//! A long URL is fingerprinted to a 64-bit signed integer, the fingerprint is
//! stored next to the URL in a SQLite table, and its URL-safe base64 text, the
//! slug, is what callers hand out and later resolve.

pub mod codec;
pub mod host;
pub mod mapping;
pub mod service;
pub mod sqlite;
pub mod store;
pub mod web;
