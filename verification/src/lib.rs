//! An in-memory key-value cache with least-recently-used eviction.
//!
//! The store keeps string keys and values under fixed per-key and per-value
//! size limits and tracks recency of use; a memory monitor policy decides
//! when and how aggressively to evict the least recently used entries.

pub mod cache;
pub mod config;
pub mod handlers;
pub mod model;
pub mod models;
pub mod monitor;
