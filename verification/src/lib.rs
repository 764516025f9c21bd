//! Tracking and classifying the contents of a shared clipboard over time:
//! heuristic format detection for text and image payloads, a bounded and
//! deduplicated capture history, a short-lived cache of the format
//! inventory, and an image transcoding pipeline.
//!
//! - [`classifier`]: the exclusive, priority-ordered content-kind chain.
//! - [`formats`]: the additive format-record enumeration.
//! - [`filelist`]: the syntactic file-list heuristic.
//! - [`image_pipeline`]: RGBA to PNG transcoding.
//! - [`cache`]: the time-windowed format-inventory cache.
//! - [`history`]: the bounded, deduplicating history store.
//! - [`recorder`]: one capture cycle tying the parts together.
//! - [`ids`], [`text`], [`types`]: identifiers, text utilities, data model.
//! - [`deep_links`], [`features`], [`notifications`], [`window`]: the
//!   surrounding application's pure data work.
//! - [`outside`]: the trusted contracts of the outside crates called.

pub mod cache;
pub mod classifier;
pub mod deep_links;
pub mod features;
pub mod filelist;
pub mod formats;
pub mod history;
pub mod ids;
pub mod image_pipeline;
pub mod notifications;
pub mod outside;
pub mod recorder;
pub mod text;
pub mod types;
pub mod window;
