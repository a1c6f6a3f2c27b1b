//! Popularity pipeline for social-media posts.
//!
//! Posts enter a time-bounded popularity cache when they are created, collect
//! likes, and leave it exactly once: either dispatched for enrichment when the
//! like count reaches the configured threshold, or silently when they outlive
//! the retention window. Enriched posts are gathered by a batch sink that
//! flushes on size, on a timer tick, and when its input closes.

pub mod aggregator;
pub mod aggregator_laws;
pub mod cache;
pub mod cache_laws;
pub mod enricher;
pub mod sink;
pub mod sink_laws;
pub mod types;
