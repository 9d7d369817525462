//! Cache-backed access to date-partitioned records (canteen menus and
//! lecture events) with a staleness-driven refresh policy and a
//! predicate-based filter pipeline.
//!
//! The crate models the decision core of the application: when a local
//! cache may answer a query, when the whole dataset must be refreshed
//! first, how a missing partition falls back to a direct per-partition
//! fetch, and how a batch of records is narrowed by dietary predicates.
//! All file, network and clock access stays with the caller, which
//! drives the resolver state machine and hands the observed outcomes
//! back to the verified logic.

pub mod cache_paths;
pub mod config;
pub mod date;
pub mod events;
pub mod extras;
pub mod filter;
pub mod freshness;
pub mod meal;
pub mod resolver;
pub mod settings;
pub mod strutil;
