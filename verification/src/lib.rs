//! Release-data aggregation and build orchestration for a project website.
//!
//! The crate decides *what* a site build does: which release source is asked,
//! how fetched manifests become an ordered release history, which pages are
//! produced and in which order, and where each page lands on disk. Performing
//! the steps (network, rendering, file system) is left to the caller, which
//! feeds results back in as plain values.

pub mod config;
pub mod context;
pub mod errors;
pub mod json;
pub mod manifest;
pub mod paths;
pub mod release;
pub mod repo;
pub mod site;
pub mod text;
pub mod workspace;
