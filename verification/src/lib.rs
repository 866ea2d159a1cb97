//! Discovery and filtering of downloadable dataset URLs from an open-data
//! catalog API, driven by per-region configuration.
//!
//! The crate has two loosely coupled components:
//!
//! - [`settings`]: a registry mapping two-character region codes to merged,
//!   validated configuration snapshots, built by layering configuration
//!   sources (defaults, a run-mode source, environment overrides).
//! - [`au`]: a fetch-and-match pipeline that, given a region's matcher
//!   configuration, plans a catalog search request and filters the decoded
//!   result down to the distribution URLs that match a configured pattern.
//!
//! Network transport, file access and structured decoding of response bodies
//! are left to the embedding application; this crate owns the decisions:
//! validation, merging, request planning and result filtering.

pub mod au;
pub mod settings;
pub mod text;
