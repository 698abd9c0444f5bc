//! Error taxonomy and translation layer for a profile-management CLI.
//!
//! A lower-level profile subsystem reports failures as [`error::ProfileError`];
//! the CLI's presentation layer consumes the unified [`error::CliError`]. The
//! translator (`CliError::from`) is a total, pure mapping from the former to
//! the latter: the four expected failure kinds map one-to-one, payloads pass
//! through unchanged, and every other variant degrades to a generic fallback
//! whose message embeds a full structured rendering of the original error.

pub mod decimal;
pub mod error;
