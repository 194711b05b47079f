//! Verified core of a mod-file synchroniser.
//!
//! The library resolves each manifest entry (a project id and a file id) to a
//! metadata URL, extracts the authoritative filename and checksum from the
//! fetched metadata page, decides from the local file's bytes whether a fresh
//! download is needed, and classifies every entry into exactly one outcome.
//! All network and disk traffic is performed by the surrounding application;
//! this crate holds the decisions, the parsing and the checksum logic, each
//! with a proved contract.

pub mod checksum;
pub mod extract;
pub mod orchestrator;
pub mod pipeline;
pub mod search;
pub mod stream;
pub mod text;
pub mod types;
pub mod urls;
