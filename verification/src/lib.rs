//! Verified core of a self-updating installer/launcher.
//!
//! On each run the launcher asks a remote endpoint for the current version
//! token, compares it with the locally persisted version marker, and, when the
//! two differ, downloads one archive per distribution channel, unpacks each
//! one under a versioned directory tree, persists the new marker, copies
//! itself into the install root and registers a custom URI scheme.
//!
//! This crate holds the decision logic of that pipeline: the version gate,
//! download URL construction, archive-entry path safety, per-entry extraction
//! planning with fault isolation, and the bootstrap state machine that fixes
//! the order of the steps and which failures are fatal. The surrounding
//! process (HTTP transport, filesystem writes, OS protocol registration)
//! performs the actions this crate decides on.

pub mod version;
pub mod urls;
pub mod paths;
pub mod extract;
pub mod pipeline;
