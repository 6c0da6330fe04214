//! Verified core of an installer/updater for a game-modification loader.
//!
//! The crate covers the installation pipeline: filtering a remote build
//! catalog into installable versions, planning the extraction of a fetched
//! archive with per-entry path remapping, choosing the installer command,
//! and the staged progress protocol that a run reports over while it
//! proceeds.  The surrounding process (network transfers, file writes,
//! process spawning, presentation) hands plain values in and carries the
//! decided actions out.

pub mod archive;
pub mod catalog;
pub mod channel;
pub mod pipeline;
pub mod text;
