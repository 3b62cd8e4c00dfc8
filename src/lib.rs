//! Decision logic of an installer bootstrapper: download progress, the
//! download session, the search for an existing installation, the reading of
//! process outcomes, and the sequencing of a full install run.
//!
//! Everything here works on plain values. Reading the network, the disk, the
//! installation metadata store or a child process is left to the host, which
//! hands the results to these functions and performs the actions they return.

pub mod error;
pub mod progress;
pub mod locator;
pub mod process;
pub mod download;
pub mod orchestrator;
