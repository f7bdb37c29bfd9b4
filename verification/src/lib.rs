//! Build only the external dependencies of a project, skipping its in-tree
//! packages while leaving the orchestrator's cache bookkeeping satisfied.
//!
//! The heart of the library is the skip-and-fake decision: for every compile
//! task the orchestrator would run, decide from the owning package's origin
//! whether to run the real compiler command or to skip it and synthesize the
//! zero-byte fingerprint marker the orchestrator's freshness check expects.
//! The argument parsing, the marker-path synthesis and the decision itself
//! are pure functions on plain values and are verified here; process
//! execution and file creation stay with the caller.

pub mod descriptor;
pub mod executor;
pub mod fingerprint;
