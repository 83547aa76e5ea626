//! Core logic of a desktop tool that drives an external Maya cleaning script.
//!
//! The library holds the three pieces with real design decisions:
//! discovering and caching the Maya Python interpreter, resolving a
//! possibly-relative user path against an ordered list of candidate roots,
//! and orchestrating one script invocation, including parsing the results
//! file the script writes and choosing the error message when it fails.
//! Everything that touches the machine (filesystem probes, the subprocess,
//! reading the exchanged files) is done by the surrounding binary, which
//! feeds plain values into the pipeline defined here.

pub mod errors;
pub mod json;
pub mod locate;
pub mod pipeline;
pub mod report;
pub mod resolve;
pub mod runner;
