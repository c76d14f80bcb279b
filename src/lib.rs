//! Replaces every regular file under a directory tree with a byte-identical
//! copy, routing the final path swap through a separate helper process.
//!
//! The library holds the decisions: which paths are worked on, what the helper
//! is asked to do, how its outcome is read, and the per-file pipeline with the
//! batch that drives it. The caller performs the filesystem and process work
//! and reports each outcome back. `model` states, over a model of the
//! filesystem, what the pipeline guarantees about each file's data.
pub mod paths;
pub mod walk;
pub mod helper;
pub mod pipeline;
pub mod model;
pub mod mode;
