//! Decision logic of a sweeper that walks a directory tree and removes the
//! directories whose name marks them as build artifacts.
//!
//! The crate never touches the file system. A driver walks the tree, hands each
//! thing it meets to an [`engine::Engine`] as an [`engine::Event`], and carries
//! out the [`engine::Request`] that comes back. Every decision (what counts as
//! a candidate, whether to remove or only to report, what is recorded, what the
//! log holds) is taken here and proved against the model in [`model`].
//!
//! - [`names`]: the deny-list and the test for membership in it.
//! - [`log`]: the text of the log of removed directories.
//! - [`model`]: the run as a state machine over plain values.
//! - [`engine`]: the engine itself, proved to follow the model.
//! - [`laws`]: what holds of every run.

pub mod names;
pub mod log;
pub mod model;
pub mod engine;
pub mod laws;
