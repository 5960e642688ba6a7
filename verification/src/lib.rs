//! Interoperability helpers between a Linux subsystem and its Windows host.
//!
//! The crate holds the decisions of the tools: how a batch of paths is sent
//! to the Recycle Bin and how its outcome is classified, how paths, command
//! lines and clipboard text are rewritten. It performs no I/O itself: a
//! driver performs each platform call that the library asks for and hands the
//! result back as a plain value.
//!
//! The heart of the crate is the Recycle Bin engine in [`recycle_bin`]. A
//! driver runs a batch like this:
//!
//! ```text
//! let mut batch = recycle(paths, options);
//! loop {
//!     let reply = match batch.step() {
//!         Step::Finish(result) => return result,
//!         step => perform(step),
//!     };
//!     batch = batch.advance(reply);
//! }
//! ```
//!
//! [`recycle_model`] states what such a run comes to, and [`recycle_laws`]
//! what holds of every batch.

pub mod clipboard;
pub mod hresult;
pub mod message_box;
pub mod open;
pub mod recycle_bin;
pub mod recycle_command;
pub mod recycle_error;
pub mod recycle_laws;
pub mod recycle_model;
pub mod recycle_progress_sink;
pub mod run_in_wsl;
pub mod text;
pub mod utf16;
pub mod vscode;
pub mod wslpath;
pub mod xsel;
