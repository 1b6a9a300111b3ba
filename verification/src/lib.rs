//! MiniView shows a single in-memory image in a graphical window and hands the
//! calling program a lightweight handle with which the window can be closed
//! asynchronously.
//!
//! This crate is the verified core of that system: the configuration value
//! object and its builder, the input-source selection rules, the image-import
//! rules, the error taxonomy, and above all the cross-thread window lifecycle
//! controller — the state machine that decides, on every iteration of the
//! window's event loop, whether the window keeps running, redraws, or shuts
//! down, and how the outcome of the worker thread is reported back to the
//! caller.
//!
//! Everything that must touch the operating system — reading the standard
//! input, opening files, creating windows, spawning the worker thread — lives
//! outside this crate and consults the functions here for every decision.

use vstd::prelude::*;

pub mod cli;
pub mod config;
pub mod controller;
pub mod errors;
pub mod import;

pub use crate::config::Config;
pub use crate::config::ConfigBuilder;
pub use crate::errors::MiniViewError;

verus! {

/// A convenience type alias which represents a regular [`Result`] where the
/// error type is the [`MiniViewError`], the top-level error type for this
/// crate.
pub type MVResult<T> = Result<T, MiniViewError>;

/// The source of the image which will be shown by the view.
#[derive(Debug, Clone, PartialEq, Eq)]
pub enum Source {
    /// A path pointing at an image file on the filesystem,
    /// e.g. `/home/myuser/image.png` or `C:/Users/MyUser/image.png`.
    ByPath(String),

    /// An encoded image provided as a raw byte stream on the standard input.
    StdinBytes,
}

} // verus!
