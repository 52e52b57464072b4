//! Verified core of a dotfiles manager.
//!
//! Configuration files live both in a canonical repository directory and in
//! their active locations under the user's home directory.  The library
//! computes, as plain data, everything the manager decides: canonical paths,
//! per-file reconciliation decisions (newest copy wins), and the ordered
//! plans of copies and version-control steps that a thin I/O layer carries
//! out.

pub mod config;
pub mod notice;
pub mod options;
pub mod paths;
pub mod program;
pub mod reconcile;
pub mod settings;

use vstd::prelude::*;

verus! {

pub use paths::resolve;
pub use program::Program;
pub use settings::Settings;

} // verus!
