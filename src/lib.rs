//! Drafting commit messages for pending changes: the interactive commit
//! session as a state machine, the request and reply of the text-generation
//! service, the configuration file, and the version-control command lines.
use vstd::prelude::*;

pub mod command;
pub mod config;
pub mod prompt;
pub mod reply;
pub mod session;
pub mod text;

verus! {

} // verus!
