//! Lifecycle guard for a symlinked redirection directory.
//!
//! Given a process identifier and a directory path, the guard waits for the
//! process to terminate, tears down the symbolic link standing at the path
//! (refusing to touch anything that is not a symlink), and then tries to
//! rename a sibling backup directory back into the vacated slot.
//!
//! The decision logic lives here as a verified state machine
//! ([`machine`]); the surrounding program performs the filesystem and
//! process-table actions the machine asks for and feeds the observations
//! back in as events.

pub mod machine;
pub mod pathname;
pub mod prober;
