//! An interactive manager for a short list of registered directories.
//!
//! The library holds the verified core: the emacs-style line editor with its
//! single-slot kill ring, the two-step add/edit flow orchestration, the
//! session state machine that dispatches key events, and the pure parsing and
//! decision logic around git status probing and editor launching. All I/O —
//! reading and writing the config file, probing the filesystem and git,
//! spawning editors, drawing the screen — lives outside, in collaborators
//! that hand the core plain values and carry out the actions it decides on.

pub mod chars;
pub mod config;
pub mod editor;
pub mod git;
pub mod launch;
pub mod paths;
pub mod session;
