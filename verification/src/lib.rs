//! Building blocks of a small multi-command utility: random values rendered as
//! text, the planning and reporting of a batch media conversion, and the report
//! of a public-address lookup.
//!
//! Everything here computes on plain values. Reading directories, spawning the
//! conversion tool, talking to the network and printing are left to the caller.
//! Paths are held as the bytes by which the system knows them, so that a file
//! name which is no text reaches the conversion tool as it is.

pub mod convert;
pub mod discovery;
pub mod jobs;
pub mod paths;
pub mod random;
pub mod rng;
pub mod session;
pub mod text;
pub mod whoami;

use vstd::prelude::*;

verus! {

/// The number with which a process ends.
pub type ExitCode = i32;

/// The exit code of a process that did what it was asked.
pub const EXIT_CODE_SUCCESS: ExitCode = 0;

} // verus!
