//! Batch file-renaming library.
//!
//! The core of a renaming run is pure decision logic: derive a new filename
//! from an old one according to a `RenameMode`, detect a destination
//! collision, and resolve it by policy (fail, overwrite, or auto-number).
//! This crate verifies that logic; the surrounding process (directory
//! traversal, the rename system call) feeds it events and carries out the
//! actions it decides on.

pub mod config;
pub mod naming;
pub mod process;
pub mod transform;
