//! Core of a package backend: the registry of installed packages, tree
//! checksums, manifest validation, the sandbox plan, the install and remove
//! transactions, and the command interface.
//!
//! Everything here computes on plain values. Reading files, forking and
//! talking to the kernel are left to the program that drives this library.

pub mod command;
pub mod engine;
pub mod error;
pub mod isolation;
pub mod json;
pub mod manifest;
pub mod sandbox;
pub mod state;
pub mod text;
pub mod verify;
