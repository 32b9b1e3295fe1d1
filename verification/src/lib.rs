//! Resolution of a development environment, given by registered name or by
//! path, to the manifest location that a shell activation is started on.
//!
//! The crate holds the decisions only: the layout and lookup of the registry
//! of named environments, the rule on the command-line inputs, and the
//! diagnostics and exit codes of each failure. Reading files, canonicalizing
//! paths and starting the shell are left to the caller.

pub mod registry;
pub mod cli;
