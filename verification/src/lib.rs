//! Decision logic of a Windows installer for the Rust MSVC toolchain: how
//! the output of `rustup`, `rustc` and PowerShell is read, what the user's
//! answers decide, which scripts are run, and in what order the steps go.
pub mod command;
pub mod commands;
pub mod decision;
pub mod error;
pub mod laws;
pub mod process;
pub mod redist;
pub mod report;
pub mod scripts;
pub mod status;
pub mod text;
pub mod toolchain;
