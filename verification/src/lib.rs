//! Host-side logic of a small JavaScript runtime: module resolution, the
//! builtin module registry and its export protocol, value rendering for the
//! console, path utilities, open-flag parsing and the run/idle lifecycle.
//!
//! Everything here works on plain values; driving the script engine and the
//! operating system is left to the embedding program.

pub mod cli;
pub mod console;
pub mod exports;
pub mod fs;
pub mod os;
pub mod path;
pub mod process;
pub mod resolver;
pub mod runtime;
pub mod text;
pub mod value;
pub mod vm;
