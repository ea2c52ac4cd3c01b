//! A small line-oriented command interpreter: a tokenizer, a command parser,
//! a builtin dispatcher and an executor that turns commands into process
//! plans (single spawns or multi-stage pipelines with file redirections).
//!
//! Everything that decides or computes lives here, verified; reading lines,
//! spawning processes and touching the file system is left to the program
//! around the library, which only carries out the plans produced here.

pub mod builtins;
pub mod digits;
pub mod error;
pub mod executor;
pub mod shell;
pub mod parser;
pub mod strutil;
