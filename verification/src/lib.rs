//! A minimal interactive shell's command-processing core.
//!
//! The pipeline for one input line: the tokenizer splits the line into
//! quote-aware words, the resolver classifies a command name as a built-in,
//! an executable on the search path, or not found, and the command module
//! turns a token sequence into a typed command value and builds the
//! diagnostic messages that execution reports. All process interaction
//! (reading lines, environment variables, the filesystem, spawning) is left
//! to the embedding program, which hands this library plain values.

pub mod text;
pub mod tokenizer;
pub mod resolver;
pub mod command;
