//! How an editor starts the language server for the Iris language.
//!
//! The crate answers one question for its host: which program to run, with
//! which arguments and in which environment. It spawns nothing itself.

pub mod command;
pub mod extension;
