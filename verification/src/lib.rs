//! Compiler pipeline for the Z declarative source language.
//!
//! Z source text declares compilation targets as top-level blocks of the
//! shape `<target-type> <AppName> { ... }`.  The library parses such text
//! into a tree, validates each declared target against a capability
//! registry, routes it to a target compiler, and describes the output that
//! should be written for it: either one generated text file or a full
//! project directory tree.  Writing the output to disk, and everything else
//! that touches the outside world, is left to the binary around the library.

pub mod ast;
pub mod compilers;
pub mod driver;
pub mod laws;
pub mod nextjs;
pub mod parser;
pub mod project;
pub mod registry;
pub mod rust;
pub mod strutil;
pub mod swiftui;
pub mod tauri;
