//! Core of a small command-line search tool: turning raw process arguments
//! into a validated configuration, and turning the outcome of reading the
//! target file into its text or a precise, typed error.
//!
//! The surrounding program supplies the argument list and performs the one
//! file read; everything that decides or transforms lives here.

pub mod config;
pub mod loader;
