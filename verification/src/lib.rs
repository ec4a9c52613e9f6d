//! The decisions of a command-line tool that runs short-lived jobs on rented
//! cloud instances: which request goes to the provider next, what its answer
//! means, how a remote session over SSH proceeds, and what is printed.
//!
//! The library does no input or output. An operation is a sequence of
//! steps: each step names one action for the caller to carry out, and the
//! caller hands back what came of it. Every step is specified by a function
//! on plain values, and what must hold of whole operations is proved in
//! `providers::guarantees`.
pub mod config;
pub mod database;
pub mod hetzner;
pub mod jobs;
pub mod providers;
pub mod text;
pub mod utils;
