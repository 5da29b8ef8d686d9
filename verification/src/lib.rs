//! Bridges HTTP streams to named pipes (FIFOs).
//!
//! Any program that can open and read a file can then consume an HTTP stream.
//! The decisions are here: how a command line becomes configurations
//! ([`cli`]), what a mount does next ([`mount`]), how the results of several
//! mounts come together ([`mount_all`]), and what is reported at the end
//! ([`exit`]). Touching files, sockets and signals is left to the program around
//! the library.
pub mod cli;
pub mod config;
pub mod error;
pub mod exit;
pub mod fifo;
pub mod http;
pub mod logging;
pub mod mount;
pub mod mount_all;
pub mod protocol;
pub mod runs;
pub mod text;

pub use crate::mount::mount;
pub use crate::mount_all::mount_all;
