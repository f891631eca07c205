//! Enumeration of active TCP/UDP sockets with owning-process identity.
//!
//! The crate decodes the raw connection tables that an operating system
//! exposes (a length-prefixed binary table, the `/proc/net` pseudo-files,
//! or the tabular output of an external diagnostic command) into one
//! canonical record shape, resolves the owning process of each socket,
//! and filters the result by protocol and port.  All decoding and
//! filtering logic is verified; reading the raw sources from the live
//! system is left to the surrounding application, which hands the raw
//! bytes and text in.

pub mod api;
pub mod filter;
pub mod linux;
pub mod lsof_parser;
pub mod macos;
pub mod models;
pub mod network;
pub mod platform;
pub mod process;
pub mod text;
pub mod unified;
pub mod windows;
