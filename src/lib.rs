//! Fallible sequential I/O steps, with the logic between them verified:
//! validation of HTTP status codes, UTF-8 text decode, structured decode of a
//! JSON listing into records and its re-encoding, and the joining of two file
//! contents into a greeting. The network and file system calls themselves are
//! left to the caller, which hands these functions the status codes and bytes
//! it got.

pub mod error;
pub mod files;
pub mod json;
pub mod pipeline;
pub mod record;
pub mod status;
pub mod text;
