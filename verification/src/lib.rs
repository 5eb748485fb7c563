//! Lookup-and-redirect core of a package download mirror.
//!
//! Given a package name and a version, the library finds the version's
//! record in a sharded registry index and decides the HTTP response: a
//! temporary redirect to the upstream registry's download URL, or an error
//! status. Reading the index file from disk and serving HTTP are left to the
//! caller, who hands the file's bytes in and sends the response out.

pub mod decode;
pub mod error;
pub mod handler;
pub mod json;
pub mod lines;
pub mod reader;
pub mod shard;
pub mod url;
