//! The core of a streaming server for local video files.
//!
//! A desktop player cannot seek in a large file that it has to load whole. This
//! library serves such files over HTTP on the loopback interface, with byte
//! ranges: a file is registered under an identifier, the player is given an
//! address for it, and each request is answered with the whole file or with
//! exactly the span it asks for.
//!
//! The library decides and computes; it opens no file and no socket. Its parts,
//! leaves first:
//!
//! - `text` and `numeral`: characters, and numbers written and read as text;
//! - `range`: the value of a `Range` header, read against the length of a file;
//! - `content_type`: the media type for the extension of a file name;
//! - `registry`: paths under identifiers that are hashes of the paths;
//! - `response`: responses, their status and their header fields;
//! - `handler`: the decisions from a request to its response, one event of
//!   the file system at a time;
//! - `streaming_server`: the server's port, its registry, and the addresses
//!   it issues;
//! - `models`: the records of the playlist manager around the server.

pub mod content_type;
pub mod handler;
pub mod models;
pub mod numeral;
pub mod range;
pub mod registry;
pub mod response;
pub mod streaming_server;
pub mod text;
