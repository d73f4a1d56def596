//! Serving a frontend's static assets from a compiled binary: an embedded
//! table of files answered with conditional-request handling and a cache
//! policy, and the lifecycle rules of a supervised dev-server process.

pub mod asset;
pub mod cache;
pub mod embed;
pub mod file_entry;
pub mod hash;
pub mod html;
pub mod manifest;
pub mod ports;
pub mod respond;
pub mod serve;
pub mod supervisor;
pub mod table;
pub mod text;
