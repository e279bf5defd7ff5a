//! Verified core of a text-to-speech command-line tool.
//!
//! The library holds everything with decision logic: the audio-encoding
//! policy (wire identifiers and file extensions), output-path validation and
//! derivation, the credential-resolution order, JWT assertion assembly for
//! the service-account flow, per-provider request building, response
//! unwrapping, and the bulk defaults/override merge. Network and file I/O
//! live outside the library and hand it plain values.

pub mod ascii;
pub mod auth;
pub mod bulk;
pub mod digits;
pub mod encoding;
pub mod errors;
pub mod google;
pub mod json;
pub mod jwt;
pub mod paths;
pub mod providers;
pub mod voices;

pub use encoding::AudioEncoding;
