//! Library behind a small system-information HTTP service: it decodes the
//! captured output of two fixed command-line tools one byte per character,
//! decides whether an invocation succeeded, assembles the response body from
//! fixed banner text and the two outputs, and selects the port to listen on.

pub mod decode;
pub mod port;
pub mod report;
