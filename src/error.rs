//! The failures that the protocol operations report.
use vstd::prelude::*;

verus! {

/// Why an exchange with the power strip did not succeed.
#[derive(Debug, Clone, Copy, PartialEq, Eq, Structural)]
pub enum Error {
    /// Connecting, sending or receiving failed, or no reply came in time.
    Transport,
    /// The reply is not the JSON envelope that was expected, or lacks a field.
    Protocol,
    /// A command was attempted before a snapshot and device id were known.
    Configuration,
    /// No outlet of the cached snapshot carries the requested alias.
    NotFound,
    /// The deobfuscated reply is not valid UTF-8 text.
    Encoding,
}

} // verus!
