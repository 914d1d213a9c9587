use vstd::prelude::*;

verus! {

/// The failures a library operation can report. Every fallible step maps to
/// one of these; no operation panics or aborts the process.
#[derive(Clone, Copy, Debug, PartialEq, Eq, Structural)]
pub enum MercyError {
    /// Malformed encoded input handed to a codec.
    DecodeError,
    /// A referenced file or path does not exist.
    NotFound,
    /// A connection, transport or HTTP-level failure.
    NetworkError,
    /// A response body is not valid structured data.
    ParseError,
    /// The operating system or file system failed to supply a value.
    IoError,
    /// The selected operation name matches no recognized variant.
    UnsupportedOperation,
}

} // verus!
