//! Errors returned by the library.
use vstd::prelude::*;

verus! {

/// Ways in which a byte string fails to be an ERC-5202 blueprint container.
#[derive(Clone, Copy, Debug, PartialEq, Eq, Structural)]
pub enum BlueprintError {
    /// No bytes at all.
    EmptyInput,
    /// The first two bytes are not `0xFE 0x71` (or the header is cut short).
    NotABlueprint,
    /// The length-encoding bits hold the reserved value `0b11`.
    ReservedBitsSet,
    /// Nothing is left for the initcode after the preamble.
    EmptyInitcode,
}

/// The error type of every fallible operation of the library.
#[derive(Debug)]
pub enum VyperErrors {
    /// A failure of the operating system, as text.
    IoError(String),
    /// The compiler exited unsuccessfully; holds its stderr verbatim.
    CompilerError(String),
    /// The compiler's output is not valid JSON.
    SerializationError(serde_json::Error),
    /// A concurrent task could not be joined, as text.
    ConcurrencyError(String),
    /// The package manager failed to install the compiler; holds its stderr.
    PipError(String),
    /// The isolated environment could not be created; holds the failing step's stderr.
    VenvError(String),
    /// The compiler binary is not where the environment says it should be.
    NotInstalled,
    /// The compiler could not report its version; holds its stderr.
    VersionQueryError(String),
    /// A batch was given a different number of source paths and ABI paths.
    LengthMismatch(usize, usize),
    /// A blueprint container could not be decoded.
    BlueprintError(BlueprintError),
}

} // verus!
