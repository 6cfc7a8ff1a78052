use vstd::prelude::*;

verus! {

/// Failure mode inside one pipeline stage, as reported by the native
/// conversion entry point's status code.
#[derive(Copy, Clone, Debug, PartialEq, Eq, Structural)]
pub enum Error {
    /// Could not read stream.
    ReadStream,
    /// Invalid photometric interpretation.
    InvalidPhotometricInterpretation,
    /// Could not execute change.
    ExecuteChange,
    /// Could not execute LUT change.
    ExecuteLUTChange,
    /// Could not write stream.
    WriteStream,
    /// Could not execute FileExplicitFilter.
    FileExplicitFilter,
    /// Invalid transfer syntax.
    InvalidTransferSyntax,
    /// Could not derive file.
    DeriveFile,
}

/// Stage-attributed pipeline failure: which of the three conversion stages
/// failed and how, or a condition outside any stage.
#[derive(Copy, Clone, Debug, PartialEq, Eq, Structural)]
pub enum GDCMError {
    /// A status code outside the known table, or a second undersize signal
    /// after the one permitted retry.
    Unknown,
    /// Input buffer pointer is NULL.
    PointerNULL,
    /// Empty input buffer.
    EmptyBuffer,
    /// The first transfer syntax conversion stage failed.
    Pre(Error),
    /// The photometric interpretation conversion stage failed.
    Photo(Error),
    /// The final transfer syntax conversion stage failed.
    Post(Error),
}

} // verus!
