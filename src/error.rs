use vstd::prelude::*;

verus! {

/// Every way in which one step of a pipeline can fail.
#[derive(Debug, Clone, Copy, PartialEq, Eq, Structural)]
pub enum StepError {
    /// The network call could not be made or completed.
    TransportError,
    /// The server answered with a status in 400..=499.
    ClientError { status_code: u16 },
    /// The server answered with a status in 500..=599.
    ServerError { status_code: u16 },
    /// Bytes that were to be read as text are not valid UTF-8.
    EncodingError,
    /// A body is not a JSON array of well-formed records.
    SchemaError,
    /// The file does not exist.
    NotFound,
    /// The file may not be opened as asked.
    PermissionDenied,
    /// Any other failure while reading or writing a file.
    IoError,
}

} // verus!
