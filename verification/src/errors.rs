//! Error taxonomy of the upload pipeline and the persistence gateway.

use vstd::prelude::*;

verus! {

/// A title rejected by length validation.
#[derive(Debug, Clone, Copy, PartialEq, Eq, Structural)]
pub enum ValidationError {
    /// The trimmed input has more characters than the maximum allows.
    TooLong,
    /// The trimmed input has fewer characters than the minimum requires.
    TooShort,
}

/// Failures of the in-memory persistence gateway, standing in for the
/// failures a relational engine would report.
#[derive(Debug, Clone, Copy, PartialEq, Eq, Structural)]
pub enum StoreError {
    /// No row matched the given id.
    NotFound,
    /// A join row referenced an instruction or step that does not exist.
    ForeignKeyViolation,
    /// The id generator ran out of fresh 32-bit ids.
    IdSpaceExhausted,
}

/// Everything that can make the upload orchestration fail.  Validator and
/// demultiplexer errors are detected before any persistence begins;
/// gateway errors leave the store unchanged.
#[derive(Debug, Clone, Copy, PartialEq, Eq, Structural)]
pub enum UploadError {
    /// The title is out of bounds.
    ValidationError(ValidationError),
    /// The multipart framing itself was broken or the stream failed
    /// mid-request.
    MalformedRequest,
    /// A field carried bytes that do not parse as the expected type
    /// (the instruction id is not a 32-bit integer).
    MalformedField,
    /// One of the three required fields (id, title, image) never appeared.
    MissingRequiredField,
    /// The uploaded bytes are not a decodable image.
    DecodeError,
    /// The persistence gateway refused the transaction; it was rolled back.
    DatabaseError(StoreError),
    /// Writing the derived image file failed.
    FilesystemError,
}

/// Server-level error kinds surfaced to HTTP callers.
#[derive(Debug, PartialEq, Eq)]
pub enum ServerError {
    DatabaseError(String),
    FileSystemError(String),
}

impl ServerError {
    /// A human-readable rendering, in place of a `Display` impl.
    pub fn message(&self) -> (r: String)
        ensures
            match self {
                ServerError::DatabaseError(s) => r@ == "database error: "@ + s@,
                ServerError::FileSystemError(s) => r@ == "file system error: "@ + s@,
            },
    {
        match self {
            ServerError::DatabaseError(s) => {
                let mut m = String::from_str("database error: ");
                m.append(s.as_str());
                m
            },
            ServerError::FileSystemError(s) => {
                let mut m = String::from_str("file system error: ");
                m.append(s.as_str());
                m
            },
        }
    }
}

} // verus!
