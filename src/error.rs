//! Error kinds of the library.
use vstd::prelude::*;

verus! {

/// `std::str::Utf8Error`, carried unopened when the engine hands back bytes that are not UTF-8.
#[verifier::external_type_specification]
#[verifier::external_body]
pub struct ExUtf8Error(std::str::Utf8Error);

/// `std::io::Error`, carried unopened when a response body cannot be read.
#[verifier::external_type_specification]
#[verifier::external_body]
pub struct ExIoError(std::io::Error);

/// `ureq::Error`, carried unopened when the HTTP transport fails.
#[verifier::external_type_specification]
#[verifier::external_body]
pub struct ExUreqError(ureq::Error);

/// An interior NUL byte was found in a string meant for the engine.
///
/// Holds the offending bytes and the position of the first NUL among them.
#[derive(Debug)]
pub struct NulError {
    pub nul_position: usize,
    pub bytes: Vec<u8>,
}

impl NulError {
    /// Position of the first NUL byte.
    pub fn nul_position(&self) -> (r: usize)
        ensures
            r == self.nul_position,
    {
        self.nul_position
    }

    /// The bytes that held the NUL.
    pub fn into_vec(self) -> (r: Vec<u8>)
        ensures
            r@ == self.bytes@,
    {
        self.bytes
    }
}

/// Errors which can occur during projection, conversion, introspection and grid download.
#[derive(Debug)]
pub enum ProjError {
    /// A projection error, with the engine's message.
    Projection(String),
    /// A conversion error, with the engine's message.
    Conversion(String),
    /// A string could not be handed to the engine.
    Creation(NulError),
    /// The engine reported an area of use that is neither known nor unknown.
    UnknownAreaOfUse,
    /// A user-supplied path could not be read as a string.
    Path,
    /// The engine returned bytes that are not UTF-8.
    Utf8Error(std::str::Utf8Error),
    /// A number could not be converted to or from `f64`.
    FloatConversion,
    /// Network download could not be switched as requested.
    Network,
    /// The grid download callbacks could not be registered.
    RemoteCallbacks,
    /// The HTTP transport failed.
    NetworkError(Box<ureq::Error>),
    /// A request could not be cloned.
    RequestCloneError,
    /// A response carried no usable Content-Length.
    ContentLength,
    /// A header was asked for that the last response did not carry.
    HeaderError(String),
    /// A response body could not be read.
    ReadError(std::io::Error),
    /// A download failed: status, URL and the retries that were used.
    DownloadError(String, String, u8),
    /// The current definition could not be retrieved.
    Definition,
    /// The definition could not be represented in the requested JSON format.
    ExportToJson,
}

/// Errors of the construction of a transformation object.
#[derive(Debug)]
pub enum ProjCreateError {
    /// A NUL byte was found in the definition or in a CRS argument.
    ArgumentNulError(NulError),
    /// The engine refused the definition, with its message.
    ProjError(String),
    /// Coordinate metadata cannot be attached to a pipeline.
    MetadataObjectCreation,
}

/// Errors of the construction of a pipeline handle.
#[derive(Debug)]
pub enum PjCreateError {
    /// A NUL byte was found in the definition or in a CRS argument.
    ArgumentNulError(NulError),
    /// The engine refused the definition, with its message.
    ProjError(String),
    /// The engine's message was not UTF-8.
    ProjErrorMessageUtf8Error(std::str::Utf8Error),
}

/// Errors of transforming a geometry between two CRSs.
#[derive(Debug)]
pub enum TransformError {
    ProjCreateError(ProjCreateError),
    ProjError(ProjError),
}

impl From<ProjError> for TransformError {
    fn from(e: ProjError) -> (r: TransformError) {
        TransformError::ProjError(e)
    }
}

impl vstd::std_specs::convert::FromSpecImpl<ProjError> for TransformError {
    open spec fn obeys_from_spec() -> bool {
        true
    }

    open spec fn from_spec(e: ProjError) -> TransformError {
        TransformError::ProjError(e)
    }
}

impl From<ProjCreateError> for TransformError {
    fn from(e: ProjCreateError) -> (r: TransformError) {
        TransformError::ProjCreateError(e)
    }
}

impl vstd::std_specs::convert::FromSpecImpl<ProjCreateError> for TransformError {
    open spec fn obeys_from_spec() -> bool {
        true
    }

    open spec fn from_spec(e: ProjCreateError) -> TransformError {
        TransformError::ProjCreateError(e)
    }
}

} // verus!
