//! The failures of the pipeline and the text that describes each of them.

use vstd::prelude::*;
use vstd::string::*;

verus! {

/// The part of a request to the origin that failed.
#[derive(Clone, Copy, Debug, PartialEq, Eq, Structural)]
pub enum FetchPhase {
    /// The request could not be sent or was not answered.
    Send,
    /// The answer arrived but its body could not be read in full.
    ReadBody,
}

/// The local operation that failed.
#[derive(Clone, Copy, Debug, PartialEq, Eq, Structural)]
pub enum IoStep {
    /// Creating the cache directory.
    CreateCacheDir,
    /// Feeding fetched bytes to the encoder.
    CompressWrite,
    /// Flushing the encoder.
    CompressFlush,
    /// Opening a cache entry.
    OpenEntry,
    /// Writing a cache entry.
    WriteEntry,
}

/// The five classes of failure.
#[derive(Clone, Copy, Debug, PartialEq, Eq, Structural)]
pub enum ErrorKind {
    InvalidUrl,
    UnsupportedScheme,
    NetworkError,
    IoError,
    ValidationError,
}

/// A failure of the pipeline, with the cause reported by whatever failed.
#[derive(Debug)]
pub enum FetchError {
    /// The URL text is not an absolute URL.
    InvalidUrl { cause: String },
    /// The URL is absolute but its scheme is neither `http` nor `https`.
    UnsupportedScheme,
    /// The origin could not be reached or its answer could not be read.
    NetworkError { phase: FetchPhase, cause: String },
    /// A local operation failed.
    IoError { step: IoStep, cause: String },
    /// The content is not well-formed structured data.
    ValidationError { cause: String },
}

impl FetchPhase {
    /// What the message of a network failure starts with.
    pub open spec fn prefix(self) -> Seq<char> {
        match self {
            FetchPhase::Send => "Failed to fetch URL: "@,
            FetchPhase::ReadBody => "Failed to read response body: "@,
        }
    }

    fn prefix_text(&self) -> (text: &'static str)
        ensures
            text@ == self.prefix(),
    {
        match self {
            FetchPhase::Send => "Failed to fetch URL: ",
            FetchPhase::ReadBody => "Failed to read response body: ",
        }
    }
}

impl IoStep {
    /// What the message of a local failure starts with.
    pub open spec fn prefix(self) -> Seq<char> {
        match self {
            IoStep::CreateCacheDir => "Failed to create cache directory: "@,
            IoStep::CompressWrite => "Failed to write compressed content: "@,
            IoStep::CompressFlush => "Failed to flush compressed content: "@,
            IoStep::OpenEntry => "Failed to open cache file: "@,
            IoStep::WriteEntry => "Failed to write cache file: "@,
        }
    }

    fn prefix_text(&self) -> (text: &'static str)
        ensures
            text@ == self.prefix(),
    {
        match self {
            IoStep::CreateCacheDir => "Failed to create cache directory: ",
            IoStep::CompressWrite => "Failed to write compressed content: ",
            IoStep::CompressFlush => "Failed to flush compressed content: ",
            IoStep::OpenEntry => "Failed to open cache file: ",
            IoStep::WriteEntry => "Failed to write cache file: ",
        }
    }
}

impl FetchError {
    /// The class of this failure.
    pub open spec fn spec_kind(&self) -> ErrorKind {
        match self {
            FetchError::InvalidUrl { .. } => ErrorKind::InvalidUrl,
            FetchError::UnsupportedScheme => ErrorKind::UnsupportedScheme,
            FetchError::NetworkError { .. } => ErrorKind::NetworkError,
            FetchError::IoError { .. } => ErrorKind::IoError,
            FetchError::ValidationError { .. } => ErrorKind::ValidationError,
        }
    }

    /// The class of this failure.
    #[verifier::when_used_as_spec(spec_kind)]
    pub fn kind(&self) -> (kind: ErrorKind)
        ensures
            kind == self.spec_kind(),
    {
        match self {
            FetchError::InvalidUrl { .. } => ErrorKind::InvalidUrl,
            FetchError::UnsupportedScheme => ErrorKind::UnsupportedScheme,
            FetchError::NetworkError { .. } => ErrorKind::NetworkError,
            FetchError::IoError { .. } => ErrorKind::IoError,
            FetchError::ValidationError { .. } => ErrorKind::ValidationError,
        }
    }

    /// The text of this failure: what went wrong, then the cause.
    pub open spec fn message_text(&self) -> Seq<char> {
        match self {
            FetchError::InvalidUrl { cause } => "Invalid URL: "@ + cause@,
            FetchError::UnsupportedScheme => "Only HTTP and HTTPS URLs are supported"@,
            FetchError::NetworkError { phase, cause } => phase.prefix() + cause@,
            FetchError::IoError { step, cause } => step.prefix() + cause@,
            FetchError::ValidationError { cause } => "Invalid JSON content from URL: "@ + cause@,
        }
    }

    /// Renders this failure as text.
    pub fn message(&self) -> (text: String)
        ensures
            text@ == self.message_text(),
    {
        match self {
            FetchError::InvalidUrl { cause } => String::from_str("Invalid URL: ").concat(
                cause.as_str(),
            ),
            FetchError::UnsupportedScheme => String::from_str(
                "Only HTTP and HTTPS URLs are supported",
            ),
            FetchError::NetworkError { phase, cause } => String::from_str(
                phase.prefix_text(),
            ).concat(cause.as_str()),
            FetchError::IoError { step, cause } => String::from_str(step.prefix_text()).concat(
                cause.as_str(),
            ),
            FetchError::ValidationError { cause } => String::from_str(
                "Invalid JSON content from URL: ",
            ).concat(cause.as_str()),
        }
    }
}

} // verus!
