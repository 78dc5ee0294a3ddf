//! The ways an operation can fail.

use vstd::prelude::*;
use vstd::string::StringExecFns;

verus! {

/// Why an operation stopped. The first error ends the operation; nothing is
/// retried.
#[derive(Debug, Clone, Copy, PartialEq, Eq, Structural)]
pub enum OpsmlError {
    /// Both or neither of name/version and uid were given.
    InvalidArguments,
    /// No base URL was configured.
    ConfigurationError,
    /// The transport failed.
    NetworkError,
    /// The server answered with a status outside 200..=299.
    UnexpectedStatus { status: u16 },
    /// The response body did not have the expected shape.
    DecodeError,
    /// The optimized artifact was asked for and the model has none.
    NoOnnxArtifact,
    /// A directory or file operation failed.
    IOError,
}

impl OpsmlError {
    /// The text shown to the user for this error.
    pub open spec fn message_text(self) -> Seq<char> {
        match self {
            OpsmlError::InvalidArguments => "Either name/version or uid must be specified"@,
            OpsmlError::ConfigurationError => "No tracking uri set"@,
            OpsmlError::NetworkError => "Request to the registry failed"@,
            OpsmlError::UnexpectedStatus { .. } => "Registry answered with an unexpected status"@,
            OpsmlError::DecodeError => "Failed to load response JSON"@,
            OpsmlError::NoOnnxArtifact => "No onnx model uri found"@,
            OpsmlError::IOError => "Unable to write file"@,
        }
    }

    pub fn message(&self) -> (text: String)
        ensures
            text@ == self.message_text(),
    {
        match self {
            OpsmlError::InvalidArguments => String::from_str(
                "Either name/version or uid must be specified",
            ),
            OpsmlError::ConfigurationError => String::from_str("No tracking uri set"),
            OpsmlError::NetworkError => String::from_str("Request to the registry failed"),
            OpsmlError::UnexpectedStatus { .. } => String::from_str(
                "Registry answered with an unexpected status",
            ),
            OpsmlError::DecodeError => String::from_str("Failed to load response JSON"),
            OpsmlError::NoOnnxArtifact => String::from_str("No onnx model uri found"),
            OpsmlError::IOError => String::from_str("Unable to write file"),
        }
    }
}

} // verus!
