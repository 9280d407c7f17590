//! Errors that the protocol core reports to the firmware around it.

use vstd::prelude::*;

verus! {

/// Failure while serializing a frame or payload into a bounded buffer.
#[derive(Debug, Clone, Copy, PartialEq, Eq, Structural)]
pub enum EncodeError {
    FrameTooLong,
    PayloadTooLong,
}

impl EncodeError {
    pub open spec fn spec_message(self) -> Seq<char> {
        match self {
            EncodeError::FrameTooLong => "frame buffer too small"@,
            EncodeError::PayloadTooLong => "payload buffer too small"@,
        }
    }

    /// What a log line says of this error.
    pub fn message(self) -> (text: &'static str)
        ensures
            text@ == self.spec_message(),
    {
        match self {
            EncodeError::FrameTooLong => "frame buffer too small",
            EncodeError::PayloadTooLong => "payload buffer too small",
        }
    }
}

/// Fatal application error.
#[derive(Debug, Clone, Copy, PartialEq, Eq, Structural)]
pub enum AppError {
    InvalidRoleFeatureSet,
    FrameEncode(EncodeError),
}

pub type AppResult<T> = Result<T, AppError>;

impl From<EncodeError> for AppError {
    fn from(source: EncodeError) -> (error: AppError) {
        AppError::FrameEncode(source)
    }
}

impl vstd::std_specs::convert::FromSpecImpl<EncodeError> for AppError {
    open spec fn obeys_from_spec() -> bool {
        true
    }

    open spec fn from_spec(source: EncodeError) -> AppError {
        AppError::FrameEncode(source)
    }
}

impl AppError {
    pub open spec fn spec_message(self) -> Seq<char> {
        match self {
            AppError::InvalidRoleFeatureSet =>
                "enable exactly one role feature: sensor-node, relay-node, or gateway-node"@,
            AppError::FrameEncode(source) => "frame encode failed: "@ + source.spec_message(),
        }
    }

    /// What a log line says of this error.
    pub fn message(self) -> (text: String)
        ensures
            text@ == self.spec_message(),
    {
        match self {
            AppError::InvalidRoleFeatureSet => String::from_str(
                "enable exactly one role feature: sensor-node, relay-node, or gateway-node",
            ),
            AppError::FrameEncode(source) => String::from_str("frame encode failed: ").concat(
                source.message(),
            ),
        }
    }
}

} // verus!
