use vstd::prelude::*;
use crate::text::prefixed;

verus! {

/// The failure categories of an analysis job.
#[derive(Debug, Clone)]
pub enum AppError {
    /// The upload is not a readable archive, or it could not be unpacked.
    ZipError(String),
    /// The scanning tool could not be launched or exited with a failure status.
    ScannerError(String),
    /// The analysis engine could not be reached, answered badly, or reported
    /// a failed, canceled or overdue task.
    ApiError(String),
    /// The request carries no upload field.
    MissingField(String),
    /// A local failure unrelated to the caller's input.
    InternalError(String),
}

pub const STATUS_BAD_REQUEST: u16 = 400;
pub const STATUS_INTERNAL: u16 = 500;
pub const STATUS_BAD_GATEWAY: u16 = 502;

impl AppError {
    /// The HTTP status that reports this kind of failure.
    pub open spec fn spec_status(&self) -> u16 {
        match self {
            AppError::ZipError(_) => STATUS_BAD_REQUEST,
            AppError::ScannerError(_) => STATUS_INTERNAL,
            AppError::ApiError(_) => STATUS_BAD_GATEWAY,
            AppError::MissingField(_) => STATUS_BAD_REQUEST,
            AppError::InternalError(_) => STATUS_INTERNAL,
        }
    }

    /// The detail text that the error carries.
    pub open spec fn detail(&self) -> Seq<char> {
        match self {
            AppError::ZipError(m) => m@,
            AppError::ScannerError(m) => m@,
            AppError::ApiError(m) => m@,
            AppError::MissingField(m) => m@,
            AppError::InternalError(m) => m@,
        }
    }

    /// The label that opens the reported message of this kind of failure.
    pub open spec fn label(&self) -> Seq<char> {
        match self {
            AppError::ZipError(_) => "Zip Error: "@,
            AppError::ScannerError(_) => "Scanner Error: "@,
            AppError::ApiError(_) => "SonarQube API Error: "@,
            AppError::MissingField(_) => "Missing Field: "@,
            AppError::InternalError(_) => "Internal Error: "@,
        }
    }

    /// The HTTP status of the error response.
    pub fn status_code(&self) -> (r: u16)
        ensures
            r == self.spec_status(),
    {
        match self {
            AppError::ZipError(_) => STATUS_BAD_REQUEST,
            AppError::ScannerError(_) => STATUS_INTERNAL,
            AppError::ApiError(_) => STATUS_BAD_GATEWAY,
            AppError::MissingField(_) => STATUS_BAD_REQUEST,
            AppError::InternalError(_) => STATUS_INTERNAL,
        }
    }

    /// The human-readable message of the error response: the kind's label
    /// followed by the detail.
    pub fn message(&self) -> (r: String)
        ensures
            r@ == self.label() + self.detail(),
    {
        match self {
            AppError::ZipError(m) => prefixed("Zip Error: ", m.as_str()),
            AppError::ScannerError(m) => prefixed("Scanner Error: ", m.as_str()),
            AppError::ApiError(m) => prefixed("SonarQube API Error: ", m.as_str()),
            AppError::MissingField(m) => prefixed("Missing Field: ", m.as_str()),
            AppError::InternalError(m) => prefixed("Internal Error: ", m.as_str()),
        }
    }
}

} // verus!
