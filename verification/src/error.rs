//! The errors of the service, and how each is reported to a client.

use vstd::prelude::*;

verus! {

/// Everything that can go wrong while serving a request.
#[derive(Clone, Debug, PartialEq, Eq)]
pub enum ApiError {
    /// The request names a command type other than `toggle`.
    InvalidCommand,
    /// The request names an action other than `ON` or `OFF`.
    InvalidAction,
    /// The request names no device that has a pin.
    InvalidPin,
    /// The configuration could not be read or understood.
    ConfigError(String),
    /// A backend tool could not be run, failed, or printed what nobody
    /// understands. Holds the message, with the tool's own words in it.
    GpioError(String),
    /// Anything else.
    InternalError,
}

/// An [`ApiError`] as plain text.
pub enum ApiErrorView {
    InvalidCommand,
    InvalidAction,
    InvalidPin,
    ConfigError(Seq<char>),
    GpioError(Seq<char>),
    InternalError,
}

impl View for ApiError {
    type V = ApiErrorView;

    open spec fn view(&self) -> ApiErrorView {
        match self {
            ApiError::InvalidCommand => ApiErrorView::InvalidCommand,
            ApiError::InvalidAction => ApiErrorView::InvalidAction,
            ApiError::InvalidPin => ApiErrorView::InvalidPin,
            ApiError::ConfigError(detail) => ApiErrorView::ConfigError(detail@),
            ApiError::GpioError(detail) => ApiErrorView::GpioError(detail@),
            ApiError::InternalError => ApiErrorView::InternalError,
        }
    }
}

/// The body of an error response.
#[derive(Clone, Debug, PartialEq, Eq)]
pub struct ErrorBody {
    /// Always `true`.
    pub error: bool,
    pub message: String,
    /// The HTTP status, repeated in the body.
    pub status: u16,
}

impl ApiErrorView {
    /// The HTTP status that reports the error: 400 for a request that asks
    /// for something the service does not do, 500 for everything else.
    pub open spec fn status(self) -> u16 {
        match self {
            ApiErrorView::InvalidCommand | ApiErrorView::InvalidAction | ApiErrorView::InvalidPin => 400,
            _ => 500,
        }
    }

    /// The message in the response body. Configuration and GPIO errors are
    /// reported in their own words.
    pub open spec fn message(self) -> Seq<char> {
        match self {
            ApiErrorView::InvalidCommand => "Invalid command type. Expected ''toggle''"@,
            ApiErrorView::InvalidAction => "Invalid action. Expected ''ON'' or ''OFF''"@,
            ApiErrorView::InvalidPin => "Invalid GPIO pin"@,
            ApiErrorView::ConfigError(detail) => detail,
            ApiErrorView::GpioError(detail) => detail,
            ApiErrorView::InternalError => "Internal server error"@,
        }
    }

    /// The error in one line, as it is logged.
    pub open spec fn display(self) -> Seq<char> {
        match self {
            ApiErrorView::InvalidCommand => "Invalid command type"@,
            ApiErrorView::InvalidAction => "Invalid action"@,
            ApiErrorView::InvalidPin => "Invalid PIN"@,
            ApiErrorView::ConfigError(detail) => "Configuration error: "@ + detail,
            ApiErrorView::GpioError(detail) => "GPIO error: "@ + detail,
            ApiErrorView::InternalError => "Internal server error"@,
        }
    }
}

impl ApiError {
    /// The HTTP status that reports this error.
    pub fn status_code(&self) -> (status: u16)
        ensures
            status == self@.status(),
    {
        match self {
            ApiError::InvalidCommand | ApiError::InvalidAction | ApiError::InvalidPin => 400,
            _ => 500,
        }
    }

    /// The message that the response body carries.
    pub fn response_message(&self) -> (message: String)
        ensures
            message@ == self@.message(),
    {
        match self {
            ApiError::InvalidCommand => String::from_str(
                "Invalid command type. Expected ''toggle''",
            ),
            ApiError::InvalidAction => String::from_str(
                "Invalid action. Expected ''ON'' or ''OFF''",
            ),
            ApiError::InvalidPin => String::from_str("Invalid GPIO pin"),
            ApiError::ConfigError(detail) => detail.clone(),
            ApiError::GpioError(detail) => detail.clone(),
            ApiError::InternalError => String::from_str("Internal server error"),
        }
    }

    /// The error in one line.
    pub fn to_string(&self) -> (line: String)
        ensures
            line@ == self@.display(),
    {
        match self {
            ApiError::InvalidCommand => String::from_str("Invalid command type"),
            ApiError::InvalidAction => String::from_str("Invalid action"),
            ApiError::InvalidPin => String::from_str("Invalid PIN"),
            ApiError::ConfigError(detail) => String::from_str("Configuration error: ").concat(
                detail.as_str(),
            ),
            ApiError::GpioError(detail) => String::from_str("GPIO error: ").concat(
                detail.as_str(),
            ),
            ApiError::InternalError => String::from_str("Internal server error"),
        }
    }

    /// The response body that reports this error.
    pub fn into_response(self) -> (body: ErrorBody)
        ensures
            body.error,
            body.message@ == self@.message(),
            body.status == self@.status(),
    {
        let status = self.status_code();
        let message = match self {
            ApiError::ConfigError(detail) => detail,
            ApiError::GpioError(detail) => detail,
            other => other.response_message(),
        };
        ErrorBody { error: true, message, status }
    }

    /// The error for a configuration file that could not be read.
    pub fn config_unreadable(reason: &str) -> (error: ApiError)
        ensures
            error@ == ApiErrorView::ConfigError("Failed to read config: "@ + reason@),
    {
        ApiError::ConfigError(String::from_str("Failed to read config: ").concat(reason))
    }

    /// The error for a configuration file that could not be parsed.
    pub fn config_malformed(reason: &str) -> (error: ApiError)
        ensures
            error@ == ApiErrorView::ConfigError("Failed to parse config: "@ + reason@),
    {
        ApiError::ConfigError(String::from_str("Failed to parse config: ").concat(reason))
    }
}

} // verus!
