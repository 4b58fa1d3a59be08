//! The error of the request/response plumbing.

use vstd::prelude::*;
use vstd::string::StringExecFns;

verus! {

/// What can go wrong between a requester and the task that answers it.
#[derive(Debug)]
pub enum AppError {
    /// Nothing more can be received.
    ReceiveError,
    /// The request could not be sent; the channel's message.
    SendError(String),
    /// The answer could not be had; the message of the error behind it.
    UnknownError(String),
    /// An I/O error.
    ConvertedError(std::io::Error),
    /// The answering side dropped its half of the reply channel.
    TokioRecvErrorError(tokio::sync::oneshot::error::RecvError),
}

/// The message that an error displays.
pub open spec fn error_text(err: AppError) -> Seq<char> {
    match err {
        AppError::ReceiveError => "Receive error"@,
        AppError::SendError(msg) => "Send error: "@ + msg@,
        AppError::UnknownError(msg) => "Unknown error: "@ + msg@,
        AppError::ConvertedError(_) => "Converted error"@,
        AppError::TokioRecvErrorError(_) => "Tokio error"@,
    }
}

impl AppError {
    /// The message that the error displays.
    pub fn message(&self) -> (text: String)
        ensures
            text@ == error_text(*self),
    {
        match self {
            AppError::ReceiveError => "Receive error".to_string(),
            AppError::SendError(msg) => {
                let mut text = "Send error: ".to_string();
                text.append(msg.as_str());
                text
            },
            AppError::UnknownError(msg) => {
                let mut text = "Unknown error: ".to_string();
                text.append(msg.as_str());
                text
            },
            AppError::ConvertedError(_) => "Converted error".to_string(),
            AppError::TokioRecvErrorError(_) => "Tokio error".to_string(),
        }
    }
}

impl From<std::io::Error> for AppError {
    fn from(err: std::io::Error) -> (converted: AppError) {
        AppError::ConvertedError(err)
    }
}

impl vstd::std_specs::convert::FromSpecImpl<std::io::Error> for AppError {
    open spec fn obeys_from_spec() -> bool {
        true
    }

    open spec fn from_spec(err: std::io::Error) -> AppError {
        AppError::ConvertedError(err)
    }
}

impl From<tokio::sync::oneshot::error::RecvError> for AppError {
    fn from(err: tokio::sync::oneshot::error::RecvError) -> (converted: AppError) {
        AppError::TokioRecvErrorError(err)
    }
}

impl vstd::std_specs::convert::FromSpecImpl<tokio::sync::oneshot::error::RecvError> for AppError {
    open spec fn obeys_from_spec() -> bool {
        true
    }

    open spec fn from_spec(err: tokio::sync::oneshot::error::RecvError) -> AppError {
        AppError::TokioRecvErrorError(err)
    }
}

} // verus!
