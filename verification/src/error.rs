//! The error type shared by every part of the tool.

use vstd::prelude::*;
use vstd::string::*;

verus! {

/// Everything that can make an invocation fail.
#[derive(Debug)]
pub enum SuperTerminalError {
    /// The language-model provider, or the network on the way to it, failed.
    /// Holds the provider's own description, unchanged.
    OpenAIError(String),
    /// The stored configuration, the request or the response is unusable.
    ConfigError(String),
    /// Reading or writing a file failed.
    IoError(String),
    /// The confirmation prompt was aborted.
    UserCancelled,
    /// The user's input was refused.
    InvalidInput(String),
    /// No API key is stored and none is in the environment.
    MissingApiKey,
}

/// A `SuperTerminalError` with its texts as sequences of characters.
pub enum ErrorView {
    OpenAIError(Seq<char>),
    ConfigError(Seq<char>),
    IoError(Seq<char>),
    UserCancelled,
    InvalidInput(Seq<char>),
    MissingApiKey,
}

impl View for SuperTerminalError {
    type V = ErrorView;

    open spec fn view(&self) -> ErrorView {
        match self {
            SuperTerminalError::OpenAIError(detail) => ErrorView::OpenAIError(detail@),
            SuperTerminalError::ConfigError(detail) => ErrorView::ConfigError(detail@),
            SuperTerminalError::IoError(detail) => ErrorView::IoError(detail@),
            SuperTerminalError::UserCancelled => ErrorView::UserCancelled,
            SuperTerminalError::InvalidInput(detail) => ErrorView::InvalidInput(detail@),
            SuperTerminalError::MissingApiKey => ErrorView::MissingApiKey,
        }
    }
}

impl ErrorView {
    /// The line shown to the user for this error.
    pub open spec fn message(self) -> Seq<char> {
        match self {
            ErrorView::OpenAIError(detail) => "OpenAI API error: "@ + detail,
            ErrorView::ConfigError(detail) => "Configuration error: "@ + detail,
            ErrorView::IoError(detail) => "IO error: "@ + detail,
            ErrorView::UserCancelled => "User cancelled the operation"@,
            ErrorView::InvalidInput(detail) => "Invalid input: "@ + detail,
            ErrorView::MissingApiKey =>
                "API key not found. Please set OPENAI_API_KEY environment variable"@,
        }
    }
}

impl SuperTerminalError {
    /// The line shown to the user for this error: what kind of failure it
    /// is, followed by its detail where it has one.
    pub fn message(&self) -> (text: String)
        ensures
            text@ == self@.message(),
    {
        match self {
            SuperTerminalError::OpenAIError(detail) => String::from_str(
                "OpenAI API error: ",
            ).concat(detail.as_str()),
            SuperTerminalError::ConfigError(detail) => String::from_str(
                "Configuration error: ",
            ).concat(detail.as_str()),
            SuperTerminalError::IoError(detail) => String::from_str("IO error: ").concat(
                detail.as_str(),
            ),
            SuperTerminalError::UserCancelled => String::from_str("User cancelled the operation"),
            SuperTerminalError::InvalidInput(detail) => String::from_str("Invalid input: ").concat(
                detail.as_str(),
            ),
            SuperTerminalError::MissingApiKey => String::from_str(
                "API key not found. Please set OPENAI_API_KEY environment variable",
            ),
        }
    }
}

/// The view of a result that carries a text or an error.
pub open spec fn text_result_view(result: Result<String, SuperTerminalError>) -> Result<
    Seq<char>,
    ErrorView,
> {
    match result {
        Ok(text) => Ok(text@),
        Err(error) => Err(error@),
    }
}

} // verus!
