use vstd::prelude::*;

verus! {

/// What a call of the client can fail with.
#[derive(Debug, Clone)]
pub enum Error {
    /// A status-like code with a message: a rejected setting (code 400), a reply with a
    /// failure status, an empty reply, or a reply that could not be decoded.
    ApiError { code: u16, message: String },
    /// A decoded reply that breaks the rule on tool calls.
    SchemaValidationError(String),
    /// A failure of the transport layer, carried as the text it gave.
    TransportError(String),
}

/// The mathematical value of an [`Error`]: the same variants over sequences of characters.
pub enum ErrorView {
    ApiError { code: u16, message: Seq<char> },
    SchemaValidationError(Seq<char>),
    TransportError(Seq<char>),
}

impl View for Error {
    type V = ErrorView;

    open spec fn view(&self) -> ErrorView {
        match *self {
            Error::ApiError { code, message } => ErrorView::ApiError { code, message: message@ },
            Error::SchemaValidationError(message) => ErrorView::SchemaValidationError(message@),
            Error::TransportError(message) => ErrorView::TransportError(message@),
        }
    }
}

impl Error {
    /// The message that the error carries.
    pub fn message(&self) -> (text: &str)
        ensures
            text@ == match self@ {
                ErrorView::ApiError { code, message } => message,
                ErrorView::SchemaValidationError(message) => message,
                ErrorView::TransportError(message) => message,
            },
    {
        match self {
            Error::ApiError { code: _, message } => message.as_str(),
            Error::SchemaValidationError(message) => message.as_str(),
            Error::TransportError(message) => message.as_str(),
        }
    }
}

} // verus!
