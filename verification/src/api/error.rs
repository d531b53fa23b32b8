//! The failures a query can end in.

use crate::text::{signed_decimal, signed_text};
use vstd::prelude::*;
use vstd::string::StringExecFns;

verus! {

/// A request value could not be written as a query string or as a body.
#[derive(Clone, Debug, PartialEq, Eq)]
pub enum BodyError {
    /// The parameters could not be URL-encoded; holds the encoder's message.
    UrlEncoded(String),
    /// The body could not be written as JSON; holds the writer's message.
    Json(String),
}

pub enum BodyErrorView {
    UrlEncoded(Seq<char>),
    Json(Seq<char>),
}

impl View for BodyError {
    type V = BodyErrorView;

    open spec fn view(&self) -> BodyErrorView {
        match self {
            BodyError::UrlEncoded(message) => BodyErrorView::UrlEncoded(message@),
            BodyError::Json(message) => BodyErrorView::Json(message@),
        }
    }
}

impl BodyErrorView {
    /// What the error says, as a sentence.
    pub open spec fn text(self) -> Seq<char> {
        match self {
            BodyErrorView::UrlEncoded(message) => "failed to URL encode form parameters: "@
                + message,
            BodyErrorView::Json(message) => "failed to write the JSON body: "@ + message,
        }
    }
}

impl BodyError {
    /// What the error says, as a sentence.
    pub fn message(&self) -> (message: String)
        ensures
            message@ == self@.text(),
    {
        match self {
            BodyError::UrlEncoded(detail) => {
                let mut message = String::from_str("failed to URL encode form parameters: ");
                message.append(detail.as_str());
                message
            },
            BodyError::Json(detail) => {
                let mut message = String::from_str("failed to write the JSON body: ");
                message.append(detail.as_str());
                message
            },
        }
    }
}

/// The transport could not carry out an exchange: no connection, a timeout,
/// a failed handshake.
#[derive(Debug, PartialEq, Eq)]
pub struct TransportError {
    pub message: String,
}

impl Clone for TransportError {
    fn clone(&self) -> (copy: TransportError)
        ensures
            copy@ == self@,
    {
        TransportError { message: self.message.clone() }
    }
}

impl View for TransportError {
    type V = Seq<char>;

    open spec fn view(&self) -> Seq<char> {
        self.message@
    }
}

/// Why a query did not give a value.
#[derive(Clone, Debug, PartialEq, Eq)]
pub enum ApiError {
    /// The transport failed; the error is handed on as it came.
    Client(TransportError),
    /// The request could not be assembled.
    Body(BodyError),
    /// The service answered with its error envelope.
    Api { status: i64, message: String },
    /// The answer did not have the expected shape; holds the answer as it
    /// was received.
    Decode { payload: Vec<u8> },
}

pub enum ApiErrorView {
    Client(Seq<char>),
    Body(BodyErrorView),
    Api { status: i64, message: Seq<char> },
    Decode { payload: Seq<u8> },
}

impl View for ApiError {
    type V = ApiErrorView;

    open spec fn view(&self) -> ApiErrorView {
        match self {
            ApiError::Client(e) => ApiErrorView::Client(e@),
            ApiError::Body(e) => ApiErrorView::Body(e@),
            ApiError::Api { status, message } => ApiErrorView::Api {
                status: *status,
                message: message@,
            },
            ApiError::Decode { payload } => ApiErrorView::Decode { payload: payload@ },
        }
    }
}

impl ApiErrorView {
    /// What the error says, as a sentence.
    pub open spec fn text(self) -> Seq<char> {
        match self {
            ApiErrorView::Client(message) => "client error: "@ + message,
            ApiErrorView::Body(e) => e.text(),
            ApiErrorView::Api { status, message } => "the service answered with status "@
                + signed_decimal(status as int) + ": "@ + message,
            ApiErrorView::Decode { payload } => "could not decode the answer"@,
        }
    }
}

impl ApiError {
    /// What the error says, as a sentence.
    pub fn message(&self) -> (message: String)
        ensures
            message@ == self@.text(),
    {
        match self {
            ApiError::Client(e) => {
                let mut message = String::from_str("client error: ");
                message.append(e.message.as_str());
                message
            },
            ApiError::Body(e) => e.message(),
            ApiError::Api { status, message } => {
                let mut text = String::from_str("the service answered with status ");
                text.append(signed_text(*status).as_str());
                text.append(": ");
                text.append(message.as_str());
                text
            },
            ApiError::Decode { payload } => String::from_str("could not decode the answer"),
        }
    }
}

} // verus!
