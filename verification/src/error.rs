//! The failures that the backend reports to the widget.

use crate::text::{decimal, push_decimal};
use vstd::prelude::*;

verus! {

/// A failure of a command.
#[derive(Debug, PartialEq, Eq)]
pub enum BackendError {
    /// The forecast service could not be reached; the transport's own words.
    Network(String),
    /// The forecast service answered with a status outside 200 to 299.
    Api(u16),
    /// The body of the answer is no JSON document; the parser's own words.
    Parse(String),
    /// The lock around the notification state is poisoned; the lock's own words.
    Lock(String),
}

pub enum ErrorView {
    Network(Seq<char>),
    Api(int),
    Parse(Seq<char>),
    Lock(Seq<char>),
}

impl View for BackendError {
    type V = ErrorView;

    open spec fn view(&self) -> ErrorView {
        match self {
            BackendError::Network(detail) => ErrorView::Network(detail@),
            BackendError::Api(status) => ErrorView::Api(*status as int),
            BackendError::Parse(detail) => ErrorView::Parse(detail@),
            BackendError::Lock(detail) => ErrorView::Lock(detail@),
        }
    }
}

/// The text under which the widget shows a failure.
pub open spec fn message_text(e: ErrorView) -> Seq<char> {
    match e {
        ErrorView::Network(detail) => "ネットワークエラー: "@ + detail,
        ErrorView::Api(status) => "API呼び出しエラー: "@ + decimal(status as nat),
        ErrorView::Parse(detail) => "JSONパースエラー: "@ + detail,
        ErrorView::Lock(detail) => detail,
    }
}

impl BackendError {
    /// The text under which the widget shows this failure.
    pub fn message(&self) -> (r: String)
        ensures
            r@ == message_text(self@),
    {
        match self {
            BackendError::Network(detail) => {
                let mut out = String::from_str("ネットワークエラー: ");
                out.append(detail.as_str());
                out
            },
            BackendError::Api(status) => {
                let mut out = String::from_str("API呼び出しエラー: ");
                push_decimal(&mut out, *status as u32, 1);
                out
            },
            BackendError::Parse(detail) => {
                let mut out = String::from_str("JSONパースエラー: ");
                out.append(detail.as_str());
                out
            },
            BackendError::Lock(detail) => detail.clone(),
        }
    }
}

} // verus!
