//! The answer to a handshake that is refused.

use crate::json::{json_object, json_object_text, members_view};
use vstd::prelude::*;

verus! {

/// The HTTP status of every refusal: 400, bad request.
pub const BAD_REQUEST: u16 = 400;

/// A refused handshake: the HTTP status and the members of its JSON body.
#[derive(Debug, Clone, PartialEq, Eq)]
pub struct ApiError {
    pub status: u16,
    pub error_type: String,
    pub message: String,
    pub details: Option<String>,
    pub field: Option<String>,
}

/// A refusal as plain values.
pub struct ApiErrorText {
    pub status: u16,
    pub error_type: Seq<char>,
    pub message: Seq<char>,
    pub details: Option<Seq<char>>,
    pub field: Option<Seq<char>>,
}

/// An optional text as a character sequence.
pub open spec fn text_view(s: Option<String>) -> Option<Seq<char>> {
    match s {
        Some(t) => Some(t@),
        None => None,
    }
}

impl View for ApiError {
    type V = ApiErrorText;

    open spec fn view(&self) -> ApiErrorText {
        ApiErrorText {
            status: self.status,
            error_type: self.error_type@,
            message: self.message@,
            details: text_view(self.details),
            field: text_view(self.field),
        }
    }
}

/// The refusal of a ticker.
pub open spec fn invalid_ticker_text(message: Seq<char>) -> ApiErrorText {
    ApiErrorText {
        status: 400,
        error_type: "InvalidTicker"@,
        message,
        details: None,
        field: Some("ticker"@),
    }
}

/// The refusal of the date in `field`.
pub open spec fn invalid_date_text(message: Seq<char>, field: Seq<char>) -> ApiErrorText {
    ApiErrorText {
        status: 400,
        error_type: "InvalidDate"@,
        message,
        details: None,
        field: Some(field),
    }
}

/// The refusal of a query that could not be read.
pub open spec fn invalid_query_text(message: Seq<char>, details: Option<Seq<char>>) -> ApiErrorText {
    ApiErrorText { status: 400, error_type: "InvalidQuery"@, message, details, field: None }
}

/// The members of a refusal's body: `error` and `message`, then `field` and
/// `details` where they are present.
pub open spec fn body_members(e: ApiErrorText) -> Seq<(Seq<char>, Seq<char>)> {
    seq![("error"@, e.error_type), ("message"@, e.message)] + match e.field {
        Some(f) => seq![("field"@, f)],
        None => Seq::empty(),
    } + match e.details {
        Some(d) => seq![("details"@, d)],
        None => Seq::empty(),
    }
}

impl ApiError {
    pub fn invalid_ticker(message: String) -> (r: Self)
        ensures
            r@ == invalid_ticker_text(message@),
    {
        ApiError {
            status: BAD_REQUEST,
            error_type: "InvalidTicker".to_owned(),
            message,
            details: None,
            field: Some("ticker".to_owned()),
        }
    }

    pub fn invalid_date(message: String, field: String) -> (r: Self)
        ensures
            r@ == invalid_date_text(message@, field@),
    {
        ApiError {
            status: BAD_REQUEST,
            error_type: "InvalidDate".to_owned(),
            message,
            details: None,
            field: Some(field),
        }
    }

    pub fn invalid_query(message: String, details: Option<String>) -> (r: Self)
        ensures
            r@ == invalid_query_text(message@, text_view(details)),
    {
        ApiError {
            status: BAD_REQUEST,
            error_type: "InvalidQuery".to_owned(),
            message,
            details,
            field: None,
        }
    }

    /// The JSON body of the response.
    pub fn json_body(&self) -> (r: String)
        ensures
            r@ == json_object_text(body_members(self@)),
    {
        let mut members: Vec<(String, String)> = Vec::new();
        members.push(("error".to_owned(), self.error_type.clone()));
        members.push(("message".to_owned(), self.message.clone()));
        match &self.field {
            Some(f) => {
                members.push(("field".to_owned(), f.clone()));
            },
            None => {},
        }
        match &self.details {
            Some(d) => {
                members.push(("details".to_owned(), d.clone()));
            },
            None => {},
        }
        assert(members_view(members@) =~= body_members(self@));
        json_object(&members)
    }
}

} // verus!
