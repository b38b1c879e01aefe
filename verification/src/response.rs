//! The response model, and the mapping from an outcome to a response.

use crate::domain::InvalidId;
use crate::domain::Question;
use crate::domain::QuestionView;
use crate::domain::ValidationError;
use crate::domain::NO_ID_PROVIDED;
use crate::request::Method;
use vstd::prelude::*;

verus! {

/// The body of the response to an identifier that writes no integer.
pub const CANNOT_PARSE_ID: &'static str = "Cannot parse id into integer";

/// The status of a response.
#[derive(Clone, Copy, Debug, PartialEq, Eq, Structural)]
pub enum Status {
    /// 200: the request was answered.
    Success,
    /// 404: no route for the request.
    NotFound,
    /// 500: the request failed.
    InternalServerError,
}

impl Status {
    /// The status code on the wire.
    pub open spec fn code_of(self) -> u16 {
        match self {
            Status::Success => 200,
            Status::NotFound => 404,
            Status::InternalServerError => 500,
        }
    }

    /// The status code on the wire.
    pub fn code(&self) -> (code: u16)
        ensures
            code == self.code_of(),
    {
        match self {
            Status::Success => 200,
            Status::NotFound => 404,
            Status::InternalServerError => 500,
        }
    }
}

/// The declared type of a body.
#[derive(Clone, Copy, Debug, PartialEq, Eq, Structural)]
pub enum ContentType {
    /// Text to read as it is.
    PlainText,
    /// A value written as JSON.
    Json,
}

impl ContentType {
    /// The value of the `Content-Type` header.
    pub open spec fn mime_of(self) -> Seq<char> {
        match self {
            ContentType::PlainText => "text/plain; charset=utf-8"@,
            ContentType::Json => "application/json"@,
        }
    }

    /// The value of the `Content-Type` header.
    pub fn mime(&self) -> (mime: &'static str)
        ensures
            mime@ == self.mime_of(),
    {
        match self {
            ContentType::PlainText => "text/plain; charset=utf-8",
            ContentType::Json => "application/json",
        }
    }
}

/// What contracts say of a [`Body`].
pub enum BodyView {
    Empty,
    Text(Seq<char>),
    Json(QuestionView),
}

impl BodyView {
    /// The type that a body declares: plain text for a text, JSON for a
    /// value, none for no body.
    pub open spec fn content_type(self) -> Option<ContentType> {
        match self {
            BodyView::Empty => None,
            BodyView::Text(_) => Some(ContentType::PlainText),
            BodyView::Json(_) => Some(ContentType::Json),
        }
    }
}

/// The body of a response: nothing, a text to send as it is, or a question
/// to send as JSON.
#[derive(Clone, Debug, PartialEq, Eq)]
pub enum Body {
    /// No body.
    Empty,
    /// A text, sent as it is.
    Text(String),
    /// A question, sent as JSON.
    Json(Question),
}

impl View for Body {
    type V = BodyView;

    open spec fn view(&self) -> BodyView {
        match self {
            Body::Empty => BodyView::Empty,
            Body::Text(text) => BodyView::Text(text@),
            Body::Json(question) => BodyView::Json(question@),
        }
    }
}

impl Body {
    /// See [`BodyView::content_type`].
    pub fn content_type(&self) -> (declared: Option<ContentType>)
        ensures
            declared == self@.content_type(),
    {
        match self {
            Body::Empty => None,
            Body::Text(_) => Some(ContentType::PlainText),
            Body::Json(_) => Some(ContentType::Json),
        }
    }
}

/// What contracts say of the cross-origin headers of a response.
pub struct CorsHeadersView {
    pub allow_origin: Seq<char>,
    pub allow_method: Method,
}

/// The cross-origin headers of a response: the origin and the method that
/// the service grants.
#[derive(Clone, Debug, PartialEq, Eq)]
pub struct CorsHeaders {
    /// The value of `Access-Control-Allow-Origin`.
    pub allow_origin: String,
    /// The one method listed in `Access-Control-Allow-Methods`.
    pub allow_method: Method,
}

impl View for CorsHeaders {
    type V = CorsHeadersView;

    open spec fn view(&self) -> CorsHeadersView {
        CorsHeadersView { allow_origin: self.allow_origin@, allow_method: self.allow_method }
    }
}

/// What contracts say of cross-origin headers that may be absent.
pub open spec fn cors_view(cors: Option<CorsHeaders>) -> Option<CorsHeadersView> {
    match cors {
        Some(headers) => Some(headers@),
        None => None,
    }
}

/// What contracts say of a [`Response`].
pub struct ResponseView {
    pub status: Status,
    pub body: BodyView,
    pub cors: Option<CorsHeadersView>,
}

/// A response: a status, a body, and the cross-origin headers if they were
/// granted.
#[derive(Clone, Debug, PartialEq, Eq)]
pub struct Response {
    /// The status line.
    pub status: Status,
    /// What is sent after the headers.
    pub body: Body,
    /// The cross-origin headers, where the policy granted them.
    pub cors: Option<CorsHeaders>,
}

impl View for Response {
    type V = ResponseView;

    open spec fn view(&self) -> ResponseView {
        ResponseView {
            status: self.status,
            body: self.body@,
            cors: cors_view(self.cors),
        }
    }
}

/// What contracts say of an outcome of the question handler.
pub open spec fn outcome_view(outcome: Result<Question, InvalidId>) -> Result<
    QuestionView,
    InvalidId,
> {
    match outcome {
        Ok(question) => Ok(question@),
        Err(invalid) => Err(invalid),
    }
}

/// The response that an outcome becomes: the question as JSON under 200, or
/// the fixed text under 500. No cross-origin headers yet.
pub open spec fn response_for(outcome: Result<QuestionView, InvalidId>) -> ResponseView {
    match outcome {
        Ok(question) => ResponseView {
            status: Status::Success,
            body: BodyView::Json(question),
            cors: None,
        },
        Err(_) => ResponseView {
            status: Status::InternalServerError,
            body: BodyView::Text(CANNOT_PARSE_ID@),
            cors: None,
        },
    }
}

/// The response to a text that was refused as an identifier: 500 and what
/// the error says. No cross-origin headers yet.
pub open spec fn refusal_response(error: ValidationError) -> ResponseView {
    ResponseView {
        status: Status::InternalServerError,
        body: BodyView::Text(NO_ID_PROVIDED@),
        cors: None,
    }
}

impl ValidationError {
    /// The response to a text that was refused as an identifier.
    pub fn into_response(self) -> (response: Response)
        ensures
            response@ == refusal_response(self),
    {
        Response {
            status: Status::InternalServerError,
            body: Body::Text(self.message().to_owned()),
            cors: None,
        }
    }
}

impl InvalidId {
    /// The response to an identifier that writes no integer: 500 and the
    /// fixed text.
    pub fn into_response(self) -> (response: Response)
        ensures
            response@ == response_for(Err(self)),
    {
        Response {
            status: Status::InternalServerError,
            body: Body::Text(CANNOT_PARSE_ID.to_owned()),
            cors: None,
        }
    }
}

/// Turns the outcome of the question handler into its one response.
pub fn respond(outcome: Result<Question, InvalidId>) -> (response: Response)
    ensures
        response@ == response_for(outcome_view(outcome)),
{
    match outcome {
        Ok(question) => Response { status: Status::Success, body: Body::Json(question), cors: None },
        Err(invalid) => invalid.into_response(),
    }
}

} // verus!
