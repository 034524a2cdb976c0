//! What a handler answers: a status, the kind of markup, and a body or a
//! redirect target.

use vstd::prelude::*;

verus! {

/// The HTTP statuses the handlers answer with.
#[derive(Clone, Copy, Debug, PartialEq, Eq, Structural)]
pub enum StatusCode {
    Success,
    SeeOther,
    BadRequest,
    Forbidden,
    NotFound,
    InternalServerError,
}

impl StatusCode {
    /// The status as a number.
    pub open spec fn number(self) -> u16 {
        match self {
            StatusCode::Success => 200,
            StatusCode::SeeOther => 303,
            StatusCode::BadRequest => 400,
            StatusCode::Forbidden => 403,
            StatusCode::NotFound => 404,
            StatusCode::InternalServerError => 500,
        }
    }

    /// The category shown to a client in place of any internal detail.
    pub open spec fn reason(self) -> Seq<char> {
        match self {
            StatusCode::Success => "OK"@,
            StatusCode::SeeOther => "See Other"@,
            StatusCode::BadRequest => "Bad Request"@,
            StatusCode::Forbidden => "Forbidden"@,
            StatusCode::NotFound => "Not Found"@,
            StatusCode::InternalServerError => "Internal Server Error"@,
        }
    }

    /// The status as a number.
    pub fn as_u16(self) -> (r: u16)
        ensures
            r == self.number(),
    {
        match self {
            StatusCode::Success => 200,
            StatusCode::SeeOther => 303,
            StatusCode::BadRequest => 400,
            StatusCode::Forbidden => 403,
            StatusCode::NotFound => 404,
            StatusCode::InternalServerError => 500,
        }
    }

    /// The category shown to a client in place of any internal detail.
    pub fn canonical_reason(self) -> (r: &'static str)
        ensures
            r@ == self.reason(),
    {
        match self {
            StatusCode::Success => "OK",
            StatusCode::SeeOther => "See Other",
            StatusCode::BadRequest => "Bad Request",
            StatusCode::Forbidden => "Forbidden",
            StatusCode::NotFound => "Not Found",
            StatusCode::InternalServerError => "Internal Server Error",
        }
    }
}

/// The kind of markup in a body.
#[derive(Clone, Copy, Debug, PartialEq, Eq, Structural)]
pub enum ContentType {
    /// A whole page.
    Html,
    /// A fragment for a partial page update.
    TurboStream,
}

impl ContentType {
    /// The value of the `content-type` header.
    pub open spec fn header_text(self) -> Seq<char> {
        match self {
            ContentType::Html => "text/html; charset=utf-8"@,
            ContentType::TurboStream => "text/vnd.turbo-stream.html"@,
        }
    }

    /// Fragments for requests that asked for them, whole pages otherwise.
    pub open spec fn negotiated(turbo: bool) -> ContentType {
        if turbo {
            ContentType::TurboStream
        } else {
            ContentType::Html
        }
    }

    /// The value of the `content-type` header.
    pub fn header_value(self) -> (r: &'static str)
        ensures
            r@ == self.header_text(),
    {
        match self {
            ContentType::Html => "text/html; charset=utf-8",
            ContentType::TurboStream => "text/vnd.turbo-stream.html",
        }
    }

    /// The kind of markup to answer with.
    pub fn for_request(turbo: bool) -> (r: ContentType)
        ensures
            r == ContentType::negotiated(turbo),
    {
        if turbo {
            ContentType::TurboStream
        } else {
            ContentType::Html
        }
    }
}

/// A complete answer to a request.
#[derive(Debug)]
pub struct Response {
    pub status: StatusCode,
    /// The kind of markup in `body`; a redirect has none.
    pub content_type: Option<ContentType>,
    /// Where a redirect leads.
    pub location: Option<String>,
    pub body: String,
}

/// A response as plain mathematical values.
pub struct ResponseModel {
    pub status: StatusCode,
    pub content_type: Option<ContentType>,
    pub location: Option<Seq<char>>,
    pub body: Seq<char>,
}

impl View for Response {
    type V = ResponseModel;

    open spec fn view(&self) -> ResponseModel {
        ResponseModel {
            status: self.status,
            content_type: self.content_type,
            location: match self.location {
                Some(target) => Some(target@),
                None => None,
            },
            body: self.body@,
        }
    }
}

impl ResponseModel {
    /// A body of markup under the given status.
    pub open spec fn markup(status: StatusCode, kind: ContentType, body: Seq<char>) -> ResponseModel {
        ResponseModel { status, content_type: Some(kind), location: None, body }
    }

    /// A "see other" redirect to `target`, without a body.
    pub open spec fn redirect(target: Seq<char>) -> ResponseModel {
        ResponseModel {
            status: StatusCode::SeeOther,
            content_type: None,
            location: Some(target),
            body: Seq::empty(),
        }
    }
}

impl Response {
    /// A body of markup under the given status.
    pub fn markup(status: StatusCode, kind: ContentType, body: String) -> (r: Response)
        ensures
            r@ == ResponseModel::markup(status, kind, body@),
    {
        Response { status, content_type: Some(kind), location: None, body }
    }

    /// A "see other" redirect to `target`, without a body.
    pub fn redirect(target: &str) -> (r: Response)
        ensures
            r@ == ResponseModel::redirect(target@),
    {
        Response {
            status: StatusCode::SeeOther,
            content_type: None,
            location: Some(String::from_str(target)),
            body: String::new(),
        }
    }
}

} // verus!
