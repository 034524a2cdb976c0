//! The one error type that handlers hand back in place of a page.

use crate::response::{ContentType, Response, ResponseModel, StatusCode};
use vstd::prelude::*;

verus! {

#[verifier::external_type_specification]
#[verifier::external_body]
pub struct ExTeraError(tera::Error);

#[verifier::external_type_specification]
#[verifier::external_body]
pub struct ExMongoError(mongodb::error::Error);

/// A failure to answer a request, with the text that is logged and the status
/// that the client sees.
#[derive(Debug)]
pub struct FormError {
    /// The detail, for the log only.
    pub message: String,
    /// The status to answer with; a bad request where none is given.
    pub status_code: Option<StatusCode>,
}

impl FormError {
    /// The status the client sees.
    pub open spec fn status(self) -> StatusCode {
        match self.status_code {
            Some(code) => code,
            None => StatusCode::BadRequest,
        }
    }

    /// The answer for the client: the status and its category, never the
    /// detail.
    pub fn into_response(self) -> (r: Response)
        ensures
            r@ == ResponseModel::markup(self.status(), ContentType::Html, self.status().reason()),
    {
        let status = match self.status_code {
            Some(code) => code,
            None => StatusCode::BadRequest,
        };
        Response::markup(status, ContentType::Html, String::from_str(status.canonical_reason()))
    }
}

/// The message of a converted error is what the error displays as, which no
/// spec function of this library can compute from the error. So none of the
/// three conversions below obeys a `from_spec`; the `ensures` of each `from`
/// says what holds of its result.
impl vstd::std_specs::convert::FromSpecImpl<bson::oid::Error> for FormError {
    open spec fn obeys_from_spec() -> bool {
        false
    }

    open spec fn from_spec(value: bson::oid::Error) -> FormError {
        arbitrary()
    }
}

impl From<bson::oid::Error> for FormError {
    /// A malformed identifier is the client's mistake.
    fn from(value: bson::oid::Error) -> (r: FormError)
        ensures
            r.status_code == Some(StatusCode::BadRequest),
            vstd::string::to_string_from_display_ensures(&value, r.message),
    {
        FormError { message: value.to_string(), status_code: Some(StatusCode::BadRequest) }
    }
}

impl vstd::std_specs::convert::FromSpecImpl<tera::Error> for FormError {
    open spec fn obeys_from_spec() -> bool {
        false
    }

    open spec fn from_spec(value: tera::Error) -> FormError {
        arbitrary()
    }
}

impl From<tera::Error> for FormError {
    /// A template that does not render is the server's failure.
    fn from(value: tera::Error) -> (r: FormError)
        ensures
            r.status_code == Some(StatusCode::InternalServerError),
            vstd::string::to_string_from_display_ensures(&value, r.message),
    {
        FormError { message: value.to_string(), status_code: Some(StatusCode::InternalServerError) }
    }
}

impl vstd::std_specs::convert::FromSpecImpl<mongodb::error::Error> for FormError {
    open spec fn obeys_from_spec() -> bool {
        false
    }

    open spec fn from_spec(value: mongodb::error::Error) -> FormError {
        arbitrary()
    }
}

impl From<mongodb::error::Error> for FormError {
    /// A database that does not answer is the server's failure.
    fn from(value: mongodb::error::Error) -> (r: FormError)
        ensures
            r.status_code == Some(StatusCode::InternalServerError),
            vstd::string::to_string_from_display_ensures(&value, r.message),
    {
        FormError { message: value.to_string(), status_code: Some(StatusCode::InternalServerError) }
    }
}

} // verus!
