//! Pages on their way to the template engine, and what becomes of them.

use crate::errors::FormError;
use crate::response::{ContentType, Response, ResponseModel, StatusCode};
use vstd::prelude::*;

verus! {

/// A page that is ready to be rendered: which template, with what values,
/// and how the markup is to be sent.
#[derive(Debug)]
pub struct Page<V> {
    /// The template's name in the registry.
    pub template: &'static str,
    pub status: StatusCode,
    pub content_type: ContentType,
    /// The values the template is filled with.
    pub view: V,
}

impl<V> Page<V> {
    /// The response that carries the page as `body`.
    pub open spec fn sent(self, body: Seq<char>) -> ResponseModel {
        ResponseModel::markup(self.status, self.content_type, body)
    }

    /// The response that carries the rendered markup.
    pub fn answer(&self, body: String) -> (r: Response)
        ensures
            r@ == self.sent(body@),
    {
        Response::markup(self.status, self.content_type, body)
    }

    /// Turns the template engine's outcome into the answer: the markup under
    /// the page's status, or a server error where the page did not render.
    pub fn rendered(&self, outcome: Result<String, tera::Error>) -> (r: Result<
        Response,
        StatusCode,
    >)
        ensures
            match r {
                Ok(response) => outcome matches Ok(body) && response@ == self.sent(body@),
                Err(status) => outcome is Err && status == StatusCode::InternalServerError,
            },
    {
        match outcome {
            Ok(body) => Ok(self.answer(body)),
            Err(_) => Err(StatusCode::InternalServerError),
        }
    }

    /// Turns the template engine's outcome into the answer, as `rendered`
    /// does, but keeps the engine's complaint for the log.
    pub fn rendered_form(&self, outcome: Result<String, tera::Error>) -> (r: Result<
        Response,
        FormError,
    >)
        ensures
            match r {
                Ok(response) => outcome matches Ok(body) && response@ == self.sent(body@),
                Err(e) => outcome matches Err(failure) && e.status_code == Some(
                    StatusCode::InternalServerError,
                ) && vstd::string::to_string_from_display_ensures(&failure, e.message),
            },
    {
        match outcome {
            Ok(body) => Ok(self.answer(body)),
            Err(e) => Err(FormError::from(e)),
        }
    }
}

} // verus!
