//! The account pages: list, create, edit, delete.

pub mod create;
pub mod delete;
pub mod edit;
pub mod index;
pub mod new;
pub mod update;

use crate::amount::Amount;
use crate::authenticated::UserExtension;
use crate::models::account::Filter;
use crate::object_id::{canonical_id, canonical_text, is_object_id_text};
use crate::response::StatusCode;
use crate::validation::{name_is_long_enough, name_long_enough, Field, FieldError};
use vstd::prelude::*;

verus! {

/// A submitted account form.
#[derive(Debug)]
pub struct AccountForm {
    pub name: String,
    pub amount: Amount,
    /// Whether the balance is owed; a form may leave it out.
    pub debt: Option<bool>,
}

impl AccountForm {
    /// The complaints about the form: one about the name where it is too
    /// short, none otherwise.
    pub open spec fn violations(self) -> Seq<FieldError> {
        if name_is_long_enough(self.name@) {
            Seq::empty()
        } else {
            seq![FieldError { field: Field::Name }]
        }
    }

    /// The form may be stored.
    pub open spec fn is_valid(self) -> bool {
        self.violations().len() == 0
    }

    /// Checks the form against its field rules.
    pub fn validate(&self) -> (r: Result<(), Vec<FieldError>>)
        ensures
            r is Ok <==> self.is_valid(),
            r matches Err(errors) ==> errors@ == self.violations(),
    {
        if name_long_enough(self.name.as_str()) {
            Ok(())
        } else {
            let mut errors: Vec<FieldError> = Vec::new();
            errors.push(FieldError { field: Field::Name });
            assert(errors@ =~= self.violations());
            Err(errors)
        }
    }
}

/// The values an account form is filled with when it is shown again.
#[derive(Debug)]
pub struct FormView {
    /// The complaints, as text.
    pub errors: String,
    pub name: String,
    pub amount: Amount,
    pub debt: Option<bool>,
}

/// The query for all accounts of the caller, or "forbidden" for a caller
/// whose identifier is malformed.
pub fn filter_for_all(user: &UserExtension) -> (r: Result<Filter, StatusCode>)
    ensures
        match r {
            Ok(filter) => {
                &&& is_object_id_text(user.id@)
                &&& filter.user_id@ == canonical_text(user.id@)
                &&& filter.id is None
                &&& filter.well_formed()
            },
            Err(status) => !is_object_id_text(user.id@) && status == StatusCode::Forbidden,
        },
{
    match canonical_id(user.id.as_str()) {
        Ok(owner) => Ok(Filter { user_id: owner, id: None }),
        Err(_) => Err(StatusCode::Forbidden),
    }
}

/// The query for the caller's account `id`: "bad request" for a malformed
/// `id`, else "forbidden" for a caller whose identifier is malformed.
pub fn filter_for_one(user: &UserExtension, id: &str) -> (r: Result<Filter, StatusCode>)
    ensures
        match r {
            Ok(filter) => {
                &&& is_object_id_text(id@)
                &&& is_object_id_text(user.id@)
                &&& filter.user_id@ == canonical_text(user.id@)
                &&& filter.id matches Some(wanted) && wanted@ == canonical_text(id@)
                &&& filter.well_formed()
            },
            Err(status) => if is_object_id_text(id@) {
                !is_object_id_text(user.id@) && status == StatusCode::Forbidden
            } else {
                status == StatusCode::BadRequest
            },
        },
{
    let wanted = match canonical_id(id) {
        Ok(wanted) => wanted,
        Err(_) => {
            return Err(StatusCode::BadRequest);
        },
    };
    match canonical_id(user.id.as_str()) {
        Ok(owner) => Ok(Filter { user_id: owner, id: Some(wanted) }),
        Err(_) => Err(StatusCode::Forbidden),
    }
}

} // verus!
