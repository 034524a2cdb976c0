//! Creating a goal from a submitted form.

use crate::amount::Amount;
use crate::authenticated::UserExtension;
use crate::date::{midnight_utc_millis, parse_midnight_utc};
use crate::errors::FormError;
use crate::negotiation::{accepts_turbo, wants_turbo};
use crate::object_id::{canonical_id, canonical_text, is_object_id_text};
use crate::rendering::Page;
use crate::response::{ContentType, Response, ResponseModel, StatusCode};
use crate::validation::{
    describe, listing, name_is_long_enough, name_long_enough, Field, FieldError,
};
use vstd::prelude::*;

verus! {

/// A submitted goal form. The date is held as it was typed.
#[derive(Debug)]
pub struct Goal {
    pub name: String,
    pub target: Amount,
    pub target_date: String,
    pub recurrence: String,
}

/// A goal as it is stored.
#[derive(Debug)]
pub struct GoalRecord {
    pub name: String,
    pub target: Amount,
    /// The owner, in canonical spelling.
    pub user_id: String,
    /// The start of the target date in UTC, in milliseconds since the start
    /// of 1970.
    pub target_date: i64,
    pub recurrence: String,
}

/// A stored goal as plain mathematical values.
pub struct GoalRecordModel {
    pub name: Seq<char>,
    pub target: Amount,
    pub user_id: Seq<char>,
    pub target_date: i64,
    pub recurrence: Seq<char>,
}

impl View for GoalRecord {
    type V = GoalRecordModel;

    open spec fn view(&self) -> GoalRecordModel {
        GoalRecordModel {
            name: self.name@,
            target: self.target,
            user_id: self.user_id@,
            target_date: self.target_date,
            recurrence: self.recurrence@,
        }
    }
}

/// The values a goal form is filled with when it is shown again.
#[derive(Debug)]
pub struct GoalView {
    /// The complaints, as text.
    pub errors: String,
    pub name: String,
    pub target: Amount,
    pub target_date: String,
    pub recurrence: String,
}

/// What has to happen next for a create request.
#[derive(Debug)]
pub enum Step {
    /// The form was rejected: render it again, filled in, with its complaints.
    Render(Page<GoalView>),
    /// The form was accepted: store this record.
    Insert(GoalRecord),
}

impl Goal {
    /// The complaints about the form, given what its date was read as: about
    /// a name that is too short, a target below zero and a date that is none,
    /// in this order.
    pub open spec fn violations_given(self, midnight: Option<i64>) -> Seq<FieldError> {
        (if name_is_long_enough(self.name@) {
            Seq::<FieldError>::empty()
        } else {
            seq![FieldError { field: Field::Name }]
        }) + (if self.target.is_at_least_zero() {
            Seq::<FieldError>::empty()
        } else {
            seq![FieldError { field: Field::Target }]
        }) + (if midnight is Some {
            Seq::<FieldError>::empty()
        } else {
            seq![FieldError { field: Field::TargetDate }]
        })
    }

    /// The complaints about the form.
    pub open spec fn violations(self) -> Seq<FieldError> {
        self.violations_given(midnight_utc_millis(self.target_date@))
    }

    /// The form may be stored.
    pub open spec fn is_valid(self) -> bool {
        self.violations().len() == 0
    }

    /// Checks the form against its field rules, given what its date was read
    /// as. An accepted form yields the start of its target date.
    pub fn check(&self, midnight: Option<i64>) -> (r: Result<i64, Vec<FieldError>>)
        ensures
            match r {
                Ok(start) => self.violations_given(midnight).len() == 0 && midnight == Some(start),
                Err(errors) => errors@ == self.violations_given(midnight) && errors@.len() > 0,
            },
    {
        let mut errors: Vec<FieldError> = Vec::new();
        if !name_long_enough(self.name.as_str()) {
            errors.push(FieldError { field: Field::Name });
        }
        if !self.target.at_least_zero() {
            errors.push(FieldError { field: Field::Target });
        }
        match midnight {
            Some(start) => {
                assert(errors@ =~= self.violations_given(midnight));
                if errors.len() == 0 {
                    Ok(start)
                } else {
                    Err(errors)
                }
            },
            None => {
                errors.push(FieldError { field: Field::TargetDate });
                assert(errors@ =~= self.violations_given(midnight));
                Err(errors)
            },
        }
    }

    /// Checks the form against its field rules. An accepted form yields the
    /// start of its target date.
    pub fn validate(&self) -> (r: Result<i64, Vec<FieldError>>)
        ensures
            match r {
                Ok(start) => self.is_valid() && midnight_utc_millis(self.target_date@) == Some(
                    start,
                ),
                Err(errors) => errors@ == self.violations() && !self.is_valid(),
            },
    {
        self.check(parse_midnight_utc(self.target_date.as_str()))
    }
}

/// The template a rejected form is shown with.
pub open spec fn form_template(turbo: bool) -> Seq<char> {
    if turbo {
        "goals/new.turbo.html"@
    } else {
        "goals/new.html"@
    }
}

/// `page` shows `form` again with `errors`, as a bad request, in the flavour
/// that was asked for.
pub open spec fn is_rejection(
    page: Page<GoalView>,
    turbo: bool,
    form: Goal,
    errors: Seq<FieldError>,
) -> bool {
    &&& page.template@ == form_template(turbo)
    &&& page.status == StatusCode::BadRequest
    &&& page.content_type == ContentType::negotiated(turbo)
    &&& page.view.errors@ == listing(errors)
    &&& page.view.name@ == form.name@
    &&& page.view.target == form.target
    &&& page.view.target_date@ == form.target_date@
    &&& page.view.recurrence@ == form.recurrence@
}

/// The record that an accepted form becomes.
pub open spec fn record_model(form: Goal, owner: Seq<char>, start: i64) -> GoalRecordModel {
    GoalRecordModel {
        name: form.name@,
        target: form.target,
        user_id: owner,
        target_date: start,
        recurrence: form.recurrence@,
    }
}

/// The page that shows a rejected form again.
pub fn rejection(turbo: bool, form: &Goal, errors: &Vec<FieldError>) -> (r: Page<GoalView>)
    ensures
        is_rejection(r, turbo, *form, errors@),
{
    Page {
        template: if turbo {
            "goals/new.turbo.html"
        } else {
            "goals/new.html"
        },
        status: StatusCode::BadRequest,
        content_type: ContentType::for_request(turbo),
        view: GoalView {
            errors: describe(errors),
            name: form.name.clone(),
            target: form.target,
            target_date: form.target_date.clone(),
            recurrence: form.recurrence.clone(),
        },
    }
}

/// The record that an accepted form becomes, owned by `owner`, with its
/// target date starting at `start`.
pub fn record_for(form: &Goal, owner: String, start: i64) -> (r: GoalRecord)
    ensures
        r@ == record_model(*form, owner@, start),
{
    GoalRecord {
        name: form.name.clone(),
        target: form.target,
        user_id: owner,
        target_date: start,
        recurrence: form.recurrence.clone(),
    }
}

/// Decides what a create request leads to, given what the form's date was
/// read as.
///
/// A form that breaks a field rule is shown again as a bad request, in the
/// flavour the `Accept` header asks for; nothing is stored. An accepted form
/// becomes a record that carries the submitted values and belongs to the
/// caller. A caller whose identifier is malformed gets an error in place of
/// either.
pub fn decide(user: &UserExtension, accept: Option<&str>, form: &Goal, midnight: Option<i64>) -> (r:
    Result<Step, FormError>)
    ensures
        match r {
            Ok(Step::Render(page)) => {
                &&& form.violations_given(midnight).len() > 0
                &&& is_rejection(page, wants_turbo(accept), *form, form.violations_given(midnight))
            },
            Ok(Step::Insert(goal)) => {
                &&& form.violations_given(midnight).len() == 0
                &&& is_object_id_text(user.id@)
                &&& midnight matches Some(start) && goal@ == record_model(
                    *form,
                    canonical_text(user.id@),
                    start,
                )
            },
            Err(e) => {
                &&& form.violations_given(midnight).len() == 0
                &&& !is_object_id_text(user.id@)
                &&& e.status_code == Some(StatusCode::BadRequest)
            },
        },
{
    let turbo = accepts_turbo(accept);
    let start = match form.check(midnight) {
        Ok(start) => start,
        Err(errors) => {
            return Ok(Step::Render(rejection(turbo, form, &errors)));
        },
    };
    match canonical_id(user.id.as_str()) {
        Ok(owner) => Ok(Step::Insert(record_for(form, owner, start))),
        Err(e) => Err(FormError::from(e)),
    }
}

/// Decides what a create request leads to: `decide`, with the form's date
/// read as a calendar date.
pub fn page(user: &UserExtension, accept: Option<&str>, form: &Goal) -> (r: Result<Step, FormError>)
    ensures
        match r {
            Ok(Step::Render(page)) => {
                &&& !form.is_valid()
                &&& is_rejection(page, wants_turbo(accept), *form, form.violations())
            },
            Ok(Step::Insert(goal)) => {
                &&& form.is_valid()
                &&& is_object_id_text(user.id@)
                &&& midnight_utc_millis(form.target_date@) matches Some(start) && goal@
                    == record_model(*form, canonical_text(user.id@), start)
            },
            Err(e) => {
                &&& form.is_valid()
                &&& !is_object_id_text(user.id@)
                &&& e.status_code == Some(StatusCode::BadRequest)
            },
        },
{
    decide(user, accept, form, parse_midnight_utc(form.target_date.as_str()))
}

/// Turns the database's outcome for the new record into the answer: a
/// redirect to the list of goals once the record is stored.
pub fn inserted(outcome: Result<(), mongodb::error::Error>) -> (r: Result<Response, FormError>)
    ensures
        match r {
            Ok(response) => outcome is Ok && response@ == ResponseModel::redirect("/goals"@),
            Err(e) => outcome matches Err(failure) && e.status_code == Some(
                StatusCode::InternalServerError,
            ) && vstd::string::to_string_from_display_ensures(&failure, e.message),
        },
{
    match outcome {
        Ok(_) => Ok(Response::redirect("/goals")),
        Err(e) => Err(FormError::from(e)),
    }
}

} // verus!
