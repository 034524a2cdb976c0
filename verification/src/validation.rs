//! Field rules for submitted forms, and the complaints they raise.

use vstd::prelude::*;

verus! {

/// The fewest characters a name may have.
pub const MIN_NAME_LENGTH: u64 = 5;

/// A form field that a rule guards.
#[derive(Clone, Copy, Debug, PartialEq, Eq, Structural)]
pub enum Field {
    Name,
    Target,
    TargetDate,
}

/// A complaint about one field of a submitted form.
#[derive(Clone, Copy, Debug, PartialEq, Eq, Structural)]
pub struct FieldError {
    pub field: Field,
}

impl FieldError {
    /// The complaint in words, starting with the field's name.
    pub open spec fn text(self) -> Seq<char> {
        match self.field {
            Field::Name => "name: must be at least 5 characters long"@,
            Field::Target => "target: must not be below zero"@,
            Field::TargetDate => "target_date: must be a calendar date"@,
        }
    }

    /// The complaint in words, starting with the field's name.
    pub fn message(self) -> (r: &'static str)
        ensures
            r@ == self.text(),
    {
        match self.field {
            Field::Name => "name: must be at least 5 characters long",
            Field::Target => "target: must not be below zero",
            Field::TargetDate => "target_date: must be a calendar date",
        }
    }
}

/// The complaints one after another, each followed by a line break.
pub open spec fn listing(errors: Seq<FieldError>) -> Seq<char>
    decreases errors.len(),
{
    if errors.len() == 0 {
        Seq::empty()
    } else {
        listing(errors.drop_last()) + errors.last().text() + "\n"@
    }
}

/// The complaints as the text that a form shows above its fields.
pub fn describe(errors: &Vec<FieldError>) -> (r: String)
    ensures
        r@ == listing(errors@),
{
    let mut out = String::new();
    let mut i: usize = 0;
    while i < errors.len()
        invariant
            i <= errors.len(),
            out@ == listing(errors@.take(i as int)),
        decreases errors.len() - i,
    {
        proof {
            let next = errors@.take(i + 1);
            assert(next.drop_last() =~= errors@.take(i as int));
            assert(next.last() == errors@[i as int]);
        }
        out.append(errors[i].message());
        out.append("\n");
        i += 1;
    }
    assert(errors@.take(errors.len() as int) =~= errors@);
    out
}

/// A name is long enough when it has at least `MIN_NAME_LENGTH` characters.
pub open spec fn name_is_long_enough(name: Seq<char>) -> bool {
    name.len() >= MIN_NAME_LENGTH
}

/// Calls `validator::ValidateLength::validate_length` on `text` with `min` as
/// its only bound.
///
/// Trusted: the answer is whether `text` has at least `min` characters,
/// counted as Unicode scalar values.
#[verifier::external_body]
pub(crate) fn validate_min_length(text: &str, min: u64) -> (r: bool)
    ensures
        r == (text@.len() >= min),
{
    validator::ValidateLength::validate_length(text, Some(min), None, None)
}

/// Whether a submitted name is long enough.
pub fn name_long_enough(name: &str) -> (r: bool)
    ensures
        r == name_is_long_enough(name@),
{
    validate_min_length(name, MIN_NAME_LENGTH)
}

} // verus!
