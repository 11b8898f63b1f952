//! Field checks used by the request payloads: character-count bounds,
//! e-mail syntax (delegated to the `validator` crate) and equal fields.

use vstd::prelude::*;

verus! {

/// A field of a request payload that carries a check.
#[derive(Clone, Copy, Debug, PartialEq, Eq, Structural)]
pub enum Field {
    Name,
    Email,
    Password,
    ConfirmPassword,
}

/// The kind of check that failed, named as the `validator` crate names its codes
/// (`length`, `email`, `must_match`).
#[derive(Clone, Copy, Debug, PartialEq, Eq, Structural)]
pub enum Code {
    Length,
    Email,
    MustMatch,
}

/// One failed check: which field, and which check.
#[derive(Clone, Copy, Debug, PartialEq, Eq, Structural)]
pub struct FieldError {
    pub field: Field,
    pub code: Code,
}

pub open spec fn field_error(field: Field, code: Code) -> FieldError {
    FieldError { field, code }
}

/// Whether a character count lies within the optional lower and upper bounds
/// (both inclusive), as `validator::validate_length` decides without `equal`.
pub open spec fn length_within(len: nat, min: Option<u64>, max: Option<u64>) -> bool {
    &&& (min matches Some(m) ==> len >= m)
    &&& (max matches Some(m) ==> len <= m)
}

/// What `validator::validate_email` answers for a string: the HTML5 e-mail syntax
/// on the local part, a domain-name, IDN or address-literal check on the domain part,
/// and length limits on both.
pub uninterp spec fn validator_email(s: Seq<char>) -> bool;

/// Calls `validator::validate_email`. Trusted: the answer is the one `validator_email`
/// names for the string; the crate's source rejects every string without an `@`
/// before any other test. What the crate accepts beyond that is not written out here.
#[verifier::external_body]
pub(crate) fn check_email(value: &String) -> (ok: bool)
    ensures
        ok == validator_email(value@),
        !value@.contains('@') ==> !ok,
{
    validator::validate_email(value.as_str())
}

/// Calls `validator::validate_length` with no `equal` bound. Trusted: the crate's
/// source counts a `&String` by `chars().count()` and accepts exactly when that count
/// is at least `min` and at most `max`, each where given.
#[verifier::external_body]
pub(crate) fn check_length(value: &String, min: Option<u64>, max: Option<u64>) -> (ok: bool)
    ensures
        ok == length_within(value@.len(), min, max),
{
    validator::validate_length(value, min, max, None)
}

/// Appends `field_error(field, code)` to `errors` when `passed` is false.
pub fn record(errors: &mut Vec<FieldError>, passed: bool, field: Field, code: Code)
    ensures
        final(errors)@ == (if passed {
            old(errors)@
        } else {
            old(errors)@.push(field_error(field, code))
        }),
{
    if !passed {
        errors.push(FieldError { field, code });
    }
}

} // verus!
