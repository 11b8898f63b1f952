//! Request payloads of the account endpoints and their field checks.
//!
//! The checks follow the payloads' declared rules field by field, in declaration
//! order, and within a field in the order the rules are written.

use vstd::prelude::*;
use crate::validation::{
    check_email, check_length, field_error, length_within, record, validator_email, Code,
    Field, FieldError,
};

verus! {

/// Failed checks of an e-mail field: the e-mail syntax check (whose outcome is
/// `email_ok`), then at most 30 characters.
pub open spec fn email_field_errors(email: Seq<char>, email_ok: bool) -> Seq<FieldError> {
    (if email_ok { seq![] } else { seq![field_error(Field::Email, Code::Email)] })
    + (if length_within(email.len(), None, Some(30)) { seq![] } else {
        seq![field_error(Field::Email, Code::Length)]
    })
}

/// Failed check of a field that must be `min` characters at least and, where given,
/// `max` at most.
pub open spec fn length_errors(field: Field, s: Seq<char>, min: Option<u64>, max: Option<u64>) -> Seq<FieldError> {
    if length_within(s.len(), min, max) { seq![] } else { seq![field_error(field, Code::Length)] }
}

/// Payload of the login endpoint.
pub struct LoginAcountDto {
    /// An e-mail address of at most 30 characters.
    pub email: String,
    /// At least 8 characters.
    pub password: String,
}

/// Payload of the signup endpoint.
pub struct NewUserDto {
    /// Between 3 and 20 characters.
    pub name: String,
    /// An e-mail address of at most 30 characters.
    pub email: String,
    /// At least 8 characters.
    pub password: String,
    /// Equal to `password`, and at least 8 characters.
    pub confirm_password: String,
    /// Whether the account is an administrator's; absent means no.
    pub is_admin: Option<bool>,
}

/// Payload of a profile update.
pub struct UpdateProfileDto {
    /// Between 3 and 20 characters, where given.
    pub name: Option<String>,
    /// A picture, carried without a check.
    pub profile_pic: Option<Vec<u8>>,
}

/// The failed checks of a login payload, given the outcome of the e-mail syntax check.
pub open spec fn login_errors(email: Seq<char>, password: Seq<char>, email_ok: bool) -> Seq<FieldError> {
    email_field_errors(email, email_ok) + length_errors(Field::Password, password, Some(8), None)
}

/// The failed checks of a signup payload, given the outcome of the e-mail syntax check.
pub open spec fn new_user_errors(
    name: Seq<char>,
    email: Seq<char>,
    password: Seq<char>,
    confirm_password: Seq<char>,
    email_ok: bool,
) -> Seq<FieldError> {
    length_errors(Field::Name, name, Some(3), Some(20))
    + email_field_errors(email, email_ok)
    + length_errors(Field::Password, password, Some(8), None)
    + (if confirm_password == password { seq![] } else {
        seq![field_error(Field::ConfirmPassword, Code::MustMatch)]
    })
    + length_errors(Field::ConfirmPassword, confirm_password, Some(8), None)
}

/// A signup payload passes its checks exactly when the name has 3 to 20 characters,
/// the e-mail address passes the syntax check and has at most 30 characters, the
/// password has at least 8 characters, and the confirmation equals the password.
pub proof fn lemma_new_user_valid_iff(
    name: Seq<char>,
    email: Seq<char>,
    password: Seq<char>,
    confirm_password: Seq<char>,
    email_ok: bool,
)
    ensures
        new_user_errors(name, email, password, confirm_password, email_ok).len() == 0 <==> {
            &&& 3 <= name.len() <= 20
            &&& email_ok
            &&& email.len() <= 30
            &&& password.len() >= 8
            &&& confirm_password == password
        },
{
}

/// A login payload passes its checks exactly when the e-mail address passes the
/// syntax check and has at most 30 characters, and the password has at least 8
/// characters.
pub proof fn lemma_login_valid_iff(email: Seq<char>, password: Seq<char>, email_ok: bool)
    ensures
        login_errors(email, password, email_ok).len() == 0 <==> {
            &&& email_ok
            &&& email.len() <= 30
            &&& password.len() >= 8
        },
{
}

/// The name-length, e-mail syntax and confirmation failures each appear in the
/// reported list exactly when that check fails.
pub proof fn lemma_new_user_errors_report_each_failure(
    name: Seq<char>,
    email: Seq<char>,
    password: Seq<char>,
    confirm_password: Seq<char>,
    email_ok: bool,
)
    ensures
        new_user_errors(name, email, password, confirm_password, email_ok).contains(
            field_error(Field::Email, Code::Email),
        ) <==> !email_ok,
        new_user_errors(name, email, password, confirm_password, email_ok).contains(
            field_error(Field::ConfirmPassword, Code::MustMatch),
        ) <==> confirm_password != password,
        new_user_errors(name, email, password, confirm_password, email_ok).contains(
            field_error(Field::Name, Code::Length),
        ) <==> !(3 <= name.len() <= 20),
{
    let errs = new_user_errors(name, email, password, confirm_password, email_ok);
    let e1 = field_error(Field::Email, Code::Email);
    let e2 = field_error(Field::ConfirmPassword, Code::MustMatch);
    let e3 = field_error(Field::Name, Code::Length);
    if !email_ok {
        let k = length_errors(Field::Name, name, Some(3), Some(20)).len();
        assert(errs[k as int] == e1);
    }
    if confirm_password != password {
        let k = (length_errors(Field::Name, name, Some(3), Some(20))
            + email_field_errors(email, email_ok)
            + length_errors(Field::Password, password, Some(8), None)).len();
        assert(errs[k as int] == e2);
    }
    if !(3 <= name.len() <= 20) {
        assert(errs[0] == e3);
    }
}

/// A profile update passes its checks exactly when the name, where given, has 3 to
/// 20 characters; the only failure it can report is the name's length.
pub proof fn lemma_update_profile_valid_iff(name: Option<Seq<char>>)
    ensures
        update_profile_errors(None).len() == 0,
        name matches Some(n) ==> (update_profile_errors(name).len() == 0 <==> 3 <= n.len() <= 20),
        forall|i: int|
            0 <= i < update_profile_errors(name).len() ==> #[trigger] update_profile_errors(name)[i]
                == field_error(Field::Name, Code::Length),
{
}

/// The failed checks of a profile update.
pub open spec fn update_profile_errors(name: Option<Seq<char>>) -> Seq<FieldError> {
    match name {
        Some(n) => length_errors(Field::Name, n, Some(3), Some(20)),
        None => seq![],
    }
}

/// Runs the checks of an e-mail field, taking the e-mail syntax outcome as given.
fn push_email_errors(errors: &mut Vec<FieldError>, email: &String, email_ok: bool)
    ensures
        final(errors)@ == old(errors)@ + email_field_errors(email@, email_ok),
{
    let ghost start = errors@;
    record(errors, email_ok, Field::Email, Code::Email);
    let len_ok = check_length(email, None, Some(30));
    record(errors, len_ok, Field::Email, Code::Length);
    assert(errors@ =~= start + email_field_errors(email@, email_ok));
}

impl LoginAcountDto {
    /// Whether the payload passes its checks.
    pub open spec fn is_valid(&self) -> bool {
        login_errors(self.email@, self.password@, validator_email(self.email@)).len() == 0
    }

    /// The failed checks, in order, where the e-mail syntax check answered `email_ok`.
    pub fn validation_errors(&self, email_ok: bool) -> (errors: Vec<FieldError>)
        ensures
            errors@ == login_errors(self.email@, self.password@, email_ok),
    {
        let mut errors: Vec<FieldError> = Vec::new();
        push_email_errors(&mut errors, &self.email, email_ok);
        let pw_ok = check_length(&self.password, Some(8), None);
        record(&mut errors, pw_ok, Field::Password, Code::Length);
        assert(errors@ =~= login_errors(self.email@, self.password@, email_ok));
        errors
    }

    /// Checks the payload: `Ok` when every check passes, else every failed check.
    pub fn validate(&self) -> (r: Result<(), Vec<FieldError>>)
        ensures
            r is Ok <==> self.is_valid(),
            r matches Err(e) ==> e@ == login_errors(
                self.email@,
                self.password@,
                validator_email(self.email@),
            ),
    {
        let email_ok = check_email(&self.email);
        let errors = self.validation_errors(email_ok);
        if errors.len() == 0 {
            Ok(())
        } else {
            Err(errors)
        }
    }
}

impl NewUserDto {
    /// Whether the payload passes its checks.
    pub open spec fn is_valid(&self) -> bool {
        new_user_errors(
            self.name@,
            self.email@,
            self.password@,
            self.confirm_password@,
            validator_email(self.email@),
        ).len() == 0
    }

    /// The failed checks, in order, where the e-mail syntax check answered `email_ok`.
    pub fn validation_errors(&self, email_ok: bool) -> (errors: Vec<FieldError>)
        ensures
            errors@ == new_user_errors(
                self.name@,
                self.email@,
                self.password@,
                self.confirm_password@,
                email_ok,
            ),
    {
        let mut errors: Vec<FieldError> = Vec::new();
        let name_ok = check_length(&self.name, Some(3), Some(20));
        record(&mut errors, name_ok, Field::Name, Code::Length);
        push_email_errors(&mut errors, &self.email, email_ok);
        let pw_ok = check_length(&self.password, Some(8), None);
        record(&mut errors, pw_ok, Field::Password, Code::Length);
        let matches = self.confirm_password == self.password;
        record(&mut errors, matches, Field::ConfirmPassword, Code::MustMatch);
        let confirm_ok = check_length(&self.confirm_password, Some(8), None);
        record(&mut errors, confirm_ok, Field::ConfirmPassword, Code::Length);
        assert(errors@ =~= new_user_errors(
            self.name@,
            self.email@,
            self.password@,
            self.confirm_password@,
            email_ok,
        ));
        errors
    }

    /// Checks the payload: `Ok` when every check passes, else every failed check.
    pub fn validate(&self) -> (r: Result<(), Vec<FieldError>>)
        ensures
            r is Ok <==> self.is_valid(),
            r matches Err(e) ==> e@ == new_user_errors(
                self.name@,
                self.email@,
                self.password@,
                self.confirm_password@,
                validator_email(self.email@),
            ),
    {
        let email_ok = check_email(&self.email);
        let errors = self.validation_errors(email_ok);
        if errors.len() == 0 {
            Ok(())
        } else {
            Err(errors)
        }
    }
}

impl UpdateProfileDto {
    /// The name, where given, by its characters.
    pub open spec fn name_view(&self) -> Option<Seq<char>> {
        match &self.name {
            Some(n) => Some(n@),
            None => None,
        }
    }

    /// Checks the payload: `Ok` when every check passes, else every failed check.
    pub fn validate(&self) -> (r: Result<(), Vec<FieldError>>)
        ensures
            r is Ok <==> update_profile_errors(self.name_view()).len() == 0,
            r matches Err(e) ==> e@ == update_profile_errors(self.name_view()),
    {
        let mut errors: Vec<FieldError> = Vec::new();
        match &self.name {
            Some(n) => {
                let ok = check_length(n, Some(3), Some(20));
                record(&mut errors, ok, Field::Name, Code::Length);
            },
            None => {},
        }
        assert(errors@ =~= update_profile_errors(self.name_view()));
        if errors.len() == 0 {
            Ok(())
        } else {
            Err(errors)
        }
    }
}

} // verus!
