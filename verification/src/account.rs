//! The decisions of the signup and login endpoints and of the account store
//! calls behind them. The database work itself is done by the caller, which hands
//! its outcome to these functions.

use vstd::prelude::*;
use crate::dtos::{login_errors, new_user_errors, LoginAcountDto, NewUserDto};
use crate::errors::CustomError;
use crate::validation::{validator_email, FieldError};

verus! {

/// The account that a signup asks to store.
pub struct NewUser {
    pub name: String,
    pub email: String,
    pub password: String,
    pub is_admin: bool,
}

/// The e-mail address and password that a login presents.
pub struct LoginCredentials {
    pub email: String,
    pub password: String,
}

/// How a database call failed: a rejected query (such as a duplicate key), or
/// anything else (connection, decoding, ...).
#[derive(Clone, Copy, Debug, PartialEq, Eq, Structural)]
pub enum DbFailure {
    Query,
    Other,
}

/// Whether `r` is the validation failure that lists exactly `errors`.
pub open spec fn is_validation_failure(r: CustomError, errors: Seq<FieldError>) -> bool {
    r matches CustomError::ValidationError { e } && e@ == errors
}

/// The failed checks of a signup payload.
pub open spec fn signup_errors(data: &NewUserDto) -> Seq<FieldError> {
    new_user_errors(
        data.name@,
        data.email@,
        data.password@,
        data.confirm_password@,
        validator_email(data.email@),
    )
}

/// The failed checks of a login payload.
pub open spec fn login_payload_errors(data: &LoginAcountDto) -> Seq<FieldError> {
    login_errors(data.email@, data.password@, validator_email(data.email@))
}

/// Checks a signup payload and, when it passes, gives the account to store:
/// its name, e-mail address and password, and administrator only where the payload
/// says so.
pub fn signup_account(data: &NewUserDto) -> (r: Result<NewUser, CustomError>)
    ensures
        r is Ok <==> signup_errors(data).len() == 0,
        r matches Err(e) ==> is_validation_failure(e, signup_errors(data)),
        r matches Ok(u) ==> {
            &&& u.name@ == data.name@
            &&& u.email@ == data.email@
            &&& u.password@ == data.password@
            &&& u.is_admin == (data.is_admin == Some(true))
        },
{
    match data.validate() {
        Err(e) => Err(CustomError::ValidationError { e }),
        Ok(()) => {
            let is_admin = match data.is_admin {
                Some(b) => b,
                None => false,
            };
            Ok(
                NewUser {
                    name: data.name.clone(),
                    email: data.email.clone(),
                    password: data.password.clone(),
                    is_admin,
                },
            )
        },
    }
}

/// What the account store's insert comes to, given its outcome.
pub open spec fn insert_outcome_spec(inserted: Result<i32, DbFailure>) -> Result<usize, CustomError> {
    match inserted {
        Ok(id) => Ok(id as usize),
        Err(DbFailure::Query) => Err(CustomError::Conflict),
        Err(DbFailure::Other) => Err(CustomError::ServerError),
    }
}

/// What the account store's insert comes to: the new row's id, read as a `usize`,
/// or `Conflict` for a rejected query and `ServerError` for any other failure.
pub fn insert_outcome(inserted: Result<i32, DbFailure>) -> (r: Result<usize, CustomError>)
    ensures
        r == insert_outcome_spec(inserted),
        inserted matches Ok(id) ==> (id >= 0 ==> r == Ok::<usize, CustomError>(id as usize)
            && id as usize == id),
{
    match inserted {
        Ok(id) => Ok(id as usize),
        Err(DbFailure::Query) => Err(CustomError::Conflict),
        Err(DbFailure::Other) => Err(CustomError::ServerError),
    }
}

/// Checks a login payload and, when it passes, gives the credentials it presents.
pub fn login_credentials(data: &LoginAcountDto) -> (r: Result<LoginCredentials, CustomError>)
    ensures
        r is Ok <==> login_payload_errors(data).len() == 0,
        r matches Err(e) ==> is_validation_failure(e, login_payload_errors(data)),
        r matches Ok(c) ==> c.email@ == data.email@ && c.password@ == data.password@,
{
    match data.validate() {
        Err(e) => Err(CustomError::ValidationError { e }),
        Ok(()) => Ok(LoginCredentials { email: data.email.clone(), password: data.password.clone() }),
    }
}

/// The account store's lookup by its characters: the stored password of the account
/// found, if any, or the failure.
pub open spec fn lookup_view(found: Result<Option<String>, DbFailure>) -> Result<Option<Seq<char>>, DbFailure> {
    match found {
        Ok(Some(s)) => Ok(Some(s@)),
        Ok(None) => Ok(None),
        Err(f) => Err(f),
    }
}

/// The login decision: a failed lookup is `ServerError`; no account is `NotFound`;
/// a stored password equal to the presented one is `Ok(true)`; any other is
/// `Unauthorized`.
pub open spec fn login_outcome_spec(found: Result<Option<Seq<char>>, DbFailure>, password: Seq<char>) -> Result<bool, CustomError> {
    match found {
        Err(_) => Err(CustomError::ServerError),
        Ok(None) => Err(CustomError::NotFound),
        Ok(Some(stored)) => if stored == password {
            Ok(true)
        } else {
            Err(CustomError::Unauthorized)
        },
    }
}

/// The login decision, given the account store's lookup: the stored password of the
/// first account found for the e-mail address, if any.
pub fn login_outcome(found: Result<Option<String>, DbFailure>, password: &String) -> (r: Result<
    bool,
    CustomError,
>)
    ensures
        r == login_outcome_spec(lookup_view(found), password@),
{
    match found {
        Err(_) => Err(CustomError::ServerError),
        Ok(None) => Err(CustomError::NotFound),
        Ok(Some(stored)) => {
            if *password == stored {
                Ok(true)
            } else {
                Err(CustomError::Unauthorized)
            }
        },
    }
}

/// The message of a successful login.
pub open spec fn login_message() -> Seq<char> {
    "Login Successful"@
}

/// A reply by its characters.
pub open spec fn reply_view(r: Result<String, CustomError>) -> Result<Seq<char>, CustomError> {
    match r {
        Ok(m) => Ok(m@),
        Err(e) => Err(e),
    }
}

/// The reply of the login endpoint: the message of a successful login, or the
/// error; a negative answer is `Unauthorized`.
pub open spec fn login_reply_spec(status: Result<bool, CustomError>) -> Result<Seq<char>, CustomError> {
    match status {
        Ok(true) => Ok(login_message()),
        Ok(false) => Err(CustomError::Unauthorized),
        Err(e) => Err(e),
    }
}

/// The reply of the login endpoint, given the login decision.
pub fn login_reply(status: Result<bool, CustomError>) -> (r: Result<String, CustomError>)
    ensures
        reply_view(r) == login_reply_spec(status),
{
    match status {
        Ok(true) => Ok(String::from_str("Login Successful")),
        Ok(false) => Err(CustomError::Unauthorized),
        Err(e) => Err(e),
    }
}

/// A login whose lookup succeeded is answered with the success message exactly when
/// an account was found and holds the presented password; with no account the answer
/// is `NotFound`, with another password `Unauthorized`.
pub proof fn lemma_login_succeeds_iff_password_matches(
    found: Option<Seq<char>>,
    password: Seq<char>,
)
    ensures
        login_reply_spec(login_outcome_spec(Ok(found), password)) == (if found == Some(password) {
            Ok::<Seq<char>, CustomError>(login_message())
        } else if found is None {
            Err(CustomError::NotFound)
        } else {
            Err(CustomError::Unauthorized)
        }),
{
}

/// An account stored by a signup logs in with the password it signed up with: when
/// the lookup finds the stored password of `signup_account`'s account (the payload's
/// password, unchanged), a login presenting that password is answered with success.
pub proof fn lemma_signed_up_password_logs_in(data: NewUserDto, account: NewUser, presented: Seq<char>)
    requires
        account.password@ == data.password@,
        presented == data.password@,
    ensures
        login_reply_spec(login_outcome_spec(Ok(Some(account.password@)), presented)) == Ok::<
            Seq<char>,
            CustomError,
        >(login_message()),
{
}

/// A failed lookup is always answered with `ServerError`, whatever was presented.
pub proof fn lemma_failed_lookup_is_server_error(failure: DbFailure, password: Seq<char>)
    ensures
        login_reply_spec(login_outcome_spec(Err(failure), password)) == Err::<Seq<char>, CustomError>(
            CustomError::ServerError,
        ),
{
}

} // verus!
