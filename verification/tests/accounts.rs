use collabs_code::account::{
    insert_outcome, login_credentials, login_outcome, login_reply, signup_account, DbFailure,
};
use collabs_code::dtos::{LoginAcountDto, NewUserDto};
use collabs_code::errors::CustomError;
use collabs_code::validation::{Code, Field, FieldError};

fn dto(is_admin: Option<bool>) -> NewUserDto {
    NewUserDto {
        name: "carol".to_string(),
        email: "carol@example.com".to_string(),
        password: "secret123".to_string(),
        confirm_password: "secret123".to_string(),
        is_admin,
    }
}

#[test]
fn signup_builds_account() {
    let u = signup_account(&dto(None)).unwrap();
    assert_eq!(u.name, "carol");
    assert_eq!(u.email, "carol@example.com");
    assert_eq!(u.password, "secret123");
    assert!(!u.is_admin);
    assert!(signup_account(&dto(Some(true))).unwrap().is_admin);
    assert!(!signup_account(&dto(Some(false))).unwrap().is_admin);
}

#[test]
fn signup_rejects_invalid_payload() {
    let mut d = dto(None);
    d.confirm_password = "secret124".to_string();
    match signup_account(&d) {
        Err(CustomError::ValidationError { e }) => {
            assert_eq!(e, vec![FieldError { field: Field::ConfirmPassword, code: Code::MustMatch }])
        }
        _ => panic!("expected a validation error"),
    }
}

#[test]
fn insert_outcomes() {
    assert!(matches!(insert_outcome(Ok(42)), Ok(42)));
    assert!(matches!(insert_outcome(Ok(0)), Ok(0)));
    assert_eq!(insert_outcome(Ok(-1)).unwrap(), usize::MAX);
    assert!(matches!(insert_outcome(Err(DbFailure::Query)), Err(CustomError::Conflict)));
    assert!(matches!(insert_outcome(Err(DbFailure::Other)), Err(CustomError::ServerError)));
}

#[test]
fn login_credentials_checks_payload() {
    let ok = LoginAcountDto { email: "dan@example.com".to_string(), password: "hunter22".to_string() };
    let c = login_credentials(&ok).unwrap();
    assert_eq!(c.email, "dan@example.com");
    assert_eq!(c.password, "hunter22");
    let bad = LoginAcountDto { email: "dan@example.com".to_string(), password: "x".to_string() };
    assert!(matches!(login_credentials(&bad), Err(CustomError::ValidationError { .. })));
}

#[test]
fn login_outcomes() {
    let pw = "hunter22".to_string();
    assert!(matches!(login_outcome(Ok(Some("hunter22".to_string())), &pw), Ok(true)));
    assert!(matches!(login_outcome(Ok(Some("hunter23".to_string())), &pw), Err(CustomError::Unauthorized)));
    assert!(matches!(login_outcome(Ok(None), &pw), Err(CustomError::NotFound)));
    assert!(matches!(login_outcome(Err(DbFailure::Other), &pw), Err(CustomError::ServerError)));
    assert!(matches!(login_outcome(Err(DbFailure::Query), &pw), Err(CustomError::ServerError)));
}

#[test]
fn login_replies() {
    assert_eq!(login_reply(Ok(true)).unwrap(), "Login Successful");
    assert!(matches!(login_reply(Ok(false)), Err(CustomError::Unauthorized)));
    assert!(matches!(login_reply(Err(CustomError::NotFound)), Err(CustomError::NotFound)));
}

#[test]
fn login_succeeds_only_with_the_stored_password() {
    let pw = "correct horse".to_string();
    let ok = login_reply(login_outcome(Ok(Some(pw.clone())), &pw));
    assert_eq!(ok.unwrap(), "Login Successful");
    let wrong = login_reply(login_outcome(Ok(Some("other".to_string())), &pw));
    assert!(matches!(wrong, Err(CustomError::Unauthorized)));
    let missing = login_reply(login_outcome(Ok(None), &pw));
    assert!(matches!(missing, Err(CustomError::NotFound)));
}

#[test]
fn error_statuses() {
    assert_eq!(CustomError::ValidationError { e: vec![] }.status_code(), 400);
    assert_eq!(CustomError::Conflict.status_code(), 409);
    assert_eq!(CustomError::ServerError.status_code(), 500);
    assert_eq!(CustomError::NotFound.status_code(), 404);
    assert_eq!(CustomError::Unauthorized.status_code(), 401);
}
