use collabs_code::dtos::{LoginAcountDto, NewUserDto, UpdateProfileDto};
use collabs_code::validation::{Code, Field, FieldError};

fn fe(field: Field, code: Code) -> FieldError {
    FieldError { field, code }
}

fn new_user(name: &str, email: &str, password: &str, confirm: &str) -> NewUserDto {
    NewUserDto {
        name: name.to_string(),
        email: email.to_string(),
        password: password.to_string(),
        confirm_password: confirm.to_string(),
        is_admin: None,
    }
}

#[test]
fn new_user_valid_payload_passes() {
    let dto = new_user("alice", "alice@example.com", "password1", "password1");
    assert!(dto.validate().is_ok());
}

#[test]
fn new_user_name_bounds() {
    assert_eq!(
        new_user("al", "al@example.com", "password1", "password1").validate(),
        Err(vec![fe(Field::Name, Code::Length)])
    );
    assert!(new_user("abc", "al@example.com", "password1", "password1").validate().is_ok());
    assert!(new_user("abcdefghijklmnopqrst", "al@example.com", "password1", "password1")
        .validate()
        .is_ok());
    assert_eq!(
        new_user("abcdefghijklmnopqrstu", "al@example.com", "password1", "password1").validate(),
        Err(vec![fe(Field::Name, Code::Length)])
    );
}

#[test]
fn new_user_name_counts_characters_not_bytes() {
    // three characters, six bytes
    assert!(new_user("éèê", "al@example.com", "password1", "password1").validate().is_ok());
}

#[test]
fn new_user_email_checks() {
    assert_eq!(
        new_user("alice", "not-an-email", "password1", "password1").validate(),
        Err(vec![fe(Field::Email, Code::Email)])
    );
    // 31 characters, well-formed
    let long = "abcdefghijklmnopqrstuvw@xyz.com";
    assert_eq!(long.chars().count(), 31);
    assert_eq!(
        new_user("alice", long, "password1", "password1").validate(),
        Err(vec![fe(Field::Email, Code::Length)])
    );
    let thirty = "abcdefghijklmnopqrstuv@xyz.com";
    assert_eq!(thirty.chars().count(), 30);
    assert!(new_user("alice", thirty, "password1", "password1").validate().is_ok());
}

#[test]
fn new_user_password_and_confirmation() {
    assert_eq!(
        new_user("alice", "a@b.co", "short", "short").validate(),
        Err(vec![fe(Field::Password, Code::Length), fe(Field::ConfirmPassword, Code::Length)])
    );
    assert_eq!(
        new_user("alice", "a@b.co", "password1", "password2").validate(),
        Err(vec![fe(Field::ConfirmPassword, Code::MustMatch)])
    );
    assert_eq!(
        new_user("alice", "a@b.co", "password1", "pw").validate(),
        Err(vec![
            fe(Field::ConfirmPassword, Code::MustMatch),
            fe(Field::ConfirmPassword, Code::Length)
        ])
    );
}

#[test]
fn new_user_all_failures_in_field_order() {
    assert_eq!(
        new_user("x", "", "1", "2").validate(),
        Err(vec![
            fe(Field::Name, Code::Length),
            fe(Field::Email, Code::Email),
            fe(Field::Password, Code::Length),
            fe(Field::ConfirmPassword, Code::MustMatch),
            fe(Field::ConfirmPassword, Code::Length),
        ])
    );
}

#[test]
fn new_user_errors_given_email_outcome() {
    let dto = new_user("alice", "alice@example.com", "password1", "password1");
    assert_eq!(dto.validation_errors(true), vec![]);
    assert_eq!(dto.validation_errors(false), vec![fe(Field::Email, Code::Email)]);
}

#[test]
fn login_payload_checks() {
    let ok = LoginAcountDto { email: "bob@example.com".to_string(), password: "12345678".to_string() };
    assert!(ok.validate().is_ok());
    let bad = LoginAcountDto { email: "bob".to_string(), password: "1234567".to_string() };
    assert_eq!(
        bad.validate(),
        Err(vec![fe(Field::Email, Code::Email), fe(Field::Password, Code::Length)])
    );
    assert_eq!(ok.validation_errors(false), vec![fe(Field::Email, Code::Email)]);
}

#[test]
fn update_profile_checks() {
    let none = UpdateProfileDto { name: None, profile_pic: Some(vec![1, 2, 3]) };
    assert!(none.validate().is_ok());
    let short = UpdateProfileDto { name: Some("ab".to_string()), profile_pic: None };
    assert_eq!(short.validate(), Err(vec![fe(Field::Name, Code::Length)]));
    let fine = UpdateProfileDto { name: Some("abcd".to_string()), profile_pic: None };
    assert!(fine.validate().is_ok());
}
