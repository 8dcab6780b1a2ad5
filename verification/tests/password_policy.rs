use scanopy::auth::requests::{ResetPasswordRequest, UpdatePasswordRequest};

#[test]
fn update_password_rejects_weak_and_accepts_strong() {
    let strong = UpdatePasswordRequest {
        current_password: Some("whatever".into()),
        new_password: "Str0ngPassword".into(),
    };
    assert!(strong.validate().is_ok());

    let too_short = UpdatePasswordRequest { current_password: None, new_password: "Sh0rt".into() };
    assert!(too_short.validate().is_err());

    let no_complexity = UpdatePasswordRequest {
        current_password: None,
        new_password: "alllowercasenodigits".into(),
    };
    assert!(no_complexity.validate().is_err());
}

#[test]
fn reset_password_rejects_weak_and_accepts_strong() {
    let strong = ResetPasswordRequest { token: "tok".into(), password: "Str0ngPassword".into() };
    assert!(strong.validate().is_ok());

    let too_short = ResetPasswordRequest { token: "tok".into(), password: "Ab1".into() };
    assert!(too_short.validate().is_err());

    let no_digit = ResetPasswordRequest { token: "tok".into(), password: "NoDigitsHereAtAll".into() };
    assert!(no_digit.validate().is_err());
}
