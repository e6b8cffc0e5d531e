use zero2prod::domain::ListSubscriberEmail;

#[test]
fn creation_works() {
    let email: String = "email@domain.test".into();
    let user = ListSubscriberEmail::try_from(email.clone()).unwrap();
    assert_eq!(user.as_ref(), email);
}

#[test]
fn no_at_sign() {
    let email: String = "emaildomain.test".into();
    let user = ListSubscriberEmail::try_from(email.clone());
    assert!(user.is_err());
}

#[test]
fn no_user() {
    let email: String = "@domain.test".into();
    let user = ListSubscriberEmail::try_from(email.clone());
    assert!(user.is_err());
}

#[test]
fn blank() {
    let email: String = "".into();
    let user = ListSubscriberEmail::try_from(email.clone());
    assert!(user.is_err());
}

#[test]
fn domain_without_dot_is_rejected() {
    assert!(ListSubscriberEmail::try_from("user@localhost".to_string()).is_err());
}

#[test]
fn dot_only_before_the_at_sign_is_rejected() {
    assert!(ListSubscriberEmail::try_from("first.last@localhost".to_string()).is_err());
}

#[test]
fn address_with_whitespace_is_rejected() {
    assert!(ListSubscriberEmail::try_from("us er@domain.test".to_string()).is_err());
}

#[test]
fn email_error_names_the_address() {
    let err = ListSubscriberEmail::try_from("nope".to_string()).unwrap_err();
    assert_eq!(err, "Email nope failed validation.");
}

#[test]
fn cloned_address_keeps_its_text() {
    let email = ListSubscriberEmail::try_from("a.b@c.example".to_string()).unwrap();
    assert_eq!(email.clone().as_ref(), "a.b@c.example");
}
