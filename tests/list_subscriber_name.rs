use zero2prod::domain::{ListSubscriber, ListSubscriberName, MAX_NAME_GRAPHEMES};

#[test]
fn plain_name_is_accepted() {
    let name = ListSubscriberName::try_from("Ursula Le Guin".to_string()).unwrap();
    assert_eq!(name.as_ref(), "Ursula Le Guin");
}

#[test]
fn empty_name_is_rejected() {
    assert!(ListSubscriberName::try_from(String::new()).is_err());
}

#[test]
fn whitespace_only_name_is_rejected() {
    assert!(ListSubscriberName::try_from(" \t\n ".to_string()).is_err());
}

#[test]
fn name_of_the_largest_length_is_accepted() {
    let name = "a".repeat(MAX_NAME_GRAPHEMES);
    assert!(ListSubscriberName::try_from(name).is_ok());
}

#[test]
fn name_one_grapheme_too_long_is_rejected() {
    let name = "a".repeat(MAX_NAME_GRAPHEMES + 1);
    assert!(ListSubscriberName::try_from(name).is_err());
}

#[test]
fn long_names_are_counted_in_graphemes() {
    // 256 clusters of "e" plus a combining acute accent: 512 chars.
    let name = "e\u{301}".repeat(256);
    assert!(ListSubscriberName::try_from(name).is_ok());
    let name = "\u{e5}".repeat(257);
    assert!(ListSubscriberName::try_from(name).is_err());
}

#[test]
fn names_with_forbidden_characters_are_rejected() {
    for c in ['/', '(', ')', '"', '<', '>', '\\', '{', '}'] {
        let name = format!("Ann{}Lee", c);
        assert!(ListSubscriberName::try_from(name).is_err(), "accepted {}", c);
    }
}

#[test]
fn name_error_message() {
    let err = ListSubscriberName::try_from("<script>".to_string()).unwrap_err();
    assert_eq!(err, "Validation on Subscriber Name Failed!");
}

#[test]
fn subscriber_needs_both_fields_valid() {
    let ok = ListSubscriber::try_new("Test User".to_string(), "test@example.com".to_string()).unwrap();
    assert_eq!(ok.name.as_ref(), "Test User");
    assert_eq!(ok.email.as_ref(), "test@example.com");
    let bad_name = ListSubscriber::try_new(" ".to_string(), "bad".to_string()).unwrap_err();
    assert_eq!(bad_name, "Validation on Subscriber Name Failed!");
    let bad_email = ListSubscriber::try_new("Tommy".to_string(), String::new()).unwrap_err();
    assert_eq!(bad_email, "Email  failed validation.");
}

#[test]
fn unicode_whitespace_only_name_is_rejected() {
    assert!(ListSubscriberName::try_from("\u{3000}\u{a0}\u{2028}".to_string()).is_err());
}

#[test]
fn zero_width_space_is_not_whitespace() {
    assert!(ListSubscriberName::try_from("\u{200b}".to_string()).is_ok());
}
