use zero2prod::domain::{ListSubscriber, ListSubscriberEmail};
use zero2prod::mail::{confirmation_link, confirmation_message, email_endpoint, EmailApiRequest};

#[test]
fn link_has_the_confirmation_path() {
    assert_eq!(
        confirmation_link("http://127.0.0.1:8000", "abc123"),
        "http://127.0.0.1:8000/subscriptions/confirm?token=abc123"
    );
}

#[test]
fn both_bodies_carry_the_link() {
    let user = ListSubscriber::try_new("Fake Name".to_string(), "fake@example.com".to_string()).unwrap();
    let m = confirmation_message(user, "tok", "http://h");
    let link = "http://h/subscriptions/confirm?token=tok";
    assert_eq!(m.recipient.as_ref(), "fake@example.com");
    assert_eq!(m.subject, "Derp");
    assert_eq!(m.body_text, format!("Welcome to my mailing list. Link: {}", link));
    assert_eq!(m.body_html, format!("Welcome to my list <a href={}>Link</a>", link));
}

#[test]
fn api_request_takes_the_message_fields() {
    let user = ListSubscriber::try_new("Fake Name".to_string(), "to@example.com".to_string()).unwrap();
    let sender = ListSubscriberEmail::try_from("from@example.com".to_string()).unwrap();
    let m = confirmation_message(user, "tok", "http://h");
    let text = m.body_text.clone();
    let req = EmailApiRequest::new(&sender, m);
    assert_eq!(req.from, "from@example.com");
    assert_eq!(req.to, "to@example.com");
    assert_eq!(req.subject, "Derp");
    assert_eq!(req.text_body, text);
    assert!(req.html_body.contains("<a href=http://h/subscriptions/confirm?token=tok>"));
    assert_eq!(email_endpoint("http://mail"), "http://mail/email");
}
