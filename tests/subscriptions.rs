use zero2prod::confirmation::redeem_token;
use zero2prod::domain::ListSubscriber;
use zero2prod::mail::EmailMessage;
use zero2prod::store::{StoreError, SubscriberStore, SubscriptionStatus};
use zero2prod::subscriptions::{
    FailureReason, FormData, Registration, RegistrationState, ResponseStatus, SubscribeAction,
};

/// Carries out a registration's actions against an in-memory store; the
/// rows of the open transaction are written to the store at the commit.
/// `fail_at` names the action that fails, if any.
struct Harness {
    store: SubscriberStore,
    sent: Vec<EmailMessage>,
    actions: Vec<&'static str>,
}

fn form(name: &str, email: &str) -> FormData {
    FormData { name: name.to_string(), email: email.to_string() }
}

fn register(h: &mut Harness, form: FormData, fail_at: Option<&str>) -> (ResponseStatus, Registration) {
    let (mut reg, mut action) = Registration::start(form, "http://127.0.0.1:8000".to_string());
    let mut staged_subscriber: Option<(u128, String, String, i64)> = None;
    let mut staged_token: Option<String> = None;
    loop {
        let kind = match &action {
            SubscribeAction::BeginTransaction => "begin",
            SubscribeAction::InsertSubscriber { .. } => "insert_subscriber",
            SubscribeAction::InsertToken { .. } => "insert_token",
            SubscribeAction::Commit => "commit",
            SubscribeAction::SendConfirmation(_) => "send",
            SubscribeAction::Respond(_) => "respond",
        };
        h.actions.push(kind);
        let fails = fail_at == Some(kind);
        let ok = match action {
            SubscribeAction::Respond(s) => return (s, reg),
            SubscribeAction::BeginTransaction => !fails,
            SubscribeAction::InsertSubscriber { id, email, name, subscribed_at } => {
                staged_subscriber = Some((id, name, email, subscribed_at));
                !fails
            }
            SubscribeAction::InsertToken { id, token } => {
                assert_eq!(staged_subscriber.as_ref().unwrap().0, id);
                staged_token = Some(token);
                !fails
            }
            SubscribeAction::Commit => {
                if fails {
                    false
                } else {
                    let (id, name, email, at) = staged_subscriber.take().unwrap();
                    let sub = ListSubscriber::try_new(name, email).unwrap();
                    let token = staged_token.take().unwrap();
                    h.store.add_pending(&sub, id, &token, at).is_ok()
                }
            }
            SubscribeAction::SendConfirmation(m) => {
                h.sent.push(m);
                !fails
            }
        };
        let (next, a) = reg.advance(ok);
        reg = next;
        action = a;
    }
}

fn harness() -> Harness {
    Harness { store: SubscriberStore::new(), sent: Vec::new(), actions: Vec::new() }
}

fn token_of(m: &EmailMessage) -> String {
    m.body_text.rsplit("token=").next().unwrap().to_string()
}

#[test]
fn registration_then_link_confirms_subscriber() {
    let mut h = harness();
    let (status, reg) = register(&mut h, form("Test User", "test@example.com"), None);
    assert_eq!(status, ResponseStatus::Success);
    assert_eq!(status.code(), 200);
    assert!(matches!(reg.state, RegistrationState::Completed));
    assert_eq!(h.store.subscriber_count(), 1);
    assert_eq!(h.sent.len(), 1);
    let m = &h.sent[0];
    assert_eq!(m.recipient.as_ref(), "test@example.com");
    let token = token_of(m);
    assert!(m.body_html.contains(&format!("http://127.0.0.1:8000/subscriptions/confirm?token={}", token)));
    let id = h.store.find_subscriber_by_token(&token).unwrap();
    assert_eq!(h.store.status(id), Some(SubscriptionStatus::Pending));
    assert_eq!(h.store.token_for_subscriber(id), Some(token.clone()));
    assert_eq!(redeem_token(&mut h.store, Some(token)), ResponseStatus::Success);
    assert_eq!(h.store.status(id), Some(SubscriptionStatus::Confirmed));
}

#[test]
fn empty_email_is_a_client_error_without_store_or_mail() {
    let mut h = harness();
    let (status, reg) = register(&mut h, form("Tommy", ""), None);
    assert_eq!(status.code(), 400);
    assert!(matches!(reg.state, RegistrationState::Failed(FailureReason::Validation)));
    assert_eq!(h.actions, vec!["respond"]);
    assert_eq!(h.store.subscriber_count(), 0);
    assert!(h.sent.is_empty());
}

#[test]
fn empty_fields_are_client_errors() {
    for (name, email) in [("", "test1@example.com"), ("Tommy", ""), ("", "")] {
        let mut h = harness();
        let (status, _) = register(&mut h, form(name, email), None);
        assert_eq!(status, ResponseStatus::BadRequest);
    }
}

#[test]
fn unknown_token_is_unauthorized_and_changes_nothing() {
    let mut h = harness();
    register(&mut h, form("Test User", "test@example.com"), None);
    let id = h.store.find_subscriber_by_token(&token_of(&h.sent[0])).unwrap();
    let status = redeem_token(&mut h.store, Some("AAAAAAAAAAAAAAAAAAAAAAAAA".to_string()));
    assert_eq!(status, ResponseStatus::Unauthorized);
    assert_eq!(status.code(), 401);
    assert_eq!(h.store.status(id), Some(SubscriptionStatus::Pending));
}

#[test]
fn missing_token_is_a_client_error() {
    let mut store = SubscriberStore::new();
    assert_eq!(redeem_token(&mut store, None), ResponseStatus::BadRequest);
}

#[test]
fn two_registrations_have_distinct_tokens() {
    let mut h = harness();
    let (a, _) = register(&mut h, form("Ann", "ann@example.com"), None);
    let (b, _) = register(&mut h, form("Bob", "bob@example.com"), None);
    assert_eq!(a, ResponseStatus::Success);
    assert_eq!(b, ResponseStatus::Success);
    let ta = token_of(&h.sent[0]);
    let tb = token_of(&h.sent[1]);
    assert_ne!(ta, tb);
    let ia = h.store.find_subscriber_by_token(&ta).unwrap();
    let ib = h.store.find_subscriber_by_token(&tb).unwrap();
    assert_ne!(ia, ib);
    assert_eq!(h.store.subscriber_count(), 2);
}

#[test]
fn confirming_twice_succeeds_twice() {
    let mut h = harness();
    register(&mut h, form("Test User", "test@example.com"), None);
    let token = token_of(&h.sent[0]);
    let id = h.store.find_subscriber_by_token(&token).unwrap();
    assert_eq!(redeem_token(&mut h.store, Some(token.clone())), ResponseStatus::Success);
    assert_eq!(redeem_token(&mut h.store, Some(token)), ResponseStatus::Success);
    assert_eq!(h.store.status(id), Some(SubscriptionStatus::Confirmed));
}

#[test]
fn failed_token_insert_leaves_no_subscriber() {
    let mut h = harness();
    let (status, reg) = register(&mut h, form("Test User", "test@example.com"), Some("insert_token"));
    assert_eq!(status, ResponseStatus::InternalServerError);
    assert!(matches!(reg.state, RegistrationState::Failed(FailureReason::Store)));
    assert_eq!(h.actions, vec!["begin", "insert_subscriber", "insert_token", "respond"]);
    assert_eq!(h.store.subscriber_count(), 0);
    assert!(h.sent.is_empty());
}

#[test]
fn failed_commit_is_a_server_error_without_mail() {
    let mut h = harness();
    let (status, _) = register(&mut h, form("Test User", "test@example.com"), Some("commit"));
    assert_eq!(status.code(), 500);
    assert_eq!(h.store.subscriber_count(), 0);
    assert!(h.sent.is_empty());
}

#[test]
fn failed_delivery_keeps_the_pending_subscriber() {
    let mut h = harness();
    let (status, reg) = register(&mut h, form("Test User", "test@example.com"), Some("send"));
    assert_eq!(status, ResponseStatus::InternalServerError);
    assert!(matches!(reg.state, RegistrationState::Failed(FailureReason::Notify)));
    let id = h.store.find_subscriber_by_token(&token_of(&h.sent[0])).unwrap();
    assert_eq!(h.store.status(id), Some(SubscriptionStatus::Pending));
}

#[test]
fn store_refuses_a_taken_token_atomically() {
    let mut store = SubscriberStore::new();
    let a = ListSubscriber::try_new("Ann".to_string(), "ann@example.com".to_string()).unwrap();
    let b = ListSubscriber::try_new("Bob".to_string(), "bob@example.com".to_string()).unwrap();
    assert_eq!(store.add_pending(&a, 1, "tokentokentokentokentoken", 10), Ok(()));
    // The subscriber row of `b` would be fine; its token is taken.
    assert_eq!(store.add_pending(&b, 2, "tokentokentokentokentoken", 11), Err(StoreError::Conflict));
    assert_eq!(store.subscriber_count(), 1);
    assert_eq!(store.status(2), None);
    assert_eq!(store.find_subscriber_by_token("tokentokentokentokentoken"), Some(1));
}

#[test]
fn store_refuses_a_taken_address() {
    let mut store = SubscriberStore::new();
    let a = ListSubscriber::try_new("Ann".to_string(), "ann@example.com".to_string()).unwrap();
    let (id, token) = store.create_pending(&a).unwrap();
    assert_eq!(token.len(), 25);
    assert_eq!(store.find_subscriber_by_token(&token), Some(id));
    assert_eq!(store.create_pending(&a), Err(StoreError::Conflict));
    assert_eq!(store.subscriber_count(), 1);
}

#[test]
fn store_confirm_is_idempotent() {
    let mut store = SubscriberStore::new();
    let a = ListSubscriber::try_new("Ann".to_string(), "ann@example.com".to_string()).unwrap();
    let (id, _) = store.create_pending(&a).unwrap();
    store.confirm(id);
    store.confirm(id);
    assert_eq!(store.status(id), Some(SubscriptionStatus::Confirmed));
    assert_eq!(store.token_for_subscriber(id + 1), None);
}

#[test]
fn first_registration_in_an_empty_store_succeeds() {
    let mut store = SubscriberStore::new();
    let a = ListSubscriber::try_new("Ann".to_string(), "ann@example.com".to_string()).unwrap();
    let (id, token) = store.create_pending(&a).unwrap();
    assert_eq!(store.status(id), Some(SubscriptionStatus::Pending));
    assert_eq!(store.token_for_subscriber(id), Some(token));
}
