use zero2prod::confirmation::{ConfirmAction, Confirmation, ConfirmationState, LookupResult};
use zero2prod::subscriptions::ResponseStatus;

#[test]
fn request_without_token_is_a_client_error() {
    let (c, a) = Confirmation::start(None);
    assert_eq!(c.state, ConfirmationState::Done(ResponseStatus::BadRequest));
    assert!(matches!(a, ConfirmAction::Respond(ResponseStatus::BadRequest)));
}

#[test]
fn found_token_leads_to_confirmation() {
    let (mut c, a) = Confirmation::start(Some("abc".to_string()));
    assert!(matches!(a, ConfirmAction::LookupToken(ref t) if t == "abc"));
    let a = c.on_lookup(LookupResult::Found(7));
    assert!(matches!(a, ConfirmAction::ConfirmSubscriber(7)));
    let a = c.on_confirmed(true);
    assert!(matches!(a, ConfirmAction::Respond(ResponseStatus::Success)));
}

#[test]
fn lookup_outcomes_map_to_responses() {
    let (mut c, _) = Confirmation::start(Some("abc".to_string()));
    assert!(matches!(c.on_lookup(LookupResult::NotFound), ConfirmAction::Respond(ResponseStatus::Unauthorized)));
    let (mut c, _) = Confirmation::start(Some("abc".to_string()));
    assert!(matches!(c.on_lookup(LookupResult::Failed), ConfirmAction::Respond(ResponseStatus::InternalServerError)));
    let (mut c, _) = Confirmation::start(Some("abc".to_string()));
    c.on_lookup(LookupResult::Found(1));
    assert!(matches!(c.on_confirmed(false), ConfirmAction::Respond(ResponseStatus::InternalServerError)));
    assert_eq!(ResponseStatus::InternalServerError.code(), 500);
}
