//! The confirmation workflow: a token is looked up, and the subscriber it
//! was issued to is confirmed.
use crate::store::{StoreModel, SubscriberStore, SubscriptionStatus, lemma_confirm_idempotent};
use crate::subscriptions::ResponseStatus;
use vstd::prelude::*;

verus! {

/// The query of the confirmation endpoint.
pub struct Token {
    pub token: String,
}

/// What looking a token up came to.
#[derive(Clone, Copy, Debug, PartialEq, Eq, Structural)]
pub enum LookupResult {
    /// The token was issued to this subscriber.
    Found(u128),
    /// No such token exists.
    NotFound,
    /// The store failed.
    Failed,
}

/// Where a confirmation stands.
#[derive(Clone, Copy, Debug, PartialEq, Eq, Structural)]
pub enum ConfirmationState {
    /// The token is being looked up.
    LookingUp,
    /// The subscriber is being confirmed.
    Confirming { id: u128 },
    /// The request has been answered.
    Done(ResponseStatus),
}

/// What the caller is asked to do next.
pub enum ConfirmAction {
    /// Look up the subscriber this token was issued to.
    LookupToken(String),
    /// Mark this subscriber confirmed.
    ConfirmSubscriber(u128),
    /// End the request with this response.
    Respond(ResponseStatus),
}

impl ConfirmAction {
    /// The action ends the request with response `s`.
    pub open spec fn responds(self, s: ResponseStatus) -> bool {
        self matches ConfirmAction::Respond(t) && t == s
    }

    /// The action looks up `token`.
    pub open spec fn looks_up(self, token: Seq<char>) -> bool {
        self matches ConfirmAction::LookupToken(t) && t@ == token
    }

    /// The action confirms subscriber `id`.
    pub open spec fn confirms(self, id: u128) -> bool {
        self matches ConfirmAction::ConfirmSubscriber(i) && i == id
    }
}

/// A confirmation in progress.
pub struct Confirmation {
    pub state: ConfirmationState,
}

impl Confirmation {
    /// Starts a confirmation for the token of the request, if it carries one;
    /// a request without a token ends at once with a client error.
    pub fn start(token: Option<String>) -> (r: (Confirmation, ConfirmAction))
        ensures
            token is None ==> r.0.state == ConfirmationState::Done(ResponseStatus::BadRequest)
                && r.1.responds(ResponseStatus::BadRequest),
            token matches Some(t) ==> r.0.state == ConfirmationState::LookingUp && r.1.looks_up(t@),
    {
        match token {
            Some(t) => (Confirmation { state: ConfirmationState::LookingUp }, ConfirmAction::LookupToken(t)),
            None => (
                Confirmation { state: ConfirmationState::Done(ResponseStatus::BadRequest) },
                ConfirmAction::Respond(ResponseStatus::BadRequest),
            ),
        }
    }

    /// Moves on from the lookup: a found subscriber is confirmed next; an
    /// unknown token is unauthorized; a store failure is a server error.
    pub fn on_lookup(&mut self, result: LookupResult) -> (r: ConfirmAction)
        requires
            old(self).state == ConfirmationState::LookingUp,
        ensures
            match result {
                LookupResult::Found(id) => final(self).state == ConfirmationState::Confirming { id }
                    && r.confirms(id),
                LookupResult::NotFound => final(self).state == ConfirmationState::Done(
                    ResponseStatus::Unauthorized,
                ) && r.responds(ResponseStatus::Unauthorized),
                LookupResult::Failed => final(self).state == ConfirmationState::Done(
                    ResponseStatus::InternalServerError,
                ) && r.responds(ResponseStatus::InternalServerError),
            },
    {
        match result {
            LookupResult::Found(id) => {
                self.state = ConfirmationState::Confirming { id };
                ConfirmAction::ConfirmSubscriber(id)
            },
            LookupResult::NotFound => {
                self.state = ConfirmationState::Done(ResponseStatus::Unauthorized);
                ConfirmAction::Respond(ResponseStatus::Unauthorized)
            },
            LookupResult::Failed => {
                self.state = ConfirmationState::Done(ResponseStatus::InternalServerError);
                ConfirmAction::Respond(ResponseStatus::InternalServerError)
            },
        }
    }

    /// Moves on from the confirmation of the subscriber, given whether it
    /// succeeded.
    pub fn on_confirmed(&mut self, succeeded: bool) -> (r: ConfirmAction)
        requires
            old(self).state is Confirming,
        ensures
            ({
                let s = if succeeded {
                    ResponseStatus::Success
                } else {
                    ResponseStatus::InternalServerError
                };
                &&& final(self).state == ConfirmationState::Done(s)
                &&& r.responds(s)
            }),
    {
        let s = if succeeded {
            ResponseStatus::Success
        } else {
            ResponseStatus::InternalServerError
        };
        self.state = ConfirmationState::Done(s);
        ConfirmAction::Respond(s)
    }
}

/// The response to redeeming `token` against the store `s`, and the store
/// afterwards: a request without a token is a client error, an unknown token
/// is unauthorized and changes nothing, and a known token confirms its
/// subscriber.
pub open spec fn redeem_spec(s: StoreModel, token: Option<Seq<char>>) -> (ResponseStatus, StoreModel) {
    match token {
        None => (ResponseStatus::BadRequest, s),
        Some(t) => match s.subscriber_for_token(t) {
            Some(id) => (ResponseStatus::Success, s.with_confirmed(id)),
            None => (ResponseStatus::Unauthorized, s),
        },
    }
}

/// The token a request carries, as a sequence of characters.
pub open spec fn query_token(token: Option<String>) -> Option<Seq<char>> {
    match token {
        Some(t) => Some(t@),
        None => None,
    }
}

/// Runs a confirmation against an in-memory store.
pub fn redeem_token(store: &mut SubscriberStore, token: Option<String>) -> (r: ResponseStatus)
    requires
        old(store)@.wf(),
    ensures
        final(store)@.wf(),
        (r, final(store)@) == redeem_spec(old(store)@, query_token(token)),
{
    let ghost tv = query_token(token);
    let (mut confirmation, mut action) = Confirmation::start(token);
    loop
        invariant
            tv == query_token(token),
            store@.wf(),
            old(store)@.wf(),
            confirmation.state is LookingUp ==> store@ == old(store)@ && tv is Some
                && action.looks_up(tv->0),
            confirmation.state is Confirming ==> {
                let id = confirmation.state->id;
                &&& store@ == old(store)@
                &&& tv is Some
                &&& old(store)@.subscriber_for_token(tv->0) == Some(id)
                &&& action.confirms(id)
            },
            confirmation.state is Done ==> {
                let s = confirmation.state->Done_0;
                (s, store@) == redeem_spec(old(store)@, tv) && action.responds(s)
            },
        decreases
            match confirmation.state {
                ConfirmationState::LookingUp => 2int,
                ConfirmationState::Confirming { .. } => 1int,
                ConfirmationState::Done(_) => 0int,
            },
    {
        match action {
            ConfirmAction::LookupToken(t) => {
                let result = match store.find_subscriber_by_token(t.as_str()) {
                    Some(id) => LookupResult::Found(id),
                    None => LookupResult::NotFound,
                };
                action = confirmation.on_lookup(result);
            },
            ConfirmAction::ConfirmSubscriber(id) => {
                store.confirm(id);
                proof {
                    crate::store::lemma_confirmed_view(old(store)@, id);
                }
                action = confirmation.on_confirmed(true);
            },
            ConfirmAction::Respond(s) => {
                return s;
            },
        }
    }
}

/// Redeeming the same token twice: both redemptions succeed, the subscriber
/// is confirmed, and the second leaves the store as the first left it.
pub proof fn lemma_redeem_twice(s: StoreModel, token: Seq<char>)
    requires
        s.wf(),
        s.has_token(token),
    ensures
        ({
            let (r1, s1) = redeem_spec(s, Some(token));
            let (r2, s2) = redeem_spec(s1, Some(token));
            &&& r1 == ResponseStatus::Success
            &&& r2 == ResponseStatus::Success
            &&& s2 == s1
            &&& s1.subscriber(s.subscriber_for_token(token)->0) matches Some(row) && row.status
                == SubscriptionStatus::Confirmed
        }),
{
    let id = s.subscriber_for_token(token)->0;
    lemma_confirm_idempotent(s, token, id);
}

/// Redeeming a token that no subscriber holds is unauthorized and changes no
/// row.
pub proof fn lemma_unknown_token(s: StoreModel, token: Seq<char>)
    requires
        !s.has_token(token),
    ensures
        redeem_spec(s, Some(token)) == (ResponseStatus::Unauthorized, s),
{
}

} // verus!
