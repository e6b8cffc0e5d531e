//! The registration workflow, as a state machine.
//!
//! A registration validates the submitted form, then asks its caller, one
//! action at a time, to open a transaction, insert the subscriber row, insert
//! the token row, commit, and send the confirmation message; the caller
//! reports whether each action succeeded. Every failure ends the workflow
//! with a response; a failure before the commit leaves the transaction
//! uncommitted, so nothing of it is ever visible.
use crate::domain::{is_valid_email, is_valid_name, ListSubscriber};
use crate::mail::{
    confirmation_html, confirmation_link_of, confirmation_message, confirmation_subject,
    confirmation_text, EmailMessage,
};
use crate::store::{current_timestamp, new_subscriber_id};
use crate::token::{generate_token, is_token_shaped};
use vstd::prelude::*;

verus! {

/// The form submitted to the registration endpoint.
pub struct FormData {
    pub email: String,
    pub name: String,
}

/// The response that ends a request.
#[derive(Clone, Copy, Debug, PartialEq, Eq, Structural)]
pub enum ResponseStatus {
    /// 200: the request succeeded.
    Success,
    /// 400: the request was malformed.
    BadRequest,
    /// 401: the token does not resolve to a subscriber.
    Unauthorized,
    /// 500: a store or delivery failure.
    InternalServerError,
}

impl ResponseStatus {
    /// The HTTP status code of the response.
    pub fn code(&self) -> (r: u16)
        ensures
            r == status_code(*self),
    {
        match self {
            ResponseStatus::Success => 200,
            ResponseStatus::BadRequest => 400,
            ResponseStatus::Unauthorized => 401,
            ResponseStatus::InternalServerError => 500,
        }
    }
}

pub open spec fn status_code(s: ResponseStatus) -> u16 {
    match s {
        ResponseStatus::Success => 200,
        ResponseStatus::BadRequest => 400,
        ResponseStatus::Unauthorized => 401,
        ResponseStatus::InternalServerError => 500,
    }
}

/// Why a registration failed.
#[derive(Clone, Copy, Debug, PartialEq, Eq, Structural)]
pub enum FailureReason {
    /// The name or the address was rejected.
    Validation,
    /// The store failed; nothing was committed.
    Store,
    /// The confirmation message could not be delivered; the subscriber stays
    /// pending.
    Notify,
}

/// Where a registration stands.
pub enum RegistrationState {
    /// The form is valid; the transaction is being opened.
    Validated { subscriber: ListSubscriber },
    /// The subscriber row is being inserted.
    InsertingSubscriber { subscriber: ListSubscriber, id: u128 },
    /// The token row is being inserted.
    InsertingToken { subscriber: ListSubscriber, id: u128, token: String },
    /// The transaction is being committed.
    Committing { subscriber: ListSubscriber, id: u128, token: String },
    /// Both rows are committed; the confirmation message is being sent.
    Notifying { id: u128, token: String },
    /// The message was sent: the registration succeeded.
    Completed,
    /// The registration failed.
    Failed(FailureReason),
}

/// What the caller is asked to do next.
pub enum SubscribeAction {
    /// Open a transaction.
    BeginTransaction,
    /// Insert a pending subscriber row in the open transaction; the
    /// subscription time is in microseconds since the Unix epoch.
    InsertSubscriber { id: u128, email: String, name: String, subscribed_at: i64 },
    /// Insert a token row in the open transaction.
    InsertToken { id: u128, token: String },
    /// Commit the transaction.
    Commit,
    /// Deliver this message.
    SendConfirmation(EmailMessage),
    /// End the request with this response; an open transaction is dropped
    /// uncommitted.
    Respond(ResponseStatus),
}

/// A registration's state, as a mathematical value.
pub enum RegistrationView {
    Validated { name: Seq<char>, email: Seq<char> },
    InsertingSubscriber { name: Seq<char>, email: Seq<char>, id: u128 },
    InsertingToken { name: Seq<char>, email: Seq<char>, id: u128, token: Seq<char> },
    Committing { name: Seq<char>, email: Seq<char>, id: u128, token: Seq<char> },
    Notifying { id: u128, token: Seq<char> },
    Completed,
    Failed(FailureReason),
}

/// An action, as a mathematical value.
pub enum ActionView {
    BeginTransaction,
    InsertSubscriber { id: u128, email: Seq<char>, name: Seq<char>, subscribed_at: i64 },
    InsertToken { id: u128, token: Seq<char> },
    Commit,
    SendConfirmation { recipient: Seq<char>, subject: Seq<char>, text: Seq<char>, html: Seq<char> },
    Respond(ResponseStatus),
}

impl View for RegistrationState {
    type V = RegistrationView;

    open spec fn view(&self) -> RegistrationView {
        match self {
            RegistrationState::Validated { subscriber } => RegistrationView::Validated {
                name: subscriber.name@,
                email: subscriber.email@,
            },
            RegistrationState::InsertingSubscriber { subscriber, id } => RegistrationView::InsertingSubscriber {
                name: subscriber.name@,
                email: subscriber.email@,
                id: *id,
            },
            RegistrationState::InsertingToken { subscriber, id, token } => RegistrationView::InsertingToken {
                name: subscriber.name@,
                email: subscriber.email@,
                id: *id,
                token: token@,
            },
            RegistrationState::Committing { subscriber, id, token } => RegistrationView::Committing {
                name: subscriber.name@,
                email: subscriber.email@,
                id: *id,
                token: token@,
            },
            RegistrationState::Notifying { id, token } => RegistrationView::Notifying {
                id: *id,
                token: token@,
            },
            RegistrationState::Completed => RegistrationView::Completed,
            RegistrationState::Failed(reason) => RegistrationView::Failed(*reason),
        }
    }
}

impl View for SubscribeAction {
    type V = ActionView;

    open spec fn view(&self) -> ActionView {
        match self {
            SubscribeAction::BeginTransaction => ActionView::BeginTransaction,
            SubscribeAction::InsertSubscriber { id, email, name, subscribed_at } => ActionView::InsertSubscriber {
                id: *id,
                email: email@,
                name: name@,
                subscribed_at: *subscribed_at,
            },
            SubscribeAction::InsertToken { id, token } => ActionView::InsertToken { id: *id, token: token@ },
            SubscribeAction::Commit => ActionView::Commit,
            SubscribeAction::SendConfirmation(m) => ActionView::SendConfirmation {
                recipient: m.recipient@,
                subject: m.subject@,
                text: m.body_text@,
                html: m.body_html@,
            },
            SubscribeAction::Respond(s) => ActionView::Respond(*s),
        }
    }
}

impl RegistrationView {
    /// The workflow has ended.
    pub open spec fn is_terminal(self) -> bool {
        self is Completed || self is Failed
    }
}

/// The step from `pre`, whose last action succeeded or not as `succeeded`
/// says, to `post`, asking for `action`. Each failure ends the workflow:
/// before the commit as a store failure, after it as a delivery failure.
pub open spec fn registration_step(
    pre: RegistrationView,
    base_url: Seq<char>,
    succeeded: bool,
    post: RegistrationView,
    action: ActionView,
) -> bool {
    match pre {
        RegistrationView::Validated { name, email } => if succeeded {
            &&& action matches ActionView::InsertSubscriber { id, email: e, name: n, .. }
            &&& e == email && n == name
            &&& post == RegistrationView::InsertingSubscriber { name, email, id }
        } else {
            failed_with(post, action, FailureReason::Store)
        },
        RegistrationView::InsertingSubscriber { name, email, id } => if succeeded {
            &&& action matches ActionView::InsertToken { id: i, token }
            &&& i == id && is_token_shaped(token)
            &&& post == RegistrationView::InsertingToken { name, email, id, token }
        } else {
            failed_with(post, action, FailureReason::Store)
        },
        RegistrationView::InsertingToken { name, email, id, token } => if succeeded {
            action == ActionView::Commit && post == RegistrationView::Committing { name, email, id, token }
        } else {
            failed_with(post, action, FailureReason::Store)
        },
        RegistrationView::Committing { name, email, id, token } => if succeeded {
            &&& action == confirmation_action(email, base_url, token)
            &&& post == RegistrationView::Notifying { id, token }
        } else {
            failed_with(post, action, FailureReason::Store)
        },
        RegistrationView::Notifying { .. } => if succeeded {
            post == RegistrationView::Completed && action == ActionView::Respond(ResponseStatus::Success)
        } else {
            failed_with(post, action, FailureReason::Notify)
        },
        _ => false,
    }
}

/// The workflow ends as failed for `reason`, answering with a server error.
pub open spec fn failed_with(post: RegistrationView, action: ActionView, reason: FailureReason) -> bool {
    post == RegistrationView::Failed(reason) && action == ActionView::Respond(
        ResponseStatus::InternalServerError,
    )
}

/// Sending the confirmation message for `token` to `email`: both bodies carry
/// the link `{base_url}/subscriptions/confirm?token={token}`.
pub open spec fn confirmation_action(email: Seq<char>, base_url: Seq<char>, token: Seq<char>) -> ActionView {
    ActionView::SendConfirmation {
        recipient: email,
        subject: confirmation_subject(),
        text: confirmation_text(confirmation_link_of(base_url, token)),
        html: confirmation_html(confirmation_link_of(base_url, token)),
    }
}

/// A registration whose token insertion fails after its subscriber row was
/// inserted ends there, as a store failure: it never asks for the commit, so
/// the open transaction, subscriber row included, is dropped uncommitted.
pub proof fn lemma_failed_token_insert_never_commits(
    pre: RegistrationView,
    base_url: Seq<char>,
    post: RegistrationView,
    action: ActionView,
)
    requires
        pre is InsertingToken,
        registration_step(pre, base_url, false, post, action),
    ensures
        post == RegistrationView::Failed(FailureReason::Store),
        post.is_terminal(),
        action == ActionView::Respond(ResponseStatus::InternalServerError),
{
}

/// Every step that asks for the confirmation message to be sent comes from a
/// successful commit: delivery only ever follows the store write.
pub proof fn lemma_notify_follows_commit(
    pre: RegistrationView,
    base_url: Seq<char>,
    succeeded: bool,
    post: RegistrationView,
    action: ActionView,
)
    requires
        registration_step(pre, base_url, succeeded, post, action),
        action is SendConfirmation,
    ensures
        pre is Committing,
        succeeded,
{
}

/// A registration in progress.
pub struct Registration {
    pub state: RegistrationState,
    pub base_url: String,
}

impl ListSubscriber {
    /// Validates a submitted form into a subscriber.
    pub fn try_from(form: FormData) -> (r: Result<ListSubscriber, String>)
        ensures
            r is Ok <==> is_valid_name(form.name@) && is_valid_email(form.email@),
            r matches Ok(u) ==> u.name@ == form.name@ && u.email@ == form.email@,
            r matches Err(e) ==> e@ == crate::domain::subscriber_error(form.name@, form.email@),
    {
        ListSubscriber::try_new(form.name, form.email)
    }
}

impl Registration {
    /// Starts a registration for `form`; confirmation links point under
    /// `base_url`. A form whose name or address is invalid ends at once with
    /// a client error, before any store or delivery action.
    pub fn start(form: FormData, base_url: String) -> (r: (Registration, SubscribeAction))
        ensures
            r.0.base_url@ == base_url@,
            is_valid_name(form.name@) && is_valid_email(form.email@) ==> {
                &&& r.0.state@ == RegistrationView::Validated { name: form.name@, email: form.email@ }
                &&& r.1@ == ActionView::BeginTransaction
            },
            !(is_valid_name(form.name@) && is_valid_email(form.email@)) ==> {
                &&& r.0.state@ == RegistrationView::Failed(FailureReason::Validation)
                &&& r.1@ == ActionView::Respond(ResponseStatus::BadRequest)
            },
    {
        match ListSubscriber::try_from(form) {
            Ok(subscriber) => (
                Registration { state: RegistrationState::Validated { subscriber }, base_url },
                SubscribeAction::BeginTransaction,
            ),
            Err(_) => (
                Registration { state: RegistrationState::Failed(FailureReason::Validation), base_url },
                SubscribeAction::Respond(ResponseStatus::BadRequest),
            ),
        }
    }

    /// Whether the workflow has ended.
    pub fn is_terminal(&self) -> (r: bool)
        ensures
            r == self.state@.is_terminal(),
    {
        match self.state {
            RegistrationState::Completed => true,
            RegistrationState::Failed(_) => true,
            _ => false,
        }
    }

    /// Moves on, given whether the last action succeeded.
    pub fn advance(self, succeeded: bool) -> (r: (Registration, SubscribeAction))
        requires
            !self.state@.is_terminal(),
        ensures
            r.0.base_url@ == self.base_url@,
            registration_step(self.state@, self.base_url@, succeeded, r.0.state@, r.1@),
    {
        let base_url = self.base_url;
        let (state, action) = match self.state {
            RegistrationState::Validated { subscriber } => if succeeded {
                let id = new_subscriber_id();
                let subscribed_at = current_timestamp();
                let email = String::from_str(subscriber.email.as_ref());
                let name = String::from_str(subscriber.name.as_ref());
                (
                    RegistrationState::InsertingSubscriber { subscriber, id },
                    SubscribeAction::InsertSubscriber { id, email, name, subscribed_at },
                )
            } else {
                store_failure()
            },
            RegistrationState::InsertingSubscriber { subscriber, id } => if succeeded {
                let token = generate_token();
                let sent = String::from_str(token.as_str());
                (
                    RegistrationState::InsertingToken { subscriber, id, token },
                    SubscribeAction::InsertToken { id, token: sent },
                )
            } else {
                store_failure()
            },
            RegistrationState::InsertingToken { subscriber, id, token } => if succeeded {
                (RegistrationState::Committing { subscriber, id, token }, SubscribeAction::Commit)
            } else {
                store_failure()
            },
            RegistrationState::Committing { subscriber, id, token } => if succeeded {
                let message = confirmation_message(subscriber, token.as_str(), base_url.as_str());
                (RegistrationState::Notifying { id, token }, SubscribeAction::SendConfirmation(message))
            } else {
                store_failure()
            },
            RegistrationState::Notifying { .. } => if succeeded {
                (RegistrationState::Completed, SubscribeAction::Respond(ResponseStatus::Success))
            } else {
                (
                    RegistrationState::Failed(FailureReason::Notify),
                    SubscribeAction::Respond(ResponseStatus::InternalServerError),
                )
            },
            RegistrationState::Completed => (RegistrationState::Completed, SubscribeAction::Respond(ResponseStatus::Success)),
            RegistrationState::Failed(reason) => (
                RegistrationState::Failed(reason),
                SubscribeAction::Respond(ResponseStatus::InternalServerError),
            ),
        };
        (Registration { state, base_url }, action)
    }
}

/// The end of a registration whose store action failed.
fn store_failure() -> (r: (RegistrationState, SubscribeAction))
    ensures
        failed_with(r.0@, r.1@, FailureReason::Store),
{
    (
        RegistrationState::Failed(FailureReason::Store),
        SubscribeAction::Respond(ResponseStatus::InternalServerError),
    )
}

} // verus!
