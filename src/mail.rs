//! Confirmation messages and the request body sent to the mail service.
use crate::domain::{ListSubscriber, ListSubscriberEmail};
use vstd::prelude::*;
use vstd::string::StringExecFns;

verus! {

/// An e-mail message to be delivered to one recipient.
pub struct EmailMessage {
    /// The recipient of the email.
    pub recipient: ListSubscriberEmail,
    /// The email subject.
    pub subject: String,
    /// The body as plain text.
    pub body_text: String,
    /// The body as HTML.
    pub body_html: String,
}

/// The fields of a request to the mail service's `/email` endpoint.
pub struct EmailApiRequest {
    pub from: String,
    pub to: String,
    pub subject: String,
    pub text_body: String,
    pub html_body: String,
}

/// The path, relative to the application's base URL, of the confirmation
/// endpoint, up to the token value.
pub open spec fn confirm_path() -> Seq<char> {
    "/subscriptions/confirm?token="@
}

/// The confirmation link for `token`: `{base_url}/subscriptions/confirm?token={token}`.
pub open spec fn confirmation_link_of(base_url: Seq<char>, token: Seq<char>) -> Seq<char> {
    base_url + confirm_path() + token
}

/// The subject of every confirmation message.
pub open spec fn confirmation_subject() -> Seq<char> {
    "Derp"@
}

/// The plain-text body carrying `link`.
pub open spec fn confirmation_text(link: Seq<char>) -> Seq<char> {
    "Welcome to my mailing list. Link: "@ + link
}

/// The HTML body carrying `link`.
pub open spec fn confirmation_html(link: Seq<char>) -> Seq<char> {
    "Welcome to my list <a href="@ + link + ">Link</a>"@
}

/// The mail service endpoint under `api_url`.
pub open spec fn email_endpoint_of(api_url: Seq<char>) -> Seq<char> {
    api_url + "/email"@
}

/// Builds the confirmation link for `token` under `base_url`.
pub fn confirmation_link(base_url: &str, token: &str) -> (r: String)
    ensures
        r@ == confirmation_link_of(base_url@, token@),
{
    let mut link = String::from_str(base_url);
    link.append("/subscriptions/confirm?token=");
    link.append(token);
    link
}

/// Builds the confirmation message sent to `user` for `token`; both bodies
/// carry the same confirmation link.
pub fn confirmation_message(user: ListSubscriber, token: &str, base_url: &str) -> (r: EmailMessage)
    ensures
        r.recipient@ == user.email@,
        r.subject@ == confirmation_subject(),
        r.body_text@ == confirmation_text(confirmation_link_of(base_url@, token@)),
        r.body_html@ == confirmation_html(confirmation_link_of(base_url@, token@)),
{
    let link = confirmation_link(base_url, token);
    let mut body_text = String::from_str("Welcome to my mailing list. Link: ");
    body_text.append(link.as_str());
    let mut body_html = String::from_str("Welcome to my list <a href=");
    body_html.append(link.as_str());
    body_html.append(">Link</a>");
    EmailMessage {
        recipient: user.email,
        subject: String::from_str("Derp"),
        body_text,
        body_html,
    }
}

/// The URL of the mail service's `/email` endpoint under `api_url`.
pub fn email_endpoint(api_url: &str) -> (r: String)
    ensures
        r@ == email_endpoint_of(api_url@),
{
    let mut url = String::from_str(api_url);
    url.append("/email");
    url
}

impl EmailApiRequest {
    /// The request that delivers `message` from `sender`.
    pub fn new(sender: &ListSubscriberEmail, message: EmailMessage) -> (r: EmailApiRequest)
        ensures
            r.from@ == sender@,
            r.to@ == message.recipient@,
            r.subject@ == message.subject@,
            r.text_body@ == message.body_text@,
            r.html_body@ == message.body_html@,
    {
        EmailApiRequest {
            from: String::from_str(sender.as_ref()),
            to: String::from_str(message.recipient.as_ref()),
            subject: message.subject,
            text_body: message.body_text,
            html_body: message.body_html,
        }
    }
}

} // verus!
