//! Domain types: validated subscriber names and e-mail addresses.
use vstd::prelude::*;

mod list_subscriber;
mod list_subscriber_email;
mod list_subscriber_name;

pub use list_subscriber::{subscriber_error, ListSubscriber};
pub use list_subscriber_email::{
    check_dotted_domain, email_accepted, email_error_message, has_dotted_domain, is_last_at_sign, is_valid_email,
    ListSubscriberEmail,
};
pub use list_subscriber_name::{
    grapheme_count, has_forbidden_char, is_blank, is_forbidden_char, is_valid_name,
    is_white_space, name_error_message, trims_to, ListSubscriberName, MAX_NAME_GRAPHEMES,
};

verus! {

} // verus!
