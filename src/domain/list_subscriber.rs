use crate::domain::list_subscriber_email::{email_error_message, is_valid_email, ListSubscriberEmail};
use crate::domain::list_subscriber_name::{is_valid_name, name_error_message, ListSubscriberName};
use vstd::prelude::*;

verus! {

/// A subscriber's validated identity: a name and an e-mail address.
#[derive(Clone, Debug)]
pub struct ListSubscriber {
    pub name: ListSubscriberName,
    pub email: ListSubscriberEmail,
}

/// The error of validating the pair (`name`, `email`): the name is checked
/// first.
pub open spec fn subscriber_error(name: Seq<char>, email: Seq<char>) -> Seq<char> {
    if !is_valid_name(name) {
        name_error_message()
    } else {
        email_error_message(email)
    }
}

impl ListSubscriber {
    /// Validates a raw name and e-mail address into a subscriber.
    pub fn try_new(name: String, email: String) -> (r: Result<ListSubscriber, String>)
        ensures
            r is Ok <==> is_valid_name(name@) && is_valid_email(email@),
            r matches Ok(u) ==> u.name@ == name@ && u.email@ == email@,
            r matches Err(e) ==> e@ == subscriber_error(name@, email@),
    {
        let name = ListSubscriberName::try_from(name)?;
        let email = ListSubscriberEmail::try_from(email)?;
        Ok(ListSubscriber { name, email })
    }
}

} // verus!
