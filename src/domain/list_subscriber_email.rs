use vstd::prelude::*;
use vstd::string::StringExecFns;

verus! {

/// Whether `validator::validate_email` accepts a string as an e-mail address
/// (a local part and a domain that meet the crate's address grammar).
pub uninterp spec fn email_accepted(s: Seq<char>) -> bool;

/// `a` is the position of the last `@` in `s`.
pub open spec fn is_last_at_sign(s: Seq<char>, a: int) -> bool {
    &&& 0 <= a < s.len()
    &&& s[a] == '@'
    &&& forall|j: int| a < j < s.len() ==> s[j] != '@'
}

/// `s` holds an `@`, and the domain after the last `@` holds a `.`.
pub open spec fn has_dotted_domain(s: Seq<char>) -> bool {
    exists|a: int|
        #![trigger is_last_at_sign(s, a)]
        is_last_at_sign(s, a) && exists|k: int| a < k < s.len() && s[k] == '.'
}

/// An address is valid when the address grammar accepts it and its domain
/// holds a `.`.
pub open spec fn is_valid_email(s: Seq<char>) -> bool {
    email_accepted(s) && has_dotted_domain(s)
}

/// Relies on `validator::validate_email`, which decides from the string alone.
#[verifier::external_body]
fn validate_address(s: &str) -> (r: bool)
    ensures
        r == email_accepted(s@),
{
    validator::validate_email(s)
}

/// Whether the domain of `s` (after its last `@`) holds a `.`.
pub fn check_dotted_domain(s: &str) -> (r: bool)
    ensures
        r == has_dotted_domain(s@),
{
    let mut seen_at = false;
    let mut dot = false;
    let ghost mut a: int = 0;
    for c in it: s.chars()
        invariant
            seen_at ==> is_last_at_sign(it.seq().subrange(0, it.index() as int), a),
            !seen_at ==> forall|j: int| 0 <= j < it.index() ==> it.seq()[j] != '@',
            seen_at ==> (dot <==> exists|k: int| a < k < it.index() && it.seq()[k] == '.'),
    {
        proof {
            if c == '@' {
                a = it.index() as int;
            }
        }
        if c == '@' {
            seen_at = true;
            dot = false;
        } else if c == '.' && seen_at {
            dot = true;
        }
    }
    proof {
        let t = s@;
        assert(t.subrange(0, t.len() as int) =~= t);
        if has_dotted_domain(t) {
            let b = choose|b: int| is_last_at_sign(t, b) && exists|k: int| b < k < t.len() && t[k] == '.';
            assert(seen_at);
            assert(b == a);
        }
    }
    seen_at && dot
}

/// A subscriber's e-mail address, known to satisfy `is_valid_email`.
#[derive(Debug)]
pub struct ListSubscriberEmail(String);

impl View for ListSubscriberEmail {
    type V = Seq<char>;

    closed spec fn view(&self) -> Seq<char> {
        self.0@
    }
}

/// The message carried by a failed validation of the address `s`.
pub open spec fn email_error_message(s: Seq<char>) -> Seq<char> {
    "Email "@ + s + " failed validation."@
}

impl Clone for ListSubscriberEmail {
    fn clone(&self) -> (r: Self)
        ensures
            r@ == self@,
    {
        proof {
            use_type_invariant(self);
        }
        ListSubscriberEmail(self.0.clone())
    }
}

impl ListSubscriberEmail {
    #[verifier::type_invariant]
    spec fn inv(self) -> bool {
        is_valid_email(self.0@)
    }

    /// Validates `s` as an e-mail address.
    pub fn try_from(s: String) -> (r: Result<ListSubscriberEmail, String>)
        ensures
            r is Ok <==> is_valid_email(s@),
            r matches Ok(e) ==> e@ == s@,
            r matches Err(m) ==> m@ == email_error_message(s@),
            (forall|i: int| 0 <= i < s@.len() ==> s@[i] != '@') ==> r is Err,
            (forall|a: int| #[trigger] is_last_at_sign(s@, a) ==> forall|k: int| a < k < s@.len() ==> s@[k] != '.')
                ==> r is Err,
    {
        if validate_address(s.as_str()) && check_dotted_domain(s.as_str()) {
            Ok(ListSubscriberEmail(s))
        } else {
            let mut m = String::from_str("Email ");
            m.append(s.as_str());
            m.append(" failed validation.");
            Err(m)
        }
    }

    /// The address as a string slice.
    pub fn as_ref(&self) -> (r: &str)
        ensures
            r@ == self@,
            is_valid_email(self@),
    {
        proof {
            use_type_invariant(self);
        }
        self.0.as_str()
    }
}

} // verus!
