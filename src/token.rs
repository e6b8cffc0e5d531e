//! Confirmation tokens: fixed-length strings of random ASCII letters and digits.
use rand::Rng;
use vstd::prelude::*;

verus! {

/// The number of characters in a confirmation token.
pub const TOKEN_LEN: usize = 25;

/// An ASCII letter or digit: the alphabet tokens are drawn from.
pub open spec fn is_token_char(c: char) -> bool {
    ('a' <= c && c <= 'z') || ('A' <= c && c <= 'Z') || ('0' <= c && c <= '9')
}

/// The shape of every confirmation token: `TOKEN_LEN` letters and digits.
pub open spec fn is_token_shaped(s: Seq<char>) -> bool {
    &&& s.len() == TOKEN_LEN
    &&& forall|i: int| 0 <= i < s.len() ==> is_token_char(#[trigger] s[i])
}

/// Relies on `rand::distributions::Alphanumeric` sampled from `thread_rng`,
/// a cryptographically secure generator: each draw is one of the 62 ASCII
/// letters and digits.
#[verifier::external_body]
fn random_token_char() -> (c: char)
    ensures
        is_token_char(c),
{
    char::from(rand::thread_rng().sample(rand::distributions::Alphanumeric))
}

/// Relies on `String::push`, which appends one character to the string.
#[verifier::external_body]
fn push_char(s: &mut String, c: char)
    ensures
        final(s)@ == old(s)@.push(c),
{
    s.push(c);
}

/// Draws a fresh confirmation token.
pub fn generate_token() -> (r: String)
    ensures
        is_token_shaped(r@),
{
    let mut token = String::new();
    for i in 0..TOKEN_LEN
        invariant
            token@.len() == i,
            forall|j: int| 0 <= j < token@.len() ==> is_token_char(#[trigger] token@[j]),
    {
        push_char(&mut token, random_token_char());
    }
    token
}

} // verus!
