use unicode_segmentation::UnicodeSegmentation;
use vstd::prelude::*;
use vstd::string::StringExecFns;

verus! {

/// The most grapheme clusters a subscriber name may hold.
pub const MAX_NAME_GRAPHEMES: usize = 256;

/// A character with the Unicode `White_Space` property, which is what
/// `char::is_whitespace` (and so `str::trim`) treats as whitespace.
pub open spec fn is_white_space(c: char) -> bool {
    ||| '\u{9}' <= c && c <= '\u{d}'
    ||| c == ' '
    ||| c == '\u{85}'
    ||| c == '\u{a0}'
    ||| c == '\u{1680}'
    ||| '\u{2000}' <= c && c <= '\u{200a}'
    ||| c == '\u{2028}'
    ||| c == '\u{2029}'
    ||| c == '\u{202f}'
    ||| c == '\u{205f}'
    ||| c == '\u{3000}'
}

/// Every character of `s` is whitespace: nothing is left once it is trimmed.
pub open spec fn is_blank(s: Seq<char>) -> bool {
    forall|i: int| 0 <= i < s.len() ==> is_white_space(#[trigger] s[i])
}

/// `r` is `s[i..j]`, where `s[..i]` and `s[j..]` are whitespace and `r`
/// neither starts nor ends with whitespace: `r` is `s` trimmed.
pub open spec fn trims_to(s: Seq<char>, r: Seq<char>, i: int, j: int) -> bool {
    &&& 0 <= i <= j <= s.len()
    &&& r == s.subrange(i, j)
    &&& forall|k: int| 0 <= k < i ==> is_white_space(#[trigger] s[k])
    &&& forall|k: int| j <= k < s.len() ==> is_white_space(#[trigger] s[k])
    &&& i < j ==> !is_white_space(s[i]) && !is_white_space(s[j - 1])
}

/// How many extended grapheme clusters (user-perceived characters) a string
/// holds, as counted by the `unicode-segmentation` crate.
pub uninterp spec fn grapheme_count(s: Seq<char>) -> nat;

/// The characters that a subscriber name may not contain.
pub open spec fn is_forbidden_char(c: char) -> bool {
    ||| c == '/'
    ||| c == '('
    ||| c == ')'
    ||| c == '"'
    ||| c == '<'
    ||| c == '>'
    ||| c == '\\'
    ||| c == '{'
    ||| c == '}'
}

/// A name is valid when it is not blank, holds at most
/// `MAX_NAME_GRAPHEMES` grapheme clusters and no forbidden character.
pub open spec fn is_valid_name(s: Seq<char>) -> bool {
    &&& !is_blank(s)
    &&& grapheme_count(s) <= MAX_NAME_GRAPHEMES
    &&& !(exists|i: int| 0 <= i < s.len() && is_forbidden_char(#[trigger] s[i]))
}

/// Relies on `str::trim`: the result is the string without its leading and
/// trailing whitespace (characters with the `White_Space` property).
#[verifier::external_body]
fn trim(s: &str) -> (r: &str)
    ensures
        exists|i: int, j: int| trims_to(s@, r@, i, j),
{
    s.trim()
}

/// Relies on `UnicodeSegmentation::graphemes` (extended clusters), counted:
/// the number of grapheme clusters depends on the string alone.
#[verifier::external_body]
fn count_graphemes(s: &str) -> (r: usize)
    ensures
        r as nat == grapheme_count(s@),
{
    s.graphemes(true).count()
}

/// Whether `s` contains a character that a subscriber name may not hold.
pub fn has_forbidden_char(s: &str) -> (r: bool)
    ensures
        r <==> exists|i: int| 0 <= i < s@.len() && is_forbidden_char(#[trigger] s@[i]),
{
    let mut found = false;
    for c in it: s.chars()
        invariant
            found <==> exists|i: int|
                0 <= i < it.index() && is_forbidden_char(#[trigger] it.seq()[i]),
    {
        if c == '/' || c == '(' || c == ')' || c == '"' || c == '<' || c == '>' || c == '\\'
            || c == '{' || c == '}' {
            found = true;
        }
    }
    found
}

/// A subscriber's display name, known to satisfy `is_valid_name`.
#[derive(Debug)]
pub struct ListSubscriberName(String);

impl View for ListSubscriberName {
    type V = Seq<char>;

    closed spec fn view(&self) -> Seq<char> {
        self.0@
    }
}

impl Clone for ListSubscriberName {
    fn clone(&self) -> (r: Self)
        ensures
            r@ == self@,
    {
        proof {
            use_type_invariant(self);
        }
        ListSubscriberName(self.0.clone())
    }
}

impl ListSubscriberName {
    #[verifier::type_invariant]
    spec fn inv(self) -> bool {
        is_valid_name(self.0@)
    }

    /// Validates `s` as a subscriber name.
    pub fn try_from(s: String) -> (r: Result<ListSubscriberName, String>)
        ensures
            r is Ok <==> is_valid_name(s@),
            r matches Ok(n) ==> n@ == s@,
            r matches Err(e) ==> e@ == name_error_message(),
            (exists|i: int| 0 <= i < s@.len() && is_forbidden_char(#[trigger] s@[i])) ==> r is Err,
            is_blank(s@) ==> r is Err,
            grapheme_count(s@) > MAX_NAME_GRAPHEMES ==> r is Err,
    {
        let trimmed = trim(s.as_str());
        let is_blank = trimmed.is_empty();
        proof {
            let (i, j) = choose|i: int, j: int| trims_to(s@, trimmed@, i, j);
            if is_blank {
                assert forall|k: int| 0 <= k < s@.len() implies is_white_space(#[trigger] s@[k]) by {
                    if k >= i {
                        assert(j <= k);
                    }
                }
            } else {
                assert(!is_white_space(s@[i]));
            }
        }
        let is_too_long = count_graphemes(s.as_str()) > MAX_NAME_GRAPHEMES;
        let contains_bad_chars = has_forbidden_char(s.as_str());
        if is_blank || is_too_long || contains_bad_chars {
            Err(String::from_str("Validation on Subscriber Name Failed!"))
        } else {
            Ok(ListSubscriberName(s))
        }
    }

    /// The name as a string slice.
    pub fn as_ref(&self) -> (r: &str)
        ensures
            r@ == self@,
            is_valid_name(self@),
    {
        proof {
            use_type_invariant(self);
        }
        self.0.as_str()
    }
}

/// The message carried by a failed name validation.
pub open spec fn name_error_message() -> Seq<char> {
    "Validation on Subscriber Name Failed!"@
}

} // verus!
