//! The name under which a subscriber signed up.

use crate::domain::characters::{trim, trimmed};
use unicode_segmentation::UnicodeSegmentation;
use vstd::prelude::*;
use vstd::string::*;

verus! {

/// The longest name accepted, in grapheme clusters of its trimmed text.
pub const MAX_NAME_GRAPHEMES: usize = 256;

/// The number of extended grapheme clusters into which Unicode text
/// segmentation divides `text`.
pub uninterp spec fn grapheme_count(text: Seq<char>) -> nat;

/// Whether a name may not contain `c`.
pub open spec fn is_forbidden(c: char) -> bool {
    ||| c == '/'
    ||| c == '('
    ||| c == ')'
    ||| c == '"'
    ||| c == '<'
    ||| c == '>'
    ||| c == '\\'
    ||| c == '{'
    ||| c == '}'
}

/// Whether `s` holds one of the characters that a name may not contain.
pub open spec fn has_forbidden(s: Seq<char>) -> bool {
    exists|i: int| 0 <= i < s.len() && is_forbidden(#[trigger] s[i])
}

/// Whether a text whose trimmed part has `graphemes` grapheme clusters is
/// acceptable as a name: something is left after trimming, what is left has
/// at most 256 grapheme clusters, and no character of the text is forbidden.
pub open spec fn acceptable_name(s: Seq<char>, graphemes: nat) -> bool {
    &&& trimmed(s).len() > 0
    &&& graphemes <= MAX_NAME_GRAPHEMES
    &&& !has_forbidden(s)
}

/// What makes a text a subscriber name: it is acceptable, its trimmed part
/// counted in grapheme clusters.
pub open spec fn valid_name(s: Seq<char>) -> bool {
    acceptable_name(s, grapheme_count(trimmed(s)))
}

/// The message with which a text is turned down as a name.
pub open spec fn invalid_name_message(s: Seq<char>) -> Seq<char> {
    s + " is not a valid subscriber name."@
}

/// A subscriber's name. Every value of this type is a valid name: the only
/// way to make one is [`SubscriberName::parse`].
#[derive(Debug)]
pub struct SubscriberName(String);

impl View for SubscriberName {
    type V = Seq<char>;

    closed spec fn view(&self) -> Seq<char> {
        self.0@
    }
}

/// `UnicodeSegmentation::graphemes(text, true)`, counted. Believed of it:
/// the count is the number of extended grapheme clusters of `text`.
#[verifier::external_body]
fn count_graphemes(text: &str) -> (n: usize)
    ensures
        n == grapheme_count(text@),
{
    text.graphemes(true).count()
}

/// Decides whether a name may not contain `c`.
pub fn char_is_forbidden(c: char) -> (r: bool)
    ensures
        r == is_forbidden(c),
{
    c == '/' || c == '(' || c == ')' || c == '"' || c == '<' || c == '>' || c == '\\' || c == '{'
        || c == '}'
}

/// Decides whether `text` holds a character that a name may not contain.
pub fn contains_forbidden(text: &str) -> (r: bool)
    ensures
        r == has_forbidden(text@),
{
    let ghost s = text@;
    let mut position: usize = 0;
    let total = text.unicode_len();
    for c in it: text.chars()
        invariant
            s == text@,
            it.seq() == s,
            total == s.len(),
            position == it.index(),
            forall|i: int| 0 <= i < position ==> !is_forbidden(#[trigger] s[i]),
    {
        if char_is_forbidden(c) {
            assert(is_forbidden(s[position as int]));
            return true;
        }
        position = position + 1;
    }
    false
}

/// Decides whether `text` is acceptable as a name, given the number of
/// grapheme clusters of its trimmed part.
pub fn is_acceptable_name(text: &str, graphemes: usize) -> (r: bool)
    ensures
        r == acceptable_name(text@, graphemes as nat),
{
    !trim(text).is_empty() && graphemes <= MAX_NAME_GRAPHEMES && !contains_forbidden(text)
}

impl SubscriberName {
    #[verifier::type_invariant]
    spec fn is_valid(self) -> bool {
        valid_name(self.0@)
    }

    /// Accepts `s` as a name exactly when it is a valid one, and keeps it as
    /// it was given; otherwise answers with the message for `s`.
    pub fn parse(s: String) -> (r: Result<SubscriberName, String>)
        ensures
            valid_name(s@) ==> r is Ok && r->Ok_0@ == s@,
            !valid_name(s@) ==> r is Err && r->Err_0@ == invalid_name_message(s@),
    {
        let graphemes = count_graphemes(trim(s.as_str()));
        if is_acceptable_name(s.as_str(), graphemes) {
            Ok(SubscriberName(s))
        } else {
            Err(s.concat(" is not a valid subscriber name."))
        }
    }

    /// The name as text.
    pub fn as_ref(&self) -> (text: &str)
        ensures
            text@ == self@,
            valid_name(text@),
    {
        proof {
            use_type_invariant(self);
        }
        self.0.as_str()
    }
}

} // verus!
