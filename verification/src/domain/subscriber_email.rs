//! The address at which a subscriber receives mail.

use crate::domain::characters::{char_is_control, char_is_whitespace, is_control, is_whitespace};
use vstd::prelude::*;
use vstd::string::*;

verus! {

/// Whether position `i` of `s` holds the sign that parts the local part from
/// the domain.
pub open spec fn is_at_sign(s: Seq<char>, i: int) -> bool {
    0 <= i < s.len() && s[i] == '@'
}

/// Whether position `i` of `s` holds a dot.
pub open spec fn is_dot(s: Seq<char>, i: int) -> bool {
    0 <= i < s.len() && s[i] == '.'
}

/// Whether position `i` of `s` holds white space or a control character.
pub open spec fn is_unprintable(s: Seq<char>, i: int) -> bool {
    0 <= i < s.len() && (is_whitespace(s[i]) || is_control(s[i]))
}

/// Whether `s` reads `local@domain` with the `@` at position `at`: it is the
/// only `@`, something stands before it, and a dot stands somewhere after it.
pub open spec fn splits_at(s: Seq<char>, at: int) -> bool {
    &&& is_at_sign(s, at)
    &&& forall|i: int| #[trigger] is_at_sign(s, i) ==> i == at
    &&& at > 0
    &&& exists|d: int| at < d && #[trigger] is_dot(s, d)
}

/// What makes a text an email address: exactly one `@`, a local part that is
/// not empty, a domain with at least one dot, and neither white space nor a
/// control character anywhere.
pub open spec fn valid_email(s: Seq<char>) -> bool {
    &&& exists|at: int| #[trigger] splits_at(s, at)
    &&& forall|i: int| !#[trigger] is_unprintable(s, i)
}

/// The message with which a text is turned down as an address.
pub open spec fn invalid_email_message(s: Seq<char>) -> Seq<char> {
    s + " is not a valid subscriber email."@
}

/// A subscriber's email address. Every value of this type is a valid
/// address: the only way to make one is [`SubscriberEmail::parse`].
#[derive(Debug)]
pub struct SubscriberEmail(String);

impl View for SubscriberEmail {
    type V = Seq<char>;

    closed spec fn view(&self) -> Seq<char> {
        self.0@
    }
}

/// Decides whether `text` is a valid email address.
pub fn is_valid_email(text: &str) -> (r: bool)
    ensures
        r == valid_email(text@),
{
    let ghost s = text@;
    let mut at_signs: u8 = 0;
    let mut at: usize = 0;
    let mut dot_in_domain = false;
    let mut unprintable = false;
    let mut position: usize = 0;
    let total = text.unicode_len();
    for c in it: text.chars()
        invariant
            it.seq() == s,
            total == s.len(),
            position == it.index(),
            at_signs <= 2,
            at_signs == 0 ==> !dot_in_domain && forall|i: int|
                i < position ==> !#[trigger] is_at_sign(s, i),
            at_signs == 1 ==> {
                &&& at < position
                &&& is_at_sign(s, at as int)
                &&& forall|i: int| i < position && #[trigger] is_at_sign(s, i) ==> i == at
                &&& dot_in_domain <==> exists|d: int| at < d < position && #[trigger] is_dot(s, d)
            },
            at_signs == 2 ==> exists|i: int, j: int|
                i < j < position && #[trigger] is_at_sign(s, i) && #[trigger] is_at_sign(s, j),
            unprintable <==> exists|i: int| i < position && #[trigger] is_unprintable(s, i),
    {
        assert(s[position as int] == c);
        assert(is_at_sign(s, position as int) <==> c == '@');
        assert(is_dot(s, position as int) <==> c == '.');
        assert(is_unprintable(s, position as int) <==> is_whitespace(c) || is_control(c));
        if char_is_whitespace(c) || char_is_control(c) {
            unprintable = true;
        }
        if c == '@' {
            if at_signs == 0 {
                at_signs = 1;
                at = position;
            } else {
                at_signs = 2;
            }
        } else if c == '.' && at_signs == 1 {
            dot_in_domain = true;
        }
        position = position + 1;
    }
    let accepted = at_signs == 1 && at > 0 && dot_in_domain && !unprintable;
    proof {
        if accepted {
            let d = choose|d: int| at < d < position && #[trigger] is_dot(s, d);
            assert(at < d && is_dot(s, d));
            assert(splits_at(s, at as int));
        } else if valid_email(s) {
            let a = choose|a: int| #[trigger] splits_at(s, a);
            if at_signs == 0 {
                assert(is_at_sign(s, a));
            } else if at_signs == 2 {
                let (i, j) = choose|i: int, j: int|
                    i < j < position && #[trigger] is_at_sign(s, i) && #[trigger] is_at_sign(s, j);
                assert(i == a && j == a);
            } else {
                assert(a == at);
                let d = choose|d: int| a < d && #[trigger] is_dot(s, d);
                assert(at < d < position && is_dot(s, d));
                if unprintable {
                    let i = choose|i: int| i < position && #[trigger] is_unprintable(s, i);
                    assert(is_unprintable(s, i));
                }
            }
        }
    }
    accepted
}

impl SubscriberEmail {
    #[verifier::type_invariant]
    spec fn is_valid(self) -> bool {
        valid_email(self.0@)
    }

    /// Accepts `s` as an address exactly when it is a valid one, and keeps it
    /// as it was given; otherwise answers with the message for `s`.
    pub fn parse(s: String) -> (r: Result<SubscriberEmail, String>)
        ensures
            valid_email(s@) ==> r is Ok && r->Ok_0@ == s@,
            !valid_email(s@) ==> r is Err && r->Err_0@ == invalid_email_message(s@),
    {
        if is_valid_email(s.as_str()) {
            Ok(SubscriberEmail(s))
        } else {
            Err(s.concat(" is not a valid subscriber email."))
        }
    }

    /// The address as text.
    pub fn as_ref(&self) -> (text: &str)
        ensures
            text@ == self@,
            valid_email(text@),
    {
        proof {
            use_type_invariant(self);
        }
        self.0.as_str()
    }

    /// A copy of this address.
    pub fn clone(&self) -> (copy: SubscriberEmail)
        ensures
            copy@ == self@,
    {
        proof {
            use_type_invariant(self);
        }
        SubscriberEmail(self.0.clone())
    }
}

} // verus!
