//! Character classes and trimming, stated over sequences of characters.

use vstd::prelude::*;

verus! {

/// Whether `c` has the Unicode property `White_Space`.
pub open spec fn is_whitespace(c: char) -> bool {
    ||| '\u{9}' <= c <= '\u{d}'
    ||| c == ' '
    ||| c == '\u{85}'
    ||| c == '\u{a0}'
    ||| c == '\u{1680}'
    ||| '\u{2000}' <= c <= '\u{200a}'
    ||| c == '\u{2028}'
    ||| c == '\u{2029}'
    ||| c == '\u{202f}'
    ||| c == '\u{205f}'
    ||| c == '\u{3000}'
}

/// Whether `c` belongs to the Unicode general category `Cc`.
pub open spec fn is_control(c: char) -> bool {
    ||| c <= '\u{1f}'
    ||| '\u{7f}' <= c <= '\u{9f}'
}

/// Whether `c` is an ASCII letter or digit.
pub open spec fn is_alphanumeric(c: char) -> bool {
    ||| 'a' <= c <= 'z'
    ||| 'A' <= c <= 'Z'
    ||| '0' <= c <= '9'
}

/// `s` without its leading white space.
pub open spec fn trim_start(s: Seq<char>) -> Seq<char>
    decreases s.len(),
{
    if s.len() > 0 && is_whitespace(s.first()) {
        trim_start(s.drop_first())
    } else {
        s
    }
}

/// `s` without its trailing white space.
pub open spec fn trim_end(s: Seq<char>) -> Seq<char>
    decreases s.len(),
{
    if s.len() > 0 && is_whitespace(s.last()) {
        trim_end(s.drop_last())
    } else {
        s
    }
}

/// `s` without leading and trailing white space.
pub open spec fn trimmed(s: Seq<char>) -> Seq<char> {
    trim_end(trim_start(s))
}

/// Whether every character of `s` is white space.
pub open spec fn is_blank(s: Seq<char>) -> bool {
    forall|i: int| 0 <= i < s.len() ==> is_whitespace(#[trigger] s[i])
}

/// Decides whether `c` is white space.
pub fn char_is_whitespace(c: char) -> (r: bool)
    ensures
        r == is_whitespace(c),
{
    ('\u{9}' <= c && c <= '\u{d}') || c == ' ' || c == '\u{85}' || c == '\u{a0}' || c
        == '\u{1680}' || ('\u{2000}' <= c && c <= '\u{200a}') || c == '\u{2028}' || c
        == '\u{2029}' || c == '\u{202f}' || c == '\u{205f}' || c == '\u{3000}'
}

/// Decides whether `c` is a control character.
pub fn char_is_control(c: char) -> (r: bool)
    ensures
        r == is_control(c),
{
    c <= '\u{1f}' || ('\u{7f}' <= c && c <= '\u{9f}')
}

/// The part of `text` that is left when leading and trailing white space is
/// taken away.
pub fn trim(text: &str) -> (kept: &str)
    ensures
        kept@ == trimmed(text@),
{
    let ghost s = text@;
    let mut start: usize = 0;
    let mut end: usize = 0;
    let mut seen_visible = false;
    let mut position: usize = 0;
    let total = text.unicode_len();
    for c in it: text.chars()
        invariant
            it.seq() == s,
            total == s.len(),
            position == it.index(),
            !seen_visible ==> start == 0 && end == 0 && forall|i: int|
                0 <= i < position ==> is_whitespace(#[trigger] s[i]),
            seen_visible ==> {
                &&& start < end <= position
                &&& !is_whitespace(s[start as int])
                &&& !is_whitespace(s[end - 1])
                &&& forall|i: int| 0 <= i < start ==> is_whitespace(#[trigger] s[i])
                &&& forall|i: int| end <= i < position ==> is_whitespace(#[trigger] s[i])
            },
    {
        if !char_is_whitespace(c) {
            if !seen_visible {
                start = position;
                seen_visible = true;
            }
            end = position + 1;
        }
        position = position + 1;
    }
    proof {
        if seen_visible {
            lemma_trimmed_bounds(s, start as int, end as int);
        } else {
            lemma_blank_iff_trimmed_empty(s);
            assert(s.subrange(0, 0) =~= Seq::<char>::empty());
            assert(trimmed(s) =~= Seq::<char>::empty());
        }
    }
    text.substring_char(start, end)
}

/// Trimming at the front removes exactly the leading run of white space:
/// when the first `start` characters are white space and the next one is not
/// (or there is none), what is left begins at `start`.
pub proof fn lemma_trim_start(s: Seq<char>, start: int)
    requires
        0 <= start <= s.len(),
        forall|i: int| 0 <= i < start ==> is_whitespace(#[trigger] s[i]),
        start < s.len() ==> !is_whitespace(s[start]),
    ensures
        trim_start(s) == s.subrange(start, s.len() as int),
    decreases s.len(),
{
    if s.len() > 0 && is_whitespace(s.first()) {
        assert(start > 0);
        let rest = s.drop_first();
        assert forall|i: int| 0 <= i < start - 1 implies is_whitespace(#[trigger] rest[i]) by {
            assert(rest[i] == s[i + 1]);
        }
        lemma_trim_start(rest, start - 1);
        assert(rest.subrange(start - 1, rest.len() as int) =~= s.subrange(start, s.len() as int));
    } else {
        assert(start == 0) by {
            if start > 0 {
                assert(is_whitespace(s[0]));
            }
        }
        assert(s.subrange(0, s.len() as int) =~= s);
    }
}

/// Trimming at the back removes exactly the trailing run of white space.
pub proof fn lemma_trim_end(s: Seq<char>, end: int)
    requires
        0 <= end <= s.len(),
        forall|i: int| end <= i < s.len() ==> is_whitespace(#[trigger] s[i]),
        end > 0 ==> !is_whitespace(s[end - 1]),
    ensures
        trim_end(s) == s.subrange(0, end),
    decreases s.len(),
{
    if s.len() > 0 && is_whitespace(s.last()) {
        assert(end < s.len()) by {
            if end == s.len() {
                assert(!is_whitespace(s[end - 1]));
            }
        }
        let rest = s.drop_last();
        assert forall|i: int| end <= i < rest.len() implies is_whitespace(#[trigger] rest[i]) by {
            assert(rest[i] == s[i]);
        }
        lemma_trim_end(rest, end);
        assert(rest.subrange(0, end) =~= s.subrange(0, end));
    } else {
        assert(end == s.len()) by {
            if end < s.len() {
                assert(is_whitespace(s[s.len() - 1]));
            }
        }
        assert(s.subrange(0, end) =~= s);
    }
}

/// The trimmed text is the stretch from the first to the last character that
/// is not white space.
pub proof fn lemma_trimmed_bounds(s: Seq<char>, start: int, end: int)
    requires
        0 <= start < end <= s.len(),
        forall|i: int| 0 <= i < start ==> is_whitespace(#[trigger] s[i]),
        forall|i: int| end <= i < s.len() ==> is_whitespace(#[trigger] s[i]),
        !is_whitespace(s[start]),
        !is_whitespace(s[end - 1]),
    ensures
        trimmed(s) == s.subrange(start, end),
{
    lemma_trim_start(s, start);
    let tail = s.subrange(start, s.len() as int);
    assert forall|i: int| end - start <= i < tail.len() implies is_whitespace(
        #[trigger] tail[i],
    ) by {
        assert(tail[i] == s[i + start]);
    }
    assert(tail[end - start - 1] == s[end - 1]);
    lemma_trim_end(tail, end - start);
    assert(tail.subrange(0, end - start) =~= s.subrange(start, end));
}

/// A text is blank exactly when trimming leaves nothing.
pub proof fn lemma_blank_iff_trimmed_empty(s: Seq<char>)
    ensures
        is_blank(s) <==> trimmed(s).len() == 0,
{
    if is_blank(s) {
        lemma_trim_start(s, s.len() as int);
        assert(s.subrange(s.len() as int, s.len() as int) =~= Seq::<char>::empty());
    } else {
        let k = choose|k: int| 0 <= k < s.len() && !is_whitespace(#[trigger] s[k]);
        lemma_trim_start_keeps_visible(s, k);
        let t = trim_start(s);
        let j = choose|j: int| 0 <= j < t.len() && !is_whitespace(#[trigger] t[j]);
        lemma_trim_end_keeps_visible(t, j);
    }
}

/// Trimming at the front never removes a character that is not white space.
proof fn lemma_trim_start_keeps_visible(s: Seq<char>, k: int)
    requires
        0 <= k < s.len(),
        !is_whitespace(s[k]),
    ensures
        !is_blank(trim_start(s)),
    decreases s.len(),
{
    if is_whitespace(s.first()) {
        let rest = s.drop_first();
        assert(rest[k - 1] == s[k]);
        lemma_trim_start_keeps_visible(rest, k - 1);
    }
}

/// Trimming at the back never removes a character that is not white space.
proof fn lemma_trim_end_keeps_visible(s: Seq<char>, k: int)
    requires
        0 <= k < s.len(),
        !is_whitespace(s[k]),
    ensures
        !is_blank(trim_end(s)),
    decreases s.len(),
{
    if is_whitespace(s.last()) {
        let rest = s.drop_last();
        assert(rest[k] == s[k]);
        lemma_trim_end_keeps_visible(rest, k);
    }
}

} // verus!
