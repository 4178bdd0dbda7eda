//! The few operations on names that planning needs: searching a name for a
//! marker, telling an empty name, and deriving one name from another.

use vstd::prelude::*;
use vstd::string::*;

verus! {

/// Whether `pattern` occurs in `text` at position `at`.
pub open spec fn occurs_at(text: Seq<char>, pattern: Seq<char>, at: int) -> bool {
    &&& 0 <= at
    &&& at + pattern.len() <= text.len()
    &&& text.subrange(at, at + pattern.len()) =~= pattern
}

/// Whether `pattern` occurs somewhere in `text`.
pub open spec fn spec_contains(text: Seq<char>, pattern: Seq<char>) -> bool {
    exists|at: int| occurs_at(text, pattern, at)
}

/// Whether the first `upto` characters of `pattern` stand in `text` from
/// position `at` on.
spec fn prefix_matches(text: Seq<char>, pattern: Seq<char>, at: int, upto: int) -> bool {
    forall|k: int| 0 <= k < upto ==> text[at + k] == pattern[k]
}

/// Whether `pattern` occurs in `text` at position `at`, which leaves room for
/// it.
fn matches_at(text: &str, pattern: &str, at: usize, text_len: usize, pattern_len: usize) -> (found:
    bool)
    requires
        text_len == text@.len(),
        pattern_len == pattern@.len(),
        at + pattern_len <= text_len,
    ensures
        found == occurs_at(text@, pattern@, at as int),
{
    let mut k: usize = 0;
    while k < pattern_len
        invariant
            text_len == text@.len(),
            pattern_len == pattern@.len(),
            at + pattern_len <= text_len,
            k <= pattern_len,
            prefix_matches(text@, pattern@, at as int, k as int),
        decreases pattern_len - k,
    {
        if text.get_char(at + k) != pattern.get_char(k) {
            proof {
                let window = text@.subrange(at as int, at + pattern_len);
                assert(window[k as int] == text@[at + k]);
            }
            return false;
        }
        k += 1;
    }
    proof {
        let window = text@.subrange(at as int, at + pattern_len);
        assert forall|j: int| 0 <= j < pattern_len implies window[j] == pattern@[j] by {
            assert(window[j] == text@[at + j]);
        }
        assert(window =~= pattern@);
    }
    true
}

/// Whether `pattern` occurs somewhere in `text`.
pub fn contains(text: &str, pattern: &str) -> (found: bool)
    ensures
        found == spec_contains(text@, pattern@),
{
    let text_len: usize = text.unicode_len();
    let pattern_len: usize = pattern.unicode_len();
    if pattern_len > text_len {
        return false;
    }
    if pattern_len == 0 {
        assert(text@.subrange(0, 0) =~= pattern@);
        assert(occurs_at(text@, pattern@, 0));
        return true;
    }
    let last: usize = text_len - pattern_len;
    let mut at: usize = 0;
    while at <= last
        invariant
            text_len == text@.len(),
            pattern_len == pattern@.len(),
            last == text_len - pattern_len,
            last < text_len,
            at <= last + 1,
            forall|j: int| 0 <= j < at ==> !occurs_at(text@, pattern@, j),
        decreases last + 1 - at,
    {
        if matches_at(text, pattern, at, text_len, pattern_len) {
            return true;
        }
        at += 1;
    }
    false
}

/// What `str::to_lowercase` makes of a text: each character replaced by its
/// lowercase form, as Unicode defines it.
pub uninterp spec fn lowercase_of(text: Seq<char>) -> Seq<char>;

/// The lowercase form of `text`, made by `str::to_lowercase` of the standard
/// library. The contract only names the result: the same text always gives
/// the same lowercase form.
#[verifier::external_body]
pub(crate) fn to_lowercase(text: &str) -> (lower: String)
    ensures
        lower@ == lowercase_of(text@),
{
    text.to_lowercase()
}

/// `head` followed by `tail`.
pub fn with_suffix(head: &str, tail: &str) -> (joined: String)
    ensures
        joined@ == head@ + tail@,
{
    let mut joined = String::from_str(head);
    joined.append(tail);
    joined
}

} // verus!
