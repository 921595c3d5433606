//! String matchers: substring, prefix, suffix and case-folded equality.
use crate::bind::MatcherFn1;
use vstd::prelude::*;
use vstd::string::StrSliceExecFns;

verus! {

/// `needle` occurs in `s` at position `start`.
pub open spec fn occurs_at(s: Seq<char>, needle: Seq<char>, start: int) -> bool {
    0 <= start && start + needle.len() <= s.len() && s.subrange(start, start + needle.len()) == needle
}

/// `needle` occurs somewhere in `s`.
pub open spec fn spec_contains(s: Seq<char>, needle: Seq<char>) -> bool {
    exists|start: int| occurs_at(s, needle, start)
}

/// `prefix` is a prefix of `s`.
pub open spec fn spec_starts_with(s: Seq<char>, prefix: Seq<char>) -> bool {
    occurs_at(s, prefix, 0)
}

/// `suffix` is a suffix of `s`.
pub open spec fn spec_ends_with(s: Seq<char>, suffix: Seq<char>) -> bool {
    occurs_at(s, suffix, s.len() - suffix.len())
}

/// What `str::to_lowercase` makes of a string.
pub uninterp spec fn lower_of(s: Seq<char>) -> Seq<char>;

/// Relies on `str::to_lowercase`: the result depends on the characters alone.
#[verifier::external_body]
fn lowercase(s: &str) -> (r: String)
    ensures
        r@ == lower_of(s@),
{
    s.to_lowercase()
}

/// Compares `s[start .. start + len]` with `needle`, character by character.
fn occurs_at_exec(s: &str, s_len: usize, needle: &str, needle_len: usize, start: usize) -> (r: bool)
    requires
        s_len == s@.len(),
        needle_len == needle@.len(),
        start + needle_len <= s_len,
    ensures
        r == occurs_at(s@, needle@, start as int),
{
    let mut j: usize = 0;
    while j < needle_len
        invariant
            s_len == s@.len(),
            needle_len == needle@.len(),
            start + needle_len <= s_len,
            j <= needle_len,
            forall|k: int| 0 <= k < j ==> s@[start + k] == needle@[k],
        decreases needle_len - j,
    {
        if s.get_char(start + j) != needle.get_char(j) {
            assert(s@.subrange(start as int, start + needle_len)[j as int] != needle@[j as int]);
            return false;
        }
        j = j + 1;
    }
    assert(s@.subrange(start as int, start + needle_len) =~= needle@);
    true
}

/// Matcher that matches if `arg` contains the substring specified by `string`.
pub fn contains(arg: &str, string: &str) -> (r: bool)
    ensures
        r == spec_contains(arg@, string@),
{
    let arg_len = arg.unicode_len();
    let needle_len = string.unicode_len();
    if needle_len > arg_len {
        return false;
    }
    let last = arg_len - needle_len;
    let mut start: usize = 0;
    loop
        invariant
            arg_len == arg@.len(),
            needle_len == string@.len(),
            last + needle_len == arg_len,
            start <= last,
            forall|k: int| 0 <= k < start ==> !#[trigger] occurs_at(arg@, string@, k),
        decreases last - start,
    {
        if occurs_at_exec(arg, arg_len, string, needle_len, start) {
            return true;
        }
        if start == last {
            assert forall|k: int| !#[trigger] occurs_at(arg@, string@, k) by {
                if 0 <= k && k < start {
                }
            }
            return false;
        }
        start = start + 1;
    }
}

/// Matcher that matches if `arg` starts with the specified `prefix`.
pub fn starts_with(arg: &str, prefix: &str) -> (r: bool)
    ensures
        r == spec_starts_with(arg@, prefix@),
{
    let arg_len = arg.unicode_len();
    let prefix_len = prefix.unicode_len();
    if prefix_len > arg_len {
        return false;
    }
    occurs_at_exec(arg, arg_len, prefix, prefix_len, 0)
}

/// Matcher that matches if `arg` ends with the specified `suffix`.
pub fn ends_with(arg: &str, suffix: &str) -> (r: bool)
    ensures
        r == spec_ends_with(arg@, suffix@),
{
    let arg_len = arg.unicode_len();
    let suffix_len = suffix.unicode_len();
    if suffix_len > arg_len {
        return false;
    }
    occurs_at_exec(arg, arg_len, suffix, suffix_len, arg_len - suffix_len)
}

/// Compares an already case-folded candidate with `string`, which is taken
/// as it is.
pub fn eq_folded(folded: &str, string: &str) -> (r: bool)
    ensures
        r == (folded@ == string@),
{
    let folded_len = folded.unicode_len();
    let string_len = string.unicode_len();
    if folded_len != string_len {
        return false;
    }
    let r = occurs_at_exec(folded, folded_len, string, string_len, 0);
    assert(folded@.subrange(0, folded_len as int) =~= folded@);
    r
}

/// Matcher that matches if `arg` is equal to `string` after ignoring case.
/// Only `arg` is folded to lower case: `string` is compared as it is given.
pub fn eq_nocase(arg: &str, string: &str) -> (r: bool)
    ensures
        r == (lower_of(arg@) == string@),
{
    let folded = lowercase(arg);
    eq_folded(folded.as_str(), string)
}

/// Matcher that matches if `arg` is not equal to `string`, even after
/// ignoring case. Only `arg` is folded to lower case.
pub fn ne_nocase(arg: &str, string: &str) -> (r: bool)
    ensures
        r == (lower_of(arg@) != string@),
{
    let folded = lowercase(arg);
    !eq_folded(folded.as_str(), string)
}

/// The string matcher functions against one bound string.
pub enum Text {
    Contains,
    StartsWith,
    EndsWith,
    EqNocase,
    NeNocase,
}

impl MatcherFn1<str, String> for Text {
    open spec fn obeys_apply_spec() -> bool {
        true
    }

    open spec fn spec_apply(&self, arg: &str, string: &String) -> bool {
        match self {
            Text::Contains => spec_contains(arg@, string@),
            Text::StartsWith => spec_starts_with(arg@, string@),
            Text::EndsWith => spec_ends_with(arg@, string@),
            Text::EqNocase => lower_of(arg@) == string@,
            Text::NeNocase => lower_of(arg@) != string@,
        }
    }

    fn apply(&self, arg: &str, string: &String) -> (r: bool) {
        let s = string.as_str();
        match self {
            Text::Contains => contains(arg, s),
            Text::StartsWith => starts_with(arg, s),
            Text::EndsWith => ends_with(arg, s),
            Text::EqNocase => eq_nocase(arg, s),
            Text::NeNocase => ne_nocase(arg, s),
        }
    }
}

} // verus!
