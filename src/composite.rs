//! Negation, conjunction and disjunction of nested matchers.
use crate::bind::{Matcher, MatcherFn1};
use vstd::prelude::*;

verus! {

/// Every matcher of `matchers` accepts `arg`.
pub open spec fn spec_all_of<T, M: Matcher<T>>(arg: &T, matchers: Seq<M>) -> bool {
    forall|i: int| 0 <= i < matchers.len() ==> #[trigger] matchers[i].spec_test(arg)
}

/// At least one matcher of `matchers` accepts `arg`.
pub open spec fn spec_any_of<T, M: Matcher<T>>(arg: &T, matchers: Seq<M>) -> bool {
    exists|i: int| 0 <= i < matchers.len() && #[trigger] matchers[i].spec_test(arg)
}

/// Matcher that matches if `arg` does _not_ match the specified `matcher`.
pub fn not<T, M: Matcher<T>>(arg: &T, matcher: &M) -> (r: bool)
    ensures
        M::obeys_test_spec() ==> r == !matcher.spec_test(arg),
{
    !matcher.test(arg)
}

/// Tests the matchers in order and stops at the first one that rejects.
fn all_of_ref<T, M: Matcher<T>>(arg: &T, matchers: &Vec<M>) -> (r: bool)
    ensures
        matchers@.len() == 0 ==> r,
        M::obeys_test_spec() ==> r == spec_all_of(arg, matchers@),
{
    let n = matchers.len();
    let mut i: usize = 0;
    while i < n
        invariant
            n == matchers@.len(),
            i <= n,
            M::obeys_test_spec() ==> forall|j: int| 0 <= j < i ==> #[trigger] matchers@[j].spec_test(arg),
        decreases n - i,
    {
        if !matchers[i].test(arg) {
            return false;
        }
        i = i + 1;
    }
    true
}

/// Tests the matchers in order and stops at the first one that accepts.
fn any_of_ref<T, M: Matcher<T>>(arg: &T, matchers: &Vec<M>) -> (r: bool)
    ensures
        matchers@.len() == 0 ==> !r,
        M::obeys_test_spec() ==> r == spec_any_of(arg, matchers@),
{
    let n = matchers.len();
    let mut i: usize = 0;
    while i < n
        invariant
            n == matchers@.len(),
            i <= n,
            M::obeys_test_spec() ==> forall|j: int| 0 <= j < i ==> !#[trigger] matchers@[j].spec_test(arg),
        decreases n - i,
    {
        if matchers[i].test(arg) {
            return true;
        }
        i = i + 1;
    }
    false
}

/// Matcher that matches if `arg` matches *all* of the specified `matchers`.
/// If at least one of `matchers` doesn't match with `arg`, this matcher
/// doesn't match.
pub fn all_of<T, M: Matcher<T>>(arg: &T, matchers: Vec<M>) -> (r: bool)
    ensures
        matchers@.len() == 0 ==> r,
        M::obeys_test_spec() ==> r == spec_all_of(arg, matchers@),
{
    all_of_ref(arg, &matchers)
}

/// Matcher that matches if `arg` matches *any* of the specified `matchers`.
/// If none of the `matchers` match with `arg`, this matcher doesn't match.
pub fn any_of<T, M: Matcher<T>>(arg: &T, matchers: Vec<M>) -> (r: bool)
    ensures
        matchers@.len() == 0 ==> !r,
        M::obeys_test_spec() ==> r == spec_any_of(arg, matchers@),
{
    any_of_ref(arg, &matchers)
}

/// The matcher function that negates a nested matcher.
pub struct Not;

impl<T, M: Matcher<T>> MatcherFn1<T, M> for Not {
    open spec fn obeys_apply_spec() -> bool {
        M::obeys_test_spec()
    }

    open spec fn spec_apply(&self, arg: &T, matcher: &M) -> bool {
        !matcher.spec_test(arg)
    }

    fn apply(&self, arg: &T, matcher: &M) -> (r: bool) {
        not(arg, matcher)
    }
}

/// The matcher function that requires every nested matcher to accept.
pub struct AllOf;

impl<T, M: Matcher<T>> MatcherFn1<T, Vec<M>> for AllOf {
    open spec fn obeys_apply_spec() -> bool {
        M::obeys_test_spec()
    }

    open spec fn spec_apply(&self, arg: &T, matchers: &Vec<M>) -> bool {
        spec_all_of(arg, matchers@)
    }

    fn apply(&self, arg: &T, matchers: &Vec<M>) -> (r: bool) {
        all_of_ref(arg, matchers)
    }
}

/// The matcher function that requires some nested matcher to accept.
pub struct AnyOf;

impl<T, M: Matcher<T>> MatcherFn1<T, Vec<M>> for AnyOf {
    open spec fn obeys_apply_spec() -> bool {
        M::obeys_test_spec()
    }

    open spec fn spec_apply(&self, arg: &T, matchers: &Vec<M>) -> bool {
        spec_any_of(arg, matchers@)
    }

    fn apply(&self, arg: &T, matchers: &Vec<M>) -> (r: bool) {
        any_of_ref(arg, matchers)
    }
}

} // verus!
