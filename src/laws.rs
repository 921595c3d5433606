//! Laws that relate several matchers.
use crate::bind::{Bind1, Bind2, Matcher, MatcherFn1};
use crate::compare::{Between, Compare};
use crate::composite::{AllOf, AnyOf, Not};
use vstd::laws_cmp::obeys_partial_cmp_spec_properties;
use vstd::laws_eq::obeys_eq_spec_properties;
use vstd::prelude::*;

verus! {

/// Equality and inequality against the same target are each other's
/// negation.
pub proof fn lemma_eq_is_not_ne<T: PartialOrd>(x: &T, v: &T)
    ensures
        <Compare as MatcherFn1<T, T>>::spec_apply(&Compare::Eq, x, v)
            == !<Compare as MatcherFn1<T, T>>::spec_apply(&Compare::Ne, x, v),
{
}

/// Negating a matcher twice gives back the matcher.
pub proof fn lemma_not_not<T, M: Matcher<T>>(m: M, x: &T)
    ensures
        (Bind1 { func: Not, p1: (Bind1 { func: Not, p1: m }) }).spec_test(x) == m.spec_test(x),
{
}

/// The conjunction of no matchers accepts every candidate, and their
/// disjunction rejects every candidate.
pub proof fn lemma_empty_all_any<T, M: Matcher<T>>(matchers: Vec<M>, x: &T)
    requires
        matchers@.len() == 0,
    ensures
        (Bind1 { func: AllOf, p1: matchers }).spec_test(x),
        !(Bind1 { func: AnyOf, p1: matchers }).spec_test(x),
{
}

/// For a type whose ordering is lawful, the inclusive range `[lo, hi]`
/// accepts exactly the candidates that are at least `lo` and at most `hi`.
pub proof fn lemma_between_inc_is_ge_and_le<T: PartialOrd>(lo: T, hi: T, x: &T)
    requires
        obeys_partial_cmp_spec_properties::<T>(),
    ensures
        (Bind2 { func: Between::Inclusive, p1: lo, p2: hi }).spec_test(x) == (
        (Bind1 { func: Compare::Ge, p1: lo }).spec_test(x) && (Bind1 {
            func: Compare::Le,
            p1: hi,
        }).spec_test(x)),
{
    reveal(obeys_partial_cmp_spec_properties);
    reveal(obeys_eq_spec_properties);
}

} // verus!
