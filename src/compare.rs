//! Comparison matchers, and matchers that unwrap an `Option` or a `Result`
//! before handing the payload to a nested matcher.
use crate::bind::{Matcher, MatcherFn0, MatcherFn1, MatcherFn2};
use vstd::prelude::*;
use vstd::std_specs::cmp::{PartialEqSpec, PartialOrdIs, PartialOrdSpec};

verus! {

/// Matcher that matches any argument value.
pub fn any<T: ?Sized>(_arg: &T) -> (r: bool)
    ensures
        r,
{
    true
}

/// Matcher that matches if `arg` is equal to `target_val`.
pub fn eq<T: PartialEq>(arg: &T, target_val: T) -> (r: bool)
    ensures
        T::obeys_eq_spec() ==> r == arg.eq_spec(&target_val),
{
    *arg == target_val
}

/// Matcher that matches if `arg` is not equal to `target_val`.
pub fn ne<T: PartialEq>(arg: &T, target_val: T) -> (r: bool)
    ensures
        T::obeys_eq_spec() ==> r == !arg.eq_spec(&target_val),
{
    *arg != target_val
}

/// Matcher that matches if `arg` is less than `target_val`.
pub fn lt<T: PartialOrd>(arg: &T, target_val: T) -> (r: bool)
    ensures
        T::obeys_partial_cmp_spec() ==> r == arg.is_lt(&target_val),
{
    *arg < target_val
}

/// Matcher that matches if `arg` is less than or equal to `target_val`.
pub fn le<T: PartialOrd>(arg: &T, target_val: T) -> (r: bool)
    ensures
        T::obeys_partial_cmp_spec() ==> r == arg.is_le(&target_val),
{
    *arg <= target_val
}

/// Matcher that matches if `arg` is greater than `target_val`.
pub fn gt<T: PartialOrd>(arg: &T, target_val: T) -> (r: bool)
    ensures
        T::obeys_partial_cmp_spec() ==> r == arg.is_gt(&target_val),
{
    *arg > target_val
}

/// Matcher that matches if `arg` is greater than or equal to `target_val`.
pub fn ge<T: PartialOrd>(arg: &T, target_val: T) -> (r: bool)
    ensures
        T::obeys_partial_cmp_spec() ==> r == arg.is_ge(&target_val),
{
    *arg >= target_val
}

/// `arg` lies strictly inside `(low, high)`.
pub open spec fn spec_between_exc<T: PartialOrd>(arg: &T, low: &T, high: &T) -> bool {
    low.is_lt(arg) && arg.is_lt(high)
}

/// `arg` lies inside `[low, high]`.
pub open spec fn spec_between_inc<T: PartialOrd>(arg: &T, low: &T, high: &T) -> bool {
    low.is_le(arg) && arg.is_le(high)
}

fn between_exc_ref<T: PartialOrd>(arg: &T, low: &T, high: &T) -> (r: bool)
    ensures
        T::obeys_partial_cmp_spec() ==> r == spec_between_exc(arg, low, high),
{
    *low < *arg && *arg < *high
}

fn between_inc_ref<T: PartialOrd>(arg: &T, low: &T, high: &T) -> (r: bool)
    ensures
        T::obeys_partial_cmp_spec() ==> r == spec_between_inc(arg, low, high),
{
    *low <= *arg && *arg <= *high
}

/// Matcher that matches if `arg` is between the exclusive range `(low, high)`.
pub fn between_exc<T: PartialOrd>(arg: &T, low: T, high: T) -> (r: bool)
    ensures
        T::obeys_partial_cmp_spec() ==> r == spec_between_exc(arg, &low, &high),
{
    between_exc_ref(arg, &low, &high)
}

/// Matcher that matches if `arg` is between the inclusive range `[low, high]`.
pub fn between_inc<T: PartialOrd>(arg: &T, low: T, high: T) -> (r: bool)
    ensures
        T::obeys_partial_cmp_spec() ==> r == spec_between_inc(arg, &low, &high),
{
    between_inc_ref(arg, &low, &high)
}

/// `arg` is populated and its value satisfies `matcher`.
pub open spec fn spec_is_some<T, M: Matcher<T>>(arg: &Option<T>, matcher: &M) -> bool {
    match arg {
        Some(x) => matcher.spec_test(x),
        None => false,
    }
}

/// `arg` is a success whose payload satisfies `matcher`.
pub open spec fn spec_is_ok<T, U, M: Matcher<T>>(arg: &Result<T, U>, matcher: &M) -> bool {
    match arg {
        Ok(x) => matcher.spec_test(x),
        Err(_) => false,
    }
}

/// `arg` is a failure whose payload satisfies `matcher`.
pub open spec fn spec_is_err<T, U, M: Matcher<U>>(arg: &Result<T, U>, matcher: &M) -> bool {
    match arg {
        Ok(_) => false,
        Err(x) => matcher.spec_test(x),
    }
}

/// Matcher that matches if `arg` is a populated `Option` whose stored value
/// matches the specified `matcher`.
pub fn is_some<T, M: Matcher<T>>(arg: &Option<T>, matcher: &M) -> (r: bool)
    ensures
        arg.is_none() ==> !r,
        M::obeys_test_spec() ==> r == spec_is_some(arg, matcher),
{
    match arg {
        Some(x) => matcher.test(x),
        None => false,
    }
}

/// Matcher that matches if `arg` is a `Result::Ok` whose stored value matches
/// the specified `matcher`.
pub fn is_ok<T, U, M: Matcher<T>>(arg: &Result<T, U>, matcher: &M) -> (r: bool)
    ensures
        arg.is_err() ==> !r,
        M::obeys_test_spec() ==> r == spec_is_ok(arg, matcher),
{
    match arg {
        Ok(x) => matcher.test(x),
        Err(_) => false,
    }
}

/// Matcher that matches if `arg` is a `Result::Err` whose stored value
/// matches the specified `matcher`.
pub fn is_err<T, U, M: Matcher<U>>(arg: &Result<T, U>, matcher: &M) -> (r: bool)
    ensures
        arg.is_ok() ==> !r,
        M::obeys_test_spec() ==> r == spec_is_err(arg, matcher),
{
    match arg {
        Ok(_) => false,
        Err(x) => matcher.test(x),
    }
}

/// The matcher function that accepts every candidate.
pub struct Anything;

impl<T: ?Sized> MatcherFn0<T> for Anything {
    open spec fn obeys_apply_spec() -> bool {
        true
    }

    open spec fn spec_apply(&self, arg: &T) -> bool {
        true
    }

    fn apply(&self, arg: &T) -> (r: bool) {
        any(arg)
    }
}

/// The comparison matcher functions against one bound target value. All six
/// share one type, so that a list of matchers may mix them; binding one
/// therefore asks for an ordered type, also for `Eq` and `Ne`.
pub enum Compare {
    Eq,
    Ne,
    Lt,
    Le,
    Gt,
    Ge,
}

impl<T: PartialOrd> MatcherFn1<T, T> for Compare {
    open spec fn obeys_apply_spec() -> bool {
        T::obeys_eq_spec() && T::obeys_partial_cmp_spec()
    }

    open spec fn spec_apply(&self, arg: &T, target: &T) -> bool {
        match self {
            Compare::Eq => arg.eq_spec(target),
            Compare::Ne => !arg.eq_spec(target),
            Compare::Lt => arg.is_lt(target),
            Compare::Le => arg.is_le(target),
            Compare::Gt => arg.is_gt(target),
            Compare::Ge => arg.is_ge(target),
        }
    }

    fn apply(&self, arg: &T, target: &T) -> (r: bool) {
        match self {
            Compare::Eq => *arg == *target,
            Compare::Ne => *arg != *target,
            Compare::Lt => *arg < *target,
            Compare::Le => *arg <= *target,
            Compare::Gt => *arg > *target,
            Compare::Ge => *arg >= *target,
        }
    }
}

/// The range matcher functions against two bound bounds.
pub enum Between {
    Exclusive,
    Inclusive,
}

impl<T: PartialOrd> MatcherFn2<T, T, T> for Between {
    open spec fn obeys_apply_spec() -> bool {
        T::obeys_partial_cmp_spec()
    }

    open spec fn spec_apply(&self, arg: &T, low: &T, high: &T) -> bool {
        match self {
            Between::Exclusive => spec_between_exc(arg, low, high),
            Between::Inclusive => spec_between_inc(arg, low, high),
        }
    }

    fn apply(&self, arg: &T, low: &T, high: &T) -> (r: bool) {
        match self {
            Between::Exclusive => between_exc_ref(arg, low, high),
            Between::Inclusive => between_inc_ref(arg, low, high),
        }
    }
}

/// The matcher function that unwraps a populated `Option`.
pub struct IsSome;

impl<T, M: Matcher<T>> MatcherFn1<Option<T>, M> for IsSome {
    open spec fn obeys_apply_spec() -> bool {
        M::obeys_test_spec()
    }

    open spec fn spec_apply(&self, arg: &Option<T>, matcher: &M) -> bool {
        spec_is_some(arg, matcher)
    }

    fn apply(&self, arg: &Option<T>, matcher: &M) -> (r: bool) {
        is_some(arg, matcher)
    }
}

/// The matcher function that unwraps the success arm of a `Result`.
pub struct IsOk;

impl<T, U, M: Matcher<T>> MatcherFn1<Result<T, U>, M> for IsOk {
    open spec fn obeys_apply_spec() -> bool {
        M::obeys_test_spec()
    }

    open spec fn spec_apply(&self, arg: &Result<T, U>, matcher: &M) -> bool {
        spec_is_ok(arg, matcher)
    }

    fn apply(&self, arg: &Result<T, U>, matcher: &M) -> (r: bool) {
        is_ok(arg, matcher)
    }
}

/// The matcher function that unwraps the failure arm of a `Result`.
pub struct IsErr;

impl<T, U, M: Matcher<U>> MatcherFn1<Result<T, U>, M> for IsErr {
    open spec fn obeys_apply_spec() -> bool {
        M::obeys_test_spec()
    }

    open spec fn spec_apply(&self, arg: &Result<T, U>, matcher: &M) -> bool {
        spec_is_err(arg, matcher)
    }

    fn apply(&self, arg: &Result<T, U>, matcher: &M) -> (r: bool) {
        is_err(arg, matcher)
    }
}

} // verus!
