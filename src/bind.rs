//! The uniform single-argument matcher capability, and partial application
//! of matcher functions of arity 0, 1 and 2 into bound matchers.
use vstd::prelude::*;

verus! {

/// A predicate over a borrowed candidate value.
///
/// `spec_test` is the mathematical meaning of the matcher. `test` computes it
/// whenever the type's underlying comparisons obey their specifications
/// (`obeys_test_spec`).
pub trait Matcher<T: ?Sized> {
    spec fn obeys_test_spec() -> bool;

    spec fn spec_test(&self, arg: &T) -> bool;

    fn test(&self, arg: &T) -> (r: bool)
        ensures
            Self::obeys_test_spec() ==> r == self.spec_test(arg),
    ;
}

/// A matcher function that takes the candidate and no further parameter.
pub trait MatcherFn0<T: ?Sized> {
    spec fn obeys_apply_spec() -> bool;

    spec fn spec_apply(&self, arg: &T) -> bool;

    fn apply(&self, arg: &T) -> (r: bool)
        ensures
            Self::obeys_apply_spec() ==> r == self.spec_apply(arg),
    ;
}

/// A matcher function that takes the candidate and one bound parameter.
pub trait MatcherFn1<T: ?Sized, P> {
    spec fn obeys_apply_spec() -> bool;

    spec fn spec_apply(&self, arg: &T, p1: &P) -> bool;

    fn apply(&self, arg: &T, p1: &P) -> (r: bool)
        ensures
            Self::obeys_apply_spec() ==> r == self.spec_apply(arg, p1),
    ;
}

/// A matcher function that takes the candidate and two bound parameters.
pub trait MatcherFn2<T: ?Sized, P, Q> {
    spec fn obeys_apply_spec() -> bool;

    spec fn spec_apply(&self, arg: &T, p1: &P, p2: &Q) -> bool;

    fn apply(&self, arg: &T, p1: &P, p2: &Q) -> (r: bool)
        ensures
            Self::obeys_apply_spec() ==> r == self.spec_apply(arg, p1, p2),
    ;
}

/// A matcher function of arity 0 turned into a matcher.
pub struct Bind0<F> {
    pub func: F,
}

/// A matcher function of arity 1 with its parameter bound.
pub struct Bind1<F, P> {
    pub func: F,
    pub p1: P,
}

/// A matcher function of arity 2 with both parameters bound.
pub struct Bind2<F, P, Q> {
    pub func: F,
    pub p1: P,
    pub p2: Q,
}

/// Binds no parameter: the matcher calls `func` with the candidate alone.
pub fn bind0<F>(func: F) -> (r: Bind0<F>)
    ensures
        r.func == func,
{
    Bind0 { func }
}

/// Binds `p1`: the matcher owns it and hands it to `func` on every test.
pub fn bind1<F, P>(func: F, p1: P) -> (r: Bind1<F, P>)
    ensures
        r.func == func,
        r.p1 == p1,
{
    Bind1 { func, p1 }
}

/// Binds `p1` and `p2`: the matcher owns them and hands them to `func` on
/// every test.
pub fn bind2<F, P, Q>(func: F, p1: P, p2: Q) -> (r: Bind2<F, P, Q>)
    ensures
        r.func == func,
        r.p1 == p1,
        r.p2 == p2,
{
    Bind2 { func, p1, p2 }
}

impl<T: ?Sized, F: MatcherFn0<T>> Matcher<T> for Bind0<F> {
    open spec fn obeys_test_spec() -> bool {
        F::obeys_apply_spec()
    }

    open spec fn spec_test(&self, arg: &T) -> bool {
        self.func.spec_apply(arg)
    }

    fn test(&self, arg: &T) -> (r: bool) {
        self.func.apply(arg)
    }
}

impl<T: ?Sized, P, F: MatcherFn1<T, P>> Matcher<T> for Bind1<F, P> {
    open spec fn obeys_test_spec() -> bool {
        F::obeys_apply_spec()
    }

    open spec fn spec_test(&self, arg: &T) -> bool {
        self.func.spec_apply(arg, &self.p1)
    }

    fn test(&self, arg: &T) -> (r: bool) {
        self.func.apply(arg, &self.p1)
    }
}

impl<T: ?Sized, P, Q, F: MatcherFn2<T, P, Q>> Matcher<T> for Bind2<F, P, Q> {
    open spec fn obeys_test_spec() -> bool {
        F::obeys_apply_spec()
    }

    open spec fn spec_test(&self, arg: &T) -> bool {
        self.func.spec_apply(arg, &self.p1, &self.p2)
    }

    fn test(&self, arg: &T) -> (r: bool) {
        self.func.apply(arg, &self.p1, &self.p2)
    }
}

} // verus!
