use float_cmp::ApproxEqUlps;
use arg_matchers::{
    all_of, any, any_of, between_exc, between_inc, bind0, bind1, bind2, contains, ends_with, eq,
    eq_folded, eq_nocase, float_eq_outcome, ge, gt, is_err, is_ok, is_some, le, lt, ne, ne_nocase,
    not, starts_with, AllOf, AnyOf, Anything, Between, Compare, IsErr, IsSome, Matcher, Not,
};

#[test]
fn comparison_functions_direct() {
    assert!(eq(&3, 3));
    assert!(!eq(&3, 4));
    assert!(ne(&3, 4));
    assert!(!ne(&3, 3));
    assert!(lt(&2, 3));
    assert!(!lt(&3, 3));
    assert!(le(&3, 3));
    assert!(!le(&4, 3));
    assert!(gt(&4, 3));
    assert!(!gt(&3, 3));
    assert!(ge(&3, 3));
    assert!(!ge(&2, 3));
    assert!(between_exc(&10, 9, 11));
    assert!(!between_exc(&9, 9, 11));
    assert!(between_inc(&9, 9, 11));
    assert!(!between_inc(&12, 9, 11));
}

#[test]
fn eq_is_negation_of_ne() {
    for x in -3..4 {
        for v in -3..4 {
            assert_eq!(eq(&x, v), !ne(&x, v));
        }
    }
    assert_eq!(eq(&"a", "b"), !ne(&"a", "b"));
}

#[test]
fn incomparable_values_never_match_orderings() {
    let nan = f64::NAN;
    assert!(!lt(&nan, 1.0));
    assert!(!le(&nan, 1.0));
    assert!(!gt(&nan, 1.0));
    assert!(!ge(&nan, 1.0));
    assert!(!between_inc(&nan, 0.0, 2.0));
    assert!(!between_exc(&1.0, nan, 2.0));
}

#[test]
fn bound_any_matches_everything() {
    let matcher = bind0(Anything);
    assert!(matcher.test(&0));
    assert!(matcher.test(&-7));
    assert!(bind0(Anything).test("text"));
    assert!(any("text"));
}

#[test]
fn double_negation_restores_matcher() {
    let inner = bind1(Compare::Gt, 5);
    let twice = bind1(Not, bind1(Not, bind1(Compare::Gt, 5)));
    for x in 0..10 {
        assert_eq!(twice.test(&x), inner.test(&x));
    }
    assert!(not(&3, &inner));
    assert!(!not(&6, &inner));
}

#[test]
fn empty_lists_are_vacuous() {
    let none: Vec<arg_matchers::Bind1<Compare, i32>> = Vec::new();
    assert!(all_of(&5, none));
    let none: Vec<arg_matchers::Bind1<Compare, i32>> = Vec::new();
    assert!(!any_of(&5, none));
    let all = bind1(AllOf, Vec::<arg_matchers::Bind1<Compare, i32>>::new());
    let some = bind1(AnyOf, Vec::<arg_matchers::Bind1<Compare, i32>>::new());
    assert!(all.test(&0));
    assert!(!some.test(&0));
}

#[test]
fn between_inc_is_ge_and_le() {
    for lo in 0..4 {
        for hi in 0..4 {
            let range = bind2(Between::Inclusive, lo, hi);
            let above = bind1(Compare::Ge, lo);
            let below = bind1(Compare::Le, hi);
            for x in -1..5 {
                assert_eq!(range.test(&x), above.test(&x) && below.test(&x));
            }
        }
    }
}

#[test]
fn option_and_result_dispatch_direct() {
    let gt5 = bind1(Compare::Gt, 5);
    assert!(is_some(&Some(10), &gt5));
    assert!(!is_some(&Some(3), &gt5));
    assert!(!is_some(&None, &gt5));
    assert!(is_ok(&Ok::<i32, i32>(10), &gt5));
    assert!(!is_ok(&Err::<i32, i32>(10), &gt5));
    let gt0 = bind1(Compare::Gt, 0);
    assert!(is_err(&Err::<&str, i32>(8), &gt0));
    assert!(!is_err(&Err::<&str, i32>(0), &gt0));
    assert!(!is_err(&Ok::<i32, i32>(8), &gt0));
}

#[test]
fn opposite_arm_rejects_any_payload() {
    let matcher = bind1(IsErr, bind1(Compare::Gt, 0));
    assert!(!matcher.test(&Ok::<i32, i32>(1)));
    assert!(!matcher.test(&Ok::<i32, i32>(-1)));
    let always = bind1(IsSome, bind0(Anything));
    assert!(always.test(&Some(0)));
    assert!(!always.test(&None::<i32>));
}

#[test]
fn string_functions_direct() {
    assert!(contains("barfooban", "foo"));
    assert!(!contains("fo", "foo"));
    assert!(contains("", ""));
    assert!(starts_with("foobar", "foo"));
    assert!(!starts_with("barfoo", "foo"));
    assert!(ends_with("barfoo", "foo"));
    assert!(!ends_with("foobar", "foo"));
    assert!(contains("héllo", "él"));
    assert!(ends_with("naïve", "ïve"));
}

#[test]
fn nocase_folds_candidate_only() {
    assert!(eq_nocase("FOO", "foo"));
    assert!(!eq_nocase("foo", "FOO"));
    assert!(!eq_nocase("FOO", "FOO"));
    assert!(ne_nocase("FOO", "FOO"));
    assert!(!ne_nocase("FoO", "foo"));
}

#[test]
fn folded_equality() {
    assert!(eq_folded("foo", "foo"));
    assert!(!eq_folded("foo", "FOO"));
    assert!(!eq_folded("foo", "fo"));
    assert!(eq_folded("", ""));
}

#[test]
fn float_nan_rule() {
    assert!(!float_eq_outcome(true, true, false, false));
    assert!(!float_eq_outcome(true, true, false, true));
    assert!(float_eq_outcome(true, true, true, false));
    assert!(!float_eq_outcome(true, false, true, false));
    assert!(float_eq_outcome(false, false, false, true));
    assert!(!float_eq_outcome(false, true, true, false));
}

#[test]
fn all_of_scenario() {
    let matcher = bind1(AllOf, vec![bind1(Compare::Ge, 0), bind1(Compare::Le, 10)]);
    for x in [0, 5, 10] {
        assert!(matcher.test(&x));
    }
    for x in [-5, 15] {
        assert!(!matcher.test(&x));
    }
    assert!(all_of(&5, vec![bind1(Compare::Ge, 0), bind1(Compare::Le, 10)]));
}

#[test]
fn any_of_scenario() {
    let matchers = vec![bind1(Compare::Eq, 26), bind1(Compare::Le, 40)];
    assert!(any_of(&0, matchers));
    let matchers = vec![bind1(Compare::Eq, 26), bind1(Compare::Le, 40)];
    assert!(!any_of(&42, matchers));
}

#[test]
fn float_reflexive_and_nan_cases() {
    let decide = |arg: f32, target: f32, sensitive: bool| {
        let within = arg.approx_eq_ulps(&target, 2);
        float_eq_outcome(arg.is_nan(), target.is_nan(), sensitive, within)
    };
    for target in [0.0f32, -1.5, 42.5572, 1.0e30, f32::MIN_POSITIVE] {
        assert!(decide(target, target, false));
        assert!(decide(target, target, true));
    }
    assert!(!decide(42.55, 42.5572, false));
    assert!(!decide(f32::NAN, f32::NAN, false));
    assert!(decide(f32::NAN, f32::NAN, true));
    assert!(!decide(42.0, f32::NAN, true));
}
