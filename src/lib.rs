//! Composable boolean matchers over borrowed candidate values.
pub mod bind;
pub mod compare;
pub mod composite;
pub mod float;
pub mod laws;
pub mod text;

pub use bind::{bind0, bind1, bind2, Bind0, Bind1, Bind2, Matcher, MatcherFn0, MatcherFn1, MatcherFn2};
pub use compare::{
    any, between_exc, between_inc, eq, ge, gt, is_err, is_ok, is_some, le, lt, ne, Anything,
    Between, Compare, IsErr, IsOk, IsSome,
};
pub use composite::{all_of, any_of, not, AllOf, AnyOf, Not};
pub use text::{contains, ends_with, eq_folded, eq_nocase, ne_nocase, starts_with, Text};
pub use float::float_eq_outcome;
