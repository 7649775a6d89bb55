//! Sith: a simple injectable test harness.
//!
//! The library expands two attributes on a model of Rust syntax: `#[test_case]`
//! on a function, which may be stacked and parameterised with a name and with
//! `with(...)` arguments, and `#[test_suite]` on a module, whose `setup`,
//! `teardown` and `init` functions are woven into every test it holds.
//! Token streams are flat: a delimited group is an `Open` token, its contents
//! and the matching `Close` token.
use vstd::prelude::*;

use crate::syntax::{ItemFn, ItemMod};
use crate::test_case::{error_tokens, expanded_case, parse_case, render_error, render_test_case, TestCase};
use crate::test_suite::{expanded_suite, parse_suite, render_test_suite, TestSuite};
use crate::tokens::{tv, Token, TokenView};

pub mod common;
pub mod error;
pub mod laws;
pub mod mutators;
pub mod params;
pub mod syntax;
pub mod test_case;
pub mod test_suite;
pub mod tokens;

verus! {

/// The expansion of `#[test_case(args)]` on function `target`.
pub open spec fn expand_test_case(args: Seq<TokenView>, target: syntax::FnView) -> Seq<TokenView> {
    match parse_case(args) {
        Ok(c) => expanded_case(c, target),
        Err(e) => error_tokens(e),
    }
}

/// The expansion of `#[test_suite]` on module `target`.
pub open spec fn expand_test_suite(target: syntax::ModView) -> Seq<TokenView> {
    match parse_suite(target) {
        Ok(s) => expanded_suite(s),
        Err(e) => error_tokens(e),
    }
}

/// Expands `#[test_case(attr_args)]` on `target`: the tokens that replace the
/// function, or the error of its arguments.
pub fn test_case(attr_args: &Vec<Token>, target: ItemFn) -> (r: Vec<Token>)
    ensures
        tv(r@) == expand_test_case(tv(attr_args@), target@),
{
    match TestCase::parse(attr_args) {
        Ok(c) => render_test_case(c, target),
        Err(e) => {
            let mut out: Vec<Token> = Vec::new();
            render_error(&e, &mut out);
            assert(tv(out@) =~= error_tokens(e@));
            out
        },
    }
}

/// Expands `#[test_suite]` on module `target`: the tokens that replace the
/// module, or the error of its parse.
pub fn test_suite(target: ItemMod) -> (r: Vec<Token>)
    ensures
        tv(r@) == expand_test_suite(target@),
{
    match TestSuite::parse(target) {
        Ok(s) => render_test_suite(s),
        Err(e) => {
            let mut out: Vec<Token> = Vec::new();
            render_error(&e, &mut out);
            assert(tv(out@) =~= error_tokens(e@));
            out
        },
    }
}

} // verus!
