use vstd::prelude::*;

use crate::syntax::{extend_stmts, stmts_view};
use crate::tokens::Token;

verus! {

/// The statements of a suite's `teardown` function, run after each test's own.
#[derive(Clone, Debug, PartialEq, Eq)]
pub struct ParamTeardown(pub Vec<Vec<Token>>);

/// Another name for [`ParamTeardown`].
pub type ArgTeardown = ParamTeardown;

impl ParamTeardown {
    /// Puts the teardown statements, in order, after the statements of `body`.
    pub fn mutate(&self, body: &mut Vec<Vec<Token>>)
        ensures
            stmts_view(final(body)@) == stmts_view(old(body)@) + stmts_view(self.0@),
    {
        extend_stmts(body, &self.0);
    }
}

} // verus!
