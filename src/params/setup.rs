use vstd::prelude::*;

use crate::syntax::{extend_stmts, stmts_view};
use crate::tokens::Token;

verus! {

/// The statements of a suite's `setup` function, run before each test's own.
#[derive(Clone, Debug, PartialEq, Eq)]
pub struct ParamSetup(pub Vec<Vec<Token>>);

/// Another name for [`ParamSetup`].
pub type ArgSetup = ParamSetup;

impl ParamSetup {
    /// Puts the setup statements, in order, before the statements of `body`.
    pub fn mutate(&self, body: &mut Vec<Vec<Token>>)
        ensures
            stmts_view(final(body)@) == stmts_view(self.0@) + stmts_view(old(body)@),
    {
        let mut out: Vec<Vec<Token>> = Vec::new();
        extend_stmts(&mut out, &self.0);
        extend_stmts(&mut out, body);
        assert(stmts_view(out@) =~= stmts_view(self.0@) + stmts_view(body@));
        *body = out;
    }
}

} // verus!
