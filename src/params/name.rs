use vstd::prelude::*;

use crate::error::Error;
use crate::syntax::{FnView, ItemFn};
use crate::tokens::{tv, Token, TokenView};

verus! {

/// A test case's name: the emitted function is called `<function>_<name>`.
#[derive(Clone, Debug, PartialEq, Eq)]
pub struct ParamName(pub String);

/// Another name for [`ParamName`].
pub type ArgName = ParamName;

/// `f` renamed to `<name>_<suffix>`.
pub open spec fn named(f: FnView, suffix: Seq<char>) -> FnView {
    FnView { name: f.name + seq!['_'] + suffix, ..f }
}

impl ParamName {
    /// Parses a test name: exactly one identifier.
    pub fn parse(s: &Vec<Token>) -> (r: Result<ParamName, Error>)
        ensures
            (s@.len() == 1 && tv(s@)[0] is Ident) ==> (r matches Ok(p) && TokenView::Ident(p.0@)
                == tv(s@)[0]),
            !(s@.len() == 1 && tv(s@)[0] is Ident) ==> r == Err::<ParamName, Error>(
                Error::ExpectedTestName,
            ),
    {
        if s.len() == 1 {
            match &s[0] {
                Token::Ident(n) => {
                    return Ok(ParamName(n.clone()));
                },
                _ => {},
            }
        }
        Err(Error::ExpectedTestName)
    }

    /// Appends `_<name>` to the function's name.
    pub fn mutate(&self, f: &mut ItemFn)
        ensures
            final(f)@ == named(old(f)@, self.0@),
    {
        let mut n = f.name.clone();
        n.append("_");
        n.append(self.0.as_str());
        proof {
            reveal_strlit("_");
            assert("_"@ =~= seq!['_']);
        }
        f.name = n;
        assert(final(f)@.name =~= named(old(f)@, self.0@).name);
    }
}

} // verus!
