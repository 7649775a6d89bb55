//! The arguments that attributes take, each with how it is parsed and how it
//! rewrites its target.
use vstd::prelude::*;

use crate::error::Error;
use crate::syntax::{Attribute, FnInput, Pattern};
use crate::tokens::Token;

pub mod init;
pub mod name;
pub mod setup;
pub mod teardown;
pub mod with;

verus! {

/// The parts of a typed function input: its attributes, pattern and type.
/// `NoCorrespondingInput` where there is no input, `InvalidParameter` for a
/// `self` receiver.
pub fn split_rust_fn_input(input: Option<&FnInput>) -> (r: Result<
    (&Vec<Attribute>, &Pattern, &Vec<Token>),
    Error,
>)
    ensures
        match input {
            None => r == Err::<(&Vec<Attribute>, &Pattern, &Vec<Token>), Error>(
                Error::NoCorrespondingInput,
            ),
            Some(FnInput::Receiver(_)) => r == Err::<(&Vec<Attribute>, &Pattern, &Vec<Token>), Error>(
                Error::InvalidParameter,
            ),
            Some(FnInput::Typed { attrs, pat, ty }) => r == Ok::<
                (&Vec<Attribute>, &Pattern, &Vec<Token>),
                Error,
            >((attrs, pat, ty)),
        },
{
    match input {
        None => Err(Error::NoCorrespondingInput),
        Some(FnInput::Receiver(_)) => Err(Error::InvalidParameter),
        Some(FnInput::Typed { attrs, pat, ty }) => Ok((attrs, pat, ty)),
    }
}

} // verus!
