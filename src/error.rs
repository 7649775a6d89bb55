use vstd::prelude::*;

use crate::tokens::{char_string, Delimiter};

verus! {

/// Why an attribute could not be parsed or applied.
#[derive(Clone, Debug, PartialEq, Eq)]
pub enum Error {
    /// A group with this delimiter was expected.
    ExpectedDelimiter(Delimiter),
    /// A token was expected, and the input had ended.
    ExpectedToken,
    /// A `,` was expected between two arguments.
    ExpectedComma,
    /// An argument of `#[test_case]` was expected.
    ExpectedParameter,
    /// An expression was expected in `with(...)`.
    ExpectedInput,
    /// A test name was expected.
    ExpectedTestName,
    /// An identifier followed by `(...)` that names no known argument.
    UnrecognizedArg,
    /// An argument kind given twice.
    DuplicateParameter,
    /// A stacked `#[test_case = ...]` with no parenthesised arguments.
    ExpectedArguments,
    /// `with(...)` has `args` arguments for a function of `inputs` inputs.
    InputCount { inputs: usize, args: usize },
    /// A `self` receiver where a typed input was needed.
    InvalidParameter,
    /// No function input was left for an argument.
    NoCorrespondingInput,
    /// A function input whose pattern is not a plain identifier.
    ExpectedIdentifier,
    /// A `verbatim(...)` input whose declared type is not `_`.
    VerbatimNotInferred,
    /// A static marked to be set by `init` that the `init` function never assigns.
    Uninitialized(String),
}

/// What an error is, with the name it carries as characters.
pub enum ErrorView {
    ExpectedDelimiter(Delimiter),
    ExpectedToken,
    ExpectedComma,
    ExpectedParameter,
    ExpectedInput,
    ExpectedTestName,
    UnrecognizedArg,
    DuplicateParameter,
    ExpectedArguments,
    InputCount { inputs: nat, args: nat },
    InvalidParameter,
    NoCorrespondingInput,
    ExpectedIdentifier,
    VerbatimNotInferred,
    Uninitialized(Seq<char>),
}

impl View for Error {
    type V = ErrorView;

    open spec fn view(&self) -> ErrorView {
        match self {
            Error::ExpectedDelimiter(d) => ErrorView::ExpectedDelimiter(*d),
            Error::ExpectedToken => ErrorView::ExpectedToken,
            Error::ExpectedComma => ErrorView::ExpectedComma,
            Error::ExpectedParameter => ErrorView::ExpectedParameter,
            Error::ExpectedInput => ErrorView::ExpectedInput,
            Error::ExpectedTestName => ErrorView::ExpectedTestName,
            Error::UnrecognizedArg => ErrorView::UnrecognizedArg,
            Error::DuplicateParameter => ErrorView::DuplicateParameter,
            Error::ExpectedArguments => ErrorView::ExpectedArguments,
            Error::InputCount { inputs, args } => ErrorView::InputCount {
                inputs: *inputs as nat,
                args: *args as nat,
            },
            Error::InvalidParameter => ErrorView::InvalidParameter,
            Error::NoCorrespondingInput => ErrorView::NoCorrespondingInput,
            Error::ExpectedIdentifier => ErrorView::ExpectedIdentifier,
            Error::VerbatimNotInferred => ErrorView::VerbatimNotInferred,
            Error::Uninitialized(s) => ErrorView::Uninitialized(s@),
        }
    }
}

/// The decimal digit `d`.
pub open spec fn digit(d: nat) -> char {
    seq!['0', '1', '2', '3', '4', '5', '6', '7', '8', '9'][d as int]
}

/// The decimal numeral of `n`.
pub open spec fn decimal(n: nat) -> Seq<char>
    decreases n,
{
    if n < 10 {
        seq![digit(n)]
    } else {
        decimal(n / 10) + seq![digit(n % 10)]
    }
}

/// The decimal numeral of `n`.
pub fn decimal_text(n: usize) -> (r: String)
    ensures
        r@ == decimal(n as nat),
    decreases n,
{
    let d = n % 10;
    let c = if d == 0 {
        '0'
    } else if d == 1 {
        '1'
    } else if d == 2 {
        '2'
    } else if d == 3 {
        '3'
    } else if d == 4 {
        '4'
    } else if d == 5 {
        '5'
    } else if d == 6 {
        '6'
    } else if d == 7 {
        '7'
    } else if d == 8 {
        '8'
    } else {
        '9'
    };
    assert(c == digit(d as nat));
    let last = char_string(c);
    if n < 10 {
        last
    } else {
        let mut s = decimal_text(n / 10);
        s.append(last.as_str());
        s
    }
}

/// What a delimiter looks like in a message.
pub open spec fn delimiter_text(d: Delimiter) -> Seq<char> {
    match d {
        Delimiter::Parenthesis => "()"@,
        Delimiter::Brace => "{}"@,
        Delimiter::Bracket => "[]"@,
        Delimiter::Invisible => "INVIS"@,
    }
}

/// The message that an error shows.
pub open spec fn message_of(e: ErrorView) -> Seq<char> {
    match e {
        ErrorView::ExpectedDelimiter(d) => "expected `"@ + delimiter_text(d) + "`"@,
        ErrorView::ExpectedToken => "expected token"@,
        ErrorView::ExpectedComma => "expected `,`"@,
        ErrorView::ExpectedParameter => "expected one of: `name`, `arg(...)`"@,
        ErrorView::ExpectedInput => "expected input"@,
        ErrorView::ExpectedTestName => "expected test name"@,
        ErrorView::UnrecognizedArg => "unrecognized arg"@,
        ErrorView::DuplicateParameter => "duplicate parameter"@,
        ErrorView::ExpectedArguments => "expected attribute arguments in parentheses"@,
        ErrorView::InputCount { inputs, args } => "with(): "@ + decimal(inputs) + " fn inputs but only "@
            + decimal(args) + " args declared"@,
        ErrorView::InvalidParameter => "invalid parameter"@,
        ErrorView::NoCorrespondingInput => "no corresponding input"@,
        ErrorView::ExpectedIdentifier => "expected identifier"@,
        ErrorView::VerbatimNotInferred => "verbatim inputs must be tagged as `_`"@,
        ErrorView::Uninitialized(name) => "uninitialized value `"@ + name + "`"@,
    }
}

impl Error {
    /// The message of this error.
    pub fn message(&self) -> (r: String)
        ensures
            r@ == message_of(self@),
    {
        match self {
            Error::ExpectedDelimiter(d) => {
                let mut s = "expected `".to_string();
                match d {
                    Delimiter::Parenthesis => s.append("()"),
                    Delimiter::Brace => s.append("{}"),
                    Delimiter::Bracket => s.append("[]"),
                    Delimiter::Invisible => s.append("INVIS"),
                }
                s.append("`");
                s
            },
            Error::ExpectedToken => "expected token".to_string(),
            Error::ExpectedComma => "expected `,`".to_string(),
            Error::ExpectedParameter => "expected one of: `name`, `arg(...)`".to_string(),
            Error::ExpectedInput => "expected input".to_string(),
            Error::ExpectedTestName => "expected test name".to_string(),
            Error::UnrecognizedArg => "unrecognized arg".to_string(),
            Error::DuplicateParameter => "duplicate parameter".to_string(),
            Error::ExpectedArguments => "expected attribute arguments in parentheses".to_string(),
            Error::InputCount { inputs, args } => {
                let mut s = "with(): ".to_string();
                let a = decimal_text(*inputs);
                s.append(a.as_str());
                s.append(" fn inputs but only ");
                let b = decimal_text(*args);
                s.append(b.as_str());
                s.append(" args declared");
                s
            },
            Error::InvalidParameter => "invalid parameter".to_string(),
            Error::NoCorrespondingInput => "no corresponding input".to_string(),
            Error::ExpectedIdentifier => "expected identifier".to_string(),
            Error::VerbatimNotInferred => "verbatim inputs must be tagged as `_`".to_string(),
            Error::Uninitialized(name) => {
                let mut s = "uninitialized value `".to_string();
                s.append(name.as_str());
                s.append("`");
                s
            },
        }
    }
}

} // verus!
