//! `#[test_case]`: one function, one or more stacked invocations, one emitted
//! test function for each.
use vstd::prelude::*;

use crate::common::{attr_name, attribute_name_to_string, group_at, parse_group_with_delim};
use crate::error::{message_of, Error, ErrorView};
use crate::mutators::{Mutators, Ranked};
use crate::params::name::{named, ParamName};
use crate::params::with::{is_comma, parse_with, with_applied, with_tokens, ParamWith, WithExprView};
use crate::syntax::{
    attrs_view, copy_attr, copy_fn, fn_tokens, ident, ident_token, punct, push_token, render_fn,
    Attribute, AttributeView, FnView, ItemFn,
};
use crate::tokens::{tv, Delimiter, Token, TokenView};

verus! {

/// A parameter of `#[test_case(...)]`, in the order in which they apply.
#[derive(Clone, Debug, PartialEq, Eq)]
pub enum TestMutator {
    ParamName(ParamName),
    ParamWith(ParamWith),
}

impl Ranked for TestMutator {
    open spec fn kinds() -> nat {
        2
    }

    open spec fn spec_rank(&self) -> nat {
        match self {
            TestMutator::ParamName(_) => 0,
            TestMutator::ParamWith(_) => 1,
        }
    }

    fn kind_count() -> (r: usize) {
        2
    }

    fn rank(&self) -> (r: usize) {
        match self {
            TestMutator::ParamName(_) => 0,
            TestMutator::ParamWith(_) => 1,
        }
    }
}

/// What one invocation of `#[test_case]` asks for: an optional name and
/// optional `with(...)` arguments.
pub struct TestCaseView {
    pub name: Option<Seq<char>>,
    pub with: Option<Seq<WithExprView>>,
}

/// One parsed invocation of `#[test_case]`.
#[derive(Debug)]
pub struct TestCase(pub Mutators<TestMutator>);

impl View for TestCase {
    type V = TestCaseView;

    open spec fn view(&self) -> TestCaseView {
        TestCaseView {
            name: match self.0.slots@[0] {
                Some(TestMutator::ParamName(n)) => Some(n.0@),
                _ => None,
            },
            with: match self.0.slots@[1] {
                Some(TestMutator::ParamWith(w)) => Some(w@),
                _ => None,
            },
        }
    }
}

pub open spec fn no_params() -> TestCaseView {
    TestCaseView { name: None, with: None }
}

/// After a parameter ends at `next`: the end of input, or a comma and more.
pub open spec fn case_args_after(s: Seq<TokenView>, next: int, acc: TestCaseView) -> Result<
    TestCaseView,
    ErrorView,
>
    decreases s.len() - next, 0int,
{
    if next >= s.len() {
        Ok(acc)
    } else if next >= 0 && is_comma(s[next]) {
        case_args_from(s, next + 1, acc)
    } else {
        Err(ErrorView::ExpectedComma)
    }
}

/// The parameters from `k` on, added to those in `acc`. `with` takes a
/// parenthesised list; any other identifier is the test's name, unless a
/// parenthesised group follows it.
pub open spec fn case_args_from(s: Seq<TokenView>, k: int, acc: TestCaseView) -> Result<
    TestCaseView,
    ErrorView,
>
    decreases s.len() - k, 1int,
{
    if k < 0 || k >= s.len() {
        Ok(acc)
    } else {
        match s[k] {
            TokenView::Ident(n) => if n == "with"@ {
                match group_at(s, k + 1, Delimiter::Parenthesis) {
                    None => Err(ErrorView::ExpectedDelimiter(Delimiter::Parenthesis)),
                    Some((inner, next)) => match parse_with(inner) {
                        Err(e) => Err(e),
                        Ok(a) => if acc.with is Some {
                            Err(ErrorView::DuplicateParameter)
                        } else if next <= k || next > s.len() {
                            Err(ErrorView::ExpectedToken)
                        } else {
                            case_args_after(s, next, TestCaseView { with: Some(a), ..acc })
                        },
                    },
                }
            } else if k + 1 < s.len() && s[k + 1] == TokenView::Open(Delimiter::Parenthesis) {
                Err(ErrorView::UnrecognizedArg)
            } else if acc.name is Some {
                Err(ErrorView::DuplicateParameter)
            } else {
                case_args_after(s, k + 1, TestCaseView { name: Some(n), ..acc })
            },
            _ => Err(ErrorView::ExpectedParameter),
        }
    }
}

/// The invocation that the argument tokens of `#[test_case(...)]` describe.
pub open spec fn parse_case(s: Seq<TokenView>) -> Result<TestCaseView, ErrorView> {
    case_args_from(s, 0, no_params())
}

/// What an invocation makes of function `f`: first the name, then `with`.
pub open spec fn case_applied(c: TestCaseView, f: FnView) -> Result<FnView, ErrorView> {
    let g = match c.name {
        Some(n) => named(f, n),
        None => f,
    };
    match c.with {
        Some(a) => with_applied(g, a),
        None => Ok(g),
    }
}

impl TestMutator {
    /// Applies this parameter to `f`.
    pub fn mutate(&self, f: &mut ItemFn) -> (r: Result<(), Error>)
        ensures
            match self {
                TestMutator::ParamName(n) => r is Ok && final(f)@ == named(old(f)@, n.0@),
                TestMutator::ParamWith(w) => match with_applied(old(f)@, w@) {
                    Ok(g) => r is Ok && final(f)@ == g,
                    Err(e) => r matches Err(x) && x@ == e && final(f)@ == old(f)@,
                },
            },
    {
        match self {
            TestMutator::ParamName(n) => {
                n.mutate(f);
                Ok(())
            },
            TestMutator::ParamWith(w) => w.mutate(f),
        }
    }
}

impl TestMutator {
    /// Appends the tokens of this parameter: the name, or the `with` arguments.
    pub fn to_tokens(&self, out: &mut Vec<Token>)
        ensures
            tv(final(out)@) == tv(old(out)@) + match self {
                TestMutator::ParamName(n) => seq![ident(n.0@)],
                TestMutator::ParamWith(w) => with_tokens(w@),
            },
    {
        match self {
            TestMutator::ParamName(n) => push_token(out, Token::Ident(n.0.clone())),
            TestMutator::ParamWith(w) => w.to_tokens(out),
        }
    }
}

fn is_word(t: &Token, word: &str) -> (r: bool)
    ensures
        r == (t@ == TokenView::Ident(word@)),
{
    match t {
        Token::Ident(s) => *s == word.to_string(),
        _ => false,
    }
}

impl TestCase {
    /// The invocation with no parameters.
    pub fn empty() -> (r: TestCase)
        ensures
            r.0.wf(),
            r@ == no_params(),
    {
        TestCase(Mutators::new())
    }

    /// Parses the argument tokens of `#[test_case(...)]`.
    pub fn parse(s: &Vec<Token>) -> (r: Result<TestCase, Error>)
        ensures
            match parse_case(tv(s@)) {
                Ok(c) => r matches Ok(t) && t.0.wf() && t@ == c,
                Err(e) => r matches Err(x) && x@ == e,
            },
    {
        let ghost sv = tv(s@);
        let mut acc = TestCase::empty();
        let mut k: usize = 0;
        while k < s.len()
            invariant
                k <= s@.len(),
                sv == tv(s@),
                acc.0.wf(),
                parse_case(sv) == case_args_from(sv, k as int, acc@),
            decreases s@.len() - k,
        {
            assert(sv[k as int] == s@[k as int]@);
            let name = match &s[k] {
                Token::Ident(n) => n.clone(),
                _ => {
                    return Err(Error::ExpectedParameter);
                },
            };
            let ghost a0 = acc@;
            let next: usize;
            if is_word(&s[k], "with") {
                proof {
                    reveal_strlit("with");
                }
                let (inner, n) = match parse_group_with_delim(Delimiter::Parenthesis, s, k + 1) {
                    Ok(p) => p,
                    Err(e) => {
                        return Err(e);
                    },
                };
                let w = match ParamWith::parse(&inner) {
                    Ok(w) => w,
                    Err(e) => {
                        return Err(e);
                    },
                };
                let ghost wv = w@;
                assert(acc.0.slots@[1] is Some ==> acc.0.slots@[1]->0.spec_rank() == 1);
                match acc.0.insert_unique(TestMutator::ParamWith(w)) {
                    Ok(()) => {},
                    Err(e) => {
                        return Err(e);
                    },
                }
                assert(acc@ == TestCaseView { with: Some(wv), ..a0 });
                next = n;
            } else {
                proof {
                    reveal_strlit("with");
                }
                if k + 1 < s.len() {
                    assert(sv[k + 1] == s@[k + 1]@);
                    match &s[k + 1] {
                        Token::Open(Delimiter::Parenthesis) => {
                            return Err(Error::UnrecognizedArg);
                        },
                        _ => {},
                    }
                }
                let ghost nv = name@;
                assert(acc.0.slots@[0] is Some ==> acc.0.slots@[0]->0.spec_rank() == 0);
                match acc.0.insert_unique(TestMutator::ParamName(ParamName(name))) {
                    Ok(()) => {},
                    Err(e) => {
                        return Err(e);
                    },
                }
                assert(acc@ == TestCaseView { name: Some(nv), ..a0 });
                next = k + 1;
            }
            if next < s.len() {
                assert(sv[next as int] == s@[next as int]@);
                let comma = match &s[next] {
                    Token::Punct(c, _) => *c == ',',
                    _ => false,
                };
                if !comma {
                    return Err(Error::ExpectedComma);
                }
                k = next + 1;
            } else {
                k = next;
            }
        }
        Ok(acc)
    }
}

impl TestCase {
    /// Applies the parameters to `f` in rank order: the name, then `with`.
    pub fn mutate(&self, f: &mut ItemFn) -> (r: Result<(), Error>)
        requires
            self.0.wf(),
        ensures
            match case_applied(self@, old(f)@) {
                Ok(g) => r is Ok && final(f)@ == g,
                Err(e) => r matches Err(x) && x@ == e,
            },
    {
        assert(self.0.slots@[0] is Some ==> self.0.slots@[0]->0.spec_rank() == 0);
        assert(self.0.slots@[1] is Some ==> self.0.slots@[1]->0.spec_rank() == 1);
        match &self.0.slots[0] {
            Some(m) => {
                let _ = m.mutate(f);
            },
            None => {},
        }
        match &self.0.slots[1] {
            Some(m) => m.mutate(f),
            None => Ok(()),
        }
    }

    /// Whether `item` carries one of the attributes that mark a test:
    /// `test_case`, `test` or `wasm_bindgen_test`, by the last segment of the path.
    pub fn is_test(item: &ItemFn) -> (r: bool)
        ensures
            r == is_test_fn(item@),
    {
        let ghost av = item@.attrs;
        let mut i: usize = 0;
        while i < item.attrs.len()
            invariant
                i <= item.attrs@.len(),
                av == item@.attrs,
                forall|j: int| 0 <= j < i ==> !is_test_marker(#[trigger] av[j]),
            decreases item.attrs@.len() - i,
        {
            let n = attribute_name_to_string(&item.attrs[i]);
            assert(av[i as int] == item.attrs@[i as int]@);
            if n == "test_case".to_string() || n == "test".to_string() || n
                == "wasm_bindgen_test".to_string() {
                return true;
            }
            i = i + 1;
        }
        false
    }
}

/// Whether an attribute marks a test.
pub open spec fn is_test_marker(a: AttributeView) -> bool {
    attr_name(a) == "test_case"@ || attr_name(a) == "test"@ || attr_name(a) == "wasm_bindgen_test"@
}

/// Whether a function carries an attribute that marks a test.
pub open spec fn is_test_fn(f: FnView) -> bool {
    exists|i: int| 0 <= i < f.attrs.len() && is_test_marker(#[trigger] f.attrs[i])
}

/// The tokens that stand in for a failed expansion:
/// `::core::compile_error! { "message" }`.
pub open spec fn error_tokens(e: ErrorView) -> Seq<TokenView> {
    seq![
        TokenView::Punct(':', true),
        punct(':'),
        ident("core"@),
        TokenView::Punct(':', true),
        punct(':'),
        ident("compile_error"@),
        punct('!'),
        TokenView::Open(Delimiter::Brace),
        TokenView::Literal(seq!['"'] + message_of(e) + seq!['"']),
        TokenView::Close(Delimiter::Brace),
    ]
}

/// Appends the tokens that report `e`.
pub fn render_error(e: &Error, out: &mut Vec<Token>)
    ensures
        tv(final(out)@) == tv(old(out)@) + error_tokens(e@),
{
    let ghost start = tv(out@);
    let mut text = "\"".to_string();
    let m = e.message();
    text.append(m.as_str());
    text.append("\"");
    proof {
        reveal_strlit("\"");
        assert("\""@ =~= seq!['"']);
    }
    push_token(out, Token::Punct(':', true));
    push_token(out, Token::Punct(':', false));
    push_token(out, ident_token("core"));
    push_token(out, Token::Punct(':', true));
    push_token(out, Token::Punct(':', false));
    push_token(out, ident_token("compile_error"));
    push_token(out, Token::Punct('!', false));
    push_token(out, Token::Open(Delimiter::Brace));
    push_token(out, Token::Literal(text));
    push_token(out, Token::Close(Delimiter::Brace));
    assert(tv(out@) =~= start + error_tokens(e@));
}

/// The argument tokens of a stacked `#[test_case]`: none for a bare one,
/// the contents of `(...)` for a list, and otherwise an error.
pub open spec fn stacked_args(a: AttributeView) -> Result<Seq<TokenView>, ErrorView> {
    if a.rest.len() == 0 {
        Ok(Seq::empty())
    } else {
        match group_at(a.rest, 0, Delimiter::Parenthesis) {
            Some((inner, next)) => if next == a.rest.len() {
                Ok(inner)
            } else {
                Err(ErrorView::ExpectedArguments)
            },
            None => Err(ErrorView::ExpectedArguments),
        }
    }
}

/// Whether an attribute is a further invocation of `#[test_case]`.
pub open spec fn is_case_attr(a: AttributeView) -> bool {
    attr_name(a) == "test_case"@
}

/// The invocations among `attrs`, each parsed on its own, in order.
pub open spec fn stacked_cases(attrs: Seq<AttributeView>) -> Seq<Result<TestCaseView, ErrorView>>
    decreases attrs.len(),
{
    if attrs.len() == 0 {
        Seq::empty()
    } else {
        let rest = stacked_cases(attrs.drop_last());
        if is_case_attr(attrs.last()) {
            rest.push(
                match stacked_args(attrs.last()) {
                    Ok(t) => parse_case(t),
                    Err(e) => Err(e),
                },
            )
        } else {
            rest
        }
    }
}

/// The attributes that are not invocations of `#[test_case]`, in order.
pub open spec fn other_attrs(attrs: Seq<AttributeView>) -> Seq<AttributeView>
    decreases attrs.len(),
{
    if attrs.len() == 0 {
        Seq::empty()
    } else {
        let rest = other_attrs(attrs.drop_last());
        if is_case_attr(attrs.last()) {
            rest
        } else {
            rest.push(attrs.last())
        }
    }
}

/// `#[test]`, the marker of the host's test runner.
pub open spec fn test_attr() -> AttributeView {
    AttributeView { inner: false, path: seq!["test"@], rest: Seq::empty() }
}

/// The function that each invocation starts from: the function without its
/// `#[test_case]` attributes, marked `#[test]`.
pub open spec fn case_base(f: FnView) -> FnView {
    FnView { attrs: other_attrs(f.attrs).push(test_attr()), ..f }
}

/// What one invocation emits: its function, or the error in its place.
pub open spec fn case_output(c: Result<TestCaseView, ErrorView>, base: FnView) -> Seq<TokenView> {
    match c {
        Ok(cv) => match case_applied(cv, base) {
            Ok(g) => fn_tokens(g),
            Err(e) => error_tokens(e),
        },
        Err(e) => error_tokens(e),
    }
}

/// What the invocations `cs` emit, one after the other.
pub open spec fn case_outputs(cs: Seq<Result<TestCaseView, ErrorView>>, base: FnView) -> Seq<
    TokenView,
>
    decreases cs.len(),
{
    if cs.len() == 0 {
        Seq::empty()
    } else {
        case_outputs(cs.drop_last(), base) + case_output(cs.last(), base)
    }
}

/// The invocations that apply to `f`: `c`, then those stacked on `f`.
pub open spec fn all_cases(c: TestCaseView, f: FnView) -> Seq<Result<TestCaseView, ErrorView>> {
    seq![Ok(c)] + stacked_cases(f.attrs)
}

/// The expansion of `#[test_case]` with parameters `c` on function `f`.
pub open spec fn expanded_case(c: TestCaseView, f: FnView) -> Seq<TokenView> {
    case_outputs(all_cases(c, f), case_base(f))
}

/// Parses the arguments of a stacked `#[test_case]` attribute.
fn parse_stacked(a: &Attribute) -> (r: Result<TestCase, Error>)
    ensures
        match (match stacked_args(a@) {
            Ok(t) => parse_case(t),
            Err(e) => Err(e),
        }) {
            Ok(c) => r matches Ok(t) && t.0.wf() && t@ == c,
            Err(e) => r matches Err(x) && x@ == e,
        },
{
    if a.rest.len() == 0 {
        let empty: Vec<Token> = Vec::new();
        assert(tv(empty@) =~= Seq::<TokenView>::empty());
        return TestCase::parse(&empty);
    }
    match parse_group_with_delim(Delimiter::Parenthesis, &a.rest, 0) {
        Ok((inner, next)) => {
            if next == a.rest.len() {
                TestCase::parse(&inner)
            } else {
                Err(Error::ExpectedArguments)
            }
        },
        Err(_) => Err(Error::ExpectedArguments),
    }
}

pub open spec fn results_view(s: Seq<Result<TestCase, Error>>) -> Seq<Result<TestCaseView, ErrorView>> {
    s.map_values(
        |r: Result<TestCase, Error>|
            match r {
                Ok(c) => Ok(c@),
                Err(e) => Err(e@),
            },
    )
}

/// Expands `#[test_case]` with parameters `test_case` on `target`: one test
/// function for it and one for each further `#[test_case]` on `target`, each
/// made from a fresh copy of the function; an invocation that fails emits its
/// error in its place and the others are still emitted.
pub fn render_test_case(test_case: TestCase, target: ItemFn) -> (r: Vec<Token>)
    requires
        test_case.0.wf(),
    ensures
        tv(r@) == expanded_case(test_case@, target@),
{
    let ghost fv = target@;
    let mut cases: Vec<Result<TestCase, Error>> = Vec::new();
    let ghost c0 = test_case@;
    cases.push(Ok(test_case));
    assert(results_view(cases@) =~= seq![Ok(c0)]);
    let mut kept: Vec<Attribute> = Vec::new();
    let mut i: usize = 0;
    while i < target.attrs.len()
        invariant
            i <= target.attrs@.len(),
            fv == target@,
            forall|j: int| 0 <= j < cases@.len() ==> ((#[trigger] cases@[j]) matches Ok(c) ==> c.0.wf()),
            results_view(cases@) == seq![Ok(c0)] + stacked_cases(fv.attrs.subrange(0, i as int)),
            attrs_view(kept@) == other_attrs(fv.attrs.subrange(0, i as int)),
        decreases target.attrs@.len() - i,
    {
        let ghost q = fv.attrs.subrange(0, i + 1);
        assert(q.drop_last() =~= fv.attrs.subrange(0, i as int));
        assert(q.last() == target.attrs@[i as int]@);
        let name = attribute_name_to_string(&target.attrs[i]);
        if name == "test_case".to_string() {
            let parsed = parse_stacked(&target.attrs[i]);
            let ghost before = results_view(cases@);
            let ghost pv = match &parsed {
                Ok(c) => Ok::<TestCaseView, ErrorView>(c@),
                Err(e) => Err(e@),
            };
            cases.push(parsed);
            assert(results_view(cases@) =~= before.push(pv));
        } else {
            let a = copy_attr(&target.attrs[i]);
            let ghost before = attrs_view(kept@);
            kept.push(a);
            assert(attrs_view(kept@) =~= before.push(a@));
        }
        i = i + 1;
    }
    assert(fv.attrs.subrange(0, i as int) =~= fv.attrs);
    let marker = Attribute { inner: false, path: vec!["test".to_string()], rest: Vec::new() };
    assert(marker@.path =~= seq!["test"@]);
    assert(marker@.rest =~= Seq::<TokenView>::empty());
    let ghost kv = attrs_view(kept@);
    kept.push(marker);
    assert(attrs_view(kept@) =~= kv.push(test_attr()));
    let mut base = copy_fn(&target);
    base.attrs = kept;
    assert(base@ == case_base(fv));
    let ghost cs = results_view(cases@);
    let mut out: Vec<Token> = Vec::new();
    let mut k: usize = 0;
    while k < cases.len()
        invariant
            k <= cases@.len(),
            cs == results_view(cases@),
            base@ == case_base(fv),
            forall|j: int| 0 <= j < cases@.len() ==> ((#[trigger] cases@[j]) matches Ok(c) ==> c.0.wf()),
            tv(out@) == case_outputs(cs.subrange(0, k as int), base@),
        decreases cases@.len() - k,
    {
        let ghost q = cs.subrange(0, k + 1);
        assert(q.drop_last() =~= cs.subrange(0, k as int));
        assert(q.last() == cs[k as int]);
        match &cases[k] {
            Ok(c) => {
                let mut g = copy_fn(&base);
                match c.mutate(&mut g) {
                    Ok(()) => render_fn(&g, &mut out),
                    Err(e) => render_error(&e, &mut out),
                }
            },
            Err(e) => render_error(e, &mut out),
        }
        k = k + 1;
    }
    assert(cs.subrange(0, k as int) =~= cs);
    out
}

} // verus!
