use vstd::prelude::*;

use crate::common::{delta, group_at, parse_group_with_delim};
use crate::error::{Error, ErrorView};
use crate::syntax::{
    attrs_tokens, ident, ident_token, pattern_tokens, punct, push_token, render_attrs, render_pattern,
    inputs_view, stmts_view, FnInput, FnInputView, FnView, ItemFn, Pattern, PatternView,
};
use crate::tokens::{copy_tokens, extend_tokens, text_of, tokens_text, tv, Delimiter, Token, TokenView};

verus! {

/// Whether `src` is the text of exactly one Rust expression.
pub uninterp spec fn is_expression(src: Seq<char>) -> bool;

/// Relies on `syn::parse_str::<syn::Expr>`: it succeeds exactly when the whole
/// text is one expression.
#[verifier::external_body]
fn parses_as_expr(src: &str) -> (r: bool)
    ensures
        r == is_expression(src@),
{
    syn::parse_str::<syn::Expr>(src).is_ok()
}

/// One argument of `with(...)`.
#[derive(Clone, Debug, PartialEq, Eq)]
pub enum WithExpr {
    /// `[mut] expr`: the input is bound to the expression.
    Assignment { mutable: bool, expr: Vec<Token> },
    /// `verbatim(tokens)`: the input's name is replaced by the tokens.
    Verbatim(Vec<Token>),
}

pub enum WithExprView {
    Assignment { mutable: bool, expr: Seq<TokenView> },
    Verbatim(Seq<TokenView>),
}

impl View for WithExpr {
    type V = WithExprView;

    open spec fn view(&self) -> WithExprView {
        match self {
            WithExpr::Assignment { mutable, expr } => WithExprView::Assignment {
                mutable: *mutable,
                expr: tv(expr@),
            },
            WithExpr::Verbatim(t) => WithExprView::Verbatim(tv(t@)),
        }
    }
}

pub open spec fn with_view(s: Seq<WithExpr>) -> Seq<WithExprView> {
    s.map_values(|w: WithExpr| w@)
}

pub open spec fn is_comma(t: TokenView) -> bool {
    t matches TokenView::Punct(',', _)
}

/// Where the expression that starts at `start` ends, scanning from `e` at
/// nesting depth `d`: the first end that is followed by a top-level comma or
/// by the end of input and whose tokens form one expression.
pub open spec fn expr_end(s: Seq<TokenView>, start: int, e: int, d: int) -> Option<int>
    decreases s.len() - e,
{
    if e < start || e > s.len() {
        None
    } else if e == s.len() {
        if e > start && is_expression(text_of(s.subrange(start, e))) {
            Some(e)
        } else {
            None
        }
    } else if d == 0 && is_comma(s[e]) && e > start && is_expression(
        text_of(s.subrange(start, e)),
    ) {
        Some(e)
    } else {
        expr_end(s, start, e + 1, d + delta(s[e]))
    }
}

pub open spec fn verbatim_word() -> Seq<char> {
    seq!['v', 'e', 'r', 'b', 'a', 't', 'i', 'm']
}

pub open spec fn mut_word() -> Seq<char> {
    seq!['m', 'u', 't']
}

/// The argument that starts at `k`, and the position after it.
pub open spec fn with_expr_at(s: Seq<TokenView>, k: int) -> Result<(WithExprView, int), ErrorView> {
    if k < 0 || k >= s.len() {
        Err(ErrorView::ExpectedToken)
    } else if s[k] == TokenView::Ident(verbatim_word()) {
        match group_at(s, k + 1, Delimiter::Parenthesis) {
            Some((inner, next)) => Ok((WithExprView::Verbatim(inner), next)),
            None => Err(ErrorView::ExpectedDelimiter(Delimiter::Parenthesis)),
        }
    } else {
        assignment_at(s, k)
    }
}

/// The assignment `[mut] expr` that starts at `k`, and the position after it.
pub open spec fn assignment_at(s: Seq<TokenView>, k: int) -> Result<(WithExprView, int), ErrorView> {
    let m = 0 <= k < s.len() && s[k] == TokenView::Ident(mut_word());
    let start = if m {
        k + 1
    } else {
        k
    };
    match expr_end(s, start, start, 0) {
        Some(e) => Ok((WithExprView::Assignment { mutable: m, expr: s.subrange(start, e) }, e)),
        None => Err(ErrorView::ExpectedInput),
    }
}

/// One or more arguments from `k` on, separated by commas.
pub open spec fn with_exprs_from(s: Seq<TokenView>, k: int) -> Result<Seq<WithExprView>, ErrorView>
    decreases s.len() - k,
{
    match with_expr_at(s, k) {
        Err(e) => Err(e),
        Ok((x, n)) => if n <= k {
            Err(ErrorView::ExpectedToken)
        } else if n >= s.len() {
            Ok(seq![x])
        } else if is_comma(s[n]) {
            match with_exprs_from(s, n + 1) {
                Ok(xs) => Ok(seq![x] + xs),
                Err(e) => Err(e),
            }
        } else {
            Err(ErrorView::ExpectedComma)
        },
    }
}

/// The arguments of `with(...)`, given the tokens inside the parentheses.
pub open spec fn parse_with(s: Seq<TokenView>) -> Result<Seq<WithExprView>, ErrorView> {
    if s.len() == 0 {
        Ok(Seq::empty())
    } else {
        with_exprs_from(s, 0)
    }
}

/// Finds where the expression that starts at `start` ends.
fn find_expr_end(s: &Vec<Token>, start: usize) -> (r: Option<usize>)
    requires
        start <= s@.len(),
    ensures
        r matches Some(e) ==> expr_end(tv(s@), start as int, start as int, 0) == Some(e as int),
        r is None ==> expr_end(tv(s@), start as int, start as int, 0) is None,
        r matches Some(e) ==> start < e <= s@.len(),
{
    let ghost sv = tv(s@);
    let mut e: usize = start;
    let mut opens: usize = 0;
    let mut closes: usize = 0;
    while e < s.len()
        invariant
            start <= e <= s@.len(),
            sv == tv(s@),
            opens <= e,
            closes <= e,
            expr_end(sv, start as int, start as int, 0) == expr_end(
                sv,
                start as int,
                e as int,
                opens - closes,
            ),
        decreases s@.len() - e,
    {
        assert(sv[e as int] == s@[e as int]@);
        let comma = match &s[e] {
            Token::Punct(c, _) => *c == ',',
            _ => false,
        };
        if opens == closes && comma && e > start {
            let text = tokens_text(s, start, e);
            assert(tv(s@.subrange(start as int, e as int)) =~= sv.subrange(start as int, e as int));
            if parses_as_expr(text.as_str()) {
                return Some(e);
            }
        }
        match &s[e] {
            Token::Open(_) => {
                opens = opens + 1;
            },
            Token::Close(_) => {
                closes = closes + 1;
            },
            _ => {},
        }
        e = e + 1;
    }
    if e > start {
        let text = tokens_text(s, start, e);
        assert(tv(s@.subrange(start as int, e as int)) =~= sv.subrange(start as int, e as int));
        if parses_as_expr(text.as_str()) {
            return Some(e);
        }
    }
    None
}

fn is_ident(t: &Token, word: &str) -> (r: bool)
    ensures
        r == (t@ == TokenView::Ident(word@)),
{
    match t {
        Token::Ident(s) => *s == word.to_string(),
        _ => false,
    }
}

/// Parses the argument of `with(...)` that starts at `k`.
pub fn parse_with_expr(s: &Vec<Token>, k: usize) -> (r: Result<(WithExpr, usize), Error>)
    ensures
        match with_expr_at(tv(s@), k as int) {
            Ok((x, n)) => r matches Ok((w, m)) && w@ == x && m == n,
            Err(e) => r matches Err(f) && f@ == e,
        },
{
    let ghost sv = tv(s@);
    proof {
        reveal_strlit("verbatim");
        reveal_strlit("mut");
        assert("verbatim"@ =~= verbatim_word());
        assert("mut"@ =~= mut_word());
    }
    if k >= s.len() {
        return Err(Error::ExpectedToken);
    }
    assert(sv[k as int] == s@[k as int]@);
    if is_ident(&s[k], "verbatim") {
        match parse_group_with_delim(Delimiter::Parenthesis, s, k + 1) {
            Ok((inner, next)) => Ok((WithExpr::Verbatim(inner), next)),
            Err(e) => Err(e),
        }
    } else {
        parse_assignment(s, k)
    }
}

/// Parses the assignment `[mut] expr` that starts at `k`: an optional `mut`,
/// then the fewest tokens up to a top-level comma or the end that form one
/// expression; `ExpectedInput` where there are none.
pub fn parse_assignment(s: &Vec<Token>, k: usize) -> (r: Result<(WithExpr, usize), Error>)
    requires
        k <= s@.len(),
    ensures
        match assignment_at(tv(s@), k as int) {
            Ok((x, n)) => r matches Ok((w, m)) && w@ == x && m == n,
            Err(e) => r matches Err(f) && f@ == e,
        },
{
    let ghost sv = tv(s@);
    proof {
        reveal_strlit("mut");
        assert("mut"@ =~= mut_word());
    }
    let m = k < s.len() && is_ident(&s[k], "mut");
    if k < s.len() {
        assert(sv[k as int] == s@[k as int]@);
    }
    let start = if m {
        k + 1
    } else {
        k
    };
    match find_expr_end(s, start) {
        Some(e) => {
            let mut expr: Vec<Token> = Vec::new();
            let mut i: usize = start;
            while i < e
                invariant
                    start <= i <= e <= s@.len(),
                    sv == tv(s@),
                    tv(expr@) == sv.subrange(start as int, i as int),
                decreases e - i,
            {
                let t = s[i].copy();
                proof {
                    crate::tokens::lemma_tv_push(expr@, t);
                }
                expr.push(t);
                i = i + 1;
                assert(tv(expr@) =~= sv.subrange(start as int, i as int));
            }
            Ok((WithExpr::Assignment { mutable: m, expr }, e))
        },
        None => Err(Error::ExpectedInput),
    }
}

/// Parses the arguments of `with(...)` from the tokens inside its parentheses:
/// arguments separated by commas, none for empty input. A comma with nothing
/// after it is an error of the argument parser.
pub fn greedy_parse_with_delim(s: &Vec<Token>) -> (r: Result<Vec<WithExpr>, Error>)
    ensures
        match parse_with(tv(s@)) {
            Ok(xs) => r matches Ok(v) && with_view(v@) == xs,
            Err(e) => r matches Err(f) && f@ == e,
        },
{
    let ghost sv = tv(s@);
    let mut out: Vec<WithExpr> = Vec::new();
    if s.len() == 0 {
        assert(with_view(out@) =~= Seq::<WithExprView>::empty());
        return Ok(out);
    }
    let mut k: usize = 0;
    while true
        invariant
            k < s@.len(),
            sv == tv(s@),
            parse_with(sv) == match with_exprs_from(sv, k as int) {
                Ok(xs) => Ok(with_view(out@) + xs),
                Err(e) => Err::<Seq<WithExprView>, ErrorView>(e),
            },
        decreases s@.len() - k,
    {
        let (x, n) = match parse_with_expr(s, k) {
            Ok(p) => p,
            Err(e) => {
                return Err(e);
            },
        };
        if n <= k {
            return Err(Error::ExpectedToken);
        }
        let ghost xv = x@;
        let ghost before = with_view(out@);
        proof {
            assert(with_view(out@.push(x)) =~= with_view(out@).push(xv));
        }
        out.push(x);
        if n >= s.len() {
            assert(with_view(out@) =~= with_view(out@).subrange(0, out@.len() - 1) + seq![xv]);
            return Ok(out);
        }
        assert(sv[n as int] == s@[n as int]@);
        let comma = match &s[n] {
            Token::Punct(c, _) => *c == ',',
            _ => false,
        };
        if !comma {
            return Err(Error::ExpectedComma);
        }
        if n + 1 >= s.len() {
            return Err(Error::ExpectedToken);
        }
        assert(is_comma(sv[n as int]));
        assert(with_exprs_from(sv, k as int) == match with_exprs_from(sv, n + 1) {
            Ok(ys) => Ok(seq![xv] + ys),
            Err(e) => Err::<Seq<WithExprView>, ErrorView>(e),
        });
        proof {
            assert(with_view(out@) == before.push(xv));
            match with_exprs_from(sv, n + 1) {
                Ok(ys) => {
                    assert(before + (seq![xv] + ys) =~= before.push(xv) + ys);
                },
                Err(_) => {},
            }
        }
        k = n + 1;
    }
    Err(Error::ExpectedToken)
}

/// Why input `i` cannot take argument `a`, if it cannot.
pub open spec fn input_check(i: FnInputView, a: WithExprView) -> Option<ErrorView> {
    match i {
        FnInputView::Receiver(_) => Some(ErrorView::InvalidParameter),
        FnInputView::Typed { pat, ty, .. } => match a {
            WithExprView::Assignment { .. } => if pat is Ident {
                None
            } else {
                Some(ErrorView::ExpectedIdentifier)
            },
            WithExprView::Verbatim(_) => if pat is Ident && ty == seq![ident(seq!['_'])] {
                None
            } else {
                Some(ErrorView::VerbatimNotInferred)
            },
        },
    }
}

/// The first input, from `k` on, that cannot take its argument, and why.
pub open spec fn first_input_error(
    inputs: Seq<FnInputView>,
    args: Seq<WithExprView>,
    k: int,
) -> Option<ErrorView>
    decreases inputs.len() - k,
{
    if k < 0 || k >= inputs.len() {
        None
    } else {
        match input_check(inputs[k], args[k]) {
            Some(e) => Some(e),
            None => first_input_error(inputs, args, k + 1),
        }
    }
}

/// The statement `attrs let [ref] [mut] name: ty = expr;` that binds input `i`
/// to assignment `a`; `mut` where the input or the argument has it.
pub open spec fn binding(i: FnInputView, a: WithExprView) -> Seq<TokenView> {
    match (i, a) {
        (
            FnInputView::Typed { attrs, pat: PatternView::Ident { by_ref, mutable, name }, ty },
            WithExprView::Assignment { mutable: m, expr },
        ) => attrs_tokens(attrs) + seq![ident(seq!['l', 'e', 't'])] + pattern_tokens(
            PatternView::Ident { by_ref, mutable: mutable || m, name },
        ) + seq![punct(':')] + ty + seq![punct('=')] + expr + seq![punct(';')],
        _ => Seq::empty(),
    }
}

/// The bindings of the assignment arguments, in the order of the inputs.
pub open spec fn bindings(inputs: Seq<FnInputView>, args: Seq<WithExprView>) -> Seq<Seq<TokenView>>
    decreases inputs.len(),
{
    if inputs.len() == 0 {
        Seq::empty()
    } else {
        let rest = bindings(inputs.drop_last(), args.subrange(0, inputs.len() - 1));
        if args[inputs.len() - 1] is Assignment {
            rest.push(binding(inputs.last(), args[inputs.len() - 1]))
        } else {
            rest
        }
    }
}

/// `s` with each identifier token spelled `name` replaced by the tokens `sub`.
pub open spec fn replace_tokens(s: Seq<TokenView>, name: Seq<char>, sub: Seq<TokenView>) -> Seq<
    TokenView,
>
    decreases s.len(),
{
    if s.len() == 0 {
        Seq::empty()
    } else {
        replace_tokens(s.drop_last(), name, sub) + if s.last() == TokenView::Ident(name) {
            sub
        } else {
            seq![s.last()]
        }
    }
}

/// The name that an input binds.
pub open spec fn input_name(i: FnInputView) -> Seq<char> {
    match i {
        FnInputView::Typed { pat: PatternView::Ident { name, .. }, .. } => name,
        _ => Seq::empty(),
    }
}

/// `body` with every verbatim argument substituted for its input's name, in
/// the order of the inputs.
pub open spec fn substituted(
    body: Seq<Seq<TokenView>>,
    inputs: Seq<FnInputView>,
    args: Seq<WithExprView>,
) -> Seq<Seq<TokenView>>
    decreases inputs.len(),
{
    if inputs.len() == 0 {
        body
    } else {
        let b = substituted(body, inputs.drop_last(), args.subrange(0, inputs.len() - 1));
        match args[inputs.len() - 1] {
            WithExprView::Verbatim(t) => b.map_values(
                |st: Seq<TokenView>| replace_tokens(st, input_name(inputs.last()), t),
            ),
            _ => b,
        }
    }
}

/// What `with(args)` makes of function `f`: each input is taken, in order, by
/// the argument at its position. An assignment becomes a binding at the top of
/// the body, in the order of the inputs; a verbatim argument is substituted
/// for the input's name throughout the body, bindings included.
pub open spec fn with_applied(f: FnView, args: Seq<WithExprView>) -> Result<FnView, ErrorView> {
    if args.len() != f.inputs.len() {
        Err(ErrorView::InputCount { inputs: f.inputs.len(), args: args.len() })
    } else {
        match first_input_error(f.inputs, args, 0) {
            Some(e) => Err(e),
            None => Ok(
                FnView {
                    inputs: Seq::empty(),
                    body: substituted(bindings(f.inputs, args) + f.body, f.inputs, args),
                    ..f
                },
            ),
        }
    }
}

/// Replaces each identifier spelled `name` in `s` by the tokens `sub`.
pub fn replace_ident(s: &Vec<Token>, name: &String, sub: &Vec<Token>) -> (r: Vec<Token>)
    ensures
        tv(r@) == replace_tokens(tv(s@), name@, tv(sub@)),
{
    let mut out: Vec<Token> = Vec::new();
    let mut i: usize = 0;
    while i < s.len()
        invariant
            i <= s@.len(),
            tv(out@) == replace_tokens(tv(s@.subrange(0, i as int)), name@, tv(sub@)),
        decreases s@.len() - i,
    {
        let hit = match &s[i] {
            Token::Ident(x) => *x == *name,
            _ => false,
        };
        if hit {
            extend_tokens(&mut out, sub);
        } else {
            push_token(&mut out, s[i].copy());
        }
        proof {
            let q = tv(s@.subrange(0, i + 1));
            assert(q.drop_last() =~= tv(s@.subrange(0, i as int)));
            assert(q.last() == s@[i as int]@);
            assert(tv(out@) =~= replace_tokens(q, name@, tv(sub@)));
        }
        i = i + 1;
    }
    assert(s@.subrange(0, i as int) =~= s@);
    out
}

fn is_infer(ty: &Vec<Token>) -> (r: bool)
    ensures
        r == (tv(ty@) == seq![ident(seq!['_'])]),
{
    proof {
        reveal_strlit("_");
        assert("_"@ =~= seq!['_']);
    }
    if ty.len() != 1 {
        assert(tv(ty@).len() != 1);
        return false;
    }
    let r = is_ident(&ty[0], "_");
    assert(tv(ty@)[0] == ty@[0]@);
    if r {
        assert(tv(ty@) =~= seq![ident(seq!['_'])]);
    } else {
        assert(tv(ty@)[0] != seq![ident(seq!['_'])][0]);
    }
    r
}

fn check_input(i: &FnInput, a: &WithExpr) -> (r: Option<Error>)
    ensures
        match input_check(i@, a@) {
            Some(e) => r matches Some(x) && x@ == e,
            None => r is None,
        },
{
    let (_, pat, ty) = match crate::params::split_rust_fn_input(Some(i)) {
        Ok(parts) => parts,
        Err(e) => {
            return Some(e);
        },
    };
    let named = match pat {
        Pattern::Ident { .. } => true,
        Pattern::Other(_) => false,
    };
    match a {
        WithExpr::Assignment { .. } => if named {
            None
        } else {
            Some(Error::ExpectedIdentifier)
        },
        WithExpr::Verbatim(_) => if named && is_infer(ty) {
            None
        } else {
            Some(Error::VerbatimNotInferred)
        },
    }
}

fn binding_stmt(i: &FnInput, a: &WithExpr) -> (r: Vec<Token>)
    ensures
        tv(r@) == binding(i@, a@),
{
    let mut out: Vec<Token> = Vec::new();
    match (i, a) {
        (
            FnInput::Typed { attrs, pat: Pattern::Ident { by_ref, mutable, name }, ty },
            WithExpr::Assignment { mutable: m, expr },
        ) => {
            render_attrs(attrs, &mut out);
            push_token(&mut out, ident_token("let"));
            let p = Pattern::Ident { by_ref: *by_ref, mutable: *mutable || *m, name: name.clone() };
            render_pattern(&p, &mut out);
            push_token(&mut out, Token::Punct(':', false));
            extend_tokens(&mut out, ty);
            push_token(&mut out, Token::Punct('=', false));
            extend_tokens(&mut out, expr);
            push_token(&mut out, Token::Punct(';', false));
            proof {
                reveal_strlit("let");
                assert("let"@ =~= seq!['l', 'e', 't']);
            }
            assert(tv(out@) =~= binding(i@, a@));
        },
        _ => {
            assert(tv(out@) =~= binding(i@, a@));
        },
    }
    out
}

/// The tokens of an argument as written, without `verbatim(...)` around
/// verbatim tokens.
pub open spec fn with_expr_tokens(w: WithExprView) -> Seq<TokenView> {
    match w {
        WithExprView::Assignment { mutable, expr } => (if mutable {
            seq![ident(mut_word())]
        } else {
            Seq::empty()
        }) + expr,
        WithExprView::Verbatim(t) => t,
    }
}

/// The tokens of the arguments, one after the other.
pub open spec fn with_tokens(args: Seq<WithExprView>) -> Seq<TokenView>
    decreases args.len(),
{
    if args.len() == 0 {
        Seq::empty()
    } else {
        with_tokens(args.drop_last()) + with_expr_tokens(args.last())
    }
}

impl WithExpr {
    /// Appends the tokens of this argument.
    pub fn to_tokens(&self, out: &mut Vec<Token>)
        ensures
            tv(final(out)@) == tv(old(out)@) + with_expr_tokens(self@),
    {
        let ghost start = tv(out@);
        match self {
            WithExpr::Assignment { mutable, expr } => {
                if *mutable {
                    push_token(out, ident_token("mut"));
                }
                extend_tokens(out, expr);
                proof {
                    reveal_strlit("mut");
                    assert("mut"@ =~= mut_word());
                }
                assert(tv(out@) =~= start + with_expr_tokens(self@));
            },
            WithExpr::Verbatim(t) => extend_tokens(out, t),
        }
    }
}

/// `with(args)`: gives a test function's inputs their values.
#[derive(Clone, Debug, PartialEq, Eq)]
pub struct ParamWith(pub Vec<WithExpr>);

impl View for ParamWith {
    type V = Seq<WithExprView>;

    open spec fn view(&self) -> Seq<WithExprView> {
        with_view(self.0@)
    }
}

impl ParamWith {
    /// Parses the tokens inside the parentheses of `with(...)`.
    pub fn parse(s: &Vec<Token>) -> (r: Result<ParamWith, Error>)
        ensures
            match parse_with(tv(s@)) {
                Ok(xs) => r matches Ok(p) && p@ == xs,
                Err(e) => r matches Err(f) && f@ == e,
            },
    {
        match greedy_parse_with_delim(s) {
            Ok(v) => Ok(ParamWith(v)),
            Err(e) => Err(e),
        }
    }

    /// Appends the tokens of the arguments.
    pub fn to_tokens(&self, out: &mut Vec<Token>)
        ensures
            tv(final(out)@) == tv(old(out)@) + with_tokens(self@),
    {
        let ghost start = tv(out@);
        let mut i: usize = 0;
        while i < self.0.len()
            invariant
                i <= self.0@.len(),
                tv(out@) == start + with_tokens(with_view(self.0@).subrange(0, i as int)),
            decreases self.0@.len() - i,
        {
            self.0[i].to_tokens(out);
            proof {
                let q = with_view(self.0@).subrange(0, i + 1);
                assert(q.drop_last() =~= with_view(self.0@).subrange(0, i as int));
                assert(q.last() == self.0@[i as int]@);
                assert(tv(out@) =~= start + with_tokens(q));
            }
            i = i + 1;
        }
        assert(with_view(self.0@).subrange(0, i as int) =~= self@);
    }

    /// Applies the arguments to `f`'s inputs; on an error `f` is left as it was.
    pub fn mutate(&self, f: &mut ItemFn) -> (r: Result<(), Error>)
        ensures
            match with_applied(old(f)@, self@) {
                Ok(g) => r is Ok && final(f)@ == g,
                Err(e) => r matches Err(x) && x@ == e && final(f)@ == old(f)@,
            },
    {
        let ghost iv = inputs_view_of(f);
        let ghost av = self@;
        let n = f.inputs.len();
        if self.0.len() != n {
            return Err(Error::InputCount { inputs: n, args: self.0.len() });
        }
        let mut k: usize = 0;
        while k < n
            invariant
                k <= n == f.inputs@.len() == self.0@.len(),
                iv == inputs_view_of(f),
                av == self@,
                first_input_error(iv, av, 0) == first_input_error(iv, av, k as int),
                forall|j: int| 0 <= j < k ==> (#[trigger] input_check(iv[j], av[j])) is None,
            decreases n - k,
        {
            assert(iv[k as int] == f.inputs@[k as int]@);
            assert(av[k as int] == self.0@[k as int]@);
            match check_input(&f.inputs[k], &self.0[k]) {
                Some(e) => {
                    return Err(e);
                },
                None => {},
            }
            k = k + 1;
        }
        let mut body: Vec<Vec<Token>> = Vec::new();
        k = 0;
        while k < n
            invariant
                k <= n == f.inputs@.len() == self.0@.len(),
                iv == inputs_view_of(f),
                av == self@,
                stmts_view(body@) == bindings(iv.subrange(0, k as int), av.subrange(0, k as int)),
            decreases n - k,
        {
            let ghost before = stmts_view(body@);
            assert(iv[k as int] == f.inputs@[k as int]@);
            assert(av[k as int] == self.0@[k as int]@);
            let assign = match &self.0[k] {
                WithExpr::Assignment { .. } => true,
                WithExpr::Verbatim(_) => false,
            };
            if assign {
                let st = binding_stmt(&f.inputs[k], &self.0[k]);
                body.push(st);
                assert(stmts_view(body@) =~= before.push(tv(st@)));
            }
            proof {
                let q = iv.subrange(0, k + 1);
                assert(q.drop_last() =~= iv.subrange(0, k as int));
                assert(av.subrange(0, k + 1).subrange(0, k as int) =~= av.subrange(0, k as int));
            }
            k = k + 1;
        }
        assert(iv.subrange(0, n as int) =~= iv);
        assert(av.subrange(0, n as int) =~= av);
        let ghost bound = stmts_view(body@);
        let mut j: usize = 0;
        while j < f.body.len()
            invariant
                j <= f.body@.len(),
                stmts_view(body@) == bound + stmts_view(f.body@).subrange(0, j as int),
            decreases f.body@.len() - j,
        {
            let st = copy_tokens(&f.body[j]);
            let ghost before = stmts_view(body@);
            body.push(st);
            assert(stmts_view(body@) =~= before.push(tv(st@)));
            j = j + 1;
            assert(stmts_view(body@) =~= bound + stmts_view(f.body@).subrange(0, j as int));
        }
        let ghost full = bound + stmts_view(f.body@);
        assert(stmts_view(body@) =~= full);
        k = 0;
        while k < n
            invariant
                k <= n == f.inputs@.len() == self.0@.len(),
                iv == inputs_view_of(f),
                av == self@,
                forall|j: int| 0 <= j < n ==> (#[trigger] input_check(iv[j], av[j])) is None,
                stmts_view(body@) == substituted(full, iv.subrange(0, k as int), av.subrange(0, k as int)),
            decreases n - k,
        {
            let ghost before = stmts_view(body@);
            assert(iv[k as int] == f.inputs@[k as int]@);
            assert(av[k as int] == self.0@[k as int]@);
            assert(input_check(iv[k as int], av[k as int]) is None);
            proof {
                let q = iv.subrange(0, k + 1);
                assert(q.drop_last() =~= iv.subrange(0, k as int));
                assert(av.subrange(0, k + 1).subrange(0, k as int) =~= av.subrange(0, k as int));
            }
            match (&f.inputs[k], &self.0[k]) {
                (FnInput::Typed { pat: Pattern::Ident { name, .. }, .. }, WithExpr::Verbatim(t)) => {
                    let mut next: Vec<Vec<Token>> = Vec::new();
                    let mut j: usize = 0;
                    while j < body.len()
                        invariant
                            j <= body@.len(),
                            stmts_view(body@) == before,
                            stmts_view(next@) == before.subrange(0, j as int).map_values(
                                |st: Seq<TokenView>| replace_tokens(st, name@, tv(t@)),
                            ),
                        decreases body@.len() - j,
                    {
                        let st = replace_ident(&body[j], name, t);
                        let ghost prev = stmts_view(next@);
                        next.push(st);
                        assert(stmts_view(next@) =~= prev.push(tv(st@)));
                        assert(before[j as int] == tv(body@[j as int]@));
                        j = j + 1;
                        assert(stmts_view(next@) =~= before.subrange(0, j as int).map_values(
                            |st: Seq<TokenView>| replace_tokens(st, name@, tv(t@)),
                        ));
                    }
                    assert(before.subrange(0, j as int) =~= before);
                    body = next;
                },
                _ => {},
            }
            k = k + 1;
        }
        f.body = body;
        f.inputs = Vec::new();
        assert(inputs_view(f.inputs@) =~= Seq::<FnInputView>::empty());
        Ok(())
    }
}

/// The view of a function's inputs.
pub open spec fn inputs_view_of(f: &ItemFn) -> Seq<FnInputView> {
    inputs_view(f.inputs@)
}

} // verus!
