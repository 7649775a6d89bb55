use vstd::prelude::*;

use crate::common::{has_attr, has_attribute};
use crate::error::{Error, ErrorView};
use crate::syntax::{
    concat, ident, ident_token, punct, push_token, render_stmts, stmts_view, ItemFn, ItemStatic,
    StaticView,
};
use crate::tokens::{tv, Delimiter, Token, TokenView};

verus! {

/// The statements of a suite's `init` function: they run once, before the
/// first test that needs them, and set the suite's statics declared `= init`.
#[derive(Clone, Debug, PartialEq, Eq)]
pub struct ParamInit(pub Vec<Vec<Token>>);

/// `::` as two tokens.
pub open spec fn path_sep() -> Seq<TokenView> {
    seq![TokenView::Punct(':', true), punct(':')]
}

/// `unsafe { core::mem::MaybeUninit::uninit().assume_init() }`
pub open spec fn uninit_expr() -> Seq<TokenView> {
    seq![ident("unsafe"@), TokenView::Open(Delimiter::Brace), ident("core"@)] + path_sep() + seq![
        ident("mem"@),
    ] + path_sep() + seq![ident("MaybeUninit"@)] + path_sep() + seq![
        ident("uninit"@),
        TokenView::Open(Delimiter::Parenthesis),
        TokenView::Close(Delimiter::Parenthesis),
        punct('.'),
        ident("assume_init"@),
        TokenView::Open(Delimiter::Parenthesis),
        TokenView::Close(Delimiter::Parenthesis),
        TokenView::Close(Delimiter::Brace),
    ]
}

/// `INIT.call_once(__INIT);`: runs the init statements if no test has yet.
pub open spec fn guard_stmt() -> Seq<TokenView> {
    seq![
        ident("INIT"@),
        punct('.'),
        ident("call_once"@),
        TokenView::Open(Delimiter::Parenthesis),
        ident("__INIT"@),
        TokenView::Close(Delimiter::Parenthesis),
        punct(';'),
    ]
}

/// `std::sync::Once`
pub open spec fn once_path() -> Seq<TokenView> {
    seq![ident("std"@)] + path_sep() + seq![ident("sync"@)] + path_sep() + seq![ident("Once"@)]
}

/// The items that hold the init statements:
/// `static INIT: std::sync::Once = std::sync::Once::new(); fn __INIT() { unsafe { stmts } }`
pub open spec fn init_prelude(stmts: Seq<Seq<TokenView>>) -> Seq<TokenView> {
    seq![ident("static"@), ident("INIT"@), punct(':')] + once_path() + seq![punct('=')] + once_path()
        + path_sep() + seq![
        ident("new"@),
        TokenView::Open(Delimiter::Parenthesis),
        TokenView::Close(Delimiter::Parenthesis),
        punct(';'),
        ident("fn"@),
        ident("__INIT"@),
        TokenView::Open(Delimiter::Parenthesis),
        TokenView::Close(Delimiter::Parenthesis),
        TokenView::Open(Delimiter::Brace),
        ident("unsafe"@),
        TokenView::Open(Delimiter::Brace),
    ] + concat(stmts) + seq![TokenView::Close(Delimiter::Brace), TokenView::Close(Delimiter::Brace)]
}

/// Whether statement `st` assigns to `name`: it begins `name = `.
pub open spec fn assigns(st: Seq<TokenView>, name: Seq<char>) -> bool {
    st.len() >= 2 && st[0] == ident(name) && st[1] == punct('=')
}

/// Whether one of `stmts` assigns to `name`.
pub open spec fn assigned(stmts: Seq<Seq<TokenView>>, name: Seq<char>) -> bool {
    exists|i: int| 0 <= i < stmts.len() && assigns(#[trigger] stmts[i], name)
}

/// Whether a static is one that `init` sets: its value is the bare word `init`.
pub open spec fn is_init_static(s: StaticView) -> bool {
    s.expr == seq![ident("init"@)]
}

/// What `init` makes of static `s`: one it sets becomes `static mut` with an
/// uninitialised value, provided the init statements assign it.
pub open spec fn init_static_applied(stmts: Seq<Seq<TokenView>>, s: StaticView) -> Result<
    StaticView,
    ErrorView,
> {
    if !is_init_static(s) {
        Ok(s)
    } else if assigned(stmts, s.name) {
        Ok(StaticView { mutable: true, expr: uninit_expr(), ..s })
    } else {
        Err(ErrorView::Uninitialized(s.name))
    }
}

/// A copy of a list of statements.
pub fn copy_stmts(s: &Vec<Vec<Token>>) -> (r: Vec<Vec<Token>>)
    ensures
        stmts_view(r@) == stmts_view(s@),
{
    let mut out: Vec<Vec<Token>> = Vec::new();
    crate::syntax::extend_stmts(&mut out, s);
    assert(stmts_view(out@) =~= stmts_view(s@));
    out
}

fn push_path_sep(out: &mut Vec<Token>)
    ensures
        tv(final(out)@) == tv(old(out)@) + path_sep(),
{
    let ghost start = tv(out@);
    push_token(out, Token::Punct(':', true));
    push_token(out, Token::Punct(':', false));
    assert(tv(out@) =~= start + path_sep());
}

fn push_once_path(out: &mut Vec<Token>)
    ensures
        tv(final(out)@) == tv(old(out)@) + once_path(),
{
    let ghost start = tv(out@);
    push_token(out, ident_token("std"));
    push_path_sep(out);
    push_token(out, ident_token("sync"));
    push_path_sep(out);
    push_token(out, ident_token("Once"));
    assert(tv(out@) =~= start + once_path());
}

/// Whether statement `st` assigns to `name`.
fn stmt_assigns(st: &Vec<Token>, name: &String) -> (r: bool)
    ensures
        r == assigns(tv(st@), name@),
{
    if st.len() < 2 {
        return false;
    }
    let first = match &st[0] {
        Token::Ident(n) => *n == *name,
        _ => false,
    };
    let second = match &st[1] {
        Token::Punct(c, j) => *c == '=' && !*j,
        _ => false,
    };
    assert(tv(st@)[0] == st@[0]@ && tv(st@)[1] == st@[1]@);
    first && second
}

impl ParamInit {
    /// Whether `item` is marked `#[init]`.
    pub fn is_init(item: &ItemFn) -> (r: bool)
        ensures
            r == has_attr(item@.attrs, "init"@),
    {
        has_attribute(&item.attrs, "init")
    }

    /// Whether `item` is a static that `init` sets: `static NAME: T = init;`.
    pub fn is_init_target(item: &ItemStatic) -> (r: bool)
        ensures
            r == is_init_static(item@),
    {
        if item.expr.len() != 1 {
            return false;
        }
        let r = match &item.expr[0] {
            Token::Ident(n) => *n == "init".to_string(),
            _ => false,
        };
        assert(tv(item.expr@)[0] == item.expr@[0]@);
        if r {
            assert(tv(item.expr@) =~= seq![ident("init"@)]);
        }
        r
    }

    /// Whether one of the init statements assigns to `name`.
    pub fn assigns(&self, name: &String) -> (r: bool)
        ensures
            r == assigned(stmts_view(self.0@), name@),
    {
        let ghost sv = stmts_view(self.0@);
        let mut i: usize = 0;
        while i < self.0.len()
            invariant
                i <= self.0@.len(),
                sv == stmts_view(self.0@),
                forall|j: int| 0 <= j < i ==> !assigns(#[trigger] sv[j], name@),
            decreases self.0@.len() - i,
        {
            assert(sv[i as int] == tv(self.0@[i as int]@));
            if stmt_assigns(&self.0[i], name) {
                return true;
            }
            i = i + 1;
        }
        false
    }

    /// Rewrites a static that `init` sets; `Uninitialized` where the init
    /// statements never assign it, and then `s` is left as it was.
    pub fn mutate_static(&self, s: &mut ItemStatic) -> (r: Result<(), Error>)
        ensures
            match init_static_applied(stmts_view(self.0@), old(s)@) {
                Ok(v) => r is Ok && final(s)@ == v,
                Err(e) => r matches Err(x) && x@ == e && final(s)@ == old(s)@,
            },
    {
        if !Self::is_init_target(s) {
            return Ok(());
        }
        if !self.assigns(&s.name) {
            return Err(Error::Uninitialized(s.name.clone()));
        }
        let mut e: Vec<Token> = Vec::new();
        push_token(&mut e, ident_token("unsafe"));
        push_token(&mut e, Token::Open(Delimiter::Brace));
        push_token(&mut e, ident_token("core"));
        push_path_sep(&mut e);
        push_token(&mut e, ident_token("mem"));
        push_path_sep(&mut e);
        push_token(&mut e, ident_token("MaybeUninit"));
        push_path_sep(&mut e);
        push_token(&mut e, ident_token("uninit"));
        push_token(&mut e, Token::Open(Delimiter::Parenthesis));
        push_token(&mut e, Token::Close(Delimiter::Parenthesis));
        push_token(&mut e, Token::Punct('.', false));
        push_token(&mut e, ident_token("assume_init"));
        push_token(&mut e, Token::Open(Delimiter::Parenthesis));
        push_token(&mut e, Token::Close(Delimiter::Parenthesis));
        push_token(&mut e, Token::Close(Delimiter::Brace));
        assert(tv(e@) =~= uninit_expr());
        s.mutable = true;
        s.expr = e;
        Ok(())
    }

    /// Puts the guard that runs the init statements before the statements of `body`.
    pub fn mutate_body(body: &mut Vec<Vec<Token>>)
        ensures
            stmts_view(final(body)@) == seq![guard_stmt()] + stmts_view(old(body)@),
    {
        let mut g: Vec<Token> = Vec::new();
        push_token(&mut g, ident_token("INIT"));
        push_token(&mut g, Token::Punct('.', false));
        push_token(&mut g, ident_token("call_once"));
        push_token(&mut g, Token::Open(Delimiter::Parenthesis));
        push_token(&mut g, ident_token("__INIT"));
        push_token(&mut g, Token::Close(Delimiter::Parenthesis));
        push_token(&mut g, Token::Punct(';', false));
        assert(tv(g@) =~= guard_stmt());
        let mut out: Vec<Vec<Token>> = Vec::new();
        out.push(g);
        crate::syntax::extend_stmts(&mut out, body);
        assert(stmts_view(out@) =~= seq![guard_stmt()] + stmts_view(body@));
        *body = out;
    }

    /// Appends the items that hold the init statements.
    pub fn to_tokens(&self, out: &mut Vec<Token>)
        ensures
            tv(final(out)@) == tv(old(out)@) + init_prelude(stmts_view(self.0@)),
    {
        let ghost start = tv(out@);
        push_token(out, ident_token("static"));
        push_token(out, ident_token("INIT"));
        push_token(out, Token::Punct(':', false));
        push_once_path(out);
        push_token(out, Token::Punct('=', false));
        push_once_path(out);
        push_path_sep(out);
        push_token(out, ident_token("new"));
        push_token(out, Token::Open(Delimiter::Parenthesis));
        push_token(out, Token::Close(Delimiter::Parenthesis));
        push_token(out, Token::Punct(';', false));
        push_token(out, ident_token("fn"));
        push_token(out, ident_token("__INIT"));
        push_token(out, Token::Open(Delimiter::Parenthesis));
        push_token(out, Token::Close(Delimiter::Parenthesis));
        push_token(out, Token::Open(Delimiter::Brace));
        push_token(out, ident_token("unsafe"));
        push_token(out, Token::Open(Delimiter::Brace));
        render_stmts(&self.0, out);
        push_token(out, Token::Close(Delimiter::Brace));
        push_token(out, Token::Close(Delimiter::Brace));
        assert(tv(out@) =~= start + init_prelude(stmts_view(self.0@)));
    }
}

} // verus!
