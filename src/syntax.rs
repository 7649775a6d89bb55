use vstd::prelude::*;

use crate::tokens::{extend_tokens, lemma_tv_push, tv, Delimiter, Token, TokenView};

verus! {

/// An attribute: `#[path rest]`, or `#![path rest]` when `inner`. `rest` is
/// what follows the path inside the brackets (`(one, two)`, `= 123`, nothing).
#[derive(Clone, Debug, PartialEq, Eq)]
pub struct Attribute {
    pub inner: bool,
    pub path: Vec<String>,
    pub rest: Vec<Token>,
}

pub struct AttributeView {
    pub inner: bool,
    pub path: Seq<Seq<char>>,
    pub rest: Seq<TokenView>,
}

impl View for Attribute {
    type V = AttributeView;

    open spec fn view(&self) -> AttributeView {
        AttributeView {
            inner: self.inner,
            path: self.path@.map_values(|s: String| s@),
            rest: tv(self.rest@),
        }
    }
}

/// The pattern of a typed function input.
#[derive(Clone, Debug, PartialEq, Eq)]
pub enum Pattern {
    /// `[ref] [mut] name`
    Ident { by_ref: bool, mutable: bool, name: String },
    /// Any other pattern, as tokens.
    Other(Vec<Token>),
}

pub enum PatternView {
    Ident { by_ref: bool, mutable: bool, name: Seq<char> },
    Other(Seq<TokenView>),
}

impl View for Pattern {
    type V = PatternView;

    open spec fn view(&self) -> PatternView {
        match self {
            Pattern::Ident { by_ref, mutable, name } => PatternView::Ident {
                by_ref: *by_ref,
                mutable: *mutable,
                name: name@,
            },
            Pattern::Other(t) => PatternView::Other(tv(t@)),
        }
    }
}

/// One input of a function signature.
#[derive(Clone, Debug, PartialEq, Eq)]
pub enum FnInput {
    /// A `self` receiver, as tokens.
    Receiver(Vec<Token>),
    /// `attrs pat: ty`
    Typed { attrs: Vec<Attribute>, pat: Pattern, ty: Vec<Token> },
}

pub enum FnInputView {
    Receiver(Seq<TokenView>),
    Typed { attrs: Seq<AttributeView>, pat: PatternView, ty: Seq<TokenView> },
}

pub open spec fn attrs_view(s: Seq<Attribute>) -> Seq<AttributeView> {
    s.map_values(|a: Attribute| a@)
}

impl View for FnInput {
    type V = FnInputView;

    open spec fn view(&self) -> FnInputView {
        match self {
            FnInput::Receiver(t) => FnInputView::Receiver(tv(t@)),
            FnInput::Typed { attrs, pat, ty } => FnInputView::Typed {
                attrs: attrs_view(attrs@),
                pat: pat@,
                ty: tv(ty@),
            },
        }
    }
}

/// A function item: `attrs head fn name generics(inputs) tail { body }`.
/// `head` holds the visibility and qualifiers, `tail` the return type and
/// `where` clause, and each entry of `body` the tokens of one statement.
#[derive(Clone, Debug, PartialEq, Eq)]
pub struct ItemFn {
    pub attrs: Vec<Attribute>,
    pub head: Vec<Token>,
    pub name: String,
    pub generics: Vec<Token>,
    pub inputs: Vec<FnInput>,
    pub tail: Vec<Token>,
    pub body: Vec<Vec<Token>>,
}

pub struct FnView {
    pub attrs: Seq<AttributeView>,
    pub head: Seq<TokenView>,
    pub name: Seq<char>,
    pub generics: Seq<TokenView>,
    pub inputs: Seq<FnInputView>,
    pub tail: Seq<TokenView>,
    pub body: Seq<Seq<TokenView>>,
}

pub open spec fn inputs_view(s: Seq<FnInput>) -> Seq<FnInputView> {
    s.map_values(|i: FnInput| i@)
}

pub open spec fn stmts_view(s: Seq<Vec<Token>>) -> Seq<Seq<TokenView>> {
    s.map_values(|t: Vec<Token>| tv(t@))
}

impl View for ItemFn {
    type V = FnView;

    open spec fn view(&self) -> FnView {
        FnView {
            attrs: attrs_view(self.attrs@),
            head: tv(self.head@),
            name: self.name@,
            generics: tv(self.generics@),
            inputs: inputs_view(self.inputs@),
            tail: tv(self.tail@),
            body: stmts_view(self.body@),
        }
    }
}

/// A static item: `attrs head static [mut] name: ty = expr;`.
#[derive(Clone, Debug, PartialEq, Eq)]
pub struct ItemStatic {
    pub attrs: Vec<Attribute>,
    pub head: Vec<Token>,
    pub mutable: bool,
    pub name: String,
    pub ty: Vec<Token>,
    pub expr: Vec<Token>,
}

pub struct StaticView {
    pub attrs: Seq<AttributeView>,
    pub head: Seq<TokenView>,
    pub mutable: bool,
    pub name: Seq<char>,
    pub ty: Seq<TokenView>,
    pub expr: Seq<TokenView>,
}

impl View for ItemStatic {
    type V = StaticView;

    open spec fn view(&self) -> StaticView {
        StaticView {
            attrs: attrs_view(self.attrs@),
            head: tv(self.head@),
            mutable: self.mutable,
            name: self.name@,
            ty: tv(self.ty@),
            expr: tv(self.expr@),
        }
    }
}

/// An item of a module.
#[derive(Clone, Debug, PartialEq, Eq)]
pub enum Item {
    Fn(ItemFn),
    Static(ItemStatic),
    /// Any other item, as tokens.
    Verbatim(Vec<Token>),
}

pub enum ItemView {
    Fn(FnView),
    Static(StaticView),
    Verbatim(Seq<TokenView>),
}

impl View for Item {
    type V = ItemView;

    open spec fn view(&self) -> ItemView {
        match self {
            Item::Fn(f) => ItemView::Fn(f@),
            Item::Static(s) => ItemView::Static(s@),
            Item::Verbatim(t) => ItemView::Verbatim(tv(t@)),
        }
    }
}

pub open spec fn items_view(s: Seq<Item>) -> Seq<ItemView> {
    s.map_values(|i: Item| i@)
}

/// A module item: `attrs head mod name { content }`, or `attrs head mod name;`
/// where `content` is `None`.
#[derive(Clone, Debug, PartialEq, Eq)]
pub struct ItemMod {
    pub attrs: Vec<Attribute>,
    pub head: Vec<Token>,
    pub name: String,
    pub content: Option<Vec<Item>>,
}

pub struct ModView {
    pub attrs: Seq<AttributeView>,
    pub head: Seq<TokenView>,
    pub name: Seq<char>,
    pub content: Option<Seq<ItemView>>,
}

impl View for ItemMod {
    type V = ModView;

    open spec fn view(&self) -> ModView {
        ModView {
            attrs: attrs_view(self.attrs@),
            head: tv(self.head@),
            name: self.name@,
            content: match self.content {
                Some(c) => Some(items_view(c@)),
                None => None,
            },
        }
    }
}

/// `name` as an identifier token.
pub open spec fn ident(name: Seq<char>) -> TokenView {
    TokenView::Ident(name)
}

/// A punctuation character that stands alone.
pub open spec fn punct(c: char) -> TokenView {
    TokenView::Punct(c, false)
}

/// The tokens of a path: its segments joined by `::`.
pub open spec fn path_tokens(p: Seq<Seq<char>>) -> Seq<TokenView>
    decreases p.len(),
{
    if p.len() == 0 {
        Seq::empty()
    } else if p.len() == 1 {
        seq![ident(p[0])]
    } else {
        path_tokens(p.drop_last()) + seq![TokenView::Punct(':', true), punct(':'), ident(p.last())]
    }
}

pub open spec fn attr_tokens(a: AttributeView) -> Seq<TokenView> {
    seq![punct('#')] + (if a.inner {
        seq![punct('!')]
    } else {
        Seq::empty()
    }) + seq![TokenView::Open(Delimiter::Bracket)] + path_tokens(a.path) + a.rest + seq![
        TokenView::Close(Delimiter::Bracket),
    ]
}

pub open spec fn attrs_tokens(s: Seq<AttributeView>) -> Seq<TokenView>
    decreases s.len(),
{
    if s.len() == 0 {
        Seq::empty()
    } else {
        attrs_tokens(s.drop_last()) + attr_tokens(s.last())
    }
}

pub open spec fn pattern_tokens(p: PatternView) -> Seq<TokenView> {
    match p {
        PatternView::Ident { by_ref, mutable, name } => (if by_ref {
            seq![ident(seq!['r', 'e', 'f'])]
        } else {
            Seq::empty()
        }) + (if mutable {
            seq![ident(seq!['m', 'u', 't'])]
        } else {
            Seq::empty()
        }) + seq![ident(name)],
        PatternView::Other(t) => t,
    }
}

pub open spec fn input_tokens(i: FnInputView) -> Seq<TokenView> {
    match i {
        FnInputView::Receiver(t) => t,
        FnInputView::Typed { attrs, pat, ty } => attrs_tokens(attrs) + pattern_tokens(pat) + seq![
            punct(':'),
        ] + ty,
    }
}

/// The tokens of function inputs, separated by commas.
pub open spec fn inputs_tokens(s: Seq<FnInputView>) -> Seq<TokenView>
    decreases s.len(),
{
    if s.len() == 0 {
        Seq::empty()
    } else if s.len() == 1 {
        input_tokens(s[0])
    } else {
        inputs_tokens(s.drop_last()) + seq![punct(',')] + input_tokens(s.last())
    }
}

/// The token sequences of `s`, one after the other.
pub open spec fn concat(s: Seq<Seq<TokenView>>) -> Seq<TokenView>
    decreases s.len(),
{
    if s.len() == 0 {
        Seq::empty()
    } else {
        concat(s.drop_last()) + s.last()
    }
}

pub open spec fn fn_tokens(f: FnView) -> Seq<TokenView> {
    attrs_tokens(f.attrs) + f.head + seq![ident(seq!['f', 'n']), ident(f.name)] + f.generics + seq![
        TokenView::Open(Delimiter::Parenthesis),
    ] + inputs_tokens(f.inputs) + seq![TokenView::Close(Delimiter::Parenthesis)] + f.tail + seq![
        TokenView::Open(Delimiter::Brace),
    ] + concat(f.body) + seq![TokenView::Close(Delimiter::Brace)]
}

pub open spec fn static_tokens(s: StaticView) -> Seq<TokenView> {
    attrs_tokens(s.attrs) + s.head + seq![ident(seq!['s', 't', 'a', 't', 'i', 'c'])] + (if s.mutable {
        seq![ident(seq!['m', 'u', 't'])]
    } else {
        Seq::empty()
    }) + seq![ident(s.name), punct(':')] + s.ty + seq![punct('=')] + s.expr + seq![punct(';')]
}

pub open spec fn item_tokens(i: ItemView) -> Seq<TokenView> {
    match i {
        ItemView::Fn(f) => fn_tokens(f),
        ItemView::Static(s) => static_tokens(s),
        ItemView::Verbatim(t) => t,
    }
}

pub open spec fn items_tokens(s: Seq<ItemView>) -> Seq<TokenView>
    decreases s.len(),
{
    if s.len() == 0 {
        Seq::empty()
    } else {
        items_tokens(s.drop_last()) + item_tokens(s.last())
    }
}

/// The tokens before a module's body: `attrs head mod name`.
pub open spec fn mod_head_tokens(m: ModView) -> Seq<TokenView> {
    attrs_tokens(m.attrs) + m.head + seq![ident(seq!['m', 'o', 'd']), ident(m.name)]
}

pub open spec fn mod_tokens(m: ModView) -> Seq<TokenView> {
    mod_head_tokens(m) + match m.content {
        Some(c) => seq![TokenView::Open(Delimiter::Brace)] + items_tokens(c) + seq![
            TokenView::Close(Delimiter::Brace),
        ],
        None => seq![punct(';')],
    }
}

/// Appends one token.
pub fn push_token(out: &mut Vec<Token>, t: Token)
    ensures
        tv(final(out)@) == tv(old(out)@).push(t@),
{
    proof {
        lemma_tv_push(out@, t);
    }
    out.push(t);
}

/// The identifier token spelled `s`.
pub fn ident_token(s: &str) -> (r: Token)
    ensures
        r@ == ident(s@),
{
    Token::Ident(s.to_string())
}

pub fn render_path(p: &Vec<String>, out: &mut Vec<Token>)
    ensures
        tv(final(out)@) == tv(old(out)@) + path_tokens(p@.map_values(|s: String| s@)),
{
    let ghost pv = p@.map_values(|s: String| s@);
    let mut i: usize = 0;
    while i < p.len()
        invariant
            i <= p@.len(),
            pv == p@.map_values(|s: String| s@),
            tv(out@) == tv(old(out)@) + path_tokens(pv.subrange(0, i as int)),
        decreases p@.len() - i,
    {
        let ghost before = tv(out@);
        if i > 0 {
            push_token(out, Token::Punct(':', true));
            push_token(out, Token::Punct(':', false));
        }
        push_token(out, Token::Ident(p[i].clone()));
        proof {
            let q = pv.subrange(0, i + 1);
            assert(q.drop_last() =~= pv.subrange(0, i as int));
            if i == 0 {
                assert(tv(out@) =~= tv(old(out)@) + path_tokens(q));
            } else {
                assert(tv(out@) =~= tv(old(out)@) + path_tokens(q));
            }
        }
        i = i + 1;
    }
    assert(pv.subrange(0, i as int) =~= pv);
}

pub fn render_attr(a: &Attribute, out: &mut Vec<Token>)
    ensures
        tv(final(out)@) == tv(old(out)@) + attr_tokens(a@),
{
    let ghost start = tv(out@);
    push_token(out, Token::Punct('#', false));
    if a.inner {
        push_token(out, Token::Punct('!', false));
    }
    push_token(out, Token::Open(Delimiter::Bracket));
    let ghost mid = tv(out@);
    render_path(&a.path, out);
    extend_tokens(out, &a.rest);
    push_token(out, Token::Close(Delimiter::Bracket));
    assert(tv(out@) =~= start + attr_tokens(a@));
}

pub fn render_attrs(s: &Vec<Attribute>, out: &mut Vec<Token>)
    ensures
        tv(final(out)@) == tv(old(out)@) + attrs_tokens(attrs_view(s@)),
{
    let mut i: usize = 0;
    while i < s.len()
        invariant
            i <= s@.len(),
            tv(out@) == tv(old(out)@) + attrs_tokens(attrs_view(s@.subrange(0, i as int))),
        decreases s@.len() - i,
    {
        render_attr(&s[i], out);
        proof {
            let q = attrs_view(s@.subrange(0, i + 1));
            assert(q.drop_last() =~= attrs_view(s@.subrange(0, i as int)));
            assert(tv(out@) =~= tv(old(out)@) + attrs_tokens(q));
        }
        i = i + 1;
    }
    assert(s@.subrange(0, i as int) =~= s@);
}

pub fn render_pattern(p: &Pattern, out: &mut Vec<Token>)
    ensures
        tv(final(out)@) == tv(old(out)@) + pattern_tokens(p@),
{
    let ghost start = tv(out@);
    match p {
        Pattern::Ident { by_ref, mutable, name } => {
            if *by_ref {
                push_token(out, ident_token("ref"));
            }
            if *mutable {
                push_token(out, ident_token("mut"));
            }
            push_token(out, Token::Ident(name.clone()));
            proof {
                reveal_strlit("ref");
        assert("ref"@ =~= seq!['r', 'e', 'f']);
                reveal_strlit("mut");
        assert("mut"@ =~= seq!['m', 'u', 't']);
            }
            assert(tv(out@) =~= start + pattern_tokens(p@));
        },
        Pattern::Other(t) => {
            extend_tokens(out, t);
        },
    }
}

pub fn render_input(i: &FnInput, out: &mut Vec<Token>)
    ensures
        tv(final(out)@) == tv(old(out)@) + input_tokens(i@),
{
    let ghost start = tv(out@);
    match i {
        FnInput::Receiver(t) => {
            extend_tokens(out, t);
        },
        FnInput::Typed { attrs, pat, ty } => {
            render_attrs(attrs, out);
            render_pattern(pat, out);
            push_token(out, Token::Punct(':', false));
            extend_tokens(out, ty);
            assert(tv(out@) =~= start + input_tokens(i@));
        },
    }
}

pub fn render_inputs(s: &Vec<FnInput>, out: &mut Vec<Token>)
    ensures
        tv(final(out)@) == tv(old(out)@) + inputs_tokens(inputs_view(s@)),
{
    let mut i: usize = 0;
    assert(inputs_view(s@.subrange(0, 0)) =~= Seq::<FnInputView>::empty());
    while i < s.len()
        invariant
            i <= s@.len(),
            tv(out@) == tv(old(out)@) + inputs_tokens(inputs_view(s@.subrange(0, i as int))),
        decreases s@.len() - i,
    {
        if i > 0 {
            push_token(out, Token::Punct(',', false));
        }
        render_input(&s[i], out);
        proof {
            let q = inputs_view(s@.subrange(0, i + 1));
            assert(q.drop_last() =~= inputs_view(s@.subrange(0, i as int)));
            assert(tv(out@) =~= tv(old(out)@) + inputs_tokens(q));
        }
        i = i + 1;
    }
    assert(s@.subrange(0, i as int) =~= s@);
}

pub fn render_stmts(s: &Vec<Vec<Token>>, out: &mut Vec<Token>)
    ensures
        tv(final(out)@) == tv(old(out)@) + concat(stmts_view(s@)),
{
    let mut i: usize = 0;
    while i < s.len()
        invariant
            i <= s@.len(),
            tv(out@) == tv(old(out)@) + concat(stmts_view(s@.subrange(0, i as int))),
        decreases s@.len() - i,
    {
        extend_tokens(out, &s[i]);
        proof {
            let q = stmts_view(s@.subrange(0, i + 1));
            assert(q.drop_last() =~= stmts_view(s@.subrange(0, i as int)));
            assert(tv(out@) =~= tv(old(out)@) + concat(q));
        }
        i = i + 1;
    }
    assert(s@.subrange(0, i as int) =~= s@);
}

pub fn render_fn(f: &ItemFn, out: &mut Vec<Token>)
    ensures
        tv(final(out)@) == tv(old(out)@) + fn_tokens(f@),
{
    let ghost start = tv(out@);
    render_attrs(&f.attrs, out);
    extend_tokens(out, &f.head);
    push_token(out, ident_token("fn"));
    push_token(out, Token::Ident(f.name.clone()));
    extend_tokens(out, &f.generics);
    push_token(out, Token::Open(Delimiter::Parenthesis));
    render_inputs(&f.inputs, out);
    push_token(out, Token::Close(Delimiter::Parenthesis));
    extend_tokens(out, &f.tail);
    push_token(out, Token::Open(Delimiter::Brace));
    render_stmts(&f.body, out);
    push_token(out, Token::Close(Delimiter::Brace));
    proof {
        reveal_strlit("fn");
        assert("fn"@ =~= seq!['f', 'n']);
    }
    assert(tv(out@) =~= start + fn_tokens(f@));
}

pub fn render_static(s: &ItemStatic, out: &mut Vec<Token>)
    ensures
        tv(final(out)@) == tv(old(out)@) + static_tokens(s@),
{
    let ghost start = tv(out@);
    render_attrs(&s.attrs, out);
    extend_tokens(out, &s.head);
    push_token(out, ident_token("static"));
    if s.mutable {
        push_token(out, ident_token("mut"));
    }
    push_token(out, Token::Ident(s.name.clone()));
    push_token(out, Token::Punct(':', false));
    extend_tokens(out, &s.ty);
    push_token(out, Token::Punct('=', false));
    extend_tokens(out, &s.expr);
    push_token(out, Token::Punct(';', false));
    proof {
        reveal_strlit("static");
        assert("static"@ =~= seq!['s', 't', 'a', 't', 'i', 'c']);
        reveal_strlit("mut");
        assert("mut"@ =~= seq!['m', 'u', 't']);
    }
    assert(tv(out@) =~= start + static_tokens(s@));
}

pub fn render_item(i: &Item, out: &mut Vec<Token>)
    ensures
        tv(final(out)@) == tv(old(out)@) + item_tokens(i@),
{
    match i {
        Item::Fn(f) => render_fn(f, out),
        Item::Static(s) => render_static(s, out),
        Item::Verbatim(t) => extend_tokens(out, t),
    }
}

pub fn render_items(s: &Vec<Item>, out: &mut Vec<Token>)
    ensures
        tv(final(out)@) == tv(old(out)@) + items_tokens(items_view(s@)),
{
    let mut i: usize = 0;
    while i < s.len()
        invariant
            i <= s@.len(),
            tv(out@) == tv(old(out)@) + items_tokens(items_view(s@.subrange(0, i as int))),
        decreases s@.len() - i,
    {
        render_item(&s[i], out);
        proof {
            let q = items_view(s@.subrange(0, i + 1));
            assert(q.drop_last() =~= items_view(s@.subrange(0, i as int)));
            assert(tv(out@) =~= tv(old(out)@) + items_tokens(q));
        }
        i = i + 1;
    }
    assert(s@.subrange(0, i as int) =~= s@);
}

pub fn render_mod_head(m: &ItemMod, out: &mut Vec<Token>)
    ensures
        tv(final(out)@) == tv(old(out)@) + mod_head_tokens(m@),
{
    let ghost start = tv(out@);
    render_attrs(&m.attrs, out);
    extend_tokens(out, &m.head);
    push_token(out, ident_token("mod"));
    push_token(out, Token::Ident(m.name.clone()));
    proof {
        reveal_strlit("mod");
        assert("mod"@ =~= seq!['m', 'o', 'd']);
    }
    assert(tv(out@) =~= start + mod_head_tokens(m@));
}

pub fn render_mod(m: &ItemMod, out: &mut Vec<Token>)
    ensures
        tv(final(out)@) == tv(old(out)@) + mod_tokens(m@),
{
    let ghost start = tv(out@);
    render_mod_head(m, out);
    match &m.content {
        Some(c) => {
            push_token(out, Token::Open(Delimiter::Brace));
            render_items(c, out);
            push_token(out, Token::Close(Delimiter::Brace));
        },
        None => {
            push_token(out, Token::Punct(';', false));
        },
    }
    assert(tv(out@) =~= start + mod_tokens(m@));
}

/// Appends copies of the statements `src` to `out`.
pub fn extend_stmts(out: &mut Vec<Vec<Token>>, src: &Vec<Vec<Token>>)
    ensures
        stmts_view(final(out)@) == stmts_view(old(out)@) + stmts_view(src@),
{
    let mut i: usize = 0;
    while i < src.len()
        invariant
            i <= src@.len(),
            stmts_view(out@) == stmts_view(old(out)@) + stmts_view(src@).subrange(0, i as int),
        decreases src@.len() - i,
    {
        let st = crate::tokens::copy_tokens(&src[i]);
        let ghost before = stmts_view(out@);
        out.push(st);
        assert(stmts_view(out@) =~= before.push(tv(st@)));
        i = i + 1;
        assert(stmts_view(out@) =~= stmts_view(old(out)@) + stmts_view(src@).subrange(0, i as int));
    }
    assert(stmts_view(src@).subrange(0, i as int) =~= stmts_view(src@));
}

/// A copy of an attribute.
pub fn copy_attr(a: &Attribute) -> (r: Attribute)
    ensures
        r@ == a@,
{
    let mut path: Vec<String> = Vec::new();
    let mut i: usize = 0;
    while i < a.path.len()
        invariant
            i <= a.path@.len(),
            path@.map_values(|s: String| s@) == a.path@.map_values(|s: String| s@).subrange(0, i as int),
        decreases a.path@.len() - i,
    {
        let ghost before = path@.map_values(|s: String| s@);
        let seg = a.path[i].clone();
        path.push(seg);
        assert(path@.map_values(|s: String| s@) =~= before.push(seg@));
        i = i + 1;
        assert(path@.map_values(|s: String| s@) =~= a.path@.map_values(|s: String| s@).subrange(
            0,
            i as int,
        ));
    }
    assert(a.path@.map_values(|s: String| s@).subrange(0, i as int) =~= a.path@.map_values(
        |s: String| s@,
    ));
    Attribute { inner: a.inner, path, rest: crate::tokens::copy_tokens(&a.rest) }
}

/// Appends copies of the attributes `src` to `out`.
pub fn extend_attrs(out: &mut Vec<Attribute>, src: &Vec<Attribute>)
    ensures
        attrs_view(final(out)@) == attrs_view(old(out)@) + attrs_view(src@),
{
    let mut i: usize = 0;
    while i < src.len()
        invariant
            i <= src@.len(),
            attrs_view(out@) == attrs_view(old(out)@) + attrs_view(src@).subrange(0, i as int),
        decreases src@.len() - i,
    {
        let a = copy_attr(&src[i]);
        let ghost before = attrs_view(out@);
        out.push(a);
        assert(attrs_view(out@) =~= before.push(a@));
        i = i + 1;
        assert(attrs_view(out@) =~= attrs_view(old(out)@) + attrs_view(src@).subrange(0, i as int));
    }
    assert(attrs_view(src@).subrange(0, i as int) =~= attrs_view(src@));
}

/// A copy of a function input.
pub fn copy_input(i: &FnInput) -> (r: FnInput)
    ensures
        r@ == i@,
{
    match i {
        FnInput::Receiver(t) => FnInput::Receiver(crate::tokens::copy_tokens(t)),
        FnInput::Typed { attrs, pat, ty } => {
            let mut a: Vec<Attribute> = Vec::new();
            extend_attrs(&mut a, attrs);
            assert(attrs_view(a@) =~= attrs_view(attrs@));
            let p = match pat {
                Pattern::Ident { by_ref, mutable, name } => Pattern::Ident {
                    by_ref: *by_ref,
                    mutable: *mutable,
                    name: name.clone(),
                },
                Pattern::Other(t) => Pattern::Other(crate::tokens::copy_tokens(t)),
            };
            FnInput::Typed { attrs: a, pat: p, ty: crate::tokens::copy_tokens(ty) }
        },
    }
}

/// A copy of a function.
pub fn copy_fn(f: &ItemFn) -> (r: ItemFn)
    ensures
        r@ == f@,
{
    let mut attrs: Vec<Attribute> = Vec::new();
    extend_attrs(&mut attrs, &f.attrs);
    assert(attrs_view(attrs@) =~= attrs_view(f.attrs@));
    let mut inputs: Vec<FnInput> = Vec::new();
    let mut i: usize = 0;
    while i < f.inputs.len()
        invariant
            i <= f.inputs@.len(),
            inputs_view(inputs@) == inputs_view(f.inputs@).subrange(0, i as int),
        decreases f.inputs@.len() - i,
    {
        let x = copy_input(&f.inputs[i]);
        let ghost before = inputs_view(inputs@);
        inputs.push(x);
        assert(inputs_view(inputs@) =~= before.push(x@));
        i = i + 1;
        assert(inputs_view(inputs@) =~= inputs_view(f.inputs@).subrange(0, i as int));
    }
    assert(inputs_view(f.inputs@).subrange(0, i as int) =~= inputs_view(f.inputs@));
    let mut body: Vec<Vec<Token>> = Vec::new();
    extend_stmts(&mut body, &f.body);
    assert(stmts_view(body@) =~= stmts_view(f.body@));
    ItemFn {
        attrs,
        head: crate::tokens::copy_tokens(&f.head),
        name: f.name.clone(),
        generics: crate::tokens::copy_tokens(&f.generics),
        inputs,
        tail: crate::tokens::copy_tokens(&f.tail),
        body,
    }
}

/// A copy of a static item.
pub fn copy_static(s: &ItemStatic) -> (r: ItemStatic)
    ensures
        r@ == s@,
{
    let mut attrs: Vec<Attribute> = Vec::new();
    extend_attrs(&mut attrs, &s.attrs);
    assert(attrs_view(attrs@) =~= attrs_view(s.attrs@));
    ItemStatic {
        attrs,
        head: crate::tokens::copy_tokens(&s.head),
        mutable: s.mutable,
        name: s.name.clone(),
        ty: crate::tokens::copy_tokens(&s.ty),
        expr: crate::tokens::copy_tokens(&s.expr),
    }
}

/// A copy of an item.
pub fn copy_item(i: &Item) -> (r: Item)
    ensures
        r@ == i@,
{
    match i {
        Item::Fn(f) => Item::Fn(copy_fn(f)),
        Item::Static(s) => Item::Static(copy_static(s)),
        Item::Verbatim(t) => Item::Verbatim(crate::tokens::copy_tokens(t)),
    }
}

} // verus!
