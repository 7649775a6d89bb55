use vstd::prelude::*;

verus! {

/// The delimiter of a token group.
#[derive(Clone, Copy, Debug, PartialEq, Eq, Structural)]
pub enum Delimiter {
    Parenthesis,
    Brace,
    Bracket,
    Invisible,
}

/// One lexical token of a flat token stream.
///
/// `Punct` carries its character and whether it is joined to the next token
/// (as the first `:` of `::`).
#[derive(Clone, Debug, PartialEq, Eq)]
pub enum Token {
    Ident(String),
    Punct(char, bool),
    Literal(String),
    Open(Delimiter),
    Close(Delimiter),
}

/// What a token is, with its text as a sequence of characters.
pub enum TokenView {
    Ident(Seq<char>),
    Punct(char, bool),
    Literal(Seq<char>),
    Open(Delimiter),
    Close(Delimiter),
}

impl View for Token {
    type V = TokenView;

    open spec fn view(&self) -> TokenView {
        match self {
            Token::Ident(s) => TokenView::Ident(s@),
            Token::Punct(c, j) => TokenView::Punct(*c, *j),
            Token::Literal(s) => TokenView::Literal(s@),
            Token::Open(d) => TokenView::Open(*d),
            Token::Close(d) => TokenView::Close(*d),
        }
    }
}

/// The view of a sequence of tokens.
pub open spec fn tv(s: Seq<Token>) -> Seq<TokenView> {
    s.map_values(|t: Token| t@)
}

pub proof fn lemma_tv_push(s: Seq<Token>, t: Token)
    ensures
        tv(s.push(t)) == tv(s).push(t@),
{
    assert(tv(s.push(t)) =~= tv(s).push(t@));
}

impl Token {
    /// A copy of this token.
    pub fn copy(&self) -> (r: Token)
        ensures
            r@ == self@,
    {
        match self {
            Token::Ident(s) => Token::Ident(s.clone()),
            Token::Punct(c, j) => Token::Punct(*c, *j),
            Token::Literal(s) => Token::Literal(s.clone()),
            Token::Open(d) => Token::Open(*d),
            Token::Close(d) => Token::Close(*d),
        }
    }
}

/// Appends copies of `src` to `out`.
pub fn extend_tokens(out: &mut Vec<Token>, src: &Vec<Token>)
    ensures
        tv(final(out)@) == tv(old(out)@) + tv(src@),
{
    let mut i: usize = 0;
    while i < src.len()
        invariant
            i <= src@.len(),
            tv(out@) == tv(old(out)@) + tv(src@.subrange(0, i as int)),
        decreases src@.len() - i,
    {
        let t = src[i].copy();
        proof {
            assert(src@.subrange(0, i + 1) =~= src@.subrange(0, i as int).push(src@[i as int]));
            lemma_tv_push(src@.subrange(0, i as int), src@[i as int]);
            lemma_tv_push(out@, t);
        }
        out.push(t);
        i = i + 1;
    }
    assert(src@.subrange(0, i as int) =~= src@);
}

/// A copy of a token sequence.
pub fn copy_tokens(src: &Vec<Token>) -> (r: Vec<Token>)
    ensures
        tv(r@) == tv(src@),
{
    let mut out: Vec<Token> = Vec::new();
    extend_tokens(&mut out, src);
    assert(tv(out@) =~= tv(src@));
    out
}

/// The text of a delimiter's opening token; an invisible group has none.
pub open spec fn open_text(d: Delimiter) -> Seq<char> {
    match d {
        Delimiter::Parenthesis => seq!['('],
        Delimiter::Brace => seq!['{'],
        Delimiter::Bracket => seq!['['],
        Delimiter::Invisible => Seq::empty(),
    }
}

/// The text of a delimiter's closing token.
pub open spec fn close_text(d: Delimiter) -> Seq<char> {
    match d {
        Delimiter::Parenthesis => seq![')'],
        Delimiter::Brace => seq!['}'],
        Delimiter::Bracket => seq![']'],
        Delimiter::Invisible => Seq::empty(),
    }
}

/// The source text of one token.
pub open spec fn token_text(t: TokenView) -> Seq<char> {
    match t {
        TokenView::Ident(s) => s,
        TokenView::Punct(c, _) => seq![c],
        TokenView::Literal(s) => s,
        TokenView::Open(d) => open_text(d),
        TokenView::Close(d) => close_text(d),
    }
}

/// Whether a token is a punctuation character joined to the token after it.
pub open spec fn is_joint(t: TokenView) -> bool {
    t matches TokenView::Punct(_, true)
}

/// The source text of a token sequence: the tokens' texts, separated by one
/// space, except after a joined punctuation character.
pub open spec fn text_of(s: Seq<TokenView>) -> Seq<char>
    decreases s.len(),
{
    if s.len() == 0 {
        Seq::empty()
    } else {
        let p = s.drop_last();
        let gap = if p.len() == 0 || is_joint(p.last()) {
            Seq::<char>::empty()
        } else {
            seq![' ']
        };
        text_of(p) + gap + token_text(s.last())
    }
}

/// Relies on `char::to_string`: the string that holds exactly `c`.
#[verifier::external_body]
pub(crate) fn char_string(c: char) -> (r: String)
    ensures
        r@ == seq![c],
{
    c.to_string()
}

/// The source text of the tokens `s[from..to]`.
pub fn tokens_text(s: &Vec<Token>, from: usize, to: usize) -> (r: String)
    requires
        from <= to <= s@.len(),
    ensures
        r@ == text_of(tv(s@.subrange(from as int, to as int))),
{
    let mut out = String::new();
    let mut i: usize = from;
    proof {
        assert(tv(s@.subrange(from as int, from as int)) =~= Seq::<TokenView>::empty());
    }
    while i < to
        invariant
            from <= i <= to <= s@.len(),
            out@ == text_of(tv(s@.subrange(from as int, i as int))),
        decreases to - i,
    {
        let ghost p = tv(s@.subrange(from as int, i as int));
        let ghost q = tv(s@.subrange(from as int, i + 1));
        proof {
            assert(q.drop_last() =~= p);
            assert(q.last() == s@[i as int]@);
            if i > from {
                assert(p.last() == s@[i - 1]@);
            }
        }
        if i > from {
            let joint = match &s[i - 1] {
                Token::Punct(_, j) => *j,
                _ => false,
            };
            if !joint {
                out.append(" ");
            }
        }
        match &s[i] {
            Token::Ident(x) => out.append(x.as_str()),
            Token::Punct(c, _) => {
                let t = char_string(*c);
                out.append(t.as_str());
            },
            Token::Literal(x) => out.append(x.as_str()),
            Token::Open(d) => match d {
                Delimiter::Parenthesis => out.append("("),
                Delimiter::Brace => out.append("{"),
                Delimiter::Bracket => out.append("["),
                Delimiter::Invisible => {},
            },
            Token::Close(d) => match d {
                Delimiter::Parenthesis => out.append(")"),
                Delimiter::Brace => out.append("}"),
                Delimiter::Bracket => out.append("]"),
                Delimiter::Invisible => {},
            },
        }
        proof {
            reveal_strlit(" ");
            reveal_strlit("(");
            reveal_strlit("{");
            reveal_strlit("[");
            reveal_strlit(")");
            reveal_strlit("}");
            reveal_strlit("]");
            assert(out@ =~= text_of(q));
        }
        i = i + 1;
    }
    out
}

} // verus!
