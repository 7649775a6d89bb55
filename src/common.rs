use vstd::prelude::*;

use crate::error::Error;
use crate::syntax::{attrs_view, Attribute, AttributeView};
use crate::tokens::{tv, Delimiter, Token, TokenView};

verus! {

/// How a token changes the nesting depth: `Open` enters a group, `Close` leaves one.
pub open spec fn delta(t: TokenView) -> int {
    match t {
        TokenView::Open(_) => 1,
        TokenView::Close(_) => -1,
        _ => 0,
    }
}

/// The first index from `k` on at which a depth of `d`, taken before `s[k]`,
/// falls to zero: where the group that is open at `k` closes.
pub open spec fn close_index(s: Seq<TokenView>, k: int, d: int) -> Option<int>
    decreases s.len() - k,
{
    if k < 0 || k >= s.len() {
        None
    } else if d + delta(s[k]) <= 0 {
        Some(k)
    } else {
        close_index(s, k + 1, d + delta(s[k]))
    }
}

/// The contents of the group with delimiter `d` that opens at `pos`, and the
/// position just after its closing token.
pub open spec fn group_at(s: Seq<TokenView>, pos: int, d: Delimiter) -> Option<(Seq<TokenView>, int)> {
    if 0 <= pos < s.len() && s[pos] == TokenView::Open(d) {
        match close_index(s, pos + 1, 1) {
            Some(j) => if s[j] == TokenView::Close(d) {
                Some((s.subrange(pos + 1, j), j + 1))
            } else {
                None
            },
            None => None,
        }
    } else {
        None
    }
}

/// Takes the group with delimiter `delim` that opens at `pos`: its contents and
/// the position after it, or `ExpectedDelimiter(delim)` where no such group opens there.
pub fn parse_group_with_delim(delim: Delimiter, s: &Vec<Token>, pos: usize) -> (r: Result<
    (Vec<Token>, usize),
    Error,
>)
    requires
        pos <= s@.len(),
    ensures
        match group_at(tv(s@), pos as int, delim) {
            Some((inner, next)) => r matches Ok((v, n)) && tv(v@) == inner && n == next,
            None => r == Err::<(Vec<Token>, usize), Error>(Error::ExpectedDelimiter(delim)),
        },
        r matches Ok((_, n)) ==> pos + 2 <= n <= s@.len(),
{
    let ghost sv = tv(s@);
    if pos >= s.len() {
        return Err(Error::ExpectedDelimiter(delim));
    }
    assert(sv[pos as int] == s@[pos as int]@);
    match &s[pos] {
        Token::Open(d) => {
            if *d != delim {
                return Err(Error::ExpectedDelimiter(delim));
            }
        },
        _ => {
            return Err(Error::ExpectedDelimiter(delim));
        },
    }
    let mut k: usize = pos + 1;
    let mut depth: usize = 1;
    while k < s.len()
        invariant
            pos < k <= s@.len(),
            sv == tv(s@),
            sv[pos as int] == TokenView::Open(delim),
            1 <= depth <= k - pos,
            close_index(sv, pos + 1, 1) == close_index(sv, k as int, depth as int),
        decreases s@.len() - k,
    {
        assert(sv[k as int] == s@[k as int]@);
        match &s[k] {
            Token::Open(_) => {
                depth = depth + 1;
            },
            Token::Close(c) => {
                if depth == 1 {
                    assert(sv[k as int] == s@[k as int]@);
                    assert(close_index(sv, k as int, depth as int) == Some(k as int));
                    if *c != delim {
                        return Err(Error::ExpectedDelimiter(delim));
                    }
                    let mut inner: Vec<Token> = Vec::new();
                    let mut i: usize = pos + 1;
                    while i < k
                        invariant
                            pos < i <= k < s@.len(),
                            tv(inner@) == tv(s@).subrange(pos + 1, i as int),
                        decreases k - i,
                    {
                        let t = s[i].copy();
                        proof {
                            crate::tokens::lemma_tv_push(inner@, t);
                        }
                        inner.push(t);
                        i = i + 1;
                        assert(tv(inner@) =~= tv(s@).subrange(pos + 1, i as int));
                    }
                    assert(group_at(sv, pos as int, delim) == Some((sv.subrange(pos + 1, k as int), k + 1)));
                    return Ok((inner, k + 1));
                }
                depth = depth - 1;
            },
            _ => {},
        }
        k = k + 1;
    }
    Err(Error::ExpectedDelimiter(delim))
}

/// The token at `pos`, which stays where it is; `ExpectedToken` at the end of the input.
pub fn peek_next_tt(s: &Vec<Token>, pos: usize) -> (r: Result<Token, Error>)
    ensures
        pos < s@.len() ==> (r matches Ok(t) && t@ == s@[pos as int]@),
        pos >= s@.len() ==> r == Err::<Token, Error>(Error::ExpectedToken),
{
    if pos < s.len() {
        Ok(s[pos].copy())
    } else {
        Err(Error::ExpectedToken)
    }
}

/// The token at `pos` and the position after it; `ExpectedToken` at the end of the input.
pub fn parse_next_tt(s: &Vec<Token>, pos: usize) -> (r: Result<(Token, usize), Error>)
    ensures
        pos < s@.len() ==> (r matches Ok((t, n)) && t@ == s@[pos as int]@ && n == pos + 1),
        pos >= s@.len() ==> r == Err::<(Token, usize), Error>(Error::ExpectedToken),
{
    if pos < s.len() {
        Ok((s[pos].copy(), pos + 1))
    } else {
        Err(Error::ExpectedToken)
    }
}

/// An attribute's name: the last segment of its path, empty for an empty path.
pub open spec fn attr_name(a: AttributeView) -> Seq<char> {
    if a.path.len() == 0 {
        Seq::empty()
    } else {
        a.path.last()
    }
}

/// The name of an attribute: the last segment of its path (`test` for
/// `#[my::path::test(one)]`), or the empty string for an empty path.
pub fn attribute_name_to_string(attr: &Attribute) -> (r: String)
    ensures
        r@ == attr_name(attr@),
{
    let n = attr.path.len();
    if n == 0 {
        String::new()
    } else {
        attr.path[n - 1].clone()
    }
}

/// Whether one of `attrs` is named `name`.
pub open spec fn has_attr(attrs: Seq<AttributeView>, name: Seq<char>) -> bool {
    exists|i: int| 0 <= i < attrs.len() && attr_name(#[trigger] attrs[i]) == name
}

/// Whether one of `attrs` is named `name`.
pub fn has_attribute(attrs: &Vec<Attribute>, name: &str) -> (r: bool)
    ensures
        r == has_attr(attrs_view(attrs@), name@),
{
    let ghost av = attrs_view(attrs@);
    let target = name.to_string();
    let mut i: usize = 0;
    while i < attrs.len()
        invariant
            i <= attrs@.len(),
            av == attrs_view(attrs@),
            target@ == name@,
            forall|j: int| 0 <= j < i ==> attr_name(#[trigger] av[j]) != name@,
        decreases attrs@.len() - i,
    {
        let a = attribute_name_to_string(&attrs[i]);
        assert(av[i as int] == attrs@[i as int]@);
        if a == target {
            return true;
        }
        i = i + 1;
    }
    false
}

} // verus!
