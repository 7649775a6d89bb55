use proc_macro2::{Spacing, TokenStream, TokenTree};
use sith::common::{attribute_name_to_string, parse_group_with_delim, parse_next_tt, peek_next_tt};
use sith::error::Error;
use sith::params::with::{greedy_parse_with_delim, WithExpr};
use sith::syntax::Attribute;
use sith::tokens::{tokens_text, Delimiter, Token};

fn delimiter(d: proc_macro2::Delimiter) -> Delimiter {
    match d {
        proc_macro2::Delimiter::Parenthesis => Delimiter::Parenthesis,
        proc_macro2::Delimiter::Brace => Delimiter::Brace,
        proc_macro2::Delimiter::Bracket => Delimiter::Bracket,
        proc_macro2::Delimiter::None => Delimiter::Invisible,
    }
}

fn flatten(ts: TokenStream, out: &mut Vec<Token>) {
    for tt in ts {
        match tt {
            TokenTree::Ident(i) => out.push(Token::Ident(i.to_string())),
            TokenTree::Punct(p) => out.push(Token::Punct(p.as_char(), p.spacing() == Spacing::Joint)),
            TokenTree::Literal(l) => out.push(Token::Literal(l.to_string())),
            TokenTree::Group(g) => {
                let d = delimiter(g.delimiter());
                out.push(Token::Open(d));
                flatten(g.stream(), out);
                out.push(Token::Close(d));
            }
        }
    }
}

fn toks(src: &str) -> Vec<Token> {
    let ts: TokenStream = src.parse().unwrap();
    let mut out = Vec::new();
    flatten(ts, &mut out);
    out
}

fn attr(path: &[&str], rest: &str) -> Attribute {
    Attribute { inner: false, path: path.iter().map(|s| s.to_string()).collect(), rest: toks(rest) }
}

#[test]
fn works_with_single_name_attributes() {
    assert_eq!(attribute_name_to_string(&attr(&["test"], "")).as_str(), "test");
}

#[test]
fn works_with_pathed_name_attributes() {
    assert_eq!(attribute_name_to_string(&attr(&["my", "path", "to", "test"], "")).as_str(), "test");
}

#[test]
fn works_with_list_attributes() {
    assert_eq!(attribute_name_to_string(&attr(&["test"], "(one, two)")).as_str(), "test");
}

#[test]
fn works_with_pathed_list_attributes() {
    assert_eq!(
        attribute_name_to_string(&attr(&["path", "to", "my", "test"], "(one, two)")).as_str(),
        "test"
    );
}

#[test]
fn works_with_name_value_attributes() {
    assert_eq!(attribute_name_to_string(&attr(&["test"], "= 123")).as_str(), "test");
}

#[test]
fn works_with_pathed_name_value_attributes() {
    assert_eq!(attribute_name_to_string(&attr(&["path", "to", "my", "test"], "= 123")).as_str(), "test");
}

#[test]
fn returns_empty_string_when_empty_attribute() {
    assert_eq!(attribute_name_to_string(&attr(&[], "")).as_str(), "");
}

fn exprs_text(v: &[WithExpr]) -> Vec<String> {
    v.iter()
        .map(|w| match w {
            WithExpr::Assignment { expr, .. } => tokens_text(expr, 0, expr.len()),
            WithExpr::Verbatim(t) => tokens_text(t, 0, t.len()),
        })
        .collect()
}

#[test]
fn parses_single_values() {
    let v = greedy_parse_with_delim(&toks("\"foo\"")).unwrap();
    assert_eq!(exprs_text(&v), vec!["\"foo\"".to_string()]);
}

#[test]
fn parses_many_values() {
    let v = greedy_parse_with_delim(&toks("\"foo\", \"bar\"")).unwrap();
    assert_eq!(exprs_text(&v), vec!["\"foo\"".to_string(), "\"bar\"".to_string()]);
}

#[test]
fn propegates_error_when_invalid_delim() {
    assert!(greedy_parse_with_delim(&toks("\"foo\";")).is_err());
}

#[test]
fn returns_empty_collection_on_empty_input_tokens() {
    assert_eq!(greedy_parse_with_delim(&toks("")).unwrap(), Vec::new());
}

#[test]
fn trailing_comma_is_an_error_of_the_argument_parser() {
    assert_eq!(greedy_parse_with_delim(&toks("1,")), Err(Error::ExpectedToken));
}

#[test]
fn generic_arguments_stay_in_one_expression() {
    let v = greedy_parse_with_delim(&toks("MyStruct::<'static, str>(\"test\", (0, 1)), 2")).unwrap();
    assert_eq!(v.len(), 2);
    assert_eq!(
        v[0],
        WithExpr::Assignment { mutable: false, expr: toks("MyStruct::<'static, str>(\"test\", (0, 1))") }
    );
    assert_eq!(v[1], WithExpr::Assignment { mutable: false, expr: toks("2") });
}

#[test]
fn parses_parentheses() {
    let s = toks("(test, 123)");
    assert_eq!(parse_group_with_delim(Delimiter::Parenthesis, &s, 0), Ok((toks("test, 123"), s.len())));
}

#[test]
fn returns_error_on_invalid_parentheses_tokens() {
    let r = parse_group_with_delim(Delimiter::Parenthesis, &toks("[test, 123]"), 0);
    assert_eq!(r, Err(Error::ExpectedDelimiter(Delimiter::Parenthesis)));
    assert_eq!(r.unwrap_err().message(), "expected `()`");
}

#[test]
fn parses_braces() {
    let s = toks("{test, 123}");
    assert_eq!(parse_group_with_delim(Delimiter::Brace, &s, 0), Ok((toks("test, 123"), s.len())));
}

#[test]
fn returns_error_on_invalid_brace_tokens() {
    let r = parse_group_with_delim(Delimiter::Brace, &toks("[test, 123]"), 0);
    assert_eq!(r.unwrap_err().message(), "expected `{}`");
}

#[test]
fn parses_brackets() {
    let s = toks("[test, 123]");
    assert_eq!(parse_group_with_delim(Delimiter::Bracket, &s, 0), Ok((toks("test, 123"), s.len())));
}

#[test]
fn returns_error_on_invalid_bracket_tokens() {
    let r = parse_group_with_delim(Delimiter::Bracket, &toks("{test, 123}"), 0);
    assert_eq!(r.unwrap_err().message(), "expected `[]`");
}

#[test]
fn common_returns_error_on_no_tokens() {
    let r = parse_group_with_delim(Delimiter::Parenthesis, &toks(""), 0);
    assert_eq!(r.unwrap_err().message(), "expected `()`");
}

#[test]
fn nested_groups_close_at_their_own_end() {
    let s = toks("(a, (b, c), [d]) e");
    assert_eq!(parse_group_with_delim(Delimiter::Parenthesis, &s, 0), Ok((toks("a, (b, c), [d]"), s.len() - 1)));
}

#[test]
fn parses_groups() {
    let s = toks("(inner)");
    assert_eq!(parse_next_tt(&s, 0), Ok((Token::Open(Delimiter::Parenthesis), 1)));
}

#[test]
fn parses_idents() {
    assert_eq!(parse_next_tt(&toks("test"), 0), Ok((Token::Ident("test".to_string()), 1)));
}

#[test]
fn parses_punctuation() {
    assert_eq!(parse_next_tt(&toks(","), 0), Ok((Token::Punct(',', false), 1)));
}

#[test]
fn parses_literals() {
    assert_eq!(parse_next_tt(&toks("\"test\""), 0), Ok((Token::Literal("\"test\"".to_string()), 1)));
}

#[test]
fn returns_error_on_no_tokens() {
    let r = parse_next_tt(&toks(""), 0);
    assert_eq!(r, Err(Error::ExpectedToken));
    assert_eq!(r.unwrap_err().message(), "expected token");
}

#[test]
fn parses_groups_without_advancing_input_stream() {
    let s = toks("(inner)");
    assert_eq!(peek_next_tt(&s, 0), Ok(Token::Open(Delimiter::Parenthesis)));
    assert_eq!(peek_next_tt(&s, 0), Ok(Token::Open(Delimiter::Parenthesis)));
}

#[test]
fn parses_idents_without_advancing_input_stream() {
    let s = toks("test");
    assert_eq!(peek_next_tt(&s, 0), Ok(Token::Ident("test".to_string())));
    assert_eq!(s, toks("test"));
}

#[test]
fn parses_punctuation_without_advancing_input_stream() {
    assert_eq!(peek_next_tt(&toks(","), 0), Ok(Token::Punct(',', false)));
}

#[test]
fn parses_literals_without_advancing_input_stream() {
    assert_eq!(peek_next_tt(&toks("\"test\""), 0), Ok(Token::Literal("\"test\"".to_string())));
}

#[test]
fn peek_returns_error_on_no_tokens() {
    assert_eq!(peek_next_tt(&toks(""), 0).unwrap_err().message(), "expected token");
}

#[test]
fn text_joins_tokens_with_spaces_except_after_joint_punctuation() {
    let s = toks("a::b(1, 'static) -> c");
    assert_eq!(tokens_text(&s, 0, s.len()), "a :: b ( 1 , 'static ) -> c");
}
