use proc_macro2::{Spacing, TokenStream, TokenTree};
use sith::error::Error;
use sith::mutators::Mutators;
use sith::params::init::ParamInit;
use sith::params::name::{ArgName, ParamName};
use sith::params::setup::ParamSetup;
use sith::params::split_rust_fn_input;
use sith::params::teardown::ParamTeardown;
use sith::params::with::{parse_assignment, parse_with_expr, replace_ident, ParamWith, WithExpr};
use sith::syntax::{render_stmts, Attribute, FnInput, ItemFn, ItemStatic, Pattern};
use sith::test_suite::SuiteMutator;
use sith::tokens::{Delimiter, Token};

fn delimiter(d: proc_macro2::Delimiter) -> Delimiter {
    match d {
        proc_macro2::Delimiter::Parenthesis => Delimiter::Parenthesis,
        proc_macro2::Delimiter::Brace => Delimiter::Brace,
        proc_macro2::Delimiter::Bracket => Delimiter::Bracket,
        proc_macro2::Delimiter::None => Delimiter::Invisible,
    }
}

fn flatten(ts: TokenStream, out: &mut Vec<Token>) {
    for tt in ts {
        match tt {
            TokenTree::Ident(i) => out.push(Token::Ident(i.to_string())),
            TokenTree::Punct(p) => out.push(Token::Punct(p.as_char(), p.spacing() == Spacing::Joint)),
            TokenTree::Literal(l) => out.push(Token::Literal(l.to_string())),
            TokenTree::Group(g) => {
                let d = delimiter(g.delimiter());
                out.push(Token::Open(d));
                flatten(g.stream(), out);
                out.push(Token::Close(d));
            }
        }
    }
}

fn toks(src: &str) -> Vec<Token> {
    let ts: TokenStream = src.parse().unwrap();
    let mut out = Vec::new();
    flatten(ts, &mut out);
    out
}

fn stmts(src: &[&str]) -> Vec<Vec<Token>> {
    src.iter().map(|s| toks(s)).collect()
}

fn typed(attrs: Vec<Attribute>, mutable: bool, name: &str, ty: &str) -> FnInput {
    FnInput::Typed {
        attrs,
        pat: Pattern::Ident { by_ref: false, mutable, name: name.to_string() },
        ty: toks(ty),
    }
}

fn function(name: &str, inputs: Vec<FnInput>, body: &[&str]) -> ItemFn {
    ItemFn {
        attrs: Vec::new(),
        head: Vec::new(),
        name: name.to_string(),
        generics: Vec::new(),
        inputs,
        tail: Vec::new(),
        body: stmts(body),
    }
}

fn with(src: &str) -> ParamWith {
    ParamWith::parse(&toks(src)).unwrap()
}

fn flat(body: &[Vec<Token>]) -> Vec<Token> {
    let mut out = Vec::new();
    render_stmts(&body.to_vec(), &mut out);
    out
}

#[test]
fn parses_explicit_type_annotation() {
    let input = typed(Vec::new(), false, "one", "usize");
    let (attrs, pat, ty) = split_rust_fn_input(Some(&input)).unwrap();
    assert!(attrs.is_empty());
    assert_eq!(*pat, Pattern::Ident { by_ref: false, mutable: false, name: "one".to_string() });
    assert_eq!(*ty, toks("usize"));
}

#[test]
fn parses_ducked_type_annotation() {
    let input = typed(Vec::new(), false, "one", "_");
    let (_, pat, ty) = split_rust_fn_input(Some(&input)).unwrap();
    assert_eq!(*pat, Pattern::Ident { by_ref: false, mutable: false, name: "one".to_string() });
    assert_eq!(*ty, toks("_"));
}

#[test]
fn parses_outer_attribute() {
    let a = Attribute { inner: false, path: vec!["my_attr".to_string()], rest: Vec::new() };
    let input = typed(vec![a.clone()], false, "one", "String");
    let (attrs, _, ty) = split_rust_fn_input(Some(&input)).unwrap();
    assert_eq!(*attrs, vec![a]);
    assert_eq!(*ty, toks("String"));
}

#[test]
fn returns_error_on_self_fn_parameter() {
    let input = FnInput::Receiver(toks("self"));
    let r = split_rust_fn_input(Some(&input));
    assert_eq!(r, Err(Error::InvalidParameter));
    assert_eq!(r.unwrap_err().message(), "invalid parameter");
}

#[test]
fn returns_error_when_no_bindings_provided() {
    let r = split_rust_fn_input(None);
    assert_eq!(r, Err(Error::NoCorrespondingInput));
    assert_eq!(r.unwrap_err().message(), "no corresponding input");
}

#[test]
fn parse_accepts_ident() {
    assert_eq!(ParamName::parse(&toks("test")), Ok(ParamName("test".to_string())));
}

#[test]
fn parse_accepts_type() {
    assert_eq!(ParamName::parse(&toks("usize")), Ok(ParamName("usize".to_string())));
}

#[test]
fn parse_returns_error_on_non_ident() {
    let r = ParamName::parse(&toks("(group)"));
    assert_eq!(r.unwrap_err().message(), "expected test name");
}

#[test]
fn name_is_appended_to_the_function_name() {
    let mut f = function("f", Vec::new(), &[]);
    let n: ArgName = ParamName("foo".to_string());
    n.mutate(&mut f);
    assert_eq!(f.name, "f_foo");
}

#[test]
fn mutate_correctly_prepends_statements_preserving_order() {
    let setup = stmts(&["let a = 1;", "let b = 2;", "let c = 3;"]);
    let mut body = stmts(&["let c = 3;", "let b = 2;", "let a = 1;"]);
    let mut expected = setup.clone();
    expected.extend(body.clone());
    ParamSetup(setup).mutate(&mut body);
    assert_eq!(body.len(), expected.len());
    assert_eq!(body, expected);
}

#[test]
fn mutate_works_with_no_parsed_statements() {
    let unchanged = stmts(&["let a = 1;", "let b = 2;", "let c = 3;"]);
    let mut body = unchanged.clone();
    ParamSetup(Vec::new()).mutate(&mut body);
    assert_eq!(body.len(), unchanged.len());
    assert_eq!(body, unchanged);
}

#[test]
fn parameter_is_unique() {
    let mut m: Mutators<SuiteMutator> = Mutators::new();
    assert!(m.insert_unique(SuiteMutator::Setup(ParamSetup(Vec::new()))).is_ok());
    assert_eq!(
        m.insert_unique(SuiteMutator::Setup(ParamSetup(stmts(&["let a = 1;"])))),
        Err(Error::DuplicateParameter)
    );
}

#[test]
fn to_tokens_outputs_internal_contents_literally() {
    let setup = ParamSetup(stmts(&["let a = 1;", "let b = 2;", "let c = 3;"]));
    assert_eq!(flat(&setup.0), toks("let a = 1; let b = 2; let c = 3;"));
}

#[test]
fn mutate_stmt_order() {
    let teardown = stmts(&["let a = 1;", "let b = 2;", "let c = 3;"]);
    let mut body = stmts(&["let c = 3;", "let b = 2;", "let a = 1;"]);
    let mut expected = body.clone();
    expected.extend(teardown.clone());
    ParamTeardown(teardown).mutate(&mut body);
    assert_eq!(body.len(), expected.len());
    assert_eq!(body, expected);
}

#[test]
fn empty() {
    let unchanged = stmts(&["let a = 1;", "let b = 2;", "let c = 3;"]);
    let mut body = unchanged.clone();
    ParamTeardown(Vec::new()).mutate(&mut body);
    assert_eq!(body.len(), unchanged.len());
    assert_eq!(body, unchanged);
}

#[test]
fn uniqueness() {
    let mut m: Mutators<SuiteMutator> = Mutators::new();
    assert!(m.insert_unique(SuiteMutator::Teardown(ParamTeardown(Vec::new()))).is_ok());
    assert_eq!(
        m.insert_unique(SuiteMutator::Teardown(ParamTeardown(stmts(&["let a = 1;"])))),
        Err(Error::DuplicateParameter)
    );
}

#[test]
fn to_tokens() {
    let teardown = ParamTeardown(stmts(&["let a = 1;", "let b = 2;", "let c = 3;"]));
    assert_eq!(flat(&teardown.0), toks("let a = 1; let b = 2; let c = 3;"));
}

fn assignment_of(src: &str) -> (bool, Vec<Token>) {
    match parse_assignment(&toks(src), 0).unwrap().0 {
        WithExpr::Assignment { mutable, expr } => (mutable, expr),
        WithExpr::Verbatim(_) => panic!("not an assignment"),
    }
}

#[test]
fn parses_primitive_inputs() {
    assert_eq!(assignment_of("0"), (false, toks("0")));
    assert_eq!(assignment_of("\"test\""), (false, toks("\"test\"")));
}

#[test]
fn parses_enum_variant_inputs() {
    assert_eq!(assignment_of("Option::Some(0)"), (false, toks("Option::Some(0)")));
    assert_eq!(assignment_of("Matrix::M3{x: 0, y: 0, z: 0}"), (false, toks("Matrix::M3{x: 0, y: 0, z: 0}")));
}

#[test]
fn parses_named_tuple_inputs() {
    let a = "MyStruct::<'static, str>(\"test\", (0, 1))";
    assert_eq!(assignment_of(a), (false, toks(a)));
    let b = "MyStruct::<'static, str>{a: &\"test\", b:(0, 1)}";
    assert_eq!(assignment_of(b), (false, toks(b)));
}

#[test]
fn parses_inputs_with_instantiation_methods() {
    let a = "MyStruct::<'static, str>::new(\"test\", (0, 1))";
    assert_eq!(assignment_of(a), (false, toks(a)));
}

#[test]
fn parses_ref_inputs() {
    let a = "&mut MyStruct::<'static, str>::new(\"test\", (0, 1))";
    assert_eq!(assignment_of(a), (false, toks(a)));
}

#[test]
fn parses_inputs_with_mut_override() {
    assert_eq!(assignment_of("mut usize::default()"), (true, toks("usize::default()")));
}

#[test]
fn parse_returns_error_on_empty() {
    let r = parse_assignment(&toks(""), 0);
    assert_eq!(r, Err(Error::ExpectedInput));
    assert_eq!(r.unwrap_err().message(), "expected input");
}

#[test]
fn mutate_accepts_infer_type() {
    let mut f = function("input", vec![typed(Vec::new(), false, "input", "_")], &[]);
    assert!(with("\"test\"").mutate(&mut f).is_ok());
    assert_eq!(f.body[0], toks("let input: _ = \"test\";"));
}

#[test]
fn mutate_propagates_attributes() {
    let a = Attribute { inner: false, path: vec!["my_attr".to_string()], rest: Vec::new() };
    let mut f = function("input", vec![typed(vec![a], false, "input", "bool")], &[]);
    assert!(with("true").mutate(&mut f).is_ok());
    assert_eq!(f.body[0], toks("#[my_attr] let input: bool = true;"));
}

#[test]
fn mutate_propagates_lifetimes() {
    let mut f = function("input", vec![typed(Vec::new(), false, "input", "&'static MyStruct")], &[]);
    assert!(with("&MyStruct::<'static, str>(\"test\")").mutate(&mut f).is_ok());
    assert_eq!(f.body[0], toks("let input: &'static MyStruct = &MyStruct::<'static, str>(\"test\");"));
}

#[test]
fn mutate_propagates_mut_overrides() {
    let mut f = function("input", vec![typed(Vec::new(), false, "input", "usize")], &[]);
    assert!(with("mut 123").mutate(&mut f).is_ok());
    assert_eq!(f.body[0], toks("let mut input: usize = 123;"));
}

#[test]
fn mutate_propagates_mut_overrides_when_already_defined_on_binding() {
    let mut f = function("input", vec![typed(Vec::new(), true, "input", "usize")], &[]);
    assert!(with("mut 123").mutate(&mut f).is_ok());
    assert_eq!(f.body[0], toks("let mut input: usize = 123;"));
}

#[test]
fn with_count_mismatch_names_both_counts() {
    let mut f = function("input", Vec::new(), &["x();"]);
    let before = f.clone();
    let r = with("0").mutate(&mut f);
    assert_eq!(r, Err(Error::InputCount { inputs: 0, args: 1 }));
    assert_eq!(r.unwrap_err().message(), "with(): 0 fn inputs but only 1 args declared");
    assert_eq!(f, before);
}

#[test]
fn with_binds_inputs_in_declared_order() {
    let mut f = function(
        "f",
        vec![typed(Vec::new(), false, "a", "u8"), typed(Vec::new(), false, "b", "u16")],
        &["run(a, b);"],
    );
    assert!(with("1, 2").mutate(&mut f).is_ok());
    assert!(f.inputs.is_empty());
    assert_eq!(f.body, stmts(&["let a: u8 = 1;", "let b: u16 = 2;", "run(a, b);"]));
}

#[test]
fn with_rejects_a_receiver() {
    let mut f = function("f", vec![FnInput::Receiver(toks("&self"))], &[]);
    assert_eq!(with("1").mutate(&mut f), Err(Error::InvalidParameter));
}

#[test]
fn with_rejects_a_pattern_that_is_not_a_name() {
    let input = FnInput::Typed { attrs: Vec::new(), pat: Pattern::Other(toks("(x, y)")), ty: toks("(u8, u8)") };
    let mut f = function("f", vec![input], &[]);
    let r = with("(1, 2)").mutate(&mut f);
    assert_eq!(r.unwrap_err().message(), "expected identifier");
}

#[test]
fn parse_accepts_empty_tokens() {
    assert_eq!(parse_with_expr(&toks("verbatim()"), 0), Ok((WithExpr::Verbatim(Vec::new()), 3)));
}

#[test]
fn parse_accepts_arbitrary_tokens() {
    let s = toks("verbatim(n *$ ## 1- {})");
    let (w, next) = parse_with_expr(&s, 0).unwrap();
    assert_eq!(w, WithExpr::Verbatim(toks("n *$ ## 1- {}")));
    assert_eq!(next, s.len());
}

#[test]
fn parse_returns_error_when_missing_param_parenthesis() {
    let r = parse_with_expr(&toks("verbatim"), 0);
    assert_eq!(r.unwrap_err().message(), "expected `()`");
}

#[test]
fn mutate_works_when_no_tokens_captured() {
    let mut f = function("foo", vec![typed(Vec::new(), false, "r#replace", "_")], &["let a = r#replace(0);"]);
    assert!(with("verbatim()").mutate(&mut f).is_ok());
    assert_eq!(f.inputs.len(), 0);
    assert_eq!(f.body[0], toks("let a = (0);"));
}

#[test]
fn mutate_returns_error_when_not_annotated_as_infer_type() {
    let mut f = function("foo", vec![typed(Vec::new(), false, "r#replace", "usize")], &["let a = Option::r#replace;"]);
    let r = with("verbatim()").mutate(&mut f);
    assert_eq!(r.unwrap_err().message(), "verbatim inputs must be tagged as `_`");
}

fn replaced(src: &str, name: &str, sub: &str) -> Vec<Token> {
    replace_ident(&toks(src), &name.to_string(), &toks(sub))
}

#[test]
fn works_within_nested_parenthesis() {
    assert_eq!(
        replaced("let val: usize = foo(r#replace, bar(r#replace));", "r#replace", "123"),
        toks("let val: usize = foo(123, bar(123));")
    );
}

#[test]
fn works_within_nested_braces() {
    assert_eq!(
        replaced(
            "let val: Matrix = if true { Matrix::M2 { x: r#replace, y: 1 } } else { Matrix::M2 { x: 1, y: r#replace } }",
            "r#replace",
            "123"
        ),
        toks("let val: Matrix = if true { Matrix::M2 { x: 123, y: 1 } } else { Matrix::M2 { x: 1, y: 123 } }")
    );
}

#[test]
fn works_within_nested_brackets() {
    assert_eq!(
        replaced("let tiles: [Chunk<[Tile; r#replace]>; r#replace];", "r#replace", "64"),
        toks("let tiles: [Chunk<[Tile; 64]>; 64];")
    );
}

#[test]
fn works_with_empty_substitution_tokens() {
    assert_eq!(replaced("", "r#replace", "64"), toks(""));
}

#[test]
fn result_is_unchanged_when_no_matches_found() {
    assert_eq!(replaced("let a: usize = usize::MAX;", "r#replace", "64"), toks("let a: usize = usize::MAX;"));
}

#[test]
fn replacement_leaves_string_literals_alone() {
    assert_eq!(replaced("f(t, \"t\")", "t", "u8"), toks("f(u8, \"t\")"));
}

fn static_item(name: &str, expr: &str) -> ItemStatic {
    ItemStatic {
        attrs: Vec::new(),
        head: Vec::new(),
        mutable: false,
        name: name.to_string(),
        ty: toks("usize"),
        expr: toks(expr),
    }
}

#[test]
fn init_rewrites_a_static_that_it_assigns() {
    let init = ParamInit(stmts(&["MEME = 123;"]));
    let mut s = static_item("MEME", "init");
    assert!(ParamInit::is_init_target(&s));
    assert!(init.mutate_static(&mut s).is_ok());
    assert!(s.mutable);
    assert_eq!(s.expr, toks("unsafe { core::mem::MaybeUninit::uninit().assume_init() }"));
}

#[test]
fn init_rejects_a_static_that_it_never_assigns() {
    let init = ParamInit(stmts(&["OTHER = 1;", "MEME == 2;"]));
    let mut s = static_item("MEME", "init");
    let r = init.mutate_static(&mut s);
    assert_eq!(r, Err(Error::Uninitialized("MEME".to_string())));
    assert_eq!(r.unwrap_err().message(), "uninitialized value `MEME`");
    assert_eq!(s, static_item("MEME", "init"));
}

#[test]
fn init_leaves_other_statics_alone() {
    let init = ParamInit(Vec::new());
    let mut s = static_item("SEED", "123");
    assert!(!ParamInit::is_init_target(&s));
    assert!(init.mutate_static(&mut s).is_ok());
    assert_eq!(s, static_item("SEED", "123"));
}

#[test]
fn init_items_hold_the_statements() {
    let init = ParamInit(stmts(&["MEME = 1;"]));
    let mut out = Vec::new();
    init.to_tokens(&mut out);
    assert_eq!(
        out,
        toks("static INIT: std::sync::Once = std::sync::Once::new(); fn __INIT() { unsafe { MEME = 1; } }")
    );
}

#[test]
fn init_marker_is_recognised() {
    let mut f = function("init", Vec::new(), &[]);
    assert!(!ParamInit::is_init(&f));
    f.attrs.push(Attribute { inner: false, path: vec!["init".to_string()], rest: Vec::new() });
    assert!(ParamInit::is_init(&f));
}
