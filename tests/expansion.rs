use proc_macro2::{Spacing, TokenStream, TokenTree};
use sith::error::Error;
use sith::mutators::Mutators;
use sith::params::name::ParamName;
use sith::params::setup::ParamSetup;
use sith::params::teardown::ParamTeardown;
use sith::params::with::ParamWith;
use sith::syntax::{render_mod_head, Attribute, FnInput, Item, ItemFn, ItemMod, Pattern};
use sith::test_case::{render_test_case, TestCase, TestMutator};
use sith::test_suite::{render_test_suite, SuiteMutator, TestSuite};
use sith::tokens::{Delimiter, Token};

fn delimiter(d: proc_macro2::Delimiter) -> Delimiter {
    match d {
        proc_macro2::Delimiter::Parenthesis => Delimiter::Parenthesis,
        proc_macro2::Delimiter::Brace => Delimiter::Brace,
        proc_macro2::Delimiter::Bracket => Delimiter::Bracket,
        proc_macro2::Delimiter::None => Delimiter::Invisible,
    }
}

fn flatten(ts: TokenStream, out: &mut Vec<Token>) {
    for tt in ts {
        match tt {
            TokenTree::Ident(i) => out.push(Token::Ident(i.to_string())),
            TokenTree::Punct(p) => out.push(Token::Punct(p.as_char(), p.spacing() == Spacing::Joint)),
            TokenTree::Literal(l) => out.push(Token::Literal(l.to_string())),
            TokenTree::Group(g) => {
                let d = delimiter(g.delimiter());
                out.push(Token::Open(d));
                flatten(g.stream(), out);
                out.push(Token::Close(d));
            }
        }
    }
}

fn toks(src: &str) -> Vec<Token> {
    let ts: TokenStream = src.parse().unwrap();
    let mut out = Vec::new();
    flatten(ts, &mut out);
    out
}

fn stmts(src: &[&str]) -> Vec<Vec<Token>> {
    src.iter().map(|s| toks(s)).collect()
}

fn attr(path: &str, rest: &str) -> Attribute {
    Attribute { inner: false, path: path.split("::").map(|s| s.to_string()).collect(), rest: toks(rest) }
}

fn typed(name: &str, ty: &str) -> FnInput {
    FnInput::Typed {
        attrs: Vec::new(),
        pat: Pattern::Ident { by_ref: false, mutable: false, name: name.to_string() },
        ty: toks(ty),
    }
}

fn function(attrs: Vec<Attribute>, name: &str, inputs: Vec<FnInput>, body: &[&str]) -> ItemFn {
    ItemFn {
        attrs,
        head: Vec::new(),
        name: name.to_string(),
        generics: Vec::new(),
        inputs,
        tail: Vec::new(),
        body: stmts(body),
    }
}

fn module(name: &str, items: Vec<Item>) -> ItemMod {
    ItemMod { attrs: Vec::new(), head: Vec::new(), name: name.to_string(), content: Some(items) }
}

fn case(src: &str) -> TestCase {
    TestCase::parse(&toks(src)).unwrap()
}

fn kinds(c: &TestCase) -> Vec<&'static str> {
    c.0.slots
        .iter()
        .flatten()
        .map(|m| match m {
            TestMutator::ParamName(_) => "name",
            TestMutator::ParamWith(_) => "with",
        })
        .collect()
}

#[test]
fn insert_unique_returns_error_if_item_exists() {
    let mut m: Mutators<TestMutator> = Mutators::new();
    assert!(m.insert_unique(TestMutator::ParamName(ParamName("a".to_string()))).is_ok());
    let r = m.insert_unique(TestMutator::ParamName(ParamName("a".to_string())));
    assert_eq!(r, Err(Error::DuplicateParameter));
    assert_eq!(r.unwrap_err().message(), "duplicate parameter");
}

#[test]
fn test_mutators_are_ordered_correctly() {
    let mut m: Mutators<TestMutator> = Mutators::new();
    m.insert_unique(TestMutator::ParamWith(ParamWith(Vec::new()))).unwrap();
    m.insert_unique(TestMutator::ParamName(ParamName("test".to_string()))).unwrap();
    assert_eq!(kinds(&TestCase(m)), vec!["name", "with"]);
}

#[test]
fn parse_works_with_all_subparams() {
    assert_eq!(kinds(&case("test, with()")), vec!["name", "with"]);
}

#[test]
fn parse_works_with_no_subparams() {
    assert_eq!(kinds(&case("")), Vec::<&str>::new());
}

#[test]
fn parse_returns_error_on_unrecognized_subparam() {
    let r = TestCase::parse(&toks("foobar()"));
    assert_eq!(r.unwrap_err().message(), "unrecognized arg");
}

#[test]
fn duplicate_names_in_one_invocation_are_rejected() {
    assert_eq!(TestCase::parse(&toks("one, two")).unwrap_err(), Error::DuplicateParameter);
    assert_eq!(TestCase::parse(&toks("with(1), with(2)")).unwrap_err(), Error::DuplicateParameter);
}

#[test]
fn arguments_must_be_separated_by_commas() {
    assert_eq!(TestCase::parse(&toks("one two")).unwrap_err().message(), "expected `,`");
    assert_eq!(
        TestCase::parse(&toks("\"x\"")).unwrap_err().message(),
        "expected one of: `name`, `arg(...)`"
    );
}

#[test]
fn mutate_works_with_empty_target_functions() {
    let c = case("test, with()");
    let mut f = function(Vec::new(), "test", Vec::new(), &[]);
    assert!(c.mutate(&mut f).is_ok());
    assert_eq!(f.name, "test_test");
}

#[test]
fn mutate_is_ok_with_no_mutators() {
    let c = case("");
    let mut f = function(Vec::new(), "test", Vec::new(), &[]);
    assert!(c.mutate(&mut f).is_ok());
}

#[test]
fn recognizes_test_case() {
    assert!(TestCase::is_test(&function(vec![attr("test_case", "")], "my_test", Vec::new(), &[])));
}

#[test]
fn recognizes_test() {
    assert!(TestCase::is_test(&function(vec![attr("test", "")], "my_test", Vec::new(), &[])));
}

#[test]
fn recognizes_wasm_bindgen_test() {
    assert!(TestCase::is_test(&function(vec![attr("wasm_bindgen_test", "")], "my_test", Vec::new(), &[])));
}

#[test]
fn does_not_recognize_other_attributes_named_test() {
    let attrs = vec![attr("foo_test", ""), attr("test_bar", ""), attr("test_", ""), attr("_test", "")];
    assert!(!TestCase::is_test(&function(attrs, "my_test", Vec::new(), &[])));
}

#[test]
fn with_binds_in_order_and_marks_the_test() {
    let f = function(Vec::new(), "f", vec![typed("a", "usize"), typed("b", "usize")], &["assert_eq!(a, b);"]);
    let out = sith::test_case(&toks("with(1,1)"), f);
    assert_eq!(
        out,
        toks("#[test] fn f() { let a: usize = 1; let b: usize = 1; assert_eq!(a, b); }")
    );
}

#[test]
fn stacked_names_give_one_function_each() {
    let f = function(vec![attr("test_case", "(bar)")], "f", Vec::new(), &[]);
    let out = sith::test_case(&toks("foo"), f);
    assert_eq!(out, toks("#[test] fn f_foo() {} #[test] fn f_bar() {}"));
}

#[test]
fn duplicate_setup_is_rejected_when_parsed() {
    let m = module(
        "suite",
        vec![
            Item::Fn(function(vec![attr("setup", "")], "one", Vec::new(), &["let a = 1;"])),
            Item::Fn(function(vec![attr("setup", "")], "two", Vec::new(), &["let b = 2;"])),
            Item::Fn(function(vec![attr("test", "")], "t", Vec::new(), &[])),
        ],
    );
    let r = TestSuite::parse(m.clone());
    assert_eq!(r.unwrap_err(), Error::DuplicateParameter);
    assert_eq!(
        sith::test_suite(m),
        toks("::core::compile_error!{\"duplicate parameter\"}")
    );
}

#[test]
fn verbatim_replaces_the_type_name() {
    let f = function(Vec::new(), "f", vec![typed("val", "_"), typed("t", "_")], &["assert_eq!(val as t, t::default());"]);
    let out = sith::test_case(&toks("with(0, verbatim(usize))"), f);
    assert_eq!(
        out,
        toks("#[test] fn f() { let val: _ = 0; assert_eq!(val as usize, usize::default()); }")
    );
}

#[test]
fn a_failing_invocation_does_not_stop_the_others() {
    let f = function(
        vec![attr("test_case", "(two, with(2, 2))"), attr("inline", "")],
        "f",
        vec![typed("x", "u8")],
        &[],
    );
    let out = sith::test_case(&toks("one, with(1)"), f);
    let mut expected = toks("#[inline] #[test] fn f_one() { let x: u8 = 1; }");
    expected.extend(toks("::core::compile_error!{\"with(): 1 fn inputs but only 2 args declared\"}"));
    assert_eq!(out, expected);
}

#[test]
fn stacked_invocation_without_parentheses_is_an_error() {
    let f = function(vec![attr("test_case", "= 1")], "f", Vec::new(), &[]);
    let out = render_test_case(case("a"), f);
    let mut expected = toks("#[test] fn f_a() {}");
    expected.extend(toks("::core::compile_error!{\"expected attribute arguments in parentheses\"}"));
    assert_eq!(out, expected);
}

#[test]
fn arguments_error_replaces_the_function() {
    let f = function(Vec::new(), "f", Vec::new(), &[]);
    assert_eq!(sith::test_case(&toks("a b"), f), toks("::core::compile_error!{\"expected `,`\"}"));
}

fn suite_with(setup: &[&str], teardown: &[&str], items: Vec<Item>) -> TestSuite {
    let mut m = Mutators::new();
    m.insert_unique(SuiteMutator::Setup(ParamSetup(stmts(setup)))).unwrap();
    m.insert_unique(SuiteMutator::Teardown(ParamTeardown(stmts(teardown)))).unwrap();
    TestSuite { module: module("my_suite", items), mutators: Some(m) }
}

#[test]
fn parse_consumes_setup_function() {
    let m = module(
        "my_suite",
        vec![
            Item::Fn(function(vec![attr("setup", "")], "setup", Vec::new(), &[])),
            Item::Fn(function(vec![attr("test_case", "")], "foo", Vec::new(), &[])),
        ],
    );
    let s = TestSuite::parse(m).unwrap();
    assert!(matches!(s.mutators.as_ref().unwrap().slots[0], Some(SuiteMutator::Setup(_))));
    let mut out = Vec::new();
    s.to_tokens(&mut out);
    assert_eq!(out, toks("mod my_suite { #[test_case] fn foo() {} }"));
}

#[test]
fn parse_consumes_teardown_function() {
    let m = module(
        "my_suite",
        vec![
            Item::Fn(function(vec![attr("teardown", "")], "teardown", Vec::new(), &[])),
            Item::Fn(function(vec![attr("test_case", "")], "foo", Vec::new(), &[])),
        ],
    );
    let s = TestSuite::parse(m).unwrap();
    assert!(matches!(s.mutators.as_ref().unwrap().slots[1], Some(SuiteMutator::Teardown(_))));
    let mut out = Vec::new();
    s.to_tokens(&mut out);
    assert_eq!(out, toks("mod my_suite { #[test_case] fn foo() {} }"));
}

#[test]
fn parse_works_with_no_setup_and_teardown() {
    let m = module("my_suite", vec![Item::Fn(function(vec![attr("test_case", "")], "foo", Vec::new(), &[]))]);
    let s = TestSuite::parse(m).unwrap();
    assert!(s.mutators.as_ref().unwrap().slots.iter().all(|x| x.is_none()));
    assert_eq!(render_test_suite(s), toks("mod my_suite { #[test_case] fn foo() {} }"));
}

#[test]
fn parse_works_with_empty_modules() {
    let s = TestSuite::parse(module("my_suite", Vec::new())).unwrap();
    assert_eq!(render_test_suite(s), toks("mod my_suite {}"));
}

#[test]
fn mod_mutate_is_ok_with_no_mutators() {
    let items = vec![
        Item::Fn(function(Vec::new(), "foo", Vec::new(), &[])),
        Item::Fn(function(Vec::new(), "bar", Vec::new(), &[])),
        Item::Fn(function(Vec::new(), "baz", Vec::new(), &[])),
    ];
    let s = TestSuite { module: module("my_suite", items), mutators: None };
    assert_eq!(render_test_suite(s), toks("mod my_suite { fn foo() {} fn bar() {} fn baz() {} }"));
}

#[test]
fn mutate_applies_setup_and_teardown_in_order() {
    let mut m = Mutators::new();
    m.insert_unique(SuiteMutator::Teardown(ParamTeardown(stmts(&["let b = 456;"])))).unwrap();
    m.insert_unique(SuiteMutator::Setup(ParamSetup(stmts(&["let a = 123;"])))).unwrap();
    let items = vec![Item::Fn(function(vec![attr("test", "")], "foo", Vec::new(), &["bar();"]))];
    let s = TestSuite { module: module("my_suite", items), mutators: Some(m) };
    assert_eq!(
        render_test_suite(s),
        toks("mod my_suite { #[test] fn foo() { let a = 123; bar(); let b = 456; } }")
    );
}

#[test]
fn mutate_only_affects_tests() {
    let items = vec![
        Item::Fn(function(vec![attr("wasm_bindgen_test", "")], "one", Vec::new(), &[])),
        Item::Verbatim(toks("const SEED: usize = 123;")),
        Item::Verbatim(toks("use crate::foo::*;")),
        Item::Verbatim(toks("struct Foo;")),
        Item::Fn(function(vec![attr("test_case", "")], "two", Vec::new(), &[])),
        Item::Verbatim(toks("enum Bar{ZERO}")),
        Item::Fn(function(Vec::new(), "helper", Vec::new(), &["x();"])),
        Item::Verbatim(toks("type Whiskey = Delta;")),
        Item::Fn(function(vec![attr("test", "")], "three", Vec::new(), &[])),
    ];
    let s = suite_with(&["let a = 123;"], &["let b = 456;"], items);
    assert_eq!(
        render_test_suite(s),
        toks(
            "mod my_suite {
                #[wasm_bindgen_test] fn one() { let a = 123; let b = 456; }
                const SEED: usize = 123;
                use crate::foo::*;
                struct Foo;
                #[test_case] fn two() { let a = 123; let b = 456; }
                enum Bar{ZERO}
                fn helper() { x(); }
                type Whiskey = Delta;
                #[test] fn three() { let a = 123; let b = 456; }
            }"
        )
    );
}

#[test]
fn to_tokens_outputs_parsed_module_as_is() {
    let m = module("my_suite", vec![Item::Fn(function(vec![attr("test_case", "")], "my_test", Vec::new(), &[]))]);
    let s = TestSuite::parse(m).unwrap();
    let mut out = Vec::new();
    s.to_tokens(&mut out);
    assert_eq!(out, toks("mod my_suite { #[test_case] fn my_test() {} }"));
}

#[test]
fn to_tokens_outputs_parsed_module_even_if_empty() {
    let s = TestSuite::parse(module("my_suite", Vec::new())).unwrap();
    let mut out = Vec::new();
    s.to_tokens(&mut out);
    assert_eq!(out, toks("mod my_suite {}"));
}

#[test]
fn outputs_mod_with_test_suite_name() {
    let mut out = Vec::new();
    render_mod_head(&module("my_suite", Vec::new()), &mut out);
    assert_eq!(out, toks("mod my_suite"));
}

#[test]
fn forward_declared_module_stays_as_it_is() {
    let m = ItemMod { attrs: Vec::new(), head: toks("pub"), name: "later".to_string(), content: None };
    assert_eq!(sith::test_suite(m), toks("pub mod later;"));
}

#[test]
fn inner() {
    let statics = vec![
        Item::Static(sith::syntax::ItemStatic {
            attrs: Vec::new(),
            head: Vec::new(),
            mutable: false,
            name: "MEME".to_string(),
            ty: toks("usize"),
            expr: toks("init"),
        }),
        Item::Static(sith::syntax::ItemStatic {
            attrs: Vec::new(),
            head: Vec::new(),
            mutable: false,
            name: "MEMETWO".to_string(),
            ty: toks("usize"),
            expr: toks("init"),
        }),
    ];
    let mut items = statics;
    items.push(Item::Fn(function(vec![attr("init", "")], "init", Vec::new(), &["MEME = 123;", "MEMETWO = 456;"])));
    items.push(Item::Fn(function(vec![attr("setup", "")], "setup", Vec::new(), &["let has_ran_setup = true;"])));
    items.push(Item::Fn(function(vec![attr("teardown", "")], "teardown", Vec::new(), &["assert!(post_setup);"])));
    items.push(Item::Fn(function(
        vec![attr("test", "")],
        "inner",
        Vec::new(),
        &["assert!(has_ran_setup);", "let post_setup = true;", "println!(\"{}\", MEME);", "println!(\"{}\", MEMETWO);"],
    )));
    let out = sith::test_suite(module("supports_rustc_test", items));
    assert_eq!(
        out,
        toks(
            "mod supports_rustc_test {
                static INIT: std::sync::Once = std::sync::Once::new();
                fn __INIT() { unsafe { MEME = 123; MEMETWO = 456; } }
                static mut MEME: usize = unsafe { core::mem::MaybeUninit::uninit().assume_init() };
                static mut MEMETWO: usize = unsafe { core::mem::MaybeUninit::uninit().assume_init() };
                #[test] fn inner() {
                    INIT.call_once(__INIT);
                    let has_ran_setup = true;
                    assert!(has_ran_setup);
                    let post_setup = true;
                    println!(\"{}\", MEME);
                    println!(\"{}\", MEMETWO);
                    assert!(post_setup);
                }
            }"
        )
    );
}

#[test]
fn suite_reports_a_static_that_init_never_sets() {
    let items = vec![
        Item::Static(sith::syntax::ItemStatic {
            attrs: Vec::new(),
            head: Vec::new(),
            mutable: false,
            name: "LOST".to_string(),
            ty: toks("usize"),
            expr: toks("init"),
        }),
        Item::Fn(function(vec![attr("init", "")], "init", Vec::new(), &[])),
        Item::Fn(function(vec![attr("test", "")], "t", Vec::new(), &[])),
    ];
    let out = sith::test_suite(module("s", items));
    assert_eq!(
        out,
        toks(
            "mod s {
                static INIT: std::sync::Once = std::sync::Once::new();
                fn __INIT() { unsafe { } }
                ::core::compile_error!{\"uninitialized value `LOST`\"}
                #[test] fn t() { INIT.call_once(__INIT); }
            }"
        )
    );
}

#[test]
fn parameters_render_as_written() {
    let c = case("one, with(mut 1, verbatim(u8))");
    let mut out = Vec::new();
    for m in c.0.slots.iter().flatten() {
        m.to_tokens(&mut out);
    }
    assert_eq!(out, toks("one mut 1 u8"));
}
