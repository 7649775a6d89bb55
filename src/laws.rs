//! Properties of the expansions that hold for all inputs, proved from the
//! specifications of the functions they relate.
use vstd::prelude::*;

use crate::error::{decimal, message_of, ErrorView};
use crate::params::with::{
    binding, bindings, first_input_error, input_check, input_name, replace_tokens, substituted,
    with_applied, WithExprView,
};
use crate::syntax::{mod_tokens, FnView, ItemView, ModView};
use crate::test_case::{
    all_cases, case_applied, case_base, case_outputs, expanded_case, is_case_attr, parse_case,
    stacked_cases, TestCaseView,
};
use crate::test_suite::{
    expanded_suite, first_marker, no_suite_params, parse_suite, scan_items, suite_item_applied,
    SuiteParams, SuiteView,
};
use crate::test_case::is_test_fn;
use crate::tokens::TokenView;

verus! {

/// Whether every argument of `with(...)` is an expression to bind.
pub open spec fn all_assignments(args: Seq<WithExprView>) -> bool {
    forall|i: int| 0 <= i < args.len() ==> (#[trigger] args[i]) is Assignment
}

/// Whether `with(args)` fits function `f`: one argument per input, and each
/// input able to take its argument.
pub open spec fn fits(f: FnView, args: Seq<WithExprView>) -> bool {
    &&& args.len() == f.inputs.len()
    &&& forall|i: int| 0 <= i < args.len() ==> (#[trigger] input_check(f.inputs[i], args[i])) is None
}

proof fn lemma_first_input_error(inputs: Seq<crate::syntax::FnInputView>, args: Seq<WithExprView>, k: int)
    requires
        0 <= k <= inputs.len(),
        inputs.len() == args.len(),
    ensures
        first_input_error(inputs, args, k) is None <==> forall|i: int|
            k <= i < inputs.len() ==> (#[trigger] input_check(inputs[i], args[i])) is None,
    decreases inputs.len() - k,
{
    if k < inputs.len() {
        lemma_first_input_error(inputs, args, k + 1);
    }
}

proof fn lemma_bindings_all(inputs: Seq<crate::syntax::FnInputView>, args: Seq<WithExprView>)
    requires
        inputs.len() == args.len(),
        all_assignments(args),
    ensures
        bindings(inputs, args).len() == inputs.len(),
        forall|i: int|
            0 <= i < inputs.len() ==> #[trigger] bindings(inputs, args)[i] == binding(inputs[i], args[i]),
    decreases inputs.len(),
{
    if inputs.len() > 0 {
        let n = inputs.len() - 1;
        let a = args.subrange(0, n);
        lemma_bindings_all(inputs.drop_last(), a);
        assert forall|i: int| 0 <= i < inputs.len() implies #[trigger] bindings(inputs, args)[i]
            == binding(inputs[i], args[i]) by {
            if i < n {
                assert(bindings(inputs.drop_last(), a)[i] == binding(inputs.drop_last()[i], a[i]));
            }
        }
    }
}

proof fn lemma_substituted_none(
    body: Seq<Seq<TokenView>>,
    inputs: Seq<crate::syntax::FnInputView>,
    args: Seq<WithExprView>,
)
    requires
        inputs.len() == args.len(),
        all_assignments(args),
    ensures
        substituted(body, inputs, args) == body,
    decreases inputs.len(),
{
    if inputs.len() > 0 {
        let n = inputs.len() - 1;
        lemma_substituted_none(body, inputs.drop_last(), args.subrange(0, n));
        assert(args[n] is Assignment);
    }
}

/// `with(args)` on `f` succeeds exactly when the arguments fit the function.
pub proof fn law_with_succeeds_iff_fits(f: FnView, args: Seq<WithExprView>)
    ensures
        with_applied(f, args) is Ok <==> fits(f, args),
{
    if args.len() == f.inputs.len() {
        lemma_first_input_error(f.inputs, args, 0);
    }
}

/// When `with(e1, …, en)` fits a function of `n` inputs and every argument is
/// an expression, the function takes no inputs any more and its body begins
/// with `n` bindings, one per input in the order of the inputs, each typed as
/// the input was declared, followed by the statements it had.
pub proof fn law_with_binds_inputs_in_order(f: FnView, args: Seq<WithExprView>)
    requires
        fits(f, args),
        all_assignments(args),
    ensures
        with_applied(f, args) matches Ok(g) && g.inputs.len() == 0 && g.body.len() == f.inputs.len()
            + f.body.len() && (forall|i: int|
            0 <= i < f.inputs.len() ==> #[trigger] g.body[i] == binding(f.inputs[i], args[i]))
            && g.body.subrange(f.inputs.len() as int, g.body.len() as int) == f.body && g.name
            == f.name && g.attrs == f.attrs,
{
    lemma_first_input_error(f.inputs, args, 0);
    lemma_bindings_all(f.inputs, args);
    let b = bindings(f.inputs, args) + f.body;
    lemma_substituted_none(b, f.inputs, args);
    let g = with_applied(f, args)->Ok_0;
    assert(g.body == b);
    assert(g.body.subrange(f.inputs.len() as int, g.body.len() as int) =~= f.body);
}

/// How many arguments are expressions to bind.
pub open spec fn assignment_count(args: Seq<WithExprView>) -> nat
    decreases args.len(),
{
    if args.len() == 0 {
        0
    } else {
        assignment_count(args.drop_last()) + if args.last() is Assignment {
            1nat
        } else {
            0nat
        }
    }
}

proof fn lemma_bindings_len(inputs: Seq<crate::syntax::FnInputView>, args: Seq<WithExprView>)
    requires
        inputs.len() == args.len(),
    ensures
        bindings(inputs, args).len() == assignment_count(args),
    decreases inputs.len(),
{
    if inputs.len() > 0 {
        let a = args.subrange(0, inputs.len() - 1);
        assert(a =~= args.drop_last());
        lemma_bindings_len(inputs.drop_last(), a);
    }
}

proof fn lemma_substituted_len(
    body: Seq<Seq<TokenView>>,
    inputs: Seq<crate::syntax::FnInputView>,
    args: Seq<WithExprView>,
)
    requires
        inputs.len() == args.len(),
    ensures
        substituted(body, inputs, args).len() == body.len(),
    decreases inputs.len(),
{
    if inputs.len() > 0 {
        lemma_substituted_len(body, inputs.drop_last(), args.subrange(0, inputs.len() - 1));
    }
}

/// When `with(args)` fits a function, its body gains one statement for each
/// expression argument and none for a verbatim one: a verbatim argument is
/// substituted into the body, not bound.
pub proof fn law_verbatim_is_not_bound(f: FnView, args: Seq<WithExprView>)
    requires
        fits(f, args),
    ensures
        with_applied(f, args) matches Ok(g) && g.inputs.len() == 0 && g.body.len() == assignment_count(
            args,
        ) + f.body.len(),
{
    lemma_first_input_error(f.inputs, args, 0);
    lemma_bindings_len(f.inputs, args);
    lemma_substituted_len(bindings(f.inputs, args) + f.body, f.inputs, args);
}

/// `with(verbatim(t))` on a function whose one input is `name: _` replaces
/// each identifier `name` in every statement by the tokens `t`, and binds nothing.
pub proof fn law_single_verbatim_substitutes(f: FnView, t: Seq<TokenView>)
    requires
        f.inputs.len() == 1,
        input_check(f.inputs[0], WithExprView::Verbatim(t)) is None,
    ensures
        with_applied(f, seq![WithExprView::Verbatim(t)]) == Ok::<FnView, ErrorView>(
            FnView {
                inputs: Seq::empty(),
                body: f.body.map_values(
                    |st: Seq<TokenView>| replace_tokens(st, input_name(f.inputs[0]), t),
                ),
                ..f
            },
        ),
{
    let args = seq![WithExprView::Verbatim(t)];
    assert(first_input_error(f.inputs, args, 1) is None);
    assert(first_input_error(f.inputs, args, 0) is None);
    assert(bindings(f.inputs.drop_last(), args.subrange(0, 0)) == Seq::<Seq<TokenView>>::empty());
    assert(bindings(f.inputs, args) == Seq::<Seq<TokenView>>::empty());
    assert(Seq::<Seq<TokenView>>::empty() + f.body =~= f.body);
    assert(f.inputs.drop_last().len() == 0);
    assert(f.inputs.last() == f.inputs[0]);
    assert(substituted(f.body, f.inputs.drop_last(), args.subrange(0, 0)) == f.body);
    assert(substituted(f.body, f.inputs, args) =~= f.body.map_values(
        |st: Seq<TokenView>| replace_tokens(st, input_name(f.inputs[0]), t),
    ));
}

/// `with(args)` on a function whose input count differs from the argument
/// count fails with an error that names both counts.
pub proof fn law_with_count_mismatch(f: FnView, args: Seq<WithExprView>)
    requires
        args.len() != f.inputs.len(),
    ensures
        with_applied(f, args) == Err::<FnView, ErrorView>(
            ErrorView::InputCount { inputs: f.inputs.len(), args: args.len() },
        ),
        message_of(ErrorView::InputCount { inputs: f.inputs.len(), args: args.len() }) == "with(): "@
            + decimal(f.inputs.len()) + " fn inputs but only "@ + decimal(args.len())
            + " args declared"@,
{
}

/// How many of `attrs` are invocations of `#[test_case]`.
pub open spec fn case_attr_count(attrs: Seq<crate::syntax::AttributeView>) -> nat
    decreases attrs.len(),
{
    if attrs.len() == 0 {
        0
    } else {
        case_attr_count(attrs.drop_last()) + if is_case_attr(attrs.last()) {
            1nat
        } else {
            0nat
        }
    }
}

proof fn lemma_stacked_len(attrs: Seq<crate::syntax::AttributeView>)
    ensures
        stacked_cases(attrs).len() == case_attr_count(attrs),
    decreases attrs.len(),
{
    if attrs.len() > 0 {
        lemma_stacked_len(attrs.drop_last());
    }
}

/// `#[test_case]` on a function that carries `k` further `#[test_case]`
/// attributes emits one output per invocation, `k + 1` in all, each made from
/// the same starting function.
pub proof fn law_one_output_per_invocation(c: TestCaseView, f: FnView)
    ensures
        all_cases(c, f).len() == 1 + case_attr_count(f.attrs),
        expanded_case(c, f) == case_outputs(all_cases(c, f), case_base(f)),
{
    lemma_stacked_len(f.attrs);
}

/// Two invocations with distinct names, applied to the same function, emit
/// functions with distinct names: `<function>_<name>` for each.
pub proof fn law_distinct_names(c1: TestCaseView, c2: TestCaseView, base: FnView)
    requires
        c1.name is Some,
        c2.name is Some,
        c1.name != c2.name,
        case_applied(c1, base) is Ok,
        case_applied(c2, base) is Ok,
    ensures
        case_applied(c1, base)->Ok_0.name == base.name + seq!['_'] + c1.name->Some_0,
        case_applied(c2, base)->Ok_0.name == base.name + seq!['_'] + c2.name->Some_0,
        case_applied(c1, base)->Ok_0.name != case_applied(c2, base)->Ok_0.name,
{
    let p = base.name + seq!['_'];
    let n1 = c1.name->Some_0;
    let n2 = c2.name->Some_0;
    if p + n1 == p + n2 {
        assert((p + n1).subrange(p.len() as int, (p + n1).len() as int) =~= n1);
        assert((p + n2).subrange(p.len() as int, (p + n2).len() as int) =~= n2);
    }
}

/// Two names in one invocation of `#[test_case]` are rejected when it is parsed.
pub proof fn law_duplicate_name_rejected(n1: Seq<char>, n2: Seq<char>, joint: bool)
    requires
        n1 != "with"@,
        n2 != "with"@,
    ensures
        parse_case(seq![TokenView::Ident(n1), TokenView::Punct(',', joint), TokenView::Ident(n2)])
            == Err::<TestCaseView, ErrorView>(ErrorView::DuplicateParameter),
{
    let s = seq![TokenView::Ident(n1), TokenView::Punct(',', joint), TokenView::Ident(n2)];
    let a1 = TestCaseView { name: Some(n1), with: None };
    assert(crate::test_case::case_args_from(s, 2, a1) == Err::<TestCaseView, ErrorView>(
        ErrorView::DuplicateParameter,
    ));
    assert(crate::test_case::case_args_after(s, 1, a1) == crate::test_case::case_args_from(s, 2, a1));
}

/// In a suite with setup statements `S`, teardown statements `T` and no
/// `init`, each test function's body becomes `S`, its own statements, `T`, in
/// that order, and every other item is emitted unchanged.
pub proof fn law_suite_wraps_tests(
    s_stmts: Seq<Seq<TokenView>>,
    t_stmts: Seq<Seq<TokenView>>,
    item: ItemView,
)
    ensures
        ({
            let p = SuiteParams { setup: Some(s_stmts), teardown: Some(t_stmts), init: None };
            match item {
                ItemView::Fn(f) => if is_test_fn(f) {
                    suite_item_applied(p, item) == Ok::<ItemView, ErrorView>(
                        ItemView::Fn(FnView { body: s_stmts + f.body + t_stmts, ..f }),
                    )
                } else {
                    suite_item_applied(p, item) == Ok::<ItemView, ErrorView>(item)
                },
                _ => suite_item_applied(p, item) == Ok::<ItemView, ErrorView>(item),
            }
        }),
{
    match item {
        ItemView::Fn(f) => {
            assert(Seq::<Seq<TokenView>>::empty() + s_stmts + f.body + t_stmts =~= s_stmts + f.body
                + t_stmts);
        },
        _ => {},
    }
}

/// Whether no item is a function marked `setup`, `teardown` or `init`.
pub open spec fn no_marked_fns(items: Seq<ItemView>) -> bool {
    forall|i: int|
        0 <= i < items.len() ==> !((#[trigger] items[i]) matches ItemView::Fn(f) && first_marker(
            f.attrs,
            0,
        ) is Some)
}

proof fn lemma_scan_unmarked(items: Seq<ItemView>)
    requires
        no_marked_fns(items),
    ensures
        scan_items(items) == Ok::<(Seq<ItemView>, SuiteParams), ErrorView>((items, no_suite_params())),
    decreases items.len(),
{
    if items.len() > 0 {
        let p = items.drop_last();
        assert(no_marked_fns(p)) by {
            assert forall|i: int| 0 <= i < p.len() implies !((#[trigger] p[i]) matches ItemView::Fn(f)
                && first_marker(f.attrs, 0) is Some) by {
                assert(p[i] == items[i]);
            }
        }
        lemma_scan_unmarked(p);
        let last = items[items.len() - 1];
        assert(items.last() == last);
        assert(!(last matches ItemView::Fn(f) && first_marker(f.attrs, 0) is Some));
        assert(p.push(last) =~= items);
        match last {
            ItemView::Fn(f) => {
                assert(first_marker(f.attrs, 0) is None);
            },
            _ => {},
        }
    } else {
        assert(items =~= Seq::<ItemView>::empty());
    }
}

/// A module with no `setup`, `teardown` or `init` function parses to a suite
/// without parameters, and the suite is emitted as the module was, token for token.
pub proof fn law_bare_suite_round_trip(m: ModView)
    requires
        m.content matches Some(items) ==> no_marked_fns(items),
    ensures
        parse_suite(m) == Ok::<SuiteView, ErrorView>(SuiteView { module: m, params: no_suite_params() }),
        expanded_suite(SuiteView { module: m, params: no_suite_params() }) == mod_tokens(m),
        crate::expand_test_suite(m) == mod_tokens(m),
{
    match m.content {
        Some(items) => {
            lemma_scan_unmarked(items);
            assert(ModView { content: Some(items), ..m } == m);
        },
        None => {},
    }
}

} // verus!
