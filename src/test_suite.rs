//! `#[test_suite]`: a module whose `setup`, `teardown` and `init` functions
//! are woven into every test it holds.
use vstd::prelude::*;

use crate::common::{attr_name, attribute_name_to_string};
use crate::error::{Error, ErrorView};
use crate::mutators::{Mutators, Ranked};
use crate::params::init::{guard_stmt, init_prelude, init_static_applied, ParamInit};
use crate::params::setup::ParamSetup;
use crate::params::teardown::ParamTeardown;
use crate::syntax::{
    attrs_view, copy_fn, copy_static, copy_item, extend_stmts, item_tokens, items_view, mod_head_tokens,
    mod_tokens, push_token, render_item, render_items, render_mod_head, stmts_view, AttributeView,
    Attribute, FnView, Item, ItemMod, ItemView, ModView,
};
use crate::test_case::{error_tokens, is_test_fn, render_error, TestCase};
use crate::tokens::{tv, Delimiter, Token, TokenView};

verus! {

/// A suite-level parameter, in the order in which they apply. `Init` comes
/// last, so its guard is put in front of the setup statements.
#[derive(Clone, Debug, PartialEq, Eq)]
pub enum SuiteMutator {
    Setup(ParamSetup),
    Teardown(ParamTeardown),
    Init(ParamInit),
}

impl Ranked for SuiteMutator {
    open spec fn kinds() -> nat {
        3
    }

    open spec fn spec_rank(&self) -> nat {
        match self {
            SuiteMutator::Setup(_) => 0,
            SuiteMutator::Teardown(_) => 1,
            SuiteMutator::Init(_) => 2,
        }
    }

    fn kind_count() -> (r: usize) {
        3
    }

    fn rank(&self) -> (r: usize) {
        match self {
            SuiteMutator::Setup(_) => 0,
            SuiteMutator::Teardown(_) => 1,
            SuiteMutator::Init(_) => 2,
        }
    }
}

/// The statements of a suite's `setup`, `teardown` and `init` functions, where it has them.
pub struct SuiteParams {
    pub setup: Option<Seq<Seq<TokenView>>>,
    pub teardown: Option<Seq<Seq<TokenView>>>,
    pub init: Option<Seq<Seq<TokenView>>>,
}

pub open spec fn no_suite_params() -> SuiteParams {
    SuiteParams { setup: None, teardown: None, init: None }
}

/// Whether a suite has no parameters.
pub open spec fn is_bare(p: SuiteParams) -> bool {
    p.setup is None && p.teardown is None && p.init is None
}

/// A parsed suite: the module without its marked functions, and their statements.
pub struct SuiteView {
    pub module: ModView,
    pub params: SuiteParams,
}

/// The kind of marker an attribute is: `setup`, `teardown` or `init`, by rank.
pub open spec fn marker_of(a: AttributeView) -> Option<nat> {
    if attr_name(a) == "setup"@ {
        Some(0)
    } else if attr_name(a) == "teardown"@ {
        Some(1)
    } else if attr_name(a) == "init"@ {
        Some(2)
    } else {
        None
    }
}

/// The first marker among `attrs` from `k` on.
pub open spec fn first_marker(attrs: Seq<AttributeView>, k: int) -> Option<nat>
    decreases attrs.len() - k,
{
    if k < 0 || k >= attrs.len() {
        None
    } else {
        match marker_of(attrs[k]) {
            Some(m) => Some(m),
            None => first_marker(attrs, k + 1),
        }
    }
}

pub open spec fn param_at(p: SuiteParams, kind: nat) -> Option<Seq<Seq<TokenView>>> {
    if kind == 0 {
        p.setup
    } else if kind == 1 {
        p.teardown
    } else {
        p.init
    }
}

pub open spec fn with_param(p: SuiteParams, kind: nat, stmts: Seq<Seq<TokenView>>) -> SuiteParams {
    if kind == 0 {
        SuiteParams { setup: Some(stmts), ..p }
    } else if kind == 1 {
        SuiteParams { teardown: Some(stmts), ..p }
    } else {
        SuiteParams { init: Some(stmts), ..p }
    }
}

/// Splits a module's items into those that stay and the marked functions'
/// statements; a second function with the same marker is an error.
pub open spec fn scan_items(items: Seq<ItemView>) -> Result<(Seq<ItemView>, SuiteParams), ErrorView>
    decreases items.len(),
{
    if items.len() == 0 {
        Ok((Seq::empty(), no_suite_params()))
    } else {
        match scan_items(items.drop_last()) {
            Err(e) => Err(e),
            Ok((kept, p)) => match items.last() {
                ItemView::Fn(f) => match first_marker(f.attrs, 0) {
                    Some(kind) => if param_at(p, kind) is Some {
                        Err(ErrorView::DuplicateParameter)
                    } else {
                        Ok((kept, with_param(p, kind, f.body)))
                    },
                    None => Ok((kept.push(items.last()), p)),
                },
                _ => Ok((kept.push(items.last()), p)),
            },
        }
    }
}

/// An error in scanning a prefix of `s` is the error of scanning all of it.
pub proof fn lemma_scan_err_extends(s: Seq<ItemView>, j: int)
    requires
        0 <= j <= s.len(),
        scan_items(s.subrange(0, j)) is Err,
    ensures
        scan_items(s) == scan_items(s.subrange(0, j)),
    decreases s.len(),
{
    if j < s.len() {
        assert(s.drop_last().subrange(0, j) =~= s.subrange(0, j));
        lemma_scan_err_extends(s.drop_last(), j);
    } else {
        assert(s.subrange(0, j) =~= s);
    }
}

/// The suite that module `m` describes.
pub open spec fn parse_suite(m: ModView) -> Result<SuiteView, ErrorView> {
    match m.content {
        None => Ok(SuiteView { module: m, params: no_suite_params() }),
        Some(items) => match scan_items(items) {
            Err(e) => Err(e),
            Ok((kept, p)) => Ok(SuiteView { module: ModView { content: Some(kept), ..m }, params: p }),
        },
    }
}

pub open spec fn or_empty(s: Option<Seq<Seq<TokenView>>>) -> Seq<Seq<TokenView>> {
    match s {
        Some(t) => t,
        None => Seq::empty(),
    }
}

/// The body of a test in a suite: the init guard where there is `init`, the
/// setup statements, its own statements, the teardown statements.
pub open spec fn suite_body(p: SuiteParams, body: Seq<Seq<TokenView>>) -> Seq<Seq<TokenView>> {
    (if p.init is Some {
        seq![guard_stmt()]
    } else {
        Seq::empty()
    }) + or_empty(p.setup) + body + or_empty(p.teardown)
}

/// What a suite makes of one of its items: a test gets the suite's
/// statements, a static that `init` sets is rewritten, the rest stays.
pub open spec fn suite_item_applied(p: SuiteParams, item: ItemView) -> Result<ItemView, ErrorView> {
    match item {
        ItemView::Fn(f) => if is_test_fn(f) {
            Ok(ItemView::Fn(FnView { body: suite_body(p, f.body), ..f }))
        } else {
            Ok(item)
        },
        ItemView::Static(s) => match p.init {
            Some(stmts) => match init_static_applied(stmts, s) {
                Ok(t) => Ok(ItemView::Static(t)),
                Err(e) => Err(e),
            },
            None => Ok(item),
        },
        ItemView::Verbatim(_) => Ok(item),
    }
}

pub open spec fn suite_item_output(p: SuiteParams, item: ItemView) -> Seq<TokenView> {
    match suite_item_applied(p, item) {
        Ok(i) => item_tokens(i),
        Err(e) => error_tokens(e),
    }
}

pub open spec fn suite_outputs(p: SuiteParams, items: Seq<ItemView>) -> Seq<TokenView>
    decreases items.len(),
{
    if items.len() == 0 {
        Seq::empty()
    } else {
        suite_outputs(p, items.drop_last()) + suite_item_output(p, items.last())
    }
}

/// The items that hold the init statements, where there is `init`.
pub open spec fn suite_prelude(p: SuiteParams) -> Seq<TokenView> {
    match p.init {
        Some(stmts) => init_prelude(stmts),
        None => Seq::empty(),
    }
}

/// The expansion of a suite: the module as it is where it has no parameters;
/// else the module with the init items and each item as the suite makes it.
pub open spec fn expanded_suite(s: SuiteView) -> Seq<TokenView> {
    if is_bare(s.params) {
        mod_tokens(s.module)
    } else {
        mod_head_tokens(s.module) + seq![TokenView::Open(Delimiter::Brace)] + suite_prelude(s.params)
            + suite_outputs(s.params, or_items(s.module.content)) + seq![
            TokenView::Close(Delimiter::Brace),
        ]
    }
}

pub open spec fn or_items(c: Option<Seq<ItemView>>) -> Seq<ItemView> {
    match c {
        Some(t) => t,
        None => Seq::empty(),
    }
}

/// A parsed `#[test_suite]` module.
#[derive(Debug)]
pub struct TestSuite {
    /// The module, without its `setup`, `teardown` and `init` functions.
    pub module: ItemMod,
    /// The statements of those functions, where there were any.
    pub mutators: Option<Mutators<SuiteMutator>>,
}

pub open spec fn slot_stmts(m: Mutators<SuiteMutator>, k: int) -> Option<Seq<Seq<TokenView>>> {
    match m.slots@[k] {
        Some(SuiteMutator::Setup(p)) => Some(stmts_view(p.0@)),
        Some(SuiteMutator::Teardown(p)) => Some(stmts_view(p.0@)),
        Some(SuiteMutator::Init(p)) => Some(stmts_view(p.0@)),
        None => None,
    }
}

impl View for TestSuite {
    type V = SuiteView;

    open spec fn view(&self) -> SuiteView {
        SuiteView {
            module: self.module@,
            params: match self.mutators {
                Some(m) => SuiteParams {
                    setup: slot_stmts(m, 0),
                    teardown: slot_stmts(m, 1),
                    init: slot_stmts(m, 2),
                },
                None => no_suite_params(),
            },
        }
    }
}

/// The statements in each slot of a set of suite parameters.
pub open spec fn params_of(m: Mutators<SuiteMutator>) -> SuiteParams {
    SuiteParams { setup: slot_stmts(m, 0), teardown: slot_stmts(m, 1), init: slot_stmts(m, 2) }
}

/// The first `setup`, `teardown` or `init` marker among `attrs`, by rank.
fn marker_kind(attrs: &Vec<Attribute>) -> (r: Option<usize>)
    ensures
        r matches Some(k) ==> k <= 2 && first_marker(attrs_view(attrs@), 0) == Some(k as nat),
        r is None ==> first_marker(attrs_view(attrs@), 0) is None,
{
    let ghost av = attrs_view(attrs@);
    let mut i: usize = 0;
    while i < attrs.len()
        invariant
            i <= attrs@.len(),
            av == attrs_view(attrs@),
            first_marker(av, 0) == first_marker(av, i as int),
        decreases attrs@.len() - i,
    {
        assert(av[i as int] == attrs@[i as int]@);
        let n = attribute_name_to_string(&attrs[i]);
        if n == "setup".to_string() {
            return Some(0);
        } else if n == "teardown".to_string() {
            return Some(1);
        } else if n == "init".to_string() {
            return Some(2);
        }
        i = i + 1;
    }
    None
}

/// What the suite parameters `m` make of `item`.
fn apply_to_item(m: &Mutators<SuiteMutator>, item: &Item) -> (r: Result<Item, Error>)
    requires
        m.wf(),
    ensures
        match suite_item_applied(params_of(*m), item@) {
            Ok(i) => r matches Ok(x) && x@ == i,
            Err(e) => r matches Err(x) && x@ == e,
        },
{
    match item {
        Item::Fn(f) => {
            let mut g = copy_fn(f);
            if TestCase::is_test(f) {
                let ghost b0 = stmts_view(g.body@);
                let mut body: Vec<Vec<Token>> = Vec::new();
                extend_stmts(&mut body, &g.body);
                assert(stmts_view(body@) =~= b0);
                match &m.slots[0] {
                    Some(SuiteMutator::Setup(p)) => p.mutate(&mut body),
                    Some(SuiteMutator::Teardown(p)) => p.mutate(&mut body),
                    Some(SuiteMutator::Init(_)) => {},
                    None => {},
                }
                match &m.slots[1] {
                    Some(SuiteMutator::Teardown(p)) => p.mutate(&mut body),
                    Some(SuiteMutator::Setup(p)) => p.mutate(&mut body),
                    Some(SuiteMutator::Init(_)) => {},
                    None => {},
                }
                match &m.slots[2] {
                    Some(SuiteMutator::Init(_)) => ParamInit::mutate_body(&mut body),
                    _ => {},
                }
                assert(m.slots@[0] is Some ==> m.slots@[0]->0.spec_rank() == 0);
                assert(m.slots@[1] is Some ==> m.slots@[1]->0.spec_rank() == 1);
                assert(m.slots@[2] is Some ==> m.slots@[2]->0.spec_rank() == 2);
                assert(stmts_view(body@) =~= suite_body(params_of(*m), b0));
                g.body = body;
            }
            Ok(Item::Fn(g))
        },
        Item::Static(st) => {
            let mut t = copy_static(st);
            assert(m.slots@[2] is Some ==> m.slots@[2]->0.spec_rank() == 2);
            match &m.slots[2] {
                Some(SuiteMutator::Init(p)) => {
                    match p.mutate_static(&mut t) {
                        Ok(()) => Ok(Item::Static(t)),
                        Err(e) => Err(e),
                    }
                },
                _ => Ok(Item::Static(t)),
            }
        },
        Item::Verbatim(t) => Ok(Item::Verbatim(crate::tokens::copy_tokens(t))),
    }
}

impl TestSuite {
    pub open spec fn wf(&self) -> bool {
        match self.mutators {
            Some(m) => m.wf(),
            None => true,
        }
    }

    /// Parses a module: its `#[setup]`, `#[teardown]` and `#[init]` functions
    /// leave it and give their statements to the suite; the other items stay
    /// in order. A second function with the same marker is `DuplicateParameter`.
    pub fn parse(target: ItemMod) -> (r: Result<TestSuite, Error>)
        ensures
            match parse_suite(target@) {
                Ok(s) => r matches Ok(t) && t.wf() && t@ == s,
                Err(e) => r matches Err(x) && x@ == e,
            },
    {
        let ghost mv = target@;
        let items = match &target.content {
            None => {
                return Ok(TestSuite { module: target, mutators: None });
            },
            Some(items) => items,
        };
        let ghost iv = items_view(items@);
        assert(mv.content == Some(iv));
        let mut kept: Vec<Item> = Vec::new();
        let mut muts: Mutators<SuiteMutator> = Mutators::new();
        let mut i: usize = 0;
        assert(items_view(items@).subrange(0, 0) =~= Seq::<ItemView>::empty());
        assert(items_view(kept@) =~= Seq::<ItemView>::empty());
        assert(params_of(muts) == no_suite_params());
        while i < items.len()
            invariant
                i <= items@.len(),
                iv == items_view(items@),
                mv == target@,
                mv.content == Some(iv),
                muts.wf(),
                scan_items(iv.subrange(0, i as int)) == Ok::<
                    (Seq<ItemView>, SuiteParams),
                    ErrorView,
                >((items_view(kept@), params_of(muts))),
            decreases items@.len() - i,
        {
            let ghost q = iv.subrange(0, i + 1);
            assert(q.drop_last() =~= iv.subrange(0, i as int));
            assert(q.last() == items@[i as int]@);
            let ghost kv = items_view(kept@);
            let mut keep = true;
            match &items[i] {
                Item::Fn(f) => {
                    match marker_kind(&f.attrs) {
                        Some(kind) => {
                            let mut body: Vec<Vec<Token>> = Vec::new();
                            extend_stmts(&mut body, &f.body);
                            assert(stmts_view(body@) =~= stmts_view(f.body@));
                            let m = if kind == 0 {
                                SuiteMutator::Setup(ParamSetup(body))
                            } else if kind == 1 {
                                SuiteMutator::Teardown(ParamTeardown(body))
                            } else {
                                SuiteMutator::Init(ParamInit(body))
                            };
                            let ghost prev = params_of(muts);
                            let ghost bv = stmts_view(f.body@);
                            assert(muts.slots@[kind as int] is Some ==> muts.slots@[kind as int]->0.spec_rank() == kind);
                            match muts.insert_unique(m) {
                                Ok(()) => {},
                                Err(e) => {
                                    proof {
                                        assert(param_at(prev, kind as nat) is Some);
                                        assert(scan_items(q) == Err::<(Seq<ItemView>, SuiteParams), ErrorView>(ErrorView::DuplicateParameter));
                                        lemma_scan_err_extends(iv, i + 1);
                                        assert(scan_items(iv) == Err::<(Seq<ItemView>, SuiteParams), ErrorView>(ErrorView::DuplicateParameter));
                                        assert(e@ == ErrorView::DuplicateParameter);
                                    }
                                    return Err(e);
                                },
                            }
                            assert(params_of(muts) =~= with_param(prev, kind as nat, bv));
                            keep = false;
                        },
                        None => {},
                    }
                },
                _ => {},
            }
            if keep {
                let x = copy_item(&items[i]);
                kept.push(x);
                assert(items_view(kept@) =~= kv.push(x@));
            }
            i = i + 1;
        }
        assert(iv.subrange(0, i as int) =~= iv);
        let module = ItemMod { attrs: target.attrs, head: target.head, name: target.name, content: Some(kept) };
        Ok(TestSuite { module, mutators: Some(muts) })
    }

    /// Appends the suite as it was parsed: the module with the init items and
    /// its remaining items, none of them changed.
    pub fn to_tokens(&self, out: &mut Vec<Token>)
        requires
            self.wf(),
        ensures
            tv(final(out)@) == tv(old(out)@) + mod_head_tokens(self@.module) + match self@.module.content {
                Some(c) => seq![TokenView::Open(Delimiter::Brace)] + suite_prelude(self@.params)
                    + crate::syntax::items_tokens(c) + seq![TokenView::Close(Delimiter::Brace)],
                None => seq![crate::syntax::punct(';')],
            },
    {
        let ghost start = tv(out@);
        render_mod_head(&self.module, out);
        match &self.module.content {
            Some(c) => {
                push_token(out, Token::Open(Delimiter::Brace));
                self.render_prelude(out);
                render_items(c, out);
                push_token(out, Token::Close(Delimiter::Brace));
            },
            None => {
                push_token(out, Token::Punct(';', false));
            },
        }
        assert(tv(out@) =~= start + mod_head_tokens(self@.module) + match self@.module.content {
            Some(c) => seq![TokenView::Open(Delimiter::Brace)] + suite_prelude(self@.params)
                + crate::syntax::items_tokens(c) + seq![TokenView::Close(Delimiter::Brace)],
            None => seq![crate::syntax::punct(';')],
        });
    }

    /// Appends the items that hold the init statements, where there are any.
    fn render_prelude(&self, out: &mut Vec<Token>)
        requires
            self.wf(),
        ensures
            tv(final(out)@) == tv(old(out)@) + suite_prelude(self@.params),
    {
        match &self.mutators {
            Some(m) => match &m.slots[2] {
                Some(SuiteMutator::Init(p)) => p.to_tokens(out),
                Some(SuiteMutator::Setup(p)) => {
                    let q = ParamInit(crate::params::init::copy_stmts(&p.0));
                    q.to_tokens(out);
                },
                Some(SuiteMutator::Teardown(p)) => {
                    let q = ParamInit(crate::params::init::copy_stmts(&p.0));
                    q.to_tokens(out);
                },
                None => {
                    assert(tv(out@) =~= tv(out@) + Seq::<TokenView>::empty());
                },
            },
            None => {
                assert(tv(out@) =~= tv(out@) + Seq::<TokenView>::empty());
            },
        }
    }
}

/// Expands a parsed suite. With no parameters the module is emitted as it
/// is; else each test gets the suite's statements, each static that `init`
/// sets is rewritten, and an item whose rewriting fails is replaced by its
/// error while the others are still emitted.
pub fn render_test_suite(test_suite: TestSuite) -> (r: Vec<Token>)
    requires
        test_suite.wf(),
    ensures
        tv(r@) == expanded_suite(test_suite@),
{
    let ghost sv = test_suite@;
    let mut out: Vec<Token> = Vec::new();
    let m = match &test_suite.mutators {
        Some(m) => m,
        None => {
            crate::syntax::render_mod(&test_suite.module, &mut out);
            assert(tv(out@) =~= expanded_suite(sv));
            return out;
        },
    };
    let bare = m.slots[0].is_none() && m.slots[1].is_none() && m.slots[2].is_none();
    if bare {
        crate::syntax::render_mod(&test_suite.module, &mut out);
        assert(tv(out@) =~= expanded_suite(sv));
        return out;
    }
    render_mod_head(&test_suite.module, &mut out);
    push_token(&mut out, Token::Open(Delimiter::Brace));
    test_suite.render_prelude(&mut out);
    let ghost before = tv(out@);
    let empty: Vec<Item> = Vec::new();
    let items = match &test_suite.module.content {
        Some(c) => c,
        None => &empty,
    };
    let ghost iv = items_view(items@);
    assert(iv =~= or_items(sv.module.content));
    let mut i: usize = 0;
    while i < items.len()
        invariant
            i <= items@.len(),
            iv == items_view(items@),
            m.wf(),
            sv.params == params_of(*m),
            tv(out@) == before + suite_outputs(sv.params, iv.subrange(0, i as int)),
        decreases items@.len() - i,
    {
        let ghost q = iv.subrange(0, i + 1);
        assert(q.drop_last() =~= iv.subrange(0, i as int));
        assert(q.last() == items@[i as int]@);
        match apply_to_item(m, &items[i]) {
            Ok(x) => render_item(&x, &mut out),
            Err(e) => render_error(&e, &mut out),
        }
        proof {
            assert(tv(out@) =~= before + suite_outputs(sv.params, q));
        }
        i = i + 1;
    }
    assert(iv.subrange(0, i as int) =~= iv);
    push_token(&mut out, Token::Close(Delimiter::Brace));
    assert(tv(out@) =~= expanded_suite(sv));
    out
}

} // verus!
