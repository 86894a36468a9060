//! Attribute classification for one template element.
//!
//! [`TemplateParser::parse_attrs`] partitions the attributes of an element
//! into five buckets: a single optional `ref`, event handlers, constant
//! values, watched values, and a single optional spread. Violations are
//! reported to the parser's diagnostic sink and the pass continues, so one
//! run surfaces as many independent problems as possible.

use vstd::prelude::*;
use crate::Span;
use crate::ast::{
    AttrName, AttrNameV, AttrValue, AttrValueV, Expr, ExprV, Ident, IdentV, JsxAttr, JsxAttrV,
    JsxAttrOrSpread, JsxAttrOrSpreadV, JsxElement, JsxElementV, JsxExpr, JsxExprV, Lit, LitV,
    ParamPat, SpreadAttrV, attr_or_spread_view, clone_expr, clone_lit, element_view, expr_view,
    ident_view, lemma_attrs_view_index, lemma_attrs_view_len, params_view,
};
use crate::common::{DiagCode, Diagnostic, emit_error};
use crate::expr::{
    DependencyResult, DependencyResultV, ExprVisitor, dep_view, named_params, spec_analyze,
};
use crate::nameset::NameSet;
use crate::text::{lower_seq, str_eq, to_lower};
use vstd::string::StrSliceExecFns;

verus! {

/// One event handler: the normalized event name, the handler expression and
/// whether the listener captures.
#[derive(Debug, PartialEq, Eq)]
pub struct AttrEvt {
    pub event_name: String,
    pub event_handler: Box<Expr>,
    pub capture: bool,
}

/// Spec mirror of [`AttrEvt`].
#[verifier::ext_equal]
pub ghost struct AttrEvtV {
    pub event_name: Seq<char>,
    pub event_handler: ExprV,
    pub capture: bool,
}

pub open spec fn attr_evt_view(e: AttrEvt) -> AttrEvtV {
    AttrEvtV {
        event_name: e.event_name@,
        event_handler: expr_view(*e.event_handler),
        capture: e.capture,
    }
}

/// The classified attributes of one element.
#[derive(Debug, PartialEq, Eq)]
pub struct AttrStore {
    /// The runtime handle the element is bound to, at most one.
    pub ref_prop: Option<Box<Expr>>,
    /// Event handlers, in element order.
    pub evt_props: Vec<AttrEvt>,
    /// Values with no reactive dependency, evaluated once at creation.
    pub const_props: Vec<(String, Box<Expr>)>,
    /// Values re-evaluated when their dependencies change.
    pub watch_props: Vec<(String, DependencyResult)>,
    /// A whole object forwarded as the element's props, at most one, and
    /// exclusive of constant and watched attributes.
    pub spread_prop: Option<Ident>,
}

/// Spec mirror of [`AttrStore`].
#[verifier::ext_equal]
pub ghost struct AttrStoreV {
    pub ref_prop: Option<ExprV>,
    pub evt_props: Seq<AttrEvtV>,
    pub const_props: Seq<(Seq<char>, ExprV)>,
    pub watch_props: Seq<(Seq<char>, DependencyResultV)>,
    pub spread_prop: Option<IdentV>,
}

pub open spec fn evts_view(s: Seq<AttrEvt>) -> Seq<AttrEvtV>
    decreases s,
{
    if s.len() == 0 {
        Seq::empty()
    } else {
        evts_view(s.drop_last()).push(attr_evt_view(s.last()))
    }
}

pub open spec fn cprops_view(s: Seq<(String, Box<Expr>)>) -> Seq<(Seq<char>, ExprV)>
    decreases s,
{
    if s.len() == 0 {
        Seq::empty()
    } else {
        cprops_view(s.drop_last()).push((s.last().0@, expr_view(*s.last().1)))
    }
}

pub open spec fn wprops_view(s: Seq<(String, DependencyResult)>) -> Seq<
    (Seq<char>, DependencyResultV),
>
    decreases s,
{
    if s.len() == 0 {
        Seq::empty()
    } else {
        wprops_view(s.drop_last()).push((s.last().0@, dep_view(s.last().1)))
    }
}

pub open spec fn store_view(s: AttrStore) -> AttrStoreV {
    AttrStoreV {
        ref_prop: match s.ref_prop {
            Option::Some(b) => Option::Some(expr_view(*b)),
            Option::None => Option::None,
        },
        evt_props: evts_view(s.evt_props@),
        const_props: cprops_view(s.const_props@),
        watch_props: wprops_view(s.watch_props@),
        spread_prop: match s.spread_prop {
            Option::Some(i) => Option::Some(ident_view(i)),
            Option::None => Option::None,
        },
    }
}

pub proof fn lemma_evts_view_push(s: Seq<AttrEvt>, x: AttrEvt)
    ensures
        evts_view(s.push(x)) == evts_view(s).push(attr_evt_view(x)),
{
    assert(s.push(x).drop_last() =~= s);
    assert(s.push(x).last() == x);
}

pub proof fn lemma_cprops_view_push(s: Seq<(String, Box<Expr>)>, x: (String, Box<Expr>))
    ensures
        cprops_view(s.push(x)) == cprops_view(s).push((x.0@, expr_view(*x.1))),
{
    assert(s.push(x).drop_last() =~= s);
    assert(s.push(x).last() == x);
}

pub proof fn lemma_wprops_view_push(s: Seq<(String, DependencyResult)>, x: (String, DependencyResult))
    ensures
        wprops_view(s.push(x)) == wprops_view(s).push((x.0@, dep_view(x.1))),
{
    assert(s.push(x).drop_last() =~= s);
    assert(s.push(x).last() == x);
}

/// The store every classification starts from: all buckets empty.
pub open spec fn empty_store_v() -> AttrStoreV {
    AttrStoreV {
        ref_prop: Option::None,
        evt_props: Seq::empty(),
        const_props: Seq::empty(),
        watch_props: Seq::empty(),
        spread_prop: Option::None,
    }
}

pub open spec fn one_diag(span: Span, code: DiagCode) -> Seq<Diagnostic> {
    seq![Diagnostic { span, code }]
}

pub open spec fn push_const_v(st: AttrStoreV, name: Seq<char>, e: ExprV) -> AttrStoreV {
    AttrStoreV { const_props: st.const_props.push((name, e)), ..st }
}

pub open spec fn push_watch_v(st: AttrStoreV, name: Seq<char>, r: DependencyResultV) -> AttrStoreV {
    AttrStoreV { watch_props: st.watch_props.push((name, r)), ..st }
}

/// An ASCII capital letter.
pub open spec fn is_ascii_upper(c: char) -> bool {
    65 <= c as u32 && c as u32 <= 90
}

/// An attribute name of the shape `on` followed by a capital letter is an
/// event attribute.
pub open spec fn is_event_name(n: Seq<char>) -> bool {
    n.len() >= 3 && n[0] == 'o' && n[1] == 'n' && is_ascii_upper(n[2])
}

/// Whether the attribute name carries a trailing `Capture` marker.
pub open spec fn event_capture(n: Seq<char>) -> bool {
    let raw = n.subrange(2, n.len() as int);
    raw.len() >= 7 && raw.subrange(raw.len() - 7, raw.len() as int) == "Capture"@
}

/// The event name before lowercasing: the attribute name without its `on`
/// prefix and without a trailing `Capture` marker.
pub open spec fn event_base(n: Seq<char>) -> Seq<char> {
    let raw = n.subrange(2, n.len() as int);
    if raw.len() >= 7 && raw.subrange(raw.len() - 7, raw.len() as int) == "Capture"@ {
        raw.subrange(0, raw.len() - 7)
    } else {
        raw
    }
}

/// The normalized event name: lower-cased, with `doubleclick` rewritten to
/// the DOM's `dblclick`.
pub open spec fn event_name_of(n: Seq<char>) -> Seq<char> {
    let low = lower_seq(event_base(n));
    if low == "doubleclick"@ {
        "dblclick"@
    } else {
        low
    }
}

/// Attribute-name renaming on non-component elements: markup naming to DOM
/// attribute naming.
pub open spec fn renamed(name: Seq<char>, comp: bool) -> Seq<char> {
    if !comp {
        if name == "className"@ {
            "class"@
        } else if name == "htmlFor"@ {
            "for"@
        } else {
            name
        }
    } else {
        name
    }
}

pub open spec fn classify_spread(st: AttrStoreV, s: SpreadAttrV) -> (AttrStoreV, Seq<Diagnostic>) {
    match *s.expr {
        ExprV::Ident(name) => if st.spread_prop is Some {
            (st, one_diag(s.span, DiagCode::DuplicateSpread))
        } else {
            (
                AttrStoreV {
                    spread_prop: Option::Some(IdentV { span: s.span, sym: name }),
                    ..st
                },
                Seq::empty(),
            )
        },
        _ => (st, one_diag(s.span, DiagCode::BadSpreadTarget)),
    }
}

pub open spec fn classify_ref(st: AttrStoreV, at: JsxAttrV) -> (AttrStoreV, Seq<Diagnostic>) {
    if st.ref_prop is Some {
        (st, one_diag(at.span, DiagCode::DuplicateRef))
    } else {
        match at.value {
            Option::Some(AttrValueV::Container(csp, JsxExprV::Expr(e))) => (
                AttrStoreV { ref_prop: Option::Some(*e), ..st },
                Seq::empty(),
            ),
            Option::Some(AttrValueV::Container(csp, JsxExprV::Empty)) => (
                st,
                one_diag(csp, DiagCode::BadRefValue),
            ),
            Option::Some(AttrValueV::Lit(sp, _)) => (st, one_diag(sp, DiagCode::BadRefValue)),
            Option::Some(AttrValueV::Markup(sp)) => (st, one_diag(sp, DiagCode::BadRefValue)),
            Option::None => (st, one_diag(at.span, DiagCode::BadRefValue)),
        }
    }
}

pub open spec fn classify_event(st: AttrStoreV, at: JsxAttrV, name: Seq<char>, comp: bool) -> (
    AttrStoreV,
    Seq<Diagnostic>,
) {
    match at.value {
        Option::Some(AttrValueV::Container(csp, JsxExprV::Expr(h))) => {
            if (*h) is Arrow {
                if comp {
                    (push_const_v(st, name, *h), Seq::empty())
                } else {
                    (
                        AttrStoreV {
                            evt_props: st.evt_props.push(
                                AttrEvtV {
                                    event_name: event_name_of(name),
                                    event_handler: *h,
                                    capture: event_capture(name),
                                },
                            ),
                            ..st
                        },
                        Seq::empty(),
                    )
                }
            } else {
                (st, one_diag(at.span, DiagCode::BadEventValue))
            }
        },
        _ => (st, one_diag(at.span, DiagCode::BadEventValue)),
    }
}

pub open spec fn classify_plain_expr(
    st: AttrStoreV,
    at: JsxAttrV,
    an: Seq<char>,
    csp: Span,
    e: ExprV,
    comp: bool,
) -> (AttrStoreV, Seq<Diagnostic>) {
    match e {
        ExprV::JsxElement(_) => (st, one_diag(csp, DiagCode::JsxAttrValue)),
        ExprV::JsxFragment(_) => (st, one_diag(csp, DiagCode::JsxAttrValue)),
        ExprV::JsxOther => (st, one_diag(csp, DiagCode::JsxAttrValue)),
        ExprV::LitE(l) => (push_const_v(st, an, e), Seq::empty()),
        ExprV::Arrow(f) => if !comp {
            (st, one_diag(at.name_span, DiagCode::FnAttrValue))
        } else {
            let r = spec_analyze(e, named_params(f.params));
            if r is Static {
                (push_const_v(st, an, e), Seq::empty())
            } else {
                (push_watch_v(st, an, r), Seq::empty())
            }
        },
        ExprV::FnExpr { params } => if !comp {
            (st, one_diag(at.name_span, DiagCode::FnAttrValue))
        } else {
            let r = spec_analyze(e, named_params(params));
            if r is Static {
                (push_const_v(st, an, e), Seq::empty())
            } else {
                (push_watch_v(st, an, r), Seq::empty())
            }
        },
        _ => {
            let r = spec_analyze(e, Set::empty());
            if r is Static {
                (push_const_v(st, an, e), Seq::empty())
            } else {
                (push_watch_v(st, an, r), Seq::empty())
            }
        },
    }
}

pub open spec fn classify_plain(st: AttrStoreV, at: JsxAttrV, name: Seq<char>, comp: bool) -> (
    AttrStoreV,
    Seq<Diagnostic>,
) {
    let an = renamed(name, comp);
    match at.value {
        Option::None => (push_const_v(st, an, ExprV::LitE(LitV::Bool(true))), Seq::empty()),
        Option::Some(AttrValueV::Lit(sp, l)) => (
            push_const_v(st, an, ExprV::LitE(l)),
            Seq::empty(),
        ),
        Option::Some(AttrValueV::Markup(sp)) => (st, one_diag(sp, DiagCode::BadAttrValue)),
        Option::Some(AttrValueV::Container(csp, JsxExprV::Empty)) => (st, Seq::empty()),
        Option::Some(AttrValueV::Container(csp, JsxExprV::Expr(e))) => classify_plain_expr(
            st,
            at,
            an,
            csp,
            *e,
            comp,
        ),
    }
}

/// The classification of one attribute: the updated store and the
/// diagnostics it emits.
pub open spec fn classify_attr(st: AttrStoreV, a: JsxAttrOrSpreadV, comp: bool) -> (
    AttrStoreV,
    Seq<Diagnostic>,
) {
    match a {
        JsxAttrOrSpreadV::Spread(s) => classify_spread(st, s),
        JsxAttrOrSpreadV::Attr(at) => match at.name {
            AttrNameV::Other => (st, Seq::empty()),
            AttrNameV::Ident(name) => if name == "children"@ {
                (st, one_diag(at.name_span, DiagCode::ChildrenAttr))
            } else if name == "key"@ {
                (st, Seq::empty())
            } else if name == "ref"@ {
                classify_ref(st, at)
            } else if is_event_name(name) {
                classify_event(st, at, name, comp)
            } else {
                classify_plain(st, at, name, comp)
            },
        },
    }
}

/// The result of classifying an attribute list: the store and all emitted
/// diagnostics, in order.
#[verifier::ext_equal]
pub ghost struct ClassifyOut {
    pub store: AttrStoreV,
    pub diags: Seq<Diagnostic>,
}

pub open spec fn classify_fold(attrs: Seq<JsxAttrOrSpreadV>, comp: bool) -> ClassifyOut
    decreases attrs.len(),
{
    if attrs.len() == 0 {
        ClassifyOut { store: empty_store_v(), diags: Seq::empty() }
    } else {
        let prev = classify_fold(attrs.drop_last(), comp);
        let sd = classify_attr(prev.store, attrs.last(), comp);
        ClassifyOut { store: sd.0, diags: prev.diags + sd.1 }
    }
}

pub proof fn lemma_cprops_view_len(s: Seq<(String, Box<Expr>)>)
    ensures
        cprops_view(s).len() == s.len(),
    decreases s.len(),
{
    if s.len() > 0 {
        lemma_cprops_view_len(s.drop_last());
    }
}

pub proof fn lemma_wprops_view_len(s: Seq<(String, DependencyResult)>)
    ensures
        wprops_view(s).len() == s.len(),
    decreases s.len(),
{
    if s.len() > 0 {
        lemma_wprops_view_len(s.drop_last());
    }
}

/// Classification of a whole element: the forward pass over its attributes,
/// followed by the spread-exclusivity check, which clears the spread and
/// reports once when the spread is combined with constant or watched
/// attributes.
pub open spec fn spec_parse_attrs(el: JsxElementV, comp: bool) -> ClassifyOut {
    let f = classify_fold(el.attrs, comp);
    match f.store.spread_prop {
        Option::Some(id) => if f.store.const_props.len() > 0 || f.store.watch_props.len() > 0 {
            ClassifyOut {
                store: AttrStoreV { spread_prop: Option::None, ..f.store },
                diags: f.diags.push(Diagnostic { span: id.span, code: DiagCode::SpreadNotAlone }),
            }
        } else {
            f
        },
        Option::None => f,
    }
}

fn is_event_attr_name(name: &str) -> (r: bool)
    ensures
        r == is_event_name(name@),
{
    let n = name.unicode_len();
    if n < 3 {
        return false;
    }
    let c0 = name.get_char(0);
    let c1 = name.get_char(1);
    let c2 = name.get_char(2);
    let u: u32 = c2 as u32;
    c0 == 'o' && c1 == 'n' && 65 <= u && u <= 90
}

fn normalize_event_name(name: &str) -> (r: (String, bool))
    requires
        is_event_name(name@),
    ensures
        r.0@ == event_name_of(name@),
        r.1 == event_capture(name@),
{
    let n = name.unicode_len();
    let mut end = n;
    let mut capture = false;
    if n >= 9 {
        let suffix = name.substring_char(n - 7, n);
        if str_eq(suffix, "Capture") {
            end = n - 7;
            capture = true;
        }
    }
    proof {
        let nv = name@;
        let raw = nv.subrange(2, nv.len() as int);
        if n >= 9 {
            assert(nv.subrange(n - 7, n as int) =~= raw.subrange(raw.len() - 7, raw.len() as int));
        }
        assert(capture == event_capture(nv));
    }
    let base = name.substring_char(2, end);
    proof {
        assert(base@ =~= event_base(name@));
    }
    let low = to_lower(base);
    if str_eq(low.as_str(), "doubleclick") {
        (String::from_str("dblclick"), capture)
    } else {
        (low, capture)
    }
}

fn collect_param_names(params: &Vec<ParamPat>) -> (ns: NameSet)
    ensures
        crate::nameset::name_set_contents(ns) == named_params(params_view(params@)),
{
    let mut ns = NameSet::new();
    let mut i: usize = 0;
    while i < params.len()
        invariant
            i <= params.len(),
            crate::nameset::name_set_contents(ns) == named_params(
                params_view(params@.subrange(0, i as int)),
            ),
        decreases params@.len() - i,
    {
        proof {
            crate::ast::lemma_params_view_push(params@.subrange(0, i as int), params@[i as int]);
            assert(params@.subrange(0, i as int).push(params@[i as int]) =~= params@.subrange(
                0,
                i + 1 as int,
            ));
            let post = params_view(params@.subrange(0, i + 1 as int));
            assert(post.drop_last() =~= params_view(params@.subrange(0, i as int)));
        }
        match &params[i] {
            ParamPat::Named(s) => {
                ns.insert(s.as_str());
            },
            ParamPat::Other => {},
        }
        i += 1;
    }
    proof {
        assert(params@.subrange(0, params@.len() as int) =~= params@);
    }
    ns
}

/// Run the analyzer on a component attribute value that is itself a
/// function, excluding the function's own parameter names, and bucket the
/// attribute accordingly.
fn classify_component_fn_value(
    store: &mut AttrStore,
    an: String,
    e: &Expr,
    params: &Vec<ParamPat>,
)
    ensures
        ({
            let ev = expr_view(*e);
            let r = spec_analyze(ev, named_params(params_view(params@)));
            store_view(*final(store)) == (if r is Static {
                push_const_v(store_view(*old(store)), an@, ev)
            } else {
                push_watch_v(store_view(*old(store)), an@, r)
            })
        }),
{
    let ns = collect_param_names(params);
    let v = ExprVisitor::new_with_exclude_roots(Option::Some(ns));
    let r = v.parse(e);
    let ghost c0 = store.const_props@;
    let ghost w0 = store.watch_props@;
    let is_static = matches!(r, DependencyResult::Static);
    if is_static {
        let c = clone_expr(e);
        store.const_props.push((an, Box::new(c)));
        proof {
            lemma_cprops_view_push(c0, store.const_props@.last());
            assert(c0.push(store.const_props@.last()) =~= store.const_props@);
        }
    } else {
        store.watch_props.push((an, r));
        proof {
            lemma_wprops_view_push(w0, store.watch_props@.last());
            assert(w0.push(store.watch_props@.last()) =~= store.watch_props@);
        }
    }
}

/// Run the analyzer with no exclusions on a plain attribute value and bucket
/// the attribute accordingly.
fn classify_analyzed_value(store: &mut AttrStore, an: String, e: &Expr)
    ensures
        ({
            let ev = expr_view(*e);
            let r = spec_analyze(ev, Set::empty());
            store_view(*final(store)) == (if r is Static {
                push_const_v(store_view(*old(store)), an@, ev)
            } else {
                push_watch_v(store_view(*old(store)), an@, r)
            })
        }),
{
    let v = ExprVisitor::new();
    let r = v.parse(e);
    let ghost c0 = store.const_props@;
    let ghost w0 = store.watch_props@;
    let is_static = matches!(r, DependencyResult::Static);
    if is_static {
        let c = clone_expr(e);
        store.const_props.push((an, Box::new(c)));
        proof {
            lemma_cprops_view_push(c0, store.const_props@.last());
            assert(c0.push(store.const_props@.last()) =~= store.const_props@);
        }
    } else {
        store.watch_props.push((an, r));
        proof {
            lemma_wprops_view_push(w0, store.watch_props@.last());
            assert(w0.push(store.watch_props@.last()) =~= store.watch_props@);
        }
    }
}

fn push_const_exec(store: &mut AttrStore, an: String, e: Expr)
    ensures
        store_view(*final(store)) == push_const_v(
            store_view(*old(store)),
            an@,
            expr_view(e),
        ),
{
    let ghost c0 = store.const_props@;
    store.const_props.push((an, Box::new(e)));
    proof {
        lemma_cprops_view_push(c0, store.const_props@.last());
        assert(c0.push(store.const_props@.last()) =~= store.const_props@);
    }
}

#[verifier::rlimit(30)]
fn classify_one(store: &mut AttrStore, diags: &mut Vec<Diagnostic>, attr: &JsxAttrOrSpread, comp: bool)
    ensures
        ({
            let sd = classify_attr(store_view(*old(store)), attr_or_spread_view(*attr), comp);
            &&& store_view(*final(store)) == sd.0
            &&& final(diags)@ == old(diags)@ + sd.1
        }),
{
    let ghost sd = classify_attr(store_view(*old(store)), attr_or_spread_view(*attr), comp);
    let ghost d0 = diags@;
    match attr {
        JsxAttrOrSpread::Spread(s) => {
            match &*s.expr {
                Expr::Ident(name) => {
                    if store.spread_prop.is_some() {
                        emit_error(diags, s.span, DiagCode::DuplicateSpread);
                        proof {
                            assert(diags@ =~= d0 + sd.1);
                        }
                    } else {
                        store.spread_prop = Option::Some(
                            Ident { span: s.span, sym: name.clone() },
                        );
                        proof {
                            assert(store_view(*store) =~= sd.0);
                            assert(diags@ =~= d0 + sd.1);
                        }
                    }
                },
                _ => {
                    emit_error(diags, s.span, DiagCode::BadSpreadTarget);
                    proof {
                        assert(diags@ =~= d0 + sd.1);
                    }
                },
            }
        },
        JsxAttrOrSpread::Attr(at) => {
            match &at.name {
                AttrName::Other => {
                    proof {
                        assert(diags@ =~= d0 + sd.1);
                    }
                },
                AttrName::Ident(name) => {
                    if str_eq(name.as_str(), "children") {
                        emit_error(diags, at.name_span, DiagCode::ChildrenAttr);
                        proof {
                            assert(diags@ =~= d0 + sd.1);
                        }
                    } else if str_eq(name.as_str(), "key") {
                        proof {
                            assert(diags@ =~= d0 + sd.1);
                        }
                    } else if str_eq(name.as_str(), "ref") {
                        if store.ref_prop.is_some() {
                            emit_error(diags, at.span, DiagCode::DuplicateRef);
                            proof {
                                assert(diags@ =~= d0 + sd.1);
                            }
                        } else {
                            match &at.value {
                                Option::Some(AttrValue::Container(csp, JsxExpr::Expr(v))) => {
                                    store.ref_prop = Option::Some(Box::new(clone_expr(v)));
                                    proof {
                                        assert(store_view(*store) =~= sd.0);
                                        assert(diags@ =~= d0 + sd.1);
                                    }
                                },
                                Option::Some(AttrValue::Container(csp, JsxExpr::Empty)) => {
                                    emit_error(diags, *csp, DiagCode::BadRefValue);
                                    proof {
                                        assert(diags@ =~= d0 + sd.1);
                                    }
                                },
                                Option::Some(AttrValue::Lit(sp, _)) => {
                                    emit_error(diags, *sp, DiagCode::BadRefValue);
                                    proof {
                                        assert(diags@ =~= d0 + sd.1);
                                    }
                                },
                                Option::Some(AttrValue::Markup(sp)) => {
                                    emit_error(diags, *sp, DiagCode::BadRefValue);
                                    proof {
                                        assert(diags@ =~= d0 + sd.1);
                                    }
                                },
                                Option::None => {
                                    emit_error(diags, at.span, DiagCode::BadRefValue);
                                    proof {
                                        assert(diags@ =~= d0 + sd.1);
                                    }
                                },
                            }
                        }
                    } else if is_event_attr_name(name.as_str()) {
                        match &at.value {
                            Option::Some(AttrValue::Container(_, JsxExpr::Expr(h))) => {
                                let is_arrow = matches!(&**h, Expr::Arrow(_));
                                if is_arrow {
                                    if comp {
                                        push_const_exec(store, name.clone(), clone_expr(h));
                                        proof {
                                            assert(store_view(*store) =~= sd.0);
                                            assert(diags@ =~= d0 + sd.1);
                                        }
                                    } else {
                                        let en_cap = normalize_event_name(name.as_str());
                                        let ghost e0 = store.evt_props@;
                                        store.evt_props.push(
                                            AttrEvt {
                                                event_name: en_cap.0,
                                                event_handler: Box::new(clone_expr(h)),
                                                capture: en_cap.1,
                                            },
                                        );
                                        proof {
                                            lemma_evts_view_push(e0, store.evt_props@.last());
                                            assert(e0.push(store.evt_props@.last())
                                                =~= store.evt_props@);
                                            assert(store_view(*store) =~= sd.0);
                                            assert(diags@ =~= d0 + sd.1);
                                        }
                                    }
                                } else {
                                    emit_error(diags, at.span, DiagCode::BadEventValue);
                                    proof {
                                        assert(diags@ =~= d0 + sd.1);
                                    }
                                }
                            },
                            _ => {
                                emit_error(diags, at.span, DiagCode::BadEventValue);
                                proof {
                                    assert(diags@ =~= d0 + sd.1);
                                }
                            },
                        }
                    } else {
                        let an: String = if !comp {
                            if str_eq(name.as_str(), "className") {
                                String::from_str("class")
                            } else if str_eq(name.as_str(), "htmlFor") {
                                String::from_str("for")
                            } else {
                                name.clone()
                            }
                        } else {
                            name.clone()
                        };
                        proof {
                            assert(an@ == renamed(name@, comp));
                        }
                        match &at.value {
                            Option::None => {
                                push_const_exec(store, an, Expr::LitE(Lit::Bool(true)));
                                proof {
                                    assert(store_view(*store) =~= sd.0);
                                    assert(diags@ =~= d0 + sd.1);
                                }
                            },
                            Option::Some(AttrValue::Lit(_, l)) => {
                                push_const_exec(store, an, Expr::LitE(clone_lit(l)));
                                proof {
                                    assert(store_view(*store) =~= sd.0);
                                    assert(diags@ =~= d0 + sd.1);
                                }
                            },
                            Option::Some(AttrValue::Markup(sp)) => {
                                emit_error(diags, *sp, DiagCode::BadAttrValue);
                                proof {
                                    assert(diags@ =~= d0 + sd.1);
                                }
                            },
                            Option::Some(AttrValue::Container(_, JsxExpr::Empty)) => {
                                proof {
                                    assert(diags@ =~= d0 + sd.1);
                                }
                            },
                            Option::Some(AttrValue::Container(csp, JsxExpr::Expr(e))) => {
                                match &**e {
                                    Expr::JsxElement(_) => {
                                        emit_error(diags, *csp, DiagCode::JsxAttrValue);
                                        proof {
                                            assert(diags@ =~= d0 + sd.1);
                                        }
                                    },
                                    Expr::JsxFragment(_) => {
                                        emit_error(diags, *csp, DiagCode::JsxAttrValue);
                                        proof {
                                            assert(diags@ =~= d0 + sd.1);
                                        }
                                    },
                                    Expr::JsxOther => {
                                        emit_error(diags, *csp, DiagCode::JsxAttrValue);
                                        proof {
                                            assert(diags@ =~= d0 + sd.1);
                                        }
                                    },
                                    Expr::LitE(_) => {
                                        push_const_exec(store, an, clone_expr(e));
                                        proof {
                                            assert(store_view(*store) =~= sd.0);
                                            assert(diags@ =~= d0 + sd.1);
                                        }
                                    },
                                    Expr::Arrow(f) => {
                                        if !comp {
                                            emit_error(diags, at.name_span, DiagCode::FnAttrValue);
                                            proof {
                                                assert(diags@ =~= d0 + sd.1);
                                            }
                                        } else {
                                            proof {
                                                assert(expr_view(**e) == ExprV::Arrow(
                                                    crate::ast::arrow_view(*f),
                                                ));
                                                assert(crate::ast::arrow_view(*f).params
                                                    == params_view(f.params@));
                                            }
                                            classify_component_fn_value(store, an, e, &f.params);
                                            proof {
                                                assert(store_view(*store) =~= sd.0);
                                                assert(diags@ =~= d0 + sd.1);
                                            }
                                        }
                                    },
                                    Expr::FnExpr { params } => {
                                        if !comp {
                                            emit_error(diags, at.name_span, DiagCode::FnAttrValue);
                                            proof {
                                                assert(diags@ =~= d0 + sd.1);
                                            }
                                        } else {
                                            proof {
                                                assert(expr_view(**e) == (ExprV::FnExpr {
                                                    params: params_view(params@),
                                                }));
                                            }
                                            classify_component_fn_value(store, an, e, params);
                                            proof {
                                                assert(store_view(*store) =~= sd.0);
                                                assert(diags@ =~= d0 + sd.1);
                                            }
                                        }
                                    },
                                    _ => {
                                        classify_analyzed_value(store, an, e);
                                        proof {
                                            assert(store_view(*store) =~= sd.0);
                                            assert(diags@ =~= d0 + sd.1);
                                        }
                                    },
                                }
                            },
                        }
                    }
                },
            }
        },
    }
}

/// The template parser: owns the diagnostic sink that classification reports
/// into.
pub struct TemplateParser {
    pub diagnostics: Vec<Diagnostic>,
}

impl TemplateParser {
    /// A parser with an empty diagnostic sink.
    pub fn new() -> (p: TemplateParser)
        ensures
            p.diagnostics@ == Seq::<Diagnostic>::empty(),
    {
        TemplateParser { diagnostics: Vec::new() }
    }

    /// Partition the attributes of one element into the five buckets of an
    /// [`AttrStore`], appending every violation to the parser's diagnostics.
    /// The store and the appended diagnostics are a pure function of the
    /// element and the component flag.
    #[verifier::loop_isolation(false)]
    #[verifier::rlimit(80)]
    pub fn parse_attrs(&mut self, n: &JsxElement, is_component: bool) -> (store: AttrStore)
        ensures
            ({
                let out = spec_parse_attrs(element_view(*n), is_component);
                &&& store_view(store) == out.store
                &&& final(self).diagnostics@ == old(self).diagnostics@ + out.diags
            }),
    {
        let mut store = AttrStore {
            ref_prop: Option::None,
            evt_props: Vec::new(),
            const_props: Vec::new(),
            watch_props: Vec::new(),
            spread_prop: Option::None,
        };
        let ghost av = crate::ast::attrs_view(n.attrs@);
        proof {
            lemma_attrs_view_len(n.attrs@);
            assert(store_view(store) =~= empty_store_v());
            assert(av.subrange(0, 0) =~= Seq::<JsxAttrOrSpreadV>::empty());
        }
        let mut i: usize = 0;
        while i < n.attrs.len()
            invariant
                i <= n.attrs.len(),
                store_view(store) == classify_fold(av.subrange(0, i as int), is_component).store,
                self.diagnostics@ == old(self).diagnostics@ + classify_fold(
                    av.subrange(0, i as int),
                    is_component,
                ).diags,
            decreases n.attrs@.len() - i,
        {
            proof {
                lemma_attrs_view_index(n.attrs@, i as int);
            }
            classify_one(&mut store, &mut self.diagnostics, &n.attrs[i], is_component);
            proof {
                assert(av.subrange(0, i + 1 as int).drop_last() =~= av.subrange(0, i as int));
                assert(av.subrange(0, i + 1 as int).last() == av[i as int]);
                let prev = classify_fold(av.subrange(0, i as int), is_component);
                let sd = classify_attr(prev.store, av[i as int], is_component);
                assert(self.diagnostics@ =~= old(self).diagnostics@ + (prev.diags + sd.1));
            }
            i += 1;
        }
        proof {
            assert(av.subrange(0, av.len() as int) =~= av);
            assert(element_view(*n).attrs == av);
            lemma_cprops_view_len(store.const_props@);
            lemma_wprops_view_len(store.watch_props@);
        }
        let spread_bad = store.spread_prop.is_some() && (store.const_props.len() > 0
            || store.watch_props.len() > 0);
        if spread_bad {
            let sspan = match &store.spread_prop {
                Option::Some(id) => id.span,
                Option::None => Span { lo: 0, hi: 0 },
            };
            store.spread_prop = Option::None;
            emit_error(&mut self.diagnostics, sspan, DiagCode::SpreadNotAlone);
            proof {
                let f = classify_fold(av, is_component);
                assert(store_view(store) =~= spec_parse_attrs(element_view(*n), is_component).store);
                assert(self.diagnostics@ =~= old(self).diagnostics@ + spec_parse_attrs(
                    element_view(*n),
                    is_component,
                ).diags);
            }
        }
        store
    }
}

/// Classification is a pure function of the element and the component flag:
/// classifying equal elements yields bucket-for-bucket identical stores and
/// identical diagnostics, however often it is repeated and whatever the
/// parser's sink already held.
pub proof fn lemma_classify_idempotent(el1: JsxElementV, el2: JsxElementV, comp: bool)
    requires
        el1 == el2,
    ensures
        spec_parse_attrs(el1, comp) == spec_parse_attrs(el2, comp),
{
}

/// The forward pass never emits the spread-exclusivity diagnostic; only the
/// closing check does.
pub proof fn lemma_fold_no_exclusivity(attrs: Seq<JsxAttrOrSpreadV>, comp: bool)
    ensures
        forall|j: int|
            0 <= j < classify_fold(attrs, comp).diags.len() ==> #[trigger] classify_fold(
                attrs,
                comp,
            ).diags[j].code != DiagCode::SpreadNotAlone,
    decreases attrs.len(),
{
    if attrs.len() > 0 {
        lemma_fold_no_exclusivity(attrs.drop_last(), comp);
    }
}

/// Exclusivity: when the forward pass over an element's attributes leaves
/// both a spread and at least one constant or watched attribute, the final
/// store has no spread, and exactly one exclusivity diagnostic is reported —
/// the last one, with none anywhere before it.
pub proof fn lemma_spread_exclusive(el: JsxElementV, comp: bool)
    requires
        classify_fold(el.attrs, comp).store.spread_prop is Some,
        classify_fold(el.attrs, comp).store.const_props.len() > 0 || classify_fold(
            el.attrs,
            comp,
        ).store.watch_props.len() > 0,
    ensures
        spec_parse_attrs(el, comp).store.spread_prop is None,
        spec_parse_attrs(el, comp).diags.len() == classify_fold(el.attrs, comp).diags.len() + 1,
        spec_parse_attrs(el, comp).diags.last().code == DiagCode::SpreadNotAlone,
        forall|j: int|
            0 <= j < spec_parse_attrs(el, comp).diags.len() - 1 ==> #[trigger] spec_parse_attrs(
                el,
                comp,
            ).diags[j].code != DiagCode::SpreadNotAlone,
{
    lemma_fold_no_exclusivity(el.attrs, comp);
}

} // verus!
