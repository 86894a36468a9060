//! Extraction of list-diffing key functions from loop callables.
//!
//! A list-rendering callable gets its per-item `data` and `index` parameters
//! from the runtime. When the rendered element carries a `key` attribute, its
//! expression becomes the list's key function — but only if it is the
//! callable's own item or index parameter, or a property access off one, so
//! that the key can be computed from the item alone. A callable with a block
//! body, or one whose tree has no `key` attribute, yields no key, which is
//! valid: the list then falls back to identity-based diffing.

use vstd::prelude::*;
use crate::ast::{
    ArrowFunc, ArrowFuncV, AttrName, AttrNameV, AttrValue, AttrValueV, Expr, ExprV, JsxAttrV,
    JsxAttrOrSpread, JsxAttrOrSpreadV, JsxChild, JsxChildV, JsxElement, JsxFragment, JsxExpr,
    JsxExprV, arrow_view, attrs_view, children_view, clone_expr, expr_view,
    lemma_attrs_view_index, lemma_attrs_view_len, lemma_children_view_index,
    lemma_children_view_len,
};
use crate::attrs::one_diag;
use crate::common::{DiagCode, Diagnostic, emit_error};
use crate::text::str_eq;

verus! {

/// The visitor that searches a loop callable's returned markup for a `key`
/// attribute. `arg_data` and `arg_index` are the callable's parameter names;
/// `slot_vm_name` is the binding the enclosing slot rewrite uses for the
/// loop's view model.
pub struct KeyFnFindVisitor {
    pub arg_data: Option<String>,
    pub arg_index: Option<String>,
    pub slot_vm_name: String,
}

/// Spec mirror of [`KeyFnFindVisitor`].
#[verifier::ext_equal]
pub ghost struct KeyFnFindVisitorV {
    pub arg_data: Option<Seq<char>>,
    pub arg_index: Option<Seq<char>>,
    pub slot_vm_name: Seq<char>,
}

pub open spec fn kv_view(v: KeyFnFindVisitor) -> KeyFnFindVisitorV {
    KeyFnFindVisitorV {
        arg_data: match v.arg_data {
            Option::Some(d) => Option::Some(d@),
            Option::None => Option::None,
        },
        arg_index: match v.arg_index {
            Option::Some(i) => Option::Some(i@),
            Option::None => Option::None,
        },
        slot_vm_name: v.slot_vm_name@,
    }
}

/// Whether `n` is one of the callable's own parameter names.
pub open spec fn is_param_name(v: KeyFnFindVisitorV, n: Seq<char>) -> bool {
    ||| (v.arg_data matches Option::Some(d) && d == n)
    ||| (v.arg_index matches Option::Some(i) && i == n)
}

/// Whether the expression is a parameter of the callable or a property
/// access off one, with literal keys only.
pub open spec fn is_param_path(v: KeyFnFindVisitorV, e: ExprV) -> bool
    decreases e,
{
    match e {
        ExprV::Ident(n) => is_param_name(v, n),
        ExprV::Member { obj, .. } => is_param_path(v, *obj),
        ExprV::Index { obj, key } => is_param_path(v, *obj) && (*key) is LitE,
        ExprV::Paren(inner) => is_param_path(v, *inner),
        _ => false,
    }
}

/// The outcome of inspecting one attribute that is named `key`: the key
/// expression when it is valid, else the violation to report.
pub open spec fn key_attr_result(v: KeyFnFindVisitorV, at: JsxAttrV) -> (
    Option<ExprV>,
    Seq<Diagnostic>,
) {
    match at.value {
        Option::Some(AttrValueV::Container(csp, JsxExprV::Expr(e))) => if is_param_path(v, *e) {
            (Option::Some(*e), Seq::empty())
        } else {
            (Option::None, one_diag(csp, DiagCode::BadKeyExpr))
        },
        Option::Some(AttrValueV::Container(csp, JsxExprV::Empty)) => (
            Option::None,
            one_diag(csp, DiagCode::BadKeyExpr),
        ),
        _ => (Option::None, one_diag(at.span, DiagCode::BadKeyExpr)),
    }
}

/// Scan an element's attributes in order for the first valid `key`; invalid
/// `key` attributes are reported and the scan continues.
pub open spec fn key_from_attrs(v: KeyFnFindVisitorV, attrs: Seq<JsxAttrOrSpreadV>) -> (
    Option<ExprV>,
    Seq<Diagnostic>,
)
    decreases attrs.len(),
{
    if attrs.len() == 0 {
        (Option::None, Seq::empty())
    } else {
        let hd = match attrs.first() {
            JsxAttrOrSpreadV::Attr(at) => if at.name matches AttrNameV::Ident(n) && n == "key"@ {
                key_attr_result(v, at)
            } else {
                (Option::None, Seq::empty())
            },
            JsxAttrOrSpreadV::Spread(_) => (Option::None, Seq::empty()),
        };
        match hd.0 {
            Option::Some(e) => (Option::Some(e), hd.1),
            Option::None => {
                let rest = key_from_attrs(v, attrs.drop_first());
                (rest.0, hd.1 + rest.1)
            },
        }
    }
}

/// Search one child node: an element is searched for its own `key`
/// attribute, a fragment and an expression container are searched
/// recursively.
pub open spec fn key_from_child(v: KeyFnFindVisitorV, c: JsxChildV) -> (
    Option<ExprV>,
    Seq<Diagnostic>,
)
    decreases c,
{
    match c {
        JsxChildV::Element(el) => key_from_attrs(v, el.attrs),
        JsxChildV::Fragment(f) => key_from_children(v, f.children),
        JsxChildV::Container(_, JsxExprV::Expr(e)) => key_from_expr(v, *e),
        JsxChildV::Container(_, JsxExprV::Empty) => (Option::None, Seq::empty()),
        JsxChildV::Text(_) => (Option::None, Seq::empty()),
        JsxChildV::Other => (Option::None, Seq::empty()),
    }
}

/// Search children in order; the first found key wins and ends the scan.
pub open spec fn key_from_children(v: KeyFnFindVisitorV, s: Seq<JsxChildV>) -> (
    Option<ExprV>,
    Seq<Diagnostic>,
)
    decreases s,
{
    if s.len() == 0 {
        (Option::None, Seq::empty())
    } else {
        let hd = key_from_child(v, s.first());
        match hd.0 {
            Option::Some(e) => (Option::Some(e), hd.1),
            Option::None => {
                let rest = key_from_children(v, s.drop_first());
                (rest.0, hd.1 + rest.1)
            },
        }
    }
}

/// Search an expression that a callable returns: parentheses are looked
/// through; markup is searched; anything else has no key.
pub open spec fn key_from_expr(v: KeyFnFindVisitorV, e: ExprV) -> (Option<ExprV>, Seq<Diagnostic>)
    decreases e,
{
    match e {
        ExprV::Paren(inner) => key_from_expr(v, *inner),
        ExprV::JsxElement(el) => key_from_attrs(v, el.attrs),
        ExprV::JsxFragment(f) => key_from_children(v, f.children),
        _ => (Option::None, Seq::empty()),
    }
}

/// What extraction yields for a whole callable: nothing for a block body,
/// else the search of the returned expression.
pub open spec fn spec_get_key_fn(v: KeyFnFindVisitorV, f: ArrowFuncV) -> (
    Option<ExprV>,
    Seq<Diagnostic>,
) {
    match f.body {
        Option::Some(b) => key_from_expr(v, *b),
        Option::None => (Option::None, Seq::empty()),
    }
}

impl KeyFnFindVisitor {
    fn name_matches(&self, n: &str) -> (r: bool)
        ensures
            r == is_param_name(kv_view(*self), n@),
    {
        let d = match &self.arg_data {
            Option::Some(d) => str_eq(d.as_str(), n),
            Option::None => false,
        };
        if d {
            return true;
        }
        match &self.arg_index {
            Option::Some(i) => str_eq(i.as_str(), n),
            Option::None => false,
        }
    }

    fn is_param_path_exec(&self, e: &Expr) -> (r: bool)
        ensures
            r == is_param_path(kv_view(*self), expr_view(*e)),
        decreases *e,
    {
        proof {
            crate::ast::lemma_expr_view_variant(*e);
        }
        match e {
            Expr::Ident(n) => self.name_matches(n.as_str()),
            Expr::Member { obj, .. } => self.is_param_path_exec(obj),
            Expr::Index { obj, key } => {
                proof {
                    crate::ast::lemma_expr_view_variant(**key);
                }
                let lit = matches!(&**key, Expr::LitE(_));
                lit && self.is_param_path_exec(obj)
            },
            Expr::Paren(inner) => self.is_param_path_exec(inner),
            _ => false,
        }
    }

    #[verifier::loop_isolation(false)]
    fn get_key_from_jsx_element(&self, el: &JsxElement, sink: &mut Vec<Diagnostic>) -> (r: Option<
        Box<Expr>,
    >)
        ensures
            ({
                let sr = key_from_attrs(kv_view(*self), attrs_view(el.attrs@));
                &&& final(sink)@ == old(sink)@ + sr.1
                &&& (match r {
                    Option::Some(b) => sr.0 == Option::Some(expr_view(*b)),
                    Option::None => sr.0 is None,
                })
            }),
    {
        let ghost v = kv_view(*self);
        let ghost av = attrs_view(el.attrs@);
        let ghost full = key_from_attrs(v, av);
        proof {
            lemma_attrs_view_len(el.attrs@);
            assert(av.subrange(0, av.len() as int) =~= av);
        }
        let mut i: usize = 0;
        while i < el.attrs.len()
            invariant
                i <= el.attrs.len(),
                key_from_attrs(v, av.subrange(i as int, av.len() as int)).0 == full.0,
                old(sink)@ + full.1 == sink@ + key_from_attrs(
                    v,
                    av.subrange(i as int, av.len() as int),
                ).1,
            decreases av.len() - i,
        {
            proof {
                lemma_attrs_view_index(el.attrs@, i as int);
                assert(av.subrange(i as int, av.len() as int).first() == av[i as int]);
                assert(av.subrange(i as int, av.len() as int).drop_first() =~= av.subrange(
                    i + 1 as int,
                    av.len() as int,
                ));
            }
            let ghost sub_i = av.subrange(i as int, av.len() as int);
            let ghost sub_n = av.subrange(i + 1 as int, av.len() as int);
            let ghost hd = (match av[i as int] {
                JsxAttrOrSpreadV::Attr(at) => if at.name matches AttrNameV::Ident(n) && n
                    == "key"@ {
                    key_attr_result(v, at)
                } else {
                    (Option::<ExprV>::None, Seq::<Diagnostic>::empty())
                },
                JsxAttrOrSpreadV::Spread(_) => (
                    Option::<ExprV>::None,
                    Seq::<Diagnostic>::empty(),
                ),
            });
            proof {
                if hd.0 is None {
                    assert(key_from_attrs(v, sub_i).0 == key_from_attrs(v, sub_n).0);
                    assert(key_from_attrs(v, sub_i).1 == hd.1 + key_from_attrs(v, sub_n).1);
                }
            }
            match &el.attrs[i] {
                JsxAttrOrSpread::Attr(at) => {
                    proof {
                        assert(av[i as int] == JsxAttrOrSpreadV::Attr(
                            crate::ast::jsx_attr_view(*at),
                        ));
                    }
                    let is_key = match &at.name {
                        AttrName::Ident(n) => str_eq(n.as_str(), "key"),
                        AttrName::Other => false,
                    };
                    if is_key {
                        match &at.value {
                            Option::Some(AttrValue::Container(csp, JsxExpr::Expr(e))) => {
                                if self.is_param_path_exec(e) {
                                    let c = clone_expr(e);
                                    proof {
                                        assert(hd.0 == Option::Some(expr_view(**e)));
                                        assert(hd.1 =~= Seq::<Diagnostic>::empty());
                                        assert(key_from_attrs(v, sub_i).0 == hd.0);
                                        assert(key_from_attrs(v, sub_i).1 == hd.1);
                                        assert(old(sink)@ + full.1 =~= sink@);
                                    }
                                    return Option::Some(Box::new(c));
                                } else {
                                    emit_error(sink, *csp, DiagCode::BadKeyExpr);
                                    proof {
                                        assert(hd.1 =~= one_diag(*csp, DiagCode::BadKeyExpr));
                                    }
                                }
                            },
                            Option::Some(AttrValue::Container(csp, JsxExpr::Empty)) => {
                                emit_error(sink, *csp, DiagCode::BadKeyExpr);
                                proof {
                                    assert(hd.1 =~= one_diag(*csp, DiagCode::BadKeyExpr));
                                }
                            },
                            Option::Some(AttrValue::Lit(sp, _)) => {
                                emit_error(sink, at.span, DiagCode::BadKeyExpr);
                                proof {
                                    assert(hd.1 =~= one_diag(at.span, DiagCode::BadKeyExpr));
                                }
                            },
                            Option::Some(AttrValue::Markup(sp)) => {
                                emit_error(sink, at.span, DiagCode::BadKeyExpr);
                                proof {
                                    assert(hd.1 =~= one_diag(at.span, DiagCode::BadKeyExpr));
                                }
                            },
                            Option::None => {
                                emit_error(sink, at.span, DiagCode::BadKeyExpr);
                                proof {
                                    assert(hd.1 =~= one_diag(at.span, DiagCode::BadKeyExpr));
                                }
                            },
                        }
                    }
                },
                JsxAttrOrSpread::Spread(_) => {},
            }
            i += 1;
        }
        proof {
            assert(av.subrange(av.len() as int, av.len() as int).len() == 0);
            assert(sink@ + Seq::<Diagnostic>::empty() =~= sink@);
        }
        Option::None
    }

    #[verifier::loop_isolation(false)]
    fn get_key_from_jsx_fragment(&self, fr: &JsxFragment, sink: &mut Vec<Diagnostic>) -> (r:
        Option<Box<Expr>>)
        ensures
            ({
                let sr = key_from_children(kv_view(*self), children_view(fr.children@));
                &&& final(sink)@ == old(sink)@ + sr.1
                &&& (match r {
                    Option::Some(b) => sr.0 == Option::Some(expr_view(*b)),
                    Option::None => sr.0 is None,
                })
            }),
        decreases *fr,
    {
        let ghost v = kv_view(*self);
        let ghost cv = children_view(fr.children@);
        let ghost full = key_from_children(v, cv);
        proof {
            lemma_children_view_len(fr.children@);
            assert(cv.subrange(0, cv.len() as int) =~= cv);
        }
        let mut i: usize = 0;
        while i < fr.children.len()
            invariant
                i <= fr.children.len(),
                key_from_children(v, cv.subrange(i as int, cv.len() as int)).0 == full.0,
                old(sink)@ + full.1 == sink@ + key_from_children(
                    v,
                    cv.subrange(i as int, cv.len() as int),
                ).1,
            decreases cv.len() - i,
        {
            proof {
                lemma_children_view_index(fr.children@, i as int);
                assert(cv.subrange(i as int, cv.len() as int).first() == cv[i as int]);
                assert(cv.subrange(i as int, cv.len() as int).drop_first() =~= cv.subrange(
                    i + 1 as int,
                    cv.len() as int,
                ));
            }
            let ghost sub_i = cv.subrange(i as int, cv.len() as int);
            let ghost sub_n = cv.subrange(i + 1 as int, cv.len() as int);
            let ghost hd = key_from_child(v, cv[i as int]);
            let rtn = match &fr.children[i] {
                JsxChild::Element(el) => {
                    proof {
                        assert(cv[i as int] == JsxChildV::Element(
                            Box::new(crate::ast::element_view(**el)),
                        ));
                    }
                    self.get_key_from_jsx_element(el, sink)
                },
                JsxChild::Fragment(fe) => {
                    proof {
                        let ghost vc = (*fr).children;
                        assert(decreases_to!(*fr => vc));
                        assert(decreases_to!(vc => vc@));
                        assert(decreases_to!(vc@ => vc@[i as int]));
                        assert(decreases_to!(vc@[i as int] => **fe));
                        assert(cv[i as int] == JsxChildV::Fragment(
                            Box::new(crate::ast::fragment_view(**fe)),
                        ));
                    }
                    self.get_key_from_jsx_fragment(fe, sink)
                },
                JsxChild::Container(csp, JsxExpr::Expr(e)) => {
                    proof {
                        let ghost vc = (*fr).children;
                        assert(decreases_to!(*fr => vc));
                        assert(decreases_to!(vc => vc@));
                        assert(decreases_to!(vc@ => vc@[i as int]));
                        assert(decreases_to!(vc@[i as int] => **e));
                        assert(cv[i as int] == JsxChildV::Container(
                            *csp,
                            JsxExprV::Expr(Box::new(expr_view(**e))),
                        ));
                    }
                    self.get_key_fn_inner(e, sink)
                },
                JsxChild::Container(_, JsxExpr::Empty) => Option::None,
                JsxChild::Text(_) => Option::None,
                JsxChild::Other => Option::None,
            };
            proof {
                assert(key_from_children(v, sub_i).0 == (match hd.0 {
                    Option::Some(e) => Option::Some(e),
                    Option::None => key_from_children(v, sub_n).0,
                }));
            }
            if rtn.is_some() {
                proof {
                    assert(hd.0 is Some);
                    assert(key_from_children(v, sub_i).1 == hd.1);
                    assert(old(sink)@ + full.1 =~= sink@);
                }
                return rtn;
            }
            proof {
                assert(hd.0 is None);
                assert(key_from_children(v, sub_i).1 == hd.1 + key_from_children(v, sub_n).1);
            }
            i += 1;
        }
        proof {
            assert(cv.subrange(cv.len() as int, cv.len() as int).len() == 0);
            assert(sink@ + Seq::<Diagnostic>::empty() =~= sink@);
        }
        Option::None
    }

    fn get_key_fn_inner(&self, e: &Expr, sink: &mut Vec<Diagnostic>) -> (r: Option<Box<Expr>>)
        ensures
            ({
                let sr = key_from_expr(kv_view(*self), expr_view(*e));
                &&& final(sink)@ == old(sink)@ + sr.1
                &&& (match r {
                    Option::Some(b) => sr.0 == Option::Some(expr_view(*b)),
                    Option::None => sr.0 is None,
                })
            }),
        decreases *e,
    {
        proof {
            crate::ast::lemma_expr_view_variant(*e);
        }
        match e {
            Expr::Paren(inner) => {
                let r = self.get_key_fn_inner(inner, sink);
                proof {
                    assert(expr_view(*e) == ExprV::Paren(Box::new(expr_view(**inner))));
                }
                r
            },
            Expr::JsxFragment(fe) => {
                let r = self.get_key_from_jsx_fragment(fe, sink);
                proof {
                    assert(expr_view(*e) == ExprV::JsxFragment(
                        Box::new(crate::ast::fragment_view(**fe)),
                    ));
                    assert(crate::ast::fragment_view(**fe).children == children_view(
                        fe.children@,
                    ));
                }
                r
            },
            Expr::JsxElement(el) => {
                let r = self.get_key_from_jsx_element(el, sink);
                proof {
                    assert(expr_view(*e) == ExprV::JsxElement(
                        Box::new(crate::ast::element_view(**el)),
                    ));
                    assert(crate::ast::element_view(**el).attrs == attrs_view(el.attrs@));
                }
                r
            },
            _ => {
                proof {
                    assert(old(sink)@ + Seq::<Diagnostic>::empty() =~= old(sink)@);
                }
                Option::None
            },
        }
    }

    /// Extract the key function from a loop callable. A block-bodied
    /// callable never yields a key; otherwise the returned markup is
    /// searched for the first `key` attribute whose expression is rooted at
    /// the callable's own parameters, and every malformed `key` is reported.
    pub fn get_key_fn(&self, expr: &ArrowFunc, sink: &mut Vec<Diagnostic>) -> (r: Option<
        Box<Expr>,
    >)
        ensures
            ({
                let sr = spec_get_key_fn(kv_view(*self), arrow_view(*expr));
                &&& final(sink)@ == old(sink)@ + sr.1
                &&& (match r {
                    Option::Some(b) => sr.0 == Option::Some(expr_view(*b)),
                    Option::None => sr.0 is None,
                })
            }),
    {
        match &expr.body {
            Option::Some(b) => {
                let r = self.get_key_fn_inner(b, sink);
                proof {
                    assert(arrow_view(*expr).body == Option::Some(
                        Box::new(expr_view(**b)),
                    ));
                }
                r
            },
            Option::None => {
                proof {
                    assert(old(sink)@ + Seq::<Diagnostic>::empty() =~= old(sink)@);
                }
                Option::None
            },
        }
    }
}

} // verus!
