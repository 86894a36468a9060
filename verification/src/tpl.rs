//! Codegen templates: pure builders for the output expression fragments.
//!
//! Each function takes already-classified values and builds one
//! self-contained fragment — a call, an assignment or an object literal —
//! referencing the runtime bindings of the import registry. None of them
//! validates its input: validation belongs to the classifier and the key
//! visitor, and these builders never fail.

use vstd::prelude::*;
use crate::ast::{
    Expr, ExprV, Lit, LitV, expr_view, lemma_exprs_view_push, lit_view, obj_props_view,
};
use vstd::string::StringExecFns;

verus! {

/// The fragment that registers a ref value against the current component
/// instance: `this[setRefForComponent$jg$](ref, $jg$, this)`.
pub open spec fn spec_set_ref_code(l: LitV) -> ExprV {
    ExprV::Call {
        callee: Box::new(
            ExprV::Index {
                obj: Box::new(ExprV::This),
                key: Box::new(ExprV::Ident("setRefForComponent$jg$"@)),
            },
        ),
        args: seq![ExprV::LitE(l), ExprV::Ident("$jg$"@), ExprV::This],
    }
}

/// Build the ref-registration fragment for a literal ref value.
pub fn tpl_set_ref_code(r: Lit) -> (res: Box<Expr>)
    ensures
        expr_view(*res) == spec_set_ref_code(lit_view(r)),
{
    let ghost lv = lit_view(r);
    let mut args: Vec<Expr> = Vec::new();
    let ghost a0 = args@;
    args.push(Expr::LitE(r));
    let ghost a1 = args@;
    args.push(Expr::Ident(String::from_str("$jg$")));
    let ghost a2 = args@;
    args.push(Expr::This);
    proof {
        lemma_exprs_view_push(a0, args@[0]);
        lemma_exprs_view_push(a1, args@[1]);
        lemma_exprs_view_push(a2, args@[2]);
        assert(a0.push(args@[0]) =~= a1);
        assert(a1.push(args@[1]) =~= a2);
        assert(a2.push(args@[2]) =~= args@);
        assert(crate::ast::exprs_view(args@) =~= seq![
            ExprV::LitE(lv),
            ExprV::Ident("$jg$"@),
            ExprV::This,
        ]);
    }
    let key = Expr::Ident(String::from_str("setRefForComponent$jg$"));
    proof {
        assert(expr_view(key) == ExprV::Ident("setRefForComponent$jg$"@));
    }
    let callee = Expr::Index { obj: Box::new(Expr::This), key: Box::new(key) };
    proof {
        assert(expr_view(callee) == (ExprV::Index {
            obj: Box::new(ExprV::This),
            key: Box::new(ExprV::Ident("setRefForComponent$jg$"@)),
        }));
    }
    let res = Box::new(Expr::Call { callee: Box::new(callee), args });
    proof {
        assert(expr_view(*res) =~= spec_set_ref_code(lv));
    }
    res
}

/// The fragment that appends the current element to the enclosing
/// component's root-node list: `this[ROOT_NODES$jg$].push($jg$)`.
pub open spec fn spec_push_ele_code() -> ExprV {
    ExprV::Call {
        callee: Box::new(
            ExprV::Member {
                obj: Box::new(
                    ExprV::Index {
                        obj: Box::new(ExprV::This),
                        key: Box::new(ExprV::Ident("ROOT_NODES$jg$"@)),
                    },
                ),
                prop: "push"@,
            },
        ),
        args: seq![ExprV::Ident("$jg$"@)],
    }
}

/// Build the root-node registration fragment.
pub fn tpl_push_ele_code() -> (res: Box<Expr>)
    ensures
        expr_view(*res) == spec_push_ele_code(),
{
    let mut args: Vec<Expr> = Vec::new();
    let ghost a0 = args@;
    args.push(Expr::Ident(String::from_str("$jg$")));
    proof {
        lemma_exprs_view_push(a0, args@[0]);
        assert(a0.push(args@[0]) =~= args@);
        assert(crate::ast::exprs_view(args@) =~= seq![ExprV::Ident("$jg$"@)]);
    }
    let key = Expr::Ident(String::from_str("ROOT_NODES$jg$"));
    proof {
        assert(expr_view(key) == ExprV::Ident("ROOT_NODES$jg$"@));
    }
    let idx = Expr::Index { obj: Box::new(Expr::This), key: Box::new(key) };
    proof {
        assert(expr_view(Expr::This) == ExprV::This);
        assert(expr_view(idx) == (ExprV::Index {
            obj: Box::new(ExprV::This),
            key: Box::new(ExprV::Ident("ROOT_NODES$jg$"@)),
        }));
    }
    let callee = Expr::Member { obj: Box::new(idx), prop: String::from_str("push") };
    proof {
        assert(expr_view(callee) == (ExprV::Member {
            obj: Box::new(
                ExprV::Index {
                    obj: Box::new(ExprV::This),
                    key: Box::new(ExprV::Ident("ROOT_NODES$jg$"@)),
                },
            ),
            prop: "push"@,
        }));
    }
    let res = Box::new(Expr::Call { callee: Box::new(callee), args });
    proof {
        assert(expr_view(*res) =~= spec_push_ele_code());
    }
    res
}

/// Build an object-literal fragment from ordered name/value pairs, used for
/// passing props to a component.
pub fn tpl_lit_obj(lit_arr: Vec<(String, Box<Expr>)>) -> (res: Box<Expr>)
    ensures
        expr_view(*res) == ExprV::Object(obj_props_view(lit_arr@)),
{
    Box::new(Expr::Object(lit_arr))
}

/// The fragment that sets a named DOM attribute through the runtime's
/// setter: `setAttribute$jg$(el, "name", value)`.
pub open spec fn spec_set_attribute(el: ExprV, name: Seq<char>, value: ExprV) -> ExprV {
    ExprV::Call {
        callee: Box::new(ExprV::Ident("setAttribute$jg$"@)),
        args: seq![el, ExprV::LitE(LitV::Str(name)), value],
    }
}

/// Build the attribute-setter call fragment.
pub fn tpl_set_attribute(el: Box<Expr>, attr_name: String, attr_value: Box<Expr>) -> (res: Box<
    Expr,
>)
    ensures
        expr_view(*res) == spec_set_attribute(expr_view(*el), attr_name@, expr_view(*attr_value)),
{
    let ghost elv = expr_view(*el);
    let ghost nv = attr_name@;
    let ghost vv = expr_view(*attr_value);
    let mut args: Vec<Expr> = Vec::new();
    let ghost a0 = args@;
    args.push(*el);
    let ghost a1 = args@;
    args.push(Expr::LitE(Lit::Str(attr_name)));
    let ghost a2 = args@;
    args.push(*attr_value);
    proof {
        lemma_exprs_view_push(a0, args@[0]);
        lemma_exprs_view_push(a1, args@[1]);
        lemma_exprs_view_push(a2, args@[2]);
        assert(a0.push(args@[0]) =~= a1);
        assert(a1.push(args@[1]) =~= a2);
        assert(a2.push(args@[2]) =~= args@);
        assert(crate::ast::exprs_view(args@) =~= seq![elv, ExprV::LitE(LitV::Str(nv)), vv]);
    }
    let callee = Expr::Ident(String::from_str("setAttribute$jg$"));
    proof {
        assert(expr_view(callee) == ExprV::Ident("setAttribute$jg$"@));
    }
    let res = Box::new(Expr::Call { callee: Box::new(callee), args });
    proof {
        assert(expr_view(*res) =~= spec_set_attribute(elv, nv, vv));
    }
    res
}

/// The fragment that assigns a DOM property directly, for attributes that
/// must be set in idl style: `el.name = value`.
pub open spec fn spec_set_idl_attribute(el: ExprV, name: Seq<char>, value: ExprV) -> ExprV {
    ExprV::Assign {
        target: Box::new(ExprV::Member { obj: Box::new(el), prop: name }),
        value: Box::new(value),
    }
}

/// Build the property-assignment fragment.
pub fn tpl_set_idl_attribute(el: Box<Expr>, attr_name: String, attr_value: Box<Expr>) -> (res: Box<
    Expr,
>)
    ensures
        expr_view(*res) == spec_set_idl_attribute(
            expr_view(*el),
            attr_name@,
            expr_view(*attr_value),
        ),
{
    let ghost elv = expr_view(*el);
    let ghost nv = attr_name@;
    let ghost vv = expr_view(*attr_value);
    let target = Expr::Member { obj: el, prop: attr_name };
    proof {
        assert(expr_view(target) == (ExprV::Member { obj: Box::new(elv), prop: nv }));
    }
    let res = Box::new(Expr::Assign { target: Box::new(target), value: attr_value });
    proof {
        assert(expr_view(*res) =~= spec_set_idl_attribute(elv, nv, vv));
    }
    res
}

} // verus!
