//! The element and expression model that the analysis works on.
//!
//! Templates arrive as an element tree whose attribute values hold expression
//! trees. The model is a closed tagged union over the expression shapes the
//! analysis distinguishes; constructs it does not need to tell apart are
//! folded into [`Expr::Other`], which keeps their sub-expressions so that
//! dependency analysis still sees every identifier.
//!
//! Every executable type has a spec-level mirror (`ExprV`, `JsxElementV`, ...)
//! reached through a view function; all contracts in this crate are stated
//! over those mirrors.

use vstd::prelude::*;
use crate::Span;

verus! {

/// An identifier with the span it was written at.
#[derive(Debug, PartialEq, Eq)]
pub struct Ident {
    pub span: Span,
    pub sym: String,
}

/// Spec mirror of [`Ident`].
#[verifier::ext_equal]
pub ghost struct IdentV {
    pub span: Span,
    pub sym: Seq<char>,
}

pub open spec fn ident_view(i: Ident) -> IdentV {
    IdentV { span: i.span, sym: i.sym@ }
}

/// A literal value. Numeric literals keep their source text: no component of
/// the analysis ever reads a numeric value, only its shape.
#[derive(Debug, PartialEq, Eq)]
pub enum Lit {
    Str(String),
    Num(String),
    Bool(bool),
    Null,
}

/// Spec mirror of [`Lit`].
#[verifier::ext_equal]
pub ghost enum LitV {
    Str(Seq<char>),
    Num(Seq<char>),
    Bool(bool),
    Null,
}

pub open spec fn lit_view(l: Lit) -> LitV {
    match l {
        Lit::Str(s) => LitV::Str(s@),
        Lit::Num(s) => LitV::Num(s@),
        Lit::Bool(b) => LitV::Bool(b),
        Lit::Null => LitV::Null,
    }
}

/// One parameter pattern of a callable: a plain named binding, or any other
/// (destructuring) pattern, whose bound names the analysis does not track.
#[derive(Debug, PartialEq, Eq)]
pub enum ParamPat {
    Named(String),
    Other,
}

/// Spec mirror of [`ParamPat`].
#[verifier::ext_equal]
pub ghost enum ParamPatV {
    Named(Seq<char>),
    Other,
}

pub open spec fn param_view(p: ParamPat) -> ParamPatV {
    match p {
        ParamPat::Named(s) => ParamPatV::Named(s@),
        ParamPat::Other => ParamPatV::Other,
    }
}

pub open spec fn params_view(s: Seq<ParamPat>) -> Seq<ParamPatV>
    decreases s.len(),
{
    if s.len() == 0 {
        Seq::empty()
    } else {
        params_view(s.drop_last()).push(param_view(s.last()))
    }
}

/// An arrow-function expression. `body` is `Some` when the body is a single
/// returned expression and `None` when it is a statement block; block bodies
/// are opaque to the analysis.
#[derive(Debug, PartialEq, Eq)]
pub struct ArrowFunc {
    pub params: Vec<ParamPat>,
    pub body: Option<Box<Expr>>,
}

/// An expression tree.
#[derive(Debug, PartialEq, Eq)]
pub enum Expr {
    /// An identifier reference.
    Ident(String),
    /// A literal.
    LitE(Lit),
    /// The `this` reference of the enclosing render function.
    This,
    /// A property access with a literal name: `obj.prop`.
    Member { obj: Box<Expr>, prop: String },
    /// A property access with a computed key: `obj[key]`.
    Index { obj: Box<Expr>, key: Box<Expr> },
    /// A call expression.
    Call { callee: Box<Expr>, args: Vec<Expr> },
    /// A binary operation; the operator itself is irrelevant to the analysis.
    Bin { left: Box<Expr>, right: Box<Expr> },
    /// An assignment `target = value`.
    Assign { target: Box<Expr>, value: Box<Expr> },
    /// An object literal with string-named properties.
    Object(Vec<(String, Box<Expr>)>),
    /// An arrow function.
    Arrow(ArrowFunc),
    /// A `function` expression; its block body is opaque to the analysis.
    FnExpr { params: Vec<ParamPat> },
    /// A parenthesized expression.
    Paren(Box<Expr>),
    /// A markup element used as an expression.
    JsxElement(Box<JsxElement>),
    /// A markup fragment used as an expression.
    JsxFragment(Box<JsxFragment>),
    /// Any other markup-shaped expression (member, namespaced name, empty).
    JsxOther,
    /// Any other construct, carrying its immediate sub-expressions.
    Other(Vec<Expr>),
}

/// An attribute name; names that are not plain identifiers are never
/// classified.
#[derive(Debug, PartialEq, Eq)]
pub enum AttrName {
    Ident(String),
    Other,
}

/// The value inside an attribute's braces or quotes. The [`Span`] of each
/// variant locates the value for diagnostics.
#[derive(Debug, PartialEq, Eq)]
pub enum AttrValue {
    Lit(Span, Lit),
    Container(Span, JsxExpr),
    /// A markup element or fragment written directly as an attribute value.
    Markup(Span),
}

/// The content of an expression container `{...}`.
#[derive(Debug, PartialEq, Eq)]
pub enum JsxExpr {
    Empty,
    Expr(Box<Expr>),
}

/// A named attribute, e.g. `name="v"`, `name={expr}` or bare `name`.
#[derive(Debug, PartialEq, Eq)]
pub struct JsxAttr {
    pub span: Span,
    pub name_span: Span,
    pub name: AttrName,
    pub value: Option<AttrValue>,
}

/// A spread attribute `{...expr}`.
#[derive(Debug, PartialEq, Eq)]
pub struct SpreadAttr {
    pub span: Span,
    pub expr: Box<Expr>,
}

#[derive(Debug, PartialEq, Eq)]
pub enum JsxAttrOrSpread {
    Attr(JsxAttr),
    Spread(SpreadAttr),
}

/// One child node of an element or fragment.
#[derive(Debug, PartialEq, Eq)]
pub enum JsxChild {
    Element(Box<JsxElement>),
    Fragment(Box<JsxFragment>),
    Container(Span, JsxExpr),
    Text(String),
    Other,
}

/// A markup element with its ordered attributes and children.
#[derive(Debug, PartialEq, Eq)]
pub struct JsxElement {
    pub span: Span,
    pub name: String,
    pub attrs: Vec<JsxAttrOrSpread>,
    pub children: Vec<JsxChild>,
}

/// A markup fragment `<>...</>`.
#[derive(Debug, PartialEq, Eq)]
pub struct JsxFragment {
    pub span: Span,
    pub children: Vec<JsxChild>,
}

/// Spec mirror of [`ArrowFunc`].
#[verifier::ext_equal]
pub ghost struct ArrowFuncV {
    pub params: Seq<ParamPatV>,
    pub body: Option<Box<ExprV>>,
}

/// Spec mirror of [`Expr`].
#[verifier::ext_equal]
pub ghost enum ExprV {
    Ident(Seq<char>),
    LitE(LitV),
    This,
    Member { obj: Box<ExprV>, prop: Seq<char> },
    Index { obj: Box<ExprV>, key: Box<ExprV> },
    Call { callee: Box<ExprV>, args: Seq<ExprV> },
    Bin { left: Box<ExprV>, right: Box<ExprV> },
    Assign { target: Box<ExprV>, value: Box<ExprV> },
    Object(Seq<(Seq<char>, ExprV)>),
    Arrow(ArrowFuncV),
    FnExpr { params: Seq<ParamPatV> },
    Paren(Box<ExprV>),
    JsxElement(Box<JsxElementV>),
    JsxFragment(Box<JsxFragmentV>),
    JsxOther,
    Other(Seq<ExprV>),
}

/// Spec mirror of [`AttrName`].
#[verifier::ext_equal]
pub ghost enum AttrNameV {
    Ident(Seq<char>),
    Other,
}

/// Spec mirror of [`AttrValue`].
#[verifier::ext_equal]
pub ghost enum AttrValueV {
    Lit(Span, LitV),
    Container(Span, JsxExprV),
    Markup(Span),
}

/// Spec mirror of [`JsxExpr`].
#[verifier::ext_equal]
pub ghost enum JsxExprV {
    Empty,
    Expr(Box<ExprV>),
}

/// Spec mirror of [`JsxAttr`].
#[verifier::ext_equal]
pub ghost struct JsxAttrV {
    pub span: Span,
    pub name_span: Span,
    pub name: AttrNameV,
    pub value: Option<AttrValueV>,
}

/// Spec mirror of [`SpreadAttr`].
#[verifier::ext_equal]
pub ghost struct SpreadAttrV {
    pub span: Span,
    pub expr: Box<ExprV>,
}

/// Spec mirror of [`JsxAttrOrSpread`].
#[verifier::ext_equal]
pub ghost enum JsxAttrOrSpreadV {
    Attr(JsxAttrV),
    Spread(SpreadAttrV),
}

/// Spec mirror of [`JsxChild`].
#[verifier::ext_equal]
pub ghost enum JsxChildV {
    Element(Box<JsxElementV>),
    Fragment(Box<JsxFragmentV>),
    Container(Span, JsxExprV),
    Text(Seq<char>),
    Other,
}

/// Spec mirror of [`JsxElement`].
#[verifier::ext_equal]
pub ghost struct JsxElementV {
    pub span: Span,
    pub name: Seq<char>,
    pub attrs: Seq<JsxAttrOrSpreadV>,
    pub children: Seq<JsxChildV>,
}

/// Spec mirror of [`JsxFragment`].
#[verifier::ext_equal]
pub ghost struct JsxFragmentV {
    pub span: Span,
    pub children: Seq<JsxChildV>,
}

pub open spec fn expr_view(e: Expr) -> ExprV
    decreases e,
{
    match e {
        Expr::Ident(s) => ExprV::Ident(s@),
        Expr::LitE(l) => ExprV::LitE(lit_view(l)),
        Expr::This => ExprV::This,
        Expr::Member { obj, prop } => ExprV::Member { obj: Box::new(expr_view(*obj)), prop: prop@ },
        Expr::Index { obj, key } => ExprV::Index {
            obj: Box::new(expr_view(*obj)),
            key: Box::new(expr_view(*key)),
        },
        Expr::Call { callee, args } => ExprV::Call {
            callee: Box::new(expr_view(*callee)),
            args: exprs_view(args@),
        },
        Expr::Bin { left, right } => ExprV::Bin {
            left: Box::new(expr_view(*left)),
            right: Box::new(expr_view(*right)),
        },
        Expr::Assign { target, value } => ExprV::Assign {
            target: Box::new(expr_view(*target)),
            value: Box::new(expr_view(*value)),
        },
        Expr::Object(props) => ExprV::Object(obj_props_view(props@)),
        Expr::Arrow(f) => ExprV::Arrow(arrow_view(f)),
        Expr::FnExpr { params } => ExprV::FnExpr { params: params_view(params@) },
        Expr::Paren(inner) => ExprV::Paren(Box::new(expr_view(*inner))),
        Expr::JsxElement(el) => ExprV::JsxElement(Box::new(element_view(*el))),
        Expr::JsxFragment(f) => ExprV::JsxFragment(Box::new(fragment_view(*f))),
        Expr::JsxOther => ExprV::JsxOther,
        Expr::Other(subs) => ExprV::Other(exprs_view(subs@)),
    }
}

pub open spec fn exprs_view(s: Seq<Expr>) -> Seq<ExprV>
    decreases s,
{
    if s.len() == 0 {
        Seq::empty()
    } else {
        exprs_view(s.drop_last()).push(expr_view(s.last()))
    }
}

pub open spec fn obj_props_view(s: Seq<(String, Box<Expr>)>) -> Seq<(Seq<char>, ExprV)>
    decreases s,
{
    if s.len() == 0 {
        Seq::empty()
    } else {
        obj_props_view(s.drop_last()).push((s.last().0@, expr_view(*s.last().1)))
    }
}

pub open spec fn arrow_view(f: ArrowFunc) -> ArrowFuncV
    decreases f,
{
    ArrowFuncV {
        params: params_view(f.params@),
        body: match f.body {
            Option::Some(b) => Option::Some(Box::new(expr_view(*b))),
            Option::None => Option::None,
        },
    }
}

pub open spec fn attr_name_view(n: AttrName) -> AttrNameV {
    match n {
        AttrName::Ident(s) => AttrNameV::Ident(s@),
        AttrName::Other => AttrNameV::Other,
    }
}

pub open spec fn jsx_expr_view(x: JsxExpr) -> JsxExprV
    decreases x,
{
    match x {
        JsxExpr::Empty => JsxExprV::Empty,
        JsxExpr::Expr(e) => JsxExprV::Expr(Box::new(expr_view(*e))),
    }
}

pub open spec fn attr_value_view(v: AttrValue) -> AttrValueV
    decreases v,
{
    match v {
        AttrValue::Lit(sp, l) => AttrValueV::Lit(sp, lit_view(l)),
        AttrValue::Container(sp, x) => AttrValueV::Container(sp, jsx_expr_view(x)),
        AttrValue::Markup(sp) => AttrValueV::Markup(sp),
    }
}

pub open spec fn jsx_attr_view(a: JsxAttr) -> JsxAttrV
    decreases a,
{
    JsxAttrV {
        span: a.span,
        name_span: a.name_span,
        name: attr_name_view(a.name),
        value: match a.value {
            Option::Some(v) => Option::Some(attr_value_view(v)),
            Option::None => Option::None,
        },
    }
}

pub open spec fn attr_or_spread_view(a: JsxAttrOrSpread) -> JsxAttrOrSpreadV
    decreases a,
{
    match a {
        JsxAttrOrSpread::Attr(at) => JsxAttrOrSpreadV::Attr(jsx_attr_view(at)),
        JsxAttrOrSpread::Spread(s) => JsxAttrOrSpreadV::Spread(
            SpreadAttrV { span: s.span, expr: Box::new(expr_view(*s.expr)) },
        ),
    }
}

pub open spec fn attrs_view(s: Seq<JsxAttrOrSpread>) -> Seq<JsxAttrOrSpreadV>
    decreases s,
{
    if s.len() == 0 {
        Seq::empty()
    } else {
        attrs_view(s.drop_last()).push(attr_or_spread_view(s.last()))
    }
}

pub open spec fn child_view(c: JsxChild) -> JsxChildV
    decreases c,
{
    match c {
        JsxChild::Element(el) => JsxChildV::Element(Box::new(element_view(*el))),
        JsxChild::Fragment(f) => JsxChildV::Fragment(Box::new(fragment_view(*f))),
        JsxChild::Container(sp, x) => JsxChildV::Container(sp, jsx_expr_view(x)),
        JsxChild::Text(t) => JsxChildV::Text(t@),
        JsxChild::Other => JsxChildV::Other,
    }
}

pub open spec fn children_view(s: Seq<JsxChild>) -> Seq<JsxChildV>
    decreases s,
{
    if s.len() == 0 {
        Seq::empty()
    } else {
        children_view(s.drop_last()).push(child_view(s.last()))
    }
}

pub open spec fn element_view(el: JsxElement) -> JsxElementV
    decreases el,
{
    JsxElementV {
        span: el.span,
        name: el.name@,
        attrs: attrs_view(el.attrs@),
        children: children_view(el.children@),
    }
}

pub open spec fn fragment_view(f: JsxFragment) -> JsxFragmentV
    decreases f,
{
    JsxFragmentV { span: f.span, children: children_view(f.children@) }
}

pub proof fn lemma_params_view_len(s: Seq<ParamPat>)
    ensures
        params_view(s).len() == s.len(),
    decreases s.len(),
{
    if s.len() > 0 {
        lemma_params_view_len(s.drop_last());
    }
}

pub proof fn lemma_params_view_index(s: Seq<ParamPat>, i: int)
    requires
        0 <= i < s.len(),
    ensures
        params_view(s).len() == s.len(),
        params_view(s)[i] == param_view(s[i]),
    decreases s.len(),
{
    lemma_params_view_len(s);
    if i < s.len() - 1 {
        lemma_params_view_index(s.drop_last(), i);
    }
}

pub proof fn lemma_params_view_push(s: Seq<ParamPat>, p: ParamPat)
    ensures
        params_view(s.push(p)) == params_view(s).push(param_view(p)),
{
    assert(s.push(p).drop_last() =~= s);
    assert(s.push(p).last() == p);
}

pub proof fn lemma_exprs_view_len(s: Seq<Expr>)
    ensures
        exprs_view(s).len() == s.len(),
    decreases s.len(),
{
    if s.len() > 0 {
        lemma_exprs_view_len(s.drop_last());
    }
}

pub proof fn lemma_exprs_view_index(s: Seq<Expr>, i: int)
    requires
        0 <= i < s.len(),
    ensures
        exprs_view(s).len() == s.len(),
        exprs_view(s)[i] == expr_view(s[i]),
    decreases s.len(),
{
    lemma_exprs_view_len(s);
    if i < s.len() - 1 {
        lemma_exprs_view_index(s.drop_last(), i);
    }
}

pub proof fn lemma_exprs_view_push(s: Seq<Expr>, e: Expr)
    ensures
        exprs_view(s.push(e)) == exprs_view(s).push(expr_view(e)),
{
    assert(s.push(e).drop_last() =~= s);
    assert(s.push(e).last() == e);
}

pub proof fn lemma_obj_props_view_len(s: Seq<(String, Box<Expr>)>)
    ensures
        obj_props_view(s).len() == s.len(),
    decreases s.len(),
{
    if s.len() > 0 {
        lemma_obj_props_view_len(s.drop_last());
    }
}

pub proof fn lemma_obj_props_view_index(s: Seq<(String, Box<Expr>)>, i: int)
    requires
        0 <= i < s.len(),
    ensures
        obj_props_view(s).len() == s.len(),
        obj_props_view(s)[i] == (s[i].0@, expr_view(*s[i].1)),
    decreases s.len(),
{
    lemma_obj_props_view_len(s);
    if i < s.len() - 1 {
        lemma_obj_props_view_index(s.drop_last(), i);
    }
}

pub proof fn lemma_obj_props_view_push(s: Seq<(String, Box<Expr>)>, p: (String, Box<Expr>))
    ensures
        obj_props_view(s.push(p)) == obj_props_view(s).push((p.0@, expr_view(*p.1))),
{
    assert(s.push(p).drop_last() =~= s);
    assert(s.push(p).last() == p);
}

pub proof fn lemma_attrs_view_len(s: Seq<JsxAttrOrSpread>)
    ensures
        attrs_view(s).len() == s.len(),
    decreases s.len(),
{
    if s.len() > 0 {
        lemma_attrs_view_len(s.drop_last());
    }
}

pub proof fn lemma_attrs_view_index(s: Seq<JsxAttrOrSpread>, i: int)
    requires
        0 <= i < s.len(),
    ensures
        attrs_view(s).len() == s.len(),
        attrs_view(s)[i] == attr_or_spread_view(s[i]),
    decreases s.len(),
{
    lemma_attrs_view_len(s);
    if i < s.len() - 1 {
        lemma_attrs_view_index(s.drop_last(), i);
    }
}

pub proof fn lemma_attrs_view_push(s: Seq<JsxAttrOrSpread>, a: JsxAttrOrSpread)
    ensures
        attrs_view(s.push(a)) == attrs_view(s).push(attr_or_spread_view(a)),
{
    assert(s.push(a).drop_last() =~= s);
    assert(s.push(a).last() == a);
}

pub proof fn lemma_children_view_len(s: Seq<JsxChild>)
    ensures
        children_view(s).len() == s.len(),
    decreases s.len(),
{
    if s.len() > 0 {
        lemma_children_view_len(s.drop_last());
    }
}

pub proof fn lemma_children_view_index(s: Seq<JsxChild>, i: int)
    requires
        0 <= i < s.len(),
    ensures
        children_view(s).len() == s.len(),
        children_view(s)[i] == child_view(s[i]),
    decreases s.len(),
{
    lemma_children_view_len(s);
    if i < s.len() - 1 {
        lemma_children_view_index(s.drop_last(), i);
    }
}

pub proof fn lemma_children_view_push(s: Seq<JsxChild>, c: JsxChild)
    ensures
        children_view(s.push(c)) == children_view(s).push(child_view(c)),
{
    assert(s.push(c).drop_last() =~= s);
    assert(s.push(c).last() == c);
}

pub fn clone_lit(l: &Lit) -> (r: Lit)
    ensures
        lit_view(r) == lit_view(*l),
{
    match l {
        Lit::Str(s) => Lit::Str(s.clone()),
        Lit::Num(s) => Lit::Num(s.clone()),
        Lit::Bool(b) => Lit::Bool(*b),
        Lit::Null => Lit::Null,
    }
}

pub fn clone_params(v: &Vec<ParamPat>) -> (r: Vec<ParamPat>)
    ensures
        params_view(r@) == params_view(v@),
{
    let mut r: Vec<ParamPat> = Vec::new();
    let mut i: usize = 0;
    while i < v.len()
        invariant
            i <= v.len(),
            params_view(r@) == params_view(v@.subrange(0, i as int)),
        decreases v@.len() - i,
    {
        let c = match &v[i] {
            ParamPat::Named(s) => ParamPat::Named(s.clone()),
            ParamPat::Other => ParamPat::Other,
        };
        proof {
            lemma_params_view_push(r@, c);
            lemma_params_view_push(v@.subrange(0, i as int), v@[i as int]);
            assert(v@.subrange(0, i as int).push(v@[i as int]) =~= v@.subrange(0, i + 1 as int));
        }
        r.push(c);
        i += 1;
    }
    proof {
        assert(v@.subrange(0, v@.len() as int) =~= v@);
    }
    r
}

pub fn clone_expr(e: &Expr) -> (r: Expr)
    ensures
        expr_view(r) == expr_view(*e),
    decreases *e,
{
    match e {
        Expr::Ident(s) => Expr::Ident(s.clone()),
        Expr::LitE(l) => Expr::LitE(clone_lit(l)),
        Expr::This => Expr::This,
        Expr::Member { obj, prop } => Expr::Member {
            obj: Box::new(clone_expr(obj)),
            prop: prop.clone(),
        },
        Expr::Index { obj, key } => Expr::Index {
            obj: Box::new(clone_expr(obj)),
            key: Box::new(clone_expr(key)),
        },
        Expr::Call { callee, args } => Expr::Call {
            callee: Box::new(clone_expr(callee)),
            args: clone_exprs(args),
        },
        Expr::Bin { left, right } => Expr::Bin {
            left: Box::new(clone_expr(left)),
            right: Box::new(clone_expr(right)),
        },
        Expr::Assign { target, value } => Expr::Assign {
            target: Box::new(clone_expr(target)),
            value: Box::new(clone_expr(value)),
        },
        Expr::Object(props) => Expr::Object(clone_obj_props(props)),
        Expr::Arrow(f) => Expr::Arrow(clone_arrow(f)),
        Expr::FnExpr { params } => Expr::FnExpr { params: clone_params(params) },
        Expr::Paren(inner) => Expr::Paren(Box::new(clone_expr(inner))),
        Expr::JsxElement(el) => Expr::JsxElement(Box::new(clone_element(el))),
        Expr::JsxFragment(f) => Expr::JsxFragment(Box::new(clone_fragment(f))),
        Expr::JsxOther => Expr::JsxOther,
        Expr::Other(subs) => Expr::Other(clone_exprs(subs)),
    }
}

pub fn clone_exprs(v: &Vec<Expr>) -> (r: Vec<Expr>)
    ensures
        exprs_view(r@) == exprs_view(v@),
    decreases v@,
{
    let mut r: Vec<Expr> = Vec::new();
    let mut i: usize = 0;
    while i < v.len()
        invariant
            i <= v.len(),
            exprs_view(r@) == exprs_view(v@.subrange(0, i as int)),
        decreases v@.len() - i,
    {
        let c = clone_expr(&v[i]);
        proof {
            lemma_exprs_view_push(r@, c);
            lemma_exprs_view_push(v@.subrange(0, i as int), v@[i as int]);
            assert(v@.subrange(0, i as int).push(v@[i as int]) =~= v@.subrange(0, i + 1 as int));
        }
        r.push(c);
        i += 1;
    }
    proof {
        assert(v@.subrange(0, v@.len() as int) =~= v@);
    }
    r
}

pub fn clone_obj_props(v: &Vec<(String, Box<Expr>)>) -> (r: Vec<(String, Box<Expr>)>)
    ensures
        obj_props_view(r@) == obj_props_view(v@),
    decreases v@,
{
    let mut r: Vec<(String, Box<Expr>)> = Vec::new();
    let mut i: usize = 0;
    while i < v.len()
        invariant
            i <= v.len(),
            obj_props_view(r@) == obj_props_view(v@.subrange(0, i as int)),
        decreases v@.len() - i,
    {
        let c = (v[i].0.clone(), Box::new(clone_expr(&v[i].1)));
        proof {
            lemma_obj_props_view_push(r@, c);
            lemma_obj_props_view_push(v@.subrange(0, i as int), v@[i as int]);
            assert(v@.subrange(0, i as int).push(v@[i as int]) =~= v@.subrange(0, i + 1 as int));
        }
        r.push(c);
        i += 1;
    }
    proof {
        assert(v@.subrange(0, v@.len() as int) =~= v@);
    }
    r
}

pub fn clone_arrow(f: &ArrowFunc) -> (r: ArrowFunc)
    ensures
        arrow_view(r) == arrow_view(*f),
    decreases *f,
{
    ArrowFunc {
        params: clone_params(&f.params),
        body: match &f.body {
            Option::Some(b) => Option::Some(Box::new(clone_expr(b))),
            Option::None => Option::None,
        },
    }
}

pub fn clone_jsx_expr(x: &JsxExpr) -> (r: JsxExpr)
    ensures
        jsx_expr_view(r) == jsx_expr_view(*x),
    decreases *x,
{
    match x {
        JsxExpr::Empty => JsxExpr::Empty,
        JsxExpr::Expr(e) => JsxExpr::Expr(Box::new(clone_expr(e))),
    }
}

pub fn clone_attr_value(v: &AttrValue) -> (r: AttrValue)
    ensures
        attr_value_view(r) == attr_value_view(*v),
    decreases *v,
{
    match v {
        AttrValue::Lit(sp, l) => AttrValue::Lit(*sp, clone_lit(l)),
        AttrValue::Container(sp, x) => AttrValue::Container(*sp, clone_jsx_expr(x)),
        AttrValue::Markup(sp) => AttrValue::Markup(*sp),
    }
}

pub fn clone_attr_or_spread(a: &JsxAttrOrSpread) -> (r: JsxAttrOrSpread)
    ensures
        attr_or_spread_view(r) == attr_or_spread_view(*a),
    decreases *a,
{
    match a {
        JsxAttrOrSpread::Attr(at) => JsxAttrOrSpread::Attr(JsxAttr {
            span: at.span,
            name_span: at.name_span,
            name: match &at.name {
                AttrName::Ident(s) => AttrName::Ident(s.clone()),
                AttrName::Other => AttrName::Other,
            },
            value: match &at.value {
                Option::Some(v) => Option::Some(clone_attr_value(v)),
                Option::None => Option::None,
            },
        }),
        JsxAttrOrSpread::Spread(s) => JsxAttrOrSpread::Spread(SpreadAttr {
            span: s.span,
            expr: Box::new(clone_expr(&s.expr)),
        }),
    }
}

pub fn clone_child(c: &JsxChild) -> (r: JsxChild)
    ensures
        child_view(r) == child_view(*c),
    decreases *c,
{
    match c {
        JsxChild::Element(el) => JsxChild::Element(Box::new(clone_element(el))),
        JsxChild::Fragment(f) => JsxChild::Fragment(Box::new(clone_fragment(f))),
        JsxChild::Container(sp, x) => JsxChild::Container(*sp, clone_jsx_expr(x)),
        JsxChild::Text(t) => JsxChild::Text(t.clone()),
        JsxChild::Other => JsxChild::Other,
    }
}

pub fn clone_element(el: &JsxElement) -> (r: JsxElement)
    ensures
        element_view(r) == element_view(*el),
    decreases *el,
{
    let mut attrs: Vec<JsxAttrOrSpread> = Vec::new();
    let mut i: usize = 0;
    while i < el.attrs.len()
        invariant
            i <= el.attrs.len(),
            attrs_view(attrs@) == attrs_view(el.attrs@.subrange(0, i as int)),
        decreases el.attrs@.len() - i,
    {
        let c = clone_attr_or_spread(&el.attrs[i]);
        proof {
            lemma_attrs_view_push(attrs@, c);
            lemma_attrs_view_push(el.attrs@.subrange(0, i as int), el.attrs@[i as int]);
            assert(el.attrs@.subrange(0, i as int).push(el.attrs@[i as int]) =~= el.attrs@.subrange(
                0,
                i + 1 as int,
            ));
        }
        attrs.push(c);
        i += 1;
    }
    let children = clone_children(&el.children);
    proof {
        assert(el.attrs@.subrange(0, el.attrs@.len() as int) =~= el.attrs@);
    }
    JsxElement { span: el.span, name: el.name.clone(), attrs, children }
}

pub fn clone_children(v: &Vec<JsxChild>) -> (r: Vec<JsxChild>)
    ensures
        children_view(r@) == children_view(v@),
    decreases v@,
{
    let mut r: Vec<JsxChild> = Vec::new();
    let mut i: usize = 0;
    while i < v.len()
        invariant
            i <= v.len(),
            children_view(r@) == children_view(v@.subrange(0, i as int)),
        decreases v@.len() - i,
    {
        let c = clone_child(&v[i]);
        proof {
            lemma_children_view_push(r@, c);
            lemma_children_view_push(v@.subrange(0, i as int), v@[i as int]);
            assert(v@.subrange(0, i as int).push(v@[i as int]) =~= v@.subrange(0, i + 1 as int));
        }
        r.push(c);
        i += 1;
    }
    proof {
        assert(v@.subrange(0, v@.len() as int) =~= v@);
    }
    r
}

pub fn clone_fragment(f: &JsxFragment) -> (r: JsxFragment)
    ensures
        fragment_view(r) == fragment_view(*f),
    decreases *f,
{
    JsxFragment { span: f.span, children: clone_children(&f.children) }
}

/// The view function maps each expression constructor to the mirror
/// constructor of the same name, and no other.
pub proof fn lemma_expr_view_variant(e: Expr)
    ensures
        (expr_view(e) is Ident) == (e is Ident),
        (expr_view(e) is LitE) == (e is LitE),
        (expr_view(e) is This) == (e is This),
        (expr_view(e) is Member) == (e is Member),
        (expr_view(e) is Index) == (e is Index),
        (expr_view(e) is Call) == (e is Call),
        (expr_view(e) is Bin) == (e is Bin),
        (expr_view(e) is Assign) == (e is Assign),
        (expr_view(e) is Object) == (e is Object),
        (expr_view(e) is Arrow) == (e is Arrow),
        (expr_view(e) is FnExpr) == (e is FnExpr),
        (expr_view(e) is Paren) == (e is Paren),
        (expr_view(e) is JsxElement) == (e is JsxElement),
        (expr_view(e) is JsxFragment) == (e is JsxFragment),
        (expr_view(e) is JsxOther) == (e is JsxOther),
        (expr_view(e) is Other) == (e is Other),
{
    match e {
        Expr::Ident(_) => {},
        Expr::LitE(_) => {},
        Expr::This => {},
        Expr::Member { .. } => {},
        Expr::Index { .. } => {},
        Expr::Call { .. } => {},
        Expr::Bin { .. } => {},
        Expr::Assign { .. } => {},
        Expr::Object(_) => {},
        Expr::Arrow(_) => {},
        Expr::FnExpr { .. } => {},
        Expr::Paren(_) => {},
        Expr::JsxElement(_) => {},
        Expr::JsxFragment(_) => {},
        Expr::JsxOther => {},
        Expr::Other(_) => {},
    }
}

} // verus!
