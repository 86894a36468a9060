use jingec::Span;
use jingec::ast::{
    ArrowFunc, AttrName, AttrValue, Expr, JsxAttr, JsxAttrOrSpread, JsxChild, JsxElement,
    JsxExpr, JsxFragment,
};
use jingec::common::DiagCode;
use jingec::map_key::KeyFnFindVisitor;

fn sp(lo: u32) -> Span {
    Span { lo, hi: lo + 1 }
}

fn ident(n: &str) -> Expr {
    Expr::Ident(n.to_string())
}

fn member(obj: Expr, prop: &str) -> Expr {
    Expr::Member { obj: Box::new(obj), prop: prop.to_string() }
}

fn visitor() -> KeyFnFindVisitor {
    KeyFnFindVisitor {
        arg_data: Some("data".to_string()),
        arg_index: Some("index".to_string()),
        slot_vm_name: "vm".to_string(),
    }
}

fn key_attr(lo: u32, value: Option<AttrValue>) -> JsxAttrOrSpread {
    JsxAttrOrSpread::Attr(JsxAttr {
        span: sp(lo),
        name_span: sp(lo),
        name: AttrName::Ident("key".to_string()),
        value,
    })
}

fn li_with_key(key: Expr) -> JsxElement {
    JsxElement {
        span: sp(0),
        name: "li".to_string(),
        attrs: vec![key_attr(1, Some(AttrValue::Container(sp(2), JsxExpr::Expr(Box::new(key)))))],
        children: vec![JsxChild::Container(sp(3), JsxExpr::Expr(Box::new(member(
            ident("data"),
            "name",
        ))))],
    }
}

fn loop_callable(body: Expr) -> ArrowFunc {
    ArrowFunc {
        params: vec![
            jingec::ast::ParamPat::Named("data".to_string()),
            jingec::ast::ParamPat::Named("index".to_string()),
        ],
        body: Some(Box::new(body)),
    }
}

#[test]
fn key_off_the_data_parameter_is_extracted() {
    let callable = loop_callable(Expr::JsxElement(Box::new(li_with_key(member(
        ident("data"),
        "id",
    )))));
    let mut sink = Vec::new();
    let v = visitor();
    let key = v.get_key_fn(&callable, &mut sink);
    assert_eq!(key.as_deref(), Some(&member(ident("data"), "id")));
    assert!(sink.is_empty());
}

#[test]
fn outer_variable_key_is_a_violation() {
    let callable =
        loop_callable(Expr::JsxElement(Box::new(li_with_key(ident("someOuterVar")))));
    let mut sink = Vec::new();
    let v = visitor();
    let key = v.get_key_fn(&callable, &mut sink);
    assert!(key.is_none());
    assert_eq!(sink.len(), 1);
    assert_eq!(sink[0].code, DiagCode::BadKeyExpr);
}

#[test]
fn block_bodied_callable_never_yields_a_key() {
    let callable = ArrowFunc {
        params: vec![jingec::ast::ParamPat::Named("data".to_string())],
        body: None,
    };
    let mut sink = Vec::new();
    let v = visitor();
    assert!(v.get_key_fn(&callable, &mut sink).is_none());
    assert!(sink.is_empty());
}

#[test]
fn bare_index_parameter_is_a_valid_key() {
    let callable = loop_callable(Expr::JsxElement(Box::new(li_with_key(ident("index")))));
    let mut sink = Vec::new();
    let v = visitor();
    let key = v.get_key_fn(&callable, &mut sink);
    assert_eq!(key.as_deref(), Some(&ident("index")));
    assert!(sink.is_empty());
}

#[test]
fn parenthesized_body_is_unwrapped() {
    let callable = loop_callable(Expr::Paren(Box::new(Expr::JsxElement(Box::new(li_with_key(
        member(ident("data"), "id"),
    ))))));
    let mut sink = Vec::new();
    let v = visitor();
    let key = v.get_key_fn(&callable, &mut sink);
    assert_eq!(key.as_deref(), Some(&member(ident("data"), "id")));
}

#[test]
fn fragment_children_are_searched_in_order() {
    let fragment = JsxFragment {
        span: sp(0),
        children: vec![
            JsxChild::Text("hello".to_string()),
            JsxChild::Element(Box::new(li_with_key(member(ident("data"), "id")))),
        ],
    };
    let callable = loop_callable(Expr::JsxFragment(Box::new(fragment)));
    let mut sink = Vec::new();
    let v = visitor();
    let key = v.get_key_fn(&callable, &mut sink);
    assert_eq!(key.as_deref(), Some(&member(ident("data"), "id")));
}

#[test]
fn empty_key_container_is_a_violation() {
    let el = JsxElement {
        span: sp(0),
        name: "li".to_string(),
        attrs: vec![key_attr(1, Some(AttrValue::Container(sp(2), JsxExpr::Empty)))],
        children: vec![],
    };
    let callable = loop_callable(Expr::JsxElement(Box::new(el)));
    let mut sink = Vec::new();
    let v = visitor();
    assert!(v.get_key_fn(&callable, &mut sink).is_none());
    assert_eq!(sink.len(), 1);
    assert_eq!(sink[0].code, DiagCode::BadKeyExpr);
    assert_eq!(sink[0].span, sp(2));
}

#[test]
fn missing_key_value_is_a_violation() {
    let el = JsxElement {
        span: sp(0),
        name: "li".to_string(),
        attrs: vec![key_attr(1, None)],
        children: vec![],
    };
    let callable = loop_callable(Expr::JsxElement(Box::new(el)));
    let mut sink = Vec::new();
    let v = visitor();
    assert!(v.get_key_fn(&callable, &mut sink).is_none());
    assert_eq!(sink.len(), 1);
    assert_eq!(sink[0].code, DiagCode::BadKeyExpr);
}

#[test]
fn key_expression_with_computed_non_literal_step_is_a_violation() {
    let bad = Expr::Index { obj: Box::new(ident("data")), key: Box::new(ident("k")) };
    let callable = loop_callable(Expr::JsxElement(Box::new(li_with_key(bad))));
    let mut sink = Vec::new();
    let v = visitor();
    assert!(v.get_key_fn(&callable, &mut sink).is_none());
    assert_eq!(sink.len(), 1);
}

#[test]
fn non_markup_body_has_no_key() {
    let callable = loop_callable(member(ident("data"), "name"));
    let mut sink = Vec::new();
    let v = visitor();
    assert!(v.get_key_fn(&callable, &mut sink).is_none());
    assert!(sink.is_empty());
}
