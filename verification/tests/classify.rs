use jingec::Span;
use jingec::ast::{
    ArrowFunc, AttrName, AttrValue, Expr, JsxAttr, JsxAttrOrSpread, JsxElement, JsxExpr, Lit,
    ParamPat, SpreadAttr,
};
use jingec::attrs::TemplateParser;
use jingec::common::DiagCode;
use jingec::expr::DependencyResult;

fn sp(lo: u32) -> Span {
    Span { lo, hi: lo + 1 }
}

fn named_attr(lo: u32, name: &str, value: Option<AttrValue>) -> JsxAttrOrSpread {
    JsxAttrOrSpread::Attr(JsxAttr {
        span: sp(lo),
        name_span: sp(lo),
        name: AttrName::Ident(name.to_string()),
        value,
    })
}

fn expr_value(lo: u32, e: Expr) -> Option<AttrValue> {
    Some(AttrValue::Container(sp(lo), JsxExpr::Expr(Box::new(e))))
}

fn str_value(lo: u32, s: &str) -> Option<AttrValue> {
    Some(AttrValue::Lit(sp(lo), Lit::Str(s.to_string())))
}

fn element(attrs: Vec<JsxAttrOrSpread>) -> JsxElement {
    JsxElement { span: sp(0), name: "div".to_string(), attrs, children: vec![] }
}

fn ident(n: &str) -> Expr {
    Expr::Ident(n.to_string())
}

fn member(obj: Expr, prop: &str) -> Expr {
    Expr::Member { obj: Box::new(obj), prop: prop.to_string() }
}

fn arrow_handler() -> Expr {
    Expr::Arrow(ArrowFunc { params: vec![ParamPat::Named("evt".to_string())], body: None })
}

#[test]
fn element_without_attributes_yields_empty_store() {
    let el = element(vec![]);
    let mut p = TemplateParser::new();
    let store = p.parse_attrs(&el, false);
    assert!(store.ref_prop.is_none());
    assert!(store.evt_props.is_empty());
    assert!(store.const_props.is_empty());
    assert!(store.watch_props.is_empty());
    assert!(store.spread_prop.is_none());
    assert!(p.diagnostics.is_empty());
}

#[test]
fn classifying_twice_gives_identical_stores() {
    let el = element(vec![
        named_attr(1, "title", str_value(2, "x")),
        named_attr(3, "a", expr_value(4, member(ident("state"), "a"))),
        named_attr(5, "onClick", expr_value(6, arrow_handler())),
    ]);
    let mut p1 = TemplateParser::new();
    let mut p2 = TemplateParser::new();
    let s1 = p1.parse_attrs(&el, false);
    let s2 = p2.parse_attrs(&el, false);
    assert_eq!(s1, s2);
    assert_eq!(p1.diagnostics, p2.diagnostics);
}

#[test]
fn spread_with_other_props_reports_one_error_and_clears_spread() {
    let el = element(vec![
        JsxAttrOrSpread::Spread(SpreadAttr { span: sp(1), expr: Box::new(ident("props")) }),
        named_attr(2, "title", str_value(3, "x")),
    ]);
    let mut p = TemplateParser::new();
    let store = p.parse_attrs(&el, true);
    assert!(store.spread_prop.is_none());
    assert_eq!(store.const_props.len(), 1);
    let exclusivity: Vec<_> =
        p.diagnostics.iter().filter(|d| d.code == DiagCode::SpreadNotAlone).collect();
    assert_eq!(exclusivity.len(), 1);
    assert_eq!(p.diagnostics.len(), 1);
}

#[test]
fn spread_alone_is_kept() {
    let el = element(vec![JsxAttrOrSpread::Spread(SpreadAttr {
        span: sp(1),
        expr: Box::new(ident("props")),
    })]);
    let mut p = TemplateParser::new();
    let store = p.parse_attrs(&el, true);
    let spread = store.spread_prop.expect("spread kept");
    assert_eq!(spread.sym, "props");
    assert!(p.diagnostics.is_empty());
}

#[test]
fn double_click_event_is_normalized() {
    let el = element(vec![named_attr(1, "onDoubleClick", expr_value(2, arrow_handler()))]);
    let mut p = TemplateParser::new();
    let store = p.parse_attrs(&el, false);
    assert_eq!(store.evt_props.len(), 1);
    assert_eq!(store.evt_props[0].event_name, "dblclick");
    assert!(!store.evt_props[0].capture);
    assert!(p.diagnostics.is_empty());
}

#[test]
fn capture_suffix_is_stripped_and_sets_capture() {
    let el = element(vec![named_attr(1, "onClickCapture", expr_value(2, arrow_handler()))]);
    let mut p = TemplateParser::new();
    let store = p.parse_attrs(&el, false);
    assert_eq!(store.evt_props.len(), 1);
    assert_eq!(store.evt_props[0].event_name, "click");
    assert!(store.evt_props[0].capture);
}

#[test]
fn class_name_is_renamed_on_plain_elements_only() {
    let el = element(vec![named_attr(1, "className", str_value(2, "x"))]);
    let mut p = TemplateParser::new();
    let store = p.parse_attrs(&el, false);
    assert_eq!(store.const_props.len(), 1);
    assert_eq!(store.const_props[0].0, "class");

    let mut p2 = TemplateParser::new();
    let store2 = p2.parse_attrs(&el, true);
    assert_eq!(store2.const_props[0].0, "className");
}

#[test]
fn html_for_is_renamed() {
    let el = element(vec![named_attr(1, "htmlFor", str_value(2, "field"))]);
    let mut p = TemplateParser::new();
    let store = p.parse_attrs(&el, false);
    assert_eq!(store.const_props[0].0, "for");
}

#[test]
fn bare_attribute_becomes_constant_true() {
    let el = element(vec![named_attr(1, "disabled", None)]);
    let mut p = TemplateParser::new();
    let store = p.parse_attrs(&el, false);
    assert_eq!(store.const_props.len(), 1);
    assert_eq!(*store.const_props[0].1, Expr::LitE(Lit::Bool(true)));
}

#[test]
fn reactive_value_is_watched() {
    let el = element(vec![named_attr(1, "a", expr_value(2, member(ident("state"), "a")))]);
    let mut p = TemplateParser::new();
    let store = p.parse_attrs(&el, false);
    assert!(store.const_props.is_empty());
    assert_eq!(store.watch_props.len(), 1);
    assert_eq!(store.watch_props[0].0, "a");
    assert_eq!(
        store.watch_props[0].1,
        DependencyResult::SimplePath { root: "state".to_string(), path: vec!["a".to_string()] }
    );
}

fn one_plus_two() -> Expr {
    Expr::Bin {
        left: Box::new(Expr::LitE(Lit::Num("1".to_string()))),
        right: Box::new(Expr::LitE(Lit::Num("2".to_string()))),
    }
}

#[test]
fn static_expression_value_is_constant() {
    let el = element(vec![named_attr(1, "a", expr_value(2, one_plus_two()))]);
    let mut p = TemplateParser::new();
    let store = p.parse_attrs(&el, false);
    assert_eq!(store.const_props.len(), 1);
    assert_eq!(*store.const_props[0].1, one_plus_two());
}

#[test]
fn ref_is_stored_once_and_duplicates_reported() {
    let el = element(vec![
        named_attr(1, "ref", expr_value(2, ident("r"))),
        named_attr(3, "ref", expr_value(4, ident("r2"))),
    ]);
    let mut p = TemplateParser::new();
    let store = p.parse_attrs(&el, false);
    assert_eq!(store.ref_prop.as_deref(), Some(&ident("r")));
    assert_eq!(p.diagnostics.len(), 1);
    assert_eq!(p.diagnostics[0].code, DiagCode::DuplicateRef);
    assert_eq!(p.diagnostics[0].span, sp(3));
}

#[test]
fn ref_without_expression_is_reported() {
    let el = element(vec![named_attr(1, "ref", str_value(2, "nope"))]);
    let mut p = TemplateParser::new();
    let store = p.parse_attrs(&el, false);
    assert!(store.ref_prop.is_none());
    assert_eq!(p.diagnostics.len(), 1);
    assert_eq!(p.diagnostics[0].code, DiagCode::BadRefValue);
}

#[test]
fn children_attribute_is_reported() {
    let el = element(vec![named_attr(1, "children", str_value(2, "x"))]);
    let mut p = TemplateParser::new();
    let store = p.parse_attrs(&el, false);
    assert!(store.const_props.is_empty());
    assert_eq!(p.diagnostics.len(), 1);
    assert_eq!(p.diagnostics[0].code, DiagCode::ChildrenAttr);
}

#[test]
fn key_attribute_is_silently_dropped() {
    let el = element(vec![named_attr(1, "key", expr_value(2, member(ident("data"), "id")))]);
    let mut p = TemplateParser::new();
    let store = p.parse_attrs(&el, false);
    assert!(store.const_props.is_empty());
    assert!(store.watch_props.is_empty());
    assert!(p.diagnostics.is_empty());
}

#[test]
fn event_value_must_be_arrow() {
    let el = element(vec![named_attr(1, "onClick", expr_value(2, ident("handler")))]);
    let mut p = TemplateParser::new();
    let store = p.parse_attrs(&el, false);
    assert!(store.evt_props.is_empty());
    assert_eq!(p.diagnostics.len(), 1);
    assert_eq!(p.diagnostics[0].code, DiagCode::BadEventValue);
}

#[test]
fn component_event_attribute_becomes_constant_prop() {
    let el = element(vec![named_attr(1, "onClick", expr_value(2, arrow_handler()))]);
    let mut p = TemplateParser::new();
    let store = p.parse_attrs(&el, true);
    assert!(store.evt_props.is_empty());
    assert_eq!(store.const_props.len(), 1);
    assert_eq!(store.const_props[0].0, "onClick");
}

#[test]
fn function_as_plain_attribute_is_reported_on_elements() {
    let el = element(vec![named_attr(1, "fmt", expr_value(2, arrow_handler()))]);
    let mut p = TemplateParser::new();
    let store = p.parse_attrs(&el, false);
    assert!(store.const_props.is_empty());
    assert_eq!(p.diagnostics.len(), 1);
    assert_eq!(p.diagnostics[0].code, DiagCode::FnAttrValue);
}

#[test]
fn component_callback_prop_excludes_its_own_parameters() {
    let cb = Expr::Arrow(ArrowFunc {
        params: vec![ParamPat::Named("item".to_string())],
        body: Some(Box::new(member(ident("item"), "label"))),
    });
    let el = element(vec![named_attr(1, "render", expr_value(2, cb))]);
    let mut p = TemplateParser::new();
    let store = p.parse_attrs(&el, true);
    assert_eq!(store.const_props.len(), 1);
    assert!(store.watch_props.is_empty());
}

#[test]
fn component_callback_over_outer_state_is_watched() {
    let cb = Expr::Arrow(ArrowFunc {
        params: vec![ParamPat::Named("item".to_string())],
        body: Some(Box::new(member(ident("state"), "label"))),
    });
    let el = element(vec![named_attr(1, "render", expr_value(2, cb))]);
    let mut p = TemplateParser::new();
    let store = p.parse_attrs(&el, true);
    assert!(store.const_props.is_empty());
    assert_eq!(store.watch_props.len(), 1);
}

#[test]
fn markup_as_attribute_value_is_reported() {
    let el = element(vec![named_attr(1, "a", expr_value(2, Expr::JsxOther))]);
    let mut p = TemplateParser::new();
    p.parse_attrs(&el, false);
    assert_eq!(p.diagnostics.len(), 1);
    assert_eq!(p.diagnostics[0].code, DiagCode::JsxAttrValue);
}

#[test]
fn markup_attribute_value_kind_is_reported() {
    let el = element(vec![named_attr(1, "a", Some(AttrValue::Markup(sp(2))))]);
    let mut p = TemplateParser::new();
    p.parse_attrs(&el, false);
    assert_eq!(p.diagnostics.len(), 1);
    assert_eq!(p.diagnostics[0].code, DiagCode::BadAttrValue);
    assert_eq!(p.diagnostics[0].span, sp(2));
}

#[test]
fn spread_target_must_be_identifier() {
    let el = element(vec![JsxAttrOrSpread::Spread(SpreadAttr {
        span: sp(1),
        expr: Box::new(member(ident("a"), "b")),
    })]);
    let mut p = TemplateParser::new();
    let store = p.parse_attrs(&el, true);
    assert!(store.spread_prop.is_none());
    assert_eq!(p.diagnostics.len(), 1);
    assert_eq!(p.diagnostics[0].code, DiagCode::BadSpreadTarget);
}

#[test]
fn duplicate_spread_is_reported() {
    let el = element(vec![
        JsxAttrOrSpread::Spread(SpreadAttr { span: sp(1), expr: Box::new(ident("a")) }),
        JsxAttrOrSpread::Spread(SpreadAttr { span: sp(2), expr: Box::new(ident("b")) }),
    ]);
    let mut p = TemplateParser::new();
    let store = p.parse_attrs(&el, true);
    assert_eq!(store.spread_prop.as_ref().map(|i| i.sym.as_str()), Some("a"));
    assert_eq!(p.diagnostics.len(), 1);
    assert_eq!(p.diagnostics[0].code, DiagCode::DuplicateSpread);
    assert_eq!(p.diagnostics[0].span, sp(2));
}

#[test]
fn diagnostics_accumulate_across_elements() {
    let el = element(vec![named_attr(1, "children", str_value(2, "x"))]);
    let mut p = TemplateParser::new();
    p.parse_attrs(&el, false);
    p.parse_attrs(&el, false);
    assert_eq!(p.diagnostics.len(), 2);
}
