use jingec::ast::{ArrowFunc, Expr, Lit, ParamPat};
use jingec::expr::{DependencyResult, ExprVisitor, PathSeg};
use jingec::nameset::NameSet;

fn ident(n: &str) -> Expr {
    Expr::Ident(n.to_string())
}

fn member(obj: Expr, prop: &str) -> Expr {
    Expr::Member { obj: Box::new(obj), prop: prop.to_string() }
}

fn index(obj: Expr, key: Expr) -> Expr {
    Expr::Index { obj: Box::new(obj), key: Box::new(key) }
}

fn str_lit(s: &str) -> Expr {
    Expr::LitE(Lit::Str(s.to_string()))
}

fn bin(l: Expr, r: Expr) -> Expr {
    Expr::Bin { left: Box::new(l), right: Box::new(r) }
}

fn excluding(names: &[&str]) -> ExprVisitor {
    let mut ns = NameSet::new();
    for n in names {
        ns.insert(n);
    }
    ExprVisitor::new_with_exclude_roots(Some(ns))
}

#[test]
fn literal_is_static() {
    let v = ExprVisitor::new();
    assert_eq!(v.parse(&str_lit("hello")), DependencyResult::Static);
    assert_eq!(v.parse(&Expr::LitE(Lit::Bool(true))), DependencyResult::Static);
    assert_eq!(v.parse(&Expr::LitE(Lit::Null)), DependencyResult::Static);
}

#[test]
fn excluded_identifier_is_static() {
    let v = excluding(&["data", "index"]);
    assert_eq!(v.parse(&ident("data")), DependencyResult::Static);
    assert_eq!(v.parse(&member(ident("data"), "id")), DependencyResult::Static);
}

#[test]
fn builtin_undefined_is_static() {
    let v = ExprVisitor::new();
    assert_eq!(v.parse(&ident("undefined")), DependencyResult::Static);
}

#[test]
fn literal_chain_is_simple_path() {
    let v = ExprVisitor::new();
    let e = member(member(ident("state"), "a"), "b");
    assert_eq!(
        v.parse(&e),
        DependencyResult::SimplePath {
            root: "state".to_string(),
            path: vec!["a".to_string(), "b".to_string()],
        }
    );
}

#[test]
fn string_keyed_index_is_simple_path() {
    let v = ExprVisitor::new();
    let e = index(ident("state"), str_lit("b"));
    assert_eq!(
        v.parse(&e),
        DependencyResult::SimplePath { root: "state".to_string(), path: vec!["b".to_string()] }
    );
}

#[test]
fn bare_identifier_is_simple_path() {
    let v = ExprVisitor::new();
    assert_eq!(
        v.parse(&ident("state")),
        DependencyResult::SimplePath { root: "state".to_string(), path: vec![] }
    );
}

#[test]
fn computed_key_makes_dynamic_path() {
    let v = ExprVisitor::new();
    let e = index(ident("a"), ident("b"));
    match v.parse(&e) {
        DependencyResult::DynamicPath { roots, path } => {
            assert_eq!(roots, vec!["a".to_string(), "b".to_string()]);
            assert_eq!(path.len(), 1);
            assert!(matches!(&path[0], PathSeg::DynSeg(k) if **k == ident("b")));
        }
        other => panic!("expected DynamicPath, got {:?}", other),
    }
}

#[test]
fn mixed_chain_keeps_literal_segments() {
    let v = ExprVisitor::new();
    let e = member(index(ident("a"), ident("k")), "leaf");
    match v.parse(&e) {
        DependencyResult::DynamicPath { roots, path } => {
            assert_eq!(roots, vec!["a".to_string(), "k".to_string()]);
            assert_eq!(path.len(), 2);
            assert!(matches!(&path[0], PathSeg::DynSeg(_)));
            assert!(matches!(&path[1], PathSeg::LitSeg(s) if s == "leaf"));
        }
        other => panic!("expected DynamicPath, got {:?}", other),
    }
}

#[test]
fn computation_is_arbitrary_with_distinct_roots() {
    let v = ExprVisitor::new();
    let e = bin(ident("a"), member(ident("b"), "c"));
    assert_eq!(
        v.parse(&e),
        DependencyResult::Arbitrary { roots: vec!["a".to_string(), "b".to_string()] }
    );
}

#[test]
fn repeated_root_is_listed_once() {
    let v = ExprVisitor::new();
    let e = bin(ident("a"), bin(ident("a"), ident("a")));
    assert_eq!(v.parse(&e), DependencyResult::Arbitrary { roots: vec!["a".to_string()] });
}

#[test]
fn arrow_parameters_shadow_outer_names() {
    let v = ExprVisitor::new();
    let arrow = Expr::Arrow(ArrowFunc {
        params: vec![ParamPat::Named("x".to_string())],
        body: Some(Box::new(bin(ident("x"), ident("y")))),
    });
    assert_eq!(v.parse(&arrow), DependencyResult::Arbitrary { roots: vec!["y".to_string()] });
}

#[test]
fn block_bodied_arrow_is_static() {
    let v = ExprVisitor::new();
    let arrow = Expr::Arrow(ArrowFunc { params: vec![ParamPat::Named("x".to_string())], body: None });
    assert_eq!(v.parse(&arrow), DependencyResult::Static);
}

#[test]
fn excluded_base_with_free_key_is_arbitrary() {
    let v = excluding(&["data"]);
    let e = index(ident("data"), ident("k"));
    assert_eq!(v.parse(&e), DependencyResult::Arbitrary { roots: vec!["k".to_string()] });
}

#[test]
fn call_arguments_feed_roots_in_order() {
    let v = ExprVisitor::new();
    let e = Expr::Call { callee: Box::new(ident("f")), args: vec![ident("b"), ident("a")] };
    assert_eq!(
        v.parse(&e),
        DependencyResult::Arbitrary {
            roots: vec!["f".to_string(), "b".to_string(), "a".to_string()]
        }
    );
}
