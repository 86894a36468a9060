use jingec::ast::{Expr, Lit};
use jingec::common::is_idl_attribute;
use jingec::tpl::{
    tpl_lit_obj, tpl_push_ele_code, tpl_set_attribute, tpl_set_idl_attribute, tpl_set_ref_code,
};

fn ident(n: &str) -> Expr {
    Expr::Ident(n.to_string())
}

fn set_attr_fragment(el: Expr, name: &str, value: Expr) -> Expr {
    if is_idl_attribute(name) {
        *tpl_set_idl_attribute(Box::new(el), name.to_string(), Box::new(value))
    } else {
        *tpl_set_attribute(Box::new(el), name.to_string(), Box::new(value))
    }
}

#[test]
fn value_attribute_becomes_property_assignment() {
    let frag = set_attr_fragment(ident("input"), "value", ident("v"));
    match frag {
        Expr::Assign { target, value } => {
            assert_eq!(
                *target,
                Expr::Member { obj: Box::new(ident("input")), prop: "value".to_string() }
            );
            assert_eq!(*value, ident("v"));
        }
        other => panic!("expected an assignment fragment, got {:?}", other),
    }
}

#[test]
fn title_attribute_becomes_setter_call() {
    let frag = set_attr_fragment(ident("el"), "title", ident("v"));
    match frag {
        Expr::Call { callee, args } => {
            assert_eq!(*callee, ident("setAttribute$jg$"));
            assert_eq!(args.len(), 3);
            assert_eq!(args[0], ident("el"));
            assert_eq!(args[1], Expr::LitE(Lit::Str("title".to_string())));
            assert_eq!(args[2], ident("v"));
        }
        other => panic!("expected a call fragment, got {:?}", other),
    }
}

#[test]
fn recognized_idl_set_is_fixed() {
    for name in ["disabled", "readOnly", "value", "autoFocus", "checked", "muted"] {
        assert!(is_idl_attribute(name), "{name} should be idl-assigned");
    }
    for name in ["title", "class", "for", "id", "Value", "href"] {
        assert!(!is_idl_attribute(name), "{name} should use the setter");
    }
}

#[test]
fn ref_registration_calls_through_the_instance() {
    let frag = *tpl_set_ref_code(Lit::Str("box".to_string()));
    match frag {
        Expr::Call { callee, args } => {
            assert_eq!(
                *callee,
                Expr::Index {
                    obj: Box::new(Expr::This),
                    key: Box::new(ident("setRefForComponent$jg$")),
                }
            );
            assert_eq!(args.len(), 3);
            assert_eq!(args[0], Expr::LitE(Lit::Str("box".to_string())));
            assert_eq!(args[1], ident("$jg$"));
            assert_eq!(args[2], Expr::This);
        }
        other => panic!("expected a call fragment, got {:?}", other),
    }
}

#[test]
fn root_node_registration_pushes_the_element() {
    let frag = *tpl_push_ele_code();
    match frag {
        Expr::Call { callee, args } => {
            assert_eq!(
                *callee,
                Expr::Member {
                    obj: Box::new(Expr::Index {
                        obj: Box::new(Expr::This),
                        key: Box::new(ident("ROOT_NODES$jg$")),
                    }),
                    prop: "push".to_string(),
                }
            );
            assert_eq!(args, vec![ident("$jg$")]);
        }
        other => panic!("expected a call fragment, got {:?}", other),
    }
}

#[test]
fn object_literal_keeps_order() {
    let frag = *tpl_lit_obj(vec![
        ("b".to_string(), Box::new(ident("y"))),
        ("a".to_string(), Box::new(ident("x"))),
    ]);
    match frag {
        Expr::Object(props) => {
            assert_eq!(props.len(), 2);
            assert_eq!(props[0].0, "b");
            assert_eq!(*props[0].1, ident("y"));
            assert_eq!(props[1].0, "a");
            assert_eq!(*props[1].1, ident("x"));
        }
        other => panic!("expected an object literal, got {:?}", other),
    }
}
