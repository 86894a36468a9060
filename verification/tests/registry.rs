use jingec::Span;
use jingec::common::{
    Capability, DiagCode, Diagnostic, IntlType, emit_error, gen_import_jinge, jinge_import,
};
use jingec::text::to_lower;

#[test]
fn lookup_pairs_exported_and_local_names() {
    let im = jinge_import(Capability::SetRef);
    assert_eq!(im.imported(), "setRefForComponent");
    assert_eq!(im.local(), "setRefForComponent$jg$");
}

#[test]
fn import_statement_aggregates_every_capability() {
    let decl = gen_import_jinge();
    assert_eq!(decl.src, "jinge");
    assert_eq!(decl.specifiers.len(), 29);
    assert_eq!(decl.specifiers[0].imported(), "textRenderFn");
    assert_eq!(decl.specifiers[0].local(), "textRenderFn$jg$");
    assert_eq!(decl.specifiers[27].imported(), "If");
    assert_eq!(decl.specifiers[28].imported(), "For");
    assert!(decl.specifiers.iter().any(|s| s.imported() == "PathWatcher"));
    assert!(decl.specifiers.iter().any(|s| s.imported() == "setAttribute"));
}

#[test]
fn local_bindings_are_distinct() {
    let decl = gen_import_jinge();
    let mut locals: Vec<String> = decl.specifiers.iter().map(|s| s.local()).collect();
    locals.sort();
    locals.dedup();
    assert_eq!(locals.len(), 29);
}

#[test]
fn emit_error_appends_in_order() {
    let mut sink: Vec<Diagnostic> = Vec::new();
    emit_error(&mut sink, Span { lo: 1, hi: 2 }, DiagCode::DuplicateRef);
    emit_error(&mut sink, Span { lo: 3, hi: 4 }, DiagCode::BadKeyExpr);
    assert_eq!(sink.len(), 2);
    assert_eq!(sink[0].span, Span { lo: 1, hi: 2 });
    assert_eq!(sink[1].code, DiagCode::BadKeyExpr);
}

#[test]
fn diagnostics_have_messages() {
    let d = Diagnostic { span: Span { lo: 0, hi: 0 }, code: DiagCode::BadKeyExpr };
    assert_eq!(
        d.message(),
        "the key expression must be the loop's own item or index parameter or a property access off it"
    );
}

#[test]
fn ascii_lowercasing_only_touches_capitals() {
    assert_eq!(to_lower("DoubleClick"), "doubleclick");
    assert_eq!(to_lower("already_lower-1"), "already_lower-1");
    assert_eq!(to_lower(""), "");
}

#[test]
fn intl_type_is_copyable() {
    let a = IntlType::Enabled(true);
    let b = a;
    assert!(matches!(a, IntlType::Enabled(true)));
    assert!(matches!(b, IntlType::Enabled(true)));
}
