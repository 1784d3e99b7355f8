use bundler_watch::new_url::{
    ArgExpr, Argument, AstScanner, Ident, ImportKind, NewExpr, Span,
};
use bundler_watch::types::ModuleType;

fn url_callee() -> Option<Ident> {
    Some(Ident { name: String::from("URL"), is_global: true })
}

fn expr(callee_ident: Option<Ident>, args: Vec<Argument>) -> NewExpr {
    NewExpr { callee_ident, args, span: Span { start: 10, end: 42 } }
}

#[test]
fn exact_pattern_adds_asset_import_record() {
    let mut scanner = AstScanner::new();
    let e = expr(
        url_callee(),
        vec![
            Argument::Expr(ArgExpr::StringLiteral(String::from("./icon.png"))),
            Argument::Expr(ArgExpr::ImportMetaUrl),
        ],
    );
    scanner.handle_new_url_with_string_literal_and_import_meta_url(&e);
    assert_eq!(scanner.result.import_records.len(), 1);
    let rec = &scanner.result.import_records[0];
    assert_eq!(rec.path, "./icon.png");
    assert_eq!(rec.kind, ImportKind::Import);
    assert_eq!(rec.span, Span { start: 10, end: 42 });
    assert_eq!(rec.meta.bits, 0);
    assert_eq!(rec.asserted_module_type, Some(ModuleType::Asset));
    assert_eq!(scanner.result.new_url_references, vec![(Span { start: 10, end: 42 }, 0)]);
}

#[test]
fn non_global_url_is_ignored() {
    let mut scanner = AstScanner::new();
    let e = expr(
        Some(Ident { name: String::from("URL"), is_global: false }),
        vec![
            Argument::Expr(ArgExpr::StringLiteral(String::from("./icon.png"))),
            Argument::Expr(ArgExpr::ImportMetaUrl),
        ],
    );
    scanner.handle_new_url_with_string_literal_and_import_meta_url(&e);
    assert!(scanner.result.import_records.is_empty());
    assert!(scanner.result.new_url_references.is_empty());
}

#[test]
fn missing_import_meta_url_is_ignored() {
    let mut scanner = AstScanner::new();
    let e = expr(
        url_callee(),
        vec![
            Argument::Expr(ArgExpr::StringLiteral(String::from("./icon.png"))),
            Argument::Expr(ArgExpr::Other),
        ],
    );
    scanner.handle_new_url_with_string_literal_and_import_meta_url(&e);
    assert!(scanner.result.import_records.is_empty());
}

#[test]
fn non_literal_first_argument_is_ignored() {
    let mut scanner = AstScanner::new();
    let e = expr(
        url_callee(),
        vec![Argument::Expr(ArgExpr::Other), Argument::Expr(ArgExpr::ImportMetaUrl)],
    );
    scanner.handle_new_url_with_string_literal_and_import_meta_url(&e);
    assert!(scanner.result.import_records.is_empty());
}

#[test]
fn spread_arguments_are_ignored() {
    let mut scanner = AstScanner::new();
    let e = expr(url_callee(), vec![Argument::Spread, Argument::Expr(ArgExpr::ImportMetaUrl)]);
    scanner.handle_new_url_with_string_literal_and_import_meta_url(&e);
    assert!(scanner.result.import_records.is_empty());
}
