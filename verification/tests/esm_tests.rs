use bundler_watch::esm::{
    create_import_declaration, render_esm, render_esm_chunk_imports, ChunkKind, ExportsKind,
    GenerateContext, ImportSpecifiers, Module, NamedSpecifier, RenderImportStmt, WrapKind,
};

fn s(text: &str) -> String {
    text.to_string()
}

fn named(imported: &str, alias: Option<&str>) -> NamedSpecifier {
    NamedSpecifier { imported: s(imported), alias: alias.map(s) }
}

fn plain_context(stmts: Vec<RenderImportStmt>) -> GenerateContext {
    GenerateContext {
        chunk_kind: ChunkKind::Common,
        modules: Vec::new(),
        entry_wrap_kind: WrapKind::NotWrapped,
        entry_wrapper_name: None,
        import_stmts: stmts,
        exports: None,
    }
}

#[test]
fn import_declaration_with_default_and_named() {
    let decl = create_import_declaration(
        vec![s("a"), s("b as c")],
        &vec![s("d")],
        &s("mod"),
    );
    assert_eq!(decl, "import d, { a, b as c } from \"mod\";\n");
}

#[test]
fn import_declaration_extra_defaults_move_into_braces() {
    let decl = create_import_declaration(Vec::new(), &vec![s("d1"), s("d2")], &s("mod"));
    assert_eq!(decl, "import d1, { default as d2 } from \"mod\";\n");
}

#[test]
fn import_declaration_default_only() {
    let decl = create_import_declaration(Vec::new(), &vec![s("d")], &s("mod"));
    assert_eq!(decl, "import d from \"mod\";\n");
}

#[test]
fn import_declaration_nothing_to_import() {
    let decl = create_import_declaration(Vec::new(), &Vec::new(), &s("mod"));
    assert_eq!(decl, "");
}

#[test]
fn chunk_imports_render_each_statement_kind() {
    let stmts = vec![
        RenderImportStmt { path: s("side-effect"), specifiers: ImportSpecifiers::Named(Vec::new()) },
        RenderImportStmt {
            path: s("lib"),
            specifiers: ImportSpecifiers::Named(vec![
                named("x", None),
                named("default", Some("d")),
                named("y", Some("z")),
            ]),
        },
        RenderImportStmt { path: s("ns-lib"), specifiers: ImportSpecifiers::Star(s("ns")) },
    ];
    let text = render_esm_chunk_imports(&stmts);
    let expected = "import \"side-effect\";\nimport d, { x, y as z } from \"lib\";\nimport * as ns from \"ns-lib\";\n";
    assert_eq!(text, expected);
}

#[test]
fn render_esm_orders_framing_and_body() {
    let ctx = plain_context(vec![RenderImportStmt {
        path: s("dep"),
        specifiers: ImportSpecifiers::Named(vec![named("f", None)]),
    }]);
    let module_sources = vec![
        Some(vec![s("const a = 1;"), s("const b = 2;")]),
        None,
        Some(vec![s("f(a + b);")]),
    ];
    let joiner = render_esm(
        &ctx,
        &module_sources,
        Some("// banner"),
        Some("// footer"),
        Some("// intro"),
        Some("// outro"),
        Some("#!/usr/bin/env node"),
    );
    assert_eq!(
        joiner.sources,
        vec![
            s("#!/usr/bin/env node"),
            s("// banner"),
            s("// intro"),
            s("import { f } from \"dep\";\n"),
            s("const a = 1;"),
            s("const b = 2;"),
            s("f(a + b);"),
            s("// outro"),
            s("// footer"),
        ]
    );
}

#[test]
fn render_esm_entry_star_exports_deduplicated() {
    // adjacent duplicate external names collapse to one re-export line
    let ctx = GenerateContext {
        chunk_kind: ChunkKind::EntryPoint { module: 0 },
        modules: vec![
            Module::Normal { exports_kind: ExportsKind::Esm, star_export_ids: vec![1, 2, 3, 4] },
            Module::External { name: s("ext-a") },
            Module::External { name: s("ext-a") },
            Module::Normal { exports_kind: ExportsKind::CommonJs, star_export_ids: Vec::new() },
            Module::External { name: s("ext-b") },
        ],
        entry_wrap_kind: WrapKind::NotWrapped,
        entry_wrapper_name: None,
        import_stmts: Vec::new(),
        exports: Some(s("export { a };\n")),
    };
    let joiner = render_esm(&ctx, &Vec::new(), None, None, None, None, None);
    assert_eq!(
        joiner.sources,
        vec![
            s(""),
            s("export * from \"ext-a\"\n"),
            s("export * from \"ext-b\"\n"),
            s("export { a };\n"),
        ]
    );
}

#[test]
fn render_esm_wrapped_entries_invoke_wrapper() {
    let mut ctx = GenerateContext {
        chunk_kind: ChunkKind::EntryPoint { module: 0 },
        modules: vec![Module::Normal {
            exports_kind: ExportsKind::CommonJs,
            star_export_ids: Vec::new(),
        }],
        entry_wrap_kind: WrapKind::Esm,
        entry_wrapper_name: Some(s("init_main")),
        import_stmts: Vec::new(),
        exports: None,
    };
    let joiner = render_esm(&ctx, &Vec::new(), None, None, None, None, None);
    assert_eq!(joiner.sources, vec![s(""), s("init_main();")]);

    ctx.entry_wrap_kind = WrapKind::Cjs;
    ctx.entry_wrapper_name = Some(s("require_main"));
    let joiner = render_esm(&ctx, &Vec::new(), None, None, None, None, None);
    assert_eq!(joiner.sources, vec![s(""), s("export default require_main();\n")]);
}
