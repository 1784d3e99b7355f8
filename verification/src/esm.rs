//! Rendering of one output chunk in the ESM format.
//!
//! The linker hands in the collected import statements, the module table,
//! the entry's wrap strategy and the rendered exports; this module builds
//! the chunk text pieces in their fixed order.

use itertools::Itertools;
use vstd::prelude::*;
use vstd::string::StringExecFns;

verus! {

/// One named specifier of a collected import statement.
pub struct NamedSpecifier {
    pub imported: String,
    pub alias: Option<String>,
}

/// The mathematical value of a named specifier.
pub struct NamedSpecifierV {
    pub imported: Seq<char>,
    pub alias: Option<Seq<char>>,
}

impl View for NamedSpecifier {
    type V = NamedSpecifierV;

    open spec fn view(&self) -> NamedSpecifierV {
        NamedSpecifierV {
            imported: self.imported@,
            alias: match self.alias {
                Some(ref a) => Some(a@),
                None => None,
            },
        }
    }
}

/// The specifiers of one collected import statement.
pub enum ImportSpecifiers {
    /// `import { a, b as c } from ...` (possibly empty).
    Named(Vec<NamedSpecifier>),
    /// `import * as alias from ...`.
    Star(String),
}

/// The mathematical value of the specifiers.
pub enum ImportSpecifiersV {
    Named(Seq<NamedSpecifierV>),
    Star(Seq<char>),
}

impl View for ImportSpecifiers {
    type V = ImportSpecifiersV;

    open spec fn view(&self) -> ImportSpecifiersV {
        match self {
            ImportSpecifiers::Named(specs) => ImportSpecifiersV::Named(
                specs@.map_values(|n: NamedSpecifier| n@),
            ),
            ImportSpecifiers::Star(alias) => ImportSpecifiersV::Star(alias@),
        }
    }
}

/// One import statement collected for the chunk.
pub struct RenderImportStmt {
    pub path: String,
    pub specifiers: ImportSpecifiers,
}

/// The mathematical value of one import statement.
pub struct RenderImportStmtV {
    pub path: Seq<char>,
    pub specifiers: ImportSpecifiersV,
}

impl View for RenderImportStmt {
    type V = RenderImportStmtV;

    open spec fn view(&self) -> RenderImportStmtV {
        RenderImportStmtV { path: self.path@, specifiers: self.specifiers@ }
    }
}

/// The texts of the named specifiers that stay in the braces: an aliased
/// `default` moves out, an aliased name renders as `name as alias`.
pub open spec fn spec_strings(specs: Seq<NamedSpecifierV>) -> Seq<Seq<char>>
    decreases specs.len(),
{
    if specs.len() == 0 {
        Seq::empty()
    } else {
        spec_strings(specs.drop_last()) + (match specs.last().alias {
            Some(a) => {
                if specs.last().imported == "default"@ {
                    Seq::empty()
                } else {
                    seq![specs.last().imported + " as "@ + a]
                }
            },
            None => seq![specs.last().imported],
        })
    }
}

/// The aliases under which the default export is imported, in order.
pub open spec fn default_aliases(specs: Seq<NamedSpecifierV>) -> Seq<Seq<char>>
    decreases specs.len(),
{
    if specs.len() == 0 {
        Seq::empty()
    } else {
        default_aliases(specs.drop_last()) + (match specs.last().alias {
            Some(a) => {
                if specs.last().imported == "default"@ {
                    seq![a]
                } else {
                    Seq::empty()
                }
            },
            None => Seq::empty(),
        })
    }
}

/// The specifier texts joined with a comma.
pub open spec fn join_comma(parts: Seq<Seq<char>>) -> Seq<char>
    decreases parts.len(),
{
    if parts.len() == 0 {
        Seq::empty()
    } else if parts.len() == 1 {
        parts[0]
    } else {
        join_comma(parts.drop_last()) + ", "@ + parts.last()
    }
}

/// Every default alias beyond the first goes back into the braces as
/// `default as alias`.
pub open spec fn extra_default_specs(default_alias: Seq<Seq<char>>) -> Seq<Seq<char>> {
    if default_alias.len() == 0 {
        Seq::empty()
    } else {
        default_alias.skip(1).map_values(|a: Seq<char>| "default as "@ + a)
    }
}

/// The text of one import declaration, built from the brace specifiers, the
/// default aliases and the source path.
pub open spec fn import_decl_text(
    specifiers: Seq<Seq<char>>,
    default_alias: Seq<Seq<char>>,
    path: Seq<char>,
) -> Seq<char> {
    let all_specs = specifiers + extra_default_specs(default_alias);
    if all_specs.len() > 0 {
        "import "@ + (if default_alias.len() > 0 {
            default_alias[0] + ", "@
        } else {
            Seq::empty()
        }) + "{ "@ + join_comma(all_specs) + " } from \""@ + path + "\";\n"@
    } else if default_alias.len() > 0 {
        "import "@ + default_alias[0] + " from \""@ + path + "\";\n"@
    } else {
        Seq::empty()
    }
}

/// Render one import declaration: the named specifiers in braces, the first
/// default alias in front, every further default alias as `default as x`
/// inside the braces; nothing when there is nothing to import.
pub fn create_import_declaration(
    specifiers: Vec<String>,
    default_alias: &Vec<String>,
    path: &String,
) -> (ret: String)
    ensures
        ret@ == import_decl_text(
            specifiers@.map_values(|s: String| s@),
            default_alias@.map_values(|s: String| s@),
            path@,
        ),
{
    let ghost specs0 = specifiers@.map_values(|s: String| s@);
    let ghost da = default_alias@.map_values(|s: String| s@);
    let ghost extra = extra_default_specs(da);
    let mut all_specs = specifiers;
    let mut j: usize = 1;
    proof {
        if da.len() > 0 {
            assert(da.skip(1).take(0) =~= Seq::<Seq<char>>::empty());
        }
        assert(all_specs@.map_values(|s: String| s@) =~= specs0);
    }
    while j < default_alias.len()
        invariant
            1 <= j,
            j <= default_alias@.len() || j == 1,
            da == default_alias@.map_values(|s: String| s@),
            all_specs@.map_values(|s: String| s@) == specs0 + (if da.len() == 0 {
                Seq::<Seq<char>>::empty()
            } else {
                da.skip(1).take(j - 1).map_values(|a: Seq<char>| "default as "@ + a)
            }),
        decreases default_alias@.len() - j,
    {
        let ghost prev = all_specs@.map_values(|s: String| s@);
        let mut t = String::from_str("default as ");
        t.append(default_alias[j].as_str());
        all_specs.push(t);
        proof {
            assert(all_specs@.map_values(|s: String| s@) =~= prev.push("default as "@ + da[j as int]));
            assert(da.skip(1).take(j as int)
                =~= da.skip(1).take(j - 1).push(da[j as int]));
            assert(da.skip(1).take(j as int).map_values(|a: Seq<char>| "default as "@ + a)
                =~= da.skip(1).take(j - 1).map_values(|a: Seq<char>| "default as "@ + a).push(
                "default as "@ + da[j as int],
            ));
            assert(all_specs@.map_values(|s: String| s@) =~= specs0 + da.skip(1).take(
                j as int,
            ).map_values(|a: Seq<char>| "default as "@ + a));
        }
        j = j + 1;
    }
    proof {
        if da.len() > 0 {
            assert(da.skip(1).take(j - 1) =~= da.skip(1));
        }
        assert(all_specs@.map_values(|s: String| s@) =~= specs0 + extra);
    }
    let ghost all = specs0 + extra;

    let mut ret = String::new();
    if all_specs.len() > 0 {
        ret.append("import ");
        if default_alias.len() > 0 {
            ret.append(default_alias[0].as_str());
            ret.append(", ");
        }
        ret.append("{ ");
        let ghost prefix = ret@;
        let mut i: usize = 0;
        proof {
            assert(all.take(0) =~= Seq::<Seq<char>>::empty());
            assert(ret@ =~= prefix + join_comma(all.take(0)));
        }
        while i < all_specs.len()
            invariant
                i <= all_specs@.len(),
                all == all_specs@.map_values(|s: String| s@),
                ret@ == prefix + join_comma(all.take(i as int)),
            decreases all_specs@.len() - i,
        {
            if i > 0 {
                ret.append(", ");
            }
            ret.append(all_specs[i].as_str());
            proof {
                assert(all.take(i + 1).drop_last() =~= all.take(i as int));
                assert(all.take(i + 1).last() == all[i as int]);
                if i > 0 {
                    assert(ret@ =~= prefix + join_comma(all.take(i + 1)));
                } else {
                    assert(all.take(1).len() == 1);
                    assert(join_comma(all.take(1)) == all[0]);
                    assert(ret@ =~= prefix + join_comma(all.take(1)));
                }
            }
            i = i + 1;
        }
        proof {
            assert(all.take(all.len() as int) =~= all);
        }
        ret.append(" } from \"");
        ret.append(path.as_str());
        ret.append("\";\n");
        proof {
            assert(ret@ =~= import_decl_text(specs0, da, path@));
        }
    } else if default_alias.len() > 0 {
        ret.append("import ");
        ret.append(default_alias[0].as_str());
        ret.append(" from \"");
        ret.append(path.as_str());
        ret.append("\";\n");
        proof {
            assert(ret@ =~= import_decl_text(specs0, da, path@));
        }
    } else {
        proof {
            assert(ret@ =~= import_decl_text(specs0, da, path@));
        }
    }
    ret
}

/// The text one import statement renders to.
pub open spec fn import_stmt_text(stmt: RenderImportStmtV) -> Seq<char> {
    match stmt.specifiers {
        ImportSpecifiersV::Named(specs) => {
            if specs.len() == 0 {
                "import \""@ + stmt.path + "\";\n"@
            } else {
                import_decl_text(spec_strings(specs), default_aliases(specs), stmt.path)
            }
        },
        ImportSpecifiersV::Star(alias) => "import * as "@ + alias + " from \""@ + stmt.path
            + "\";\n"@,
    }
}

/// The texts of all import statements, concatenated in order.
pub open spec fn chunk_imports_text(stmts: Seq<RenderImportStmtV>) -> Seq<char>
    decreases stmts.len(),
{
    if stmts.len() == 0 {
        Seq::empty()
    } else {
        chunk_imports_text(stmts.drop_last()) + import_stmt_text(stmts.last())
    }
}

/// Render the import statements at the top of an ESM chunk: a bare import
/// for an empty specifier list, a star import for a star specifier, and one
/// declaration built by `create_import_declaration` otherwise.
pub fn render_esm_chunk_imports(stmts: &Vec<RenderImportStmt>) -> (s: String)
    ensures
        s@ == chunk_imports_text(stmts@.map_values(|st: RenderImportStmt| st@)),
{
    let ghost views = stmts@.map_values(|st: RenderImportStmt| st@);
    let default_lit = String::from_str("default");
    let mut s = String::new();
    let mut i: usize = 0;
    proof {
        assert(views.take(0) =~= Seq::<RenderImportStmtV>::empty());
    }
    while i < stmts.len()
        invariant
            i <= stmts@.len(),
            views == stmts@.map_values(|st: RenderImportStmt| st@),
            default_lit@ == "default"@,
            s@ == chunk_imports_text(views.take(i as int)),
        decreases stmts@.len() - i,
    {
        let stmt = &stmts[i];
        match &stmt.specifiers {
            ImportSpecifiers::Named(specifiers) => {
                if specifiers.len() == 0 {
                    s.append("import \"");
                    s.append(stmt.path.as_str());
                    s.append("\";\n");
                } else {
                    let ghost sviews = specifiers@.map_values(|n: NamedSpecifier| n@);
                    let mut brace: Vec<String> = Vec::new();
                    let mut defaults: Vec<String> = Vec::new();
                    let mut j: usize = 0;
                    proof {
                        assert(sviews.take(0) =~= Seq::<NamedSpecifierV>::empty());
                        assert(brace@.map_values(|t: String| t@) =~= spec_strings(sviews.take(0)));
                        assert(defaults@.map_values(|t: String| t@) =~= default_aliases(
                            sviews.take(0),
                        ));
                    }
                    while j < specifiers.len()
                        invariant
                            j <= specifiers@.len(),
                            sviews == specifiers@.map_values(|n: NamedSpecifier| n@),
                            default_lit@ == "default"@,
                            brace@.map_values(|t: String| t@) == spec_strings(
                                sviews.take(j as int),
                            ),
                            defaults@.map_values(|t: String| t@) == default_aliases(
                                sviews.take(j as int),
                            ),
                        decreases specifiers@.len() - j,
                    {
                        let ghost brace_pre = brace@.map_values(|t: String| t@);
                        let ghost defaults_pre = defaults@.map_values(|t: String| t@);
                        let sp = &specifiers[j];
                        match &sp.alias {
                            Some(alias) => {
                                if sp.imported == default_lit {
                                    defaults.push(alias.clone());
                                    proof {
                                        assert(defaults@.map_values(|t: String| t@)
                                            =~= defaults_pre.push(alias@));
                                    }
                                } else {
                                    let mut t = sp.imported.clone();
                                    t.append(" as ");
                                    t.append(alias.as_str());
                                    brace.push(t);
                                    proof {
                                        assert(brace@.map_values(|t: String| t@)
                                            =~= brace_pre.push(
                                            sp.imported@ + " as "@ + alias@,
                                        ));
                                    }
                                }
                            },
                            None => {
                                brace.push(sp.imported.clone());
                                proof {
                                    assert(brace@.map_values(|t: String| t@) =~= brace_pre.push(
                                        sp.imported@,
                                    ));
                                }
                            },
                        }
                        proof {
                            assert(sviews.take(j + 1).drop_last() =~= sviews.take(j as int));
                            assert(sviews.take(j + 1).last() == sviews[j as int]);
                            assert(brace@.map_values(|t: String| t@) =~= spec_strings(
                                sviews.take(j + 1),
                            ));
                            assert(defaults@.map_values(|t: String| t@) =~= default_aliases(
                                sviews.take(j + 1),
                            ));
                        }
                        j = j + 1;
                    }
                    proof {
                        assert(sviews.take(sviews.len() as int) =~= sviews);
                    }
                    let decl = create_import_declaration(brace, &defaults, &stmt.path);
                    s.append(decl.as_str());
                }
            },
            ImportSpecifiers::Star(alias) => {
                s.append("import * as ");
                s.append(alias.as_str());
                s.append(" from \"");
                s.append(stmt.path.as_str());
                s.append("\";\n");
            },
        }
        proof {
            assert(views.take(i + 1).drop_last() =~= views.take(i as int));
            assert(views.take(i + 1).last() == views[i as int]);
            assert(s@ =~= chunk_imports_text(views.take(i + 1)));
        }
        i = i + 1;
    }
    proof {
        assert(views.take(views.len() as int) =~= views);
    }
    s
}

/// How exports of one module are shaped.
#[derive(Clone, Copy, PartialEq, Eq, Structural, Debug)]
pub enum ExportsKind {
    Esm,
    CommonJs,
    NoExports,
}

/// The wrap strategy the linker assigned to a module.
#[derive(Clone, Copy, PartialEq, Eq, Structural, Debug)]
pub enum WrapKind {
    NotWrapped,
    Esm,
    Cjs,
}

/// One entry of the module table, reduced to what the renderer reads.
pub enum Module {
    Normal { exports_kind: ExportsKind, star_export_ids: Vec<usize> },
    External { name: String },
}

/// The mathematical value of a module-table entry.
pub enum ModuleV {
    Normal { exports_kind: ExportsKind, star_export_ids: Seq<usize> },
    External { name: Seq<char> },
}

impl View for Module {
    type V = ModuleV;

    open spec fn view(&self) -> ModuleV {
        match self {
            Module::Normal { exports_kind, star_export_ids } => ModuleV::Normal {
                exports_kind: *exports_kind,
                star_export_ids: star_export_ids@,
            },
            Module::External { name } => ModuleV::External { name: name@ },
        }
    }
}

/// What kind of chunk is rendered.
#[derive(Clone, Copy, PartialEq, Eq, Structural, Debug)]
pub enum ChunkKind {
    EntryPoint { module: usize },
    Common,
}

/// What the linker hands the renderer for one chunk.
pub struct GenerateContext {
    pub chunk_kind: ChunkKind,
    /// The module table of the linked graph.
    pub modules: Vec<Module>,
    /// The wrap strategy of the entry module.
    pub entry_wrap_kind: WrapKind,
    /// The canonical name of the entry's wrapper reference, when it has one.
    pub entry_wrapper_name: Option<String>,
    /// The import statements collected for the chunk.
    pub import_stmts: Vec<RenderImportStmt>,
    /// The rendered export statements of the chunk, when it has any.
    pub exports: Option<String>,
}

/// The chunk text under construction, piece by piece.
pub struct SourceJoiner {
    pub sources: Vec<String>,
}

impl View for SourceJoiner {
    type V = Seq<Seq<char>>;

    open spec fn view(&self) -> Seq<Seq<char>> {
        self.sources@.map_values(|s: String| s@)
    }
}

impl SourceJoiner {
    /// An empty joiner.
    pub fn new() -> (r: Self)
        ensures
            r@ == Seq::<Seq<char>>::empty(),
    {
        let r = SourceJoiner { sources: Vec::new() };
        proof {
            assert(r@ =~= Seq::<Seq<char>>::empty());
        }
        r
    }

    /// Append one piece at the end.
    pub fn append_source(&mut self, source: String)
        ensures
            final(self)@ == old(self)@.push(source@),
    {
        let ghost before = self@;
        self.sources.push(source);
        proof {
            assert(self@ =~= before.push(self.sources@.last()@));
        }
    }
}

/// Consecutive equal texts collapsed to the first.
pub open spec fn dedup_adjacent_text(s: Seq<Seq<char>>) -> Seq<Seq<char>>
    decreases s.len(),
{
    if s.len() == 0 {
        Seq::empty()
    } else if s.len() == 1 {
        s
    } else if s[1] == s[0] {
        dedup_adjacent_text(s.skip(1))
    } else {
        seq![s[0]] + dedup_adjacent_text(s.skip(1))
    }
}

/// Relies on `itertools::Itertools::dedup`: consecutive equal elements are
/// collapsed, keeping the first of each run.
#[verifier::external_body]
fn dedup_adjacent(v: Vec<String>) -> (r: Vec<String>)
    ensures
        r@.map_values(|s: String| s@) == dedup_adjacent_text(v@.map_values(|s: String| s@)),
{
    v.into_iter().dedup().collect()
}

/// The names of the external modules among the star-export targets, in
/// order, duplicates kept.
pub open spec fn external_names(modules: Seq<ModuleV>, ids: Seq<usize>) -> Seq<Seq<char>>
    decreases ids.len(),
{
    if ids.len() == 0 {
        Seq::empty()
    } else {
        external_names(modules, ids.drop_last()) + (match modules[ids.last() as int] {
            ModuleV::External { name } => seq![name],
            ModuleV::Normal { .. } => Seq::empty(),
        })
    }
}

impl GenerateContext {
    /// The module table, as mathematical values.
    pub open spec fn modules_view(&self) -> Seq<ModuleV> {
        self.modules@.map_values(|m: Module| m@)
    }

    /// What the renderer is entitled to assume of a context: every index it
    /// follows is in the table, and a wrapped entry has a wrapper name.
    pub open spec fn wf(&self) -> bool {
        match self.chunk_kind {
            ChunkKind::EntryPoint { module } => {
                &&& (module as int) < self.modules_view().len()
                &&& (match self.modules_view()[module as int] {
                    ModuleV::Normal { star_export_ids, .. } => forall|k: int|
                        0 <= k < star_export_ids.len() ==> ((#[trigger] star_export_ids[k]) as int)
                            < self.modules_view().len(),
                    ModuleV::External { .. } => true,
                })
                &&& ((self.entry_wrap_kind is Esm || self.entry_wrap_kind is Cjs)
                    ==> self.entry_wrapper_name is Some)
            },
            ChunkKind::Common => true,
        }
    }

    /// The `export * from "name"` lines of an ESM entry chunk: the external
    /// star-export targets of the entry module, adjacent duplicates
    /// collapsed.
    pub open spec fn star_export_texts(&self) -> Seq<Seq<char>> {
        match self.chunk_kind {
            ChunkKind::EntryPoint { module } => match self.modules_view()[module as int] {
                ModuleV::Normal { exports_kind: ExportsKind::Esm, star_export_ids } => {
                    dedup_adjacent_text(
                        external_names(self.modules_view(), star_export_ids),
                    ).map_values(|n: Seq<char>| "export * from \""@ + n + "\"\n"@)
                },
                _ => Seq::empty(),
            },
            ChunkKind::Common => Seq::empty(),
        }
    }

    /// The wrapper invocation of a wrapped entry chunk.
    pub open spec fn wrapper_texts(&self) -> Seq<Seq<char>> {
        match self.chunk_kind {
            ChunkKind::EntryPoint { .. } => match self.entry_wrap_kind {
                WrapKind::Esm => match self.entry_wrapper_name {
                    Some(n) => seq![n@ + "();"@],
                    None => Seq::empty(),
                },
                WrapKind::Cjs => match self.entry_wrapper_name {
                    Some(n) => seq!["export default "@ + n@ + "();\n"@],
                    None => Seq::empty(),
                },
                WrapKind::NotWrapped => Seq::empty(),
            },
            ChunkKind::Common => Seq::empty(),
        }
    }

    /// The rendered exports, when the chunk has any.
    pub open spec fn exports_texts(&self) -> Seq<Seq<char>> {
        match self.exports {
            Some(e) => {
                if e@.len() > 0 {
                    seq![e@]
                } else {
                    Seq::empty()
                }
            },
            None => Seq::empty(),
        }
    }
}

/// The per-module rendered sources, flattened in order.
pub open spec fn flatten_sources(sources: Seq<Option<Seq<Seq<char>>>>) -> Seq<Seq<char>>
    decreases sources.len(),
{
    if sources.len() == 0 {
        Seq::empty()
    } else {
        flatten_sources(sources.drop_last()) + (match sources.last() {
            Some(v) => v,
            None => Seq::empty(),
        })
    }
}

/// An optional framing piece: one text or nothing.
pub open spec fn opt_text(o: Option<&str>) -> Seq<Seq<char>> {
    match o {
        Some(t) => seq![t@],
        None => Seq::empty(),
    }
}

/// The view of the per-module rendered sources.
pub open spec fn sources_view(module_sources: Seq<Option<Vec<String>>>) -> Seq<
    Option<Seq<Seq<char>>>,
> {
    module_sources.map_values(
        |o: Option<Vec<String>>|
            match o {
                Some(v) => Some(v@.map_values(|s: String| s@)),
                None => None,
            },
    )
}

/// Everything an ESM chunk consists of, in its fixed order: hashbang,
/// banner, intro, the import statements, the star re-exports of an ESM
/// entry, the module bodies, the wrapper invocation, the exports, outro,
/// footer.
pub open spec fn esm_sources(
    ctx: &GenerateContext,
    module_sources: Seq<Option<Vec<String>>>,
    banner: Option<&str>,
    footer: Option<&str>,
    intro: Option<&str>,
    outro: Option<&str>,
    hashbang: Option<&str>,
) -> Seq<Seq<char>> {
    opt_text(hashbang) + opt_text(banner) + opt_text(intro) + seq![
        chunk_imports_text(ctx.import_stmts@.map_values(|st: RenderImportStmt| st@)),
    ] + ctx.star_export_texts() + flatten_sources(sources_view(module_sources))
        + ctx.wrapper_texts() + ctx.exports_texts() + opt_text(outro) + opt_text(footer)
}

/// Append one optional framing piece.
fn append_opt(joiner: &mut SourceJoiner, piece: Option<&str>)
    ensures
        final(joiner)@ == old(joiner)@ + opt_text(piece),
{
    if let Some(t) = piece {
        joiner.append_source(String::from_str(t));
    }
    proof {
        assert(joiner@ =~= old(joiner)@ + opt_text(piece));
    }
}

/// Append the wrapper invocation of a wrapped entry chunk.
fn append_wrapper(joiner: &mut SourceJoiner, ctx: &GenerateContext)
    requires
        ctx.wf(),
    ensures
        final(joiner)@ == old(joiner)@ + ctx.wrapper_texts(),
{
    if matches!(ctx.chunk_kind, ChunkKind::EntryPoint { .. }) {
        match ctx.entry_wrap_kind {
            WrapKind::Esm => match &ctx.entry_wrapper_name {
                Some(n) => {
                    let mut t = n.clone();
                    t.append("();");
                    joiner.append_source(t);
                },
                None => {
                    proof {
                        assert(false);
                    }
                },
            },
            WrapKind::Cjs => match &ctx.entry_wrapper_name {
                Some(n) => {
                    let mut t = String::from_str("export default ");
                    t.append(n.as_str());
                    t.append("();\n");
                    joiner.append_source(t);
                },
                None => {
                    proof {
                        assert(false);
                    }
                },
            },
            WrapKind::NotWrapped => {},
        }
    }
    proof {
        assert(joiner@ =~= old(joiner)@ + ctx.wrapper_texts());
    }
}

/// Append the rendered exports, when the chunk has any.
fn append_exports(joiner: &mut SourceJoiner, ctx: &GenerateContext)
    ensures
        final(joiner)@ == old(joiner)@ + ctx.exports_texts(),
{
    match &ctx.exports {
        Some(e) => {
            if !e.as_str().is_empty() {
                joiner.append_source(e.clone());
            }
        },
        None => {},
    }
    proof {
        assert(joiner@ =~= old(joiner)@ + ctx.exports_texts());
    }
}

/// Render one chunk in the ESM format.
pub fn render_esm<'a>(
    ctx: &GenerateContext,
    module_sources: &Vec<Option<Vec<String>>>,
    banner: Option<&'a str>,
    footer: Option<&'a str>,
    intro: Option<&'a str>,
    outro: Option<&'a str>,
    hashbang: Option<&'a str>,
) -> (joiner: SourceJoiner)
    requires
        ctx.wf(),
    ensures
        joiner@ == esm_sources(ctx, module_sources@, banner, footer, intro, outro, hashbang),
{
    let mut joiner = SourceJoiner::new();

    append_opt(&mut joiner, hashbang);
    append_opt(&mut joiner, banner);
    append_opt(&mut joiner, intro);
    joiner.append_source(render_esm_chunk_imports(&ctx.import_stmts));
    append_star_exports(&mut joiner, ctx);
    append_module_sources(&mut joiner, module_sources);
    append_wrapper(&mut joiner, ctx);
    append_exports(&mut joiner, ctx);
    append_opt(&mut joiner, outro);
    append_opt(&mut joiner, footer);
    proof {
        assert(joiner@ =~= esm_sources(
            ctx,
            module_sources@,
            banner,
            footer,
            intro,
            outro,
            hashbang,
        ));
    }
    joiner
}

/// Append the `export * from "name"` lines of an ESM entry chunk.
fn append_star_exports(joiner: &mut SourceJoiner, ctx: &GenerateContext)
    requires
        ctx.wf(),
    ensures
        final(joiner)@ == old(joiner)@ + ctx.star_export_texts(),
{
    let ghost base1 = old(joiner)@;
    if let ChunkKind::EntryPoint { module } = ctx.chunk_kind {
        match &ctx.modules[module] {
            Module::Normal { exports_kind, star_export_ids } => {
                if matches!(exports_kind, ExportsKind::Esm) {
                    let ghost mods = ctx.modules_view();
                    let ghost ids = star_export_ids@;
                    proof {
                        assert(mods[module as int] == ctx.modules@[module as int]@);
                        assert(mods[module as int] == ModuleV::Normal {
                            exports_kind: *exports_kind,
                            star_export_ids: ids,
                        });
                        assert forall|q: int| 0 <= q < ids.len() implies ((#[trigger] ids[q]) as int)
                            < mods.len() by {
                            match mods[module as int] {
                                ModuleV::Normal { star_export_ids, .. } => {
                                    assert(star_export_ids == ids);
                                    assert(((star_export_ids[q]) as int) < mods.len());
                                },
                                ModuleV::External { .. } => {
                                    assert(false);
                                },
                            }
                        }
                    }
                    let mut names: Vec<String> = Vec::new();
                    let mut k: usize = 0;
                    proof {
                        assert(ids.take(0) =~= Seq::<usize>::empty());
                        assert(names@.map_values(|s: String| s@) =~= external_names(
                            mods,
                            ids.take(0),
                        ));
                    }
                    while k < star_export_ids.len()
                        invariant
                            k <= ids.len(),
                            ids == star_export_ids@,
                            mods == ctx.modules_view(),
                            forall|q: int|
                                0 <= q < ids.len() ==> ((#[trigger] ids[q]) as int) < mods.len(),
                            ctx.modules@.len() == mods.len(),
                            names@.map_values(|s: String| s@) == external_names(
                                mods,
                                ids.take(k as int),
                            ),
                        decreases ids.len() - k,
                    {
                        let ghost names_pre = names@.map_values(|s: String| s@);
                        let target = star_export_ids[k];
                        match &ctx.modules[target] {
                            Module::External { name } => {
                                names.push(name.clone());
                                proof {
                                    assert(names@.map_values(|s: String| s@) =~= names_pre.push(
                                        name@,
                                    ));
                                }
                            },
                            Module::Normal { .. } => {},
                        }
                        proof {
                            assert(ids.take(k + 1).drop_last() =~= ids.take(k as int));
                            assert(ids.take(k + 1).last() == ids[k as int]);
                            assert(names@.map_values(|s: String| s@) =~= external_names(
                                mods,
                                ids.take(k + 1),
                            ));
                        }
                        k = k + 1;
                    }
                    proof {
                        assert(ids.take(ids.len() as int) =~= ids);
                    }
                    let deduped = dedup_adjacent(names);
                    let ghost dviews = deduped@.map_values(|s: String| s@);
                    let mut t: usize = 0;
                    proof {
                        assert(joiner@ =~= base1 + dviews.take(0).map_values(
                            |n: Seq<char>| "export * from \""@ + n + "\"\n"@,
                        ));
                    }
                    while t < deduped.len()
                        invariant
                            t <= dviews.len(),
                            dviews == deduped@.map_values(|s: String| s@),
                            joiner@ == base1 + dviews.take(t as int).map_values(
                                |n: Seq<char>| "export * from \""@ + n + "\"\n"@,
                            ),
                        decreases dviews.len() - t,
                    {
                        let mut line = String::from_str("export * from \"");
                        line.append(deduped[t].as_str());
                        line.append("\"\n");
                        joiner.append_source(line);
                        proof {
                            assert(dviews.take(t + 1).drop_last() =~= dviews.take(t as int));
                            assert(dviews.take(t + 1).map_values(
                                |n: Seq<char>| "export * from \""@ + n + "\"\n"@,
                            ) =~= dviews.take(t as int).map_values(
                                |n: Seq<char>| "export * from \""@ + n + "\"\n"@,
                            ).push("export * from \""@ + dviews[t as int] + "\"\n"@));
                            assert(joiner@ =~= base1 + dviews.take(t + 1).map_values(
                                |n: Seq<char>| "export * from \""@ + n + "\"\n"@,
                            ));
                        }
                        t = t + 1;
                    }
                    proof {
                        assert(dviews.take(dviews.len() as int) =~= dviews);
                        assert(joiner@ =~= base1 + ctx.star_export_texts());
                    }
                }
            },
            Module::External { .. } => {},
        }
    }
    proof {
        assert(joiner@ =~= base1 + ctx.star_export_texts());
    }
}

/// Append the rendered module bodies, flattened in order.
fn append_module_sources(joiner: &mut SourceJoiner, module_sources: &Vec<Option<Vec<String>>>)
    ensures
        final(joiner)@ == old(joiner)@ + flatten_sources(sources_view(module_sources@)),
{
    let ghost base2 = old(joiner)@;
    let ghost srcs = sources_view(module_sources@);
    let mut m: usize = 0;
    proof {
        assert(srcs.take(0) =~= Seq::<Option<Seq<Seq<char>>>>::empty());
        assert(joiner@ =~= base2 + flatten_sources(srcs.take(0)));
    }
    while m < module_sources.len()
        invariant
            m <= srcs.len(),
            srcs == sources_view(module_sources@),
            srcs.len() == module_sources@.len(),
            joiner@ == base2 + flatten_sources(srcs.take(m as int)),
        decreases srcs.len() - m,
    {
        let ghost before = joiner@;
        match &module_sources[m] {
            Some(list) => {
                let ghost lviews = list@.map_values(|s: String| s@);
                let mut n: usize = 0;
                proof {
                    assert(lviews.take(0) =~= Seq::<Seq<char>>::empty());
                    assert(joiner@ =~= before + lviews.take(0));
                }
                while n < list.len()
                    invariant
                        n <= lviews.len(),
                        lviews == list@.map_values(|s: String| s@),
                        joiner@ == before + lviews.take(n as int),
                    decreases lviews.len() - n,
                {
                    joiner.append_source(list[n].clone());
                    proof {
                        assert(lviews.take(n + 1) =~= lviews.take(n as int).push(
                            lviews[n as int],
                        ));
                        assert(joiner@ =~= before + lviews.take(n + 1));
                    }
                    n = n + 1;
                }
                proof {
                    assert(lviews.take(lviews.len() as int) =~= lviews);
                }
            },
            None => {},
        }
        proof {
            assert(srcs.take(m + 1).drop_last() =~= srcs.take(m as int));
            assert(srcs.take(m + 1).last() == srcs[m as int]);
            assert(joiner@ =~= base2 + flatten_sources(srcs.take(m + 1)));
        }
        m = m + 1;
    }
    proof {
        assert(srcs.take(srcs.len() as int) =~= srcs);
    }
}

} // verus!
