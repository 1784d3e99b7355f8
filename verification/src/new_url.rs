//! The scanner rule for the exact `new URL('path', import.meta.url)`
//! pattern: it adds an asset import record for the referenced path and
//! remembers the expression so the generator can rewrite it.

use vstd::prelude::*;
use vstd::string::StringExecFns;

use crate::types::ModuleType;

verus! {

/// A source span, in byte offsets.
#[derive(Clone, Copy, PartialEq, Eq, Structural, Debug)]
pub struct Span {
    pub start: u32,
    pub end: u32,
}

/// How an import record was introduced.
#[derive(Clone, Copy, PartialEq, Eq, Structural, Debug)]
pub enum ImportKind {
    Import,
    DynamicImport,
    Require,
    AtImport,
    UrlImport,
}

/// The flag bits attached to an import record.
#[derive(Clone, Copy, PartialEq, Eq, Structural, Debug)]
pub struct ImportRecordMeta {
    pub bits: u32,
}

impl ImportRecordMeta {
    /// No flags set.
    pub fn empty() -> (r: Self)
        ensures
            r.bits == 0,
    {
        ImportRecordMeta { bits: 0 }
    }
}

/// One import record the scanner collected.
pub struct ImportRecord {
    pub path: String,
    pub kind: ImportKind,
    pub span: Span,
    pub meta: ImportRecordMeta,
    /// A module type the record insists on, overriding resolution.
    pub asserted_module_type: Option<ModuleType>,
}

/// An identifier in callee position, with its scope resolution: whether it
/// refers to the global of that name.
pub struct Ident {
    pub name: String,
    pub is_global: bool,
}

/// What an argument expression is, reduced to what this rule reads.
pub enum ArgExpr {
    StringLiteral(String),
    ImportMetaUrl,
    Other,
}

/// One call argument: an expression or a spread.
pub enum Argument {
    Expr(ArgExpr),
    Spread,
}

/// A `new` expression, reduced to what this rule reads.
pub struct NewExpr {
    /// The callee, when it is a plain identifier.
    pub callee_ident: Option<Ident>,
    pub args: Vec<Argument>,
    pub span: Span,
}

impl NewExpr {
    /// The callee is the global `URL`.
    pub open spec fn callee_is_global_url(&self) -> bool {
        match self.callee_ident {
            Some(id) => id.name@ == "URL"@ && id.is_global,
            None => false,
        }
    }

    /// The second argument is exactly `import.meta.url`.
    pub open spec fn second_arg_is_import_meta_url(&self) -> bool {
        self.args@.len() > 1 && (self.args@[1] matches Argument::Expr(ArgExpr::ImportMetaUrl))
    }

    /// The first argument's text, when it is a string literal.
    pub open spec fn first_arg_string_literal(&self) -> Option<Seq<char>> {
        if self.args@.len() > 0 {
            match self.args@[0] {
                Argument::Expr(ArgExpr::StringLiteral(s)) => Some(s@),
                _ => None,
            }
        } else {
            None
        }
    }

    /// The exact pattern this rule handles.
    pub open spec fn is_new_url_asset_reference(&self) -> bool {
        self.callee_is_global_url() && self.second_arg_is_import_meta_url()
            && self.first_arg_string_literal() is Some
    }
}

/// What the scanner collects.
pub struct ScanResult {
    pub import_records: Vec<ImportRecord>,
    /// For each handled `new URL` expression: its span and the index of the
    /// record it produced. Spans are distinct, so each is listed once.
    pub new_url_references: Vec<(Span, usize)>,
}

/// The scanner state this rule touches.
pub struct AstScanner {
    pub result: ScanResult,
}

impl AstScanner {
    /// A scanner with nothing collected yet.
    pub fn new() -> (r: Self)
        ensures
            r.result.import_records@ == Seq::<ImportRecord>::empty(),
            r.result.new_url_references@ == Seq::<(Span, usize)>::empty(),
    {
        AstScanner {
            result: ScanResult { import_records: Vec::new(), new_url_references: Vec::new() },
        }
    }

    /// Append one import record and return its index.
    pub fn add_import_record(
        &mut self,
        path: String,
        kind: ImportKind,
        span: Span,
        meta: ImportRecordMeta,
    ) -> (idx: usize)
        requires
            old(self).result.import_records@.len() < usize::MAX,
        ensures
            final(self).result.import_records@ == old(self).result.import_records@.push(
                (ImportRecord { path, kind, span, meta, asserted_module_type: None }),
            ),
            idx == old(self).result.import_records@.len(),
            final(self).result.new_url_references@ == old(self).result.new_url_references@,
    {
        let idx = self.result.import_records.len();
        self.result.import_records.push(
            ImportRecord { path, kind, span, meta, asserted_module_type: None },
        );
        idx
    }

    /// Handle the exact `new URL('path', import.meta.url)` pattern: when the
    /// callee is the global `URL`, the second argument is `import.meta.url`
    /// and the first is a string literal, add an import record for that
    /// path, asserted to be an asset, and remember the expression; any other
    /// shape is left to the ordinary call handling and changes nothing.
    pub fn handle_new_url_with_string_literal_and_import_meta_url(&mut self, expr: &NewExpr)
        requires
            old(self).result.import_records@.len() < usize::MAX,
        ensures
            expr.is_new_url_asset_reference() ==> {
                let records0 = old(self).result.import_records@;
                &&& final(self).result.import_records@.len() == records0.len() + 1
                &&& final(self).result.import_records@.take(records0.len() as int) == records0
                &&& Some(final(self).result.import_records@.last().path@)
                    == expr.first_arg_string_literal()
                &&& final(self).result.import_records@.last().kind == ImportKind::Import
                &&& final(self).result.import_records@.last().span == expr.span
                &&& final(self).result.import_records@.last().meta.bits == 0
                &&& final(self).result.import_records@.last().asserted_module_type == Some(
                    ModuleType::Asset,
                )
                &&& final(self).result.new_url_references@ == old(
                    self,
                ).result.new_url_references@.push((expr.span, records0.len() as usize))
            },
            !expr.is_new_url_asset_reference() ==> *final(self) == *old(self),
    {
        let is_callee_global_url = match &expr.callee_ident {
            Some(ident) => ident.is_global && ident.name == String::from_str("URL"),
            None => false,
        };
        if !is_callee_global_url {
            return;
        }

        let is_second_arg_import_meta_url = if expr.args.len() > 1 {
            matches!(&expr.args[1], Argument::Expr(ArgExpr::ImportMetaUrl))
        } else {
            false
        };
        if !is_second_arg_import_meta_url {
            return;
        }

        let path: String = if expr.args.len() > 0 {
            match &expr.args[0] {
                Argument::Expr(ArgExpr::StringLiteral(s)) => s.clone(),
                _ => {
                    return;
                },
            }
        } else {
            return;
        };

        let idx = self.add_import_record(
            path,
            ImportKind::Import,
            expr.span,
            ImportRecordMeta::empty(),
        );
        self.result.import_records[idx].asserted_module_type = Some(ModuleType::Asset);
        self.result.new_url_references.push((expr.span, idx));
        proof {
            assert(final(self).result.import_records@.take(
                old(self).result.import_records@.len() as int,
            ) =~= old(self).result.import_records@);
        }
    }
}

} // verus!
