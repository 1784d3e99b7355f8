//! Plain data carried between the bundler core and the watch subsystem.

use vstd::prelude::*;

verus! {

/// What kind of module a resolved request produces.
#[derive(Clone, Debug, PartialEq, Eq)]
pub enum ModuleType {
    Js,
    Jsx,
    Ts,
    Tsx,
    Json,
    Css,
    Text,
    Base64,
    Dataurl,
    Binary,
    Empty,
    Asset,
    Custom(String),
}

/// A path as the resolver produced it: the resolved id, and whether the
/// request was marked as ignored.
#[derive(Clone, Debug, PartialEq, Eq)]
pub struct ResolvedPath {
    pub path: String,
    pub ignored: bool,
}

/// The fields of a `package.json` that module resolution reads.
#[derive(Clone, Debug, PartialEq, Eq)]
pub struct PackageJson {
    /// Where the file sits on disk.
    pub path: String,
    pub name: Option<String>,
    /// The `type` field, when present (`"module"` or `"commonjs"`).
    pub package_type: Option<String>,
}

/// Everything module resolution reports for one import request.
#[derive(Clone, Debug, PartialEq, Eq)]
pub struct ResolvedRequestInfo {
    pub path: ResolvedPath,
    pub module_type: ModuleType,
    pub is_external: bool,
    pub package_json: Option<PackageJson>,
}

/// What one completed build hands back: the files the next cycle should
/// watch, and the diagnostics it produced. The build engine never fails as a
/// call; every failure surfaces as an entry of `errors`.
pub struct BuildOutputDescriptor {
    /// Paths the build touched, in the order the engine reports them.
    pub watch_files: Vec<String>,
    /// Rendered diagnostics, in the order the engine reports them.
    pub errors: Vec<String>,
}

impl BuildOutputDescriptor {
    /// The views of the watched files, in order.
    pub open spec fn files_view(&self) -> Seq<Seq<char>> {
        self.watch_files@.map_values(|p: String| p@)
    }

    /// The views of the diagnostics, in order.
    pub open spec fn errors_view(&self) -> Seq<Seq<char>> {
        self.errors@.map_values(|e: String| e@)
    }
}

} // verus!
