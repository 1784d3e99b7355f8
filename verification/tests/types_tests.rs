use bundler_watch::types::{
    BuildOutputDescriptor, ModuleType, PackageJson, ResolvedPath, ResolvedRequestInfo,
};

#[test]
fn resolved_request_info_carries_resolution() {
    let info = ResolvedRequestInfo {
        path: ResolvedPath { path: String::from("/proj/src/a.js"), ignored: false },
        module_type: ModuleType::Js,
        is_external: false,
        package_json: Some(PackageJson {
            path: String::from("/proj/package.json"),
            name: Some(String::from("proj")),
            package_type: Some(String::from("module")),
        }),
    };
    assert_eq!(info.path.path, "/proj/src/a.js");
    assert!(!info.path.ignored);
    assert_eq!(info.module_type, ModuleType::Js);
    assert!(!info.is_external);
    assert_eq!(info.package_json.as_ref().unwrap().name.as_deref(), Some("proj"));

    let custom = ResolvedRequestInfo {
        path: ResolvedPath { path: String::from("virtual:entry"), ignored: true },
        module_type: ModuleType::Custom(String::from("vue")),
        is_external: true,
        package_json: None,
    };
    assert_eq!(custom.module_type, ModuleType::Custom(String::from("vue")));
}

#[test]
fn descriptor_keeps_engine_order() {
    let out = BuildOutputDescriptor {
        watch_files: vec![String::from("b.js"), String::from("a.js")],
        errors: vec![String::from("E1")],
    };
    assert_eq!(out.watch_files, vec![String::from("b.js"), String::from("a.js")]);
    assert_eq!(out.errors, vec![String::from("E1")]);
}
