//! Tests of module file naming and cache settings.

use mik::runtime::error::Error;
use mik::runtime::module_loader::{
    aot_cache_config, available_modules, cache_weight, file_stem_and_extension,
    module_mode, module_wasm_path, single_component_name, validated_module_name, ModuleMode,
    PathKind,
};
use std::path::{Path, PathBuf};

#[test]
fn module_names_are_validated() {
    assert_eq!(validated_module_name("api").unwrap(), "api");
    match validated_module_name("../etc") {
        Err(Error::InvalidRequest(m)) => {
            assert_eq!(m, "Invalid module name '../etc': Module name contains path separators")
        },
        other => panic!("unexpected {other:?}"),
    }
    assert_eq!(
        module_wasm_path(&PathBuf::from("/mods"), "api"),
        PathBuf::from("/mods/api.wasm")
    );
}

#[test]
fn stems_and_extensions_match_std_paths() {
    for name in ["a.wasm", "a.b.wasm", ".wasm", "..", ".", "noext", "x.", "a..b", ".hidden.wasm", ""] {
        let (stem, ext) = file_stem_and_extension(name);
        let p = Path::new(name);
        if !name.is_empty() && name != "." && name != ".." {
            assert_eq!(Some(stem.as_str()), p.file_stem().and_then(|s| s.to_str()), "{name}");
        }
        assert_eq!(ext.as_deref(), p.extension().and_then(|s| s.to_str()), "{name}");
    }
    let names: Vec<String> = ["api.wasm", "notes.txt", "auth.wasm", ".wasm"].iter().map(|s| s.to_string()).collect();
    assert_eq!(available_modules(&names), vec!["api".to_string(), "auth".to_string()]);
}

#[test]
fn components_and_cache_settings() {
    assert_eq!(single_component_name(Some("shop-composed")), "shop");
    assert_eq!(single_component_name(Some("shop")), "shop");
    assert_eq!(single_component_name(Some("-composed")), "");
    assert_eq!(single_component_name(None), "component");
    assert_eq!(cache_weight(10), 10);
    assert_eq!(cache_weight(usize::MAX), u32::MAX);
    assert!(aot_cache_config(true, 5).is_none());
    assert_eq!(aot_cache_config(false, 5).unwrap().max_size_bytes, 5 * 1024 * 1024);
    assert_eq!(aot_cache_config(false, 0).unwrap().max_size_bytes, 1024 * 1024 * 1024);
}

#[test]
fn module_mode_follows_the_path_kind() {
    let names = vec!["a.wasm".to_string(), "notes.txt".to_string(), "b.wasm".to_string()];
    match module_mode(PathKind::File, "app-composed.wasm", Some("app-composed"), &vec![]) {
        Ok(ModuleMode::Single { name }) => assert_eq!(name, "app"),
        _ => panic!("expected a single component"),
    }
    match module_mode(PathKind::Directory, "modules", None, &names) {
        Ok(ModuleMode::Multi { modules }) => assert_eq!(modules, vec!["a", "b"]),
        _ => panic!("expected the directory's modules"),
    }
    match module_mode(PathKind::Directory, "modules", None, &vec!["x.txt".to_string()]) {
        Err(Error::Config(m)) => assert_eq!(m, "No .wasm files found in modules"),
        _ => panic!("expected a configuration error"),
    }
    match module_mode(PathKind::Missing, "nowhere", None, &vec![]) {
        Err(Error::Config(m)) => assert_eq!(m, "Path does not exist: nowhere"),
        _ => panic!("expected a configuration error"),
    }
}
