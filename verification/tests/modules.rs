use std::sync::Arc;

use spooler::logic::bundle;
use spooler::logic::error::LogicError;
use spooler::logic::loader::{ModuleLoad, ModuleResolver, Route, RuntimeResolver};
use spooler::logic::module::{LogicModule, ModuleCode, ModuleSource, ModuleTable, ModuleType};
use spooler::logic::module_url::ModuleUrl;
use spooler::logic::proxy;
use spooler::logic::{Logic, LogicManifest};
use spooler::manifest::ManifestSection;

fn direct(src: &str) -> LogicModule {
    LogicModule::Direct {
        src: src.to_owned(),
    }
}

fn wasm(bytes: &[u8]) -> LogicModule {
    LogicModule::Wasm {
        bytes: bytes.to_vec(),
    }
}

fn text_of(source: &ModuleSource) -> &str {
    match &source.code {
        ModuleCode::JavaScript(text) => text,
        ModuleCode::Wasm(_) => panic!("the module is JavaScript"),
    }
}

fn url(text: &str) -> ModuleUrl {
    ModuleUrl::parse(text).unwrap()
}

#[test]
fn urls_are_kept_serialized() {
    assert_eq!(url("HTTP://Example.com").as_str(), "http://example.com/");
    assert_eq!(
        url("https://example.com/a/../b.js").as_str(),
        "https://example.com/b.js"
    );
    assert_eq!(url("local://main").as_str(), "local://main");
    assert_eq!(ModuleUrl::local_main().as_str(), "local://main");
    assert_eq!(ModuleUrl::builtin_main().as_str(), "builtin://main");
}

#[test]
fn relative_and_empty_urls_are_refused() {
    assert!(matches!(ModuleUrl::parse(""), Err(LogicError::InvalidUrl)));
    assert!(matches!(
        ModuleUrl::parse("./main.js"),
        Err(LogicError::InvalidUrl)
    ));
    assert!(matches!(
        ModuleUrl::parse("http://"),
        Err(LogicError::InvalidUrl)
    ));
}

#[test]
fn schemes_are_as_the_parser_gives_them() {
    for text in [
        "http://example.com:80/a:b",
        "local://main",
        "git+ssh://host/path",
        "data:text/plain,a:b",
    ] {
        let parsed = url::Url::parse(text).unwrap();
        assert_eq!(url(text).scheme(), parsed.scheme());
        assert_eq!(url(text).as_str(), parsed.as_str());
    }
}

#[test]
fn urls_are_equal_with_their_serializations() {
    assert!(url("HTTP://example.com") == url("http://example.com/"));
    assert!(url("http://example.com/a") != url("http://example.com/b"));
    assert!(url("local://main").clone() == ModuleUrl::local_main());
}

#[test]
fn table_keeps_one_module_for_each_address() {
    let mut table = ModuleTable::new();
    assert!(table.get(&url("local://main")).is_none());
    table.insert(url("local://main"), direct("a"));
    table.insert(url("local://other"), direct("b"));
    table.insert(url("local://main"), direct("c"));
    assert_eq!(table.get(&url("local://main")).unwrap().source().unwrap(), "c");
    assert_eq!(table.get(&url("local://other")).unwrap().source().unwrap(), "b");
    assert!(table.get(&url("local://third")).is_none());
    let copy = table.clone();
    assert_eq!(copy.get(&url("local://main")).unwrap().source().unwrap(), "c");
}

#[test]
fn module_gives_its_code_and_address() {
    let module = direct("export const a = 1;");
    assert_eq!(module.source().unwrap(), "export const a = 1;");
    assert!(matches!(
        module.resolve().unwrap(),
        ModuleCode::JavaScript(text) if text == "export const a = 1;"
    ));
    assert_eq!(module.direct_url().as_str(), "builtin://main");
    assert_eq!(bundle::direct_url(&module).as_str(), "local://main");
}

#[test]
fn wasm_scripts_are_served_as_wasm() {
    let module = wasm(b"\0asm");
    assert!(module.source().is_none());
    assert_eq!(module.direct_url().as_str(), "builtin://main");
    assert!(matches!(
        module.resolve().unwrap(),
        ModuleCode::Wasm(bytes) if bytes == b"\0asm"
    ));
    let shared = Arc::new(ModuleResolver::default());
    let resolver = RuntimeResolver::new(&shared, &ModuleUrl::builtin_main(), &module);
    match resolver.load(&url("builtin://main")) {
        ModuleLoad::Found(source) => {
            assert_eq!(source.module_type, ModuleType::Wasm);
            assert!(matches!(source.code, ModuleCode::Wasm(bytes) if bytes == b"\0asm"));
            assert_eq!(source.url.as_str(), "builtin://main");
        }
        ModuleLoad::Delegated(_) => panic!("the main module is served by the runtime"),
    }
    let mut modules = ModuleTable::new();
    modules.insert(url("local://main"), module.clone());
    let logic = proxy::Logic {
        modules: modules.clone(),
    };
    let found = logic.load(&url("local://main")).unwrap();
    assert_eq!(found.module_type, ModuleType::Wasm);
    assert!(matches!(found.code, ModuleCode::Wasm(bytes) if bytes == b"\0asm"));
}

#[test]
fn logic_loads_modules_by_address() {
    let mut modules = ModuleTable::new();
    modules.insert(url("local://main"), direct("main"));
    modules.insert(url("local://lib"), direct("lib"));
    let logic = proxy::Logic { modules };
    let found = logic.load(&url("local://lib")).unwrap();
    assert_eq!(found.module_type, ModuleType::JavaScript);
    assert_eq!(text_of(&found), "lib");
    assert_eq!(found.url.as_str(), "local://lib");
    let missing = logic.load(&url("local://nope"));
    assert!(matches!(missing, Err(LogicError::ModuleNotFound)));
    assert_eq!(missing.err().unwrap().message(), "Module not found");
}

#[test]
fn routes_follow_the_scheme() {
    let resolver = ModuleResolver::default();
    assert_eq!(resolver.route(&url("http://example.com")), Route::Http);
    assert_eq!(resolver.route(&url("https://example.com")), Route::Https);
    assert_eq!(resolver.route(&url("local://main")), Route::Local);
    assert_eq!(resolver.route(&url("builtin://main")), Route::Unserved);
    assert_eq!(resolver.route(&url("HTTPS://example.com")), Route::Https);
}

#[test]
fn runtime_serves_its_own_module_and_delegates_the_rest() {
    let shared = Arc::new(ModuleResolver::default());
    let resolver = RuntimeResolver::new(&shared, &ModuleUrl::local_main(), &direct("code"));
    match resolver.load(&url("local://main")) {
        ModuleLoad::Found(source) => {
            assert_eq!(source.module_type, ModuleType::JavaScript);
            assert_eq!(text_of(&source), "code");
            assert_eq!(source.url.as_str(), "local://main");
        }
        ModuleLoad::Delegated(_) => panic!("the main module is served by the runtime"),
    }
    assert!(matches!(
        resolver.load(&url("local://other")),
        ModuleLoad::Delegated(Route::Local)
    ));
    assert!(matches!(
        resolver.load(&url("https://example.com/a.js")),
        ModuleLoad::Delegated(Route::Https)
    ));
    assert!(matches!(
        resolver.load(&url("builtin://main")),
        ModuleLoad::Delegated(Route::Unserved)
    ));
}

#[test]
fn manifest_section_spawns_its_main_module() {
    let section = LogicManifest { main: direct("m") };
    let logic: Logic = section.spawn();
    assert_eq!(logic.args().source.source().unwrap(), "m");
    assert_eq!(logic.args().main_url.as_str(), "builtin://main");
    assert!(logic.args().features.is_empty());
}

#[test]
fn bundle_spawns_the_module_at_the_main_address() {
    let mut modules = ModuleTable::new();
    modules.insert(url("local://lib"), direct("lib"));
    let without = bundle::LogicManifest {
        modules: modules.clone(),
    };
    assert!(!without.has_main());
    modules.insert(url("local://main"), direct("main"));
    let section = bundle::LogicManifest { modules };
    assert!(section.has_main());
    let logic = section.spawn();
    assert_eq!(logic.args().source.source().unwrap(), "main");
    assert_eq!(logic.args().main_url.as_str(), "local://main");
    assert!(logic.args().features.is_empty());
}
