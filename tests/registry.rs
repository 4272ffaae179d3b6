use plugy::abi::{ExportDesc, ExternKind, FuncSig, ImportDesc, ValType};
use plugy::error::ErrorKind;
use plugy::plugin::Plugin;
use plugy::registry::Registry;

fn names(ns: &[&str]) -> Vec<String> {
    ns.iter().map(|n| n.to_string()).collect()
}

fn crossing() -> ExternKind {
    ExternKind::Func(FuncSig { params: vec![ValType::I64], results: vec![ValType::I64] })
}

fn abi_exports() -> Vec<ExportDesc> {
    vec![
        ExportDesc { name: "memory".to_string(), kind: ExternKind::Memory },
        ExportDesc {
            name: "alloc".to_string(),
            kind: ExternKind::Func(FuncSig { params: vec![ValType::I32], results: vec![ValType::I32] }),
        },
        ExportDesc {
            name: "dealloc".to_string(),
            kind: ExternKind::Func(FuncSig { params: vec![ValType::I64], results: vec![] }),
        },
    ]
}

#[test]
fn new_registry_is_empty() {
    let r = Registry::new();
    assert!(r.imports().is_empty());
    assert_eq!(r.get_plugin_by_name("A"), Err(ErrorKind::MissingPlugin));
}

#[test]
fn service_registration_is_idempotent() {
    let mut r = Registry::new();
    let fetcher = "Fetcher".to_string();
    let svc = names(&["_plugy_context_fetch", "_plugy_context_log"]);
    assert_eq!(r.provide(&fetcher, &svc), Ok(true));
    assert_eq!(r.provide(&fetcher, &svc), Ok(false));
    assert_eq!(r.imports(), &svc);
}

#[test]
fn overlapping_services_conflict() {
    let mut r = Registry::new();
    let fetcher = "Fetcher".to_string();
    assert_eq!(r.provide(&fetcher, &names(&["_plugy_context_fetch"])), Ok(true));
    assert_eq!(
        r.provide(&"Other".to_string(), &names(&["_plugy_context_fetch", "_plugy_context_who"])),
        Err(ErrorKind::Link)
    );
    assert_eq!(r.imports(), &names(&["_plugy_context_fetch"]));
    assert_eq!(
        r.provide(&"Twice".to_string(), &names(&["_plugy_context_a", "_plugy_context_a"])),
        Err(ErrorKind::Link)
    );
    assert_eq!(r.imports().len(), 1);
}

#[test]
fn another_service_redeclaring_registered_names_conflicts() {
    let mut r = Registry::new();
    let both = names(&["_plugy_context_fetch", "_plugy_context_log"]);
    assert_eq!(r.provide(&"Fetcher".to_string(), &both), Ok(true));
    assert_eq!(
        r.provide(&"Logger".to_string(), &names(&["_plugy_context_fetch"])),
        Err(ErrorKind::Link)
    );
    assert_eq!(r.provide(&"Logger".to_string(), &both), Err(ErrorKind::Link));
    assert_eq!(r.provide(&"Fetcher".to_string(), &names(&["_plugy_context_log"])), Ok(false));
    assert_eq!(r.imports(), &both);
}

#[test]
fn unregistered_service_fails_to_link() {
    let mut r = Registry::new();
    r.provide(&"Fetcher".to_string(), &names(&["_plugy_context_fetch"])).unwrap();
    let uses_fetch = vec![ImportDesc {
        module: "env".to_string(),
        name: "_plugy_context_fetch".to_string(),
        kind: crossing(),
    }];
    let uses_who = vec![ImportDesc {
        module: "env".to_string(),
        name: "_plugy_context_who".to_string(),
        kind: crossing(),
    }];
    assert_eq!(r.resolve_imports(&uses_fetch), Ok(()));
    assert_eq!(r.resolve_imports(&uses_who), Err(ErrorKind::Link));
}

#[test]
fn installed_modules_are_found_by_name() {
    let mut r = Registry::new();
    assert_eq!(r.install("A".to_string(), 0, &abi_exports()), Ok(()));
    assert_eq!(r.install("B".to_string(), 1, &abi_exports()), Ok(()));
    assert_eq!(r.get_plugin_by_name("A"), Ok(0));
    assert_eq!(r.get_plugin_by_name("B"), Ok(1));
    assert_eq!(r.get_plugin_by_name("C"), Err(ErrorKind::MissingPlugin));
}

#[test]
fn module_without_abi_is_refused_and_registry_unchanged() {
    let mut r = Registry::new();
    let mut es = abi_exports();
    es.remove(0);
    assert_eq!(r.install("A".to_string(), 0, &es), Err(ErrorKind::LoadCompile));
    assert_eq!(r.get_plugin_by_name("A"), Err(ErrorKind::MissingPlugin));
}

#[test]
fn loading_a_name_again_replaces_the_module() {
    let mut r = Registry::new();
    r.install("A".to_string(), 0, &abi_exports()).unwrap();
    r.install("A".to_string(), 5, &abi_exports()).unwrap();
    assert_eq!(r.get_plugin_by_name("A"), Ok(5));
}

#[test]
fn plugin_descriptor_accessors() {
    let p = Plugin { name: "FooPlugin".to_string(), plugin_type: "Greeter".to_string(), data: vec![1u8, 2] };
    assert_eq!(p.name(), "FooPlugin");
    assert_eq!(p.plugin_type(), "Greeter");
    assert_eq!(p.data, vec![1u8, 2]);
}
