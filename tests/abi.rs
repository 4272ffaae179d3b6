use plugy::abi::{
    check_imports, context_import_name, guest_export_name, has_sig,
    validate_exports, ExportDesc, ExternKind, FuncSig, ImportDesc, ValType, ALLOC_EXPORT,
    DEALLOC_EXPORT, IMPORT_MODULE, MEMORY_EXPORT,
};
use plugy::error::ErrorKind;

fn func(params: Vec<ValType>, results: Vec<ValType>) -> ExternKind {
    ExternKind::Func(FuncSig { params, results })
}

fn export(name: &str, kind: ExternKind) -> ExportDesc {
    ExportDesc { name: name.to_string(), kind }
}

fn abi_exports() -> Vec<ExportDesc> {
    vec![
        export(MEMORY_EXPORT, ExternKind::Memory),
        export(ALLOC_EXPORT, func(vec![ValType::I32], vec![ValType::I32])),
        export(DEALLOC_EXPORT, func(vec![ValType::I64], vec![])),
        export("_plugy_guest_echo", func(vec![ValType::I64], vec![ValType::I64])),
    ]
}

fn import(module: &str, name: &str, kind: ExternKind) -> ImportDesc {
    ImportDesc { module: module.to_string(), name: name.to_string(), kind }
}

#[test]
fn guest_export_names_carry_the_prefix() {
    assert_eq!(guest_export_name("echo"), "_plugy_guest_echo");
    assert_eq!(guest_export_name(""), "_plugy_guest_");
}

#[test]
fn context_import_names_carry_the_prefix() {
    assert_eq!(context_import_name("fetch"), "_plugy_context_fetch");
    assert_eq!(IMPORT_MODULE, "env");
}

#[test]
fn signature_check_is_exact() {
    let k = func(vec![ValType::I64], vec![ValType::I64]);
    assert!(has_sig(&k, &vec![ValType::I64], &vec![ValType::I64]));
    assert!(!has_sig(&k, &vec![ValType::I32], &vec![ValType::I64]));
    assert!(!has_sig(&k, &vec![ValType::I64], &vec![]));
    assert!(!has_sig(&ExternKind::Memory, &vec![], &vec![]));
}

#[test]
fn complete_abi_is_accepted() {
    assert_eq!(validate_exports(&abi_exports()), Ok(()));
}

#[test]
fn missing_memory_is_a_load_error() {
    let mut es = abi_exports();
    es.remove(0);
    assert_eq!(validate_exports(&es), Err(ErrorKind::LoadCompile));
}

#[test]
fn missing_alloc_is_a_load_error() {
    let mut es = abi_exports();
    es.remove(1);
    assert_eq!(validate_exports(&es), Err(ErrorKind::LoadCompile));
}

#[test]
fn missing_dealloc_is_a_load_error() {
    let mut es = abi_exports();
    es.remove(2);
    assert_eq!(validate_exports(&es), Err(ErrorKind::LoadCompile));
}

#[test]
fn mistyped_alloc_is_a_load_error() {
    let mut es = abi_exports();
    es[1] = export(ALLOC_EXPORT, func(vec![ValType::I64], vec![ValType::I32]));
    assert_eq!(validate_exports(&es), Err(ErrorKind::LoadCompile));
}

#[test]
fn memory_under_another_kind_is_a_load_error() {
    let mut es = abi_exports();
    es[0] = export(MEMORY_EXPORT, ExternKind::Global);
    assert_eq!(validate_exports(&es), Err(ErrorKind::LoadCompile));
}

#[test]
fn registered_imports_resolve() {
    let provided = vec!["_plugy_context_fetch".to_string()];
    let imps = vec![import("env", "_plugy_context_fetch", func(vec![ValType::I64], vec![ValType::I64]))];
    assert_eq!(check_imports(&imps, &provided), Ok(()));
    assert_eq!(check_imports(&vec![], &vec![]), Ok(()));
}

#[test]
fn unregistered_import_is_a_link_error() {
    let provided = vec!["_plugy_context_fetch".to_string()];
    let imps = vec![import("env", "_plugy_context_who", func(vec![ValType::I64], vec![ValType::I64]))];
    assert_eq!(check_imports(&imps, &provided), Err(ErrorKind::Link));
}

#[test]
fn import_outside_env_or_mistyped_is_a_link_error() {
    let provided = vec!["_plugy_context_fetch".to_string()];
    let other = vec![import("wasi", "_plugy_context_fetch", func(vec![ValType::I64], vec![ValType::I64]))];
    assert_eq!(check_imports(&other, &provided), Err(ErrorKind::Link));
    let typed = vec![import("env", "_plugy_context_fetch", func(vec![ValType::I32], vec![ValType::I64]))];
    assert_eq!(check_imports(&typed, &provided), Err(ErrorKind::Link));
}
