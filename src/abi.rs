//! The symbols a guest module exchanges with its host: their names, and
//! the signatures the allocation interface must have.
use vstd::prelude::*;
use vstd::string::StringExecFns;
use crate::error::ErrorKind;

verus! {

/// Prefix of every guest export that implements a capability method.
pub const GUEST_PREFIX: &'static str = "_plugy_guest_";

/// Prefix of every host import that a context service provides.
pub const CONTEXT_PREFIX: &'static str = "_plugy_context_";

/// The import namespace under which host services are registered.
pub const IMPORT_MODULE: &'static str = "env";

/// The guest's exported linear memory.
pub const MEMORY_EXPORT: &'static str = "memory";

/// The guest's allocator, `(i32) -> i32`.
pub const ALLOC_EXPORT: &'static str = "alloc";

/// The guest's deallocator, `(i64) -> ()`.
pub const DEALLOC_EXPORT: &'static str = "dealloc";

pub open spec fn guest_prefix() -> Seq<char> {
    seq!['_', 'p', 'l', 'u', 'g', 'y', '_', 'g', 'u', 'e', 's', 't', '_']
}

pub open spec fn context_prefix() -> Seq<char> {
    seq!['_', 'p', 'l', 'u', 'g', 'y', '_', 'c', 'o', 'n', 't', 'e', 'x', 't', '_']
}

pub open spec fn import_module() -> Seq<char> {
    seq!['e', 'n', 'v']
}

pub open spec fn memory_name() -> Seq<char> {
    seq!['m', 'e', 'm', 'o', 'r', 'y']
}

pub open spec fn alloc_name() -> Seq<char> {
    seq!['a', 'l', 'l', 'o', 'c']
}

pub open spec fn dealloc_name() -> Seq<char> {
    seq!['d', 'e', 'a', 'l', 'l', 'o', 'c']
}

/// The export through which the guest implements method `m`.
pub open spec fn guest_export_of(m: Seq<char>) -> Seq<char> {
    guest_prefix() + m
}

/// The import through which the guest reaches host method `m`.
pub open spec fn context_import_of(m: Seq<char>) -> Seq<char> {
    context_prefix() + m
}

/// Name of the guest export that implements capability method `method`.
pub fn guest_export_name(method: &str) -> (r: String)
    ensures
        r@ == guest_export_of(method@),
{
    proof {
        reveal_strlit("_plugy_guest_");
    }
    let mut s = String::from_str(GUEST_PREFIX);
    s.append(method);
    s
}

/// Name of the host import that exposes context method `method`.
pub fn context_import_name(method: &str) -> (r: String)
    ensures
        r@ == context_import_of(method@),
{
    proof {
        reveal_strlit("_plugy_context_");
    }
    let mut s = String::from_str(CONTEXT_PREFIX);
    s.append(method);
    s
}

/// A WebAssembly value type.
#[derive(Clone, Copy, Debug, PartialEq, Eq, Structural)]
pub enum ValType {
    I32,
    I64,
    F32,
    F64,
    V128,
    FuncRef,
    ExternRef,
}

/// The parameter and result types of a function.
#[derive(Clone, Debug)]
pub struct FuncSig {
    pub params: Vec<ValType>,
    pub results: Vec<ValType>,
}

/// What kind of item an import or export is.
#[derive(Clone, Debug)]
pub enum ExternKind {
    Func(FuncSig),
    Memory,
    Table,
    Global,
}

/// One export of a compiled module.
#[derive(Clone, Debug)]
pub struct ExportDesc {
    pub name: String,
    pub kind: ExternKind,
}

/// One import of a compiled module.
#[derive(Clone, Debug)]
pub struct ImportDesc {
    pub module: String,
    pub name: String,
    pub kind: ExternKind,
}

/// `k` is a function with exactly these parameter and result types.
pub open spec fn sig_is(k: ExternKind, params: Seq<ValType>, results: Seq<ValType>) -> bool {
    match k {
        ExternKind::Func(s) => s.params@ == params && s.results@ == results,
        _ => false,
    }
}

/// The signature shared by guest methods and host imports: `(i64) -> i64`.
pub open spec fn is_crossing_sig(k: ExternKind) -> bool {
    sig_is(k, seq![ValType::I64], seq![ValType::I64])
}

/// Some export is the linear memory under the name `memory`.
pub open spec fn exports_memory(es: Seq<ExportDesc>) -> bool {
    exists|i: int| 0 <= i < es.len() && es[i].name@ == memory_name() && es[i].kind is Memory
}

/// Some export is a function named `name` with the given signature.
pub open spec fn exports_func(
    es: Seq<ExportDesc>,
    name: Seq<char>,
    params: Seq<ValType>,
    results: Seq<ValType>,
) -> bool {
    exists|i: int| 0 <= i < es.len() && es[i].name@ == name && sig_is(es[i].kind, params, results)
}

/// The exports hold the whole allocation interface, each item well typed.
pub open spec fn abi_complete(es: Seq<ExportDesc>) -> bool {
    &&& exports_memory(es)
    &&& exports_func(es, alloc_name(), seq![ValType::I32], seq![ValType::I32])
    &&& exports_func(es, dealloc_name(), seq![ValType::I64], seq![])
}

/// The names that a sequence of strings holds.
pub open spec fn names_of(v: Seq<String>) -> Seq<Seq<char>> {
    v.map_values(|s: String| s@)
}

/// An import is one the host provides: in the `env` namespace, of the
/// crossing signature, under a registered name.
pub open spec fn import_resolved(imp: ImportDesc, provided: Seq<Seq<char>>) -> bool {
    &&& imp.module@ == import_module()
    &&& is_crossing_sig(imp.kind)
    &&& provided.contains(imp.name@)
}

/// Every import of a module is one the host provides.
pub open spec fn imports_resolved(imps: Seq<ImportDesc>, provided: Seq<Seq<char>>) -> bool {
    forall|i: int| 0 <= i < imps.len() ==> import_resolved(#[trigger] imps[i], provided)
}

fn same_types(a: &Vec<ValType>, b: &Vec<ValType>) -> (r: bool)
    ensures
        r == (a@ == b@),
{
    if a.len() != b.len() {
        return false;
    }
    let mut i: usize = 0;
    while i < a.len()
        invariant
            a@.len() == b@.len(),
            0 <= i <= a@.len(),
            forall|j: int| 0 <= j < i ==> a@[j] == b@[j],
        decreases a@.len() - i,
    {
        if a[i] != b[i] {
            return false;
        }
        i = i + 1;
    }
    assert(a@ =~= b@);
    true
}

/// Whether `k` is a function with exactly the given signature.
pub fn has_sig(k: &ExternKind, params: &Vec<ValType>, results: &Vec<ValType>) -> (r: bool)
    ensures
        r == sig_is(*k, params@, results@),
{
    match k {
        ExternKind::Func(s) => same_types(&s.params, params) && same_types(&s.results, results),
        _ => false,
    }
}

fn crossing_params() -> (r: Vec<ValType>)
    ensures
        r@ == seq![ValType::I64],
{
    let r = vec![ValType::I64];
    assert(r@ =~= seq![ValType::I64]);
    r
}

fn find_func(es: &Vec<ExportDesc>, name: &str, params: &Vec<ValType>, results: &Vec<ValType>) -> (r:
    bool)
    ensures
        r == exports_func(es@, name@, params@, results@),
{
    let target = String::from_str(name);
    let mut i: usize = 0;
    while i < es.len()
        invariant
            target@ == name@,
            0 <= i <= es@.len(),
            forall|j: int|
                0 <= j < i ==> !(#[trigger] es@[j].name@ == name@ && sig_is(
                    es@[j].kind,
                    params@,
                    results@,
                )),
        decreases es@.len() - i,
    {
        if es[i].name == target && has_sig(&es[i].kind, params, results) {
            return true;
        }
        i = i + 1;
    }
    false
}

fn find_memory(es: &Vec<ExportDesc>) -> (r: bool)
    ensures
        r == exports_memory(es@),
{
    proof {
        reveal_strlit("memory");
    }
    let target = String::from_str(MEMORY_EXPORT);
    let mut i: usize = 0;
    while i < es.len()
        invariant
            target@ == memory_name(),
            0 <= i <= es@.len(),
            forall|j: int|
                0 <= j < i ==> !(#[trigger] es@[j].name@ == memory_name() && es@[j].kind is Memory),
        decreases es@.len() - i,
    {
        if es[i].name == target {
            if let ExternKind::Memory = es[i].kind {
                return true;
            }
        }
        i = i + 1;
    }
    false
}

/// Checks that a module exports the allocation interface: a memory named
/// `memory`, `alloc: (i32) -> i32` and `dealloc: (i64) -> ()`.
pub fn validate_exports(exports: &Vec<ExportDesc>) -> (r: Result<(), ErrorKind>)
    ensures
        r == if abi_complete(exports@) {
            Ok::<(), ErrorKind>(())
        } else {
            Err(ErrorKind::LoadCompile)
        },
{
    proof {
        reveal_strlit("alloc");
        reveal_strlit("dealloc");
    }
    assert(ALLOC_EXPORT@ == alloc_name());
    assert(DEALLOC_EXPORT@ == dealloc_name());
    let i32s = vec![ValType::I32];
    let i64s = crossing_params();
    let none: Vec<ValType> = Vec::new();
    assert(i32s@ =~= seq![ValType::I32]);
    assert(none@ =~= seq![]);
    let ok = find_memory(exports) && find_func(exports, ALLOC_EXPORT, &i32s, &i32s) && find_func(
        exports,
        DEALLOC_EXPORT,
        &i64s,
        &none,
    );
    if ok {
        Ok(())
    } else {
        Err(ErrorKind::LoadCompile)
    }
}

fn is_provided(name: &String, provided: &Vec<String>) -> (r: bool)
    ensures
        r == names_of(provided@).contains(name@),
{
    let mut i: usize = 0;
    while i < provided.len()
        invariant
            0 <= i <= provided@.len(),
            forall|j: int| 0 <= j < i ==> provided@[j]@ != name@,
        decreases provided@.len() - i,
    {
        if provided[i] == *name {
            assert(names_of(provided@)[i as int] == name@);
            return true;
        }
        i = i + 1;
    }
    assert forall|j: int| 0 <= j < names_of(provided@).len() implies names_of(provided@)[j]
        != name@ by {
        assert(provided@[j]@ != name@);
    }
    false
}

/// Checks that every import of a module is a host service registered under
/// `provided`: namespace `env`, type `(i64) -> i64`, a provided name.
pub fn check_imports(imports: &Vec<ImportDesc>, provided: &Vec<String>) -> (r: Result<(), ErrorKind>)
    ensures
        r == if imports_resolved(imports@, names_of(provided@)) {
            Ok::<(), ErrorKind>(())
        } else {
            Err(ErrorKind::Link)
        },
{
    proof {
        reveal_strlit("env");
    }
    let env = String::from_str(IMPORT_MODULE);
    let params = crossing_params();
    let mut i: usize = 0;
    while i < imports.len()
        invariant
            env@ == import_module(),
            params@ == seq![ValType::I64],
            0 <= i <= imports@.len(),
            forall|j: int| 0 <= j < i ==> import_resolved(#[trigger] imports@[j], names_of(provided@)),
        decreases imports@.len() - i,
    {
        let imp = &imports[i];
        if !(imp.module == env && has_sig(&imp.kind, &params, &params) && is_provided(
            &imp.name,
            provided,
        )) {
            assert(!import_resolved(imports@[i as int], names_of(provided@)));
            return Err(ErrorKind::Link);
        }
        i = i + 1;
    }
    Ok(())
}

} // verus!
