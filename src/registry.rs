//! The registry of a runtime: the host services registered as guest
//! imports, and the loaded modules by name.
use vstd::prelude::*;
use dashmap::DashMap;
use crate::abi::{
    abi_complete, check_imports, imports_resolved, names_of, validate_exports, ExportDesc,
    ImportDesc,
};
use crate::error::ErrorKind;

verus! {

#[verifier::external_type_specification]
#[verifier::external_body]
#[verifier::reject_recursive_types(K)]
#[verifier::reject_recursive_types(V)]
#[verifier::reject_recursive_types(S)]
pub struct ExDashMap<K, V, S>(DashMap<K, V, S>);

/// What a map from plugin names to module slots holds.
pub uninterp spec fn slots_of(m: DashMap<String, u64>) -> Map<Seq<char>, u64>;

/// Relies on `DashMap::new`: the new map is empty.
#[verifier::external_body]
fn slots_new() -> (r: DashMap<String, u64>)
    ensures
        slots_of(r).dom() == Set::<Seq<char>>::empty(),
{
    DashMap::new()
}

/// Relies on `DashMap::insert`: the key now maps to the value, replacing
/// any earlier value; other keys keep theirs.
#[verifier::external_body]
fn slots_insert(m: &mut DashMap<String, u64>, key: String, value: u64)
    ensures
        slots_of(*final(m)) == slots_of(*old(m)).insert(key@, value),
{
    m.insert(key, value);
}

/// Relies on `DashMap::get`: the value the key maps to, if any.
#[verifier::external_body]
fn slots_get(m: &DashMap<String, u64>, key: &str) -> (r: Option<u64>)
    ensures
        r == (if slots_of(*m).contains_key(key@) {
            Some(slots_of(*m)[key@])
        } else {
            None::<u64>
        }),
{
    m.get(key).map(|entry| *entry.value())
}

/// The names registered as host imports, each with the service that
/// registered it, and the slot of each loaded module by plugin name. A slot
/// is the caller's index for the module's record.
pub struct Registry {
    modules: DashMap<String, u64>,
    imports: Vec<String>,
    owners: Vec<String>,
}

impl Registry {
    /// Loaded modules: plugin name to slot.
    pub closed spec fn modules(&self) -> Map<Seq<char>, u64> {
        slots_of(self.modules)
    }

    /// Names of the registered host imports.
    pub closed spec fn provided(&self) -> Seq<Seq<char>> {
        names_of(self.imports@)
    }

    /// The service that registered each import, position by position.
    pub closed spec fn owners(&self) -> Seq<Seq<char>> {
        names_of(self.owners@)
    }

    /// No import name is registered twice, and each has its service.
    pub open spec fn wf(&self) -> bool {
        &&& self.provided().no_duplicates()
        &&& self.owners().len() == self.provided().len()
    }

    /// Import `name` is registered, by service `service`.
    pub open spec fn registered_by(&self, name: Seq<char>, service: Seq<char>) -> bool {
        exists|j: int|
            0 <= j < self.provided().len() && self.provided()[j] == name && self.owners()[j]
                == service
    }

    /// An empty registry: no services, no modules.
    pub fn new() -> (r: Registry)
        ensures
            r.wf(),
            r.modules() == Map::<Seq<char>, u64>::empty(),
            r.provided() == Seq::<Seq<char>>::empty(),
            r.owners() == Seq::<Seq<char>>::empty(),
    {
        let r = Registry { modules: slots_new(), imports: Vec::new(), owners: Vec::new() };
        assert(r.provided() =~= Seq::<Seq<char>>::empty());
        assert(r.owners() =~= Seq::<Seq<char>>::empty());
        assert(r.modules() =~= Map::<Seq<char>, u64>::empty());
        r
    }

    /// The registered host import names.
    pub fn imports(&self) -> (r: &Vec<String>)
        ensures
            names_of(r@) == self.provided(),
    {
        &self.imports
    }

    fn position(&self, name: &String) -> (r: Option<usize>)
        ensures
            match r {
                Some(j) => j < self.provided().len() && self.provided()[j as int] == name@,
                None => !self.provided().contains(name@),
            },
    {
        let mut i: usize = 0;
        while i < self.imports.len()
            invariant
                0 <= i <= self.imports@.len(),
                forall|j: int| 0 <= j < i ==> self.imports@[j]@ != name@,
            decreases self.imports@.len() - i,
        {
            if self.imports[i] == *name {
                assert(self.provided()[i as int] == name@);
                return Some(i);
            }
            i = i + 1;
        }
        assert forall|j: int| 0 <= j < self.provided().len() implies self.provided()[j]
            != name@ by {
            assert(self.imports@[j]@ != name@);
        }
        None
    }

    /// Registers the import names of host service `service`. Registering a
    /// service again is a no-op: when every name is registered already by
    /// this same service, nothing changes and the result is `Ok(false)`.
    /// When every name is new and the names are distinct, they are added
    /// under this service, with `Ok(true)`. Anything else is a clash,
    /// among them a name that another service registered: `Err(Link)`,
    /// nothing changes.
    pub fn provide(&mut self, service: &String, names: &Vec<String>) -> (r: Result<
        bool,
        ErrorKind,
    >)
        requires
            old(self).wf(),
        ensures
            final(self).wf(),
            final(self).modules() == old(self).modules(),
            ({
                let ns = names_of(names@);
                let old_p = old(self).provided();
                let old_o = old(self).owners();
                if forall|i: int|
                    0 <= i < ns.len() ==> old(self).registered_by(#[trigger] ns[i], service@) {
                    &&& r == Ok::<bool, ErrorKind>(false)
                    &&& final(self).provided() == old_p
                    &&& final(self).owners() == old_o
                } else if ns.no_duplicates() && forall|i: int|
                    0 <= i < ns.len() ==> !old_p.contains(#[trigger] ns[i]) {
                    &&& r == Ok::<bool, ErrorKind>(true)
                    &&& final(self).provided() == old_p + ns
                    &&& final(self).owners() == old_o + Seq::new(ns.len(), |_i: int| service@)
                } else {
                    &&& r == Err::<bool, ErrorKind>(ErrorKind::Link)
                    &&& final(self).provided() == old_p
                    &&& final(self).owners() == old_o
                }
            }),
    {
        let ghost ns = names_of(names@);
        let ghost old_p = self.provided();
        let ghost old_o = self.owners();
        let mut all_mine = true;
        let mut none_in = true;
        let mut i: usize = 0;
        while i < names.len()
            invariant
                ns == names_of(names@),
                old_p == self.provided(),
                old_o == self.owners(),
                self.wf(),
                0 <= i <= names@.len(),
                all_mine == forall|j: int|
                    0 <= j < i ==> self.registered_by(#[trigger] ns[j], service@),
                none_in == forall|j: int| 0 <= j < i ==> !old_p.contains(#[trigger] ns[j]),
            decreases names@.len() - i,
        {
            assert(ns[i as int] == names@[i as int]@);
            match self.position(&names[i]) {
                Some(j) => {
                    let mine = self.owners[j] == *service;
                    proof {
                        assert(self.owners()[j as int] == self.owners@[j as int]@);
                        assert(old_p.contains(ns[i as int]));
                        if mine {
                            assert(self.registered_by(ns[i as int], service@));
                        } else {
                            assert(!self.registered_by(ns[i as int], service@)) by {
                                if self.registered_by(ns[i as int], service@) {
                                    let k = choose|k: int|
                                        0 <= k < self.provided().len() && self.provided()[k]
                                            == ns[i as int] && self.owners()[k] == service@;
                                    assert(k == j as int);
                                }
                            }
                        }
                    }
                    all_mine = all_mine && mine;
                    none_in = false;
                },
                None => {
                    proof {
                        assert(!self.registered_by(ns[i as int], service@)) by {
                            if self.registered_by(ns[i as int], service@) {
                                let k = choose|k: int|
                                    0 <= k < self.provided().len() && self.provided()[k]
                                        == ns[i as int] && self.owners()[k] == service@;
                                assert(old_p.contains(old_p[k]));
                            }
                        }
                    }
                    all_mine = false;
                },
            }
            i = i + 1;
        }
        if all_mine {
            return Ok(false);
        }
        if !none_in {
            return Err(ErrorKind::Link);
        }
        let mut j: usize = 0;
        while j < names.len()
            invariant
                ns == names_of(names@),
                0 <= j <= names@.len(),
                self.imports@ == old(self).imports@,
                self.owners@ == old(self).owners@,
                self.modules == old(self).modules,
                old_p == old(self).provided(),
                old_o == old(self).owners(),
                self.wf(),
                !(forall|x: int| 0 <= x < ns.len() ==> self.registered_by(#[trigger] ns[x], service@)),
                forall|x: int| 0 <= x < ns.len() ==> !old_p.contains(#[trigger] ns[x]),
                forall|a: int, b: int| 0 <= a < b < j ==> ns[a] != ns[b],
            decreases names@.len() - j,
        {
            let mut k: usize = 0;
            while k < j
                invariant
                    ns == names_of(names@),
                    0 <= k <= j < names@.len(),
                    self.imports@ == old(self).imports@,
                    self.owners@ == old(self).owners@,
                    self.modules == old(self).modules,
                    old_p == old(self).provided(),
                    old_o == old(self).owners(),
                    self.wf(),
                    !(forall|x: int|
                        0 <= x < ns.len() ==> self.registered_by(#[trigger] ns[x], service@)),
                    forall|x: int| 0 <= x < ns.len() ==> !old_p.contains(#[trigger] ns[x]),
                    forall|a: int| 0 <= a < k ==> ns[a] != ns[j as int],
                decreases j - k,
            {
                assert(ns[k as int] == names@[k as int]@);
                assert(ns[j as int] == names@[j as int]@);
                if names[k] == names[j] {
                    assert(ns[k as int] == ns[j as int]);
                    return Err(ErrorKind::Link);
                }
                k = k + 1;
            }
            j = j + 1;
        }
        assert(ns.no_duplicates());
        let mut m: usize = 0;
        while m < names.len()
            invariant
                ns == names_of(names@),
                ns.no_duplicates(),
                forall|x: int| 0 <= x < ns.len() ==> !old_p.contains(#[trigger] ns[x]),
                old_p.no_duplicates(),
                old_o.len() == old_p.len(),
                0 <= m <= names@.len(),
                self.provided() == old_p + ns.take(m as int),
                self.owners() == old_o + Seq::new(m as nat, |_i: int| service@),
                self.provided().no_duplicates(),
                self.modules == old(self).modules,
            decreases names@.len() - m,
        {
            let n = names[m].clone();
            let who = service.clone();
            assert(ns[m as int] == names@[m as int]@);
            let ghost before = self.imports@;
            let ghost before_o = self.owners@;
            self.imports.push(n);
            self.owners.push(who);
            assert(names_of(self.imports@) =~= names_of(before).push(n@));
            assert(names_of(self.owners@) =~= names_of(before_o).push(who@));
            assert(ns.take(m as int + 1) =~= ns.take(m as int).push(ns[m as int]));
            assert(self.provided() =~= old_p + ns.take(m as int + 1));
            assert(self.owners() =~= old_o + Seq::new(m as nat + 1, |_i: int| service@));
            assert(self.provided().no_duplicates()) by {
                assert forall|a: int, b: int|
                    0 <= a < b < self.provided().len() implies self.provided()[a]
                    != self.provided()[b] by {
                    if b < old_p.len() {
                    } else if a < old_p.len() {
                        assert(self.provided()[b] == ns[b - old_p.len()]);
                        assert(old_p.contains(self.provided()[a]));
                    } else {
                        assert(self.provided()[b] == ns[b - old_p.len()]);
                        assert(self.provided()[a] == ns[a - old_p.len()]);
                    }
                }
            }
            m = m + 1;
        }
        assert(ns.take(ns.len() as int) =~= ns);
        Ok(true)
    }

    /// Checks that every import of a module is a registered host service:
    /// `Err(Link)` exactly when one is not.
    pub fn resolve_imports(&self, imports: &Vec<ImportDesc>) -> (r: Result<(), ErrorKind>)
        ensures
            r == if imports_resolved(imports@, self.provided()) {
                Ok::<(), ErrorKind>(())
            } else {
                Err(ErrorKind::Link)
            },
    {
        check_imports(imports, &self.imports)
    }

    /// Installs a module under plugin name `name` at slot `slot`, once its
    /// exports are checked against the allocation interface. A module
    /// without a well-typed `memory`, `alloc` and `dealloc` is refused with
    /// `Err(LoadCompile)` and the registry is unchanged. A module under a
    /// name already loaded replaces the earlier one.
    pub fn install(&mut self, name: String, slot: u64, exports: &Vec<ExportDesc>) -> (r: Result<
        (),
        ErrorKind,
    >)
        requires
            old(self).wf(),
        ensures
            final(self).wf(),
            final(self).provided() == old(self).provided(),
            final(self).owners() == old(self).owners(),
            abi_complete(exports@) ==> r == Ok::<(), ErrorKind>(()) && final(self).modules()
                == old(self).modules().insert(name@, slot),
            !abi_complete(exports@) ==> r == Err::<(), ErrorKind>(ErrorKind::LoadCompile)
                && final(self).modules() == old(self).modules(),
    {
        match validate_exports(exports) {
            Ok(()) => {
                slots_insert(&mut self.modules, name, slot);
                Ok(())
            },
            Err(e) => Err(e),
        }
    }

    /// The slot of the module loaded under `name`; `Err(MissingPlugin)` when
    /// none is.
    pub fn get_plugin_by_name(&self, name: &str) -> (r: Result<u64, ErrorKind>)
        ensures
            self.modules().contains_key(name@) ==> r == Ok::<u64, ErrorKind>(
                self.modules()[name@],
            ),
            !self.modules().contains_key(name@) ==> r == Err::<u64, ErrorKind>(
                ErrorKind::MissingPlugin,
            ),
    {
        match slots_get(&self.modules, name) {
            Some(slot) => Ok(slot),
            None => Err(ErrorKind::MissingPlugin),
        }
    }
}

} // verus!
