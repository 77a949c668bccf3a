//! Instances: imports marshalled in, declared exports resolved out.

use vstd::prelude::*;

use crate::conversion::extern_to_foreign_spec;
use crate::conversion::HostValue;
use crate::error::Error;
use crate::func::{retype_spec, Func};
use crate::global::{from_exported_global_spec, Global};
use crate::memory::{from_exported_memory_spec, Memory};
use crate::module::{assoc_first, Module, ParsedModule};
use crate::store::{instance_slots, Store};
use crate::table::{from_exported_table_spec, Table};
use crate::value::{share_func_type, Extern, ExternType};

verus! {

/// A live instance: a stable key into its store's instance table.
#[derive(Clone, Copy, PartialEq, Eq, Structural, Debug)]
pub struct Instance {
    /// The instance's key in the owning store; valid while the store lives.
    pub id: usize,
}

/// What the store holds for a live instance: the host instance's handle and
/// the resolved, typed exports.
#[derive(Debug)]
pub struct InstanceInner {
    /// The opaque handle of the host instance object.
    pub handle: u64,
    /// The resolved exports: name to typed handle, in the host's
    /// enumeration order.
    pub exports: Vec<(String, Extern)>,
}

/// One import: the module and item name it satisfies, and the handle
/// provided for it.
#[derive(Debug)]
pub struct Import {
    /// The module name of the import.
    pub module: String,
    /// The item name of the import.
    pub name: String,
    /// The handle provided for it.
    pub value: Extern,
}

/// The imports provided to an instantiation, in provision order.
#[derive(Debug)]
pub struct Imports {
    /// The provided imports.
    pub entries: Vec<Import>,
}

impl Imports {
    /// No imports.
    pub fn new() -> (r: Imports)
        ensures
            r.entries@ == Seq::<Import>::empty(),
    {
        Imports { entries: Vec::new() }
    }

    /// Provides `value` for the import `module`.`name`.
    pub fn define(&mut self, module: String, name: String, value: Extern)
        requires
            old(self).entries@.len() < usize::MAX,
        ensures
            final(self).entries@ == old(self).entries@.push(Import { module, name, value }),
    {
        self.entries.push(Import { module, name, value });
    }
}

/// The items provided under one module name, ready for the host: item name
/// to any-object.
#[derive(Debug)]
pub struct ModuleImports {
    /// The module name.
    pub module: String,
    /// The items provided under it, in provision order.
    pub items: Vec<(String, HostValue)>,
}

/// The two-level import mapping handed to the host's instantiation:
/// module name to item name to any-object, module names in first-provision
/// order.
#[derive(Debug)]
pub struct ImportsObject {
    /// The per-module groups, in first-provision order.
    pub modules: Vec<ModuleImports>,
}

/// Whether two imports collide: same module and same item name.
pub open spec fn has_duplicate_spec(entries: Seq<Import>) -> bool {
    exists|i: int, j: int|
        0 <= i < j < entries.len() && entries[i].module@ == entries[j].module@
            && entries[i].name@ == entries[j].name@
}

/// The distinct module names among the imports, each at its first
/// provision, in order.
pub open spec fn module_names_spec(entries: Seq<Import>) -> Seq<Seq<char>>
    decreases entries.len(),
{
    if entries.len() == 0 {
        Seq::empty()
    } else {
        let prev = module_names_spec(entries.drop_last());
        if prev.contains(entries.last().module@) {
            prev
        } else {
            prev.push(entries.last().module@)
        }
    }
}

/// The items provided under one module name, in provision order, as the
/// host sees them: item name to the marshalled handle.
pub open spec fn items_for_spec(entries: Seq<Import>, module: Seq<char>) -> Seq<
    (Seq<char>, HostValue),
>
    decreases entries.len(),
{
    if entries.len() == 0 {
        Seq::empty()
    } else {
        let prev = items_for_spec(entries.drop_last(), module);
        if entries.last().module@ == module {
            prev.push((entries.last().name@, extern_to_foreign_spec(entries.last().value)))
        } else {
            prev
        }
    }
}

/// The name-level view of a built item list.
pub open spec fn items_view(items: Seq<(String, HostValue)>) -> Seq<(Seq<char>, HostValue)> {
    items.map_values(|p: (String, HostValue)| (p.0@, p.1))
}

/// Whether a built imports object is exactly the grouping of the provided
/// imports: the module names in first-provision order, and under each, its
/// items in provision order, marshalled.
pub open spec fn grouped_matches(g: ImportsObject, entries: Seq<Import>) -> bool {
    &&& g.modules@.map_values(|m: ModuleImports| m.module@) == module_names_spec(entries)
    &&& forall|k: int|
        0 <= k < g.modules@.len() ==> items_view(#[trigger] g.modules@[k].items@) == items_for_spec(
            entries,
            g.modules@[k].module@,
        )
}


/// Whether any two of the first `n` imports collide.
fn check_duplicates(entries: &Vec<Import>) -> (r: bool)
    ensures
        r == has_duplicate_spec(entries@),
{
    let mut i: usize = 0;
    while i < entries.len()
        invariant
            i <= entries@.len(),
            forall|a: int, b: int|
                0 <= a < b < entries@.len() && a < i ==> !(entries@[a].module@
                    == entries@[b].module@ && entries@[a].name@ == entries@[b].name@),
        decreases entries@.len() - i,
    {
        let mut j: usize = i + 1;
        while j < entries.len()
            invariant
                i < j <= entries@.len() || (i >= entries@.len() && j == i + 1),
                i < entries@.len(),
                forall|b: int|
                    i < b < j ==> !(entries@[i as int].module@ == entries@[b].module@
                        && entries@[i as int].name@ == entries@[b].name@),
            decreases entries@.len() - j,
        {
            if entries[i].module == entries[j].module && entries[i].name == entries[j].name {
                return true;
            }
            j += 1;
        }
        i += 1;
    }
    false
}

impl Imports {
    /// Groups the imports into the two-level mapping the host's
    /// instantiation takes: module name to item name to marshalled handle,
    /// module names in first-provision order.
    ///
    /// Fails with [`Error::DuplicateImport`] exactly when two imports share
    /// a module and item name.
    pub fn to_imports_object(&self) -> (r: Result<ImportsObject, Error>)
        ensures
            match r {
                Ok(g) => !has_duplicate_spec(self.entries@) && grouped_matches(g, self.entries@),
                Err(e) => has_duplicate_spec(self.entries@) && e == Error::DuplicateImport,
            },
    {
        if check_duplicates(&self.entries) {
            return Err(Error::DuplicateImport);
        }
        let mut modules: Vec<ModuleImports> = Vec::new();
        let mut i: usize = 0;
        proof {
            assert(self.entries@.take(0) =~= Seq::<Import>::empty());
            assert(modules@.map_values(|m: ModuleImports| m.module@) =~= module_names_spec(
                self.entries@.take(0),
            ));
        }
        while i < self.entries.len()
            invariant
                i <= self.entries@.len(),
                modules@.map_values(|m: ModuleImports| m.module@) == module_names_spec(
                    self.entries@.take(i as int),
                ),
                forall|k: int|
                    0 <= k < modules@.len() ==> items_view(#[trigger] modules@[k].items@)
                        == items_for_spec(self.entries@.take(i as int), modules@[k].module@),
                forall|k1: int, k2: int|
                    0 <= k1 < k2 < modules@.len() ==> modules@[k1].module@ != modules@[k2].module@,
            decreases self.entries@.len() - i,
        {
            let ghost prev_entries = self.entries@.take(i as int);
            let ghost prev_modules = modules@;
            proof {
                assert(self.entries@.take(i + 1).drop_last() =~= self.entries@.take(i as int));
                assert(self.entries@.take(i + 1).last() == self.entries@[i as int]);
            }
            let entry = &self.entries[i];
            let foreign = entry.value.to_foreign();
            let mut k: usize = 0;
            let mut found: bool = false;
            while k < modules.len() && !found
                invariant
                    k <= modules@.len(),
                    modules@ == prev_modules,
                    found ==> k < modules@.len() && modules@[k as int].module@ == entry.module@,
                    !found ==> forall|a: int|
                        0 <= a < k ==> (#[trigger] modules@[a].module@) != entry.module@,
                decreases modules@.len() - k + (if found {
                    0int
                } else {
                    1int
                }),
            {
                if modules[k].module == entry.module {
                    found = true;
                } else {
                    k += 1;
                }
            }
            if found {
                proof {
                    assert(module_names_spec(prev_entries).contains(entry.module@)) by {
                        assert(modules@.map_values(|m: ModuleImports| m.module@)[k as int]
                            == entry.module@);
                    }
                }
                modules[k].items.push((entry.name.clone(), foreign));
                proof {
                    let cur = self.entries@.take(i + 1);
                    assert(module_names_spec(cur) == module_names_spec(prev_entries));
                    assert(modules@ =~= prev_modules.update(k as int, modules@[k as int]));
                    assert(modules@.map_values(|m: ModuleImports| m.module@) =~= module_names_spec(
                        cur,
                    ));
                    assert forall|q: int| 0 <= q < modules@.len() implies items_view(
                        #[trigger] modules@[q].items@,
                    ) == items_for_spec(cur, modules@[q].module@) by {
                        if q == k {
                            assert(items_view(modules@[q].items@) =~= items_view(
                                prev_modules[q].items@,
                            ).push((self.entries@[i as int].name@, extern_to_foreign_spec(
                                self.entries@[i as int].value,
                            ))));
                        } else {
                            assert(modules@[q].module@ != entry.module@);
                            assert(items_view(modules@[q].items@) == items_for_spec(
                                prev_entries,
                                modules@[q].module@,
                            ));
                        }
                    }
                }
            } else {
                proof {
                    assert(!module_names_spec(prev_entries).contains(entry.module@)) by {
                        if module_names_spec(prev_entries).contains(entry.module@) {
                            let names = modules@.map_values(|m: ModuleImports| m.module@);
                            let w = choose|w: int|
                                0 <= w < names.len() && names[w] == entry.module@;
                            assert(modules@[w].module@ == entry.module@);
                        }
                    }
                }
                let mut items: Vec<(String, HostValue)> = Vec::new();
                items.push((entry.name.clone(), foreign));
                modules.push(ModuleImports { module: entry.module.clone(), items });
                proof {
                    let cur = self.entries@.take(i + 1);
                    assert(modules@.map_values(|m: ModuleImports| m.module@)
                        =~= prev_modules.map_values(|m: ModuleImports| m.module@).push(
                        entry.module@,
                    ));
                    assert(modules@.map_values(|m: ModuleImports| m.module@) == module_names_spec(
                        cur,
                    ));
                    assert forall|q: int| 0 <= q < modules@.len() implies items_view(
                        #[trigger] modules@[q].items@,
                    ) == items_for_spec(cur, modules@[q].module@) by {
                        if q == modules@.len() - 1 {
                            assert(items_for_spec(prev_entries, entry.module@)
                                =~= Seq::<(Seq<char>, HostValue)>::empty()) by {
                                lemma_items_for_absent(prev_entries, entry.module@);
                            }
                            assert(items_view(modules@[q].items@) =~= items_for_spec(
                                cur,
                                modules@[q].module@,
                            ));
                        } else {
                            assert(modules@[q] == prev_modules[q]);
                            assert(modules@[q].module@ != entry.module@) by {
                                assert(module_names_spec(prev_entries).contains(
                                    modules@[q].module@,
                                )) by {
                                    assert(prev_modules.map_values(
                                        |m: ModuleImports| m.module@,
                                    )[q] == modules@[q].module@);
                                }
                            }
                            assert(items_view(modules@[q].items@) == items_for_spec(
                                prev_entries,
                                modules@[q].module@,
                            ));
                        }
                    }
                }
            }
            i += 1;
        }
        proof {
            assert(self.entries@.take(self.entries@.len() as int) =~= self.entries@);
        }
        Ok(ImportsObject { modules })
    }
}

/// A name's first appearance stays in the name list as entries are added.
proof fn lemma_module_names_grow(entries: Seq<Import>, module: Seq<char>)
    requires
        entries.len() > 0,
        module_names_spec(entries.drop_last()).contains(module) || entries.last().module@
            == module,
    ensures
        module_names_spec(entries).contains(module),
{
    let prev = module_names_spec(entries.drop_last());
    if prev.contains(module) {
        let w = choose|w: int| 0 <= w < prev.len() && prev[w] == module;
        if prev.contains(entries.last().module@) {
            assert(module_names_spec(entries)[w] == module);
        } else {
            assert(prev.push(entries.last().module@)[w] == module);
            assert(module_names_spec(entries)[w] == module);
        }
    } else {
        assert(entries.last().module@ == module);
        assert(module_names_spec(entries) == prev.push(module));
        assert(module_names_spec(entries).last() == module);
    }
}

/// A module name never provided has no items.
proof fn lemma_items_for_absent(entries: Seq<Import>, module: Seq<char>)
    requires
        !module_names_spec(entries).contains(module),
    ensures
        items_for_spec(entries, module) == Seq::<(Seq<char>, HostValue)>::empty(),
    decreases entries.len(),
{
    if entries.len() > 0 {
        assert(!module_names_spec(entries.drop_last()).contains(module)) by {
            if module_names_spec(entries.drop_last()).contains(module) {
                lemma_module_names_grow(entries, module);
            }
        }
        lemma_items_for_absent(entries.drop_last(), module);
        assert(entries.last().module@ != module) by {
            if entries.last().module@ == module {
                lemma_module_names_grow(entries, module);
            }
        }
    }
}

/// What resolving one declared export against its host object returns: the
/// typed handle the declared type dictates, or the invariant violation the
/// checks of each kind report.
pub open spec fn resolve_export_spec<T, F, V>(
    s: Store<T, F, V>,
    value: HostValue,
    et: ExternType,
) -> Result<Extern, Error> {
    match et {
        ExternType::Func(ft) => match value {
            HostValue::Func(f) => Ok(Extern::Func(retype_spec(f, ft))),
            _ => Err(Error::InvariantViolation),
        },
        ExternType::Global(gt) => match from_exported_global_spec(
            s.globals@.len() as int,
            value,
            gt,
        ) {
            Ok(g) => Ok(Extern::Global(g)),
            Err(e) => Err(e),
        },
        ExternType::Memory(mt) => match from_exported_memory_spec(s.memories@, value, mt) {
            Ok(m) => Ok(Extern::Memory(m)),
            Err(e) => Err(e),
        },
        ExternType::Table(tt) => match from_exported_table_spec(s.tables@, value, tt) {
            Ok(t) => Ok(Extern::Table(t)),
            Err(e) => Err(e),
        },
    }
}

/// What resolving a host instance's export list returns: each export typed
/// by the signature the parser declared under its name, or the first
/// failure in enumeration order; an export without a declared signature is
/// an invariant violation.
pub open spec fn process_exports_spec<T, F, V>(
    s: Store<T, F, V>,
    entries: Seq<(String, HostValue)>,
    parsed: ParsedModule,
) -> Result<Seq<(String, Extern)>, Error>
    decreases entries.len(),
{
    if entries.len() == 0 {
        Ok(Seq::empty())
    } else {
        match process_exports_spec(s, entries.drop_last(), parsed) {
            Err(e) => Err(e),
            Ok(prev) => match assoc_first(parsed.exports@, entries.last().0@) {
                None => Err(Error::InvariantViolation),
                Some(et) => match resolve_export_spec(s, entries.last().1, et) {
                    Err(e) => Err(e),
                    Ok(ext) => Ok(prev.push((entries.last().0, ext))),
                },
            },
        }
    }
}

/// A failure among the first exports decides the whole list.
proof fn lemma_process_error_sticks<T, F, V>(
    s: Store<T, F, V>,
    entries: Seq<(String, HostValue)>,
    parsed: ParsedModule,
    i: int,
)
    requires
        0 <= i <= entries.len(),
        process_exports_spec(s, entries.take(i), parsed) is Err,
    ensures
        process_exports_spec(s, entries, parsed) == process_exports_spec(
            s,
            entries.take(i),
            parsed,
        ),
    decreases entries.len() - i,
{
    if i == entries.len() {
        assert(entries.take(i) =~= entries);
    } else {
        assert(entries.take(i + 1).drop_last() =~= entries.take(i));
        lemma_process_error_sticks(s, entries, parsed, i + 1);
    }
}

/// Resolves a host instance's export list against the declared export
/// signatures, exactly as [`process_exports_spec`] describes it.
pub fn process_exports<T, F, V>(
    store: &Store<T, F, V>,
    entries: &Vec<(String, HostValue)>,
    parsed: &ParsedModule,
) -> (r: Result<Vec<(String, Extern)>, Error>)
    ensures
        match r {
            Ok(v) => process_exports_spec(*store, entries@, *parsed) == Ok::<
                Seq<(String, Extern)>,
                Error,
            >(v@),
            Err(e) => process_exports_spec(*store, entries@, *parsed) == Err::<
                Seq<(String, Extern)>,
                Error,
            >(e),
        },
{
    let mut out: Vec<(String, Extern)> = Vec::new();
    let mut i: usize = 0;
    proof {
        assert(entries@.take(0) =~= Seq::<(String, HostValue)>::empty());
    }
    while i < entries.len()
        invariant
            i <= entries@.len(),
            process_exports_spec(*store, entries@.take(i as int), *parsed) == Ok::<
                Seq<(String, Extern)>,
                Error,
            >(out@),
        decreases entries@.len() - i,
    {
        proof {
            assert(entries@.take(i + 1).drop_last() =~= entries@.take(i as int));
            assert(entries@.take(i + 1).last() == entries@[i as int]);
        }
        let resolved: Result<Extern, Error> = match parsed.export_ty(&entries[i].0) {
            None => Err(Error::InvariantViolation),
            Some(et) => match et {
                ExternType::Func(ft) => match &entries[i].1 {
                    HostValue::Func(f) => {
                        let g = f.duplicate();
                        Ok(Extern::Func(match g {
                            Func::Exported { handle, .. } => Func::Exported {
                                handle,
                                ty: share_func_type(ft),
                            },
                            Func::HostDefined { store_id, index, .. } => Func::HostDefined {
                                store_id,
                                index,
                                ty: share_func_type(ft),
                            },
                        }))
                    },
                    _ => Err(Error::InvariantViolation),
                },
                ExternType::Global(gt) => {
                    match Global::from_exported_global(store, &entries[i].1, *gt) {
                        Ok(g) => Ok(Extern::Global(g)),
                        Err(e) => Err(e),
                    }
                },
                ExternType::Memory(mt) => {
                    match Memory::from_exported_memory(store, &entries[i].1, *mt) {
                        Ok(m) => Ok(Extern::Memory(m)),
                        Err(e) => Err(e),
                    }
                },
                ExternType::Table(tt) => {
                    match Table::from_exported_table(store, &entries[i].1, *tt) {
                        Ok(t) => Ok(Extern::Table(t)),
                        Err(e) => Err(e),
                    }
                },
            },
        };
        match resolved {
            Ok(ext) => {
                out.push((entries[i].0.clone(), ext));
            },
            Err(e) => {
                proof {
                    lemma_process_error_sticks(*store, entries@, *parsed, i + 1);
                }
                return Err(e);
            },
        }
        i += 1;
    }
    proof {
        assert(entries@.take(entries@.len() as int) =~= entries@);
    }
    Ok(out)
}

impl Instance {
    /// Registers a freshly instantiated host instance: resolves each export
    /// the host enumerated against the signature the parser declared under
    /// its name, and records the result in the store's instance table.
    ///
    /// The host's own instantiation call stands between
    /// [`Imports::to_imports_object`] and this: a bridge caller hands its
    /// outcome in as `host_handle` and `host_exports`. Failure leaves the
    /// store unchanged and discards the partial state.
    pub fn new<T, F, V>(
        store: &mut Store<T, F, V>,
        module: &Module,
        host_handle: u64,
        host_exports: &Vec<(String, HostValue)>,
    ) -> (r: Result<Instance, Error>)
        ensures
            match r {
                Ok(inst) => {
                    &&& process_exports_spec(*old(store), host_exports@, module.parsed) matches Ok(
                        exs,
                    ) && {
                        &&& !instance_slots(old(store).instances).dom().contains(inst.id as int)
                        &&& instance_slots(final(store).instances).dom().contains(inst.id as int)
                        &&& instance_slots(final(store).instances)[inst.id as int].handle
                            == host_handle
                        &&& instance_slots(final(store).instances)[inst.id as int].exports@ == exs
                        &&& instance_slots(final(store).instances) == instance_slots(
                            old(store).instances,
                        ).insert(
                            inst.id as int,
                            instance_slots(final(store).instances)[inst.id as int],
                        )
                    }
                },
                Err(e) => {
                    &&& process_exports_spec(*old(store), host_exports@, module.parsed) == Err::<
                        Seq<(String, Extern)>,
                        Error,
                    >(e)
                    &&& final(store).instances == old(store).instances
                },
            },
            final(store).id == old(store).id,
            final(store).engine == old(store).engine,
            final(store).data == old(store).data,
            final(store).funcs == old(store).funcs,
            final(store).payloads == old(store).payloads,
            final(store).memories == old(store).memories,
            final(store).tables == old(store).tables,
            final(store).globals == old(store).globals,
    {
        let exports = match process_exports(&*store, host_exports, &module.parsed) {
            Ok(v) => v,
            Err(e) => {
                return Err(e);
            },
        };
        let inner = InstanceInner { handle: host_handle, exports };
        Ok(store.insert_instance(inner))
    }

    /// The export under `name`, if this instance declares one; `None` also
    /// when the instance is not registered in `store`.
    pub fn get_export<T, F, V>(&self, store: &Store<T, F, V>, name: &String) -> (r: Option<Extern>)
        ensures
            ({
                let slots = instance_slots(store.instances);
                if !slots.dom().contains(self.id as int) {
                    r is None
                } else {
                    r == assoc_first(slots[self.id as int].exports@, name@)
                }
            }),
    {
        let inner = match store.get_instance(self.id) {
            Some(inner) => inner,
            None => {
                return None;
            },
        };
        proof {
            assert(inner.exports@.skip(0) =~= inner.exports@);
        }
        let mut i: usize = 0;
        while i < inner.exports.len()
            invariant
                i <= inner.exports@.len(),
                instance_slots(store.instances).dom().contains(self.id as int),
                *inner == instance_slots(store.instances)[self.id as int],
                assoc_first(inner.exports@, name@) == assoc_first(
                    inner.exports@.skip(i as int),
                    name@,
                ),
            decreases inner.exports@.len() - i,
        {
            proof {
                assert(inner.exports@.skip(i as int).first() == inner.exports@[i as int]);
                assert(inner.exports@.skip(i as int).drop_first() =~= inner.exports@.skip(i + 1));
            }
            if inner.exports[i].0 == *name {
                proof {
                    assert(inner.exports@.skip(i as int).first().0@ == name@);
                    assert(assoc_first(inner.exports@.skip(i as int), name@) == Some(
                        inner.exports@[i as int].1,
                    ));
                    assert(*inner == instance_slots(store.instances)[self.id as int]);
                    assert(assoc_first(
                        instance_slots(store.instances)[self.id as int].exports@,
                        name@,
                    ) == Some(inner.exports@[i as int].1));
                }
                let out = inner.exports[i].1.duplicate();
                proof {
                    assert(out == inner.exports@[i as int].1);
                }
                return Some(out);
            }
            i += 1;
        }
        proof {
            assert(inner.exports@.skip(inner.exports@.len() as int) =~= Seq::<(
                String,
                Extern,
            )>::empty());
        }
        None
    }

    /// Every export of this instance, name and typed handle, in the host's
    /// enumeration order; empty when the instance is not registered in
    /// `store`.
    pub fn exports<T, F, V>(&self, store: &Store<T, F, V>) -> (r: Vec<(String, Extern)>)
        ensures
            ({
                let slots = instance_slots(store.instances);
                if !slots.dom().contains(self.id as int) {
                    r@ == Seq::<(String, Extern)>::empty()
                } else {
                    r@ == slots[self.id as int].exports@
                }
            }),
    {
        let inner = match store.get_instance(self.id) {
            Some(inner) => inner,
            None => {
                return Vec::new();
            },
        };
        let mut r: Vec<(String, Extern)> = Vec::new();
        let mut i: usize = 0;
        while i < inner.exports.len()
            invariant
                i <= inner.exports@.len(),
                instance_slots(store.instances).dom().contains(self.id as int),
                *inner == instance_slots(store.instances)[self.id as int],
                r@ == inner.exports@.take(i as int),
            decreases inner.exports@.len() - i,
        {
            r.push((inner.exports[i].0.clone(), inner.exports[i].1.duplicate()));
            i += 1;
            proof {
                assert(r@ =~= inner.exports@.take(i as int));
            }
        }
        proof {
            assert(inner.exports@.take(inner.exports@.len() as int) =~= inner.exports@);
        }
        r
    }
}

} // verus!
