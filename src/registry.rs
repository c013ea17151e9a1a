//! Assembling capability modules into one root namespace.
//!
//! Each module is built by a fallible factory; the registry takes the outcomes
//! in declaration order, keeps the modules that were built under their names,
//! and reports each outcome. A failed module is skipped and never blocks the
//! others.
use vstd::prelude::*;

verus! {

/// A module's name and what its factory produced: its exports, or the
/// failure's detail.
#[derive(Debug)]
pub struct BuiltModule<T> {
    pub name: String,
    pub result: Result<T, String>,
}

/// The record of one module's registration.
#[derive(Debug, Clone, PartialEq, Eq)]
pub enum ModuleReport {
    Loaded { name: String },
    Failed { name: String, detail: String },
}

/// The root namespace and the reports, one per module in declaration order.
#[derive(Debug)]
pub struct Registration<T> {
    pub namespaces: Vec<(String, T)>,
    pub reports: Vec<ModuleReport>,
}

/// The report owed for one module.
pub open spec fn report_for<T>(m: BuiltModule<T>) -> ModuleReport {
    match m.result {
        Ok(_) => ModuleReport::Loaded { name: m.name },
        Err(d) => ModuleReport::Failed { name: m.name, detail: d },
    }
}

/// The namespaces that the built modules make, in declaration order.
pub open spec fn loaded_of<T>(ms: Seq<BuiltModule<T>>) -> Seq<(String, T)>
    decreases ms.len(),
{
    if ms.len() == 0 {
        Seq::empty()
    } else {
        let rest = loaded_of(ms.drop_last());
        match ms.last().result {
            Ok(t) => rest.push((ms.last().name, t)),
            Err(_) => rest,
        }
    }
}

/// Whether some module of that name was built.
pub open spec fn was_built<T>(ms: Seq<BuiltModule<T>>, name: Seq<char>) -> bool {
    exists|i: int| 0 <= i < ms.len() && (#[trigger] ms[i]).name@ == name && ms[i].result.is_ok()
}

/// Whether the namespaces hold one under that name.
pub open spec fn has_namespace<T>(ns: Seq<(String, T)>, name: Seq<char>) -> bool {
    exists|i: int| 0 <= i < ns.len() && (#[trigger] ns[i]).0@ == name
}

/// A name stands in the root namespace exactly when some module of that name
/// was built: failed modules leave nothing behind, and none that succeeded is
/// lost.
pub proof fn lemma_namespace_members<T>(ms: Seq<BuiltModule<T>>, name: Seq<char>)
    ensures
        has_namespace(loaded_of(ms), name) <==> was_built(ms, name),
    decreases ms.len(),
{
    if ms.len() > 0 {
        let init = ms.drop_last();
        lemma_namespace_members(init, name);
        let rest = loaded_of(init);
        if has_namespace(loaded_of(ms), name) {
            let i = choose|i: int|
                0 <= i < loaded_of(ms).len() && (#[trigger] loaded_of(ms)[i]).0@ == name;
            if i < rest.len() {
                assert(rest[i] == loaded_of(ms)[i]);
                let j = choose|j: int|
                    0 <= j < init.len() && (#[trigger] init[j]).name@ == name
                        && init[j].result.is_ok();
                assert(ms[j] == init[j]);
            } else {
                assert(ms[ms.len() - 1] == ms.last());
            }
        }
        if was_built(ms, name) {
            let j = choose|j: int|
                0 <= j < ms.len() && (#[trigger] ms[j]).name@ == name && ms[j].result.is_ok();
            if j < init.len() {
                assert(init[j] == ms[j]);
                let i = choose|i: int| 0 <= i < rest.len() && (#[trigger] rest[i]).0@ == name;
                assert(loaded_of(ms)[i] == rest[i]);
            } else {
                assert(ms[j] == ms.last());
                assert(loaded_of(ms)[rest.len() as int].0@ == name);
            }
        }
    }
}

/// Registers the built modules in declaration order: each one that was built
/// goes into the namespace under its name, and each yields its report.
pub fn register<T>(modules: Vec<BuiltModule<T>>) -> (r: Registration<T>)
    ensures
        r.namespaces@ == loaded_of(modules@),
        r.reports@.len() == modules@.len(),
        forall|i: int| 0 <= i < modules@.len() ==> #[trigger] r.reports@[i] == report_for(modules@[i]),
{
    let ghost all = modules@;
    assert(all.len() == modules.len());
    let mut pending = modules;
    let mut namespaces: Vec<(String, T)> = Vec::new();
    let mut reports: Vec<ModuleReport> = Vec::new();
    let mut k: usize = 0;
    while pending.len() > 0
        invariant
            k <= all.len(),
            all.len() <= usize::MAX,
            pending@ == all.skip(k as int),
            namespaces@ == loaded_of(all.take(k as int)),
            reports@.len() == k,
            forall|i: int| 0 <= i < k ==> #[trigger] reports@[i] == report_for(all[i]),
        decreases pending@.len(),
    {
        let m = pending.remove(0);
        proof {
            assert(m == all[k as int]);
            assert(all.take(k + 1).drop_last() =~= all.take(k as int));
            assert(all.take(k + 1).last() == all[k as int]);
            assert(pending@ =~= all.skip(k + 1));
        }
        let BuiltModule { name, result } = m;
        match result {
            Ok(exports) => {
                reports.push(ModuleReport::Loaded { name: name.clone() });
                namespaces.push((name, exports));
            },
            Err(detail) => {
                reports.push(ModuleReport::Failed { name, detail });
            },
        }
        k = k + 1;
    }
    proof {
        assert(all.take(all.len() as int) =~= all);
    }
    Registration { namespaces, reports }
}

} // verus!
