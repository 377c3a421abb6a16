//! Process-wide bookkeeping of registered type shapes. The external runtime's
//! own registry is append-only and registration is never undone, so this side
//! keeps one entry per declared type name and makes a repeated registration of
//! the same name an explicit no-op instead of an unguarded second entry.

use vstd::prelude::*;

use crate::qmeta::{MetaObjectHandle, QMeta};

verus! {

/// Whether some registered entry carries the declared type name `name`.
pub open spec fn has_declared_name(entries: Seq<QMeta>, name: Seq<char>) -> bool {
    exists|i: int| 0 <= i < entries.len() && (#[trigger] entries[i]).declared_name() == name
}

/// What registering `meta` does to the entries: nothing when its declared
/// name is already present, otherwise it appends the registration.
pub open spec fn spec_register(entries: Seq<QMeta>, meta: QMeta) -> Seq<QMeta> {
    if has_declared_name(entries, meta.declared_name()) {
        entries
    } else {
        entries.push(meta)
    }
}

/// The registrations made so far: at most one per declared type name, in
/// registration order, never removed.
pub struct MetaRegistry {
    entries: Vec<QMeta>,
}

impl MetaRegistry {
    /// The registrations held, in registration order.
    pub closed spec fn entries_spec(self) -> Seq<QMeta> {
        self.entries@
    }

    /// At most one registration per declared type name.
    pub open spec fn wf(self) -> bool {
        forall|i: int, j: int|
            0 <= i < j < self.entries_spec().len() ==> (#[trigger] self.entries_spec()[i]).declared_name() != (
            #[trigger] self.entries_spec()[j]).declared_name()
    }

    /// An empty registry: nothing registered yet.
    pub fn new() -> (r: MetaRegistry)
        ensures
            r.entries_spec().len() == 0,
            r.wf(),
    {
        MetaRegistry { entries: Vec::new() }
    }

    /// Registers a bundled metaobject under its declared type name. A name
    /// already registered is left exactly as it was — the repeat is a no-op —
    /// and the result says whether this call was the one that registered it.
    pub fn register(&mut self, meta: QMeta) -> (fresh: bool)
        requires
            old(self).wf(),
        ensures
            final(self).wf(),
            final(self).entries_spec() == spec_register(old(self).entries_spec(), meta),
            fresh == !has_declared_name(old(self).entries_spec(), meta.declared_name()),
    {
        let found = self.find(meta.definition().name.as_str());
        match found {
            Some(_) => false,
            None => {
                self.entries.push(meta);
                true
            },
        }
    }

    /// The position of the registration carrying the declared type name, if
    /// any.
    fn find(&self, name: &str) -> (r: Option<usize>)
        ensures
            (match r {
                Some(i) => 0 <= i < self.entries_spec().len()
                    && self.entries_spec()[i as int].declared_name() == name@,
                None => !has_declared_name(self.entries_spec(), name@),
            }),
    {
        let wanted = name.to_owned();
        let mut i: usize = 0;
        while i < self.entries.len()
            invariant
                i <= self.entries_spec().len(),
                wanted@ == name@,
                forall|j: int|
                    0 <= j < i ==> (#[trigger] self.entries_spec()[j]).declared_name() != name@,
            decreases self.entries_spec().len() - i,
        {
            if self.entries[i].definition().name == wanted {
                return Some(i);
            }
            i = i + 1;
        }
        None
    }

    /// The metaobject handle registered under a declared type name, if any.
    pub fn lookup(&self, name: &str) -> (r: Option<MetaObjectHandle>)
        ensures
            (match r {
                Some(h) => (exists|i: int|
                    0 <= i < self.entries_spec().len() && (#[trigger] self.entries_spec()[i]).declared_name()
                        == name@ && h == self.entries_spec()[i].handle_spec()),
                None => !has_declared_name(self.entries_spec(), name@),
            }),
    {
        match self.find(name) {
            Some(i) => Some(crate::qmeta::get_dos_qmeta(&self.entries[i])),
            None => None,
        }
    }
}

/// Registration is idempotent: registering the same metaobject a second time
/// under its declared type name leaves the entries exactly as the first
/// registration left them.
pub proof fn lemma_register_idempotent(entries: Seq<QMeta>, meta: QMeta)
    ensures
        spec_register(spec_register(entries, meta), meta) == spec_register(entries, meta),
{
    let once = spec_register(entries, meta);
    if !has_declared_name(entries, meta.declared_name()) {
        assert(once[entries.len() as int] == meta);
        assert(has_declared_name(once, meta.declared_name()));
    }
}

} // verus!
