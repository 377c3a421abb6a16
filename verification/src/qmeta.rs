//! Descriptor builder and metadata registration: turns signal and slot
//! declarations into the fixed-layout descriptor tables the external runtime
//! reads, and bundles a built definition with the metaobject handle obtained
//! for it so neither can outlive the other.
//!
//! Every backing sequence (parameter code arrays, descriptor records, summary
//! structs) is owned by the `QMetaDefinition` itself, so a summary's declared
//! count always refers to storage that is still alive.

use vstd::prelude::*;

use crate::marshal::{spec_kind_code, kind_code, ValueKind};

verus! {

/// Type code the external runtime uses for a slot's unused return value.
pub const VOID_RETURN_CODE: i32 = 43;

/// Largest entry count a descriptor table can declare: the summary structs
/// store counts in an `i32` field.
pub const MAX_TABLE_LEN: usize = 0x7fff_ffff;

/// A declared signal: its name and the kinds of its parameters, in order.
#[derive(Debug)]
pub struct SignalDeclaration {
    /// The signal's name, matched exactly at emission.
    pub name: String,
    /// The declared parameter kinds, in parameter order.
    pub params: Vec<ValueKind>,
}

/// A declared slot: its name and the kinds of its parameters, in order.
#[derive(Debug)]
pub struct SlotDeclaration {
    /// The slot's name, matched exactly at dispatch.
    pub name: String,
    /// The declared parameter kinds, in parameter order.
    pub params: Vec<ValueKind>,
}

/// One signal record in the runtime's expected layout: name, parameter count,
/// and the parameter type codes the count refers to.
#[derive(Debug)]
pub struct SignalDefinition {
    /// The signal's name; the record owns it for the table's whole lifetime.
    pub name: String,
    /// Number of parameters; always the length of `parameters_meta_types`.
    pub parameters_count: i32,
    /// The runtime's numeric type code of each parameter, in order.
    pub parameters_meta_types: Vec<i32>,
}

/// One slot record: as a signal record, plus the return type code.
#[derive(Debug)]
pub struct SlotDefinition {
    /// The slot's name; the record owns it for the table's whole lifetime.
    pub name: String,
    /// Type code of the return value; `VOID_RETURN_CODE` while unused.
    pub return_meta_type: i32,
    /// Number of parameters; always the length of `parameters_meta_types`.
    pub parameters_count: i32,
    /// The runtime's numeric type code of each parameter, in order.
    pub parameters_meta_types: Vec<i32>,
}

/// One property record; reserved, never built with entries here.
#[derive(Debug)]
pub struct PropertyDefinition {
    /// The property's name.
    pub name: String,
    /// Type code of the property's value.
    pub property_meta_type: i32,
    /// Name of the slot that reads the property.
    pub read_slot: String,
    /// Name of the slot that writes the property.
    pub write_slot: String,
    /// Name of the signal emitted when the property changes.
    pub notify_signal: String,
}

/// Summary of the signal table: the declared count and the records it counts.
#[derive(Debug)]
pub struct SignalDefinitions {
    /// How many records the table declares to the runtime.
    pub count: i32,
    /// The records themselves, owned by the summary.
    pub definitions: Vec<SignalDefinition>,
}

/// Summary of the slot table.
#[derive(Debug)]
pub struct SlotDefinitions {
    /// How many records the table declares to the runtime.
    pub count: i32,
    /// The records themselves, owned by the summary.
    pub definitions: Vec<SlotDefinition>,
}

/// Summary of the property table; always empty in this core.
#[derive(Debug)]
pub struct PropertyDefinitions {
    /// How many records the table declares to the runtime.
    pub count: i32,
    /// The records themselves, owned by the summary.
    pub definitions: Vec<PropertyDefinition>,
}

impl Default for PropertyDefinitions {
    /// The empty property table: no records, and a count that says so.
    fn default() -> (r: Self)
        ensures
            r.count == 0,
            r.definitions@.len() == 0,
    {
        PropertyDefinitions { count: 0, definitions: Vec::new() }
    }
}

/// A built signal record faithfully describes its declaration: same name,
/// a count equal to the number of declared parameters, and one runtime type
/// code per declared kind, in declaration order.
pub open spec fn signal_def_matches(decl: SignalDeclaration, def: SignalDefinition) -> bool {
    &&& def.name@ == decl.name@
    &&& def.parameters_count as int == decl.params@.len()
    &&& def.parameters_meta_types@.len() == decl.params@.len()
    &&& forall|j: int|
        0 <= j < decl.params@.len() ==> def.parameters_meta_types@[j] == spec_kind_code(
            decl.params@[j],
        )
}

/// A built slot record faithfully describes its declaration, with the fixed
/// placeholder return code.
pub open spec fn slot_def_matches(decl: SlotDeclaration, def: SlotDefinition) -> bool {
    &&& def.name@ == decl.name@
    &&& def.return_meta_type == VOID_RETURN_CODE
    &&& def.parameters_count as int == decl.params@.len()
    &&& def.parameters_meta_types@.len() == decl.params@.len()
    &&& forall|j: int|
        0 <= j < decl.params@.len() ==> def.parameters_meta_types@[j] == spec_kind_code(
            decl.params@[j],
        )
}

/// The aggregate metadata for one wrapped type: its descriptor tables and its
/// declared type name. Built once per type; consumed by registration.
#[derive(Debug)]
pub struct QMetaDefinition {
    /// The signal table.
    pub sig_defs: SignalDefinitions,
    /// The slot table.
    pub slot_defs: SlotDefinitions,
    /// The property table; always empty in this core.
    pub prop_defs: PropertyDefinitions,
    /// The declared name of the wrapped type.
    pub name: String,
}

impl QMetaDefinition {
    /// Central table invariant: every summary's declared count equals the
    /// number of records physically present, and every record's parameter
    /// count equals the length of its parameter code array.
    pub open spec fn wf(self) -> bool {
        &&& self.sig_defs.count as int == self.sig_defs.definitions@.len()
        &&& self.slot_defs.count as int == self.slot_defs.definitions@.len()
        &&& self.prop_defs.count as int == self.prop_defs.definitions@.len()
        &&& forall|i: int|
            0 <= i < self.sig_defs.definitions@.len()
                ==> (#[trigger] self.sig_defs.definitions@[i]).parameters_count as int
                == self.sig_defs.definitions@[i].parameters_meta_types@.len()
        &&& forall|i: int|
            0 <= i < self.slot_defs.definitions@.len()
                ==> (#[trigger] self.slot_defs.definitions@[i]).parameters_count as int
                == self.slot_defs.definitions@[i].parameters_meta_types@.len()
    }

    /// Builds the metadata for one type from its ordered signal and slot
    /// declarations: one record per declaration, in declaration order, each
    /// parameter kind mapped to the runtime's type code, and an always-empty
    /// property table.
    pub fn new(signals: Vec<SignalDeclaration>, slots: Vec<SlotDeclaration>, name: String) -> (def:
        Self)
        requires
            signals@.len() <= MAX_TABLE_LEN,
            slots@.len() <= MAX_TABLE_LEN,
            forall|i: int|
                0 <= i < signals@.len() ==> (#[trigger] signals@[i]).params@.len()
                    <= MAX_TABLE_LEN,
            forall|i: int|
                0 <= i < slots@.len() ==> (#[trigger] slots@[i]).params@.len() <= MAX_TABLE_LEN,
        ensures
            def.wf(),
            def.name@ == name@,
            def.sig_defs.definitions@.len() == signals@.len(),
            forall|i: int|
                0 <= i < signals@.len() ==> signal_def_matches(
                    signals@[i],
                    #[trigger] def.sig_defs.definitions@[i],
                ),
            def.slot_defs.definitions@.len() == slots@.len(),
            forall|i: int|
                0 <= i < slots@.len() ==> slot_def_matches(
                    slots@[i],
                    #[trigger] def.slot_defs.definitions@[i],
                ),
            def.prop_defs.count == 0,
            def.prop_defs.definitions@.len() == 0,
    {
        let mut sig_list: Vec<SignalDefinition> = Vec::new();
        let mut i: usize = 0;
        while i < signals.len()
            invariant
                i <= signals@.len(),
                sig_list@.len() == i,
                forall|k: int|
                    0 <= k < i ==> signal_def_matches(signals@[k], #[trigger] sig_list@[k]),
                forall|k: int|
                    0 <= k < signals@.len() ==> (#[trigger] signals@[k]).params@.len()
                        <= MAX_TABLE_LEN,
            decreases signals@.len() - i,
        {
            let decl = &signals[i];
            let codes = kind_codes(&decl.params);
            let record = SignalDefinition {
                name: decl.name.clone(),
                parameters_count: decl.params.len() as i32,
                parameters_meta_types: codes,
            };
            sig_list.push(record);
            i = i + 1;
        }
        let sig_defs = SignalDefinitions { count: sig_list.len() as i32, definitions: sig_list };

        let mut slot_list: Vec<SlotDefinition> = Vec::new();
        let mut i: usize = 0;
        while i < slots.len()
            invariant
                i <= slots@.len(),
                slot_list@.len() == i,
                forall|k: int|
                    0 <= k < i ==> slot_def_matches(slots@[k], #[trigger] slot_list@[k]),
                forall|k: int|
                    0 <= k < slots@.len() ==> (#[trigger] slots@[k]).params@.len()
                        <= MAX_TABLE_LEN,
            decreases slots@.len() - i,
        {
            let decl = &slots[i];
            let codes = kind_codes(&decl.params);
            let record = SlotDefinition {
                name: decl.name.clone(),
                return_meta_type: VOID_RETURN_CODE,
                parameters_count: decl.params.len() as i32,
                parameters_meta_types: codes,
            };
            slot_list.push(record);
            i = i + 1;
        }
        let slot_defs = SlotDefinitions { count: slot_list.len() as i32, definitions: slot_list };

        QMetaDefinition { sig_defs, slot_defs, prop_defs: PropertyDefinitions::default(), name }
    }
}

/// Maps each declared parameter kind to the runtime's numeric type code, in
/// declaration order.
fn kind_codes(params: &Vec<ValueKind>) -> (codes: Vec<i32>)
    ensures
        codes@.len() == params@.len(),
        forall|j: int| 0 <= j < params@.len() ==> codes@[j] == spec_kind_code(params@[j]),
{
    let mut codes: Vec<i32> = Vec::new();
    let mut j: usize = 0;
    while j < params.len()
        invariant
            j <= params@.len(),
            codes@.len() == j,
            forall|k: int| 0 <= k < j ==> codes@[k] == spec_kind_code(params@[k]),
        decreases params@.len() - j,
    {
        codes.push(kind_code(params[j]));
        j = j + 1;
    }
    codes
}

/// Opaque identity the external runtime returns for a registered type shape.
/// Shared read-only by every instance of the type; the raw identity is kept
/// as a plain value.
#[derive(Clone, Copy, PartialEq, Eq, Structural, Debug)]
pub struct MetaObjectHandle {
    /// The runtime's identity for the registered shape.
    pub id: usize,
}

/// A registered metaobject: the handle the external runtime returned, bundled
/// with the definition whose tables back it. Keeping the two in one value is
/// what prevents the tables from being dropped while the handle is alive.
#[derive(Debug)]
pub struct QMeta {
    ptr: MetaObjectHandle,
    def: QMetaDefinition,
}

impl QMeta {
    /// The handle the runtime returned for this registration.
    pub closed spec fn handle_spec(self) -> MetaObjectHandle {
        self.ptr
    }

    /// The definition whose tables back this registration.
    pub closed spec fn def_spec(self) -> QMetaDefinition {
        self.def
    }

    /// The declared name of the type this registration describes.
    pub open spec fn declared_name(self) -> Seq<char> {
        self.def_spec().name@
    }

    /// Bundles a definition with the metaobject handle the external runtime
    /// returned for it, so the tables stay alive as long as the handle does.
    pub fn new_for_qobject(def: QMetaDefinition, handle: MetaObjectHandle) -> (m: QMeta)
        ensures
            m.handle_spec() == handle,
            m.def_spec() == def,
    {
        QMeta { ptr: handle, def }
    }

    /// Read access to the bundled definition.
    pub fn definition(&self) -> (d: &QMetaDefinition)
        ensures
            *d == self.def_spec(),
    {
        &self.def
    }
}

/// The raw metaobject handle of a registration, for handing back to the
/// external runtime when instances of the type are constructed.
pub fn get_dos_qmeta(meta: &QMeta) -> (h: MetaObjectHandle)
    ensures
        h == meta.handle_spec(),
{
    meta.ptr
}

} // verus!
