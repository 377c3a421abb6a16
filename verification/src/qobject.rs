//! Object wrapper, signal emission and slot dispatch: a wrapper owns one host
//! object and the native handle the external runtime issued for it, signal
//! emission marshals arguments in declared order into one synchronous request
//! for the runtime's emission entry point, and dispatch routes a runtime slot
//! call by exact name with arity and kind checking before the host method runs.

use vstd::prelude::*;

use crate::marshal::{kind_of, value_kind, DynamicValue, ValueKind};
use crate::qmeta::{QMetaDefinition, SlotDeclaration, MAX_TABLE_LEN};

verus! {

/// Opaque per-instance identity bridging one wrapper to the external
/// runtime's object graph; the raw identity is kept as a plain value.
#[derive(Clone, Copy, PartialEq, Eq, Structural, Debug)]
pub struct QObject {
    /// The runtime's identity for the native object.
    pub id: usize,
}

/// What a wrapped host type provides: per-type slot invocation and the
/// metadata that describes its signals and slots. Implemented by the user of
/// the library for each wrapped type.
pub trait QObjectMacro {
    /// Invokes the host method behind a declared slot. Called only after
    /// dispatch has checked the name, the arity and every argument kind.
    fn qslot_call(&mut self, name: &str, args: Vec<DynamicValue>);

    /// The type's metadata, as the descriptor builder shapes it.
    fn qmeta(&self) -> QMetaDefinition;
}

/// Owns exactly one host object and the native handle bound to it, together
/// with the type's declared slot table, which dispatch consults. The host
/// object stays in its heap cell for the wrapper's whole lifetime, since the
/// native handle was bound to that location at construction.
pub struct QObjectWrapper<T> {
    /// The wrapped host object, in its stable heap cell.
    pub origin: Box<T>,
    ptr: QObject,
    slots: Vec<SlotDeclaration>,
}

impl<T> QObjectWrapper<T> {
    /// The native handle the wrapper was constructed with.
    pub closed spec fn qobj_spec(self) -> QObject {
        self.ptr
    }

    /// The declared slot table dispatch routes against.
    pub closed spec fn slots_spec(self) -> Seq<SlotDeclaration> {
        self.slots@
    }

    /// The wrapped host object.
    pub closed spec fn origin_spec(self) -> T {
        *self.origin
    }

    /// Wraps a host object: takes exclusive ownership, moves it to stable
    /// heap storage, and binds it to the native handle the external runtime
    /// issued for that storage, together with the type's declared slots.
    pub fn new(origin: T, slots: Vec<SlotDeclaration>, qobj: QObject) -> (w: QObjectWrapper<T>)
        ensures
            w.origin_spec() == origin,
            w.qobj_spec() == qobj,
            w.slots_spec() == slots@,
    {
        QObjectWrapper { origin: Box::new(origin), ptr: qobj, slots }
    }

    /// Read access to the native handle; the wrapper never hands it out for
    /// mutation.
    pub fn get_qobj(&self) -> (q: &QObject)
        ensures
            *q == self.qobj_spec(),
    {
        &self.ptr
    }

    /// Marshals one emission of a declared signal from this wrapper's own
    /// object, arguments carried over exactly and in order.
    pub fn emit(&self, signalname: &str, args: Vec<DynamicValue>) -> (req: EmissionRequest)
        requires
            args@.len() <= MAX_TABLE_LEN,
        ensures
            req.object == self.qobj_spec(),
            req.name@ == signalname@,
            req.parameters_count as int == args@.len(),
            req.parameters@ == args@,
    {
        emit_signal(&self.ptr, signalname, args)
    }
}

/// One synchronous emission, ready for the external runtime's emission entry
/// point: the emitting object, the signal's name, and the marshaled arguments
/// with their declared count.
#[derive(Debug)]
pub struct EmissionRequest {
    /// The native object the signal is emitted from.
    pub object: QObject,
    /// The signal's name.
    pub name: String,
    /// How many arguments follow; always the length of `parameters`.
    pub parameters_count: i32,
    /// The marshaled arguments, in declared parameter order.
    pub parameters: Vec<DynamicValue>,
}

/// Marshals one signal emission: the arguments are carried over exactly and
/// in order, and the declared count equals their number.
pub fn emit_signal(obj: &QObject, signalname: &str, args: Vec<DynamicValue>) -> (req:
    EmissionRequest)
    requires
        args@.len() <= MAX_TABLE_LEN,
    ensures
        req.object == *obj,
        req.name@ == signalname@,
        req.parameters_count as int == args@.len(),
        req.parameters@ == args@,
{
    let count = args.len() as i32;
    EmissionRequest { object: *obj, name: signalname.to_owned(), parameters_count: count, parameters: args }
}

/// Why a slot call was refused before the host method ran.
#[derive(Clone, Copy, PartialEq, Eq, Structural, Debug)]
pub enum DispatchError {
    /// No declared slot carries the requested name.
    UnknownSlot,
    /// Fewer arguments were supplied than the slot declares parameters.
    ArityMismatch {
        /// How many parameters the slot declares.
        declared: usize,
        /// How many arguments were supplied.
        supplied: usize,
    },
    /// An argument's kind tag differs from the declared kind at its position.
    KindMismatch {
        /// The first parameter position whose kinds disagree.
        position: usize,
        /// The kind declared at that position.
        expected: ValueKind,
        /// The kind the supplied value carries.
        got: ValueKind,
    },
}

/// Index `i` names the first declared slot called `name`.
pub open spec fn is_first_match(slots: Seq<SlotDeclaration>, name: Seq<char>, i: int) -> bool {
    &&& 0 <= i < slots.len()
    &&& slots[i].name@ == name
    &&& forall|j: int| 0 <= j < i ==> (#[trigger] slots[j]).name@ != name
}

/// The first `upto` supplied arguments carry exactly the declared kinds.
pub open spec fn kinds_match_upto(params: Seq<ValueKind>, args: Seq<DynamicValue>, upto: int) -> bool {
    forall|q: int| 0 <= q < upto ==> kind_of(#[trigger] args[q]) == params[q]
}

/// A supplied call fits a slot's declaration: enough arguments, and every
/// declared position receives a value of its declared kind.
pub open spec fn call_fits(params: Seq<ValueKind>, args: Seq<DynamicValue>) -> bool {
    &&& args.len() >= params.len()
    &&& kinds_match_upto(params, args, params.len() as int)
}

/// Routes one slot call from the external runtime: finds the slot declared
/// under `slot_name` by exact match, checks that enough arguments were
/// supplied, checks each argument's kind at its position in order, and only
/// then invokes the host method. A refused call leaves the wrapper, host
/// object included, exactly as it was.
pub fn dispatch<T: QObjectMacro>(
    wrapper: &mut QObjectWrapper<T>,
    slot_name: &str,
    args: Vec<DynamicValue>,
) -> (r: Result<(), DispatchError>)
    ensures
        final(wrapper).qobj_spec() == old(wrapper).qobj_spec(),
        final(wrapper).slots_spec() == old(wrapper).slots_spec(),
        r is Err ==> *final(wrapper) == *old(wrapper),
        (match r {
            Ok(()) => (exists|i: int|
                is_first_match(old(wrapper).slots_spec(), slot_name@, i) && call_fits(
                    old(wrapper).slots_spec()[i].params@,
                    args@,
                )),
            Err(e) => (match e {
                DispatchError::UnknownSlot => (forall|j: int|
                    0 <= j < old(wrapper).slots_spec().len() ==> (#[trigger] old(
                        wrapper,
                    ).slots_spec()[j]).name@ != slot_name@),
                DispatchError::ArityMismatch { declared, supplied } => (exists|i: int|
                    is_first_match(old(wrapper).slots_spec(), slot_name@, i) && declared as int
                        == old(wrapper).slots_spec()[i].params@.len() && supplied as int
                        == args@.len() && args@.len() < old(wrapper).slots_spec()[i].params@.len()),
                DispatchError::KindMismatch { position, expected, got } => (exists|i: int|
                    {
                        &&& #[trigger] is_first_match(old(wrapper).slots_spec(), slot_name@, i)
                        &&& args@.len() >= old(wrapper).slots_spec()[i].params@.len()
                        &&& 0 <= position < old(wrapper).slots_spec()[i].params@.len()
                        &&& kinds_match_upto(
                            old(wrapper).slots_spec()[i].params@,
                            args@,
                            position as int,
                        )
                        &&& kind_of(args@[position as int]) != old(
                            wrapper,
                        ).slots_spec()[i].params@[position as int]
                        &&& expected == old(wrapper).slots_spec()[i].params@[position as int]
                        &&& got == kind_of(args@[position as int])
                    }),
            }),
        }),
{
    let index = match find_slot(&wrapper.slots, slot_name) {
        Some(i) => i,
        None => {
            return Err(DispatchError::UnknownSlot);
        },
    };
    let declared = wrapper.slots[index].params.len();
    proof {
        assert(is_first_match(old(wrapper).slots_spec(), slot_name@, index as int));
    }
    if args.len() < declared {
        return Err(DispatchError::ArityMismatch { declared, supplied: args.len() });
    }
    let mut p: usize = 0;
    while p < declared
        invariant
            declared == wrapper.slots_spec()[index as int].params@.len(),
            is_first_match(wrapper.slots_spec(), slot_name@, index as int),
            p <= declared,
            args@.len() >= declared,
            kinds_match_upto(wrapper.slots_spec()[index as int].params@, args@, p as int),
        decreases declared - p,
    {
        let want = wrapper.slots[index].params[p];
        let have = value_kind(&args[p]);
        if have != want {
            return Err(DispatchError::KindMismatch { position: p, expected: want, got: have });
        }
        p = p + 1;
    }
    wrapper.origin.qslot_call(slot_name, args);
    Ok(())
}

/// Finds the first declared slot with exactly the requested name.
fn find_slot(slots: &Vec<SlotDeclaration>, name: &str) -> (r: Option<usize>)
    ensures
        (match r {
            Some(i) => is_first_match(slots@, name@, i as int),
            None => (forall|j: int| 0 <= j < slots@.len() ==> (#[trigger] slots@[j]).name@ != name@),
        }),
{
    let wanted = name.to_owned();
    let mut i: usize = 0;
    while i < slots.len()
        invariant
            i <= slots@.len(),
            wanted@ == name@,
            forall|j: int| 0 <= j < i ==> (#[trigger] slots@[j]).name@ != name@,
        decreases slots@.len() - i,
    {
        if slots[i].name == wanted {
            return Some(i);
        }
        i = i + 1;
    }
    None
}

} // verus!
