//! Value marshaler: bidirectional conversion between the dynamically typed
//! values exchanged with the external object runtime and the host types that
//! may appear as signal or slot parameters. Each supported host type maps to
//! exactly one `ValueKind`, and the marshaler owns the mapping from kinds to
//! the runtime's numeric type codes.

use vstd::prelude::*;

verus! {

/// Tag identifying how a dynamic value is encoded. The set is closed: every
/// host type used in a declaration maps to exactly one kind.
#[derive(Clone, Copy, PartialEq, Eq, Structural, Debug)]
pub enum ValueKind {
    /// A host `bool`.
    Bool,
    /// A host `i32`.
    Int,
    /// A host `String`.
    Text,
}

/// The numeric type code the external runtime uses for each value kind.
/// These match the runtime's own type-id enumeration, not an internal choice.
pub open spec fn spec_kind_code(k: ValueKind) -> i32 {
    match k {
        ValueKind::Bool => 1,
        ValueKind::Int => 2,
        ValueKind::Text => 10,
    }
}

/// Maps a value kind to the external runtime's numeric type code.
pub fn kind_code(k: ValueKind) -> (code: i32)
    ensures
        code == spec_kind_code(k),
{
    match k {
        ValueKind::Bool => 1,
        ValueKind::Int => 2,
        ValueKind::Text => 10,
    }
}

/// A tagged, runtime-typed value as it crosses the boundary to or from the
/// external runtime. Each variant holds the payload of exactly one host type.
#[derive(PartialEq, Eq, Debug)]
pub enum DynamicValue {
    /// An integer payload.
    Int(i32),
    /// A text payload.
    Text(String),
    /// A boolean payload.
    Bool(bool),
}

/// The kind a dynamic value is tagged with.
pub open spec fn kind_of(v: DynamicValue) -> ValueKind {
    match v {
        DynamicValue::Int(_) => ValueKind::Int,
        DynamicValue::Text(_) => ValueKind::Text,
        DynamicValue::Bool(_) => ValueKind::Bool,
    }
}

/// Reads the kind tag of a dynamic value.
pub fn value_kind(v: &DynamicValue) -> (k: ValueKind)
    ensures
        k == kind_of(*v),
{
    match v {
        DynamicValue::Int(_) => ValueKind::Int,
        DynamicValue::Text(_) => ValueKind::Text,
        DynamicValue::Bool(_) => ValueKind::Bool,
    }
}

/// Failure of a single conversion from a dynamic value to a host type: the
/// value's tag does not match the kind the receiver declared.
#[derive(Clone, Copy, PartialEq, Eq, Structural, Debug)]
pub struct MarshalError {
    /// The kind the receiving position declared.
    pub expected: ValueKind,
    /// The kind the dynamic value actually carries.
    pub got: ValueKind,
}

/// What converting a host integer to a dynamic value yields.
pub open spec fn spec_to_dynamic_int(v: i32) -> DynamicValue {
    DynamicValue::Int(v)
}

/// What converting a host text to a dynamic value yields.
pub open spec fn spec_to_dynamic_text(v: String) -> DynamicValue {
    DynamicValue::Text(v)
}

/// What converting a host boolean to a dynamic value yields.
pub open spec fn spec_to_dynamic_bool(v: bool) -> DynamicValue {
    DynamicValue::Bool(v)
}

/// What converting a dynamic value back to a host integer yields: the payload
/// when the tag is `Int`, otherwise a kind mismatch.
pub open spec fn spec_from_dynamic_int(v: DynamicValue) -> Result<i32, MarshalError> {
    match v {
        DynamicValue::Int(i) => Ok(i),
        _ => Err(MarshalError { expected: ValueKind::Int, got: kind_of(v) }),
    }
}

/// What converting a dynamic value back to a host text yields.
pub open spec fn spec_from_dynamic_text(v: DynamicValue) -> Result<String, MarshalError> {
    match v {
        DynamicValue::Text(s) => Ok(s),
        _ => Err(MarshalError { expected: ValueKind::Text, got: kind_of(v) }),
    }
}

/// What converting a dynamic value back to a host boolean yields.
pub open spec fn spec_from_dynamic_bool(v: DynamicValue) -> Result<bool, MarshalError> {
    match v {
        DynamicValue::Bool(b) => Ok(b),
        _ => Err(MarshalError { expected: ValueKind::Bool, got: kind_of(v) }),
    }
}

/// Wraps a host integer as a dynamic value tagged `Int`.
pub fn to_dynamic_int(v: i32) -> (r: DynamicValue)
    ensures
        r == spec_to_dynamic_int(v),
{
    DynamicValue::Int(v)
}

/// Wraps a host text as a dynamic value tagged `Text`.
pub fn to_dynamic_text(v: String) -> (r: DynamicValue)
    ensures
        r == spec_to_dynamic_text(v),
{
    DynamicValue::Text(v)
}

/// Wraps a host boolean as a dynamic value tagged `Bool`.
pub fn to_dynamic_bool(v: bool) -> (r: DynamicValue)
    ensures
        r == spec_to_dynamic_bool(v),
{
    DynamicValue::Bool(v)
}

/// Converts a dynamic value to a host integer; kinds are never coerced, so
/// any tag other than `Int` is a mismatch.
pub fn from_dynamic_int(v: DynamicValue) -> (r: Result<i32, MarshalError>)
    ensures
        r == spec_from_dynamic_int(v),
{
    match v {
        DynamicValue::Int(i) => Ok(i),
        other => Err(MarshalError { expected: ValueKind::Int, got: value_kind(&other) }),
    }
}

/// Converts a dynamic value to a host text.
pub fn from_dynamic_text(v: DynamicValue) -> (r: Result<String, MarshalError>)
    ensures
        r == spec_from_dynamic_text(v),
{
    match v {
        DynamicValue::Text(s) => Ok(s),
        other => Err(MarshalError { expected: ValueKind::Text, got: value_kind(&other) }),
    }
}

/// Converts a dynamic value to a host boolean.
pub fn from_dynamic_bool(v: DynamicValue) -> (r: Result<bool, MarshalError>)
    ensures
        r == spec_from_dynamic_bool(v),
{
    match v {
        DynamicValue::Bool(b) => Ok(b),
        other => Err(MarshalError { expected: ValueKind::Bool, got: value_kind(&other) }),
    }
}

/// Marshaling round trip for integers: wrapping a host integer and converting
/// it back at its own kind yields the original value.
pub proof fn lemma_round_trip_int(v: i32)
    ensures
        spec_from_dynamic_int(spec_to_dynamic_int(v)) == Ok::<i32, MarshalError>(v),
{
}

/// Marshaling round trip for text: wrapping a host text and converting it
/// back at its own kind yields the original value.
pub proof fn lemma_round_trip_text(v: String)
    ensures
        spec_from_dynamic_text(spec_to_dynamic_text(v)) == Ok::<String, MarshalError>(v),
{
}

/// Marshaling round trip for booleans: wrapping a host boolean and converting
/// it back at its own kind yields the original value.
pub proof fn lemma_round_trip_bool(v: bool)
    ensures
        spec_from_dynamic_bool(spec_to_dynamic_bool(v)) == Ok::<bool, MarshalError>(v),
{
}

/// A value whose tag equals the declared kind converts at that kind without
/// failure; once every argument of a slot call has passed the kind check,
/// every conversion the host method makes succeeds.
pub proof fn lemma_matching_kind_converts(v: DynamicValue, k: ValueKind)
    requires
        kind_of(v) == k,
    ensures
        k == ValueKind::Int ==> spec_from_dynamic_int(v) is Ok,
        k == ValueKind::Text ==> spec_from_dynamic_text(v) is Ok,
        k == ValueKind::Bool ==> spec_from_dynamic_bool(v) is Ok,
{
}

} // verus!
