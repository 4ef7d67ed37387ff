//! The typed schema layer.
//!
//! Each tool declares its input fields with documentation strings that are
//! surfaced verbatim to protocol clients, and an argument object is
//! validated against that declaration before any handler runs: every
//! required field must be present with the declared top-level type, or the
//! invocation is rejected naming the first field that failed — never
//! handed on partially filled.

use vstd::prelude::*;

use crate::error::BridgeError;
use crate::json::{lookup_field, JsonValue};

verus! {

/// The top-level type a schema field requires of its binding.
#[derive(Debug, Clone, Copy, PartialEq, Eq, Structural)]
pub enum FieldKind {
    Bool,
    Int,
    Text,
    Array,
    Object,
}

/// One declared input field of a tool: its name, the documentation string
/// shown to clients, the type its binding must have, and whether a binding
/// is required at all.
#[derive(Debug)]
pub struct FieldSchema {
    pub name: String,
    pub description: String,
    pub kind: FieldKind,
    pub required: bool,
}

/// A tool as the protocol lists it: a name unique within its server, a
/// description, and the declared input fields.
#[derive(Debug)]
pub struct ToolDescriptor {
    pub name: String,
    pub description: String,
    pub input_schema: Vec<FieldSchema>,
}

/// Whether a value has the top-level type a field kind requires.
pub open spec fn kind_matches(v: JsonValue, k: FieldKind) -> bool {
    match k {
        FieldKind::Bool => v is Bool,
        FieldKind::Int => v is Int,
        FieldKind::Text => v is Text,
        FieldKind::Array => v is Array,
        FieldKind::Object => v is Object,
    }
}

/// Whether one declared field is satisfied by an argument object: bound
/// with the declared type, or not bound at all if the field is optional.
pub open spec fn field_ok(f: FieldSchema, args: Seq<(String, JsonValue)>) -> bool {
    match lookup_field(args, f.name@) {
        Some(v) => kind_matches(v, f.kind),
        None => !f.required,
    }
}

/// Whether `i` points at the first field of `schema` that `args` fails.
pub open spec fn first_failed_field(
    schema: Seq<FieldSchema>,
    args: Seq<(String, JsonValue)>,
    i: int,
) -> bool {
    &&& 0 <= i < schema.len()
    &&& !field_ok(schema[i], args)
    &&& forall|j: int| 0 <= j < i ==> field_ok(#[trigger] schema[j], args)
}

/// Whether a value has the top-level type a field kind requires.
pub fn check_kind(v: &JsonValue, k: FieldKind) -> (r: bool)
    ensures
        r == kind_matches(*v, k),
{
    match k {
        FieldKind::Bool => matches!(v, JsonValue::Bool(_)),
        FieldKind::Int => matches!(v, JsonValue::Int(_)),
        FieldKind::Text => matches!(v, JsonValue::Text(_)),
        FieldKind::Array => matches!(v, JsonValue::Array(_)),
        FieldKind::Object => matches!(v, JsonValue::Object(_)),
    }
}

/// Validates an argument object against a tool's declared fields.
///
/// Accepts exactly when every declared field is satisfied; otherwise the
/// rejection names the first field that failed, and the argument object is
/// never handed on partially filled or defaulted.
pub fn validate_arguments(schema: &Vec<FieldSchema>, args: &Vec<(String, JsonValue)>) -> (r:
    Result<(), BridgeError>)
    ensures
        r is Ok <==> (forall|i: int|
            0 <= i < schema@.len() ==> field_ok(#[trigger] schema@[i], args@)),
        r matches Err(e) ==> e matches BridgeError::InvalidArguments { field } && exists|i: int|
            first_failed_field(schema@, args@, i) && field@ == schema@[i].name@,
{
    let n = schema.len();
    for i in 0..n
        invariant
            n == schema@.len(),
            forall|j: int| 0 <= j < i ==> field_ok(#[trigger] schema@[j], args@),
    {
        let ok = match crate::json::get_field(args, &schema[i].name) {
            Some(v) => check_kind(v, schema[i].kind),
            None => !schema[i].required,
        };
        if !ok {
            proof {
                assert(first_failed_field(schema@, args@, i as int));
            }
            return Err(BridgeError::InvalidArguments { field: schema[i].name.clone() });
        }
    }
    Ok(())
}

} // verus!
