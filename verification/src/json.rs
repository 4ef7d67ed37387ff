//! The untyped value tree of the tool-invocation protocol.
//!
//! Argument objects and structured content items are trees of
//! [`JsonValue`]. The bridge never parses or prints text at this level;
//! the protocol runtime hands it a finished tree and takes one back.

use vstd::prelude::*;

verus! {

/// An untyped protocol value.
#[derive(Debug, PartialEq, Eq)]
pub enum JsonValue {
    Null,
    Bool(bool),
    Int(i64),
    Text(String),
    Array(Vec<JsonValue>),
    Object(Vec<(String, JsonValue)>),
}

/// The value bound to `name` among `fields`; the first binding wins when a
/// key is repeated.
pub open spec fn lookup_field(fields: Seq<(String, JsonValue)>, name: Seq<char>) -> Option<
    JsonValue,
>
    decreases fields.len(),
{
    if fields.len() == 0 {
        None
    } else if fields[0].0@ == name {
        Some(fields[0].1)
    } else {
        lookup_field(fields.drop_first(), name)
    }
}

/// Skipping bindings whose keys differ from `name` does not change what the
/// lookup finds.
proof fn lemma_lookup_skip(fields: Seq<(String, JsonValue)>, name: Seq<char>, i: int)
    requires
        0 <= i <= fields.len(),
        forall|j: int| 0 <= j < i ==> fields[j].0@ != name,
    ensures
        lookup_field(fields, name) == lookup_field(fields.subrange(i, fields.len() as int), name),
    decreases i,
{
    if i > 0 {
        lemma_lookup_skip(fields, name, i - 1);
        let tail = fields.subrange(i - 1, fields.len() as int);
        assert(tail[0] == fields[i - 1]);
        assert(tail.drop_first() =~= fields.subrange(i, fields.len() as int));
    } else {
        assert(fields.subrange(0, fields.len() as int) =~= fields);
    }
}

/// A borrowed view of the binding of `name` in an argument object.
pub fn get_field<'a>(fields: &'a Vec<(String, JsonValue)>, name: &String) -> (r: Option<
    &'a JsonValue,
>)
    ensures
        r matches Some(v) ==> lookup_field(fields@, name@) == Some(*v),
        r is None ==> lookup_field(fields@, name@) is None,
{
    let n = fields.len();
    for i in 0..n
        invariant
            n == fields@.len(),
            forall|j: int| 0 <= j < i ==> fields@[j].0@ != name@,
    {
        if fields[i].0 == *name {
            proof {
                lemma_lookup_skip(fields@, name@, i as int);
                let tail = fields@.subrange(i as int, fields@.len() as int);
                assert(tail[0] == fields@[i as int]);
            }
            return Some(&fields[i].1);
        }
    }
    proof {
        lemma_lookup_skip(fields@, name@, fields@.len() as int);
    }
    None
}

} // verus!
