use vstd::prelude::*;

verus! {

/// The closed set of plain values an operation node consumes and produces.
///
/// A 32-bit float is carried as its IEEE-754 bit pattern; the host adapter
/// converts it to and from a native float at the boundary. `StreamPointer`
/// and `FunctionPointer` are opaque marker kinds with no cross-boundary
/// representation: a host adapter must reject them instead of coercing.
#[derive(Debug, PartialEq)]
pub enum Value {
    Null,
    Boolean(bool),
    Number(i32),
    Float(u32),
    Text(String),
    Array(Vec<Value>),
    Object(Vec<(String, Value)>),
    StreamPointer(u32),
    FunctionPointer(u32),
}

/// Opaque, caller-owned mutable context threaded through invocations by
/// value: one instance moves into each invocation, and a backend may hand
/// back a replacement through the output envelope. The engine never reads
/// inside it.
#[derive(Clone, Debug, PartialEq, Eq, Structural)]
pub struct ExecutionState {
    pub id: u64,
}

/// Whether a value can cross the host boundary: `StreamPointer` and
/// `FunctionPointer` have no cross-boundary representation, at any depth.
pub open spec fn marshalable(v: Value) -> bool
    decreases v,
{
    match v {
        Value::StreamPointer(_) => false,
        Value::FunctionPointer(_) => false,
        Value::Array(items) => forall|i: int|
            0 <= i < items@.len() ==> marshalable(#[trigger] items@[i]),
        Value::Object(fields) => forall|i: int|
            0 <= i < fields@.len() ==> marshalable((#[trigger] fields@[i]).1),
        _ => true,
    }
}

/// Decides whether a value can cross the host boundary, so an adapter can
/// reject the opaque marker kinds instead of silently coercing them.
pub fn check_marshalable(v: &Value) -> (r: bool)
    ensures
        r == marshalable(*v),
    decreases *v,
{
    match v {
        Value::StreamPointer(_) => false,
        Value::FunctionPointer(_) => false,
        Value::Array(items) => {
            let mut i: usize = 0;
            while i < items.len()
                invariant
                    *v == Value::Array(*items),
                    0 <= i <= items@.len(),
                    forall|j: int| 0 <= j < i ==> marshalable(#[trigger] items@[j]),
                decreases items@.len() - i,
            {
                proof {
                    vstd::seq::axiom_seq_index_decreases::<Value>(items@, i as int);
                    assert(decreases_to!(*v => v->Array_0));
                    assert(decreases_to!(*items => items@));
                }
                if !check_marshalable(&items[i]) {
                    proof {
                        assert(!marshalable(items@[i as int]));
                        assert(!marshalable(*v)) by {
                            assert(*v == Value::Array(*items));
                            assert(!(forall|j: int|
                                0 <= j < items@.len() ==> marshalable(#[trigger] items@[j])));
                        }
                    }
                    return false;
                }
                i += 1;
            }
            true
        },
        Value::Object(fields) => {
            let mut i: usize = 0;
            while i < fields.len()
                invariant
                    *v == Value::Object(*fields),
                    0 <= i <= fields@.len(),
                    forall|j: int| 0 <= j < i ==> marshalable((#[trigger] fields@[j]).1),
                decreases fields@.len() - i,
            {
                proof {
                    vstd::seq::axiom_seq_index_decreases::<(String, Value)>(fields@, i as int);
                    assert(decreases_to!(*v => v->Object_0));
                    assert(decreases_to!(*fields => fields@));
                    assert(decreases_to!(fields@[i as int] => fields@[i as int].1));
                }
                if !check_marshalable(&fields[i].1) {
                    proof {
                        assert(!marshalable((fields@[i as int]).1));
                        assert(!marshalable(*v)) by {
                            assert(*v == Value::Object(*fields));
                            assert(!(forall|j: int|
                                0 <= j < fields@.len() ==> marshalable((#[trigger] fields@[j]).1)));
                        }
                    }
                    return false;
                }
                i += 1;
            }
            true
        },
        _ => true,
    }
}

/// The value under the first entry of `fields` named `key`, if any.
pub open spec fn object_entry(fields: Seq<(String, Value)>, key: Seq<char>) -> Option<Value>
    decreases fields.len(),
{
    if fields.len() == 0 {
        None
    } else if fields[0].0@ == key {
        Some(fields[0].1)
    } else {
        object_entry(fields.drop_first(), key)
    }
}

proof fn lemma_object_entry_skip(fields: Seq<(String, Value)>, key: Seq<char>, i: int)
    requires
        0 <= i <= fields.len(),
        forall|j: int| 0 <= j < i ==> (#[trigger] fields[j]).0@ != key,
    ensures
        object_entry(fields, key) == object_entry(fields.skip(i), key),
    decreases i,
{
    if i > 0 {
        assert(fields.skip(i - 1).drop_first() =~= fields.skip(i));
        lemma_object_entry_skip(fields, key, i - 1);
        assert(fields.skip(i - 1)[0] == fields[i - 1]);
    } else {
        assert(fields.skip(0) =~= fields);
    }
}

/// The position of the first entry of `fields` named `key`, if any.
fn find_entry_index(fields: &Vec<(String, Value)>, key: &String) -> (r: Option<usize>)
    ensures
        match r {
            Some(i) => i < fields@.len() && fields@[i as int].0@ == key@ && (forall|j: int|
                0 <= j < i ==> (#[trigger] fields@[j]).0@ != key@),
            None => forall|j: int|
                0 <= j < fields@.len() ==> (#[trigger] fields@[j]).0@ != key@,
        },
{
    let mut i: usize = 0;
    while i < fields.len()
        invariant
            0 <= i <= fields@.len(),
            forall|j: int| 0 <= j < i ==> (#[trigger] fields@[j]).0@ != key@,
        decreases fields@.len() - i,
    {
        if fields[i].0.eq(key) {
            return Some(i);
        }
        i += 1;
    }
    None
}

/// Takes ownership of the value under the first entry named `key`, if any.
pub fn take_object_entry(fields: Vec<(String, Value)>, key: &String) -> (r: Option<Value>)
    ensures
        r == object_entry(fields@, key@),
{
    match find_entry_index(&fields, key) {
        Some(i) => {
            proof {
                lemma_object_entry_skip(fields@, key@, i as int);
                let s = fields@.skip(i as int);
                assert(s[0] == fields@[i as int]);
                assert(object_entry(s, key@) == Some(s[0].1));
            }
            let mut fields = fields;
            let entry = fields.swap_remove(i);
            Some(entry.1)
        },
        None => {
            proof {
                lemma_object_entry_skip(fields@, key@, fields@.len() as int);
                let s = fields@.skip(fields@.len() as int);
                assert(s.len() == 0);
                assert(object_entry(s, key@) is None);
            }
            None
        },
    }
}

} // verus!
