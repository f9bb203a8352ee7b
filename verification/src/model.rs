//! The data of a document change, held as plain values.

use vstd::prelude::*;

verus! {

/// One step on the path from the document root to a changed object: a key
/// in a map or an index in a sequence.
#[derive(Debug, Clone)]
pub enum ChangeProp {
    Key(String),
    Index(usize),
}

/// The kind of a composite object in the document.
#[derive(Debug, Clone, Copy, PartialEq, Eq, Structural)]
pub enum ObjType {
    /// A map (named `Map` by automerge).
    Mapping,
    Table,
    List,
    Text,
}

/// A non-composite value stored in the document.
#[derive(Debug, Clone)]
pub enum ScalarValue {
    Bytes(Vec<u8>),
    Str(String),
    Int(i64),
    Uint(u64),
    /// A 64-bit float, held as its IEEE 754 bit pattern.
    F64(u64),
    /// A counter, held as its current value.
    Counter(i64),
    Timestamp(i64),
    Boolean(bool),
    /// A value of a type that a later version of the format defines.
    Unknown { type_code: u8, bytes: Vec<u8> },
    Null,
}

/// A value stored in the document: a composite object or a scalar.
#[derive(Debug, Clone)]
pub enum Value {
    Object(ObjType),
    Scalar(ScalarValue),
}

/// What a change did at the object it addresses.
#[derive(Debug, Clone)]
#[allow(inconsistent_fields)]
pub enum PatchAction {
    /// A key of a map was created or updated.
    PutMap { key: String, value: Value, conflict: bool },
    /// An index of a sequence was updated.
    PutSeq { index: usize, value: Value, conflict: bool },
    /// Values were inserted into a sequence, each with its conflict flag.
    Insert { index: usize, values: Vec<(Value, bool)> },
    /// Text was spliced into a text object.
    SpliceText { index: usize, value: String },
    /// A counter was incremented (by a possibly negative amount).
    Increment { prop: ChangeProp, value: i64 },
    /// A new conflict appeared at a property.
    Conflict { prop: ChangeProp },
    /// A key was deleted from a map.
    DeleteMap { key: String },
    /// Elements were removed from a sequence.
    DeleteSeq { index: usize, length: usize },
    /// Marks on a span of text were added or removed.
    Mark,
}

/// One observed change: where it happened and what it did.
///
/// `path` does not include the root: an empty path addresses the root
/// object itself, and `path[i]` is the step taken out of the object at
/// depth `i`.
#[derive(Debug, Clone)]
pub struct DocPatch {
    pub path: Vec<ChangeProp>,
    pub action: PatchAction,
}

impl ScalarValue {
    /// Whether two scalars hold the same value (byte strings compared by content).
    pub open spec fn same_as(self, other: ScalarValue) -> bool {
        match (self, other) {
            (ScalarValue::Bytes(a), ScalarValue::Bytes(b)) => a@ == b@,
            (ScalarValue::Str(a), ScalarValue::Str(b)) => a@ == b@,
            (
                ScalarValue::Unknown { type_code: t1, bytes: b1 },
                ScalarValue::Unknown { type_code: t2, bytes: b2 },
            ) => t1 == t2 && b1@ == b2@,
            _ => self == other,
        }
    }

    /// An owned copy of this scalar.
    pub fn to_owned(&self) -> (r: ScalarValue)
        ensures
            r.same_as(*self),
    {
        match self {
            ScalarValue::Bytes(b) => ScalarValue::Bytes(copy_bytes(b)),
            ScalarValue::Str(s) => ScalarValue::Str(s.clone()),
            ScalarValue::Int(i) => ScalarValue::Int(*i),
            ScalarValue::Uint(u) => ScalarValue::Uint(*u),
            ScalarValue::F64(bits) => ScalarValue::F64(*bits),
            ScalarValue::Counter(c) => ScalarValue::Counter(*c),
            ScalarValue::Timestamp(t) => ScalarValue::Timestamp(*t),
            ScalarValue::Boolean(b) => ScalarValue::Boolean(*b),
            ScalarValue::Unknown { type_code, bytes } => ScalarValue::Unknown {
                type_code: *type_code,
                bytes: copy_bytes(bytes),
            },
            ScalarValue::Null => ScalarValue::Null,
        }
    }
}

impl Value {
    /// Whether two values are the same object kind or the same scalar.
    pub open spec fn same_as(self, other: Value) -> bool {
        match (self, other) {
            (Value::Scalar(a), Value::Scalar(b)) => a.same_as(b),
            _ => self == other,
        }
    }

    /// An owned copy of this value.
    pub fn to_owned(&self) -> (r: Value)
        ensures
            r.same_as(*self),
    {
        match self {
            Value::Object(o) => Value::Object(*o),
            Value::Scalar(s) => Value::Scalar(s.to_owned()),
        }
    }
}

fn copy_bytes(b: &Vec<u8>) -> (r: Vec<u8>)
    ensures
        r@ == b@,
{
    let mut r: Vec<u8> = Vec::new();
    let mut i: usize = 0;
    while i < b.len()
        invariant
            i <= b.len(),
            r@ == b@.subrange(0, i as int),
        decreases b.len() - i,
    {
        r.push(b[i]);
        i = i + 1;
    }
    assert(b@.subrange(0, b.len() as int) =~= b@);
    r
}

} // verus!
