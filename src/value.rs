use vstd::prelude::*;

verus! {

/// The kinds of value that a bound parameter or a column can hold.
#[derive(Clone, Copy, Debug, PartialEq, Eq, Structural)]
pub enum ValueKind {
    Boolean,
    Float,
    Double,
    Int32,
    Int64,
    Text,
}

/// A typed scalar. Floating-point values travel as their IEEE-754 bit
/// patterns (`Float` holds the 32 bits of an `f32`, `Double` the 64 bits of
/// an `f64`), so that carrying one through the library is bit-exact.
#[derive(Debug)]
pub enum Value {
    Boolean(bool),
    Float(u32),
    Double(u64),
    Int32(i32),
    Int64(i64),
    Text(String),
}

impl Value {
    /// The kind of this value.
    pub open spec fn kind_of(&self) -> ValueKind {
        match self {
            Value::Boolean(_) => ValueKind::Boolean,
            Value::Float(_) => ValueKind::Float,
            Value::Double(_) => ValueKind::Double,
            Value::Int32(_) => ValueKind::Int32,
            Value::Int64(_) => ValueKind::Int64,
            Value::Text(_) => ValueKind::Text,
        }
    }

    /// The kind of this value.
    pub fn kind(&self) -> (r: ValueKind)
        ensures
            r == self.kind_of(),
    {
        match self {
            Value::Boolean(_) => ValueKind::Boolean,
            Value::Float(_) => ValueKind::Float,
            Value::Double(_) => ValueKind::Double,
            Value::Int32(_) => ValueKind::Int32,
            Value::Int64(_) => ValueKind::Int64,
            Value::Text(_) => ValueKind::Text,
        }
    }

    /// An identical copy of this value.
    pub fn duplicate(&self) -> (r: Value)
        ensures
            r == *self,
    {
        match self {
            Value::Boolean(b) => Value::Boolean(*b),
            Value::Float(bits) => Value::Float(*bits),
            Value::Double(bits) => Value::Double(*bits),
            Value::Int32(n) => Value::Int32(*n),
            Value::Int64(n) => Value::Int64(*n),
            Value::Text(s) => Value::Text(s.clone()),
        }
    }
}

/// A copy of a sequence of values, element for element.
pub fn duplicate_all(values: &Vec<Value>) -> (r: Vec<Value>)
    ensures
        r@ == values@,
{
    let mut r: Vec<Value> = Vec::new();
    let mut i: usize = 0;
    while i < values.len()
        invariant
            i <= values@.len(),
            r@ == values@.subrange(0, i as int),
        decreases values@.len() - i,
    {
        r.push(values[i].duplicate());
        i = i + 1;
    }
    assert(r@ =~= values@);
    r
}

} // verus!
