use vstd::prelude::*;

verus! {

/// A handle to a host-runtime value, modelled by the plain data that the
/// dispatch core can observe through the conversion contracts: nil, booleans,
/// integers, byte strings and arrays. The host owns every such value; a
/// handle is only valid for the duration of the call that produced it.
///
/// Host integers are unbounded; the model keeps them wide enough to hold
/// every value of the native integer types, and values past each bound, so
/// that out-of-range conversions are representable.
#[derive(Debug, PartialEq, Eq)]
pub enum Value {
    /// The host's nil.
    Nil,
    /// A host boolean.
    Boolean(bool),
    /// A host integer.
    Integer(i128),
    /// A host string: a sequence of bytes, as the host stores it.
    Text(Vec<u8>),
    /// A host array of values.
    List(Vec<Value>),
}

impl Value {
    /// Whether the handle is the host's nil.
    pub fn is_nil(&self) -> (r: bool)
        ensures
            r == (self matches Value::Nil),
    {
        matches!(self, Value::Nil)
    }

    /// The host's notion of truth: every value but nil and false is true.
    pub open spec fn truthy(self) -> bool {
        match self {
            Value::Nil => false,
            Value::Boolean(b) => b,
            _ => true,
        }
    }

    /// Evaluate the handle under the host's notion of truth.
    pub fn to_bool(&self) -> (r: bool)
        ensures
            r == self.truthy(),
    {
        match self {
            Value::Nil => false,
            Value::Boolean(b) => *b,
            _ => true,
        }
    }
}

} // verus!
