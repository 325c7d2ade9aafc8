use vstd::prelude::*;

use crate::value::Value;
use vstd::string::StrSliceExecFns;
use vstd::utf8::encode_utf8;

verus! {

/// Conversion from a native value to a host handle.
///
/// Producing a handle never fails: the host allocates it on the caller's
/// behalf. The contract assumes the call site does not re-enter a failure
/// path while the handle is being produced.
pub trait IntoValue {
    /// Relates a native value to the handle it converts into.
    spec fn is_value_of(self, v: Value) -> bool;

    /// Produce the handle for this value.
    fn into_value(self) -> (r: Value)
        ensures
            self.is_value_of(r),
    ;
}

impl IntoValue for Value {
    open spec fn is_value_of(self, v: Value) -> bool {
        v == self
    }

    fn into_value(self) -> (r: Value) {
        self
    }
}

impl IntoValue for () {
    open spec fn is_value_of(self, v: Value) -> bool {
        v == Value::Nil
    }

    fn into_value(self) -> (r: Value) {
        Value::Nil
    }
}

impl IntoValue for bool {
    open spec fn is_value_of(self, v: Value) -> bool {
        v == Value::Boolean(self)
    }

    fn into_value(self) -> (r: Value) {
        Value::Boolean(self)
    }
}

impl IntoValue for i8 {
    open spec fn is_value_of(self, v: Value) -> bool {
        v == Value::Integer(self as i128)
    }

    fn into_value(self) -> (r: Value) {
        Value::Integer(self as i128)
    }
}

impl IntoValue for i16 {
    open spec fn is_value_of(self, v: Value) -> bool {
        v == Value::Integer(self as i128)
    }

    fn into_value(self) -> (r: Value) {
        Value::Integer(self as i128)
    }
}

impl IntoValue for i32 {
    open spec fn is_value_of(self, v: Value) -> bool {
        v == Value::Integer(self as i128)
    }

    fn into_value(self) -> (r: Value) {
        Value::Integer(self as i128)
    }
}

impl IntoValue for i64 {
    open spec fn is_value_of(self, v: Value) -> bool {
        v == Value::Integer(self as i128)
    }

    fn into_value(self) -> (r: Value) {
        Value::Integer(self as i128)
    }
}

impl IntoValue for i128 {
    open spec fn is_value_of(self, v: Value) -> bool {
        v == Value::Integer(self as i128)
    }

    fn into_value(self) -> (r: Value) {
        Value::Integer(self as i128)
    }
}

impl IntoValue for isize {
    open spec fn is_value_of(self, v: Value) -> bool {
        v == Value::Integer(self as i128)
    }

    fn into_value(self) -> (r: Value) {
        Value::Integer(self as i128)
    }
}

impl IntoValue for u8 {
    open spec fn is_value_of(self, v: Value) -> bool {
        v == Value::Integer(self as i128)
    }

    fn into_value(self) -> (r: Value) {
        Value::Integer(self as i128)
    }
}

impl IntoValue for u16 {
    open spec fn is_value_of(self, v: Value) -> bool {
        v == Value::Integer(self as i128)
    }

    fn into_value(self) -> (r: Value) {
        Value::Integer(self as i128)
    }
}

impl IntoValue for u32 {
    open spec fn is_value_of(self, v: Value) -> bool {
        v == Value::Integer(self as i128)
    }

    fn into_value(self) -> (r: Value) {
        Value::Integer(self as i128)
    }
}

impl IntoValue for u64 {
    open spec fn is_value_of(self, v: Value) -> bool {
        v == Value::Integer(self as i128)
    }

    fn into_value(self) -> (r: Value) {
        Value::Integer(self as i128)
    }
}

impl IntoValue for usize {
    open spec fn is_value_of(self, v: Value) -> bool {
        v == Value::Integer(self as i128)
    }

    fn into_value(self) -> (r: Value) {
        Value::Integer(self as i128)
    }
}

impl IntoValue for String {
    open spec fn is_value_of(self, v: Value) -> bool {
        v is Text && v->Text_0@ == encode_utf8(self@)
    }

    fn into_value(self) -> (r: Value) {
        Value::Text(self.as_str().as_bytes_vec())
    }
}

impl<'a> IntoValue for &'a str {
    open spec fn is_value_of(self, v: Value) -> bool {
        v is Text && v->Text_0@ == encode_utf8(self@)
    }

    fn into_value(self) -> (r: Value) {
        Value::Text(self.as_bytes_vec())
    }
}

impl<T: IntoValue> IntoValue for Option<T> {
    open spec fn is_value_of(self, v: Value) -> bool {
        match self {
            None => v == Value::Nil,
            Some(t) => t.is_value_of(v),
        }
    }

    fn into_value(self) -> (r: Value) {
        match self {
            None => Value::Nil,
            Some(t) => t.into_value(),
        }
    }
}

impl<T: IntoValue> IntoValue for Vec<T> {
    open spec fn is_value_of(self, v: Value) -> bool {
        v is List && v->List_0@.len() == self@.len() && (forall|j: int|
            0 <= j < self@.len() ==> self@[j].is_value_of(#[trigger] v->List_0@[j]))
    }

    fn into_value(self) -> (r: Value) {
        let mut items = self;
        let ghost orig: Seq<T> = items@;
        let mut out: Vec<Value> = Vec::new();
        while items.len() > 0
            invariant
                out@.len() + items@.len() == orig.len(),
                items@ == orig.skip(out@.len() as int),
                forall|j: int| 0 <= j < out@.len() ==> orig[j].is_value_of(#[trigger] out@[j]),
            decreases items@.len(),
        {
            let ghost k: int = out@.len() as int;
            let v = items.remove(0);
            proof {
                assert(v == orig[k]);
                assert(items@ =~= orig.skip(k + 1));
            }
            out.push(v.into_value());
        }
        Value::List(out)
    }
}

/// A native value that expands into the positional arguments of one host
/// block invocation.
pub trait ArgList {
    /// Relates a native value to the argument handles it expands into.
    spec fn is_arg_list_of(self, vs: Seq<Value>) -> bool;

    /// Produce the argument handles for this value, in positional order.
    fn into_arg_list(self) -> (r: Vec<Value>)
        ensures
            self.is_arg_list_of(r@),
    ;
}

impl<A: IntoValue> ArgList for (A,) {
    open spec fn is_arg_list_of(self, vs: Seq<Value>) -> bool {
        vs.len() == 1 && self.0.is_value_of(vs[0])
    }

    fn into_arg_list(self) -> (r: Vec<Value>) {
        let mut out: Vec<Value> = Vec::new();
        out.push(self.0.into_value());
        out
    }
}

impl<A: IntoValue, B: IntoValue> ArgList for (A, B) {
    open spec fn is_arg_list_of(self, vs: Seq<Value>) -> bool {
        vs.len() == 2 && self.0.is_value_of(vs[0]) && self.1.is_value_of(vs[1])
    }

    fn into_arg_list(self) -> (r: Vec<Value>) {
        let mut out: Vec<Value> = Vec::new();
        out.push(self.0.into_value());
        out.push(self.1.into_value());
        out
    }
}

impl<A: IntoValue, B: IntoValue, C: IntoValue> ArgList for (A, B, C) {
    open spec fn is_arg_list_of(self, vs: Seq<Value>) -> bool {
        vs.len() == 3 && self.0.is_value_of(vs[0]) && self.1.is_value_of(vs[1])
            && self.2.is_value_of(vs[2])
    }

    fn into_arg_list(self) -> (r: Vec<Value>) {
        let mut out: Vec<Value> = Vec::new();
        out.push(self.0.into_value());
        out.push(self.1.into_value());
        out.push(self.2.into_value());
        out
    }
}

} // verus!
