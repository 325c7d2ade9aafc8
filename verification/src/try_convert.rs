use vstd::prelude::*;

use crate::error::{ConvFail, ConvReason, Error};
use crate::value::Value;
use vstd::utf8::{decode_utf8, valid_utf8};
use vstd::string::StrSliceExecFns;
use crate::into_value::IntoValue;

verus! {

/// Conversion from a host handle to a native type.
///
/// Every argument type of a wrapped function must satisfy this contract: the
/// conversion either yields the value that `converts_to` relates to the
/// handle, or fails with a conversion error described by `fail_spec`, exactly
/// when `convertible` says it must.
pub trait TryConvert: Sized {
    /// Whether conversion of `val` to this type succeeds.
    spec fn convertible(val: Value) -> bool;

    /// Relates an input handle to the value its conversion yields.
    spec fn converts_to(val: Value, out: Self) -> bool;

    /// How conversion of `val` fails, when it fails.
    spec fn fail_spec(val: Value) -> ConvFail;

    /// Convert `val` into `Self`, or report why it cannot be.
    fn try_convert(val: Value) -> (r: Result<Self, Error>)
        ensures
            (r is Ok) <==> Self::convertible(val),
            r matches Ok(v) ==> Self::converts_to(val, v),
            r matches Err(e) ==> e.is_conversion_failure(Self::fail_spec(val)),
    ;
}

/// Marker for conversion targets that do not themselves hold host handles,
/// so that heap structures built from them may safely outlive the call that
/// produced the handles.
pub trait TryConvertOwned: TryConvert {
}

impl TryConvert for Value {
    open spec fn convertible(val: Value) -> bool {
        true
    }

    open spec fn converts_to(val: Value, out: Value) -> bool {
        out == val
    }

    open spec fn fail_spec(val: Value) -> ConvFail {
        ConvFail { reason: ConvReason::WrongType, expected: "Value"@ }
    }

    fn try_convert(val: Value) -> (r: Result<Value, Error>) {
        Ok(val)
    }
}

impl<T: TryConvert> TryConvert for Option<T> {
    open spec fn convertible(val: Value) -> bool {
        val matches Value::Nil || T::convertible(val)
    }

    open spec fn converts_to(val: Value, out: Option<T>) -> bool {
        match out {
            None => val matches Value::Nil,
            Some(t) => !(val matches Value::Nil) && T::converts_to(val, t),
        }
    }

    open spec fn fail_spec(val: Value) -> ConvFail {
        T::fail_spec(val)
    }

    fn try_convert(val: Value) -> (r: Result<Option<T>, Error>) {
        if val.is_nil() {
            Ok(None)
        } else {
            match T::try_convert(val) {
                Ok(t) => Ok(Some(t)),
                Err(e) => Err(e),
            }
        }
    }
}

impl<T: TryConvertOwned> TryConvertOwned for Option<T> {
}

impl TryConvert for bool {
    open spec fn convertible(val: Value) -> bool {
        true
    }

    open spec fn converts_to(val: Value, out: bool) -> bool {
        out == val.truthy()
    }

    open spec fn fail_spec(val: Value) -> ConvFail {
        ConvFail { reason: ConvReason::WrongType, expected: "Boolean"@ }
    }

    fn try_convert(val: Value) -> (r: Result<bool, Error>) {
        Ok(val.to_bool())
    }
}

impl TryConvertOwned for bool {
}

impl TryConvert for i8 {
    open spec fn convertible(val: Value) -> bool {
        val matches Value::Integer(i) && i8::MIN <= i <= i8::MAX
    }

    open spec fn converts_to(val: Value, out: i8) -> bool {
        val == Value::Integer(out as i128)
    }

    open spec fn fail_spec(val: Value) -> ConvFail {
        match val {
            Value::Integer(_) => ConvFail {
                reason: ConvReason::OutOfRange,
                expected: "Integer in i8 range"@,
            },
            _ => ConvFail { reason: ConvReason::WrongType, expected: "Integer"@ },
        }
    }

    fn try_convert(val: Value) -> (r: Result<i8, Error>) {
        match val {
            Value::Integer(i) => {
                if i8::MIN as i128 <= i && i <= i8::MAX as i128 {
                    Ok(i as i8)
                } else {
                    Err(Error::conversion(ConvReason::OutOfRange, "Integer in i8 range"))
                }
            },
            _ => Err(Error::conversion(ConvReason::WrongType, "Integer")),
        }
    }
}

impl TryConvertOwned for i8 {
}

impl TryConvert for i16 {
    open spec fn convertible(val: Value) -> bool {
        val matches Value::Integer(i) && i16::MIN <= i <= i16::MAX
    }

    open spec fn converts_to(val: Value, out: i16) -> bool {
        val == Value::Integer(out as i128)
    }

    open spec fn fail_spec(val: Value) -> ConvFail {
        match val {
            Value::Integer(_) => ConvFail {
                reason: ConvReason::OutOfRange,
                expected: "Integer in i16 range"@,
            },
            _ => ConvFail { reason: ConvReason::WrongType, expected: "Integer"@ },
        }
    }

    fn try_convert(val: Value) -> (r: Result<i16, Error>) {
        match val {
            Value::Integer(i) => {
                if i16::MIN as i128 <= i && i <= i16::MAX as i128 {
                    Ok(i as i16)
                } else {
                    Err(Error::conversion(ConvReason::OutOfRange, "Integer in i16 range"))
                }
            },
            _ => Err(Error::conversion(ConvReason::WrongType, "Integer")),
        }
    }
}

impl TryConvertOwned for i16 {
}

impl TryConvert for i32 {
    open spec fn convertible(val: Value) -> bool {
        val matches Value::Integer(i) && i32::MIN <= i <= i32::MAX
    }

    open spec fn converts_to(val: Value, out: i32) -> bool {
        val == Value::Integer(out as i128)
    }

    open spec fn fail_spec(val: Value) -> ConvFail {
        match val {
            Value::Integer(_) => ConvFail {
                reason: ConvReason::OutOfRange,
                expected: "Integer in i32 range"@,
            },
            _ => ConvFail { reason: ConvReason::WrongType, expected: "Integer"@ },
        }
    }

    fn try_convert(val: Value) -> (r: Result<i32, Error>) {
        match val {
            Value::Integer(i) => {
                if i32::MIN as i128 <= i && i <= i32::MAX as i128 {
                    Ok(i as i32)
                } else {
                    Err(Error::conversion(ConvReason::OutOfRange, "Integer in i32 range"))
                }
            },
            _ => Err(Error::conversion(ConvReason::WrongType, "Integer")),
        }
    }
}

impl TryConvertOwned for i32 {
}

impl TryConvert for i64 {
    open spec fn convertible(val: Value) -> bool {
        val matches Value::Integer(i) && i64::MIN <= i <= i64::MAX
    }

    open spec fn converts_to(val: Value, out: i64) -> bool {
        val == Value::Integer(out as i128)
    }

    open spec fn fail_spec(val: Value) -> ConvFail {
        match val {
            Value::Integer(_) => ConvFail {
                reason: ConvReason::OutOfRange,
                expected: "Integer in i64 range"@,
            },
            _ => ConvFail { reason: ConvReason::WrongType, expected: "Integer"@ },
        }
    }

    fn try_convert(val: Value) -> (r: Result<i64, Error>) {
        match val {
            Value::Integer(i) => {
                if i64::MIN as i128 <= i && i <= i64::MAX as i128 {
                    Ok(i as i64)
                } else {
                    Err(Error::conversion(ConvReason::OutOfRange, "Integer in i64 range"))
                }
            },
            _ => Err(Error::conversion(ConvReason::WrongType, "Integer")),
        }
    }
}

impl TryConvertOwned for i64 {
}

impl TryConvert for isize {
    open spec fn convertible(val: Value) -> bool {
        val matches Value::Integer(i) && isize::MIN <= i <= isize::MAX
    }

    open spec fn converts_to(val: Value, out: isize) -> bool {
        val == Value::Integer(out as i128)
    }

    open spec fn fail_spec(val: Value) -> ConvFail {
        match val {
            Value::Integer(_) => ConvFail {
                reason: ConvReason::OutOfRange,
                expected: "Integer in isize range"@,
            },
            _ => ConvFail { reason: ConvReason::WrongType, expected: "Integer"@ },
        }
    }

    fn try_convert(val: Value) -> (r: Result<isize, Error>) {
        match val {
            Value::Integer(i) => {
                if isize::MIN as i128 <= i && i <= isize::MAX as i128 {
                    Ok(i as isize)
                } else {
                    Err(Error::conversion(ConvReason::OutOfRange, "Integer in isize range"))
                }
            },
            _ => Err(Error::conversion(ConvReason::WrongType, "Integer")),
        }
    }
}

impl TryConvertOwned for isize {
}

impl TryConvert for u8 {
    open spec fn convertible(val: Value) -> bool {
        val matches Value::Integer(i) && u8::MIN <= i <= u8::MAX
    }

    open spec fn converts_to(val: Value, out: u8) -> bool {
        val == Value::Integer(out as i128)
    }

    open spec fn fail_spec(val: Value) -> ConvFail {
        match val {
            Value::Integer(_) => ConvFail {
                reason: ConvReason::OutOfRange,
                expected: "Integer in u8 range"@,
            },
            _ => ConvFail { reason: ConvReason::WrongType, expected: "Integer"@ },
        }
    }

    fn try_convert(val: Value) -> (r: Result<u8, Error>) {
        match val {
            Value::Integer(i) => {
                if u8::MIN as i128 <= i && i <= u8::MAX as i128 {
                    Ok(i as u8)
                } else {
                    Err(Error::conversion(ConvReason::OutOfRange, "Integer in u8 range"))
                }
            },
            _ => Err(Error::conversion(ConvReason::WrongType, "Integer")),
        }
    }
}

impl TryConvertOwned for u8 {
}

impl TryConvert for u16 {
    open spec fn convertible(val: Value) -> bool {
        val matches Value::Integer(i) && u16::MIN <= i <= u16::MAX
    }

    open spec fn converts_to(val: Value, out: u16) -> bool {
        val == Value::Integer(out as i128)
    }

    open spec fn fail_spec(val: Value) -> ConvFail {
        match val {
            Value::Integer(_) => ConvFail {
                reason: ConvReason::OutOfRange,
                expected: "Integer in u16 range"@,
            },
            _ => ConvFail { reason: ConvReason::WrongType, expected: "Integer"@ },
        }
    }

    fn try_convert(val: Value) -> (r: Result<u16, Error>) {
        match val {
            Value::Integer(i) => {
                if u16::MIN as i128 <= i && i <= u16::MAX as i128 {
                    Ok(i as u16)
                } else {
                    Err(Error::conversion(ConvReason::OutOfRange, "Integer in u16 range"))
                }
            },
            _ => Err(Error::conversion(ConvReason::WrongType, "Integer")),
        }
    }
}

impl TryConvertOwned for u16 {
}

impl TryConvert for u32 {
    open spec fn convertible(val: Value) -> bool {
        val matches Value::Integer(i) && u32::MIN <= i <= u32::MAX
    }

    open spec fn converts_to(val: Value, out: u32) -> bool {
        val == Value::Integer(out as i128)
    }

    open spec fn fail_spec(val: Value) -> ConvFail {
        match val {
            Value::Integer(_) => ConvFail {
                reason: ConvReason::OutOfRange,
                expected: "Integer in u32 range"@,
            },
            _ => ConvFail { reason: ConvReason::WrongType, expected: "Integer"@ },
        }
    }

    fn try_convert(val: Value) -> (r: Result<u32, Error>) {
        match val {
            Value::Integer(i) => {
                if u32::MIN as i128 <= i && i <= u32::MAX as i128 {
                    Ok(i as u32)
                } else {
                    Err(Error::conversion(ConvReason::OutOfRange, "Integer in u32 range"))
                }
            },
            _ => Err(Error::conversion(ConvReason::WrongType, "Integer")),
        }
    }
}

impl TryConvertOwned for u32 {
}

impl TryConvert for u64 {
    open spec fn convertible(val: Value) -> bool {
        val matches Value::Integer(i) && u64::MIN <= i <= u64::MAX
    }

    open spec fn converts_to(val: Value, out: u64) -> bool {
        val == Value::Integer(out as i128)
    }

    open spec fn fail_spec(val: Value) -> ConvFail {
        match val {
            Value::Integer(_) => ConvFail {
                reason: ConvReason::OutOfRange,
                expected: "Integer in u64 range"@,
            },
            _ => ConvFail { reason: ConvReason::WrongType, expected: "Integer"@ },
        }
    }

    fn try_convert(val: Value) -> (r: Result<u64, Error>) {
        match val {
            Value::Integer(i) => {
                if u64::MIN as i128 <= i && i <= u64::MAX as i128 {
                    Ok(i as u64)
                } else {
                    Err(Error::conversion(ConvReason::OutOfRange, "Integer in u64 range"))
                }
            },
            _ => Err(Error::conversion(ConvReason::WrongType, "Integer")),
        }
    }
}

impl TryConvertOwned for u64 {
}

impl TryConvert for usize {
    open spec fn convertible(val: Value) -> bool {
        val matches Value::Integer(i) && usize::MIN <= i <= usize::MAX
    }

    open spec fn converts_to(val: Value, out: usize) -> bool {
        val == Value::Integer(out as i128)
    }

    open spec fn fail_spec(val: Value) -> ConvFail {
        match val {
            Value::Integer(_) => ConvFail {
                reason: ConvReason::OutOfRange,
                expected: "Integer in usize range"@,
            },
            _ => ConvFail { reason: ConvReason::WrongType, expected: "Integer"@ },
        }
    }

    fn try_convert(val: Value) -> (r: Result<usize, Error>) {
        match val {
            Value::Integer(i) => {
                if usize::MIN as i128 <= i && i <= usize::MAX as i128 {
                    Ok(i as usize)
                } else {
                    Err(Error::conversion(ConvReason::OutOfRange, "Integer in usize range"))
                }
            },
            _ => Err(Error::conversion(ConvReason::WrongType, "Integer")),
        }
    }
}

impl TryConvertOwned for usize {
}

impl TryConvert for String {
    open spec fn convertible(val: Value) -> bool {
        val matches Value::Text(b) && valid_utf8(b@)
    }

    open spec fn converts_to(val: Value, out: String) -> bool {
        val matches Value::Text(b) && valid_utf8(b@) && out@ == decode_utf8(b@)
    }

    open spec fn fail_spec(val: Value) -> ConvFail {
        match val {
            Value::Text(_) => ConvFail {
                reason: ConvReason::InvalidEncoding,
                expected: "String in UTF-8"@,
            },
            _ => ConvFail { reason: ConvReason::WrongType, expected: "String"@ },
        }
    }

    fn try_convert(val: Value) -> (r: Result<String, Error>) {
        match val {
            Value::Text(b) => match string_from_utf8(b) {
                Some(s) => Ok(s),
                None => Err(Error::conversion(ConvReason::InvalidEncoding, "String in UTF-8")),
            },
            _ => Err(Error::conversion(ConvReason::WrongType, "String")),
        }
    }
}

impl TryConvertOwned for String {
}

impl TryConvert for char {
    open spec fn convertible(val: Value) -> bool {
        val matches Value::Text(b) && valid_utf8(b@) && decode_utf8(b@).len() == 1
    }

    open spec fn converts_to(val: Value, out: char) -> bool {
        val matches Value::Text(b) && valid_utf8(b@) && decode_utf8(b@).len() == 1 && out
            == decode_utf8(b@)[0]
    }

    open spec fn fail_spec(val: Value) -> ConvFail {
        match val {
            Value::Text(b) => if !valid_utf8(b@) {
                ConvFail { reason: ConvReason::InvalidEncoding, expected: "String in UTF-8"@ }
            } else {
                ConvFail { reason: ConvReason::WrongLength, expected: "String of one character"@ }
            },
            _ => ConvFail { reason: ConvReason::WrongType, expected: "String"@ },
        }
    }

    fn try_convert(val: Value) -> (r: Result<char, Error>) {
        match val {
            Value::Text(b) => match string_from_utf8(b) {
                Some(s) => {
                    if s.as_str().unicode_len() == 1 {
                        Ok(s.as_str().get_char(0))
                    } else {
                        Err(Error::conversion(ConvReason::WrongLength, "String of one character"))
                    }
                },
                None => Err(Error::conversion(ConvReason::InvalidEncoding, "String in UTF-8")),
            },
            _ => Err(Error::conversion(ConvReason::WrongType, "String")),
        }
    }
}

impl TryConvertOwned for char {
}

/// The failure of the first element of `vs` that does not convert to `T`.
pub open spec fn seq_fail_spec<T: TryConvert>(vs: Seq<Value>) -> ConvFail
    decreases vs.len(),
{
    if vs.len() == 0 {
        ConvFail { reason: ConvReason::WrongType, expected: Seq::<char>::empty() }
    } else if !T::convertible(vs[0]) {
        T::fail_spec(vs[0])
    } else {
        seq_fail_spec::<T>(vs.drop_first())
    }
}

/// When the first `i` elements convert and the `i`-th does not, the failure
/// of the sequence is the failure of the `i`-th element.
proof fn lemma_seq_fail_spec<T: TryConvert>(vs: Seq<Value>, i: int)
    requires
        0 <= i < vs.len(),
        forall|j: int| 0 <= j < i ==> T::convertible(#[trigger] vs[j]),
        !T::convertible(vs[i]),
    ensures
        seq_fail_spec::<T>(vs) == T::fail_spec(vs[i]),
    decreases i,
{
    if i > 0 {
        assert(T::convertible(vs[0]));
        lemma_seq_fail_spec::<T>(vs.drop_first(), i - 1);
        assert(vs.drop_first()[i - 1] == vs[i]);
    }
}

impl<T: TryConvertOwned> TryConvert for Vec<T> {
    open spec fn convertible(val: Value) -> bool {
        val is List && (forall|j: int|
            0 <= j < val->List_0@.len() ==> T::convertible(#[trigger] val->List_0@[j]))
    }

    open spec fn converts_to(val: Value, out: Vec<T>) -> bool {
        val is List && out@.len() == val->List_0@.len() && (forall|j: int|
            0 <= j < val->List_0@.len() ==> T::converts_to(val->List_0@[j], #[trigger] out@[j]))
    }

    open spec fn fail_spec(val: Value) -> ConvFail {
        match val {
            Value::List(vs) => seq_fail_spec::<T>(vs@),
            _ => ConvFail { reason: ConvReason::WrongType, expected: "Array"@ },
        }
    }

    fn try_convert(val: Value) -> (r: Result<Vec<T>, Error>) {
        let mut items = match val {
            Value::List(vs) => vs,
            _ => {
                return Err(Error::conversion(ConvReason::WrongType, "Array"));
            },
        };
        let ghost orig_vec: Vec<Value> = items;
        let ghost orig: Seq<Value> = items@;
        proof {
            assert(val == Value::List(orig_vec));
        }
        let mut out: Vec<T> = Vec::new();
        while items.len() > 0
            invariant
                val == Value::List(orig_vec),
                orig_vec@ == orig,
                out@.len() + items@.len() == orig.len(),
                items@ == orig.skip(out@.len() as int),
                forall|j: int|
                    0 <= j < out@.len() ==> T::convertible(#[trigger] orig[j]) && T::converts_to(
                        orig[j],
                        out@[j],
                    ),
            decreases items@.len(),
        {
            let ghost k: int = out@.len() as int;
            let v = items.remove(0);
            proof {
                assert(v == orig[k]);
                assert(items@ =~= orig.skip(k + 1));
            }
            match T::try_convert(v) {
                Ok(t) => out.push(t),
                Err(e) => {
                    proof {
                        lemma_seq_fail_spec::<T>(orig, k);
                        assert(val->List_0@ == orig);
                        assert(!T::convertible(val->List_0@[k]));
                        assert(!(forall|j: int|
                            0 <= j < val->List_0@.len() ==> T::convertible(
                                #[trigger] val->List_0@[j],
                            )));
                    }
                    return Err(e);
                },
            }
        }
        Ok(out)
    }
}

impl<T: TryConvertOwned> TryConvertOwned for Vec<T> {
}

/// Relies on `String::from_utf8`: it succeeds exactly on valid UTF-8 input,
/// and returns the string that the bytes encode.
#[verifier::external_body]
fn string_from_utf8(bytes: Vec<u8>) -> (r: Option<String>)
    ensures
        (r is Some) <==> valid_utf8(bytes@),
        r matches Some(s) ==> s@ == decode_utf8(bytes@),
{
    String::from_utf8(bytes).ok()
}

#[verifier::external_type_specification]
#[verifier::external_body]
pub struct ExBytes(bytes::Bytes);

/// The bytes that a `bytes::Bytes` buffer holds.
pub uninterp spec fn bytes_view(b: bytes::Bytes) -> Seq<u8>;

/// Relies on `bytes::Bytes::copy_from_slice`: the buffer it returns holds a
/// copy of the given bytes.
#[verifier::external_body]
fn bytes_copy_from_slice(data: &[u8]) -> (r: bytes::Bytes)
    ensures
        bytes_view(r) == data@,
{
    bytes::Bytes::copy_from_slice(data)
}

impl TryConvert for bytes::Bytes {
    open spec fn convertible(val: Value) -> bool {
        val matches Value::Text(_)
    }

    open spec fn converts_to(val: Value, out: bytes::Bytes) -> bool {
        val matches Value::Text(b) && bytes_view(out) == b@
    }

    open spec fn fail_spec(val: Value) -> ConvFail {
        ConvFail { reason: ConvReason::WrongType, expected: "String"@ }
    }

    fn try_convert(val: Value) -> (r: Result<bytes::Bytes, Error>) {
        match val {
            Value::Text(b) => Ok(bytes_copy_from_slice(b.as_slice())),
            _ => Err(Error::conversion(ConvReason::WrongType, "String")),
        }
    }
}

impl TryConvertOwned for bytes::Bytes {
}

impl<A: TryConvert> TryConvert for (A,) {
    open spec fn convertible(val: Value) -> bool {
        val is List && val->List_0@.len() == 1 && A::convertible(val->List_0@[0])
    }

    open spec fn converts_to(val: Value, out: (A,)) -> bool {
        val is List && val->List_0@.len() == 1 && A::converts_to(val->List_0@[0], out.0)
    }

    open spec fn fail_spec(val: Value) -> ConvFail {
        match val {
            Value::List(vs) => if vs@.len() != 1 {
                ConvFail { reason: ConvReason::WrongLength, expected: "Array of length 1"@ }
            } else {
                A::fail_spec(vs@[0])
            },
            _ => ConvFail { reason: ConvReason::WrongType, expected: "Array"@ },
        }
    }

    fn try_convert(val: Value) -> (r: Result<(A,), Error>) {
        let mut items = match val {
            Value::List(vs) => vs,
            _ => {
                return Err(Error::conversion(ConvReason::WrongType, "Array"));
            },
        };
        let ghost orig_vec: Vec<Value> = items;
        proof {
            assert(val == Value::List(orig_vec));
        }
        if items.len() != 1 {
            return Err(Error::conversion(ConvReason::WrongLength, "Array of length 1"));
        }
        let v0 = items.remove(0);
        proof {
            assert(v0 == orig_vec@[0]);
        }
        let x0 = match A::try_convert(v0) {
            Ok(v) => v,
            Err(err) => {
                return Err(err);
            },
        };
        Ok((x0,))
    }
}

impl<A: TryConvertOwned> TryConvertOwned for (A,) {
}

impl<A: TryConvert, B: TryConvert> TryConvert for (A, B) {
    open spec fn convertible(val: Value) -> bool {
        val is List && val->List_0@.len() == 2 && A::convertible(val->List_0@[0]) && B::convertible(val->List_0@[1])
    }

    open spec fn converts_to(val: Value, out: (A, B)) -> bool {
        val is List && val->List_0@.len() == 2 && A::converts_to(val->List_0@[0], out.0) && B::converts_to(val->List_0@[1], out.1)
    }

    open spec fn fail_spec(val: Value) -> ConvFail {
        match val {
            Value::List(vs) => if vs@.len() != 2 {
                ConvFail { reason: ConvReason::WrongLength, expected: "Array of length 2"@ }
            } else if !A::convertible(vs@[0]) {
                A::fail_spec(vs@[0])
            } else {
                B::fail_spec(vs@[1])
            },
            _ => ConvFail { reason: ConvReason::WrongType, expected: "Array"@ },
        }
    }

    fn try_convert(val: Value) -> (r: Result<(A, B), Error>) {
        let mut items = match val {
            Value::List(vs) => vs,
            _ => {
                return Err(Error::conversion(ConvReason::WrongType, "Array"));
            },
        };
        let ghost orig_vec: Vec<Value> = items;
        proof {
            assert(val == Value::List(orig_vec));
        }
        if items.len() != 2 {
            return Err(Error::conversion(ConvReason::WrongLength, "Array of length 2"));
        }
        let v0 = items.remove(0);
        let v1 = items.remove(0);
        proof {
            assert(v0 == orig_vec@[0]);
            assert(v1 == orig_vec@[1]);
        }
        let x0 = match A::try_convert(v0) {
            Ok(v) => v,
            Err(err) => {
                return Err(err);
            },
        };
        let x1 = match B::try_convert(v1) {
            Ok(v) => v,
            Err(err) => {
                return Err(err);
            },
        };
        Ok((x0, x1))
    }
}

impl<A: TryConvertOwned, B: TryConvertOwned> TryConvertOwned for (A, B) {
}

impl<A: TryConvert, B: TryConvert, C: TryConvert> TryConvert for (A, B, C) {
    open spec fn convertible(val: Value) -> bool {
        val is List && val->List_0@.len() == 3 && A::convertible(val->List_0@[0]) && B::convertible(val->List_0@[1]) && C::convertible(val->List_0@[2])
    }

    open spec fn converts_to(val: Value, out: (A, B, C)) -> bool {
        val is List && val->List_0@.len() == 3 && A::converts_to(val->List_0@[0], out.0) && B::converts_to(val->List_0@[1], out.1) && C::converts_to(val->List_0@[2], out.2)
    }

    open spec fn fail_spec(val: Value) -> ConvFail {
        match val {
            Value::List(vs) => if vs@.len() != 3 {
                ConvFail { reason: ConvReason::WrongLength, expected: "Array of length 3"@ }
            } else if !A::convertible(vs@[0]) {
                A::fail_spec(vs@[0])
            } else if !B::convertible(vs@[1]) {
                B::fail_spec(vs@[1])
            } else {
                C::fail_spec(vs@[2])
            },
            _ => ConvFail { reason: ConvReason::WrongType, expected: "Array"@ },
        }
    }

    fn try_convert(val: Value) -> (r: Result<(A, B, C), Error>) {
        let mut items = match val {
            Value::List(vs) => vs,
            _ => {
                return Err(Error::conversion(ConvReason::WrongType, "Array"));
            },
        };
        let ghost orig_vec: Vec<Value> = items;
        proof {
            assert(val == Value::List(orig_vec));
        }
        if items.len() != 3 {
            return Err(Error::conversion(ConvReason::WrongLength, "Array of length 3"));
        }
        let v0 = items.remove(0);
        let v1 = items.remove(0);
        let v2 = items.remove(0);
        proof {
            assert(v0 == orig_vec@[0]);
            assert(v1 == orig_vec@[1]);
            assert(v2 == orig_vec@[2]);
        }
        let x0 = match A::try_convert(v0) {
            Ok(v) => v,
            Err(err) => {
                return Err(err);
            },
        };
        let x1 = match B::try_convert(v1) {
            Ok(v) => v,
            Err(err) => {
                return Err(err);
            },
        };
        let x2 = match C::try_convert(v2) {
            Ok(v) => v,
            Err(err) => {
                return Err(err);
            },
        };
        Ok((x0, x1, x2))
    }
}

impl<A: TryConvertOwned, B: TryConvertOwned, C: TryConvertOwned> TryConvertOwned for (A, B, C) {
}

impl<A: TryConvert, B: TryConvert, C: TryConvert, D: TryConvert> TryConvert for (A, B, C, D) {
    open spec fn convertible(val: Value) -> bool {
        val is List && val->List_0@.len() == 4 && A::convertible(val->List_0@[0]) && B::convertible(val->List_0@[1]) && C::convertible(val->List_0@[2]) && D::convertible(val->List_0@[3])
    }

    open spec fn converts_to(val: Value, out: (A, B, C, D)) -> bool {
        val is List && val->List_0@.len() == 4 && A::converts_to(val->List_0@[0], out.0) && B::converts_to(val->List_0@[1], out.1) && C::converts_to(val->List_0@[2], out.2) && D::converts_to(val->List_0@[3], out.3)
    }

    open spec fn fail_spec(val: Value) -> ConvFail {
        match val {
            Value::List(vs) => if vs@.len() != 4 {
                ConvFail { reason: ConvReason::WrongLength, expected: "Array of length 4"@ }
            } else if !A::convertible(vs@[0]) {
                A::fail_spec(vs@[0])
            } else if !B::convertible(vs@[1]) {
                B::fail_spec(vs@[1])
            } else if !C::convertible(vs@[2]) {
                C::fail_spec(vs@[2])
            } else {
                D::fail_spec(vs@[3])
            },
            _ => ConvFail { reason: ConvReason::WrongType, expected: "Array"@ },
        }
    }

    fn try_convert(val: Value) -> (r: Result<(A, B, C, D), Error>) {
        let mut items = match val {
            Value::List(vs) => vs,
            _ => {
                return Err(Error::conversion(ConvReason::WrongType, "Array"));
            },
        };
        let ghost orig_vec: Vec<Value> = items;
        proof {
            assert(val == Value::List(orig_vec));
        }
        if items.len() != 4 {
            return Err(Error::conversion(ConvReason::WrongLength, "Array of length 4"));
        }
        let v0 = items.remove(0);
        let v1 = items.remove(0);
        let v2 = items.remove(0);
        let v3 = items.remove(0);
        proof {
            assert(v0 == orig_vec@[0]);
            assert(v1 == orig_vec@[1]);
            assert(v2 == orig_vec@[2]);
            assert(v3 == orig_vec@[3]);
        }
        let x0 = match A::try_convert(v0) {
            Ok(v) => v,
            Err(err) => {
                return Err(err);
            },
        };
        let x1 = match B::try_convert(v1) {
            Ok(v) => v,
            Err(err) => {
                return Err(err);
            },
        };
        let x2 = match C::try_convert(v2) {
            Ok(v) => v,
            Err(err) => {
                return Err(err);
            },
        };
        let x3 = match D::try_convert(v3) {
            Ok(v) => v,
            Err(err) => {
                return Err(err);
            },
        };
        Ok((x0, x1, x2, x3))
    }
}

impl<A: TryConvertOwned, B: TryConvertOwned, C: TryConvertOwned, D: TryConvertOwned> TryConvertOwned for (A, B, C, D) {
}

impl<A: TryConvert, B: TryConvert, C: TryConvert, D: TryConvert, E: TryConvert> TryConvert for (A, B, C, D, E) {
    open spec fn convertible(val: Value) -> bool {
        val is List && val->List_0@.len() == 5 && A::convertible(val->List_0@[0]) && B::convertible(val->List_0@[1]) && C::convertible(val->List_0@[2]) && D::convertible(val->List_0@[3]) && E::convertible(val->List_0@[4])
    }

    open spec fn converts_to(val: Value, out: (A, B, C, D, E)) -> bool {
        val is List && val->List_0@.len() == 5 && A::converts_to(val->List_0@[0], out.0) && B::converts_to(val->List_0@[1], out.1) && C::converts_to(val->List_0@[2], out.2) && D::converts_to(val->List_0@[3], out.3) && E::converts_to(val->List_0@[4], out.4)
    }

    open spec fn fail_spec(val: Value) -> ConvFail {
        match val {
            Value::List(vs) => if vs@.len() != 5 {
                ConvFail { reason: ConvReason::WrongLength, expected: "Array of length 5"@ }
            } else if !A::convertible(vs@[0]) {
                A::fail_spec(vs@[0])
            } else if !B::convertible(vs@[1]) {
                B::fail_spec(vs@[1])
            } else if !C::convertible(vs@[2]) {
                C::fail_spec(vs@[2])
            } else if !D::convertible(vs@[3]) {
                D::fail_spec(vs@[3])
            } else {
                E::fail_spec(vs@[4])
            },
            _ => ConvFail { reason: ConvReason::WrongType, expected: "Array"@ },
        }
    }

    fn try_convert(val: Value) -> (r: Result<(A, B, C, D, E), Error>) {
        let mut items = match val {
            Value::List(vs) => vs,
            _ => {
                return Err(Error::conversion(ConvReason::WrongType, "Array"));
            },
        };
        let ghost orig_vec: Vec<Value> = items;
        proof {
            assert(val == Value::List(orig_vec));
        }
        if items.len() != 5 {
            return Err(Error::conversion(ConvReason::WrongLength, "Array of length 5"));
        }
        let v0 = items.remove(0);
        let v1 = items.remove(0);
        let v2 = items.remove(0);
        let v3 = items.remove(0);
        let v4 = items.remove(0);
        proof {
            assert(v0 == orig_vec@[0]);
            assert(v1 == orig_vec@[1]);
            assert(v2 == orig_vec@[2]);
            assert(v3 == orig_vec@[3]);
            assert(v4 == orig_vec@[4]);
        }
        let x0 = match A::try_convert(v0) {
            Ok(v) => v,
            Err(err) => {
                return Err(err);
            },
        };
        let x1 = match B::try_convert(v1) {
            Ok(v) => v,
            Err(err) => {
                return Err(err);
            },
        };
        let x2 = match C::try_convert(v2) {
            Ok(v) => v,
            Err(err) => {
                return Err(err);
            },
        };
        let x3 = match D::try_convert(v3) {
            Ok(v) => v,
            Err(err) => {
                return Err(err);
            },
        };
        let x4 = match E::try_convert(v4) {
            Ok(v) => v,
            Err(err) => {
                return Err(err);
            },
        };
        Ok((x0, x1, x2, x3, x4))
    }
}

impl<A: TryConvertOwned, B: TryConvertOwned, C: TryConvertOwned, D: TryConvertOwned, E: TryConvertOwned> TryConvertOwned for (A, B, C, D, E) {
}

impl<A: TryConvert, B: TryConvert, C: TryConvert, D: TryConvert, E: TryConvert, F: TryConvert> TryConvert for (A, B, C, D, E, F) {
    open spec fn convertible(val: Value) -> bool {
        val is List && val->List_0@.len() == 6 && A::convertible(val->List_0@[0]) && B::convertible(val->List_0@[1]) && C::convertible(val->List_0@[2]) && D::convertible(val->List_0@[3]) && E::convertible(val->List_0@[4]) && F::convertible(val->List_0@[5])
    }

    open spec fn converts_to(val: Value, out: (A, B, C, D, E, F)) -> bool {
        val is List && val->List_0@.len() == 6 && A::converts_to(val->List_0@[0], out.0) && B::converts_to(val->List_0@[1], out.1) && C::converts_to(val->List_0@[2], out.2) && D::converts_to(val->List_0@[3], out.3) && E::converts_to(val->List_0@[4], out.4) && F::converts_to(val->List_0@[5], out.5)
    }

    open spec fn fail_spec(val: Value) -> ConvFail {
        match val {
            Value::List(vs) => if vs@.len() != 6 {
                ConvFail { reason: ConvReason::WrongLength, expected: "Array of length 6"@ }
            } else if !A::convertible(vs@[0]) {
                A::fail_spec(vs@[0])
            } else if !B::convertible(vs@[1]) {
                B::fail_spec(vs@[1])
            } else if !C::convertible(vs@[2]) {
                C::fail_spec(vs@[2])
            } else if !D::convertible(vs@[3]) {
                D::fail_spec(vs@[3])
            } else if !E::convertible(vs@[4]) {
                E::fail_spec(vs@[4])
            } else {
                F::fail_spec(vs@[5])
            },
            _ => ConvFail { reason: ConvReason::WrongType, expected: "Array"@ },
        }
    }

    fn try_convert(val: Value) -> (r: Result<(A, B, C, D, E, F), Error>) {
        let mut items = match val {
            Value::List(vs) => vs,
            _ => {
                return Err(Error::conversion(ConvReason::WrongType, "Array"));
            },
        };
        let ghost orig_vec: Vec<Value> = items;
        proof {
            assert(val == Value::List(orig_vec));
        }
        if items.len() != 6 {
            return Err(Error::conversion(ConvReason::WrongLength, "Array of length 6"));
        }
        let v0 = items.remove(0);
        let v1 = items.remove(0);
        let v2 = items.remove(0);
        let v3 = items.remove(0);
        let v4 = items.remove(0);
        let v5 = items.remove(0);
        proof {
            assert(v0 == orig_vec@[0]);
            assert(v1 == orig_vec@[1]);
            assert(v2 == orig_vec@[2]);
            assert(v3 == orig_vec@[3]);
            assert(v4 == orig_vec@[4]);
            assert(v5 == orig_vec@[5]);
        }
        let x0 = match A::try_convert(v0) {
            Ok(v) => v,
            Err(err) => {
                return Err(err);
            },
        };
        let x1 = match B::try_convert(v1) {
            Ok(v) => v,
            Err(err) => {
                return Err(err);
            },
        };
        let x2 = match C::try_convert(v2) {
            Ok(v) => v,
            Err(err) => {
                return Err(err);
            },
        };
        let x3 = match D::try_convert(v3) {
            Ok(v) => v,
            Err(err) => {
                return Err(err);
            },
        };
        let x4 = match E::try_convert(v4) {
            Ok(v) => v,
            Err(err) => {
                return Err(err);
            },
        };
        let x5 = match F::try_convert(v5) {
            Ok(v) => v,
            Err(err) => {
                return Err(err);
            },
        };
        Ok((x0, x1, x2, x3, x4, x5))
    }
}

impl<A: TryConvertOwned, B: TryConvertOwned, C: TryConvertOwned, D: TryConvertOwned, E: TryConvertOwned, F: TryConvertOwned> TryConvertOwned for (A, B, C, D, E, F) {
}

impl<A: TryConvert, B: TryConvert, C: TryConvert, D: TryConvert, E: TryConvert, F: TryConvert, G: TryConvert> TryConvert for (A, B, C, D, E, F, G) {
    open spec fn convertible(val: Value) -> bool {
        val is List && val->List_0@.len() == 7 && A::convertible(val->List_0@[0]) && B::convertible(val->List_0@[1]) && C::convertible(val->List_0@[2]) && D::convertible(val->List_0@[3]) && E::convertible(val->List_0@[4]) && F::convertible(val->List_0@[5]) && G::convertible(val->List_0@[6])
    }

    open spec fn converts_to(val: Value, out: (A, B, C, D, E, F, G)) -> bool {
        val is List && val->List_0@.len() == 7 && A::converts_to(val->List_0@[0], out.0) && B::converts_to(val->List_0@[1], out.1) && C::converts_to(val->List_0@[2], out.2) && D::converts_to(val->List_0@[3], out.3) && E::converts_to(val->List_0@[4], out.4) && F::converts_to(val->List_0@[5], out.5) && G::converts_to(val->List_0@[6], out.6)
    }

    open spec fn fail_spec(val: Value) -> ConvFail {
        match val {
            Value::List(vs) => if vs@.len() != 7 {
                ConvFail { reason: ConvReason::WrongLength, expected: "Array of length 7"@ }
            } else if !A::convertible(vs@[0]) {
                A::fail_spec(vs@[0])
            } else if !B::convertible(vs@[1]) {
                B::fail_spec(vs@[1])
            } else if !C::convertible(vs@[2]) {
                C::fail_spec(vs@[2])
            } else if !D::convertible(vs@[3]) {
                D::fail_spec(vs@[3])
            } else if !E::convertible(vs@[4]) {
                E::fail_spec(vs@[4])
            } else if !F::convertible(vs@[5]) {
                F::fail_spec(vs@[5])
            } else {
                G::fail_spec(vs@[6])
            },
            _ => ConvFail { reason: ConvReason::WrongType, expected: "Array"@ },
        }
    }

    fn try_convert(val: Value) -> (r: Result<(A, B, C, D, E, F, G), Error>) {
        let mut items = match val {
            Value::List(vs) => vs,
            _ => {
                return Err(Error::conversion(ConvReason::WrongType, "Array"));
            },
        };
        let ghost orig_vec: Vec<Value> = items;
        proof {
            assert(val == Value::List(orig_vec));
        }
        if items.len() != 7 {
            return Err(Error::conversion(ConvReason::WrongLength, "Array of length 7"));
        }
        let v0 = items.remove(0);
        let v1 = items.remove(0);
        let v2 = items.remove(0);
        let v3 = items.remove(0);
        let v4 = items.remove(0);
        let v5 = items.remove(0);
        let v6 = items.remove(0);
        proof {
            assert(v0 == orig_vec@[0]);
            assert(v1 == orig_vec@[1]);
            assert(v2 == orig_vec@[2]);
            assert(v3 == orig_vec@[3]);
            assert(v4 == orig_vec@[4]);
            assert(v5 == orig_vec@[5]);
            assert(v6 == orig_vec@[6]);
        }
        let x0 = match A::try_convert(v0) {
            Ok(v) => v,
            Err(err) => {
                return Err(err);
            },
        };
        let x1 = match B::try_convert(v1) {
            Ok(v) => v,
            Err(err) => {
                return Err(err);
            },
        };
        let x2 = match C::try_convert(v2) {
            Ok(v) => v,
            Err(err) => {
                return Err(err);
            },
        };
        let x3 = match D::try_convert(v3) {
            Ok(v) => v,
            Err(err) => {
                return Err(err);
            },
        };
        let x4 = match E::try_convert(v4) {
            Ok(v) => v,
            Err(err) => {
                return Err(err);
            },
        };
        let x5 = match F::try_convert(v5) {
            Ok(v) => v,
            Err(err) => {
                return Err(err);
            },
        };
        let x6 = match G::try_convert(v6) {
            Ok(v) => v,
            Err(err) => {
                return Err(err);
            },
        };
        Ok((x0, x1, x2, x3, x4, x5, x6))
    }
}

impl<A: TryConvertOwned, B: TryConvertOwned, C: TryConvertOwned, D: TryConvertOwned, E: TryConvertOwned, F: TryConvertOwned, G: TryConvertOwned> TryConvertOwned for (A, B, C, D, E, F, G) {
}

impl<A: TryConvert, B: TryConvert, C: TryConvert, D: TryConvert, E: TryConvert, F: TryConvert, G: TryConvert, H: TryConvert> TryConvert for (A, B, C, D, E, F, G, H) {
    open spec fn convertible(val: Value) -> bool {
        val is List && val->List_0@.len() == 8 && A::convertible(val->List_0@[0]) && B::convertible(val->List_0@[1]) && C::convertible(val->List_0@[2]) && D::convertible(val->List_0@[3]) && E::convertible(val->List_0@[4]) && F::convertible(val->List_0@[5]) && G::convertible(val->List_0@[6]) && H::convertible(val->List_0@[7])
    }

    open spec fn converts_to(val: Value, out: (A, B, C, D, E, F, G, H)) -> bool {
        val is List && val->List_0@.len() == 8 && A::converts_to(val->List_0@[0], out.0) && B::converts_to(val->List_0@[1], out.1) && C::converts_to(val->List_0@[2], out.2) && D::converts_to(val->List_0@[3], out.3) && E::converts_to(val->List_0@[4], out.4) && F::converts_to(val->List_0@[5], out.5) && G::converts_to(val->List_0@[6], out.6) && H::converts_to(val->List_0@[7], out.7)
    }

    open spec fn fail_spec(val: Value) -> ConvFail {
        match val {
            Value::List(vs) => if vs@.len() != 8 {
                ConvFail { reason: ConvReason::WrongLength, expected: "Array of length 8"@ }
            } else if !A::convertible(vs@[0]) {
                A::fail_spec(vs@[0])
            } else if !B::convertible(vs@[1]) {
                B::fail_spec(vs@[1])
            } else if !C::convertible(vs@[2]) {
                C::fail_spec(vs@[2])
            } else if !D::convertible(vs@[3]) {
                D::fail_spec(vs@[3])
            } else if !E::convertible(vs@[4]) {
                E::fail_spec(vs@[4])
            } else if !F::convertible(vs@[5]) {
                F::fail_spec(vs@[5])
            } else if !G::convertible(vs@[6]) {
                G::fail_spec(vs@[6])
            } else {
                H::fail_spec(vs@[7])
            },
            _ => ConvFail { reason: ConvReason::WrongType, expected: "Array"@ },
        }
    }

    fn try_convert(val: Value) -> (r: Result<(A, B, C, D, E, F, G, H), Error>) {
        let mut items = match val {
            Value::List(vs) => vs,
            _ => {
                return Err(Error::conversion(ConvReason::WrongType, "Array"));
            },
        };
        let ghost orig_vec: Vec<Value> = items;
        proof {
            assert(val == Value::List(orig_vec));
        }
        if items.len() != 8 {
            return Err(Error::conversion(ConvReason::WrongLength, "Array of length 8"));
        }
        let v0 = items.remove(0);
        let v1 = items.remove(0);
        let v2 = items.remove(0);
        let v3 = items.remove(0);
        let v4 = items.remove(0);
        let v5 = items.remove(0);
        let v6 = items.remove(0);
        let v7 = items.remove(0);
        proof {
            assert(v0 == orig_vec@[0]);
            assert(v1 == orig_vec@[1]);
            assert(v2 == orig_vec@[2]);
            assert(v3 == orig_vec@[3]);
            assert(v4 == orig_vec@[4]);
            assert(v5 == orig_vec@[5]);
            assert(v6 == orig_vec@[6]);
            assert(v7 == orig_vec@[7]);
        }
        let x0 = match A::try_convert(v0) {
            Ok(v) => v,
            Err(err) => {
                return Err(err);
            },
        };
        let x1 = match B::try_convert(v1) {
            Ok(v) => v,
            Err(err) => {
                return Err(err);
            },
        };
        let x2 = match C::try_convert(v2) {
            Ok(v) => v,
            Err(err) => {
                return Err(err);
            },
        };
        let x3 = match D::try_convert(v3) {
            Ok(v) => v,
            Err(err) => {
                return Err(err);
            },
        };
        let x4 = match E::try_convert(v4) {
            Ok(v) => v,
            Err(err) => {
                return Err(err);
            },
        };
        let x5 = match F::try_convert(v5) {
            Ok(v) => v,
            Err(err) => {
                return Err(err);
            },
        };
        let x6 = match G::try_convert(v6) {
            Ok(v) => v,
            Err(err) => {
                return Err(err);
            },
        };
        let x7 = match H::try_convert(v7) {
            Ok(v) => v,
            Err(err) => {
                return Err(err);
            },
        };
        Ok((x0, x1, x2, x3, x4, x5, x6, x7))
    }
}

impl<A: TryConvertOwned, B: TryConvertOwned, C: TryConvertOwned, D: TryConvertOwned, E: TryConvertOwned, F: TryConvertOwned, G: TryConvertOwned, H: TryConvertOwned> TryConvertOwned for (A, B, C, D, E, F, G, H) {
}

impl<A: TryConvert, B: TryConvert, C: TryConvert, D: TryConvert, E: TryConvert, F: TryConvert, G: TryConvert, H: TryConvert, I: TryConvert> TryConvert for (A, B, C, D, E, F, G, H, I) {
    open spec fn convertible(val: Value) -> bool {
        val is List && val->List_0@.len() == 9 && A::convertible(val->List_0@[0]) && B::convertible(val->List_0@[1]) && C::convertible(val->List_0@[2]) && D::convertible(val->List_0@[3]) && E::convertible(val->List_0@[4]) && F::convertible(val->List_0@[5]) && G::convertible(val->List_0@[6]) && H::convertible(val->List_0@[7]) && I::convertible(val->List_0@[8])
    }

    open spec fn converts_to(val: Value, out: (A, B, C, D, E, F, G, H, I)) -> bool {
        val is List && val->List_0@.len() == 9 && A::converts_to(val->List_0@[0], out.0) && B::converts_to(val->List_0@[1], out.1) && C::converts_to(val->List_0@[2], out.2) && D::converts_to(val->List_0@[3], out.3) && E::converts_to(val->List_0@[4], out.4) && F::converts_to(val->List_0@[5], out.5) && G::converts_to(val->List_0@[6], out.6) && H::converts_to(val->List_0@[7], out.7) && I::converts_to(val->List_0@[8], out.8)
    }

    open spec fn fail_spec(val: Value) -> ConvFail {
        match val {
            Value::List(vs) => if vs@.len() != 9 {
                ConvFail { reason: ConvReason::WrongLength, expected: "Array of length 9"@ }
            } else if !A::convertible(vs@[0]) {
                A::fail_spec(vs@[0])
            } else if !B::convertible(vs@[1]) {
                B::fail_spec(vs@[1])
            } else if !C::convertible(vs@[2]) {
                C::fail_spec(vs@[2])
            } else if !D::convertible(vs@[3]) {
                D::fail_spec(vs@[3])
            } else if !E::convertible(vs@[4]) {
                E::fail_spec(vs@[4])
            } else if !F::convertible(vs@[5]) {
                F::fail_spec(vs@[5])
            } else if !G::convertible(vs@[6]) {
                G::fail_spec(vs@[6])
            } else if !H::convertible(vs@[7]) {
                H::fail_spec(vs@[7])
            } else {
                I::fail_spec(vs@[8])
            },
            _ => ConvFail { reason: ConvReason::WrongType, expected: "Array"@ },
        }
    }

    fn try_convert(val: Value) -> (r: Result<(A, B, C, D, E, F, G, H, I), Error>) {
        let mut items = match val {
            Value::List(vs) => vs,
            _ => {
                return Err(Error::conversion(ConvReason::WrongType, "Array"));
            },
        };
        let ghost orig_vec: Vec<Value> = items;
        proof {
            assert(val == Value::List(orig_vec));
        }
        if items.len() != 9 {
            return Err(Error::conversion(ConvReason::WrongLength, "Array of length 9"));
        }
        let v0 = items.remove(0);
        let v1 = items.remove(0);
        let v2 = items.remove(0);
        let v3 = items.remove(0);
        let v4 = items.remove(0);
        let v5 = items.remove(0);
        let v6 = items.remove(0);
        let v7 = items.remove(0);
        let v8 = items.remove(0);
        proof {
            assert(v0 == orig_vec@[0]);
            assert(v1 == orig_vec@[1]);
            assert(v2 == orig_vec@[2]);
            assert(v3 == orig_vec@[3]);
            assert(v4 == orig_vec@[4]);
            assert(v5 == orig_vec@[5]);
            assert(v6 == orig_vec@[6]);
            assert(v7 == orig_vec@[7]);
            assert(v8 == orig_vec@[8]);
        }
        let x0 = match A::try_convert(v0) {
            Ok(v) => v,
            Err(err) => {
                return Err(err);
            },
        };
        let x1 = match B::try_convert(v1) {
            Ok(v) => v,
            Err(err) => {
                return Err(err);
            },
        };
        let x2 = match C::try_convert(v2) {
            Ok(v) => v,
            Err(err) => {
                return Err(err);
            },
        };
        let x3 = match D::try_convert(v3) {
            Ok(v) => v,
            Err(err) => {
                return Err(err);
            },
        };
        let x4 = match E::try_convert(v4) {
            Ok(v) => v,
            Err(err) => {
                return Err(err);
            },
        };
        let x5 = match F::try_convert(v5) {
            Ok(v) => v,
            Err(err) => {
                return Err(err);
            },
        };
        let x6 = match G::try_convert(v6) {
            Ok(v) => v,
            Err(err) => {
                return Err(err);
            },
        };
        let x7 = match H::try_convert(v7) {
            Ok(v) => v,
            Err(err) => {
                return Err(err);
            },
        };
        let x8 = match I::try_convert(v8) {
            Ok(v) => v,
            Err(err) => {
                return Err(err);
            },
        };
        Ok((x0, x1, x2, x3, x4, x5, x6, x7, x8))
    }
}

impl<A: TryConvertOwned, B: TryConvertOwned, C: TryConvertOwned, D: TryConvertOwned, E: TryConvertOwned, F: TryConvertOwned, G: TryConvertOwned, H: TryConvertOwned, I: TryConvertOwned> TryConvertOwned for (A, B, C, D, E, F, G, H, I) {
}

impl<A: TryConvert, B: TryConvert, C: TryConvert, D: TryConvert, E: TryConvert, F: TryConvert, G: TryConvert, H: TryConvert, I: TryConvert, J: TryConvert> TryConvert for (A, B, C, D, E, F, G, H, I, J) {
    open spec fn convertible(val: Value) -> bool {
        val is List && val->List_0@.len() == 10 && A::convertible(val->List_0@[0]) && B::convertible(val->List_0@[1]) && C::convertible(val->List_0@[2]) && D::convertible(val->List_0@[3]) && E::convertible(val->List_0@[4]) && F::convertible(val->List_0@[5]) && G::convertible(val->List_0@[6]) && H::convertible(val->List_0@[7]) && I::convertible(val->List_0@[8]) && J::convertible(val->List_0@[9])
    }

    open spec fn converts_to(val: Value, out: (A, B, C, D, E, F, G, H, I, J)) -> bool {
        val is List && val->List_0@.len() == 10 && A::converts_to(val->List_0@[0], out.0) && B::converts_to(val->List_0@[1], out.1) && C::converts_to(val->List_0@[2], out.2) && D::converts_to(val->List_0@[3], out.3) && E::converts_to(val->List_0@[4], out.4) && F::converts_to(val->List_0@[5], out.5) && G::converts_to(val->List_0@[6], out.6) && H::converts_to(val->List_0@[7], out.7) && I::converts_to(val->List_0@[8], out.8) && J::converts_to(val->List_0@[9], out.9)
    }

    open spec fn fail_spec(val: Value) -> ConvFail {
        match val {
            Value::List(vs) => if vs@.len() != 10 {
                ConvFail { reason: ConvReason::WrongLength, expected: "Array of length 10"@ }
            } else if !A::convertible(vs@[0]) {
                A::fail_spec(vs@[0])
            } else if !B::convertible(vs@[1]) {
                B::fail_spec(vs@[1])
            } else if !C::convertible(vs@[2]) {
                C::fail_spec(vs@[2])
            } else if !D::convertible(vs@[3]) {
                D::fail_spec(vs@[3])
            } else if !E::convertible(vs@[4]) {
                E::fail_spec(vs@[4])
            } else if !F::convertible(vs@[5]) {
                F::fail_spec(vs@[5])
            } else if !G::convertible(vs@[6]) {
                G::fail_spec(vs@[6])
            } else if !H::convertible(vs@[7]) {
                H::fail_spec(vs@[7])
            } else if !I::convertible(vs@[8]) {
                I::fail_spec(vs@[8])
            } else {
                J::fail_spec(vs@[9])
            },
            _ => ConvFail { reason: ConvReason::WrongType, expected: "Array"@ },
        }
    }

    fn try_convert(val: Value) -> (r: Result<(A, B, C, D, E, F, G, H, I, J), Error>) {
        let mut items = match val {
            Value::List(vs) => vs,
            _ => {
                return Err(Error::conversion(ConvReason::WrongType, "Array"));
            },
        };
        let ghost orig_vec: Vec<Value> = items;
        proof {
            assert(val == Value::List(orig_vec));
        }
        if items.len() != 10 {
            return Err(Error::conversion(ConvReason::WrongLength, "Array of length 10"));
        }
        let v0 = items.remove(0);
        let v1 = items.remove(0);
        let v2 = items.remove(0);
        let v3 = items.remove(0);
        let v4 = items.remove(0);
        let v5 = items.remove(0);
        let v6 = items.remove(0);
        let v7 = items.remove(0);
        let v8 = items.remove(0);
        let v9 = items.remove(0);
        proof {
            assert(v0 == orig_vec@[0]);
            assert(v1 == orig_vec@[1]);
            assert(v2 == orig_vec@[2]);
            assert(v3 == orig_vec@[3]);
            assert(v4 == orig_vec@[4]);
            assert(v5 == orig_vec@[5]);
            assert(v6 == orig_vec@[6]);
            assert(v7 == orig_vec@[7]);
            assert(v8 == orig_vec@[8]);
            assert(v9 == orig_vec@[9]);
        }
        let x0 = match A::try_convert(v0) {
            Ok(v) => v,
            Err(err) => {
                return Err(err);
            },
        };
        let x1 = match B::try_convert(v1) {
            Ok(v) => v,
            Err(err) => {
                return Err(err);
            },
        };
        let x2 = match C::try_convert(v2) {
            Ok(v) => v,
            Err(err) => {
                return Err(err);
            },
        };
        let x3 = match D::try_convert(v3) {
            Ok(v) => v,
            Err(err) => {
                return Err(err);
            },
        };
        let x4 = match E::try_convert(v4) {
            Ok(v) => v,
            Err(err) => {
                return Err(err);
            },
        };
        let x5 = match F::try_convert(v5) {
            Ok(v) => v,
            Err(err) => {
                return Err(err);
            },
        };
        let x6 = match G::try_convert(v6) {
            Ok(v) => v,
            Err(err) => {
                return Err(err);
            },
        };
        let x7 = match H::try_convert(v7) {
            Ok(v) => v,
            Err(err) => {
                return Err(err);
            },
        };
        let x8 = match I::try_convert(v8) {
            Ok(v) => v,
            Err(err) => {
                return Err(err);
            },
        };
        let x9 = match J::try_convert(v9) {
            Ok(v) => v,
            Err(err) => {
                return Err(err);
            },
        };
        Ok((x0, x1, x2, x3, x4, x5, x6, x7, x8, x9))
    }
}

impl<A: TryConvertOwned, B: TryConvertOwned, C: TryConvertOwned, D: TryConvertOwned, E: TryConvertOwned, F: TryConvertOwned, G: TryConvertOwned, H: TryConvertOwned, I: TryConvertOwned, J: TryConvertOwned> TryConvertOwned for (A, B, C, D, E, F, G, H, I, J) {
}

impl<A: TryConvert, B: TryConvert, C: TryConvert, D: TryConvert, E: TryConvert, F: TryConvert, G: TryConvert, H: TryConvert, I: TryConvert, J: TryConvert, K: TryConvert> TryConvert for (A, B, C, D, E, F, G, H, I, J, K) {
    open spec fn convertible(val: Value) -> bool {
        val is List && val->List_0@.len() == 11 && A::convertible(val->List_0@[0]) && B::convertible(val->List_0@[1]) && C::convertible(val->List_0@[2]) && D::convertible(val->List_0@[3]) && E::convertible(val->List_0@[4]) && F::convertible(val->List_0@[5]) && G::convertible(val->List_0@[6]) && H::convertible(val->List_0@[7]) && I::convertible(val->List_0@[8]) && J::convertible(val->List_0@[9]) && K::convertible(val->List_0@[10])
    }

    open spec fn converts_to(val: Value, out: (A, B, C, D, E, F, G, H, I, J, K)) -> bool {
        val is List && val->List_0@.len() == 11 && A::converts_to(val->List_0@[0], out.0) && B::converts_to(val->List_0@[1], out.1) && C::converts_to(val->List_0@[2], out.2) && D::converts_to(val->List_0@[3], out.3) && E::converts_to(val->List_0@[4], out.4) && F::converts_to(val->List_0@[5], out.5) && G::converts_to(val->List_0@[6], out.6) && H::converts_to(val->List_0@[7], out.7) && I::converts_to(val->List_0@[8], out.8) && J::converts_to(val->List_0@[9], out.9) && K::converts_to(val->List_0@[10], out.10)
    }

    open spec fn fail_spec(val: Value) -> ConvFail {
        match val {
            Value::List(vs) => if vs@.len() != 11 {
                ConvFail { reason: ConvReason::WrongLength, expected: "Array of length 11"@ }
            } else if !A::convertible(vs@[0]) {
                A::fail_spec(vs@[0])
            } else if !B::convertible(vs@[1]) {
                B::fail_spec(vs@[1])
            } else if !C::convertible(vs@[2]) {
                C::fail_spec(vs@[2])
            } else if !D::convertible(vs@[3]) {
                D::fail_spec(vs@[3])
            } else if !E::convertible(vs@[4]) {
                E::fail_spec(vs@[4])
            } else if !F::convertible(vs@[5]) {
                F::fail_spec(vs@[5])
            } else if !G::convertible(vs@[6]) {
                G::fail_spec(vs@[6])
            } else if !H::convertible(vs@[7]) {
                H::fail_spec(vs@[7])
            } else if !I::convertible(vs@[8]) {
                I::fail_spec(vs@[8])
            } else if !J::convertible(vs@[9]) {
                J::fail_spec(vs@[9])
            } else {
                K::fail_spec(vs@[10])
            },
            _ => ConvFail { reason: ConvReason::WrongType, expected: "Array"@ },
        }
    }

    fn try_convert(val: Value) -> (r: Result<(A, B, C, D, E, F, G, H, I, J, K), Error>) {
        let mut items = match val {
            Value::List(vs) => vs,
            _ => {
                return Err(Error::conversion(ConvReason::WrongType, "Array"));
            },
        };
        let ghost orig_vec: Vec<Value> = items;
        proof {
            assert(val == Value::List(orig_vec));
        }
        if items.len() != 11 {
            return Err(Error::conversion(ConvReason::WrongLength, "Array of length 11"));
        }
        let v0 = items.remove(0);
        let v1 = items.remove(0);
        let v2 = items.remove(0);
        let v3 = items.remove(0);
        let v4 = items.remove(0);
        let v5 = items.remove(0);
        let v6 = items.remove(0);
        let v7 = items.remove(0);
        let v8 = items.remove(0);
        let v9 = items.remove(0);
        let v10 = items.remove(0);
        proof {
            assert(v0 == orig_vec@[0]);
            assert(v1 == orig_vec@[1]);
            assert(v2 == orig_vec@[2]);
            assert(v3 == orig_vec@[3]);
            assert(v4 == orig_vec@[4]);
            assert(v5 == orig_vec@[5]);
            assert(v6 == orig_vec@[6]);
            assert(v7 == orig_vec@[7]);
            assert(v8 == orig_vec@[8]);
            assert(v9 == orig_vec@[9]);
            assert(v10 == orig_vec@[10]);
        }
        let x0 = match A::try_convert(v0) {
            Ok(v) => v,
            Err(err) => {
                return Err(err);
            },
        };
        let x1 = match B::try_convert(v1) {
            Ok(v) => v,
            Err(err) => {
                return Err(err);
            },
        };
        let x2 = match C::try_convert(v2) {
            Ok(v) => v,
            Err(err) => {
                return Err(err);
            },
        };
        let x3 = match D::try_convert(v3) {
            Ok(v) => v,
            Err(err) => {
                return Err(err);
            },
        };
        let x4 = match E::try_convert(v4) {
            Ok(v) => v,
            Err(err) => {
                return Err(err);
            },
        };
        let x5 = match F::try_convert(v5) {
            Ok(v) => v,
            Err(err) => {
                return Err(err);
            },
        };
        let x6 = match G::try_convert(v6) {
            Ok(v) => v,
            Err(err) => {
                return Err(err);
            },
        };
        let x7 = match H::try_convert(v7) {
            Ok(v) => v,
            Err(err) => {
                return Err(err);
            },
        };
        let x8 = match I::try_convert(v8) {
            Ok(v) => v,
            Err(err) => {
                return Err(err);
            },
        };
        let x9 = match J::try_convert(v9) {
            Ok(v) => v,
            Err(err) => {
                return Err(err);
            },
        };
        let x10 = match K::try_convert(v10) {
            Ok(v) => v,
            Err(err) => {
                return Err(err);
            },
        };
        Ok((x0, x1, x2, x3, x4, x5, x6, x7, x8, x9, x10))
    }
}

impl<A: TryConvertOwned, B: TryConvertOwned, C: TryConvertOwned, D: TryConvertOwned, E: TryConvertOwned, F: TryConvertOwned, G: TryConvertOwned, H: TryConvertOwned, I: TryConvertOwned, J: TryConvertOwned, K: TryConvertOwned> TryConvertOwned for (A, B, C, D, E, F, G, H, I, J, K) {
}

impl<A: TryConvert, B: TryConvert, C: TryConvert, D: TryConvert, E: TryConvert, F: TryConvert, G: TryConvert, H: TryConvert, I: TryConvert, J: TryConvert, K: TryConvert, L: TryConvert> TryConvert for (A, B, C, D, E, F, G, H, I, J, K, L) {
    open spec fn convertible(val: Value) -> bool {
        val is List && val->List_0@.len() == 12 && A::convertible(val->List_0@[0]) && B::convertible(val->List_0@[1]) && C::convertible(val->List_0@[2]) && D::convertible(val->List_0@[3]) && E::convertible(val->List_0@[4]) && F::convertible(val->List_0@[5]) && G::convertible(val->List_0@[6]) && H::convertible(val->List_0@[7]) && I::convertible(val->List_0@[8]) && J::convertible(val->List_0@[9]) && K::convertible(val->List_0@[10]) && L::convertible(val->List_0@[11])
    }

    open spec fn converts_to(val: Value, out: (A, B, C, D, E, F, G, H, I, J, K, L)) -> bool {
        val is List && val->List_0@.len() == 12 && A::converts_to(val->List_0@[0], out.0) && B::converts_to(val->List_0@[1], out.1) && C::converts_to(val->List_0@[2], out.2) && D::converts_to(val->List_0@[3], out.3) && E::converts_to(val->List_0@[4], out.4) && F::converts_to(val->List_0@[5], out.5) && G::converts_to(val->List_0@[6], out.6) && H::converts_to(val->List_0@[7], out.7) && I::converts_to(val->List_0@[8], out.8) && J::converts_to(val->List_0@[9], out.9) && K::converts_to(val->List_0@[10], out.10) && L::converts_to(val->List_0@[11], out.11)
    }

    open spec fn fail_spec(val: Value) -> ConvFail {
        match val {
            Value::List(vs) => if vs@.len() != 12 {
                ConvFail { reason: ConvReason::WrongLength, expected: "Array of length 12"@ }
            } else if !A::convertible(vs@[0]) {
                A::fail_spec(vs@[0])
            } else if !B::convertible(vs@[1]) {
                B::fail_spec(vs@[1])
            } else if !C::convertible(vs@[2]) {
                C::fail_spec(vs@[2])
            } else if !D::convertible(vs@[3]) {
                D::fail_spec(vs@[3])
            } else if !E::convertible(vs@[4]) {
                E::fail_spec(vs@[4])
            } else if !F::convertible(vs@[5]) {
                F::fail_spec(vs@[5])
            } else if !G::convertible(vs@[6]) {
                G::fail_spec(vs@[6])
            } else if !H::convertible(vs@[7]) {
                H::fail_spec(vs@[7])
            } else if !I::convertible(vs@[8]) {
                I::fail_spec(vs@[8])
            } else if !J::convertible(vs@[9]) {
                J::fail_spec(vs@[9])
            } else if !K::convertible(vs@[10]) {
                K::fail_spec(vs@[10])
            } else {
                L::fail_spec(vs@[11])
            },
            _ => ConvFail { reason: ConvReason::WrongType, expected: "Array"@ },
        }
    }

    fn try_convert(val: Value) -> (r: Result<(A, B, C, D, E, F, G, H, I, J, K, L), Error>) {
        let mut items = match val {
            Value::List(vs) => vs,
            _ => {
                return Err(Error::conversion(ConvReason::WrongType, "Array"));
            },
        };
        let ghost orig_vec: Vec<Value> = items;
        proof {
            assert(val == Value::List(orig_vec));
        }
        if items.len() != 12 {
            return Err(Error::conversion(ConvReason::WrongLength, "Array of length 12"));
        }
        let v0 = items.remove(0);
        let v1 = items.remove(0);
        let v2 = items.remove(0);
        let v3 = items.remove(0);
        let v4 = items.remove(0);
        let v5 = items.remove(0);
        let v6 = items.remove(0);
        let v7 = items.remove(0);
        let v8 = items.remove(0);
        let v9 = items.remove(0);
        let v10 = items.remove(0);
        let v11 = items.remove(0);
        proof {
            assert(v0 == orig_vec@[0]);
            assert(v1 == orig_vec@[1]);
            assert(v2 == orig_vec@[2]);
            assert(v3 == orig_vec@[3]);
            assert(v4 == orig_vec@[4]);
            assert(v5 == orig_vec@[5]);
            assert(v6 == orig_vec@[6]);
            assert(v7 == orig_vec@[7]);
            assert(v8 == orig_vec@[8]);
            assert(v9 == orig_vec@[9]);
            assert(v10 == orig_vec@[10]);
            assert(v11 == orig_vec@[11]);
        }
        let x0 = match A::try_convert(v0) {
            Ok(v) => v,
            Err(err) => {
                return Err(err);
            },
        };
        let x1 = match B::try_convert(v1) {
            Ok(v) => v,
            Err(err) => {
                return Err(err);
            },
        };
        let x2 = match C::try_convert(v2) {
            Ok(v) => v,
            Err(err) => {
                return Err(err);
            },
        };
        let x3 = match D::try_convert(v3) {
            Ok(v) => v,
            Err(err) => {
                return Err(err);
            },
        };
        let x4 = match E::try_convert(v4) {
            Ok(v) => v,
            Err(err) => {
                return Err(err);
            },
        };
        let x5 = match F::try_convert(v5) {
            Ok(v) => v,
            Err(err) => {
                return Err(err);
            },
        };
        let x6 = match G::try_convert(v6) {
            Ok(v) => v,
            Err(err) => {
                return Err(err);
            },
        };
        let x7 = match H::try_convert(v7) {
            Ok(v) => v,
            Err(err) => {
                return Err(err);
            },
        };
        let x8 = match I::try_convert(v8) {
            Ok(v) => v,
            Err(err) => {
                return Err(err);
            },
        };
        let x9 = match J::try_convert(v9) {
            Ok(v) => v,
            Err(err) => {
                return Err(err);
            },
        };
        let x10 = match K::try_convert(v10) {
            Ok(v) => v,
            Err(err) => {
                return Err(err);
            },
        };
        let x11 = match L::try_convert(v11) {
            Ok(v) => v,
            Err(err) => {
                return Err(err);
            },
        };
        Ok((x0, x1, x2, x3, x4, x5, x6, x7, x8, x9, x10, x11))
    }
}

impl<A: TryConvertOwned, B: TryConvertOwned, C: TryConvertOwned, D: TryConvertOwned, E: TryConvertOwned, F: TryConvertOwned, G: TryConvertOwned, H: TryConvertOwned, I: TryConvertOwned, J: TryConvertOwned, K: TryConvertOwned, L: TryConvertOwned> TryConvertOwned for (A, B, C, D, E, F, G, H, I, J, K, L) {
}

/// Round trip, handle to native and back: the value that an integer handle
/// converts to as `i64` converts back into that very handle, so the host
/// observes the same value.
pub proof fn lemma_i64_handle_round_trip(v: Value, x: i64)
    requires
        <i64 as TryConvert>::converts_to(v, x),
    ensures
        x.is_value_of(v),
{
}

/// Round trip, native to handle and back: the handle a `i64` produces
/// converts, and only back to that same value.
pub proof fn lemma_i64_value_round_trip(x: i64, v: Value)
    requires
        x.is_value_of(v),
    ensures
        <i64 as TryConvert>::convertible(v),
        forall|y: i64| <i64 as TryConvert>::converts_to(v, y) ==> y == x,
{
}

/// An integer handle converts to `i64` exactly when its value lies in the
/// type's range; a value past either bound fails with an out-of-range
/// error — it is never silently wrapped.
pub proof fn lemma_i64_range(i: i128)
    ensures
        <i64 as TryConvert>::convertible(Value::Integer(i)) <==> i64::MIN <= i <= i64::MAX,
        !(i64::MIN <= i <= i64::MAX) ==> <i64 as TryConvert>::fail_spec(Value::Integer(i)).reason
            == ConvReason::OutOfRange,
{
}

/// Round trip, handle to native and back: the value that an integer handle
/// converts to as `u64` converts back into that very handle, so the host
/// observes the same value.
pub proof fn lemma_u64_handle_round_trip(v: Value, x: u64)
    requires
        <u64 as TryConvert>::converts_to(v, x),
    ensures
        x.is_value_of(v),
{
}

/// Round trip, native to handle and back: the handle a `u64` produces
/// converts, and only back to that same value.
pub proof fn lemma_u64_value_round_trip(x: u64, v: Value)
    requires
        x.is_value_of(v),
    ensures
        <u64 as TryConvert>::convertible(v),
        forall|y: u64| <u64 as TryConvert>::converts_to(v, y) ==> y == x,
{
}

/// An integer handle converts to `u64` exactly when its value lies in the
/// type's range; a value past either bound fails with an out-of-range
/// error — it is never silently wrapped.
pub proof fn lemma_u64_range(i: i128)
    ensures
        <u64 as TryConvert>::convertible(Value::Integer(i)) <==> u64::MIN <= i <= u64::MAX,
        !(u64::MIN <= i <= u64::MAX) ==> <u64 as TryConvert>::fail_spec(Value::Integer(i)).reason
            == ConvReason::OutOfRange,
{
}

} // verus!
