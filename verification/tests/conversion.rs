use rb_dispatch::error::{ConvReason, Error, Position};
use rb_dispatch::into_value::IntoValue;
use rb_dispatch::try_convert::TryConvert;
use rb_dispatch::value::Value;

fn wrong_type(expected: &str) -> Error {
    Error::Conversion {
        position: None,
        reason: ConvReason::WrongType,
        expected: expected.to_string(),
    }
}

fn out_of_range(expected: &str) -> Error {
    Error::Conversion {
        position: None,
        reason: ConvReason::OutOfRange,
        expected: expected.to_string(),
    }
}

#[test]
fn i64_round_trip_boundary_values() {
    for x in [0i64, -1, 1, i64::MIN, i64::MAX] {
        let handle = x.into_value();
        assert_eq!(handle, Value::Integer(x as i128));
        let back = i64::try_convert(handle).unwrap();
        assert_eq!(back, x);
        assert_eq!(back.into_value(), Value::Integer(x as i128));
    }
}

#[test]
fn i64_one_past_each_bound_fails_out_of_range() {
    let too_big = Value::Integer(i64::MAX as i128 + 1);
    assert_eq!(
        i64::try_convert(too_big),
        Err(out_of_range("Integer in i64 range"))
    );
    let too_small = Value::Integer(i64::MIN as i128 - 1);
    assert_eq!(
        i64::try_convert(too_small),
        Err(out_of_range("Integer in i64 range"))
    );
}

#[test]
fn u64_round_trip_and_bounds() {
    for x in [0u64, 1, u64::MAX] {
        let back = u64::try_convert(x.into_value()).unwrap();
        assert_eq!(back, x);
    }
    assert_eq!(
        u64::try_convert(Value::Integer(-1)),
        Err(out_of_range("Integer in u64 range"))
    );
    assert_eq!(
        u64::try_convert(Value::Integer(u64::MAX as i128 + 1)),
        Err(out_of_range("Integer in u64 range"))
    );
}

#[test]
fn u8_bounds() {
    assert_eq!(u8::try_convert(Value::Integer(255)), Ok(255u8));
    assert_eq!(
        u8::try_convert(Value::Integer(256)),
        Err(out_of_range("Integer in u8 range"))
    );
    assert_eq!(
        u8::try_convert(Value::Integer(-1)),
        Err(out_of_range("Integer in u8 range"))
    );
}

#[test]
fn integer_conversion_rejects_other_host_types() {
    assert_eq!(i64::try_convert(Value::Nil), Err(wrong_type("Integer")));
    assert_eq!(
        i32::try_convert(Value::Boolean(true)),
        Err(wrong_type("Integer"))
    );
    assert_eq!(
        isize::try_convert(Value::Text(b"5".to_vec())),
        Err(wrong_type("Integer"))
    );
}

#[test]
fn bool_follows_host_truthiness() {
    assert_eq!(bool::try_convert(Value::Nil), Ok(false));
    assert_eq!(bool::try_convert(Value::Boolean(false)), Ok(false));
    assert_eq!(bool::try_convert(Value::Boolean(true)), Ok(true));
    // everything else is true, even zero and the empty string
    assert_eq!(bool::try_convert(Value::Integer(0)), Ok(true));
    assert_eq!(bool::try_convert(Value::Text(vec![])), Ok(true));
}

#[test]
fn string_decodes_utf8_text() {
    let v = Value::Text("héllo ☃".as_bytes().to_vec());
    assert_eq!(String::try_convert(v), Ok("héllo ☃".to_string()));
}

#[test]
fn string_rejects_invalid_utf8() {
    let v = Value::Text(vec![0xff, 0xfe]);
    assert_eq!(
        String::try_convert(v),
        Err(Error::Conversion {
            position: None,
            reason: ConvReason::InvalidEncoding,
            expected: "String in UTF-8".to_string(),
        })
    );
}

#[test]
fn string_round_trip_through_handle() {
    let s = "göodbye".to_string();
    let v = s.clone().into_value();
    assert_eq!(v, Value::Text("göodbye".as_bytes().to_vec()));
    assert_eq!(String::try_convert(v), Ok(s));
}

#[test]
fn char_takes_exactly_one_character() {
    assert_eq!(char::try_convert(Value::Text("A".as_bytes().to_vec())), Ok('A'));
    assert_eq!(char::try_convert(Value::Text("☃".as_bytes().to_vec())), Ok('☃'));
    assert_eq!(
        char::try_convert(Value::Text("ab".as_bytes().to_vec())),
        Err(Error::Conversion {
            position: None,
            reason: ConvReason::WrongLength,
            expected: "String of one character".to_string(),
        })
    );
    assert_eq!(
        char::try_convert(Value::Nil),
        Err(wrong_type("String"))
    );
}

#[test]
fn option_maps_nil_to_none() {
    assert_eq!(Option::<i64>::try_convert(Value::Nil), Ok(None));
    assert_eq!(Option::<i64>::try_convert(Value::Integer(7)), Ok(Some(7)));
    assert_eq!(
        Option::<i64>::try_convert(Value::Boolean(true)),
        Err(wrong_type("Integer"))
    );
}

#[test]
fn vec_converts_each_element() {
    let v = Value::List(vec![
        Value::Integer(1),
        Value::Integer(2),
        Value::Integer(3),
    ]);
    assert_eq!(Vec::<i64>::try_convert(v), Ok(vec![1i64, 2, 3]));
    assert_eq!(Vec::<i64>::try_convert(Value::List(vec![])), Ok(vec![]));
    assert_eq!(Vec::<i64>::try_convert(Value::Nil), Err(wrong_type("Array")));
}

#[test]
fn vec_reports_first_failing_element() {
    let v = Value::List(vec![
        Value::Integer(1),
        Value::Nil,
        Value::Boolean(true),
    ]);
    // the element's own error propagates, without a position
    assert_eq!(Vec::<i64>::try_convert(v), Err(wrong_type("Integer")));
}

#[test]
fn pair_converts_from_two_element_array() {
    let v = Value::List(vec![Value::Integer(3), Value::Text(b"x".to_vec())]);
    assert_eq!(
        <(i64, String)>::try_convert(v),
        Ok((3i64, "x".to_string()))
    );
}

#[test]
fn pair_rejects_wrong_length() {
    let v = Value::List(vec![Value::Integer(3)]);
    assert_eq!(
        <(i64, i64)>::try_convert(v),
        Err(Error::Conversion {
            position: None,
            reason: ConvReason::WrongLength,
            expected: "Array of length 2".to_string(),
        })
    );
    assert_eq!(<(i64, i64)>::try_convert(Value::Nil), Err(wrong_type("Array")));
}

#[test]
fn triple_reports_first_failing_element() {
    let v = Value::List(vec![Value::Integer(1), Value::Nil, Value::Nil]);
    assert_eq!(
        <(i64, i64, i64)>::try_convert(v),
        Err(wrong_type("Integer"))
    );
}

#[test]
fn bytes_copies_raw_text_bytes() {
    let v = Value::Text(vec![0xff, 0x00, b'a']);
    let b = bytes::Bytes::try_convert(v).unwrap();
    assert_eq!(b.as_ref(), &[0xff, 0x00, b'a']);
    assert_eq!(
        bytes::Bytes::try_convert(Value::Integer(1)),
        Err(wrong_type("String"))
    );
}

#[test]
fn value_converts_to_itself() {
    let v = Value::List(vec![Value::Nil]);
    assert_eq!(Value::try_convert(v), Ok(Value::List(vec![Value::Nil])));
}

#[test]
fn into_value_for_compound_types() {
    assert_eq!(().into_value(), Value::Nil);
    assert_eq!(true.into_value(), Value::Boolean(true));
    assert_eq!(None::<i64>.into_value(), Value::Nil);
    assert_eq!(Some(4i64).into_value(), Value::Integer(4));
    assert_eq!(
        vec![1u8, 2].into_value(),
        Value::List(vec![Value::Integer(1), Value::Integer(2)])
    );
    assert_eq!("hi".into_value(), Value::Text(b"hi".to_vec()));
}

#[test]
fn position_is_attached_by_at_position() {
    let e = wrong_type("Integer");
    assert_eq!(
        e.at_position(Position::Index(3)),
        Error::Conversion {
            position: Some(Position::Index(3)),
            reason: ConvReason::WrongType,
            expected: "Integer".to_string(),
        }
    );
    let user = Error::User { message: "boom".to_string() };
    assert_eq!(
        user.at_position(Position::Receiver),
        Error::User { message: "boom".to_string() }
    );
}
