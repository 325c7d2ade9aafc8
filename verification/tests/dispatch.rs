use std::cell::Cell;

use rb_dispatch::block::BlockSink;
use rb_dispatch::error::{ConvReason, Error, Position};
use rb_dispatch::function::{Function0, Function1, Function2, FunctionCAry, FunctionRbAry};
use rb_dispatch::method::{Block, Init, Method0, Method1, Method2, Method3, MethodCAry,
    MethodRbAry};
use rb_dispatch::value::Value;

fn conv_error_at(position: Position, reason: ConvReason, expected: &str) -> Error {
    Error::Conversion {
        position: Some(position),
        reason,
        expected: expected.to_string(),
    }
}

#[test]
fn method2_invokes_once_with_converted_values_in_order() {
    let count = Cell::new(0u32);
    let f = |s: i64, a: i64, b: i64| -> i64 {
        count.set(count.get() + 1);
        s * 100 + a * 10 + b
    };
    let mut sink = BlockSink::new();
    let r = Method2::new(f).call_convert_value(
        Value::Integer(1),
        Value::Integer(2),
        Value::Integer(3),
        &mut sink,
    );
    assert_eq!(r, Ok(Value::Integer(123)));
    assert_eq!(count.get(), 1);
    assert!(sink.calls.is_empty());
}

#[test]
fn method0_converts_only_the_receiver() {
    let f = |s: i64| -> i64 { s + 1 };
    let mut sink = BlockSink::new();
    let r = Method0::new(f).call_convert_value(Value::Integer(41), &mut sink);
    assert_eq!(r, Ok(Value::Integer(42)));
}

#[test]
fn failing_receiver_is_reported_and_function_not_invoked() {
    let count = Cell::new(0u32);
    let f = |s: i64, a: i64| -> i64 {
        count.set(count.get() + 1);
        s + a
    };
    let mut sink = BlockSink::new();
    let r = Method1::new(f).call_convert_value(Value::Nil, Value::Integer(2), &mut sink);
    assert_eq!(
        r,
        Err(conv_error_at(Position::Receiver, ConvReason::WrongType, "Integer"))
    );
    assert_eq!(count.get(), 0);
    assert!(sink.calls.is_empty());
}

#[test]
fn failing_argument_is_reported_with_its_index() {
    let count = Cell::new(0u32);
    let f = |s: i64, a: i64, b: String, c: i64| -> i64 {
        count.set(count.get() + 1);
        s + a + b.len() as i64 + c
    };
    let mut sink = BlockSink::new();
    let r = Method3::new(f).call_convert_value(
        Value::Integer(0),
        Value::Integer(1),
        Value::Nil,
        Value::Integer(3),
        &mut sink,
    );
    assert_eq!(
        r,
        Err(conv_error_at(Position::Index(1), ConvReason::WrongType, "String"))
    );
    assert_eq!(count.get(), 0);
}

#[test]
fn first_conversion_failure_wins() {
    // both argument slots fail; the reported position is the left one
    let f = |s: i64, a: i64, b: i64| -> i64 { s + a + b };
    let mut sink = BlockSink::new();
    let r = Method2::new(f).call_convert_value(
        Value::Integer(0),
        Value::Nil,
        Value::Boolean(true),
        &mut sink,
    );
    assert_eq!(
        r,
        Err(conv_error_at(Position::Index(0), ConvReason::WrongType, "Integer"))
    );
}

#[test]
fn out_of_range_argument_is_reported_with_reason() {
    let f = |s: i64, a: u8| -> i64 { s + a as i64 };
    let mut sink = BlockSink::new();
    let r = Method1::new(f).call_convert_value(
        Value::Integer(0),
        Value::Integer(256),
        &mut sink,
    );
    assert_eq!(
        r,
        Err(conv_error_at(Position::Index(0), ConvReason::OutOfRange, "Integer in u8 range"))
    );
}

#[test]
fn user_error_propagates_unchanged() {
    let f = |_s: i64| -> Result<i64, Error> {
        Err(Error::User { message: "no".to_string() })
    };
    let mut sink = BlockSink::new();
    let r = Method0::new(f).call_convert_value(Value::Integer(1), &mut sink);
    assert_eq!(r, Err(Error::User { message: "no".to_string() }));
}

#[test]
fn user_ok_result_is_unwrapped_and_converted() {
    let f = |s: i64| -> Result<i64, Error> { Ok(s * 2) };
    let mut sink = BlockSink::new();
    let r = Method0::new(f).call_convert_value(Value::Integer(21), &mut sink);
    assert_eq!(r, Ok(Value::Integer(42)));
}

#[test]
fn function_adapters_never_convert_the_receiver_slot() {
    // the receiver slot holds a value that would fail every conversion the
    // call needs; a self-free adapter must not raise from it
    let count = Cell::new(0u32);
    let f = |a: i64| -> i64 {
        count.set(count.get() + 1);
        a * 3
    };
    let mut sink = BlockSink::new();
    let r = Function1::new(f).call_ignoring_self(
        Value::Boolean(true),
        Value::Integer(5),
        &mut sink,
    );
    assert_eq!(r, Ok(Value::Integer(15)));
    assert_eq!(count.get(), 1);
}

#[test]
fn function0_takes_no_arguments() {
    let f = || -> &'static str { "ok" };
    let mut sink = BlockSink::new();
    let r = Function0::new(f).call_convert_value(&mut sink);
    assert_eq!(r, Ok(Value::Text(b"ok".to_vec())));
}

#[test]
fn function2_converts_left_to_right() {
    let f = |a: i64, b: i64| -> i64 { a - b };
    let mut sink = BlockSink::new();
    let r = Function2::new(f).call_convert_value(
        Value::Integer(10),
        Value::Integer(4),
        &mut sink,
    );
    assert_eq!(r, Ok(Value::Integer(6)));
    let mut sink2 = BlockSink::new();
    let r2 = Function2::new(f).call_convert_value(Value::Nil, Value::Nil, &mut sink2);
    assert_eq!(
        r2,
        Err(conv_error_at(Position::Index(0), ConvReason::WrongType, "Integer"))
    );
}

#[test]
fn method_rb_ary_converts_the_aggregate() {
    let f = |s: i64, args: Vec<i64>| -> i64 { s + args.iter().sum::<i64>() };
    let mut sink = BlockSink::new();
    let r = MethodRbAry::new(f).call_convert_value(
        Value::Integer(1),
        Value::List(vec![Value::Integer(2), Value::Integer(3)]),
        &mut sink,
    );
    assert_eq!(r, Ok(Value::Integer(6)));
    let mut sink2 = BlockSink::new();
    let r2 = MethodRbAry::new(f).call_convert_value(Value::Integer(1), Value::Nil, &mut sink2);
    assert_eq!(
        r2,
        Err(conv_error_at(Position::Index(0), ConvReason::WrongType, "Array"))
    );
}

#[test]
fn method_c_ary_passes_raw_handles_through() {
    let f = |s: i64, args: &[Value]| -> i64 { s + args.len() as i64 };
    let mut sink = BlockSink::new();
    let args = [Value::Nil, Value::Boolean(true), Value::Integer(9)];
    let r = MethodCAry::new(f).call_convert_value(&args, Value::Integer(10), &mut sink);
    assert_eq!(r, Ok(Value::Integer(13)));
}

#[test]
fn function_rb_ary_and_c_ary_ignore_the_receiver() {
    let f = |args: Vec<i64>| -> i64 { args.len() as i64 };
    let mut sink = BlockSink::new();
    let r = FunctionRbAry::new(f).call_ignoring_self(
        Value::Nil,
        Value::List(vec![Value::Integer(7)]),
        &mut sink,
    );
    assert_eq!(r, Ok(Value::Integer(1)));

    let g = |args: &[Value]| -> i64 { args.len() as i64 };
    let mut sink2 = BlockSink::new();
    let args = [Value::Nil];
    let r2 = FunctionCAry::new(g).call_ignoring_self(Value::Nil, &args, &mut sink2);
    assert_eq!(r2, Ok(Value::Integer(1)));
}

#[test]
fn init_normalises_both_return_shapes() {
    let ok = || -> Result<(), Error> { Ok(()) };
    assert_eq!(Init::new(ok).call_convert_value(), Ok(()));
    let unit = || -> () {};
    assert_eq!(Init::new(unit).call_convert_value(), Ok(()));
    let fail = || -> Result<(), Error> {
        Err(Error::User { message: "init failed".to_string() })
    };
    assert_eq!(
        Init::new(fail).call_convert_value(),
        Err(Error::User { message: "init failed".to_string() })
    );
}

#[test]
fn block_receives_raw_arguments_and_block_handle() {
    let f = |args: &[Value], block: Option<Value>| -> i64 {
        args.len() as i64 + if block.is_some() { 100 } else { 0 }
    };
    let args = [Value::Integer(1), Value::Integer(2)];
    let r = Block::new(f).call_convert_value(&args, Value::Nil);
    assert_eq!(r, Ok(Value::Integer(2)));
    let r2 = Block::new(f).call_convert_value(&args, Value::Integer(77));
    assert_eq!(r2, Ok(Value::Integer(102)));
}
