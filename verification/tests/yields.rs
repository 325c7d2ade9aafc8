use rb_dispatch::block::{BlockCall, BlockSink, VecSource, Yield, YieldSplat, YieldValues};
use rb_dispatch::error::Error;
use rb_dispatch::function::Function0;
use rb_dispatch::method::Method0;
use rb_dispatch::value::Value;

#[test]
fn yield_drives_block_once_per_element_in_order() {
    let f = || -> Yield<VecSource<i64>> {
        Yield::Iter(VecSource::new(vec![10, 20, 30]))
    };
    let mut sink = BlockSink::new();
    let r = Function0::new(f).call_convert_value(&mut sink);
    assert_eq!(r, Ok(Value::Nil));
    assert_eq!(
        sink.calls,
        vec![
            BlockCall::Single(Value::Integer(10)),
            BlockCall::Single(Value::Integer(20)),
            BlockCall::Single(Value::Integer(30)),
        ]
    );
}

#[test]
fn yield_of_empty_source_makes_no_block_calls() {
    let f = || -> Yield<VecSource<i64>> { Yield::Iter(VecSource::new(vec![])) };
    let mut sink = BlockSink::new();
    let r = Function0::new(f).call_convert_value(&mut sink);
    assert_eq!(r, Ok(Value::Nil));
    assert!(sink.calls.is_empty());
}

#[test]
fn requesting_an_enumerator_does_not_drive_the_sequence() {
    let f = || -> Yield<VecSource<i64>> { Yield::Enumerator(Value::Integer(99)) };
    let mut sink = BlockSink::new();
    let r = Function0::new(f).call_convert_value(&mut sink);
    assert_eq!(r, Ok(Value::Integer(99)));
    assert!(sink.calls.is_empty());
}

#[test]
fn yield_values_expands_each_element_into_arguments() {
    let f = |s: i64| -> YieldValues<VecSource<(i64, bool)>> {
        YieldValues::Iter(VecSource::new(vec![(s, true), (s + 1, false)]))
    };
    let mut sink = BlockSink::new();
    let r = Method0::new(f).call_convert_value(Value::Integer(5), &mut sink);
    assert_eq!(r, Ok(Value::Nil));
    assert_eq!(
        sink.calls,
        vec![
            BlockCall::Values(vec![Value::Integer(5), Value::Boolean(true)]),
            BlockCall::Values(vec![Value::Integer(6), Value::Boolean(false)]),
        ]
    );
}

#[test]
fn yield_splat_passes_each_aggregate_whole() {
    let f = || -> YieldSplat<VecSource<Vec<Value>>> {
        YieldSplat::Iter(VecSource::new(vec![
            vec![Value::Integer(1), Value::Nil],
            vec![],
        ]))
    };
    let mut sink = BlockSink::new();
    let r = Function0::new(f).call_convert_value(&mut sink);
    assert_eq!(r, Ok(Value::Nil));
    assert_eq!(
        sink.calls,
        vec![
            BlockCall::Splat(vec![Value::Integer(1), Value::Nil]),
            BlockCall::Splat(vec![]),
        ]
    );
}

#[test]
fn failing_yield_result_raises_without_driving() {
    let f = || -> Result<Yield<VecSource<i64>>, Error> {
        Err(Error::User { message: "cannot enumerate".to_string() })
    };
    let mut sink = BlockSink::new();
    let r = Function0::new(f).call_convert_value(&mut sink);
    assert_eq!(r, Err(Error::User { message: "cannot enumerate".to_string() }));
    assert!(sink.calls.is_empty());
}

#[test]
fn ok_yield_result_is_driven() {
    let f = || -> Result<Yield<VecSource<i64>>, Error> {
        Ok(Yield::Iter(VecSource::new(vec![7])))
    };
    let mut sink = BlockSink::new();
    let r = Function0::new(f).call_convert_value(&mut sink);
    assert_eq!(r, Ok(Value::Nil));
    assert_eq!(sink.calls, vec![BlockCall::Single(Value::Integer(7))]);
}
