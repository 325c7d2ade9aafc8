use rb_dispatch::boundary::{resolve, Captured, Outcome};
use rb_dispatch::error::{ConvReason, Error, Position};
use rb_dispatch::value::Value;

#[test]
fn completed_success_returns_the_handle() {
    let o = resolve(Captured::Completed(Ok(Value::Integer(5))));
    assert_eq!(o, Outcome::Return(Value::Integer(5)));
}

#[test]
fn completed_error_raises_it_unchanged() {
    let e = Error::Conversion {
        position: Some(Position::Index(2)),
        reason: ConvReason::WrongType,
        expected: "Integer".to_string(),
    };
    let o = resolve(Captured::Completed(Err(e.clone())));
    assert_eq!(o, Outcome::Raise(e));
}

#[test]
fn intercepted_unwind_raises_a_captured_unwind_error() {
    let o = resolve(Captured::Unwound(Some("boom".to_string())));
    assert_eq!(
        o,
        Outcome::Raise(Error::CaughtUnwind { message: Some("boom".to_string()) })
    );
    let o2 = resolve(Captured::Unwound(None));
    assert_eq!(o2, Outcome::Raise(Error::CaughtUnwind { message: None }));
}
