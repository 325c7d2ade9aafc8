use vstd::prelude::*;

use crate::block::{lemma_sink_unchanged, BlockCall, BlockSink};
use crate::error::{Error, Position};
use crate::return_value::ReturnValue;
use crate::try_convert::TryConvert;
use crate::value::Value;
use std::marker::PhantomData;

verus! {

/// Adapter exposing a native function as a self-free host method taking a
/// borrowed slice of raw argument handles, for variable-arity signatures:
/// nothing is converted, and the receiver slot the host passes is discarded.
pub struct FunctionCAry<Func, Res> {
    /// The wrapped native function.
    pub func: Func,
    pub res: PhantomData<Res>,
}

impl<Func, Res> FunctionCAry<Func, Res> where
    Func: Fn(&[Value]) -> Res,
    Res: ReturnValue,
 {
    /// Wrap `func`.
    pub fn new(func: Func) -> (m: Self)
        ensures
            m.func == func,
    {
        FunctionCAry { func, res: PhantomData }
    }

    /// What invoking the adapter yields: the wrapped function's result,
    /// normalised, with `calls` the block invocations recorded while
    /// normalising it.
    pub open spec fn dispatch(
        f: Func,
        args: &[Value],
        r: Result<Value, Error>,
        calls: Seq<BlockCall>,
    ) -> bool {
        exists|res: Res| #[trigger] call_ensures(f, (args,), res) && res.return_spec(r, calls)
    }

    /// Hand the wrapped function the raw argument slice unconverted and
    /// normalise its result.
    pub fn call_convert_value(self, args: &[Value], sink: &mut BlockSink) -> (r: Result<
        Value,
        Error,
    >)
        requires
            call_requires(self.func, (args,)),
        ensures
            old(sink).calls@.is_prefix_of(final(sink).calls@),
            Self::dispatch(
                self.func,
                args,
                r,
                final(sink).calls@.skip(old(sink).calls@.len() as int),
            ),
    {
        let res = (self.func)(args);
        let out = res.into_return_value(sink);
        proof {
            assert(call_ensures(self.func, (args,), res));
        }
        out
    }

    /// Invoke the adapter as the registration trampoline does: the host
    /// always passes a receiver handle, and a self-free adapter discards it
    /// without attempting any conversion on it.
    pub fn call_ignoring_self(self, rb_self: Value, args: &[Value], sink: &mut BlockSink) -> (r:
        Result<Value, Error>)
        requires
            call_requires(self.func, (args,)),
        ensures
            old(sink).calls@.is_prefix_of(final(sink).calls@),
            Self::dispatch(
                self.func,
                args,
                r,
                final(sink).calls@.skip(old(sink).calls@.len() as int),
            ),
    {
        let _ = rb_self;
        self.call_convert_value(args, sink)
    }
}

/// Adapter exposing a native function as a self-free host method taking one
/// aggregate handle carrying every positional argument pre-collected by the
/// host; the receiver slot the host passes is discarded without conversion.
pub struct FunctionRbAry<Func, Args, Res> {
    /// The wrapped native function.
    pub func: Func,
    pub args: PhantomData<Args>,
    pub res: PhantomData<Res>,
}

impl<Func, Args, Res> FunctionRbAry<Func, Args, Res> where
    Func: Fn(Args) -> Res,
    Args: TryConvert,
    Res: ReturnValue,
 {
    /// Wrap `func`.
    pub fn new(func: Func) -> (m: Self)
        ensures
            m.func == func,
    {
        FunctionRbAry { func, args: PhantomData, res: PhantomData }
    }

    /// What invoking the adapter yields: the first handle that fails to
    /// convert wins and is reported with its slot, and the wrapped function
    /// is then not invoked; when every handle converts, the function's
    /// result, normalised, with `calls` the block invocations recorded while
    /// normalising it.
    pub open spec fn dispatch(
        func: Func,
        args: Value,
        r: Result<Value, Error>,
        calls: Seq<BlockCall>,
    ) -> bool {
        if !Args::convertible(args) {
            calls.len() == 0 && (r matches Err(err) && err.is_conversion_failure_at(
                Position::Index(0),
                Args::fail_spec(args),
            ))
        } else {
            exists|vargs: Args, res: Res|
                Args::converts_to(args, vargs)
                    && #[trigger] call_ensures(func, (vargs,), res)
                    && res.return_spec(r, calls)
        }
    }

    /// Convert the call-site handles left to right, stopping at the first
    /// failure, invoke the wrapped function on the converted values, and
    /// normalise its result. Only the argument handles are converted; a
    /// conversion failure means the function is never invoked.
    pub fn call_convert_value(self, args: Value, sink: &mut BlockSink) -> (r: Result<
        Value,
        Error,
    >)
        requires
            forall|vargs: Args|
                Args::converts_to(args, vargs)
                    ==> #[trigger] call_requires(self.func, (vargs,)),
        ensures
            old(sink).calls@.is_prefix_of(final(sink).calls@),
            Self::dispatch(
                self.func,
                args, r,
                final(sink).calls@.skip(old(sink).calls@.len() as int),
            ),
    {
        let vargs = match Args::try_convert(args) {
            Ok(v) => v,
            Err(err) => {
                proof {
                    lemma_sink_unchanged(sink.calls@);
                }
                return Err(err.at_position(Position::Index(0)));
            },
        };
        let res = (self.func)(vargs);
        let out = res.into_return_value(sink);
        proof {
            assert(Args::converts_to(args, vargs));
            assert(call_ensures(self.func, (vargs,), res));
        }
        out
    }

    /// Invoke the adapter as the registration trampoline does: the host
    /// always passes a receiver handle, and a self-free adapter discards it
    /// without attempting any conversion on it — the outcome is that of
    /// [`Self::call_convert_value`] on the argument handles alone.
    pub fn call_ignoring_self(self, rb_self: Value, args: Value, sink: &mut BlockSink) -> (r:
        Result<Value, Error>)
        requires
            forall|vargs: Args|
                Args::converts_to(args, vargs)
                    ==> #[trigger] call_requires(self.func, (vargs,)),
        ensures
            old(sink).calls@.is_prefix_of(final(sink).calls@),
            Self::dispatch(
                self.func,
                args, r,
                final(sink).calls@.skip(old(sink).calls@.len() as int),
            ),
    {
        let _ = rb_self;
        self.call_convert_value(args, sink)
    }
}

/// Adapter exposing a native function as a self-free host method taking
/// no positional arguments: the receiver slot the host passes is
/// discarded without conversion.
pub struct Function0<Func, Res> {
    /// The wrapped native function.
    pub func: Func,
    pub res: PhantomData<Res>,
}

impl<Func, Res> Function0<Func, Res> where
    Func: Fn() -> Res,
    Res: ReturnValue,
 {
    /// Wrap `func`.
    pub fn new(func: Func) -> (m: Self)
        ensures
            m.func == func,
    {
        Function0 { func, res: PhantomData }
    }

    /// What invoking the adapter yields: the first handle that fails to
    /// convert wins and is reported with its slot, and the wrapped function
    /// is then not invoked; when every handle converts, the function's
    /// result, normalised, with `calls` the block invocations recorded while
    /// normalising it.
    pub open spec fn dispatch(
        func: Func,
        r: Result<Value, Error>,
        calls: Seq<BlockCall>,
    ) -> bool {
        exists|res: Res|
                #[trigger] call_ensures(func, (), res)
                    && res.return_spec(r, calls)
    }

    /// Convert the call-site handles left to right, stopping at the first
    /// failure, invoke the wrapped function on the converted values, and
    /// normalise its result. Only the argument handles are converted; a
    /// conversion failure means the function is never invoked.
    pub fn call_convert_value(self, sink: &mut BlockSink) -> (r: Result<
        Value,
        Error,
    >)
        requires
            call_requires(self.func, ()),
        ensures
            old(sink).calls@.is_prefix_of(final(sink).calls@),
            Self::dispatch(
                self.func,
                r,
                final(sink).calls@.skip(old(sink).calls@.len() as int),
            ),
    {

        let res = (self.func)();
        let out = res.into_return_value(sink);
        proof {
            assert(call_ensures(self.func, (), res));
        }
        out
    }

    /// Invoke the adapter as the registration trampoline does: the host
    /// always passes a receiver handle, and a self-free adapter discards it
    /// without attempting any conversion on it — the outcome is that of
    /// [`Self::call_convert_value`] on the argument handles alone.
    pub fn call_ignoring_self(self, rb_self: Value, sink: &mut BlockSink) -> (r:
        Result<Value, Error>)
        requires
            call_requires(self.func, ()),
        ensures
            old(sink).calls@.is_prefix_of(final(sink).calls@),
            Self::dispatch(
                self.func,
                r,
                final(sink).calls@.skip(old(sink).calls@.len() as int),
            ),
    {
        let _ = rb_self;
        self.call_convert_value(sink)
    }
}

/// Adapter exposing a native function as a self-free host method taking
/// one positional argument: the receiver slot the host passes is
/// discarded without conversion.
pub struct Function1<Func, A, Res> {
    /// The wrapped native function.
    pub func: Func,
    pub a: PhantomData<A>,
    pub res: PhantomData<Res>,
}

impl<Func, A, Res> Function1<Func, A, Res> where
    Func: Fn(A) -> Res,
    A: TryConvert,
    Res: ReturnValue,
 {
    /// Wrap `func`.
    pub fn new(func: Func) -> (m: Self)
        ensures
            m.func == func,
    {
        Function1 { func, a: PhantomData, res: PhantomData }
    }

    /// What invoking the adapter yields: the first handle that fails to
    /// convert wins and is reported with its slot, and the wrapped function
    /// is then not invoked; when every handle converts, the function's
    /// result, normalised, with `calls` the block invocations recorded while
    /// normalising it.
    pub open spec fn dispatch(
        func: Func,
        a: Value,
        r: Result<Value, Error>,
        calls: Seq<BlockCall>,
    ) -> bool {
        if !A::convertible(a) {
            calls.len() == 0 && (r matches Err(err) && err.is_conversion_failure_at(
                Position::Index(0),
                A::fail_spec(a),
            ))
        } else {
            exists|va: A, res: Res|
                A::converts_to(a, va)
                    && #[trigger] call_ensures(func, (va,), res)
                    && res.return_spec(r, calls)
        }
    }

    /// Convert the call-site handles left to right, stopping at the first
    /// failure, invoke the wrapped function on the converted values, and
    /// normalise its result. Only the argument handles are converted; a
    /// conversion failure means the function is never invoked.
    pub fn call_convert_value(self, a: Value, sink: &mut BlockSink) -> (r: Result<
        Value,
        Error,
    >)
        requires
            forall|va: A|
                A::converts_to(a, va)
                    ==> #[trigger] call_requires(self.func, (va,)),
        ensures
            old(sink).calls@.is_prefix_of(final(sink).calls@),
            Self::dispatch(
                self.func,
                a, r,
                final(sink).calls@.skip(old(sink).calls@.len() as int),
            ),
    {
        let va = match A::try_convert(a) {
            Ok(v) => v,
            Err(err) => {
                proof {
                    lemma_sink_unchanged(sink.calls@);
                }
                return Err(err.at_position(Position::Index(0)));
            },
        };
        let res = (self.func)(va);
        let out = res.into_return_value(sink);
        proof {
            assert(A::converts_to(a, va));
            assert(call_ensures(self.func, (va,), res));
        }
        out
    }

    /// Invoke the adapter as the registration trampoline does: the host
    /// always passes a receiver handle, and a self-free adapter discards it
    /// without attempting any conversion on it — the outcome is that of
    /// [`Self::call_convert_value`] on the argument handles alone.
    pub fn call_ignoring_self(self, rb_self: Value, a: Value, sink: &mut BlockSink) -> (r:
        Result<Value, Error>)
        requires
            forall|va: A|
                A::converts_to(a, va)
                    ==> #[trigger] call_requires(self.func, (va,)),
        ensures
            old(sink).calls@.is_prefix_of(final(sink).calls@),
            Self::dispatch(
                self.func,
                a, r,
                final(sink).calls@.skip(old(sink).calls@.len() as int),
            ),
    {
        let _ = rb_self;
        self.call_convert_value(a, sink)
    }
}

/// Adapter exposing a native function as a self-free host method taking
/// two positional arguments: the receiver slot the host passes is
/// discarded without conversion.
pub struct Function2<Func, A, B, Res> {
    /// The wrapped native function.
    pub func: Func,
    pub a: PhantomData<A>,
    pub b: PhantomData<B>,
    pub res: PhantomData<Res>,
}

impl<Func, A, B, Res> Function2<Func, A, B, Res> where
    Func: Fn(A, B) -> Res,
    A: TryConvert,
    B: TryConvert,
    Res: ReturnValue,
 {
    /// Wrap `func`.
    pub fn new(func: Func) -> (m: Self)
        ensures
            m.func == func,
    {
        Function2 { func, a: PhantomData, b: PhantomData, res: PhantomData }
    }

    /// What invoking the adapter yields: the first handle that fails to
    /// convert wins and is reported with its slot, and the wrapped function
    /// is then not invoked; when every handle converts, the function's
    /// result, normalised, with `calls` the block invocations recorded while
    /// normalising it.
    pub open spec fn dispatch(
        func: Func,
        a: Value,
        b: Value,
        r: Result<Value, Error>,
        calls: Seq<BlockCall>,
    ) -> bool {
        if !A::convertible(a) {
            calls.len() == 0 && (r matches Err(err) && err.is_conversion_failure_at(
                Position::Index(0),
                A::fail_spec(a),
            ))
        } else if !B::convertible(b) {
            calls.len() == 0 && (r matches Err(err) && err.is_conversion_failure_at(
                Position::Index(1),
                B::fail_spec(b),
            ))
        } else {
            exists|va: A, vb: B, res: Res|
                A::converts_to(a, va)
                    && B::converts_to(b, vb)
                    && #[trigger] call_ensures(func, (va, vb), res)
                    && res.return_spec(r, calls)
        }
    }

    /// Convert the call-site handles left to right, stopping at the first
    /// failure, invoke the wrapped function on the converted values, and
    /// normalise its result. Only the argument handles are converted; a
    /// conversion failure means the function is never invoked.
    pub fn call_convert_value(self, a: Value, b: Value, sink: &mut BlockSink) -> (r: Result<
        Value,
        Error,
    >)
        requires
            forall|va: A, vb: B|
                A::converts_to(a, va)
                    && B::converts_to(b, vb)
                    ==> #[trigger] call_requires(self.func, (va, vb)),
        ensures
            old(sink).calls@.is_prefix_of(final(sink).calls@),
            Self::dispatch(
                self.func,
                a, b, r,
                final(sink).calls@.skip(old(sink).calls@.len() as int),
            ),
    {
        let va = match A::try_convert(a) {
            Ok(v) => v,
            Err(err) => {
                proof {
                    lemma_sink_unchanged(sink.calls@);
                }
                return Err(err.at_position(Position::Index(0)));
            },
        };
        let vb = match B::try_convert(b) {
            Ok(v) => v,
            Err(err) => {
                proof {
                    lemma_sink_unchanged(sink.calls@);
                }
                return Err(err.at_position(Position::Index(1)));
            },
        };
        let res = (self.func)(va, vb);
        let out = res.into_return_value(sink);
        proof {
            assert(A::converts_to(a, va)
                && B::converts_to(b, vb));
            assert(call_ensures(self.func, (va, vb), res));
        }
        out
    }

    /// Invoke the adapter as the registration trampoline does: the host
    /// always passes a receiver handle, and a self-free adapter discards it
    /// without attempting any conversion on it — the outcome is that of
    /// [`Self::call_convert_value`] on the argument handles alone.
    pub fn call_ignoring_self(self, rb_self: Value, a: Value, b: Value, sink: &mut BlockSink) -> (r:
        Result<Value, Error>)
        requires
            forall|va: A, vb: B|
                A::converts_to(a, va)
                    && B::converts_to(b, vb)
                    ==> #[trigger] call_requires(self.func, (va, vb)),
        ensures
            old(sink).calls@.is_prefix_of(final(sink).calls@),
            Self::dispatch(
                self.func,
                a, b, r,
                final(sink).calls@.skip(old(sink).calls@.len() as int),
            ),
    {
        let _ = rb_self;
        self.call_convert_value(a, b, sink)
    }
}

/// Adapter exposing a native function as a self-free host method taking
/// three positional arguments: the receiver slot the host passes is
/// discarded without conversion.
pub struct Function3<Func, A, B, C, Res> {
    /// The wrapped native function.
    pub func: Func,
    pub a: PhantomData<A>,
    pub b: PhantomData<B>,
    pub c: PhantomData<C>,
    pub res: PhantomData<Res>,
}

impl<Func, A, B, C, Res> Function3<Func, A, B, C, Res> where
    Func: Fn(A, B, C) -> Res,
    A: TryConvert,
    B: TryConvert,
    C: TryConvert,
    Res: ReturnValue,
 {
    /// Wrap `func`.
    pub fn new(func: Func) -> (m: Self)
        ensures
            m.func == func,
    {
        Function3 { func, a: PhantomData, b: PhantomData, c: PhantomData, res: PhantomData }
    }

    /// What invoking the adapter yields: the first handle that fails to
    /// convert wins and is reported with its slot, and the wrapped function
    /// is then not invoked; when every handle converts, the function's
    /// result, normalised, with `calls` the block invocations recorded while
    /// normalising it.
    pub open spec fn dispatch(
        func: Func,
        a: Value,
        b: Value,
        c: Value,
        r: Result<Value, Error>,
        calls: Seq<BlockCall>,
    ) -> bool {
        if !A::convertible(a) {
            calls.len() == 0 && (r matches Err(err) && err.is_conversion_failure_at(
                Position::Index(0),
                A::fail_spec(a),
            ))
        } else if !B::convertible(b) {
            calls.len() == 0 && (r matches Err(err) && err.is_conversion_failure_at(
                Position::Index(1),
                B::fail_spec(b),
            ))
        } else if !C::convertible(c) {
            calls.len() == 0 && (r matches Err(err) && err.is_conversion_failure_at(
                Position::Index(2),
                C::fail_spec(c),
            ))
        } else {
            exists|va: A, vb: B, vc: C, res: Res|
                A::converts_to(a, va)
                    && B::converts_to(b, vb)
                    && C::converts_to(c, vc)
                    && #[trigger] call_ensures(func, (va, vb, vc), res)
                    && res.return_spec(r, calls)
        }
    }

    /// Convert the call-site handles left to right, stopping at the first
    /// failure, invoke the wrapped function on the converted values, and
    /// normalise its result. Only the argument handles are converted; a
    /// conversion failure means the function is never invoked.
    pub fn call_convert_value(self, a: Value, b: Value, c: Value, sink: &mut BlockSink) -> (r: Result<
        Value,
        Error,
    >)
        requires
            forall|va: A, vb: B, vc: C|
                A::converts_to(a, va)
                    && B::converts_to(b, vb)
                    && C::converts_to(c, vc)
                    ==> #[trigger] call_requires(self.func, (va, vb, vc)),
        ensures
            old(sink).calls@.is_prefix_of(final(sink).calls@),
            Self::dispatch(
                self.func,
                a, b, c, r,
                final(sink).calls@.skip(old(sink).calls@.len() as int),
            ),
    {
        let va = match A::try_convert(a) {
            Ok(v) => v,
            Err(err) => {
                proof {
                    lemma_sink_unchanged(sink.calls@);
                }
                return Err(err.at_position(Position::Index(0)));
            },
        };
        let vb = match B::try_convert(b) {
            Ok(v) => v,
            Err(err) => {
                proof {
                    lemma_sink_unchanged(sink.calls@);
                }
                return Err(err.at_position(Position::Index(1)));
            },
        };
        let vc = match C::try_convert(c) {
            Ok(v) => v,
            Err(err) => {
                proof {
                    lemma_sink_unchanged(sink.calls@);
                }
                return Err(err.at_position(Position::Index(2)));
            },
        };
        let res = (self.func)(va, vb, vc);
        let out = res.into_return_value(sink);
        proof {
            assert(A::converts_to(a, va)
                && B::converts_to(b, vb)
                && C::converts_to(c, vc));
            assert(call_ensures(self.func, (va, vb, vc), res));
        }
        out
    }

    /// Invoke the adapter as the registration trampoline does: the host
    /// always passes a receiver handle, and a self-free adapter discards it
    /// without attempting any conversion on it — the outcome is that of
    /// [`Self::call_convert_value`] on the argument handles alone.
    pub fn call_ignoring_self(self, rb_self: Value, a: Value, b: Value, c: Value, sink: &mut BlockSink) -> (r:
        Result<Value, Error>)
        requires
            forall|va: A, vb: B, vc: C|
                A::converts_to(a, va)
                    && B::converts_to(b, vb)
                    && C::converts_to(c, vc)
                    ==> #[trigger] call_requires(self.func, (va, vb, vc)),
        ensures
            old(sink).calls@.is_prefix_of(final(sink).calls@),
            Self::dispatch(
                self.func,
                a, b, c, r,
                final(sink).calls@.skip(old(sink).calls@.len() as int),
            ),
    {
        let _ = rb_self;
        self.call_convert_value(a, b, c, sink)
    }
}

/// Adapter exposing a native function as a self-free host method taking
/// four positional arguments: the receiver slot the host passes is
/// discarded without conversion.
pub struct Function4<Func, A, B, C, D, Res> {
    /// The wrapped native function.
    pub func: Func,
    pub a: PhantomData<A>,
    pub b: PhantomData<B>,
    pub c: PhantomData<C>,
    pub d: PhantomData<D>,
    pub res: PhantomData<Res>,
}

impl<Func, A, B, C, D, Res> Function4<Func, A, B, C, D, Res> where
    Func: Fn(A, B, C, D) -> Res,
    A: TryConvert,
    B: TryConvert,
    C: TryConvert,
    D: TryConvert,
    Res: ReturnValue,
 {
    /// Wrap `func`.
    pub fn new(func: Func) -> (m: Self)
        ensures
            m.func == func,
    {
        Function4 { func, a: PhantomData, b: PhantomData, c: PhantomData, d: PhantomData, res: PhantomData }
    }

    /// What invoking the adapter yields: the first handle that fails to
    /// convert wins and is reported with its slot, and the wrapped function
    /// is then not invoked; when every handle converts, the function's
    /// result, normalised, with `calls` the block invocations recorded while
    /// normalising it.
    pub open spec fn dispatch(
        func: Func,
        a: Value,
        b: Value,
        c: Value,
        d: Value,
        r: Result<Value, Error>,
        calls: Seq<BlockCall>,
    ) -> bool {
        if !A::convertible(a) {
            calls.len() == 0 && (r matches Err(err) && err.is_conversion_failure_at(
                Position::Index(0),
                A::fail_spec(a),
            ))
        } else if !B::convertible(b) {
            calls.len() == 0 && (r matches Err(err) && err.is_conversion_failure_at(
                Position::Index(1),
                B::fail_spec(b),
            ))
        } else if !C::convertible(c) {
            calls.len() == 0 && (r matches Err(err) && err.is_conversion_failure_at(
                Position::Index(2),
                C::fail_spec(c),
            ))
        } else if !D::convertible(d) {
            calls.len() == 0 && (r matches Err(err) && err.is_conversion_failure_at(
                Position::Index(3),
                D::fail_spec(d),
            ))
        } else {
            exists|va: A, vb: B, vc: C, vd: D, res: Res|
                A::converts_to(a, va)
                    && B::converts_to(b, vb)
                    && C::converts_to(c, vc)
                    && D::converts_to(d, vd)
                    && #[trigger] call_ensures(func, (va, vb, vc, vd), res)
                    && res.return_spec(r, calls)
        }
    }

    /// Convert the call-site handles left to right, stopping at the first
    /// failure, invoke the wrapped function on the converted values, and
    /// normalise its result. Only the argument handles are converted; a
    /// conversion failure means the function is never invoked.
    pub fn call_convert_value(self, a: Value, b: Value, c: Value, d: Value, sink: &mut BlockSink) -> (r: Result<
        Value,
        Error,
    >)
        requires
            forall|va: A, vb: B, vc: C, vd: D|
                A::converts_to(a, va)
                    && B::converts_to(b, vb)
                    && C::converts_to(c, vc)
                    && D::converts_to(d, vd)
                    ==> #[trigger] call_requires(self.func, (va, vb, vc, vd)),
        ensures
            old(sink).calls@.is_prefix_of(final(sink).calls@),
            Self::dispatch(
                self.func,
                a, b, c, d, r,
                final(sink).calls@.skip(old(sink).calls@.len() as int),
            ),
    {
        let va = match A::try_convert(a) {
            Ok(v) => v,
            Err(err) => {
                proof {
                    lemma_sink_unchanged(sink.calls@);
                }
                return Err(err.at_position(Position::Index(0)));
            },
        };
        let vb = match B::try_convert(b) {
            Ok(v) => v,
            Err(err) => {
                proof {
                    lemma_sink_unchanged(sink.calls@);
                }
                return Err(err.at_position(Position::Index(1)));
            },
        };
        let vc = match C::try_convert(c) {
            Ok(v) => v,
            Err(err) => {
                proof {
                    lemma_sink_unchanged(sink.calls@);
                }
                return Err(err.at_position(Position::Index(2)));
            },
        };
        let vd = match D::try_convert(d) {
            Ok(v) => v,
            Err(err) => {
                proof {
                    lemma_sink_unchanged(sink.calls@);
                }
                return Err(err.at_position(Position::Index(3)));
            },
        };
        let res = (self.func)(va, vb, vc, vd);
        let out = res.into_return_value(sink);
        proof {
            assert(A::converts_to(a, va)
                && B::converts_to(b, vb)
                && C::converts_to(c, vc)
                && D::converts_to(d, vd));
            assert(call_ensures(self.func, (va, vb, vc, vd), res));
        }
        out
    }

    /// Invoke the adapter as the registration trampoline does: the host
    /// always passes a receiver handle, and a self-free adapter discards it
    /// without attempting any conversion on it — the outcome is that of
    /// [`Self::call_convert_value`] on the argument handles alone.
    pub fn call_ignoring_self(self, rb_self: Value, a: Value, b: Value, c: Value, d: Value, sink: &mut BlockSink) -> (r:
        Result<Value, Error>)
        requires
            forall|va: A, vb: B, vc: C, vd: D|
                A::converts_to(a, va)
                    && B::converts_to(b, vb)
                    && C::converts_to(c, vc)
                    && D::converts_to(d, vd)
                    ==> #[trigger] call_requires(self.func, (va, vb, vc, vd)),
        ensures
            old(sink).calls@.is_prefix_of(final(sink).calls@),
            Self::dispatch(
                self.func,
                a, b, c, d, r,
                final(sink).calls@.skip(old(sink).calls@.len() as int),
            ),
    {
        let _ = rb_self;
        self.call_convert_value(a, b, c, d, sink)
    }
}

/// Adapter exposing a native function as a self-free host method taking
/// five positional arguments: the receiver slot the host passes is
/// discarded without conversion.
pub struct Function5<Func, A, B, C, D, E, Res> {
    /// The wrapped native function.
    pub func: Func,
    pub a: PhantomData<A>,
    pub b: PhantomData<B>,
    pub c: PhantomData<C>,
    pub d: PhantomData<D>,
    pub e: PhantomData<E>,
    pub res: PhantomData<Res>,
}

impl<Func, A, B, C, D, E, Res> Function5<Func, A, B, C, D, E, Res> where
    Func: Fn(A, B, C, D, E) -> Res,
    A: TryConvert,
    B: TryConvert,
    C: TryConvert,
    D: TryConvert,
    E: TryConvert,
    Res: ReturnValue,
 {
    /// Wrap `func`.
    pub fn new(func: Func) -> (m: Self)
        ensures
            m.func == func,
    {
        Function5 { func, a: PhantomData, b: PhantomData, c: PhantomData, d: PhantomData, e: PhantomData, res: PhantomData }
    }

    /// What invoking the adapter yields: the first handle that fails to
    /// convert wins and is reported with its slot, and the wrapped function
    /// is then not invoked; when every handle converts, the function's
    /// result, normalised, with `calls` the block invocations recorded while
    /// normalising it.
    pub open spec fn dispatch(
        func: Func,
        a: Value,
        b: Value,
        c: Value,
        d: Value,
        e: Value,
        r: Result<Value, Error>,
        calls: Seq<BlockCall>,
    ) -> bool {
        if !A::convertible(a) {
            calls.len() == 0 && (r matches Err(err) && err.is_conversion_failure_at(
                Position::Index(0),
                A::fail_spec(a),
            ))
        } else if !B::convertible(b) {
            calls.len() == 0 && (r matches Err(err) && err.is_conversion_failure_at(
                Position::Index(1),
                B::fail_spec(b),
            ))
        } else if !C::convertible(c) {
            calls.len() == 0 && (r matches Err(err) && err.is_conversion_failure_at(
                Position::Index(2),
                C::fail_spec(c),
            ))
        } else if !D::convertible(d) {
            calls.len() == 0 && (r matches Err(err) && err.is_conversion_failure_at(
                Position::Index(3),
                D::fail_spec(d),
            ))
        } else if !E::convertible(e) {
            calls.len() == 0 && (r matches Err(err) && err.is_conversion_failure_at(
                Position::Index(4),
                E::fail_spec(e),
            ))
        } else {
            exists|va: A, vb: B, vc: C, vd: D, ve: E, res: Res|
                A::converts_to(a, va)
                    && B::converts_to(b, vb)
                    && C::converts_to(c, vc)
                    && D::converts_to(d, vd)
                    && E::converts_to(e, ve)
                    && #[trigger] call_ensures(func, (va, vb, vc, vd, ve), res)
                    && res.return_spec(r, calls)
        }
    }

    /// Convert the call-site handles left to right, stopping at the first
    /// failure, invoke the wrapped function on the converted values, and
    /// normalise its result. Only the argument handles are converted; a
    /// conversion failure means the function is never invoked.
    pub fn call_convert_value(self, a: Value, b: Value, c: Value, d: Value, e: Value, sink: &mut BlockSink) -> (r: Result<
        Value,
        Error,
    >)
        requires
            forall|va: A, vb: B, vc: C, vd: D, ve: E|
                A::converts_to(a, va)
                    && B::converts_to(b, vb)
                    && C::converts_to(c, vc)
                    && D::converts_to(d, vd)
                    && E::converts_to(e, ve)
                    ==> #[trigger] call_requires(self.func, (va, vb, vc, vd, ve)),
        ensures
            old(sink).calls@.is_prefix_of(final(sink).calls@),
            Self::dispatch(
                self.func,
                a, b, c, d, e, r,
                final(sink).calls@.skip(old(sink).calls@.len() as int),
            ),
    {
        let va = match A::try_convert(a) {
            Ok(v) => v,
            Err(err) => {
                proof {
                    lemma_sink_unchanged(sink.calls@);
                }
                return Err(err.at_position(Position::Index(0)));
            },
        };
        let vb = match B::try_convert(b) {
            Ok(v) => v,
            Err(err) => {
                proof {
                    lemma_sink_unchanged(sink.calls@);
                }
                return Err(err.at_position(Position::Index(1)));
            },
        };
        let vc = match C::try_convert(c) {
            Ok(v) => v,
            Err(err) => {
                proof {
                    lemma_sink_unchanged(sink.calls@);
                }
                return Err(err.at_position(Position::Index(2)));
            },
        };
        let vd = match D::try_convert(d) {
            Ok(v) => v,
            Err(err) => {
                proof {
                    lemma_sink_unchanged(sink.calls@);
                }
                return Err(err.at_position(Position::Index(3)));
            },
        };
        let ve = match E::try_convert(e) {
            Ok(v) => v,
            Err(err) => {
                proof {
                    lemma_sink_unchanged(sink.calls@);
                }
                return Err(err.at_position(Position::Index(4)));
            },
        };
        let res = (self.func)(va, vb, vc, vd, ve);
        let out = res.into_return_value(sink);
        proof {
            assert(A::converts_to(a, va)
                && B::converts_to(b, vb)
                && C::converts_to(c, vc)
                && D::converts_to(d, vd)
                && E::converts_to(e, ve));
            assert(call_ensures(self.func, (va, vb, vc, vd, ve), res));
        }
        out
    }

    /// Invoke the adapter as the registration trampoline does: the host
    /// always passes a receiver handle, and a self-free adapter discards it
    /// without attempting any conversion on it — the outcome is that of
    /// [`Self::call_convert_value`] on the argument handles alone.
    pub fn call_ignoring_self(self, rb_self: Value, a: Value, b: Value, c: Value, d: Value, e: Value, sink: &mut BlockSink) -> (r:
        Result<Value, Error>)
        requires
            forall|va: A, vb: B, vc: C, vd: D, ve: E|
                A::converts_to(a, va)
                    && B::converts_to(b, vb)
                    && C::converts_to(c, vc)
                    && D::converts_to(d, vd)
                    && E::converts_to(e, ve)
                    ==> #[trigger] call_requires(self.func, (va, vb, vc, vd, ve)),
        ensures
            old(sink).calls@.is_prefix_of(final(sink).calls@),
            Self::dispatch(
                self.func,
                a, b, c, d, e, r,
                final(sink).calls@.skip(old(sink).calls@.len() as int),
            ),
    {
        let _ = rb_self;
        self.call_convert_value(a, b, c, d, e, sink)
    }
}

/// Adapter exposing a native function as a self-free host method taking
/// six positional arguments: the receiver slot the host passes is
/// discarded without conversion.
pub struct Function6<Func, A, B, C, D, E, F, Res> {
    /// The wrapped native function.
    pub func: Func,
    pub a: PhantomData<A>,
    pub b: PhantomData<B>,
    pub c: PhantomData<C>,
    pub d: PhantomData<D>,
    pub e: PhantomData<E>,
    pub f: PhantomData<F>,
    pub res: PhantomData<Res>,
}

impl<Func, A, B, C, D, E, F, Res> Function6<Func, A, B, C, D, E, F, Res> where
    Func: Fn(A, B, C, D, E, F) -> Res,
    A: TryConvert,
    B: TryConvert,
    C: TryConvert,
    D: TryConvert,
    E: TryConvert,
    F: TryConvert,
    Res: ReturnValue,
 {
    /// Wrap `func`.
    pub fn new(func: Func) -> (m: Self)
        ensures
            m.func == func,
    {
        Function6 { func, a: PhantomData, b: PhantomData, c: PhantomData, d: PhantomData, e: PhantomData, f: PhantomData, res: PhantomData }
    }

    /// What invoking the adapter yields: the first handle that fails to
    /// convert wins and is reported with its slot, and the wrapped function
    /// is then not invoked; when every handle converts, the function's
    /// result, normalised, with `calls` the block invocations recorded while
    /// normalising it.
    pub open spec fn dispatch(
        func: Func,
        a: Value,
        b: Value,
        c: Value,
        d: Value,
        e: Value,
        f: Value,
        r: Result<Value, Error>,
        calls: Seq<BlockCall>,
    ) -> bool {
        if !A::convertible(a) {
            calls.len() == 0 && (r matches Err(err) && err.is_conversion_failure_at(
                Position::Index(0),
                A::fail_spec(a),
            ))
        } else if !B::convertible(b) {
            calls.len() == 0 && (r matches Err(err) && err.is_conversion_failure_at(
                Position::Index(1),
                B::fail_spec(b),
            ))
        } else if !C::convertible(c) {
            calls.len() == 0 && (r matches Err(err) && err.is_conversion_failure_at(
                Position::Index(2),
                C::fail_spec(c),
            ))
        } else if !D::convertible(d) {
            calls.len() == 0 && (r matches Err(err) && err.is_conversion_failure_at(
                Position::Index(3),
                D::fail_spec(d),
            ))
        } else if !E::convertible(e) {
            calls.len() == 0 && (r matches Err(err) && err.is_conversion_failure_at(
                Position::Index(4),
                E::fail_spec(e),
            ))
        } else if !F::convertible(f) {
            calls.len() == 0 && (r matches Err(err) && err.is_conversion_failure_at(
                Position::Index(5),
                F::fail_spec(f),
            ))
        } else {
            exists|va: A, vb: B, vc: C, vd: D, ve: E, vf: F, res: Res|
                A::converts_to(a, va)
                    && B::converts_to(b, vb)
                    && C::converts_to(c, vc)
                    && D::converts_to(d, vd)
                    && E::converts_to(e, ve)
                    && F::converts_to(f, vf)
                    && #[trigger] call_ensures(func, (va, vb, vc, vd, ve, vf), res)
                    && res.return_spec(r, calls)
        }
    }

    /// Convert the call-site handles left to right, stopping at the first
    /// failure, invoke the wrapped function on the converted values, and
    /// normalise its result. Only the argument handles are converted; a
    /// conversion failure means the function is never invoked.
    pub fn call_convert_value(self, a: Value, b: Value, c: Value, d: Value, e: Value, f: Value, sink: &mut BlockSink) -> (r: Result<
        Value,
        Error,
    >)
        requires
            forall|va: A, vb: B, vc: C, vd: D, ve: E, vf: F|
                A::converts_to(a, va)
                    && B::converts_to(b, vb)
                    && C::converts_to(c, vc)
                    && D::converts_to(d, vd)
                    && E::converts_to(e, ve)
                    && F::converts_to(f, vf)
                    ==> #[trigger] call_requires(self.func, (va, vb, vc, vd, ve, vf)),
        ensures
            old(sink).calls@.is_prefix_of(final(sink).calls@),
            Self::dispatch(
                self.func,
                a, b, c, d, e, f, r,
                final(sink).calls@.skip(old(sink).calls@.len() as int),
            ),
    {
        let va = match A::try_convert(a) {
            Ok(v) => v,
            Err(err) => {
                proof {
                    lemma_sink_unchanged(sink.calls@);
                }
                return Err(err.at_position(Position::Index(0)));
            },
        };
        let vb = match B::try_convert(b) {
            Ok(v) => v,
            Err(err) => {
                proof {
                    lemma_sink_unchanged(sink.calls@);
                }
                return Err(err.at_position(Position::Index(1)));
            },
        };
        let vc = match C::try_convert(c) {
            Ok(v) => v,
            Err(err) => {
                proof {
                    lemma_sink_unchanged(sink.calls@);
                }
                return Err(err.at_position(Position::Index(2)));
            },
        };
        let vd = match D::try_convert(d) {
            Ok(v) => v,
            Err(err) => {
                proof {
                    lemma_sink_unchanged(sink.calls@);
                }
                return Err(err.at_position(Position::Index(3)));
            },
        };
        let ve = match E::try_convert(e) {
            Ok(v) => v,
            Err(err) => {
                proof {
                    lemma_sink_unchanged(sink.calls@);
                }
                return Err(err.at_position(Position::Index(4)));
            },
        };
        let vf = match F::try_convert(f) {
            Ok(v) => v,
            Err(err) => {
                proof {
                    lemma_sink_unchanged(sink.calls@);
                }
                return Err(err.at_position(Position::Index(5)));
            },
        };
        let res = (self.func)(va, vb, vc, vd, ve, vf);
        let out = res.into_return_value(sink);
        proof {
            assert(A::converts_to(a, va)
                && B::converts_to(b, vb)
                && C::converts_to(c, vc)
                && D::converts_to(d, vd)
                && E::converts_to(e, ve)
                && F::converts_to(f, vf));
            assert(call_ensures(self.func, (va, vb, vc, vd, ve, vf), res));
        }
        out
    }

    /// Invoke the adapter as the registration trampoline does: the host
    /// always passes a receiver handle, and a self-free adapter discards it
    /// without attempting any conversion on it — the outcome is that of
    /// [`Self::call_convert_value`] on the argument handles alone.
    pub fn call_ignoring_self(self, rb_self: Value, a: Value, b: Value, c: Value, d: Value, e: Value, f: Value, sink: &mut BlockSink) -> (r:
        Result<Value, Error>)
        requires
            forall|va: A, vb: B, vc: C, vd: D, ve: E, vf: F|
                A::converts_to(a, va)
                    && B::converts_to(b, vb)
                    && C::converts_to(c, vc)
                    && D::converts_to(d, vd)
                    && E::converts_to(e, ve)
                    && F::converts_to(f, vf)
                    ==> #[trigger] call_requires(self.func, (va, vb, vc, vd, ve, vf)),
        ensures
            old(sink).calls@.is_prefix_of(final(sink).calls@),
            Self::dispatch(
                self.func,
                a, b, c, d, e, f, r,
                final(sink).calls@.skip(old(sink).calls@.len() as int),
            ),
    {
        let _ = rb_self;
        self.call_convert_value(a, b, c, d, e, f, sink)
    }
}

/// Adapter exposing a native function as a self-free host method taking
/// seven positional arguments: the receiver slot the host passes is
/// discarded without conversion.
pub struct Function7<Func, A, B, C, D, E, F, G, Res> {
    /// The wrapped native function.
    pub func: Func,
    pub a: PhantomData<A>,
    pub b: PhantomData<B>,
    pub c: PhantomData<C>,
    pub d: PhantomData<D>,
    pub e: PhantomData<E>,
    pub f: PhantomData<F>,
    pub g: PhantomData<G>,
    pub res: PhantomData<Res>,
}

impl<Func, A, B, C, D, E, F, G, Res> Function7<Func, A, B, C, D, E, F, G, Res> where
    Func: Fn(A, B, C, D, E, F, G) -> Res,
    A: TryConvert,
    B: TryConvert,
    C: TryConvert,
    D: TryConvert,
    E: TryConvert,
    F: TryConvert,
    G: TryConvert,
    Res: ReturnValue,
 {
    /// Wrap `func`.
    pub fn new(func: Func) -> (m: Self)
        ensures
            m.func == func,
    {
        Function7 { func, a: PhantomData, b: PhantomData, c: PhantomData, d: PhantomData, e: PhantomData, f: PhantomData, g: PhantomData, res: PhantomData }
    }

    /// What invoking the adapter yields: the first handle that fails to
    /// convert wins and is reported with its slot, and the wrapped function
    /// is then not invoked; when every handle converts, the function's
    /// result, normalised, with `calls` the block invocations recorded while
    /// normalising it.
    pub open spec fn dispatch(
        func: Func,
        a: Value,
        b: Value,
        c: Value,
        d: Value,
        e: Value,
        f: Value,
        g: Value,
        r: Result<Value, Error>,
        calls: Seq<BlockCall>,
    ) -> bool {
        if !A::convertible(a) {
            calls.len() == 0 && (r matches Err(err) && err.is_conversion_failure_at(
                Position::Index(0),
                A::fail_spec(a),
            ))
        } else if !B::convertible(b) {
            calls.len() == 0 && (r matches Err(err) && err.is_conversion_failure_at(
                Position::Index(1),
                B::fail_spec(b),
            ))
        } else if !C::convertible(c) {
            calls.len() == 0 && (r matches Err(err) && err.is_conversion_failure_at(
                Position::Index(2),
                C::fail_spec(c),
            ))
        } else if !D::convertible(d) {
            calls.len() == 0 && (r matches Err(err) && err.is_conversion_failure_at(
                Position::Index(3),
                D::fail_spec(d),
            ))
        } else if !E::convertible(e) {
            calls.len() == 0 && (r matches Err(err) && err.is_conversion_failure_at(
                Position::Index(4),
                E::fail_spec(e),
            ))
        } else if !F::convertible(f) {
            calls.len() == 0 && (r matches Err(err) && err.is_conversion_failure_at(
                Position::Index(5),
                F::fail_spec(f),
            ))
        } else if !G::convertible(g) {
            calls.len() == 0 && (r matches Err(err) && err.is_conversion_failure_at(
                Position::Index(6),
                G::fail_spec(g),
            ))
        } else {
            exists|va: A, vb: B, vc: C, vd: D, ve: E, vf: F, vg: G, res: Res|
                A::converts_to(a, va)
                    && B::converts_to(b, vb)
                    && C::converts_to(c, vc)
                    && D::converts_to(d, vd)
                    && E::converts_to(e, ve)
                    && F::converts_to(f, vf)
                    && G::converts_to(g, vg)
                    && #[trigger] call_ensures(func, (va, vb, vc, vd, ve, vf, vg), res)
                    && res.return_spec(r, calls)
        }
    }

    /// Convert the call-site handles left to right, stopping at the first
    /// failure, invoke the wrapped function on the converted values, and
    /// normalise its result. Only the argument handles are converted; a
    /// conversion failure means the function is never invoked.
    pub fn call_convert_value(self, a: Value, b: Value, c: Value, d: Value, e: Value, f: Value, g: Value, sink: &mut BlockSink) -> (r: Result<
        Value,
        Error,
    >)
        requires
            forall|va: A, vb: B, vc: C, vd: D, ve: E, vf: F, vg: G|
                A::converts_to(a, va)
                    && B::converts_to(b, vb)
                    && C::converts_to(c, vc)
                    && D::converts_to(d, vd)
                    && E::converts_to(e, ve)
                    && F::converts_to(f, vf)
                    && G::converts_to(g, vg)
                    ==> #[trigger] call_requires(self.func, (va, vb, vc, vd, ve, vf, vg)),
        ensures
            old(sink).calls@.is_prefix_of(final(sink).calls@),
            Self::dispatch(
                self.func,
                a, b, c, d, e, f, g, r,
                final(sink).calls@.skip(old(sink).calls@.len() as int),
            ),
    {
        let va = match A::try_convert(a) {
            Ok(v) => v,
            Err(err) => {
                proof {
                    lemma_sink_unchanged(sink.calls@);
                }
                return Err(err.at_position(Position::Index(0)));
            },
        };
        let vb = match B::try_convert(b) {
            Ok(v) => v,
            Err(err) => {
                proof {
                    lemma_sink_unchanged(sink.calls@);
                }
                return Err(err.at_position(Position::Index(1)));
            },
        };
        let vc = match C::try_convert(c) {
            Ok(v) => v,
            Err(err) => {
                proof {
                    lemma_sink_unchanged(sink.calls@);
                }
                return Err(err.at_position(Position::Index(2)));
            },
        };
        let vd = match D::try_convert(d) {
            Ok(v) => v,
            Err(err) => {
                proof {
                    lemma_sink_unchanged(sink.calls@);
                }
                return Err(err.at_position(Position::Index(3)));
            },
        };
        let ve = match E::try_convert(e) {
            Ok(v) => v,
            Err(err) => {
                proof {
                    lemma_sink_unchanged(sink.calls@);
                }
                return Err(err.at_position(Position::Index(4)));
            },
        };
        let vf = match F::try_convert(f) {
            Ok(v) => v,
            Err(err) => {
                proof {
                    lemma_sink_unchanged(sink.calls@);
                }
                return Err(err.at_position(Position::Index(5)));
            },
        };
        let vg = match G::try_convert(g) {
            Ok(v) => v,
            Err(err) => {
                proof {
                    lemma_sink_unchanged(sink.calls@);
                }
                return Err(err.at_position(Position::Index(6)));
            },
        };
        let res = (self.func)(va, vb, vc, vd, ve, vf, vg);
        let out = res.into_return_value(sink);
        proof {
            assert(A::converts_to(a, va)
                && B::converts_to(b, vb)
                && C::converts_to(c, vc)
                && D::converts_to(d, vd)
                && E::converts_to(e, ve)
                && F::converts_to(f, vf)
                && G::converts_to(g, vg));
            assert(call_ensures(self.func, (va, vb, vc, vd, ve, vf, vg), res));
        }
        out
    }

    /// Invoke the adapter as the registration trampoline does: the host
    /// always passes a receiver handle, and a self-free adapter discards it
    /// without attempting any conversion on it — the outcome is that of
    /// [`Self::call_convert_value`] on the argument handles alone.
    pub fn call_ignoring_self(self, rb_self: Value, a: Value, b: Value, c: Value, d: Value, e: Value, f: Value, g: Value, sink: &mut BlockSink) -> (r:
        Result<Value, Error>)
        requires
            forall|va: A, vb: B, vc: C, vd: D, ve: E, vf: F, vg: G|
                A::converts_to(a, va)
                    && B::converts_to(b, vb)
                    && C::converts_to(c, vc)
                    && D::converts_to(d, vd)
                    && E::converts_to(e, ve)
                    && F::converts_to(f, vf)
                    && G::converts_to(g, vg)
                    ==> #[trigger] call_requires(self.func, (va, vb, vc, vd, ve, vf, vg)),
        ensures
            old(sink).calls@.is_prefix_of(final(sink).calls@),
            Self::dispatch(
                self.func,
                a, b, c, d, e, f, g, r,
                final(sink).calls@.skip(old(sink).calls@.len() as int),
            ),
    {
        let _ = rb_self;
        self.call_convert_value(a, b, c, d, e, f, g, sink)
    }
}

/// Adapter exposing a native function as a self-free host method taking
/// eight positional arguments: the receiver slot the host passes is
/// discarded without conversion.
pub struct Function8<Func, A, B, C, D, E, F, G, H, Res> {
    /// The wrapped native function.
    pub func: Func,
    pub a: PhantomData<A>,
    pub b: PhantomData<B>,
    pub c: PhantomData<C>,
    pub d: PhantomData<D>,
    pub e: PhantomData<E>,
    pub f: PhantomData<F>,
    pub g: PhantomData<G>,
    pub h: PhantomData<H>,
    pub res: PhantomData<Res>,
}

impl<Func, A, B, C, D, E, F, G, H, Res> Function8<Func, A, B, C, D, E, F, G, H, Res> where
    Func: Fn(A, B, C, D, E, F, G, H) -> Res,
    A: TryConvert,
    B: TryConvert,
    C: TryConvert,
    D: TryConvert,
    E: TryConvert,
    F: TryConvert,
    G: TryConvert,
    H: TryConvert,
    Res: ReturnValue,
 {
    /// Wrap `func`.
    pub fn new(func: Func) -> (m: Self)
        ensures
            m.func == func,
    {
        Function8 { func, a: PhantomData, b: PhantomData, c: PhantomData, d: PhantomData, e: PhantomData, f: PhantomData, g: PhantomData, h: PhantomData, res: PhantomData }
    }

    /// What invoking the adapter yields: the first handle that fails to
    /// convert wins and is reported with its slot, and the wrapped function
    /// is then not invoked; when every handle converts, the function's
    /// result, normalised, with `calls` the block invocations recorded while
    /// normalising it.
    pub open spec fn dispatch(
        func: Func,
        a: Value,
        b: Value,
        c: Value,
        d: Value,
        e: Value,
        f: Value,
        g: Value,
        h: Value,
        r: Result<Value, Error>,
        calls: Seq<BlockCall>,
    ) -> bool {
        if !A::convertible(a) {
            calls.len() == 0 && (r matches Err(err) && err.is_conversion_failure_at(
                Position::Index(0),
                A::fail_spec(a),
            ))
        } else if !B::convertible(b) {
            calls.len() == 0 && (r matches Err(err) && err.is_conversion_failure_at(
                Position::Index(1),
                B::fail_spec(b),
            ))
        } else if !C::convertible(c) {
            calls.len() == 0 && (r matches Err(err) && err.is_conversion_failure_at(
                Position::Index(2),
                C::fail_spec(c),
            ))
        } else if !D::convertible(d) {
            calls.len() == 0 && (r matches Err(err) && err.is_conversion_failure_at(
                Position::Index(3),
                D::fail_spec(d),
            ))
        } else if !E::convertible(e) {
            calls.len() == 0 && (r matches Err(err) && err.is_conversion_failure_at(
                Position::Index(4),
                E::fail_spec(e),
            ))
        } else if !F::convertible(f) {
            calls.len() == 0 && (r matches Err(err) && err.is_conversion_failure_at(
                Position::Index(5),
                F::fail_spec(f),
            ))
        } else if !G::convertible(g) {
            calls.len() == 0 && (r matches Err(err) && err.is_conversion_failure_at(
                Position::Index(6),
                G::fail_spec(g),
            ))
        } else if !H::convertible(h) {
            calls.len() == 0 && (r matches Err(err) && err.is_conversion_failure_at(
                Position::Index(7),
                H::fail_spec(h),
            ))
        } else {
            exists|va: A, vb: B, vc: C, vd: D, ve: E, vf: F, vg: G, vh: H, res: Res|
                A::converts_to(a, va)
                    && B::converts_to(b, vb)
                    && C::converts_to(c, vc)
                    && D::converts_to(d, vd)
                    && E::converts_to(e, ve)
                    && F::converts_to(f, vf)
                    && G::converts_to(g, vg)
                    && H::converts_to(h, vh)
                    && #[trigger] call_ensures(func, (va, vb, vc, vd, ve, vf, vg, vh), res)
                    && res.return_spec(r, calls)
        }
    }

    /// Convert the call-site handles left to right, stopping at the first
    /// failure, invoke the wrapped function on the converted values, and
    /// normalise its result. Only the argument handles are converted; a
    /// conversion failure means the function is never invoked.
    pub fn call_convert_value(self, a: Value, b: Value, c: Value, d: Value, e: Value, f: Value, g: Value, h: Value, sink: &mut BlockSink) -> (r: Result<
        Value,
        Error,
    >)
        requires
            forall|va: A, vb: B, vc: C, vd: D, ve: E, vf: F, vg: G, vh: H|
                A::converts_to(a, va)
                    && B::converts_to(b, vb)
                    && C::converts_to(c, vc)
                    && D::converts_to(d, vd)
                    && E::converts_to(e, ve)
                    && F::converts_to(f, vf)
                    && G::converts_to(g, vg)
                    && H::converts_to(h, vh)
                    ==> #[trigger] call_requires(self.func, (va, vb, vc, vd, ve, vf, vg, vh)),
        ensures
            old(sink).calls@.is_prefix_of(final(sink).calls@),
            Self::dispatch(
                self.func,
                a, b, c, d, e, f, g, h, r,
                final(sink).calls@.skip(old(sink).calls@.len() as int),
            ),
    {
        let va = match A::try_convert(a) {
            Ok(v) => v,
            Err(err) => {
                proof {
                    lemma_sink_unchanged(sink.calls@);
                }
                return Err(err.at_position(Position::Index(0)));
            },
        };
        let vb = match B::try_convert(b) {
            Ok(v) => v,
            Err(err) => {
                proof {
                    lemma_sink_unchanged(sink.calls@);
                }
                return Err(err.at_position(Position::Index(1)));
            },
        };
        let vc = match C::try_convert(c) {
            Ok(v) => v,
            Err(err) => {
                proof {
                    lemma_sink_unchanged(sink.calls@);
                }
                return Err(err.at_position(Position::Index(2)));
            },
        };
        let vd = match D::try_convert(d) {
            Ok(v) => v,
            Err(err) => {
                proof {
                    lemma_sink_unchanged(sink.calls@);
                }
                return Err(err.at_position(Position::Index(3)));
            },
        };
        let ve = match E::try_convert(e) {
            Ok(v) => v,
            Err(err) => {
                proof {
                    lemma_sink_unchanged(sink.calls@);
                }
                return Err(err.at_position(Position::Index(4)));
            },
        };
        let vf = match F::try_convert(f) {
            Ok(v) => v,
            Err(err) => {
                proof {
                    lemma_sink_unchanged(sink.calls@);
                }
                return Err(err.at_position(Position::Index(5)));
            },
        };
        let vg = match G::try_convert(g) {
            Ok(v) => v,
            Err(err) => {
                proof {
                    lemma_sink_unchanged(sink.calls@);
                }
                return Err(err.at_position(Position::Index(6)));
            },
        };
        let vh = match H::try_convert(h) {
            Ok(v) => v,
            Err(err) => {
                proof {
                    lemma_sink_unchanged(sink.calls@);
                }
                return Err(err.at_position(Position::Index(7)));
            },
        };
        let res = (self.func)(va, vb, vc, vd, ve, vf, vg, vh);
        let out = res.into_return_value(sink);
        proof {
            assert(A::converts_to(a, va)
                && B::converts_to(b, vb)
                && C::converts_to(c, vc)
                && D::converts_to(d, vd)
                && E::converts_to(e, ve)
                && F::converts_to(f, vf)
                && G::converts_to(g, vg)
                && H::converts_to(h, vh));
            assert(call_ensures(self.func, (va, vb, vc, vd, ve, vf, vg, vh), res));
        }
        out
    }

    /// Invoke the adapter as the registration trampoline does: the host
    /// always passes a receiver handle, and a self-free adapter discards it
    /// without attempting any conversion on it — the outcome is that of
    /// [`Self::call_convert_value`] on the argument handles alone.
    pub fn call_ignoring_self(self, rb_self: Value, a: Value, b: Value, c: Value, d: Value, e: Value, f: Value, g: Value, h: Value, sink: &mut BlockSink) -> (r:
        Result<Value, Error>)
        requires
            forall|va: A, vb: B, vc: C, vd: D, ve: E, vf: F, vg: G, vh: H|
                A::converts_to(a, va)
                    && B::converts_to(b, vb)
                    && C::converts_to(c, vc)
                    && D::converts_to(d, vd)
                    && E::converts_to(e, ve)
                    && F::converts_to(f, vf)
                    && G::converts_to(g, vg)
                    && H::converts_to(h, vh)
                    ==> #[trigger] call_requires(self.func, (va, vb, vc, vd, ve, vf, vg, vh)),
        ensures
            old(sink).calls@.is_prefix_of(final(sink).calls@),
            Self::dispatch(
                self.func,
                a, b, c, d, e, f, g, h, r,
                final(sink).calls@.skip(old(sink).calls@.len() as int),
            ),
    {
        let _ = rb_self;
        self.call_convert_value(a, b, c, d, e, f, g, h, sink)
    }
}

/// Adapter exposing a native function as a self-free host method taking
/// nine positional arguments: the receiver slot the host passes is
/// discarded without conversion.
pub struct Function9<Func, A, B, C, D, E, F, G, H, I, Res> {
    /// The wrapped native function.
    pub func: Func,
    pub a: PhantomData<A>,
    pub b: PhantomData<B>,
    pub c: PhantomData<C>,
    pub d: PhantomData<D>,
    pub e: PhantomData<E>,
    pub f: PhantomData<F>,
    pub g: PhantomData<G>,
    pub h: PhantomData<H>,
    pub i: PhantomData<I>,
    pub res: PhantomData<Res>,
}

impl<Func, A, B, C, D, E, F, G, H, I, Res> Function9<Func, A, B, C, D, E, F, G, H, I, Res> where
    Func: Fn(A, B, C, D, E, F, G, H, I) -> Res,
    A: TryConvert,
    B: TryConvert,
    C: TryConvert,
    D: TryConvert,
    E: TryConvert,
    F: TryConvert,
    G: TryConvert,
    H: TryConvert,
    I: TryConvert,
    Res: ReturnValue,
 {
    /// Wrap `func`.
    pub fn new(func: Func) -> (m: Self)
        ensures
            m.func == func,
    {
        Function9 { func, a: PhantomData, b: PhantomData, c: PhantomData, d: PhantomData, e: PhantomData, f: PhantomData, g: PhantomData, h: PhantomData, i: PhantomData, res: PhantomData }
    }

    /// What invoking the adapter yields: the first handle that fails to
    /// convert wins and is reported with its slot, and the wrapped function
    /// is then not invoked; when every handle converts, the function's
    /// result, normalised, with `calls` the block invocations recorded while
    /// normalising it.
    pub open spec fn dispatch(
        func: Func,
        a: Value,
        b: Value,
        c: Value,
        d: Value,
        e: Value,
        f: Value,
        g: Value,
        h: Value,
        i: Value,
        r: Result<Value, Error>,
        calls: Seq<BlockCall>,
    ) -> bool {
        if !A::convertible(a) {
            calls.len() == 0 && (r matches Err(err) && err.is_conversion_failure_at(
                Position::Index(0),
                A::fail_spec(a),
            ))
        } else if !B::convertible(b) {
            calls.len() == 0 && (r matches Err(err) && err.is_conversion_failure_at(
                Position::Index(1),
                B::fail_spec(b),
            ))
        } else if !C::convertible(c) {
            calls.len() == 0 && (r matches Err(err) && err.is_conversion_failure_at(
                Position::Index(2),
                C::fail_spec(c),
            ))
        } else if !D::convertible(d) {
            calls.len() == 0 && (r matches Err(err) && err.is_conversion_failure_at(
                Position::Index(3),
                D::fail_spec(d),
            ))
        } else if !E::convertible(e) {
            calls.len() == 0 && (r matches Err(err) && err.is_conversion_failure_at(
                Position::Index(4),
                E::fail_spec(e),
            ))
        } else if !F::convertible(f) {
            calls.len() == 0 && (r matches Err(err) && err.is_conversion_failure_at(
                Position::Index(5),
                F::fail_spec(f),
            ))
        } else if !G::convertible(g) {
            calls.len() == 0 && (r matches Err(err) && err.is_conversion_failure_at(
                Position::Index(6),
                G::fail_spec(g),
            ))
        } else if !H::convertible(h) {
            calls.len() == 0 && (r matches Err(err) && err.is_conversion_failure_at(
                Position::Index(7),
                H::fail_spec(h),
            ))
        } else if !I::convertible(i) {
            calls.len() == 0 && (r matches Err(err) && err.is_conversion_failure_at(
                Position::Index(8),
                I::fail_spec(i),
            ))
        } else {
            exists|va: A, vb: B, vc: C, vd: D, ve: E, vf: F, vg: G, vh: H, vi: I, res: Res|
                A::converts_to(a, va)
                    && B::converts_to(b, vb)
                    && C::converts_to(c, vc)
                    && D::converts_to(d, vd)
                    && E::converts_to(e, ve)
                    && F::converts_to(f, vf)
                    && G::converts_to(g, vg)
                    && H::converts_to(h, vh)
                    && I::converts_to(i, vi)
                    && #[trigger] call_ensures(func, (va, vb, vc, vd, ve, vf, vg, vh, vi), res)
                    && res.return_spec(r, calls)
        }
    }

    /// Convert the call-site handles left to right, stopping at the first
    /// failure, invoke the wrapped function on the converted values, and
    /// normalise its result. Only the argument handles are converted; a
    /// conversion failure means the function is never invoked.
    pub fn call_convert_value(self, a: Value, b: Value, c: Value, d: Value, e: Value, f: Value, g: Value, h: Value, i: Value, sink: &mut BlockSink) -> (r: Result<
        Value,
        Error,
    >)
        requires
            forall|va: A, vb: B, vc: C, vd: D, ve: E, vf: F, vg: G, vh: H, vi: I|
                A::converts_to(a, va)
                    && B::converts_to(b, vb)
                    && C::converts_to(c, vc)
                    && D::converts_to(d, vd)
                    && E::converts_to(e, ve)
                    && F::converts_to(f, vf)
                    && G::converts_to(g, vg)
                    && H::converts_to(h, vh)
                    && I::converts_to(i, vi)
                    ==> #[trigger] call_requires(self.func, (va, vb, vc, vd, ve, vf, vg, vh, vi)),
        ensures
            old(sink).calls@.is_prefix_of(final(sink).calls@),
            Self::dispatch(
                self.func,
                a, b, c, d, e, f, g, h, i, r,
                final(sink).calls@.skip(old(sink).calls@.len() as int),
            ),
    {
        let va = match A::try_convert(a) {
            Ok(v) => v,
            Err(err) => {
                proof {
                    lemma_sink_unchanged(sink.calls@);
                }
                return Err(err.at_position(Position::Index(0)));
            },
        };
        let vb = match B::try_convert(b) {
            Ok(v) => v,
            Err(err) => {
                proof {
                    lemma_sink_unchanged(sink.calls@);
                }
                return Err(err.at_position(Position::Index(1)));
            },
        };
        let vc = match C::try_convert(c) {
            Ok(v) => v,
            Err(err) => {
                proof {
                    lemma_sink_unchanged(sink.calls@);
                }
                return Err(err.at_position(Position::Index(2)));
            },
        };
        let vd = match D::try_convert(d) {
            Ok(v) => v,
            Err(err) => {
                proof {
                    lemma_sink_unchanged(sink.calls@);
                }
                return Err(err.at_position(Position::Index(3)));
            },
        };
        let ve = match E::try_convert(e) {
            Ok(v) => v,
            Err(err) => {
                proof {
                    lemma_sink_unchanged(sink.calls@);
                }
                return Err(err.at_position(Position::Index(4)));
            },
        };
        let vf = match F::try_convert(f) {
            Ok(v) => v,
            Err(err) => {
                proof {
                    lemma_sink_unchanged(sink.calls@);
                }
                return Err(err.at_position(Position::Index(5)));
            },
        };
        let vg = match G::try_convert(g) {
            Ok(v) => v,
            Err(err) => {
                proof {
                    lemma_sink_unchanged(sink.calls@);
                }
                return Err(err.at_position(Position::Index(6)));
            },
        };
        let vh = match H::try_convert(h) {
            Ok(v) => v,
            Err(err) => {
                proof {
                    lemma_sink_unchanged(sink.calls@);
                }
                return Err(err.at_position(Position::Index(7)));
            },
        };
        let vi = match I::try_convert(i) {
            Ok(v) => v,
            Err(err) => {
                proof {
                    lemma_sink_unchanged(sink.calls@);
                }
                return Err(err.at_position(Position::Index(8)));
            },
        };
        let res = (self.func)(va, vb, vc, vd, ve, vf, vg, vh, vi);
        let out = res.into_return_value(sink);
        proof {
            assert(A::converts_to(a, va)
                && B::converts_to(b, vb)
                && C::converts_to(c, vc)
                && D::converts_to(d, vd)
                && E::converts_to(e, ve)
                && F::converts_to(f, vf)
                && G::converts_to(g, vg)
                && H::converts_to(h, vh)
                && I::converts_to(i, vi));
            assert(call_ensures(self.func, (va, vb, vc, vd, ve, vf, vg, vh, vi), res));
        }
        out
    }

    /// Invoke the adapter as the registration trampoline does: the host
    /// always passes a receiver handle, and a self-free adapter discards it
    /// without attempting any conversion on it — the outcome is that of
    /// [`Self::call_convert_value`] on the argument handles alone.
    pub fn call_ignoring_self(self, rb_self: Value, a: Value, b: Value, c: Value, d: Value, e: Value, f: Value, g: Value, h: Value, i: Value, sink: &mut BlockSink) -> (r:
        Result<Value, Error>)
        requires
            forall|va: A, vb: B, vc: C, vd: D, ve: E, vf: F, vg: G, vh: H, vi: I|
                A::converts_to(a, va)
                    && B::converts_to(b, vb)
                    && C::converts_to(c, vc)
                    && D::converts_to(d, vd)
                    && E::converts_to(e, ve)
                    && F::converts_to(f, vf)
                    && G::converts_to(g, vg)
                    && H::converts_to(h, vh)
                    && I::converts_to(i, vi)
                    ==> #[trigger] call_requires(self.func, (va, vb, vc, vd, ve, vf, vg, vh, vi)),
        ensures
            old(sink).calls@.is_prefix_of(final(sink).calls@),
            Self::dispatch(
                self.func,
                a, b, c, d, e, f, g, h, i, r,
                final(sink).calls@.skip(old(sink).calls@.len() as int),
            ),
    {
        let _ = rb_self;
        self.call_convert_value(a, b, c, d, e, f, g, h, i, sink)
    }
}

/// Adapter exposing a native function as a self-free host method taking
/// ten positional arguments: the receiver slot the host passes is
/// discarded without conversion.
pub struct Function10<Func, A, B, C, D, E, F, G, H, I, J, Res> {
    /// The wrapped native function.
    pub func: Func,
    pub a: PhantomData<A>,
    pub b: PhantomData<B>,
    pub c: PhantomData<C>,
    pub d: PhantomData<D>,
    pub e: PhantomData<E>,
    pub f: PhantomData<F>,
    pub g: PhantomData<G>,
    pub h: PhantomData<H>,
    pub i: PhantomData<I>,
    pub j: PhantomData<J>,
    pub res: PhantomData<Res>,
}

impl<Func, A, B, C, D, E, F, G, H, I, J, Res> Function10<Func, A, B, C, D, E, F, G, H, I, J, Res> where
    Func: Fn(A, B, C, D, E, F, G, H, I, J) -> Res,
    A: TryConvert,
    B: TryConvert,
    C: TryConvert,
    D: TryConvert,
    E: TryConvert,
    F: TryConvert,
    G: TryConvert,
    H: TryConvert,
    I: TryConvert,
    J: TryConvert,
    Res: ReturnValue,
 {
    /// Wrap `func`.
    pub fn new(func: Func) -> (m: Self)
        ensures
            m.func == func,
    {
        Function10 { func, a: PhantomData, b: PhantomData, c: PhantomData, d: PhantomData, e: PhantomData, f: PhantomData, g: PhantomData, h: PhantomData, i: PhantomData, j: PhantomData, res: PhantomData }
    }

    /// What invoking the adapter yields: the first handle that fails to
    /// convert wins and is reported with its slot, and the wrapped function
    /// is then not invoked; when every handle converts, the function's
    /// result, normalised, with `calls` the block invocations recorded while
    /// normalising it.
    pub open spec fn dispatch(
        func: Func,
        a: Value,
        b: Value,
        c: Value,
        d: Value,
        e: Value,
        f: Value,
        g: Value,
        h: Value,
        i: Value,
        j: Value,
        r: Result<Value, Error>,
        calls: Seq<BlockCall>,
    ) -> bool {
        if !A::convertible(a) {
            calls.len() == 0 && (r matches Err(err) && err.is_conversion_failure_at(
                Position::Index(0),
                A::fail_spec(a),
            ))
        } else if !B::convertible(b) {
            calls.len() == 0 && (r matches Err(err) && err.is_conversion_failure_at(
                Position::Index(1),
                B::fail_spec(b),
            ))
        } else if !C::convertible(c) {
            calls.len() == 0 && (r matches Err(err) && err.is_conversion_failure_at(
                Position::Index(2),
                C::fail_spec(c),
            ))
        } else if !D::convertible(d) {
            calls.len() == 0 && (r matches Err(err) && err.is_conversion_failure_at(
                Position::Index(3),
                D::fail_spec(d),
            ))
        } else if !E::convertible(e) {
            calls.len() == 0 && (r matches Err(err) && err.is_conversion_failure_at(
                Position::Index(4),
                E::fail_spec(e),
            ))
        } else if !F::convertible(f) {
            calls.len() == 0 && (r matches Err(err) && err.is_conversion_failure_at(
                Position::Index(5),
                F::fail_spec(f),
            ))
        } else if !G::convertible(g) {
            calls.len() == 0 && (r matches Err(err) && err.is_conversion_failure_at(
                Position::Index(6),
                G::fail_spec(g),
            ))
        } else if !H::convertible(h) {
            calls.len() == 0 && (r matches Err(err) && err.is_conversion_failure_at(
                Position::Index(7),
                H::fail_spec(h),
            ))
        } else if !I::convertible(i) {
            calls.len() == 0 && (r matches Err(err) && err.is_conversion_failure_at(
                Position::Index(8),
                I::fail_spec(i),
            ))
        } else if !J::convertible(j) {
            calls.len() == 0 && (r matches Err(err) && err.is_conversion_failure_at(
                Position::Index(9),
                J::fail_spec(j),
            ))
        } else {
            exists|va: A, vb: B, vc: C, vd: D, ve: E, vf: F, vg: G, vh: H, vi: I, vj: J, res: Res|
                A::converts_to(a, va)
                    && B::converts_to(b, vb)
                    && C::converts_to(c, vc)
                    && D::converts_to(d, vd)
                    && E::converts_to(e, ve)
                    && F::converts_to(f, vf)
                    && G::converts_to(g, vg)
                    && H::converts_to(h, vh)
                    && I::converts_to(i, vi)
                    && J::converts_to(j, vj)
                    && #[trigger] call_ensures(func, (va, vb, vc, vd, ve, vf, vg, vh, vi, vj), res)
                    && res.return_spec(r, calls)
        }
    }

    /// Convert the call-site handles left to right, stopping at the first
    /// failure, invoke the wrapped function on the converted values, and
    /// normalise its result. Only the argument handles are converted; a
    /// conversion failure means the function is never invoked.
    pub fn call_convert_value(self, a: Value, b: Value, c: Value, d: Value, e: Value, f: Value, g: Value, h: Value, i: Value, j: Value, sink: &mut BlockSink) -> (r: Result<
        Value,
        Error,
    >)
        requires
            forall|va: A, vb: B, vc: C, vd: D, ve: E, vf: F, vg: G, vh: H, vi: I, vj: J|
                A::converts_to(a, va)
                    && B::converts_to(b, vb)
                    && C::converts_to(c, vc)
                    && D::converts_to(d, vd)
                    && E::converts_to(e, ve)
                    && F::converts_to(f, vf)
                    && G::converts_to(g, vg)
                    && H::converts_to(h, vh)
                    && I::converts_to(i, vi)
                    && J::converts_to(j, vj)
                    ==> #[trigger] call_requires(self.func, (va, vb, vc, vd, ve, vf, vg, vh, vi, vj)),
        ensures
            old(sink).calls@.is_prefix_of(final(sink).calls@),
            Self::dispatch(
                self.func,
                a, b, c, d, e, f, g, h, i, j, r,
                final(sink).calls@.skip(old(sink).calls@.len() as int),
            ),
    {
        let va = match A::try_convert(a) {
            Ok(v) => v,
            Err(err) => {
                proof {
                    lemma_sink_unchanged(sink.calls@);
                }
                return Err(err.at_position(Position::Index(0)));
            },
        };
        let vb = match B::try_convert(b) {
            Ok(v) => v,
            Err(err) => {
                proof {
                    lemma_sink_unchanged(sink.calls@);
                }
                return Err(err.at_position(Position::Index(1)));
            },
        };
        let vc = match C::try_convert(c) {
            Ok(v) => v,
            Err(err) => {
                proof {
                    lemma_sink_unchanged(sink.calls@);
                }
                return Err(err.at_position(Position::Index(2)));
            },
        };
        let vd = match D::try_convert(d) {
            Ok(v) => v,
            Err(err) => {
                proof {
                    lemma_sink_unchanged(sink.calls@);
                }
                return Err(err.at_position(Position::Index(3)));
            },
        };
        let ve = match E::try_convert(e) {
            Ok(v) => v,
            Err(err) => {
                proof {
                    lemma_sink_unchanged(sink.calls@);
                }
                return Err(err.at_position(Position::Index(4)));
            },
        };
        let vf = match F::try_convert(f) {
            Ok(v) => v,
            Err(err) => {
                proof {
                    lemma_sink_unchanged(sink.calls@);
                }
                return Err(err.at_position(Position::Index(5)));
            },
        };
        let vg = match G::try_convert(g) {
            Ok(v) => v,
            Err(err) => {
                proof {
                    lemma_sink_unchanged(sink.calls@);
                }
                return Err(err.at_position(Position::Index(6)));
            },
        };
        let vh = match H::try_convert(h) {
            Ok(v) => v,
            Err(err) => {
                proof {
                    lemma_sink_unchanged(sink.calls@);
                }
                return Err(err.at_position(Position::Index(7)));
            },
        };
        let vi = match I::try_convert(i) {
            Ok(v) => v,
            Err(err) => {
                proof {
                    lemma_sink_unchanged(sink.calls@);
                }
                return Err(err.at_position(Position::Index(8)));
            },
        };
        let vj = match J::try_convert(j) {
            Ok(v) => v,
            Err(err) => {
                proof {
                    lemma_sink_unchanged(sink.calls@);
                }
                return Err(err.at_position(Position::Index(9)));
            },
        };
        let res = (self.func)(va, vb, vc, vd, ve, vf, vg, vh, vi, vj);
        let out = res.into_return_value(sink);
        proof {
            assert(A::converts_to(a, va)
                && B::converts_to(b, vb)
                && C::converts_to(c, vc)
                && D::converts_to(d, vd)
                && E::converts_to(e, ve)
                && F::converts_to(f, vf)
                && G::converts_to(g, vg)
                && H::converts_to(h, vh)
                && I::converts_to(i, vi)
                && J::converts_to(j, vj));
            assert(call_ensures(self.func, (va, vb, vc, vd, ve, vf, vg, vh, vi, vj), res));
        }
        out
    }

    /// Invoke the adapter as the registration trampoline does: the host
    /// always passes a receiver handle, and a self-free adapter discards it
    /// without attempting any conversion on it — the outcome is that of
    /// [`Self::call_convert_value`] on the argument handles alone.
    pub fn call_ignoring_self(self, rb_self: Value, a: Value, b: Value, c: Value, d: Value, e: Value, f: Value, g: Value, h: Value, i: Value, j: Value, sink: &mut BlockSink) -> (r:
        Result<Value, Error>)
        requires
            forall|va: A, vb: B, vc: C, vd: D, ve: E, vf: F, vg: G, vh: H, vi: I, vj: J|
                A::converts_to(a, va)
                    && B::converts_to(b, vb)
                    && C::converts_to(c, vc)
                    && D::converts_to(d, vd)
                    && E::converts_to(e, ve)
                    && F::converts_to(f, vf)
                    && G::converts_to(g, vg)
                    && H::converts_to(h, vh)
                    && I::converts_to(i, vi)
                    && J::converts_to(j, vj)
                    ==> #[trigger] call_requires(self.func, (va, vb, vc, vd, ve, vf, vg, vh, vi, vj)),
        ensures
            old(sink).calls@.is_prefix_of(final(sink).calls@),
            Self::dispatch(
                self.func,
                a, b, c, d, e, f, g, h, i, j, r,
                final(sink).calls@.skip(old(sink).calls@.len() as int),
            ),
    {
        let _ = rb_self;
        self.call_convert_value(a, b, c, d, e, f, g, h, i, j, sink)
    }
}

/// Adapter exposing a native function as a self-free host method taking
/// eleven positional arguments: the receiver slot the host passes is
/// discarded without conversion.
pub struct Function11<Func, A, B, C, D, E, F, G, H, I, J, K, Res> {
    /// The wrapped native function.
    pub func: Func,
    pub a: PhantomData<A>,
    pub b: PhantomData<B>,
    pub c: PhantomData<C>,
    pub d: PhantomData<D>,
    pub e: PhantomData<E>,
    pub f: PhantomData<F>,
    pub g: PhantomData<G>,
    pub h: PhantomData<H>,
    pub i: PhantomData<I>,
    pub j: PhantomData<J>,
    pub k: PhantomData<K>,
    pub res: PhantomData<Res>,
}

impl<Func, A, B, C, D, E, F, G, H, I, J, K, Res> Function11<Func, A, B, C, D, E, F, G, H, I, J, K, Res> where
    Func: Fn(A, B, C, D, E, F, G, H, I, J, K) -> Res,
    A: TryConvert,
    B: TryConvert,
    C: TryConvert,
    D: TryConvert,
    E: TryConvert,
    F: TryConvert,
    G: TryConvert,
    H: TryConvert,
    I: TryConvert,
    J: TryConvert,
    K: TryConvert,
    Res: ReturnValue,
 {
    /// Wrap `func`.
    pub fn new(func: Func) -> (m: Self)
        ensures
            m.func == func,
    {
        Function11 { func, a: PhantomData, b: PhantomData, c: PhantomData, d: PhantomData, e: PhantomData, f: PhantomData, g: PhantomData, h: PhantomData, i: PhantomData, j: PhantomData, k: PhantomData, res: PhantomData }
    }

    /// What invoking the adapter yields: the first handle that fails to
    /// convert wins and is reported with its slot, and the wrapped function
    /// is then not invoked; when every handle converts, the function's
    /// result, normalised, with `calls` the block invocations recorded while
    /// normalising it.
    pub open spec fn dispatch(
        func: Func,
        a: Value,
        b: Value,
        c: Value,
        d: Value,
        e: Value,
        f: Value,
        g: Value,
        h: Value,
        i: Value,
        j: Value,
        k: Value,
        r: Result<Value, Error>,
        calls: Seq<BlockCall>,
    ) -> bool {
        if !A::convertible(a) {
            calls.len() == 0 && (r matches Err(err) && err.is_conversion_failure_at(
                Position::Index(0),
                A::fail_spec(a),
            ))
        } else if !B::convertible(b) {
            calls.len() == 0 && (r matches Err(err) && err.is_conversion_failure_at(
                Position::Index(1),
                B::fail_spec(b),
            ))
        } else if !C::convertible(c) {
            calls.len() == 0 && (r matches Err(err) && err.is_conversion_failure_at(
                Position::Index(2),
                C::fail_spec(c),
            ))
        } else if !D::convertible(d) {
            calls.len() == 0 && (r matches Err(err) && err.is_conversion_failure_at(
                Position::Index(3),
                D::fail_spec(d),
            ))
        } else if !E::convertible(e) {
            calls.len() == 0 && (r matches Err(err) && err.is_conversion_failure_at(
                Position::Index(4),
                E::fail_spec(e),
            ))
        } else if !F::convertible(f) {
            calls.len() == 0 && (r matches Err(err) && err.is_conversion_failure_at(
                Position::Index(5),
                F::fail_spec(f),
            ))
        } else if !G::convertible(g) {
            calls.len() == 0 && (r matches Err(err) && err.is_conversion_failure_at(
                Position::Index(6),
                G::fail_spec(g),
            ))
        } else if !H::convertible(h) {
            calls.len() == 0 && (r matches Err(err) && err.is_conversion_failure_at(
                Position::Index(7),
                H::fail_spec(h),
            ))
        } else if !I::convertible(i) {
            calls.len() == 0 && (r matches Err(err) && err.is_conversion_failure_at(
                Position::Index(8),
                I::fail_spec(i),
            ))
        } else if !J::convertible(j) {
            calls.len() == 0 && (r matches Err(err) && err.is_conversion_failure_at(
                Position::Index(9),
                J::fail_spec(j),
            ))
        } else if !K::convertible(k) {
            calls.len() == 0 && (r matches Err(err) && err.is_conversion_failure_at(
                Position::Index(10),
                K::fail_spec(k),
            ))
        } else {
            exists|va: A, vb: B, vc: C, vd: D, ve: E, vf: F, vg: G, vh: H, vi: I, vj: J, vk: K, res: Res|
                A::converts_to(a, va)
                    && B::converts_to(b, vb)
                    && C::converts_to(c, vc)
                    && D::converts_to(d, vd)
                    && E::converts_to(e, ve)
                    && F::converts_to(f, vf)
                    && G::converts_to(g, vg)
                    && H::converts_to(h, vh)
                    && I::converts_to(i, vi)
                    && J::converts_to(j, vj)
                    && K::converts_to(k, vk)
                    && #[trigger] call_ensures(func, (va, vb, vc, vd, ve, vf, vg, vh, vi, vj, vk), res)
                    && res.return_spec(r, calls)
        }
    }

    /// Convert the call-site handles left to right, stopping at the first
    /// failure, invoke the wrapped function on the converted values, and
    /// normalise its result. Only the argument handles are converted; a
    /// conversion failure means the function is never invoked.
    pub fn call_convert_value(self, a: Value, b: Value, c: Value, d: Value, e: Value, f: Value, g: Value, h: Value, i: Value, j: Value, k: Value, sink: &mut BlockSink) -> (r: Result<
        Value,
        Error,
    >)
        requires
            forall|va: A, vb: B, vc: C, vd: D, ve: E, vf: F, vg: G, vh: H, vi: I, vj: J, vk: K|
                A::converts_to(a, va)
                    && B::converts_to(b, vb)
                    && C::converts_to(c, vc)
                    && D::converts_to(d, vd)
                    && E::converts_to(e, ve)
                    && F::converts_to(f, vf)
                    && G::converts_to(g, vg)
                    && H::converts_to(h, vh)
                    && I::converts_to(i, vi)
                    && J::converts_to(j, vj)
                    && K::converts_to(k, vk)
                    ==> #[trigger] call_requires(self.func, (va, vb, vc, vd, ve, vf, vg, vh, vi, vj, vk)),
        ensures
            old(sink).calls@.is_prefix_of(final(sink).calls@),
            Self::dispatch(
                self.func,
                a, b, c, d, e, f, g, h, i, j, k, r,
                final(sink).calls@.skip(old(sink).calls@.len() as int),
            ),
    {
        let va = match A::try_convert(a) {
            Ok(v) => v,
            Err(err) => {
                proof {
                    lemma_sink_unchanged(sink.calls@);
                }
                return Err(err.at_position(Position::Index(0)));
            },
        };
        let vb = match B::try_convert(b) {
            Ok(v) => v,
            Err(err) => {
                proof {
                    lemma_sink_unchanged(sink.calls@);
                }
                return Err(err.at_position(Position::Index(1)));
            },
        };
        let vc = match C::try_convert(c) {
            Ok(v) => v,
            Err(err) => {
                proof {
                    lemma_sink_unchanged(sink.calls@);
                }
                return Err(err.at_position(Position::Index(2)));
            },
        };
        let vd = match D::try_convert(d) {
            Ok(v) => v,
            Err(err) => {
                proof {
                    lemma_sink_unchanged(sink.calls@);
                }
                return Err(err.at_position(Position::Index(3)));
            },
        };
        let ve = match E::try_convert(e) {
            Ok(v) => v,
            Err(err) => {
                proof {
                    lemma_sink_unchanged(sink.calls@);
                }
                return Err(err.at_position(Position::Index(4)));
            },
        };
        let vf = match F::try_convert(f) {
            Ok(v) => v,
            Err(err) => {
                proof {
                    lemma_sink_unchanged(sink.calls@);
                }
                return Err(err.at_position(Position::Index(5)));
            },
        };
        let vg = match G::try_convert(g) {
            Ok(v) => v,
            Err(err) => {
                proof {
                    lemma_sink_unchanged(sink.calls@);
                }
                return Err(err.at_position(Position::Index(6)));
            },
        };
        let vh = match H::try_convert(h) {
            Ok(v) => v,
            Err(err) => {
                proof {
                    lemma_sink_unchanged(sink.calls@);
                }
                return Err(err.at_position(Position::Index(7)));
            },
        };
        let vi = match I::try_convert(i) {
            Ok(v) => v,
            Err(err) => {
                proof {
                    lemma_sink_unchanged(sink.calls@);
                }
                return Err(err.at_position(Position::Index(8)));
            },
        };
        let vj = match J::try_convert(j) {
            Ok(v) => v,
            Err(err) => {
                proof {
                    lemma_sink_unchanged(sink.calls@);
                }
                return Err(err.at_position(Position::Index(9)));
            },
        };
        let vk = match K::try_convert(k) {
            Ok(v) => v,
            Err(err) => {
                proof {
                    lemma_sink_unchanged(sink.calls@);
                }
                return Err(err.at_position(Position::Index(10)));
            },
        };
        let res = (self.func)(va, vb, vc, vd, ve, vf, vg, vh, vi, vj, vk);
        let out = res.into_return_value(sink);
        proof {
            assert(A::converts_to(a, va)
                && B::converts_to(b, vb)
                && C::converts_to(c, vc)
                && D::converts_to(d, vd)
                && E::converts_to(e, ve)
                && F::converts_to(f, vf)
                && G::converts_to(g, vg)
                && H::converts_to(h, vh)
                && I::converts_to(i, vi)
                && J::converts_to(j, vj)
                && K::converts_to(k, vk));
            assert(call_ensures(self.func, (va, vb, vc, vd, ve, vf, vg, vh, vi, vj, vk), res));
        }
        out
    }

    /// Invoke the adapter as the registration trampoline does: the host
    /// always passes a receiver handle, and a self-free adapter discards it
    /// without attempting any conversion on it — the outcome is that of
    /// [`Self::call_convert_value`] on the argument handles alone.
    pub fn call_ignoring_self(self, rb_self: Value, a: Value, b: Value, c: Value, d: Value, e: Value, f: Value, g: Value, h: Value, i: Value, j: Value, k: Value, sink: &mut BlockSink) -> (r:
        Result<Value, Error>)
        requires
            forall|va: A, vb: B, vc: C, vd: D, ve: E, vf: F, vg: G, vh: H, vi: I, vj: J, vk: K|
                A::converts_to(a, va)
                    && B::converts_to(b, vb)
                    && C::converts_to(c, vc)
                    && D::converts_to(d, vd)
                    && E::converts_to(e, ve)
                    && F::converts_to(f, vf)
                    && G::converts_to(g, vg)
                    && H::converts_to(h, vh)
                    && I::converts_to(i, vi)
                    && J::converts_to(j, vj)
                    && K::converts_to(k, vk)
                    ==> #[trigger] call_requires(self.func, (va, vb, vc, vd, ve, vf, vg, vh, vi, vj, vk)),
        ensures
            old(sink).calls@.is_prefix_of(final(sink).calls@),
            Self::dispatch(
                self.func,
                a, b, c, d, e, f, g, h, i, j, k, r,
                final(sink).calls@.skip(old(sink).calls@.len() as int),
            ),
    {
        let _ = rb_self;
        self.call_convert_value(a, b, c, d, e, f, g, h, i, j, k, sink)
    }
}

/// Adapter exposing a native function as a self-free host method taking
/// twelve positional arguments: the receiver slot the host passes is
/// discarded without conversion.
pub struct Function12<Func, A, B, C, D, E, F, G, H, I, J, K, L, Res> {
    /// The wrapped native function.
    pub func: Func,
    pub a: PhantomData<A>,
    pub b: PhantomData<B>,
    pub c: PhantomData<C>,
    pub d: PhantomData<D>,
    pub e: PhantomData<E>,
    pub f: PhantomData<F>,
    pub g: PhantomData<G>,
    pub h: PhantomData<H>,
    pub i: PhantomData<I>,
    pub j: PhantomData<J>,
    pub k: PhantomData<K>,
    pub l: PhantomData<L>,
    pub res: PhantomData<Res>,
}

impl<Func, A, B, C, D, E, F, G, H, I, J, K, L, Res> Function12<Func, A, B, C, D, E, F, G, H, I, J, K, L, Res> where
    Func: Fn(A, B, C, D, E, F, G, H, I, J, K, L) -> Res,
    A: TryConvert,
    B: TryConvert,
    C: TryConvert,
    D: TryConvert,
    E: TryConvert,
    F: TryConvert,
    G: TryConvert,
    H: TryConvert,
    I: TryConvert,
    J: TryConvert,
    K: TryConvert,
    L: TryConvert,
    Res: ReturnValue,
 {
    /// Wrap `func`.
    pub fn new(func: Func) -> (m: Self)
        ensures
            m.func == func,
    {
        Function12 { func, a: PhantomData, b: PhantomData, c: PhantomData, d: PhantomData, e: PhantomData, f: PhantomData, g: PhantomData, h: PhantomData, i: PhantomData, j: PhantomData, k: PhantomData, l: PhantomData, res: PhantomData }
    }

    /// What invoking the adapter yields: the first handle that fails to
    /// convert wins and is reported with its slot, and the wrapped function
    /// is then not invoked; when every handle converts, the function's
    /// result, normalised, with `calls` the block invocations recorded while
    /// normalising it.
    pub open spec fn dispatch(
        func: Func,
        a: Value,
        b: Value,
        c: Value,
        d: Value,
        e: Value,
        f: Value,
        g: Value,
        h: Value,
        i: Value,
        j: Value,
        k: Value,
        l: Value,
        r: Result<Value, Error>,
        calls: Seq<BlockCall>,
    ) -> bool {
        if !A::convertible(a) {
            calls.len() == 0 && (r matches Err(err) && err.is_conversion_failure_at(
                Position::Index(0),
                A::fail_spec(a),
            ))
        } else if !B::convertible(b) {
            calls.len() == 0 && (r matches Err(err) && err.is_conversion_failure_at(
                Position::Index(1),
                B::fail_spec(b),
            ))
        } else if !C::convertible(c) {
            calls.len() == 0 && (r matches Err(err) && err.is_conversion_failure_at(
                Position::Index(2),
                C::fail_spec(c),
            ))
        } else if !D::convertible(d) {
            calls.len() == 0 && (r matches Err(err) && err.is_conversion_failure_at(
                Position::Index(3),
                D::fail_spec(d),
            ))
        } else if !E::convertible(e) {
            calls.len() == 0 && (r matches Err(err) && err.is_conversion_failure_at(
                Position::Index(4),
                E::fail_spec(e),
            ))
        } else if !F::convertible(f) {
            calls.len() == 0 && (r matches Err(err) && err.is_conversion_failure_at(
                Position::Index(5),
                F::fail_spec(f),
            ))
        } else if !G::convertible(g) {
            calls.len() == 0 && (r matches Err(err) && err.is_conversion_failure_at(
                Position::Index(6),
                G::fail_spec(g),
            ))
        } else if !H::convertible(h) {
            calls.len() == 0 && (r matches Err(err) && err.is_conversion_failure_at(
                Position::Index(7),
                H::fail_spec(h),
            ))
        } else if !I::convertible(i) {
            calls.len() == 0 && (r matches Err(err) && err.is_conversion_failure_at(
                Position::Index(8),
                I::fail_spec(i),
            ))
        } else if !J::convertible(j) {
            calls.len() == 0 && (r matches Err(err) && err.is_conversion_failure_at(
                Position::Index(9),
                J::fail_spec(j),
            ))
        } else if !K::convertible(k) {
            calls.len() == 0 && (r matches Err(err) && err.is_conversion_failure_at(
                Position::Index(10),
                K::fail_spec(k),
            ))
        } else if !L::convertible(l) {
            calls.len() == 0 && (r matches Err(err) && err.is_conversion_failure_at(
                Position::Index(11),
                L::fail_spec(l),
            ))
        } else {
            exists|va: A, vb: B, vc: C, vd: D, ve: E, vf: F, vg: G, vh: H, vi: I, vj: J, vk: K, vl: L, res: Res|
                A::converts_to(a, va)
                    && B::converts_to(b, vb)
                    && C::converts_to(c, vc)
                    && D::converts_to(d, vd)
                    && E::converts_to(e, ve)
                    && F::converts_to(f, vf)
                    && G::converts_to(g, vg)
                    && H::converts_to(h, vh)
                    && I::converts_to(i, vi)
                    && J::converts_to(j, vj)
                    && K::converts_to(k, vk)
                    && L::converts_to(l, vl)
                    && #[trigger] call_ensures(func, (va, vb, vc, vd, ve, vf, vg, vh, vi, vj, vk, vl), res)
                    && res.return_spec(r, calls)
        }
    }

    /// Convert the call-site handles left to right, stopping at the first
    /// failure, invoke the wrapped function on the converted values, and
    /// normalise its result. Only the argument handles are converted; a
    /// conversion failure means the function is never invoked.
    pub fn call_convert_value(self, a: Value, b: Value, c: Value, d: Value, e: Value, f: Value, g: Value, h: Value, i: Value, j: Value, k: Value, l: Value, sink: &mut BlockSink) -> (r: Result<
        Value,
        Error,
    >)
        requires
            forall|va: A, vb: B, vc: C, vd: D, ve: E, vf: F, vg: G, vh: H, vi: I, vj: J, vk: K, vl: L|
                A::converts_to(a, va)
                    && B::converts_to(b, vb)
                    && C::converts_to(c, vc)
                    && D::converts_to(d, vd)
                    && E::converts_to(e, ve)
                    && F::converts_to(f, vf)
                    && G::converts_to(g, vg)
                    && H::converts_to(h, vh)
                    && I::converts_to(i, vi)
                    && J::converts_to(j, vj)
                    && K::converts_to(k, vk)
                    && L::converts_to(l, vl)
                    ==> #[trigger] call_requires(self.func, (va, vb, vc, vd, ve, vf, vg, vh, vi, vj, vk, vl)),
        ensures
            old(sink).calls@.is_prefix_of(final(sink).calls@),
            Self::dispatch(
                self.func,
                a, b, c, d, e, f, g, h, i, j, k, l, r,
                final(sink).calls@.skip(old(sink).calls@.len() as int),
            ),
    {
        let va = match A::try_convert(a) {
            Ok(v) => v,
            Err(err) => {
                proof {
                    lemma_sink_unchanged(sink.calls@);
                }
                return Err(err.at_position(Position::Index(0)));
            },
        };
        let vb = match B::try_convert(b) {
            Ok(v) => v,
            Err(err) => {
                proof {
                    lemma_sink_unchanged(sink.calls@);
                }
                return Err(err.at_position(Position::Index(1)));
            },
        };
        let vc = match C::try_convert(c) {
            Ok(v) => v,
            Err(err) => {
                proof {
                    lemma_sink_unchanged(sink.calls@);
                }
                return Err(err.at_position(Position::Index(2)));
            },
        };
        let vd = match D::try_convert(d) {
            Ok(v) => v,
            Err(err) => {
                proof {
                    lemma_sink_unchanged(sink.calls@);
                }
                return Err(err.at_position(Position::Index(3)));
            },
        };
        let ve = match E::try_convert(e) {
            Ok(v) => v,
            Err(err) => {
                proof {
                    lemma_sink_unchanged(sink.calls@);
                }
                return Err(err.at_position(Position::Index(4)));
            },
        };
        let vf = match F::try_convert(f) {
            Ok(v) => v,
            Err(err) => {
                proof {
                    lemma_sink_unchanged(sink.calls@);
                }
                return Err(err.at_position(Position::Index(5)));
            },
        };
        let vg = match G::try_convert(g) {
            Ok(v) => v,
            Err(err) => {
                proof {
                    lemma_sink_unchanged(sink.calls@);
                }
                return Err(err.at_position(Position::Index(6)));
            },
        };
        let vh = match H::try_convert(h) {
            Ok(v) => v,
            Err(err) => {
                proof {
                    lemma_sink_unchanged(sink.calls@);
                }
                return Err(err.at_position(Position::Index(7)));
            },
        };
        let vi = match I::try_convert(i) {
            Ok(v) => v,
            Err(err) => {
                proof {
                    lemma_sink_unchanged(sink.calls@);
                }
                return Err(err.at_position(Position::Index(8)));
            },
        };
        let vj = match J::try_convert(j) {
            Ok(v) => v,
            Err(err) => {
                proof {
                    lemma_sink_unchanged(sink.calls@);
                }
                return Err(err.at_position(Position::Index(9)));
            },
        };
        let vk = match K::try_convert(k) {
            Ok(v) => v,
            Err(err) => {
                proof {
                    lemma_sink_unchanged(sink.calls@);
                }
                return Err(err.at_position(Position::Index(10)));
            },
        };
        let vl = match L::try_convert(l) {
            Ok(v) => v,
            Err(err) => {
                proof {
                    lemma_sink_unchanged(sink.calls@);
                }
                return Err(err.at_position(Position::Index(11)));
            },
        };
        let res = (self.func)(va, vb, vc, vd, ve, vf, vg, vh, vi, vj, vk, vl);
        let out = res.into_return_value(sink);
        proof {
            assert(A::converts_to(a, va)
                && B::converts_to(b, vb)
                && C::converts_to(c, vc)
                && D::converts_to(d, vd)
                && E::converts_to(e, ve)
                && F::converts_to(f, vf)
                && G::converts_to(g, vg)
                && H::converts_to(h, vh)
                && I::converts_to(i, vi)
                && J::converts_to(j, vj)
                && K::converts_to(k, vk)
                && L::converts_to(l, vl));
            assert(call_ensures(self.func, (va, vb, vc, vd, ve, vf, vg, vh, vi, vj, vk, vl), res));
        }
        out
    }

    /// Invoke the adapter as the registration trampoline does: the host
    /// always passes a receiver handle, and a self-free adapter discards it
    /// without attempting any conversion on it — the outcome is that of
    /// [`Self::call_convert_value`] on the argument handles alone.
    pub fn call_ignoring_self(self, rb_self: Value, a: Value, b: Value, c: Value, d: Value, e: Value, f: Value, g: Value, h: Value, i: Value, j: Value, k: Value, l: Value, sink: &mut BlockSink) -> (r:
        Result<Value, Error>)
        requires
            forall|va: A, vb: B, vc: C, vd: D, ve: E, vf: F, vg: G, vh: H, vi: I, vj: J, vk: K, vl: L|
                A::converts_to(a, va)
                    && B::converts_to(b, vb)
                    && C::converts_to(c, vc)
                    && D::converts_to(d, vd)
                    && E::converts_to(e, ve)
                    && F::converts_to(f, vf)
                    && G::converts_to(g, vg)
                    && H::converts_to(h, vh)
                    && I::converts_to(i, vi)
                    && J::converts_to(j, vj)
                    && K::converts_to(k, vk)
                    && L::converts_to(l, vl)
                    ==> #[trigger] call_requires(self.func, (va, vb, vc, vd, ve, vf, vg, vh, vi, vj, vk, vl)),
        ensures
            old(sink).calls@.is_prefix_of(final(sink).calls@),
            Self::dispatch(
                self.func,
                a, b, c, d, e, f, g, h, i, j, k, l, r,
                final(sink).calls@.skip(old(sink).calls@.len() as int),
            ),
    {
        let _ = rb_self;
        self.call_convert_value(a, b, c, d, e, f, g, h, i, j, k, l, sink)
    }
}

/// Adapter exposing a native function as a self-free host method taking
/// thirteen positional arguments: the receiver slot the host passes is
/// discarded without conversion.
pub struct Function13<Func, A, B, C, D, E, F, G, H, I, J, K, L, M, Res> {
    /// The wrapped native function.
    pub func: Func,
    pub a: PhantomData<A>,
    pub b: PhantomData<B>,
    pub c: PhantomData<C>,
    pub d: PhantomData<D>,
    pub e: PhantomData<E>,
    pub f: PhantomData<F>,
    pub g: PhantomData<G>,
    pub h: PhantomData<H>,
    pub i: PhantomData<I>,
    pub j: PhantomData<J>,
    pub k: PhantomData<K>,
    pub l: PhantomData<L>,
    pub m: PhantomData<M>,
    pub res: PhantomData<Res>,
}

impl<Func, A, B, C, D, E, F, G, H, I, J, K, L, M, Res> Function13<Func, A, B, C, D, E, F, G, H, I, J, K, L, M, Res> where
    Func: Fn(A, B, C, D, E, F, G, H, I, J, K, L, M) -> Res,
    A: TryConvert,
    B: TryConvert,
    C: TryConvert,
    D: TryConvert,
    E: TryConvert,
    F: TryConvert,
    G: TryConvert,
    H: TryConvert,
    I: TryConvert,
    J: TryConvert,
    K: TryConvert,
    L: TryConvert,
    M: TryConvert,
    Res: ReturnValue,
 {
    /// Wrap `func`.
    pub fn new(func: Func) -> (m: Self)
        ensures
            m.func == func,
    {
        Function13 { func, a: PhantomData, b: PhantomData, c: PhantomData, d: PhantomData, e: PhantomData, f: PhantomData, g: PhantomData, h: PhantomData, i: PhantomData, j: PhantomData, k: PhantomData, l: PhantomData, m: PhantomData, res: PhantomData }
    }

    /// What invoking the adapter yields: the first handle that fails to
    /// convert wins and is reported with its slot, and the wrapped function
    /// is then not invoked; when every handle converts, the function's
    /// result, normalised, with `calls` the block invocations recorded while
    /// normalising it.
    pub open spec fn dispatch(
        func: Func,
        a: Value,
        b: Value,
        c: Value,
        d: Value,
        e: Value,
        f: Value,
        g: Value,
        h: Value,
        i: Value,
        j: Value,
        k: Value,
        l: Value,
        m: Value,
        r: Result<Value, Error>,
        calls: Seq<BlockCall>,
    ) -> bool {
        if !A::convertible(a) {
            calls.len() == 0 && (r matches Err(err) && err.is_conversion_failure_at(
                Position::Index(0),
                A::fail_spec(a),
            ))
        } else if !B::convertible(b) {
            calls.len() == 0 && (r matches Err(err) && err.is_conversion_failure_at(
                Position::Index(1),
                B::fail_spec(b),
            ))
        } else if !C::convertible(c) {
            calls.len() == 0 && (r matches Err(err) && err.is_conversion_failure_at(
                Position::Index(2),
                C::fail_spec(c),
            ))
        } else if !D::convertible(d) {
            calls.len() == 0 && (r matches Err(err) && err.is_conversion_failure_at(
                Position::Index(3),
                D::fail_spec(d),
            ))
        } else if !E::convertible(e) {
            calls.len() == 0 && (r matches Err(err) && err.is_conversion_failure_at(
                Position::Index(4),
                E::fail_spec(e),
            ))
        } else if !F::convertible(f) {
            calls.len() == 0 && (r matches Err(err) && err.is_conversion_failure_at(
                Position::Index(5),
                F::fail_spec(f),
            ))
        } else if !G::convertible(g) {
            calls.len() == 0 && (r matches Err(err) && err.is_conversion_failure_at(
                Position::Index(6),
                G::fail_spec(g),
            ))
        } else if !H::convertible(h) {
            calls.len() == 0 && (r matches Err(err) && err.is_conversion_failure_at(
                Position::Index(7),
                H::fail_spec(h),
            ))
        } else if !I::convertible(i) {
            calls.len() == 0 && (r matches Err(err) && err.is_conversion_failure_at(
                Position::Index(8),
                I::fail_spec(i),
            ))
        } else if !J::convertible(j) {
            calls.len() == 0 && (r matches Err(err) && err.is_conversion_failure_at(
                Position::Index(9),
                J::fail_spec(j),
            ))
        } else if !K::convertible(k) {
            calls.len() == 0 && (r matches Err(err) && err.is_conversion_failure_at(
                Position::Index(10),
                K::fail_spec(k),
            ))
        } else if !L::convertible(l) {
            calls.len() == 0 && (r matches Err(err) && err.is_conversion_failure_at(
                Position::Index(11),
                L::fail_spec(l),
            ))
        } else if !M::convertible(m) {
            calls.len() == 0 && (r matches Err(err) && err.is_conversion_failure_at(
                Position::Index(12),
                M::fail_spec(m),
            ))
        } else {
            exists|va: A, vb: B, vc: C, vd: D, ve: E, vf: F, vg: G, vh: H, vi: I, vj: J, vk: K, vl: L, vm: M, res: Res|
                A::converts_to(a, va)
                    && B::converts_to(b, vb)
                    && C::converts_to(c, vc)
                    && D::converts_to(d, vd)
                    && E::converts_to(e, ve)
                    && F::converts_to(f, vf)
                    && G::converts_to(g, vg)
                    && H::converts_to(h, vh)
                    && I::converts_to(i, vi)
                    && J::converts_to(j, vj)
                    && K::converts_to(k, vk)
                    && L::converts_to(l, vl)
                    && M::converts_to(m, vm)
                    && #[trigger] call_ensures(func, (va, vb, vc, vd, ve, vf, vg, vh, vi, vj, vk, vl, vm), res)
                    && res.return_spec(r, calls)
        }
    }

    /// Convert the call-site handles left to right, stopping at the first
    /// failure, invoke the wrapped function on the converted values, and
    /// normalise its result. Only the argument handles are converted; a
    /// conversion failure means the function is never invoked.
    pub fn call_convert_value(self, a: Value, b: Value, c: Value, d: Value, e: Value, f: Value, g: Value, h: Value, i: Value, j: Value, k: Value, l: Value, m: Value, sink: &mut BlockSink) -> (r: Result<
        Value,
        Error,
    >)
        requires
            forall|va: A, vb: B, vc: C, vd: D, ve: E, vf: F, vg: G, vh: H, vi: I, vj: J, vk: K, vl: L, vm: M|
                A::converts_to(a, va)
                    && B::converts_to(b, vb)
                    && C::converts_to(c, vc)
                    && D::converts_to(d, vd)
                    && E::converts_to(e, ve)
                    && F::converts_to(f, vf)
                    && G::converts_to(g, vg)
                    && H::converts_to(h, vh)
                    && I::converts_to(i, vi)
                    && J::converts_to(j, vj)
                    && K::converts_to(k, vk)
                    && L::converts_to(l, vl)
                    && M::converts_to(m, vm)
                    ==> #[trigger] call_requires(self.func, (va, vb, vc, vd, ve, vf, vg, vh, vi, vj, vk, vl, vm)),
        ensures
            old(sink).calls@.is_prefix_of(final(sink).calls@),
            Self::dispatch(
                self.func,
                a, b, c, d, e, f, g, h, i, j, k, l, m, r,
                final(sink).calls@.skip(old(sink).calls@.len() as int),
            ),
    {
        let va = match A::try_convert(a) {
            Ok(v) => v,
            Err(err) => {
                proof {
                    lemma_sink_unchanged(sink.calls@);
                }
                return Err(err.at_position(Position::Index(0)));
            },
        };
        let vb = match B::try_convert(b) {
            Ok(v) => v,
            Err(err) => {
                proof {
                    lemma_sink_unchanged(sink.calls@);
                }
                return Err(err.at_position(Position::Index(1)));
            },
        };
        let vc = match C::try_convert(c) {
            Ok(v) => v,
            Err(err) => {
                proof {
                    lemma_sink_unchanged(sink.calls@);
                }
                return Err(err.at_position(Position::Index(2)));
            },
        };
        let vd = match D::try_convert(d) {
            Ok(v) => v,
            Err(err) => {
                proof {
                    lemma_sink_unchanged(sink.calls@);
                }
                return Err(err.at_position(Position::Index(3)));
            },
        };
        let ve = match E::try_convert(e) {
            Ok(v) => v,
            Err(err) => {
                proof {
                    lemma_sink_unchanged(sink.calls@);
                }
                return Err(err.at_position(Position::Index(4)));
            },
        };
        let vf = match F::try_convert(f) {
            Ok(v) => v,
            Err(err) => {
                proof {
                    lemma_sink_unchanged(sink.calls@);
                }
                return Err(err.at_position(Position::Index(5)));
            },
        };
        let vg = match G::try_convert(g) {
            Ok(v) => v,
            Err(err) => {
                proof {
                    lemma_sink_unchanged(sink.calls@);
                }
                return Err(err.at_position(Position::Index(6)));
            },
        };
        let vh = match H::try_convert(h) {
            Ok(v) => v,
            Err(err) => {
                proof {
                    lemma_sink_unchanged(sink.calls@);
                }
                return Err(err.at_position(Position::Index(7)));
            },
        };
        let vi = match I::try_convert(i) {
            Ok(v) => v,
            Err(err) => {
                proof {
                    lemma_sink_unchanged(sink.calls@);
                }
                return Err(err.at_position(Position::Index(8)));
            },
        };
        let vj = match J::try_convert(j) {
            Ok(v) => v,
            Err(err) => {
                proof {
                    lemma_sink_unchanged(sink.calls@);
                }
                return Err(err.at_position(Position::Index(9)));
            },
        };
        let vk = match K::try_convert(k) {
            Ok(v) => v,
            Err(err) => {
                proof {
                    lemma_sink_unchanged(sink.calls@);
                }
                return Err(err.at_position(Position::Index(10)));
            },
        };
        let vl = match L::try_convert(l) {
            Ok(v) => v,
            Err(err) => {
                proof {
                    lemma_sink_unchanged(sink.calls@);
                }
                return Err(err.at_position(Position::Index(11)));
            },
        };
        let vm = match M::try_convert(m) {
            Ok(v) => v,
            Err(err) => {
                proof {
                    lemma_sink_unchanged(sink.calls@);
                }
                return Err(err.at_position(Position::Index(12)));
            },
        };
        let res = (self.func)(va, vb, vc, vd, ve, vf, vg, vh, vi, vj, vk, vl, vm);
        let out = res.into_return_value(sink);
        proof {
            assert(A::converts_to(a, va)
                && B::converts_to(b, vb)
                && C::converts_to(c, vc)
                && D::converts_to(d, vd)
                && E::converts_to(e, ve)
                && F::converts_to(f, vf)
                && G::converts_to(g, vg)
                && H::converts_to(h, vh)
                && I::converts_to(i, vi)
                && J::converts_to(j, vj)
                && K::converts_to(k, vk)
                && L::converts_to(l, vl)
                && M::converts_to(m, vm));
            assert(call_ensures(self.func, (va, vb, vc, vd, ve, vf, vg, vh, vi, vj, vk, vl, vm), res));
        }
        out
    }

    /// Invoke the adapter as the registration trampoline does: the host
    /// always passes a receiver handle, and a self-free adapter discards it
    /// without attempting any conversion on it — the outcome is that of
    /// [`Self::call_convert_value`] on the argument handles alone.
    pub fn call_ignoring_self(self, rb_self: Value, a: Value, b: Value, c: Value, d: Value, e: Value, f: Value, g: Value, h: Value, i: Value, j: Value, k: Value, l: Value, m: Value, sink: &mut BlockSink) -> (r:
        Result<Value, Error>)
        requires
            forall|va: A, vb: B, vc: C, vd: D, ve: E, vf: F, vg: G, vh: H, vi: I, vj: J, vk: K, vl: L, vm: M|
                A::converts_to(a, va)
                    && B::converts_to(b, vb)
                    && C::converts_to(c, vc)
                    && D::converts_to(d, vd)
                    && E::converts_to(e, ve)
                    && F::converts_to(f, vf)
                    && G::converts_to(g, vg)
                    && H::converts_to(h, vh)
                    && I::converts_to(i, vi)
                    && J::converts_to(j, vj)
                    && K::converts_to(k, vk)
                    && L::converts_to(l, vl)
                    && M::converts_to(m, vm)
                    ==> #[trigger] call_requires(self.func, (va, vb, vc, vd, ve, vf, vg, vh, vi, vj, vk, vl, vm)),
        ensures
            old(sink).calls@.is_prefix_of(final(sink).calls@),
            Self::dispatch(
                self.func,
                a, b, c, d, e, f, g, h, i, j, k, l, m, r,
                final(sink).calls@.skip(old(sink).calls@.len() as int),
            ),
    {
        let _ = rb_self;
        self.call_convert_value(a, b, c, d, e, f, g, h, i, j, k, l, m, sink)
    }
}

/// Adapter exposing a native function as a self-free host method taking
/// fourteen positional arguments: the receiver slot the host passes is
/// discarded without conversion.
pub struct Function14<Func, A, B, C, D, E, F, G, H, I, J, K, L, M, N, Res> {
    /// The wrapped native function.
    pub func: Func,
    pub a: PhantomData<A>,
    pub b: PhantomData<B>,
    pub c: PhantomData<C>,
    pub d: PhantomData<D>,
    pub e: PhantomData<E>,
    pub f: PhantomData<F>,
    pub g: PhantomData<G>,
    pub h: PhantomData<H>,
    pub i: PhantomData<I>,
    pub j: PhantomData<J>,
    pub k: PhantomData<K>,
    pub l: PhantomData<L>,
    pub m: PhantomData<M>,
    pub n: PhantomData<N>,
    pub res: PhantomData<Res>,
}

impl<Func, A, B, C, D, E, F, G, H, I, J, K, L, M, N, Res> Function14<Func, A, B, C, D, E, F, G, H, I, J, K, L, M, N, Res> where
    Func: Fn(A, B, C, D, E, F, G, H, I, J, K, L, M, N) -> Res,
    A: TryConvert,
    B: TryConvert,
    C: TryConvert,
    D: TryConvert,
    E: TryConvert,
    F: TryConvert,
    G: TryConvert,
    H: TryConvert,
    I: TryConvert,
    J: TryConvert,
    K: TryConvert,
    L: TryConvert,
    M: TryConvert,
    N: TryConvert,
    Res: ReturnValue,
 {
    /// Wrap `func`.
    pub fn new(func: Func) -> (m: Self)
        ensures
            m.func == func,
    {
        Function14 { func, a: PhantomData, b: PhantomData, c: PhantomData, d: PhantomData, e: PhantomData, f: PhantomData, g: PhantomData, h: PhantomData, i: PhantomData, j: PhantomData, k: PhantomData, l: PhantomData, m: PhantomData, n: PhantomData, res: PhantomData }
    }

    /// What invoking the adapter yields: the first handle that fails to
    /// convert wins and is reported with its slot, and the wrapped function
    /// is then not invoked; when every handle converts, the function's
    /// result, normalised, with `calls` the block invocations recorded while
    /// normalising it.
    pub open spec fn dispatch(
        func: Func,
        a: Value,
        b: Value,
        c: Value,
        d: Value,
        e: Value,
        f: Value,
        g: Value,
        h: Value,
        i: Value,
        j: Value,
        k: Value,
        l: Value,
        m: Value,
        n: Value,
        r: Result<Value, Error>,
        calls: Seq<BlockCall>,
    ) -> bool {
        if !A::convertible(a) {
            calls.len() == 0 && (r matches Err(err) && err.is_conversion_failure_at(
                Position::Index(0),
                A::fail_spec(a),
            ))
        } else if !B::convertible(b) {
            calls.len() == 0 && (r matches Err(err) && err.is_conversion_failure_at(
                Position::Index(1),
                B::fail_spec(b),
            ))
        } else if !C::convertible(c) {
            calls.len() == 0 && (r matches Err(err) && err.is_conversion_failure_at(
                Position::Index(2),
                C::fail_spec(c),
            ))
        } else if !D::convertible(d) {
            calls.len() == 0 && (r matches Err(err) && err.is_conversion_failure_at(
                Position::Index(3),
                D::fail_spec(d),
            ))
        } else if !E::convertible(e) {
            calls.len() == 0 && (r matches Err(err) && err.is_conversion_failure_at(
                Position::Index(4),
                E::fail_spec(e),
            ))
        } else if !F::convertible(f) {
            calls.len() == 0 && (r matches Err(err) && err.is_conversion_failure_at(
                Position::Index(5),
                F::fail_spec(f),
            ))
        } else if !G::convertible(g) {
            calls.len() == 0 && (r matches Err(err) && err.is_conversion_failure_at(
                Position::Index(6),
                G::fail_spec(g),
            ))
        } else if !H::convertible(h) {
            calls.len() == 0 && (r matches Err(err) && err.is_conversion_failure_at(
                Position::Index(7),
                H::fail_spec(h),
            ))
        } else if !I::convertible(i) {
            calls.len() == 0 && (r matches Err(err) && err.is_conversion_failure_at(
                Position::Index(8),
                I::fail_spec(i),
            ))
        } else if !J::convertible(j) {
            calls.len() == 0 && (r matches Err(err) && err.is_conversion_failure_at(
                Position::Index(9),
                J::fail_spec(j),
            ))
        } else if !K::convertible(k) {
            calls.len() == 0 && (r matches Err(err) && err.is_conversion_failure_at(
                Position::Index(10),
                K::fail_spec(k),
            ))
        } else if !L::convertible(l) {
            calls.len() == 0 && (r matches Err(err) && err.is_conversion_failure_at(
                Position::Index(11),
                L::fail_spec(l),
            ))
        } else if !M::convertible(m) {
            calls.len() == 0 && (r matches Err(err) && err.is_conversion_failure_at(
                Position::Index(12),
                M::fail_spec(m),
            ))
        } else if !N::convertible(n) {
            calls.len() == 0 && (r matches Err(err) && err.is_conversion_failure_at(
                Position::Index(13),
                N::fail_spec(n),
            ))
        } else {
            exists|va: A, vb: B, vc: C, vd: D, ve: E, vf: F, vg: G, vh: H, vi: I, vj: J, vk: K, vl: L, vm: M, vn: N, res: Res|
                A::converts_to(a, va)
                    && B::converts_to(b, vb)
                    && C::converts_to(c, vc)
                    && D::converts_to(d, vd)
                    && E::converts_to(e, ve)
                    && F::converts_to(f, vf)
                    && G::converts_to(g, vg)
                    && H::converts_to(h, vh)
                    && I::converts_to(i, vi)
                    && J::converts_to(j, vj)
                    && K::converts_to(k, vk)
                    && L::converts_to(l, vl)
                    && M::converts_to(m, vm)
                    && N::converts_to(n, vn)
                    && #[trigger] call_ensures(func, (va, vb, vc, vd, ve, vf, vg, vh, vi, vj, vk, vl, vm, vn), res)
                    && res.return_spec(r, calls)
        }
    }

    /// Convert the call-site handles left to right, stopping at the first
    /// failure, invoke the wrapped function on the converted values, and
    /// normalise its result. Only the argument handles are converted; a
    /// conversion failure means the function is never invoked.
    pub fn call_convert_value(self, a: Value, b: Value, c: Value, d: Value, e: Value, f: Value, g: Value, h: Value, i: Value, j: Value, k: Value, l: Value, m: Value, n: Value, sink: &mut BlockSink) -> (r: Result<
        Value,
        Error,
    >)
        requires
            forall|va: A, vb: B, vc: C, vd: D, ve: E, vf: F, vg: G, vh: H, vi: I, vj: J, vk: K, vl: L, vm: M, vn: N|
                A::converts_to(a, va)
                    && B::converts_to(b, vb)
                    && C::converts_to(c, vc)
                    && D::converts_to(d, vd)
                    && E::converts_to(e, ve)
                    && F::converts_to(f, vf)
                    && G::converts_to(g, vg)
                    && H::converts_to(h, vh)
                    && I::converts_to(i, vi)
                    && J::converts_to(j, vj)
                    && K::converts_to(k, vk)
                    && L::converts_to(l, vl)
                    && M::converts_to(m, vm)
                    && N::converts_to(n, vn)
                    ==> #[trigger] call_requires(self.func, (va, vb, vc, vd, ve, vf, vg, vh, vi, vj, vk, vl, vm, vn)),
        ensures
            old(sink).calls@.is_prefix_of(final(sink).calls@),
            Self::dispatch(
                self.func,
                a, b, c, d, e, f, g, h, i, j, k, l, m, n, r,
                final(sink).calls@.skip(old(sink).calls@.len() as int),
            ),
    {
        let va = match A::try_convert(a) {
            Ok(v) => v,
            Err(err) => {
                proof {
                    lemma_sink_unchanged(sink.calls@);
                }
                return Err(err.at_position(Position::Index(0)));
            },
        };
        let vb = match B::try_convert(b) {
            Ok(v) => v,
            Err(err) => {
                proof {
                    lemma_sink_unchanged(sink.calls@);
                }
                return Err(err.at_position(Position::Index(1)));
            },
        };
        let vc = match C::try_convert(c) {
            Ok(v) => v,
            Err(err) => {
                proof {
                    lemma_sink_unchanged(sink.calls@);
                }
                return Err(err.at_position(Position::Index(2)));
            },
        };
        let vd = match D::try_convert(d) {
            Ok(v) => v,
            Err(err) => {
                proof {
                    lemma_sink_unchanged(sink.calls@);
                }
                return Err(err.at_position(Position::Index(3)));
            },
        };
        let ve = match E::try_convert(e) {
            Ok(v) => v,
            Err(err) => {
                proof {
                    lemma_sink_unchanged(sink.calls@);
                }
                return Err(err.at_position(Position::Index(4)));
            },
        };
        let vf = match F::try_convert(f) {
            Ok(v) => v,
            Err(err) => {
                proof {
                    lemma_sink_unchanged(sink.calls@);
                }
                return Err(err.at_position(Position::Index(5)));
            },
        };
        let vg = match G::try_convert(g) {
            Ok(v) => v,
            Err(err) => {
                proof {
                    lemma_sink_unchanged(sink.calls@);
                }
                return Err(err.at_position(Position::Index(6)));
            },
        };
        let vh = match H::try_convert(h) {
            Ok(v) => v,
            Err(err) => {
                proof {
                    lemma_sink_unchanged(sink.calls@);
                }
                return Err(err.at_position(Position::Index(7)));
            },
        };
        let vi = match I::try_convert(i) {
            Ok(v) => v,
            Err(err) => {
                proof {
                    lemma_sink_unchanged(sink.calls@);
                }
                return Err(err.at_position(Position::Index(8)));
            },
        };
        let vj = match J::try_convert(j) {
            Ok(v) => v,
            Err(err) => {
                proof {
                    lemma_sink_unchanged(sink.calls@);
                }
                return Err(err.at_position(Position::Index(9)));
            },
        };
        let vk = match K::try_convert(k) {
            Ok(v) => v,
            Err(err) => {
                proof {
                    lemma_sink_unchanged(sink.calls@);
                }
                return Err(err.at_position(Position::Index(10)));
            },
        };
        let vl = match L::try_convert(l) {
            Ok(v) => v,
            Err(err) => {
                proof {
                    lemma_sink_unchanged(sink.calls@);
                }
                return Err(err.at_position(Position::Index(11)));
            },
        };
        let vm = match M::try_convert(m) {
            Ok(v) => v,
            Err(err) => {
                proof {
                    lemma_sink_unchanged(sink.calls@);
                }
                return Err(err.at_position(Position::Index(12)));
            },
        };
        let vn = match N::try_convert(n) {
            Ok(v) => v,
            Err(err) => {
                proof {
                    lemma_sink_unchanged(sink.calls@);
                }
                return Err(err.at_position(Position::Index(13)));
            },
        };
        let res = (self.func)(va, vb, vc, vd, ve, vf, vg, vh, vi, vj, vk, vl, vm, vn);
        let out = res.into_return_value(sink);
        proof {
            assert(A::converts_to(a, va)
                && B::converts_to(b, vb)
                && C::converts_to(c, vc)
                && D::converts_to(d, vd)
                && E::converts_to(e, ve)
                && F::converts_to(f, vf)
                && G::converts_to(g, vg)
                && H::converts_to(h, vh)
                && I::converts_to(i, vi)
                && J::converts_to(j, vj)
                && K::converts_to(k, vk)
                && L::converts_to(l, vl)
                && M::converts_to(m, vm)
                && N::converts_to(n, vn));
            assert(call_ensures(self.func, (va, vb, vc, vd, ve, vf, vg, vh, vi, vj, vk, vl, vm, vn), res));
        }
        out
    }

    /// Invoke the adapter as the registration trampoline does: the host
    /// always passes a receiver handle, and a self-free adapter discards it
    /// without attempting any conversion on it — the outcome is that of
    /// [`Self::call_convert_value`] on the argument handles alone.
    pub fn call_ignoring_self(self, rb_self: Value, a: Value, b: Value, c: Value, d: Value, e: Value, f: Value, g: Value, h: Value, i: Value, j: Value, k: Value, l: Value, m: Value, n: Value, sink: &mut BlockSink) -> (r:
        Result<Value, Error>)
        requires
            forall|va: A, vb: B, vc: C, vd: D, ve: E, vf: F, vg: G, vh: H, vi: I, vj: J, vk: K, vl: L, vm: M, vn: N|
                A::converts_to(a, va)
                    && B::converts_to(b, vb)
                    && C::converts_to(c, vc)
                    && D::converts_to(d, vd)
                    && E::converts_to(e, ve)
                    && F::converts_to(f, vf)
                    && G::converts_to(g, vg)
                    && H::converts_to(h, vh)
                    && I::converts_to(i, vi)
                    && J::converts_to(j, vj)
                    && K::converts_to(k, vk)
                    && L::converts_to(l, vl)
                    && M::converts_to(m, vm)
                    && N::converts_to(n, vn)
                    ==> #[trigger] call_requires(self.func, (va, vb, vc, vd, ve, vf, vg, vh, vi, vj, vk, vl, vm, vn)),
        ensures
            old(sink).calls@.is_prefix_of(final(sink).calls@),
            Self::dispatch(
                self.func,
                a, b, c, d, e, f, g, h, i, j, k, l, m, n, r,
                final(sink).calls@.skip(old(sink).calls@.len() as int),
            ),
    {
        let _ = rb_self;
        self.call_convert_value(a, b, c, d, e, f, g, h, i, j, k, l, m, n, sink)
    }
}

/// Adapter exposing a native function as a self-free host method taking
/// fifteen positional arguments: the receiver slot the host passes is
/// discarded without conversion.
pub struct Function15<Func, A, B, C, D, E, F, G, H, I, J, K, L, M, N, O, Res> {
    /// The wrapped native function.
    pub func: Func,
    pub a: PhantomData<A>,
    pub b: PhantomData<B>,
    pub c: PhantomData<C>,
    pub d: PhantomData<D>,
    pub e: PhantomData<E>,
    pub f: PhantomData<F>,
    pub g: PhantomData<G>,
    pub h: PhantomData<H>,
    pub i: PhantomData<I>,
    pub j: PhantomData<J>,
    pub k: PhantomData<K>,
    pub l: PhantomData<L>,
    pub m: PhantomData<M>,
    pub n: PhantomData<N>,
    pub o: PhantomData<O>,
    pub res: PhantomData<Res>,
}

impl<Func, A, B, C, D, E, F, G, H, I, J, K, L, M, N, O, Res> Function15<Func, A, B, C, D, E, F, G, H, I, J, K, L, M, N, O, Res> where
    Func: Fn(A, B, C, D, E, F, G, H, I, J, K, L, M, N, O) -> Res,
    A: TryConvert,
    B: TryConvert,
    C: TryConvert,
    D: TryConvert,
    E: TryConvert,
    F: TryConvert,
    G: TryConvert,
    H: TryConvert,
    I: TryConvert,
    J: TryConvert,
    K: TryConvert,
    L: TryConvert,
    M: TryConvert,
    N: TryConvert,
    O: TryConvert,
    Res: ReturnValue,
 {
    /// Wrap `func`.
    pub fn new(func: Func) -> (m: Self)
        ensures
            m.func == func,
    {
        Function15 { func, a: PhantomData, b: PhantomData, c: PhantomData, d: PhantomData, e: PhantomData, f: PhantomData, g: PhantomData, h: PhantomData, i: PhantomData, j: PhantomData, k: PhantomData, l: PhantomData, m: PhantomData, n: PhantomData, o: PhantomData, res: PhantomData }
    }

    /// What invoking the adapter yields: the first handle that fails to
    /// convert wins and is reported with its slot, and the wrapped function
    /// is then not invoked; when every handle converts, the function's
    /// result, normalised, with `calls` the block invocations recorded while
    /// normalising it.
    pub open spec fn dispatch(
        func: Func,
        a: Value,
        b: Value,
        c: Value,
        d: Value,
        e: Value,
        f: Value,
        g: Value,
        h: Value,
        i: Value,
        j: Value,
        k: Value,
        l: Value,
        m: Value,
        n: Value,
        o: Value,
        r: Result<Value, Error>,
        calls: Seq<BlockCall>,
    ) -> bool {
        if !A::convertible(a) {
            calls.len() == 0 && (r matches Err(err) && err.is_conversion_failure_at(
                Position::Index(0),
                A::fail_spec(a),
            ))
        } else if !B::convertible(b) {
            calls.len() == 0 && (r matches Err(err) && err.is_conversion_failure_at(
                Position::Index(1),
                B::fail_spec(b),
            ))
        } else if !C::convertible(c) {
            calls.len() == 0 && (r matches Err(err) && err.is_conversion_failure_at(
                Position::Index(2),
                C::fail_spec(c),
            ))
        } else if !D::convertible(d) {
            calls.len() == 0 && (r matches Err(err) && err.is_conversion_failure_at(
                Position::Index(3),
                D::fail_spec(d),
            ))
        } else if !E::convertible(e) {
            calls.len() == 0 && (r matches Err(err) && err.is_conversion_failure_at(
                Position::Index(4),
                E::fail_spec(e),
            ))
        } else if !F::convertible(f) {
            calls.len() == 0 && (r matches Err(err) && err.is_conversion_failure_at(
                Position::Index(5),
                F::fail_spec(f),
            ))
        } else if !G::convertible(g) {
            calls.len() == 0 && (r matches Err(err) && err.is_conversion_failure_at(
                Position::Index(6),
                G::fail_spec(g),
            ))
        } else if !H::convertible(h) {
            calls.len() == 0 && (r matches Err(err) && err.is_conversion_failure_at(
                Position::Index(7),
                H::fail_spec(h),
            ))
        } else if !I::convertible(i) {
            calls.len() == 0 && (r matches Err(err) && err.is_conversion_failure_at(
                Position::Index(8),
                I::fail_spec(i),
            ))
        } else if !J::convertible(j) {
            calls.len() == 0 && (r matches Err(err) && err.is_conversion_failure_at(
                Position::Index(9),
                J::fail_spec(j),
            ))
        } else if !K::convertible(k) {
            calls.len() == 0 && (r matches Err(err) && err.is_conversion_failure_at(
                Position::Index(10),
                K::fail_spec(k),
            ))
        } else if !L::convertible(l) {
            calls.len() == 0 && (r matches Err(err) && err.is_conversion_failure_at(
                Position::Index(11),
                L::fail_spec(l),
            ))
        } else if !M::convertible(m) {
            calls.len() == 0 && (r matches Err(err) && err.is_conversion_failure_at(
                Position::Index(12),
                M::fail_spec(m),
            ))
        } else if !N::convertible(n) {
            calls.len() == 0 && (r matches Err(err) && err.is_conversion_failure_at(
                Position::Index(13),
                N::fail_spec(n),
            ))
        } else if !O::convertible(o) {
            calls.len() == 0 && (r matches Err(err) && err.is_conversion_failure_at(
                Position::Index(14),
                O::fail_spec(o),
            ))
        } else {
            exists|va: A, vb: B, vc: C, vd: D, ve: E, vf: F, vg: G, vh: H, vi: I, vj: J, vk: K, vl: L, vm: M, vn: N, vo: O, res: Res|
                A::converts_to(a, va)
                    && B::converts_to(b, vb)
                    && C::converts_to(c, vc)
                    && D::converts_to(d, vd)
                    && E::converts_to(e, ve)
                    && F::converts_to(f, vf)
                    && G::converts_to(g, vg)
                    && H::converts_to(h, vh)
                    && I::converts_to(i, vi)
                    && J::converts_to(j, vj)
                    && K::converts_to(k, vk)
                    && L::converts_to(l, vl)
                    && M::converts_to(m, vm)
                    && N::converts_to(n, vn)
                    && O::converts_to(o, vo)
                    && #[trigger] call_ensures(func, (va, vb, vc, vd, ve, vf, vg, vh, vi, vj, vk, vl, vm, vn, vo), res)
                    && res.return_spec(r, calls)
        }
    }

    /// Convert the call-site handles left to right, stopping at the first
    /// failure, invoke the wrapped function on the converted values, and
    /// normalise its result. Only the argument handles are converted; a
    /// conversion failure means the function is never invoked.
    pub fn call_convert_value(self, a: Value, b: Value, c: Value, d: Value, e: Value, f: Value, g: Value, h: Value, i: Value, j: Value, k: Value, l: Value, m: Value, n: Value, o: Value, sink: &mut BlockSink) -> (r: Result<
        Value,
        Error,
    >)
        requires
            forall|va: A, vb: B, vc: C, vd: D, ve: E, vf: F, vg: G, vh: H, vi: I, vj: J, vk: K, vl: L, vm: M, vn: N, vo: O|
                A::converts_to(a, va)
                    && B::converts_to(b, vb)
                    && C::converts_to(c, vc)
                    && D::converts_to(d, vd)
                    && E::converts_to(e, ve)
                    && F::converts_to(f, vf)
                    && G::converts_to(g, vg)
                    && H::converts_to(h, vh)
                    && I::converts_to(i, vi)
                    && J::converts_to(j, vj)
                    && K::converts_to(k, vk)
                    && L::converts_to(l, vl)
                    && M::converts_to(m, vm)
                    && N::converts_to(n, vn)
                    && O::converts_to(o, vo)
                    ==> #[trigger] call_requires(self.func, (va, vb, vc, vd, ve, vf, vg, vh, vi, vj, vk, vl, vm, vn, vo)),
        ensures
            old(sink).calls@.is_prefix_of(final(sink).calls@),
            Self::dispatch(
                self.func,
                a, b, c, d, e, f, g, h, i, j, k, l, m, n, o, r,
                final(sink).calls@.skip(old(sink).calls@.len() as int),
            ),
    {
        let va = match A::try_convert(a) {
            Ok(v) => v,
            Err(err) => {
                proof {
                    lemma_sink_unchanged(sink.calls@);
                }
                return Err(err.at_position(Position::Index(0)));
            },
        };
        let vb = match B::try_convert(b) {
            Ok(v) => v,
            Err(err) => {
                proof {
                    lemma_sink_unchanged(sink.calls@);
                }
                return Err(err.at_position(Position::Index(1)));
            },
        };
        let vc = match C::try_convert(c) {
            Ok(v) => v,
            Err(err) => {
                proof {
                    lemma_sink_unchanged(sink.calls@);
                }
                return Err(err.at_position(Position::Index(2)));
            },
        };
        let vd = match D::try_convert(d) {
            Ok(v) => v,
            Err(err) => {
                proof {
                    lemma_sink_unchanged(sink.calls@);
                }
                return Err(err.at_position(Position::Index(3)));
            },
        };
        let ve = match E::try_convert(e) {
            Ok(v) => v,
            Err(err) => {
                proof {
                    lemma_sink_unchanged(sink.calls@);
                }
                return Err(err.at_position(Position::Index(4)));
            },
        };
        let vf = match F::try_convert(f) {
            Ok(v) => v,
            Err(err) => {
                proof {
                    lemma_sink_unchanged(sink.calls@);
                }
                return Err(err.at_position(Position::Index(5)));
            },
        };
        let vg = match G::try_convert(g) {
            Ok(v) => v,
            Err(err) => {
                proof {
                    lemma_sink_unchanged(sink.calls@);
                }
                return Err(err.at_position(Position::Index(6)));
            },
        };
        let vh = match H::try_convert(h) {
            Ok(v) => v,
            Err(err) => {
                proof {
                    lemma_sink_unchanged(sink.calls@);
                }
                return Err(err.at_position(Position::Index(7)));
            },
        };
        let vi = match I::try_convert(i) {
            Ok(v) => v,
            Err(err) => {
                proof {
                    lemma_sink_unchanged(sink.calls@);
                }
                return Err(err.at_position(Position::Index(8)));
            },
        };
        let vj = match J::try_convert(j) {
            Ok(v) => v,
            Err(err) => {
                proof {
                    lemma_sink_unchanged(sink.calls@);
                }
                return Err(err.at_position(Position::Index(9)));
            },
        };
        let vk = match K::try_convert(k) {
            Ok(v) => v,
            Err(err) => {
                proof {
                    lemma_sink_unchanged(sink.calls@);
                }
                return Err(err.at_position(Position::Index(10)));
            },
        };
        let vl = match L::try_convert(l) {
            Ok(v) => v,
            Err(err) => {
                proof {
                    lemma_sink_unchanged(sink.calls@);
                }
                return Err(err.at_position(Position::Index(11)));
            },
        };
        let vm = match M::try_convert(m) {
            Ok(v) => v,
            Err(err) => {
                proof {
                    lemma_sink_unchanged(sink.calls@);
                }
                return Err(err.at_position(Position::Index(12)));
            },
        };
        let vn = match N::try_convert(n) {
            Ok(v) => v,
            Err(err) => {
                proof {
                    lemma_sink_unchanged(sink.calls@);
                }
                return Err(err.at_position(Position::Index(13)));
            },
        };
        let vo = match O::try_convert(o) {
            Ok(v) => v,
            Err(err) => {
                proof {
                    lemma_sink_unchanged(sink.calls@);
                }
                return Err(err.at_position(Position::Index(14)));
            },
        };
        let res = (self.func)(va, vb, vc, vd, ve, vf, vg, vh, vi, vj, vk, vl, vm, vn, vo);
        let out = res.into_return_value(sink);
        proof {
            assert(A::converts_to(a, va)
                && B::converts_to(b, vb)
                && C::converts_to(c, vc)
                && D::converts_to(d, vd)
                && E::converts_to(e, ve)
                && F::converts_to(f, vf)
                && G::converts_to(g, vg)
                && H::converts_to(h, vh)
                && I::converts_to(i, vi)
                && J::converts_to(j, vj)
                && K::converts_to(k, vk)
                && L::converts_to(l, vl)
                && M::converts_to(m, vm)
                && N::converts_to(n, vn)
                && O::converts_to(o, vo));
            assert(call_ensures(self.func, (va, vb, vc, vd, ve, vf, vg, vh, vi, vj, vk, vl, vm, vn, vo), res));
        }
        out
    }

    /// Invoke the adapter as the registration trampoline does: the host
    /// always passes a receiver handle, and a self-free adapter discards it
    /// without attempting any conversion on it — the outcome is that of
    /// [`Self::call_convert_value`] on the argument handles alone.
    pub fn call_ignoring_self(self, rb_self: Value, a: Value, b: Value, c: Value, d: Value, e: Value, f: Value, g: Value, h: Value, i: Value, j: Value, k: Value, l: Value, m: Value, n: Value, o: Value, sink: &mut BlockSink) -> (r:
        Result<Value, Error>)
        requires
            forall|va: A, vb: B, vc: C, vd: D, ve: E, vf: F, vg: G, vh: H, vi: I, vj: J, vk: K, vl: L, vm: M, vn: N, vo: O|
                A::converts_to(a, va)
                    && B::converts_to(b, vb)
                    && C::converts_to(c, vc)
                    && D::converts_to(d, vd)
                    && E::converts_to(e, ve)
                    && F::converts_to(f, vf)
                    && G::converts_to(g, vg)
                    && H::converts_to(h, vh)
                    && I::converts_to(i, vi)
                    && J::converts_to(j, vj)
                    && K::converts_to(k, vk)
                    && L::converts_to(l, vl)
                    && M::converts_to(m, vm)
                    && N::converts_to(n, vn)
                    && O::converts_to(o, vo)
                    ==> #[trigger] call_requires(self.func, (va, vb, vc, vd, ve, vf, vg, vh, vi, vj, vk, vl, vm, vn, vo)),
        ensures
            old(sink).calls@.is_prefix_of(final(sink).calls@),
            Self::dispatch(
                self.func,
                a, b, c, d, e, f, g, h, i, j, k, l, m, n, o, r,
                final(sink).calls@.skip(old(sink).calls@.len() as int),
            ),
    {
        let _ = rb_self;
        self.call_convert_value(a, b, c, d, e, f, g, h, i, j, k, l, m, n, o, sink)
    }
}

/// Adapter exposing a native function as a self-free host method taking
/// sixteen positional arguments: the receiver slot the host passes is
/// discarded without conversion.
pub struct Function16<Func, A, B, C, D, E, F, G, H, I, J, K, L, M, N, O, P, Res> {
    /// The wrapped native function.
    pub func: Func,
    pub a: PhantomData<A>,
    pub b: PhantomData<B>,
    pub c: PhantomData<C>,
    pub d: PhantomData<D>,
    pub e: PhantomData<E>,
    pub f: PhantomData<F>,
    pub g: PhantomData<G>,
    pub h: PhantomData<H>,
    pub i: PhantomData<I>,
    pub j: PhantomData<J>,
    pub k: PhantomData<K>,
    pub l: PhantomData<L>,
    pub m: PhantomData<M>,
    pub n: PhantomData<N>,
    pub o: PhantomData<O>,
    pub p: PhantomData<P>,
    pub res: PhantomData<Res>,
}

impl<Func, A, B, C, D, E, F, G, H, I, J, K, L, M, N, O, P, Res> Function16<Func, A, B, C, D, E, F, G, H, I, J, K, L, M, N, O, P, Res> where
    Func: Fn(A, B, C, D, E, F, G, H, I, J, K, L, M, N, O, P) -> Res,
    A: TryConvert,
    B: TryConvert,
    C: TryConvert,
    D: TryConvert,
    E: TryConvert,
    F: TryConvert,
    G: TryConvert,
    H: TryConvert,
    I: TryConvert,
    J: TryConvert,
    K: TryConvert,
    L: TryConvert,
    M: TryConvert,
    N: TryConvert,
    O: TryConvert,
    P: TryConvert,
    Res: ReturnValue,
 {
    /// Wrap `func`.
    pub fn new(func: Func) -> (m: Self)
        ensures
            m.func == func,
    {
        Function16 { func, a: PhantomData, b: PhantomData, c: PhantomData, d: PhantomData, e: PhantomData, f: PhantomData, g: PhantomData, h: PhantomData, i: PhantomData, j: PhantomData, k: PhantomData, l: PhantomData, m: PhantomData, n: PhantomData, o: PhantomData, p: PhantomData, res: PhantomData }
    }

    /// What invoking the adapter yields: the first handle that fails to
    /// convert wins and is reported with its slot, and the wrapped function
    /// is then not invoked; when every handle converts, the function's
    /// result, normalised, with `calls` the block invocations recorded while
    /// normalising it.
    pub open spec fn dispatch(
        func: Func,
        a: Value,
        b: Value,
        c: Value,
        d: Value,
        e: Value,
        f: Value,
        g: Value,
        h: Value,
        i: Value,
        j: Value,
        k: Value,
        l: Value,
        m: Value,
        n: Value,
        o: Value,
        p: Value,
        r: Result<Value, Error>,
        calls: Seq<BlockCall>,
    ) -> bool {
        if !A::convertible(a) {
            calls.len() == 0 && (r matches Err(err) && err.is_conversion_failure_at(
                Position::Index(0),
                A::fail_spec(a),
            ))
        } else if !B::convertible(b) {
            calls.len() == 0 && (r matches Err(err) && err.is_conversion_failure_at(
                Position::Index(1),
                B::fail_spec(b),
            ))
        } else if !C::convertible(c) {
            calls.len() == 0 && (r matches Err(err) && err.is_conversion_failure_at(
                Position::Index(2),
                C::fail_spec(c),
            ))
        } else if !D::convertible(d) {
            calls.len() == 0 && (r matches Err(err) && err.is_conversion_failure_at(
                Position::Index(3),
                D::fail_spec(d),
            ))
        } else if !E::convertible(e) {
            calls.len() == 0 && (r matches Err(err) && err.is_conversion_failure_at(
                Position::Index(4),
                E::fail_spec(e),
            ))
        } else if !F::convertible(f) {
            calls.len() == 0 && (r matches Err(err) && err.is_conversion_failure_at(
                Position::Index(5),
                F::fail_spec(f),
            ))
        } else if !G::convertible(g) {
            calls.len() == 0 && (r matches Err(err) && err.is_conversion_failure_at(
                Position::Index(6),
                G::fail_spec(g),
            ))
        } else if !H::convertible(h) {
            calls.len() == 0 && (r matches Err(err) && err.is_conversion_failure_at(
                Position::Index(7),
                H::fail_spec(h),
            ))
        } else if !I::convertible(i) {
            calls.len() == 0 && (r matches Err(err) && err.is_conversion_failure_at(
                Position::Index(8),
                I::fail_spec(i),
            ))
        } else if !J::convertible(j) {
            calls.len() == 0 && (r matches Err(err) && err.is_conversion_failure_at(
                Position::Index(9),
                J::fail_spec(j),
            ))
        } else if !K::convertible(k) {
            calls.len() == 0 && (r matches Err(err) && err.is_conversion_failure_at(
                Position::Index(10),
                K::fail_spec(k),
            ))
        } else if !L::convertible(l) {
            calls.len() == 0 && (r matches Err(err) && err.is_conversion_failure_at(
                Position::Index(11),
                L::fail_spec(l),
            ))
        } else if !M::convertible(m) {
            calls.len() == 0 && (r matches Err(err) && err.is_conversion_failure_at(
                Position::Index(12),
                M::fail_spec(m),
            ))
        } else if !N::convertible(n) {
            calls.len() == 0 && (r matches Err(err) && err.is_conversion_failure_at(
                Position::Index(13),
                N::fail_spec(n),
            ))
        } else if !O::convertible(o) {
            calls.len() == 0 && (r matches Err(err) && err.is_conversion_failure_at(
                Position::Index(14),
                O::fail_spec(o),
            ))
        } else if !P::convertible(p) {
            calls.len() == 0 && (r matches Err(err) && err.is_conversion_failure_at(
                Position::Index(15),
                P::fail_spec(p),
            ))
        } else {
            exists|va: A, vb: B, vc: C, vd: D, ve: E, vf: F, vg: G, vh: H, vi: I, vj: J, vk: K, vl: L, vm: M, vn: N, vo: O, vp: P, res: Res|
                A::converts_to(a, va)
                    && B::converts_to(b, vb)
                    && C::converts_to(c, vc)
                    && D::converts_to(d, vd)
                    && E::converts_to(e, ve)
                    && F::converts_to(f, vf)
                    && G::converts_to(g, vg)
                    && H::converts_to(h, vh)
                    && I::converts_to(i, vi)
                    && J::converts_to(j, vj)
                    && K::converts_to(k, vk)
                    && L::converts_to(l, vl)
                    && M::converts_to(m, vm)
                    && N::converts_to(n, vn)
                    && O::converts_to(o, vo)
                    && P::converts_to(p, vp)
                    && #[trigger] call_ensures(func, (va, vb, vc, vd, ve, vf, vg, vh, vi, vj, vk, vl, vm, vn, vo, vp), res)
                    && res.return_spec(r, calls)
        }
    }

    /// Convert the call-site handles left to right, stopping at the first
    /// failure, invoke the wrapped function on the converted values, and
    /// normalise its result. Only the argument handles are converted; a
    /// conversion failure means the function is never invoked.
    pub fn call_convert_value(self, a: Value, b: Value, c: Value, d: Value, e: Value, f: Value, g: Value, h: Value, i: Value, j: Value, k: Value, l: Value, m: Value, n: Value, o: Value, p: Value, sink: &mut BlockSink) -> (r: Result<
        Value,
        Error,
    >)
        requires
            forall|va: A, vb: B, vc: C, vd: D, ve: E, vf: F, vg: G, vh: H, vi: I, vj: J, vk: K, vl: L, vm: M, vn: N, vo: O, vp: P|
                A::converts_to(a, va)
                    && B::converts_to(b, vb)
                    && C::converts_to(c, vc)
                    && D::converts_to(d, vd)
                    && E::converts_to(e, ve)
                    && F::converts_to(f, vf)
                    && G::converts_to(g, vg)
                    && H::converts_to(h, vh)
                    && I::converts_to(i, vi)
                    && J::converts_to(j, vj)
                    && K::converts_to(k, vk)
                    && L::converts_to(l, vl)
                    && M::converts_to(m, vm)
                    && N::converts_to(n, vn)
                    && O::converts_to(o, vo)
                    && P::converts_to(p, vp)
                    ==> #[trigger] call_requires(self.func, (va, vb, vc, vd, ve, vf, vg, vh, vi, vj, vk, vl, vm, vn, vo, vp)),
        ensures
            old(sink).calls@.is_prefix_of(final(sink).calls@),
            Self::dispatch(
                self.func,
                a, b, c, d, e, f, g, h, i, j, k, l, m, n, o, p, r,
                final(sink).calls@.skip(old(sink).calls@.len() as int),
            ),
    {
        let va = match A::try_convert(a) {
            Ok(v) => v,
            Err(err) => {
                proof {
                    lemma_sink_unchanged(sink.calls@);
                }
                return Err(err.at_position(Position::Index(0)));
            },
        };
        let vb = match B::try_convert(b) {
            Ok(v) => v,
            Err(err) => {
                proof {
                    lemma_sink_unchanged(sink.calls@);
                }
                return Err(err.at_position(Position::Index(1)));
            },
        };
        let vc = match C::try_convert(c) {
            Ok(v) => v,
            Err(err) => {
                proof {
                    lemma_sink_unchanged(sink.calls@);
                }
                return Err(err.at_position(Position::Index(2)));
            },
        };
        let vd = match D::try_convert(d) {
            Ok(v) => v,
            Err(err) => {
                proof {
                    lemma_sink_unchanged(sink.calls@);
                }
                return Err(err.at_position(Position::Index(3)));
            },
        };
        let ve = match E::try_convert(e) {
            Ok(v) => v,
            Err(err) => {
                proof {
                    lemma_sink_unchanged(sink.calls@);
                }
                return Err(err.at_position(Position::Index(4)));
            },
        };
        let vf = match F::try_convert(f) {
            Ok(v) => v,
            Err(err) => {
                proof {
                    lemma_sink_unchanged(sink.calls@);
                }
                return Err(err.at_position(Position::Index(5)));
            },
        };
        let vg = match G::try_convert(g) {
            Ok(v) => v,
            Err(err) => {
                proof {
                    lemma_sink_unchanged(sink.calls@);
                }
                return Err(err.at_position(Position::Index(6)));
            },
        };
        let vh = match H::try_convert(h) {
            Ok(v) => v,
            Err(err) => {
                proof {
                    lemma_sink_unchanged(sink.calls@);
                }
                return Err(err.at_position(Position::Index(7)));
            },
        };
        let vi = match I::try_convert(i) {
            Ok(v) => v,
            Err(err) => {
                proof {
                    lemma_sink_unchanged(sink.calls@);
                }
                return Err(err.at_position(Position::Index(8)));
            },
        };
        let vj = match J::try_convert(j) {
            Ok(v) => v,
            Err(err) => {
                proof {
                    lemma_sink_unchanged(sink.calls@);
                }
                return Err(err.at_position(Position::Index(9)));
            },
        };
        let vk = match K::try_convert(k) {
            Ok(v) => v,
            Err(err) => {
                proof {
                    lemma_sink_unchanged(sink.calls@);
                }
                return Err(err.at_position(Position::Index(10)));
            },
        };
        let vl = match L::try_convert(l) {
            Ok(v) => v,
            Err(err) => {
                proof {
                    lemma_sink_unchanged(sink.calls@);
                }
                return Err(err.at_position(Position::Index(11)));
            },
        };
        let vm = match M::try_convert(m) {
            Ok(v) => v,
            Err(err) => {
                proof {
                    lemma_sink_unchanged(sink.calls@);
                }
                return Err(err.at_position(Position::Index(12)));
            },
        };
        let vn = match N::try_convert(n) {
            Ok(v) => v,
            Err(err) => {
                proof {
                    lemma_sink_unchanged(sink.calls@);
                }
                return Err(err.at_position(Position::Index(13)));
            },
        };
        let vo = match O::try_convert(o) {
            Ok(v) => v,
            Err(err) => {
                proof {
                    lemma_sink_unchanged(sink.calls@);
                }
                return Err(err.at_position(Position::Index(14)));
            },
        };
        let vp = match P::try_convert(p) {
            Ok(v) => v,
            Err(err) => {
                proof {
                    lemma_sink_unchanged(sink.calls@);
                }
                return Err(err.at_position(Position::Index(15)));
            },
        };
        let res = (self.func)(va, vb, vc, vd, ve, vf, vg, vh, vi, vj, vk, vl, vm, vn, vo, vp);
        let out = res.into_return_value(sink);
        proof {
            assert(A::converts_to(a, va)
                && B::converts_to(b, vb)
                && C::converts_to(c, vc)
                && D::converts_to(d, vd)
                && E::converts_to(e, ve)
                && F::converts_to(f, vf)
                && G::converts_to(g, vg)
                && H::converts_to(h, vh)
                && I::converts_to(i, vi)
                && J::converts_to(j, vj)
                && K::converts_to(k, vk)
                && L::converts_to(l, vl)
                && M::converts_to(m, vm)
                && N::converts_to(n, vn)
                && O::converts_to(o, vo)
                && P::converts_to(p, vp));
            assert(call_ensures(self.func, (va, vb, vc, vd, ve, vf, vg, vh, vi, vj, vk, vl, vm, vn, vo, vp), res));
        }
        out
    }

    /// Invoke the adapter as the registration trampoline does: the host
    /// always passes a receiver handle, and a self-free adapter discards it
    /// without attempting any conversion on it — the outcome is that of
    /// [`Self::call_convert_value`] on the argument handles alone.
    pub fn call_ignoring_self(self, rb_self: Value, a: Value, b: Value, c: Value, d: Value, e: Value, f: Value, g: Value, h: Value, i: Value, j: Value, k: Value, l: Value, m: Value, n: Value, o: Value, p: Value, sink: &mut BlockSink) -> (r:
        Result<Value, Error>)
        requires
            forall|va: A, vb: B, vc: C, vd: D, ve: E, vf: F, vg: G, vh: H, vi: I, vj: J, vk: K, vl: L, vm: M, vn: N, vo: O, vp: P|
                A::converts_to(a, va)
                    && B::converts_to(b, vb)
                    && C::converts_to(c, vc)
                    && D::converts_to(d, vd)
                    && E::converts_to(e, ve)
                    && F::converts_to(f, vf)
                    && G::converts_to(g, vg)
                    && H::converts_to(h, vh)
                    && I::converts_to(i, vi)
                    && J::converts_to(j, vj)
                    && K::converts_to(k, vk)
                    && L::converts_to(l, vl)
                    && M::converts_to(m, vm)
                    && N::converts_to(n, vn)
                    && O::converts_to(o, vo)
                    && P::converts_to(p, vp)
                    ==> #[trigger] call_requires(self.func, (va, vb, vc, vd, ve, vf, vg, vh, vi, vj, vk, vl, vm, vn, vo, vp)),
        ensures
            old(sink).calls@.is_prefix_of(final(sink).calls@),
            Self::dispatch(
                self.func,
                a, b, c, d, e, f, g, h, i, j, k, l, m, n, o, p, r,
                final(sink).calls@.skip(old(sink).calls@.len() as int),
            ),
    {
        let _ = rb_self;
        self.call_convert_value(a, b, c, d, e, f, g, h, i, j, k, l, m, n, o, p, sink)
    }
}

} // verus!
