use vstd::prelude::*;

use crate::block::{lemma_sink_unchanged, BlockCall, BlockSink};
use crate::error::{Error, Position};
use crate::return_value::{BlockReturn, InitReturn, ReturnValue};
use crate::try_convert::TryConvert;
use crate::value::Value;
use std::marker::PhantomData;

verus! {

/// Adapter wrapping a native module-initialisation function: the function
/// takes nothing from the host and reports nothing, or a typed failure for
/// the boundary to raise.
pub struct Init<Func, Res> {
    /// The wrapped native function.
    pub func: Func,
    pub res: PhantomData<Res>,
}

impl<Func, Res> Init<Func, Res> where Func: Fn() -> Res, Res: InitReturn {
    /// Wrap `func`.
    pub fn new(func: Func) -> (m: Self)
        ensures
            m.func == func,
    {
        Init { func, res: PhantomData }
    }

    /// Invoke the wrapped function and normalise its result.
    pub fn call_convert_value(self) -> (r: Result<(), Error>)
        requires
            call_requires(self.func, ()),
        ensures
            exists|res: Res| #[trigger] call_ensures(self.func, (), res) && res.init_return_spec(r),
    {
        let res = (self.func)();
        let out = res.into_init_return();
        proof {
            assert(call_ensures(self.func, (), res));
        }
        out
    }
}

/// The block handle a native block function receives: the host passes nil
/// when the caller supplied no block.
pub open spec fn block_arg_of(v: Value) -> Option<Value> {
    if v is Nil {
        None
    } else {
        Some(v)
    }
}

/// Adapter wrapping a native function called as a host block: it receives
/// the block's arguments as raw handles, plus the block argument when one
/// was given, and its result is normalised without any yield driving.
pub struct Block<Func, Res> {
    /// The wrapped native function.
    pub func: Func,
    pub res: PhantomData<Res>,
}

impl<Func, Res> Block<Func, Res> where
    Func: Fn(&[Value], Option<Value>) -> Res,
    Res: BlockReturn,
 {
    /// Wrap `func`.
    pub fn new(func: Func) -> (m: Self)
        ensures
            m.func == func,
    {
        Block { func, res: PhantomData }
    }

    /// Invoke the wrapped function on the raw argument handles and the block
    /// argument (nil stands for "no block"), and normalise its result. No
    /// argument conversion is attempted: a block function reads the handles
    /// itself.
    pub fn call_convert_value(self, args: &[Value], block_arg: Value) -> (r: Result<Value, Error>)
        requires
            call_requires(self.func, (args, block_arg_of(block_arg))),
        ensures
            exists|res: Res|
                #[trigger] call_ensures(self.func, (args, block_arg_of(block_arg)), res)
                    && res.block_return_spec(r),
    {
        let ba = if block_arg.is_nil() {
            None
        } else {
            Some(block_arg)
        };
        proof {
            assert(ba == block_arg_of(block_arg));
        }
        let res = (self.func)(args, ba);
        let out = res.into_block_return();
        proof {
            assert(call_ensures(self.func, (args, block_arg_of(block_arg)), res));
        }
        out
    }
}

/// Adapter exposing a native function as a host method taking self and a
/// borrowed slice of raw argument handles, for variable-arity signatures:
/// only the receiver handle is converted, and the function scans the slice
/// itself.
pub struct MethodCAry<Func, RbSelf, Res> {
    /// The wrapped native function.
    pub func: Func,
    pub rb_self: PhantomData<RbSelf>,
    pub res: PhantomData<Res>,
}

impl<Func, RbSelf, Res> MethodCAry<Func, RbSelf, Res> where
    Func: Fn(RbSelf, &[Value]) -> Res,
    RbSelf: TryConvert,
    Res: ReturnValue,
 {
    /// Wrap `func`.
    pub fn new(func: Func) -> (m: Self)
        ensures
            m.func == func,
    {
        MethodCAry { func, rb_self: PhantomData, res: PhantomData }
    }

    /// What invoking the adapter yields: a receiver that fails to convert is
    /// reported and the wrapped function is then not invoked; otherwise the
    /// function's result, normalised, with `calls` the block invocations
    /// recorded while normalising it.
    pub open spec fn dispatch(
        f: Func,
        args: &[Value],
        rb_self: Value,
        r: Result<Value, Error>,
        calls: Seq<BlockCall>,
    ) -> bool {
        if !RbSelf::convertible(rb_self) {
            calls.len() == 0 && (r matches Err(e) && e.is_conversion_failure_at(
                Position::Receiver,
                RbSelf::fail_spec(rb_self),
            ))
        } else {
            exists|recv: RbSelf, res: Res|
                RbSelf::converts_to(rb_self, recv) && #[trigger] call_ensures(f, (recv, args), res)
                    && res.return_spec(r, calls)
        }
    }

    /// Convert the receiver handle, hand the wrapped function the raw
    /// argument slice unconverted, and normalise its result. A receiver
    /// conversion failure means the function is never invoked.
    pub fn call_convert_value(self, args: &[Value], rb_self: Value, sink: &mut BlockSink) -> (r:
        Result<Value, Error>)
        requires
            forall|recv: RbSelf|
                RbSelf::converts_to(rb_self, recv) ==> #[trigger] call_requires(
                    self.func,
                    (recv, args),
                ),
        ensures
            old(sink).calls@.is_prefix_of(final(sink).calls@),
            Self::dispatch(
                self.func,
                args,
                rb_self,
                r,
                final(sink).calls@.skip(old(sink).calls@.len() as int),
            ),
    {
        let recv = match RbSelf::try_convert(rb_self) {
            Ok(v) => v,
            Err(e) => {
                proof {
                    lemma_sink_unchanged(sink.calls@);
                }
                return Err(e.at_position(Position::Receiver));
            },
        };
        let res = (self.func)(recv, args);
        let out = res.into_return_value(sink);
        proof {
            assert(call_ensures(self.func, (recv, args), res));
        }
        out
    }
}

/// Adapter exposing a native function as a host method taking self and one
/// aggregate handle carrying every positional argument pre-collected by the
/// host; the function converts the aggregate's elements itself.
pub struct MethodRbAry<Func, RbSelf, Args, Res> {
    /// The wrapped native function.
    pub func: Func,
    pub rb_self: PhantomData<RbSelf>,
    pub args: PhantomData<Args>,
    pub res: PhantomData<Res>,
}

impl<Func, RbSelf, Args, Res> MethodRbAry<Func, RbSelf, Args, Res> where
    Func: Fn(RbSelf, Args) -> Res,
    RbSelf: TryConvert,
    Args: TryConvert,
    Res: ReturnValue,
 {
    /// Wrap `func`.
    pub fn new(func: Func) -> (m: Self)
        ensures
            m.func == func,
    {
        MethodRbAry { func, rb_self: PhantomData, args: PhantomData, res: PhantomData }
    }

    /// What invoking the adapter yields: the first handle that fails to
    /// convert wins and is reported with its slot, and the wrapped function
    /// is then not invoked; when every handle converts, the function's
    /// result, normalised, with `calls` the block invocations recorded while
    /// normalising it.
    pub open spec fn dispatch(
        func: Func,
        rb_self: Value,
        args: Value,
        r: Result<Value, Error>,
        calls: Seq<BlockCall>,
    ) -> bool {
        if !RbSelf::convertible(rb_self) {
            calls.len() == 0 && (r matches Err(err) && err.is_conversion_failure_at(
                Position::Receiver,
                RbSelf::fail_spec(rb_self),
            ))
        } else if !Args::convertible(args) {
            calls.len() == 0 && (r matches Err(err) && err.is_conversion_failure_at(
                Position::Index(0),
                Args::fail_spec(args),
            ))
        } else {
            exists|recv: RbSelf, vargs: Args, res: Res|
                RbSelf::converts_to(rb_self, recv)
                    && Args::converts_to(args, vargs)
                    && #[trigger] call_ensures(func, (recv, vargs), res)
                    && res.return_spec(r, calls)
        }
    }

    /// Convert the call-site handles left to right, stopping at the first
    /// failure, invoke the wrapped function on the converted values, and
    /// normalise its result. The receiver handle is converted first, then
    /// each argument; a conversion failure means the function is never
    /// invoked.
    pub fn call_convert_value(self, rb_self: Value, args: Value, sink: &mut BlockSink) -> (r: Result<
        Value,
        Error,
    >)
        requires
            forall|recv: RbSelf, vargs: Args|
                RbSelf::converts_to(rb_self, recv)
                    && Args::converts_to(args, vargs)
                    ==> #[trigger] call_requires(self.func, (recv, vargs)),
        ensures
            old(sink).calls@.is_prefix_of(final(sink).calls@),
            Self::dispatch(
                self.func,
                rb_self, args, r,
                final(sink).calls@.skip(old(sink).calls@.len() as int),
            ),
    {
        let recv = match RbSelf::try_convert(rb_self) {
            Ok(v) => v,
            Err(err) => {
                proof {
                    lemma_sink_unchanged(sink.calls@);
                }
                return Err(err.at_position(Position::Receiver));
            },
        };
        let vargs = match Args::try_convert(args) {
            Ok(v) => v,
            Err(err) => {
                proof {
                    lemma_sink_unchanged(sink.calls@);
                }
                return Err(err.at_position(Position::Index(0)));
            },
        };
        let res = (self.func)(recv, vargs);
        let out = res.into_return_value(sink);
        proof {
            assert(RbSelf::converts_to(rb_self, recv)
                && Args::converts_to(args, vargs));
            assert(call_ensures(self.func, (recv, vargs), res));
        }
        out
    }
}

/// Adapter exposing a native function as a host method taking self and
/// no positional arguments, with typed conversion of every
/// call-site handle, result normalisation and a single error path.
pub struct Method0<Func, RbSelf, Res> {
    /// The wrapped native function.
    pub func: Func,
    pub rb_self: PhantomData<RbSelf>,
    pub res: PhantomData<Res>,
}

impl<Func, RbSelf, Res> Method0<Func, RbSelf, Res> where
    Func: Fn(RbSelf) -> Res,
    RbSelf: TryConvert,
    Res: ReturnValue,
 {
    /// Wrap `func`.
    pub fn new(func: Func) -> (m: Self)
        ensures
            m.func == func,
    {
        Method0 { func, rb_self: PhantomData, res: PhantomData }
    }

    /// What invoking the adapter yields: the first handle that fails to
    /// convert wins and is reported with its slot, and the wrapped function
    /// is then not invoked; when every handle converts, the function's
    /// result, normalised, with `calls` the block invocations recorded while
    /// normalising it.
    pub open spec fn dispatch(
        func: Func,
        rb_self: Value,
        r: Result<Value, Error>,
        calls: Seq<BlockCall>,
    ) -> bool {
        if !RbSelf::convertible(rb_self) {
            calls.len() == 0 && (r matches Err(err) && err.is_conversion_failure_at(
                Position::Receiver,
                RbSelf::fail_spec(rb_self),
            ))
        } else {
            exists|recv: RbSelf, res: Res|
                RbSelf::converts_to(rb_self, recv)
                    && #[trigger] call_ensures(func, (recv,), res)
                    && res.return_spec(r, calls)
        }
    }

    /// Convert the call-site handles left to right, stopping at the first
    /// failure, invoke the wrapped function on the converted values, and
    /// normalise its result. The receiver handle is converted first, then
    /// each argument; a conversion failure means the function is never
    /// invoked.
    pub fn call_convert_value(self, rb_self: Value, sink: &mut BlockSink) -> (r: Result<
        Value,
        Error,
    >)
        requires
            forall|recv: RbSelf|
                RbSelf::converts_to(rb_self, recv)
                    ==> #[trigger] call_requires(self.func, (recv,)),
        ensures
            old(sink).calls@.is_prefix_of(final(sink).calls@),
            Self::dispatch(
                self.func,
                rb_self, r,
                final(sink).calls@.skip(old(sink).calls@.len() as int),
            ),
    {
        let recv = match RbSelf::try_convert(rb_self) {
            Ok(v) => v,
            Err(err) => {
                proof {
                    lemma_sink_unchanged(sink.calls@);
                }
                return Err(err.at_position(Position::Receiver));
            },
        };
        let res = (self.func)(recv);
        let out = res.into_return_value(sink);
        proof {
            assert(RbSelf::converts_to(rb_self, recv));
            assert(call_ensures(self.func, (recv,), res));
        }
        out
    }
}

/// Adapter exposing a native function as a host method taking self and
/// one positional argument, with typed conversion of every
/// call-site handle, result normalisation and a single error path.
pub struct Method1<Func, RbSelf, A, Res> {
    /// The wrapped native function.
    pub func: Func,
    pub rb_self: PhantomData<RbSelf>,
    pub a: PhantomData<A>,
    pub res: PhantomData<Res>,
}

impl<Func, RbSelf, A, Res> Method1<Func, RbSelf, A, Res> where
    Func: Fn(RbSelf, A) -> Res,
    RbSelf: TryConvert,
    A: TryConvert,
    Res: ReturnValue,
 {
    /// Wrap `func`.
    pub fn new(func: Func) -> (m: Self)
        ensures
            m.func == func,
    {
        Method1 { func, rb_self: PhantomData, a: PhantomData, res: PhantomData }
    }

    /// What invoking the adapter yields: the first handle that fails to
    /// convert wins and is reported with its slot, and the wrapped function
    /// is then not invoked; when every handle converts, the function's
    /// result, normalised, with `calls` the block invocations recorded while
    /// normalising it.
    pub open spec fn dispatch(
        func: Func,
        rb_self: Value,
        a: Value,
        r: Result<Value, Error>,
        calls: Seq<BlockCall>,
    ) -> bool {
        if !RbSelf::convertible(rb_self) {
            calls.len() == 0 && (r matches Err(err) && err.is_conversion_failure_at(
                Position::Receiver,
                RbSelf::fail_spec(rb_self),
            ))
        } else if !A::convertible(a) {
            calls.len() == 0 && (r matches Err(err) && err.is_conversion_failure_at(
                Position::Index(0),
                A::fail_spec(a),
            ))
        } else {
            exists|recv: RbSelf, va: A, res: Res|
                RbSelf::converts_to(rb_self, recv)
                    && A::converts_to(a, va)
                    && #[trigger] call_ensures(func, (recv, va), res)
                    && res.return_spec(r, calls)
        }
    }

    /// Convert the call-site handles left to right, stopping at the first
    /// failure, invoke the wrapped function on the converted values, and
    /// normalise its result. The receiver handle is converted first, then
    /// each argument; a conversion failure means the function is never
    /// invoked.
    pub fn call_convert_value(self, rb_self: Value, a: Value, sink: &mut BlockSink) -> (r: Result<
        Value,
        Error,
    >)
        requires
            forall|recv: RbSelf, va: A|
                RbSelf::converts_to(rb_self, recv)
                    && A::converts_to(a, va)
                    ==> #[trigger] call_requires(self.func, (recv, va)),
        ensures
            old(sink).calls@.is_prefix_of(final(sink).calls@),
            Self::dispatch(
                self.func,
                rb_self, a, r,
                final(sink).calls@.skip(old(sink).calls@.len() as int),
            ),
    {
        let recv = match RbSelf::try_convert(rb_self) {
            Ok(v) => v,
            Err(err) => {
                proof {
                    lemma_sink_unchanged(sink.calls@);
                }
                return Err(err.at_position(Position::Receiver));
            },
        };
        let va = match A::try_convert(a) {
            Ok(v) => v,
            Err(err) => {
                proof {
                    lemma_sink_unchanged(sink.calls@);
                }
                return Err(err.at_position(Position::Index(0)));
            },
        };
        let res = (self.func)(recv, va);
        let out = res.into_return_value(sink);
        proof {
            assert(RbSelf::converts_to(rb_self, recv)
                && A::converts_to(a, va));
            assert(call_ensures(self.func, (recv, va), res));
        }
        out
    }
}

/// Adapter exposing a native function as a host method taking self and
/// two positional arguments, with typed conversion of every
/// call-site handle, result normalisation and a single error path.
pub struct Method2<Func, RbSelf, A, B, Res> {
    /// The wrapped native function.
    pub func: Func,
    pub rb_self: PhantomData<RbSelf>,
    pub a: PhantomData<A>,
    pub b: PhantomData<B>,
    pub res: PhantomData<Res>,
}

impl<Func, RbSelf, A, B, Res> Method2<Func, RbSelf, A, B, Res> where
    Func: Fn(RbSelf, A, B) -> Res,
    RbSelf: TryConvert,
    A: TryConvert,
    B: TryConvert,
    Res: ReturnValue,
 {
    /// Wrap `func`.
    pub fn new(func: Func) -> (m: Self)
        ensures
            m.func == func,
    {
        Method2 { func, rb_self: PhantomData, a: PhantomData, b: PhantomData, res: PhantomData }
    }

    /// What invoking the adapter yields: the first handle that fails to
    /// convert wins and is reported with its slot, and the wrapped function
    /// is then not invoked; when every handle converts, the function's
    /// result, normalised, with `calls` the block invocations recorded while
    /// normalising it.
    pub open spec fn dispatch(
        func: Func,
        rb_self: Value,
        a: Value,
        b: Value,
        r: Result<Value, Error>,
        calls: Seq<BlockCall>,
    ) -> bool {
        if !RbSelf::convertible(rb_self) {
            calls.len() == 0 && (r matches Err(err) && err.is_conversion_failure_at(
                Position::Receiver,
                RbSelf::fail_spec(rb_self),
            ))
        } else if !A::convertible(a) {
            calls.len() == 0 && (r matches Err(err) && err.is_conversion_failure_at(
                Position::Index(0),
                A::fail_spec(a),
            ))
        } else if !B::convertible(b) {
            calls.len() == 0 && (r matches Err(err) && err.is_conversion_failure_at(
                Position::Index(1),
                B::fail_spec(b),
            ))
        } else {
            exists|recv: RbSelf, va: A, vb: B, res: Res|
                RbSelf::converts_to(rb_self, recv)
                    && A::converts_to(a, va)
                    && B::converts_to(b, vb)
                    && #[trigger] call_ensures(func, (recv, va, vb), res)
                    && res.return_spec(r, calls)
        }
    }

    /// Convert the call-site handles left to right, stopping at the first
    /// failure, invoke the wrapped function on the converted values, and
    /// normalise its result. The receiver handle is converted first, then
    /// each argument; a conversion failure means the function is never
    /// invoked.
    pub fn call_convert_value(self, rb_self: Value, a: Value, b: Value, sink: &mut BlockSink) -> (r: Result<
        Value,
        Error,
    >)
        requires
            forall|recv: RbSelf, va: A, vb: B|
                RbSelf::converts_to(rb_self, recv)
                    && A::converts_to(a, va)
                    && B::converts_to(b, vb)
                    ==> #[trigger] call_requires(self.func, (recv, va, vb)),
        ensures
            old(sink).calls@.is_prefix_of(final(sink).calls@),
            Self::dispatch(
                self.func,
                rb_self, a, b, r,
                final(sink).calls@.skip(old(sink).calls@.len() as int),
            ),
    {
        let recv = match RbSelf::try_convert(rb_self) {
            Ok(v) => v,
            Err(err) => {
                proof {
                    lemma_sink_unchanged(sink.calls@);
                }
                return Err(err.at_position(Position::Receiver));
            },
        };
        let va = match A::try_convert(a) {
            Ok(v) => v,
            Err(err) => {
                proof {
                    lemma_sink_unchanged(sink.calls@);
                }
                return Err(err.at_position(Position::Index(0)));
            },
        };
        let vb = match B::try_convert(b) {
            Ok(v) => v,
            Err(err) => {
                proof {
                    lemma_sink_unchanged(sink.calls@);
                }
                return Err(err.at_position(Position::Index(1)));
            },
        };
        let res = (self.func)(recv, va, vb);
        let out = res.into_return_value(sink);
        proof {
            assert(RbSelf::converts_to(rb_self, recv)
                && A::converts_to(a, va)
                && B::converts_to(b, vb));
            assert(call_ensures(self.func, (recv, va, vb), res));
        }
        out
    }
}

/// Adapter exposing a native function as a host method taking self and
/// three positional arguments, with typed conversion of every
/// call-site handle, result normalisation and a single error path.
pub struct Method3<Func, RbSelf, A, B, C, Res> {
    /// The wrapped native function.
    pub func: Func,
    pub rb_self: PhantomData<RbSelf>,
    pub a: PhantomData<A>,
    pub b: PhantomData<B>,
    pub c: PhantomData<C>,
    pub res: PhantomData<Res>,
}

impl<Func, RbSelf, A, B, C, Res> Method3<Func, RbSelf, A, B, C, Res> where
    Func: Fn(RbSelf, A, B, C) -> Res,
    RbSelf: TryConvert,
    A: TryConvert,
    B: TryConvert,
    C: TryConvert,
    Res: ReturnValue,
 {
    /// Wrap `func`.
    pub fn new(func: Func) -> (m: Self)
        ensures
            m.func == func,
    {
        Method3 { func, rb_self: PhantomData, a: PhantomData, b: PhantomData, c: PhantomData, res: PhantomData }
    }

    /// What invoking the adapter yields: the first handle that fails to
    /// convert wins and is reported with its slot, and the wrapped function
    /// is then not invoked; when every handle converts, the function's
    /// result, normalised, with `calls` the block invocations recorded while
    /// normalising it.
    pub open spec fn dispatch(
        func: Func,
        rb_self: Value,
        a: Value,
        b: Value,
        c: Value,
        r: Result<Value, Error>,
        calls: Seq<BlockCall>,
    ) -> bool {
        if !RbSelf::convertible(rb_self) {
            calls.len() == 0 && (r matches Err(err) && err.is_conversion_failure_at(
                Position::Receiver,
                RbSelf::fail_spec(rb_self),
            ))
        } else if !A::convertible(a) {
            calls.len() == 0 && (r matches Err(err) && err.is_conversion_failure_at(
                Position::Index(0),
                A::fail_spec(a),
            ))
        } else if !B::convertible(b) {
            calls.len() == 0 && (r matches Err(err) && err.is_conversion_failure_at(
                Position::Index(1),
                B::fail_spec(b),
            ))
        } else if !C::convertible(c) {
            calls.len() == 0 && (r matches Err(err) && err.is_conversion_failure_at(
                Position::Index(2),
                C::fail_spec(c),
            ))
        } else {
            exists|recv: RbSelf, va: A, vb: B, vc: C, res: Res|
                RbSelf::converts_to(rb_self, recv)
                    && A::converts_to(a, va)
                    && B::converts_to(b, vb)
                    && C::converts_to(c, vc)
                    && #[trigger] call_ensures(func, (recv, va, vb, vc), res)
                    && res.return_spec(r, calls)
        }
    }

    /// Convert the call-site handles left to right, stopping at the first
    /// failure, invoke the wrapped function on the converted values, and
    /// normalise its result. The receiver handle is converted first, then
    /// each argument; a conversion failure means the function is never
    /// invoked.
    pub fn call_convert_value(self, rb_self: Value, a: Value, b: Value, c: Value, sink: &mut BlockSink) -> (r: Result<
        Value,
        Error,
    >)
        requires
            forall|recv: RbSelf, va: A, vb: B, vc: C|
                RbSelf::converts_to(rb_self, recv)
                    && A::converts_to(a, va)
                    && B::converts_to(b, vb)
                    && C::converts_to(c, vc)
                    ==> #[trigger] call_requires(self.func, (recv, va, vb, vc)),
        ensures
            old(sink).calls@.is_prefix_of(final(sink).calls@),
            Self::dispatch(
                self.func,
                rb_self, a, b, c, r,
                final(sink).calls@.skip(old(sink).calls@.len() as int),
            ),
    {
        let recv = match RbSelf::try_convert(rb_self) {
            Ok(v) => v,
            Err(err) => {
                proof {
                    lemma_sink_unchanged(sink.calls@);
                }
                return Err(err.at_position(Position::Receiver));
            },
        };
        let va = match A::try_convert(a) {
            Ok(v) => v,
            Err(err) => {
                proof {
                    lemma_sink_unchanged(sink.calls@);
                }
                return Err(err.at_position(Position::Index(0)));
            },
        };
        let vb = match B::try_convert(b) {
            Ok(v) => v,
            Err(err) => {
                proof {
                    lemma_sink_unchanged(sink.calls@);
                }
                return Err(err.at_position(Position::Index(1)));
            },
        };
        let vc = match C::try_convert(c) {
            Ok(v) => v,
            Err(err) => {
                proof {
                    lemma_sink_unchanged(sink.calls@);
                }
                return Err(err.at_position(Position::Index(2)));
            },
        };
        let res = (self.func)(recv, va, vb, vc);
        let out = res.into_return_value(sink);
        proof {
            assert(RbSelf::converts_to(rb_self, recv)
                && A::converts_to(a, va)
                && B::converts_to(b, vb)
                && C::converts_to(c, vc));
            assert(call_ensures(self.func, (recv, va, vb, vc), res));
        }
        out
    }
}

/// Adapter exposing a native function as a host method taking self and
/// four positional arguments, with typed conversion of every
/// call-site handle, result normalisation and a single error path.
pub struct Method4<Func, RbSelf, A, B, C, D, Res> {
    /// The wrapped native function.
    pub func: Func,
    pub rb_self: PhantomData<RbSelf>,
    pub a: PhantomData<A>,
    pub b: PhantomData<B>,
    pub c: PhantomData<C>,
    pub d: PhantomData<D>,
    pub res: PhantomData<Res>,
}

impl<Func, RbSelf, A, B, C, D, Res> Method4<Func, RbSelf, A, B, C, D, Res> where
    Func: Fn(RbSelf, A, B, C, D) -> Res,
    RbSelf: TryConvert,
    A: TryConvert,
    B: TryConvert,
    C: TryConvert,
    D: TryConvert,
    Res: ReturnValue,
 {
    /// Wrap `func`.
    pub fn new(func: Func) -> (m: Self)
        ensures
            m.func == func,
    {
        Method4 { func, rb_self: PhantomData, a: PhantomData, b: PhantomData, c: PhantomData, d: PhantomData, res: PhantomData }
    }

    /// What invoking the adapter yields: the first handle that fails to
    /// convert wins and is reported with its slot, and the wrapped function
    /// is then not invoked; when every handle converts, the function's
    /// result, normalised, with `calls` the block invocations recorded while
    /// normalising it.
    pub open spec fn dispatch(
        func: Func,
        rb_self: Value,
        a: Value,
        b: Value,
        c: Value,
        d: Value,
        r: Result<Value, Error>,
        calls: Seq<BlockCall>,
    ) -> bool {
        if !RbSelf::convertible(rb_self) {
            calls.len() == 0 && (r matches Err(err) && err.is_conversion_failure_at(
                Position::Receiver,
                RbSelf::fail_spec(rb_self),
            ))
        } else if !A::convertible(a) {
            calls.len() == 0 && (r matches Err(err) && err.is_conversion_failure_at(
                Position::Index(0),
                A::fail_spec(a),
            ))
        } else if !B::convertible(b) {
            calls.len() == 0 && (r matches Err(err) && err.is_conversion_failure_at(
                Position::Index(1),
                B::fail_spec(b),
            ))
        } else if !C::convertible(c) {
            calls.len() == 0 && (r matches Err(err) && err.is_conversion_failure_at(
                Position::Index(2),
                C::fail_spec(c),
            ))
        } else if !D::convertible(d) {
            calls.len() == 0 && (r matches Err(err) && err.is_conversion_failure_at(
                Position::Index(3),
                D::fail_spec(d),
            ))
        } else {
            exists|recv: RbSelf, va: A, vb: B, vc: C, vd: D, res: Res|
                RbSelf::converts_to(rb_self, recv)
                    && A::converts_to(a, va)
                    && B::converts_to(b, vb)
                    && C::converts_to(c, vc)
                    && D::converts_to(d, vd)
                    && #[trigger] call_ensures(func, (recv, va, vb, vc, vd), res)
                    && res.return_spec(r, calls)
        }
    }

    /// Convert the call-site handles left to right, stopping at the first
    /// failure, invoke the wrapped function on the converted values, and
    /// normalise its result. The receiver handle is converted first, then
    /// each argument; a conversion failure means the function is never
    /// invoked.
    pub fn call_convert_value(self, rb_self: Value, a: Value, b: Value, c: Value, d: Value, sink: &mut BlockSink) -> (r: Result<
        Value,
        Error,
    >)
        requires
            forall|recv: RbSelf, va: A, vb: B, vc: C, vd: D|
                RbSelf::converts_to(rb_self, recv)
                    && A::converts_to(a, va)
                    && B::converts_to(b, vb)
                    && C::converts_to(c, vc)
                    && D::converts_to(d, vd)
                    ==> #[trigger] call_requires(self.func, (recv, va, vb, vc, vd)),
        ensures
            old(sink).calls@.is_prefix_of(final(sink).calls@),
            Self::dispatch(
                self.func,
                rb_self, a, b, c, d, r,
                final(sink).calls@.skip(old(sink).calls@.len() as int),
            ),
    {
        let recv = match RbSelf::try_convert(rb_self) {
            Ok(v) => v,
            Err(err) => {
                proof {
                    lemma_sink_unchanged(sink.calls@);
                }
                return Err(err.at_position(Position::Receiver));
            },
        };
        let va = match A::try_convert(a) {
            Ok(v) => v,
            Err(err) => {
                proof {
                    lemma_sink_unchanged(sink.calls@);
                }
                return Err(err.at_position(Position::Index(0)));
            },
        };
        let vb = match B::try_convert(b) {
            Ok(v) => v,
            Err(err) => {
                proof {
                    lemma_sink_unchanged(sink.calls@);
                }
                return Err(err.at_position(Position::Index(1)));
            },
        };
        let vc = match C::try_convert(c) {
            Ok(v) => v,
            Err(err) => {
                proof {
                    lemma_sink_unchanged(sink.calls@);
                }
                return Err(err.at_position(Position::Index(2)));
            },
        };
        let vd = match D::try_convert(d) {
            Ok(v) => v,
            Err(err) => {
                proof {
                    lemma_sink_unchanged(sink.calls@);
                }
                return Err(err.at_position(Position::Index(3)));
            },
        };
        let res = (self.func)(recv, va, vb, vc, vd);
        let out = res.into_return_value(sink);
        proof {
            assert(RbSelf::converts_to(rb_self, recv)
                && A::converts_to(a, va)
                && B::converts_to(b, vb)
                && C::converts_to(c, vc)
                && D::converts_to(d, vd));
            assert(call_ensures(self.func, (recv, va, vb, vc, vd), res));
        }
        out
    }
}

/// Adapter exposing a native function as a host method taking self and
/// five positional arguments, with typed conversion of every
/// call-site handle, result normalisation and a single error path.
pub struct Method5<Func, RbSelf, A, B, C, D, E, Res> {
    /// The wrapped native function.
    pub func: Func,
    pub rb_self: PhantomData<RbSelf>,
    pub a: PhantomData<A>,
    pub b: PhantomData<B>,
    pub c: PhantomData<C>,
    pub d: PhantomData<D>,
    pub e: PhantomData<E>,
    pub res: PhantomData<Res>,
}

impl<Func, RbSelf, A, B, C, D, E, Res> Method5<Func, RbSelf, A, B, C, D, E, Res> where
    Func: Fn(RbSelf, A, B, C, D, E) -> Res,
    RbSelf: TryConvert,
    A: TryConvert,
    B: TryConvert,
    C: TryConvert,
    D: TryConvert,
    E: TryConvert,
    Res: ReturnValue,
 {
    /// Wrap `func`.
    pub fn new(func: Func) -> (m: Self)
        ensures
            m.func == func,
    {
        Method5 { func, rb_self: PhantomData, a: PhantomData, b: PhantomData, c: PhantomData, d: PhantomData, e: PhantomData, res: PhantomData }
    }

    /// What invoking the adapter yields: the first handle that fails to
    /// convert wins and is reported with its slot, and the wrapped function
    /// is then not invoked; when every handle converts, the function's
    /// result, normalised, with `calls` the block invocations recorded while
    /// normalising it.
    pub open spec fn dispatch(
        func: Func,
        rb_self: Value,
        a: Value,
        b: Value,
        c: Value,
        d: Value,
        e: Value,
        r: Result<Value, Error>,
        calls: Seq<BlockCall>,
    ) -> bool {
        if !RbSelf::convertible(rb_self) {
            calls.len() == 0 && (r matches Err(err) && err.is_conversion_failure_at(
                Position::Receiver,
                RbSelf::fail_spec(rb_self),
            ))
        } else if !A::convertible(a) {
            calls.len() == 0 && (r matches Err(err) && err.is_conversion_failure_at(
                Position::Index(0),
                A::fail_spec(a),
            ))
        } else if !B::convertible(b) {
            calls.len() == 0 && (r matches Err(err) && err.is_conversion_failure_at(
                Position::Index(1),
                B::fail_spec(b),
            ))
        } else if !C::convertible(c) {
            calls.len() == 0 && (r matches Err(err) && err.is_conversion_failure_at(
                Position::Index(2),
                C::fail_spec(c),
            ))
        } else if !D::convertible(d) {
            calls.len() == 0 && (r matches Err(err) && err.is_conversion_failure_at(
                Position::Index(3),
                D::fail_spec(d),
            ))
        } else if !E::convertible(e) {
            calls.len() == 0 && (r matches Err(err) && err.is_conversion_failure_at(
                Position::Index(4),
                E::fail_spec(e),
            ))
        } else {
            exists|recv: RbSelf, va: A, vb: B, vc: C, vd: D, ve: E, res: Res|
                RbSelf::converts_to(rb_self, recv)
                    && A::converts_to(a, va)
                    && B::converts_to(b, vb)
                    && C::converts_to(c, vc)
                    && D::converts_to(d, vd)
                    && E::converts_to(e, ve)
                    && #[trigger] call_ensures(func, (recv, va, vb, vc, vd, ve), res)
                    && res.return_spec(r, calls)
        }
    }

    /// Convert the call-site handles left to right, stopping at the first
    /// failure, invoke the wrapped function on the converted values, and
    /// normalise its result. The receiver handle is converted first, then
    /// each argument; a conversion failure means the function is never
    /// invoked.
    pub fn call_convert_value(self, rb_self: Value, a: Value, b: Value, c: Value, d: Value, e: Value, sink: &mut BlockSink) -> (r: Result<
        Value,
        Error,
    >)
        requires
            forall|recv: RbSelf, va: A, vb: B, vc: C, vd: D, ve: E|
                RbSelf::converts_to(rb_self, recv)
                    && A::converts_to(a, va)
                    && B::converts_to(b, vb)
                    && C::converts_to(c, vc)
                    && D::converts_to(d, vd)
                    && E::converts_to(e, ve)
                    ==> #[trigger] call_requires(self.func, (recv, va, vb, vc, vd, ve)),
        ensures
            old(sink).calls@.is_prefix_of(final(sink).calls@),
            Self::dispatch(
                self.func,
                rb_self, a, b, c, d, e, r,
                final(sink).calls@.skip(old(sink).calls@.len() as int),
            ),
    {
        let recv = match RbSelf::try_convert(rb_self) {
            Ok(v) => v,
            Err(err) => {
                proof {
                    lemma_sink_unchanged(sink.calls@);
                }
                return Err(err.at_position(Position::Receiver));
            },
        };
        let va = match A::try_convert(a) {
            Ok(v) => v,
            Err(err) => {
                proof {
                    lemma_sink_unchanged(sink.calls@);
                }
                return Err(err.at_position(Position::Index(0)));
            },
        };
        let vb = match B::try_convert(b) {
            Ok(v) => v,
            Err(err) => {
                proof {
                    lemma_sink_unchanged(sink.calls@);
                }
                return Err(err.at_position(Position::Index(1)));
            },
        };
        let vc = match C::try_convert(c) {
            Ok(v) => v,
            Err(err) => {
                proof {
                    lemma_sink_unchanged(sink.calls@);
                }
                return Err(err.at_position(Position::Index(2)));
            },
        };
        let vd = match D::try_convert(d) {
            Ok(v) => v,
            Err(err) => {
                proof {
                    lemma_sink_unchanged(sink.calls@);
                }
                return Err(err.at_position(Position::Index(3)));
            },
        };
        let ve = match E::try_convert(e) {
            Ok(v) => v,
            Err(err) => {
                proof {
                    lemma_sink_unchanged(sink.calls@);
                }
                return Err(err.at_position(Position::Index(4)));
            },
        };
        let res = (self.func)(recv, va, vb, vc, vd, ve);
        let out = res.into_return_value(sink);
        proof {
            assert(RbSelf::converts_to(rb_self, recv)
                && A::converts_to(a, va)
                && B::converts_to(b, vb)
                && C::converts_to(c, vc)
                && D::converts_to(d, vd)
                && E::converts_to(e, ve));
            assert(call_ensures(self.func, (recv, va, vb, vc, vd, ve), res));
        }
        out
    }
}

/// Adapter exposing a native function as a host method taking self and
/// six positional arguments, with typed conversion of every
/// call-site handle, result normalisation and a single error path.
pub struct Method6<Func, RbSelf, A, B, C, D, E, F, Res> {
    /// The wrapped native function.
    pub func: Func,
    pub rb_self: PhantomData<RbSelf>,
    pub a: PhantomData<A>,
    pub b: PhantomData<B>,
    pub c: PhantomData<C>,
    pub d: PhantomData<D>,
    pub e: PhantomData<E>,
    pub f: PhantomData<F>,
    pub res: PhantomData<Res>,
}

impl<Func, RbSelf, A, B, C, D, E, F, Res> Method6<Func, RbSelf, A, B, C, D, E, F, Res> where
    Func: Fn(RbSelf, A, B, C, D, E, F) -> Res,
    RbSelf: TryConvert,
    A: TryConvert,
    B: TryConvert,
    C: TryConvert,
    D: TryConvert,
    E: TryConvert,
    F: TryConvert,
    Res: ReturnValue,
 {
    /// Wrap `func`.
    pub fn new(func: Func) -> (m: Self)
        ensures
            m.func == func,
    {
        Method6 { func, rb_self: PhantomData, a: PhantomData, b: PhantomData, c: PhantomData, d: PhantomData, e: PhantomData, f: PhantomData, res: PhantomData }
    }

    /// What invoking the adapter yields: the first handle that fails to
    /// convert wins and is reported with its slot, and the wrapped function
    /// is then not invoked; when every handle converts, the function's
    /// result, normalised, with `calls` the block invocations recorded while
    /// normalising it.
    pub open spec fn dispatch(
        func: Func,
        rb_self: Value,
        a: Value,
        b: Value,
        c: Value,
        d: Value,
        e: Value,
        f: Value,
        r: Result<Value, Error>,
        calls: Seq<BlockCall>,
    ) -> bool {
        if !RbSelf::convertible(rb_self) {
            calls.len() == 0 && (r matches Err(err) && err.is_conversion_failure_at(
                Position::Receiver,
                RbSelf::fail_spec(rb_self),
            ))
        } else if !A::convertible(a) {
            calls.len() == 0 && (r matches Err(err) && err.is_conversion_failure_at(
                Position::Index(0),
                A::fail_spec(a),
            ))
        } else if !B::convertible(b) {
            calls.len() == 0 && (r matches Err(err) && err.is_conversion_failure_at(
                Position::Index(1),
                B::fail_spec(b),
            ))
        } else if !C::convertible(c) {
            calls.len() == 0 && (r matches Err(err) && err.is_conversion_failure_at(
                Position::Index(2),
                C::fail_spec(c),
            ))
        } else if !D::convertible(d) {
            calls.len() == 0 && (r matches Err(err) && err.is_conversion_failure_at(
                Position::Index(3),
                D::fail_spec(d),
            ))
        } else if !E::convertible(e) {
            calls.len() == 0 && (r matches Err(err) && err.is_conversion_failure_at(
                Position::Index(4),
                E::fail_spec(e),
            ))
        } else if !F::convertible(f) {
            calls.len() == 0 && (r matches Err(err) && err.is_conversion_failure_at(
                Position::Index(5),
                F::fail_spec(f),
            ))
        } else {
            exists|recv: RbSelf, va: A, vb: B, vc: C, vd: D, ve: E, vf: F, res: Res|
                RbSelf::converts_to(rb_self, recv)
                    && A::converts_to(a, va)
                    && B::converts_to(b, vb)
                    && C::converts_to(c, vc)
                    && D::converts_to(d, vd)
                    && E::converts_to(e, ve)
                    && F::converts_to(f, vf)
                    && #[trigger] call_ensures(func, (recv, va, vb, vc, vd, ve, vf), res)
                    && res.return_spec(r, calls)
        }
    }

    /// Convert the call-site handles left to right, stopping at the first
    /// failure, invoke the wrapped function on the converted values, and
    /// normalise its result. The receiver handle is converted first, then
    /// each argument; a conversion failure means the function is never
    /// invoked.
    pub fn call_convert_value(self, rb_self: Value, a: Value, b: Value, c: Value, d: Value, e: Value, f: Value, sink: &mut BlockSink) -> (r: Result<
        Value,
        Error,
    >)
        requires
            forall|recv: RbSelf, va: A, vb: B, vc: C, vd: D, ve: E, vf: F|
                RbSelf::converts_to(rb_self, recv)
                    && A::converts_to(a, va)
                    && B::converts_to(b, vb)
                    && C::converts_to(c, vc)
                    && D::converts_to(d, vd)
                    && E::converts_to(e, ve)
                    && F::converts_to(f, vf)
                    ==> #[trigger] call_requires(self.func, (recv, va, vb, vc, vd, ve, vf)),
        ensures
            old(sink).calls@.is_prefix_of(final(sink).calls@),
            Self::dispatch(
                self.func,
                rb_self, a, b, c, d, e, f, r,
                final(sink).calls@.skip(old(sink).calls@.len() as int),
            ),
    {
        let recv = match RbSelf::try_convert(rb_self) {
            Ok(v) => v,
            Err(err) => {
                proof {
                    lemma_sink_unchanged(sink.calls@);
                }
                return Err(err.at_position(Position::Receiver));
            },
        };
        let va = match A::try_convert(a) {
            Ok(v) => v,
            Err(err) => {
                proof {
                    lemma_sink_unchanged(sink.calls@);
                }
                return Err(err.at_position(Position::Index(0)));
            },
        };
        let vb = match B::try_convert(b) {
            Ok(v) => v,
            Err(err) => {
                proof {
                    lemma_sink_unchanged(sink.calls@);
                }
                return Err(err.at_position(Position::Index(1)));
            },
        };
        let vc = match C::try_convert(c) {
            Ok(v) => v,
            Err(err) => {
                proof {
                    lemma_sink_unchanged(sink.calls@);
                }
                return Err(err.at_position(Position::Index(2)));
            },
        };
        let vd = match D::try_convert(d) {
            Ok(v) => v,
            Err(err) => {
                proof {
                    lemma_sink_unchanged(sink.calls@);
                }
                return Err(err.at_position(Position::Index(3)));
            },
        };
        let ve = match E::try_convert(e) {
            Ok(v) => v,
            Err(err) => {
                proof {
                    lemma_sink_unchanged(sink.calls@);
                }
                return Err(err.at_position(Position::Index(4)));
            },
        };
        let vf = match F::try_convert(f) {
            Ok(v) => v,
            Err(err) => {
                proof {
                    lemma_sink_unchanged(sink.calls@);
                }
                return Err(err.at_position(Position::Index(5)));
            },
        };
        let res = (self.func)(recv, va, vb, vc, vd, ve, vf);
        let out = res.into_return_value(sink);
        proof {
            assert(RbSelf::converts_to(rb_self, recv)
                && A::converts_to(a, va)
                && B::converts_to(b, vb)
                && C::converts_to(c, vc)
                && D::converts_to(d, vd)
                && E::converts_to(e, ve)
                && F::converts_to(f, vf));
            assert(call_ensures(self.func, (recv, va, vb, vc, vd, ve, vf), res));
        }
        out
    }
}

/// Adapter exposing a native function as a host method taking self and
/// seven positional arguments, with typed conversion of every
/// call-site handle, result normalisation and a single error path.
pub struct Method7<Func, RbSelf, A, B, C, D, E, F, G, Res> {
    /// The wrapped native function.
    pub func: Func,
    pub rb_self: PhantomData<RbSelf>,
    pub a: PhantomData<A>,
    pub b: PhantomData<B>,
    pub c: PhantomData<C>,
    pub d: PhantomData<D>,
    pub e: PhantomData<E>,
    pub f: PhantomData<F>,
    pub g: PhantomData<G>,
    pub res: PhantomData<Res>,
}

impl<Func, RbSelf, A, B, C, D, E, F, G, Res> Method7<Func, RbSelf, A, B, C, D, E, F, G, Res> where
    Func: Fn(RbSelf, A, B, C, D, E, F, G) -> Res,
    RbSelf: TryConvert,
    A: TryConvert,
    B: TryConvert,
    C: TryConvert,
    D: TryConvert,
    E: TryConvert,
    F: TryConvert,
    G: TryConvert,
    Res: ReturnValue,
 {
    /// Wrap `func`.
    pub fn new(func: Func) -> (m: Self)
        ensures
            m.func == func,
    {
        Method7 { func, rb_self: PhantomData, a: PhantomData, b: PhantomData, c: PhantomData, d: PhantomData, e: PhantomData, f: PhantomData, g: PhantomData, res: PhantomData }
    }

    /// What invoking the adapter yields: the first handle that fails to
    /// convert wins and is reported with its slot, and the wrapped function
    /// is then not invoked; when every handle converts, the function's
    /// result, normalised, with `calls` the block invocations recorded while
    /// normalising it.
    pub open spec fn dispatch(
        func: Func,
        rb_self: Value,
        a: Value,
        b: Value,
        c: Value,
        d: Value,
        e: Value,
        f: Value,
        g: Value,
        r: Result<Value, Error>,
        calls: Seq<BlockCall>,
    ) -> bool {
        if !RbSelf::convertible(rb_self) {
            calls.len() == 0 && (r matches Err(err) && err.is_conversion_failure_at(
                Position::Receiver,
                RbSelf::fail_spec(rb_self),
            ))
        } else if !A::convertible(a) {
            calls.len() == 0 && (r matches Err(err) && err.is_conversion_failure_at(
                Position::Index(0),
                A::fail_spec(a),
            ))
        } else if !B::convertible(b) {
            calls.len() == 0 && (r matches Err(err) && err.is_conversion_failure_at(
                Position::Index(1),
                B::fail_spec(b),
            ))
        } else if !C::convertible(c) {
            calls.len() == 0 && (r matches Err(err) && err.is_conversion_failure_at(
                Position::Index(2),
                C::fail_spec(c),
            ))
        } else if !D::convertible(d) {
            calls.len() == 0 && (r matches Err(err) && err.is_conversion_failure_at(
                Position::Index(3),
                D::fail_spec(d),
            ))
        } else if !E::convertible(e) {
            calls.len() == 0 && (r matches Err(err) && err.is_conversion_failure_at(
                Position::Index(4),
                E::fail_spec(e),
            ))
        } else if !F::convertible(f) {
            calls.len() == 0 && (r matches Err(err) && err.is_conversion_failure_at(
                Position::Index(5),
                F::fail_spec(f),
            ))
        } else if !G::convertible(g) {
            calls.len() == 0 && (r matches Err(err) && err.is_conversion_failure_at(
                Position::Index(6),
                G::fail_spec(g),
            ))
        } else {
            exists|recv: RbSelf, va: A, vb: B, vc: C, vd: D, ve: E, vf: F, vg: G, res: Res|
                RbSelf::converts_to(rb_self, recv)
                    && A::converts_to(a, va)
                    && B::converts_to(b, vb)
                    && C::converts_to(c, vc)
                    && D::converts_to(d, vd)
                    && E::converts_to(e, ve)
                    && F::converts_to(f, vf)
                    && G::converts_to(g, vg)
                    && #[trigger] call_ensures(func, (recv, va, vb, vc, vd, ve, vf, vg), res)
                    && res.return_spec(r, calls)
        }
    }

    /// Convert the call-site handles left to right, stopping at the first
    /// failure, invoke the wrapped function on the converted values, and
    /// normalise its result. The receiver handle is converted first, then
    /// each argument; a conversion failure means the function is never
    /// invoked.
    pub fn call_convert_value(self, rb_self: Value, a: Value, b: Value, c: Value, d: Value, e: Value, f: Value, g: Value, sink: &mut BlockSink) -> (r: Result<
        Value,
        Error,
    >)
        requires
            forall|recv: RbSelf, va: A, vb: B, vc: C, vd: D, ve: E, vf: F, vg: G|
                RbSelf::converts_to(rb_self, recv)
                    && A::converts_to(a, va)
                    && B::converts_to(b, vb)
                    && C::converts_to(c, vc)
                    && D::converts_to(d, vd)
                    && E::converts_to(e, ve)
                    && F::converts_to(f, vf)
                    && G::converts_to(g, vg)
                    ==> #[trigger] call_requires(self.func, (recv, va, vb, vc, vd, ve, vf, vg)),
        ensures
            old(sink).calls@.is_prefix_of(final(sink).calls@),
            Self::dispatch(
                self.func,
                rb_self, a, b, c, d, e, f, g, r,
                final(sink).calls@.skip(old(sink).calls@.len() as int),
            ),
    {
        let recv = match RbSelf::try_convert(rb_self) {
            Ok(v) => v,
            Err(err) => {
                proof {
                    lemma_sink_unchanged(sink.calls@);
                }
                return Err(err.at_position(Position::Receiver));
            },
        };
        let va = match A::try_convert(a) {
            Ok(v) => v,
            Err(err) => {
                proof {
                    lemma_sink_unchanged(sink.calls@);
                }
                return Err(err.at_position(Position::Index(0)));
            },
        };
        let vb = match B::try_convert(b) {
            Ok(v) => v,
            Err(err) => {
                proof {
                    lemma_sink_unchanged(sink.calls@);
                }
                return Err(err.at_position(Position::Index(1)));
            },
        };
        let vc = match C::try_convert(c) {
            Ok(v) => v,
            Err(err) => {
                proof {
                    lemma_sink_unchanged(sink.calls@);
                }
                return Err(err.at_position(Position::Index(2)));
            },
        };
        let vd = match D::try_convert(d) {
            Ok(v) => v,
            Err(err) => {
                proof {
                    lemma_sink_unchanged(sink.calls@);
                }
                return Err(err.at_position(Position::Index(3)));
            },
        };
        let ve = match E::try_convert(e) {
            Ok(v) => v,
            Err(err) => {
                proof {
                    lemma_sink_unchanged(sink.calls@);
                }
                return Err(err.at_position(Position::Index(4)));
            },
        };
        let vf = match F::try_convert(f) {
            Ok(v) => v,
            Err(err) => {
                proof {
                    lemma_sink_unchanged(sink.calls@);
                }
                return Err(err.at_position(Position::Index(5)));
            },
        };
        let vg = match G::try_convert(g) {
            Ok(v) => v,
            Err(err) => {
                proof {
                    lemma_sink_unchanged(sink.calls@);
                }
                return Err(err.at_position(Position::Index(6)));
            },
        };
        let res = (self.func)(recv, va, vb, vc, vd, ve, vf, vg);
        let out = res.into_return_value(sink);
        proof {
            assert(RbSelf::converts_to(rb_self, recv)
                && A::converts_to(a, va)
                && B::converts_to(b, vb)
                && C::converts_to(c, vc)
                && D::converts_to(d, vd)
                && E::converts_to(e, ve)
                && F::converts_to(f, vf)
                && G::converts_to(g, vg));
            assert(call_ensures(self.func, (recv, va, vb, vc, vd, ve, vf, vg), res));
        }
        out
    }
}

/// Adapter exposing a native function as a host method taking self and
/// eight positional arguments, with typed conversion of every
/// call-site handle, result normalisation and a single error path.
pub struct Method8<Func, RbSelf, A, B, C, D, E, F, G, H, Res> {
    /// The wrapped native function.
    pub func: Func,
    pub rb_self: PhantomData<RbSelf>,
    pub a: PhantomData<A>,
    pub b: PhantomData<B>,
    pub c: PhantomData<C>,
    pub d: PhantomData<D>,
    pub e: PhantomData<E>,
    pub f: PhantomData<F>,
    pub g: PhantomData<G>,
    pub h: PhantomData<H>,
    pub res: PhantomData<Res>,
}

impl<Func, RbSelf, A, B, C, D, E, F, G, H, Res> Method8<Func, RbSelf, A, B, C, D, E, F, G, H, Res> where
    Func: Fn(RbSelf, A, B, C, D, E, F, G, H) -> Res,
    RbSelf: TryConvert,
    A: TryConvert,
    B: TryConvert,
    C: TryConvert,
    D: TryConvert,
    E: TryConvert,
    F: TryConvert,
    G: TryConvert,
    H: TryConvert,
    Res: ReturnValue,
 {
    /// Wrap `func`.
    pub fn new(func: Func) -> (m: Self)
        ensures
            m.func == func,
    {
        Method8 { func, rb_self: PhantomData, a: PhantomData, b: PhantomData, c: PhantomData, d: PhantomData, e: PhantomData, f: PhantomData, g: PhantomData, h: PhantomData, res: PhantomData }
    }

    /// What invoking the adapter yields: the first handle that fails to
    /// convert wins and is reported with its slot, and the wrapped function
    /// is then not invoked; when every handle converts, the function's
    /// result, normalised, with `calls` the block invocations recorded while
    /// normalising it.
    pub open spec fn dispatch(
        func: Func,
        rb_self: Value,
        a: Value,
        b: Value,
        c: Value,
        d: Value,
        e: Value,
        f: Value,
        g: Value,
        h: Value,
        r: Result<Value, Error>,
        calls: Seq<BlockCall>,
    ) -> bool {
        if !RbSelf::convertible(rb_self) {
            calls.len() == 0 && (r matches Err(err) && err.is_conversion_failure_at(
                Position::Receiver,
                RbSelf::fail_spec(rb_self),
            ))
        } else if !A::convertible(a) {
            calls.len() == 0 && (r matches Err(err) && err.is_conversion_failure_at(
                Position::Index(0),
                A::fail_spec(a),
            ))
        } else if !B::convertible(b) {
            calls.len() == 0 && (r matches Err(err) && err.is_conversion_failure_at(
                Position::Index(1),
                B::fail_spec(b),
            ))
        } else if !C::convertible(c) {
            calls.len() == 0 && (r matches Err(err) && err.is_conversion_failure_at(
                Position::Index(2),
                C::fail_spec(c),
            ))
        } else if !D::convertible(d) {
            calls.len() == 0 && (r matches Err(err) && err.is_conversion_failure_at(
                Position::Index(3),
                D::fail_spec(d),
            ))
        } else if !E::convertible(e) {
            calls.len() == 0 && (r matches Err(err) && err.is_conversion_failure_at(
                Position::Index(4),
                E::fail_spec(e),
            ))
        } else if !F::convertible(f) {
            calls.len() == 0 && (r matches Err(err) && err.is_conversion_failure_at(
                Position::Index(5),
                F::fail_spec(f),
            ))
        } else if !G::convertible(g) {
            calls.len() == 0 && (r matches Err(err) && err.is_conversion_failure_at(
                Position::Index(6),
                G::fail_spec(g),
            ))
        } else if !H::convertible(h) {
            calls.len() == 0 && (r matches Err(err) && err.is_conversion_failure_at(
                Position::Index(7),
                H::fail_spec(h),
            ))
        } else {
            exists|recv: RbSelf, va: A, vb: B, vc: C, vd: D, ve: E, vf: F, vg: G, vh: H, res: Res|
                RbSelf::converts_to(rb_self, recv)
                    && A::converts_to(a, va)
                    && B::converts_to(b, vb)
                    && C::converts_to(c, vc)
                    && D::converts_to(d, vd)
                    && E::converts_to(e, ve)
                    && F::converts_to(f, vf)
                    && G::converts_to(g, vg)
                    && H::converts_to(h, vh)
                    && #[trigger] call_ensures(func, (recv, va, vb, vc, vd, ve, vf, vg, vh), res)
                    && res.return_spec(r, calls)
        }
    }

    /// Convert the call-site handles left to right, stopping at the first
    /// failure, invoke the wrapped function on the converted values, and
    /// normalise its result. The receiver handle is converted first, then
    /// each argument; a conversion failure means the function is never
    /// invoked.
    pub fn call_convert_value(self, rb_self: Value, a: Value, b: Value, c: Value, d: Value, e: Value, f: Value, g: Value, h: Value, sink: &mut BlockSink) -> (r: Result<
        Value,
        Error,
    >)
        requires
            forall|recv: RbSelf, va: A, vb: B, vc: C, vd: D, ve: E, vf: F, vg: G, vh: H|
                RbSelf::converts_to(rb_self, recv)
                    && A::converts_to(a, va)
                    && B::converts_to(b, vb)
                    && C::converts_to(c, vc)
                    && D::converts_to(d, vd)
                    && E::converts_to(e, ve)
                    && F::converts_to(f, vf)
                    && G::converts_to(g, vg)
                    && H::converts_to(h, vh)
                    ==> #[trigger] call_requires(self.func, (recv, va, vb, vc, vd, ve, vf, vg, vh)),
        ensures
            old(sink).calls@.is_prefix_of(final(sink).calls@),
            Self::dispatch(
                self.func,
                rb_self, a, b, c, d, e, f, g, h, r,
                final(sink).calls@.skip(old(sink).calls@.len() as int),
            ),
    {
        let recv = match RbSelf::try_convert(rb_self) {
            Ok(v) => v,
            Err(err) => {
                proof {
                    lemma_sink_unchanged(sink.calls@);
                }
                return Err(err.at_position(Position::Receiver));
            },
        };
        let va = match A::try_convert(a) {
            Ok(v) => v,
            Err(err) => {
                proof {
                    lemma_sink_unchanged(sink.calls@);
                }
                return Err(err.at_position(Position::Index(0)));
            },
        };
        let vb = match B::try_convert(b) {
            Ok(v) => v,
            Err(err) => {
                proof {
                    lemma_sink_unchanged(sink.calls@);
                }
                return Err(err.at_position(Position::Index(1)));
            },
        };
        let vc = match C::try_convert(c) {
            Ok(v) => v,
            Err(err) => {
                proof {
                    lemma_sink_unchanged(sink.calls@);
                }
                return Err(err.at_position(Position::Index(2)));
            },
        };
        let vd = match D::try_convert(d) {
            Ok(v) => v,
            Err(err) => {
                proof {
                    lemma_sink_unchanged(sink.calls@);
                }
                return Err(err.at_position(Position::Index(3)));
            },
        };
        let ve = match E::try_convert(e) {
            Ok(v) => v,
            Err(err) => {
                proof {
                    lemma_sink_unchanged(sink.calls@);
                }
                return Err(err.at_position(Position::Index(4)));
            },
        };
        let vf = match F::try_convert(f) {
            Ok(v) => v,
            Err(err) => {
                proof {
                    lemma_sink_unchanged(sink.calls@);
                }
                return Err(err.at_position(Position::Index(5)));
            },
        };
        let vg = match G::try_convert(g) {
            Ok(v) => v,
            Err(err) => {
                proof {
                    lemma_sink_unchanged(sink.calls@);
                }
                return Err(err.at_position(Position::Index(6)));
            },
        };
        let vh = match H::try_convert(h) {
            Ok(v) => v,
            Err(err) => {
                proof {
                    lemma_sink_unchanged(sink.calls@);
                }
                return Err(err.at_position(Position::Index(7)));
            },
        };
        let res = (self.func)(recv, va, vb, vc, vd, ve, vf, vg, vh);
        let out = res.into_return_value(sink);
        proof {
            assert(RbSelf::converts_to(rb_self, recv)
                && A::converts_to(a, va)
                && B::converts_to(b, vb)
                && C::converts_to(c, vc)
                && D::converts_to(d, vd)
                && E::converts_to(e, ve)
                && F::converts_to(f, vf)
                && G::converts_to(g, vg)
                && H::converts_to(h, vh));
            assert(call_ensures(self.func, (recv, va, vb, vc, vd, ve, vf, vg, vh), res));
        }
        out
    }
}

/// Adapter exposing a native function as a host method taking self and
/// nine positional arguments, with typed conversion of every
/// call-site handle, result normalisation and a single error path.
pub struct Method9<Func, RbSelf, A, B, C, D, E, F, G, H, I, Res> {
    /// The wrapped native function.
    pub func: Func,
    pub rb_self: PhantomData<RbSelf>,
    pub a: PhantomData<A>,
    pub b: PhantomData<B>,
    pub c: PhantomData<C>,
    pub d: PhantomData<D>,
    pub e: PhantomData<E>,
    pub f: PhantomData<F>,
    pub g: PhantomData<G>,
    pub h: PhantomData<H>,
    pub i: PhantomData<I>,
    pub res: PhantomData<Res>,
}

impl<Func, RbSelf, A, B, C, D, E, F, G, H, I, Res> Method9<Func, RbSelf, A, B, C, D, E, F, G, H, I, Res> where
    Func: Fn(RbSelf, A, B, C, D, E, F, G, H, I) -> Res,
    RbSelf: TryConvert,
    A: TryConvert,
    B: TryConvert,
    C: TryConvert,
    D: TryConvert,
    E: TryConvert,
    F: TryConvert,
    G: TryConvert,
    H: TryConvert,
    I: TryConvert,
    Res: ReturnValue,
 {
    /// Wrap `func`.
    pub fn new(func: Func) -> (m: Self)
        ensures
            m.func == func,
    {
        Method9 { func, rb_self: PhantomData, a: PhantomData, b: PhantomData, c: PhantomData, d: PhantomData, e: PhantomData, f: PhantomData, g: PhantomData, h: PhantomData, i: PhantomData, res: PhantomData }
    }

    /// What invoking the adapter yields: the first handle that fails to
    /// convert wins and is reported with its slot, and the wrapped function
    /// is then not invoked; when every handle converts, the function's
    /// result, normalised, with `calls` the block invocations recorded while
    /// normalising it.
    pub open spec fn dispatch(
        func: Func,
        rb_self: Value,
        a: Value,
        b: Value,
        c: Value,
        d: Value,
        e: Value,
        f: Value,
        g: Value,
        h: Value,
        i: Value,
        r: Result<Value, Error>,
        calls: Seq<BlockCall>,
    ) -> bool {
        if !RbSelf::convertible(rb_self) {
            calls.len() == 0 && (r matches Err(err) && err.is_conversion_failure_at(
                Position::Receiver,
                RbSelf::fail_spec(rb_self),
            ))
        } else if !A::convertible(a) {
            calls.len() == 0 && (r matches Err(err) && err.is_conversion_failure_at(
                Position::Index(0),
                A::fail_spec(a),
            ))
        } else if !B::convertible(b) {
            calls.len() == 0 && (r matches Err(err) && err.is_conversion_failure_at(
                Position::Index(1),
                B::fail_spec(b),
            ))
        } else if !C::convertible(c) {
            calls.len() == 0 && (r matches Err(err) && err.is_conversion_failure_at(
                Position::Index(2),
                C::fail_spec(c),
            ))
        } else if !D::convertible(d) {
            calls.len() == 0 && (r matches Err(err) && err.is_conversion_failure_at(
                Position::Index(3),
                D::fail_spec(d),
            ))
        } else if !E::convertible(e) {
            calls.len() == 0 && (r matches Err(err) && err.is_conversion_failure_at(
                Position::Index(4),
                E::fail_spec(e),
            ))
        } else if !F::convertible(f) {
            calls.len() == 0 && (r matches Err(err) && err.is_conversion_failure_at(
                Position::Index(5),
                F::fail_spec(f),
            ))
        } else if !G::convertible(g) {
            calls.len() == 0 && (r matches Err(err) && err.is_conversion_failure_at(
                Position::Index(6),
                G::fail_spec(g),
            ))
        } else if !H::convertible(h) {
            calls.len() == 0 && (r matches Err(err) && err.is_conversion_failure_at(
                Position::Index(7),
                H::fail_spec(h),
            ))
        } else if !I::convertible(i) {
            calls.len() == 0 && (r matches Err(err) && err.is_conversion_failure_at(
                Position::Index(8),
                I::fail_spec(i),
            ))
        } else {
            exists|recv: RbSelf, va: A, vb: B, vc: C, vd: D, ve: E, vf: F, vg: G, vh: H, vi: I, res: Res|
                RbSelf::converts_to(rb_self, recv)
                    && A::converts_to(a, va)
                    && B::converts_to(b, vb)
                    && C::converts_to(c, vc)
                    && D::converts_to(d, vd)
                    && E::converts_to(e, ve)
                    && F::converts_to(f, vf)
                    && G::converts_to(g, vg)
                    && H::converts_to(h, vh)
                    && I::converts_to(i, vi)
                    && #[trigger] call_ensures(func, (recv, va, vb, vc, vd, ve, vf, vg, vh, vi), res)
                    && res.return_spec(r, calls)
        }
    }

    /// Convert the call-site handles left to right, stopping at the first
    /// failure, invoke the wrapped function on the converted values, and
    /// normalise its result. The receiver handle is converted first, then
    /// each argument; a conversion failure means the function is never
    /// invoked.
    pub fn call_convert_value(self, rb_self: Value, a: Value, b: Value, c: Value, d: Value, e: Value, f: Value, g: Value, h: Value, i: Value, sink: &mut BlockSink) -> (r: Result<
        Value,
        Error,
    >)
        requires
            forall|recv: RbSelf, va: A, vb: B, vc: C, vd: D, ve: E, vf: F, vg: G, vh: H, vi: I|
                RbSelf::converts_to(rb_self, recv)
                    && A::converts_to(a, va)
                    && B::converts_to(b, vb)
                    && C::converts_to(c, vc)
                    && D::converts_to(d, vd)
                    && E::converts_to(e, ve)
                    && F::converts_to(f, vf)
                    && G::converts_to(g, vg)
                    && H::converts_to(h, vh)
                    && I::converts_to(i, vi)
                    ==> #[trigger] call_requires(self.func, (recv, va, vb, vc, vd, ve, vf, vg, vh, vi)),
        ensures
            old(sink).calls@.is_prefix_of(final(sink).calls@),
            Self::dispatch(
                self.func,
                rb_self, a, b, c, d, e, f, g, h, i, r,
                final(sink).calls@.skip(old(sink).calls@.len() as int),
            ),
    {
        let recv = match RbSelf::try_convert(rb_self) {
            Ok(v) => v,
            Err(err) => {
                proof {
                    lemma_sink_unchanged(sink.calls@);
                }
                return Err(err.at_position(Position::Receiver));
            },
        };
        let va = match A::try_convert(a) {
            Ok(v) => v,
            Err(err) => {
                proof {
                    lemma_sink_unchanged(sink.calls@);
                }
                return Err(err.at_position(Position::Index(0)));
            },
        };
        let vb = match B::try_convert(b) {
            Ok(v) => v,
            Err(err) => {
                proof {
                    lemma_sink_unchanged(sink.calls@);
                }
                return Err(err.at_position(Position::Index(1)));
            },
        };
        let vc = match C::try_convert(c) {
            Ok(v) => v,
            Err(err) => {
                proof {
                    lemma_sink_unchanged(sink.calls@);
                }
                return Err(err.at_position(Position::Index(2)));
            },
        };
        let vd = match D::try_convert(d) {
            Ok(v) => v,
            Err(err) => {
                proof {
                    lemma_sink_unchanged(sink.calls@);
                }
                return Err(err.at_position(Position::Index(3)));
            },
        };
        let ve = match E::try_convert(e) {
            Ok(v) => v,
            Err(err) => {
                proof {
                    lemma_sink_unchanged(sink.calls@);
                }
                return Err(err.at_position(Position::Index(4)));
            },
        };
        let vf = match F::try_convert(f) {
            Ok(v) => v,
            Err(err) => {
                proof {
                    lemma_sink_unchanged(sink.calls@);
                }
                return Err(err.at_position(Position::Index(5)));
            },
        };
        let vg = match G::try_convert(g) {
            Ok(v) => v,
            Err(err) => {
                proof {
                    lemma_sink_unchanged(sink.calls@);
                }
                return Err(err.at_position(Position::Index(6)));
            },
        };
        let vh = match H::try_convert(h) {
            Ok(v) => v,
            Err(err) => {
                proof {
                    lemma_sink_unchanged(sink.calls@);
                }
                return Err(err.at_position(Position::Index(7)));
            },
        };
        let vi = match I::try_convert(i) {
            Ok(v) => v,
            Err(err) => {
                proof {
                    lemma_sink_unchanged(sink.calls@);
                }
                return Err(err.at_position(Position::Index(8)));
            },
        };
        let res = (self.func)(recv, va, vb, vc, vd, ve, vf, vg, vh, vi);
        let out = res.into_return_value(sink);
        proof {
            assert(RbSelf::converts_to(rb_self, recv)
                && A::converts_to(a, va)
                && B::converts_to(b, vb)
                && C::converts_to(c, vc)
                && D::converts_to(d, vd)
                && E::converts_to(e, ve)
                && F::converts_to(f, vf)
                && G::converts_to(g, vg)
                && H::converts_to(h, vh)
                && I::converts_to(i, vi));
            assert(call_ensures(self.func, (recv, va, vb, vc, vd, ve, vf, vg, vh, vi), res));
        }
        out
    }
}

/// Adapter exposing a native function as a host method taking self and
/// ten positional arguments, with typed conversion of every
/// call-site handle, result normalisation and a single error path.
pub struct Method10<Func, RbSelf, A, B, C, D, E, F, G, H, I, J, Res> {
    /// The wrapped native function.
    pub func: Func,
    pub rb_self: PhantomData<RbSelf>,
    pub a: PhantomData<A>,
    pub b: PhantomData<B>,
    pub c: PhantomData<C>,
    pub d: PhantomData<D>,
    pub e: PhantomData<E>,
    pub f: PhantomData<F>,
    pub g: PhantomData<G>,
    pub h: PhantomData<H>,
    pub i: PhantomData<I>,
    pub j: PhantomData<J>,
    pub res: PhantomData<Res>,
}

impl<Func, RbSelf, A, B, C, D, E, F, G, H, I, J, Res> Method10<Func, RbSelf, A, B, C, D, E, F, G, H, I, J, Res> where
    Func: Fn(RbSelf, A, B, C, D, E, F, G, H, I, J) -> Res,
    RbSelf: TryConvert,
    A: TryConvert,
    B: TryConvert,
    C: TryConvert,
    D: TryConvert,
    E: TryConvert,
    F: TryConvert,
    G: TryConvert,
    H: TryConvert,
    I: TryConvert,
    J: TryConvert,
    Res: ReturnValue,
 {
    /// Wrap `func`.
    pub fn new(func: Func) -> (m: Self)
        ensures
            m.func == func,
    {
        Method10 { func, rb_self: PhantomData, a: PhantomData, b: PhantomData, c: PhantomData, d: PhantomData, e: PhantomData, f: PhantomData, g: PhantomData, h: PhantomData, i: PhantomData, j: PhantomData, res: PhantomData }
    }

    /// What invoking the adapter yields: the first handle that fails to
    /// convert wins and is reported with its slot, and the wrapped function
    /// is then not invoked; when every handle converts, the function's
    /// result, normalised, with `calls` the block invocations recorded while
    /// normalising it.
    pub open spec fn dispatch(
        func: Func,
        rb_self: Value,
        a: Value,
        b: Value,
        c: Value,
        d: Value,
        e: Value,
        f: Value,
        g: Value,
        h: Value,
        i: Value,
        j: Value,
        r: Result<Value, Error>,
        calls: Seq<BlockCall>,
    ) -> bool {
        if !RbSelf::convertible(rb_self) {
            calls.len() == 0 && (r matches Err(err) && err.is_conversion_failure_at(
                Position::Receiver,
                RbSelf::fail_spec(rb_self),
            ))
        } else if !A::convertible(a) {
            calls.len() == 0 && (r matches Err(err) && err.is_conversion_failure_at(
                Position::Index(0),
                A::fail_spec(a),
            ))
        } else if !B::convertible(b) {
            calls.len() == 0 && (r matches Err(err) && err.is_conversion_failure_at(
                Position::Index(1),
                B::fail_spec(b),
            ))
        } else if !C::convertible(c) {
            calls.len() == 0 && (r matches Err(err) && err.is_conversion_failure_at(
                Position::Index(2),
                C::fail_spec(c),
            ))
        } else if !D::convertible(d) {
            calls.len() == 0 && (r matches Err(err) && err.is_conversion_failure_at(
                Position::Index(3),
                D::fail_spec(d),
            ))
        } else if !E::convertible(e) {
            calls.len() == 0 && (r matches Err(err) && err.is_conversion_failure_at(
                Position::Index(4),
                E::fail_spec(e),
            ))
        } else if !F::convertible(f) {
            calls.len() == 0 && (r matches Err(err) && err.is_conversion_failure_at(
                Position::Index(5),
                F::fail_spec(f),
            ))
        } else if !G::convertible(g) {
            calls.len() == 0 && (r matches Err(err) && err.is_conversion_failure_at(
                Position::Index(6),
                G::fail_spec(g),
            ))
        } else if !H::convertible(h) {
            calls.len() == 0 && (r matches Err(err) && err.is_conversion_failure_at(
                Position::Index(7),
                H::fail_spec(h),
            ))
        } else if !I::convertible(i) {
            calls.len() == 0 && (r matches Err(err) && err.is_conversion_failure_at(
                Position::Index(8),
                I::fail_spec(i),
            ))
        } else if !J::convertible(j) {
            calls.len() == 0 && (r matches Err(err) && err.is_conversion_failure_at(
                Position::Index(9),
                J::fail_spec(j),
            ))
        } else {
            exists|recv: RbSelf, va: A, vb: B, vc: C, vd: D, ve: E, vf: F, vg: G, vh: H, vi: I, vj: J, res: Res|
                RbSelf::converts_to(rb_self, recv)
                    && A::converts_to(a, va)
                    && B::converts_to(b, vb)
                    && C::converts_to(c, vc)
                    && D::converts_to(d, vd)
                    && E::converts_to(e, ve)
                    && F::converts_to(f, vf)
                    && G::converts_to(g, vg)
                    && H::converts_to(h, vh)
                    && I::converts_to(i, vi)
                    && J::converts_to(j, vj)
                    && #[trigger] call_ensures(func, (recv, va, vb, vc, vd, ve, vf, vg, vh, vi, vj), res)
                    && res.return_spec(r, calls)
        }
    }

    /// Convert the call-site handles left to right, stopping at the first
    /// failure, invoke the wrapped function on the converted values, and
    /// normalise its result. The receiver handle is converted first, then
    /// each argument; a conversion failure means the function is never
    /// invoked.
    pub fn call_convert_value(self, rb_self: Value, a: Value, b: Value, c: Value, d: Value, e: Value, f: Value, g: Value, h: Value, i: Value, j: Value, sink: &mut BlockSink) -> (r: Result<
        Value,
        Error,
    >)
        requires
            forall|recv: RbSelf, va: A, vb: B, vc: C, vd: D, ve: E, vf: F, vg: G, vh: H, vi: I, vj: J|
                RbSelf::converts_to(rb_self, recv)
                    && A::converts_to(a, va)
                    && B::converts_to(b, vb)
                    && C::converts_to(c, vc)
                    && D::converts_to(d, vd)
                    && E::converts_to(e, ve)
                    && F::converts_to(f, vf)
                    && G::converts_to(g, vg)
                    && H::converts_to(h, vh)
                    && I::converts_to(i, vi)
                    && J::converts_to(j, vj)
                    ==> #[trigger] call_requires(self.func, (recv, va, vb, vc, vd, ve, vf, vg, vh, vi, vj)),
        ensures
            old(sink).calls@.is_prefix_of(final(sink).calls@),
            Self::dispatch(
                self.func,
                rb_self, a, b, c, d, e, f, g, h, i, j, r,
                final(sink).calls@.skip(old(sink).calls@.len() as int),
            ),
    {
        let recv = match RbSelf::try_convert(rb_self) {
            Ok(v) => v,
            Err(err) => {
                proof {
                    lemma_sink_unchanged(sink.calls@);
                }
                return Err(err.at_position(Position::Receiver));
            },
        };
        let va = match A::try_convert(a) {
            Ok(v) => v,
            Err(err) => {
                proof {
                    lemma_sink_unchanged(sink.calls@);
                }
                return Err(err.at_position(Position::Index(0)));
            },
        };
        let vb = match B::try_convert(b) {
            Ok(v) => v,
            Err(err) => {
                proof {
                    lemma_sink_unchanged(sink.calls@);
                }
                return Err(err.at_position(Position::Index(1)));
            },
        };
        let vc = match C::try_convert(c) {
            Ok(v) => v,
            Err(err) => {
                proof {
                    lemma_sink_unchanged(sink.calls@);
                }
                return Err(err.at_position(Position::Index(2)));
            },
        };
        let vd = match D::try_convert(d) {
            Ok(v) => v,
            Err(err) => {
                proof {
                    lemma_sink_unchanged(sink.calls@);
                }
                return Err(err.at_position(Position::Index(3)));
            },
        };
        let ve = match E::try_convert(e) {
            Ok(v) => v,
            Err(err) => {
                proof {
                    lemma_sink_unchanged(sink.calls@);
                }
                return Err(err.at_position(Position::Index(4)));
            },
        };
        let vf = match F::try_convert(f) {
            Ok(v) => v,
            Err(err) => {
                proof {
                    lemma_sink_unchanged(sink.calls@);
                }
                return Err(err.at_position(Position::Index(5)));
            },
        };
        let vg = match G::try_convert(g) {
            Ok(v) => v,
            Err(err) => {
                proof {
                    lemma_sink_unchanged(sink.calls@);
                }
                return Err(err.at_position(Position::Index(6)));
            },
        };
        let vh = match H::try_convert(h) {
            Ok(v) => v,
            Err(err) => {
                proof {
                    lemma_sink_unchanged(sink.calls@);
                }
                return Err(err.at_position(Position::Index(7)));
            },
        };
        let vi = match I::try_convert(i) {
            Ok(v) => v,
            Err(err) => {
                proof {
                    lemma_sink_unchanged(sink.calls@);
                }
                return Err(err.at_position(Position::Index(8)));
            },
        };
        let vj = match J::try_convert(j) {
            Ok(v) => v,
            Err(err) => {
                proof {
                    lemma_sink_unchanged(sink.calls@);
                }
                return Err(err.at_position(Position::Index(9)));
            },
        };
        let res = (self.func)(recv, va, vb, vc, vd, ve, vf, vg, vh, vi, vj);
        let out = res.into_return_value(sink);
        proof {
            assert(RbSelf::converts_to(rb_self, recv)
                && A::converts_to(a, va)
                && B::converts_to(b, vb)
                && C::converts_to(c, vc)
                && D::converts_to(d, vd)
                && E::converts_to(e, ve)
                && F::converts_to(f, vf)
                && G::converts_to(g, vg)
                && H::converts_to(h, vh)
                && I::converts_to(i, vi)
                && J::converts_to(j, vj));
            assert(call_ensures(self.func, (recv, va, vb, vc, vd, ve, vf, vg, vh, vi, vj), res));
        }
        out
    }
}

/// Adapter exposing a native function as a host method taking self and
/// eleven positional arguments, with typed conversion of every
/// call-site handle, result normalisation and a single error path.
pub struct Method11<Func, RbSelf, A, B, C, D, E, F, G, H, I, J, K, Res> {
    /// The wrapped native function.
    pub func: Func,
    pub rb_self: PhantomData<RbSelf>,
    pub a: PhantomData<A>,
    pub b: PhantomData<B>,
    pub c: PhantomData<C>,
    pub d: PhantomData<D>,
    pub e: PhantomData<E>,
    pub f: PhantomData<F>,
    pub g: PhantomData<G>,
    pub h: PhantomData<H>,
    pub i: PhantomData<I>,
    pub j: PhantomData<J>,
    pub k: PhantomData<K>,
    pub res: PhantomData<Res>,
}

impl<Func, RbSelf, A, B, C, D, E, F, G, H, I, J, K, Res> Method11<Func, RbSelf, A, B, C, D, E, F, G, H, I, J, K, Res> where
    Func: Fn(RbSelf, A, B, C, D, E, F, G, H, I, J, K) -> Res,
    RbSelf: TryConvert,
    A: TryConvert,
    B: TryConvert,
    C: TryConvert,
    D: TryConvert,
    E: TryConvert,
    F: TryConvert,
    G: TryConvert,
    H: TryConvert,
    I: TryConvert,
    J: TryConvert,
    K: TryConvert,
    Res: ReturnValue,
 {
    /// Wrap `func`.
    pub fn new(func: Func) -> (m: Self)
        ensures
            m.func == func,
    {
        Method11 { func, rb_self: PhantomData, a: PhantomData, b: PhantomData, c: PhantomData, d: PhantomData, e: PhantomData, f: PhantomData, g: PhantomData, h: PhantomData, i: PhantomData, j: PhantomData, k: PhantomData, res: PhantomData }
    }

    /// What invoking the adapter yields: the first handle that fails to
    /// convert wins and is reported with its slot, and the wrapped function
    /// is then not invoked; when every handle converts, the function's
    /// result, normalised, with `calls` the block invocations recorded while
    /// normalising it.
    pub open spec fn dispatch(
        func: Func,
        rb_self: Value,
        a: Value,
        b: Value,
        c: Value,
        d: Value,
        e: Value,
        f: Value,
        g: Value,
        h: Value,
        i: Value,
        j: Value,
        k: Value,
        r: Result<Value, Error>,
        calls: Seq<BlockCall>,
    ) -> bool {
        if !RbSelf::convertible(rb_self) {
            calls.len() == 0 && (r matches Err(err) && err.is_conversion_failure_at(
                Position::Receiver,
                RbSelf::fail_spec(rb_self),
            ))
        } else if !A::convertible(a) {
            calls.len() == 0 && (r matches Err(err) && err.is_conversion_failure_at(
                Position::Index(0),
                A::fail_spec(a),
            ))
        } else if !B::convertible(b) {
            calls.len() == 0 && (r matches Err(err) && err.is_conversion_failure_at(
                Position::Index(1),
                B::fail_spec(b),
            ))
        } else if !C::convertible(c) {
            calls.len() == 0 && (r matches Err(err) && err.is_conversion_failure_at(
                Position::Index(2),
                C::fail_spec(c),
            ))
        } else if !D::convertible(d) {
            calls.len() == 0 && (r matches Err(err) && err.is_conversion_failure_at(
                Position::Index(3),
                D::fail_spec(d),
            ))
        } else if !E::convertible(e) {
            calls.len() == 0 && (r matches Err(err) && err.is_conversion_failure_at(
                Position::Index(4),
                E::fail_spec(e),
            ))
        } else if !F::convertible(f) {
            calls.len() == 0 && (r matches Err(err) && err.is_conversion_failure_at(
                Position::Index(5),
                F::fail_spec(f),
            ))
        } else if !G::convertible(g) {
            calls.len() == 0 && (r matches Err(err) && err.is_conversion_failure_at(
                Position::Index(6),
                G::fail_spec(g),
            ))
        } else if !H::convertible(h) {
            calls.len() == 0 && (r matches Err(err) && err.is_conversion_failure_at(
                Position::Index(7),
                H::fail_spec(h),
            ))
        } else if !I::convertible(i) {
            calls.len() == 0 && (r matches Err(err) && err.is_conversion_failure_at(
                Position::Index(8),
                I::fail_spec(i),
            ))
        } else if !J::convertible(j) {
            calls.len() == 0 && (r matches Err(err) && err.is_conversion_failure_at(
                Position::Index(9),
                J::fail_spec(j),
            ))
        } else if !K::convertible(k) {
            calls.len() == 0 && (r matches Err(err) && err.is_conversion_failure_at(
                Position::Index(10),
                K::fail_spec(k),
            ))
        } else {
            exists|recv: RbSelf, va: A, vb: B, vc: C, vd: D, ve: E, vf: F, vg: G, vh: H, vi: I, vj: J, vk: K, res: Res|
                RbSelf::converts_to(rb_self, recv)
                    && A::converts_to(a, va)
                    && B::converts_to(b, vb)
                    && C::converts_to(c, vc)
                    && D::converts_to(d, vd)
                    && E::converts_to(e, ve)
                    && F::converts_to(f, vf)
                    && G::converts_to(g, vg)
                    && H::converts_to(h, vh)
                    && I::converts_to(i, vi)
                    && J::converts_to(j, vj)
                    && K::converts_to(k, vk)
                    && #[trigger] call_ensures(func, (recv, va, vb, vc, vd, ve, vf, vg, vh, vi, vj, vk), res)
                    && res.return_spec(r, calls)
        }
    }

    /// Convert the call-site handles left to right, stopping at the first
    /// failure, invoke the wrapped function on the converted values, and
    /// normalise its result. The receiver handle is converted first, then
    /// each argument; a conversion failure means the function is never
    /// invoked.
    pub fn call_convert_value(self, rb_self: Value, a: Value, b: Value, c: Value, d: Value, e: Value, f: Value, g: Value, h: Value, i: Value, j: Value, k: Value, sink: &mut BlockSink) -> (r: Result<
        Value,
        Error,
    >)
        requires
            forall|recv: RbSelf, va: A, vb: B, vc: C, vd: D, ve: E, vf: F, vg: G, vh: H, vi: I, vj: J, vk: K|
                RbSelf::converts_to(rb_self, recv)
                    && A::converts_to(a, va)
                    && B::converts_to(b, vb)
                    && C::converts_to(c, vc)
                    && D::converts_to(d, vd)
                    && E::converts_to(e, ve)
                    && F::converts_to(f, vf)
                    && G::converts_to(g, vg)
                    && H::converts_to(h, vh)
                    && I::converts_to(i, vi)
                    && J::converts_to(j, vj)
                    && K::converts_to(k, vk)
                    ==> #[trigger] call_requires(self.func, (recv, va, vb, vc, vd, ve, vf, vg, vh, vi, vj, vk)),
        ensures
            old(sink).calls@.is_prefix_of(final(sink).calls@),
            Self::dispatch(
                self.func,
                rb_self, a, b, c, d, e, f, g, h, i, j, k, r,
                final(sink).calls@.skip(old(sink).calls@.len() as int),
            ),
    {
        let recv = match RbSelf::try_convert(rb_self) {
            Ok(v) => v,
            Err(err) => {
                proof {
                    lemma_sink_unchanged(sink.calls@);
                }
                return Err(err.at_position(Position::Receiver));
            },
        };
        let va = match A::try_convert(a) {
            Ok(v) => v,
            Err(err) => {
                proof {
                    lemma_sink_unchanged(sink.calls@);
                }
                return Err(err.at_position(Position::Index(0)));
            },
        };
        let vb = match B::try_convert(b) {
            Ok(v) => v,
            Err(err) => {
                proof {
                    lemma_sink_unchanged(sink.calls@);
                }
                return Err(err.at_position(Position::Index(1)));
            },
        };
        let vc = match C::try_convert(c) {
            Ok(v) => v,
            Err(err) => {
                proof {
                    lemma_sink_unchanged(sink.calls@);
                }
                return Err(err.at_position(Position::Index(2)));
            },
        };
        let vd = match D::try_convert(d) {
            Ok(v) => v,
            Err(err) => {
                proof {
                    lemma_sink_unchanged(sink.calls@);
                }
                return Err(err.at_position(Position::Index(3)));
            },
        };
        let ve = match E::try_convert(e) {
            Ok(v) => v,
            Err(err) => {
                proof {
                    lemma_sink_unchanged(sink.calls@);
                }
                return Err(err.at_position(Position::Index(4)));
            },
        };
        let vf = match F::try_convert(f) {
            Ok(v) => v,
            Err(err) => {
                proof {
                    lemma_sink_unchanged(sink.calls@);
                }
                return Err(err.at_position(Position::Index(5)));
            },
        };
        let vg = match G::try_convert(g) {
            Ok(v) => v,
            Err(err) => {
                proof {
                    lemma_sink_unchanged(sink.calls@);
                }
                return Err(err.at_position(Position::Index(6)));
            },
        };
        let vh = match H::try_convert(h) {
            Ok(v) => v,
            Err(err) => {
                proof {
                    lemma_sink_unchanged(sink.calls@);
                }
                return Err(err.at_position(Position::Index(7)));
            },
        };
        let vi = match I::try_convert(i) {
            Ok(v) => v,
            Err(err) => {
                proof {
                    lemma_sink_unchanged(sink.calls@);
                }
                return Err(err.at_position(Position::Index(8)));
            },
        };
        let vj = match J::try_convert(j) {
            Ok(v) => v,
            Err(err) => {
                proof {
                    lemma_sink_unchanged(sink.calls@);
                }
                return Err(err.at_position(Position::Index(9)));
            },
        };
        let vk = match K::try_convert(k) {
            Ok(v) => v,
            Err(err) => {
                proof {
                    lemma_sink_unchanged(sink.calls@);
                }
                return Err(err.at_position(Position::Index(10)));
            },
        };
        let res = (self.func)(recv, va, vb, vc, vd, ve, vf, vg, vh, vi, vj, vk);
        let out = res.into_return_value(sink);
        proof {
            assert(RbSelf::converts_to(rb_self, recv)
                && A::converts_to(a, va)
                && B::converts_to(b, vb)
                && C::converts_to(c, vc)
                && D::converts_to(d, vd)
                && E::converts_to(e, ve)
                && F::converts_to(f, vf)
                && G::converts_to(g, vg)
                && H::converts_to(h, vh)
                && I::converts_to(i, vi)
                && J::converts_to(j, vj)
                && K::converts_to(k, vk));
            assert(call_ensures(self.func, (recv, va, vb, vc, vd, ve, vf, vg, vh, vi, vj, vk), res));
        }
        out
    }
}

/// Adapter exposing a native function as a host method taking self and
/// twelve positional arguments, with typed conversion of every
/// call-site handle, result normalisation and a single error path.
pub struct Method12<Func, RbSelf, A, B, C, D, E, F, G, H, I, J, K, L, Res> {
    /// The wrapped native function.
    pub func: Func,
    pub rb_self: PhantomData<RbSelf>,
    pub a: PhantomData<A>,
    pub b: PhantomData<B>,
    pub c: PhantomData<C>,
    pub d: PhantomData<D>,
    pub e: PhantomData<E>,
    pub f: PhantomData<F>,
    pub g: PhantomData<G>,
    pub h: PhantomData<H>,
    pub i: PhantomData<I>,
    pub j: PhantomData<J>,
    pub k: PhantomData<K>,
    pub l: PhantomData<L>,
    pub res: PhantomData<Res>,
}

impl<Func, RbSelf, A, B, C, D, E, F, G, H, I, J, K, L, Res> Method12<Func, RbSelf, A, B, C, D, E, F, G, H, I, J, K, L, Res> where
    Func: Fn(RbSelf, A, B, C, D, E, F, G, H, I, J, K, L) -> Res,
    RbSelf: TryConvert,
    A: TryConvert,
    B: TryConvert,
    C: TryConvert,
    D: TryConvert,
    E: TryConvert,
    F: TryConvert,
    G: TryConvert,
    H: TryConvert,
    I: TryConvert,
    J: TryConvert,
    K: TryConvert,
    L: TryConvert,
    Res: ReturnValue,
 {
    /// Wrap `func`.
    pub fn new(func: Func) -> (m: Self)
        ensures
            m.func == func,
    {
        Method12 { func, rb_self: PhantomData, a: PhantomData, b: PhantomData, c: PhantomData, d: PhantomData, e: PhantomData, f: PhantomData, g: PhantomData, h: PhantomData, i: PhantomData, j: PhantomData, k: PhantomData, l: PhantomData, res: PhantomData }
    }

    /// What invoking the adapter yields: the first handle that fails to
    /// convert wins and is reported with its slot, and the wrapped function
    /// is then not invoked; when every handle converts, the function's
    /// result, normalised, with `calls` the block invocations recorded while
    /// normalising it.
    pub open spec fn dispatch(
        func: Func,
        rb_self: Value,
        a: Value,
        b: Value,
        c: Value,
        d: Value,
        e: Value,
        f: Value,
        g: Value,
        h: Value,
        i: Value,
        j: Value,
        k: Value,
        l: Value,
        r: Result<Value, Error>,
        calls: Seq<BlockCall>,
    ) -> bool {
        if !RbSelf::convertible(rb_self) {
            calls.len() == 0 && (r matches Err(err) && err.is_conversion_failure_at(
                Position::Receiver,
                RbSelf::fail_spec(rb_self),
            ))
        } else if !A::convertible(a) {
            calls.len() == 0 && (r matches Err(err) && err.is_conversion_failure_at(
                Position::Index(0),
                A::fail_spec(a),
            ))
        } else if !B::convertible(b) {
            calls.len() == 0 && (r matches Err(err) && err.is_conversion_failure_at(
                Position::Index(1),
                B::fail_spec(b),
            ))
        } else if !C::convertible(c) {
            calls.len() == 0 && (r matches Err(err) && err.is_conversion_failure_at(
                Position::Index(2),
                C::fail_spec(c),
            ))
        } else if !D::convertible(d) {
            calls.len() == 0 && (r matches Err(err) && err.is_conversion_failure_at(
                Position::Index(3),
                D::fail_spec(d),
            ))
        } else if !E::convertible(e) {
            calls.len() == 0 && (r matches Err(err) && err.is_conversion_failure_at(
                Position::Index(4),
                E::fail_spec(e),
            ))
        } else if !F::convertible(f) {
            calls.len() == 0 && (r matches Err(err) && err.is_conversion_failure_at(
                Position::Index(5),
                F::fail_spec(f),
            ))
        } else if !G::convertible(g) {
            calls.len() == 0 && (r matches Err(err) && err.is_conversion_failure_at(
                Position::Index(6),
                G::fail_spec(g),
            ))
        } else if !H::convertible(h) {
            calls.len() == 0 && (r matches Err(err) && err.is_conversion_failure_at(
                Position::Index(7),
                H::fail_spec(h),
            ))
        } else if !I::convertible(i) {
            calls.len() == 0 && (r matches Err(err) && err.is_conversion_failure_at(
                Position::Index(8),
                I::fail_spec(i),
            ))
        } else if !J::convertible(j) {
            calls.len() == 0 && (r matches Err(err) && err.is_conversion_failure_at(
                Position::Index(9),
                J::fail_spec(j),
            ))
        } else if !K::convertible(k) {
            calls.len() == 0 && (r matches Err(err) && err.is_conversion_failure_at(
                Position::Index(10),
                K::fail_spec(k),
            ))
        } else if !L::convertible(l) {
            calls.len() == 0 && (r matches Err(err) && err.is_conversion_failure_at(
                Position::Index(11),
                L::fail_spec(l),
            ))
        } else {
            exists|recv: RbSelf, va: A, vb: B, vc: C, vd: D, ve: E, vf: F, vg: G, vh: H, vi: I, vj: J, vk: K, vl: L, res: Res|
                RbSelf::converts_to(rb_self, recv)
                    && A::converts_to(a, va)
                    && B::converts_to(b, vb)
                    && C::converts_to(c, vc)
                    && D::converts_to(d, vd)
                    && E::converts_to(e, ve)
                    && F::converts_to(f, vf)
                    && G::converts_to(g, vg)
                    && H::converts_to(h, vh)
                    && I::converts_to(i, vi)
                    && J::converts_to(j, vj)
                    && K::converts_to(k, vk)
                    && L::converts_to(l, vl)
                    && #[trigger] call_ensures(func, (recv, va, vb, vc, vd, ve, vf, vg, vh, vi, vj, vk, vl), res)
                    && res.return_spec(r, calls)
        }
    }

    /// Convert the call-site handles left to right, stopping at the first
    /// failure, invoke the wrapped function on the converted values, and
    /// normalise its result. The receiver handle is converted first, then
    /// each argument; a conversion failure means the function is never
    /// invoked.
    pub fn call_convert_value(self, rb_self: Value, a: Value, b: Value, c: Value, d: Value, e: Value, f: Value, g: Value, h: Value, i: Value, j: Value, k: Value, l: Value, sink: &mut BlockSink) -> (r: Result<
        Value,
        Error,
    >)
        requires
            forall|recv: RbSelf, va: A, vb: B, vc: C, vd: D, ve: E, vf: F, vg: G, vh: H, vi: I, vj: J, vk: K, vl: L|
                RbSelf::converts_to(rb_self, recv)
                    && A::converts_to(a, va)
                    && B::converts_to(b, vb)
                    && C::converts_to(c, vc)
                    && D::converts_to(d, vd)
                    && E::converts_to(e, ve)
                    && F::converts_to(f, vf)
                    && G::converts_to(g, vg)
                    && H::converts_to(h, vh)
                    && I::converts_to(i, vi)
                    && J::converts_to(j, vj)
                    && K::converts_to(k, vk)
                    && L::converts_to(l, vl)
                    ==> #[trigger] call_requires(self.func, (recv, va, vb, vc, vd, ve, vf, vg, vh, vi, vj, vk, vl)),
        ensures
            old(sink).calls@.is_prefix_of(final(sink).calls@),
            Self::dispatch(
                self.func,
                rb_self, a, b, c, d, e, f, g, h, i, j, k, l, r,
                final(sink).calls@.skip(old(sink).calls@.len() as int),
            ),
    {
        let recv = match RbSelf::try_convert(rb_self) {
            Ok(v) => v,
            Err(err) => {
                proof {
                    lemma_sink_unchanged(sink.calls@);
                }
                return Err(err.at_position(Position::Receiver));
            },
        };
        let va = match A::try_convert(a) {
            Ok(v) => v,
            Err(err) => {
                proof {
                    lemma_sink_unchanged(sink.calls@);
                }
                return Err(err.at_position(Position::Index(0)));
            },
        };
        let vb = match B::try_convert(b) {
            Ok(v) => v,
            Err(err) => {
                proof {
                    lemma_sink_unchanged(sink.calls@);
                }
                return Err(err.at_position(Position::Index(1)));
            },
        };
        let vc = match C::try_convert(c) {
            Ok(v) => v,
            Err(err) => {
                proof {
                    lemma_sink_unchanged(sink.calls@);
                }
                return Err(err.at_position(Position::Index(2)));
            },
        };
        let vd = match D::try_convert(d) {
            Ok(v) => v,
            Err(err) => {
                proof {
                    lemma_sink_unchanged(sink.calls@);
                }
                return Err(err.at_position(Position::Index(3)));
            },
        };
        let ve = match E::try_convert(e) {
            Ok(v) => v,
            Err(err) => {
                proof {
                    lemma_sink_unchanged(sink.calls@);
                }
                return Err(err.at_position(Position::Index(4)));
            },
        };
        let vf = match F::try_convert(f) {
            Ok(v) => v,
            Err(err) => {
                proof {
                    lemma_sink_unchanged(sink.calls@);
                }
                return Err(err.at_position(Position::Index(5)));
            },
        };
        let vg = match G::try_convert(g) {
            Ok(v) => v,
            Err(err) => {
                proof {
                    lemma_sink_unchanged(sink.calls@);
                }
                return Err(err.at_position(Position::Index(6)));
            },
        };
        let vh = match H::try_convert(h) {
            Ok(v) => v,
            Err(err) => {
                proof {
                    lemma_sink_unchanged(sink.calls@);
                }
                return Err(err.at_position(Position::Index(7)));
            },
        };
        let vi = match I::try_convert(i) {
            Ok(v) => v,
            Err(err) => {
                proof {
                    lemma_sink_unchanged(sink.calls@);
                }
                return Err(err.at_position(Position::Index(8)));
            },
        };
        let vj = match J::try_convert(j) {
            Ok(v) => v,
            Err(err) => {
                proof {
                    lemma_sink_unchanged(sink.calls@);
                }
                return Err(err.at_position(Position::Index(9)));
            },
        };
        let vk = match K::try_convert(k) {
            Ok(v) => v,
            Err(err) => {
                proof {
                    lemma_sink_unchanged(sink.calls@);
                }
                return Err(err.at_position(Position::Index(10)));
            },
        };
        let vl = match L::try_convert(l) {
            Ok(v) => v,
            Err(err) => {
                proof {
                    lemma_sink_unchanged(sink.calls@);
                }
                return Err(err.at_position(Position::Index(11)));
            },
        };
        let res = (self.func)(recv, va, vb, vc, vd, ve, vf, vg, vh, vi, vj, vk, vl);
        let out = res.into_return_value(sink);
        proof {
            assert(RbSelf::converts_to(rb_self, recv)
                && A::converts_to(a, va)
                && B::converts_to(b, vb)
                && C::converts_to(c, vc)
                && D::converts_to(d, vd)
                && E::converts_to(e, ve)
                && F::converts_to(f, vf)
                && G::converts_to(g, vg)
                && H::converts_to(h, vh)
                && I::converts_to(i, vi)
                && J::converts_to(j, vj)
                && K::converts_to(k, vk)
                && L::converts_to(l, vl));
            assert(call_ensures(self.func, (recv, va, vb, vc, vd, ve, vf, vg, vh, vi, vj, vk, vl), res));
        }
        out
    }
}

/// Adapter exposing a native function as a host method taking self and
/// thirteen positional arguments, with typed conversion of every
/// call-site handle, result normalisation and a single error path.
pub struct Method13<Func, RbSelf, A, B, C, D, E, F, G, H, I, J, K, L, M, Res> {
    /// The wrapped native function.
    pub func: Func,
    pub rb_self: PhantomData<RbSelf>,
    pub a: PhantomData<A>,
    pub b: PhantomData<B>,
    pub c: PhantomData<C>,
    pub d: PhantomData<D>,
    pub e: PhantomData<E>,
    pub f: PhantomData<F>,
    pub g: PhantomData<G>,
    pub h: PhantomData<H>,
    pub i: PhantomData<I>,
    pub j: PhantomData<J>,
    pub k: PhantomData<K>,
    pub l: PhantomData<L>,
    pub m: PhantomData<M>,
    pub res: PhantomData<Res>,
}

impl<Func, RbSelf, A, B, C, D, E, F, G, H, I, J, K, L, M, Res> Method13<Func, RbSelf, A, B, C, D, E, F, G, H, I, J, K, L, M, Res> where
    Func: Fn(RbSelf, A, B, C, D, E, F, G, H, I, J, K, L, M) -> Res,
    RbSelf: TryConvert,
    A: TryConvert,
    B: TryConvert,
    C: TryConvert,
    D: TryConvert,
    E: TryConvert,
    F: TryConvert,
    G: TryConvert,
    H: TryConvert,
    I: TryConvert,
    J: TryConvert,
    K: TryConvert,
    L: TryConvert,
    M: TryConvert,
    Res: ReturnValue,
 {
    /// Wrap `func`.
    pub fn new(func: Func) -> (m: Self)
        ensures
            m.func == func,
    {
        Method13 { func, rb_self: PhantomData, a: PhantomData, b: PhantomData, c: PhantomData, d: PhantomData, e: PhantomData, f: PhantomData, g: PhantomData, h: PhantomData, i: PhantomData, j: PhantomData, k: PhantomData, l: PhantomData, m: PhantomData, res: PhantomData }
    }

    /// What invoking the adapter yields: the first handle that fails to
    /// convert wins and is reported with its slot, and the wrapped function
    /// is then not invoked; when every handle converts, the function's
    /// result, normalised, with `calls` the block invocations recorded while
    /// normalising it.
    pub open spec fn dispatch(
        func: Func,
        rb_self: Value,
        a: Value,
        b: Value,
        c: Value,
        d: Value,
        e: Value,
        f: Value,
        g: Value,
        h: Value,
        i: Value,
        j: Value,
        k: Value,
        l: Value,
        m: Value,
        r: Result<Value, Error>,
        calls: Seq<BlockCall>,
    ) -> bool {
        if !RbSelf::convertible(rb_self) {
            calls.len() == 0 && (r matches Err(err) && err.is_conversion_failure_at(
                Position::Receiver,
                RbSelf::fail_spec(rb_self),
            ))
        } else if !A::convertible(a) {
            calls.len() == 0 && (r matches Err(err) && err.is_conversion_failure_at(
                Position::Index(0),
                A::fail_spec(a),
            ))
        } else if !B::convertible(b) {
            calls.len() == 0 && (r matches Err(err) && err.is_conversion_failure_at(
                Position::Index(1),
                B::fail_spec(b),
            ))
        } else if !C::convertible(c) {
            calls.len() == 0 && (r matches Err(err) && err.is_conversion_failure_at(
                Position::Index(2),
                C::fail_spec(c),
            ))
        } else if !D::convertible(d) {
            calls.len() == 0 && (r matches Err(err) && err.is_conversion_failure_at(
                Position::Index(3),
                D::fail_spec(d),
            ))
        } else if !E::convertible(e) {
            calls.len() == 0 && (r matches Err(err) && err.is_conversion_failure_at(
                Position::Index(4),
                E::fail_spec(e),
            ))
        } else if !F::convertible(f) {
            calls.len() == 0 && (r matches Err(err) && err.is_conversion_failure_at(
                Position::Index(5),
                F::fail_spec(f),
            ))
        } else if !G::convertible(g) {
            calls.len() == 0 && (r matches Err(err) && err.is_conversion_failure_at(
                Position::Index(6),
                G::fail_spec(g),
            ))
        } else if !H::convertible(h) {
            calls.len() == 0 && (r matches Err(err) && err.is_conversion_failure_at(
                Position::Index(7),
                H::fail_spec(h),
            ))
        } else if !I::convertible(i) {
            calls.len() == 0 && (r matches Err(err) && err.is_conversion_failure_at(
                Position::Index(8),
                I::fail_spec(i),
            ))
        } else if !J::convertible(j) {
            calls.len() == 0 && (r matches Err(err) && err.is_conversion_failure_at(
                Position::Index(9),
                J::fail_spec(j),
            ))
        } else if !K::convertible(k) {
            calls.len() == 0 && (r matches Err(err) && err.is_conversion_failure_at(
                Position::Index(10),
                K::fail_spec(k),
            ))
        } else if !L::convertible(l) {
            calls.len() == 0 && (r matches Err(err) && err.is_conversion_failure_at(
                Position::Index(11),
                L::fail_spec(l),
            ))
        } else if !M::convertible(m) {
            calls.len() == 0 && (r matches Err(err) && err.is_conversion_failure_at(
                Position::Index(12),
                M::fail_spec(m),
            ))
        } else {
            exists|recv: RbSelf, va: A, vb: B, vc: C, vd: D, ve: E, vf: F, vg: G, vh: H, vi: I, vj: J, vk: K, vl: L, vm: M, res: Res|
                RbSelf::converts_to(rb_self, recv)
                    && A::converts_to(a, va)
                    && B::converts_to(b, vb)
                    && C::converts_to(c, vc)
                    && D::converts_to(d, vd)
                    && E::converts_to(e, ve)
                    && F::converts_to(f, vf)
                    && G::converts_to(g, vg)
                    && H::converts_to(h, vh)
                    && I::converts_to(i, vi)
                    && J::converts_to(j, vj)
                    && K::converts_to(k, vk)
                    && L::converts_to(l, vl)
                    && M::converts_to(m, vm)
                    && #[trigger] call_ensures(func, (recv, va, vb, vc, vd, ve, vf, vg, vh, vi, vj, vk, vl, vm), res)
                    && res.return_spec(r, calls)
        }
    }

    /// Convert the call-site handles left to right, stopping at the first
    /// failure, invoke the wrapped function on the converted values, and
    /// normalise its result. The receiver handle is converted first, then
    /// each argument; a conversion failure means the function is never
    /// invoked.
    pub fn call_convert_value(self, rb_self: Value, a: Value, b: Value, c: Value, d: Value, e: Value, f: Value, g: Value, h: Value, i: Value, j: Value, k: Value, l: Value, m: Value, sink: &mut BlockSink) -> (r: Result<
        Value,
        Error,
    >)
        requires
            forall|recv: RbSelf, va: A, vb: B, vc: C, vd: D, ve: E, vf: F, vg: G, vh: H, vi: I, vj: J, vk: K, vl: L, vm: M|
                RbSelf::converts_to(rb_self, recv)
                    && A::converts_to(a, va)
                    && B::converts_to(b, vb)
                    && C::converts_to(c, vc)
                    && D::converts_to(d, vd)
                    && E::converts_to(e, ve)
                    && F::converts_to(f, vf)
                    && G::converts_to(g, vg)
                    && H::converts_to(h, vh)
                    && I::converts_to(i, vi)
                    && J::converts_to(j, vj)
                    && K::converts_to(k, vk)
                    && L::converts_to(l, vl)
                    && M::converts_to(m, vm)
                    ==> #[trigger] call_requires(self.func, (recv, va, vb, vc, vd, ve, vf, vg, vh, vi, vj, vk, vl, vm)),
        ensures
            old(sink).calls@.is_prefix_of(final(sink).calls@),
            Self::dispatch(
                self.func,
                rb_self, a, b, c, d, e, f, g, h, i, j, k, l, m, r,
                final(sink).calls@.skip(old(sink).calls@.len() as int),
            ),
    {
        let recv = match RbSelf::try_convert(rb_self) {
            Ok(v) => v,
            Err(err) => {
                proof {
                    lemma_sink_unchanged(sink.calls@);
                }
                return Err(err.at_position(Position::Receiver));
            },
        };
        let va = match A::try_convert(a) {
            Ok(v) => v,
            Err(err) => {
                proof {
                    lemma_sink_unchanged(sink.calls@);
                }
                return Err(err.at_position(Position::Index(0)));
            },
        };
        let vb = match B::try_convert(b) {
            Ok(v) => v,
            Err(err) => {
                proof {
                    lemma_sink_unchanged(sink.calls@);
                }
                return Err(err.at_position(Position::Index(1)));
            },
        };
        let vc = match C::try_convert(c) {
            Ok(v) => v,
            Err(err) => {
                proof {
                    lemma_sink_unchanged(sink.calls@);
                }
                return Err(err.at_position(Position::Index(2)));
            },
        };
        let vd = match D::try_convert(d) {
            Ok(v) => v,
            Err(err) => {
                proof {
                    lemma_sink_unchanged(sink.calls@);
                }
                return Err(err.at_position(Position::Index(3)));
            },
        };
        let ve = match E::try_convert(e) {
            Ok(v) => v,
            Err(err) => {
                proof {
                    lemma_sink_unchanged(sink.calls@);
                }
                return Err(err.at_position(Position::Index(4)));
            },
        };
        let vf = match F::try_convert(f) {
            Ok(v) => v,
            Err(err) => {
                proof {
                    lemma_sink_unchanged(sink.calls@);
                }
                return Err(err.at_position(Position::Index(5)));
            },
        };
        let vg = match G::try_convert(g) {
            Ok(v) => v,
            Err(err) => {
                proof {
                    lemma_sink_unchanged(sink.calls@);
                }
                return Err(err.at_position(Position::Index(6)));
            },
        };
        let vh = match H::try_convert(h) {
            Ok(v) => v,
            Err(err) => {
                proof {
                    lemma_sink_unchanged(sink.calls@);
                }
                return Err(err.at_position(Position::Index(7)));
            },
        };
        let vi = match I::try_convert(i) {
            Ok(v) => v,
            Err(err) => {
                proof {
                    lemma_sink_unchanged(sink.calls@);
                }
                return Err(err.at_position(Position::Index(8)));
            },
        };
        let vj = match J::try_convert(j) {
            Ok(v) => v,
            Err(err) => {
                proof {
                    lemma_sink_unchanged(sink.calls@);
                }
                return Err(err.at_position(Position::Index(9)));
            },
        };
        let vk = match K::try_convert(k) {
            Ok(v) => v,
            Err(err) => {
                proof {
                    lemma_sink_unchanged(sink.calls@);
                }
                return Err(err.at_position(Position::Index(10)));
            },
        };
        let vl = match L::try_convert(l) {
            Ok(v) => v,
            Err(err) => {
                proof {
                    lemma_sink_unchanged(sink.calls@);
                }
                return Err(err.at_position(Position::Index(11)));
            },
        };
        let vm = match M::try_convert(m) {
            Ok(v) => v,
            Err(err) => {
                proof {
                    lemma_sink_unchanged(sink.calls@);
                }
                return Err(err.at_position(Position::Index(12)));
            },
        };
        let res = (self.func)(recv, va, vb, vc, vd, ve, vf, vg, vh, vi, vj, vk, vl, vm);
        let out = res.into_return_value(sink);
        proof {
            assert(RbSelf::converts_to(rb_self, recv)
                && A::converts_to(a, va)
                && B::converts_to(b, vb)
                && C::converts_to(c, vc)
                && D::converts_to(d, vd)
                && E::converts_to(e, ve)
                && F::converts_to(f, vf)
                && G::converts_to(g, vg)
                && H::converts_to(h, vh)
                && I::converts_to(i, vi)
                && J::converts_to(j, vj)
                && K::converts_to(k, vk)
                && L::converts_to(l, vl)
                && M::converts_to(m, vm));
            assert(call_ensures(self.func, (recv, va, vb, vc, vd, ve, vf, vg, vh, vi, vj, vk, vl, vm), res));
        }
        out
    }
}

/// Adapter exposing a native function as a host method taking self and
/// fourteen positional arguments, with typed conversion of every
/// call-site handle, result normalisation and a single error path.
pub struct Method14<Func, RbSelf, A, B, C, D, E, F, G, H, I, J, K, L, M, N, Res> {
    /// The wrapped native function.
    pub func: Func,
    pub rb_self: PhantomData<RbSelf>,
    pub a: PhantomData<A>,
    pub b: PhantomData<B>,
    pub c: PhantomData<C>,
    pub d: PhantomData<D>,
    pub e: PhantomData<E>,
    pub f: PhantomData<F>,
    pub g: PhantomData<G>,
    pub h: PhantomData<H>,
    pub i: PhantomData<I>,
    pub j: PhantomData<J>,
    pub k: PhantomData<K>,
    pub l: PhantomData<L>,
    pub m: PhantomData<M>,
    pub n: PhantomData<N>,
    pub res: PhantomData<Res>,
}

impl<Func, RbSelf, A, B, C, D, E, F, G, H, I, J, K, L, M, N, Res> Method14<Func, RbSelf, A, B, C, D, E, F, G, H, I, J, K, L, M, N, Res> where
    Func: Fn(RbSelf, A, B, C, D, E, F, G, H, I, J, K, L, M, N) -> Res,
    RbSelf: TryConvert,
    A: TryConvert,
    B: TryConvert,
    C: TryConvert,
    D: TryConvert,
    E: TryConvert,
    F: TryConvert,
    G: TryConvert,
    H: TryConvert,
    I: TryConvert,
    J: TryConvert,
    K: TryConvert,
    L: TryConvert,
    M: TryConvert,
    N: TryConvert,
    Res: ReturnValue,
 {
    /// Wrap `func`.
    pub fn new(func: Func) -> (m: Self)
        ensures
            m.func == func,
    {
        Method14 { func, rb_self: PhantomData, a: PhantomData, b: PhantomData, c: PhantomData, d: PhantomData, e: PhantomData, f: PhantomData, g: PhantomData, h: PhantomData, i: PhantomData, j: PhantomData, k: PhantomData, l: PhantomData, m: PhantomData, n: PhantomData, res: PhantomData }
    }

    /// What invoking the adapter yields: the first handle that fails to
    /// convert wins and is reported with its slot, and the wrapped function
    /// is then not invoked; when every handle converts, the function's
    /// result, normalised, with `calls` the block invocations recorded while
    /// normalising it.
    pub open spec fn dispatch(
        func: Func,
        rb_self: Value,
        a: Value,
        b: Value,
        c: Value,
        d: Value,
        e: Value,
        f: Value,
        g: Value,
        h: Value,
        i: Value,
        j: Value,
        k: Value,
        l: Value,
        m: Value,
        n: Value,
        r: Result<Value, Error>,
        calls: Seq<BlockCall>,
    ) -> bool {
        if !RbSelf::convertible(rb_self) {
            calls.len() == 0 && (r matches Err(err) && err.is_conversion_failure_at(
                Position::Receiver,
                RbSelf::fail_spec(rb_self),
            ))
        } else if !A::convertible(a) {
            calls.len() == 0 && (r matches Err(err) && err.is_conversion_failure_at(
                Position::Index(0),
                A::fail_spec(a),
            ))
        } else if !B::convertible(b) {
            calls.len() == 0 && (r matches Err(err) && err.is_conversion_failure_at(
                Position::Index(1),
                B::fail_spec(b),
            ))
        } else if !C::convertible(c) {
            calls.len() == 0 && (r matches Err(err) && err.is_conversion_failure_at(
                Position::Index(2),
                C::fail_spec(c),
            ))
        } else if !D::convertible(d) {
            calls.len() == 0 && (r matches Err(err) && err.is_conversion_failure_at(
                Position::Index(3),
                D::fail_spec(d),
            ))
        } else if !E::convertible(e) {
            calls.len() == 0 && (r matches Err(err) && err.is_conversion_failure_at(
                Position::Index(4),
                E::fail_spec(e),
            ))
        } else if !F::convertible(f) {
            calls.len() == 0 && (r matches Err(err) && err.is_conversion_failure_at(
                Position::Index(5),
                F::fail_spec(f),
            ))
        } else if !G::convertible(g) {
            calls.len() == 0 && (r matches Err(err) && err.is_conversion_failure_at(
                Position::Index(6),
                G::fail_spec(g),
            ))
        } else if !H::convertible(h) {
            calls.len() == 0 && (r matches Err(err) && err.is_conversion_failure_at(
                Position::Index(7),
                H::fail_spec(h),
            ))
        } else if !I::convertible(i) {
            calls.len() == 0 && (r matches Err(err) && err.is_conversion_failure_at(
                Position::Index(8),
                I::fail_spec(i),
            ))
        } else if !J::convertible(j) {
            calls.len() == 0 && (r matches Err(err) && err.is_conversion_failure_at(
                Position::Index(9),
                J::fail_spec(j),
            ))
        } else if !K::convertible(k) {
            calls.len() == 0 && (r matches Err(err) && err.is_conversion_failure_at(
                Position::Index(10),
                K::fail_spec(k),
            ))
        } else if !L::convertible(l) {
            calls.len() == 0 && (r matches Err(err) && err.is_conversion_failure_at(
                Position::Index(11),
                L::fail_spec(l),
            ))
        } else if !M::convertible(m) {
            calls.len() == 0 && (r matches Err(err) && err.is_conversion_failure_at(
                Position::Index(12),
                M::fail_spec(m),
            ))
        } else if !N::convertible(n) {
            calls.len() == 0 && (r matches Err(err) && err.is_conversion_failure_at(
                Position::Index(13),
                N::fail_spec(n),
            ))
        } else {
            exists|recv: RbSelf, va: A, vb: B, vc: C, vd: D, ve: E, vf: F, vg: G, vh: H, vi: I, vj: J, vk: K, vl: L, vm: M, vn: N, res: Res|
                RbSelf::converts_to(rb_self, recv)
                    && A::converts_to(a, va)
                    && B::converts_to(b, vb)
                    && C::converts_to(c, vc)
                    && D::converts_to(d, vd)
                    && E::converts_to(e, ve)
                    && F::converts_to(f, vf)
                    && G::converts_to(g, vg)
                    && H::converts_to(h, vh)
                    && I::converts_to(i, vi)
                    && J::converts_to(j, vj)
                    && K::converts_to(k, vk)
                    && L::converts_to(l, vl)
                    && M::converts_to(m, vm)
                    && N::converts_to(n, vn)
                    && #[trigger] call_ensures(func, (recv, va, vb, vc, vd, ve, vf, vg, vh, vi, vj, vk, vl, vm, vn), res)
                    && res.return_spec(r, calls)
        }
    }

    /// Convert the call-site handles left to right, stopping at the first
    /// failure, invoke the wrapped function on the converted values, and
    /// normalise its result. The receiver handle is converted first, then
    /// each argument; a conversion failure means the function is never
    /// invoked.
    pub fn call_convert_value(self, rb_self: Value, a: Value, b: Value, c: Value, d: Value, e: Value, f: Value, g: Value, h: Value, i: Value, j: Value, k: Value, l: Value, m: Value, n: Value, sink: &mut BlockSink) -> (r: Result<
        Value,
        Error,
    >)
        requires
            forall|recv: RbSelf, va: A, vb: B, vc: C, vd: D, ve: E, vf: F, vg: G, vh: H, vi: I, vj: J, vk: K, vl: L, vm: M, vn: N|
                RbSelf::converts_to(rb_self, recv)
                    && A::converts_to(a, va)
                    && B::converts_to(b, vb)
                    && C::converts_to(c, vc)
                    && D::converts_to(d, vd)
                    && E::converts_to(e, ve)
                    && F::converts_to(f, vf)
                    && G::converts_to(g, vg)
                    && H::converts_to(h, vh)
                    && I::converts_to(i, vi)
                    && J::converts_to(j, vj)
                    && K::converts_to(k, vk)
                    && L::converts_to(l, vl)
                    && M::converts_to(m, vm)
                    && N::converts_to(n, vn)
                    ==> #[trigger] call_requires(self.func, (recv, va, vb, vc, vd, ve, vf, vg, vh, vi, vj, vk, vl, vm, vn)),
        ensures
            old(sink).calls@.is_prefix_of(final(sink).calls@),
            Self::dispatch(
                self.func,
                rb_self, a, b, c, d, e, f, g, h, i, j, k, l, m, n, r,
                final(sink).calls@.skip(old(sink).calls@.len() as int),
            ),
    {
        let recv = match RbSelf::try_convert(rb_self) {
            Ok(v) => v,
            Err(err) => {
                proof {
                    lemma_sink_unchanged(sink.calls@);
                }
                return Err(err.at_position(Position::Receiver));
            },
        };
        let va = match A::try_convert(a) {
            Ok(v) => v,
            Err(err) => {
                proof {
                    lemma_sink_unchanged(sink.calls@);
                }
                return Err(err.at_position(Position::Index(0)));
            },
        };
        let vb = match B::try_convert(b) {
            Ok(v) => v,
            Err(err) => {
                proof {
                    lemma_sink_unchanged(sink.calls@);
                }
                return Err(err.at_position(Position::Index(1)));
            },
        };
        let vc = match C::try_convert(c) {
            Ok(v) => v,
            Err(err) => {
                proof {
                    lemma_sink_unchanged(sink.calls@);
                }
                return Err(err.at_position(Position::Index(2)));
            },
        };
        let vd = match D::try_convert(d) {
            Ok(v) => v,
            Err(err) => {
                proof {
                    lemma_sink_unchanged(sink.calls@);
                }
                return Err(err.at_position(Position::Index(3)));
            },
        };
        let ve = match E::try_convert(e) {
            Ok(v) => v,
            Err(err) => {
                proof {
                    lemma_sink_unchanged(sink.calls@);
                }
                return Err(err.at_position(Position::Index(4)));
            },
        };
        let vf = match F::try_convert(f) {
            Ok(v) => v,
            Err(err) => {
                proof {
                    lemma_sink_unchanged(sink.calls@);
                }
                return Err(err.at_position(Position::Index(5)));
            },
        };
        let vg = match G::try_convert(g) {
            Ok(v) => v,
            Err(err) => {
                proof {
                    lemma_sink_unchanged(sink.calls@);
                }
                return Err(err.at_position(Position::Index(6)));
            },
        };
        let vh = match H::try_convert(h) {
            Ok(v) => v,
            Err(err) => {
                proof {
                    lemma_sink_unchanged(sink.calls@);
                }
                return Err(err.at_position(Position::Index(7)));
            },
        };
        let vi = match I::try_convert(i) {
            Ok(v) => v,
            Err(err) => {
                proof {
                    lemma_sink_unchanged(sink.calls@);
                }
                return Err(err.at_position(Position::Index(8)));
            },
        };
        let vj = match J::try_convert(j) {
            Ok(v) => v,
            Err(err) => {
                proof {
                    lemma_sink_unchanged(sink.calls@);
                }
                return Err(err.at_position(Position::Index(9)));
            },
        };
        let vk = match K::try_convert(k) {
            Ok(v) => v,
            Err(err) => {
                proof {
                    lemma_sink_unchanged(sink.calls@);
                }
                return Err(err.at_position(Position::Index(10)));
            },
        };
        let vl = match L::try_convert(l) {
            Ok(v) => v,
            Err(err) => {
                proof {
                    lemma_sink_unchanged(sink.calls@);
                }
                return Err(err.at_position(Position::Index(11)));
            },
        };
        let vm = match M::try_convert(m) {
            Ok(v) => v,
            Err(err) => {
                proof {
                    lemma_sink_unchanged(sink.calls@);
                }
                return Err(err.at_position(Position::Index(12)));
            },
        };
        let vn = match N::try_convert(n) {
            Ok(v) => v,
            Err(err) => {
                proof {
                    lemma_sink_unchanged(sink.calls@);
                }
                return Err(err.at_position(Position::Index(13)));
            },
        };
        let res = (self.func)(recv, va, vb, vc, vd, ve, vf, vg, vh, vi, vj, vk, vl, vm, vn);
        let out = res.into_return_value(sink);
        proof {
            assert(RbSelf::converts_to(rb_self, recv)
                && A::converts_to(a, va)
                && B::converts_to(b, vb)
                && C::converts_to(c, vc)
                && D::converts_to(d, vd)
                && E::converts_to(e, ve)
                && F::converts_to(f, vf)
                && G::converts_to(g, vg)
                && H::converts_to(h, vh)
                && I::converts_to(i, vi)
                && J::converts_to(j, vj)
                && K::converts_to(k, vk)
                && L::converts_to(l, vl)
                && M::converts_to(m, vm)
                && N::converts_to(n, vn));
            assert(call_ensures(self.func, (recv, va, vb, vc, vd, ve, vf, vg, vh, vi, vj, vk, vl, vm, vn), res));
        }
        out
    }
}

/// Adapter exposing a native function as a host method taking self and
/// fifteen positional arguments, with typed conversion of every
/// call-site handle, result normalisation and a single error path.
pub struct Method15<Func, RbSelf, A, B, C, D, E, F, G, H, I, J, K, L, M, N, O, Res> {
    /// The wrapped native function.
    pub func: Func,
    pub rb_self: PhantomData<RbSelf>,
    pub a: PhantomData<A>,
    pub b: PhantomData<B>,
    pub c: PhantomData<C>,
    pub d: PhantomData<D>,
    pub e: PhantomData<E>,
    pub f: PhantomData<F>,
    pub g: PhantomData<G>,
    pub h: PhantomData<H>,
    pub i: PhantomData<I>,
    pub j: PhantomData<J>,
    pub k: PhantomData<K>,
    pub l: PhantomData<L>,
    pub m: PhantomData<M>,
    pub n: PhantomData<N>,
    pub o: PhantomData<O>,
    pub res: PhantomData<Res>,
}

impl<Func, RbSelf, A, B, C, D, E, F, G, H, I, J, K, L, M, N, O, Res> Method15<Func, RbSelf, A, B, C, D, E, F, G, H, I, J, K, L, M, N, O, Res> where
    Func: Fn(RbSelf, A, B, C, D, E, F, G, H, I, J, K, L, M, N, O) -> Res,
    RbSelf: TryConvert,
    A: TryConvert,
    B: TryConvert,
    C: TryConvert,
    D: TryConvert,
    E: TryConvert,
    F: TryConvert,
    G: TryConvert,
    H: TryConvert,
    I: TryConvert,
    J: TryConvert,
    K: TryConvert,
    L: TryConvert,
    M: TryConvert,
    N: TryConvert,
    O: TryConvert,
    Res: ReturnValue,
 {
    /// Wrap `func`.
    pub fn new(func: Func) -> (m: Self)
        ensures
            m.func == func,
    {
        Method15 { func, rb_self: PhantomData, a: PhantomData, b: PhantomData, c: PhantomData, d: PhantomData, e: PhantomData, f: PhantomData, g: PhantomData, h: PhantomData, i: PhantomData, j: PhantomData, k: PhantomData, l: PhantomData, m: PhantomData, n: PhantomData, o: PhantomData, res: PhantomData }
    }

    /// What invoking the adapter yields: the first handle that fails to
    /// convert wins and is reported with its slot, and the wrapped function
    /// is then not invoked; when every handle converts, the function's
    /// result, normalised, with `calls` the block invocations recorded while
    /// normalising it.
    pub open spec fn dispatch(
        func: Func,
        rb_self: Value,
        a: Value,
        b: Value,
        c: Value,
        d: Value,
        e: Value,
        f: Value,
        g: Value,
        h: Value,
        i: Value,
        j: Value,
        k: Value,
        l: Value,
        m: Value,
        n: Value,
        o: Value,
        r: Result<Value, Error>,
        calls: Seq<BlockCall>,
    ) -> bool {
        if !RbSelf::convertible(rb_self) {
            calls.len() == 0 && (r matches Err(err) && err.is_conversion_failure_at(
                Position::Receiver,
                RbSelf::fail_spec(rb_self),
            ))
        } else if !A::convertible(a) {
            calls.len() == 0 && (r matches Err(err) && err.is_conversion_failure_at(
                Position::Index(0),
                A::fail_spec(a),
            ))
        } else if !B::convertible(b) {
            calls.len() == 0 && (r matches Err(err) && err.is_conversion_failure_at(
                Position::Index(1),
                B::fail_spec(b),
            ))
        } else if !C::convertible(c) {
            calls.len() == 0 && (r matches Err(err) && err.is_conversion_failure_at(
                Position::Index(2),
                C::fail_spec(c),
            ))
        } else if !D::convertible(d) {
            calls.len() == 0 && (r matches Err(err) && err.is_conversion_failure_at(
                Position::Index(3),
                D::fail_spec(d),
            ))
        } else if !E::convertible(e) {
            calls.len() == 0 && (r matches Err(err) && err.is_conversion_failure_at(
                Position::Index(4),
                E::fail_spec(e),
            ))
        } else if !F::convertible(f) {
            calls.len() == 0 && (r matches Err(err) && err.is_conversion_failure_at(
                Position::Index(5),
                F::fail_spec(f),
            ))
        } else if !G::convertible(g) {
            calls.len() == 0 && (r matches Err(err) && err.is_conversion_failure_at(
                Position::Index(6),
                G::fail_spec(g),
            ))
        } else if !H::convertible(h) {
            calls.len() == 0 && (r matches Err(err) && err.is_conversion_failure_at(
                Position::Index(7),
                H::fail_spec(h),
            ))
        } else if !I::convertible(i) {
            calls.len() == 0 && (r matches Err(err) && err.is_conversion_failure_at(
                Position::Index(8),
                I::fail_spec(i),
            ))
        } else if !J::convertible(j) {
            calls.len() == 0 && (r matches Err(err) && err.is_conversion_failure_at(
                Position::Index(9),
                J::fail_spec(j),
            ))
        } else if !K::convertible(k) {
            calls.len() == 0 && (r matches Err(err) && err.is_conversion_failure_at(
                Position::Index(10),
                K::fail_spec(k),
            ))
        } else if !L::convertible(l) {
            calls.len() == 0 && (r matches Err(err) && err.is_conversion_failure_at(
                Position::Index(11),
                L::fail_spec(l),
            ))
        } else if !M::convertible(m) {
            calls.len() == 0 && (r matches Err(err) && err.is_conversion_failure_at(
                Position::Index(12),
                M::fail_spec(m),
            ))
        } else if !N::convertible(n) {
            calls.len() == 0 && (r matches Err(err) && err.is_conversion_failure_at(
                Position::Index(13),
                N::fail_spec(n),
            ))
        } else if !O::convertible(o) {
            calls.len() == 0 && (r matches Err(err) && err.is_conversion_failure_at(
                Position::Index(14),
                O::fail_spec(o),
            ))
        } else {
            exists|recv: RbSelf, va: A, vb: B, vc: C, vd: D, ve: E, vf: F, vg: G, vh: H, vi: I, vj: J, vk: K, vl: L, vm: M, vn: N, vo: O, res: Res|
                RbSelf::converts_to(rb_self, recv)
                    && A::converts_to(a, va)
                    && B::converts_to(b, vb)
                    && C::converts_to(c, vc)
                    && D::converts_to(d, vd)
                    && E::converts_to(e, ve)
                    && F::converts_to(f, vf)
                    && G::converts_to(g, vg)
                    && H::converts_to(h, vh)
                    && I::converts_to(i, vi)
                    && J::converts_to(j, vj)
                    && K::converts_to(k, vk)
                    && L::converts_to(l, vl)
                    && M::converts_to(m, vm)
                    && N::converts_to(n, vn)
                    && O::converts_to(o, vo)
                    && #[trigger] call_ensures(func, (recv, va, vb, vc, vd, ve, vf, vg, vh, vi, vj, vk, vl, vm, vn, vo), res)
                    && res.return_spec(r, calls)
        }
    }

    /// Convert the call-site handles left to right, stopping at the first
    /// failure, invoke the wrapped function on the converted values, and
    /// normalise its result. The receiver handle is converted first, then
    /// each argument; a conversion failure means the function is never
    /// invoked.
    pub fn call_convert_value(self, rb_self: Value, a: Value, b: Value, c: Value, d: Value, e: Value, f: Value, g: Value, h: Value, i: Value, j: Value, k: Value, l: Value, m: Value, n: Value, o: Value, sink: &mut BlockSink) -> (r: Result<
        Value,
        Error,
    >)
        requires
            forall|recv: RbSelf, va: A, vb: B, vc: C, vd: D, ve: E, vf: F, vg: G, vh: H, vi: I, vj: J, vk: K, vl: L, vm: M, vn: N, vo: O|
                RbSelf::converts_to(rb_self, recv)
                    && A::converts_to(a, va)
                    && B::converts_to(b, vb)
                    && C::converts_to(c, vc)
                    && D::converts_to(d, vd)
                    && E::converts_to(e, ve)
                    && F::converts_to(f, vf)
                    && G::converts_to(g, vg)
                    && H::converts_to(h, vh)
                    && I::converts_to(i, vi)
                    && J::converts_to(j, vj)
                    && K::converts_to(k, vk)
                    && L::converts_to(l, vl)
                    && M::converts_to(m, vm)
                    && N::converts_to(n, vn)
                    && O::converts_to(o, vo)
                    ==> #[trigger] call_requires(self.func, (recv, va, vb, vc, vd, ve, vf, vg, vh, vi, vj, vk, vl, vm, vn, vo)),
        ensures
            old(sink).calls@.is_prefix_of(final(sink).calls@),
            Self::dispatch(
                self.func,
                rb_self, a, b, c, d, e, f, g, h, i, j, k, l, m, n, o, r,
                final(sink).calls@.skip(old(sink).calls@.len() as int),
            ),
    {
        let recv = match RbSelf::try_convert(rb_self) {
            Ok(v) => v,
            Err(err) => {
                proof {
                    lemma_sink_unchanged(sink.calls@);
                }
                return Err(err.at_position(Position::Receiver));
            },
        };
        let va = match A::try_convert(a) {
            Ok(v) => v,
            Err(err) => {
                proof {
                    lemma_sink_unchanged(sink.calls@);
                }
                return Err(err.at_position(Position::Index(0)));
            },
        };
        let vb = match B::try_convert(b) {
            Ok(v) => v,
            Err(err) => {
                proof {
                    lemma_sink_unchanged(sink.calls@);
                }
                return Err(err.at_position(Position::Index(1)));
            },
        };
        let vc = match C::try_convert(c) {
            Ok(v) => v,
            Err(err) => {
                proof {
                    lemma_sink_unchanged(sink.calls@);
                }
                return Err(err.at_position(Position::Index(2)));
            },
        };
        let vd = match D::try_convert(d) {
            Ok(v) => v,
            Err(err) => {
                proof {
                    lemma_sink_unchanged(sink.calls@);
                }
                return Err(err.at_position(Position::Index(3)));
            },
        };
        let ve = match E::try_convert(e) {
            Ok(v) => v,
            Err(err) => {
                proof {
                    lemma_sink_unchanged(sink.calls@);
                }
                return Err(err.at_position(Position::Index(4)));
            },
        };
        let vf = match F::try_convert(f) {
            Ok(v) => v,
            Err(err) => {
                proof {
                    lemma_sink_unchanged(sink.calls@);
                }
                return Err(err.at_position(Position::Index(5)));
            },
        };
        let vg = match G::try_convert(g) {
            Ok(v) => v,
            Err(err) => {
                proof {
                    lemma_sink_unchanged(sink.calls@);
                }
                return Err(err.at_position(Position::Index(6)));
            },
        };
        let vh = match H::try_convert(h) {
            Ok(v) => v,
            Err(err) => {
                proof {
                    lemma_sink_unchanged(sink.calls@);
                }
                return Err(err.at_position(Position::Index(7)));
            },
        };
        let vi = match I::try_convert(i) {
            Ok(v) => v,
            Err(err) => {
                proof {
                    lemma_sink_unchanged(sink.calls@);
                }
                return Err(err.at_position(Position::Index(8)));
            },
        };
        let vj = match J::try_convert(j) {
            Ok(v) => v,
            Err(err) => {
                proof {
                    lemma_sink_unchanged(sink.calls@);
                }
                return Err(err.at_position(Position::Index(9)));
            },
        };
        let vk = match K::try_convert(k) {
            Ok(v) => v,
            Err(err) => {
                proof {
                    lemma_sink_unchanged(sink.calls@);
                }
                return Err(err.at_position(Position::Index(10)));
            },
        };
        let vl = match L::try_convert(l) {
            Ok(v) => v,
            Err(err) => {
                proof {
                    lemma_sink_unchanged(sink.calls@);
                }
                return Err(err.at_position(Position::Index(11)));
            },
        };
        let vm = match M::try_convert(m) {
            Ok(v) => v,
            Err(err) => {
                proof {
                    lemma_sink_unchanged(sink.calls@);
                }
                return Err(err.at_position(Position::Index(12)));
            },
        };
        let vn = match N::try_convert(n) {
            Ok(v) => v,
            Err(err) => {
                proof {
                    lemma_sink_unchanged(sink.calls@);
                }
                return Err(err.at_position(Position::Index(13)));
            },
        };
        let vo = match O::try_convert(o) {
            Ok(v) => v,
            Err(err) => {
                proof {
                    lemma_sink_unchanged(sink.calls@);
                }
                return Err(err.at_position(Position::Index(14)));
            },
        };
        let res = (self.func)(recv, va, vb, vc, vd, ve, vf, vg, vh, vi, vj, vk, vl, vm, vn, vo);
        let out = res.into_return_value(sink);
        proof {
            assert(RbSelf::converts_to(rb_self, recv)
                && A::converts_to(a, va)
                && B::converts_to(b, vb)
                && C::converts_to(c, vc)
                && D::converts_to(d, vd)
                && E::converts_to(e, ve)
                && F::converts_to(f, vf)
                && G::converts_to(g, vg)
                && H::converts_to(h, vh)
                && I::converts_to(i, vi)
                && J::converts_to(j, vj)
                && K::converts_to(k, vk)
                && L::converts_to(l, vl)
                && M::converts_to(m, vm)
                && N::converts_to(n, vn)
                && O::converts_to(o, vo));
            assert(call_ensures(self.func, (recv, va, vb, vc, vd, ve, vf, vg, vh, vi, vj, vk, vl, vm, vn, vo), res));
        }
        out
    }
}

/// Adapter exposing a native function as a host method taking self and
/// sixteen positional arguments, with typed conversion of every
/// call-site handle, result normalisation and a single error path.
pub struct Method16<Func, RbSelf, A, B, C, D, E, F, G, H, I, J, K, L, M, N, O, P, Res> {
    /// The wrapped native function.
    pub func: Func,
    pub rb_self: PhantomData<RbSelf>,
    pub a: PhantomData<A>,
    pub b: PhantomData<B>,
    pub c: PhantomData<C>,
    pub d: PhantomData<D>,
    pub e: PhantomData<E>,
    pub f: PhantomData<F>,
    pub g: PhantomData<G>,
    pub h: PhantomData<H>,
    pub i: PhantomData<I>,
    pub j: PhantomData<J>,
    pub k: PhantomData<K>,
    pub l: PhantomData<L>,
    pub m: PhantomData<M>,
    pub n: PhantomData<N>,
    pub o: PhantomData<O>,
    pub p: PhantomData<P>,
    pub res: PhantomData<Res>,
}

impl<Func, RbSelf, A, B, C, D, E, F, G, H, I, J, K, L, M, N, O, P, Res> Method16<Func, RbSelf, A, B, C, D, E, F, G, H, I, J, K, L, M, N, O, P, Res> where
    Func: Fn(RbSelf, A, B, C, D, E, F, G, H, I, J, K, L, M, N, O, P) -> Res,
    RbSelf: TryConvert,
    A: TryConvert,
    B: TryConvert,
    C: TryConvert,
    D: TryConvert,
    E: TryConvert,
    F: TryConvert,
    G: TryConvert,
    H: TryConvert,
    I: TryConvert,
    J: TryConvert,
    K: TryConvert,
    L: TryConvert,
    M: TryConvert,
    N: TryConvert,
    O: TryConvert,
    P: TryConvert,
    Res: ReturnValue,
 {
    /// Wrap `func`.
    pub fn new(func: Func) -> (m: Self)
        ensures
            m.func == func,
    {
        Method16 { func, rb_self: PhantomData, a: PhantomData, b: PhantomData, c: PhantomData, d: PhantomData, e: PhantomData, f: PhantomData, g: PhantomData, h: PhantomData, i: PhantomData, j: PhantomData, k: PhantomData, l: PhantomData, m: PhantomData, n: PhantomData, o: PhantomData, p: PhantomData, res: PhantomData }
    }

    /// What invoking the adapter yields: the first handle that fails to
    /// convert wins and is reported with its slot, and the wrapped function
    /// is then not invoked; when every handle converts, the function's
    /// result, normalised, with `calls` the block invocations recorded while
    /// normalising it.
    pub open spec fn dispatch(
        func: Func,
        rb_self: Value,
        a: Value,
        b: Value,
        c: Value,
        d: Value,
        e: Value,
        f: Value,
        g: Value,
        h: Value,
        i: Value,
        j: Value,
        k: Value,
        l: Value,
        m: Value,
        n: Value,
        o: Value,
        p: Value,
        r: Result<Value, Error>,
        calls: Seq<BlockCall>,
    ) -> bool {
        if !RbSelf::convertible(rb_self) {
            calls.len() == 0 && (r matches Err(err) && err.is_conversion_failure_at(
                Position::Receiver,
                RbSelf::fail_spec(rb_self),
            ))
        } else if !A::convertible(a) {
            calls.len() == 0 && (r matches Err(err) && err.is_conversion_failure_at(
                Position::Index(0),
                A::fail_spec(a),
            ))
        } else if !B::convertible(b) {
            calls.len() == 0 && (r matches Err(err) && err.is_conversion_failure_at(
                Position::Index(1),
                B::fail_spec(b),
            ))
        } else if !C::convertible(c) {
            calls.len() == 0 && (r matches Err(err) && err.is_conversion_failure_at(
                Position::Index(2),
                C::fail_spec(c),
            ))
        } else if !D::convertible(d) {
            calls.len() == 0 && (r matches Err(err) && err.is_conversion_failure_at(
                Position::Index(3),
                D::fail_spec(d),
            ))
        } else if !E::convertible(e) {
            calls.len() == 0 && (r matches Err(err) && err.is_conversion_failure_at(
                Position::Index(4),
                E::fail_spec(e),
            ))
        } else if !F::convertible(f) {
            calls.len() == 0 && (r matches Err(err) && err.is_conversion_failure_at(
                Position::Index(5),
                F::fail_spec(f),
            ))
        } else if !G::convertible(g) {
            calls.len() == 0 && (r matches Err(err) && err.is_conversion_failure_at(
                Position::Index(6),
                G::fail_spec(g),
            ))
        } else if !H::convertible(h) {
            calls.len() == 0 && (r matches Err(err) && err.is_conversion_failure_at(
                Position::Index(7),
                H::fail_spec(h),
            ))
        } else if !I::convertible(i) {
            calls.len() == 0 && (r matches Err(err) && err.is_conversion_failure_at(
                Position::Index(8),
                I::fail_spec(i),
            ))
        } else if !J::convertible(j) {
            calls.len() == 0 && (r matches Err(err) && err.is_conversion_failure_at(
                Position::Index(9),
                J::fail_spec(j),
            ))
        } else if !K::convertible(k) {
            calls.len() == 0 && (r matches Err(err) && err.is_conversion_failure_at(
                Position::Index(10),
                K::fail_spec(k),
            ))
        } else if !L::convertible(l) {
            calls.len() == 0 && (r matches Err(err) && err.is_conversion_failure_at(
                Position::Index(11),
                L::fail_spec(l),
            ))
        } else if !M::convertible(m) {
            calls.len() == 0 && (r matches Err(err) && err.is_conversion_failure_at(
                Position::Index(12),
                M::fail_spec(m),
            ))
        } else if !N::convertible(n) {
            calls.len() == 0 && (r matches Err(err) && err.is_conversion_failure_at(
                Position::Index(13),
                N::fail_spec(n),
            ))
        } else if !O::convertible(o) {
            calls.len() == 0 && (r matches Err(err) && err.is_conversion_failure_at(
                Position::Index(14),
                O::fail_spec(o),
            ))
        } else if !P::convertible(p) {
            calls.len() == 0 && (r matches Err(err) && err.is_conversion_failure_at(
                Position::Index(15),
                P::fail_spec(p),
            ))
        } else {
            exists|recv: RbSelf, va: A, vb: B, vc: C, vd: D, ve: E, vf: F, vg: G, vh: H, vi: I, vj: J, vk: K, vl: L, vm: M, vn: N, vo: O, vp: P, res: Res|
                RbSelf::converts_to(rb_self, recv)
                    && A::converts_to(a, va)
                    && B::converts_to(b, vb)
                    && C::converts_to(c, vc)
                    && D::converts_to(d, vd)
                    && E::converts_to(e, ve)
                    && F::converts_to(f, vf)
                    && G::converts_to(g, vg)
                    && H::converts_to(h, vh)
                    && I::converts_to(i, vi)
                    && J::converts_to(j, vj)
                    && K::converts_to(k, vk)
                    && L::converts_to(l, vl)
                    && M::converts_to(m, vm)
                    && N::converts_to(n, vn)
                    && O::converts_to(o, vo)
                    && P::converts_to(p, vp)
                    && #[trigger] call_ensures(func, (recv, va, vb, vc, vd, ve, vf, vg, vh, vi, vj, vk, vl, vm, vn, vo, vp), res)
                    && res.return_spec(r, calls)
        }
    }

    /// Convert the call-site handles left to right, stopping at the first
    /// failure, invoke the wrapped function on the converted values, and
    /// normalise its result. The receiver handle is converted first, then
    /// each argument; a conversion failure means the function is never
    /// invoked.
    pub fn call_convert_value(self, rb_self: Value, a: Value, b: Value, c: Value, d: Value, e: Value, f: Value, g: Value, h: Value, i: Value, j: Value, k: Value, l: Value, m: Value, n: Value, o: Value, p: Value, sink: &mut BlockSink) -> (r: Result<
        Value,
        Error,
    >)
        requires
            forall|recv: RbSelf, va: A, vb: B, vc: C, vd: D, ve: E, vf: F, vg: G, vh: H, vi: I, vj: J, vk: K, vl: L, vm: M, vn: N, vo: O, vp: P|
                RbSelf::converts_to(rb_self, recv)
                    && A::converts_to(a, va)
                    && B::converts_to(b, vb)
                    && C::converts_to(c, vc)
                    && D::converts_to(d, vd)
                    && E::converts_to(e, ve)
                    && F::converts_to(f, vf)
                    && G::converts_to(g, vg)
                    && H::converts_to(h, vh)
                    && I::converts_to(i, vi)
                    && J::converts_to(j, vj)
                    && K::converts_to(k, vk)
                    && L::converts_to(l, vl)
                    && M::converts_to(m, vm)
                    && N::converts_to(n, vn)
                    && O::converts_to(o, vo)
                    && P::converts_to(p, vp)
                    ==> #[trigger] call_requires(self.func, (recv, va, vb, vc, vd, ve, vf, vg, vh, vi, vj, vk, vl, vm, vn, vo, vp)),
        ensures
            old(sink).calls@.is_prefix_of(final(sink).calls@),
            Self::dispatch(
                self.func,
                rb_self, a, b, c, d, e, f, g, h, i, j, k, l, m, n, o, p, r,
                final(sink).calls@.skip(old(sink).calls@.len() as int),
            ),
    {
        let recv = match RbSelf::try_convert(rb_self) {
            Ok(v) => v,
            Err(err) => {
                proof {
                    lemma_sink_unchanged(sink.calls@);
                }
                return Err(err.at_position(Position::Receiver));
            },
        };
        let va = match A::try_convert(a) {
            Ok(v) => v,
            Err(err) => {
                proof {
                    lemma_sink_unchanged(sink.calls@);
                }
                return Err(err.at_position(Position::Index(0)));
            },
        };
        let vb = match B::try_convert(b) {
            Ok(v) => v,
            Err(err) => {
                proof {
                    lemma_sink_unchanged(sink.calls@);
                }
                return Err(err.at_position(Position::Index(1)));
            },
        };
        let vc = match C::try_convert(c) {
            Ok(v) => v,
            Err(err) => {
                proof {
                    lemma_sink_unchanged(sink.calls@);
                }
                return Err(err.at_position(Position::Index(2)));
            },
        };
        let vd = match D::try_convert(d) {
            Ok(v) => v,
            Err(err) => {
                proof {
                    lemma_sink_unchanged(sink.calls@);
                }
                return Err(err.at_position(Position::Index(3)));
            },
        };
        let ve = match E::try_convert(e) {
            Ok(v) => v,
            Err(err) => {
                proof {
                    lemma_sink_unchanged(sink.calls@);
                }
                return Err(err.at_position(Position::Index(4)));
            },
        };
        let vf = match F::try_convert(f) {
            Ok(v) => v,
            Err(err) => {
                proof {
                    lemma_sink_unchanged(sink.calls@);
                }
                return Err(err.at_position(Position::Index(5)));
            },
        };
        let vg = match G::try_convert(g) {
            Ok(v) => v,
            Err(err) => {
                proof {
                    lemma_sink_unchanged(sink.calls@);
                }
                return Err(err.at_position(Position::Index(6)));
            },
        };
        let vh = match H::try_convert(h) {
            Ok(v) => v,
            Err(err) => {
                proof {
                    lemma_sink_unchanged(sink.calls@);
                }
                return Err(err.at_position(Position::Index(7)));
            },
        };
        let vi = match I::try_convert(i) {
            Ok(v) => v,
            Err(err) => {
                proof {
                    lemma_sink_unchanged(sink.calls@);
                }
                return Err(err.at_position(Position::Index(8)));
            },
        };
        let vj = match J::try_convert(j) {
            Ok(v) => v,
            Err(err) => {
                proof {
                    lemma_sink_unchanged(sink.calls@);
                }
                return Err(err.at_position(Position::Index(9)));
            },
        };
        let vk = match K::try_convert(k) {
            Ok(v) => v,
            Err(err) => {
                proof {
                    lemma_sink_unchanged(sink.calls@);
                }
                return Err(err.at_position(Position::Index(10)));
            },
        };
        let vl = match L::try_convert(l) {
            Ok(v) => v,
            Err(err) => {
                proof {
                    lemma_sink_unchanged(sink.calls@);
                }
                return Err(err.at_position(Position::Index(11)));
            },
        };
        let vm = match M::try_convert(m) {
            Ok(v) => v,
            Err(err) => {
                proof {
                    lemma_sink_unchanged(sink.calls@);
                }
                return Err(err.at_position(Position::Index(12)));
            },
        };
        let vn = match N::try_convert(n) {
            Ok(v) => v,
            Err(err) => {
                proof {
                    lemma_sink_unchanged(sink.calls@);
                }
                return Err(err.at_position(Position::Index(13)));
            },
        };
        let vo = match O::try_convert(o) {
            Ok(v) => v,
            Err(err) => {
                proof {
                    lemma_sink_unchanged(sink.calls@);
                }
                return Err(err.at_position(Position::Index(14)));
            },
        };
        let vp = match P::try_convert(p) {
            Ok(v) => v,
            Err(err) => {
                proof {
                    lemma_sink_unchanged(sink.calls@);
                }
                return Err(err.at_position(Position::Index(15)));
            },
        };
        let res = (self.func)(recv, va, vb, vc, vd, ve, vf, vg, vh, vi, vj, vk, vl, vm, vn, vo, vp);
        let out = res.into_return_value(sink);
        proof {
            assert(RbSelf::converts_to(rb_self, recv)
                && A::converts_to(a, va)
                && B::converts_to(b, vb)
                && C::converts_to(c, vc)
                && D::converts_to(d, vd)
                && E::converts_to(e, ve)
                && F::converts_to(f, vf)
                && G::converts_to(g, vg)
                && H::converts_to(h, vh)
                && I::converts_to(i, vi)
                && J::converts_to(j, vj)
                && K::converts_to(k, vk)
                && L::converts_to(l, vl)
                && M::converts_to(m, vm)
                && N::converts_to(n, vn)
                && O::converts_to(o, vo)
                && P::converts_to(p, vp));
            assert(call_ensures(self.func, (recv, va, vb, vc, vd, ve, vf, vg, vh, vi, vj, vk, vl, vm, vn, vo, vp), res));
        }
        out
    }
}

} // verus!
