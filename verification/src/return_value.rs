use vstd::prelude::*;

use crate::block::{lemma_sink_unchanged, BlockCall, BlockSink, Source, Yield, YieldSplat,
    YieldValues};
use crate::error::Error;
use crate::into_value::{ArgList, IntoValue};
use crate::value::Value;

verus! {

/// A native return shape that the dispatch core can normalise into a single
/// raw outcome for the host: either a handle to return, or an error to
/// raise.
///
/// Implemented for plain convertible values, for `Result`s of them, and for
/// the lazy-sequence shapes of [`crate::block`]. Driving a lazy sequence
/// records block invocations in the given [`BlockSink`]; every other shape
/// records none.
pub trait ReturnValue {
    /// Relates the native return shape to the normalised outcome `r` and to
    /// `calls`, the block invocations recorded while normalising it.
    spec fn return_spec(self, r: Result<Value, Error>, calls: Seq<BlockCall>) -> bool;

    /// Normalise this return shape. New block invocations, if any, are
    /// appended to `sink` in the order the host must perform them.
    fn into_return_value(self, sink: &mut BlockSink) -> (r: Result<Value, Error>)
        ensures
            old(sink).calls@.is_prefix_of(final(sink).calls@),
            self.return_spec(r, final(sink).calls@.skip(old(sink).calls@.len() as int)),
    ;
}

impl<T: IntoValue> ReturnValue for T {
    open spec fn return_spec(self, r: Result<Value, Error>, calls: Seq<BlockCall>) -> bool {
        calls.len() == 0 && (r matches Ok(v) && self.is_value_of(v))
    }

    fn into_return_value(self, sink: &mut BlockSink) -> (r: Result<Value, Error>) {
        proof {
            lemma_sink_unchanged(sink.calls@);
        }
        Ok(self.into_value())
    }
}

impl<T: IntoValue> ReturnValue for Result<T, Error> {
    open spec fn return_spec(self, r: Result<Value, Error>, calls: Seq<BlockCall>) -> bool {
        match self {
            Ok(t) => calls.len() == 0 && (r matches Ok(v) && t.is_value_of(v)),
            Err(e) => calls.len() == 0 && r == Err::<Value, Error>(e),
        }
    }

    fn into_return_value(self, sink: &mut BlockSink) -> (r: Result<Value, Error>) {
        proof {
            lemma_sink_unchanged(sink.calls@);
        }
        match self {
            Ok(t) => Ok(t.into_value()),
            Err(e) => Err(e),
        }
    }
}

impl<I> ReturnValue for Yield<I> where I: Source, I::Item: IntoValue {
    open spec fn return_spec(self, r: Result<Value, Error>, calls: Seq<BlockCall>) -> bool {
        match self {
            Yield::Iter(src) => r == Ok::<Value, Error>(Value::Nil) && calls.len()
                == src.remaining().len() && (forall|k: int|
                0 <= k < calls.len() ==> ((#[trigger] calls[k]) matches BlockCall::Single(v) && src.remaining()[k].is_value_of(v))),
            Yield::Enumerator(e) => calls.len() == 0 && r == Ok::<Value, Error>(e),
        }
    }

    fn into_return_value(self, sink: &mut BlockSink) -> (r: Result<Value, Error>) {
        match self {
            Yield::Iter(src) => {
                let mut src = src;
                let ghost base: Seq<BlockCall> = sink.calls@;
                let ghost orig = src.remaining();
                loop
                    invariant
                        base.len() <= sink.calls@.len(),
                        sink.calls@.len() - base.len() <= orig.len(),
                        sink.calls@.take(base.len() as int) == base,
                        src.remaining() == orig.skip(sink.calls@.len() - base.len()),
                        forall|k: int|
                            base.len() <= k < sink.calls@.len() ==> ((#[trigger] sink.calls@[k]) matches BlockCall::Single(v)
                                && orig[k - base.len()].is_value_of(v)),
                    ensures
                        src.remaining().len() == 0,
                        base.len() <= sink.calls@.len(),
                        sink.calls@.len() - base.len() == orig.len(),
                        sink.calls@.take(base.len() as int) == base,
                        forall|k: int|
                            base.len() <= k < sink.calls@.len() ==> ((#[trigger] sink.calls@[k]) matches BlockCall::Single(v)
                                && orig[k - base.len()].is_value_of(v)),
                    decreases src.remaining().len(),
                {
                    match src.next_element() {
                        Some(item) => {
                            let ghost i: int = sink.calls@.len() - base.len();
                            proof {
                                assert(orig.skip(i)[0] == orig[i]);
                                assert(orig.skip(i).drop_first() =~= orig.skip(i + 1));
                            }
                            sink.invoke(BlockCall::Single(item.into_value()));
                            proof {
                                assert(sink.calls@.take(base.len() as int) =~= base);
                            }
                        },
                        None => {
                            break ;
                        },
                    }
                }
                proof {
                    let tail = sink.calls@.skip(base.len() as int);
                    assert(base.is_prefix_of(sink.calls@));
                    assert(tail.len() == orig.len());
                    assert forall|k: int| 0 <= k < tail.len() implies ((#[trigger] tail[k]) matches BlockCall::Single(v)
                        && orig[k].is_value_of(v)) by {
                        assert(tail[k] == sink.calls@[base.len() + k]);
                    }
                }
                Ok(Value::Nil)
            },
            Yield::Enumerator(e) => {
                proof {
                    lemma_sink_unchanged(sink.calls@);
                }
                Ok(e)
            },
        }
    }
}

impl<I> ReturnValue for Result<Yield<I>, Error> where I: Source, I::Item: IntoValue {
    open spec fn return_spec(self, r: Result<Value, Error>, calls: Seq<BlockCall>) -> bool {
        match self {
            Ok(y) => y.return_spec(r, calls),
            Err(e) => calls.len() == 0 && r == Err::<Value, Error>(e),
        }
    }

    fn into_return_value(self, sink: &mut BlockSink) -> (r: Result<Value, Error>) {
        match self {
            Ok(y) => y.into_return_value(sink),
            Err(e) => {
                proof {
                    lemma_sink_unchanged(sink.calls@);
                }
                Err(e)
            },
        }
    }
}

impl<I> ReturnValue for YieldValues<I> where I: Source, I::Item: ArgList {
    open spec fn return_spec(self, r: Result<Value, Error>, calls: Seq<BlockCall>) -> bool {
        match self {
            YieldValues::Iter(src) => r == Ok::<Value, Error>(Value::Nil) && calls.len()
                == src.remaining().len() && (forall|k: int|
                0 <= k < calls.len() ==> ((#[trigger] calls[k]) matches BlockCall::Values(vs) && src.remaining()[k].is_arg_list_of(vs@))),
            YieldValues::Enumerator(e) => calls.len() == 0 && r == Ok::<Value, Error>(e),
        }
    }

    fn into_return_value(self, sink: &mut BlockSink) -> (r: Result<Value, Error>) {
        match self {
            YieldValues::Iter(src) => {
                let mut src = src;
                let ghost base: Seq<BlockCall> = sink.calls@;
                let ghost orig = src.remaining();
                loop
                    invariant
                        base.len() <= sink.calls@.len(),
                        sink.calls@.len() - base.len() <= orig.len(),
                        sink.calls@.take(base.len() as int) == base,
                        src.remaining() == orig.skip(sink.calls@.len() - base.len()),
                        forall|k: int|
                            base.len() <= k < sink.calls@.len() ==> ((#[trigger] sink.calls@[k]) matches BlockCall::Values(vs)
                                && orig[k - base.len()].is_arg_list_of(vs@)),
                    ensures
                        src.remaining().len() == 0,
                        base.len() <= sink.calls@.len(),
                        sink.calls@.len() - base.len() == orig.len(),
                        sink.calls@.take(base.len() as int) == base,
                        forall|k: int|
                            base.len() <= k < sink.calls@.len() ==> ((#[trigger] sink.calls@[k]) matches BlockCall::Values(vs)
                                && orig[k - base.len()].is_arg_list_of(vs@)),
                    decreases src.remaining().len(),
                {
                    match src.next_element() {
                        Some(item) => {
                            let ghost i: int = sink.calls@.len() - base.len();
                            proof {
                                assert(orig.skip(i)[0] == orig[i]);
                                assert(orig.skip(i).drop_first() =~= orig.skip(i + 1));
                            }
                            sink.invoke(BlockCall::Values(item.into_arg_list()));
                            proof {
                                assert(sink.calls@.take(base.len() as int) =~= base);
                            }
                        },
                        None => {
                            break ;
                        },
                    }
                }
                proof {
                    let tail = sink.calls@.skip(base.len() as int);
                    assert(base.is_prefix_of(sink.calls@));
                    assert(tail.len() == orig.len());
                    assert forall|k: int| 0 <= k < tail.len() implies ((#[trigger] tail[k]) matches BlockCall::Values(vs)
                        && orig[k].is_arg_list_of(vs@)) by {
                        assert(tail[k] == sink.calls@[base.len() + k]);
                    }
                }
                Ok(Value::Nil)
            },
            YieldValues::Enumerator(e) => {
                proof {
                    lemma_sink_unchanged(sink.calls@);
                }
                Ok(e)
            },
        }
    }
}

impl<I> ReturnValue for Result<YieldValues<I>, Error> where I: Source, I::Item: ArgList {
    open spec fn return_spec(self, r: Result<Value, Error>, calls: Seq<BlockCall>) -> bool {
        match self {
            Ok(y) => y.return_spec(r, calls),
            Err(e) => calls.len() == 0 && r == Err::<Value, Error>(e),
        }
    }

    fn into_return_value(self, sink: &mut BlockSink) -> (r: Result<Value, Error>) {
        match self {
            Ok(y) => y.into_return_value(sink),
            Err(e) => {
                proof {
                    lemma_sink_unchanged(sink.calls@);
                }
                Err(e)
            },
        }
    }
}

impl<I> ReturnValue for YieldSplat<I> where I: Source<Item = Vec<Value>> {
    open spec fn return_spec(self, r: Result<Value, Error>, calls: Seq<BlockCall>) -> bool {
        match self {
            YieldSplat::Iter(src) => r == Ok::<Value, Error>(Value::Nil) && calls.len()
                == src.remaining().len() && (forall|k: int|
                0 <= k < calls.len() ==> ((#[trigger] calls[k]) matches BlockCall::Splat(vs) && vs@ == src.remaining()[k]@)),
            YieldSplat::Enumerator(e) => calls.len() == 0 && r == Ok::<Value, Error>(e),
        }
    }

    fn into_return_value(self, sink: &mut BlockSink) -> (r: Result<Value, Error>) {
        match self {
            YieldSplat::Iter(src) => {
                let mut src = src;
                let ghost base: Seq<BlockCall> = sink.calls@;
                let ghost orig = src.remaining();
                loop
                    invariant
                        base.len() <= sink.calls@.len(),
                        sink.calls@.len() - base.len() <= orig.len(),
                        sink.calls@.take(base.len() as int) == base,
                        src.remaining() == orig.skip(sink.calls@.len() - base.len()),
                        forall|k: int|
                            base.len() <= k < sink.calls@.len() ==> ((#[trigger] sink.calls@[k]) matches BlockCall::Splat(vs)
                                && vs@ == orig[k - base.len()]@),
                    ensures
                        src.remaining().len() == 0,
                        base.len() <= sink.calls@.len(),
                        sink.calls@.len() - base.len() == orig.len(),
                        sink.calls@.take(base.len() as int) == base,
                        forall|k: int|
                            base.len() <= k < sink.calls@.len() ==> ((#[trigger] sink.calls@[k]) matches BlockCall::Splat(vs)
                                && vs@ == orig[k - base.len()]@),
                    decreases src.remaining().len(),
                {
                    match src.next_element() {
                        Some(item) => {
                            let ghost i: int = sink.calls@.len() - base.len();
                            proof {
                                assert(orig.skip(i)[0] == orig[i]);
                                assert(orig.skip(i).drop_first() =~= orig.skip(i + 1));
                            }
                            sink.invoke(BlockCall::Splat(item));
                            proof {
                                assert(sink.calls@.take(base.len() as int) =~= base);
                            }
                        },
                        None => {
                            break ;
                        },
                    }
                }
                proof {
                    let tail = sink.calls@.skip(base.len() as int);
                    assert(base.is_prefix_of(sink.calls@));
                    assert(tail.len() == orig.len());
                    assert forall|k: int| 0 <= k < tail.len() implies ((#[trigger] tail[k]) matches BlockCall::Splat(vs)
                        && vs@ == orig[k]@) by {
                        assert(tail[k] == sink.calls@[base.len() + k]);
                    }
                }
                Ok(Value::Nil)
            },
            YieldSplat::Enumerator(e) => {
                proof {
                    lemma_sink_unchanged(sink.calls@);
                }
                Ok(e)
            },
        }
    }
}

impl<I> ReturnValue for Result<YieldSplat<I>, Error> where I: Source<Item = Vec<Value>> {
    open spec fn return_spec(self, r: Result<Value, Error>, calls: Seq<BlockCall>) -> bool {
        match self {
            Ok(y) => y.return_spec(r, calls),
            Err(e) => calls.len() == 0 && r == Err::<Value, Error>(e),
        }
    }

    fn into_return_value(self, sink: &mut BlockSink) -> (r: Result<Value, Error>) {
        match self {
            Ok(y) => y.into_return_value(sink),
            Err(e) => {
                proof {
                    lemma_sink_unchanged(sink.calls@);
                }
                Err(e)
            },
        }
    }
}

/// A native return shape accepted from a module-initialisation function:
/// nothing, or a typed failure to raise.
pub trait InitReturn {
    /// Relates the native return shape to the normalised outcome.
    spec fn init_return_spec(self, r: Result<(), Error>) -> bool;

    /// Normalise this return shape.
    fn into_init_return(self) -> (r: Result<(), Error>)
        ensures
            self.init_return_spec(r),
    ;
}

impl InitReturn for () {
    open spec fn init_return_spec(self, r: Result<(), Error>) -> bool {
        r == Ok::<(), Error>(())
    }

    fn into_init_return(self) -> (r: Result<(), Error>) {
        Ok(())
    }
}

impl InitReturn for Result<(), Error> {
    open spec fn init_return_spec(self, r: Result<(), Error>) -> bool {
        r == self
    }

    fn into_init_return(self) -> (r: Result<(), Error>) {
        self
    }
}

/// A native return shape accepted from a block function: a convertible
/// value, or a `Result` of one.
pub trait BlockReturn {
    /// Relates the native return shape to the normalised outcome.
    spec fn block_return_spec(self, r: Result<Value, Error>) -> bool;

    /// Normalise this return shape.
    fn into_block_return(self) -> (r: Result<Value, Error>)
        ensures
            self.block_return_spec(r),
    ;
}

impl<T: IntoValue> BlockReturn for T {
    open spec fn block_return_spec(self, r: Result<Value, Error>) -> bool {
        r matches Ok(v) && self.is_value_of(v)
    }

    fn into_block_return(self) -> (r: Result<Value, Error>) {
        Ok(self.into_value())
    }
}

impl<T: IntoValue> BlockReturn for Result<T, Error> {
    open spec fn block_return_spec(self, r: Result<Value, Error>) -> bool {
        match self {
            Ok(t) => r matches Ok(v) && t.is_value_of(v),
            Err(e) => r == Err::<Value, Error>(e),
        }
    }

    fn into_block_return(self) -> (r: Result<Value, Error>) {
        match self {
            Ok(t) => Ok(t.into_value()),
            Err(e) => Err(e),
        }
    }
}

} // verus!
