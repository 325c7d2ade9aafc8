use vstd::prelude::*;

use crate::value::Value;

verus! {

/// A finite, single-pass source of elements, to be bridged element by
/// element to the host's block-calling protocol. This is the dispatch core's
/// analogue of a native iterator: `remaining` is the sequence of elements
/// the source will still produce, and `next_element` produces them in order.
/// Once consumed, the underlying sequence is exhausted; it is not
/// restartable.
pub trait Source: Sized {
    type Item;

    /// The elements this source will still produce, in production order.
    spec fn remaining(&self) -> Seq<Self::Item>;

    /// Produce the next element, or `None` when the source is exhausted.
    fn next_element(&mut self) -> (r: Option<Self::Item>)
        ensures
            match r {
                Some(x) => old(self).remaining().len() > 0 && x == old(self).remaining()[0]
                    && final(self).remaining() == old(self).remaining().drop_first(),
                None => old(self).remaining().len() == 0 && final(self).remaining() == old(
                    self,
                ).remaining(),
            },
    ;
}

/// A source that hands out the elements of a vector, front to back.
pub struct VecSource<T> {
    pub items: Vec<T>,
}

impl<T> VecSource<T> {
    /// A source producing exactly the elements of `items`, in order.
    pub fn new(items: Vec<T>) -> (s: VecSource<T>)
        ensures
            s.remaining() == items@,
    {
        VecSource { items }
    }
}

impl<T> Source for VecSource<T> {
    type Item = T;

    open spec fn remaining(&self) -> Seq<T> {
        self.items@
    }

    fn next_element(&mut self) -> (r: Option<T>) {
        if self.items.len() > 0 {
            let x = self.items.remove(0);
            proof {
                assert(self.items@ =~= old(self).items@.drop_first());
            }
            Some(x)
        } else {
            None
        }
    }
}

/// One invocation of the host's block, as the dispatch core requests it.
#[derive(Debug, PartialEq, Eq)]
pub enum BlockCall {
    /// Call the block with a single argument.
    Single(Value),
    /// Call the block with the given positional arguments.
    Values(Vec<Value>),
    /// Call the block by splatting the given aggregate into arguments.
    Splat(Vec<Value>),
}

/// The channel through which the dispatch core drives the host's block
/// protocol. The core records, in order, every block invocation the host
/// must perform; the embedding layer forwards each recorded entry to the
/// host's own block-calling primitive, synchronously on the calling thread.
#[derive(Debug, PartialEq, Eq)]
pub struct BlockSink {
    pub calls: Vec<BlockCall>,
}

impl BlockSink {
    /// A sink with no invocations recorded yet.
    pub fn new() -> (s: BlockSink)
        ensures
            s.calls@ == Seq::<BlockCall>::empty(),
    {
        BlockSink { calls: Vec::new() }
    }

    /// Record one block invocation.
    pub fn invoke(&mut self, call: BlockCall)
        ensures
            final(self).calls@ == old(self).calls@.push(call),
    {
        self.calls.push(call);
    }
}

/// A sequence is a prefix of itself, and dropping its whole length leaves
/// nothing: the shape of a sink that recorded no new invocations.
pub proof fn lemma_sink_unchanged(s: Seq<BlockCall>)
    ensures
        s.is_prefix_of(s),
        s.skip(s.len() as int) == Seq::<BlockCall>::empty(),
{
    assert(s.take(s.len() as int) =~= s);
    assert(s.skip(s.len() as int) =~= Seq::<BlockCall>::empty());
}

/// Return shape bridging a native element source to a host method that
/// yields each element to the method's block, one element per invocation.
pub enum Yield<I> {
    /// Drive the source eagerly: the block is called once per element, in
    /// production order, on the calling thread, before the call returns.
    Iter(I),
    /// Hand back a pre-built host enumerator handle instead; the source is
    /// not driven at all.
    Enumerator(Value),
}

/// Return shape like [`Yield`], but each element expands into the positional
/// arguments of one block invocation.
pub enum YieldValues<I> {
    /// Drive the source eagerly, one block invocation per element.
    Iter(I),
    /// Hand back a pre-built host enumerator handle; the source is not
    /// driven.
    Enumerator(Value),
}

/// Return shape like [`Yield`], but each element is itself an aggregate that
/// the host splats into the block's arguments.
pub enum YieldSplat<I> {
    /// Drive the source eagerly, one block invocation per element.
    Iter(I),
    /// Hand back a pre-built host enumerator handle; the source is not
    /// driven.
    Enumerator(Value),
}

} // verus!
