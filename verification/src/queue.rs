//! The ordering queue: what was read from the device and still awaits its
//! turn to be sent to the client.

use std::collections::VecDeque;
use vstd::prelude::*;

verus! {

/// The payloads as mathematical values.
pub open spec fn payloads_of(items: Seq<Vec<u8>>) -> Seq<Seq<u8>> {
    items.map_values(|payload: Vec<u8>| payload@)
}

/// The bytes of a number of chunks, one chunk after the other.
pub open spec fn concat(chunks: Seq<Seq<u8>>) -> Seq<u8> {
    chunks.flatten()
}

/// A chunk added at the end adds its bytes at the end.
pub proof fn lemma_concat_push(chunks: Seq<Seq<u8>>, chunk: Seq<u8>)
    ensures
        concat(chunks.push(chunk)) == concat(chunks) + chunk,
{
    chunks.lemma_flatten_push(chunk);
}

/// The bytes of the first chunk come first.
pub proof fn lemma_concat_first(chunks: Seq<Seq<u8>>)
    requires
        chunks.len() > 0,
    ensures
        concat(chunks) == chunks[0] + concat(chunks.skip(1)),
{
    assert(chunks.skip(1) =~= chunks.drop_first());
}

/// No chunks, no bytes.
pub proof fn lemma_concat_empty()
    ensures
        concat(Seq::<Seq<u8>>::empty()) == Seq::<u8>::empty(),
{
}

/// An unbounded first-in, first-out queue of payloads, with one producer (the
/// reader role) and one consumer (the send loop).
pub struct OrderingQueue {
    items: VecDeque<Vec<u8>>,
}

impl View for OrderingQueue {
    type V = Seq<Seq<u8>>;

    closed spec fn view(&self) -> Seq<Seq<u8>> {
        payloads_of(self.items@)
    }
}

impl OrderingQueue {
    /// An empty queue.
    pub fn new() -> (queue: Self)
        ensures
            queue@ == Seq::<Seq<u8>>::empty(),
    {
        let queue = OrderingQueue { items: VecDeque::new() };
        assert(queue@ =~= Seq::<Seq<u8>>::empty());
        queue
    }

    /// Number of payloads that wait.
    pub fn len(&self) -> (count: usize)
        ensures
            count == self@.len(),
    {
        self.items.len()
    }

    /// Whether no payload waits.
    pub fn is_empty(&self) -> (empty: bool)
        ensures
            empty == (self@.len() == 0),
    {
        self.items.len() == 0
    }

    /// Adds `payload` behind all that wait.
    pub fn push(&mut self, payload: Vec<u8>)
        ensures
            final(self)@ == old(self)@.push(payload@),
    {
        self.items.push_back(payload);
        assert(self@ =~= old(self)@.push(payload@));
    }

    /// Takes the payload that has waited longest, if there is one.
    pub fn pop(&mut self) -> (front: Option<Vec<u8>>)
        ensures
            match front {
                Some(payload) => old(self)@.len() > 0 && payload@ == old(self)@[0] && final(self)@
                    == old(self)@.skip(1),
                None => old(self)@.len() == 0 && final(self)@ == old(self)@,
            },
    {
        let front = self.items.pop_front();
        assert(self@ =~= if old(self)@.len() > 0 {
            old(self)@.skip(1)
        } else {
            old(self)@
        });
        front
    }

    /// Discards all that wait.
    pub fn clear(&mut self)
        ensures
            final(self)@ == Seq::<Seq<u8>>::empty(),
    {
        self.items.clear();
        assert(self@ =~= Seq::<Seq<u8>>::empty());
    }
}

} // verus!
