//! The momentum channel: an unbounded first-in-first-out conduit from
//! the tracker to the emulator. Delivery preserves send order and the
//! queue itself never drops a message. A deployment that runs tracker
//! and emulator in separate execution contexts puts its own blocking
//! transport at this boundary; this queue is the verified single-context
//! form of that contract and what tests compose the two ends with.

use crate::intent::MomentumIntent;
use vstd::prelude::*;

verus! {

/// An unbounded FIFO queue of momentum intents.
pub struct IntentQueue {
    items: Vec<MomentumIntent>,
}

impl IntentQueue {
    /// The pending intents, oldest first.
    pub closed spec fn view(self) -> Seq<MomentumIntent> {
        self.items@
    }

    /// Builds an empty queue.
    pub fn new() -> (r: IntentQueue)
        ensures
            r@ == Seq::<MomentumIntent>::empty(),
    {
        IntentQueue { items: Vec::new() }
    }

    /// How many intents are pending.
    pub fn len(&self) -> (n: usize)
        ensures
            n == self@.len(),
    {
        self.items.len()
    }

    /// Appends an intent at the back; nothing already queued moves.
    pub fn send(&mut self, intent: MomentumIntent)
        ensures
            final(self)@ == old(self)@.push(intent),
    {
        self.items.push(intent);
    }

    /// Takes the oldest intent, if any: exactly the send order comes out.
    pub fn try_recv(&mut self) -> (r: Option<MomentumIntent>)
        ensures
            old(self)@.len() == 0 ==> r is None && final(self)@ == old(self)@,
            old(self)@.len() > 0 ==> r == Some(old(self)@[0]) && final(self)@ == old(
                self,
            )@.subrange(1, old(self)@.len() as int),
    {
        if self.items.len() == 0 {
            None
        } else {
            let intent = self.items.remove(0);
            Some(intent)
        }
    }
}

} // verus!
