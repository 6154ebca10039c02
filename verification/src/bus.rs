//! The action queue between producers (input translation, components
//! asking for navigation) and the dispatch loop.

use vstd::prelude::*;

use crate::action::Action;

verus! {

/// A first-in-first-out queue of actions.  `send` enqueues without
/// blocking; `try_recv` takes the oldest queued action, if any.
pub struct ActionBus {
    queue: Vec<Action>,
}

impl View for ActionBus {
    type V = Seq<Action>;

    closed spec fn view(&self) -> Seq<Action> {
        self.queue@
    }
}

impl ActionBus {
    /// An empty queue.
    pub fn new() -> (b: ActionBus)
        ensures
            b@ == Seq::<Action>::empty(),
    {
        ActionBus { queue: Vec::new() }
    }

    /// Enqueue `action` behind everything already queued.
    pub fn send(&mut self, action: Action)
        ensures
            final(self)@ == old(self)@.push(action),
    {
        self.queue.push(action);
    }

    /// Dequeue the oldest action; `None` when the queue is empty.
    pub fn try_recv(&mut self) -> (r: Option<Action>)
        ensures
            old(self)@.len() == 0 ==> r is None && final(self)@ == old(self)@,
            old(self)@.len() > 0 ==> r == Some(old(self)@[0]) && final(self)@ == old(self)@.subrange(
                1,
                old(self)@.len() as int,
            ),
    {
        if self.queue.len() == 0 {
            None
        } else {
            Some(self.queue.remove(0))
        }
    }

    /// How many actions are queued.
    pub fn len(&self) -> (n: usize)
        ensures
            n == self@.len(),
    {
        self.queue.len()
    }
}

} // verus!
