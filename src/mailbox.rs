use vstd::prelude::*;

verus! {

/// A single-slot, latest-value-wins handoff cell between one producer and one
/// consumer. A `put` overwrites any value that was not yet taken.
pub struct Mailbox<T> {
    slot: Option<T>,
}

impl<T> View for Mailbox<T> {
    type V = Option<T>;

    closed spec fn view(&self) -> Option<T> {
        self.slot
    }
}

impl<T> Mailbox<T> {
    /// An empty mailbox.
    pub fn new() -> (r: Self)
        ensures
            r@ == None::<T>,
    {
        Mailbox { slot: None }
    }

    /// Stores `value`, replacing whatever was pending.
    pub fn put(&mut self, value: T)
        ensures
            final(self)@ == Some(value),
    {
        self.slot = Some(value);
    }

    /// Removes and returns the pending value, leaving the mailbox empty.
    pub fn try_take(&mut self) -> (r: Option<T>)
        ensures
            r == old(self)@,
            final(self)@ == None::<T>,
    {
        let r = self.slot.take();
        r
    }

    /// Whether a value is pending.
    pub fn is_pending(&self) -> (r: bool)
        ensures
            r == self@.is_some(),
    {
        self.slot.is_some()
    }
}

} // verus!
