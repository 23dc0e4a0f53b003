use vstd::prelude::*;

verus! {

/// A single-kind event channel with latest-wins consumption.
///
/// The host side pushes events into `pending` at any time between frames.
/// At the start of a frame the channel is swapped: the most recent pending
/// event (and only that one) becomes the `active` event for the frame, and
/// older duplicates are dropped.  The frame's consumer then takes the active
/// event exactly once.
pub struct Channel<T> {
    pub pending: Vec<T>,
    pub active: Option<T>,
}

impl<T> Channel<T> {
    /// The event the consumer will see after the next swap, given the
    /// events buffered so far: the latest one wins.
    pub open spec fn latest(self) -> Option<T> {
        if self.pending@.len() > 0 {
            Some(self.pending@.last())
        } else {
            None
        }
    }

    pub fn new() -> (c: Channel<T>)
        ensures
            c.pending@ == Seq::<T>::empty(),
            c.active is None,
    {
        Channel { pending: Vec::new(), active: None }
    }

    /// Buffer an event for the next frame.  Nothing is consumed here.
    pub fn send(&mut self, event: T)
        ensures
            final(self).pending@ == old(self).pending@.push(event),
            final(self).active == old(self).active,
    {
        self.pending.push(event);
    }

    /// Frame boundary: promote the latest buffered event to the active slot
    /// and drop the rest.
    pub fn swap(&mut self)
        ensures
            final(self).pending@ == Seq::<T>::empty(),
            final(self).active == old(self).latest(),
    {
        let last = self.pending.pop();
        self.pending.clear();
        self.active = last;
    }

    /// Latest wins: when two events of one kind are buffered within the same
    /// frame, the next swap delivers only the second; the first is dropped.
    pub proof fn lemma_latest_wins(pre: Channel<T>, mid: Channel<T>, post: Channel<T>, e1: T, e2: T)
        requires
            mid.pending@ == pre.pending@.push(e1),
            post.pending@ == mid.pending@.push(e2),
        ensures
            post.latest() == Some(e2),
    {
    }

    /// Consume the frame's active event, leaving the channel empty of it.
    pub fn take(&mut self) -> (event: Option<T>)
        ensures
            event == old(self).active,
            final(self).active is None,
            final(self).pending@ == old(self).pending@,
    {
        self.active.take()
    }
}

} // verus!
