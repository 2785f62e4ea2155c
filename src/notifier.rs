//! The queue of completion notices for machines that wait on out-of-band sub-tasks.
//!
//! A notice names a machine by its message id and group id. The consumer takes notices
//! from the front and tries to lock the named machine without blocking; a notice whose
//! machine was busy goes back to the end of the queue, so one busy machine never holds
//! up the notices of the others.
use std::collections::VecDeque;
use vstd::prelude::*;

verus! {

/// Pending notices, oldest first.
pub struct NotifyQueue {
    queue: VecDeque<(u64, u64)>,
}

impl NotifyQueue {
    /// The pending notices, oldest first: (message id, group id).
    pub closed spec fn pending(&self) -> Seq<(u64, u64)> {
        self.queue@
    }

    /// An empty queue.
    pub fn new() -> (r: Self)
        ensures
            r.pending() == Seq::<(u64, u64)>::empty(),
    {
        NotifyQueue { queue: VecDeque::new() }
    }

    /// Queues a notice for the machine of `msg_id` in `guild_id`.
    pub fn notify(&mut self, msg_id: u64, guild_id: u64)
        ensures
            final(self).pending() == old(self).pending().push((msg_id, guild_id)),
    {
        self.queue.push_back((msg_id, guild_id));
    }

    /// Takes the oldest notice.
    pub fn next(&mut self) -> (r: Option<(u64, u64)>)
        ensures
            old(self).pending().len() == 0 ==> r is None && final(self).pending() == old(self).pending(),
            old(self).pending().len() > 0 ==> r == Some(old(self).pending()[0])
                && final(self).pending() == old(self).pending().drop_first(),
    {
        self.queue.pop_front()
    }

    /// Settles a notice taken with `next` after the attempt to deliver it: a notice
    /// whose machine was locked by someone else is queued again at the end.
    pub fn settle(&mut self, notice: (u64, u64), delivered: bool)
        ensures
            delivered ==> final(self).pending() == old(self).pending(),
            !delivered ==> final(self).pending() == old(self).pending().push(notice),
    {
        if !delivered {
            self.queue.push_back(notice);
        }
    }
}

} // verus!
