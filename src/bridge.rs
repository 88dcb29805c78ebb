//! A single-consumer command queue.
//!
//! Any number of producers hand commands to the bridge; the one thread that owns
//! the graphics context takes them out and runs them, one after another, in the
//! order in which they were handed in. Once the sending side is closed no new
//! command is accepted, while those already queued are still delivered.

use std::collections::VecDeque;
use vstd::prelude::*;

verus! {

/// The abstract state of a bridge: the commands waiting, oldest first, and
/// whether the sending side has been closed.
pub ghost struct BridgeState<C> {
    pub pending: Seq<C>,
    pub closed: bool,
}

/// What one attempt to receive a command found.
pub enum Received<C> {
    /// The oldest waiting command, now taken out of the queue.
    Command(C),
    /// Nothing is waiting, but more may still be sent.
    Empty,
    /// Nothing is waiting and the sending side is closed: no more work will come.
    Closed,
}

impl<C> BridgeState<C> {
    /// The state after `c` is sent: appended at the back, unless the bridge is closed.
    pub open spec fn send(self, c: C) -> BridgeState<C> {
        if self.closed {
            self
        } else {
            BridgeState { pending: self.pending.push(c), closed: false }
        }
    }

    /// The state after each command of `cs` is sent, first to last.
    pub open spec fn send_all(self, cs: Seq<C>) -> BridgeState<C>
        decreases cs.len(),
    {
        if cs.len() == 0 {
            self
        } else {
            self.send_all(cs.drop_last()).send(cs.last())
        }
    }

    /// The state after the sending side is closed.
    pub open spec fn close(self) -> BridgeState<C> {
        BridgeState { pending: self.pending, closed: true }
    }

    /// What a single receive reports in this state.
    pub open spec fn received(self) -> Received<C> {
        if self.pending.len() > 0 {
            Received::Command(self.pending[0])
        } else if self.closed {
            Received::Closed
        } else {
            Received::Empty
        }
    }

    /// The state after a single receive.
    pub open spec fn after_receive(self) -> BridgeState<C> {
        if self.pending.len() > 0 {
            BridgeState { pending: self.pending.drop_first(), closed: self.closed }
        } else {
            self
        }
    }

    /// The state after every waiting command has been taken out.
    pub open spec fn drained(self) -> BridgeState<C> {
        BridgeState { pending: Seq::empty(), closed: self.closed }
    }

    /// No command is waiting and none can arrive any more.
    pub open spec fn finished(self) -> bool {
        self.closed && self.pending.len() == 0
    }
}

/// A first-in first-out queue of commands with a sending side that can be closed.
pub struct Bridge<C> {
    queue: VecDeque<C>,
    closed: bool,
}

impl<C> View for Bridge<C> {
    type V = BridgeState<C>;

    closed spec fn view(&self) -> BridgeState<C> {
        BridgeState { pending: self.queue@, closed: self.closed }
    }
}

impl<C> Bridge<C> {
    /// An open bridge with nothing queued.
    pub fn new() -> (r: Bridge<C>)
        ensures
            r@.pending == Seq::<C>::empty(),
            !r@.closed,
    {
        Bridge { queue: VecDeque::new(), closed: false }
    }

    /// Queues `cmd` behind everything already waiting. A closed bridge accepts
    /// nothing: the command is handed back in `Err` and the state is unchanged.
    pub fn send(&mut self, cmd: C) -> (r: Result<(), C>)
        ensures
            final(self)@ == old(self)@.send(cmd),
            old(self)@.closed ==> r == Err::<(), C>(cmd),
            !old(self)@.closed ==> r is Ok,
    {
        if self.closed {
            Err(cmd)
        } else {
            self.queue.push_back(cmd);
            Ok(())
        }
    }

    /// Closes the sending side. Commands already queued stay and are still delivered.
    pub fn close(&mut self)
        ensures
            final(self)@ == old(self)@.close(),
    {
        self.closed = true;
    }

    /// Whether the sending side has been closed.
    pub fn is_closed(&self) -> (r: bool)
        ensures
            r == self@.closed,
    {
        self.closed
    }

    /// The number of commands waiting.
    pub fn len(&self) -> (r: usize)
        ensures
            r == self@.pending.len(),
    {
        self.queue.len()
    }

    /// Takes out the oldest waiting command, or reports that there is none and
    /// whether more may come. Never waits.
    pub fn try_recv(&mut self) -> (r: Received<C>)
        ensures
            r == old(self)@.received(),
            final(self)@ == old(self)@.after_receive(),
    {
        match self.queue.pop_front() {
            Some(cmd) => Received::Command(cmd),
            None => {
                if self.closed {
                    Received::Closed
                } else {
                    Received::Empty
                }
            },
        }
    }

    /// Takes out every waiting command, oldest first.
    pub fn drain(&mut self) -> (r: Vec<C>)
        ensures
            r@ == old(self)@.pending,
            final(self)@ == old(self)@.drained(),
    {
        let mut out: Vec<C> = Vec::new();
        while self.queue.len() > 0
            invariant
                out@ + self.queue@ == old(self)@.pending,
                self.closed == old(self)@.closed,
            decreases self.queue@.len(),
        {
            let ghost before = self.queue@;
            match self.queue.pop_front() {
                Some(cmd) => {
                    out.push(cmd);
                    assert(out@ + self.queue@ =~= old(self)@.pending) by {
                        assert(before =~= seq![cmd] + self.queue@);
                    }
                },
                None => {},
            }
        }
        assert(out@ =~= old(self)@.pending);
        assert(self.queue@ =~= Seq::<C>::empty());
        out
    }
}

/// Commands sent one after another on an open bridge wait in the order in which
/// they were sent, behind those already waiting; receiving or draining then hands
/// them out in that order.
pub proof fn lemma_fifo<C>(s: BridgeState<C>, cs: Seq<C>)
    requires
        !s.closed,
    ensures
        s.send_all(cs).pending == s.pending + cs,
        !s.send_all(cs).closed,
        s.send_all(cs).drained().pending.len() == 0,
    decreases cs.len(),
{
    if cs.len() > 0 {
        lemma_fifo(s, cs.drop_last());
        assert(s.pending + cs.drop_last() + seq![cs.last()] =~= s.pending + cs);
    } else {
        assert(s.pending + cs =~= s.pending);
    }
}

/// However the sends of several producers interleave, the commands of any one
/// producer (picked out by `from_sender`) wait in the order in which that
/// producer sent them, behind its commands already waiting.
pub proof fn lemma_fifo_per_sender<C>(s: BridgeState<C>, cs: Seq<C>, from_sender: spec_fn(C) -> bool)
    requires
        !s.closed,
    ensures
        s.send_all(cs).pending.filter(from_sender) == s.pending.filter(from_sender) + cs.filter(
            from_sender,
        ),
{
    lemma_fifo(s, cs);
    Seq::filter_distributes_over_add(s.pending, cs, from_sender);
}

/// Closing keeps every waiting command; a drain after it hands them all out, and
/// from then on every receive reports that no more work will come, without
/// waiting, while anything sent is refused.
pub proof fn lemma_shutdown_drains<C>(s: BridgeState<C>, c: C)
    ensures
        s.close().pending == s.pending,
        s.close().drained().finished(),
        s.close().drained().received() == Received::<C>::Closed,
        s.close().drained().after_receive() == s.close().drained(),
        s.close().drained().send(c) == s.close().drained(),
{
}

} // verus!
