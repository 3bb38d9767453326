//! The ordered command channel between producers and the consumer.
//!
//! The channel is an append-only (producer side), drain-only (consumer
//! side) FIFO of [`DrawCmd`]s: commands come out in exactly the order they
//! went in, and the transport never reorders or coalesces them. Draining
//! never blocks: [`Channel::try_recv`] returns `None` the moment the queue
//! is empty.
//!
//! Closing models consumer teardown: once the consumer is gone, a send
//! fails with [`ChannelClosed`] — a deliberate, recoverable error rather
//! than a crash, so a producer outliving the render loop can notice and
//! stop.

use vstd::prelude::*;
use crate::shape::DrawCmd;

verus! {

/// The error of sending on a channel whose consumer has been torn down.
#[derive(Clone, Copy, Debug, PartialEq, Eq, Structural)]
pub struct ChannelClosed;

/// An ordered, unbounded FIFO of drawing commands.
pub struct Channel {
    cmds: Vec<DrawCmd>,
    closed: bool,
}

impl View for Channel {
    type V = Seq<DrawCmd>;

    /// The queued commands, oldest first.
    closed spec fn view(&self) -> Seq<DrawCmd> {
        self.cmds@
    }
}

impl Channel {
    /// Whether the consumer has been torn down.
    pub closed spec fn is_closed(&self) -> bool {
        self.closed
    }

    /// A fresh, open, empty channel.
    pub fn new() -> (c: Channel)
        ensures
            c@ == Seq::<DrawCmd>::empty(),
            !c.is_closed(),
    {
        Channel { cmds: Vec::new(), closed: false }
    }

    /// Appends one command at the back of the queue; fails, leaving the
    /// queue untouched, exactly when the channel is closed.
    pub fn send(&mut self, cmd: DrawCmd) -> (r: Result<(), ChannelClosed>)
        ensures
            final(self).is_closed() == old(self).is_closed(),
            old(self).is_closed() ==> r is Err && final(self)@ == old(self)@,
            !old(self).is_closed() ==> r is Ok && final(self)@ == old(self)@.push(cmd),
    {
        if self.closed {
            Err(ChannelClosed)
        } else {
            self.cmds.push(cmd);
            Ok(())
        }
    }

    /// Takes the oldest queued command, without blocking: `None` exactly
    /// when the queue is empty.
    pub fn try_recv(&mut self) -> (r: Option<DrawCmd>)
        ensures
            final(self).is_closed() == old(self).is_closed(),
            old(self)@.len() == 0 ==> r is None && final(self)@ == old(self)@,
            old(self)@.len() > 0 ==> r == Some(old(self)@[0]) && final(self)@ == old(self)@.drop_first(),
    {
        if self.cmds.len() == 0 {
            None
        } else {
            let cmd = self.cmds.remove(0);
            proof {
                assert(final(self)@ =~= old(self)@.drop_first());
            }
            Some(cmd)
        }
    }

    /// How many commands are queued.
    pub fn len(&self) -> (n: usize)
        ensures
            n == self@.len(),
    {
        self.cmds.len()
    }

    /// Takes every queued command at once, oldest first.
    pub fn drain(&mut self) -> (v: Vec<DrawCmd>)
        ensures
            v@ == old(self)@,
            final(self)@.len() == 0,
            final(self).is_closed() == old(self).is_closed(),
    {
        let mut out: Vec<DrawCmd> = Vec::new();
        loop
            invariant
                self.closed == old(self).closed,
                out@ + self@ == old(self)@,
            ensures
                self@.len() == 0,
                out@ + self@ == old(self)@,
            decreases self@.len(),
        {
            match self.try_recv() {
                None => {
                    break;
                },
                Some(cmd) => {
                    out.push(cmd);
                },
            }
        }
        proof {
            assert(out@ =~= old(self)@);
        }
        out
    }

    /// Tears the consumer side down: every later send fails.
    pub fn close(&mut self)
        ensures
            final(self)@ == old(self)@,
            final(self).is_closed(),
    {
        self.closed = true;
    }
}

/// The commands that repeated [`Channel::try_recv`] calls observe, in
/// order, when the queue holds `q`: the first command, then whatever the
/// rest of the queue yields.
pub open spec fn recv_order(q: Seq<DrawCmd>) -> Seq<DrawCmd>
    decreases q.len(),
{
    if q.len() == 0 {
        Seq::empty()
    } else {
        seq![q[0]] + recv_order(q.drop_first())
    }
}

/// Order preservation: however many commands are queued, the consumer
/// observes them in exactly the order they were enqueued. With several
/// producers sharing the one channel, each send lands at the back of the
/// same queue, so the observed order is the interleaving in which the
/// sends happened.
pub proof fn lemma_order_preservation(q: Seq<DrawCmd>)
    ensures
        recv_order(q) == q,
    decreases q.len(),
{
    if q.len() > 0 {
        lemma_order_preservation(q.drop_first());
        assert(recv_order(q) =~= q);
    } else {
        assert(recv_order(q) =~= q);
    }
}

} // verus!
