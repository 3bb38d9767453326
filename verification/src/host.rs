//! Hosts: where a canvas gets its channel.
//!
//! A `Host` provides canvases with a place to send commands. There is
//! exactly one consumer per render destination, so a host hands its
//! channel out at most once: after the first successful call, `sender`
//! returns nothing.

use vstd::prelude::*;
use crate::channel::Channel;

verus! {

/// A provider of the one command channel of a render destination.
///
/// Backends implement this around whatever owns their event loop. The
/// channel must be handed out at most once: a second call after the first
/// successful one returns `None`.
pub trait Host {
    /// Gets the channel that accepts drawing commands, if it has not been
    /// taken yet.
    fn sender(&mut self) -> Option<Channel>;
}

/// The plain host: holds one channel and hands it out once.
pub struct ChannelHost {
    chan: Option<Channel>,
}

impl ChannelHost {
    /// Whether the channel is still available.
    pub closed spec fn available(&self) -> bool {
        self.chan is Some
    }

    /// The channel still held, when it is.
    pub closed spec fn held(&self) -> Channel {
        self.chan->0
    }

    /// A host holding a fresh, open, empty channel.
    pub fn new() -> (h: ChannelHost)
        ensures
            h.available(),
            h.held()@ == Seq::<crate::shape::DrawCmd>::empty(),
            !h.held().is_closed(),
    {
        ChannelHost { chan: Some(Channel::new()) }
    }

    /// Hands the channel out, at most once: the first call takes it, every
    /// later call returns nothing.
    pub fn take_sender(&mut self) -> (r: Option<Channel>)
        ensures
            !final(self).available(),
            old(self).available() ==> r == Some(old(self).held()),
            !old(self).available() ==> r is None,
    {
        self.chan.take()
    }
}

impl Host for ChannelHost {
    fn sender(&mut self) -> Option<Channel> {
        self.take_sender()
    }
}

} // verus!
