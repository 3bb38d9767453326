//! The producer-facing drawing API.
//!
//! A [`Canvas`] turns draw, clear, post-process and stop calls into
//! [`DrawCmd`]s and appends them to its channel. The channel is handed over
//! by a [`Host`] exactly once; when drawing is done, [`Canvas::stop`]
//! enqueues the stop request and hands the channel on to whoever runs the
//! consumer side.
//!
//! A send after the consumer is gone returns [`ChannelClosed`]: the error
//! is surfaced, deliberately, rather than crashing the producer.

use vstd::prelude::*;
use crate::channel::Channel;
use crate::channel::ChannelClosed;
use crate::color::Color;
use crate::host::Host;
use crate::shape::DrawCmd;
use crate::shape::ToDrawCmd;
use crate::style::Style;
use crate::transform::Transform;

verus! {

/// A generic drawing target.
pub trait Target: Sized {
    /// The commands queued behind this target, oldest first.
    spec fn queued(&self) -> Seq<DrawCmd>;

    /// Whether the consumer side has been torn down.
    spec fn hung_up(&self) -> bool;

    /// Draws one shape under a transform and a style: enqueues the
    /// shape-drawing command.
    fn draw<D: ToDrawCmd>(&mut self, transform: Transform, style: Style, shape: D) -> (r: Result<
        (),
        ChannelClosed,
    >)
        ensures
            final(self).hung_up() == old(self).hung_up(),
            old(self).hung_up() ==> r is Err && final(self).queued() == old(self).queued(),
            !old(self).hung_up() ==> r is Ok && final(self).queued() == old(self).queued().push(
                shape.cmd_spec(transform, style),
            ),
    ;

    /// Clears the whole target to a color: enqueues the clear command.
    fn clear<C: Color>(&mut self, color: C) -> (r: Result<(), ChannelClosed>)
        ensures
            final(self).hung_up() == old(self).hung_up(),
            old(self).hung_up() ==> r is Err && final(self).queued() == old(self).queued(),
            !old(self).hung_up() ==> r is Ok && final(self).queued() == old(self).queued().push(
                DrawCmd::Clear(color.norm_spec()),
            ),
    ;
}

/// A basic implementation of a [`Target`]: the handle a drawing thread
/// holds on the command channel.
pub struct Canvas {
    tx: Channel,
}

impl Target for Canvas {
    closed spec fn queued(&self) -> Seq<DrawCmd> {
        self.tx@
    }

    closed spec fn hung_up(&self) -> bool {
        self.tx.is_closed()
    }

    fn draw<D: ToDrawCmd>(&mut self, transform: Transform, style: Style, shape: D) -> (r: Result<
        (),
        ChannelClosed,
    >) {
        self.tx.send(shape.with_state(transform, style))
    }

    fn clear<C: Color>(&mut self, color: C) -> (r: Result<(), ChannelClosed>) {
        self.tx.send(DrawCmd::Clear(color.normalize()))
    }
}

impl Canvas {
    /// A canvas drawing to the host's channel, or `None` when the host has
    /// already handed its channel out.
    pub fn new<H: Host>(host: &mut H, _width: u32, _height: u32) -> (r: Option<Canvas>) {
        match host.sender() {
            Some(tx) => Some(Canvas { tx }),
            None => None,
        }
    }

    /// A canvas around a channel taken directly.
    pub fn from_channel(tx: Channel) -> (c: Canvas)
        ensures
            c.queued() == tx@,
            c.hung_up() == tx.is_closed(),
    {
        Canvas { tx }
    }

    /// Enqueues a replacement for the presentation fragment shader. The
    /// consumer applies it lazily, at the next presentation that
    /// recompiles it.
    pub fn use_post_process(&mut self, shader: &str) -> (r: Result<(), ChannelClosed>)
        ensures
            final(self).hung_up() == old(self).hung_up(),
            old(self).hung_up() ==> r is Err && final(self).queued() == old(self).queued(),
            !old(self).hung_up() ==> ({
                &&& r is Ok
                &&& final(self).queued().len() == old(self).queued().len() + 1
                &&& final(self).queued().drop_last() == old(self).queued()
                &&& final(self).queued().last() matches DrawCmd::UsePostProcess(src) && src@
                    == shader@
            }),
    {
        self.tx.send(DrawCmd::UsePostProcess(shader.to_owned()))
    }

    /// Enqueues the stop request and hands the channel on: the consumer
    /// must observe the stop before rendering any further frame, and exit
    /// its loop at the next tick boundary.
    pub fn stop(self) -> (chan: Channel)
        ensures
            chan.is_closed() == self.hung_up(),
            self.hung_up() ==> chan@ == self.queued(),
            !self.hung_up() ==> chan@ == self.queued().push(DrawCmd::Stop),
    {
        let mut tx = self.tx;
        let _ = tx.send(DrawCmd::Stop);
        tx
    }

    /// Hands the channel on without stopping, for a consumer that drains
    /// in the same flow of control.
    pub fn into_channel(self) -> (chan: Channel)
        ensures
            chan@ == self.queued(),
            chan.is_closed() == self.hung_up(),
    {
        self.tx
    }

    /// A drawing context with an implicit transform and style, so nested
    /// draw calls against this canvas may omit them.
    pub fn with_state(&self, transform: Transform, style: Style) -> (t: ImplicitTarget)
        ensures
            t == (ImplicitTarget { transform, style }),
    {
        ImplicitTarget::from_state(transform, style)
    }

    /// A drawing context with an implicit style and no implicit transform.
    pub fn with_style(&self, style: Style) -> (t: ImplicitTarget)
        ensures
            t == (ImplicitTarget { transform: Transform { rotation: 0, scale: crate::transform::SCALE_ONE, dx: 0, dy: 0 }, style }),
    {
        ImplicitTarget::from_state(Transform::identity(), style)
    }

    /// A drawing context with an implicit transform. Callers are
    /// encouraged to pass their own style to each draw call, since the
    /// implicit one is just an opaque black fill.
    pub fn with_transform(&self, transform: Transform) -> (t: ImplicitTarget)
        ensures
            t.transform == transform,
            t.style == (Style::FillStyle {
                color: crate::color::Rgba { r: 0, g: 0, b: 0, a: crate::color::UNIT_MAX },
            }),
    {
        ImplicitTarget::from_state(transform, Style::fill((0u8, 0u8, 0u8)))
    }

    /// Borrows the channel for draining in place.
    pub fn channel_mut(&mut self) -> (chan: &mut Channel)
        ensures
            (*chan)@ == old(self).queued(),
            chan.is_closed() == old(self).hung_up(),
            final(self).queued() == (*final(chan))@,
            final(self).hung_up() == final(chan).is_closed(),
    {
        &mut self.tx
    }
}

/// A lightweight drawing context: an implicit transform and style, so
/// nested draw calls may omit them. Forwards to the target it is used
/// with; a convenience composition, not a protocol concern.
#[derive(Clone, Copy, Debug, PartialEq, Eq, Structural)]
pub struct ImplicitTarget {
    pub transform: Transform,
    pub style: Style,
}

impl ImplicitTarget {
    /// A context from an explicit transform and style.
    pub fn from_state(transform: Transform, style: Style) -> (t: ImplicitTarget)
        ensures
            t == (ImplicitTarget { transform, style }),
    {
        ImplicitTarget { transform, style }
    }

    /// Draws under the implicit transform and style.
    pub fn draw<T: Target, D: ToDrawCmd>(&self, target: &mut T, shape: D) -> (r: Result<
        (),
        ChannelClosed,
    >)
        ensures
            final(target).hung_up() == old(target).hung_up(),
            old(target).hung_up() ==> r is Err && final(target).queued() == old(target).queued(),
            !old(target).hung_up() ==> r is Ok && final(target).queued() == old(
                target,
            ).queued().push(shape.cmd_spec(self.transform, self.style)),
    {
        target.draw(self.transform, self.style, shape)
    }

    /// Draws under the implicit transform with an explicit style.
    pub fn draw_with_style<T: Target, D: ToDrawCmd>(
        &self,
        target: &mut T,
        style: Style,
        shape: D,
    ) -> (r: Result<(), ChannelClosed>)
        ensures
            final(target).hung_up() == old(target).hung_up(),
            old(target).hung_up() ==> r is Err && final(target).queued() == old(target).queued(),
            !old(target).hung_up() ==> r is Ok && final(target).queued() == old(
                target,
            ).queued().push(shape.cmd_spec(self.transform, style)),
    {
        target.draw(self.transform, style, shape)
    }

    /// Draws under the implicit style with an explicit transform.
    pub fn draw_with_transform<T: Target, D: ToDrawCmd>(
        &self,
        target: &mut T,
        transform: Transform,
        shape: D,
    ) -> (r: Result<(), ChannelClosed>)
        ensures
            final(target).hung_up() == old(target).hung_up(),
            old(target).hung_up() ==> r is Err && final(target).queued() == old(target).queued(),
            !old(target).hung_up() ==> r is Ok && final(target).queued() == old(
                target,
            ).queued().push(shape.cmd_spec(transform, self.style)),
    {
        target.draw(transform, self.style, shape)
    }

    /// Identical to [`Target::clear`]; mirrored here so a caller holding
    /// only the context need not reach around it.
    pub fn clear<T: Target, C: Color>(&self, target: &mut T, color: C) -> (r: Result<
        (),
        ChannelClosed,
    >)
        ensures
            final(target).hung_up() == old(target).hung_up(),
            old(target).hung_up() ==> r is Err && final(target).queued() == old(target).queued(),
            !old(target).hung_up() ==> r is Ok && final(target).queued() == old(
                target,
            ).queued().push(DrawCmd::Clear(color.norm_spec())),
    {
        target.clear(color)
    }
}

/// Wraps [`Canvas::new`].
#[inline]
pub fn create<H: Host>(host: &mut H, width: u32, height: u32) -> (r: Option<Canvas>) {
    Canvas::new(host, width, height)
}

} // verus!
