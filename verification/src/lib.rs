//! An easy to use 2D drawing library with a verified command-queue core.
//!
//! Drawing calls are serialized into a typed command stream
//! ([`shape::DrawCmd`]), buffered in an ordered FIFO ([`channel::Channel`]),
//! and later consumed by a render tick ([`drawing::parse_commands`]) that
//! applies each command to a double-buffered offscreen target
//! ([`drawing::GlRenderTarget`]) owned by a resource-tracking graphics
//! context ([`context::GraphicsContext`]). The windowing layer and the raw
//! graphics API are deliberately outside this crate; the context here is a
//! model of that layer, precise enough to state and prove the pipeline's
//! ordering, dirty-flag, stop, resolve and teardown guarantees.

pub mod color;
pub mod style;
pub mod transform;
pub mod shape;
pub mod channel;
pub mod host;
pub mod canvas;
pub mod context;
pub mod drawing;

pub use canvas::Canvas;
pub use canvas::ImplicitTarget;
pub use canvas::Target;
pub use canvas::create;
pub use channel::Channel;
pub use channel::ChannelClosed;
pub use color::Color;
pub use color::Rgba;
pub use host::ChannelHost;
pub use host::Host;
pub use shape::Arc;
pub use shape::Circle;
pub use shape::DrawCmd;
pub use shape::Line;
pub use shape::Rect;
pub use shape::ToDrawCmd;
pub use shape::arc;
pub use shape::circle;
pub use shape::rect;
pub use style::Style;
pub use transform::Transform;
