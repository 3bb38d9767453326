//! Producer-side behavior: channel ordering, the canvas API, hosts,
//! styles, transforms and shapes.

use easy_canvas::Canvas;
use easy_canvas::Channel;
use easy_canvas::ChannelClosed;
use easy_canvas::ChannelHost;
use easy_canvas::Color;
use easy_canvas::DrawCmd;
use easy_canvas::ImplicitTarget;
use easy_canvas::Rgba;
use easy_canvas::Style;
use easy_canvas::Target;
use easy_canvas::Transform;
use easy_canvas::create;
use easy_canvas::shape::rect;
use easy_canvas::shape::ToDrawCmd;
use easy_canvas::transform::SCALE_ONE;

fn red() -> Rgba {
    Rgba::from_units(65535, 0, 0, 65535)
}

fn blue() -> Rgba {
    Rgba::from_units(0, 0, 65535, 65535)
}

#[test]
fn channel_preserves_send_order() {
    let mut chan = Channel::new();
    chan.send(DrawCmd::Clear(red())).unwrap();
    chan.send(DrawCmd::Clear(blue())).unwrap();
    chan.send(DrawCmd::Stop).unwrap();
    assert_eq!(chan.len(), 3);
    let drained = chan.drain();
    assert_eq!(drained.len(), 3);
    assert!(matches!(&drained[0], DrawCmd::Clear(c) if *c == red()));
    assert!(matches!(&drained[1], DrawCmd::Clear(c) if *c == blue()));
    assert!(matches!(&drained[2], DrawCmd::Stop));
    assert_eq!(chan.len(), 0);
}

#[test]
fn try_recv_is_fifo_and_non_blocking() {
    let mut chan = Channel::new();
    assert!(chan.try_recv().is_none());
    chan.send(DrawCmd::Clear(red())).unwrap();
    chan.send(DrawCmd::Clear(blue())).unwrap();
    let first = chan.try_recv().unwrap();
    assert!(matches!(first, DrawCmd::Clear(c) if c == red()));
    let second = chan.try_recv().unwrap();
    assert!(matches!(second, DrawCmd::Clear(c) if c == blue()));
    assert!(chan.try_recv().is_none());
}

#[test]
fn interleaved_producers_share_one_total_order() {
    // Two drawing contexts over one canvas: the observed order is the
    // order the sends landed in, whatever context they came from.
    let mut host = ChannelHost::new();
    let mut canvas = create(&mut host, 64, 64).unwrap();
    let a = ImplicitTarget::from_state(Transform::identity(), Style::fill((255u8, 0u8, 0u8)));
    let b = ImplicitTarget::from_state(Transform::identity(), Style::fill((0u8, 0u8, 255u8)));
    a.draw(&mut canvas, rect(0, 0, 1, 1)).unwrap();
    b.draw(&mut canvas, rect(2, 2, 1, 1)).unwrap();
    a.draw(&mut canvas, easy_canvas::shape::line(0, 0, 5, 5)).unwrap();
    let drained = canvas.into_channel().drain();
    assert_eq!(drained.len(), 3);
    assert!(matches!(&drained[0], DrawCmd::Rect { rect: r, .. } if r.x == 0));
    assert!(matches!(&drained[1], DrawCmd::Rect { rect: r, .. } if r.x == 2));
    assert!(matches!(&drained[2], DrawCmd::Line { line: l, .. } if l.x2 == 5));
}

#[test]
fn send_after_close_fails_and_keeps_queue() {
    let mut chan = Channel::new();
    chan.send(DrawCmd::Stop).unwrap();
    chan.close();
    let err = chan.send(DrawCmd::Clear(red()));
    assert_eq!(err, Err(ChannelClosed));
    assert_eq!(chan.len(), 1);
}

#[test]
fn host_hands_the_channel_out_once() {
    let mut host = ChannelHost::new();
    let first = create(&mut host, 640, 360);
    assert!(first.is_some());
    let second = create(&mut host, 640, 360);
    assert!(second.is_none());
}

#[test]
fn canvas_draw_and_clear_enqueue_commands() {
    let mut host = ChannelHost::new();
    let mut canvas = Canvas::new(&mut host, 640, 360).unwrap();
    canvas
        .draw(
            Transform::identity(),
            Style::fill((10u8, 20u8, 30u8)),
            rect(1, 2, 3, 4),
        )
        .unwrap();
    canvas.clear((200u8, 150u8, 200u8)).unwrap();
    let drained = canvas.into_channel().drain();
    assert_eq!(drained.len(), 2);
    match &drained[0] {
        DrawCmd::Rect {
            rect: r,
            style,
            transform,
        } => {
            assert_eq!((r.x, r.y, r.width, r.height), (1, 2, 3, 4));
            assert_eq!(*transform, Transform::identity());
            assert!(matches!(style, Style::FillStyle { color } if color.r == 10 * 257));
        }
        _ => panic!("expected a rectangle command"),
    }
    match &drained[1] {
        DrawCmd::Clear(c) => {
            assert_eq!(*c, (200u8, 150u8, 200u8).normalize());
        }
        _ => panic!("expected a clear command"),
    }
}

#[test]
fn use_post_process_enqueues_the_source_verbatim() {
    let mut host = ChannelHost::new();
    let mut canvas = create(&mut host, 640, 360).unwrap();
    canvas.use_post_process("void main() {}").unwrap();
    let drained = canvas.into_channel().drain();
    assert_eq!(drained.len(), 1);
    assert!(matches!(&drained[0], DrawCmd::UsePostProcess(src) if src == "void main() {}"));
}

#[test]
fn stop_enqueues_after_everything_sent_before_it() {
    let mut host = ChannelHost::new();
    let mut canvas = create(&mut host, 640, 360).unwrap();
    canvas.clear((0u8, 0u8, 0u8)).unwrap();
    let mut chan = canvas.stop();
    let drained = chan.drain();
    assert_eq!(drained.len(), 2);
    assert!(matches!(&drained[0], DrawCmd::Clear(_)));
    assert!(matches!(&drained[1], DrawCmd::Stop));
}

#[test]
fn implicit_target_forwards_state_and_overrides() {
    let mut host = ChannelHost::new();
    let mut canvas = create(&mut host, 64, 64).unwrap();
    let rot = Transform::from_rot(1 << 30);
    let ctx = ImplicitTarget::from_state(rot, Style::fill((1u8, 2u8, 3u8)));
    ctx.draw(&mut canvas, rect(0, 0, 2, 2)).unwrap();
    ctx.draw_with_style(&mut canvas, Style::stroke((9u8, 9u8, 9u8)), rect(1, 1, 2, 2))
        .unwrap();
    ctx.draw_with_transform(&mut canvas, Transform::identity(), rect(2, 2, 2, 2))
        .unwrap();
    ctx.clear(&mut canvas, (0u8, 0u8, 0u8)).unwrap();
    let drained = canvas.into_channel().drain();
    assert_eq!(drained.len(), 4);
    assert!(
        matches!(&drained[0], DrawCmd::Rect { transform, style, .. }
            if *transform == rot && matches!(style, Style::FillStyle { .. }))
    );
    assert!(
        matches!(&drained[1], DrawCmd::Rect { transform, style, .. }
            if *transform == rot && matches!(style, Style::StrokeStyle { .. }))
    );
    assert!(
        matches!(&drained[2], DrawCmd::Rect { transform, .. }
            if *transform == Transform::identity())
    );
    assert!(matches!(&drained[3], DrawCmd::Clear(_)));
}

#[test]
fn transform_identity_and_rotation() {
    let id = Transform::identity();
    assert_eq!(id.rotation, 0);
    assert_eq!(id.scale, SCALE_ONE);
    assert_eq!((id.dx, id.dy), (0, 0));
    let rot = Transform::from_rot(12345);
    assert_eq!(rot.rotation, 12345);
    assert_eq!(rot.scale, SCALE_ONE);
    assert_eq!((rot.dx, rot.dy), (0, 0));
}

#[test]
fn shapes_pack_into_commands() {
    let t = Transform::identity();
    let s = Style::fill((0u8, 0u8, 0u8));
    let c = easy_canvas::shape::circle(5, 6, 7).with_state(t, s);
    assert!(matches!(c, DrawCmd::Circle { circle, .. }
        if (circle.x, circle.y, circle.radius) == (5, 6, 7)));
    let a = easy_canvas::shape::arc(1, 2, 3, 4, 5).with_state(t, s);
    assert!(matches!(a, DrawCmd::Arc { arc, .. }
        if (arc.x, arc.y, arc.radius, arc.start_angle, arc.end_angle) == (1, 2, 3, 4, 5)));
}

#[test]
fn scoped_contexts_carry_their_state() {
    let mut host = ChannelHost::new();
    let mut canvas = create(&mut host, 64, 64).unwrap();
    let rot = Transform::from_rot(99);
    let style = Style::stroke((4u8, 5u8, 6u8));
    let scoped = canvas.with_state(rot, style);
    assert_eq!(scoped, ImplicitTarget::from_state(rot, style));
    let styled = canvas.with_style(style);
    assert_eq!(styled.transform, Transform::identity());
    assert_eq!(styled.style, style);
    let rotated = canvas.with_transform(rot);
    assert_eq!(rotated.transform, rot);
    assert!(matches!(rotated.style, Style::FillStyle { .. }));
    scoped.draw(&mut canvas, rect(0, 0, 1, 1)).unwrap();
    let drained = canvas.into_channel().drain();
    assert!(matches!(&drained[0], DrawCmd::Rect { transform, .. } if *transform == rot));
}
