//! Consumer-side behavior: the render tick, resolve, presentation, and
//! resource teardown, against the modeled graphics context.

use easy_canvas::Channel;
use easy_canvas::DrawCmd;
use easy_canvas::Rgba;
use easy_canvas::Style;
use easy_canvas::Transform;
use easy_canvas::context::GraphicsContext;
use easy_canvas::drawing::create_render_target;
use easy_canvas::drawing::delete_render_target;
use easy_canvas::drawing::draw_flat_target;
use easy_canvas::drawing::parse_commands;
use easy_canvas::drawing::plan_tick;
use easy_canvas::drawing::update_flat_target;
use easy_canvas::drawing::use_default_target;
use easy_canvas::drawing::use_flat_render_target;
use easy_canvas::drawing::use_ms_render_target;
use easy_canvas::shape::ToDrawCmd;
use easy_canvas::shape::rect;

fn shape_cmd() -> DrawCmd {
    rect(0, 0, 1, 1).with_state(Transform::identity(), Style::fill((0u8, 0u8, 0u8)))
}

fn flat_pixels(ctx: &GraphicsContext, target: &easy_canvas::drawing::GlRenderTarget) -> Vec<Rgba> {
    let mut out = Vec::new();
    for y in 0..target.height() {
        for x in 0..target.width() {
            out.push(target.flat_pixel(ctx, x, y));
        }
    }
    out
}

#[test]
fn clear_round_trip_reaches_every_flat_pixel() {
    // Clear, drain, resolve, read back: every pixel holds the color.
    let cases = [
        Rgba::from_units(0, 0, 0, 65535),
        Rgba::from_units(65535, 0, 0, 65535),
        Rgba::from_units(32768, 32768, 32768, 32768),
    ];
    for color in cases {
        let mut ctx = GraphicsContext::new(3, 2);
        let mut target = create_render_target(&mut ctx, 3, 2);
        let mut chan = Channel::new();
        chan.send(DrawCmd::Clear(color)).unwrap();
        let (dirty, stop) = parse_commands(&mut ctx, &mut target, &mut chan);
        assert!(dirty);
        assert!(!stop);
        for p in flat_pixels(&ctx, &target) {
            assert_eq!(p, color);
        }
    }
}

#[test]
fn resolve_is_idempotent() {
    let mut ctx = GraphicsContext::new(2, 2);
    let mut target = create_render_target(&mut ctx, 2, 2);
    let mut chan = Channel::new();
    let color = Rgba::from_units(11, 22, 33, 65535);
    chan.send(DrawCmd::Clear(color)).unwrap();
    parse_commands(&mut ctx, &mut target, &mut chan);
    let once = flat_pixels(&ctx, &target);
    update_flat_target(&ctx, &mut target);
    let twice = flat_pixels(&ctx, &target);
    assert_eq!(once, twice);
}

#[test]
fn empty_tick_reports_nothing_and_resolves_nothing() {
    let mut ctx = GraphicsContext::new(2, 2);
    let mut target = create_render_target(&mut ctx, 2, 2);
    let mut chan = Channel::new();
    let red = Rgba::from_units(65535, 0, 0, 65535);
    chan.send(DrawCmd::Clear(red)).unwrap();
    parse_commands(&mut ctx, &mut target, &mut chan);
    // Working surface cleared again, but the empty tick must not resolve.
    let before = flat_pixels(&ctx, &target);
    let (dirty, stop) = parse_commands(&mut ctx, &mut target, &mut chan);
    assert!(!dirty);
    assert!(!stop);
    assert_eq!(flat_pixels(&ctx, &target), before);
}

#[test]
fn shape_command_marks_the_tick_dirty() {
    let mut ctx = GraphicsContext::new(2, 2);
    let mut target = create_render_target(&mut ctx, 2, 2);
    let mut chan = Channel::new();
    chan.send(shape_cmd()).unwrap();
    let (dirty, stop) = parse_commands(&mut ctx, &mut target, &mut chan);
    assert!(dirty);
    assert!(!stop);
}

#[test]
fn post_process_alone_is_not_dirty_and_is_recorded() {
    let mut ctx = GraphicsContext::new(2, 2);
    let mut target = create_render_target(&mut ctx, 2, 2);
    let mut chan = Channel::new();
    chan.send(DrawCmd::UsePostProcess(String::from("frag-a"))).unwrap();
    chan.send(DrawCmd::UsePostProcess(String::from("frag-b"))).unwrap();
    let (dirty, stop) = parse_commands(&mut ctx, &mut target, &mut chan);
    assert!(!dirty);
    assert!(!stop);
    assert_eq!(target.post_process_source().as_deref(), Some("frag-b"));
}

#[test]
fn stop_applies_earlier_commands_and_keeps_later_ones_queued() {
    let mut ctx = GraphicsContext::new(2, 2);
    let mut target = create_render_target(&mut ctx, 2, 2);
    let mut chan = Channel::new();
    let red = Rgba::from_units(65535, 0, 0, 65535);
    let blue = Rgba::from_units(0, 0, 65535, 65535);
    chan.send(DrawCmd::Clear(red)).unwrap();
    chan.send(DrawCmd::Stop).unwrap();
    chan.send(DrawCmd::Clear(blue)).unwrap();
    let (dirty, stop) = parse_commands(&mut ctx, &mut target, &mut chan);
    assert!(dirty);
    assert!(stop);
    for p in flat_pixels(&ctx, &target) {
        assert_eq!(p, red);
    }
    // The command after the stop is still queued for whoever continues.
    assert_eq!(chan.len(), 1);
    assert!(matches!(chan.try_recv(), Some(DrawCmd::Clear(c)) if c == blue));
}

#[test]
fn stop_alone_is_clean_but_stops() {
    let mut ctx = GraphicsContext::new(2, 2);
    let mut target = create_render_target(&mut ctx, 2, 2);
    let mut chan = Channel::new();
    chan.send(DrawCmd::Stop).unwrap();
    let (dirty, stop) = parse_commands(&mut ctx, &mut target, &mut chan);
    assert!(!dirty);
    assert!(stop);
}

#[test]
fn plan_tick_matches_the_drain_loop() {
    let red = Rgba::from_units(65535, 0, 0, 65535);
    let batch = vec![
        DrawCmd::Clear(red),
        DrawCmd::UsePostProcess(String::from("x")),
        DrawCmd::Stop,
        DrawCmd::Clear(red),
    ];
    let plan = plan_tick(&batch);
    assert_eq!(plan.consumed, 3);
    assert!(plan.dirty);
    assert!(plan.stop);

    let quiet = vec![DrawCmd::UsePostProcess(String::from("y"))];
    let plan = plan_tick(&quiet);
    assert_eq!(plan.consumed, 1);
    assert!(!plan.dirty);
    assert!(!plan.stop);

    let empty: Vec<DrawCmd> = Vec::new();
    let plan = plan_tick(&empty);
    assert_eq!(plan.consumed, 0);
    assert!(!plan.dirty);
    assert!(!plan.stop);
}

#[test]
fn teardown_releases_every_handle_exactly_once() {
    let mut ctx = GraphicsContext::new(2, 2);
    let target = create_render_target(&mut ctx, 2, 2);
    // Creation allocates handles 1 through 10; the two transient shader
    // stages among them are already released again.
    let mut live = 0;
    let mut released_once = 0;
    for h in 1..=10u64 {
        if ctx.query_live(h) {
            live += 1;
        }
        if ctx.release_count(h) == 1 {
            released_once += 1;
        }
        assert!(ctx.release_count(h) <= 1);
    }
    assert_eq!(live, 8);
    assert_eq!(released_once, 2);
    delete_render_target(&mut ctx, target);
    for h in 1..=10u64 {
        assert!(!ctx.query_live(h));
        assert_eq!(ctx.release_count(h), 1);
    }
    assert!(!ctx.query_live(11));
    assert_eq!(ctx.release_count(11), 0);
}

#[test]
fn binding_follows_the_pipeline() {
    let mut ctx = GraphicsContext::new(2, 2);
    let mut target = create_render_target(&mut ctx, 2, 2);
    assert_eq!(ctx.bound_framebuffer(), 0);
    let (ms_fbo, flat_fbo) = target.framebuffer_handles();
    use_ms_render_target(&mut ctx, &target);
    assert_eq!(ctx.bound_framebuffer(), ms_fbo);
    use_flat_render_target(&mut ctx, &target);
    assert_eq!(ctx.bound_framebuffer(), flat_fbo);
    use_default_target(&mut ctx);
    assert_eq!(ctx.bound_framebuffer(), 0);
    // A quiet tick leaves the multisampled surface bound; a dirty one
    // leaves the default framebuffer bound.
    let mut chan = Channel::new();
    parse_commands(&mut ctx, &mut target, &mut chan);
    assert_eq!(ctx.bound_framebuffer(), ms_fbo);
    assert!(ctx.blending_enabled());
    assert!(ctx.depth_test_enabled());
    chan.send(DrawCmd::Clear(Rgba::from_units(0, 0, 0, 65535))).unwrap();
    parse_commands(&mut ctx, &mut target, &mut chan);
    assert_eq!(ctx.bound_framebuffer(), 0);
}

#[test]
fn presentation_blends_the_flat_surface_over_black() {
    let mut ctx = GraphicsContext::new(2, 2);
    let mut target = create_render_target(&mut ctx, 2, 2);
    let mut chan = Channel::new();
    // Half-transparent pure red: presented over black, the channel halves.
    let color = Rgba::from_units(65535, 0, 0, 32768);
    chan.send(DrawCmd::Clear(color)).unwrap();
    let (dirty, _) = parse_commands(&mut ctx, &mut target, &mut chan);
    assert!(dirty);
    draw_flat_target(&mut ctx, &target);
    assert!(!ctx.depth_test_enabled());
    for y in 0..2 {
        for x in 0..2 {
            let p = ctx.screen_pixel(x, y);
            assert_eq!(p, Rgba::from_units(32768, 0, 0, 65535));
        }
    }
}

#[test]
fn fresh_surfaces_are_transparent_black() {
    let mut ctx = GraphicsContext::new(2, 2);
    let target = create_render_target(&mut ctx, 2, 2);
    assert_eq!(target.width(), 2);
    assert_eq!(target.height(), 2);
    assert!(target.post_process_source().is_none());
    for p in flat_pixels(&ctx, &target) {
        assert_eq!(p, Rgba::transparent());
    }
    assert_eq!(target.working_pixel(&ctx, 0, 0), Rgba::transparent());
}
