//! The consumer side: render-target resources and the per-tick drain.
//!
//! A [`GlRenderTarget`] owns a multisampled working surface (color, depth
//! and stencil), a resolved single-sample flat surface, and the
//! presentation pipeline (a full-screen quad plus a shader program) used
//! to draw the flat surface's texture into whatever framebuffer is bound.
//! Every graphics handle it owns is accounted for in the
//! [`GraphicsContext`] ledger: created exactly once by
//! [`create_render_target`], released exactly once by
//! [`delete_render_target`], which consumes the target so no later use is
//! expressible.
//!
//! [`parse_commands`] is the per-tick drain: it non-blockingly empties the
//! channel, applies each command in send order to the working surface,
//! stops at a stop request, and resolves into the flat surface when
//! anything was applied.

use vstd::prelude::*;
use crate::channel::Channel;
use crate::color::Rgba;
use crate::color::UNIT_MAX;
use crate::context::GraphicsContext;
use crate::context::Surface;
use crate::context::count_of;
use crate::context::uniform;
use crate::shape::DrawCmd;

verus! {

broadcast use vstd::seq_lib::group_seq_properties;

/// Default vertex shader of the presentation pipeline.
pub fn default_vertex_shader() -> &'static str {
    "
    #version 330 core

    layout (location = 0) in vec3 pos;
    layout (location = 1) in vec3 color;
    layout (location = 2) in vec2 uv;

    out vec3 pass_color;
    out vec2 pass_uv;

    void main(void) {
        gl_Position = vec4(pos, 1.0);

        pass_color = color;
        pass_uv = uv;
    }
    "
}

/// Default fragment shader of the presentation pipeline: a sampled
/// texture composited with the vertex color.
pub fn default_fragment_shader() -> &'static str {
    "
    #version 330 core

    in vec3 pass_color;
    in vec2 pass_uv;

    out vec4 FragColor;

    uniform sampler2D diffuse;

    void main(void) {
        FragColor = texture(diffuse, pass_uv) * vec4(pass_color, 1.0);
    }
    "
}

/// One vertex of the presentation quad: a position in normalized device
/// coordinates, a byte color, and a normalized texture coordinate
/// (`i16::MAX` denotes 1).
#[derive(Clone, Copy, Debug, PartialEq, Eq, Structural)]
pub struct Vertex {
    pub x: i32,
    pub y: i32,
    pub z: i32,
    pub r: u8,
    pub g: u8,
    pub b: u8,
    pub a: u8,
    pub u: i16,
    pub v: i16,
}

/// A white quad vertex at `(x, y)` with texture coordinate `(u, v)`.
pub open spec fn quad_vertex(x: i32, y: i32, u: i16, v: i16) -> Vertex {
    Vertex { x, y, z: 0, r: 255, g: 255, b: 255, a: 255, u, v }
}

/// The six vertices of the full-screen presentation quad: two
/// counter-clockwise triangles covering the whole normalized device
/// coordinate square.
pub open spec fn quad_vertices() -> Seq<Vertex> {
    seq![
        quad_vertex(-1i32, -1i32, 0i16, i16::MAX),
        quad_vertex(1i32, -1i32, i16::MAX, i16::MAX),
        quad_vertex(1i32, 1i32, i16::MAX, 0i16),
        quad_vertex(1i32, 1i32, i16::MAX, 0i16),
        quad_vertex(-1i32, 1i32, 0i16, 0i16),
        quad_vertex(-1i32, -1i32, 0i16, i16::MAX),
    ]
}

/// Whether the triangle `a`, `b`, `c` winds counter-clockwise (positive
/// signed area).
pub open spec fn ccw(a: Vertex, b: Vertex, c: Vertex) -> bool {
    (b.x - a.x) * (c.y - a.y) - (b.y - a.y) * (c.x - a.x) > 0
}

/// Both presentation triangles wind counter-clockwise, so a backend that
/// culls clockwise faces keeps them.
pub proof fn lemma_quad_winding()
    ensures
        ccw(quad_vertices()[0], quad_vertices()[1], quad_vertices()[2]),
        ccw(quad_vertices()[3], quad_vertices()[4], quad_vertices()[5]),
{
    let q = quad_vertices();
    assert(q[0] == quad_vertex(-1i32, -1i32, 0i16, i16::MAX));
    assert(q[1] == quad_vertex(1i32, -1i32, i16::MAX, i16::MAX));
    assert(q[2] == quad_vertex(1i32, 1i32, i16::MAX, 0i16));
    assert(q[3] == quad_vertex(1i32, 1i32, i16::MAX, 0i16));
    assert(q[4] == quad_vertex(-1i32, 1i32, 0i16, 0i16));
    assert(q[5] == quad_vertex(-1i32, -1i32, 0i16, i16::MAX));
    assert(q[0].x == -1 && q[0].y == -1);
    assert(q[1].x == 1 && q[1].y == -1);
    assert(q[2].x == 1 && q[2].y == 1);
    assert(q[4].x == -1 && q[4].y == 1);
    assert(ccw(q[0], q[1], q[2]));
    assert(ccw(q[3], q[4], q[5]));
}

/// Builds the presentation quad's vertex data.
pub fn screen_quad_vertices() -> (v: Vec<Vertex>)
    ensures
        v@ == quad_vertices(),
{
    let mut v: Vec<Vertex> = Vec::new();
    v.push(Vertex { x: -1, y: -1, z: 0, r: 255, g: 255, b: 255, a: 255, u: 0, v: i16::MAX });
    v.push(Vertex { x: 1, y: -1, z: 0, r: 255, g: 255, b: 255, a: 255, u: i16::MAX, v: i16::MAX });
    v.push(Vertex { x: 1, y: 1, z: 0, r: 255, g: 255, b: 255, a: 255, u: i16::MAX, v: 0 });
    v.push(Vertex { x: 1, y: 1, z: 0, r: 255, g: 255, b: 255, a: 255, u: i16::MAX, v: 0 });
    v.push(Vertex { x: -1, y: 1, z: 0, r: 255, g: 255, b: 255, a: 255, u: 0, v: 0 });
    v.push(Vertex { x: -1, y: -1, z: 0, r: 255, g: 255, b: 255, a: 255, u: 0, v: i16::MAX });
    proof {
        assert(v@ =~= quad_vertices());
    }
    v
}

/// A shader stage.
#[derive(Clone, Copy, Debug, PartialEq, Eq, Structural)]
pub enum ShaderKind {
    Vertex,
    Fragment,
}

/// Allocates a shader object for the given stage and source. Whether the
/// source compiles is the backend's verdict; the ledger only records the
/// handle.
pub fn create_shader(ctx: &mut GraphicsContext, _kind: ShaderKind, _source: &str) -> (h: u64)
    requires
        old(ctx).wf(),
        old(ctx).free_handles() >= 1,
    ensures
        final(ctx).wf(),
        h > 0,
        !old(ctx).allocated().contains(h),
        forall|x: u64| old(ctx).allocated().contains(x) ==> x < h,
        final(ctx).allocated() == old(ctx).allocated().push(h),
        final(ctx).released() == old(ctx).released(),
        final(ctx).is_live(h),
        final(ctx).bound() == old(ctx).bound(),
        final(ctx).blending() == old(ctx).blending(),
        final(ctx).depth_test() == old(ctx).depth_test(),
        final(ctx).screen() == old(ctx).screen(),
        final(ctx).screen_width() == old(ctx).screen_width(),
        final(ctx).screen_height() == old(ctx).screen_height(),
        final(ctx).free_handles() == old(ctx).free_handles() - 1,
{
    ctx.alloc_handle()
}

/// Releases a shader object.
pub fn delete_shader(ctx: &mut GraphicsContext, shader: u64)
    requires
        old(ctx).wf(),
        old(ctx).is_live(shader),
    ensures
        final(ctx).wf(),
        final(ctx).allocated() == old(ctx).allocated(),
        final(ctx).released() == old(ctx).released().push(shader),
        !final(ctx).is_live(shader),
        final(ctx).bound() == old(ctx).bound(),
        final(ctx).blending() == old(ctx).blending(),
        final(ctx).depth_test() == old(ctx).depth_test(),
        final(ctx).screen() == old(ctx).screen(),
        final(ctx).screen_width() == old(ctx).screen_width(),
        final(ctx).screen_height() == old(ctx).screen_height(),
        final(ctx).free_handles() == old(ctx).free_handles(),
{
    ctx.release_handle(shader);
}

/// Allocates a program and links the two shader stages into it. Linking
/// leaves the stages detached again, so their handles stay independently
/// releasable.
pub fn create_program(ctx: &mut GraphicsContext, vert_shader: u64, frag_shader: u64) -> (h: u64)
    requires
        old(ctx).wf(),
        old(ctx).free_handles() >= 1,
        old(ctx).is_live(vert_shader),
        old(ctx).is_live(frag_shader),
    ensures
        final(ctx).wf(),
        h > 0,
        !old(ctx).allocated().contains(h),
        forall|x: u64| old(ctx).allocated().contains(x) ==> x < h,
        final(ctx).allocated() == old(ctx).allocated().push(h),
        final(ctx).released() == old(ctx).released(),
        final(ctx).is_live(h),
        final(ctx).is_live(vert_shader),
        final(ctx).is_live(frag_shader),
        final(ctx).bound() == old(ctx).bound(),
        final(ctx).blending() == old(ctx).blending(),
        final(ctx).depth_test() == old(ctx).depth_test(),
        final(ctx).screen() == old(ctx).screen(),
        final(ctx).screen_width() == old(ctx).screen_width(),
        final(ctx).screen_height() == old(ctx).screen_height(),
        final(ctx).free_handles() == old(ctx).free_handles() - 1,
{
    ctx.alloc_handle()
}

/// Allocates a vertex array object along with its vertex buffer object.
pub fn create_vao(ctx: &mut GraphicsContext) -> (r: (u64, u64))
    requires
        old(ctx).wf(),
        old(ctx).free_handles() >= 2,
    ensures
        final(ctx).wf(),
        r.0 > 0 && r.1 > 0,
        r.0 < r.1,
        !old(ctx).allocated().contains(r.0),
        !old(ctx).allocated().contains(r.1),
        forall|x: u64| old(ctx).allocated().contains(x) ==> x < r.0,
        final(ctx).allocated() == old(ctx).allocated().push(r.0).push(r.1),
        final(ctx).released() == old(ctx).released(),
        final(ctx).is_live(r.0),
        final(ctx).is_live(r.1),
        final(ctx).bound() == old(ctx).bound(),
        final(ctx).blending() == old(ctx).blending(),
        final(ctx).depth_test() == old(ctx).depth_test(),
        final(ctx).screen() == old(ctx).screen(),
        final(ctx).screen_width() == old(ctx).screen_width(),
        final(ctx).screen_height() == old(ctx).screen_height(),
        final(ctx).free_handles() == old(ctx).free_handles() - 2,
{
    let vao = ctx.alloc_handle();
    let vbo = ctx.alloc_handle();
    (vao, vbo)
}

/// Allocates the multisampled framebuffer with a color texture and a
/// depth-and-stencil renderbuffer, leaving the default framebuffer bound.
pub fn create_ms_cds_render_target(ctx: &mut GraphicsContext, _width: usize, _height: usize) -> (r:
    (u64, u64, u64))
    requires
        old(ctx).wf(),
        old(ctx).free_handles() >= 3,
    ensures
        final(ctx).wf(),
        r.0 > 0 && r.1 > 0 && r.2 > 0,
        r.0 < r.1 < r.2,
        !old(ctx).allocated().contains(r.0),
        !old(ctx).allocated().contains(r.1),
        !old(ctx).allocated().contains(r.2),
        forall|x: u64| old(ctx).allocated().contains(x) ==> x < r.0,
        final(ctx).allocated() == old(ctx).allocated().push(r.0).push(r.1).push(r.2),
        final(ctx).released() == old(ctx).released(),
        final(ctx).is_live(r.0) && final(ctx).is_live(r.1) && final(ctx).is_live(r.2),
        final(ctx).bound() == 0,
        final(ctx).blending() == old(ctx).blending(),
        final(ctx).depth_test() == old(ctx).depth_test(),
        final(ctx).screen() == old(ctx).screen(),
        final(ctx).screen_width() == old(ctx).screen_width(),
        final(ctx).screen_height() == old(ctx).screen_height(),
        final(ctx).free_handles() == old(ctx).free_handles() - 3,
{
    let ms_fbo = ctx.alloc_handle();
    ctx.bind_framebuffer(ms_fbo);
    let color_attach = ctx.alloc_handle();
    let rbo = ctx.alloc_handle();
    ctx.bind_framebuffer(0);
    (ms_fbo, color_attach, rbo)
}

/// Allocates the single-sample color framebuffer with its texture,
/// leaving the default framebuffer bound.
pub fn create_color_render_target(ctx: &mut GraphicsContext, _width: usize, _height: usize) -> (r:
    (u64, u64))
    requires
        old(ctx).wf(),
        old(ctx).free_handles() >= 2,
    ensures
        final(ctx).wf(),
        r.0 > 0 && r.1 > 0,
        r.0 < r.1,
        !old(ctx).allocated().contains(r.0),
        !old(ctx).allocated().contains(r.1),
        forall|x: u64| old(ctx).allocated().contains(x) ==> x < r.0,
        final(ctx).allocated() == old(ctx).allocated().push(r.0).push(r.1),
        final(ctx).released() == old(ctx).released(),
        final(ctx).is_live(r.0) && final(ctx).is_live(r.1),
        final(ctx).bound() == 0,
        final(ctx).blending() == old(ctx).blending(),
        final(ctx).depth_test() == old(ctx).depth_test(),
        final(ctx).screen() == old(ctx).screen(),
        final(ctx).screen_width() == old(ctx).screen_width(),
        final(ctx).screen_height() == old(ctx).screen_height(),
        final(ctx).free_handles() == old(ctx).free_handles() - 2,
{
    let fbo = ctx.alloc_handle();
    ctx.bind_framebuffer(fbo);
    let color_attach = ctx.alloc_handle();
    ctx.bind_framebuffer(0);
    (fbo, color_attach)
}

/// The render target: the working and flat surfaces, their handles, and
/// the presentation pipeline.
pub struct GlRenderTarget {
    width: usize,
    height: usize,
    ms_fbo: u64,
    ms_tex: u64,
    ms_rbo: u64,
    fbo: u64,
    tex: u64,
    diffuse_loc: i32,
    screen_program: u64,
    screen_quad_vao: u64,
    screen_quad_vbo: u64,
    working: Surface,
    flat: Surface,
    quad: Vec<Vertex>,
    post_process: Option<String>,
}

impl GlRenderTarget {
    /// The target's handles, in allocation order: multisampled
    /// framebuffer, its texture, its renderbuffer, flat framebuffer, its
    /// texture, presentation program, quad vertex array, quad vertex
    /// buffer.
    pub closed spec fn handles(&self) -> Seq<u64> {
        seq![
            self.ms_fbo,
            self.ms_tex,
            self.ms_rbo,
            self.fbo,
            self.tex,
            self.screen_program,
            self.screen_quad_vao,
            self.screen_quad_vbo,
        ]
    }

    /// The multisampled framebuffer's handle.
    pub closed spec fn ms_framebuffer(&self) -> u64 {
        self.ms_fbo
    }

    /// The flat framebuffer's handle.
    pub closed spec fn flat_framebuffer(&self) -> u64 {
        self.fbo
    }

    /// Width in pixels, immutable after creation.
    pub closed spec fn width_spec(&self) -> usize {
        self.width
    }

    /// Height in pixels, immutable after creation.
    pub closed spec fn height_spec(&self) -> usize {
        self.height
    }

    /// The working (multisampled) surface's pixels, row-major.
    pub closed spec fn working_view(&self) -> Seq<Rgba> {
        self.working.pixels@
    }

    /// The flat (resolved) surface's pixels, row-major.
    pub closed spec fn flat_view(&self) -> Seq<Rgba> {
        self.flat.pixels@
    }

    /// The presentation post-process shader source last installed, if any.
    pub closed spec fn post_process_view(&self) -> Option<Seq<char>> {
        match self.post_process {
            Some(ref s) => Some(s@),
            None => None,
        }
    }

    /// Well-formed against a context: the eight handles are pairwise
    /// distinct and live, the surfaces match the target's size, and the
    /// quad holds the presentation vertices.
    pub closed spec fn wf(&self, ctx: &GraphicsContext) -> bool {
        &&& forall|i: int| 0 <= i < 8 ==> ctx.is_live(#[trigger] self.handles()[i])
        &&& forall|i: int, j: int| 0 <= i < j < 8 ==> self.handles()[i] != self.handles()[j]
        &&& self.working.wf()
        &&& self.working.width == self.width
        &&& self.working.height == self.height
        &&& self.flat.wf()
        &&& self.flat.width == self.width
        &&& self.flat.height == self.height
        &&& self.quad@ == quad_vertices()
    }

    /// Width in pixels.
    pub fn width(&self) -> (w: usize)
        ensures
            w == self.width_spec(),
    {
        self.width
    }

    /// Height in pixels.
    pub fn height(&self) -> (h: usize)
        ensures
            h == self.height_spec(),
    {
        self.height
    }

    /// Reads one pixel of the flat surface.
    pub fn flat_pixel(&self, ctx: &GraphicsContext, x: usize, y: usize) -> (p: Rgba)
        requires
            self.wf(ctx),
            x < self.width_spec(),
            y < self.height_spec(),
        ensures
            p == self.flat_view()[y * self.width_spec() + x],
    {
        self.flat.pixel(x, y)
    }

    /// Reads one pixel of the working surface.
    pub fn working_pixel(&self, ctx: &GraphicsContext, x: usize, y: usize) -> (p: Rgba)
        requires
            self.wf(ctx),
            x < self.width_spec(),
            y < self.height_spec(),
        ensures
            p == self.working_view()[y * self.width_spec() + x],
    {
        self.working.pixel(x, y)
    }

    /// The handles of the multisampled and the flat framebuffer.
    pub fn framebuffer_handles(&self) -> (r: (u64, u64))
        ensures
            r.0 == self.ms_framebuffer(),
            r.1 == self.flat_framebuffer(),
    {
        (self.ms_fbo, self.fbo)
    }

    /// The post-process shader source last installed, if any.
    pub fn post_process_source(&self) -> (s: &Option<String>)
        ensures
            self.post_process_view() is Some <==> (*s) is Some,
            (*s) matches Some(src) ==> self.post_process_view() == Some(src@),
    {
        &self.post_process
    }
}

/// What creating a render target does to the context's ledger: ten
/// handles are allocated — the target's eight plus the two transient
/// shader stages — and the two shader stages are released again at once.
pub open spec fn create_effect(
    c0: GraphicsContext,
    c1: GraphicsContext,
    t: GlRenderTarget,
) -> bool {
    let l = c0.allocated().len() as int;
    let created = c1.allocated().skip(l);
    &&& c1.allocated().len() == c0.allocated().len() + 10
    &&& c1.allocated().take(l) == c0.allocated()
    &&& forall|k: int| 0 <= k < 10 ==> !c0.allocated().contains(#[trigger] created[k])
    &&& forall|k1: int, k2: int| 0 <= k1 < k2 < 10 ==> created[k1] != created[k2]
    &&& t.handles() == seq![
        created[0],
        created[1],
        created[2],
        created[3],
        created[4],
        created[9],
        created[5],
        created[6],
    ]
    &&& c1.released() == c0.released().push(created[7]).push(created[8])
}

/// What deleting a render target does to the ledger: its eight handles
/// are released, in presentation-pipeline-first order, and the default
/// framebuffer is left bound.
pub open spec fn delete_effect(
    c1: GraphicsContext,
    c2: GraphicsContext,
    t: GlRenderTarget,
) -> bool {
    let h = t.handles();
    &&& c2.allocated() == c1.allocated()
    &&& c2.released() == c1.released().push(h[5]).push(h[6]).push(h[7]).push(h[0]).push(
        h[3],
    ).push(h[2]).push(h[1]).push(h[4])
    &&& c2.bound() == 0
}

/// Assembles the creation ledger effect from the allocation chain the
/// helpers report.
#[verifier::rlimit(100)]
proof fn lemma_create_effect(
    c0: GraphicsContext,
    c1: GraphicsContext,
    t: GlRenderTarget,
    ms_fbo: u64,
    ms_tex: u64,
    ms_rbo: u64,
    fbo: u64,
    tex: u64,
    vao: u64,
    vbo: u64,
    vert: u64,
    frag: u64,
    program: u64,
)
    requires
        c1.allocated() == c0.allocated().push(ms_fbo).push(ms_tex).push(ms_rbo).push(fbo).push(
            tex,
        ).push(vao).push(vbo).push(vert).push(frag).push(program),
        c1.released() == c0.released().push(vert).push(frag),
        !c0.allocated().contains(ms_fbo),
        !c0.allocated().contains(ms_tex),
        !c0.allocated().contains(ms_rbo),
        !c0.allocated().contains(fbo),
        !c0.allocated().contains(tex),
        !c0.allocated().contains(vao),
        !c0.allocated().contains(vbo),
        !c0.allocated().contains(vert),
        !c0.allocated().contains(frag),
        !c0.allocated().contains(program),
        ms_fbo < ms_tex < ms_rbo < fbo < tex < vao < vbo < vert < frag < program,
        t.handles() == seq![ms_fbo, ms_tex, ms_rbo, fbo, tex, program, vao, vbo],
    ensures
        create_effect(c0, c1, t),
{
    let a0 = c0.allocated();
    let a1 = c1.allocated();
    let l = a0.len() as int;
    assert(a1[l] == ms_fbo && a1[l + 1] == ms_tex && a1[l + 2] == ms_rbo && a1[l + 3] == fbo && a1[l
        + 4] == tex && a1[l + 5] == vao && a1[l + 6] == vbo && a1[l + 7] == vert && a1[l + 8]
        == frag && a1[l + 9] == program);
    assert(a1.take(l) =~= a0);
    let created = a1.skip(l);
    assert(created[0] == ms_fbo && created[1] == ms_tex && created[2] == ms_rbo && created[3] == fbo
        && created[4] == tex && created[5] == vao && created[6] == vbo && created[7] == vert
        && created[8] == frag && created[9] == program);
    assert(t.handles() =~= seq![
        created[0],
        created[1],
        created[2],
        created[3],
        created[4],
        created[9],
        created[5],
        created[6],
    ]);
    assert forall|k: int| 0 <= k < 10 implies !a0.contains(#[trigger] created[k]) by {}
    assert forall|k1: int, k2: int| 0 <= k1 < k2 < 10 implies created[k1] != created[k2] by {}
}

/// Creates the double-buffered render target: the multisampled working
/// surface (color, depth, stencil), the flat resolved surface
/// (single-sample color), and the presentation pipeline (full-screen
/// quad plus shader program). Fresh surfaces are transparent black until
/// first cleared or drawn to.
/// Allocates the ten handles render-target creation acquires, in order:
/// the multisampled framebuffer, texture and renderbuffer; the flat
/// framebuffer and texture; the quad vertex array and vertex buffer; the
/// two transient shader stages; and the presentation program. The shader
/// stages are released again at once, the other eight stay live.
#[verifier::rlimit(100)]
fn allocate_target_handles(ctx: &mut GraphicsContext, width: usize, height: usize) -> (r: (
    u64,
    u64,
    u64,
    u64,
    u64,
    u64,
    u64,
    u64,
    u64,
    u64,
))
    requires
        old(ctx).wf(),
        old(ctx).free_handles() >= 10,
    ensures
        final(ctx).wf(),
        final(ctx).allocated() == old(ctx).allocated().push(r.0).push(r.1).push(r.2).push(
            r.3,
        ).push(r.4).push(r.5).push(r.6).push(r.7).push(r.8).push(r.9),
        final(ctx).released() == old(ctx).released().push(r.7).push(r.8),
        r.0 > 0 && r.0 < r.1 < r.2 < r.3 < r.4 < r.5 < r.6 < r.7 < r.8 < r.9,
        !old(ctx).allocated().contains(r.0),
        !old(ctx).allocated().contains(r.1),
        !old(ctx).allocated().contains(r.2),
        !old(ctx).allocated().contains(r.3),
        !old(ctx).allocated().contains(r.4),
        !old(ctx).allocated().contains(r.5),
        !old(ctx).allocated().contains(r.6),
        !old(ctx).allocated().contains(r.7),
        !old(ctx).allocated().contains(r.8),
        !old(ctx).allocated().contains(r.9),
        final(ctx).is_live(r.0) && final(ctx).is_live(r.1) && final(ctx).is_live(r.2),
        final(ctx).is_live(r.3) && final(ctx).is_live(r.4),
        final(ctx).is_live(r.5) && final(ctx).is_live(r.6),
        final(ctx).is_live(r.9),
        !final(ctx).is_live(r.7) && !final(ctx).is_live(r.8),
        final(ctx).bound() == 0,
        final(ctx).blending() == old(ctx).blending(),
        final(ctx).depth_test() == old(ctx).depth_test(),
        final(ctx).screen() == old(ctx).screen(),
        final(ctx).screen_width() == old(ctx).screen_width(),
        final(ctx).screen_height() == old(ctx).screen_height(),
        final(ctx).free_handles() == old(ctx).free_handles() - 10,
{
    let (ms_fbo, ms_tex, ms_rbo) = create_ms_cds_render_target(ctx, width, height);
    let (fbo, tex) = create_color_render_target(ctx, width, height);
    let (screen_quad_vao, screen_quad_vbo) = create_vao(ctx);
    let vert = create_shader(ctx, ShaderKind::Vertex, default_vertex_shader());
    let frag = create_shader(ctx, ShaderKind::Fragment, default_fragment_shader());
    let screen_program = create_program(ctx, vert, frag);
    delete_shader(ctx, vert);
    delete_shader(ctx, frag);
    proof {
        let a0 = old(ctx).allocated();
        let a1 = ctx.allocated();
        assert(a1 == a0.push(ms_fbo).push(ms_tex).push(ms_rbo).push(fbo).push(tex).push(
            screen_quad_vao,
        ).push(screen_quad_vbo).push(vert).push(frag).push(screen_program));
        // Handles grow with the ledger: each allocation exceeds everything
        // allocated before it.
        let a3 = a0.push(ms_fbo).push(ms_tex).push(ms_rbo);
        let a5 = a3.push(fbo).push(tex);
        let a7 = a5.push(screen_quad_vao).push(screen_quad_vbo);
        assert(ms_rbo < fbo) by {
            assert(a3.contains(ms_rbo));
        }
        assert(tex < screen_quad_vao) by {
            assert(a5.contains(tex));
        }
        assert(screen_quad_vbo < vert) by {
            assert(a7.contains(screen_quad_vbo));
        }
        assert(vert < frag) by {
            assert(a7.push(vert).contains(vert));
        }
        assert(frag < screen_program) by {
            assert(a7.push(vert).push(frag).contains(frag));
        }
        // Each handle is fresh against the starting ledger: the call that
        // allocated it says so against its own ledger, of which the
        // starting one is a prefix.
        assert(!a0.contains(fbo) && !a0.contains(tex)) by {
            if a0.contains(fbo) {
                assert(a0.push(ms_fbo).push(ms_tex).push(ms_rbo).contains(fbo));
            }
            if a0.contains(tex) {
                assert(a0.push(ms_fbo).push(ms_tex).push(ms_rbo).contains(tex));
            }
        }
        assert(!a0.contains(screen_quad_vao) && !a0.contains(screen_quad_vbo)) by {
            let a5 = a0.push(ms_fbo).push(ms_tex).push(ms_rbo).push(fbo).push(tex);
            if a0.contains(screen_quad_vao) {
                assert(a5.contains(screen_quad_vao));
            }
            if a0.contains(screen_quad_vbo) {
                assert(a5.contains(screen_quad_vbo));
            }
        }
        assert(!a0.contains(vert) && !a0.contains(frag) && !a0.contains(screen_program)) by {
            let a7 = a0.push(ms_fbo).push(ms_tex).push(ms_rbo).push(fbo).push(tex).push(
                screen_quad_vao,
            ).push(screen_quad_vbo);
            if a0.contains(vert) {
                assert(a7.contains(vert));
            }
            if a0.contains(frag) {
                assert(a7.push(vert).contains(frag));
            }
            if a0.contains(screen_program) {
                assert(a7.push(vert).push(frag).contains(screen_program));
            }
        }
    }
    (ms_fbo, ms_tex, ms_rbo, fbo, tex, screen_quad_vao, screen_quad_vbo, vert, frag, screen_program)
}

/// Creates the double-buffered render target: the multisampled working
/// surface (color, depth, stencil), the flat resolved surface
/// (single-sample color), and the presentation pipeline (full-screen
/// quad plus shader program). Fresh surfaces are transparent black until
/// first cleared or drawn to.
#[verifier::rlimit(100)]
pub fn create_render_target(ctx: &mut GraphicsContext, width: usize, height: usize) -> (t:
    GlRenderTarget)
    requires
        old(ctx).wf(),
        old(ctx).free_handles() >= 10,
        width * height <= usize::MAX,
    ensures
        final(ctx).wf(),
        t.wf(final(ctx)),
        t.width_spec() == width,
        t.height_spec() == height,
        t.working_view() == uniform((width * height) as nat, Rgba { r: 0, g: 0, b: 0, a: 0 }),
        t.flat_view() == uniform((width * height) as nat, Rgba { r: 0, g: 0, b: 0, a: 0 }),
        t.post_process_view() is None,
        create_effect(*old(ctx), *final(ctx), t),
        final(ctx).bound() == 0,
        final(ctx).blending() == old(ctx).blending(),
        final(ctx).depth_test() == old(ctx).depth_test(),
        final(ctx).screen() == old(ctx).screen(),
        final(ctx).screen_width() == old(ctx).screen_width(),
        final(ctx).screen_height() == old(ctx).screen_height(),
        final(ctx).free_handles() == old(ctx).free_handles() - 10,
{
    let (ms_fbo, ms_tex, ms_rbo, fbo, tex, screen_quad_vao, screen_quad_vbo, vert, frag,
        screen_program) = allocate_target_handles(ctx, width, height);
    let quad = screen_quad_vertices();
    let working = Surface::new(width, height, Rgba { r: 0, g: 0, b: 0, a: 0 });
    let flat = Surface::new(width, height, Rgba { r: 0, g: 0, b: 0, a: 0 });
    let t = GlRenderTarget {
        width,
        height,
        ms_fbo,
        ms_tex,
        ms_rbo,
        fbo,
        tex,
        diffuse_loc: 0,
        screen_program,
        screen_quad_vao,
        screen_quad_vbo,
        working,
        flat,
        quad,
        post_process: None,
    };
    proof {
        assert(t.handles() =~= seq![
            ms_fbo,
            ms_tex,
            ms_rbo,
            fbo,
            tex,
            screen_program,
            screen_quad_vao,
            screen_quad_vbo,
        ]);
        lemma_create_effect(
            *old(ctx),
            *ctx,
            t,
            ms_fbo,
            ms_tex,
            ms_rbo,
            fbo,
            tex,
            screen_quad_vao,
            screen_quad_vbo,
            vert,
            frag,
            screen_program,
        );
        assert(t.wf(ctx)) by {
            assert forall|i: int| 0 <= i < 8 implies ctx.is_live(#[trigger] t.handles()[i]) by {
                assert(ctx.is_live(ms_fbo) && ctx.is_live(ms_tex) && ctx.is_live(ms_rbo)
                    && ctx.is_live(fbo) && ctx.is_live(tex) && ctx.is_live(screen_program)
                    && ctx.is_live(screen_quad_vao) && ctx.is_live(screen_quad_vbo));
            }
        }
    }
    t
}

/// Releases every handle the target owns, exactly once, consuming the
/// target so no operation can follow. Leaves the default framebuffer
/// bound and the presentation program unbound.
pub fn delete_render_target(ctx: &mut GraphicsContext, target: GlRenderTarget)
    requires
        old(ctx).wf(),
        target.wf(old(ctx)),
    ensures
        final(ctx).wf(),
        delete_effect(*old(ctx), *final(ctx), target),
        forall|i: int| 0 <= i < 8 ==> !final(ctx).is_live(#[trigger] target.handles()[i]),
        final(ctx).blending() == old(ctx).blending(),
        final(ctx).depth_test() == old(ctx).depth_test(),
        final(ctx).screen() == old(ctx).screen(),
        final(ctx).screen_width() == old(ctx).screen_width(),
        final(ctx).screen_height() == old(ctx).screen_height(),
        final(ctx).free_handles() == old(ctx).free_handles(),
{
    let GlRenderTarget {
        width: _,
        height: _,
        ms_fbo,
        ms_tex,
        ms_rbo,
        fbo,
        tex,
        diffuse_loc: _,
        screen_program,
        screen_quad_vao,
        screen_quad_vbo,
        working: _,
        flat: _,
        quad: _,
        post_process: _,
    } = target;

    proof {
        let h = target.handles();
        assert(h[0] == ms_fbo && h[1] == ms_tex && h[2] == ms_rbo && h[3] == fbo && h[4] == tex
            && h[5] == screen_program && h[6] == screen_quad_vao && h[7] == screen_quad_vbo);
        assert(old(ctx).is_live(h[0]) && old(ctx).is_live(h[1]) && old(ctx).is_live(h[2]) && old(
            ctx,
        ).is_live(h[3]) && old(ctx).is_live(h[4]) && old(ctx).is_live(h[5]) && old(ctx).is_live(
            h[6],
        ) && old(ctx).is_live(h[7]));
    }
    ctx.release_handle(screen_program);
    ctx.release_handle(screen_quad_vao);
    ctx.release_handle(screen_quad_vbo);
    ctx.bind_framebuffer(0);
    ctx.release_handle(ms_fbo);
    ctx.release_handle(fbo);
    ctx.release_handle(ms_rbo);
    ctx.release_handle(ms_tex);
    ctx.release_handle(tex);
}

/// Binds the multisampled working surface as the render destination.
pub fn use_ms_render_target(ctx: &mut GraphicsContext, target: &GlRenderTarget)
    requires
        old(ctx).wf(),
        target.wf(old(ctx)),
    ensures
        final(ctx).wf(),
        target.wf(final(ctx)),
        final(ctx).bound() == target.ms_framebuffer(),
        final(ctx).allocated() == old(ctx).allocated(),
        final(ctx).released() == old(ctx).released(),
        final(ctx).blending() == old(ctx).blending(),
        final(ctx).depth_test() == old(ctx).depth_test(),
        final(ctx).screen() == old(ctx).screen(),
        final(ctx).screen_width() == old(ctx).screen_width(),
        final(ctx).screen_height() == old(ctx).screen_height(),
        final(ctx).free_handles() == old(ctx).free_handles(),
{
    proof {
        assert(target.handles()[0] == target.ms_framebuffer());
        assert(ctx.is_live(target.ms_framebuffer()));
    }
    ctx.bind_framebuffer(target.ms_fbo);
}

/// Binds the flat resolved surface as the render destination.
pub fn use_flat_render_target(ctx: &mut GraphicsContext, target: &GlRenderTarget)
    requires
        old(ctx).wf(),
        target.wf(old(ctx)),
    ensures
        final(ctx).wf(),
        target.wf(final(ctx)),
        final(ctx).bound() == target.flat_framebuffer(),
        final(ctx).allocated() == old(ctx).allocated(),
        final(ctx).released() == old(ctx).released(),
        final(ctx).blending() == old(ctx).blending(),
        final(ctx).depth_test() == old(ctx).depth_test(),
        final(ctx).screen() == old(ctx).screen(),
        final(ctx).screen_width() == old(ctx).screen_width(),
        final(ctx).screen_height() == old(ctx).screen_height(),
        final(ctx).free_handles() == old(ctx).free_handles(),
{
    proof {
        assert(target.handles()[3] == target.flat_framebuffer());
        assert(ctx.is_live(target.flat_framebuffer()));
    }
    ctx.bind_framebuffer(target.fbo);
}

/// Binds the default framebuffer as the render destination.
pub fn use_default_target(ctx: &mut GraphicsContext)
    requires
        old(ctx).wf(),
    ensures
        final(ctx).wf(),
        final(ctx).bound() == 0,
        final(ctx).allocated() == old(ctx).allocated(),
        final(ctx).released() == old(ctx).released(),
        final(ctx).blending() == old(ctx).blending(),
        final(ctx).depth_test() == old(ctx).depth_test(),
        final(ctx).screen() == old(ctx).screen(),
        final(ctx).screen_width() == old(ctx).screen_width(),
        final(ctx).screen_height() == old(ctx).screen_height(),
        final(ctx).free_handles() == old(ctx).free_handles(),
{
    ctx.bind_framebuffer(0);
}

/// Enables blending of new fragments over what a surface already holds.
pub fn enable_blending(ctx: &mut GraphicsContext)
    requires
        old(ctx).wf(),
    ensures
        final(ctx).wf(),
        final(ctx).blending(),
        final(ctx).allocated() == old(ctx).allocated(),
        final(ctx).released() == old(ctx).released(),
        final(ctx).bound() == old(ctx).bound(),
        final(ctx).depth_test() == old(ctx).depth_test(),
        final(ctx).screen() == old(ctx).screen(),
        final(ctx).screen_width() == old(ctx).screen_width(),
        final(ctx).screen_height() == old(ctx).screen_height(),
        final(ctx).free_handles() == old(ctx).free_handles(),
{
    ctx.set_blending(true);
}

/// Clears the bound working surface — color, depth and stencil — to the
/// given color.
pub fn clear(ctx: &GraphicsContext, target: &mut GlRenderTarget, color: Rgba)
    requires
        ctx.wf(),
        old(target).wf(ctx),
        ctx.bound() == old(target).ms_framebuffer(),
    ensures
        final(target).wf(ctx),
        final(target).working_view() == uniform(old(target).working_view().len(), color),
        final(target).flat_view() == old(target).flat_view(),
        final(target).handles() == old(target).handles(),
        final(target).width_spec() == old(target).width_spec(),
        final(target).height_spec() == old(target).height_spec(),
        final(target).post_process_view() == old(target).post_process_view(),
        final(target).ms_framebuffer() == old(target).ms_framebuffer(),
        final(target).flat_framebuffer() == old(target).flat_framebuffer(),
{
    target.working.fill(color);
    proof {
        assert(target.handles() =~= old(target).handles());
        assert forall|i: int| 0 <= i < 8 implies ctx.is_live(#[trigger] target.handles()[i]) by {
            assert(target.handles()[i] == old(target).handles()[i]);
        }
    }
}

/// What resolving does: a same-region blit of the working surface's
/// color into the flat surface, everything else untouched.
pub open spec fn resolve_effect(t0: GlRenderTarget, t1: GlRenderTarget) -> bool {
    &&& t1.flat_view() == t0.working_view()
    &&& t1.working_view() == t0.working_view()
    &&& t1.handles() == t0.handles()
    &&& t1.width_spec() == t0.width_spec()
    &&& t1.height_spec() == t0.height_spec()
    &&& t1.post_process_view() == t0.post_process_view()
    &&& t1.ms_framebuffer() == t0.ms_framebuffer()
    &&& t1.flat_framebuffer() == t0.flat_framebuffer()
}

/// Resolves the multisampled working surface into the flat surface: a
/// same-region, color-only, nearest-neighbor blit.
pub fn update_flat_target(ctx: &GraphicsContext, target: &mut GlRenderTarget)
    requires
        ctx.wf(),
        old(target).wf(ctx),
    ensures
        final(target).wf(ctx),
        resolve_effect(*old(target), *final(target)),
{
    let mut pixels: Vec<Rgba> = Vec::new();
    let mut i: usize = 0;
    let count = target.working.pixels.len();
    while i < count
        invariant
            i <= count,
            count == target.working.pixels@.len(),
            pixels@ == target.working.pixels@.take(i as int),
        decreases count - i,
    {
        pixels.push(target.working.pixels[i]);
        proof {
            assert(pixels@ =~= target.working.pixels@.take(i + 1));
        }
        i = i + 1;
    }
    proof {
        assert(target.working.pixels@.take(count as int) =~= target.working.pixels@);
    }
    target.flat.pixels = pixels;
    proof {
        assert(target.flat.wf());
        assert(target.handles() =~= old(target).handles());
        assert forall|i: int| 0 <= i < 8 implies ctx.is_live(#[trigger] target.handles()[i]) by {
            assert(target.handles()[i] == old(target).handles()[i]);
        }
    }
}

/// Resolving is idempotent: a second resolve with no drawing in between
/// leaves the flat surface pixel-identical.
pub proof fn lemma_resolve_idempotent(t0: GlRenderTarget, t1: GlRenderTarget, t2: GlRenderTarget)
    requires
        resolve_effect(t0, t1),
        resolve_effect(t1, t2),
    ensures
        t2.flat_view() == t1.flat_view(),
{
}

/// Clearing, then resolving, reaches the flat surface: after a clear to
/// `color` and a resolve, every flat pixel equals `color` exactly.
pub proof fn lemma_clear_round_trip(t1: GlRenderTarget, t2: GlRenderTarget, color: Rgba)
    requires
        t1.working_view() == uniform(t1.working_view().len(), color),
        resolve_effect(t1, t2),
    ensures
        forall|i: int| 0 <= i < t2.flat_view().len() ==> t2.flat_view()[i] == color,
{
    assert forall|i: int| 0 <= i < t2.flat_view().len() implies t2.flat_view()[i] == color by {
        assert(t2.flat_view()[i] == t1.working_view()[i]);
        assert(t1.working_view()[i] == uniform(t1.working_view().len(), color)[i]);
    }
}


/// A render-target method of the drain loop: records a post-process
/// shader source, to be recompiled and hot-swapped at the next
/// presentation; the commands' own pipeline is untouched, and a source
/// the backend fails to compile leaves the previous program active.
impl GlRenderTarget {
    fn install_post_process(&mut self, ctx: &GraphicsContext, src: String)
        requires
            ctx.wf(),
            old(self).wf(ctx),
        ensures
            final(self).wf(ctx),
            final(self).post_process_view() == Some(src@),
            final(self).working_view() == old(self).working_view(),
            final(self).flat_view() == old(self).flat_view(),
            final(self).handles() == old(self).handles(),
            final(self).width_spec() == old(self).width_spec(),
            final(self).height_spec() == old(self).height_spec(),
            final(self).ms_framebuffer() == old(self).ms_framebuffer(),
            final(self).flat_framebuffer() == old(self).flat_framebuffer(),
    {
        self.post_process = Some(src);
        proof {
            assert(self.handles() =~= old(self).handles());
            assert forall|i: int| 0 <= i < 8 implies ctx.is_live(#[trigger] self.handles()[i]) by {
                assert(self.handles()[i] == old(self).handles()[i]);
            }
        }
    }
}

/// Whether a command is the stop request.
pub open spec fn is_stop(c: DrawCmd) -> bool {
    c is Stop
}

/// Whether a command paints the working surface — a clear or a shape —
/// and so dirties the tick.
pub open spec fn is_paint(c: DrawCmd) -> bool {
    match c {
        DrawCmd::Clear(_) => true,
        DrawCmd::Rect { .. } => true,
        DrawCmd::Line { .. } => true,
        DrawCmd::Circle { .. } => true,
        DrawCmd::Arc { .. } => true,
        DrawCmd::UsePostProcess(_) => false,
        DrawCmd::Stop => false,
    }
}

/// Whether the queue holds a stop request.
pub open spec fn has_stop(q: Seq<DrawCmd>) -> bool {
    exists|i: int| 0 <= i < q.len() && is_stop(q[i])
}

/// The index of the first stop request (the queue's length when there is
/// none).
pub open spec fn first_stop(q: Seq<DrawCmd>) -> int
    decreases q.len(),
{
    if q.len() == 0 {
        0
    } else if is_stop(q[0]) {
        0
    } else {
        1 + first_stop(q.drop_first())
    }
}

/// The commands one tick applies: everything queued before the first
/// stop, or everything queued when there is none.
pub open spec fn applied_prefix(q: Seq<DrawCmd>) -> Seq<DrawCmd> {
    if has_stop(q) {
        q.take(first_stop(q))
    } else {
        q
    }
}

/// How many commands one tick consumes: the applied ones, plus the stop
/// itself when there is one.
pub open spec fn consumed_len(q: Seq<DrawCmd>) -> int {
    if has_stop(q) {
        first_stop(q) + 1
    } else {
        q.len() as int
    }
}

/// Whether any command of the sequence paints.
pub open spec fn any_paint(q: Seq<DrawCmd>) -> bool {
    exists|i: int| 0 <= i < q.len() && is_paint(q[i])
}

/// One command's effect on the working surface. A clear repaints every
/// pixel; a shape command dirties the tick but its rasterization is a
/// backend concern, left unmodeled here; the rest do not touch pixels.
pub open spec fn apply_cmd(w: Seq<Rgba>, c: DrawCmd) -> Seq<Rgba> {
    match c {
        DrawCmd::Clear(color) => uniform(w.len(), color),
        _ => w,
    }
}

/// The working surface after applying a command sequence, in order.
pub open spec fn apply_cmds(w: Seq<Rgba>, q: Seq<DrawCmd>) -> Seq<Rgba>
    decreases q.len(),
{
    if q.len() == 0 {
        w
    } else {
        apply_cmd(apply_cmds(w, q.drop_last()), q.last())
    }
}

/// The post-process source after a command sequence: the last one
/// installed, or the starting one when none was.
pub open spec fn apply_post(p: Option<Seq<char>>, q: Seq<DrawCmd>) -> Option<Seq<char>>
    decreases q.len(),
{
    if q.len() == 0 {
        p
    } else {
        match q.last() {
            DrawCmd::UsePostProcess(s) => Some(s@),
            _ => apply_post(p, q.drop_last()),
        }
    }
}

/// Appending one command to a sequence paints exactly when the sequence
/// painted or the command does.
pub proof fn lemma_any_paint_push(q: Seq<DrawCmd>, c: DrawCmd)
    ensures
        any_paint(q.push(c)) == (any_paint(q) || is_paint(c)),
{
    if any_paint(q) {
        let j = choose|j: int| 0 <= j < q.len() && is_paint(q[j]);
        assert(q.push(c)[j] == q[j]);
    }
    if is_paint(c) {
        assert(q.push(c)[q.len() as int] == c);
    }
    if any_paint(q.push(c)) && !is_paint(c) {
        let j = choose|j: int| 0 <= j < q.push(c).len() && is_paint(q.push(c)[j]);
        if j < q.len() {
            assert(q[j] == q.push(c)[j]);
        }
    }
}

/// Stop semantics at the queue level: with the first stop request at
/// index `i`, exactly the commands enqueued before it are applied, the
/// stop itself is consumed, and everything after it stays queued.
pub proof fn lemma_stop_semantics(q: Seq<DrawCmd>, i: int)
    requires
        0 <= i < q.len(),
        is_stop(q[i]),
        forall|j: int| 0 <= j < i ==> !is_stop(#[trigger] q[j]),
    ensures
        has_stop(q),
        first_stop(q) == i,
        applied_prefix(q) == q.take(i),
        consumed_len(q) == i + 1,
    decreases i,
{
    assert(has_stop(q));
    if i == 0 {
    } else {
        assert(!is_stop(q[0]));
        let rest = q.drop_first();
        assert(rest[i - 1] == q[i]);
        assert forall|j: int| 0 <= j < i - 1 implies !is_stop(#[trigger] rest[j]) by {
            assert(rest[j] == q[j + 1]);
        }
        lemma_stop_semantics(rest, i - 1);
    }
}

/// Dirty-flag correctness, empty side: a tick with nothing queued
/// consumes nothing, paints nothing and asks for no stop.
pub proof fn lemma_empty_tick(q: Seq<DrawCmd>)
    requires
        q.len() == 0,
    ensures
        !has_stop(q),
        consumed_len(q) == 0,
        !any_paint(applied_prefix(q)),
{
}

/// Dirty-flag correctness, painting side: a tick whose applied commands
/// include at least one clear or shape is dirty.
pub proof fn lemma_paint_marks_dirty(q: Seq<DrawCmd>, j: int)
    requires
        0 <= j < applied_prefix(q).len(),
        is_paint(applied_prefix(q)[j]),
    ensures
        any_paint(applied_prefix(q)),
{
}

/// The result of one tick: whether a redraw is needed, and whether a stop
/// request was consumed.
#[derive(Clone, Copy, Debug, PartialEq, Eq, Structural)]
pub struct TickPlan {
    /// How many queued commands the tick consumed.
    pub consumed: usize,
    /// Whether anything painted, so the tick must resolve and present.
    pub dirty: bool,
    /// Whether a stop request was consumed.
    pub stop: bool,
}

/// Decides one tick from a drained command batch, without touching any
/// surface: how many commands are consumed (everything up to and
/// including the first stop), whether they paint, and whether they stop.
/// A backend loop applies the first `consumed` commands itself and then
/// acts on the flags.
pub fn plan_tick(cmds: &Vec<DrawCmd>) -> (r: TickPlan)
    ensures
        r.consumed == consumed_len(cmds@),
        r.dirty == any_paint(applied_prefix(cmds@)),
        r.stop == has_stop(cmds@),
{
    let ghost q = cmds@;
    let mut i: usize = 0;
    let mut dirty = false;
    let mut stop = false;
    loop
        invariant_except_break
            !stop,
            0 <= i <= q.len(),
            forall|j: int| 0 <= j < i ==> !is_stop(#[trigger] q[j]),
            dirty == any_paint(q.take(i as int)),
            q == cmds@,
        ensures
            q == cmds@,
            stop ==> 1 <= i <= q.len() && is_stop(q[i - 1]) && (forall|j: int|
                0 <= j < i - 1 ==> !is_stop(#[trigger] q[j])) && dirty == any_paint(
                q.take(i - 1),
            ),
            !stop ==> i == q.len() && (forall|j: int| 0 <= j < i ==> !is_stop(#[trigger] q[j]))
                && dirty == any_paint(q.take(i as int)),
        decreases q.len() - i,
    {
        if i == cmds.len() {
            break;
        }
        let ghost pre = i as int;
        proof {
            assert(q.take(pre + 1).drop_last() =~= q.take(pre));
            assert(q.take(pre + 1).last() == q[pre]);
            assert(q.take(pre + 1) =~= q.take(pre).push(q[pre]));
            lemma_any_paint_push(q.take(pre), q[pre]);
        }
        let is_last_stop = matches!(&cmds[i], DrawCmd::Stop);
        let paints = matches!(
            &cmds[i],
            DrawCmd::Clear(_) | DrawCmd::Rect { .. } | DrawCmd::Line { .. } | DrawCmd::Circle { .. }
                | DrawCmd::Arc { .. }
        );
        if paints {
            dirty = true;
        }
        if is_last_stop {
            stop = true;
            i = i + 1;
            proof {
                assert(dirty == any_paint(q.take(pre)));
            }
            break;
        }
        i = i + 1;
    }
    proof {
        if stop {
            lemma_stop_semantics(q, i - 1);
            assert(q.take(i - 1) == applied_prefix(q));
        } else {
            if has_stop(q) {
                let j = choose|j: int| 0 <= j < q.len() && is_stop(q[j]);
                assert(!is_stop(q[j]));
            }
            assert(q.take(i as int) =~= q);
        }
    }
    TickPlan { consumed: i, dirty, stop }
}

/// One render tick: non-blockingly drains the channel, applying each
/// command in send order to the bound working surface — a clear repaints
/// it, a shape dirties the tick, a post-process source is recorded for
/// the next presentation — until the channel is empty or a stop request
/// is consumed; commands already applied are kept, commands after the
/// stop stay queued. If anything painted, the working surface is
/// resolved into the flat surface and the default framebuffer is left
/// bound. Returns whether a redraw is needed and whether to stop.
#[verifier::rlimit(100)]
pub fn parse_commands(ctx: &mut GraphicsContext, target: &mut GlRenderTarget, rx: &mut Channel) -> (r:
    (bool, bool))
    requires
        old(ctx).wf(),
        old(target).wf(old(ctx)),
    ensures
        final(ctx).wf(),
        final(target).wf(final(ctx)),
        final(rx)@ == old(rx)@.skip(consumed_len(old(rx)@)),
        final(rx).is_closed() == old(rx).is_closed(),
        r.0 == any_paint(applied_prefix(old(rx)@)),
        r.1 == has_stop(old(rx)@),
        final(target).working_view() == apply_cmds(
            old(target).working_view(),
            applied_prefix(old(rx)@),
        ),
        final(target).post_process_view() == apply_post(
            old(target).post_process_view(),
            applied_prefix(old(rx)@),
        ),
        r.0 ==> final(target).flat_view() == final(target).working_view(),
        !r.0 ==> final(target).flat_view() == old(target).flat_view(),
        final(target).handles() == old(target).handles(),
        final(target).width_spec() == old(target).width_spec(),
        final(target).height_spec() == old(target).height_spec(),
        final(target).ms_framebuffer() == old(target).ms_framebuffer(),
        final(target).flat_framebuffer() == old(target).flat_framebuffer(),
        final(ctx).allocated() == old(ctx).allocated(),
        final(ctx).released() == old(ctx).released(),
        final(ctx).blending(),
        final(ctx).depth_test(),
        final(ctx).bound() == if r.0 {
            0u64
        } else {
            final(target).ms_framebuffer()
        },
        final(ctx).screen() == old(ctx).screen(),
        final(ctx).screen_width() == old(ctx).screen_width(),
        final(ctx).screen_height() == old(ctx).screen_height(),
        final(ctx).free_handles() == old(ctx).free_handles(),
{
    enable_blending(ctx);
    ctx.set_depth_test(true);
    use_ms_render_target(ctx, target);
    let ghost q = rx@;
    let ghost w0 = target.working_view();
    let ghost p0 = target.post_process_view();
    let ghost f0 = target.flat_view();
    let ghost h0 = target.handles();
    let ghost ctx1 = *ctx;
    let ghost mut i: int = 0;
    let mut dirty = false;
    let mut stop = false;
    loop
        invariant_except_break
            !stop,
            forall|j: int| 0 <= j < i ==> !is_stop(#[trigger] q[j]),
        invariant
            0 <= i <= q.len(),
            rx@ == q.skip(i),
            rx.is_closed() == old(rx).is_closed(),
            dirty == any_paint(q.take(i)),
            target.working_view() == apply_cmds(w0, q.take(i)),
            target.post_process_view() == apply_post(p0, q.take(i)),
            target.flat_view() == f0,
            target.handles() == h0,
            target.width_spec() == old(target).width_spec(),
            target.height_spec() == old(target).height_spec(),
            target.ms_framebuffer() == old(target).ms_framebuffer(),
            target.flat_framebuffer() == old(target).flat_framebuffer(),
            *ctx == ctx1,
            ctx.wf(),
            target.wf(ctx),
            ctx.bound() == target.ms_framebuffer(),
        ensures
            stop ==> 1 <= i <= q.len() && is_stop(q[i - 1]) && (forall|j: int|
                0 <= j < i - 1 ==> !is_stop(#[trigger] q[j])) && dirty == any_paint(q.take(i - 1))
                && target.working_view() == apply_cmds(w0, q.take(i - 1))
                && target.post_process_view() == apply_post(p0, q.take(i - 1)),
            !stop ==> i == q.len() && (forall|j: int| 0 <= j < i ==> !is_stop(#[trigger] q[j]))
                && dirty == any_paint(q.take(i)) && target.working_view() == apply_cmds(
                w0,
                q.take(i),
            ) && target.post_process_view() == apply_post(p0, q.take(i)),
            rx@ == q.skip(i),
            rx.is_closed() == old(rx).is_closed(),
            target.flat_view() == f0,
            target.handles() == h0,
            target.width_spec() == old(target).width_spec(),
            target.height_spec() == old(target).height_spec(),
            target.ms_framebuffer() == old(target).ms_framebuffer(),
            target.flat_framebuffer() == old(target).flat_framebuffer(),
            *ctx == ctx1,
            ctx.wf(),
            target.wf(ctx),
            ctx.bound() == target.ms_framebuffer(),
        decreases q.len() - i,
    {
        match rx.try_recv() {
            None => {
                break;
            },
            Some(cmd) => {
                proof {
                    assert(cmd == q[i]);
                    assert(q.take(i + 1).drop_last() =~= q.take(i));
                    assert(q.take(i + 1).last() == q[i]);
                    assert(q.take(i + 1) =~= q.take(i).push(q[i]));
                    lemma_any_paint_push(q.take(i), q[i]);
                    assert(q.skip(i).drop_first() =~= q.skip(i + 1));
                }
                match cmd {
                    DrawCmd::Clear(c) => {
                        clear(ctx, target, c);
                        dirty = true;
                    },
                    DrawCmd::Rect { .. } => {
                        dirty = true;
                    },
                    DrawCmd::Line { .. } => {
                        dirty = true;
                    },
                    DrawCmd::Circle { .. } => {
                        dirty = true;
                    },
                    DrawCmd::Arc { .. } => {
                        dirty = true;
                    },
                    DrawCmd::UsePostProcess(src) => {
                        target.install_post_process(ctx, src);
                    },
                    DrawCmd::Stop => {
                        stop = true;
                        proof {
                            i = i + 1;
                        }
                        break;
                    },
                }
                proof {
                    i = i + 1;
                }
            },
        }
    }
    proof {
        if stop {
            lemma_stop_semantics(q, i - 1);
            assert(q.take(i - 1) == applied_prefix(q));
        } else {
            if has_stop(q) {
                let j = choose|j: int| 0 <= j < q.len() && is_stop(q[j]);
                assert(!is_stop(q[j]));
            }
            assert(q.take(i) =~= q);
            assert(q.take(i) == applied_prefix(q));
        }
    }
    if dirty {
        update_flat_target(ctx, target);
        use_default_target(ctx);
    }
    (dirty, stop)
}

/// The fixed-point product of two unit-interval components:
/// `(x / UNIT_MAX) * (a / UNIT_MAX)`, rounded down, as a component again.
pub open spec fn mul_unit_spec(x: u16, a: u16) -> u16 {
    (((x as int) * (a as int)) / 65535) as u16
}

/// Multiplies two unit-interval components.
pub fn mul_unit(x: u16, a: u16) -> (r: u16)
    ensures
        r == mul_unit_spec(x, a),
{
    proof {
        assert((x as int) * (a as int) <= 65535 * 65535) by (nonlinear_arith)
            requires
                0 <= x <= 65535,
                0 <= a <= 65535,
        ;
        vstd::arithmetic::div_mod::lemma_div_is_ordered(
            (x as int) * (a as int),
            65535int * 65535int,
            65535int,
        );
        vstd::arithmetic::div_mod::lemma_div_pos_is_pos((x as int) * (a as int), 65535);
    }
    (((x as u32) * (a as u32)) / 65535) as u16
}

/// A color blended over opaque black with standard alpha blending: each
/// channel is scaled by the alpha, and the result is opaque.
pub open spec fn over_black(c: Rgba) -> Rgba {
    Rgba {
        r: mul_unit_spec(c.r, c.a),
        g: mul_unit_spec(c.g, c.a),
        b: mul_unit_spec(c.b, c.a),
        a: UNIT_MAX,
    }
}

/// Blends a color over opaque black.
pub fn blend_over_black(c: Rgba) -> (r: Rgba)
    ensures
        r == over_black(c),
{
    Rgba { r: mul_unit(c.r, c.a), g: mul_unit(c.g, c.a), b: mul_unit(c.b, c.a), a: UNIT_MAX }
}

/// Presents the flat surface: clears the bound default framebuffer to
/// opaque black, then draws the full-screen quad sampling the flat
/// surface's texture, blending it over the cleared black. Binding the
/// destination is the caller's responsibility; this draws into whatever
/// is bound.
pub fn draw_flat_target(ctx: &mut GraphicsContext, target: &GlRenderTarget)
    requires
        old(ctx).wf(),
        target.wf(old(ctx)),
        old(ctx).bound() == 0,
        old(ctx).screen_width() == target.width_spec(),
        old(ctx).screen_height() == target.height_spec(),
    ensures
        final(ctx).wf(),
        target.wf(final(ctx)),
        final(ctx).blending(),
        !final(ctx).depth_test(),
        final(ctx).screen().len() == target.flat_view().len(),
        forall|k: int|
            0 <= k < final(ctx).screen().len() ==> final(ctx).screen()[k] == over_black(
                #[trigger] target.flat_view()[k],
            ),
        final(ctx).allocated() == old(ctx).allocated(),
        final(ctx).released() == old(ctx).released(),
        final(ctx).bound() == 0,
        final(ctx).screen_width() == old(ctx).screen_width(),
        final(ctx).screen_height() == old(ctx).screen_height(),
        final(ctx).free_handles() == old(ctx).free_handles(),
{
    enable_blending(ctx);
    ctx.set_depth_test(false);
    let mut out: Vec<Rgba> = Vec::new();
    let mut i: usize = 0;
    let count = target.flat.pixels.len();
    while i < count
        invariant
            i <= count,
            count == target.flat.pixels@.len(),
            out@.len() == i,
            forall|k: int| 0 <= k < i ==> out@[k] == over_black(#[trigger] target.flat.pixels@[k]),
        decreases count - i,
    {
        let p = blend_over_black(target.flat.pixels[i]);
        out.push(p);
        i = i + 1;
    }
    ctx.write_screen(out);
}


/// Resource teardown completeness: every handle allocated while creating
/// a render target — its eight resources plus the two transient shader
/// stages — has been released exactly once, and is live no longer, once
/// the target is deleted. No leak, no double free.
#[verifier::rlimit(100)]
pub proof fn lemma_teardown_complete(
    c0: GraphicsContext,
    c1: GraphicsContext,
    c2: GraphicsContext,
    t: GlRenderTarget,
)
    requires
        c0.wf(),
        create_effect(c0, c1, t),
        delete_effect(c1, c2, t),
    ensures
        forall|k: int|
            0 <= k < 10 ==> count_of(
                c2.released(),
                #[trigger] c1.allocated().skip(c0.allocated().len() as int)[k],
            ) == 1,
        forall|k: int|
            0 <= k < 10 ==> !c2.is_live(
                #[trigger] c1.allocated().skip(c0.allocated().len() as int)[k],
            ),
{
    let l = c0.allocated().len() as int;
    let created = c1.allocated().skip(l);
    let h = t.handles();
    let r0 = c0.released();
    let r1 = c1.released();
    let r2 = c2.released();
    assert(h[0] == created[0] && h[1] == created[1] && h[2] == created[2] && h[3] == created[3]
        && h[4] == created[4] && h[5] == created[9] && h[6] == created[5] && h[7] == created[6]);
    assert forall|k: int| 0 <= k < 10 implies count_of(r2, #[trigger] created[k]) == 1 && !c2.is_live(
        created[k],
    ) by {
        let x = created[k];
        if r0.contains(x) {
            c0.lemma_released_are_allocated(x);
        }
        crate::context::lemma_count_absent(r0, x);
        // The two shader stages released during creation.
        crate::context::lemma_count_push(r0, created[7], x);
        crate::context::lemma_count_push(r0.push(created[7]), created[8], x);
        assert(r1 == r0.push(created[7]).push(created[8]));
        // The eight target handles released during deletion.
        crate::context::lemma_count_push(r1, h[5], x);
        crate::context::lemma_count_push(r1.push(h[5]), h[6], x);
        crate::context::lemma_count_push(r1.push(h[5]).push(h[6]), h[7], x);
        crate::context::lemma_count_push(r1.push(h[5]).push(h[6]).push(h[7]), h[0], x);
        crate::context::lemma_count_push(r1.push(h[5]).push(h[6]).push(h[7]).push(h[0]), h[3], x);
        crate::context::lemma_count_push(
            r1.push(h[5]).push(h[6]).push(h[7]).push(h[0]).push(h[3]),
            h[2],
            x,
        );
        crate::context::lemma_count_push(
            r1.push(h[5]).push(h[6]).push(h[7]).push(h[0]).push(h[3]).push(h[2]),
            h[1],
            x,
        );
        crate::context::lemma_count_push(
            r1.push(h[5]).push(h[6]).push(h[7]).push(h[0]).push(h[3]).push(h[2]).push(h[1]),
            h[4],
            x,
        );
        assert(r2 == r1.push(h[5]).push(h[6]).push(h[7]).push(h[0]).push(h[3]).push(h[2]).push(
            h[1],
        ).push(h[4]));
        assert(count_of(r2, x) == 1);
        crate::context::lemma_count_pos(r2, x);
    }
}

} // verus!
