//! A resource-tracking model of the graphics context.
//!
//! The real graphics API hands out numeric handles for framebuffers,
//! textures, renderbuffers, buffers, vertex arrays, shaders and programs,
//! and every handle acquired must be released exactly once — no leak, no
//! double free. [`GraphicsContext`] is that ledger, made explicit: it
//! records every handle ever allocated and every handle ever released, so
//! the teardown discipline of the render target is a provable property
//! and a queryable fact, not a hope.
//!
//! The context also models the pieces of API state the pipeline touches:
//! which framebuffer is bound, whether blending and the depth test are on,
//! and the pixels of the default framebuffer (the window's surface, which
//! presentation draws into).

use vstd::prelude::*;
use crate::color::Rgba;
use crate::color::UNIT_MAX;

verus! {

broadcast use vstd::seq_lib::group_seq_properties;

/// How often `h` occurs in `s`.
pub open spec fn count_of(s: Seq<u64>, h: u64) -> nat
    decreases s.len(),
{
    if s.len() == 0 {
        0
    } else {
        count_of(s.drop_last(), h) + if s.last() == h {
            1nat
        } else {
            0nat
        }
    }
}

/// Counting past an appended element.
pub proof fn lemma_count_push(s: Seq<u64>, x: u64, h: u64)
    ensures
        count_of(s.push(x), h) == count_of(s, h) + if x == h {
            1nat
        } else {
            0nat
        },
{
    assert(s.push(x).drop_last() =~= s);
}

/// A handle that never occurs counts zero times.
pub proof fn lemma_count_absent(s: Seq<u64>, h: u64)
    requires
        !s.contains(h),
    ensures
        count_of(s, h) == 0,
    decreases s.len(),
{
    if s.len() > 0 {
        assert(!s.drop_last().contains(h)) by {
            assert forall|i: int| 0 <= i < s.drop_last().len() implies s.drop_last()[i] != h by {
                assert(s[i] == s.drop_last()[i]);
            }
        }
        lemma_count_absent(s.drop_last(), h);
    }
}

/// A handle counted at least once occurs in the sequence.
pub proof fn lemma_count_pos(s: Seq<u64>, h: u64)
    requires
        count_of(s, h) > 0,
    ensures
        s.contains(h),
    decreases s.len(),
{
    if s.len() > 0 {
        if s.last() == h {
            assert(s[s.len() - 1] == h);
        } else {
            lemma_count_pos(s.drop_last(), h);
            let i = choose|i: int| 0 <= i < s.drop_last().len() && s.drop_last()[i] == h;
            assert(s[i] == h);
        }
    }
}

/// The uniform sequence of `n` pixels, all of color `c`.
pub open spec fn uniform(n: nat, c: Rgba) -> Seq<Rgba> {
    Seq::new(n, |i: int| c)
}

/// A vector of `n` pixels, all of color `c`.
pub fn filled(n: usize, c: Rgba) -> (v: Vec<Rgba>)
    ensures
        v@ == uniform(n as nat, c),
{
    let mut v: Vec<Rgba> = Vec::new();
    let mut i: usize = 0;
    while i < n
        invariant
            i <= n,
            v@ == uniform(i as nat, c),
        decreases n - i,
    {
        v.push(c);
        proof {
            assert(v@ =~= uniform((i + 1) as nat, c));
        }
        i = i + 1;
    }
    v
}

/// A rectangular grid of pixels: the contents of one color attachment, or
/// of the default framebuffer.
pub struct Surface {
    pub width: usize,
    pub height: usize,
    pub pixels: Vec<Rgba>,
}

impl Surface {
    /// The grid holds exactly one pixel per cell.
    pub open spec fn wf(&self) -> bool {
        self.pixels@.len() == self.width * self.height && self.width * self.height <= usize::MAX
    }

    /// A surface of the given size, uniformly of color `fill`.
    pub fn new(width: usize, height: usize, fill: Rgba) -> (s: Surface)
        requires
            width * height <= usize::MAX,
        ensures
            s.wf(),
            s.width == width,
            s.height == height,
            s.pixels@ == uniform((width * height) as nat, fill),
    {
        let count = width * height;
        Surface { width, height, pixels: filled(count, fill) }
    }

    /// Sets every pixel to `c`.
    pub fn fill(&mut self, c: Rgba)
        requires
            old(self).wf(),
        ensures
            final(self).wf(),
            final(self).width == old(self).width,
            final(self).height == old(self).height,
            final(self).pixels@ == uniform(old(self).pixels@.len(), c),
    {
        let count = self.pixels.len();
        self.pixels = filled(count, c);
    }

    /// The pixel at column `x`, row `y` (row-major).
    pub fn pixel(&self, x: usize, y: usize) -> (p: Rgba)
        requires
            self.wf(),
            x < self.width,
            y < self.height,
        ensures
            p == self.pixels@[y * self.width + x],
    {
        proof {
            assert(y * self.width + x < self.width * self.height) by (nonlinear_arith)
                requires
                    0 <= x < self.width,
                    0 <= y < self.height,
            ;
        }
        self.pixels[y * self.width + x]
    }
}

/// The closed set of error conditions the graphics API reports, mapped
/// once from its numeric codes.
#[allow(non_camel_case_types)]
#[derive(Clone, Copy, Debug, PartialEq, Eq, Structural)]
pub enum GlError {
    /// No error has been recorded.
    NO_ERROR,
    /// An unacceptable value was specified for an enumerated argument.
    INVALID_ENUM,
    /// A numeric argument was out of range.
    INVALID_VALUE,
    /// The specified operation is not allowed in the current state.
    INVALID_OPERATION,
    /// A read or draw hit an incomplete framebuffer.
    INVALID_FRAMEBUFFER_OPERATION,
    /// Not enough memory was left to execute the command.
    OUT_OF_MEMORY,
}

/// The numeric code of each error condition, as the graphics API
/// documents them.
pub open spec fn error_of_code(code: u32) -> Option<GlError> {
    if code == 0 {
        Some(GlError::NO_ERROR)
    } else if code == 0x0500 {
        Some(GlError::INVALID_ENUM)
    } else if code == 0x0501 {
        Some(GlError::INVALID_VALUE)
    } else if code == 0x0502 {
        Some(GlError::INVALID_OPERATION)
    } else if code == 0x0506 {
        Some(GlError::INVALID_FRAMEBUFFER_OPERATION)
    } else if code == 0x0505 {
        Some(GlError::OUT_OF_MEMORY)
    } else {
        None
    }
}

impl GlError {
    /// The numeric code this condition is reported as.
    pub open spec fn code_spec(self) -> u32 {
        match self {
            GlError::NO_ERROR => 0,
            GlError::INVALID_ENUM => 0x0500,
            GlError::INVALID_VALUE => 0x0501,
            GlError::INVALID_OPERATION => 0x0502,
            GlError::INVALID_FRAMEBUFFER_OPERATION => 0x0506,
            GlError::OUT_OF_MEMORY => 0x0505,
        }
    }

    /// The numeric code this condition is reported as.
    pub fn code(self) -> (c: u32)
        ensures
            c == self.code_spec(),
    {
        match self {
            GlError::NO_ERROR => 0,
            GlError::INVALID_ENUM => 0x0500,
            GlError::INVALID_VALUE => 0x0501,
            GlError::INVALID_OPERATION => 0x0502,
            GlError::INVALID_FRAMEBUFFER_OPERATION => 0x0506,
            GlError::OUT_OF_MEMORY => 0x0505,
        }
    }

    /// Maps a reported numeric code to the condition it names, or `None`
    /// for a code the API does not document.
    pub fn from_code(code: u32) -> (r: Option<GlError>)
        ensures
            r == error_of_code(code),
    {
        if code == 0 {
            Some(GlError::NO_ERROR)
        } else if code == 0x0500 {
            Some(GlError::INVALID_ENUM)
        } else if code == 0x0501 {
            Some(GlError::INVALID_VALUE)
        } else if code == 0x0502 {
            Some(GlError::INVALID_OPERATION)
        } else if code == 0x0506 {
            Some(GlError::INVALID_FRAMEBUFFER_OPERATION)
        } else if code == 0x0505 {
            Some(GlError::OUT_OF_MEMORY)
        } else {
            None
        }
    }
}

/// The modeled graphics context: the resource ledger plus the API state
/// the pipeline reads and writes. Handle 0 is reserved: it names the
/// default framebuffer and is never allocated.
pub struct GraphicsContext {
    next_handle: u64,
    allocated: Vec<u64>,
    released: Vec<u64>,
    bound_framebuffer: u64,
    blending: bool,
    depth_test: bool,
    screen: Surface,
}

impl GraphicsContext {
    /// Every handle ever allocated, in allocation order.
    pub closed spec fn allocated(&self) -> Seq<u64> {
        self.allocated@
    }

    /// Every handle ever released, in release order.
    pub closed spec fn released(&self) -> Seq<u64> {
        self.released@
    }

    /// A handle is live when it was allocated and not yet released.
    pub open spec fn is_live(&self, h: u64) -> bool {
        self.allocated().contains(h) && !self.released().contains(h)
    }

    /// The framebuffer currently bound; 0 is the default framebuffer.
    pub closed spec fn bound(&self) -> u64 {
        self.bound_framebuffer
    }

    /// Whether blending is enabled.
    pub closed spec fn blending(&self) -> bool {
        self.blending
    }

    /// Whether the depth test is enabled.
    pub closed spec fn depth_test(&self) -> bool {
        self.depth_test
    }

    /// The pixels of the default framebuffer, row-major.
    pub closed spec fn screen(&self) -> Seq<Rgba> {
        self.screen.pixels@
    }

    /// Width of the default framebuffer.
    pub closed spec fn screen_width(&self) -> usize {
        self.screen.width
    }

    /// Height of the default framebuffer.
    pub closed spec fn screen_height(&self) -> usize {
        self.screen.height
    }

    /// How many handles can still be allocated before the counter is
    /// exhausted.
    pub closed spec fn free_handles(&self) -> int {
        u64::MAX - self.next_handle
    }

    /// The ledger's invariant: handles are allocated in strictly
    /// increasing order starting above 0, releases name allocated handles,
    /// and no handle is released twice.
    pub closed spec fn wf(&self) -> bool {
        &&& self.next_handle >= 1
        &&& forall|i: int|
            0 <= i < self.allocated@.len() ==> 0 < #[trigger] self.allocated@[i]
                < self.next_handle
        &&& forall|i: int, j: int|
            0 <= i < j < self.allocated@.len() ==> self.allocated@[i] < self.allocated@[j]
        &&& forall|i: int|
            0 <= i < self.released@.len() ==> self.allocated@.contains(
                #[trigger] self.released@[i],
            )
        &&& forall|i: int, j: int|
            0 <= i < j < self.released@.len() ==> self.released@[i] != self.released@[j]
        &&& self.screen.wf()
    }

    /// A fresh context for a default framebuffer of the given size, with
    /// an empty ledger, the default framebuffer bound, blending and depth
    /// test off, and the screen opaque black.
    pub fn new(width: usize, height: usize) -> (ctx: GraphicsContext)
        requires
            width * height <= usize::MAX,
        ensures
            ctx.wf(),
            ctx.allocated() == Seq::<u64>::empty(),
            ctx.released() == Seq::<u64>::empty(),
            ctx.bound() == 0,
            !ctx.blending(),
            !ctx.depth_test(),
            ctx.screen_width() == width,
            ctx.screen_height() == height,
            ctx.screen() == uniform((width * height) as nat, Rgba { r: 0, g: 0, b: 0, a: UNIT_MAX }),
            ctx.free_handles() == u64::MAX - 1,
    {
        GraphicsContext {
            next_handle: 1,
            allocated: Vec::new(),
            released: Vec::new(),
            bound_framebuffer: 0,
            blending: false,
            depth_test: false,
            screen: Surface::new(width, height, Rgba { r: 0, g: 0, b: 0, a: UNIT_MAX }),
        }
    }

    /// Allocates a fresh handle: one never seen before, recorded in the
    /// ledger and live from now on.
    pub(crate) fn alloc_handle(&mut self) -> (h: u64)
        requires
            old(self).wf(),
            old(self).free_handles() >= 1,
        ensures
            final(self).wf(),
            h > 0,
            !old(self).allocated().contains(h),
            forall|x: u64| old(self).allocated().contains(x) ==> x < h,
            final(self).allocated() == old(self).allocated().push(h),
            final(self).released() == old(self).released(),
            final(self).is_live(h),
            final(self).bound() == old(self).bound(),
            final(self).blending() == old(self).blending(),
            final(self).depth_test() == old(self).depth_test(),
            final(self).screen() == old(self).screen(),
            final(self).screen_width() == old(self).screen_width(),
            final(self).screen_height() == old(self).screen_height(),
            final(self).free_handles() == old(self).free_handles() - 1,
    {
        let h = self.next_handle;
        self.next_handle = self.next_handle + 1;
        self.allocated.push(h);
        proof {
            let a0 = old(self).allocated@;
            let a1 = self.allocated@;
            assert forall|i: int| 0 <= i < a0.len() implies a0[i] != h by {}
            assert(!a0.contains(h));
            assert forall|x: u64| a0.contains(x) implies x < h by {
                let k = choose|k: int| 0 <= k < a0.len() && a0[k] == x;
                assert(a0[k] < h);
            }
            assert(!self.released@.contains(h)) by {
                assert forall|i: int| 0 <= i < self.released@.len() implies self.released@[i]
                    != h by {
                    assert(a0.contains(self.released@[i]));
                    let k = choose|k: int| 0 <= k < a0.len() && a0[k] == self.released@[i];
                    assert(a0[k] < h);
                }
            }
            assert(a1.contains(h)) by {
                assert(a1[a0.len() as int] == h);
            }
            assert(self.wf()) by {
                assert forall|i: int, j: int| 0 <= i < j < a1.len() implies a1[i] < a1[j] by {
                    if j < a0.len() {
                        assert(a0[i] < a0[j]);
                    } else {
                        assert(a1[j] == h);
                        assert(a0[i] < h);
                    }
                }
                assert forall|i: int|
                    0 <= i < self.released@.len() implies a1.contains(
                    #[trigger] self.released@[i],
                ) by {
                    assert(a0.contains(self.released@[i]));
                    let k = choose|k: int| 0 <= k < a0.len() && a0[k] == self.released@[i];
                    assert(a1[k] == self.released@[i]);
                }
            }
        }
        h
    }

    /// Releases a live handle: recorded in the ledger, dead from now on.
    pub(crate) fn release_handle(&mut self, h: u64)
        requires
            old(self).wf(),
            old(self).is_live(h),
        ensures
            final(self).wf(),
            final(self).allocated() == old(self).allocated(),
            final(self).released() == old(self).released().push(h),
            !final(self).is_live(h),
            final(self).bound() == old(self).bound(),
            final(self).blending() == old(self).blending(),
            final(self).depth_test() == old(self).depth_test(),
            final(self).screen() == old(self).screen(),
            final(self).screen_width() == old(self).screen_width(),
            final(self).screen_height() == old(self).screen_height(),
            final(self).free_handles() == old(self).free_handles(),
    {
        self.released.push(h);
        proof {
            let r0 = old(self).released@;
            let r1 = self.released@;
            assert(r1.contains(h)) by {
                assert(r1[r0.len() as int] == h);
            }
            assert(self.wf()) by {
                assert forall|i: int|
                    0 <= i < r1.len() implies self.allocated@.contains(#[trigger] r1[i]) by {
                    if i < r0.len() {
                        assert(self.allocated@.contains(r0[i]));
                    } else {
                        assert(r1[i] == h);
                    }
                }
                assert forall|i: int, j: int| 0 <= i < j < r1.len() implies r1[i] != r1[j] by {
                    if j < r0.len() {
                        assert(r0[i] != r0[j]);
                    } else {
                        assert(r1[j] == h);
                        assert(!r0.contains(h));
                        assert(r1[i] == r0[i]);
                    }
                }
            }
        }
    }

    /// Binds a framebuffer: the given live handle, or 0 for the default
    /// framebuffer.
    pub(crate) fn bind_framebuffer(&mut self, fbo: u64)
        requires
            old(self).wf(),
            fbo == 0 || old(self).is_live(fbo),
        ensures
            final(self).wf(),
            final(self).bound() == fbo,
            final(self).allocated() == old(self).allocated(),
            final(self).released() == old(self).released(),
            final(self).blending() == old(self).blending(),
            final(self).depth_test() == old(self).depth_test(),
            final(self).screen() == old(self).screen(),
            final(self).screen_width() == old(self).screen_width(),
            final(self).screen_height() == old(self).screen_height(),
            final(self).free_handles() == old(self).free_handles(),
    {
        self.bound_framebuffer = fbo;
    }

    /// Switches blending on or off.
    pub(crate) fn set_blending(&mut self, on: bool)
        requires
            old(self).wf(),
        ensures
            final(self).wf(),
            final(self).blending() == on,
            final(self).allocated() == old(self).allocated(),
            final(self).released() == old(self).released(),
            final(self).bound() == old(self).bound(),
            final(self).depth_test() == old(self).depth_test(),
            final(self).screen() == old(self).screen(),
            final(self).screen_width() == old(self).screen_width(),
            final(self).screen_height() == old(self).screen_height(),
            final(self).free_handles() == old(self).free_handles(),
    {
        self.blending = on;
    }

    /// Switches the depth test on or off.
    pub(crate) fn set_depth_test(&mut self, on: bool)
        requires
            old(self).wf(),
        ensures
            final(self).wf(),
            final(self).depth_test() == on,
            final(self).allocated() == old(self).allocated(),
            final(self).released() == old(self).released(),
            final(self).bound() == old(self).bound(),
            final(self).blending() == old(self).blending(),
            final(self).screen() == old(self).screen(),
            final(self).screen_width() == old(self).screen_width(),
            final(self).screen_height() == old(self).screen_height(),
            final(self).free_handles() == old(self).free_handles(),
    {
        self.depth_test = on;
    }

    /// Replaces the default framebuffer's pixels wholesale.
    pub(crate) fn write_screen(&mut self, pixels: Vec<Rgba>)
        requires
            old(self).wf(),
            pixels@.len() == old(self).screen_width() * old(self).screen_height(),
        ensures
            final(self).wf(),
            final(self).screen() == pixels@,
            final(self).allocated() == old(self).allocated(),
            final(self).released() == old(self).released(),
            final(self).bound() == old(self).bound(),
            final(self).blending() == old(self).blending(),
            final(self).depth_test() == old(self).depth_test(),
            final(self).screen_width() == old(self).screen_width(),
            final(self).screen_height() == old(self).screen_height(),
            final(self).free_handles() == old(self).free_handles(),
    {
        self.screen.pixels = pixels;
    }

    /// A well-formed ledger releases only handles it allocated.
    pub proof fn lemma_released_are_allocated(&self, h: u64)
        requires
            self.wf(),
            self.released().contains(h),
        ensures
            self.allocated().contains(h),
    {
        let i = choose|i: int| 0 <= i < self.released@.len() && self.released@[i] == h;
        assert(self.allocated@.contains(self.released@[i]));
    }

    /// The framebuffer currently bound; 0 is the default framebuffer.
    pub fn bound_framebuffer(&self) -> (b: u64)
        ensures
            b == self.bound(),
    {
        self.bound_framebuffer
    }

    /// Whether blending is enabled.
    pub fn blending_enabled(&self) -> (b: bool)
        ensures
            b == self.blending(),
    {
        self.blending
    }

    /// Whether the depth test is enabled.
    pub fn depth_test_enabled(&self) -> (b: bool)
        ensures
            b == self.depth_test(),
    {
        self.depth_test
    }

    /// Queries the ledger: is this handle allocated and not released?
    pub fn query_live(&self, h: u64) -> (b: bool)
        ensures
            b == self.is_live(h),
    {
        let alloc = contains_handle(&self.allocated, h);
        if alloc {
            let rel = contains_handle(&self.released, h);
            !rel
        } else {
            false
        }
    }

    /// Queries the ledger: how many times has this handle been released?
    pub fn release_count(&self, h: u64) -> (n: usize)
        ensures
            n == count_of(self.released(), h),
    {
        let mut n: usize = 0;
        let mut i: usize = 0;
        while i < self.released.len()
            invariant
                i <= self.released@.len(),
                n == count_of(self.released@.take(i as int), h),
                n <= i,
            decreases self.released@.len() - i,
        {
            proof {
                assert(self.released@.take(i + 1).drop_last() =~= self.released@.take(i as int));
                assert(self.released@.take(i + 1).last() == self.released@[i as int]);
            }
            if self.released[i] == h {
                n = n + 1;
            }
            i = i + 1;
        }
        proof {
            assert(self.released@.take(self.released@.len() as int) =~= self.released@);
        }
        n
    }

    /// Reads one pixel of the default framebuffer.
    pub fn screen_pixel(&self, x: usize, y: usize) -> (p: Rgba)
        requires
            self.wf(),
            x < self.screen_width(),
            y < self.screen_height(),
        ensures
            p == self.screen()[y * self.screen_width() + x],
    {
        self.screen.pixel(x, y)
    }
}

/// Whether `v` holds `h`.
fn contains_handle(v: &Vec<u64>, h: u64) -> (b: bool)
    ensures
        b == v@.contains(h),
{
    let mut i: usize = 0;
    while i < v.len()
        invariant
            i <= v@.len(),
            forall|j: int| 0 <= j < i ==> v@[j] != h,
        decreases v@.len() - i,
    {
        if v[i] == h {
            return true;
        }
        i = i + 1;
    }
    false
}

} // verus!
