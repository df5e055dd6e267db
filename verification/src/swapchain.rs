//! Swapchain negotiation: choose a surface format and present mode from what
//! the surface supports, resolve the extent, clamp the image count into the
//! surface's capability range, and pick the image sharing mode. The resulting
//! plan fixes every parameter the presentation chain is created with.

use vstd::prelude::*;

verus! {

/// Raw pixel-format identifier for the preferred 8-bit BGRA format in
/// non-linear sRGB encoding.
pub const FORMAT_B8G8R8A8_SRGB: u32 = 50;

/// Raw color-space identifier for non-linear sRGB.
pub const COLOR_SPACE_SRGB_NONLINEAR: u32 = 0;

/// Raw identifier of the low-latency triple-buffering-like present mode.
pub const PRESENT_MODE_MAILBOX: u32 = 1;

/// Raw identifier of the universally supported strict-vsync present mode.
pub const PRESENT_MODE_FIFO: u32 = 2;

/// The sentinel a surface reports as its current width when it lets the
/// client decide the extent.
pub const EXTENT_UNDEFINED: u32 = 0xffff_ffff;

/// A supported pairing of pixel format and color space, by raw identifier.
#[derive(Clone, Copy, PartialEq, Eq, Structural, Debug)]
pub struct SurfaceFormat {
    pub format: u32,
    pub color_space: u32,
}

/// A width and height in pixels.
#[derive(Clone, Copy, PartialEq, Eq, Structural, Debug)]
pub struct Extent2D {
    pub width: u32,
    pub height: u32,
}

/// What the surface reports about itself: the image-count range, the current
/// extent (possibly the "client decides" sentinel), and the extent bounds.
#[derive(Clone, Copy, PartialEq, Eq, Structural, Debug)]
pub struct SurfaceCaps {
    pub min_image_count: u32,
    pub max_image_count: u32,
    pub current_extent: Extent2D,
    pub min_image_extent: Extent2D,
    pub max_image_extent: Extent2D,
}

/// The guarantees the surface query gives about its capability report:
/// at least one image is always required, a nonzero image-count cap is never
/// below the minimum, and the extent bounds are ordered. (A zero cap means
/// "no cap".)
pub open spec fn caps_well_formed(c: SurfaceCaps) -> bool {
    &&& 1 <= c.min_image_count
    &&& c.min_image_count < 0xffff_ffffu32
    &&& c.max_image_count == 0 || c.min_image_count <= c.max_image_count
    &&& c.min_image_extent.width <= c.max_image_extent.width
    &&& c.min_image_extent.height <= c.max_image_extent.height
}

pub open spec fn is_preferred_format(f: SurfaceFormat) -> bool {
    f.format == FORMAT_B8G8R8A8_SRGB && f.color_space == COLOR_SPACE_SRGB_NONLINEAR
}

pub open spec fn has_preferred_format(s: Seq<SurfaceFormat>) -> bool {
    exists|i: int| 0 <= i < s.len() && is_preferred_format(s[i])
}

/// Prefer 8-bit BGRA in non-linear sRGB when the surface supports it (taking
/// the first such entry); otherwise fall back to the first supported format.
pub fn choose_surface_format(formats: &Vec<SurfaceFormat>) -> (r: SurfaceFormat)
    requires
        formats@.len() > 0,
    ensures
        has_preferred_format(formats@) ==> is_preferred_format(r)
            && (exists|i: int| 0 <= i < formats@.len() && r == formats@[i]
                && (forall|j: int| 0 <= j < i ==> !is_preferred_format(formats@[j]))),
        !has_preferred_format(formats@) ==> r == formats@[0],
{
    let mut i: usize = 0;
    while i < formats.len()
        invariant
            i <= formats@.len(),
            formats@.len() > 0,
            forall|j: int| 0 <= j < i ==> !is_preferred_format(formats@[j]),
        decreases formats@.len() - i,
    {
        let f = formats[i];
        if f.format == FORMAT_B8G8R8A8_SRGB && f.color_space == COLOR_SPACE_SRGB_NONLINEAR {
            return f;
        }
        i = i + 1;
    }
    formats[0]
}

pub open spec fn spec_choose_present_mode(s: Seq<u32>) -> u32 {
    if s.contains(PRESENT_MODE_MAILBOX) {
        PRESENT_MODE_MAILBOX
    } else {
        PRESENT_MODE_FIFO
    }
}

/// Prefer the low-latency mailbox mode when available; otherwise fall back to
/// strict-vsync FIFO, which every surface supports.
pub fn choose_present_mode(modes: &Vec<u32>) -> (r: u32)
    ensures
        r == spec_choose_present_mode(modes@),
{
    let mut i: usize = 0;
    while i < modes.len()
        invariant
            i <= modes@.len(),
            forall|j: int| 0 <= j < i ==> modes@[j] != PRESENT_MODE_MAILBOX,
        decreases modes@.len() - i,
    {
        if modes[i] == PRESENT_MODE_MAILBOX {
            assert(modes@.contains(PRESENT_MODE_MAILBOX));
            return PRESENT_MODE_MAILBOX;
        }
        i = i + 1;
    }
    assert(!modes@.contains(PRESENT_MODE_MAILBOX));
    PRESENT_MODE_FIFO
}

pub open spec fn spec_clamp(x: u32, lo: u32, hi: u32) -> u32 {
    if x < lo {
        lo
    } else if x > hi {
        hi
    } else {
        x
    }
}

fn clamp_u32(x: u32, lo: u32, hi: u32) -> (r: u32)
    requires
        lo <= hi,
    ensures
        r == spec_clamp(x, lo, hi),
{
    if x < lo {
        lo
    } else if x > hi {
        hi
    } else {
        x
    }
}

/// The extent a swapchain built against these capabilities must use: the
/// surface's reported extent verbatim, unless the surface leaves the choice
/// to the client, in which case the window's framebuffer size clamped
/// per-axis into the reported bounds.
pub open spec fn spec_choose_extent(c: SurfaceCaps, fb_width: u32, fb_height: u32) -> Extent2D {
    if c.current_extent.width == EXTENT_UNDEFINED {
        Extent2D {
            width: spec_clamp(fb_width, c.min_image_extent.width, c.max_image_extent.width),
            height: spec_clamp(fb_height, c.min_image_extent.height, c.max_image_extent.height),
        }
    } else {
        c.current_extent
    }
}

pub fn choose_extent(caps: &SurfaceCaps, fb_width: u32, fb_height: u32) -> (r: Extent2D)
    requires
        caps_well_formed(*caps),
    ensures
        r == spec_choose_extent(*caps, fb_width, fb_height),
{
    if caps.current_extent.width == EXTENT_UNDEFINED {
        Extent2D {
            width: clamp_u32(fb_width, caps.min_image_extent.width, caps.max_image_extent.width),
            height: clamp_u32(fb_height, caps.min_image_extent.height, caps.max_image_extent.height),
        }
    } else {
        caps.current_extent
    }
}

/// One more image than the surface's minimum, clamped down to the cap when
/// the surface reports one (a zero cap means "no cap").
pub open spec fn spec_image_count(c: SurfaceCaps) -> int {
    if c.max_image_count > 0 && c.min_image_count + 1 > c.max_image_count {
        c.max_image_count as int
    } else {
        c.min_image_count + 1
    }
}

pub fn swapchain_image_count(caps: &SurfaceCaps) -> (n: u32)
    requires
        caps_well_formed(*caps),
    ensures
        n == spec_image_count(*caps),
{
    let mut n: u32 = caps.min_image_count + 1;
    if caps.max_image_count > 0 && n > caps.max_image_count {
        n = caps.max_image_count;
    }
    n
}

/// The negotiated image count always lands in the surface's range: at least
/// the reported minimum, and when the surface reports a nonzero cap, no more
/// than the larger of minimum and cap.
pub proof fn lemma_image_count_in_range(c: SurfaceCaps)
    requires
        caps_well_formed(c),
    ensures
        c.min_image_count <= spec_image_count(c),
        c.max_image_count > 0 ==> spec_image_count(c) <= if c.min_image_count >= c.max_image_count {
            c.min_image_count as int
        } else {
            c.max_image_count as int
        },
        c.max_image_count == 0 ==> spec_image_count(c) >= c.min_image_count,
{
}

/// How the swapchain images may be shared between queues: exclusive to one
/// family, or concurrently owned by the graphics and present families.
#[derive(Clone, Copy, PartialEq, Eq, Structural, Debug)]
pub enum SharingMode {
    Exclusive,
    Concurrent,
}

/// Images need concurrent sharing exactly when graphics and presentation run
/// on different queue families; a single family keeps exclusive ownership.
pub fn select_sharing_mode(graphics_family: usize, present_family: usize) -> (m: SharingMode)
    ensures
        m == (if graphics_family == present_family {
            SharingMode::Exclusive
        } else {
            SharingMode::Concurrent
        }),
{
    if graphics_family == present_family {
        SharingMode::Exclusive
    } else {
        SharingMode::Concurrent
    }
}

/// Every parameter the presentation chain is created with, fixed before any
/// creation call is made.
#[derive(Clone, Copy, PartialEq, Eq, Structural, Debug)]
pub struct SwapchainPlan {
    pub format: SurfaceFormat,
    pub present_mode: u32,
    pub extent: Extent2D,
    pub image_count: u32,
    pub sharing: SharingMode,
    pub graphics_family: usize,
    pub present_family: usize,
}

/// Negotiate every swapchain parameter from what the surface reports, the
/// window's framebuffer size, and the chosen queue families.
pub fn plan_swapchain(
    caps: &SurfaceCaps,
    formats: &Vec<SurfaceFormat>,
    present_modes: &Vec<u32>,
    fb_width: u32,
    fb_height: u32,
    graphics_family: usize,
    present_family: usize,
) -> (p: SwapchainPlan)
    requires
        caps_well_formed(*caps),
        formats@.len() > 0,
    ensures
        has_preferred_format(formats@) ==> is_preferred_format(p.format),
        !has_preferred_format(formats@) ==> p.format == formats@[0],
        formats@.contains(p.format),
        p.present_mode == spec_choose_present_mode(present_modes@),
        p.extent == spec_choose_extent(*caps, fb_width, fb_height),
        p.image_count == spec_image_count(*caps),
        p.sharing == (if graphics_family == present_family {
            SharingMode::Exclusive
        } else {
            SharingMode::Concurrent
        }),
        p.graphics_family == graphics_family,
        p.present_family == present_family,
        caps.min_image_count <= p.image_count,
{
    let format = choose_surface_format(formats);
    proof {
        if has_preferred_format(formats@) {
            let i = choose|i: int|
                0 <= i < formats@.len() && format == formats@[i] && (forall|j: int|
                    0 <= j < i ==> !is_preferred_format(formats@[j]));
            assert(formats@.contains(format));
        } else {
            assert(formats@.contains(format));
        }
        lemma_image_count_in_range(*caps);
    }
    let present_mode = choose_present_mode(present_modes);
    let extent = choose_extent(caps, fb_width, fb_height);
    let image_count = swapchain_image_count(caps);
    let sharing = select_sharing_mode(graphics_family, present_family);
    SwapchainPlan {
        format,
        present_mode,
        extent,
        image_count,
        sharing,
        graphics_family,
        present_family,
    }
}

/// The model of a created presentation chain: how many images it holds (each
/// with a derived view, one-to-one) and the format and extent they were
/// created with.
#[derive(Clone, Copy, PartialEq, Eq, Structural, Debug)]
pub struct Swapchain {
    pub image_count: usize,
    pub format: u32,
    pub extent: Extent2D,
}

impl Swapchain {
    /// A chain created from a plan carries exactly the planned image count,
    /// format, and extent.
    pub fn from_plan(plan: &SwapchainPlan) -> (s: Swapchain)
        ensures
            s.image_count == plan.image_count,
            s.format == plan.format.format,
            s.extent == plan.extent,
    {
        Swapchain {
            image_count: plan.image_count as usize,
            format: plan.format.format,
            extent: plan.extent,
        }
    }
}

} // verus!
