//! Choice of the swapchain configuration and its rebuilding on resize.
use vstd::prelude::*;

use crate::accel::{bindings_for, DescriptorSets};
use crate::frame::max_frames;

verus! {

/// `VK_FORMAT_R8G8B8A8_UNORM`.
pub const FORMAT_R8G8B8A8_UNORM: i32 = 37;

/// `VK_COLOR_SPACE_SRGB_NONLINEAR_KHR`.
pub const COLOR_SPACE_SRGB_NONLINEAR: i32 = 0;

/// `VK_PRESENT_MODE_MAILBOX_KHR`.
pub const PRESENT_MODE_MAILBOX: i32 = 1;

/// `VK_PRESENT_MODE_FIFO_KHR`, which every device supports.
pub const PRESENT_MODE_FIFO: i32 = 2;

/// Width reported by a surface whose size is decided by the swapchain.
pub const UNDEFINED_EXTENT: u32 = 0xffff_ffff;

#[derive(Debug, Clone, Copy, PartialEq, Eq, Structural)]
pub struct Extent2D {
    pub width: u32,
    pub height: u32,
}

#[derive(Debug, Clone, Copy, PartialEq, Eq, Structural)]
pub struct SurfaceFormat {
    pub format: i32,
    pub color_space: i32,
}

/// What the surface reports about the swapchains it accepts.
#[derive(Debug, Clone, Copy, PartialEq, Eq, Structural)]
pub struct SurfaceCapabilities {
    pub min_image_count: u32,
    /// Zero when there is no upper limit.
    pub max_image_count: u32,
    pub current_extent: Extent2D,
    pub min_image_extent: Extent2D,
    pub max_image_extent: Extent2D,
}

/// The results of the surface queries.
#[derive(Debug, Clone)]
pub struct SwapchainSupport {
    pub capabilities: SurfaceCapabilities,
    pub formats: Vec<SurfaceFormat>,
    pub present_modes: Vec<i32>,
}

#[derive(Debug, Clone, Copy, PartialEq, Eq, Structural)]
pub enum SharingMode {
    Exclusive,
    Concurrent,
}

/// Everything the swapchain is created with.
#[derive(Debug, Clone)]
pub struct SwapchainConfig {
    pub format: SurfaceFormat,
    pub present_mode: i32,
    pub extent: Extent2D,
    pub image_count: u32,
    pub sharing_mode: SharingMode,
    /// The distinct queue families that use the images, in order of first mention.
    pub queue_families: Vec<u32>,
}

#[derive(Debug, Clone, Copy, PartialEq, Eq, Structural)]
pub enum SwapchainError {
    /// The surface offers no RGBA8 format with the sRGB non-linear color space.
    NoSuitableFormat,
}

/// What a resize asks for.
#[derive(Debug, Clone)]
pub enum RecreatePlan {
    /// The window has no area: nothing is destroyed or allocated.
    Unchanged,
    /// Wait for the device, destroy the old swapchain and build this one.
    Rebuild(SwapchainConfig),
}

pub open spec fn preferred_format() -> SurfaceFormat {
    SurfaceFormat { format: FORMAT_R8G8B8A8_UNORM, color_space: COLOR_SPACE_SRGB_NONLINEAR }
}

pub open spec fn offers_preferred_format(formats: Seq<SurfaceFormat>) -> bool {
    formats.contains(preferred_format())
}

pub open spec fn present_mode_for(modes: Seq<i32>) -> i32 {
    if modes.contains(PRESENT_MODE_MAILBOX) {
        PRESENT_MODE_MAILBOX
    } else {
        PRESENT_MODE_FIFO
    }
}

pub open spec fn clamp(v: u32, lo: u32, hi: u32) -> u32 {
    if v < lo {
        lo
    } else if v > hi {
        hi
    } else {
        v
    }
}

pub open spec fn extent_for(caps: SurfaceCapabilities, window: Extent2D) -> Extent2D {
    if caps.current_extent.width != UNDEFINED_EXTENT {
        caps.current_extent
    } else {
        Extent2D {
            width: clamp(window.width, caps.min_image_extent.width, caps.max_image_extent.width),
            height: clamp(
                window.height,
                caps.min_image_extent.height,
                caps.max_image_extent.height,
            ),
        }
    }
}

pub open spec fn image_count_for(caps: SurfaceCapabilities) -> u32 {
    if caps.max_image_count > 0 && caps.min_image_count + 1 > caps.max_image_count {
        caps.max_image_count
    } else {
        (caps.min_image_count + 1) as u32
    }
}

/// The values of `s`, each once, in order of first occurrence.
pub open spec fn first_occurrences(s: Seq<u32>) -> Seq<u32>
    decreases s.len(),
{
    if s.len() == 0 {
        Seq::empty()
    } else {
        let before = first_occurrences(s.drop_last());
        if before.contains(s.last()) {
            before
        } else {
            before.push(s.last())
        }
    }
}

/// Picks the surface format: RGBA8 with the sRGB non-linear color space.
pub fn choose_surface_format(formats: &Vec<SurfaceFormat>) -> (r: Option<SurfaceFormat>)
    ensures
        r == if offers_preferred_format(formats@) {
            Some(preferred_format())
        } else {
            None::<SurfaceFormat>
        },
{
    let mut i: usize = 0;
    while i < formats.len()
        invariant
            i <= formats.len(),
            forall|j: int| 0 <= j < i ==> formats@[j] != preferred_format(),
        decreases formats.len() - i,
    {
        let f = formats[i];
        if f.format == FORMAT_R8G8B8A8_UNORM && f.color_space == COLOR_SPACE_SRGB_NONLINEAR {
            assert(formats@[i as int] == preferred_format());
            return Some(f);
        }
        i = i + 1;
    }
    None
}

/// Picks the present mode: mailbox when offered, FIFO otherwise.
pub fn choose_present_mode(present_modes: &Vec<i32>) -> (r: i32)
    ensures
        r == present_mode_for(present_modes@),
{
    let mut i: usize = 0;
    while i < present_modes.len()
        invariant
            i <= present_modes.len(),
            forall|j: int| 0 <= j < i ==> present_modes@[j] != PRESENT_MODE_MAILBOX,
        decreases present_modes.len() - i,
    {
        if present_modes[i] == PRESENT_MODE_MAILBOX {
            assert(present_modes@[i as int] == PRESENT_MODE_MAILBOX);
            return PRESENT_MODE_MAILBOX;
        }
        i = i + 1;
    }
    PRESENT_MODE_FIFO
}

fn clamp_u32(v: u32, lo: u32, hi: u32) -> (r: u32)
    ensures
        r == clamp(v, lo, hi),
{
    if v < lo {
        lo
    } else if v > hi {
        hi
    } else {
        v
    }
}

/// The surface's own extent, or the window size clamped to what the surface accepts.
pub fn choose_extent(capabilities: &SurfaceCapabilities, window: Extent2D) -> (r: Extent2D)
    ensures
        r == extent_for(*capabilities, window),
{
    if capabilities.current_extent.width != UNDEFINED_EXTENT {
        capabilities.current_extent
    } else {
        Extent2D {
            width: clamp_u32(
                window.width,
                capabilities.min_image_extent.width,
                capabilities.max_image_extent.width,
            ),
            height: clamp_u32(
                window.height,
                capabilities.min_image_extent.height,
                capabilities.max_image_extent.height,
            ),
        }
    }
}

/// One image more than the minimum, within the maximum when there is one.
pub fn choose_image_count(capabilities: &SurfaceCapabilities) -> (r: u32)
    requires
        capabilities.min_image_count < u32::MAX,
    ensures
        r == image_count_for(*capabilities),
{
    let count = capabilities.min_image_count + 1;
    if capabilities.max_image_count > 0 && count > capabilities.max_image_count {
        capabilities.max_image_count
    } else {
        count
    }
}

fn contains_u32(v: &Vec<u32>, x: u32) -> (r: bool)
    ensures
        r == v@.contains(x),
{
    let mut i: usize = 0;
    while i < v.len()
        invariant
            i <= v.len(),
            forall|j: int| 0 <= j < i ==> v@[j] != x,
        decreases v.len() - i,
    {
        if v[i] == x {
            assert(v@[i as int] == x);
            return true;
        }
        i = i + 1;
    }
    false
}

/// The distinct queue families among `indices`, in order of first occurrence.
pub fn unique_queue_families(indices: &Vec<u32>) -> (r: Vec<u32>)
    ensures
        r@ == first_occurrences(indices@),
{
    let mut r: Vec<u32> = Vec::new();
    let mut i: usize = 0;
    while i < indices.len()
        invariant
            i <= indices.len(),
            r@ == first_occurrences(indices@.take(i as int)),
        decreases indices.len() - i,
    {
        let x = indices[i];
        proof {
            assert(indices@.take(i + 1).drop_last() =~= indices@.take(i as int));
        }
        if !contains_u32(&r, x) {
            r.push(x);
        }
        i = i + 1;
    }
    proof {
        assert(indices@.take(indices.len() as int) =~= indices@);
    }
    r
}

pub open spec fn sharing_mode_for(unique_families: Seq<u32>) -> SharingMode {
    if unique_families.len() == 1 {
        SharingMode::Exclusive
    } else {
        SharingMode::Concurrent
    }
}

/// `c` is the swapchain configuration chosen for this surface, window and queues.
pub open spec fn is_config_for(
    c: SwapchainConfig,
    support: SwapchainSupport,
    window: Extent2D,
    families: Seq<u32>,
) -> bool {
    &&& c.format == preferred_format()
    &&& c.present_mode == present_mode_for(support.present_modes@)
    &&& c.extent == extent_for(support.capabilities, window)
    &&& c.image_count == image_count_for(support.capabilities)
    &&& c.queue_families@ == first_occurrences(families)
    &&& c.sharing_mode == sharing_mode_for(c.queue_families@)
}

/// Chooses format, present mode, extent, image count and sharing of a new swapchain.
pub fn choose_config(support: &SwapchainSupport, window: Extent2D, queue_families: &Vec<u32>) -> (r:
    Result<SwapchainConfig, SwapchainError>)
    requires
        support.capabilities.min_image_count < u32::MAX,
    ensures
        r is Err <==> !offers_preferred_format(support.formats@),
        r is Err ==> r == Err::<SwapchainConfig, SwapchainError>(SwapchainError::NoSuitableFormat),
        r is Ok ==> is_config_for(r->Ok_0, *support, window, queue_families@),
{
    let format = match choose_surface_format(&support.formats) {
        Some(f) => f,
        None => return Err(SwapchainError::NoSuitableFormat),
    };
    let present_mode = choose_present_mode(&support.present_modes);
    let extent = choose_extent(&support.capabilities, window);
    let image_count = choose_image_count(&support.capabilities);
    let families = unique_queue_families(queue_families);
    let sharing_mode = if families.len() == 1 {
        SharingMode::Exclusive
    } else {
        SharingMode::Concurrent
    };
    Ok(SwapchainConfig { format, present_mode, extent, image_count, sharing_mode, queue_families: families })
}

/// Decides what a resize to `window` does: nothing for a window without area,
/// otherwise a rebuild with the configuration chosen for the new size.
pub fn plan_recreate(support: &SwapchainSupport, window: Extent2D, queue_families: &Vec<u32>) -> (r:
    Result<RecreatePlan, SwapchainError>)
    requires
        support.capabilities.min_image_count < u32::MAX,
    ensures
        window.width == 0 || window.height == 0 ==> r matches Ok(RecreatePlan::Unchanged),
        window.width != 0 && window.height != 0 ==> {
            &&& r is Err <==> !offers_preferred_format(support.formats@)
            &&& r is Err ==> r == Err::<RecreatePlan, SwapchainError>(
                SwapchainError::NoSuitableFormat,
            )
            &&& r is Ok ==> (r->Ok_0 matches RecreatePlan::Rebuild(c) && is_config_for(
                c,
                *support,
                window,
                queue_families@,
            ))
        },
{
    if window.width == 0 || window.height == 0 {
        return Ok(RecreatePlan::Unchanged);
    }
    match choose_config(support, window, queue_families) {
        Ok(c) => Ok(RecreatePlan::Rebuild(c)),
        Err(e) => Err(e),
    }
}

/// Resize idempotence, first half: the configuration chosen for a surface,
/// window size and set of queues is the same each time it is chosen, so two
/// rebuilds at the same size give the same extent and format.
pub proof fn lemma_config_deterministic(
    c1: SwapchainConfig,
    c2: SwapchainConfig,
    support: SwapchainSupport,
    window: Extent2D,
    families: Seq<u32>,
)
    requires
        is_config_for(c1, support, window, families),
        is_config_for(c2, support, window, families),
    ensures
        c1.extent == c2.extent,
        c1.format == c2.format,
        c1.present_mode == c2.present_mode,
        c1.image_count == c2.image_count,
{
}

/// The swapchain in use and the off-screen output views, one per frame slot.
#[derive(Debug)]
pub struct SwapchainState {
    format: SurfaceFormat,
    present_mode: i32,
    extent: Extent2D,
    image_count: u32,
    output_views: Vec<u64>,
}

impl SwapchainState {
    pub closed spec fn spec_format(&self) -> SurfaceFormat {
        self.format
    }

    pub closed spec fn spec_present_mode(&self) -> i32 {
        self.present_mode
    }

    pub closed spec fn spec_extent(&self) -> Extent2D {
        self.extent
    }

    pub closed spec fn spec_image_count(&self) -> u32 {
        self.image_count
    }

    /// The live output views, by frame slot.
    pub closed spec fn output_views(&self) -> Seq<u64> {
        self.output_views@
    }

    /// A swapchain created with `config`, with one output view per frame slot.
    pub fn new(config: &SwapchainConfig, output_views: Vec<u64>) -> (r: Self)
        requires
            output_views.len() == max_frames(),
        ensures
            r.spec_format() == config.format,
            r.spec_present_mode() == config.present_mode,
            r.spec_extent() == config.extent,
            r.spec_image_count() == config.image_count,
            r.output_views() == output_views@,
    {
        SwapchainState {
            format: config.format,
            present_mode: config.present_mode,
            extent: config.extent,
            image_count: config.image_count,
            output_views,
        }
    }

    /// Installs a rebuilt swapchain with its new output views and points every
    /// slot's descriptor set at them. Returns the replaced views, which the
    /// caller destroys.
    pub fn rebuild(
        &mut self,
        config: &SwapchainConfig,
        output_views: Vec<u64>,
        descriptors: &mut DescriptorSets,
        uniform_buffers: &Vec<u64>,
    ) -> (retired: Vec<u64>)
        requires
            output_views.len() == max_frames(),
            uniform_buffers.len() == max_frames(),
        ensures
            final(self).spec_format() == config.format,
            final(self).spec_present_mode() == config.present_mode,
            final(self).spec_extent() == config.extent,
            final(self).spec_image_count() == config.image_count,
            final(self).output_views() == output_views@,
            retired@ == old(self).output_views(),
            final(descriptors).spec_tlas() == old(descriptors).spec_tlas(),
            final(descriptors).bindings() == bindings_for(
                old(descriptors).spec_tlas(),
                uniform_buffers@,
                output_views@,
            ),
    {
        descriptors.bind(uniform_buffers, &output_views);
        self.format = config.format;
        self.present_mode = config.present_mode;
        self.extent = config.extent;
        self.image_count = config.image_count;
        let mut retired = output_views;
        std::mem::swap(&mut self.output_views, &mut retired);
        retired
    }

    pub fn extent(&self) -> (r: Extent2D)
        ensures
            r == self.spec_extent(),
    {
        self.extent
    }

    pub fn format(&self) -> (r: SurfaceFormat)
        ensures
            r == self.spec_format(),
    {
        self.format
    }

    pub fn present_mode(&self) -> (r: i32)
        ensures
            r == self.spec_present_mode(),
    {
        self.present_mode
    }

    pub fn image_count(&self) -> (r: u32)
        ensures
            r == self.spec_image_count(),
    {
        self.image_count
    }

    /// The output view of frame slot `slot`.
    pub fn output_view(&self, slot: usize) -> (r: u64)
        requires
            slot < self.output_views().len(),
        ensures
            r == self.output_views()[slot as int],
    {
        self.output_views[slot]
    }
}

/// Resize idempotence, second half: once a rebuild has repointed the
/// descriptor sets, every slot's set names one of the live output views.
pub proof fn lemma_rebuild_binds_live_views(
    state: SwapchainState,
    descriptors: DescriptorSets,
    uniform_buffers: Seq<u64>,
)
    requires
        uniform_buffers.len() == max_frames(),
        state.output_views().len() == max_frames(),
        descriptors.bindings() == bindings_for(
            descriptors.spec_tlas(),
            uniform_buffers,
            state.output_views(),
        ),
    ensures
        descriptors.bindings().len() == max_frames(),
        forall|f: int|
            0 <= f < max_frames() ==> state.output_views().contains(
                #[trigger] descriptors.bindings()[f].output_view,
            ),
{
    assert forall|f: int| 0 <= f < max_frames() implies state.output_views().contains(
        #[trigger] descriptors.bindings()[f].output_view,
    ) by {
        assert(state.output_views()[f] == descriptors.bindings()[f].output_view);
    }
}

} // verus!
