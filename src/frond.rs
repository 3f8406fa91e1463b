use vstd::prelude::*;

use crate::guard::{release_order, Guarded};
use crate::handle::Handle;
use crate::image::{Extent3D, Image, ImageDesc, ImageType};
use crate::memory::{MemoryRequirements, MEMORY_PROPERTY_DEVICE_LOCAL};
use crate::stem::Queues;
use crate::Extent2D;

verus! {

pub const FORMAT_R8G8B8A8_UNORM: i32 = 37;
pub const FORMAT_B8G8R8A8_SRGB: i32 = 50;
pub const FORMAT_R16G16B16A16_SFLOAT: i32 = 97;
pub const FORMAT_D24_UNORM_S8_UINT: i32 = 129;
pub const COLOR_SPACE_SRGB_NONLINEAR: i32 = 0;

pub const PRESENT_MODE_MAILBOX: i32 = 1;
pub const PRESENT_MODE_FIFO: i32 = 2;

pub const SURFACE_TRANSFORM_IDENTITY: u32 = 1;

pub const IMAGE_USAGE_SAMPLED: u32 = 0x4;
pub const IMAGE_USAGE_COLOR_ATTACHMENT: u32 = 0x10;
pub const IMAGE_USAGE_DEPTH_STENCIL_ATTACHMENT: u32 = 0x20;
pub const IMAGE_USAGE_INPUT_ATTACHMENT: u32 = 0x80;

pub const IMAGE_ASPECT_COLOR: u32 = 0x1;
pub const IMAGE_ASPECT_DEPTH: u32 = 0x2;

/// Side of the square shadow map, which does not follow the drawable area.
pub const SHADOW_MAP_SIZE: u32 = 1024;

/// The number of resolution-sized auxiliary images of a render-target set.
pub const AUX_IMAGE_COUNT: usize = 5;

/// A pixel format together with the colour space it is presented in.
#[derive(Clone, Copy, Debug, PartialEq, Eq, Structural)]
pub struct SurfaceFormat {
    pub format: i32,
    pub color_space: i32,
}

/// What the surface reports about the swapchains it accepts.
#[derive(Clone, Copy, Debug, PartialEq, Eq, Structural)]
pub struct SurfaceCapabilities {
    pub min_image_count: u32,
    /// Zero when there is no upper bound.
    pub max_image_count: u32,
    /// `(u32::MAX, u32::MAX)` when the swapchain decides and should match the window.
    pub current_extent: Extent2D,
    pub supported_transforms: u32,
    pub current_transform: u32,
}

/// How swapchain images are shared between queue families.
#[derive(Clone, Copy, Debug, PartialEq, Eq, Structural)]
pub enum SharingMode {
    Exclusive,
    Concurrent,
}

/// Everything that the swapchain is created with, except the surface itself.
#[derive(Debug)]
pub struct SwapchainSettings {
    pub min_image_count: u32,
    pub surface_format: SurfaceFormat,
    pub image_extent: Extent2D,
    pub pre_transform: u32,
    pub present_mode: i32,
    pub sharing_mode: SharingMode,
    pub queue_family_indices: Vec<u32>,
    pub old_swapchain: Option<Handle>,
}

/// Failures of render-target construction.
#[derive(Clone, Copy, Debug, PartialEq, Eq, Structural)]
pub enum SharedFrondError {
    /// A graphics API call failed with this result code.
    VkError(i32),
    /// The surface supports none of the preferred formats.
    NoAcceptableSurfaceFormat,
    /// No memory type fits an attachment image.
    NoAcceptableMemoryType(MemoryRequirements, u32),
    /// The drawable area is empty: nothing to build now, try again later.
    NoSurfaceArea,
}

/// The preferred surface formats, best first.
pub open spec fn preferred_formats() -> Seq<SurfaceFormat> {
    seq![SurfaceFormat { format: FORMAT_B8G8R8A8_SRGB, color_space: COLOR_SPACE_SRGB_NONLINEAR }]
}

pub fn preferred_surface_formats() -> (r: Vec<SurfaceFormat>)
    ensures
        r@ == preferred_formats(),
{
    let mut r = Vec::new();
    r.push(SurfaceFormat { format: FORMAT_B8G8R8A8_SRGB, color_space: COLOR_SPACE_SRGB_NONLINEAR });
    proof {
        assert(r@ =~= preferred_formats());
    }
    r
}

/// `r` is the first format of `preferred` that `supported` holds, or `None`
/// when it holds none of them.
pub open spec fn is_format_selection(
    supported: Seq<SurfaceFormat>,
    preferred: Seq<SurfaceFormat>,
    r: Option<SurfaceFormat>,
) -> bool {
    match r {
        Some(f) => exists|i: int|
            {
                &&& 0 <= i < preferred.len()
                &&& #[trigger] preferred[i] == f
                &&& supported.contains(f)
                &&& forall|j: int| 0 <= j < i ==> !supported.contains(#[trigger] preferred[j])
            },
        None => forall|j: int| 0 <= j < preferred.len() ==> !supported.contains(#[trigger] preferred[j]),
    }
}

fn contains_format(supported: &Vec<SurfaceFormat>, f: SurfaceFormat) -> (r: bool)
    ensures
        r == supported@.contains(f),
{
    let mut i: usize = 0;
    while i < supported.len()
        invariant
            i <= supported@.len(),
            forall|j: int| 0 <= j < i ==> supported@[j] != f,
        decreases supported@.len() - i,
    {
        if supported[i] == f {
            return true;
        }
        i = i + 1;
    }
    false
}

/// The first of the `preferred` formats, in their order, that the surface
/// supports.
pub fn select_surface_format(supported: &Vec<SurfaceFormat>, preferred: &Vec<SurfaceFormat>) -> (r: Option<SurfaceFormat>)
    ensures
        is_format_selection(supported@, preferred@, r),
{
    let mut i: usize = 0;
    while i < preferred.len()
        invariant
            i <= preferred@.len(),
            forall|j: int| 0 <= j < i ==> !supported@.contains(#[trigger] preferred@[j]),
        decreases preferred@.len() - i,
    {
        let f = preferred[i];
        if contains_format(supported, f) {
            assert(preferred@[i as int] == f);
            return Some(f);
        }
        i = i + 1;
    }
    None
}

/// One more than the surface's minimum, but no more than its maximum when it
/// has one.
pub open spec fn image_count_for(caps: SurfaceCapabilities) -> int {
    let max: int = if caps.max_image_count == 0 { u32::MAX as int } else { caps.max_image_count as int };
    let want: int = caps.min_image_count + 1;
    if want < max { want } else { max }
}

pub open spec fn extent_for(caps: SurfaceCapabilities, area: Extent2D) -> Extent2D {
    if caps.current_extent.width == u32::MAX && caps.current_extent.height == u32::MAX {
        area
    } else {
        caps.current_extent
    }
}

pub open spec fn transform_for(caps: SurfaceCapabilities) -> u32 {
    if caps.supported_transforms & SURFACE_TRANSFORM_IDENTITY == SURFACE_TRANSFORM_IDENTITY {
        SURFACE_TRANSFORM_IDENTITY
    } else {
        caps.current_transform
    }
}

pub open spec fn present_mode_for(modes: Seq<i32>) -> i32 {
    if modes.contains(PRESENT_MODE_MAILBOX) { PRESENT_MODE_MAILBOX } else { PRESENT_MODE_FIFO }
}

/// Decides how the swapchain is created: image count, extent, transform,
/// present mode, and how its images are shared between the two queue families.
pub fn swapchain_settings(
    caps: SurfaceCapabilities,
    present_modes: &Vec<i32>,
    surface_format: SurfaceFormat,
    area: Extent2D,
    queues: Queues,
    old_swapchain: Option<Handle>,
) -> (r: SwapchainSettings)
    ensures
        r.min_image_count == image_count_for(caps),
        r.surface_format == surface_format,
        r.image_extent == extent_for(caps, area),
        r.pre_transform == transform_for(caps),
        r.present_mode == present_mode_for(present_modes@),
        queues.graphics_family == queues.present_family ==> {
            &&& r.sharing_mode == SharingMode::Exclusive
            &&& r.queue_family_indices@ == seq![queues.graphics_family]
        },
        queues.graphics_family != queues.present_family ==> {
            &&& r.sharing_mode == SharingMode::Concurrent
            &&& r.queue_family_indices@ == seq![queues.graphics_family, queues.present_family]
        },
        r.old_swapchain == old_swapchain,
{
    let max_image_count: u32 = if caps.max_image_count == 0 { u32::MAX } else { caps.max_image_count };
    let min_image_count: u32 = if (caps.min_image_count as u64) + 1 < max_image_count as u64 {
        caps.min_image_count + 1
    } else {
        max_image_count
    };

    let image_extent = if caps.current_extent.width == u32::MAX && caps.current_extent.height == u32::MAX {
        area
    } else {
        caps.current_extent
    };

    let pre_transform = if caps.supported_transforms & SURFACE_TRANSFORM_IDENTITY == SURFACE_TRANSFORM_IDENTITY {
        SURFACE_TRANSFORM_IDENTITY
    } else {
        caps.current_transform
    };

    let mut present_mode: i32 = PRESENT_MODE_FIFO;
    let mut i: usize = 0;
    while i < present_modes.len()
        invariant
            i <= present_modes@.len(),
            present_mode == PRESENT_MODE_FIFO ==> forall|j: int| 0 <= j < i ==> present_modes@[j] != PRESENT_MODE_MAILBOX,
            present_mode == PRESENT_MODE_MAILBOX ==> present_modes@.contains(PRESENT_MODE_MAILBOX),
            present_mode == PRESENT_MODE_FIFO || present_mode == PRESENT_MODE_MAILBOX,
        decreases present_modes@.len() - i,
    {
        if present_modes[i] == PRESENT_MODE_MAILBOX {
            present_mode = PRESENT_MODE_MAILBOX;
            assert(present_modes@[i as int] == PRESENT_MODE_MAILBOX);
        }
        i = i + 1;
    }

    let mut queue_family_indices = Vec::new();
    queue_family_indices.push(queues.graphics_family);
    let sharing_mode = if queues.graphics_family == queues.present_family {
        SharingMode::Exclusive
    } else {
        queue_family_indices.push(queues.present_family);
        SharingMode::Concurrent
    };

    SwapchainSettings {
        min_image_count,
        surface_format,
        image_extent,
        pre_transform,
        present_mode,
        sharing_mode,
        queue_family_indices,
        old_swapchain,
    }
}

pub open spec fn attachment_desc(format: i32, width: u32, height: u32, usage: u32, aspects: u32) -> ImageDesc {
    ImageDesc {
        image_type: ImageType::Type2D,
        format,
        extent: Extent3D { width, height, depth: 1 },
        usage,
        aspects,
        memory_flags: MEMORY_PROPERTY_DEVICE_LOCAL,
    }
}

/// The auxiliary images of a render-target set of the given resolution, in the
/// order they are created: diffuse, normal, depth-stencil, shadow map, light.
pub open spec fn aux_image_descs(res: Extent2D) -> Seq<ImageDesc> {
    seq![
        attachment_desc(FORMAT_R8G8B8A8_UNORM, res.width, res.height,
            IMAGE_USAGE_COLOR_ATTACHMENT | IMAGE_USAGE_INPUT_ATTACHMENT, IMAGE_ASPECT_COLOR),
        attachment_desc(FORMAT_R8G8B8A8_UNORM, res.width, res.height,
            IMAGE_USAGE_COLOR_ATTACHMENT | IMAGE_USAGE_INPUT_ATTACHMENT, IMAGE_ASPECT_COLOR),
        attachment_desc(FORMAT_D24_UNORM_S8_UINT, res.width, res.height,
            IMAGE_USAGE_DEPTH_STENCIL_ATTACHMENT | IMAGE_USAGE_INPUT_ATTACHMENT, IMAGE_ASPECT_DEPTH),
        attachment_desc(FORMAT_D24_UNORM_S8_UINT, SHADOW_MAP_SIZE, SHADOW_MAP_SIZE,
            IMAGE_USAGE_DEPTH_STENCIL_ATTACHMENT | IMAGE_USAGE_SAMPLED, IMAGE_ASPECT_DEPTH),
        attachment_desc(FORMAT_R16G16B16A16_SFLOAT, res.width, res.height,
            IMAGE_USAGE_COLOR_ATTACHMENT | IMAGE_USAGE_INPUT_ATTACHMENT, IMAGE_ASPECT_COLOR),
    ]
}

fn make_attachment_desc(format: i32, width: u32, height: u32, usage: u32, aspects: u32) -> (r: ImageDesc)
    ensures
        r == attachment_desc(format, width, height, usage, aspects),
{
    ImageDesc {
        image_type: ImageType::Type2D,
        format,
        extent: Extent3D { width, height, depth: 1 },
        usage,
        aspects,
        memory_flags: MEMORY_PROPERTY_DEVICE_LOCAL,
    }
}

/// The descriptions of the auxiliary images for a resolution.
pub fn image_descs(res: Extent2D) -> (r: Vec<ImageDesc>)
    ensures
        r@ == aux_image_descs(res),
{
    let color = IMAGE_USAGE_COLOR_ATTACHMENT | IMAGE_USAGE_INPUT_ATTACHMENT;
    let depth = IMAGE_USAGE_DEPTH_STENCIL_ATTACHMENT | IMAGE_USAGE_INPUT_ATTACHMENT;
    let shadow = IMAGE_USAGE_DEPTH_STENCIL_ATTACHMENT | IMAGE_USAGE_SAMPLED;
    let mut r = Vec::new();
    r.push(make_attachment_desc(FORMAT_R8G8B8A8_UNORM, res.width, res.height, color, IMAGE_ASPECT_COLOR));
    r.push(make_attachment_desc(FORMAT_R8G8B8A8_UNORM, res.width, res.height, color, IMAGE_ASPECT_COLOR));
    r.push(make_attachment_desc(FORMAT_D24_UNORM_S8_UINT, res.width, res.height, depth, IMAGE_ASPECT_DEPTH));
    r.push(make_attachment_desc(FORMAT_D24_UNORM_S8_UINT, SHADOW_MAP_SIZE, SHADOW_MAP_SIZE, shadow, IMAGE_ASPECT_DEPTH));
    r.push(make_attachment_desc(FORMAT_R16G16B16A16_SFLOAT, res.width, res.height, color, IMAGE_ASPECT_COLOR));
    proof {
        assert(r@ =~= aux_image_descs(res));
    }
    r
}


/// The objects of an image in the order they are destroyed when the image goes away.
pub open spec fn image_teardown(img: Image) -> Seq<Handle> {
    seq![img.view, img.image, img.memory]
}

/// The objects of several images, the last image first.
pub open spec fn images_teardown(imgs: Seq<Image>) -> Seq<Handle>
    decreases imgs.len(),
{
    if imgs.len() == 0 {
        Seq::empty()
    } else {
        image_teardown(imgs.last()) + images_teardown(imgs.drop_last())
    }
}

/// The objects of an image in the order they were acquired.
pub open spec fn image_acquisition(img: Image) -> Seq<Handle> {
    seq![img.image, img.memory, img.view]
}

fn images_teardown_exec(imgs: &Vec<Image>) -> (r: Vec<Handle>)
    ensures
        r@ == images_teardown(imgs@),
{
    let mut r: Vec<Handle> = Vec::new();
    let mut i: usize = imgs.len();
    proof {
        assert(imgs@.take(i as int) =~= imgs@);
        assert(r@ + images_teardown(imgs@) =~= images_teardown(imgs@));
    }
    while i > 0
        invariant
            i <= imgs@.len(),
            r@ + images_teardown(imgs@.take(i as int)) == images_teardown(imgs@),
        decreases i,
    {
        let ghost before = imgs@.take(i as int);
        assert(before.drop_last() =~= imgs@.take(i - 1));
        let img = imgs[i - 1];
        let d = img.destroy_with();
        let mut d = d;
        r.append(&mut d);
        i = i - 1;
        proof {
            assert(r@ + images_teardown(imgs@.take(i as int)) =~= images_teardown(imgs@));
        }
    }
    proof {
        assert(imgs@.take(0) =~= Seq::<Image>::empty());
        assert(r@ =~= images_teardown(imgs@));
    }
    r
}

/// The swapchain, its image views and the resolution-sized images, for one
/// drawable resolution. The resolution never changes: a new drawable area takes
/// a new set.
pub struct SharedFrond {
    swapchain: Handle,
    resolution: Extent2D,
    swapchain_format: i32,
    swapchain_image_views: Vec<Handle>,
    images: Vec<Image>,
}

/// A swapchain kept from a retired render-target set, to hand to the next
/// swapchain's creation so that presentation continues without a gap.
pub struct SharedFrondSwapchain {
    swapchain: Handle,
}

/// A render-target set whose drawable area is known to be non-empty and whose
/// swapchain is not created yet.
pub struct FrondBuild {
    resolution: Extent2D,
    previous: Option<Handle>,
}

/// A render-target set under construction whose swapchain exists.
pub struct FrondInProgress {
    resolution: Extent2D,
    previous: Option<Handle>,
    swapchain_format: i32,
    swapchain: Handle,
    views: Vec<Handle>,
    images: Vec<Image>,
    guard: Guarded<Handle>,
}

impl SharedFrond {
    pub closed spec fn swapchain_spec(&self) -> Handle {
        self.swapchain
    }

    pub closed spec fn resolution_spec(&self) -> Extent2D {
        self.resolution
    }

    pub closed spec fn format_spec(&self) -> i32 {
        self.swapchain_format
    }

    pub closed spec fn views(&self) -> Seq<Handle> {
        self.swapchain_image_views@
    }

    pub closed spec fn images(&self) -> Seq<Image> {
        self.images@
    }

    pub open spec fn wf(&self) -> bool {
        self.images().len() == AUX_IMAGE_COUNT
    }

    /// Everything that depends on the resolution, in the order it is destroyed:
    /// the images, the last created first, then the swapchain's image views.
    pub open spec fn resolution_teardown(&self) -> Seq<Handle> {
        images_teardown(self.images()) + self.views()
    }

    /// Starts a fresh render-target set for the drawable area, with no earlier
    /// swapchain to replace.
    pub fn new(area: Extent2D) -> (r: Result<FrondBuild, SharedFrondError>)
        ensures
            r is Err <==> (area.width == 0 || area.height == 0),
            r matches Err(e) ==> e == SharedFrondError::NoSurfaceArea,
            r matches Ok(b) ==> b.resolution() == area && b.previous() is None,
    {
        Self::new_with_swapchain(area, None)
    }

    /// Starts a render-target set for the drawable area that replaces
    /// `previous`. An empty area fails at once, before any object is created.
    pub fn new_with_swapchain(area: Extent2D, previous: Option<Handle>) -> (r: Result<FrondBuild, SharedFrondError>)
        ensures
            r is Err <==> (area.width == 0 || area.height == 0),
            r matches Err(e) ==> e == SharedFrondError::NoSurfaceArea,
            r matches Ok(b) ==> b.resolution() == area && b.previous() == previous,
    {
        if area.is_empty() {
            Err(SharedFrondError::NoSurfaceArea)
        } else {
            Ok(FrondBuild { resolution: area, previous })
        }
    }

    /// Whether the drawable area no longer matches this set's resolution.
    pub fn needs_resizing(&self, area: Extent2D) -> (r: bool)
        ensures
            r == (area != self.resolution_spec()),
    {
        !(self.resolution == area)
    }

    /// Retires the set: the swapchain is kept for the next construction, and
    /// everything else is returned for destruction, in order.
    pub fn take_swapchain(self) -> (r: (SharedFrondSwapchain, Vec<Handle>))
        ensures
            r.0.swapchain_spec() == self.swapchain_spec(),
            r.1@ == self.resolution_teardown(),
    {
        let mut destroy = images_teardown_exec(&self.images);
        let mut views = self.swapchain_image_views;
        destroy.append(&mut views);
        (SharedFrondSwapchain { swapchain: self.swapchain }, destroy)
    }

    /// Everything the set owns, in the order it is destroyed: the
    /// resolution-dependent objects, then the swapchain.
    pub fn teardown(&self) -> (r: Vec<Handle>)
        ensures
            r@ == self.resolution_teardown().push(self.swapchain_spec()),
    {
        let mut destroy = images_teardown_exec(&self.images);
        let mut i: usize = 0;
        let ghost start = destroy@;
        while i < self.swapchain_image_views.len()
            invariant
                i <= self.views().len(),
                self.views() == self.swapchain_image_views@,
                destroy@ == start + self.views().take(i as int),
            decreases self.views().len() - i,
        {
            destroy.push(self.swapchain_image_views[i]);
            i = i + 1;
            proof {
                assert(destroy@ =~= start + self.views().take(i as int));
            }
        }
        destroy.push(self.swapchain);
        proof {
            assert(self.views().take(i as int) =~= self.views());
        }
        destroy
    }

    pub fn resolution(&self) -> (r: Extent2D)
        ensures
            r == self.resolution_spec(),
    {
        self.resolution
    }

    pub fn swapchain(&self) -> (r: Handle)
        ensures
            r == self.swapchain_spec(),
    {
        self.swapchain
    }

    pub fn swapchain_format(&self) -> (r: i32)
        ensures
            r == self.format_spec(),
    {
        self.swapchain_format
    }

    pub fn swapchain_image_views(&self) -> (r: &[Handle])
        ensures
            r@ == self.views(),
    {
        self.swapchain_image_views.as_slice()
    }

    pub fn diffuse(&self) -> (r: Image)
        requires
            self.wf(),
        ensures
            r == self.images()[0],
    {
        self.images[0]
    }

    pub fn normal(&self) -> (r: Image)
        requires
            self.wf(),
        ensures
            r == self.images()[1],
    {
        self.images[1]
    }

    pub fn depth_stencil(&self) -> (r: Image)
        requires
            self.wf(),
        ensures
            r == self.images()[2],
    {
        self.images[2]
    }

    pub fn shadow(&self) -> (r: Image)
        requires
            self.wf(),
        ensures
            r == self.images()[3],
    {
        self.images[3]
    }

    pub fn light(&self) -> (r: Image)
        requires
            self.wf(),
        ensures
            r == self.images()[4],
    {
        self.images[4]
    }
}

impl SharedFrondSwapchain {
    pub closed spec fn swapchain_spec(&self) -> Handle {
        self.swapchain
    }

    pub fn swapchain(&self) -> (r: Handle)
        ensures
            r == self.swapchain_spec(),
    {
        self.swapchain
    }

    /// Starts building a new render-target set for `area` that replaces the kept
    /// swapchain. The kept swapchain stays with its owner, unchanged, whatever
    /// happens; an empty area fails before anything is created.
    pub fn resurrect(&self, area: Extent2D) -> (r: Result<FrondBuild, SharedFrondError>)
        ensures
            r is Err <==> (area.width == 0 || area.height == 0),
            r matches Err(e) ==> e == SharedFrondError::NoSurfaceArea,
            r matches Ok(b) ==> b.resolution() == area && b.previous() == Some(self.swapchain_spec()),
    {
        SharedFrond::new_with_swapchain(area, Some(self.swapchain))
    }

    /// What to destroy when the kept swapchain is given up.
    pub fn teardown(&self) -> (r: Vec<Handle>)
        ensures
            r@ == seq![self.swapchain_spec()],
    {
        let mut r = Vec::new();
        r.push(self.swapchain);
        r
    }
}

impl FrondBuild {
    pub closed spec fn resolution(&self) -> Extent2D {
        self.resolution
    }

    pub closed spec fn previous(&self) -> Option<Handle> {
        self.previous
    }

    pub fn resolution_value(&self) -> (r: Extent2D)
        ensures
            r == self.resolution(),
    {
        self.resolution
    }

    /// The first preferred format that the surface supports.
    pub fn select_format(&self, supported: &Vec<SurfaceFormat>) -> (r: Result<SurfaceFormat, SharedFrondError>)
        ensures
            r matches Ok(f) ==> is_format_selection(supported@, preferred_formats(), Some(f)),
            r matches Err(e) ==> e == SharedFrondError::NoAcceptableSurfaceFormat
                && is_format_selection(supported@, preferred_formats(), None),
    {
        let preferred = preferred_surface_formats();
        match select_surface_format(supported, &preferred) {
            Some(f) => Ok(f),
            None => Err(SharedFrondError::NoAcceptableSurfaceFormat),
        }
    }

    /// How to create the swapchain for this set; it replaces the previous one,
    /// if any.
    pub fn settings(
        &self,
        caps: SurfaceCapabilities,
        present_modes: &Vec<i32>,
        surface_format: SurfaceFormat,
        queues: Queues,
    ) -> (r: SwapchainSettings)
        ensures
            r.min_image_count == image_count_for(caps),
            r.surface_format == surface_format,
            r.image_extent == extent_for(caps, self.resolution()),
            r.pre_transform == transform_for(caps),
            r.present_mode == present_mode_for(present_modes@),
            queues.graphics_family == queues.present_family ==> {
                &&& r.sharing_mode == SharingMode::Exclusive
                &&& r.queue_family_indices@ == seq![queues.graphics_family]
            },
            queues.graphics_family != queues.present_family ==> {
                &&& r.sharing_mode == SharingMode::Concurrent
                &&& r.queue_family_indices@ == seq![queues.graphics_family, queues.present_family]
            },
            r.old_swapchain == self.previous(),
    {
        swapchain_settings(caps, present_modes, surface_format, self.resolution, queues, self.previous)
    }

    /// Records the new swapchain; from here on a failure destroys it, while the
    /// previous swapchain is kept until the set is complete.
    pub fn swapchain_created(self, swapchain: Handle, surface_format: SurfaceFormat) -> (r: FrondInProgress)
        ensures
            r.resolution() == self.resolution(),
            r.previous() == self.previous(),
            r.swapchain() == swapchain,
            r.format() == surface_format.format,
            r.views() == Seq::<Handle>::empty(),
            r.images() == Seq::<Image>::empty(),
            r.held() == seq![swapchain],
    {
        FrondInProgress {
            resolution: self.resolution,
            previous: self.previous,
            swapchain_format: surface_format.format,
            swapchain,
            views: Vec::new(),
            images: Vec::new(),
            guard: Guarded::guard(swapchain),
        }
    }
}

impl FrondInProgress {
    pub closed spec fn resolution(&self) -> Extent2D {
        self.resolution
    }

    pub closed spec fn previous(&self) -> Option<Handle> {
        self.previous
    }

    pub closed spec fn format(&self) -> i32 {
        self.swapchain_format
    }

    pub closed spec fn swapchain(&self) -> Handle {
        self.swapchain
    }

    pub closed spec fn views(&self) -> Seq<Handle> {
        self.views@
    }

    pub closed spec fn images(&self) -> Seq<Image> {
        self.images@
    }

    pub closed spec fn held(&self) -> Seq<Handle> {
        self.guard@
    }

    pub fn swapchain_handle(&self) -> (r: Handle)
        ensures
            r == self.swapchain(),
    {
        self.swapchain
    }

    pub fn format_value(&self) -> (r: i32)
        ensures
            r == self.format(),
    {
        self.swapchain_format
    }

    /// Records one more swapchain image view.
    pub fn view_created(&mut self, view: Handle)
        ensures
            final(self).resolution() == old(self).resolution(),
            final(self).previous() == old(self).previous(),
            final(self).swapchain() == old(self).swapchain(),
            final(self).format() == old(self).format(),
            final(self).views() == old(self).views().push(view),
            final(self).images() == old(self).images(),
            final(self).held() == old(self).held().push(view),
    {
        self.views.push(view);
        self.guard.push(view);
    }

    /// The next auxiliary image to create, or `None` once all exist.
    pub fn next_image_desc(&self) -> (r: Option<ImageDesc>)
        ensures
            self.images().len() < AUX_IMAGE_COUNT ==> r == Some(aux_image_descs(self.resolution())[self.images().len() as int]),
            self.images().len() >= AUX_IMAGE_COUNT ==> r is None,
    {
        let n = self.images.len();
        if n < AUX_IMAGE_COUNT {
            let descs = image_descs(self.resolution);
            Some(descs[n])
        } else {
            None
        }
    }

    /// Records a completed auxiliary image; a later failure destroys it.
    pub fn image_created(&mut self, image: Image)
        ensures
            final(self).resolution() == old(self).resolution(),
            final(self).previous() == old(self).previous(),
            final(self).swapchain() == old(self).swapchain(),
            final(self).format() == old(self).format(),
            final(self).views() == old(self).views(),
            final(self).images() == old(self).images().push(image),
            final(self).held() == old(self).held() + image_acquisition(image),
    {
        self.images.push(image);
        let mut g = Guarded::guard(image.image);
        g.push(image.memory);
        g.push(image.view);
        self.guard.absorb(g);
        proof {
            assert(seq![image.image].push(image.memory).push(image.view) =~= image_acquisition(image));
        }
    }

    /// Whether every auxiliary image exists.
    pub fn is_complete(&self) -> (r: bool)
        ensures
            r == (self.images().len() == AUX_IMAGE_COUNT),
    {
        self.images.len() == AUX_IMAGE_COUNT
    }

    /// Completes the set: nothing it holds is destroyed. The previous swapchain,
    /// now replaced, stays with its owner, which destroys it.
    pub fn finish(self) -> (r: SharedFrond)
        requires
            self.images().len() == AUX_IMAGE_COUNT,
        ensures
            r.wf(),
            r.swapchain_spec() == self.swapchain(),
            r.resolution_spec() == self.resolution(),
            r.format_spec() == self.format(),
            r.views() == self.views(),
            r.images() == self.images(),
    {
        let _ = self.guard.take();
        SharedFrond {
            swapchain: self.swapchain,
            resolution: self.resolution,
            swapchain_format: self.swapchain_format,
            swapchain_image_views: self.views,
            images: self.images,
        }
    }

    /// Gives up the construction: everything it created, in the order it must
    /// be destroyed. The previous swapchain is not among it.
    pub fn abandon(self) -> (r: Vec<Handle>)
        ensures
            r@ == release_order(self.held()),
    {
        self.guard.release()
    }
}

} // verus!
