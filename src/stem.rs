use vstd::prelude::*;

use crate::guard::{release_order, Guarded};
use crate::handle::{Handle, HandleKind};
use crate::memory::{
    is_memory_type_selection, select_memory_type, MemoryProperties, MemoryRequirements, MemoryType,
};

verus! {

/// What a queue family of a physical device can do for this renderer.
#[derive(Clone, Copy, Debug, PartialEq, Eq, Structural)]
pub struct QueueFamily {
    /// The family supports graphics work.
    pub graphics: bool,
    /// The family can present to the window's surface.
    pub present: bool,
}

pub open spec fn is_first_graphics(families: Seq<QueueFamily>, i: int) -> bool {
    &&& 0 <= i < families.len()
    &&& families[i].graphics
    &&& forall|j: int| 0 <= j < i ==> !(#[trigger] families[j]).graphics
}

pub open spec fn is_first_present(families: Seq<QueueFamily>, i: int) -> bool {
    &&& 0 <= i < families.len()
    &&& families[i].present
    &&& forall|j: int| 0 <= j < i ==> !(#[trigger] families[j]).present
}

/// A device is acceptable when it has a graphics-capable family and a
/// present-capable family (possibly the same one).
pub open spec fn device_acceptable(families: Seq<QueueFamily>) -> bool {
    &&& exists|i: int| 0 <= i < families.len() && (#[trigger] families[i]).graphics
    &&& exists|i: int| 0 <= i < families.len() && (#[trigger] families[i]).present
}

/// The physical device chosen and the two queue families used on it.
#[derive(Clone, Copy, Debug, PartialEq, Eq, Structural)]
pub struct DeviceSelection {
    pub device_index: usize,
    pub graphics_family: u32,
    pub present_family: u32,
}

pub open spec fn devices_fit(devices: Seq<Vec<QueueFamily>>) -> bool {
    forall|d: int| 0 <= d < devices.len() ==> (#[trigger] devices[d])@.len() <= u32::MAX
}

/// `r` picks the first acceptable device, its first graphics family and its
/// first present family; `None` when no device is acceptable.
pub open spec fn is_device_selection(devices: Seq<Vec<QueueFamily>>, r: Option<DeviceSelection>) -> bool {
    match r {
        Some(s) => {
            &&& s.device_index < devices.len()
            &&& device_acceptable(devices[s.device_index as int]@)
            &&& forall|d: int| 0 <= d < s.device_index ==> !device_acceptable(#[trigger] devices[d]@)
            &&& is_first_graphics(devices[s.device_index as int]@, s.graphics_family as int)
            &&& is_first_present(devices[s.device_index as int]@, s.present_family as int)
        },
        None => forall|d: int| 0 <= d < devices.len() ==> !device_acceptable(#[trigger] devices[d]@),
    }
}

fn first_graphics_family(families: &Vec<QueueFamily>) -> (r: Option<u32>)
    requires
        families@.len() <= u32::MAX,
    ensures
        match r {
            Some(i) => is_first_graphics(families@, i as int),
            None => forall|j: int| 0 <= j < families@.len() ==> !(#[trigger] families@[j]).graphics,
        },
{
    let mut i: usize = 0;
    while i < families.len()
        invariant
            i <= families@.len() <= u32::MAX,
            forall|j: int| 0 <= j < i ==> !(#[trigger] families@[j]).graphics,
        decreases families@.len() - i,
    {
        if families[i].graphics {
            return Some(i as u32);
        }
        i = i + 1;
    }
    None
}

fn first_present_family(families: &Vec<QueueFamily>) -> (r: Option<u32>)
    requires
        families@.len() <= u32::MAX,
    ensures
        match r {
            Some(i) => is_first_present(families@, i as int),
            None => forall|j: int| 0 <= j < families@.len() ==> !(#[trigger] families@[j]).present,
        },
{
    let mut i: usize = 0;
    while i < families.len()
        invariant
            i <= families@.len() <= u32::MAX,
            forall|j: int| 0 <= j < i ==> !(#[trigger] families@[j]).present,
        decreases families@.len() - i,
    {
        if families[i].present {
            return Some(i as u32);
        }
        i = i + 1;
    }
    None
}

/// Picks the first physical device, in enumeration order, that has both a
/// graphics-capable queue family and a present-capable one; on it, the first
/// family of each kind.
pub fn select_physical_device_and_queue_families(devices: &Vec<Vec<QueueFamily>>) -> (r: Option<DeviceSelection>)
    requires
        devices_fit(devices@),
    ensures
        is_device_selection(devices@, r),
{
    let mut d: usize = 0;
    while d < devices.len()
        invariant
            d <= devices@.len(),
            devices_fit(devices@),
            forall|k: int| 0 <= k < d ==> !device_acceptable(#[trigger] devices@[k]@),
        decreases devices@.len() - d,
    {
        let families = &devices[d];
        assert(families@.len() <= u32::MAX);
        let graphics = first_graphics_family(families);
        let present = first_present_family(families);
        match (graphics, present) {
            (Some(g), Some(p)) => {
                let r = Some(DeviceSelection { device_index: d, graphics_family: g, present_family: p });
                return r;
            },
            _ => {
                assert(!device_acceptable(families@));
            },
        }
        d = d + 1;
    }
    None
}

/// The queue families to create queues in: the graphics family, and the present
/// family as a second entry only when it differs.
pub fn queue_create_families(graphics_family: u32, present_family: u32) -> (r: Vec<u32>)
    ensures
        graphics_family == present_family ==> r@ == seq![graphics_family],
        graphics_family != present_family ==> r@ == seq![graphics_family, present_family],
{
    let mut r = Vec::new();
    r.push(graphics_family);
    if graphics_family != present_family {
        r.push(present_family);
    }
    r
}

/// Failures of device-context construction.
#[derive(Clone, Copy, Debug, PartialEq, Eq, Structural)]
pub enum SharedStemError {
    /// A graphics API call failed with this result code.
    VkError(i32),
    /// No physical device has both a graphics and a present queue family.
    NoAcceptableDeviceError,
}

/// The queues of the logical device and the families they belong to.
#[derive(Clone, Copy, Debug, PartialEq, Eq, Structural)]
pub struct Queues {
    pub graphics: u64,
    pub graphics_family: u32,
    pub present: u64,
    pub present_family: u32,
}

/// The handles that a completed device-context construction produced.
#[derive(Clone, Copy, Debug, PartialEq, Eq, Structural)]
pub struct StemHandles {
    pub device: Handle,
    pub command_pool: Handle,
    pub command_buffer: u64,
    pub image_acquired_semaphore: Handle,
    pub render_complete_semaphore: Handle,
    pub presentation_fence: Handle,
}

pub open spec fn stem_handles_wf(h: StemHandles) -> bool {
    &&& h.device.kind == HandleKind::Device
    &&& h.command_pool.kind == HandleKind::CommandPool
    &&& h.image_acquired_semaphore.kind == HandleKind::Semaphore
    &&& h.render_complete_semaphore.kind == HandleKind::Semaphore
    &&& h.presentation_fence.kind == HandleKind::Fence
}

/// The logical device, its queues, the one reusable command buffer and the
/// frame-pacing synchronisation objects, with the physical device's memory
/// table.
pub struct SharedStem {
    handles: StemHandles,
    physical_device: u64,
    memory_properties: MemoryProperties,
    queues: Queues,
}

impl SharedStem {
    pub closed spec fn handles_spec(&self) -> StemHandles {
        self.handles
    }

    pub closed spec fn physical_device_spec(&self) -> u64 {
        self.physical_device
    }

    pub closed spec fn memory_types(&self) -> Seq<MemoryType> {
        self.memory_properties.memory_types@
    }

    pub closed spec fn queues_spec(&self) -> Queues {
        self.queues
    }

    pub closed spec fn wf(&self) -> bool {
        &&& self.memory_properties.wf()
        &&& stem_handles_wf(self.handles)
    }

    /// Packs the objects of a completed construction into the device context.
    pub fn new(
        handles: StemHandles,
        physical_device: u64,
        memory_properties: MemoryProperties,
        queues: Queues,
    ) -> (r: SharedStem)
        requires
            memory_properties.wf(),
            stem_handles_wf(handles),
        ensures
            r.wf(),
            r.handles_spec() == handles,
            r.physical_device_spec() == physical_device,
            r.memory_types() == memory_properties.memory_types@,
            r.queues_spec() == queues,
    {
        SharedStem { handles, physical_device, memory_properties, queues }
    }

    /// The first memory type of this device that fits `memory_requirements` and
    /// has every flag of `required_flags`.
    pub fn select_memory_type(&self, memory_requirements: MemoryRequirements, required_flags: u32) -> (r: Option<u32>)
        requires
            self.wf(),
        ensures
            is_memory_type_selection(
                self.memory_types(),
                memory_requirements.memory_type_bits,
                required_flags,
                r,
            ),
    {
        select_memory_type(&self.memory_properties, memory_requirements, required_flags)
    }

    pub fn memory_properties(&self) -> (r: &MemoryProperties)
        requires
            self.wf(),
        ensures
            r.wf(),
            r.memory_types@ == self.memory_types(),
    {
        &self.memory_properties
    }

    pub fn handles(&self) -> (r: StemHandles)
        ensures
            r == self.handles_spec(),
    {
        self.handles
    }

    pub fn command_buffer(&self) -> (r: u64)
        ensures
            r == self.handles_spec().command_buffer,
    {
        self.handles.command_buffer
    }

    pub fn device(&self) -> (r: Handle)
        ensures
            r == self.handles_spec().device,
    {
        self.handles.device
    }

    pub fn image_acquired_semaphore(&self) -> (r: Handle)
        ensures
            r == self.handles_spec().image_acquired_semaphore,
    {
        self.handles.image_acquired_semaphore
    }

    pub fn render_complete_semaphore(&self) -> (r: Handle)
        ensures
            r == self.handles_spec().render_complete_semaphore,
    {
        self.handles.render_complete_semaphore
    }

    pub fn presentation_fence(&self) -> (r: Handle)
        ensures
            r == self.handles_spec().presentation_fence,
    {
        self.handles.presentation_fence
    }

    pub fn physical_device(&self) -> (r: u64)
        ensures
            r == self.physical_device_spec(),
    {
        self.physical_device
    }

    pub fn queues(&self) -> (r: Queues)
        ensures
            r == self.queues_spec(),
    {
        self.queues
    }

    /// What to destroy, in order, once the device is idle: the fence, both
    /// semaphores, the command pool (which frees the command buffer), and last
    /// the device.
    pub fn teardown(&self) -> (r: Vec<Handle>)
        ensures
            r@ == stem_teardown(self.handles_spec()),
    {
        let mut r = Vec::new();
        r.push(self.handles.presentation_fence);
        r.push(self.handles.image_acquired_semaphore);
        r.push(self.handles.render_complete_semaphore);
        r.push(self.handles.command_pool);
        r.push(self.handles.device);
        r
    }
}

pub open spec fn stem_teardown(h: StemHandles) -> Seq<Handle> {
    seq![
        h.presentation_fence,
        h.image_acquired_semaphore,
        h.render_complete_semaphore,
        h.command_pool,
        h.device,
    ]
}

/// The objects a device context creates on its device, in creation order.
#[derive(Clone, Copy, Debug, PartialEq, Eq, Structural)]
pub enum StemObject {
    CommandPool,
    ImageAcquiredSemaphore,
    RenderCompleteSemaphore,
    PresentationFence,
}

pub open spec fn stem_objects() -> Seq<StemObject> {
    seq![
        StemObject::CommandPool,
        StemObject::ImageAcquiredSemaphore,
        StemObject::RenderCompleteSemaphore,
        StemObject::PresentationFence,
    ]
}

pub open spec fn object_kind(o: StemObject) -> HandleKind {
    match o {
        StemObject::CommandPool => HandleKind::CommandPool,
        StemObject::ImageAcquiredSemaphore => HandleKind::Semaphore,
        StemObject::RenderCompleteSemaphore => HandleKind::Semaphore,
        StemObject::PresentationFence => HandleKind::Fence,
    }
}

/// A device context under construction whose logical device exists. The device
/// and every object created on it so far are guarded.
pub struct StemBuild {
    physical_device: u64,
    queues: Queues,
    guard: Guarded<Handle>,
}

impl StemBuild {
    pub closed spec fn physical_device(&self) -> u64 {
        self.physical_device
    }

    pub closed spec fn queues(&self) -> Queues {
        self.queues
    }

    /// The device first, then the objects created on it, in creation order.
    pub closed spec fn held(&self) -> Seq<Handle> {
        self.guard@
    }

    pub open spec fn created(&self) -> nat {
        (self.held().len() - 1) as nat
    }

    pub open spec fn wf(&self) -> bool {
        &&& 1 <= self.held().len() <= 5
        &&& self.held()[0].kind == HandleKind::Device
        &&& forall|i: int|
            1 <= i < self.held().len() ==> (#[trigger] self.held()[i]).kind == object_kind(stem_objects()[i - 1])
    }

    /// Starts a device context once its logical device `device` was created on
    /// `physical_device`, with the queues fetched from it. From here on a
    /// failure destroys the device.
    pub fn new(device: u64, physical_device: u64, queues: Queues) -> (r: StemBuild)
        ensures
            r.wf(),
            r.held() == seq![Handle { kind: HandleKind::Device, raw: device }],
            r.physical_device() == physical_device,
            r.queues() == queues,
    {
        StemBuild { physical_device, queues, guard: Guarded::guard(Handle::new(HandleKind::Device, device)) }
    }

    /// The logical device.
    pub fn device(&self) -> (r: Handle)
        requires
            self.wf(),
        ensures
            r == self.held()[0],
    {
        self.guard.held()[0]
    }

    /// The next object to create, or `None` once all exist.
    pub fn next_object(&self) -> (r: Option<StemObject>)
        requires
            self.wf(),
        ensures
            self.created() < 4 ==> r == Some(stem_objects()[self.created() as int]),
            self.created() >= 4 ==> r is None,
    {
        let n = self.guard.len() - 1;
        if n == 0 {
            Some(StemObject::CommandPool)
        } else if n == 1 {
            Some(StemObject::ImageAcquiredSemaphore)
        } else if n == 2 {
            Some(StemObject::RenderCompleteSemaphore)
        } else if n == 3 {
            Some(StemObject::PresentationFence)
        } else {
            None
        }
    }

    /// Whether every object exists.
    pub fn is_complete(&self) -> (r: bool)
        requires
            self.wf(),
        ensures
            r == (self.created() == 4),
    {
        self.guard.len() == 5
    }

    /// Records the object that `next_object` asked for; a later failure
    /// destroys it before everything created earlier.
    pub fn object_created(&mut self, raw: u64)
        requires
            old(self).wf(),
            old(self).created() < 4,
        ensures
            final(self).wf(),
            final(self).physical_device() == old(self).physical_device(),
            final(self).queues() == old(self).queues(),
            final(self).held() == old(self).held().push(Handle {
                kind: object_kind(stem_objects()[old(self).created() as int]),
                raw,
            }),
    {
        let n = self.guard.len() - 1;
        let kind = if n == 0 {
            HandleKind::CommandPool
        } else if n == 3 {
            HandleKind::Fence
        } else {
            HandleKind::Semaphore
        };
        let h = Handle::new(kind, raw);
        self.guard.push(h);
        proof {
            assert forall|i: int|
                1 <= i < final(self).held().len() implies (#[trigger] final(self).held()[i]).kind == object_kind(stem_objects()[i - 1]) by {
                if i < old(self).held().len() {
                    assert(final(self).held()[i] == old(self).held()[i]);
                }
            }
        }
    }

    /// Gives up the construction: everything created, in the order it must be
    /// destroyed, the device last.
    pub fn abandon(self) -> (r: Vec<Handle>)
        ensures
            r@ == release_order(self.held()),
    {
        self.guard.release()
    }

    /// Completes the device context with the command buffer allocated from its
    /// pool and the physical device's memory table. Nothing is destroyed.
    pub fn finish(self, command_buffer: u64, memory_properties: MemoryProperties) -> (r: SharedStem)
        requires
            self.wf(),
            self.created() == 4,
            memory_properties.wf(),
        ensures
            r.wf(),
            r.handles_spec() == (StemHandles {
                device: self.held()[0],
                command_pool: self.held()[1],
                command_buffer,
                image_acquired_semaphore: self.held()[2],
                render_complete_semaphore: self.held()[3],
                presentation_fence: self.held()[4],
            }),
            r.physical_device_spec() == self.physical_device(),
            r.memory_types() == memory_properties.memory_types@,
            r.queues_spec() == self.queues(),
    {
        let held = self.guard.take();
        let handles = StemHandles {
            device: held[0],
            command_pool: held[1],
            command_buffer,
            image_acquired_semaphore: held[2],
            render_complete_semaphore: held[3],
            presentation_fence: held[4],
        };
        proof {
            assert(held@[1].kind == object_kind(stem_objects()[0]));
            assert(held@[2].kind == object_kind(stem_objects()[1]));
            assert(held@[3].kind == object_kind(stem_objects()[2]));
            assert(held@[4].kind == object_kind(stem_objects()[3]));
        }
        SharedStem::new(handles, self.physical_device, memory_properties, self.queues)
    }
}

} // verus!
