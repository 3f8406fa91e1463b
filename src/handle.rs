use vstd::prelude::*;

verus! {

/// The kinds of native objects whose lifetime the library tracks. Each kind has
/// exactly one destroy operation.
#[derive(Clone, Copy, Debug, PartialEq, Eq, Structural)]
pub enum HandleKind {
    Instance,
    DebugMessenger,
    Surface,
    Device,
    CommandPool,
    Semaphore,
    Fence,
    ShaderModule,
    Swapchain,
    Image,
    DeviceMemory,
    ImageView,
}

/// An opaque native object: its kind and the raw value the graphics API gave it.
#[derive(Clone, Copy, Debug, PartialEq, Eq, Structural)]
pub struct Handle {
    pub kind: HandleKind,
    pub raw: u64,
}

impl Handle {
    pub fn new(kind: HandleKind, raw: u64) -> (r: Handle)
        ensures
            r.kind == kind,
            r.raw == raw,
    {
        Handle { kind, raw }
    }
}

} // verus!
