use vstd::prelude::*;

use crate::guard::{release_order, Guarded};
use crate::handle::Handle;
use crate::memory::{
    is_memory_type_selection, select_memory_type, MemoryProperties, MemoryRequirements,
};
use crate::Extent2D;

verus! {

/// Width, height and depth of an image, in texels.
#[derive(Clone, Copy, Debug, PartialEq, Eq, Structural)]
pub struct Extent3D {
    pub width: u32,
    pub height: u32,
    pub depth: u32,
}

/// The dimensionality of an image.
#[derive(Clone, Copy, Debug, PartialEq, Eq, Structural)]
pub enum ImageType {
    Type1D,
    Type2D,
    Type3D,
}

/// The dimensionality of a view over a whole image.
#[derive(Clone, Copy, Debug, PartialEq, Eq, Structural)]
pub enum ImageViewType {
    Type1D,
    Type2D,
    Type3D,
}

pub open spec fn view_type_of(image_type: ImageType) -> ImageViewType {
    match image_type {
        ImageType::Type1D => ImageViewType::Type1D,
        ImageType::Type2D => ImageViewType::Type2D,
        ImageType::Type3D => ImageViewType::Type3D,
    }
}

/// What a caller asks of a new image: its shape, format, usage, the aspect its
/// view covers, and the memory properties its backing memory must have.
#[derive(Clone, Copy, Debug, PartialEq, Eq, Structural)]
pub struct ImageDesc {
    pub image_type: ImageType,
    pub format: i32,
    pub extent: Extent3D,
    pub usage: u32,
    pub aspects: u32,
    pub memory_flags: u32,
}

/// The size and memory type of the allocation that backs an image.
#[derive(Clone, Copy, Debug, PartialEq, Eq, Structural)]
pub struct MemoryAllocation {
    pub size: u64,
    pub memory_type_index: u32,
}

/// Failures of image construction that are not failures of the graphics API.
#[derive(Clone, Copy, Debug, PartialEq, Eq, Structural)]
pub enum ImageError {
    /// No memory type fits the requirements with the requested property flags.
    NoAcceptableMemoryType(MemoryRequirements, u32),
}

/// An image together with its backing memory and a view over it, created and
/// destroyed as one.
#[derive(Clone, Copy, Debug, PartialEq, Eq, Structural)]
pub struct Image {
    pub format: i32,
    pub image: Handle,
    pub memory: Handle,
    pub resolution: Extent3D,
    pub view: Handle,
}

/// An image under construction whose image object exists; everything acquired
/// so far is guarded.
pub struct ImageInProgress {
    desc: ImageDesc,
    image: Handle,
    guard: Guarded<Handle>,
}

/// An image under construction whose image object and memory exist.
pub struct ImageWithMemory {
    desc: ImageDesc,
    image: Handle,
    memory: Handle,
    guard: Guarded<Handle>,
}

impl Image {
    /// Starts building an image once its image object was created: from here on
    /// a failure destroys the image object.
    pub fn new(desc: ImageDesc, image: Handle) -> (r: ImageInProgress)
        ensures
            r.desc() == desc,
            r.image() == image,
            r.held() == seq![image],
    {
        ImageInProgress { desc, image, guard: Guarded::guard(image) }
    }

    /// The first two dimensions of a flat image.
    pub fn resolution_2d(&self) -> (r: Extent2D)
        requires
            self.resolution.depth == 1,
        ensures
            r.width == self.resolution.width,
            r.height == self.resolution.height,
    {
        Extent2D { width: self.resolution.width, height: self.resolution.height }
    }

    /// The objects to destroy when the image goes away, in order: the view, the
    /// image, then its memory.
    pub fn destroy_with(&self) -> (r: Vec<Handle>)
        ensures
            r@ == seq![self.view, self.image, self.memory],
    {
        let mut r = Vec::new();
        r.push(self.view);
        r.push(self.image);
        r.push(self.memory);
        r
    }
}

impl ImageInProgress {
    pub closed spec fn desc(&self) -> ImageDesc {
        self.desc
    }

    pub closed spec fn image(&self) -> Handle {
        self.image
    }

    pub closed spec fn held(&self) -> Seq<Handle> {
        self.guard@
    }

    /// The allocation that backs the image: its size is the required size and
    /// its memory type the first acceptable one for the requested properties.
    pub fn memory_allocation(
        &self,
        memory_properties: &MemoryProperties,
        requirements: MemoryRequirements,
    ) -> (r: Result<MemoryAllocation, ImageError>)
        requires
            memory_properties.wf(),
        ensures
            match r {
                Ok(a) => {
                    &&& a.size == requirements.size
                    &&& is_memory_type_selection(
                        memory_properties.memory_types@,
                        requirements.memory_type_bits,
                        self.desc().memory_flags,
                        Some(a.memory_type_index),
                    )
                },
                Err(e) => {
                    &&& e == ImageError::NoAcceptableMemoryType(
                        requirements,
                        self.desc().memory_flags,
                    )
                    &&& is_memory_type_selection(
                        memory_properties.memory_types@,
                        requirements.memory_type_bits,
                        self.desc().memory_flags,
                        None,
                    )
                },
            },
    {
        match select_memory_type(memory_properties, requirements, self.desc.memory_flags) {
            Some(index) => Ok(MemoryAllocation { size: requirements.size, memory_type_index: index }),
            None => Err(ImageError::NoAcceptableMemoryType(requirements, self.desc.memory_flags)),
        }
    }

    /// Records the allocated memory; a later failure destroys it before the
    /// image.
    pub fn memory_allocated(self, memory: Handle) -> (r: ImageWithMemory)
        ensures
            r.desc() == self.desc(),
            r.image() == self.image(),
            r.memory() == memory,
            r.held() == self.held().push(memory),
    {
        let mut guard = self.guard;
        guard.push(memory);
        ImageWithMemory { desc: self.desc, image: self.image, memory, guard }
    }

    /// Gives up the construction: what must be destroyed, in order.
    pub fn abandon(self) -> (r: Vec<Handle>)
        ensures
            r@ == release_order(self.held()),
    {
        self.guard.release()
    }
}

impl ImageWithMemory {
    pub closed spec fn desc(&self) -> ImageDesc {
        self.desc
    }

    pub closed spec fn image(&self) -> Handle {
        self.image
    }

    pub closed spec fn memory(&self) -> Handle {
        self.memory
    }

    pub closed spec fn held(&self) -> Seq<Handle> {
        self.guard@
    }

    /// The image object, to bind the memory to and to view.
    pub fn image_handle(&self) -> (r: Handle)
        ensures
            r == self.image(),
    {
        self.image
    }

    /// The memory object, to bind to the image.
    pub fn memory_handle(&self) -> (r: Handle)
        ensures
            r == self.memory(),
    {
        self.memory
    }

    /// The kind of view that covers the whole image.
    pub fn view_type(&self) -> (r: ImageViewType)
        ensures
            r == view_type_of(self.desc().image_type),
    {
        match self.desc.image_type {
            ImageType::Type1D => ImageViewType::Type1D,
            ImageType::Type2D => ImageViewType::Type2D,
            ImageType::Type3D => ImageViewType::Type3D,
        }
    }

    /// The requested description.
    pub fn desc_value(&self) -> (r: ImageDesc)
        ensures
            r == self.desc(),
    {
        self.desc
    }

    /// Completes the image with its view: nothing is destroyed, and the result
    /// owns all three objects.
    pub fn finish(self, view: Handle) -> (r: Image)
        ensures
            r.format == self.desc().format,
            r.image == self.image(),
            r.memory == self.memory(),
            r.resolution == self.desc().extent,
            r.view == view,
    {
        let _ = self.guard.take();
        Image {
            format: self.desc.format,
            image: self.image,
            memory: self.memory,
            resolution: self.desc.extent,
            view,
        }
    }

    /// Gives up the construction: what must be destroyed, in order.
    pub fn abandon(self) -> (r: Vec<Handle>)
        ensures
            r@ == release_order(self.held()),
    {
        self.guard.release()
    }
}

} // verus!
