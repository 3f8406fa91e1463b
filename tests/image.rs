use ng_render::handle::{Handle, HandleKind};
use ng_render::image::{Extent3D, Image, ImageDesc, ImageError, ImageType, ImageViewType, MemoryAllocation};
use ng_render::memory::{MemoryProperties, MemoryRequirements, MemoryType, MEMORY_PROPERTY_DEVICE_LOCAL};

fn desc(image_type: ImageType) -> ImageDesc {
    ImageDesc {
        image_type,
        format: 37,
        extent: Extent3D { width: 800, height: 600, depth: 1 },
        usage: 0x90,
        aspects: 0x1,
        memory_flags: MEMORY_PROPERTY_DEVICE_LOCAL,
    }
}

fn props() -> MemoryProperties {
    MemoryProperties {
        memory_types: vec![
            MemoryType { property_flags: 0x6, heap_index: 1 },
            MemoryType { property_flags: 0x1, heap_index: 0 },
        ],
    }
}

#[test]
fn view_failure_destroys_memory_then_image() {
    let image = Handle::new(HandleKind::Image, 100);
    let memory = Handle::new(HandleKind::DeviceMemory, 101);
    let building = Image::new(desc(ImageType::Type2D), image);
    let reqs = MemoryRequirements { size: 1_920_000, alignment: 1024, memory_type_bits: 0b11 };
    let alloc = building.memory_allocation(&props(), reqs).unwrap();
    assert_eq!(alloc, MemoryAllocation { size: 1_920_000, memory_type_index: 1 });
    let with_memory = building.memory_allocated(memory);
    assert_eq!(with_memory.image_handle(), image);
    assert_eq!(with_memory.memory_handle(), memory);
    // creating the view fails
    assert_eq!(with_memory.abandon(), vec![memory, image]);
}

#[test]
fn memory_failure_destroys_image_only() {
    let image = Handle::new(HandleKind::Image, 5);
    let building = Image::new(desc(ImageType::Type2D), image);
    assert_eq!(building.abandon(), vec![image]);
}

#[test]
fn no_acceptable_memory_type_carries_requirements_and_flags() {
    let building = Image::new(desc(ImageType::Type2D), Handle::new(HandleKind::Image, 5));
    let reqs = MemoryRequirements { size: 4096, alignment: 64, memory_type_bits: 0b01 };
    assert_eq!(
        building.memory_allocation(&props(), reqs),
        Err(ImageError::NoAcceptableMemoryType(reqs, MEMORY_PROPERTY_DEVICE_LOCAL))
    );
}

#[test]
fn completed_image_owns_all_objects() {
    let building = Image::new(desc(ImageType::Type2D), Handle::new(HandleKind::Image, 1));
    let with_memory = building.memory_allocated(Handle::new(HandleKind::DeviceMemory, 2));
    assert_eq!(with_memory.view_type(), ImageViewType::Type2D);
    let img = with_memory.finish(Handle::new(HandleKind::ImageView, 3));
    assert_eq!(img.format, 37);
    assert_eq!(img.image.raw, 1);
    assert_eq!(img.memory.raw, 2);
    assert_eq!(img.view.raw, 3);
    assert_eq!(img.resolution, Extent3D { width: 800, height: 600, depth: 1 });
    let res = img.resolution_2d();
    assert_eq!((res.width, res.height), (800, 600));
    assert_eq!(
        img.destroy_with(),
        vec![
            Handle::new(HandleKind::ImageView, 3),
            Handle::new(HandleKind::Image, 1),
            Handle::new(HandleKind::DeviceMemory, 2)
        ]
    );
}

#[test]
fn view_type_follows_image_type() {
    for (t, v) in [
        (ImageType::Type1D, ImageViewType::Type1D),
        (ImageType::Type2D, ImageViewType::Type2D),
        (ImageType::Type3D, ImageViewType::Type3D),
    ] {
        let b = Image::new(desc(t), Handle::new(HandleKind::Image, 1)).memory_allocated(Handle::new(HandleKind::DeviceMemory, 2));
        assert_eq!(b.view_type(), v);
        assert_eq!(b.desc_value(), desc(t));
    }
}
