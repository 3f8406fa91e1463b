use ng_render::frond::{
    image_descs, preferred_surface_formats, select_surface_format, swapchain_settings, FrondBuild,
    SharedFrond, SharedFrondError, SharingMode, SurfaceCapabilities, SurfaceFormat,
    COLOR_SPACE_SRGB_NONLINEAR, FORMAT_B8G8R8A8_SRGB, FORMAT_D24_UNORM_S8_UINT,
    FORMAT_R16G16B16A16_SFLOAT, FORMAT_R8G8B8A8_UNORM, PRESENT_MODE_FIFO, PRESENT_MODE_MAILBOX,
};
use ng_render::handle::{Handle, HandleKind};
use ng_render::image::Image;
use ng_render::stem::Queues;
use ng_render::Extent2D;

const SRGB: SurfaceFormat = SurfaceFormat { format: FORMAT_B8G8R8A8_SRGB, color_space: COLOR_SPACE_SRGB_NONLINEAR };
const UNORM: SurfaceFormat = SurfaceFormat { format: 44, color_space: COLOR_SPACE_SRGB_NONLINEAR };

fn caps(min: u32, max: u32, current: Extent2D) -> SurfaceCapabilities {
    SurfaceCapabilities {
        min_image_count: min,
        max_image_count: max,
        current_extent: current,
        supported_transforms: 0x1 | 0x2,
        current_transform: 0x2,
    }
}

fn queues(g: u32, p: u32) -> Queues {
    Queues { graphics: 1, graphics_family: g, present: 2, present_family: p }
}

fn area(width: u32, height: u32) -> Extent2D {
    Extent2D { width, height }
}

#[test]
fn surface_format_first_preferred_supported() {
    let preferred = preferred_surface_formats();
    assert_eq!(preferred, vec![SRGB]);
    assert_eq!(select_surface_format(&vec![UNORM, SRGB], &preferred), Some(SRGB));
    assert_eq!(select_surface_format(&vec![UNORM], &preferred), None);
    assert_eq!(select_surface_format(&vec![SRGB, UNORM], &vec![UNORM, SRGB]), Some(UNORM));
    assert_eq!(select_surface_format(&vec![], &preferred), None);
}

#[test]
fn swapchain_image_count_and_extent() {
    let fixed = area(640, 480);
    let s = swapchain_settings(caps(2, 0, fixed), &vec![PRESENT_MODE_FIFO], SRGB, area(800, 600), queues(0, 0), None);
    assert_eq!(s.min_image_count, 3);
    assert_eq!(s.image_extent, fixed);
    let s = swapchain_settings(caps(2, 2, area(u32::MAX, u32::MAX)), &vec![], SRGB, area(800, 600), queues(0, 0), None);
    assert_eq!(s.min_image_count, 2);
    assert_eq!(s.image_extent, area(800, 600));
    let s = swapchain_settings(caps(u32::MAX, 0, fixed), &vec![], SRGB, area(1, 1), queues(0, 0), None);
    assert_eq!(s.min_image_count, u32::MAX);
}

#[test]
fn swapchain_present_mode_transform_sharing() {
    let prev = Handle::new(HandleKind::Swapchain, 9);
    let s = swapchain_settings(
        caps(2, 8, area(800, 600)),
        &vec![PRESENT_MODE_FIFO, PRESENT_MODE_MAILBOX],
        SRGB,
        area(800, 600),
        queues(0, 0),
        Some(prev),
    );
    assert_eq!(s.present_mode, PRESENT_MODE_MAILBOX);
    assert_eq!(s.pre_transform, 0x1);
    assert_eq!(s.sharing_mode, SharingMode::Exclusive);
    assert_eq!(s.queue_family_indices, vec![0]);
    assert_eq!(s.old_swapchain, Some(prev));
    assert_eq!(s.surface_format, SRGB);

    let mut c = caps(2, 8, area(800, 600));
    c.supported_transforms = 0x2;
    let s = swapchain_settings(c, &vec![0, 3], SRGB, area(800, 600), queues(0, 1), None);
    assert_eq!(s.present_mode, PRESENT_MODE_FIFO);
    assert_eq!(s.pre_transform, 0x2);
    assert_eq!(s.sharing_mode, SharingMode::Concurrent);
    assert_eq!(s.queue_family_indices, vec![0, 1]);
}

#[test]
fn zero_area_fails_before_anything_is_created() {
    assert!(matches!(SharedFrond::new(area(0, 600)), Err(SharedFrondError::NoSurfaceArea)));
    assert!(matches!(SharedFrond::new(area(800, 0)), Err(SharedFrondError::NoSurfaceArea)));
    assert!(SharedFrond::new(area(1, 1)).is_ok());
}

#[test]
fn no_acceptable_surface_format() {
    let b = SharedFrond::new(area(800, 600)).ok().unwrap();
    assert_eq!(b.select_format(&vec![UNORM]), Err(SharedFrondError::NoAcceptableSurfaceFormat));
    assert_eq!(b.select_format(&vec![UNORM, SRGB]), Ok(SRGB));
}

#[test]
fn auxiliary_images_in_creation_order() {
    let d = image_descs(area(800, 600));
    assert_eq!(d.len(), 5);
    let formats: Vec<i32> = d.iter().map(|x| x.format).collect();
    assert_eq!(
        formats,
        vec![
            FORMAT_R8G8B8A8_UNORM,
            FORMAT_R8G8B8A8_UNORM,
            FORMAT_D24_UNORM_S8_UINT,
            FORMAT_D24_UNORM_S8_UINT,
            FORMAT_R16G16B16A16_SFLOAT
        ]
    );
    assert_eq!((d[0].extent.width, d[0].extent.height, d[0].extent.depth), (800, 600, 1));
    assert_eq!((d[3].extent.width, d[3].extent.height), (1024, 1024));
    assert_eq!(d[0].usage, 0x90);
    assert_eq!(d[2].usage, 0xa0);
    assert_eq!(d[3].usage, 0x24);
    assert_eq!(d[2].aspects, 0x2);
    assert_eq!(d[4].aspects, 0x1);
}

fn image(id: u64) -> Image {
    Image::new(image_descs(area(8, 8))[0], Handle::new(HandleKind::Image, id))
        .memory_allocated(Handle::new(HandleKind::DeviceMemory, id + 1))
        .finish(Handle::new(HandleKind::ImageView, id + 2))
}

#[test]
fn failed_build_releases_new_objects_and_keeps_previous() {
    let prev = Handle::new(HandleKind::Swapchain, 1);
    let b: FrondBuild = SharedFrond::new_with_swapchain(area(800, 600), Some(prev)).ok().unwrap();
    let settings = b.settings(caps(2, 0, area(800, 600)), &vec![], SRGB, queues(0, 0));
    assert_eq!(settings.old_swapchain, Some(prev));
    let sc = Handle::new(HandleKind::Swapchain, 2);
    let mut p = b.swapchain_created(sc, SRGB);
    let v = Handle::new(HandleKind::ImageView, 3);
    p.view_created(v);
    p.image_created(image(10));
    let released = p.abandon();
    assert_eq!(
        released,
        vec![
            Handle::new(HandleKind::ImageView, 12),
            Handle::new(HandleKind::DeviceMemory, 11),
            Handle::new(HandleKind::Image, 10),
            v,
            sc
        ]
    );
    assert!(!released.contains(&prev));
}

#[test]
fn completed_build_retire_and_teardown() {
    let b = SharedFrond::new(area(800, 600)).ok().unwrap();
    assert_eq!(b.resolution_value(), area(800, 600));
    let sc = Handle::new(HandleKind::Swapchain, 2);
    let mut p = b.swapchain_created(sc, SRGB);
    assert_eq!(p.swapchain_handle(), sc);
    assert_eq!(p.format_value(), FORMAT_B8G8R8A8_SRGB);
    p.view_created(Handle::new(HandleKind::ImageView, 3));
    let mut id = 100;
    while let Some(desc) = p.next_image_desc() {
        assert!(!p.is_complete());
        let img = Image::new(desc, Handle::new(HandleKind::Image, id))
            .memory_allocated(Handle::new(HandleKind::DeviceMemory, id + 1))
            .finish(Handle::new(HandleKind::ImageView, id + 2));
        p.image_created(img);
        id += 10;
    }
    assert!(p.is_complete());
    let f = p.finish();
    assert_eq!(f.resolution(), area(800, 600));
    assert_eq!(f.swapchain(), sc);
    assert_eq!(f.swapchain_format(), FORMAT_B8G8R8A8_SRGB);
    assert_eq!(f.swapchain_image_views(), &[Handle::new(HandleKind::ImageView, 3)][..]);
    assert_eq!(f.diffuse().image.raw, 100);
    assert_eq!(f.normal().image.raw, 110);
    assert_eq!(f.depth_stencil().image.raw, 120);
    assert_eq!(f.shadow().image.raw, 130);
    assert_eq!(f.light().image.raw, 140);
    assert!(!f.needs_resizing(area(800, 600)));
    assert!(f.needs_resizing(area(800, 601)));
    let all = f.teardown();
    assert_eq!(all.len(), 5 * 3 + 2);
    assert_eq!(all[0], Handle::new(HandleKind::ImageView, 142));
    assert_eq!(all[15], Handle::new(HandleKind::ImageView, 3));
    assert_eq!(all[16], sc);
    let (retired, destroy) = f.take_swapchain();
    assert_eq!(retired.swapchain(), sc);
    assert_eq!(destroy, all[..16].to_vec());
    assert_eq!(retired.teardown(), vec![sc]);
    assert!(matches!(retired.resurrect(area(0, 0)), Err(SharedFrondError::NoSurfaceArea)));
    assert_eq!(retired.swapchain(), sc);
}
