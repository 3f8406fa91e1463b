use ng_render::guard::Guarded;
use ng_render::handle::{Handle, HandleKind};

fn h(kind: HandleKind, raw: u64) -> Handle {
    Handle::new(kind, raw)
}

#[test]
fn failed_construction_releases_completed_steps_in_reverse() {
    // Steps 1..3 succeed, step 4 fails: only the first three are destroyed,
    // the last one first.
    let steps = [
        h(HandleKind::Instance, 1),
        h(HandleKind::DebugMessenger, 2),
        h(HandleKind::Surface, 3),
    ];
    let mut guard = Guarded::new();
    for s in steps.iter() {
        guard.push(*s);
    }
    let released = guard.release();
    assert_eq!(released, vec![steps[2], steps[1], steps[0]]);
}

#[test]
fn failure_at_first_step_releases_nothing() {
    let guard: Guarded<Handle> = Guarded::new();
    assert!(guard.release().is_empty());
}

#[test]
fn taken_guard_releases_nothing() {
    let mut guard = Guarded::guard(h(HandleKind::Device, 7));
    guard.push(h(HandleKind::CommandPool, 8));
    let owned = guard.take();
    assert_eq!(owned, vec![h(HandleKind::Device, 7), h(HandleKind::CommandPool, 8)]);
}

#[test]
fn sequence_guard_dropped_after_k_pushes_releases_exactly_those() {
    let mut guard = Guarded::new();
    for raw in 10..14u64 {
        guard.push(h(HandleKind::ImageView, raw));
    }
    assert_eq!(guard.len(), 4);
    let mut released = guard.release();
    assert_eq!(released.len(), 4);
    released.sort_by_key(|x| x.raw);
    let expected: Vec<Handle> = (10..14u64).map(|raw| h(HandleKind::ImageView, raw)).collect();
    assert_eq!(released, expected);
}

#[test]
fn absorbed_guard_is_released_before_earlier_acquisitions() {
    let mut outer = Guarded::guard(h(HandleKind::Swapchain, 1));
    let mut inner = Guarded::guard(h(HandleKind::Image, 2));
    inner.push(h(HandleKind::DeviceMemory, 3));
    outer.absorb(inner);
    assert_eq!(outer.held(), &[h(HandleKind::Swapchain, 1), h(HandleKind::Image, 2), h(HandleKind::DeviceMemory, 3)][..]);
    assert_eq!(
        outer.release(),
        vec![h(HandleKind::DeviceMemory, 3), h(HandleKind::Image, 2), h(HandleKind::Swapchain, 1)]
    );
}
