use ng_render::crown::{debug_message_level, LogLevel, SharedCrown};
use ng_render::handle::{Handle, HandleKind};

#[test]
fn severities_map_to_log_levels() {
    assert_eq!(debug_message_level(0x1), LogLevel::Debug);
    assert_eq!(debug_message_level(0x10), LogLevel::Info);
    assert_eq!(debug_message_level(0x100), LogLevel::Warn);
    assert_eq!(debug_message_level(0x1000), LogLevel::Error);
    assert_eq!(debug_message_level(0x1001), LogLevel::Error);
    assert_eq!(debug_message_level(0), LogLevel::Error);
}

#[test]
fn crown_teardown_surface_messenger_instance() {
    let instance = Handle::new(HandleKind::Instance, 1);
    let messenger = Handle::new(HandleKind::DebugMessenger, 2);
    let surface = Handle::new(HandleKind::Surface, 3);
    let crown = SharedCrown::new(1).messenger_created(2).finish(3);
    assert_eq!(crown.teardown(), vec![surface, messenger, instance]);
    assert_eq!(crown.instance(), instance);
    assert_eq!(crown.surface(), surface);
    assert_eq!(crown.debug_utils_messenger(), messenger);
}

#[test]
fn crown_failure_unwinds_prior_steps() {
    // the surface cannot be created
    let build = SharedCrown::new(1).messenger_created(2);
    assert_eq!(
        build.abandon(),
        vec![Handle::new(HandleKind::DebugMessenger, 2), Handle::new(HandleKind::Instance, 1)]
    );
    // the debug messenger cannot be created
    assert_eq!(SharedCrown::new(1).abandon(), vec![Handle::new(HandleKind::Instance, 1)]);
}
