use vstd::prelude::*;

use crate::guard::{release_order, Guarded};
use crate::handle::{Handle, HandleKind};

verus! {

pub const DEBUG_SEVERITY_VERBOSE: u32 = 0x1;
pub const DEBUG_SEVERITY_INFO: u32 = 0x10;
pub const DEBUG_SEVERITY_WARNING: u32 = 0x100;
pub const DEBUG_SEVERITY_ERROR: u32 = 0x1000;

/// The levels of the process log that API messages are forwarded at.
#[derive(Clone, Copy, Debug, PartialEq, Eq, Structural)]
pub enum LogLevel {
    Error,
    Warn,
    Info,
    Debug,
}

pub open spec fn level_for_severity(severity: u32) -> LogLevel {
    if severity == DEBUG_SEVERITY_VERBOSE {
        LogLevel::Debug
    } else if severity == DEBUG_SEVERITY_INFO {
        LogLevel::Info
    } else if severity == DEBUG_SEVERITY_WARNING {
        LogLevel::Warn
    } else {
        LogLevel::Error
    }
}

/// The log level for a message the API reports with the given severity bits:
/// verbose at debug, info at info, warning at warn, and error, or anything
/// else, at error.
pub fn debug_message_level(severity: u32) -> (r: LogLevel)
    ensures
        r == level_for_severity(severity),
{
    if severity == DEBUG_SEVERITY_VERBOSE {
        LogLevel::Debug
    } else if severity == DEBUG_SEVERITY_INFO {
        LogLevel::Info
    } else if severity == DEBUG_SEVERITY_WARNING {
        LogLevel::Warn
    } else {
        LogLevel::Error
    }
}

/// Failures of presentation-context construction.
#[derive(Clone, Copy, Debug, PartialEq, Eq, Structural)]
pub enum SharedCrownError {
    /// A graphics API call failed with this result code.
    VkError(i32),
    /// The graphics API's loader could not be found or loaded.
    EntryError,
    /// The instance could not be created.
    InstanceError,
}

/// The API instance, its debug messenger and the window's surface: created once
/// and destroyed after everything else.
pub struct SharedCrown {
    instance: Handle,
    debug_utils_messenger: Handle,
    surface: Handle,
}

impl SharedCrown {
    pub closed spec fn instance_spec(&self) -> Handle {
        self.instance
    }

    pub closed spec fn messenger_spec(&self) -> Handle {
        self.debug_utils_messenger
    }

    pub closed spec fn surface_spec(&self) -> Handle {
        self.surface
    }

    /// Starts the presentation context once its instance exists: from here on a
    /// failure destroys the instance.
    pub fn new(instance: u64) -> (r: CrownBuild)
        ensures
            r.held() == seq![Handle { kind: HandleKind::Instance, raw: instance }],
    {
        CrownBuild { instance: Handle::new(HandleKind::Instance, instance), guard: Guarded::guard(Handle::new(HandleKind::Instance, instance)) }
    }

    pub fn instance(&self) -> (r: Handle)
        ensures
            r == self.instance_spec(),
    {
        self.instance
    }

    pub fn surface(&self) -> (r: Handle)
        ensures
            r == self.surface_spec(),
    {
        self.surface
    }

    pub fn debug_utils_messenger(&self) -> (r: Handle)
        ensures
            r == self.messenger_spec(),
    {
        self.debug_utils_messenger
    }

    /// What to destroy, in order, when the context goes away: the surface, the
    /// debug messenger, then the instance.
    pub fn teardown(&self) -> (r: Vec<Handle>)
        ensures
            r@ == seq![self.surface_spec(), self.messenger_spec(), self.instance_spec()],
    {
        let mut r = Vec::new();
        r.push(self.surface);
        r.push(self.debug_utils_messenger);
        r.push(self.instance);
        r
    }
}

/// A presentation context under construction whose instance exists.
pub struct CrownBuild {
    instance: Handle,
    guard: Guarded<Handle>,
}

/// A presentation context under construction whose instance and debug
/// messenger exist.
pub struct CrownWithMessenger {
    instance: Handle,
    messenger: Handle,
    guard: Guarded<Handle>,
}

impl CrownBuild {
    pub closed spec fn held(&self) -> Seq<Handle> {
        self.guard@
    }

    pub closed spec fn instance(&self) -> Handle {
        self.instance
    }

    /// Records the debug messenger; a later failure destroys it before the
    /// instance.
    pub fn messenger_created(self, messenger: u64) -> (r: CrownWithMessenger)
        ensures
            r.held() == self.held().push(Handle { kind: HandleKind::DebugMessenger, raw: messenger }),
            r.instance() == self.instance(),
            r.messenger() == (Handle { kind: HandleKind::DebugMessenger, raw: messenger }),
    {
        let m = Handle::new(HandleKind::DebugMessenger, messenger);
        let mut guard = self.guard;
        guard.push(m);
        CrownWithMessenger { instance: self.instance, messenger: m, guard }
    }

    /// Gives up the construction: what must be destroyed, in order.
    pub fn abandon(self) -> (r: Vec<Handle>)
        ensures
            r@ == release_order(self.held()),
    {
        self.guard.release()
    }
}

impl CrownWithMessenger {
    pub closed spec fn held(&self) -> Seq<Handle> {
        self.guard@
    }

    pub closed spec fn instance(&self) -> Handle {
        self.instance
    }

    pub closed spec fn messenger(&self) -> Handle {
        self.messenger
    }

    /// Completes the context with the window's surface. Nothing is destroyed.
    pub fn finish(self, surface: u64) -> (r: SharedCrown)
        ensures
            r.instance_spec() == self.instance(),
            r.messenger_spec() == self.messenger(),
            r.surface_spec() == (Handle { kind: HandleKind::Surface, raw: surface }),
    {
        let _ = self.guard.take();
        SharedCrown {
            instance: self.instance,
            debug_utils_messenger: self.messenger,
            surface: Handle::new(HandleKind::Surface, surface),
        }
    }

    /// Gives up the construction: what must be destroyed, in order.
    pub fn abandon(self) -> (r: Vec<Handle>)
        ensures
            r@ == release_order(self.held()),
    {
        self.guard.release()
    }
}

} // verus!
