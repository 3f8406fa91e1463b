//! The resource-lifecycle core of a real-time renderer on an explicit graphics API.
//!
//! The library decides; the caller performs the API calls it asks for and
//! reports back. Native objects are tracked as [`handle::Handle`]s:
//!
//! - [`guard`]: ordered, exactly-once teardown of what a construction acquired.
//! - [`memory`]: choice of a memory type for an allocation.
//! - [`image`]: an image with its memory and view, built all together or not at all.
//! - [`crown`]: the instance, debug messenger and surface, created once.
//! - [`stem`]: device selection and the device context with its queues and
//!   frame-pacing objects.
//! - [`frond`]: the swapchain and resolution-sized images, with retirement and
//!   resurrection of the swapchain.
//! - [`frame`]: the calls of one frame, in order.
//! - [`renderer`]: the per-frame state machine, including device loss.
//! - [`input`]: the keys that steer the camera.

use vstd::prelude::*;

pub mod crown;
pub mod frame;
pub mod frond;
pub mod guard;
pub mod handle;
pub mod image;
pub mod input;
pub mod memory;
pub mod renderer;
pub mod stem;

verus! {

/// Width and height of a two-dimensional surface or image, in pixels.
#[derive(Clone, Copy, Debug, PartialEq, Eq, Structural)]
pub struct Extent2D {
    pub width: u32,
    pub height: u32,
}

impl Extent2D {
    /// Whether either dimension is zero, in which case nothing can be presented.
    pub fn is_empty(&self) -> (r: bool)
        ensures
            r == (self.width == 0 || self.height == 0),
    {
        self.width == 0 || self.height == 0
    }
}

} // verus!
