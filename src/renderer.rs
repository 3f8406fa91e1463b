use vstd::prelude::*;

use crate::crown::{SharedCrown, SharedCrownError};
use crate::frond::{FrondBuild, SharedFrond, SharedFrondError, SharedFrondSwapchain};
use crate::handle::Handle;
use crate::stem::{stem_teardown, SharedStem, SharedStemError};
use crate::Extent2D;

verus! {

/// The result code the graphics API reports when the device is lost.
pub const VK_ERROR_DEVICE_LOST: i32 = -4;

/// Why a frame could not be drawn.
#[derive(Clone, Copy, Debug, PartialEq, Eq, Structural)]
pub enum RendererError {
    /// A graphics API call failed with this result code.
    VkError(i32),
    CrownCreationError(SharedCrownError),
    StemCreationError(SharedStemError),
    FrondCreationError(SharedFrondError),
}

/// What became of one frame: it was drawn (`true` when neither acquisition nor
/// presentation reported the swapchain as suboptimal), it was skipped because
/// the drawable area is empty, or it failed.
#[derive(Clone, Copy, Debug, PartialEq, Eq, Structural)]
pub enum FrameOutcome {
    Drew(bool),
    Skipped,
    Failed(RendererError),
}

/// The device-dependent part of the renderer. Each state holds exactly what
/// exists in it.
pub enum Backend {
    /// No device context: before the first frame, or after device loss.
    NoDevice,
    /// A device context, and no swapchain yet.
    Pending(SharedStem),
    /// A device context and a render-target set for the current drawable area.
    Live(SharedStem, SharedFrond),
    /// A device context and the swapchain of a retired render-target set,
    /// waiting for a drawable area to rebuild for.
    Retiring(SharedStem, SharedFrondSwapchain),
}

/// What the caller does next for the current frame.
pub enum FrameStep {
    /// Build a device context and hand it to `stem_built`.
    BuildStem,
    /// Build a render-target set from this start and hand it to `frond_built`,
    /// or its failure to `frond_failed`.
    BuildFrond(FrondBuild),
    /// Record, submit and present the frame on the live render-target set and
    /// hand the result to `frame_finished`.
    Record,
    /// The drawable area is empty: there is nothing to draw this frame.
    Skip,
}

/// An observable summary of the renderer's state.
#[derive(Clone, Copy, Debug, PartialEq, Eq, Structural)]
pub enum RendererState {
    NoDevice,
    Pending,
    Live { resolution: Extent2D, swapchain: Handle },
    Retiring { swapchain: Handle },
}

pub open spec fn area_empty(area: Extent2D) -> bool {
    area.width == 0 || area.height == 0
}

/// How one call of `begin_frame` with drawable area `area` takes the backend
/// from `old` to `new`, which step it asks for, and what it destroys.
pub open spec fn begin_frame_relation(
    old: Backend,
    new: Backend,
    area: Extent2D,
    step: FrameStep,
    destroyed: Seq<Handle>,
) -> bool {
    match old {
        Backend::NoDevice => new == old && step is BuildStem && destroyed.len() == 0,
        Backend::Pending(_) => {
            &&& new == old
            &&& destroyed.len() == 0
            &&& if area_empty(area) {
                step is Skip
            } else {
                match step {
                    FrameStep::BuildFrond(b) => b.resolution() == area && b.previous() is None,
                    _ => false,
                }
            }
        },
        Backend::Live(stem, frond) => {
            if area == frond.resolution_spec() {
                new == old && step is Record && destroyed.len() == 0
            } else {
                &&& match new {
                    Backend::Retiring(s, r) => s == stem && r.swapchain_spec() == frond.swapchain_spec(),
                    _ => false,
                }
                &&& destroyed == frond.resolution_teardown()
                &&& if area_empty(area) {
                    step is Skip
                } else {
                    match step {
                        FrameStep::BuildFrond(b) => b.resolution() == area && b.previous() == Some(frond.swapchain_spec()),
                        _ => false,
                    }
                }
            }
        },
        Backend::Retiring(_, retired) => {
            &&& new == old
            &&& destroyed.len() == 0
            &&& if area_empty(area) {
                step is Skip
            } else {
                match step {
                    FrameStep::BuildFrond(b) => b.resolution() == area && b.previous() == Some(retired.swapchain_spec()),
                    _ => false,
                }
            }
        },
    }
}

/// Everything the backend owns, in the order it is destroyed: what depends on
/// the device first, the device context last.
pub open spec fn backend_teardown(b: Backend) -> Seq<Handle> {
    match b {
        Backend::NoDevice => Seq::empty(),
        Backend::Pending(stem) => stem_teardown(stem.handles_spec()),
        Backend::Live(stem, frond) => frond.resolution_teardown().push(frond.swapchain_spec()) + stem_teardown(stem.handles_spec()),
        Backend::Retiring(stem, retired) => seq![retired.swapchain_spec()] + stem_teardown(stem.handles_spec()),
    }
}

/// Drives frames: builds the device context and render-target set when they are
/// missing, retires the render-target set when the drawable area changes,
/// resurrects it when the area allows, and drops everything on device loss.
pub struct Renderer {
    crown: SharedCrown,
    backend: Backend,
}

impl Renderer {
    pub closed spec fn backend(&self) -> Backend {
        self.backend
    }

    pub closed spec fn crown(&self) -> SharedCrown {
        self.crown
    }

    /// A renderer over a presentation context, with no device yet.
    pub fn new(crown: SharedCrown) -> (r: Renderer)
        ensures
            r.backend() is NoDevice,
            r.crown() == crown,
    {
        Renderer { crown, backend: Backend::NoDevice }
    }

    pub fn shared_crown(&self) -> (r: &SharedCrown)
        ensures
            r == self.crown(),
    {
        &self.crown
    }

    /// The device context, when there is one.
    pub fn stem(&self) -> (r: Option<&SharedStem>)
        ensures
            match self.backend() {
                Backend::NoDevice => r is None,
                Backend::Pending(s) => r == Some(&s),
                Backend::Live(s, _) => r == Some(&s),
                Backend::Retiring(s, _) => r == Some(&s),
            },
    {
        match &self.backend {
            Backend::NoDevice => None,
            Backend::Pending(s) => Some(s),
            Backend::Live(s, _) => Some(s),
            Backend::Retiring(s, _) => Some(s),
        }
    }

    /// The live render-target set, when there is one.
    pub fn frond(&self) -> (r: Option<&SharedFrond>)
        ensures
            match self.backend() {
                Backend::Live(_, f) => r == Some(&f),
                _ => r is None,
            },
    {
        match &self.backend {
            Backend::Live(_, f) => Some(f),
            _ => None,
        }
    }

    /// A summary of the current state.
    pub fn state(&self) -> (r: RendererState)
        ensures
            match self.backend() {
                Backend::NoDevice => r is NoDevice,
                Backend::Pending(_) => r is Pending,
                Backend::Live(_, f) => r == (RendererState::Live {
                    resolution: f.resolution_spec(),
                    swapchain: f.swapchain_spec(),
                }),
                Backend::Retiring(_, s) => r == (RendererState::Retiring { swapchain: s.swapchain_spec() }),
            },
    {
        match &self.backend {
            Backend::NoDevice => RendererState::NoDevice,
            Backend::Pending(_) => RendererState::Pending,
            Backend::Live(_, f) => RendererState::Live { resolution: f.resolution(), swapchain: f.swapchain() },
            Backend::Retiring(_, s) => RendererState::Retiring { swapchain: s.swapchain() },
        }
    }

    /// Decides the next step of a frame for the current drawable area, and
    /// returns what must be destroyed first. A live render-target set whose
    /// resolution differs from the area is retired: its images and views are to
    /// be destroyed, while its swapchain is kept for the next construction.
    pub fn begin_frame(&mut self, area: Extent2D) -> (r: (FrameStep, Vec<Handle>))
        ensures
            begin_frame_relation(old(self).backend(), final(self).backend(), area, r.0, r.1@),
            final(self).crown() == old(self).crown(),
    {
        let mut backend = Backend::NoDevice;
        std::mem::swap(&mut self.backend, &mut backend);
        match backend {
            Backend::NoDevice => {
                self.backend = Backend::NoDevice;
                (FrameStep::BuildStem, Vec::new())
            },
            Backend::Pending(stem) => {
                self.backend = Backend::Pending(stem);
                match SharedFrond::new(area) {
                    Ok(b) => (FrameStep::BuildFrond(b), Vec::new()),
                    Err(_) => (FrameStep::Skip, Vec::new()),
                }
            },
            Backend::Live(stem, frond) => {
                if frond.needs_resizing(area) {
                    let (retired, destroy) = frond.take_swapchain();
                    let step = match retired.resurrect(area) {
                        Ok(b) => FrameStep::BuildFrond(b),
                        Err(_) => FrameStep::Skip,
                    };
                    self.backend = Backend::Retiring(stem, retired);
                    (step, destroy)
                } else {
                    self.backend = Backend::Live(stem, frond);
                    (FrameStep::Record, Vec::new())
                }
            },
            Backend::Retiring(stem, retired) => {
                let step = match retired.resurrect(area) {
                    Ok(b) => FrameStep::BuildFrond(b),
                    Err(_) => FrameStep::Skip,
                };
                self.backend = Backend::Retiring(stem, retired);
                (step, Vec::new())
            },
        }
    }

    /// Takes a newly built device context. Without one so far it becomes the
    /// renderer's; otherwise it is refused and returned for destruction.
    pub fn stem_built(&mut self, stem: SharedStem) -> (r: Vec<Handle>)
        ensures
            old(self).backend() is NoDevice ==> final(self).backend() == Backend::Pending(stem) && r@.len() == 0,
            !(old(self).backend() is NoDevice) ==> final(self).backend() == old(self).backend()
                && r@ == stem_teardown(stem.handles_spec()),
            final(self).crown() == old(self).crown(),
    {
        match &self.backend {
            Backend::NoDevice => {
                self.backend = Backend::Pending(stem);
                Vec::new()
            },
            _ => stem.teardown(),
        }
    }

    /// Takes a newly built render-target set. It replaces the retired swapchain,
    /// which is now to be destroyed; with no device context waiting for one, the
    /// set is refused and returned for destruction.
    pub fn frond_built(&mut self, frond: SharedFrond) -> (r: Vec<Handle>)
        ensures
            match old(self).backend() {
                Backend::Pending(stem) => final(self).backend() == Backend::Live(stem, frond) && r@.len() == 0,
                Backend::Retiring(stem, retired) => final(self).backend() == Backend::Live(stem, frond)
                    && r@ == seq![retired.swapchain_spec()],
                _ => final(self).backend() == old(self).backend()
                    && r@ == frond.resolution_teardown().push(frond.swapchain_spec()),
            },
            final(self).crown() == old(self).crown(),
    {
        let mut backend = Backend::NoDevice;
        std::mem::swap(&mut self.backend, &mut backend);
        match backend {
            Backend::Pending(stem) => {
                self.backend = Backend::Live(stem, frond);
                Vec::new()
            },
            Backend::Retiring(stem, retired) => {
                let destroy = retired.teardown();
                self.backend = Backend::Live(stem, frond);
                destroy
            },
            other => {
                self.backend = other;
                frond.teardown()
            },
        }
    }

    /// A render-target construction failed: the state is kept as it was (a
    /// retired swapchain stays, not destroyed, for the next attempt). An empty
    /// area means the frame is skipped; anything else is an error.
    pub fn frond_failed(&mut self, err: SharedFrondError) -> (r: FrameOutcome)
        ensures
            final(self).backend() == old(self).backend(),
            final(self).crown() == old(self).crown(),
            err == SharedFrondError::NoSurfaceArea ==> r == FrameOutcome::Skipped,
            err != SharedFrondError::NoSurfaceArea ==> r == FrameOutcome::Failed(RendererError::FrondCreationError(err)),
    {
        match err {
            SharedFrondError::NoSurfaceArea => FrameOutcome::Skipped,
            _ => FrameOutcome::Failed(RendererError::FrondCreationError(err)),
        }
    }

    /// Drops everything that depends on the device: the result lists it all in
    /// the order it is destroyed, and the renderer has no device afterwards.
    pub fn lose_device(&mut self) -> (r: Vec<Handle>)
        ensures
            final(self).backend() is NoDevice,
            r@ == backend_teardown(old(self).backend()),
            final(self).crown() == old(self).crown(),
    {
        let mut backend = Backend::NoDevice;
        std::mem::swap(&mut self.backend, &mut backend);
        match backend {
            Backend::NoDevice => Vec::new(),
            Backend::Pending(stem) => stem.teardown(),
            Backend::Live(stem, frond) => {
                let mut r = frond.teardown();
                let mut s = stem.teardown();
                r.append(&mut s);
                r
            },
            Backend::Retiring(stem, retired) => {
                let mut r = retired.teardown();
                let mut s = stem.teardown();
                r.append(&mut s);
                r
            },
        }
    }

    /// Takes the result of recording, submitting and presenting a frame: whether
    /// both acquisition and presentation were optimal, or the API's error code.
    /// Device loss drops the device context and everything that depends on it,
    /// so that the next frame starts from scratch.
    pub fn frame_finished(&mut self, result: Result<bool, i32>) -> (r: (FrameOutcome, Vec<Handle>))
        ensures
            final(self).crown() == old(self).crown(),
            match result {
                Ok(optimal) => r.0 == FrameOutcome::Drew(optimal) && r.1@.len() == 0
                    && final(self).backend() == old(self).backend(),
                Err(code) => {
                    &&& r.0 == FrameOutcome::Failed(RendererError::VkError(code))
                    &&& code == VK_ERROR_DEVICE_LOST ==> final(self).backend() is NoDevice
                        && r.1@ == backend_teardown(old(self).backend())
                    &&& code != VK_ERROR_DEVICE_LOST ==> final(self).backend() == old(self).backend()
                        && r.1@.len() == 0
                },
            },
    {
        match result {
            Ok(optimal) => (FrameOutcome::Drew(optimal), Vec::new()),
            Err(code) => {
                if code == VK_ERROR_DEVICE_LOST {
                    let destroy = self.lose_device();
                    (FrameOutcome::Failed(RendererError::VkError(code)), destroy)
                } else {
                    (FrameOutcome::Failed(RendererError::VkError(code)), Vec::new())
                }
            },
        }
    }

    /// Ends the renderer: everything it owns, in the order it is destroyed, with
    /// the presentation context last.
    pub fn teardown(self) -> (r: Vec<Handle>)
        ensures
            r@ == backend_teardown(self.backend()) + seq![
                self.crown().surface_spec(),
                self.crown().messenger_spec(),
                self.crown().instance_spec(),
            ],
    {
        let mut this = self;
        let mut r = this.lose_device();
        let mut c = this.crown.teardown();
        r.append(&mut c);
        r
    }
}

/// Frames with an empty drawable area while a swapchain is retired change
/// nothing: after any number of them the same single retired swapchain is kept,
/// each of them is skipped, and none destroys anything.
pub proof fn lemma_zero_area_frames_keep_retired(
    states: Seq<Backend>,
    steps: Seq<FrameStep>,
    destroyed: Seq<Seq<Handle>>,
    area: Extent2D,
)
    requires
        area_empty(area),
        states.len() == steps.len() + 1,
        destroyed.len() == steps.len(),
        states[0] is Retiring,
        forall|i: int|
            0 <= i < steps.len() ==> begin_frame_relation(
                #[trigger] states[i],
                states[i + 1],
                area,
                steps[i],
                destroyed[i],
            ),
    ensures
        forall|i: int| 0 <= i < states.len() ==> #[trigger] states[i] == states[0],
        forall|i: int| 0 <= i < steps.len() ==> (#[trigger] steps[i]) is Skip,
        forall|i: int| 0 <= i < steps.len() ==> (#[trigger] destroyed[i]).len() == 0,
    decreases steps.len(),
{
    if steps.len() > 0 {
        let n = steps.len() - 1;
        lemma_zero_area_frames_keep_retired(states.drop_last(), steps.drop_last(), destroyed.drop_last(), area);
        assert(states.drop_last()[n] == states[n]);
        assert(begin_frame_relation(states[n], states[n + 1], area, steps[n], destroyed[n]));
        assert forall|i: int| 0 <= i < states.len() implies #[trigger] states[i] == states[0] by {
            if i < states.len() - 1 {
                assert(states.drop_last()[i] == states[i]);
            }
        }
        assert forall|i: int| 0 <= i < steps.len() implies (#[trigger] steps[i]) is Skip by {
            if i < n {
                assert(steps.drop_last()[i] == steps[i]);
            }
        }
        assert forall|i: int| 0 <= i < steps.len() implies (#[trigger] destroyed[i]).len() == 0 by {
            if i < n {
                assert(destroyed.drop_last()[i] == destroyed[i]);
            }
        }
    }
}

} // verus!
