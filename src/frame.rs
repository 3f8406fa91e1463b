use vstd::prelude::*;

verus! {

/// The graphics API calls of one frame, with one frame in flight.
#[derive(Clone, Copy, Debug, PartialEq, Eq, Structural)]
pub enum FrameCall {
    /// Wait, without a timeout, until the previous frame's work is retired.
    WaitForFence,
    ResetFence,
    /// Acquire the next swapchain image, signalling the image-acquired semaphore.
    AcquireImage,
    ResetCommandBuffer,
    BeginCommandBuffer,
    /// Let each pass record its work, in pipeline order.
    RecordPasses,
    EndCommandBuffer,
    /// Submit to the graphics queue, waiting on the image-acquired semaphore and
    /// signalling the presentation fence and the render-complete semaphore.
    Submit,
    /// Present, waiting on the render-complete semaphore.
    Present,
}

pub open spec fn frame_calls() -> Seq<FrameCall> {
    seq![
        FrameCall::WaitForFence,
        FrameCall::ResetFence,
        FrameCall::AcquireImage,
        FrameCall::ResetCommandBuffer,
        FrameCall::BeginCommandBuffer,
        FrameCall::RecordPasses,
        FrameCall::EndCommandBuffer,
        FrameCall::Submit,
        FrameCall::Present,
    ]
}

pub const FRAME_CALL_COUNT: usize = 9;

/// Whether any of the results reported a suboptimal swapchain.
pub open spec fn any_suboptimal(results: Seq<bool>) -> bool {
    exists|i: int| 0 <= i < results.len() && #[trigger] results[i]
}

/// The progress of one frame: how many calls succeeded, whether any of them
/// reported the swapchain as suboptimal, and the error that ended it, if any.
pub struct FrameProtocol {
    done: usize,
    suboptimal: bool,
    failed: Option<i32>,
    reports: Ghost<Seq<bool>>,
}

impl FrameProtocol {
    /// How many calls succeeded so far.
    pub closed spec fn done(&self) -> nat {
        self.done as nat
    }

    /// The suboptimal flags the successful calls reported, in order.
    pub closed spec fn reports(&self) -> Seq<bool> {
        self.reports@
    }

    /// The error code of the call that failed, which ends the frame.
    pub closed spec fn failure(&self) -> Option<i32> {
        self.failed
    }

    pub closed spec fn wf(&self) -> bool {
        &&& self.done <= FRAME_CALL_COUNT
        &&& self.reports@.len() == self.done
        &&& self.suboptimal == any_suboptimal(self.reports@)
    }

    /// A frame with no call made yet.
    pub fn new() -> (r: FrameProtocol)
        ensures
            r.wf(),
            r.done() == 0,
            r.reports() == Seq::<bool>::empty(),
            r.failure() is None,
    {
        FrameProtocol { done: 0, suboptimal: false, failed: None, reports: Ghost(Seq::empty()) }
    }

    /// The next call to make, or `None` once the frame is over: every call
    /// succeeded or one failed.
    pub fn next_call(&self) -> (r: Option<FrameCall>)
        requires
            self.wf(),
        ensures
            self.failure() is None && self.done() < FRAME_CALL_COUNT ==> r == Some(frame_calls()[self.done() as int]),
            self.failure() is Some || self.done() == FRAME_CALL_COUNT ==> r is None,
    {
        if self.failed.is_some() {
            return None;
        }
        match self.done {
            0 => Some(FrameCall::WaitForFence),
            1 => Some(FrameCall::ResetFence),
            2 => Some(FrameCall::AcquireImage),
            3 => Some(FrameCall::ResetCommandBuffer),
            4 => Some(FrameCall::BeginCommandBuffer),
            5 => Some(FrameCall::RecordPasses),
            6 => Some(FrameCall::EndCommandBuffer),
            7 => Some(FrameCall::Submit),
            8 => Some(FrameCall::Present),
            _ => None,
        }
    }

    /// Records what the call `next_call` asked for returned: `Ok(suboptimal)`,
    /// where only acquisition and presentation can report `true`, or the API's
    /// error code.
    pub fn call_returned(&mut self, result: Result<bool, i32>)
        requires
            old(self).wf(),
            old(self).failure() is None,
            old(self).done() < FRAME_CALL_COUNT,
        ensures
            final(self).wf(),
            match result {
                Ok(suboptimal) => {
                    &&& final(self).done() == old(self).done() + 1
                    &&& final(self).reports() == old(self).reports().push(suboptimal)
                    &&& final(self).failure() is None
                },
                Err(code) => {
                    &&& final(self).done() == old(self).done()
                    &&& final(self).reports() == old(self).reports()
                    &&& final(self).failure() == Some(code)
                },
            },
    {
        match result {
            Ok(suboptimal) => {
                proof {
                    let s = self.reports@.push(suboptimal);
                    if suboptimal {
                        assert(s[s.len() - 1]);
                    }
                    if any_suboptimal(self.reports@) {
                        let i = choose|i: int| 0 <= i < self.reports@.len() && #[trigger] self.reports@[i];
                        assert(s[i]);
                    }
                    if any_suboptimal(s) {
                        let i = choose|i: int| 0 <= i < s.len() && #[trigger] s[i];
                        if i < self.reports@.len() {
                            assert(self.reports@[i]);
                        }
                    }
                }
                self.done = self.done + 1;
                self.suboptimal = self.suboptimal || suboptimal;
                self.reports = Ghost(self.reports@.push(suboptimal));
            },
            Err(code) => {
                self.failed = Some(code);
            },
        }
    }

    /// How the frame ended, once it has: the failed call's error code, or, after
    /// presentation, whether every call was optimal. A suboptimal swapchain is a
    /// success that hints at a rebuild, not an error.
    pub fn result(&self) -> (r: Option<Result<bool, i32>>)
        requires
            self.wf(),
        ensures
            self.failure() matches Some(code) ==> r == Some(Err::<bool, i32>(code)),
            self.failure() is None && self.done() == FRAME_CALL_COUNT ==> r == Some(
                Ok::<bool, i32>(!any_suboptimal(self.reports())),
            ),
            self.failure() is None && self.done() < FRAME_CALL_COUNT ==> r is None,
    {
        match self.failed {
            Some(code) => Some(Err(code)),
            None => if self.done == FRAME_CALL_COUNT {
                Some(Ok(!self.suboptimal))
            } else {
                None
            },
        }
    }
}

} // verus!
