//! The context builder: it sequences handle acquisition in dependency order,
//! records every acquired handle on a cleanup stack, and on any exit —
//! a creation failure partway through setup, or a normal shutdown — hands out
//! the destroy calls in exact reverse of acquisition order.  It also makes
//! the per-frame decisions of the steady-state loop.

use vstd::prelude::*;

use crate::cleanup::CleanupStack;
use crate::cleanup::DestroyAction;
use crate::cleanup::HandleKind;
use crate::cleanup::creation_rank;
use crate::cleanup::lemma_reverse_rank_order;
use crate::cleanup::ranks_nondecreasing;
use crate::cleanup::ranks_nonincreasing;
use crate::errors::ContextError;
use crate::select::DeviceCandidate;
use crate::select::DeviceSelection;
use crate::select::select_device;
use crate::select::qualifies;
use crate::select::assignment_ok;
use crate::select::QueueFamilyAssignment;

verus! {

/// The stations of context construction, in the order they are worked
/// through.  Every station but `SelectDevice` and `Complete` acquires native
/// handles of one kind.
#[derive(Clone, Copy, Debug, PartialEq, Eq, Structural)]
pub enum BuildStep {
    Instance,
    DebugReport,
    Surface,
    SelectDevice,
    Device,
    Swapchain,
    ImageViews,
    ShaderModules,
    PipelineLayout,
    RenderPass,
    Pipeline,
    Framebuffers,
    CommandPool,
    Semaphores,
    Complete,
}

/// The kind of handle a station acquires, if it acquires any.
pub open spec fn step_kind(step: BuildStep) -> Option<HandleKind> {
    match step {
        BuildStep::Instance => Some(HandleKind::Instance),
        BuildStep::DebugReport => Some(HandleKind::DebugReport),
        BuildStep::Surface => Some(HandleKind::Surface),
        BuildStep::SelectDevice => None,
        BuildStep::Device => Some(HandleKind::Device),
        BuildStep::Swapchain => Some(HandleKind::Swapchain),
        BuildStep::ImageViews => Some(HandleKind::ImageView),
        BuildStep::ShaderModules => Some(HandleKind::ShaderModule),
        BuildStep::PipelineLayout => Some(HandleKind::PipelineLayout),
        BuildStep::RenderPass => Some(HandleKind::RenderPass),
        BuildStep::Pipeline => Some(HandleKind::Pipeline),
        BuildStep::Framebuffers => Some(HandleKind::Framebuffer),
        BuildStep::CommandPool => Some(HandleKind::CommandPool),
        BuildStep::Semaphores => Some(HandleKind::Semaphore),
        BuildStep::Complete => None,
    }
}

/// The station after `step`; construction is a straight line.
pub open spec fn next_step(step: BuildStep) -> BuildStep {
    match step {
        BuildStep::Instance => BuildStep::DebugReport,
        BuildStep::DebugReport => BuildStep::Surface,
        BuildStep::Surface => BuildStep::SelectDevice,
        BuildStep::SelectDevice => BuildStep::Device,
        BuildStep::Device => BuildStep::Swapchain,
        BuildStep::Swapchain => BuildStep::ImageViews,
        BuildStep::ImageViews => BuildStep::ShaderModules,
        BuildStep::ShaderModules => BuildStep::PipelineLayout,
        BuildStep::PipelineLayout => BuildStep::RenderPass,
        BuildStep::RenderPass => BuildStep::Pipeline,
        BuildStep::Pipeline => BuildStep::Framebuffers,
        BuildStep::Framebuffers => BuildStep::CommandPool,
        BuildStep::CommandPool => BuildStep::Semaphores,
        BuildStep::Semaphores => BuildStep::Complete,
        BuildStep::Complete => BuildStep::Complete,
    }
}

/// The least creation rank any handle still to be acquired at `step` can
/// have.  It never decreases as construction advances, which keeps the
/// cleanup stack ordered by rank.
pub open spec fn step_progress(step: BuildStep) -> nat {
    match step {
        BuildStep::Instance => 0,
        BuildStep::DebugReport => 1,
        BuildStep::Surface => 2,
        BuildStep::SelectDevice => 3,
        BuildStep::Device => 3,
        BuildStep::Swapchain => 4,
        BuildStep::ImageViews => 5,
        BuildStep::ShaderModules => 6,
        BuildStep::PipelineLayout => 7,
        BuildStep::RenderPass => 8,
        BuildStep::Pipeline => 9,
        BuildStep::Framebuffers => 10,
        BuildStep::CommandPool => 11,
        BuildStep::Semaphores => 12,
        BuildStep::Complete => 13,
    }
}

/// Drives context construction: remembers which station it is at and owns
/// every handle acquired so far, oldest first.
pub struct ContextBuilder {
    stack: CleanupStack,
    step: BuildStep,
}

impl ContextBuilder {
    /// The station construction is at.
    pub closed spec fn step(self) -> BuildStep {
        self.step
    }

    /// The destroy calls owed for the handles acquired so far, in
    /// acquisition order.
    pub closed spec fn pending(self) -> Seq<DestroyAction> {
        self.stack@
    }

    /// The builder's invariant: the stack is sound, its actions come in
    /// acquisition (rank) order, and none of them is ahead of the current
    /// station.
    pub closed spec fn wf(self) -> bool {
        &&& self.stack.wf()
        &&& ranks_nondecreasing(self.stack@)
        &&& forall|i: int|
            0 <= i < self.stack@.len() ==> creation_rank(#[trigger] self.stack@[i].kind)
                <= step_progress(self.step)
    }

    /// Start construction: nothing acquired, first station.
    pub fn new() -> (b: ContextBuilder)
        ensures
            b.wf(),
            b.step() == BuildStep::Instance,
            b.pending() == Seq::<DestroyAction>::empty(),
    {
        ContextBuilder { stack: CleanupStack::new(), step: BuildStep::Instance }
    }

    /// Which station the builder is at.
    pub fn current_step(&self) -> (s: BuildStep)
        ensures
            s == self.step(),
    {
        self.step
    }

    /// How many handles have been acquired and not yet destroyed.
    pub fn pending_count(&self) -> (n: usize)
        ensures
            n == self.pending().len(),
    {
        self.stack.len()
    }

    /// Record a handle that the current station's creation call returned
    /// with a success status.  The handle will be destroyed before
    /// everything acquired earlier.
    pub fn handle_created(&mut self, value: u64)
        requires
            old(self).wf(),
            step_kind(old(self).step()) is Some,
        ensures
            final(self).wf(),
            final(self).step() == old(self).step(),
            final(self).pending() == old(self).pending().push(
                DestroyAction { kind: step_kind(old(self).step()).unwrap(), value },
            ),
    {
        let kind = match self.step {
            BuildStep::Instance => HandleKind::Instance,
            BuildStep::DebugReport => HandleKind::DebugReport,
            BuildStep::Surface => HandleKind::Surface,
            BuildStep::Device => HandleKind::Device,
            BuildStep::Swapchain => HandleKind::Swapchain,
            BuildStep::ImageViews => HandleKind::ImageView,
            BuildStep::ShaderModules => HandleKind::ShaderModule,
            BuildStep::PipelineLayout => HandleKind::PipelineLayout,
            BuildStep::RenderPass => HandleKind::RenderPass,
            BuildStep::Pipeline => HandleKind::Pipeline,
            BuildStep::Framebuffers => HandleKind::Framebuffer,
            BuildStep::CommandPool => HandleKind::CommandPool,
            BuildStep::Semaphores => HandleKind::Semaphore,
            BuildStep::SelectDevice | BuildStep::Complete => {
                proof {
                    assert(false);
                }
                return;
            },
        };
        let owned = crate::handle::VkOwned::new(value);
        self.stack.push(kind, owned);
    }

    /// Record the outcome of the current station's creation call.  A success
    /// status hands over the created handle, which is recorded for teardown;
    /// a non-success status becomes the creation error that aborts
    /// construction, with everything acquired so far still owed — the caller
    /// tears down and stops.
    pub fn creation_result(&mut self, created: Option<u64>) -> (r: Result<(), ContextError>)
        requires
            old(self).wf(),
            step_kind(old(self).step()) is Some,
        ensures
            final(self).wf(),
            final(self).step() == old(self).step(),
            match created {
                Some(value) => r is Ok && final(self).pending() == old(self).pending().push(
                    DestroyAction { kind: step_kind(old(self).step()).unwrap(), value },
                ),
                None => r == Err::<(), ContextError>(ContextError::HandleCreationError)
                    && final(self).pending() == old(self).pending(),
            },
    {
        match created {
            Some(value) => {
                self.handle_created(value);
                Ok(())
            },
            None => Err(ContextError::HandleCreationError),
        }
    }

    /// Move to the next station, once the current one's work is done.
    pub fn advance(&mut self)
        requires
            old(self).wf(),
        ensures
            final(self).wf(),
            final(self).step() == next_step(old(self).step()),
            final(self).pending() == old(self).pending(),
    {
        let next = match self.step {
            BuildStep::Instance => BuildStep::DebugReport,
            BuildStep::DebugReport => BuildStep::Surface,
            BuildStep::Surface => BuildStep::SelectDevice,
            BuildStep::SelectDevice => BuildStep::Device,
            BuildStep::Device => BuildStep::Swapchain,
            BuildStep::Swapchain => BuildStep::ImageViews,
            BuildStep::ImageViews => BuildStep::ShaderModules,
            BuildStep::ShaderModules => BuildStep::PipelineLayout,
            BuildStep::PipelineLayout => BuildStep::RenderPass,
            BuildStep::RenderPass => BuildStep::Pipeline,
            BuildStep::Pipeline => BuildStep::Framebuffers,
            BuildStep::Framebuffers => BuildStep::CommandPool,
            BuildStep::CommandPool => BuildStep::Semaphores,
            BuildStep::Semaphores => BuildStep::Complete,
            BuildStep::Complete => BuildStep::Complete,
        };
        self.step = next;
    }

    /// Run device selection at its station.  Selection acquires nothing:
    /// on success the builder moves on; on failure it is left exactly as it
    /// was, so the caller tears down what exists and aborts.
    pub fn select(&mut self, candidates: &Vec<DeviceCandidate>, required: &Vec<String>) -> (r:
        Result<DeviceSelection, ContextError>)
        requires
            old(self).wf(),
            old(self).step() == BuildStep::SelectDevice,
        ensures
            final(self).wf(),
            final(self).pending() == old(self).pending(),
            match r {
                Ok(sel) => {
                    &&& final(self).step() == BuildStep::Device
                    &&& sel.device_index < candidates@.len()
                    &&& qualifies(candidates@[sel.device_index as int], required@)
                    &&& (forall|j: int|
                        0 <= j < sel.device_index ==> !qualifies(candidates@[j], required@))
                    &&& assignment_ok(
                        candidates@[sel.device_index as int].queue_families@,
                        QueueFamilyAssignment {
                            graphics: sel.graphics_family,
                            presentation: sel.presentation_family,
                        },
                    )
                },
                Err(e) => {
                    &&& final(self).step() == BuildStep::SelectDevice
                    &&& e == ContextError::NoSuitableDeviceError
                    &&& forall|j: int|
                        0 <= j < candidates@.len() ==> !qualifies(candidates@[j], required@)
                },
            },
    {
        let r = select_device(candidates, required);
        if r.is_ok() {
            self.advance();
        }
        r
    }

    /// End the context's life, on a creation failure partway through setup
    /// or at a normal shutdown: hand out one destroy call per acquired
    /// handle, in exact reverse of acquisition order, dependents always
    /// before what they depend on.  Nothing stays owed, and nothing is owed
    /// twice.
    pub fn teardown(&mut self) -> (actions: Vec<DestroyAction>)
        requires
            old(self).wf(),
        ensures
            final(self).wf(),
            final(self).step() == BuildStep::Complete,
            final(self).pending() == Seq::<DestroyAction>::empty(),
            actions@ == old(self).pending().reverse(),
            ranks_nonincreasing(actions@),
            forall|i: int, j: int|
                0 <= i < j < actions@.len() ==> crate::cleanup::parent_of(
                    #[trigger] actions@[j].kind,
                ) != Some(#[trigger] actions@[i].kind),
    {
        let actions = self.stack.teardown();
        self.step = BuildStep::Complete;
        proof {
            lemma_reverse_rank_order(old(self).pending());
            crate::cleanup::lemma_dependents_destroyed_first(actions@);
        }
        actions
    }
}

/// Whether a shader byte-code read produced usable content: the core treats
/// the bytes as opaque and only requires that some were read.
pub fn shader_code_valid(code: &Vec<u8>) -> (r: bool)
    ensures
        r == (code@.len() > 0),
{
    code.len() > 0
}

/// Add the diagnostics extension to the instance extension names the window
/// system requires; the result is the full list the instance is created
/// with.
pub fn instance_extensions(window_required: Vec<String>) -> (r: Vec<String>)
    ensures
        r@.len() == window_required@.len() + 1,
        forall|i: int| 0 <= i < window_required@.len() ==> r@[i] == window_required@[i],
        r@[window_required@.len() as int]@ == "VK_EXT_debug_report"@,
{
    let mut r = window_required;
    r.push("VK_EXT_debug_report".to_owned());
    r
}

/// Where the steady-state frame loop is within one frame.  A frame begins by
/// acquiring an image; each stage is reached by reporting the preceding
/// driver call's outcome.
#[derive(Clone, Copy, Debug, PartialEq, Eq, Structural)]
pub enum FrameStage {
    /// The image was acquired; its command buffer is to be submitted.
    Submit { image_index: u32 },
    /// The submission went through; the image is to be presented.
    Present { image_index: u32 },
    /// The frame is done.
    Done,
}

/// Decide what follows image acquisition: with a valid index (within the
/// swapchain's image count) the frame moves on to submission; an abnormal
/// status or an out-of-range index is a frame error, fatal to the loop.
pub fn frame_after_acquire(acquired: Option<u32>, image_count: u32) -> (r: Result<
    FrameStage,
    ContextError,
>)
    ensures
        match r {
            Ok(stage) => acquired matches Some(i) && i < image_count && stage
                == (FrameStage::Submit { image_index: i }),
            Err(e) => e == ContextError::FrameError && match acquired {
                Some(i) => i >= image_count,
                None => true,
            },
        },
{
    match acquired {
        Some(i) => {
            if i < image_count {
                Ok(FrameStage::Submit { image_index: i })
            } else {
                Err(ContextError::FrameError)
            }
        },
        None => Err(ContextError::FrameError),
    }
}

/// Decide what follows command-buffer submission: on a success status the
/// frame moves on to presenting the same image; anything else is a frame
/// error.
pub fn frame_after_submit(stage: FrameStage, submit_ok: bool) -> (r: Result<
    FrameStage,
    ContextError,
>)
    requires
        stage matches FrameStage::Submit { .. },
    ensures
        match r {
            Ok(next) => submit_ok && (stage matches FrameStage::Submit { image_index } && next
                == (FrameStage::Present { image_index })),
            Err(e) => !submit_ok && e == ContextError::FrameError,
        },
{
    match stage {
        FrameStage::Submit { image_index } => {
            if submit_ok {
                Ok(FrameStage::Present { image_index })
            } else {
                Err(ContextError::FrameError)
            }
        },
        _ => Err(ContextError::FrameError),
    }
}

/// Decide what follows presentation: a success status completes the frame;
/// anything else is a frame error.
pub fn frame_after_present(stage: FrameStage, present_ok: bool) -> (r: Result<
    FrameStage,
    ContextError,
>)
    requires
        stage matches FrameStage::Present { .. },
    ensures
        match r {
            Ok(next) => present_ok && next == FrameStage::Done,
            Err(e) => !present_ok && e == ContextError::FrameError,
        },
{
    if present_ok {
        Ok(FrameStage::Done)
    } else {
        Err(ContextError::FrameError)
    }
}

} // verus!
