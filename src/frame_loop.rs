use vstd::prelude::*;
use crate::commands::{frame_commands_spec, record_frame_commands, DrawCommand};
use crate::commands::draw_count;
use crate::surface::{binding_for, targets_for, window_size_dependent_setup, Extent, PresentImage, SurfaceTargets, TargetsView};

verus! {

/// What the slot for the previous frame's completion signal holds.
#[derive(Clone, Copy, Debug, PartialEq, Eq, Structural)]
pub enum FrameEnd {
    /// The signal returned by the last successful submission.
    Submitted,
    /// A signal that is already complete, standing in after a dropped frame.
    Completed,
}

/// Where the loop stands within one redraw tick.
#[derive(Clone, Copy, Debug, PartialEq, Eq, Structural)]
pub enum FrameStage {
    /// Between frames: window events are handled here.
    Idle,
    /// Waiting for the swapchain to be rebuilt.
    Recreating,
    /// Waiting for the next presentable image.
    Acquiring,
    /// The frame's commands were recorded, submitted and presented; waiting
    /// for the flush result.
    Presenting,
}

/// A window event, as the loop needs it.
#[derive(Clone, Copy, Debug, PartialEq, Eq, Structural)]
pub enum WindowSignal {
    CloseRequested,
    Resized,
    /// Time to draw; carries the window's current size in pixels.
    RedrawTick { window: Extent },
}

/// What rebuilding the swapchain gave.
pub enum RecreateOutcome {
    /// The new swapchain's images.
    Rebuilt { images: Vec<PresentImage> },
    /// The window's size cannot be built for now (for example, minimised).
    UnsupportedDimensions,
    /// Any other error.
    Failed,
}

/// What acquiring the next presentable image gave.
#[derive(Clone, Copy, Debug, PartialEq, Eq, Structural)]
pub enum AcquireOutcome {
    Acquired { image_index: usize, suboptimal: bool },
    OutOfDate,
    Failed,
}

/// What signalling the fence and flushing the submission gave.
#[derive(Clone, Copy, Debug, PartialEq, Eq, Structural)]
pub enum FlushOutcome {
    Flushed,
    OutOfDate,
    Failed,
}

/// What the driver of the loop does next.
#[derive(Clone, Copy, Debug, PartialEq, Eq, Structural)]
pub enum FrameAction {
    /// Nothing more for this event.
    Continue,
    /// Leave the event loop.
    Exit,
    /// Reclaim what the previous frame has finished with, then rebuild the
    /// swapchain at `extent` and report the outcome.
    RecreateSwapchain { extent: Extent },
    /// Reclaim what the previous frame has finished with, then acquire the
    /// next image and report the outcome.
    AcquireImage,
    /// Drop this frame without drawing; the next tick tries again.
    AbandonFrame,
    /// Record the frame's commands for `image_index`, submit them after the
    /// previous frame's signal and the acquisition, present the image, then
    /// signal a fence, flush, and report the outcome.
    Draw { image_index: usize },
    /// Keep the signal that the flush returned as the previous frame's end.
    KeepSubmission,
    /// Put an already complete signal in place of the previous frame's end;
    /// `report` asks for the flush error to be logged.
    ResetFrameEnd { report: bool },
    /// An error the program cannot recover from.
    Fatal,
}

/// The renderer's loop state, owned by the event loop's driver.
pub struct FrameLoop {
    pub targets: SurfaceTargets,
    pub recreate_pending: bool,
    pub frame_end: Option<FrameEnd>,
    pub exiting: bool,
    pub stage: FrameStage,
}

/// Mathematical model of `FrameLoop`.
pub struct LoopView {
    pub targets: TargetsView,
    pub recreate_pending: bool,
    pub frame_end: Option<FrameEnd>,
    pub exiting: bool,
    pub stage: FrameStage,
}

impl View for FrameLoop {
    type V = LoopView;

    open spec fn view(&self) -> LoopView {
        LoopView {
            targets: self.targets@,
            recreate_pending: self.recreate_pending,
            frame_end: self.frame_end,
            exiting: self.exiting,
            stage: self.stage,
        }
    }
}

impl LoopView {
    /// There is a framebuffer to draw into, and the previous frame's signal is
    /// set at every point but while a submission holds it.
    pub open spec fn wf(self) -> bool {
        &&& self.targets.framebuffers.len() > 0
        &&& (self.frame_end is None <==> self.stage == FrameStage::Presenting)
        &&& (self.stage == FrameStage::Recreating ==> self.recreate_pending)
    }
}

/// The loop's state right after setup, for the given swapchain images.
pub open spec fn initial_view(images: Seq<PresentImage>) -> LoopView {
    LoopView {
        targets: targets_for(images),
        recreate_pending: false,
        frame_end: Some(FrameEnd::Completed),
        exiting: false,
        stage: FrameStage::Idle,
    }
}

/// How the loop reacts to a window event between frames.
pub open spec fn event_step(s: LoopView, ev: WindowSignal) -> (LoopView, FrameAction) {
    match ev {
        WindowSignal::CloseRequested => (LoopView { exiting: true, ..s }, FrameAction::Exit),
        WindowSignal::Resized => (LoopView { recreate_pending: true, ..s }, FrameAction::Continue),
        WindowSignal::RedrawTick { window } => if s.exiting {
            (s, FrameAction::Continue)
        } else if s.recreate_pending {
            (
                LoopView { stage: FrameStage::Recreating, ..s },
                FrameAction::RecreateSwapchain { extent: window },
            )
        } else {
            (LoopView { stage: FrameStage::Acquiring, ..s }, FrameAction::AcquireImage)
        },
    }
}

/// How the loop reacts to the outcome of rebuilding the swapchain.
pub open spec fn recreate_step(s: LoopView, o: RecreateOutcome) -> (LoopView, FrameAction) {
    match o {
        RecreateOutcome::Rebuilt { images } => if images@.len() == 0 {
            (LoopView { stage: FrameStage::Idle, ..s }, FrameAction::Fatal)
        } else {
            (
                LoopView {
                    targets: targets_for(images@),
                    recreate_pending: false,
                    stage: FrameStage::Acquiring,
                    ..s
                },
                FrameAction::AcquireImage,
            )
        },
        RecreateOutcome::UnsupportedDimensions => (
            LoopView { stage: FrameStage::Idle, ..s },
            FrameAction::AbandonFrame,
        ),
        RecreateOutcome::Failed => (LoopView { stage: FrameStage::Idle, ..s }, FrameAction::Fatal),
    }
}

/// How the loop reacts to the outcome of acquiring an image.
pub open spec fn acquire_step(s: LoopView, o: AcquireOutcome) -> (LoopView, FrameAction) {
    match o {
        AcquireOutcome::Acquired { image_index, suboptimal } => if image_index
            < s.targets.framebuffers.len() {
            (
                LoopView {
                    recreate_pending: s.recreate_pending || suboptimal,
                    frame_end: None,
                    stage: FrameStage::Presenting,
                    ..s
                },
                FrameAction::Draw { image_index },
            )
        } else {
            (LoopView { stage: FrameStage::Idle, ..s }, FrameAction::Fatal)
        },
        AcquireOutcome::OutOfDate => (
            LoopView { recreate_pending: true, stage: FrameStage::Idle, ..s },
            FrameAction::AbandonFrame,
        ),
        AcquireOutcome::Failed => (LoopView { stage: FrameStage::Idle, ..s }, FrameAction::Fatal),
    }
}

/// How the loop reacts to the outcome of flushing a frame.
pub open spec fn flush_step(s: LoopView, o: FlushOutcome) -> (LoopView, FrameAction) {
    match o {
        FlushOutcome::Flushed => (
            LoopView { frame_end: Some(FrameEnd::Submitted), stage: FrameStage::Idle, ..s },
            FrameAction::KeepSubmission,
        ),
        FlushOutcome::OutOfDate => (
            LoopView {
                recreate_pending: true,
                frame_end: Some(FrameEnd::Completed),
                stage: FrameStage::Idle,
                ..s
            },
            FrameAction::ResetFrameEnd { report: false },
        ),
        FlushOutcome::Failed => (
            LoopView { frame_end: Some(FrameEnd::Completed), stage: FrameStage::Idle, ..s },
            FrameAction::ResetFrameEnd { report: true },
        ),
    }
}

impl FrameLoop {
    pub open spec fn wf(&self) -> bool {
        self@.wf()
    }

    /// The loop's state once setup has built the first swapchain's images.
    pub fn new(images: &Vec<PresentImage>) -> (r: FrameLoop)
        requires
            images@.len() > 0,
        ensures
            r.wf(),
            r@ == initial_view(images@),
    {
        let targets = window_size_dependent_setup(images);
        FrameLoop {
            targets,
            recreate_pending: false,
            frame_end: Some(FrameEnd::Completed),
            exiting: false,
            stage: FrameStage::Idle,
        }
    }

    /// Handles a window event between frames.
    pub fn handle_event(&mut self, ev: WindowSignal) -> (a: FrameAction)
        requires
            old(self).wf(),
            old(self).stage == FrameStage::Idle,
        ensures
            final(self).wf(),
            (final(self)@, a) == event_step(old(self)@, ev),
    {
        match ev {
            WindowSignal::CloseRequested => {
                self.exiting = true;
                FrameAction::Exit
            },
            WindowSignal::Resized => {
                self.recreate_pending = true;
                FrameAction::Continue
            },
            WindowSignal::RedrawTick { window } => {
                if self.exiting {
                    FrameAction::Continue
                } else if self.recreate_pending {
                    self.stage = FrameStage::Recreating;
                    FrameAction::RecreateSwapchain { extent: window }
                } else {
                    self.stage = FrameStage::Acquiring;
                    FrameAction::AcquireImage
                }
            },
        }
    }

    /// Takes in the outcome of rebuilding the swapchain; on success the
    /// viewport and framebuffers are replaced together for the new images.
    pub fn on_recreate(&mut self, outcome: RecreateOutcome) -> (a: FrameAction)
        requires
            old(self).wf(),
            old(self).stage == FrameStage::Recreating,
        ensures
            final(self).wf(),
            (final(self)@, a) == recreate_step(old(self)@, outcome),
    {
        match outcome {
            RecreateOutcome::Rebuilt { images } => {
                if images.len() == 0 {
                    self.stage = FrameStage::Idle;
                    FrameAction::Fatal
                } else {
                    self.targets = window_size_dependent_setup(&images);
                    self.recreate_pending = false;
                    self.stage = FrameStage::Acquiring;
                    FrameAction::AcquireImage
                }
            },
            RecreateOutcome::UnsupportedDimensions => {
                self.stage = FrameStage::Idle;
                FrameAction::AbandonFrame
            },
            RecreateOutcome::Failed => {
                self.stage = FrameStage::Idle;
                FrameAction::Fatal
            },
        }
    }

    /// Takes in the outcome of acquiring the next image; on success the
    /// previous frame's signal is handed to the submission.
    pub fn on_acquire(&mut self, outcome: AcquireOutcome) -> (a: FrameAction)
        requires
            old(self).wf(),
            old(self).stage == FrameStage::Acquiring,
        ensures
            final(self).wf(),
            (final(self)@, a) == acquire_step(old(self)@, outcome),
    {
        match outcome {
            AcquireOutcome::Acquired { image_index, suboptimal } => {
                if image_index < self.targets.framebuffers.len() {
                    self.recreate_pending = self.recreate_pending || suboptimal;
                    self.frame_end = None;
                    self.stage = FrameStage::Presenting;
                    FrameAction::Draw { image_index }
                } else {
                    self.stage = FrameStage::Idle;
                    FrameAction::Fatal
                }
            },
            AcquireOutcome::OutOfDate => {
                self.recreate_pending = true;
                self.stage = FrameStage::Idle;
                FrameAction::AbandonFrame
            },
            AcquireOutcome::Failed => {
                self.stage = FrameStage::Idle;
                FrameAction::Fatal
            },
        }
    }

    /// The commands to record for the acquired image `image_index`.
    pub fn frame_commands(&self, image_index: usize) -> (cmds: Vec<DrawCommand>)
        requires
            self.wf(),
            image_index < self@.targets.framebuffers.len(),
        ensures
            cmds@ == frame_commands_spec(image_index),
            draw_count(cmds@) == 1,
    {
        record_frame_commands(image_index)
    }

    /// Takes in the outcome of flushing the frame; the previous frame's
    /// signal is set again whatever it was.
    pub fn on_flush(&mut self, outcome: FlushOutcome) -> (a: FrameAction)
        requires
            old(self).wf(),
            old(self).stage == FrameStage::Presenting,
        ensures
            final(self).wf(),
            (final(self)@, a) == flush_step(old(self)@, outcome),
    {
        match outcome {
            FlushOutcome::Flushed => {
                self.frame_end = Some(FrameEnd::Submitted);
                self.stage = FrameStage::Idle;
                FrameAction::KeepSubmission
            },
            FlushOutcome::OutOfDate => {
                self.recreate_pending = true;
                self.frame_end = Some(FrameEnd::Completed);
                self.stage = FrameStage::Idle;
                FrameAction::ResetFrameEnd { report: false }
            },
            FlushOutcome::Failed => {
                self.frame_end = Some(FrameEnd::Completed);
                self.stage = FrameStage::Idle;
                FrameAction::ResetFrameEnd { report: true }
            },
        }
    }
}

/// Whether an action starts work on a frame.
pub open spec fn starts_frame(a: FrameAction) -> bool {
    a is RecreateSwapchain || a is AcquireImage
}

/// The state and the actions after handling `evs` one after another between
/// frames, starting from `s`.
pub open spec fn run_events(s: LoopView, evs: Seq<WindowSignal>) -> (LoopView, Seq<FrameAction>)
    decreases evs.len(),
{
    if evs.len() == 0 {
        (s, Seq::empty())
    } else {
        let prev = run_events(s, evs.drop_last());
        let (next, a) = event_step(prev.0, evs.last());
        (next, prev.1.push(a))
    }
}

/// Rebuilding the swapchain for a window of at least one pixel each way
/// leaves exactly one framebuffer per new image, framebuffer `i` bound to
/// image `i`, and the viewport sized to the new images.
pub proof fn lemma_rebuild_binds_each_image(s: LoopView, o: RecreateOutcome, window: Extent)
    requires
        s.wf(),
        s.stage == FrameStage::Recreating,
        window.is_drawable(),
        o matches RecreateOutcome::Rebuilt { images } && images@.len() > 0
            && forall|i: int| 0 <= i < images@.len() ==> (#[trigger] images@[i]).extent == window,
    ensures
        ({
            let images = o->images@;
            let (next, a) = recreate_step(s, o);
            &&& a == FrameAction::AcquireImage
            &&& next.wf()
            &&& !next.recreate_pending
            &&& next.targets.framebuffers.len() == images.len()
            &&& forall|i: int| 0 <= i < images.len()
                ==> #[trigger] next.targets.framebuffers[i] == binding_for(images[i])
            &&& next.targets.viewport.width == window.width
            &&& next.targets.viewport.height == window.height
        }),
{
}

/// A rebuild that the window's size does not allow, such as a minimised
/// window of zero pixels, drops the frame and keeps the previous viewport
/// and framebuffers; the next tick asks again for a rebuild at the size the
/// window then has.
pub proof fn lemma_zero_size_keeps_targets(s: LoopView, later: Extent)
    requires
        s.wf(),
        s.stage == FrameStage::Idle,
        s.recreate_pending,
        !s.exiting,
    ensures
        ({
            let zero = Extent { width: 0, height: 0 };
            let (s1, a1) = event_step(s, WindowSignal::RedrawTick { window: zero });
            let (s2, a2) = recreate_step(s1, RecreateOutcome::UnsupportedDimensions);
            &&& a1 == FrameAction::RecreateSwapchain { extent: zero }
            &&& a2 == FrameAction::AbandonFrame
            &&& s2.wf()
            &&& s2.stage == FrameStage::Idle
            &&& s2.targets == s.targets
            &&& s2.frame_end == s.frame_end
            &&& event_step(s2, WindowSignal::RedrawTick { window: later }).1
                == FrameAction::RecreateSwapchain { extent: later }
        }),
{
}

/// Whichever way a frame ends (flushed, out of date, failed, or dropped
/// before drawing), the slot for the previous frame's signal is set.
pub proof fn lemma_frame_end_always_set(
    s: LoopView,
    r: RecreateOutcome,
    q: AcquireOutcome,
    f: FlushOutcome,
)
    requires
        s.wf(),
    ensures
        s.stage == FrameStage::Recreating && recreate_step(s, r).0.stage == FrameStage::Idle
            ==> recreate_step(s, r).0.frame_end is Some,
        s.stage == FrameStage::Acquiring && acquire_step(s, q).0.stage == FrameStage::Idle
            ==> acquire_step(s, q).0.frame_end is Some,
        s.stage == FrameStage::Presenting ==> flush_step(s, f).0.frame_end is Some
            && flush_step(s, f).0.stage == FrameStage::Idle,
{
}

/// After a close request, whatever events follow, no frame is started again
/// and the loop stays set to exit with its targets untouched.
pub proof fn lemma_no_frame_after_close(s: LoopView, evs: Seq<WindowSignal>)
    requires
        s.wf(),
        s.stage == FrameStage::Idle,
    ensures
        ({
            let (closed, a) = event_step(s, WindowSignal::CloseRequested);
            let (last, acts) = run_events(closed, evs);
            &&& a == FrameAction::Exit
            &&& last.exiting
            &&& last.stage == FrameStage::Idle
            &&& last.targets == s.targets
            &&& acts.len() == evs.len()
            &&& forall|i: int| 0 <= i < acts.len() ==> !starts_frame(#[trigger] acts[i])
        }),
    decreases evs.len(),
{
    let closed = event_step(s, WindowSignal::CloseRequested).0;
    if evs.len() > 0 {
        lemma_no_frame_after_close(s, evs.drop_last());
        let prev = run_events(closed, evs.drop_last());
        let acts = run_events(closed, evs).1;
        assert(acts == prev.1.push(event_step(prev.0, evs.last()).1));
        assert forall|i: int| 0 <= i < acts.len() implies !starts_frame(#[trigger] acts[i]) by {
            if i < prev.1.len() {
                assert(acts[i] == prev.1[i]);
            }
        }
    }
}

/// After a resize to a size of at least one pixel each way, the next tick
/// rebuilds the swapchain at that size, and once the rebuilt images of that
/// size are in, the viewport and every framebuffer have that size.
pub proof fn lemma_resize_reaches_swapchain(s: LoopView, window: Extent, o: RecreateOutcome)
    requires
        s.wf(),
        s.stage == FrameStage::Idle,
        !s.exiting,
        window.is_drawable(),
        o matches RecreateOutcome::Rebuilt { images } && images@.len() > 0
            && forall|i: int| 0 <= i < images@.len() ==> (#[trigger] images@[i]).extent == window,
    ensures
        ({
            let (s1, a1) = event_step(s, WindowSignal::Resized);
            let (s2, a2) = event_step(s1, WindowSignal::RedrawTick { window });
            let (s3, a3) = recreate_step(s2, o);
            &&& a2 == FrameAction::RecreateSwapchain { extent: window }
            &&& a3 == FrameAction::AcquireImage
            &&& s3.targets.viewport.width == window.width
            &&& s3.targets.viewport.height == window.height
            &&& forall|i: int| 0 <= i < s3.targets.framebuffers.len()
                ==> (#[trigger] s3.targets.framebuffers[i]).extent == window
        }),
{
    let images = o->images@;
    let s3 = recreate_step(event_step(event_step(s, WindowSignal::Resized).0, WindowSignal::RedrawTick { window }).0, o).0;
    assert forall|i: int| 0 <= i < s3.targets.framebuffers.len()
        implies (#[trigger] s3.targets.framebuffers[i]).extent == window by {
        assert(s3.targets.framebuffers[i] == binding_for(images[i]));
    }
}

} // verus!
