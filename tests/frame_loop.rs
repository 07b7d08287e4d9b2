use triangle_demo::commands::{record_frame_commands, DrawCommand, TRIANGLE_VERTEX_COUNT};
use triangle_demo::frame_loop::{
    AcquireOutcome, FlushOutcome, FrameAction, FrameEnd, FrameLoop, FrameStage, RecreateOutcome,
    WindowSignal,
};
use triangle_demo::surface::{window_size_dependent_setup, Extent, FramebufferBinding, PresentImage, Viewport};

fn images(ids: &[u64], width: u32, height: u32) -> Vec<PresentImage> {
    ids.iter()
        .map(|&id| PresentImage { id, extent: Extent { width, height } })
        .collect()
}

fn ids_of(l: &FrameLoop) -> Vec<u64> {
    l.targets.framebuffers.iter().map(|f| f.image).collect()
}

fn tick(width: u32, height: u32) -> WindowSignal {
    WindowSignal::RedrawTick { window: Extent { width, height } }
}

#[test]
fn setup_binds_one_framebuffer_per_image() {
    let t = window_size_dependent_setup(&images(&[10, 11, 12], 800, 600));
    assert_eq!(t.viewport, Viewport { width: 800, height: 600 });
    assert_eq!(
        t.framebuffers,
        vec![
            FramebufferBinding { image: 10, extent: Extent { width: 800, height: 600 } },
            FramebufferBinding { image: 11, extent: Extent { width: 800, height: 600 } },
            FramebufferBinding { image: 12, extent: Extent { width: 800, height: 600 } },
        ]
    );
}

#[test]
fn setup_with_one_pixel_images() {
    let t = window_size_dependent_setup(&images(&[5], 1, 1));
    assert_eq!(t.viewport, Viewport { width: 1, height: 1 });
    assert_eq!(t.framebuffers.len(), 1);
    assert_eq!(t.framebuffers[0].image, 5);
}

#[test]
fn frame_records_one_plain_draw_of_three_vertices() {
    let cmds = record_frame_commands(2);
    assert_eq!(
        cmds,
        vec![
            DrawCommand::BeginRenderPass { framebuffer: 2 },
            DrawCommand::Draw { vertex_count: 3, instance_count: 1, indexed: false },
            DrawCommand::EndRenderPass,
        ]
    );
    assert_eq!(TRIANGLE_VERTEX_COUNT, 3);
    let draws = cmds.iter().filter(|c| matches!(c, DrawCommand::Draw { .. })).count();
    assert_eq!(draws, 1);
}

#[test]
fn new_loop_starts_idle_with_completed_signal() {
    let l = FrameLoop::new(&images(&[1, 2], 640, 480));
    assert_eq!(l.stage, FrameStage::Idle);
    assert_eq!(l.frame_end, Some(FrameEnd::Completed));
    assert!(!l.recreate_pending);
    assert!(!l.exiting);
    assert_eq!(ids_of(&l), vec![1, 2]);
}

#[test]
fn full_frame_keeps_submission() {
    let mut l = FrameLoop::new(&images(&[1, 2, 3], 640, 480));
    assert_eq!(l.handle_event(tick(640, 480)), FrameAction::AcquireImage);
    assert_eq!(l.stage, FrameStage::Acquiring);
    let a = l.on_acquire(AcquireOutcome::Acquired { image_index: 2, suboptimal: false });
    assert_eq!(a, FrameAction::Draw { image_index: 2 });
    assert_eq!(l.frame_end, None);
    let cmds = l.frame_commands(2);
    assert_eq!(cmds[0], DrawCommand::BeginRenderPass { framebuffer: 2 });
    assert_eq!(cmds[1], DrawCommand::Draw { vertex_count: 3, instance_count: 1, indexed: false });
    assert_eq!(cmds.len(), 3);
    assert_eq!(l.on_flush(FlushOutcome::Flushed), FrameAction::KeepSubmission);
    assert_eq!(l.frame_end, Some(FrameEnd::Submitted));
    assert_eq!(l.stage, FrameStage::Idle);
    assert!(!l.recreate_pending);
}

#[test]
fn flush_out_of_date_resets_signal_and_asks_for_rebuild() {
    let mut l = FrameLoop::new(&images(&[1], 10, 10));
    l.handle_event(tick(10, 10));
    l.on_acquire(AcquireOutcome::Acquired { image_index: 0, suboptimal: false });
    assert_eq!(l.on_flush(FlushOutcome::OutOfDate), FrameAction::ResetFrameEnd { report: false });
    assert_eq!(l.frame_end, Some(FrameEnd::Completed));
    assert!(l.recreate_pending);
    assert_eq!(l.stage, FrameStage::Idle);
}

#[test]
fn flush_error_is_reported_and_absorbed() {
    let mut l = FrameLoop::new(&images(&[1], 10, 10));
    l.handle_event(tick(10, 10));
    l.on_acquire(AcquireOutcome::Acquired { image_index: 0, suboptimal: false });
    assert_eq!(l.on_flush(FlushOutcome::Failed), FrameAction::ResetFrameEnd { report: true });
    assert_eq!(l.frame_end, Some(FrameEnd::Completed));
    assert!(!l.recreate_pending);
    assert_eq!(l.handle_event(tick(10, 10)), FrameAction::AcquireImage);
}

#[test]
fn acquire_out_of_date_abandons_frame() {
    let mut l = FrameLoop::new(&images(&[1], 10, 10));
    l.handle_event(tick(10, 10));
    assert_eq!(l.on_acquire(AcquireOutcome::OutOfDate), FrameAction::AbandonFrame);
    assert!(l.recreate_pending);
    assert_eq!(l.frame_end, Some(FrameEnd::Completed));
    assert_eq!(l.stage, FrameStage::Idle);
    assert_eq!(
        l.handle_event(tick(20, 30)),
        FrameAction::RecreateSwapchain { extent: Extent { width: 20, height: 30 } }
    );
}

#[test]
fn suboptimal_image_is_drawn_and_rebuild_requested() {
    let mut l = FrameLoop::new(&images(&[1, 2], 10, 10));
    l.handle_event(tick(10, 10));
    let a = l.on_acquire(AcquireOutcome::Acquired { image_index: 1, suboptimal: true });
    assert_eq!(a, FrameAction::Draw { image_index: 1 });
    assert!(l.recreate_pending);
}

#[test]
fn acquire_errors_are_fatal() {
    let mut l = FrameLoop::new(&images(&[1, 2], 10, 10));
    l.handle_event(tick(10, 10));
    assert_eq!(l.on_acquire(AcquireOutcome::Failed), FrameAction::Fatal);
    let mut m = FrameLoop::new(&images(&[1, 2], 10, 10));
    m.handle_event(tick(10, 10));
    let a = m.on_acquire(AcquireOutcome::Acquired { image_index: 2, suboptimal: false });
    assert_eq!(a, FrameAction::Fatal);
    assert_eq!(m.frame_end, Some(FrameEnd::Completed));
}

#[test]
fn resize_then_tick_rebuilds_at_new_size() {
    let mut l = FrameLoop::new(&images(&[1, 2], 640, 480));
    assert_eq!(l.handle_event(WindowSignal::Resized), FrameAction::Continue);
    assert!(l.recreate_pending);
    assert_eq!(
        l.handle_event(tick(1024, 768)),
        FrameAction::RecreateSwapchain { extent: Extent { width: 1024, height: 768 } }
    );
    let a = l.on_recreate(RecreateOutcome::Rebuilt { images: images(&[7, 8, 9], 1024, 768) });
    assert_eq!(a, FrameAction::AcquireImage);
    assert!(!l.recreate_pending);
    assert_eq!(l.targets.viewport, Viewport { width: 1024, height: 768 });
    assert_eq!(ids_of(&l), vec![7, 8, 9]);
    assert!(l.targets.framebuffers.iter().all(|f| f.extent == Extent { width: 1024, height: 768 }));
}

#[test]
fn zero_size_rebuild_keeps_previous_targets() {
    let mut l = FrameLoop::new(&images(&[1, 2], 640, 480));
    l.handle_event(WindowSignal::Resized);
    assert_eq!(
        l.handle_event(tick(0, 0)),
        FrameAction::RecreateSwapchain { extent: Extent { width: 0, height: 0 } }
    );
    assert_eq!(l.on_recreate(RecreateOutcome::UnsupportedDimensions), FrameAction::AbandonFrame);
    assert_eq!(l.stage, FrameStage::Idle);
    assert!(l.recreate_pending);
    assert_eq!(ids_of(&l), vec![1, 2]);
    assert_eq!(l.targets.viewport, Viewport { width: 640, height: 480 });
    assert_eq!(l.frame_end, Some(FrameEnd::Completed));
    assert_eq!(
        l.handle_event(tick(300, 200)),
        FrameAction::RecreateSwapchain { extent: Extent { width: 300, height: 200 } }
    );
}

#[test]
fn failed_or_empty_rebuild_is_fatal() {
    let mut l = FrameLoop::new(&images(&[1], 10, 10));
    l.handle_event(WindowSignal::Resized);
    l.handle_event(tick(10, 10));
    assert_eq!(l.on_recreate(RecreateOutcome::Failed), FrameAction::Fatal);
    let mut m = FrameLoop::new(&images(&[1], 10, 10));
    m.handle_event(WindowSignal::Resized);
    m.handle_event(tick(10, 10));
    assert_eq!(m.on_recreate(RecreateOutcome::Rebuilt { images: Vec::new() }), FrameAction::Fatal);
    assert_eq!(ids_of(&m), vec![1]);
}

#[test]
fn no_frame_after_close() {
    let mut l = FrameLoop::new(&images(&[1], 10, 10));
    assert_eq!(l.handle_event(WindowSignal::CloseRequested), FrameAction::Exit);
    assert!(l.exiting);
    assert_eq!(l.handle_event(tick(10, 10)), FrameAction::Continue);
    assert_eq!(l.handle_event(WindowSignal::Resized), FrameAction::Continue);
    assert_eq!(l.handle_event(tick(50, 50)), FrameAction::Continue);
    assert_eq!(l.handle_event(WindowSignal::CloseRequested), FrameAction::Exit);
    assert_eq!(l.stage, FrameStage::Idle);
    assert_eq!(ids_of(&l), vec![1]);
}
