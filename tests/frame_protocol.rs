use renderer::frame::{
    AcquireOutcome, CurrentFrame, FrameAction, FrameEvent, FrameOrchestrator, FrameOutcome,
    FramePhase, PresentOutcome, MAX_FRAMES_IN_FLIGHT,
};

/// Drives one frame through the orchestrator the way the shell does, with the
/// given acquire outcome; `uniforms` stands for the slots' uniform buffers and
/// `traced` collects, per submitted frame, the camera block the trace reads.
fn run_frame(
    o: &mut FrameOrchestrator,
    frame_id: u64,
    acquire: AcquireOutcome,
    present: PresentOutcome,
    uniforms: &mut [u64; 2],
    traced: &mut Vec<(u64, u64)>,
) -> FrameAction {
    let mut action = o.step(FrameEvent::Begin);
    loop {
        assert!(o.in_flight_count() <= MAX_FRAMES_IN_FLIGHT);
        let event = match action {
            FrameAction::WaitForFence { .. } => FrameEvent::FenceSignaled,
            FrameAction::WriteUniform { slot } => {
                uniforms[slot as usize] = frame_id;
                FrameEvent::UniformWritten
            }
            FrameAction::AcquireImage { .. } => FrameEvent::Acquire(acquire),
            FrameAction::RecordAndSubmit { slot, .. } => {
                traced.push((frame_id, uniforms[slot as usize]));
                FrameEvent::Submitted
            }
            FrameAction::Present { .. } => FrameEvent::Present(present),
            FrameAction::RecreateSwapchain => FrameEvent::Recreated,
            other => return other,
        };
        action = o.step(event);
    }
}

fn acquired() -> AcquireOutcome {
    AcquireOutcome::Acquired { image_index: 0, suboptimal: false }
}

#[test]
fn current_frame_cycles_through_slots() {
    assert_eq!(CurrentFrame(0).next(), 1);
    assert_eq!(CurrentFrame(1).next(), 0);
    assert_eq!(CurrentFrame::default().0, 0);
}

#[test]
fn five_frames_alternate_slots() {
    let mut o = FrameOrchestrator::new();
    let mut uniforms = [0u64; 2];
    let mut traced = Vec::new();
    for id in 0..5u64 {
        let a = run_frame(&mut o, id, acquired(), PresentOutcome::Presented, &mut uniforms, &mut traced);
        assert_eq!(a, FrameAction::Finished(FrameOutcome::Rendered));
    }
    assert_eq!(o.frames_submitted(), 5);
    assert_eq!(o.slot_uses(0), 3);
    assert_eq!(o.slot_uses(1), 2);
    assert_eq!(o.phase(), FramePhase::Idle);
    assert_eq!(o.slot(), 1);
}

#[test]
fn out_of_date_acquire_skips_the_frame() {
    let mut o = FrameOrchestrator::new();
    let mut uniforms = [0u64; 2];
    let mut traced = Vec::new();
    let mut results = Vec::new();
    for call in 1..=4u64 {
        let acquire = if call == 3 { AcquireOutcome::OutOfDate } else { acquired() };
        results.push(run_frame(&mut o, call, acquire, PresentOutcome::Presented, &mut uniforms, &mut traced));
    }
    assert_eq!(results[2], FrameAction::Finished(FrameOutcome::Skipped));
    assert_eq!(o.recreations(), 1);
    assert_eq!(o.frames_submitted(), 3);
    assert_eq!(traced.len(), 3);
    assert!(traced.iter().all(|&(id, _)| id != 3));
}

#[test]
fn trace_reads_the_camera_block_of_its_own_frame() {
    let mut o = FrameOrchestrator::new();
    let mut uniforms = [u64::MAX; 2];
    let mut traced = Vec::new();
    for id in 10..20u64 {
        run_frame(&mut o, id, acquired(), PresentOutcome::Presented, &mut uniforms, &mut traced);
    }
    assert_eq!(traced.len(), 10);
    for (id, read) in traced {
        assert_eq!(id, read);
    }
}

#[test]
fn in_flight_work_never_exceeds_the_slots() {
    let mut o = FrameOrchestrator::new();
    assert_eq!(o.in_flight_count(), 0);
    assert_eq!(o.step(FrameEvent::Begin), FrameAction::WaitForFence { slot: 0 });
    assert_eq!(o.step(FrameEvent::FenceSignaled), FrameAction::WriteUniform { slot: 0 });
    assert_eq!(o.step(FrameEvent::UniformWritten), FrameAction::AcquireImage { slot: 0 });
    assert_eq!(
        o.step(FrameEvent::Acquire(AcquireOutcome::Acquired { image_index: 2, suboptimal: true })),
        FrameAction::RecordAndSubmit { slot: 0, image_index: 2 }
    );
    assert_eq!(o.step(FrameEvent::Submitted), FrameAction::Present { slot: 0, image_index: 2 });
    assert_eq!(o.in_flight_count(), 1);
    assert_eq!(
        o.step(FrameEvent::Present(PresentOutcome::Presented)),
        FrameAction::Finished(FrameOutcome::Rendered)
    );
    let mut uniforms = [0u64; 2];
    let mut traced = Vec::new();
    run_frame(&mut o, 1, acquired(), PresentOutcome::Presented, &mut uniforms, &mut traced);
    assert_eq!(o.in_flight_count(), 2);
    // the third frame reuses slot 0 only after its fence
    assert_eq!(o.step(FrameEvent::Begin), FrameAction::WaitForFence { slot: 0 });
    assert_eq!(o.in_flight_count(), 2);
    o.step(FrameEvent::FenceSignaled);
    assert_eq!(o.in_flight_count(), 1);
}

#[test]
fn present_out_of_date_rebuilds_after_rendering() {
    let mut o = FrameOrchestrator::new();
    let mut uniforms = [0u64; 2];
    let mut traced = Vec::new();
    let a = run_frame(&mut o, 0, acquired(), PresentOutcome::OutOfDate, &mut uniforms, &mut traced);
    assert_eq!(a, FrameAction::Finished(FrameOutcome::Rendered));
    assert_eq!(o.recreations(), 1);
    assert_eq!(o.slot(), 1);
    let a = run_frame(&mut o, 1, acquired(), PresentOutcome::Suboptimal, &mut uniforms, &mut traced);
    assert_eq!(a, FrameAction::Finished(FrameOutcome::Rendered));
    assert_eq!(o.recreations(), 2);
}

#[test]
fn device_errors_are_fatal() {
    let mut o = FrameOrchestrator::new();
    let mut uniforms = [0u64; 2];
    let mut traced = Vec::new();
    let a = run_frame(&mut o, 0, AcquireOutcome::Failed(-4), PresentOutcome::Presented, &mut uniforms, &mut traced);
    assert_eq!(a, FrameAction::Fatal(-4));
    let a = run_frame(&mut o, 0, acquired(), PresentOutcome::Failed(-3), &mut uniforms, &mut traced);
    assert_eq!(a, FrameAction::Fatal(-3));
    assert_eq!(o.frames_submitted(), 1);
    assert_eq!(o.slot(), 1);
    o.step(FrameEvent::Begin);
    assert_eq!(o.step(FrameEvent::DeviceError(-1)), FrameAction::Fatal(-1));
    assert_eq!(o.phase(), FramePhase::Idle);
}

#[test]
fn events_out_of_order_change_nothing() {
    let mut o = FrameOrchestrator::new();
    assert_eq!(o.step(FrameEvent::Submitted), FrameAction::OutOfOrder);
    assert_eq!(o.step(FrameEvent::DeviceError(-1)), FrameAction::OutOfOrder);
    o.step(FrameEvent::Begin);
    assert_eq!(o.step(FrameEvent::UniformWritten), FrameAction::OutOfOrder);
    assert_eq!(o.phase(), FramePhase::AwaitingFence);
    assert_eq!(o.frames_submitted(), 0);
}
