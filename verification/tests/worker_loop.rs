use frame_engine::error::EngineError;
use frame_engine::format::{FormatDescriptor, Fraction, PixelFormat};
use frame_engine::worker::{Message, Reply, RenderWorker, WorkerPhase};

fn descriptor(width: i32, height: i32) -> FormatDescriptor {
    FormatDescriptor {
        format: PixelFormat::Bgrx,
        width,
        height,
        rate: Fraction { numer: 30, denom: 1 },
    }
}

#[test]
fn set_format_creates_the_chain() {
    let mut w = RenderWorker::new();
    let reply = w.step(Message::SetFormat(descriptor(64, 64)), true);
    match reply {
        Reply::Configured(g) => {
            assert_eq!(g.width, 64);
            assert_eq!(g.stride, 256);
        }
        other => panic!("expected a configured reply, got {:?}", other),
    }
    assert!(w.chain.is_some());
    assert_eq!(w.config, Some(descriptor(64, 64)));
}

#[test]
fn handle_is_ready_only_after_configuration() {
    let mut w = RenderWorker::new();
    assert_eq!(
        w.step(Message::GetSwapChainHandle, true),
        Reply::Rejected(EngineError::StateError)
    );
    w.step(Message::SetFormat(descriptor(64, 64)), true);
    assert_eq!(w.step(Message::GetSwapChainHandle, true), Reply::HandleReady);
}

#[test]
fn rejected_descriptor_changes_nothing() {
    let mut w = RenderWorker::new();
    let reply = w.step(Message::SetFormat(descriptor(0, 64)), true);
    assert_eq!(reply, Reply::Rejected(EngineError::InvalidFormat));
    assert!(w.chain.is_none());
    assert!(matches!(w.phase, WorkerPhase::Running));
}

#[test]
fn allocation_failure_is_fatal_to_the_stream() {
    let mut w = RenderWorker::new();
    let reply = w.step(Message::SetFormat(descriptor(64, 64)), false);
    assert_eq!(reply, Reply::Rejected(EngineError::ResourceExhausted));
    assert!(matches!(w.phase, WorkerPhase::Failed));
    // a failed worker refuses everything but shutdown with a worker fault
    assert_eq!(
        w.step(Message::RenderFrame, true),
        Reply::Rejected(EngineError::WorkerFault)
    );
    assert_eq!(w.step(Message::Shutdown, true), Reply::ShutdownComplete);
}

#[test]
fn render_before_configuration_is_a_state_error() {
    let mut w = RenderWorker::new();
    assert_eq!(
        w.step(Message::RenderFrame, true),
        Reply::Rejected(EngineError::StateError)
    );
}

#[test]
fn render_produces_an_in_flight_frame() {
    let mut w = RenderWorker::new();
    w.step(Message::SetFormat(descriptor(64, 64)), true);
    assert_eq!(w.step(Message::RenderFrame, true), Reply::FrameReady);
    let chain = w.chain.expect("chain");
    let in_flight = [chain.first.state, chain.second.state]
        .iter()
        .filter(|s| matches!(s, frame_engine::swapchain::SlotState::InFlight))
        .count();
    assert_eq!(in_flight, 1);
}

#[test]
fn a_failed_draw_marks_the_worker_permanently_failed() {
    let mut w = RenderWorker::new();
    w.step(Message::SetFormat(descriptor(64, 64)), true);
    assert_eq!(
        w.step(Message::RenderFrame, false),
        Reply::Rejected(EngineError::WorkerFault)
    );
    assert!(matches!(w.phase, WorkerPhase::Failed));
    assert_eq!(
        w.step(Message::RenderFrame, true),
        Reply::Rejected(EngineError::WorkerFault)
    );
    assert_eq!(
        w.step(Message::SetFormat(descriptor(64, 64)), true),
        Reply::Rejected(EngineError::WorkerFault)
    );
}

#[test]
fn resize_message_replaces_the_geometry() {
    let mut w = RenderWorker::new();
    w.step(Message::SetFormat(descriptor(64, 64)), true);
    let g = match w.step(Message::SetFormat(descriptor(128, 128)), true) {
        Reply::Configured(g) => g,
        other => panic!("expected a configured reply, got {:?}", other),
    };
    assert_eq!(g.width, 128);
    let reply = w.step(Message::Resize(g), true);
    assert_eq!(reply, Reply::Configured(g));
    assert_eq!(w.chain.expect("chain").geometry, g);
}

#[test]
fn shutdown_then_render_yields_a_state_error_not_a_hang() {
    let mut w = RenderWorker::new();
    w.step(Message::SetFormat(descriptor(64, 64)), true);
    assert_eq!(w.step(Message::Shutdown, true), Reply::ShutdownComplete);
    assert!(matches!(w.phase, WorkerPhase::Stopped));
    assert!(w.chain.is_none());
    assert_eq!(
        w.step(Message::RenderFrame, true),
        Reply::Rejected(EngineError::StateError)
    );
}

#[test]
fn shutdown_is_idempotent() {
    let mut w = RenderWorker::new();
    assert_eq!(w.step(Message::Shutdown, true), Reply::ShutdownComplete);
    assert_eq!(w.step(Message::Shutdown, true), Reply::ShutdownComplete);
}
