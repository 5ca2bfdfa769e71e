use frame_engine::error::EngineError;
use frame_engine::facade::{ControlFacade, FacadePhase, ProduceOutcome};
use frame_engine::format::{FormatDescriptor, Fraction, PixelFormat};
use frame_engine::swapchain::SlotState;

fn descriptor(width: i32, height: i32, numer: u32, denom: u32) -> FormatDescriptor {
    FormatDescriptor {
        format: PixelFormat::Bgrx,
        width,
        height,
        rate: Fraction { numer, denom },
    }
}

fn in_flight_count(f: &ControlFacade) -> usize {
    match f.worker.chain {
        None => 0,
        Some(c) => [c.first.state, c.second.state]
            .iter()
            .filter(|s| matches!(s, SlotState::InFlight))
            .count(),
    }
}

#[test]
fn end_to_end_90_frames_at_30_fps() {
    let mut f = ControlFacade::new();
    let d = descriptor(64, 64, 30, 1);
    let g = f.set_format(d, d, true).expect("negotiation");
    assert_eq!(g.width, 64);
    assert_eq!(g.size, 64 * 64 * 4);
    assert_eq!(f.pacer.period_micros, 33_333);

    let mut clock: u64 = 0;
    for frame in 0..90 {
        let delay = f.next_delay(clock);
        clock += delay; // sleep
        clock += 500; // render work
        match f.produce(true) {
            ProduceOutcome::Produced(s) => {
                f.recycle(s).expect("recycle");
            }
            other => panic!("frame {frame} not produced: {other:?}"),
        }
        // the chain never holds two completed frames at once
        assert!(in_flight_count(&f) <= 1);
    }
    assert!(matches!(f.phase, FacadePhase::Streaming));

    // frame 90 is scheduled at three seconds, within one frame period
    let target: u64 = 3_000_000;
    let period: u64 = 33_333;
    assert!(f.pacer.next_frame_micros + period > target);
    assert!(f.pacer.next_frame_micros < target + period);
    // and the simulated clock converged to the schedule
    assert!(clock < target + period);
    assert!(clock + period > target);

    // steady-state production never allocated beyond the initial surfaces
    assert_eq!(f.worker.chain.expect("chain").allocations, 2);
}

#[test]
fn produce_before_configuration_is_a_state_error() {
    let mut f = ControlFacade::new();
    assert_eq!(
        f.produce(true),
        ProduceOutcome::Failed(EngineError::StateError)
    );
}

#[test]
fn consume_before_configuration_is_a_state_error() {
    let f = ControlFacade::new();
    let input: Vec<u8> = vec![0; 16];
    let mut output: Vec<u8> = vec![0; 16];
    assert_eq!(
        f.consume(&input, &mut output),
        Err(EngineError::StateError)
    );
}

#[test]
fn consume_transforms_through_the_negotiated_formats() {
    let mut f = ControlFacade::new();
    let d = descriptor(2, 2, 30, 1);
    f.set_format(d, d, true).expect("negotiation");
    let input: Vec<u8> = vec![40, 10, 200, 255].repeat(4);
    let mut output: Vec<u8> = vec![0; 16];
    f.consume(&input, &mut output).expect("conversion");
    for pixel in output.chunks(4) {
        assert_eq!(pixel, [20, 132, 100, 255]);
    }
}

#[test]
fn negotiation_rejects_mismatched_dimensions() {
    let mut f = ControlFacade::new();
    let r = f.set_format(descriptor(64, 64, 30, 1), descriptor(128, 128, 30, 1), true);
    assert_eq!(r, Err(EngineError::NegotiationFailure));
    assert!(matches!(f.phase, FacadePhase::Unconfigured));
}

#[test]
fn negotiation_rejects_an_invalid_descriptor() {
    let mut f = ControlFacade::new();
    let r = f.set_format(descriptor(64, 0, 30, 1), descriptor(64, 0, 30, 1), true);
    assert_eq!(r, Err(EngineError::InvalidFormat));
}

#[test]
fn renegotiation_reenters_configured_without_a_new_worker() {
    let mut f = ControlFacade::new();
    f.set_format(descriptor(64, 64, 30, 1), descriptor(64, 64, 30, 1), true)
        .expect("first negotiation");
    match f.produce(true) {
        ProduceOutcome::Produced(s) => f.recycle(s).expect("recycle"),
        other => panic!("no frame: {other:?}"),
    }
    assert!(matches!(f.phase, FacadePhase::Streaming));
    let g = f
        .set_format(descriptor(128, 128, 60, 1), descriptor(128, 128, 60, 1), true)
        .expect("renegotiation");
    assert_eq!(g.width, 128);
    assert!(matches!(f.phase, FacadePhase::Configured));
    assert_eq!(f.pacer.period_micros, 16_666);
    // the same chain was resized in place, ready to produce again
    match f.produce(true) {
        ProduceOutcome::Produced(s) => f.recycle(s).expect("recycle"),
        other => panic!("no frame after renegotiation: {other:?}"),
    }
}

#[test]
fn stop_releases_everything_and_refuses_further_work() {
    let mut f = ControlFacade::new();
    f.set_format(descriptor(64, 64, 30, 1), descriptor(64, 64, 30, 1), true)
        .expect("negotiation");
    f.stop();
    assert!(matches!(f.phase, FacadePhase::Stopped));
    assert_eq!(
        f.produce(true),
        ProduceOutcome::Failed(EngineError::StateError)
    );
    let r = f.set_format(descriptor(64, 64, 30, 1), descriptor(64, 64, 30, 1), true);
    assert_eq!(r, Err(EngineError::StateError));
}

#[test]
fn a_worker_fault_surfaces_and_persists() {
    let mut f = ControlFacade::new();
    f.set_format(descriptor(64, 64, 30, 1), descriptor(64, 64, 30, 1), true)
        .expect("negotiation");
    assert_eq!(
        f.produce(false),
        ProduceOutcome::Failed(EngineError::WorkerFault)
    );
    assert_eq!(
        f.produce(true),
        ProduceOutcome::Failed(EngineError::WorkerFault)
    );
}

#[test]
fn an_allocation_failure_surfaces_as_resource_exhaustion() {
    let mut f = ControlFacade::new();
    let r = f.set_format(descriptor(64, 64, 30, 1), descriptor(64, 64, 30, 1), false);
    assert_eq!(r, Err(EngineError::ResourceExhausted));
}
