//! The control façade: the object the host drives.
//!
//! It bridges host lifecycle calls to the render worker's message loop,
//! and serves the synchronous, GPU-free calls — pixel conversion and frame
//! pacing — on the calling thread. In the running system the worker lives
//! on its own thread behind a channel; here every exchange with it is the
//! worker's verified step function, so the façade's decisions are the same
//! whether the reply arrives by return value or by channel.

use vstd::prelude::*;
use crate::error::EngineError;
use crate::format::{FormatDescriptor, FrameGeometry};
use crate::pacer::FramePacer;
use crate::swapchain::Surface;
use crate::transform::{transform, transform_spec};
use crate::worker::{Message, RenderWorker, Reply, WorkerPhase};

verus! {

/// The formats the stages have agreed on: an explicit tagged state, so
/// every operation pattern-matches it and answers a state error in the
/// wrong state instead of trusting an implicit null check.
#[derive(Clone, Copy, Debug, PartialEq, Eq, Structural)]
pub enum NegotiationState {
    /// No format has been agreed yet.
    Unconfigured,
    /// The agreed input and output descriptors, immutable until the next
    /// renegotiation replaces them wholesale.
    Configured {
        /// What this stage consumes.
        input: FormatDescriptor,
        /// What this stage produces.
        output: FormatDescriptor,
    },
}

/// The façade's lifecycle phase.
#[derive(Clone, Copy, Debug, PartialEq, Eq, Structural)]
pub enum FacadePhase {
    /// No format agreed; frame calls answer a state error.
    Unconfigured,
    /// A format is agreed; no frame has flowed yet.
    Configured,
    /// Frames are flowing.
    Streaming,
    /// Stopped; the worker has shut down.
    Stopped,
}

/// What one produce call came to.
#[derive(Clone, Copy, Debug, PartialEq, Eq, Structural)]
pub enum ProduceOutcome {
    /// A completed frame, checked out to the host until recycled.
    Produced(Surface),
    /// No frame was ready; the host proceeds without one and retries
    /// after its next pacing interval.
    NotReady,
    /// The stream cannot produce: not configured, or the worker refused.
    Failed(EngineError),
}

/// The control façade's state.
#[derive(Clone, Copy, Debug, PartialEq, Eq, Structural)]
pub struct ControlFacade {
    /// The lifecycle phase.
    pub phase: FacadePhase,
    /// The agreed formats, owned exclusively by the façade.
    pub negotiated: NegotiationState,
    /// The render worker this façade drives.
    pub worker: RenderWorker,
    /// The pacer throttling produce calls on the streaming thread.
    pub pacer: FramePacer,
}

impl ControlFacade {
    /// Well-formedness: the worker is sound; while configured or streaming
    /// the negotiated descriptors exist, are acceptable, agree on
    /// dimensions, and the worker holds a chain; once stopped everything
    /// is released.
    pub open spec fn wf(self) -> bool {
        &&& self.worker.wf()
        &&& (self.phase is Configured || self.phase is Streaming) ==> ({
            &&& self.negotiated matches NegotiationState::Configured { input, output }
                && input.acceptable() && output.acceptable() && input.width == output.width
                && input.height == output.height
            &&& self.worker.chain is Some
            &&& !(self.worker.phase is Stopped)
        })
        &&& (self.phase is Unconfigured || self.phase is Stopped) ==> self.negotiated
            is Unconfigured
        &&& self.phase is Stopped ==> self.worker.phase is Stopped
    }

    /// A fresh, unconfigured façade with a worker ready for its first
    /// format and a pacer defaulting to sixty frames per second.
    pub fn new() -> (f: ControlFacade)
        ensures
            f.phase is Unconfigured,
            f.negotiated is Unconfigured,
            f.worker == (RenderWorker {
                phase: WorkerPhase::Running,
                chain: None,
                config: None,
            }),
            f.pacer.period_micros == 16_667,
            f.pacer.next_frame_micros == 0,
            f.wf(),
    {
        ControlFacade {
            phase: FacadePhase::Unconfigured,
            negotiated: NegotiationState::Unconfigured,
            worker: RenderWorker::new(),
            pacer: FramePacer::new(16_667),
        }
    }

    /// The pacer the façade carries after a format whose rate is `rate`
    /// was accepted: the period follows the rate when one is set, and the
    /// running schedule is never reset mid-stream.
    pub open spec fn spec_repaced(self, d: FormatDescriptor) -> FramePacer {
        FramePacer {
            period_micros: if d.rate.numer > 0 {
                (1_000_000 * (d.rate.denom as int) / (d.rate.numer as int)) as u64
            } else {
                self.pacer.period_micros
            },
            next_frame_micros: self.pacer.next_frame_micros,
        }
    }

    /// What agreeing on formats yields: mismatched dimensions can never be
    /// transformed, so they fail negotiation outright; otherwise the
    /// worker creates or resizes its chain for the output descriptor, and
    /// success (re)enters the configured phase — from streaming too,
    /// without destroying the worker — and repaces production.
    pub open spec fn spec_set_format(
        self,
        input: FormatDescriptor,
        output: FormatDescriptor,
        gpu_ok: bool,
    ) -> (ControlFacade, Result<FrameGeometry, EngineError>) {
        if self.phase is Stopped {
            (self, Err(EngineError::StateError))
        } else if !input.acceptable() || !output.acceptable() {
            (self, Err(EngineError::InvalidFormat))
        } else if input.width != output.width || input.height != output.height {
            (self, Err(EngineError::NegotiationFailure))
        } else {
            let stepped = self.worker.spec_step(Message::SetFormat(output), gpu_ok);
            match stepped.1 {
                Reply::Configured(g) => (
                    ControlFacade {
                        phase: FacadePhase::Configured,
                        negotiated: NegotiationState::Configured { input, output },
                        worker: stepped.0,
                        pacer: self.spec_repaced(output),
                    },
                    Ok(g),
                ),
                Reply::Rejected(e) => (
                    ControlFacade { worker: stepped.0, ..self },
                    Err(e),
                ),
                _ => (ControlFacade { worker: stepped.0, ..self }, Err(EngineError::StateError)),
            }
        }
    }

    /// Agrees on the stage's input and output formats.
    ///
    /// `gpu_ok` is the host's report of whether surface allocation for the
    /// new geometry succeeded. On success the derived output geometry is
    /// returned; every failure leaves the negotiated state as it was.
    pub fn set_format(
        &mut self,
        input: FormatDescriptor,
        output: FormatDescriptor,
        gpu_ok: bool,
    ) -> (r: Result<FrameGeometry, EngineError>)
        requires
            old(self).wf(),
        ensures
            r == old(self).spec_set_format(input, output, gpu_ok).1,
            *final(self) == old(self).spec_set_format(input, output, gpu_ok).0,
            final(self).wf(),
    {
        if matches!(self.phase, FacadePhase::Stopped) {
            return Err(EngineError::StateError);
        }
        if !(input.width > 0 && input.height > 0 && input.rate.denom > 0) || !(output.width > 0
            && output.height > 0 && output.rate.denom > 0) {
            return Err(EngineError::InvalidFormat);
        }
        if input.width != output.width || input.height != output.height {
            return Err(EngineError::NegotiationFailure);
        }
        let reply = self.worker.step(Message::SetFormat(output), gpu_ok);
        match reply {
            Reply::Configured(g) => {
                self.phase = FacadePhase::Configured;
                self.negotiated = NegotiationState::Configured { input, output };
                if let Some(p) = FramePacer::period_micros_for(&output.rate) {
                    self.pacer.period_micros = p;
                }
                Ok(g)
            },
            Reply::Rejected(e) => Err(e),
            _ => Err(EngineError::StateError),
        }
    }

    /// What one produce call yields: outside the configured phases a
    /// state error; otherwise the worker renders one frame and the façade
    /// immediately takes the completed surface for the host. The first
    /// produced frame moves the stream to the streaming phase.
    pub open spec fn spec_produce(self, gpu_ok: bool) -> (ControlFacade, ProduceOutcome) {
        if !(self.phase is Configured || self.phase is Streaming) {
            (self, ProduceOutcome::Failed(EngineError::StateError))
        } else {
            let stepped = self.worker.spec_step(Message::RenderFrame, gpu_ok);
            match stepped.1 {
                Reply::FrameReady => {
                    let c = stepped.0.chain->Some_0;
                    let taken = c.spec_take();
                    let w = RenderWorker { chain: Some(taken.1), ..stepped.0 };
                    match taken.0 {
                        Some(s) => (
                            ControlFacade { phase: FacadePhase::Streaming, worker: w, ..self },
                            ProduceOutcome::Produced(s),
                        ),
                        None => (
                            ControlFacade { worker: w, ..self },
                            ProduceOutcome::NotReady,
                        ),
                    }
                },
                Reply::NotReady => (
                    ControlFacade { worker: stepped.0, ..self },
                    ProduceOutcome::NotReady,
                ),
                Reply::Rejected(e) => (
                    ControlFacade { worker: stepped.0, ..self },
                    ProduceOutcome::Failed(e),
                ),
                _ => (
                    ControlFacade { worker: stepped.0, ..self },
                    ProduceOutcome::Failed(EngineError::StateError),
                ),
            }
        }
    }

    /// Produces one frame: the worker draws into a free surface — `gpu_ok`
    /// reports whether its graphics calls succeeded — and the completed
    /// frame is checked out to the host, which must recycle it when done.
    pub fn produce(&mut self, gpu_ok: bool) -> (r: ProduceOutcome)
        requires
            old(self).wf(),
        ensures
            r == old(self).spec_produce(gpu_ok).1,
            *final(self) == old(self).spec_produce(gpu_ok).0,
            final(self).wf(),
    {
        if !(matches!(self.phase, FacadePhase::Configured) || matches!(
            self.phase,
            FacadePhase::Streaming,
        )) {
            return ProduceOutcome::Failed(EngineError::StateError);
        }
        let reply = self.worker.step(Message::RenderFrame, gpu_ok);
        match reply {
            Reply::FrameReady => {
                match self.worker.chain {
                    Some(c0) => {
                        let mut c = c0;
                        let taken = c.take_surface();
                        self.worker.chain = Some(c);
                        match taken {
                            Some(s) => {
                                self.phase = FacadePhase::Streaming;
                                ProduceOutcome::Produced(s)
                            },
                            None => ProduceOutcome::NotReady,
                        }
                    },
                    None => {
                        // a frame was just rendered, so the chain exists
                        proof {
                            assert(false);
                        }
                        ProduceOutcome::Failed(EngineError::StateError)
                    },
                }
            },
            Reply::NotReady => ProduceOutcome::NotReady,
            Reply::Rejected(e) => ProduceOutcome::Failed(e),
            _ => ProduceOutcome::Failed(EngineError::StateError),
        }
    }

    /// What recycling yields: the chain takes the surface back; without a
    /// chain the handle is stale and the call a state error.
    pub open spec fn spec_recycle(self, s: Surface) -> (ControlFacade, Result<(), EngineError>) {
        match self.worker.chain {
            None => (self, Err(EngineError::StateError)),
            Some(c) => {
                let rec = c.spec_recycle(s);
                (
                    ControlFacade {
                        worker: RenderWorker { chain: Some(rec.1), ..self.worker },
                        ..self
                    },
                    rec.0,
                )
            },
        }
    }

    /// Returns a checked-out surface to the chain's free pool. Safe to
    /// call from the consuming thread without a worker round-trip: surface
    /// ownership transfer is the only synchronization needed.
    pub fn recycle(&mut self, s: Surface) -> (r: Result<(), EngineError>)
        requires
            old(self).wf(),
        ensures
            r == old(self).spec_recycle(s).1,
            *final(self) == old(self).spec_recycle(s).0,
            final(self).wf(),
    {
        match self.worker.chain {
            None => Err(EngineError::StateError),
            Some(c0) => {
                let mut c = c0;
                let r = c.recycle_surface(s);
                self.worker.chain = Some(c);
                r
            },
        }
    }

    /// How long the streaming thread should wait before its next produce
    /// call, given the wall-clock microseconds since stream start. Advances
    /// the pacing schedule by one period.
    pub fn next_delay(&mut self, elapsed_micros: u64) -> (delay: u64)
        requires
            old(self).pacer.next_frame_micros + old(self).pacer.period_micros <= u64::MAX,
        ensures
            delay == crate::pacer::delay_for(old(self).pacer.next_frame_micros, elapsed_micros),
            delay <= crate::pacer::MAX_DELAY_MICROS,
            final(self).pacer.period_micros == old(self).pacer.period_micros,
            final(self).pacer.next_frame_micros == old(self).pacer.next_frame_micros + old(
                self,
            ).pacer.period_micros,
            final(self).phase == old(self).phase,
            final(self).negotiated == old(self).negotiated,
            final(self).worker == old(self).worker,
            old(self).wf() ==> final(self).wf(),
    {
        self.pacer.next_delay(elapsed_micros)
    }

    /// What stopping yields: the negotiated state is released and the
    /// worker shuts down, destroying the chain deterministically before
    /// its thread would exit.
    pub open spec fn spec_stop(self) -> ControlFacade {
        ControlFacade {
            phase: FacadePhase::Stopped,
            negotiated: NegotiationState::Unconfigured,
            worker: self.worker.spec_shutdown(),
            pacer: self.pacer,
        }
    }

    /// Stops the stream: releases the negotiated state and forwards
    /// shutdown to the worker. Idempotent; consumer handles are invalid
    /// afterwards.
    pub fn stop(&mut self)
        requires
            old(self).wf(),
        ensures
            *final(self) == old(self).spec_stop(),
            final(self).wf(),
    {
        let _ = self.worker.step(Message::Shutdown, true);
        self.phase = FacadePhase::Stopped;
        self.negotiated = NegotiationState::Unconfigured;
    }

    /// Converts one frame from the negotiated input format into the
    /// negotiated output format, on the calling thread — the transform
    /// role's synchronous `consume`. Outside the configured phases it
    /// answers a state error without touching the output.
    pub fn consume(&self, in_data: &Vec<u8>, out_data: &mut Vec<u8>) -> (r: Result<
        (),
        EngineError,
    >)
        requires
            self.wf(),
            self.negotiated matches NegotiationState::Configured { input, output } ==> (
            in_data@.len() == input.derived_geometry().size && old(out_data)@.len()
                == output.derived_geometry().size),
        ensures
            !(self.phase is Configured || self.phase is Streaming) ==> r == Err::<
                (),
                EngineError,
            >(EngineError::StateError) && final(out_data)@ == old(out_data)@,
            (self.phase is Configured || self.phase is Streaming) ==> (
            self.negotiated matches NegotiationState::Configured { input, output } ==> ({
                let gi = input.derived_geometry();
                let go = output.derived_geometry();
                &&& r is Ok <==> (gi.format is Bgrx && go.format is Bgrx)
                &&& r is Ok ==> final(out_data)@ == transform_spec(
                    gi,
                    in_data@,
                    go,
                    old(out_data)@,
                )
                &&& r is Err ==> final(out_data)@ == old(out_data)@ && r == Err::<
                    (),
                    EngineError,
                >(EngineError::UnsupportedFormat)
            })),
    {
        if !(matches!(self.phase, FacadePhase::Configured) || matches!(
            self.phase,
            FacadePhase::Streaming,
        )) {
            return Err(EngineError::StateError);
        }
        match self.negotiated {
            NegotiationState::Unconfigured => {
                // the configured phases always carry negotiated formats
                proof {
                    assert(false);
                }
                Err(EngineError::StateError)
            },
            NegotiationState::Configured { input, output } => {
                let gi = match crate::negotiate::validate(&input) {
                    Ok(g) => g,
                    Err(_) => {
                        proof {
                            assert(false);
                        }
                        return Err(EngineError::StateError);
                    },
                };
                let go = match crate::negotiate::validate(&output) {
                    Ok(g) => g,
                    Err(_) => {
                        proof {
                            assert(false);
                        }
                        return Err(EngineError::StateError);
                    },
                };
                transform(&gi, in_data, &go, out_data)
            },
        }
    }
}

} // verus!
