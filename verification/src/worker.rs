//! The render worker: a state machine that serializes every graphics
//! operation of the stream.
//!
//! In the running system a dedicated thread holds exclusive ownership of
//! one graphics device/context pair for its entire lifetime and executes
//! one message at a time from a channel. The decisions that loop makes are
//! this module's `step` function, a pure map from state, message and
//! graphics outcome to next state and reply; the host performs the actual
//! context calls and reports whether they succeeded.

use vstd::prelude::*;
use crate::error::EngineError;
use crate::format::{FormatDescriptor, FrameGeometry};
use crate::negotiate::validate;
use crate::swapchain::SwapChain;

verus! {

/// A request sent to the render worker. Variants that need a synchronous
/// answer get one in the worker's [`Reply`].
#[derive(Clone, Copy, Debug, PartialEq, Eq, Structural)]
pub enum Message {
    /// Ask whether the worker's swap chain is up: the reply is the
    /// bounded startup handshake the constructing thread blocks on.
    GetSwapChainHandle,
    /// Replace the swap chain's geometry.
    Resize(FrameGeometry),
    /// Negotiate a new output descriptor, creating or resizing the chain.
    SetFormat(FormatDescriptor),
    /// Draw one frame into a free surface and publish it.
    RenderFrame,
    /// Tear the stream down; the chain is destroyed before the worker
    /// stops.
    Shutdown,
}

/// The worker's answer to one message.
#[derive(Clone, Copy, Debug, PartialEq, Eq, Structural)]
pub enum Reply {
    /// The swap chain exists and can be shared with the consumer.
    HandleReady,
    /// The format was accepted; the chain now has this geometry.
    Configured(FrameGeometry),
    /// A frame was rendered and is in flight to the consumer.
    FrameReady,
    /// No surface is free to draw into; the caller proceeds without a
    /// frame.
    NotReady,
    /// The message was refused with this error.
    Rejected(EngineError),
    /// The worker has destroyed its resources and stopped.
    ShutdownComplete,
}

/// The worker's lifecycle phase.
#[derive(Clone, Copy, Debug, PartialEq, Eq, Structural)]
pub enum WorkerPhase {
    /// Serving messages.
    Running,
    /// A graphics call failed; every message but shutdown is refused.
    Failed,
    /// Shut down; resources are released.
    Stopped,
}

/// The render worker's state: its phase, the swap chain it owns once a
/// format is configured, and the configured descriptor.
#[derive(Clone, Copy, Debug, PartialEq, Eq, Structural)]
pub struct RenderWorker {
    /// The lifecycle phase.
    pub phase: WorkerPhase,
    /// The swap chain, once a format is configured and until shutdown.
    pub chain: Option<SwapChain>,
    /// The configured output descriptor, if any.
    pub config: Option<FormatDescriptor>,
}

impl RenderWorker {
    /// Well-formedness: an existing chain is valid and alive, and a
    /// stopped worker holds none.
    pub open spec fn wf(self) -> bool {
        &&& self.chain matches Some(c) ==> c.wf() && !c.destroyed
        &&& self.phase is Stopped ==> self.chain is None
    }

    /// A worker that has not yet been configured.
    pub fn new() -> (w: RenderWorker)
        ensures
            w == (RenderWorker { phase: WorkerPhase::Running, chain: None, config: None }),
            w.wf(),
    {
        RenderWorker { phase: WorkerPhase::Running, chain: None, config: None }
    }

    /// What shutdown yields: any checked-out surface is revoked, the chain
    /// destroyed, and the worker stops. Shutting down an already stopped
    /// worker changes nothing; both answer with completion.
    pub open spec fn spec_shutdown(self) -> RenderWorker {
        RenderWorker { phase: WorkerPhase::Stopped, chain: None, config: self.config }
    }

    /// What configuring a format yields, given whether surface allocation
    /// succeeded: a rejected descriptor changes nothing; a first format
    /// creates the chain (an allocation failure is fatal to the stream); a
    /// renegotiation resizes the existing chain in place.
    pub open spec fn spec_set_format(self, d: FormatDescriptor, gpu_ok: bool) -> (
        RenderWorker,
        Reply,
    ) {
        if !d.acceptable() {
            (self, Reply::Rejected(EngineError::InvalidFormat))
        } else {
            let g = d.derived_geometry();
            match self.chain {
                None => {
                    if gpu_ok {
                        (
                            RenderWorker {
                                chain: Some(SwapChain::spec_create(g)),
                                config: Some(d),
                                ..self
                            },
                            Reply::Configured(g),
                        )
                    } else {
                        (
                            RenderWorker { phase: WorkerPhase::Failed, ..self },
                            Reply::Rejected(EngineError::ResourceExhausted),
                        )
                    }
                },
                Some(c) => {
                    let resized = c.spec_resize(g);
                    match resized.0 {
                        Ok(_) => (
                            RenderWorker { chain: Some(resized.1), config: Some(d), ..self },
                            Reply::Configured(g),
                        ),
                        Err(e) => (self, Reply::Rejected(e)),
                    }
                },
            }
        }
    }

    /// What resizing yields: a malformed geometry is rejected, resizing
    /// without a chain is a state error, and otherwise the swap chain's
    /// own resize decides.
    pub open spec fn spec_resize_msg(self, g: FrameGeometry) -> (RenderWorker, Reply) {
        if !g.wf() {
            (self, Reply::Rejected(EngineError::InvalidFormat))
        } else {
            match self.chain {
                None => (self, Reply::Rejected(EngineError::StateError)),
                Some(c) => {
                    let resized = c.spec_resize(g);
                    match resized.0 {
                        Ok(_) => (RenderWorker { chain: Some(resized.1), ..self }, Reply::Configured(g)),
                        Err(e) => (self, Reply::Rejected(e)),
                    }
                },
            }
        }
    }

    /// What rendering one frame yields, given whether the draw succeeded:
    /// without a chain a state error; without a free surface no frame and
    /// no change; a failed draw is fatal to the worker; a successful draw
    /// publishes the surface as the newest in-flight frame.
    pub open spec fn spec_render(self, gpu_ok: bool) -> (RenderWorker, Reply) {
        match self.chain {
            None => (self, Reply::Rejected(EngineError::StateError)),
            Some(c) => {
                let begun = c.spec_begin();
                match begun.0 {
                    None => (self, Reply::NotReady),
                    Some(s) => {
                        if gpu_ok {
                            let finished = begun.1.spec_finish(s);
                            (RenderWorker { chain: Some(finished.1), ..self }, Reply::FrameReady)
                        } else {
                            (
                                RenderWorker {
                                    phase: WorkerPhase::Failed,
                                    chain: Some(begun.1),
                                    ..self
                                },
                                Reply::Rejected(EngineError::WorkerFault),
                            )
                        }
                    },
                }
            },
        }
    }

    /// One turn of the worker's message loop: receive `msg`, execute it —
    /// `gpu_ok` reports whether the graphics calls the message needed
    /// succeeded — and answer. Shutdown is always served; a stopped worker
    /// refuses everything else as a state error and a failed one as a
    /// worker fault.
    pub open spec fn spec_step(self, msg: Message, gpu_ok: bool) -> (RenderWorker, Reply) {
        if msg is Shutdown {
            (self.spec_shutdown(), Reply::ShutdownComplete)
        } else if self.phase is Stopped {
            (self, Reply::Rejected(EngineError::StateError))
        } else if self.phase is Failed {
            (self, Reply::Rejected(EngineError::WorkerFault))
        } else {
            match msg {
                Message::GetSwapChainHandle => (
                    self,
                    if self.chain is Some {
                        Reply::HandleReady
                    } else {
                        Reply::Rejected(EngineError::StateError)
                    },
                ),
                Message::SetFormat(d) => self.spec_set_format(d, gpu_ok),
                Message::Resize(g) => self.spec_resize_msg(g),
                Message::RenderFrame => self.spec_render(gpu_ok),
                Message::Shutdown => (self, Reply::ShutdownComplete),
            }
        }
    }

    /// Executes one message. `gpu_ok` is the host's report of whether the
    /// graphics work this message required succeeded; the worker's
    /// decisions hold for either outcome.
    pub fn step(&mut self, msg: Message, gpu_ok: bool) -> (reply: Reply)
        requires
            old(self).wf(),
        ensures
            reply == old(self).spec_step(msg, gpu_ok).1,
            *final(self) == old(self).spec_step(msg, gpu_ok).0,
            final(self).wf(),
    {
        match msg {
            Message::Shutdown => {
                match self.chain {
                    Some(c0) => {
                        let mut c = c0;
                        c.revoke_checked_out();
                        let _ = c.destroy();
                        self.chain = None;
                    },
                    None => {},
                }
                self.phase = WorkerPhase::Stopped;
                Reply::ShutdownComplete
            },
            _ => {
                if matches!(self.phase, WorkerPhase::Stopped) {
                    return Reply::Rejected(EngineError::StateError);
                }
                if matches!(self.phase, WorkerPhase::Failed) {
                    return Reply::Rejected(EngineError::WorkerFault);
                }
                match msg {
                    Message::GetSwapChainHandle => {
                        if self.chain.is_some() {
                            Reply::HandleReady
                        } else {
                            Reply::Rejected(EngineError::StateError)
                        }
                    },
                    Message::SetFormat(d) => self.do_set_format(d, gpu_ok),
                    Message::Resize(g) => self.do_resize(g),
                    Message::RenderFrame => self.do_render(gpu_ok),
                    Message::Shutdown => Reply::ShutdownComplete,
                }
            },
        }
    }

    /// Serves a format change for a running worker.
    fn do_set_format(&mut self, d: FormatDescriptor, gpu_ok: bool) -> (reply: Reply)
        requires
            old(self).wf(),
            old(self).phase is Running,
        ensures
            reply == old(self).spec_set_format(d, gpu_ok).1,
            *final(self) == old(self).spec_set_format(d, gpu_ok).0,
            final(self).wf(),
    {
        let g = match validate(&d) {
            Ok(g) => g,
            Err(_) => {
                return Reply::Rejected(EngineError::InvalidFormat);
            },
        };
        match self.chain {
            None => {
                if gpu_ok {
                    self.chain = Some(SwapChain::create_detached(g));
                    self.config = Some(d);
                    Reply::Configured(g)
                } else {
                    self.phase = WorkerPhase::Failed;
                    Reply::Rejected(EngineError::ResourceExhausted)
                }
            },
            Some(c0) => {
                let mut c = c0;
                match c.resize(g) {
                    Ok(()) => {
                        self.chain = Some(c);
                        self.config = Some(d);
                        Reply::Configured(g)
                    },
                    Err(e) => Reply::Rejected(e),
                }
            },
        }
    }

    /// Serves a resize for a running worker.
    fn do_resize(&mut self, g: FrameGeometry) -> (reply: Reply)
        requires
            old(self).wf(),
            old(self).phase is Running,
        ensures
            reply == old(self).spec_resize_msg(g).1,
            *final(self) == old(self).spec_resize_msg(g).0,
            final(self).wf(),
    {
        if !g.is_well_formed() {
            return Reply::Rejected(EngineError::InvalidFormat);
        }
        match self.chain {
            None => Reply::Rejected(EngineError::StateError),
            Some(c0) => {
                let mut c = c0;
                match c.resize(g) {
                    Ok(()) => {
                        self.chain = Some(c);
                        Reply::Configured(g)
                    },
                    Err(e) => Reply::Rejected(e),
                }
            },
        }
    }

    /// Serves one frame for a running worker.
    fn do_render(&mut self, gpu_ok: bool) -> (reply: Reply)
        requires
            old(self).wf(),
            old(self).phase is Running,
        ensures
            reply == old(self).spec_render(gpu_ok).1,
            *final(self) == old(self).spec_render(gpu_ok).0,
            final(self).wf(),
    {
        match self.chain {
            None => Reply::Rejected(EngineError::StateError),
            Some(c0) => {
                let mut c = c0;
                match c.begin_frame() {
                    None => Reply::NotReady,
                    Some(s) => {
                        if gpu_ok {
                            let _ = c.finish_frame(s);
                            self.chain = Some(c);
                            Reply::FrameReady
                        } else {
                            self.phase = WorkerPhase::Failed;
                            self.chain = Some(c);
                            Reply::Rejected(EngineError::WorkerFault)
                        }
                    },
                }
            },
        }
    }
}

/// Once shut down, a render request is answered with a state error, not a
/// hang: the worker's step is total and the stopped phase refuses work.
pub proof fn lemma_shutdown_then_render_rejected(w: RenderWorker, g1: bool, g2: bool)
    requires
        w.wf(),
    ensures
        ({
            let stopped = w.spec_step(Message::Shutdown, g1).0;
            stopped.spec_step(Message::RenderFrame, g2).1 == Reply::Rejected(
                EngineError::StateError,
            )
        }),
{
}

/// A failed worker refuses every message but shutdown with a worker fault
/// and does not change its state: the failure is permanent until the
/// stream is torn down and rebuilt.
pub proof fn lemma_failed_worker_refuses(w: RenderWorker, msg: Message, gpu_ok: bool)
    requires
        w.wf(),
        w.phase is Failed,
        !(msg is Shutdown),
    ensures
        w.spec_step(msg, gpu_ok).1 == Reply::Rejected(EngineError::WorkerFault),
        w.spec_step(msg, gpu_ok).0 == w,
{
}

} // verus!
