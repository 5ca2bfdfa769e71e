//! A fixed-capacity pool of surfaces exchanged between a producer and a
//! consumer by ownership transfer.
//!
//! Two slots are enough for the producer to render ahead while the consumer
//! reads the previous result. Every surface is, at any instant, in exactly
//! one state — free, being drawn, in flight, or checked out — and ownership
//! transfer through these states is the sole synchronization between the
//! two sides: a surface is never read and written at once.

use vstd::prelude::*;
use crate::error::EngineError;
use crate::format::FrameGeometry;

verus! {

/// The state of one surface slot.
#[derive(Clone, Copy, Debug, PartialEq, Eq, Structural)]
pub enum SlotState {
    /// Available to the producer.
    Free,
    /// The producer is drawing into it.
    InUseProducer,
    /// A completed frame waiting for the consumer.
    InFlight,
    /// Handed to the consumer for reading.
    CheckedOut,
}

/// Which of the chain's two slots a surface lives in.
#[derive(Clone, Copy, Debug, PartialEq, Eq, Structural)]
pub enum SlotId {
    /// The chain's first slot.
    First,
    /// The chain's second slot.
    Second,
}

/// A handle to a surface: the slot it occupies and the generation of the
/// chain's geometry it was allocated for. A handle whose generation is
/// stale no longer matches any surface.
#[derive(Clone, Copy, Debug, PartialEq, Eq, Structural)]
pub struct Surface {
    /// The slot the surface occupies.
    pub slot: SlotId,
    /// The geometry generation the surface was allocated for.
    pub generation: u64,
}

/// One slot of the chain.
#[derive(Clone, Copy, Debug, PartialEq, Eq, Structural)]
pub struct Slot {
    /// Who owns the slot's surface right now.
    pub state: SlotState,
    /// The geometry generation the slot's surface was allocated for; a
    /// value behind the chain's current generation marks a surface that
    /// must be reallocated before its next use.
    pub generation: u64,
}

/// The swap chain: two surface slots, the geometry they are allocated
/// against, and bookkeeping for lazy reallocation after a resize.
#[derive(Clone, Copy, Debug, PartialEq, Eq, Structural)]
pub struct SwapChain {
    /// The geometry surfaces are currently allocated with.
    pub geometry: FrameGeometry,
    /// Bumped on every resize; slots with an older generation are stale.
    pub geometry_gen: u64,
    /// The first slot.
    pub first: Slot,
    /// The second slot.
    pub second: Slot,
    /// How many surface allocations the chain has asked of the owning
    /// graphics context so far.
    pub allocations: u64,
    /// Whether the chain's resources have been released.
    pub destroyed: bool,
}

impl SwapChain {
    /// The slot a handle points into.
    pub open spec fn slot(self, id: SlotId) -> Slot {
        match id {
            SlotId::First => self.first,
            SlotId::Second => self.second,
        }
    }

    /// How many slots are in the given state.
    pub open spec fn count_in(self, st: SlotState) -> int {
        (if self.first.state == st {
            1int
        } else {
            0int
        }) + (if self.second.state == st {
            1int
        } else {
            0int
        })
    }

    /// How many surfaces the consumer holds.
    pub open spec fn checked_out_count(self) -> int {
        self.count_in(SlotState::CheckedOut)
    }

    /// How many completed frames wait for the consumer.
    pub open spec fn in_flight_count(self) -> int {
        self.count_in(SlotState::InFlight)
    }

    /// How many surfaces the producer is drawing into.
    pub open spec fn in_use_count(self) -> int {
        self.count_in(SlotState::InUseProducer)
    }

    /// Well-formedness: a valid geometry, slot generations no newer than
    /// the chain's, at most one surface per side of the exchange, and no
    /// surface outstanding once destroyed.
    pub open spec fn wf(self) -> bool {
        &&& self.geometry.wf()
        &&& self.first.generation <= self.geometry_gen
        &&& self.second.generation <= self.geometry_gen
        &&& self.checked_out_count() <= 1
        &&& self.in_flight_count() <= 1
        &&& self.in_use_count() <= 1
        &&& self.destroyed ==> self.first.state is Free && self.second.state is Free
    }

    /// The chain a fresh creation yields: both slots allocated and free.
    pub open spec fn spec_create(geometry: FrameGeometry) -> SwapChain {
        SwapChain {
            geometry,
            geometry_gen: 0,
            first: Slot { state: SlotState::Free, generation: 0 },
            second: Slot { state: SlotState::Free, generation: 0 },
            allocations: 2,
            destroyed: false,
        }
    }

    /// `self` with one slot replaced.
    pub open spec fn with_slot(self, id: SlotId, s: Slot) -> SwapChain {
        match id {
            SlotId::First => SwapChain { first: s, ..self },
            SlotId::Second => SwapChain { second: s, ..self },
        }
    }

    /// What taking a surface yields: the completed in-flight frame, checked
    /// out to the consumer, when one waits and the consumer holds nothing
    /// yet; nothing otherwise. Taking never blocks and never fails.
    pub open spec fn spec_take(self) -> (Option<Surface>, SwapChain) {
        if self.destroyed || self.checked_out_count() != 0 {
            (None, self)
        } else if self.first.state is InFlight {
            (
                Some(Surface { slot: SlotId::First, generation: self.first.generation }),
                self.with_slot(
                    SlotId::First,
                    Slot { state: SlotState::CheckedOut, generation: self.first.generation },
                ),
            )
        } else if self.second.state is InFlight {
            (
                Some(Surface { slot: SlotId::Second, generation: self.second.generation }),
                self.with_slot(
                    SlotId::Second,
                    Slot { state: SlotState::CheckedOut, generation: self.second.generation },
                ),
            )
        } else {
            (None, self)
        }
    }

    /// What recycling a surface yields: its slot returns to the free pool
    /// when the handle matches the checked-out surface; a stale or foreign
    /// handle is a state error and changes nothing.
    pub open spec fn spec_recycle(self, s: Surface) -> (Result<(), EngineError>, SwapChain) {
        if !self.destroyed && self.slot(s.slot).state is CheckedOut && self.slot(s.slot).generation
            == s.generation {
            (
                Ok(()),
                self.with_slot(
                    s.slot,
                    Slot { state: SlotState::Free, generation: s.generation },
                ),
            )
        } else {
            (Err(EngineError::StateError), self)
        }
    }

    /// What beginning a frame yields: a free surface for the producer,
    /// reallocated first when a resize left it stale. Prefers surfaces that
    /// are already current, so steady-state production allocates nothing.
    /// Yields nothing when the chain is destroyed, a frame is already being
    /// drawn, no slot is free, or the allocation counter is spent.
    pub open spec fn spec_begin(self) -> (Option<Surface>, SwapChain) {
        if self.destroyed || self.in_use_count() != 0 {
            (None, self)
        } else if self.first.state is Free && self.first.generation == self.geometry_gen {
            (
                Some(Surface { slot: SlotId::First, generation: self.geometry_gen }),
                self.with_slot(
                    SlotId::First,
                    Slot { state: SlotState::InUseProducer, generation: self.geometry_gen },
                ),
            )
        } else if self.second.state is Free && self.second.generation == self.geometry_gen {
            (
                Some(Surface { slot: SlotId::Second, generation: self.geometry_gen }),
                self.with_slot(
                    SlotId::Second,
                    Slot { state: SlotState::InUseProducer, generation: self.geometry_gen },
                ),
            )
        } else if self.first.state is Free && self.allocations < u64::MAX {
            (
                Some(Surface { slot: SlotId::First, generation: self.geometry_gen }),
                SwapChain {
                    first: Slot { state: SlotState::InUseProducer, generation: self.geometry_gen },
                    allocations: (self.allocations + 1) as u64,
                    ..self
                },
            )
        } else if self.second.state is Free && self.allocations < u64::MAX {
            (
                Some(Surface { slot: SlotId::Second, generation: self.geometry_gen }),
                SwapChain {
                    second: Slot { state: SlotState::InUseProducer, generation: self.geometry_gen },
                    allocations: (self.allocations + 1) as u64,
                    ..self
                },
            )
        } else {
            (None, self)
        }
    }

    /// What finishing a frame yields: the surface being drawn advances to
    /// in flight, and a frame still waiting from before returns to the free
    /// pool — the consumer always takes the most recently completed frame.
    pub open spec fn spec_finish(self, s: Surface) -> (Result<(), EngineError>, SwapChain) {
        if !self.destroyed && self.slot(s.slot).state is InUseProducer && self.slot(
            s.slot,
        ).generation == s.generation {
            let retired = if self.first.state is InFlight {
                self.with_slot(
                    SlotId::First,
                    Slot { state: SlotState::Free, generation: self.first.generation },
                )
            } else if self.second.state is InFlight {
                self.with_slot(
                    SlotId::Second,
                    Slot { state: SlotState::Free, generation: self.second.generation },
                )
            } else {
                self
            };
            (
                Ok(()),
                retired.with_slot(
                    s.slot,
                    Slot { state: SlotState::InFlight, generation: s.generation },
                ),
            )
        } else {
            (Err(EngineError::StateError), self)
        }
    }

    /// What resizing yields: every surface the engine still owns is
    /// invalidated — reallocation happens lazily on the next production —
    /// while a surface checked out to the consumer makes the resize fail
    /// loudly instead of racing the reader.
    pub open spec fn spec_resize(self, g: FrameGeometry) -> (Result<(), EngineError>, SwapChain) {
        if self.destroyed || self.checked_out_count() != 0 {
            (Err(EngineError::StateError), self)
        } else if self.geometry_gen == u64::MAX {
            (Err(EngineError::ResourceExhausted), self)
        } else {
            (
                Ok(()),
                SwapChain {
                    geometry: g,
                    geometry_gen: (self.geometry_gen + 1) as u64,
                    first: Slot { state: SlotState::Free, generation: self.first.generation },
                    second: Slot { state: SlotState::Free, generation: self.second.generation },
                    ..self
                },
            )
        }
    }

    /// What destruction yields: all resources released, exactly once; a
    /// second destruction or one attempted while the consumer still reads a
    /// surface is a state error.
    pub open spec fn spec_destroy(self) -> (Result<(), EngineError>, SwapChain) {
        if self.destroyed || self.checked_out_count() != 0 {
            (Err(EngineError::StateError), self)
        } else {
            (
                Ok(()),
                SwapChain {
                    first: Slot { state: SlotState::Free, generation: self.first.generation },
                    second: Slot { state: SlotState::Free, generation: self.second.generation },
                    destroyed: true,
                    ..self
                },
            )
        }
    }

    /// What revoking yields: any surface the consumer holds is pulled back
    /// into the free pool. This is the teardown path: after it, outstanding
    /// consumer handles no longer match any surface.
    pub open spec fn spec_revoke(self) -> SwapChain {
        let c = if self.first.state is CheckedOut {
            self.with_slot(
                SlotId::First,
                Slot { state: SlotState::Free, generation: self.first.generation },
            )
        } else {
            self
        };
        if c.second.state is CheckedOut {
            c.with_slot(
                SlotId::Second,
                Slot { state: SlotState::Free, generation: c.second.generation },
            )
        } else {
            c
        }
    }

    /// Creates a chain with both surfaces allocated against the given
    /// geometry and free. The graphics allocation itself is performed by
    /// the render worker's host on the worker's instruction; a failed
    /// allocation surfaces there as `ResourceExhausted`.
    pub fn create_detached(geometry: FrameGeometry) -> (c: SwapChain)
        requires
            geometry.wf(),
        ensures
            c == SwapChain::spec_create(geometry),
            c.wf(),
    {
        SwapChain {
            geometry,
            geometry_gen: 0,
            first: Slot { state: SlotState::Free, generation: 0 },
            second: Slot { state: SlotState::Free, generation: 0 },
            allocations: 2,
            destroyed: false,
        }
    }

    /// Consumer side: takes the most recently completed frame, if one
    /// waits and the consumer holds nothing yet. Never blocks: an empty
    /// result means no frame is ready and the caller proceeds without one.
    pub fn take_surface(&mut self) -> (r: Option<Surface>)
        requires
            old(self).wf(),
        ensures
            r == old(self).spec_take().0,
            *final(self) == old(self).spec_take().1,
            final(self).wf(),
    {
        if self.destroyed {
            return None;
        }
        if matches!(self.first.state, SlotState::CheckedOut) || matches!(
            self.second.state,
            SlotState::CheckedOut,
        ) {
            return None;
        }
        if matches!(self.first.state, SlotState::InFlight) {
            let g = self.first.generation;
            self.first = Slot { state: SlotState::CheckedOut, generation: g };
            Some(Surface { slot: SlotId::First, generation: g })
        } else if matches!(self.second.state, SlotState::InFlight) {
            let g = self.second.generation;
            self.second = Slot { state: SlotState::CheckedOut, generation: g };
            Some(Surface { slot: SlotId::Second, generation: g })
        } else {
            None
        }
    }

    /// Consumer side: returns a checked-out surface to the free pool,
    /// making it available for the next produce cycle.
    pub fn recycle_surface(&mut self, s: Surface) -> (r: Result<(), EngineError>)
        requires
            old(self).wf(),
        ensures
            r == old(self).spec_recycle(s).0,
            *final(self) == old(self).spec_recycle(s).1,
            final(self).wf(),
    {
        if self.destroyed {
            return Err(EngineError::StateError);
        }
        let slot = match s.slot {
            SlotId::First => self.first,
            SlotId::Second => self.second,
        };
        if matches!(slot.state, SlotState::CheckedOut) && slot.generation == s.generation {
            let freed = Slot { state: SlotState::Free, generation: s.generation };
            match s.slot {
                SlotId::First => self.first = freed,
                SlotId::Second => self.second = freed,
            }
            Ok(())
        } else {
            Err(EngineError::StateError)
        }
    }

    /// Producer side: claims a free surface to draw into, reallocating it
    /// first when a resize left it stale.
    pub fn begin_frame(&mut self) -> (r: Option<Surface>)
        requires
            old(self).wf(),
        ensures
            r == old(self).spec_begin().0,
            *final(self) == old(self).spec_begin().1,
            final(self).wf(),
    {
        if self.destroyed {
            return None;
        }
        if matches!(self.first.state, SlotState::InUseProducer) || matches!(
            self.second.state,
            SlotState::InUseProducer,
        ) {
            return None;
        }
        let gen = self.geometry_gen;
        if matches!(self.first.state, SlotState::Free) && self.first.generation == gen {
            self.first = Slot { state: SlotState::InUseProducer, generation: gen };
            Some(Surface { slot: SlotId::First, generation: gen })
        } else if matches!(self.second.state, SlotState::Free) && self.second.generation == gen {
            self.second = Slot { state: SlotState::InUseProducer, generation: gen };
            Some(Surface { slot: SlotId::Second, generation: gen })
        } else if matches!(self.first.state, SlotState::Free) && self.allocations < u64::MAX {
            self.first = Slot { state: SlotState::InUseProducer, generation: gen };
            self.allocations = self.allocations + 1;
            Some(Surface { slot: SlotId::First, generation: gen })
        } else if matches!(self.second.state, SlotState::Free) && self.allocations < u64::MAX {
            self.second = Slot { state: SlotState::InUseProducer, generation: gen };
            self.allocations = self.allocations + 1;
            Some(Surface { slot: SlotId::Second, generation: gen })
        } else {
            None
        }
    }

    /// Producer side: marks the surface being drawn as a completed frame,
    /// retiring any frame still waiting so the consumer always sees the
    /// most recent one.
    pub fn finish_frame(&mut self, s: Surface) -> (r: Result<(), EngineError>)
        requires
            old(self).wf(),
        ensures
            r == old(self).spec_finish(s).0,
            *final(self) == old(self).spec_finish(s).1,
            final(self).wf(),
    {
        if self.destroyed {
            return Err(EngineError::StateError);
        }
        let slot = match s.slot {
            SlotId::First => self.first,
            SlotId::Second => self.second,
        };
        if !(matches!(slot.state, SlotState::InUseProducer) && slot.generation == s.generation) {
            return Err(EngineError::StateError);
        }
        if matches!(self.first.state, SlotState::InFlight) {
            let g = self.first.generation;
            self.first = Slot { state: SlotState::Free, generation: g };
        } else if matches!(self.second.state, SlotState::InFlight) {
            let g = self.second.generation;
            self.second = Slot { state: SlotState::Free, generation: g };
        }
        let done = Slot { state: SlotState::InFlight, generation: s.generation };
        match s.slot {
            SlotId::First => self.first = done,
            SlotId::Second => self.second = done,
        }
        Ok(())
    }

    /// Replaces the chain's geometry, invalidating every surface the
    /// engine owns; each is reallocated lazily the next time the producer
    /// claims it. Fails loudly while a surface is checked out — resizes are
    /// issued only through the render worker's serialized queue, so this
    /// never races an in-flight checkout.
    pub fn resize(&mut self, g: FrameGeometry) -> (r: Result<(), EngineError>)
        requires
            old(self).wf(),
            g.wf(),
        ensures
            r == old(self).spec_resize(g).0,
            *final(self) == old(self).spec_resize(g).1,
            final(self).wf(),
    {
        if self.destroyed {
            return Err(EngineError::StateError);
        }
        if matches!(self.first.state, SlotState::CheckedOut) || matches!(
            self.second.state,
            SlotState::CheckedOut,
        ) {
            return Err(EngineError::StateError);
        }
        if self.geometry_gen == u64::MAX {
            return Err(EngineError::ResourceExhausted);
        }
        self.geometry = g;
        self.geometry_gen = self.geometry_gen + 1;
        self.first = Slot { state: SlotState::Free, generation: self.first.generation };
        self.second = Slot { state: SlotState::Free, generation: self.second.generation };
        Ok(())
    }

    /// Releases the chain's resources, exactly once, on the thread that
    /// owns the graphics context. Fails while the consumer still reads a
    /// surface and on a second call.
    pub fn destroy(&mut self) -> (r: Result<(), EngineError>)
        requires
            old(self).wf(),
        ensures
            r == old(self).spec_destroy().0,
            *final(self) == old(self).spec_destroy().1,
            final(self).wf(),
    {
        if self.destroyed {
            return Err(EngineError::StateError);
        }
        if matches!(self.first.state, SlotState::CheckedOut) || matches!(
            self.second.state,
            SlotState::CheckedOut,
        ) {
            return Err(EngineError::StateError);
        }
        self.first = Slot { state: SlotState::Free, generation: self.first.generation };
        self.second = Slot { state: SlotState::Free, generation: self.second.generation };
        self.destroyed = true;
        Ok(())
    }

    /// Pulls back any surface the consumer holds. Teardown only: after
    /// this, outstanding consumer handles are invalid and recycle rejects
    /// them.
    pub fn revoke_checked_out(&mut self)
        requires
            old(self).wf(),
        ensures
            *final(self) == old(self).spec_revoke(),
            final(self).wf(),
            final(self).checked_out_count() == 0,
    {
        if matches!(self.first.state, SlotState::CheckedOut) {
            self.first = Slot { state: SlotState::Free, generation: self.first.generation };
        }
        if matches!(self.second.state, SlotState::CheckedOut) {
            self.second = Slot { state: SlotState::Free, generation: self.second.generation };
        }
    }
}

/// At any instant at most one surface is checked out to the consumer: the
/// well-formedness every operation preserves says so directly.
pub proof fn lemma_at_most_one_checked_out(c: SwapChain)
    requires
        c.wf(),
    ensures
        c.checked_out_count() <= 1,
{
}

/// Recycling the surface that take handed out succeeds, returns its slot
/// to the free pool, and allocates nothing: the slot is reused, not
/// leaked.
pub proof fn lemma_take_then_recycle(c: SwapChain)
    requires
        c.wf(),
        c.spec_take().0 is Some,
    ensures
        ({
            let taken = c.spec_take().0->Some_0;
            let held = c.spec_take().1;
            let returned = held.spec_recycle(taken);
            &&& returned.0 is Ok
            &&& returned.1.slot(taken.slot).state is Free
            &&& returned.1.allocations == c.allocations
            &&& returned.1.wf()
        }),
{
}

/// In steady state — no resize pending, producer idle, nothing checked
/// out, a frame waiting or a slot free — a full produce, hand-off, take,
/// recycle cycle succeeds and ends with the allocation count it began
/// with, in a state that is again steady: cycles reuse the two surfaces
/// for ever instead of leaking allocations.
pub proof fn lemma_cycle_reuses_surfaces(c: SwapChain)
    requires
        c.wf(),
        !c.destroyed,
        c.first.generation == c.geometry_gen,
        c.second.generation == c.geometry_gen,
        c.in_use_count() == 0,
        c.checked_out_count() == 0,
        c.first.state is Free || c.second.state is Free,
    ensures
        ({
            let begun = c.spec_begin();
            let drawn = begun.0->Some_0;
            let c1 = begun.1;
            let finished = c1.spec_finish(drawn);
            let c2 = finished.1;
            let taken = c2.spec_take();
            let shown = taken.0->Some_0;
            let c3 = taken.1;
            let recycled = c3.spec_recycle(shown);
            let c4 = recycled.1;
            &&& begun.0 is Some
            &&& finished.0 is Ok
            &&& taken.0 is Some
            &&& recycled.0 is Ok
            &&& c4.allocations == c.allocations
            &&& c4.wf()
            &&& !c4.destroyed
            &&& c4.first.generation == c4.geometry_gen
            &&& c4.second.generation == c4.geometry_gen
            &&& c4.in_use_count() == 0
            &&& c4.checked_out_count() == 0
            &&& (c4.first.state is Free || c4.second.state is Free)
        }),
{
}

} // verus!
