//! The engine's error taxonomy.

use vstd::prelude::*;

verus! {

/// One variant per failure class of the engine.
///
/// `InvalidFormat` and `NegotiationFailure` are local and recoverable: the
/// host may propose another format or fail the link. `StateError` signals an
/// operation issued in a state that cannot serve it (for example producing a
/// frame before a format was configured); the host may retry after
/// configuring. `UnsupportedFormat` aborts the current operation when a pixel
/// format reaches the transform step without a defined conversion.
/// `ResourceExhausted` and `WorkerFault` are terminal for the stream: surface
/// allocation failed, or a graphics call failed inside the render worker,
/// which then refuses everything but shutdown.
#[derive(Clone, Copy, Debug, PartialEq, Eq, Structural)]
pub enum EngineError {
    /// A proposed format descriptor was rejected.
    InvalidFormat,
    /// No mutually acceptable format exists between the stages.
    NegotiationFailure,
    /// Surface or context allocation failed.
    ResourceExhausted,
    /// The operation arrived in a state that cannot serve it.
    StateError,
    /// The pixel format has no defined conversion at the transform step.
    UnsupportedFormat,
    /// A graphics call failed inside the render worker.
    WorkerFault,
}

} // verus!
