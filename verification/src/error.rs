//! Error taxonomy of the Bifrost layer.

use vstd::prelude::*;

verus! {

/// Errors surfaced by the Bifrost correlation engine.
///
/// Decode errors on a single frame are local to that frame and never abort
/// the whole connection; the closure error is the synthetic outcome every
/// outstanding response handle observes once the connection has been torn
/// down.
#[derive(Clone, Copy, PartialEq, Eq, Structural, Debug)]
pub enum BifrostError {
    /// A decoded frame or an issuance attempt used stream id zero, which is
    /// reserved and cannot carry a call.
    InvalidStreamId,
    /// A call registration was attempted for a stream id that already has a
    /// pending entry; indicates a multiplexer invariant violation.
    DuplicateStreamId,
    /// A `Responder` was used a second time; a responder may send exactly
    /// one response frame.
    ResponderUsed,
    /// The connection was torn down; delivered to every response handle
    /// that was still pending when the registry drained.
    ConnectionClosed,
}

} // verus!
