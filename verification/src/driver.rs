//! The connection driver's per-event decision logic.
//!
//! A task that pumps the transport's inbound frame events must run for the
//! lifetime of the connection; for each event it calls `handle_frame` and
//! performs the step it returns: hand a foreign frame to the ordinary
//! transport-level handling, or surface a fresh Bifrost call to the
//! acceptor's queue — a response frame has already been dispatched to the
//! registry by then. When the transport closes, cleanly or not, the task
//! calls `CallRegistry::drain_with_closure_error` and signals
//! end-of-sequence to the acceptor.

use vstd::prelude::*;

use crate::accept::{CallKind, IncomingCall, Responder};
use crate::flags::{BifrostCallFlags, lemma_load_masks_unrecognized, NORMAL, RESPONSE};
use crate::frame::{FrameHead, BIFROST_CALL_KIND};
use crate::registry::{spec_resolve, CallRegistry};

verus! {

/// What the driver does with one inbound frame event.
pub enum DriverStep {
    /// The frame is not a Bifrost call frame: it passes through untouched
    /// to the ordinary transport-level handling.
    PassThrough(FrameHead, bytes::Bytes),
    /// A Bifrost frame carried the reserved stream id zero: the frame is
    /// dropped; the error is local and the connection continues.
    DroppedInvalid,
    /// A response frame was dispatched to the registry; true when a
    /// pending call was fulfilled, false when the response was discarded.
    Resolved(bool),
    /// A fresh inbound call, to be pushed onto the acceptor's queue; the
    /// responder is present exactly when the peer expects a reply.
    Incoming(IncomingCall, Option<Responder>),
}

/// Classifies one inbound frame event and feeds the call registry.
///
/// Frames of a foreign kind pass through untouched. For a Bifrost call
/// frame the flags byte is masked to the recognized bits and the reserved
/// stream id zero is dropped. A frame with `RESPONSE` set resolves the
/// matching registry entry; any other call frame becomes an `IncomingCall`
/// whose responder is present exactly when `NORMAL` is set.
pub fn handle_frame(registry: &mut CallRegistry, head: FrameHead, payload: bytes::Bytes) -> (r:
    DriverStep)
    requires
        head.wf(),
    ensures
        head.kind != BIFROST_CALL_KIND ==> r == DriverStep::PassThrough(head, payload)
            && final(registry)@ == old(registry)@,
        head.kind == BIFROST_CALL_KIND && head.stream_id.0 == 0 ==> r
            == DriverStep::DroppedInvalid && final(registry)@ == old(registry)@,
        head.kind == BIFROST_CALL_KIND && head.stream_id.0 != 0 && head.flag & RESPONSE
            == RESPONSE ==> {
            &&& r == DriverStep::Resolved(
                spec_resolve(old(registry)@, head.stream_id.0, payload).0,
            )
            &&& final(registry)@ == spec_resolve(old(registry)@, head.stream_id.0, payload).1
        },
        head.kind == BIFROST_CALL_KIND && head.stream_id.0 != 0 && head.flag & RESPONSE
            != RESPONSE ==> {
            &&& final(registry)@ == old(registry)@
            &&& r is Incoming
            &&& r->Incoming_0.stream_id == head.stream_id
            &&& r->Incoming_0.payload == payload
            &&& (r->Incoming_0.kind == CallKind::Normal <==> head.flag & NORMAL == NORMAL)
            &&& (r->Incoming_1 is Some <==> head.flag & NORMAL == NORMAL)
            &&& (r->Incoming_1 is Some ==> {
                &&& r->Incoming_1->Some_0.id() == head.stream_id.0
                &&& !r->Incoming_1->Some_0.spec_used()
                &&& r->Incoming_1->Some_0.wf()
            })
        },
{
    if head.kind != BIFROST_CALL_KIND {
        return DriverStep::PassThrough(head, payload);
    }
    if head.stream_id.is_zero() {
        return DriverStep::DroppedInvalid;
    }
    let flags = BifrostCallFlags::load(head.flag);
    proof {
        lemma_load_masks_unrecognized(head.flag);
    }
    if flags.is_response() {
        let fulfilled = registry.resolve(head.stream_id, payload);
        return DriverStep::Resolved(fulfilled);
    }
    let normal = flags.is_normal();
    let kind = if normal {
        CallKind::Normal
    } else {
        CallKind::OneShoot
    };
    let responder = if normal {
        Some(Responder::new(head.stream_id))
    } else {
        None
    };
    DriverStep::Incoming(IncomingCall { stream_id: head.stream_id, payload, kind }, responder)
}

} // verus!
