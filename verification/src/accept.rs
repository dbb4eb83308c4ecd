//! The acceptor side: incoming calls and the single-use responder.
//!
//! The connection driver surfaces each fresh inbound call as an
//! `IncomingCall`, paired with a `Responder` exactly when the peer expects
//! a reply. A responder is bound to the call's stream id and may send
//! exactly one response frame; using it a second time is a protocol error
//! and produces no second frame.

use vstd::prelude::*;

use crate::buffer::bytes_view;
use crate::error::BifrostError;
use crate::flags::RESPONSE;
use crate::frame::{BifrostCall, StreamId};

verus! {

/// The kind of an incoming call: expecting a response, or fire-and-forget.
#[derive(Copy, Clone, PartialEq, Eq, Structural, Debug)]
pub enum CallKind {
    Normal,
    OneShoot,
}

/// One inbound call, as surfaced to the acceptor.
pub struct IncomingCall {
    pub stream_id: StreamId,
    pub payload: bytes::Bytes,
    pub kind: CallKind,
}

/// A single-use capability to answer one specific incoming `NORMAL` call.
pub struct Responder {
    stream_id: StreamId,
    used: bool,
}

impl Responder {
    /// The stream id this responder answers on.
    pub closed spec fn id(self) -> u32 {
        self.stream_id.0
    }

    /// Whether the responder has already sent its one response.
    pub closed spec fn spec_used(self) -> bool {
        self.used
    }

    /// The bound stream id is valid: non-zero and 31 bits wide.
    pub open spec fn wf(self) -> bool {
        0 < self.id() < 0x8000_0000
    }

    /// A fresh responder bound to `stream_id`.
    pub(crate) fn new(stream_id: StreamId) -> (r: Responder)
        requires
            stream_id.0 != 0,
            stream_id.wf(),
        ensures
            r.id() == stream_id.0,
            !r.spec_used(),
            r.wf(),
    {
        Responder { stream_id, used: false }
    }

    /// The stream id this responder answers on.
    pub fn stream_id(&self) -> (r: StreamId)
        ensures
            r.0 == self.id(),
    {
        self.stream_id
    }

    /// Whether the responder has already sent its one response.
    pub fn is_used(&self) -> (r: bool)
        ensures
            r == self.spec_used(),
    {
        self.used
    }

    /// Builds the one response frame this responder may send: the original
    /// call's stream id, the `RESPONSE` flag, and `payload`.
    ///
    /// A second use fails with `ResponderUsed` and produces no second
    /// frame.
    pub fn respond(&mut self, payload: bytes::Bytes) -> (r: Result<BifrostCall, BifrostError>)
        requires
            old(self).wf(),
        ensures
            final(self).wf(),
            final(self).id() == old(self).id(),
            final(self).spec_used(),
            old(self).spec_used() ==> r == Err::<BifrostCall, BifrostError>(
                BifrostError::ResponderUsed,
            ),
            !old(self).spec_used() ==> {
                &&& r is Ok
                &&& r->Ok_0@.stream_id == old(self).id()
                &&& r->Ok_0@.flags == RESPONSE
                &&& r->Ok_0@.payload == bytes_view(payload)
                &&& r->Ok_0.wf()
            },
    {
        if self.used {
            return Err(BifrostError::ResponderUsed);
        }
        self.used = true;
        let mut frame = BifrostCall::new(self.stream_id, payload);
        frame.set_response();
        proof {
            assert(0u8 | 0x8u8 == 0x8u8) by (bit_vector);
        }
        Ok(frame)
    }
}

} // verus!
