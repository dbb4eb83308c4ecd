//! The caller side: issuing outbound Bifrost calls.
//!
//! The transport allocates the fresh stream id and performs the actual
//! send; this function makes every decision in between. For a `NORMAL`
//! call the pending entry is registered here, before the frame is handed
//! back for sending, so a response can never arrive before its waiter
//! exists.

use vstd::prelude::*;

use crate::buffer::bytes_view;
use crate::error::BifrostError;
use crate::flags::{NORMAL, ONE_SHOOT};
use crate::frame::{BifrostCall, StreamId};
use crate::registry::{spec_register, CallRegistry, ResponseHandle};

verus! {

/// Builds the call frame for one outbound call on `stream_id`, a fresh id
/// allocated by the transport.
///
/// A fire-and-forget call (`one_shoot`) gets the `ONE_SHOOT` flag, touches
/// no registry state, and yields no response handle: no response will ever
/// be sent for its stream id. Otherwise the call gets the `NORMAL` flag and
/// a pending entry is registered for the id before the frame is returned to
/// be sent; the returned handle observes the eventual response, or the
/// closure error.
///
/// Fails with `InvalidStreamId` when the allocated id is the reserved zero
/// (allocation exhausted), and propagates a registration failure; a failure
/// leaves the registry unchanged and sends nothing.
pub fn send_bifrost_call(
    registry: &mut CallRegistry,
    stream_id: StreamId,
    payload: bytes::Bytes,
    one_shoot: bool,
) -> (r: Result<(BifrostCall, Option<ResponseHandle>), BifrostError>)
    requires
        stream_id.wf(),
    ensures
        stream_id.0 == 0 ==> final(registry)@ == old(registry)@ && r == Err::<
            (BifrostCall, Option<ResponseHandle>),
            BifrostError,
        >(BifrostError::InvalidStreamId),
        stream_id.0 != 0 && one_shoot ==> {
            &&& final(registry)@ == old(registry)@
            &&& r is Ok
            &&& r->Ok_0.0@.stream_id == stream_id.0
            &&& r->Ok_0.0@.flags == ONE_SHOOT
            &&& r->Ok_0.0@.payload == bytes_view(payload)
            &&& r->Ok_0.0.wf()
            &&& r->Ok_0.1 is None
        },
        stream_id.0 != 0 && !one_shoot ==> {
            &&& final(registry)@ == spec_register(old(registry)@, stream_id.0).1
            &&& (spec_register(old(registry)@, stream_id.0).0 is Ok <==> r is Ok)
            &&& (r is Ok ==> {
                &&& r->Ok_0.0@.stream_id == stream_id.0
                &&& r->Ok_0.0@.flags == NORMAL
                &&& r->Ok_0.0@.payload == bytes_view(payload)
                &&& r->Ok_0.0.wf()
                &&& r->Ok_0.1 is Some
                &&& r->Ok_0.1->Some_0.id() == stream_id.0
            })
            &&& (r is Err ==> r->Err_0 == spec_register(old(registry)@, stream_id.0).0->Err_0)
        },
{
    if stream_id.is_zero() {
        return Err(BifrostError::InvalidStreamId);
    }
    let mut frame = BifrostCall::new(stream_id, payload);
    if one_shoot {
        frame.set_one_shoot();
        proof {
            assert(0u8 | 0x2u8 == 0x2u8) by (bit_vector);
        }
        Ok((frame, None))
    } else {
        let handle = match registry.register(stream_id) {
            Ok(h) => h,
            Err(e) => {
                return Err(e);
            },
        };
        frame.set_normal();
        proof {
            assert(0u8 | 0x1u8 == 0x1u8) by (bit_vector);
        }
        Ok((frame, Some(handle)))
    }
}

} // verus!
