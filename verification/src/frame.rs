//! The Bifrost call frame and its codec.
//!
//! A call frame rides inside the generic transport's frame envelope:
//! a 24-bit payload length, an 8-bit kind tag, an 8-bit flags byte, and a
//! 31-bit stream id whose most significant wire bit is reserved and zero,
//! followed by the raw payload bytes.

use vstd::prelude::*;

use crate::buffer::{bytes_as_slice, bytes_from_vec, bytes_len, bytes_view};
use crate::error::BifrostError;
use crate::flags::{BifrostCallFlags, ALL};

verus! {

/// The kind tag that marks a frame of the generic transport as a Bifrost
/// call frame; any other kind passes through this layer untouched.
pub const BIFROST_CALL_KIND: u8 = 0x0a;

/// A stream identifier: positive, unique within one connection's lifetime,
/// and at most 31 bits wide (the wire reserves the top bit).
#[derive(Copy, Clone, PartialEq, Eq, Structural, Debug)]
pub struct StreamId(pub u32);

impl StreamId {
    /// A stream id fits the 31-bit wire field.
    pub open spec fn wf(self) -> bool {
        self.0 < 0x8000_0000
    }

    /// True for the reserved stream id zero, which cannot carry a call.
    pub fn is_zero(&self) -> (r: bool)
        ensures
            r == (self.0 == 0),
    {
        self.0 == 0
    }
}

/// The head of a generic transport frame, as the transport hands it over
/// after parsing the envelope: kind tag, raw flags byte, stream id.
#[derive(Copy, Clone, PartialEq, Eq, Structural, Debug)]
pub struct FrameHead {
    pub kind: u8,
    pub flag: u8,
    pub stream_id: StreamId,
}

impl FrameHead {
    pub open spec fn wf(self) -> bool {
        self.stream_id.wf()
    }
}

/// The mathematical content of a Bifrost call frame: stream id, flag bits,
/// and the payload byte sequence.
#[verifier::ext_equal]
pub struct FrameModel {
    pub stream_id: u32,
    pub flags: u8,
    pub payload: Seq<u8>,
}

/// A Bifrost call frame: a stream id, the call flags, and an exclusively
/// owned payload.
pub struct BifrostCall {
    stream_id: StreamId,
    data: bytes::Bytes,
    flags: BifrostCallFlags,
}

impl View for BifrostCall {
    type V = FrameModel;

    closed spec fn view(&self) -> FrameModel {
        FrameModel {
            stream_id: self.stream_id.0,
            flags: self.flags.bits(),
            payload: bytes_view(self.data),
        }
    }
}

impl BifrostCall {
    /// The frame's stream id is valid and only recognized flag bits are set.
    pub open spec fn wf(self) -> bool {
        &&& 0 < self@.stream_id < 0x8000_0000
        &&& self@.flags & ALL == self@.flags
    }

    /// Creates a new call frame with no flag set.
    ///
    /// Stream id zero is reserved and rejected by contract.
    pub fn new(stream_id: StreamId, payload: bytes::Bytes) -> (r: BifrostCall)
        requires
            stream_id.0 != 0,
            stream_id.wf(),
        ensures
            r@.stream_id == stream_id.0,
            r@.flags == 0,
            r@.payload == bytes_view(payload),
            r.wf(),
    {
        let flags = BifrostCallFlags::default();
        proof {
            assert(0u8 & ALL == 0u8) by (bit_vector);
        }
        BifrostCall { stream_id, data: payload, flags }
    }

    /// Returns the stream identifier that this frame is associated with.
    pub fn stream_id(&self) -> (r: StreamId)
        ensures
            r.0 == self@.stream_id,
    {
        self.stream_id
    }

    /// Returns a reference to this frame's payload.
    pub fn payload(&self) -> (r: &bytes::Bytes)
        ensures
            bytes_view(*r) == self@.payload,
    {
        &self.data
    }

    /// Returns a mutable reference to this frame's payload.
    pub fn payload_mut(&mut self) -> (r: &mut bytes::Bytes)
        ensures
            bytes_view(*r) == old(self)@.payload,
            final(self)@.payload == bytes_view(*final(r)),
            final(self)@.stream_id == old(self)@.stream_id,
            final(self)@.flags == old(self)@.flags,
            old(self).wf() ==> final(self).wf(),
    {
        &mut self.data
    }

    /// Consumes `self` and returns the frame's payload.
    pub fn into_payload(self) -> (r: bytes::Bytes)
        ensures
            bytes_view(r) == self@.payload,
    {
        self.data
    }

    /// Returns this frame's flags.
    pub fn flags(&self) -> (r: BifrostCallFlags)
        ensures
            r.bits() == self@.flags,
    {
        self.flags
    }

    /// The generic frame head this frame is encoded under.
    pub fn head(&self) -> (r: FrameHead)
        ensures
            r.kind == BIFROST_CALL_KIND,
            r.flag == self@.flags,
            r.stream_id.0 == self@.stream_id,
    {
        FrameHead { kind: BIFROST_CALL_KIND, flag: self.flags.into_byte(), stream_id: self.stream_id }
    }

    /// Adds the `RESPONSE` bit; used when building a reply from a previously
    /// received call's stream id.
    pub fn set_response(&mut self)
        ensures
            final(self)@.stream_id == old(self)@.stream_id,
            final(self)@.payload == old(self)@.payload,
            final(self)@.flags == old(self)@.flags | crate::flags::RESPONSE,
            old(self).wf() ==> final(self).wf(),
    {
        self.flags.set_response();
    }

    /// Marks this frame as a fire-and-forget call.
    pub fn set_one_shoot(&mut self)
        ensures
            final(self)@.stream_id == old(self)@.stream_id,
            final(self)@.payload == old(self)@.payload,
            final(self)@.flags == old(self)@.flags | crate::flags::ONE_SHOOT,
            old(self).wf() ==> final(self).wf(),
    {
        self.flags.set_one_shoot();
    }

    /// Marks this frame as a call expecting a response.
    pub fn set_normal(&mut self)
        ensures
            final(self)@.stream_id == old(self)@.stream_id,
            final(self)@.payload == old(self)@.payload,
            final(self)@.flags == old(self)@.flags | crate::flags::NORMAL,
            old(self).wf() ==> final(self).wf(),
    {
        self.flags.set_normal();
    }

    /// Reconstructs a call frame from a parsed generic frame head and its
    /// payload. Unrecognized flag bits are masked off; the only validation
    /// at this layer is the reserved stream id zero.
    pub fn load(head: FrameHead, payload: bytes::Bytes) -> (r: Result<BifrostCall, BifrostError>)
        requires
            head.wf(),
        ensures
            head.stream_id.0 == 0 <==> r == Err::<BifrostCall, BifrostError>(
                BifrostError::InvalidStreamId,
            ),
            head.stream_id.0 != 0 ==> {
                &&& r is Ok
                &&& r->Ok_0@.stream_id == head.stream_id.0
                &&& r->Ok_0@.flags == head.flag & ALL
                &&& r->Ok_0@.payload == bytes_view(payload)
                &&& r->Ok_0.wf()
            },
    {
        let flags = BifrostCallFlags::load(head.flag);
        if head.stream_id.is_zero() {
            return Err(BifrostError::InvalidStreamId);
        }
        Ok(BifrostCall { stream_id: head.stream_id, data: payload, flags })
    }

    /// Encodes the frame: the 9-byte envelope head followed by the raw
    /// payload. The payload must fit the 24-bit length field.
    pub fn encode(&self) -> (r: Vec<u8>)
        requires
            self.wf(),
            self@.payload.len() < 0x100_0000,
        ensures
            r@ == spec_encode(self@),
            r@.len() == 9 + self@.payload.len(),
    {
        let len_usize: usize = bytes_len(&self.data);
        let len: u32 = len_usize as u32;
        let id: u32 = self.stream_id.0;
        let flags: u8 = self.flags.into_byte();
        let mut out: Vec<u8> = Vec::new();
        proof {
            assert((len >> 16) & 0xff < 256 && (len >> 8) & 0xff < 256 && len & 0xff < 256
                && (id >> 24) & 0x7f < 256 && (id >> 16) & 0xff < 256 && (id >> 8) & 0xff < 256
                && id & 0xff < 256) by (bit_vector);
        }
        out.push(((len >> 16) & 0xff) as u8);
        out.push(((len >> 8) & 0xff) as u8);
        out.push((len & 0xff) as u8);
        out.push(BIFROST_CALL_KIND);
        out.push(flags);
        out.push(((id >> 24) & 0x7f) as u8);
        out.push(((id >> 16) & 0xff) as u8);
        out.push(((id >> 8) & 0xff) as u8);
        out.push((id & 0xff) as u8);
        proof {
            assert(out@ =~= spec_head_bytes(len, BIFROST_CALL_KIND, flags, id));
        }
        let s: &[u8] = bytes_as_slice(&self.data);
        let n: usize = s.len();
        let mut i: usize = 0;
        while i < n
            invariant
                n == s@.len(),
                i <= n,
                out@ == spec_head_bytes(len, BIFROST_CALL_KIND, flags, id) + s@.subrange(
                    0,
                    i as int,
                ),
            decreases n - i,
        {
            out.push(s[i]);
            proof {
                assert(out@ =~= spec_head_bytes(len, BIFROST_CALL_KIND, flags, id) + s@.subrange(
                    0,
                    i as int + 1,
                ));
            }
            i = i + 1;
        }
        proof {
            assert(s@.subrange(0, n as int) =~= s@);
            assert(out@ =~= spec_encode(self@));
        }
        out
    }
}

/// The 9-byte envelope head: 24-bit big-endian payload length, kind tag,
/// flags byte, and 31-bit big-endian stream id under a zero reserved bit.
pub open spec fn spec_head_bytes(len: u32, kind: u8, flags: u8, id: u32) -> Seq<u8> {
    seq![
        ((len >> 16) & 0xff) as u8,
        ((len >> 8) & 0xff) as u8,
        (len & 0xff) as u8,
        kind,
        flags,
        ((id >> 24) & 0x7f) as u8,
        ((id >> 16) & 0xff) as u8,
        ((id >> 8) & 0xff) as u8,
        (id & 0xff) as u8,
    ]
}

/// The wire image of a call frame.
pub open spec fn spec_encode(m: FrameModel) -> Seq<u8> {
    spec_head_bytes(m.payload.len() as u32, BIFROST_CALL_KIND, m.flags, m.stream_id) + m.payload
}

/// A 24-bit big-endian integer read from three bytes.
pub open spec fn spec_u24(b0: u8, b1: u8, b2: u8) -> u32 {
    ((b0 as u32) << 16) | ((b1 as u32) << 8) | (b2 as u32)
}

/// A 31-bit big-endian integer read from four bytes, ignoring the reserved
/// top bit.
pub open spec fn spec_u31(b0: u8, b1: u8, b2: u8, b3: u8) -> u32 {
    (((b0 & 0x7f) as u32) << 24) | ((b1 as u32) << 16) | ((b2 as u32) << 8) | (b3 as u32)
}

/// What decoding a raw byte sequence yields: `None` when the bytes are not
/// one whole Bifrost call frame (too short, length field mismatch, or a
/// foreign kind tag), otherwise the decoded frame or the decode error.
pub open spec fn spec_decode(s: Seq<u8>) -> Option<Result<FrameModel, BifrostError>> {
    if s.len() < 9 {
        None
    } else {
        let len = spec_u24(s[0], s[1], s[2]);
        if s.len() != 9 + len {
            None
        } else if s[3] != BIFROST_CALL_KIND {
            None
        } else {
            let id = spec_u31(s[5], s[6], s[7], s[8]);
            if id == 0 {
                Some(Err(BifrostError::InvalidStreamId))
            } else {
                Some(
                    Ok(
                        FrameModel {
                            stream_id: id,
                            flags: s[4] & ALL,
                            payload: s.skip(9),
                        },
                    ),
                )
            }
        }
    }
}

/// Decodes one whole Bifrost call frame from its raw bytes: parses the
/// envelope head, masks the flags byte, and rejects the reserved stream id
/// zero.
pub fn decode(src: &[u8]) -> (r: Option<Result<BifrostCall, BifrostError>>)
    ensures
        ({
            let d = spec_decode(src@);
            match r {
                None => d is None,
                Some(e) => {
                    &&& d is Some
                    &&& match e {
                        Err(err) => d->Some_0 == Err::<FrameModel, BifrostError>(err),
                        Ok(f) => {
                            &&& d->Some_0 is Ok
                            &&& f@ == d->Some_0->Ok_0
                            &&& f.wf()
                        },
                    }
                },
            }
        }),
{
    if src.len() < 9 {
        return None;
    }
    let len: u32 = ((src[0] as u32) << 16) | ((src[1] as u32) << 8) | (src[2] as u32);
    proof {
        let b0 = src@[0];
        let b1 = src@[1];
        let b2 = src@[2];
        assert(len == spec_u24(b0, b1, b2));
        assert(((b0 as u32) << 16) | ((b1 as u32) << 8) | (b2 as u32) < 0x100_0000)
            by (bit_vector);
    }
    if src.len() != 9 + len as usize {
        return None;
    }
    if src[3] != BIFROST_CALL_KIND {
        return None;
    }
    let id: u32 = (((src[5] & 0x7f) as u32) << 24) | ((src[6] as u32) << 16) | ((src[7]
        as u32) << 8) | (src[8] as u32);
    proof {
        let b5 = src@[5];
        let b6 = src@[6];
        let b7 = src@[7];
        let b8 = src@[8];
        assert(id == spec_u31(b5, b6, b7, b8));
        assert((((b5 & 0x7f) as u32) << 24) | ((b6 as u32) << 16) | ((b7 as u32) << 8) | (b8
            as u32) < 0x8000_0000) by (bit_vector);
    }
    if id == 0 {
        return Some(Err(BifrostError::InvalidStreamId));
    }
    let flags = BifrostCallFlags::load(src[4]);
    let n: usize = src.len();
    let mut v: Vec<u8> = Vec::new();
    let mut i: usize = 9;
    while i < n
        invariant
            n == src@.len(),
            9 <= i <= n,
            v@ == src@.subrange(9, i as int),
        decreases n - i,
    {
        v.push(src[i]);
        proof {
            assert(v@ =~= src@.subrange(9, i as int + 1));
        }
        i = i + 1;
    }
    proof {
        assert(v@ =~= src@.skip(9));
    }
    let payload = bytes_from_vec(v);
    Some(Ok(BifrostCall { stream_id: StreamId(id), data: payload, flags }))
}

/// Round trip: for every valid frame content — a non-zero 31-bit stream id,
/// only recognized flag bits, and a payload that fits the length field —
/// encoding and then decoding reproduces the identical stream id, flags and
/// payload.
pub proof fn lemma_encode_decode_round_trip(m: FrameModel)
    requires
        0 < m.stream_id < 0x8000_0000,
        m.flags & ALL == m.flags,
        m.payload.len() < 0x100_0000,
    ensures
        spec_decode(spec_encode(m)) == Some(Ok::<FrameModel, BifrostError>(m)),
{
    let e = spec_encode(m);
    let len = m.payload.len() as u32;
    let id = m.stream_id;
    let h = spec_head_bytes(len, BIFROST_CALL_KIND, m.flags, id);
    assert(h.len() == 9);
    assert(e.len() == 9 + m.payload.len());
    assert(e[0] == h[0] && e[1] == h[1] && e[2] == h[2] && e[3] == h[3] && e[4] == h[4] && e[5]
        == h[5] && e[6] == h[6] && e[7] == h[7] && e[8] == h[8]);
    assert(((((len >> 16) & 0xff) as u8 as u32) << 16) | ((((len >> 8) & 0xff) as u8 as u32)
        << 8) | ((len & 0xff) as u8 as u32) == len) by (bit_vector)
        requires
            len < 0x100_0000u32,
    ;
    assert(spec_u24(((len >> 16) & 0xff) as u8, ((len >> 8) & 0xff) as u8, (len & 0xff) as u8)
        == len);
    assert((((((id >> 24) & 0x7f) as u8 & 0x7f) as u32) << 24) | ((((id >> 16) & 0xff) as u8
        as u32) << 16) | ((((id >> 8) & 0xff) as u8 as u32) << 8) | ((id & 0xff) as u8 as u32)
        == id) by (bit_vector)
        requires
            id < 0x8000_0000u32,
    ;
    assert(spec_u31(
        ((id >> 24) & 0x7f) as u8,
        ((id >> 16) & 0xff) as u8,
        ((id >> 8) & 0xff) as u8,
        (id & 0xff) as u8,
    ) == id);
    assert(e.len() == 9 + spec_u24(e[0], e[1], e[2]));
    assert(spec_u31(e[5], e[6], e[7], e[8]) == m.stream_id);
    assert(e.skip(9) =~= m.payload);
    assert(spec_decode(e)->Some_0->Ok_0 =~= m);
}

} // verus!
