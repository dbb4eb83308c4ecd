//! Flag bits of a Bifrost call frame.
//!
//! A flags byte is a bitset over three independent recognized bits: `NORMAL`
//! marks an outbound call expecting a response, `ONE_SHOOT` a fire-and-forget
//! call, and `RESPONSE` the answer to a previously issued `NORMAL` call. Any
//! other bit is ignored: masked off on decode, zero on encode.

use vstd::prelude::*;

verus! {

/// Flag bit: this frame is an outbound call expecting a response.
pub const NORMAL: u8 = 0x1;

/// Flag bit: this frame is a fire-and-forget call; no response will ever be
/// sent for its stream id.
pub const ONE_SHOOT: u8 = 0x2;

/// Flag bit: this frame carries the answer to a previously issued `NORMAL`
/// call.
pub const RESPONSE: u8 = 0x8;

/// All recognized flag bits.
pub const ALL: u8 = 0xb;

/// The flags byte of a Bifrost call frame, restricted to the recognized
/// bits.
#[derive(Copy, Clone, PartialEq, Eq, Structural, Debug)]
pub struct BifrostCallFlags(u8);

impl BifrostCallFlags {
    /// The raw flag bits.
    pub closed spec fn bits(self) -> u8 {
        self.0
    }

    /// Only recognized bits are set.
    pub open spec fn wf(self) -> bool {
        self.bits() & ALL == self.bits()
    }

    /// Reconstructs flags from a wire byte, masking off unrecognized bits.
    pub fn load(bits: u8) -> (r: BifrostCallFlags)
        ensures
            r.bits() == bits & ALL,
            r.wf(),
    {
        proof {
            assert((bits & ALL) & ALL == bits & ALL) by (bit_vector);
        }
        BifrostCallFlags(bits & ALL)
    }

    /// True when no recognized flag bit is set.
    pub fn is_empty(&self) -> (r: bool)
        ensures
            r == (self.bits() == 0),
    {
        self.0 == 0
    }

    /// True when the `ONE_SHOOT` bit is set.
    pub fn is_one_shoot(&self) -> (r: bool)
        ensures
            r == (self.bits() & ONE_SHOOT == ONE_SHOOT),
    {
        self.0 & ONE_SHOOT == ONE_SHOOT
    }

    /// True when the `RESPONSE` bit is set.
    pub fn is_response(&self) -> (r: bool)
        ensures
            r == (self.bits() & RESPONSE == RESPONSE),
    {
        self.0 & RESPONSE == RESPONSE
    }

    /// Sets the `RESPONSE` bit, leaving the other bits unchanged.
    pub fn set_response(&mut self)
        ensures
            final(self).bits() == old(self).bits() | RESPONSE,
            old(self).wf() ==> final(self).wf(),
    {
        proof {
            let b = self.bits();
            assert(b & 0xbu8 == b ==> (b | 0x8u8) & 0xbu8 == (b | 0x8u8)) by (bit_vector);
        }
        self.0 = self.0 | RESPONSE;
    }

    /// Sets the `ONE_SHOOT` bit, leaving the other bits unchanged.
    pub fn set_one_shoot(&mut self)
        ensures
            final(self).bits() == old(self).bits() | ONE_SHOOT,
            old(self).wf() ==> final(self).wf(),
    {
        proof {
            let b = self.bits();
            assert(b & 0xbu8 == b ==> (b | 0x2u8) & 0xbu8 == (b | 0x2u8)) by (bit_vector);
        }
        self.0 = self.0 | ONE_SHOOT;
    }

    /// Clears the `ONE_SHOOT` bit, leaving the other bits unchanged.
    pub fn unset_one_shoot(&mut self)
        ensures
            final(self).bits() == old(self).bits() & 0xfd,
            old(self).wf() ==> final(self).wf(),
    {
        proof {
            let b = self.bits();
            assert(b & 0xbu8 == b ==> (b & 0xfdu8) & 0xbu8 == (b & 0xfdu8)) by (bit_vector);
        }
        self.0 = self.0 & 0xfd;
    }

    /// True when the `NORMAL` bit is set.
    pub fn is_normal(&self) -> (r: bool)
        ensures
            r == (self.bits() & NORMAL == NORMAL),
    {
        self.0 & NORMAL == NORMAL
    }

    /// Sets the `NORMAL` bit, leaving the other bits unchanged.
    pub fn set_normal(&mut self)
        ensures
            final(self).bits() == old(self).bits() | NORMAL,
            old(self).wf() ==> final(self).wf(),
    {
        proof {
            let b = self.bits();
            assert(b & 0xbu8 == b ==> (b | 0x1u8) & 0xbu8 == (b | 0x1u8)) by (bit_vector);
        }
        self.0 = self.0 | NORMAL;
    }

    /// The flags byte as written on the wire.
    pub fn into_byte(self) -> (r: u8)
        ensures
            r == self.bits(),
    {
        self.0
    }
}

impl Default for BifrostCallFlags {
    /// The empty flag set.
    fn default() -> (r: Self)
        ensures
            r.bits() == 0,
            r.wf(),
    {
        proof {
            assert(0u8 & 0xbu8 == 0u8) by (bit_vector);
        }
        BifrostCallFlags(0)
    }
}

/// Masking a wire byte keeps exactly the recognized bits: each recognized
/// bit survives the mask unchanged, and every unrecognized bit (for example
/// `0x4`) is absent from the loaded flags.
pub proof fn lemma_load_masks_unrecognized(bits: u8)
    ensures
        (bits & ALL) & NORMAL == bits & NORMAL,
        (bits & ALL) & ONE_SHOOT == bits & ONE_SHOOT,
        (bits & ALL) & RESPONSE == bits & RESPONSE,
        (bits & ALL) & 0xf4 == 0,
{
    assert((bits & 0xbu8) & 0x1u8 == bits & 0x1u8) by (bit_vector);
    assert((bits & 0xbu8) & 0x2u8 == bits & 0x2u8) by (bit_vector);
    assert((bits & 0xbu8) & 0x8u8 == bits & 0x8u8) by (bit_vector);
    assert((bits & 0xbu8) & 0xf4u8 == 0u8) by (bit_vector);
}

} // verus!
