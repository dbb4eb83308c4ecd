//! The call registry: correlation of outbound calls with their responses.
//!
//! A `NORMAL` call registers a pending entry under its stream id before its
//! frame is handed to the transport. The connection driver resolves the
//! entry when the matching `RESPONSE` frame arrives; the caller's
//! `ResponseHandle` observes the outcome and removes the entry. On
//! connection teardown the registry drains: every entry still pending
//! observes a closure error, exactly once.
//!
//! The registry is the single synchronization point between the driver and
//! any number of callers; each operation here is one atomic step of that
//! shared state, and a stream id is resolved by exactly one of
//! resolve/drain, never both.

use vstd::prelude::*;

use std::collections::HashMap;

use crate::error::BifrostError;
use crate::frame::StreamId;

verus! {

broadcast use vstd::std_specs::hash::group_hash_axioms;

/// A registry entry's single-assignment response slot: pending until the
/// matching response frame fulfills it with the response payload.
pub enum ResponseSlot {
    Pending,
    Fulfilled(bytes::Bytes),
}

/// The mathematical content of a call registry: the slot of each in-flight
/// stream id, and whether the connection has been torn down.
#[verifier::ext_equal]
pub struct RegistryModel {
    pub slots: Map<u32, ResponseSlot>,
    pub torn_down: bool,
}

/// What registering a stream id does: refused after teardown or when the
/// id already has an entry (a multiplexer invariant violation), otherwise a
/// pending slot is inserted and the waiter for that id is handed out.
pub open spec fn spec_register(m: RegistryModel, id: u32) -> (Result<u32, BifrostError>,
    RegistryModel) {
    if m.torn_down {
        (Err(BifrostError::ConnectionClosed), m)
    } else if m.slots.contains_key(id) {
        (Err(BifrostError::DuplicateStreamId), m)
    } else {
        (Ok(id), RegistryModel { slots: m.slots.insert(id, ResponseSlot::Pending), torn_down: m.torn_down })
    }
}

/// What resolving a stream id with a response payload does: fulfills the
/// pending slot and reports true, or reports false and changes nothing when
/// no pending entry exists (a response racing a local cancellation or the
/// teardown drain is discarded, not an error).
pub open spec fn spec_resolve(m: RegistryModel, id: u32, payload: bytes::Bytes) -> (bool,
    RegistryModel) {
    if !m.torn_down && m.slots.contains_key(id) && m.slots[id] is Pending {
        (true, RegistryModel { slots: m.slots.insert(id, ResponseSlot::Fulfilled(payload)), torn_down: m.torn_down })
    } else {
        (false, m)
    }
}

/// What one observation step of a waiter does: a fulfilled slot yields its
/// payload and leaves the registry; a pending slot yields the closure error
/// once the connection is torn down, and otherwise nothing (the waiter
/// suspends); an absent entry yields nothing.
pub open spec fn spec_poll(m: RegistryModel, id: u32) -> (Option<
    Result<bytes::Bytes, BifrostError>,
>, RegistryModel) {
    if !m.slots.contains_key(id) {
        (None, m)
    } else {
        match m.slots[id] {
            ResponseSlot::Fulfilled(payload) => (
                Some(Ok(payload)),
                RegistryModel { slots: m.slots.remove(id), torn_down: m.torn_down },
            ),
            ResponseSlot::Pending => if m.torn_down {
                (
                    Some(Err(BifrostError::ConnectionClosed)),
                    RegistryModel { slots: m.slots.remove(id), torn_down: m.torn_down },
                )
            } else {
                (None, m)
            },
        }
    }
}

/// What the teardown drain does: marks the registry torn down, after which
/// every pending waiter observes the closure error and every late response
/// is discarded.
pub open spec fn spec_drain(m: RegistryModel) -> RegistryModel {
    RegistryModel { slots: m.slots, torn_down: true }
}

/// What cancelling a waiter does: its entry leaves the registry; a response
/// that still arrives for the id is then silently discarded.
pub open spec fn spec_cancel(m: RegistryModel, id: u32) -> RegistryModel {
    RegistryModel { slots: m.slots.remove(id), torn_down: m.torn_down }
}

/// The connection-scoped table pairing each in-flight outbound call's
/// stream id with its pending response slot.
pub struct CallRegistry {
    slots: HashMap<u32, ResponseSlot>,
    torn_down: bool,
}

/// The caller-side waiter for one `NORMAL` call: a stream-id-scoped
/// capability to observe the call's eventual outcome through the registry.
pub struct ResponseHandle {
    stream_id: StreamId,
}

impl View for CallRegistry {
    type V = RegistryModel;

    closed spec fn view(&self) -> RegistryModel {
        RegistryModel { slots: self.slots@, torn_down: self.torn_down }
    }
}

impl CallRegistry {
    /// An empty registry for a freshly opened connection.
    pub fn new() -> (r: CallRegistry)
        ensures
            r@.slots == Map::<u32, ResponseSlot>::empty(),
            !r@.torn_down,
    {
        CallRegistry { slots: HashMap::new(), torn_down: false }
    }

    /// Inserts a pending entry for `stream_id` and returns its waiter.
    ///
    /// Fails with `DuplicateStreamId` if the id is already registered and
    /// with `ConnectionClosed` after teardown; either failure leaves the
    /// registry unchanged.
    pub fn register(&mut self, stream_id: StreamId) -> (r: Result<ResponseHandle, BifrostError>)
        requires
            stream_id.0 != 0,
        ensures
            final(self)@ == spec_register(old(self)@, stream_id.0).1,
            match r {
                Ok(h) => spec_register(old(self)@, stream_id.0).0 is Ok && h.id() == stream_id.0,
                Err(e) => spec_register(old(self)@, stream_id.0).0 == Err::<u32, BifrostError>(e),
            },
    {
        if self.torn_down {
            return Err(BifrostError::ConnectionClosed);
        }
        if self.slots.contains_key(&stream_id.0) {
            return Err(BifrostError::DuplicateStreamId);
        }
        self.slots.insert(stream_id.0, ResponseSlot::Pending);
        proof {
            assert(final(self)@ =~= spec_register(old(self)@, stream_id.0).1);
        }
        Ok(ResponseHandle { stream_id })
    }

    /// Looks up the pending entry for `stream_id` and fulfills it with
    /// `payload`; returns false, dropping the payload, when no pending
    /// entry exists or the registry has drained.
    pub fn resolve(&mut self, stream_id: StreamId, payload: bytes::Bytes) -> (r: bool)
        ensures
            r == spec_resolve(old(self)@, stream_id.0, payload).0,
            final(self)@ == spec_resolve(old(self)@, stream_id.0, payload).1,
    {
        if self.torn_down {
            return false;
        }
        let pending = match self.slots.get(&stream_id.0) {
            Some(slot) => matches!(slot, ResponseSlot::Pending),
            None => false,
        };
        if !pending {
            return false;
        }
        self.slots.insert(stream_id.0, ResponseSlot::Fulfilled(payload));
        proof {
            assert(final(self)@ =~= spec_resolve(old(self)@, stream_id.0, payload).1);
        }
        true
    }

    /// Tears the registry down: after this, every waiter still pending
    /// observes the closure error exactly once, and every late response is
    /// discarded. Idempotent.
    pub fn drain_with_closure_error(&mut self)
        ensures
            final(self)@ == spec_drain(old(self)@),
    {
        self.torn_down = true;
        proof {
            assert(final(self)@ =~= spec_drain(old(self)@));
        }
    }

    /// The number of entries the registry holds.
    pub fn len(&self) -> (r: usize)
        ensures
            r == self@.slots.dom().len(),
    {
        self.slots.len()
    }

    /// True once the registry has drained.
    pub fn is_closed(&self) -> (r: bool)
        ensures
            r == self@.torn_down,
    {
        self.torn_down
    }
}

impl ResponseHandle {
    /// The stream id this waiter is bound to.
    pub closed spec fn id(self) -> u32 {
        self.stream_id.0
    }

    /// The stream id this waiter is bound to.
    pub fn stream_id(&self) -> (r: StreamId)
        ensures
            r.0 == self.id(),
    {
        self.stream_id
    }

    /// One observation step: yields the response payload once the call is
    /// fulfilled, the closure error once the connection is torn down, and
    /// nothing while the call is still pending (the caller suspends). The
    /// outcome is observed exactly once: yielding it removes the entry.
    pub fn poll(&self, registry: &mut CallRegistry) -> (r: Option<
        Result<bytes::Bytes, BifrostError>,
    >)
        ensures
            r == spec_poll(old(registry)@, self.id()).0,
            final(registry)@ == spec_poll(old(registry)@, self.id()).1,
    {
        match registry.slots.remove(&self.stream_id.0) {
            None => None,
            Some(ResponseSlot::Fulfilled(payload)) => {
                proof {
                    assert(final(registry)@ =~= spec_poll(old(registry)@, self.id()).1);
                }
                Some(Ok(payload))
            },
            Some(ResponseSlot::Pending) => {
                if registry.torn_down {
                    proof {
                        assert(final(registry)@ =~= spec_poll(old(registry)@, self.id()).1);
                    }
                    Some(Err(BifrostError::ConnectionClosed))
                } else {
                    registry.slots.insert(self.stream_id.0, ResponseSlot::Pending);
                    proof {
                        assert(registry.slots@ =~= old(registry)@.slots);
                        assert(final(registry)@ =~= spec_poll(old(registry)@, self.id()).1);
                    }
                    None
                }
            },
        }
    }

    /// Gives the call up before resolution: removes its entry, so that a
    /// response still arriving for the id is silently discarded. No frame
    /// is sent; cancellation has no wire effect.
    pub fn cancel(self, registry: &mut CallRegistry)
        ensures
            final(registry)@ == spec_cancel(old(registry)@, self.id()),
    {
        registry.slots.remove(&self.stream_id.0);
        proof {
            assert(final(registry)@ =~= spec_cancel(old(registry)@, self.id()));
        }
    }
}

/// Register then resolve: for any open registry with no entry for `id`,
/// registering `id` and resolving it with `payload` makes the waiter
/// observe exactly `payload`, exactly once — a further observation yields
/// nothing — and a second resolve, with any payload, returns false and
/// leaves the registry unchanged.
pub proof fn lemma_register_resolve_exactly_once(
    m: RegistryModel,
    id: u32,
    payload: bytes::Bytes,
    payload2: bytes::Bytes,
)
    requires
        !m.torn_down,
        !m.slots.contains_key(id),
    ensures
        ({
            let m1 = spec_register(m, id).1;
            let m2 = spec_resolve(m1, id, payload).1;
            let m3 = spec_poll(m2, id).1;
            &&& spec_register(m, id).0 is Ok
            &&& spec_resolve(m1, id, payload).0
            &&& spec_poll(m2, id).0 == Some(Ok::<bytes::Bytes, BifrostError>(payload))
            &&& spec_poll(m3, id).0 is None
            &&& spec_resolve(m2, id, payload2).0 == false
            &&& spec_resolve(m2, id, payload2).1 == m2
        }),
{
}

/// Teardown drains every pending call: for any registry with a pending
/// entry for `id`, after the drain that waiter observes the closure error,
/// exactly once — a further observation yields nothing — a late response
/// for the id is discarded, and draining again changes nothing.
pub proof fn lemma_drain_closure_error_exactly_once(
    m: RegistryModel,
    id: u32,
    payload: bytes::Bytes,
)
    requires
        m.slots.contains_key(id),
        m.slots[id] is Pending,
    ensures
        ({
            let md = spec_drain(m);
            let m2 = spec_poll(md, id).1;
            &&& spec_poll(md, id).0 == Some(
                Err::<bytes::Bytes, BifrostError>(BifrostError::ConnectionClosed),
            )
            &&& spec_poll(m2, id).0 is None
            &&& spec_resolve(md, id, payload).0 == false
            &&& spec_drain(md) == md
        }),
{
}

} // verus!
