//! Identifier kinds and the generator that mints them.
//!
//! Every identifier is opaque: its only public operations are equality and
//! hashing, and the only way to obtain one is through [`IdGenerator`].  The
//! generator promises that no identifier is ever handed out twice in one
//! process, which is what lets the correlation layer route each asynchronous
//! completion back to exactly the operation that requested it.

use vstd::prelude::*;

verus! {

/// Correlates a submitted command with its eventually delivered result; the
/// sole handle by which a caller receives that result.
#[derive(Clone, Copy, Debug, Hash, PartialEq, Eq, Structural)]
pub struct CommandId {
    value: u64,
}

impl CommandId {
    /// The underlying minted value; visible to specifications only.
    pub closed spec fn raw(self) -> u64 {
        self.value
    }
}

/// Names one synchronized document.
#[derive(Clone, Copy, Debug, Hash, PartialEq, Eq, Structural)]
pub struct DocumentId {
    value: u64,
}

impl DocumentId {
    /// The underlying minted value; visible to specifications only.
    pub closed spec fn raw(self) -> u64 {
        self.value
    }
}

/// Names one bidirectional byte-stream session with a peer.
#[derive(Clone, Copy, Debug, Hash, PartialEq, Eq, Structural)]
pub struct StreamId {
    value: u64,
}

impl StreamId {
    /// The underlying minted value; visible to specifications only.
    pub closed spec fn raw(self) -> u64 {
        self.value
    }
}

/// Names one registered addressable destination for outbound requests.
#[derive(Clone, Copy, Debug, Hash, PartialEq, Eq, Structural)]
pub struct EndpointId {
    value: u64,
}

impl EndpointId {
    /// The underlying minted value; visible to specifications only.
    pub closed spec fn raw(self) -> u64 {
        self.value
    }
}

/// Names one in-flight outbound network request awaiting a response.
#[derive(Clone, Copy, Debug, Hash, PartialEq, Eq, Structural)]
pub struct OutboundRequestId {
    value: u64,
}

impl OutboundRequestId {
    /// The underlying minted value; visible to specifications only.
    pub closed spec fn raw(self) -> u64 {
        self.value
    }
}

/// Names one principal (user, device, or group) in the access-control system.
#[derive(Clone, Copy, Debug, Hash, PartialEq, Eq, Structural)]
pub struct KeyhiveEntityId {
    value: u64,
}

impl KeyhiveEntityId {
    /// The underlying minted value; visible to specifications only.
    pub closed spec fn raw(self) -> u64 {
        self.value
    }
}

/// Mints process-unique identifiers of every kind.
///
/// All kinds draw from one pool of raw values, so any two identifiers minted
/// by distinct calls are distinct, whatever their kinds.  The generator is a
/// plain value handed to whoever owns the engine, rather than a hidden
/// process-wide singleton, so tests can run it deterministically and several
/// engine instances in one process never share mutable state.  Minting takes
/// the generator exclusively, so callers in several execution contexts share
/// one generator only behind the host's lock, and no interleaving of calls
/// can hand a value out twice.
#[derive(Debug)]
pub struct IdGenerator {
    next: u64,
}

/// One minting step: the returned raw value was never handed out before, and
/// the record of handed-out values grows by exactly that value.
pub open spec fn mints_fresh(pre: IdGenerator, post: IdGenerator, raw: u64) -> bool {
    &&& !pre.minted().contains(raw)
    &&& post.minted() == pre.minted().insert(raw)
    &&& post.used() == pre.used() + 1
}

impl IdGenerator {
    /// The raw values of every identifier this generator has handed out.
    pub closed spec fn minted(self) -> Set<u64> {
        Set::new(|x: u64| x < self.next)
    }

    /// How many identifiers have been handed out.
    pub closed spec fn used(self) -> nat {
        self.next as nat
    }

    /// Some raw value is still unused.  Exhaustion of the 64-bit pool is the
    /// one machine limit of the generator; a host that mints a million
    /// identifiers a second would not reach it in half a million years.
    pub open spec fn can_mint(self) -> bool {
        self.used() < u64::MAX as nat
    }

    /// A generator that has handed out nothing yet.
    pub fn new() -> (g: IdGenerator)
        ensures
            g.used() == 0,
            g.minted() == Set::<u64>::empty(),
    {
        let g = IdGenerator { next: 0 };
        proof {
            assert(g.minted() =~= Set::<u64>::empty());
        }
        g
    }

    /// True while another identifier can still be minted.
    pub fn has_capacity(&self) -> (b: bool)
        ensures
            b == self.can_mint(),
    {
        self.next < u64::MAX
    }

    /// Hands out the next unused raw value.
    fn fresh_raw(&mut self) -> (r: u64)
        requires
            old(self).can_mint(),
        ensures
            mints_fresh(*old(self), *final(self), r),
    {
        let r: u64 = self.next;
        self.next = self.next + 1;
        proof {
            assert(self.minted() =~= old(self).minted().insert(r));
        }
        r
    }

    /// Mints a fresh `CommandId`, distinct from every identifier minted
    /// before it by this generator.
    pub fn fresh_command_id(&mut self) -> (id: CommandId)
        requires
            old(self).can_mint(),
        ensures
            mints_fresh(*old(self), *final(self), id.raw()),
    {
        CommandId { value: self.fresh_raw() }
    }

    /// Mints a fresh `DocumentId`.
    pub fn fresh_document_id(&mut self) -> (id: DocumentId)
        requires
            old(self).can_mint(),
        ensures
            mints_fresh(*old(self), *final(self), id.raw()),
    {
        DocumentId { value: self.fresh_raw() }
    }

    /// Mints a fresh `StreamId`.
    pub fn fresh_stream_id(&mut self) -> (id: StreamId)
        requires
            old(self).can_mint(),
        ensures
            mints_fresh(*old(self), *final(self), id.raw()),
    {
        StreamId { value: self.fresh_raw() }
    }

    /// Mints a fresh `EndpointId`.
    pub fn fresh_endpoint_id(&mut self) -> (id: EndpointId)
        requires
            old(self).can_mint(),
        ensures
            mints_fresh(*old(self), *final(self), id.raw()),
    {
        EndpointId { value: self.fresh_raw() }
    }

    /// Mints a fresh `OutboundRequestId`.
    pub fn fresh_outbound_request_id(&mut self) -> (id: OutboundRequestId)
        requires
            old(self).can_mint(),
        ensures
            mints_fresh(*old(self), *final(self), id.raw()),
    {
        OutboundRequestId { value: self.fresh_raw() }
    }

    /// Mints a fresh `KeyhiveEntityId`.
    pub fn fresh_entity_id(&mut self) -> (id: KeyhiveEntityId)
        requires
            old(self).can_mint(),
        ensures
            mints_fresh(*old(self), *final(self), id.raw()),
    {
        KeyhiveEntityId { value: self.fresh_raw() }
    }
}

/// Uniqueness law: an identifier minted by an earlier call is distinct from
/// one minted by any later call.
///
/// `earlier` is the generator's record just after the earlier call, which
/// contains that call's value `a`; the record only ever grows (see
/// [`lemma_mint_monotonic`]), so `a` is still recorded when the later call
/// returns a value `b` from outside the record.
pub proof fn lemma_minted_ids_distinct(earlier: Set<u64>, later: Set<u64>, a: u64, b: u64)
    requires
        earlier.contains(a),
        earlier.subset_of(later),
        !later.contains(b),
    ensures
        a != b,
{
    assert(later.contains(a));
}

/// A minting step only grows the record of handed-out values, and records
/// the value it returned.
pub proof fn lemma_mint_monotonic(pre: IdGenerator, post: IdGenerator, raw: u64)
    requires
        mints_fresh(pre, post, raw),
    ensures
        pre.minted().subset_of(post.minted()),
        post.minted().contains(raw),
{
    assert forall|x: u64| pre.minted().contains(x) implies post.minted().contains(x) by {
        assert(post.minted() == pre.minted().insert(raw));
    }
}

/// Uniqueness law, for two successive calls in particular: the identifiers
/// returned by consecutive minting steps are distinct.
pub proof fn lemma_two_mints_distinct(
    s0: IdGenerator,
    s1: IdGenerator,
    s2: IdGenerator,
    a: u64,
    b: u64,
)
    requires
        mints_fresh(s0, s1, a),
        mints_fresh(s1, s2, b),
    ensures
        a != b,
{
    lemma_mint_monotonic(s0, s1, a);
    lemma_minted_ids_distinct(s1.minted(), s1.minted(), a, b);
}

} // verus!
