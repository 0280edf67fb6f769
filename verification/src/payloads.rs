//! Payload types carried by commands and events.
//!
//! The engine treats all of these as opaque values: no parsing, validation or
//! cryptography happens at this layer.  Producing and consuming their
//! contents is the business of the external collaborators (storage engine,
//! network transport, CRDT engine, access-control engine); the correlation
//! layer only moves them between the host and the engine unchanged.

use vstd::prelude::*;

verus! {

/// Outcome of one storage task: the handle of the request that finished (the
/// storage collaborator's own bookkeeping), whether it succeeded, and any
/// bytes it produced.
#[derive(Clone, Debug, PartialEq, Eq)]
pub struct IoResult {
    pub task_id: u64,
    pub success: bool,
    pub payload: Option<Vec<u8>>,
}

/// A signed protocol message received from a peer, opaque at this layer.
#[derive(Clone, Debug, PartialEq, Eq)]
pub struct SignedMessage {
    pub bytes: Vec<u8>,
}

/// The response received for one outbound network request, opaque at this
/// layer.
#[derive(Clone, Debug, PartialEq, Eq)]
pub struct EndpointResponse {
    pub bytes: Vec<u8>,
}

/// An addressable destination that outbound requests can be sent toward.
#[derive(Clone, Debug, PartialEq, Eq)]
pub struct Audience {
    pub name: String,
}

/// One change to a synchronized document: the hashes of its parents, its own
/// hash, and its contents, all opaque at this layer.
#[derive(Clone, Debug, PartialEq, Eq)]
pub struct Commit {
    pub parents: Vec<u64>,
    pub hash: u64,
    pub contents: Vec<u8>,
}

/// A compressed run of commits covering the range from `start` to `end`,
/// opaque at this layer.
#[derive(Clone, Debug, PartialEq, Eq)]
pub struct CommitBundle {
    pub start: u64,
    pub end: u64,
    pub contents: Vec<u8>,
}

/// Which side opened a stream session: this engine connecting out toward an
/// audience, or this engine accepting a connection, optionally under a named
/// receive audience.
#[derive(Clone, Debug, PartialEq, Eq)]
pub enum StreamDirection {
    Connecting { remote_audience: Audience },
    Accepting { receive_audience: Option<String> },
}

} // verus!
