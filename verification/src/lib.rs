//! Event/command correlation layer of a sans-I/O document synchronization
//! engine.
//!
//! The engine behind this layer is single-threaded and performs no I/O of its
//! own: a host process translates every external occurrence (network bytes,
//! storage completions, timer ticks, local API calls) into an [`Event`] and
//! feeds the events to the engine one at a time.  Work that the engine wants
//! performed asynchronously is identified by process-unique identifiers, so
//! that every completion can later be routed back to the operation that
//! requested it.
//!
//! This crate defines that vocabulary: the identifier kinds and their
//! generator ([`IdGenerator`]), the closed taxonomy of operation requests
//! ([`Command`]), and the single ingress type ([`Event`]) together with the
//! constructors through which all events are built.

mod commands;
mod event;
mod ids;
mod payloads;

pub use commands::AddMemberToGroup;
pub use commands::Command;
pub use commands::KeyhiveCommand;
pub use commands::MemberAccess;
pub use commands::RemoveMemberFromGroup;
pub use event::Event;
pub use event::EventInner;
pub use event::lemma_begin_command_purity;
pub use event::lemma_event_tag_exhaustive;
pub use event::lemma_load_doc_payload_fidelity;
pub use ids::CommandId;
pub use ids::DocumentId;
pub use ids::EndpointId;
pub use ids::IdGenerator;
pub use ids::KeyhiveEntityId;
pub use ids::OutboundRequestId;
pub use ids::StreamId;
pub use ids::lemma_mint_monotonic;
pub use ids::lemma_minted_ids_distinct;
pub use ids::lemma_two_mints_distinct;
pub use ids::mints_fresh;
pub use payloads::Audience;
pub use payloads::Commit;
pub use payloads::CommitBundle;
pub use payloads::EndpointResponse;
pub use payloads::IoResult;
pub use payloads::SignedMessage;
pub use payloads::StreamDirection;
