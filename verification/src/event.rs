//! The single ingress type of the engine and its constructors.
//!
//! An [`Event`] is outwardly opaque: its field is private, so the documented
//! constructors are the only way to build one, and only sanctioned
//! occurrences can enter the engine.  Its case split, [`EventInner`], is a
//! public type so that specifications and the engine's dispatcher can speak
//! about what an event carries, but no value of it can be wrapped into an
//! `Event` from outside this module.
//!
//! Constructors that submit an operation mint exactly one fresh [`CommandId`]
//! from the generator they are handed and return it beside the event; the
//! same identifier sits inside the event, which is what makes the eventual
//! result of the operation attributable to this submission.  Constructors are
//! pure value builders: no I/O, no blocking, no synchronous failure.

use vstd::prelude::*;

use crate::commands::AddMemberToGroup;
use crate::commands::Command;
use crate::commands::KeyhiveCommand;
use crate::commands::MemberAccess;
use crate::commands::RemoveMemberFromGroup;
use crate::ids::CommandId;
use crate::ids::DocumentId;
use crate::ids::EndpointId;
use crate::ids::IdGenerator;
use crate::ids::KeyhiveEntityId;
use crate::ids::OutboundRequestId;
use crate::ids::StreamId;
use crate::ids::mints_fresh;
use crate::payloads::Audience;
use crate::payloads::Commit;
use crate::payloads::CommitBundle;
use crate::payloads::EndpointResponse;
use crate::payloads::IoResult;
use crate::payloads::SignedMessage;
use crate::payloads::StreamDirection;

verus! {

/// The four cases an event can be.  Every event is exactly one of these; no
/// constructor produces anything outside this closed set.
#[derive(Debug)]
pub enum EventInner {
    /// A previously requested storage task has finished.
    IoComplete(IoResult),
    /// A new operation has been submitted; the identifier was minted at
    /// submission time and must be echoed back with the operation's result.
    BeginCommand(CommandId, Command),
    /// Raw bytes arrived on an existing stream session.
    StreamMessage(StreamId, Vec<u8>),
    /// A time-driven scheduling opportunity with no payload.
    Tick,
}

/// The single value type accepted at the engine's ingress.
#[derive(Debug)]
pub struct Event {
    inner: EventInner,
}

impl View for Event {
    type V = EventInner;

    /// Which case the event is and what it carries.
    closed spec fn view(&self) -> EventInner {
        self.inner
    }
}

impl Event {
    /// A storage task completed.
    pub fn io_complete(result: IoResult) -> (ev: Event)
        ensures
            ev@ == EventInner::IoComplete(result),
    {
        Event { inner: EventInner::IoComplete(result) }
    }

    /// Submit a new inbound request to be handled, optionally under a named
    /// receive audience.
    pub fn handle_request(
        ids: &mut IdGenerator,
        request: SignedMessage,
        receive_audience: Option<String>,
    ) -> (r: (CommandId, Event))
        requires
            old(ids).can_mint(),
        ensures
            r.1@ == EventInner::BeginCommand(
                r.0,
                (Command::HandleRequest { request: request, receive_audience: receive_audience }),
            ),
            mints_fresh(*old(ids), *final(ids), r.0.raw()),
    {
        let command_id = ids.fresh_command_id();
        let event = Event {
            inner: EventInner::BeginCommand(
                command_id,
                Command::HandleRequest { request, receive_audience },
            ),
        };
        (command_id, event)
    }

    /// Submit the response to an outgoing request.
    pub fn handle_response(
        ids: &mut IdGenerator,
        request_id: OutboundRequestId,
        response: EndpointResponse,
    ) -> (r: (CommandId, Event))
        requires
            old(ids).can_mint(),
        ensures
            r.1@ == EventInner::BeginCommand(
                r.0,
                (Command::HandleResponse { request_id: request_id, response: response }),
            ),
            mints_fresh(*old(ids), *final(ids), r.0.raw()),
    {
        let command_id = ids.fresh_command_id();
        let event = Event {
            inner: EventInner::BeginCommand(
                command_id,
                Command::HandleResponse { request_id, response },
            ),
        };
        (command_id, event)
    }

    /// Add some commits to a document.
    pub fn add_commits(
        ids: &mut IdGenerator,
        root_id: DocumentId,
        commits: Vec<Commit>,
    ) -> (r: (CommandId, Event))
        requires
            old(ids).can_mint(),
        ensures
            r.1@ == EventInner::BeginCommand(
                r.0,
                (Command::AddCommits { doc_id: root_id, commits: commits }),
            ),
            mints_fresh(*old(ids), *final(ids), r.0.raw()),
    {
        let command_id = ids.fresh_command_id();
        let event = Event {
            inner: EventInner::BeginCommand(
                command_id,
                Command::AddCommits { doc_id: root_id, commits },
            ),
        };
        (command_id, event)
    }

    /// Create a new document from its initial commit, co-owned by the given
    /// entities.
    pub fn create_doc(
        ids: &mut IdGenerator,
        initial_commit: Commit,
        other_owners: Vec<KeyhiveEntityId>,
    ) -> (r: (CommandId, Event))
        requires
            old(ids).can_mint(),
        ensures
            r.1@ == EventInner::BeginCommand(
                r.0,
                (Command::CreateDoc { initial_commit: initial_commit, other_owners: other_owners }),
            ),
            mints_fresh(*old(ids), *final(ids), r.0.raw()),
    {
        let command_id = ids.fresh_command_id();
        let event = Event {
            inner: EventInner::BeginCommand(
                command_id,
                Command::CreateDoc { initial_commit, other_owners },
            ),
        };
        (command_id, event)
    }

    /// Load a document from storage, decrypting its payload bytes.
    pub fn load_doc(ids: &mut IdGenerator, doc_id: DocumentId) -> (r: (CommandId, Event))
        requires
            old(ids).can_mint(),
        ensures
            r.1@ == EventInner::BeginCommand(
                r.0,
                (Command::LoadDoc { doc_id: doc_id, decrypt: true }),
            ),
            mints_fresh(*old(ids), *final(ids), r.0.raw()),
    {
        let command_id = ids.fresh_command_id();
        let event = Event {
            inner: EventInner::BeginCommand(command_id, Command::LoadDoc { doc_id, decrypt: true }),
        };
        (command_id, event)
    }

    /// Load a document from storage, leaving its payload bytes encrypted.
    pub fn load_doc_encrypted(ids: &mut IdGenerator, doc_id: DocumentId) -> (r: (CommandId, Event))
        requires
            old(ids).can_mint(),
        ensures
            r.1@ == EventInner::BeginCommand(
                r.0,
                (Command::LoadDoc { doc_id: doc_id, decrypt: false }),
            ),
            mints_fresh(*old(ids), *final(ids), r.0.raw()),
    {
        let command_id = ids.fresh_command_id();
        let event = Event {
            inner: EventInner::BeginCommand(
                command_id,
                Command::LoadDoc { doc_id, decrypt: false },
            ),
        };
        (command_id, event)
    }

    /// Add a bundle of commits to a document.
    pub fn add_bundle(
        ids: &mut IdGenerator,
        doc: DocumentId,
        bundle: CommitBundle,
    ) -> (r: (CommandId, Event))
        requires
            old(ids).can_mint(),
        ensures
            r.1@ == EventInner::BeginCommand(
                r.0,
                (Command::AddBundle { doc_id: doc, bundle: bundle }),
            ),
            mints_fresh(*old(ids), *final(ids), r.0.raw()),
    {
        let command_id = ids.fresh_command_id();
        let event = Event {
            inner: EventInner::BeginCommand(command_id, Command::AddBundle { doc_id: doc, bundle }),
        };
        (command_id, event)
    }

    /// Open a new stream session in the given direction.
    pub fn create_stream(ids: &mut IdGenerator, direction: StreamDirection) -> (r: (
        CommandId,
        Event,
    ))
        requires
            old(ids).can_mint(),
        ensures
            r.1@ == EventInner::BeginCommand(r.0, Command::CreateStream(direction)),
            mints_fresh(*old(ids), *final(ids), r.0.raw()),
    {
        let command_id = ids.fresh_command_id();
        let event = Event { inner: EventInner::BeginCommand(command_id, Command::CreateStream(direction)) };
        (command_id, event)
    }

    /// Close an existing stream session.
    pub fn disconnect_stream(ids: &mut IdGenerator, stream_id: StreamId) -> (r: (CommandId, Event))
        requires
            old(ids).can_mint(),
        ensures
            r.1@ == EventInner::BeginCommand(
                r.0,
                (Command::DisconnectStream { stream_id: stream_id }),
            ),
            mints_fresh(*old(ids), *final(ids), r.0.raw()),
    {
        let command_id = ids.fresh_command_id();
        let event = Event {
            inner: EventInner::BeginCommand(command_id, Command::DisconnectStream { stream_id }),
        };
        (command_id, event)
    }

    /// Raw bytes arrived on an existing stream session.
    pub fn handle_message(stream_id: StreamId, message: Vec<u8>) -> (ev: Event)
        ensures
            ev@ == EventInner::StreamMessage(stream_id, message),
    {
        Event { inner: EventInner::StreamMessage(stream_id, message) }
    }

    /// Register an audience as a new addressable destination.
    pub fn register_endpoint(ids: &mut IdGenerator, audience: Audience) -> (r: (CommandId, Event))
        requires
            old(ids).can_mint(),
        ensures
            r.1@ == EventInner::BeginCommand(r.0, Command::RegisterEndpoint(audience)),
            mints_fresh(*old(ids), *final(ids), r.0.raw()),
    {
        let command_id = ids.fresh_command_id();
        let event = Event {
            inner: EventInner::BeginCommand(command_id, Command::RegisterEndpoint(audience)),
        };
        (command_id, event)
    }

    /// Unregister a previously registered destination.
    pub fn unregister_endpoint(ids: &mut IdGenerator, endpoint_id: EndpointId) -> (r: (
        CommandId,
        Event,
    ))
        requires
            old(ids).can_mint(),
        ensures
            r.1@ == EventInner::BeginCommand(r.0, Command::UnregisterEndpoints(endpoint_id)),
            mints_fresh(*old(ids), *final(ids), r.0.raw()),
    {
        let command_id = ids.fresh_command_id();
        let event = Event {
            inner: EventInner::BeginCommand(command_id, Command::UnregisterEndpoints(endpoint_id)),
        };
        (command_id, event)
    }

    /// Shut the engine down.  The submission still mints an identifier for
    /// the engine's internal bookkeeping, but no caller-visible result is
    /// owed, so only the event is returned.
    pub fn stop(ids: &mut IdGenerator) -> (ev: Event)
        requires
            old(ids).can_mint(),
        ensures
            (ev@ matches EventInner::BeginCommand(id, cmd) && cmd == Command::Stop
                && mints_fresh(*old(ids), *final(ids), id.raw())),
    {
        let command_id = ids.fresh_command_id();
        Event { inner: EventInner::BeginCommand(command_id, Command::Stop) }
    }

    /// Grant an entity access to a document at the given level.
    pub fn add_member_to_doc(
        ids: &mut IdGenerator,
        doc_id: DocumentId,
        member: KeyhiveEntityId,
        access: MemberAccess,
    ) -> (r: (CommandId, Event))
        requires
            old(ids).can_mint(),
        ensures
            r.1@ == EventInner::BeginCommand(
                r.0,
                Command::Keyhive(KeyhiveCommand::AddMemberToDoc(doc_id, member, access)),
            ),
            mints_fresh(*old(ids), *final(ids), r.0.raw()),
    {
        let command_id = ids.fresh_command_id();
        let event = Event {
            inner: EventInner::BeginCommand(
                command_id,
                Command::Keyhive(KeyhiveCommand::AddMemberToDoc(doc_id, member, access)),
            ),
        };
        (command_id, event)
    }

    /// Revoke an entity's membership of a document.
    pub fn remove_member_from_doc(
        ids: &mut IdGenerator,
        doc_id: DocumentId,
        member: KeyhiveEntityId,
    ) -> (r: (CommandId, Event))
        requires
            old(ids).can_mint(),
        ensures
            r.1@ == EventInner::BeginCommand(
                r.0,
                Command::Keyhive(KeyhiveCommand::RemoveMemberFromDoc(doc_id, member)),
            ),
            mints_fresh(*old(ids), *final(ids), r.0.raw()),
    {
        let command_id = ids.fresh_command_id();
        let event = Event {
            inner: EventInner::BeginCommand(
                command_id,
                Command::Keyhive(KeyhiveCommand::RemoveMemberFromDoc(doc_id, member)),
            ),
        };
        (command_id, event)
    }

    /// Ask who may access a document.
    pub fn query_access(ids: &mut IdGenerator, doc_id: DocumentId) -> (r: (CommandId, Event))
        requires
            old(ids).can_mint(),
        ensures
            r.1@ == EventInner::BeginCommand(
                r.0,
                Command::Keyhive(KeyhiveCommand::QueryAccess(doc_id)),
            ),
            mints_fresh(*old(ids), *final(ids), r.0.raw()),
    {
        let command_id = ids.fresh_command_id();
        let event = Event {
            inner: EventInner::BeginCommand(
                command_id,
                Command::Keyhive(KeyhiveCommand::QueryAccess(doc_id)),
            ),
        };
        (command_id, event)
    }

    /// Create a new group co-owned by the given entities.
    pub fn create_group(ids: &mut IdGenerator, other_owners: Vec<KeyhiveEntityId>) -> (r: (
        CommandId,
        Event,
    ))
        requires
            old(ids).can_mint(),
        ensures
            r.1@ == EventInner::BeginCommand(
                r.0,
                Command::Keyhive(KeyhiveCommand::CreateGroup(other_owners)),
            ),
            mints_fresh(*old(ids), *final(ids), r.0.raw()),
    {
        let command_id = ids.fresh_command_id();
        let event = Event {
            inner: EventInner::BeginCommand(
                command_id,
                Command::Keyhive(KeyhiveCommand::CreateGroup(other_owners)),
            ),
        };
        (command_id, event)
    }

    /// Add a member to a group.
    pub fn add_member_to_group(ids: &mut IdGenerator, add: AddMemberToGroup) -> (r: (
        CommandId,
        Event,
    ))
        requires
            old(ids).can_mint(),
        ensures
            r.1@ == EventInner::BeginCommand(
                r.0,
                Command::Keyhive(KeyhiveCommand::AddMemberToGroup(add)),
            ),
            mints_fresh(*old(ids), *final(ids), r.0.raw()),
    {
        let command_id = ids.fresh_command_id();
        let event = Event {
            inner: EventInner::BeginCommand(
                command_id,
                Command::Keyhive(KeyhiveCommand::AddMemberToGroup(add)),
            ),
        };
        (command_id, event)
    }

    /// Remove a member from a group.
    pub fn remove_member_from_group(ids: &mut IdGenerator, remove: RemoveMemberFromGroup) -> (r: (
        CommandId,
        Event,
    ))
        requires
            old(ids).can_mint(),
        ensures
            r.1@ == EventInner::BeginCommand(
                r.0,
                Command::Keyhive(KeyhiveCommand::RemoveMemberFromGroup(remove)),
            ),
            mints_fresh(*old(ids), *final(ids), r.0.raw()),
    {
        let command_id = ids.fresh_command_id();
        let event = Event {
            inner: EventInner::BeginCommand(
                command_id,
                Command::Keyhive(KeyhiveCommand::RemoveMemberFromGroup(remove)),
            ),
        };
        (command_id, event)
    }

    /// Ask for the synchronization status of a document.
    pub fn query_status(ids: &mut IdGenerator, doc_id: DocumentId) -> (r: (CommandId, Event))
        requires
            old(ids).can_mint(),
        ensures
            r.1@ == EventInner::BeginCommand(r.0, Command::QueryStatus(doc_id)),
            mints_fresh(*old(ids), *final(ids), r.0.raw()),
    {
        let command_id = ids.fresh_command_id();
        let event = Event {
            inner: EventInner::BeginCommand(command_id, Command::QueryStatus(doc_id)),
        };
        (command_id, event)
    }

    /// Create a contact card for this device.
    pub fn create_contact_card(ids: &mut IdGenerator) -> (r: (CommandId, Event))
        requires
            old(ids).can_mint(),
        ensures
            r.1@ == EventInner::BeginCommand(
                r.0,
                Command::Keyhive(KeyhiveCommand::CreateContactCard),
            ),
            mints_fresh(*old(ids), *final(ids), r.0.raw()),
    {
        let command_id = ids.fresh_command_id();
        let event = Event {
            inner: EventInner::BeginCommand(
                command_id,
                Command::Keyhive(KeyhiveCommand::CreateContactCard),
            ),
        };
        (command_id, event)
    }

    /// A time-driven scheduling opportunity.
    pub fn tick() -> (ev: Event)
        ensures
            ev@ == EventInner::Tick,
    {
        Event { inner: EventInner::Tick }
    }

    /// True exactly when this event is a timer tick.
    pub fn is_tick(&self) -> (b: bool)
        ensures
            b == (self@ is Tick),
    {
        match &self.inner {
            EventInner::Tick => true,
            _ => false,
        }
    }

    /// The storage outcome carried by an `IoComplete` event, if this is one.
    pub fn as_io_complete(&self) -> (r: Option<&IoResult>)
        ensures
            (self@ matches EventInner::IoComplete(result) ==> r matches Some(p) && *p == result),
            !(self@ is IoComplete) ==> r is None,
    {
        match &self.inner {
            EventInner::IoComplete(result) => Some(result),
            _ => None,
        }
    }

    /// The correlation identifier and command carried by a command-submission
    /// event, if this is one.
    pub fn as_begin_command(&self) -> (r: Option<(CommandId, &Command)>)
        ensures
            (self@ matches EventInner::BeginCommand(id, cmd) ==> r matches Some(p) && p.0 == id
                && *p.1 == cmd),
            !(self@ is BeginCommand) ==> r is None,
    {
        match &self.inner {
            EventInner::BeginCommand(id, cmd) => Some((*id, cmd)),
            _ => None,
        }
    }

    /// The stream and bytes carried by a `StreamMessage` event, if this is
    /// one.
    pub fn as_stream_message(&self) -> (r: Option<(StreamId, &Vec<u8>)>)
        ensures
            (self@ matches EventInner::StreamMessage(stream_id, message) ==> r matches Some(p)
                && p.0 == stream_id && *p.1 == message),
            !(self@ is StreamMessage) ==> r is None,
    {
        match &self.inner {
            EventInner::StreamMessage(stream_id, message) => Some((*stream_id, message)),
            _ => None,
        }
    }

    /// The correlation identifier a command-submission event carries, if this
    /// is one.
    pub fn command_id(&self) -> (r: Option<CommandId>)
        ensures
            (self@ matches EventInner::BeginCommand(id, _cmd) ==> r == Some(id)),
            !(self@ is BeginCommand) ==> r is None,
    {
        match &self.inner {
            EventInner::BeginCommand(id, _) => Some(*id),
            _ => None,
        }
    }
}

/// Tag exhaustiveness law: every event is exactly one of the four ingress
/// cases — a storage completion, a command submission, a stream message, or
/// a tick — and never more than one of them.
pub proof fn lemma_event_tag_exhaustive(ev: Event)
    ensures
        ev@ is IoComplete || ev@ is BeginCommand || ev@ is StreamMessage || ev@ is Tick,
        !(ev@ is IoComplete && ev@ is BeginCommand),
        !(ev@ is IoComplete && ev@ is StreamMessage),
        !(ev@ is IoComplete && ev@ is Tick),
        !(ev@ is BeginCommand && ev@ is StreamMessage),
        !(ev@ is BeginCommand && ev@ is Tick),
        !(ev@ is StreamMessage && ev@ is Tick),
{
}

/// Payload fidelity law: for one document, the command built when loading
/// with decryption and the one built when loading without agree on the
/// document and on everything else; the decrypt flag is the only thing that
/// can tell two load commands for that document apart.
pub proof fn lemma_load_doc_payload_fidelity(doc_id: DocumentId, a: bool, b: bool)
    ensures
        ((Command::LoadDoc { doc_id: doc_id, decrypt: a }) == (Command::LoadDoc {
            doc_id: doc_id,
            decrypt: b,
        })) <==> a == b,
        ((Command::LoadDoc { doc_id: doc_id, decrypt: a }) matches Command::LoadDoc {
            doc_id: d,
            decrypt: e,
        } && d == doc_id && e == a),
{
}

/// Purity law: a command submission is a pure value of its command and its
/// minted identifier.  Two submission events carrying the same command are
/// equal exactly when their identifiers are equal, so two calls of one
/// constructor on identical arguments build events that differ in nothing
/// but the freshly minted identifier.
pub proof fn lemma_begin_command_purity(id1: CommandId, id2: CommandId, cmd: Command)
    ensures
        (EventInner::BeginCommand(id1, cmd) == EventInner::BeginCommand(id2, cmd)) <==> id1 == id2,
{
}

} // verus!
