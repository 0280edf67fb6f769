//! The closed taxonomy of operation requests.
//!
//! Each variant of [`Command`] is one operation the engine can be asked to
//! perform, carrying exactly the payload that operation needs.  The set is
//! closed so the dispatcher can match on it without an "unknown operation"
//! case.  Access-control operations have their own closed sub-taxonomy,
//! [`KeyhiveCommand`], because they cross a distinct subsystem boundary (the
//! capability engine) from document and stream operations.

use vstd::prelude::*;

use crate::ids::DocumentId;
use crate::ids::EndpointId;
use crate::ids::KeyhiveEntityId;
use crate::ids::OutboundRequestId;
use crate::ids::StreamId;
use crate::payloads::Audience;
use crate::payloads::Commit;
use crate::payloads::CommitBundle;
use crate::payloads::EndpointResponse;
use crate::payloads::SignedMessage;
use crate::payloads::StreamDirection;

verus! {

/// The access level granted to a member of a document or group.
#[derive(Clone, Copy, Debug, PartialEq, Eq, Structural)]
pub enum MemberAccess {
    Pull,
    Read,
    Write,
    Admin,
}

/// Descriptor of one group-membership addition: which group, which member,
/// and at what access level.
#[derive(Clone, Copy, Debug, PartialEq, Eq, Structural)]
pub struct AddMemberToGroup {
    pub group_id: KeyhiveEntityId,
    pub member: KeyhiveEntityId,
    pub access: MemberAccess,
}

/// Descriptor of one group-membership removal.
#[derive(Clone, Copy, Debug, PartialEq, Eq, Structural)]
pub struct RemoveMemberFromGroup {
    pub group_id: KeyhiveEntityId,
    pub member: KeyhiveEntityId,
}

/// An operation request for the access-control engine.
#[derive(Clone, Debug, PartialEq, Eq)]
pub enum KeyhiveCommand {
    AddMemberToDoc(DocumentId, KeyhiveEntityId, MemberAccess),
    RemoveMemberFromDoc(DocumentId, KeyhiveEntityId),
    QueryAccess(DocumentId),
    CreateGroup(Vec<KeyhiveEntityId>),
    AddMemberToGroup(AddMemberToGroup),
    RemoveMemberFromGroup(RemoveMemberFromGroup),
    CreateContactCard,
}

/// An operation request, immutable once constructed.
///
/// Loading a document carries an explicit `decrypt` flag rather than being
/// two separate variants: loading decrypted and loading still-encrypted
/// payload bytes share every other step and differ only in whether the
/// access-control collaborator is asked to decrypt before returning.
#[derive(Clone, Debug, PartialEq, Eq)]
pub enum Command {
    HandleRequest { request: SignedMessage, receive_audience: Option<String> },
    HandleResponse { request_id: OutboundRequestId, response: EndpointResponse },
    AddCommits { doc_id: DocumentId, commits: Vec<Commit> },
    CreateDoc { initial_commit: Commit, other_owners: Vec<KeyhiveEntityId> },
    LoadDoc { doc_id: DocumentId, decrypt: bool },
    AddBundle { doc_id: DocumentId, bundle: CommitBundle },
    CreateStream(StreamDirection),
    DisconnectStream { stream_id: StreamId },
    RegisterEndpoint(Audience),
    UnregisterEndpoints(EndpointId),
    Stop,
    Keyhive(KeyhiveCommand),
    QueryStatus(DocumentId),
}

} // verus!
