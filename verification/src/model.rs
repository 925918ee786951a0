//! Value types for discovered peers and inbound transfer requests, the
//! filters that validate raw engine events, and the builders for the plain
//! messages the engine accepts.
//!
//! Raw events arrive from the discovery/transfer engine as plain fields;
//! the shell converts the engine's own types one-for-one into
//! [`RawEndpoint`] and [`RawMessage`] and hands them here, so the
//! filtering and construction rules below are the single place where
//! event shapes are decided.

use vstd::prelude::*;
use vstd::string::StringExecFns;

use crate::list::Identified;
use crate::File;

verus! {

/// Which side of the engine's control channel a message travels to.
#[derive(Clone, Copy, Debug)]
pub enum Direction {
    /// Emitted by the engine towards the front end.
    LibToFront,
    /// Submitted by the front end towards the engine.
    FrontToLib,
}

/// The transfer type carried by a control-channel message, reduced to
/// what the filtering rules read.
#[derive(Clone, Copy, Debug)]
pub enum TransferKind {
    /// A transfer initiated by a remote peer.
    Inbound,
    /// Any other transfer type.
    OtherKind,
}

/// The transfer state carried by a control-channel message, reduced to
/// what the filtering rules read.
#[derive(Clone, Copy, Debug)]
pub enum TransferPhase {
    /// The transfer waits for the local user's consent.
    WaitingForUserConsent,
    /// Any other state.
    OtherPhase,
}

/// A decision submitted back to the engine for a pending transfer.
#[derive(Clone, Copy, Debug)]
pub enum DecisionAction {
    /// Let the transfer proceed.
    AcceptTransfer,
    /// Turn the transfer down.
    RejectTransfer,
}

/// A raw endpoint-discovery event, as the engine reports it: the address
/// fields are absent until resolved.
#[derive(Clone, Debug)]
pub struct RawEndpoint {
    /// Opaque identity of the peer.
    pub id: String,
    /// Display name, if the peer announced one.
    pub name: Option<String>,
    /// Fully-qualified name, always present.
    pub fullname: String,
    /// IP address, absent until resolved.
    pub ip: Option<String>,
    /// Port, absent until resolved.
    pub port: Option<String>,
}

/// A raw control-channel message, reduced to the fields the filtering and
/// decision rules read.
#[derive(Clone, Debug)]
pub struct RawMessage {
    /// Opaque identity of the transfer.
    pub id: String,
    /// Which way the message travels.
    pub direction: Direction,
    /// Transfer type, when the message carries one.
    pub kind: Option<TransferKind>,
    /// Transfer state, when the message carries one.
    pub phase: Option<TransferPhase>,
    /// Sender display name from the message metadata, when present.
    pub source_name: Option<String>,
    /// Identity carried by the message metadata, when present.
    pub meta_id: Option<String>,
}

/// A discovered peer whose address is fully resolved. Identity, and so
/// equality, is by `id` alone, irrespective of name or address.
#[derive(Clone, Debug)]
pub struct Endpoint {
    /// Opaque identity of the peer.
    pub id: String,
    /// Display name, if the peer announced one.
    pub name: Option<String>,
    /// Fully-qualified name, the fallback display name.
    pub fullname: String,
    /// Resolved IP address.
    pub ip: String,
    /// Resolved port.
    pub port: String,
}

/// An inbound transfer awaiting the local user's consent. Identity, and
/// so equality, is by `id` alone.
#[derive(Clone, Debug)]
pub struct TransferRequest {
    /// Opaque identity of the transfer.
    pub id: String,
    /// Sender display name from the request metadata, when present.
    pub source_name: Option<String>,
    /// Identity carried by the request metadata, when present; decisions
    /// about the transfer are addressed by it.
    pub meta_id: Option<String>,
}

impl PartialEq for Endpoint {
    fn eq(&self, other: &Self) -> (r: bool) {
        self.id == other.id
    }
}

impl Eq for Endpoint {

}

impl vstd::std_specs::cmp::PartialEqSpecImpl for Endpoint {
    open spec fn obeys_eq_spec() -> bool {
        true
    }

    open spec fn eq_spec(&self, other: &Endpoint) -> bool {
        self.id@ == other.id@
    }
}

impl PartialEq for TransferRequest {
    fn eq(&self, other: &Self) -> (r: bool) {
        self.id == other.id
    }
}

impl Eq for TransferRequest {

}

impl vstd::std_specs::cmp::PartialEqSpecImpl for TransferRequest {
    open spec fn obeys_eq_spec() -> bool {
        true
    }

    open spec fn eq_spec(&self, other: &TransferRequest) -> bool {
        self.id@ == other.id@
    }
}

impl Identified for Endpoint {
    open spec fn key(&self) -> Seq<char> {
        self.id@
    }

    fn same_identity(&self, other: &Self) -> (r: bool) {
        self.id == other.id
    }
}

impl Identified for TransferRequest {
    open spec fn key(&self) -> Seq<char> {
        self.id@
    }

    fn same_identity(&self, other: &Self) -> (r: bool) {
        self.id == other.id
    }
}

/// The endpoint a raw discovery event validates to, if any: only events
/// with both address fields present pass, and they pass unchanged.
pub open spec fn spec_endpoint_from_info(raw: RawEndpoint) -> Option<Endpoint> {
    if raw.ip is Some && raw.port is Some {
        Some(
            Endpoint {
                id: raw.id,
                name: raw.name,
                fullname: raw.fullname,
                ip: raw.ip->0,
                port: raw.port->0,
            },
        )
    } else {
        None
    }
}

/// Validates a raw discovery event: an event missing either address field
/// yields nothing; one with both fields present yields exactly one
/// endpoint carrying the event's fields.
pub fn endpoint_from_info(raw: RawEndpoint) -> (r: Option<Endpoint>)
    ensures
        r == spec_endpoint_from_info(raw),
        r is Some <==> (raw.ip is Some && raw.port is Some),
{
    match (raw.ip, raw.port) {
        (Some(ip), Some(port)) => Some(
            Endpoint { id: raw.id, name: raw.name, fullname: raw.fullname, ip, port },
        ),
        _ => None,
    }
}

/// The transfer request a raw message validates to, if any: only a
/// message that travels from the engine to the front end, carries the
/// inbound transfer type, and waits for the user's consent passes.
pub open spec fn spec_request_from_message(raw: RawMessage) -> Option<TransferRequest> {
    if raw.direction is LibToFront && raw.kind == Some(TransferKind::Inbound) && raw.phase == Some(
        TransferPhase::WaitingForUserConsent,
    ) {
        Some(
            TransferRequest { id: raw.id, source_name: raw.source_name, meta_id: raw.meta_id },
        )
    } else {
        None
    }
}

/// Validates a raw control-channel message: exactly the messages with
/// direction towards the front end, inbound type, and the
/// waiting-for-consent state yield a request; a message failing any one
/// of those three conditions yields none.
pub fn request_from_message(raw: RawMessage) -> (r: Option<TransferRequest>)
    ensures
        r == spec_request_from_message(raw),
        r is Some <==> (raw.direction is LibToFront && raw.kind == Some(TransferKind::Inbound)
            && raw.phase == Some(TransferPhase::WaitingForUserConsent)),
{
    match (raw.direction, raw.kind, raw.phase) {
        (
            Direction::LibToFront,
            Some(TransferKind::Inbound),
            Some(TransferPhase::WaitingForUserConsent),
        ) => Some(
            TransferRequest { id: raw.id, source_name: raw.source_name, meta_id: raw.meta_id },
        ),
        _ => None,
    }
}

impl Endpoint {
    /// The display name: the announced name when present, else the
    /// fully-qualified name.
    pub fn name(&self) -> (r: &str)
        ensures
            r@ == (if self.name is Some {
                self.name->0@
            } else {
                self.fullname@
            }),
    {
        match &self.name {
            Some(n) => n.as_str(),
            None => self.fullname.as_str(),
        }
    }
}

impl TransferRequest {
    /// The sender's display name: the metadata name when present, else
    /// the request id.
    pub fn sender_name(&self) -> (r: &str)
        ensures
            r@ == (if self.source_name is Some {
                self.source_name->0@
            } else {
                self.id@
            }),
    {
        match &self.source_name {
            Some(n) => n.as_str(),
            None => self.id.as_str(),
        }
    }
}

/// A consent decision about a pending transfer, in the shape the engine's
/// control channel accepts.
#[derive(Clone, Debug)]
pub struct Decision {
    /// Identity of the transfer decided about, taken from the request
    /// metadata.
    pub id: String,
    /// Always towards the engine.
    pub direction: Direction,
    /// Whether the transfer is accepted or rejected.
    pub action: DecisionAction,
}

impl TransferRequest {
    /// The message that accepts this transfer: addressed by the metadata
    /// id, travelling towards the engine.
    pub fn accept_decision(&self) -> (d: Decision)
        requires
            self.meta_id is Some,
        ensures
            d.id@ == self.meta_id->0@,
            d.direction is FrontToLib,
            d.action is AcceptTransfer,
    {
        Decision {
            id: self.meta_id.as_ref().unwrap().clone(),
            direction: Direction::FrontToLib,
            action: DecisionAction::AcceptTransfer,
        }
    }

    /// The message that rejects this transfer: addressed by the metadata
    /// id, travelling towards the engine.
    pub fn reject_decision(&self) -> (d: Decision)
        requires
            self.meta_id is Some,
        ensures
            d.id@ == self.meta_id->0@,
            d.direction is FrontToLib,
            d.action is RejectTransfer,
    {
        Decision {
            id: self.meta_id.as_ref().unwrap().clone(),
            direction: Direction::FrontToLib,
            action: DecisionAction::RejectTransfer,
        }
    }
}

/// An outbound submission, in the shape the engine's send queue accepts.
#[derive(Clone, Debug)]
pub struct SendSubmission {
    /// Identity of the receiving peer.
    pub id: String,
    /// Display name of the receiving peer.
    pub name: String,
    /// Socket address of the receiving peer, written `ip:port`.
    pub addr: String,
    /// Paths of the files to send.
    pub file_paths: Vec<String>,
}

impl Endpoint {
    /// The submission that sends `files` to this endpoint: its display
    /// name, its address joined as `ip:port`, and the file paths in their
    /// given order.
    pub fn send_submission(&self, files: &Vec<File>) -> (s: SendSubmission)
        ensures
            s.id@ == self.id@,
            s.name@ == (if self.name is Some {
                self.name->0@
            } else {
                self.fullname@
            }),
            s.addr@ == self.ip@ + ":"@ + self.port@,
            s.file_paths@.len() == files@.len(),
            forall|i: int| 0 <= i < files@.len() ==> s.file_paths@[i]@ == files@[i].path@,
    {
        let mut addr = self.ip.clone();
        addr.append(":");
        addr.append(self.port.as_str());
        let mut file_paths: Vec<String> = Vec::new();
        let n = files.len();
        let mut i: usize = 0;
        while i < n
            invariant
                n == files@.len(),
                i <= n,
                file_paths@.len() == i,
                forall|k: int| 0 <= k < i ==> file_paths@[k]@ == files@[k].path@,
            decreases n - i,
        {
            file_paths.push(files[i].path.clone());
            i += 1;
        }
        SendSubmission {
            id: self.id.clone(),
            name: match &self.name {
                Some(n) => n.clone(),
                None => self.fullname.clone(),
            },
            addr,
            file_paths,
        }
    }
}

} // verus!
