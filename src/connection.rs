//! Connections and their roles: a connection takes the role of the first request on it that
//! is not `Echo` or `Flush`, and from then on is served by that role's dispatcher.
use crate::application::{Consensus, Info, Mempool, Snapshot};
use crate::handler::{
    answers, consensus_reply, handle_consensus_request, handle_info_request,
    handle_mempool_request, handle_snapshot_request, handle_unknown_request, info_reply,
    record_info_response,
    is_neutral, mempool_reply, snapshot_reply,
};
use crate::message::{Request, Response};
use crate::state::{ConsensusStateModel, ConsensusStateValidator};
use vstd::prelude::*;

verus! {

/// The kinds of connection that Tendermint opens.
#[derive(Debug, Clone, Copy, PartialEq, Eq, Structural)]
pub enum ConnectionType {
    /// Not known yet: only `Echo` and `Flush` came so far
    Unknown,
    /// `InitChain`, `BeginBlock`, `DeliverTx`, `EndBlock`, `Commit`
    Consensus,
    /// `CheckTx`
    Mempool,
    /// `Info`, `SetOption`, `Query`
    Info,
    /// `ListSnapshots`, `OfferSnapshot`, `LoadSnapshotChunk`, `ApplySnapshotChunk`
    Snapshot,
}

impl Default for ConnectionType {
    fn default() -> (r: Self)
        ensures
            r == ConnectionType::Unknown,
    {
        ConnectionType::Unknown
    }
}

/// The role that a request belongs to; `Unknown` for the role-neutral `Echo` and `Flush`.
pub open spec fn role_of(request: Request) -> ConnectionType {
    match request {
        Request::Echo(_) | Request::Flush(_) => ConnectionType::Unknown,
        Request::InitChain(_)
        | Request::BeginBlock(_)
        | Request::DeliverTx(_)
        | Request::EndBlock(_)
        | Request::Commit(_) => ConnectionType::Consensus,
        Request::CheckTx(_) => ConnectionType::Mempool,
        Request::Info(_) | Request::SetOption(_) | Request::Query(_) => ConnectionType::Info,
        Request::ListSnapshots(_)
        | Request::OfferSnapshot(_)
        | Request::LoadSnapshotChunk(_)
        | Request::ApplySnapshotChunk(_) => ConnectionType::Snapshot,
    }
}

/// What serving `request` on a connection of role `role` owes: the dispatcher of that role,
/// or the inline answer to `Echo` and `Flush` while the role is unknown.
pub open spec fn role_reply(
    role: ConnectionType,
    request: Request,
    before: ConsensusStateModel,
    after: ConsensusStateModel,
    r: Response,
) -> bool {
    match role {
        ConnectionType::Unknown => answers(request, r) && after == before,
        ConnectionType::Consensus => consensus_reply(request, before, after, r),
        ConnectionType::Mempool => mempool_reply(request, r) && after == before,
        ConnectionType::Info => info_reply(request, before, after, r),
        ConnectionType::Snapshot => snapshot_reply(request, r) && after == before,
    }
}

impl ConnectionType {
    /// The role that `request` belongs to.
    pub fn of_request(request: &Request) -> (r: ConnectionType)
        ensures
            r == role_of(*request),
    {
        match request {
            Request::Echo(_) | Request::Flush(_) => ConnectionType::Unknown,
            Request::InitChain(_)
            | Request::BeginBlock(_)
            | Request::DeliverTx(_)
            | Request::EndBlock(_)
            | Request::Commit(_) => ConnectionType::Consensus,
            Request::CheckTx(_) => ConnectionType::Mempool,
            Request::Info(_) | Request::SetOption(_) | Request::Query(_) => ConnectionType::Info,
            Request::ListSnapshots(_)
            | Request::OfferSnapshot(_)
            | Request::LoadSnapshotChunk(_)
            | Request::ApplySnapshotChunk(_) => ConnectionType::Snapshot,
        }
    }

    /// Whether the role is not known yet.
    pub fn is_unknown(&self) -> (r: bool)
        ensures
            r == (*self == ConnectionType::Unknown),
    {
        match self {
            ConnectionType::Unknown => true,
            _ => false,
        }
    }
}

/// Serves a request with the dispatcher of `role`.
pub fn dispatch<C: Consensus, M: Mempool, I: Info, S: Snapshot>(
    role: ConnectionType,
    consensus: &C,
    mempool: &M,
    info: &I,
    snapshot: &S,
    validator: &mut ConsensusStateValidator,
    request: Request,
) -> (r: Response)
    requires
        role == ConnectionType::Unknown ==> is_neutral(request),
    ensures
        role_reply(role, request, old(validator)@, final(validator)@, r),
{
    match role {
        ConnectionType::Unknown => handle_unknown_request(request),
        ConnectionType::Consensus => handle_consensus_request(consensus, validator, request),
        ConnectionType::Mempool => handle_mempool_request(mempool, request),
        ConnectionType::Info => {
            let response = handle_info_request(info, request);
            record_info_response(validator, &response);
            response
        },
        ConnectionType::Snapshot => handle_snapshot_request(snapshot, request),
    }
}

/// Serves the first requests of a connection: `Echo` and `Flush` are answered inline, and
/// any other request is served by the dispatcher of its role, which the connection takes.
pub fn process<C: Consensus, M: Mempool, I: Info, S: Snapshot>(
    consensus: &C,
    mempool: &M,
    info: &I,
    snapshot: &S,
    validator: &mut ConsensusStateValidator,
    request: Request,
) -> (r: (Response, ConnectionType))
    ensures
        r.1 == role_of(request),
        role_reply(role_of(request), request, old(validator)@, final(validator)@, r.0),
{
    let connection_type = ConnectionType::of_request(&request);
    let response = dispatch(connection_type, consensus, mempool, info, snapshot, validator, request);
    (response, connection_type)
}

/// A connection from Tendermint, with the role it has taken so far.
pub struct Connection {
    role: ConnectionType,
}

impl Connection {
    /// A connection that has no role yet.
    pub fn new() -> (r: Connection)
        ensures
            r.spec_role() == ConnectionType::Unknown,
    {
        Connection { role: ConnectionType::Unknown }
    }

    /// The role of the connection.
    pub closed spec fn spec_role(&self) -> ConnectionType {
        self.role
    }

    /// The role of the connection.
    pub fn role(&self) -> (r: ConnectionType)
        ensures
            r == self.spec_role(),
    {
        self.role
    }

    /// Serves a request that arrived on this connection. A connection without a role takes
    /// the role of the first request that is not `Echo` or `Flush`, and keeps it: later
    /// requests of another role are refused with an exception.
    pub fn handle<C: Consensus, M: Mempool, I: Info, S: Snapshot>(
        &mut self,
        consensus: &C,
        mempool: &M,
        info: &I,
        snapshot: &S,
        validator: &mut ConsensusStateValidator,
        request: Request,
    ) -> (r: Response)
        ensures
            old(self).spec_role() == ConnectionType::Unknown ==> final(self).spec_role() == role_of(request),
            old(self).spec_role() != ConnectionType::Unknown ==> final(self).spec_role() == old(self).spec_role(),
            role_reply(final(self).spec_role(), request, old(validator)@, final(validator)@, r),
    {
        if self.role.is_unknown() {
            let (response, connection_type) = process(
                consensus,
                mempool,
                info,
                snapshot,
                validator,
                request,
            );
            self.role = connection_type;
            response
        } else {
            dispatch(self.role, consensus, mempool, info, snapshot, validator, request)
        }
    }
}

} // verus!
