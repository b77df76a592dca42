//! Dispatch of one request to the application, role by role: the consensus validator is
//! consulted before the consensus calls and told of the `Info` and `Commit` responses.
use crate::application::{Consensus, Info, Mempool, Snapshot};
use crate::message::{is_exception, Request, Response};
use crate::state::{
    begin_block_rejection, begin_block_step, commit_rejection, commit_response_rejection,
    commit_response_step, commit_step, deliver_tx_rejection, deliver_tx_step, end_block_rejection,
    end_block_step, header_of, info_step, init_chain_rejection, init_chain_step,
    ConsensusStateModel, ConsensusStateValidator,
};
use crate::types::{
    CheckTxResponse, DeliverTxResponse, EchoResponse, ExceptionResponse, FlushResponse,
    QueryResponse, SetOptionResponse,
};
use vstd::prelude::*;

verus! {

/// Whether `r` is the kind of response that answers `request`.
pub open spec fn answers(request: Request, r: Response) -> bool {
    match request {
        Request::Echo(_) => r is Echo,
        Request::Flush(_) => r is Flush,
        Request::Info(_) => r is Info,
        Request::SetOption(_) => r is SetOption,
        Request::InitChain(_) => r is InitChain,
        Request::Query(_) => r is Query,
        Request::BeginBlock(_) => r is BeginBlock,
        Request::CheckTx(_) => r is CheckTx,
        Request::DeliverTx(_) => r is DeliverTx,
        Request::EndBlock(_) => r is EndBlock,
        Request::Commit(_) => r is Commit,
        Request::ListSnapshots(_) => r is ListSnapshots,
        Request::OfferSnapshot(_) => r is OfferSnapshot,
        Request::LoadSnapshotChunk(_) => r is LoadSnapshotChunk,
        Request::ApplySnapshotChunk(_) => r is ApplySnapshotChunk,
    }
}

/// Whether `request` may come on any connection.
pub open spec fn is_neutral(request: Request) -> bool {
    request is Echo || request is Flush
}

/// A checked consensus call: where `step` gives a next state the application answers and
/// the validator moves there; otherwise the answer is the exception `rejection` and the
/// validator stays.
pub open spec fn checked_call(
    request: Request,
    before: ConsensusStateModel,
    after: ConsensusStateModel,
    r: Response,
    step: Option<ConsensusStateModel>,
    rejection: Seq<char>,
) -> bool {
    match step {
        Some(next) => answers(request, r) && after == next,
        None => is_exception(r, rejection) && after == before,
    }
}

/// What the consensus dispatcher owes for `request`, with validator states `before` and
/// `after` and response `r`.
pub open spec fn consensus_reply(
    request: Request,
    before: ConsensusStateModel,
    after: ConsensusStateModel,
    r: Response,
) -> bool {
    match request {
        Request::Echo(_) | Request::Flush(_) => answers(request, r) && after == before,
        Request::InitChain(_) => checked_call(
            request,
            before,
            after,
            r,
            init_chain_step(before),
            init_chain_rejection(),
        ),
        Request::BeginBlock(b) => checked_call(
            request,
            before,
            after,
            r,
            begin_block_step(before, header_of(b)),
            begin_block_rejection(before, header_of(b)),
        ),
        Request::DeliverTx(_) => checked_call(
            request,
            before,
            after,
            r,
            deliver_tx_step(before),
            deliver_tx_rejection(before),
        ),
        Request::EndBlock(e) => checked_call(
            request,
            before,
            after,
            r,
            end_block_step(before, e.height),
            end_block_rejection(before, e.height),
        ),
        Request::Commit(_) => match commit_step(before) {
            None => is_exception(r, commit_rejection(before)) && after == before,
            Some(committing) => r matches Response::Commit(c) && commit_response_step(
                committing,
                c.data@,
            ) == Some(after),
        },
        _ => is_exception(r, "Non-consensus request on consensus connection"@) && after == before,
    }
}

/// What the info dispatcher owes for `request`.
pub open spec fn info_reply(
    request: Request,
    before: ConsensusStateModel,
    after: ConsensusStateModel,
    r: Response,
) -> bool {
    match request {
        Request::Info(_) => r matches Response::Info(i) && after == info_step(
            before,
            i.last_block_height,
            i.last_block_app_hash@,
        ),
        Request::Echo(_) | Request::Flush(_) | Request::SetOption(_) | Request::Query(_) => answers(
            request,
            r,
        ) && after == before,
        _ => is_exception(r, "Non-info request on info connection"@) && after == before,
    }
}

/// What the mempool dispatcher owes for `request`.
pub open spec fn mempool_reply(request: Request, r: Response) -> bool {
    match request {
        Request::Echo(_) | Request::Flush(_) | Request::CheckTx(_) => answers(request, r),
        _ => is_exception(r, "Non-mempool request on mempool connection"@),
    }
}

/// What the snapshot dispatcher owes for `request`.
pub open spec fn snapshot_reply(request: Request, r: Response) -> bool {
    match request {
        Request::Echo(_)
        | Request::Flush(_)
        | Request::ListSnapshots(_)
        | Request::OfferSnapshot(_)
        | Request::LoadSnapshotChunk(_)
        | Request::ApplySnapshotChunk(_) => answers(request, r),
        _ => is_exception(r, "Non-snapshot request on snapshot connection"@),
    }
}

/// Outcome of checking a consensus request against the validator.
#[derive(Debug)]
pub enum Admission {
    /// The request is answered without reaching the application
    Answer(Response),
    /// The request goes to the application
    Call(Request),
}

/// What checking `request` on a consensus connection owes: a call that the validator
/// accepts goes on to the application and moves the validator as its step says; a refused
/// one is answered with its exception and leaves the validator as it was.
pub open spec fn consensus_admission(
    request: Request,
    before: ConsensusStateModel,
    after: ConsensusStateModel,
    r: Admission,
) -> bool {
    let admitted = |step: Option<ConsensusStateModel>, rejection: Seq<char>|
        match step {
            Some(next) => r == Admission::Call(request) && after == next,
            None => r matches Admission::Answer(a) && is_exception(a, rejection) && after == before,
        };
    match request {
        Request::Echo(_) | Request::Flush(_) => r == Admission::Call(request) && after == before,
        Request::InitChain(_) => admitted(init_chain_step(before), init_chain_rejection()),
        Request::BeginBlock(b) => admitted(
            begin_block_step(before, header_of(b)),
            begin_block_rejection(before, header_of(b)),
        ),
        Request::DeliverTx(_) => admitted(deliver_tx_step(before), deliver_tx_rejection(before)),
        Request::EndBlock(e) => admitted(
            end_block_step(before, e.height),
            end_block_rejection(before, e.height),
        ),
        Request::Commit(_) => admitted(commit_step(before), commit_rejection(before)),
        _ => r matches Admission::Answer(a) && is_exception(
            a,
            "Non-consensus request on consensus connection"@,
        ) && after == before,
    }
}

/// What the consensus handlers owe for `request`, whatever the validator holds.
pub open spec fn consensus_answer(request: Request, r: Response) -> bool {
    match request {
        Request::Echo(_)
        | Request::Flush(_)
        | Request::InitChain(_)
        | Request::BeginBlock(_)
        | Request::DeliverTx(_)
        | Request::EndBlock(_)
        | Request::Commit(_) => answers(request, r),
        _ => is_exception(r, "Non-consensus request on consensus connection"@),
    }
}

/// What the info handlers owe for `request`, whatever the validator holds.
pub open spec fn info_answer(request: Request, r: Response) -> bool {
    match request {
        Request::Info(_) | Request::Echo(_) | Request::Flush(_) | Request::SetOption(_) | Request::Query(
            _,
        ) => answers(request, r),
        _ => is_exception(r, "Non-info request on info connection"@),
    }
}

fn exception(error: &str) -> (r: Response)
    ensures
        is_exception(r, error@),
{
    let mut text = String::new();
    text.append(error);
    Response::Exception(ExceptionResponse { error: text })
}

/// Answers `Echo` with its message and `Flush` with an empty response, on a connection
/// whose role is not known yet.
pub fn handle_unknown_request(request: Request) -> (r: Response)
    requires
        is_neutral(request),
    ensures
        answers(request, r),
        request matches Request::Echo(e) ==> (r matches Response::Echo(x) && x.message == e.message),
{
    match request {
        Request::Echo(echo) => Response::Echo(EchoResponse { message: echo.message }),
        _ => Response::Flush(FlushResponse {  }),
    }
}

/// Whether the validator must stay held from the check of `request` until its response is
/// recorded: so for `Commit`, whose check and response form one step of the validator.
pub fn holds_validator(request: &Request) -> (r: bool)
    ensures
        r == request is Commit,
{
    match request {
        Request::Commit(_) => true,
        _ => false,
    }
}

/// Checks a request of a consensus connection against the validator, before any
/// application code runs: a refused call is answered with an exception and leaves the
/// validator as it was.
pub fn admit_consensus_request(validator: &mut ConsensusStateValidator, request: Request) -> (r: Admission)
    ensures
        consensus_admission(request, old(validator)@, final(validator)@, r),
{
    let checked = match &request {
        Request::Echo(_) | Request::Flush(_) => Ok(()),
        Request::InitChain(_) => validator.on_init_chain_request(),
        Request::BeginBlock(begin_block) => validator.on_begin_block_request(begin_block),
        Request::DeliverTx(_) => validator.on_deliver_tx_request(),
        Request::EndBlock(end_block) => validator.on_end_block_request(end_block),
        Request::Commit(_) => validator.on_commit_request(),
        _ => {
            return Admission::Answer(exception("Non-consensus request on consensus connection"));
        },
    };
    match checked {
        Ok(()) => Admission::Call(request),
        Err(error) => Admission::Answer(Response::Exception(ExceptionResponse { error })),
    }
}

/// Runs a consensus request on the application.
pub fn call_consensus<C: Consensus>(consensus: &C, request: Request) -> (r: Response)
    ensures
        consensus_answer(request, r),
{
    match request {
        Request::Echo(echo) => Response::Echo(consensus.echo(echo)),
        Request::Flush(flush) => Response::Flush(consensus.flush(flush)),
        Request::InitChain(init_chain) => Response::InitChain(consensus.init_chain(init_chain)),
        Request::BeginBlock(begin_block) => Response::BeginBlock(consensus.begin_block(begin_block)),
        Request::DeliverTx(deliver_tx) => Response::DeliverTx(
            DeliverTxResponse::from_result(consensus.deliver_tx(deliver_tx)),
        ),
        Request::EndBlock(end_block) => Response::EndBlock(consensus.end_block(end_block)),
        Request::Commit(commit) => Response::Commit(consensus.commit(commit)),
        _ => exception("Non-consensus request on consensus connection"),
    }
}

/// Records a consensus response in the validator: the app hash of a `Commit` response
/// fixes the next block. Other responses change nothing.
pub fn record_consensus_response(validator: &mut ConsensusStateValidator, response: Response) -> (r: Response)
    ensures
        match response {
            Response::Commit(c) => match commit_response_step(old(validator)@, c.data@) {
                Some(next) => r == response && final(validator)@ == next,
                None => is_exception(r, commit_response_rejection(old(validator)@))
                    && final(validator)@ == old(validator)@,
            },
            _ => r == response && final(validator)@ == old(validator)@,
        },
{
    match response {
        Response::Commit(commit) => match validator.on_commit_response(&commit) {
            Ok(()) => Response::Commit(commit),
            Err(error) => Response::Exception(ExceptionResponse { error }),
        },
        other => other,
    }
}

/// Serves a request on a consensus connection with the validator held for the whole call:
/// the check, the application's call and the recording of its response. A call that the
/// validator refuses gets an exception and reaches neither the application nor the
/// validator's state.
pub fn handle_consensus_request<C: Consensus>(
    consensus: &C,
    validator: &mut ConsensusStateValidator,
    request: Request,
) -> (r: Response)
    ensures
        consensus_reply(request, old(validator)@, final(validator)@, r),
{
    match admit_consensus_request(validator, request) {
        Admission::Answer(response) => response,
        Admission::Call(request) => {
            let response = call_consensus(consensus, request);
            record_consensus_response(validator, response)
        },
    }
}

/// Serves a request on a mempool connection.
pub fn handle_mempool_request<M: Mempool>(mempool: &M, request: Request) -> (r: Response)
    ensures
        mempool_reply(request, r),
{
    match request {
        Request::Echo(echo) => Response::Echo(mempool.echo(echo)),
        Request::Flush(flush) => Response::Flush(mempool.flush(flush)),
        Request::CheckTx(check_tx) => Response::CheckTx(CheckTxResponse::from_result(mempool.check_tx(check_tx))),
        _ => exception("Non-mempool request on mempool connection"),
    }
}

/// Serves a request on an info connection. The validator is not involved: an `Info`
/// response is recorded in it afterwards, with [`record_info_response`].
pub fn handle_info_request<I: Info>(info: &I, request: Request) -> (r: Response)
    ensures
        info_answer(request, r),
{
    match request {
        Request::Echo(echo) => Response::Echo(info.echo(echo)),
        Request::Flush(flush) => Response::Flush(info.flush(flush)),
        Request::Info(info_request) => Response::Info(info.info(info_request)),
        Request::SetOption(set_option) => Response::SetOption(SetOptionResponse::from_result(info.set_option(set_option))),
        Request::Query(query) => Response::Query(QueryResponse::from_result(info.query(query))),
        _ => exception("Non-info request on info connection"),
    }
}

/// Records a response of an info connection in the validator: only an `Info` response
/// counts, and only as the first one.
pub fn record_info_response(validator: &mut ConsensusStateValidator, response: &Response)
    ensures
        response matches Response::Info(i) ==> final(validator)@ == info_step(
            old(validator)@,
            i.last_block_height,
            i.last_block_app_hash@,
        ),
        !(response is Info) ==> final(validator)@ == old(validator)@,
{
    if let Response::Info(info_response) = response {
        validator.on_info_response(info_response);
    }
}

/// Serves a request on a snapshot connection.
pub fn handle_snapshot_request<S: Snapshot>(snapshot: &S, request: Request) -> (r: Response)
    ensures
        snapshot_reply(request, r),
{
    match request {
        Request::Echo(echo) => Response::Echo(snapshot.echo(echo)),
        Request::Flush(flush) => Response::Flush(snapshot.flush(flush)),
        Request::ListSnapshots(list) => Response::ListSnapshots(snapshot.list_snapshots(list)),
        Request::OfferSnapshot(offer) => Response::OfferSnapshot(snapshot.offer_snapshot(offer)),
        Request::LoadSnapshotChunk(load) => Response::LoadSnapshotChunk(snapshot.load_snapshot_chunk(load)),
        Request::ApplySnapshotChunk(apply) => Response::ApplySnapshotChunk(snapshot.apply_snapshot_chunk(apply)),
        _ => exception("Non-snapshot request on snapshot connection"),
    }
}

} // verus!
