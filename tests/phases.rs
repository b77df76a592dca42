use std::cell::Cell;

use abci::handler::{
    admit_consensus_request, call_consensus, handle_info_request, holds_validator,
    record_consensus_response, record_info_response, Admission,
};
use abci::message::{Request, Response};
use abci::types::{
    BeginBlockRequest, BeginBlockResponse, CommitRequest, CommitResponse, DeliverTxRequest,
    DeliverTxResponse, EndBlockRequest, EndBlockResponse, ExceptionResponse, Header, InfoRequest,
    InfoResponse, InitChainRequest, InitChainResponse,
};
use abci::{Consensus, ConsensusState, ConsensusStateValidator, Info, Result};

/// Counts its calls and commits with a fixed app hash.
#[derive(Default)]
struct Counting {
    calls: Cell<u32>,
}

impl Consensus for Counting {
    fn init_chain(&self, _request: InitChainRequest) -> InitChainResponse {
        self.calls.set(self.calls.get() + 1);
        Default::default()
    }

    fn begin_block(&self, _request: BeginBlockRequest) -> BeginBlockResponse {
        self.calls.set(self.calls.get() + 1);
        Default::default()
    }

    fn deliver_tx(&self, _request: DeliverTxRequest) -> Result<DeliverTxResponse> {
        self.calls.set(self.calls.get() + 1);
        Ok(Default::default())
    }

    fn end_block(&self, _request: EndBlockRequest) -> EndBlockResponse {
        self.calls.set(self.calls.get() + 1);
        Default::default()
    }

    fn commit(&self, _request: CommitRequest) -> CommitResponse {
        self.calls.set(self.calls.get() + 1);
        CommitResponse {
            data: vec![7, 7],
            retain_height: 0,
        }
    }
}

struct FixedInfo;

impl Info for FixedInfo {
    fn info(&self, _request: InfoRequest) -> InfoResponse {
        InfoResponse {
            last_block_height: 0,
            ..Default::default()
        }
    }
}

fn serve(consensus: &Counting, validator: &mut ConsensusStateValidator, request: Request) -> Response {
    match admit_consensus_request(validator, request) {
        Admission::Answer(response) => response,
        Admission::Call(request) => {
            let response = call_consensus(consensus, request);
            record_consensus_response(validator, response)
        }
    }
}

fn ready_validator() -> ConsensusStateValidator {
    let mut validator = ConsensusStateValidator::default();
    let info = handle_info_request(&FixedInfo, Request::Info(InfoRequest::default()));
    record_info_response(&mut validator, &info);
    validator
}

fn begin_block(height: i64) -> Request {
    Request::BeginBlock(BeginBlockRequest {
        header: Some(Header {
            height,
            ..Default::default()
        }),
        ..Default::default()
    })
}

#[test]
fn only_commit_holds_the_validator() {
    assert!(holds_validator(&Request::Commit(CommitRequest {})));
    assert!(!holds_validator(&begin_block(1)));
    assert!(!holds_validator(&Request::Info(InfoRequest::default())));
}

#[test]
fn refused_request_never_reaches_the_application() {
    let consensus = Counting::default();
    let mut validator = ready_validator();
    assert_eq!(*validator.state(), ConsensusState::NotInitialized);
    let response = serve(&consensus, &mut validator, Request::Commit(CommitRequest {}));
    assert!(matches!(response, Response::Exception(_)));
    assert_eq!(consensus.calls.get(), 0);
    assert_eq!(*validator.state(), ConsensusState::NotInitialized);
}

#[test]
fn commit_at_largest_height_never_reaches_the_application() {
    let consensus = Counting::default();
    let mut validator = ready_validator();
    for request in [
        Request::InitChain(InitChainRequest::default()),
        begin_block(i64::MAX),
        Request::EndBlock(EndBlockRequest { height: i64::MAX }),
    ] {
        assert!(!matches!(serve(&consensus, &mut validator, request), Response::Exception(_)));
    }
    assert_eq!(consensus.calls.get(), 3);
    let before = validator.state().clone();
    let response = serve(&consensus, &mut validator, Request::Commit(CommitRequest {}));
    assert!(matches!(
        response,
        Response::Exception(ExceptionResponse { ref error }) if error.starts_with("No block height follows")
    ));
    assert_eq!(consensus.calls.get(), 3);
    assert_eq!(*validator.state(), before);
}

#[test]
fn accepted_commit_records_its_app_hash() {
    let consensus = Counting::default();
    let mut validator = ready_validator();
    for request in [
        Request::InitChain(InitChainRequest::default()),
        begin_block(4),
        Request::EndBlock(EndBlockRequest { height: 4 }),
    ] {
        serve(&consensus, &mut validator, request);
    }
    let response = serve(&consensus, &mut validator, Request::Commit(CommitRequest {}));
    assert!(matches!(response, Response::Commit(CommitResponse { ref data, .. }) if *data == vec![7, 7]));
    assert_eq!(
        *validator.state(),
        ConsensusState::WaitingForBlock {
            block_height: 5,
            app_hash: vec![7, 7]
        }
    );
}

#[test]
fn other_responses_leave_the_validator() {
    let mut validator = ready_validator();
    let before = validator.state().clone();
    let response = record_consensus_response(
        &mut validator,
        Response::EndBlock(EndBlockResponse::default()),
    );
    assert!(matches!(response, Response::EndBlock(_)));
    record_info_response(&mut validator, &response);
    assert_eq!(*validator.state(), before);
}

#[test]
fn info_handler_refuses_other_roles_without_validator() {
    let response = handle_info_request(&FixedInfo, Request::Commit(CommitRequest {}));
    assert!(matches!(
        response,
        Response::Exception(ExceptionResponse { ref error }) if error == "Non-info request on info connection"
    ));
}
