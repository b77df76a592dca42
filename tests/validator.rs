use abci::connection::ConnectionType;
use abci::message::Request;
use abci::types::{
    BeginBlockRequest, CheckTxResponse, CheckTxType, CommitResponse, DeliverTxResponse,
    EchoRequest, EndBlockRequest, Header, InfoResponse, QueryResponse, SetOptionResponse,
};
use abci::BlockExecutionState::{BeginBlock, Commit, DeliverTx, EndBlock};
use abci::{BlockExecutionState, ConsensusState, ConsensusStateValidator, Error};

fn info_response(height: i64, app_hash: Vec<u8>) -> InfoResponse {
    InfoResponse {
        last_block_height: height,
        last_block_app_hash: app_hash,
        ..Default::default()
    }
}

fn begin_block(height: i64, app_hash: Vec<u8>) -> BeginBlockRequest {
    BeginBlockRequest {
        header: Some(Header {
            height,
            app_hash,
            ..Default::default()
        }),
        ..Default::default()
    }
}

fn error() -> Error {
    Error {
        code: 7,
        codespace: "space".to_string(),
        log: "log".to_string(),
        info: "info".to_string(),
    }
}

#[test]
fn phase_automaton_allows_only_block_order() {
    let allowed = [
        (BeginBlock, DeliverTx),
        (BeginBlock, EndBlock),
        (DeliverTx, DeliverTx),
        (DeliverTx, EndBlock),
        (EndBlock, Commit),
    ];
    for current in [BeginBlock, DeliverTx, EndBlock, Commit] {
        for next in [BeginBlock, DeliverTx, EndBlock, Commit] {
            let mut phase = current;
            let result = phase.validate(next);
            if allowed.contains(&(current, next)) {
                assert_eq!(result, Ok(()));
                assert_eq!(phase, next);
            } else {
                assert_eq!(
                    result,
                    Err(format!("{:?} cannot be called after {:?}", next, current))
                );
                assert_eq!(phase, current);
            }
        }
    }
}

#[test]
fn fresh_validator_has_no_info() {
    let validator = ConsensusStateValidator::default();
    assert_eq!(*validator.state(), ConsensusState::NoInfo);
    assert_eq!(ConsensusState::default(), ConsensusState::NoInfo);
}

#[test]
fn begin_block_without_header_is_refused() {
    let mut validator = ConsensusStateValidator::default();
    validator.on_info_response(&info_response(0, vec![]));
    validator.on_init_chain_request().unwrap();
    let result = validator.on_begin_block_request(&BeginBlockRequest::default());
    assert_eq!(
        result,
        Err("`BeginBlock` request does not contain a header".to_string())
    );
    assert_eq!(*validator.state(), ConsensusState::InitChain);
}

#[test]
fn init_chain_accepts_any_first_height() {
    let mut validator = ConsensusStateValidator::default();
    validator.on_info_response(&info_response(0, vec![]));
    assert_eq!(validator.on_init_chain_request(), Ok(()));
    assert_eq!(validator.on_begin_block_request(&begin_block(17, vec![9])), Ok(()));
    assert_eq!(
        *validator.state(),
        ConsensusState::ExecutingBlock {
            block_height: 17,
            execution_state: BlockExecutionState::BeginBlock
        }
    );
}

#[test]
fn init_chain_twice_is_refused() {
    let mut validator = ConsensusStateValidator::default();
    validator.on_info_response(&info_response(0, vec![]));
    assert_eq!(validator.on_init_chain_request(), Ok(()));
    assert_eq!(
        validator.on_init_chain_request(),
        Err("Received `InitChain` call when chain is already initialized".to_string())
    );
    assert_eq!(*validator.state(), ConsensusState::InitChain);
}

#[test]
fn negative_heights_are_written_with_sign() {
    let mut validator = ConsensusStateValidator::default();
    validator.on_info_response(&info_response(-4, vec![255, 16]));
    assert_eq!(
        *validator.state(),
        ConsensusState::WaitingForBlock {
            block_height: -3,
            app_hash: vec![255, 16]
        }
    );
    assert_eq!(
        validator.on_commit_request(),
        Err("`Commit` cannot be called after WaitingForBlock { block_height: -3, app_hash: [255, 16] }".to_string())
    );
    assert_eq!(
        validator.on_begin_block_request(&begin_block(i64::MIN, vec![])),
        Err("Expected height -3 in `BeginBlock` request. Got -9223372036854775808".to_string())
    );
}

#[test]
fn info_at_largest_height_leaves_no_info() {
    let mut validator = ConsensusStateValidator::default();
    validator.on_info_response(&info_response(i64::MAX, vec![1]));
    assert_eq!(*validator.state(), ConsensusState::NoInfo);
}

#[test]
fn commit_response_without_commit_request_is_refused() {
    let mut validator = ConsensusStateValidator::default();
    validator.on_info_response(&info_response(0, vec![]));
    validator.on_init_chain_request().unwrap();
    validator.on_begin_block_request(&begin_block(1, vec![])).unwrap();
    let result = validator.on_commit_response(&CommitResponse::default());
    assert_eq!(
        result,
        Err("Received `CommitResponse` after ExecutingBlock { block_height: 1, execution_state: BeginBlock }".to_string())
    );
}

#[test]
fn commit_at_largest_height_is_refused() {
    let mut validator = ConsensusStateValidator::default();
    validator.on_info_response(&info_response(0, vec![]));
    validator.on_init_chain_request().unwrap();
    validator.on_begin_block_request(&begin_block(i64::MAX, vec![])).unwrap();
    validator
        .on_end_block_request(&EndBlockRequest { height: i64::MAX })
        .unwrap();
    let before = validator.state().clone();
    let result = validator.on_commit_request();
    assert_eq!(
        result,
        Err("No block height follows ExecutingBlock { block_height: 9223372036854775807, execution_state: EndBlock }".to_string())
    );
    assert_eq!(*validator.state(), before);
}

#[test]
fn commit_response_fixes_next_block() {
    let mut validator = ConsensusStateValidator::default();
    validator.on_info_response(&info_response(0, vec![]));
    validator.on_init_chain_request().unwrap();
    validator.on_begin_block_request(&begin_block(1, vec![])).unwrap();
    validator.on_deliver_tx_request().unwrap();
    validator.on_end_block_request(&EndBlockRequest { height: 1 }).unwrap();
    validator.on_commit_request().unwrap();
    validator
        .on_commit_response(&CommitResponse {
            data: vec![10, 20],
            retain_height: 0,
        })
        .unwrap();
    assert_eq!(
        *validator.state(),
        ConsensusState::WaitingForBlock {
            block_height: 2,
            app_hash: vec![10, 20]
        }
    );
    assert_eq!(
        validator.on_begin_block_request(&begin_block(2, vec![10, 21])),
        Err("Expected app hash [10, 20] in `BeginBlock`. Got [10, 21]".to_string())
    );
    assert_eq!(validator.on_begin_block_request(&begin_block(2, vec![10, 20])), Ok(()));
}

#[test]
fn handler_results_become_response_fields() {
    let ok = CheckTxResponse {
        data: vec![1],
        gas_used: 3,
        ..Default::default()
    };
    assert_eq!(CheckTxResponse::from_result(Ok(ok.clone())), ok);
    let failed = CheckTxResponse::from_result(Err(error()));
    assert_eq!(
        failed,
        CheckTxResponse {
            code: 7,
            codespace: "space".to_string(),
            log: "log".to_string(),
            info: "info".to_string(),
            ..Default::default()
        }
    );

    let failed = DeliverTxResponse::from_result(Err(error()));
    assert_eq!((failed.code, failed.codespace.as_str()), (7, "space"));
    assert!(failed.data.is_empty());

    let failed = QueryResponse::from_result(Err(error()));
    assert_eq!((failed.code, failed.log.as_str(), failed.info.as_str()), (7, "log", "info"));
    assert!(failed.proof.is_none());

    let failed = SetOptionResponse::from_result(Err(error()));
    assert_eq!(
        failed,
        SetOptionResponse {
            code: 7,
            log: "log".to_string(),
            info: "info".to_string()
        }
    );
    let ok = SetOptionResponse {
        code: 0,
        log: "set".to_string(),
        info: String::new(),
    };
    assert_eq!(SetOptionResponse::from_result(Ok(ok.clone())), ok);
}

#[test]
fn connection_types_of_requests() {
    assert_eq!(ConnectionType::default(), ConnectionType::Unknown);
    assert!(ConnectionType::Unknown.is_unknown());
    assert!(!ConnectionType::Info.is_unknown());
    assert_eq!(
        ConnectionType::of_request(&Request::Echo(EchoRequest::default())),
        ConnectionType::Unknown
    );
    assert_eq!(
        ConnectionType::of_request(&Request::EndBlock(EndBlockRequest::default())),
        ConnectionType::Consensus
    );
    assert_eq!(CheckTxType::default(), CheckTxType::New);
}
