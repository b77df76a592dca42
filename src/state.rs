//! The consensus state validator: the automaton that enforces the order of the calls that
//! execute a block, shared by the consensus and info connections.
use crate::text::{byte_list, push_byte_list, push_signed_decimal, signed_decimal};
use crate::types::{BeginBlockRequest, CommitResponse, EndBlockRequest, InfoResponse};
use vstd::prelude::*;

verus! {

/// Phase of the block that is being executed.
#[derive(Debug, Clone, Copy, PartialEq, Eq, Structural)]
pub enum BlockExecutionState {
    /// `BeginBlock` was the last call
    BeginBlock,
    /// `DeliverTx` was the last call
    DeliverTx,
    /// `EndBlock` was the last call
    EndBlock,
    /// `Commit` was the last call
    Commit,
}

/// State of consensus, as far as the validator has observed it.
#[derive(Debug, Clone, PartialEq, Eq)]
pub enum ConsensusState {
    /// Nothing is known yet
    NoInfo,
    /// `Info` reported an empty chain: `InitChain` is expected
    NotInitialized,
    /// `InitChain` was accepted: the first `BeginBlock` is expected
    InitChain,
    /// A committed block was observed: the next `BeginBlock` must carry this height and app hash
    WaitingForBlock { block_height: i64, app_hash: Vec<u8> },
    /// A block is being executed
    ExecutingBlock { block_height: i64, execution_state: BlockExecutionState },
}

/// Mathematical model of a [`ConsensusState`], with the app hash as a byte sequence.
pub enum ConsensusStateModel {
    NoInfo,
    NotInitialized,
    InitChain,
    WaitingForBlock { block_height: i64, app_hash: Seq<u8> },
    ExecutingBlock { block_height: i64, execution_state: BlockExecutionState },
}

impl View for ConsensusState {
    type V = ConsensusStateModel;

    open spec fn view(&self) -> ConsensusStateModel {
        match self {
            ConsensusState::NoInfo => ConsensusStateModel::NoInfo,
            ConsensusState::NotInitialized => ConsensusStateModel::NotInitialized,
            ConsensusState::InitChain => ConsensusStateModel::InitChain,
            ConsensusState::WaitingForBlock { block_height, app_hash } => {
                ConsensusStateModel::WaitingForBlock { block_height: *block_height, app_hash: app_hash@ }
            },
            ConsensusState::ExecutingBlock { block_height, execution_state } => {
                ConsensusStateModel::ExecutingBlock {
                    block_height: *block_height,
                    execution_state: *execution_state,
                }
            },
        }
    }
}

impl Default for ConsensusState {
    fn default() -> (r: Self)
        ensures
            r@ == ConsensusStateModel::NoInfo,
    {
        ConsensusState::NoInfo
    }
}

/// Whether a block may move from phase `current` to phase `next`.
pub open spec fn phase_follows(current: BlockExecutionState, next: BlockExecutionState) -> bool {
    ||| current == BlockExecutionState::BeginBlock && next == BlockExecutionState::DeliverTx
    ||| current == BlockExecutionState::BeginBlock && next == BlockExecutionState::EndBlock
    ||| current == BlockExecutionState::DeliverTx && next == BlockExecutionState::DeliverTx
    ||| current == BlockExecutionState::DeliverTx && next == BlockExecutionState::EndBlock
    ||| current == BlockExecutionState::EndBlock && next == BlockExecutionState::Commit
}

/// Name of a phase.
pub open spec fn phase_text(p: BlockExecutionState) -> Seq<char> {
    match p {
        BlockExecutionState::BeginBlock => "BeginBlock"@,
        BlockExecutionState::DeliverTx => "DeliverTx"@,
        BlockExecutionState::EndBlock => "EndBlock"@,
        BlockExecutionState::Commit => "Commit"@,
    }
}

/// Message of a refused phase change.
pub open spec fn phase_rejection(current: BlockExecutionState, next: BlockExecutionState) -> Seq<char> {
    phase_text(next) + " cannot be called after "@ + phase_text(current)
}

/// Text of a consensus state, as in its `Debug` form.
pub open spec fn state_text(s: ConsensusStateModel) -> Seq<char> {
    match s {
        ConsensusStateModel::NoInfo => "NoInfo"@,
        ConsensusStateModel::NotInitialized => "NotInitialized"@,
        ConsensusStateModel::InitChain => "InitChain"@,
        ConsensusStateModel::WaitingForBlock { block_height, app_hash } => {
            "WaitingForBlock { block_height: "@ + signed_decimal(block_height as int)
                + ", app_hash: "@ + byte_list(app_hash) + " }"@
        },
        ConsensusStateModel::ExecutingBlock { block_height, execution_state } => {
            "ExecutingBlock { block_height: "@ + signed_decimal(block_height as int)
                + ", execution_state: "@ + phase_text(execution_state) + " }"@
        },
    }
}

fn phase_name(p: BlockExecutionState) -> (r: &'static str)
    ensures
        r@ == phase_text(p),
{
    match p {
        BlockExecutionState::BeginBlock => "BeginBlock",
        BlockExecutionState::DeliverTx => "DeliverTx",
        BlockExecutionState::EndBlock => "EndBlock",
        BlockExecutionState::Commit => "Commit",
    }
}

/// Appends the text of `s` to `out`.
pub fn push_state_text(out: &mut String, s: &ConsensusState)
    ensures
        final(out)@ == old(out)@ + state_text(s@),
{
    match s {
        ConsensusState::NoInfo => out.append("NoInfo"),
        ConsensusState::NotInitialized => out.append("NotInitialized"),
        ConsensusState::InitChain => out.append("InitChain"),
        ConsensusState::WaitingForBlock { block_height, app_hash } => {
            out.append("WaitingForBlock { block_height: ");
            push_signed_decimal(out, *block_height);
            out.append(", app_hash: ");
            push_byte_list(out, app_hash.as_slice());
            out.append(" }");
            assert(final(out)@ =~= old(out)@ + state_text(s@));
        },
        ConsensusState::ExecutingBlock { block_height, execution_state } => {
            out.append("ExecutingBlock { block_height: ");
            push_signed_decimal(out, *block_height);
            out.append(", execution_state: ");
            out.append(phase_name(*execution_state));
            out.append(" }");
            assert(final(out)@ =~= old(out)@ + state_text(s@));
        },
    }
}

impl BlockExecutionState {
    /// Moves the block to phase `next` where the order of calls allows it; otherwise the
    /// phase stays and the error names both phases.
    pub fn validate(&mut self, next: Self) -> (r: Result<(), String>)
        ensures
            phase_follows(*old(self), next) ==> r is Ok && *final(self) == next,
            !phase_follows(*old(self), next) ==> (r matches Err(e) && e@ == phase_rejection(
                *old(self),
                next,
            ) && *final(self) == *old(self)),
    {
        let current = *self;
        let is_valid = match (current, next) {
            (BlockExecutionState::BeginBlock, BlockExecutionState::DeliverTx)
            | (BlockExecutionState::BeginBlock, BlockExecutionState::EndBlock)
            | (BlockExecutionState::DeliverTx, BlockExecutionState::DeliverTx)
            | (BlockExecutionState::DeliverTx, BlockExecutionState::EndBlock)
            | (BlockExecutionState::EndBlock, BlockExecutionState::Commit) => true,
            _ => false,
        };
        if is_valid {
            *self = next;
            Ok(())
        } else {
            let mut error = String::new();
            error.append(phase_name(next));
            error.append(" cannot be called after ");
            error.append(phase_name(current));
            assert(error@ =~= phase_rejection(current, next));
            Err(error)
        }
    }
}

/// Tracks the state of consensus and checks each consensus call against it.
///
/// It is shared by the consensus and info connections; whoever holds it holds the lock
/// that serializes its hooks.
#[derive(Debug)]
pub struct ConsensusStateValidator {
    state: ConsensusState,
}

impl View for ConsensusStateValidator {
    type V = ConsensusStateModel;

    closed spec fn view(&self) -> ConsensusStateModel {
        self.state@
    }
}

impl Default for ConsensusStateValidator {
    fn default() -> (r: Self)
        ensures
            r@ == ConsensusStateModel::NoInfo,
    {
        ConsensusStateValidator { state: ConsensusState::NoInfo }
    }
}

/// Height and app hash of the header of a `BeginBlock` request, if it has one.
pub open spec fn header_of(request: BeginBlockRequest) -> Option<(i64, Seq<u8>)> {
    match request.header {
        Some(header) => Some((header.height, header.app_hash@)),
        None => None,
    }
}

/// What a hook owes: where `step` gives a next state it returns `Ok` and moves there;
/// otherwise it returns the error `rejection` and leaves the state as it was.
pub open spec fn hook_outcome(
    before: ConsensusStateModel,
    after: ConsensusStateModel,
    r: Result<(), String>,
    step: Option<ConsensusStateModel>,
    rejection: Seq<char>,
) -> bool {
    match step {
        Some(next) => r is Ok && after == next,
        None => r matches Err(e) && e@ == rejection && after == before,
    }
}

/// State after an `Info` response reporting `height` and `app_hash`. Only the first
/// response counts; a height with no successor leaves the state as it was.
pub open spec fn info_step(s: ConsensusStateModel, height: i64, app_hash: Seq<u8>) -> ConsensusStateModel {
    if s is NoInfo {
        if height == 0 {
            ConsensusStateModel::NotInitialized
        } else if height < i64::MAX {
            ConsensusStateModel::WaitingForBlock { block_height: (height + 1) as i64, app_hash }
        } else {
            s
        }
    } else {
        s
    }
}

/// Message of a call that the state `s` does not allow.
pub open spec fn called_after(call: Seq<char>, s: ConsensusStateModel) -> Seq<char> {
    call + " cannot be called after "@ + state_text(s)
}

/// State after an accepted `InitChain`; `None` where it is refused.
pub open spec fn init_chain_step(s: ConsensusStateModel) -> Option<ConsensusStateModel> {
    if s is NotInitialized {
        Some(ConsensusStateModel::InitChain)
    } else {
        None
    }
}

/// Message of a refused `InitChain`.
pub open spec fn init_chain_rejection() -> Seq<char> {
    "Received `InitChain` call when chain is already initialized"@
}

/// State after an accepted `BeginBlock` whose header is `header`; `None` where it is refused.
pub open spec fn begin_block_step(
    s: ConsensusStateModel,
    header: Option<(i64, Seq<u8>)>,
) -> Option<ConsensusStateModel> {
    match s {
        ConsensusStateModel::InitChain => match header {
            Some(h) => Some(
                ConsensusStateModel::ExecutingBlock {
                    block_height: h.0,
                    execution_state: BlockExecutionState::BeginBlock,
                },
            ),
            None => None,
        },
        ConsensusStateModel::WaitingForBlock { block_height, app_hash } => match header {
            Some(h) => if h.0 == block_height && h.1 == app_hash {
                Some(
                    ConsensusStateModel::ExecutingBlock {
                        block_height,
                        execution_state: BlockExecutionState::BeginBlock,
                    },
                )
            } else {
                None
            },
            None => None,
        },
        _ => None,
    }
}

/// Message of a refused `BeginBlock` whose header is `header`.
pub open spec fn begin_block_rejection(s: ConsensusStateModel, header: Option<(i64, Seq<u8>)>) -> Seq<char> {
    match s {
        ConsensusStateModel::InitChain => "`BeginBlock` request does not contain a header"@,
        ConsensusStateModel::WaitingForBlock { block_height, app_hash } => match header {
            Some(h) => if h.0 != block_height {
                "Expected height "@ + signed_decimal(block_height as int)
                    + " in `BeginBlock` request. Got "@ + signed_decimal(h.0 as int)
            } else {
                "Expected app hash "@ + byte_list(app_hash) + " in `BeginBlock`. Got "@
                    + byte_list(h.1)
            },
            None => "`BeginBlock` request does not contain a header"@,
        },
        _ => called_after("`BeginBlock`"@, s),
    }
}

/// State after an accepted `DeliverTx`; `None` where it is refused.
pub open spec fn deliver_tx_step(s: ConsensusStateModel) -> Option<ConsensusStateModel> {
    match s {
        ConsensusStateModel::ExecutingBlock { block_height, execution_state } => {
            if phase_follows(execution_state, BlockExecutionState::DeliverTx) {
                Some(
                    ConsensusStateModel::ExecutingBlock {
                        block_height,
                        execution_state: BlockExecutionState::DeliverTx,
                    },
                )
            } else {
                None
            }
        },
        _ => None,
    }
}

/// Message of a refused `DeliverTx`.
pub open spec fn deliver_tx_rejection(s: ConsensusStateModel) -> Seq<char> {
    match s {
        ConsensusStateModel::ExecutingBlock { execution_state, .. } => phase_rejection(
            execution_state,
            BlockExecutionState::DeliverTx,
        ),
        _ => called_after("`DeliverTx`"@, s),
    }
}

/// State after an accepted `EndBlock` for `height`; `None` where it is refused.
pub open spec fn end_block_step(s: ConsensusStateModel, height: i64) -> Option<ConsensusStateModel> {
    match s {
        ConsensusStateModel::ExecutingBlock { block_height, execution_state } => {
            if height == block_height && phase_follows(execution_state, BlockExecutionState::EndBlock) {
                Some(
                    ConsensusStateModel::ExecutingBlock {
                        block_height,
                        execution_state: BlockExecutionState::EndBlock,
                    },
                )
            } else {
                None
            }
        },
        _ => None,
    }
}

/// Message of a refused `EndBlock` for `height`.
pub open spec fn end_block_rejection(s: ConsensusStateModel, height: i64) -> Seq<char> {
    match s {
        ConsensusStateModel::ExecutingBlock { block_height, execution_state } => {
            if height != block_height {
                "Expected `EndBlock` for height "@ + signed_decimal(block_height as int)
                    + ". But received for "@ + signed_decimal(height as int)
            } else {
                phase_rejection(execution_state, BlockExecutionState::EndBlock)
            }
        },
        _ => called_after("`EndBlock`"@, s),
    }
}

/// State after an accepted `Commit`; `None` where it is refused, which includes a block at
/// the largest height, since no height could follow it.
pub open spec fn commit_step(s: ConsensusStateModel) -> Option<ConsensusStateModel> {
    match s {
        ConsensusStateModel::ExecutingBlock { block_height, execution_state } => {
            if phase_follows(execution_state, BlockExecutionState::Commit) && block_height < i64::MAX {
                Some(
                    ConsensusStateModel::ExecutingBlock {
                        block_height,
                        execution_state: BlockExecutionState::Commit,
                    },
                )
            } else {
                None
            }
        },
        _ => None,
    }
}

/// Message of a refused `Commit`.
pub open spec fn commit_rejection(s: ConsensusStateModel) -> Seq<char> {
    match s {
        ConsensusStateModel::ExecutingBlock { execution_state, .. } => {
            if phase_follows(execution_state, BlockExecutionState::Commit) {
                "No block height follows "@ + state_text(s)
            } else {
                phase_rejection(execution_state, BlockExecutionState::Commit)
            }
        },
        _ => called_after("`Commit`"@, s),
    }
}

/// State after a `Commit` response carrying `data`; `None` where it is refused.
pub open spec fn commit_response_step(s: ConsensusStateModel, data: Seq<u8>) -> Option<ConsensusStateModel> {
    match s {
        ConsensusStateModel::ExecutingBlock { block_height, execution_state } => {
            if execution_state == BlockExecutionState::Commit && block_height < i64::MAX {
                Some(
                    ConsensusStateModel::WaitingForBlock {
                        block_height: (block_height + 1) as i64,
                        app_hash: data,
                    },
                )
            } else {
                None
            }
        },
        _ => None,
    }
}

/// Message of a refused `Commit` response.
pub open spec fn commit_response_rejection(s: ConsensusStateModel) -> Seq<char> {
    if s matches ConsensusStateModel::ExecutingBlock {
        execution_state: BlockExecutionState::Commit,
        ..
    } {
        "No block height follows "@ + state_text(s)
    } else {
        "Received `CommitResponse` after "@ + state_text(s)
    }
}

fn bytes_equal(a: &[u8], b: &[u8]) -> (r: bool)
    ensures
        r == (a@ == b@),
{
    if a.len() != b.len() {
        return false;
    }
    let mut i: usize = 0;
    while i < a.len()
        invariant
            a.len() == b.len(),
            i <= a.len(),
            a@.subrange(0, i as int) == b@.subrange(0, i as int),
        decreases a.len() - i,
    {
        if a[i] != b[i] {
            assert(a@[i as int] != b@[i as int]);
            return false;
        }
        assert(a@.subrange(0, i as int + 1) =~= a@.subrange(0, i as int).push(a@[i as int]));
        assert(b@.subrange(0, i as int + 1) =~= b@.subrange(0, i as int).push(b@[i as int]));
        i = i + 1;
    }
    assert(a@ =~= a@.subrange(0, i as int));
    assert(b@ =~= b@.subrange(0, i as int));
    true
}

fn copy_bytes(b: &[u8]) -> (r: Vec<u8>)
    ensures
        r@ == b@,
{
    let mut r: Vec<u8> = Vec::new();
    let mut i: usize = 0;
    while i < b.len()
        invariant
            i <= b.len(),
            r@ == b@.subrange(0, i as int),
        decreases b.len() - i,
    {
        r.push(b[i]);
        i = i + 1;
        assert(r@ =~= b@.subrange(0, i as int));
    }
    assert(b@ =~= b@.subrange(0, i as int));
    r
}

fn rejection_after(call: &str, s: &ConsensusState) -> (r: String)
    ensures
        r@ == called_after(call@, s@),
{
    let mut error = String::new();
    error.append(call);
    error.append(" cannot be called after ");
    push_state_text(&mut error, s);
    assert(error@ =~= called_after(call@, s@));
    error
}

impl ConsensusStateValidator {
    /// The current state.
    pub fn state(&self) -> (r: &ConsensusState)
        ensures
            r@ == self@,
    {
        &self.state
    }

    /// Records the first `Info` response: an empty chain awaits `InitChain`; otherwise the
    /// next block must follow the reported height and app hash. Later responses change nothing.
    pub fn on_info_response(&mut self, info_response: &InfoResponse)
        ensures
            final(self)@ == info_step(
                old(self)@,
                info_response.last_block_height,
                info_response.last_block_app_hash@,
            ),
    {
        if let ConsensusState::NoInfo = self.state {
            let block_height = info_response.last_block_height;
            if block_height == 0 {
                self.state = ConsensusState::NotInitialized;
            } else if block_height < i64::MAX {
                self.state = ConsensusState::WaitingForBlock {
                    block_height: block_height + 1,
                    app_hash: copy_bytes(info_response.last_block_app_hash.as_slice()),
                };
            }
        }
    }

    /// Checks an `InitChain` request: accepted only on a chain that `Info` reported empty.
    pub fn on_init_chain_request(&mut self) -> (r: Result<(), String>)
        ensures
            hook_outcome(old(self)@, final(self)@, r, init_chain_step(old(self)@), init_chain_rejection()),
    {
        if let ConsensusState::NotInitialized = self.state {
            self.state = ConsensusState::InitChain;
            Ok(())
        } else {
            let mut error = String::new();
            error.append("Received `InitChain` call when chain is already initialized");
            Err(error)
        }
    }

    /// Checks a `BeginBlock` request: after `InitChain` any height is accepted; after a
    /// committed block the header must carry the expected height and app hash.
    pub fn on_begin_block_request(&mut self, begin_block_request: &BeginBlockRequest) -> (r: Result<(), String>)
        ensures
            hook_outcome(
                old(self)@,
                final(self)@,
                r,
                begin_block_step(old(self)@, header_of(*begin_block_request)),
                begin_block_rejection(old(self)@, header_of(*begin_block_request)),
            ),
    {
        let new_state = match &self.state {
            ConsensusState::InitChain => match &begin_block_request.header {
                Some(header) => ConsensusState::ExecutingBlock {
                    block_height: header.height,
                    execution_state: BlockExecutionState::BeginBlock,
                },
                None => {
                    let mut error = String::new();
                    error.append("`BeginBlock` request does not contain a header");
                    return Err(error);
                },
            },
            ConsensusState::WaitingForBlock { block_height, app_hash } => {
                let block_height = *block_height;
                match &begin_block_request.header {
                    None => {
                        let mut error = String::new();
                        error.append("`BeginBlock` request does not contain a header");
                        return Err(error);
                    },
                    Some(header) => {
                        if header.height != block_height {
                            let mut error = String::new();
                            error.append("Expected height ");
                            push_signed_decimal(&mut error, block_height);
                            error.append(" in `BeginBlock` request. Got ");
                            push_signed_decimal(&mut error, header.height);
                            assert(error@ =~= begin_block_rejection(
                                self@,
                                header_of(*begin_block_request),
                            ));
                            return Err(error);
                        }
                        if !bytes_equal(header.app_hash.as_slice(), app_hash.as_slice()) {
                            let mut error = String::new();
                            error.append("Expected app hash ");
                            push_byte_list(&mut error, app_hash.as_slice());
                            error.append(" in `BeginBlock`. Got ");
                            push_byte_list(&mut error, header.app_hash.as_slice());
                            assert(error@ =~= begin_block_rejection(
                                self@,
                                header_of(*begin_block_request),
                            ));
                            return Err(error);
                        }
                        ConsensusState::ExecutingBlock {
                            block_height,
                            execution_state: BlockExecutionState::BeginBlock,
                        }
                    },
                }
            },
            _ => {
                return Err(rejection_after("`BeginBlock`", &self.state));
            },
        };
        self.state = new_state;
        Ok(())
    }

    /// Checks a `DeliverTx` request: allowed only right after `BeginBlock` or `DeliverTx`.
    pub fn on_deliver_tx_request(&mut self) -> (r: Result<(), String>)
        ensures
            hook_outcome(
                old(self)@,
                final(self)@,
                r,
                deliver_tx_step(old(self)@),
                deliver_tx_rejection(old(self)@),
            ),
    {
        let executing = match &self.state {
            ConsensusState::ExecutingBlock { block_height, execution_state } => Some(
                (*block_height, *execution_state),
            ),
            _ => None,
        };
        match executing {
            Some((block_height, execution_state)) => {
                let mut phase = execution_state;
                let r = phase.validate(BlockExecutionState::DeliverTx);
                if r.is_ok() {
                    self.state = ConsensusState::ExecutingBlock { block_height, execution_state: phase };
                }
                r
            },
            None => Err(rejection_after("`DeliverTx`", &self.state)),
        }
    }

    /// Checks an `EndBlock` request: it must name the height of the block being executed
    /// and come right after `BeginBlock` or `DeliverTx`.
    pub fn on_end_block_request(&mut self, end_block_request: &EndBlockRequest) -> (r: Result<(), String>)
        ensures
            hook_outcome(
                old(self)@,
                final(self)@,
                r,
                end_block_step(old(self)@, end_block_request.height),
                end_block_rejection(old(self)@, end_block_request.height),
            ),
    {
        let executing = match &self.state {
            ConsensusState::ExecutingBlock { block_height, execution_state } => Some(
                (*block_height, *execution_state),
            ),
            _ => None,
        };
        match executing {
            Some((block_height, execution_state)) => {
                if block_height != end_block_request.height {
                    let mut error = String::new();
                    error.append("Expected `EndBlock` for height ");
                    push_signed_decimal(&mut error, block_height);
                    error.append(". But received for ");
                    push_signed_decimal(&mut error, end_block_request.height);
                    assert(error@ =~= end_block_rejection(self@, end_block_request.height));
                    return Err(error);
                }
                let mut phase = execution_state;
                let r = phase.validate(BlockExecutionState::EndBlock);
                if r.is_ok() {
                    self.state = ConsensusState::ExecutingBlock { block_height, execution_state: phase };
                }
                r
            },
            None => Err(rejection_after("`EndBlock`", &self.state)),
        }
    }

    /// Checks a `Commit` request: allowed only right after `EndBlock`, and not for a block at
    /// the largest height, whose commit no block could follow.
    pub fn on_commit_request(&mut self) -> (r: Result<(), String>)
        ensures
            hook_outcome(old(self)@, final(self)@, r, commit_step(old(self)@), commit_rejection(old(self)@)),
    {
        let executing = match &self.state {
            ConsensusState::ExecutingBlock { block_height, execution_state } => Some(
                (*block_height, *execution_state),
            ),
            _ => None,
        };
        match executing {
            Some((block_height, execution_state)) => {
                if block_height == i64::MAX && execution_state == BlockExecutionState::EndBlock {
                    let mut error = String::new();
                    error.append("No block height follows ");
                    push_state_text(&mut error, &self.state);
                    return Err(error);
                }
                let mut phase = execution_state;
                let r = phase.validate(BlockExecutionState::Commit);
                if r.is_ok() {
                    self.state = ConsensusState::ExecutingBlock { block_height, execution_state: phase };
                }
                r
            },
            None => Err(rejection_after("`Commit`", &self.state)),
        }
    }

    /// Records the response to an accepted `Commit`: the next block must have the next
    /// height and the app hash that the response carries.
    pub fn on_commit_response(&mut self, commit_response: &CommitResponse) -> (r: Result<(), String>)
        ensures
            hook_outcome(
                old(self)@,
                final(self)@,
                r,
                commit_response_step(old(self)@, commit_response.data@),
                commit_response_rejection(old(self)@),
            ),
    {
        let committing = match &self.state {
            ConsensusState::ExecutingBlock {
                block_height,
                execution_state: BlockExecutionState::Commit,
            } => Some(*block_height),
            _ => None,
        };
        match committing {
            Some(block_height) => {
                if block_height == i64::MAX {
                    let mut error = String::new();
                    error.append("No block height follows ");
                    push_state_text(&mut error, &self.state);
                    return Err(error);
                }
                self.state = ConsensusState::WaitingForBlock {
                    block_height: block_height + 1,
                    app_hash: copy_bytes(commit_response.data.as_slice()),
                };
                Ok(())
            },
            None => {
                let mut error = String::new();
                error.append("Received `CommitResponse` after ");
                push_state_text(&mut error, &self.state);
                Err(error)
            },
        }
    }
}

/// After a `Commit` that the validator accepted, at height `h`, its response carrying `data`
/// is always recorded, and then the only `BeginBlock` that the validator accepts is one
/// whose header has height `h + 1` and app hash `data`.
pub proof fn lemma_begin_block_after_commit(
    before: ConsensusStateModel,
    data: Seq<u8>,
    header: Option<(i64, Seq<u8>)>,
)
    requires
        commit_step(before) is Some,
    ensures
        before is ExecutingBlock,
        ({
            let h = before->ExecutingBlock_block_height;
            &&& commit_response_step(commit_step(before)->Some_0, data) is Some
            &&& begin_block_step(commit_response_step(commit_step(before)->Some_0, data)->Some_0, header)
                is Some <==> (header matches Some(x) && x.0 as int == h + 1 && x.1 == data)
        }),
{
}

/// After the first `Info` response reports height `h > 0` and app hash `app_hash`, the only
/// `BeginBlock` that the validator accepts next is one whose header has height `h + 1` and
/// app hash `app_hash`.
pub proof fn lemma_begin_block_after_info(h: i64, app_hash: Seq<u8>, header: Option<(i64, Seq<u8>)>)
    requires
        h > 0,
    ensures
        begin_block_step(info_step(ConsensusStateModel::NoInfo, h, app_hash), header) is Some <==> (
        header matches Some(x) && x.0 as int == h + 1 && x.1 == app_hash),
{
}

/// Once the validator has left `NoInfo`, `Info` responses no longer change it.
pub proof fn lemma_later_info_ignored(s: ConsensusStateModel, h: i64, app_hash: Seq<u8>)
    requires
        !(s is NoInfo),
    ensures
        info_step(s, h, app_hash) == s,
{
}

} // verus!
