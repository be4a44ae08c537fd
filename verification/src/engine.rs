//! Slot processing engine: one attempt at a slot as an explicit state
//! machine. The engine makes every decision; the surrounding program performs
//! the requested fetches and submissions and feeds the results back as
//! events. Every terminal is a skip, a successful submission, or a failure
//! classified transient or permanent.

use vstd::prelude::*;

use crate::data::{
    copy_bytes, copy_hash_list, BeaconBlockData, BeaconBlockModel, BlobSidecarData,
    ExecutionBlockData, ExecutionBlockModel, SidecarModel,
};
use crate::entities::{
    all_covered, build_block, build_blobs, build_transactions, entry_covered,
    first_uncovered_in_list, spec_block_entity, spec_blobs, spec_missing_fault,
    spec_transactions, BlobEntity, BlobEntityModel, BlockEntity, BlockEntityModel,
    TransactionEntity, TransactionEntityModel,
};
use crate::events::{
    AttemptFailure, AttemptFailureModel, EmittedEvent, EmittedEventModel, IndexedSummary,
    IndexedSummaryModel, PermanentFault, PermanentFaultModel, SkipReason, TransientFault,
    TransientFaultModel,
};
use crate::reconcile::{
    all_blob_hashes_wf, build_tx_hash_mapping, build_versioned_hash_mapping, first_duplicate,
    first_malformed_tx, sidecar_hashes_distinct, spec_tx_mapping, TxBlobHashesModel,
    TxHashMapping,
};

verus! {

/// Terminal result of one attempt.
#[derive(Debug, Clone, PartialEq, Eq)]
pub enum AttemptOutcome {
    Skipped { slot: u32, reason: SkipReason },
    Indexed { summary: IndexedSummary },
    Failed { failure: AttemptFailure },
}

pub ghost enum AttemptOutcomeModel {
    Skipped { slot: u32, reason: SkipReason },
    Indexed { summary: IndexedSummaryModel },
    Failed { failure: AttemptFailureModel },
}

impl View for AttemptOutcome {
    type V = AttemptOutcomeModel;

    open spec fn view(&self) -> AttemptOutcomeModel {
        match self {
            AttemptOutcome::Skipped { slot, reason } => AttemptOutcomeModel::Skipped {
                slot: *slot,
                reason: *reason,
            },
            AttemptOutcome::Indexed { summary } => AttemptOutcomeModel::Indexed {
                summary: summary@,
            },
            AttemptOutcome::Failed { failure } => AttemptOutcomeModel::Failed {
                failure: failure@,
            },
        }
    }
}

/// State of one attempt: which answer the engine is waiting for.
#[derive(Debug, Clone, PartialEq, Eq)]
pub enum EngineState {
    AwaitingBeaconBlock { slot: u32 },
    AwaitingExecutionBlock { slot: u32, block_hash: Vec<u8> },
    AwaitingBlobs { slot: u32, execution_block: ExecutionBlockData, mapping: TxHashMapping },
    AwaitingSubmission { slot: u32, summary: IndexedSummary },
    Finished { outcome: AttemptOutcome },
}

pub ghost enum EngineStateModel {
    AwaitingBeaconBlock { slot: u32 },
    AwaitingExecutionBlock { slot: u32, block_hash: Seq<u8> },
    AwaitingBlobs {
        slot: u32,
        execution_block: ExecutionBlockModel,
        mapping: Seq<TxBlobHashesModel>,
    },
    AwaitingSubmission { slot: u32, summary: IndexedSummaryModel },
    Finished { outcome: AttemptOutcomeModel },
}

impl View for EngineState {
    type V = EngineStateModel;

    open spec fn view(&self) -> EngineStateModel {
        match self {
            EngineState::AwaitingBeaconBlock { slot } => EngineStateModel::AwaitingBeaconBlock {
                slot: *slot,
            },
            EngineState::AwaitingExecutionBlock { slot, block_hash } => EngineStateModel::AwaitingExecutionBlock {
                slot: *slot,
                block_hash: block_hash@,
            },
            EngineState::AwaitingBlobs { slot, execution_block, mapping } => EngineStateModel::AwaitingBlobs {
                slot: *slot,
                execution_block: execution_block@,
                mapping: mapping@,
            },
            EngineState::AwaitingSubmission { slot, summary } => EngineStateModel::AwaitingSubmission {
                slot: *slot,
                summary: summary@,
            },
            EngineState::Finished { outcome } => EngineStateModel::Finished { outcome: outcome@ },
        }
    }
}

/// Answer to one request the engine issued. `Err` carries the transport
/// failure text; `Ok(None)` means the resource is absent.
#[derive(Debug, PartialEq, Eq)]
pub enum EngineEvent {
    BeaconBlockFetched { result: Result<Option<BeaconBlockData>, String> },
    ExecutionBlockFetched { result: Result<Option<ExecutionBlockData>, String> },
    BlobsFetched { result: Result<Option<Vec<BlobSidecarData>>, String> },
    SubmissionCompleted { result: Result<(), String> },
}

pub ghost enum EngineEventModel {
    BeaconBlockFetched { result: Result<Option<BeaconBlockModel>, Seq<char>> },
    ExecutionBlockFetched { result: Result<Option<ExecutionBlockModel>, Seq<char>> },
    BlobsFetched { result: Result<Option<Seq<SidecarModel>>, Seq<char>> },
    SubmissionCompleted { result: Result<(), Seq<char>> },
}

impl View for EngineEvent {
    type V = EngineEventModel;

    open spec fn view(&self) -> EngineEventModel {
        match self {
            EngineEvent::BeaconBlockFetched { result } => EngineEventModel::BeaconBlockFetched {
                result: match result {
                    Ok(Some(b)) => Ok(Some(b@)),
                    Ok(None) => Ok(None),
                    Err(e) => Err(e@),
                },
            },
            EngineEvent::ExecutionBlockFetched { result } => EngineEventModel::ExecutionBlockFetched {
                result: match result {
                    Ok(Some(b)) => Ok(Some(b@)),
                    Ok(None) => Ok(None),
                    Err(e) => Err(e@),
                },
            },
            EngineEvent::BlobsFetched { result } => EngineEventModel::BlobsFetched {
                result: match result {
                    Ok(Some(s)) => Ok(Some(s.deep_view())),
                    Ok(None) => Ok(None),
                    Err(e) => Err(e@),
                },
            },
            EngineEvent::SubmissionCompleted { result } => EngineEventModel::SubmissionCompleted {
                result: match result {
                    Ok(u) => Ok(*u),
                    Err(e) => Err(e@),
                },
            },
        }
    }
}

/// What the engine asks its caller to do next.
#[derive(Debug, Clone, PartialEq, Eq)]
pub enum EngineAction {
    FetchBeaconBlock { slot: u32 },
    FetchExecutionBlock { block_hash: Vec<u8> },
    FetchBlobs { slot: u32 },
    Submit { block: BlockEntity, transactions: Vec<TransactionEntity>, blobs: Vec<BlobEntity> },
}

pub ghost enum EngineActionModel {
    FetchBeaconBlock { slot: u32 },
    FetchExecutionBlock { block_hash: Seq<u8> },
    FetchBlobs { slot: u32 },
    Submit {
        block: BlockEntityModel,
        transactions: Seq<TransactionEntityModel>,
        blobs: Seq<BlobEntityModel>,
    },
}

impl View for EngineAction {
    type V = EngineActionModel;

    open spec fn view(&self) -> EngineActionModel {
        match self {
            EngineAction::FetchBeaconBlock { slot } => EngineActionModel::FetchBeaconBlock {
                slot: *slot,
            },
            EngineAction::FetchExecutionBlock { block_hash } => EngineActionModel::FetchExecutionBlock {
                block_hash: block_hash@,
            },
            EngineAction::FetchBlobs { slot } => EngineActionModel::FetchBlobs { slot: *slot },
            EngineAction::Submit { block, transactions, blobs } => EngineActionModel::Submit {
                block: block@,
                transactions: transactions.deep_view(),
                blobs: blobs.deep_view(),
            },
        }
    }
}

/// One step's outcome at the model level.
pub ghost struct StepModel {
    pub state: EngineStateModel,
    pub action: Option<EngineActionModel>,
    pub events: Seq<EmittedEventModel>,
}

/// Model of the first step: every attempt begins by fetching the beacon
/// block of the slot.
pub open spec fn spec_start(slot: u32) -> StepModel {
    StepModel {
        state: EngineStateModel::AwaitingBeaconBlock { slot },
        action: Some(EngineActionModel::FetchBeaconBlock { slot }),
        events: Seq::empty(),
    }
}

/// Finished state holding a failure.
pub open spec fn failed_state(f: AttemptFailureModel) -> EngineStateModel {
    EngineStateModel::Finished { outcome: AttemptOutcomeModel::Failed { failure: f } }
}

/// Finished state holding a skip, with its debug event.
pub open spec fn skip_step(slot: u32, reason: SkipReason) -> StepModel {
    StepModel {
        state: EngineStateModel::Finished {
            outcome: AttemptOutcomeModel::Skipped { slot, reason },
        },
        action: None,
        events: seq![EmittedEventModel::SlotSkipped { slot, reason }],
    }
}

/// Step model with no action and no events.
pub open spec fn quiet_step(state: EngineStateModel) -> StepModel {
    StepModel { state, action: None, events: Seq::empty() }
}

/// The beacon-block answer: skip when the block, its payload or its
/// commitments are missing; otherwise fetch the execution block.
pub open spec fn spec_on_beacon_block(
    slot: u32,
    result: Result<Option<BeaconBlockModel>, Seq<char>>,
) -> StepModel {
    match result {
        Err(detail) => quiet_step(
            failed_state(
                AttemptFailureModel::Transient(TransientFaultModel::BeaconFetchFailed { detail }),
            ),
        ),
        Ok(None) => skip_step(slot, SkipReason::NoBeaconBlock),
        Ok(Some(bb)) => match bb.execution_payload {
            None => skip_step(slot, SkipReason::NoExecutionPayload),
            Some(payload) => if !bb.has_commitments() {
                skip_step(slot, SkipReason::NoKzgCommitments)
            } else {
                StepModel {
                    state: EngineStateModel::AwaitingExecutionBlock {
                        slot,
                        block_hash: payload.block_hash,
                    },
                    action: Some(
                        EngineActionModel::FetchExecutionBlock { block_hash: payload.block_hash },
                    ),
                    events: Seq::empty(),
                }
            },
        },
    }
}

/// The execution-block answer: a fetch failure or a missing block is
/// permanent (the lookup targets an already-confirmed hash); an empty
/// reconciled mapping despite commitments is the cross-source mismatch;
/// otherwise fetch the blobs.
pub open spec fn spec_on_execution_block(
    slot: u32,
    block_hash: Seq<u8>,
    result: Result<Option<ExecutionBlockModel>, Seq<char>>,
) -> StepModel {
    match result {
        Err(detail) => quiet_step(
            failed_state(
                AttemptFailureModel::Permanent(
                    PermanentFaultModel::ExecutionFetchFailed { detail },
                ),
            ),
        ),
        Ok(None) => quiet_step(
            failed_state(
                AttemptFailureModel::Permanent(
                    PermanentFaultModel::ExecutionBlockNotFound { block_hash },
                ),
            ),
        ),
        Ok(Some(eb)) => if !all_blob_hashes_wf(eb.transactions) {
            quiet_step(
                failed_state(
                    AttemptFailureModel::Permanent(
                        PermanentFaultModel::MalformedBlobHashes {
                            tx_hash: first_malformed_tx(eb.transactions),
                        },
                    ),
                ),
            )
        } else if spec_tx_mapping(eb.transactions).len() == 0 {
            quiet_step(
                failed_state(
                    AttemptFailureModel::Permanent(
                        PermanentFaultModel::CommitmentsWithoutBlobTransactions,
                    ),
                ),
            )
        } else {
            StepModel {
                state: EngineStateModel::AwaitingBlobs {
                    slot,
                    execution_block: eb,
                    mapping: spec_tx_mapping(eb.transactions),
                },
                action: Some(EngineActionModel::FetchBlobs { slot }),
                events: Seq::empty(),
            }
        },
    }
}

/// Hashes of the transaction entities, in order.
pub open spec fn spec_tx_hashes(txs: Seq<TransactionEntityModel>) -> Seq<Seq<u8>> {
    txs.map_values(|t: TransactionEntityModel| t.hash)
}

/// Versioned hashes of the blob entities, in order.
pub open spec fn spec_blob_hashes(blobs: Seq<BlobEntityModel>) -> Seq<Seq<u8>> {
    blobs.map_values(|b: BlobEntityModel| b.versioned_hash)
}

/// The summary reported for a successful submission.
pub open spec fn spec_summary(
    slot: u32,
    eb: ExecutionBlockModel,
    m: Seq<TxBlobHashesModel>,
    s: Seq<SidecarModel>,
) -> IndexedSummaryModel {
    IndexedSummaryModel {
        slot,
        block_hash: spec_block_entity(eb, slot).hash,
        tx_hashes: spec_tx_hashes(spec_transactions(eb.transactions, m, eb.number->0)),
        blob_versioned_hashes: spec_blob_hashes(spec_blobs(m, s)),
    }
}

/// The blobs answer: absent or empty sidecars are a skip; otherwise the
/// entities are built (block, transactions, sidecar mapping, blobs, in that
/// order) and submitted as one batch.
pub open spec fn spec_on_blobs(
    slot: u32,
    eb: ExecutionBlockModel,
    m: Seq<TxBlobHashesModel>,
    result: Result<Option<Seq<SidecarModel>>, Seq<char>>,
) -> StepModel {
    match result {
        Err(detail) => quiet_step(
            failed_state(
                AttemptFailureModel::Transient(TransientFaultModel::BlobsFetchFailed { detail }),
            ),
        ),
        Ok(None) => skip_step(slot, SkipReason::NoBlobSidecars),
        Ok(Some(sidecars)) => if sidecars.len() == 0 {
            skip_step(slot, SkipReason::EmptyBlobSidecars)
        } else if !(eb.number is Some && eb.hash is Some) {
            quiet_step(
                failed_state(
                    AttemptFailureModel::Permanent(PermanentFaultModel::MissingBlockFields),
                ),
            )
        } else if !sidecar_hashes_distinct(sidecars) {
            quiet_step(
                failed_state(
                    AttemptFailureModel::Permanent(
                        PermanentFaultModel::DuplicateVersionedHash {
                            versioned_hash: first_duplicate(sidecars),
                        },
                    ),
                ),
            )
        } else if !all_covered(m, sidecars) {
            quiet_step(failed_state(AttemptFailureModel::Permanent(spec_missing_fault(m, sidecars))))
        } else {
            StepModel {
                state: EngineStateModel::AwaitingSubmission {
                    slot,
                    summary: spec_summary(slot, eb, m, sidecars),
                },
                action: Some(
                    EngineActionModel::Submit {
                        block: spec_block_entity(eb, slot),
                        transactions: spec_transactions(eb.transactions, m, eb.number->0),
                        blobs: spec_blobs(m, sidecars),
                    },
                ),
                events: Seq::empty(),
            }
        },
    }
}

/// The submission answer: a failure is transient (classified by the client);
/// success finishes the attempt with the info summary event.
pub open spec fn spec_on_submission(
    slot: u32,
    summary: IndexedSummaryModel,
    result: Result<(), Seq<char>>,
) -> StepModel {
    match result {
        Err(detail) => quiet_step(
            failed_state(
                AttemptFailureModel::Transient(TransientFaultModel::IndexingFailed { detail }),
            ),
        ),
        Ok(u) => StepModel {
            state: EngineStateModel::Finished {
                outcome: AttemptOutcomeModel::Indexed { summary },
            },
            action: None,
            events: seq![EmittedEventModel::SlotIndexed { summary }],
        },
    }
}

/// The transition relation of one attempt. An event that does not answer the
/// waited-for request leaves the state unchanged; a finished attempt ignores
/// every further event.
pub open spec fn spec_step(state: EngineStateModel, event: EngineEventModel) -> StepModel {
    match state {
        EngineStateModel::AwaitingBeaconBlock { slot } => match event {
            EngineEventModel::BeaconBlockFetched { result } => spec_on_beacon_block(slot, result),
            _ => quiet_step(state),
        },
        EngineStateModel::AwaitingExecutionBlock { slot, block_hash } => match event {
            EngineEventModel::ExecutionBlockFetched { result } => spec_on_execution_block(
                slot,
                block_hash,
                result,
            ),
            _ => quiet_step(state),
        },
        EngineStateModel::AwaitingBlobs { slot, execution_block, mapping } => match event {
            EngineEventModel::BlobsFetched { result } => spec_on_blobs(
                slot,
                execution_block,
                mapping,
                result,
            ),
            _ => quiet_step(state),
        },
        EngineStateModel::AwaitingSubmission { slot, summary } => match event {
            EngineEventModel::SubmissionCompleted { result } => spec_on_submission(
                slot,
                summary,
                result,
            ),
            _ => quiet_step(state),
        },
        EngineStateModel::Finished { .. } => quiet_step(state),
    }
}

/// Model of an optional action.
pub open spec fn action_view(a: Option<EngineAction>) -> Option<EngineActionModel> {
    match a {
        Some(x) => Some(x@),
        None => None,
    }
}

/// Hashes of the transaction entities, collected in order.
fn collect_tx_hashes(txs: &Vec<TransactionEntity>) -> (r: Vec<Vec<u8>>)
    ensures
        r.deep_view() == spec_tx_hashes(txs.deep_view()),
{
    let mut out: Vec<Vec<u8>> = Vec::new();
    let mut i: usize = 0;
    while i < txs.len()
        invariant
            i <= txs.len(),
            out.len() == i,
            forall|k: int| 0 <= k < i ==> out.deep_view()[k] == txs.deep_view()[k].hash,
        decreases txs.len() - i,
    {
        let ghost prev = out;
        let h = copy_bytes(&txs[i].hash);
        out.push(h);
        proof {
            assert forall|k: int| 0 <= k < i + 1 implies out.deep_view()[k] == txs.deep_view()[k].hash by {
                assert(out.deep_view()[k] == out@[k].deep_view());
                if k < i {
                    assert(out@[k] == prev@[k]);
                    assert(prev.deep_view()[k] == prev@[k].deep_view());
                } else {
                    assert(out@[k] == h);
                    assert(txs.deep_view()[k] == txs@[k].deep_view());
                }
            }
        }
        i += 1;
    }
    assert(out.deep_view() =~= spec_tx_hashes(txs.deep_view()));
    out
}

/// Versioned hashes of the blob entities, collected in order.
fn collect_blob_hashes(blobs: &Vec<BlobEntity>) -> (r: Vec<Vec<u8>>)
    ensures
        r.deep_view() == spec_blob_hashes(blobs.deep_view()),
{
    let mut out: Vec<Vec<u8>> = Vec::new();
    let mut i: usize = 0;
    while i < blobs.len()
        invariant
            i <= blobs.len(),
            out.len() == i,
            forall|k: int| 0 <= k < i ==> out.deep_view()[k] == blobs.deep_view()[k].versioned_hash,
        decreases blobs.len() - i,
    {
        let ghost prev = out;
        let h = copy_bytes(&blobs[i].versioned_hash);
        out.push(h);
        proof {
            assert forall|k: int| 0 <= k < i + 1 implies out.deep_view()[k] == blobs.deep_view()[k].versioned_hash by {
                assert(out.deep_view()[k] == out@[k].deep_view());
                if k < i {
                    assert(out@[k] == prev@[k]);
                    assert(prev.deep_view()[k] == prev@[k].deep_view());
                } else {
                    assert(out@[k] == h);
                    assert(blobs.deep_view()[k] == blobs@[k].deep_view());
                }
            }
        }
        i += 1;
    }
    assert(out.deep_view() =~= spec_blob_hashes(blobs.deep_view()));
    out
}

/// Begins an attempt: the engine waits for the slot's beacon block.
pub fn engine_start(slot: u32) -> (r: (EngineState, EngineAction))
    ensures
        r.0@ == spec_start(slot).state,
        Some(r.1@) == spec_start(slot).action,
        spec_start(slot).events.len() == 0,
{
    (
        EngineState::AwaitingBeaconBlock { slot },
        EngineAction::FetchBeaconBlock { slot },
    )
}

/// One transition of the attempt state machine. The returned state, optional
/// action and events are exactly those of `spec_step` on the models of the
/// inputs; repeated calls on equal inputs therefore yield equal results.
pub fn engine_step(state: EngineState, event: EngineEvent) -> (r: (
    EngineState,
    Option<EngineAction>,
    Vec<EmittedEvent>,
))
    ensures
        r.0@ == spec_step(state@, event@).state,
        action_view(r.1) == spec_step(state@, event@).action,
        r.2.deep_view() == spec_step(state@, event@).events,
{
    let ghost sm = state@;
    let ghost em = event@;
    match (state, event) {
        (
            EngineState::AwaitingBeaconBlock { slot },
            EngineEvent::BeaconBlockFetched { result },
        ) => match result {
            Err(detail) => (
                EngineState::Finished {
                    outcome: AttemptOutcome::Failed {
                        failure: AttemptFailure::Transient(
                            TransientFault::BeaconFetchFailed { detail },
                        ),
                    },
                },
                None,
                Vec::new(),
            ),
            Ok(None) => skip(slot, SkipReason::NoBeaconBlock),
            Ok(Some(bb)) => {
                let BeaconBlockData { execution_payload, blob_kzg_commitments } = bb;
                match execution_payload {
                    None => skip(slot, SkipReason::NoExecutionPayload),
                    Some(payload) => {
                        let present = match &blob_kzg_commitments {
                            Some(cs) => cs.len() > 0,
                            None => false,
                        };
                        if !present {
                            skip(slot, SkipReason::NoKzgCommitments)
                        } else {
                            let action_hash = copy_bytes(&payload.block_hash);
                            (
                                EngineState::AwaitingExecutionBlock {
                                    slot,
                                    block_hash: payload.block_hash,
                                },
                                Some(
                                    EngineAction::FetchExecutionBlock {
                                        block_hash: action_hash,
                                    },
                                ),
                                Vec::new(),
                            )
                        }
                    },
                }
            },
        },
        (
            EngineState::AwaitingExecutionBlock { slot, block_hash },
            EngineEvent::ExecutionBlockFetched { result },
        ) => match result {
            Err(detail) => (
                EngineState::Finished {
                    outcome: AttemptOutcome::Failed {
                        failure: AttemptFailure::Permanent(
                            PermanentFault::ExecutionFetchFailed { detail },
                        ),
                    },
                },
                None,
                Vec::new(),
            ),
            Ok(None) => (
                EngineState::Finished {
                    outcome: AttemptOutcome::Failed {
                        failure: AttemptFailure::Permanent(
                            PermanentFault::ExecutionBlockNotFound { block_hash },
                        ),
                    },
                },
                None,
                Vec::new(),
            ),
            Ok(Some(eb)) => match build_tx_hash_mapping(&eb) {
                Err(fault) => (
                    EngineState::Finished {
                        outcome: AttemptOutcome::Failed {
                            failure: AttemptFailure::Permanent(fault),
                        },
                    },
                    None,
                    Vec::new(),
                ),
                Ok(mapping) => {
                    if mapping.len() == 0 {
                        (
                            EngineState::Finished {
                                outcome: AttemptOutcome::Failed {
                                    failure: AttemptFailure::Permanent(
                                        PermanentFault::CommitmentsWithoutBlobTransactions,
                                    ),
                                },
                            },
                            None,
                            Vec::new(),
                        )
                    } else {
                        (
                            EngineState::AwaitingBlobs {
                                slot,
                                execution_block: eb,
                                mapping,
                            },
                            Some(EngineAction::FetchBlobs { slot }),
                            Vec::new(),
                        )
                    }
                },
            },
        },
        (
            EngineState::AwaitingBlobs { slot, execution_block, mapping },
            EngineEvent::BlobsFetched { result },
        ) => match result {
            Err(detail) => (
                EngineState::Finished {
                    outcome: AttemptOutcome::Failed {
                        failure: AttemptFailure::Transient(
                            TransientFault::BlobsFetchFailed { detail },
                        ),
                    },
                },
                None,
                Vec::new(),
            ),
            Ok(None) => skip(slot, SkipReason::NoBlobSidecars),
            Ok(Some(sidecars)) => {
                if sidecars.len() == 0 {
                    skip(slot, SkipReason::EmptyBlobSidecars)
                } else {
                    build_and_submit(slot, execution_block, mapping, sidecars)
                }
            },
        },
        (
            EngineState::AwaitingSubmission { slot, summary },
            EngineEvent::SubmissionCompleted { result },
        ) => match result {
            Err(detail) => (
                EngineState::Finished {
                    outcome: AttemptOutcome::Failed {
                        failure: AttemptFailure::Transient(
                            TransientFault::IndexingFailed { detail },
                        ),
                    },
                },
                None,
                Vec::new(),
            ),
            Ok(_) => {
                let event_summary = copy_summary(&summary);
                let mut events: Vec<EmittedEvent> = Vec::new();
                events.push(EmittedEvent::SlotIndexed { summary: event_summary });
                let r = (
                    EngineState::Finished {
                        outcome: AttemptOutcome::Indexed { summary },
                    },
                    None,
                    events,
                );
                assert(r.2.deep_view() =~= spec_step(sm, em).events);
                r
            },
        },
        (other, _) => (other, None, Vec::new()),
    }
}

/// A skip terminal with its debug event.
fn skip(slot: u32, reason: SkipReason) -> (r: (
    EngineState,
    Option<EngineAction>,
    Vec<EmittedEvent>,
))
    ensures
        r.0@ == skip_step(slot, reason).state,
        action_view(r.1) == skip_step(slot, reason).action,
        r.2.deep_view() == skip_step(slot, reason).events,
{
    let mut events: Vec<EmittedEvent> = Vec::new();
    events.push(EmittedEvent::SlotSkipped { slot, reason });
    let r = (
        EngineState::Finished { outcome: AttemptOutcome::Skipped { slot, reason } },
        None,
        events,
    );
    assert(r.2.deep_view() =~= skip_step(slot, reason).events);
    r
}

/// Copy of a summary, field by field.
fn copy_summary(s: &IndexedSummary) -> (r: IndexedSummary)
    ensures
        r@ == s@,
{
    IndexedSummary {
        slot: s.slot,
        block_hash: copy_bytes(&s.block_hash),
        tx_hashes: copy_hash_list(&s.tx_hashes),
        blob_versioned_hashes: copy_hash_list(&s.blob_versioned_hashes),
    }
}

/// Entity construction and submission request for a non-empty sidecar
/// collection: builds the entities and requests the submission.
fn build_and_submit(
    slot: u32,
    execution_block: ExecutionBlockData,
    mapping: TxHashMapping,
    sidecars: Vec<BlobSidecarData>,
) -> (r: (EngineState, Option<EngineAction>, Vec<EmittedEvent>))
    requires
        sidecars.deep_view().len() > 0,
    ensures
        ({
            let step = spec_on_blobs(
                slot,
                execution_block@,
                mapping@,
                Ok(Some(sidecars.deep_view())),
            );
            r.0@ == step.state && action_view(r.1) == step.action && r.2.deep_view()
                == step.events
        }),
{
    let block = match build_block(&execution_block, slot) {
        Err(fault) => {
            return (
                EngineState::Finished {
                    outcome: AttemptOutcome::Failed {
                        failure: AttemptFailure::Permanent(fault),
                    },
                },
                None,
                Vec::new(),
            );
        },
        Ok(b) => b,
    };
    let blob_mapping = match build_versioned_hash_mapping(sidecars) {
        Err(fault) => {
            return (
                EngineState::Finished {
                    outcome: AttemptOutcome::Failed {
                        failure: AttemptFailure::Permanent(fault),
                    },
                },
                None,
                Vec::new(),
            );
        },
        Ok(bm) => bm,
    };
    let transactions = match build_transactions(&execution_block, &mapping) {
        Err(fault) => {
            return (
                EngineState::Finished {
                    outcome: AttemptOutcome::Failed {
                        failure: AttemptFailure::Permanent(fault),
                    },
                },
                None,
                Vec::new(),
            );
        },
        Ok(txs) => txs,
    };
    let blobs = match build_blobs(&mapping, &blob_mapping) {
        Err(fault) => {
            return (
                EngineState::Finished {
                    outcome: AttemptOutcome::Failed {
                        failure: AttemptFailure::Permanent(fault),
                    },
                },
                None,
                Vec::new(),
            );
        },
        Ok(bs) => bs,
    };
    let summary = IndexedSummary {
        slot,
        block_hash: copy_bytes(&block.hash),
        tx_hashes: collect_tx_hashes(&transactions),
        blob_versioned_hashes: collect_blob_hashes(&blobs),
    };
    (
        EngineState::AwaitingSubmission { slot, summary },
        Some(EngineAction::Submit { block, transactions, blobs }),
        Vec::new(),
    )
}



/// Everything one attempt did: the terminal outcome when one was reached,
/// the actions requested of the caller, and the events emitted, in order.
pub ghost struct AttemptRun {
    pub outcome: Option<AttemptOutcomeModel>,
    pub actions: Seq<EngineActionModel>,
    pub events: Seq<EmittedEventModel>,
}

/// An optional action as a sequence.
pub open spec fn seq_of_action(a: Option<EngineActionModel>) -> Seq<EngineActionModel> {
    match a {
        Some(x) => seq![x],
        None => Seq::empty(),
    }
}

/// Folds `spec_step` over the answers, starting in `state`. A finished
/// attempt ignores every further answer.
pub open spec fn run_from(state: EngineStateModel, events: Seq<EngineEventModel>) -> AttemptRun
    decreases events.len(),
{
    match state {
        EngineStateModel::Finished { outcome } => AttemptRun {
            outcome: Some(outcome),
            actions: Seq::empty(),
            events: Seq::empty(),
        },
        _ => {
            if events.len() == 0 {
                AttemptRun { outcome: None, actions: Seq::empty(), events: Seq::empty() }
            } else {
                let st = spec_step(state, events[0]);
                let rest = run_from(st.state, events.drop_first());
                AttemptRun {
                    outcome: rest.outcome,
                    actions: seq_of_action(st.action) + rest.actions,
                    events: st.events + rest.events,
                }
            }
        },
    }
}

/// One whole attempt at `slot`, driven by the answers in `events`.
pub open spec fn spec_run_attempt(slot: u32, events: Seq<EngineEventModel>) -> AttemptRun {
    let first = spec_start(slot);
    let rest = run_from(first.state, events);
    AttemptRun {
        outcome: rest.outcome,
        actions: seq_of_action(first.action) + rest.actions,
        events: rest.events,
    }
}

/// Whether an action is the submission to the indexing backend.
pub open spec fn is_submit(a: EngineActionModel) -> bool {
    a matches EngineActionModel::Submit { .. }
}

/// No submission was requested during the run.
pub open spec fn no_submission(r: AttemptRun) -> bool {
    forall|k: int| 0 <= k < r.actions.len() ==> !is_submit(#[trigger] r.actions[k])
}

/// The beacon answer that makes the attempt a skip: the block is absent, or
/// it carries no execution payload, or no or only empty KZG commitments.
pub open spec fn beacon_answer_skips(e: EngineEventModel) -> bool {
    match e {
        EngineEventModel::BeaconBlockFetched { result } => match result {
            Ok(None) => true,
            Ok(Some(bb)) => bb.execution_payload is None || !bb.has_commitments(),
            Err(_) => false,
        },
        _ => false,
    }
}

/// The beacon answer that lets the attempt proceed: a block with an
/// execution payload and a non-empty commitment list.
pub open spec fn beacon_answer_proceeds(e: EngineEventModel) -> bool {
    match e {
        EngineEventModel::BeaconBlockFetched { result } => match result {
            Ok(Some(bb)) => bb.execution_payload is Some && bb.has_commitments(),
            _ => false,
        },
        _ => false,
    }
}

/// The execution answer carrying a block whose blob-hash data is well formed
/// but which holds no blob-carrying transaction.
pub open spec fn execution_answer_without_blob_txs(e: EngineEventModel) -> bool {
    match e {
        EngineEventModel::ExecutionBlockFetched { result } => match result {
            Ok(Some(eb)) => all_blob_hashes_wf(eb.transactions) && spec_tx_mapping(
                eb.transactions,
            ).len() == 0,
            _ => false,
        },
        _ => false,
    }
}

/// The execution answer that lets the attempt proceed to the blobs.
pub open spec fn execution_answer_proceeds(e: EngineEventModel) -> bool {
    match e {
        EngineEventModel::ExecutionBlockFetched { result } => match result {
            Ok(Some(eb)) => all_blob_hashes_wf(eb.transactions) && spec_tx_mapping(
                eb.transactions,
            ).len() > 0,
            _ => false,
        },
        _ => false,
    }
}

/// The execution block carried by a proceeding execution answer.
pub open spec fn execution_block_of(e: EngineEventModel) -> ExecutionBlockModel {
    match e {
        EngineEventModel::ExecutionBlockFetched { result } => match result {
            Ok(Some(eb)) => eb,
            _ => arbitrary(),
        },
        _ => arbitrary(),
    }
}

/// The sidecar collection carried by a blobs answer.
pub open spec fn sidecars_of(e: EngineEventModel) -> Seq<SidecarModel> {
    match e {
        EngineEventModel::BlobsFetched { result } => match result {
            Ok(Some(s)) => s,
            _ => arbitrary(),
        },
        _ => arbitrary(),
    }
}

/// Whether the event is a blobs answer carrying a sidecar collection.
pub open spec fn is_blobs_answer(e: EngineEventModel) -> bool {
    match e {
        EngineEventModel::BlobsFetched { result } => result matches Ok(Some(_)),
        _ => false,
    }
}

/// Whenever the beacon block is absent, lacks an execution payload, or has
/// no or only empty KZG commitments, the attempt ends as a successful skip
/// and the indexing backend is never asked to submit anything.
pub proof fn lemma_skip_never_submits(slot: u32, events: Seq<EngineEventModel>)
    requires
        events.len() >= 1,
        beacon_answer_skips(events[0]),
    ensures
        spec_run_attempt(slot, events).outcome matches Some(
            AttemptOutcomeModel::Skipped { slot: s, reason },
        ) && s == slot,
        no_submission(spec_run_attempt(slot, events)),
        spec_run_attempt(slot, events).actions =~= seq![
            EngineActionModel::FetchBeaconBlock { slot },
        ],
{
    let st = spec_step(EngineStateModel::AwaitingBeaconBlock { slot }, events[0]);
    assert(st.state matches EngineStateModel::Finished { .. });
    assert(st.action is None);
    let rest = run_from(st.state, events.drop_first());
    assert(rest.actions =~= Seq::<EngineActionModel>::empty());
    let run = spec_run_attempt(slot, events);
    assert(run.actions =~= seq![EngineActionModel::FetchBeaconBlock { slot }]);
}

/// Whenever KZG commitments are present but the execution block holds no
/// blob-carrying transaction, the attempt ends with the permanent mismatch
/// fault after a single execution-block fetch, and nothing is submitted.
pub proof fn lemma_mismatch_is_permanent(slot: u32, events: Seq<EngineEventModel>)
    requires
        events.len() >= 2,
        beacon_answer_proceeds(events[0]),
        execution_answer_without_blob_txs(events[1]),
    ensures
        spec_run_attempt(slot, events).outcome == Some(
            AttemptOutcomeModel::Failed {
                failure: AttemptFailureModel::Permanent(
                    PermanentFaultModel::CommitmentsWithoutBlobTransactions,
                ),
            },
        ),
        no_submission(spec_run_attempt(slot, events)),
        spec_run_attempt(slot, events).actions.len() == 2,
        spec_run_attempt(slot, events).actions[0] == (EngineActionModel::FetchBeaconBlock {
            slot,
        }),
        spec_run_attempt(slot, events).actions[1] matches
            EngineActionModel::FetchExecutionBlock { .. },
{
    let e1 = events.drop_first();
    let e2 = e1.drop_first();
    assert(e1[0] == events[1]);
    let s1 = spec_step(EngineStateModel::AwaitingBeaconBlock { slot }, events[0]);
    assert(s1.state matches EngineStateModel::AwaitingExecutionBlock { .. });
    let s2 = spec_step(s1.state, e1[0]);
    assert(s2.state matches EngineStateModel::Finished { .. });
    assert(s2.action is None);
    let r2 = run_from(s2.state, e2);
    assert(r2.actions =~= Seq::<EngineActionModel>::empty());
    let r1 = run_from(s1.state, e1);
    assert(r1 == AttemptRun {
        outcome: r2.outcome,
        actions: seq_of_action(s2.action) + r2.actions,
        events: s2.events + r2.events,
    });
    let r0 = run_from(EngineStateModel::AwaitingBeaconBlock { slot }, events);
    assert(r0 == AttemptRun {
        outcome: r1.outcome,
        actions: seq_of_action(s1.action) + r1.actions,
        events: s1.events + r1.events,
    });
    let run = spec_run_attempt(slot, events);
    assert(run.actions =~= seq![
        EngineActionModel::FetchBeaconBlock { slot },
        s1.action->0,
    ]);
}

/// Machine bound: every entry's hash list is short enough to be indexed.
pub open spec fn entry_lists_indexable(m: Seq<TxBlobHashesModel>) -> bool {
    forall|i: int| 0 <= i < m.len() ==> #[trigger] m[i].versioned_hashes.len() <= usize::MAX
}

/// The fault reported for a missing sidecar names a versioned hash that the
/// sidecar collection truly lacks, together with the transaction that
/// references it and the hash's position in that transaction's list.
pub proof fn lemma_missing_fault_names_missing_hash(
    m: Seq<TxBlobHashesModel>,
    s: Seq<SidecarModel>,
)
    requires
        !all_covered(m, s),
        entry_lists_indexable(m),
    ensures
        spec_missing_fault(m, s) matches PermanentFaultModel::SidecarNotFound {
            versioned_hash,
            tx_hash,
            index,
        } && !crate::reconcile::blob_mapping_contains(s, versioned_hash) && exists|i: int|
            0 <= i < m.len() && #[trigger] m[i].tx_hash == tx_hash && 0 <= index
                < m[i].versioned_hashes.len() && m[i].versioned_hashes[index as int]
                == versioned_hash,
    decreases m.len(),
{
    let iw = choose|i: int| !(0 <= i < m.len() ==> entry_covered(#[trigger] m[i], s));
    assert(0 <= iw < m.len() && !entry_covered(m[iw], s));
    if !entry_covered(m[0], s) {
        let jw = choose|j: int|
            !(0 <= j < m[0].versioned_hashes.len() ==> crate::reconcile::blob_mapping_contains(
                s,
                #[trigger] m[0].versioned_hashes[j],
            ));
        lemma_first_uncovered_bounds(m[0].versioned_hashes, s, jw);
        let j = first_uncovered_in_list(m[0].versioned_hashes, s);
        let f = spec_missing_fault(m, s);
        assert(f == (PermanentFaultModel::SidecarNotFound {
            versioned_hash: m[0].versioned_hashes[j],
            tx_hash: m[0].tx_hash,
            index: j as usize,
        }));
        assert(0 <= 0 < m.len() && m[0].tx_hash == f->SidecarNotFound_tx_hash && 0
            <= f->SidecarNotFound_index < m[0].versioned_hashes.len()
            && m[0].versioned_hashes[f->SidecarNotFound_index as int]
            == f->SidecarNotFound_versioned_hash);
    } else {
        assert(iw != 0);
        assert(m.drop_first()[iw - 1] == m[iw]);
        assert(!all_covered(m.drop_first(), s));
        assert(entry_lists_indexable(m.drop_first())) by {
            assert forall|i: int| 0 <= i < m.drop_first().len() implies #[trigger] m.drop_first()[
                i
            ].versioned_hashes.len() <= usize::MAX by {
                assert(m.drop_first()[i] == m[i + 1]);
            }
        }
        lemma_missing_fault_names_missing_hash(m.drop_first(), s);
        let f = spec_missing_fault(m.drop_first(), s);
        assert(spec_missing_fault(m, s) == f);
        let kw = choose|i: int|
            0 <= i < m.drop_first().len() && #[trigger] m.drop_first()[i].tx_hash
                == f->SidecarNotFound_tx_hash && 0 <= f->SidecarNotFound_index < m.drop_first()[
                i
            ].versioned_hashes.len() && m.drop_first()[i].versioned_hashes[
                f->SidecarNotFound_index as int
            ] == f->SidecarNotFound_versioned_hash;
        assert(m[kw + 1] == m.drop_first()[kw]);
    }
}

/// The first uncovered position of a list with an uncovered position `w` is
/// in range and truly uncovered.
proof fn lemma_first_uncovered_bounds(hs: Seq<Seq<u8>>, s: Seq<SidecarModel>, w: int)
    requires
        0 <= w < hs.len(),
        !crate::reconcile::blob_mapping_contains(s, hs[w]),
    ensures
        0 <= first_uncovered_in_list(hs, s) < hs.len(),
        !crate::reconcile::blob_mapping_contains(s, hs[first_uncovered_in_list(hs, s)]),
    decreases hs.len(),
{
    if !crate::reconcile::blob_mapping_contains(s, hs[0]) {
    } else {
        assert(w != 0);
        assert(hs.drop_first()[w - 1] == hs[w]);
        lemma_first_uncovered_bounds(hs.drop_first(), s, w - 1);
        let j = first_uncovered_in_list(hs.drop_first(), s);
        assert(hs.drop_first()[j] == hs[1 + j]);
    }
}

/// Whenever a versioned hash referenced by the transaction mapping has no
/// sidecar entry, the attempt ends with the permanent fault naming that
/// missing hash, its transaction and its position, and nothing is submitted.
pub proof fn lemma_missing_sidecar_is_permanent(slot: u32, events: Seq<EngineEventModel>)
    requires
        events.len() >= 3,
        beacon_answer_proceeds(events[0]),
        execution_answer_proceeds(events[1]),
        is_blobs_answer(events[2]),
        sidecars_of(events[2]).len() > 0,
        sidecar_hashes_distinct(sidecars_of(events[2])),
        execution_block_of(events[1]).number is Some,
        execution_block_of(events[1]).hash is Some,
        !all_covered(
            spec_tx_mapping(execution_block_of(events[1]).transactions),
            sidecars_of(events[2]),
        ),
        entry_lists_indexable(spec_tx_mapping(execution_block_of(events[1]).transactions)),
    ensures
        spec_run_attempt(slot, events).outcome == Some(
            AttemptOutcomeModel::Failed {
                failure: AttemptFailureModel::Permanent(
                    spec_missing_fault(
                        spec_tx_mapping(execution_block_of(events[1]).transactions),
                        sidecars_of(events[2]),
                    ),
                ),
            },
        ),
        spec_missing_fault(
            spec_tx_mapping(execution_block_of(events[1]).transactions),
            sidecars_of(events[2]),
        ) matches PermanentFaultModel::SidecarNotFound { .. },
        no_submission(spec_run_attempt(slot, events)),
{
    let m = spec_tx_mapping(execution_block_of(events[1]).transactions);
    let sc = sidecars_of(events[2]);
    let e1 = events.drop_first();
    let e2 = e1.drop_first();
    let e3 = e2.drop_first();
    assert(e1[0] == events[1]);
    assert(e2[0] == events[2]);
    let s1 = spec_step(EngineStateModel::AwaitingBeaconBlock { slot }, events[0]);
    assert(s1.state matches EngineStateModel::AwaitingExecutionBlock { .. });
    let s2 = spec_step(s1.state, e1[0]);
    assert(s2.state matches EngineStateModel::AwaitingBlobs { .. });
    let s3 = spec_step(s2.state, e2[0]);
    assert(s3.state == failed_state(
        AttemptFailureModel::Permanent(spec_missing_fault(m, sc)),
    ));
    assert(s3.action is None);
    let r3 = run_from(s3.state, e3);
    assert(r3.actions =~= Seq::<EngineActionModel>::empty());
    let r2 = run_from(s2.state, e2);
    assert(r2 == AttemptRun {
        outcome: r3.outcome,
        actions: seq_of_action(s3.action) + r3.actions,
        events: s3.events + r3.events,
    });
    let r1 = run_from(s1.state, e1);
    assert(r1 == AttemptRun {
        outcome: r2.outcome,
        actions: seq_of_action(s2.action) + r2.actions,
        events: s2.events + r2.events,
    });
    let r0 = run_from(EngineStateModel::AwaitingBeaconBlock { slot }, events);
    assert(r0 == AttemptRun {
        outcome: r1.outcome,
        actions: seq_of_action(s1.action) + r1.actions,
        events: s1.events + r1.events,
    });
    lemma_missing_fault_names_missing_hash(m, sc);
    let run = spec_run_attempt(slot, events);
    assert(run.actions =~= seq![
        EngineActionModel::FetchBeaconBlock { slot },
        s1.action->0,
        s2.action->0,
    ]);
    assert forall|k: int| 0 <= k < run.actions.len() implies !is_submit(
        #[trigger] run.actions[k],
    ) by {
        assert(run.actions[0] == (EngineActionModel::FetchBeaconBlock { slot }));
        assert(run.actions[1] == s1.action->0);
        assert(run.actions[2] == s2.action->0);
    }
}

/// Corollary: when the given reference is the only one without a sidecar,
/// the attempt's permanent fault names exactly that versioned hash, its
/// transaction and its position.
pub proof fn lemma_missing_sidecar_names_unique_triple(
    slot: u32,
    events: Seq<EngineEventModel>,
    i: int,
    j: int,
)
    requires
        events.len() >= 3,
        beacon_answer_proceeds(events[0]),
        execution_answer_proceeds(events[1]),
        is_blobs_answer(events[2]),
        sidecars_of(events[2]).len() > 0,
        sidecar_hashes_distinct(sidecars_of(events[2])),
        execution_block_of(events[1]).number is Some,
        execution_block_of(events[1]).hash is Some,
        entry_lists_indexable(spec_tx_mapping(execution_block_of(events[1]).transactions)),
        0 <= i < spec_tx_mapping(execution_block_of(events[1]).transactions).len(),
        0 <= j < spec_tx_mapping(execution_block_of(events[1]).transactions)[
            i
        ].versioned_hashes.len(),
        !crate::reconcile::blob_mapping_contains(
            sidecars_of(events[2]),
            spec_tx_mapping(execution_block_of(events[1]).transactions)[i].versioned_hashes[j],
        ),
        forall|a: int, b: int|
            0 <= a < spec_tx_mapping(execution_block_of(events[1]).transactions).len() && 0 <= b
                < spec_tx_mapping(execution_block_of(events[1]).transactions)[
                a
            ].versioned_hashes.len() && !(a == i && b == j)
                ==> crate::reconcile::blob_mapping_contains(
                sidecars_of(events[2]),
                #[trigger] spec_tx_mapping(execution_block_of(events[1]).transactions)[
                    a
                ].versioned_hashes[b],
            ),
    ensures
        ({
            let m = spec_tx_mapping(execution_block_of(events[1]).transactions);
            spec_run_attempt(slot, events).outcome == Some(
                AttemptOutcomeModel::Failed {
                    failure: AttemptFailureModel::Permanent(
                        PermanentFaultModel::SidecarNotFound {
                            versioned_hash: m[i].versioned_hashes[j],
                            tx_hash: m[i].tx_hash,
                            index: j as usize,
                        },
                    ),
                },
            )
        }),
        no_submission(spec_run_attempt(slot, events)),
{
    let m = spec_tx_mapping(execution_block_of(events[1]).transactions);
    let sc = sidecars_of(events[2]);
    assert(!entry_covered(m[i], sc)) by {
        if entry_covered(m[i], sc) {
            assert(crate::reconcile::blob_mapping_contains(sc, m[i].versioned_hashes[j]));
        }
    }
    assert(!all_covered(m, sc)) by {
        if all_covered(m, sc) {
            assert(entry_covered(m[i], sc));
        }
    }
    lemma_missing_sidecar_is_permanent(slot, events);
    crate::entities::lemma_missing_fault_unique(m, sc, i, j);
}

/// Idempotence: an attempt is a function of the slot and the upstream
/// answers alone, so repeated attempts over the same answers request the
/// identical submission batch and reach the identical outcome.
pub proof fn lemma_attempt_idempotent(
    slot: u32,
    first: Seq<EngineEventModel>,
    second: Seq<EngineEventModel>,
)
    requires
        first == second,
    ensures
        spec_run_attempt(slot, first) == spec_run_attempt(slot, second),
{
}

} // verus!
