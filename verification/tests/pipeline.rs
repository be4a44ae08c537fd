use blob_indexer::data::{
    BeaconBlockData, BlobSidecarData, ExecutionBlockData, ExecutionPayloadData, TransactionData,
};
use blob_indexer::engine::{
    engine_start, engine_step, AttemptOutcome, EngineAction, EngineEvent, EngineState,
};
use blob_indexer::events::{
    AttemptFailure, EmittedEvent, PermanentFault, Severity, SkipReason, TransientFault,
};
use blob_indexer::reconcile::build_tx_hash_mapping;

fn h(b: u8) -> Vec<u8> {
    vec![b; 32]
}

fn beacon_block_with_blobs() -> BeaconBlockData {
    BeaconBlockData {
        execution_payload: Some(ExecutionPayloadData { block_hash: h(0xAA) }),
        blob_kzg_commitments: Some(vec![vec![0xC0; 48]]),
    }
}

fn execution_block() -> ExecutionBlockData {
    ExecutionBlockData {
        number: Some(100),
        hash: Some(h(0xAA)),
        timestamp: 1234,
        transactions: vec![
            TransactionData { hash: h(0x11), blob_versioned_hashes: None },
            TransactionData { hash: h(0x22), blob_versioned_hashes: Some(vec![h(0x01)]) },
        ],
    }
}

#[test]
fn skip_when_no_beacon_block() {
    let (st, _) = engine_start(7);
    let (st, act, evs) = engine_step(st, EngineEvent::BeaconBlockFetched { result: Ok(None) });
    assert!(act.is_none());
    assert!(matches!(
        st,
        EngineState::Finished {
            outcome: AttemptOutcome::Skipped { slot: 7, reason: SkipReason::NoBeaconBlock }
        }
    ));
    assert_eq!(evs.len(), 1);
    assert_eq!(evs[0].severity(), Severity::DebugLevel);
}

#[test]
fn skip_when_no_execution_payload() {
    let (st, _) = engine_start(7);
    let bb = BeaconBlockData {
        execution_payload: None,
        blob_kzg_commitments: Some(vec![vec![0xC0; 48]]),
    };
    let (st, act, _) =
        engine_step(st, EngineEvent::BeaconBlockFetched { result: Ok(Some(bb)) });
    assert!(act.is_none());
    assert!(matches!(
        st,
        EngineState::Finished {
            outcome: AttemptOutcome::Skipped { slot: 7, reason: SkipReason::NoExecutionPayload }
        }
    ));
}

#[test]
fn skip_when_no_commitments() {
    for commitments in [None, Some(vec![])] {
        let (st, _) = engine_start(9);
        let bb = BeaconBlockData {
            execution_payload: Some(ExecutionPayloadData { block_hash: h(0xAA) }),
            blob_kzg_commitments: commitments,
        };
        let (st, act, _) =
            engine_step(st, EngineEvent::BeaconBlockFetched { result: Ok(Some(bb)) });
        assert!(act.is_none());
        assert!(matches!(
            st,
            EngineState::Finished {
                outcome: AttemptOutcome::Skipped { slot: 9, reason: SkipReason::NoKzgCommitments }
            }
        ));
    }
}

#[test]
fn skip_when_blobs_absent_or_empty() {
    for (blobs, reason) in [
        (Ok(None), SkipReason::NoBlobSidecars),
        (Ok(Some(vec![])), SkipReason::EmptyBlobSidecars),
    ] {
        let (st, _) = engine_start(7);
        let (st, _, _) = engine_step(
            st,
            EngineEvent::BeaconBlockFetched { result: Ok(Some(beacon_block_with_blobs())) },
        );
        let (st, _, _) = engine_step(
            st,
            EngineEvent::ExecutionBlockFetched { result: Ok(Some(execution_block())) },
        );
        let (st, act, _) = engine_step(st, EngineEvent::BlobsFetched { result: blobs });
        assert!(act.is_none());
        match st {
            EngineState::Finished {
                outcome: AttemptOutcome::Skipped { slot: 7, reason: r },
            } => assert_eq!(r, reason),
            other => panic!("unexpected state: {other:?}"),
        }
    }
}

#[test]
fn beacon_fetch_error_is_transient() {
    let (st, _) = engine_start(7);
    let (st, _, _) = engine_step(
        st,
        EngineEvent::BeaconBlockFetched { result: Err("connection reset".to_string()) },
    );
    assert!(matches!(
        st,
        EngineState::Finished {
            outcome: AttemptOutcome::Failed {
                failure: AttemptFailure::Transient(TransientFault::BeaconFetchFailed { .. })
            }
        }
    ));
}

#[test]
fn execution_fetch_error_is_permanent() {
    let (st, _) = engine_start(7);
    let (st, _, _) = engine_step(
        st,
        EngineEvent::BeaconBlockFetched { result: Ok(Some(beacon_block_with_blobs())) },
    );
    let (st, _, _) = engine_step(
        st,
        EngineEvent::ExecutionBlockFetched { result: Err("timeout".to_string()) },
    );
    assert!(matches!(
        st,
        EngineState::Finished {
            outcome: AttemptOutcome::Failed {
                failure: AttemptFailure::Permanent(PermanentFault::ExecutionFetchFailed { .. })
            }
        }
    ));
}

#[test]
fn execution_block_not_found_is_permanent() {
    let (st, _) = engine_start(7);
    let (st, _, _) = engine_step(
        st,
        EngineEvent::BeaconBlockFetched { result: Ok(Some(beacon_block_with_blobs())) },
    );
    let (st, _, _) =
        engine_step(st, EngineEvent::ExecutionBlockFetched { result: Ok(None) });
    match st {
        EngineState::Finished {
            outcome:
                AttemptOutcome::Failed {
                    failure:
                        AttemptFailure::Permanent(PermanentFault::ExecutionBlockNotFound {
                            block_hash,
                        }),
                },
        } => assert_eq!(block_hash, h(0xAA)),
        other => panic!("unexpected state: {other:?}"),
    }
}

#[test]
fn mismatch_when_no_blob_transactions() {
    let (st, _) = engine_start(7);
    let (st, act, _) = engine_step(
        st,
        EngineEvent::BeaconBlockFetched { result: Ok(Some(beacon_block_with_blobs())) },
    );
    assert!(matches!(act, Some(EngineAction::FetchExecutionBlock { .. })));
    let eb = ExecutionBlockData {
        number: Some(100),
        hash: Some(h(0xAA)),
        timestamp: 1234,
        transactions: vec![TransactionData { hash: h(0x11), blob_versioned_hashes: None }],
    };
    let (st, act, _) =
        engine_step(st, EngineEvent::ExecutionBlockFetched { result: Ok(Some(eb)) });
    assert!(act.is_none());
    assert!(matches!(
        st,
        EngineState::Finished {
            outcome: AttemptOutcome::Failed {
                failure: AttemptFailure::Permanent(
                    PermanentFault::CommitmentsWithoutBlobTransactions
                )
            }
        }
    ));
}

#[test]
fn malformed_blob_hash_is_permanent() {
    let (st, _) = engine_start(7);
    let (st, _, _) = engine_step(
        st,
        EngineEvent::BeaconBlockFetched { result: Ok(Some(beacon_block_with_blobs())) },
    );
    let eb = ExecutionBlockData {
        number: Some(100),
        hash: Some(h(0xAA)),
        timestamp: 1234,
        transactions: vec![TransactionData {
            hash: h(0x22),
            blob_versioned_hashes: Some(vec![vec![1, 2, 3]]),
        }],
    };
    let (st, _, _) =
        engine_step(st, EngineEvent::ExecutionBlockFetched { result: Ok(Some(eb)) });
    match st {
        EngineState::Finished {
            outcome:
                AttemptOutcome::Failed {
                    failure:
                        AttemptFailure::Permanent(PermanentFault::MalformedBlobHashes { tx_hash }),
                },
        } => assert_eq!(tx_hash, h(0x22)),
        other => panic!("unexpected state: {other:?}"),
    }
}

#[test]
fn duplicate_sidecar_hash_is_permanent() {
    let (st, _) = engine_start(7);
    let (st, _, _) = engine_step(
        st,
        EngineEvent::BeaconBlockFetched { result: Ok(Some(beacon_block_with_blobs())) },
    );
    let (st, _, _) = engine_step(
        st,
        EngineEvent::ExecutionBlockFetched { result: Ok(Some(execution_block())) },
    );
    let sidecars = vec![
        BlobSidecarData { versioned_hash: h(0x01), data: vec![1] },
        BlobSidecarData { versioned_hash: h(0x01), data: vec![2] },
    ];
    let (st, _, _) =
        engine_step(st, EngineEvent::BlobsFetched { result: Ok(Some(sidecars)) });
    match st {
        EngineState::Finished {
            outcome:
                AttemptOutcome::Failed {
                    failure:
                        AttemptFailure::Permanent(PermanentFault::DuplicateVersionedHash {
                            versioned_hash,
                        }),
                },
        } => assert_eq!(versioned_hash, h(0x01)),
        other => panic!("unexpected state: {other:?}"),
    }
}

#[test]
fn missing_block_fields_is_permanent() {
    let (st, _) = engine_start(7);
    let (st, _, _) = engine_step(
        st,
        EngineEvent::BeaconBlockFetched { result: Ok(Some(beacon_block_with_blobs())) },
    );
    let eb = ExecutionBlockData {
        number: None,
        hash: Some(h(0xAA)),
        timestamp: 1234,
        transactions: vec![TransactionData {
            hash: h(0x22),
            blob_versioned_hashes: Some(vec![h(0x01)]),
        }],
    };
    let (st, _, _) =
        engine_step(st, EngineEvent::ExecutionBlockFetched { result: Ok(Some(eb)) });
    let sidecars = vec![BlobSidecarData { versioned_hash: h(0x01), data: vec![1] }];
    let (st, _, _) =
        engine_step(st, EngineEvent::BlobsFetched { result: Ok(Some(sidecars)) });
    assert!(matches!(
        st,
        EngineState::Finished {
            outcome: AttemptOutcome::Failed {
                failure: AttemptFailure::Permanent(PermanentFault::MissingBlockFields)
            }
        }
    ));
}

#[test]
fn missing_sidecar_names_hash_tx_and_index() {
    let (st, _) = engine_start(7);
    let (st, _, _) = engine_step(
        st,
        EngineEvent::BeaconBlockFetched { result: Ok(Some(beacon_block_with_blobs())) },
    );
    let eb = ExecutionBlockData {
        number: Some(100),
        hash: Some(h(0xAA)),
        timestamp: 1234,
        transactions: vec![TransactionData {
            hash: h(0x22),
            blob_versioned_hashes: Some(vec![h(0x01), h(0x02)]),
        }],
    };
    let (st, _, _) =
        engine_step(st, EngineEvent::ExecutionBlockFetched { result: Ok(Some(eb)) });
    let sidecars = vec![BlobSidecarData { versioned_hash: h(0x01), data: vec![1] }];
    let (st, _, _) =
        engine_step(st, EngineEvent::BlobsFetched { result: Ok(Some(sidecars)) });
    match st {
        EngineState::Finished {
            outcome:
                AttemptOutcome::Failed {
                    failure:
                        AttemptFailure::Permanent(PermanentFault::SidecarNotFound {
                            versioned_hash,
                            tx_hash,
                            index,
                        }),
                },
        } => {
            assert_eq!(versioned_hash, h(0x02));
            assert_eq!(tx_hash, h(0x22));
            assert_eq!(index, 1);
        },
        other => panic!("unexpected state: {other:?}"),
    }
}

#[test]
fn full_slot_is_indexed() {
    let slot = 7;
    let (st, act) = engine_start(slot);
    assert!(matches!(act, EngineAction::FetchBeaconBlock { slot: 7 }));
    let (st, act, evs) = engine_step(
        st,
        EngineEvent::BeaconBlockFetched { result: Ok(Some(beacon_block_with_blobs())) },
    );
    assert!(evs.is_empty());
    match act {
        Some(EngineAction::FetchExecutionBlock { block_hash }) => {
            assert_eq!(block_hash, h(0xAA))
        },
        other => panic!("unexpected action: {other:?}"),
    }
    let (st, act, _) = engine_step(
        st,
        EngineEvent::ExecutionBlockFetched { result: Ok(Some(execution_block())) },
    );
    assert!(matches!(act, Some(EngineAction::FetchBlobs { slot: 7 })));
    let sidecars = vec![BlobSidecarData { versioned_hash: h(0x01), data: vec![1, 2, 3] }];
    let (st, act, _) =
        engine_step(st, EngineEvent::BlobsFetched { result: Ok(Some(sidecars)) });
    match act {
        Some(EngineAction::Submit { block, transactions, blobs }) => {
            assert_eq!(block.number, 100);
            assert_eq!(block.hash, h(0xAA));
            assert_eq!(block.slot, 7);
            assert_eq!(block.timestamp, 1234);
            assert_eq!(transactions.len(), 1);
            assert_eq!(transactions[0].hash, h(0x22));
            assert_eq!(transactions[0].block_number, 100);
            assert_eq!(blobs.len(), 1);
            assert_eq!(blobs[0].versioned_hash, h(0x01));
            assert_eq!(blobs[0].data, vec![1, 2, 3]);
            assert_eq!(blobs[0].index, 0);
            assert_eq!(blobs[0].tx_hash, h(0x22));
        },
        other => panic!("unexpected action: {other:?}"),
    }
    let (st, act, evs) =
        engine_step(st, EngineEvent::SubmissionCompleted { result: Ok(()) });
    assert!(act.is_none());
    assert_eq!(evs.len(), 1);
    assert_eq!(evs[0].severity(), Severity::InfoLevel);
    match st {
        EngineState::Finished { outcome: AttemptOutcome::Indexed { summary } } => {
            assert_eq!(summary.slot, 7);
            assert_eq!(summary.block_hash, h(0xAA));
            assert_eq!(summary.tx_hashes, vec![h(0x22)]);
            assert_eq!(summary.blob_versioned_hashes, vec![h(0x01)]);
        },
        other => panic!("unexpected state: {other:?}"),
    }
}

#[test]
fn repeated_attempts_build_identical_entities() {
    let run = || {
        let (st, _) = engine_start(7);
        let (st, _, _) = engine_step(
            st,
            EngineEvent::BeaconBlockFetched { result: Ok(Some(beacon_block_with_blobs())) },
        );
        let (st, _, _) = engine_step(
            st,
            EngineEvent::ExecutionBlockFetched { result: Ok(Some(execution_block())) },
        );
        let sidecars =
            vec![BlobSidecarData { versioned_hash: h(0x01), data: vec![1, 2, 3] }];
        let (_, act, _) =
            engine_step(st, EngineEvent::BlobsFetched { result: Ok(Some(sidecars)) });
        match act {
            Some(EngineAction::Submit { block, transactions, blobs }) => {
                (block, transactions, blobs)
            },
            other => panic!("unexpected action: {other:?}"),
        }
    };
    let (b1, t1, bl1) = run();
    let (b2, t2, bl2) = run();
    assert_eq!(b1, b2);
    assert_eq!(t1, t2);
    assert_eq!(bl1, bl2);
}

#[test]
fn tx_hash_mapping_excludes_transactions_without_blobs() {
    let eb = execution_block();
    let m = build_tx_hash_mapping(&eb).unwrap();
    assert_eq!(m.entries.len(), 1);
    assert_eq!(m.entries[0].tx_hash, h(0x22));
    assert_eq!(m.entries[0].versioned_hashes, vec![h(0x01)]);
}

#[test]
fn stray_event_leaves_state_unchanged() {
    let (st, _) = engine_start(7);
    let (st, act, evs) =
        engine_step(st, EngineEvent::SubmissionCompleted { result: Ok(()) });
    assert!(act.is_none());
    assert!(evs.is_empty());
    assert!(matches!(st, EngineState::AwaitingBeaconBlock { slot: 7 }));
}
