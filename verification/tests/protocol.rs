use blob_indexer::engine::AttemptOutcome;
use blob_indexer::envelope::{
    decode_envelope, dispatch_event, interpret_get_response, interpret_put_response,
    request_auth, send_failure, ClientFault, GetOutcome, PutOutcome, ResponseEnvelope,
};
use blob_indexer::events::{
    AttemptFailure, EmittedEvent, HttpMethod, Severity, SkipReason, TransientFault,
};
use blob_indexer::retry::{decide_after_attempt, ControllerStep};

#[test]
fn get_404_is_absent_without_events() {
    let (outcome, events) =
        interpret_get_response("http://backend/slot", 404, "ignored".to_string());
    assert!(matches!(outcome, GetOutcome::Absent));
    assert!(events.is_empty());
}

#[test]
fn get_non_json_body_is_fault_with_raw_body() {
    let (outcome, events) =
        interpret_get_response("http://backend/slot", 200, "<html>oops</html>".to_string());
    match outcome {
        GetOutcome::Fault { fault: ClientFault::UnexpectedResponse { body } } => {
            assert_eq!(body, "<html>oops</html>")
        },
        other => panic!("unexpected outcome: {other:?}"),
    }
    assert_eq!(events.len(), 1);
    assert_eq!(events[0].severity(), Severity::WarnLevel);
    match &events[0] {
        EmittedEvent::UnexpectedResponse { method, url, body } => {
            assert_eq!(*method, HttpMethod::Get);
            assert_eq!(url, "http://backend/slot");
            assert_eq!(body, "<html>oops</html>");
        },
        other => panic!("unexpected event: {other:?}"),
    }
}

#[test]
fn get_data_envelope_returns_payload() {
    let (outcome, events) =
        interpret_get_response("http://backend/slot", 200, "{\"data\":{\"x\":1}}".to_string());
    match outcome {
        GetOutcome::Payload { payload } => assert_eq!(payload, "{\"x\":1}"),
        other => panic!("unexpected outcome: {other:?}"),
    }
    assert!(events.is_empty());
}

#[test]
fn get_error_envelope_is_server_fault() {
    let (outcome, events) =
        interpret_get_response("http://backend/slot", 200, "{\"error\":\"boom\"}".to_string());
    match outcome {
        GetOutcome::Fault { fault: ClientFault::ServerReported { message } } => {
            assert!(message.contains("boom"))
        },
        other => panic!("unexpected outcome: {other:?}"),
    }
    assert_eq!(events.len(), 1);
    assert_eq!(events[0].severity(), Severity::WarnLevel);
}

#[test]
fn get_other_status_is_http_failure() {
    let (outcome, events) =
        interpret_get_response("http://backend/slot", 503, "busy".to_string());
    match outcome {
        GetOutcome::Fault { fault: ClientFault::HttpFailure { status, body } } => {
            assert_eq!(status, 503);
            assert_eq!(body, "busy");
        },
        other => panic!("unexpected outcome: {other:?}"),
    }
    assert_eq!(events.len(), 1);
}

#[test]
fn put_error_envelope_is_fault_with_warning() {
    let (outcome, events) =
        interpret_put_response("http://backend/index", 200, "{\"error\":\"rejected\"}".to_string());
    match outcome {
        PutOutcome::Fault { fault: ClientFault::ServerReported { message } } => {
            assert!(message.contains("rejected"))
        },
        other => panic!("unexpected outcome: {other:?}"),
    }
    assert_eq!(events.len(), 1);
    assert_eq!(events[0].severity(), Severity::WarnLevel);
}

#[test]
fn put_404_is_an_error_not_absence() {
    let (outcome, events) =
        interpret_put_response("http://backend/index", 404, "missing".to_string());
    match outcome {
        PutOutcome::Fault { fault: ClientFault::HttpFailure { status, body } } => {
            assert_eq!(status, 404);
            assert_eq!(body, "missing");
        },
        other => panic!("unexpected outcome: {other:?}"),
    }
    assert_eq!(events.len(), 1);
}

#[test]
fn put_data_envelope_is_accepted() {
    let (outcome, events) =
        interpret_put_response("http://backend/index", 200, "{\"data\":null}".to_string());
    match outcome {
        PutOutcome::Accepted { payload } => assert_eq!(payload, "null"),
        other => panic!("unexpected outcome: {other:?}"),
    }
    assert!(events.is_empty());
}

#[test]
fn decode_envelope_rejects_plain_json() {
    assert!(decode_envelope("[1,2,3]").is_none());
    assert!(decode_envelope("{\"other\":1}").is_none());
    assert!(decode_envelope("not json").is_none());
    match decode_envelope("{\"data\":7}") {
        Some(ResponseEnvelope::DataPayload { payload }) => assert_eq!(payload, "7"),
        other => panic!("unexpected envelope: {other:?}"),
    }
}

#[test]
fn dispatch_and_send_failure_events() {
    let e = dispatch_event(HttpMethod::Put, "http://backend/index", Some("{\"data\":1}"));
    assert_eq!(e.severity(), Severity::DebugLevel);
    match e {
        EmittedEvent::RequestDispatched { method, url, body } => {
            assert_eq!(method, HttpMethod::Put);
            assert_eq!(url, "http://backend/index");
            assert_eq!(body.as_deref(), Some("{\"data\":1}"));
        },
        other => panic!("unexpected event: {other:?}"),
    }
    let (fault, event) =
        send_failure(HttpMethod::Get, "http://backend/slot", "dns failure".to_string());
    assert!(matches!(fault, ClientFault::SendFailure { .. }));
    assert_eq!(event.severity(), Severity::WarnLevel);
}

#[test]
fn auth_is_attached_only_with_a_token() {
    assert_eq!(request_auth(""), None);
    assert_eq!(request_auth("bearer-token-1"), Some("bearer-token-1".to_string()));
}

#[test]
fn transient_failure_is_retried_with_notice() {
    let outcome = AttemptOutcome::Failed {
        failure: AttemptFailure::Transient(TransientFault::IndexingFailed {
            detail: "502".to_string(),
        }),
    };
    match decide_after_attempt(7, outcome, Some(3)) {
        ControllerStep::RetryAfter { wait_secs, notice } => {
            assert_eq!(wait_secs, 3);
            assert_eq!(notice.severity(), Severity::WarnLevel);
            match notice {
                EmittedEvent::RetryScheduled { slot, fault: _, wait_secs } => {
                    assert_eq!(slot, 7);
                    assert_eq!(wait_secs, 3);
                },
                other => panic!("unexpected notice: {other:?}"),
            }
        },
        other => panic!("unexpected step: {other:?}"),
    }
}

#[test]
fn transient_failures_then_success_retries_each_time() {
    let waits = [1u64, 2u64];
    let mut notices = Vec::new();
    for w in waits {
        let outcome = AttemptOutcome::Failed {
            failure: AttemptFailure::Transient(TransientFault::BeaconFetchFailed {
                detail: "reset".to_string(),
            }),
        };
        match decide_after_attempt(7, outcome, Some(w)) {
            ControllerStep::RetryAfter { wait_secs, notice } => {
                assert_eq!(wait_secs, w);
                notices.push(notice);
            },
            other => panic!("unexpected step: {other:?}"),
        }
    }
    assert_eq!(notices.len(), 2);
    let wait_of = |n: &EmittedEvent| match n {
        EmittedEvent::RetryScheduled { wait_secs, .. } => *wait_secs,
        other => panic!("unexpected notice: {other:?}"),
    };
    assert!(wait_of(&notices[0]) < wait_of(&notices[1]));
    let success = AttemptOutcome::Skipped { slot: 7, reason: SkipReason::NoBeaconBlock };
    match decide_after_attempt(7, success, Some(4)) {
        ControllerStep::Concluded { result } => assert!(result.is_ok()),
        other => panic!("unexpected step: {other:?}"),
    }
}

#[test]
fn permanent_failure_is_never_retried() {
    let outcome = AttemptOutcome::Failed {
        failure: AttemptFailure::Permanent(
            blob_indexer::events::PermanentFault::CommitmentsWithoutBlobTransactions,
        ),
    };
    match decide_after_attempt(7, outcome, Some(5)) {
        ControllerStep::Concluded { result } => match result {
            Err(AttemptFailure::Permanent(_)) => {},
            other => panic!("unexpected result: {other:?}"),
        },
        other => panic!("unexpected step: {other:?}"),
    }
}

#[test]
fn exhausted_budget_surfaces_transient_error() {
    let outcome = AttemptOutcome::Failed {
        failure: AttemptFailure::Transient(TransientFault::IndexingFailed {
            detail: "502".to_string(),
        }),
    };
    match decide_after_attempt(7, outcome, None) {
        ControllerStep::Concluded { result } => match result {
            Err(AttemptFailure::Transient(_)) => {},
            other => panic!("unexpected result: {other:?}"),
        },
        other => panic!("unexpected step: {other:?}"),
    }
}
