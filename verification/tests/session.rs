use zmctf_core::backend::{HttpReply, error_message, interpret_exchange};
use zmctf_core::model::AnalysisError;
use zmctf_core::session::{AnalysisSession, SessionState};
use zmctf_core::wire::encode_request;

const FIXTURE_ONE_FLAG: &str = "{\"success\":true,\"flags\":[{\"content\":\"flag{test}\",\"confidence\":0.99,\"source\":\"plain\",\"encoding\":null}],\"logs\":[]}";

#[test]
fn submit_empty_input_stays_idle() {
    let mut s = AnalysisSession::new();
    assert!(s.submit("").is_none());
    assert!(matches!(s.state(), SessionState::Idle));
    assert_eq!(s.status().as_str(), "ready.");
    assert!(!s.is_pending());
}

#[test]
fn second_submit_while_pending_is_a_noop() {
    let mut s = AnalysisSession::new();
    let first = s.submit("flag{test}");
    assert!(first.is_some());
    assert!(s.is_pending());
    assert_eq!(s.status().as_str(), "analyzing...");
    let second = s.submit("other text");
    assert!(second.is_none());
    match s.state() {
        SessionState::Pending(req) => assert_eq!(req.content, "flag{test}"),
        other => panic!("expected the first request to stay pending, got {other:?}"),
    }
}

#[test]
fn poll_on_empty_channel_returns_and_keeps_pending() {
    let mut s = AnalysisSession::new();
    let _handle = s.submit("flag{test}").expect("submission starts");
    let again = s.poll();
    assert!(again, "an undelivered submission asks for another tick");
    assert!(s.is_pending());
    assert_eq!(s.status().as_str(), "analyzing...");
}

#[test]
fn delivered_success_completes_with_flag_count() {
    let mut s = AnalysisSession::new();
    let (req, tx) = s.submit("flag{test}").expect("submission starts");
    assert_eq!(
        encode_request(&req).as_str(),
        "{\"content\":\"flag{test}\",\"mode\":null}",
    );
    let outcome = interpret_exchange(HttpReply::Success(FIXTURE_ONE_FLAG.to_string()));
    tx.send(outcome).unwrap();
    let again = s.poll();
    assert!(!again);
    match s.state() {
        SessionState::Completed(a) => {
            assert!(a.success);
            assert_eq!(a.flags.len(), 1);
            assert_eq!(a.flags[0].content, "flag{test}");
            assert_eq!(a.flags[0].confidence, "0.99");
            assert_eq!(a.flags[0].source, "plain");
            assert_eq!(a.flags[0].encoding, None);
            assert!(a.logs.is_empty());
        }
        other => panic!("expected completion, got {other:?}"),
    }
    assert_eq!(s.status().as_str(), "analysis complete: 1 flag(s) found.");
}

#[test]
fn transport_failure_reenables_submit() {
    let mut s = AnalysisSession::new();
    let (_req, tx) = s.submit("flag{test}").expect("submission starts");
    let outcome = interpret_exchange(HttpReply::Transport("connection refused".to_string()));
    tx.send(outcome).unwrap();
    assert!(!s.poll());
    match s.state() {
        SessionState::Failed(m) => assert_eq!(m, "connection refused"),
        other => panic!("expected failure, got {other:?}"),
    }
    assert_eq!(s.status().as_str(), "analysis failed: connection refused");
    assert!(!s.is_pending());
    assert!(s.submit("flag{test}").is_some(), "submit is available again");
}

#[test]
fn http_500_boom_fails_with_exact_message() {
    let mut s = AnalysisSession::new();
    let (_req, tx) = s.submit("flag{test}").expect("submission starts");
    let outcome = interpret_exchange(HttpReply::Status(500, "boom".to_string()));
    tx.send(outcome).unwrap();
    assert!(!s.poll());
    match s.state() {
        SessionState::Failed(m) => assert_eq!(m, "HTTP 500: boom"),
        other => panic!("expected failure, got {other:?}"),
    }
}

#[test]
fn http_500_internal_error_maps_exactly() {
    let e = match interpret_exchange(HttpReply::Status(500, "internal error".to_string())) {
        Err(e) => e,
        Ok(_) => panic!("a non-2xx status must not succeed"),
    };
    assert_eq!(e, AnalysisError::RemoteRejected(500, "internal error".to_string()));
    assert_eq!(error_message(&e).as_str(), "HTTP 500: internal error");
}

#[test]
fn disconnected_worker_is_an_internal_failure() {
    let mut s = AnalysisSession::new();
    let (_req, tx) = s.submit("flag{test}").expect("submission starts");
    drop(tx);
    assert!(!s.poll());
    match s.state() {
        SessionState::Failed(m) => assert_eq!(m, "background task interrupted"),
        other => panic!("expected failure, got {other:?}"),
    }
    assert_eq!(s.status().as_str(), "analysis failed: background task interrupted");
}

#[test]
fn clear_resets_a_display_state() {
    let mut s = AnalysisSession::new();
    let (_req, tx) = s.submit("flag{test}").expect("submission starts");
    tx.send(interpret_exchange(HttpReply::Status(500, "boom".to_string()))).unwrap();
    assert!(!s.poll());
    s.clear();
    assert!(matches!(s.state(), SessionState::Idle));
    assert_eq!(s.status().as_str(), "ready.");
}

#[test]
fn clear_leaves_a_pending_submission_alone() {
    let mut s = AnalysisSession::new();
    let _handle = s.submit("flag{test}").expect("submission starts");
    s.clear();
    assert!(s.is_pending());
    assert_eq!(s.status().as_str(), "analyzing...");
}

#[test]
fn resubmission_clears_the_previous_result() {
    let mut s = AnalysisSession::new();
    let (_req, tx) = s.submit("flag{test}").expect("submission starts");
    tx.send(interpret_exchange(HttpReply::Success(FIXTURE_ONE_FLAG.to_string()))).unwrap();
    assert!(!s.poll());
    assert!(matches!(s.state(), SessionState::Completed(_)));
    let second = s.submit("second text");
    assert!(second.is_some());
    match s.state() {
        SessionState::Pending(req) => assert_eq!(req.content, "second text"),
        other => panic!("expected the new submission to be pending, got {other:?}"),
    }
}
