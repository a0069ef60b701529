use node_runtime::correlator::{AwaitOutcome, CompleteOutcome, Correlator};
use node_runtime::envelope::{Body, Payload};
use node_runtime::errors::ErrorCode;
use node_runtime::idgen::MsgIdGen;
use node_runtime::node::{Node, StateError};

fn plain_body(payload: Payload) -> Body {
    Body { msg_id: None, in_reply_to: None, payload }
}

#[test]
fn id_generator_starts_at_zero_and_increases() {
    let mut gen = MsgIdGen::new();
    assert_eq!(gen.next(), 0);
    assert_eq!(gen.next(), 1);
    assert_eq!(gen.next(), 2);
    assert_eq!(gen.counter, 3);
}

#[test]
fn id_generator_ids_are_pairwise_distinct() {
    let mut gen = MsgIdGen::new();
    let mut seen = Vec::new();
    for _ in 0..100 {
        let id = gen.next();
        assert!(!seen.contains(&id));
        seen.push(id);
    }
}

#[test]
fn issue_then_complete_then_await_yields_reply_body() {
    let mut corr = Correlator::new();
    let mut gen = MsgIdGen::new();
    let id = corr.issue(&mut gen, 0, Some(1000));
    let reply = plain_body(Payload::EchoOk { echo: b"pong".to_vec() });
    assert_eq!(corr.complete(id, reply.clone()), CompleteOutcome::Fulfilled);
    match corr.try_await(id, 5) {
        AwaitOutcome::Ready(body) => assert_eq!(body, reply),
        other => panic!("expected Ready, got {:?}", other),
    }
    assert!(!corr.is_pending(id));
}

#[test]
fn fulfilled_call_is_ready_even_past_its_deadline() {
    let mut corr = Correlator::new();
    let mut gen = MsgIdGen::new();
    let id = corr.issue(&mut gen, 0, Some(50));
    let reply = plain_body(Payload::InitOk);
    assert_eq!(corr.complete(id, reply.clone()), CompleteOutcome::Fulfilled);
    match corr.try_await(id, 500) {
        AwaitOutcome::Ready(body) => assert_eq!(body, reply),
        other => panic!("expected Ready, got {:?}", other),
    }
}

#[test]
fn await_with_timeout_never_fires_early() {
    let mut corr = Correlator::new();
    let mut gen = MsgIdGen::new();
    let id = corr.issue(&mut gen, 0, Some(50));
    assert_eq!(corr.try_await(id, 0), AwaitOutcome::Pending);
    assert_eq!(corr.try_await(id, 49), AwaitOutcome::Pending);
    assert_eq!(corr.try_await(id, 50), AwaitOutcome::TimedOut);
}

#[test]
fn timed_out_call_is_not_resurrected_by_late_reply() {
    let mut corr = Correlator::new();
    let mut gen = MsgIdGen::new();
    let id = corr.issue(&mut gen, 0, Some(50));
    assert_eq!(corr.try_await(id, 90), AwaitOutcome::TimedOut);
    assert!(!corr.is_pending(id));
    let late = plain_body(Payload::EchoOk { echo: b"late".to_vec() });
    assert_eq!(corr.complete(id, late), CompleteOutcome::Unmatched);
}

#[test]
fn replaying_a_reply_fulfills_once_and_is_then_unmatched() {
    let mut corr = Correlator::new();
    let mut gen = MsgIdGen::new();
    let id = corr.issue(&mut gen, 0, None);
    let reply = plain_body(Payload::EchoOk { echo: b"once".to_vec() });
    assert_eq!(corr.complete(id, reply.clone()), CompleteOutcome::Fulfilled);
    assert_eq!(corr.complete(id, reply.clone()), CompleteOutcome::Unmatched);
    match corr.try_await(id, 0) {
        AwaitOutcome::Ready(body) => assert_eq!(body, reply),
        other => panic!("expected Ready, got {:?}", other),
    }
}

#[test]
fn reply_to_unknown_id_is_unmatched() {
    let mut corr = Correlator::new();
    assert_eq!(
        corr.complete(7, plain_body(Payload::InitOk)),
        CompleteOutcome::Unmatched
    );
    assert_eq!(corr.len(), 0);
}

#[test]
fn call_without_deadline_stays_pending() {
    let mut corr = Correlator::new();
    let mut gen = MsgIdGen::new();
    let id = corr.issue(&mut gen, 0, None);
    assert_eq!(corr.try_await(id, u64::MAX), AwaitOutcome::Pending);
    assert!(corr.is_pending(id));
}

#[test]
fn identity_reads_fail_before_init_and_succeed_after() {
    let mut node = Node::new();
    assert_eq!(node.current_id().unwrap_err(), StateError::NotInitialized);
    assert_eq!(node.peer_ids().unwrap_err(), StateError::NotInitialized);
    let peers = vec![b"n1".to_vec(), b"n2".to_vec()];
    assert!(node.initialize(b"n1".to_vec(), peers.clone()).is_ok());
    assert_eq!(node.current_id().unwrap(), &b"n1".to_vec());
    assert_eq!(node.peer_ids().unwrap(), &peers);
}

#[test]
fn second_initialize_is_refused_and_changes_nothing() {
    let mut node = Node::new();
    assert!(node.initialize(b"n1".to_vec(), vec![b"n1".to_vec()]).is_ok());
    let err = node
        .initialize(b"n9".to_vec(), vec![b"n9".to_vec()])
        .unwrap_err();
    assert_eq!(err, StateError::AlreadyInitialized);
    assert_eq!(node.current_id().unwrap(), &b"n1".to_vec());
}

#[test]
fn issue_rpc_records_the_deadline_from_now_plus_timeout() {
    let mut node = Node::new();
    let id = node.issue_rpc(100, Some(50));
    assert_eq!(node.corr.try_await(id, 149), AwaitOutcome::Pending);
    assert_eq!(node.corr.try_await(id, 150), AwaitOutcome::TimedOut);
}

#[test]
fn error_codes_match_the_taxonomy() {
    assert_eq!(ErrorCode::Timeout.code(), 0);
    assert_eq!(ErrorCode::NodeNotFound.code(), 1);
    assert_eq!(ErrorCode::NotSupported.code(), 10);
    assert_eq!(ErrorCode::Unavailable.code(), 11);
    assert_eq!(ErrorCode::Malformed.code(), 12);
    assert_eq!(ErrorCode::Crashed.code(), 13);
    assert_eq!(ErrorCode::Aborted.code(), 14);
    assert_eq!(ErrorCode::KeyNotExist.code(), 20);
    assert_eq!(ErrorCode::KeyAlreadyExist.code(), 21);
    assert_eq!(ErrorCode::PreconditionFailed.code(), 22);
    assert_eq!(ErrorCode::TxConflict.code(), 30);
}

#[test]
fn error_codes_round_trip_through_from_code() {
    for code in [0u64, 1, 10, 11, 12, 13, 14, 20, 21, 22, 30] {
        let e = ErrorCode::from_code(code).unwrap();
        assert_eq!(e.code(), code);
    }
    assert!(ErrorCode::from_code(2).is_none());
    assert!(ErrorCode::from_code(15).is_none());
    assert!(ErrorCode::from_code(31).is_none());
}

#[test]
fn error_texts_are_the_canonical_ones() {
    assert_eq!(ErrorCode::Timeout.text(), b"Timed out".to_vec());
    assert_eq!(
        ErrorCode::NotSupported.text(),
        b"Operation not supported".to_vec()
    );
    assert_eq!(ErrorCode::Crashed.text(), b"Crashed".to_vec());
}
