use node_runtime::codec::{encode_line, encode_msg, parse_line};
use node_runtime::echo::EchoNode;
use node_runtime::envelope::{reply_to, Body, Message, Payload};
use node_runtime::errors::ErrorCode;
use node_runtime::node::{error_reply, Node, RouteOutcome};

fn msg(src: &[u8], dest: &[u8], msg_id: Option<u64>, in_reply_to: Option<u64>, payload: Payload) -> Message {
    Message {
        src: src.to_vec(),
        dest: dest.to_vec(),
        body: Body { msg_id, in_reply_to, payload },
    }
}

fn contains(haystack: &[u8], needle: &[u8]) -> bool {
    haystack.windows(needle.len()).any(|w| w == needle)
}

#[test]
fn init_scenario_produces_the_expected_handshake_line() {
    let line = b"{\"src\":\"c1\",\"dest\":\"n1\",\"body\":{\"type\":\"init\",\"msg_id\":1,\"node_id\":\"n1\",\"node_ids\":[\"n1\"]}}".to_vec();
    let input = parse_line(&line).expect("the init line is canonical");
    let mut node = Node::new();
    match node.route(input) {
        RouteOutcome::Reply(reply) => {
            assert_eq!(
                encode_msg(&reply),
                b"{\"src\":\"n1\",\"dest\":\"c1\",\"body\":{\"type\":\"init_ok\",\"in_reply_to\":1}}".to_vec()
            );
        },
        other => panic!("expected a core reply, got {:?}", other),
    }
    assert_eq!(node.current_id().unwrap(), &b"n1".to_vec());
}

#[test]
fn echo_scenario_produces_an_echo_ok_line() {
    let mut node = Node::new();
    node.register(b"echo".to_vec());
    let init = msg(
        b"c1",
        b"n1",
        Some(1),
        None,
        Payload::Init { node_id: b"n1".to_vec(), node_ids: vec![b"n1".to_vec()] },
    );
    match node.route(init) {
        RouteOutcome::Reply(_) => {},
        other => panic!("expected the handshake reply, got {:?}", other),
    }
    let line = b"{\"src\":\"c1\",\"dest\":\"n1\",\"body\":{\"type\":\"echo\",\"msg_id\":2,\"echo\":\"hello\"}}".to_vec();
    let request = parse_line(&line).expect("the echo line is canonical");
    let delivered = match node.route(request) {
        RouteOutcome::Deliver(m) => m,
        other => panic!("expected delivery to the echo handler, got {:?}", other),
    };
    let mut echo = EchoNode::new();
    let reply = echo.step(delivered).expect("an echo request is owed a reply");
    let out = encode_msg(&reply);
    assert!(contains(&out, b"\"type\":\"echo_ok\""));
    assert!(contains(&out, b"\"echo\":\"hello\""));
    assert!(contains(&out, b"\"in_reply_to\":2"));
    assert_eq!(
        out,
        b"{\"src\":\"n1\",\"dest\":\"c1\",\"body\":{\"type\":\"echo_ok\",\"msg_id\":0,\"in_reply_to\":2,\"echo\":\"hello\"}}".to_vec()
    );
}

#[test]
fn unhandled_kind_is_answered_with_not_supported() {
    let mut node = Node::new();
    let request = msg(b"c1", b"n1", Some(3), None, Payload::Echo { echo: b"hi".to_vec() });
    match node.route(request) {
        RouteOutcome::Reply(reply) => {
            match &reply.body.payload {
                Payload::Error { code, text } => {
                    assert_eq!(*code, 10);
                    assert_eq!(text, &b"Operation not supported".to_vec());
                },
                other => panic!("expected an error payload, got {:?}", other),
            }
            assert_eq!(reply.body.in_reply_to, Some(3));
            let out = encode_msg(&reply);
            assert!(contains(&out, b"\"type\":\"error\""));
            assert!(contains(&out, b"\"code\":10"));
        },
        other => panic!("expected an error reply, got {:?}", other),
    }
}

#[test]
fn second_init_is_answered_with_malformed() {
    let mut node = Node::new();
    let init = |id: u64| {
        msg(
            b"c1",
            b"n1",
            Some(id),
            None,
            Payload::Init { node_id: b"n1".to_vec(), node_ids: vec![b"n1".to_vec()] },
        )
    };
    match node.route(init(1)) {
        RouteOutcome::Reply(reply) => assert_eq!(reply.body.payload, Payload::InitOk),
        other => panic!("expected init_ok, got {:?}", other),
    }
    match node.route(init(2)) {
        RouteOutcome::Reply(reply) => match &reply.body.payload {
            Payload::Error { code, .. } => assert_eq!(*code, ErrorCode::Malformed.code()),
            other => panic!("expected an error payload, got {:?}", other),
        },
        other => panic!("expected an error reply, got {:?}", other),
    }
    assert_eq!(node.current_id().unwrap(), &b"n1".to_vec());
}

#[test]
fn inbound_reply_goes_to_the_correlator() {
    let mut node = Node::new();
    let id = node.issue_rpc(0, None);
    let reply = msg(
        b"n2",
        b"n1",
        Some(9),
        Some(id),
        Payload::EchoOk { echo: b"pong".to_vec() },
    );
    match node.route(reply) {
        RouteOutcome::ReplyDelivered(co) => {
            assert_eq!(co, node_runtime::correlator::CompleteOutcome::Fulfilled);
        },
        other => panic!("expected correlator delivery, got {:?}", other),
    }
}

#[test]
fn every_reply_correlates_back_to_the_request() {
    let request = msg(b"c1", b"n1", Some(42), None, Payload::Echo { echo: b"x".to_vec() });
    let reply = reply_to(&request, None, Payload::EchoOk { echo: b"x".to_vec() });
    assert_eq!(reply.body.in_reply_to, Some(42));
    assert_eq!(reply.src, b"n1".to_vec());
    assert_eq!(reply.dest, b"c1".to_vec());
}

#[test]
fn echo_handle_runs_the_handshake_and_echoes() {
    let mut echo = EchoNode::new();
    let init = msg(
        b"c1",
        b"n1",
        Some(1),
        None,
        Payload::Init { node_id: b"n1".to_vec(), node_ids: vec![b"n1".to_vec()] },
    );
    let reply = echo.handle(init).expect("init is acknowledged");
    assert_eq!(reply.body.payload, Payload::InitOk);
    assert_eq!(reply.body.in_reply_to, Some(1));
    assert_eq!(echo.id, b"n1".to_vec());
    let request = msg(b"c1", b"n1", Some(2), None, Payload::Echo { echo: b"hey".to_vec() });
    let reply = echo.handle(request).expect("echo is answered");
    assert_eq!(reply.body.payload, Payload::EchoOk { echo: b"hey".to_vec() });
    assert_eq!(reply.body.msg_id, Some(0));
    assert_eq!(echo.msg_id_seq, 1);
    let stray = msg(b"c1", b"n1", None, None, Payload::EchoOk { echo: b"hey".to_vec() });
    assert!(echo.handle(stray).is_none());
}

#[test]
fn encode_then_parse_round_trips() {
    let original = msg(
        b"n1",
        b"n2",
        Some(7),
        Some(3),
        Payload::Error { code: 13, text: b"Crashed".to_vec() },
    );
    let mut line = encode_line(&original);
    assert_eq!(line.pop(), Some(b'\n'));
    assert_eq!(parse_line(&line).unwrap(), original);
}

#[test]
fn escaped_characters_round_trip() {
    let original = msg(
        b"n1",
        b"c1",
        Some(1),
        None,
        Payload::Echo { echo: b"say \"hi\"\\\n\t\r done".to_vec() },
    );
    let encoded = encode_msg(&original);
    assert!(contains(&encoded, b"say \\\"hi\\\"\\\\\\n\\t\\r done"));
    assert_eq!(parse_line(&encoded).unwrap(), original);
}

#[test]
fn init_with_several_peers_round_trips() {
    let original = msg(
        b"c1",
        b"n1",
        Some(1),
        None,
        Payload::Init {
            node_id: b"n1".to_vec(),
            node_ids: vec![b"n1".to_vec(), b"n2".to_vec(), b"n3".to_vec()],
        },
    );
    let encoded = encode_msg(&original);
    assert!(contains(&encoded, b"\"node_ids\":[\"n1\",\"n2\",\"n3\"]"));
    assert_eq!(parse_line(&encoded).unwrap(), original);
}

#[test]
fn malformed_lines_are_rejected_not_fatal() {
    let cases: Vec<&[u8]> = vec![
        b"",
        b"not json at all",
        b"{\"src\":\"c1\"}",
        b"{\"src\":\"c1\",\"dest\":\"n1\",\"body\":{\"msg_id\":2}}",
        b"{\"src\":\"c1\",\"dest\":\"n1\",\"body\":{\"type\":\"init_ok\"}}trailing",
        b"{\"src\":\"c1\",\"dest\":\"n1\",\"body\":{\"type\":\"echo\",\"msg_id\":18446744073709551616,\"echo\":\"x\"}}",
        b"{\"src\":\"c1\",\"dest\":\"n1\",\"body\":{\"type\":\"echo\",\"msg_id\":2,\"echo\":\"unterminated}}",
    ];
    for line in cases {
        match parse_line(&line.to_vec()) {
            Err(e) => assert_eq!(e, ErrorCode::Malformed),
            Ok(m) => panic!("expected a framing error for {:?}, got {:?}", line, m),
        }
    }
}

#[test]
fn largest_message_id_still_encodes_and_parses() {
    let original = msg(b"a", b"b", Some(u64::MAX), None, Payload::InitOk);
    let encoded = encode_msg(&original);
    assert!(contains(&encoded, b"\"msg_id\":18446744073709551615"));
    assert_eq!(parse_line(&encoded).unwrap(), original);
}

#[test]
fn empty_strings_and_empty_peer_list_encode_and_parse() {
    let original = msg(
        b"",
        b"",
        None,
        None,
        Payload::Init { node_id: b"".to_vec(), node_ids: vec![] },
    );
    let encoded = encode_msg(&original);
    assert_eq!(
        encoded,
        b"{\"src\":\"\",\"dest\":\"\",\"body\":{\"type\":\"init\",\"node_id\":\"\",\"node_ids\":[]}}".to_vec()
    );
    assert_eq!(parse_line(&encoded).unwrap(), original);
}

#[test]
fn unknown_kind_parses_and_is_answered_with_not_supported() {
    let line = b"{\"src\":\"c1\",\"dest\":\"n1\",\"body\":{\"type\":\"generate\",\"msg_id\":5}}".to_vec();
    let input = parse_line(&line).expect("an unknown kind still parses");
    assert_eq!(
        input.body.payload,
        Payload::Other { kind: b"generate".to_vec() }
    );
    let mut node = Node::new();
    match node.route(input) {
        RouteOutcome::Reply(reply) => {
            match &reply.body.payload {
                Payload::Error { code, .. } => assert_eq!(*code, 10),
                other => panic!("expected an error payload, got {:?}", other),
            }
            assert_eq!(reply.body.in_reply_to, Some(5));
            let out = encode_msg(&reply);
            assert!(contains(&out, b"\"code\":10"));
        },
        other => panic!("expected an error reply, got {:?}", other),
    }
}

#[test]
fn unknown_kind_members_are_skipped_unexamined() {
    let line = b"{\"src\":\"c1\",\"dest\":\"n1\",\"body\":{\"type\":\"broadcast\",\"msg_id\":6,\"message\":123,\"meta\":{\"a\":[1,\"x\",true],\"b\":null},\"note\":\"hi\"}}".to_vec();
    let input = parse_line(&line).expect("unknown members are skipped");
    assert_eq!(
        input.body.payload,
        Payload::Other { kind: b"broadcast".to_vec() }
    );
    assert_eq!(input.body.msg_id, Some(6));
}

#[test]
fn registered_custom_kind_is_delivered() {
    let mut node = Node::new();
    node.register(b"generate".to_vec());
    let request = msg(b"c1", b"n1", Some(7), None, Payload::Other { kind: b"generate".to_vec() });
    match node.route(request.clone()) {
        RouteOutcome::Deliver(m) => assert_eq!(m, request),
        other => panic!("expected delivery, got {:?}", other),
    }
}

#[test]
fn unknown_kind_encodes_and_parses_back() {
    let original = msg(b"n1", b"n2", Some(3), None, Payload::Other { kind: b"poll".to_vec() });
    let encoded = encode_msg(&original);
    assert_eq!(
        encoded,
        b"{\"src\":\"n1\",\"dest\":\"n2\",\"body\":{\"type\":\"poll\",\"msg_id\":3}}".to_vec()
    );
    assert_eq!(parse_line(&encoded).unwrap(), original);
}

#[test]
fn control_bytes_are_escaped_and_round_trip() {
    let original = msg(
        b"n1",
        b"c1",
        Some(1),
        None,
        Payload::Echo { echo: vec![0x01, b'a', 0x1f] },
    );
    let encoded = encode_msg(&original);
    assert!(contains(&encoded, b"\\u0001a\\u001f"));
    assert_eq!(parse_line(&encoded).unwrap(), original);
}

#[test]
fn unicode_escapes_for_ascii_are_accepted() {
    let line = b"{\"src\":\"c1\",\"dest\":\"n1\",\"body\":{\"type\":\"echo\",\"msg_id\":2,\"echo\":\"\\u0041\\u004a\"}}".to_vec();
    let input = parse_line(&line).expect("ascii unicode escapes parse");
    assert_eq!(input.body.payload, Payload::Echo { echo: b"AJ".to_vec() });
}

#[test]
fn replies_are_never_dispatched_to_handlers() {
    let mut echo = EchoNode::new();
    let stray = msg(b"n2", b"n1", Some(4), Some(9), Payload::Echo { echo: b"loop".to_vec() });
    assert!(echo.step(stray.clone()).is_none());
    assert_eq!(echo.msg_id_seq, 0);
    assert!(echo.handle(stray).is_none());
    assert_eq!(echo.msg_id_seq, 0);
}

#[test]
fn error_reply_carries_the_taxonomy_entry() {
    let request = msg(b"c1", b"n1", Some(8), None, Payload::Other { kind: b"kv\x01".to_vec() });
    let reply = error_reply(&request, ErrorCode::Crashed);
    assert_eq!(reply.src, b"n1".to_vec());
    assert_eq!(reply.dest, b"c1".to_vec());
    assert_eq!(reply.body.in_reply_to, Some(8));
    assert_eq!(
        reply.body.payload,
        Payload::Error { code: 13, text: b"Crashed".to_vec() }
    );
}
