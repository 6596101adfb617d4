use rolling_glass::session::{ReadAction, ResponseReader, READ_CHUNK};
use rolling_glass::{
    compose_handshake_packet, next_candidate, pair_with_port, prepare_ping, resolve_after_address,
    resolve_after_service, resolve_literal, service_query_name, HostLiteral, PingError,
    ResolveStep, DEFAULT_PORT, LATEST, MINECRAFT_1_7, MINECRAFT_1_8,
};

fn plan_error(host: &str, port: u16, fake: &str, protocol: u16, timeout: u8) -> PingError {
    prepare_ping(&host.to_string(), port, &fake.to_string(), protocol, timeout).unwrap_err()
}

#[test]
fn ping_input_errors_in_order() {
    assert_eq!(plan_error("", DEFAULT_PORT, "", MINECRAFT_1_8, 3), PingError::InvalidHost);
    assert_eq!(plan_error("", DEFAULT_PORT, "", 0, 0), PingError::InvalidHost);
    assert_eq!(plan_error("127.0.0.1", DEFAULT_PORT, "", MINECRAFT_1_7 - 1, 3), PingError::UnknownProtocol);
    assert_eq!(plan_error("127.0.0.1", DEFAULT_PORT, "", LATEST + 1, 3), PingError::UnknownProtocol);
    assert_eq!(plan_error("127.0.0.1", DEFAULT_PORT, "", LATEST + 1, 0), PingError::UnknownProtocol);
    assert_eq!(plan_error("127.0.0.1", DEFAULT_PORT, "", MINECRAFT_1_8, 0), PingError::InvalidTimeout);
}

#[test]
fn ping_plan_uses_override_and_default_port() {
    let plan = prepare_ping(&"mc.example.net".to_string(), 0, &"example.gg".to_string(), LATEST, 3).unwrap();
    assert_eq!(plan.lookup_host, "mc.example.net");
    assert_eq!(plan.port, DEFAULT_PORT);
    assert_eq!(plan.handshake, compose_handshake_packet(&"example.gg".to_string(), &DEFAULT_PORT, &LATEST));
    assert_eq!(plan.status_request, vec![0x01, 0x00]);
    assert_eq!(plan.timeout_secs, 3);

    let plan = prepare_ping(&"localhost".to_string(), 25570, &String::new(), MINECRAFT_1_8, 1).unwrap();
    assert_eq!(plan.port, 25570);
    assert_eq!(plan.handshake, compose_handshake_packet(&"localhost".to_string(), &25570, &MINECRAFT_1_8));
}

#[test]
fn literal_ipv4_is_sole_candidate() {
    match resolve_literal(&HostLiteral::V4([127, 0, 0, 2]), 25562) {
        ResolveStep::Done(Ok(v)) => assert_eq!(v, vec![([127, 0, 0, 2], 25562)]),
        other => panic!("unexpected {:?}", other),
    }
}

#[test]
fn literal_ipv6_is_refused() {
    match resolve_literal(&HostLiteral::V6, DEFAULT_PORT) {
        ResolveStep::Done(Err(e)) => assert_eq!(e, PingError::UnsupportedAddressFamily),
        other => panic!("unexpected {:?}", other),
    }
}

#[test]
fn names_pick_lookup_by_port() {
    assert!(matches!(resolve_literal(&HostLiteral::Name, DEFAULT_PORT), ResolveStep::LookupService));
    assert!(matches!(resolve_literal(&HostLiteral::Name, 25564), ResolveStep::LookupAddress));
}

#[test]
fn service_records_take_precedence() {
    let found = pair_with_port(&vec![[10, 0, 0, 1], [10, 0, 0, 2]], 25599);
    match resolve_after_service(found) {
        ResolveStep::Done(Ok(v)) => assert_eq!(v, vec![([10, 0, 0, 1], 25599), ([10, 0, 0, 2], 25599)]),
        other => panic!("unexpected {:?}", other),
    }
    assert!(matches!(resolve_after_service(Vec::new()), ResolveStep::LookupAddress));
}

#[test]
fn unresolvable_host_is_named() {
    assert_eq!(
        resolve_after_address("doesntexist.local", &Vec::new(), DEFAULT_PORT),
        Err(PingError::CannotResolve("doesntexist.local".to_string()))
    );
    assert_eq!(
        resolve_after_address("localhost", &vec![[127, 0, 0, 1]], 25563),
        Ok(vec![([127, 0, 0, 1], 25563)])
    );
}

#[test]
fn service_name_is_scoped() {
    assert_eq!(service_query_name("critz.gg"), "_minecraft._tcp.critz.gg");
}

#[test]
fn candidates_in_order_then_exhausted() {
    let c = vec![([1, 2, 3, 4], 1), ([5, 6, 7, 8], 2)];
    assert_eq!(next_candidate(&c, 0), Ok(([1, 2, 3, 4], 1)));
    assert_eq!(next_candidate(&c, 1), Ok(([5, 6, 7, 8], 2)));
    assert_eq!(next_candidate(&c, 2), Err(PingError::AllAddressesTried));
}

fn feed_all(bytes: &[u8], piece: usize) -> ReadAction {
    let mut r = ResponseReader::new();
    let mut pos = 0;
    loop {
        let n = r.wanted().min(piece).min(bytes.len() - pos);
        let a = r.step(&bytes[pos..pos + n]);
        pos += n;
        match a {
            ReadAction::NeedBytes(_) => continue,
            other => return other,
        }
    }
}

#[test]
fn reader_returns_payload_in_any_pieces() {
    let payload: Vec<u8> = (0..5000u32).map(|i| (i % 251) as u8).collect();
    let mut frame = vec![0x8A, 0x27, 0x00, 0x88, 0x27];
    frame.extend_from_slice(&payload);
    for piece in [1, 3, 4096, 10000] {
        match feed_all(&frame, piece) {
            ReadAction::Finished(p) => assert_eq!(p, payload),
            other => panic!("unexpected {:?}", other),
        }
    }
}

#[test]
fn reader_asks_for_due_bytes_only() {
    let mut r = ResponseReader::new();
    assert_eq!(r.wanted(), 1);
    assert!(matches!(r.step(&[0x06]), ReadAction::NeedBytes(1)));
    assert!(matches!(r.step(&[0x00]), ReadAction::NeedBytes(1)));
    assert!(matches!(r.step(&[0x04]), ReadAction::NeedBytes(4)));
    assert!(matches!(r.step(&[b'a', b'b']), ReadAction::NeedBytes(2)));
    match r.step(&[b'c', b'd']) {
        ReadAction::Finished(p) => assert_eq!(p, b"abcd".to_vec()),
        other => panic!("unexpected {:?}", other),
    }
    let mut r = ResponseReader::new();
    for b in [0x80, 0x80, 0x01, 0x00, 0xFF, 0xFF] {
        assert!(matches!(r.step(&[b]), ReadAction::NeedBytes(1)));
    }
    assert!(matches!(r.step(&[0x01]), ReadAction::NeedBytes(READ_CHUNK)));
    assert_eq!(r.wanted(), READ_CHUNK);
}

#[test]
fn reader_rejects_unknown_packet_id() {
    let mut r = ResponseReader::new();
    r.step(&[0x05]);
    match r.step(&[0x07]) {
        ReadAction::Failed(e) => assert_eq!(e, PingError::UnknownPacketId(7)),
        other => panic!("unexpected {:?}", other),
    }
}

#[test]
fn reader_rejects_bad_lengths() {
    assert!(matches!(feed_all(&[0x00], 1), ReadAction::Failed(PingError::NonPositiveVarint)));
    assert!(matches!(feed_all(&[0x80, 0x80, 0x80, 0x80, 0x08], 1), ReadAction::Failed(PingError::NonPositiveVarint)));
    assert!(matches!(feed_all(&[0x03, 0x00, 0x00], 1), ReadAction::Failed(PingError::NonPositiveVarint)));
    assert!(matches!(feed_all(&[0x80, 0x80, 0x80, 0x80, 0x80], 1), ReadAction::Failed(PingError::MalformedVarint)));
    assert!(matches!(feed_all(&[0x03, 0x00, 0xFF, 0xFF, 0xFF, 0xFF, 0xFF], 1), ReadAction::Failed(PingError::MalformedVarint)));
}

#[test]
fn reader_fails_when_stream_ends() {
    assert!(matches!(feed_all(&[0x05, 0x00, 0x03, b'x'], 4096), ReadAction::Failed(PingError::ConnectionClosed)));
    let mut r = ResponseReader::new();
    assert!(matches!(r.step(&[]), ReadAction::Failed(PingError::ConnectionClosed)));
}
