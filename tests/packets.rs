use rolling_glass::protocol::{MINECRAFT_1_21_6, MINECRAFT_1_8};
use rolling_glass::{
    compose_handshake_packet, compose_status_request_packet, decode_varint, encode_varint,
    packet_raw_content_add_varint_length, VarintError,
};

#[test]
fn test_add_varint_length() {
    let mut t: Vec<u8> = vec![0x00, 0x01];
    packet_raw_content_add_varint_length(&mut t);
    assert_eq!(vec![0x02, 0x00, 0x01], t);

    let mut t: Vec<u8> = vec![0x01; 255];
    packet_raw_content_add_varint_length(&mut t);
    let mut e: Vec<u8> = vec![255, 1];
    e.append(vec![0x01; 255].as_mut());
    assert_eq!(e, t);

    let mut t: Vec<u8> = vec![0x01; 25565];
    packet_raw_content_add_varint_length(&mut t);
    let mut e: Vec<u8> = vec![221, 199, 1];
    e.append(vec![0x01; 25565].as_mut());
    assert_eq!(e, t);

    let mut t: Vec<u8> = vec![0x01; 2097151];
    packet_raw_content_add_varint_length(&mut t);
    let mut e: Vec<u8> = vec![255, 255, 127];
    e.append(vec![0x01; 2097151].as_mut());
    assert_eq!(e, t);
}

#[test]
fn test_compose_handshake_packet() {
    let mut t: Vec<u8> = vec![0x00, 47, 9, 0x6C, 0x6F, 0x63, 0x61, 0x6C, 0x68, 0x6F, 0x73, 0x74, 0xFF, 0xFE, 0x01];
    packet_raw_content_add_varint_length(&mut t);
    assert_eq!(t, compose_handshake_packet(&"localhost".to_string(), &65534, &MINECRAFT_1_8));

    let mut t: Vec<u8> = vec![0x00, 131, 6, 14, 0x6D, 0x63, 0x2E, 0x68, 0x79, 0x70, 0x69, 0x78, 0x65, 0x6C, 0x2E, 0x6E, 0x65, 0x74, 0x63, 0xDD, 0x01];
    packet_raw_content_add_varint_length(&mut t);
    assert_eq!(t, compose_handshake_packet(&"mc.hypixel.net".to_string(), &25565, &MINECRAFT_1_21_6));
}

#[test]
fn test_status_request_packet() {
    let mut t: Vec<u8> = vec![0x00];
    packet_raw_content_add_varint_length(&mut t);
    assert_eq!(t, compose_status_request_packet());
}

#[test]
fn status_request_is_fixed() {
    assert_eq!(compose_status_request_packet(), vec![0x01, 0x00]);
}

#[test]
fn handshake_localhost_exact_bytes() {
    let p = compose_handshake_packet(&"localhost".to_string(), &65534, &47);
    let mut expected: Vec<u8> = vec![15, 0x00, 0x2F, 0x09];
    expected.extend_from_slice(b"localhost");
    expected.extend_from_slice(&[0xFF, 0xFE, 0x01]);
    assert_eq!(p, expected);
}

#[test]
fn handshake_empty_host() {
    let p = compose_handshake_packet(&String::new(), &1, &3);
    assert_eq!(p, vec![6, 0x00, 3, 0, 0x00, 0x01, 0x01]);
}

#[test]
fn handshake_multibyte_host_counts_bytes() {
    let p = compose_handshake_packet(&"é".to_string(), &25565, &47);
    assert_eq!(p, vec![8, 0x00, 47, 2, 0xC3, 0xA9, 0x63, 0xDD, 0x01]);
}

#[test]
fn varint_boundary_encodings() {
    assert_eq!(encode_varint(0), vec![0x00]);
    assert_eq!(encode_varint(127), vec![0x7F]);
    assert_eq!(encode_varint(128), vec![0x80, 0x01]);
    assert_eq!(encode_varint(16384), vec![0x80, 0x80, 0x01]);
    assert_eq!(encode_varint(2097151), vec![0xFF, 0xFF, 0x7F]);
    assert_eq!(encode_varint(2147483647), vec![0xFF, 0xFF, 0xFF, 0xFF, 0x07]);
    assert_eq!(encode_varint(u32::MAX), vec![0xFF, 0xFF, 0xFF, 0xFF, 0x0F]);
}

#[test]
fn varint_round_trip_values() {
    for v in [0u32, 1, 127, 128, 255, 300, 16383, 16384, 25565, 2097151, 2097152, 2147483647, u32::MAX] {
        let mut e = encode_varint(v);
        let n = e.len();
        e.extend_from_slice(&[0x80, 0x42]);
        assert_eq!(decode_varint(&e, 0), Ok((v, n)));
    }
}

#[test]
fn varint_decode_errors() {
    assert_eq!(decode_varint(&[], 0), Err(VarintError::Incomplete));
    assert_eq!(decode_varint(&[0x80, 0x80], 0), Err(VarintError::Incomplete));
    assert_eq!(decode_varint(&[0x80, 0x80, 0x80, 0x80, 0x80, 0x01], 0), Err(VarintError::TooLong));
    assert_eq!(decode_varint(&[0x05, 0xAC, 0x02], 1), Ok((300, 2)));
}

#[test]
fn length_prefix_gives_back_length() {
    for len in [0usize, 1, 255, 25565, 2097151] {
        let mut t: Vec<u8> = vec![0x80; len];
        packet_raw_content_add_varint_length(&mut t);
        let (v, n) = decode_varint(&t, 0).unwrap();
        assert_eq!(v as usize, len);
        assert_eq!(t.len(), n + len);
        assert!(t[n..].iter().all(|b| *b == 0x80));
    }
}
