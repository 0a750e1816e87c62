use tokio_quic::config::CONNECTION_ID_LEN;
use tokio_quic::header::parse_header;
use tokio_quic::header::Header;
use tokio_quic::header::PacketType;
use tokio_quic::manager::route_datagram;
use tokio_quic::manager::ConnectionRegistry;
use tokio_quic::manager::ManagerAction;
use tokio_quic::retry::derive_new_dcid;
use tokio_quic::retry::mint_retry_token;
use tokio_quic::retry::validate_retry_token;

fn initial_datagram(version: u32, dcid: &[u8], scid: &[u8], token: &[u8]) -> Vec<u8> {
    let mut out = Vec::new();
    out.push(0xC3); // long form, type Initial
    out.extend_from_slice(&version.to_be_bytes());
    out.push(dcid.len() as u8);
    out.extend_from_slice(dcid);
    out.push(scid.len() as u8);
    out.extend_from_slice(scid);
    assert!(token.len() < 64);
    out.push(token.len() as u8); // one-byte varint
    out.extend_from_slice(token);
    out
}

#[test]
fn parse_long_header_initial() {
    let buf = initial_datagram(1, &[1, 2, 3, 4], &[9, 9], &[7, 8]);
    match parse_header(&buf, CONNECTION_ID_LEN) {
        Some(Header::Long { packet_type, version, dcid, scid, token }) => {
            assert_eq!(packet_type, PacketType::Initial);
            assert_eq!(version, 1);
            assert_eq!(dcid, vec![1, 2, 3, 4]);
            assert_eq!(scid, vec![9, 9]);
            assert_eq!(token, Some(vec![7, 8]));
        }
        _ => panic!("a well-formed Initial must parse"),
    }
}

#[test]
fn parse_long_header_types() {
    let mut buf = initial_datagram(1, &[1], &[2], &[]);
    buf[0] = 0xC0 | (2 << 4); // Handshake
    match parse_header(&buf, CONNECTION_ID_LEN) {
        Some(Header::Long { packet_type, token, .. }) => {
            assert_eq!(packet_type, PacketType::Handshake);
            assert!(token.is_none());
        }
        _ => panic!("a handshake header must parse"),
    }
}

#[test]
fn parse_short_header() {
    let mut buf = vec![0x40u8];
    buf.extend_from_slice(&[7u8; 16]);
    buf.extend_from_slice(&[0u8; 30]); // packet number and payload
    match parse_header(&buf, 16) {
        Some(Header::Short { dcid }) => assert_eq!(dcid, vec![7u8; 16]),
        _ => panic!("a short header must parse"),
    }
}

#[test]
fn parse_long_header_two_byte_token_length() {
    // A 64-byte token needs a two-byte length integer: 0x40 0x40.
    let mut buf = Vec::new();
    buf.push(0xC3);
    buf.extend_from_slice(&1u32.to_be_bytes());
    buf.push(2);
    buf.extend_from_slice(&[1, 2]);
    buf.push(1);
    buf.push(3);
    buf.extend_from_slice(&[0x40, 0x40]);
    let token: Vec<u8> = (0..64u8).collect();
    buf.extend_from_slice(&token);
    match parse_header(&buf, 16) {
        Some(Header::Long { token: Some(t), .. }) => assert_eq!(t, token),
        _ => panic!("a two-byte token length must parse"),
    }
}

#[test]
fn parse_rejects_truncated_headers() {
    assert!(parse_header(&[], 16).is_none());
    assert!(parse_header(&[0x40, 1, 2], 16).is_none());
    assert!(parse_header(&[0xC3, 0, 0, 0], 16).is_none());
    // dcid length runs past the end
    assert!(parse_header(&[0xC3, 0, 0, 0, 1, 10, 1], 16).is_none());
    // token length varint claims more than remains
    let mut buf = initial_datagram(1, &[1], &[2], &[]);
    let last = buf.len() - 1;
    buf[last] = 5;
    assert!(parse_header(&buf, 16).is_none());
}

#[test]
fn new_dcid_matches_known_hmac_vector() {
    // HMAC-SHA-256 test vector (RFC 4231, case 2): key "Jefe",
    // data "what do ya want for nothing?".
    let key = b"Jefe";
    let from = b"what do ya want ";
    let odcid = b"for nothing?";
    let got = derive_new_dcid(key, from, odcid);
    let expected: Vec<u8> = vec![
        0x5b, 0xdc, 0xc1, 0x46, 0xbf, 0x60, 0x75, 0x4e, 0x6a, 0x04, 0x24, 0x26, 0x08, 0x95,
        0x75, 0xc7,
    ];
    assert_eq!(got, expected);
    assert_eq!(got.len(), CONNECTION_ID_LEN);
}

#[test]
fn new_dcid_is_deterministic() {
    let key = [3u8; 32];
    let from = b"192.0.2.7:4433";
    let odcid = [5u8; 8];
    assert_eq!(
        derive_new_dcid(&key, from, &odcid),
        derive_new_dcid(&key, from, &odcid)
    );
    assert_ne!(
        derive_new_dcid(&key, from, &odcid),
        derive_new_dcid(&key, b"192.0.2.8:4433", &odcid)
    );
}

#[test]
fn retry_token_round_trip() {
    let secret = [9u8; 16];
    let from = b"192.0.2.7:4433";
    let odcid = [5u8; 8];
    let token = mint_retry_token(&secret, from, &odcid, 1_000);
    assert_eq!(
        validate_retry_token(&secret, from, &token, 1_030, 60),
        Some(odcid.to_vec())
    );
}

#[test]
fn retry_token_rejects_tamper_stale_and_wrong_address() {
    let secret = [9u8; 16];
    let from = b"192.0.2.7:4433";
    let odcid = [5u8; 8];
    let token = mint_retry_token(&secret, from, &odcid, 1_000);
    // Stale.
    assert_eq!(validate_retry_token(&secret, from, &token, 1_061, 60), None);
    // Wrong address.
    assert_eq!(
        validate_retry_token(&secret, b"192.0.2.8:4433", &token, 1_030, 60),
        None
    );
    // Tampered byte.
    let mut bad = token.clone();
    let last = bad.len() - 1;
    bad[last] ^= 1;
    assert_eq!(validate_retry_token(&secret, from, &bad, 1_030, 60), None);
    // Garbage.
    assert_eq!(validate_retry_token(&secret, from, &[], 1_030, 60), None);
}

#[test]
fn registry_routes_by_dcid() {
    let mut reg = ConnectionRegistry::new();
    assert!(reg.lookup(&[1, 2, 3]).is_none());
    reg.register(vec![1, 2, 3], 7);
    reg.register(vec![4, 5], 8);
    assert_eq!(reg.lookup(&[1, 2, 3]), Some(7));
    assert_eq!(reg.lookup(&[4, 5]), Some(8));
    assert!(reg.lookup(&[1, 2]).is_none());
}

#[test]
fn manager_forwards_registered_connections() {
    let mut reg = ConnectionRegistry::new();
    reg.register(vec![7u8; 16], 3);
    let hdr = Header::Short { dcid: vec![7u8; 16] };
    match route_datagram(&reg, &hdr, &[1; 32], &[2; 16], b"addr", 0, 60) {
        ManagerAction::Forward(c) => assert_eq!(c, 3),
        _ => panic!("a registered dcid must forward"),
    }
    let hdr = Header::Short { dcid: vec![8u8; 16] };
    match route_datagram(&reg, &hdr, &[1; 32], &[2; 16], b"addr", 0, 60) {
        ManagerAction::Drop => {}
        _ => panic!("an unknown short header is dropped"),
    }
}

#[test]
fn manager_sends_version_negotiation() {
    let reg = ConnectionRegistry::new();
    let buf = initial_datagram(0xbaba_baba, &[1, 2], &[3], &[]);
    let hdr = parse_header(&buf, 16).unwrap();
    match route_datagram(&reg, &hdr, &[1; 32], &[2; 16], b"addr", 0, 60) {
        ManagerAction::SendVersionNegotiation => {}
        _ => panic!("an unsupported version gets version negotiation"),
    }
}

#[test]
fn manager_retry_round_trip() {
    let reg = ConnectionRegistry::new();
    let key = [1u8; 32];
    let secret = [2u8; 16];
    let from = b"192.0.2.7:4433";
    let odcid = [5u8; 8];

    // First Initial: empty token draws a Retry.
    let buf = initial_datagram(1, &odcid, &[3], &[]);
    let hdr = parse_header(&buf, 16).unwrap();
    let (new_dcid, token) = match route_datagram(&reg, &hdr, &key, &secret, from, 100, 60) {
        ManagerAction::SendRetry { new_dcid, token } => (new_dcid, token),
        _ => panic!("an empty-token Initial draws a retry"),
    };
    // The new id is deterministic in (from, odcid).
    assert_eq!(new_dcid, derive_new_dcid(&key, from, &odcid));

    // The client echoes the token in a new Initial addressed to new_dcid.
    let buf = initial_datagram(1, &new_dcid, &[3], &token);
    let hdr = parse_header(&buf, 16).unwrap();
    match route_datagram(&reg, &hdr, &key, &secret, from, 130, 60) {
        ManagerAction::Accept { odcid: vouched } => assert_eq!(vouched, odcid.to_vec()),
        _ => panic!("a valid echoed token is accepted"),
    }

    // A tampered token is dropped silently.
    let mut bad = token.clone();
    bad[0] ^= 0xff;
    let buf = initial_datagram(1, &new_dcid, &[3], &bad);
    let hdr = parse_header(&buf, 16).unwrap();
    match route_datagram(&reg, &hdr, &key, &secret, from, 130, 60) {
        ManagerAction::Drop => {}
        _ => panic!("an invalid token is dropped"),
    }
}

#[test]
fn manager_drops_other_long_headers() {
    let reg = ConnectionRegistry::new();
    let mut buf = initial_datagram(1, &[1], &[2], &[]);
    buf[0] = 0xC0 | (2 << 4); // Handshake for an unknown connection
    let hdr = parse_header(&buf, 16).unwrap();
    match route_datagram(&reg, &hdr, &[1; 32], &[2; 16], b"addr", 0, 60) {
        ManagerAction::Drop => {}
        _ => panic!("a non-Initial for an unknown connection is dropped"),
    }
}
