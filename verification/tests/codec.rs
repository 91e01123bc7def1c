use bytes::BytesMut;
use rdm::common::ipc::{IpcError, IpcMessage, IpcMessageCodec, HEADER_SIZE, MAGIC};

fn encoded(msg: IpcMessage) -> Vec<u8> {
    let mut buf = BytesMut::new();
    let mut codec = IpcMessageCodec;
    codec.encode(msg, &mut buf).unwrap();
    buf.to_vec()
}

#[test]
fn encode_client_hello_is_a_bare_header() {
    assert_eq!(encoded(IpcMessage::ClientHello), b"1wCH\x00\x00\x00\x00".to_vec());
}

#[test]
fn encode_server_hello_and_bye() {
    assert_eq!(encoded(IpcMessage::ServerHello), b"1wSH\x00\x00\x00\x00".to_vec());
    assert_eq!(encoded(IpcMessage::ClientBye), b"1wCB\x00\x00\x00\x00".to_vec());
}

#[test]
fn encode_request_authentication_writes_lengths_and_strings() {
    let bytes = encoded(IpcMessage::RequestAuthentication("bob".to_string(), "pw".to_string()));
    let mut expected = b"1wRA".to_vec();
    expected.extend_from_slice(&[0, 0, 0, 13]);
    expected.extend_from_slice(&[0, 0, 0, 3]);
    expected.extend_from_slice(b"bob");
    expected.extend_from_slice(&[0, 0, 0, 2]);
    expected.extend_from_slice(b"pw");
    assert_eq!(bytes, expected);
    assert_eq!(bytes.len(), HEADER_SIZE + 13);
}

#[test]
fn encode_counts_utf8_bytes() {
    let bytes = encoded(IpcMessage::RequestAuthentication("é".to_string(), String::new()));
    assert_eq!(&bytes[4..8], &[0, 0, 0, 10]);
    assert_eq!(&bytes[8..12], &[0, 0, 0, 2]);
    assert_eq!(&bytes[12..14], "é".as_bytes());
    assert_eq!(&bytes[14..18], &[0, 0, 0, 0]);
}

#[test]
fn encode_appends_to_existing_contents() {
    let mut buf = BytesMut::from(&b"xy"[..]);
    let mut codec = IpcMessageCodec;
    codec.encode(IpcMessage::ClientBye, &mut buf).unwrap();
    assert_eq!(&buf[..], b"xy1wCB\x00\x00\x00\x00");
}

#[test]
fn magic_is_1w() {
    assert_eq!(MAGIC.to_be_bytes(), *b"1w");
}

#[test]
fn message_types() {
    assert_eq!(IpcMessage::ClientHello.message_type(), b"CH");
    assert_eq!(IpcMessage::ServerHello.message_type(), b"SH");
    assert_eq!(IpcMessage::ClientBye.message_type(), b"CB");
    assert_eq!(
        IpcMessage::RequestAuthentication(String::new(), String::new()).message_type(),
        b"RA"
    );
}

#[test]
fn decode_empty_buffer_yields_nothing() {
    let mut buf = BytesMut::new();
    let mut codec = IpcMessageCodec;
    assert!(matches!(codec.decode(&mut buf), Ok(None)));
    assert!(buf.is_empty());
}

#[test]
fn decode_short_buffer_is_header_too_short() {
    let mut buf = BytesMut::from(&b"1wCH"[..]);
    let mut codec = IpcMessageCodec;
    assert!(matches!(codec.decode(&mut buf), Err(IpcError::HeaderTooShort)));
    assert_eq!(&buf[..], b"1wCH");
}

#[test]
fn decode_wrong_magic() {
    let mut buf = BytesMut::from(&b"2wCH\x00\x00\x00\x00"[..]);
    let mut codec = IpcMessageCodec;
    assert!(matches!(codec.decode(&mut buf), Err(IpcError::WrongMagic)));
    assert_eq!(buf.len(), 8);
}

#[test]
fn decode_unknown_type() {
    let mut buf = BytesMut::from(&b"1wXY\x00\x00\x00\x00"[..]);
    let mut codec = IpcMessageCodec;
    assert!(matches!(codec.decode(&mut buf), Err(IpcError::UnknownMessageType)));
}

#[test]
fn decode_takes_one_frame_and_leaves_the_rest() {
    let mut buf = BytesMut::from(&b"1wSH\x00\x00\x00\x00rest"[..]);
    let mut codec = IpcMessageCodec;
    assert!(matches!(codec.decode(&mut buf), Ok(Some(IpcMessage::ServerHello))));
    assert_eq!(&buf[..], b"rest");
}

#[test]
fn roundtrip_of_bodiless_messages() {
    for msg in [IpcMessage::ClientHello, IpcMessage::ServerHello, IpcMessage::ClientBye] {
        let mut buf = BytesMut::new();
        let mut codec = IpcMessageCodec;
        codec.encode(msg.clone(), &mut buf).unwrap();
        codec.encode(IpcMessage::ClientBye, &mut buf).unwrap();
        let got = codec.decode(&mut buf).unwrap().unwrap();
        assert_eq!(got.message_type(), msg.message_type());
        assert_eq!(buf.len(), HEADER_SIZE);
        assert!(matches!(codec.decode(&mut buf), Ok(Some(IpcMessage::ClientBye))));
        assert!(buf.is_empty());
    }
}

fn auth_frame(body: &[u8]) -> BytesMut {
    let mut b = BytesMut::from(&b"1wRA"[..]);
    b.extend_from_slice(&(body.len() as u32).to_be_bytes());
    b.extend_from_slice(body);
    b
}

#[test]
fn request_authentication_roundtrip() {
    let mut buf = BytesMut::new();
    let mut codec = IpcMessageCodec;
    codec
        .encode(IpcMessage::RequestAuthentication("bob".to_string(), "sécret".to_string()), &mut buf)
        .unwrap();
    codec.encode(IpcMessage::ClientBye, &mut buf).unwrap();
    match codec.decode(&mut buf) {
        Ok(Some(IpcMessage::RequestAuthentication(user, secret))) => {
            assert_eq!(user, "bob");
            assert_eq!(secret, "sécret");
        }
        other => panic!("unexpected {:?}", other),
    }
    assert_eq!(buf.len(), HEADER_SIZE);
    assert!(matches!(codec.decode(&mut buf), Ok(Some(IpcMessage::ClientBye))));
    assert!(buf.is_empty());
}

#[test]
fn request_authentication_with_empty_strings_roundtrip() {
    let mut buf = BytesMut::new();
    let mut codec = IpcMessageCodec;
    codec
        .encode(IpcMessage::RequestAuthentication(String::new(), String::new()), &mut buf)
        .unwrap();
    match codec.decode(&mut buf) {
        Ok(Some(IpcMessage::RequestAuthentication(user, secret))) => {
            assert!(user.is_empty() && secret.is_empty());
        }
        other => panic!("unexpected {:?}", other),
    }
    assert!(buf.is_empty());
}

#[test]
fn incomplete_request_authentication_waits() {
    let mut full = BytesMut::new();
    let mut codec = IpcMessageCodec;
    codec
        .encode(IpcMessage::RequestAuthentication("u".to_string(), "p".to_string()), &mut full)
        .unwrap();
    for cut in HEADER_SIZE..full.len() {
        let mut part = BytesMut::from(&full[..cut]);
        assert!(matches!(codec.decode(&mut part), Ok(None)), "cut at {}", cut);
        assert_eq!(part.len(), cut);
    }
}

#[test]
fn malformed_request_authentication_bodies() {
    let mut codec = IpcMessageCodec;
    // too short for a length
    let mut b = auth_frame(&[0, 0]);
    assert!(matches!(codec.decode(&mut b), Err(IpcError::MalformedBody)));
    assert_eq!(b.len(), 10);
    // user length runs past the body
    let mut b = auth_frame(&[0, 0, 0, 9, b'a', 0, 0, 0, 0]);
    assert!(matches!(codec.decode(&mut b), Err(IpcError::MalformedBody)));
    // strings do not fill the body exactly
    let mut b = auth_frame(&[0, 0, 0, 1, b'a', 0, 0, 0, 0, b'x']);
    assert!(matches!(codec.decode(&mut b), Err(IpcError::MalformedBody)));
    // invalid UTF-8 in the user name
    let mut b = auth_frame(&[0, 0, 0, 1, 0xff, 0, 0, 0, 0]);
    assert!(matches!(codec.decode(&mut b), Err(IpcError::MalformedBody)));
    // a surrogate encoded in the secret
    let mut b = auth_frame(&[0, 0, 0, 0, 0, 0, 0, 3, 0xed, 0xa0, 0x80]);
    assert!(matches!(codec.decode(&mut b), Err(IpcError::MalformedBody)));
    // a well-formed body
    let mut b = auth_frame(&[0, 0, 0, 1, b'a', 0, 0, 0, 1, b'b']);
    assert!(matches!(
        codec.decode(&mut b),
        Ok(Some(IpcMessage::RequestAuthentication(u, p))) if u == "a" && p == "b"
    ));
    assert!(b.is_empty());
}

#[test]
fn error_description_and_cause() {
    let e = IpcError::from(std::io::Error::new(std::io::ErrorKind::Other, "boom"));
    assert_eq!(e.description(), "test");
    assert!(e.cause().is_some());
    assert!(IpcError::WrongMagic.cause().is_none());
    assert_eq!(IpcError::HeaderTooShort.description(), "test");
}

#[test]
fn encode_checked_appends_when_it_fits() {
    let mut buf = BytesMut::from(&b"x"[..]);
    let mut codec = IpcMessageCodec;
    assert!(codec.encode_checked(IpcMessage::ClientHello, &mut buf).is_ok());
    assert_eq!(&buf[..], b"x1wCH\x00\x00\x00\x00");
    let r = codec.encode_checked(
        IpcMessage::RequestAuthentication("u".to_string(), "s".to_string()),
        &mut buf,
    );
    assert!(r.is_ok());
    assert_eq!(buf.len(), 9 + 8 + 10);
}
