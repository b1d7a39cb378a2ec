use fml::control::{
    acknowledged, check_command, check_transport, decode_command, decode_transport, decode_word, done_message,
    is_command, parse_command, read_command, ControlCommand, ControlError, TransportKind,
};
use fml::frame::{decode, decode_call, encode, encode_call, FrameError, PacketHeader, PacketKind, HEADER_LEN};
use fml::ids::{HandleInstance, ServiceObjectId};

#[test]
fn header_bytes_are_little_endian() {
    let p = encode(PacketHeader { kind: PacketKind::Response, tag: 0x0102_0304 }, &[9, 8]);
    assert_eq!(p, vec![4, 3, 2, 1, 1, 0, 0, 0, 9, 8]);
}

#[test]
fn frame_round_trip() {
    let h = PacketHeader { kind: PacketKind::Request, tag: 4_000_000_001 };
    let p = encode(h, b"abc");
    assert_eq!(decode(&p), Ok(h));
    assert_eq!(&p[HEADER_LEN..], b"abc");
}

#[test]
fn short_and_bad_frames() {
    assert_eq!(decode(&[0, 0, 0]), Err(FrameError::Short));
    assert_eq!(decode(&[0, 0, 0, 0, 7, 0, 0, 0]), Err(FrameError::BadKind));
}

#[test]
fn call_body_round_trip() {
    let h = HandleInstance::new(ServiceObjectId { trait_id: 3, index: 1234 }, 1234, 513);
    let body = encode_call(&h, 7, &[1, 2, 3]);
    assert_eq!(body.len(), 15);
    let (h2, m, a) = decode_call(&body).unwrap();
    assert_eq!(h2, h);
    assert_eq!(m, 7);
    assert_eq!(a, &[1, 2, 3]);
    assert!(decode_call(&body[..11]).is_none());
}

#[test]
fn command_words() {
    for (w, c) in [
        ("link", ControlCommand::Link),
        ("unlink", ControlCommand::Unlink),
        ("terminate", ControlCommand::Terminate),
        ("handle_export", ControlCommand::HandleExport),
        ("handle_import", ControlCommand::HandleImport),
        ("debug", ControlCommand::Debug),
    ] {
        assert!(is_command(&w.to_owned()));
        assert_eq!(parse_command(&w.to_owned()), c);
        let bytes = serde_cbor::to_vec(&w.to_owned()).unwrap();
        assert_eq!(check_command(&bytes), Ok(()));
        assert_eq!(decode_command(&bytes), c);
        assert_eq!(read_command(&bytes), Ok(c));
        assert_eq!(decode_word(&bytes), Some(w.to_owned()));
    }
    assert!(!is_command(&"Link".to_owned()));
}

#[test]
fn unknown_and_undecodable_commands() {
    let bytes = serde_cbor::to_vec(&"reboot".to_owned()).unwrap();
    assert_eq!(read_command(&bytes), Err(ControlError::UnknownCommand));
    let number = serde_cbor::to_vec(&17u32).unwrap();
    assert_eq!(read_command(&number), Err(ControlError::Decode));
    assert_eq!(check_command(&number), Err(ControlError::Decode));
    assert_eq!(decode_word(&number), None);
}

#[test]
fn transport_words() {
    let ds = serde_cbor::to_vec(&"DomainSocket".to_owned()).unwrap();
    let intra = serde_cbor::to_vec(&"Intra".to_owned()).unwrap();
    let other = serde_cbor::to_vec(&"Pipe".to_owned()).unwrap();
    assert_eq!(decode_transport(&ds), TransportKind::DomainSocket);
    assert_eq!(check_transport(&intra), Ok(TransportKind::Intra));
    assert_eq!(check_transport(&other), Err(ControlError::UnknownTransport));
}

#[test]
fn terminate_is_not_acknowledged() {
    assert!(!acknowledged(ControlCommand::Terminate));
    assert!(acknowledged(ControlCommand::Link));
    assert!(acknowledged(ControlCommand::Debug));
}

#[test]
fn done_is_cbor_text() {
    let done = done_message();
    assert_eq!(done, vec![0x64, b'd', b'o', b'n', b'e']);
    let back: String = serde_cbor::from_slice(&done).unwrap();
    assert_eq!(back, "done");
}
