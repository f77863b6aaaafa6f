use psomsg_patch::cipher::IdentityCipher;
use psomsg_patch::error::CodecError;
use psomsg_patch::header::{HdrSerializer, MsgHeader};
use psomsg_patch::payload::{
    DataSend, FileDone, FileInfo, FileInfoReply, FileSend, Login, Motd, Redirect, Redirect6,
    SendInfo, SetDirectory, Welcome,
};
use psomsg_patch::registry::{
    body_read_len, body_size, decode_frame, decode_message, decode_message_with, encode_frame,
    encode_frame_with, encode_message, Message,
};

const BANNER: &[u8] = b"Patch Server. Copyright SonicTeam, LTD. 2001";

fn frame(m: &Message) -> Vec<u8> {
    encode_frame(m).expect("frame encodes")
}

#[test]
fn welcome_frame_layout() {
    let f = frame(&Message::Welcome(Some(Welcome { server_vector: 1, client_vector: 2 })));
    assert_eq!(f.len(), 76);
    assert_eq!(&f[0..4], &[0x4C, 0x00, 0x02, 0x00]);
    assert_eq!(&f[4..48], BANNER);
    assert!(f[48..68].iter().all(|b| *b == 0));
    assert_eq!(&f[68..76], &[1, 0, 0, 0, 2, 0, 0, 0]);
    let h = HdrSerializer::hdr_deserialize(&f).unwrap();
    assert_eq!(h.len, 0x48);
    assert_eq!(h.msg_type, 0x02);
}

#[test]
fn redirect_frame_decodes() {
    let bytes = [0x0C, 0x00, 0x14, 0x00, 0x7F, 0x00, 0x00, 0x01, 0x1F, 0x90, 0x00, 0x00];
    match decode_frame(&bytes).unwrap() {
        Message::Redirect(Some(r)) => {
            assert_eq!(r.ip_addr, 0x7F00_0001);
            assert_eq!(r.port, 8080);
        }
        other => panic!("unexpected {:?}", other),
    }
}

#[test]
fn redirect_encodes_network_order() {
    let f = frame(&Message::Redirect(Some(Redirect { ip_addr: 0x7F00_0001, port: 8080 })));
    assert_eq!(f, vec![0x0C, 0x00, 0x14, 0x00, 0x7F, 0x00, 0x00, 0x01, 0x1F, 0x90, 0x00, 0x00]);
}

#[test]
fn oversize_filename_is_refused() {
    let m = Message::FileSend(Some(FileSend { size: 10, filename: vec![b'a'; 49] }));
    assert_eq!(encode_frame(&m), Err(CodecError::InvalidInput));
    assert_eq!(encode_message(&m), Err(CodecError::InvalidInput));
    let mut out = Vec::new();
    let p = FileSend { size: 10, filename: vec![b'a'; 49] };
    assert_eq!(p.serialize(&mut out), Err(CodecError::InvalidInput));
    assert!(out.is_empty());
}

#[test]
fn oversize_fields_of_other_kinds_are_refused() {
    let login = Login { username: vec![1; 17], password: vec![] };
    assert_eq!(encode_message(&Message::Login(Some(login))), Err(CodecError::InvalidInput));
    let dir = SetDirectory { dirname: vec![1; 65] };
    assert_eq!(encode_message(&Message::SetDirectory(Some(dir))), Err(CodecError::InvalidInput));
    let info = FileInfo { patch_id: 1, filename: vec![1; 33] };
    assert_eq!(encode_message(&Message::FileInfo(Some(info))), Err(CodecError::InvalidInput));
    let r6 = Redirect6 { ip_addr: vec![1; 17], port: 1 };
    assert_eq!(encode_message(&Message::Redirect6(Some(r6))), Err(CodecError::InvalidInput));
}

#[test]
fn fixed_body_sizes() {
    let cases: Vec<(Message, usize)> = vec![
        (Message::Welcome(Some(Welcome { server_vector: 0, client_vector: 0 })), 72),
        (Message::Login(Some(Login { username: vec![], password: vec![] })), 108),
        (Message::FileSend(Some(FileSend { size: 0, filename: vec![] })), 56),
        (Message::DataSend(Some(DataSend { chunk_num: 0, checksum: 0, chunk_size: 0 })), 12),
        (Message::FileDone(Some(FileDone { padding: 0 })), 4),
        (Message::SetDirectory(Some(SetDirectory { dirname: vec![1, 2] })), 64),
        (Message::OneDirUp, 0),
        (Message::StartList, 0),
        (Message::FileInfo(Some(FileInfo { patch_id: 0, filename: vec![3] })), 36),
        (Message::InfoFinished, 0),
        (Message::FileInfoReply(Some(FileInfoReply { patch_id: 0, checksum: 0, size: 0 })), 12),
        (Message::FileListDone, 0),
        (Message::SendInfo(Some(SendInfo { total_length: 0, total_files: 0 })), 8),
        (Message::SendDone, 0),
        (Message::Redirect(Some(Redirect { ip_addr: 0, port: 0 })), 8),
        (Message::Redirect6(Some(Redirect6 { ip_addr: vec![], port: 0 })), 20),
    ];
    for (m, n) in cases {
        let body = encode_message(&m).unwrap();
        assert_eq!(body.len(), n);
        assert_eq!(body_size(m.msg_type()), Some(n));
        assert_eq!(frame(&m).len(), n + 4);
    }
    assert_eq!(body_size(0x13), None);
    assert_eq!(body_size(0x99), None);
}

#[test]
fn header_only_kinds_round_trip() {
    for m in [
        Message::OneDirUp,
        Message::StartList,
        Message::InfoFinished,
        Message::FileListDone,
        Message::SendDone,
        Message::Welcome(None),
        Message::Motd(None),
    ] {
        let f = frame(&m);
        assert_eq!(f.len(), 4);
        let back = decode_frame(&f).unwrap();
        assert_eq!(format!("{:?}", back), format!("{:?}", m));
    }
}

#[test]
fn fixed_kinds_round_trip() {
    let w = Message::Welcome(Some(Welcome { server_vector: 0xDEADBEEF, client_vector: 7 }));
    let d = Message::DataSend(Some(DataSend { chunk_num: 3, checksum: 0x12345678, chunk_size: 24 }));
    let r = Message::FileInfoReply(Some(FileInfoReply { patch_id: 9, checksum: 8, size: 7 }));
    let s = Message::SendInfo(Some(SendInfo { total_length: 100000, total_files: 12 }));
    let fd = Message::FileDone(Some(FileDone { padding: 5 }));
    let rd = Message::Redirect(Some(Redirect { ip_addr: 0xC0A80001, port: 11000 }));
    for m in [w, d, r, s, fd, rd] {
        let back = decode_frame(&frame(&m)).unwrap();
        assert_eq!(format!("{:?}", back), format!("{:?}", m));
    }
}

#[test]
fn buffers_come_back_zero_filled() {
    let m = Message::FileSend(Some(FileSend { size: 77, filename: b"data.bin".to_vec() }));
    match decode_frame(&frame(&m)).unwrap() {
        Message::FileSend(Some(p)) => {
            assert_eq!(p.size, 77);
            assert_eq!(p.filename.len(), 48);
            assert_eq!(&p.filename[0..8], b"data.bin");
            assert!(p.filename[8..].iter().all(|b| *b == 0));
        }
        other => panic!("unexpected {:?}", other),
    }
    let l = Message::Login(Some(Login { username: b"user".to_vec(), password: vec![7; 16] }));
    let f = frame(&l);
    assert_eq!(&f[4..16], &[0u8; 12]);
    assert_eq!(&f[16..20], b"user");
    match decode_frame(&f).unwrap() {
        Message::Login(Some(p)) => {
            assert_eq!(p.username.len(), 16);
            assert_eq!(&p.username[0..4], b"user");
            assert_eq!(p.password, vec![7; 16]);
        }
        other => panic!("unexpected {:?}", other),
    }
    let r6 = Message::Redirect6(Some(Redirect6 { ip_addr: vec![0xFE, 0x80], port: 0x1234 }));
    let f = frame(&r6);
    assert_eq!(&f[20..24], &[0x12, 0x34, 0, 0]);
    match decode_frame(&f).unwrap() {
        Message::Redirect6(Some(p)) => {
            assert_eq!(&p.ip_addr[0..2], &[0xFE, 0x80]);
            assert_eq!(p.ip_addr.len(), 16);
            assert_eq!(p.port, 0x1234);
        }
        other => panic!("unexpected {:?}", other),
    }
    let fi = Message::FileInfo(Some(FileInfo { patch_id: 4, filename: vec![b'x'; 32] }));
    let sd = Message::SetDirectory(Some(SetDirectory { dirname: vec![b'd'; 64] }));
    for m in [fi, sd] {
        let back = decode_frame(&frame(&m)).unwrap();
        assert_eq!(format!("{:?}", back), format!("{:?}", m));
    }
}

#[test]
fn motd_is_utf16le() {
    let m = Message::Motd(Some(Motd { message: "Hi".to_string() }));
    let f = frame(&m);
    assert_eq!(f, vec![0x08, 0x00, 0x13, 0x00, 0x48, 0x00, 0x69, 0x00]);
    match decode_frame(&f).unwrap() {
        Message::Motd(Some(t)) => assert_eq!(t.message, "Hi"),
        other => panic!("unexpected {:?}", other),
    }
}

#[test]
fn motd_pads_to_even_only() {
    let m = Message::Motd(Some(Motd { message: "abc".to_string() }));
    let f = frame(&m);
    assert_eq!(f.len(), 10);
    assert_eq!(&f[0..2], &[10, 0]);
    assert_eq!((f.len() - 4) % 2, 0);
}

#[test]
fn motd_surrogate_pair() {
    let m = Message::Motd(Some(Motd { message: "\u{1F600}é".to_string() }));
    let body = encode_message(&m).unwrap();
    assert_eq!(body, vec![0x3D, 0xD8, 0x00, 0xDE, 0xE9, 0x00]);
    let back = decode_message(0x13, &body).unwrap();
    match back {
        Message::Motd(Some(t)) => assert_eq!(t.message, "\u{1F600}é"),
        other => panic!("unexpected {:?}", other),
    }
}

#[test]
fn unknown_bytes_are_kept() {
    let body = vec![1, 2, 3, 4, 5, 6, 7, 8];
    let m = decode_message(0x77, &body).unwrap();
    match &m {
        Message::Unknown(0x77, Some(b)) => assert_eq!(b, &body),
        other => panic!("unexpected {:?}", other),
    }
    assert_eq!(encode_message(&m).unwrap(), body);
    let f = frame(&m);
    assert_eq!(&f[0..4], &[12, 0, 0x77, 0]);
    assert_eq!(&f[4..], &body[..]);
    match decode_message(0x77, &[]).unwrap() {
        Message::Unknown(0x77, None) => {}
        other => panic!("unexpected {:?}", other),
    }
}

#[test]
fn unknown_odd_body_is_padded_on_the_wire() {
    let m = Message::Unknown(0x300, Some(vec![9, 9, 9]));
    let f = frame(&m);
    assert_eq!(f, vec![8, 0, 0x00, 0x03, 9, 9, 9, 0]);
}

#[test]
fn header_arithmetic() {
    let h = MsgHeader { len: 12, msg_type: 0x14, flags: 0 };
    let b = HdrSerializer::hdr_serialize(&h).unwrap();
    assert_eq!(b, vec![16, 0, 0x14, 0]);
    assert_eq!(HdrSerializer::hdr_deserialize(&b).unwrap(), h);
    assert_eq!(body_read_len(&MsgHeader { len: 5, msg_type: 0x14, flags: 0 }), 8);
    assert_eq!(body_read_len(&MsgHeader { len: 5, msg_type: 0x13, flags: 0 }), 6);
    let big = MsgHeader { len: 0xFFFC, msg_type: 1, flags: 0 };
    assert_eq!(HdrSerializer::hdr_serialize(&big), Err(CodecError::InvalidInput));
}

#[test]
fn header_errors() {
    assert_eq!(HdrSerializer::hdr_deserialize(&[1, 0, 2]), Err(CodecError::UnexpectedEof));
    assert_eq!(HdrSerializer::hdr_deserialize(&[3, 0, 2, 0]), Err(CodecError::InvalidData));
    assert_eq!(decode_frame(&[8, 0, 0x14, 0, 1]).unwrap_err(), CodecError::UnexpectedEof);
}

#[test]
fn short_fixed_body_is_eof() {
    assert_eq!(decode_message(0x02, &[0; 12]).unwrap_err(), CodecError::UnexpectedEof);
    assert_eq!(decode_message(0x14, &[0; 4]).unwrap_err(), CodecError::UnexpectedEof);
}

#[test]
fn identity_cipher_is_transparent() {
    let m = Message::Welcome(Some(Welcome { server_vector: 11, client_vector: 22 }));
    let mut c = IdentityCipher;
    let sealed = encode_frame_with(&m, &mut c).unwrap();
    assert_eq!(sealed, frame(&m));
    let h1 = HdrSerializer::hdr_deserialize_with(&sealed, &mut c).unwrap();
    let h2 = HdrSerializer::hdr_deserialize(&sealed).unwrap();
    assert_eq!(h1, h2);
    assert_eq!(HdrSerializer::hdr_serialize_with(&h2, &mut c).unwrap(), sealed[0..4].to_vec());
    let back = decode_message_with(0x02, &sealed[4..], &mut c).unwrap();
    assert_eq!(format!("{:?}", back), format!("{:?}", m));
}

struct RefusingCipher;

impl psomsg_patch::cipher::Cipher for RefusingCipher {
    fn is_identity(&self) -> bool {
        false
    }

    fn encrypt(&mut self, _input: &[u8]) -> Result<Vec<u8>, psomsg_patch::error::CryptoError> {
        Err(psomsg_patch::error::CryptoError)
    }

    fn decrypt(&mut self, _input: &[u8]) -> Result<Vec<u8>, psomsg_patch::error::CryptoError> {
        Err(psomsg_patch::error::CryptoError)
    }
}

#[test]
fn cipher_failure_is_reported() {
    let mut c = RefusingCipher;
    assert_eq!(
        HdrSerializer::hdr_deserialize_with(&[8, 0, 0x14, 0], &mut c),
        Err(CodecError::Crypto)
    );
    let m = Message::SendDone;
    assert_eq!(encode_frame_with(&m, &mut c).unwrap_err(), CodecError::Crypto);
    assert_eq!(decode_message_with(0x14, &[0; 8], &mut c).unwrap_err(), CodecError::Crypto);
    let h = MsgHeader { len: 0, msg_type: 0x12, flags: 0 };
    assert_eq!(HdrSerializer::hdr_serialize_with(&h, &mut c), Err(CodecError::Crypto));
}
