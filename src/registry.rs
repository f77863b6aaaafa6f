//! The message registry: type codes, dispatch to each kind's layout,
//! padding, and whole frames.

use vstd::prelude::*;
use crate::bytes::{copy_range, le16, push_fixed, push_zeros, zeros, fixed};
use crate::cipher::Cipher;
use crate::error::CodecError;
use crate::header::{HdrSerializer, MsgHeader, header_parse};
use crate::payload::{
    DataSend, FileDone, FileInfo, FileInfoModel, FileInfoReply, FileSend, FileSendModel, Login,
    LoginModel, Motd, MotdModel, Redirect, Redirect6, Redirect6Model, SendInfo, SetDirectory,
    SetDirectoryModel, Welcome, data_send_layout, data_send_parse, file_done_layout,
    file_done_parse, file_info_fits, file_info_layout, file_info_parse, file_info_reply_layout,
    file_info_reply_parse, file_send_fits, file_send_layout, file_send_parse, login_fits,
    login_layout, login_parse, motd_layout, motd_parse, redirect6_fits, redirect6_layout,
    redirect6_parse, redirect_layout, redirect_parse, send_info_layout, send_info_parse,
    set_directory_fits, set_directory_layout, set_directory_parse, welcome_layout, welcome_parse,
};

verus! {

/// One message of the patch protocol. A kind with a payload holds `None`
/// when it travelled as a bare header; an unregistered type code keeps its
/// body bytes as they came.
#[derive(Clone, Debug)]
pub enum Message {
    Unknown(u16, Option<Vec<u8>>),
    Welcome(Option<Welcome>),
    Login(Option<Login>),
    FileSend(Option<FileSend>),
    DataSend(Option<DataSend>),
    FileDone(Option<FileDone>),
    SetDirectory(Option<SetDirectory>),
    OneDirUp,
    StartList,
    FileInfo(Option<FileInfo>),
    InfoFinished,
    FileInfoReply(Option<FileInfoReply>),
    FileListDone,
    SendInfo(Option<SendInfo>),
    SendDone,
    Motd(Option<Motd>),
    Redirect(Option<Redirect>),
    Redirect6(Option<Redirect6>),
}

/// A message with its byte fields and text as sequences.
pub enum MessageModel {
    Unknown(u16, Option<Seq<u8>>),
    Welcome(Option<Welcome>),
    Login(Option<LoginModel>),
    FileSend(Option<FileSendModel>),
    DataSend(Option<DataSend>),
    FileDone(Option<FileDone>),
    SetDirectory(Option<SetDirectoryModel>),
    OneDirUp,
    StartList,
    FileInfo(Option<FileInfoModel>),
    InfoFinished,
    FileInfoReply(Option<FileInfoReply>),
    FileListDone,
    SendInfo(Option<SendInfo>),
    SendDone,
    Motd(Option<MotdModel>),
    Redirect(Option<Redirect>),
    Redirect6(Option<Redirect6Model>),
}

impl View for Message {
    type V = MessageModel;

    open spec fn view(&self) -> MessageModel {
        match self {
            Message::Unknown(c, Some(b)) => MessageModel::Unknown(*c, Some(b@)),
            Message::Unknown(c, None) => MessageModel::Unknown(*c, None),
            Message::Welcome(p) => MessageModel::Welcome(*p),
            Message::Login(Some(p)) => MessageModel::Login(Some(p@)),
            Message::Login(None) => MessageModel::Login(None),
            Message::FileSend(Some(p)) => MessageModel::FileSend(Some(p@)),
            Message::FileSend(None) => MessageModel::FileSend(None),
            Message::DataSend(p) => MessageModel::DataSend(*p),
            Message::FileDone(p) => MessageModel::FileDone(*p),
            Message::SetDirectory(Some(p)) => MessageModel::SetDirectory(Some(p@)),
            Message::SetDirectory(None) => MessageModel::SetDirectory(None),
            Message::OneDirUp => MessageModel::OneDirUp,
            Message::StartList => MessageModel::StartList,
            Message::FileInfo(Some(p)) => MessageModel::FileInfo(Some(p@)),
            Message::FileInfo(None) => MessageModel::FileInfo(None),
            Message::InfoFinished => MessageModel::InfoFinished,
            Message::FileInfoReply(p) => MessageModel::FileInfoReply(*p),
            Message::FileListDone => MessageModel::FileListDone,
            Message::SendInfo(p) => MessageModel::SendInfo(*p),
            Message::SendDone => MessageModel::SendDone,
            Message::Motd(Some(p)) => MessageModel::Motd(Some(p@)),
            Message::Motd(None) => MessageModel::Motd(None),
            Message::Redirect(p) => MessageModel::Redirect(*p),
            Message::Redirect6(Some(p)) => MessageModel::Redirect6(Some(p@)),
            Message::Redirect6(None) => MessageModel::Redirect6(None),
        }
    }
}

pub const WELCOME: u16 = 0x02;
pub const LOGIN: u16 = 0x04;
pub const FILE_SEND: u16 = 0x06;
pub const DATA_SEND: u16 = 0x07;
pub const FILE_DONE: u16 = 0x08;
pub const SET_DIRECTORY: u16 = 0x09;
pub const ONE_DIR_UP: u16 = 0x0A;
pub const START_LIST: u16 = 0x0B;
pub const FILE_INFO: u16 = 0x0C;
pub const INFO_FINISHED: u16 = 0x0D;
pub const FILE_INFO_REPLY: u16 = 0x0F;
pub const FILE_LIST_DONE: u16 = 0x10;
pub const SEND_INFO: u16 = 0x11;
pub const SEND_DONE: u16 = 0x12;
pub const MOTD: u16 = 0x13;
pub const REDIRECT: u16 = 0x14;
pub const REDIRECT6: u16 = 0x614;

/// The type code that a message travels under.
pub open spec fn code_of(m: MessageModel) -> u16 {
    match m {
        MessageModel::Unknown(c, _) => c,
        MessageModel::Welcome(_) => WELCOME,
        MessageModel::Login(_) => LOGIN,
        MessageModel::FileSend(_) => FILE_SEND,
        MessageModel::DataSend(_) => DATA_SEND,
        MessageModel::FileDone(_) => FILE_DONE,
        MessageModel::SetDirectory(_) => SET_DIRECTORY,
        MessageModel::OneDirUp => ONE_DIR_UP,
        MessageModel::StartList => START_LIST,
        MessageModel::FileInfo(_) => FILE_INFO,
        MessageModel::InfoFinished => INFO_FINISHED,
        MessageModel::FileInfoReply(_) => FILE_INFO_REPLY,
        MessageModel::FileListDone => FILE_LIST_DONE,
        MessageModel::SendInfo(_) => SEND_INFO,
        MessageModel::SendDone => SEND_DONE,
        MessageModel::Motd(_) => MOTD,
        MessageModel::Redirect(_) => REDIRECT,
        MessageModel::Redirect6(_) => REDIRECT6,
    }
}

/// The codes of the known kinds.
pub open spec fn is_registered(c: u16) -> bool {
    c == WELCOME || c == LOGIN || c == FILE_SEND || c == DATA_SEND || c == FILE_DONE || c
        == SET_DIRECTORY || c == ONE_DIR_UP || c == START_LIST || c == FILE_INFO || c
        == INFO_FINISHED || c == FILE_INFO_REPLY || c == FILE_LIST_DONE || c == SEND_INFO || c
        == SEND_DONE || c == MOTD || c == REDIRECT || c == REDIRECT6
}

/// The constant body size of each kind whose layout is fixed.
pub open spec fn fixed_size(c: u16) -> Option<nat> {
    if c == WELCOME {
        Some(72)
    } else if c == LOGIN {
        Some(108)
    } else if c == FILE_SEND {
        Some(56)
    } else if c == DATA_SEND || c == FILE_INFO_REPLY {
        Some(12)
    } else if c == FILE_DONE {
        Some(4)
    } else if c == SET_DIRECTORY {
        Some(64)
    } else if c == ONE_DIR_UP || c == START_LIST || c == INFO_FINISHED || c == FILE_LIST_DONE || c
        == SEND_DONE {
        Some(0)
    } else if c == FILE_INFO {
        Some(36)
    } else if c == SEND_INFO || c == REDIRECT {
        Some(8)
    } else if c == REDIRECT6 {
        Some(20)
    } else {
        None
    }
}

/// Whether every variable field is within its capacity.
pub open spec fn fits(m: MessageModel) -> bool {
    match m {
        MessageModel::Login(Some(p)) => login_fits(p),
        MessageModel::FileSend(Some(p)) => file_send_fits(p),
        MessageModel::SetDirectory(Some(p)) => set_directory_fits(p),
        MessageModel::FileInfo(Some(p)) => file_info_fits(p),
        MessageModel::Redirect6(Some(p)) => redirect6_fits(p),
        _ => true,
    }
}

/// The body of a message before padding.
pub open spec fn body_of(m: MessageModel) -> Seq<u8> {
    match m {
        MessageModel::Unknown(_, Some(b)) => b,
        MessageModel::Welcome(Some(p)) => welcome_layout(p),
        MessageModel::Login(Some(p)) => login_layout(p),
        MessageModel::FileSend(Some(p)) => file_send_layout(p),
        MessageModel::DataSend(Some(p)) => data_send_layout(p),
        MessageModel::FileDone(Some(p)) => file_done_layout(p),
        MessageModel::SetDirectory(Some(p)) => set_directory_layout(p),
        MessageModel::FileInfo(Some(p)) => file_info_layout(p),
        MessageModel::FileInfoReply(Some(p)) => file_info_reply_layout(p),
        MessageModel::SendInfo(Some(p)) => send_info_layout(p),
        MessageModel::Motd(Some(p)) => motd_layout(p),
        MessageModel::Redirect(Some(p)) => redirect_layout(p),
        MessageModel::Redirect6(Some(p)) => redirect6_layout(p),
        _ => Seq::empty(),
    }
}

/// A body of `n` bytes padded for type `c`: to an even count for the
/// message of the day, to a multiple of four for every other code.
pub open spec fn pad_len(c: u16, n: nat) -> nat {
    if c == MOTD {
        n + n % 2
    } else {
        (n + (4 - n % 4) % 4) as nat
    }
}

pub open spec fn padded(c: u16, b: Seq<u8>) -> Seq<u8> {
    b + zeros((pad_len(c, b.len()) - b.len()) as nat)
}

pub open spec fn padded_body(m: MessageModel) -> Seq<u8> {
    padded(code_of(m), body_of(m))
}

/// Whether the message can be framed: fields within capacity, and a total
/// length that fits the header's 16 bits.
pub open spec fn frame_fits(m: MessageModel) -> bool {
    fits(m) && padded_body(m).len() + 4 <= 0xFFFF
}

/// Header then padded body.
pub open spec fn frame_of(m: MessageModel) -> Seq<u8> {
    le16((padded_body(m).len() + 4) as u16) + le16(code_of(m)) + padded_body(m)
}

/// What a header with no body decodes to.
pub open spec fn bare(c: u16) -> MessageModel {
    if c == WELCOME {
        MessageModel::Welcome(None)
    } else if c == LOGIN {
        MessageModel::Login(None)
    } else if c == FILE_SEND {
        MessageModel::FileSend(None)
    } else if c == DATA_SEND {
        MessageModel::DataSend(None)
    } else if c == FILE_DONE {
        MessageModel::FileDone(None)
    } else if c == SET_DIRECTORY {
        MessageModel::SetDirectory(None)
    } else if c == ONE_DIR_UP {
        MessageModel::OneDirUp
    } else if c == START_LIST {
        MessageModel::StartList
    } else if c == FILE_INFO {
        MessageModel::FileInfo(None)
    } else if c == INFO_FINISHED {
        MessageModel::InfoFinished
    } else if c == FILE_INFO_REPLY {
        MessageModel::FileInfoReply(None)
    } else if c == FILE_LIST_DONE {
        MessageModel::FileListDone
    } else if c == SEND_INFO {
        MessageModel::SendInfo(None)
    } else if c == SEND_DONE {
        MessageModel::SendDone
    } else if c == MOTD {
        MessageModel::Motd(None)
    } else if c == REDIRECT {
        MessageModel::Redirect(None)
    } else if c == REDIRECT6 {
        MessageModel::Redirect6(None)
    } else {
        MessageModel::Unknown(c, None)
    }
}

/// Decodes a non-empty body of a fixed kind: too short is an error, and
/// bytes past the layout are ignored.
pub open spec fn sized(b: Seq<u8>, n: nat, m: MessageModel) -> Result<MessageModel, CodecError> {
    if b.len() < n {
        Err(CodecError::UnexpectedEof)
    } else {
        Ok(m)
    }
}

/// What the body `b`, received under code `c`, decodes to.
pub open spec fn decode_body(c: u16, b: Seq<u8>) -> Result<MessageModel, CodecError> {
    if b.len() == 0 {
        Ok(bare(c))
    } else if c == WELCOME {
        sized(b, 72, MessageModel::Welcome(Some(welcome_parse(b))))
    } else if c == LOGIN {
        sized(b, 108, MessageModel::Login(Some(login_parse(b))))
    } else if c == FILE_SEND {
        sized(b, 56, MessageModel::FileSend(Some(file_send_parse(b))))
    } else if c == DATA_SEND {
        sized(b, 12, MessageModel::DataSend(Some(data_send_parse(b))))
    } else if c == FILE_DONE {
        sized(b, 4, MessageModel::FileDone(Some(file_done_parse(b))))
    } else if c == SET_DIRECTORY {
        sized(b, 64, MessageModel::SetDirectory(Some(set_directory_parse(b))))
    } else if c == FILE_INFO {
        sized(b, 36, MessageModel::FileInfo(Some(file_info_parse(b))))
    } else if c == FILE_INFO_REPLY {
        sized(b, 12, MessageModel::FileInfoReply(Some(file_info_reply_parse(b))))
    } else if c == SEND_INFO {
        sized(b, 8, MessageModel::SendInfo(Some(send_info_parse(b))))
    } else if c == MOTD {
        Ok(MessageModel::Motd(Some(motd_parse(b))))
    } else if c == REDIRECT {
        sized(b, 8, MessageModel::Redirect(Some(redirect_parse(b))))
    } else if c == REDIRECT6 {
        sized(b, 20, MessageModel::Redirect6(Some(redirect6_parse(b))))
    } else if is_registered(c) {
        Ok(bare(c))
    } else {
        Ok(MessageModel::Unknown(c, Some(b)))
    }
}

/// What a frame decodes to: the header, then the padded body it announces.
pub open spec fn decode_frame_spec(f: Seq<u8>) -> Result<MessageModel, CodecError> {
    match header_parse(f) {
        Err(e) => Err(e),
        Ok(h) => {
            let n = pad_len(h.msg_type as u16, h.len as nat);
            if f.len() < 4 + n {
                Err(CodecError::UnexpectedEof)
            } else {
                decode_body(h.msg_type as u16, f.subrange(4, 4 + n as int))
            }
        },
    }
}

/// What a message decodes back to: byte fields zero-filled to their
/// capacity, an unknown body padded, and an empty text or body read as a
/// bare header.
pub open spec fn normalized(m: MessageModel) -> MessageModel {
    match m {
        MessageModel::Unknown(c, Some(b)) => if b.len() == 0 {
            MessageModel::Unknown(c, None)
        } else {
            MessageModel::Unknown(c, Some(padded(c, b)))
        },
        MessageModel::Login(Some(p)) => MessageModel::Login(
            Some(LoginModel { username: fixed(p.username, 16), password: fixed(p.password, 16) }),
        ),
        MessageModel::FileSend(Some(p)) => MessageModel::FileSend(
            Some(FileSendModel { size: p.size, filename: fixed(p.filename, 48) }),
        ),
        MessageModel::SetDirectory(Some(p)) => MessageModel::SetDirectory(
            Some(SetDirectoryModel { dirname: fixed(p.dirname, 64) }),
        ),
        MessageModel::FileInfo(Some(p)) => MessageModel::FileInfo(
            Some(FileInfoModel { patch_id: p.patch_id, filename: fixed(p.filename, 32) }),
        ),
        MessageModel::Redirect6(Some(p)) => MessageModel::Redirect6(
            Some(Redirect6Model { ip_addr: fixed(p.ip_addr, 16), port: p.port }),
        ),
        MessageModel::Motd(Some(p)) => if p.message.len() == 0 {
            MessageModel::Motd(None)
        } else {
            m
        },
        _ => m,
    }
}

/// A message already in the form it decodes back to: full byte fields, a
/// non-empty text, an unknown body that is non-empty and padded.
pub open spec fn canonical(m: MessageModel) -> bool {
    match m {
        MessageModel::Unknown(_, Some(b)) => b.len() > 0 && b.len() % 4 == 0,
        MessageModel::Login(Some(p)) => p.username.len() == 16 && p.password.len() == 16,
        MessageModel::FileSend(Some(p)) => p.filename.len() == 48,
        MessageModel::SetDirectory(Some(p)) => p.dirname.len() == 64,
        MessageModel::FileInfo(Some(p)) => p.filename.len() == 32,
        MessageModel::Redirect6(Some(p)) => p.ip_addr.len() == 16,
        MessageModel::Motd(Some(p)) => p.message.len() > 0,
        _ => true,
    }
}

pub open spec fn result_view(r: Result<Message, CodecError>) -> Result<MessageModel, CodecError> {
    match r {
        Ok(m) => Ok(m@),
        Err(e) => Err(e),
    }
}

impl Message {
    /// The type code this message travels under.
    pub fn msg_type(&self) -> (r: u16)
        ensures
            r == code_of(self@),
    {
        match self {
            Message::Unknown(c, _) => *c,
            Message::Welcome(_) => WELCOME,
            Message::Login(_) => LOGIN,
            Message::FileSend(_) => FILE_SEND,
            Message::DataSend(_) => DATA_SEND,
            Message::FileDone(_) => FILE_DONE,
            Message::SetDirectory(_) => SET_DIRECTORY,
            Message::OneDirUp => ONE_DIR_UP,
            Message::StartList => START_LIST,
            Message::FileInfo(_) => FILE_INFO,
            Message::InfoFinished => INFO_FINISHED,
            Message::FileInfoReply(_) => FILE_INFO_REPLY,
            Message::FileListDone => FILE_LIST_DONE,
            Message::SendInfo(_) => SEND_INFO,
            Message::SendDone => SEND_DONE,
            Message::Motd(_) => MOTD,
            Message::Redirect(_) => REDIRECT,
            Message::Redirect6(_) => REDIRECT6,
        }
    }

    /// What a header of type `c` with no body decodes to.
    pub fn bare(c: u16) -> (r: Message)
        ensures
            r@ == bare(c),
    {
        match c {
            0x02 => Message::Welcome(None),
            0x04 => Message::Login(None),
            0x06 => Message::FileSend(None),
            0x07 => Message::DataSend(None),
            0x08 => Message::FileDone(None),
            0x09 => Message::SetDirectory(None),
            0x0A => Message::OneDirUp,
            0x0B => Message::StartList,
            0x0C => Message::FileInfo(None),
            0x0D => Message::InfoFinished,
            0x0F => Message::FileInfoReply(None),
            0x10 => Message::FileListDone,
            0x11 => Message::SendInfo(None),
            0x12 => Message::SendDone,
            0x13 => Message::Motd(None),
            0x14 => Message::Redirect(None),
            0x614 => Message::Redirect6(None),
            _ => Message::Unknown(c, None),
        }
    }
}

/// The constant body size of the kind registered under `c`, if its layout
/// is fixed.
pub fn body_size(c: u16) -> (r: Option<usize>)
    ensures
        r matches Some(n) ==> fixed_size(c) == Some(n as nat),
        r is None ==> fixed_size(c) is None,
{
    match c {
        0x02 => Some(72),
        0x04 => Some(108),
        0x06 => Some(56),
        0x07 | 0x0F => Some(12),
        0x08 => Some(4),
        0x09 => Some(64),
        0x0A | 0x0B | 0x0D | 0x10 | 0x12 => Some(0),
        0x0C => Some(36),
        0x11 | 0x14 => Some(8),
        0x614 => Some(20),
        _ => None,
    }
}

/// The length of a body of `n` bytes once padded for type `c`.
pub fn padded_len(c: u16, n: usize) -> (r: usize)
    requires
        n <= 0xFFFF,
    ensures
        r == pad_len(c, n as nat),
{
    if c == MOTD {
        n + n % 2
    } else {
        n + (4 - n % 4) % 4
    }
}

/// How many body bytes follow a decoded header: its length, padded for its type.
pub fn body_read_len(h: &MsgHeader) -> (r: usize)
    requires
        h.len <= 0xFFFF,
    ensures
        r == pad_len(h.msg_type as u16, h.len as nat),
{
    padded_len(h.msg_type as u16, h.len as usize)
}

/// The unpadded body of `m`. A field over its capacity is refused.
pub fn encode_message(m: &Message) -> (r: Result<Vec<u8>, CodecError>)
    ensures
        r is Ok <==> fits(m@),
        r is Err ==> r->Err_0 == CodecError::InvalidInput,
        r is Ok ==> r->Ok_0@ == body_of(m@),
{
    let mut out: Vec<u8> = Vec::new();
    match m {
        Message::Unknown(_, Some(b)) => {
            let n = b.len();
            push_fixed(&mut out, b.as_slice(), n);
            assert(fixed(b@, n as nat) =~= b@);
        },
        Message::Welcome(Some(p)) => p.serialize(&mut out),
        Message::Login(Some(p)) => p.serialize(&mut out)?,
        Message::FileSend(Some(p)) => p.serialize(&mut out)?,
        Message::DataSend(Some(p)) => p.serialize(&mut out),
        Message::FileDone(Some(p)) => p.serialize(&mut out),
        Message::SetDirectory(Some(p)) => p.serialize(&mut out)?,
        Message::FileInfo(Some(p)) => p.serialize(&mut out)?,
        Message::FileInfoReply(Some(p)) => p.serialize(&mut out),
        Message::SendInfo(Some(p)) => p.serialize(&mut out),
        Message::Motd(Some(p)) => {
            let _ = p.serialize(&mut out);
        },
        Message::Redirect(Some(p)) => p.serialize(&mut out),
        Message::Redirect6(Some(p)) => p.serialize(&mut out)?,
        _ => {},
    }
    assert(out@ =~= body_of(m@));
    Ok(out)
}

/// What `body`, received under type `c`, decodes to. An empty body is a bare
/// header; a fixed kind needs at least its layout's bytes and ignores the
/// rest; an unregistered code keeps the bytes.
pub fn decode_message(c: u16, body: &[u8]) -> (r: Result<Message, CodecError>)
    ensures
        result_view(r) == decode_body(c, body@),
{
    if body.len() == 0 {
        return Ok(Message::bare(c));
    }
    match c {
        0x02 => match Welcome::deserialize(body) {
            Ok(p) => Ok(Message::Welcome(Some(p))),
            Err(e) => Err(e),
        },
        0x04 => match Login::deserialize(body) {
            Ok(p) => Ok(Message::Login(Some(p))),
            Err(e) => Err(e),
        },
        0x06 => match FileSend::deserialize(body) {
            Ok(p) => Ok(Message::FileSend(Some(p))),
            Err(e) => Err(e),
        },
        0x07 => match DataSend::deserialize(body) {
            Ok(p) => Ok(Message::DataSend(Some(p))),
            Err(e) => Err(e),
        },
        0x08 => match FileDone::deserialize(body) {
            Ok(p) => Ok(Message::FileDone(Some(p))),
            Err(e) => Err(e),
        },
        0x09 => match SetDirectory::deserialize(body) {
            Ok(p) => Ok(Message::SetDirectory(Some(p))),
            Err(e) => Err(e),
        },
        0x0C => match FileInfo::deserialize(body) {
            Ok(p) => Ok(Message::FileInfo(Some(p))),
            Err(e) => Err(e),
        },
        0x0F => match FileInfoReply::deserialize(body) {
            Ok(p) => Ok(Message::FileInfoReply(Some(p))),
            Err(e) => Err(e),
        },
        0x11 => match SendInfo::deserialize(body) {
            Ok(p) => Ok(Message::SendInfo(Some(p))),
            Err(e) => Err(e),
        },
        0x13 => Ok(Message::Motd(Some(Motd::deserialize(body)))),
        0x14 => match Redirect::deserialize(body) {
            Ok(p) => Ok(Message::Redirect(Some(p))),
            Err(e) => Err(e),
        },
        0x614 => match Redirect6::deserialize(body) {
            Ok(p) => Ok(Message::Redirect6(Some(p))),
            Err(e) => Err(e),
        },
        0x0A | 0x0B | 0x0D | 0x10 | 0x12 => Ok(Message::bare(c)),
        _ => {
            let kept = copy_range(body, 0, body.len());
            assert(kept@ =~= body@);
            Ok(Message::Unknown(c, Some(kept)))
        },
    }
}

/// The whole frame of `m`: header, then the body padded for its type.
/// Refused when a field exceeds its capacity or the frame its length field.
pub fn encode_frame(m: &Message) -> (r: Result<Vec<u8>, CodecError>)
    ensures
        r is Ok <==> frame_fits(m@),
        r is Err ==> r->Err_0 == CodecError::InvalidInput,
        r is Ok ==> r->Ok_0@ == frame_of(m@),
{
    let mut body = encode_message(m)?;
    let c = m.msg_type();
    if body.len() > 0xFFFB {
        return Err(CodecError::InvalidInput);
    }
    let n = padded_len(c, body.len());
    if n > 0xFFFB {
        return Err(CodecError::InvalidInput);
    }
    let ghost natural = body@;
    let extra = n - body.len();
    push_zeros(&mut body, extra);
    assert(body@ == padded_body(m@));
    let mut out = HdrSerializer::hdr_serialize(&MsgHeader { len: n as u32, msg_type: c as u32, flags: 0 })?;
    let ghost hdr = out@;
    let len = body.len();
    push_fixed(&mut out, body.as_slice(), len);
    assert(fixed(body@, len as nat) =~= body@);
    assert(out@ =~= frame_of(m@));
    Ok(out)
}

/// Decodes one frame held whole in `frame`: the header, then the padded
/// body it announces. Bytes past that body are not read.
pub fn decode_frame(frame: &[u8]) -> (r: Result<Message, CodecError>)
    ensures
        result_view(r) == decode_frame_spec(frame@),
{
    let h = HdrSerializer::hdr_deserialize(frame)?;
    let n = body_read_len(&h);
    if frame.len() < 4 || frame.len() - 4 < n {
        return Err(CodecError::UnexpectedEof);
    }
    let body = copy_range(frame, 4, n);
    decode_message(h.msg_type as u16, body.as_slice())
}

/// `encode_frame`, with the header and then the body passed through
/// `encryptor` in stream order.
pub fn encode_frame_with<C: Cipher>(m: &Message, encryptor: &mut C) -> (r: Result<Vec<u8>, CodecError>)
    ensures
        !frame_fits(m@) ==> r == Err::<Vec<u8>, CodecError>(CodecError::InvalidInput),
        r is Ok ==> r->Ok_0@.len() == frame_of(m@).len(),
        old(encryptor).is_identity() ==> final(encryptor).is_identity() && (r is Ok <==> frame_fits(m@))
            && (r is Ok ==> r->Ok_0@ == frame_of(m@)),
{
    let plain = encode_frame(m)?;
    let hdr = copy_range(plain.as_slice(), 0, 4);
    let body = copy_range(plain.as_slice(), 4, plain.len() - 4);
    let mut out = match encryptor.encrypt(hdr.as_slice()) {
        Ok(e) => e,
        Err(_) => {
            return Err(CodecError::Crypto);
        },
    };
    let sealed = match encryptor.encrypt(body.as_slice()) {
        Ok(e) => e,
        Err(_) => {
            return Err(CodecError::Crypto);
        },
    };
    if out.len() != 4 || sealed.len() != body.len() {
        return Err(CodecError::Crypto);
    }
    let n = sealed.len();
    push_fixed(&mut out, sealed.as_slice(), n);
    assert(fixed(sealed@, n as nat) =~= sealed@);
    proof {
        if old(encryptor).is_identity() {
            assert(out@ =~= plain@);
        }
    }
    Ok(out)
}

/// Decrypts a received body with `decryptor`, then decodes it under type `c`.
pub fn decode_message_with<C: Cipher>(c: u16, body: &[u8], decryptor: &mut C) -> (r: Result<Message, CodecError>)
    ensures
        old(decryptor).is_identity() ==> final(decryptor).is_identity() && result_view(r)
            == decode_body(c, body@),
        r is Err ==> r->Err_0 == CodecError::Crypto || exists|d: Seq<u8>|
            d.len() == body@.len() && result_view(r) == decode_body(c, d),
        r is Ok ==> exists|d: Seq<u8>| d.len() == body@.len() && result_view(r) == decode_body(c, d),
{
    let plain = match decryptor.decrypt(body) {
        Ok(p) => p,
        Err(_) => {
            return Err(CodecError::Crypto);
        },
    };
    if plain.len() != body.len() {
        return Err(CodecError::Crypto);
    }
    decode_message(c, plain.as_slice())
}

} // verus!
