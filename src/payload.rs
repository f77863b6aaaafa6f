//! The payload of each message kind and its fixed byte layout.

use vstd::prelude::*;
use crate::bytes::{
    lemma_read_be16_at, lemma_read_be32_at, lemma_read_le32_at,
    copy_range, fixed, get_be16, get_be32, get_le32, le32, be16, be32, push_be16, push_be32,
    push_fixed, push_le32, push_zeros, read_be16, read_be32, read_le32, zeros,
};
use crate::error::CodecError;
use crate::text::{decode_utf16le, encode_utf16le, utf16le, utf16le_decoded};

verus! {

/// The literal that opens the server's greeting.
pub open spec fn banner() -> Seq<u8> {
    seq![
        0x50u8, 0x61, 0x74, 0x63, 0x68, 0x20, 0x53, 0x65, 0x72, 0x76, 0x65, 0x72, 0x2E, 0x20, 0x43,
        0x6F, 0x70, 0x79, 0x72, 0x69, 0x67, 0x68, 0x74, 0x20, 0x53, 0x6F, 0x6E, 0x69, 0x63, 0x54,
        0x65, 0x61, 0x6D, 0x2C, 0x20, 0x4C, 0x54, 0x44, 0x2E, 0x20, 0x32, 0x30, 0x30, 0x31,
    ]
}

// ---- Welcome --------------------------------------------------------------

/// The server's greeting, carrying the two cipher seeds.
#[derive(Clone, Copy, Debug, PartialEq, Eq, Structural)]
pub struct Welcome {
    pub server_vector: u32,
    pub client_vector: u32,
}

/// A 64-byte region holding the banner, then both seeds.
pub open spec fn welcome_layout(w: Welcome) -> Seq<u8> {
    banner() + zeros(20) + le32(w.server_vector) + le32(w.client_vector)
}

/// The 64-byte region is skipped whatever it holds.
pub open spec fn welcome_parse(b: Seq<u8>) -> Welcome {
    Welcome { server_vector: read_le32(b, 64), client_vector: read_le32(b, 68) }
}

impl Welcome {
    pub fn serialize(&self, out: &mut Vec<u8>)
        ensures
            final(out)@ == old(out)@ + welcome_layout(*self),
    {
        let text: Vec<u8> = vec![
            0x50u8, 0x61, 0x74, 0x63, 0x68, 0x20, 0x53, 0x65, 0x72, 0x76, 0x65, 0x72, 0x2E, 0x20,
            0x43, 0x6F, 0x70, 0x79, 0x72, 0x69, 0x67, 0x68, 0x74, 0x20, 0x53, 0x6F, 0x6E, 0x69,
            0x63, 0x54, 0x65, 0x61, 0x6D, 0x2C, 0x20, 0x4C, 0x54, 0x44, 0x2E, 0x20, 0x32, 0x30,
            0x30, 0x31,
        ];
        assert(text@ =~= banner());
        let ghost start = out@;
        push_fixed(out, text.as_slice(), 64);
        assert(fixed(banner(), 64) =~= banner() + zeros(20));
        push_le32(out, self.server_vector);
        push_le32(out, self.client_vector);
        assert(out@ =~= start + welcome_layout(*self));
    }

    pub fn deserialize(body: &[u8]) -> (r: Result<Welcome, CodecError>)
        ensures
            body@.len() < 72 ==> r == Err::<Welcome, CodecError>(CodecError::UnexpectedEof),
            body@.len() >= 72 ==> r == Ok::<Welcome, CodecError>(welcome_parse(body@)),
    {
        if body.len() < 72 {
            return Err(CodecError::UnexpectedEof);
        }
        Ok(Welcome { server_vector: get_le32(body, 64), client_vector: get_le32(body, 68) })
    }
}

// ---- Login ----------------------------------------------------------------

/// The client's credentials, each in a field of 16 bytes.
#[derive(Clone, Debug)]
pub struct Login {
    pub username: Vec<u8>,
    pub password: Vec<u8>,
}

pub struct LoginModel {
    pub username: Seq<u8>,
    pub password: Seq<u8>,
}

impl View for Login {
    type V = LoginModel;

    open spec fn view(&self) -> LoginModel {
        LoginModel { username: self.username@, password: self.password@ }
    }
}

pub open spec fn login_fits(m: LoginModel) -> bool {
    m.username.len() <= 16 && m.password.len() <= 16
}

pub open spec fn login_layout(m: LoginModel) -> Seq<u8> {
    zeros(12) + fixed(m.username, 16) + fixed(m.password, 16) + zeros(64)
}

pub open spec fn login_parse(b: Seq<u8>) -> LoginModel {
    LoginModel { username: b.subrange(12, 28), password: b.subrange(28, 44) }
}

impl Login {
    /// Writes the credentials; a field over 16 bytes is refused and nothing is written.
    pub fn serialize(&self, out: &mut Vec<u8>) -> (r: Result<(), CodecError>)
        ensures
            r is Ok <==> login_fits(self@),
            r is Err ==> r == Err::<(), CodecError>(CodecError::InvalidInput) && final(out)@
                == old(out)@,
            r is Ok ==> final(out)@ == old(out)@ + login_layout(self@),
    {
        if self.username.len() > 16 || self.password.len() > 16 {
            return Err(CodecError::InvalidInput);
        }
        let ghost start = out@;
        push_zeros(out, 12);
        push_fixed(out, self.username.as_slice(), 16);
        push_fixed(out, self.password.as_slice(), 16);
        push_zeros(out, 64);
        assert(out@ =~= start + login_layout(self@));
        Ok(())
    }

    pub fn deserialize(body: &[u8]) -> (r: Result<Login, CodecError>)
        ensures
            body@.len() < 108 ==> r is Err && r->Err_0 == CodecError::UnexpectedEof,
            body@.len() >= 108 ==> r is Ok && r->Ok_0@ == login_parse(body@),
    {
        if body.len() < 108 {
            return Err(CodecError::UnexpectedEof);
        }
        Ok(Login { username: copy_range(body, 12, 16), password: copy_range(body, 28, 16) })
    }
}

// ---- FileSend -------------------------------------------------------------

/// Announces a file of `size` bytes; the name takes a field of 48 bytes.
#[derive(Clone, Debug)]
pub struct FileSend {
    pub size: u32,
    pub filename: Vec<u8>,
}

pub struct FileSendModel {
    pub size: u32,
    pub filename: Seq<u8>,
}

impl View for FileSend {
    type V = FileSendModel;

    open spec fn view(&self) -> FileSendModel {
        FileSendModel { size: self.size, filename: self.filename@ }
    }
}

pub open spec fn file_send_fits(m: FileSendModel) -> bool {
    m.filename.len() <= 48
}

pub open spec fn file_send_layout(m: FileSendModel) -> Seq<u8> {
    le32(0) + le32(m.size) + fixed(m.filename, 48)
}

pub open spec fn file_send_parse(b: Seq<u8>) -> FileSendModel {
    FileSendModel { size: read_le32(b, 4), filename: b.subrange(8, 56) }
}

impl FileSend {
    /// Writes the announcement; a name over 48 bytes is refused and nothing is written.
    pub fn serialize(&self, out: &mut Vec<u8>) -> (r: Result<(), CodecError>)
        ensures
            r is Ok <==> file_send_fits(self@),
            r is Err ==> r == Err::<(), CodecError>(CodecError::InvalidInput) && final(out)@
                == old(out)@,
            r is Ok ==> final(out)@ == old(out)@ + file_send_layout(self@),
    {
        if self.filename.len() > 48 {
            return Err(CodecError::InvalidInput);
        }
        let ghost start = out@;
        push_le32(out, 0);
        push_le32(out, self.size);
        push_fixed(out, self.filename.as_slice(), 48);
        assert(out@ =~= start + file_send_layout(self@));
        Ok(())
    }

    pub fn deserialize(body: &[u8]) -> (r: Result<FileSend, CodecError>)
        ensures
            body@.len() < 56 ==> r is Err && r->Err_0 == CodecError::UnexpectedEof,
            body@.len() >= 56 ==> r is Ok && r->Ok_0@ == file_send_parse(body@),
    {
        if body.len() < 56 {
            return Err(CodecError::UnexpectedEof);
        }
        Ok(FileSend { size: get_le32(body, 4), filename: copy_range(body, 8, 48) })
    }
}

// ---- DataSend -------------------------------------------------------------

/// Describes one chunk of file data that follows.
#[derive(Clone, Copy, Debug, PartialEq, Eq, Structural)]
pub struct DataSend {
    pub chunk_num: u32,
    pub checksum: u32,
    pub chunk_size: u32,
}

pub open spec fn data_send_layout(d: DataSend) -> Seq<u8> {
    le32(d.chunk_num) + le32(d.checksum) + le32(d.chunk_size)
}

pub open spec fn data_send_parse(b: Seq<u8>) -> DataSend {
    DataSend { chunk_num: read_le32(b, 0), checksum: read_le32(b, 4), chunk_size: read_le32(b, 8) }
}

impl DataSend {
    pub fn serialize(&self, out: &mut Vec<u8>)
        ensures
            final(out)@ == old(out)@ + data_send_layout(*self),
    {
        let ghost start = out@;
        push_le32(out, self.chunk_num);
        push_le32(out, self.checksum);
        push_le32(out, self.chunk_size);
        assert(out@ =~= start + data_send_layout(*self));
    }

    pub fn deserialize(body: &[u8]) -> (r: Result<DataSend, CodecError>)
        ensures
            body@.len() < 12 ==> r == Err::<DataSend, CodecError>(CodecError::UnexpectedEof),
            body@.len() >= 12 ==> r == Ok::<DataSend, CodecError>(data_send_parse(body@)),
    {
        if body.len() < 12 {
            return Err(CodecError::UnexpectedEof);
        }
        Ok(DataSend {
            chunk_num: get_le32(body, 0),
            checksum: get_le32(body, 4),
            chunk_size: get_le32(body, 8),
        })
    }
}

// ---- FileDone -------------------------------------------------------------

/// Marks the end of a file's data.
#[derive(Clone, Copy, Debug, PartialEq, Eq, Structural)]
pub struct FileDone {
    pub padding: u32,
}

pub open spec fn file_done_layout(d: FileDone) -> Seq<u8> {
    le32(d.padding)
}

pub open spec fn file_done_parse(b: Seq<u8>) -> FileDone {
    FileDone { padding: read_le32(b, 0) }
}

impl FileDone {
    pub fn serialize(&self, out: &mut Vec<u8>)
        ensures
            final(out)@ == old(out)@ + file_done_layout(*self),
    {
        push_le32(out, self.padding);
    }

    pub fn deserialize(body: &[u8]) -> (r: Result<FileDone, CodecError>)
        ensures
            body@.len() < 4 ==> r == Err::<FileDone, CodecError>(CodecError::UnexpectedEof),
            body@.len() >= 4 ==> r == Ok::<FileDone, CodecError>(file_done_parse(body@)),
    {
        if body.len() < 4 {
            return Err(CodecError::UnexpectedEof);
        }
        Ok(FileDone { padding: get_le32(body, 0) })
    }
}

// ---- SetDirectory ---------------------------------------------------------

/// Enters a directory, named in a field of 64 bytes.
#[derive(Clone, Debug)]
pub struct SetDirectory {
    pub dirname: Vec<u8>,
}

pub struct SetDirectoryModel {
    pub dirname: Seq<u8>,
}

impl View for SetDirectory {
    type V = SetDirectoryModel;

    open spec fn view(&self) -> SetDirectoryModel {
        SetDirectoryModel { dirname: self.dirname@ }
    }
}

pub open spec fn set_directory_fits(m: SetDirectoryModel) -> bool {
    m.dirname.len() <= 64
}

pub open spec fn set_directory_layout(m: SetDirectoryModel) -> Seq<u8> {
    fixed(m.dirname, 64)
}

pub open spec fn set_directory_parse(b: Seq<u8>) -> SetDirectoryModel {
    SetDirectoryModel { dirname: b.subrange(0, 64) }
}

impl SetDirectory {
    /// Writes the name; one over 64 bytes is refused and nothing is written.
    pub fn serialize(&self, out: &mut Vec<u8>) -> (r: Result<(), CodecError>)
        ensures
            r is Ok <==> set_directory_fits(self@),
            r is Err ==> r == Err::<(), CodecError>(CodecError::InvalidInput) && final(out)@
                == old(out)@,
            r is Ok ==> final(out)@ == old(out)@ + set_directory_layout(self@),
    {
        if self.dirname.len() > 64 {
            return Err(CodecError::InvalidInput);
        }
        push_fixed(out, self.dirname.as_slice(), 64);
        Ok(())
    }

    pub fn deserialize(body: &[u8]) -> (r: Result<SetDirectory, CodecError>)
        ensures
            body@.len() < 64 ==> r is Err && r->Err_0 == CodecError::UnexpectedEof,
            body@.len() >= 64 ==> r is Ok && r->Ok_0@ == set_directory_parse(body@),
    {
        if body.len() < 64 {
            return Err(CodecError::UnexpectedEof);
        }
        Ok(SetDirectory { dirname: copy_range(body, 0, 64) })
    }
}

// ---- FileInfo -------------------------------------------------------------

/// Asks about one file; the name takes a field of 32 bytes.
#[derive(Clone, Debug)]
pub struct FileInfo {
    pub patch_id: u32,
    pub filename: Vec<u8>,
}

pub struct FileInfoModel {
    pub patch_id: u32,
    pub filename: Seq<u8>,
}

impl View for FileInfo {
    type V = FileInfoModel;

    open spec fn view(&self) -> FileInfoModel {
        FileInfoModel { patch_id: self.patch_id, filename: self.filename@ }
    }
}

pub open spec fn file_info_fits(m: FileInfoModel) -> bool {
    m.filename.len() <= 32
}

pub open spec fn file_info_layout(m: FileInfoModel) -> Seq<u8> {
    le32(m.patch_id) + fixed(m.filename, 32)
}

pub open spec fn file_info_parse(b: Seq<u8>) -> FileInfoModel {
    FileInfoModel { patch_id: read_le32(b, 0), filename: b.subrange(4, 36) }
}

impl FileInfo {
    /// Writes the request; a name over 32 bytes is refused and nothing is written.
    pub fn serialize(&self, out: &mut Vec<u8>) -> (r: Result<(), CodecError>)
        ensures
            r is Ok <==> file_info_fits(self@),
            r is Err ==> r == Err::<(), CodecError>(CodecError::InvalidInput) && final(out)@
                == old(out)@,
            r is Ok ==> final(out)@ == old(out)@ + file_info_layout(self@),
    {
        if self.filename.len() > 32 {
            return Err(CodecError::InvalidInput);
        }
        let ghost start = out@;
        push_le32(out, self.patch_id);
        push_fixed(out, self.filename.as_slice(), 32);
        assert(out@ =~= start + file_info_layout(self@));
        Ok(())
    }

    pub fn deserialize(body: &[u8]) -> (r: Result<FileInfo, CodecError>)
        ensures
            body@.len() < 36 ==> r is Err && r->Err_0 == CodecError::UnexpectedEof,
            body@.len() >= 36 ==> r is Ok && r->Ok_0@ == file_info_parse(body@),
    {
        if body.len() < 36 {
            return Err(CodecError::UnexpectedEof);
        }
        Ok(FileInfo { patch_id: get_le32(body, 0), filename: copy_range(body, 4, 32) })
    }
}

// ---- FileInfoReply --------------------------------------------------------

/// The client's checksum and size of one file.
#[derive(Clone, Copy, Debug, PartialEq, Eq, Structural)]
pub struct FileInfoReply {
    pub patch_id: u32,
    pub checksum: u32,
    pub size: u32,
}

pub open spec fn file_info_reply_layout(d: FileInfoReply) -> Seq<u8> {
    le32(d.patch_id) + le32(d.checksum) + le32(d.size)
}

pub open spec fn file_info_reply_parse(b: Seq<u8>) -> FileInfoReply {
    FileInfoReply { patch_id: read_le32(b, 0), checksum: read_le32(b, 4), size: read_le32(b, 8) }
}

impl FileInfoReply {
    pub fn serialize(&self, out: &mut Vec<u8>)
        ensures
            final(out)@ == old(out)@ + file_info_reply_layout(*self),
    {
        let ghost start = out@;
        push_le32(out, self.patch_id);
        push_le32(out, self.checksum);
        push_le32(out, self.size);
        assert(out@ =~= start + file_info_reply_layout(*self));
    }

    pub fn deserialize(body: &[u8]) -> (r: Result<FileInfoReply, CodecError>)
        ensures
            body@.len() < 12 ==> r == Err::<FileInfoReply, CodecError>(CodecError::UnexpectedEof),
            body@.len() >= 12 ==> r == Ok::<FileInfoReply, CodecError>(
                file_info_reply_parse(body@),
            ),
    {
        if body.len() < 12 {
            return Err(CodecError::UnexpectedEof);
        }
        Ok(FileInfoReply {
            patch_id: get_le32(body, 0),
            checksum: get_le32(body, 4),
            size: get_le32(body, 8),
        })
    }
}

// ---- SendInfo -------------------------------------------------------------

/// The totals of an update that is about to be sent.
#[derive(Clone, Copy, Debug, PartialEq, Eq, Structural)]
pub struct SendInfo {
    pub total_length: u32,
    pub total_files: u32,
}

pub open spec fn send_info_layout(d: SendInfo) -> Seq<u8> {
    le32(d.total_length) + le32(d.total_files)
}

pub open spec fn send_info_parse(b: Seq<u8>) -> SendInfo {
    SendInfo { total_length: read_le32(b, 0), total_files: read_le32(b, 4) }
}

impl SendInfo {
    pub fn serialize(&self, out: &mut Vec<u8>)
        ensures
            final(out)@ == old(out)@ + send_info_layout(*self),
    {
        let ghost start = out@;
        push_le32(out, self.total_length);
        push_le32(out, self.total_files);
        assert(out@ =~= start + send_info_layout(*self));
    }

    pub fn deserialize(body: &[u8]) -> (r: Result<SendInfo, CodecError>)
        ensures
            body@.len() < 8 ==> r == Err::<SendInfo, CodecError>(CodecError::UnexpectedEof),
            body@.len() >= 8 ==> r == Ok::<SendInfo, CodecError>(send_info_parse(body@)),
    {
        if body.len() < 8 {
            return Err(CodecError::UnexpectedEof);
        }
        Ok(SendInfo { total_length: get_le32(body, 0), total_files: get_le32(body, 4) })
    }
}

// ---- Motd -----------------------------------------------------------------

/// The message of the day, sent as UTF-16 little-endian text.
#[derive(Clone, Debug)]
pub struct Motd {
    pub message: String,
}

pub struct MotdModel {
    pub message: Seq<char>,
}

impl View for Motd {
    type V = MotdModel;

    open spec fn view(&self) -> MotdModel {
        MotdModel { message: self.message@ }
    }
}

/// The text's UTF-16 bytes, with one zero byte added to an odd count.
pub open spec fn motd_layout(m: MotdModel) -> Seq<u8> {
    let t = utf16le(m.message);
    if t.len() % 2 == 1 {
        t.push(0u8)
    } else {
        t
    }
}

/// The text that the UTF-16 bytes `u` encode, where they encode one.
pub open spec fn text_of(u: Seq<u8>) -> Seq<char> {
    if exists|s: Seq<char>| utf16le(s) == u {
        choose|s: Seq<char>| utf16le(s) == u
    } else {
        utf16le_decoded(u)
    }
}

/// The text of the body's even-length prefix.
pub open spec fn motd_parse(b: Seq<u8>) -> MotdModel {
    MotdModel { message: text_of(b.subrange(0, b.len() - b.len() % 2)) }
}

impl Motd {
    pub fn serialize(&self, out: &mut Vec<u8>) -> (r: Result<(), CodecError>)
        ensures
            r is Ok,
            final(out)@ == old(out)@ + motd_layout(self@),
    {
        let t = match encode_utf16le(self.message.as_str()) {
            Some(t) => t,
            None => {
                return Err(CodecError::Encoding);
            },
        };
        let ghost start = out@;
        let n = t.len();
        push_fixed(out, t.as_slice(), n);
        assert(fixed(t@, n as nat) =~= t@);
        if n % 2 == 1 {
            out.push(0u8);
        }
        assert(out@ =~= start + motd_layout(self@));
        Ok(())
    }

    pub fn deserialize(body: &[u8]) -> (r: Motd)
        ensures
            r@ == motd_parse(body@),
    {
        let even = body.len() - body.len() % 2;
        let units = copy_range(body, 0, even);
        assert(units@ == body@.subrange(0, body@.len() - body@.len() % 2));
        match decode_utf16le(units.as_slice()) {
            Some(message) => Motd { message },
            None => Motd { message: String::new() },
        }
    }
}

// ---- Redirect -------------------------------------------------------------

/// Sends the client to an IPv4 address and port, both in network order.
#[derive(Clone, Copy, Debug, PartialEq, Eq, Structural)]
pub struct Redirect {
    pub ip_addr: u32,
    pub port: u16,
}

pub open spec fn redirect_layout(d: Redirect) -> Seq<u8> {
    be32(d.ip_addr) + be16(d.port) + zeros(2)
}

pub open spec fn redirect_parse(b: Seq<u8>) -> Redirect {
    Redirect { ip_addr: read_be32(b, 0), port: read_be16(b, 4) }
}

impl Redirect {
    pub fn serialize(&self, out: &mut Vec<u8>)
        ensures
            final(out)@ == old(out)@ + redirect_layout(*self),
    {
        let ghost start = out@;
        push_be32(out, self.ip_addr);
        push_be16(out, self.port);
        push_zeros(out, 2);
        assert(out@ =~= start + redirect_layout(*self));
    }

    pub fn deserialize(body: &[u8]) -> (r: Result<Redirect, CodecError>)
        ensures
            body@.len() < 8 ==> r == Err::<Redirect, CodecError>(CodecError::UnexpectedEof),
            body@.len() >= 8 ==> r == Ok::<Redirect, CodecError>(redirect_parse(body@)),
    {
        if body.len() < 8 {
            return Err(CodecError::UnexpectedEof);
        }
        Ok(Redirect { ip_addr: get_be32(body, 0), port: get_be16(body, 4) })
    }
}

// ---- Redirect6 ------------------------------------------------------------

/// Sends the client to an IPv6 address (a field of 16 bytes) and a port in
/// network order.
#[derive(Clone, Debug)]
pub struct Redirect6 {
    pub ip_addr: Vec<u8>,
    pub port: u16,
}

pub struct Redirect6Model {
    pub ip_addr: Seq<u8>,
    pub port: u16,
}

impl View for Redirect6 {
    type V = Redirect6Model;

    open spec fn view(&self) -> Redirect6Model {
        Redirect6Model { ip_addr: self.ip_addr@, port: self.port }
    }
}

pub open spec fn redirect6_fits(m: Redirect6Model) -> bool {
    m.ip_addr.len() <= 16
}

pub open spec fn redirect6_layout(m: Redirect6Model) -> Seq<u8> {
    fixed(m.ip_addr, 16) + be16(m.port) + zeros(2)
}

pub open spec fn redirect6_parse(b: Seq<u8>) -> Redirect6Model {
    Redirect6Model { ip_addr: b.subrange(0, 16), port: read_be16(b, 16) }
}

impl Redirect6 {
    /// Writes the address; one over 16 bytes is refused and nothing is written.
    pub fn serialize(&self, out: &mut Vec<u8>) -> (r: Result<(), CodecError>)
        ensures
            r is Ok <==> redirect6_fits(self@),
            r is Err ==> r == Err::<(), CodecError>(CodecError::InvalidInput) && final(out)@
                == old(out)@,
            r is Ok ==> final(out)@ == old(out)@ + redirect6_layout(self@),
    {
        if self.ip_addr.len() > 16 {
            return Err(CodecError::InvalidInput);
        }
        let ghost start = out@;
        push_fixed(out, self.ip_addr.as_slice(), 16);
        push_be16(out, self.port);
        push_zeros(out, 2);
        assert(out@ =~= start + redirect6_layout(self@));
        Ok(())
    }

    pub fn deserialize(body: &[u8]) -> (r: Result<Redirect6, CodecError>)
        ensures
            body@.len() < 20 ==> r is Err && r->Err_0 == CodecError::UnexpectedEof,
            body@.len() >= 20 ==> r is Ok && r->Ok_0@ == redirect6_parse(body@),
    {
        if body.len() < 20 {
            return Err(CodecError::UnexpectedEof);
        }
        Ok(Redirect6 { ip_addr: copy_range(body, 0, 16), port: get_be16(body, 16) })
    }
}

// ---- Layouts read back --------------------------------------------------

pub proof fn lemma_welcome_layout(w: Welcome)
    ensures
        welcome_layout(w).len() == 72,
        welcome_parse(welcome_layout(w)) == w,
{
    let s = welcome_layout(w);
    assert(s.subrange(64, 68) =~= le32(w.server_vector));
    assert(s.subrange(68, 72) =~= le32(w.client_vector));
    lemma_read_le32_at(s, 64, w.server_vector);
    lemma_read_le32_at(s, 68, w.client_vector);
}

pub proof fn lemma_login_layout(m: LoginModel)
    requires
        login_fits(m),
    ensures
        login_layout(m).len() == 108,
        login_parse(login_layout(m)) == (LoginModel {
            username: fixed(m.username, 16),
            password: fixed(m.password, 16),
        }),
{
    let s = login_layout(m);
    assert(s.subrange(12, 28) =~= fixed(m.username, 16));
    assert(s.subrange(28, 44) =~= fixed(m.password, 16));
}

pub proof fn lemma_file_send_layout(m: FileSendModel)
    requires
        file_send_fits(m),
    ensures
        file_send_layout(m).len() == 56,
        file_send_parse(file_send_layout(m)) == (FileSendModel {
            size: m.size,
            filename: fixed(m.filename, 48),
        }),
{
    let s = file_send_layout(m);
    assert(s.subrange(4, 8) =~= le32(m.size));
    lemma_read_le32_at(s, 4, m.size);
    assert(s.subrange(8, 56) =~= fixed(m.filename, 48));
}

pub proof fn lemma_data_send_layout(d: DataSend)
    ensures
        data_send_layout(d).len() == 12,
        data_send_parse(data_send_layout(d)) == d,
{
    let s = data_send_layout(d);
    assert(s.subrange(0, 4) =~= le32(d.chunk_num));
    assert(s.subrange(4, 8) =~= le32(d.checksum));
    assert(s.subrange(8, 12) =~= le32(d.chunk_size));
    lemma_read_le32_at(s, 0, d.chunk_num);
    lemma_read_le32_at(s, 4, d.checksum);
    lemma_read_le32_at(s, 8, d.chunk_size);
}

pub proof fn lemma_file_done_layout(d: FileDone)
    ensures
        file_done_layout(d).len() == 4,
        file_done_parse(file_done_layout(d)) == d,
{
    let s = file_done_layout(d);
    assert(s.subrange(0, 4) =~= le32(d.padding));
    lemma_read_le32_at(s, 0, d.padding);
}

pub proof fn lemma_set_directory_layout(m: SetDirectoryModel)
    requires
        set_directory_fits(m),
    ensures
        set_directory_layout(m).len() == 64,
        set_directory_parse(set_directory_layout(m)) == (SetDirectoryModel {
            dirname: fixed(m.dirname, 64),
        }),
{
    assert(set_directory_layout(m).subrange(0, 64) =~= fixed(m.dirname, 64));
}

pub proof fn lemma_file_info_layout(m: FileInfoModel)
    requires
        file_info_fits(m),
    ensures
        file_info_layout(m).len() == 36,
        file_info_parse(file_info_layout(m)) == (FileInfoModel {
            patch_id: m.patch_id,
            filename: fixed(m.filename, 32),
        }),
{
    let s = file_info_layout(m);
    assert(s.subrange(0, 4) =~= le32(m.patch_id));
    lemma_read_le32_at(s, 0, m.patch_id);
    assert(s.subrange(4, 36) =~= fixed(m.filename, 32));
}

pub proof fn lemma_file_info_reply_layout(d: FileInfoReply)
    ensures
        file_info_reply_layout(d).len() == 12,
        file_info_reply_parse(file_info_reply_layout(d)) == d,
{
    let s = file_info_reply_layout(d);
    assert(s.subrange(0, 4) =~= le32(d.patch_id));
    assert(s.subrange(4, 8) =~= le32(d.checksum));
    assert(s.subrange(8, 12) =~= le32(d.size));
    lemma_read_le32_at(s, 0, d.patch_id);
    lemma_read_le32_at(s, 4, d.checksum);
    lemma_read_le32_at(s, 8, d.size);
}

pub proof fn lemma_send_info_layout(d: SendInfo)
    ensures
        send_info_layout(d).len() == 8,
        send_info_parse(send_info_layout(d)) == d,
{
    let s = send_info_layout(d);
    assert(s.subrange(0, 4) =~= le32(d.total_length));
    assert(s.subrange(4, 8) =~= le32(d.total_files));
    lemma_read_le32_at(s, 0, d.total_length);
    lemma_read_le32_at(s, 4, d.total_files);
}

pub proof fn lemma_redirect_layout(d: Redirect)
    ensures
        redirect_layout(d).len() == 8,
        redirect_parse(redirect_layout(d)) == d,
{
    let s = redirect_layout(d);
    assert(s.subrange(0, 4) =~= be32(d.ip_addr));
    assert(s.subrange(4, 6) =~= be16(d.port));
    lemma_read_be32_at(s, 0, d.ip_addr);
    lemma_read_be16_at(s, 4, d.port);
}

pub proof fn lemma_redirect6_layout(m: Redirect6Model)
    requires
        redirect6_fits(m),
    ensures
        redirect6_layout(m).len() == 20,
        redirect6_parse(redirect6_layout(m)) == (Redirect6Model {
            ip_addr: fixed(m.ip_addr, 16),
            port: m.port,
        }),
{
    let s = redirect6_layout(m);
    assert(s.subrange(0, 16) =~= fixed(m.ip_addr, 16));
    assert(s.subrange(16, 18) =~= be16(m.port));
    lemma_read_be16_at(s, 16, m.port);
}

} // verus!
