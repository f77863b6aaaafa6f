//! Laws of the codec, stated over the models of the registry.

use vstd::prelude::*;
use crate::bytes::{fixed, le16, lemma_read_le16_at, read_le16, zeros};
use crate::header::{MsgHeader, header_fits, header_layout, header_parse};
use crate::payload::{
    MotdModel, lemma_data_send_layout, lemma_file_done_layout, lemma_file_info_layout,
    lemma_file_info_reply_layout, lemma_file_send_layout, lemma_login_layout,
    lemma_redirect6_layout, lemma_redirect_layout, lemma_send_info_layout,
    lemma_set_directory_layout, lemma_welcome_layout, motd_layout, motd_parse, text_of,
};
use crate::registry::{
    MOTD, MessageModel, bare, body_of, canonical, code_of, decode_body, decode_frame_spec,
    fits, fixed_size, frame_fits, frame_of, is_registered, normalized, pad_len, padded,
    padded_body,
};
use crate::text::{lemma_utf16le_even, lemma_utf16le_injective, utf16le};

verus! {

/// Padding is reached in one step: a padded length is padded already, and
/// it is even for the message of the day and a multiple of four otherwise.
pub proof fn lemma_pad_len(c: u16, n: nat)
    ensures
        pad_len(c, n) >= n,
        pad_len(c, n) < n + 4,
        c == MOTD ==> pad_len(c, n) % 2 == 0,
        c != MOTD ==> pad_len(c, n) % 4 == 0,
        pad_len(c, pad_len(c, n)) == pad_len(c, n),
        c == MOTD && n % 2 == 0 ==> pad_len(c, n) == n,
        n % 4 == 0 ==> pad_len(c, n) == n,
{
}

/// Whatever a header holds, once within its 16-bit fields, reads back unchanged.
pub proof fn lemma_header_round_trip(h: MsgHeader)
    requires
        header_fits(h),
        h.flags == 0,
    ensures
        header_layout(h).len() == 4,
        read_le16(header_layout(h), 0) == h.len + 4,
        header_parse(header_layout(h)) == Ok::<MsgHeader, crate::error::CodecError>(h),
{
    let s = header_layout(h);
    assert(s.subrange(0, 2) =~= le16((h.len + 4) as u16));
    assert(s.subrange(2, 4) =~= le16(h.msg_type as u16));
    lemma_read_le16_at(s, 0, (h.len + 4) as u16);
    lemma_read_le16_at(s, 2, h.msg_type as u16);
}

/// A frame's length field counts the padded body and the header; read
/// back, the header announces exactly the padded body, which is even for
/// the message of the day and a multiple of four for every other kind.
pub proof fn lemma_frame_header(m: MessageModel)
    requires
        frame_fits(m),
    ensures
        read_le16(frame_of(m), 0) == padded_body(m).len() + 4,
        header_parse(frame_of(m)) == Ok::<MsgHeader, crate::error::CodecError>(
            MsgHeader { len: padded_body(m).len() as u32, msg_type: code_of(m) as u32, flags: 0 },
        ),
        code_of(m) == MOTD ==> padded_body(m).len() % 2 == 0,
        code_of(m) != MOTD ==> padded_body(m).len() % 4 == 0,
        frame_of(m).subrange(4, frame_of(m).len() as int) == padded_body(m),
{
    let f = frame_of(m);
    let pb = padded_body(m);
    lemma_pad_len(code_of(m), body_of(m).len());
    assert(f.subrange(0, 2) =~= le16((pb.len() + 4) as u16));
    assert(f.subrange(2, 4) =~= le16(code_of(m)));
    lemma_read_le16_at(f, 0, (pb.len() + 4) as u16);
    lemma_read_le16_at(f, 2, code_of(m));
    assert(f.subrange(4, f.len() as int) =~= pb);
}

/// A decoded text is the text that was encoded.
proof fn lemma_motd_round_trip(t: MotdModel)
    requires
        t.message.len() > 0,
    ensures
        motd_layout(t) == utf16le(t.message),
        motd_layout(t).len() > 0,
        motd_layout(t).len() % 2 == 0,
        motd_parse(motd_layout(t)) == t,
{
    lemma_utf16le_even(t.message);
    let u = utf16le(t.message);
    assert(u.subrange(0, u.len() - u.len() % 2) =~= u);
    assert(exists|s: Seq<char>| utf16le(s) == u);
    let s = choose|s: Seq<char>| utf16le(s) == u;
    lemma_utf16le_injective(s, t.message);
    assert(text_of(u) == t.message);
}

/// An unregistered code keeps its body: decoding gives the bytes back as
/// they came, and encoding that message writes them again unchanged.
pub proof fn lemma_unknown_preserved(c: u16, b: Seq<u8>)
    requires
        !is_registered(c),
        b.len() > 0,
    ensures
        decode_body(c, b) == Ok::<MessageModel, crate::error::CodecError>(
            MessageModel::Unknown(c, Some(b)),
        ),
        body_of(MessageModel::Unknown(c, Some(b))) == b,
{
}

/// The padded body of a message decodes to the message, normalized.
proof fn lemma_body_round_trip(m: MessageModel)
    requires
        fits(m),
        m is Unknown ==> !is_registered(code_of(m)),
    ensures
        decode_body(code_of(m), padded_body(m)) == Ok::<MessageModel, crate::error::CodecError>(
            normalized(m),
        ),
{
    let c = code_of(m);
    let b = body_of(m);
    lemma_pad_len(c, b.len());
    match m {
        MessageModel::Welcome(Some(p)) => lemma_welcome_layout(p),
        MessageModel::Login(Some(p)) => lemma_login_layout(p),
        MessageModel::FileSend(Some(p)) => lemma_file_send_layout(p),
        MessageModel::DataSend(Some(p)) => lemma_data_send_layout(p),
        MessageModel::FileDone(Some(p)) => lemma_file_done_layout(p),
        MessageModel::SetDirectory(Some(p)) => lemma_set_directory_layout(p),
        MessageModel::FileInfo(Some(p)) => lemma_file_info_layout(p),
        MessageModel::FileInfoReply(Some(p)) => lemma_file_info_reply_layout(p),
        MessageModel::SendInfo(Some(p)) => lemma_send_info_layout(p),
        MessageModel::Redirect(Some(p)) => lemma_redirect_layout(p),
        MessageModel::Redirect6(Some(p)) => lemma_redirect6_layout(p),
        MessageModel::Motd(Some(p)) => {
            if p.message.len() > 0 {
                lemma_motd_round_trip(p);
            } else {
                assert(utf16le(p.message) =~= Seq::<u8>::empty());
            }
        },
        _ => {},
    }
    assert(padded_body(m) =~= b + zeros((pad_len(c, b.len()) - b.len()) as nat));
    if !(m is Unknown) {
        assert(padded_body(m) =~= b);
    }
}

/// Decoding the frame of any message whose fields are within capacity
/// gives the message back, with byte fields zero-filled to their capacity;
/// a message already in that form comes back unchanged. An unknown message
/// must carry a code that no kind is registered under.
pub proof fn lemma_round_trip(m: MessageModel)
    requires
        frame_fits(m),
        m is Unknown ==> !is_registered(code_of(m)),
    ensures
        decode_frame_spec(frame_of(m)) == Ok::<MessageModel, crate::error::CodecError>(
            normalized(m),
        ),
        canonical(m) ==> normalized(m) == m,
{
    let f = frame_of(m);
    let pb = padded_body(m);
    let c = code_of(m);
    lemma_frame_header(m);
    lemma_pad_len(c, body_of(m).len());
    assert(pad_len(c, pb.len()) == pb.len());
    assert(f.subrange(4, 4 + pb.len() as int) =~= pb);
    lemma_body_round_trip(m);
    if canonical(m) {
        match m {
            MessageModel::Unknown(_, Some(b)) => assert(padded(c, b) =~= b),
            MessageModel::Login(Some(p)) => {
                assert(fixed(p.username, 16) =~= p.username);
                assert(fixed(p.password, 16) =~= p.password);
            },
            MessageModel::FileSend(Some(p)) => assert(fixed(p.filename, 48) =~= p.filename),
            MessageModel::SetDirectory(Some(p)) => assert(fixed(p.dirname, 64) =~= p.dirname),
            MessageModel::FileInfo(Some(p)) => assert(fixed(p.filename, 32) =~= p.filename),
            MessageModel::Redirect6(Some(p)) => assert(fixed(p.ip_addr, 16) =~= p.ip_addr),
            _ => {},
        }
    }
}

/// Every message of a kind with a fixed layout has a body of that kind's
/// constant size, unless it travels as a bare header.
pub proof fn lemma_fixed_size(m: MessageModel)
    requires
        fits(m),
        !(m is Unknown),
        fixed_size(code_of(m)) is Some,
    ensures
        m != bare(code_of(m)) ==> body_of(m).len() == fixed_size(code_of(m))->0,
        m == bare(code_of(m)) ==> body_of(m).len() == 0,
{
    match m {
        MessageModel::Welcome(Some(p)) => lemma_welcome_layout(p),
        MessageModel::Login(Some(p)) => lemma_login_layout(p),
        MessageModel::FileSend(Some(p)) => lemma_file_send_layout(p),
        MessageModel::DataSend(Some(p)) => lemma_data_send_layout(p),
        MessageModel::FileDone(Some(p)) => lemma_file_done_layout(p),
        MessageModel::SetDirectory(Some(p)) => lemma_set_directory_layout(p),
        MessageModel::FileInfo(Some(p)) => lemma_file_info_layout(p),
        MessageModel::FileInfoReply(Some(p)) => lemma_file_info_reply_layout(p),
        MessageModel::SendInfo(Some(p)) => lemma_send_info_layout(p),
        MessageModel::Redirect(Some(p)) => lemma_redirect_layout(p),
        MessageModel::Redirect6(Some(p)) => lemma_redirect6_layout(p),
        _ => {},
    }
}

} // verus!
