//! The 4-byte frame header: total length and message type, little-endian.

use vstd::prelude::*;
use crate::bytes::{get_le16, le16, push_le16, read_le16};
use crate::cipher::Cipher;
use crate::error::CodecError;

verus! {

/// A decoded header. `len` counts the body alone; the wire carries `len + 4`.
#[derive(Clone, Copy, Debug, PartialEq, Eq, Structural)]
pub struct MsgHeader {
    pub len: u32,
    pub msg_type: u32,
    pub flags: u32,
}

/// Whether both fields fit their 16-bit wire slots.
pub open spec fn header_fits(h: MsgHeader) -> bool {
    h.len + 4 <= 0xFFFF && h.msg_type <= 0xFFFF
}

pub open spec fn header_layout(h: MsgHeader) -> Seq<u8> {
    le16((h.len + 4) as u16) + le16(h.msg_type as u16)
}

pub open spec fn header_parse(b: Seq<u8>) -> Result<MsgHeader, CodecError> {
    if b.len() < 4 {
        Err(CodecError::UnexpectedEof)
    } else if read_le16(b, 0) < 4 {
        Err(CodecError::InvalidData)
    } else {
        Ok(MsgHeader { len: (read_le16(b, 0) - 4) as u32, msg_type: read_le16(b, 2) as u32, flags: 0 })
    }
}

/// Reads and writes the header of the patch protocol.
#[derive(Clone, Copy, Debug, PartialEq, Eq, Structural)]
pub struct HdrSerializer;

impl HdrSerializer {
    /// Interprets the first four bytes of `src` as a header.
    pub fn hdr_deserialize(src: &[u8]) -> (r: Result<MsgHeader, CodecError>)
        ensures
            r == header_parse(src@),
    {
        if src.len() < 4 {
            return Err(CodecError::UnexpectedEof);
        }
        let total = get_le16(src, 0);
        if total < 4 {
            return Err(CodecError::InvalidData);
        }
        Ok(MsgHeader { len: (total - 4) as u32, msg_type: get_le16(src, 2) as u32, flags: 0 })
    }

    /// The four header bytes of `value`; a field too wide for the wire is refused.
    pub fn hdr_serialize(value: &MsgHeader) -> (r: Result<Vec<u8>, CodecError>)
        ensures
            r is Ok <==> header_fits(*value),
            r is Err ==> r->Err_0 == CodecError::InvalidInput,
            r is Ok ==> r->Ok_0@ == header_layout(*value),
    {
        if value.len > 0xFFFB || value.msg_type > 0xFFFF {
            return Err(CodecError::InvalidInput);
        }
        let mut out: Vec<u8> = Vec::new();
        push_le16(&mut out, (value.len + 4) as u16);
        push_le16(&mut out, value.msg_type as u16);
        assert(out@ =~= header_layout(*value));
        Ok(out)
    }

    /// Decrypts the first four bytes of `src`, then interprets them.
    pub fn hdr_deserialize_with<C: Cipher>(src: &[u8], decryptor: &mut C) -> (r: Result<
        MsgHeader,
        CodecError,
    >)
        ensures
            src@.len() < 4 ==> r == Err::<MsgHeader, CodecError>(CodecError::UnexpectedEof),
            old(decryptor).is_identity() ==> r == header_parse(src@) && final(decryptor).is_identity(),
            r is Ok ==> header_fits(r->Ok_0) && r->Ok_0.flags == 0,
            r is Ok ==> exists|d: Seq<u8>| d.len() == 4 && r == header_parse(d),
    {
        if src.len() < 4 {
            return Err(CodecError::UnexpectedEof);
        }
        let raw = crate::bytes::copy_range(src, 0, 4);
        let plain = match decryptor.decrypt(raw.as_slice()) {
            Ok(p) => p,
            Err(_) => {
                return Err(CodecError::Crypto);
            },
        };
        if plain.len() != 4 {
            return Err(CodecError::Crypto);
        }
        proof {
            if old(decryptor).is_identity() {
                assert(plain@ =~= src@.subrange(0, 4));
            }
        }
        Self::hdr_deserialize(plain.as_slice())
    }

    /// The header bytes of `value`, encrypted.
    pub fn hdr_serialize_with<C: Cipher>(value: &MsgHeader, encryptor: &mut C) -> (r: Result<
        Vec<u8>,
        CodecError,
    >)
        ensures
            !header_fits(*value) ==> r == Err::<Vec<u8>, CodecError>(CodecError::InvalidInput),
            old(encryptor).is_identity() ==> final(encryptor).is_identity() && (r is Ok
                <==> header_fits(*value)) && (r is Ok ==> r->Ok_0@ == header_layout(*value)),
            r is Ok ==> r->Ok_0@.len() == 4,
    {
        let plain = Self::hdr_serialize(value)?;
        let sealed = match encryptor.encrypt(plain.as_slice()) {
            Ok(e) => e,
            Err(_) => {
                return Err(CodecError::Crypto);
            },
        };
        if sealed.len() != 4 {
            return Err(CodecError::Crypto);
        }
        Ok(sealed)
    }
}

} // verus!
