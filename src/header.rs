use vstd::prelude::*;

use crate::error::Error;
use crate::{
    CHECKSUM_SIZE, HEADER_TOTAL_MIN_SIZE, OFFSET_CLASS, OFFSET_ID, OFFSET_LENGTH, OFFSET_PAYLOAD,
    SYNC_CHAR_1, SYNC_CHAR_2,
};

verus! {

/// The fixed fields of a frame, together with the two checksum bytes that
/// follow its payload.
#[derive(Debug, Default, Clone, Copy, PartialEq, Eq)]
pub struct PacketHeader {
    /// The two sync characters, 0xB5 0x62.
    pub header: [u8; 2],
    /// Message class: the basic subset the message belongs to.
    pub class: u8,
    /// Message id within its class.
    pub id: u8,
    /// Number of payload bytes; sync characters, class, id, the length field
    /// itself and the checksum are not counted.
    pub length: u16,
    /// First checksum byte, found right after the payload.
    pub ck_a: u8,
    /// Second checksum byte.
    pub ck_b: u8,
}

/// The unsigned 16-bit value whose little-endian bytes are `lo`, `hi`.
pub open spec fn le_u16(lo: u8, hi: u8) -> int {
    lo as int + 256 * (hi as int)
}

/// Whether the buffer starts with the two sync characters.
pub open spec fn has_signature(data: Seq<u8>) -> bool {
    &&& data.len() >= 2
    &&& data[0] == SYNC_CHAR_1
    &&& data[1] == SYNC_CHAR_2
}

/// The payload length that the buffer's length field declares.
pub open spec fn declared_length(data: Seq<u8>) -> int
    recommends
        data.len() > OFFSET_LENGTH + 1,
{
    le_u16(data[OFFSET_LENGTH as int], data[OFFSET_LENGTH + 1])
}

/// Total size of a frame whose payload has `length` bytes.
pub open spec fn frame_size(length: int) -> int {
    OFFSET_PAYLOAD + length + CHECKSUM_SIZE
}

/// The error that decoding a header from `data` reports, if any.
pub open spec fn header_error(data: Seq<u8>) -> Option<Error> {
    if data.len() <= HEADER_TOTAL_MIN_SIZE {
        Some(Error::HeaderTooSmall)
    } else if !has_signature(data) {
        Some(Error::BadSignature)
    } else if data.len() < frame_size(declared_length(data)) {
        Some(Error::BufferTooShort)
    } else {
        None
    }
}

/// The header read from a buffer that `header_error` accepts.
pub open spec fn header_fields(data: Seq<u8>) -> PacketHeader {
    let length = declared_length(data);
    PacketHeader {
        header: [data[0], data[1]],
        class: data[OFFSET_CLASS as int],
        id: data[OFFSET_ID as int],
        length: length as u16,
        ck_a: data[OFFSET_PAYLOAD + length],
        ck_b: data[OFFSET_PAYLOAD + length + 1],
    }
}

/// What decoding a header from `data` gives.
pub open spec fn decode_header(data: Seq<u8>) -> Result<PacketHeader, Error> {
    match header_error(data) {
        Some(e) => Err(e),
        None => Ok(header_fields(data)),
    }
}

impl PacketHeader {
    /// Decodes the header of the frame that starts at `data[0]`.
    ///
    /// Fails with `HeaderTooSmall` when `data` holds no more than
    /// `HEADER_TOTAL_MIN_SIZE` bytes, with `BadSignature` when it does not
    /// start with the sync characters, and with `BufferTooShort` when the
    /// checksum bytes that the length field points to lie past its end.
    /// Bytes after the checksum are ignored.
    pub fn from(data: &[u8]) -> (r: Result<PacketHeader, Error>)
        ensures
            r == decode_header(data@),
    {
        if data.len() <= HEADER_TOTAL_MIN_SIZE {
            return Err(Error::HeaderTooSmall);
        }
        if data[0] != SYNC_CHAR_1 || data[1] != SYNC_CHAR_2 {
            return Err(Error::BadSignature);
        }
        let length: u16 = data[OFFSET_LENGTH] as u16 + (data[OFFSET_LENGTH + 1] as u16) * 256;
        let length_usize: usize = length as usize;
        if data.len() - OFFSET_PAYLOAD - CHECKSUM_SIZE < length_usize {
            return Err(Error::BufferTooShort);
        }
        Ok(PacketHeader {
            header: [data[0], data[1]],
            class: data[OFFSET_CLASS],
            id: data[OFFSET_ID],
            length,
            ck_a: data[OFFSET_PAYLOAD + length_usize],
            ck_b: data[OFFSET_PAYLOAD + length_usize + 1],
        })
    }
}

/// A buffer longer than the minimum frame size that does not start with the
/// sync characters is refused with `BadSignature`, whatever follows.
pub proof fn lemma_bad_signature(data: Seq<u8>)
    requires
        data.len() > HEADER_TOTAL_MIN_SIZE,
        data[0] != SYNC_CHAR_1 || data[1] != SYNC_CHAR_2,
    ensures
        decode_header(data) == Err::<PacketHeader, Error>(Error::BadSignature),
{
}

/// A buffer of at most the minimum frame size is refused with
/// `HeaderTooSmall`.
pub proof fn lemma_header_too_small(data: Seq<u8>)
    requires
        data.len() <= HEADER_TOTAL_MIN_SIZE,
    ensures
        decode_header(data) == Err::<PacketHeader, Error>(Error::HeaderTooSmall),
{
}

} // verus!
