use vstd::prelude::*;

use crate::error::Error;
use crate::header::{
    decode_header, declared_length, frame_size, has_signature, header_error, PacketHeader,
};
use crate::{CHECKSUM_SIZE, OFFSET_LENGTH, OFFSET_PAYLOAD, SYNC_CHAR_1, SYNC_CHAR_2};

verus! {

/// A decoded frame: its header and a copy of its payload.
///
/// The payload is taken by the declared length: it is the `header.length`
/// bytes from offset `OFFSET_PAYLOAD` on. A buffer that holds bytes after the
/// frame's checksum is refused rather than trusted either way.
#[derive(Debug, Clone, PartialEq, Eq)]
pub struct Packet {
    /// The frame's header.
    pub header: PacketHeader,
    /// The frame's payload bytes, without the checksum.
    pub payload: Vec<u8>,
}

/// The mathematical value of a `Packet`.
pub struct PacketModel {
    pub header: PacketHeader,
    pub payload: Seq<u8>,
}

impl PacketModel {
    /// The payload holds exactly as many bytes as the header declares.
    pub open spec fn wf(self) -> bool {
        self.payload.len() == self.header.length
    }
}

impl View for Packet {
    type V = PacketModel;

    open spec fn view(&self) -> PacketModel {
        PacketModel { header: self.header, payload: self.payload@ }
    }
}

/// The error that decoding a whole frame from `data` reports, if any.
pub open spec fn packet_error(data: Seq<u8>) -> Option<Error> {
    match header_error(data) {
        Some(e) => Some(e),
        None => if data.len() != frame_size(declared_length(data)) {
            Some(Error::TrailingBytes)
        } else {
            None
        },
    }
}

/// The payload bytes of the frame at the start of `data`.
pub open spec fn payload_of(data: Seq<u8>) -> Seq<u8> {
    data.subrange(OFFSET_PAYLOAD as int, OFFSET_PAYLOAD + declared_length(data))
}

/// What decoding a whole frame from `data` gives.
pub open spec fn decode_packet(data: Seq<u8>) -> Result<PacketModel, Error> {
    match packet_error(data) {
        Some(e) => Err(e),
        None => Ok(PacketModel { header: decode_header(data)->Ok_0, payload: payload_of(data) }),
    }
}

/// The model of a decoding result.
pub open spec fn packet_result_view(r: Result<Packet, Error>) -> Result<PacketModel, Error> {
    match r {
        Ok(p) => Ok(p@),
        Err(e) => Err(e),
    }
}

impl Packet {
    /// Decodes the frame that fills `data`.
    ///
    /// Reports the error of `PacketHeader::from` unchanged, and
    /// `TrailingBytes` when `data` is longer than the frame its header
    /// declares. On success the payload is a copy of the declared payload.
    pub fn from(data: &[u8]) -> (r: Result<Packet, Error>)
        ensures
            packet_result_view(r) == decode_packet(data@),
            r matches Ok(p) ==> p@.wf(),
    {
        let header = match PacketHeader::from(data) {
            Ok(h) => h,
            Err(e) => return Err(e),
        };
        let end: usize = OFFSET_PAYLOAD + header.length as usize;
        if data.len() != end + CHECKSUM_SIZE {
            return Err(Error::TrailingBytes);
        }
        let mut payload: Vec<u8> = Vec::with_capacity(header.length as usize);
        let mut i: usize = OFFSET_PAYLOAD;
        while i < end
            invariant
                OFFSET_PAYLOAD <= i <= end,
                end <= data@.len(),
                payload@ == data@.subrange(OFFSET_PAYLOAD as int, i as int),
            decreases end - i,
        {
            payload.push(data[i]);
            i = i + 1;
            assert(payload@ =~= data@.subrange(OFFSET_PAYLOAD as int, i as int));
        }
        Ok(Packet { header, payload })
    }
}

/// The bytes of a frame assembled from its fields: the sync characters, the
/// class, the id, the little-endian payload length, the payload and the two
/// checksum bytes.
pub open spec fn assemble_frame(class: u8, id: u8, length: u16, payload: Seq<u8>, ck_a: u8, ck_b: u8) -> Seq<u8> {
    seq![SYNC_CHAR_1, SYNC_CHAR_2, class, id, (length % 256) as u8, (length / 256) as u8]
        + payload + seq![ck_a, ck_b]
}

/// A buffer that holds exactly one frame with a non-empty payload of length
/// `L`, as its length field declares, decodes, and its payload has `L`
/// bytes. (An empty payload makes an 8-byte frame, which the minimum size
/// refuses.)
pub proof fn lemma_exact_frame_decodes(data: Seq<u8>)
    requires
        data.len() > OFFSET_LENGTH + 1,
        has_signature(data),
        declared_length(data) >= 1,
        data.len() == frame_size(declared_length(data)),
    ensures
        decode_packet(data) is Ok,
        decode_packet(data)->Ok_0.payload.len() == declared_length(data),
        decode_packet(data)->Ok_0.header.length == declared_length(data),
{
}

/// Decoding an assembled frame gives back the fields it was built from.
pub proof fn lemma_assembled_frame_round_trip(
    class: u8,
    id: u8,
    length: u16,
    payload: Seq<u8>,
    ck_a: u8,
    ck_b: u8,
)
    requires
        payload.len() == length,
        length >= 1,
    ensures
        decode_header(assemble_frame(class, id, length, payload, ck_a, ck_b)) == Ok::<
            PacketHeader,
            Error,
        >(PacketHeader { header: [SYNC_CHAR_1, SYNC_CHAR_2], class, id, length, ck_a, ck_b }),
        decode_packet(assemble_frame(class, id, length, payload, ck_a, ck_b)) == Ok::<
            PacketModel,
            Error,
        >(
            PacketModel {
                header: PacketHeader {
                    header: [SYNC_CHAR_1, SYNC_CHAR_2],
                    class,
                    id,
                    length,
                    ck_a,
                    ck_b,
                },
                payload,
            },
        ),
{
    let data = assemble_frame(class, id, length, payload, ck_a, ck_b);
    let l = length as int;
    assert(l == (l % 256) + 256 * (l / 256)) by (nonlinear_arith);
    assert(0 <= l / 256 < 256) by (nonlinear_arith)
        requires
            0 <= l < 65536,
    ;
    assert(declared_length(data) == l);
    assert(data.subrange(OFFSET_PAYLOAD as int, OFFSET_PAYLOAD + l) =~= payload);
    assert(data[OFFSET_PAYLOAD + l] == ck_a);
    assert(data[OFFSET_PAYLOAD + l + 1] == ck_b);
}

/// Decoding is a function of the bytes alone: two buffers with the same
/// contents decode to equal results.
pub proof fn lemma_decode_deterministic(a: Seq<u8>, b: Seq<u8>)
    requires
        a =~= b,
    ensures
        decode_header(a) == decode_header(b),
        decode_packet(a) == decode_packet(b),
{
}

} // verus!
