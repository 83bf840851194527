//! PINGREQ: ping request.
use vstd::prelude::*;

verus! {

use crate::control::fixed_header::FixedHeader;
use crate::control::packet_type::{ControlType, PacketType};
use crate::packet::{EncodablePacket, DecodablePacket, PacketError};

/// `PINGREQ` packet: a keep-alive probe with no variable header and no payload.
#[derive(Debug, Eq, PartialEq, Clone, Structural)]
pub struct PingreqPacket {}

/// What decoding a PINGREQ body yields: the packet has no fields, so decoding
/// always succeeds.
pub open spec fn sp_pingreq(s: Seq<u8>, pos: int, end: int) -> Result<PingreqPacket, PacketError<()>> {
    Ok(PingreqPacket {})
}

impl PingreqPacket {
    pub fn new() -> (r: PingreqPacket)
        ensures
            r == (PingreqPacket {}),
    {
        PingreqPacket {}
    }

    /// Reads a PINGREQ body, which holds nothing.
    pub fn decode_body(buf: &Vec<u8>, pos: usize, end: usize) -> (r: Result<
        PingreqPacket,
        PacketError<()>,
    >)
        requires
            pos <= end <= buf@.len(),
        ensures
            r == sp_pingreq(buf@, pos as int, end as int),
    {
        Ok(PingreqPacket {})
    }
}

impl Default for PingreqPacket {
    fn default() -> (r: PingreqPacket)
        ensures
            r == (PingreqPacket {}),
    {
        PingreqPacket {}
    }
}

impl EncodablePacket for PingreqPacket {
    open spec fn body_enc(&self) -> Seq<u8> {
        Seq::<u8>::empty()
    }

    open spec fn packet_wf(&self) -> bool {
        true
    }

    open spec fn spec_packet_type(&self) -> PacketType {
        PacketType { typ: ControlType::PingRequest, fl: 0 }
    }

    fn packet_type(&self) -> PacketType {
        PacketType::with_default(ControlType::PingRequest)
    }

    fn encode_packet(&self, buf: &mut Vec<u8>) {
        assert(buf@ =~= old(buf)@ + self.body_enc());
    }

    fn encoded_packet_length(&self) -> u32 {
        0
    }
}

impl DecodablePacket for PingreqPacket {
    type DecodePacketError = ();

    fn decode_packet(buf: &Vec<u8>, pos: usize, end: usize, _fixed_header: FixedHeader) -> Result<
        PingreqPacket,
        PacketError<()>,
    > {
        PingreqPacket::decode_body(buf, pos, end)
    }
}

} // verus!
