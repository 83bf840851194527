//! PINGRESP: ping response.
use vstd::prelude::*;

verus! {

use crate::control::fixed_header::FixedHeader;
use crate::control::packet_type::{ControlType, PacketType};
use crate::packet::{EncodablePacket, DecodablePacket, PacketError};

/// `PINGRESP` packet: the answer to a ping request, with no variable header and no payload.
#[derive(Debug, Eq, PartialEq, Clone, Structural)]
pub struct PingrespPacket {}

/// What decoding a PINGRESP body yields: the packet has no fields, so decoding
/// always succeeds.
pub open spec fn sp_pingresp(s: Seq<u8>, pos: int, end: int) -> Result<PingrespPacket, PacketError<()>> {
    Ok(PingrespPacket {})
}

impl PingrespPacket {
    pub fn new() -> (r: PingrespPacket)
        ensures
            r == (PingrespPacket {}),
    {
        PingrespPacket {}
    }

    /// Reads a PINGRESP body, which holds nothing.
    pub fn decode_body(buf: &Vec<u8>, pos: usize, end: usize) -> (r: Result<
        PingrespPacket,
        PacketError<()>,
    >)
        requires
            pos <= end <= buf@.len(),
        ensures
            r == sp_pingresp(buf@, pos as int, end as int),
    {
        Ok(PingrespPacket {})
    }
}

impl Default for PingrespPacket {
    fn default() -> (r: PingrespPacket)
        ensures
            r == (PingrespPacket {}),
    {
        PingrespPacket {}
    }
}

impl EncodablePacket for PingrespPacket {
    open spec fn body_enc(&self) -> Seq<u8> {
        Seq::<u8>::empty()
    }

    open spec fn packet_wf(&self) -> bool {
        true
    }

    open spec fn spec_packet_type(&self) -> PacketType {
        PacketType { typ: ControlType::PingResponse, fl: 0 }
    }

    fn packet_type(&self) -> PacketType {
        PacketType::with_default(ControlType::PingResponse)
    }

    fn encode_packet(&self, buf: &mut Vec<u8>) {
        assert(buf@ =~= old(buf)@ + self.body_enc());
    }

    fn encoded_packet_length(&self) -> u32 {
        0
    }
}

impl DecodablePacket for PingrespPacket {
    type DecodePacketError = ();

    fn decode_packet(buf: &Vec<u8>, pos: usize, end: usize, _fixed_header: FixedHeader) -> Result<
        PingrespPacket,
        PacketError<()>,
    > {
        PingrespPacket::decode_body(buf, pos, end)
    }
}

} // verus!
