//! DISCONNECT: client is disconnecting.
use vstd::prelude::*;

verus! {

use crate::control::fixed_header::FixedHeader;
use crate::control::packet_type::{ControlType, PacketType};
use crate::packet::{EncodablePacket, DecodablePacket, PacketError};

/// `DISCONNECT` packet: the client's final packet, with no variable header and no payload.
#[derive(Debug, Eq, PartialEq, Clone, Structural)]
pub struct DisconnectPacket {}

/// What decoding a DISCONNECT body yields: the packet has no fields, so decoding
/// always succeeds.
pub open spec fn sp_disconnect(s: Seq<u8>, pos: int, end: int) -> Result<DisconnectPacket, PacketError<()>> {
    Ok(DisconnectPacket {})
}

impl DisconnectPacket {
    pub fn new() -> (r: DisconnectPacket)
        ensures
            r == (DisconnectPacket {}),
    {
        DisconnectPacket {}
    }

    /// Reads a DISCONNECT body, which holds nothing.
    pub fn decode_body(buf: &Vec<u8>, pos: usize, end: usize) -> (r: Result<
        DisconnectPacket,
        PacketError<()>,
    >)
        requires
            pos <= end <= buf@.len(),
        ensures
            r == sp_disconnect(buf@, pos as int, end as int),
    {
        Ok(DisconnectPacket {})
    }
}

impl Default for DisconnectPacket {
    fn default() -> (r: DisconnectPacket)
        ensures
            r == (DisconnectPacket {}),
    {
        DisconnectPacket {}
    }
}

impl EncodablePacket for DisconnectPacket {
    open spec fn body_enc(&self) -> Seq<u8> {
        Seq::<u8>::empty()
    }

    open spec fn packet_wf(&self) -> bool {
        true
    }

    open spec fn spec_packet_type(&self) -> PacketType {
        PacketType { typ: ControlType::Disconnect, fl: 0 }
    }

    fn packet_type(&self) -> PacketType {
        PacketType::with_default(ControlType::Disconnect)
    }

    fn encode_packet(&self, buf: &mut Vec<u8>) {
        assert(buf@ =~= old(buf)@ + self.body_enc());
    }

    fn encoded_packet_length(&self) -> u32 {
        0
    }
}

impl DecodablePacket for DisconnectPacket {
    type DecodePacketError = ();

    fn decode_packet(buf: &Vec<u8>, pos: usize, end: usize, _fixed_header: FixedHeader) -> Result<
        DisconnectPacket,
        PacketError<()>,
    > {
        DisconnectPacket::decode_body(buf, pos, end)
    }
}

} // verus!
