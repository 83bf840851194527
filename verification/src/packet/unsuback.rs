//! UNSUBACK: unsubscribe acknowledgement.
use vstd::prelude::*;

verus! {

use crate::encodable::{be_u16, sp_u16, write_u16, read_u16};
use crate::control::fixed_header::FixedHeader;
use crate::control::packet_type::{ControlType, PacketType};
use crate::control::variable_header::{PacketIdentifier, VariableHeaderError};
use crate::packet::{EncodablePacket, DecodablePacket, PacketError};

/// `UNSUBACK` packet: acknowledges an unsubscribe request.
#[derive(Debug, Eq, PartialEq, Clone, Structural)]
pub struct UnsubackPacket {
    /// Identifier correlating this packet with its peer.
    pub packet_identifier: PacketIdentifier,
}

/// What decoding a UNSUBACK body yields: its 16-bit packet identifier.
pub open spec fn sp_unsuback(s: Seq<u8>, pos: int, end: int) -> Result<UnsubackPacket, PacketError<()>>
    recommends
        0 <= pos <= end <= s.len(),
{
    match sp_u16(s, pos, end) {
        Ok((v, _)) => Ok(UnsubackPacket { packet_identifier: PacketIdentifier(v) }),
        Err(e) => Err(PacketError::VariableHeaderError(VariableHeaderError::IoError(e))),
    }
}

impl UnsubackPacket {
    pub fn new(pkid: u16) -> (r: UnsubackPacket)
        ensures
            r == (UnsubackPacket { packet_identifier: PacketIdentifier(pkid) }),
    {
        UnsubackPacket { packet_identifier: PacketIdentifier(pkid) }
    }

    pub fn packet_identifier(&self) -> (r: u16)
        ensures
            r == self.packet_identifier.0,
    {
        self.packet_identifier.0
    }

    pub fn set_packet_identifier(&mut self, pkid: u16)
        ensures
            *final(self) == (UnsubackPacket { packet_identifier: PacketIdentifier(pkid) }),
    {
        self.packet_identifier = PacketIdentifier(pkid);
    }

    /// Reads a UNSUBACK body; fails exactly when fewer than two bytes remain.
    pub fn decode_body(buf: &Vec<u8>, pos: usize, end: usize) -> (r: Result<
        UnsubackPacket,
        PacketError<()>,
    >)
        requires
            pos <= end <= buf@.len(),
        ensures
            r == sp_unsuback(buf@, pos as int, end as int),
    {
        match read_u16(buf, pos, end) {
            Ok((v, _)) => Ok(UnsubackPacket { packet_identifier: PacketIdentifier(v) }),
            Err(e) => Err(PacketError::VariableHeaderError(VariableHeaderError::IoError(e))),
        }
    }
}

impl EncodablePacket for UnsubackPacket {
    open spec fn body_enc(&self) -> Seq<u8> {
        be_u16(self.packet_identifier.0)
    }

    open spec fn packet_wf(&self) -> bool {
        true
    }

    open spec fn spec_packet_type(&self) -> PacketType {
        PacketType { typ: ControlType::UnsubscribeAcknowledgement, fl: 0 }
    }

    fn packet_type(&self) -> PacketType {
        PacketType::with_default(ControlType::UnsubscribeAcknowledgement)
    }

    fn encode_packet(&self, buf: &mut Vec<u8>) {
        write_u16(buf, self.packet_identifier.0);
    }

    fn encoded_packet_length(&self) -> u32 {
        2
    }
}

impl DecodablePacket for UnsubackPacket {
    type DecodePacketError = ();

    fn decode_packet(buf: &Vec<u8>, pos: usize, end: usize, _fixed_header: FixedHeader) -> Result<
        UnsubackPacket,
        PacketError<()>,
    > {
        UnsubackPacket::decode_body(buf, pos, end)
    }
}

/// A UNSUBACK body decodes back from its own encoding, whatever follows it.
pub proof fn lemma_sp_unsuback_of_enc(p: UnsubackPacket, s: Seq<u8>, pos: int, end: int)
    requires
        0 <= pos,
        pos + p.body_enc().len() <= end <= s.len(),
        s.subrange(pos, pos + p.body_enc().len()) == p.body_enc(),
    ensures
        sp_unsuback(s, pos, end) == Ok::<UnsubackPacket, PacketError<()>>(p),
{
    crate::encodable::lemma_sp_u16_of_enc(p.packet_identifier.0, s, pos, end);
}

} // verus!
