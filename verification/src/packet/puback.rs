//! PUBACK: publish acknowledgement.
use vstd::prelude::*;

verus! {

use crate::encodable::{be_u16, sp_u16, write_u16, read_u16};
use crate::control::fixed_header::FixedHeader;
use crate::control::packet_type::{ControlType, PacketType};
use crate::control::variable_header::{PacketIdentifier, VariableHeaderError};
use crate::packet::{EncodablePacket, DecodablePacket, PacketError};

/// `PUBACK` packet: acknowledges a quality-of-service 1 publish.
#[derive(Debug, Eq, PartialEq, Clone, Structural)]
pub struct PubackPacket {
    /// Identifier correlating this packet with its peer.
    pub packet_identifier: PacketIdentifier,
}

/// What decoding a PUBACK body yields: its 16-bit packet identifier.
pub open spec fn sp_puback(s: Seq<u8>, pos: int, end: int) -> Result<PubackPacket, PacketError<()>>
    recommends
        0 <= pos <= end <= s.len(),
{
    match sp_u16(s, pos, end) {
        Ok((v, _)) => Ok(PubackPacket { packet_identifier: PacketIdentifier(v) }),
        Err(e) => Err(PacketError::VariableHeaderError(VariableHeaderError::IoError(e))),
    }
}

impl PubackPacket {
    pub fn new(pkid: u16) -> (r: PubackPacket)
        ensures
            r == (PubackPacket { packet_identifier: PacketIdentifier(pkid) }),
    {
        PubackPacket { packet_identifier: PacketIdentifier(pkid) }
    }

    pub fn packet_identifier(&self) -> (r: u16)
        ensures
            r == self.packet_identifier.0,
    {
        self.packet_identifier.0
    }

    pub fn set_packet_identifier(&mut self, pkid: u16)
        ensures
            *final(self) == (PubackPacket { packet_identifier: PacketIdentifier(pkid) }),
    {
        self.packet_identifier = PacketIdentifier(pkid);
    }

    /// Reads a PUBACK body; fails exactly when fewer than two bytes remain.
    pub fn decode_body(buf: &Vec<u8>, pos: usize, end: usize) -> (r: Result<
        PubackPacket,
        PacketError<()>,
    >)
        requires
            pos <= end <= buf@.len(),
        ensures
            r == sp_puback(buf@, pos as int, end as int),
    {
        match read_u16(buf, pos, end) {
            Ok((v, _)) => Ok(PubackPacket { packet_identifier: PacketIdentifier(v) }),
            Err(e) => Err(PacketError::VariableHeaderError(VariableHeaderError::IoError(e))),
        }
    }
}

impl EncodablePacket for PubackPacket {
    open spec fn body_enc(&self) -> Seq<u8> {
        be_u16(self.packet_identifier.0)
    }

    open spec fn packet_wf(&self) -> bool {
        true
    }

    open spec fn spec_packet_type(&self) -> PacketType {
        PacketType { typ: ControlType::PublishAcknowledgement, fl: 0 }
    }

    fn packet_type(&self) -> PacketType {
        PacketType::with_default(ControlType::PublishAcknowledgement)
    }

    fn encode_packet(&self, buf: &mut Vec<u8>) {
        write_u16(buf, self.packet_identifier.0);
    }

    fn encoded_packet_length(&self) -> u32 {
        2
    }
}

impl DecodablePacket for PubackPacket {
    type DecodePacketError = ();

    fn decode_packet(buf: &Vec<u8>, pos: usize, end: usize, _fixed_header: FixedHeader) -> Result<
        PubackPacket,
        PacketError<()>,
    > {
        PubackPacket::decode_body(buf, pos, end)
    }
}

/// A PUBACK body decodes back from its own encoding, whatever follows it.
pub proof fn lemma_sp_puback_of_enc(p: PubackPacket, s: Seq<u8>, pos: int, end: int)
    requires
        0 <= pos,
        pos + p.body_enc().len() <= end <= s.len(),
        s.subrange(pos, pos + p.body_enc().len()) == p.body_enc(),
    ensures
        sp_puback(s, pos, end) == Ok::<PubackPacket, PacketError<()>>(p),
{
    crate::encodable::lemma_sp_u16_of_enc(p.packet_identifier.0, s, pos, end);
}

} // verus!
