//! CONNACK: connect acknowledgement.
use vstd::prelude::*;

verus! {

use crate::encodable::sp_u8;
use crate::control::fixed_header::FixedHeader;
use crate::control::packet_type::{ControlType, PacketType};
use crate::control::variable_header::{
    ConnackFlags,
    ConnectReturnCode,
    VariableHeaderError,
    connack_flags_byte,
    ret_code_val,
    ret_code_wf,
    sp_connack_flags,
    sp_ret_code,
    lemma_sp_connack_flags_of_enc,
    lemma_sp_ret_code_of_enc,
};
use crate::packet::{EncodablePacket, DecodablePacket, PacketError};

/// `CONNACK` packet: the server's answer to a connect request, carrying the
/// session-present flag and a return code.
#[derive(Debug, Eq, PartialEq, Clone, Structural)]
pub struct ConnackPacket {
    /// Connack flags; only session-present may be set.
    pub flags: ConnackFlags,
    /// The connect return code.
    pub ret_code: ConnectReturnCode,
}

/// What decoding a CONNACK body yields: the flags byte (reserved bits must be
/// zero), then the return-code byte.
pub open spec fn sp_connack(s: Seq<u8>, pos: int, end: int) -> Result<
    ConnackPacket,
    PacketError<()>,
>
    recommends
        0 <= pos <= end <= s.len(),
{
    match sp_connack_flags(s, pos, end) {
        Err(e) => Err(PacketError::VariableHeaderError(e)),
        Ok((flags, p)) => match sp_u8(s, p, end) {
            Err(ioe) => Err(
                PacketError::VariableHeaderError(VariableHeaderError::IoError(ioe)),
            ),
            Ok((code, _)) => Ok(ConnackPacket { flags, ret_code: sp_ret_code(code) }),
        },
    }
}

impl ConnackPacket {
    pub fn new(session_present: bool, ret_code: ConnectReturnCode) -> (r: ConnackPacket)
        ensures
            r == (ConnackPacket { flags: ConnackFlags { session_present }, ret_code }),
    {
        ConnackPacket { flags: ConnackFlags { session_present }, ret_code }
    }

    pub fn connack_flags(&self) -> (r: ConnackFlags)
        ensures
            r == self.flags,
    {
        self.flags
    }

    pub fn connect_return_code(&self) -> (r: ConnectReturnCode)
        ensures
            r == self.ret_code,
    {
        self.ret_code
    }

    /// Reads a CONNACK body.
    pub fn decode_body(buf: &Vec<u8>, pos: usize, end: usize) -> (r: Result<
        ConnackPacket,
        PacketError<()>,
    >)
        requires
            pos <= end <= buf@.len(),
        ensures
            r == sp_connack(buf@, pos as int, end as int),
            (r matches Ok(p) ==> ret_code_wf(p.ret_code)),
    {
        match ConnackFlags::decode(buf, pos, end) {
            Err(e) => Err(PacketError::VariableHeaderError(e)),
            Ok((flags, p)) => match ConnectReturnCode::decode(buf, p, end) {
                Err(e) => Err(PacketError::VariableHeaderError(e)),
                Ok((code, _)) => Ok(ConnackPacket { flags, ret_code: code }),
            },
        }
    }
}

impl EncodablePacket for ConnackPacket {
    open spec fn body_enc(&self) -> Seq<u8> {
        seq![connack_flags_byte(self.flags), ret_code_val(self.ret_code)]
    }

    open spec fn packet_wf(&self) -> bool {
        ret_code_wf(self.ret_code)
    }

    open spec fn spec_packet_type(&self) -> PacketType {
        PacketType { typ: ControlType::ConnectAcknowledgement, fl: 0 }
    }

    fn packet_type(&self) -> PacketType {
        PacketType::with_default(ControlType::ConnectAcknowledgement)
    }

    fn encode_packet(&self, buf: &mut Vec<u8>) {
        crate::encodable::write_u8(buf, if self.flags.session_present {
            1
        } else {
            0
        });
        crate::encodable::write_u8(buf, self.ret_code.to_u8());
        assert(buf@ =~= old(buf)@ + self.body_enc());
    }

    fn encoded_packet_length(&self) -> u32 {
        2
    }
}

impl DecodablePacket for ConnackPacket {
    type DecodePacketError = ();

    fn decode_packet(buf: &Vec<u8>, pos: usize, end: usize, _fixed_header: FixedHeader) -> Result<
        ConnackPacket,
        PacketError<()>,
    > {
        ConnackPacket::decode_body(buf, pos, end)
    }
}

/// A well-formed CONNACK body decodes back from its own encoding.
pub proof fn lemma_sp_connack_of_enc(p: ConnackPacket, s: Seq<u8>, pos: int, end: int)
    requires
        p.packet_wf(),
        0 <= pos,
        pos + p.body_enc().len() <= end <= s.len(),
        s.subrange(pos, pos + p.body_enc().len()) == p.body_enc(),
    ensures
        sp_connack(s, pos, end) == Ok::<ConnackPacket, PacketError<()>>(p),
{
    assert(s[pos] == p.body_enc()[0]);
    assert(s[pos + 1] == p.body_enc()[1]);
    lemma_sp_connack_flags_of_enc(p.flags, s, pos, end);
    lemma_sp_ret_code_of_enc(p.ret_code);
}

} // verus!
