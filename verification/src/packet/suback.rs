//! SUBACK: subscribe acknowledgement.
use vstd::prelude::*;

verus! {

use crate::encodable::{be_u16, sp_u8, sp_u16, write_u8, write_u16, read_u8, read_u16, IoError};
use crate::control::fixed_header::FixedHeader;
use crate::control::packet_type::{ControlType, PacketType};
use crate::control::variable_header::{PacketIdentifier, VariableHeaderError};
use crate::packet::{EncodablePacket, DecodablePacket, PacketError};
use crate::qos::QualityOfService;

/// One byte of a SUBACK payload: the granted maximum quality of service for a
/// subscription, or its failure.
#[derive(Debug, Eq, PartialEq, Copy, Clone, Structural)]
pub enum SubscribeReturnCode {
    MaximumQoSLevel0,
    MaximumQoSLevel1,
    MaximumQoSLevel2,
    Failure,
}

/// The wire byte of a subscribe return code.
pub open spec fn sub_ret_code_val(c: SubscribeReturnCode) -> u8 {
    match c {
        SubscribeReturnCode::MaximumQoSLevel0 => 0x00,
        SubscribeReturnCode::MaximumQoSLevel1 => 0x01,
        SubscribeReturnCode::MaximumQoSLevel2 => 0x02,
        SubscribeReturnCode::Failure => 0x80,
    }
}

/// The return code named by a byte; `None` exactly outside 0, 1, 2 and 0x80.
pub open spec fn sp_sub_ret_code(v: u8) -> Option<SubscribeReturnCode> {
    if v == 0x00 {
        Some(SubscribeReturnCode::MaximumQoSLevel0)
    } else if v == 0x01 {
        Some(SubscribeReturnCode::MaximumQoSLevel1)
    } else if v == 0x02 {
        Some(SubscribeReturnCode::MaximumQoSLevel2)
    } else if v == 0x80 {
        Some(SubscribeReturnCode::Failure)
    } else {
        None
    }
}

impl SubscribeReturnCode {
    /// The code byte.
    pub fn to_u8(self) -> (r: u8)
        ensures
            r == sub_ret_code_val(self),
    {
        match self {
            SubscribeReturnCode::MaximumQoSLevel0 => 0x00,
            SubscribeReturnCode::MaximumQoSLevel1 => 0x01,
            SubscribeReturnCode::MaximumQoSLevel2 => 0x02,
            SubscribeReturnCode::Failure => 0x80,
        }
    }

    /// The return code named by a byte.
    pub fn from_u8(v: u8) -> (r: Option<SubscribeReturnCode>)
        ensures
            r == sp_sub_ret_code(v),
    {
        if v == 0x00 {
            Some(SubscribeReturnCode::MaximumQoSLevel0)
        } else if v == 0x01 {
            Some(SubscribeReturnCode::MaximumQoSLevel1)
        } else if v == 0x02 {
            Some(SubscribeReturnCode::MaximumQoSLevel2)
        } else if v == 0x80 {
            Some(SubscribeReturnCode::Failure)
        } else {
            None
        }
    }

    /// The granted code for a quality of service.
    pub fn from_qos(qos: QualityOfService) -> (r: SubscribeReturnCode)
        ensures
            r == match qos {
                QualityOfService::Level0 => SubscribeReturnCode::MaximumQoSLevel0,
                QualityOfService::Level1 => SubscribeReturnCode::MaximumQoSLevel1,
                QualityOfService::Level2 => SubscribeReturnCode::MaximumQoSLevel2,
            },
    {
        match qos {
            QualityOfService::Level0 => SubscribeReturnCode::MaximumQoSLevel0,
            QualityOfService::Level1 => SubscribeReturnCode::MaximumQoSLevel1,
            QualityOfService::Level2 => SubscribeReturnCode::MaximumQoSLevel2,
        }
    }
}

/// The payload bytes of a SUBACK: one return-code byte per subscription.
pub open spec fn suback_payload_enc(subs: Seq<SubscribeReturnCode>) -> Seq<u8> {
    Seq::new(subs.len(), |i: int| sub_ret_code_val(subs[i]))
}

/// Errors while decoding a SUBACK payload.
#[derive(Debug, PartialEq, Eq, Clone, Copy)]
pub enum SubackPacketPayloadError {
    /// The input ended inside the payload.
    IoError(IoError),
    /// A payload byte outside 0, 1, 2 and 0x80, kept as it came.
    InvalidSubscribeReturnCode(u8),
}

/// What decoding `n` return-code bytes yields, appended to those already read.
pub open spec fn sp_suback_payload(
    s: Seq<u8>,
    pos: int,
    end: int,
    n: int,
    acc: Seq<SubscribeReturnCode>,
) -> Result<Seq<SubscribeReturnCode>, SubackPacketPayloadError>
    recommends
        0 <= pos <= end <= s.len(),
    decreases n,
{
    if n <= 0 {
        Ok(acc)
    } else {
        match sp_u8(s, pos, end) {
            Err(e) => Err(SubackPacketPayloadError::IoError(e)),
            Ok((b, p)) => match sp_sub_ret_code(b) {
                None => Err(SubackPacketPayloadError::InvalidSubscribeReturnCode(b)),
                Some(c) => sp_suback_payload(s, p, end, n - 1, acc.push(c)),
            },
        }
    }
}

/// The fields of a SUBACK packet, at the spec level.
pub struct SubackView {
    pub packet_identifier: u16,
    pub subscribes: Seq<SubscribeReturnCode>,
}

/// The body bytes of a SUBACK: packet identifier, then the return codes.
pub open spec fn suback_body_enc(v: SubackView) -> Seq<u8> {
    be_u16(v.packet_identifier) + suback_payload_enc(v.subscribes)
}

/// What decoding a SUBACK body of `end - pos` bytes yields: the packet
/// identifier, then one return code per remaining byte.
pub open spec fn sp_suback(s: Seq<u8>, pos: int, end: int) -> Result<
    SubackView,
    PacketError<SubackPacketPayloadError>,
>
    recommends
        0 <= pos <= end <= s.len(),
{
    match sp_u16(s, pos, end) {
        Err(e) => Err(PacketError::VariableHeaderError(VariableHeaderError::IoError(e))),
        Ok((pid, p)) => match sp_suback_payload(s, p, end, end - p, Seq::empty()) {
            Err(e) => Err(PacketError::PayloadError(e)),
            Ok(subs) => Ok(SubackView { packet_identifier: pid, subscribes: subs }),
        },
    }
}

/// Payload of a SUBACK packet.
#[derive(Debug, Eq, PartialEq, Clone)]
pub struct SubackPacketPayload {
    /// The return codes, in request order.
    pub subscribes: Vec<SubscribeReturnCode>,
}

impl SubackPacketPayload {
    pub fn new(subs: Vec<SubscribeReturnCode>) -> (r: SubackPacketPayload)
        ensures
            r.subscribes@ == subs@,
    {
        SubackPacketPayload { subscribes: subs }
    }

    pub fn subscribes(&self) -> (r: &Vec<SubscribeReturnCode>)
        ensures
            r@ == self.subscribes@,
    {
        &self.subscribes
    }
}

/// `SUBACK` packet: one granted-quality code per entry of the subscribe
/// request it answers, in the same order.
#[derive(Debug, Eq, PartialEq, Clone)]
pub struct SubackPacket {
    /// Identifier of the subscribe request being acknowledged.
    pub packet_identifier: PacketIdentifier,
    /// The return codes, in request order.
    pub payload: SubackPacketPayload,
}

impl View for SubackPacket {
    type V = SubackView;

    open spec fn view(&self) -> SubackView {
        SubackView {
            packet_identifier: self.packet_identifier.0,
            subscribes: self.payload.subscribes@,
        }
    }
}

impl SubackPacket {
    pub fn new(pkid: u16, subscribes: Vec<SubscribeReturnCode>) -> (r: SubackPacket)
        ensures
            r@ == (SubackView { packet_identifier: pkid, subscribes: subscribes@ }),
    {
        SubackPacket {
            packet_identifier: PacketIdentifier(pkid),
            payload: SubackPacketPayload::new(subscribes),
        }
    }

    pub fn packet_identifier(&self) -> (r: u16)
        ensures
            r == self.packet_identifier.0,
    {
        self.packet_identifier.0
    }

    pub fn set_packet_identifier(&mut self, pkid: u16)
        ensures
            final(self)@ == (SubackView {
                packet_identifier: pkid,
                subscribes: old(self)@.subscribes,
            }),
    {
        self.packet_identifier = PacketIdentifier(pkid);
    }

    /// The return codes, in request order.
    pub fn subscribes(&self) -> (r: &Vec<SubscribeReturnCode>)
        ensures
            r@ == self@.subscribes,
    {
        &self.payload.subscribes
    }

    /// Reads a SUBACK body, taking every byte up to `end` as a return code;
    /// fails on any code byte outside 0, 1, 2 and 0x80.
    pub fn decode_body(buf: &Vec<u8>, pos: usize, end: usize) -> (r: Result<
        SubackPacket,
        PacketError<SubackPacketPayloadError>,
    >)
        requires
            pos <= end <= buf@.len(),
        ensures
            match r {
                Ok(pk) => sp_suback(buf@, pos as int, end as int) == Ok::<
                    SubackView,
                    PacketError<SubackPacketPayloadError>,
                >(pk@),
                Err(e) => sp_suback(buf@, pos as int, end as int) == Err::<
                    SubackView,
                    PacketError<SubackPacketPayloadError>,
                >(e),
            },
    {
        let (pid, start) = match read_u16(buf, pos, end) {
            Ok(v) => v,
            Err(e) => {
                return Err(PacketError::VariableHeaderError(VariableHeaderError::IoError(e)));
            },
        };
        let mut subs: Vec<SubscribeReturnCode> = Vec::new();
        let mut p = start;
        while p < end
            invariant
                pos <= start <= p <= end <= buf@.len(),
                sp_u16(buf@, pos as int, end as int) == Ok::<(u16, int), IoError>(
                    (pid, start as int),
                ),
                sp_suback_payload(buf@, start as int, end as int, end - start, Seq::empty())
                    == sp_suback_payload(buf@, p as int, end as int, end - p, subs@),
            decreases end - p,
        {
            let b = match read_u8(buf, p, end) {
                Ok((b, _)) => b,
                Err(e) => {
                    return Err(PacketError::PayloadError(SubackPacketPayloadError::IoError(e)));
                },
            };
            match SubscribeReturnCode::from_u8(b) {
                Some(c) => {
                    subs.push(c);
                },
                None => {
                    return Err(
                        PacketError::PayloadError(
                            SubackPacketPayloadError::InvalidSubscribeReturnCode(b),
                        ),
                    );
                },
            }
            p = p + 1;
        }
        Ok(SubackPacket::new(pid, subs))
    }
}

impl EncodablePacket for SubackPacket {
    open spec fn body_enc(&self) -> Seq<u8> {
        suback_body_enc(self@)
    }

    open spec fn packet_wf(&self) -> bool {
        2 + self@.subscribes.len() <= crate::control::fixed_header::max_remaining_len()
    }

    open spec fn spec_packet_type(&self) -> PacketType {
        PacketType { typ: ControlType::SubscribeAcknowledgement, fl: 0 }
    }

    fn packet_type(&self) -> PacketType {
        PacketType::with_default(ControlType::SubscribeAcknowledgement)
    }

    fn encode_packet(&self, buf: &mut Vec<u8>) {
        write_u16(buf, self.packet_identifier.0);
        let n = self.payload.subscribes.len();
        let mut i: usize = 0;
        while i < n
            invariant
                0 <= i <= n == self.payload.subscribes@.len(),
                buf@ == old(buf)@ + be_u16(self.packet_identifier.0) + suback_payload_enc(
                    self@.subscribes.take(i as int),
                ),
            decreases n - i,
        {
            write_u8(buf, self.payload.subscribes[i].to_u8());
            proof {
                assert(suback_payload_enc(self@.subscribes.take(i + 1)) =~= suback_payload_enc(
                    self@.subscribes.take(i as int),
                ).push(sub_ret_code_val(self@.subscribes[i as int])));
            }
            i = i + 1;
        }
        proof {
            assert(self@.subscribes.take(n as int) =~= self@.subscribes);
            assert(buf@ =~= old(buf)@ + suback_body_enc(self@));
        }
    }

    fn encoded_packet_length(&self) -> (n: u32) {
        2 + self.payload.subscribes.len() as u32
    }
}

impl DecodablePacket for SubackPacket {
    type DecodePacketError = SubackPacketPayloadError;

    fn decode_packet(buf: &Vec<u8>, pos: usize, end: usize, _fixed_header: FixedHeader) -> Result<
        SubackPacket,
        PacketError<SubackPacketPayloadError>,
    > {
        SubackPacket::decode_body(buf, pos, end)
    }
}

/// Return-code bytes decode back to the codes they encode, appended in order.
pub proof fn lemma_sp_suback_payload_of_enc(
    subs: Seq<SubscribeReturnCode>,
    s: Seq<u8>,
    pos: int,
    end: int,
    acc: Seq<SubscribeReturnCode>,
)
    requires
        0 <= pos,
        end == pos + subs.len(),
        end <= s.len(),
        s.subrange(pos, end) == suback_payload_enc(subs),
    ensures
        sp_suback_payload(s, pos, end, end - pos, acc) == Ok::<
            Seq<SubscribeReturnCode>,
            SubackPacketPayloadError,
        >(acc + subs),
    decreases subs.len(),
{
    if subs.len() == 0 {
        assert(acc + subs =~= acc);
    } else {
        assert(s[pos] == suback_payload_enc(subs)[0]);
        assert(s[pos] == sub_ret_code_val(subs[0]));
        let rest = subs.drop_first();
        assert(s.subrange(pos + 1, end) =~= suback_payload_enc(rest)) by {
            assert forall|j: int| 0 <= j < rest.len() implies s.subrange(pos + 1, end)[j]
                == suback_payload_enc(rest)[j] by {
                assert(s.subrange(pos, end)[j + 1] == suback_payload_enc(subs)[j + 1]);
            }
        }
        lemma_sp_suback_payload_of_enc(rest, s, pos + 1, end, acc.push(subs[0]));
        assert(acc.push(subs[0]) + rest =~= acc + subs);
    }
}

/// A well-formed SUBACK body decodes back from its own encoding, when the body
/// budget ends exactly with it.
pub proof fn lemma_sp_suback_of_enc(v: SubackView, s: Seq<u8>, pos: int, end: int)
    requires
        0 <= pos,
        end == pos + suback_body_enc(v).len(),
        end <= s.len(),
        s.subrange(pos, end) == suback_body_enc(v),
    ensures
        sp_suback(s, pos, end) == Ok::<SubackView, PacketError<SubackPacketPayloadError>>(v),
{
    let w = suback_body_enc(v);
    assert(s.subrange(pos, pos + 2) =~= be_u16(v.packet_identifier)) by {
        assert(s.subrange(pos, end)[0] == w[0]);
        assert(s.subrange(pos, end)[1] == w[1]);
    }
    crate::encodable::lemma_sp_u16_of_enc(v.packet_identifier, s, pos, end);
    assert(s.subrange(pos + 2, end) =~= suback_payload_enc(v.subscribes)) by {
        assert forall|j: int| 0 <= j < v.subscribes.len() implies s.subrange(pos + 2, end)[j]
            == suback_payload_enc(v.subscribes)[j] by {
            assert(s.subrange(pos, end)[j + 2] == w[j + 2]);
        }
    }
    lemma_sp_suback_payload_of_enc(v.subscribes, s, pos + 2, end, Seq::empty());
    assert(Seq::<SubscribeReturnCode>::empty() + v.subscribes =~= v.subscribes);
}

} // verus!
