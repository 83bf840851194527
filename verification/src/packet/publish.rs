//! PUBLISH: an application message for a topic.
use vstd::prelude::*;

verus! {

use vstd::utf8::encode_utf8;
use vstd::slice::slice_to_vec;
use crate::encodable::{
    Encodable,
    be_u16,
    string_enc,
    sp_u16,
    write_u16,
    write_bytes,
    read_u16,
    read_bytes,
};
use crate::control::fixed_header::{FixedHeader, max_remaining_len};
use crate::control::packet_type::{ControlType, PacketType, qos_of_flags};
use crate::control::variable_header::{VariableHeaderError, bit};
use crate::packet::{EncodablePacket, DecodablePacket, PacketError};
use crate::qos::{QualityOfService, qos_val};
use crate::topic_name::{
    TopicName,
    TopicNameDecodeError,
    valid_topic_name_bytes,
    sp_topic_name,
    lemma_sp_topic_name_of_enc,
};

/// Quality of service with the packet identifier that levels 1 and 2 carry.
#[derive(Debug, Eq, PartialEq, Ord, PartialOrd, Copy, Clone, Structural)]
pub enum QoSWithPacketIdentifier {
    Level0,
    Level1(u16),
    Level2(u16),
}

impl QoSWithPacketIdentifier {
    /// Pairs a quality level with an identifier; level 0 carries none.
    pub fn new(qos: QualityOfService, id: u16) -> (r: QoSWithPacketIdentifier)
        ensures
            r == match qos {
                QualityOfService::Level0 => QoSWithPacketIdentifier::Level0,
                QualityOfService::Level1 => QoSWithPacketIdentifier::Level1(id),
                QualityOfService::Level2 => QoSWithPacketIdentifier::Level2(id),
            },
    {
        match qos {
            QualityOfService::Level0 => QoSWithPacketIdentifier::Level0,
            QualityOfService::Level1 => QoSWithPacketIdentifier::Level1(id),
            QualityOfService::Level2 => QoSWithPacketIdentifier::Level2(id),
        }
    }
}

/// The quality level of a quality-with-identifier value.
pub open spec fn qos_of(q: QoSWithPacketIdentifier) -> QualityOfService {
    match q {
        QoSWithPacketIdentifier::Level0 => QualityOfService::Level0,
        QoSWithPacketIdentifier::Level1(_) => QualityOfService::Level1,
        QoSWithPacketIdentifier::Level2(_) => QualityOfService::Level2,
    }
}

/// The packet-identifier bytes a publish carries: none at level 0, two at
/// levels 1 and 2.
pub open spec fn pid_enc(q: QoSWithPacketIdentifier) -> Seq<u8> {
    match q {
        QoSWithPacketIdentifier::Level0 => Seq::empty(),
        QoSWithPacketIdentifier::Level1(pid) => be_u16(pid),
        QoSWithPacketIdentifier::Level2(pid) => be_u16(pid),
    }
}

/// The flag nibble of a publish: duplicate in bit 3, quality in bits 2..1,
/// retain in bit 0.
pub open spec fn publish_flags(dup: bool, q: QoSWithPacketIdentifier, retain: bool) -> u8 {
    (bit(dup) * 8 + qos_val(qos_of(q)) * 2 + bit(retain)) as u8
}

/// The fields of a PUBLISH packet, at the spec level.
pub struct PublishView {
    pub topic_name: Seq<char>,
    pub qos: QoSWithPacketIdentifier,
    pub dup: bool,
    pub retain: bool,
    pub payload: Seq<u8>,
}

/// The body bytes of a PUBLISH: topic name, the packet identifier when the
/// quality is above 0, then the raw payload to the end of the packet.
pub open spec fn publish_body_enc(v: PublishView) -> Seq<u8> {
    string_enc(v.topic_name) + pid_enc(v.qos) + v.payload
}

/// What decoding a PUBLISH body of `end - pos` bytes yields under the given
/// flag nibble: the topic name, a packet identifier exactly when the quality
/// bits are above 0, and the rest of the body as payload. Quality bits 3 never
/// reach a decoder: the fixed-header parse refuses them.
pub open spec fn sp_publish(s: Seq<u8>, pos: int, end: int, flags: u8) -> Result<
    PublishView,
    PacketError<()>,
>
    recommends
        0 <= pos <= end <= s.len(),
        qos_of_flags(flags) < 3,
{
    let dup = (flags / 8) % 2 == 1;
    let retain = flags % 2 == 1;
    let qbits = qos_of_flags(flags);
    match sp_topic_name(s, pos, end) {
        Err(TopicNameDecodeError::IoError(e)) => Err(PacketError::IoError(e)),
        Err(TopicNameDecodeError::Utf8) => Err(PacketError::Utf8),
        Err(TopicNameDecodeError::InvalidTopicName(te)) => Err(PacketError::TopicNameError(te)),
        Ok((topic, p)) => if qbits == 0 {
            Ok(
                PublishView {
                    topic_name: topic,
                    qos: QoSWithPacketIdentifier::Level0,
                    dup,
                    retain,
                    payload: s.subrange(p, end),
                },
            )
        } else {
            match sp_u16(s, p, end) {
                Err(e) => Err(PacketError::VariableHeaderError(VariableHeaderError::IoError(e))),
                Ok((pid, p2)) => Ok(
                    PublishView {
                        topic_name: topic,
                        qos: if qbits == 1 {
                            QoSWithPacketIdentifier::Level1(pid)
                        } else {
                            QoSWithPacketIdentifier::Level2(pid)
                        },
                        dup,
                        retain,
                        payload: s.subrange(p2, end),
                    },
                ),
            }
        },
    }
}

/// `PUBLISH` packet: a topic name, delivery flags, and the message bytes.
#[derive(Debug, Eq, PartialEq, Clone)]
pub struct PublishPacket {
    /// The topic the message is published to.
    pub topic_name: TopicName,
    /// Delivery quality, with the packet identifier above level 0.
    pub qos: QoSWithPacketIdentifier,
    /// Whether this is a re-delivery.
    pub dup: bool,
    /// Whether the server should retain the message.
    pub retain: bool,
    /// The message bytes.
    pub payload: Vec<u8>,
}

impl View for PublishPacket {
    type V = PublishView;

    open spec fn view(&self) -> PublishView {
        PublishView {
            topic_name: self.topic_name@,
            qos: self.qos,
            dup: self.dup,
            retain: self.retain,
            payload: self.payload@,
        }
    }
}

impl PublishPacket {
    pub fn new(topic_name: TopicName, qos: QoSWithPacketIdentifier, payload: Vec<u8>) -> (r:
        PublishPacket)
        ensures
            r == (PublishPacket { topic_name, qos, dup: false, retain: false, payload }),
    {
        PublishPacket { topic_name, qos, dup: false, retain: false, payload }
    }

    pub fn set_dup(&mut self, dup: bool)
        ensures
            *final(self) == (PublishPacket { dup, ..*old(self) }),
    {
        self.dup = dup;
    }

    pub fn dup(&self) -> (r: bool)
        ensures
            r == self.dup,
    {
        self.dup
    }

    pub fn set_qos(&mut self, qos: QoSWithPacketIdentifier)
        ensures
            *final(self) == (PublishPacket { qos, ..*old(self) }),
    {
        self.qos = qos;
    }

    pub fn qos(&self) -> (r: QoSWithPacketIdentifier)
        ensures
            r == self.qos,
    {
        self.qos
    }

    pub fn set_retain(&mut self, ret: bool)
        ensures
            *final(self) == (PublishPacket { retain: ret, ..*old(self) }),
    {
        self.retain = ret;
    }

    pub fn retain(&self) -> (r: bool)
        ensures
            r == self.retain,
    {
        self.retain
    }

    pub fn set_topic_name(&mut self, topic_name: TopicName)
        ensures
            *final(self) == (PublishPacket { topic_name, ..*old(self) }),
    {
        self.topic_name = topic_name;
    }

    pub fn topic_name(&self) -> (r: &str)
        ensures
            r@ == self.topic_name@,
    {
        self.topic_name.as_str()
    }

    pub fn payload(&self) -> (r: &[u8])
        ensures
            r@ == self.payload@,
    {
        self.payload.as_slice()
    }

    pub fn set_payload(&mut self, payload: Vec<u8>)
        ensures
            *final(self) == (PublishPacket { payload, ..*old(self) }),
    {
        self.payload = payload;
    }

    /// Reads a PUBLISH body under the given flag nibble.
    pub fn decode_body(buf: &Vec<u8>, pos: usize, end: usize, flags: u8) -> (r: Result<
        PublishPacket,
        PacketError<()>,
    >)
        requires
            pos <= end <= buf@.len(),
            qos_of_flags(flags) < 3,
        ensures
            match r {
                Ok(pk) => sp_publish(buf@, pos as int, end as int, flags) == Ok::<
                    PublishView,
                    PacketError<()>,
                >(pk@) && pk.topic_name.wf(),
                Err(e) => sp_publish(buf@, pos as int, end as int, flags) == Err::<
                    PublishView,
                    PacketError<()>,
                >(e),
            },
    {
        let dup = (flags / 8) % 2 == 1;
        let retain = flags % 2 == 1;
        let qbits = (flags / 2) % 4;
        let (topic, p) = match TopicName::decode(buf, pos, end) {
            Ok(v) => v,
            Err(TopicNameDecodeError::IoError(e)) => {
                return Err(PacketError::IoError(e));
            },
            Err(TopicNameDecodeError::Utf8) => {
                return Err(PacketError::Utf8);
            },
            Err(TopicNameDecodeError::InvalidTopicName(te)) => {
                return Err(PacketError::TopicNameError(te));
            },
        };
        let (qos, p2) = if qbits == 0 {
            (QoSWithPacketIdentifier::Level0, p)
        } else {
            match read_u16(buf, p, end) {
                Err(e) => {
                    return Err(
                        PacketError::VariableHeaderError(VariableHeaderError::IoError(e)),
                    );
                },
                Ok((pid, p2)) => (
                    if qbits == 1 {
                        QoSWithPacketIdentifier::Level1(pid)
                    } else {
                        QoSWithPacketIdentifier::Level2(pid)
                    },
                    p2,
                ),
            }
        };
        let payload = match read_bytes(buf, p2, end, end - p2) {
            Ok((v, _)) => v,
            Err(e) => {
                return Err(PacketError::IoError(e));
            },
        };
        Ok(PublishPacket { topic_name: topic, qos, dup, retain, payload })
    }
}

impl EncodablePacket for PublishPacket {
    open spec fn body_enc(&self) -> Seq<u8> {
        publish_body_enc(self@)
    }

    open spec fn packet_wf(&self) -> bool {
        valid_topic_name_bytes(encode_utf8(self@.topic_name)) && self.body_enc().len()
            <= max_remaining_len()
    }

    open spec fn spec_packet_type(&self) -> PacketType {
        PacketType { typ: ControlType::Publish, fl: publish_flags(self.dup, self.qos, self.retain) }
    }

    fn packet_type(&self) -> (r: PacketType) {
        let qb: u8 = match self.qos {
            QoSWithPacketIdentifier::Level0 => 0,
            QoSWithPacketIdentifier::Level1(_) => 1,
            QoSWithPacketIdentifier::Level2(_) => 2,
        };
        let fl: u8 = (if self.dup {
            8
        } else {
            0
        }) + qb * 2 + (if self.retain {
            1
        } else {
            0
        });
        PacketType { typ: ControlType::Publish, fl }
    }

    fn encode_packet(&self, buf: &mut Vec<u8>) {
        self.topic_name.encode(buf);
        match self.qos {
            QoSWithPacketIdentifier::Level0 => {},
            QoSWithPacketIdentifier::Level1(pid) => write_u16(buf, pid),
            QoSWithPacketIdentifier::Level2(pid) => write_u16(buf, pid),
        }
        write_bytes(buf, &self.payload);
        assert(buf@ =~= old(buf)@ + self.body_enc());
    }

    fn encoded_packet_length(&self) -> (n: u32) {
        let mut tmp: Vec<u8> = Vec::new();
        self.encode_packet(&mut tmp);
        tmp.len() as u32
    }
}

impl DecodablePacket for PublishPacket {
    type DecodePacketError = ();

    fn decode_packet(buf: &Vec<u8>, pos: usize, end: usize, fixed_header: FixedHeader) -> Result<
        PublishPacket,
        PacketError<()>,
    > {
        let flags = fixed_header.packet_type.flags();
        let qbits = (flags / 2) % 4;
        if qbits == 3 {
            // a fixed header that parsed can never carry quality bits 3
            return Err(
                PacketError::FixedHeaderError(
                    crate::control::fixed_header::FixedHeaderError::PacketTypeError(
                        crate::control::packet_type::PacketTypeError::InvalidFlag(
                            crate::control::packet_type::InvalidFlag(
                                ControlType::Publish,
                                flags,
                            ),
                        ),
                    ),
                ),
            );
        }
        PublishPacket::decode_body(buf, pos, end, flags)
    }
}

/// The flag nibble of a publish decomposes back into its three fields.
pub proof fn lemma_publish_flags_decomp(dup: bool, q: QoSWithPacketIdentifier, retain: bool)
    ensures
        ({
            let fl = publish_flags(dup, q, retain);
            &&& fl < 16
            &&& (fl / 8) % 2 == bit(dup)
            &&& qos_of_flags(fl) == qos_val(qos_of(q))
            &&& fl % 2 == bit(retain)
        }),
{
    let d = bit(dup) as int;
    let qb = qos_val(qos_of(q)) as int;
    let rt = bit(retain) as int;
    let fl = publish_flags(dup, q, retain);
    assert(fl == d * 8 + qb * 2 + rt);
    assert((fl as int) / 8 % 2 == d && (fl as int) / 2 % 4 == qb && (fl as int) % 2 == rt)
        by (nonlinear_arith)
        requires
            fl == d * 8 + qb * 2 + rt,
            0 <= d <= 1,
            0 <= qb <= 2,
            0 <= rt <= 1,
    ;
}

/// A well-formed PUBLISH body decodes back from its own encoding under its own
/// flag nibble, when the body budget ends exactly with it.
pub proof fn lemma_sp_publish_of_enc(v: PublishView, s: Seq<u8>, pos: int, end: int)
    requires
        valid_topic_name_bytes(encode_utf8(v.topic_name)),
        0 <= pos,
        end == pos + publish_body_enc(v).len(),
        end <= s.len(),
        s.subrange(pos, end) == publish_body_enc(v),
    ensures
        sp_publish(s, pos, end, publish_flags(v.dup, v.qos, v.retain)) == Ok::<
            PublishView,
            PacketError<()>,
        >(v),
{
    let w = publish_body_enc(v);
    let tlen = string_enc(v.topic_name).len() as int;
    lemma_publish_flags_decomp(v.dup, v.qos, v.retain);
    assert(s.subrange(pos, pos + tlen) =~= string_enc(v.topic_name)) by {
        assert forall|j: int| 0 <= j < tlen implies s.subrange(pos, pos + tlen)[j] == string_enc(
            v.topic_name,
        )[j] by {
            assert(s.subrange(pos, end)[j] == w[j]);
        }
    }
    lemma_sp_topic_name_of_enc(v.topic_name, s, pos, end);
    let p = pos + tlen;
    match v.qos {
        QoSWithPacketIdentifier::Level0 => {
            assert(s.subrange(p, end) =~= v.payload) by {
                assert forall|j: int| 0 <= j < v.payload.len() implies s.subrange(p, end)[j]
                    == v.payload[j] by {
                    assert(s.subrange(pos, end)[j + tlen] == w[j + tlen]);
                }
            }
        },
        QoSWithPacketIdentifier::Level1(pid) => {
            assert(s.subrange(p, p + 2) =~= be_u16(pid)) by {
                assert(s.subrange(pos, end)[tlen] == w[tlen]);
                assert(s.subrange(pos, end)[tlen + 1] == w[tlen + 1]);
            }
            crate::encodable::lemma_sp_u16_of_enc(pid, s, p, end);
            assert(s.subrange(p + 2, end) =~= v.payload) by {
                assert forall|j: int| 0 <= j < v.payload.len() implies s.subrange(p + 2, end)[j]
                    == v.payload[j] by {
                    assert(s.subrange(pos, end)[j + tlen + 2] == w[j + tlen + 2]);
                }
            }
        },
        QoSWithPacketIdentifier::Level2(pid) => {
            assert(s.subrange(p, p + 2) =~= be_u16(pid)) by {
                assert(s.subrange(pos, end)[tlen] == w[tlen]);
                assert(s.subrange(pos, end)[tlen + 1] == w[tlen + 1]);
            }
            crate::encodable::lemma_sp_u16_of_enc(pid, s, p, end);
            assert(s.subrange(p + 2, end) =~= v.payload) by {
                assert forall|j: int| 0 <= j < v.payload.len() implies s.subrange(p + 2, end)[j]
                    == v.payload[j] by {
                    assert(s.subrange(pos, end)[j + tlen + 2] == w[j + tlen + 2]);
                }
            }
        },
    }
}

/// Quality and identifier coupling: the body of a publish holds no
/// packet-identifier bytes at quality 0 and exactly two above it, between the
/// topic name and the payload.
pub proof fn lemma_publish_pid_coupling(v: PublishView)
    ensures
        publish_body_enc(v).len() == string_enc(v.topic_name).len() + (match v.qos {
            QoSWithPacketIdentifier::Level0 => 0int,
            QoSWithPacketIdentifier::Level1(_) => 2int,
            QoSWithPacketIdentifier::Level2(_) => 2int,
        }) + v.payload.len(),
        v.qos is Level0 ==> pid_enc(v.qos) == Seq::<u8>::empty(),
        (v.qos matches QoSWithPacketIdentifier::Level1(pid) ==> pid_enc(v.qos) == be_u16(pid)),
        (v.qos matches QoSWithPacketIdentifier::Level2(pid) ==> pid_enc(v.qos) == be_u16(pid)),
{
}

/// `PUBLISH` packet by reference, for encoding without owning the buffers.
#[derive(Debug, Clone, Copy)]
pub struct PublishPacketRef<'a> {
    /// The topic the message is published to.
    pub topic_name: crate::topic_name::TopicNameRef<'a>,
    /// Delivery quality, with the packet identifier above level 0.
    pub qos: QoSWithPacketIdentifier,
    /// The message bytes.
    pub payload: &'a [u8],
}

impl<'a> PublishPacketRef<'a> {
    pub fn new(
        topic_name: crate::topic_name::TopicNameRef<'a>,
        qos: QoSWithPacketIdentifier,
        payload: &'a [u8],
    ) -> (r: PublishPacketRef<'a>)
        ensures
            r.topic_name@ == topic_name@,
            r.qos == qos,
            r.payload@ == payload@,
    {
        PublishPacketRef { topic_name, qos, payload }
    }

    /// The fields of this reference packet, as a publish view with clear
    /// delivery flags.
    pub open spec fn pview(&self) -> PublishView {
        PublishView {
            topic_name: self.topic_name@,
            qos: self.qos,
            dup: false,
            retain: false,
            payload: self.payload@,
        }
    }

    /// An owned publish packet with the same fields and clear flags.
    pub fn to_packet(&self) -> (r: PublishPacket)
        ensures
            r@ == (PublishView {
                topic_name: self.topic_name@,
                qos: self.qos,
                dup: false,
                retain: false,
                payload: self.payload@,
            }),
    {
        let v = slice_to_vec(self.payload);
        let owned = self.topic_name.to_owned_name();
        PublishPacket::new(owned, self.qos, v)
    }
}

impl<'a> EncodablePacket for PublishPacketRef<'a> {
    open spec fn body_enc(&self) -> Seq<u8> {
        publish_body_enc(self.pview())
    }

    open spec fn packet_wf(&self) -> bool {
        valid_topic_name_bytes(encode_utf8(self.topic_name@)) && self.body_enc().len()
            <= max_remaining_len()
    }

    open spec fn spec_packet_type(&self) -> PacketType {
        PacketType {
            typ: ControlType::Publish,
            fl: publish_flags(false, self.qos, false),
        }
    }

    fn packet_type(&self) -> (r: PacketType) {
        let qb: u8 = match self.qos {
            QoSWithPacketIdentifier::Level0 => 0,
            QoSWithPacketIdentifier::Level1(_) => 1,
            QoSWithPacketIdentifier::Level2(_) => 2,
        };
        PacketType { typ: ControlType::Publish, fl: qb * 2 }
    }

    fn encode_packet(&self, buf: &mut Vec<u8>) {
        let s = self.topic_name.as_str();
        proof {
            assert(s@ == self.topic_name@);
        }
        crate::encodable::write_str(buf, s);
        match self.qos {
            QoSWithPacketIdentifier::Level0 => {},
            QoSWithPacketIdentifier::Level1(pid) => write_u16(buf, pid),
            QoSWithPacketIdentifier::Level2(pid) => write_u16(buf, pid),
        }
        let v = slice_to_vec(self.payload);
        write_bytes(buf, &v);
        assert(buf@ =~= old(buf)@ + self.body_enc());
    }

    fn encoded_packet_length(&self) -> (n: u32) {
        let mut tmp: Vec<u8> = Vec::new();
        self.encode_packet(&mut tmp);
        tmp.len() as u32
    }
}

} // verus!

verus! {

impl From<QoSWithPacketIdentifier> for QualityOfService {
    fn from(qos: QoSWithPacketIdentifier) -> (r: QualityOfService)
        ensures
            r == qos_of(qos),
    {
        match qos {
            QoSWithPacketIdentifier::Level0 => QualityOfService::Level0,
            QoSWithPacketIdentifier::Level1(_) => QualityOfService::Level1,
            QoSWithPacketIdentifier::Level2(_) => QualityOfService::Level2,
        }
    }
}

impl vstd::std_specs::convert::FromSpecImpl<QoSWithPacketIdentifier> for QualityOfService {
    open spec fn obeys_from_spec() -> bool {
        true
    }

    open spec fn from_spec(qos: QoSWithPacketIdentifier) -> QualityOfService {
        qos_of(qos)
    }
}

} // verus!
