//! SUBSCRIBE: a subscription request, one (topic filter, requested quality)
//! pair per entry.
use vstd::prelude::*;

verus! {

use vstd::utf8::encode_utf8;
use crate::encodable::{be_u16, string_enc, sp_u8, sp_u16, write_u8, write_u16, read_u8, read_u16, IoError};
use crate::control::fixed_header::{FixedHeader, max_remaining_len};
use crate::control::packet_type::{ControlType, PacketType};
use crate::control::variable_header::{PacketIdentifier, VariableHeaderError};
use crate::packet::{EncodablePacket, DecodablePacket, PacketError};
use crate::encodable::Encodable;
use crate::qos::{QualityOfService, qos_val, sp_qos};
use crate::topic_filter::{
    TopicFilter,
    TopicFilterError,
    TopicFilterDecodeError,
    valid_topic_filter_bytes,
    sp_topic_filter,
    lemma_sp_topic_filter_of_enc,
};

/// Errors while decoding a SUBSCRIBE payload.
#[derive(Debug, PartialEq, Eq, Clone, Copy)]
pub enum SubscribePacketPayloadError {
    /// The input ended inside the payload.
    IoError(IoError),
    /// Filter bytes are not valid UTF-8.
    Utf8,
    /// A requested quality-of-service byte above 2.
    InvalidQualityOfService,
    /// A filter string failed validation.
    TopicFilterError(TopicFilterError),
}

/// The payload bytes of a SUBSCRIBE: each entry is a length-prefixed filter
/// string followed by one requested-quality byte.
pub open spec fn sub_payload_enc(es: Seq<(Seq<char>, QualityOfService)>) -> Seq<u8>
    decreases es.len(),
{
    if es.len() == 0 {
        Seq::empty()
    } else {
        string_enc(es[0].0) + seq![qos_val(es[0].1)] + sub_payload_enc(es.drop_first())
    }
}

/// Appending one entry appends its encoding.
pub proof fn lemma_sub_payload_enc_push(
    es: Seq<(Seq<char>, QualityOfService)>,
    x: (Seq<char>, QualityOfService),
)
    ensures
        sub_payload_enc(es.push(x)) == sub_payload_enc(es) + string_enc(x.0) + seq![qos_val(x.1)],
    decreases es.len(),
{
    if es.len() == 0 {
        assert(es.push(x)[0] == x);
        assert(es.push(x).drop_first() =~= es);
        assert(sub_payload_enc(es.push(x)) == string_enc(x.0) + seq![qos_val(x.1)]
            + sub_payload_enc(es));
        assert(sub_payload_enc(es) == Seq::<u8>::empty());
        assert(sub_payload_enc(es.push(x)) =~= sub_payload_enc(es) + string_enc(x.0) + seq![
            qos_val(x.1),
        ]);
    } else {
        assert(es.push(x).drop_first() =~= es.drop_first().push(x));
        assert(es.push(x)[0] == es[0]);
        assert(sub_payload_enc(es.push(x)) == string_enc(es[0].0) + seq![qos_val(es[0].1)]
            + sub_payload_enc(es.drop_first().push(x)));
        lemma_sub_payload_enc_push(es.drop_first(), x);
        assert(sub_payload_enc(es) == string_enc(es[0].0) + seq![qos_val(es[0].1)]
            + sub_payload_enc(es.drop_first()));
        assert(sub_payload_enc(es.push(x)) =~= sub_payload_enc(es) + string_enc(x.0) + seq![
            qos_val(x.1),
        ]);
    }
}

/// What decoding (filter, quality) entries until `end` yields, appended to
/// those already read. The inner arm on a non-advancing parse can never be
/// taken: a string field consumes at least its two length bytes.
pub open spec fn sp_sub_payload(
    s: Seq<u8>,
    pos: int,
    end: int,
    acc: Seq<(Seq<char>, QualityOfService)>,
) -> Result<Seq<(Seq<char>, QualityOfService)>, SubscribePacketPayloadError>
    recommends
        0 <= pos <= end <= s.len(),
    decreases end - pos,
{
    if pos >= end {
        Ok(acc)
    } else {
        match sp_topic_filter(s, pos, end) {
            Err(TopicFilterDecodeError::IoError(e)) => Err(SubscribePacketPayloadError::IoError(e)),
            Err(TopicFilterDecodeError::Utf8) => Err(SubscribePacketPayloadError::Utf8),
            Err(TopicFilterDecodeError::InvalidTopicFilter(e)) => Err(
                SubscribePacketPayloadError::TopicFilterError(e),
            ),
            Ok((cs, p)) => match sp_u8(s, p, end) {
                Err(e) => Err(SubscribePacketPayloadError::IoError(e)),
                Ok((b, p2)) => match sp_qos(b) {
                    None => Err(SubscribePacketPayloadError::InvalidQualityOfService),
                    Some(q) => if pos < p2 <= end {
                        sp_sub_payload(s, p2, end, acc.push((cs, q)))
                    } else {
                        Err(SubscribePacketPayloadError::IoError(IoError::UnexpectedEof))
                    },
                },
            },
        }
    }
}

/// The fields of a SUBSCRIBE packet, at the spec level.
pub struct SubscribeView {
    pub packet_identifier: u16,
    pub subscribes: Seq<(Seq<char>, QualityOfService)>,
}

/// The body bytes of a SUBSCRIBE: packet identifier, then the entries.
pub open spec fn subscribe_body_enc(v: SubscribeView) -> Seq<u8> {
    be_u16(v.packet_identifier) + sub_payload_enc(v.subscribes)
}

/// What decoding a SUBSCRIBE body of `end - pos` bytes yields.
pub open spec fn sp_subscribe(s: Seq<u8>, pos: int, end: int) -> Result<
    SubscribeView,
    PacketError<SubscribePacketPayloadError>,
>
    recommends
        0 <= pos <= end <= s.len(),
{
    match sp_u16(s, pos, end) {
        Err(e) => Err(PacketError::VariableHeaderError(VariableHeaderError::IoError(e))),
        Ok((pid, p)) => match sp_sub_payload(s, p, end, Seq::empty()) {
            Err(e) => Err(PacketError::PayloadError(e)),
            Ok(es) => Ok(SubscribeView { packet_identifier: pid, subscribes: es }),
        },
    }
}

/// The (characters, quality) pairs of a vector of subscription entries.
pub open spec fn entries_view(v: Seq<(TopicFilter, QualityOfService)>) -> Seq<
    (Seq<char>, QualityOfService),
> {
    Seq::new(v.len(), |i: int| (v[i].0@, v[i].1))
}

/// Payload of a SUBSCRIBE packet.
#[derive(Debug, Eq, PartialEq, Clone)]
pub struct SubscribePacketPayload {
    /// The subscription entries, in order.
    pub subscribes: Vec<(TopicFilter, QualityOfService)>,
}

impl SubscribePacketPayload {
    pub fn new(subs: Vec<(TopicFilter, QualityOfService)>) -> (r: SubscribePacketPayload)
        ensures
            r.subscribes@ == subs@,
    {
        SubscribePacketPayload { subscribes: subs }
    }

    pub fn subscribes(&self) -> (r: &Vec<(TopicFilter, QualityOfService)>)
        ensures
            r@ == self.subscribes@,
    {
        &self.subscribes
    }
}

/// `SUBSCRIBE` packet: a packet identifier and the subscription entries.
#[derive(Debug, Eq, PartialEq, Clone)]
pub struct SubscribePacket {
    /// Identifier correlating this request with its acknowledgement.
    pub packet_identifier: PacketIdentifier,
    /// The subscription entries, in order.
    pub payload: SubscribePacketPayload,
}

impl View for SubscribePacket {
    type V = SubscribeView;

    open spec fn view(&self) -> SubscribeView {
        SubscribeView {
            packet_identifier: self.packet_identifier.0,
            subscribes: entries_view(self.payload.subscribes@),
        }
    }
}

impl SubscribePacket {
    pub fn new(pkid: u16, subscribes: Vec<(TopicFilter, QualityOfService)>) -> (r: SubscribePacket)
        ensures
            r.packet_identifier.0 == pkid,
            r.payload.subscribes@ == subscribes@,
            r@ == (SubscribeView {
                packet_identifier: pkid,
                subscribes: entries_view(subscribes@),
            }),
    {
        SubscribePacket {
            packet_identifier: PacketIdentifier(pkid),
            payload: SubscribePacketPayload::new(subscribes),
        }
    }

    pub fn packet_identifier(&self) -> (r: u16)
        ensures
            r == self.packet_identifier.0,
    {
        self.packet_identifier.0
    }

    pub fn set_packet_identifier(&mut self, pkid: u16)
        ensures
            final(self)@ == (SubscribeView {
                packet_identifier: pkid,
                subscribes: old(self)@.subscribes,
            }),
    {
        self.packet_identifier = PacketIdentifier(pkid);
    }

    /// The subscription entries, in order.
    pub fn subscribes(&self) -> (r: &Vec<(TopicFilter, QualityOfService)>)
        ensures
            r@ == self.payload.subscribes@,
    {
        &self.payload.subscribes
    }

    /// Reads a SUBSCRIBE body, taking (filter, quality) entries up to `end`;
    /// fails on a quality byte above 2.
    pub fn decode_body(buf: &Vec<u8>, pos: usize, end: usize) -> (r: Result<
        SubscribePacket,
        PacketError<SubscribePacketPayloadError>,
    >)
        requires
            pos <= end <= buf@.len(),
        ensures
            match r {
                Ok(pk) => sp_subscribe(buf@, pos as int, end as int) == Ok::<
                    SubscribeView,
                    PacketError<SubscribePacketPayloadError>,
                >(pk@) && forall|i: int|
                    0 <= i < pk.payload.subscribes@.len()
                        ==> #[trigger] pk.payload.subscribes@[i].0.wf(),
                Err(e) => sp_subscribe(buf@, pos as int, end as int) == Err::<
                    SubscribeView,
                    PacketError<SubscribePacketPayloadError>,
                >(e),
            },
    {
        let (pid, start) = match read_u16(buf, pos, end) {
            Ok(v) => v,
            Err(e) => {
                return Err(PacketError::VariableHeaderError(VariableHeaderError::IoError(e)));
            },
        };
        let mut subs: Vec<(TopicFilter, QualityOfService)> = Vec::new();
        let mut p = start;
        proof {
            assert(entries_view(subs@) =~= Seq::<(Seq<char>, QualityOfService)>::empty());
        }
        while p < end
            invariant
                pos <= start <= p <= end <= buf@.len(),
                sp_u16(buf@, pos as int, end as int) == Ok::<(u16, int), IoError>(
                    (pid, start as int),
                ),
                sp_sub_payload(buf@, start as int, end as int, Seq::empty()) == sp_sub_payload(
                    buf@,
                    p as int,
                    end as int,
                    entries_view(subs@),
                ),
                forall|i: int| 0 <= i < subs@.len() ==> #[trigger] subs@[i].0.wf(),
            decreases end - p,
        {
            let (filter, p2) = match TopicFilter::decode(buf, p, end) {
                Ok(v) => v,
                Err(TopicFilterDecodeError::IoError(e)) => {
                    return Err(PacketError::PayloadError(SubscribePacketPayloadError::IoError(e)));
                },
                Err(TopicFilterDecodeError::Utf8) => {
                    return Err(PacketError::PayloadError(SubscribePacketPayloadError::Utf8));
                },
                Err(TopicFilterDecodeError::InvalidTopicFilter(e)) => {
                    return Err(
                        PacketError::PayloadError(SubscribePacketPayloadError::TopicFilterError(e)),
                    );
                },
            };
            proof {
                crate::packet::unsubscribe::lemma_sp_topic_filter_advances(
                    buf@,
                    p as int,
                    end as int,
                );
            }
            let b = match read_u8(buf, p2, end) {
                Ok((b, _)) => b,
                Err(e) => {
                    return Err(PacketError::PayloadError(SubscribePacketPayloadError::IoError(e)));
                },
            };
            let q = match QualityOfService::from_u8(b) {
                Some(q) => q,
                None => {
                    return Err(
                        PacketError::PayloadError(
                            SubscribePacketPayloadError::InvalidQualityOfService,
                        ),
                    );
                },
            };
            let ghost prev = entries_view(subs@);
            proof {
                crate::packet::unsubscribe::lemma_sp_topic_filter_advances(
                    buf@,
                    p as int,
                    end as int,
                );
                assert(sp_sub_payload(buf@, p as int, end as int, prev) == sp_sub_payload(
                    buf@,
                    p2 + 1,
                    end as int,
                    prev.push((filter@, q)),
                ));
            }
            subs.push((filter, q));
            proof {
                assert(entries_view(subs@) =~= prev.push((filter@, q)));
            }
            p = p2 + 1;
        }
        proof {
            assert(sp_sub_payload(buf@, p as int, end as int, entries_view(subs@)) == Ok::<
                Seq<(Seq<char>, QualityOfService)>,
                SubscribePacketPayloadError,
            >(entries_view(subs@)));
        }
        Ok(SubscribePacket::new(pid, subs))
    }
}

impl EncodablePacket for SubscribePacket {
    open spec fn body_enc(&self) -> Seq<u8> {
        subscribe_body_enc(self@)
    }

    open spec fn packet_wf(&self) -> bool {
        &&& forall|i: int|
            0 <= i < self@.subscribes.len() ==> valid_topic_filter_bytes(
                encode_utf8((#[trigger] self@.subscribes[i]).0),
            )
        &&& self.body_enc().len() <= max_remaining_len()
    }

    open spec fn spec_packet_type(&self) -> PacketType {
        PacketType { typ: ControlType::Subscribe, fl: 2 }
    }

    fn packet_type(&self) -> PacketType {
        PacketType::with_default(ControlType::Subscribe)
    }

    fn encode_packet(&self, buf: &mut Vec<u8>) {
        write_u16(buf, self.packet_identifier.0);
        let ghost es = self@.subscribes;
        let n = self.payload.subscribes.len();
        let mut i: usize = 0;
        proof {
            assert(es.take(0) =~= Seq::<(Seq<char>, QualityOfService)>::empty());
        }
        while i < n
            invariant
                0 <= i <= n == self.payload.subscribes@.len(),
                es == self@.subscribes,
                forall|k: int|
                    0 <= k < es.len() ==> valid_topic_filter_bytes(
                        encode_utf8((#[trigger] es[k]).0),
                    ),
                buf@ == old(buf)@ + be_u16(self.packet_identifier.0) + sub_payload_enc(
                    es.take(i as int),
                ),
            decreases n - i,
        {
            proof {
                assert(es[i as int] == (
                    self.payload.subscribes@[i as int].0@,
                    self.payload.subscribes@[i as int].1,
                ));
            }
            self.payload.subscribes[i].0.encode(buf);
            let q = self.payload.subscribes[i].1;
            write_u8(buf, q.to_u8());
            proof {
                assert(es.take(i + 1) =~= es.take(i as int).push(es[i as int]));
                lemma_sub_payload_enc_push(es.take(i as int), es[i as int]);
            }
            i = i + 1;
        }
        proof {
            assert(es.take(n as int) =~= es);
            assert(buf@ =~= old(buf)@ + subscribe_body_enc(self@));
        }
    }

    fn encoded_packet_length(&self) -> (n: u32) {
        let mut tmp: Vec<u8> = Vec::new();
        self.encode_packet(&mut tmp);
        tmp.len() as u32
    }
}

impl DecodablePacket for SubscribePacket {
    type DecodePacketError = SubscribePacketPayloadError;

    fn decode_packet(buf: &Vec<u8>, pos: usize, end: usize, _fixed_header: FixedHeader) -> Result<
        SubscribePacket,
        PacketError<SubscribePacketPayloadError>,
    > {
        SubscribePacket::decode_body(buf, pos, end)
    }
}

/// Valid entry encodings decode back to the entries, appended in order.
pub proof fn lemma_sp_sub_payload_of_enc(
    es: Seq<(Seq<char>, QualityOfService)>,
    s: Seq<u8>,
    pos: int,
    end: int,
    acc: Seq<(Seq<char>, QualityOfService)>,
)
    requires
        0 <= pos,
        forall|i: int|
            0 <= i < es.len() ==> valid_topic_filter_bytes(encode_utf8((#[trigger] es[i]).0)),
        end == pos + sub_payload_enc(es).len(),
        end <= s.len(),
        s.subrange(pos, end) == sub_payload_enc(es),
    ensures
        sp_sub_payload(s, pos, end, acc) == Ok::<
            Seq<(Seq<char>, QualityOfService)>,
            SubscribePacketPayloadError,
        >(acc + es),
    decreases es.len(),
{
    if es.len() == 0 {
        assert(acc + es =~= acc);
    } else {
        let head = es[0];
        let hlen = string_enc(head.0).len() as int;
        let w = sub_payload_enc(es);
        assert(w == string_enc(head.0) + seq![qos_val(head.1)] + sub_payload_enc(es.drop_first()));
        assert(s.subrange(pos, pos + hlen) =~= string_enc(head.0)) by {
            assert forall|j: int| 0 <= j < hlen implies s.subrange(pos, pos + hlen)[j]
                == string_enc(head.0)[j] by {
                assert(s.subrange(pos, end)[j] == w[j]);
            }
        }
        assert(valid_topic_filter_bytes(encode_utf8(head.0)));
        lemma_sp_topic_filter_of_enc(head.0, s, pos, end);
        let p2 = pos + hlen;
        assert(s[p2] == qos_val(head.1)) by {
            assert(s.subrange(pos, end)[hlen] == w[hlen]);
        }
        assert(s.subrange(p2 + 1, end) =~= sub_payload_enc(es.drop_first())) by {
            assert forall|j: int| 0 <= j < end - p2 - 1 implies s.subrange(p2 + 1, end)[j]
                == sub_payload_enc(es.drop_first())[j] by {
                assert(s.subrange(pos, end)[j + hlen + 1] == w[j + hlen + 1]);
            }
        }
        assert forall|i: int| 0 <= i < es.drop_first().len() implies valid_topic_filter_bytes(
            encode_utf8((#[trigger] es.drop_first()[i]).0),
        ) by {
            assert(es.drop_first()[i] == es[i + 1]);
        }
        lemma_sp_sub_payload_of_enc(es.drop_first(), s, p2 + 1, end, acc.push(head));
        assert(acc.push(head) + es.drop_first() =~= acc + es);
        assert((head.0, head.1) == head);
    }
}

/// A well-formed SUBSCRIBE body decodes back from its own encoding, when the
/// body budget ends exactly with it.
pub proof fn lemma_sp_subscribe_of_enc(v: SubscribeView, s: Seq<u8>, pos: int, end: int)
    requires
        0 <= pos,
        forall|i: int|
            0 <= i < v.subscribes.len() ==> valid_topic_filter_bytes(
                encode_utf8((#[trigger] v.subscribes[i]).0),
            ),
        end == pos + subscribe_body_enc(v).len(),
        end <= s.len(),
        s.subrange(pos, end) == subscribe_body_enc(v),
    ensures
        sp_subscribe(s, pos, end) == Ok::<SubscribeView, PacketError<SubscribePacketPayloadError>>(
            v,
        ),
{
    let w = subscribe_body_enc(v);
    assert(s.subrange(pos, pos + 2) =~= be_u16(v.packet_identifier)) by {
        assert(s.subrange(pos, end)[0] == w[0]);
        assert(s.subrange(pos, end)[1] == w[1]);
    }
    crate::encodable::lemma_sp_u16_of_enc(v.packet_identifier, s, pos, end);
    assert(s.subrange(pos + 2, end) =~= sub_payload_enc(v.subscribes)) by {
        assert forall|j: int| 0 <= j < sub_payload_enc(v.subscribes).len() implies s.subrange(
            pos + 2,
            end,
        )[j] == sub_payload_enc(v.subscribes)[j] by {
            assert(s.subrange(pos, end)[j + 2] == w[j + 2]);
        }
    }
    lemma_sp_sub_payload_of_enc(v.subscribes, s, pos + 2, end, Seq::empty());
    assert(Seq::<(Seq<char>, QualityOfService)>::empty() + v.subscribes =~= v.subscribes);
}

} // verus!
