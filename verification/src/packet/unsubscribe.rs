//! UNSUBSCRIBE: a request to drop subscriptions, one topic filter per entry.
use vstd::prelude::*;

verus! {

use vstd::utf8::encode_utf8;
use crate::encodable::{be_u16, string_enc, sp_u16, write_u16, read_u16, IoError};
use crate::control::fixed_header::{FixedHeader, max_remaining_len};
use crate::control::packet_type::{ControlType, PacketType};
use crate::control::variable_header::{PacketIdentifier, VariableHeaderError};
use crate::packet::{EncodablePacket, DecodablePacket, PacketError};
use crate::encodable::Encodable;
use crate::topic_filter::{
    TopicFilter,
    TopicFilterError,
    TopicFilterDecodeError,
    valid_topic_filter_bytes,
    sp_topic_filter,
    lemma_sp_topic_filter_of_enc,
};

/// Errors while decoding an UNSUBSCRIBE payload.
#[derive(Debug, PartialEq, Eq, Clone, Copy)]
pub enum UnsubscribePacketPayloadError {
    /// The input ended inside the payload.
    IoError(IoError),
    /// Filter bytes are not valid UTF-8.
    Utf8,
    /// A filter string failed validation.
    TopicFilterError(TopicFilterError),
}

/// The payload bytes of an UNSUBSCRIBE: each topic filter in order, each as a
/// length-prefixed string.
pub open spec fn unsub_payload_enc(fs: Seq<Seq<char>>) -> Seq<u8>
    decreases fs.len(),
{
    if fs.len() == 0 {
        Seq::empty()
    } else {
        string_enc(fs[0]) + unsub_payload_enc(fs.drop_first())
    }
}

/// Appending one filter appends its encoding.
pub proof fn lemma_unsub_payload_enc_push(fs: Seq<Seq<char>>, x: Seq<char>)
    ensures
        unsub_payload_enc(fs.push(x)) == unsub_payload_enc(fs) + string_enc(x),
    decreases fs.len(),
{
    if fs.len() == 0 {
        assert(fs.push(x)[0] == x);
        assert(fs.push(x).drop_first() =~= fs);
        assert(unsub_payload_enc(fs.push(x)) == string_enc(x) + unsub_payload_enc(fs));
        assert(unsub_payload_enc(fs) == Seq::<u8>::empty());
        assert(unsub_payload_enc(fs.push(x)) =~= unsub_payload_enc(fs) + string_enc(x));
    } else {
        assert(fs.push(x).drop_first() =~= fs.drop_first().push(x));
        assert(fs.push(x)[0] == fs[0]);
        assert(unsub_payload_enc(fs.push(x)) == string_enc(fs[0]) + unsub_payload_enc(
            fs.drop_first().push(x),
        ));
        lemma_unsub_payload_enc_push(fs.drop_first(), x);
        assert(unsub_payload_enc(fs) == string_enc(fs[0]) + unsub_payload_enc(fs.drop_first()));
        assert(unsub_payload_enc(fs.push(x)) =~= unsub_payload_enc(fs) + string_enc(x));
    }
}

/// What decoding topic filters until `end` yields, appended to those already
/// read. The inner arm on a non-advancing parse can never be taken: a string
/// field consumes at least its two length bytes.
pub open spec fn sp_unsub_payload(s: Seq<u8>, pos: int, end: int, acc: Seq<Seq<char>>) -> Result<
    Seq<Seq<char>>,
    UnsubscribePacketPayloadError,
>
    recommends
        0 <= pos <= end <= s.len(),
    decreases end - pos,
{
    if pos >= end {
        Ok(acc)
    } else {
        match sp_topic_filter(s, pos, end) {
            Err(TopicFilterDecodeError::IoError(e)) => Err(
                UnsubscribePacketPayloadError::IoError(e),
            ),
            Err(TopicFilterDecodeError::Utf8) => Err(UnsubscribePacketPayloadError::Utf8),
            Err(TopicFilterDecodeError::InvalidTopicFilter(e)) => Err(
                UnsubscribePacketPayloadError::TopicFilterError(e),
            ),
            Ok((cs, p)) => if pos < p <= end {
                sp_unsub_payload(s, p, end, acc.push(cs))
            } else {
                Err(UnsubscribePacketPayloadError::IoError(IoError::UnexpectedEof))
            },
        }
    }
}

/// A successful topic-filter parse consumes at least its two length bytes and
/// stays within the bound.
pub proof fn lemma_sp_topic_filter_advances(s: Seq<u8>, pos: int, end: int)
    requires
        0 <= pos <= end <= s.len(),
    ensures
        sp_topic_filter(s, pos, end) matches Ok(cp) ==> pos + 2 <= cp.1 <= end,
{
}

/// The fields of an UNSUBSCRIBE packet, at the spec level.
pub struct UnsubscribeView {
    pub packet_identifier: u16,
    pub subscribes: Seq<Seq<char>>,
}

/// The body bytes of an UNSUBSCRIBE: packet identifier, then the filters.
pub open spec fn unsubscribe_body_enc(v: UnsubscribeView) -> Seq<u8> {
    be_u16(v.packet_identifier) + unsub_payload_enc(v.subscribes)
}

/// What decoding an UNSUBSCRIBE body of `end - pos` bytes yields.
pub open spec fn sp_unsubscribe(s: Seq<u8>, pos: int, end: int) -> Result<
    UnsubscribeView,
    PacketError<UnsubscribePacketPayloadError>,
>
    recommends
        0 <= pos <= end <= s.len(),
{
    match sp_u16(s, pos, end) {
        Err(e) => Err(PacketError::VariableHeaderError(VariableHeaderError::IoError(e))),
        Ok((pid, p)) => match sp_unsub_payload(s, p, end, Seq::empty()) {
            Err(e) => Err(PacketError::PayloadError(e)),
            Ok(fs) => Ok(UnsubscribeView { packet_identifier: pid, subscribes: fs }),
        },
    }
}

/// The character sequences of a vector of topic filters.
pub open spec fn filters_view(v: Seq<TopicFilter>) -> Seq<Seq<char>> {
    Seq::new(v.len(), |i: int| v[i]@)
}

/// Payload of an UNSUBSCRIBE packet.
#[derive(Debug, Eq, PartialEq, Clone)]
pub struct UnsubscribePacketPayload {
    /// The filters to drop, in order.
    pub subscribes: Vec<TopicFilter>,
}

impl UnsubscribePacketPayload {
    pub fn new(subs: Vec<TopicFilter>) -> (r: UnsubscribePacketPayload)
        ensures
            r.subscribes@ == subs@,
    {
        UnsubscribePacketPayload { subscribes: subs }
    }

    pub fn subscribes(&self) -> (r: &Vec<TopicFilter>)
        ensures
            r@ == self.subscribes@,
    {
        &self.subscribes
    }
}

/// `UNSUBSCRIBE` packet: a packet identifier and the filters to drop.
#[derive(Debug, Eq, PartialEq, Clone)]
pub struct UnsubscribePacket {
    /// Identifier correlating this request with its acknowledgement.
    pub packet_identifier: PacketIdentifier,
    /// The filters to drop, in order.
    pub payload: UnsubscribePacketPayload,
}

impl View for UnsubscribePacket {
    type V = UnsubscribeView;

    open spec fn view(&self) -> UnsubscribeView {
        UnsubscribeView {
            packet_identifier: self.packet_identifier.0,
            subscribes: filters_view(self.payload.subscribes@),
        }
    }
}

impl UnsubscribePacket {
    pub fn new(pkid: u16, subscribes: Vec<TopicFilter>) -> (r: UnsubscribePacket)
        ensures
            r.packet_identifier.0 == pkid,
            r.payload.subscribes@ == subscribes@,
            r@ == (UnsubscribeView {
                packet_identifier: pkid,
                subscribes: filters_view(subscribes@),
            }),
    {
        UnsubscribePacket {
            packet_identifier: PacketIdentifier(pkid),
            payload: UnsubscribePacketPayload::new(subscribes),
        }
    }

    pub fn packet_identifier(&self) -> (r: u16)
        ensures
            r == self.packet_identifier.0,
    {
        self.packet_identifier.0
    }

    pub fn set_packet_identifier(&mut self, pkid: u16)
        ensures
            final(self)@ == (UnsubscribeView {
                packet_identifier: pkid,
                subscribes: old(self)@.subscribes,
            }),
    {
        self.packet_identifier = PacketIdentifier(pkid);
    }

    /// The filters to drop, in order.
    pub fn subscribes(&self) -> (r: &Vec<TopicFilter>)
        ensures
            r@ == self.payload.subscribes@,
    {
        &self.payload.subscribes
    }

    /// Reads an UNSUBSCRIBE body, taking topic filters up to `end`.
    pub fn decode_body(buf: &Vec<u8>, pos: usize, end: usize) -> (r: Result<
        UnsubscribePacket,
        PacketError<UnsubscribePacketPayloadError>,
    >)
        requires
            pos <= end <= buf@.len(),
        ensures
            match r {
                Ok(pk) => sp_unsubscribe(buf@, pos as int, end as int) == Ok::<
                    UnsubscribeView,
                    PacketError<UnsubscribePacketPayloadError>,
                >(pk@) && forall|i: int|
                    0 <= i < pk.payload.subscribes@.len()
                        ==> #[trigger] pk.payload.subscribes@[i].wf(),
                Err(e) => sp_unsubscribe(buf@, pos as int, end as int) == Err::<
                    UnsubscribeView,
                    PacketError<UnsubscribePacketPayloadError>,
                >(e),
            },
    {
        let (pid, start) = match read_u16(buf, pos, end) {
            Ok(v) => v,
            Err(e) => {
                return Err(PacketError::VariableHeaderError(VariableHeaderError::IoError(e)));
            },
        };
        let mut subs: Vec<TopicFilter> = Vec::new();
        let mut p = start;
        proof {
            assert(filters_view(subs@) =~= Seq::<Seq<char>>::empty());
        }
        while p < end
            invariant
                pos <= start <= p <= end <= buf@.len(),
                sp_u16(buf@, pos as int, end as int) == Ok::<(u16, int), IoError>(
                    (pid, start as int),
                ),
                sp_unsub_payload(buf@, start as int, end as int, Seq::empty())
                    == sp_unsub_payload(buf@, p as int, end as int, filters_view(subs@)),
                forall|i: int| 0 <= i < subs@.len() ==> #[trigger] subs@[i].wf(),
            decreases end - p,
        {
            let (filter, p2) = match TopicFilter::decode(buf, p, end) {
                Ok(v) => v,
                Err(TopicFilterDecodeError::IoError(e)) => {
                    return Err(
                        PacketError::PayloadError(UnsubscribePacketPayloadError::IoError(e)),
                    );
                },
                Err(TopicFilterDecodeError::Utf8) => {
                    return Err(PacketError::PayloadError(UnsubscribePacketPayloadError::Utf8));
                },
                Err(TopicFilterDecodeError::InvalidTopicFilter(e)) => {
                    return Err(
                        PacketError::PayloadError(
                            UnsubscribePacketPayloadError::TopicFilterError(e),
                        ),
                    );
                },
            };
            let ghost prev = filters_view(subs@);
            proof {
                lemma_sp_topic_filter_advances(buf@, p as int, end as int);
                assert(sp_unsub_payload(buf@, p as int, end as int, prev) == sp_unsub_payload(
                    buf@,
                    p2 as int,
                    end as int,
                    prev.push(filter@),
                ));
            }
            subs.push(filter);
            proof {
                assert(filters_view(subs@) =~= prev.push(filter@));
            }
            p = p2;
        }
        proof {
            assert(sp_unsub_payload(buf@, p as int, end as int, filters_view(subs@)) == Ok::<
                Seq<Seq<char>>,
                UnsubscribePacketPayloadError,
            >(filters_view(subs@)));
        }
        Ok(UnsubscribePacket::new(pid, subs))
    }
}

impl EncodablePacket for UnsubscribePacket {
    open spec fn body_enc(&self) -> Seq<u8> {
        unsubscribe_body_enc(self@)
    }

    open spec fn packet_wf(&self) -> bool {
        &&& forall|i: int|
            0 <= i < self@.subscribes.len() ==> valid_topic_filter_bytes(
                encode_utf8(#[trigger] self@.subscribes[i]),
            )
        &&& self.body_enc().len() <= max_remaining_len()
    }

    open spec fn spec_packet_type(&self) -> PacketType {
        PacketType { typ: ControlType::Unsubscribe, fl: 2 }
    }

    fn packet_type(&self) -> PacketType {
        PacketType::with_default(ControlType::Unsubscribe)
    }

    fn encode_packet(&self, buf: &mut Vec<u8>) {
        write_u16(buf, self.packet_identifier.0);
        let ghost fs = self@.subscribes;
        let n = self.payload.subscribes.len();
        let mut i: usize = 0;
        proof {
            assert(fs.take(0) =~= Seq::<Seq<char>>::empty());
        }
        while i < n
            invariant
                0 <= i <= n == self.payload.subscribes@.len(),
                fs == self@.subscribes,
                forall|k: int|
                    0 <= k < fs.len() ==> valid_topic_filter_bytes(encode_utf8(#[trigger] fs[k])),
                buf@ == old(buf)@ + be_u16(self.packet_identifier.0) + unsub_payload_enc(
                    fs.take(i as int),
                ),
            decreases n - i,
        {
            proof {
                assert(fs[i as int] == self.payload.subscribes@[i as int]@);
            }
            self.payload.subscribes[i].encode(buf);
            proof {
                assert(fs.take(i + 1) =~= fs.take(i as int).push(fs[i as int]));
                lemma_unsub_payload_enc_push(fs.take(i as int), fs[i as int]);
            }
            i = i + 1;
        }
        proof {
            assert(fs.take(n as int) =~= fs);
            assert(buf@ =~= old(buf)@ + unsubscribe_body_enc(self@));
        }
    }

    fn encoded_packet_length(&self) -> (n: u32) {
        let mut tmp: Vec<u8> = Vec::new();
        self.encode_packet(&mut tmp);
        tmp.len() as u32
    }
}

impl DecodablePacket for UnsubscribePacket {
    type DecodePacketError = UnsubscribePacketPayloadError;

    fn decode_packet(buf: &Vec<u8>, pos: usize, end: usize, _fixed_header: FixedHeader) -> Result<
        UnsubscribePacket,
        PacketError<UnsubscribePacketPayloadError>,
    > {
        UnsubscribePacket::decode_body(buf, pos, end)
    }
}

/// Valid filter encodings decode back to the filters, appended in order.
pub proof fn lemma_sp_unsub_payload_of_enc(
    fs: Seq<Seq<char>>,
    s: Seq<u8>,
    pos: int,
    end: int,
    acc: Seq<Seq<char>>,
)
    requires
        0 <= pos,
        forall|i: int|
            0 <= i < fs.len() ==> valid_topic_filter_bytes(encode_utf8(#[trigger] fs[i])),
        end == pos + unsub_payload_enc(fs).len(),
        end <= s.len(),
        s.subrange(pos, end) == unsub_payload_enc(fs),
    ensures
        sp_unsub_payload(s, pos, end, acc) == Ok::<Seq<Seq<char>>, UnsubscribePacketPayloadError>(
            acc + fs,
        ),
    decreases fs.len(),
{
    if fs.len() == 0 {
        assert(acc + fs =~= acc);
    } else {
        let head = fs[0];
        let hlen = string_enc(head).len() as int;
        let w = unsub_payload_enc(fs);
        assert(w == string_enc(head) + unsub_payload_enc(fs.drop_first()));
        assert(s.subrange(pos, pos + hlen) =~= string_enc(head)) by {
            assert forall|j: int| 0 <= j < hlen implies s.subrange(pos, pos + hlen)[j]
                == string_enc(head)[j] by {
                assert(s.subrange(pos, end)[j] == w[j]);
            }
        }
        assert(valid_topic_filter_bytes(encode_utf8(head)));
        lemma_sp_topic_filter_of_enc(head, s, pos, end);
        let p2 = pos + hlen;
        assert(s.subrange(p2, end) =~= unsub_payload_enc(fs.drop_first())) by {
            assert forall|j: int| 0 <= j < end - p2 implies s.subrange(p2, end)[j]
                == unsub_payload_enc(fs.drop_first())[j] by {
                assert(s.subrange(pos, end)[j + hlen] == w[j + hlen]);
            }
        }
        assert forall|i: int| 0 <= i < fs.drop_first().len() implies valid_topic_filter_bytes(
            encode_utf8(#[trigger] fs.drop_first()[i]),
        ) by {
            assert(fs.drop_first()[i] == fs[i + 1]);
        }
        lemma_sp_unsub_payload_of_enc(fs.drop_first(), s, p2, end, acc.push(head));
        assert(acc.push(head) + fs.drop_first() =~= acc + fs);
    }
}

/// A well-formed UNSUBSCRIBE body decodes back from its own encoding, when the
/// body budget ends exactly with it.
pub proof fn lemma_sp_unsubscribe_of_enc(v: UnsubscribeView, s: Seq<u8>, pos: int, end: int)
    requires
        0 <= pos,
        forall|i: int|
            0 <= i < v.subscribes.len() ==> valid_topic_filter_bytes(
                encode_utf8(#[trigger] v.subscribes[i]),
            ),
        end == pos + unsubscribe_body_enc(v).len(),
        end <= s.len(),
        s.subrange(pos, end) == unsubscribe_body_enc(v),
    ensures
        sp_unsubscribe(s, pos, end) == Ok::<
            UnsubscribeView,
            PacketError<UnsubscribePacketPayloadError>,
        >(v),
{
    let w = unsubscribe_body_enc(v);
    assert(s.subrange(pos, pos + 2) =~= be_u16(v.packet_identifier)) by {
        assert(s.subrange(pos, end)[0] == w[0]);
        assert(s.subrange(pos, end)[1] == w[1]);
    }
    crate::encodable::lemma_sp_u16_of_enc(v.packet_identifier, s, pos, end);
    assert(s.subrange(pos + 2, end) =~= unsub_payload_enc(v.subscribes)) by {
        assert forall|j: int| 0 <= j < unsub_payload_enc(v.subscribes).len() implies s.subrange(
            pos + 2,
            end,
        )[j] == unsub_payload_enc(v.subscribes)[j] by {
            assert(s.subrange(pos, end)[j + 2] == w[j + 2]);
        }
    }
    lemma_sp_unsub_payload_of_enc(v.subscribes, s, pos + 2, end, Seq::empty());
    assert(Seq::<Seq<char>>::empty() + v.subscribes =~= v.subscribes);
}

} // verus!
