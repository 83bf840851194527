//! Specific control packets, and the tagged union over all fourteen of them.

use vstd::prelude::*;

pub mod connack;
pub mod connect;
pub mod disconnect;
pub mod pingreq;
pub mod pingresp;
pub mod puback;
pub mod pubcomp;
pub mod publish;
pub mod pubrec;
pub mod pubrel;
pub mod suback;
pub mod subscribe;
pub mod unsuback;
pub mod unsubscribe;

pub use connack::ConnackPacket;
pub use connect::ConnectPacket;
pub use disconnect::DisconnectPacket;
pub use pingreq::PingreqPacket;
pub use pingresp::PingrespPacket;
pub use puback::PubackPacket;
pub use pubcomp::PubcompPacket;
pub use publish::{PublishPacket, PublishPacketRef, QoSWithPacketIdentifier};
pub use pubrec::PubrecPacket;
pub use pubrel::PubrelPacket;
pub use suback::SubackPacket;
pub use subscribe::SubscribePacket;
pub use unsuback::UnsubackPacket;
pub use unsubscribe::UnsubscribePacket;

verus! {

use crate::encodable::{Encodable, IoError};
use crate::control::fixed_header::{FixedHeader, FixedHeaderError, max_remaining_len};
use crate::control::packet_type::{PacketType, pt_wf};
use crate::control::variable_header::VariableHeaderError;
use crate::topic_name::TopicNameError;

/// A packet that can be encoded: a fixed header computed from its body,
/// followed by the body bytes (variable header and payload).
pub trait EncodablePacket {
    /// The bytes after the fixed header: variable header and payload.
    spec fn body_enc(&self) -> Seq<u8>;

    /// When the packet fits the wire limits.
    spec fn packet_wf(&self) -> bool;

    /// The packet type this packet is carried under.
    spec fn spec_packet_type(&self) -> PacketType;

    /// The packet type, executable form.
    fn packet_type(&self) -> (r: PacketType)
        ensures
            r == self.spec_packet_type(),
    ;

    /// Appends the body bytes to `buf`.
    fn encode_packet(&self, buf: &mut Vec<u8>)
        requires
            self.packet_wf(),
        ensures
            final(buf)@ == old(buf)@ + self.body_enc(),
    ;

    /// Length in bytes of the body, without writing it.
    fn encoded_packet_length(&self) -> (n: u32)
        requires
            self.packet_wf(),
        ensures
            n == self.body_enc().len(),
    ;
}

/// The fixed header a packet is written under: its packet type, with the body
/// length as the remaining length.
pub open spec fn packet_fh<T: EncodablePacket>(p: &T) -> FixedHeader {
    FixedHeader {
        packet_type: p.spec_packet_type(),
        remaining_length: p.body_enc().len() as u32,
    }
}

impl<T: EncodablePacket> Encodable for T {
    open spec fn enc(&self) -> Seq<u8> {
        packet_fh(self).enc() + self.body_enc()
    }

    open spec fn enc_wf(&self) -> bool {
        self.packet_wf() && self.body_enc().len() <= max_remaining_len() && pt_wf(
            self.spec_packet_type(),
        )
    }

    fn encode(&self, buf: &mut Vec<u8>) {
        let len = self.encoded_packet_length();
        let fh = FixedHeader::new(self.packet_type(), len);
        fh.encode(buf);
        self.encode_packet(buf);
        assert(buf@ =~= old(buf)@ + self.enc());
    }

    fn encoded_length(&self) -> (n: u32) {
        let len = self.encoded_packet_length();
        let fh = FixedHeader::new(self.packet_type(), len);
        proof {
            crate::control::fixed_header::lemma_varint_len(len as int);
        }
        fh.encoded_length() + len
    }
}

/// A packet that can be decoded, given an already-parsed fixed header and the
/// body bytes it announces. The exact contract of each decoder is stated on
/// the inherent method the implementation forwards to.
pub trait DecodablePacket: EncodablePacket + Sized {
    type DecodePacketError;

    /// Decodes the packet body from `buf[pos..end]` under `fixed_header`.
    fn decode_packet(buf: &Vec<u8>, pos: usize, end: usize, fixed_header: FixedHeader) -> Result<
        Self,
        PacketError<Self::DecodePacketError>,
    >
        requires
            pos <= end <= buf@.len(),
    ;
}

/// Parsing errors for a packet, generic over the packet's own payload error.
#[derive(Debug, PartialEq, Eq, Clone, Copy)]
pub enum PacketError<E> {
    /// The fixed header could not be parsed.
    FixedHeaderError(FixedHeaderError),
    /// A variable-header fragment could not be parsed.
    VariableHeaderError(VariableHeaderError),
    /// The payload could not be parsed.
    PayloadError(E),
    /// The input ended inside the packet.
    IoError(IoError),
    /// String bytes are not valid UTF-8.
    Utf8,
    /// A topic-name field failed validation.
    TopicNameError(TopicNameError),
}

} // verus!

verus! {

use crate::encodable::{
    IoError as PrimIoError,
    read_bytes,
    lemma_component_at,
};
use crate::control::fixed_header::{
    sp_fixed_header,
    sp_remaining_len,
    read_remaining_len,
    lemma_varint_len,
    lemma_sp_fixed_header_of_enc,
};
use crate::control::packet_type::ControlType;
use crate::packet::disconnect::sp_disconnect as sp_disconnect_pkt;
use crate::packet::connect::ConnectView;
use crate::packet::publish::PublishView;
use crate::packet::subscribe::SubscribeView;
use crate::packet::suback::SubackView;
use crate::packet::unsubscribe::UnsubscribeView;

/// The fourteen control packets as one tagged union.
#[derive(Debug, Eq, PartialEq, Clone)]
pub enum VariablePacket {
    ConnectPacket(ConnectPacket),
    ConnackPacket(ConnackPacket),
    PublishPacket(PublishPacket),
    PubackPacket(PubackPacket),
    PubrecPacket(PubrecPacket),
    PubrelPacket(PubrelPacket),
    PubcompPacket(PubcompPacket),
    PingreqPacket(PingreqPacket),
    PingrespPacket(PingrespPacket),
    SubscribePacket(SubscribePacket),
    SubackPacket(SubackPacket),
    UnsubscribePacket(UnsubscribePacket),
    UnsubackPacket(UnsubackPacket),
    DisconnectPacket(DisconnectPacket),
}

/// The fields of a variable packet, at the spec level: each variant carries
/// the corresponding packet's fields.
pub enum VariablePacketView {
    ConnectPacket(ConnectView),
    ConnackPacket(ConnackPacket),
    PublishPacket(PublishView),
    PubackPacket(PubackPacket),
    PubrecPacket(PubrecPacket),
    PubrelPacket(PubrelPacket),
    PubcompPacket(PubcompPacket),
    PingreqPacket(PingreqPacket),
    PingrespPacket(PingrespPacket),
    SubscribePacket(SubscribeView),
    SubackPacket(SubackView),
    UnsubscribePacket(UnsubscribeView),
    UnsubackPacket(UnsubackPacket),
    DisconnectPacket(DisconnectPacket),
}

impl View for VariablePacket {
    type V = VariablePacketView;

    open spec fn view(&self) -> VariablePacketView {
        match self {
            VariablePacket::ConnectPacket(pk) => VariablePacketView::ConnectPacket(pk@),
            VariablePacket::ConnackPacket(pk) => VariablePacketView::ConnackPacket(*pk),
            VariablePacket::PublishPacket(pk) => VariablePacketView::PublishPacket(pk@),
            VariablePacket::PubackPacket(pk) => VariablePacketView::PubackPacket(*pk),
            VariablePacket::PubrecPacket(pk) => VariablePacketView::PubrecPacket(*pk),
            VariablePacket::PubrelPacket(pk) => VariablePacketView::PubrelPacket(*pk),
            VariablePacket::PubcompPacket(pk) => VariablePacketView::PubcompPacket(*pk),
            VariablePacket::PingreqPacket(pk) => VariablePacketView::PingreqPacket(*pk),
            VariablePacket::PingrespPacket(pk) => VariablePacketView::PingrespPacket(*pk),
            VariablePacket::SubscribePacket(pk) => VariablePacketView::SubscribePacket(pk@),
            VariablePacket::SubackPacket(pk) => VariablePacketView::SubackPacket(pk@),
            VariablePacket::UnsubscribePacket(pk) => VariablePacketView::UnsubscribePacket(pk@),
            VariablePacket::UnsubackPacket(pk) => VariablePacketView::UnsubackPacket(*pk),
            VariablePacket::DisconnectPacket(pk) => VariablePacketView::DisconnectPacket(*pk),
        }
    }
}

/// Parsing errors for a variable packet.
#[derive(Debug, PartialEq, Eq, Clone)]
pub enum VariablePacketError {
    /// The fixed header could not be parsed.
    FixedHeaderError(FixedHeaderError),
    /// A reserved packet type, with the body bytes drained for diagnostics.
    ReservedPacket(u8, Vec<u8>),
    /// The input ended inside the packet.
    IoError(PrimIoError),
    ConnectPacketError(PacketError<connect::ConnectPacketError>),
    ConnackPacketError(PacketError<()>),
    PublishPacketError(PacketError<()>),
    PubackPacketError(PacketError<()>),
    PubrecPacketError(PacketError<()>),
    PubrelPacketError(PacketError<()>),
    PubcompPacketError(PacketError<()>),
    PingreqPacketError(PacketError<()>),
    PingrespPacketError(PacketError<()>),
    SubscribePacketError(PacketError<subscribe::SubscribePacketPayloadError>),
    SubackPacketError(PacketError<suback::SubackPacketPayloadError>),
    UnsubscribePacketError(PacketError<unsubscribe::UnsubscribePacketPayloadError>),
    UnsubackPacketError(PacketError<()>),
    DisconnectPacketError(PacketError<()>),
}

/// The spec-level form of a variable-packet error: the drained bytes of a
/// reserved packet are carried as a byte sequence.
pub enum VariablePacketErrorView {
    FixedHeaderError(FixedHeaderError),
    ReservedPacket(u8, Seq<u8>),
    IoError(PrimIoError),
    ConnectPacketError(PacketError<connect::ConnectPacketError>),
    ConnackPacketError(PacketError<()>),
    PublishPacketError(PacketError<()>),
    PubackPacketError(PacketError<()>),
    PubrecPacketError(PacketError<()>),
    PubrelPacketError(PacketError<()>),
    PubcompPacketError(PacketError<()>),
    PingreqPacketError(PacketError<()>),
    PingrespPacketError(PacketError<()>),
    SubscribePacketError(PacketError<subscribe::SubscribePacketPayloadError>),
    SubackPacketError(PacketError<suback::SubackPacketPayloadError>),
    UnsubscribePacketError(PacketError<unsubscribe::UnsubscribePacketPayloadError>),
    UnsubackPacketError(PacketError<()>),
    DisconnectPacketError(PacketError<()>),
}

/// The spec-level form of a variable-packet error.
pub open spec fn vp_err_view(e: VariablePacketError) -> VariablePacketErrorView {
    match e {
        VariablePacketError::FixedHeaderError(x) => VariablePacketErrorView::FixedHeaderError(x),
        VariablePacketError::ReservedPacket(c, v) => VariablePacketErrorView::ReservedPacket(c, v@),
        VariablePacketError::IoError(x) => VariablePacketErrorView::IoError(x),
        VariablePacketError::ConnectPacketError(x) => VariablePacketErrorView::ConnectPacketError(x),
        VariablePacketError::ConnackPacketError(x) => VariablePacketErrorView::ConnackPacketError(x),
        VariablePacketError::PublishPacketError(x) => VariablePacketErrorView::PublishPacketError(x),
        VariablePacketError::PubackPacketError(x) => VariablePacketErrorView::PubackPacketError(x),
        VariablePacketError::PubrecPacketError(x) => VariablePacketErrorView::PubrecPacketError(x),
        VariablePacketError::PubrelPacketError(x) => VariablePacketErrorView::PubrelPacketError(x),
        VariablePacketError::PubcompPacketError(x) => VariablePacketErrorView::PubcompPacketError(x),
        VariablePacketError::PingreqPacketError(x) => VariablePacketErrorView::PingreqPacketError(x),
        VariablePacketError::PingrespPacketError(x) => VariablePacketErrorView::PingrespPacketError(x),
        VariablePacketError::SubscribePacketError(x) => VariablePacketErrorView::SubscribePacketError(x),
        VariablePacketError::SubackPacketError(x) => VariablePacketErrorView::SubackPacketError(x),
        VariablePacketError::UnsubscribePacketError(x) => VariablePacketErrorView::UnsubscribePacketError(x),
        VariablePacketError::UnsubackPacketError(x) => VariablePacketErrorView::UnsubackPacketError(x),
        VariablePacketError::DisconnectPacketError(x) => VariablePacketErrorView::DisconnectPacketError(x),
    }
}

/// What decoding a packet body yields under an already-parsed fixed header:
/// the header's control type selects the packet decoder.
pub open spec fn sp_dispatch(s: Seq<u8>, pos: int, end: int, fh: FixedHeader) -> Result<
    VariablePacketView,
    VariablePacketErrorView,
>
    recommends
        0 <= pos <= end <= s.len(),
        pt_wf(fh.packet_type),
{
    match fh.packet_type.typ {
        ControlType::Connect => match connect::sp_connect(s, pos, end) {
            Ok(v) => Ok(VariablePacketView::ConnectPacket(v)),
            Err(e) => Err(VariablePacketErrorView::ConnectPacketError(e)),
        },
        ControlType::ConnectAcknowledgement => match connack::sp_connack(s, pos, end) {
            Ok(v) => Ok(VariablePacketView::ConnackPacket(v)),
            Err(e) => Err(VariablePacketErrorView::ConnackPacketError(e)),
        },
        ControlType::Publish => match publish::sp_publish(s, pos, end, fh.packet_type.fl) {
            Ok(v) => Ok(VariablePacketView::PublishPacket(v)),
            Err(e) => Err(VariablePacketErrorView::PublishPacketError(e)),
        },
        ControlType::PublishAcknowledgement => match puback::sp_puback(s, pos, end) {
            Ok(v) => Ok(VariablePacketView::PubackPacket(v)),
            Err(e) => Err(VariablePacketErrorView::PubackPacketError(e)),
        },
        ControlType::PublishReceived => match pubrec::sp_pubrec(s, pos, end) {
            Ok(v) => Ok(VariablePacketView::PubrecPacket(v)),
            Err(e) => Err(VariablePacketErrorView::PubrecPacketError(e)),
        },
        ControlType::PublishRelease => match pubrel::sp_pubrel(s, pos, end) {
            Ok(v) => Ok(VariablePacketView::PubrelPacket(v)),
            Err(e) => Err(VariablePacketErrorView::PubrelPacketError(e)),
        },
        ControlType::PublishComplete => match pubcomp::sp_pubcomp(s, pos, end) {
            Ok(v) => Ok(VariablePacketView::PubcompPacket(v)),
            Err(e) => Err(VariablePacketErrorView::PubcompPacketError(e)),
        },
        ControlType::PingRequest => match pingreq::sp_pingreq(s, pos, end) {
            Ok(v) => Ok(VariablePacketView::PingreqPacket(v)),
            Err(e) => Err(VariablePacketErrorView::PingreqPacketError(e)),
        },
        ControlType::PingResponse => match pingresp::sp_pingresp(s, pos, end) {
            Ok(v) => Ok(VariablePacketView::PingrespPacket(v)),
            Err(e) => Err(VariablePacketErrorView::PingrespPacketError(e)),
        },
        ControlType::Subscribe => match subscribe::sp_subscribe(s, pos, end) {
            Ok(v) => Ok(VariablePacketView::SubscribePacket(v)),
            Err(e) => Err(VariablePacketErrorView::SubscribePacketError(e)),
        },
        ControlType::SubscribeAcknowledgement => match suback::sp_suback(s, pos, end) {
            Ok(v) => Ok(VariablePacketView::SubackPacket(v)),
            Err(e) => Err(VariablePacketErrorView::SubackPacketError(e)),
        },
        ControlType::Unsubscribe => match unsubscribe::sp_unsubscribe(s, pos, end) {
            Ok(v) => Ok(VariablePacketView::UnsubscribePacket(v)),
            Err(e) => Err(VariablePacketErrorView::UnsubscribePacketError(e)),
        },
        ControlType::UnsubscribeAcknowledgement => match unsuback::sp_unsuback(s, pos, end) {
            Ok(v) => Ok(VariablePacketView::UnsubackPacket(v)),
            Err(e) => Err(VariablePacketErrorView::UnsubackPacketError(e)),
        },
        ControlType::Disconnect => match sp_disconnect_pkt(s, pos, end) {
            Ok(v) => Ok(VariablePacketView::DisconnectPacket(v)),
            Err(e) => Err(VariablePacketErrorView::DisconnectPacketError(e)),
        },
    }
}

/// What decoding a whole variable packet from `s[pos..]` yields: the fixed
/// header, then the body under a budget of exactly the remaining length (or
/// what is left of the buffer, when shorter). A reserved type drains its
/// announced body for diagnostics.
pub open spec fn sp_variable_packet(s: Seq<u8>, pos: int) -> Result<
    (VariablePacketView, int),
    VariablePacketErrorView,
> {
    match sp_fixed_header(s, pos, s.len() as int) {
        Err(FixedHeaderError::ReservedType(code, rl)) => match sp_remaining_len(
            s,
            pos + 1,
            s.len() as int,
        ) {
            Ok((_, p2)) => {
                let de = if p2 + rl <= s.len() {
                    p2 + rl
                } else {
                    s.len() as int
                };
                Err(VariablePacketErrorView::ReservedPacket(code, s.subrange(p2, de)))
            },
            Err(_) => Err(
                VariablePacketErrorView::FixedHeaderError(
                    FixedHeaderError::ReservedType(code, rl),
                ),
            ),
        },
        Err(e) => Err(VariablePacketErrorView::FixedHeaderError(e)),
        Ok((fh, p)) => {
            if p + fh.remaining_length <= s.len() {
                let end = p + fh.remaining_length as int;
                match sp_dispatch(s, p, end, fh) {
                    Ok(v) => Ok((v, end)),
                    Err(e) => Err(e),
                }
            } else {
                Err(VariablePacketErrorView::IoError(PrimIoError::UnexpectedEof))
            }
        },
    }
}

/// Decodes a packet body under an already-parsed fixed header.
pub fn dispatch_decode(buf: &Vec<u8>, pos: usize, end: usize, fh: FixedHeader) -> (r: Result<
    VariablePacket,
    VariablePacketError,
>)
    requires
        pos <= end <= buf@.len(),
        pt_wf(fh.packet_type),
    ensures
        match r {
            Ok(vp) => sp_dispatch(buf@, pos as int, end as int, fh) == Ok::<
                VariablePacketView,
                VariablePacketErrorView,
            >(vp@),
            Err(e) => sp_dispatch(buf@, pos as int, end as int, fh) == Err::<
                VariablePacketView,
                VariablePacketErrorView,
            >(vp_err_view(e)),
        },
{
    match fh.packet_type.control_type() {
        ControlType::Connect => match ConnectPacket::decode_body(buf, pos, end) {
            Ok(pk) => Ok(VariablePacket::ConnectPacket(pk)),
            Err(e) => Err(VariablePacketError::ConnectPacketError(e)),
        },
        ControlType::ConnectAcknowledgement => match ConnackPacket::decode_body(buf, pos, end) {
            Ok(pk) => Ok(VariablePacket::ConnackPacket(pk)),
            Err(e) => Err(VariablePacketError::ConnackPacketError(e)),
        },
        ControlType::Publish => match PublishPacket::decode_body(buf, pos, end, fh.packet_type.flags()) {
            Ok(pk) => Ok(VariablePacket::PublishPacket(pk)),
            Err(e) => Err(VariablePacketError::PublishPacketError(e)),
        },
        ControlType::PublishAcknowledgement => match PubackPacket::decode_body(buf, pos, end) {
            Ok(pk) => Ok(VariablePacket::PubackPacket(pk)),
            Err(e) => Err(VariablePacketError::PubackPacketError(e)),
        },
        ControlType::PublishReceived => match PubrecPacket::decode_body(buf, pos, end) {
            Ok(pk) => Ok(VariablePacket::PubrecPacket(pk)),
            Err(e) => Err(VariablePacketError::PubrecPacketError(e)),
        },
        ControlType::PublishRelease => match PubrelPacket::decode_body(buf, pos, end) {
            Ok(pk) => Ok(VariablePacket::PubrelPacket(pk)),
            Err(e) => Err(VariablePacketError::PubrelPacketError(e)),
        },
        ControlType::PublishComplete => match PubcompPacket::decode_body(buf, pos, end) {
            Ok(pk) => Ok(VariablePacket::PubcompPacket(pk)),
            Err(e) => Err(VariablePacketError::PubcompPacketError(e)),
        },
        ControlType::PingRequest => match PingreqPacket::decode_body(buf, pos, end) {
            Ok(pk) => Ok(VariablePacket::PingreqPacket(pk)),
            Err(e) => Err(VariablePacketError::PingreqPacketError(e)),
        },
        ControlType::PingResponse => match PingrespPacket::decode_body(buf, pos, end) {
            Ok(pk) => Ok(VariablePacket::PingrespPacket(pk)),
            Err(e) => Err(VariablePacketError::PingrespPacketError(e)),
        },
        ControlType::Subscribe => match SubscribePacket::decode_body(buf, pos, end) {
            Ok(pk) => Ok(VariablePacket::SubscribePacket(pk)),
            Err(e) => Err(VariablePacketError::SubscribePacketError(e)),
        },
        ControlType::SubscribeAcknowledgement => match SubackPacket::decode_body(buf, pos, end) {
            Ok(pk) => Ok(VariablePacket::SubackPacket(pk)),
            Err(e) => Err(VariablePacketError::SubackPacketError(e)),
        },
        ControlType::Unsubscribe => match UnsubscribePacket::decode_body(buf, pos, end) {
            Ok(pk) => Ok(VariablePacket::UnsubscribePacket(pk)),
            Err(e) => Err(VariablePacketError::UnsubscribePacketError(e)),
        },
        ControlType::UnsubscribeAcknowledgement => match UnsubackPacket::decode_body(buf, pos, end) {
            Ok(pk) => Ok(VariablePacket::UnsubackPacket(pk)),
            Err(e) => Err(VariablePacketError::UnsubackPacketError(e)),
        },
        ControlType::Disconnect => match DisconnectPacket::decode_body(buf, pos, end) {
            Ok(pk) => Ok(VariablePacket::DisconnectPacket(pk)),
            Err(e) => Err(VariablePacketError::DisconnectPacketError(e)),
        },
    }
}

impl VariablePacket {
    /// Wraps a concrete packet into the union.
    pub fn new<T>(t: T) -> VariablePacket where VariablePacket: From<T> {
        VariablePacket::from(t)
    }

    /// Reads one whole packet from `buf[pos..]`: the fixed header, then the
    /// body it announces. A reserved type yields `ReservedPacket` carrying the
    /// drained body bytes.
    pub fn decode(buf: &Vec<u8>, pos: usize) -> (r: Result<
        (VariablePacket, usize),
        VariablePacketError,
    >)
        requires
            pos <= buf@.len(),
        ensures
            match r {
                Ok((vp, n)) => sp_variable_packet(buf@, pos as int) == Ok::<
                    (VariablePacketView, int),
                    VariablePacketErrorView,
                >((vp@, n as int)),
                Err(e) => sp_variable_packet(buf@, pos as int) == Err::<
                    (VariablePacketView, int),
                    VariablePacketErrorView,
                >(vp_err_view(e)),
            },
    {
        let fh = match FixedHeader::decode(buf, pos) {
            Ok(v) => v,
            Err(FixedHeaderError::ReservedType(code, rl)) => {
                let blen = buf.len();
                proof {
                    if pos as int + 1 > blen as int {
                        assert(crate::encodable::sp_u8(buf@, pos as int, buf@.len() as int)
                            == Err::<(u8, int), PrimIoError>(PrimIoError::UnexpectedEof));
                        assert(false);
                    }
                    crate::control::fixed_header::lemma_sp_varint_err_kind(
                        buf@,
                        pos + 1,
                        buf@.len() as int,
                        0,
                        0,
                    );
                }
                let (_, p2) = match read_remaining_len(buf, pos + 1, blen) {
                    Ok(v) => v,
                    Err(_) => {
                        proof {
                            assert(false);
                        }
                        (0u32, pos)
                    },
                };
                let de = if buf.len() - p2 >= rl as usize {
                    p2 + rl as usize
                } else {
                    buf.len()
                };
                let data = match read_bytes(buf, p2, de, de - p2) {
                    Ok((v, _)) => v,
                    Err(_) => {
                        proof {
                            assert(false);
                        }
                        Vec::new()
                    },
                };
                return Err(VariablePacketError::ReservedPacket(code, data));
            },
            Err(e) => {
                return Err(VariablePacketError::FixedHeaderError(e));
            },
        };
        let (fh, p) = fh;
        if buf.len() - p < fh.remaining_length as usize {
            return Err(VariablePacketError::IoError(PrimIoError::UnexpectedEof));
        }
        let end = p + fh.remaining_length as usize;
        match dispatch_decode(buf, p, end, fh) {
            Ok(vp) => Ok((vp, end)),
            Err(e) => Err(e),
        }
    }
}

impl<T: DecodablePacket> crate::encodable::Decodable for T {
    type Error = PacketError<T::DecodePacketError>;

    fn decode(buf: &Vec<u8>, pos: usize) -> Result<(T, usize), PacketError<T::DecodePacketError>> {
        let (fh, p) = match FixedHeader::decode(buf, pos) {
            Ok(v) => v,
            Err(e) => {
                return Err(PacketError::FixedHeaderError(e));
            },
        };
        if buf.len() - p < fh.remaining_length as usize {
            return Err(PacketError::IoError(PrimIoError::UnexpectedEof));
        }
        let end = p + fh.remaining_length as usize;
        match T::decode_packet(buf, p, end, fh) {
            Ok(pk) => Ok((pk, end)),
            Err(e) => Err(e),
        }
    }
}

impl EncodablePacket for VariablePacket {
    open spec fn body_enc(&self) -> Seq<u8> {
        match self {
            VariablePacket::ConnectPacket(pk) => pk.body_enc(),
            VariablePacket::ConnackPacket(pk) => pk.body_enc(),
            VariablePacket::PublishPacket(pk) => pk.body_enc(),
            VariablePacket::PubackPacket(pk) => pk.body_enc(),
            VariablePacket::PubrecPacket(pk) => pk.body_enc(),
            VariablePacket::PubrelPacket(pk) => pk.body_enc(),
            VariablePacket::PubcompPacket(pk) => pk.body_enc(),
            VariablePacket::PingreqPacket(pk) => pk.body_enc(),
            VariablePacket::PingrespPacket(pk) => pk.body_enc(),
            VariablePacket::SubscribePacket(pk) => pk.body_enc(),
            VariablePacket::SubackPacket(pk) => pk.body_enc(),
            VariablePacket::UnsubscribePacket(pk) => pk.body_enc(),
            VariablePacket::UnsubackPacket(pk) => pk.body_enc(),
            VariablePacket::DisconnectPacket(pk) => pk.body_enc(),
        }
    }

    open spec fn packet_wf(&self) -> bool {
        match self {
            VariablePacket::ConnectPacket(pk) => pk.packet_wf(),
            VariablePacket::ConnackPacket(pk) => pk.packet_wf(),
            VariablePacket::PublishPacket(pk) => pk.packet_wf(),
            VariablePacket::PubackPacket(pk) => pk.packet_wf(),
            VariablePacket::PubrecPacket(pk) => pk.packet_wf(),
            VariablePacket::PubrelPacket(pk) => pk.packet_wf(),
            VariablePacket::PubcompPacket(pk) => pk.packet_wf(),
            VariablePacket::PingreqPacket(pk) => pk.packet_wf(),
            VariablePacket::PingrespPacket(pk) => pk.packet_wf(),
            VariablePacket::SubscribePacket(pk) => pk.packet_wf(),
            VariablePacket::SubackPacket(pk) => pk.packet_wf(),
            VariablePacket::UnsubscribePacket(pk) => pk.packet_wf(),
            VariablePacket::UnsubackPacket(pk) => pk.packet_wf(),
            VariablePacket::DisconnectPacket(pk) => pk.packet_wf(),
        }
    }

    open spec fn spec_packet_type(&self) -> PacketType {
        match self {
            VariablePacket::ConnectPacket(pk) => pk.spec_packet_type(),
            VariablePacket::ConnackPacket(pk) => pk.spec_packet_type(),
            VariablePacket::PublishPacket(pk) => pk.spec_packet_type(),
            VariablePacket::PubackPacket(pk) => pk.spec_packet_type(),
            VariablePacket::PubrecPacket(pk) => pk.spec_packet_type(),
            VariablePacket::PubrelPacket(pk) => pk.spec_packet_type(),
            VariablePacket::PubcompPacket(pk) => pk.spec_packet_type(),
            VariablePacket::PingreqPacket(pk) => pk.spec_packet_type(),
            VariablePacket::PingrespPacket(pk) => pk.spec_packet_type(),
            VariablePacket::SubscribePacket(pk) => pk.spec_packet_type(),
            VariablePacket::SubackPacket(pk) => pk.spec_packet_type(),
            VariablePacket::UnsubscribePacket(pk) => pk.spec_packet_type(),
            VariablePacket::UnsubackPacket(pk) => pk.spec_packet_type(),
            VariablePacket::DisconnectPacket(pk) => pk.spec_packet_type(),
        }
    }

    fn packet_type(&self) -> PacketType {
        match self {
            VariablePacket::ConnectPacket(pk) => pk.packet_type(),
            VariablePacket::ConnackPacket(pk) => pk.packet_type(),
            VariablePacket::PublishPacket(pk) => pk.packet_type(),
            VariablePacket::PubackPacket(pk) => pk.packet_type(),
            VariablePacket::PubrecPacket(pk) => pk.packet_type(),
            VariablePacket::PubrelPacket(pk) => pk.packet_type(),
            VariablePacket::PubcompPacket(pk) => pk.packet_type(),
            VariablePacket::PingreqPacket(pk) => pk.packet_type(),
            VariablePacket::PingrespPacket(pk) => pk.packet_type(),
            VariablePacket::SubscribePacket(pk) => pk.packet_type(),
            VariablePacket::SubackPacket(pk) => pk.packet_type(),
            VariablePacket::UnsubscribePacket(pk) => pk.packet_type(),
            VariablePacket::UnsubackPacket(pk) => pk.packet_type(),
            VariablePacket::DisconnectPacket(pk) => pk.packet_type(),
        }
    }

    fn encode_packet(&self, buf: &mut Vec<u8>) {
        match self {
            VariablePacket::ConnectPacket(pk) => pk.encode_packet(buf),
            VariablePacket::ConnackPacket(pk) => pk.encode_packet(buf),
            VariablePacket::PublishPacket(pk) => pk.encode_packet(buf),
            VariablePacket::PubackPacket(pk) => pk.encode_packet(buf),
            VariablePacket::PubrecPacket(pk) => pk.encode_packet(buf),
            VariablePacket::PubrelPacket(pk) => pk.encode_packet(buf),
            VariablePacket::PubcompPacket(pk) => pk.encode_packet(buf),
            VariablePacket::PingreqPacket(pk) => pk.encode_packet(buf),
            VariablePacket::PingrespPacket(pk) => pk.encode_packet(buf),
            VariablePacket::SubscribePacket(pk) => pk.encode_packet(buf),
            VariablePacket::SubackPacket(pk) => pk.encode_packet(buf),
            VariablePacket::UnsubscribePacket(pk) => pk.encode_packet(buf),
            VariablePacket::UnsubackPacket(pk) => pk.encode_packet(buf),
            VariablePacket::DisconnectPacket(pk) => pk.encode_packet(buf),
        }
    }

    fn encoded_packet_length(&self) -> (n: u32) {
        match self {
            VariablePacket::ConnectPacket(pk) => pk.encoded_packet_length(),
            VariablePacket::ConnackPacket(pk) => pk.encoded_packet_length(),
            VariablePacket::PublishPacket(pk) => pk.encoded_packet_length(),
            VariablePacket::PubackPacket(pk) => pk.encoded_packet_length(),
            VariablePacket::PubrecPacket(pk) => pk.encoded_packet_length(),
            VariablePacket::PubrelPacket(pk) => pk.encoded_packet_length(),
            VariablePacket::PubcompPacket(pk) => pk.encoded_packet_length(),
            VariablePacket::PingreqPacket(pk) => pk.encoded_packet_length(),
            VariablePacket::PingrespPacket(pk) => pk.encoded_packet_length(),
            VariablePacket::SubscribePacket(pk) => pk.encoded_packet_length(),
            VariablePacket::SubackPacket(pk) => pk.encoded_packet_length(),
            VariablePacket::UnsubscribePacket(pk) => pk.encoded_packet_length(),
            VariablePacket::UnsubackPacket(pk) => pk.encoded_packet_length(),
            VariablePacket::DisconnectPacket(pk) => pk.encoded_packet_length(),
        }
    }
}

impl From<ConnectPacket> for VariablePacket {
    fn from(pk: ConnectPacket) -> (r: VariablePacket)
        ensures
            r == VariablePacket::ConnectPacket(pk),
    {
        VariablePacket::ConnectPacket(pk)
    }
}

impl vstd::std_specs::convert::FromSpecImpl<ConnectPacket> for VariablePacket {
    open spec fn obeys_from_spec() -> bool {
        true
    }

    open spec fn from_spec(pk: ConnectPacket) -> VariablePacket {
        VariablePacket::ConnectPacket(pk)
    }
}

impl From<ConnackPacket> for VariablePacket {
    fn from(pk: ConnackPacket) -> (r: VariablePacket)
        ensures
            r == VariablePacket::ConnackPacket(pk),
    {
        VariablePacket::ConnackPacket(pk)
    }
}

impl vstd::std_specs::convert::FromSpecImpl<ConnackPacket> for VariablePacket {
    open spec fn obeys_from_spec() -> bool {
        true
    }

    open spec fn from_spec(pk: ConnackPacket) -> VariablePacket {
        VariablePacket::ConnackPacket(pk)
    }
}

impl From<PublishPacket> for VariablePacket {
    fn from(pk: PublishPacket) -> (r: VariablePacket)
        ensures
            r == VariablePacket::PublishPacket(pk),
    {
        VariablePacket::PublishPacket(pk)
    }
}

impl vstd::std_specs::convert::FromSpecImpl<PublishPacket> for VariablePacket {
    open spec fn obeys_from_spec() -> bool {
        true
    }

    open spec fn from_spec(pk: PublishPacket) -> VariablePacket {
        VariablePacket::PublishPacket(pk)
    }
}

impl From<PubackPacket> for VariablePacket {
    fn from(pk: PubackPacket) -> (r: VariablePacket)
        ensures
            r == VariablePacket::PubackPacket(pk),
    {
        VariablePacket::PubackPacket(pk)
    }
}

impl vstd::std_specs::convert::FromSpecImpl<PubackPacket> for VariablePacket {
    open spec fn obeys_from_spec() -> bool {
        true
    }

    open spec fn from_spec(pk: PubackPacket) -> VariablePacket {
        VariablePacket::PubackPacket(pk)
    }
}

impl From<PubrecPacket> for VariablePacket {
    fn from(pk: PubrecPacket) -> (r: VariablePacket)
        ensures
            r == VariablePacket::PubrecPacket(pk),
    {
        VariablePacket::PubrecPacket(pk)
    }
}

impl vstd::std_specs::convert::FromSpecImpl<PubrecPacket> for VariablePacket {
    open spec fn obeys_from_spec() -> bool {
        true
    }

    open spec fn from_spec(pk: PubrecPacket) -> VariablePacket {
        VariablePacket::PubrecPacket(pk)
    }
}

impl From<PubrelPacket> for VariablePacket {
    fn from(pk: PubrelPacket) -> (r: VariablePacket)
        ensures
            r == VariablePacket::PubrelPacket(pk),
    {
        VariablePacket::PubrelPacket(pk)
    }
}

impl vstd::std_specs::convert::FromSpecImpl<PubrelPacket> for VariablePacket {
    open spec fn obeys_from_spec() -> bool {
        true
    }

    open spec fn from_spec(pk: PubrelPacket) -> VariablePacket {
        VariablePacket::PubrelPacket(pk)
    }
}

impl From<PubcompPacket> for VariablePacket {
    fn from(pk: PubcompPacket) -> (r: VariablePacket)
        ensures
            r == VariablePacket::PubcompPacket(pk),
    {
        VariablePacket::PubcompPacket(pk)
    }
}

impl vstd::std_specs::convert::FromSpecImpl<PubcompPacket> for VariablePacket {
    open spec fn obeys_from_spec() -> bool {
        true
    }

    open spec fn from_spec(pk: PubcompPacket) -> VariablePacket {
        VariablePacket::PubcompPacket(pk)
    }
}

impl From<PingreqPacket> for VariablePacket {
    fn from(pk: PingreqPacket) -> (r: VariablePacket)
        ensures
            r == VariablePacket::PingreqPacket(pk),
    {
        VariablePacket::PingreqPacket(pk)
    }
}

impl vstd::std_specs::convert::FromSpecImpl<PingreqPacket> for VariablePacket {
    open spec fn obeys_from_spec() -> bool {
        true
    }

    open spec fn from_spec(pk: PingreqPacket) -> VariablePacket {
        VariablePacket::PingreqPacket(pk)
    }
}

impl From<PingrespPacket> for VariablePacket {
    fn from(pk: PingrespPacket) -> (r: VariablePacket)
        ensures
            r == VariablePacket::PingrespPacket(pk),
    {
        VariablePacket::PingrespPacket(pk)
    }
}

impl vstd::std_specs::convert::FromSpecImpl<PingrespPacket> for VariablePacket {
    open spec fn obeys_from_spec() -> bool {
        true
    }

    open spec fn from_spec(pk: PingrespPacket) -> VariablePacket {
        VariablePacket::PingrespPacket(pk)
    }
}

impl From<SubscribePacket> for VariablePacket {
    fn from(pk: SubscribePacket) -> (r: VariablePacket)
        ensures
            r == VariablePacket::SubscribePacket(pk),
    {
        VariablePacket::SubscribePacket(pk)
    }
}

impl vstd::std_specs::convert::FromSpecImpl<SubscribePacket> for VariablePacket {
    open spec fn obeys_from_spec() -> bool {
        true
    }

    open spec fn from_spec(pk: SubscribePacket) -> VariablePacket {
        VariablePacket::SubscribePacket(pk)
    }
}

impl From<SubackPacket> for VariablePacket {
    fn from(pk: SubackPacket) -> (r: VariablePacket)
        ensures
            r == VariablePacket::SubackPacket(pk),
    {
        VariablePacket::SubackPacket(pk)
    }
}

impl vstd::std_specs::convert::FromSpecImpl<SubackPacket> for VariablePacket {
    open spec fn obeys_from_spec() -> bool {
        true
    }

    open spec fn from_spec(pk: SubackPacket) -> VariablePacket {
        VariablePacket::SubackPacket(pk)
    }
}

impl From<UnsubscribePacket> for VariablePacket {
    fn from(pk: UnsubscribePacket) -> (r: VariablePacket)
        ensures
            r == VariablePacket::UnsubscribePacket(pk),
    {
        VariablePacket::UnsubscribePacket(pk)
    }
}

impl vstd::std_specs::convert::FromSpecImpl<UnsubscribePacket> for VariablePacket {
    open spec fn obeys_from_spec() -> bool {
        true
    }

    open spec fn from_spec(pk: UnsubscribePacket) -> VariablePacket {
        VariablePacket::UnsubscribePacket(pk)
    }
}

impl From<UnsubackPacket> for VariablePacket {
    fn from(pk: UnsubackPacket) -> (r: VariablePacket)
        ensures
            r == VariablePacket::UnsubackPacket(pk),
    {
        VariablePacket::UnsubackPacket(pk)
    }
}

impl vstd::std_specs::convert::FromSpecImpl<UnsubackPacket> for VariablePacket {
    open spec fn obeys_from_spec() -> bool {
        true
    }

    open spec fn from_spec(pk: UnsubackPacket) -> VariablePacket {
        VariablePacket::UnsubackPacket(pk)
    }
}

impl From<DisconnectPacket> for VariablePacket {
    fn from(pk: DisconnectPacket) -> (r: VariablePacket)
        ensures
            r == VariablePacket::DisconnectPacket(pk),
    {
        VariablePacket::DisconnectPacket(pk)
    }
}

impl vstd::std_specs::convert::FromSpecImpl<DisconnectPacket> for VariablePacket {
    open spec fn obeys_from_spec() -> bool {
        true
    }

    open spec fn from_spec(pk: DisconnectPacket) -> VariablePacket {
        VariablePacket::DisconnectPacket(pk)
    }
}

} // verus!

verus! {

use crate::control::fixed_header::{
    varint,
    lemma_varint_continuation,
    lemma_sp_varint_all_cont_errs,
};
use crate::control::packet_type::pt_byte;

/// Round trip: a well-formed packet of any variant, encoded and then decoded,
/// comes back as itself, whatever bytes follow its encoding in the buffer.
#[verifier::rlimit(100)]
pub proof fn lemma_variable_packet_round_trip(p: VariablePacket, s: Seq<u8>, pos: int)
    requires
        p.enc_wf(),
        0 <= pos,
        pos + p.enc().len() <= s.len(),
        s.subrange(pos, pos + p.enc().len()) == p.enc(),
    ensures
        sp_variable_packet(s, pos) == Ok::<(VariablePacketView, int), VariablePacketErrorView>(
            (p@, pos + p.enc().len()),
        ),
{
    let w = p.enc();
    let fh = packet_fh(&p);
    let body = p.body_enc();
    lemma_varint_len(fh.remaining_length as int);
    let hl = fh.enc().len() as int;
    assert(w.subrange(0, hl) =~= fh.enc());
    lemma_component_at(s, pos, w, 0, fh.enc());
    lemma_sp_fixed_header_of_enc(fh, s, pos, s.len() as int);
    let p0 = pos + hl;
    assert(w.subrange(hl, w.len() as int) =~= body);
    lemma_component_at(s, pos, w, hl, body);
    let end = p0 + body.len() as int;
    match p {
        VariablePacket::ConnectPacket(pk) => {
            crate::packet::connect::lemma_sp_connect_of_enc(pk@, s, p0, end);
        },
        VariablePacket::ConnackPacket(pk) => {
            crate::packet::connack::lemma_sp_connack_of_enc(pk, s, p0, end);
        },
        VariablePacket::PublishPacket(pk) => {
            crate::packet::publish::lemma_sp_publish_of_enc(pk@, s, p0, end);
        },
        VariablePacket::PubackPacket(pk) => {
            crate::packet::puback::lemma_sp_puback_of_enc(pk, s, p0, end);
        },
        VariablePacket::PubrecPacket(pk) => {
            crate::packet::pubrec::lemma_sp_pubrec_of_enc(pk, s, p0, end);
        },
        VariablePacket::PubrelPacket(pk) => {
            crate::packet::pubrel::lemma_sp_pubrel_of_enc(pk, s, p0, end);
        },
        VariablePacket::PubcompPacket(pk) => {
            crate::packet::pubcomp::lemma_sp_pubcomp_of_enc(pk, s, p0, end);
        },
        VariablePacket::PingreqPacket(pk) => {},
        VariablePacket::PingrespPacket(pk) => {},
        VariablePacket::SubscribePacket(pk) => {
            crate::packet::subscribe::lemma_sp_subscribe_of_enc(pk@, s, p0, end);
        },
        VariablePacket::SubackPacket(pk) => {
            crate::packet::suback::lemma_sp_suback_of_enc(pk@, s, p0, end);
        },
        VariablePacket::UnsubscribePacket(pk) => {
            crate::packet::unsubscribe::lemma_sp_unsubscribe_of_enc(pk@, s, p0, end);
        },
        VariablePacket::UnsubackPacket(pk) => {
            crate::packet::unsuback::lemma_sp_unsuback_of_enc(pk, s, p0, end);
        },
        VariablePacket::DisconnectPacket(pk) => {},
    }
}

/// Length agreement: the encoding of a well-formed packet is its fixed header
/// followed by its body, the fixed header takes two to five bytes, and the
/// remaining length it carries is exactly the body length.
pub proof fn lemma_encoded_length_agreement(p: VariablePacket)
    requires
        p.enc_wf(),
    ensures
        p.enc().len() == packet_fh(&p).enc().len() + p.body_enc().len(),
        2 <= packet_fh(&p).enc().len() <= 5,
        packet_fh(&p).remaining_length == p.body_enc().len(),
{
    lemma_varint_len(packet_fh(&p).remaining_length as int);
}

/// Truncation: no proper prefix of a well-formed packet's encoding decodes;
/// the parse fails with an unexpected-end error, never with a silent success.
pub proof fn lemma_variable_packet_truncation(p: VariablePacket, k: int)
    requires
        p.enc_wf(),
        0 <= k < p.enc().len(),
    ensures
        sp_variable_packet(p.enc().subrange(0, k), 0) == Err::<
            (VariablePacketView, int),
            VariablePacketErrorView,
        >(
            VariablePacketErrorView::FixedHeaderError(
                FixedHeaderError::IoError(PrimIoError::UnexpectedEof),
            ),
        ) || sp_variable_packet(p.enc().subrange(0, k), 0) == Err::<
            (VariablePacketView, int),
            VariablePacketErrorView,
        >(VariablePacketErrorView::IoError(PrimIoError::UnexpectedEof)),
{
    let w = p.enc();
    let t = w.subrange(0, k);
    let fh = packet_fh(&p);
    let rl = fh.remaining_length as int;
    lemma_varint_len(rl);
    let hl = fh.enc().len() as int;
    assert(t.len() == k);
    if k == 0 {
        assert(crate::encodable::sp_u8(t, 0, 0) is Err);
    } else if k < hl {
        assert(t[0] == w[0]);
        lemma_varint_continuation(rl);
        assert forall|j: int| 1 <= j < k implies #[trigger] t[j] >= 128 by {
            assert(t[j] == w[j]);
            assert(w[j] == fh.enc()[j]);
            assert(fh.enc()[j] == varint(rl)[j - 1]);
            assert(varint(rl)[j - 1] >= 128);
        }
        lemma_sp_varint_all_cont_errs(t, 1, k, 0, 0);
        assert(sp_fixed_header(t, 0, k) is Err);
        crate::control::fixed_header::lemma_sp_varint_err_kind(t, 1, k, 0, 0);
    } else {
        assert(t.subrange(0, hl) =~= fh.enc()) by {
            assert forall|j: int| 0 <= j < hl implies t.subrange(0, hl)[j] == fh.enc()[j] by {
                assert(t[j] == w[j]);
            }
        }
        lemma_sp_fixed_header_of_enc(fh, t, 0, k);
        assert(hl + rl == w.len());
        assert(hl + rl > k);
    }
}

} // verus!

verus! {

use vstd::slice::slice_to_vec;
use crate::encodable::{read_u8, sp_u8};
use crate::control::packet_type::{sp_packet_type, PacketTypeError};

/// A packet type as the streaming decoder classifies it: one of the fourteen
/// standard types, or a reserved type nibble kept for diagnostics.
#[derive(Debug, Copy, Clone, PartialEq, Eq, Structural)]
pub enum DecodePacketType {
    Standard(PacketType),
    Reserved(u8),
}

/// The streaming decoder's state: waiting for a header, or holding a parsed
/// header while the body accumulates.
#[derive(Debug, Copy, Clone, PartialEq, Eq, Structural)]
pub enum DecodeState {
    Start,
    Packet { length: u32, typ: DecodePacketType },
}

/// What parsing a fixed header at the front of a buffer yields: `None` when
/// the buffer ends inside the header, otherwise the classified type, the
/// remaining length and the header size.
pub open spec fn sp_decode_header(s: Seq<u8>) -> Option<
    Result<(DecodePacketType, u32, int), FixedHeaderError>,
> {
    match sp_u8(s, 0, s.len() as int) {
        Err(_) => None,
        Ok((tv, p)) => match sp_remaining_len(s, p, s.len() as int) {
            Err(FixedHeaderError::IoError(_)) => None,
            Err(e) => Some(Err(e)),
            Ok((rl, p2)) => match sp_packet_type(tv) {
                Ok(pt) => Some(Ok((DecodePacketType::Standard(pt), rl, p2))),
                Err(PacketTypeError::ReservedType(ty, _)) => Some(
                    Ok((DecodePacketType::Reserved(ty), rl, p2)),
                ),
                Err(e) => Some(Err(FixedHeaderError::PacketTypeError(e))),
            },
        },
    }
}

/// Parses a fixed header at the front of `data`; returns `None` when more
/// bytes are needed before the header is complete.
pub fn decode_header(data: &Vec<u8>) -> (r: Option<
    Result<(DecodePacketType, u32, usize), FixedHeaderError>,
>)
    ensures
        match r {
            None => sp_decode_header(data@) is None,
            Some(Err(e)) => sp_decode_header(data@) == Some(
                Err::<(DecodePacketType, u32, int), FixedHeaderError>(e),
            ),
            Some(Ok((typ, l, hs))) => sp_decode_header(data@) == Some(
                Ok::<(DecodePacketType, u32, int), FixedHeaderError>((typ, l, hs as int)),
            ) && l <= max_remaining_len() && 0 < hs <= data@.len() && (typ matches
                DecodePacketType::Standard(pt) ==> pt_wf(pt)),
        },
{
    let end = data.len();
    let tv = match read_u8(data, 0, end) {
        Ok((b, _)) => b,
        Err(_) => {
            return None;
        },
    };
    let (rl, p2) = match read_remaining_len(data, 1, end) {
        Ok(v) => v,
        Err(FixedHeaderError::IoError(_)) => {
            return None;
        },
        Err(e) => {
            return Some(Err(e));
        },
    };
    match PacketType::from_u8(tv) {
        Ok(pt) => Some(Ok((DecodePacketType::Standard(pt), rl, p2))),
        Err(PacketTypeError::ReservedType(ty, _)) => Some(
            Ok((DecodePacketType::Reserved(ty), rl, p2)),
        ),
        Err(e) => Some(Err(FixedHeaderError::PacketTypeError(e))),
    }
}

/// What one step of the streaming decoder does with a parsed header: wait
/// when the body is not fully buffered, otherwise consume it and either
/// dispatch it or, for a reserved type, drain it into the error.
pub open spec fn sp_decoder_body(typ: DecodePacketType, l: u32, s: Seq<u8>, bstart: int) -> (
    DecodeState,
    int,
    Result<Option<VariablePacketView>, VariablePacketErrorView>,
)
    recommends
        0 <= bstart <= s.len(),
{
    if s.len() - bstart < l {
        (DecodeState::Packet { length: l, typ }, bstart, Ok(None))
    } else {
        match typ {
            DecodePacketType::Standard(pt) => {
                let fh = FixedHeader { packet_type: pt, remaining_length: l };
                match sp_dispatch(s, bstart, bstart + l, fh) {
                    Ok(v) => (DecodeState::Start, bstart + l, Ok(Some(v))),
                    Err(e) => (DecodeState::Start, bstart + l, Err(e)),
                }
            },
            DecodePacketType::Reserved(code) => (
                DecodeState::Start,
                bstart + l,
                Err(
                    VariablePacketErrorView::ReservedPacket(
                        code,
                        s.subrange(bstart, bstart + l),
                    ),
                ),
            ),
        }
    }
}

/// What one call of the streaming decoder does: the new state, the bytes
/// consumed from the front of the buffer, and the outcome (`Ok(None)` asks
/// for more input).
pub open spec fn sp_decoder_step(st: DecodeState, s: Seq<u8>) -> (
    DecodeState,
    int,
    Result<Option<VariablePacketView>, VariablePacketErrorView>,
) {
    match st {
        DecodeState::Start => match sp_decode_header(s) {
            None => (DecodeState::Start, 0, Ok(None)),
            Some(Err(e)) => (
                DecodeState::Start,
                0,
                Err(VariablePacketErrorView::FixedHeaderError(e)),
            ),
            Some(Ok((typ, l, hs))) => sp_decoder_body(typ, l, s, hs),
        },
        DecodeState::Packet { length, typ } => sp_decoder_body(typ, length, s, 0),
    }
}

/// Removes the first `k` bytes of a buffer.
fn vec_drain_front(src: &mut Vec<u8>, k: usize)
    requires
        k <= old(src)@.len(),
    ensures
        final(src)@ == old(src)@.skip(k as int),
{
    let rest = slice_to_vec(&src.as_slice()[k..src.len()]);
    *src = rest;
    assert(src@ =~= old(src)@.skip(k as int));
}

/// Streaming decoder: feed it a growing front-drained buffer; it hands back
/// one packet at a time and asks for more input in between.
#[derive(Debug)]
pub struct MqttDecoder {
    /// The decoder's current state.
    pub state: DecodeState,
}

impl MqttDecoder {
    /// A header held across calls stays within the wire limits.
    pub open spec fn wf(&self) -> bool {
        match self.state {
            DecodeState::Start => true,
            DecodeState::Packet { length, typ } => length <= max_remaining_len() && (typ matches
                DecodePacketType::Standard(pt) ==> pt_wf(pt)),
        }
    }

    pub fn new() -> (r: MqttDecoder)
        ensures
            r.state == DecodeState::Start,
            r.wf(),
    {
        MqttDecoder { state: DecodeState::Start }
    }

    /// One decoding step over the buffered bytes: consumes a complete frame
    /// from the front of `src` and returns its packet, or returns `Ok(None)`
    /// when more bytes are needed. Errors are fatal for the stream; the
    /// offending frame is consumed.
    pub fn decode(&mut self, src: &mut Vec<u8>) -> (r: Result<
        Option<VariablePacket>,
        VariablePacketError,
    >)
        requires
            old(self).wf(),
        ensures
            final(self).wf(),
            ({
                let (st2, k, res) = sp_decoder_step(old(self).state, old(src)@);
                &&& final(self).state == st2
                &&& final(src)@ == old(src)@.skip(k)
                &&& match r {
                    Ok(None) => res == Ok::<Option<VariablePacketView>, VariablePacketErrorView>(
                        None,
                    ),
                    Ok(Some(vp)) => res == Ok::<
                        Option<VariablePacketView>,
                        VariablePacketErrorView,
                    >(Some(vp@)),
                    Err(e) => res == Err::<Option<VariablePacketView>, VariablePacketErrorView>(
                        vp_err_view(e),
                    ),
                }
            }),
    {
        let ghost s0 = src@;
        let (length, typ, bstart): (u32, DecodePacketType, usize) = match self.state {
            DecodeState::Start => {
                match decode_header(src) {
                    None => {
                        proof {
                            assert(src@ =~= s0.skip(0));
                        }
                        return Ok(None);
                    },
                    Some(Err(e)) => {
                        proof {
                            assert(src@ =~= s0.skip(0));
                        }
                        return Err(VariablePacketError::FixedHeaderError(e));
                    },
                    Some(Ok((typ, l, hs))) => (l, typ, hs),
                }
            },
            DecodeState::Packet { length, typ } => (length, typ, 0),
        };
        if src.len() - bstart < length as usize {
            vec_drain_front(src, bstart);
            self.state = DecodeState::Packet { length, typ };
            return Ok(None);
        }
        let end = bstart + length as usize;
        self.state = DecodeState::Start;
        match typ {
            DecodePacketType::Reserved(code) => {
                let data = match read_bytes(src, bstart, end, length as usize) {
                    Ok((v, _)) => v,
                    Err(_) => {
                        proof {
                            assert(false);
                        }
                        Vec::new()
                    },
                };
                vec_drain_front(src, end);
                Err(VariablePacketError::ReservedPacket(code, data))
            },
            DecodePacketType::Standard(pt) => {
                let fh = FixedHeader::new(pt, length);
                let r = dispatch_decode(src, bstart, end, fh);
                vec_drain_front(src, end);
                match r {
                    Ok(vp) => Ok(Some(vp)),
                    Err(e) => Err(e),
                }
            },
        }
    }
}

/// Streaming encoder: stateless; each call appends one whole frame.
#[derive(Debug)]
pub struct MqttEncoder {}

impl MqttEncoder {
    pub fn new() -> (r: MqttEncoder) {
        MqttEncoder {  }
    }

    /// Appends the frame of one packet to the outgoing buffer.
    pub fn encode<T: EncodablePacket>(&self, packet: &T, dst: &mut Vec<u8>)
        requires
            packet.enc_wf(),
        ensures
            final(dst)@ == old(dst)@ + packet.enc(),
    {
        packet.encode(dst);
    }
}

/// Streaming codec: a decoder and an encoder side by side.
#[derive(Debug)]
pub struct MqttCodec {
    /// The decoding half.
    pub decode: MqttDecoder,
    /// The encoding half.
    pub encode: MqttEncoder,
}

impl MqttCodec {
    pub fn new() -> (r: MqttCodec)
        ensures
            r.decode.state == DecodeState::Start,
            r.decode.wf(),
    {
        MqttCodec { decode: MqttDecoder::new(), encode: MqttEncoder::new() }
    }

    /// One decoding step; see `MqttDecoder::decode`.
    pub fn decode(&mut self, src: &mut Vec<u8>) -> (r: Result<
        Option<VariablePacket>,
        VariablePacketError,
    >)
        requires
            old(self).decode.wf(),
        ensures
            final(self).decode.wf(),
            ({
                let (st2, k, res) = sp_decoder_step(old(self).decode.state, old(src)@);
                &&& final(self).decode.state == st2
                &&& final(src)@ == old(src)@.skip(k)
                &&& match r {
                    Ok(None) => res == Ok::<Option<VariablePacketView>, VariablePacketErrorView>(
                        None,
                    ),
                    Ok(Some(vp)) => res == Ok::<
                        Option<VariablePacketView>,
                        VariablePacketErrorView,
                    >(Some(vp@)),
                    Err(e) => res == Err::<Option<VariablePacketView>, VariablePacketErrorView>(
                        vp_err_view(e),
                    ),
                }
            }),
    {
        self.decode.decode(src)
    }

    /// Appends the frame of one packet; see `MqttEncoder::encode`.
    pub fn encode<T: EncodablePacket>(&self, packet: &T, dst: &mut Vec<u8>)
        requires
            packet.enc_wf(),
        ensures
            final(dst)@ == old(dst)@ + packet.enc(),
    {
        self.encode.encode(packet, dst);
    }
}

} // verus!
