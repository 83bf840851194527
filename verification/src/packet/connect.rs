//! CONNECT: a client's request to connect to a server.
use vstd::prelude::*;

verus! {

use vstd::utf8::encode_utf8;
use crate::encodable::{
    Encodable,
    VarBytes,
    IoError,
    StringReadError,
    be_u16,
    string_enc,
    varbytes_enc,
    sp_u8,
    sp_u16,
    sp_string,
    sp_varbytes,
    write_u8,
    write_u16,
    write_str,
    write_varbytes,
    read_u16,
    read_string,
    read_varbytes,
    lemma_component_at,
    lemma_sp_string_of_enc,
    lemma_sp_u16_of_enc,
    lemma_sp_varbytes_of_enc,
    lemma_encode_utf8_len_bound,
};
use crate::control::fixed_header::{FixedHeader, max_remaining_len};
use crate::control::packet_type::{ControlType, PacketType};
use crate::control::variable_header::{
    ConnectFlags,
    KeepAlive,
    ProtocolLevel,
    ProtocolName,
    VariableHeaderError,
    connect_flags_byte,
    level_val,
    sp_protocol_level,
    sp_connect_flags,
    lemma_sp_connect_flags_of_enc,
};
use crate::packet::{EncodablePacket, DecodablePacket, PacketError};
use crate::topic_name::{
    TopicName,
    TopicNameError,
    TopicNameDecodeError,
    valid_topic_name_bytes,
    sp_topic_name,
    lemma_sp_topic_name_of_enc,
};

/// Errors while decoding a CONNECT payload.
#[derive(Debug, PartialEq, Eq, Clone, Copy)]
pub enum ConnectPacketError {
    /// The input ended inside the payload.
    IoError(IoError),
    /// String bytes are not valid UTF-8.
    Utf8,
    /// The will topic failed topic-name validation.
    TopicNameError(TopicNameError),
}

/// The fields of a CONNECT packet, at the spec level. The optional payload
/// fields are present exactly when the corresponding flag bit is set; `wf`
/// below states that coupling.
pub struct ConnectView {
    pub protocol_name: Seq<char>,
    pub protocol_level: ProtocolLevel,
    pub flags: ConnectFlags,
    pub keep_alive: u16,
    pub client_identifier: Seq<char>,
    pub will: Option<(Seq<char>, Seq<u8>)>,
    pub user_name: Option<Seq<char>>,
    pub password: Option<Seq<char>>,
}

/// The payload bytes of a CONNECT: client identifier always, then will topic
/// and message, user name, and password, each exactly when present.
pub open spec fn connect_payload_enc(v: ConnectView) -> Seq<u8> {
    string_enc(v.client_identifier) + (match v.will {
        Some((t, m)) => string_enc(t) + varbytes_enc(m),
        None => Seq::empty(),
    }) + (match v.user_name {
        Some(u) => string_enc(u),
        None => Seq::empty(),
    }) + (match v.password {
        Some(p) => string_enc(p),
        None => Seq::empty(),
    })
}

/// The body bytes of a CONNECT: protocol name, protocol level, connect flags,
/// keep alive, then the payload.
pub open spec fn connect_body_enc(v: ConnectView) -> Seq<u8> {
    string_enc(v.protocol_name) + seq![level_val(v.protocol_level)] + seq![
        connect_flags_byte(v.flags),
    ] + be_u16(v.keep_alive) + connect_payload_enc(v)
}

/// A CONNECT value that can stand on the wire: each optional field present
/// exactly when its flag bit is set, the reserved bit clear, the will topic a
/// valid topic name, and every string and blob within its length prefix.
pub open spec fn connect_view_wf(v: ConnectView) -> bool {
    &&& v.flags.will_qos < 4
    &&& !v.flags.reserved
    &&& v.flags.will_flag == v.will is Some
    &&& v.flags.user_name == v.user_name is Some
    &&& v.flags.password == v.password is Some
    &&& encode_utf8(v.protocol_name).len() <= 65535
    &&& encode_utf8(v.client_identifier).len() <= 65535
    &&& match v.will {
        Some((t, m)) => valid_topic_name_bytes(encode_utf8(t)) && m.len() <= 65535,
        None => true,
    }
    &&& match v.user_name {
        Some(u) => encode_utf8(u).len() <= 65535,
        None => true,
    }
    &&& match v.password {
        Some(p) => encode_utf8(p).len() <= 65535,
        None => true,
    }
}

/// What decoding a CONNECT payload yields under the given flags: the client
/// identifier, then each optional field whose flag bit is set.
pub open spec fn sp_connect_payload(s: Seq<u8>, pos: int, end: int, flags: ConnectFlags) -> Result<
    (Seq<char>, Option<(Seq<char>, Seq<u8>)>, Option<Seq<char>>, Option<Seq<char>>, int),
    ConnectPacketError,
>
    recommends
        0 <= pos <= end <= s.len(),
{
    match sp_string(s, pos, end) {
        Err(StringReadError::UnexpectedEof) => Err(ConnectPacketError::IoError(
            IoError::UnexpectedEof,
        )),
        Err(StringReadError::InvalidUtf8) => Err(ConnectPacketError::Utf8),
        Ok((ident, p1)) => {
            let will_r: Result<(Option<(Seq<char>, Seq<u8>)>, int), ConnectPacketError> = if flags.will_flag {
                match sp_topic_name(s, p1, end) {
                    Err(TopicNameDecodeError::IoError(e)) => Err(ConnectPacketError::IoError(e)),
                    Err(TopicNameDecodeError::Utf8) => Err(ConnectPacketError::Utf8),
                    Err(TopicNameDecodeError::InvalidTopicName(te)) => Err(
                        ConnectPacketError::TopicNameError(te),
                    ),
                    Ok((t, p2)) => match sp_varbytes(s, p2, end) {
                        Err(e) => Err(ConnectPacketError::IoError(e)),
                        Ok((m, p3)) => Ok((Some((t, m)), p3)),
                    },
                }
            } else {
                Ok((None, p1))
            };
            match will_r {
                Err(e) => Err(e),
                Ok((will, p3)) => {
                    let user_r: Result<(Option<Seq<char>>, int), ConnectPacketError> = if flags.user_name {
                        match sp_string(s, p3, end) {
                            Err(StringReadError::UnexpectedEof) => Err(ConnectPacketError::IoError(
                                IoError::UnexpectedEof,
                            )),
                            Err(StringReadError::InvalidUtf8) => Err(ConnectPacketError::Utf8),
                            Ok((u, p4)) => Ok((Some(u), p4)),
                        }
                    } else {
                        Ok((None, p3))
                    };
                    match user_r {
                        Err(e) => Err(e),
                        Ok((user, p4)) => {
                            let pass_r: Result<(Option<Seq<char>>, int), ConnectPacketError> = if flags.password {
                                match sp_string(s, p4, end) {
                                    Err(StringReadError::UnexpectedEof) => Err(
                                        ConnectPacketError::IoError(IoError::UnexpectedEof),
                                    ),
                                    Err(StringReadError::InvalidUtf8) => Err(
                                        ConnectPacketError::Utf8,
                                    ),
                                    Ok((pw, p5)) => Ok((Some(pw), p5)),
                                }
                            } else {
                                Ok((None, p4))
                            };
                            match pass_r {
                                Err(e) => Err(e),
                                Ok((pass, p5)) => Ok((ident, will, user, pass, p5)),
                            }
                        },
                    }
                },
            }
        },
    }
}

/// What decoding a CONNECT body yields: the variable-header fields in order,
/// then the payload under the decoded flags.
pub open spec fn sp_connect(s: Seq<u8>, pos: int, end: int) -> Result<
    ConnectView,
    PacketError<ConnectPacketError>,
>
    recommends
        0 <= pos <= end <= s.len(),
{
    match sp_string(s, pos, end) {
        Err(StringReadError::UnexpectedEof) => Err(
            PacketError::VariableHeaderError(VariableHeaderError::IoError(IoError::UnexpectedEof)),
        ),
        Err(StringReadError::InvalidUtf8) => Err(
            PacketError::VariableHeaderError(VariableHeaderError::Utf8),
        ),
        Ok((pn, p1)) => match sp_u8(s, p1, end) {
            Err(e) => Err(PacketError::VariableHeaderError(VariableHeaderError::IoError(e))),
            Ok((lv, p2)) => match sp_protocol_level(lv) {
                None => Err(
                    PacketError::VariableHeaderError(VariableHeaderError::InvalidProtocolVersion),
                ),
                Some(level) => match sp_connect_flags(s, p2, end) {
                    Err(e) => Err(PacketError::VariableHeaderError(e)),
                    Ok((flags, p3)) => match sp_u16(s, p3, end) {
                        Err(e) => Err(
                            PacketError::VariableHeaderError(VariableHeaderError::IoError(e)),
                        ),
                        Ok((ka, p4)) => match sp_connect_payload(s, p4, end, flags) {
                            Err(e) => Err(PacketError::PayloadError(e)),
                            Ok((ident, will, user, pass, _)) => Ok(
                                ConnectView {
                                    protocol_name: pn,
                                    protocol_level: level,
                                    flags,
                                    keep_alive: ka,
                                    client_identifier: ident,
                                    will,
                                    user_name: user,
                                    password: pass,
                                },
                            ),
                        },
                    },
                },
            },
        },
    }
}

/// Payload of a CONNECT packet.
#[derive(Debug, Eq, PartialEq, Clone)]
pub struct ConnectPacketPayload {
    /// The client identifier, always present.
    pub client_identifier: String,
    /// The will topic and message, present when the will flag is set.
    pub will: Option<(TopicName, VarBytes)>,
    /// The user name, present when its flag is set.
    pub user_name: Option<String>,
    /// The password, present when its flag is set.
    pub password: Option<String>,
}

/// The characters of an optional string.
pub open spec fn opt_str_view(o: Option<String>) -> Option<Seq<char>> {
    match o {
        Some(s) => Some(s@),
        None => None,
    }
}

/// The (characters, bytes) of an optional will pair.
pub open spec fn will_view(o: Option<(TopicName, VarBytes)>) -> Option<(Seq<char>, Seq<u8>)> {
    match o {
        Some((t, m)) => Some((t@, m.0@)),
        None => None,
    }
}

impl ConnectPacketPayload {
    pub fn new(client_identifier: String) -> (r: ConnectPacketPayload)
        ensures
            r.client_identifier@ == client_identifier@,
            r.will is None,
            r.user_name is None,
            r.password is None,
    {
        ConnectPacketPayload { client_identifier, will: None, user_name: None, password: None }
    }
}

/// `CONNECT` packet: protocol name and level, connect flags, keep alive, and
/// the payload fields the flags call for.
#[derive(Debug, Eq, PartialEq, Clone)]
pub struct ConnectPacket {
    /// The protocol name (`"MQTT"` at level 4).
    pub protocol_name: ProtocolName,
    /// The protocol level byte.
    pub protocol_level: ProtocolLevel,
    /// The connect flags; each payload slot mirrors one bit.
    pub flags: ConnectFlags,
    /// Keep-alive interval in seconds.
    pub keep_alive: KeepAlive,
    /// The payload fields.
    pub payload: ConnectPacketPayload,
}

impl View for ConnectPacket {
    type V = ConnectView;

    open spec fn view(&self) -> ConnectView {
        ConnectView {
            protocol_name: self.protocol_name.0@,
            protocol_level: self.protocol_level,
            flags: self.flags,
            keep_alive: self.keep_alive.0,
            client_identifier: self.payload.client_identifier@,
            will: will_view(self.payload.will),
            user_name: opt_str_view(self.payload.user_name),
            password: opt_str_view(self.payload.password),
        }
    }
}

impl ConnectPacket {
    /// A connect packet for protocol `"MQTT"` at level 4, with empty flags and
    /// keep alive 0.
    pub fn new(client_identifier: String) -> (r: ConnectPacket)
        requires
            encode_utf8(client_identifier@).len() <= 65535,
        ensures
            r@.protocol_level == ProtocolLevel::Version311,
            r@.protocol_name == "MQTT"@,
            r@.flags == (ConnectFlags {
                user_name: false,
                password: false,
                will_retain: false,
                will_qos: 0,
                will_flag: false,
                clean_session: false,
                reserved: false,
            }),
            r@.keep_alive == 0,
            r@.client_identifier == client_identifier@,
            r@.will is None,
            r@.user_name is None,
            r@.password is None,
            r.packet_wf(),
    {
        let pn = <String as vstd::string::StringExecFns>::from_str("MQTT");
        proof {
            reveal_strlit("MQTT");
            lemma_encode_utf8_len_bound("MQTT"@);
        }
        let r = ConnectPacket {
            protocol_name: ProtocolName(pn),
            protocol_level: ProtocolLevel::Version311,
            flags: ConnectFlags::empty(),
            keep_alive: KeepAlive(0),
            payload: ConnectPacketPayload::new(client_identifier),
        };
        proof {
            lemma_connect_body_len(r@);
        }
        r
    }

    /// A connect packet under the given protocol name and level byte; fails
    /// exactly on an unknown level byte.
    pub fn with_level(protoname: String, client_identifier: String, level: u8) -> (r: Result<
        ConnectPacket,
        VariableHeaderError,
    >)
        requires
            encode_utf8(protoname@).len() <= 65535,
            encode_utf8(client_identifier@).len() <= 65535,
        ensures
            match r {
                Ok(pk) => {
                    &&& sp_protocol_level(level) == Some(pk@.protocol_level)
                    &&& pk@.protocol_name == protoname@
                    &&& pk@.flags == (ConnectFlags {
                user_name: false,
                password: false,
                will_retain: false,
                will_qos: 0,
                will_flag: false,
                clean_session: false,
                reserved: false,
            })
                    &&& pk@.keep_alive == 0
                    &&& pk@.client_identifier == client_identifier@
                    &&& pk@.will is None
                    &&& pk@.user_name is None
                    &&& pk@.password is None
                    &&& pk.packet_wf()
                },
                Err(e) => sp_protocol_level(level) is None && e
                    == VariableHeaderError::InvalidProtocolVersion,
            },
    {
        let protocol_level = match ProtocolLevel::from_u8(level) {
            Some(l) => l,
            None => {
                return Err(VariableHeaderError::InvalidProtocolVersion);
            },
        };
        let r = ConnectPacket {
            protocol_name: ProtocolName(protoname),
            protocol_level,
            flags: ConnectFlags::empty(),
            keep_alive: KeepAlive(0),
            payload: ConnectPacketPayload::new(client_identifier),
        };
        proof {
            lemma_connect_body_len(r@);
        }
        Ok(r)
    }

    pub fn set_keep_alive(&mut self, keep_alive: u16)
        ensures
            *final(self) == (ConnectPacket { keep_alive: KeepAlive(keep_alive), ..*old(self) }),
    {
        self.keep_alive = KeepAlive(keep_alive);
    }

    pub fn set_user_name(&mut self, name: Option<String>)
        ensures
            final(self).flags == (ConnectFlags { user_name: name is Some, ..old(self).flags }),
            final(self).payload == (ConnectPacketPayload {
                user_name: name,
                ..old(self).payload
            }),
            final(self).protocol_name == old(self).protocol_name,
            final(self).protocol_level == old(self).protocol_level,
            final(self).keep_alive == old(self).keep_alive,
    {
        self.flags.user_name = name.is_some();
        self.payload.user_name = name;
    }

    pub fn set_will(&mut self, topic_message: Option<(TopicName, Vec<u8>)>)
        ensures
            final(self).flags == (ConnectFlags {
                will_flag: topic_message is Some,
                ..old(self).flags
            }),
            will_view(final(self).payload.will) == (match topic_message {
                Some((t, m)) => Some((t@, m@)),
                None => None::<(Seq<char>, Seq<u8>)>,
            }),
            final(self).payload.client_identifier == old(self).payload.client_identifier,
            final(self).payload.user_name == old(self).payload.user_name,
            final(self).payload.password == old(self).payload.password,
            final(self).protocol_name == old(self).protocol_name,
            final(self).protocol_level == old(self).protocol_level,
            final(self).keep_alive == old(self).keep_alive,
    {
        self.flags.will_flag = topic_message.is_some();
        self.payload.will = match topic_message {
            Some((t, m)) => Some((t, VarBytes(m))),
            None => None,
        };
    }

    pub fn set_password(&mut self, password: Option<String>)
        ensures
            final(self).flags == (ConnectFlags { password: password is Some, ..old(self).flags }),
            final(self).payload == (ConnectPacketPayload { password, ..old(self).payload }),
            final(self).protocol_name == old(self).protocol_name,
            final(self).protocol_level == old(self).protocol_level,
            final(self).keep_alive == old(self).keep_alive,
    {
        self.flags.password = password.is_some();
        self.payload.password = password;
    }

    pub fn set_client_identifier(&mut self, id: String)
        ensures
            final(self).payload == (ConnectPacketPayload {
                client_identifier: id,
                ..old(self).payload
            }),
            final(self).flags == old(self).flags,
            final(self).protocol_name == old(self).protocol_name,
            final(self).protocol_level == old(self).protocol_level,
            final(self).keep_alive == old(self).keep_alive,
    {
        self.payload.client_identifier = id;
    }

    pub fn set_will_retain(&mut self, will_retain: bool)
        ensures
            *final(self) == (ConnectPacket {
                flags: ConnectFlags { will_retain, ..old(self).flags },
                ..*old(self)
            }),
    {
        self.flags.will_retain = will_retain;
    }

    pub fn set_will_qos(&mut self, will_qos: u8)
        requires
            will_qos <= 2,
        ensures
            *final(self) == (ConnectPacket {
                flags: ConnectFlags { will_qos, ..old(self).flags },
                ..*old(self)
            }),
    {
        self.flags.will_qos = will_qos;
    }

    pub fn set_clean_session(&mut self, clean_session: bool)
        ensures
            *final(self) == (ConnectPacket {
                flags: ConnectFlags { clean_session, ..old(self).flags },
                ..*old(self)
            }),
    {
        self.flags.clean_session = clean_session;
    }

    pub fn user_name(&self) -> (r: Option<&str>)
        ensures
            match r {
                Some(s) => self@.user_name == Some(s@),
                None => self@.user_name is None,
            },
    {
        match &self.payload.user_name {
            Some(x) => Some(x.as_str()),
            None => None,
        }
    }

    pub fn password(&self) -> (r: Option<&str>)
        ensures
            match r {
                Some(s) => self@.password == Some(s@),
                None => self@.password is None,
            },
    {
        match &self.payload.password {
            Some(x) => Some(x.as_str()),
            None => None,
        }
    }

    pub fn will(&self) -> (r: Option<(&str, &[u8])>)
        ensures
            match r {
                Some((t, m)) => self@.will == Some((t@, m@)),
                None => self@.will is None,
            },
    {
        match &self.payload.will {
            Some((t, m)) => Some((t.as_str(), m.0.as_slice())),
            None => None,
        }
    }

    pub fn will_retain(&self) -> (r: bool)
        ensures
            r == self.flags.will_retain,
    {
        self.flags.will_retain
    }

    pub fn will_qos(&self) -> (r: u8)
        ensures
            r == self.flags.will_qos,
    {
        self.flags.will_qos
    }

    pub fn client_identifier(&self) -> (r: &str)
        ensures
            r@ == self@.client_identifier,
    {
        self.payload.client_identifier.as_str()
    }

    pub fn protocol_name(&self) -> (r: &str)
        ensures
            r@ == self@.protocol_name,
    {
        self.protocol_name.0.as_str()
    }

    pub fn protocol_level(&self) -> (r: ProtocolLevel)
        ensures
            r == self.protocol_level,
    {
        self.protocol_level
    }

    pub fn clean_session(&self) -> (r: bool)
        ensures
            r == self.flags.clean_session,
    {
        self.flags.clean_session
    }

    /// The reserved connect-flag bit 0; false on every packet this crate
    /// builds or accepts.
    pub fn reserved_flag(&self) -> (r: bool)
        ensures
            r == self.flags.reserved,
    {
        self.flags.reserved
    }

    /// Reads a CONNECT body.
    pub fn decode_body(buf: &Vec<u8>, pos: usize, end: usize) -> (r: Result<
        ConnectPacket,
        PacketError<ConnectPacketError>,
    >)
        requires
            pos <= end <= buf@.len(),
        ensures
            match r {
                Ok(pk) => sp_connect(buf@, pos as int, end as int) == Ok::<
                    ConnectView,
                    PacketError<ConnectPacketError>,
                >(pk@),
                Err(e) => sp_connect(buf@, pos as int, end as int) == Err::<
                    ConnectView,
                    PacketError<ConnectPacketError>,
                >(e),
            },
    {
        let (pn, p1) = match read_string(buf, pos, end) {
            Ok(v) => v,
            Err(StringReadError::UnexpectedEof) => {
                return Err(
                    PacketError::VariableHeaderError(
                        VariableHeaderError::IoError(IoError::UnexpectedEof),
                    ),
                );
            },
            Err(StringReadError::InvalidUtf8) => {
                return Err(PacketError::VariableHeaderError(VariableHeaderError::Utf8));
            },
        };
        let (level, p2) = match ProtocolLevel::decode(buf, p1, end) {
            Ok(v) => v,
            Err(e) => {
                return Err(PacketError::VariableHeaderError(e));
            },
        };
        let (flags, p3) = match crate::control::variable_header::ConnectFlags::decode(
            buf,
            p2,
            end,
        ) {
            Ok(v) => v,
            Err(e) => {
                return Err(PacketError::VariableHeaderError(e));
            },
        };
        let (ka, p4) = match read_u16(buf, p3, end) {
            Ok(v) => v,
            Err(e) => {
                return Err(PacketError::VariableHeaderError(VariableHeaderError::IoError(e)));
            },
        };
        let (ident, p5) = match read_string(buf, p4, end) {
            Ok(v) => v,
            Err(StringReadError::UnexpectedEof) => {
                return Err(
                    PacketError::PayloadError(ConnectPacketError::IoError(IoError::UnexpectedEof)),
                );
            },
            Err(StringReadError::InvalidUtf8) => {
                return Err(PacketError::PayloadError(ConnectPacketError::Utf8));
            },
        };
        let (will, p6) = if flags.will_flag {
            let (t, pw1) = match TopicName::decode(buf, p5, end) {
                Ok(v) => v,
                Err(TopicNameDecodeError::IoError(e)) => {
                    return Err(PacketError::PayloadError(ConnectPacketError::IoError(e)));
                },
                Err(TopicNameDecodeError::Utf8) => {
                    return Err(PacketError::PayloadError(ConnectPacketError::Utf8));
                },
                Err(TopicNameDecodeError::InvalidTopicName(te)) => {
                    return Err(PacketError::PayloadError(ConnectPacketError::TopicNameError(te)));
                },
            };
            let (m, pw2) = match read_varbytes(buf, pw1, end) {
                Ok(v) => v,
                Err(e) => {
                    return Err(PacketError::PayloadError(ConnectPacketError::IoError(e)));
                },
            };
            (Some((t, VarBytes(m))), pw2)
        } else {
            (None, p5)
        };
        let (user, p7) = if flags.user_name {
            match read_string(buf, p6, end) {
                Ok((u, p)) => (Some(u), p),
                Err(StringReadError::UnexpectedEof) => {
                    return Err(
                        PacketError::PayloadError(
                            ConnectPacketError::IoError(IoError::UnexpectedEof),
                        ),
                    );
                },
                Err(StringReadError::InvalidUtf8) => {
                    return Err(PacketError::PayloadError(ConnectPacketError::Utf8));
                },
            }
        } else {
            (None, p6)
        };
        let (pass, _p8) = if flags.password {
            match read_string(buf, p7, end) {
                Ok((pw, p)) => (Some(pw), p),
                Err(StringReadError::UnexpectedEof) => {
                    return Err(
                        PacketError::PayloadError(
                            ConnectPacketError::IoError(IoError::UnexpectedEof),
                        ),
                    );
                },
                Err(StringReadError::InvalidUtf8) => {
                    return Err(PacketError::PayloadError(ConnectPacketError::Utf8));
                },
            }
        } else {
            (None, p7)
        };
        Ok(
            ConnectPacket {
                protocol_name: ProtocolName(pn),
                protocol_level: level,
                flags,
                keep_alive: KeepAlive(ka),
                payload: ConnectPacketPayload {
                    client_identifier: ident,
                    will,
                    user_name: user,
                    password: pass,
                },
            },
        )
    }
}

impl EncodablePacket for ConnectPacket {
    open spec fn body_enc(&self) -> Seq<u8> {
        connect_body_enc(self@)
    }

    open spec fn packet_wf(&self) -> bool {
        connect_view_wf(self@) && self.body_enc().len() <= max_remaining_len()
    }

    open spec fn spec_packet_type(&self) -> PacketType {
        PacketType { typ: ControlType::Connect, fl: 0 }
    }

    fn packet_type(&self) -> PacketType {
        PacketType::with_default(ControlType::Connect)
    }

    #[verifier::rlimit(100)]
    fn encode_packet(&self, buf: &mut Vec<u8>) {
        write_str(buf, self.protocol_name.0.as_str());
        write_u8(buf, self.protocol_level.to_u8());
        write_u8(buf, self.flags.to_u8());
        write_u16(buf, self.keep_alive.0);
        write_str(buf, self.payload.client_identifier.as_str());
        match &self.payload.will {
            Some((t, m)) => {
                write_str(buf, t.as_str());
                write_varbytes(buf, &m.0);
            },
            None => {},
        }
        match &self.payload.user_name {
            Some(u) => write_str(buf, u.as_str()),
            None => {},
        }
        match &self.payload.password {
            Some(p) => write_str(buf, p.as_str()),
            None => {},
        }
        assert(buf@ =~= old(buf)@ + self.body_enc());
    }

    fn encoded_packet_length(&self) -> (n: u32) {
        let mut tmp: Vec<u8> = Vec::new();
        self.encode_packet(&mut tmp);
        proof {
            lemma_connect_body_len(self@);
        }
        tmp.len() as u32
    }
}

impl DecodablePacket for ConnectPacket {
    type DecodePacketError = ConnectPacketError;

    fn decode_packet(buf: &Vec<u8>, pos: usize, end: usize, _fixed_header: FixedHeader) -> Result<
        ConnectPacket,
        PacketError<ConnectPacketError>,
    > {
        ConnectPacket::decode_body(buf, pos, end)
    }
}

/// A well-formed CONNECT body stays within the largest remaining length.
pub proof fn lemma_connect_body_len(v: ConnectView)
    requires
        connect_view_wf(v),
    ensures
        connect_body_enc(v).len() <= max_remaining_len(),
{
}

/// A well-formed CONNECT body decodes back from its own encoding, whatever
/// follows it.
pub proof fn lemma_sp_connect_of_enc(v: ConnectView, s: Seq<u8>, pos: int, end: int)
    requires
        connect_view_wf(v),
        0 <= pos,
        pos + connect_body_enc(v).len() <= end <= s.len(),
        s.subrange(pos, pos + connect_body_enc(v).len()) == connect_body_enc(v),
    ensures
        sp_connect(s, pos, end) == Ok::<ConnectView, PacketError<ConnectPacketError>>(v),
{
    let w = connect_body_enc(v);
    let pnl = string_enc(v.protocol_name).len() as int;
    assert(w.subrange(0, pnl) =~= string_enc(v.protocol_name));
    lemma_component_at(s, pos, w, 0, string_enc(v.protocol_name));
    lemma_sp_string_of_enc(v.protocol_name, s, pos, end);
    let p1 = pos + pnl;
    assert(s[p1] == level_val(v.protocol_level)) by {
        assert(s.subrange(pos, pos + w.len())[pnl] == w[pnl]);
    }
    let p2 = p1 + 1;
    assert(s[p2] == connect_flags_byte(v.flags)) by {
        assert(s.subrange(pos, pos + w.len())[pnl + 1] == w[pnl + 1]);
    }
    lemma_sp_connect_flags_of_enc(v.flags, s, p2, end);
    let p3 = p2 + 1;
    assert(w.subrange(pnl + 2, pnl + 4) =~= be_u16(v.keep_alive));
    lemma_component_at(s, pos, w, pnl + 2, be_u16(v.keep_alive));
    lemma_sp_u16_of_enc(v.keep_alive, s, p3, end);
    let p4 = p3 + 2;
    let pay = connect_payload_enc(v);
    assert(w.subrange(pnl + 4, w.len() as int) =~= pay);
    lemma_component_at(s, pos, w, pnl + 4, pay);
    lemma_sp_connect_payload_of_enc(v, s, p4, end);
}

/// A well-formed CONNECT payload decodes back from its own encoding under the
/// packet's own flags, whatever follows it.
#[verifier::rlimit(100)]
pub proof fn lemma_sp_connect_payload_of_enc(v: ConnectView, s: Seq<u8>, pos: int, end: int)
    requires
        connect_view_wf(v),
        0 <= pos,
        pos + connect_payload_enc(v).len() <= end <= s.len(),
        s.subrange(pos, pos + connect_payload_enc(v).len()) == connect_payload_enc(v),
    ensures
        sp_connect_payload(s, pos, end, v.flags) matches Ok((ident, will, user, pass, _)) && ident
            == v.client_identifier && will == v.will && user == v.user_name && pass == v.password,
{
    let w = connect_payload_enc(v);
    let cl = string_enc(v.client_identifier).len() as int;
    assert(w.subrange(0, cl) =~= string_enc(v.client_identifier));
    lemma_component_at(s, pos, w, 0, string_enc(v.client_identifier));
    lemma_sp_string_of_enc(v.client_identifier, s, pos, end);
    let p1 = pos + cl;
    let wl: int = match v.will {
        Some((t, m)) => string_enc(t).len() + varbytes_enc(m).len() as int,
        None => 0,
    };
    match v.will {
        Some((t, m)) => {
            let tl = string_enc(t).len() as int;
            assert(w.subrange(cl, cl + tl) =~= string_enc(t));
            lemma_component_at(s, pos, w, cl, string_enc(t));
            lemma_sp_topic_name_of_enc(t, s, p1, end);
            assert(w.subrange(cl + tl, cl + tl + varbytes_enc(m).len()) =~= varbytes_enc(m));
            lemma_component_at(s, pos, w, cl + tl, varbytes_enc(m));
            lemma_sp_varbytes_of_enc(m, s, p1 + tl, end);
        },
        None => {},
    }
    let p3 = p1 + wl;
    let ul: int = match v.user_name {
        Some(u) => string_enc(u).len() as int,
        None => 0,
    };
    match v.user_name {
        Some(u) => {
            assert(w.subrange(cl + wl, cl + wl + ul) =~= string_enc(u));
            lemma_component_at(s, pos, w, cl + wl, string_enc(u));
            lemma_sp_string_of_enc(u, s, p3, end);
        },
        None => {},
    }
    let p4 = p3 + ul;
    match v.password {
        Some(pw) => {
            let pl = string_enc(pw).len() as int;
            assert(w.subrange(cl + wl + ul, cl + wl + ul + pl) =~= string_enc(pw));
            lemma_component_at(s, pos, w, cl + wl + ul, string_enc(pw));
            lemma_sp_string_of_enc(pw, s, p4, end);
        },
        None => {},
    }
}

} // verus!
