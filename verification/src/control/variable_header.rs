//! Typed variable-header fragments shared across packets: connect flags,
//! connack flags, return code, keep alive, packet identifier, protocol name
//! and level, and the topic-name header.

use vstd::prelude::*;

verus! {

use vstd::utf8::encode_utf8;
use crate::encodable::{
    Encodable,
    IoError,
    StringReadError,
    be_u16,
    string_enc,
    sp_u8,
    sp_u16,
    sp_string,
    write_u8,
    write_u16,
    write_str,
    str_byte_len,
    read_u8,
    read_u16,
    read_string,
};
use crate::topic_name::{TopicName, TopicNameError, TopicNameDecodeError, sp_topic_name};

/// Errors while decoding a variable-header fragment.
#[derive(Debug, PartialEq, Eq, Clone, Copy)]
pub enum VariableHeaderError {
    /// The input ended inside the fragment.
    IoError(IoError),
    /// A reserved flag bit that must be zero was set.
    InvalidReservedFlag,
    /// String bytes are not valid UTF-8.
    Utf8,
    /// A topic-name field failed validation.
    TopicNameError(TopicNameError),
    /// An unknown protocol-level byte.
    InvalidProtocolVersion,
}

/// Flags of the `CONNACK` packet: only bit 0, session present, may be set.
#[derive(Debug, Eq, PartialEq, Copy, Clone, Structural)]
pub struct ConnackFlags {
    pub session_present: bool,
}

/// The wire byte of connack flags.
pub open spec fn connack_flags_byte(f: ConnackFlags) -> u8 {
    if f.session_present {
        1
    } else {
        0
    }
}

/// What decoding a connack-flags byte yields: any byte above 1 sets a
/// reserved bit and is refused.
pub open spec fn sp_connack_flags(s: Seq<u8>, pos: int, end: int) -> Result<
    (ConnackFlags, int),
    VariableHeaderError,
>
    recommends
        0 <= pos <= end <= s.len(),
{
    match sp_u8(s, pos, end) {
        Err(e) => Err(VariableHeaderError::IoError(e)),
        Ok((code, p)) => if code >= 2 {
            Err(VariableHeaderError::InvalidReservedFlag)
        } else {
            Ok((ConnackFlags { session_present: code == 1 }, p))
        },
    }
}

impl ConnackFlags {
    /// Flags with nothing set.
    pub fn empty() -> (r: ConnackFlags)
        ensures
            r == (ConnackFlags { session_present: false }),
    {
        ConnackFlags { session_present: false }
    }

    /// Reads connack flags; refuses any byte with a reserved bit set.
    pub fn decode(buf: &Vec<u8>, pos: usize, end: usize) -> (r: Result<
        (ConnackFlags, usize),
        VariableHeaderError,
    >)
        requires
            pos <= end <= buf@.len(),
        ensures
            match r {
                Ok((v, p)) => sp_connack_flags(buf@, pos as int, end as int) == Ok::<
                    (ConnackFlags, int),
                    VariableHeaderError,
                >((v, p as int)),
                Err(e) => sp_connack_flags(buf@, pos as int, end as int) == Err::<
                    (ConnackFlags, int),
                    VariableHeaderError,
                >(e),
            },
    {
        match read_u8(buf, pos, end) {
            Err(e) => Err(VariableHeaderError::IoError(e)),
            Ok((code, p)) => if code >= 2 {
                Err(VariableHeaderError::InvalidReservedFlag)
            } else {
                Ok((ConnackFlags { session_present: code == 1 }, p))
            },
        }
    }
}

impl Encodable for ConnackFlags {
    open spec fn enc(&self) -> Seq<u8> {
        seq![connack_flags_byte(*self)]
    }

    open spec fn enc_wf(&self) -> bool {
        true
    }

    fn encode(&self, buf: &mut Vec<u8>) {
        write_u8(buf, if self.session_present { 1 } else { 0 });
    }

    fn encoded_length(&self) -> u32 {
        1
    }
}

/// Connack flags decode back from their own byte.
pub proof fn lemma_sp_connack_flags_of_enc(f: ConnackFlags, s: Seq<u8>, pos: int, end: int)
    requires
        0 <= pos,
        pos + 1 <= end <= s.len(),
        s[pos] == connack_flags_byte(f),
    ensures
        sp_connack_flags(s, pos, end) == Ok::<(ConnackFlags, int), VariableHeaderError>(
            (f, pos + 1),
        ),
{
}

/// Flags of the `CONNECT` packet, one field per flag bit. Bit 0 is reserved
/// and must be zero on the wire; a decoder refuses it set.
#[derive(Debug, Eq, PartialEq, Copy, Clone, Structural)]
pub struct ConnectFlags {
    pub user_name: bool,
    pub password: bool,
    pub will_retain: bool,
    pub will_qos: u8,
    pub will_flag: bool,
    pub clean_session: bool,
    pub reserved: bool,
}

/// The numeric value of a flag bit.
pub open spec fn bit(b: bool) -> u8 {
    if b {
        1
    } else {
        0
    }
}

/// The wire byte of connect flags: user name in bit 7 down to reserved in bit 0.
pub open spec fn connect_flags_byte(f: ConnectFlags) -> u8
    recommends
        f.will_qos < 4,
{
    (bit(f.user_name) * 128 + bit(f.password) * 64 + bit(f.will_retain) * 32 + f.will_qos * 8 + bit(
        f.will_flag,
    ) * 4 + bit(f.clean_session) * 2 + bit(f.reserved)) as u8
}

/// What decoding a connect-flags byte yields: refused when the reserved bit 0
/// is set, otherwise each flag read out of its bit.
pub open spec fn sp_connect_flags(s: Seq<u8>, pos: int, end: int) -> Result<
    (ConnectFlags, int),
    VariableHeaderError,
>
    recommends
        0 <= pos <= end <= s.len(),
{
    match sp_u8(s, pos, end) {
        Err(e) => Err(VariableHeaderError::IoError(e)),
        Ok((code, p)) => if code % 2 == 1 {
            Err(VariableHeaderError::InvalidReservedFlag)
        } else {
            Ok((flags_of_byte(code), p))
        },
    }
}

/// The connect flags stored in a byte.
pub open spec fn flags_of_byte(code: u8) -> ConnectFlags {
    ConnectFlags {
        user_name: (code / 128) % 2 == 1,
        password: (code / 64) % 2 == 1,
        will_retain: (code / 32) % 2 == 1,
        will_qos: ((code / 8) % 4) as u8,
        will_flag: (code / 4) % 2 == 1,
        clean_session: (code / 2) % 2 == 1,
        reserved: code % 2 == 1,
    }
}

impl ConnectFlags {
    /// Flags with nothing set.
    pub fn empty() -> (r: ConnectFlags)
        ensures
            r == (ConnectFlags {
                user_name: false,
                password: false,
                will_retain: false,
                will_qos: 0,
                will_flag: false,
                clean_session: false,
                reserved: false,
            }),
    {
        ConnectFlags {
            user_name: false,
            password: false,
            will_retain: false,
            will_qos: 0,
            will_flag: false,
            clean_session: false,
            reserved: false,
        }
    }

    /// The flags byte, to be written to the wire.
    pub fn to_u8(&self) -> (r: u8)
        requires
            self.will_qos < 4,
        ensures
            r == connect_flags_byte(*self),
    {
        (if self.user_name {
            128
        } else {
            0
        }) + (if self.password {
            64
        } else {
            0
        }) + (if self.will_retain {
            32
        } else {
            0
        }) + self.will_qos * 8 + (if self.will_flag {
            4
        } else {
            0
        }) + (if self.clean_session {
            2
        } else {
            0
        }) + (if self.reserved {
            1
        } else {
            0
        })
    }

    /// Reads connect flags; refuses any byte whose reserved bit 0 is set.
    pub fn decode(buf: &Vec<u8>, pos: usize, end: usize) -> (r: Result<
        (ConnectFlags, usize),
        VariableHeaderError,
    >)
        requires
            pos <= end <= buf@.len(),
        ensures
            match r {
                Ok((v, p)) => sp_connect_flags(buf@, pos as int, end as int) == Ok::<
                    (ConnectFlags, int),
                    VariableHeaderError,
                >((v, p as int)) && v.will_qos < 4 && !v.reserved,
                Err(e) => sp_connect_flags(buf@, pos as int, end as int) == Err::<
                    (ConnectFlags, int),
                    VariableHeaderError,
                >(e),
            },
    {
        match read_u8(buf, pos, end) {
            Err(e) => Err(VariableHeaderError::IoError(e)),
            Ok((code, p)) => if code % 2 == 1 {
                Err(VariableHeaderError::InvalidReservedFlag)
            } else {
                Ok(
                    (
                        ConnectFlags {
                            user_name: (code / 128) % 2 == 1,
                            password: (code / 64) % 2 == 1,
                            will_retain: (code / 32) % 2 == 1,
                            will_qos: (code / 8) % 4,
                            will_flag: (code / 4) % 2 == 1,
                            clean_session: (code / 2) % 2 == 1,
                            reserved: code % 2 == 1,
                        },
                        p,
                    ),
                )
            },
        }
    }
}

impl Encodable for ConnectFlags {
    open spec fn enc(&self) -> Seq<u8> {
        seq![connect_flags_byte(*self)]
    }

    open spec fn enc_wf(&self) -> bool {
        self.will_qos < 4
    }

    fn encode(&self, buf: &mut Vec<u8>) {
        write_u8(buf, self.to_u8());
    }

    fn encoded_length(&self) -> u32 {
        1
    }
}

/// Reading the connect-flags byte back yields each flag: the byte decomposes
/// uniquely into its bit fields.
pub proof fn lemma_flags_of_byte_of_enc(f: ConnectFlags)
    requires
        f.will_qos < 4,
        !f.reserved,
    ensures
        flags_of_byte(connect_flags_byte(f)) == f,
        connect_flags_byte(f) % 2 == 0,
{
    let b = connect_flags_byte(f);
    let u = bit(f.user_name) as int;
    let pw = bit(f.password) as int;
    let wr = bit(f.will_retain) as int;
    let wq = f.will_qos as int;
    let wl = bit(f.will_flag) as int;
    let cs = bit(f.clean_session) as int;
    assert(b == u * 128 + pw * 64 + wr * 32 + wq * 8 + wl * 4 + cs * 2);
    assert((b as int) / 128 % 2 == u && (b as int) / 64 % 2 == pw && (b as int) / 32 % 2 == wr && (
    b as int) / 8 % 4 == wq && (b as int) / 4 % 2 == wl && (b as int) / 2 % 2 == cs && (
    b as int) % 2 == 0) by (nonlinear_arith)
        requires
            b == u * 128 + pw * 64 + wr * 32 + wq * 8 + wl * 4 + cs * 2,
            0 <= u <= 1,
            0 <= pw <= 1,
            0 <= wr <= 1,
            0 <= wq <= 3,
            0 <= wl <= 1,
            0 <= cs <= 1,
    ;
}

/// Connect flags decode back from their own byte.
pub proof fn lemma_sp_connect_flags_of_enc(f: ConnectFlags, s: Seq<u8>, pos: int, end: int)
    requires
        f.will_qos < 4,
        !f.reserved,
        0 <= pos,
        pos + 1 <= end <= s.len(),
        s[pos] == connect_flags_byte(f),
    ensures
        sp_connect_flags(s, pos, end) == Ok::<(ConnectFlags, int), VariableHeaderError>(
            (f, pos + 1),
        ),
{
    lemma_flags_of_byte_of_enc(f);
}

/// Return code of the `CONNACK` packet.
#[derive(Debug, Eq, PartialEq, Copy, Clone, Structural)]
pub enum ConnectReturnCode {
    ConnectionAccepted,
    UnacceptableProtocolVersion,
    IdentifierRejected,
    ServiceUnavailable,
    BadUserNameOrPassword,
    NotAuthorized,
    /// Any other code byte, kept as it came.
    Reserved(u8),
}

/// The wire byte of a connect return code.
pub open spec fn ret_code_val(c: ConnectReturnCode) -> u8 {
    match c {
        ConnectReturnCode::ConnectionAccepted => 0,
        ConnectReturnCode::UnacceptableProtocolVersion => 1,
        ConnectReturnCode::IdentifierRejected => 2,
        ConnectReturnCode::ServiceUnavailable => 3,
        ConnectReturnCode::BadUserNameOrPassword => 4,
        ConnectReturnCode::NotAuthorized => 5,
        ConnectReturnCode::Reserved(r) => r,
    }
}

/// The return code named by a byte; bytes above 5 come back as `Reserved`.
pub open spec fn sp_ret_code(code: u8) -> ConnectReturnCode {
    if code == 0 {
        ConnectReturnCode::ConnectionAccepted
    } else if code == 1 {
        ConnectReturnCode::UnacceptableProtocolVersion
    } else if code == 2 {
        ConnectReturnCode::IdentifierRejected
    } else if code == 3 {
        ConnectReturnCode::ServiceUnavailable
    } else if code == 4 {
        ConnectReturnCode::BadUserNameOrPassword
    } else if code == 5 {
        ConnectReturnCode::NotAuthorized
    } else {
        ConnectReturnCode::Reserved(code)
    }
}

/// A return code is canonical when a `Reserved` value does not shadow a named
/// code; only canonical codes encode to a byte that reads back unchanged.
pub open spec fn ret_code_wf(c: ConnectReturnCode) -> bool {
    match c {
        ConnectReturnCode::Reserved(r) => r > 5,
        _ => true,
    }
}

impl ConnectReturnCode {
    /// The code byte.
    pub fn to_u8(self) -> (r: u8)
        ensures
            r == ret_code_val(self),
    {
        match self {
            ConnectReturnCode::ConnectionAccepted => 0,
            ConnectReturnCode::UnacceptableProtocolVersion => 1,
            ConnectReturnCode::IdentifierRejected => 2,
            ConnectReturnCode::ServiceUnavailable => 3,
            ConnectReturnCode::BadUserNameOrPassword => 4,
            ConnectReturnCode::NotAuthorized => 5,
            ConnectReturnCode::Reserved(r) => r,
        }
    }

    /// The return code named by a byte.
    pub fn from_u8(code: u8) -> (r: ConnectReturnCode)
        ensures
            r == sp_ret_code(code),
            ret_code_wf(r),
    {
        if code == 0 {
            ConnectReturnCode::ConnectionAccepted
        } else if code == 1 {
            ConnectReturnCode::UnacceptableProtocolVersion
        } else if code == 2 {
            ConnectReturnCode::IdentifierRejected
        } else if code == 3 {
            ConnectReturnCode::ServiceUnavailable
        } else if code == 4 {
            ConnectReturnCode::BadUserNameOrPassword
        } else if code == 5 {
            ConnectReturnCode::NotAuthorized
        } else {
            ConnectReturnCode::Reserved(code)
        }
    }

    /// Reads a return code; any byte is accepted.
    pub fn decode(buf: &Vec<u8>, pos: usize, end: usize) -> (r: Result<
        (ConnectReturnCode, usize),
        VariableHeaderError,
    >)
        requires
            pos <= end <= buf@.len(),
        ensures
            match r {
                Ok((v, p)) => sp_u8(buf@, pos as int, end as int) matches Ok(bp) && v == sp_ret_code(
                    bp.0,
                ) && p == bp.1 && ret_code_wf(v),
                Err(e) => sp_u8(buf@, pos as int, end as int) matches Err(ioe) && e
                    == VariableHeaderError::IoError(ioe),
            },
    {
        match read_u8(buf, pos, end) {
            Err(e) => Err(VariableHeaderError::IoError(e)),
            Ok((code, p)) => Ok((ConnectReturnCode::from_u8(code), p)),
        }
    }
}

impl Encodable for ConnectReturnCode {
    open spec fn enc(&self) -> Seq<u8> {
        seq![ret_code_val(*self)]
    }

    open spec fn enc_wf(&self) -> bool {
        true
    }

    fn encode(&self, buf: &mut Vec<u8>) {
        write_u8(buf, self.to_u8());
    }

    fn encoded_length(&self) -> u32 {
        1
    }
}

/// A canonical return code reads back from its own byte.
pub proof fn lemma_sp_ret_code_of_enc(c: ConnectReturnCode)
    requires
        ret_code_wf(c),
    ensures
        sp_ret_code(ret_code_val(c)) == c,
{
}

/// Keep alive time interval in seconds.
#[derive(Debug, Eq, PartialEq, Copy, Clone, Structural)]
pub struct KeepAlive(pub u16);

impl Encodable for KeepAlive {
    open spec fn enc(&self) -> Seq<u8> {
        be_u16(self.0)
    }

    open spec fn enc_wf(&self) -> bool {
        true
    }

    fn encode(&self, buf: &mut Vec<u8>) {
        write_u16(buf, self.0);
    }

    fn encoded_length(&self) -> u32 {
        2
    }
}

impl KeepAlive {
    /// Reads a keep-alive interval.
    pub fn decode(buf: &Vec<u8>, pos: usize, end: usize) -> (r: Result<
        (KeepAlive, usize),
        VariableHeaderError,
    >)
        requires
            pos <= end <= buf@.len(),
        ensures
            match r {
                Ok((v, p)) => sp_u16(buf@, pos as int, end as int) == Ok::<(u16, int), IoError>(
                    (v.0, p as int),
                ),
                Err(e) => sp_u16(buf@, pos as int, end as int) matches Err(ioe) && e
                    == VariableHeaderError::IoError(ioe),
            },
    {
        match read_u16(buf, pos, end) {
            Err(e) => Err(VariableHeaderError::IoError(e)),
            Ok((v, p)) => Ok((KeepAlive(v), p)),
        }
    }
}

/// Packet identifier correlating requests with their acknowledgements.
#[derive(Debug, Eq, PartialEq, Copy, Clone, Structural)]
pub struct PacketIdentifier(pub u16);

impl Encodable for PacketIdentifier {
    open spec fn enc(&self) -> Seq<u8> {
        be_u16(self.0)
    }

    open spec fn enc_wf(&self) -> bool {
        true
    }

    fn encode(&self, buf: &mut Vec<u8>) {
        write_u16(buf, self.0);
    }

    fn encoded_length(&self) -> u32 {
        2
    }
}

impl PacketIdentifier {
    /// Reads a packet identifier.
    pub fn decode(buf: &Vec<u8>, pos: usize, end: usize) -> (r: Result<
        (PacketIdentifier, usize),
        VariableHeaderError,
    >)
        requires
            pos <= end <= buf@.len(),
        ensures
            match r {
                Ok((v, p)) => sp_u16(buf@, pos as int, end as int) == Ok::<(u16, int), IoError>(
                    (v.0, p as int),
                ),
                Err(e) => sp_u16(buf@, pos as int, end as int) matches Err(ioe) && e
                    == VariableHeaderError::IoError(ioe),
            },
    {
        match read_u16(buf, pos, end) {
            Err(e) => Err(VariableHeaderError::IoError(e)),
            Ok((v, p)) => Ok((PacketIdentifier(v), p)),
        }
    }
}

/// Protocol level carried by `CONNECT` (`0x04` in v3.1.1).
#[derive(Debug, Eq, PartialEq, Copy, Clone, Structural)]
pub enum ProtocolLevel {
    Version310,
    Version311,
    Version50,
}

/// The wire byte of a protocol level.
pub open spec fn level_val(l: ProtocolLevel) -> u8 {
    match l {
        ProtocolLevel::Version310 => 3,
        ProtocolLevel::Version311 => 4,
        ProtocolLevel::Version50 => 5,
    }
}

/// The protocol level named by a byte; `None` exactly outside 3, 4, 5.
pub open spec fn sp_protocol_level(n: u8) -> Option<ProtocolLevel> {
    if n == 3 {
        Some(ProtocolLevel::Version310)
    } else if n == 4 {
        Some(ProtocolLevel::Version311)
    } else if n == 5 {
        Some(ProtocolLevel::Version50)
    } else {
        None
    }
}

impl ProtocolLevel {
    /// The protocol level named by a byte; `None` exactly on unknown bytes.
    pub fn from_u8(n: u8) -> (r: Option<ProtocolLevel>)
        ensures
            r == sp_protocol_level(n),
    {
        if n == 3 {
            Some(ProtocolLevel::Version310)
        } else if n == 4 {
            Some(ProtocolLevel::Version311)
        } else if n == 5 {
            Some(ProtocolLevel::Version50)
        } else {
            None
        }
    }

    /// The level byte.
    pub fn to_u8(self) -> (r: u8)
        ensures
            r == level_val(self),
    {
        match self {
            ProtocolLevel::Version310 => 3,
            ProtocolLevel::Version311 => 4,
            ProtocolLevel::Version50 => 5,
        }
    }

    /// Reads a protocol level; fails with `InvalidProtocolVersion` exactly on
    /// unknown level bytes.
    pub fn decode(buf: &Vec<u8>, pos: usize, end: usize) -> (r: Result<
        (ProtocolLevel, usize),
        VariableHeaderError,
    >)
        requires
            pos <= end <= buf@.len(),
        ensures
            match r {
                Ok((v, p)) => sp_u8(buf@, pos as int, end as int) matches Ok(bp)
                    && sp_protocol_level(bp.0) == Some(v) && p == bp.1,
                Err(e) => match sp_u8(buf@, pos as int, end as int) {
                    Err(ioe) => e == VariableHeaderError::IoError(ioe),
                    Ok(bp) => sp_protocol_level(bp.0) is None && e
                        == VariableHeaderError::InvalidProtocolVersion,
                },
            },
    {
        match read_u8(buf, pos, end) {
            Err(e) => Err(VariableHeaderError::IoError(e)),
            Ok((code, p)) => match ProtocolLevel::from_u8(code) {
                Some(l) => Ok((l, p)),
                None => Err(VariableHeaderError::InvalidProtocolVersion),
            },
        }
    }
}

impl Encodable for ProtocolLevel {
    open spec fn enc(&self) -> Seq<u8> {
        seq![level_val(*self)]
    }

    open spec fn enc_wf(&self) -> bool {
        true
    }

    fn encode(&self, buf: &mut Vec<u8>) {
        write_u8(buf, self.to_u8());
    }

    fn encoded_length(&self) -> u32 {
        1
    }
}

/// Protocol name in the `CONNECT` variable header (`"MQTT"` at level 4).
#[derive(Debug, Eq, PartialEq, Clone)]
pub struct ProtocolName(pub String);

impl Encodable for ProtocolName {
    open spec fn enc(&self) -> Seq<u8> {
        string_enc(self.0@)
    }

    open spec fn enc_wf(&self) -> bool {
        encode_utf8(self.0@).len() <= 65535
    }

    fn encode(&self, buf: &mut Vec<u8>) {
        write_str(buf, self.0.as_str());
    }

    fn encoded_length(&self) -> (n: u32) {
        2 + str_byte_len(self.0.as_str())
    }
}

impl ProtocolName {
    /// Reads a protocol-name string.
    pub fn decode(buf: &Vec<u8>, pos: usize, end: usize) -> (r: Result<
        (ProtocolName, usize),
        VariableHeaderError,
    >)
        requires
            pos <= end <= buf@.len(),
        ensures
            match r {
                Ok((v, p)) => sp_string(buf@, pos as int, end as int) == Ok::<
                    (Seq<char>, int),
                    StringReadError,
                >((v.0@, p as int)),
                Err(e) => match sp_string(buf@, pos as int, end as int) {
                    Err(StringReadError::UnexpectedEof) => e == VariableHeaderError::IoError(
                        IoError::UnexpectedEof,
                    ),
                    Err(StringReadError::InvalidUtf8) => e == VariableHeaderError::Utf8,
                    Ok(_) => false,
                },
            },
    {
        match read_string(buf, pos, end) {
            Err(StringReadError::UnexpectedEof) => Err(
                VariableHeaderError::IoError(IoError::UnexpectedEof),
            ),
            Err(StringReadError::InvalidUtf8) => Err(VariableHeaderError::Utf8),
            Ok((s, p)) => Ok((ProtocolName(s), p)),
        }
    }
}

/// Topic name wrapper used as a variable-header field.
#[derive(Debug, Eq, PartialEq, Clone)]
pub struct TopicNameHeader(pub TopicName);

impl TopicNameHeader {
    /// Creates a topic-name header; fails exactly when the string breaks the
    /// topic-name rules.
    pub fn new(topic_name: String) -> (r: Result<TopicNameHeader, VariableHeaderError>)
        ensures
            match r {
                Ok(t) => crate::topic_name::valid_topic_name_bytes(encode_utf8(topic_name@))
                    && t.0@ == topic_name@ && t.0.wf(),
                Err(_) => !crate::topic_name::valid_topic_name_bytes(encode_utf8(topic_name@)),
            },
    {
        match TopicName::new(topic_name) {
            Ok(h) => Ok(TopicNameHeader(h)),
            Err(err) => Err(VariableHeaderError::TopicNameError(err)),
        }
    }

    /// Reads a topic-name field.
    pub fn decode(buf: &Vec<u8>, pos: usize, end: usize) -> (r: Result<
        (TopicNameHeader, usize),
        VariableHeaderError,
    >)
        requires
            pos <= end <= buf@.len(),
        ensures
            match r {
                Ok((v, p)) => sp_topic_name(buf@, pos as int, end as int) == Ok::<
                    (Seq<char>, int),
                    TopicNameDecodeError,
                >((v.0@, p as int)) && v.0.wf(),
                Err(e) => match sp_topic_name(buf@, pos as int, end as int) {
                    Err(TopicNameDecodeError::IoError(ioe)) => e == VariableHeaderError::IoError(
                        ioe,
                    ),
                    Err(TopicNameDecodeError::Utf8) => e == VariableHeaderError::Utf8,
                    Err(TopicNameDecodeError::InvalidTopicName(te)) => e
                        == VariableHeaderError::TopicNameError(te),
                    Ok(_) => false,
                },
            },
    {
        match TopicName::decode(buf, pos, end) {
            Ok((t, p)) => Ok((TopicNameHeader(t), p)),
            Err(TopicNameDecodeError::IoError(ioe)) => Err(VariableHeaderError::IoError(ioe)),
            Err(TopicNameDecodeError::Utf8) => Err(VariableHeaderError::Utf8),
            Err(TopicNameDecodeError::InvalidTopicName(te)) => Err(
                VariableHeaderError::TopicNameError(te),
            ),
        }
    }
}

impl Encodable for TopicNameHeader {
    open spec fn enc(&self) -> Seq<u8> {
        self.0.enc()
    }

    open spec fn enc_wf(&self) -> bool {
        self.0.enc_wf()
    }

    fn encode(&self, buf: &mut Vec<u8>) {
        self.0.encode(buf);
    }

    fn encoded_length(&self) -> (n: u32) {
        self.0.encoded_length()
    }
}

} // verus!
