//! Packet types: the first byte of the fixed header.

use vstd::prelude::*;

verus! {

use crate::qos::QualityOfService;
use crate::qos::qos_val;

/// Defined control types.
#[derive(Debug, Eq, PartialEq, Copy, Clone, Structural)]
pub enum ControlType {
    /// Client request to connect to a server
    Connect,
    /// Connect acknowledgment
    ConnectAcknowledgement,
    /// Publish message
    Publish,
    /// Publish acknowledgment
    PublishAcknowledgement,
    /// Publish received (assured delivery part 1)
    PublishReceived,
    /// Publish release (assured delivery part 2)
    PublishRelease,
    /// Publish complete (assured delivery part 3)
    PublishComplete,
    /// Client subscribe request
    Subscribe,
    /// Subscribe acknowledgment
    SubscribeAcknowledgement,
    /// Unsubscribe request
    Unsubscribe,
    /// Unsubscribe acknowledgment
    UnsubscribeAcknowledgement,
    /// Ping request
    PingRequest,
    /// Ping response
    PingResponse,
    /// Client is disconnecting
    Disconnect,
}

/// The type value carried in the high nibble of the first header byte (1 to 14).
pub open spec fn ct_val(t: ControlType) -> u8 {
    match t {
        ControlType::Connect => 1,
        ControlType::ConnectAcknowledgement => 2,
        ControlType::Publish => 3,
        ControlType::PublishAcknowledgement => 4,
        ControlType::PublishReceived => 5,
        ControlType::PublishRelease => 6,
        ControlType::PublishComplete => 7,
        ControlType::Subscribe => 8,
        ControlType::SubscribeAcknowledgement => 9,
        ControlType::Unsubscribe => 10,
        ControlType::UnsubscribeAcknowledgement => 11,
        ControlType::PingRequest => 12,
        ControlType::PingResponse => 13,
        ControlType::Disconnect => 14,
    }
}

/// The flag nibble each type is required to carry (for `Publish` the flags are
/// free apart from the quality-of-service bits, and these default to zero).
pub open spec fn default_flags(t: ControlType) -> u8 {
    match t {
        ControlType::PublishRelease => 0b0010,
        ControlType::Subscribe => 0b0010,
        ControlType::Unsubscribe => 0b0010,
        _ => 0,
    }
}

/// The quality-of-service level stored in bits 2..1 of a flag nibble.
pub open spec fn qos_of_flags(flags: u8) -> u8 {
    ((flags / 2) % 4) as u8
}

/// When a flag nibble is acceptable for a type: `Publish` needs quality-of-service
/// bits below 3, every other type needs exactly its required nibble.
pub open spec fn flags_ok(t: ControlType, flags: u8) -> bool {
    match t {
        ControlType::Publish => qos_of_flags(flags) < 3,
        _ => flags == default_flags(t),
    }
}

/// The control type named by a high-nibble value; `None` exactly for the
/// reserved values 0 and 15.
pub open spec fn sp_control_type(val: u8) -> Option<ControlType> {
    if val == 1 {
        Some(ControlType::Connect)
    } else if val == 2 {
        Some(ControlType::ConnectAcknowledgement)
    } else if val == 3 {
        Some(ControlType::Publish)
    } else if val == 4 {
        Some(ControlType::PublishAcknowledgement)
    } else if val == 5 {
        Some(ControlType::PublishReceived)
    } else if val == 6 {
        Some(ControlType::PublishRelease)
    } else if val == 7 {
        Some(ControlType::PublishComplete)
    } else if val == 8 {
        Some(ControlType::Subscribe)
    } else if val == 9 {
        Some(ControlType::SubscribeAcknowledgement)
    } else if val == 10 {
        Some(ControlType::Unsubscribe)
    } else if val == 11 {
        Some(ControlType::UnsubscribeAcknowledgement)
    } else if val == 12 {
        Some(ControlType::PingRequest)
    } else if val == 13 {
        Some(ControlType::PingResponse)
    } else if val == 14 {
        Some(ControlType::Disconnect)
    } else {
        None
    }
}

impl ControlType {
    /// The flag nibble this type carries by default.
    pub fn to_default_flags(self) -> (r: u8)
        ensures
            r == default_flags(self),
    {
        match self {
            ControlType::PublishRelease => 0b0010,
            ControlType::Subscribe => 0b0010,
            ControlType::Unsubscribe => 0b0010,
            _ => 0,
        }
    }

    /// The high-nibble value of this type.
    pub fn to_u8(self) -> (r: u8)
        ensures
            r == ct_val(self),
    {
        match self {
            ControlType::Connect => 1,
            ControlType::ConnectAcknowledgement => 2,
            ControlType::Publish => 3,
            ControlType::PublishAcknowledgement => 4,
            ControlType::PublishReceived => 5,
            ControlType::PublishRelease => 6,
            ControlType::PublishComplete => 7,
            ControlType::Subscribe => 8,
            ControlType::SubscribeAcknowledgement => 9,
            ControlType::Unsubscribe => 10,
            ControlType::UnsubscribeAcknowledgement => 11,
            ControlType::PingRequest => 12,
            ControlType::PingResponse => 13,
            ControlType::Disconnect => 14,
        }
    }
}

/// Looks a control type up by its high-nibble value.
pub fn get_control_type(val: u8) -> (r: Option<ControlType>)
    ensures
        r == sp_control_type(val),
{
    if val == 1 {
        Some(ControlType::Connect)
    } else if val == 2 {
        Some(ControlType::ConnectAcknowledgement)
    } else if val == 3 {
        Some(ControlType::Publish)
    } else if val == 4 {
        Some(ControlType::PublishAcknowledgement)
    } else if val == 5 {
        Some(ControlType::PublishReceived)
    } else if val == 6 {
        Some(ControlType::PublishRelease)
    } else if val == 7 {
        Some(ControlType::PublishComplete)
    } else if val == 8 {
        Some(ControlType::Subscribe)
    } else if val == 9 {
        Some(ControlType::SubscribeAcknowledgement)
    } else if val == 10 {
        Some(ControlType::Unsubscribe)
    } else if val == 11 {
        Some(ControlType::UnsubscribeAcknowledgement)
    } else if val == 12 {
        Some(ControlType::PingRequest)
    } else if val == 13 {
        Some(ControlType::PingResponse)
    } else if val == 14 {
        Some(ControlType::Disconnect)
    } else {
        None
    }
}

/// Packet type: a control type together with the flag nibble it is carried with.
#[derive(Debug, Eq, PartialEq, Copy, Clone, Structural)]
pub struct PacketType {
    /// The control type carried in the high nibble.
    pub typ: ControlType,
    /// The flag nibble (always below 16).
    pub fl: u8,
}

/// A packet type is well formed when its flag nibble fits in four bits and is
/// acceptable for its control type.
pub open spec fn pt_wf(pt: PacketType) -> bool {
    pt.fl < 16 && flags_ok(pt.typ, pt.fl)
}

/// The single wire byte of a packet type: type value in the high nibble,
/// flags in the low nibble.
pub open spec fn pt_byte(pt: PacketType) -> u8
    recommends
        pt.fl < 16,
{
    (ct_val(pt.typ) * 16 + pt.fl) as u8
}

/// What parsing a packet-type byte yields, for every byte value.
pub open spec fn sp_packet_type(val: u8) -> Result<PacketType, PacketTypeError> {
    let tv = val / 16;
    let fl = val % 16;
    match sp_control_type(tv) {
        None => Err(PacketTypeError::ReservedType(tv, fl)),
        Some(t) => if flags_ok(t, fl) {
            Ok(PacketType { typ: t, fl: fl })
        } else {
            Err(PacketTypeError::InvalidFlag(InvalidFlag(t, fl)))
        },
    }
}

impl PacketType {
    /// Creates a packet type; fails exactly when `flags` is unacceptable for
    /// `t` (only the low nibble of `flags` is kept).
    pub fn new(t: ControlType, flags: u8) -> (r: Result<PacketType, InvalidFlag>)
        ensures
            match r {
                Ok(pt) => flags_ok(t, flags) && pt.typ == t && pt.fl == flags % 16 && pt_wf(pt),
                Err(e) => !flags_ok(t, flags) && e == InvalidFlag(t, flags),
            },
    {
        let flags_good: bool = match t {
            ControlType::Publish => (flags / 2) % 4 < 3,
            _ => t.to_default_flags() == flags,
        };
        if flags_good {
            Ok(PacketType { typ: t, fl: flags % 16 })
        } else {
            Err(InvalidFlag(t, flags))
        }
    }

    /// Creates a packet type with the default flag nibble of `t`.
    pub fn with_default(t: ControlType) -> (r: PacketType)
        ensures
            r.typ == t,
            r.fl == default_flags(t),
            pt_wf(r),
    {
        PacketType { typ: t, fl: t.to_default_flags() }
    }

    /// Creates a `Publish` packet type carrying the given quality of service.
    pub fn publish(qos: QualityOfService) -> (r: PacketType)
        ensures
            r.typ == ControlType::Publish,
            r.fl == qos_val(qos) * 2,
            pt_wf(r),
    {
        PacketType { typ: ControlType::Publish, fl: qos.to_u8() * 2 }
    }

    /// The wire byte of this packet type.
    pub fn to_u8(self) -> (r: u8)
        requires
            self.fl < 16,
        ensures
            r == pt_byte(self),
    {
        self.typ.to_u8() * 16 + self.fl
    }

    /// Parses a packet-type byte; fails with `ReservedType` on high nibbles 0
    /// and 15, and with `InvalidFlag` on an unacceptable flag nibble.
    pub fn from_u8(val: u8) -> (r: Result<PacketType, PacketTypeError>)
        ensures
            r == sp_packet_type(val),
            (r matches Ok(pt) ==> pt_wf(pt)),
    {
        let tv = val / 16;
        let fl = val % 16;
        match get_control_type(tv) {
            None => Err(PacketTypeError::ReservedType(tv, fl)),
            Some(t) => match PacketType::new(t, fl) {
                Ok(pt) => Ok(pt),
                Err(e) => Err(PacketTypeError::InvalidFlag(e)),
            },
        }
    }

    /// The control type of this packet type.
    pub fn control_type(self) -> (r: ControlType)
        ensures
            r == self.typ,
    {
        self.typ
    }

    /// The flag nibble of this packet type.
    pub fn flags(self) -> (r: u8)
        ensures
            r == self.fl,
    {
        self.fl
    }

    /// The control type, at the spec level.
    pub open spec fn spec_control_type(self) -> ControlType {
        self.typ
    }

    /// The flag nibble, at the spec level.
    pub open spec fn spec_flags(self) -> u8 {
        self.fl
    }
}

/// The byte of a well-formed packet type parses back to that packet type.
pub proof fn lemma_packet_type_roundtrip(pt: PacketType)
    requires
        pt_wf(pt),
    ensures
        sp_packet_type(pt_byte(pt)) == Ok::<PacketType, PacketTypeError>(pt),
{
    let b = pt_byte(pt);
    assert(b / 16 == ct_val(pt.typ) && b % 16 == pt.fl) by (nonlinear_arith)
        requires
            pt.fl < 16,
            1 <= ct_val(pt.typ) <= 14,
            b == ct_val(pt.typ) * 16 + pt.fl,
    ;
}

/// Parsing errors for a packet-type byte.
#[derive(Debug, PartialEq, Eq, Copy, Clone)]
pub enum PacketTypeError {
    /// The reserved high nibble 0 or 15 was seen (carried with the flag nibble).
    ReservedType(u8, u8),
    /// The flag nibble is not acceptable for the type.
    InvalidFlag(InvalidFlag),
}

/// An unacceptable flag nibble for the given control type.
#[derive(Debug, PartialEq, Eq, Copy, Clone)]
pub struct InvalidFlag(pub ControlType, pub u8);

} // verus!
