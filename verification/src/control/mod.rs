//! Control packet headers: the fixed header, the packet-type byte and the
//! typed variable-header fragments.

pub mod fixed_header;
pub mod packet_type;
pub mod variable_header;

pub use fixed_header::FixedHeader;
pub use packet_type::{ControlType, PacketType};
pub use variable_header::{ConnackFlags, ConnectFlags, ConnectReturnCode, KeepAlive, PacketIdentifier, ProtocolLevel, ProtocolName, TopicNameHeader, VariableHeaderError};
