//! An MQTT v3.1.1 wire-protocol codec: control packets as typed values, with
//! verified encoding to bytes and decoding back.

pub mod control;
pub mod encodable;
pub mod packet;
pub mod qos;
pub mod topic_filter;
pub mod topic_name;

pub use encodable::{Decodable, Encodable};
pub use qos::QualityOfService;
pub use topic_filter::{TopicFilter, TopicFilterRef};
pub use topic_name::{TopicName, TopicNameRef};
