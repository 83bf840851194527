//! Topic names, topic filters, the matcher, and quality-of-service values.

use std::cmp::min;

use mqtt::packet::QoSWithPacketIdentifier;
use mqtt::{QualityOfService, TopicFilter, TopicName, TopicNameRef};

#[test]
fn topic_name_sys() {
    let topic_name = "$SYS".to_owned();
    TopicName::new(topic_name).unwrap();

    let topic_name = "$SYS/broker/connection/test.cosm-energy/state".to_owned();
    TopicName::new(topic_name).unwrap();
}

#[test]
fn topic_name_slash() {
    TopicName::new("/".to_owned()).unwrap();
}

#[test]
fn topic_name_basic() {
    TopicName::new("/finance".to_owned()).unwrap();
    TopicName::new("/finance//def".to_owned()).unwrap();
}

#[test]
fn topic_name_rejects_wildcards_and_empty() {
    assert!(TopicName::new("".to_owned()).is_err());
    assert!(TopicName::new("a/#".to_owned()).is_err());
    assert!(TopicName::new("a/+/b".to_owned()).is_err());
    assert!(TopicName::new("a#b".to_owned()).is_err());
    // at the 16-bit length limit, and one byte over it
    assert!(TopicName::new("x".repeat(65535)).is_ok());
    assert!(TopicName::new("x".repeat(65536)).is_err());
}

#[test]
fn topic_name_server_specific() {
    assert!(TopicName::new("$SYS/x".to_owned()).unwrap().is_server_specific());
    assert!(!TopicName::new("sys/x".to_owned()).unwrap().is_server_specific());
}

#[test]
fn topic_filter_validate() {
    let topic = "#".to_owned();
    TopicFilter::new(topic).unwrap();

    let topic = "sport/tennis/player1".to_owned();
    TopicFilter::new(topic).unwrap();

    let topic = "sport/tennis/player1/ranking".to_owned();
    TopicFilter::new(topic).unwrap();

    let topic = "sport/tennis/player1/#".to_owned();
    TopicFilter::new(topic).unwrap();

    let topic = "#".to_owned();
    TopicFilter::new(topic).unwrap();

    let topic = "sport/tennis/#".to_owned();
    TopicFilter::new(topic).unwrap();

    let topic = "sport/tennis#".to_owned();
    assert!(TopicFilter::new(topic).is_err());

    let topic = "sport/tennis/#/ranking".to_owned();
    assert!(TopicFilter::new(topic).is_err());

    let topic = "+".to_owned();
    TopicFilter::new(topic).unwrap();

    let topic = "+/tennis/#".to_owned();
    TopicFilter::new(topic).unwrap();

    let topic = "sport+".to_owned();
    assert!(TopicFilter::new(topic).is_err());

    let topic = "sport/+/player1".to_owned();
    TopicFilter::new(topic).unwrap();

    let topic = "+/+".to_owned();
    TopicFilter::new(topic).unwrap();

    let topic = "$SYS/#".to_owned();
    TopicFilter::new(topic).unwrap();

    let topic = "$SYS".to_owned();
    TopicFilter::new(topic).unwrap();
}

#[test]
fn topic_filter_matcher() {
    let filter = TopicFilter::new("sport/#".to_owned()).unwrap();
    let matcher = filter.get_matcher();
    assert!(matcher.is_match(&TopicNameRef::new("sport").unwrap()));

    let filter = TopicFilter::new("#".to_owned()).unwrap();
    let matcher = filter.get_matcher();
    assert!(matcher.is_match(&TopicNameRef::new("sport").unwrap()));
    assert!(matcher.is_match(&TopicNameRef::new("/").unwrap()));
    assert!(matcher.is_match(&TopicNameRef::new("abc/def").unwrap()));
    assert!(!matcher.is_match(&TopicNameRef::new("$SYS").unwrap()));
    assert!(!matcher.is_match(&TopicNameRef::new("$SYS/abc").unwrap()));

    let filter = TopicFilter::new("+/monitor/Clients".to_owned()).unwrap();
    let matcher = filter.get_matcher();
    assert!(!matcher.is_match(&TopicNameRef::new("$SYS/monitor/Clients").unwrap()));

    let filter = TopicFilter::new("$SYS/#".to_owned()).unwrap();
    let matcher = filter.get_matcher();
    assert!(matcher.is_match(&TopicNameRef::new("$SYS/monitor/Clients").unwrap()));
    assert!(matcher.is_match(&TopicNameRef::new("$SYS").unwrap()));

    let filter = TopicFilter::new("$SYS/monitor/+".to_owned()).unwrap();
    let matcher = filter.get_matcher();
    assert!(matcher.is_match(&TopicNameRef::new("$SYS/monitor/Clients").unwrap()));
}

#[test]
fn topic_filter_matcher_levels() {
    // `+/+` takes exactly two levels, never one or three
    let filter = TopicFilter::new("+/+".to_owned()).unwrap();
    let matcher = filter.get_matcher();
    assert!(matcher.is_match(&TopicNameRef::new("a/b").unwrap()));
    assert!(!matcher.is_match(&TopicNameRef::new("a").unwrap()));
    assert!(!matcher.is_match(&TopicNameRef::new("a/b/c").unwrap()));

    // a trailing `#` also takes the parent itself
    let filter = TopicFilter::new("a/b/#".to_owned()).unwrap();
    let matcher = filter.get_matcher();
    assert!(matcher.is_match(&TopicNameRef::new("a/b").unwrap()));
    assert!(matcher.is_match(&TopicNameRef::new("a/b/c/d").unwrap()));
    assert!(!matcher.is_match(&TopicNameRef::new("a/x").unwrap()));

    // literal levels must agree exactly
    let filter = TopicFilter::new("a/b".to_owned()).unwrap();
    let matcher = filter.get_matcher();
    assert!(matcher.is_match(&TopicNameRef::new("a/b").unwrap()));
    assert!(!matcher.is_match(&TopicNameRef::new("a/c").unwrap()));
}

#[test]
fn min_qos() {
    let q1: QualityOfService = QoSWithPacketIdentifier::Level1(0).into();
    let q2 = QualityOfService::Level2;
    assert_eq!(min(q1, q2), q1);

    let q1: QualityOfService = QoSWithPacketIdentifier::Level0.into();
    let q2 = QualityOfService::Level2;
    assert_eq!(min(q1, q2), q1);

    let q1: QualityOfService = QoSWithPacketIdentifier::Level2(0).into();
    let q2 = QualityOfService::Level1;
    assert_eq!(min(q1, q2), q2);
}

#[test]
fn utf8_and_topic_errors_in_decoding() {
    // publish whose topic-name field holds invalid UTF-8 bytes
    let bad_utf8 = vec![0x30, 0x05, 0x00, 0x03, 0xFF, 0xFE, 0xFD];
    assert!(mqtt::packet::VariablePacket::decode(&bad_utf8, 0).is_err());

    // publish whose topic-name field holds a wildcard
    let bad_topic = vec![0x30, 0x05, 0x00, 0x03, 0x61, 0x2F, 0x23];
    assert!(mqtt::packet::VariablePacket::decode(&bad_topic, 0).is_err());
}
