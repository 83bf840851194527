//! Packet-level tests: construction, encoding, decoding, and round trips.

use mqtt::control::variable_header::{ConnectReturnCode, VariableHeaderError};
use mqtt::packet::{
    ConnackPacket, ConnectPacket, PacketError, PubackPacket, PublishPacket,
    QoSWithPacketIdentifier, SubackPacket, SubscribePacket, UnsubackPacket, UnsubscribePacket,
    VariablePacket,
};
use mqtt::packet::suback::{SubackPacketPayloadError, SubscribeReturnCode};
use mqtt::packet::subscribe::SubscribePacketPayloadError;
use mqtt::{Decodable, Encodable, QualityOfService, TopicFilter, TopicName};

#[test]
fn test_connect_packet_encode_basic() {
    let packet = ConnectPacket::new("12345".to_owned());
    let expected = b"\x10\x11\x00\x04MQTT\x04\x00\x00\x00\x00\x0512345";

    let mut buf = Vec::new();
    packet.encode(&mut buf);

    assert_eq!(&expected[..], &buf[..]);
}

#[test]
fn test_connect_packet_decode_basic() {
    let encoded_data = b"\x10\x11\x00\x04MQTT\x04\x00\x00\x00\x00\x0512345";

    let buf = encoded_data.to_vec();
    let (packet, _) = <ConnectPacket as Decodable>::decode(&buf, 0).unwrap();

    let expected = ConnectPacket::new("12345".to_owned());
    assert_eq!(expected, packet);
}

#[test]
fn test_connect_packet_user_name() {
    let mut packet = ConnectPacket::new("12345".to_owned());
    packet.set_user_name(Some("mqtt_player".to_owned()));

    let mut buf = Vec::new();
    packet.encode(&mut buf);

    let (decoded_packet, _) = <ConnectPacket as Decodable>::decode(&buf, 0).unwrap();

    assert_eq!(packet, decoded_packet);
}

#[test]
fn connect_round_trip_with_all_fields() {
    let mut packet = ConnectPacket::new("client".to_owned());
    packet.set_keep_alive(60);
    packet.set_clean_session(true);
    packet.set_will(Some((TopicName::new("will/topic".to_owned()).unwrap(), b"gone".to_vec())));
    packet.set_will_qos(1);
    packet.set_will_retain(true);
    packet.set_user_name(Some("user".to_owned()));
    packet.set_password(Some("pw".to_owned()));

    let mut buf = Vec::new();
    packet.encode(&mut buf);
    let (decoded, _) = <ConnectPacket as Decodable>::decode(&buf, 0).unwrap();
    assert_eq!(packet, decoded);
    assert_eq!(decoded.user_name(), Some("user"));
    assert_eq!(decoded.will(), Some(("will/topic", &b"gone"[..])));
    assert_eq!(decoded.will_qos(), 1);
    assert!(decoded.will_retain());
    assert!(decoded.clean_session());
    assert!(!decoded.reserved_flag());
}

#[test]
fn connect_reserved_flag_is_refused() {
    // a CONNECT whose connect-flags byte has bit 0 set must be rejected
    let encoded_data = b"\x10\x11\x00\x04MQTT\x04\x01\x00\x00\x00\x0512345";
    let buf = encoded_data.to_vec();
    let err = <ConnectPacket as Decodable>::decode(&buf, 0).unwrap_err();
    assert_eq!(
        err,
        PacketError::VariableHeaderError(VariableHeaderError::InvalidReservedFlag)
    );
}

#[test]
fn connect_unknown_level_is_refused() {
    let encoded_data = b"\x10\x11\x00\x04MQTT\x09\x00\x00\x00\x00\x0512345";
    let buf = encoded_data.to_vec();
    let err = <ConnectPacket as Decodable>::decode(&buf, 0).unwrap_err();
    assert_eq!(
        err,
        PacketError::VariableHeaderError(VariableHeaderError::InvalidProtocolVersion)
    );
}

#[test]
pub fn test_connack_packet_basic() {
    let packet = ConnackPacket::new(false, ConnectReturnCode::IdentifierRejected);

    let mut buf = Vec::new();
    packet.encode(&mut buf);

    let (decoded, _) = <ConnackPacket as Decodable>::decode(&buf, 0).unwrap();

    assert_eq!(packet, decoded);
}

#[test]
fn connack_reserved_bits_are_refused() {
    // connack flags byte 0x02 sets a reserved bit
    let encoded_data = b"\x20\x02\x02\x00";
    let buf = encoded_data.to_vec();
    let err = <ConnackPacket as Decodable>::decode(&buf, 0).unwrap_err();
    assert_eq!(
        err,
        PacketError::VariableHeaderError(VariableHeaderError::InvalidReservedFlag)
    );
}

#[test]
fn test_publish_packet_basic() {
    let packet = PublishPacket::new(
        TopicName::new("a/b".to_owned()).unwrap(),
        QoSWithPacketIdentifier::Level2(10),
        b"Hello world!".to_vec(),
    );

    let mut buf = Vec::new();
    packet.encode(&mut buf);

    let (decoded, _) = <PublishPacket as Decodable>::decode(&buf, 0).unwrap();

    assert_eq!(packet, decoded);
}

#[test]
fn publish_encode_exact_bytes() {
    // QoS 2 with packet id 10 on "a/b": header 34 13, then 00 03 61 2F 62 00 0A
    let packet = PublishPacket::new(
        TopicName::new("a/b".to_owned()).unwrap(),
        QoSWithPacketIdentifier::Level2(10),
        b"Hello world!".to_vec(),
    );
    let mut buf = Vec::new();
    packet.encode(&mut buf);
    let mut expected = vec![0x34, 0x13, 0x00, 0x03, 0x61, 0x2F, 0x62, 0x00, 0x0A];
    expected.extend_from_slice(b"Hello world!");
    assert_eq!(buf, expected);
    assert_eq!(packet.encoded_length() as usize, buf.len());
}

#[test]
fn publish_qos_pid_coupling() {
    let topic = TopicName::new("t".to_owned()).unwrap();
    let q0 = PublishPacket::new(topic.clone(), QoSWithPacketIdentifier::Level0, b"x".to_vec());
    let q1 = PublishPacket::new(topic.clone(), QoSWithPacketIdentifier::Level1(7), b"x".to_vec());

    let mut b0 = Vec::new();
    q0.encode(&mut b0);
    let mut b1 = Vec::new();
    q1.encode(&mut b1);

    // the only difference is the two packet-identifier bytes
    assert_eq!(b0.len() + 2, b1.len());
    assert_eq!(&b1[5..7], &[0x00, 0x07]);

    let (d0, _) = <PublishPacket as Decodable>::decode(&b0, 0).unwrap();
    assert_eq!(d0.qos(), QoSWithPacketIdentifier::Level0);
    let (d1, _) = <PublishPacket as Decodable>::decode(&b1, 0).unwrap();
    assert_eq!(d1.qos(), QoSWithPacketIdentifier::Level1(7));
}

#[test]
fn puback_round_trip() {
    let packet = PubackPacket::new(42);
    assert_eq!(packet.packet_identifier(), 42);
    let mut buf = Vec::new();
    packet.encode(&mut buf);
    assert_eq!(buf, vec![0x40, 0x02, 0x00, 42]);
    let (decoded, _) = <PubackPacket as Decodable>::decode(&buf, 0).unwrap();
    assert_eq!(packet, decoded);
}

#[test]
fn suback_round_trip() {
    let packet = SubackPacket::new(
        10,
        vec![
            SubscribeReturnCode::MaximumQoSLevel0,
            SubscribeReturnCode::MaximumQoSLevel2,
            SubscribeReturnCode::Failure,
        ],
    );
    let mut buf = Vec::new();
    packet.encode(&mut buf);
    assert_eq!(buf, vec![0x90, 0x05, 0x00, 0x0A, 0x00, 0x02, 0x80]);
    let (decoded, _) = <SubackPacket as Decodable>::decode(&buf, 0).unwrap();
    assert_eq!(packet, decoded);
}

#[test]
fn suback_bad_return_code_is_refused() {
    // 0x03 is not a subscribe return code
    let encoded_data = b"\x90\x03\x00\x0A\x03";
    let buf = encoded_data.to_vec();
    let err = <SubackPacket as Decodable>::decode(&buf, 0).unwrap_err();
    assert_eq!(
        err,
        PacketError::PayloadError(SubackPacketPayloadError::InvalidSubscribeReturnCode(0x03))
    );
}

#[test]
fn subscribe_round_trip() {
    let packet = SubscribePacket::new(
        25,
        vec![
            (TopicFilter::new("a/+/c".to_owned()).unwrap(), QualityOfService::Level1),
            (TopicFilter::new("d/#".to_owned()).unwrap(), QualityOfService::Level0),
        ],
    );
    let mut buf = Vec::new();
    packet.encode(&mut buf);
    let (decoded, _) = <SubscribePacket as Decodable>::decode(&buf, 0).unwrap();
    assert_eq!(packet, decoded);
}

#[test]
fn subscribe_bad_qos_is_refused() {
    // filter "a" followed by requested-quality byte 3
    let encoded_data = b"\x82\x06\x00\x01\x00\x01\x61\x03";
    let buf = encoded_data.to_vec();
    let err = <SubscribePacket as Decodable>::decode(&buf, 0).unwrap_err();
    assert_eq!(
        err,
        PacketError::PayloadError(SubscribePacketPayloadError::InvalidQualityOfService)
    );
}

#[test]
fn unsubscribe_round_trip() {
    let packet = UnsubscribePacket::new(
        9,
        vec![
            TopicFilter::new("x/y".to_owned()).unwrap(),
            TopicFilter::new("#".to_owned()).unwrap(),
        ],
    );
    let mut buf = Vec::new();
    packet.encode(&mut buf);
    let (decoded, _) = <UnsubscribePacket as Decodable>::decode(&buf, 0).unwrap();
    assert_eq!(packet, decoded);

    let unsuback = UnsubackPacket::new(9);
    let mut buf2 = Vec::new();
    unsuback.encode(&mut buf2);
    let (decoded2, _) = <UnsubackPacket as Decodable>::decode(&buf2, 0).unwrap();
    assert_eq!(unsuback, decoded2);
}

#[test]
fn test_variable_packet_basic() {
    let packet = ConnectPacket::new("1234".to_owned());

    // Wrap it
    let var_packet = VariablePacket::new(packet);

    // Encode
    let mut buf = Vec::new();
    var_packet.encode(&mut buf);

    // Decode
    let (decoded_packet, _) = VariablePacket::decode(&buf, 0).unwrap();

    assert_eq!(var_packet, decoded_packet);
}

#[test]
fn variable_packet_every_variant_round_trips() {
    let packets: Vec<VariablePacket> = vec![
        VariablePacket::new(ConnectPacket::new("c".to_owned())),
        VariablePacket::new(ConnackPacket::new(true, ConnectReturnCode::ConnectionAccepted)),
        VariablePacket::new(PublishPacket::new(
            TopicName::new("t/u".to_owned()).unwrap(),
            QoSWithPacketIdentifier::Level1(3),
            b"m".to_vec(),
        )),
        VariablePacket::new(PubackPacket::new(1)),
        VariablePacket::new(mqtt::packet::PubrecPacket::new(2)),
        VariablePacket::new(mqtt::packet::PubrelPacket::new(3)),
        VariablePacket::new(mqtt::packet::PubcompPacket::new(4)),
        VariablePacket::new(mqtt::packet::PingreqPacket::new()),
        VariablePacket::new(mqtt::packet::PingrespPacket::new()),
        VariablePacket::new(SubscribePacket::new(
            5,
            vec![(TopicFilter::new("f".to_owned()).unwrap(), QualityOfService::Level2)],
        )),
        VariablePacket::new(SubackPacket::new(5, vec![SubscribeReturnCode::MaximumQoSLevel2])),
        VariablePacket::new(UnsubscribePacket::new(
            6,
            vec![TopicFilter::new("f".to_owned()).unwrap()],
        )),
        VariablePacket::new(UnsubackPacket::new(6)),
        VariablePacket::new(mqtt::packet::DisconnectPacket::new()),
    ];
    for packet in packets {
        let mut buf = Vec::new();
        packet.encode(&mut buf);
        assert_eq!(packet.encoded_length() as usize, buf.len());
        let (decoded, consumed) = VariablePacket::decode(&buf, 0).unwrap();
        assert_eq!(packet, decoded);
        assert_eq!(consumed, buf.len());
    }
}

#[test]
fn streaming_codec_chunked() {
    // a CONNECT and a SUBSCRIBE fed through the streaming decoder in 8-byte
    // chunks come back in order, then the decoder asks for more input
    let conn_packet = ConnectPacket::new("1234".to_owned());
    let sub_packet = SubscribePacket::new(
        1,
        vec![(TopicFilter::new("foo/#".to_owned()).unwrap(), QualityOfService::Level0)],
    );

    let mut wire = Vec::new();
    let encoder = mqtt::packet::MqttEncoder::new();
    encoder.encode(&conn_packet, &mut wire);
    encoder.encode(&sub_packet, &mut wire);

    let mut decoder = mqtt::packet::MqttDecoder::new();
    let mut pending: Vec<u8> = Vec::new();
    let mut received: Vec<VariablePacket> = Vec::new();
    for chunk in wire.chunks(8) {
        pending.extend_from_slice(chunk);
        loop {
            match decoder.decode(&mut pending).unwrap() {
                Some(packet) => received.push(packet),
                None => break,
            }
        }
    }
    assert_eq!(received.len(), 2);
    assert_eq!(received[0], VariablePacket::new(conn_packet));
    assert_eq!(received[1], VariablePacket::new(sub_packet));
    assert!(pending.is_empty());
    assert_eq!(decoder.decode(&mut pending).unwrap(), None);
}

#[test]
fn subscribe_empty_payload_is_structurally_accepted() {
    // a SUBSCRIBE whose body is just the packet identifier: the codec takes
    // it; requiring at least one entry is a rule for a higher layer
    let encoded_data = b"\x82\x02\x00\x07";
    let buf = encoded_data.to_vec();
    let (decoded, _) = <SubscribePacket as Decodable>::decode(&buf, 0).unwrap();
    assert_eq!(decoded.packet_identifier(), 7);
    assert!(decoded.subscribes().is_empty());
}
