//! Byte-level codec tests: fixed header, remaining length, blobs, truncation.

use mqtt::control::fixed_header::{FixedHeader, FixedHeaderError};
use mqtt::control::packet_type::{ControlType, PacketType};
use mqtt::encodable::VarBytes;
use mqtt::packet::{QoSWithPacketIdentifier, VariablePacket};
use mqtt::{Encodable, TopicName};

#[test]
fn test_encode_fixed_header() {
    let header = FixedHeader::new(PacketType::with_default(ControlType::Connect), 321);
    let mut buf = Vec::new();
    header.encode(&mut buf);

    let expected = b"\x10\xc1\x02";
    assert_eq!(&expected[..], &buf[..]);
}

#[test]
fn test_decode_fixed_header() {
    let stream = b"\x10\xc1\x02";
    let buf = stream.to_vec();
    let (header, consumed) = FixedHeader::decode(&buf, 0).unwrap();
    assert_eq!(header.packet_type, PacketType::with_default(ControlType::Connect));
    assert_eq!(header.remaining_length, 321);
    assert_eq!(consumed, 3);
}

#[test]
#[should_panic]
fn test_decode_too_long_fixed_header() {
    let stream = b"\x10\x80\x80\x80\x80\x02";
    let buf = stream.to_vec();
    FixedHeader::decode(&buf, 0).unwrap();
}

#[test]
fn five_length_bytes_are_malformed() {
    let stream = b"\x10\x80\x80\x80\x80\x02";
    let buf = stream.to_vec();
    let err = FixedHeader::decode(&buf, 0).unwrap_err();
    assert_eq!(err, FixedHeaderError::MalformedRemainingLength);
}

#[test]
fn varbyte_encode() {
    let test_var = vec![0, 1, 2, 3, 4, 5];
    let bytes = VarBytes(test_var);

    assert_eq!(bytes.encoded_length() as usize, 2 + 6);

    let mut buf = Vec::new();
    bytes.encode(&mut buf);

    assert_eq!(&buf, &[0, 6, 0, 1, 2, 3, 4, 5]);

    let (decoded, _) = VarBytes::decode(&buf, 0).unwrap();

    assert_eq!(decoded, bytes);
}

#[test]
fn remaining_length_boundaries() {
    // encoded remaining-length size is 1/2/3/4 bytes over the documented ranges
    let cases: [(u32, u32); 8] = [
        (0, 1),
        (127, 1),
        (128, 2),
        (16_383, 2),
        (16_384, 3),
        (2_097_151, 3),
        (2_097_152, 4),
        (0x0FFF_FFFF, 4),
    ];
    for (n, size) in cases {
        let header = FixedHeader::new(PacketType::with_default(ControlType::Connect), n);
        assert_eq!(header.encoded_length(), 1 + size);
        let mut buf = Vec::new();
        header.encode(&mut buf);
        assert_eq!(buf.len() as u32, 1 + size);
        let (back, consumed) = FixedHeader::decode(&buf, 0).unwrap();
        assert_eq!(back.remaining_length, n);
        assert_eq!(consumed as u32, 1 + size);
    }
}

#[test]
fn reserved_type_is_refused() {
    // type nibble 15 is reserved; the drained body comes back for diagnosis
    let stream = b"\xF0\x02\xAB\xCD";
    let buf = stream.to_vec();
    let err = VariablePacket::decode(&buf, 0).unwrap_err();
    match err {
        mqtt::packet::VariablePacketError::ReservedPacket(code, data) => {
            assert_eq!(code, 15);
            assert_eq!(data, vec![0xAB, 0xCD]);
        }
        other => panic!("expected a reserved-packet error, got {:?}", other),
    }
}

#[test]
fn truncated_publish_never_decodes() {
    let packet = mqtt::packet::PublishPacket::new(
        TopicName::new("a/b".to_owned()).unwrap(),
        QoSWithPacketIdentifier::Level2(10),
        b"Hello world!".to_vec(),
    );
    let mut buf = Vec::new();
    mqtt::packet::VariablePacket::new(packet).encode(&mut buf);
    for k in 0..buf.len() {
        let cut = buf[..k].to_vec();
        assert!(VariablePacket::decode(&cut, 0).is_err());
    }
}
