use mqtt_v3::NotUtf8;
use mqtt_v3::Publish;
use mqtt_v3::PublishBuilder;
use mqtt_v3::PublishDe;
use mqtt_v3::PublishError;
use mqtt_v3::QoS;

#[test]
fn publish() {
    let mut mypub: Publish<30> = PublishBuilder::new()
        .set_qos(QoS::AtMostOnce)
        .set_topic("/test/topic")
        .unwrap()
        .finalize();
    mypub.write_str(&format!("Hello, {}!", "world")).unwrap();

    let pubde: PublishDe = PublishDe::new(mypub.as_slice()).unwrap();

    assert!(!pubde.dup_flag);
    assert!(!pubde.retain);
    assert_eq!(pubde.qos_level, Some(QoS::AtMostOnce));
    assert_eq!(pubde.topic, Ok(String::from("/test/topic")));
    assert_eq!(pubde.payload, b"Hello, world!");
}

#[test]
fn publish_round_trip_all_flags() {
    let qos_levels = [QoS::AtMostOnce, QoS::AtLeastOnce, QoS::ExactlyOnce];
    let bools = [false, true];
    for &qos in qos_levels.iter() {
        for &dup in bools.iter() {
            for &retain in bools.iter() {
                let mut p: Publish<64> = PublishBuilder::new()
                    .set_dup(dup)
                    .set_qos(qos)
                    .set_retain(retain)
                    .set_topic("a/b")
                    .unwrap()
                    .finalize();
                p.write_str("payload").unwrap();
                let de = PublishDe::new(p.as_slice()).unwrap();
                assert_eq!(de.dup_flag, dup);
                assert_eq!(de.qos_level, Some(qos));
                assert_eq!(de.retain, retain);
                assert_eq!(de.topic, Ok(String::from("a/b")));
                assert_eq!(de.payload, b"payload");
            }
        }
    }
}

#[test]
fn publish_round_trip_empty_topic_and_payload() {
    let p: Publish<4> = PublishBuilder::new().set_topic("").unwrap().finalize();
    assert_eq!(p.as_slice(), &[0x30, 2, 0, 0]);
    let de = PublishDe::new(p.as_slice()).unwrap();
    assert_eq!(de.topic, Ok(String::new()));
    assert_eq!(de.payload, b"");
}

#[test]
fn publish_encoded_prefix_only() {
    let p: Publish<30> = PublishBuilder::new().set_topic("hi").unwrap().finalize();
    assert_eq!(p.as_slice(), &[0x30, 4, 0, 2, b'h', b'i']);
}

#[test]
fn publish_set_topic_capacity_exceeded() {
    let b: PublishBuilder<4> = PublishBuilder::new();
    assert_eq!(b.set_topic("a").unwrap_err(), PublishError::CapacityExceeded);
}

#[test]
fn publish_set_topic_remaining_len_overflow() {
    let long_topic = "x".repeat(254);
    let b: PublishBuilder<300> = PublishBuilder::new();
    assert_eq!(
        b.set_topic(&long_topic).unwrap_err(),
        PublishError::RemainingLenOverflow
    );
}

#[test]
fn publish_write_str_capacity_exceeded_leaves_packet_unchanged() {
    let mut p: Publish<6> = PublishBuilder::new().set_topic("t").unwrap().finalize();
    let before = p.as_slice().to_vec();
    assert_eq!(p.write_str("abcdefgh"), Err(PublishError::CapacityExceeded));
    assert_eq!(p.as_slice(), before.as_slice());
}

#[test]
fn publish_write_str_remaining_len_overflow() {
    let mut p: Publish<300> = PublishBuilder::new().set_topic("t").unwrap().finalize();
    let long_payload = "y".repeat(253);
    assert_eq!(
        p.write_str(&long_payload),
        Err(PublishError::RemainingLenOverflow)
    );
}

#[test]
fn publish_decode_wrong_packet_type() {
    assert!(PublishDe::new(&[0x20, 0x02, 0x01, 0x00]).is_none());
}

#[test]
fn publish_decode_empty_buffer() {
    assert!(PublishDe::new(&[]).is_none());
}

#[test]
fn publish_decode_truncated_buffer() {
    assert!(PublishDe::new(&[0x30, 2, 0]).is_none());
}

#[test]
fn publish_decode_topic_out_of_bounds() {
    // topic length 5 but only one byte follows the fixed fields
    assert!(PublishDe::new(&[0x30, 7, 0, 5, b'a']).is_none());
}

#[test]
fn publish_decode_payload_out_of_bounds() {
    // remaining length claims 3 payload bytes but none are present
    assert!(PublishDe::new(&[0x30, 5, 0, 0]).is_none());
}

#[test]
fn publish_decode_invalid_qos_bits() {
    // header low nibble 0b0110: both QoS bits set, an unknown level
    let de = PublishDe::new(&[0x36, 2, 0, 0]).unwrap();
    assert_eq!(de.qos_level, None);
}

#[test]
fn publish_decode_invalid_topic_utf8() {
    let de = PublishDe::new(&[0x30, 3, 0, 1, 0xFF]).unwrap();
    assert_eq!(de.topic, Err(NotUtf8));
    assert_eq!(de.payload, b"");
}

#[test]
fn publish_payload_utf8() {
    let de = PublishDe::new(&[0x30, 4, 0, 0, b'h', b'i']).unwrap();
    assert_eq!(de.payload_utf8(), Ok(String::from("hi")));
}

#[test]
fn publish_payload_utf8_invalid() {
    let de = PublishDe::new(&[0x30, 3, 0, 0, 0xFF]).unwrap();
    assert_eq!(de.payload, [0xFF]);
    assert_eq!(de.payload_utf8(), Err(NotUtf8));
}

#[test]
fn publish_decode_twice_equal() {
    let buf = [0x3B, 6, 0, 3, b'a', b'/', b'b', b'p'];
    let first = PublishDe::new(&buf);
    let second = PublishDe::new(&buf);
    assert_eq!(first, second);
}
