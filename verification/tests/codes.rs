use mqtt_v3::CtrlPkt;
use mqtt_v3::QoS;

#[test]
fn ctrl_pkt_byte_round_trip() {
    let all = [
        (CtrlPkt::CONNECT, 0x1),
        (CtrlPkt::CONNACK, 0x2),
        (CtrlPkt::PUBLISH, 0x3),
        (CtrlPkt::PUBACK, 0x4),
        (CtrlPkt::PUBREC, 0x5),
        (CtrlPkt::PUBREL, 0x6),
        (CtrlPkt::PUBCOMP, 0x7),
        (CtrlPkt::SUBSCRIBE, 0x8),
        (CtrlPkt::SUBACK, 0x9),
        (CtrlPkt::UNSUBSCRIBE, 0xA),
        (CtrlPkt::UNSUBACK, 0xB),
        (CtrlPkt::PINGREQ, 0xC),
        (CtrlPkt::PINGRESP, 0xD),
        (CtrlPkt::DISCONNECT, 0xE),
    ];
    for &(pkt, byte) in all.iter() {
        assert_eq!(pkt.to_byte(), byte);
        assert_eq!(CtrlPkt::from_byte(byte), Ok(pkt));
    }
}

#[test]
fn ctrl_pkt_invalid_bytes() {
    assert_eq!(CtrlPkt::from_byte(0x0), Err(0x0));
    assert_eq!(CtrlPkt::from_byte(0xF), Err(0xF));
    assert_eq!(CtrlPkt::from_byte(0x42), Err(0x42));
}

#[test]
fn qos_byte_round_trip() {
    let all = [
        (QoS::AtMostOnce, 0),
        (QoS::AtLeastOnce, 1),
        (QoS::ExactlyOnce, 2),
    ];
    for &(qos, byte) in all.iter() {
        assert_eq!(qos.to_byte(), byte);
        assert_eq!(QoS::from_byte(byte), Ok(qos));
    }
}

#[test]
fn qos_invalid_byte() {
    assert_eq!(QoS::from_byte(3), Err(3));
    assert_eq!(QoS::from_byte(0xFF), Err(0xFF));
}
