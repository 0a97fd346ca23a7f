use mqtt_v3::SubCode;
use mqtt_v3::SubError;
use mqtt_v3::SubackResult;

#[test]
fn suback_ok() {
    let r = SubackResult::from_buf(&[0x90, 0x03, 0x12, 0x34, 0x01]).unwrap();
    assert_eq!(r.pkt_id(), 0x1234);
    assert_eq!(r.code(), SubCode::MaxQoS1);
}

#[test]
fn suback_all_codes() {
    let cases: [(u8, SubCode); 4] = [
        (0x00, SubCode::MaxQoS0),
        (0x01, SubCode::MaxQoS1),
        (0x02, SubCode::MaxQoS2),
        (0x80, SubCode::Failure),
    ];
    for &(byte, code) in cases.iter() {
        let r = SubackResult::from_buf(&[0x90, 0x03, 0x00, 0x01, byte]).unwrap();
        assert_eq!(r.pkt_id(), 1);
        assert_eq!(r.code(), code);
    }
}

#[test]
fn suback_invalid_code() {
    assert_eq!(
        SubackResult::from_buf(&[0x90, 0x03, 0x00, 0x01, 0x7F]).unwrap_err(),
        SubError::InvalidCode(0x7F)
    );
}

#[test]
fn suback_wrong_packet_type() {
    assert_eq!(
        SubackResult::from_buf(&[0x20, 0x03, 0x00, 0x01, 0x00]).unwrap_err(),
        SubError::InvalidCtrlPkt(0x20)
    );
}

#[test]
fn suback_invalid_remaining_length() {
    assert_eq!(
        SubackResult::from_buf(&[0x90, 0x04, 0x00, 0x01, 0x00]).unwrap_err(),
        SubError::InvalidLen(0x04)
    );
}

#[test]
fn suback_underflow_short_buffer() {
    assert_eq!(SubackResult::from_buf(&[]).unwrap_err(), SubError::Underflow);
    assert_eq!(
        SubackResult::from_buf(&[0x90]).unwrap_err(),
        SubError::Underflow
    );
    assert_eq!(
        SubackResult::from_buf(&[0x90, 0x03]).unwrap_err(),
        SubError::Underflow
    );
    assert_eq!(
        SubackResult::from_buf(&[0x90, 0x03, 0x00, 0x01]).unwrap_err(),
        SubError::Underflow
    );
}

#[test]
fn suback_decode_twice_equal() {
    let buf = [0x90, 0x03, 0xAB, 0xCD, 0x80];
    assert_eq!(SubackResult::from_buf(&buf), SubackResult::from_buf(&buf));
    let bad = [0x90, 0x03, 0xAB, 0xCD, 0x7F];
    assert_eq!(SubackResult::from_buf(&bad), SubackResult::from_buf(&bad));
}
