use mqtt_v3::ConnackResult;
use mqtt_v3::ConnectCode;
use mqtt_v3::ConnectError;

#[test]
fn connack_accept_with_session() {
    let r = ConnackResult::from_buf(&[0x20, 0x02, 0x01, 0x00]).unwrap();
    assert!(r.session_present());
    assert_eq!(r.code(), ConnectCode::Accept);
    assert!(r.code().is_accept());
}

#[test]
fn connack_accept_without_session() {
    let r = ConnackResult::from_buf(&[0x20, 0x02, 0x00, 0x00]).unwrap();
    assert!(!r.session_present());
    assert_eq!(r.code(), ConnectCode::Accept);
}

#[test]
fn connack_underflow_short_buffer() {
    assert_eq!(
        ConnackResult::from_buf(&[0x20, 0x02, 0x01]).unwrap_err(),
        ConnectError::Underflow
    );
    assert_eq!(
        ConnackResult::from_buf(&[]).unwrap_err(),
        ConnectError::Underflow
    );
    assert_eq!(
        ConnackResult::from_buf(&[0x20]).unwrap_err(),
        ConnectError::Underflow
    );
}

#[test]
fn connack_wrong_packet_type() {
    assert_eq!(
        ConnackResult::from_buf(&[0x30, 0x02, 0x00, 0x00]).unwrap_err(),
        ConnectError::InvalidCtrlPkt(0x30)
    );
}

#[test]
fn connack_invalid_remaining_length() {
    assert_eq!(
        ConnackResult::from_buf(&[0x20, 0x03, 0x00, 0x00]).unwrap_err(),
        ConnectError::InvalidLen(0x03)
    );
}

#[test]
fn connack_invalid_code() {
    assert_eq!(
        ConnackResult::from_buf(&[0x20, 0x02, 0x00, 0x09]).unwrap_err(),
        ConnectError::InvalidCode(0x09)
    );
}

#[test]
fn connack_refused_codes() {
    let cases: [(u8, ConnectCode); 6] = [
        (0, ConnectCode::Accept),
        (1, ConnectCode::BadProto),
        (2, ConnectCode::BadId),
        (3, ConnectCode::Unavailable),
        (4, ConnectCode::BadCreds),
        (5, ConnectCode::NotAuth),
    ];
    for &(byte, code) in cases.iter() {
        let r = ConnackResult::from_buf(&[0x20, 0x02, 0x00, byte]).unwrap();
        assert_eq!(r.code(), code);
        assert_eq!(r.code().is_accept(), byte == 0);
    }
}

#[test]
fn connack_decode_twice_equal() {
    let buf = [0x20, 0x02, 0x01, 0x05];
    assert_eq!(ConnackResult::from_buf(&buf), ConnackResult::from_buf(&buf));
    let bad = [0x20, 0x02, 0x01, 0x09];
    assert_eq!(ConnackResult::from_buf(&bad), ConnackResult::from_buf(&bad));
}
