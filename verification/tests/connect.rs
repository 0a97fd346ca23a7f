use mqtt_v3::Connect;
use mqtt_v3::ConnectAlloc;

#[test]
fn connect() {
    let client_id = "foo";

    let connect: ConnectAlloc = ConnectAlloc::with_client_id(client_id);
    assert_eq!(
        connect.as_bytes(),
        &[
            0x10,
            0x0C,
            0,
            4,
            b'M',
            b'Q',
            b'T',
            b'T',
            4,
            2,
            14,
            16,
            0,
            client_id.len() as u8,
            b'f',
            b'o',
            b'o'
        ]
    );
}

#[test]
fn connect_default_bytes() {
    let arr = Connect::default().into_array();
    assert_eq!(
        arr,
        [0x10, 0x0C, 0, 4, b'M', b'Q', b'T', b'T', 4, 2, 14, 16, 0, 0]
    );
}

#[test]
fn connect_set_keep_alive() {
    let arr = Connect::default().set_keep_alive(60).into_array();
    assert_eq!(
        arr,
        [0x10, 0x0C, 0, 4, b'M', b'Q', b'T', b'T', 4, 2, 0, 60, 0, 0]
    );
    let arr = Connect::default().set_keep_alive(0x1234).into_array();
    assert_eq!(arr[10], 0x12);
    assert_eq!(arr[11], 0x34);
}

#[test]
fn connect_empty_client_id() {
    let connect = ConnectAlloc::with_client_id("");
    assert_eq!(
        connect.as_bytes(),
        &[0x10, 0x0C, 0, 4, b'M', b'Q', b'T', b'T', 4, 2, 14, 16, 0, 0]
    );
}
