use bt_hci::uuid::{BleUuid, BluetoothUuid16};

#[test]
fn uuid_test_ble_uuid() {
    let ble_uuid: BluetoothUuid16 = BluetoothUuid16::new(0x1234);
    assert_eq!(u16::from(ble_uuid), 0x1234);
    let uuid: u16 = ble_uuid.into();
    assert_eq!(uuid, 0x1234);
    let bytes: [u8; 2] = ble_uuid.to_le_bytes();
    assert_eq!(bytes, [0x34, 0x12]);
}

#[test]
fn mod_test_ble_uuid() {
    let ble_uuid: BleUuid = BleUuid::new(0x1234);
    assert_eq!(u16::from(ble_uuid), 0x1234);
    let uuid: u16 = ble_uuid.into();
    assert_eq!(uuid, 0x1234);
    let bytes: [u8; 2] = ble_uuid.to_le_bytes();
    assert_eq!(bytes, [0x34, 0x12]);
}

fn parse_uuid(text: &str) -> [u8; 16] {
    let hex: Vec<u8> = text
        .chars()
        .filter(|c| *c != '-')
        .map(|c| c.to_digit(16).unwrap() as u8)
        .collect();
    let mut out = [0u8; 16];
    for i in 0..16 {
        out[i] = hex[2 * i] * 16 + hex[2 * i + 1];
    }
    out
}

#[test]
fn test_uuid_conversion() {
    let result = BluetoothUuid16::new(0x1234).to_uuid_bytes();
    let expected = parse_uuid("00001234-0000-0010-8000-00805f9b34fb");
    assert_eq!(result, expected);
}
