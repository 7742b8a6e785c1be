use bt_hci::param::{
    ChannelMap, ConnHandle, ConnHandleCompletedPackets, FrequencyCompensation, LeExtAdvDataStatus,
    LeExtAdvEventKind,
};

#[test]
fn test_encode_decode_conn_handle_completed_packets() {
    let completed = ConnHandleCompletedPackets::new(ConnHandle::new(42), 2334);

    assert_eq!(completed.handle().unwrap(), ConnHandle::new(42));
    assert_eq!(completed.num_completed_packets().unwrap(), 2334);
}

#[test]
fn test_ext_adv_event_kind() {
    let k = LeExtAdvEventKind::new().set_connectable(true);
    assert_eq!(k.0[0], 0b0000001);
    let k = k.set_data_status(LeExtAdvDataStatus::Complete);
    assert_eq!(k.0[0], 0b0000001);
    let k = k.set_data_status(LeExtAdvDataStatus::IncompleteMoreExpected);
    assert_eq!(k.0[0], 0b0100001);
    let k = k.set_data_status(LeExtAdvDataStatus::IncompleteTruncated);
    assert_eq!(k.0[0], 0b1000001);
}

#[test]
fn test_channel_map_new() {
    let m = ChannelMap::new();
    for chan in 0..37 {
        assert!(!m.is_channel_bad(chan));
    }

    for chan in 37..40 {
        assert!(m.is_channel_bad(chan));
    }
}

#[test]
fn test_frequency_compensation_positive() {
    let fc = FrequencyCompensation(0x2710);
    assert!(fc.is_available());
    assert_eq!(fc.as_ppm_x100(), Some(10000));
    assert_eq!(fc.as_raw(), 0x2710);
}

#[test]
fn test_frequency_compensation_negative() {
    let fc = FrequencyCompensation(0x58F0);
    assert!(fc.is_available());
    assert_eq!(fc.as_ppm_x100(), Some(-10000));
    assert_eq!(fc.as_raw(), 0x58F0);
}

#[test]
fn test_frequency_compensation_not_available() {
    let fc = FrequencyCompensation(0xC000);
    assert!(!fc.is_available());
    assert_eq!(fc.as_ppm_x100(), None);
    assert_eq!(fc.as_raw(), 0xC000);
}

use bt_hci::param::Duration;
use bt_hci::uuid::{BleUuid, BluetoothUuid16};
use bt_hci::FromHciBytes;
use bt_hci::WriteHci;
use bt_hci::param::{BdAddr, RemainingBytes};
use bt_hci::AsHciBytes;

#[test]
fn channel_map_set_then_get() {
    let mut m = ChannelMap::new();
    m.set_channel_bad(5, true);
    assert!(m.is_channel_bad(5));
    assert!(!m.is_channel_bad(4));
    assert!(!m.is_channel_bad(6));
    m.set_channel_bad(5, false);
    assert!(!m.is_channel_bad(5));
    m.set_channel_bad(36, true);
    assert!(m.is_channel_bad(36));
    assert_eq!(m.to_hci_bytes(), vec![0xff, 0xff, 0xff, 0xff, 0x0f]);
}

#[test]
fn ext_adv_data_status_roundtrip() {
    for s in [
        LeExtAdvDataStatus::Complete,
        LeExtAdvDataStatus::IncompleteMoreExpected,
        LeExtAdvDataStatus::IncompleteTruncated,
    ] {
        let k = LeExtAdvEventKind::new().set_legacy(true).set_data_status(s);
        assert_eq!(k.data_status(), s);
        assert!(k.legacy());
    }
}

#[test]
fn conn_handle_write_then_read() {
    let h = ConnHandle::new(0xeff);
    let bytes = h.to_hci_bytes();
    assert_eq!(bytes, vec![0xff, 0x0e]);
    let (back, rest) = ConnHandle::from_hci_bytes(&bytes).unwrap();
    assert_eq!(back, h);
    assert!(rest.is_empty());
}

#[test]
fn duration_units() {
    let d: Duration<1_250> = Duration::from_u16(8);
    assert_eq!(d.as_micros(), 10_000);
    assert_eq!(d.as_millis(), 10);
    let d: Duration<625> = Duration::from_millis(100);
    assert_eq!(d.as_u16(), 160);
}

#[test]
fn uuid_little_endian_roundtrip() {
    let u = BluetoothUuid16::new(0x2a19);
    assert_eq!(BluetoothUuid16::from_le_bytes(u.to_le_bytes()), u);
    assert_eq!(u.into_u16(), 0x2a19);
    assert_eq!(BleUuid::from_category(3, 1).into_u16(), 0x00c1);
}

#[test]
fn as_hci_bytes_views() {
    let addr = BdAddr::new([1, 2, 3, 4, 5, 6]);
    assert_eq!(addr.as_hci_bytes(), &[1, 2, 3, 4, 5, 6][..]);
    let arr = [9u8, 8, 7];
    assert_eq!(arr.as_hci_bytes(), &[9, 8, 7][..]);
    let data = [4u8, 5];
    let rb = RemainingBytes::from_hci_bytes_complete(&data).unwrap();
    assert_eq!(rb.as_hci_bytes(), &[4, 5][..]);
}

#[test]
fn duration_checked_and_embassy() {
    let d = Duration::<625>::from_micros_checked(100_000).unwrap();
    assert_eq!(d.as_u16(), 160);
    assert!(Duration::<1>::from_micros_checked(70_000).is_none());
    let d = Duration::<625>::from_embassy(embassy_time::Duration::from_millis(100)).unwrap();
    assert_eq!(d.as_u16(), 160);
    assert!(Duration::<1>::from_embassy(embassy_time::Duration::from_secs(1)).is_none());
    let e = bt_hci::param::ExtDuration::<1>::from_embassy(embassy_time::Duration::from_millis(3)).unwrap();
    assert_eq!(e.as_micros(), 3000);
}
