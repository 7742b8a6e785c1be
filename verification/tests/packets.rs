use bt_hci::data::{AclBroadcastFlag, AclPacket, AclPacketBoundary, IsoPacket, SyncPacket, SyncPacketStatus};
use bt_hci::param::ConnHandle;
use bt_hci::transport::WithIndicator;
use bt_hci::{ControllerToHostPacket, FromHciBytes, FromHciBytesError, PacketKind, WriteHci};

#[test]
fn acl_packet_bytes_and_roundtrip() {
    let data = [1u8, 2, 3];
    let pkt = AclPacket::new(
        ConnHandle::new(0x123),
        AclPacketBoundary::Continuing,
        AclBroadcastFlag::PointToPoint,
        &data,
    );
    let bytes = pkt.to_hci_bytes();
    assert_eq!(bytes, vec![0x23, 0x11, 3, 0, 1, 2, 3]);
    assert_eq!(pkt.size(), 7);

    let (back, rest) = AclPacket::from_hci_bytes(&bytes).unwrap();
    assert!(rest.is_empty());
    assert_eq!(back.handle(), ConnHandle::new(0x123));
    assert_eq!(back.boundary_flag(), AclPacketBoundary::Continuing);
    assert_eq!(back.broadcast_flag(), AclBroadcastFlag::PointToPoint);
    assert_eq!(back.data(), &data[..]);
}

#[test]
fn acl_packet_keeps_trailing_bytes() {
    let bytes = [0x01, 0x00, 1, 0, 0xaa, 0xbb, 0xcc];
    let (pkt, rest) = AclPacket::from_hci_bytes(&bytes).unwrap();
    assert_eq!(pkt.data(), &[0xaa][..]);
    assert_eq!(rest, &[0xbb, 0xcc][..]);
}

#[test]
fn acl_packet_too_short() {
    assert!(matches!(AclPacket::from_hci_bytes(&[0x23]), Err(FromHciBytesError::InvalidSize)));
    assert!(matches!(
        AclPacket::from_hci_bytes(&[0x23, 0x01, 5, 0, 1, 2]),
        Err(FromHciBytesError::InvalidSize)
    ));
}

#[test]
fn sync_packet_read_then_write() {
    let bytes = [0x23, 0x01, 2, 0xaa, 0xbb];
    let (pkt, rest) = SyncPacket::from_hci_bytes(&bytes).unwrap();
    assert!(rest.is_empty());
    assert_eq!(pkt.handle(), ConnHandle::new(0x123));
    assert_eq!(pkt.status(), SyncPacketStatus::Correct);
    assert_eq!(pkt.data(), &[0xaa, 0xbb][..]);
    assert_eq!(pkt.to_hci_bytes(), bytes.to_vec());
}

#[test]
fn iso_packet_without_timestamp() {
    // handle 0x005, first fragment, no timestamp; 4 bytes of data load:
    // sequence number 7, SDU length 0 with status 0, then no SDU bytes.
    let bytes = [0x05, 0x00, 4, 0, 7, 0, 0, 0];
    let (pkt, rest) = IsoPacket::from_hci_bytes(&bytes).unwrap();
    assert!(rest.is_empty());
    assert_eq!(pkt.handle(), ConnHandle::new(5));
    assert_eq!(pkt.to_hci_bytes(), bytes.to_vec());
}

#[test]
fn with_indicator_prefixes_the_kind() {
    let data = [9u8, 8];
    let pkt = AclPacket::new(
        ConnHandle::new(1),
        AclPacketBoundary::FirstNonFlushable,
        AclBroadcastFlag::PointToPoint,
        &data,
    );
    let framed = WithIndicator::new(&pkt).to_hci_bytes();
    assert_eq!(framed, vec![0x02, 0x01, 0x00, 2, 0, 9, 8]);

    let (back, rest) = ControllerToHostPacket::from_hci_bytes(&framed).unwrap();
    assert!(rest.is_empty());
    assert_eq!(back.kind(), PacketKind::AclData);
    match back {
        ControllerToHostPacket::Acl(acl) => {
            assert_eq!(acl.handle(), ConnHandle::new(1));
            assert_eq!(acl.data(), &data[..]);
        }
        _ => panic!("expected an ACL packet"),
    }
}

#[test]
fn packet_kind_raw_values() {
    assert_eq!(PacketKind::Event.into_raw(), 0x04);
    assert_eq!(PacketKind::from_raw(0x05), Some(PacketKind::IsoData));
    assert_eq!(PacketKind::from_raw(0x09), None);
    assert!(matches!(
        ControllerToHostPacket::from_hci_bytes(&[0x09, 0, 0]),
        Err(FromHciBytesError::InvalidValue)
    ));
    assert!(matches!(
        ControllerToHostPacket::from_hci_bytes(&[0x01, 0, 0, 0]),
        Err(FromHciBytesError::InvalidValue)
    ));
}
