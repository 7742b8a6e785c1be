use bt_hci::data::AclPacketHeader;
use bt_hci::param::ConnHandle;
use bt_hci::FromHciBytes;

#[test]
fn test_decode_acl_handle() {
    let input = &[32, 32, 0, 0];
    let header = AclPacketHeader::from_hci_bytes_complete(input).unwrap();
    assert_eq!(header.handle(), ConnHandle::new(32));

    let input = &[0, 33, 0, 0];
    let header = AclPacketHeader::from_hci_bytes_complete(input).unwrap();
    assert_eq!(header.handle(), ConnHandle::new(256));
}
