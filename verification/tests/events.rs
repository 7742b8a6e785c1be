use bt_hci::cmd::info::ReadBdAddr;
use bt_hci::cmd::{Opcode, OpcodeGroup, INFO_PARAMS};
use bt_hci::event::le::{LeEventKind, LeEventPacket, LE_CONNECTION_COMPLETE, LE_SUBRATE_CHANGE};
use bt_hci::event::{
    CommandComplete, CommandCompleteWithStatus, Event, EventKind, EventPacket, InquiryResultIter,
};
use bt_hci::param::{BdAddr, PageScanRepetitionMode, Status};
use bt_hci::{FromHciBytes, FromHciBytesError};

#[test]
fn event_command_status() {
    let bytes = [0x0f, 4, 0x00, 1, 0x09, 0x10];
    let (ev, rest) = Event::from_hci_bytes(&bytes).unwrap();
    assert!(rest.is_empty());
    match ev {
        Event::CommandStatus(cs) => {
            assert_eq!(cs.status, Status::new(0));
            assert_eq!(cs.num_hci_cmd_pkts, 1);
            assert_eq!(cs.cmd_opcode, Opcode::new(OpcodeGroup::new(INFO_PARAMS), 0x009));
        }
        _ => panic!("expected Command Status"),
    }
}

#[test]
fn event_unknown_code_and_trailing_bytes() {
    let bytes = [0x05, 2, 0xaa, 0xbb, 0xcc];
    let (ev, rest) = Event::from_hci_bytes(&bytes).unwrap();
    assert_eq!(rest, &[0xcc][..]);
    match ev {
        Event::Unknown { code, params } => {
            assert_eq!(code, 0x05);
            assert_eq!(params, &[0xaa, 0xbb][..]);
        }
        _ => panic!("expected an unknown event"),
    }
}

#[test]
fn event_errors() {
    // fewer parameter bytes than the header announces
    assert!(matches!(Event::from_hci_bytes(&[0x05, 3, 0xaa]), Err(FromHciBytesError::InvalidSize)));
    // a Command Status event whose parameters are one byte short
    assert!(matches!(
        Event::from_hci_bytes(&[0x0f, 3, 0x00, 1, 0x09]),
        Err(FromHciBytesError::InvalidSize)
    ));
    assert!(matches!(EventPacket::from_hci_bytes(&[0x0e]), Err(FromHciBytesError::InvalidSize)));
}

#[test]
fn event_packet_takes_its_parameters() {
    let bytes = [0x0e, 1, 0x07, 0x08];
    let (pkt, rest) = EventPacket::from_hci_bytes(&bytes).unwrap();
    assert_eq!(pkt.kind, EventKind(0x0e));
    assert_eq!(pkt.data, &[0x07][..]);
    assert!(rest.is_empty());
}

#[test]
fn command_complete_with_status_return_params() {
    let params = [1u8, 0x09, 0x10, 0x00, 1, 2, 3, 4, 5, 6];
    let cc = CommandComplete::from_hci_bytes_complete(&params).unwrap();
    assert!(cc.has_status());
    let e = CommandCompleteWithStatus::from_command_complete(cc).unwrap();
    assert_eq!(e.status, Status::new(0));
    let addr = e.to_result::<ReadBdAddr>().unwrap();
    assert_eq!(addr, BdAddr::new([1, 2, 3, 4, 5, 6]));

    // an error status is returned as the error
    let params = [1u8, 0x09, 0x10, 0x0c];
    let cc = CommandComplete::from_hci_bytes_complete(&params).unwrap();
    let e = CommandCompleteWithStatus::from_command_complete(cc).unwrap();
    assert_eq!(e.to_result::<ReadBdAddr>().unwrap_err().into_inner(), 0x0c);

    // an unsolicited Command Complete has no status
    let cc = CommandComplete::from_hci_bytes_complete(&[1, 0, 0]).unwrap();
    assert!(!cc.has_status());
    assert!(matches!(
        CommandCompleteWithStatus::from_command_complete(cc),
        Err(FromHciBytesError::InvalidSize)
    ));
}

#[test]
fn inquiry_result_iter_standard() {
    let bytes = [1, 2, 3, 4, 5, 6, 0x01, 0, 0, 0x0a, 0x0b, 0x0c, 0x34, 0x12];
    let mut it = InquiryResultIter::new_standard(&bytes, 1);
    let item = it.next().unwrap();
    assert_eq!(item.bd_addr, BdAddr::new([1, 2, 3, 4, 5, 6]));
    assert_eq!(item.page_scan_repetition_mode, Some(PageScanRepetitionMode::R1));
    assert_eq!(item.class_of_device, Some([0x0a, 0x0b, 0x0c]));
    assert_eq!(item.clock_offset.unwrap().into_inner(), [0x34, 0x12]);
    assert_eq!(item.rssi, None);
    assert!(it.next().is_none());
}

#[test]
fn inquiry_result_iter_with_rssi_and_short_bytes() {
    // one result with RSSI: address, mode, one reserved byte, class, clock offset, RSSI
    let bytes = [6, 5, 4, 3, 2, 1, 0x00, 0, 1, 2, 3, 0, 0, 0xf6];
    let mut it = InquiryResultIter::new_with_rssi(&bytes, 1);
    let item = it.next().unwrap();
    assert_eq!(item.page_scan_repetition_mode, Some(PageScanRepetitionMode::R0));
    assert_eq!(item.rssi, Some(-10));
    assert!(it.next().is_none());

    // the address of the second result does not fit
    let short = [1, 2, 3, 4, 5, 6, 7];
    let mut it = InquiryResultIter::new_standard(&short, 2);
    assert!(it.next().is_some());
    assert!(it.next().is_none());
}

#[test]
fn le_event_packet_kinds() {
    let (pkt, rest) = LeEventPacket::from_hci_bytes(&[LE_CONNECTION_COMPLETE, 9, 9]).unwrap();
    assert_eq!(pkt.kind, LeEventKind(1));
    assert_eq!(pkt.data, &[9, 9][..]);
    assert!(rest.is_empty());
    let (kind, _) = LeEventKind::from_hci_bytes(&[LE_SUBRATE_CHANGE]).unwrap();
    assert_eq!(kind, LeEventKind(35));
    assert!(matches!(LeEventKind::from_hci_bytes(&[0]), Err(FromHciBytesError::InvalidValue)));
    assert!(matches!(LeEventKind::from_hci_bytes(&[36]), Err(FromHciBytesError::InvalidValue)));
    assert!(matches!(LeEventPacket::from_hci_bytes(&[]), Err(FromHciBytesError::InvalidSize)));
}
