use bt_hci::cmd::{Opcode, OpcodeGroup, CONTROL_BASEBAND, LE};
use bt_hci::controller::blocking::TryError;
use bt_hci::controller::{read_action, CommandResponse, CommandSlots, ReadAction, RESET_OPCODE};
use bt_hci::event::{EventKind, EventPacket};
use bt_hci::param::status::CONTROLLER_BUSY;
use bt_hci::param::Status;
use bt_hci::{ControllerToHostPacket, FromHciBytesError};

fn reset() -> Opcode {
    Opcode::new(OpcodeGroup::new(CONTROL_BASEBAND), 0x003)
}

fn le_rand() -> Opcode {
    Opcode::new(OpcodeGroup::new(LE), 0x018)
}

#[test]
fn opcode_fields() {
    let op = reset();
    assert_eq!(op.to_raw(), RESET_OPCODE);
    assert_eq!(op.group(), OpcodeGroup::new(CONTROL_BASEBAND));
    assert_eq!(op.cmd(), 0x003);
    assert_eq!(le_rand().to_raw(), 0x2018);
    assert_eq!(Opcode::unsolicited().to_raw(), 0);
}

#[test]
fn command_slots_acquire_complete_release() {
    let mut slots = CommandSlots::new(2);
    assert_eq!(slots.len(), 2);
    assert_eq!(slots.acquire_slot(reset()), Some(0));
    // a second command with the same opcode waits for the first one
    assert_eq!(slots.acquire_slot(reset()), None);
    assert_eq!(slots.acquire_slot(le_rand()), Some(1));
    // no free slot left
    let other = Opcode::new(OpcodeGroup::new(LE), 0x001);
    assert_eq!(slots.acquire_slot(other), None);

    // a completion for another command answers only its own slot
    let c = slots.complete(le_rand(), Status::new(0), 1, 8, 0);
    assert_eq!(c.signals.len(), 1);
    assert_eq!(c.signals[0].0, 1);
    assert_eq!(c.signals[0].1, CommandResponse { status: Status::new(0), len: 8 });
    assert_eq!(c.release, 1);

    // a Reset completion answers the Reset and tells every other waiting
    // command that the controller is busy
    let c = slots.complete(reset(), Status::new(0x0c), 3, 4, 1);
    assert_eq!(c.signals.len(), 2);
    assert_eq!(c.signals[0].0, 0);
    assert_eq!(c.signals[0].1, CommandResponse { status: Status::new(0x0c), len: 4 });
    assert_eq!(c.signals[1].0, 1);
    assert_eq!(c.signals[1].1, CommandResponse { status: Status::new(CONTROLLER_BUSY), len: 0 });
    assert_eq!(c.release, 2);

    // a completion for a command nobody waits for signals nobody
    let c = slots.complete(other, Status::new(0), 1, 0, 5);
    assert!(c.signals.is_empty());
    assert_eq!(c.release, 0);

    slots.release_slot(0);
    assert_eq!(slots.acquire_slot(other), Some(0));
}

fn event(kind: u8, data: &[u8]) -> ControllerToHostPacket<'_> {
    ControllerToHostPacket::Event(EventPacket { kind: EventKind(kind), data })
}

#[test]
fn read_action_command_complete() {
    let data = [1u8, 0x03, 0x0c, 0x00, 0xaa, 0xbb];
    match read_action(&event(0x0e, &data)).unwrap() {
        ReadAction::Complete { opcode, status, num_hci_cmd_pkts, params } => {
            assert_eq!(opcode, reset());
            assert_eq!(status, Status::new(0));
            assert_eq!(num_hci_cmd_pkts, 1);
            assert_eq!(params, &[0xaa, 0xbb][..]);
        }
        ReadAction::Deliver => panic!("expected a completion"),
    }
}

#[test]
fn read_action_unsolicited_is_delivered() {
    let data = [1u8, 0x00, 0x00];
    assert!(matches!(read_action(&event(0x0e, &data)), Ok(ReadAction::Deliver)));
}

#[test]
fn read_action_command_status() {
    let data = [0x01u8, 2, 0x18, 0x20];
    match read_action(&event(0x0f, &data)).unwrap() {
        ReadAction::Complete { opcode, status, num_hci_cmd_pkts, params } => {
            assert_eq!(opcode, le_rand());
            assert_eq!(status, Status::new(1));
            assert_eq!(num_hci_cmd_pkts, 2);
            assert!(params.is_empty());
        }
        ReadAction::Deliver => panic!("expected a completion"),
    }
}

#[test]
fn read_action_other_events_and_errors() {
    assert!(matches!(read_action(&event(0x05, &[1, 2])), Ok(ReadAction::Deliver)));
    // a Command Complete without its opcode
    assert!(matches!(read_action(&event(0x0e, &[1])), Err(FromHciBytesError::InvalidSize)));
    // a Command Complete with an opcode but no status
    assert!(matches!(
        read_action(&event(0x0e, &[1, 0x03, 0x0c])),
        Err(FromHciBytesError::InvalidSize)
    ));
    // a Command Status with a byte too many
    assert!(matches!(
        read_action(&event(0x0f, &[0, 1, 0x03, 0x0c, 9])),
        Err(FromHciBytesError::InvalidSize)
    ));
}

#[test]
fn try_error_variants() {
    let e: TryError<u8> = TryError::Error(3);
    assert!(matches!(e, TryError::Error(3)));
    let b: TryError<u8> = TryError::Busy;
    assert!(matches!(b, TryError::Busy));
}

#[test]
fn cmd_error_from_hci_error() {
    let hci = bt_hci::param::Error::from_u8(0x0c).unwrap();
    let e: bt_hci::cmd::Error<u8> = bt_hci::cmd::Error::from(hci);
    match e {
        bt_hci::cmd::Error::Hci(h) => assert_eq!(h.into_inner(), 0x0c),
        bt_hci::cmd::Error::Io(_) => panic!("expected an HCI error"),
    }
    assert!(Status::new(0x0c).to_result().is_err());
    assert!(Status::new(0).to_result().is_ok());
}
