use bt_hci::cmd::link_control::{
    AcceptConnectionRequest,
    AcceptSynchronousConnectionRequest,
    AuthenticationRequested,
    ChangeConnectionLinkKey,
    ChangeConnectionPacketType,
    CreateConnection,
    CreateConnectionCancel,
    Disconnect,
    EnhancedAcceptSynchronousConnectionRequest,
    EnhancedSetupSynchronousConnection,
    ExitPeriodicInquiryMode,
    Inquiry,
    InquiryCancel,
    IoCapabilityRequestNegativeReply,
    IoCapabilityRequestReply,
    LinkKeyRequestNegativeReply,
    LinkKeyRequestReply,
    LinkKeySelection,
    PinCodeRequestReply,
    ReadClockOffset,
    ReadLmpHandle,
    ReadRemoteExtendedFeatures,
    ReadRemoteSupportedFeatures,
    ReadRemoteVersionInformation,
    ReceiveSynchronizationTrain,
    RejectConnectionRequest,
    RejectSynchronousConnectionRequest,
    RemoteNameRequest,
    RemoteNameRequestCancel,
    RemoteOobDataRequestNegativeReply,
    RemoteOobDataRequestReply,
    RemoteOobExtendedDataRequestReply,
    SetConnectionEncryption,
    SetConnectionlessPeripheralBroadcast,
    SetConnectionlessPeripheralBroadcastReceive,
    SetupSynchronousConnection,
    StartSynchronizationTrain,
    TruncatedPage,
    TruncatedPageCancel,
    UserConfirmationRequestNegativeReply,
    UserConfirmationRequestReply,
    UserPasskeyRequestNegativeReply,
    UserPasskeyRequestReply,
};
use bt_hci::cmd::{Cmd, OpcodeGroup};
use bt_hci::param::{
    AllowRoleSwitch,
    BdAddr,
    ClockOffset,
    ConnHandle,
    DisconnectReason,
    EnhancedAcceptSynchronousConnectionRequestParams,
    EnhancedSetupSynchronousConnectionParams,
    IoCapability,
    KeyFlag,
    OobDataPresent,
    PacketType,
    PageScanRepetitionMode,
    RejectReason,
    RetransmissionEffort,
    Role,
    Status,
    SyncPacketType,
    VoiceSetting,
    AuthenticationRequirements,
};
use bt_hci::param::status;

#[test]
fn test_inquiry() {
    let _cmd = Inquiry::new(
        [0x9e, 0x8b, 0x33], // General/Unlimited Inquiry Access Code
        0x08,               // 10.24 seconds
        0x00,               // Unlimited number of responses
    );

    assert_eq!(Inquiry::opcode().group(), OpcodeGroup::new(0x01));
    assert_eq!(Inquiry::opcode().cmd(), 0x0001);
}

#[test]
fn test_inquiry_cancel() {
    let _cmd = InquiryCancel::new();
    assert_eq!(InquiryCancel::opcode().group(), OpcodeGroup::new(0x01));
    assert_eq!(InquiryCancel::opcode().cmd(), 0x0002);
}

#[test]
fn test_disconnect() {
    let _cmd = Disconnect::new(ConnHandle::new(0x0001), DisconnectReason::AuthenticationFailure);

    assert_eq!(Disconnect::opcode().group(), OpcodeGroup::new(0x01));
    assert_eq!(Disconnect::opcode().cmd(), 0x0006);
}

#[test]
fn test_read_remote_version_information() {
    let _cmd = ReadRemoteVersionInformation::new(ConnHandle::new(0x0001));

    assert_eq!(ReadRemoteVersionInformation::opcode().group(), OpcodeGroup::new(0x01));
    assert_eq!(ReadRemoteVersionInformation::opcode().cmd(), 0x001d);
}

#[test]
fn test_remote_name_request() {
    let _cmd = RemoteNameRequest::new(
        BdAddr::new([0x12, 0x34, 0x56, 0x78, 0x9a, 0xbc]),
        PageScanRepetitionMode::R2,
        0x00, // reserved
        ClockOffset::new().set_clock_offset_0(true),
    );
    assert_eq!(RemoteNameRequest::opcode().group(), OpcodeGroup::new(0x01));
    assert_eq!(RemoteNameRequest::opcode().cmd(), 0x0019);
}

#[test]
fn test_create_connection() {
    let _cmd = CreateConnection::new(
        BdAddr::new([0x12, 0x34, 0x56, 0x78, 0x9a, 0xbc]),
        PacketType::new()
            .set_dh1_may_be_used(true)
            .set_dm3_may_be_used(true)
            .set_dh3_may_be_used(true),
        PageScanRepetitionMode::R2,
        0x00, // reserved
        ClockOffset::new(),
        AllowRoleSwitch::Allowed,
    );
    assert_eq!(CreateConnection::opcode().group(), OpcodeGroup::new(0x01));
    assert_eq!(CreateConnection::opcode().cmd(), 0x0005);
}

#[test]
fn test_authentication_requested() {
    let _cmd = AuthenticationRequested::new(ConnHandle::new(0x0001));

    assert_eq!(AuthenticationRequested::opcode().group(), OpcodeGroup::new(0x01));
    assert_eq!(AuthenticationRequested::opcode().cmd(), 0x0011);
}

#[test]
fn test_link_key_request_negative_reply() {
    let bd_addr = BdAddr::new([0x12, 0x34, 0x56, 0x78, 0x9a, 0xbc]);
    let _cmd = LinkKeyRequestNegativeReply::new(bd_addr);

    assert_eq!(LinkKeyRequestNegativeReply::opcode().group(), OpcodeGroup::new(0x01));
    assert_eq!(LinkKeyRequestNegativeReply::opcode().cmd(), 0x000c);
}

#[test]
fn test_pin_code_request_reply() {
    let _cmd = PinCodeRequestReply::new(
        BdAddr::new([0x12, 0x34, 0x56, 0x78, 0x9a, 0xbc]),
        4,
        [b'1', b'2', b'3', b'4', 0, 0, 0, 0, 0, 0, 0, 0, 0, 0, 0, 0],
    );

    assert_eq!(PinCodeRequestReply::opcode().group(), OpcodeGroup::new(0x01));
    assert_eq!(PinCodeRequestReply::opcode().cmd(), 0x000d);
}

#[test]
fn test_set_connection_encryption() {
    let _cmd = SetConnectionEncryption::new(
        ConnHandle::new(0x0001),
        true, // Enable encryption
    );
    assert_eq!(SetConnectionEncryption::opcode().group(), OpcodeGroup::new(0x01));
    assert_eq!(SetConnectionEncryption::opcode().cmd(), 0x0013);
}

#[test]
fn test_link_key_request_reply() {
    let _cmd = LinkKeyRequestReply::new(
        BdAddr::new([0x12, 0x34, 0x56, 0x78, 0x9a, 0xbc]),
        [
            0x01, 0x02, 0x03, 0x04, 0x05, 0x06, 0x07, 0x08, 0x09, 0x0a, 0x0b, 0x0c, 0x0d, 0x0e, 0x0f, 0x10,
        ],
    );
    assert_eq!(LinkKeyRequestReply::opcode().group(), OpcodeGroup::new(0x01));
    assert_eq!(LinkKeyRequestReply::opcode().cmd(), 0x000b);
}

#[test]
fn test_io_capability_request_reply() {
    let _cmd = IoCapabilityRequestReply::new(
        BdAddr::new([0x12, 0x34, 0x56, 0x78, 0x9a, 0xbc]),
        IoCapability::DisplayYesNo,
        OobDataPresent::NotPresent,
        AuthenticationRequirements::MitmRequiredGeneralBonding,
    );
    assert_eq!(IoCapabilityRequestReply::opcode().group(), OpcodeGroup::new(0x01));
    assert_eq!(IoCapabilityRequestReply::opcode().cmd(), 0x002b);
}

#[test]
fn test_user_confirmation_request_reply() {
    let _cmd = UserConfirmationRequestReply::new(BdAddr::new([0x12, 0x34, 0x56, 0x78, 0x9a, 0xbc]));
    assert_eq!(UserConfirmationRequestReply::opcode().group(), OpcodeGroup::new(0x01));
    assert_eq!(UserConfirmationRequestReply::opcode().cmd(), 0x002c);
}

#[test]
fn test_exit_periodic_inquiry_mode() {
    let _cmd = ExitPeriodicInquiryMode::new();
    assert_eq!(ExitPeriodicInquiryMode::opcode().group(), OpcodeGroup::new(0x01));
    assert_eq!(ExitPeriodicInquiryMode::opcode().cmd(), 0x0004);
}

#[test]
fn test_create_connection_cancel() {
    let bd_addr = BdAddr::new([0x12, 0x34, 0x56, 0x78, 0x9a, 0xbc]);
    let _cmd = CreateConnectionCancel::new(bd_addr);
    assert_eq!(CreateConnectionCancel::opcode().group(), OpcodeGroup::new(0x01));
    assert_eq!(CreateConnectionCancel::opcode().cmd(), 0x0008);
}

#[test]
fn test_accept_connection_request() {
    let _cmd = AcceptConnectionRequest::new(BdAddr::new([0x12, 0x34, 0x56, 0x78, 0x9a, 0xbc]), Role::Central);
    assert_eq!(AcceptConnectionRequest::opcode().group(), OpcodeGroup::new(0x01));
    assert_eq!(AcceptConnectionRequest::opcode().cmd(), 0x0009);
}

#[test]
fn test_reject_connection_request() {
    let _cmd = RejectConnectionRequest::new(
        BdAddr::new([0x12, 0x34, 0x56, 0x78, 0x9a, 0xbc]),
        RejectReason::LimitedResources,
    );
    assert_eq!(RejectConnectionRequest::opcode().group(), OpcodeGroup::new(0x01));
    assert_eq!(RejectConnectionRequest::opcode().cmd(), 0x000a);
}

#[test]
fn test_change_connection_packet_type() {
    let _cmd = ChangeConnectionPacketType::new(
        ConnHandle::new(0x0001),
        PacketType::new()
            .set_dh1_may_be_used(true)
            .set_dm3_may_be_used(true)
            .set_dh3_may_be_used(true),
    );
    assert_eq!(ChangeConnectionPacketType::opcode().group(), OpcodeGroup::new(0x01));
    assert_eq!(ChangeConnectionPacketType::opcode().cmd(), 0x000f);
}

#[test]
fn test_change_connection_link_key() {
    let _cmd = ChangeConnectionLinkKey::new(ConnHandle::new(0x0001));
    assert_eq!(ChangeConnectionLinkKey::opcode().group(), OpcodeGroup::new(0x01));
    assert_eq!(ChangeConnectionLinkKey::opcode().cmd(), 0x0015);
}

#[test]
fn test_link_key_selection() {
    let _cmd = LinkKeySelection::new(KeyFlag::SemiPermanent);
    assert_eq!(LinkKeySelection::opcode().group(), OpcodeGroup::new(0x01));
    assert_eq!(LinkKeySelection::opcode().cmd(), 0x0017);
}

#[test]
fn test_remote_name_request_cancel() {
    let bd_addr = BdAddr::new([0x12, 0x34, 0x56, 0x78, 0x9a, 0xbc]);
    let _cmd = RemoteNameRequestCancel::new(bd_addr);
    assert_eq!(RemoteNameRequestCancel::opcode().group(), OpcodeGroup::new(0x01));
    assert_eq!(RemoteNameRequestCancel::opcode().cmd(), 0x001a);
}

#[test]
fn test_read_remote_supported_features() {
    let _cmd = ReadRemoteSupportedFeatures::new(ConnHandle::new(0x0001));
    assert_eq!(ReadRemoteSupportedFeatures::opcode().group(), OpcodeGroup::new(0x01));
    assert_eq!(ReadRemoteSupportedFeatures::opcode().cmd(), 0x001b);
}

#[test]
fn test_read_remote_extended_features() {
    let _cmd = ReadRemoteExtendedFeatures::new(ConnHandle::new(0x0001), 0x01);
    assert_eq!(ReadRemoteExtendedFeatures::opcode().group(), OpcodeGroup::new(0x01));
    assert_eq!(ReadRemoteExtendedFeatures::opcode().cmd(), 0x001c);
}

#[test]
fn test_read_clock_offset() {
    let _cmd = ReadClockOffset::new(ConnHandle::new(0x0001));
    assert_eq!(ReadClockOffset::opcode().group(), OpcodeGroup::new(0x01));
    assert_eq!(ReadClockOffset::opcode().cmd(), 0x001f);
}

#[test]
fn test_read_lmp_handle() {
    let _cmd = ReadLmpHandle::new(ConnHandle::new(0x0001));
    assert_eq!(ReadLmpHandle::opcode().group(), OpcodeGroup::new(0x01));
    assert_eq!(ReadLmpHandle::opcode().cmd(), 0x0020);
}

#[test]
fn test_setup_synchronous_connection() {
    let _cmd = SetupSynchronousConnection::new(
        ConnHandle::new(0x0001),
        8000, // transmit_bandwidth
        8000, // receive_bandwidth
        10,   // max_latency
        VoiceSetting::new(),
        RetransmissionEffort::NoRetransmissions,
        SyncPacketType::new(),
    );
    assert_eq!(SetupSynchronousConnection::opcode().group(), OpcodeGroup::new(0x01));
    assert_eq!(SetupSynchronousConnection::opcode().cmd(), 0x0028);
}

#[test]
fn test_accept_synchronous_connection_request() {
    let _cmd = AcceptSynchronousConnectionRequest::new(
        BdAddr::new([0x12, 0x34, 0x56, 0x78, 0x9a, 0xbc]),
        8000, // transmit_bandwidth
        8000, // receive_bandwidth
        10,   // max_latency
        VoiceSetting::new(),
        RetransmissionEffort::NoRetransmissions,
        SyncPacketType::new(),
    );
    assert_eq!(
        AcceptSynchronousConnectionRequest::opcode().group(),
        OpcodeGroup::new(0x01)
    );
    assert_eq!(AcceptSynchronousConnectionRequest::opcode().cmd(), 0x0029);
}

#[test]
fn test_reject_synchronous_connection_request() {
    let _cmd = RejectSynchronousConnectionRequest::new(
        BdAddr::new([0x12, 0x34, 0x56, 0x78, 0x9a, 0xbc]),
        RejectReason::LimitedResources,
    );
    assert_eq!(
        RejectSynchronousConnectionRequest::opcode().group(),
        OpcodeGroup::new(0x01)
    );
    assert_eq!(RejectSynchronousConnectionRequest::opcode().cmd(), 0x002a);
}

#[test]
fn test_user_confirmation_request_negative_reply() {
    let _cmd = UserConfirmationRequestNegativeReply::new(BdAddr::new([0x12, 0x34, 0x56, 0x78, 0x9a, 0xbc]));
    assert_eq!(
        UserConfirmationRequestNegativeReply::opcode().group(),
        OpcodeGroup::new(0x01)
    );
    assert_eq!(UserConfirmationRequestNegativeReply::opcode().cmd(), 0x002d);
}

#[test]
fn test_user_passkey_request_reply() {
    let _cmd = UserPasskeyRequestReply::new(
        BdAddr::new([0x12, 0x34, 0x56, 0x78, 0x9a, 0xbc]),
        123456, // numeric_value
    );
    assert_eq!(UserPasskeyRequestReply::opcode().group(), OpcodeGroup::new(0x01));
    assert_eq!(UserPasskeyRequestReply::opcode().cmd(), 0x002e);
}

#[test]
fn test_user_passkey_request_negative_reply() {
    let _cmd = UserPasskeyRequestNegativeReply::new(BdAddr::new([0x12, 0x34, 0x56, 0x78, 0x9a, 0xbc]));
    assert_eq!(UserPasskeyRequestNegativeReply::opcode().group(), OpcodeGroup::new(0x01));
    assert_eq!(UserPasskeyRequestNegativeReply::opcode().cmd(), 0x002f);
}

#[test]
fn test_remote_oob_data_request_reply() {
    let _cmd = RemoteOobDataRequestReply::new(
        BdAddr::new([0x12, 0x34, 0x56, 0x78, 0x9a, 0xbc]),
        [
            0x01, 0x02, 0x03, 0x04, 0x05, 0x06, 0x07, 0x08, 0x09, 0x0a, 0x0b, 0x0c, 0x0d, 0x0e, 0x0f, 0x10,
        ], // c
        [
            0x11, 0x12, 0x13, 0x14, 0x15, 0x16, 0x17, 0x18, 0x19, 0x1a, 0x1b, 0x1c, 0x1d, 0x1e, 0x1f, 0x20,
        ], // r
    );
    assert_eq!(RemoteOobDataRequestReply::opcode().group(), OpcodeGroup::new(0x01));
    assert_eq!(RemoteOobDataRequestReply::opcode().cmd(), 0x0030);
}

#[test]
fn test_remote_oob_data_request_negative_reply() {
    let _cmd = RemoteOobDataRequestNegativeReply::new(BdAddr::new([0x12, 0x34, 0x56, 0x78, 0x9a, 0xbc]));
    assert_eq!(
        RemoteOobDataRequestNegativeReply::opcode().group(),
        OpcodeGroup::new(0x01)
    );
    assert_eq!(RemoteOobDataRequestNegativeReply::opcode().cmd(), 0x0033);
}

#[test]
fn test_io_capability_request_negative_reply() {
    let _cmd = IoCapabilityRequestNegativeReply::new(
        BdAddr::new([0x12, 0x34, 0x56, 0x78, 0x9a, 0xbc]),
        Status::new(status::PAIRING_NOT_ALLOWED),
    );
    assert_eq!(IoCapabilityRequestNegativeReply::opcode().group(), OpcodeGroup::new(0x01));
    assert_eq!(IoCapabilityRequestNegativeReply::opcode().cmd(), 0x0034);
}

#[test]
fn test_enhanced_setup_synchronous_connection() {
    let params = EnhancedSetupSynchronousConnectionParams {
        handle: ConnHandle::new(0x0001),
        transmit_bandwidth: 8000,
        receive_bandwidth: 8000,
        transmit_coding_format: Default::default(),
        receive_coding_format: Default::default(),
        transmit_codec_frame_size: 60,
        receive_codec_frame_size: 60,
        input_bandwidth: 8000,
        output_bandwidth: 8000,
        input_coding_format: Default::default(),
        output_coding_format: Default::default(),
        input_coded_data_size: 8,
        output_coded_data_size: 8,
        input_pcm_data_format: 0,
        output_pcm_data_format: 0,
        input_pcm_sample_payload_msb_position: 0,
        output_pcm_sample_payload_msb_position: 0,
        input_data_path: 0,
        output_data_path: 0,
        input_transport_unit_size: 0,
        output_transport_unit_size: 0,
        max_latency: 10,
        packet_type: SyncPacketType::new(),
        retransmission_effort: RetransmissionEffort::NoRetransmissions,
    };
    let _cmd = EnhancedSetupSynchronousConnection::new(params);
    assert_eq!(
        EnhancedSetupSynchronousConnection::opcode().group(),
        OpcodeGroup::new(0x01)
    );
    assert_eq!(EnhancedSetupSynchronousConnection::opcode().cmd(), 0x003d);
}

#[test]
fn test_enhanced_accept_synchronous_connection_request() {
    let params = EnhancedAcceptSynchronousConnectionRequestParams {
        bd_addr: BdAddr::new([0x12, 0x34, 0x56, 0x78, 0x9a, 0xbc]),
        transmit_bandwidth: 8000,
        receive_bandwidth: 8000,
        transmit_coding_format: Default::default(),
        receive_coding_format: Default::default(),
        transmit_codec_frame_size: 60,
        receive_codec_frame_size: 60,
        input_bandwidth: 8000,
        output_bandwidth: 8000,
        input_coding_format: Default::default(),
        output_coding_format: Default::default(),
        input_coded_data_size: 8,
        output_coded_data_size: 8,
        input_pcm_data_format: 0,
        output_pcm_data_format: 0,
        input_pcm_sample_payload_msb_position: 0,
        output_pcm_sample_payload_msb_position: 0,
        input_data_path: 0,
        output_data_path: 0,
        input_transport_unit_size: 0,
        output_transport_unit_size: 0,
        max_latency: 10,
        packet_type: SyncPacketType::new(),
        retransmission_effort: RetransmissionEffort::NoRetransmissions,
    };
    let _cmd = EnhancedAcceptSynchronousConnectionRequest::new(params);
    assert_eq!(
        EnhancedAcceptSynchronousConnectionRequest::opcode().group(),
        OpcodeGroup::new(0x01)
    );
    assert_eq!(EnhancedAcceptSynchronousConnectionRequest::opcode().cmd(), 0x003e);
}

#[test]
fn test_truncated_page() {
    let _cmd = TruncatedPage::new(
        BdAddr::new([0x12, 0x34, 0x56, 0x78, 0x9a, 0xbc]),
        PageScanRepetitionMode::R2,
        ClockOffset::new(),
    );
    assert_eq!(TruncatedPage::opcode().group(), OpcodeGroup::new(0x01));
    assert_eq!(TruncatedPage::opcode().cmd(), 0x003f);
}

#[test]
fn test_truncated_page_cancel() {
    let _cmd = TruncatedPageCancel::new(BdAddr::new([0x12, 0x34, 0x56, 0x78, 0x9a, 0xbc]));
    assert_eq!(TruncatedPageCancel::opcode().group(), OpcodeGroup::new(0x01));
    assert_eq!(TruncatedPageCancel::opcode().cmd(), 0x0040);
}

#[test]
fn test_set_connectionless_peripheral_broadcast() {
    let _cmd = SetConnectionlessPeripheralBroadcast::new(
        true,  // enable
        1,     // lt_addr
        false, // lpo_allowed
        PacketType::new(),
        800,   // interval_min
        1600,  // interval_max
        16000, // supervision_timeout
    );
    assert_eq!(
        SetConnectionlessPeripheralBroadcast::opcode().group(),
        OpcodeGroup::new(0x01)
    );
    assert_eq!(SetConnectionlessPeripheralBroadcast::opcode().cmd(), 0x0041);
}

#[test]
fn test_set_connectionless_peripheral_broadcast_receive() {
    let _cmd = SetConnectionlessPeripheralBroadcastReceive::new(
        true, // enable
        BdAddr::new([0x12, 0x34, 0x56, 0x78, 0x9a, 0xbc]),
        1,      // lt_addr
        800,    // interval
        0x1234, // clock_offset
        0x5678, // next_broadcast_instant
        16000,  // supervision_timeout
        20,     // remote_timing_accuracy
        0,      // skip
        PacketType::new(),
        [0xff; 10], // afh_channel_map
    );
    assert_eq!(
        SetConnectionlessPeripheralBroadcastReceive::opcode().group(),
        OpcodeGroup::new(0x01)
    );
    assert_eq!(SetConnectionlessPeripheralBroadcastReceive::opcode().cmd(), 0x0042);
}

#[test]
fn test_start_synchronization_train() {
    let _cmd = StartSynchronizationTrain::new();
    assert_eq!(StartSynchronizationTrain::opcode().group(), OpcodeGroup::new(0x01));
    assert_eq!(StartSynchronizationTrain::opcode().cmd(), 0x0043);
}

#[test]
fn test_receive_synchronization_train() {
    let _cmd = ReceiveSynchronizationTrain::new(
        BdAddr::new([0x12, 0x34, 0x56, 0x78, 0x9a, 0xbc]),
        16384, // sync_scan_timeout
        36,    // sync_scan_window
        512,   // sync_scan_interval
    );
    assert_eq!(ReceiveSynchronizationTrain::opcode().group(), OpcodeGroup::new(0x01));
    assert_eq!(ReceiveSynchronizationTrain::opcode().cmd(), 0x0044);
}

#[test]
fn test_remote_oob_extended_data_request_reply() {
    let _cmd = RemoteOobExtendedDataRequestReply::new(
        BdAddr::new([0x12, 0x34, 0x56, 0x78, 0x9a, 0xbc]),
        [
            0x01, 0x02, 0x03, 0x04, 0x05, 0x06, 0x07, 0x08, 0x09, 0x0a, 0x0b, 0x0c, 0x0d, 0x0e, 0x0f, 0x10,
        ], // c_192
        [
            0x11, 0x12, 0x13, 0x14, 0x15, 0x16, 0x17, 0x18, 0x19, 0x1a, 0x1b, 0x1c, 0x1d, 0x1e, 0x1f, 0x20,
        ], // r_192
        [
            0x21, 0x22, 0x23, 0x24, 0x25, 0x26, 0x27, 0x28, 0x29, 0x2a, 0x2b, 0x2c, 0x2d, 0x2e, 0x2f, 0x30,
        ], // c_256
        [
            0x31, 0x32, 0x33, 0x34, 0x35, 0x36, 0x37, 0x38, 0x39, 0x3a, 0x3b, 0x3c, 0x3d, 0x3e, 0x3f, 0x40,
        ], // r_256
    );
    assert_eq!(
        RemoteOobExtendedDataRequestReply::opcode().group(),
        OpcodeGroup::new(0x01)
    );
    assert_eq!(RemoteOobExtendedDataRequestReply::opcode().cmd(), 0x0045);
}
