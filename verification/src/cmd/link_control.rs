//! Link Control commands.

use vstd::prelude::*;

use crate::{FixedSizeValue, FromHciBytes, FromHciBytesError, HciCodec, WriteHci, parsed, failed, lemma_skip_skip};
use crate::cmd::{
    AsyncCmd, Cmd, Opcode, OpcodeGroup, SyncCmd, spec_cmd_packet, spec_decode_complete_err, spec_decode_prefix_err,
    spec_decodes_complete, spec_decodes_prefix, spec_opcode_raw, write_cmd_packet, lemma_opcode_value,
};
use crate::cmd::{CONTROL_BASEBAND, INFO_PARAMS, LE, LINK_CONTROL, STATUS_PARAMS};
use crate::param::{
    AddrKind, AdvChannelMap, AdvEventProps, AdvFilterPolicy, AdvHandle, AdvKind, AdvPhyOptions,
    AdvSet, AllPhys, AllowRoleSwitch, AuthenticationRequirements, BdAddr, BigHandle, ChannelMap,
    ClockAccuracy, ClockOffset, CmdMask, ConnHandle, ConnHandleCompletedPackets, ConnIntervalGroup,
    ConnectionLinkType, ControllerToHostFlowControl, CoreSpecificationVersion, CteKind, CteMask,
    DataStatus, DisconnectReason, DoneStatus, Duration,
    EnhancedAcceptSynchronousConnectionRequestParams, EnhancedSetupSynchronousConnectionParams,
    Error, EventMask, EventMaskPage2, ExtDuration, ExtendedLmpFeatures, FilterDuplicates,
    FrameSpaceInitiator, FrequencyCompensation, InitiatingPhy, IoCapability, KeyFlag,
    LeAdvEventKind, LeAdvReport, LeAdvReports, LeAdvReportsIter, LeAdvertisingReportParam,
    LeConnRole, LeCsSubeventStepData, LeCsSubeventStepDataIter, LeCsSubeventStepEntry,
    LeDataRelatedAddrChangeReasons, LeEventMask, LeExtAdvDataStatus, LeExtAdvEventKind,
    LeExtAdvReport, LeExtAdvReports, LeExtAdvReportsIter, LeFeatureMask, LeFeatureMaskPage1,
    LePeriodicAdvCreateSyncOptions, LePeriodicAdvReceiveEnable, LePeriodicAdvSubeventData,
    LePeriodicAdvSyncTransferMode, LePeriodicAdvertisingResponseReport,
    LePeriodicAdvertisingResponseReports, LePeriodicAdvertisingResponseReportsIter, LeScanKind,
    LeTxPowerReportingReason, LinkKeyType, LinkType, LmpFeatureMask, LmpFeatureMaskPage1,
    LmpFeatureMaskPage2, OobDataPresent, Operation, PackedAbortReasons, PacketStatus, PacketType,
    PageScanRepetitionMode, PeriodicAdvProps, PhyKind, PhyMask, PhyOptions, PhyParams,
    PowerLevelKind, PrivacyMode, ProcedureAbortReason, RejectReason, RemainingBytes,
    RemoteConnectionParamsRejectReason, RetransmissionEffort, Role, ScanningFilterPolicy,
    ScanningPhy, SpacingTypes, Status, SubeventAbortReason, SwitchingSamplingRates, SyncHandle,
    SyncPacketType, TxStatus, VoiceSetting, ZoneEntered
};

verus! {

/// Parameters for the [`Inquiry`] command.
#[derive(Debug, Clone, Copy, PartialEq, Eq, PartialOrd, Ord, Hash)]
#[allow(missing_docs)]
pub struct InquiryParams {
    pub lap: [u8; 3],
    pub inquiry_length: u8,
    pub num_responses: u8,
}

/// The value of a [`InquiryParams`], with byte slices taken as sequences.
#[allow(missing_docs)]
pub struct InquiryParamsView {
    pub lap: Seq<u8>,
    pub inquiry_length: u8,
    pub num_responses: u8,
}

impl View for InquiryParams {
    type V = InquiryParamsView;

    open spec fn view(&self) -> InquiryParamsView {
        InquiryParamsView { lap: self.lap@, inquiry_length: self.inquiry_length@, num_responses: self.num_responses@ }
    }
}

impl WriteHci for InquiryParams {
    open spec fn spec_hci_bytes(&self) -> Seq<u8> {
        self.lap.spec_hci_bytes() + self.inquiry_length.spec_hci_bytes() + self.num_responses.spec_hci_bytes()
    }

    fn size(&self) -> (r: usize) {
        let mut n = self.lap.size();
        proof {
            assert(self.lap.spec_hci_bytes() + self.inquiry_length.spec_hci_bytes() =~= (self.lap.spec_hci_bytes() + self.inquiry_length.spec_hci_bytes()));
        }
        n = n + self.inquiry_length.size();
        proof {
            assert(self.lap.spec_hci_bytes() + self.inquiry_length.spec_hci_bytes() + self.num_responses.spec_hci_bytes() =~= (self.lap.spec_hci_bytes() + self.inquiry_length.spec_hci_bytes() + self.num_responses.spec_hci_bytes()));
        }
        n = n + self.num_responses.size();
        n
    }

    fn write_hci(&self, out: &mut Vec<u8>) {
        self.lap.write_hci(out);
        self.inquiry_length.write_hci(out);
        self.num_responses.write_hci(out);
        proof {
            assert(out@ =~= old(out)@ + self.spec_hci_bytes());
        }
    }
}

impl InquiryParams {
    /// The bytes of a `InquiryParams` are the bytes of its fields, one after the
    /// other, in the order in which the fields are declared.
    pub proof fn lemma_fields_in_order(&self)
        ensures
            self.spec_hci_bytes() == self.lap.spec_hci_bytes() + self.inquiry_length.spec_hci_bytes() + self.num_responses.spec_hci_bytes(),
    {
    }
}


/// The Inquiry command (group LINK_CONTROL, command 0x0001).
#[derive(Debug, Clone, Copy, PartialEq, Eq, PartialOrd, Ord, Hash)]
pub struct Inquiry(InquiryParams);

impl Inquiry {
    /// Create a new instance of the command.
    pub fn new(lap: [u8; 3], inquiry_length: u8, num_responses: u8) -> (result: Self)
        ensures
            result.spec_params() == (InquiryParams { lap: lap, inquiry_length: inquiry_length, num_responses: num_responses }),
    {
        Inquiry(InquiryParams { lap: lap, inquiry_length: inquiry_length, num_responses: num_responses })
    }

    /// This command's opcode is group LINK_CONTROL, command 0x0001: 0x0401.
    pub proof fn lemma_opcode()
        ensures
            Self::spec_opcode() == 0x0401,
    {
        lemma_opcode_value(LINK_CONTROL, 0x0001);
    }
}

impl Cmd for Inquiry {
    type Params = InquiryParams;

    open spec fn spec_opcode() -> u16 {
        spec_opcode_raw(LINK_CONTROL, 0x0001)
    }

    closed spec fn spec_params(&self) -> InquiryParams {
        self.0
    }

    fn opcode() -> (r: Opcode) {
        Opcode::new(OpcodeGroup::new(LINK_CONTROL), 0x0001)
    }

    fn params(&self) -> (r: &InquiryParams) {
        &self.0
    }

    proof fn lemma_packet(&self) {
    }
}

impl WriteHci for Inquiry {
    closed spec fn spec_hci_bytes(&self) -> Seq<u8> {
        spec_cmd_packet(spec_opcode_raw(LINK_CONTROL, 0x0001), self.0.spec_hci_bytes())
    }

    fn size(&self) -> (r: usize) {
        self.0.size() + 3
    }

    fn write_hci(&self, out: &mut Vec<u8>) {
        write_cmd_packet(Opcode::new(OpcodeGroup::new(LINK_CONTROL), 0x0001), &self.0, out);
    }
}

impl SyncCmd for Inquiry {
    type Return = ();
    type Handle = ();

    open spec fn spec_handle_ok(data: Seq<u8>, h: ()) -> bool {
        true
    }

    open spec fn spec_handle_err(data: Seq<u8>, e: FromHciBytesError) -> bool {
        false
    }

    open spec fn spec_return_ok(data: Seq<u8>, v: ()) -> bool {
        spec_decodes_complete::<()>(data, v)
    }

    open spec fn spec_return_err(data: Seq<u8>, e: FromHciBytesError) -> bool {
        spec_decode_complete_err::<()>(data, e)
    }

    fn param_handle(&self) -> (r: ())
        ensures
            r == (),
    {
    }

    fn return_handle(data: &[u8]) -> (r: Result<(), FromHciBytesError>) {
        Ok(())
    }

    fn return_from_hci_bytes(data: &[u8]) -> (r: Result<(), FromHciBytesError>) {
        <() as FromHciBytes>::from_hci_bytes_complete(data)
    }
}

/// The InquiryCancel command (group LINK_CONTROL, command 0x0002).
#[derive(Debug, Clone, Copy, PartialEq, Eq, PartialOrd, Ord, Hash, Default)]
pub struct InquiryCancel(());

impl InquiryCancel {
    /// Create a new instance of the command.
    pub fn new() -> (r: Self)
        ensures
            r.spec_params() == (),
    {
        InquiryCancel(())
    }

    /// This command's opcode is group LINK_CONTROL, command 0x0002: 0x0402.
    pub proof fn lemma_opcode()
        ensures
            Self::spec_opcode() == 0x0402,
    {
        lemma_opcode_value(LINK_CONTROL, 0x0002);
    }
}

impl Cmd for InquiryCancel {
    type Params = ();

    open spec fn spec_opcode() -> u16 {
        spec_opcode_raw(LINK_CONTROL, 0x0002)
    }

    closed spec fn spec_params(&self) -> () {
        self.0
    }

    fn opcode() -> (r: Opcode) {
        Opcode::new(OpcodeGroup::new(LINK_CONTROL), 0x0002)
    }

    fn params(&self) -> (r: &()) {
        &self.0
    }

    proof fn lemma_packet(&self) {
    }
}

impl WriteHci for InquiryCancel {
    closed spec fn spec_hci_bytes(&self) -> Seq<u8> {
        spec_cmd_packet(spec_opcode_raw(LINK_CONTROL, 0x0002), self.0.spec_hci_bytes())
    }

    fn size(&self) -> (r: usize) {
        self.0.size() + 3
    }

    fn write_hci(&self, out: &mut Vec<u8>) {
        write_cmd_packet(Opcode::new(OpcodeGroup::new(LINK_CONTROL), 0x0002), &self.0, out);
    }
}

impl SyncCmd for InquiryCancel {
    type Return = ();
    type Handle = ();

    open spec fn spec_handle_ok(data: Seq<u8>, h: ()) -> bool {
        true
    }

    open spec fn spec_handle_err(data: Seq<u8>, e: FromHciBytesError) -> bool {
        false
    }

    open spec fn spec_return_ok(data: Seq<u8>, v: ()) -> bool {
        spec_decodes_complete::<()>(data, v)
    }

    open spec fn spec_return_err(data: Seq<u8>, e: FromHciBytesError) -> bool {
        spec_decode_complete_err::<()>(data, e)
    }

    fn param_handle(&self) -> (r: ())
        ensures
            r == (),
    {
    }

    fn return_handle(data: &[u8]) -> (r: Result<(), FromHciBytesError>) {
        Ok(())
    }

    fn return_from_hci_bytes(data: &[u8]) -> (r: Result<(), FromHciBytesError>) {
        <() as FromHciBytes>::from_hci_bytes_complete(data)
    }
}

/// The ExitPeriodicInquiryMode command (group LINK_CONTROL, command 0x0004).
#[derive(Debug, Clone, Copy, PartialEq, Eq, PartialOrd, Ord, Hash, Default)]
pub struct ExitPeriodicInquiryMode(());

impl ExitPeriodicInquiryMode {
    /// Create a new instance of the command.
    pub fn new() -> (r: Self)
        ensures
            r.spec_params() == (),
    {
        ExitPeriodicInquiryMode(())
    }

    /// This command's opcode is group LINK_CONTROL, command 0x0004: 0x0404.
    pub proof fn lemma_opcode()
        ensures
            Self::spec_opcode() == 0x0404,
    {
        lemma_opcode_value(LINK_CONTROL, 0x0004);
    }
}

impl Cmd for ExitPeriodicInquiryMode {
    type Params = ();

    open spec fn spec_opcode() -> u16 {
        spec_opcode_raw(LINK_CONTROL, 0x0004)
    }

    closed spec fn spec_params(&self) -> () {
        self.0
    }

    fn opcode() -> (r: Opcode) {
        Opcode::new(OpcodeGroup::new(LINK_CONTROL), 0x0004)
    }

    fn params(&self) -> (r: &()) {
        &self.0
    }

    proof fn lemma_packet(&self) {
    }
}

impl WriteHci for ExitPeriodicInquiryMode {
    closed spec fn spec_hci_bytes(&self) -> Seq<u8> {
        spec_cmd_packet(spec_opcode_raw(LINK_CONTROL, 0x0004), self.0.spec_hci_bytes())
    }

    fn size(&self) -> (r: usize) {
        self.0.size() + 3
    }

    fn write_hci(&self, out: &mut Vec<u8>) {
        write_cmd_packet(Opcode::new(OpcodeGroup::new(LINK_CONTROL), 0x0004), &self.0, out);
    }
}

impl SyncCmd for ExitPeriodicInquiryMode {
    type Return = ();
    type Handle = ();

    open spec fn spec_handle_ok(data: Seq<u8>, h: ()) -> bool {
        true
    }

    open spec fn spec_handle_err(data: Seq<u8>, e: FromHciBytesError) -> bool {
        false
    }

    open spec fn spec_return_ok(data: Seq<u8>, v: ()) -> bool {
        spec_decodes_complete::<()>(data, v)
    }

    open spec fn spec_return_err(data: Seq<u8>, e: FromHciBytesError) -> bool {
        spec_decode_complete_err::<()>(data, e)
    }

    fn param_handle(&self) -> (r: ())
        ensures
            r == (),
    {
    }

    fn return_handle(data: &[u8]) -> (r: Result<(), FromHciBytesError>) {
        Ok(())
    }

    fn return_from_hci_bytes(data: &[u8]) -> (r: Result<(), FromHciBytesError>) {
        <() as FromHciBytes>::from_hci_bytes_complete(data)
    }
}

/// Parameters for the [`CreateConnection`] command.
#[derive(Debug, Clone, Copy, PartialEq, Eq, PartialOrd, Ord, Hash)]
#[allow(missing_docs)]
pub struct CreateConnectionParams {
    pub bd_addr: BdAddr,
    pub packet_type: PacketType,
    pub page_scan_repetition_mode: PageScanRepetitionMode,
    pub reserved: u8,
    pub clock_offset: ClockOffset,
    pub allow_role_switch: AllowRoleSwitch,
}

/// The value of a [`CreateConnectionParams`], with byte slices taken as sequences.
#[allow(missing_docs)]
pub struct CreateConnectionParamsView {
    pub bd_addr: Seq<u8>,
    pub packet_type: Seq<u8>,
    pub page_scan_repetition_mode: PageScanRepetitionMode,
    pub reserved: u8,
    pub clock_offset: Seq<u8>,
    pub allow_role_switch: AllowRoleSwitch,
}

impl View for CreateConnectionParams {
    type V = CreateConnectionParamsView;

    open spec fn view(&self) -> CreateConnectionParamsView {
        CreateConnectionParamsView { bd_addr: self.bd_addr@, packet_type: self.packet_type@, page_scan_repetition_mode: self.page_scan_repetition_mode@, reserved: self.reserved@, clock_offset: self.clock_offset@, allow_role_switch: self.allow_role_switch@ }
    }
}

impl WriteHci for CreateConnectionParams {
    open spec fn spec_hci_bytes(&self) -> Seq<u8> {
        self.bd_addr.spec_hci_bytes() + self.packet_type.spec_hci_bytes() + self.page_scan_repetition_mode.spec_hci_bytes() + self.reserved.spec_hci_bytes() + self.clock_offset.spec_hci_bytes() + self.allow_role_switch.spec_hci_bytes()
    }

    fn size(&self) -> (r: usize) {
        let mut n = self.bd_addr.size();
        proof {
            assert(self.bd_addr.spec_hci_bytes() + self.packet_type.spec_hci_bytes() =~= (self.bd_addr.spec_hci_bytes() + self.packet_type.spec_hci_bytes()));
        }
        n = n + self.packet_type.size();
        proof {
            assert(self.bd_addr.spec_hci_bytes() + self.packet_type.spec_hci_bytes() + self.page_scan_repetition_mode.spec_hci_bytes() =~= (self.bd_addr.spec_hci_bytes() + self.packet_type.spec_hci_bytes() + self.page_scan_repetition_mode.spec_hci_bytes()));
        }
        n = n + self.page_scan_repetition_mode.size();
        proof {
            assert(self.bd_addr.spec_hci_bytes() + self.packet_type.spec_hci_bytes() + self.page_scan_repetition_mode.spec_hci_bytes() + self.reserved.spec_hci_bytes() =~= (self.bd_addr.spec_hci_bytes() + self.packet_type.spec_hci_bytes() + self.page_scan_repetition_mode.spec_hci_bytes() + self.reserved.spec_hci_bytes()));
        }
        n = n + self.reserved.size();
        proof {
            assert(self.bd_addr.spec_hci_bytes() + self.packet_type.spec_hci_bytes() + self.page_scan_repetition_mode.spec_hci_bytes() + self.reserved.spec_hci_bytes() + self.clock_offset.spec_hci_bytes() =~= (self.bd_addr.spec_hci_bytes() + self.packet_type.spec_hci_bytes() + self.page_scan_repetition_mode.spec_hci_bytes() + self.reserved.spec_hci_bytes() + self.clock_offset.spec_hci_bytes()));
        }
        n = n + self.clock_offset.size();
        proof {
            assert(self.bd_addr.spec_hci_bytes() + self.packet_type.spec_hci_bytes() + self.page_scan_repetition_mode.spec_hci_bytes() + self.reserved.spec_hci_bytes() + self.clock_offset.spec_hci_bytes() + self.allow_role_switch.spec_hci_bytes() =~= (self.bd_addr.spec_hci_bytes() + self.packet_type.spec_hci_bytes() + self.page_scan_repetition_mode.spec_hci_bytes() + self.reserved.spec_hci_bytes() + self.clock_offset.spec_hci_bytes() + self.allow_role_switch.spec_hci_bytes()));
        }
        n = n + self.allow_role_switch.size();
        n
    }

    fn write_hci(&self, out: &mut Vec<u8>) {
        self.bd_addr.write_hci(out);
        self.packet_type.write_hci(out);
        self.page_scan_repetition_mode.write_hci(out);
        self.reserved.write_hci(out);
        self.clock_offset.write_hci(out);
        self.allow_role_switch.write_hci(out);
        proof {
            assert(out@ =~= old(out)@ + self.spec_hci_bytes());
        }
    }
}

impl CreateConnectionParams {
    /// The bytes of a `CreateConnectionParams` are the bytes of its fields, one after the
    /// other, in the order in which the fields are declared.
    pub proof fn lemma_fields_in_order(&self)
        ensures
            self.spec_hci_bytes() == self.bd_addr.spec_hci_bytes() + self.packet_type.spec_hci_bytes() + self.page_scan_repetition_mode.spec_hci_bytes() + self.reserved.spec_hci_bytes() + self.clock_offset.spec_hci_bytes() + self.allow_role_switch.spec_hci_bytes(),
    {
    }
}


/// The CreateConnection command (group LINK_CONTROL, command 0x0005).
#[derive(Debug, Clone, Copy, PartialEq, Eq, PartialOrd, Ord, Hash)]
pub struct CreateConnection(CreateConnectionParams);

impl CreateConnection {
    /// Create a new instance of the command.
    pub fn new(bd_addr: BdAddr, packet_type: PacketType, page_scan_repetition_mode: PageScanRepetitionMode, reserved: u8, clock_offset: ClockOffset, allow_role_switch: AllowRoleSwitch) -> (result: Self)
        ensures
            result.spec_params() == (CreateConnectionParams { bd_addr: bd_addr, packet_type: packet_type, page_scan_repetition_mode: page_scan_repetition_mode, reserved: reserved, clock_offset: clock_offset, allow_role_switch: allow_role_switch }),
    {
        CreateConnection(CreateConnectionParams { bd_addr: bd_addr, packet_type: packet_type, page_scan_repetition_mode: page_scan_repetition_mode, reserved: reserved, clock_offset: clock_offset, allow_role_switch: allow_role_switch })
    }

    /// This command's opcode is group LINK_CONTROL, command 0x0005: 0x0405.
    pub proof fn lemma_opcode()
        ensures
            Self::spec_opcode() == 0x0405,
    {
        lemma_opcode_value(LINK_CONTROL, 0x0005);
    }
}

impl Cmd for CreateConnection {
    type Params = CreateConnectionParams;

    open spec fn spec_opcode() -> u16 {
        spec_opcode_raw(LINK_CONTROL, 0x0005)
    }

    closed spec fn spec_params(&self) -> CreateConnectionParams {
        self.0
    }

    fn opcode() -> (r: Opcode) {
        Opcode::new(OpcodeGroup::new(LINK_CONTROL), 0x0005)
    }

    fn params(&self) -> (r: &CreateConnectionParams) {
        &self.0
    }

    proof fn lemma_packet(&self) {
    }
}

impl WriteHci for CreateConnection {
    closed spec fn spec_hci_bytes(&self) -> Seq<u8> {
        spec_cmd_packet(spec_opcode_raw(LINK_CONTROL, 0x0005), self.0.spec_hci_bytes())
    }

    fn size(&self) -> (r: usize) {
        self.0.size() + 3
    }

    fn write_hci(&self, out: &mut Vec<u8>) {
        write_cmd_packet(Opcode::new(OpcodeGroup::new(LINK_CONTROL), 0x0005), &self.0, out);
    }
}

impl SyncCmd for CreateConnection {
    type Return = ();
    type Handle = ();

    open spec fn spec_handle_ok(data: Seq<u8>, h: ()) -> bool {
        true
    }

    open spec fn spec_handle_err(data: Seq<u8>, e: FromHciBytesError) -> bool {
        false
    }

    open spec fn spec_return_ok(data: Seq<u8>, v: ()) -> bool {
        spec_decodes_complete::<()>(data, v)
    }

    open spec fn spec_return_err(data: Seq<u8>, e: FromHciBytesError) -> bool {
        spec_decode_complete_err::<()>(data, e)
    }

    fn param_handle(&self) -> (r: ())
        ensures
            r == (),
    {
    }

    fn return_handle(data: &[u8]) -> (r: Result<(), FromHciBytesError>) {
        Ok(())
    }

    fn return_from_hci_bytes(data: &[u8]) -> (r: Result<(), FromHciBytesError>) {
        <() as FromHciBytes>::from_hci_bytes_complete(data)
    }
}

/// Parameters for the [`Disconnect`] command.
#[derive(Debug, Clone, Copy, PartialEq, Eq, PartialOrd, Ord, Hash)]
#[allow(missing_docs)]
pub struct DisconnectParams {
    pub handle: ConnHandle,
    pub reason: DisconnectReason,
}

/// The value of a [`DisconnectParams`], with byte slices taken as sequences.
#[allow(missing_docs)]
pub struct DisconnectParamsView {
    pub handle: u16,
    pub reason: DisconnectReason,
}

impl View for DisconnectParams {
    type V = DisconnectParamsView;

    open spec fn view(&self) -> DisconnectParamsView {
        DisconnectParamsView { handle: self.handle@, reason: self.reason@ }
    }
}

impl WriteHci for DisconnectParams {
    open spec fn spec_hci_bytes(&self) -> Seq<u8> {
        self.handle.spec_hci_bytes() + self.reason.spec_hci_bytes()
    }

    fn size(&self) -> (r: usize) {
        let mut n = self.handle.size();
        proof {
            assert(self.handle.spec_hci_bytes() + self.reason.spec_hci_bytes() =~= (self.handle.spec_hci_bytes() + self.reason.spec_hci_bytes()));
        }
        n = n + self.reason.size();
        n
    }

    fn write_hci(&self, out: &mut Vec<u8>) {
        self.handle.write_hci(out);
        self.reason.write_hci(out);
        proof {
            assert(out@ =~= old(out)@ + self.spec_hci_bytes());
        }
    }
}

impl DisconnectParams {
    /// The bytes of a `DisconnectParams` are the bytes of its fields, one after the
    /// other, in the order in which the fields are declared.
    pub proof fn lemma_fields_in_order(&self)
        ensures
            self.spec_hci_bytes() == self.handle.spec_hci_bytes() + self.reason.spec_hci_bytes(),
    {
    }
}


/// The Disconnect command (group LINK_CONTROL, command 0x0006).
#[derive(Debug, Clone, Copy, PartialEq, Eq, PartialOrd, Ord, Hash)]
pub struct Disconnect(DisconnectParams);

impl Disconnect {
    /// Create a new instance of the command.
    pub fn new(handle: ConnHandle, reason: DisconnectReason) -> (result: Self)
        ensures
            result.spec_params() == (DisconnectParams { handle: handle, reason: reason }),
    {
        Disconnect(DisconnectParams { handle: handle, reason: reason })
    }

    /// This command's opcode is group LINK_CONTROL, command 0x0006: 0x0406.
    pub proof fn lemma_opcode()
        ensures
            Self::spec_opcode() == 0x0406,
    {
        lemma_opcode_value(LINK_CONTROL, 0x0006);
    }
}

impl Cmd for Disconnect {
    type Params = DisconnectParams;

    open spec fn spec_opcode() -> u16 {
        spec_opcode_raw(LINK_CONTROL, 0x0006)
    }

    closed spec fn spec_params(&self) -> DisconnectParams {
        self.0
    }

    fn opcode() -> (r: Opcode) {
        Opcode::new(OpcodeGroup::new(LINK_CONTROL), 0x0006)
    }

    fn params(&self) -> (r: &DisconnectParams) {
        &self.0
    }

    proof fn lemma_packet(&self) {
    }
}

impl WriteHci for Disconnect {
    closed spec fn spec_hci_bytes(&self) -> Seq<u8> {
        spec_cmd_packet(spec_opcode_raw(LINK_CONTROL, 0x0006), self.0.spec_hci_bytes())
    }

    fn size(&self) -> (r: usize) {
        self.0.size() + 3
    }

    fn write_hci(&self, out: &mut Vec<u8>) {
        write_cmd_packet(Opcode::new(OpcodeGroup::new(LINK_CONTROL), 0x0006), &self.0, out);
    }
}

impl SyncCmd for Disconnect {
    type Return = ();
    type Handle = ();

    open spec fn spec_handle_ok(data: Seq<u8>, h: ()) -> bool {
        true
    }

    open spec fn spec_handle_err(data: Seq<u8>, e: FromHciBytesError) -> bool {
        false
    }

    open spec fn spec_return_ok(data: Seq<u8>, v: ()) -> bool {
        spec_decodes_complete::<()>(data, v)
    }

    open spec fn spec_return_err(data: Seq<u8>, e: FromHciBytesError) -> bool {
        spec_decode_complete_err::<()>(data, e)
    }

    fn param_handle(&self) -> (r: ())
        ensures
            r == (),
    {
    }

    fn return_handle(data: &[u8]) -> (r: Result<(), FromHciBytesError>) {
        Ok(())
    }

    fn return_from_hci_bytes(data: &[u8]) -> (r: Result<(), FromHciBytesError>) {
        <() as FromHciBytes>::from_hci_bytes_complete(data)
    }
}

/// The CreateConnectionCancel command (group LINK_CONTROL, command 0x0008).
#[derive(Debug, Clone, Copy, PartialEq, Eq, PartialOrd, Ord, Hash)]
pub struct CreateConnectionCancel(BdAddr);

impl CreateConnectionCancel {
    /// Create a new instance of the command with the provided parameters.
    pub fn new(param: BdAddr) -> (r: Self)
        ensures
            r.spec_params() == param,
    {
        CreateConnectionCancel(param)
    }

    /// This command's opcode is group LINK_CONTROL, command 0x0008: 0x0408.
    pub proof fn lemma_opcode()
        ensures
            Self::spec_opcode() == 0x0408,
    {
        lemma_opcode_value(LINK_CONTROL, 0x0008);
    }
}

impl Cmd for CreateConnectionCancel {
    type Params = BdAddr;

    open spec fn spec_opcode() -> u16 {
        spec_opcode_raw(LINK_CONTROL, 0x0008)
    }

    closed spec fn spec_params(&self) -> BdAddr {
        self.0
    }

    fn opcode() -> (r: Opcode) {
        Opcode::new(OpcodeGroup::new(LINK_CONTROL), 0x0008)
    }

    fn params(&self) -> (r: &BdAddr) {
        &self.0
    }

    proof fn lemma_packet(&self) {
    }
}

impl WriteHci for CreateConnectionCancel {
    closed spec fn spec_hci_bytes(&self) -> Seq<u8> {
        spec_cmd_packet(spec_opcode_raw(LINK_CONTROL, 0x0008), self.0.spec_hci_bytes())
    }

    fn size(&self) -> (r: usize) {
        self.0.size() + 3
    }

    fn write_hci(&self, out: &mut Vec<u8>) {
        write_cmd_packet(Opcode::new(OpcodeGroup::new(LINK_CONTROL), 0x0008), &self.0, out);
    }
}

impl SyncCmd for CreateConnectionCancel {
    type Return = BdAddr;
    type Handle = ();

    open spec fn spec_handle_ok(data: Seq<u8>, h: ()) -> bool {
        true
    }

    open spec fn spec_handle_err(data: Seq<u8>, e: FromHciBytesError) -> bool {
        false
    }

    open spec fn spec_return_ok(data: Seq<u8>, v: BdAddr) -> bool {
        spec_decodes_complete::<BdAddr>(data, v)
    }

    open spec fn spec_return_err(data: Seq<u8>, e: FromHciBytesError) -> bool {
        spec_decode_complete_err::<BdAddr>(data, e)
    }

    fn param_handle(&self) -> (r: ())
        ensures
            r == (),
    {
    }

    fn return_handle(data: &[u8]) -> (r: Result<(), FromHciBytesError>) {
        Ok(())
    }

    fn return_from_hci_bytes(data: &[u8]) -> (r: Result<BdAddr, FromHciBytesError>) {
        <BdAddr as FromHciBytes>::from_hci_bytes_complete(data)
    }
}

/// Parameters for the [`AcceptConnectionRequest`] command.
#[derive(Debug, Clone, Copy, PartialEq, Eq, PartialOrd, Ord, Hash)]
#[allow(missing_docs)]
pub struct AcceptConnectionRequestParams {
    pub bd_addr: BdAddr,
    pub role: Role,
}

/// The value of a [`AcceptConnectionRequestParams`], with byte slices taken as sequences.
#[allow(missing_docs)]
pub struct AcceptConnectionRequestParamsView {
    pub bd_addr: Seq<u8>,
    pub role: Role,
}

impl View for AcceptConnectionRequestParams {
    type V = AcceptConnectionRequestParamsView;

    open spec fn view(&self) -> AcceptConnectionRequestParamsView {
        AcceptConnectionRequestParamsView { bd_addr: self.bd_addr@, role: self.role@ }
    }
}

impl WriteHci for AcceptConnectionRequestParams {
    open spec fn spec_hci_bytes(&self) -> Seq<u8> {
        self.bd_addr.spec_hci_bytes() + self.role.spec_hci_bytes()
    }

    fn size(&self) -> (r: usize) {
        let mut n = self.bd_addr.size();
        proof {
            assert(self.bd_addr.spec_hci_bytes() + self.role.spec_hci_bytes() =~= (self.bd_addr.spec_hci_bytes() + self.role.spec_hci_bytes()));
        }
        n = n + self.role.size();
        n
    }

    fn write_hci(&self, out: &mut Vec<u8>) {
        self.bd_addr.write_hci(out);
        self.role.write_hci(out);
        proof {
            assert(out@ =~= old(out)@ + self.spec_hci_bytes());
        }
    }
}

impl AcceptConnectionRequestParams {
    /// The bytes of a `AcceptConnectionRequestParams` are the bytes of its fields, one after the
    /// other, in the order in which the fields are declared.
    pub proof fn lemma_fields_in_order(&self)
        ensures
            self.spec_hci_bytes() == self.bd_addr.spec_hci_bytes() + self.role.spec_hci_bytes(),
    {
    }
}


/// The AcceptConnectionRequest command (group LINK_CONTROL, command 0x0009).
#[derive(Debug, Clone, Copy, PartialEq, Eq, PartialOrd, Ord, Hash)]
pub struct AcceptConnectionRequest(AcceptConnectionRequestParams);

impl AcceptConnectionRequest {
    /// Create a new instance of the command.
    pub fn new(bd_addr: BdAddr, role: Role) -> (result: Self)
        ensures
            result.spec_params() == (AcceptConnectionRequestParams { bd_addr: bd_addr, role: role }),
    {
        AcceptConnectionRequest(AcceptConnectionRequestParams { bd_addr: bd_addr, role: role })
    }

    /// This command's opcode is group LINK_CONTROL, command 0x0009: 0x0409.
    pub proof fn lemma_opcode()
        ensures
            Self::spec_opcode() == 0x0409,
    {
        lemma_opcode_value(LINK_CONTROL, 0x0009);
    }
}

impl Cmd for AcceptConnectionRequest {
    type Params = AcceptConnectionRequestParams;

    open spec fn spec_opcode() -> u16 {
        spec_opcode_raw(LINK_CONTROL, 0x0009)
    }

    closed spec fn spec_params(&self) -> AcceptConnectionRequestParams {
        self.0
    }

    fn opcode() -> (r: Opcode) {
        Opcode::new(OpcodeGroup::new(LINK_CONTROL), 0x0009)
    }

    fn params(&self) -> (r: &AcceptConnectionRequestParams) {
        &self.0
    }

    proof fn lemma_packet(&self) {
    }
}

impl WriteHci for AcceptConnectionRequest {
    closed spec fn spec_hci_bytes(&self) -> Seq<u8> {
        spec_cmd_packet(spec_opcode_raw(LINK_CONTROL, 0x0009), self.0.spec_hci_bytes())
    }

    fn size(&self) -> (r: usize) {
        self.0.size() + 3
    }

    fn write_hci(&self, out: &mut Vec<u8>) {
        write_cmd_packet(Opcode::new(OpcodeGroup::new(LINK_CONTROL), 0x0009), &self.0, out);
    }
}

impl SyncCmd for AcceptConnectionRequest {
    type Return = ();
    type Handle = ();

    open spec fn spec_handle_ok(data: Seq<u8>, h: ()) -> bool {
        true
    }

    open spec fn spec_handle_err(data: Seq<u8>, e: FromHciBytesError) -> bool {
        false
    }

    open spec fn spec_return_ok(data: Seq<u8>, v: ()) -> bool {
        spec_decodes_complete::<()>(data, v)
    }

    open spec fn spec_return_err(data: Seq<u8>, e: FromHciBytesError) -> bool {
        spec_decode_complete_err::<()>(data, e)
    }

    fn param_handle(&self) -> (r: ())
        ensures
            r == (),
    {
    }

    fn return_handle(data: &[u8]) -> (r: Result<(), FromHciBytesError>) {
        Ok(())
    }

    fn return_from_hci_bytes(data: &[u8]) -> (r: Result<(), FromHciBytesError>) {
        <() as FromHciBytes>::from_hci_bytes_complete(data)
    }
}

/// Parameters for the [`RejectConnectionRequest`] command.
#[derive(Debug, Clone, Copy, PartialEq, Eq, PartialOrd, Ord, Hash)]
#[allow(missing_docs)]
pub struct RejectConnectionRequestParams {
    pub bd_addr: BdAddr,
    pub reason: RejectReason,
}

/// The value of a [`RejectConnectionRequestParams`], with byte slices taken as sequences.
#[allow(missing_docs)]
pub struct RejectConnectionRequestParamsView {
    pub bd_addr: Seq<u8>,
    pub reason: RejectReason,
}

impl View for RejectConnectionRequestParams {
    type V = RejectConnectionRequestParamsView;

    open spec fn view(&self) -> RejectConnectionRequestParamsView {
        RejectConnectionRequestParamsView { bd_addr: self.bd_addr@, reason: self.reason@ }
    }
}

impl WriteHci for RejectConnectionRequestParams {
    open spec fn spec_hci_bytes(&self) -> Seq<u8> {
        self.bd_addr.spec_hci_bytes() + self.reason.spec_hci_bytes()
    }

    fn size(&self) -> (r: usize) {
        let mut n = self.bd_addr.size();
        proof {
            assert(self.bd_addr.spec_hci_bytes() + self.reason.spec_hci_bytes() =~= (self.bd_addr.spec_hci_bytes() + self.reason.spec_hci_bytes()));
        }
        n = n + self.reason.size();
        n
    }

    fn write_hci(&self, out: &mut Vec<u8>) {
        self.bd_addr.write_hci(out);
        self.reason.write_hci(out);
        proof {
            assert(out@ =~= old(out)@ + self.spec_hci_bytes());
        }
    }
}

impl RejectConnectionRequestParams {
    /// The bytes of a `RejectConnectionRequestParams` are the bytes of its fields, one after the
    /// other, in the order in which the fields are declared.
    pub proof fn lemma_fields_in_order(&self)
        ensures
            self.spec_hci_bytes() == self.bd_addr.spec_hci_bytes() + self.reason.spec_hci_bytes(),
    {
    }
}


/// The RejectConnectionRequest command (group LINK_CONTROL, command 0x000a).
#[derive(Debug, Clone, Copy, PartialEq, Eq, PartialOrd, Ord, Hash)]
pub struct RejectConnectionRequest(RejectConnectionRequestParams);

impl RejectConnectionRequest {
    /// Create a new instance of the command.
    pub fn new(bd_addr: BdAddr, reason: RejectReason) -> (result: Self)
        ensures
            result.spec_params() == (RejectConnectionRequestParams { bd_addr: bd_addr, reason: reason }),
    {
        RejectConnectionRequest(RejectConnectionRequestParams { bd_addr: bd_addr, reason: reason })
    }

    /// This command's opcode is group LINK_CONTROL, command 0x000a: 0x040a.
    pub proof fn lemma_opcode()
        ensures
            Self::spec_opcode() == 0x040a,
    {
        lemma_opcode_value(LINK_CONTROL, 0x000a);
    }
}

impl Cmd for RejectConnectionRequest {
    type Params = RejectConnectionRequestParams;

    open spec fn spec_opcode() -> u16 {
        spec_opcode_raw(LINK_CONTROL, 0x000a)
    }

    closed spec fn spec_params(&self) -> RejectConnectionRequestParams {
        self.0
    }

    fn opcode() -> (r: Opcode) {
        Opcode::new(OpcodeGroup::new(LINK_CONTROL), 0x000a)
    }

    fn params(&self) -> (r: &RejectConnectionRequestParams) {
        &self.0
    }

    proof fn lemma_packet(&self) {
    }
}

impl WriteHci for RejectConnectionRequest {
    closed spec fn spec_hci_bytes(&self) -> Seq<u8> {
        spec_cmd_packet(spec_opcode_raw(LINK_CONTROL, 0x000a), self.0.spec_hci_bytes())
    }

    fn size(&self) -> (r: usize) {
        self.0.size() + 3
    }

    fn write_hci(&self, out: &mut Vec<u8>) {
        write_cmd_packet(Opcode::new(OpcodeGroup::new(LINK_CONTROL), 0x000a), &self.0, out);
    }
}

impl SyncCmd for RejectConnectionRequest {
    type Return = ();
    type Handle = ();

    open spec fn spec_handle_ok(data: Seq<u8>, h: ()) -> bool {
        true
    }

    open spec fn spec_handle_err(data: Seq<u8>, e: FromHciBytesError) -> bool {
        false
    }

    open spec fn spec_return_ok(data: Seq<u8>, v: ()) -> bool {
        spec_decodes_complete::<()>(data, v)
    }

    open spec fn spec_return_err(data: Seq<u8>, e: FromHciBytesError) -> bool {
        spec_decode_complete_err::<()>(data, e)
    }

    fn param_handle(&self) -> (r: ())
        ensures
            r == (),
    {
    }

    fn return_handle(data: &[u8]) -> (r: Result<(), FromHciBytesError>) {
        Ok(())
    }

    fn return_from_hci_bytes(data: &[u8]) -> (r: Result<(), FromHciBytesError>) {
        <() as FromHciBytes>::from_hci_bytes_complete(data)
    }
}

/// Parameters for the [`LinkKeyRequestReply`] command.
#[derive(Debug, Clone, Copy, PartialEq, Eq, PartialOrd, Ord, Hash)]
#[allow(missing_docs)]
pub struct LinkKeyRequestReplyParams {
    pub bd_addr: BdAddr,
    pub link_key: [u8; 16],
}

/// The value of a [`LinkKeyRequestReplyParams`], with byte slices taken as sequences.
#[allow(missing_docs)]
pub struct LinkKeyRequestReplyParamsView {
    pub bd_addr: Seq<u8>,
    pub link_key: Seq<u8>,
}

impl View for LinkKeyRequestReplyParams {
    type V = LinkKeyRequestReplyParamsView;

    open spec fn view(&self) -> LinkKeyRequestReplyParamsView {
        LinkKeyRequestReplyParamsView { bd_addr: self.bd_addr@, link_key: self.link_key@ }
    }
}

impl WriteHci for LinkKeyRequestReplyParams {
    open spec fn spec_hci_bytes(&self) -> Seq<u8> {
        self.bd_addr.spec_hci_bytes() + self.link_key.spec_hci_bytes()
    }

    fn size(&self) -> (r: usize) {
        let mut n = self.bd_addr.size();
        proof {
            assert(self.bd_addr.spec_hci_bytes() + self.link_key.spec_hci_bytes() =~= (self.bd_addr.spec_hci_bytes() + self.link_key.spec_hci_bytes()));
        }
        n = n + self.link_key.size();
        n
    }

    fn write_hci(&self, out: &mut Vec<u8>) {
        self.bd_addr.write_hci(out);
        self.link_key.write_hci(out);
        proof {
            assert(out@ =~= old(out)@ + self.spec_hci_bytes());
        }
    }
}

impl LinkKeyRequestReplyParams {
    /// The bytes of a `LinkKeyRequestReplyParams` are the bytes of its fields, one after the
    /// other, in the order in which the fields are declared.
    pub proof fn lemma_fields_in_order(&self)
        ensures
            self.spec_hci_bytes() == self.bd_addr.spec_hci_bytes() + self.link_key.spec_hci_bytes(),
    {
    }
}


/// The LinkKeyRequestReply command (group LINK_CONTROL, command 0x000b).
#[derive(Debug, Clone, Copy, PartialEq, Eq, PartialOrd, Ord, Hash)]
pub struct LinkKeyRequestReply(LinkKeyRequestReplyParams);

impl LinkKeyRequestReply {
    /// Create a new instance of the command.
    pub fn new(bd_addr: BdAddr, link_key: [u8; 16]) -> (result: Self)
        ensures
            result.spec_params() == (LinkKeyRequestReplyParams { bd_addr: bd_addr, link_key: link_key }),
    {
        LinkKeyRequestReply(LinkKeyRequestReplyParams { bd_addr: bd_addr, link_key: link_key })
    }

    /// This command's opcode is group LINK_CONTROL, command 0x000b: 0x040b.
    pub proof fn lemma_opcode()
        ensures
            Self::spec_opcode() == 0x040b,
    {
        lemma_opcode_value(LINK_CONTROL, 0x000b);
    }
}

impl Cmd for LinkKeyRequestReply {
    type Params = LinkKeyRequestReplyParams;

    open spec fn spec_opcode() -> u16 {
        spec_opcode_raw(LINK_CONTROL, 0x000b)
    }

    closed spec fn spec_params(&self) -> LinkKeyRequestReplyParams {
        self.0
    }

    fn opcode() -> (r: Opcode) {
        Opcode::new(OpcodeGroup::new(LINK_CONTROL), 0x000b)
    }

    fn params(&self) -> (r: &LinkKeyRequestReplyParams) {
        &self.0
    }

    proof fn lemma_packet(&self) {
    }
}

impl WriteHci for LinkKeyRequestReply {
    closed spec fn spec_hci_bytes(&self) -> Seq<u8> {
        spec_cmd_packet(spec_opcode_raw(LINK_CONTROL, 0x000b), self.0.spec_hci_bytes())
    }

    fn size(&self) -> (r: usize) {
        self.0.size() + 3
    }

    fn write_hci(&self, out: &mut Vec<u8>) {
        write_cmd_packet(Opcode::new(OpcodeGroup::new(LINK_CONTROL), 0x000b), &self.0, out);
    }
}

impl SyncCmd for LinkKeyRequestReply {
    type Return = BdAddr;
    type Handle = ();

    open spec fn spec_handle_ok(data: Seq<u8>, h: ()) -> bool {
        true
    }

    open spec fn spec_handle_err(data: Seq<u8>, e: FromHciBytesError) -> bool {
        false
    }

    open spec fn spec_return_ok(data: Seq<u8>, v: BdAddr) -> bool {
        spec_decodes_complete::<BdAddr>(data, v)
    }

    open spec fn spec_return_err(data: Seq<u8>, e: FromHciBytesError) -> bool {
        spec_decode_complete_err::<BdAddr>(data, e)
    }

    fn param_handle(&self) -> (r: ())
        ensures
            r == (),
    {
    }

    fn return_handle(data: &[u8]) -> (r: Result<(), FromHciBytesError>) {
        Ok(())
    }

    fn return_from_hci_bytes(data: &[u8]) -> (r: Result<BdAddr, FromHciBytesError>) {
        <BdAddr as FromHciBytes>::from_hci_bytes_complete(data)
    }
}

/// The LinkKeyRequestNegativeReply command (group LINK_CONTROL, command 0x000c).
#[derive(Debug, Clone, Copy, PartialEq, Eq, PartialOrd, Ord, Hash)]
pub struct LinkKeyRequestNegativeReply(BdAddr);

impl LinkKeyRequestNegativeReply {
    /// Create a new instance of the command with the provided parameters.
    pub fn new(param: BdAddr) -> (r: Self)
        ensures
            r.spec_params() == param,
    {
        LinkKeyRequestNegativeReply(param)
    }

    /// This command's opcode is group LINK_CONTROL, command 0x000c: 0x040c.
    pub proof fn lemma_opcode()
        ensures
            Self::spec_opcode() == 0x040c,
    {
        lemma_opcode_value(LINK_CONTROL, 0x000c);
    }
}

impl Cmd for LinkKeyRequestNegativeReply {
    type Params = BdAddr;

    open spec fn spec_opcode() -> u16 {
        spec_opcode_raw(LINK_CONTROL, 0x000c)
    }

    closed spec fn spec_params(&self) -> BdAddr {
        self.0
    }

    fn opcode() -> (r: Opcode) {
        Opcode::new(OpcodeGroup::new(LINK_CONTROL), 0x000c)
    }

    fn params(&self) -> (r: &BdAddr) {
        &self.0
    }

    proof fn lemma_packet(&self) {
    }
}

impl WriteHci for LinkKeyRequestNegativeReply {
    closed spec fn spec_hci_bytes(&self) -> Seq<u8> {
        spec_cmd_packet(spec_opcode_raw(LINK_CONTROL, 0x000c), self.0.spec_hci_bytes())
    }

    fn size(&self) -> (r: usize) {
        self.0.size() + 3
    }

    fn write_hci(&self, out: &mut Vec<u8>) {
        write_cmd_packet(Opcode::new(OpcodeGroup::new(LINK_CONTROL), 0x000c), &self.0, out);
    }
}

impl SyncCmd for LinkKeyRequestNegativeReply {
    type Return = BdAddr;
    type Handle = ();

    open spec fn spec_handle_ok(data: Seq<u8>, h: ()) -> bool {
        true
    }

    open spec fn spec_handle_err(data: Seq<u8>, e: FromHciBytesError) -> bool {
        false
    }

    open spec fn spec_return_ok(data: Seq<u8>, v: BdAddr) -> bool {
        spec_decodes_complete::<BdAddr>(data, v)
    }

    open spec fn spec_return_err(data: Seq<u8>, e: FromHciBytesError) -> bool {
        spec_decode_complete_err::<BdAddr>(data, e)
    }

    fn param_handle(&self) -> (r: ())
        ensures
            r == (),
    {
    }

    fn return_handle(data: &[u8]) -> (r: Result<(), FromHciBytesError>) {
        Ok(())
    }

    fn return_from_hci_bytes(data: &[u8]) -> (r: Result<BdAddr, FromHciBytesError>) {
        <BdAddr as FromHciBytes>::from_hci_bytes_complete(data)
    }
}

/// Parameters for the [`PinCodeRequestReply`] command.
#[derive(Debug, Clone, Copy, PartialEq, Eq, PartialOrd, Ord, Hash)]
#[allow(missing_docs)]
pub struct PinCodeRequestReplyParams {
    pub bd_addr: BdAddr,
    pub pin_code_len: u8,
    pub pin_code: [u8; 16],
}

/// The value of a [`PinCodeRequestReplyParams`], with byte slices taken as sequences.
#[allow(missing_docs)]
pub struct PinCodeRequestReplyParamsView {
    pub bd_addr: Seq<u8>,
    pub pin_code_len: u8,
    pub pin_code: Seq<u8>,
}

impl View for PinCodeRequestReplyParams {
    type V = PinCodeRequestReplyParamsView;

    open spec fn view(&self) -> PinCodeRequestReplyParamsView {
        PinCodeRequestReplyParamsView { bd_addr: self.bd_addr@, pin_code_len: self.pin_code_len@, pin_code: self.pin_code@ }
    }
}

impl WriteHci for PinCodeRequestReplyParams {
    open spec fn spec_hci_bytes(&self) -> Seq<u8> {
        self.bd_addr.spec_hci_bytes() + self.pin_code_len.spec_hci_bytes() + self.pin_code.spec_hci_bytes()
    }

    fn size(&self) -> (r: usize) {
        let mut n = self.bd_addr.size();
        proof {
            assert(self.bd_addr.spec_hci_bytes() + self.pin_code_len.spec_hci_bytes() =~= (self.bd_addr.spec_hci_bytes() + self.pin_code_len.spec_hci_bytes()));
        }
        n = n + self.pin_code_len.size();
        proof {
            assert(self.bd_addr.spec_hci_bytes() + self.pin_code_len.spec_hci_bytes() + self.pin_code.spec_hci_bytes() =~= (self.bd_addr.spec_hci_bytes() + self.pin_code_len.spec_hci_bytes() + self.pin_code.spec_hci_bytes()));
        }
        n = n + self.pin_code.size();
        n
    }

    fn write_hci(&self, out: &mut Vec<u8>) {
        self.bd_addr.write_hci(out);
        self.pin_code_len.write_hci(out);
        self.pin_code.write_hci(out);
        proof {
            assert(out@ =~= old(out)@ + self.spec_hci_bytes());
        }
    }
}

impl PinCodeRequestReplyParams {
    /// The bytes of a `PinCodeRequestReplyParams` are the bytes of its fields, one after the
    /// other, in the order in which the fields are declared.
    pub proof fn lemma_fields_in_order(&self)
        ensures
            self.spec_hci_bytes() == self.bd_addr.spec_hci_bytes() + self.pin_code_len.spec_hci_bytes() + self.pin_code.spec_hci_bytes(),
    {
    }
}


/// The PinCodeRequestReply command (group LINK_CONTROL, command 0x000d).
#[derive(Debug, Clone, Copy, PartialEq, Eq, PartialOrd, Ord, Hash)]
pub struct PinCodeRequestReply(PinCodeRequestReplyParams);

impl PinCodeRequestReply {
    /// Create a new instance of the command.
    pub fn new(bd_addr: BdAddr, pin_code_len: u8, pin_code: [u8; 16]) -> (result: Self)
        ensures
            result.spec_params() == (PinCodeRequestReplyParams { bd_addr: bd_addr, pin_code_len: pin_code_len, pin_code: pin_code }),
    {
        PinCodeRequestReply(PinCodeRequestReplyParams { bd_addr: bd_addr, pin_code_len: pin_code_len, pin_code: pin_code })
    }

    /// This command's opcode is group LINK_CONTROL, command 0x000d: 0x040d.
    pub proof fn lemma_opcode()
        ensures
            Self::spec_opcode() == 0x040d,
    {
        lemma_opcode_value(LINK_CONTROL, 0x000d);
    }
}

impl Cmd for PinCodeRequestReply {
    type Params = PinCodeRequestReplyParams;

    open spec fn spec_opcode() -> u16 {
        spec_opcode_raw(LINK_CONTROL, 0x000d)
    }

    closed spec fn spec_params(&self) -> PinCodeRequestReplyParams {
        self.0
    }

    fn opcode() -> (r: Opcode) {
        Opcode::new(OpcodeGroup::new(LINK_CONTROL), 0x000d)
    }

    fn params(&self) -> (r: &PinCodeRequestReplyParams) {
        &self.0
    }

    proof fn lemma_packet(&self) {
    }
}

impl WriteHci for PinCodeRequestReply {
    closed spec fn spec_hci_bytes(&self) -> Seq<u8> {
        spec_cmd_packet(spec_opcode_raw(LINK_CONTROL, 0x000d), self.0.spec_hci_bytes())
    }

    fn size(&self) -> (r: usize) {
        self.0.size() + 3
    }

    fn write_hci(&self, out: &mut Vec<u8>) {
        write_cmd_packet(Opcode::new(OpcodeGroup::new(LINK_CONTROL), 0x000d), &self.0, out);
    }
}

impl SyncCmd for PinCodeRequestReply {
    type Return = BdAddr;
    type Handle = ();

    open spec fn spec_handle_ok(data: Seq<u8>, h: ()) -> bool {
        true
    }

    open spec fn spec_handle_err(data: Seq<u8>, e: FromHciBytesError) -> bool {
        false
    }

    open spec fn spec_return_ok(data: Seq<u8>, v: BdAddr) -> bool {
        spec_decodes_complete::<BdAddr>(data, v)
    }

    open spec fn spec_return_err(data: Seq<u8>, e: FromHciBytesError) -> bool {
        spec_decode_complete_err::<BdAddr>(data, e)
    }

    fn param_handle(&self) -> (r: ())
        ensures
            r == (),
    {
    }

    fn return_handle(data: &[u8]) -> (r: Result<(), FromHciBytesError>) {
        Ok(())
    }

    fn return_from_hci_bytes(data: &[u8]) -> (r: Result<BdAddr, FromHciBytesError>) {
        <BdAddr as FromHciBytes>::from_hci_bytes_complete(data)
    }
}

/// Parameters for the [`ChangeConnectionPacketType`] command.
#[derive(Debug, Clone, Copy, PartialEq, Eq, PartialOrd, Ord, Hash)]
#[allow(missing_docs)]
pub struct ChangeConnectionPacketTypeParams {
    pub handle: ConnHandle,
    pub packet_type: PacketType,
}

/// The value of a [`ChangeConnectionPacketTypeParams`], with byte slices taken as sequences.
#[allow(missing_docs)]
pub struct ChangeConnectionPacketTypeParamsView {
    pub handle: u16,
    pub packet_type: Seq<u8>,
}

impl View for ChangeConnectionPacketTypeParams {
    type V = ChangeConnectionPacketTypeParamsView;

    open spec fn view(&self) -> ChangeConnectionPacketTypeParamsView {
        ChangeConnectionPacketTypeParamsView { handle: self.handle@, packet_type: self.packet_type@ }
    }
}

impl WriteHci for ChangeConnectionPacketTypeParams {
    open spec fn spec_hci_bytes(&self) -> Seq<u8> {
        self.handle.spec_hci_bytes() + self.packet_type.spec_hci_bytes()
    }

    fn size(&self) -> (r: usize) {
        let mut n = self.handle.size();
        proof {
            assert(self.handle.spec_hci_bytes() + self.packet_type.spec_hci_bytes() =~= (self.handle.spec_hci_bytes() + self.packet_type.spec_hci_bytes()));
        }
        n = n + self.packet_type.size();
        n
    }

    fn write_hci(&self, out: &mut Vec<u8>) {
        self.handle.write_hci(out);
        self.packet_type.write_hci(out);
        proof {
            assert(out@ =~= old(out)@ + self.spec_hci_bytes());
        }
    }
}

impl ChangeConnectionPacketTypeParams {
    /// The bytes of a `ChangeConnectionPacketTypeParams` are the bytes of its fields, one after the
    /// other, in the order in which the fields are declared.
    pub proof fn lemma_fields_in_order(&self)
        ensures
            self.spec_hci_bytes() == self.handle.spec_hci_bytes() + self.packet_type.spec_hci_bytes(),
    {
    }
}


/// The ChangeConnectionPacketType command (group LINK_CONTROL, command 0x000f).
#[derive(Debug, Clone, Copy, PartialEq, Eq, PartialOrd, Ord, Hash)]
pub struct ChangeConnectionPacketType(ChangeConnectionPacketTypeParams);

impl ChangeConnectionPacketType {
    /// Create a new instance of the command.
    pub fn new(handle: ConnHandle, packet_type: PacketType) -> (result: Self)
        ensures
            result.spec_params() == (ChangeConnectionPacketTypeParams { handle: handle, packet_type: packet_type }),
    {
        ChangeConnectionPacketType(ChangeConnectionPacketTypeParams { handle: handle, packet_type: packet_type })
    }

    /// This command's opcode is group LINK_CONTROL, command 0x000f: 0x040f.
    pub proof fn lemma_opcode()
        ensures
            Self::spec_opcode() == 0x040f,
    {
        lemma_opcode_value(LINK_CONTROL, 0x000f);
    }
}

impl Cmd for ChangeConnectionPacketType {
    type Params = ChangeConnectionPacketTypeParams;

    open spec fn spec_opcode() -> u16 {
        spec_opcode_raw(LINK_CONTROL, 0x000f)
    }

    closed spec fn spec_params(&self) -> ChangeConnectionPacketTypeParams {
        self.0
    }

    fn opcode() -> (r: Opcode) {
        Opcode::new(OpcodeGroup::new(LINK_CONTROL), 0x000f)
    }

    fn params(&self) -> (r: &ChangeConnectionPacketTypeParams) {
        &self.0
    }

    proof fn lemma_packet(&self) {
    }
}

impl WriteHci for ChangeConnectionPacketType {
    closed spec fn spec_hci_bytes(&self) -> Seq<u8> {
        spec_cmd_packet(spec_opcode_raw(LINK_CONTROL, 0x000f), self.0.spec_hci_bytes())
    }

    fn size(&self) -> (r: usize) {
        self.0.size() + 3
    }

    fn write_hci(&self, out: &mut Vec<u8>) {
        write_cmd_packet(Opcode::new(OpcodeGroup::new(LINK_CONTROL), 0x000f), &self.0, out);
    }
}

impl SyncCmd for ChangeConnectionPacketType {
    type Return = ();
    type Handle = ();

    open spec fn spec_handle_ok(data: Seq<u8>, h: ()) -> bool {
        true
    }

    open spec fn spec_handle_err(data: Seq<u8>, e: FromHciBytesError) -> bool {
        false
    }

    open spec fn spec_return_ok(data: Seq<u8>, v: ()) -> bool {
        spec_decodes_complete::<()>(data, v)
    }

    open spec fn spec_return_err(data: Seq<u8>, e: FromHciBytesError) -> bool {
        spec_decode_complete_err::<()>(data, e)
    }

    fn param_handle(&self) -> (r: ())
        ensures
            r == (),
    {
    }

    fn return_handle(data: &[u8]) -> (r: Result<(), FromHciBytesError>) {
        Ok(())
    }

    fn return_from_hci_bytes(data: &[u8]) -> (r: Result<(), FromHciBytesError>) {
        <() as FromHciBytes>::from_hci_bytes_complete(data)
    }
}

/// The AuthenticationRequested command (group LINK_CONTROL, command 0x0011).
#[derive(Debug, Clone, Copy, PartialEq, Eq, PartialOrd, Ord, Hash)]
pub struct AuthenticationRequested(ConnHandle);

impl AuthenticationRequested {
    /// Create a new instance of the command with the provided parameters.
    pub fn new(param: ConnHandle) -> (r: Self)
        ensures
            r.spec_params() == param,
    {
        AuthenticationRequested(param)
    }

    /// This command's opcode is group LINK_CONTROL, command 0x0011: 0x0411.
    pub proof fn lemma_opcode()
        ensures
            Self::spec_opcode() == 0x0411,
    {
        lemma_opcode_value(LINK_CONTROL, 0x0011);
    }
}

impl Cmd for AuthenticationRequested {
    type Params = ConnHandle;

    open spec fn spec_opcode() -> u16 {
        spec_opcode_raw(LINK_CONTROL, 0x0011)
    }

    closed spec fn spec_params(&self) -> ConnHandle {
        self.0
    }

    fn opcode() -> (r: Opcode) {
        Opcode::new(OpcodeGroup::new(LINK_CONTROL), 0x0011)
    }

    fn params(&self) -> (r: &ConnHandle) {
        &self.0
    }

    proof fn lemma_packet(&self) {
    }
}

impl WriteHci for AuthenticationRequested {
    closed spec fn spec_hci_bytes(&self) -> Seq<u8> {
        spec_cmd_packet(spec_opcode_raw(LINK_CONTROL, 0x0011), self.0.spec_hci_bytes())
    }

    fn size(&self) -> (r: usize) {
        self.0.size() + 3
    }

    fn write_hci(&self, out: &mut Vec<u8>) {
        write_cmd_packet(Opcode::new(OpcodeGroup::new(LINK_CONTROL), 0x0011), &self.0, out);
    }
}

impl SyncCmd for AuthenticationRequested {
    type Return = ();
    type Handle = ();

    open spec fn spec_handle_ok(data: Seq<u8>, h: ()) -> bool {
        true
    }

    open spec fn spec_handle_err(data: Seq<u8>, e: FromHciBytesError) -> bool {
        false
    }

    open spec fn spec_return_ok(data: Seq<u8>, v: ()) -> bool {
        spec_decodes_complete::<()>(data, v)
    }

    open spec fn spec_return_err(data: Seq<u8>, e: FromHciBytesError) -> bool {
        spec_decode_complete_err::<()>(data, e)
    }

    fn param_handle(&self) -> (r: ())
        ensures
            r == (),
    {
    }

    fn return_handle(data: &[u8]) -> (r: Result<(), FromHciBytesError>) {
        Ok(())
    }

    fn return_from_hci_bytes(data: &[u8]) -> (r: Result<(), FromHciBytesError>) {
        <() as FromHciBytes>::from_hci_bytes_complete(data)
    }
}

/// Parameters for the [`SetConnectionEncryption`] command.
#[derive(Debug, Clone, Copy, PartialEq, Eq, PartialOrd, Ord, Hash)]
#[allow(missing_docs)]
pub struct SetConnectionEncryptionParams {
    pub handle: ConnHandle,
    pub encryption_enable: bool,
}

/// The value of a [`SetConnectionEncryptionParams`], with byte slices taken as sequences.
#[allow(missing_docs)]
pub struct SetConnectionEncryptionParamsView {
    pub handle: u16,
    pub encryption_enable: bool,
}

impl View for SetConnectionEncryptionParams {
    type V = SetConnectionEncryptionParamsView;

    open spec fn view(&self) -> SetConnectionEncryptionParamsView {
        SetConnectionEncryptionParamsView { handle: self.handle@, encryption_enable: self.encryption_enable@ }
    }
}

impl WriteHci for SetConnectionEncryptionParams {
    open spec fn spec_hci_bytes(&self) -> Seq<u8> {
        self.handle.spec_hci_bytes() + self.encryption_enable.spec_hci_bytes()
    }

    fn size(&self) -> (r: usize) {
        let mut n = self.handle.size();
        proof {
            assert(self.handle.spec_hci_bytes() + self.encryption_enable.spec_hci_bytes() =~= (self.handle.spec_hci_bytes() + self.encryption_enable.spec_hci_bytes()));
        }
        n = n + self.encryption_enable.size();
        n
    }

    fn write_hci(&self, out: &mut Vec<u8>) {
        self.handle.write_hci(out);
        self.encryption_enable.write_hci(out);
        proof {
            assert(out@ =~= old(out)@ + self.spec_hci_bytes());
        }
    }
}

impl SetConnectionEncryptionParams {
    /// The bytes of a `SetConnectionEncryptionParams` are the bytes of its fields, one after the
    /// other, in the order in which the fields are declared.
    pub proof fn lemma_fields_in_order(&self)
        ensures
            self.spec_hci_bytes() == self.handle.spec_hci_bytes() + self.encryption_enable.spec_hci_bytes(),
    {
    }
}


/// The SetConnectionEncryption command (group LINK_CONTROL, command 0x0013).
#[derive(Debug, Clone, Copy, PartialEq, Eq, PartialOrd, Ord, Hash)]
pub struct SetConnectionEncryption(SetConnectionEncryptionParams);

impl SetConnectionEncryption {
    /// Create a new instance of the command.
    pub fn new(handle: ConnHandle, encryption_enable: bool) -> (result: Self)
        ensures
            result.spec_params() == (SetConnectionEncryptionParams { handle: handle, encryption_enable: encryption_enable }),
    {
        SetConnectionEncryption(SetConnectionEncryptionParams { handle: handle, encryption_enable: encryption_enable })
    }

    /// This command's opcode is group LINK_CONTROL, command 0x0013: 0x0413.
    pub proof fn lemma_opcode()
        ensures
            Self::spec_opcode() == 0x0413,
    {
        lemma_opcode_value(LINK_CONTROL, 0x0013);
    }
}

impl Cmd for SetConnectionEncryption {
    type Params = SetConnectionEncryptionParams;

    open spec fn spec_opcode() -> u16 {
        spec_opcode_raw(LINK_CONTROL, 0x0013)
    }

    closed spec fn spec_params(&self) -> SetConnectionEncryptionParams {
        self.0
    }

    fn opcode() -> (r: Opcode) {
        Opcode::new(OpcodeGroup::new(LINK_CONTROL), 0x0013)
    }

    fn params(&self) -> (r: &SetConnectionEncryptionParams) {
        &self.0
    }

    proof fn lemma_packet(&self) {
    }
}

impl WriteHci for SetConnectionEncryption {
    closed spec fn spec_hci_bytes(&self) -> Seq<u8> {
        spec_cmd_packet(spec_opcode_raw(LINK_CONTROL, 0x0013), self.0.spec_hci_bytes())
    }

    fn size(&self) -> (r: usize) {
        self.0.size() + 3
    }

    fn write_hci(&self, out: &mut Vec<u8>) {
        write_cmd_packet(Opcode::new(OpcodeGroup::new(LINK_CONTROL), 0x0013), &self.0, out);
    }
}

impl SyncCmd for SetConnectionEncryption {
    type Return = ();
    type Handle = ();

    open spec fn spec_handle_ok(data: Seq<u8>, h: ()) -> bool {
        true
    }

    open spec fn spec_handle_err(data: Seq<u8>, e: FromHciBytesError) -> bool {
        false
    }

    open spec fn spec_return_ok(data: Seq<u8>, v: ()) -> bool {
        spec_decodes_complete::<()>(data, v)
    }

    open spec fn spec_return_err(data: Seq<u8>, e: FromHciBytesError) -> bool {
        spec_decode_complete_err::<()>(data, e)
    }

    fn param_handle(&self) -> (r: ())
        ensures
            r == (),
    {
    }

    fn return_handle(data: &[u8]) -> (r: Result<(), FromHciBytesError>) {
        Ok(())
    }

    fn return_from_hci_bytes(data: &[u8]) -> (r: Result<(), FromHciBytesError>) {
        <() as FromHciBytes>::from_hci_bytes_complete(data)
    }
}

/// The ChangeConnectionLinkKey command (group LINK_CONTROL, command 0x0015).
#[derive(Debug, Clone, Copy, PartialEq, Eq, PartialOrd, Ord, Hash)]
pub struct ChangeConnectionLinkKey(ConnHandle);

impl ChangeConnectionLinkKey {
    /// Create a new instance of the command with the provided parameters.
    pub fn new(param: ConnHandle) -> (r: Self)
        ensures
            r.spec_params() == param,
    {
        ChangeConnectionLinkKey(param)
    }

    /// This command's opcode is group LINK_CONTROL, command 0x0015: 0x0415.
    pub proof fn lemma_opcode()
        ensures
            Self::spec_opcode() == 0x0415,
    {
        lemma_opcode_value(LINK_CONTROL, 0x0015);
    }
}

impl Cmd for ChangeConnectionLinkKey {
    type Params = ConnHandle;

    open spec fn spec_opcode() -> u16 {
        spec_opcode_raw(LINK_CONTROL, 0x0015)
    }

    closed spec fn spec_params(&self) -> ConnHandle {
        self.0
    }

    fn opcode() -> (r: Opcode) {
        Opcode::new(OpcodeGroup::new(LINK_CONTROL), 0x0015)
    }

    fn params(&self) -> (r: &ConnHandle) {
        &self.0
    }

    proof fn lemma_packet(&self) {
    }
}

impl WriteHci for ChangeConnectionLinkKey {
    closed spec fn spec_hci_bytes(&self) -> Seq<u8> {
        spec_cmd_packet(spec_opcode_raw(LINK_CONTROL, 0x0015), self.0.spec_hci_bytes())
    }

    fn size(&self) -> (r: usize) {
        self.0.size() + 3
    }

    fn write_hci(&self, out: &mut Vec<u8>) {
        write_cmd_packet(Opcode::new(OpcodeGroup::new(LINK_CONTROL), 0x0015), &self.0, out);
    }
}

impl SyncCmd for ChangeConnectionLinkKey {
    type Return = ();
    type Handle = ();

    open spec fn spec_handle_ok(data: Seq<u8>, h: ()) -> bool {
        true
    }

    open spec fn spec_handle_err(data: Seq<u8>, e: FromHciBytesError) -> bool {
        false
    }

    open spec fn spec_return_ok(data: Seq<u8>, v: ()) -> bool {
        spec_decodes_complete::<()>(data, v)
    }

    open spec fn spec_return_err(data: Seq<u8>, e: FromHciBytesError) -> bool {
        spec_decode_complete_err::<()>(data, e)
    }

    fn param_handle(&self) -> (r: ())
        ensures
            r == (),
    {
    }

    fn return_handle(data: &[u8]) -> (r: Result<(), FromHciBytesError>) {
        Ok(())
    }

    fn return_from_hci_bytes(data: &[u8]) -> (r: Result<(), FromHciBytesError>) {
        <() as FromHciBytes>::from_hci_bytes_complete(data)
    }
}

/// Parameters for the [`LinkKeySelection`] command.
#[derive(Debug, Clone, Copy, PartialEq, Eq, PartialOrd, Ord, Hash)]
#[allow(missing_docs)]
pub struct LinkKeySelectionParams {
    pub key_flag: KeyFlag,
}

/// The value of a [`LinkKeySelectionParams`], with byte slices taken as sequences.
#[allow(missing_docs)]
pub struct LinkKeySelectionParamsView {
    pub key_flag: KeyFlag,
}

impl View for LinkKeySelectionParams {
    type V = LinkKeySelectionParamsView;

    open spec fn view(&self) -> LinkKeySelectionParamsView {
        LinkKeySelectionParamsView { key_flag: self.key_flag@ }
    }
}

impl WriteHci for LinkKeySelectionParams {
    open spec fn spec_hci_bytes(&self) -> Seq<u8> {
        self.key_flag.spec_hci_bytes()
    }

    fn size(&self) -> (r: usize) {
        self.key_flag.size()
    }

    fn write_hci(&self, out: &mut Vec<u8>) {
        self.key_flag.write_hci(out);
        proof {
            assert(out@ =~= old(out)@ + self.spec_hci_bytes());
        }
    }
}

impl LinkKeySelectionParams {
    /// The bytes of a `LinkKeySelectionParams` are the bytes of its fields, one after the
    /// other, in the order in which the fields are declared.
    pub proof fn lemma_fields_in_order(&self)
        ensures
            self.spec_hci_bytes() == self.key_flag.spec_hci_bytes(),
    {
    }
}


/// The LinkKeySelection command (group LINK_CONTROL, command 0x0017).
#[derive(Debug, Clone, Copy, PartialEq, Eq, PartialOrd, Ord, Hash)]
pub struct LinkKeySelection(LinkKeySelectionParams);

impl LinkKeySelection {
    /// Create a new instance of the command.
    pub fn new(key_flag: KeyFlag) -> (result: Self)
        ensures
            result.spec_params() == (LinkKeySelectionParams { key_flag: key_flag }),
    {
        LinkKeySelection(LinkKeySelectionParams { key_flag: key_flag })
    }

    /// This command's opcode is group LINK_CONTROL, command 0x0017: 0x0417.
    pub proof fn lemma_opcode()
        ensures
            Self::spec_opcode() == 0x0417,
    {
        lemma_opcode_value(LINK_CONTROL, 0x0017);
    }
}

impl Cmd for LinkKeySelection {
    type Params = LinkKeySelectionParams;

    open spec fn spec_opcode() -> u16 {
        spec_opcode_raw(LINK_CONTROL, 0x0017)
    }

    closed spec fn spec_params(&self) -> LinkKeySelectionParams {
        self.0
    }

    fn opcode() -> (r: Opcode) {
        Opcode::new(OpcodeGroup::new(LINK_CONTROL), 0x0017)
    }

    fn params(&self) -> (r: &LinkKeySelectionParams) {
        &self.0
    }

    proof fn lemma_packet(&self) {
    }
}

impl WriteHci for LinkKeySelection {
    closed spec fn spec_hci_bytes(&self) -> Seq<u8> {
        spec_cmd_packet(spec_opcode_raw(LINK_CONTROL, 0x0017), self.0.spec_hci_bytes())
    }

    fn size(&self) -> (r: usize) {
        self.0.size() + 3
    }

    fn write_hci(&self, out: &mut Vec<u8>) {
        write_cmd_packet(Opcode::new(OpcodeGroup::new(LINK_CONTROL), 0x0017), &self.0, out);
    }
}

impl SyncCmd for LinkKeySelection {
    type Return = ();
    type Handle = ();

    open spec fn spec_handle_ok(data: Seq<u8>, h: ()) -> bool {
        true
    }

    open spec fn spec_handle_err(data: Seq<u8>, e: FromHciBytesError) -> bool {
        false
    }

    open spec fn spec_return_ok(data: Seq<u8>, v: ()) -> bool {
        spec_decodes_complete::<()>(data, v)
    }

    open spec fn spec_return_err(data: Seq<u8>, e: FromHciBytesError) -> bool {
        spec_decode_complete_err::<()>(data, e)
    }

    fn param_handle(&self) -> (r: ())
        ensures
            r == (),
    {
    }

    fn return_handle(data: &[u8]) -> (r: Result<(), FromHciBytesError>) {
        Ok(())
    }

    fn return_from_hci_bytes(data: &[u8]) -> (r: Result<(), FromHciBytesError>) {
        <() as FromHciBytes>::from_hci_bytes_complete(data)
    }
}

/// Parameters for the [`RemoteNameRequest`] command.
#[derive(Debug, Clone, Copy, PartialEq, Eq, PartialOrd, Ord, Hash)]
#[allow(missing_docs)]
pub struct RemoteNameRequestParams {
    pub bd_addr: BdAddr,
    pub page_scan_repetition_mode: PageScanRepetitionMode,
    pub reserved: u8,
    pub clock_offset: ClockOffset,
}

/// The value of a [`RemoteNameRequestParams`], with byte slices taken as sequences.
#[allow(missing_docs)]
pub struct RemoteNameRequestParamsView {
    pub bd_addr: Seq<u8>,
    pub page_scan_repetition_mode: PageScanRepetitionMode,
    pub reserved: u8,
    pub clock_offset: Seq<u8>,
}

impl View for RemoteNameRequestParams {
    type V = RemoteNameRequestParamsView;

    open spec fn view(&self) -> RemoteNameRequestParamsView {
        RemoteNameRequestParamsView { bd_addr: self.bd_addr@, page_scan_repetition_mode: self.page_scan_repetition_mode@, reserved: self.reserved@, clock_offset: self.clock_offset@ }
    }
}

impl WriteHci for RemoteNameRequestParams {
    open spec fn spec_hci_bytes(&self) -> Seq<u8> {
        self.bd_addr.spec_hci_bytes() + self.page_scan_repetition_mode.spec_hci_bytes() + self.reserved.spec_hci_bytes() + self.clock_offset.spec_hci_bytes()
    }

    fn size(&self) -> (r: usize) {
        let mut n = self.bd_addr.size();
        proof {
            assert(self.bd_addr.spec_hci_bytes() + self.page_scan_repetition_mode.spec_hci_bytes() =~= (self.bd_addr.spec_hci_bytes() + self.page_scan_repetition_mode.spec_hci_bytes()));
        }
        n = n + self.page_scan_repetition_mode.size();
        proof {
            assert(self.bd_addr.spec_hci_bytes() + self.page_scan_repetition_mode.spec_hci_bytes() + self.reserved.spec_hci_bytes() =~= (self.bd_addr.spec_hci_bytes() + self.page_scan_repetition_mode.spec_hci_bytes() + self.reserved.spec_hci_bytes()));
        }
        n = n + self.reserved.size();
        proof {
            assert(self.bd_addr.spec_hci_bytes() + self.page_scan_repetition_mode.spec_hci_bytes() + self.reserved.spec_hci_bytes() + self.clock_offset.spec_hci_bytes() =~= (self.bd_addr.spec_hci_bytes() + self.page_scan_repetition_mode.spec_hci_bytes() + self.reserved.spec_hci_bytes() + self.clock_offset.spec_hci_bytes()));
        }
        n = n + self.clock_offset.size();
        n
    }

    fn write_hci(&self, out: &mut Vec<u8>) {
        self.bd_addr.write_hci(out);
        self.page_scan_repetition_mode.write_hci(out);
        self.reserved.write_hci(out);
        self.clock_offset.write_hci(out);
        proof {
            assert(out@ =~= old(out)@ + self.spec_hci_bytes());
        }
    }
}

impl RemoteNameRequestParams {
    /// The bytes of a `RemoteNameRequestParams` are the bytes of its fields, one after the
    /// other, in the order in which the fields are declared.
    pub proof fn lemma_fields_in_order(&self)
        ensures
            self.spec_hci_bytes() == self.bd_addr.spec_hci_bytes() + self.page_scan_repetition_mode.spec_hci_bytes() + self.reserved.spec_hci_bytes() + self.clock_offset.spec_hci_bytes(),
    {
    }
}


/// The RemoteNameRequest command (group LINK_CONTROL, command 0x0019).
#[derive(Debug, Clone, Copy, PartialEq, Eq, PartialOrd, Ord, Hash)]
pub struct RemoteNameRequest(RemoteNameRequestParams);

impl RemoteNameRequest {
    /// Create a new instance of the command.
    pub fn new(bd_addr: BdAddr, page_scan_repetition_mode: PageScanRepetitionMode, reserved: u8, clock_offset: ClockOffset) -> (result: Self)
        ensures
            result.spec_params() == (RemoteNameRequestParams { bd_addr: bd_addr, page_scan_repetition_mode: page_scan_repetition_mode, reserved: reserved, clock_offset: clock_offset }),
    {
        RemoteNameRequest(RemoteNameRequestParams { bd_addr: bd_addr, page_scan_repetition_mode: page_scan_repetition_mode, reserved: reserved, clock_offset: clock_offset })
    }

    /// This command's opcode is group LINK_CONTROL, command 0x0019: 0x0419.
    pub proof fn lemma_opcode()
        ensures
            Self::spec_opcode() == 0x0419,
    {
        lemma_opcode_value(LINK_CONTROL, 0x0019);
    }
}

impl Cmd for RemoteNameRequest {
    type Params = RemoteNameRequestParams;

    open spec fn spec_opcode() -> u16 {
        spec_opcode_raw(LINK_CONTROL, 0x0019)
    }

    closed spec fn spec_params(&self) -> RemoteNameRequestParams {
        self.0
    }

    fn opcode() -> (r: Opcode) {
        Opcode::new(OpcodeGroup::new(LINK_CONTROL), 0x0019)
    }

    fn params(&self) -> (r: &RemoteNameRequestParams) {
        &self.0
    }

    proof fn lemma_packet(&self) {
    }
}

impl WriteHci for RemoteNameRequest {
    closed spec fn spec_hci_bytes(&self) -> Seq<u8> {
        spec_cmd_packet(spec_opcode_raw(LINK_CONTROL, 0x0019), self.0.spec_hci_bytes())
    }

    fn size(&self) -> (r: usize) {
        self.0.size() + 3
    }

    fn write_hci(&self, out: &mut Vec<u8>) {
        write_cmd_packet(Opcode::new(OpcodeGroup::new(LINK_CONTROL), 0x0019), &self.0, out);
    }
}

impl SyncCmd for RemoteNameRequest {
    type Return = ();
    type Handle = ();

    open spec fn spec_handle_ok(data: Seq<u8>, h: ()) -> bool {
        true
    }

    open spec fn spec_handle_err(data: Seq<u8>, e: FromHciBytesError) -> bool {
        false
    }

    open spec fn spec_return_ok(data: Seq<u8>, v: ()) -> bool {
        spec_decodes_complete::<()>(data, v)
    }

    open spec fn spec_return_err(data: Seq<u8>, e: FromHciBytesError) -> bool {
        spec_decode_complete_err::<()>(data, e)
    }

    fn param_handle(&self) -> (r: ())
        ensures
            r == (),
    {
    }

    fn return_handle(data: &[u8]) -> (r: Result<(), FromHciBytesError>) {
        Ok(())
    }

    fn return_from_hci_bytes(data: &[u8]) -> (r: Result<(), FromHciBytesError>) {
        <() as FromHciBytes>::from_hci_bytes_complete(data)
    }
}

/// The RemoteNameRequestCancel command (group LINK_CONTROL, command 0x001a).
#[derive(Debug, Clone, Copy, PartialEq, Eq, PartialOrd, Ord, Hash)]
pub struct RemoteNameRequestCancel(BdAddr);

impl RemoteNameRequestCancel {
    /// Create a new instance of the command with the provided parameters.
    pub fn new(param: BdAddr) -> (r: Self)
        ensures
            r.spec_params() == param,
    {
        RemoteNameRequestCancel(param)
    }

    /// This command's opcode is group LINK_CONTROL, command 0x001a: 0x041a.
    pub proof fn lemma_opcode()
        ensures
            Self::spec_opcode() == 0x041a,
    {
        lemma_opcode_value(LINK_CONTROL, 0x001a);
    }
}

impl Cmd for RemoteNameRequestCancel {
    type Params = BdAddr;

    open spec fn spec_opcode() -> u16 {
        spec_opcode_raw(LINK_CONTROL, 0x001a)
    }

    closed spec fn spec_params(&self) -> BdAddr {
        self.0
    }

    fn opcode() -> (r: Opcode) {
        Opcode::new(OpcodeGroup::new(LINK_CONTROL), 0x001a)
    }

    fn params(&self) -> (r: &BdAddr) {
        &self.0
    }

    proof fn lemma_packet(&self) {
    }
}

impl WriteHci for RemoteNameRequestCancel {
    closed spec fn spec_hci_bytes(&self) -> Seq<u8> {
        spec_cmd_packet(spec_opcode_raw(LINK_CONTROL, 0x001a), self.0.spec_hci_bytes())
    }

    fn size(&self) -> (r: usize) {
        self.0.size() + 3
    }

    fn write_hci(&self, out: &mut Vec<u8>) {
        write_cmd_packet(Opcode::new(OpcodeGroup::new(LINK_CONTROL), 0x001a), &self.0, out);
    }
}

impl SyncCmd for RemoteNameRequestCancel {
    type Return = BdAddr;
    type Handle = ();

    open spec fn spec_handle_ok(data: Seq<u8>, h: ()) -> bool {
        true
    }

    open spec fn spec_handle_err(data: Seq<u8>, e: FromHciBytesError) -> bool {
        false
    }

    open spec fn spec_return_ok(data: Seq<u8>, v: BdAddr) -> bool {
        spec_decodes_complete::<BdAddr>(data, v)
    }

    open spec fn spec_return_err(data: Seq<u8>, e: FromHciBytesError) -> bool {
        spec_decode_complete_err::<BdAddr>(data, e)
    }

    fn param_handle(&self) -> (r: ())
        ensures
            r == (),
    {
    }

    fn return_handle(data: &[u8]) -> (r: Result<(), FromHciBytesError>) {
        Ok(())
    }

    fn return_from_hci_bytes(data: &[u8]) -> (r: Result<BdAddr, FromHciBytesError>) {
        <BdAddr as FromHciBytes>::from_hci_bytes_complete(data)
    }
}

/// The ReadRemoteSupportedFeatures command (group LINK_CONTROL, command 0x001b).
#[derive(Debug, Clone, Copy, PartialEq, Eq, PartialOrd, Ord, Hash)]
pub struct ReadRemoteSupportedFeatures(ConnHandle);

impl ReadRemoteSupportedFeatures {
    /// Create a new instance of the command with the provided parameters.
    pub fn new(param: ConnHandle) -> (r: Self)
        ensures
            r.spec_params() == param,
    {
        ReadRemoteSupportedFeatures(param)
    }

    /// This command's opcode is group LINK_CONTROL, command 0x001b: 0x041b.
    pub proof fn lemma_opcode()
        ensures
            Self::spec_opcode() == 0x041b,
    {
        lemma_opcode_value(LINK_CONTROL, 0x001b);
    }
}

impl Cmd for ReadRemoteSupportedFeatures {
    type Params = ConnHandle;

    open spec fn spec_opcode() -> u16 {
        spec_opcode_raw(LINK_CONTROL, 0x001b)
    }

    closed spec fn spec_params(&self) -> ConnHandle {
        self.0
    }

    fn opcode() -> (r: Opcode) {
        Opcode::new(OpcodeGroup::new(LINK_CONTROL), 0x001b)
    }

    fn params(&self) -> (r: &ConnHandle) {
        &self.0
    }

    proof fn lemma_packet(&self) {
    }
}

impl WriteHci for ReadRemoteSupportedFeatures {
    closed spec fn spec_hci_bytes(&self) -> Seq<u8> {
        spec_cmd_packet(spec_opcode_raw(LINK_CONTROL, 0x001b), self.0.spec_hci_bytes())
    }

    fn size(&self) -> (r: usize) {
        self.0.size() + 3
    }

    fn write_hci(&self, out: &mut Vec<u8>) {
        write_cmd_packet(Opcode::new(OpcodeGroup::new(LINK_CONTROL), 0x001b), &self.0, out);
    }
}

impl SyncCmd for ReadRemoteSupportedFeatures {
    type Return = ();
    type Handle = ();

    open spec fn spec_handle_ok(data: Seq<u8>, h: ()) -> bool {
        true
    }

    open spec fn spec_handle_err(data: Seq<u8>, e: FromHciBytesError) -> bool {
        false
    }

    open spec fn spec_return_ok(data: Seq<u8>, v: ()) -> bool {
        spec_decodes_complete::<()>(data, v)
    }

    open spec fn spec_return_err(data: Seq<u8>, e: FromHciBytesError) -> bool {
        spec_decode_complete_err::<()>(data, e)
    }

    fn param_handle(&self) -> (r: ())
        ensures
            r == (),
    {
    }

    fn return_handle(data: &[u8]) -> (r: Result<(), FromHciBytesError>) {
        Ok(())
    }

    fn return_from_hci_bytes(data: &[u8]) -> (r: Result<(), FromHciBytesError>) {
        <() as FromHciBytes>::from_hci_bytes_complete(data)
    }
}

/// Parameters for the [`ReadRemoteExtendedFeatures`] command.
#[derive(Debug, Clone, Copy, PartialEq, Eq, PartialOrd, Ord, Hash)]
#[allow(missing_docs)]
pub struct ReadRemoteExtendedFeaturesParams {
    pub handle: ConnHandle,
    pub page_number: u8,
}

/// The value of a [`ReadRemoteExtendedFeaturesParams`], with byte slices taken as sequences.
#[allow(missing_docs)]
pub struct ReadRemoteExtendedFeaturesParamsView {
    pub handle: u16,
    pub page_number: u8,
}

impl View for ReadRemoteExtendedFeaturesParams {
    type V = ReadRemoteExtendedFeaturesParamsView;

    open spec fn view(&self) -> ReadRemoteExtendedFeaturesParamsView {
        ReadRemoteExtendedFeaturesParamsView { handle: self.handle@, page_number: self.page_number@ }
    }
}

impl WriteHci for ReadRemoteExtendedFeaturesParams {
    open spec fn spec_hci_bytes(&self) -> Seq<u8> {
        self.handle.spec_hci_bytes() + self.page_number.spec_hci_bytes()
    }

    fn size(&self) -> (r: usize) {
        let mut n = self.handle.size();
        proof {
            assert(self.handle.spec_hci_bytes() + self.page_number.spec_hci_bytes() =~= (self.handle.spec_hci_bytes() + self.page_number.spec_hci_bytes()));
        }
        n = n + self.page_number.size();
        n
    }

    fn write_hci(&self, out: &mut Vec<u8>) {
        self.handle.write_hci(out);
        self.page_number.write_hci(out);
        proof {
            assert(out@ =~= old(out)@ + self.spec_hci_bytes());
        }
    }
}

impl ReadRemoteExtendedFeaturesParams {
    /// The bytes of a `ReadRemoteExtendedFeaturesParams` are the bytes of its fields, one after the
    /// other, in the order in which the fields are declared.
    pub proof fn lemma_fields_in_order(&self)
        ensures
            self.spec_hci_bytes() == self.handle.spec_hci_bytes() + self.page_number.spec_hci_bytes(),
    {
    }
}


/// The ReadRemoteExtendedFeatures command (group LINK_CONTROL, command 0x001c).
#[derive(Debug, Clone, Copy, PartialEq, Eq, PartialOrd, Ord, Hash)]
pub struct ReadRemoteExtendedFeatures(ReadRemoteExtendedFeaturesParams);

impl ReadRemoteExtendedFeatures {
    /// Create a new instance of the command.
    pub fn new(handle: ConnHandle, page_number: u8) -> (result: Self)
        ensures
            result.spec_params() == (ReadRemoteExtendedFeaturesParams { handle: handle, page_number: page_number }),
    {
        ReadRemoteExtendedFeatures(ReadRemoteExtendedFeaturesParams { handle: handle, page_number: page_number })
    }

    /// This command's opcode is group LINK_CONTROL, command 0x001c: 0x041c.
    pub proof fn lemma_opcode()
        ensures
            Self::spec_opcode() == 0x041c,
    {
        lemma_opcode_value(LINK_CONTROL, 0x001c);
    }
}

impl Cmd for ReadRemoteExtendedFeatures {
    type Params = ReadRemoteExtendedFeaturesParams;

    open spec fn spec_opcode() -> u16 {
        spec_opcode_raw(LINK_CONTROL, 0x001c)
    }

    closed spec fn spec_params(&self) -> ReadRemoteExtendedFeaturesParams {
        self.0
    }

    fn opcode() -> (r: Opcode) {
        Opcode::new(OpcodeGroup::new(LINK_CONTROL), 0x001c)
    }

    fn params(&self) -> (r: &ReadRemoteExtendedFeaturesParams) {
        &self.0
    }

    proof fn lemma_packet(&self) {
    }
}

impl WriteHci for ReadRemoteExtendedFeatures {
    closed spec fn spec_hci_bytes(&self) -> Seq<u8> {
        spec_cmd_packet(spec_opcode_raw(LINK_CONTROL, 0x001c), self.0.spec_hci_bytes())
    }

    fn size(&self) -> (r: usize) {
        self.0.size() + 3
    }

    fn write_hci(&self, out: &mut Vec<u8>) {
        write_cmd_packet(Opcode::new(OpcodeGroup::new(LINK_CONTROL), 0x001c), &self.0, out);
    }
}

impl SyncCmd for ReadRemoteExtendedFeatures {
    type Return = ();
    type Handle = ();

    open spec fn spec_handle_ok(data: Seq<u8>, h: ()) -> bool {
        true
    }

    open spec fn spec_handle_err(data: Seq<u8>, e: FromHciBytesError) -> bool {
        false
    }

    open spec fn spec_return_ok(data: Seq<u8>, v: ()) -> bool {
        spec_decodes_complete::<()>(data, v)
    }

    open spec fn spec_return_err(data: Seq<u8>, e: FromHciBytesError) -> bool {
        spec_decode_complete_err::<()>(data, e)
    }

    fn param_handle(&self) -> (r: ())
        ensures
            r == (),
    {
    }

    fn return_handle(data: &[u8]) -> (r: Result<(), FromHciBytesError>) {
        Ok(())
    }

    fn return_from_hci_bytes(data: &[u8]) -> (r: Result<(), FromHciBytesError>) {
        <() as FromHciBytes>::from_hci_bytes_complete(data)
    }
}

/// The ReadRemoteVersionInformation command (group LINK_CONTROL, command 0x001d).
#[derive(Debug, Clone, Copy, PartialEq, Eq, PartialOrd, Ord, Hash)]
pub struct ReadRemoteVersionInformation(ConnHandle);

impl ReadRemoteVersionInformation {
    /// Create a new instance of the command with the provided parameters.
    pub fn new(param: ConnHandle) -> (r: Self)
        ensures
            r.spec_params() == param,
    {
        ReadRemoteVersionInformation(param)
    }

    /// This command's opcode is group LINK_CONTROL, command 0x001d: 0x041d.
    pub proof fn lemma_opcode()
        ensures
            Self::spec_opcode() == 0x041d,
    {
        lemma_opcode_value(LINK_CONTROL, 0x001d);
    }
}

impl Cmd for ReadRemoteVersionInformation {
    type Params = ConnHandle;

    open spec fn spec_opcode() -> u16 {
        spec_opcode_raw(LINK_CONTROL, 0x001d)
    }

    closed spec fn spec_params(&self) -> ConnHandle {
        self.0
    }

    fn opcode() -> (r: Opcode) {
        Opcode::new(OpcodeGroup::new(LINK_CONTROL), 0x001d)
    }

    fn params(&self) -> (r: &ConnHandle) {
        &self.0
    }

    proof fn lemma_packet(&self) {
    }
}

impl WriteHci for ReadRemoteVersionInformation {
    closed spec fn spec_hci_bytes(&self) -> Seq<u8> {
        spec_cmd_packet(spec_opcode_raw(LINK_CONTROL, 0x001d), self.0.spec_hci_bytes())
    }

    fn size(&self) -> (r: usize) {
        self.0.size() + 3
    }

    fn write_hci(&self, out: &mut Vec<u8>) {
        write_cmd_packet(Opcode::new(OpcodeGroup::new(LINK_CONTROL), 0x001d), &self.0, out);
    }
}

impl AsyncCmd for ReadRemoteVersionInformation {
}

/// The ReadClockOffset command (group LINK_CONTROL, command 0x001f).
#[derive(Debug, Clone, Copy, PartialEq, Eq, PartialOrd, Ord, Hash)]
pub struct ReadClockOffset(ConnHandle);

impl ReadClockOffset {
    /// Create a new instance of the command with the provided parameters.
    pub fn new(param: ConnHandle) -> (r: Self)
        ensures
            r.spec_params() == param,
    {
        ReadClockOffset(param)
    }

    /// This command's opcode is group LINK_CONTROL, command 0x001f: 0x041f.
    pub proof fn lemma_opcode()
        ensures
            Self::spec_opcode() == 0x041f,
    {
        lemma_opcode_value(LINK_CONTROL, 0x001f);
    }
}

impl Cmd for ReadClockOffset {
    type Params = ConnHandle;

    open spec fn spec_opcode() -> u16 {
        spec_opcode_raw(LINK_CONTROL, 0x001f)
    }

    closed spec fn spec_params(&self) -> ConnHandle {
        self.0
    }

    fn opcode() -> (r: Opcode) {
        Opcode::new(OpcodeGroup::new(LINK_CONTROL), 0x001f)
    }

    fn params(&self) -> (r: &ConnHandle) {
        &self.0
    }

    proof fn lemma_packet(&self) {
    }
}

impl WriteHci for ReadClockOffset {
    closed spec fn spec_hci_bytes(&self) -> Seq<u8> {
        spec_cmd_packet(spec_opcode_raw(LINK_CONTROL, 0x001f), self.0.spec_hci_bytes())
    }

    fn size(&self) -> (r: usize) {
        self.0.size() + 3
    }

    fn write_hci(&self, out: &mut Vec<u8>) {
        write_cmd_packet(Opcode::new(OpcodeGroup::new(LINK_CONTROL), 0x001f), &self.0, out);
    }
}

impl SyncCmd for ReadClockOffset {
    type Return = ();
    type Handle = ();

    open spec fn spec_handle_ok(data: Seq<u8>, h: ()) -> bool {
        true
    }

    open spec fn spec_handle_err(data: Seq<u8>, e: FromHciBytesError) -> bool {
        false
    }

    open spec fn spec_return_ok(data: Seq<u8>, v: ()) -> bool {
        spec_decodes_complete::<()>(data, v)
    }

    open spec fn spec_return_err(data: Seq<u8>, e: FromHciBytesError) -> bool {
        spec_decode_complete_err::<()>(data, e)
    }

    fn param_handle(&self) -> (r: ())
        ensures
            r == (),
    {
    }

    fn return_handle(data: &[u8]) -> (r: Result<(), FromHciBytesError>) {
        Ok(())
    }

    fn return_from_hci_bytes(data: &[u8]) -> (r: Result<(), FromHciBytesError>) {
        <() as FromHciBytes>::from_hci_bytes_complete(data)
    }
}

/// Return parameters for the [`ReadLmpHandle`] command.
#[derive(Debug, Clone, Copy, PartialEq, Eq, PartialOrd, Ord, Hash)]
#[allow(missing_docs)]
pub struct ReadLmpHandleReturn {
    pub handle: ConnHandle,
    pub lmp_handle: u8,
    pub reserved: u32,
}

/// The value of a [`ReadLmpHandleReturn`], with byte slices taken as sequences.
#[allow(missing_docs)]
pub struct ReadLmpHandleReturnView {
    pub handle: u16,
    pub lmp_handle: u8,
    pub reserved: u32,
}

impl View for ReadLmpHandleReturn {
    type V = ReadLmpHandleReturnView;

    open spec fn view(&self) -> ReadLmpHandleReturnView {
        ReadLmpHandleReturnView { handle: self.handle@, lmp_handle: self.lmp_handle@, reserved: self.reserved@ }
    }
}

impl<'de> FromHciBytes<'de> for ReadLmpHandleReturn {
    open spec fn spec_from_hci_bytes(data: Seq<u8>) -> Result<(ReadLmpHandleReturnView, nat), FromHciBytesError> {
        if data.len() < 7 {
            Err(FromHciBytesError::InvalidSize)
        } else {
            match <ConnHandle as FromHciBytes<'de>>::spec_from_hci_bytes(data) {
                Err(e) => Err(e),
                Ok((v_handle, n_handle)) => {
                    match <u8 as FromHciBytes<'de>>::spec_from_hci_bytes(data.skip(n_handle as int)) {
                        Err(e) => Err(e),
                        Ok((v_lmp_handle, n_lmp_handle)) => {
                            match <u32 as FromHciBytes<'de>>::spec_from_hci_bytes(data.skip(n_handle as int).skip(n_lmp_handle as int)) {
                                Err(e) => Err(e),
                                Ok((v_reserved, n_reserved)) => {
                                    Ok((ReadLmpHandleReturnView { handle: v_handle, lmp_handle: v_lmp_handle, reserved: v_reserved }, (n_handle + n_lmp_handle + n_reserved) as nat))
                                },
                            }
                        },
                    }
                },
            }
        }
    }

    fn from_hci_bytes(data: &'de [u8]) -> (r: Result<(ReadLmpHandleReturn, &'de [u8]), FromHciBytesError>) {
        if data.len() < 7 {
            return Err(FromHciBytesError::InvalidSize);
        }
        let (v_handle, rest_handle) = match <ConnHandle as FromHciBytes<'de>>::from_hci_bytes(data) {
            Ok(x) => x,
            Err(e) => return Err(e),
        };
        let (v_lmp_handle, rest_lmp_handle) = match <u8 as FromHciBytes<'de>>::from_hci_bytes(rest_handle) {
            Ok(x) => x,
            Err(e) => return Err(e),
        };
        proof {
            lemma_skip_skip(data@, (data@.len() - rest_handle@.len()) as int, (rest_handle@.len() - rest_lmp_handle@.len()) as int);
        }
        let (v_reserved, rest_reserved) = match <u32 as FromHciBytes<'de>>::from_hci_bytes(rest_lmp_handle) {
            Ok(x) => x,
            Err(e) => return Err(e),
        };
        proof {
            lemma_skip_skip(data@, (data@.len() - rest_lmp_handle@.len()) as int, (rest_lmp_handle@.len() - rest_reserved@.len()) as int);
        }
        Ok((ReadLmpHandleReturn { handle: v_handle, lmp_handle: v_lmp_handle, reserved: v_reserved }, rest_reserved))
    }
}

impl WriteHci for ReadLmpHandleReturn {
    open spec fn spec_hci_bytes(&self) -> Seq<u8> {
        self.handle.spec_hci_bytes() + self.lmp_handle.spec_hci_bytes() + self.reserved.spec_hci_bytes()
    }

    fn size(&self) -> (r: usize) {
        let mut n = self.handle.size();
        proof {
            assert(self.handle.spec_hci_bytes() + self.lmp_handle.spec_hci_bytes() =~= (self.handle.spec_hci_bytes() + self.lmp_handle.spec_hci_bytes()));
        }
        n = n + self.lmp_handle.size();
        proof {
            assert(self.handle.spec_hci_bytes() + self.lmp_handle.spec_hci_bytes() + self.reserved.spec_hci_bytes() =~= (self.handle.spec_hci_bytes() + self.lmp_handle.spec_hci_bytes() + self.reserved.spec_hci_bytes()));
        }
        n = n + self.reserved.size();
        n
    }

    fn write_hci(&self, out: &mut Vec<u8>) {
        self.handle.write_hci(out);
        self.lmp_handle.write_hci(out);
        self.reserved.write_hci(out);
        proof {
            assert(out@ =~= old(out)@ + self.spec_hci_bytes());
        }
    }
}

impl ReadLmpHandleReturn {
    /// The bytes of a `ReadLmpHandleReturn` are the bytes of its fields, one after the
    /// other, in the order in which the fields are declared.
    pub proof fn lemma_fields_in_order(&self)
        ensures
            self.spec_hci_bytes() == self.handle.spec_hci_bytes() + self.lmp_handle.spec_hci_bytes() + self.reserved.spec_hci_bytes(),
    {
    }
}

impl FixedSizeValue for ReadLmpHandleReturn {
    open spec fn spec_size() -> nat {
        7
    }

    proof fn lemma_fixed_size(&self) {
        self.handle.lemma_fixed_size();
        self.lmp_handle.lemma_fixed_size();
        self.reserved.lemma_fixed_size();
    }
}

impl<'de> HciCodec<'de> for ReadLmpHandleReturn {
    open spec fn spec_encodable(&self) -> bool {
        self.handle.spec_encodable() && self.lmp_handle.spec_encodable() && self.reserved.spec_encodable()
    }

    proof fn lemma_write_then_read(&self, rest: Seq<u8>) {
        self.handle.lemma_fixed_size();
        self.lmp_handle.lemma_fixed_size();
        self.reserved.lemma_fixed_size();
        let t_reserved = self.reserved.spec_hci_bytes() + rest;
        let t_lmp_handle = self.lmp_handle.spec_hci_bytes() + t_reserved;
        let t_handle = self.handle.spec_hci_bytes() + t_lmp_handle;
        assert(self.spec_hci_bytes() + rest =~= t_handle);
        self.handle.lemma_write_then_read(t_lmp_handle);
        self.lmp_handle.lemma_write_then_read(t_reserved);
        self.reserved.lemma_write_then_read(rest);
        assert(t_handle.skip(self.handle.spec_hci_bytes().len() as int) =~= t_lmp_handle);
        assert(t_lmp_handle.skip(self.lmp_handle.spec_hci_bytes().len() as int) =~= t_reserved);
    }
}

/// The ReadLmpHandle command (group LINK_CONTROL, command 0x0020).
#[derive(Debug, Clone, Copy, PartialEq, Eq, PartialOrd, Ord, Hash)]
pub struct ReadLmpHandle(ConnHandle);

impl ReadLmpHandle {
    /// Create a new instance of the command with the provided parameters.
    pub fn new(param: ConnHandle) -> (r: Self)
        ensures
            r.spec_params() == param,
    {
        ReadLmpHandle(param)
    }

    /// This command's opcode is group LINK_CONTROL, command 0x0020: 0x0420.
    pub proof fn lemma_opcode()
        ensures
            Self::spec_opcode() == 0x0420,
    {
        lemma_opcode_value(LINK_CONTROL, 0x0020);
    }
}

impl Cmd for ReadLmpHandle {
    type Params = ConnHandle;

    open spec fn spec_opcode() -> u16 {
        spec_opcode_raw(LINK_CONTROL, 0x0020)
    }

    closed spec fn spec_params(&self) -> ConnHandle {
        self.0
    }

    fn opcode() -> (r: Opcode) {
        Opcode::new(OpcodeGroup::new(LINK_CONTROL), 0x0020)
    }

    fn params(&self) -> (r: &ConnHandle) {
        &self.0
    }

    proof fn lemma_packet(&self) {
    }
}

impl WriteHci for ReadLmpHandle {
    closed spec fn spec_hci_bytes(&self) -> Seq<u8> {
        spec_cmd_packet(spec_opcode_raw(LINK_CONTROL, 0x0020), self.0.spec_hci_bytes())
    }

    fn size(&self) -> (r: usize) {
        self.0.size() + 3
    }

    fn write_hci(&self, out: &mut Vec<u8>) {
        write_cmd_packet(Opcode::new(OpcodeGroup::new(LINK_CONTROL), 0x0020), &self.0, out);
    }
}

impl SyncCmd for ReadLmpHandle {
    type Return = ReadLmpHandleReturn;
    type Handle = ();

    open spec fn spec_handle_ok(data: Seq<u8>, h: ()) -> bool {
        true
    }

    open spec fn spec_handle_err(data: Seq<u8>, e: FromHciBytesError) -> bool {
        false
    }

    open spec fn spec_return_ok(data: Seq<u8>, v: ReadLmpHandleReturn) -> bool {
        spec_decodes_complete::<ReadLmpHandleReturn>(data, v)
    }

    open spec fn spec_return_err(data: Seq<u8>, e: FromHciBytesError) -> bool {
        spec_decode_complete_err::<ReadLmpHandleReturn>(data, e)
    }

    fn param_handle(&self) -> (r: ())
        ensures
            r == (),
    {
    }

    fn return_handle(data: &[u8]) -> (r: Result<(), FromHciBytesError>) {
        Ok(())
    }

    fn return_from_hci_bytes(data: &[u8]) -> (r: Result<ReadLmpHandleReturn, FromHciBytesError>) {
        <ReadLmpHandleReturn as FromHciBytes>::from_hci_bytes_complete(data)
    }
}

/// Parameters for the [`SetupSynchronousConnection`] command.
#[derive(Debug, Clone, Copy, PartialEq, Eq, PartialOrd, Ord, Hash)]
#[allow(missing_docs)]
pub struct SetupSynchronousConnectionParams {
    pub handle: ConnHandle,
    pub transmit_bandwidth: u32,
    pub receive_bandwidth: u32,
    pub max_latency: u16,
    pub voice_setting: VoiceSetting,
    pub retransmission_effort: RetransmissionEffort,
    pub packet_type: SyncPacketType,
}

/// The value of a [`SetupSynchronousConnectionParams`], with byte slices taken as sequences.
#[allow(missing_docs)]
pub struct SetupSynchronousConnectionParamsView {
    pub handle: u16,
    pub transmit_bandwidth: u32,
    pub receive_bandwidth: u32,
    pub max_latency: u16,
    pub voice_setting: Seq<u8>,
    pub retransmission_effort: RetransmissionEffort,
    pub packet_type: Seq<u8>,
}

impl View for SetupSynchronousConnectionParams {
    type V = SetupSynchronousConnectionParamsView;

    open spec fn view(&self) -> SetupSynchronousConnectionParamsView {
        SetupSynchronousConnectionParamsView { handle: self.handle@, transmit_bandwidth: self.transmit_bandwidth@, receive_bandwidth: self.receive_bandwidth@, max_latency: self.max_latency@, voice_setting: self.voice_setting@, retransmission_effort: self.retransmission_effort@, packet_type: self.packet_type@ }
    }
}

impl WriteHci for SetupSynchronousConnectionParams {
    open spec fn spec_hci_bytes(&self) -> Seq<u8> {
        self.handle.spec_hci_bytes() + self.transmit_bandwidth.spec_hci_bytes() + self.receive_bandwidth.spec_hci_bytes() + self.max_latency.spec_hci_bytes() + self.voice_setting.spec_hci_bytes() + self.retransmission_effort.spec_hci_bytes() + self.packet_type.spec_hci_bytes()
    }

    fn size(&self) -> (r: usize) {
        let mut n = self.handle.size();
        proof {
            assert(self.handle.spec_hci_bytes() + self.transmit_bandwidth.spec_hci_bytes() =~= (self.handle.spec_hci_bytes() + self.transmit_bandwidth.spec_hci_bytes()));
        }
        n = n + self.transmit_bandwidth.size();
        proof {
            assert(self.handle.spec_hci_bytes() + self.transmit_bandwidth.spec_hci_bytes() + self.receive_bandwidth.spec_hci_bytes() =~= (self.handle.spec_hci_bytes() + self.transmit_bandwidth.spec_hci_bytes() + self.receive_bandwidth.spec_hci_bytes()));
        }
        n = n + self.receive_bandwidth.size();
        proof {
            assert(self.handle.spec_hci_bytes() + self.transmit_bandwidth.spec_hci_bytes() + self.receive_bandwidth.spec_hci_bytes() + self.max_latency.spec_hci_bytes() =~= (self.handle.spec_hci_bytes() + self.transmit_bandwidth.spec_hci_bytes() + self.receive_bandwidth.spec_hci_bytes() + self.max_latency.spec_hci_bytes()));
        }
        n = n + self.max_latency.size();
        proof {
            assert(self.handle.spec_hci_bytes() + self.transmit_bandwidth.spec_hci_bytes() + self.receive_bandwidth.spec_hci_bytes() + self.max_latency.spec_hci_bytes() + self.voice_setting.spec_hci_bytes() =~= (self.handle.spec_hci_bytes() + self.transmit_bandwidth.spec_hci_bytes() + self.receive_bandwidth.spec_hci_bytes() + self.max_latency.spec_hci_bytes() + self.voice_setting.spec_hci_bytes()));
        }
        n = n + self.voice_setting.size();
        proof {
            assert(self.handle.spec_hci_bytes() + self.transmit_bandwidth.spec_hci_bytes() + self.receive_bandwidth.spec_hci_bytes() + self.max_latency.spec_hci_bytes() + self.voice_setting.spec_hci_bytes() + self.retransmission_effort.spec_hci_bytes() =~= (self.handle.spec_hci_bytes() + self.transmit_bandwidth.spec_hci_bytes() + self.receive_bandwidth.spec_hci_bytes() + self.max_latency.spec_hci_bytes() + self.voice_setting.spec_hci_bytes() + self.retransmission_effort.spec_hci_bytes()));
        }
        n = n + self.retransmission_effort.size();
        proof {
            assert(self.handle.spec_hci_bytes() + self.transmit_bandwidth.spec_hci_bytes() + self.receive_bandwidth.spec_hci_bytes() + self.max_latency.spec_hci_bytes() + self.voice_setting.spec_hci_bytes() + self.retransmission_effort.spec_hci_bytes() + self.packet_type.spec_hci_bytes() =~= (self.handle.spec_hci_bytes() + self.transmit_bandwidth.spec_hci_bytes() + self.receive_bandwidth.spec_hci_bytes() + self.max_latency.spec_hci_bytes() + self.voice_setting.spec_hci_bytes() + self.retransmission_effort.spec_hci_bytes() + self.packet_type.spec_hci_bytes()));
        }
        n = n + self.packet_type.size();
        n
    }

    fn write_hci(&self, out: &mut Vec<u8>) {
        self.handle.write_hci(out);
        self.transmit_bandwidth.write_hci(out);
        self.receive_bandwidth.write_hci(out);
        self.max_latency.write_hci(out);
        self.voice_setting.write_hci(out);
        self.retransmission_effort.write_hci(out);
        self.packet_type.write_hci(out);
        proof {
            assert(out@ =~= old(out)@ + self.spec_hci_bytes());
        }
    }
}

impl SetupSynchronousConnectionParams {
    /// The bytes of a `SetupSynchronousConnectionParams` are the bytes of its fields, one after the
    /// other, in the order in which the fields are declared.
    pub proof fn lemma_fields_in_order(&self)
        ensures
            self.spec_hci_bytes() == self.handle.spec_hci_bytes() + self.transmit_bandwidth.spec_hci_bytes() + self.receive_bandwidth.spec_hci_bytes() + self.max_latency.spec_hci_bytes() + self.voice_setting.spec_hci_bytes() + self.retransmission_effort.spec_hci_bytes() + self.packet_type.spec_hci_bytes(),
    {
    }
}


/// The SetupSynchronousConnection command (group LINK_CONTROL, command 0x0028).
#[derive(Debug, Clone, Copy, PartialEq, Eq, PartialOrd, Ord, Hash)]
pub struct SetupSynchronousConnection(SetupSynchronousConnectionParams);

impl SetupSynchronousConnection {
    /// Create a new instance of the command.
    pub fn new(handle: ConnHandle, transmit_bandwidth: u32, receive_bandwidth: u32, max_latency: u16, voice_setting: VoiceSetting, retransmission_effort: RetransmissionEffort, packet_type: SyncPacketType) -> (result: Self)
        ensures
            result.spec_params() == (SetupSynchronousConnectionParams { handle: handle, transmit_bandwidth: transmit_bandwidth, receive_bandwidth: receive_bandwidth, max_latency: max_latency, voice_setting: voice_setting, retransmission_effort: retransmission_effort, packet_type: packet_type }),
    {
        SetupSynchronousConnection(SetupSynchronousConnectionParams { handle: handle, transmit_bandwidth: transmit_bandwidth, receive_bandwidth: receive_bandwidth, max_latency: max_latency, voice_setting: voice_setting, retransmission_effort: retransmission_effort, packet_type: packet_type })
    }

    /// This command's opcode is group LINK_CONTROL, command 0x0028: 0x0428.
    pub proof fn lemma_opcode()
        ensures
            Self::spec_opcode() == 0x0428,
    {
        lemma_opcode_value(LINK_CONTROL, 0x0028);
    }
}

impl Cmd for SetupSynchronousConnection {
    type Params = SetupSynchronousConnectionParams;

    open spec fn spec_opcode() -> u16 {
        spec_opcode_raw(LINK_CONTROL, 0x0028)
    }

    closed spec fn spec_params(&self) -> SetupSynchronousConnectionParams {
        self.0
    }

    fn opcode() -> (r: Opcode) {
        Opcode::new(OpcodeGroup::new(LINK_CONTROL), 0x0028)
    }

    fn params(&self) -> (r: &SetupSynchronousConnectionParams) {
        &self.0
    }

    proof fn lemma_packet(&self) {
    }
}

impl WriteHci for SetupSynchronousConnection {
    closed spec fn spec_hci_bytes(&self) -> Seq<u8> {
        spec_cmd_packet(spec_opcode_raw(LINK_CONTROL, 0x0028), self.0.spec_hci_bytes())
    }

    fn size(&self) -> (r: usize) {
        self.0.size() + 3
    }

    fn write_hci(&self, out: &mut Vec<u8>) {
        write_cmd_packet(Opcode::new(OpcodeGroup::new(LINK_CONTROL), 0x0028), &self.0, out);
    }
}

impl SyncCmd for SetupSynchronousConnection {
    type Return = ();
    type Handle = ();

    open spec fn spec_handle_ok(data: Seq<u8>, h: ()) -> bool {
        true
    }

    open spec fn spec_handle_err(data: Seq<u8>, e: FromHciBytesError) -> bool {
        false
    }

    open spec fn spec_return_ok(data: Seq<u8>, v: ()) -> bool {
        spec_decodes_complete::<()>(data, v)
    }

    open spec fn spec_return_err(data: Seq<u8>, e: FromHciBytesError) -> bool {
        spec_decode_complete_err::<()>(data, e)
    }

    fn param_handle(&self) -> (r: ())
        ensures
            r == (),
    {
    }

    fn return_handle(data: &[u8]) -> (r: Result<(), FromHciBytesError>) {
        Ok(())
    }

    fn return_from_hci_bytes(data: &[u8]) -> (r: Result<(), FromHciBytesError>) {
        <() as FromHciBytes>::from_hci_bytes_complete(data)
    }
}

/// Parameters for the [`AcceptSynchronousConnectionRequest`] command.
#[derive(Debug, Clone, Copy, PartialEq, Eq, PartialOrd, Ord, Hash)]
#[allow(missing_docs)]
pub struct AcceptSynchronousConnectionRequestParams {
    pub bd_addr: BdAddr,
    pub transmit_bandwidth: u32,
    pub receive_bandwidth: u32,
    pub max_latency: u16,
    pub voice_setting: VoiceSetting,
    pub retransmission_effort: RetransmissionEffort,
    pub packet_type: SyncPacketType,
}

/// The value of a [`AcceptSynchronousConnectionRequestParams`], with byte slices taken as sequences.
#[allow(missing_docs)]
pub struct AcceptSynchronousConnectionRequestParamsView {
    pub bd_addr: Seq<u8>,
    pub transmit_bandwidth: u32,
    pub receive_bandwidth: u32,
    pub max_latency: u16,
    pub voice_setting: Seq<u8>,
    pub retransmission_effort: RetransmissionEffort,
    pub packet_type: Seq<u8>,
}

impl View for AcceptSynchronousConnectionRequestParams {
    type V = AcceptSynchronousConnectionRequestParamsView;

    open spec fn view(&self) -> AcceptSynchronousConnectionRequestParamsView {
        AcceptSynchronousConnectionRequestParamsView { bd_addr: self.bd_addr@, transmit_bandwidth: self.transmit_bandwidth@, receive_bandwidth: self.receive_bandwidth@, max_latency: self.max_latency@, voice_setting: self.voice_setting@, retransmission_effort: self.retransmission_effort@, packet_type: self.packet_type@ }
    }
}

impl WriteHci for AcceptSynchronousConnectionRequestParams {
    open spec fn spec_hci_bytes(&self) -> Seq<u8> {
        self.bd_addr.spec_hci_bytes() + self.transmit_bandwidth.spec_hci_bytes() + self.receive_bandwidth.spec_hci_bytes() + self.max_latency.spec_hci_bytes() + self.voice_setting.spec_hci_bytes() + self.retransmission_effort.spec_hci_bytes() + self.packet_type.spec_hci_bytes()
    }

    fn size(&self) -> (r: usize) {
        let mut n = self.bd_addr.size();
        proof {
            assert(self.bd_addr.spec_hci_bytes() + self.transmit_bandwidth.spec_hci_bytes() =~= (self.bd_addr.spec_hci_bytes() + self.transmit_bandwidth.spec_hci_bytes()));
        }
        n = n + self.transmit_bandwidth.size();
        proof {
            assert(self.bd_addr.spec_hci_bytes() + self.transmit_bandwidth.spec_hci_bytes() + self.receive_bandwidth.spec_hci_bytes() =~= (self.bd_addr.spec_hci_bytes() + self.transmit_bandwidth.spec_hci_bytes() + self.receive_bandwidth.spec_hci_bytes()));
        }
        n = n + self.receive_bandwidth.size();
        proof {
            assert(self.bd_addr.spec_hci_bytes() + self.transmit_bandwidth.spec_hci_bytes() + self.receive_bandwidth.spec_hci_bytes() + self.max_latency.spec_hci_bytes() =~= (self.bd_addr.spec_hci_bytes() + self.transmit_bandwidth.spec_hci_bytes() + self.receive_bandwidth.spec_hci_bytes() + self.max_latency.spec_hci_bytes()));
        }
        n = n + self.max_latency.size();
        proof {
            assert(self.bd_addr.spec_hci_bytes() + self.transmit_bandwidth.spec_hci_bytes() + self.receive_bandwidth.spec_hci_bytes() + self.max_latency.spec_hci_bytes() + self.voice_setting.spec_hci_bytes() =~= (self.bd_addr.spec_hci_bytes() + self.transmit_bandwidth.spec_hci_bytes() + self.receive_bandwidth.spec_hci_bytes() + self.max_latency.spec_hci_bytes() + self.voice_setting.spec_hci_bytes()));
        }
        n = n + self.voice_setting.size();
        proof {
            assert(self.bd_addr.spec_hci_bytes() + self.transmit_bandwidth.spec_hci_bytes() + self.receive_bandwidth.spec_hci_bytes() + self.max_latency.spec_hci_bytes() + self.voice_setting.spec_hci_bytes() + self.retransmission_effort.spec_hci_bytes() =~= (self.bd_addr.spec_hci_bytes() + self.transmit_bandwidth.spec_hci_bytes() + self.receive_bandwidth.spec_hci_bytes() + self.max_latency.spec_hci_bytes() + self.voice_setting.spec_hci_bytes() + self.retransmission_effort.spec_hci_bytes()));
        }
        n = n + self.retransmission_effort.size();
        proof {
            assert(self.bd_addr.spec_hci_bytes() + self.transmit_bandwidth.spec_hci_bytes() + self.receive_bandwidth.spec_hci_bytes() + self.max_latency.spec_hci_bytes() + self.voice_setting.spec_hci_bytes() + self.retransmission_effort.spec_hci_bytes() + self.packet_type.spec_hci_bytes() =~= (self.bd_addr.spec_hci_bytes() + self.transmit_bandwidth.spec_hci_bytes() + self.receive_bandwidth.spec_hci_bytes() + self.max_latency.spec_hci_bytes() + self.voice_setting.spec_hci_bytes() + self.retransmission_effort.spec_hci_bytes() + self.packet_type.spec_hci_bytes()));
        }
        n = n + self.packet_type.size();
        n
    }

    fn write_hci(&self, out: &mut Vec<u8>) {
        self.bd_addr.write_hci(out);
        self.transmit_bandwidth.write_hci(out);
        self.receive_bandwidth.write_hci(out);
        self.max_latency.write_hci(out);
        self.voice_setting.write_hci(out);
        self.retransmission_effort.write_hci(out);
        self.packet_type.write_hci(out);
        proof {
            assert(out@ =~= old(out)@ + self.spec_hci_bytes());
        }
    }
}

impl AcceptSynchronousConnectionRequestParams {
    /// The bytes of a `AcceptSynchronousConnectionRequestParams` are the bytes of its fields, one after the
    /// other, in the order in which the fields are declared.
    pub proof fn lemma_fields_in_order(&self)
        ensures
            self.spec_hci_bytes() == self.bd_addr.spec_hci_bytes() + self.transmit_bandwidth.spec_hci_bytes() + self.receive_bandwidth.spec_hci_bytes() + self.max_latency.spec_hci_bytes() + self.voice_setting.spec_hci_bytes() + self.retransmission_effort.spec_hci_bytes() + self.packet_type.spec_hci_bytes(),
    {
    }
}


/// The AcceptSynchronousConnectionRequest command (group LINK_CONTROL, command 0x0029).
#[derive(Debug, Clone, Copy, PartialEq, Eq, PartialOrd, Ord, Hash)]
pub struct AcceptSynchronousConnectionRequest(AcceptSynchronousConnectionRequestParams);

impl AcceptSynchronousConnectionRequest {
    /// Create a new instance of the command.
    pub fn new(bd_addr: BdAddr, transmit_bandwidth: u32, receive_bandwidth: u32, max_latency: u16, voice_setting: VoiceSetting, retransmission_effort: RetransmissionEffort, packet_type: SyncPacketType) -> (result: Self)
        ensures
            result.spec_params() == (AcceptSynchronousConnectionRequestParams { bd_addr: bd_addr, transmit_bandwidth: transmit_bandwidth, receive_bandwidth: receive_bandwidth, max_latency: max_latency, voice_setting: voice_setting, retransmission_effort: retransmission_effort, packet_type: packet_type }),
    {
        AcceptSynchronousConnectionRequest(AcceptSynchronousConnectionRequestParams { bd_addr: bd_addr, transmit_bandwidth: transmit_bandwidth, receive_bandwidth: receive_bandwidth, max_latency: max_latency, voice_setting: voice_setting, retransmission_effort: retransmission_effort, packet_type: packet_type })
    }

    /// This command's opcode is group LINK_CONTROL, command 0x0029: 0x0429.
    pub proof fn lemma_opcode()
        ensures
            Self::spec_opcode() == 0x0429,
    {
        lemma_opcode_value(LINK_CONTROL, 0x0029);
    }
}

impl Cmd for AcceptSynchronousConnectionRequest {
    type Params = AcceptSynchronousConnectionRequestParams;

    open spec fn spec_opcode() -> u16 {
        spec_opcode_raw(LINK_CONTROL, 0x0029)
    }

    closed spec fn spec_params(&self) -> AcceptSynchronousConnectionRequestParams {
        self.0
    }

    fn opcode() -> (r: Opcode) {
        Opcode::new(OpcodeGroup::new(LINK_CONTROL), 0x0029)
    }

    fn params(&self) -> (r: &AcceptSynchronousConnectionRequestParams) {
        &self.0
    }

    proof fn lemma_packet(&self) {
    }
}

impl WriteHci for AcceptSynchronousConnectionRequest {
    closed spec fn spec_hci_bytes(&self) -> Seq<u8> {
        spec_cmd_packet(spec_opcode_raw(LINK_CONTROL, 0x0029), self.0.spec_hci_bytes())
    }

    fn size(&self) -> (r: usize) {
        self.0.size() + 3
    }

    fn write_hci(&self, out: &mut Vec<u8>) {
        write_cmd_packet(Opcode::new(OpcodeGroup::new(LINK_CONTROL), 0x0029), &self.0, out);
    }
}

impl SyncCmd for AcceptSynchronousConnectionRequest {
    type Return = ();
    type Handle = ();

    open spec fn spec_handle_ok(data: Seq<u8>, h: ()) -> bool {
        true
    }

    open spec fn spec_handle_err(data: Seq<u8>, e: FromHciBytesError) -> bool {
        false
    }

    open spec fn spec_return_ok(data: Seq<u8>, v: ()) -> bool {
        spec_decodes_complete::<()>(data, v)
    }

    open spec fn spec_return_err(data: Seq<u8>, e: FromHciBytesError) -> bool {
        spec_decode_complete_err::<()>(data, e)
    }

    fn param_handle(&self) -> (r: ())
        ensures
            r == (),
    {
    }

    fn return_handle(data: &[u8]) -> (r: Result<(), FromHciBytesError>) {
        Ok(())
    }

    fn return_from_hci_bytes(data: &[u8]) -> (r: Result<(), FromHciBytesError>) {
        <() as FromHciBytes>::from_hci_bytes_complete(data)
    }
}

/// Parameters for the [`RejectSynchronousConnectionRequest`] command.
#[derive(Debug, Clone, Copy, PartialEq, Eq, PartialOrd, Ord, Hash)]
#[allow(missing_docs)]
pub struct RejectSynchronousConnectionRequestParams {
    pub bd_addr: BdAddr,
    pub reason: RejectReason,
}

/// The value of a [`RejectSynchronousConnectionRequestParams`], with byte slices taken as sequences.
#[allow(missing_docs)]
pub struct RejectSynchronousConnectionRequestParamsView {
    pub bd_addr: Seq<u8>,
    pub reason: RejectReason,
}

impl View for RejectSynchronousConnectionRequestParams {
    type V = RejectSynchronousConnectionRequestParamsView;

    open spec fn view(&self) -> RejectSynchronousConnectionRequestParamsView {
        RejectSynchronousConnectionRequestParamsView { bd_addr: self.bd_addr@, reason: self.reason@ }
    }
}

impl WriteHci for RejectSynchronousConnectionRequestParams {
    open spec fn spec_hci_bytes(&self) -> Seq<u8> {
        self.bd_addr.spec_hci_bytes() + self.reason.spec_hci_bytes()
    }

    fn size(&self) -> (r: usize) {
        let mut n = self.bd_addr.size();
        proof {
            assert(self.bd_addr.spec_hci_bytes() + self.reason.spec_hci_bytes() =~= (self.bd_addr.spec_hci_bytes() + self.reason.spec_hci_bytes()));
        }
        n = n + self.reason.size();
        n
    }

    fn write_hci(&self, out: &mut Vec<u8>) {
        self.bd_addr.write_hci(out);
        self.reason.write_hci(out);
        proof {
            assert(out@ =~= old(out)@ + self.spec_hci_bytes());
        }
    }
}

impl RejectSynchronousConnectionRequestParams {
    /// The bytes of a `RejectSynchronousConnectionRequestParams` are the bytes of its fields, one after the
    /// other, in the order in which the fields are declared.
    pub proof fn lemma_fields_in_order(&self)
        ensures
            self.spec_hci_bytes() == self.bd_addr.spec_hci_bytes() + self.reason.spec_hci_bytes(),
    {
    }
}


/// The RejectSynchronousConnectionRequest command (group LINK_CONTROL, command 0x002a).
#[derive(Debug, Clone, Copy, PartialEq, Eq, PartialOrd, Ord, Hash)]
pub struct RejectSynchronousConnectionRequest(RejectSynchronousConnectionRequestParams);

impl RejectSynchronousConnectionRequest {
    /// Create a new instance of the command.
    pub fn new(bd_addr: BdAddr, reason: RejectReason) -> (result: Self)
        ensures
            result.spec_params() == (RejectSynchronousConnectionRequestParams { bd_addr: bd_addr, reason: reason }),
    {
        RejectSynchronousConnectionRequest(RejectSynchronousConnectionRequestParams { bd_addr: bd_addr, reason: reason })
    }

    /// This command's opcode is group LINK_CONTROL, command 0x002a: 0x042a.
    pub proof fn lemma_opcode()
        ensures
            Self::spec_opcode() == 0x042a,
    {
        lemma_opcode_value(LINK_CONTROL, 0x002a);
    }
}

impl Cmd for RejectSynchronousConnectionRequest {
    type Params = RejectSynchronousConnectionRequestParams;

    open spec fn spec_opcode() -> u16 {
        spec_opcode_raw(LINK_CONTROL, 0x002a)
    }

    closed spec fn spec_params(&self) -> RejectSynchronousConnectionRequestParams {
        self.0
    }

    fn opcode() -> (r: Opcode) {
        Opcode::new(OpcodeGroup::new(LINK_CONTROL), 0x002a)
    }

    fn params(&self) -> (r: &RejectSynchronousConnectionRequestParams) {
        &self.0
    }

    proof fn lemma_packet(&self) {
    }
}

impl WriteHci for RejectSynchronousConnectionRequest {
    closed spec fn spec_hci_bytes(&self) -> Seq<u8> {
        spec_cmd_packet(spec_opcode_raw(LINK_CONTROL, 0x002a), self.0.spec_hci_bytes())
    }

    fn size(&self) -> (r: usize) {
        self.0.size() + 3
    }

    fn write_hci(&self, out: &mut Vec<u8>) {
        write_cmd_packet(Opcode::new(OpcodeGroup::new(LINK_CONTROL), 0x002a), &self.0, out);
    }
}

impl SyncCmd for RejectSynchronousConnectionRequest {
    type Return = ();
    type Handle = ();

    open spec fn spec_handle_ok(data: Seq<u8>, h: ()) -> bool {
        true
    }

    open spec fn spec_handle_err(data: Seq<u8>, e: FromHciBytesError) -> bool {
        false
    }

    open spec fn spec_return_ok(data: Seq<u8>, v: ()) -> bool {
        spec_decodes_complete::<()>(data, v)
    }

    open spec fn spec_return_err(data: Seq<u8>, e: FromHciBytesError) -> bool {
        spec_decode_complete_err::<()>(data, e)
    }

    fn param_handle(&self) -> (r: ())
        ensures
            r == (),
    {
    }

    fn return_handle(data: &[u8]) -> (r: Result<(), FromHciBytesError>) {
        Ok(())
    }

    fn return_from_hci_bytes(data: &[u8]) -> (r: Result<(), FromHciBytesError>) {
        <() as FromHciBytes>::from_hci_bytes_complete(data)
    }
}

/// Parameters for the [`IoCapabilityRequestReply`] command.
#[derive(Debug, Clone, Copy, PartialEq, Eq, PartialOrd, Ord, Hash)]
#[allow(missing_docs)]
pub struct IoCapabilityRequestReplyParams {
    pub bd_addr: BdAddr,
    pub io_capability: IoCapability,
    pub oob_data_present: OobDataPresent,
    pub authentication_requirements: AuthenticationRequirements,
}

/// The value of a [`IoCapabilityRequestReplyParams`], with byte slices taken as sequences.
#[allow(missing_docs)]
pub struct IoCapabilityRequestReplyParamsView {
    pub bd_addr: Seq<u8>,
    pub io_capability: IoCapability,
    pub oob_data_present: OobDataPresent,
    pub authentication_requirements: AuthenticationRequirements,
}

impl View for IoCapabilityRequestReplyParams {
    type V = IoCapabilityRequestReplyParamsView;

    open spec fn view(&self) -> IoCapabilityRequestReplyParamsView {
        IoCapabilityRequestReplyParamsView { bd_addr: self.bd_addr@, io_capability: self.io_capability@, oob_data_present: self.oob_data_present@, authentication_requirements: self.authentication_requirements@ }
    }
}

impl WriteHci for IoCapabilityRequestReplyParams {
    open spec fn spec_hci_bytes(&self) -> Seq<u8> {
        self.bd_addr.spec_hci_bytes() + self.io_capability.spec_hci_bytes() + self.oob_data_present.spec_hci_bytes() + self.authentication_requirements.spec_hci_bytes()
    }

    fn size(&self) -> (r: usize) {
        let mut n = self.bd_addr.size();
        proof {
            assert(self.bd_addr.spec_hci_bytes() + self.io_capability.spec_hci_bytes() =~= (self.bd_addr.spec_hci_bytes() + self.io_capability.spec_hci_bytes()));
        }
        n = n + self.io_capability.size();
        proof {
            assert(self.bd_addr.spec_hci_bytes() + self.io_capability.spec_hci_bytes() + self.oob_data_present.spec_hci_bytes() =~= (self.bd_addr.spec_hci_bytes() + self.io_capability.spec_hci_bytes() + self.oob_data_present.spec_hci_bytes()));
        }
        n = n + self.oob_data_present.size();
        proof {
            assert(self.bd_addr.spec_hci_bytes() + self.io_capability.spec_hci_bytes() + self.oob_data_present.spec_hci_bytes() + self.authentication_requirements.spec_hci_bytes() =~= (self.bd_addr.spec_hci_bytes() + self.io_capability.spec_hci_bytes() + self.oob_data_present.spec_hci_bytes() + self.authentication_requirements.spec_hci_bytes()));
        }
        n = n + self.authentication_requirements.size();
        n
    }

    fn write_hci(&self, out: &mut Vec<u8>) {
        self.bd_addr.write_hci(out);
        self.io_capability.write_hci(out);
        self.oob_data_present.write_hci(out);
        self.authentication_requirements.write_hci(out);
        proof {
            assert(out@ =~= old(out)@ + self.spec_hci_bytes());
        }
    }
}

impl IoCapabilityRequestReplyParams {
    /// The bytes of a `IoCapabilityRequestReplyParams` are the bytes of its fields, one after the
    /// other, in the order in which the fields are declared.
    pub proof fn lemma_fields_in_order(&self)
        ensures
            self.spec_hci_bytes() == self.bd_addr.spec_hci_bytes() + self.io_capability.spec_hci_bytes() + self.oob_data_present.spec_hci_bytes() + self.authentication_requirements.spec_hci_bytes(),
    {
    }
}


/// The IoCapabilityRequestReply command (group LINK_CONTROL, command 0x002b).
#[derive(Debug, Clone, Copy, PartialEq, Eq, PartialOrd, Ord, Hash)]
pub struct IoCapabilityRequestReply(IoCapabilityRequestReplyParams);

impl IoCapabilityRequestReply {
    /// Create a new instance of the command.
    pub fn new(bd_addr: BdAddr, io_capability: IoCapability, oob_data_present: OobDataPresent, authentication_requirements: AuthenticationRequirements) -> (result: Self)
        ensures
            result.spec_params() == (IoCapabilityRequestReplyParams { bd_addr: bd_addr, io_capability: io_capability, oob_data_present: oob_data_present, authentication_requirements: authentication_requirements }),
    {
        IoCapabilityRequestReply(IoCapabilityRequestReplyParams { bd_addr: bd_addr, io_capability: io_capability, oob_data_present: oob_data_present, authentication_requirements: authentication_requirements })
    }

    /// This command's opcode is group LINK_CONTROL, command 0x002b: 0x042b.
    pub proof fn lemma_opcode()
        ensures
            Self::spec_opcode() == 0x042b,
    {
        lemma_opcode_value(LINK_CONTROL, 0x002b);
    }
}

impl Cmd for IoCapabilityRequestReply {
    type Params = IoCapabilityRequestReplyParams;

    open spec fn spec_opcode() -> u16 {
        spec_opcode_raw(LINK_CONTROL, 0x002b)
    }

    closed spec fn spec_params(&self) -> IoCapabilityRequestReplyParams {
        self.0
    }

    fn opcode() -> (r: Opcode) {
        Opcode::new(OpcodeGroup::new(LINK_CONTROL), 0x002b)
    }

    fn params(&self) -> (r: &IoCapabilityRequestReplyParams) {
        &self.0
    }

    proof fn lemma_packet(&self) {
    }
}

impl WriteHci for IoCapabilityRequestReply {
    closed spec fn spec_hci_bytes(&self) -> Seq<u8> {
        spec_cmd_packet(spec_opcode_raw(LINK_CONTROL, 0x002b), self.0.spec_hci_bytes())
    }

    fn size(&self) -> (r: usize) {
        self.0.size() + 3
    }

    fn write_hci(&self, out: &mut Vec<u8>) {
        write_cmd_packet(Opcode::new(OpcodeGroup::new(LINK_CONTROL), 0x002b), &self.0, out);
    }
}

impl SyncCmd for IoCapabilityRequestReply {
    type Return = BdAddr;
    type Handle = ();

    open spec fn spec_handle_ok(data: Seq<u8>, h: ()) -> bool {
        true
    }

    open spec fn spec_handle_err(data: Seq<u8>, e: FromHciBytesError) -> bool {
        false
    }

    open spec fn spec_return_ok(data: Seq<u8>, v: BdAddr) -> bool {
        spec_decodes_complete::<BdAddr>(data, v)
    }

    open spec fn spec_return_err(data: Seq<u8>, e: FromHciBytesError) -> bool {
        spec_decode_complete_err::<BdAddr>(data, e)
    }

    fn param_handle(&self) -> (r: ())
        ensures
            r == (),
    {
    }

    fn return_handle(data: &[u8]) -> (r: Result<(), FromHciBytesError>) {
        Ok(())
    }

    fn return_from_hci_bytes(data: &[u8]) -> (r: Result<BdAddr, FromHciBytesError>) {
        <BdAddr as FromHciBytes>::from_hci_bytes_complete(data)
    }
}

/// The UserConfirmationRequestReply command (group LINK_CONTROL, command 0x002c).
#[derive(Debug, Clone, Copy, PartialEq, Eq, PartialOrd, Ord, Hash)]
pub struct UserConfirmationRequestReply(BdAddr);

impl UserConfirmationRequestReply {
    /// Create a new instance of the command with the provided parameters.
    pub fn new(param: BdAddr) -> (r: Self)
        ensures
            r.spec_params() == param,
    {
        UserConfirmationRequestReply(param)
    }

    /// This command's opcode is group LINK_CONTROL, command 0x002c: 0x042c.
    pub proof fn lemma_opcode()
        ensures
            Self::spec_opcode() == 0x042c,
    {
        lemma_opcode_value(LINK_CONTROL, 0x002c);
    }
}

impl Cmd for UserConfirmationRequestReply {
    type Params = BdAddr;

    open spec fn spec_opcode() -> u16 {
        spec_opcode_raw(LINK_CONTROL, 0x002c)
    }

    closed spec fn spec_params(&self) -> BdAddr {
        self.0
    }

    fn opcode() -> (r: Opcode) {
        Opcode::new(OpcodeGroup::new(LINK_CONTROL), 0x002c)
    }

    fn params(&self) -> (r: &BdAddr) {
        &self.0
    }

    proof fn lemma_packet(&self) {
    }
}

impl WriteHci for UserConfirmationRequestReply {
    closed spec fn spec_hci_bytes(&self) -> Seq<u8> {
        spec_cmd_packet(spec_opcode_raw(LINK_CONTROL, 0x002c), self.0.spec_hci_bytes())
    }

    fn size(&self) -> (r: usize) {
        self.0.size() + 3
    }

    fn write_hci(&self, out: &mut Vec<u8>) {
        write_cmd_packet(Opcode::new(OpcodeGroup::new(LINK_CONTROL), 0x002c), &self.0, out);
    }
}

impl SyncCmd for UserConfirmationRequestReply {
    type Return = BdAddr;
    type Handle = ();

    open spec fn spec_handle_ok(data: Seq<u8>, h: ()) -> bool {
        true
    }

    open spec fn spec_handle_err(data: Seq<u8>, e: FromHciBytesError) -> bool {
        false
    }

    open spec fn spec_return_ok(data: Seq<u8>, v: BdAddr) -> bool {
        spec_decodes_complete::<BdAddr>(data, v)
    }

    open spec fn spec_return_err(data: Seq<u8>, e: FromHciBytesError) -> bool {
        spec_decode_complete_err::<BdAddr>(data, e)
    }

    fn param_handle(&self) -> (r: ())
        ensures
            r == (),
    {
    }

    fn return_handle(data: &[u8]) -> (r: Result<(), FromHciBytesError>) {
        Ok(())
    }

    fn return_from_hci_bytes(data: &[u8]) -> (r: Result<BdAddr, FromHciBytesError>) {
        <BdAddr as FromHciBytes>::from_hci_bytes_complete(data)
    }
}

/// The UserConfirmationRequestNegativeReply command (group LINK_CONTROL, command 0x002d).
#[derive(Debug, Clone, Copy, PartialEq, Eq, PartialOrd, Ord, Hash)]
pub struct UserConfirmationRequestNegativeReply(BdAddr);

impl UserConfirmationRequestNegativeReply {
    /// Create a new instance of the command with the provided parameters.
    pub fn new(param: BdAddr) -> (r: Self)
        ensures
            r.spec_params() == param,
    {
        UserConfirmationRequestNegativeReply(param)
    }

    /// This command's opcode is group LINK_CONTROL, command 0x002d: 0x042d.
    pub proof fn lemma_opcode()
        ensures
            Self::spec_opcode() == 0x042d,
    {
        lemma_opcode_value(LINK_CONTROL, 0x002d);
    }
}

impl Cmd for UserConfirmationRequestNegativeReply {
    type Params = BdAddr;

    open spec fn spec_opcode() -> u16 {
        spec_opcode_raw(LINK_CONTROL, 0x002d)
    }

    closed spec fn spec_params(&self) -> BdAddr {
        self.0
    }

    fn opcode() -> (r: Opcode) {
        Opcode::new(OpcodeGroup::new(LINK_CONTROL), 0x002d)
    }

    fn params(&self) -> (r: &BdAddr) {
        &self.0
    }

    proof fn lemma_packet(&self) {
    }
}

impl WriteHci for UserConfirmationRequestNegativeReply {
    closed spec fn spec_hci_bytes(&self) -> Seq<u8> {
        spec_cmd_packet(spec_opcode_raw(LINK_CONTROL, 0x002d), self.0.spec_hci_bytes())
    }

    fn size(&self) -> (r: usize) {
        self.0.size() + 3
    }

    fn write_hci(&self, out: &mut Vec<u8>) {
        write_cmd_packet(Opcode::new(OpcodeGroup::new(LINK_CONTROL), 0x002d), &self.0, out);
    }
}

impl SyncCmd for UserConfirmationRequestNegativeReply {
    type Return = BdAddr;
    type Handle = ();

    open spec fn spec_handle_ok(data: Seq<u8>, h: ()) -> bool {
        true
    }

    open spec fn spec_handle_err(data: Seq<u8>, e: FromHciBytesError) -> bool {
        false
    }

    open spec fn spec_return_ok(data: Seq<u8>, v: BdAddr) -> bool {
        spec_decodes_complete::<BdAddr>(data, v)
    }

    open spec fn spec_return_err(data: Seq<u8>, e: FromHciBytesError) -> bool {
        spec_decode_complete_err::<BdAddr>(data, e)
    }

    fn param_handle(&self) -> (r: ())
        ensures
            r == (),
    {
    }

    fn return_handle(data: &[u8]) -> (r: Result<(), FromHciBytesError>) {
        Ok(())
    }

    fn return_from_hci_bytes(data: &[u8]) -> (r: Result<BdAddr, FromHciBytesError>) {
        <BdAddr as FromHciBytes>::from_hci_bytes_complete(data)
    }
}

/// Parameters for the [`UserPasskeyRequestReply`] command.
#[derive(Debug, Clone, Copy, PartialEq, Eq, PartialOrd, Ord, Hash)]
#[allow(missing_docs)]
pub struct UserPasskeyRequestReplyParams {
    pub bd_addr: BdAddr,
    pub numeric_value: u32,
}

/// The value of a [`UserPasskeyRequestReplyParams`], with byte slices taken as sequences.
#[allow(missing_docs)]
pub struct UserPasskeyRequestReplyParamsView {
    pub bd_addr: Seq<u8>,
    pub numeric_value: u32,
}

impl View for UserPasskeyRequestReplyParams {
    type V = UserPasskeyRequestReplyParamsView;

    open spec fn view(&self) -> UserPasskeyRequestReplyParamsView {
        UserPasskeyRequestReplyParamsView { bd_addr: self.bd_addr@, numeric_value: self.numeric_value@ }
    }
}

impl WriteHci for UserPasskeyRequestReplyParams {
    open spec fn spec_hci_bytes(&self) -> Seq<u8> {
        self.bd_addr.spec_hci_bytes() + self.numeric_value.spec_hci_bytes()
    }

    fn size(&self) -> (r: usize) {
        let mut n = self.bd_addr.size();
        proof {
            assert(self.bd_addr.spec_hci_bytes() + self.numeric_value.spec_hci_bytes() =~= (self.bd_addr.spec_hci_bytes() + self.numeric_value.spec_hci_bytes()));
        }
        n = n + self.numeric_value.size();
        n
    }

    fn write_hci(&self, out: &mut Vec<u8>) {
        self.bd_addr.write_hci(out);
        self.numeric_value.write_hci(out);
        proof {
            assert(out@ =~= old(out)@ + self.spec_hci_bytes());
        }
    }
}

impl UserPasskeyRequestReplyParams {
    /// The bytes of a `UserPasskeyRequestReplyParams` are the bytes of its fields, one after the
    /// other, in the order in which the fields are declared.
    pub proof fn lemma_fields_in_order(&self)
        ensures
            self.spec_hci_bytes() == self.bd_addr.spec_hci_bytes() + self.numeric_value.spec_hci_bytes(),
    {
    }
}


/// The UserPasskeyRequestReply command (group LINK_CONTROL, command 0x002e).
#[derive(Debug, Clone, Copy, PartialEq, Eq, PartialOrd, Ord, Hash)]
pub struct UserPasskeyRequestReply(UserPasskeyRequestReplyParams);

impl UserPasskeyRequestReply {
    /// Create a new instance of the command.
    pub fn new(bd_addr: BdAddr, numeric_value: u32) -> (result: Self)
        ensures
            result.spec_params() == (UserPasskeyRequestReplyParams { bd_addr: bd_addr, numeric_value: numeric_value }),
    {
        UserPasskeyRequestReply(UserPasskeyRequestReplyParams { bd_addr: bd_addr, numeric_value: numeric_value })
    }

    /// This command's opcode is group LINK_CONTROL, command 0x002e: 0x042e.
    pub proof fn lemma_opcode()
        ensures
            Self::spec_opcode() == 0x042e,
    {
        lemma_opcode_value(LINK_CONTROL, 0x002e);
    }
}

impl Cmd for UserPasskeyRequestReply {
    type Params = UserPasskeyRequestReplyParams;

    open spec fn spec_opcode() -> u16 {
        spec_opcode_raw(LINK_CONTROL, 0x002e)
    }

    closed spec fn spec_params(&self) -> UserPasskeyRequestReplyParams {
        self.0
    }

    fn opcode() -> (r: Opcode) {
        Opcode::new(OpcodeGroup::new(LINK_CONTROL), 0x002e)
    }

    fn params(&self) -> (r: &UserPasskeyRequestReplyParams) {
        &self.0
    }

    proof fn lemma_packet(&self) {
    }
}

impl WriteHci for UserPasskeyRequestReply {
    closed spec fn spec_hci_bytes(&self) -> Seq<u8> {
        spec_cmd_packet(spec_opcode_raw(LINK_CONTROL, 0x002e), self.0.spec_hci_bytes())
    }

    fn size(&self) -> (r: usize) {
        self.0.size() + 3
    }

    fn write_hci(&self, out: &mut Vec<u8>) {
        write_cmd_packet(Opcode::new(OpcodeGroup::new(LINK_CONTROL), 0x002e), &self.0, out);
    }
}

impl SyncCmd for UserPasskeyRequestReply {
    type Return = BdAddr;
    type Handle = ();

    open spec fn spec_handle_ok(data: Seq<u8>, h: ()) -> bool {
        true
    }

    open spec fn spec_handle_err(data: Seq<u8>, e: FromHciBytesError) -> bool {
        false
    }

    open spec fn spec_return_ok(data: Seq<u8>, v: BdAddr) -> bool {
        spec_decodes_complete::<BdAddr>(data, v)
    }

    open spec fn spec_return_err(data: Seq<u8>, e: FromHciBytesError) -> bool {
        spec_decode_complete_err::<BdAddr>(data, e)
    }

    fn param_handle(&self) -> (r: ())
        ensures
            r == (),
    {
    }

    fn return_handle(data: &[u8]) -> (r: Result<(), FromHciBytesError>) {
        Ok(())
    }

    fn return_from_hci_bytes(data: &[u8]) -> (r: Result<BdAddr, FromHciBytesError>) {
        <BdAddr as FromHciBytes>::from_hci_bytes_complete(data)
    }
}

/// The UserPasskeyRequestNegativeReply command (group LINK_CONTROL, command 0x002f).
#[derive(Debug, Clone, Copy, PartialEq, Eq, PartialOrd, Ord, Hash)]
pub struct UserPasskeyRequestNegativeReply(BdAddr);

impl UserPasskeyRequestNegativeReply {
    /// Create a new instance of the command with the provided parameters.
    pub fn new(param: BdAddr) -> (r: Self)
        ensures
            r.spec_params() == param,
    {
        UserPasskeyRequestNegativeReply(param)
    }

    /// This command's opcode is group LINK_CONTROL, command 0x002f: 0x042f.
    pub proof fn lemma_opcode()
        ensures
            Self::spec_opcode() == 0x042f,
    {
        lemma_opcode_value(LINK_CONTROL, 0x002f);
    }
}

impl Cmd for UserPasskeyRequestNegativeReply {
    type Params = BdAddr;

    open spec fn spec_opcode() -> u16 {
        spec_opcode_raw(LINK_CONTROL, 0x002f)
    }

    closed spec fn spec_params(&self) -> BdAddr {
        self.0
    }

    fn opcode() -> (r: Opcode) {
        Opcode::new(OpcodeGroup::new(LINK_CONTROL), 0x002f)
    }

    fn params(&self) -> (r: &BdAddr) {
        &self.0
    }

    proof fn lemma_packet(&self) {
    }
}

impl WriteHci for UserPasskeyRequestNegativeReply {
    closed spec fn spec_hci_bytes(&self) -> Seq<u8> {
        spec_cmd_packet(spec_opcode_raw(LINK_CONTROL, 0x002f), self.0.spec_hci_bytes())
    }

    fn size(&self) -> (r: usize) {
        self.0.size() + 3
    }

    fn write_hci(&self, out: &mut Vec<u8>) {
        write_cmd_packet(Opcode::new(OpcodeGroup::new(LINK_CONTROL), 0x002f), &self.0, out);
    }
}

impl SyncCmd for UserPasskeyRequestNegativeReply {
    type Return = BdAddr;
    type Handle = ();

    open spec fn spec_handle_ok(data: Seq<u8>, h: ()) -> bool {
        true
    }

    open spec fn spec_handle_err(data: Seq<u8>, e: FromHciBytesError) -> bool {
        false
    }

    open spec fn spec_return_ok(data: Seq<u8>, v: BdAddr) -> bool {
        spec_decodes_complete::<BdAddr>(data, v)
    }

    open spec fn spec_return_err(data: Seq<u8>, e: FromHciBytesError) -> bool {
        spec_decode_complete_err::<BdAddr>(data, e)
    }

    fn param_handle(&self) -> (r: ())
        ensures
            r == (),
    {
    }

    fn return_handle(data: &[u8]) -> (r: Result<(), FromHciBytesError>) {
        Ok(())
    }

    fn return_from_hci_bytes(data: &[u8]) -> (r: Result<BdAddr, FromHciBytesError>) {
        <BdAddr as FromHciBytes>::from_hci_bytes_complete(data)
    }
}

/// Parameters for the [`RemoteOobDataRequestReply`] command.
#[derive(Debug, Clone, Copy, PartialEq, Eq, PartialOrd, Ord, Hash)]
#[allow(missing_docs)]
pub struct RemoteOobDataRequestReplyParams {
    pub bd_addr: BdAddr,
    pub c: [u8; 16],
    pub r: [u8; 16],
}

/// The value of a [`RemoteOobDataRequestReplyParams`], with byte slices taken as sequences.
#[allow(missing_docs)]
pub struct RemoteOobDataRequestReplyParamsView {
    pub bd_addr: Seq<u8>,
    pub c: Seq<u8>,
    pub r: Seq<u8>,
}

impl View for RemoteOobDataRequestReplyParams {
    type V = RemoteOobDataRequestReplyParamsView;

    open spec fn view(&self) -> RemoteOobDataRequestReplyParamsView {
        RemoteOobDataRequestReplyParamsView { bd_addr: self.bd_addr@, c: self.c@, r: self.r@ }
    }
}

impl WriteHci for RemoteOobDataRequestReplyParams {
    open spec fn spec_hci_bytes(&self) -> Seq<u8> {
        self.bd_addr.spec_hci_bytes() + self.c.spec_hci_bytes() + self.r.spec_hci_bytes()
    }

    fn size(&self) -> (r: usize) {
        let mut n = self.bd_addr.size();
        proof {
            assert(self.bd_addr.spec_hci_bytes() + self.c.spec_hci_bytes() =~= (self.bd_addr.spec_hci_bytes() + self.c.spec_hci_bytes()));
        }
        n = n + self.c.size();
        proof {
            assert(self.bd_addr.spec_hci_bytes() + self.c.spec_hci_bytes() + self.r.spec_hci_bytes() =~= (self.bd_addr.spec_hci_bytes() + self.c.spec_hci_bytes() + self.r.spec_hci_bytes()));
        }
        n = n + self.r.size();
        n
    }

    fn write_hci(&self, out: &mut Vec<u8>) {
        self.bd_addr.write_hci(out);
        self.c.write_hci(out);
        self.r.write_hci(out);
        proof {
            assert(out@ =~= old(out)@ + self.spec_hci_bytes());
        }
    }
}

impl RemoteOobDataRequestReplyParams {
    /// The bytes of a `RemoteOobDataRequestReplyParams` are the bytes of its fields, one after the
    /// other, in the order in which the fields are declared.
    pub proof fn lemma_fields_in_order(&self)
        ensures
            self.spec_hci_bytes() == self.bd_addr.spec_hci_bytes() + self.c.spec_hci_bytes() + self.r.spec_hci_bytes(),
    {
    }
}


/// The RemoteOobDataRequestReply command (group LINK_CONTROL, command 0x0030).
#[derive(Debug, Clone, Copy, PartialEq, Eq, PartialOrd, Ord, Hash)]
pub struct RemoteOobDataRequestReply(RemoteOobDataRequestReplyParams);

impl RemoteOobDataRequestReply {
    /// Create a new instance of the command.
    pub fn new(bd_addr: BdAddr, c: [u8; 16], r: [u8; 16]) -> (result: Self)
        ensures
            result.spec_params() == (RemoteOobDataRequestReplyParams { bd_addr: bd_addr, c: c, r: r }),
    {
        RemoteOobDataRequestReply(RemoteOobDataRequestReplyParams { bd_addr: bd_addr, c: c, r: r })
    }

    /// This command's opcode is group LINK_CONTROL, command 0x0030: 0x0430.
    pub proof fn lemma_opcode()
        ensures
            Self::spec_opcode() == 0x0430,
    {
        lemma_opcode_value(LINK_CONTROL, 0x0030);
    }
}

impl Cmd for RemoteOobDataRequestReply {
    type Params = RemoteOobDataRequestReplyParams;

    open spec fn spec_opcode() -> u16 {
        spec_opcode_raw(LINK_CONTROL, 0x0030)
    }

    closed spec fn spec_params(&self) -> RemoteOobDataRequestReplyParams {
        self.0
    }

    fn opcode() -> (r: Opcode) {
        Opcode::new(OpcodeGroup::new(LINK_CONTROL), 0x0030)
    }

    fn params(&self) -> (r: &RemoteOobDataRequestReplyParams) {
        &self.0
    }

    proof fn lemma_packet(&self) {
    }
}

impl WriteHci for RemoteOobDataRequestReply {
    closed spec fn spec_hci_bytes(&self) -> Seq<u8> {
        spec_cmd_packet(spec_opcode_raw(LINK_CONTROL, 0x0030), self.0.spec_hci_bytes())
    }

    fn size(&self) -> (r: usize) {
        self.0.size() + 3
    }

    fn write_hci(&self, out: &mut Vec<u8>) {
        write_cmd_packet(Opcode::new(OpcodeGroup::new(LINK_CONTROL), 0x0030), &self.0, out);
    }
}

impl SyncCmd for RemoteOobDataRequestReply {
    type Return = BdAddr;
    type Handle = ();

    open spec fn spec_handle_ok(data: Seq<u8>, h: ()) -> bool {
        true
    }

    open spec fn spec_handle_err(data: Seq<u8>, e: FromHciBytesError) -> bool {
        false
    }

    open spec fn spec_return_ok(data: Seq<u8>, v: BdAddr) -> bool {
        spec_decodes_complete::<BdAddr>(data, v)
    }

    open spec fn spec_return_err(data: Seq<u8>, e: FromHciBytesError) -> bool {
        spec_decode_complete_err::<BdAddr>(data, e)
    }

    fn param_handle(&self) -> (r: ())
        ensures
            r == (),
    {
    }

    fn return_handle(data: &[u8]) -> (r: Result<(), FromHciBytesError>) {
        Ok(())
    }

    fn return_from_hci_bytes(data: &[u8]) -> (r: Result<BdAddr, FromHciBytesError>) {
        <BdAddr as FromHciBytes>::from_hci_bytes_complete(data)
    }
}

/// The RemoteOobDataRequestNegativeReply command (group LINK_CONTROL, command 0x0033).
#[derive(Debug, Clone, Copy, PartialEq, Eq, PartialOrd, Ord, Hash)]
pub struct RemoteOobDataRequestNegativeReply(BdAddr);

impl RemoteOobDataRequestNegativeReply {
    /// Create a new instance of the command with the provided parameters.
    pub fn new(param: BdAddr) -> (r: Self)
        ensures
            r.spec_params() == param,
    {
        RemoteOobDataRequestNegativeReply(param)
    }

    /// This command's opcode is group LINK_CONTROL, command 0x0033: 0x0433.
    pub proof fn lemma_opcode()
        ensures
            Self::spec_opcode() == 0x0433,
    {
        lemma_opcode_value(LINK_CONTROL, 0x0033);
    }
}

impl Cmd for RemoteOobDataRequestNegativeReply {
    type Params = BdAddr;

    open spec fn spec_opcode() -> u16 {
        spec_opcode_raw(LINK_CONTROL, 0x0033)
    }

    closed spec fn spec_params(&self) -> BdAddr {
        self.0
    }

    fn opcode() -> (r: Opcode) {
        Opcode::new(OpcodeGroup::new(LINK_CONTROL), 0x0033)
    }

    fn params(&self) -> (r: &BdAddr) {
        &self.0
    }

    proof fn lemma_packet(&self) {
    }
}

impl WriteHci for RemoteOobDataRequestNegativeReply {
    closed spec fn spec_hci_bytes(&self) -> Seq<u8> {
        spec_cmd_packet(spec_opcode_raw(LINK_CONTROL, 0x0033), self.0.spec_hci_bytes())
    }

    fn size(&self) -> (r: usize) {
        self.0.size() + 3
    }

    fn write_hci(&self, out: &mut Vec<u8>) {
        write_cmd_packet(Opcode::new(OpcodeGroup::new(LINK_CONTROL), 0x0033), &self.0, out);
    }
}

impl SyncCmd for RemoteOobDataRequestNegativeReply {
    type Return = BdAddr;
    type Handle = ();

    open spec fn spec_handle_ok(data: Seq<u8>, h: ()) -> bool {
        true
    }

    open spec fn spec_handle_err(data: Seq<u8>, e: FromHciBytesError) -> bool {
        false
    }

    open spec fn spec_return_ok(data: Seq<u8>, v: BdAddr) -> bool {
        spec_decodes_complete::<BdAddr>(data, v)
    }

    open spec fn spec_return_err(data: Seq<u8>, e: FromHciBytesError) -> bool {
        spec_decode_complete_err::<BdAddr>(data, e)
    }

    fn param_handle(&self) -> (r: ())
        ensures
            r == (),
    {
    }

    fn return_handle(data: &[u8]) -> (r: Result<(), FromHciBytesError>) {
        Ok(())
    }

    fn return_from_hci_bytes(data: &[u8]) -> (r: Result<BdAddr, FromHciBytesError>) {
        <BdAddr as FromHciBytes>::from_hci_bytes_complete(data)
    }
}

/// Parameters for the [`IoCapabilityRequestNegativeReply`] command.
#[derive(Debug, Clone, Copy, PartialEq, Eq, PartialOrd, Ord, Hash)]
#[allow(missing_docs)]
pub struct IoCapabilityRequestNegativeReplyParams {
    pub bd_addr: BdAddr,
    pub reason: Status,
}

/// The value of a [`IoCapabilityRequestNegativeReplyParams`], with byte slices taken as sequences.
#[allow(missing_docs)]
pub struct IoCapabilityRequestNegativeReplyParamsView {
    pub bd_addr: Seq<u8>,
    pub reason: u8,
}

impl View for IoCapabilityRequestNegativeReplyParams {
    type V = IoCapabilityRequestNegativeReplyParamsView;

    open spec fn view(&self) -> IoCapabilityRequestNegativeReplyParamsView {
        IoCapabilityRequestNegativeReplyParamsView { bd_addr: self.bd_addr@, reason: self.reason@ }
    }
}

impl WriteHci for IoCapabilityRequestNegativeReplyParams {
    open spec fn spec_hci_bytes(&self) -> Seq<u8> {
        self.bd_addr.spec_hci_bytes() + self.reason.spec_hci_bytes()
    }

    fn size(&self) -> (r: usize) {
        let mut n = self.bd_addr.size();
        proof {
            assert(self.bd_addr.spec_hci_bytes() + self.reason.spec_hci_bytes() =~= (self.bd_addr.spec_hci_bytes() + self.reason.spec_hci_bytes()));
        }
        n = n + self.reason.size();
        n
    }

    fn write_hci(&self, out: &mut Vec<u8>) {
        self.bd_addr.write_hci(out);
        self.reason.write_hci(out);
        proof {
            assert(out@ =~= old(out)@ + self.spec_hci_bytes());
        }
    }
}

impl IoCapabilityRequestNegativeReplyParams {
    /// The bytes of a `IoCapabilityRequestNegativeReplyParams` are the bytes of its fields, one after the
    /// other, in the order in which the fields are declared.
    pub proof fn lemma_fields_in_order(&self)
        ensures
            self.spec_hci_bytes() == self.bd_addr.spec_hci_bytes() + self.reason.spec_hci_bytes(),
    {
    }
}


/// The IoCapabilityRequestNegativeReply command (group LINK_CONTROL, command 0x0034).
#[derive(Debug, Clone, Copy, PartialEq, Eq, PartialOrd, Ord, Hash)]
pub struct IoCapabilityRequestNegativeReply(IoCapabilityRequestNegativeReplyParams);

impl IoCapabilityRequestNegativeReply {
    /// Create a new instance of the command.
    pub fn new(bd_addr: BdAddr, reason: Status) -> (result: Self)
        ensures
            result.spec_params() == (IoCapabilityRequestNegativeReplyParams { bd_addr: bd_addr, reason: reason }),
    {
        IoCapabilityRequestNegativeReply(IoCapabilityRequestNegativeReplyParams { bd_addr: bd_addr, reason: reason })
    }

    /// This command's opcode is group LINK_CONTROL, command 0x0034: 0x0434.
    pub proof fn lemma_opcode()
        ensures
            Self::spec_opcode() == 0x0434,
    {
        lemma_opcode_value(LINK_CONTROL, 0x0034);
    }
}

impl Cmd for IoCapabilityRequestNegativeReply {
    type Params = IoCapabilityRequestNegativeReplyParams;

    open spec fn spec_opcode() -> u16 {
        spec_opcode_raw(LINK_CONTROL, 0x0034)
    }

    closed spec fn spec_params(&self) -> IoCapabilityRequestNegativeReplyParams {
        self.0
    }

    fn opcode() -> (r: Opcode) {
        Opcode::new(OpcodeGroup::new(LINK_CONTROL), 0x0034)
    }

    fn params(&self) -> (r: &IoCapabilityRequestNegativeReplyParams) {
        &self.0
    }

    proof fn lemma_packet(&self) {
    }
}

impl WriteHci for IoCapabilityRequestNegativeReply {
    closed spec fn spec_hci_bytes(&self) -> Seq<u8> {
        spec_cmd_packet(spec_opcode_raw(LINK_CONTROL, 0x0034), self.0.spec_hci_bytes())
    }

    fn size(&self) -> (r: usize) {
        self.0.size() + 3
    }

    fn write_hci(&self, out: &mut Vec<u8>) {
        write_cmd_packet(Opcode::new(OpcodeGroup::new(LINK_CONTROL), 0x0034), &self.0, out);
    }
}

impl SyncCmd for IoCapabilityRequestNegativeReply {
    type Return = BdAddr;
    type Handle = ();

    open spec fn spec_handle_ok(data: Seq<u8>, h: ()) -> bool {
        true
    }

    open spec fn spec_handle_err(data: Seq<u8>, e: FromHciBytesError) -> bool {
        false
    }

    open spec fn spec_return_ok(data: Seq<u8>, v: BdAddr) -> bool {
        spec_decodes_complete::<BdAddr>(data, v)
    }

    open spec fn spec_return_err(data: Seq<u8>, e: FromHciBytesError) -> bool {
        spec_decode_complete_err::<BdAddr>(data, e)
    }

    fn param_handle(&self) -> (r: ())
        ensures
            r == (),
    {
    }

    fn return_handle(data: &[u8]) -> (r: Result<(), FromHciBytesError>) {
        Ok(())
    }

    fn return_from_hci_bytes(data: &[u8]) -> (r: Result<BdAddr, FromHciBytesError>) {
        <BdAddr as FromHciBytes>::from_hci_bytes_complete(data)
    }
}

/// The EnhancedSetupSynchronousConnection command (group LINK_CONTROL, command 0x003d).
#[derive(Debug, Clone, Copy, PartialEq, Eq, PartialOrd, Ord, Hash)]
pub struct EnhancedSetupSynchronousConnection(EnhancedSetupSynchronousConnectionParams);

impl EnhancedSetupSynchronousConnection {
    /// Create a new instance of the command with the provided parameters.
    pub fn new(param: EnhancedSetupSynchronousConnectionParams) -> (r: Self)
        ensures
            r.spec_params() == param,
    {
        EnhancedSetupSynchronousConnection(param)
    }

    /// This command's opcode is group LINK_CONTROL, command 0x003d: 0x043d.
    pub proof fn lemma_opcode()
        ensures
            Self::spec_opcode() == 0x043d,
    {
        lemma_opcode_value(LINK_CONTROL, 0x003d);
    }
}

impl Cmd for EnhancedSetupSynchronousConnection {
    type Params = EnhancedSetupSynchronousConnectionParams;

    open spec fn spec_opcode() -> u16 {
        spec_opcode_raw(LINK_CONTROL, 0x003d)
    }

    closed spec fn spec_params(&self) -> EnhancedSetupSynchronousConnectionParams {
        self.0
    }

    fn opcode() -> (r: Opcode) {
        Opcode::new(OpcodeGroup::new(LINK_CONTROL), 0x003d)
    }

    fn params(&self) -> (r: &EnhancedSetupSynchronousConnectionParams) {
        &self.0
    }

    proof fn lemma_packet(&self) {
    }
}

impl WriteHci for EnhancedSetupSynchronousConnection {
    closed spec fn spec_hci_bytes(&self) -> Seq<u8> {
        spec_cmd_packet(spec_opcode_raw(LINK_CONTROL, 0x003d), self.0.spec_hci_bytes())
    }

    fn size(&self) -> (r: usize) {
        self.0.size() + 3
    }

    fn write_hci(&self, out: &mut Vec<u8>) {
        write_cmd_packet(Opcode::new(OpcodeGroup::new(LINK_CONTROL), 0x003d), &self.0, out);
    }
}

impl SyncCmd for EnhancedSetupSynchronousConnection {
    type Return = ();
    type Handle = ();

    open spec fn spec_handle_ok(data: Seq<u8>, h: ()) -> bool {
        true
    }

    open spec fn spec_handle_err(data: Seq<u8>, e: FromHciBytesError) -> bool {
        false
    }

    open spec fn spec_return_ok(data: Seq<u8>, v: ()) -> bool {
        spec_decodes_complete::<()>(data, v)
    }

    open spec fn spec_return_err(data: Seq<u8>, e: FromHciBytesError) -> bool {
        spec_decode_complete_err::<()>(data, e)
    }

    fn param_handle(&self) -> (r: ())
        ensures
            r == (),
    {
    }

    fn return_handle(data: &[u8]) -> (r: Result<(), FromHciBytesError>) {
        Ok(())
    }

    fn return_from_hci_bytes(data: &[u8]) -> (r: Result<(), FromHciBytesError>) {
        <() as FromHciBytes>::from_hci_bytes_complete(data)
    }
}

/// The EnhancedAcceptSynchronousConnectionRequest command (group LINK_CONTROL, command 0x003e).
#[derive(Debug, Clone, Copy, PartialEq, Eq, PartialOrd, Ord, Hash)]
pub struct EnhancedAcceptSynchronousConnectionRequest(EnhancedAcceptSynchronousConnectionRequestParams);

impl EnhancedAcceptSynchronousConnectionRequest {
    /// Create a new instance of the command with the provided parameters.
    pub fn new(param: EnhancedAcceptSynchronousConnectionRequestParams) -> (r: Self)
        ensures
            r.spec_params() == param,
    {
        EnhancedAcceptSynchronousConnectionRequest(param)
    }

    /// This command's opcode is group LINK_CONTROL, command 0x003e: 0x043e.
    pub proof fn lemma_opcode()
        ensures
            Self::spec_opcode() == 0x043e,
    {
        lemma_opcode_value(LINK_CONTROL, 0x003e);
    }
}

impl Cmd for EnhancedAcceptSynchronousConnectionRequest {
    type Params = EnhancedAcceptSynchronousConnectionRequestParams;

    open spec fn spec_opcode() -> u16 {
        spec_opcode_raw(LINK_CONTROL, 0x003e)
    }

    closed spec fn spec_params(&self) -> EnhancedAcceptSynchronousConnectionRequestParams {
        self.0
    }

    fn opcode() -> (r: Opcode) {
        Opcode::new(OpcodeGroup::new(LINK_CONTROL), 0x003e)
    }

    fn params(&self) -> (r: &EnhancedAcceptSynchronousConnectionRequestParams) {
        &self.0
    }

    proof fn lemma_packet(&self) {
    }
}

impl WriteHci for EnhancedAcceptSynchronousConnectionRequest {
    closed spec fn spec_hci_bytes(&self) -> Seq<u8> {
        spec_cmd_packet(spec_opcode_raw(LINK_CONTROL, 0x003e), self.0.spec_hci_bytes())
    }

    fn size(&self) -> (r: usize) {
        self.0.size() + 3
    }

    fn write_hci(&self, out: &mut Vec<u8>) {
        write_cmd_packet(Opcode::new(OpcodeGroup::new(LINK_CONTROL), 0x003e), &self.0, out);
    }
}

impl SyncCmd for EnhancedAcceptSynchronousConnectionRequest {
    type Return = ();
    type Handle = ();

    open spec fn spec_handle_ok(data: Seq<u8>, h: ()) -> bool {
        true
    }

    open spec fn spec_handle_err(data: Seq<u8>, e: FromHciBytesError) -> bool {
        false
    }

    open spec fn spec_return_ok(data: Seq<u8>, v: ()) -> bool {
        spec_decodes_complete::<()>(data, v)
    }

    open spec fn spec_return_err(data: Seq<u8>, e: FromHciBytesError) -> bool {
        spec_decode_complete_err::<()>(data, e)
    }

    fn param_handle(&self) -> (r: ())
        ensures
            r == (),
    {
    }

    fn return_handle(data: &[u8]) -> (r: Result<(), FromHciBytesError>) {
        Ok(())
    }

    fn return_from_hci_bytes(data: &[u8]) -> (r: Result<(), FromHciBytesError>) {
        <() as FromHciBytes>::from_hci_bytes_complete(data)
    }
}

/// Parameters for the [`TruncatedPage`] command.
#[derive(Debug, Clone, Copy, PartialEq, Eq, PartialOrd, Ord, Hash)]
#[allow(missing_docs)]
pub struct TruncatedPageParams {
    pub bd_addr: BdAddr,
    pub page_scan_repetition_mode: PageScanRepetitionMode,
    pub clock_offset: ClockOffset,
}

/// The value of a [`TruncatedPageParams`], with byte slices taken as sequences.
#[allow(missing_docs)]
pub struct TruncatedPageParamsView {
    pub bd_addr: Seq<u8>,
    pub page_scan_repetition_mode: PageScanRepetitionMode,
    pub clock_offset: Seq<u8>,
}

impl View for TruncatedPageParams {
    type V = TruncatedPageParamsView;

    open spec fn view(&self) -> TruncatedPageParamsView {
        TruncatedPageParamsView { bd_addr: self.bd_addr@, page_scan_repetition_mode: self.page_scan_repetition_mode@, clock_offset: self.clock_offset@ }
    }
}

impl WriteHci for TruncatedPageParams {
    open spec fn spec_hci_bytes(&self) -> Seq<u8> {
        self.bd_addr.spec_hci_bytes() + self.page_scan_repetition_mode.spec_hci_bytes() + self.clock_offset.spec_hci_bytes()
    }

    fn size(&self) -> (r: usize) {
        let mut n = self.bd_addr.size();
        proof {
            assert(self.bd_addr.spec_hci_bytes() + self.page_scan_repetition_mode.spec_hci_bytes() =~= (self.bd_addr.spec_hci_bytes() + self.page_scan_repetition_mode.spec_hci_bytes()));
        }
        n = n + self.page_scan_repetition_mode.size();
        proof {
            assert(self.bd_addr.spec_hci_bytes() + self.page_scan_repetition_mode.spec_hci_bytes() + self.clock_offset.spec_hci_bytes() =~= (self.bd_addr.spec_hci_bytes() + self.page_scan_repetition_mode.spec_hci_bytes() + self.clock_offset.spec_hci_bytes()));
        }
        n = n + self.clock_offset.size();
        n
    }

    fn write_hci(&self, out: &mut Vec<u8>) {
        self.bd_addr.write_hci(out);
        self.page_scan_repetition_mode.write_hci(out);
        self.clock_offset.write_hci(out);
        proof {
            assert(out@ =~= old(out)@ + self.spec_hci_bytes());
        }
    }
}

impl TruncatedPageParams {
    /// The bytes of a `TruncatedPageParams` are the bytes of its fields, one after the
    /// other, in the order in which the fields are declared.
    pub proof fn lemma_fields_in_order(&self)
        ensures
            self.spec_hci_bytes() == self.bd_addr.spec_hci_bytes() + self.page_scan_repetition_mode.spec_hci_bytes() + self.clock_offset.spec_hci_bytes(),
    {
    }
}


/// The TruncatedPage command (group LINK_CONTROL, command 0x003f).
#[derive(Debug, Clone, Copy, PartialEq, Eq, PartialOrd, Ord, Hash)]
pub struct TruncatedPage(TruncatedPageParams);

impl TruncatedPage {
    /// Create a new instance of the command.
    pub fn new(bd_addr: BdAddr, page_scan_repetition_mode: PageScanRepetitionMode, clock_offset: ClockOffset) -> (result: Self)
        ensures
            result.spec_params() == (TruncatedPageParams { bd_addr: bd_addr, page_scan_repetition_mode: page_scan_repetition_mode, clock_offset: clock_offset }),
    {
        TruncatedPage(TruncatedPageParams { bd_addr: bd_addr, page_scan_repetition_mode: page_scan_repetition_mode, clock_offset: clock_offset })
    }

    /// This command's opcode is group LINK_CONTROL, command 0x003f: 0x043f.
    pub proof fn lemma_opcode()
        ensures
            Self::spec_opcode() == 0x043f,
    {
        lemma_opcode_value(LINK_CONTROL, 0x003f);
    }
}

impl Cmd for TruncatedPage {
    type Params = TruncatedPageParams;

    open spec fn spec_opcode() -> u16 {
        spec_opcode_raw(LINK_CONTROL, 0x003f)
    }

    closed spec fn spec_params(&self) -> TruncatedPageParams {
        self.0
    }

    fn opcode() -> (r: Opcode) {
        Opcode::new(OpcodeGroup::new(LINK_CONTROL), 0x003f)
    }

    fn params(&self) -> (r: &TruncatedPageParams) {
        &self.0
    }

    proof fn lemma_packet(&self) {
    }
}

impl WriteHci for TruncatedPage {
    closed spec fn spec_hci_bytes(&self) -> Seq<u8> {
        spec_cmd_packet(spec_opcode_raw(LINK_CONTROL, 0x003f), self.0.spec_hci_bytes())
    }

    fn size(&self) -> (r: usize) {
        self.0.size() + 3
    }

    fn write_hci(&self, out: &mut Vec<u8>) {
        write_cmd_packet(Opcode::new(OpcodeGroup::new(LINK_CONTROL), 0x003f), &self.0, out);
    }
}

impl SyncCmd for TruncatedPage {
    type Return = ();
    type Handle = ();

    open spec fn spec_handle_ok(data: Seq<u8>, h: ()) -> bool {
        true
    }

    open spec fn spec_handle_err(data: Seq<u8>, e: FromHciBytesError) -> bool {
        false
    }

    open spec fn spec_return_ok(data: Seq<u8>, v: ()) -> bool {
        spec_decodes_complete::<()>(data, v)
    }

    open spec fn spec_return_err(data: Seq<u8>, e: FromHciBytesError) -> bool {
        spec_decode_complete_err::<()>(data, e)
    }

    fn param_handle(&self) -> (r: ())
        ensures
            r == (),
    {
    }

    fn return_handle(data: &[u8]) -> (r: Result<(), FromHciBytesError>) {
        Ok(())
    }

    fn return_from_hci_bytes(data: &[u8]) -> (r: Result<(), FromHciBytesError>) {
        <() as FromHciBytes>::from_hci_bytes_complete(data)
    }
}

/// The TruncatedPageCancel command (group LINK_CONTROL, command 0x0040).
#[derive(Debug, Clone, Copy, PartialEq, Eq, PartialOrd, Ord, Hash)]
pub struct TruncatedPageCancel(BdAddr);

impl TruncatedPageCancel {
    /// Create a new instance of the command with the provided parameters.
    pub fn new(param: BdAddr) -> (r: Self)
        ensures
            r.spec_params() == param,
    {
        TruncatedPageCancel(param)
    }

    /// This command's opcode is group LINK_CONTROL, command 0x0040: 0x0440.
    pub proof fn lemma_opcode()
        ensures
            Self::spec_opcode() == 0x0440,
    {
        lemma_opcode_value(LINK_CONTROL, 0x0040);
    }
}

impl Cmd for TruncatedPageCancel {
    type Params = BdAddr;

    open spec fn spec_opcode() -> u16 {
        spec_opcode_raw(LINK_CONTROL, 0x0040)
    }

    closed spec fn spec_params(&self) -> BdAddr {
        self.0
    }

    fn opcode() -> (r: Opcode) {
        Opcode::new(OpcodeGroup::new(LINK_CONTROL), 0x0040)
    }

    fn params(&self) -> (r: &BdAddr) {
        &self.0
    }

    proof fn lemma_packet(&self) {
    }
}

impl WriteHci for TruncatedPageCancel {
    closed spec fn spec_hci_bytes(&self) -> Seq<u8> {
        spec_cmd_packet(spec_opcode_raw(LINK_CONTROL, 0x0040), self.0.spec_hci_bytes())
    }

    fn size(&self) -> (r: usize) {
        self.0.size() + 3
    }

    fn write_hci(&self, out: &mut Vec<u8>) {
        write_cmd_packet(Opcode::new(OpcodeGroup::new(LINK_CONTROL), 0x0040), &self.0, out);
    }
}

impl SyncCmd for TruncatedPageCancel {
    type Return = BdAddr;
    type Handle = ();

    open spec fn spec_handle_ok(data: Seq<u8>, h: ()) -> bool {
        true
    }

    open spec fn spec_handle_err(data: Seq<u8>, e: FromHciBytesError) -> bool {
        false
    }

    open spec fn spec_return_ok(data: Seq<u8>, v: BdAddr) -> bool {
        spec_decodes_complete::<BdAddr>(data, v)
    }

    open spec fn spec_return_err(data: Seq<u8>, e: FromHciBytesError) -> bool {
        spec_decode_complete_err::<BdAddr>(data, e)
    }

    fn param_handle(&self) -> (r: ())
        ensures
            r == (),
    {
    }

    fn return_handle(data: &[u8]) -> (r: Result<(), FromHciBytesError>) {
        Ok(())
    }

    fn return_from_hci_bytes(data: &[u8]) -> (r: Result<BdAddr, FromHciBytesError>) {
        <BdAddr as FromHciBytes>::from_hci_bytes_complete(data)
    }
}

/// Parameters for the [`SetConnectionlessPeripheralBroadcast`] command.
#[derive(Debug, Clone, Copy, PartialEq, Eq, PartialOrd, Ord, Hash)]
#[allow(missing_docs)]
pub struct SetConnectionlessPeripheralBroadcastParams {
    pub enable: bool,
    pub lt_addr: u8,
    pub lpo_allowed: bool,
    pub packet_type: PacketType,
    pub interval_min: u16,
    pub interval_max: u16,
    pub supervision_timeout: u16,
}

/// The value of a [`SetConnectionlessPeripheralBroadcastParams`], with byte slices taken as sequences.
#[allow(missing_docs)]
pub struct SetConnectionlessPeripheralBroadcastParamsView {
    pub enable: bool,
    pub lt_addr: u8,
    pub lpo_allowed: bool,
    pub packet_type: Seq<u8>,
    pub interval_min: u16,
    pub interval_max: u16,
    pub supervision_timeout: u16,
}

impl View for SetConnectionlessPeripheralBroadcastParams {
    type V = SetConnectionlessPeripheralBroadcastParamsView;

    open spec fn view(&self) -> SetConnectionlessPeripheralBroadcastParamsView {
        SetConnectionlessPeripheralBroadcastParamsView { enable: self.enable@, lt_addr: self.lt_addr@, lpo_allowed: self.lpo_allowed@, packet_type: self.packet_type@, interval_min: self.interval_min@, interval_max: self.interval_max@, supervision_timeout: self.supervision_timeout@ }
    }
}

impl WriteHci for SetConnectionlessPeripheralBroadcastParams {
    open spec fn spec_hci_bytes(&self) -> Seq<u8> {
        self.enable.spec_hci_bytes() + self.lt_addr.spec_hci_bytes() + self.lpo_allowed.spec_hci_bytes() + self.packet_type.spec_hci_bytes() + self.interval_min.spec_hci_bytes() + self.interval_max.spec_hci_bytes() + self.supervision_timeout.spec_hci_bytes()
    }

    fn size(&self) -> (r: usize) {
        let mut n = self.enable.size();
        proof {
            assert(self.enable.spec_hci_bytes() + self.lt_addr.spec_hci_bytes() =~= (self.enable.spec_hci_bytes() + self.lt_addr.spec_hci_bytes()));
        }
        n = n + self.lt_addr.size();
        proof {
            assert(self.enable.spec_hci_bytes() + self.lt_addr.spec_hci_bytes() + self.lpo_allowed.spec_hci_bytes() =~= (self.enable.spec_hci_bytes() + self.lt_addr.spec_hci_bytes() + self.lpo_allowed.spec_hci_bytes()));
        }
        n = n + self.lpo_allowed.size();
        proof {
            assert(self.enable.spec_hci_bytes() + self.lt_addr.spec_hci_bytes() + self.lpo_allowed.spec_hci_bytes() + self.packet_type.spec_hci_bytes() =~= (self.enable.spec_hci_bytes() + self.lt_addr.spec_hci_bytes() + self.lpo_allowed.spec_hci_bytes() + self.packet_type.spec_hci_bytes()));
        }
        n = n + self.packet_type.size();
        proof {
            assert(self.enable.spec_hci_bytes() + self.lt_addr.spec_hci_bytes() + self.lpo_allowed.spec_hci_bytes() + self.packet_type.spec_hci_bytes() + self.interval_min.spec_hci_bytes() =~= (self.enable.spec_hci_bytes() + self.lt_addr.spec_hci_bytes() + self.lpo_allowed.spec_hci_bytes() + self.packet_type.spec_hci_bytes() + self.interval_min.spec_hci_bytes()));
        }
        n = n + self.interval_min.size();
        proof {
            assert(self.enable.spec_hci_bytes() + self.lt_addr.spec_hci_bytes() + self.lpo_allowed.spec_hci_bytes() + self.packet_type.spec_hci_bytes() + self.interval_min.spec_hci_bytes() + self.interval_max.spec_hci_bytes() =~= (self.enable.spec_hci_bytes() + self.lt_addr.spec_hci_bytes() + self.lpo_allowed.spec_hci_bytes() + self.packet_type.spec_hci_bytes() + self.interval_min.spec_hci_bytes() + self.interval_max.spec_hci_bytes()));
        }
        n = n + self.interval_max.size();
        proof {
            assert(self.enable.spec_hci_bytes() + self.lt_addr.spec_hci_bytes() + self.lpo_allowed.spec_hci_bytes() + self.packet_type.spec_hci_bytes() + self.interval_min.spec_hci_bytes() + self.interval_max.spec_hci_bytes() + self.supervision_timeout.spec_hci_bytes() =~= (self.enable.spec_hci_bytes() + self.lt_addr.spec_hci_bytes() + self.lpo_allowed.spec_hci_bytes() + self.packet_type.spec_hci_bytes() + self.interval_min.spec_hci_bytes() + self.interval_max.spec_hci_bytes() + self.supervision_timeout.spec_hci_bytes()));
        }
        n = n + self.supervision_timeout.size();
        n
    }

    fn write_hci(&self, out: &mut Vec<u8>) {
        self.enable.write_hci(out);
        self.lt_addr.write_hci(out);
        self.lpo_allowed.write_hci(out);
        self.packet_type.write_hci(out);
        self.interval_min.write_hci(out);
        self.interval_max.write_hci(out);
        self.supervision_timeout.write_hci(out);
        proof {
            assert(out@ =~= old(out)@ + self.spec_hci_bytes());
        }
    }
}

impl SetConnectionlessPeripheralBroadcastParams {
    /// The bytes of a `SetConnectionlessPeripheralBroadcastParams` are the bytes of its fields, one after the
    /// other, in the order in which the fields are declared.
    pub proof fn lemma_fields_in_order(&self)
        ensures
            self.spec_hci_bytes() == self.enable.spec_hci_bytes() + self.lt_addr.spec_hci_bytes() + self.lpo_allowed.spec_hci_bytes() + self.packet_type.spec_hci_bytes() + self.interval_min.spec_hci_bytes() + self.interval_max.spec_hci_bytes() + self.supervision_timeout.spec_hci_bytes(),
    {
    }
}


/// Return parameters for the [`SetConnectionlessPeripheralBroadcast`] command.
#[derive(Debug, Clone, Copy, PartialEq, Eq, PartialOrd, Ord, Hash)]
#[allow(missing_docs)]
pub struct SetConnectionlessPeripheralBroadcastReturn {
    pub lt_addr: u8,
    pub interval: u16,
}

/// The value of a [`SetConnectionlessPeripheralBroadcastReturn`], with byte slices taken as sequences.
#[allow(missing_docs)]
pub struct SetConnectionlessPeripheralBroadcastReturnView {
    pub lt_addr: u8,
    pub interval: u16,
}

impl View for SetConnectionlessPeripheralBroadcastReturn {
    type V = SetConnectionlessPeripheralBroadcastReturnView;

    open spec fn view(&self) -> SetConnectionlessPeripheralBroadcastReturnView {
        SetConnectionlessPeripheralBroadcastReturnView { lt_addr: self.lt_addr@, interval: self.interval@ }
    }
}

impl<'de> FromHciBytes<'de> for SetConnectionlessPeripheralBroadcastReturn {
    open spec fn spec_from_hci_bytes(data: Seq<u8>) -> Result<(SetConnectionlessPeripheralBroadcastReturnView, nat), FromHciBytesError> {
        if data.len() < 3 {
            Err(FromHciBytesError::InvalidSize)
        } else {
            match <u8 as FromHciBytes<'de>>::spec_from_hci_bytes(data) {
                Err(e) => Err(e),
                Ok((v_lt_addr, n_lt_addr)) => {
                    match <u16 as FromHciBytes<'de>>::spec_from_hci_bytes(data.skip(n_lt_addr as int)) {
                        Err(e) => Err(e),
                        Ok((v_interval, n_interval)) => {
                            Ok((SetConnectionlessPeripheralBroadcastReturnView { lt_addr: v_lt_addr, interval: v_interval }, (n_lt_addr + n_interval) as nat))
                        },
                    }
                },
            }
        }
    }

    fn from_hci_bytes(data: &'de [u8]) -> (r: Result<(SetConnectionlessPeripheralBroadcastReturn, &'de [u8]), FromHciBytesError>) {
        if data.len() < 3 {
            return Err(FromHciBytesError::InvalidSize);
        }
        let (v_lt_addr, rest_lt_addr) = match <u8 as FromHciBytes<'de>>::from_hci_bytes(data) {
            Ok(x) => x,
            Err(e) => return Err(e),
        };
        let (v_interval, rest_interval) = match <u16 as FromHciBytes<'de>>::from_hci_bytes(rest_lt_addr) {
            Ok(x) => x,
            Err(e) => return Err(e),
        };
        proof {
            lemma_skip_skip(data@, (data@.len() - rest_lt_addr@.len()) as int, (rest_lt_addr@.len() - rest_interval@.len()) as int);
        }
        Ok((SetConnectionlessPeripheralBroadcastReturn { lt_addr: v_lt_addr, interval: v_interval }, rest_interval))
    }
}

impl WriteHci for SetConnectionlessPeripheralBroadcastReturn {
    open spec fn spec_hci_bytes(&self) -> Seq<u8> {
        self.lt_addr.spec_hci_bytes() + self.interval.spec_hci_bytes()
    }

    fn size(&self) -> (r: usize) {
        let mut n = self.lt_addr.size();
        proof {
            assert(self.lt_addr.spec_hci_bytes() + self.interval.spec_hci_bytes() =~= (self.lt_addr.spec_hci_bytes() + self.interval.spec_hci_bytes()));
        }
        n = n + self.interval.size();
        n
    }

    fn write_hci(&self, out: &mut Vec<u8>) {
        self.lt_addr.write_hci(out);
        self.interval.write_hci(out);
        proof {
            assert(out@ =~= old(out)@ + self.spec_hci_bytes());
        }
    }
}

impl SetConnectionlessPeripheralBroadcastReturn {
    /// The bytes of a `SetConnectionlessPeripheralBroadcastReturn` are the bytes of its fields, one after the
    /// other, in the order in which the fields are declared.
    pub proof fn lemma_fields_in_order(&self)
        ensures
            self.spec_hci_bytes() == self.lt_addr.spec_hci_bytes() + self.interval.spec_hci_bytes(),
    {
    }
}

impl FixedSizeValue for SetConnectionlessPeripheralBroadcastReturn {
    open spec fn spec_size() -> nat {
        3
    }

    proof fn lemma_fixed_size(&self) {
        self.lt_addr.lemma_fixed_size();
        self.interval.lemma_fixed_size();
    }
}

impl<'de> HciCodec<'de> for SetConnectionlessPeripheralBroadcastReturn {
    open spec fn spec_encodable(&self) -> bool {
        self.lt_addr.spec_encodable() && self.interval.spec_encodable()
    }

    proof fn lemma_write_then_read(&self, rest: Seq<u8>) {
        self.lt_addr.lemma_fixed_size();
        self.interval.lemma_fixed_size();
        let t_interval = self.interval.spec_hci_bytes() + rest;
        let t_lt_addr = self.lt_addr.spec_hci_bytes() + t_interval;
        assert(self.spec_hci_bytes() + rest =~= t_lt_addr);
        self.lt_addr.lemma_write_then_read(t_interval);
        self.interval.lemma_write_then_read(rest);
        assert(t_lt_addr.skip(self.lt_addr.spec_hci_bytes().len() as int) =~= t_interval);
    }
}

/// The SetConnectionlessPeripheralBroadcast command (group LINK_CONTROL, command 0x0041).
#[derive(Debug, Clone, Copy, PartialEq, Eq, PartialOrd, Ord, Hash)]
pub struct SetConnectionlessPeripheralBroadcast(SetConnectionlessPeripheralBroadcastParams);

impl SetConnectionlessPeripheralBroadcast {
    /// Create a new instance of the command.
    pub fn new(enable: bool, lt_addr: u8, lpo_allowed: bool, packet_type: PacketType, interval_min: u16, interval_max: u16, supervision_timeout: u16) -> (result: Self)
        ensures
            result.spec_params() == (SetConnectionlessPeripheralBroadcastParams { enable: enable, lt_addr: lt_addr, lpo_allowed: lpo_allowed, packet_type: packet_type, interval_min: interval_min, interval_max: interval_max, supervision_timeout: supervision_timeout }),
    {
        SetConnectionlessPeripheralBroadcast(SetConnectionlessPeripheralBroadcastParams { enable: enable, lt_addr: lt_addr, lpo_allowed: lpo_allowed, packet_type: packet_type, interval_min: interval_min, interval_max: interval_max, supervision_timeout: supervision_timeout })
    }

    /// This command's opcode is group LINK_CONTROL, command 0x0041: 0x0441.
    pub proof fn lemma_opcode()
        ensures
            Self::spec_opcode() == 0x0441,
    {
        lemma_opcode_value(LINK_CONTROL, 0x0041);
    }
}

impl Cmd for SetConnectionlessPeripheralBroadcast {
    type Params = SetConnectionlessPeripheralBroadcastParams;

    open spec fn spec_opcode() -> u16 {
        spec_opcode_raw(LINK_CONTROL, 0x0041)
    }

    closed spec fn spec_params(&self) -> SetConnectionlessPeripheralBroadcastParams {
        self.0
    }

    fn opcode() -> (r: Opcode) {
        Opcode::new(OpcodeGroup::new(LINK_CONTROL), 0x0041)
    }

    fn params(&self) -> (r: &SetConnectionlessPeripheralBroadcastParams) {
        &self.0
    }

    proof fn lemma_packet(&self) {
    }
}

impl WriteHci for SetConnectionlessPeripheralBroadcast {
    closed spec fn spec_hci_bytes(&self) -> Seq<u8> {
        spec_cmd_packet(spec_opcode_raw(LINK_CONTROL, 0x0041), self.0.spec_hci_bytes())
    }

    fn size(&self) -> (r: usize) {
        self.0.size() + 3
    }

    fn write_hci(&self, out: &mut Vec<u8>) {
        write_cmd_packet(Opcode::new(OpcodeGroup::new(LINK_CONTROL), 0x0041), &self.0, out);
    }
}

impl SyncCmd for SetConnectionlessPeripheralBroadcast {
    type Return = SetConnectionlessPeripheralBroadcastReturn;
    type Handle = ();

    open spec fn spec_handle_ok(data: Seq<u8>, h: ()) -> bool {
        true
    }

    open spec fn spec_handle_err(data: Seq<u8>, e: FromHciBytesError) -> bool {
        false
    }

    open spec fn spec_return_ok(data: Seq<u8>, v: SetConnectionlessPeripheralBroadcastReturn) -> bool {
        spec_decodes_complete::<SetConnectionlessPeripheralBroadcastReturn>(data, v)
    }

    open spec fn spec_return_err(data: Seq<u8>, e: FromHciBytesError) -> bool {
        spec_decode_complete_err::<SetConnectionlessPeripheralBroadcastReturn>(data, e)
    }

    fn param_handle(&self) -> (r: ())
        ensures
            r == (),
    {
    }

    fn return_handle(data: &[u8]) -> (r: Result<(), FromHciBytesError>) {
        Ok(())
    }

    fn return_from_hci_bytes(data: &[u8]) -> (r: Result<SetConnectionlessPeripheralBroadcastReturn, FromHciBytesError>) {
        <SetConnectionlessPeripheralBroadcastReturn as FromHciBytes>::from_hci_bytes_complete(data)
    }
}

/// Parameters for the [`SetConnectionlessPeripheralBroadcastReceive`] command.
#[derive(Debug, Clone, Copy, PartialEq, Eq, PartialOrd, Ord, Hash)]
#[allow(missing_docs)]
pub struct SetConnectionlessPeripheralBroadcastReceiveParams {
    pub enable: bool,
    pub bd_addr: BdAddr,
    pub lt_addr: u8,
    pub interval: u16,
    pub clock_offset: u32,
    pub next_broadcast_instant: u32,
    pub supervision_timeout: u16,
    pub remote_timing_accuracy: u8,
    pub skip: u8,
    pub packet_type: PacketType,
    pub afh_channel_map: [u8; 10],
}

/// The value of a [`SetConnectionlessPeripheralBroadcastReceiveParams`], with byte slices taken as sequences.
#[allow(missing_docs)]
pub struct SetConnectionlessPeripheralBroadcastReceiveParamsView {
    pub enable: bool,
    pub bd_addr: Seq<u8>,
    pub lt_addr: u8,
    pub interval: u16,
    pub clock_offset: u32,
    pub next_broadcast_instant: u32,
    pub supervision_timeout: u16,
    pub remote_timing_accuracy: u8,
    pub skip: u8,
    pub packet_type: Seq<u8>,
    pub afh_channel_map: Seq<u8>,
}

impl View for SetConnectionlessPeripheralBroadcastReceiveParams {
    type V = SetConnectionlessPeripheralBroadcastReceiveParamsView;

    open spec fn view(&self) -> SetConnectionlessPeripheralBroadcastReceiveParamsView {
        SetConnectionlessPeripheralBroadcastReceiveParamsView { enable: self.enable@, bd_addr: self.bd_addr@, lt_addr: self.lt_addr@, interval: self.interval@, clock_offset: self.clock_offset@, next_broadcast_instant: self.next_broadcast_instant@, supervision_timeout: self.supervision_timeout@, remote_timing_accuracy: self.remote_timing_accuracy@, skip: self.skip@, packet_type: self.packet_type@, afh_channel_map: self.afh_channel_map@ }
    }
}

impl WriteHci for SetConnectionlessPeripheralBroadcastReceiveParams {
    open spec fn spec_hci_bytes(&self) -> Seq<u8> {
        self.enable.spec_hci_bytes() + self.bd_addr.spec_hci_bytes() + self.lt_addr.spec_hci_bytes() + self.interval.spec_hci_bytes() + self.clock_offset.spec_hci_bytes() + self.next_broadcast_instant.spec_hci_bytes() + self.supervision_timeout.spec_hci_bytes() + self.remote_timing_accuracy.spec_hci_bytes() + self.skip.spec_hci_bytes() + self.packet_type.spec_hci_bytes() + self.afh_channel_map.spec_hci_bytes()
    }

    fn size(&self) -> (r: usize) {
        let mut n = self.enable.size();
        proof {
            assert(self.enable.spec_hci_bytes() + self.bd_addr.spec_hci_bytes() =~= (self.enable.spec_hci_bytes() + self.bd_addr.spec_hci_bytes()));
        }
        n = n + self.bd_addr.size();
        proof {
            assert(self.enable.spec_hci_bytes() + self.bd_addr.spec_hci_bytes() + self.lt_addr.spec_hci_bytes() =~= (self.enable.spec_hci_bytes() + self.bd_addr.spec_hci_bytes() + self.lt_addr.spec_hci_bytes()));
        }
        n = n + self.lt_addr.size();
        proof {
            assert(self.enable.spec_hci_bytes() + self.bd_addr.spec_hci_bytes() + self.lt_addr.spec_hci_bytes() + self.interval.spec_hci_bytes() =~= (self.enable.spec_hci_bytes() + self.bd_addr.spec_hci_bytes() + self.lt_addr.spec_hci_bytes() + self.interval.spec_hci_bytes()));
        }
        n = n + self.interval.size();
        proof {
            assert(self.enable.spec_hci_bytes() + self.bd_addr.spec_hci_bytes() + self.lt_addr.spec_hci_bytes() + self.interval.spec_hci_bytes() + self.clock_offset.spec_hci_bytes() =~= (self.enable.spec_hci_bytes() + self.bd_addr.spec_hci_bytes() + self.lt_addr.spec_hci_bytes() + self.interval.spec_hci_bytes() + self.clock_offset.spec_hci_bytes()));
        }
        n = n + self.clock_offset.size();
        proof {
            assert(self.enable.spec_hci_bytes() + self.bd_addr.spec_hci_bytes() + self.lt_addr.spec_hci_bytes() + self.interval.spec_hci_bytes() + self.clock_offset.spec_hci_bytes() + self.next_broadcast_instant.spec_hci_bytes() =~= (self.enable.spec_hci_bytes() + self.bd_addr.spec_hci_bytes() + self.lt_addr.spec_hci_bytes() + self.interval.spec_hci_bytes() + self.clock_offset.spec_hci_bytes() + self.next_broadcast_instant.spec_hci_bytes()));
        }
        n = n + self.next_broadcast_instant.size();
        proof {
            assert(self.enable.spec_hci_bytes() + self.bd_addr.spec_hci_bytes() + self.lt_addr.spec_hci_bytes() + self.interval.spec_hci_bytes() + self.clock_offset.spec_hci_bytes() + self.next_broadcast_instant.spec_hci_bytes() + self.supervision_timeout.spec_hci_bytes() =~= (self.enable.spec_hci_bytes() + self.bd_addr.spec_hci_bytes() + self.lt_addr.spec_hci_bytes() + self.interval.spec_hci_bytes() + self.clock_offset.spec_hci_bytes() + self.next_broadcast_instant.spec_hci_bytes() + self.supervision_timeout.spec_hci_bytes()));
        }
        n = n + self.supervision_timeout.size();
        proof {
            assert(self.enable.spec_hci_bytes() + self.bd_addr.spec_hci_bytes() + self.lt_addr.spec_hci_bytes() + self.interval.spec_hci_bytes() + self.clock_offset.spec_hci_bytes() + self.next_broadcast_instant.spec_hci_bytes() + self.supervision_timeout.spec_hci_bytes() + self.remote_timing_accuracy.spec_hci_bytes() =~= (self.enable.spec_hci_bytes() + self.bd_addr.spec_hci_bytes() + self.lt_addr.spec_hci_bytes() + self.interval.spec_hci_bytes() + self.clock_offset.spec_hci_bytes() + self.next_broadcast_instant.spec_hci_bytes() + self.supervision_timeout.spec_hci_bytes() + self.remote_timing_accuracy.spec_hci_bytes()));
        }
        n = n + self.remote_timing_accuracy.size();
        proof {
            assert(self.enable.spec_hci_bytes() + self.bd_addr.spec_hci_bytes() + self.lt_addr.spec_hci_bytes() + self.interval.spec_hci_bytes() + self.clock_offset.spec_hci_bytes() + self.next_broadcast_instant.spec_hci_bytes() + self.supervision_timeout.spec_hci_bytes() + self.remote_timing_accuracy.spec_hci_bytes() + self.skip.spec_hci_bytes() =~= (self.enable.spec_hci_bytes() + self.bd_addr.spec_hci_bytes() + self.lt_addr.spec_hci_bytes() + self.interval.spec_hci_bytes() + self.clock_offset.spec_hci_bytes() + self.next_broadcast_instant.spec_hci_bytes() + self.supervision_timeout.spec_hci_bytes() + self.remote_timing_accuracy.spec_hci_bytes() + self.skip.spec_hci_bytes()));
        }
        n = n + self.skip.size();
        proof {
            assert(self.enable.spec_hci_bytes() + self.bd_addr.spec_hci_bytes() + self.lt_addr.spec_hci_bytes() + self.interval.spec_hci_bytes() + self.clock_offset.spec_hci_bytes() + self.next_broadcast_instant.spec_hci_bytes() + self.supervision_timeout.spec_hci_bytes() + self.remote_timing_accuracy.spec_hci_bytes() + self.skip.spec_hci_bytes() + self.packet_type.spec_hci_bytes() =~= (self.enable.spec_hci_bytes() + self.bd_addr.spec_hci_bytes() + self.lt_addr.spec_hci_bytes() + self.interval.spec_hci_bytes() + self.clock_offset.spec_hci_bytes() + self.next_broadcast_instant.spec_hci_bytes() + self.supervision_timeout.spec_hci_bytes() + self.remote_timing_accuracy.spec_hci_bytes() + self.skip.spec_hci_bytes() + self.packet_type.spec_hci_bytes()));
        }
        n = n + self.packet_type.size();
        proof {
            assert(self.enable.spec_hci_bytes() + self.bd_addr.spec_hci_bytes() + self.lt_addr.spec_hci_bytes() + self.interval.spec_hci_bytes() + self.clock_offset.spec_hci_bytes() + self.next_broadcast_instant.spec_hci_bytes() + self.supervision_timeout.spec_hci_bytes() + self.remote_timing_accuracy.spec_hci_bytes() + self.skip.spec_hci_bytes() + self.packet_type.spec_hci_bytes() + self.afh_channel_map.spec_hci_bytes() =~= (self.enable.spec_hci_bytes() + self.bd_addr.spec_hci_bytes() + self.lt_addr.spec_hci_bytes() + self.interval.spec_hci_bytes() + self.clock_offset.spec_hci_bytes() + self.next_broadcast_instant.spec_hci_bytes() + self.supervision_timeout.spec_hci_bytes() + self.remote_timing_accuracy.spec_hci_bytes() + self.skip.spec_hci_bytes() + self.packet_type.spec_hci_bytes() + self.afh_channel_map.spec_hci_bytes()));
        }
        n = n + self.afh_channel_map.size();
        n
    }

    fn write_hci(&self, out: &mut Vec<u8>) {
        self.enable.write_hci(out);
        self.bd_addr.write_hci(out);
        self.lt_addr.write_hci(out);
        self.interval.write_hci(out);
        self.clock_offset.write_hci(out);
        self.next_broadcast_instant.write_hci(out);
        self.supervision_timeout.write_hci(out);
        self.remote_timing_accuracy.write_hci(out);
        self.skip.write_hci(out);
        self.packet_type.write_hci(out);
        self.afh_channel_map.write_hci(out);
        proof {
            assert(out@ =~= old(out)@ + self.spec_hci_bytes());
        }
    }
}

impl SetConnectionlessPeripheralBroadcastReceiveParams {
    /// The bytes of a `SetConnectionlessPeripheralBroadcastReceiveParams` are the bytes of its fields, one after the
    /// other, in the order in which the fields are declared.
    #[verifier::rlimit(60)]
    pub proof fn lemma_fields_in_order(&self)
        ensures
            self.spec_hci_bytes() == self.enable.spec_hci_bytes() + self.bd_addr.spec_hci_bytes() + self.lt_addr.spec_hci_bytes() + self.interval.spec_hci_bytes() + self.clock_offset.spec_hci_bytes() + self.next_broadcast_instant.spec_hci_bytes() + self.supervision_timeout.spec_hci_bytes() + self.remote_timing_accuracy.spec_hci_bytes() + self.skip.spec_hci_bytes() + self.packet_type.spec_hci_bytes() + self.afh_channel_map.spec_hci_bytes(),
    {
    }
}


/// Return parameters for the [`SetConnectionlessPeripheralBroadcastReceive`] command.
#[derive(Debug, Clone, Copy, PartialEq, Eq, PartialOrd, Ord, Hash)]
#[allow(missing_docs)]
pub struct SetConnectionlessPeripheralBroadcastReceiveReturn {
    pub bd_addr: BdAddr,
    pub lt_addr: u8,
}

/// The value of a [`SetConnectionlessPeripheralBroadcastReceiveReturn`], with byte slices taken as sequences.
#[allow(missing_docs)]
pub struct SetConnectionlessPeripheralBroadcastReceiveReturnView {
    pub bd_addr: Seq<u8>,
    pub lt_addr: u8,
}

impl View for SetConnectionlessPeripheralBroadcastReceiveReturn {
    type V = SetConnectionlessPeripheralBroadcastReceiveReturnView;

    open spec fn view(&self) -> SetConnectionlessPeripheralBroadcastReceiveReturnView {
        SetConnectionlessPeripheralBroadcastReceiveReturnView { bd_addr: self.bd_addr@, lt_addr: self.lt_addr@ }
    }
}

impl<'de> FromHciBytes<'de> for SetConnectionlessPeripheralBroadcastReceiveReturn {
    open spec fn spec_from_hci_bytes(data: Seq<u8>) -> Result<(SetConnectionlessPeripheralBroadcastReceiveReturnView, nat), FromHciBytesError> {
        if data.len() < 7 {
            Err(FromHciBytesError::InvalidSize)
        } else {
            match <BdAddr as FromHciBytes<'de>>::spec_from_hci_bytes(data) {
                Err(e) => Err(e),
                Ok((v_bd_addr, n_bd_addr)) => {
                    match <u8 as FromHciBytes<'de>>::spec_from_hci_bytes(data.skip(n_bd_addr as int)) {
                        Err(e) => Err(e),
                        Ok((v_lt_addr, n_lt_addr)) => {
                            Ok((SetConnectionlessPeripheralBroadcastReceiveReturnView { bd_addr: v_bd_addr, lt_addr: v_lt_addr }, (n_bd_addr + n_lt_addr) as nat))
                        },
                    }
                },
            }
        }
    }

    fn from_hci_bytes(data: &'de [u8]) -> (r: Result<(SetConnectionlessPeripheralBroadcastReceiveReturn, &'de [u8]), FromHciBytesError>) {
        if data.len() < 7 {
            return Err(FromHciBytesError::InvalidSize);
        }
        let (v_bd_addr, rest_bd_addr) = match <BdAddr as FromHciBytes<'de>>::from_hci_bytes(data) {
            Ok(x) => x,
            Err(e) => return Err(e),
        };
        let (v_lt_addr, rest_lt_addr) = match <u8 as FromHciBytes<'de>>::from_hci_bytes(rest_bd_addr) {
            Ok(x) => x,
            Err(e) => return Err(e),
        };
        proof {
            lemma_skip_skip(data@, (data@.len() - rest_bd_addr@.len()) as int, (rest_bd_addr@.len() - rest_lt_addr@.len()) as int);
        }
        Ok((SetConnectionlessPeripheralBroadcastReceiveReturn { bd_addr: v_bd_addr, lt_addr: v_lt_addr }, rest_lt_addr))
    }
}

impl WriteHci for SetConnectionlessPeripheralBroadcastReceiveReturn {
    open spec fn spec_hci_bytes(&self) -> Seq<u8> {
        self.bd_addr.spec_hci_bytes() + self.lt_addr.spec_hci_bytes()
    }

    fn size(&self) -> (r: usize) {
        let mut n = self.bd_addr.size();
        proof {
            assert(self.bd_addr.spec_hci_bytes() + self.lt_addr.spec_hci_bytes() =~= (self.bd_addr.spec_hci_bytes() + self.lt_addr.spec_hci_bytes()));
        }
        n = n + self.lt_addr.size();
        n
    }

    fn write_hci(&self, out: &mut Vec<u8>) {
        self.bd_addr.write_hci(out);
        self.lt_addr.write_hci(out);
        proof {
            assert(out@ =~= old(out)@ + self.spec_hci_bytes());
        }
    }
}

impl SetConnectionlessPeripheralBroadcastReceiveReturn {
    /// The bytes of a `SetConnectionlessPeripheralBroadcastReceiveReturn` are the bytes of its fields, one after the
    /// other, in the order in which the fields are declared.
    pub proof fn lemma_fields_in_order(&self)
        ensures
            self.spec_hci_bytes() == self.bd_addr.spec_hci_bytes() + self.lt_addr.spec_hci_bytes(),
    {
    }
}

impl FixedSizeValue for SetConnectionlessPeripheralBroadcastReceiveReturn {
    open spec fn spec_size() -> nat {
        7
    }

    proof fn lemma_fixed_size(&self) {
        self.bd_addr.lemma_fixed_size();
        self.lt_addr.lemma_fixed_size();
    }
}

impl<'de> HciCodec<'de> for SetConnectionlessPeripheralBroadcastReceiveReturn {
    open spec fn spec_encodable(&self) -> bool {
        self.bd_addr.spec_encodable() && self.lt_addr.spec_encodable()
    }

    proof fn lemma_write_then_read(&self, rest: Seq<u8>) {
        self.bd_addr.lemma_fixed_size();
        self.lt_addr.lemma_fixed_size();
        let t_lt_addr = self.lt_addr.spec_hci_bytes() + rest;
        let t_bd_addr = self.bd_addr.spec_hci_bytes() + t_lt_addr;
        assert(self.spec_hci_bytes() + rest =~= t_bd_addr);
        self.bd_addr.lemma_write_then_read(t_lt_addr);
        self.lt_addr.lemma_write_then_read(rest);
        assert(t_bd_addr.skip(self.bd_addr.spec_hci_bytes().len() as int) =~= t_lt_addr);
    }
}

/// The SetConnectionlessPeripheralBroadcastReceive command (group LINK_CONTROL, command 0x0042).
#[derive(Debug, Clone, Copy, PartialEq, Eq, PartialOrd, Ord, Hash)]
pub struct SetConnectionlessPeripheralBroadcastReceive(SetConnectionlessPeripheralBroadcastReceiveParams);

impl SetConnectionlessPeripheralBroadcastReceive {
    /// Create a new instance of the command.
    pub fn new(enable: bool, bd_addr: BdAddr, lt_addr: u8, interval: u16, clock_offset: u32, next_broadcast_instant: u32, supervision_timeout: u16, remote_timing_accuracy: u8, skip: u8, packet_type: PacketType, afh_channel_map: [u8; 10]) -> (result: Self)
        ensures
            result.spec_params() == (SetConnectionlessPeripheralBroadcastReceiveParams { enable: enable, bd_addr: bd_addr, lt_addr: lt_addr, interval: interval, clock_offset: clock_offset, next_broadcast_instant: next_broadcast_instant, supervision_timeout: supervision_timeout, remote_timing_accuracy: remote_timing_accuracy, skip: skip, packet_type: packet_type, afh_channel_map: afh_channel_map }),
    {
        SetConnectionlessPeripheralBroadcastReceive(SetConnectionlessPeripheralBroadcastReceiveParams { enable: enable, bd_addr: bd_addr, lt_addr: lt_addr, interval: interval, clock_offset: clock_offset, next_broadcast_instant: next_broadcast_instant, supervision_timeout: supervision_timeout, remote_timing_accuracy: remote_timing_accuracy, skip: skip, packet_type: packet_type, afh_channel_map: afh_channel_map })
    }

    /// This command's opcode is group LINK_CONTROL, command 0x0042: 0x0442.
    pub proof fn lemma_opcode()
        ensures
            Self::spec_opcode() == 0x0442,
    {
        lemma_opcode_value(LINK_CONTROL, 0x0042);
    }
}

impl Cmd for SetConnectionlessPeripheralBroadcastReceive {
    type Params = SetConnectionlessPeripheralBroadcastReceiveParams;

    open spec fn spec_opcode() -> u16 {
        spec_opcode_raw(LINK_CONTROL, 0x0042)
    }

    closed spec fn spec_params(&self) -> SetConnectionlessPeripheralBroadcastReceiveParams {
        self.0
    }

    fn opcode() -> (r: Opcode) {
        Opcode::new(OpcodeGroup::new(LINK_CONTROL), 0x0042)
    }

    fn params(&self) -> (r: &SetConnectionlessPeripheralBroadcastReceiveParams) {
        &self.0
    }

    proof fn lemma_packet(&self) {
    }
}

impl WriteHci for SetConnectionlessPeripheralBroadcastReceive {
    closed spec fn spec_hci_bytes(&self) -> Seq<u8> {
        spec_cmd_packet(spec_opcode_raw(LINK_CONTROL, 0x0042), self.0.spec_hci_bytes())
    }

    fn size(&self) -> (r: usize) {
        self.0.size() + 3
    }

    fn write_hci(&self, out: &mut Vec<u8>) {
        write_cmd_packet(Opcode::new(OpcodeGroup::new(LINK_CONTROL), 0x0042), &self.0, out);
    }
}

impl SyncCmd for SetConnectionlessPeripheralBroadcastReceive {
    type Return = SetConnectionlessPeripheralBroadcastReceiveReturn;
    type Handle = ();

    open spec fn spec_handle_ok(data: Seq<u8>, h: ()) -> bool {
        true
    }

    open spec fn spec_handle_err(data: Seq<u8>, e: FromHciBytesError) -> bool {
        false
    }

    open spec fn spec_return_ok(data: Seq<u8>, v: SetConnectionlessPeripheralBroadcastReceiveReturn) -> bool {
        spec_decodes_complete::<SetConnectionlessPeripheralBroadcastReceiveReturn>(data, v)
    }

    open spec fn spec_return_err(data: Seq<u8>, e: FromHciBytesError) -> bool {
        spec_decode_complete_err::<SetConnectionlessPeripheralBroadcastReceiveReturn>(data, e)
    }

    fn param_handle(&self) -> (r: ())
        ensures
            r == (),
    {
    }

    fn return_handle(data: &[u8]) -> (r: Result<(), FromHciBytesError>) {
        Ok(())
    }

    fn return_from_hci_bytes(data: &[u8]) -> (r: Result<SetConnectionlessPeripheralBroadcastReceiveReturn, FromHciBytesError>) {
        <SetConnectionlessPeripheralBroadcastReceiveReturn as FromHciBytes>::from_hci_bytes_complete(data)
    }
}

/// The StartSynchronizationTrain command (group LINK_CONTROL, command 0x0043).
#[derive(Debug, Clone, Copy, PartialEq, Eq, PartialOrd, Ord, Hash, Default)]
pub struct StartSynchronizationTrain(());

impl StartSynchronizationTrain {
    /// Create a new instance of the command.
    pub fn new() -> (r: Self)
        ensures
            r.spec_params() == (),
    {
        StartSynchronizationTrain(())
    }

    /// This command's opcode is group LINK_CONTROL, command 0x0043: 0x0443.
    pub proof fn lemma_opcode()
        ensures
            Self::spec_opcode() == 0x0443,
    {
        lemma_opcode_value(LINK_CONTROL, 0x0043);
    }
}

impl Cmd for StartSynchronizationTrain {
    type Params = ();

    open spec fn spec_opcode() -> u16 {
        spec_opcode_raw(LINK_CONTROL, 0x0043)
    }

    closed spec fn spec_params(&self) -> () {
        self.0
    }

    fn opcode() -> (r: Opcode) {
        Opcode::new(OpcodeGroup::new(LINK_CONTROL), 0x0043)
    }

    fn params(&self) -> (r: &()) {
        &self.0
    }

    proof fn lemma_packet(&self) {
    }
}

impl WriteHci for StartSynchronizationTrain {
    closed spec fn spec_hci_bytes(&self) -> Seq<u8> {
        spec_cmd_packet(spec_opcode_raw(LINK_CONTROL, 0x0043), self.0.spec_hci_bytes())
    }

    fn size(&self) -> (r: usize) {
        self.0.size() + 3
    }

    fn write_hci(&self, out: &mut Vec<u8>) {
        write_cmd_packet(Opcode::new(OpcodeGroup::new(LINK_CONTROL), 0x0043), &self.0, out);
    }
}

impl SyncCmd for StartSynchronizationTrain {
    type Return = ();
    type Handle = ();

    open spec fn spec_handle_ok(data: Seq<u8>, h: ()) -> bool {
        true
    }

    open spec fn spec_handle_err(data: Seq<u8>, e: FromHciBytesError) -> bool {
        false
    }

    open spec fn spec_return_ok(data: Seq<u8>, v: ()) -> bool {
        spec_decodes_complete::<()>(data, v)
    }

    open spec fn spec_return_err(data: Seq<u8>, e: FromHciBytesError) -> bool {
        spec_decode_complete_err::<()>(data, e)
    }

    fn param_handle(&self) -> (r: ())
        ensures
            r == (),
    {
    }

    fn return_handle(data: &[u8]) -> (r: Result<(), FromHciBytesError>) {
        Ok(())
    }

    fn return_from_hci_bytes(data: &[u8]) -> (r: Result<(), FromHciBytesError>) {
        <() as FromHciBytes>::from_hci_bytes_complete(data)
    }
}

/// Parameters for the [`ReceiveSynchronizationTrain`] command.
#[derive(Debug, Clone, Copy, PartialEq, Eq, PartialOrd, Ord, Hash)]
#[allow(missing_docs)]
pub struct ReceiveSynchronizationTrainParams {
    pub bd_addr: BdAddr,
    pub sync_scan_timeout: u16,
    pub sync_scan_window: u16,
    pub sync_scan_interval: u16,
}

/// The value of a [`ReceiveSynchronizationTrainParams`], with byte slices taken as sequences.
#[allow(missing_docs)]
pub struct ReceiveSynchronizationTrainParamsView {
    pub bd_addr: Seq<u8>,
    pub sync_scan_timeout: u16,
    pub sync_scan_window: u16,
    pub sync_scan_interval: u16,
}

impl View for ReceiveSynchronizationTrainParams {
    type V = ReceiveSynchronizationTrainParamsView;

    open spec fn view(&self) -> ReceiveSynchronizationTrainParamsView {
        ReceiveSynchronizationTrainParamsView { bd_addr: self.bd_addr@, sync_scan_timeout: self.sync_scan_timeout@, sync_scan_window: self.sync_scan_window@, sync_scan_interval: self.sync_scan_interval@ }
    }
}

impl WriteHci for ReceiveSynchronizationTrainParams {
    open spec fn spec_hci_bytes(&self) -> Seq<u8> {
        self.bd_addr.spec_hci_bytes() + self.sync_scan_timeout.spec_hci_bytes() + self.sync_scan_window.spec_hci_bytes() + self.sync_scan_interval.spec_hci_bytes()
    }

    fn size(&self) -> (r: usize) {
        let mut n = self.bd_addr.size();
        proof {
            assert(self.bd_addr.spec_hci_bytes() + self.sync_scan_timeout.spec_hci_bytes() =~= (self.bd_addr.spec_hci_bytes() + self.sync_scan_timeout.spec_hci_bytes()));
        }
        n = n + self.sync_scan_timeout.size();
        proof {
            assert(self.bd_addr.spec_hci_bytes() + self.sync_scan_timeout.spec_hci_bytes() + self.sync_scan_window.spec_hci_bytes() =~= (self.bd_addr.spec_hci_bytes() + self.sync_scan_timeout.spec_hci_bytes() + self.sync_scan_window.spec_hci_bytes()));
        }
        n = n + self.sync_scan_window.size();
        proof {
            assert(self.bd_addr.spec_hci_bytes() + self.sync_scan_timeout.spec_hci_bytes() + self.sync_scan_window.spec_hci_bytes() + self.sync_scan_interval.spec_hci_bytes() =~= (self.bd_addr.spec_hci_bytes() + self.sync_scan_timeout.spec_hci_bytes() + self.sync_scan_window.spec_hci_bytes() + self.sync_scan_interval.spec_hci_bytes()));
        }
        n = n + self.sync_scan_interval.size();
        n
    }

    fn write_hci(&self, out: &mut Vec<u8>) {
        self.bd_addr.write_hci(out);
        self.sync_scan_timeout.write_hci(out);
        self.sync_scan_window.write_hci(out);
        self.sync_scan_interval.write_hci(out);
        proof {
            assert(out@ =~= old(out)@ + self.spec_hci_bytes());
        }
    }
}

impl ReceiveSynchronizationTrainParams {
    /// The bytes of a `ReceiveSynchronizationTrainParams` are the bytes of its fields, one after the
    /// other, in the order in which the fields are declared.
    pub proof fn lemma_fields_in_order(&self)
        ensures
            self.spec_hci_bytes() == self.bd_addr.spec_hci_bytes() + self.sync_scan_timeout.spec_hci_bytes() + self.sync_scan_window.spec_hci_bytes() + self.sync_scan_interval.spec_hci_bytes(),
    {
    }
}


/// The ReceiveSynchronizationTrain command (group LINK_CONTROL, command 0x0044).
#[derive(Debug, Clone, Copy, PartialEq, Eq, PartialOrd, Ord, Hash)]
pub struct ReceiveSynchronizationTrain(ReceiveSynchronizationTrainParams);

impl ReceiveSynchronizationTrain {
    /// Create a new instance of the command.
    pub fn new(bd_addr: BdAddr, sync_scan_timeout: u16, sync_scan_window: u16, sync_scan_interval: u16) -> (result: Self)
        ensures
            result.spec_params() == (ReceiveSynchronizationTrainParams { bd_addr: bd_addr, sync_scan_timeout: sync_scan_timeout, sync_scan_window: sync_scan_window, sync_scan_interval: sync_scan_interval }),
    {
        ReceiveSynchronizationTrain(ReceiveSynchronizationTrainParams { bd_addr: bd_addr, sync_scan_timeout: sync_scan_timeout, sync_scan_window: sync_scan_window, sync_scan_interval: sync_scan_interval })
    }

    /// This command's opcode is group LINK_CONTROL, command 0x0044: 0x0444.
    pub proof fn lemma_opcode()
        ensures
            Self::spec_opcode() == 0x0444,
    {
        lemma_opcode_value(LINK_CONTROL, 0x0044);
    }
}

impl Cmd for ReceiveSynchronizationTrain {
    type Params = ReceiveSynchronizationTrainParams;

    open spec fn spec_opcode() -> u16 {
        spec_opcode_raw(LINK_CONTROL, 0x0044)
    }

    closed spec fn spec_params(&self) -> ReceiveSynchronizationTrainParams {
        self.0
    }

    fn opcode() -> (r: Opcode) {
        Opcode::new(OpcodeGroup::new(LINK_CONTROL), 0x0044)
    }

    fn params(&self) -> (r: &ReceiveSynchronizationTrainParams) {
        &self.0
    }

    proof fn lemma_packet(&self) {
    }
}

impl WriteHci for ReceiveSynchronizationTrain {
    closed spec fn spec_hci_bytes(&self) -> Seq<u8> {
        spec_cmd_packet(spec_opcode_raw(LINK_CONTROL, 0x0044), self.0.spec_hci_bytes())
    }

    fn size(&self) -> (r: usize) {
        self.0.size() + 3
    }

    fn write_hci(&self, out: &mut Vec<u8>) {
        write_cmd_packet(Opcode::new(OpcodeGroup::new(LINK_CONTROL), 0x0044), &self.0, out);
    }
}

impl SyncCmd for ReceiveSynchronizationTrain {
    type Return = ();
    type Handle = ();

    open spec fn spec_handle_ok(data: Seq<u8>, h: ()) -> bool {
        true
    }

    open spec fn spec_handle_err(data: Seq<u8>, e: FromHciBytesError) -> bool {
        false
    }

    open spec fn spec_return_ok(data: Seq<u8>, v: ()) -> bool {
        spec_decodes_complete::<()>(data, v)
    }

    open spec fn spec_return_err(data: Seq<u8>, e: FromHciBytesError) -> bool {
        spec_decode_complete_err::<()>(data, e)
    }

    fn param_handle(&self) -> (r: ())
        ensures
            r == (),
    {
    }

    fn return_handle(data: &[u8]) -> (r: Result<(), FromHciBytesError>) {
        Ok(())
    }

    fn return_from_hci_bytes(data: &[u8]) -> (r: Result<(), FromHciBytesError>) {
        <() as FromHciBytes>::from_hci_bytes_complete(data)
    }
}

/// Parameters for the [`RemoteOobExtendedDataRequestReply`] command.
#[derive(Debug, Clone, Copy, PartialEq, Eq, PartialOrd, Ord, Hash)]
#[allow(missing_docs)]
pub struct RemoteOobExtendedDataRequestReplyParams {
    pub bd_addr: BdAddr,
    pub c_192: [u8; 16],
    pub r_192: [u8; 16],
    pub c_256: [u8; 16],
    pub r_256: [u8; 16],
}

/// The value of a [`RemoteOobExtendedDataRequestReplyParams`], with byte slices taken as sequences.
#[allow(missing_docs)]
pub struct RemoteOobExtendedDataRequestReplyParamsView {
    pub bd_addr: Seq<u8>,
    pub c_192: Seq<u8>,
    pub r_192: Seq<u8>,
    pub c_256: Seq<u8>,
    pub r_256: Seq<u8>,
}

impl View for RemoteOobExtendedDataRequestReplyParams {
    type V = RemoteOobExtendedDataRequestReplyParamsView;

    open spec fn view(&self) -> RemoteOobExtendedDataRequestReplyParamsView {
        RemoteOobExtendedDataRequestReplyParamsView { bd_addr: self.bd_addr@, c_192: self.c_192@, r_192: self.r_192@, c_256: self.c_256@, r_256: self.r_256@ }
    }
}

impl WriteHci for RemoteOobExtendedDataRequestReplyParams {
    open spec fn spec_hci_bytes(&self) -> Seq<u8> {
        self.bd_addr.spec_hci_bytes() + self.c_192.spec_hci_bytes() + self.r_192.spec_hci_bytes() + self.c_256.spec_hci_bytes() + self.r_256.spec_hci_bytes()
    }

    fn size(&self) -> (r: usize) {
        let mut n = self.bd_addr.size();
        proof {
            assert(self.bd_addr.spec_hci_bytes() + self.c_192.spec_hci_bytes() =~= (self.bd_addr.spec_hci_bytes() + self.c_192.spec_hci_bytes()));
        }
        n = n + self.c_192.size();
        proof {
            assert(self.bd_addr.spec_hci_bytes() + self.c_192.spec_hci_bytes() + self.r_192.spec_hci_bytes() =~= (self.bd_addr.spec_hci_bytes() + self.c_192.spec_hci_bytes() + self.r_192.spec_hci_bytes()));
        }
        n = n + self.r_192.size();
        proof {
            assert(self.bd_addr.spec_hci_bytes() + self.c_192.spec_hci_bytes() + self.r_192.spec_hci_bytes() + self.c_256.spec_hci_bytes() =~= (self.bd_addr.spec_hci_bytes() + self.c_192.spec_hci_bytes() + self.r_192.spec_hci_bytes() + self.c_256.spec_hci_bytes()));
        }
        n = n + self.c_256.size();
        proof {
            assert(self.bd_addr.spec_hci_bytes() + self.c_192.spec_hci_bytes() + self.r_192.spec_hci_bytes() + self.c_256.spec_hci_bytes() + self.r_256.spec_hci_bytes() =~= (self.bd_addr.spec_hci_bytes() + self.c_192.spec_hci_bytes() + self.r_192.spec_hci_bytes() + self.c_256.spec_hci_bytes() + self.r_256.spec_hci_bytes()));
        }
        n = n + self.r_256.size();
        n
    }

    fn write_hci(&self, out: &mut Vec<u8>) {
        self.bd_addr.write_hci(out);
        self.c_192.write_hci(out);
        self.r_192.write_hci(out);
        self.c_256.write_hci(out);
        self.r_256.write_hci(out);
        proof {
            assert(out@ =~= old(out)@ + self.spec_hci_bytes());
        }
    }
}

impl RemoteOobExtendedDataRequestReplyParams {
    /// The bytes of a `RemoteOobExtendedDataRequestReplyParams` are the bytes of its fields, one after the
    /// other, in the order in which the fields are declared.
    pub proof fn lemma_fields_in_order(&self)
        ensures
            self.spec_hci_bytes() == self.bd_addr.spec_hci_bytes() + self.c_192.spec_hci_bytes() + self.r_192.spec_hci_bytes() + self.c_256.spec_hci_bytes() + self.r_256.spec_hci_bytes(),
    {
    }
}


/// The RemoteOobExtendedDataRequestReply command (group LINK_CONTROL, command 0x0045).
#[derive(Debug, Clone, Copy, PartialEq, Eq, PartialOrd, Ord, Hash)]
pub struct RemoteOobExtendedDataRequestReply(RemoteOobExtendedDataRequestReplyParams);

impl RemoteOobExtendedDataRequestReply {
    /// Create a new instance of the command.
    pub fn new(bd_addr: BdAddr, c_192: [u8; 16], r_192: [u8; 16], c_256: [u8; 16], r_256: [u8; 16]) -> (result: Self)
        ensures
            result.spec_params() == (RemoteOobExtendedDataRequestReplyParams { bd_addr: bd_addr, c_192: c_192, r_192: r_192, c_256: c_256, r_256: r_256 }),
    {
        RemoteOobExtendedDataRequestReply(RemoteOobExtendedDataRequestReplyParams { bd_addr: bd_addr, c_192: c_192, r_192: r_192, c_256: c_256, r_256: r_256 })
    }

    /// This command's opcode is group LINK_CONTROL, command 0x0045: 0x0445.
    pub proof fn lemma_opcode()
        ensures
            Self::spec_opcode() == 0x0445,
    {
        lemma_opcode_value(LINK_CONTROL, 0x0045);
    }
}

impl Cmd for RemoteOobExtendedDataRequestReply {
    type Params = RemoteOobExtendedDataRequestReplyParams;

    open spec fn spec_opcode() -> u16 {
        spec_opcode_raw(LINK_CONTROL, 0x0045)
    }

    closed spec fn spec_params(&self) -> RemoteOobExtendedDataRequestReplyParams {
        self.0
    }

    fn opcode() -> (r: Opcode) {
        Opcode::new(OpcodeGroup::new(LINK_CONTROL), 0x0045)
    }

    fn params(&self) -> (r: &RemoteOobExtendedDataRequestReplyParams) {
        &self.0
    }

    proof fn lemma_packet(&self) {
    }
}

impl WriteHci for RemoteOobExtendedDataRequestReply {
    closed spec fn spec_hci_bytes(&self) -> Seq<u8> {
        spec_cmd_packet(spec_opcode_raw(LINK_CONTROL, 0x0045), self.0.spec_hci_bytes())
    }

    fn size(&self) -> (r: usize) {
        self.0.size() + 3
    }

    fn write_hci(&self, out: &mut Vec<u8>) {
        write_cmd_packet(Opcode::new(OpcodeGroup::new(LINK_CONTROL), 0x0045), &self.0, out);
    }
}

impl SyncCmd for RemoteOobExtendedDataRequestReply {
    type Return = BdAddr;
    type Handle = ();

    open spec fn spec_handle_ok(data: Seq<u8>, h: ()) -> bool {
        true
    }

    open spec fn spec_handle_err(data: Seq<u8>, e: FromHciBytesError) -> bool {
        false
    }

    open spec fn spec_return_ok(data: Seq<u8>, v: BdAddr) -> bool {
        spec_decodes_complete::<BdAddr>(data, v)
    }

    open spec fn spec_return_err(data: Seq<u8>, e: FromHciBytesError) -> bool {
        spec_decode_complete_err::<BdAddr>(data, e)
    }

    fn param_handle(&self) -> (r: ())
        ensures
            r == (),
    {
    }

    fn return_handle(data: &[u8]) -> (r: Result<(), FromHciBytesError>) {
        Ok(())
    }

    fn return_from_hci_bytes(data: &[u8]) -> (r: Result<BdAddr, FromHciBytesError>) {
        <BdAddr as FromHciBytes>::from_hci_bytes_complete(data)
    }
}

} // verus!
