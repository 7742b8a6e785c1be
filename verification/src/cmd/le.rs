//! LE Controller commands.

use vstd::prelude::*;

use crate::{FixedSizeValue, FromHciBytes, FromHciBytesError, HciCodec, WriteHci, parsed, failed, lemma_skip_skip};
use crate::cmd::{
    AsyncCmd, Cmd, Opcode, OpcodeGroup, SyncCmd, spec_cmd_packet, spec_decode_complete_err, spec_decode_prefix_err,
    spec_decodes_complete, spec_decodes_prefix, spec_opcode_raw, write_cmd_packet, lemma_opcode_value,
};
use crate::cmd::{CONTROL_BASEBAND, INFO_PARAMS, LE, LINK_CONTROL, STATUS_PARAMS};
use crate::param::{
    AddrKind, AdvChannelMap, AdvEventProps, AdvFilterPolicy, AdvHandle, AdvKind, AdvPhyOptions,
    AdvSet, AllPhys, AllowRoleSwitch, AuthenticationRequirements, BdAddr, BigHandle, ChannelMap,
    ClockAccuracy, ClockOffset, CmdMask, ConnHandle, ConnHandleCompletedPackets, ConnIntervalGroup,
    ConnectionLinkType, ControllerToHostFlowControl, CoreSpecificationVersion, CteKind, CteMask,
    DataStatus, DisconnectReason, DoneStatus, Duration,
    EnhancedAcceptSynchronousConnectionRequestParams, EnhancedSetupSynchronousConnectionParams,
    Error, EventMask, EventMaskPage2, ExtDuration, ExtendedLmpFeatures, FilterDuplicates,
    FrameSpaceInitiator, FrequencyCompensation, InitiatingPhy, IoCapability, KeyFlag,
    LeAdvEventKind, LeAdvReport, LeAdvReports, LeAdvReportsIter, LeAdvertisingReportParam,
    LeConnRole, LeCsSubeventStepData, LeCsSubeventStepDataIter, LeCsSubeventStepEntry,
    LeDataRelatedAddrChangeReasons, LeEventMask, LeExtAdvDataStatus, LeExtAdvEventKind,
    LeExtAdvReport, LeExtAdvReports, LeExtAdvReportsIter, LeFeatureMask, LeFeatureMaskPage1,
    LePeriodicAdvCreateSyncOptions, LePeriodicAdvReceiveEnable, LePeriodicAdvSubeventData,
    LePeriodicAdvSyncTransferMode, LePeriodicAdvertisingResponseReport,
    LePeriodicAdvertisingResponseReports, LePeriodicAdvertisingResponseReportsIter, LeScanKind,
    LeTxPowerReportingReason, LinkKeyType, LinkType, LmpFeatureMask, LmpFeatureMaskPage1,
    LmpFeatureMaskPage2, OobDataPresent, Operation, PackedAbortReasons, PacketStatus, PacketType,
    PageScanRepetitionMode, PeriodicAdvProps, PhyKind, PhyMask, PhyOptions, PhyParams,
    PowerLevelKind, PrivacyMode, ProcedureAbortReason, RejectReason, RemainingBytes,
    RemoteConnectionParamsRejectReason, RetransmissionEffort, Role, ScanningFilterPolicy,
    ScanningPhy, SpacingTypes, Status, SubeventAbortReason, SwitchingSamplingRates, SyncHandle,
    SyncPacketType, TxStatus, VoiceSetting, ZoneEntered
};

verus! {

/// The LeSetEventMask command (group LE, command 0x0001).
#[derive(Debug, Clone, Copy, PartialEq, Eq, PartialOrd, Ord, Hash)]
pub struct LeSetEventMask(LeEventMask);

impl LeSetEventMask {
    /// Create a new instance of the command with the provided parameters.
    pub fn new(param: LeEventMask) -> (r: Self)
        ensures
            r.spec_params() == param,
    {
        LeSetEventMask(param)
    }

    /// This command's opcode is group LE, command 0x0001: 0x2001.
    pub proof fn lemma_opcode()
        ensures
            Self::spec_opcode() == 0x2001,
    {
        lemma_opcode_value(LE, 0x0001);
    }
}

impl Cmd for LeSetEventMask {
    type Params = LeEventMask;

    open spec fn spec_opcode() -> u16 {
        spec_opcode_raw(LE, 0x0001)
    }

    closed spec fn spec_params(&self) -> LeEventMask {
        self.0
    }

    fn opcode() -> (r: Opcode) {
        Opcode::new(OpcodeGroup::new(LE), 0x0001)
    }

    fn params(&self) -> (r: &LeEventMask) {
        &self.0
    }

    proof fn lemma_packet(&self) {
    }
}

impl WriteHci for LeSetEventMask {
    closed spec fn spec_hci_bytes(&self) -> Seq<u8> {
        spec_cmd_packet(spec_opcode_raw(LE, 0x0001), self.0.spec_hci_bytes())
    }

    fn size(&self) -> (r: usize) {
        self.0.size() + 3
    }

    fn write_hci(&self, out: &mut Vec<u8>) {
        write_cmd_packet(Opcode::new(OpcodeGroup::new(LE), 0x0001), &self.0, out);
    }
}

impl SyncCmd for LeSetEventMask {
    type Return = ();
    type Handle = ();

    open spec fn spec_handle_ok(data: Seq<u8>, h: ()) -> bool {
        true
    }

    open spec fn spec_handle_err(data: Seq<u8>, e: FromHciBytesError) -> bool {
        false
    }

    open spec fn spec_return_ok(data: Seq<u8>, v: ()) -> bool {
        spec_decodes_complete::<()>(data, v)
    }

    open spec fn spec_return_err(data: Seq<u8>, e: FromHciBytesError) -> bool {
        spec_decode_complete_err::<()>(data, e)
    }

    fn param_handle(&self) -> (r: ())
        ensures
            r == (),
    {
    }

    fn return_handle(data: &[u8]) -> (r: Result<(), FromHciBytesError>) {
        Ok(())
    }

    fn return_from_hci_bytes(data: &[u8]) -> (r: Result<(), FromHciBytesError>) {
        <() as FromHciBytes>::from_hci_bytes_complete(data)
    }
}

/// Return parameters for the [`LeReadBufferSize`] command.
#[derive(Debug, Clone, Copy, PartialEq, Eq, PartialOrd, Ord, Hash)]
#[allow(missing_docs)]
pub struct LeReadBufferSizeReturn {
    pub le_acl_data_packet_length: u16,
    pub total_num_le_acl_data_packets: u8,
}

/// The value of a [`LeReadBufferSizeReturn`], with byte slices taken as sequences.
#[allow(missing_docs)]
pub struct LeReadBufferSizeReturnView {
    pub le_acl_data_packet_length: u16,
    pub total_num_le_acl_data_packets: u8,
}

impl View for LeReadBufferSizeReturn {
    type V = LeReadBufferSizeReturnView;

    open spec fn view(&self) -> LeReadBufferSizeReturnView {
        LeReadBufferSizeReturnView { le_acl_data_packet_length: self.le_acl_data_packet_length@, total_num_le_acl_data_packets: self.total_num_le_acl_data_packets@ }
    }
}

impl<'de> FromHciBytes<'de> for LeReadBufferSizeReturn {
    open spec fn spec_from_hci_bytes(data: Seq<u8>) -> Result<(LeReadBufferSizeReturnView, nat), FromHciBytesError> {
        if data.len() < 3 {
            Err(FromHciBytesError::InvalidSize)
        } else {
            match <u16 as FromHciBytes<'de>>::spec_from_hci_bytes(data) {
                Err(e) => Err(e),
                Ok((v_le_acl_data_packet_length, n_le_acl_data_packet_length)) => {
                    match <u8 as FromHciBytes<'de>>::spec_from_hci_bytes(data.skip(n_le_acl_data_packet_length as int)) {
                        Err(e) => Err(e),
                        Ok((v_total_num_le_acl_data_packets, n_total_num_le_acl_data_packets)) => {
                            Ok((LeReadBufferSizeReturnView { le_acl_data_packet_length: v_le_acl_data_packet_length, total_num_le_acl_data_packets: v_total_num_le_acl_data_packets }, (n_le_acl_data_packet_length + n_total_num_le_acl_data_packets) as nat))
                        },
                    }
                },
            }
        }
    }

    fn from_hci_bytes(data: &'de [u8]) -> (r: Result<(LeReadBufferSizeReturn, &'de [u8]), FromHciBytesError>) {
        if data.len() < 3 {
            return Err(FromHciBytesError::InvalidSize);
        }
        let (v_le_acl_data_packet_length, rest_le_acl_data_packet_length) = match <u16 as FromHciBytes<'de>>::from_hci_bytes(data) {
            Ok(x) => x,
            Err(e) => return Err(e),
        };
        let (v_total_num_le_acl_data_packets, rest_total_num_le_acl_data_packets) = match <u8 as FromHciBytes<'de>>::from_hci_bytes(rest_le_acl_data_packet_length) {
            Ok(x) => x,
            Err(e) => return Err(e),
        };
        proof {
            lemma_skip_skip(data@, (data@.len() - rest_le_acl_data_packet_length@.len()) as int, (rest_le_acl_data_packet_length@.len() - rest_total_num_le_acl_data_packets@.len()) as int);
        }
        Ok((LeReadBufferSizeReturn { le_acl_data_packet_length: v_le_acl_data_packet_length, total_num_le_acl_data_packets: v_total_num_le_acl_data_packets }, rest_total_num_le_acl_data_packets))
    }
}

impl WriteHci for LeReadBufferSizeReturn {
    open spec fn spec_hci_bytes(&self) -> Seq<u8> {
        self.le_acl_data_packet_length.spec_hci_bytes() + self.total_num_le_acl_data_packets.spec_hci_bytes()
    }

    fn size(&self) -> (r: usize) {
        let mut n = self.le_acl_data_packet_length.size();
        proof {
            assert(self.le_acl_data_packet_length.spec_hci_bytes() + self.total_num_le_acl_data_packets.spec_hci_bytes() =~= (self.le_acl_data_packet_length.spec_hci_bytes() + self.total_num_le_acl_data_packets.spec_hci_bytes()));
        }
        n = n + self.total_num_le_acl_data_packets.size();
        n
    }

    fn write_hci(&self, out: &mut Vec<u8>) {
        self.le_acl_data_packet_length.write_hci(out);
        self.total_num_le_acl_data_packets.write_hci(out);
        proof {
            assert(out@ =~= old(out)@ + self.spec_hci_bytes());
        }
    }
}

impl LeReadBufferSizeReturn {
    /// The bytes of a `LeReadBufferSizeReturn` are the bytes of its fields, one after the
    /// other, in the order in which the fields are declared.
    pub proof fn lemma_fields_in_order(&self)
        ensures
            self.spec_hci_bytes() == self.le_acl_data_packet_length.spec_hci_bytes() + self.total_num_le_acl_data_packets.spec_hci_bytes(),
    {
    }
}

impl FixedSizeValue for LeReadBufferSizeReturn {
    open spec fn spec_size() -> nat {
        3
    }

    proof fn lemma_fixed_size(&self) {
        self.le_acl_data_packet_length.lemma_fixed_size();
        self.total_num_le_acl_data_packets.lemma_fixed_size();
    }
}

impl<'de> HciCodec<'de> for LeReadBufferSizeReturn {
    open spec fn spec_encodable(&self) -> bool {
        self.le_acl_data_packet_length.spec_encodable() && self.total_num_le_acl_data_packets.spec_encodable()
    }

    proof fn lemma_write_then_read(&self, rest: Seq<u8>) {
        self.le_acl_data_packet_length.lemma_fixed_size();
        self.total_num_le_acl_data_packets.lemma_fixed_size();
        let t_total_num_le_acl_data_packets = self.total_num_le_acl_data_packets.spec_hci_bytes() + rest;
        let t_le_acl_data_packet_length = self.le_acl_data_packet_length.spec_hci_bytes() + t_total_num_le_acl_data_packets;
        assert(self.spec_hci_bytes() + rest =~= t_le_acl_data_packet_length);
        self.le_acl_data_packet_length.lemma_write_then_read(t_total_num_le_acl_data_packets);
        self.total_num_le_acl_data_packets.lemma_write_then_read(rest);
        assert(t_le_acl_data_packet_length.skip(self.le_acl_data_packet_length.spec_hci_bytes().len() as int) =~= t_total_num_le_acl_data_packets);
    }
}

/// The LeReadBufferSize command (group LE, command 0x0002).
#[derive(Debug, Clone, Copy, PartialEq, Eq, PartialOrd, Ord, Hash, Default)]
pub struct LeReadBufferSize(());

impl LeReadBufferSize {
    /// Create a new instance of the command.
    pub fn new() -> (r: Self)
        ensures
            r.spec_params() == (),
    {
        LeReadBufferSize(())
    }

    /// This command's opcode is group LE, command 0x0002: 0x2002.
    pub proof fn lemma_opcode()
        ensures
            Self::spec_opcode() == 0x2002,
    {
        lemma_opcode_value(LE, 0x0002);
    }
}

impl Cmd for LeReadBufferSize {
    type Params = ();

    open spec fn spec_opcode() -> u16 {
        spec_opcode_raw(LE, 0x0002)
    }

    closed spec fn spec_params(&self) -> () {
        self.0
    }

    fn opcode() -> (r: Opcode) {
        Opcode::new(OpcodeGroup::new(LE), 0x0002)
    }

    fn params(&self) -> (r: &()) {
        &self.0
    }

    proof fn lemma_packet(&self) {
    }
}

impl WriteHci for LeReadBufferSize {
    closed spec fn spec_hci_bytes(&self) -> Seq<u8> {
        spec_cmd_packet(spec_opcode_raw(LE, 0x0002), self.0.spec_hci_bytes())
    }

    fn size(&self) -> (r: usize) {
        self.0.size() + 3
    }

    fn write_hci(&self, out: &mut Vec<u8>) {
        write_cmd_packet(Opcode::new(OpcodeGroup::new(LE), 0x0002), &self.0, out);
    }
}

impl SyncCmd for LeReadBufferSize {
    type Return = LeReadBufferSizeReturn;
    type Handle = ();

    open spec fn spec_handle_ok(data: Seq<u8>, h: ()) -> bool {
        true
    }

    open spec fn spec_handle_err(data: Seq<u8>, e: FromHciBytesError) -> bool {
        false
    }

    open spec fn spec_return_ok(data: Seq<u8>, v: LeReadBufferSizeReturn) -> bool {
        spec_decodes_complete::<LeReadBufferSizeReturn>(data, v)
    }

    open spec fn spec_return_err(data: Seq<u8>, e: FromHciBytesError) -> bool {
        spec_decode_complete_err::<LeReadBufferSizeReturn>(data, e)
    }

    fn param_handle(&self) -> (r: ())
        ensures
            r == (),
    {
    }

    fn return_handle(data: &[u8]) -> (r: Result<(), FromHciBytesError>) {
        Ok(())
    }

    fn return_from_hci_bytes(data: &[u8]) -> (r: Result<LeReadBufferSizeReturn, FromHciBytesError>) {
        <LeReadBufferSizeReturn as FromHciBytes>::from_hci_bytes_complete(data)
    }
}

/// The LeReadLocalSupportedFeatures command (group LE, command 0x0003).
#[derive(Debug, Clone, Copy, PartialEq, Eq, PartialOrd, Ord, Hash, Default)]
pub struct LeReadLocalSupportedFeatures(());

impl LeReadLocalSupportedFeatures {
    /// Create a new instance of the command.
    pub fn new() -> (r: Self)
        ensures
            r.spec_params() == (),
    {
        LeReadLocalSupportedFeatures(())
    }

    /// This command's opcode is group LE, command 0x0003: 0x2003.
    pub proof fn lemma_opcode()
        ensures
            Self::spec_opcode() == 0x2003,
    {
        lemma_opcode_value(LE, 0x0003);
    }
}

impl Cmd for LeReadLocalSupportedFeatures {
    type Params = ();

    open spec fn spec_opcode() -> u16 {
        spec_opcode_raw(LE, 0x0003)
    }

    closed spec fn spec_params(&self) -> () {
        self.0
    }

    fn opcode() -> (r: Opcode) {
        Opcode::new(OpcodeGroup::new(LE), 0x0003)
    }

    fn params(&self) -> (r: &()) {
        &self.0
    }

    proof fn lemma_packet(&self) {
    }
}

impl WriteHci for LeReadLocalSupportedFeatures {
    closed spec fn spec_hci_bytes(&self) -> Seq<u8> {
        spec_cmd_packet(spec_opcode_raw(LE, 0x0003), self.0.spec_hci_bytes())
    }

    fn size(&self) -> (r: usize) {
        self.0.size() + 3
    }

    fn write_hci(&self, out: &mut Vec<u8>) {
        write_cmd_packet(Opcode::new(OpcodeGroup::new(LE), 0x0003), &self.0, out);
    }
}

impl SyncCmd for LeReadLocalSupportedFeatures {
    type Return = LeFeatureMask;
    type Handle = ();

    open spec fn spec_handle_ok(data: Seq<u8>, h: ()) -> bool {
        true
    }

    open spec fn spec_handle_err(data: Seq<u8>, e: FromHciBytesError) -> bool {
        false
    }

    open spec fn spec_return_ok(data: Seq<u8>, v: LeFeatureMask) -> bool {
        spec_decodes_complete::<LeFeatureMask>(data, v)
    }

    open spec fn spec_return_err(data: Seq<u8>, e: FromHciBytesError) -> bool {
        spec_decode_complete_err::<LeFeatureMask>(data, e)
    }

    fn param_handle(&self) -> (r: ())
        ensures
            r == (),
    {
    }

    fn return_handle(data: &[u8]) -> (r: Result<(), FromHciBytesError>) {
        Ok(())
    }

    fn return_from_hci_bytes(data: &[u8]) -> (r: Result<LeFeatureMask, FromHciBytesError>) {
        <LeFeatureMask as FromHciBytes>::from_hci_bytes_complete(data)
    }
}

/// The LeSetRandomAddr command (group LE, command 0x0005).
#[derive(Debug, Clone, Copy, PartialEq, Eq, PartialOrd, Ord, Hash)]
pub struct LeSetRandomAddr(BdAddr);

impl LeSetRandomAddr {
    /// Create a new instance of the command with the provided parameters.
    pub fn new(param: BdAddr) -> (r: Self)
        ensures
            r.spec_params() == param,
    {
        LeSetRandomAddr(param)
    }

    /// This command's opcode is group LE, command 0x0005: 0x2005.
    pub proof fn lemma_opcode()
        ensures
            Self::spec_opcode() == 0x2005,
    {
        lemma_opcode_value(LE, 0x0005);
    }
}

impl Cmd for LeSetRandomAddr {
    type Params = BdAddr;

    open spec fn spec_opcode() -> u16 {
        spec_opcode_raw(LE, 0x0005)
    }

    closed spec fn spec_params(&self) -> BdAddr {
        self.0
    }

    fn opcode() -> (r: Opcode) {
        Opcode::new(OpcodeGroup::new(LE), 0x0005)
    }

    fn params(&self) -> (r: &BdAddr) {
        &self.0
    }

    proof fn lemma_packet(&self) {
    }
}

impl WriteHci for LeSetRandomAddr {
    closed spec fn spec_hci_bytes(&self) -> Seq<u8> {
        spec_cmd_packet(spec_opcode_raw(LE, 0x0005), self.0.spec_hci_bytes())
    }

    fn size(&self) -> (r: usize) {
        self.0.size() + 3
    }

    fn write_hci(&self, out: &mut Vec<u8>) {
        write_cmd_packet(Opcode::new(OpcodeGroup::new(LE), 0x0005), &self.0, out);
    }
}

impl SyncCmd for LeSetRandomAddr {
    type Return = ();
    type Handle = ();

    open spec fn spec_handle_ok(data: Seq<u8>, h: ()) -> bool {
        true
    }

    open spec fn spec_handle_err(data: Seq<u8>, e: FromHciBytesError) -> bool {
        false
    }

    open spec fn spec_return_ok(data: Seq<u8>, v: ()) -> bool {
        spec_decodes_complete::<()>(data, v)
    }

    open spec fn spec_return_err(data: Seq<u8>, e: FromHciBytesError) -> bool {
        spec_decode_complete_err::<()>(data, e)
    }

    fn param_handle(&self) -> (r: ())
        ensures
            r == (),
    {
    }

    fn return_handle(data: &[u8]) -> (r: Result<(), FromHciBytesError>) {
        Ok(())
    }

    fn return_from_hci_bytes(data: &[u8]) -> (r: Result<(), FromHciBytesError>) {
        <() as FromHciBytes>::from_hci_bytes_complete(data)
    }
}

/// Parameters for the [`LeSetAdvParams`] command.
#[derive(Debug, Clone, Copy, PartialEq, Eq, PartialOrd, Ord, Hash)]
#[allow(missing_docs)]
pub struct LeSetAdvParamsParams {
    pub adv_interval_min: Duration<625>,
    pub adv_interval_max: Duration<625>,
    pub adv_kind: AdvKind,
    pub own_addr_kind: AddrKind,
    pub peer_addr_kind: AddrKind,
    pub peer_addr: BdAddr,
    pub adv_channel_map: AdvChannelMap,
    pub adv_filter_policy: AdvFilterPolicy,
}

/// The value of a [`LeSetAdvParamsParams`], with byte slices taken as sequences.
#[allow(missing_docs)]
pub struct LeSetAdvParamsParamsView {
    pub adv_interval_min: u16,
    pub adv_interval_max: u16,
    pub adv_kind: AdvKind,
    pub own_addr_kind: u8,
    pub peer_addr_kind: u8,
    pub peer_addr: Seq<u8>,
    pub adv_channel_map: u8,
    pub adv_filter_policy: AdvFilterPolicy,
}

impl View for LeSetAdvParamsParams {
    type V = LeSetAdvParamsParamsView;

    open spec fn view(&self) -> LeSetAdvParamsParamsView {
        LeSetAdvParamsParamsView { adv_interval_min: self.adv_interval_min@, adv_interval_max: self.adv_interval_max@, adv_kind: self.adv_kind@, own_addr_kind: self.own_addr_kind@, peer_addr_kind: self.peer_addr_kind@, peer_addr: self.peer_addr@, adv_channel_map: self.adv_channel_map@, adv_filter_policy: self.adv_filter_policy@ }
    }
}

impl WriteHci for LeSetAdvParamsParams {
    open spec fn spec_hci_bytes(&self) -> Seq<u8> {
        self.adv_interval_min.spec_hci_bytes() + self.adv_interval_max.spec_hci_bytes() + self.adv_kind.spec_hci_bytes() + self.own_addr_kind.spec_hci_bytes() + self.peer_addr_kind.spec_hci_bytes() + self.peer_addr.spec_hci_bytes() + self.adv_channel_map.spec_hci_bytes() + self.adv_filter_policy.spec_hci_bytes()
    }

    fn size(&self) -> (r: usize) {
        let mut n = self.adv_interval_min.size();
        proof {
            assert(self.adv_interval_min.spec_hci_bytes() + self.adv_interval_max.spec_hci_bytes() =~= (self.adv_interval_min.spec_hci_bytes() + self.adv_interval_max.spec_hci_bytes()));
        }
        n = n + self.adv_interval_max.size();
        proof {
            assert(self.adv_interval_min.spec_hci_bytes() + self.adv_interval_max.spec_hci_bytes() + self.adv_kind.spec_hci_bytes() =~= (self.adv_interval_min.spec_hci_bytes() + self.adv_interval_max.spec_hci_bytes() + self.adv_kind.spec_hci_bytes()));
        }
        n = n + self.adv_kind.size();
        proof {
            assert(self.adv_interval_min.spec_hci_bytes() + self.adv_interval_max.spec_hci_bytes() + self.adv_kind.spec_hci_bytes() + self.own_addr_kind.spec_hci_bytes() =~= (self.adv_interval_min.spec_hci_bytes() + self.adv_interval_max.spec_hci_bytes() + self.adv_kind.spec_hci_bytes() + self.own_addr_kind.spec_hci_bytes()));
        }
        n = n + self.own_addr_kind.size();
        proof {
            assert(self.adv_interval_min.spec_hci_bytes() + self.adv_interval_max.spec_hci_bytes() + self.adv_kind.spec_hci_bytes() + self.own_addr_kind.spec_hci_bytes() + self.peer_addr_kind.spec_hci_bytes() =~= (self.adv_interval_min.spec_hci_bytes() + self.adv_interval_max.spec_hci_bytes() + self.adv_kind.spec_hci_bytes() + self.own_addr_kind.spec_hci_bytes() + self.peer_addr_kind.spec_hci_bytes()));
        }
        n = n + self.peer_addr_kind.size();
        proof {
            assert(self.adv_interval_min.spec_hci_bytes() + self.adv_interval_max.spec_hci_bytes() + self.adv_kind.spec_hci_bytes() + self.own_addr_kind.spec_hci_bytes() + self.peer_addr_kind.spec_hci_bytes() + self.peer_addr.spec_hci_bytes() =~= (self.adv_interval_min.spec_hci_bytes() + self.adv_interval_max.spec_hci_bytes() + self.adv_kind.spec_hci_bytes() + self.own_addr_kind.spec_hci_bytes() + self.peer_addr_kind.spec_hci_bytes() + self.peer_addr.spec_hci_bytes()));
        }
        n = n + self.peer_addr.size();
        proof {
            assert(self.adv_interval_min.spec_hci_bytes() + self.adv_interval_max.spec_hci_bytes() + self.adv_kind.spec_hci_bytes() + self.own_addr_kind.spec_hci_bytes() + self.peer_addr_kind.spec_hci_bytes() + self.peer_addr.spec_hci_bytes() + self.adv_channel_map.spec_hci_bytes() =~= (self.adv_interval_min.spec_hci_bytes() + self.adv_interval_max.spec_hci_bytes() + self.adv_kind.spec_hci_bytes() + self.own_addr_kind.spec_hci_bytes() + self.peer_addr_kind.spec_hci_bytes() + self.peer_addr.spec_hci_bytes() + self.adv_channel_map.spec_hci_bytes()));
        }
        n = n + self.adv_channel_map.size();
        proof {
            assert(self.adv_interval_min.spec_hci_bytes() + self.adv_interval_max.spec_hci_bytes() + self.adv_kind.spec_hci_bytes() + self.own_addr_kind.spec_hci_bytes() + self.peer_addr_kind.spec_hci_bytes() + self.peer_addr.spec_hci_bytes() + self.adv_channel_map.spec_hci_bytes() + self.adv_filter_policy.spec_hci_bytes() =~= (self.adv_interval_min.spec_hci_bytes() + self.adv_interval_max.spec_hci_bytes() + self.adv_kind.spec_hci_bytes() + self.own_addr_kind.spec_hci_bytes() + self.peer_addr_kind.spec_hci_bytes() + self.peer_addr.spec_hci_bytes() + self.adv_channel_map.spec_hci_bytes() + self.adv_filter_policy.spec_hci_bytes()));
        }
        n = n + self.adv_filter_policy.size();
        n
    }

    fn write_hci(&self, out: &mut Vec<u8>) {
        self.adv_interval_min.write_hci(out);
        self.adv_interval_max.write_hci(out);
        self.adv_kind.write_hci(out);
        self.own_addr_kind.write_hci(out);
        self.peer_addr_kind.write_hci(out);
        self.peer_addr.write_hci(out);
        self.adv_channel_map.write_hci(out);
        self.adv_filter_policy.write_hci(out);
        proof {
            assert(out@ =~= old(out)@ + self.spec_hci_bytes());
        }
    }
}

impl LeSetAdvParamsParams {
    /// The bytes of a `LeSetAdvParamsParams` are the bytes of its fields, one after the
    /// other, in the order in which the fields are declared.
    pub proof fn lemma_fields_in_order(&self)
        ensures
            self.spec_hci_bytes() == self.adv_interval_min.spec_hci_bytes() + self.adv_interval_max.spec_hci_bytes() + self.adv_kind.spec_hci_bytes() + self.own_addr_kind.spec_hci_bytes() + self.peer_addr_kind.spec_hci_bytes() + self.peer_addr.spec_hci_bytes() + self.adv_channel_map.spec_hci_bytes() + self.adv_filter_policy.spec_hci_bytes(),
    {
    }
}


/// The LeSetAdvParams command (group LE, command 0x0006).
#[derive(Debug, Clone, Copy, PartialEq, Eq, PartialOrd, Ord, Hash)]
pub struct LeSetAdvParams(LeSetAdvParamsParams);

impl LeSetAdvParams {
    /// Create a new instance of the command.
    pub fn new(adv_interval_min: Duration<625>, adv_interval_max: Duration<625>, adv_kind: AdvKind, own_addr_kind: AddrKind, peer_addr_kind: AddrKind, peer_addr: BdAddr, adv_channel_map: AdvChannelMap, adv_filter_policy: AdvFilterPolicy) -> (result: Self)
        ensures
            result.spec_params() == (LeSetAdvParamsParams { adv_interval_min: adv_interval_min, adv_interval_max: adv_interval_max, adv_kind: adv_kind, own_addr_kind: own_addr_kind, peer_addr_kind: peer_addr_kind, peer_addr: peer_addr, adv_channel_map: adv_channel_map, adv_filter_policy: adv_filter_policy }),
    {
        LeSetAdvParams(LeSetAdvParamsParams { adv_interval_min: adv_interval_min, adv_interval_max: adv_interval_max, adv_kind: adv_kind, own_addr_kind: own_addr_kind, peer_addr_kind: peer_addr_kind, peer_addr: peer_addr, adv_channel_map: adv_channel_map, adv_filter_policy: adv_filter_policy })
    }

    /// This command's opcode is group LE, command 0x0006: 0x2006.
    pub proof fn lemma_opcode()
        ensures
            Self::spec_opcode() == 0x2006,
    {
        lemma_opcode_value(LE, 0x0006);
    }
}

impl Cmd for LeSetAdvParams {
    type Params = LeSetAdvParamsParams;

    open spec fn spec_opcode() -> u16 {
        spec_opcode_raw(LE, 0x0006)
    }

    closed spec fn spec_params(&self) -> LeSetAdvParamsParams {
        self.0
    }

    fn opcode() -> (r: Opcode) {
        Opcode::new(OpcodeGroup::new(LE), 0x0006)
    }

    fn params(&self) -> (r: &LeSetAdvParamsParams) {
        &self.0
    }

    proof fn lemma_packet(&self) {
    }
}

impl WriteHci for LeSetAdvParams {
    closed spec fn spec_hci_bytes(&self) -> Seq<u8> {
        spec_cmd_packet(spec_opcode_raw(LE, 0x0006), self.0.spec_hci_bytes())
    }

    fn size(&self) -> (r: usize) {
        self.0.size() + 3
    }

    fn write_hci(&self, out: &mut Vec<u8>) {
        write_cmd_packet(Opcode::new(OpcodeGroup::new(LE), 0x0006), &self.0, out);
    }
}

impl SyncCmd for LeSetAdvParams {
    type Return = ();
    type Handle = ();

    open spec fn spec_handle_ok(data: Seq<u8>, h: ()) -> bool {
        true
    }

    open spec fn spec_handle_err(data: Seq<u8>, e: FromHciBytesError) -> bool {
        false
    }

    open spec fn spec_return_ok(data: Seq<u8>, v: ()) -> bool {
        spec_decodes_complete::<()>(data, v)
    }

    open spec fn spec_return_err(data: Seq<u8>, e: FromHciBytesError) -> bool {
        spec_decode_complete_err::<()>(data, e)
    }

    fn param_handle(&self) -> (r: ())
        ensures
            r == (),
    {
    }

    fn return_handle(data: &[u8]) -> (r: Result<(), FromHciBytesError>) {
        Ok(())
    }

    fn return_from_hci_bytes(data: &[u8]) -> (r: Result<(), FromHciBytesError>) {
        <() as FromHciBytes>::from_hci_bytes_complete(data)
    }
}

/// The LeReadAdvPhysicalChannelTxPower command (group LE, command 0x0007).
#[derive(Debug, Clone, Copy, PartialEq, Eq, PartialOrd, Ord, Hash, Default)]
pub struct LeReadAdvPhysicalChannelTxPower(());

impl LeReadAdvPhysicalChannelTxPower {
    /// Create a new instance of the command.
    pub fn new() -> (r: Self)
        ensures
            r.spec_params() == (),
    {
        LeReadAdvPhysicalChannelTxPower(())
    }

    /// This command's opcode is group LE, command 0x0007: 0x2007.
    pub proof fn lemma_opcode()
        ensures
            Self::spec_opcode() == 0x2007,
    {
        lemma_opcode_value(LE, 0x0007);
    }
}

impl Cmd for LeReadAdvPhysicalChannelTxPower {
    type Params = ();

    open spec fn spec_opcode() -> u16 {
        spec_opcode_raw(LE, 0x0007)
    }

    closed spec fn spec_params(&self) -> () {
        self.0
    }

    fn opcode() -> (r: Opcode) {
        Opcode::new(OpcodeGroup::new(LE), 0x0007)
    }

    fn params(&self) -> (r: &()) {
        &self.0
    }

    proof fn lemma_packet(&self) {
    }
}

impl WriteHci for LeReadAdvPhysicalChannelTxPower {
    closed spec fn spec_hci_bytes(&self) -> Seq<u8> {
        spec_cmd_packet(spec_opcode_raw(LE, 0x0007), self.0.spec_hci_bytes())
    }

    fn size(&self) -> (r: usize) {
        self.0.size() + 3
    }

    fn write_hci(&self, out: &mut Vec<u8>) {
        write_cmd_packet(Opcode::new(OpcodeGroup::new(LE), 0x0007), &self.0, out);
    }
}

impl SyncCmd for LeReadAdvPhysicalChannelTxPower {
    type Return = i8;
    type Handle = ();

    open spec fn spec_handle_ok(data: Seq<u8>, h: ()) -> bool {
        true
    }

    open spec fn spec_handle_err(data: Seq<u8>, e: FromHciBytesError) -> bool {
        false
    }

    open spec fn spec_return_ok(data: Seq<u8>, v: i8) -> bool {
        spec_decodes_complete::<i8>(data, v)
    }

    open spec fn spec_return_err(data: Seq<u8>, e: FromHciBytesError) -> bool {
        spec_decode_complete_err::<i8>(data, e)
    }

    fn param_handle(&self) -> (r: ())
        ensures
            r == (),
    {
    }

    fn return_handle(data: &[u8]) -> (r: Result<(), FromHciBytesError>) {
        Ok(())
    }

    fn return_from_hci_bytes(data: &[u8]) -> (r: Result<i8, FromHciBytesError>) {
        <i8 as FromHciBytes>::from_hci_bytes_complete(data)
    }
}

/// Parameters for the [`LeSetAdvData`] command.
#[derive(Debug, Clone, Copy, PartialEq, Eq, PartialOrd, Ord, Hash)]
#[allow(missing_docs)]
pub struct LeSetAdvDataParams {
    pub data_len: u8,
    pub data: [u8; 31],
}

/// The value of a [`LeSetAdvDataParams`], with byte slices taken as sequences.
#[allow(missing_docs)]
pub struct LeSetAdvDataParamsView {
    pub data_len: u8,
    pub data: Seq<u8>,
}

impl View for LeSetAdvDataParams {
    type V = LeSetAdvDataParamsView;

    open spec fn view(&self) -> LeSetAdvDataParamsView {
        LeSetAdvDataParamsView { data_len: self.data_len@, data: self.data@ }
    }
}

impl WriteHci for LeSetAdvDataParams {
    open spec fn spec_hci_bytes(&self) -> Seq<u8> {
        self.data_len.spec_hci_bytes() + self.data.spec_hci_bytes()
    }

    fn size(&self) -> (r: usize) {
        let mut n = self.data_len.size();
        proof {
            assert(self.data_len.spec_hci_bytes() + self.data.spec_hci_bytes() =~= (self.data_len.spec_hci_bytes() + self.data.spec_hci_bytes()));
        }
        n = n + self.data.size();
        n
    }

    fn write_hci(&self, out: &mut Vec<u8>) {
        self.data_len.write_hci(out);
        self.data.write_hci(out);
        proof {
            assert(out@ =~= old(out)@ + self.spec_hci_bytes());
        }
    }
}

impl LeSetAdvDataParams {
    /// The bytes of a `LeSetAdvDataParams` are the bytes of its fields, one after the
    /// other, in the order in which the fields are declared.
    pub proof fn lemma_fields_in_order(&self)
        ensures
            self.spec_hci_bytes() == self.data_len.spec_hci_bytes() + self.data.spec_hci_bytes(),
    {
    }
}


/// The LeSetAdvData command (group LE, command 0x0008).
#[derive(Debug, Clone, Copy, PartialEq, Eq, PartialOrd, Ord, Hash)]
pub struct LeSetAdvData(LeSetAdvDataParams);

impl LeSetAdvData {
    /// Create a new instance of the command.
    pub fn new(data_len: u8, data: [u8; 31]) -> (result: Self)
        ensures
            result.spec_params() == (LeSetAdvDataParams { data_len: data_len, data: data }),
    {
        LeSetAdvData(LeSetAdvDataParams { data_len: data_len, data: data })
    }

    /// This command's opcode is group LE, command 0x0008: 0x2008.
    pub proof fn lemma_opcode()
        ensures
            Self::spec_opcode() == 0x2008,
    {
        lemma_opcode_value(LE, 0x0008);
    }
}

impl Cmd for LeSetAdvData {
    type Params = LeSetAdvDataParams;

    open spec fn spec_opcode() -> u16 {
        spec_opcode_raw(LE, 0x0008)
    }

    closed spec fn spec_params(&self) -> LeSetAdvDataParams {
        self.0
    }

    fn opcode() -> (r: Opcode) {
        Opcode::new(OpcodeGroup::new(LE), 0x0008)
    }

    fn params(&self) -> (r: &LeSetAdvDataParams) {
        &self.0
    }

    proof fn lemma_packet(&self) {
    }
}

impl WriteHci for LeSetAdvData {
    closed spec fn spec_hci_bytes(&self) -> Seq<u8> {
        spec_cmd_packet(spec_opcode_raw(LE, 0x0008), self.0.spec_hci_bytes())
    }

    fn size(&self) -> (r: usize) {
        self.0.size() + 3
    }

    fn write_hci(&self, out: &mut Vec<u8>) {
        write_cmd_packet(Opcode::new(OpcodeGroup::new(LE), 0x0008), &self.0, out);
    }
}

impl SyncCmd for LeSetAdvData {
    type Return = ();
    type Handle = ();

    open spec fn spec_handle_ok(data: Seq<u8>, h: ()) -> bool {
        true
    }

    open spec fn spec_handle_err(data: Seq<u8>, e: FromHciBytesError) -> bool {
        false
    }

    open spec fn spec_return_ok(data: Seq<u8>, v: ()) -> bool {
        spec_decodes_complete::<()>(data, v)
    }

    open spec fn spec_return_err(data: Seq<u8>, e: FromHciBytesError) -> bool {
        spec_decode_complete_err::<()>(data, e)
    }

    fn param_handle(&self) -> (r: ())
        ensures
            r == (),
    {
    }

    fn return_handle(data: &[u8]) -> (r: Result<(), FromHciBytesError>) {
        Ok(())
    }

    fn return_from_hci_bytes(data: &[u8]) -> (r: Result<(), FromHciBytesError>) {
        <() as FromHciBytes>::from_hci_bytes_complete(data)
    }
}

/// Parameters for the [`LeSetScanResponseData`] command.
#[derive(Debug, Clone, Copy, PartialEq, Eq, PartialOrd, Ord, Hash)]
#[allow(missing_docs)]
pub struct LeSetScanResponseDataParams {
    pub data_len: u8,
    pub data: [u8; 31],
}

/// The value of a [`LeSetScanResponseDataParams`], with byte slices taken as sequences.
#[allow(missing_docs)]
pub struct LeSetScanResponseDataParamsView {
    pub data_len: u8,
    pub data: Seq<u8>,
}

impl View for LeSetScanResponseDataParams {
    type V = LeSetScanResponseDataParamsView;

    open spec fn view(&self) -> LeSetScanResponseDataParamsView {
        LeSetScanResponseDataParamsView { data_len: self.data_len@, data: self.data@ }
    }
}

impl WriteHci for LeSetScanResponseDataParams {
    open spec fn spec_hci_bytes(&self) -> Seq<u8> {
        self.data_len.spec_hci_bytes() + self.data.spec_hci_bytes()
    }

    fn size(&self) -> (r: usize) {
        let mut n = self.data_len.size();
        proof {
            assert(self.data_len.spec_hci_bytes() + self.data.spec_hci_bytes() =~= (self.data_len.spec_hci_bytes() + self.data.spec_hci_bytes()));
        }
        n = n + self.data.size();
        n
    }

    fn write_hci(&self, out: &mut Vec<u8>) {
        self.data_len.write_hci(out);
        self.data.write_hci(out);
        proof {
            assert(out@ =~= old(out)@ + self.spec_hci_bytes());
        }
    }
}

impl LeSetScanResponseDataParams {
    /// The bytes of a `LeSetScanResponseDataParams` are the bytes of its fields, one after the
    /// other, in the order in which the fields are declared.
    pub proof fn lemma_fields_in_order(&self)
        ensures
            self.spec_hci_bytes() == self.data_len.spec_hci_bytes() + self.data.spec_hci_bytes(),
    {
    }
}


/// The LeSetScanResponseData command (group LE, command 0x0009).
#[derive(Debug, Clone, Copy, PartialEq, Eq, PartialOrd, Ord, Hash)]
pub struct LeSetScanResponseData(LeSetScanResponseDataParams);

impl LeSetScanResponseData {
    /// Create a new instance of the command.
    pub fn new(data_len: u8, data: [u8; 31]) -> (result: Self)
        ensures
            result.spec_params() == (LeSetScanResponseDataParams { data_len: data_len, data: data }),
    {
        LeSetScanResponseData(LeSetScanResponseDataParams { data_len: data_len, data: data })
    }

    /// This command's opcode is group LE, command 0x0009: 0x2009.
    pub proof fn lemma_opcode()
        ensures
            Self::spec_opcode() == 0x2009,
    {
        lemma_opcode_value(LE, 0x0009);
    }
}

impl Cmd for LeSetScanResponseData {
    type Params = LeSetScanResponseDataParams;

    open spec fn spec_opcode() -> u16 {
        spec_opcode_raw(LE, 0x0009)
    }

    closed spec fn spec_params(&self) -> LeSetScanResponseDataParams {
        self.0
    }

    fn opcode() -> (r: Opcode) {
        Opcode::new(OpcodeGroup::new(LE), 0x0009)
    }

    fn params(&self) -> (r: &LeSetScanResponseDataParams) {
        &self.0
    }

    proof fn lemma_packet(&self) {
    }
}

impl WriteHci for LeSetScanResponseData {
    closed spec fn spec_hci_bytes(&self) -> Seq<u8> {
        spec_cmd_packet(spec_opcode_raw(LE, 0x0009), self.0.spec_hci_bytes())
    }

    fn size(&self) -> (r: usize) {
        self.0.size() + 3
    }

    fn write_hci(&self, out: &mut Vec<u8>) {
        write_cmd_packet(Opcode::new(OpcodeGroup::new(LE), 0x0009), &self.0, out);
    }
}

impl SyncCmd for LeSetScanResponseData {
    type Return = ();
    type Handle = ();

    open spec fn spec_handle_ok(data: Seq<u8>, h: ()) -> bool {
        true
    }

    open spec fn spec_handle_err(data: Seq<u8>, e: FromHciBytesError) -> bool {
        false
    }

    open spec fn spec_return_ok(data: Seq<u8>, v: ()) -> bool {
        spec_decodes_complete::<()>(data, v)
    }

    open spec fn spec_return_err(data: Seq<u8>, e: FromHciBytesError) -> bool {
        spec_decode_complete_err::<()>(data, e)
    }

    fn param_handle(&self) -> (r: ())
        ensures
            r == (),
    {
    }

    fn return_handle(data: &[u8]) -> (r: Result<(), FromHciBytesError>) {
        Ok(())
    }

    fn return_from_hci_bytes(data: &[u8]) -> (r: Result<(), FromHciBytesError>) {
        <() as FromHciBytes>::from_hci_bytes_complete(data)
    }
}

/// The LeSetAdvEnable command (group LE, command 0x000a).
#[derive(Debug, Clone, Copy, PartialEq, Eq, PartialOrd, Ord, Hash)]
pub struct LeSetAdvEnable(bool);

impl LeSetAdvEnable {
    /// Create a new instance of the command with the provided parameters.
    pub fn new(param: bool) -> (r: Self)
        ensures
            r.spec_params() == param,
    {
        LeSetAdvEnable(param)
    }

    /// This command's opcode is group LE, command 0x000a: 0x200a.
    pub proof fn lemma_opcode()
        ensures
            Self::spec_opcode() == 0x200a,
    {
        lemma_opcode_value(LE, 0x000a);
    }
}

impl Cmd for LeSetAdvEnable {
    type Params = bool;

    open spec fn spec_opcode() -> u16 {
        spec_opcode_raw(LE, 0x000a)
    }

    closed spec fn spec_params(&self) -> bool {
        self.0
    }

    fn opcode() -> (r: Opcode) {
        Opcode::new(OpcodeGroup::new(LE), 0x000a)
    }

    fn params(&self) -> (r: &bool) {
        &self.0
    }

    proof fn lemma_packet(&self) {
    }
}

impl WriteHci for LeSetAdvEnable {
    closed spec fn spec_hci_bytes(&self) -> Seq<u8> {
        spec_cmd_packet(spec_opcode_raw(LE, 0x000a), self.0.spec_hci_bytes())
    }

    fn size(&self) -> (r: usize) {
        self.0.size() + 3
    }

    fn write_hci(&self, out: &mut Vec<u8>) {
        write_cmd_packet(Opcode::new(OpcodeGroup::new(LE), 0x000a), &self.0, out);
    }
}

impl SyncCmd for LeSetAdvEnable {
    type Return = ();
    type Handle = ();

    open spec fn spec_handle_ok(data: Seq<u8>, h: ()) -> bool {
        true
    }

    open spec fn spec_handle_err(data: Seq<u8>, e: FromHciBytesError) -> bool {
        false
    }

    open spec fn spec_return_ok(data: Seq<u8>, v: ()) -> bool {
        spec_decodes_complete::<()>(data, v)
    }

    open spec fn spec_return_err(data: Seq<u8>, e: FromHciBytesError) -> bool {
        spec_decode_complete_err::<()>(data, e)
    }

    fn param_handle(&self) -> (r: ())
        ensures
            r == (),
    {
    }

    fn return_handle(data: &[u8]) -> (r: Result<(), FromHciBytesError>) {
        Ok(())
    }

    fn return_from_hci_bytes(data: &[u8]) -> (r: Result<(), FromHciBytesError>) {
        <() as FromHciBytes>::from_hci_bytes_complete(data)
    }
}

/// Parameters for the [`LeSetScanParams`] command.
#[derive(Debug, Clone, Copy, PartialEq, Eq, PartialOrd, Ord, Hash)]
#[allow(missing_docs)]
pub struct LeSetScanParamsParams {
    pub le_scan_kind: LeScanKind,
    pub le_scan_interval: Duration<10_000>,
    pub le_scan_window: Duration<10_000>,
    pub own_addr_kind: AddrKind,
    pub scanning_filter_policy: ScanningFilterPolicy,
}

/// The value of a [`LeSetScanParamsParams`], with byte slices taken as sequences.
#[allow(missing_docs)]
pub struct LeSetScanParamsParamsView {
    pub le_scan_kind: LeScanKind,
    pub le_scan_interval: u16,
    pub le_scan_window: u16,
    pub own_addr_kind: u8,
    pub scanning_filter_policy: ScanningFilterPolicy,
}

impl View for LeSetScanParamsParams {
    type V = LeSetScanParamsParamsView;

    open spec fn view(&self) -> LeSetScanParamsParamsView {
        LeSetScanParamsParamsView { le_scan_kind: self.le_scan_kind@, le_scan_interval: self.le_scan_interval@, le_scan_window: self.le_scan_window@, own_addr_kind: self.own_addr_kind@, scanning_filter_policy: self.scanning_filter_policy@ }
    }
}

impl WriteHci for LeSetScanParamsParams {
    open spec fn spec_hci_bytes(&self) -> Seq<u8> {
        self.le_scan_kind.spec_hci_bytes() + self.le_scan_interval.spec_hci_bytes() + self.le_scan_window.spec_hci_bytes() + self.own_addr_kind.spec_hci_bytes() + self.scanning_filter_policy.spec_hci_bytes()
    }

    fn size(&self) -> (r: usize) {
        let mut n = self.le_scan_kind.size();
        proof {
            assert(self.le_scan_kind.spec_hci_bytes() + self.le_scan_interval.spec_hci_bytes() =~= (self.le_scan_kind.spec_hci_bytes() + self.le_scan_interval.spec_hci_bytes()));
        }
        n = n + self.le_scan_interval.size();
        proof {
            assert(self.le_scan_kind.spec_hci_bytes() + self.le_scan_interval.spec_hci_bytes() + self.le_scan_window.spec_hci_bytes() =~= (self.le_scan_kind.spec_hci_bytes() + self.le_scan_interval.spec_hci_bytes() + self.le_scan_window.spec_hci_bytes()));
        }
        n = n + self.le_scan_window.size();
        proof {
            assert(self.le_scan_kind.spec_hci_bytes() + self.le_scan_interval.spec_hci_bytes() + self.le_scan_window.spec_hci_bytes() + self.own_addr_kind.spec_hci_bytes() =~= (self.le_scan_kind.spec_hci_bytes() + self.le_scan_interval.spec_hci_bytes() + self.le_scan_window.spec_hci_bytes() + self.own_addr_kind.spec_hci_bytes()));
        }
        n = n + self.own_addr_kind.size();
        proof {
            assert(self.le_scan_kind.spec_hci_bytes() + self.le_scan_interval.spec_hci_bytes() + self.le_scan_window.spec_hci_bytes() + self.own_addr_kind.spec_hci_bytes() + self.scanning_filter_policy.spec_hci_bytes() =~= (self.le_scan_kind.spec_hci_bytes() + self.le_scan_interval.spec_hci_bytes() + self.le_scan_window.spec_hci_bytes() + self.own_addr_kind.spec_hci_bytes() + self.scanning_filter_policy.spec_hci_bytes()));
        }
        n = n + self.scanning_filter_policy.size();
        n
    }

    fn write_hci(&self, out: &mut Vec<u8>) {
        self.le_scan_kind.write_hci(out);
        self.le_scan_interval.write_hci(out);
        self.le_scan_window.write_hci(out);
        self.own_addr_kind.write_hci(out);
        self.scanning_filter_policy.write_hci(out);
        proof {
            assert(out@ =~= old(out)@ + self.spec_hci_bytes());
        }
    }
}

impl LeSetScanParamsParams {
    /// The bytes of a `LeSetScanParamsParams` are the bytes of its fields, one after the
    /// other, in the order in which the fields are declared.
    pub proof fn lemma_fields_in_order(&self)
        ensures
            self.spec_hci_bytes() == self.le_scan_kind.spec_hci_bytes() + self.le_scan_interval.spec_hci_bytes() + self.le_scan_window.spec_hci_bytes() + self.own_addr_kind.spec_hci_bytes() + self.scanning_filter_policy.spec_hci_bytes(),
    {
    }
}


/// The LeSetScanParams command (group LE, command 0x000b).
#[derive(Debug, Clone, Copy, PartialEq, Eq, PartialOrd, Ord, Hash)]
pub struct LeSetScanParams(LeSetScanParamsParams);

impl LeSetScanParams {
    /// Create a new instance of the command.
    pub fn new(le_scan_kind: LeScanKind, le_scan_interval: Duration<10_000>, le_scan_window: Duration<10_000>, own_addr_kind: AddrKind, scanning_filter_policy: ScanningFilterPolicy) -> (result: Self)
        ensures
            result.spec_params() == (LeSetScanParamsParams { le_scan_kind: le_scan_kind, le_scan_interval: le_scan_interval, le_scan_window: le_scan_window, own_addr_kind: own_addr_kind, scanning_filter_policy: scanning_filter_policy }),
    {
        LeSetScanParams(LeSetScanParamsParams { le_scan_kind: le_scan_kind, le_scan_interval: le_scan_interval, le_scan_window: le_scan_window, own_addr_kind: own_addr_kind, scanning_filter_policy: scanning_filter_policy })
    }

    /// This command's opcode is group LE, command 0x000b: 0x200b.
    pub proof fn lemma_opcode()
        ensures
            Self::spec_opcode() == 0x200b,
    {
        lemma_opcode_value(LE, 0x000b);
    }
}

impl Cmd for LeSetScanParams {
    type Params = LeSetScanParamsParams;

    open spec fn spec_opcode() -> u16 {
        spec_opcode_raw(LE, 0x000b)
    }

    closed spec fn spec_params(&self) -> LeSetScanParamsParams {
        self.0
    }

    fn opcode() -> (r: Opcode) {
        Opcode::new(OpcodeGroup::new(LE), 0x000b)
    }

    fn params(&self) -> (r: &LeSetScanParamsParams) {
        &self.0
    }

    proof fn lemma_packet(&self) {
    }
}

impl WriteHci for LeSetScanParams {
    closed spec fn spec_hci_bytes(&self) -> Seq<u8> {
        spec_cmd_packet(spec_opcode_raw(LE, 0x000b), self.0.spec_hci_bytes())
    }

    fn size(&self) -> (r: usize) {
        self.0.size() + 3
    }

    fn write_hci(&self, out: &mut Vec<u8>) {
        write_cmd_packet(Opcode::new(OpcodeGroup::new(LE), 0x000b), &self.0, out);
    }
}

impl SyncCmd for LeSetScanParams {
    type Return = ();
    type Handle = ();

    open spec fn spec_handle_ok(data: Seq<u8>, h: ()) -> bool {
        true
    }

    open spec fn spec_handle_err(data: Seq<u8>, e: FromHciBytesError) -> bool {
        false
    }

    open spec fn spec_return_ok(data: Seq<u8>, v: ()) -> bool {
        spec_decodes_complete::<()>(data, v)
    }

    open spec fn spec_return_err(data: Seq<u8>, e: FromHciBytesError) -> bool {
        spec_decode_complete_err::<()>(data, e)
    }

    fn param_handle(&self) -> (r: ())
        ensures
            r == (),
    {
    }

    fn return_handle(data: &[u8]) -> (r: Result<(), FromHciBytesError>) {
        Ok(())
    }

    fn return_from_hci_bytes(data: &[u8]) -> (r: Result<(), FromHciBytesError>) {
        <() as FromHciBytes>::from_hci_bytes_complete(data)
    }
}

/// Parameters for the [`LeSetScanEnable`] command.
#[derive(Debug, Clone, Copy, PartialEq, Eq, PartialOrd, Ord, Hash)]
#[allow(missing_docs)]
pub struct LeSetScanEnableParams {
    pub enable: bool,
    pub filter_duplicates: bool,
}

/// The value of a [`LeSetScanEnableParams`], with byte slices taken as sequences.
#[allow(missing_docs)]
pub struct LeSetScanEnableParamsView {
    pub enable: bool,
    pub filter_duplicates: bool,
}

impl View for LeSetScanEnableParams {
    type V = LeSetScanEnableParamsView;

    open spec fn view(&self) -> LeSetScanEnableParamsView {
        LeSetScanEnableParamsView { enable: self.enable@, filter_duplicates: self.filter_duplicates@ }
    }
}

impl WriteHci for LeSetScanEnableParams {
    open spec fn spec_hci_bytes(&self) -> Seq<u8> {
        self.enable.spec_hci_bytes() + self.filter_duplicates.spec_hci_bytes()
    }

    fn size(&self) -> (r: usize) {
        let mut n = self.enable.size();
        proof {
            assert(self.enable.spec_hci_bytes() + self.filter_duplicates.spec_hci_bytes() =~= (self.enable.spec_hci_bytes() + self.filter_duplicates.spec_hci_bytes()));
        }
        n = n + self.filter_duplicates.size();
        n
    }

    fn write_hci(&self, out: &mut Vec<u8>) {
        self.enable.write_hci(out);
        self.filter_duplicates.write_hci(out);
        proof {
            assert(out@ =~= old(out)@ + self.spec_hci_bytes());
        }
    }
}

impl LeSetScanEnableParams {
    /// The bytes of a `LeSetScanEnableParams` are the bytes of its fields, one after the
    /// other, in the order in which the fields are declared.
    pub proof fn lemma_fields_in_order(&self)
        ensures
            self.spec_hci_bytes() == self.enable.spec_hci_bytes() + self.filter_duplicates.spec_hci_bytes(),
    {
    }
}


/// The LeSetScanEnable command (group LE, command 0x000c).
#[derive(Debug, Clone, Copy, PartialEq, Eq, PartialOrd, Ord, Hash)]
pub struct LeSetScanEnable(LeSetScanEnableParams);

impl LeSetScanEnable {
    /// Create a new instance of the command.
    pub fn new(enable: bool, filter_duplicates: bool) -> (result: Self)
        ensures
            result.spec_params() == (LeSetScanEnableParams { enable: enable, filter_duplicates: filter_duplicates }),
    {
        LeSetScanEnable(LeSetScanEnableParams { enable: enable, filter_duplicates: filter_duplicates })
    }

    /// This command's opcode is group LE, command 0x000c: 0x200c.
    pub proof fn lemma_opcode()
        ensures
            Self::spec_opcode() == 0x200c,
    {
        lemma_opcode_value(LE, 0x000c);
    }
}

impl Cmd for LeSetScanEnable {
    type Params = LeSetScanEnableParams;

    open spec fn spec_opcode() -> u16 {
        spec_opcode_raw(LE, 0x000c)
    }

    closed spec fn spec_params(&self) -> LeSetScanEnableParams {
        self.0
    }

    fn opcode() -> (r: Opcode) {
        Opcode::new(OpcodeGroup::new(LE), 0x000c)
    }

    fn params(&self) -> (r: &LeSetScanEnableParams) {
        &self.0
    }

    proof fn lemma_packet(&self) {
    }
}

impl WriteHci for LeSetScanEnable {
    closed spec fn spec_hci_bytes(&self) -> Seq<u8> {
        spec_cmd_packet(spec_opcode_raw(LE, 0x000c), self.0.spec_hci_bytes())
    }

    fn size(&self) -> (r: usize) {
        self.0.size() + 3
    }

    fn write_hci(&self, out: &mut Vec<u8>) {
        write_cmd_packet(Opcode::new(OpcodeGroup::new(LE), 0x000c), &self.0, out);
    }
}

impl SyncCmd for LeSetScanEnable {
    type Return = ();
    type Handle = ();

    open spec fn spec_handle_ok(data: Seq<u8>, h: ()) -> bool {
        true
    }

    open spec fn spec_handle_err(data: Seq<u8>, e: FromHciBytesError) -> bool {
        false
    }

    open spec fn spec_return_ok(data: Seq<u8>, v: ()) -> bool {
        spec_decodes_complete::<()>(data, v)
    }

    open spec fn spec_return_err(data: Seq<u8>, e: FromHciBytesError) -> bool {
        spec_decode_complete_err::<()>(data, e)
    }

    fn param_handle(&self) -> (r: ())
        ensures
            r == (),
    {
    }

    fn return_handle(data: &[u8]) -> (r: Result<(), FromHciBytesError>) {
        Ok(())
    }

    fn return_from_hci_bytes(data: &[u8]) -> (r: Result<(), FromHciBytesError>) {
        <() as FromHciBytes>::from_hci_bytes_complete(data)
    }
}

/// Parameters for the [`LeCreateConn`] command.
#[derive(Debug, Clone, Copy, PartialEq, Eq, PartialOrd, Ord, Hash)]
#[allow(missing_docs)]
pub struct LeCreateConnParams {
    pub le_scan_interval: Duration<10_000>,
    pub le_scan_window: Duration<10_000>,
    pub use_filter_accept_list: bool,
    pub peer_addr_kind: AddrKind,
    pub peer_addr: BdAddr,
    pub own_addr_kind: AddrKind,
    pub conn_interval_min: Duration<1_250>,
    pub conn_interval_max: Duration<1_250>,
    pub max_latency: u16,
    pub supervision_timeout: Duration<10_000>,
    pub min_ce_length: Duration<625>,
    pub max_ce_length: Duration<625>,
}

/// The value of a [`LeCreateConnParams`], with byte slices taken as sequences.
#[allow(missing_docs)]
pub struct LeCreateConnParamsView {
    pub le_scan_interval: u16,
    pub le_scan_window: u16,
    pub use_filter_accept_list: bool,
    pub peer_addr_kind: u8,
    pub peer_addr: Seq<u8>,
    pub own_addr_kind: u8,
    pub conn_interval_min: u16,
    pub conn_interval_max: u16,
    pub max_latency: u16,
    pub supervision_timeout: u16,
    pub min_ce_length: u16,
    pub max_ce_length: u16,
}

impl View for LeCreateConnParams {
    type V = LeCreateConnParamsView;

    open spec fn view(&self) -> LeCreateConnParamsView {
        LeCreateConnParamsView { le_scan_interval: self.le_scan_interval@, le_scan_window: self.le_scan_window@, use_filter_accept_list: self.use_filter_accept_list@, peer_addr_kind: self.peer_addr_kind@, peer_addr: self.peer_addr@, own_addr_kind: self.own_addr_kind@, conn_interval_min: self.conn_interval_min@, conn_interval_max: self.conn_interval_max@, max_latency: self.max_latency@, supervision_timeout: self.supervision_timeout@, min_ce_length: self.min_ce_length@, max_ce_length: self.max_ce_length@ }
    }
}

impl WriteHci for LeCreateConnParams {
    open spec fn spec_hci_bytes(&self) -> Seq<u8> {
        self.le_scan_interval.spec_hci_bytes() + self.le_scan_window.spec_hci_bytes() + self.use_filter_accept_list.spec_hci_bytes() + self.peer_addr_kind.spec_hci_bytes() + self.peer_addr.spec_hci_bytes() + self.own_addr_kind.spec_hci_bytes() + self.conn_interval_min.spec_hci_bytes() + self.conn_interval_max.spec_hci_bytes() + self.max_latency.spec_hci_bytes() + self.supervision_timeout.spec_hci_bytes() + self.min_ce_length.spec_hci_bytes() + self.max_ce_length.spec_hci_bytes()
    }

    fn size(&self) -> (r: usize) {
        let mut n = self.le_scan_interval.size();
        proof {
            assert(self.le_scan_interval.spec_hci_bytes() + self.le_scan_window.spec_hci_bytes() =~= (self.le_scan_interval.spec_hci_bytes() + self.le_scan_window.spec_hci_bytes()));
        }
        n = n + self.le_scan_window.size();
        proof {
            assert(self.le_scan_interval.spec_hci_bytes() + self.le_scan_window.spec_hci_bytes() + self.use_filter_accept_list.spec_hci_bytes() =~= (self.le_scan_interval.spec_hci_bytes() + self.le_scan_window.spec_hci_bytes() + self.use_filter_accept_list.spec_hci_bytes()));
        }
        n = n + self.use_filter_accept_list.size();
        proof {
            assert(self.le_scan_interval.spec_hci_bytes() + self.le_scan_window.spec_hci_bytes() + self.use_filter_accept_list.spec_hci_bytes() + self.peer_addr_kind.spec_hci_bytes() =~= (self.le_scan_interval.spec_hci_bytes() + self.le_scan_window.spec_hci_bytes() + self.use_filter_accept_list.spec_hci_bytes() + self.peer_addr_kind.spec_hci_bytes()));
        }
        n = n + self.peer_addr_kind.size();
        proof {
            assert(self.le_scan_interval.spec_hci_bytes() + self.le_scan_window.spec_hci_bytes() + self.use_filter_accept_list.spec_hci_bytes() + self.peer_addr_kind.spec_hci_bytes() + self.peer_addr.spec_hci_bytes() =~= (self.le_scan_interval.spec_hci_bytes() + self.le_scan_window.spec_hci_bytes() + self.use_filter_accept_list.spec_hci_bytes() + self.peer_addr_kind.spec_hci_bytes() + self.peer_addr.spec_hci_bytes()));
        }
        n = n + self.peer_addr.size();
        proof {
            assert(self.le_scan_interval.spec_hci_bytes() + self.le_scan_window.spec_hci_bytes() + self.use_filter_accept_list.spec_hci_bytes() + self.peer_addr_kind.spec_hci_bytes() + self.peer_addr.spec_hci_bytes() + self.own_addr_kind.spec_hci_bytes() =~= (self.le_scan_interval.spec_hci_bytes() + self.le_scan_window.spec_hci_bytes() + self.use_filter_accept_list.spec_hci_bytes() + self.peer_addr_kind.spec_hci_bytes() + self.peer_addr.spec_hci_bytes() + self.own_addr_kind.spec_hci_bytes()));
        }
        n = n + self.own_addr_kind.size();
        proof {
            assert(self.le_scan_interval.spec_hci_bytes() + self.le_scan_window.spec_hci_bytes() + self.use_filter_accept_list.spec_hci_bytes() + self.peer_addr_kind.spec_hci_bytes() + self.peer_addr.spec_hci_bytes() + self.own_addr_kind.spec_hci_bytes() + self.conn_interval_min.spec_hci_bytes() =~= (self.le_scan_interval.spec_hci_bytes() + self.le_scan_window.spec_hci_bytes() + self.use_filter_accept_list.spec_hci_bytes() + self.peer_addr_kind.spec_hci_bytes() + self.peer_addr.spec_hci_bytes() + self.own_addr_kind.spec_hci_bytes() + self.conn_interval_min.spec_hci_bytes()));
        }
        n = n + self.conn_interval_min.size();
        proof {
            assert(self.le_scan_interval.spec_hci_bytes() + self.le_scan_window.spec_hci_bytes() + self.use_filter_accept_list.spec_hci_bytes() + self.peer_addr_kind.spec_hci_bytes() + self.peer_addr.spec_hci_bytes() + self.own_addr_kind.spec_hci_bytes() + self.conn_interval_min.spec_hci_bytes() + self.conn_interval_max.spec_hci_bytes() =~= (self.le_scan_interval.spec_hci_bytes() + self.le_scan_window.spec_hci_bytes() + self.use_filter_accept_list.spec_hci_bytes() + self.peer_addr_kind.spec_hci_bytes() + self.peer_addr.spec_hci_bytes() + self.own_addr_kind.spec_hci_bytes() + self.conn_interval_min.spec_hci_bytes() + self.conn_interval_max.spec_hci_bytes()));
        }
        n = n + self.conn_interval_max.size();
        proof {
            assert(self.le_scan_interval.spec_hci_bytes() + self.le_scan_window.spec_hci_bytes() + self.use_filter_accept_list.spec_hci_bytes() + self.peer_addr_kind.spec_hci_bytes() + self.peer_addr.spec_hci_bytes() + self.own_addr_kind.spec_hci_bytes() + self.conn_interval_min.spec_hci_bytes() + self.conn_interval_max.spec_hci_bytes() + self.max_latency.spec_hci_bytes() =~= (self.le_scan_interval.spec_hci_bytes() + self.le_scan_window.spec_hci_bytes() + self.use_filter_accept_list.spec_hci_bytes() + self.peer_addr_kind.spec_hci_bytes() + self.peer_addr.spec_hci_bytes() + self.own_addr_kind.spec_hci_bytes() + self.conn_interval_min.spec_hci_bytes() + self.conn_interval_max.spec_hci_bytes() + self.max_latency.spec_hci_bytes()));
        }
        n = n + self.max_latency.size();
        proof {
            assert(self.le_scan_interval.spec_hci_bytes() + self.le_scan_window.spec_hci_bytes() + self.use_filter_accept_list.spec_hci_bytes() + self.peer_addr_kind.spec_hci_bytes() + self.peer_addr.spec_hci_bytes() + self.own_addr_kind.spec_hci_bytes() + self.conn_interval_min.spec_hci_bytes() + self.conn_interval_max.spec_hci_bytes() + self.max_latency.spec_hci_bytes() + self.supervision_timeout.spec_hci_bytes() =~= (self.le_scan_interval.spec_hci_bytes() + self.le_scan_window.spec_hci_bytes() + self.use_filter_accept_list.spec_hci_bytes() + self.peer_addr_kind.spec_hci_bytes() + self.peer_addr.spec_hci_bytes() + self.own_addr_kind.spec_hci_bytes() + self.conn_interval_min.spec_hci_bytes() + self.conn_interval_max.spec_hci_bytes() + self.max_latency.spec_hci_bytes() + self.supervision_timeout.spec_hci_bytes()));
        }
        n = n + self.supervision_timeout.size();
        proof {
            assert(self.le_scan_interval.spec_hci_bytes() + self.le_scan_window.spec_hci_bytes() + self.use_filter_accept_list.spec_hci_bytes() + self.peer_addr_kind.spec_hci_bytes() + self.peer_addr.spec_hci_bytes() + self.own_addr_kind.spec_hci_bytes() + self.conn_interval_min.spec_hci_bytes() + self.conn_interval_max.spec_hci_bytes() + self.max_latency.spec_hci_bytes() + self.supervision_timeout.spec_hci_bytes() + self.min_ce_length.spec_hci_bytes() =~= (self.le_scan_interval.spec_hci_bytes() + self.le_scan_window.spec_hci_bytes() + self.use_filter_accept_list.spec_hci_bytes() + self.peer_addr_kind.spec_hci_bytes() + self.peer_addr.spec_hci_bytes() + self.own_addr_kind.spec_hci_bytes() + self.conn_interval_min.spec_hci_bytes() + self.conn_interval_max.spec_hci_bytes() + self.max_latency.spec_hci_bytes() + self.supervision_timeout.spec_hci_bytes() + self.min_ce_length.spec_hci_bytes()));
        }
        n = n + self.min_ce_length.size();
        proof {
            assert(self.le_scan_interval.spec_hci_bytes() + self.le_scan_window.spec_hci_bytes() + self.use_filter_accept_list.spec_hci_bytes() + self.peer_addr_kind.spec_hci_bytes() + self.peer_addr.spec_hci_bytes() + self.own_addr_kind.spec_hci_bytes() + self.conn_interval_min.spec_hci_bytes() + self.conn_interval_max.spec_hci_bytes() + self.max_latency.spec_hci_bytes() + self.supervision_timeout.spec_hci_bytes() + self.min_ce_length.spec_hci_bytes() + self.max_ce_length.spec_hci_bytes() =~= (self.le_scan_interval.spec_hci_bytes() + self.le_scan_window.spec_hci_bytes() + self.use_filter_accept_list.spec_hci_bytes() + self.peer_addr_kind.spec_hci_bytes() + self.peer_addr.spec_hci_bytes() + self.own_addr_kind.spec_hci_bytes() + self.conn_interval_min.spec_hci_bytes() + self.conn_interval_max.spec_hci_bytes() + self.max_latency.spec_hci_bytes() + self.supervision_timeout.spec_hci_bytes() + self.min_ce_length.spec_hci_bytes() + self.max_ce_length.spec_hci_bytes()));
        }
        n = n + self.max_ce_length.size();
        n
    }

    fn write_hci(&self, out: &mut Vec<u8>) {
        self.le_scan_interval.write_hci(out);
        self.le_scan_window.write_hci(out);
        self.use_filter_accept_list.write_hci(out);
        self.peer_addr_kind.write_hci(out);
        self.peer_addr.write_hci(out);
        self.own_addr_kind.write_hci(out);
        self.conn_interval_min.write_hci(out);
        self.conn_interval_max.write_hci(out);
        self.max_latency.write_hci(out);
        self.supervision_timeout.write_hci(out);
        self.min_ce_length.write_hci(out);
        self.max_ce_length.write_hci(out);
        proof {
            assert(out@ =~= old(out)@ + self.spec_hci_bytes());
        }
    }
}

impl LeCreateConnParams {
    /// The bytes of a `LeCreateConnParams` are the bytes of its fields, one after the
    /// other, in the order in which the fields are declared.
    #[verifier::rlimit(60)]
    pub proof fn lemma_fields_in_order(&self)
        ensures
            self.spec_hci_bytes() == self.le_scan_interval.spec_hci_bytes() + self.le_scan_window.spec_hci_bytes() + self.use_filter_accept_list.spec_hci_bytes() + self.peer_addr_kind.spec_hci_bytes() + self.peer_addr.spec_hci_bytes() + self.own_addr_kind.spec_hci_bytes() + self.conn_interval_min.spec_hci_bytes() + self.conn_interval_max.spec_hci_bytes() + self.max_latency.spec_hci_bytes() + self.supervision_timeout.spec_hci_bytes() + self.min_ce_length.spec_hci_bytes() + self.max_ce_length.spec_hci_bytes(),
    {
    }
}


/// The LeCreateConn command (group LE, command 0x000d).
#[derive(Debug, Clone, Copy, PartialEq, Eq, PartialOrd, Ord, Hash)]
pub struct LeCreateConn(LeCreateConnParams);

impl LeCreateConn {
    /// Create a new instance of the command.
    pub fn new(le_scan_interval: Duration<10_000>, le_scan_window: Duration<10_000>, use_filter_accept_list: bool, peer_addr_kind: AddrKind, peer_addr: BdAddr, own_addr_kind: AddrKind, conn_interval_min: Duration<1_250>, conn_interval_max: Duration<1_250>, max_latency: u16, supervision_timeout: Duration<10_000>, min_ce_length: Duration<625>, max_ce_length: Duration<625>) -> (result: Self)
        ensures
            result.spec_params() == (LeCreateConnParams { le_scan_interval: le_scan_interval, le_scan_window: le_scan_window, use_filter_accept_list: use_filter_accept_list, peer_addr_kind: peer_addr_kind, peer_addr: peer_addr, own_addr_kind: own_addr_kind, conn_interval_min: conn_interval_min, conn_interval_max: conn_interval_max, max_latency: max_latency, supervision_timeout: supervision_timeout, min_ce_length: min_ce_length, max_ce_length: max_ce_length }),
    {
        LeCreateConn(LeCreateConnParams { le_scan_interval: le_scan_interval, le_scan_window: le_scan_window, use_filter_accept_list: use_filter_accept_list, peer_addr_kind: peer_addr_kind, peer_addr: peer_addr, own_addr_kind: own_addr_kind, conn_interval_min: conn_interval_min, conn_interval_max: conn_interval_max, max_latency: max_latency, supervision_timeout: supervision_timeout, min_ce_length: min_ce_length, max_ce_length: max_ce_length })
    }

    /// This command's opcode is group LE, command 0x000d: 0x200d.
    pub proof fn lemma_opcode()
        ensures
            Self::spec_opcode() == 0x200d,
    {
        lemma_opcode_value(LE, 0x000d);
    }
}

impl Cmd for LeCreateConn {
    type Params = LeCreateConnParams;

    open spec fn spec_opcode() -> u16 {
        spec_opcode_raw(LE, 0x000d)
    }

    closed spec fn spec_params(&self) -> LeCreateConnParams {
        self.0
    }

    fn opcode() -> (r: Opcode) {
        Opcode::new(OpcodeGroup::new(LE), 0x000d)
    }

    fn params(&self) -> (r: &LeCreateConnParams) {
        &self.0
    }

    proof fn lemma_packet(&self) {
    }
}

impl WriteHci for LeCreateConn {
    closed spec fn spec_hci_bytes(&self) -> Seq<u8> {
        spec_cmd_packet(spec_opcode_raw(LE, 0x000d), self.0.spec_hci_bytes())
    }

    fn size(&self) -> (r: usize) {
        self.0.size() + 3
    }

    fn write_hci(&self, out: &mut Vec<u8>) {
        write_cmd_packet(Opcode::new(OpcodeGroup::new(LE), 0x000d), &self.0, out);
    }
}

impl AsyncCmd for LeCreateConn {
}

/// The LeCreateConnCancel command (group LE, command 0x000e).
#[derive(Debug, Clone, Copy, PartialEq, Eq, PartialOrd, Ord, Hash, Default)]
pub struct LeCreateConnCancel(());

impl LeCreateConnCancel {
    /// Create a new instance of the command.
    pub fn new() -> (r: Self)
        ensures
            r.spec_params() == (),
    {
        LeCreateConnCancel(())
    }

    /// This command's opcode is group LE, command 0x000e: 0x200e.
    pub proof fn lemma_opcode()
        ensures
            Self::spec_opcode() == 0x200e,
    {
        lemma_opcode_value(LE, 0x000e);
    }
}

impl Cmd for LeCreateConnCancel {
    type Params = ();

    open spec fn spec_opcode() -> u16 {
        spec_opcode_raw(LE, 0x000e)
    }

    closed spec fn spec_params(&self) -> () {
        self.0
    }

    fn opcode() -> (r: Opcode) {
        Opcode::new(OpcodeGroup::new(LE), 0x000e)
    }

    fn params(&self) -> (r: &()) {
        &self.0
    }

    proof fn lemma_packet(&self) {
    }
}

impl WriteHci for LeCreateConnCancel {
    closed spec fn spec_hci_bytes(&self) -> Seq<u8> {
        spec_cmd_packet(spec_opcode_raw(LE, 0x000e), self.0.spec_hci_bytes())
    }

    fn size(&self) -> (r: usize) {
        self.0.size() + 3
    }

    fn write_hci(&self, out: &mut Vec<u8>) {
        write_cmd_packet(Opcode::new(OpcodeGroup::new(LE), 0x000e), &self.0, out);
    }
}

impl SyncCmd for LeCreateConnCancel {
    type Return = ();
    type Handle = ();

    open spec fn spec_handle_ok(data: Seq<u8>, h: ()) -> bool {
        true
    }

    open spec fn spec_handle_err(data: Seq<u8>, e: FromHciBytesError) -> bool {
        false
    }

    open spec fn spec_return_ok(data: Seq<u8>, v: ()) -> bool {
        spec_decodes_complete::<()>(data, v)
    }

    open spec fn spec_return_err(data: Seq<u8>, e: FromHciBytesError) -> bool {
        spec_decode_complete_err::<()>(data, e)
    }

    fn param_handle(&self) -> (r: ())
        ensures
            r == (),
    {
    }

    fn return_handle(data: &[u8]) -> (r: Result<(), FromHciBytesError>) {
        Ok(())
    }

    fn return_from_hci_bytes(data: &[u8]) -> (r: Result<(), FromHciBytesError>) {
        <() as FromHciBytes>::from_hci_bytes_complete(data)
    }
}

/// The LeReadFilterAcceptListSize command (group LE, command 0x000f).
#[derive(Debug, Clone, Copy, PartialEq, Eq, PartialOrd, Ord, Hash, Default)]
pub struct LeReadFilterAcceptListSize(());

impl LeReadFilterAcceptListSize {
    /// Create a new instance of the command.
    pub fn new() -> (r: Self)
        ensures
            r.spec_params() == (),
    {
        LeReadFilterAcceptListSize(())
    }

    /// This command's opcode is group LE, command 0x000f: 0x200f.
    pub proof fn lemma_opcode()
        ensures
            Self::spec_opcode() == 0x200f,
    {
        lemma_opcode_value(LE, 0x000f);
    }
}

impl Cmd for LeReadFilterAcceptListSize {
    type Params = ();

    open spec fn spec_opcode() -> u16 {
        spec_opcode_raw(LE, 0x000f)
    }

    closed spec fn spec_params(&self) -> () {
        self.0
    }

    fn opcode() -> (r: Opcode) {
        Opcode::new(OpcodeGroup::new(LE), 0x000f)
    }

    fn params(&self) -> (r: &()) {
        &self.0
    }

    proof fn lemma_packet(&self) {
    }
}

impl WriteHci for LeReadFilterAcceptListSize {
    closed spec fn spec_hci_bytes(&self) -> Seq<u8> {
        spec_cmd_packet(spec_opcode_raw(LE, 0x000f), self.0.spec_hci_bytes())
    }

    fn size(&self) -> (r: usize) {
        self.0.size() + 3
    }

    fn write_hci(&self, out: &mut Vec<u8>) {
        write_cmd_packet(Opcode::new(OpcodeGroup::new(LE), 0x000f), &self.0, out);
    }
}

impl SyncCmd for LeReadFilterAcceptListSize {
    type Return = u8;
    type Handle = ();

    open spec fn spec_handle_ok(data: Seq<u8>, h: ()) -> bool {
        true
    }

    open spec fn spec_handle_err(data: Seq<u8>, e: FromHciBytesError) -> bool {
        false
    }

    open spec fn spec_return_ok(data: Seq<u8>, v: u8) -> bool {
        spec_decodes_complete::<u8>(data, v)
    }

    open spec fn spec_return_err(data: Seq<u8>, e: FromHciBytesError) -> bool {
        spec_decode_complete_err::<u8>(data, e)
    }

    fn param_handle(&self) -> (r: ())
        ensures
            r == (),
    {
    }

    fn return_handle(data: &[u8]) -> (r: Result<(), FromHciBytesError>) {
        Ok(())
    }

    fn return_from_hci_bytes(data: &[u8]) -> (r: Result<u8, FromHciBytesError>) {
        <u8 as FromHciBytes>::from_hci_bytes_complete(data)
    }
}

/// The LeClearFilterAcceptList command (group LE, command 0x0010).
#[derive(Debug, Clone, Copy, PartialEq, Eq, PartialOrd, Ord, Hash, Default)]
pub struct LeClearFilterAcceptList(());

impl LeClearFilterAcceptList {
    /// Create a new instance of the command.
    pub fn new() -> (r: Self)
        ensures
            r.spec_params() == (),
    {
        LeClearFilterAcceptList(())
    }

    /// This command's opcode is group LE, command 0x0010: 0x2010.
    pub proof fn lemma_opcode()
        ensures
            Self::spec_opcode() == 0x2010,
    {
        lemma_opcode_value(LE, 0x0010);
    }
}

impl Cmd for LeClearFilterAcceptList {
    type Params = ();

    open spec fn spec_opcode() -> u16 {
        spec_opcode_raw(LE, 0x0010)
    }

    closed spec fn spec_params(&self) -> () {
        self.0
    }

    fn opcode() -> (r: Opcode) {
        Opcode::new(OpcodeGroup::new(LE), 0x0010)
    }

    fn params(&self) -> (r: &()) {
        &self.0
    }

    proof fn lemma_packet(&self) {
    }
}

impl WriteHci for LeClearFilterAcceptList {
    closed spec fn spec_hci_bytes(&self) -> Seq<u8> {
        spec_cmd_packet(spec_opcode_raw(LE, 0x0010), self.0.spec_hci_bytes())
    }

    fn size(&self) -> (r: usize) {
        self.0.size() + 3
    }

    fn write_hci(&self, out: &mut Vec<u8>) {
        write_cmd_packet(Opcode::new(OpcodeGroup::new(LE), 0x0010), &self.0, out);
    }
}

impl SyncCmd for LeClearFilterAcceptList {
    type Return = ();
    type Handle = ();

    open spec fn spec_handle_ok(data: Seq<u8>, h: ()) -> bool {
        true
    }

    open spec fn spec_handle_err(data: Seq<u8>, e: FromHciBytesError) -> bool {
        false
    }

    open spec fn spec_return_ok(data: Seq<u8>, v: ()) -> bool {
        spec_decodes_complete::<()>(data, v)
    }

    open spec fn spec_return_err(data: Seq<u8>, e: FromHciBytesError) -> bool {
        spec_decode_complete_err::<()>(data, e)
    }

    fn param_handle(&self) -> (r: ())
        ensures
            r == (),
    {
    }

    fn return_handle(data: &[u8]) -> (r: Result<(), FromHciBytesError>) {
        Ok(())
    }

    fn return_from_hci_bytes(data: &[u8]) -> (r: Result<(), FromHciBytesError>) {
        <() as FromHciBytes>::from_hci_bytes_complete(data)
    }
}

/// Parameters for the [`LeAddDeviceToFilterAcceptList`] command.
#[derive(Debug, Clone, Copy, PartialEq, Eq, PartialOrd, Ord, Hash)]
#[allow(missing_docs)]
pub struct LeAddDeviceToFilterAcceptListParams {
    pub addr_kind: AddrKind,
    pub addr: BdAddr,
}

/// The value of a [`LeAddDeviceToFilterAcceptListParams`], with byte slices taken as sequences.
#[allow(missing_docs)]
pub struct LeAddDeviceToFilterAcceptListParamsView {
    pub addr_kind: u8,
    pub addr: Seq<u8>,
}

impl View for LeAddDeviceToFilterAcceptListParams {
    type V = LeAddDeviceToFilterAcceptListParamsView;

    open spec fn view(&self) -> LeAddDeviceToFilterAcceptListParamsView {
        LeAddDeviceToFilterAcceptListParamsView { addr_kind: self.addr_kind@, addr: self.addr@ }
    }
}

impl WriteHci for LeAddDeviceToFilterAcceptListParams {
    open spec fn spec_hci_bytes(&self) -> Seq<u8> {
        self.addr_kind.spec_hci_bytes() + self.addr.spec_hci_bytes()
    }

    fn size(&self) -> (r: usize) {
        let mut n = self.addr_kind.size();
        proof {
            assert(self.addr_kind.spec_hci_bytes() + self.addr.spec_hci_bytes() =~= (self.addr_kind.spec_hci_bytes() + self.addr.spec_hci_bytes()));
        }
        n = n + self.addr.size();
        n
    }

    fn write_hci(&self, out: &mut Vec<u8>) {
        self.addr_kind.write_hci(out);
        self.addr.write_hci(out);
        proof {
            assert(out@ =~= old(out)@ + self.spec_hci_bytes());
        }
    }
}

impl LeAddDeviceToFilterAcceptListParams {
    /// The bytes of a `LeAddDeviceToFilterAcceptListParams` are the bytes of its fields, one after the
    /// other, in the order in which the fields are declared.
    pub proof fn lemma_fields_in_order(&self)
        ensures
            self.spec_hci_bytes() == self.addr_kind.spec_hci_bytes() + self.addr.spec_hci_bytes(),
    {
    }
}


/// The LeAddDeviceToFilterAcceptList command (group LE, command 0x0011).
#[derive(Debug, Clone, Copy, PartialEq, Eq, PartialOrd, Ord, Hash)]
pub struct LeAddDeviceToFilterAcceptList(LeAddDeviceToFilterAcceptListParams);

impl LeAddDeviceToFilterAcceptList {
    /// Create a new instance of the command.
    pub fn new(addr_kind: AddrKind, addr: BdAddr) -> (result: Self)
        ensures
            result.spec_params() == (LeAddDeviceToFilterAcceptListParams { addr_kind: addr_kind, addr: addr }),
    {
        LeAddDeviceToFilterAcceptList(LeAddDeviceToFilterAcceptListParams { addr_kind: addr_kind, addr: addr })
    }

    /// This command's opcode is group LE, command 0x0011: 0x2011.
    pub proof fn lemma_opcode()
        ensures
            Self::spec_opcode() == 0x2011,
    {
        lemma_opcode_value(LE, 0x0011);
    }
}

impl Cmd for LeAddDeviceToFilterAcceptList {
    type Params = LeAddDeviceToFilterAcceptListParams;

    open spec fn spec_opcode() -> u16 {
        spec_opcode_raw(LE, 0x0011)
    }

    closed spec fn spec_params(&self) -> LeAddDeviceToFilterAcceptListParams {
        self.0
    }

    fn opcode() -> (r: Opcode) {
        Opcode::new(OpcodeGroup::new(LE), 0x0011)
    }

    fn params(&self) -> (r: &LeAddDeviceToFilterAcceptListParams) {
        &self.0
    }

    proof fn lemma_packet(&self) {
    }
}

impl WriteHci for LeAddDeviceToFilterAcceptList {
    closed spec fn spec_hci_bytes(&self) -> Seq<u8> {
        spec_cmd_packet(spec_opcode_raw(LE, 0x0011), self.0.spec_hci_bytes())
    }

    fn size(&self) -> (r: usize) {
        self.0.size() + 3
    }

    fn write_hci(&self, out: &mut Vec<u8>) {
        write_cmd_packet(Opcode::new(OpcodeGroup::new(LE), 0x0011), &self.0, out);
    }
}

impl SyncCmd for LeAddDeviceToFilterAcceptList {
    type Return = ();
    type Handle = ();

    open spec fn spec_handle_ok(data: Seq<u8>, h: ()) -> bool {
        true
    }

    open spec fn spec_handle_err(data: Seq<u8>, e: FromHciBytesError) -> bool {
        false
    }

    open spec fn spec_return_ok(data: Seq<u8>, v: ()) -> bool {
        spec_decodes_complete::<()>(data, v)
    }

    open spec fn spec_return_err(data: Seq<u8>, e: FromHciBytesError) -> bool {
        spec_decode_complete_err::<()>(data, e)
    }

    fn param_handle(&self) -> (r: ())
        ensures
            r == (),
    {
    }

    fn return_handle(data: &[u8]) -> (r: Result<(), FromHciBytesError>) {
        Ok(())
    }

    fn return_from_hci_bytes(data: &[u8]) -> (r: Result<(), FromHciBytesError>) {
        <() as FromHciBytes>::from_hci_bytes_complete(data)
    }
}

/// Parameters for the [`LeRemoveDeviceFromFilterAcceptList`] command.
#[derive(Debug, Clone, Copy, PartialEq, Eq, PartialOrd, Ord, Hash)]
#[allow(missing_docs)]
pub struct LeRemoveDeviceFromFilterAcceptListParams {
    pub addr_kind: AddrKind,
    pub addr: BdAddr,
}

/// The value of a [`LeRemoveDeviceFromFilterAcceptListParams`], with byte slices taken as sequences.
#[allow(missing_docs)]
pub struct LeRemoveDeviceFromFilterAcceptListParamsView {
    pub addr_kind: u8,
    pub addr: Seq<u8>,
}

impl View for LeRemoveDeviceFromFilterAcceptListParams {
    type V = LeRemoveDeviceFromFilterAcceptListParamsView;

    open spec fn view(&self) -> LeRemoveDeviceFromFilterAcceptListParamsView {
        LeRemoveDeviceFromFilterAcceptListParamsView { addr_kind: self.addr_kind@, addr: self.addr@ }
    }
}

impl WriteHci for LeRemoveDeviceFromFilterAcceptListParams {
    open spec fn spec_hci_bytes(&self) -> Seq<u8> {
        self.addr_kind.spec_hci_bytes() + self.addr.spec_hci_bytes()
    }

    fn size(&self) -> (r: usize) {
        let mut n = self.addr_kind.size();
        proof {
            assert(self.addr_kind.spec_hci_bytes() + self.addr.spec_hci_bytes() =~= (self.addr_kind.spec_hci_bytes() + self.addr.spec_hci_bytes()));
        }
        n = n + self.addr.size();
        n
    }

    fn write_hci(&self, out: &mut Vec<u8>) {
        self.addr_kind.write_hci(out);
        self.addr.write_hci(out);
        proof {
            assert(out@ =~= old(out)@ + self.spec_hci_bytes());
        }
    }
}

impl LeRemoveDeviceFromFilterAcceptListParams {
    /// The bytes of a `LeRemoveDeviceFromFilterAcceptListParams` are the bytes of its fields, one after the
    /// other, in the order in which the fields are declared.
    pub proof fn lemma_fields_in_order(&self)
        ensures
            self.spec_hci_bytes() == self.addr_kind.spec_hci_bytes() + self.addr.spec_hci_bytes(),
    {
    }
}


/// The LeRemoveDeviceFromFilterAcceptList command (group LE, command 0x0012).
#[derive(Debug, Clone, Copy, PartialEq, Eq, PartialOrd, Ord, Hash)]
pub struct LeRemoveDeviceFromFilterAcceptList(LeRemoveDeviceFromFilterAcceptListParams);

impl LeRemoveDeviceFromFilterAcceptList {
    /// Create a new instance of the command.
    pub fn new(addr_kind: AddrKind, addr: BdAddr) -> (result: Self)
        ensures
            result.spec_params() == (LeRemoveDeviceFromFilterAcceptListParams { addr_kind: addr_kind, addr: addr }),
    {
        LeRemoveDeviceFromFilterAcceptList(LeRemoveDeviceFromFilterAcceptListParams { addr_kind: addr_kind, addr: addr })
    }

    /// This command's opcode is group LE, command 0x0012: 0x2012.
    pub proof fn lemma_opcode()
        ensures
            Self::spec_opcode() == 0x2012,
    {
        lemma_opcode_value(LE, 0x0012);
    }
}

impl Cmd for LeRemoveDeviceFromFilterAcceptList {
    type Params = LeRemoveDeviceFromFilterAcceptListParams;

    open spec fn spec_opcode() -> u16 {
        spec_opcode_raw(LE, 0x0012)
    }

    closed spec fn spec_params(&self) -> LeRemoveDeviceFromFilterAcceptListParams {
        self.0
    }

    fn opcode() -> (r: Opcode) {
        Opcode::new(OpcodeGroup::new(LE), 0x0012)
    }

    fn params(&self) -> (r: &LeRemoveDeviceFromFilterAcceptListParams) {
        &self.0
    }

    proof fn lemma_packet(&self) {
    }
}

impl WriteHci for LeRemoveDeviceFromFilterAcceptList {
    closed spec fn spec_hci_bytes(&self) -> Seq<u8> {
        spec_cmd_packet(spec_opcode_raw(LE, 0x0012), self.0.spec_hci_bytes())
    }

    fn size(&self) -> (r: usize) {
        self.0.size() + 3
    }

    fn write_hci(&self, out: &mut Vec<u8>) {
        write_cmd_packet(Opcode::new(OpcodeGroup::new(LE), 0x0012), &self.0, out);
    }
}

impl SyncCmd for LeRemoveDeviceFromFilterAcceptList {
    type Return = ();
    type Handle = ();

    open spec fn spec_handle_ok(data: Seq<u8>, h: ()) -> bool {
        true
    }

    open spec fn spec_handle_err(data: Seq<u8>, e: FromHciBytesError) -> bool {
        false
    }

    open spec fn spec_return_ok(data: Seq<u8>, v: ()) -> bool {
        spec_decodes_complete::<()>(data, v)
    }

    open spec fn spec_return_err(data: Seq<u8>, e: FromHciBytesError) -> bool {
        spec_decode_complete_err::<()>(data, e)
    }

    fn param_handle(&self) -> (r: ())
        ensures
            r == (),
    {
    }

    fn return_handle(data: &[u8]) -> (r: Result<(), FromHciBytesError>) {
        Ok(())
    }

    fn return_from_hci_bytes(data: &[u8]) -> (r: Result<(), FromHciBytesError>) {
        <() as FromHciBytes>::from_hci_bytes_complete(data)
    }
}

/// Parameters for the [`LeConnUpdate`] command.
#[derive(Debug, Clone, Copy, PartialEq, Eq, PartialOrd, Ord, Hash)]
#[allow(missing_docs)]
pub struct LeConnUpdateParams {
    pub handle: ConnHandle,
    pub conn_interval_min: Duration<1_250>,
    pub conn_interval_max: Duration<1_250>,
    pub max_latency: u16,
    pub supervision_timeout: Duration<10_000>,
    pub min_ce_length: Duration<625>,
    pub max_ce_length: Duration<625>,
}

/// The value of a [`LeConnUpdateParams`], with byte slices taken as sequences.
#[allow(missing_docs)]
pub struct LeConnUpdateParamsView {
    pub handle: u16,
    pub conn_interval_min: u16,
    pub conn_interval_max: u16,
    pub max_latency: u16,
    pub supervision_timeout: u16,
    pub min_ce_length: u16,
    pub max_ce_length: u16,
}

impl View for LeConnUpdateParams {
    type V = LeConnUpdateParamsView;

    open spec fn view(&self) -> LeConnUpdateParamsView {
        LeConnUpdateParamsView { handle: self.handle@, conn_interval_min: self.conn_interval_min@, conn_interval_max: self.conn_interval_max@, max_latency: self.max_latency@, supervision_timeout: self.supervision_timeout@, min_ce_length: self.min_ce_length@, max_ce_length: self.max_ce_length@ }
    }
}

impl WriteHci for LeConnUpdateParams {
    open spec fn spec_hci_bytes(&self) -> Seq<u8> {
        self.handle.spec_hci_bytes() + self.conn_interval_min.spec_hci_bytes() + self.conn_interval_max.spec_hci_bytes() + self.max_latency.spec_hci_bytes() + self.supervision_timeout.spec_hci_bytes() + self.min_ce_length.spec_hci_bytes() + self.max_ce_length.spec_hci_bytes()
    }

    fn size(&self) -> (r: usize) {
        let mut n = self.handle.size();
        proof {
            assert(self.handle.spec_hci_bytes() + self.conn_interval_min.spec_hci_bytes() =~= (self.handle.spec_hci_bytes() + self.conn_interval_min.spec_hci_bytes()));
        }
        n = n + self.conn_interval_min.size();
        proof {
            assert(self.handle.spec_hci_bytes() + self.conn_interval_min.spec_hci_bytes() + self.conn_interval_max.spec_hci_bytes() =~= (self.handle.spec_hci_bytes() + self.conn_interval_min.spec_hci_bytes() + self.conn_interval_max.spec_hci_bytes()));
        }
        n = n + self.conn_interval_max.size();
        proof {
            assert(self.handle.spec_hci_bytes() + self.conn_interval_min.spec_hci_bytes() + self.conn_interval_max.spec_hci_bytes() + self.max_latency.spec_hci_bytes() =~= (self.handle.spec_hci_bytes() + self.conn_interval_min.spec_hci_bytes() + self.conn_interval_max.spec_hci_bytes() + self.max_latency.spec_hci_bytes()));
        }
        n = n + self.max_latency.size();
        proof {
            assert(self.handle.spec_hci_bytes() + self.conn_interval_min.spec_hci_bytes() + self.conn_interval_max.spec_hci_bytes() + self.max_latency.spec_hci_bytes() + self.supervision_timeout.spec_hci_bytes() =~= (self.handle.spec_hci_bytes() + self.conn_interval_min.spec_hci_bytes() + self.conn_interval_max.spec_hci_bytes() + self.max_latency.spec_hci_bytes() + self.supervision_timeout.spec_hci_bytes()));
        }
        n = n + self.supervision_timeout.size();
        proof {
            assert(self.handle.spec_hci_bytes() + self.conn_interval_min.spec_hci_bytes() + self.conn_interval_max.spec_hci_bytes() + self.max_latency.spec_hci_bytes() + self.supervision_timeout.spec_hci_bytes() + self.min_ce_length.spec_hci_bytes() =~= (self.handle.spec_hci_bytes() + self.conn_interval_min.spec_hci_bytes() + self.conn_interval_max.spec_hci_bytes() + self.max_latency.spec_hci_bytes() + self.supervision_timeout.spec_hci_bytes() + self.min_ce_length.spec_hci_bytes()));
        }
        n = n + self.min_ce_length.size();
        proof {
            assert(self.handle.spec_hci_bytes() + self.conn_interval_min.spec_hci_bytes() + self.conn_interval_max.spec_hci_bytes() + self.max_latency.spec_hci_bytes() + self.supervision_timeout.spec_hci_bytes() + self.min_ce_length.spec_hci_bytes() + self.max_ce_length.spec_hci_bytes() =~= (self.handle.spec_hci_bytes() + self.conn_interval_min.spec_hci_bytes() + self.conn_interval_max.spec_hci_bytes() + self.max_latency.spec_hci_bytes() + self.supervision_timeout.spec_hci_bytes() + self.min_ce_length.spec_hci_bytes() + self.max_ce_length.spec_hci_bytes()));
        }
        n = n + self.max_ce_length.size();
        n
    }

    fn write_hci(&self, out: &mut Vec<u8>) {
        self.handle.write_hci(out);
        self.conn_interval_min.write_hci(out);
        self.conn_interval_max.write_hci(out);
        self.max_latency.write_hci(out);
        self.supervision_timeout.write_hci(out);
        self.min_ce_length.write_hci(out);
        self.max_ce_length.write_hci(out);
        proof {
            assert(out@ =~= old(out)@ + self.spec_hci_bytes());
        }
    }
}

impl LeConnUpdateParams {
    /// The bytes of a `LeConnUpdateParams` are the bytes of its fields, one after the
    /// other, in the order in which the fields are declared.
    pub proof fn lemma_fields_in_order(&self)
        ensures
            self.spec_hci_bytes() == self.handle.spec_hci_bytes() + self.conn_interval_min.spec_hci_bytes() + self.conn_interval_max.spec_hci_bytes() + self.max_latency.spec_hci_bytes() + self.supervision_timeout.spec_hci_bytes() + self.min_ce_length.spec_hci_bytes() + self.max_ce_length.spec_hci_bytes(),
    {
    }
}


/// The LeConnUpdate command (group LE, command 0x0013).
#[derive(Debug, Clone, Copy, PartialEq, Eq, PartialOrd, Ord, Hash)]
pub struct LeConnUpdate(LeConnUpdateParams);

impl LeConnUpdate {
    /// Create a new instance of the command.
    pub fn new(handle: ConnHandle, conn_interval_min: Duration<1_250>, conn_interval_max: Duration<1_250>, max_latency: u16, supervision_timeout: Duration<10_000>, min_ce_length: Duration<625>, max_ce_length: Duration<625>) -> (result: Self)
        ensures
            result.spec_params() == (LeConnUpdateParams { handle: handle, conn_interval_min: conn_interval_min, conn_interval_max: conn_interval_max, max_latency: max_latency, supervision_timeout: supervision_timeout, min_ce_length: min_ce_length, max_ce_length: max_ce_length }),
    {
        LeConnUpdate(LeConnUpdateParams { handle: handle, conn_interval_min: conn_interval_min, conn_interval_max: conn_interval_max, max_latency: max_latency, supervision_timeout: supervision_timeout, min_ce_length: min_ce_length, max_ce_length: max_ce_length })
    }

    /// This command's opcode is group LE, command 0x0013: 0x2013.
    pub proof fn lemma_opcode()
        ensures
            Self::spec_opcode() == 0x2013,
    {
        lemma_opcode_value(LE, 0x0013);
    }
}

impl Cmd for LeConnUpdate {
    type Params = LeConnUpdateParams;

    open spec fn spec_opcode() -> u16 {
        spec_opcode_raw(LE, 0x0013)
    }

    closed spec fn spec_params(&self) -> LeConnUpdateParams {
        self.0
    }

    fn opcode() -> (r: Opcode) {
        Opcode::new(OpcodeGroup::new(LE), 0x0013)
    }

    fn params(&self) -> (r: &LeConnUpdateParams) {
        &self.0
    }

    proof fn lemma_packet(&self) {
    }
}

impl WriteHci for LeConnUpdate {
    closed spec fn spec_hci_bytes(&self) -> Seq<u8> {
        spec_cmd_packet(spec_opcode_raw(LE, 0x0013), self.0.spec_hci_bytes())
    }

    fn size(&self) -> (r: usize) {
        self.0.size() + 3
    }

    fn write_hci(&self, out: &mut Vec<u8>) {
        write_cmd_packet(Opcode::new(OpcodeGroup::new(LE), 0x0013), &self.0, out);
    }
}

impl AsyncCmd for LeConnUpdate {
}

/// The LeSetHostChannelClassification command (group LE, command 0x0014).
#[derive(Debug, Clone, Copy, PartialEq, Eq, PartialOrd, Ord, Hash)]
pub struct LeSetHostChannelClassification(ChannelMap);

impl LeSetHostChannelClassification {
    /// Create a new instance of the command with the provided parameters.
    pub fn new(param: ChannelMap) -> (r: Self)
        ensures
            r.spec_params() == param,
    {
        LeSetHostChannelClassification(param)
    }

    /// This command's opcode is group LE, command 0x0014: 0x2014.
    pub proof fn lemma_opcode()
        ensures
            Self::spec_opcode() == 0x2014,
    {
        lemma_opcode_value(LE, 0x0014);
    }
}

impl Cmd for LeSetHostChannelClassification {
    type Params = ChannelMap;

    open spec fn spec_opcode() -> u16 {
        spec_opcode_raw(LE, 0x0014)
    }

    closed spec fn spec_params(&self) -> ChannelMap {
        self.0
    }

    fn opcode() -> (r: Opcode) {
        Opcode::new(OpcodeGroup::new(LE), 0x0014)
    }

    fn params(&self) -> (r: &ChannelMap) {
        &self.0
    }

    proof fn lemma_packet(&self) {
    }
}

impl WriteHci for LeSetHostChannelClassification {
    closed spec fn spec_hci_bytes(&self) -> Seq<u8> {
        spec_cmd_packet(spec_opcode_raw(LE, 0x0014), self.0.spec_hci_bytes())
    }

    fn size(&self) -> (r: usize) {
        self.0.size() + 3
    }

    fn write_hci(&self, out: &mut Vec<u8>) {
        write_cmd_packet(Opcode::new(OpcodeGroup::new(LE), 0x0014), &self.0, out);
    }
}

impl SyncCmd for LeSetHostChannelClassification {
    type Return = ();
    type Handle = ();

    open spec fn spec_handle_ok(data: Seq<u8>, h: ()) -> bool {
        true
    }

    open spec fn spec_handle_err(data: Seq<u8>, e: FromHciBytesError) -> bool {
        false
    }

    open spec fn spec_return_ok(data: Seq<u8>, v: ()) -> bool {
        spec_decodes_complete::<()>(data, v)
    }

    open spec fn spec_return_err(data: Seq<u8>, e: FromHciBytesError) -> bool {
        spec_decode_complete_err::<()>(data, e)
    }

    fn param_handle(&self) -> (r: ())
        ensures
            r == (),
    {
    }

    fn return_handle(data: &[u8]) -> (r: Result<(), FromHciBytesError>) {
        Ok(())
    }

    fn return_from_hci_bytes(data: &[u8]) -> (r: Result<(), FromHciBytesError>) {
        <() as FromHciBytes>::from_hci_bytes_complete(data)
    }
}

/// Return parameters for the [`LeReadChannelMap`] command.
#[derive(Debug, Clone, Copy, PartialEq, Eq, PartialOrd, Ord, Hash)]
#[allow(missing_docs)]
pub struct LeReadChannelMapReturn {
    pub handle: ConnHandle,
    pub channel_map: ChannelMap,
}

/// The value of a [`LeReadChannelMapReturn`], with byte slices taken as sequences.
#[allow(missing_docs)]
pub struct LeReadChannelMapReturnView {
    pub handle: u16,
    pub channel_map: Seq<u8>,
}

impl View for LeReadChannelMapReturn {
    type V = LeReadChannelMapReturnView;

    open spec fn view(&self) -> LeReadChannelMapReturnView {
        LeReadChannelMapReturnView { handle: self.handle@, channel_map: self.channel_map@ }
    }
}

impl<'de> FromHciBytes<'de> for LeReadChannelMapReturn {
    open spec fn spec_from_hci_bytes(data: Seq<u8>) -> Result<(LeReadChannelMapReturnView, nat), FromHciBytesError> {
        if data.len() < 7 {
            Err(FromHciBytesError::InvalidSize)
        } else {
            match <ConnHandle as FromHciBytes<'de>>::spec_from_hci_bytes(data) {
                Err(e) => Err(e),
                Ok((v_handle, n_handle)) => {
                    match <ChannelMap as FromHciBytes<'de>>::spec_from_hci_bytes(data.skip(n_handle as int)) {
                        Err(e) => Err(e),
                        Ok((v_channel_map, n_channel_map)) => {
                            Ok((LeReadChannelMapReturnView { handle: v_handle, channel_map: v_channel_map }, (n_handle + n_channel_map) as nat))
                        },
                    }
                },
            }
        }
    }

    fn from_hci_bytes(data: &'de [u8]) -> (r: Result<(LeReadChannelMapReturn, &'de [u8]), FromHciBytesError>) {
        if data.len() < 7 {
            return Err(FromHciBytesError::InvalidSize);
        }
        let (v_handle, rest_handle) = match <ConnHandle as FromHciBytes<'de>>::from_hci_bytes(data) {
            Ok(x) => x,
            Err(e) => return Err(e),
        };
        let (v_channel_map, rest_channel_map) = match <ChannelMap as FromHciBytes<'de>>::from_hci_bytes(rest_handle) {
            Ok(x) => x,
            Err(e) => return Err(e),
        };
        proof {
            lemma_skip_skip(data@, (data@.len() - rest_handle@.len()) as int, (rest_handle@.len() - rest_channel_map@.len()) as int);
        }
        Ok((LeReadChannelMapReturn { handle: v_handle, channel_map: v_channel_map }, rest_channel_map))
    }
}

impl WriteHci for LeReadChannelMapReturn {
    open spec fn spec_hci_bytes(&self) -> Seq<u8> {
        self.handle.spec_hci_bytes() + self.channel_map.spec_hci_bytes()
    }

    fn size(&self) -> (r: usize) {
        let mut n = self.handle.size();
        proof {
            assert(self.handle.spec_hci_bytes() + self.channel_map.spec_hci_bytes() =~= (self.handle.spec_hci_bytes() + self.channel_map.spec_hci_bytes()));
        }
        n = n + self.channel_map.size();
        n
    }

    fn write_hci(&self, out: &mut Vec<u8>) {
        self.handle.write_hci(out);
        self.channel_map.write_hci(out);
        proof {
            assert(out@ =~= old(out)@ + self.spec_hci_bytes());
        }
    }
}

impl LeReadChannelMapReturn {
    /// The bytes of a `LeReadChannelMapReturn` are the bytes of its fields, one after the
    /// other, in the order in which the fields are declared.
    pub proof fn lemma_fields_in_order(&self)
        ensures
            self.spec_hci_bytes() == self.handle.spec_hci_bytes() + self.channel_map.spec_hci_bytes(),
    {
    }
}

impl FixedSizeValue for LeReadChannelMapReturn {
    open spec fn spec_size() -> nat {
        7
    }

    proof fn lemma_fixed_size(&self) {
        self.handle.lemma_fixed_size();
        self.channel_map.lemma_fixed_size();
    }
}

impl<'de> HciCodec<'de> for LeReadChannelMapReturn {
    open spec fn spec_encodable(&self) -> bool {
        self.handle.spec_encodable() && self.channel_map.spec_encodable()
    }

    proof fn lemma_write_then_read(&self, rest: Seq<u8>) {
        self.handle.lemma_fixed_size();
        self.channel_map.lemma_fixed_size();
        let t_channel_map = self.channel_map.spec_hci_bytes() + rest;
        let t_handle = self.handle.spec_hci_bytes() + t_channel_map;
        assert(self.spec_hci_bytes() + rest =~= t_handle);
        self.handle.lemma_write_then_read(t_channel_map);
        self.channel_map.lemma_write_then_read(rest);
        assert(t_handle.skip(self.handle.spec_hci_bytes().len() as int) =~= t_channel_map);
    }
}

/// The LeReadChannelMap command (group LE, command 0x0015).
#[derive(Debug, Clone, Copy, PartialEq, Eq, PartialOrd, Ord, Hash)]
pub struct LeReadChannelMap(ConnHandle);

impl LeReadChannelMap {
    /// Create a new instance of the command with the provided parameters.
    pub fn new(param: ConnHandle) -> (r: Self)
        ensures
            r.spec_params() == param,
    {
        LeReadChannelMap(param)
    }

    /// This command's opcode is group LE, command 0x0015: 0x2015.
    pub proof fn lemma_opcode()
        ensures
            Self::spec_opcode() == 0x2015,
    {
        lemma_opcode_value(LE, 0x0015);
    }
}

impl Cmd for LeReadChannelMap {
    type Params = ConnHandle;

    open spec fn spec_opcode() -> u16 {
        spec_opcode_raw(LE, 0x0015)
    }

    closed spec fn spec_params(&self) -> ConnHandle {
        self.0
    }

    fn opcode() -> (r: Opcode) {
        Opcode::new(OpcodeGroup::new(LE), 0x0015)
    }

    fn params(&self) -> (r: &ConnHandle) {
        &self.0
    }

    proof fn lemma_packet(&self) {
    }
}

impl WriteHci for LeReadChannelMap {
    closed spec fn spec_hci_bytes(&self) -> Seq<u8> {
        spec_cmd_packet(spec_opcode_raw(LE, 0x0015), self.0.spec_hci_bytes())
    }

    fn size(&self) -> (r: usize) {
        self.0.size() + 3
    }

    fn write_hci(&self, out: &mut Vec<u8>) {
        write_cmd_packet(Opcode::new(OpcodeGroup::new(LE), 0x0015), &self.0, out);
    }
}

impl SyncCmd for LeReadChannelMap {
    type Return = LeReadChannelMapReturn;
    type Handle = ConnHandle;

    open spec fn spec_handle_ok(data: Seq<u8>, h: ConnHandle) -> bool {
        spec_decodes_prefix::<ConnHandle>(data, h)
    }

    open spec fn spec_handle_err(data: Seq<u8>, e: FromHciBytesError) -> bool {
        spec_decode_prefix_err::<ConnHandle>(data, e)
    }

    open spec fn spec_return_ok(data: Seq<u8>, v: LeReadChannelMapReturn) -> bool {
        spec_decodes_complete::<LeReadChannelMapReturn>(data, v)
    }

    open spec fn spec_return_err(data: Seq<u8>, e: FromHciBytesError) -> bool {
        spec_decode_complete_err::<LeReadChannelMapReturn>(data, e)
    }

    fn param_handle(&self) -> (r: ConnHandle)
        ensures
            r == self.spec_params(),
    {
        self.0
    }

    fn return_handle(data: &[u8]) -> (r: Result<ConnHandle, FromHciBytesError>) {
        match <ConnHandle as FromHciBytes>::from_hci_bytes(data) {
            Ok((x, _)) => Ok(x),
            Err(e) => Err(e),
        }
    }

    fn return_from_hci_bytes(data: &[u8]) -> (r: Result<LeReadChannelMapReturn, FromHciBytesError>) {
        <LeReadChannelMapReturn as FromHciBytes>::from_hci_bytes_complete(data)
    }
}

/// The LeReadRemoteFeatures command (group LE, command 0x0016).
#[derive(Debug, Clone, Copy, PartialEq, Eq, PartialOrd, Ord, Hash)]
pub struct LeReadRemoteFeatures(ConnHandle);

impl LeReadRemoteFeatures {
    /// Create a new instance of the command with the provided parameters.
    pub fn new(param: ConnHandle) -> (r: Self)
        ensures
            r.spec_params() == param,
    {
        LeReadRemoteFeatures(param)
    }

    /// This command's opcode is group LE, command 0x0016: 0x2016.
    pub proof fn lemma_opcode()
        ensures
            Self::spec_opcode() == 0x2016,
    {
        lemma_opcode_value(LE, 0x0016);
    }
}

impl Cmd for LeReadRemoteFeatures {
    type Params = ConnHandle;

    open spec fn spec_opcode() -> u16 {
        spec_opcode_raw(LE, 0x0016)
    }

    closed spec fn spec_params(&self) -> ConnHandle {
        self.0
    }

    fn opcode() -> (r: Opcode) {
        Opcode::new(OpcodeGroup::new(LE), 0x0016)
    }

    fn params(&self) -> (r: &ConnHandle) {
        &self.0
    }

    proof fn lemma_packet(&self) {
    }
}

impl WriteHci for LeReadRemoteFeatures {
    closed spec fn spec_hci_bytes(&self) -> Seq<u8> {
        spec_cmd_packet(spec_opcode_raw(LE, 0x0016), self.0.spec_hci_bytes())
    }

    fn size(&self) -> (r: usize) {
        self.0.size() + 3
    }

    fn write_hci(&self, out: &mut Vec<u8>) {
        write_cmd_packet(Opcode::new(OpcodeGroup::new(LE), 0x0016), &self.0, out);
    }
}

impl AsyncCmd for LeReadRemoteFeatures {
}

/// Parameters for the [`LeEncrypt`] command.
#[derive(Debug, Clone, Copy, PartialEq, Eq, PartialOrd, Ord, Hash)]
#[allow(missing_docs)]
pub struct LeEncryptParams {
    pub key: [u8; 16],
    pub plaintext: [u8; 16],
}

/// The value of a [`LeEncryptParams`], with byte slices taken as sequences.
#[allow(missing_docs)]
pub struct LeEncryptParamsView {
    pub key: Seq<u8>,
    pub plaintext: Seq<u8>,
}

impl View for LeEncryptParams {
    type V = LeEncryptParamsView;

    open spec fn view(&self) -> LeEncryptParamsView {
        LeEncryptParamsView { key: self.key@, plaintext: self.plaintext@ }
    }
}

impl WriteHci for LeEncryptParams {
    open spec fn spec_hci_bytes(&self) -> Seq<u8> {
        self.key.spec_hci_bytes() + self.plaintext.spec_hci_bytes()
    }

    fn size(&self) -> (r: usize) {
        let mut n = self.key.size();
        proof {
            assert(self.key.spec_hci_bytes() + self.plaintext.spec_hci_bytes() =~= (self.key.spec_hci_bytes() + self.plaintext.spec_hci_bytes()));
        }
        n = n + self.plaintext.size();
        n
    }

    fn write_hci(&self, out: &mut Vec<u8>) {
        self.key.write_hci(out);
        self.plaintext.write_hci(out);
        proof {
            assert(out@ =~= old(out)@ + self.spec_hci_bytes());
        }
    }
}

impl LeEncryptParams {
    /// The bytes of a `LeEncryptParams` are the bytes of its fields, one after the
    /// other, in the order in which the fields are declared.
    pub proof fn lemma_fields_in_order(&self)
        ensures
            self.spec_hci_bytes() == self.key.spec_hci_bytes() + self.plaintext.spec_hci_bytes(),
    {
    }
}


/// The LeEncrypt command (group LE, command 0x0017).
#[derive(Debug, Clone, Copy, PartialEq, Eq, PartialOrd, Ord, Hash)]
pub struct LeEncrypt(LeEncryptParams);

impl LeEncrypt {
    /// Create a new instance of the command.
    pub fn new(key: [u8; 16], plaintext: [u8; 16]) -> (result: Self)
        ensures
            result.spec_params() == (LeEncryptParams { key: key, plaintext: plaintext }),
    {
        LeEncrypt(LeEncryptParams { key: key, plaintext: plaintext })
    }

    /// This command's opcode is group LE, command 0x0017: 0x2017.
    pub proof fn lemma_opcode()
        ensures
            Self::spec_opcode() == 0x2017,
    {
        lemma_opcode_value(LE, 0x0017);
    }
}

impl Cmd for LeEncrypt {
    type Params = LeEncryptParams;

    open spec fn spec_opcode() -> u16 {
        spec_opcode_raw(LE, 0x0017)
    }

    closed spec fn spec_params(&self) -> LeEncryptParams {
        self.0
    }

    fn opcode() -> (r: Opcode) {
        Opcode::new(OpcodeGroup::new(LE), 0x0017)
    }

    fn params(&self) -> (r: &LeEncryptParams) {
        &self.0
    }

    proof fn lemma_packet(&self) {
    }
}

impl WriteHci for LeEncrypt {
    closed spec fn spec_hci_bytes(&self) -> Seq<u8> {
        spec_cmd_packet(spec_opcode_raw(LE, 0x0017), self.0.spec_hci_bytes())
    }

    fn size(&self) -> (r: usize) {
        self.0.size() + 3
    }

    fn write_hci(&self, out: &mut Vec<u8>) {
        write_cmd_packet(Opcode::new(OpcodeGroup::new(LE), 0x0017), &self.0, out);
    }
}

impl SyncCmd for LeEncrypt {
    type Return = [u8; 16];
    type Handle = ();

    open spec fn spec_handle_ok(data: Seq<u8>, h: ()) -> bool {
        true
    }

    open spec fn spec_handle_err(data: Seq<u8>, e: FromHciBytesError) -> bool {
        false
    }

    open spec fn spec_return_ok(data: Seq<u8>, v: [u8; 16]) -> bool {
        spec_decodes_complete::<[u8; 16]>(data, v)
    }

    open spec fn spec_return_err(data: Seq<u8>, e: FromHciBytesError) -> bool {
        spec_decode_complete_err::<[u8; 16]>(data, e)
    }

    fn param_handle(&self) -> (r: ())
        ensures
            r == (),
    {
    }

    fn return_handle(data: &[u8]) -> (r: Result<(), FromHciBytesError>) {
        Ok(())
    }

    fn return_from_hci_bytes(data: &[u8]) -> (r: Result<[u8; 16], FromHciBytesError>) {
        <[u8; 16] as FromHciBytes>::from_hci_bytes_complete(data)
    }
}

/// The LeRand command (group LE, command 0x0018).
#[derive(Debug, Clone, Copy, PartialEq, Eq, PartialOrd, Ord, Hash, Default)]
pub struct LeRand(());

impl LeRand {
    /// Create a new instance of the command.
    pub fn new() -> (r: Self)
        ensures
            r.spec_params() == (),
    {
        LeRand(())
    }

    /// This command's opcode is group LE, command 0x0018: 0x2018.
    pub proof fn lemma_opcode()
        ensures
            Self::spec_opcode() == 0x2018,
    {
        lemma_opcode_value(LE, 0x0018);
    }
}

impl Cmd for LeRand {
    type Params = ();

    open spec fn spec_opcode() -> u16 {
        spec_opcode_raw(LE, 0x0018)
    }

    closed spec fn spec_params(&self) -> () {
        self.0
    }

    fn opcode() -> (r: Opcode) {
        Opcode::new(OpcodeGroup::new(LE), 0x0018)
    }

    fn params(&self) -> (r: &()) {
        &self.0
    }

    proof fn lemma_packet(&self) {
    }
}

impl WriteHci for LeRand {
    closed spec fn spec_hci_bytes(&self) -> Seq<u8> {
        spec_cmd_packet(spec_opcode_raw(LE, 0x0018), self.0.spec_hci_bytes())
    }

    fn size(&self) -> (r: usize) {
        self.0.size() + 3
    }

    fn write_hci(&self, out: &mut Vec<u8>) {
        write_cmd_packet(Opcode::new(OpcodeGroup::new(LE), 0x0018), &self.0, out);
    }
}

impl SyncCmd for LeRand {
    type Return = [u8; 8];
    type Handle = ();

    open spec fn spec_handle_ok(data: Seq<u8>, h: ()) -> bool {
        true
    }

    open spec fn spec_handle_err(data: Seq<u8>, e: FromHciBytesError) -> bool {
        false
    }

    open spec fn spec_return_ok(data: Seq<u8>, v: [u8; 8]) -> bool {
        spec_decodes_complete::<[u8; 8]>(data, v)
    }

    open spec fn spec_return_err(data: Seq<u8>, e: FromHciBytesError) -> bool {
        spec_decode_complete_err::<[u8; 8]>(data, e)
    }

    fn param_handle(&self) -> (r: ())
        ensures
            r == (),
    {
    }

    fn return_handle(data: &[u8]) -> (r: Result<(), FromHciBytesError>) {
        Ok(())
    }

    fn return_from_hci_bytes(data: &[u8]) -> (r: Result<[u8; 8], FromHciBytesError>) {
        <[u8; 8] as FromHciBytes>::from_hci_bytes_complete(data)
    }
}

/// Parameters for the [`LeEnableEncryption`] command.
#[derive(Debug, Clone, Copy, PartialEq, Eq, PartialOrd, Ord, Hash)]
#[allow(missing_docs)]
pub struct LeEnableEncryptionParams {
    pub handle: ConnHandle,
    pub random: [u8; 8],
    pub encrypted_diversifier: u16,
    pub long_term_key: [u8; 16],
}

/// The value of a [`LeEnableEncryptionParams`], with byte slices taken as sequences.
#[allow(missing_docs)]
pub struct LeEnableEncryptionParamsView {
    pub handle: u16,
    pub random: Seq<u8>,
    pub encrypted_diversifier: u16,
    pub long_term_key: Seq<u8>,
}

impl View for LeEnableEncryptionParams {
    type V = LeEnableEncryptionParamsView;

    open spec fn view(&self) -> LeEnableEncryptionParamsView {
        LeEnableEncryptionParamsView { handle: self.handle@, random: self.random@, encrypted_diversifier: self.encrypted_diversifier@, long_term_key: self.long_term_key@ }
    }
}

impl WriteHci for LeEnableEncryptionParams {
    open spec fn spec_hci_bytes(&self) -> Seq<u8> {
        self.handle.spec_hci_bytes() + self.random.spec_hci_bytes() + self.encrypted_diversifier.spec_hci_bytes() + self.long_term_key.spec_hci_bytes()
    }

    fn size(&self) -> (r: usize) {
        let mut n = self.handle.size();
        proof {
            assert(self.handle.spec_hci_bytes() + self.random.spec_hci_bytes() =~= (self.handle.spec_hci_bytes() + self.random.spec_hci_bytes()));
        }
        n = n + self.random.size();
        proof {
            assert(self.handle.spec_hci_bytes() + self.random.spec_hci_bytes() + self.encrypted_diversifier.spec_hci_bytes() =~= (self.handle.spec_hci_bytes() + self.random.spec_hci_bytes() + self.encrypted_diversifier.spec_hci_bytes()));
        }
        n = n + self.encrypted_diversifier.size();
        proof {
            assert(self.handle.spec_hci_bytes() + self.random.spec_hci_bytes() + self.encrypted_diversifier.spec_hci_bytes() + self.long_term_key.spec_hci_bytes() =~= (self.handle.spec_hci_bytes() + self.random.spec_hci_bytes() + self.encrypted_diversifier.spec_hci_bytes() + self.long_term_key.spec_hci_bytes()));
        }
        n = n + self.long_term_key.size();
        n
    }

    fn write_hci(&self, out: &mut Vec<u8>) {
        self.handle.write_hci(out);
        self.random.write_hci(out);
        self.encrypted_diversifier.write_hci(out);
        self.long_term_key.write_hci(out);
        proof {
            assert(out@ =~= old(out)@ + self.spec_hci_bytes());
        }
    }
}

impl LeEnableEncryptionParams {
    /// The bytes of a `LeEnableEncryptionParams` are the bytes of its fields, one after the
    /// other, in the order in which the fields are declared.
    pub proof fn lemma_fields_in_order(&self)
        ensures
            self.spec_hci_bytes() == self.handle.spec_hci_bytes() + self.random.spec_hci_bytes() + self.encrypted_diversifier.spec_hci_bytes() + self.long_term_key.spec_hci_bytes(),
    {
    }
}


/// The LeEnableEncryption command (group LE, command 0x0019).
#[derive(Debug, Clone, Copy, PartialEq, Eq, PartialOrd, Ord, Hash)]
pub struct LeEnableEncryption(LeEnableEncryptionParams);

impl LeEnableEncryption {
    /// Create a new instance of the command.
    pub fn new(handle: ConnHandle, random: [u8; 8], encrypted_diversifier: u16, long_term_key: [u8; 16]) -> (result: Self)
        ensures
            result.spec_params() == (LeEnableEncryptionParams { handle: handle, random: random, encrypted_diversifier: encrypted_diversifier, long_term_key: long_term_key }),
    {
        LeEnableEncryption(LeEnableEncryptionParams { handle: handle, random: random, encrypted_diversifier: encrypted_diversifier, long_term_key: long_term_key })
    }

    /// This command's opcode is group LE, command 0x0019: 0x2019.
    pub proof fn lemma_opcode()
        ensures
            Self::spec_opcode() == 0x2019,
    {
        lemma_opcode_value(LE, 0x0019);
    }
}

impl Cmd for LeEnableEncryption {
    type Params = LeEnableEncryptionParams;

    open spec fn spec_opcode() -> u16 {
        spec_opcode_raw(LE, 0x0019)
    }

    closed spec fn spec_params(&self) -> LeEnableEncryptionParams {
        self.0
    }

    fn opcode() -> (r: Opcode) {
        Opcode::new(OpcodeGroup::new(LE), 0x0019)
    }

    fn params(&self) -> (r: &LeEnableEncryptionParams) {
        &self.0
    }

    proof fn lemma_packet(&self) {
    }
}

impl WriteHci for LeEnableEncryption {
    closed spec fn spec_hci_bytes(&self) -> Seq<u8> {
        spec_cmd_packet(spec_opcode_raw(LE, 0x0019), self.0.spec_hci_bytes())
    }

    fn size(&self) -> (r: usize) {
        self.0.size() + 3
    }

    fn write_hci(&self, out: &mut Vec<u8>) {
        write_cmd_packet(Opcode::new(OpcodeGroup::new(LE), 0x0019), &self.0, out);
    }
}

impl AsyncCmd for LeEnableEncryption {
}

/// Parameters for the [`LeLongTermKeyRequestReply`] command.
#[derive(Debug, Clone, Copy, PartialEq, Eq, PartialOrd, Ord, Hash)]
#[allow(missing_docs)]
pub struct LeLongTermKeyRequestReplyParams {
    pub handle: ConnHandle,
    pub long_term_key: [u8; 16],
}

/// The value of a [`LeLongTermKeyRequestReplyParams`], with byte slices taken as sequences.
#[allow(missing_docs)]
pub struct LeLongTermKeyRequestReplyParamsView {
    pub handle: u16,
    pub long_term_key: Seq<u8>,
}

impl View for LeLongTermKeyRequestReplyParams {
    type V = LeLongTermKeyRequestReplyParamsView;

    open spec fn view(&self) -> LeLongTermKeyRequestReplyParamsView {
        LeLongTermKeyRequestReplyParamsView { handle: self.handle@, long_term_key: self.long_term_key@ }
    }
}

impl WriteHci for LeLongTermKeyRequestReplyParams {
    open spec fn spec_hci_bytes(&self) -> Seq<u8> {
        self.handle.spec_hci_bytes() + self.long_term_key.spec_hci_bytes()
    }

    fn size(&self) -> (r: usize) {
        let mut n = self.handle.size();
        proof {
            assert(self.handle.spec_hci_bytes() + self.long_term_key.spec_hci_bytes() =~= (self.handle.spec_hci_bytes() + self.long_term_key.spec_hci_bytes()));
        }
        n = n + self.long_term_key.size();
        n
    }

    fn write_hci(&self, out: &mut Vec<u8>) {
        self.handle.write_hci(out);
        self.long_term_key.write_hci(out);
        proof {
            assert(out@ =~= old(out)@ + self.spec_hci_bytes());
        }
    }
}

impl LeLongTermKeyRequestReplyParams {
    /// The bytes of a `LeLongTermKeyRequestReplyParams` are the bytes of its fields, one after the
    /// other, in the order in which the fields are declared.
    pub proof fn lemma_fields_in_order(&self)
        ensures
            self.spec_hci_bytes() == self.handle.spec_hci_bytes() + self.long_term_key.spec_hci_bytes(),
    {
    }
}


/// The LeLongTermKeyRequestReply command (group LE, command 0x001a).
#[derive(Debug, Clone, Copy, PartialEq, Eq, PartialOrd, Ord, Hash)]
pub struct LeLongTermKeyRequestReply(LeLongTermKeyRequestReplyParams);

impl LeLongTermKeyRequestReply {
    /// Create a new instance of the command.
    pub fn new(handle: ConnHandle, long_term_key: [u8; 16]) -> (result: Self)
        ensures
            result.spec_params() == (LeLongTermKeyRequestReplyParams { handle: handle, long_term_key: long_term_key }),
    {
        LeLongTermKeyRequestReply(LeLongTermKeyRequestReplyParams { handle: handle, long_term_key: long_term_key })
    }

    /// This command's opcode is group LE, command 0x001a: 0x201a.
    pub proof fn lemma_opcode()
        ensures
            Self::spec_opcode() == 0x201a,
    {
        lemma_opcode_value(LE, 0x001a);
    }
}

impl Cmd for LeLongTermKeyRequestReply {
    type Params = LeLongTermKeyRequestReplyParams;

    open spec fn spec_opcode() -> u16 {
        spec_opcode_raw(LE, 0x001a)
    }

    closed spec fn spec_params(&self) -> LeLongTermKeyRequestReplyParams {
        self.0
    }

    fn opcode() -> (r: Opcode) {
        Opcode::new(OpcodeGroup::new(LE), 0x001a)
    }

    fn params(&self) -> (r: &LeLongTermKeyRequestReplyParams) {
        &self.0
    }

    proof fn lemma_packet(&self) {
    }
}

impl WriteHci for LeLongTermKeyRequestReply {
    closed spec fn spec_hci_bytes(&self) -> Seq<u8> {
        spec_cmd_packet(spec_opcode_raw(LE, 0x001a), self.0.spec_hci_bytes())
    }

    fn size(&self) -> (r: usize) {
        self.0.size() + 3
    }

    fn write_hci(&self, out: &mut Vec<u8>) {
        write_cmd_packet(Opcode::new(OpcodeGroup::new(LE), 0x001a), &self.0, out);
    }
}

impl SyncCmd for LeLongTermKeyRequestReply {
    type Return = ConnHandle;
    type Handle = ConnHandle;

    open spec fn spec_handle_ok(data: Seq<u8>, h: ConnHandle) -> bool {
        spec_decodes_prefix::<ConnHandle>(data, h)
    }

    open spec fn spec_handle_err(data: Seq<u8>, e: FromHciBytesError) -> bool {
        spec_decode_prefix_err::<ConnHandle>(data, e)
    }

    open spec fn spec_return_ok(data: Seq<u8>, v: ConnHandle) -> bool {
        spec_decodes_complete::<ConnHandle>(data, v)
    }

    open spec fn spec_return_err(data: Seq<u8>, e: FromHciBytesError) -> bool {
        spec_decode_complete_err::<ConnHandle>(data, e)
    }

    fn param_handle(&self) -> (r: ConnHandle)
        ensures
            r == self.spec_params().handle,
    {
        self.0.handle
    }

    fn return_handle(data: &[u8]) -> (r: Result<ConnHandle, FromHciBytesError>) {
        match <ConnHandle as FromHciBytes>::from_hci_bytes(data) {
            Ok((x, _)) => Ok(x),
            Err(e) => Err(e),
        }
    }

    fn return_from_hci_bytes(data: &[u8]) -> (r: Result<ConnHandle, FromHciBytesError>) {
        <ConnHandle as FromHciBytes>::from_hci_bytes_complete(data)
    }
}

/// The LeLongTermKeyRequestNegativeReply command (group LE, command 0x001b).
#[derive(Debug, Clone, Copy, PartialEq, Eq, PartialOrd, Ord, Hash)]
pub struct LeLongTermKeyRequestNegativeReply(ConnHandle);

impl LeLongTermKeyRequestNegativeReply {
    /// Create a new instance of the command with the provided parameters.
    pub fn new(param: ConnHandle) -> (r: Self)
        ensures
            r.spec_params() == param,
    {
        LeLongTermKeyRequestNegativeReply(param)
    }

    /// This command's opcode is group LE, command 0x001b: 0x201b.
    pub proof fn lemma_opcode()
        ensures
            Self::spec_opcode() == 0x201b,
    {
        lemma_opcode_value(LE, 0x001b);
    }
}

impl Cmd for LeLongTermKeyRequestNegativeReply {
    type Params = ConnHandle;

    open spec fn spec_opcode() -> u16 {
        spec_opcode_raw(LE, 0x001b)
    }

    closed spec fn spec_params(&self) -> ConnHandle {
        self.0
    }

    fn opcode() -> (r: Opcode) {
        Opcode::new(OpcodeGroup::new(LE), 0x001b)
    }

    fn params(&self) -> (r: &ConnHandle) {
        &self.0
    }

    proof fn lemma_packet(&self) {
    }
}

impl WriteHci for LeLongTermKeyRequestNegativeReply {
    closed spec fn spec_hci_bytes(&self) -> Seq<u8> {
        spec_cmd_packet(spec_opcode_raw(LE, 0x001b), self.0.spec_hci_bytes())
    }

    fn size(&self) -> (r: usize) {
        self.0.size() + 3
    }

    fn write_hci(&self, out: &mut Vec<u8>) {
        write_cmd_packet(Opcode::new(OpcodeGroup::new(LE), 0x001b), &self.0, out);
    }
}

impl SyncCmd for LeLongTermKeyRequestNegativeReply {
    type Return = ConnHandle;
    type Handle = ConnHandle;

    open spec fn spec_handle_ok(data: Seq<u8>, h: ConnHandle) -> bool {
        spec_decodes_prefix::<ConnHandle>(data, h)
    }

    open spec fn spec_handle_err(data: Seq<u8>, e: FromHciBytesError) -> bool {
        spec_decode_prefix_err::<ConnHandle>(data, e)
    }

    open spec fn spec_return_ok(data: Seq<u8>, v: ConnHandle) -> bool {
        spec_decodes_complete::<ConnHandle>(data, v)
    }

    open spec fn spec_return_err(data: Seq<u8>, e: FromHciBytesError) -> bool {
        spec_decode_complete_err::<ConnHandle>(data, e)
    }

    fn param_handle(&self) -> (r: ConnHandle)
        ensures
            r == self.spec_params(),
    {
        self.0
    }

    fn return_handle(data: &[u8]) -> (r: Result<ConnHandle, FromHciBytesError>) {
        match <ConnHandle as FromHciBytes>::from_hci_bytes(data) {
            Ok((x, _)) => Ok(x),
            Err(e) => Err(e),
        }
    }

    fn return_from_hci_bytes(data: &[u8]) -> (r: Result<ConnHandle, FromHciBytesError>) {
        <ConnHandle as FromHciBytes>::from_hci_bytes_complete(data)
    }
}

/// The LeReadSupportedStates command (group LE, command 0x001c).
#[derive(Debug, Clone, Copy, PartialEq, Eq, PartialOrd, Ord, Hash, Default)]
pub struct LeReadSupportedStates(());

impl LeReadSupportedStates {
    /// Create a new instance of the command.
    pub fn new() -> (r: Self)
        ensures
            r.spec_params() == (),
    {
        LeReadSupportedStates(())
    }

    /// This command's opcode is group LE, command 0x001c: 0x201c.
    pub proof fn lemma_opcode()
        ensures
            Self::spec_opcode() == 0x201c,
    {
        lemma_opcode_value(LE, 0x001c);
    }
}

impl Cmd for LeReadSupportedStates {
    type Params = ();

    open spec fn spec_opcode() -> u16 {
        spec_opcode_raw(LE, 0x001c)
    }

    closed spec fn spec_params(&self) -> () {
        self.0
    }

    fn opcode() -> (r: Opcode) {
        Opcode::new(OpcodeGroup::new(LE), 0x001c)
    }

    fn params(&self) -> (r: &()) {
        &self.0
    }

    proof fn lemma_packet(&self) {
    }
}

impl WriteHci for LeReadSupportedStates {
    closed spec fn spec_hci_bytes(&self) -> Seq<u8> {
        spec_cmd_packet(spec_opcode_raw(LE, 0x001c), self.0.spec_hci_bytes())
    }

    fn size(&self) -> (r: usize) {
        self.0.size() + 3
    }

    fn write_hci(&self, out: &mut Vec<u8>) {
        write_cmd_packet(Opcode::new(OpcodeGroup::new(LE), 0x001c), &self.0, out);
    }
}

impl SyncCmd for LeReadSupportedStates {
    type Return = [u8; 8];
    type Handle = ();

    open spec fn spec_handle_ok(data: Seq<u8>, h: ()) -> bool {
        true
    }

    open spec fn spec_handle_err(data: Seq<u8>, e: FromHciBytesError) -> bool {
        false
    }

    open spec fn spec_return_ok(data: Seq<u8>, v: [u8; 8]) -> bool {
        spec_decodes_complete::<[u8; 8]>(data, v)
    }

    open spec fn spec_return_err(data: Seq<u8>, e: FromHciBytesError) -> bool {
        spec_decode_complete_err::<[u8; 8]>(data, e)
    }

    fn param_handle(&self) -> (r: ())
        ensures
            r == (),
    {
    }

    fn return_handle(data: &[u8]) -> (r: Result<(), FromHciBytesError>) {
        Ok(())
    }

    fn return_from_hci_bytes(data: &[u8]) -> (r: Result<[u8; 8], FromHciBytesError>) {
        <[u8; 8] as FromHciBytes>::from_hci_bytes_complete(data)
    }
}

/// The LeTestEnd command (group LE, command 0x001f).
#[derive(Debug, Clone, Copy, PartialEq, Eq, PartialOrd, Ord, Hash, Default)]
pub struct LeTestEnd(());

impl LeTestEnd {
    /// Create a new instance of the command.
    pub fn new() -> (r: Self)
        ensures
            r.spec_params() == (),
    {
        LeTestEnd(())
    }

    /// This command's opcode is group LE, command 0x001f: 0x201f.
    pub proof fn lemma_opcode()
        ensures
            Self::spec_opcode() == 0x201f,
    {
        lemma_opcode_value(LE, 0x001f);
    }
}

impl Cmd for LeTestEnd {
    type Params = ();

    open spec fn spec_opcode() -> u16 {
        spec_opcode_raw(LE, 0x001f)
    }

    closed spec fn spec_params(&self) -> () {
        self.0
    }

    fn opcode() -> (r: Opcode) {
        Opcode::new(OpcodeGroup::new(LE), 0x001f)
    }

    fn params(&self) -> (r: &()) {
        &self.0
    }

    proof fn lemma_packet(&self) {
    }
}

impl WriteHci for LeTestEnd {
    closed spec fn spec_hci_bytes(&self) -> Seq<u8> {
        spec_cmd_packet(spec_opcode_raw(LE, 0x001f), self.0.spec_hci_bytes())
    }

    fn size(&self) -> (r: usize) {
        self.0.size() + 3
    }

    fn write_hci(&self, out: &mut Vec<u8>) {
        write_cmd_packet(Opcode::new(OpcodeGroup::new(LE), 0x001f), &self.0, out);
    }
}

impl SyncCmd for LeTestEnd {
    type Return = u16;
    type Handle = ();

    open spec fn spec_handle_ok(data: Seq<u8>, h: ()) -> bool {
        true
    }

    open spec fn spec_handle_err(data: Seq<u8>, e: FromHciBytesError) -> bool {
        false
    }

    open spec fn spec_return_ok(data: Seq<u8>, v: u16) -> bool {
        spec_decodes_complete::<u16>(data, v)
    }

    open spec fn spec_return_err(data: Seq<u8>, e: FromHciBytesError) -> bool {
        spec_decode_complete_err::<u16>(data, e)
    }

    fn param_handle(&self) -> (r: ())
        ensures
            r == (),
    {
    }

    fn return_handle(data: &[u8]) -> (r: Result<(), FromHciBytesError>) {
        Ok(())
    }

    fn return_from_hci_bytes(data: &[u8]) -> (r: Result<u16, FromHciBytesError>) {
        <u16 as FromHciBytes>::from_hci_bytes_complete(data)
    }
}

/// Parameters for the [`LeSetDataLength`] command.
#[derive(Debug, Clone, Copy, PartialEq, Eq, PartialOrd, Ord, Hash)]
#[allow(missing_docs)]
pub struct LeSetDataLengthParams {
    pub handle: ConnHandle,
    pub tx_octets: u16,
    pub tx_time: u16,
}

/// The value of a [`LeSetDataLengthParams`], with byte slices taken as sequences.
#[allow(missing_docs)]
pub struct LeSetDataLengthParamsView {
    pub handle: u16,
    pub tx_octets: u16,
    pub tx_time: u16,
}

impl View for LeSetDataLengthParams {
    type V = LeSetDataLengthParamsView;

    open spec fn view(&self) -> LeSetDataLengthParamsView {
        LeSetDataLengthParamsView { handle: self.handle@, tx_octets: self.tx_octets@, tx_time: self.tx_time@ }
    }
}

impl WriteHci for LeSetDataLengthParams {
    open spec fn spec_hci_bytes(&self) -> Seq<u8> {
        self.handle.spec_hci_bytes() + self.tx_octets.spec_hci_bytes() + self.tx_time.spec_hci_bytes()
    }

    fn size(&self) -> (r: usize) {
        let mut n = self.handle.size();
        proof {
            assert(self.handle.spec_hci_bytes() + self.tx_octets.spec_hci_bytes() =~= (self.handle.spec_hci_bytes() + self.tx_octets.spec_hci_bytes()));
        }
        n = n + self.tx_octets.size();
        proof {
            assert(self.handle.spec_hci_bytes() + self.tx_octets.spec_hci_bytes() + self.tx_time.spec_hci_bytes() =~= (self.handle.spec_hci_bytes() + self.tx_octets.spec_hci_bytes() + self.tx_time.spec_hci_bytes()));
        }
        n = n + self.tx_time.size();
        n
    }

    fn write_hci(&self, out: &mut Vec<u8>) {
        self.handle.write_hci(out);
        self.tx_octets.write_hci(out);
        self.tx_time.write_hci(out);
        proof {
            assert(out@ =~= old(out)@ + self.spec_hci_bytes());
        }
    }
}

impl LeSetDataLengthParams {
    /// The bytes of a `LeSetDataLengthParams` are the bytes of its fields, one after the
    /// other, in the order in which the fields are declared.
    pub proof fn lemma_fields_in_order(&self)
        ensures
            self.spec_hci_bytes() == self.handle.spec_hci_bytes() + self.tx_octets.spec_hci_bytes() + self.tx_time.spec_hci_bytes(),
    {
    }
}


/// The LeSetDataLength command (group LE, command 0x0022).
#[derive(Debug, Clone, Copy, PartialEq, Eq, PartialOrd, Ord, Hash)]
pub struct LeSetDataLength(LeSetDataLengthParams);

impl LeSetDataLength {
    /// Create a new instance of the command.
    pub fn new(handle: ConnHandle, tx_octets: u16, tx_time: u16) -> (result: Self)
        ensures
            result.spec_params() == (LeSetDataLengthParams { handle: handle, tx_octets: tx_octets, tx_time: tx_time }),
    {
        LeSetDataLength(LeSetDataLengthParams { handle: handle, tx_octets: tx_octets, tx_time: tx_time })
    }

    /// This command's opcode is group LE, command 0x0022: 0x2022.
    pub proof fn lemma_opcode()
        ensures
            Self::spec_opcode() == 0x2022,
    {
        lemma_opcode_value(LE, 0x0022);
    }
}

impl Cmd for LeSetDataLength {
    type Params = LeSetDataLengthParams;

    open spec fn spec_opcode() -> u16 {
        spec_opcode_raw(LE, 0x0022)
    }

    closed spec fn spec_params(&self) -> LeSetDataLengthParams {
        self.0
    }

    fn opcode() -> (r: Opcode) {
        Opcode::new(OpcodeGroup::new(LE), 0x0022)
    }

    fn params(&self) -> (r: &LeSetDataLengthParams) {
        &self.0
    }

    proof fn lemma_packet(&self) {
    }
}

impl WriteHci for LeSetDataLength {
    closed spec fn spec_hci_bytes(&self) -> Seq<u8> {
        spec_cmd_packet(spec_opcode_raw(LE, 0x0022), self.0.spec_hci_bytes())
    }

    fn size(&self) -> (r: usize) {
        self.0.size() + 3
    }

    fn write_hci(&self, out: &mut Vec<u8>) {
        write_cmd_packet(Opcode::new(OpcodeGroup::new(LE), 0x0022), &self.0, out);
    }
}

impl SyncCmd for LeSetDataLength {
    type Return = ConnHandle;
    type Handle = ConnHandle;

    open spec fn spec_handle_ok(data: Seq<u8>, h: ConnHandle) -> bool {
        spec_decodes_prefix::<ConnHandle>(data, h)
    }

    open spec fn spec_handle_err(data: Seq<u8>, e: FromHciBytesError) -> bool {
        spec_decode_prefix_err::<ConnHandle>(data, e)
    }

    open spec fn spec_return_ok(data: Seq<u8>, v: ConnHandle) -> bool {
        spec_decodes_complete::<ConnHandle>(data, v)
    }

    open spec fn spec_return_err(data: Seq<u8>, e: FromHciBytesError) -> bool {
        spec_decode_complete_err::<ConnHandle>(data, e)
    }

    fn param_handle(&self) -> (r: ConnHandle)
        ensures
            r == self.spec_params().handle,
    {
        self.0.handle
    }

    fn return_handle(data: &[u8]) -> (r: Result<ConnHandle, FromHciBytesError>) {
        match <ConnHandle as FromHciBytes>::from_hci_bytes(data) {
            Ok((x, _)) => Ok(x),
            Err(e) => Err(e),
        }
    }

    fn return_from_hci_bytes(data: &[u8]) -> (r: Result<ConnHandle, FromHciBytesError>) {
        <ConnHandle as FromHciBytes>::from_hci_bytes_complete(data)
    }
}

/// Return parameters for the [`LeReadSuggestedDefaultDataLength`] command.
#[derive(Debug, Clone, Copy, PartialEq, Eq, PartialOrd, Ord, Hash)]
#[allow(missing_docs)]
pub struct LeReadSuggestedDefaultDataLengthReturn {
    pub suggested_max_tx_octets: u16,
    pub suggested_max_tx_time: u16,
}

/// The value of a [`LeReadSuggestedDefaultDataLengthReturn`], with byte slices taken as sequences.
#[allow(missing_docs)]
pub struct LeReadSuggestedDefaultDataLengthReturnView {
    pub suggested_max_tx_octets: u16,
    pub suggested_max_tx_time: u16,
}

impl View for LeReadSuggestedDefaultDataLengthReturn {
    type V = LeReadSuggestedDefaultDataLengthReturnView;

    open spec fn view(&self) -> LeReadSuggestedDefaultDataLengthReturnView {
        LeReadSuggestedDefaultDataLengthReturnView { suggested_max_tx_octets: self.suggested_max_tx_octets@, suggested_max_tx_time: self.suggested_max_tx_time@ }
    }
}

impl<'de> FromHciBytes<'de> for LeReadSuggestedDefaultDataLengthReturn {
    open spec fn spec_from_hci_bytes(data: Seq<u8>) -> Result<(LeReadSuggestedDefaultDataLengthReturnView, nat), FromHciBytesError> {
        if data.len() < 4 {
            Err(FromHciBytesError::InvalidSize)
        } else {
            match <u16 as FromHciBytes<'de>>::spec_from_hci_bytes(data) {
                Err(e) => Err(e),
                Ok((v_suggested_max_tx_octets, n_suggested_max_tx_octets)) => {
                    match <u16 as FromHciBytes<'de>>::spec_from_hci_bytes(data.skip(n_suggested_max_tx_octets as int)) {
                        Err(e) => Err(e),
                        Ok((v_suggested_max_tx_time, n_suggested_max_tx_time)) => {
                            Ok((LeReadSuggestedDefaultDataLengthReturnView { suggested_max_tx_octets: v_suggested_max_tx_octets, suggested_max_tx_time: v_suggested_max_tx_time }, (n_suggested_max_tx_octets + n_suggested_max_tx_time) as nat))
                        },
                    }
                },
            }
        }
    }

    fn from_hci_bytes(data: &'de [u8]) -> (r: Result<(LeReadSuggestedDefaultDataLengthReturn, &'de [u8]), FromHciBytesError>) {
        if data.len() < 4 {
            return Err(FromHciBytesError::InvalidSize);
        }
        let (v_suggested_max_tx_octets, rest_suggested_max_tx_octets) = match <u16 as FromHciBytes<'de>>::from_hci_bytes(data) {
            Ok(x) => x,
            Err(e) => return Err(e),
        };
        let (v_suggested_max_tx_time, rest_suggested_max_tx_time) = match <u16 as FromHciBytes<'de>>::from_hci_bytes(rest_suggested_max_tx_octets) {
            Ok(x) => x,
            Err(e) => return Err(e),
        };
        proof {
            lemma_skip_skip(data@, (data@.len() - rest_suggested_max_tx_octets@.len()) as int, (rest_suggested_max_tx_octets@.len() - rest_suggested_max_tx_time@.len()) as int);
        }
        Ok((LeReadSuggestedDefaultDataLengthReturn { suggested_max_tx_octets: v_suggested_max_tx_octets, suggested_max_tx_time: v_suggested_max_tx_time }, rest_suggested_max_tx_time))
    }
}

impl WriteHci for LeReadSuggestedDefaultDataLengthReturn {
    open spec fn spec_hci_bytes(&self) -> Seq<u8> {
        self.suggested_max_tx_octets.spec_hci_bytes() + self.suggested_max_tx_time.spec_hci_bytes()
    }

    fn size(&self) -> (r: usize) {
        let mut n = self.suggested_max_tx_octets.size();
        proof {
            assert(self.suggested_max_tx_octets.spec_hci_bytes() + self.suggested_max_tx_time.spec_hci_bytes() =~= (self.suggested_max_tx_octets.spec_hci_bytes() + self.suggested_max_tx_time.spec_hci_bytes()));
        }
        n = n + self.suggested_max_tx_time.size();
        n
    }

    fn write_hci(&self, out: &mut Vec<u8>) {
        self.suggested_max_tx_octets.write_hci(out);
        self.suggested_max_tx_time.write_hci(out);
        proof {
            assert(out@ =~= old(out)@ + self.spec_hci_bytes());
        }
    }
}

impl LeReadSuggestedDefaultDataLengthReturn {
    /// The bytes of a `LeReadSuggestedDefaultDataLengthReturn` are the bytes of its fields, one after the
    /// other, in the order in which the fields are declared.
    pub proof fn lemma_fields_in_order(&self)
        ensures
            self.spec_hci_bytes() == self.suggested_max_tx_octets.spec_hci_bytes() + self.suggested_max_tx_time.spec_hci_bytes(),
    {
    }
}

impl FixedSizeValue for LeReadSuggestedDefaultDataLengthReturn {
    open spec fn spec_size() -> nat {
        4
    }

    proof fn lemma_fixed_size(&self) {
        self.suggested_max_tx_octets.lemma_fixed_size();
        self.suggested_max_tx_time.lemma_fixed_size();
    }
}

impl<'de> HciCodec<'de> for LeReadSuggestedDefaultDataLengthReturn {
    open spec fn spec_encodable(&self) -> bool {
        self.suggested_max_tx_octets.spec_encodable() && self.suggested_max_tx_time.spec_encodable()
    }

    proof fn lemma_write_then_read(&self, rest: Seq<u8>) {
        self.suggested_max_tx_octets.lemma_fixed_size();
        self.suggested_max_tx_time.lemma_fixed_size();
        let t_suggested_max_tx_time = self.suggested_max_tx_time.spec_hci_bytes() + rest;
        let t_suggested_max_tx_octets = self.suggested_max_tx_octets.spec_hci_bytes() + t_suggested_max_tx_time;
        assert(self.spec_hci_bytes() + rest =~= t_suggested_max_tx_octets);
        self.suggested_max_tx_octets.lemma_write_then_read(t_suggested_max_tx_time);
        self.suggested_max_tx_time.lemma_write_then_read(rest);
        assert(t_suggested_max_tx_octets.skip(self.suggested_max_tx_octets.spec_hci_bytes().len() as int) =~= t_suggested_max_tx_time);
    }
}

/// The LeReadSuggestedDefaultDataLength command (group LE, command 0x0023).
#[derive(Debug, Clone, Copy, PartialEq, Eq, PartialOrd, Ord, Hash, Default)]
pub struct LeReadSuggestedDefaultDataLength(());

impl LeReadSuggestedDefaultDataLength {
    /// Create a new instance of the command.
    pub fn new() -> (r: Self)
        ensures
            r.spec_params() == (),
    {
        LeReadSuggestedDefaultDataLength(())
    }

    /// This command's opcode is group LE, command 0x0023: 0x2023.
    pub proof fn lemma_opcode()
        ensures
            Self::spec_opcode() == 0x2023,
    {
        lemma_opcode_value(LE, 0x0023);
    }
}

impl Cmd for LeReadSuggestedDefaultDataLength {
    type Params = ();

    open spec fn spec_opcode() -> u16 {
        spec_opcode_raw(LE, 0x0023)
    }

    closed spec fn spec_params(&self) -> () {
        self.0
    }

    fn opcode() -> (r: Opcode) {
        Opcode::new(OpcodeGroup::new(LE), 0x0023)
    }

    fn params(&self) -> (r: &()) {
        &self.0
    }

    proof fn lemma_packet(&self) {
    }
}

impl WriteHci for LeReadSuggestedDefaultDataLength {
    closed spec fn spec_hci_bytes(&self) -> Seq<u8> {
        spec_cmd_packet(spec_opcode_raw(LE, 0x0023), self.0.spec_hci_bytes())
    }

    fn size(&self) -> (r: usize) {
        self.0.size() + 3
    }

    fn write_hci(&self, out: &mut Vec<u8>) {
        write_cmd_packet(Opcode::new(OpcodeGroup::new(LE), 0x0023), &self.0, out);
    }
}

impl SyncCmd for LeReadSuggestedDefaultDataLength {
    type Return = LeReadSuggestedDefaultDataLengthReturn;
    type Handle = ();

    open spec fn spec_handle_ok(data: Seq<u8>, h: ()) -> bool {
        true
    }

    open spec fn spec_handle_err(data: Seq<u8>, e: FromHciBytesError) -> bool {
        false
    }

    open spec fn spec_return_ok(data: Seq<u8>, v: LeReadSuggestedDefaultDataLengthReturn) -> bool {
        spec_decodes_complete::<LeReadSuggestedDefaultDataLengthReturn>(data, v)
    }

    open spec fn spec_return_err(data: Seq<u8>, e: FromHciBytesError) -> bool {
        spec_decode_complete_err::<LeReadSuggestedDefaultDataLengthReturn>(data, e)
    }

    fn param_handle(&self) -> (r: ())
        ensures
            r == (),
    {
    }

    fn return_handle(data: &[u8]) -> (r: Result<(), FromHciBytesError>) {
        Ok(())
    }

    fn return_from_hci_bytes(data: &[u8]) -> (r: Result<LeReadSuggestedDefaultDataLengthReturn, FromHciBytesError>) {
        <LeReadSuggestedDefaultDataLengthReturn as FromHciBytes>::from_hci_bytes_complete(data)
    }
}

/// Parameters for the [`LeWriteSuggestedDefaultDataLength`] command.
#[derive(Debug, Clone, Copy, PartialEq, Eq, PartialOrd, Ord, Hash)]
#[allow(missing_docs)]
pub struct LeWriteSuggestedDefaultDataLengthParams {
    pub suggested_max_tx_octets: u16,
    pub suggested_max_tx_time: u16,
}

/// The value of a [`LeWriteSuggestedDefaultDataLengthParams`], with byte slices taken as sequences.
#[allow(missing_docs)]
pub struct LeWriteSuggestedDefaultDataLengthParamsView {
    pub suggested_max_tx_octets: u16,
    pub suggested_max_tx_time: u16,
}

impl View for LeWriteSuggestedDefaultDataLengthParams {
    type V = LeWriteSuggestedDefaultDataLengthParamsView;

    open spec fn view(&self) -> LeWriteSuggestedDefaultDataLengthParamsView {
        LeWriteSuggestedDefaultDataLengthParamsView { suggested_max_tx_octets: self.suggested_max_tx_octets@, suggested_max_tx_time: self.suggested_max_tx_time@ }
    }
}

impl WriteHci for LeWriteSuggestedDefaultDataLengthParams {
    open spec fn spec_hci_bytes(&self) -> Seq<u8> {
        self.suggested_max_tx_octets.spec_hci_bytes() + self.suggested_max_tx_time.spec_hci_bytes()
    }

    fn size(&self) -> (r: usize) {
        let mut n = self.suggested_max_tx_octets.size();
        proof {
            assert(self.suggested_max_tx_octets.spec_hci_bytes() + self.suggested_max_tx_time.spec_hci_bytes() =~= (self.suggested_max_tx_octets.spec_hci_bytes() + self.suggested_max_tx_time.spec_hci_bytes()));
        }
        n = n + self.suggested_max_tx_time.size();
        n
    }

    fn write_hci(&self, out: &mut Vec<u8>) {
        self.suggested_max_tx_octets.write_hci(out);
        self.suggested_max_tx_time.write_hci(out);
        proof {
            assert(out@ =~= old(out)@ + self.spec_hci_bytes());
        }
    }
}

impl LeWriteSuggestedDefaultDataLengthParams {
    /// The bytes of a `LeWriteSuggestedDefaultDataLengthParams` are the bytes of its fields, one after the
    /// other, in the order in which the fields are declared.
    pub proof fn lemma_fields_in_order(&self)
        ensures
            self.spec_hci_bytes() == self.suggested_max_tx_octets.spec_hci_bytes() + self.suggested_max_tx_time.spec_hci_bytes(),
    {
    }
}


/// The LeWriteSuggestedDefaultDataLength command (group LE, command 0x0024).
#[derive(Debug, Clone, Copy, PartialEq, Eq, PartialOrd, Ord, Hash)]
pub struct LeWriteSuggestedDefaultDataLength(LeWriteSuggestedDefaultDataLengthParams);

impl LeWriteSuggestedDefaultDataLength {
    /// Create a new instance of the command.
    pub fn new(suggested_max_tx_octets: u16, suggested_max_tx_time: u16) -> (result: Self)
        ensures
            result.spec_params() == (LeWriteSuggestedDefaultDataLengthParams { suggested_max_tx_octets: suggested_max_tx_octets, suggested_max_tx_time: suggested_max_tx_time }),
    {
        LeWriteSuggestedDefaultDataLength(LeWriteSuggestedDefaultDataLengthParams { suggested_max_tx_octets: suggested_max_tx_octets, suggested_max_tx_time: suggested_max_tx_time })
    }

    /// This command's opcode is group LE, command 0x0024: 0x2024.
    pub proof fn lemma_opcode()
        ensures
            Self::spec_opcode() == 0x2024,
    {
        lemma_opcode_value(LE, 0x0024);
    }
}

impl Cmd for LeWriteSuggestedDefaultDataLength {
    type Params = LeWriteSuggestedDefaultDataLengthParams;

    open spec fn spec_opcode() -> u16 {
        spec_opcode_raw(LE, 0x0024)
    }

    closed spec fn spec_params(&self) -> LeWriteSuggestedDefaultDataLengthParams {
        self.0
    }

    fn opcode() -> (r: Opcode) {
        Opcode::new(OpcodeGroup::new(LE), 0x0024)
    }

    fn params(&self) -> (r: &LeWriteSuggestedDefaultDataLengthParams) {
        &self.0
    }

    proof fn lemma_packet(&self) {
    }
}

impl WriteHci for LeWriteSuggestedDefaultDataLength {
    closed spec fn spec_hci_bytes(&self) -> Seq<u8> {
        spec_cmd_packet(spec_opcode_raw(LE, 0x0024), self.0.spec_hci_bytes())
    }

    fn size(&self) -> (r: usize) {
        self.0.size() + 3
    }

    fn write_hci(&self, out: &mut Vec<u8>) {
        write_cmd_packet(Opcode::new(OpcodeGroup::new(LE), 0x0024), &self.0, out);
    }
}

impl SyncCmd for LeWriteSuggestedDefaultDataLength {
    type Return = ();
    type Handle = ();

    open spec fn spec_handle_ok(data: Seq<u8>, h: ()) -> bool {
        true
    }

    open spec fn spec_handle_err(data: Seq<u8>, e: FromHciBytesError) -> bool {
        false
    }

    open spec fn spec_return_ok(data: Seq<u8>, v: ()) -> bool {
        spec_decodes_complete::<()>(data, v)
    }

    open spec fn spec_return_err(data: Seq<u8>, e: FromHciBytesError) -> bool {
        spec_decode_complete_err::<()>(data, e)
    }

    fn param_handle(&self) -> (r: ())
        ensures
            r == (),
    {
    }

    fn return_handle(data: &[u8]) -> (r: Result<(), FromHciBytesError>) {
        Ok(())
    }

    fn return_from_hci_bytes(data: &[u8]) -> (r: Result<(), FromHciBytesError>) {
        <() as FromHciBytes>::from_hci_bytes_complete(data)
    }
}

/// Parameters for the [`LeAddDeviceToResolvingList`] command.
#[derive(Debug, Clone, Copy, PartialEq, Eq, PartialOrd, Ord, Hash)]
#[allow(missing_docs)]
pub struct LeAddDeviceToResolvingListParams {
    pub peer_id_addr_kind: AddrKind,
    pub peer_id_addr: BdAddr,
    pub peer_irk: [u8; 16],
    pub local_irk: [u8; 16],
}

/// The value of a [`LeAddDeviceToResolvingListParams`], with byte slices taken as sequences.
#[allow(missing_docs)]
pub struct LeAddDeviceToResolvingListParamsView {
    pub peer_id_addr_kind: u8,
    pub peer_id_addr: Seq<u8>,
    pub peer_irk: Seq<u8>,
    pub local_irk: Seq<u8>,
}

impl View for LeAddDeviceToResolvingListParams {
    type V = LeAddDeviceToResolvingListParamsView;

    open spec fn view(&self) -> LeAddDeviceToResolvingListParamsView {
        LeAddDeviceToResolvingListParamsView { peer_id_addr_kind: self.peer_id_addr_kind@, peer_id_addr: self.peer_id_addr@, peer_irk: self.peer_irk@, local_irk: self.local_irk@ }
    }
}

impl WriteHci for LeAddDeviceToResolvingListParams {
    open spec fn spec_hci_bytes(&self) -> Seq<u8> {
        self.peer_id_addr_kind.spec_hci_bytes() + self.peer_id_addr.spec_hci_bytes() + self.peer_irk.spec_hci_bytes() + self.local_irk.spec_hci_bytes()
    }

    fn size(&self) -> (r: usize) {
        let mut n = self.peer_id_addr_kind.size();
        proof {
            assert(self.peer_id_addr_kind.spec_hci_bytes() + self.peer_id_addr.spec_hci_bytes() =~= (self.peer_id_addr_kind.spec_hci_bytes() + self.peer_id_addr.spec_hci_bytes()));
        }
        n = n + self.peer_id_addr.size();
        proof {
            assert(self.peer_id_addr_kind.spec_hci_bytes() + self.peer_id_addr.spec_hci_bytes() + self.peer_irk.spec_hci_bytes() =~= (self.peer_id_addr_kind.spec_hci_bytes() + self.peer_id_addr.spec_hci_bytes() + self.peer_irk.spec_hci_bytes()));
        }
        n = n + self.peer_irk.size();
        proof {
            assert(self.peer_id_addr_kind.spec_hci_bytes() + self.peer_id_addr.spec_hci_bytes() + self.peer_irk.spec_hci_bytes() + self.local_irk.spec_hci_bytes() =~= (self.peer_id_addr_kind.spec_hci_bytes() + self.peer_id_addr.spec_hci_bytes() + self.peer_irk.spec_hci_bytes() + self.local_irk.spec_hci_bytes()));
        }
        n = n + self.local_irk.size();
        n
    }

    fn write_hci(&self, out: &mut Vec<u8>) {
        self.peer_id_addr_kind.write_hci(out);
        self.peer_id_addr.write_hci(out);
        self.peer_irk.write_hci(out);
        self.local_irk.write_hci(out);
        proof {
            assert(out@ =~= old(out)@ + self.spec_hci_bytes());
        }
    }
}

impl LeAddDeviceToResolvingListParams {
    /// The bytes of a `LeAddDeviceToResolvingListParams` are the bytes of its fields, one after the
    /// other, in the order in which the fields are declared.
    pub proof fn lemma_fields_in_order(&self)
        ensures
            self.spec_hci_bytes() == self.peer_id_addr_kind.spec_hci_bytes() + self.peer_id_addr.spec_hci_bytes() + self.peer_irk.spec_hci_bytes() + self.local_irk.spec_hci_bytes(),
    {
    }
}


/// The LeAddDeviceToResolvingList command (group LE, command 0x0027).
#[derive(Debug, Clone, Copy, PartialEq, Eq, PartialOrd, Ord, Hash)]
pub struct LeAddDeviceToResolvingList(LeAddDeviceToResolvingListParams);

impl LeAddDeviceToResolvingList {
    /// Create a new instance of the command.
    pub fn new(peer_id_addr_kind: AddrKind, peer_id_addr: BdAddr, peer_irk: [u8; 16], local_irk: [u8; 16]) -> (result: Self)
        ensures
            result.spec_params() == (LeAddDeviceToResolvingListParams { peer_id_addr_kind: peer_id_addr_kind, peer_id_addr: peer_id_addr, peer_irk: peer_irk, local_irk: local_irk }),
    {
        LeAddDeviceToResolvingList(LeAddDeviceToResolvingListParams { peer_id_addr_kind: peer_id_addr_kind, peer_id_addr: peer_id_addr, peer_irk: peer_irk, local_irk: local_irk })
    }

    /// This command's opcode is group LE, command 0x0027: 0x2027.
    pub proof fn lemma_opcode()
        ensures
            Self::spec_opcode() == 0x2027,
    {
        lemma_opcode_value(LE, 0x0027);
    }
}

impl Cmd for LeAddDeviceToResolvingList {
    type Params = LeAddDeviceToResolvingListParams;

    open spec fn spec_opcode() -> u16 {
        spec_opcode_raw(LE, 0x0027)
    }

    closed spec fn spec_params(&self) -> LeAddDeviceToResolvingListParams {
        self.0
    }

    fn opcode() -> (r: Opcode) {
        Opcode::new(OpcodeGroup::new(LE), 0x0027)
    }

    fn params(&self) -> (r: &LeAddDeviceToResolvingListParams) {
        &self.0
    }

    proof fn lemma_packet(&self) {
    }
}

impl WriteHci for LeAddDeviceToResolvingList {
    closed spec fn spec_hci_bytes(&self) -> Seq<u8> {
        spec_cmd_packet(spec_opcode_raw(LE, 0x0027), self.0.spec_hci_bytes())
    }

    fn size(&self) -> (r: usize) {
        self.0.size() + 3
    }

    fn write_hci(&self, out: &mut Vec<u8>) {
        write_cmd_packet(Opcode::new(OpcodeGroup::new(LE), 0x0027), &self.0, out);
    }
}

impl SyncCmd for LeAddDeviceToResolvingList {
    type Return = ();
    type Handle = ();

    open spec fn spec_handle_ok(data: Seq<u8>, h: ()) -> bool {
        true
    }

    open spec fn spec_handle_err(data: Seq<u8>, e: FromHciBytesError) -> bool {
        false
    }

    open spec fn spec_return_ok(data: Seq<u8>, v: ()) -> bool {
        spec_decodes_complete::<()>(data, v)
    }

    open spec fn spec_return_err(data: Seq<u8>, e: FromHciBytesError) -> bool {
        spec_decode_complete_err::<()>(data, e)
    }

    fn param_handle(&self) -> (r: ())
        ensures
            r == (),
    {
    }

    fn return_handle(data: &[u8]) -> (r: Result<(), FromHciBytesError>) {
        Ok(())
    }

    fn return_from_hci_bytes(data: &[u8]) -> (r: Result<(), FromHciBytesError>) {
        <() as FromHciBytes>::from_hci_bytes_complete(data)
    }
}

/// Parameters for the [`LeRemoveDeviceFromResolvingList`] command.
#[derive(Debug, Clone, Copy, PartialEq, Eq, PartialOrd, Ord, Hash)]
#[allow(missing_docs)]
pub struct LeRemoveDeviceFromResolvingListParams {
    pub peer_id_addr_kind: AddrKind,
    pub peer_id_addr: BdAddr,
}

/// The value of a [`LeRemoveDeviceFromResolvingListParams`], with byte slices taken as sequences.
#[allow(missing_docs)]
pub struct LeRemoveDeviceFromResolvingListParamsView {
    pub peer_id_addr_kind: u8,
    pub peer_id_addr: Seq<u8>,
}

impl View for LeRemoveDeviceFromResolvingListParams {
    type V = LeRemoveDeviceFromResolvingListParamsView;

    open spec fn view(&self) -> LeRemoveDeviceFromResolvingListParamsView {
        LeRemoveDeviceFromResolvingListParamsView { peer_id_addr_kind: self.peer_id_addr_kind@, peer_id_addr: self.peer_id_addr@ }
    }
}

impl WriteHci for LeRemoveDeviceFromResolvingListParams {
    open spec fn spec_hci_bytes(&self) -> Seq<u8> {
        self.peer_id_addr_kind.spec_hci_bytes() + self.peer_id_addr.spec_hci_bytes()
    }

    fn size(&self) -> (r: usize) {
        let mut n = self.peer_id_addr_kind.size();
        proof {
            assert(self.peer_id_addr_kind.spec_hci_bytes() + self.peer_id_addr.spec_hci_bytes() =~= (self.peer_id_addr_kind.spec_hci_bytes() + self.peer_id_addr.spec_hci_bytes()));
        }
        n = n + self.peer_id_addr.size();
        n
    }

    fn write_hci(&self, out: &mut Vec<u8>) {
        self.peer_id_addr_kind.write_hci(out);
        self.peer_id_addr.write_hci(out);
        proof {
            assert(out@ =~= old(out)@ + self.spec_hci_bytes());
        }
    }
}

impl LeRemoveDeviceFromResolvingListParams {
    /// The bytes of a `LeRemoveDeviceFromResolvingListParams` are the bytes of its fields, one after the
    /// other, in the order in which the fields are declared.
    pub proof fn lemma_fields_in_order(&self)
        ensures
            self.spec_hci_bytes() == self.peer_id_addr_kind.spec_hci_bytes() + self.peer_id_addr.spec_hci_bytes(),
    {
    }
}


/// The LeRemoveDeviceFromResolvingList command (group LE, command 0x0028).
#[derive(Debug, Clone, Copy, PartialEq, Eq, PartialOrd, Ord, Hash)]
pub struct LeRemoveDeviceFromResolvingList(LeRemoveDeviceFromResolvingListParams);

impl LeRemoveDeviceFromResolvingList {
    /// Create a new instance of the command.
    pub fn new(peer_id_addr_kind: AddrKind, peer_id_addr: BdAddr) -> (result: Self)
        ensures
            result.spec_params() == (LeRemoveDeviceFromResolvingListParams { peer_id_addr_kind: peer_id_addr_kind, peer_id_addr: peer_id_addr }),
    {
        LeRemoveDeviceFromResolvingList(LeRemoveDeviceFromResolvingListParams { peer_id_addr_kind: peer_id_addr_kind, peer_id_addr: peer_id_addr })
    }

    /// This command's opcode is group LE, command 0x0028: 0x2028.
    pub proof fn lemma_opcode()
        ensures
            Self::spec_opcode() == 0x2028,
    {
        lemma_opcode_value(LE, 0x0028);
    }
}

impl Cmd for LeRemoveDeviceFromResolvingList {
    type Params = LeRemoveDeviceFromResolvingListParams;

    open spec fn spec_opcode() -> u16 {
        spec_opcode_raw(LE, 0x0028)
    }

    closed spec fn spec_params(&self) -> LeRemoveDeviceFromResolvingListParams {
        self.0
    }

    fn opcode() -> (r: Opcode) {
        Opcode::new(OpcodeGroup::new(LE), 0x0028)
    }

    fn params(&self) -> (r: &LeRemoveDeviceFromResolvingListParams) {
        &self.0
    }

    proof fn lemma_packet(&self) {
    }
}

impl WriteHci for LeRemoveDeviceFromResolvingList {
    closed spec fn spec_hci_bytes(&self) -> Seq<u8> {
        spec_cmd_packet(spec_opcode_raw(LE, 0x0028), self.0.spec_hci_bytes())
    }

    fn size(&self) -> (r: usize) {
        self.0.size() + 3
    }

    fn write_hci(&self, out: &mut Vec<u8>) {
        write_cmd_packet(Opcode::new(OpcodeGroup::new(LE), 0x0028), &self.0, out);
    }
}

impl SyncCmd for LeRemoveDeviceFromResolvingList {
    type Return = ();
    type Handle = ();

    open spec fn spec_handle_ok(data: Seq<u8>, h: ()) -> bool {
        true
    }

    open spec fn spec_handle_err(data: Seq<u8>, e: FromHciBytesError) -> bool {
        false
    }

    open spec fn spec_return_ok(data: Seq<u8>, v: ()) -> bool {
        spec_decodes_complete::<()>(data, v)
    }

    open spec fn spec_return_err(data: Seq<u8>, e: FromHciBytesError) -> bool {
        spec_decode_complete_err::<()>(data, e)
    }

    fn param_handle(&self) -> (r: ())
        ensures
            r == (),
    {
    }

    fn return_handle(data: &[u8]) -> (r: Result<(), FromHciBytesError>) {
        Ok(())
    }

    fn return_from_hci_bytes(data: &[u8]) -> (r: Result<(), FromHciBytesError>) {
        <() as FromHciBytes>::from_hci_bytes_complete(data)
    }
}

/// The LeClearResolvingList command (group LE, command 0x0029).
#[derive(Debug, Clone, Copy, PartialEq, Eq, PartialOrd, Ord, Hash, Default)]
pub struct LeClearResolvingList(());

impl LeClearResolvingList {
    /// Create a new instance of the command.
    pub fn new() -> (r: Self)
        ensures
            r.spec_params() == (),
    {
        LeClearResolvingList(())
    }

    /// This command's opcode is group LE, command 0x0029: 0x2029.
    pub proof fn lemma_opcode()
        ensures
            Self::spec_opcode() == 0x2029,
    {
        lemma_opcode_value(LE, 0x0029);
    }
}

impl Cmd for LeClearResolvingList {
    type Params = ();

    open spec fn spec_opcode() -> u16 {
        spec_opcode_raw(LE, 0x0029)
    }

    closed spec fn spec_params(&self) -> () {
        self.0
    }

    fn opcode() -> (r: Opcode) {
        Opcode::new(OpcodeGroup::new(LE), 0x0029)
    }

    fn params(&self) -> (r: &()) {
        &self.0
    }

    proof fn lemma_packet(&self) {
    }
}

impl WriteHci for LeClearResolvingList {
    closed spec fn spec_hci_bytes(&self) -> Seq<u8> {
        spec_cmd_packet(spec_opcode_raw(LE, 0x0029), self.0.spec_hci_bytes())
    }

    fn size(&self) -> (r: usize) {
        self.0.size() + 3
    }

    fn write_hci(&self, out: &mut Vec<u8>) {
        write_cmd_packet(Opcode::new(OpcodeGroup::new(LE), 0x0029), &self.0, out);
    }
}

impl SyncCmd for LeClearResolvingList {
    type Return = ();
    type Handle = ();

    open spec fn spec_handle_ok(data: Seq<u8>, h: ()) -> bool {
        true
    }

    open spec fn spec_handle_err(data: Seq<u8>, e: FromHciBytesError) -> bool {
        false
    }

    open spec fn spec_return_ok(data: Seq<u8>, v: ()) -> bool {
        spec_decodes_complete::<()>(data, v)
    }

    open spec fn spec_return_err(data: Seq<u8>, e: FromHciBytesError) -> bool {
        spec_decode_complete_err::<()>(data, e)
    }

    fn param_handle(&self) -> (r: ())
        ensures
            r == (),
    {
    }

    fn return_handle(data: &[u8]) -> (r: Result<(), FromHciBytesError>) {
        Ok(())
    }

    fn return_from_hci_bytes(data: &[u8]) -> (r: Result<(), FromHciBytesError>) {
        <() as FromHciBytes>::from_hci_bytes_complete(data)
    }
}

/// The LeReadResolvingListSize command (group LE, command 0x002a).
#[derive(Debug, Clone, Copy, PartialEq, Eq, PartialOrd, Ord, Hash, Default)]
pub struct LeReadResolvingListSize(());

impl LeReadResolvingListSize {
    /// Create a new instance of the command.
    pub fn new() -> (r: Self)
        ensures
            r.spec_params() == (),
    {
        LeReadResolvingListSize(())
    }

    /// This command's opcode is group LE, command 0x002a: 0x202a.
    pub proof fn lemma_opcode()
        ensures
            Self::spec_opcode() == 0x202a,
    {
        lemma_opcode_value(LE, 0x002a);
    }
}

impl Cmd for LeReadResolvingListSize {
    type Params = ();

    open spec fn spec_opcode() -> u16 {
        spec_opcode_raw(LE, 0x002a)
    }

    closed spec fn spec_params(&self) -> () {
        self.0
    }

    fn opcode() -> (r: Opcode) {
        Opcode::new(OpcodeGroup::new(LE), 0x002a)
    }

    fn params(&self) -> (r: &()) {
        &self.0
    }

    proof fn lemma_packet(&self) {
    }
}

impl WriteHci for LeReadResolvingListSize {
    closed spec fn spec_hci_bytes(&self) -> Seq<u8> {
        spec_cmd_packet(spec_opcode_raw(LE, 0x002a), self.0.spec_hci_bytes())
    }

    fn size(&self) -> (r: usize) {
        self.0.size() + 3
    }

    fn write_hci(&self, out: &mut Vec<u8>) {
        write_cmd_packet(Opcode::new(OpcodeGroup::new(LE), 0x002a), &self.0, out);
    }
}

impl SyncCmd for LeReadResolvingListSize {
    type Return = u8;
    type Handle = ();

    open spec fn spec_handle_ok(data: Seq<u8>, h: ()) -> bool {
        true
    }

    open spec fn spec_handle_err(data: Seq<u8>, e: FromHciBytesError) -> bool {
        false
    }

    open spec fn spec_return_ok(data: Seq<u8>, v: u8) -> bool {
        spec_decodes_complete::<u8>(data, v)
    }

    open spec fn spec_return_err(data: Seq<u8>, e: FromHciBytesError) -> bool {
        spec_decode_complete_err::<u8>(data, e)
    }

    fn param_handle(&self) -> (r: ())
        ensures
            r == (),
    {
    }

    fn return_handle(data: &[u8]) -> (r: Result<(), FromHciBytesError>) {
        Ok(())
    }

    fn return_from_hci_bytes(data: &[u8]) -> (r: Result<u8, FromHciBytesError>) {
        <u8 as FromHciBytes>::from_hci_bytes_complete(data)
    }
}

/// The LeSetAddrResolutionEnable command (group LE, command 0x002d).
#[derive(Debug, Clone, Copy, PartialEq, Eq, PartialOrd, Ord, Hash)]
pub struct LeSetAddrResolutionEnable(bool);

impl LeSetAddrResolutionEnable {
    /// Create a new instance of the command with the provided parameters.
    pub fn new(param: bool) -> (r: Self)
        ensures
            r.spec_params() == param,
    {
        LeSetAddrResolutionEnable(param)
    }

    /// This command's opcode is group LE, command 0x002d: 0x202d.
    pub proof fn lemma_opcode()
        ensures
            Self::spec_opcode() == 0x202d,
    {
        lemma_opcode_value(LE, 0x002d);
    }
}

impl Cmd for LeSetAddrResolutionEnable {
    type Params = bool;

    open spec fn spec_opcode() -> u16 {
        spec_opcode_raw(LE, 0x002d)
    }

    closed spec fn spec_params(&self) -> bool {
        self.0
    }

    fn opcode() -> (r: Opcode) {
        Opcode::new(OpcodeGroup::new(LE), 0x002d)
    }

    fn params(&self) -> (r: &bool) {
        &self.0
    }

    proof fn lemma_packet(&self) {
    }
}

impl WriteHci for LeSetAddrResolutionEnable {
    closed spec fn spec_hci_bytes(&self) -> Seq<u8> {
        spec_cmd_packet(spec_opcode_raw(LE, 0x002d), self.0.spec_hci_bytes())
    }

    fn size(&self) -> (r: usize) {
        self.0.size() + 3
    }

    fn write_hci(&self, out: &mut Vec<u8>) {
        write_cmd_packet(Opcode::new(OpcodeGroup::new(LE), 0x002d), &self.0, out);
    }
}

impl SyncCmd for LeSetAddrResolutionEnable {
    type Return = ();
    type Handle = ();

    open spec fn spec_handle_ok(data: Seq<u8>, h: ()) -> bool {
        true
    }

    open spec fn spec_handle_err(data: Seq<u8>, e: FromHciBytesError) -> bool {
        false
    }

    open spec fn spec_return_ok(data: Seq<u8>, v: ()) -> bool {
        spec_decodes_complete::<()>(data, v)
    }

    open spec fn spec_return_err(data: Seq<u8>, e: FromHciBytesError) -> bool {
        spec_decode_complete_err::<()>(data, e)
    }

    fn param_handle(&self) -> (r: ())
        ensures
            r == (),
    {
    }

    fn return_handle(data: &[u8]) -> (r: Result<(), FromHciBytesError>) {
        Ok(())
    }

    fn return_from_hci_bytes(data: &[u8]) -> (r: Result<(), FromHciBytesError>) {
        <() as FromHciBytes>::from_hci_bytes_complete(data)
    }
}

/// The LeSetResolvablePrivateAddrTimeout command (group LE, command 0x002e).
#[derive(Debug, Clone, Copy, PartialEq, Eq, PartialOrd, Ord, Hash)]
pub struct LeSetResolvablePrivateAddrTimeout(Duration<1_000_000>);

impl LeSetResolvablePrivateAddrTimeout {
    /// Create a new instance of the command with the provided parameters.
    pub fn new(param: Duration<1_000_000>) -> (r: Self)
        ensures
            r.spec_params() == param,
    {
        LeSetResolvablePrivateAddrTimeout(param)
    }

    /// This command's opcode is group LE, command 0x002e: 0x202e.
    pub proof fn lemma_opcode()
        ensures
            Self::spec_opcode() == 0x202e,
    {
        lemma_opcode_value(LE, 0x002e);
    }
}

impl Cmd for LeSetResolvablePrivateAddrTimeout {
    type Params = Duration<1_000_000>;

    open spec fn spec_opcode() -> u16 {
        spec_opcode_raw(LE, 0x002e)
    }

    closed spec fn spec_params(&self) -> Duration<1_000_000> {
        self.0
    }

    fn opcode() -> (r: Opcode) {
        Opcode::new(OpcodeGroup::new(LE), 0x002e)
    }

    fn params(&self) -> (r: &Duration<1_000_000>) {
        &self.0
    }

    proof fn lemma_packet(&self) {
    }
}

impl WriteHci for LeSetResolvablePrivateAddrTimeout {
    closed spec fn spec_hci_bytes(&self) -> Seq<u8> {
        spec_cmd_packet(spec_opcode_raw(LE, 0x002e), self.0.spec_hci_bytes())
    }

    fn size(&self) -> (r: usize) {
        self.0.size() + 3
    }

    fn write_hci(&self, out: &mut Vec<u8>) {
        write_cmd_packet(Opcode::new(OpcodeGroup::new(LE), 0x002e), &self.0, out);
    }
}

impl SyncCmd for LeSetResolvablePrivateAddrTimeout {
    type Return = ();
    type Handle = ();

    open spec fn spec_handle_ok(data: Seq<u8>, h: ()) -> bool {
        true
    }

    open spec fn spec_handle_err(data: Seq<u8>, e: FromHciBytesError) -> bool {
        false
    }

    open spec fn spec_return_ok(data: Seq<u8>, v: ()) -> bool {
        spec_decodes_complete::<()>(data, v)
    }

    open spec fn spec_return_err(data: Seq<u8>, e: FromHciBytesError) -> bool {
        spec_decode_complete_err::<()>(data, e)
    }

    fn param_handle(&self) -> (r: ())
        ensures
            r == (),
    {
    }

    fn return_handle(data: &[u8]) -> (r: Result<(), FromHciBytesError>) {
        Ok(())
    }

    fn return_from_hci_bytes(data: &[u8]) -> (r: Result<(), FromHciBytesError>) {
        <() as FromHciBytes>::from_hci_bytes_complete(data)
    }
}

/// Return parameters for the [`LeReadMaxDataLength`] command.
#[derive(Debug, Clone, Copy, PartialEq, Eq, PartialOrd, Ord, Hash)]
#[allow(missing_docs)]
pub struct LeReadMaxDataLengthReturn {
    pub supported_max_tx_octets: u16,
    pub supported_max_tx_time: u16,
    pub supported_max_rx_octets: u16,
    pub supported_max_rx_time: u16,
}

/// The value of a [`LeReadMaxDataLengthReturn`], with byte slices taken as sequences.
#[allow(missing_docs)]
pub struct LeReadMaxDataLengthReturnView {
    pub supported_max_tx_octets: u16,
    pub supported_max_tx_time: u16,
    pub supported_max_rx_octets: u16,
    pub supported_max_rx_time: u16,
}

impl View for LeReadMaxDataLengthReturn {
    type V = LeReadMaxDataLengthReturnView;

    open spec fn view(&self) -> LeReadMaxDataLengthReturnView {
        LeReadMaxDataLengthReturnView { supported_max_tx_octets: self.supported_max_tx_octets@, supported_max_tx_time: self.supported_max_tx_time@, supported_max_rx_octets: self.supported_max_rx_octets@, supported_max_rx_time: self.supported_max_rx_time@ }
    }
}

impl<'de> FromHciBytes<'de> for LeReadMaxDataLengthReturn {
    open spec fn spec_from_hci_bytes(data: Seq<u8>) -> Result<(LeReadMaxDataLengthReturnView, nat), FromHciBytesError> {
        if data.len() < 8 {
            Err(FromHciBytesError::InvalidSize)
        } else {
            match <u16 as FromHciBytes<'de>>::spec_from_hci_bytes(data) {
                Err(e) => Err(e),
                Ok((v_supported_max_tx_octets, n_supported_max_tx_octets)) => {
                    match <u16 as FromHciBytes<'de>>::spec_from_hci_bytes(data.skip(n_supported_max_tx_octets as int)) {
                        Err(e) => Err(e),
                        Ok((v_supported_max_tx_time, n_supported_max_tx_time)) => {
                            match <u16 as FromHciBytes<'de>>::spec_from_hci_bytes(data.skip(n_supported_max_tx_octets as int).skip(n_supported_max_tx_time as int)) {
                                Err(e) => Err(e),
                                Ok((v_supported_max_rx_octets, n_supported_max_rx_octets)) => {
                                    match <u16 as FromHciBytes<'de>>::spec_from_hci_bytes(data.skip(n_supported_max_tx_octets as int).skip(n_supported_max_tx_time as int).skip(n_supported_max_rx_octets as int)) {
                                        Err(e) => Err(e),
                                        Ok((v_supported_max_rx_time, n_supported_max_rx_time)) => {
                                            Ok((LeReadMaxDataLengthReturnView { supported_max_tx_octets: v_supported_max_tx_octets, supported_max_tx_time: v_supported_max_tx_time, supported_max_rx_octets: v_supported_max_rx_octets, supported_max_rx_time: v_supported_max_rx_time }, (n_supported_max_tx_octets + n_supported_max_tx_time + n_supported_max_rx_octets + n_supported_max_rx_time) as nat))
                                        },
                                    }
                                },
                            }
                        },
                    }
                },
            }
        }
    }

    fn from_hci_bytes(data: &'de [u8]) -> (r: Result<(LeReadMaxDataLengthReturn, &'de [u8]), FromHciBytesError>) {
        if data.len() < 8 {
            return Err(FromHciBytesError::InvalidSize);
        }
        let (v_supported_max_tx_octets, rest_supported_max_tx_octets) = match <u16 as FromHciBytes<'de>>::from_hci_bytes(data) {
            Ok(x) => x,
            Err(e) => return Err(e),
        };
        let (v_supported_max_tx_time, rest_supported_max_tx_time) = match <u16 as FromHciBytes<'de>>::from_hci_bytes(rest_supported_max_tx_octets) {
            Ok(x) => x,
            Err(e) => return Err(e),
        };
        proof {
            lemma_skip_skip(data@, (data@.len() - rest_supported_max_tx_octets@.len()) as int, (rest_supported_max_tx_octets@.len() - rest_supported_max_tx_time@.len()) as int);
        }
        let (v_supported_max_rx_octets, rest_supported_max_rx_octets) = match <u16 as FromHciBytes<'de>>::from_hci_bytes(rest_supported_max_tx_time) {
            Ok(x) => x,
            Err(e) => return Err(e),
        };
        proof {
            lemma_skip_skip(data@, (data@.len() - rest_supported_max_tx_time@.len()) as int, (rest_supported_max_tx_time@.len() - rest_supported_max_rx_octets@.len()) as int);
        }
        let (v_supported_max_rx_time, rest_supported_max_rx_time) = match <u16 as FromHciBytes<'de>>::from_hci_bytes(rest_supported_max_rx_octets) {
            Ok(x) => x,
            Err(e) => return Err(e),
        };
        proof {
            lemma_skip_skip(data@, (data@.len() - rest_supported_max_rx_octets@.len()) as int, (rest_supported_max_rx_octets@.len() - rest_supported_max_rx_time@.len()) as int);
        }
        Ok((LeReadMaxDataLengthReturn { supported_max_tx_octets: v_supported_max_tx_octets, supported_max_tx_time: v_supported_max_tx_time, supported_max_rx_octets: v_supported_max_rx_octets, supported_max_rx_time: v_supported_max_rx_time }, rest_supported_max_rx_time))
    }
}

impl WriteHci for LeReadMaxDataLengthReturn {
    open spec fn spec_hci_bytes(&self) -> Seq<u8> {
        self.supported_max_tx_octets.spec_hci_bytes() + self.supported_max_tx_time.spec_hci_bytes() + self.supported_max_rx_octets.spec_hci_bytes() + self.supported_max_rx_time.spec_hci_bytes()
    }

    fn size(&self) -> (r: usize) {
        let mut n = self.supported_max_tx_octets.size();
        proof {
            assert(self.supported_max_tx_octets.spec_hci_bytes() + self.supported_max_tx_time.spec_hci_bytes() =~= (self.supported_max_tx_octets.spec_hci_bytes() + self.supported_max_tx_time.spec_hci_bytes()));
        }
        n = n + self.supported_max_tx_time.size();
        proof {
            assert(self.supported_max_tx_octets.spec_hci_bytes() + self.supported_max_tx_time.spec_hci_bytes() + self.supported_max_rx_octets.spec_hci_bytes() =~= (self.supported_max_tx_octets.spec_hci_bytes() + self.supported_max_tx_time.spec_hci_bytes() + self.supported_max_rx_octets.spec_hci_bytes()));
        }
        n = n + self.supported_max_rx_octets.size();
        proof {
            assert(self.supported_max_tx_octets.spec_hci_bytes() + self.supported_max_tx_time.spec_hci_bytes() + self.supported_max_rx_octets.spec_hci_bytes() + self.supported_max_rx_time.spec_hci_bytes() =~= (self.supported_max_tx_octets.spec_hci_bytes() + self.supported_max_tx_time.spec_hci_bytes() + self.supported_max_rx_octets.spec_hci_bytes() + self.supported_max_rx_time.spec_hci_bytes()));
        }
        n = n + self.supported_max_rx_time.size();
        n
    }

    fn write_hci(&self, out: &mut Vec<u8>) {
        self.supported_max_tx_octets.write_hci(out);
        self.supported_max_tx_time.write_hci(out);
        self.supported_max_rx_octets.write_hci(out);
        self.supported_max_rx_time.write_hci(out);
        proof {
            assert(out@ =~= old(out)@ + self.spec_hci_bytes());
        }
    }
}

impl LeReadMaxDataLengthReturn {
    /// The bytes of a `LeReadMaxDataLengthReturn` are the bytes of its fields, one after the
    /// other, in the order in which the fields are declared.
    pub proof fn lemma_fields_in_order(&self)
        ensures
            self.spec_hci_bytes() == self.supported_max_tx_octets.spec_hci_bytes() + self.supported_max_tx_time.spec_hci_bytes() + self.supported_max_rx_octets.spec_hci_bytes() + self.supported_max_rx_time.spec_hci_bytes(),
    {
    }
}

impl FixedSizeValue for LeReadMaxDataLengthReturn {
    open spec fn spec_size() -> nat {
        8
    }

    proof fn lemma_fixed_size(&self) {
        self.supported_max_tx_octets.lemma_fixed_size();
        self.supported_max_tx_time.lemma_fixed_size();
        self.supported_max_rx_octets.lemma_fixed_size();
        self.supported_max_rx_time.lemma_fixed_size();
    }
}

impl<'de> HciCodec<'de> for LeReadMaxDataLengthReturn {
    open spec fn spec_encodable(&self) -> bool {
        self.supported_max_tx_octets.spec_encodable() && self.supported_max_tx_time.spec_encodable() && self.supported_max_rx_octets.spec_encodable() && self.supported_max_rx_time.spec_encodable()
    }

    proof fn lemma_write_then_read(&self, rest: Seq<u8>) {
        self.supported_max_tx_octets.lemma_fixed_size();
        self.supported_max_tx_time.lemma_fixed_size();
        self.supported_max_rx_octets.lemma_fixed_size();
        self.supported_max_rx_time.lemma_fixed_size();
        let t_supported_max_rx_time = self.supported_max_rx_time.spec_hci_bytes() + rest;
        let t_supported_max_rx_octets = self.supported_max_rx_octets.spec_hci_bytes() + t_supported_max_rx_time;
        let t_supported_max_tx_time = self.supported_max_tx_time.spec_hci_bytes() + t_supported_max_rx_octets;
        let t_supported_max_tx_octets = self.supported_max_tx_octets.spec_hci_bytes() + t_supported_max_tx_time;
        assert(self.spec_hci_bytes() + rest =~= t_supported_max_tx_octets);
        self.supported_max_tx_octets.lemma_write_then_read(t_supported_max_tx_time);
        self.supported_max_tx_time.lemma_write_then_read(t_supported_max_rx_octets);
        self.supported_max_rx_octets.lemma_write_then_read(t_supported_max_rx_time);
        self.supported_max_rx_time.lemma_write_then_read(rest);
        assert(t_supported_max_tx_octets.skip(self.supported_max_tx_octets.spec_hci_bytes().len() as int) =~= t_supported_max_tx_time);
        assert(t_supported_max_tx_time.skip(self.supported_max_tx_time.spec_hci_bytes().len() as int) =~= t_supported_max_rx_octets);
        assert(t_supported_max_rx_octets.skip(self.supported_max_rx_octets.spec_hci_bytes().len() as int) =~= t_supported_max_rx_time);
    }
}

/// The LeReadMaxDataLength command (group LE, command 0x002f).
#[derive(Debug, Clone, Copy, PartialEq, Eq, PartialOrd, Ord, Hash, Default)]
pub struct LeReadMaxDataLength(());

impl LeReadMaxDataLength {
    /// Create a new instance of the command.
    pub fn new() -> (r: Self)
        ensures
            r.spec_params() == (),
    {
        LeReadMaxDataLength(())
    }

    /// This command's opcode is group LE, command 0x002f: 0x202f.
    pub proof fn lemma_opcode()
        ensures
            Self::spec_opcode() == 0x202f,
    {
        lemma_opcode_value(LE, 0x002f);
    }
}

impl Cmd for LeReadMaxDataLength {
    type Params = ();

    open spec fn spec_opcode() -> u16 {
        spec_opcode_raw(LE, 0x002f)
    }

    closed spec fn spec_params(&self) -> () {
        self.0
    }

    fn opcode() -> (r: Opcode) {
        Opcode::new(OpcodeGroup::new(LE), 0x002f)
    }

    fn params(&self) -> (r: &()) {
        &self.0
    }

    proof fn lemma_packet(&self) {
    }
}

impl WriteHci for LeReadMaxDataLength {
    closed spec fn spec_hci_bytes(&self) -> Seq<u8> {
        spec_cmd_packet(spec_opcode_raw(LE, 0x002f), self.0.spec_hci_bytes())
    }

    fn size(&self) -> (r: usize) {
        self.0.size() + 3
    }

    fn write_hci(&self, out: &mut Vec<u8>) {
        write_cmd_packet(Opcode::new(OpcodeGroup::new(LE), 0x002f), &self.0, out);
    }
}

impl SyncCmd for LeReadMaxDataLength {
    type Return = LeReadMaxDataLengthReturn;
    type Handle = ();

    open spec fn spec_handle_ok(data: Seq<u8>, h: ()) -> bool {
        true
    }

    open spec fn spec_handle_err(data: Seq<u8>, e: FromHciBytesError) -> bool {
        false
    }

    open spec fn spec_return_ok(data: Seq<u8>, v: LeReadMaxDataLengthReturn) -> bool {
        spec_decodes_complete::<LeReadMaxDataLengthReturn>(data, v)
    }

    open spec fn spec_return_err(data: Seq<u8>, e: FromHciBytesError) -> bool {
        spec_decode_complete_err::<LeReadMaxDataLengthReturn>(data, e)
    }

    fn param_handle(&self) -> (r: ())
        ensures
            r == (),
    {
    }

    fn return_handle(data: &[u8]) -> (r: Result<(), FromHciBytesError>) {
        Ok(())
    }

    fn return_from_hci_bytes(data: &[u8]) -> (r: Result<LeReadMaxDataLengthReturn, FromHciBytesError>) {
        <LeReadMaxDataLengthReturn as FromHciBytes>::from_hci_bytes_complete(data)
    }
}

/// Return parameters for the [`LeReadPhy`] command.
#[derive(Debug, Clone, Copy, PartialEq, Eq, PartialOrd, Ord, Hash)]
#[allow(missing_docs)]
pub struct LeReadPhyReturn {
    pub handle: ConnHandle,
    pub tx_phy: PhyKind,
    pub rx_phy: PhyKind,
}

/// The value of a [`LeReadPhyReturn`], with byte slices taken as sequences.
#[allow(missing_docs)]
pub struct LeReadPhyReturnView {
    pub handle: u16,
    pub tx_phy: PhyKind,
    pub rx_phy: PhyKind,
}

impl View for LeReadPhyReturn {
    type V = LeReadPhyReturnView;

    open spec fn view(&self) -> LeReadPhyReturnView {
        LeReadPhyReturnView { handle: self.handle@, tx_phy: self.tx_phy@, rx_phy: self.rx_phy@ }
    }
}

impl<'de> FromHciBytes<'de> for LeReadPhyReturn {
    open spec fn spec_from_hci_bytes(data: Seq<u8>) -> Result<(LeReadPhyReturnView, nat), FromHciBytesError> {
        if data.len() < 4 {
            Err(FromHciBytesError::InvalidSize)
        } else {
            match <ConnHandle as FromHciBytes<'de>>::spec_from_hci_bytes(data) {
                Err(e) => Err(e),
                Ok((v_handle, n_handle)) => {
                    match <PhyKind as FromHciBytes<'de>>::spec_from_hci_bytes(data.skip(n_handle as int)) {
                        Err(e) => Err(e),
                        Ok((v_tx_phy, n_tx_phy)) => {
                            match <PhyKind as FromHciBytes<'de>>::spec_from_hci_bytes(data.skip(n_handle as int).skip(n_tx_phy as int)) {
                                Err(e) => Err(e),
                                Ok((v_rx_phy, n_rx_phy)) => {
                                    Ok((LeReadPhyReturnView { handle: v_handle, tx_phy: v_tx_phy, rx_phy: v_rx_phy }, (n_handle + n_tx_phy + n_rx_phy) as nat))
                                },
                            }
                        },
                    }
                },
            }
        }
    }

    fn from_hci_bytes(data: &'de [u8]) -> (r: Result<(LeReadPhyReturn, &'de [u8]), FromHciBytesError>) {
        if data.len() < 4 {
            return Err(FromHciBytesError::InvalidSize);
        }
        let (v_handle, rest_handle) = match <ConnHandle as FromHciBytes<'de>>::from_hci_bytes(data) {
            Ok(x) => x,
            Err(e) => return Err(e),
        };
        let (v_tx_phy, rest_tx_phy) = match <PhyKind as FromHciBytes<'de>>::from_hci_bytes(rest_handle) {
            Ok(x) => x,
            Err(e) => return Err(e),
        };
        proof {
            lemma_skip_skip(data@, (data@.len() - rest_handle@.len()) as int, (rest_handle@.len() - rest_tx_phy@.len()) as int);
        }
        let (v_rx_phy, rest_rx_phy) = match <PhyKind as FromHciBytes<'de>>::from_hci_bytes(rest_tx_phy) {
            Ok(x) => x,
            Err(e) => return Err(e),
        };
        proof {
            lemma_skip_skip(data@, (data@.len() - rest_tx_phy@.len()) as int, (rest_tx_phy@.len() - rest_rx_phy@.len()) as int);
        }
        Ok((LeReadPhyReturn { handle: v_handle, tx_phy: v_tx_phy, rx_phy: v_rx_phy }, rest_rx_phy))
    }
}

impl WriteHci for LeReadPhyReturn {
    open spec fn spec_hci_bytes(&self) -> Seq<u8> {
        self.handle.spec_hci_bytes() + self.tx_phy.spec_hci_bytes() + self.rx_phy.spec_hci_bytes()
    }

    fn size(&self) -> (r: usize) {
        let mut n = self.handle.size();
        proof {
            assert(self.handle.spec_hci_bytes() + self.tx_phy.spec_hci_bytes() =~= (self.handle.spec_hci_bytes() + self.tx_phy.spec_hci_bytes()));
        }
        n = n + self.tx_phy.size();
        proof {
            assert(self.handle.spec_hci_bytes() + self.tx_phy.spec_hci_bytes() + self.rx_phy.spec_hci_bytes() =~= (self.handle.spec_hci_bytes() + self.tx_phy.spec_hci_bytes() + self.rx_phy.spec_hci_bytes()));
        }
        n = n + self.rx_phy.size();
        n
    }

    fn write_hci(&self, out: &mut Vec<u8>) {
        self.handle.write_hci(out);
        self.tx_phy.write_hci(out);
        self.rx_phy.write_hci(out);
        proof {
            assert(out@ =~= old(out)@ + self.spec_hci_bytes());
        }
    }
}

impl LeReadPhyReturn {
    /// The bytes of a `LeReadPhyReturn` are the bytes of its fields, one after the
    /// other, in the order in which the fields are declared.
    pub proof fn lemma_fields_in_order(&self)
        ensures
            self.spec_hci_bytes() == self.handle.spec_hci_bytes() + self.tx_phy.spec_hci_bytes() + self.rx_phy.spec_hci_bytes(),
    {
    }
}

impl FixedSizeValue for LeReadPhyReturn {
    open spec fn spec_size() -> nat {
        4
    }

    proof fn lemma_fixed_size(&self) {
        self.handle.lemma_fixed_size();
        self.tx_phy.lemma_fixed_size();
        self.rx_phy.lemma_fixed_size();
    }
}

impl<'de> HciCodec<'de> for LeReadPhyReturn {
    open spec fn spec_encodable(&self) -> bool {
        self.handle.spec_encodable() && self.tx_phy.spec_encodable() && self.rx_phy.spec_encodable()
    }

    proof fn lemma_write_then_read(&self, rest: Seq<u8>) {
        self.handle.lemma_fixed_size();
        self.tx_phy.lemma_fixed_size();
        self.rx_phy.lemma_fixed_size();
        let t_rx_phy = self.rx_phy.spec_hci_bytes() + rest;
        let t_tx_phy = self.tx_phy.spec_hci_bytes() + t_rx_phy;
        let t_handle = self.handle.spec_hci_bytes() + t_tx_phy;
        assert(self.spec_hci_bytes() + rest =~= t_handle);
        self.handle.lemma_write_then_read(t_tx_phy);
        self.tx_phy.lemma_write_then_read(t_rx_phy);
        self.rx_phy.lemma_write_then_read(rest);
        assert(t_handle.skip(self.handle.spec_hci_bytes().len() as int) =~= t_tx_phy);
        assert(t_tx_phy.skip(self.tx_phy.spec_hci_bytes().len() as int) =~= t_rx_phy);
    }
}

/// The LeReadPhy command (group LE, command 0x0030).
#[derive(Debug, Clone, Copy, PartialEq, Eq, PartialOrd, Ord, Hash)]
pub struct LeReadPhy(ConnHandle);

impl LeReadPhy {
    /// Create a new instance of the command with the provided parameters.
    pub fn new(param: ConnHandle) -> (r: Self)
        ensures
            r.spec_params() == param,
    {
        LeReadPhy(param)
    }

    /// This command's opcode is group LE, command 0x0030: 0x2030.
    pub proof fn lemma_opcode()
        ensures
            Self::spec_opcode() == 0x2030,
    {
        lemma_opcode_value(LE, 0x0030);
    }
}

impl Cmd for LeReadPhy {
    type Params = ConnHandle;

    open spec fn spec_opcode() -> u16 {
        spec_opcode_raw(LE, 0x0030)
    }

    closed spec fn spec_params(&self) -> ConnHandle {
        self.0
    }

    fn opcode() -> (r: Opcode) {
        Opcode::new(OpcodeGroup::new(LE), 0x0030)
    }

    fn params(&self) -> (r: &ConnHandle) {
        &self.0
    }

    proof fn lemma_packet(&self) {
    }
}

impl WriteHci for LeReadPhy {
    closed spec fn spec_hci_bytes(&self) -> Seq<u8> {
        spec_cmd_packet(spec_opcode_raw(LE, 0x0030), self.0.spec_hci_bytes())
    }

    fn size(&self) -> (r: usize) {
        self.0.size() + 3
    }

    fn write_hci(&self, out: &mut Vec<u8>) {
        write_cmd_packet(Opcode::new(OpcodeGroup::new(LE), 0x0030), &self.0, out);
    }
}

impl SyncCmd for LeReadPhy {
    type Return = LeReadPhyReturn;
    type Handle = ConnHandle;

    open spec fn spec_handle_ok(data: Seq<u8>, h: ConnHandle) -> bool {
        spec_decodes_prefix::<ConnHandle>(data, h)
    }

    open spec fn spec_handle_err(data: Seq<u8>, e: FromHciBytesError) -> bool {
        spec_decode_prefix_err::<ConnHandle>(data, e)
    }

    open spec fn spec_return_ok(data: Seq<u8>, v: LeReadPhyReturn) -> bool {
        spec_decodes_complete::<LeReadPhyReturn>(data, v)
    }

    open spec fn spec_return_err(data: Seq<u8>, e: FromHciBytesError) -> bool {
        spec_decode_complete_err::<LeReadPhyReturn>(data, e)
    }

    fn param_handle(&self) -> (r: ConnHandle)
        ensures
            r == self.spec_params(),
    {
        self.0
    }

    fn return_handle(data: &[u8]) -> (r: Result<ConnHandle, FromHciBytesError>) {
        match <ConnHandle as FromHciBytes>::from_hci_bytes(data) {
            Ok((x, _)) => Ok(x),
            Err(e) => Err(e),
        }
    }

    fn return_from_hci_bytes(data: &[u8]) -> (r: Result<LeReadPhyReturn, FromHciBytesError>) {
        <LeReadPhyReturn as FromHciBytes>::from_hci_bytes_complete(data)
    }
}

/// Parameters for the [`LeSetDefaultPhy`] command.
#[derive(Debug, Clone, Copy, PartialEq, Eq, PartialOrd, Ord, Hash)]
#[allow(missing_docs)]
pub struct LeSetDefaultPhyParams {
    pub all_phys: AllPhys,
    pub tx_phys: PhyMask,
    pub rx_phys: PhyMask,
}

/// The value of a [`LeSetDefaultPhyParams`], with byte slices taken as sequences.
#[allow(missing_docs)]
pub struct LeSetDefaultPhyParamsView {
    pub all_phys: u8,
    pub tx_phys: u8,
    pub rx_phys: u8,
}

impl View for LeSetDefaultPhyParams {
    type V = LeSetDefaultPhyParamsView;

    open spec fn view(&self) -> LeSetDefaultPhyParamsView {
        LeSetDefaultPhyParamsView { all_phys: self.all_phys@, tx_phys: self.tx_phys@, rx_phys: self.rx_phys@ }
    }
}

impl WriteHci for LeSetDefaultPhyParams {
    open spec fn spec_hci_bytes(&self) -> Seq<u8> {
        self.all_phys.spec_hci_bytes() + self.tx_phys.spec_hci_bytes() + self.rx_phys.spec_hci_bytes()
    }

    fn size(&self) -> (r: usize) {
        let mut n = self.all_phys.size();
        proof {
            assert(self.all_phys.spec_hci_bytes() + self.tx_phys.spec_hci_bytes() =~= (self.all_phys.spec_hci_bytes() + self.tx_phys.spec_hci_bytes()));
        }
        n = n + self.tx_phys.size();
        proof {
            assert(self.all_phys.spec_hci_bytes() + self.tx_phys.spec_hci_bytes() + self.rx_phys.spec_hci_bytes() =~= (self.all_phys.spec_hci_bytes() + self.tx_phys.spec_hci_bytes() + self.rx_phys.spec_hci_bytes()));
        }
        n = n + self.rx_phys.size();
        n
    }

    fn write_hci(&self, out: &mut Vec<u8>) {
        self.all_phys.write_hci(out);
        self.tx_phys.write_hci(out);
        self.rx_phys.write_hci(out);
        proof {
            assert(out@ =~= old(out)@ + self.spec_hci_bytes());
        }
    }
}

impl LeSetDefaultPhyParams {
    /// The bytes of a `LeSetDefaultPhyParams` are the bytes of its fields, one after the
    /// other, in the order in which the fields are declared.
    pub proof fn lemma_fields_in_order(&self)
        ensures
            self.spec_hci_bytes() == self.all_phys.spec_hci_bytes() + self.tx_phys.spec_hci_bytes() + self.rx_phys.spec_hci_bytes(),
    {
    }
}


/// The LeSetDefaultPhy command (group LE, command 0x0031).
#[derive(Debug, Clone, Copy, PartialEq, Eq, PartialOrd, Ord, Hash)]
pub struct LeSetDefaultPhy(LeSetDefaultPhyParams);

impl LeSetDefaultPhy {
    /// Create a new instance of the command.
    pub fn new(all_phys: AllPhys, tx_phys: PhyMask, rx_phys: PhyMask) -> (result: Self)
        ensures
            result.spec_params() == (LeSetDefaultPhyParams { all_phys: all_phys, tx_phys: tx_phys, rx_phys: rx_phys }),
    {
        LeSetDefaultPhy(LeSetDefaultPhyParams { all_phys: all_phys, tx_phys: tx_phys, rx_phys: rx_phys })
    }

    /// This command's opcode is group LE, command 0x0031: 0x2031.
    pub proof fn lemma_opcode()
        ensures
            Self::spec_opcode() == 0x2031,
    {
        lemma_opcode_value(LE, 0x0031);
    }
}

impl Cmd for LeSetDefaultPhy {
    type Params = LeSetDefaultPhyParams;

    open spec fn spec_opcode() -> u16 {
        spec_opcode_raw(LE, 0x0031)
    }

    closed spec fn spec_params(&self) -> LeSetDefaultPhyParams {
        self.0
    }

    fn opcode() -> (r: Opcode) {
        Opcode::new(OpcodeGroup::new(LE), 0x0031)
    }

    fn params(&self) -> (r: &LeSetDefaultPhyParams) {
        &self.0
    }

    proof fn lemma_packet(&self) {
    }
}

impl WriteHci for LeSetDefaultPhy {
    closed spec fn spec_hci_bytes(&self) -> Seq<u8> {
        spec_cmd_packet(spec_opcode_raw(LE, 0x0031), self.0.spec_hci_bytes())
    }

    fn size(&self) -> (r: usize) {
        self.0.size() + 3
    }

    fn write_hci(&self, out: &mut Vec<u8>) {
        write_cmd_packet(Opcode::new(OpcodeGroup::new(LE), 0x0031), &self.0, out);
    }
}

impl SyncCmd for LeSetDefaultPhy {
    type Return = ();
    type Handle = ();

    open spec fn spec_handle_ok(data: Seq<u8>, h: ()) -> bool {
        true
    }

    open spec fn spec_handle_err(data: Seq<u8>, e: FromHciBytesError) -> bool {
        false
    }

    open spec fn spec_return_ok(data: Seq<u8>, v: ()) -> bool {
        spec_decodes_complete::<()>(data, v)
    }

    open spec fn spec_return_err(data: Seq<u8>, e: FromHciBytesError) -> bool {
        spec_decode_complete_err::<()>(data, e)
    }

    fn param_handle(&self) -> (r: ())
        ensures
            r == (),
    {
    }

    fn return_handle(data: &[u8]) -> (r: Result<(), FromHciBytesError>) {
        Ok(())
    }

    fn return_from_hci_bytes(data: &[u8]) -> (r: Result<(), FromHciBytesError>) {
        <() as FromHciBytes>::from_hci_bytes_complete(data)
    }
}

/// Parameters for the [`LeSetPhy`] command.
#[derive(Debug, Clone, Copy, PartialEq, Eq, PartialOrd, Ord, Hash)]
#[allow(missing_docs)]
pub struct LeSetPhyParams {
    pub handle: ConnHandle,
    pub all_phys: AllPhys,
    pub tx_phys: PhyMask,
    pub rx_phys: PhyMask,
    pub phy_options: PhyOptions,
}

/// The value of a [`LeSetPhyParams`], with byte slices taken as sequences.
#[allow(missing_docs)]
pub struct LeSetPhyParamsView {
    pub handle: u16,
    pub all_phys: u8,
    pub tx_phys: u8,
    pub rx_phys: u8,
    pub phy_options: PhyOptions,
}

impl View for LeSetPhyParams {
    type V = LeSetPhyParamsView;

    open spec fn view(&self) -> LeSetPhyParamsView {
        LeSetPhyParamsView { handle: self.handle@, all_phys: self.all_phys@, tx_phys: self.tx_phys@, rx_phys: self.rx_phys@, phy_options: self.phy_options@ }
    }
}

impl WriteHci for LeSetPhyParams {
    open spec fn spec_hci_bytes(&self) -> Seq<u8> {
        self.handle.spec_hci_bytes() + self.all_phys.spec_hci_bytes() + self.tx_phys.spec_hci_bytes() + self.rx_phys.spec_hci_bytes() + self.phy_options.spec_hci_bytes()
    }

    fn size(&self) -> (r: usize) {
        let mut n = self.handle.size();
        proof {
            assert(self.handle.spec_hci_bytes() + self.all_phys.spec_hci_bytes() =~= (self.handle.spec_hci_bytes() + self.all_phys.spec_hci_bytes()));
        }
        n = n + self.all_phys.size();
        proof {
            assert(self.handle.spec_hci_bytes() + self.all_phys.spec_hci_bytes() + self.tx_phys.spec_hci_bytes() =~= (self.handle.spec_hci_bytes() + self.all_phys.spec_hci_bytes() + self.tx_phys.spec_hci_bytes()));
        }
        n = n + self.tx_phys.size();
        proof {
            assert(self.handle.spec_hci_bytes() + self.all_phys.spec_hci_bytes() + self.tx_phys.spec_hci_bytes() + self.rx_phys.spec_hci_bytes() =~= (self.handle.spec_hci_bytes() + self.all_phys.spec_hci_bytes() + self.tx_phys.spec_hci_bytes() + self.rx_phys.spec_hci_bytes()));
        }
        n = n + self.rx_phys.size();
        proof {
            assert(self.handle.spec_hci_bytes() + self.all_phys.spec_hci_bytes() + self.tx_phys.spec_hci_bytes() + self.rx_phys.spec_hci_bytes() + self.phy_options.spec_hci_bytes() =~= (self.handle.spec_hci_bytes() + self.all_phys.spec_hci_bytes() + self.tx_phys.spec_hci_bytes() + self.rx_phys.spec_hci_bytes() + self.phy_options.spec_hci_bytes()));
        }
        n = n + self.phy_options.size();
        n
    }

    fn write_hci(&self, out: &mut Vec<u8>) {
        self.handle.write_hci(out);
        self.all_phys.write_hci(out);
        self.tx_phys.write_hci(out);
        self.rx_phys.write_hci(out);
        self.phy_options.write_hci(out);
        proof {
            assert(out@ =~= old(out)@ + self.spec_hci_bytes());
        }
    }
}

impl LeSetPhyParams {
    /// The bytes of a `LeSetPhyParams` are the bytes of its fields, one after the
    /// other, in the order in which the fields are declared.
    pub proof fn lemma_fields_in_order(&self)
        ensures
            self.spec_hci_bytes() == self.handle.spec_hci_bytes() + self.all_phys.spec_hci_bytes() + self.tx_phys.spec_hci_bytes() + self.rx_phys.spec_hci_bytes() + self.phy_options.spec_hci_bytes(),
    {
    }
}


/// The LeSetPhy command (group LE, command 0x0032).
#[derive(Debug, Clone, Copy, PartialEq, Eq, PartialOrd, Ord, Hash)]
pub struct LeSetPhy(LeSetPhyParams);

impl LeSetPhy {
    /// Create a new instance of the command.
    pub fn new(handle: ConnHandle, all_phys: AllPhys, tx_phys: PhyMask, rx_phys: PhyMask, phy_options: PhyOptions) -> (result: Self)
        ensures
            result.spec_params() == (LeSetPhyParams { handle: handle, all_phys: all_phys, tx_phys: tx_phys, rx_phys: rx_phys, phy_options: phy_options }),
    {
        LeSetPhy(LeSetPhyParams { handle: handle, all_phys: all_phys, tx_phys: tx_phys, rx_phys: rx_phys, phy_options: phy_options })
    }

    /// This command's opcode is group LE, command 0x0032: 0x2032.
    pub proof fn lemma_opcode()
        ensures
            Self::spec_opcode() == 0x2032,
    {
        lemma_opcode_value(LE, 0x0032);
    }
}

impl Cmd for LeSetPhy {
    type Params = LeSetPhyParams;

    open spec fn spec_opcode() -> u16 {
        spec_opcode_raw(LE, 0x0032)
    }

    closed spec fn spec_params(&self) -> LeSetPhyParams {
        self.0
    }

    fn opcode() -> (r: Opcode) {
        Opcode::new(OpcodeGroup::new(LE), 0x0032)
    }

    fn params(&self) -> (r: &LeSetPhyParams) {
        &self.0
    }

    proof fn lemma_packet(&self) {
    }
}

impl WriteHci for LeSetPhy {
    closed spec fn spec_hci_bytes(&self) -> Seq<u8> {
        spec_cmd_packet(spec_opcode_raw(LE, 0x0032), self.0.spec_hci_bytes())
    }

    fn size(&self) -> (r: usize) {
        self.0.size() + 3
    }

    fn write_hci(&self, out: &mut Vec<u8>) {
        write_cmd_packet(Opcode::new(OpcodeGroup::new(LE), 0x0032), &self.0, out);
    }
}

impl AsyncCmd for LeSetPhy {
}

/// Parameters for the [`LeSetAdvSetRandomAddr`] command.
#[derive(Debug, Clone, Copy, PartialEq, Eq, PartialOrd, Ord, Hash)]
#[allow(missing_docs)]
pub struct LeSetAdvSetRandomAddrParams {
    pub adv_handle: AdvHandle,
    pub random_addr: BdAddr,
}

/// The value of a [`LeSetAdvSetRandomAddrParams`], with byte slices taken as sequences.
#[allow(missing_docs)]
pub struct LeSetAdvSetRandomAddrParamsView {
    pub adv_handle: u8,
    pub random_addr: Seq<u8>,
}

impl View for LeSetAdvSetRandomAddrParams {
    type V = LeSetAdvSetRandomAddrParamsView;

    open spec fn view(&self) -> LeSetAdvSetRandomAddrParamsView {
        LeSetAdvSetRandomAddrParamsView { adv_handle: self.adv_handle@, random_addr: self.random_addr@ }
    }
}

impl WriteHci for LeSetAdvSetRandomAddrParams {
    open spec fn spec_hci_bytes(&self) -> Seq<u8> {
        self.adv_handle.spec_hci_bytes() + self.random_addr.spec_hci_bytes()
    }

    fn size(&self) -> (r: usize) {
        let mut n = self.adv_handle.size();
        proof {
            assert(self.adv_handle.spec_hci_bytes() + self.random_addr.spec_hci_bytes() =~= (self.adv_handle.spec_hci_bytes() + self.random_addr.spec_hci_bytes()));
        }
        n = n + self.random_addr.size();
        n
    }

    fn write_hci(&self, out: &mut Vec<u8>) {
        self.adv_handle.write_hci(out);
        self.random_addr.write_hci(out);
        proof {
            assert(out@ =~= old(out)@ + self.spec_hci_bytes());
        }
    }
}

impl LeSetAdvSetRandomAddrParams {
    /// The bytes of a `LeSetAdvSetRandomAddrParams` are the bytes of its fields, one after the
    /// other, in the order in which the fields are declared.
    pub proof fn lemma_fields_in_order(&self)
        ensures
            self.spec_hci_bytes() == self.adv_handle.spec_hci_bytes() + self.random_addr.spec_hci_bytes(),
    {
    }
}


/// The LeSetAdvSetRandomAddr command (group LE, command 0x0035).
#[derive(Debug, Clone, Copy, PartialEq, Eq, PartialOrd, Ord, Hash)]
pub struct LeSetAdvSetRandomAddr(LeSetAdvSetRandomAddrParams);

impl LeSetAdvSetRandomAddr {
    /// Create a new instance of the command.
    pub fn new(adv_handle: AdvHandle, random_addr: BdAddr) -> (result: Self)
        ensures
            result.spec_params() == (LeSetAdvSetRandomAddrParams { adv_handle: adv_handle, random_addr: random_addr }),
    {
        LeSetAdvSetRandomAddr(LeSetAdvSetRandomAddrParams { adv_handle: adv_handle, random_addr: random_addr })
    }

    /// This command's opcode is group LE, command 0x0035: 0x2035.
    pub proof fn lemma_opcode()
        ensures
            Self::spec_opcode() == 0x2035,
    {
        lemma_opcode_value(LE, 0x0035);
    }
}

impl Cmd for LeSetAdvSetRandomAddr {
    type Params = LeSetAdvSetRandomAddrParams;

    open spec fn spec_opcode() -> u16 {
        spec_opcode_raw(LE, 0x0035)
    }

    closed spec fn spec_params(&self) -> LeSetAdvSetRandomAddrParams {
        self.0
    }

    fn opcode() -> (r: Opcode) {
        Opcode::new(OpcodeGroup::new(LE), 0x0035)
    }

    fn params(&self) -> (r: &LeSetAdvSetRandomAddrParams) {
        &self.0
    }

    proof fn lemma_packet(&self) {
    }
}

impl WriteHci for LeSetAdvSetRandomAddr {
    closed spec fn spec_hci_bytes(&self) -> Seq<u8> {
        spec_cmd_packet(spec_opcode_raw(LE, 0x0035), self.0.spec_hci_bytes())
    }

    fn size(&self) -> (r: usize) {
        self.0.size() + 3
    }

    fn write_hci(&self, out: &mut Vec<u8>) {
        write_cmd_packet(Opcode::new(OpcodeGroup::new(LE), 0x0035), &self.0, out);
    }
}

impl SyncCmd for LeSetAdvSetRandomAddr {
    type Return = ();
    type Handle = ();

    open spec fn spec_handle_ok(data: Seq<u8>, h: ()) -> bool {
        true
    }

    open spec fn spec_handle_err(data: Seq<u8>, e: FromHciBytesError) -> bool {
        false
    }

    open spec fn spec_return_ok(data: Seq<u8>, v: ()) -> bool {
        spec_decodes_complete::<()>(data, v)
    }

    open spec fn spec_return_err(data: Seq<u8>, e: FromHciBytesError) -> bool {
        spec_decode_complete_err::<()>(data, e)
    }

    fn param_handle(&self) -> (r: ())
        ensures
            r == (),
    {
    }

    fn return_handle(data: &[u8]) -> (r: Result<(), FromHciBytesError>) {
        Ok(())
    }

    fn return_from_hci_bytes(data: &[u8]) -> (r: Result<(), FromHciBytesError>) {
        <() as FromHciBytes>::from_hci_bytes_complete(data)
    }
}

/// Parameters for the [`LeSetExtAdvParams`] command.
#[derive(Debug, Clone, Copy, PartialEq, Eq, PartialOrd, Ord, Hash)]
#[allow(missing_docs)]
pub struct LeSetExtAdvParamsParams {
    pub adv_handle: AdvHandle,
    pub adv_event_props: AdvEventProps,
    pub primary_adv_interval_min: ExtDuration<625>,
    pub primary_adv_interval_max: ExtDuration<625>,
    pub primary_adv_channel_map: AdvChannelMap,
    pub own_addr_kind: AddrKind,
    pub peer_addr_kind: AddrKind,
    pub peer_addr: BdAddr,
    pub adv_filter_policy: AdvFilterPolicy,
    pub adv_tx_power: i8,
    pub primary_adv_phy: PhyKind,
    pub secondary_adv_max_skip: u8,
    pub secondary_adv_phy: PhyKind,
    pub adv_sid: u8,
    pub scan_request_notification_enable: bool,
}

/// The value of a [`LeSetExtAdvParamsParams`], with byte slices taken as sequences.
#[allow(missing_docs)]
pub struct LeSetExtAdvParamsParamsView {
    pub adv_handle: u8,
    pub adv_event_props: Seq<u8>,
    pub primary_adv_interval_min: u32,
    pub primary_adv_interval_max: u32,
    pub primary_adv_channel_map: u8,
    pub own_addr_kind: u8,
    pub peer_addr_kind: u8,
    pub peer_addr: Seq<u8>,
    pub adv_filter_policy: AdvFilterPolicy,
    pub adv_tx_power: i8,
    pub primary_adv_phy: PhyKind,
    pub secondary_adv_max_skip: u8,
    pub secondary_adv_phy: PhyKind,
    pub adv_sid: u8,
    pub scan_request_notification_enable: bool,
}

impl View for LeSetExtAdvParamsParams {
    type V = LeSetExtAdvParamsParamsView;

    open spec fn view(&self) -> LeSetExtAdvParamsParamsView {
        LeSetExtAdvParamsParamsView { adv_handle: self.adv_handle@, adv_event_props: self.adv_event_props@, primary_adv_interval_min: self.primary_adv_interval_min@, primary_adv_interval_max: self.primary_adv_interval_max@, primary_adv_channel_map: self.primary_adv_channel_map@, own_addr_kind: self.own_addr_kind@, peer_addr_kind: self.peer_addr_kind@, peer_addr: self.peer_addr@, adv_filter_policy: self.adv_filter_policy@, adv_tx_power: self.adv_tx_power@, primary_adv_phy: self.primary_adv_phy@, secondary_adv_max_skip: self.secondary_adv_max_skip@, secondary_adv_phy: self.secondary_adv_phy@, adv_sid: self.adv_sid@, scan_request_notification_enable: self.scan_request_notification_enable@ }
    }
}

impl WriteHci for LeSetExtAdvParamsParams {
    open spec fn spec_hci_bytes(&self) -> Seq<u8> {
        self.adv_handle.spec_hci_bytes() + self.adv_event_props.spec_hci_bytes() + self.primary_adv_interval_min.spec_hci_bytes() + self.primary_adv_interval_max.spec_hci_bytes() + self.primary_adv_channel_map.spec_hci_bytes() + self.own_addr_kind.spec_hci_bytes() + self.peer_addr_kind.spec_hci_bytes() + self.peer_addr.spec_hci_bytes() + self.adv_filter_policy.spec_hci_bytes() + self.adv_tx_power.spec_hci_bytes() + self.primary_adv_phy.spec_hci_bytes() + self.secondary_adv_max_skip.spec_hci_bytes() + self.secondary_adv_phy.spec_hci_bytes() + self.adv_sid.spec_hci_bytes() + self.scan_request_notification_enable.spec_hci_bytes()
    }

    fn size(&self) -> (r: usize) {
        let mut n = self.adv_handle.size();
        proof {
            assert(self.adv_handle.spec_hci_bytes() + self.adv_event_props.spec_hci_bytes() =~= (self.adv_handle.spec_hci_bytes() + self.adv_event_props.spec_hci_bytes()));
        }
        n = n + self.adv_event_props.size();
        proof {
            assert(self.adv_handle.spec_hci_bytes() + self.adv_event_props.spec_hci_bytes() + self.primary_adv_interval_min.spec_hci_bytes() =~= (self.adv_handle.spec_hci_bytes() + self.adv_event_props.spec_hci_bytes() + self.primary_adv_interval_min.spec_hci_bytes()));
        }
        n = n + self.primary_adv_interval_min.size();
        proof {
            assert(self.adv_handle.spec_hci_bytes() + self.adv_event_props.spec_hci_bytes() + self.primary_adv_interval_min.spec_hci_bytes() + self.primary_adv_interval_max.spec_hci_bytes() =~= (self.adv_handle.spec_hci_bytes() + self.adv_event_props.spec_hci_bytes() + self.primary_adv_interval_min.spec_hci_bytes() + self.primary_adv_interval_max.spec_hci_bytes()));
        }
        n = n + self.primary_adv_interval_max.size();
        proof {
            assert(self.adv_handle.spec_hci_bytes() + self.adv_event_props.spec_hci_bytes() + self.primary_adv_interval_min.spec_hci_bytes() + self.primary_adv_interval_max.spec_hci_bytes() + self.primary_adv_channel_map.spec_hci_bytes() =~= (self.adv_handle.spec_hci_bytes() + self.adv_event_props.spec_hci_bytes() + self.primary_adv_interval_min.spec_hci_bytes() + self.primary_adv_interval_max.spec_hci_bytes() + self.primary_adv_channel_map.spec_hci_bytes()));
        }
        n = n + self.primary_adv_channel_map.size();
        proof {
            assert(self.adv_handle.spec_hci_bytes() + self.adv_event_props.spec_hci_bytes() + self.primary_adv_interval_min.spec_hci_bytes() + self.primary_adv_interval_max.spec_hci_bytes() + self.primary_adv_channel_map.spec_hci_bytes() + self.own_addr_kind.spec_hci_bytes() =~= (self.adv_handle.spec_hci_bytes() + self.adv_event_props.spec_hci_bytes() + self.primary_adv_interval_min.spec_hci_bytes() + self.primary_adv_interval_max.spec_hci_bytes() + self.primary_adv_channel_map.spec_hci_bytes() + self.own_addr_kind.spec_hci_bytes()));
        }
        n = n + self.own_addr_kind.size();
        proof {
            assert(self.adv_handle.spec_hci_bytes() + self.adv_event_props.spec_hci_bytes() + self.primary_adv_interval_min.spec_hci_bytes() + self.primary_adv_interval_max.spec_hci_bytes() + self.primary_adv_channel_map.spec_hci_bytes() + self.own_addr_kind.spec_hci_bytes() + self.peer_addr_kind.spec_hci_bytes() =~= (self.adv_handle.spec_hci_bytes() + self.adv_event_props.spec_hci_bytes() + self.primary_adv_interval_min.spec_hci_bytes() + self.primary_adv_interval_max.spec_hci_bytes() + self.primary_adv_channel_map.spec_hci_bytes() + self.own_addr_kind.spec_hci_bytes() + self.peer_addr_kind.spec_hci_bytes()));
        }
        n = n + self.peer_addr_kind.size();
        proof {
            assert(self.adv_handle.spec_hci_bytes() + self.adv_event_props.spec_hci_bytes() + self.primary_adv_interval_min.spec_hci_bytes() + self.primary_adv_interval_max.spec_hci_bytes() + self.primary_adv_channel_map.spec_hci_bytes() + self.own_addr_kind.spec_hci_bytes() + self.peer_addr_kind.spec_hci_bytes() + self.peer_addr.spec_hci_bytes() =~= (self.adv_handle.spec_hci_bytes() + self.adv_event_props.spec_hci_bytes() + self.primary_adv_interval_min.spec_hci_bytes() + self.primary_adv_interval_max.spec_hci_bytes() + self.primary_adv_channel_map.spec_hci_bytes() + self.own_addr_kind.spec_hci_bytes() + self.peer_addr_kind.spec_hci_bytes() + self.peer_addr.spec_hci_bytes()));
        }
        n = n + self.peer_addr.size();
        proof {
            assert(self.adv_handle.spec_hci_bytes() + self.adv_event_props.spec_hci_bytes() + self.primary_adv_interval_min.spec_hci_bytes() + self.primary_adv_interval_max.spec_hci_bytes() + self.primary_adv_channel_map.spec_hci_bytes() + self.own_addr_kind.spec_hci_bytes() + self.peer_addr_kind.spec_hci_bytes() + self.peer_addr.spec_hci_bytes() + self.adv_filter_policy.spec_hci_bytes() =~= (self.adv_handle.spec_hci_bytes() + self.adv_event_props.spec_hci_bytes() + self.primary_adv_interval_min.spec_hci_bytes() + self.primary_adv_interval_max.spec_hci_bytes() + self.primary_adv_channel_map.spec_hci_bytes() + self.own_addr_kind.spec_hci_bytes() + self.peer_addr_kind.spec_hci_bytes() + self.peer_addr.spec_hci_bytes() + self.adv_filter_policy.spec_hci_bytes()));
        }
        n = n + self.adv_filter_policy.size();
        proof {
            assert(self.adv_handle.spec_hci_bytes() + self.adv_event_props.spec_hci_bytes() + self.primary_adv_interval_min.spec_hci_bytes() + self.primary_adv_interval_max.spec_hci_bytes() + self.primary_adv_channel_map.spec_hci_bytes() + self.own_addr_kind.spec_hci_bytes() + self.peer_addr_kind.spec_hci_bytes() + self.peer_addr.spec_hci_bytes() + self.adv_filter_policy.spec_hci_bytes() + self.adv_tx_power.spec_hci_bytes() =~= (self.adv_handle.spec_hci_bytes() + self.adv_event_props.spec_hci_bytes() + self.primary_adv_interval_min.spec_hci_bytes() + self.primary_adv_interval_max.spec_hci_bytes() + self.primary_adv_channel_map.spec_hci_bytes() + self.own_addr_kind.spec_hci_bytes() + self.peer_addr_kind.spec_hci_bytes() + self.peer_addr.spec_hci_bytes() + self.adv_filter_policy.spec_hci_bytes() + self.adv_tx_power.spec_hci_bytes()));
        }
        n = n + self.adv_tx_power.size();
        proof {
            assert(self.adv_handle.spec_hci_bytes() + self.adv_event_props.spec_hci_bytes() + self.primary_adv_interval_min.spec_hci_bytes() + self.primary_adv_interval_max.spec_hci_bytes() + self.primary_adv_channel_map.spec_hci_bytes() + self.own_addr_kind.spec_hci_bytes() + self.peer_addr_kind.spec_hci_bytes() + self.peer_addr.spec_hci_bytes() + self.adv_filter_policy.spec_hci_bytes() + self.adv_tx_power.spec_hci_bytes() + self.primary_adv_phy.spec_hci_bytes() =~= (self.adv_handle.spec_hci_bytes() + self.adv_event_props.spec_hci_bytes() + self.primary_adv_interval_min.spec_hci_bytes() + self.primary_adv_interval_max.spec_hci_bytes() + self.primary_adv_channel_map.spec_hci_bytes() + self.own_addr_kind.spec_hci_bytes() + self.peer_addr_kind.spec_hci_bytes() + self.peer_addr.spec_hci_bytes() + self.adv_filter_policy.spec_hci_bytes() + self.adv_tx_power.spec_hci_bytes() + self.primary_adv_phy.spec_hci_bytes()));
        }
        n = n + self.primary_adv_phy.size();
        proof {
            assert(self.adv_handle.spec_hci_bytes() + self.adv_event_props.spec_hci_bytes() + self.primary_adv_interval_min.spec_hci_bytes() + self.primary_adv_interval_max.spec_hci_bytes() + self.primary_adv_channel_map.spec_hci_bytes() + self.own_addr_kind.spec_hci_bytes() + self.peer_addr_kind.spec_hci_bytes() + self.peer_addr.spec_hci_bytes() + self.adv_filter_policy.spec_hci_bytes() + self.adv_tx_power.spec_hci_bytes() + self.primary_adv_phy.spec_hci_bytes() + self.secondary_adv_max_skip.spec_hci_bytes() =~= (self.adv_handle.spec_hci_bytes() + self.adv_event_props.spec_hci_bytes() + self.primary_adv_interval_min.spec_hci_bytes() + self.primary_adv_interval_max.spec_hci_bytes() + self.primary_adv_channel_map.spec_hci_bytes() + self.own_addr_kind.spec_hci_bytes() + self.peer_addr_kind.spec_hci_bytes() + self.peer_addr.spec_hci_bytes() + self.adv_filter_policy.spec_hci_bytes() + self.adv_tx_power.spec_hci_bytes() + self.primary_adv_phy.spec_hci_bytes() + self.secondary_adv_max_skip.spec_hci_bytes()));
        }
        n = n + self.secondary_adv_max_skip.size();
        proof {
            assert(self.adv_handle.spec_hci_bytes() + self.adv_event_props.spec_hci_bytes() + self.primary_adv_interval_min.spec_hci_bytes() + self.primary_adv_interval_max.spec_hci_bytes() + self.primary_adv_channel_map.spec_hci_bytes() + self.own_addr_kind.spec_hci_bytes() + self.peer_addr_kind.spec_hci_bytes() + self.peer_addr.spec_hci_bytes() + self.adv_filter_policy.spec_hci_bytes() + self.adv_tx_power.spec_hci_bytes() + self.primary_adv_phy.spec_hci_bytes() + self.secondary_adv_max_skip.spec_hci_bytes() + self.secondary_adv_phy.spec_hci_bytes() =~= (self.adv_handle.spec_hci_bytes() + self.adv_event_props.spec_hci_bytes() + self.primary_adv_interval_min.spec_hci_bytes() + self.primary_adv_interval_max.spec_hci_bytes() + self.primary_adv_channel_map.spec_hci_bytes() + self.own_addr_kind.spec_hci_bytes() + self.peer_addr_kind.spec_hci_bytes() + self.peer_addr.spec_hci_bytes() + self.adv_filter_policy.spec_hci_bytes() + self.adv_tx_power.spec_hci_bytes() + self.primary_adv_phy.spec_hci_bytes() + self.secondary_adv_max_skip.spec_hci_bytes() + self.secondary_adv_phy.spec_hci_bytes()));
        }
        n = n + self.secondary_adv_phy.size();
        proof {
            assert(self.adv_handle.spec_hci_bytes() + self.adv_event_props.spec_hci_bytes() + self.primary_adv_interval_min.spec_hci_bytes() + self.primary_adv_interval_max.spec_hci_bytes() + self.primary_adv_channel_map.spec_hci_bytes() + self.own_addr_kind.spec_hci_bytes() + self.peer_addr_kind.spec_hci_bytes() + self.peer_addr.spec_hci_bytes() + self.adv_filter_policy.spec_hci_bytes() + self.adv_tx_power.spec_hci_bytes() + self.primary_adv_phy.spec_hci_bytes() + self.secondary_adv_max_skip.spec_hci_bytes() + self.secondary_adv_phy.spec_hci_bytes() + self.adv_sid.spec_hci_bytes() =~= (self.adv_handle.spec_hci_bytes() + self.adv_event_props.spec_hci_bytes() + self.primary_adv_interval_min.spec_hci_bytes() + self.primary_adv_interval_max.spec_hci_bytes() + self.primary_adv_channel_map.spec_hci_bytes() + self.own_addr_kind.spec_hci_bytes() + self.peer_addr_kind.spec_hci_bytes() + self.peer_addr.spec_hci_bytes() + self.adv_filter_policy.spec_hci_bytes() + self.adv_tx_power.spec_hci_bytes() + self.primary_adv_phy.spec_hci_bytes() + self.secondary_adv_max_skip.spec_hci_bytes() + self.secondary_adv_phy.spec_hci_bytes() + self.adv_sid.spec_hci_bytes()));
        }
        n = n + self.adv_sid.size();
        proof {
            assert(self.adv_handle.spec_hci_bytes() + self.adv_event_props.spec_hci_bytes() + self.primary_adv_interval_min.spec_hci_bytes() + self.primary_adv_interval_max.spec_hci_bytes() + self.primary_adv_channel_map.spec_hci_bytes() + self.own_addr_kind.spec_hci_bytes() + self.peer_addr_kind.spec_hci_bytes() + self.peer_addr.spec_hci_bytes() + self.adv_filter_policy.spec_hci_bytes() + self.adv_tx_power.spec_hci_bytes() + self.primary_adv_phy.spec_hci_bytes() + self.secondary_adv_max_skip.spec_hci_bytes() + self.secondary_adv_phy.spec_hci_bytes() + self.adv_sid.spec_hci_bytes() + self.scan_request_notification_enable.spec_hci_bytes() =~= (self.adv_handle.spec_hci_bytes() + self.adv_event_props.spec_hci_bytes() + self.primary_adv_interval_min.spec_hci_bytes() + self.primary_adv_interval_max.spec_hci_bytes() + self.primary_adv_channel_map.spec_hci_bytes() + self.own_addr_kind.spec_hci_bytes() + self.peer_addr_kind.spec_hci_bytes() + self.peer_addr.spec_hci_bytes() + self.adv_filter_policy.spec_hci_bytes() + self.adv_tx_power.spec_hci_bytes() + self.primary_adv_phy.spec_hci_bytes() + self.secondary_adv_max_skip.spec_hci_bytes() + self.secondary_adv_phy.spec_hci_bytes() + self.adv_sid.spec_hci_bytes() + self.scan_request_notification_enable.spec_hci_bytes()));
        }
        n = n + self.scan_request_notification_enable.size();
        n
    }

    fn write_hci(&self, out: &mut Vec<u8>) {
        self.adv_handle.write_hci(out);
        self.adv_event_props.write_hci(out);
        self.primary_adv_interval_min.write_hci(out);
        self.primary_adv_interval_max.write_hci(out);
        self.primary_adv_channel_map.write_hci(out);
        self.own_addr_kind.write_hci(out);
        self.peer_addr_kind.write_hci(out);
        self.peer_addr.write_hci(out);
        self.adv_filter_policy.write_hci(out);
        self.adv_tx_power.write_hci(out);
        self.primary_adv_phy.write_hci(out);
        self.secondary_adv_max_skip.write_hci(out);
        self.secondary_adv_phy.write_hci(out);
        self.adv_sid.write_hci(out);
        self.scan_request_notification_enable.write_hci(out);
        proof {
            assert(out@ =~= old(out)@ + self.spec_hci_bytes());
        }
    }
}

impl LeSetExtAdvParamsParams {
    /// The bytes of a `LeSetExtAdvParamsParams` are the bytes of its fields, one after the
    /// other, in the order in which the fields are declared.
    #[verifier::rlimit(60)]
    pub proof fn lemma_fields_in_order(&self)
        ensures
            self.spec_hci_bytes() == self.adv_handle.spec_hci_bytes() + self.adv_event_props.spec_hci_bytes() + self.primary_adv_interval_min.spec_hci_bytes() + self.primary_adv_interval_max.spec_hci_bytes() + self.primary_adv_channel_map.spec_hci_bytes() + self.own_addr_kind.spec_hci_bytes() + self.peer_addr_kind.spec_hci_bytes() + self.peer_addr.spec_hci_bytes() + self.adv_filter_policy.spec_hci_bytes() + self.adv_tx_power.spec_hci_bytes() + self.primary_adv_phy.spec_hci_bytes() + self.secondary_adv_max_skip.spec_hci_bytes() + self.secondary_adv_phy.spec_hci_bytes() + self.adv_sid.spec_hci_bytes() + self.scan_request_notification_enable.spec_hci_bytes(),
    {
    }
}


/// The LeSetExtAdvParams command (group LE, command 0x0036).
#[derive(Debug, Clone, Copy, PartialEq, Eq, PartialOrd, Ord, Hash)]
pub struct LeSetExtAdvParams(LeSetExtAdvParamsParams);

impl LeSetExtAdvParams {
    /// Create a new instance of the command.
    pub fn new(adv_handle: AdvHandle, adv_event_props: AdvEventProps, primary_adv_interval_min: ExtDuration<625>, primary_adv_interval_max: ExtDuration<625>, primary_adv_channel_map: AdvChannelMap, own_addr_kind: AddrKind, peer_addr_kind: AddrKind, peer_addr: BdAddr, adv_filter_policy: AdvFilterPolicy, adv_tx_power: i8, primary_adv_phy: PhyKind, secondary_adv_max_skip: u8, secondary_adv_phy: PhyKind, adv_sid: u8, scan_request_notification_enable: bool) -> (result: Self)
        ensures
            result.spec_params() == (LeSetExtAdvParamsParams { adv_handle: adv_handle, adv_event_props: adv_event_props, primary_adv_interval_min: primary_adv_interval_min, primary_adv_interval_max: primary_adv_interval_max, primary_adv_channel_map: primary_adv_channel_map, own_addr_kind: own_addr_kind, peer_addr_kind: peer_addr_kind, peer_addr: peer_addr, adv_filter_policy: adv_filter_policy, adv_tx_power: adv_tx_power, primary_adv_phy: primary_adv_phy, secondary_adv_max_skip: secondary_adv_max_skip, secondary_adv_phy: secondary_adv_phy, adv_sid: adv_sid, scan_request_notification_enable: scan_request_notification_enable }),
    {
        LeSetExtAdvParams(LeSetExtAdvParamsParams { adv_handle: adv_handle, adv_event_props: adv_event_props, primary_adv_interval_min: primary_adv_interval_min, primary_adv_interval_max: primary_adv_interval_max, primary_adv_channel_map: primary_adv_channel_map, own_addr_kind: own_addr_kind, peer_addr_kind: peer_addr_kind, peer_addr: peer_addr, adv_filter_policy: adv_filter_policy, adv_tx_power: adv_tx_power, primary_adv_phy: primary_adv_phy, secondary_adv_max_skip: secondary_adv_max_skip, secondary_adv_phy: secondary_adv_phy, adv_sid: adv_sid, scan_request_notification_enable: scan_request_notification_enable })
    }

    /// This command's opcode is group LE, command 0x0036: 0x2036.
    pub proof fn lemma_opcode()
        ensures
            Self::spec_opcode() == 0x2036,
    {
        lemma_opcode_value(LE, 0x0036);
    }
}

impl Cmd for LeSetExtAdvParams {
    type Params = LeSetExtAdvParamsParams;

    open spec fn spec_opcode() -> u16 {
        spec_opcode_raw(LE, 0x0036)
    }

    closed spec fn spec_params(&self) -> LeSetExtAdvParamsParams {
        self.0
    }

    fn opcode() -> (r: Opcode) {
        Opcode::new(OpcodeGroup::new(LE), 0x0036)
    }

    fn params(&self) -> (r: &LeSetExtAdvParamsParams) {
        &self.0
    }

    proof fn lemma_packet(&self) {
    }
}

impl WriteHci for LeSetExtAdvParams {
    closed spec fn spec_hci_bytes(&self) -> Seq<u8> {
        spec_cmd_packet(spec_opcode_raw(LE, 0x0036), self.0.spec_hci_bytes())
    }

    fn size(&self) -> (r: usize) {
        self.0.size() + 3
    }

    fn write_hci(&self, out: &mut Vec<u8>) {
        write_cmd_packet(Opcode::new(OpcodeGroup::new(LE), 0x0036), &self.0, out);
    }
}

impl SyncCmd for LeSetExtAdvParams {
    type Return = i8;
    type Handle = ();

    open spec fn spec_handle_ok(data: Seq<u8>, h: ()) -> bool {
        true
    }

    open spec fn spec_handle_err(data: Seq<u8>, e: FromHciBytesError) -> bool {
        false
    }

    open spec fn spec_return_ok(data: Seq<u8>, v: i8) -> bool {
        spec_decodes_complete::<i8>(data, v)
    }

    open spec fn spec_return_err(data: Seq<u8>, e: FromHciBytesError) -> bool {
        spec_decode_complete_err::<i8>(data, e)
    }

    fn param_handle(&self) -> (r: ())
        ensures
            r == (),
    {
    }

    fn return_handle(data: &[u8]) -> (r: Result<(), FromHciBytesError>) {
        Ok(())
    }

    fn return_from_hci_bytes(data: &[u8]) -> (r: Result<i8, FromHciBytesError>) {
        <i8 as FromHciBytes>::from_hci_bytes_complete(data)
    }
}

/// Parameters for the [`LeSetExtAdvParamsV2`] command.
#[derive(Debug, Clone, Copy, PartialEq, Eq, PartialOrd, Ord, Hash)]
#[allow(missing_docs)]
pub struct LeSetExtAdvParamsV2Params {
    pub adv_handle: AdvHandle,
    pub adv_event_props: AdvEventProps,
    pub primary_adv_interval_min: ExtDuration<625>,
    pub primary_adv_interval_max: ExtDuration<625>,
    pub primary_adv_channel_map: AdvChannelMap,
    pub own_addr_kind: AddrKind,
    pub peer_addr_kind: AddrKind,
    pub peer_addr: BdAddr,
    pub adv_filter_policy: AdvFilterPolicy,
    pub adv_tx_power: i8,
    pub primary_adv_phy: PhyKind,
    pub secondary_adv_max_skip: u8,
    pub secondary_adv_phy: PhyKind,
    pub adv_sid: u8,
    pub scan_request_notification_enable: bool,
    pub primary_adv_phy_options: AdvPhyOptions,
    pub secondary_adv_phy_options: AdvPhyOptions,
}

/// The value of a [`LeSetExtAdvParamsV2Params`], with byte slices taken as sequences.
#[allow(missing_docs)]
pub struct LeSetExtAdvParamsV2ParamsView {
    pub adv_handle: u8,
    pub adv_event_props: Seq<u8>,
    pub primary_adv_interval_min: u32,
    pub primary_adv_interval_max: u32,
    pub primary_adv_channel_map: u8,
    pub own_addr_kind: u8,
    pub peer_addr_kind: u8,
    pub peer_addr: Seq<u8>,
    pub adv_filter_policy: AdvFilterPolicy,
    pub adv_tx_power: i8,
    pub primary_adv_phy: PhyKind,
    pub secondary_adv_max_skip: u8,
    pub secondary_adv_phy: PhyKind,
    pub adv_sid: u8,
    pub scan_request_notification_enable: bool,
    pub primary_adv_phy_options: AdvPhyOptions,
    pub secondary_adv_phy_options: AdvPhyOptions,
}

impl View for LeSetExtAdvParamsV2Params {
    type V = LeSetExtAdvParamsV2ParamsView;

    open spec fn view(&self) -> LeSetExtAdvParamsV2ParamsView {
        LeSetExtAdvParamsV2ParamsView { adv_handle: self.adv_handle@, adv_event_props: self.adv_event_props@, primary_adv_interval_min: self.primary_adv_interval_min@, primary_adv_interval_max: self.primary_adv_interval_max@, primary_adv_channel_map: self.primary_adv_channel_map@, own_addr_kind: self.own_addr_kind@, peer_addr_kind: self.peer_addr_kind@, peer_addr: self.peer_addr@, adv_filter_policy: self.adv_filter_policy@, adv_tx_power: self.adv_tx_power@, primary_adv_phy: self.primary_adv_phy@, secondary_adv_max_skip: self.secondary_adv_max_skip@, secondary_adv_phy: self.secondary_adv_phy@, adv_sid: self.adv_sid@, scan_request_notification_enable: self.scan_request_notification_enable@, primary_adv_phy_options: self.primary_adv_phy_options@, secondary_adv_phy_options: self.secondary_adv_phy_options@ }
    }
}

impl WriteHci for LeSetExtAdvParamsV2Params {
    open spec fn spec_hci_bytes(&self) -> Seq<u8> {
        self.adv_handle.spec_hci_bytes() + self.adv_event_props.spec_hci_bytes() + self.primary_adv_interval_min.spec_hci_bytes() + self.primary_adv_interval_max.spec_hci_bytes() + self.primary_adv_channel_map.spec_hci_bytes() + self.own_addr_kind.spec_hci_bytes() + self.peer_addr_kind.spec_hci_bytes() + self.peer_addr.spec_hci_bytes() + self.adv_filter_policy.spec_hci_bytes() + self.adv_tx_power.spec_hci_bytes() + self.primary_adv_phy.spec_hci_bytes() + self.secondary_adv_max_skip.spec_hci_bytes() + self.secondary_adv_phy.spec_hci_bytes() + self.adv_sid.spec_hci_bytes() + self.scan_request_notification_enable.spec_hci_bytes() + self.primary_adv_phy_options.spec_hci_bytes() + self.secondary_adv_phy_options.spec_hci_bytes()
    }

    fn size(&self) -> (r: usize) {
        let mut n = self.adv_handle.size();
        proof {
            assert(self.adv_handle.spec_hci_bytes() + self.adv_event_props.spec_hci_bytes() =~= (self.adv_handle.spec_hci_bytes() + self.adv_event_props.spec_hci_bytes()));
        }
        n = n + self.adv_event_props.size();
        proof {
            assert(self.adv_handle.spec_hci_bytes() + self.adv_event_props.spec_hci_bytes() + self.primary_adv_interval_min.spec_hci_bytes() =~= (self.adv_handle.spec_hci_bytes() + self.adv_event_props.spec_hci_bytes() + self.primary_adv_interval_min.spec_hci_bytes()));
        }
        n = n + self.primary_adv_interval_min.size();
        proof {
            assert(self.adv_handle.spec_hci_bytes() + self.adv_event_props.spec_hci_bytes() + self.primary_adv_interval_min.spec_hci_bytes() + self.primary_adv_interval_max.spec_hci_bytes() =~= (self.adv_handle.spec_hci_bytes() + self.adv_event_props.spec_hci_bytes() + self.primary_adv_interval_min.spec_hci_bytes() + self.primary_adv_interval_max.spec_hci_bytes()));
        }
        n = n + self.primary_adv_interval_max.size();
        proof {
            assert(self.adv_handle.spec_hci_bytes() + self.adv_event_props.spec_hci_bytes() + self.primary_adv_interval_min.spec_hci_bytes() + self.primary_adv_interval_max.spec_hci_bytes() + self.primary_adv_channel_map.spec_hci_bytes() =~= (self.adv_handle.spec_hci_bytes() + self.adv_event_props.spec_hci_bytes() + self.primary_adv_interval_min.spec_hci_bytes() + self.primary_adv_interval_max.spec_hci_bytes() + self.primary_adv_channel_map.spec_hci_bytes()));
        }
        n = n + self.primary_adv_channel_map.size();
        proof {
            assert(self.adv_handle.spec_hci_bytes() + self.adv_event_props.spec_hci_bytes() + self.primary_adv_interval_min.spec_hci_bytes() + self.primary_adv_interval_max.spec_hci_bytes() + self.primary_adv_channel_map.spec_hci_bytes() + self.own_addr_kind.spec_hci_bytes() =~= (self.adv_handle.spec_hci_bytes() + self.adv_event_props.spec_hci_bytes() + self.primary_adv_interval_min.spec_hci_bytes() + self.primary_adv_interval_max.spec_hci_bytes() + self.primary_adv_channel_map.spec_hci_bytes() + self.own_addr_kind.spec_hci_bytes()));
        }
        n = n + self.own_addr_kind.size();
        proof {
            assert(self.adv_handle.spec_hci_bytes() + self.adv_event_props.spec_hci_bytes() + self.primary_adv_interval_min.spec_hci_bytes() + self.primary_adv_interval_max.spec_hci_bytes() + self.primary_adv_channel_map.spec_hci_bytes() + self.own_addr_kind.spec_hci_bytes() + self.peer_addr_kind.spec_hci_bytes() =~= (self.adv_handle.spec_hci_bytes() + self.adv_event_props.spec_hci_bytes() + self.primary_adv_interval_min.spec_hci_bytes() + self.primary_adv_interval_max.spec_hci_bytes() + self.primary_adv_channel_map.spec_hci_bytes() + self.own_addr_kind.spec_hci_bytes() + self.peer_addr_kind.spec_hci_bytes()));
        }
        n = n + self.peer_addr_kind.size();
        proof {
            assert(self.adv_handle.spec_hci_bytes() + self.adv_event_props.spec_hci_bytes() + self.primary_adv_interval_min.spec_hci_bytes() + self.primary_adv_interval_max.spec_hci_bytes() + self.primary_adv_channel_map.spec_hci_bytes() + self.own_addr_kind.spec_hci_bytes() + self.peer_addr_kind.spec_hci_bytes() + self.peer_addr.spec_hci_bytes() =~= (self.adv_handle.spec_hci_bytes() + self.adv_event_props.spec_hci_bytes() + self.primary_adv_interval_min.spec_hci_bytes() + self.primary_adv_interval_max.spec_hci_bytes() + self.primary_adv_channel_map.spec_hci_bytes() + self.own_addr_kind.spec_hci_bytes() + self.peer_addr_kind.spec_hci_bytes() + self.peer_addr.spec_hci_bytes()));
        }
        n = n + self.peer_addr.size();
        proof {
            assert(self.adv_handle.spec_hci_bytes() + self.adv_event_props.spec_hci_bytes() + self.primary_adv_interval_min.spec_hci_bytes() + self.primary_adv_interval_max.spec_hci_bytes() + self.primary_adv_channel_map.spec_hci_bytes() + self.own_addr_kind.spec_hci_bytes() + self.peer_addr_kind.spec_hci_bytes() + self.peer_addr.spec_hci_bytes() + self.adv_filter_policy.spec_hci_bytes() =~= (self.adv_handle.spec_hci_bytes() + self.adv_event_props.spec_hci_bytes() + self.primary_adv_interval_min.spec_hci_bytes() + self.primary_adv_interval_max.spec_hci_bytes() + self.primary_adv_channel_map.spec_hci_bytes() + self.own_addr_kind.spec_hci_bytes() + self.peer_addr_kind.spec_hci_bytes() + self.peer_addr.spec_hci_bytes() + self.adv_filter_policy.spec_hci_bytes()));
        }
        n = n + self.adv_filter_policy.size();
        proof {
            assert(self.adv_handle.spec_hci_bytes() + self.adv_event_props.spec_hci_bytes() + self.primary_adv_interval_min.spec_hci_bytes() + self.primary_adv_interval_max.spec_hci_bytes() + self.primary_adv_channel_map.spec_hci_bytes() + self.own_addr_kind.spec_hci_bytes() + self.peer_addr_kind.spec_hci_bytes() + self.peer_addr.spec_hci_bytes() + self.adv_filter_policy.spec_hci_bytes() + self.adv_tx_power.spec_hci_bytes() =~= (self.adv_handle.spec_hci_bytes() + self.adv_event_props.spec_hci_bytes() + self.primary_adv_interval_min.spec_hci_bytes() + self.primary_adv_interval_max.spec_hci_bytes() + self.primary_adv_channel_map.spec_hci_bytes() + self.own_addr_kind.spec_hci_bytes() + self.peer_addr_kind.spec_hci_bytes() + self.peer_addr.spec_hci_bytes() + self.adv_filter_policy.spec_hci_bytes() + self.adv_tx_power.spec_hci_bytes()));
        }
        n = n + self.adv_tx_power.size();
        proof {
            assert(self.adv_handle.spec_hci_bytes() + self.adv_event_props.spec_hci_bytes() + self.primary_adv_interval_min.spec_hci_bytes() + self.primary_adv_interval_max.spec_hci_bytes() + self.primary_adv_channel_map.spec_hci_bytes() + self.own_addr_kind.spec_hci_bytes() + self.peer_addr_kind.spec_hci_bytes() + self.peer_addr.spec_hci_bytes() + self.adv_filter_policy.spec_hci_bytes() + self.adv_tx_power.spec_hci_bytes() + self.primary_adv_phy.spec_hci_bytes() =~= (self.adv_handle.spec_hci_bytes() + self.adv_event_props.spec_hci_bytes() + self.primary_adv_interval_min.spec_hci_bytes() + self.primary_adv_interval_max.spec_hci_bytes() + self.primary_adv_channel_map.spec_hci_bytes() + self.own_addr_kind.spec_hci_bytes() + self.peer_addr_kind.spec_hci_bytes() + self.peer_addr.spec_hci_bytes() + self.adv_filter_policy.spec_hci_bytes() + self.adv_tx_power.spec_hci_bytes() + self.primary_adv_phy.spec_hci_bytes()));
        }
        n = n + self.primary_adv_phy.size();
        proof {
            assert(self.adv_handle.spec_hci_bytes() + self.adv_event_props.spec_hci_bytes() + self.primary_adv_interval_min.spec_hci_bytes() + self.primary_adv_interval_max.spec_hci_bytes() + self.primary_adv_channel_map.spec_hci_bytes() + self.own_addr_kind.spec_hci_bytes() + self.peer_addr_kind.spec_hci_bytes() + self.peer_addr.spec_hci_bytes() + self.adv_filter_policy.spec_hci_bytes() + self.adv_tx_power.spec_hci_bytes() + self.primary_adv_phy.spec_hci_bytes() + self.secondary_adv_max_skip.spec_hci_bytes() =~= (self.adv_handle.spec_hci_bytes() + self.adv_event_props.spec_hci_bytes() + self.primary_adv_interval_min.spec_hci_bytes() + self.primary_adv_interval_max.spec_hci_bytes() + self.primary_adv_channel_map.spec_hci_bytes() + self.own_addr_kind.spec_hci_bytes() + self.peer_addr_kind.spec_hci_bytes() + self.peer_addr.spec_hci_bytes() + self.adv_filter_policy.spec_hci_bytes() + self.adv_tx_power.spec_hci_bytes() + self.primary_adv_phy.spec_hci_bytes() + self.secondary_adv_max_skip.spec_hci_bytes()));
        }
        n = n + self.secondary_adv_max_skip.size();
        proof {
            assert(self.adv_handle.spec_hci_bytes() + self.adv_event_props.spec_hci_bytes() + self.primary_adv_interval_min.spec_hci_bytes() + self.primary_adv_interval_max.spec_hci_bytes() + self.primary_adv_channel_map.spec_hci_bytes() + self.own_addr_kind.spec_hci_bytes() + self.peer_addr_kind.spec_hci_bytes() + self.peer_addr.spec_hci_bytes() + self.adv_filter_policy.spec_hci_bytes() + self.adv_tx_power.spec_hci_bytes() + self.primary_adv_phy.spec_hci_bytes() + self.secondary_adv_max_skip.spec_hci_bytes() + self.secondary_adv_phy.spec_hci_bytes() =~= (self.adv_handle.spec_hci_bytes() + self.adv_event_props.spec_hci_bytes() + self.primary_adv_interval_min.spec_hci_bytes() + self.primary_adv_interval_max.spec_hci_bytes() + self.primary_adv_channel_map.spec_hci_bytes() + self.own_addr_kind.spec_hci_bytes() + self.peer_addr_kind.spec_hci_bytes() + self.peer_addr.spec_hci_bytes() + self.adv_filter_policy.spec_hci_bytes() + self.adv_tx_power.spec_hci_bytes() + self.primary_adv_phy.spec_hci_bytes() + self.secondary_adv_max_skip.spec_hci_bytes() + self.secondary_adv_phy.spec_hci_bytes()));
        }
        n = n + self.secondary_adv_phy.size();
        proof {
            assert(self.adv_handle.spec_hci_bytes() + self.adv_event_props.spec_hci_bytes() + self.primary_adv_interval_min.spec_hci_bytes() + self.primary_adv_interval_max.spec_hci_bytes() + self.primary_adv_channel_map.spec_hci_bytes() + self.own_addr_kind.spec_hci_bytes() + self.peer_addr_kind.spec_hci_bytes() + self.peer_addr.spec_hci_bytes() + self.adv_filter_policy.spec_hci_bytes() + self.adv_tx_power.spec_hci_bytes() + self.primary_adv_phy.spec_hci_bytes() + self.secondary_adv_max_skip.spec_hci_bytes() + self.secondary_adv_phy.spec_hci_bytes() + self.adv_sid.spec_hci_bytes() =~= (self.adv_handle.spec_hci_bytes() + self.adv_event_props.spec_hci_bytes() + self.primary_adv_interval_min.spec_hci_bytes() + self.primary_adv_interval_max.spec_hci_bytes() + self.primary_adv_channel_map.spec_hci_bytes() + self.own_addr_kind.spec_hci_bytes() + self.peer_addr_kind.spec_hci_bytes() + self.peer_addr.spec_hci_bytes() + self.adv_filter_policy.spec_hci_bytes() + self.adv_tx_power.spec_hci_bytes() + self.primary_adv_phy.spec_hci_bytes() + self.secondary_adv_max_skip.spec_hci_bytes() + self.secondary_adv_phy.spec_hci_bytes() + self.adv_sid.spec_hci_bytes()));
        }
        n = n + self.adv_sid.size();
        proof {
            assert(self.adv_handle.spec_hci_bytes() + self.adv_event_props.spec_hci_bytes() + self.primary_adv_interval_min.spec_hci_bytes() + self.primary_adv_interval_max.spec_hci_bytes() + self.primary_adv_channel_map.spec_hci_bytes() + self.own_addr_kind.spec_hci_bytes() + self.peer_addr_kind.spec_hci_bytes() + self.peer_addr.spec_hci_bytes() + self.adv_filter_policy.spec_hci_bytes() + self.adv_tx_power.spec_hci_bytes() + self.primary_adv_phy.spec_hci_bytes() + self.secondary_adv_max_skip.spec_hci_bytes() + self.secondary_adv_phy.spec_hci_bytes() + self.adv_sid.spec_hci_bytes() + self.scan_request_notification_enable.spec_hci_bytes() =~= (self.adv_handle.spec_hci_bytes() + self.adv_event_props.spec_hci_bytes() + self.primary_adv_interval_min.spec_hci_bytes() + self.primary_adv_interval_max.spec_hci_bytes() + self.primary_adv_channel_map.spec_hci_bytes() + self.own_addr_kind.spec_hci_bytes() + self.peer_addr_kind.spec_hci_bytes() + self.peer_addr.spec_hci_bytes() + self.adv_filter_policy.spec_hci_bytes() + self.adv_tx_power.spec_hci_bytes() + self.primary_adv_phy.spec_hci_bytes() + self.secondary_adv_max_skip.spec_hci_bytes() + self.secondary_adv_phy.spec_hci_bytes() + self.adv_sid.spec_hci_bytes() + self.scan_request_notification_enable.spec_hci_bytes()));
        }
        n = n + self.scan_request_notification_enable.size();
        proof {
            assert(self.adv_handle.spec_hci_bytes() + self.adv_event_props.spec_hci_bytes() + self.primary_adv_interval_min.spec_hci_bytes() + self.primary_adv_interval_max.spec_hci_bytes() + self.primary_adv_channel_map.spec_hci_bytes() + self.own_addr_kind.spec_hci_bytes() + self.peer_addr_kind.spec_hci_bytes() + self.peer_addr.spec_hci_bytes() + self.adv_filter_policy.spec_hci_bytes() + self.adv_tx_power.spec_hci_bytes() + self.primary_adv_phy.spec_hci_bytes() + self.secondary_adv_max_skip.spec_hci_bytes() + self.secondary_adv_phy.spec_hci_bytes() + self.adv_sid.spec_hci_bytes() + self.scan_request_notification_enable.spec_hci_bytes() + self.primary_adv_phy_options.spec_hci_bytes() =~= (self.adv_handle.spec_hci_bytes() + self.adv_event_props.spec_hci_bytes() + self.primary_adv_interval_min.spec_hci_bytes() + self.primary_adv_interval_max.spec_hci_bytes() + self.primary_adv_channel_map.spec_hci_bytes() + self.own_addr_kind.spec_hci_bytes() + self.peer_addr_kind.spec_hci_bytes() + self.peer_addr.spec_hci_bytes() + self.adv_filter_policy.spec_hci_bytes() + self.adv_tx_power.spec_hci_bytes() + self.primary_adv_phy.spec_hci_bytes() + self.secondary_adv_max_skip.spec_hci_bytes() + self.secondary_adv_phy.spec_hci_bytes() + self.adv_sid.spec_hci_bytes() + self.scan_request_notification_enable.spec_hci_bytes() + self.primary_adv_phy_options.spec_hci_bytes()));
        }
        n = n + self.primary_adv_phy_options.size();
        proof {
            assert(self.adv_handle.spec_hci_bytes() + self.adv_event_props.spec_hci_bytes() + self.primary_adv_interval_min.spec_hci_bytes() + self.primary_adv_interval_max.spec_hci_bytes() + self.primary_adv_channel_map.spec_hci_bytes() + self.own_addr_kind.spec_hci_bytes() + self.peer_addr_kind.spec_hci_bytes() + self.peer_addr.spec_hci_bytes() + self.adv_filter_policy.spec_hci_bytes() + self.adv_tx_power.spec_hci_bytes() + self.primary_adv_phy.spec_hci_bytes() + self.secondary_adv_max_skip.spec_hci_bytes() + self.secondary_adv_phy.spec_hci_bytes() + self.adv_sid.spec_hci_bytes() + self.scan_request_notification_enable.spec_hci_bytes() + self.primary_adv_phy_options.spec_hci_bytes() + self.secondary_adv_phy_options.spec_hci_bytes() =~= (self.adv_handle.spec_hci_bytes() + self.adv_event_props.spec_hci_bytes() + self.primary_adv_interval_min.spec_hci_bytes() + self.primary_adv_interval_max.spec_hci_bytes() + self.primary_adv_channel_map.spec_hci_bytes() + self.own_addr_kind.spec_hci_bytes() + self.peer_addr_kind.spec_hci_bytes() + self.peer_addr.spec_hci_bytes() + self.adv_filter_policy.spec_hci_bytes() + self.adv_tx_power.spec_hci_bytes() + self.primary_adv_phy.spec_hci_bytes() + self.secondary_adv_max_skip.spec_hci_bytes() + self.secondary_adv_phy.spec_hci_bytes() + self.adv_sid.spec_hci_bytes() + self.scan_request_notification_enable.spec_hci_bytes() + self.primary_adv_phy_options.spec_hci_bytes() + self.secondary_adv_phy_options.spec_hci_bytes()));
        }
        n = n + self.secondary_adv_phy_options.size();
        n
    }

    fn write_hci(&self, out: &mut Vec<u8>) {
        self.adv_handle.write_hci(out);
        self.adv_event_props.write_hci(out);
        self.primary_adv_interval_min.write_hci(out);
        self.primary_adv_interval_max.write_hci(out);
        self.primary_adv_channel_map.write_hci(out);
        self.own_addr_kind.write_hci(out);
        self.peer_addr_kind.write_hci(out);
        self.peer_addr.write_hci(out);
        self.adv_filter_policy.write_hci(out);
        self.adv_tx_power.write_hci(out);
        self.primary_adv_phy.write_hci(out);
        self.secondary_adv_max_skip.write_hci(out);
        self.secondary_adv_phy.write_hci(out);
        self.adv_sid.write_hci(out);
        self.scan_request_notification_enable.write_hci(out);
        self.primary_adv_phy_options.write_hci(out);
        self.secondary_adv_phy_options.write_hci(out);
        proof {
            assert(out@ =~= old(out)@ + self.spec_hci_bytes());
        }
    }
}

impl LeSetExtAdvParamsV2Params {
    /// The bytes of a `LeSetExtAdvParamsV2Params` are the bytes of its fields, one after the
    /// other, in the order in which the fields are declared.
    #[verifier::rlimit(60)]
    pub proof fn lemma_fields_in_order(&self)
        ensures
            self.spec_hci_bytes() == self.adv_handle.spec_hci_bytes() + self.adv_event_props.spec_hci_bytes() + self.primary_adv_interval_min.spec_hci_bytes() + self.primary_adv_interval_max.spec_hci_bytes() + self.primary_adv_channel_map.spec_hci_bytes() + self.own_addr_kind.spec_hci_bytes() + self.peer_addr_kind.spec_hci_bytes() + self.peer_addr.spec_hci_bytes() + self.adv_filter_policy.spec_hci_bytes() + self.adv_tx_power.spec_hci_bytes() + self.primary_adv_phy.spec_hci_bytes() + self.secondary_adv_max_skip.spec_hci_bytes() + self.secondary_adv_phy.spec_hci_bytes() + self.adv_sid.spec_hci_bytes() + self.scan_request_notification_enable.spec_hci_bytes() + self.primary_adv_phy_options.spec_hci_bytes() + self.secondary_adv_phy_options.spec_hci_bytes(),
    {
    }
}


/// The LeSetExtAdvParamsV2 command (group LE, command 0x007f).
#[derive(Debug, Clone, Copy, PartialEq, Eq, PartialOrd, Ord, Hash)]
pub struct LeSetExtAdvParamsV2(LeSetExtAdvParamsV2Params);

impl LeSetExtAdvParamsV2 {
    /// Create a new instance of the command.
    pub fn new(adv_handle: AdvHandle, adv_event_props: AdvEventProps, primary_adv_interval_min: ExtDuration<625>, primary_adv_interval_max: ExtDuration<625>, primary_adv_channel_map: AdvChannelMap, own_addr_kind: AddrKind, peer_addr_kind: AddrKind, peer_addr: BdAddr, adv_filter_policy: AdvFilterPolicy, adv_tx_power: i8, primary_adv_phy: PhyKind, secondary_adv_max_skip: u8, secondary_adv_phy: PhyKind, adv_sid: u8, scan_request_notification_enable: bool, primary_adv_phy_options: AdvPhyOptions, secondary_adv_phy_options: AdvPhyOptions) -> (result: Self)
        ensures
            result.spec_params() == (LeSetExtAdvParamsV2Params { adv_handle: adv_handle, adv_event_props: adv_event_props, primary_adv_interval_min: primary_adv_interval_min, primary_adv_interval_max: primary_adv_interval_max, primary_adv_channel_map: primary_adv_channel_map, own_addr_kind: own_addr_kind, peer_addr_kind: peer_addr_kind, peer_addr: peer_addr, adv_filter_policy: adv_filter_policy, adv_tx_power: adv_tx_power, primary_adv_phy: primary_adv_phy, secondary_adv_max_skip: secondary_adv_max_skip, secondary_adv_phy: secondary_adv_phy, adv_sid: adv_sid, scan_request_notification_enable: scan_request_notification_enable, primary_adv_phy_options: primary_adv_phy_options, secondary_adv_phy_options: secondary_adv_phy_options }),
    {
        LeSetExtAdvParamsV2(LeSetExtAdvParamsV2Params { adv_handle: adv_handle, adv_event_props: adv_event_props, primary_adv_interval_min: primary_adv_interval_min, primary_adv_interval_max: primary_adv_interval_max, primary_adv_channel_map: primary_adv_channel_map, own_addr_kind: own_addr_kind, peer_addr_kind: peer_addr_kind, peer_addr: peer_addr, adv_filter_policy: adv_filter_policy, adv_tx_power: adv_tx_power, primary_adv_phy: primary_adv_phy, secondary_adv_max_skip: secondary_adv_max_skip, secondary_adv_phy: secondary_adv_phy, adv_sid: adv_sid, scan_request_notification_enable: scan_request_notification_enable, primary_adv_phy_options: primary_adv_phy_options, secondary_adv_phy_options: secondary_adv_phy_options })
    }

    /// This command's opcode is group LE, command 0x007f: 0x207f.
    pub proof fn lemma_opcode()
        ensures
            Self::spec_opcode() == 0x207f,
    {
        lemma_opcode_value(LE, 0x007f);
    }
}

impl Cmd for LeSetExtAdvParamsV2 {
    type Params = LeSetExtAdvParamsV2Params;

    open spec fn spec_opcode() -> u16 {
        spec_opcode_raw(LE, 0x007f)
    }

    closed spec fn spec_params(&self) -> LeSetExtAdvParamsV2Params {
        self.0
    }

    fn opcode() -> (r: Opcode) {
        Opcode::new(OpcodeGroup::new(LE), 0x007f)
    }

    fn params(&self) -> (r: &LeSetExtAdvParamsV2Params) {
        &self.0
    }

    proof fn lemma_packet(&self) {
    }
}

impl WriteHci for LeSetExtAdvParamsV2 {
    closed spec fn spec_hci_bytes(&self) -> Seq<u8> {
        spec_cmd_packet(spec_opcode_raw(LE, 0x007f), self.0.spec_hci_bytes())
    }

    fn size(&self) -> (r: usize) {
        self.0.size() + 3
    }

    fn write_hci(&self, out: &mut Vec<u8>) {
        write_cmd_packet(Opcode::new(OpcodeGroup::new(LE), 0x007f), &self.0, out);
    }
}

impl SyncCmd for LeSetExtAdvParamsV2 {
    type Return = i8;
    type Handle = ();

    open spec fn spec_handle_ok(data: Seq<u8>, h: ()) -> bool {
        true
    }

    open spec fn spec_handle_err(data: Seq<u8>, e: FromHciBytesError) -> bool {
        false
    }

    open spec fn spec_return_ok(data: Seq<u8>, v: i8) -> bool {
        spec_decodes_complete::<i8>(data, v)
    }

    open spec fn spec_return_err(data: Seq<u8>, e: FromHciBytesError) -> bool {
        spec_decode_complete_err::<i8>(data, e)
    }

    fn param_handle(&self) -> (r: ())
        ensures
            r == (),
    {
    }

    fn return_handle(data: &[u8]) -> (r: Result<(), FromHciBytesError>) {
        Ok(())
    }

    fn return_from_hci_bytes(data: &[u8]) -> (r: Result<i8, FromHciBytesError>) {
        <i8 as FromHciBytes>::from_hci_bytes_complete(data)
    }
}

/// Parameters for the [`LeSetExtAdvData`] command.
#[derive(Debug, Clone, Copy, PartialEq, Eq, PartialOrd, Ord, Hash, Default)]
#[allow(missing_docs)]
pub struct LeSetExtAdvDataParams<'a> {
    pub adv_handle: AdvHandle,
    pub operation: Operation,
    pub fragment_preference: bool,
    pub adv_data: &'a [u8],
}

/// The value of a [`LeSetExtAdvDataParams`], with byte slices taken as sequences.
#[allow(missing_docs)]
pub struct LeSetExtAdvDataParamsView {
    pub adv_handle: u8,
    pub operation: Operation,
    pub fragment_preference: bool,
    pub adv_data: Seq<u8>,
}

impl<'a> View for LeSetExtAdvDataParams<'a> {
    type V = LeSetExtAdvDataParamsView;

    open spec fn view(&self) -> LeSetExtAdvDataParamsView {
        LeSetExtAdvDataParamsView { adv_handle: self.adv_handle@, operation: self.operation@, fragment_preference: self.fragment_preference@, adv_data: self.adv_data@ }
    }
}

impl<'a> WriteHci for LeSetExtAdvDataParams<'a> {
    open spec fn spec_hci_bytes(&self) -> Seq<u8> {
        self.adv_handle.spec_hci_bytes() + self.operation.spec_hci_bytes() + self.fragment_preference.spec_hci_bytes() + self.adv_data.spec_hci_bytes()
    }

    fn size(&self) -> (r: usize) {
        let mut n = self.adv_handle.size();
        proof {
            assert(self.adv_handle.spec_hci_bytes() + self.operation.spec_hci_bytes() =~= (self.adv_handle.spec_hci_bytes() + self.operation.spec_hci_bytes()));
        }
        n = n + self.operation.size();
        proof {
            assert(self.adv_handle.spec_hci_bytes() + self.operation.spec_hci_bytes() + self.fragment_preference.spec_hci_bytes() =~= (self.adv_handle.spec_hci_bytes() + self.operation.spec_hci_bytes() + self.fragment_preference.spec_hci_bytes()));
        }
        n = n + self.fragment_preference.size();
        proof {
            assert(self.adv_handle.spec_hci_bytes() + self.operation.spec_hci_bytes() + self.fragment_preference.spec_hci_bytes() + self.adv_data.spec_hci_bytes() =~= (self.adv_handle.spec_hci_bytes() + self.operation.spec_hci_bytes() + self.fragment_preference.spec_hci_bytes() + self.adv_data.spec_hci_bytes()));
        }
        n = n + self.adv_data.size();
        n
    }

    fn write_hci(&self, out: &mut Vec<u8>) {
        self.adv_handle.write_hci(out);
        self.operation.write_hci(out);
        self.fragment_preference.write_hci(out);
        self.adv_data.write_hci(out);
        proof {
            assert(out@ =~= old(out)@ + self.spec_hci_bytes());
        }
    }
}

impl<'a> LeSetExtAdvDataParams<'a> {
    /// The bytes of a `LeSetExtAdvDataParams` are the bytes of its fields, one after the
    /// other, in the order in which the fields are declared.
    pub proof fn lemma_fields_in_order(&self)
        ensures
            self.spec_hci_bytes() == self.adv_handle.spec_hci_bytes() + self.operation.spec_hci_bytes() + self.fragment_preference.spec_hci_bytes() + self.adv_data.spec_hci_bytes(),
    {
    }
}


/// The LeSetExtAdvData command (group LE, command 0x0037).
#[derive(Debug, Clone, Copy, PartialEq, Eq, PartialOrd, Ord, Hash)]
pub struct LeSetExtAdvData<'a>(LeSetExtAdvDataParams<'a>);

impl<'a> LeSetExtAdvData<'a> {
    /// Create a new instance of the command.
    pub fn new(adv_handle: AdvHandle, operation: Operation, fragment_preference: bool, adv_data: &'a [u8]) -> (result: Self)
        ensures
            result.spec_params() == (LeSetExtAdvDataParams { adv_handle: adv_handle, operation: operation, fragment_preference: fragment_preference, adv_data: adv_data }),
    {
        LeSetExtAdvData(LeSetExtAdvDataParams { adv_handle: adv_handle, operation: operation, fragment_preference: fragment_preference, adv_data: adv_data })
    }

    /// This command's opcode is group LE, command 0x0037: 0x2037.
    pub proof fn lemma_opcode()
        ensures
            Self::spec_opcode() == 0x2037,
    {
        lemma_opcode_value(LE, 0x0037);
    }
}

impl<'a> Cmd for LeSetExtAdvData<'a> {
    type Params = LeSetExtAdvDataParams<'a>;

    open spec fn spec_opcode() -> u16 {
        spec_opcode_raw(LE, 0x0037)
    }

    closed spec fn spec_params(&self) -> LeSetExtAdvDataParams<'a> {
        self.0
    }

    fn opcode() -> (r: Opcode) {
        Opcode::new(OpcodeGroup::new(LE), 0x0037)
    }

    fn params(&self) -> (r: &LeSetExtAdvDataParams<'a>) {
        &self.0
    }

    proof fn lemma_packet(&self) {
    }
}

impl<'a> WriteHci for LeSetExtAdvData<'a> {
    closed spec fn spec_hci_bytes(&self) -> Seq<u8> {
        spec_cmd_packet(spec_opcode_raw(LE, 0x0037), self.0.spec_hci_bytes())
    }

    fn size(&self) -> (r: usize) {
        self.0.size() + 3
    }

    fn write_hci(&self, out: &mut Vec<u8>) {
        write_cmd_packet(Opcode::new(OpcodeGroup::new(LE), 0x0037), &self.0, out);
    }
}

impl<'a> SyncCmd for LeSetExtAdvData<'a> {
    type Return = ();
    type Handle = ();

    open spec fn spec_handle_ok(data: Seq<u8>, h: ()) -> bool {
        true
    }

    open spec fn spec_handle_err(data: Seq<u8>, e: FromHciBytesError) -> bool {
        false
    }

    open spec fn spec_return_ok(data: Seq<u8>, v: ()) -> bool {
        spec_decodes_complete::<()>(data, v)
    }

    open spec fn spec_return_err(data: Seq<u8>, e: FromHciBytesError) -> bool {
        spec_decode_complete_err::<()>(data, e)
    }

    fn param_handle(&self) -> (r: ())
        ensures
            r == (),
    {
    }

    fn return_handle(data: &[u8]) -> (r: Result<(), FromHciBytesError>) {
        Ok(())
    }

    fn return_from_hci_bytes(data: &[u8]) -> (r: Result<(), FromHciBytesError>) {
        <() as FromHciBytes>::from_hci_bytes_complete(data)
    }
}

/// Parameters for the [`LeSetExtScanResponseData`] command.
#[derive(Debug, Clone, Copy, PartialEq, Eq, PartialOrd, Ord, Hash, Default)]
#[allow(missing_docs)]
pub struct LeSetExtScanResponseDataParams<'a> {
    pub adv_handle: AdvHandle,
    pub operation: Operation,
    pub fragment_preference: bool,
    pub scan_response_data: &'a [u8],
}

/// The value of a [`LeSetExtScanResponseDataParams`], with byte slices taken as sequences.
#[allow(missing_docs)]
pub struct LeSetExtScanResponseDataParamsView {
    pub adv_handle: u8,
    pub operation: Operation,
    pub fragment_preference: bool,
    pub scan_response_data: Seq<u8>,
}

impl<'a> View for LeSetExtScanResponseDataParams<'a> {
    type V = LeSetExtScanResponseDataParamsView;

    open spec fn view(&self) -> LeSetExtScanResponseDataParamsView {
        LeSetExtScanResponseDataParamsView { adv_handle: self.adv_handle@, operation: self.operation@, fragment_preference: self.fragment_preference@, scan_response_data: self.scan_response_data@ }
    }
}

impl<'a> WriteHci for LeSetExtScanResponseDataParams<'a> {
    open spec fn spec_hci_bytes(&self) -> Seq<u8> {
        self.adv_handle.spec_hci_bytes() + self.operation.spec_hci_bytes() + self.fragment_preference.spec_hci_bytes() + self.scan_response_data.spec_hci_bytes()
    }

    fn size(&self) -> (r: usize) {
        let mut n = self.adv_handle.size();
        proof {
            assert(self.adv_handle.spec_hci_bytes() + self.operation.spec_hci_bytes() =~= (self.adv_handle.spec_hci_bytes() + self.operation.spec_hci_bytes()));
        }
        n = n + self.operation.size();
        proof {
            assert(self.adv_handle.spec_hci_bytes() + self.operation.spec_hci_bytes() + self.fragment_preference.spec_hci_bytes() =~= (self.adv_handle.spec_hci_bytes() + self.operation.spec_hci_bytes() + self.fragment_preference.spec_hci_bytes()));
        }
        n = n + self.fragment_preference.size();
        proof {
            assert(self.adv_handle.spec_hci_bytes() + self.operation.spec_hci_bytes() + self.fragment_preference.spec_hci_bytes() + self.scan_response_data.spec_hci_bytes() =~= (self.adv_handle.spec_hci_bytes() + self.operation.spec_hci_bytes() + self.fragment_preference.spec_hci_bytes() + self.scan_response_data.spec_hci_bytes()));
        }
        n = n + self.scan_response_data.size();
        n
    }

    fn write_hci(&self, out: &mut Vec<u8>) {
        self.adv_handle.write_hci(out);
        self.operation.write_hci(out);
        self.fragment_preference.write_hci(out);
        self.scan_response_data.write_hci(out);
        proof {
            assert(out@ =~= old(out)@ + self.spec_hci_bytes());
        }
    }
}

impl<'a> LeSetExtScanResponseDataParams<'a> {
    /// The bytes of a `LeSetExtScanResponseDataParams` are the bytes of its fields, one after the
    /// other, in the order in which the fields are declared.
    pub proof fn lemma_fields_in_order(&self)
        ensures
            self.spec_hci_bytes() == self.adv_handle.spec_hci_bytes() + self.operation.spec_hci_bytes() + self.fragment_preference.spec_hci_bytes() + self.scan_response_data.spec_hci_bytes(),
    {
    }
}


/// The LeSetExtScanResponseData command (group LE, command 0x0038).
#[derive(Debug, Clone, Copy, PartialEq, Eq, PartialOrd, Ord, Hash)]
pub struct LeSetExtScanResponseData<'a>(LeSetExtScanResponseDataParams<'a>);

impl<'a> LeSetExtScanResponseData<'a> {
    /// Create a new instance of the command.
    pub fn new(adv_handle: AdvHandle, operation: Operation, fragment_preference: bool, scan_response_data: &'a [u8]) -> (result: Self)
        ensures
            result.spec_params() == (LeSetExtScanResponseDataParams { adv_handle: adv_handle, operation: operation, fragment_preference: fragment_preference, scan_response_data: scan_response_data }),
    {
        LeSetExtScanResponseData(LeSetExtScanResponseDataParams { adv_handle: adv_handle, operation: operation, fragment_preference: fragment_preference, scan_response_data: scan_response_data })
    }

    /// This command's opcode is group LE, command 0x0038: 0x2038.
    pub proof fn lemma_opcode()
        ensures
            Self::spec_opcode() == 0x2038,
    {
        lemma_opcode_value(LE, 0x0038);
    }
}

impl<'a> Cmd for LeSetExtScanResponseData<'a> {
    type Params = LeSetExtScanResponseDataParams<'a>;

    open spec fn spec_opcode() -> u16 {
        spec_opcode_raw(LE, 0x0038)
    }

    closed spec fn spec_params(&self) -> LeSetExtScanResponseDataParams<'a> {
        self.0
    }

    fn opcode() -> (r: Opcode) {
        Opcode::new(OpcodeGroup::new(LE), 0x0038)
    }

    fn params(&self) -> (r: &LeSetExtScanResponseDataParams<'a>) {
        &self.0
    }

    proof fn lemma_packet(&self) {
    }
}

impl<'a> WriteHci for LeSetExtScanResponseData<'a> {
    closed spec fn spec_hci_bytes(&self) -> Seq<u8> {
        spec_cmd_packet(spec_opcode_raw(LE, 0x0038), self.0.spec_hci_bytes())
    }

    fn size(&self) -> (r: usize) {
        self.0.size() + 3
    }

    fn write_hci(&self, out: &mut Vec<u8>) {
        write_cmd_packet(Opcode::new(OpcodeGroup::new(LE), 0x0038), &self.0, out);
    }
}

impl<'a> SyncCmd for LeSetExtScanResponseData<'a> {
    type Return = ();
    type Handle = ();

    open spec fn spec_handle_ok(data: Seq<u8>, h: ()) -> bool {
        true
    }

    open spec fn spec_handle_err(data: Seq<u8>, e: FromHciBytesError) -> bool {
        false
    }

    open spec fn spec_return_ok(data: Seq<u8>, v: ()) -> bool {
        spec_decodes_complete::<()>(data, v)
    }

    open spec fn spec_return_err(data: Seq<u8>, e: FromHciBytesError) -> bool {
        spec_decode_complete_err::<()>(data, e)
    }

    fn param_handle(&self) -> (r: ())
        ensures
            r == (),
    {
    }

    fn return_handle(data: &[u8]) -> (r: Result<(), FromHciBytesError>) {
        Ok(())
    }

    fn return_from_hci_bytes(data: &[u8]) -> (r: Result<(), FromHciBytesError>) {
        <() as FromHciBytes>::from_hci_bytes_complete(data)
    }
}

/// Parameters for the [`LeSetExtAdvEnable`] command.
#[derive(Debug, Clone, Copy, PartialEq, Eq, PartialOrd, Ord, Hash, Default)]
#[allow(missing_docs)]
pub struct LeSetExtAdvEnableParams<'a> {
    pub enable: bool,
    pub sets: &'a [AdvSet],
}

/// The value of a [`LeSetExtAdvEnableParams`], with byte slices taken as sequences.
#[allow(missing_docs)]
pub struct LeSetExtAdvEnableParamsView {
    pub enable: bool,
    pub sets: Seq<AdvSet>,
}

impl<'a> View for LeSetExtAdvEnableParams<'a> {
    type V = LeSetExtAdvEnableParamsView;

    open spec fn view(&self) -> LeSetExtAdvEnableParamsView {
        LeSetExtAdvEnableParamsView { enable: self.enable@, sets: self.sets@ }
    }
}

impl<'a> WriteHci for LeSetExtAdvEnableParams<'a> {
    open spec fn spec_hci_bytes(&self) -> Seq<u8> {
        self.enable.spec_hci_bytes() + self.sets.spec_hci_bytes()
    }

    fn size(&self) -> (r: usize) {
        let mut n = self.enable.size();
        proof {
            assert(self.enable.spec_hci_bytes() + self.sets.spec_hci_bytes() =~= (self.enable.spec_hci_bytes() + self.sets.spec_hci_bytes()));
        }
        n = n + self.sets.size();
        n
    }

    fn write_hci(&self, out: &mut Vec<u8>) {
        self.enable.write_hci(out);
        self.sets.write_hci(out);
        proof {
            assert(out@ =~= old(out)@ + self.spec_hci_bytes());
        }
    }
}

impl<'a> LeSetExtAdvEnableParams<'a> {
    /// The bytes of a `LeSetExtAdvEnableParams` are the bytes of its fields, one after the
    /// other, in the order in which the fields are declared.
    pub proof fn lemma_fields_in_order(&self)
        ensures
            self.spec_hci_bytes() == self.enable.spec_hci_bytes() + self.sets.spec_hci_bytes(),
    {
    }
}


/// The LeSetExtAdvEnable command (group LE, command 0x0039).
#[derive(Debug, Clone, Copy, PartialEq, Eq, PartialOrd, Ord, Hash)]
pub struct LeSetExtAdvEnable<'a>(LeSetExtAdvEnableParams<'a>);

impl<'a> LeSetExtAdvEnable<'a> {
    /// Create a new instance of the command.
    pub fn new(enable: bool, sets: &'a [AdvSet]) -> (result: Self)
        ensures
            result.spec_params() == (LeSetExtAdvEnableParams { enable: enable, sets: sets }),
    {
        LeSetExtAdvEnable(LeSetExtAdvEnableParams { enable: enable, sets: sets })
    }

    /// This command's opcode is group LE, command 0x0039: 0x2039.
    pub proof fn lemma_opcode()
        ensures
            Self::spec_opcode() == 0x2039,
    {
        lemma_opcode_value(LE, 0x0039);
    }
}

impl<'a> Cmd for LeSetExtAdvEnable<'a> {
    type Params = LeSetExtAdvEnableParams<'a>;

    open spec fn spec_opcode() -> u16 {
        spec_opcode_raw(LE, 0x0039)
    }

    closed spec fn spec_params(&self) -> LeSetExtAdvEnableParams<'a> {
        self.0
    }

    fn opcode() -> (r: Opcode) {
        Opcode::new(OpcodeGroup::new(LE), 0x0039)
    }

    fn params(&self) -> (r: &LeSetExtAdvEnableParams<'a>) {
        &self.0
    }

    proof fn lemma_packet(&self) {
    }
}

impl<'a> WriteHci for LeSetExtAdvEnable<'a> {
    closed spec fn spec_hci_bytes(&self) -> Seq<u8> {
        spec_cmd_packet(spec_opcode_raw(LE, 0x0039), self.0.spec_hci_bytes())
    }

    fn size(&self) -> (r: usize) {
        self.0.size() + 3
    }

    fn write_hci(&self, out: &mut Vec<u8>) {
        write_cmd_packet(Opcode::new(OpcodeGroup::new(LE), 0x0039), &self.0, out);
    }
}

impl<'a> SyncCmd for LeSetExtAdvEnable<'a> {
    type Return = ();
    type Handle = ();

    open spec fn spec_handle_ok(data: Seq<u8>, h: ()) -> bool {
        true
    }

    open spec fn spec_handle_err(data: Seq<u8>, e: FromHciBytesError) -> bool {
        false
    }

    open spec fn spec_return_ok(data: Seq<u8>, v: ()) -> bool {
        spec_decodes_complete::<()>(data, v)
    }

    open spec fn spec_return_err(data: Seq<u8>, e: FromHciBytesError) -> bool {
        spec_decode_complete_err::<()>(data, e)
    }

    fn param_handle(&self) -> (r: ())
        ensures
            r == (),
    {
    }

    fn return_handle(data: &[u8]) -> (r: Result<(), FromHciBytesError>) {
        Ok(())
    }

    fn return_from_hci_bytes(data: &[u8]) -> (r: Result<(), FromHciBytesError>) {
        <() as FromHciBytes>::from_hci_bytes_complete(data)
    }
}

/// The LeReadMaxAdvDataLength command (group LE, command 0x003a).
#[derive(Debug, Clone, Copy, PartialEq, Eq, PartialOrd, Ord, Hash, Default)]
pub struct LeReadMaxAdvDataLength(());

impl LeReadMaxAdvDataLength {
    /// Create a new instance of the command.
    pub fn new() -> (r: Self)
        ensures
            r.spec_params() == (),
    {
        LeReadMaxAdvDataLength(())
    }

    /// This command's opcode is group LE, command 0x003a: 0x203a.
    pub proof fn lemma_opcode()
        ensures
            Self::spec_opcode() == 0x203a,
    {
        lemma_opcode_value(LE, 0x003a);
    }
}

impl Cmd for LeReadMaxAdvDataLength {
    type Params = ();

    open spec fn spec_opcode() -> u16 {
        spec_opcode_raw(LE, 0x003a)
    }

    closed spec fn spec_params(&self) -> () {
        self.0
    }

    fn opcode() -> (r: Opcode) {
        Opcode::new(OpcodeGroup::new(LE), 0x003a)
    }

    fn params(&self) -> (r: &()) {
        &self.0
    }

    proof fn lemma_packet(&self) {
    }
}

impl WriteHci for LeReadMaxAdvDataLength {
    closed spec fn spec_hci_bytes(&self) -> Seq<u8> {
        spec_cmd_packet(spec_opcode_raw(LE, 0x003a), self.0.spec_hci_bytes())
    }

    fn size(&self) -> (r: usize) {
        self.0.size() + 3
    }

    fn write_hci(&self, out: &mut Vec<u8>) {
        write_cmd_packet(Opcode::new(OpcodeGroup::new(LE), 0x003a), &self.0, out);
    }
}

impl SyncCmd for LeReadMaxAdvDataLength {
    type Return = u16;
    type Handle = ();

    open spec fn spec_handle_ok(data: Seq<u8>, h: ()) -> bool {
        true
    }

    open spec fn spec_handle_err(data: Seq<u8>, e: FromHciBytesError) -> bool {
        false
    }

    open spec fn spec_return_ok(data: Seq<u8>, v: u16) -> bool {
        spec_decodes_complete::<u16>(data, v)
    }

    open spec fn spec_return_err(data: Seq<u8>, e: FromHciBytesError) -> bool {
        spec_decode_complete_err::<u16>(data, e)
    }

    fn param_handle(&self) -> (r: ())
        ensures
            r == (),
    {
    }

    fn return_handle(data: &[u8]) -> (r: Result<(), FromHciBytesError>) {
        Ok(())
    }

    fn return_from_hci_bytes(data: &[u8]) -> (r: Result<u16, FromHciBytesError>) {
        <u16 as FromHciBytes>::from_hci_bytes_complete(data)
    }
}

/// The LeReadNumberOfSupportedAdvSets command (group LE, command 0x003b).
#[derive(Debug, Clone, Copy, PartialEq, Eq, PartialOrd, Ord, Hash, Default)]
pub struct LeReadNumberOfSupportedAdvSets(());

impl LeReadNumberOfSupportedAdvSets {
    /// Create a new instance of the command.
    pub fn new() -> (r: Self)
        ensures
            r.spec_params() == (),
    {
        LeReadNumberOfSupportedAdvSets(())
    }

    /// This command's opcode is group LE, command 0x003b: 0x203b.
    pub proof fn lemma_opcode()
        ensures
            Self::spec_opcode() == 0x203b,
    {
        lemma_opcode_value(LE, 0x003b);
    }
}

impl Cmd for LeReadNumberOfSupportedAdvSets {
    type Params = ();

    open spec fn spec_opcode() -> u16 {
        spec_opcode_raw(LE, 0x003b)
    }

    closed spec fn spec_params(&self) -> () {
        self.0
    }

    fn opcode() -> (r: Opcode) {
        Opcode::new(OpcodeGroup::new(LE), 0x003b)
    }

    fn params(&self) -> (r: &()) {
        &self.0
    }

    proof fn lemma_packet(&self) {
    }
}

impl WriteHci for LeReadNumberOfSupportedAdvSets {
    closed spec fn spec_hci_bytes(&self) -> Seq<u8> {
        spec_cmd_packet(spec_opcode_raw(LE, 0x003b), self.0.spec_hci_bytes())
    }

    fn size(&self) -> (r: usize) {
        self.0.size() + 3
    }

    fn write_hci(&self, out: &mut Vec<u8>) {
        write_cmd_packet(Opcode::new(OpcodeGroup::new(LE), 0x003b), &self.0, out);
    }
}

impl SyncCmd for LeReadNumberOfSupportedAdvSets {
    type Return = u8;
    type Handle = ();

    open spec fn spec_handle_ok(data: Seq<u8>, h: ()) -> bool {
        true
    }

    open spec fn spec_handle_err(data: Seq<u8>, e: FromHciBytesError) -> bool {
        false
    }

    open spec fn spec_return_ok(data: Seq<u8>, v: u8) -> bool {
        spec_decodes_complete::<u8>(data, v)
    }

    open spec fn spec_return_err(data: Seq<u8>, e: FromHciBytesError) -> bool {
        spec_decode_complete_err::<u8>(data, e)
    }

    fn param_handle(&self) -> (r: ())
        ensures
            r == (),
    {
    }

    fn return_handle(data: &[u8]) -> (r: Result<(), FromHciBytesError>) {
        Ok(())
    }

    fn return_from_hci_bytes(data: &[u8]) -> (r: Result<u8, FromHciBytesError>) {
        <u8 as FromHciBytes>::from_hci_bytes_complete(data)
    }
}

/// The LeRemoveAdvSet command (group LE, command 0x003c).
#[derive(Debug, Clone, Copy, PartialEq, Eq, PartialOrd, Ord, Hash)]
pub struct LeRemoveAdvSet(AdvHandle);

impl LeRemoveAdvSet {
    /// Create a new instance of the command with the provided parameters.
    pub fn new(param: AdvHandle) -> (r: Self)
        ensures
            r.spec_params() == param,
    {
        LeRemoveAdvSet(param)
    }

    /// This command's opcode is group LE, command 0x003c: 0x203c.
    pub proof fn lemma_opcode()
        ensures
            Self::spec_opcode() == 0x203c,
    {
        lemma_opcode_value(LE, 0x003c);
    }
}

impl Cmd for LeRemoveAdvSet {
    type Params = AdvHandle;

    open spec fn spec_opcode() -> u16 {
        spec_opcode_raw(LE, 0x003c)
    }

    closed spec fn spec_params(&self) -> AdvHandle {
        self.0
    }

    fn opcode() -> (r: Opcode) {
        Opcode::new(OpcodeGroup::new(LE), 0x003c)
    }

    fn params(&self) -> (r: &AdvHandle) {
        &self.0
    }

    proof fn lemma_packet(&self) {
    }
}

impl WriteHci for LeRemoveAdvSet {
    closed spec fn spec_hci_bytes(&self) -> Seq<u8> {
        spec_cmd_packet(spec_opcode_raw(LE, 0x003c), self.0.spec_hci_bytes())
    }

    fn size(&self) -> (r: usize) {
        self.0.size() + 3
    }

    fn write_hci(&self, out: &mut Vec<u8>) {
        write_cmd_packet(Opcode::new(OpcodeGroup::new(LE), 0x003c), &self.0, out);
    }
}

impl SyncCmd for LeRemoveAdvSet {
    type Return = ();
    type Handle = ();

    open spec fn spec_handle_ok(data: Seq<u8>, h: ()) -> bool {
        true
    }

    open spec fn spec_handle_err(data: Seq<u8>, e: FromHciBytesError) -> bool {
        false
    }

    open spec fn spec_return_ok(data: Seq<u8>, v: ()) -> bool {
        spec_decodes_complete::<()>(data, v)
    }

    open spec fn spec_return_err(data: Seq<u8>, e: FromHciBytesError) -> bool {
        spec_decode_complete_err::<()>(data, e)
    }

    fn param_handle(&self) -> (r: ())
        ensures
            r == (),
    {
    }

    fn return_handle(data: &[u8]) -> (r: Result<(), FromHciBytesError>) {
        Ok(())
    }

    fn return_from_hci_bytes(data: &[u8]) -> (r: Result<(), FromHciBytesError>) {
        <() as FromHciBytes>::from_hci_bytes_complete(data)
    }
}

/// The LeClearAdvSets command (group LE, command 0x003d).
#[derive(Debug, Clone, Copy, PartialEq, Eq, PartialOrd, Ord, Hash, Default)]
pub struct LeClearAdvSets(());

impl LeClearAdvSets {
    /// Create a new instance of the command.
    pub fn new() -> (r: Self)
        ensures
            r.spec_params() == (),
    {
        LeClearAdvSets(())
    }

    /// This command's opcode is group LE, command 0x003d: 0x203d.
    pub proof fn lemma_opcode()
        ensures
            Self::spec_opcode() == 0x203d,
    {
        lemma_opcode_value(LE, 0x003d);
    }
}

impl Cmd for LeClearAdvSets {
    type Params = ();

    open spec fn spec_opcode() -> u16 {
        spec_opcode_raw(LE, 0x003d)
    }

    closed spec fn spec_params(&self) -> () {
        self.0
    }

    fn opcode() -> (r: Opcode) {
        Opcode::new(OpcodeGroup::new(LE), 0x003d)
    }

    fn params(&self) -> (r: &()) {
        &self.0
    }

    proof fn lemma_packet(&self) {
    }
}

impl WriteHci for LeClearAdvSets {
    closed spec fn spec_hci_bytes(&self) -> Seq<u8> {
        spec_cmd_packet(spec_opcode_raw(LE, 0x003d), self.0.spec_hci_bytes())
    }

    fn size(&self) -> (r: usize) {
        self.0.size() + 3
    }

    fn write_hci(&self, out: &mut Vec<u8>) {
        write_cmd_packet(Opcode::new(OpcodeGroup::new(LE), 0x003d), &self.0, out);
    }
}

impl SyncCmd for LeClearAdvSets {
    type Return = ();
    type Handle = ();

    open spec fn spec_handle_ok(data: Seq<u8>, h: ()) -> bool {
        true
    }

    open spec fn spec_handle_err(data: Seq<u8>, e: FromHciBytesError) -> bool {
        false
    }

    open spec fn spec_return_ok(data: Seq<u8>, v: ()) -> bool {
        spec_decodes_complete::<()>(data, v)
    }

    open spec fn spec_return_err(data: Seq<u8>, e: FromHciBytesError) -> bool {
        spec_decode_complete_err::<()>(data, e)
    }

    fn param_handle(&self) -> (r: ())
        ensures
            r == (),
    {
    }

    fn return_handle(data: &[u8]) -> (r: Result<(), FromHciBytesError>) {
        Ok(())
    }

    fn return_from_hci_bytes(data: &[u8]) -> (r: Result<(), FromHciBytesError>) {
        <() as FromHciBytes>::from_hci_bytes_complete(data)
    }
}

/// Parameters for the [`LeSetPeriodicAdvParams`] command.
#[derive(Debug, Clone, Copy, PartialEq, Eq, PartialOrd, Ord, Hash)]
#[allow(missing_docs)]
pub struct LeSetPeriodicAdvParamsParams {
    pub adv_handle: AdvHandle,
    pub periodic_adv_interval_min: Duration<1_250>,
    pub periodic_adv_interval_max: Duration<1_250>,
    pub periodic_adv_props: PeriodicAdvProps,
}

/// The value of a [`LeSetPeriodicAdvParamsParams`], with byte slices taken as sequences.
#[allow(missing_docs)]
pub struct LeSetPeriodicAdvParamsParamsView {
    pub adv_handle: u8,
    pub periodic_adv_interval_min: u16,
    pub periodic_adv_interval_max: u16,
    pub periodic_adv_props: Seq<u8>,
}

impl View for LeSetPeriodicAdvParamsParams {
    type V = LeSetPeriodicAdvParamsParamsView;

    open spec fn view(&self) -> LeSetPeriodicAdvParamsParamsView {
        LeSetPeriodicAdvParamsParamsView { adv_handle: self.adv_handle@, periodic_adv_interval_min: self.periodic_adv_interval_min@, periodic_adv_interval_max: self.periodic_adv_interval_max@, periodic_adv_props: self.periodic_adv_props@ }
    }
}

impl WriteHci for LeSetPeriodicAdvParamsParams {
    open spec fn spec_hci_bytes(&self) -> Seq<u8> {
        self.adv_handle.spec_hci_bytes() + self.periodic_adv_interval_min.spec_hci_bytes() + self.periodic_adv_interval_max.spec_hci_bytes() + self.periodic_adv_props.spec_hci_bytes()
    }

    fn size(&self) -> (r: usize) {
        let mut n = self.adv_handle.size();
        proof {
            assert(self.adv_handle.spec_hci_bytes() + self.periodic_adv_interval_min.spec_hci_bytes() =~= (self.adv_handle.spec_hci_bytes() + self.periodic_adv_interval_min.spec_hci_bytes()));
        }
        n = n + self.periodic_adv_interval_min.size();
        proof {
            assert(self.adv_handle.spec_hci_bytes() + self.periodic_adv_interval_min.spec_hci_bytes() + self.periodic_adv_interval_max.spec_hci_bytes() =~= (self.adv_handle.spec_hci_bytes() + self.periodic_adv_interval_min.spec_hci_bytes() + self.periodic_adv_interval_max.spec_hci_bytes()));
        }
        n = n + self.periodic_adv_interval_max.size();
        proof {
            assert(self.adv_handle.spec_hci_bytes() + self.periodic_adv_interval_min.spec_hci_bytes() + self.periodic_adv_interval_max.spec_hci_bytes() + self.periodic_adv_props.spec_hci_bytes() =~= (self.adv_handle.spec_hci_bytes() + self.periodic_adv_interval_min.spec_hci_bytes() + self.periodic_adv_interval_max.spec_hci_bytes() + self.periodic_adv_props.spec_hci_bytes()));
        }
        n = n + self.periodic_adv_props.size();
        n
    }

    fn write_hci(&self, out: &mut Vec<u8>) {
        self.adv_handle.write_hci(out);
        self.periodic_adv_interval_min.write_hci(out);
        self.periodic_adv_interval_max.write_hci(out);
        self.periodic_adv_props.write_hci(out);
        proof {
            assert(out@ =~= old(out)@ + self.spec_hci_bytes());
        }
    }
}

impl LeSetPeriodicAdvParamsParams {
    /// The bytes of a `LeSetPeriodicAdvParamsParams` are the bytes of its fields, one after the
    /// other, in the order in which the fields are declared.
    pub proof fn lemma_fields_in_order(&self)
        ensures
            self.spec_hci_bytes() == self.adv_handle.spec_hci_bytes() + self.periodic_adv_interval_min.spec_hci_bytes() + self.periodic_adv_interval_max.spec_hci_bytes() + self.periodic_adv_props.spec_hci_bytes(),
    {
    }
}


/// The LeSetPeriodicAdvParams command (group LE, command 0x003e).
#[derive(Debug, Clone, Copy, PartialEq, Eq, PartialOrd, Ord, Hash)]
pub struct LeSetPeriodicAdvParams(LeSetPeriodicAdvParamsParams);

impl LeSetPeriodicAdvParams {
    /// Create a new instance of the command.
    pub fn new(adv_handle: AdvHandle, periodic_adv_interval_min: Duration<1_250>, periodic_adv_interval_max: Duration<1_250>, periodic_adv_props: PeriodicAdvProps) -> (result: Self)
        ensures
            result.spec_params() == (LeSetPeriodicAdvParamsParams { adv_handle: adv_handle, periodic_adv_interval_min: periodic_adv_interval_min, periodic_adv_interval_max: periodic_adv_interval_max, periodic_adv_props: periodic_adv_props }),
    {
        LeSetPeriodicAdvParams(LeSetPeriodicAdvParamsParams { adv_handle: adv_handle, periodic_adv_interval_min: periodic_adv_interval_min, periodic_adv_interval_max: periodic_adv_interval_max, periodic_adv_props: periodic_adv_props })
    }

    /// This command's opcode is group LE, command 0x003e: 0x203e.
    pub proof fn lemma_opcode()
        ensures
            Self::spec_opcode() == 0x203e,
    {
        lemma_opcode_value(LE, 0x003e);
    }
}

impl Cmd for LeSetPeriodicAdvParams {
    type Params = LeSetPeriodicAdvParamsParams;

    open spec fn spec_opcode() -> u16 {
        spec_opcode_raw(LE, 0x003e)
    }

    closed spec fn spec_params(&self) -> LeSetPeriodicAdvParamsParams {
        self.0
    }

    fn opcode() -> (r: Opcode) {
        Opcode::new(OpcodeGroup::new(LE), 0x003e)
    }

    fn params(&self) -> (r: &LeSetPeriodicAdvParamsParams) {
        &self.0
    }

    proof fn lemma_packet(&self) {
    }
}

impl WriteHci for LeSetPeriodicAdvParams {
    closed spec fn spec_hci_bytes(&self) -> Seq<u8> {
        spec_cmd_packet(spec_opcode_raw(LE, 0x003e), self.0.spec_hci_bytes())
    }

    fn size(&self) -> (r: usize) {
        self.0.size() + 3
    }

    fn write_hci(&self, out: &mut Vec<u8>) {
        write_cmd_packet(Opcode::new(OpcodeGroup::new(LE), 0x003e), &self.0, out);
    }
}

impl SyncCmd for LeSetPeriodicAdvParams {
    type Return = ();
    type Handle = ();

    open spec fn spec_handle_ok(data: Seq<u8>, h: ()) -> bool {
        true
    }

    open spec fn spec_handle_err(data: Seq<u8>, e: FromHciBytesError) -> bool {
        false
    }

    open spec fn spec_return_ok(data: Seq<u8>, v: ()) -> bool {
        spec_decodes_complete::<()>(data, v)
    }

    open spec fn spec_return_err(data: Seq<u8>, e: FromHciBytesError) -> bool {
        spec_decode_complete_err::<()>(data, e)
    }

    fn param_handle(&self) -> (r: ())
        ensures
            r == (),
    {
    }

    fn return_handle(data: &[u8]) -> (r: Result<(), FromHciBytesError>) {
        Ok(())
    }

    fn return_from_hci_bytes(data: &[u8]) -> (r: Result<(), FromHciBytesError>) {
        <() as FromHciBytes>::from_hci_bytes_complete(data)
    }
}

/// Parameters for the [`LeSetPeriodicAdvParamsV2`] command.
#[derive(Debug, Clone, Copy, PartialEq, Eq, PartialOrd, Ord, Hash)]
#[allow(missing_docs)]
pub struct LeSetPeriodicAdvParamsV2Params {
    pub adv_handle: AdvHandle,
    pub periodic_adv_interval_min: Duration<1_250>,
    pub periodic_adv_interval_max: Duration<1_250>,
    pub periodic_adv_props: PeriodicAdvProps,
    pub num_subevents: u8,
    pub subevent_interval: u8,
    pub response_slot_delay: u8,
    pub response_slot_spacing: u8,
    pub num_response_slots: u8,
}

/// The value of a [`LeSetPeriodicAdvParamsV2Params`], with byte slices taken as sequences.
#[allow(missing_docs)]
pub struct LeSetPeriodicAdvParamsV2ParamsView {
    pub adv_handle: u8,
    pub periodic_adv_interval_min: u16,
    pub periodic_adv_interval_max: u16,
    pub periodic_adv_props: Seq<u8>,
    pub num_subevents: u8,
    pub subevent_interval: u8,
    pub response_slot_delay: u8,
    pub response_slot_spacing: u8,
    pub num_response_slots: u8,
}

impl View for LeSetPeriodicAdvParamsV2Params {
    type V = LeSetPeriodicAdvParamsV2ParamsView;

    open spec fn view(&self) -> LeSetPeriodicAdvParamsV2ParamsView {
        LeSetPeriodicAdvParamsV2ParamsView { adv_handle: self.adv_handle@, periodic_adv_interval_min: self.periodic_adv_interval_min@, periodic_adv_interval_max: self.periodic_adv_interval_max@, periodic_adv_props: self.periodic_adv_props@, num_subevents: self.num_subevents@, subevent_interval: self.subevent_interval@, response_slot_delay: self.response_slot_delay@, response_slot_spacing: self.response_slot_spacing@, num_response_slots: self.num_response_slots@ }
    }
}

impl WriteHci for LeSetPeriodicAdvParamsV2Params {
    open spec fn spec_hci_bytes(&self) -> Seq<u8> {
        self.adv_handle.spec_hci_bytes() + self.periodic_adv_interval_min.spec_hci_bytes() + self.periodic_adv_interval_max.spec_hci_bytes() + self.periodic_adv_props.spec_hci_bytes() + self.num_subevents.spec_hci_bytes() + self.subevent_interval.spec_hci_bytes() + self.response_slot_delay.spec_hci_bytes() + self.response_slot_spacing.spec_hci_bytes() + self.num_response_slots.spec_hci_bytes()
    }

    fn size(&self) -> (r: usize) {
        let mut n = self.adv_handle.size();
        proof {
            assert(self.adv_handle.spec_hci_bytes() + self.periodic_adv_interval_min.spec_hci_bytes() =~= (self.adv_handle.spec_hci_bytes() + self.periodic_adv_interval_min.spec_hci_bytes()));
        }
        n = n + self.periodic_adv_interval_min.size();
        proof {
            assert(self.adv_handle.spec_hci_bytes() + self.periodic_adv_interval_min.spec_hci_bytes() + self.periodic_adv_interval_max.spec_hci_bytes() =~= (self.adv_handle.spec_hci_bytes() + self.periodic_adv_interval_min.spec_hci_bytes() + self.periodic_adv_interval_max.spec_hci_bytes()));
        }
        n = n + self.periodic_adv_interval_max.size();
        proof {
            assert(self.adv_handle.spec_hci_bytes() + self.periodic_adv_interval_min.spec_hci_bytes() + self.periodic_adv_interval_max.spec_hci_bytes() + self.periodic_adv_props.spec_hci_bytes() =~= (self.adv_handle.spec_hci_bytes() + self.periodic_adv_interval_min.spec_hci_bytes() + self.periodic_adv_interval_max.spec_hci_bytes() + self.periodic_adv_props.spec_hci_bytes()));
        }
        n = n + self.periodic_adv_props.size();
        proof {
            assert(self.adv_handle.spec_hci_bytes() + self.periodic_adv_interval_min.spec_hci_bytes() + self.periodic_adv_interval_max.spec_hci_bytes() + self.periodic_adv_props.spec_hci_bytes() + self.num_subevents.spec_hci_bytes() =~= (self.adv_handle.spec_hci_bytes() + self.periodic_adv_interval_min.spec_hci_bytes() + self.periodic_adv_interval_max.spec_hci_bytes() + self.periodic_adv_props.spec_hci_bytes() + self.num_subevents.spec_hci_bytes()));
        }
        n = n + self.num_subevents.size();
        proof {
            assert(self.adv_handle.spec_hci_bytes() + self.periodic_adv_interval_min.spec_hci_bytes() + self.periodic_adv_interval_max.spec_hci_bytes() + self.periodic_adv_props.spec_hci_bytes() + self.num_subevents.spec_hci_bytes() + self.subevent_interval.spec_hci_bytes() =~= (self.adv_handle.spec_hci_bytes() + self.periodic_adv_interval_min.spec_hci_bytes() + self.periodic_adv_interval_max.spec_hci_bytes() + self.periodic_adv_props.spec_hci_bytes() + self.num_subevents.spec_hci_bytes() + self.subevent_interval.spec_hci_bytes()));
        }
        n = n + self.subevent_interval.size();
        proof {
            assert(self.adv_handle.spec_hci_bytes() + self.periodic_adv_interval_min.spec_hci_bytes() + self.periodic_adv_interval_max.spec_hci_bytes() + self.periodic_adv_props.spec_hci_bytes() + self.num_subevents.spec_hci_bytes() + self.subevent_interval.spec_hci_bytes() + self.response_slot_delay.spec_hci_bytes() =~= (self.adv_handle.spec_hci_bytes() + self.periodic_adv_interval_min.spec_hci_bytes() + self.periodic_adv_interval_max.spec_hci_bytes() + self.periodic_adv_props.spec_hci_bytes() + self.num_subevents.spec_hci_bytes() + self.subevent_interval.spec_hci_bytes() + self.response_slot_delay.spec_hci_bytes()));
        }
        n = n + self.response_slot_delay.size();
        proof {
            assert(self.adv_handle.spec_hci_bytes() + self.periodic_adv_interval_min.spec_hci_bytes() + self.periodic_adv_interval_max.spec_hci_bytes() + self.periodic_adv_props.spec_hci_bytes() + self.num_subevents.spec_hci_bytes() + self.subevent_interval.spec_hci_bytes() + self.response_slot_delay.spec_hci_bytes() + self.response_slot_spacing.spec_hci_bytes() =~= (self.adv_handle.spec_hci_bytes() + self.periodic_adv_interval_min.spec_hci_bytes() + self.periodic_adv_interval_max.spec_hci_bytes() + self.periodic_adv_props.spec_hci_bytes() + self.num_subevents.spec_hci_bytes() + self.subevent_interval.spec_hci_bytes() + self.response_slot_delay.spec_hci_bytes() + self.response_slot_spacing.spec_hci_bytes()));
        }
        n = n + self.response_slot_spacing.size();
        proof {
            assert(self.adv_handle.spec_hci_bytes() + self.periodic_adv_interval_min.spec_hci_bytes() + self.periodic_adv_interval_max.spec_hci_bytes() + self.periodic_adv_props.spec_hci_bytes() + self.num_subevents.spec_hci_bytes() + self.subevent_interval.spec_hci_bytes() + self.response_slot_delay.spec_hci_bytes() + self.response_slot_spacing.spec_hci_bytes() + self.num_response_slots.spec_hci_bytes() =~= (self.adv_handle.spec_hci_bytes() + self.periodic_adv_interval_min.spec_hci_bytes() + self.periodic_adv_interval_max.spec_hci_bytes() + self.periodic_adv_props.spec_hci_bytes() + self.num_subevents.spec_hci_bytes() + self.subevent_interval.spec_hci_bytes() + self.response_slot_delay.spec_hci_bytes() + self.response_slot_spacing.spec_hci_bytes() + self.num_response_slots.spec_hci_bytes()));
        }
        n = n + self.num_response_slots.size();
        n
    }

    fn write_hci(&self, out: &mut Vec<u8>) {
        self.adv_handle.write_hci(out);
        self.periodic_adv_interval_min.write_hci(out);
        self.periodic_adv_interval_max.write_hci(out);
        self.periodic_adv_props.write_hci(out);
        self.num_subevents.write_hci(out);
        self.subevent_interval.write_hci(out);
        self.response_slot_delay.write_hci(out);
        self.response_slot_spacing.write_hci(out);
        self.num_response_slots.write_hci(out);
        proof {
            assert(out@ =~= old(out)@ + self.spec_hci_bytes());
        }
    }
}

impl LeSetPeriodicAdvParamsV2Params {
    /// The bytes of a `LeSetPeriodicAdvParamsV2Params` are the bytes of its fields, one after the
    /// other, in the order in which the fields are declared.
    #[verifier::rlimit(60)]
    pub proof fn lemma_fields_in_order(&self)
        ensures
            self.spec_hci_bytes() == self.adv_handle.spec_hci_bytes() + self.periodic_adv_interval_min.spec_hci_bytes() + self.periodic_adv_interval_max.spec_hci_bytes() + self.periodic_adv_props.spec_hci_bytes() + self.num_subevents.spec_hci_bytes() + self.subevent_interval.spec_hci_bytes() + self.response_slot_delay.spec_hci_bytes() + self.response_slot_spacing.spec_hci_bytes() + self.num_response_slots.spec_hci_bytes(),
    {
    }
}


/// The LeSetPeriodicAdvParamsV2 command (group LE, command 0x003e).
#[derive(Debug, Clone, Copy, PartialEq, Eq, PartialOrd, Ord, Hash)]
pub struct LeSetPeriodicAdvParamsV2(LeSetPeriodicAdvParamsV2Params);

impl LeSetPeriodicAdvParamsV2 {
    /// Create a new instance of the command.
    pub fn new(adv_handle: AdvHandle, periodic_adv_interval_min: Duration<1_250>, periodic_adv_interval_max: Duration<1_250>, periodic_adv_props: PeriodicAdvProps, num_subevents: u8, subevent_interval: u8, response_slot_delay: u8, response_slot_spacing: u8, num_response_slots: u8) -> (result: Self)
        ensures
            result.spec_params() == (LeSetPeriodicAdvParamsV2Params { adv_handle: adv_handle, periodic_adv_interval_min: periodic_adv_interval_min, periodic_adv_interval_max: periodic_adv_interval_max, periodic_adv_props: periodic_adv_props, num_subevents: num_subevents, subevent_interval: subevent_interval, response_slot_delay: response_slot_delay, response_slot_spacing: response_slot_spacing, num_response_slots: num_response_slots }),
    {
        LeSetPeriodicAdvParamsV2(LeSetPeriodicAdvParamsV2Params { adv_handle: adv_handle, periodic_adv_interval_min: periodic_adv_interval_min, periodic_adv_interval_max: periodic_adv_interval_max, periodic_adv_props: periodic_adv_props, num_subevents: num_subevents, subevent_interval: subevent_interval, response_slot_delay: response_slot_delay, response_slot_spacing: response_slot_spacing, num_response_slots: num_response_slots })
    }

    /// This command's opcode is group LE, command 0x003e: 0x203e.
    pub proof fn lemma_opcode()
        ensures
            Self::spec_opcode() == 0x203e,
    {
        lemma_opcode_value(LE, 0x003e);
    }
}

impl Cmd for LeSetPeriodicAdvParamsV2 {
    type Params = LeSetPeriodicAdvParamsV2Params;

    open spec fn spec_opcode() -> u16 {
        spec_opcode_raw(LE, 0x003e)
    }

    closed spec fn spec_params(&self) -> LeSetPeriodicAdvParamsV2Params {
        self.0
    }

    fn opcode() -> (r: Opcode) {
        Opcode::new(OpcodeGroup::new(LE), 0x003e)
    }

    fn params(&self) -> (r: &LeSetPeriodicAdvParamsV2Params) {
        &self.0
    }

    proof fn lemma_packet(&self) {
    }
}

impl WriteHci for LeSetPeriodicAdvParamsV2 {
    closed spec fn spec_hci_bytes(&self) -> Seq<u8> {
        spec_cmd_packet(spec_opcode_raw(LE, 0x003e), self.0.spec_hci_bytes())
    }

    fn size(&self) -> (r: usize) {
        self.0.size() + 3
    }

    fn write_hci(&self, out: &mut Vec<u8>) {
        write_cmd_packet(Opcode::new(OpcodeGroup::new(LE), 0x003e), &self.0, out);
    }
}

impl SyncCmd for LeSetPeriodicAdvParamsV2 {
    type Return = AdvHandle;
    type Handle = AdvHandle;

    open spec fn spec_handle_ok(data: Seq<u8>, h: AdvHandle) -> bool {
        spec_decodes_prefix::<AdvHandle>(data, h)
    }

    open spec fn spec_handle_err(data: Seq<u8>, e: FromHciBytesError) -> bool {
        spec_decode_prefix_err::<AdvHandle>(data, e)
    }

    open spec fn spec_return_ok(data: Seq<u8>, v: AdvHandle) -> bool {
        spec_decodes_complete::<AdvHandle>(data, v)
    }

    open spec fn spec_return_err(data: Seq<u8>, e: FromHciBytesError) -> bool {
        spec_decode_complete_err::<AdvHandle>(data, e)
    }

    fn param_handle(&self) -> (r: AdvHandle)
        ensures
            r == self.spec_params().adv_handle,
    {
        self.0.adv_handle
    }

    fn return_handle(data: &[u8]) -> (r: Result<AdvHandle, FromHciBytesError>) {
        match <AdvHandle as FromHciBytes>::from_hci_bytes(data) {
            Ok((x, _)) => Ok(x),
            Err(e) => Err(e),
        }
    }

    fn return_from_hci_bytes(data: &[u8]) -> (r: Result<AdvHandle, FromHciBytesError>) {
        <AdvHandle as FromHciBytes>::from_hci_bytes_complete(data)
    }
}

/// Parameters for the [`LeSetPeriodicAdvData`] command.
#[derive(Debug, Clone, Copy, PartialEq, Eq, PartialOrd, Ord, Hash, Default)]
#[allow(missing_docs)]
pub struct LeSetPeriodicAdvDataParams<'a> {
    pub adv_handle: AdvHandle,
    pub operation: Operation,
    pub adv_data: &'a [u8],
}

/// The value of a [`LeSetPeriodicAdvDataParams`], with byte slices taken as sequences.
#[allow(missing_docs)]
pub struct LeSetPeriodicAdvDataParamsView {
    pub adv_handle: u8,
    pub operation: Operation,
    pub adv_data: Seq<u8>,
}

impl<'a> View for LeSetPeriodicAdvDataParams<'a> {
    type V = LeSetPeriodicAdvDataParamsView;

    open spec fn view(&self) -> LeSetPeriodicAdvDataParamsView {
        LeSetPeriodicAdvDataParamsView { adv_handle: self.adv_handle@, operation: self.operation@, adv_data: self.adv_data@ }
    }
}

impl<'a> WriteHci for LeSetPeriodicAdvDataParams<'a> {
    open spec fn spec_hci_bytes(&self) -> Seq<u8> {
        self.adv_handle.spec_hci_bytes() + self.operation.spec_hci_bytes() + self.adv_data.spec_hci_bytes()
    }

    fn size(&self) -> (r: usize) {
        let mut n = self.adv_handle.size();
        proof {
            assert(self.adv_handle.spec_hci_bytes() + self.operation.spec_hci_bytes() =~= (self.adv_handle.spec_hci_bytes() + self.operation.spec_hci_bytes()));
        }
        n = n + self.operation.size();
        proof {
            assert(self.adv_handle.spec_hci_bytes() + self.operation.spec_hci_bytes() + self.adv_data.spec_hci_bytes() =~= (self.adv_handle.spec_hci_bytes() + self.operation.spec_hci_bytes() + self.adv_data.spec_hci_bytes()));
        }
        n = n + self.adv_data.size();
        n
    }

    fn write_hci(&self, out: &mut Vec<u8>) {
        self.adv_handle.write_hci(out);
        self.operation.write_hci(out);
        self.adv_data.write_hci(out);
        proof {
            assert(out@ =~= old(out)@ + self.spec_hci_bytes());
        }
    }
}

impl<'a> LeSetPeriodicAdvDataParams<'a> {
    /// The bytes of a `LeSetPeriodicAdvDataParams` are the bytes of its fields, one after the
    /// other, in the order in which the fields are declared.
    pub proof fn lemma_fields_in_order(&self)
        ensures
            self.spec_hci_bytes() == self.adv_handle.spec_hci_bytes() + self.operation.spec_hci_bytes() + self.adv_data.spec_hci_bytes(),
    {
    }
}


/// The LeSetPeriodicAdvData command (group LE, command 0x003f).
#[derive(Debug, Clone, Copy, PartialEq, Eq, PartialOrd, Ord, Hash)]
pub struct LeSetPeriodicAdvData<'a>(LeSetPeriodicAdvDataParams<'a>);

impl<'a> LeSetPeriodicAdvData<'a> {
    /// Create a new instance of the command.
    pub fn new(adv_handle: AdvHandle, operation: Operation, adv_data: &'a [u8]) -> (result: Self)
        ensures
            result.spec_params() == (LeSetPeriodicAdvDataParams { adv_handle: adv_handle, operation: operation, adv_data: adv_data }),
    {
        LeSetPeriodicAdvData(LeSetPeriodicAdvDataParams { adv_handle: adv_handle, operation: operation, adv_data: adv_data })
    }

    /// This command's opcode is group LE, command 0x003f: 0x203f.
    pub proof fn lemma_opcode()
        ensures
            Self::spec_opcode() == 0x203f,
    {
        lemma_opcode_value(LE, 0x003f);
    }
}

impl<'a> Cmd for LeSetPeriodicAdvData<'a> {
    type Params = LeSetPeriodicAdvDataParams<'a>;

    open spec fn spec_opcode() -> u16 {
        spec_opcode_raw(LE, 0x003f)
    }

    closed spec fn spec_params(&self) -> LeSetPeriodicAdvDataParams<'a> {
        self.0
    }

    fn opcode() -> (r: Opcode) {
        Opcode::new(OpcodeGroup::new(LE), 0x003f)
    }

    fn params(&self) -> (r: &LeSetPeriodicAdvDataParams<'a>) {
        &self.0
    }

    proof fn lemma_packet(&self) {
    }
}

impl<'a> WriteHci for LeSetPeriodicAdvData<'a> {
    closed spec fn spec_hci_bytes(&self) -> Seq<u8> {
        spec_cmd_packet(spec_opcode_raw(LE, 0x003f), self.0.spec_hci_bytes())
    }

    fn size(&self) -> (r: usize) {
        self.0.size() + 3
    }

    fn write_hci(&self, out: &mut Vec<u8>) {
        write_cmd_packet(Opcode::new(OpcodeGroup::new(LE), 0x003f), &self.0, out);
    }
}

impl<'a> SyncCmd for LeSetPeriodicAdvData<'a> {
    type Return = ();
    type Handle = ();

    open spec fn spec_handle_ok(data: Seq<u8>, h: ()) -> bool {
        true
    }

    open spec fn spec_handle_err(data: Seq<u8>, e: FromHciBytesError) -> bool {
        false
    }

    open spec fn spec_return_ok(data: Seq<u8>, v: ()) -> bool {
        spec_decodes_complete::<()>(data, v)
    }

    open spec fn spec_return_err(data: Seq<u8>, e: FromHciBytesError) -> bool {
        spec_decode_complete_err::<()>(data, e)
    }

    fn param_handle(&self) -> (r: ())
        ensures
            r == (),
    {
    }

    fn return_handle(data: &[u8]) -> (r: Result<(), FromHciBytesError>) {
        Ok(())
    }

    fn return_from_hci_bytes(data: &[u8]) -> (r: Result<(), FromHciBytesError>) {
        <() as FromHciBytes>::from_hci_bytes_complete(data)
    }
}

/// Parameters for the [`LeSetPeriodicAdvEnable`] command.
#[derive(Debug, Clone, Copy, PartialEq, Eq, PartialOrd, Ord, Hash)]
#[allow(missing_docs)]
pub struct LeSetPeriodicAdvEnableParams {
    pub enable: bool,
    pub adv_handle: AdvHandle,
}

/// The value of a [`LeSetPeriodicAdvEnableParams`], with byte slices taken as sequences.
#[allow(missing_docs)]
pub struct LeSetPeriodicAdvEnableParamsView {
    pub enable: bool,
    pub adv_handle: u8,
}

impl View for LeSetPeriodicAdvEnableParams {
    type V = LeSetPeriodicAdvEnableParamsView;

    open spec fn view(&self) -> LeSetPeriodicAdvEnableParamsView {
        LeSetPeriodicAdvEnableParamsView { enable: self.enable@, adv_handle: self.adv_handle@ }
    }
}

impl WriteHci for LeSetPeriodicAdvEnableParams {
    open spec fn spec_hci_bytes(&self) -> Seq<u8> {
        self.enable.spec_hci_bytes() + self.adv_handle.spec_hci_bytes()
    }

    fn size(&self) -> (r: usize) {
        let mut n = self.enable.size();
        proof {
            assert(self.enable.spec_hci_bytes() + self.adv_handle.spec_hci_bytes() =~= (self.enable.spec_hci_bytes() + self.adv_handle.spec_hci_bytes()));
        }
        n = n + self.adv_handle.size();
        n
    }

    fn write_hci(&self, out: &mut Vec<u8>) {
        self.enable.write_hci(out);
        self.adv_handle.write_hci(out);
        proof {
            assert(out@ =~= old(out)@ + self.spec_hci_bytes());
        }
    }
}

impl LeSetPeriodicAdvEnableParams {
    /// The bytes of a `LeSetPeriodicAdvEnableParams` are the bytes of its fields, one after the
    /// other, in the order in which the fields are declared.
    pub proof fn lemma_fields_in_order(&self)
        ensures
            self.spec_hci_bytes() == self.enable.spec_hci_bytes() + self.adv_handle.spec_hci_bytes(),
    {
    }
}


/// The LeSetPeriodicAdvEnable command (group LE, command 0x0040).
#[derive(Debug, Clone, Copy, PartialEq, Eq, PartialOrd, Ord, Hash)]
pub struct LeSetPeriodicAdvEnable(LeSetPeriodicAdvEnableParams);

impl LeSetPeriodicAdvEnable {
    /// Create a new instance of the command.
    pub fn new(enable: bool, adv_handle: AdvHandle) -> (result: Self)
        ensures
            result.spec_params() == (LeSetPeriodicAdvEnableParams { enable: enable, adv_handle: adv_handle }),
    {
        LeSetPeriodicAdvEnable(LeSetPeriodicAdvEnableParams { enable: enable, adv_handle: adv_handle })
    }

    /// This command's opcode is group LE, command 0x0040: 0x2040.
    pub proof fn lemma_opcode()
        ensures
            Self::spec_opcode() == 0x2040,
    {
        lemma_opcode_value(LE, 0x0040);
    }
}

impl Cmd for LeSetPeriodicAdvEnable {
    type Params = LeSetPeriodicAdvEnableParams;

    open spec fn spec_opcode() -> u16 {
        spec_opcode_raw(LE, 0x0040)
    }

    closed spec fn spec_params(&self) -> LeSetPeriodicAdvEnableParams {
        self.0
    }

    fn opcode() -> (r: Opcode) {
        Opcode::new(OpcodeGroup::new(LE), 0x0040)
    }

    fn params(&self) -> (r: &LeSetPeriodicAdvEnableParams) {
        &self.0
    }

    proof fn lemma_packet(&self) {
    }
}

impl WriteHci for LeSetPeriodicAdvEnable {
    closed spec fn spec_hci_bytes(&self) -> Seq<u8> {
        spec_cmd_packet(spec_opcode_raw(LE, 0x0040), self.0.spec_hci_bytes())
    }

    fn size(&self) -> (r: usize) {
        self.0.size() + 3
    }

    fn write_hci(&self, out: &mut Vec<u8>) {
        write_cmd_packet(Opcode::new(OpcodeGroup::new(LE), 0x0040), &self.0, out);
    }
}

impl SyncCmd for LeSetPeriodicAdvEnable {
    type Return = ();
    type Handle = ();

    open spec fn spec_handle_ok(data: Seq<u8>, h: ()) -> bool {
        true
    }

    open spec fn spec_handle_err(data: Seq<u8>, e: FromHciBytesError) -> bool {
        false
    }

    open spec fn spec_return_ok(data: Seq<u8>, v: ()) -> bool {
        spec_decodes_complete::<()>(data, v)
    }

    open spec fn spec_return_err(data: Seq<u8>, e: FromHciBytesError) -> bool {
        spec_decode_complete_err::<()>(data, e)
    }

    fn param_handle(&self) -> (r: ())
        ensures
            r == (),
    {
    }

    fn return_handle(data: &[u8]) -> (r: Result<(), FromHciBytesError>) {
        Ok(())
    }

    fn return_from_hci_bytes(data: &[u8]) -> (r: Result<(), FromHciBytesError>) {
        <() as FromHciBytes>::from_hci_bytes_complete(data)
    }
}

/// Parameters for the [`LeSetExtScanEnable`] command.
#[derive(Debug, Clone, Copy, PartialEq, Eq, PartialOrd, Ord, Hash)]
#[allow(missing_docs)]
pub struct LeSetExtScanEnableParams {
    pub enable: bool,
    pub filter_duplicates: FilterDuplicates,
    pub duration: Duration<10_000>,
    pub period: Duration<1_280_000>,
}

/// The value of a [`LeSetExtScanEnableParams`], with byte slices taken as sequences.
#[allow(missing_docs)]
pub struct LeSetExtScanEnableParamsView {
    pub enable: bool,
    pub filter_duplicates: FilterDuplicates,
    pub duration: u16,
    pub period: u16,
}

impl View for LeSetExtScanEnableParams {
    type V = LeSetExtScanEnableParamsView;

    open spec fn view(&self) -> LeSetExtScanEnableParamsView {
        LeSetExtScanEnableParamsView { enable: self.enable@, filter_duplicates: self.filter_duplicates@, duration: self.duration@, period: self.period@ }
    }
}

impl WriteHci for LeSetExtScanEnableParams {
    open spec fn spec_hci_bytes(&self) -> Seq<u8> {
        self.enable.spec_hci_bytes() + self.filter_duplicates.spec_hci_bytes() + self.duration.spec_hci_bytes() + self.period.spec_hci_bytes()
    }

    fn size(&self) -> (r: usize) {
        let mut n = self.enable.size();
        proof {
            assert(self.enable.spec_hci_bytes() + self.filter_duplicates.spec_hci_bytes() =~= (self.enable.spec_hci_bytes() + self.filter_duplicates.spec_hci_bytes()));
        }
        n = n + self.filter_duplicates.size();
        proof {
            assert(self.enable.spec_hci_bytes() + self.filter_duplicates.spec_hci_bytes() + self.duration.spec_hci_bytes() =~= (self.enable.spec_hci_bytes() + self.filter_duplicates.spec_hci_bytes() + self.duration.spec_hci_bytes()));
        }
        n = n + self.duration.size();
        proof {
            assert(self.enable.spec_hci_bytes() + self.filter_duplicates.spec_hci_bytes() + self.duration.spec_hci_bytes() + self.period.spec_hci_bytes() =~= (self.enable.spec_hci_bytes() + self.filter_duplicates.spec_hci_bytes() + self.duration.spec_hci_bytes() + self.period.spec_hci_bytes()));
        }
        n = n + self.period.size();
        n
    }

    fn write_hci(&self, out: &mut Vec<u8>) {
        self.enable.write_hci(out);
        self.filter_duplicates.write_hci(out);
        self.duration.write_hci(out);
        self.period.write_hci(out);
        proof {
            assert(out@ =~= old(out)@ + self.spec_hci_bytes());
        }
    }
}

impl LeSetExtScanEnableParams {
    /// The bytes of a `LeSetExtScanEnableParams` are the bytes of its fields, one after the
    /// other, in the order in which the fields are declared.
    pub proof fn lemma_fields_in_order(&self)
        ensures
            self.spec_hci_bytes() == self.enable.spec_hci_bytes() + self.filter_duplicates.spec_hci_bytes() + self.duration.spec_hci_bytes() + self.period.spec_hci_bytes(),
    {
    }
}


/// The LeSetExtScanEnable command (group LE, command 0x0042).
#[derive(Debug, Clone, Copy, PartialEq, Eq, PartialOrd, Ord, Hash)]
pub struct LeSetExtScanEnable(LeSetExtScanEnableParams);

impl LeSetExtScanEnable {
    /// Create a new instance of the command.
    pub fn new(enable: bool, filter_duplicates: FilterDuplicates, duration: Duration<10_000>, period: Duration<1_280_000>) -> (result: Self)
        ensures
            result.spec_params() == (LeSetExtScanEnableParams { enable: enable, filter_duplicates: filter_duplicates, duration: duration, period: period }),
    {
        LeSetExtScanEnable(LeSetExtScanEnableParams { enable: enable, filter_duplicates: filter_duplicates, duration: duration, period: period })
    }

    /// This command's opcode is group LE, command 0x0042: 0x2042.
    pub proof fn lemma_opcode()
        ensures
            Self::spec_opcode() == 0x2042,
    {
        lemma_opcode_value(LE, 0x0042);
    }
}

impl Cmd for LeSetExtScanEnable {
    type Params = LeSetExtScanEnableParams;

    open spec fn spec_opcode() -> u16 {
        spec_opcode_raw(LE, 0x0042)
    }

    closed spec fn spec_params(&self) -> LeSetExtScanEnableParams {
        self.0
    }

    fn opcode() -> (r: Opcode) {
        Opcode::new(OpcodeGroup::new(LE), 0x0042)
    }

    fn params(&self) -> (r: &LeSetExtScanEnableParams) {
        &self.0
    }

    proof fn lemma_packet(&self) {
    }
}

impl WriteHci for LeSetExtScanEnable {
    closed spec fn spec_hci_bytes(&self) -> Seq<u8> {
        spec_cmd_packet(spec_opcode_raw(LE, 0x0042), self.0.spec_hci_bytes())
    }

    fn size(&self) -> (r: usize) {
        self.0.size() + 3
    }

    fn write_hci(&self, out: &mut Vec<u8>) {
        write_cmd_packet(Opcode::new(OpcodeGroup::new(LE), 0x0042), &self.0, out);
    }
}

impl SyncCmd for LeSetExtScanEnable {
    type Return = ();
    type Handle = ();

    open spec fn spec_handle_ok(data: Seq<u8>, h: ()) -> bool {
        true
    }

    open spec fn spec_handle_err(data: Seq<u8>, e: FromHciBytesError) -> bool {
        false
    }

    open spec fn spec_return_ok(data: Seq<u8>, v: ()) -> bool {
        spec_decodes_complete::<()>(data, v)
    }

    open spec fn spec_return_err(data: Seq<u8>, e: FromHciBytesError) -> bool {
        spec_decode_complete_err::<()>(data, e)
    }

    fn param_handle(&self) -> (r: ())
        ensures
            r == (),
    {
    }

    fn return_handle(data: &[u8]) -> (r: Result<(), FromHciBytesError>) {
        Ok(())
    }

    fn return_from_hci_bytes(data: &[u8]) -> (r: Result<(), FromHciBytesError>) {
        <() as FromHciBytes>::from_hci_bytes_complete(data)
    }
}

/// Parameters for the [`LePeriodicAdvCreateSync`] command.
#[derive(Debug, Clone, Copy, PartialEq, Eq, PartialOrd, Ord, Hash)]
#[allow(missing_docs)]
pub struct LePeriodicAdvCreateSyncParams {
    pub options: LePeriodicAdvCreateSyncOptions,
    pub adv_sid: u8,
    pub adv_addr_kind: AddrKind,
    pub adv_addr: BdAddr,
    pub skip: u16,
    pub sync_timeout: Duration<10_000>,
    pub sync_cte_kind: CteMask,
}

/// The value of a [`LePeriodicAdvCreateSyncParams`], with byte slices taken as sequences.
#[allow(missing_docs)]
pub struct LePeriodicAdvCreateSyncParamsView {
    pub options: u8,
    pub adv_sid: u8,
    pub adv_addr_kind: u8,
    pub adv_addr: Seq<u8>,
    pub skip: u16,
    pub sync_timeout: u16,
    pub sync_cte_kind: u8,
}

impl View for LePeriodicAdvCreateSyncParams {
    type V = LePeriodicAdvCreateSyncParamsView;

    open spec fn view(&self) -> LePeriodicAdvCreateSyncParamsView {
        LePeriodicAdvCreateSyncParamsView { options: self.options@, adv_sid: self.adv_sid@, adv_addr_kind: self.adv_addr_kind@, adv_addr: self.adv_addr@, skip: self.skip@, sync_timeout: self.sync_timeout@, sync_cte_kind: self.sync_cte_kind@ }
    }
}

impl WriteHci for LePeriodicAdvCreateSyncParams {
    open spec fn spec_hci_bytes(&self) -> Seq<u8> {
        self.options.spec_hci_bytes() + self.adv_sid.spec_hci_bytes() + self.adv_addr_kind.spec_hci_bytes() + self.adv_addr.spec_hci_bytes() + self.skip.spec_hci_bytes() + self.sync_timeout.spec_hci_bytes() + self.sync_cte_kind.spec_hci_bytes()
    }

    fn size(&self) -> (r: usize) {
        let mut n = self.options.size();
        proof {
            assert(self.options.spec_hci_bytes() + self.adv_sid.spec_hci_bytes() =~= (self.options.spec_hci_bytes() + self.adv_sid.spec_hci_bytes()));
        }
        n = n + self.adv_sid.size();
        proof {
            assert(self.options.spec_hci_bytes() + self.adv_sid.spec_hci_bytes() + self.adv_addr_kind.spec_hci_bytes() =~= (self.options.spec_hci_bytes() + self.adv_sid.spec_hci_bytes() + self.adv_addr_kind.spec_hci_bytes()));
        }
        n = n + self.adv_addr_kind.size();
        proof {
            assert(self.options.spec_hci_bytes() + self.adv_sid.spec_hci_bytes() + self.adv_addr_kind.spec_hci_bytes() + self.adv_addr.spec_hci_bytes() =~= (self.options.spec_hci_bytes() + self.adv_sid.spec_hci_bytes() + self.adv_addr_kind.spec_hci_bytes() + self.adv_addr.spec_hci_bytes()));
        }
        n = n + self.adv_addr.size();
        proof {
            assert(self.options.spec_hci_bytes() + self.adv_sid.spec_hci_bytes() + self.adv_addr_kind.spec_hci_bytes() + self.adv_addr.spec_hci_bytes() + self.skip.spec_hci_bytes() =~= (self.options.spec_hci_bytes() + self.adv_sid.spec_hci_bytes() + self.adv_addr_kind.spec_hci_bytes() + self.adv_addr.spec_hci_bytes() + self.skip.spec_hci_bytes()));
        }
        n = n + self.skip.size();
        proof {
            assert(self.options.spec_hci_bytes() + self.adv_sid.spec_hci_bytes() + self.adv_addr_kind.spec_hci_bytes() + self.adv_addr.spec_hci_bytes() + self.skip.spec_hci_bytes() + self.sync_timeout.spec_hci_bytes() =~= (self.options.spec_hci_bytes() + self.adv_sid.spec_hci_bytes() + self.adv_addr_kind.spec_hci_bytes() + self.adv_addr.spec_hci_bytes() + self.skip.spec_hci_bytes() + self.sync_timeout.spec_hci_bytes()));
        }
        n = n + self.sync_timeout.size();
        proof {
            assert(self.options.spec_hci_bytes() + self.adv_sid.spec_hci_bytes() + self.adv_addr_kind.spec_hci_bytes() + self.adv_addr.spec_hci_bytes() + self.skip.spec_hci_bytes() + self.sync_timeout.spec_hci_bytes() + self.sync_cte_kind.spec_hci_bytes() =~= (self.options.spec_hci_bytes() + self.adv_sid.spec_hci_bytes() + self.adv_addr_kind.spec_hci_bytes() + self.adv_addr.spec_hci_bytes() + self.skip.spec_hci_bytes() + self.sync_timeout.spec_hci_bytes() + self.sync_cte_kind.spec_hci_bytes()));
        }
        n = n + self.sync_cte_kind.size();
        n
    }

    fn write_hci(&self, out: &mut Vec<u8>) {
        self.options.write_hci(out);
        self.adv_sid.write_hci(out);
        self.adv_addr_kind.write_hci(out);
        self.adv_addr.write_hci(out);
        self.skip.write_hci(out);
        self.sync_timeout.write_hci(out);
        self.sync_cte_kind.write_hci(out);
        proof {
            assert(out@ =~= old(out)@ + self.spec_hci_bytes());
        }
    }
}

impl LePeriodicAdvCreateSyncParams {
    /// The bytes of a `LePeriodicAdvCreateSyncParams` are the bytes of its fields, one after the
    /// other, in the order in which the fields are declared.
    pub proof fn lemma_fields_in_order(&self)
        ensures
            self.spec_hci_bytes() == self.options.spec_hci_bytes() + self.adv_sid.spec_hci_bytes() + self.adv_addr_kind.spec_hci_bytes() + self.adv_addr.spec_hci_bytes() + self.skip.spec_hci_bytes() + self.sync_timeout.spec_hci_bytes() + self.sync_cte_kind.spec_hci_bytes(),
    {
    }
}


/// The LePeriodicAdvCreateSync command (group LE, command 0x0044).
#[derive(Debug, Clone, Copy, PartialEq, Eq, PartialOrd, Ord, Hash)]
pub struct LePeriodicAdvCreateSync(LePeriodicAdvCreateSyncParams);

impl LePeriodicAdvCreateSync {
    /// Create a new instance of the command.
    pub fn new(options: LePeriodicAdvCreateSyncOptions, adv_sid: u8, adv_addr_kind: AddrKind, adv_addr: BdAddr, skip: u16, sync_timeout: Duration<10_000>, sync_cte_kind: CteMask) -> (result: Self)
        ensures
            result.spec_params() == (LePeriodicAdvCreateSyncParams { options: options, adv_sid: adv_sid, adv_addr_kind: adv_addr_kind, adv_addr: adv_addr, skip: skip, sync_timeout: sync_timeout, sync_cte_kind: sync_cte_kind }),
    {
        LePeriodicAdvCreateSync(LePeriodicAdvCreateSyncParams { options: options, adv_sid: adv_sid, adv_addr_kind: adv_addr_kind, adv_addr: adv_addr, skip: skip, sync_timeout: sync_timeout, sync_cte_kind: sync_cte_kind })
    }

    /// This command's opcode is group LE, command 0x0044: 0x2044.
    pub proof fn lemma_opcode()
        ensures
            Self::spec_opcode() == 0x2044,
    {
        lemma_opcode_value(LE, 0x0044);
    }
}

impl Cmd for LePeriodicAdvCreateSync {
    type Params = LePeriodicAdvCreateSyncParams;

    open spec fn spec_opcode() -> u16 {
        spec_opcode_raw(LE, 0x0044)
    }

    closed spec fn spec_params(&self) -> LePeriodicAdvCreateSyncParams {
        self.0
    }

    fn opcode() -> (r: Opcode) {
        Opcode::new(OpcodeGroup::new(LE), 0x0044)
    }

    fn params(&self) -> (r: &LePeriodicAdvCreateSyncParams) {
        &self.0
    }

    proof fn lemma_packet(&self) {
    }
}

impl WriteHci for LePeriodicAdvCreateSync {
    closed spec fn spec_hci_bytes(&self) -> Seq<u8> {
        spec_cmd_packet(spec_opcode_raw(LE, 0x0044), self.0.spec_hci_bytes())
    }

    fn size(&self) -> (r: usize) {
        self.0.size() + 3
    }

    fn write_hci(&self, out: &mut Vec<u8>) {
        write_cmd_packet(Opcode::new(OpcodeGroup::new(LE), 0x0044), &self.0, out);
    }
}

impl AsyncCmd for LePeriodicAdvCreateSync {
}

/// The LePeriodicAdvCreateSyncCancel command (group LE, command 0x0045).
#[derive(Debug, Clone, Copy, PartialEq, Eq, PartialOrd, Ord, Hash, Default)]
pub struct LePeriodicAdvCreateSyncCancel(());

impl LePeriodicAdvCreateSyncCancel {
    /// Create a new instance of the command.
    pub fn new() -> (r: Self)
        ensures
            r.spec_params() == (),
    {
        LePeriodicAdvCreateSyncCancel(())
    }

    /// This command's opcode is group LE, command 0x0045: 0x2045.
    pub proof fn lemma_opcode()
        ensures
            Self::spec_opcode() == 0x2045,
    {
        lemma_opcode_value(LE, 0x0045);
    }
}

impl Cmd for LePeriodicAdvCreateSyncCancel {
    type Params = ();

    open spec fn spec_opcode() -> u16 {
        spec_opcode_raw(LE, 0x0045)
    }

    closed spec fn spec_params(&self) -> () {
        self.0
    }

    fn opcode() -> (r: Opcode) {
        Opcode::new(OpcodeGroup::new(LE), 0x0045)
    }

    fn params(&self) -> (r: &()) {
        &self.0
    }

    proof fn lemma_packet(&self) {
    }
}

impl WriteHci for LePeriodicAdvCreateSyncCancel {
    closed spec fn spec_hci_bytes(&self) -> Seq<u8> {
        spec_cmd_packet(spec_opcode_raw(LE, 0x0045), self.0.spec_hci_bytes())
    }

    fn size(&self) -> (r: usize) {
        self.0.size() + 3
    }

    fn write_hci(&self, out: &mut Vec<u8>) {
        write_cmd_packet(Opcode::new(OpcodeGroup::new(LE), 0x0045), &self.0, out);
    }
}

impl SyncCmd for LePeriodicAdvCreateSyncCancel {
    type Return = ();
    type Handle = ();

    open spec fn spec_handle_ok(data: Seq<u8>, h: ()) -> bool {
        true
    }

    open spec fn spec_handle_err(data: Seq<u8>, e: FromHciBytesError) -> bool {
        false
    }

    open spec fn spec_return_ok(data: Seq<u8>, v: ()) -> bool {
        spec_decodes_complete::<()>(data, v)
    }

    open spec fn spec_return_err(data: Seq<u8>, e: FromHciBytesError) -> bool {
        spec_decode_complete_err::<()>(data, e)
    }

    fn param_handle(&self) -> (r: ())
        ensures
            r == (),
    {
    }

    fn return_handle(data: &[u8]) -> (r: Result<(), FromHciBytesError>) {
        Ok(())
    }

    fn return_from_hci_bytes(data: &[u8]) -> (r: Result<(), FromHciBytesError>) {
        <() as FromHciBytes>::from_hci_bytes_complete(data)
    }
}

/// The LePeriodicAdvTerminateSync command (group LE, command 0x0046).
#[derive(Debug, Clone, Copy, PartialEq, Eq, PartialOrd, Ord, Hash)]
pub struct LePeriodicAdvTerminateSync(SyncHandle);

impl LePeriodicAdvTerminateSync {
    /// Create a new instance of the command with the provided parameters.
    pub fn new(param: SyncHandle) -> (r: Self)
        ensures
            r.spec_params() == param,
    {
        LePeriodicAdvTerminateSync(param)
    }

    /// This command's opcode is group LE, command 0x0046: 0x2046.
    pub proof fn lemma_opcode()
        ensures
            Self::spec_opcode() == 0x2046,
    {
        lemma_opcode_value(LE, 0x0046);
    }
}

impl Cmd for LePeriodicAdvTerminateSync {
    type Params = SyncHandle;

    open spec fn spec_opcode() -> u16 {
        spec_opcode_raw(LE, 0x0046)
    }

    closed spec fn spec_params(&self) -> SyncHandle {
        self.0
    }

    fn opcode() -> (r: Opcode) {
        Opcode::new(OpcodeGroup::new(LE), 0x0046)
    }

    fn params(&self) -> (r: &SyncHandle) {
        &self.0
    }

    proof fn lemma_packet(&self) {
    }
}

impl WriteHci for LePeriodicAdvTerminateSync {
    closed spec fn spec_hci_bytes(&self) -> Seq<u8> {
        spec_cmd_packet(spec_opcode_raw(LE, 0x0046), self.0.spec_hci_bytes())
    }

    fn size(&self) -> (r: usize) {
        self.0.size() + 3
    }

    fn write_hci(&self, out: &mut Vec<u8>) {
        write_cmd_packet(Opcode::new(OpcodeGroup::new(LE), 0x0046), &self.0, out);
    }
}

impl SyncCmd for LePeriodicAdvTerminateSync {
    type Return = ();
    type Handle = ();

    open spec fn spec_handle_ok(data: Seq<u8>, h: ()) -> bool {
        true
    }

    open spec fn spec_handle_err(data: Seq<u8>, e: FromHciBytesError) -> bool {
        false
    }

    open spec fn spec_return_ok(data: Seq<u8>, v: ()) -> bool {
        spec_decodes_complete::<()>(data, v)
    }

    open spec fn spec_return_err(data: Seq<u8>, e: FromHciBytesError) -> bool {
        spec_decode_complete_err::<()>(data, e)
    }

    fn param_handle(&self) -> (r: ())
        ensures
            r == (),
    {
    }

    fn return_handle(data: &[u8]) -> (r: Result<(), FromHciBytesError>) {
        Ok(())
    }

    fn return_from_hci_bytes(data: &[u8]) -> (r: Result<(), FromHciBytesError>) {
        <() as FromHciBytes>::from_hci_bytes_complete(data)
    }
}

/// Parameters for the [`LeAddDeviceToPeriodicAdvList`] command.
#[derive(Debug, Clone, Copy, PartialEq, Eq, PartialOrd, Ord, Hash)]
#[allow(missing_docs)]
pub struct LeAddDeviceToPeriodicAdvListParams {
    pub adv_addr_kind: AddrKind,
    pub adv_addr: BdAddr,
    pub adv_sid: u8,
}

/// The value of a [`LeAddDeviceToPeriodicAdvListParams`], with byte slices taken as sequences.
#[allow(missing_docs)]
pub struct LeAddDeviceToPeriodicAdvListParamsView {
    pub adv_addr_kind: u8,
    pub adv_addr: Seq<u8>,
    pub adv_sid: u8,
}

impl View for LeAddDeviceToPeriodicAdvListParams {
    type V = LeAddDeviceToPeriodicAdvListParamsView;

    open spec fn view(&self) -> LeAddDeviceToPeriodicAdvListParamsView {
        LeAddDeviceToPeriodicAdvListParamsView { adv_addr_kind: self.adv_addr_kind@, adv_addr: self.adv_addr@, adv_sid: self.adv_sid@ }
    }
}

impl WriteHci for LeAddDeviceToPeriodicAdvListParams {
    open spec fn spec_hci_bytes(&self) -> Seq<u8> {
        self.adv_addr_kind.spec_hci_bytes() + self.adv_addr.spec_hci_bytes() + self.adv_sid.spec_hci_bytes()
    }

    fn size(&self) -> (r: usize) {
        let mut n = self.adv_addr_kind.size();
        proof {
            assert(self.adv_addr_kind.spec_hci_bytes() + self.adv_addr.spec_hci_bytes() =~= (self.adv_addr_kind.spec_hci_bytes() + self.adv_addr.spec_hci_bytes()));
        }
        n = n + self.adv_addr.size();
        proof {
            assert(self.adv_addr_kind.spec_hci_bytes() + self.adv_addr.spec_hci_bytes() + self.adv_sid.spec_hci_bytes() =~= (self.adv_addr_kind.spec_hci_bytes() + self.adv_addr.spec_hci_bytes() + self.adv_sid.spec_hci_bytes()));
        }
        n = n + self.adv_sid.size();
        n
    }

    fn write_hci(&self, out: &mut Vec<u8>) {
        self.adv_addr_kind.write_hci(out);
        self.adv_addr.write_hci(out);
        self.adv_sid.write_hci(out);
        proof {
            assert(out@ =~= old(out)@ + self.spec_hci_bytes());
        }
    }
}

impl LeAddDeviceToPeriodicAdvListParams {
    /// The bytes of a `LeAddDeviceToPeriodicAdvListParams` are the bytes of its fields, one after the
    /// other, in the order in which the fields are declared.
    pub proof fn lemma_fields_in_order(&self)
        ensures
            self.spec_hci_bytes() == self.adv_addr_kind.spec_hci_bytes() + self.adv_addr.spec_hci_bytes() + self.adv_sid.spec_hci_bytes(),
    {
    }
}


/// The LeAddDeviceToPeriodicAdvList command (group LE, command 0x0047).
#[derive(Debug, Clone, Copy, PartialEq, Eq, PartialOrd, Ord, Hash)]
pub struct LeAddDeviceToPeriodicAdvList(LeAddDeviceToPeriodicAdvListParams);

impl LeAddDeviceToPeriodicAdvList {
    /// Create a new instance of the command.
    pub fn new(adv_addr_kind: AddrKind, adv_addr: BdAddr, adv_sid: u8) -> (result: Self)
        ensures
            result.spec_params() == (LeAddDeviceToPeriodicAdvListParams { adv_addr_kind: adv_addr_kind, adv_addr: adv_addr, adv_sid: adv_sid }),
    {
        LeAddDeviceToPeriodicAdvList(LeAddDeviceToPeriodicAdvListParams { adv_addr_kind: adv_addr_kind, adv_addr: adv_addr, adv_sid: adv_sid })
    }

    /// This command's opcode is group LE, command 0x0047: 0x2047.
    pub proof fn lemma_opcode()
        ensures
            Self::spec_opcode() == 0x2047,
    {
        lemma_opcode_value(LE, 0x0047);
    }
}

impl Cmd for LeAddDeviceToPeriodicAdvList {
    type Params = LeAddDeviceToPeriodicAdvListParams;

    open spec fn spec_opcode() -> u16 {
        spec_opcode_raw(LE, 0x0047)
    }

    closed spec fn spec_params(&self) -> LeAddDeviceToPeriodicAdvListParams {
        self.0
    }

    fn opcode() -> (r: Opcode) {
        Opcode::new(OpcodeGroup::new(LE), 0x0047)
    }

    fn params(&self) -> (r: &LeAddDeviceToPeriodicAdvListParams) {
        &self.0
    }

    proof fn lemma_packet(&self) {
    }
}

impl WriteHci for LeAddDeviceToPeriodicAdvList {
    closed spec fn spec_hci_bytes(&self) -> Seq<u8> {
        spec_cmd_packet(spec_opcode_raw(LE, 0x0047), self.0.spec_hci_bytes())
    }

    fn size(&self) -> (r: usize) {
        self.0.size() + 3
    }

    fn write_hci(&self, out: &mut Vec<u8>) {
        write_cmd_packet(Opcode::new(OpcodeGroup::new(LE), 0x0047), &self.0, out);
    }
}

impl SyncCmd for LeAddDeviceToPeriodicAdvList {
    type Return = ();
    type Handle = ();

    open spec fn spec_handle_ok(data: Seq<u8>, h: ()) -> bool {
        true
    }

    open spec fn spec_handle_err(data: Seq<u8>, e: FromHciBytesError) -> bool {
        false
    }

    open spec fn spec_return_ok(data: Seq<u8>, v: ()) -> bool {
        spec_decodes_complete::<()>(data, v)
    }

    open spec fn spec_return_err(data: Seq<u8>, e: FromHciBytesError) -> bool {
        spec_decode_complete_err::<()>(data, e)
    }

    fn param_handle(&self) -> (r: ())
        ensures
            r == (),
    {
    }

    fn return_handle(data: &[u8]) -> (r: Result<(), FromHciBytesError>) {
        Ok(())
    }

    fn return_from_hci_bytes(data: &[u8]) -> (r: Result<(), FromHciBytesError>) {
        <() as FromHciBytes>::from_hci_bytes_complete(data)
    }
}

/// Parameters for the [`LeRemoveDeviceFromPeriodicAdvList`] command.
#[derive(Debug, Clone, Copy, PartialEq, Eq, PartialOrd, Ord, Hash)]
#[allow(missing_docs)]
pub struct LeRemoveDeviceFromPeriodicAdvListParams {
    pub adv_addr_kind: AddrKind,
    pub adv_addr: BdAddr,
    pub adv_sid: u8,
}

/// The value of a [`LeRemoveDeviceFromPeriodicAdvListParams`], with byte slices taken as sequences.
#[allow(missing_docs)]
pub struct LeRemoveDeviceFromPeriodicAdvListParamsView {
    pub adv_addr_kind: u8,
    pub adv_addr: Seq<u8>,
    pub adv_sid: u8,
}

impl View for LeRemoveDeviceFromPeriodicAdvListParams {
    type V = LeRemoveDeviceFromPeriodicAdvListParamsView;

    open spec fn view(&self) -> LeRemoveDeviceFromPeriodicAdvListParamsView {
        LeRemoveDeviceFromPeriodicAdvListParamsView { adv_addr_kind: self.adv_addr_kind@, adv_addr: self.adv_addr@, adv_sid: self.adv_sid@ }
    }
}

impl WriteHci for LeRemoveDeviceFromPeriodicAdvListParams {
    open spec fn spec_hci_bytes(&self) -> Seq<u8> {
        self.adv_addr_kind.spec_hci_bytes() + self.adv_addr.spec_hci_bytes() + self.adv_sid.spec_hci_bytes()
    }

    fn size(&self) -> (r: usize) {
        let mut n = self.adv_addr_kind.size();
        proof {
            assert(self.adv_addr_kind.spec_hci_bytes() + self.adv_addr.spec_hci_bytes() =~= (self.adv_addr_kind.spec_hci_bytes() + self.adv_addr.spec_hci_bytes()));
        }
        n = n + self.adv_addr.size();
        proof {
            assert(self.adv_addr_kind.spec_hci_bytes() + self.adv_addr.spec_hci_bytes() + self.adv_sid.spec_hci_bytes() =~= (self.adv_addr_kind.spec_hci_bytes() + self.adv_addr.spec_hci_bytes() + self.adv_sid.spec_hci_bytes()));
        }
        n = n + self.adv_sid.size();
        n
    }

    fn write_hci(&self, out: &mut Vec<u8>) {
        self.adv_addr_kind.write_hci(out);
        self.adv_addr.write_hci(out);
        self.adv_sid.write_hci(out);
        proof {
            assert(out@ =~= old(out)@ + self.spec_hci_bytes());
        }
    }
}

impl LeRemoveDeviceFromPeriodicAdvListParams {
    /// The bytes of a `LeRemoveDeviceFromPeriodicAdvListParams` are the bytes of its fields, one after the
    /// other, in the order in which the fields are declared.
    pub proof fn lemma_fields_in_order(&self)
        ensures
            self.spec_hci_bytes() == self.adv_addr_kind.spec_hci_bytes() + self.adv_addr.spec_hci_bytes() + self.adv_sid.spec_hci_bytes(),
    {
    }
}


/// The LeRemoveDeviceFromPeriodicAdvList command (group LE, command 0x0048).
#[derive(Debug, Clone, Copy, PartialEq, Eq, PartialOrd, Ord, Hash)]
pub struct LeRemoveDeviceFromPeriodicAdvList(LeRemoveDeviceFromPeriodicAdvListParams);

impl LeRemoveDeviceFromPeriodicAdvList {
    /// Create a new instance of the command.
    pub fn new(adv_addr_kind: AddrKind, adv_addr: BdAddr, adv_sid: u8) -> (result: Self)
        ensures
            result.spec_params() == (LeRemoveDeviceFromPeriodicAdvListParams { adv_addr_kind: adv_addr_kind, adv_addr: adv_addr, adv_sid: adv_sid }),
    {
        LeRemoveDeviceFromPeriodicAdvList(LeRemoveDeviceFromPeriodicAdvListParams { adv_addr_kind: adv_addr_kind, adv_addr: adv_addr, adv_sid: adv_sid })
    }

    /// This command's opcode is group LE, command 0x0048: 0x2048.
    pub proof fn lemma_opcode()
        ensures
            Self::spec_opcode() == 0x2048,
    {
        lemma_opcode_value(LE, 0x0048);
    }
}

impl Cmd for LeRemoveDeviceFromPeriodicAdvList {
    type Params = LeRemoveDeviceFromPeriodicAdvListParams;

    open spec fn spec_opcode() -> u16 {
        spec_opcode_raw(LE, 0x0048)
    }

    closed spec fn spec_params(&self) -> LeRemoveDeviceFromPeriodicAdvListParams {
        self.0
    }

    fn opcode() -> (r: Opcode) {
        Opcode::new(OpcodeGroup::new(LE), 0x0048)
    }

    fn params(&self) -> (r: &LeRemoveDeviceFromPeriodicAdvListParams) {
        &self.0
    }

    proof fn lemma_packet(&self) {
    }
}

impl WriteHci for LeRemoveDeviceFromPeriodicAdvList {
    closed spec fn spec_hci_bytes(&self) -> Seq<u8> {
        spec_cmd_packet(spec_opcode_raw(LE, 0x0048), self.0.spec_hci_bytes())
    }

    fn size(&self) -> (r: usize) {
        self.0.size() + 3
    }

    fn write_hci(&self, out: &mut Vec<u8>) {
        write_cmd_packet(Opcode::new(OpcodeGroup::new(LE), 0x0048), &self.0, out);
    }
}

impl SyncCmd for LeRemoveDeviceFromPeriodicAdvList {
    type Return = ();
    type Handle = ();

    open spec fn spec_handle_ok(data: Seq<u8>, h: ()) -> bool {
        true
    }

    open spec fn spec_handle_err(data: Seq<u8>, e: FromHciBytesError) -> bool {
        false
    }

    open spec fn spec_return_ok(data: Seq<u8>, v: ()) -> bool {
        spec_decodes_complete::<()>(data, v)
    }

    open spec fn spec_return_err(data: Seq<u8>, e: FromHciBytesError) -> bool {
        spec_decode_complete_err::<()>(data, e)
    }

    fn param_handle(&self) -> (r: ())
        ensures
            r == (),
    {
    }

    fn return_handle(data: &[u8]) -> (r: Result<(), FromHciBytesError>) {
        Ok(())
    }

    fn return_from_hci_bytes(data: &[u8]) -> (r: Result<(), FromHciBytesError>) {
        <() as FromHciBytes>::from_hci_bytes_complete(data)
    }
}

/// The LeClearPeriodicAdvList command (group LE, command 0x0049).
#[derive(Debug, Clone, Copy, PartialEq, Eq, PartialOrd, Ord, Hash, Default)]
pub struct LeClearPeriodicAdvList(());

impl LeClearPeriodicAdvList {
    /// Create a new instance of the command.
    pub fn new() -> (r: Self)
        ensures
            r.spec_params() == (),
    {
        LeClearPeriodicAdvList(())
    }

    /// This command's opcode is group LE, command 0x0049: 0x2049.
    pub proof fn lemma_opcode()
        ensures
            Self::spec_opcode() == 0x2049,
    {
        lemma_opcode_value(LE, 0x0049);
    }
}

impl Cmd for LeClearPeriodicAdvList {
    type Params = ();

    open spec fn spec_opcode() -> u16 {
        spec_opcode_raw(LE, 0x0049)
    }

    closed spec fn spec_params(&self) -> () {
        self.0
    }

    fn opcode() -> (r: Opcode) {
        Opcode::new(OpcodeGroup::new(LE), 0x0049)
    }

    fn params(&self) -> (r: &()) {
        &self.0
    }

    proof fn lemma_packet(&self) {
    }
}

impl WriteHci for LeClearPeriodicAdvList {
    closed spec fn spec_hci_bytes(&self) -> Seq<u8> {
        spec_cmd_packet(spec_opcode_raw(LE, 0x0049), self.0.spec_hci_bytes())
    }

    fn size(&self) -> (r: usize) {
        self.0.size() + 3
    }

    fn write_hci(&self, out: &mut Vec<u8>) {
        write_cmd_packet(Opcode::new(OpcodeGroup::new(LE), 0x0049), &self.0, out);
    }
}

impl SyncCmd for LeClearPeriodicAdvList {
    type Return = ();
    type Handle = ();

    open spec fn spec_handle_ok(data: Seq<u8>, h: ()) -> bool {
        true
    }

    open spec fn spec_handle_err(data: Seq<u8>, e: FromHciBytesError) -> bool {
        false
    }

    open spec fn spec_return_ok(data: Seq<u8>, v: ()) -> bool {
        spec_decodes_complete::<()>(data, v)
    }

    open spec fn spec_return_err(data: Seq<u8>, e: FromHciBytesError) -> bool {
        spec_decode_complete_err::<()>(data, e)
    }

    fn param_handle(&self) -> (r: ())
        ensures
            r == (),
    {
    }

    fn return_handle(data: &[u8]) -> (r: Result<(), FromHciBytesError>) {
        Ok(())
    }

    fn return_from_hci_bytes(data: &[u8]) -> (r: Result<(), FromHciBytesError>) {
        <() as FromHciBytes>::from_hci_bytes_complete(data)
    }
}

/// The LeReadPeriodicAdvListSize command (group LE, command 0x004a).
#[derive(Debug, Clone, Copy, PartialEq, Eq, PartialOrd, Ord, Hash, Default)]
pub struct LeReadPeriodicAdvListSize(());

impl LeReadPeriodicAdvListSize {
    /// Create a new instance of the command.
    pub fn new() -> (r: Self)
        ensures
            r.spec_params() == (),
    {
        LeReadPeriodicAdvListSize(())
    }

    /// This command's opcode is group LE, command 0x004a: 0x204a.
    pub proof fn lemma_opcode()
        ensures
            Self::spec_opcode() == 0x204a,
    {
        lemma_opcode_value(LE, 0x004a);
    }
}

impl Cmd for LeReadPeriodicAdvListSize {
    type Params = ();

    open spec fn spec_opcode() -> u16 {
        spec_opcode_raw(LE, 0x004a)
    }

    closed spec fn spec_params(&self) -> () {
        self.0
    }

    fn opcode() -> (r: Opcode) {
        Opcode::new(OpcodeGroup::new(LE), 0x004a)
    }

    fn params(&self) -> (r: &()) {
        &self.0
    }

    proof fn lemma_packet(&self) {
    }
}

impl WriteHci for LeReadPeriodicAdvListSize {
    closed spec fn spec_hci_bytes(&self) -> Seq<u8> {
        spec_cmd_packet(spec_opcode_raw(LE, 0x004a), self.0.spec_hci_bytes())
    }

    fn size(&self) -> (r: usize) {
        self.0.size() + 3
    }

    fn write_hci(&self, out: &mut Vec<u8>) {
        write_cmd_packet(Opcode::new(OpcodeGroup::new(LE), 0x004a), &self.0, out);
    }
}

impl SyncCmd for LeReadPeriodicAdvListSize {
    type Return = u8;
    type Handle = ();

    open spec fn spec_handle_ok(data: Seq<u8>, h: ()) -> bool {
        true
    }

    open spec fn spec_handle_err(data: Seq<u8>, e: FromHciBytesError) -> bool {
        false
    }

    open spec fn spec_return_ok(data: Seq<u8>, v: u8) -> bool {
        spec_decodes_complete::<u8>(data, v)
    }

    open spec fn spec_return_err(data: Seq<u8>, e: FromHciBytesError) -> bool {
        spec_decode_complete_err::<u8>(data, e)
    }

    fn param_handle(&self) -> (r: ())
        ensures
            r == (),
    {
    }

    fn return_handle(data: &[u8]) -> (r: Result<(), FromHciBytesError>) {
        Ok(())
    }

    fn return_from_hci_bytes(data: &[u8]) -> (r: Result<u8, FromHciBytesError>) {
        <u8 as FromHciBytes>::from_hci_bytes_complete(data)
    }
}

/// Return parameters for the [`LeReadTransmitPower`] command.
#[derive(Debug, Clone, Copy, PartialEq, Eq, PartialOrd, Ord, Hash)]
#[allow(missing_docs)]
pub struct LeReadTransmitPowerReturn {
    pub min_tx_power: i8,
    pub max_tx_power: i8,
}

/// The value of a [`LeReadTransmitPowerReturn`], with byte slices taken as sequences.
#[allow(missing_docs)]
pub struct LeReadTransmitPowerReturnView {
    pub min_tx_power: i8,
    pub max_tx_power: i8,
}

impl View for LeReadTransmitPowerReturn {
    type V = LeReadTransmitPowerReturnView;

    open spec fn view(&self) -> LeReadTransmitPowerReturnView {
        LeReadTransmitPowerReturnView { min_tx_power: self.min_tx_power@, max_tx_power: self.max_tx_power@ }
    }
}

impl<'de> FromHciBytes<'de> for LeReadTransmitPowerReturn {
    open spec fn spec_from_hci_bytes(data: Seq<u8>) -> Result<(LeReadTransmitPowerReturnView, nat), FromHciBytesError> {
        if data.len() < 2 {
            Err(FromHciBytesError::InvalidSize)
        } else {
            match <i8 as FromHciBytes<'de>>::spec_from_hci_bytes(data) {
                Err(e) => Err(e),
                Ok((v_min_tx_power, n_min_tx_power)) => {
                    match <i8 as FromHciBytes<'de>>::spec_from_hci_bytes(data.skip(n_min_tx_power as int)) {
                        Err(e) => Err(e),
                        Ok((v_max_tx_power, n_max_tx_power)) => {
                            Ok((LeReadTransmitPowerReturnView { min_tx_power: v_min_tx_power, max_tx_power: v_max_tx_power }, (n_min_tx_power + n_max_tx_power) as nat))
                        },
                    }
                },
            }
        }
    }

    fn from_hci_bytes(data: &'de [u8]) -> (r: Result<(LeReadTransmitPowerReturn, &'de [u8]), FromHciBytesError>) {
        if data.len() < 2 {
            return Err(FromHciBytesError::InvalidSize);
        }
        let (v_min_tx_power, rest_min_tx_power) = match <i8 as FromHciBytes<'de>>::from_hci_bytes(data) {
            Ok(x) => x,
            Err(e) => return Err(e),
        };
        let (v_max_tx_power, rest_max_tx_power) = match <i8 as FromHciBytes<'de>>::from_hci_bytes(rest_min_tx_power) {
            Ok(x) => x,
            Err(e) => return Err(e),
        };
        proof {
            lemma_skip_skip(data@, (data@.len() - rest_min_tx_power@.len()) as int, (rest_min_tx_power@.len() - rest_max_tx_power@.len()) as int);
        }
        Ok((LeReadTransmitPowerReturn { min_tx_power: v_min_tx_power, max_tx_power: v_max_tx_power }, rest_max_tx_power))
    }
}

impl WriteHci for LeReadTransmitPowerReturn {
    open spec fn spec_hci_bytes(&self) -> Seq<u8> {
        self.min_tx_power.spec_hci_bytes() + self.max_tx_power.spec_hci_bytes()
    }

    fn size(&self) -> (r: usize) {
        let mut n = self.min_tx_power.size();
        proof {
            assert(self.min_tx_power.spec_hci_bytes() + self.max_tx_power.spec_hci_bytes() =~= (self.min_tx_power.spec_hci_bytes() + self.max_tx_power.spec_hci_bytes()));
        }
        n = n + self.max_tx_power.size();
        n
    }

    fn write_hci(&self, out: &mut Vec<u8>) {
        self.min_tx_power.write_hci(out);
        self.max_tx_power.write_hci(out);
        proof {
            assert(out@ =~= old(out)@ + self.spec_hci_bytes());
        }
    }
}

impl LeReadTransmitPowerReturn {
    /// The bytes of a `LeReadTransmitPowerReturn` are the bytes of its fields, one after the
    /// other, in the order in which the fields are declared.
    pub proof fn lemma_fields_in_order(&self)
        ensures
            self.spec_hci_bytes() == self.min_tx_power.spec_hci_bytes() + self.max_tx_power.spec_hci_bytes(),
    {
    }
}

impl FixedSizeValue for LeReadTransmitPowerReturn {
    open spec fn spec_size() -> nat {
        2
    }

    proof fn lemma_fixed_size(&self) {
        self.min_tx_power.lemma_fixed_size();
        self.max_tx_power.lemma_fixed_size();
    }
}

impl<'de> HciCodec<'de> for LeReadTransmitPowerReturn {
    open spec fn spec_encodable(&self) -> bool {
        self.min_tx_power.spec_encodable() && self.max_tx_power.spec_encodable()
    }

    proof fn lemma_write_then_read(&self, rest: Seq<u8>) {
        self.min_tx_power.lemma_fixed_size();
        self.max_tx_power.lemma_fixed_size();
        let t_max_tx_power = self.max_tx_power.spec_hci_bytes() + rest;
        let t_min_tx_power = self.min_tx_power.spec_hci_bytes() + t_max_tx_power;
        assert(self.spec_hci_bytes() + rest =~= t_min_tx_power);
        self.min_tx_power.lemma_write_then_read(t_max_tx_power);
        self.max_tx_power.lemma_write_then_read(rest);
        assert(t_min_tx_power.skip(self.min_tx_power.spec_hci_bytes().len() as int) =~= t_max_tx_power);
    }
}

/// The LeReadTransmitPower command (group LE, command 0x004b).
#[derive(Debug, Clone, Copy, PartialEq, Eq, PartialOrd, Ord, Hash, Default)]
pub struct LeReadTransmitPower(());

impl LeReadTransmitPower {
    /// Create a new instance of the command.
    pub fn new() -> (r: Self)
        ensures
            r.spec_params() == (),
    {
        LeReadTransmitPower(())
    }

    /// This command's opcode is group LE, command 0x004b: 0x204b.
    pub proof fn lemma_opcode()
        ensures
            Self::spec_opcode() == 0x204b,
    {
        lemma_opcode_value(LE, 0x004b);
    }
}

impl Cmd for LeReadTransmitPower {
    type Params = ();

    open spec fn spec_opcode() -> u16 {
        spec_opcode_raw(LE, 0x004b)
    }

    closed spec fn spec_params(&self) -> () {
        self.0
    }

    fn opcode() -> (r: Opcode) {
        Opcode::new(OpcodeGroup::new(LE), 0x004b)
    }

    fn params(&self) -> (r: &()) {
        &self.0
    }

    proof fn lemma_packet(&self) {
    }
}

impl WriteHci for LeReadTransmitPower {
    closed spec fn spec_hci_bytes(&self) -> Seq<u8> {
        spec_cmd_packet(spec_opcode_raw(LE, 0x004b), self.0.spec_hci_bytes())
    }

    fn size(&self) -> (r: usize) {
        self.0.size() + 3
    }

    fn write_hci(&self, out: &mut Vec<u8>) {
        write_cmd_packet(Opcode::new(OpcodeGroup::new(LE), 0x004b), &self.0, out);
    }
}

impl SyncCmd for LeReadTransmitPower {
    type Return = LeReadTransmitPowerReturn;
    type Handle = ();

    open spec fn spec_handle_ok(data: Seq<u8>, h: ()) -> bool {
        true
    }

    open spec fn spec_handle_err(data: Seq<u8>, e: FromHciBytesError) -> bool {
        false
    }

    open spec fn spec_return_ok(data: Seq<u8>, v: LeReadTransmitPowerReturn) -> bool {
        spec_decodes_complete::<LeReadTransmitPowerReturn>(data, v)
    }

    open spec fn spec_return_err(data: Seq<u8>, e: FromHciBytesError) -> bool {
        spec_decode_complete_err::<LeReadTransmitPowerReturn>(data, e)
    }

    fn param_handle(&self) -> (r: ())
        ensures
            r == (),
    {
    }

    fn return_handle(data: &[u8]) -> (r: Result<(), FromHciBytesError>) {
        Ok(())
    }

    fn return_from_hci_bytes(data: &[u8]) -> (r: Result<LeReadTransmitPowerReturn, FromHciBytesError>) {
        <LeReadTransmitPowerReturn as FromHciBytes>::from_hci_bytes_complete(data)
    }
}

/// Return parameters for the [`LeReadRfPathCompensation`] command.
#[derive(Debug, Clone, Copy, PartialEq, Eq, PartialOrd, Ord, Hash)]
#[allow(missing_docs)]
pub struct LeReadRfPathCompensationReturn {
    pub rf_tx_path_compensation_value: i16,
    pub rf_rx_path_compenstaion_value: i16,
}

/// The value of a [`LeReadRfPathCompensationReturn`], with byte slices taken as sequences.
#[allow(missing_docs)]
pub struct LeReadRfPathCompensationReturnView {
    pub rf_tx_path_compensation_value: i16,
    pub rf_rx_path_compenstaion_value: i16,
}

impl View for LeReadRfPathCompensationReturn {
    type V = LeReadRfPathCompensationReturnView;

    open spec fn view(&self) -> LeReadRfPathCompensationReturnView {
        LeReadRfPathCompensationReturnView { rf_tx_path_compensation_value: self.rf_tx_path_compensation_value@, rf_rx_path_compenstaion_value: self.rf_rx_path_compenstaion_value@ }
    }
}

impl<'de> FromHciBytes<'de> for LeReadRfPathCompensationReturn {
    open spec fn spec_from_hci_bytes(data: Seq<u8>) -> Result<(LeReadRfPathCompensationReturnView, nat), FromHciBytesError> {
        if data.len() < 4 {
            Err(FromHciBytesError::InvalidSize)
        } else {
            match <i16 as FromHciBytes<'de>>::spec_from_hci_bytes(data) {
                Err(e) => Err(e),
                Ok((v_rf_tx_path_compensation_value, n_rf_tx_path_compensation_value)) => {
                    match <i16 as FromHciBytes<'de>>::spec_from_hci_bytes(data.skip(n_rf_tx_path_compensation_value as int)) {
                        Err(e) => Err(e),
                        Ok((v_rf_rx_path_compenstaion_value, n_rf_rx_path_compenstaion_value)) => {
                            Ok((LeReadRfPathCompensationReturnView { rf_tx_path_compensation_value: v_rf_tx_path_compensation_value, rf_rx_path_compenstaion_value: v_rf_rx_path_compenstaion_value }, (n_rf_tx_path_compensation_value + n_rf_rx_path_compenstaion_value) as nat))
                        },
                    }
                },
            }
        }
    }

    fn from_hci_bytes(data: &'de [u8]) -> (r: Result<(LeReadRfPathCompensationReturn, &'de [u8]), FromHciBytesError>) {
        if data.len() < 4 {
            return Err(FromHciBytesError::InvalidSize);
        }
        let (v_rf_tx_path_compensation_value, rest_rf_tx_path_compensation_value) = match <i16 as FromHciBytes<'de>>::from_hci_bytes(data) {
            Ok(x) => x,
            Err(e) => return Err(e),
        };
        let (v_rf_rx_path_compenstaion_value, rest_rf_rx_path_compenstaion_value) = match <i16 as FromHciBytes<'de>>::from_hci_bytes(rest_rf_tx_path_compensation_value) {
            Ok(x) => x,
            Err(e) => return Err(e),
        };
        proof {
            lemma_skip_skip(data@, (data@.len() - rest_rf_tx_path_compensation_value@.len()) as int, (rest_rf_tx_path_compensation_value@.len() - rest_rf_rx_path_compenstaion_value@.len()) as int);
        }
        Ok((LeReadRfPathCompensationReturn { rf_tx_path_compensation_value: v_rf_tx_path_compensation_value, rf_rx_path_compenstaion_value: v_rf_rx_path_compenstaion_value }, rest_rf_rx_path_compenstaion_value))
    }
}

impl WriteHci for LeReadRfPathCompensationReturn {
    open spec fn spec_hci_bytes(&self) -> Seq<u8> {
        self.rf_tx_path_compensation_value.spec_hci_bytes() + self.rf_rx_path_compenstaion_value.spec_hci_bytes()
    }

    fn size(&self) -> (r: usize) {
        let mut n = self.rf_tx_path_compensation_value.size();
        proof {
            assert(self.rf_tx_path_compensation_value.spec_hci_bytes() + self.rf_rx_path_compenstaion_value.spec_hci_bytes() =~= (self.rf_tx_path_compensation_value.spec_hci_bytes() + self.rf_rx_path_compenstaion_value.spec_hci_bytes()));
        }
        n = n + self.rf_rx_path_compenstaion_value.size();
        n
    }

    fn write_hci(&self, out: &mut Vec<u8>) {
        self.rf_tx_path_compensation_value.write_hci(out);
        self.rf_rx_path_compenstaion_value.write_hci(out);
        proof {
            assert(out@ =~= old(out)@ + self.spec_hci_bytes());
        }
    }
}

impl LeReadRfPathCompensationReturn {
    /// The bytes of a `LeReadRfPathCompensationReturn` are the bytes of its fields, one after the
    /// other, in the order in which the fields are declared.
    pub proof fn lemma_fields_in_order(&self)
        ensures
            self.spec_hci_bytes() == self.rf_tx_path_compensation_value.spec_hci_bytes() + self.rf_rx_path_compenstaion_value.spec_hci_bytes(),
    {
    }
}

impl FixedSizeValue for LeReadRfPathCompensationReturn {
    open spec fn spec_size() -> nat {
        4
    }

    proof fn lemma_fixed_size(&self) {
        self.rf_tx_path_compensation_value.lemma_fixed_size();
        self.rf_rx_path_compenstaion_value.lemma_fixed_size();
    }
}

impl<'de> HciCodec<'de> for LeReadRfPathCompensationReturn {
    open spec fn spec_encodable(&self) -> bool {
        self.rf_tx_path_compensation_value.spec_encodable() && self.rf_rx_path_compenstaion_value.spec_encodable()
    }

    proof fn lemma_write_then_read(&self, rest: Seq<u8>) {
        self.rf_tx_path_compensation_value.lemma_fixed_size();
        self.rf_rx_path_compenstaion_value.lemma_fixed_size();
        let t_rf_rx_path_compenstaion_value = self.rf_rx_path_compenstaion_value.spec_hci_bytes() + rest;
        let t_rf_tx_path_compensation_value = self.rf_tx_path_compensation_value.spec_hci_bytes() + t_rf_rx_path_compenstaion_value;
        assert(self.spec_hci_bytes() + rest =~= t_rf_tx_path_compensation_value);
        self.rf_tx_path_compensation_value.lemma_write_then_read(t_rf_rx_path_compenstaion_value);
        self.rf_rx_path_compenstaion_value.lemma_write_then_read(rest);
        assert(t_rf_tx_path_compensation_value.skip(self.rf_tx_path_compensation_value.spec_hci_bytes().len() as int) =~= t_rf_rx_path_compenstaion_value);
    }
}

/// The LeReadRfPathCompensation command (group LE, command 0x004c).
#[derive(Debug, Clone, Copy, PartialEq, Eq, PartialOrd, Ord, Hash, Default)]
pub struct LeReadRfPathCompensation(());

impl LeReadRfPathCompensation {
    /// Create a new instance of the command.
    pub fn new() -> (r: Self)
        ensures
            r.spec_params() == (),
    {
        LeReadRfPathCompensation(())
    }

    /// This command's opcode is group LE, command 0x004c: 0x204c.
    pub proof fn lemma_opcode()
        ensures
            Self::spec_opcode() == 0x204c,
    {
        lemma_opcode_value(LE, 0x004c);
    }
}

impl Cmd for LeReadRfPathCompensation {
    type Params = ();

    open spec fn spec_opcode() -> u16 {
        spec_opcode_raw(LE, 0x004c)
    }

    closed spec fn spec_params(&self) -> () {
        self.0
    }

    fn opcode() -> (r: Opcode) {
        Opcode::new(OpcodeGroup::new(LE), 0x004c)
    }

    fn params(&self) -> (r: &()) {
        &self.0
    }

    proof fn lemma_packet(&self) {
    }
}

impl WriteHci for LeReadRfPathCompensation {
    closed spec fn spec_hci_bytes(&self) -> Seq<u8> {
        spec_cmd_packet(spec_opcode_raw(LE, 0x004c), self.0.spec_hci_bytes())
    }

    fn size(&self) -> (r: usize) {
        self.0.size() + 3
    }

    fn write_hci(&self, out: &mut Vec<u8>) {
        write_cmd_packet(Opcode::new(OpcodeGroup::new(LE), 0x004c), &self.0, out);
    }
}

impl SyncCmd for LeReadRfPathCompensation {
    type Return = LeReadRfPathCompensationReturn;
    type Handle = ();

    open spec fn spec_handle_ok(data: Seq<u8>, h: ()) -> bool {
        true
    }

    open spec fn spec_handle_err(data: Seq<u8>, e: FromHciBytesError) -> bool {
        false
    }

    open spec fn spec_return_ok(data: Seq<u8>, v: LeReadRfPathCompensationReturn) -> bool {
        spec_decodes_complete::<LeReadRfPathCompensationReturn>(data, v)
    }

    open spec fn spec_return_err(data: Seq<u8>, e: FromHciBytesError) -> bool {
        spec_decode_complete_err::<LeReadRfPathCompensationReturn>(data, e)
    }

    fn param_handle(&self) -> (r: ())
        ensures
            r == (),
    {
    }

    fn return_handle(data: &[u8]) -> (r: Result<(), FromHciBytesError>) {
        Ok(())
    }

    fn return_from_hci_bytes(data: &[u8]) -> (r: Result<LeReadRfPathCompensationReturn, FromHciBytesError>) {
        <LeReadRfPathCompensationReturn as FromHciBytes>::from_hci_bytes_complete(data)
    }
}

/// Parameters for the [`LeWriteRfPathCompensation`] command.
#[derive(Debug, Clone, Copy, PartialEq, Eq, PartialOrd, Ord, Hash)]
#[allow(missing_docs)]
pub struct LeWriteRfPathCompensationParams {
    pub rf_tx_path_compensation_value: i16,
    pub rf_rx_path_compensation_value: i16,
}

/// The value of a [`LeWriteRfPathCompensationParams`], with byte slices taken as sequences.
#[allow(missing_docs)]
pub struct LeWriteRfPathCompensationParamsView {
    pub rf_tx_path_compensation_value: i16,
    pub rf_rx_path_compensation_value: i16,
}

impl View for LeWriteRfPathCompensationParams {
    type V = LeWriteRfPathCompensationParamsView;

    open spec fn view(&self) -> LeWriteRfPathCompensationParamsView {
        LeWriteRfPathCompensationParamsView { rf_tx_path_compensation_value: self.rf_tx_path_compensation_value@, rf_rx_path_compensation_value: self.rf_rx_path_compensation_value@ }
    }
}

impl WriteHci for LeWriteRfPathCompensationParams {
    open spec fn spec_hci_bytes(&self) -> Seq<u8> {
        self.rf_tx_path_compensation_value.spec_hci_bytes() + self.rf_rx_path_compensation_value.spec_hci_bytes()
    }

    fn size(&self) -> (r: usize) {
        let mut n = self.rf_tx_path_compensation_value.size();
        proof {
            assert(self.rf_tx_path_compensation_value.spec_hci_bytes() + self.rf_rx_path_compensation_value.spec_hci_bytes() =~= (self.rf_tx_path_compensation_value.spec_hci_bytes() + self.rf_rx_path_compensation_value.spec_hci_bytes()));
        }
        n = n + self.rf_rx_path_compensation_value.size();
        n
    }

    fn write_hci(&self, out: &mut Vec<u8>) {
        self.rf_tx_path_compensation_value.write_hci(out);
        self.rf_rx_path_compensation_value.write_hci(out);
        proof {
            assert(out@ =~= old(out)@ + self.spec_hci_bytes());
        }
    }
}

impl LeWriteRfPathCompensationParams {
    /// The bytes of a `LeWriteRfPathCompensationParams` are the bytes of its fields, one after the
    /// other, in the order in which the fields are declared.
    pub proof fn lemma_fields_in_order(&self)
        ensures
            self.spec_hci_bytes() == self.rf_tx_path_compensation_value.spec_hci_bytes() + self.rf_rx_path_compensation_value.spec_hci_bytes(),
    {
    }
}


/// The LeWriteRfPathCompensation command (group LE, command 0x004d).
#[derive(Debug, Clone, Copy, PartialEq, Eq, PartialOrd, Ord, Hash)]
pub struct LeWriteRfPathCompensation(LeWriteRfPathCompensationParams);

impl LeWriteRfPathCompensation {
    /// Create a new instance of the command.
    pub fn new(rf_tx_path_compensation_value: i16, rf_rx_path_compensation_value: i16) -> (result: Self)
        ensures
            result.spec_params() == (LeWriteRfPathCompensationParams { rf_tx_path_compensation_value: rf_tx_path_compensation_value, rf_rx_path_compensation_value: rf_rx_path_compensation_value }),
    {
        LeWriteRfPathCompensation(LeWriteRfPathCompensationParams { rf_tx_path_compensation_value: rf_tx_path_compensation_value, rf_rx_path_compensation_value: rf_rx_path_compensation_value })
    }

    /// This command's opcode is group LE, command 0x004d: 0x204d.
    pub proof fn lemma_opcode()
        ensures
            Self::spec_opcode() == 0x204d,
    {
        lemma_opcode_value(LE, 0x004d);
    }
}

impl Cmd for LeWriteRfPathCompensation {
    type Params = LeWriteRfPathCompensationParams;

    open spec fn spec_opcode() -> u16 {
        spec_opcode_raw(LE, 0x004d)
    }

    closed spec fn spec_params(&self) -> LeWriteRfPathCompensationParams {
        self.0
    }

    fn opcode() -> (r: Opcode) {
        Opcode::new(OpcodeGroup::new(LE), 0x004d)
    }

    fn params(&self) -> (r: &LeWriteRfPathCompensationParams) {
        &self.0
    }

    proof fn lemma_packet(&self) {
    }
}

impl WriteHci for LeWriteRfPathCompensation {
    closed spec fn spec_hci_bytes(&self) -> Seq<u8> {
        spec_cmd_packet(spec_opcode_raw(LE, 0x004d), self.0.spec_hci_bytes())
    }

    fn size(&self) -> (r: usize) {
        self.0.size() + 3
    }

    fn write_hci(&self, out: &mut Vec<u8>) {
        write_cmd_packet(Opcode::new(OpcodeGroup::new(LE), 0x004d), &self.0, out);
    }
}

impl SyncCmd for LeWriteRfPathCompensation {
    type Return = ();
    type Handle = ();

    open spec fn spec_handle_ok(data: Seq<u8>, h: ()) -> bool {
        true
    }

    open spec fn spec_handle_err(data: Seq<u8>, e: FromHciBytesError) -> bool {
        false
    }

    open spec fn spec_return_ok(data: Seq<u8>, v: ()) -> bool {
        spec_decodes_complete::<()>(data, v)
    }

    open spec fn spec_return_err(data: Seq<u8>, e: FromHciBytesError) -> bool {
        spec_decode_complete_err::<()>(data, e)
    }

    fn param_handle(&self) -> (r: ())
        ensures
            r == (),
    {
    }

    fn return_handle(data: &[u8]) -> (r: Result<(), FromHciBytesError>) {
        Ok(())
    }

    fn return_from_hci_bytes(data: &[u8]) -> (r: Result<(), FromHciBytesError>) {
        <() as FromHciBytes>::from_hci_bytes_complete(data)
    }
}

/// Parameters for the [`LeSetPrivacyMode`] command.
#[derive(Debug, Clone, Copy, PartialEq, Eq, PartialOrd, Ord, Hash)]
#[allow(missing_docs)]
pub struct LeSetPrivacyModeParams {
    pub peer_id_addr_kind: AddrKind,
    pub peer_id_addr: BdAddr,
    pub privacy_mode: PrivacyMode,
}

/// The value of a [`LeSetPrivacyModeParams`], with byte slices taken as sequences.
#[allow(missing_docs)]
pub struct LeSetPrivacyModeParamsView {
    pub peer_id_addr_kind: u8,
    pub peer_id_addr: Seq<u8>,
    pub privacy_mode: PrivacyMode,
}

impl View for LeSetPrivacyModeParams {
    type V = LeSetPrivacyModeParamsView;

    open spec fn view(&self) -> LeSetPrivacyModeParamsView {
        LeSetPrivacyModeParamsView { peer_id_addr_kind: self.peer_id_addr_kind@, peer_id_addr: self.peer_id_addr@, privacy_mode: self.privacy_mode@ }
    }
}

impl WriteHci for LeSetPrivacyModeParams {
    open spec fn spec_hci_bytes(&self) -> Seq<u8> {
        self.peer_id_addr_kind.spec_hci_bytes() + self.peer_id_addr.spec_hci_bytes() + self.privacy_mode.spec_hci_bytes()
    }

    fn size(&self) -> (r: usize) {
        let mut n = self.peer_id_addr_kind.size();
        proof {
            assert(self.peer_id_addr_kind.spec_hci_bytes() + self.peer_id_addr.spec_hci_bytes() =~= (self.peer_id_addr_kind.spec_hci_bytes() + self.peer_id_addr.spec_hci_bytes()));
        }
        n = n + self.peer_id_addr.size();
        proof {
            assert(self.peer_id_addr_kind.spec_hci_bytes() + self.peer_id_addr.spec_hci_bytes() + self.privacy_mode.spec_hci_bytes() =~= (self.peer_id_addr_kind.spec_hci_bytes() + self.peer_id_addr.spec_hci_bytes() + self.privacy_mode.spec_hci_bytes()));
        }
        n = n + self.privacy_mode.size();
        n
    }

    fn write_hci(&self, out: &mut Vec<u8>) {
        self.peer_id_addr_kind.write_hci(out);
        self.peer_id_addr.write_hci(out);
        self.privacy_mode.write_hci(out);
        proof {
            assert(out@ =~= old(out)@ + self.spec_hci_bytes());
        }
    }
}

impl LeSetPrivacyModeParams {
    /// The bytes of a `LeSetPrivacyModeParams` are the bytes of its fields, one after the
    /// other, in the order in which the fields are declared.
    pub proof fn lemma_fields_in_order(&self)
        ensures
            self.spec_hci_bytes() == self.peer_id_addr_kind.spec_hci_bytes() + self.peer_id_addr.spec_hci_bytes() + self.privacy_mode.spec_hci_bytes(),
    {
    }
}


/// The LeSetPrivacyMode command (group LE, command 0x004e).
#[derive(Debug, Clone, Copy, PartialEq, Eq, PartialOrd, Ord, Hash)]
pub struct LeSetPrivacyMode(LeSetPrivacyModeParams);

impl LeSetPrivacyMode {
    /// Create a new instance of the command.
    pub fn new(peer_id_addr_kind: AddrKind, peer_id_addr: BdAddr, privacy_mode: PrivacyMode) -> (result: Self)
        ensures
            result.spec_params() == (LeSetPrivacyModeParams { peer_id_addr_kind: peer_id_addr_kind, peer_id_addr: peer_id_addr, privacy_mode: privacy_mode }),
    {
        LeSetPrivacyMode(LeSetPrivacyModeParams { peer_id_addr_kind: peer_id_addr_kind, peer_id_addr: peer_id_addr, privacy_mode: privacy_mode })
    }

    /// This command's opcode is group LE, command 0x004e: 0x204e.
    pub proof fn lemma_opcode()
        ensures
            Self::spec_opcode() == 0x204e,
    {
        lemma_opcode_value(LE, 0x004e);
    }
}

impl Cmd for LeSetPrivacyMode {
    type Params = LeSetPrivacyModeParams;

    open spec fn spec_opcode() -> u16 {
        spec_opcode_raw(LE, 0x004e)
    }

    closed spec fn spec_params(&self) -> LeSetPrivacyModeParams {
        self.0
    }

    fn opcode() -> (r: Opcode) {
        Opcode::new(OpcodeGroup::new(LE), 0x004e)
    }

    fn params(&self) -> (r: &LeSetPrivacyModeParams) {
        &self.0
    }

    proof fn lemma_packet(&self) {
    }
}

impl WriteHci for LeSetPrivacyMode {
    closed spec fn spec_hci_bytes(&self) -> Seq<u8> {
        spec_cmd_packet(spec_opcode_raw(LE, 0x004e), self.0.spec_hci_bytes())
    }

    fn size(&self) -> (r: usize) {
        self.0.size() + 3
    }

    fn write_hci(&self, out: &mut Vec<u8>) {
        write_cmd_packet(Opcode::new(OpcodeGroup::new(LE), 0x004e), &self.0, out);
    }
}

impl SyncCmd for LeSetPrivacyMode {
    type Return = ();
    type Handle = ();

    open spec fn spec_handle_ok(data: Seq<u8>, h: ()) -> bool {
        true
    }

    open spec fn spec_handle_err(data: Seq<u8>, e: FromHciBytesError) -> bool {
        false
    }

    open spec fn spec_return_ok(data: Seq<u8>, v: ()) -> bool {
        spec_decodes_complete::<()>(data, v)
    }

    open spec fn spec_return_err(data: Seq<u8>, e: FromHciBytesError) -> bool {
        spec_decode_complete_err::<()>(data, e)
    }

    fn param_handle(&self) -> (r: ())
        ensures
            r == (),
    {
    }

    fn return_handle(data: &[u8]) -> (r: Result<(), FromHciBytesError>) {
        Ok(())
    }

    fn return_from_hci_bytes(data: &[u8]) -> (r: Result<(), FromHciBytesError>) {
        <() as FromHciBytes>::from_hci_bytes_complete(data)
    }
}

/// Parameters for the [`LeSetConnectionlessCteTransmitParams`] command.
#[derive(Debug, Clone, Copy, PartialEq, Eq, PartialOrd, Ord, Hash, Default)]
#[allow(missing_docs)]
pub struct LeSetConnectionlessCteTransmitParamsParams<'a> {
    pub adv_handle: AdvHandle,
    pub cte_length: u8,
    pub cte_kind: CteKind,
    pub cte_count: u8,
    pub switching_pattern: &'a [u8],
}

/// The value of a [`LeSetConnectionlessCteTransmitParamsParams`], with byte slices taken as sequences.
#[allow(missing_docs)]
pub struct LeSetConnectionlessCteTransmitParamsParamsView {
    pub adv_handle: u8,
    pub cte_length: u8,
    pub cte_kind: CteKind,
    pub cte_count: u8,
    pub switching_pattern: Seq<u8>,
}

impl<'a> View for LeSetConnectionlessCteTransmitParamsParams<'a> {
    type V = LeSetConnectionlessCteTransmitParamsParamsView;

    open spec fn view(&self) -> LeSetConnectionlessCteTransmitParamsParamsView {
        LeSetConnectionlessCteTransmitParamsParamsView { adv_handle: self.adv_handle@, cte_length: self.cte_length@, cte_kind: self.cte_kind@, cte_count: self.cte_count@, switching_pattern: self.switching_pattern@ }
    }
}

impl<'a> WriteHci for LeSetConnectionlessCteTransmitParamsParams<'a> {
    open spec fn spec_hci_bytes(&self) -> Seq<u8> {
        self.adv_handle.spec_hci_bytes() + self.cte_length.spec_hci_bytes() + self.cte_kind.spec_hci_bytes() + self.cte_count.spec_hci_bytes() + self.switching_pattern.spec_hci_bytes()
    }

    fn size(&self) -> (r: usize) {
        let mut n = self.adv_handle.size();
        proof {
            assert(self.adv_handle.spec_hci_bytes() + self.cte_length.spec_hci_bytes() =~= (self.adv_handle.spec_hci_bytes() + self.cte_length.spec_hci_bytes()));
        }
        n = n + self.cte_length.size();
        proof {
            assert(self.adv_handle.spec_hci_bytes() + self.cte_length.spec_hci_bytes() + self.cte_kind.spec_hci_bytes() =~= (self.adv_handle.spec_hci_bytes() + self.cte_length.spec_hci_bytes() + self.cte_kind.spec_hci_bytes()));
        }
        n = n + self.cte_kind.size();
        proof {
            assert(self.adv_handle.spec_hci_bytes() + self.cte_length.spec_hci_bytes() + self.cte_kind.spec_hci_bytes() + self.cte_count.spec_hci_bytes() =~= (self.adv_handle.spec_hci_bytes() + self.cte_length.spec_hci_bytes() + self.cte_kind.spec_hci_bytes() + self.cte_count.spec_hci_bytes()));
        }
        n = n + self.cte_count.size();
        proof {
            assert(self.adv_handle.spec_hci_bytes() + self.cte_length.spec_hci_bytes() + self.cte_kind.spec_hci_bytes() + self.cte_count.spec_hci_bytes() + self.switching_pattern.spec_hci_bytes() =~= (self.adv_handle.spec_hci_bytes() + self.cte_length.spec_hci_bytes() + self.cte_kind.spec_hci_bytes() + self.cte_count.spec_hci_bytes() + self.switching_pattern.spec_hci_bytes()));
        }
        n = n + self.switching_pattern.size();
        n
    }

    fn write_hci(&self, out: &mut Vec<u8>) {
        self.adv_handle.write_hci(out);
        self.cte_length.write_hci(out);
        self.cte_kind.write_hci(out);
        self.cte_count.write_hci(out);
        self.switching_pattern.write_hci(out);
        proof {
            assert(out@ =~= old(out)@ + self.spec_hci_bytes());
        }
    }
}

impl<'a> LeSetConnectionlessCteTransmitParamsParams<'a> {
    /// The bytes of a `LeSetConnectionlessCteTransmitParamsParams` are the bytes of its fields, one after the
    /// other, in the order in which the fields are declared.
    pub proof fn lemma_fields_in_order(&self)
        ensures
            self.spec_hci_bytes() == self.adv_handle.spec_hci_bytes() + self.cte_length.spec_hci_bytes() + self.cte_kind.spec_hci_bytes() + self.cte_count.spec_hci_bytes() + self.switching_pattern.spec_hci_bytes(),
    {
    }
}


/// The LeSetConnectionlessCteTransmitParams command (group LE, command 0x0051).
#[derive(Debug, Clone, Copy, PartialEq, Eq, PartialOrd, Ord, Hash)]
pub struct LeSetConnectionlessCteTransmitParams<'a>(LeSetConnectionlessCteTransmitParamsParams<'a>);

impl<'a> LeSetConnectionlessCteTransmitParams<'a> {
    /// Create a new instance of the command.
    pub fn new(adv_handle: AdvHandle, cte_length: u8, cte_kind: CteKind, cte_count: u8, switching_pattern: &'a [u8]) -> (result: Self)
        ensures
            result.spec_params() == (LeSetConnectionlessCteTransmitParamsParams { adv_handle: adv_handle, cte_length: cte_length, cte_kind: cte_kind, cte_count: cte_count, switching_pattern: switching_pattern }),
    {
        LeSetConnectionlessCteTransmitParams(LeSetConnectionlessCteTransmitParamsParams { adv_handle: adv_handle, cte_length: cte_length, cte_kind: cte_kind, cte_count: cte_count, switching_pattern: switching_pattern })
    }

    /// This command's opcode is group LE, command 0x0051: 0x2051.
    pub proof fn lemma_opcode()
        ensures
            Self::spec_opcode() == 0x2051,
    {
        lemma_opcode_value(LE, 0x0051);
    }
}

impl<'a> Cmd for LeSetConnectionlessCteTransmitParams<'a> {
    type Params = LeSetConnectionlessCteTransmitParamsParams<'a>;

    open spec fn spec_opcode() -> u16 {
        spec_opcode_raw(LE, 0x0051)
    }

    closed spec fn spec_params(&self) -> LeSetConnectionlessCteTransmitParamsParams<'a> {
        self.0
    }

    fn opcode() -> (r: Opcode) {
        Opcode::new(OpcodeGroup::new(LE), 0x0051)
    }

    fn params(&self) -> (r: &LeSetConnectionlessCteTransmitParamsParams<'a>) {
        &self.0
    }

    proof fn lemma_packet(&self) {
    }
}

impl<'a> WriteHci for LeSetConnectionlessCteTransmitParams<'a> {
    closed spec fn spec_hci_bytes(&self) -> Seq<u8> {
        spec_cmd_packet(spec_opcode_raw(LE, 0x0051), self.0.spec_hci_bytes())
    }

    fn size(&self) -> (r: usize) {
        self.0.size() + 3
    }

    fn write_hci(&self, out: &mut Vec<u8>) {
        write_cmd_packet(Opcode::new(OpcodeGroup::new(LE), 0x0051), &self.0, out);
    }
}

impl<'a> SyncCmd for LeSetConnectionlessCteTransmitParams<'a> {
    type Return = ();
    type Handle = ();

    open spec fn spec_handle_ok(data: Seq<u8>, h: ()) -> bool {
        true
    }

    open spec fn spec_handle_err(data: Seq<u8>, e: FromHciBytesError) -> bool {
        false
    }

    open spec fn spec_return_ok(data: Seq<u8>, v: ()) -> bool {
        spec_decodes_complete::<()>(data, v)
    }

    open spec fn spec_return_err(data: Seq<u8>, e: FromHciBytesError) -> bool {
        spec_decode_complete_err::<()>(data, e)
    }

    fn param_handle(&self) -> (r: ())
        ensures
            r == (),
    {
    }

    fn return_handle(data: &[u8]) -> (r: Result<(), FromHciBytesError>) {
        Ok(())
    }

    fn return_from_hci_bytes(data: &[u8]) -> (r: Result<(), FromHciBytesError>) {
        <() as FromHciBytes>::from_hci_bytes_complete(data)
    }
}

/// Parameters for the [`LeSetConnectionlessCteTransmitEnable`] command.
#[derive(Debug, Clone, Copy, PartialEq, Eq, PartialOrd, Ord, Hash)]
#[allow(missing_docs)]
pub struct LeSetConnectionlessCteTransmitEnableParams {
    pub adv_handle: AdvHandle,
    pub cte_enable: bool,
}

/// The value of a [`LeSetConnectionlessCteTransmitEnableParams`], with byte slices taken as sequences.
#[allow(missing_docs)]
pub struct LeSetConnectionlessCteTransmitEnableParamsView {
    pub adv_handle: u8,
    pub cte_enable: bool,
}

impl View for LeSetConnectionlessCteTransmitEnableParams {
    type V = LeSetConnectionlessCteTransmitEnableParamsView;

    open spec fn view(&self) -> LeSetConnectionlessCteTransmitEnableParamsView {
        LeSetConnectionlessCteTransmitEnableParamsView { adv_handle: self.adv_handle@, cte_enable: self.cte_enable@ }
    }
}

impl WriteHci for LeSetConnectionlessCteTransmitEnableParams {
    open spec fn spec_hci_bytes(&self) -> Seq<u8> {
        self.adv_handle.spec_hci_bytes() + self.cte_enable.spec_hci_bytes()
    }

    fn size(&self) -> (r: usize) {
        let mut n = self.adv_handle.size();
        proof {
            assert(self.adv_handle.spec_hci_bytes() + self.cte_enable.spec_hci_bytes() =~= (self.adv_handle.spec_hci_bytes() + self.cte_enable.spec_hci_bytes()));
        }
        n = n + self.cte_enable.size();
        n
    }

    fn write_hci(&self, out: &mut Vec<u8>) {
        self.adv_handle.write_hci(out);
        self.cte_enable.write_hci(out);
        proof {
            assert(out@ =~= old(out)@ + self.spec_hci_bytes());
        }
    }
}

impl LeSetConnectionlessCteTransmitEnableParams {
    /// The bytes of a `LeSetConnectionlessCteTransmitEnableParams` are the bytes of its fields, one after the
    /// other, in the order in which the fields are declared.
    pub proof fn lemma_fields_in_order(&self)
        ensures
            self.spec_hci_bytes() == self.adv_handle.spec_hci_bytes() + self.cte_enable.spec_hci_bytes(),
    {
    }
}


/// The LeSetConnectionlessCteTransmitEnable command (group LE, command 0x0052).
#[derive(Debug, Clone, Copy, PartialEq, Eq, PartialOrd, Ord, Hash)]
pub struct LeSetConnectionlessCteTransmitEnable(LeSetConnectionlessCteTransmitEnableParams);

impl LeSetConnectionlessCteTransmitEnable {
    /// Create a new instance of the command.
    pub fn new(adv_handle: AdvHandle, cte_enable: bool) -> (result: Self)
        ensures
            result.spec_params() == (LeSetConnectionlessCteTransmitEnableParams { adv_handle: adv_handle, cte_enable: cte_enable }),
    {
        LeSetConnectionlessCteTransmitEnable(LeSetConnectionlessCteTransmitEnableParams { adv_handle: adv_handle, cte_enable: cte_enable })
    }

    /// This command's opcode is group LE, command 0x0052: 0x2052.
    pub proof fn lemma_opcode()
        ensures
            Self::spec_opcode() == 0x2052,
    {
        lemma_opcode_value(LE, 0x0052);
    }
}

impl Cmd for LeSetConnectionlessCteTransmitEnable {
    type Params = LeSetConnectionlessCteTransmitEnableParams;

    open spec fn spec_opcode() -> u16 {
        spec_opcode_raw(LE, 0x0052)
    }

    closed spec fn spec_params(&self) -> LeSetConnectionlessCteTransmitEnableParams {
        self.0
    }

    fn opcode() -> (r: Opcode) {
        Opcode::new(OpcodeGroup::new(LE), 0x0052)
    }

    fn params(&self) -> (r: &LeSetConnectionlessCteTransmitEnableParams) {
        &self.0
    }

    proof fn lemma_packet(&self) {
    }
}

impl WriteHci for LeSetConnectionlessCteTransmitEnable {
    closed spec fn spec_hci_bytes(&self) -> Seq<u8> {
        spec_cmd_packet(spec_opcode_raw(LE, 0x0052), self.0.spec_hci_bytes())
    }

    fn size(&self) -> (r: usize) {
        self.0.size() + 3
    }

    fn write_hci(&self, out: &mut Vec<u8>) {
        write_cmd_packet(Opcode::new(OpcodeGroup::new(LE), 0x0052), &self.0, out);
    }
}

impl SyncCmd for LeSetConnectionlessCteTransmitEnable {
    type Return = ();
    type Handle = ();

    open spec fn spec_handle_ok(data: Seq<u8>, h: ()) -> bool {
        true
    }

    open spec fn spec_handle_err(data: Seq<u8>, e: FromHciBytesError) -> bool {
        false
    }

    open spec fn spec_return_ok(data: Seq<u8>, v: ()) -> bool {
        spec_decodes_complete::<()>(data, v)
    }

    open spec fn spec_return_err(data: Seq<u8>, e: FromHciBytesError) -> bool {
        spec_decode_complete_err::<()>(data, e)
    }

    fn param_handle(&self) -> (r: ())
        ensures
            r == (),
    {
    }

    fn return_handle(data: &[u8]) -> (r: Result<(), FromHciBytesError>) {
        Ok(())
    }

    fn return_from_hci_bytes(data: &[u8]) -> (r: Result<(), FromHciBytesError>) {
        <() as FromHciBytes>::from_hci_bytes_complete(data)
    }
}

/// Parameters for the [`LeSetConnCteTransmitParams`] command.
#[derive(Debug, Clone, Copy, PartialEq, Eq, PartialOrd, Ord, Hash, Default)]
#[allow(missing_docs)]
pub struct LeSetConnCteTransmitParamsParams<'a> {
    pub handle: ConnHandle,
    pub cte_kinds: CteMask,
    pub switching_pattern: &'a [u8],
}

/// The value of a [`LeSetConnCteTransmitParamsParams`], with byte slices taken as sequences.
#[allow(missing_docs)]
pub struct LeSetConnCteTransmitParamsParamsView {
    pub handle: u16,
    pub cte_kinds: u8,
    pub switching_pattern: Seq<u8>,
}

impl<'a> View for LeSetConnCteTransmitParamsParams<'a> {
    type V = LeSetConnCteTransmitParamsParamsView;

    open spec fn view(&self) -> LeSetConnCteTransmitParamsParamsView {
        LeSetConnCteTransmitParamsParamsView { handle: self.handle@, cte_kinds: self.cte_kinds@, switching_pattern: self.switching_pattern@ }
    }
}

impl<'a> WriteHci for LeSetConnCteTransmitParamsParams<'a> {
    open spec fn spec_hci_bytes(&self) -> Seq<u8> {
        self.handle.spec_hci_bytes() + self.cte_kinds.spec_hci_bytes() + self.switching_pattern.spec_hci_bytes()
    }

    fn size(&self) -> (r: usize) {
        let mut n = self.handle.size();
        proof {
            assert(self.handle.spec_hci_bytes() + self.cte_kinds.spec_hci_bytes() =~= (self.handle.spec_hci_bytes() + self.cte_kinds.spec_hci_bytes()));
        }
        n = n + self.cte_kinds.size();
        proof {
            assert(self.handle.spec_hci_bytes() + self.cte_kinds.spec_hci_bytes() + self.switching_pattern.spec_hci_bytes() =~= (self.handle.spec_hci_bytes() + self.cte_kinds.spec_hci_bytes() + self.switching_pattern.spec_hci_bytes()));
        }
        n = n + self.switching_pattern.size();
        n
    }

    fn write_hci(&self, out: &mut Vec<u8>) {
        self.handle.write_hci(out);
        self.cte_kinds.write_hci(out);
        self.switching_pattern.write_hci(out);
        proof {
            assert(out@ =~= old(out)@ + self.spec_hci_bytes());
        }
    }
}

impl<'a> LeSetConnCteTransmitParamsParams<'a> {
    /// The bytes of a `LeSetConnCteTransmitParamsParams` are the bytes of its fields, one after the
    /// other, in the order in which the fields are declared.
    pub proof fn lemma_fields_in_order(&self)
        ensures
            self.spec_hci_bytes() == self.handle.spec_hci_bytes() + self.cte_kinds.spec_hci_bytes() + self.switching_pattern.spec_hci_bytes(),
    {
    }
}


/// The LeSetConnCteTransmitParams command (group LE, command 0x0055).
#[derive(Debug, Clone, Copy, PartialEq, Eq, PartialOrd, Ord, Hash)]
pub struct LeSetConnCteTransmitParams<'a>(LeSetConnCteTransmitParamsParams<'a>);

impl<'a> LeSetConnCteTransmitParams<'a> {
    /// Create a new instance of the command.
    pub fn new(handle: ConnHandle, cte_kinds: CteMask, switching_pattern: &'a [u8]) -> (result: Self)
        ensures
            result.spec_params() == (LeSetConnCteTransmitParamsParams { handle: handle, cte_kinds: cte_kinds, switching_pattern: switching_pattern }),
    {
        LeSetConnCteTransmitParams(LeSetConnCteTransmitParamsParams { handle: handle, cte_kinds: cte_kinds, switching_pattern: switching_pattern })
    }

    /// This command's opcode is group LE, command 0x0055: 0x2055.
    pub proof fn lemma_opcode()
        ensures
            Self::spec_opcode() == 0x2055,
    {
        lemma_opcode_value(LE, 0x0055);
    }
}

impl<'a> Cmd for LeSetConnCteTransmitParams<'a> {
    type Params = LeSetConnCteTransmitParamsParams<'a>;

    open spec fn spec_opcode() -> u16 {
        spec_opcode_raw(LE, 0x0055)
    }

    closed spec fn spec_params(&self) -> LeSetConnCteTransmitParamsParams<'a> {
        self.0
    }

    fn opcode() -> (r: Opcode) {
        Opcode::new(OpcodeGroup::new(LE), 0x0055)
    }

    fn params(&self) -> (r: &LeSetConnCteTransmitParamsParams<'a>) {
        &self.0
    }

    proof fn lemma_packet(&self) {
    }
}

impl<'a> WriteHci for LeSetConnCteTransmitParams<'a> {
    closed spec fn spec_hci_bytes(&self) -> Seq<u8> {
        spec_cmd_packet(spec_opcode_raw(LE, 0x0055), self.0.spec_hci_bytes())
    }

    fn size(&self) -> (r: usize) {
        self.0.size() + 3
    }

    fn write_hci(&self, out: &mut Vec<u8>) {
        write_cmd_packet(Opcode::new(OpcodeGroup::new(LE), 0x0055), &self.0, out);
    }
}

impl<'a> SyncCmd for LeSetConnCteTransmitParams<'a> {
    type Return = ConnHandle;
    type Handle = ConnHandle;

    open spec fn spec_handle_ok(data: Seq<u8>, h: ConnHandle) -> bool {
        spec_decodes_prefix::<ConnHandle>(data, h)
    }

    open spec fn spec_handle_err(data: Seq<u8>, e: FromHciBytesError) -> bool {
        spec_decode_prefix_err::<ConnHandle>(data, e)
    }

    open spec fn spec_return_ok(data: Seq<u8>, v: ConnHandle) -> bool {
        spec_decodes_complete::<ConnHandle>(data, v)
    }

    open spec fn spec_return_err(data: Seq<u8>, e: FromHciBytesError) -> bool {
        spec_decode_complete_err::<ConnHandle>(data, e)
    }

    fn param_handle(&self) -> (r: ConnHandle)
        ensures
            r == self.spec_params().handle,
    {
        self.0.handle
    }

    fn return_handle(data: &[u8]) -> (r: Result<ConnHandle, FromHciBytesError>) {
        match <ConnHandle as FromHciBytes>::from_hci_bytes(data) {
            Ok((x, _)) => Ok(x),
            Err(e) => Err(e),
        }
    }

    fn return_from_hci_bytes(data: &[u8]) -> (r: Result<ConnHandle, FromHciBytesError>) {
        <ConnHandle as FromHciBytes>::from_hci_bytes_complete(data)
    }
}

/// Parameters for the [`LeConnCteResponseEnable`] command.
#[derive(Debug, Clone, Copy, PartialEq, Eq, PartialOrd, Ord, Hash)]
#[allow(missing_docs)]
pub struct LeConnCteResponseEnableParams {
    pub handle: ConnHandle,
    pub enable: bool,
}

/// The value of a [`LeConnCteResponseEnableParams`], with byte slices taken as sequences.
#[allow(missing_docs)]
pub struct LeConnCteResponseEnableParamsView {
    pub handle: u16,
    pub enable: bool,
}

impl View for LeConnCteResponseEnableParams {
    type V = LeConnCteResponseEnableParamsView;

    open spec fn view(&self) -> LeConnCteResponseEnableParamsView {
        LeConnCteResponseEnableParamsView { handle: self.handle@, enable: self.enable@ }
    }
}

impl WriteHci for LeConnCteResponseEnableParams {
    open spec fn spec_hci_bytes(&self) -> Seq<u8> {
        self.handle.spec_hci_bytes() + self.enable.spec_hci_bytes()
    }

    fn size(&self) -> (r: usize) {
        let mut n = self.handle.size();
        proof {
            assert(self.handle.spec_hci_bytes() + self.enable.spec_hci_bytes() =~= (self.handle.spec_hci_bytes() + self.enable.spec_hci_bytes()));
        }
        n = n + self.enable.size();
        n
    }

    fn write_hci(&self, out: &mut Vec<u8>) {
        self.handle.write_hci(out);
        self.enable.write_hci(out);
        proof {
            assert(out@ =~= old(out)@ + self.spec_hci_bytes());
        }
    }
}

impl LeConnCteResponseEnableParams {
    /// The bytes of a `LeConnCteResponseEnableParams` are the bytes of its fields, one after the
    /// other, in the order in which the fields are declared.
    pub proof fn lemma_fields_in_order(&self)
        ensures
            self.spec_hci_bytes() == self.handle.spec_hci_bytes() + self.enable.spec_hci_bytes(),
    {
    }
}


/// The LeConnCteResponseEnable command (group LE, command 0x0057).
#[derive(Debug, Clone, Copy, PartialEq, Eq, PartialOrd, Ord, Hash)]
pub struct LeConnCteResponseEnable(LeConnCteResponseEnableParams);

impl LeConnCteResponseEnable {
    /// Create a new instance of the command.
    pub fn new(handle: ConnHandle, enable: bool) -> (result: Self)
        ensures
            result.spec_params() == (LeConnCteResponseEnableParams { handle: handle, enable: enable }),
    {
        LeConnCteResponseEnable(LeConnCteResponseEnableParams { handle: handle, enable: enable })
    }

    /// This command's opcode is group LE, command 0x0057: 0x2057.
    pub proof fn lemma_opcode()
        ensures
            Self::spec_opcode() == 0x2057,
    {
        lemma_opcode_value(LE, 0x0057);
    }
}

impl Cmd for LeConnCteResponseEnable {
    type Params = LeConnCteResponseEnableParams;

    open spec fn spec_opcode() -> u16 {
        spec_opcode_raw(LE, 0x0057)
    }

    closed spec fn spec_params(&self) -> LeConnCteResponseEnableParams {
        self.0
    }

    fn opcode() -> (r: Opcode) {
        Opcode::new(OpcodeGroup::new(LE), 0x0057)
    }

    fn params(&self) -> (r: &LeConnCteResponseEnableParams) {
        &self.0
    }

    proof fn lemma_packet(&self) {
    }
}

impl WriteHci for LeConnCteResponseEnable {
    closed spec fn spec_hci_bytes(&self) -> Seq<u8> {
        spec_cmd_packet(spec_opcode_raw(LE, 0x0057), self.0.spec_hci_bytes())
    }

    fn size(&self) -> (r: usize) {
        self.0.size() + 3
    }

    fn write_hci(&self, out: &mut Vec<u8>) {
        write_cmd_packet(Opcode::new(OpcodeGroup::new(LE), 0x0057), &self.0, out);
    }
}

impl SyncCmd for LeConnCteResponseEnable {
    type Return = ConnHandle;
    type Handle = ConnHandle;

    open spec fn spec_handle_ok(data: Seq<u8>, h: ConnHandle) -> bool {
        spec_decodes_prefix::<ConnHandle>(data, h)
    }

    open spec fn spec_handle_err(data: Seq<u8>, e: FromHciBytesError) -> bool {
        spec_decode_prefix_err::<ConnHandle>(data, e)
    }

    open spec fn spec_return_ok(data: Seq<u8>, v: ConnHandle) -> bool {
        spec_decodes_complete::<ConnHandle>(data, v)
    }

    open spec fn spec_return_err(data: Seq<u8>, e: FromHciBytesError) -> bool {
        spec_decode_complete_err::<ConnHandle>(data, e)
    }

    fn param_handle(&self) -> (r: ConnHandle)
        ensures
            r == self.spec_params().handle,
    {
        self.0.handle
    }

    fn return_handle(data: &[u8]) -> (r: Result<ConnHandle, FromHciBytesError>) {
        match <ConnHandle as FromHciBytes>::from_hci_bytes(data) {
            Ok((x, _)) => Ok(x),
            Err(e) => Err(e),
        }
    }

    fn return_from_hci_bytes(data: &[u8]) -> (r: Result<ConnHandle, FromHciBytesError>) {
        <ConnHandle as FromHciBytes>::from_hci_bytes_complete(data)
    }
}

/// Return parameters for the [`LeReadAntennaInformation`] command.
#[derive(Debug, Clone, Copy, PartialEq, Eq, PartialOrd, Ord, Hash)]
#[allow(missing_docs)]
pub struct LeReadAntennaInformationReturn {
    pub supported_switching_sampling_rates: SwitchingSamplingRates,
    pub num_antennae: u8,
    pub max_switching_pattern_len: u8,
    pub max_cte_len: u8,
}

/// The value of a [`LeReadAntennaInformationReturn`], with byte slices taken as sequences.
#[allow(missing_docs)]
pub struct LeReadAntennaInformationReturnView {
    pub supported_switching_sampling_rates: u8,
    pub num_antennae: u8,
    pub max_switching_pattern_len: u8,
    pub max_cte_len: u8,
}

impl View for LeReadAntennaInformationReturn {
    type V = LeReadAntennaInformationReturnView;

    open spec fn view(&self) -> LeReadAntennaInformationReturnView {
        LeReadAntennaInformationReturnView { supported_switching_sampling_rates: self.supported_switching_sampling_rates@, num_antennae: self.num_antennae@, max_switching_pattern_len: self.max_switching_pattern_len@, max_cte_len: self.max_cte_len@ }
    }
}

impl<'de> FromHciBytes<'de> for LeReadAntennaInformationReturn {
    open spec fn spec_from_hci_bytes(data: Seq<u8>) -> Result<(LeReadAntennaInformationReturnView, nat), FromHciBytesError> {
        if data.len() < 4 {
            Err(FromHciBytesError::InvalidSize)
        } else {
            match <SwitchingSamplingRates as FromHciBytes<'de>>::spec_from_hci_bytes(data) {
                Err(e) => Err(e),
                Ok((v_supported_switching_sampling_rates, n_supported_switching_sampling_rates)) => {
                    match <u8 as FromHciBytes<'de>>::spec_from_hci_bytes(data.skip(n_supported_switching_sampling_rates as int)) {
                        Err(e) => Err(e),
                        Ok((v_num_antennae, n_num_antennae)) => {
                            match <u8 as FromHciBytes<'de>>::spec_from_hci_bytes(data.skip(n_supported_switching_sampling_rates as int).skip(n_num_antennae as int)) {
                                Err(e) => Err(e),
                                Ok((v_max_switching_pattern_len, n_max_switching_pattern_len)) => {
                                    match <u8 as FromHciBytes<'de>>::spec_from_hci_bytes(data.skip(n_supported_switching_sampling_rates as int).skip(n_num_antennae as int).skip(n_max_switching_pattern_len as int)) {
                                        Err(e) => Err(e),
                                        Ok((v_max_cte_len, n_max_cte_len)) => {
                                            Ok((LeReadAntennaInformationReturnView { supported_switching_sampling_rates: v_supported_switching_sampling_rates, num_antennae: v_num_antennae, max_switching_pattern_len: v_max_switching_pattern_len, max_cte_len: v_max_cte_len }, (n_supported_switching_sampling_rates + n_num_antennae + n_max_switching_pattern_len + n_max_cte_len) as nat))
                                        },
                                    }
                                },
                            }
                        },
                    }
                },
            }
        }
    }

    fn from_hci_bytes(data: &'de [u8]) -> (r: Result<(LeReadAntennaInformationReturn, &'de [u8]), FromHciBytesError>) {
        if data.len() < 4 {
            return Err(FromHciBytesError::InvalidSize);
        }
        let (v_supported_switching_sampling_rates, rest_supported_switching_sampling_rates) = match <SwitchingSamplingRates as FromHciBytes<'de>>::from_hci_bytes(data) {
            Ok(x) => x,
            Err(e) => return Err(e),
        };
        let (v_num_antennae, rest_num_antennae) = match <u8 as FromHciBytes<'de>>::from_hci_bytes(rest_supported_switching_sampling_rates) {
            Ok(x) => x,
            Err(e) => return Err(e),
        };
        proof {
            lemma_skip_skip(data@, (data@.len() - rest_supported_switching_sampling_rates@.len()) as int, (rest_supported_switching_sampling_rates@.len() - rest_num_antennae@.len()) as int);
        }
        let (v_max_switching_pattern_len, rest_max_switching_pattern_len) = match <u8 as FromHciBytes<'de>>::from_hci_bytes(rest_num_antennae) {
            Ok(x) => x,
            Err(e) => return Err(e),
        };
        proof {
            lemma_skip_skip(data@, (data@.len() - rest_num_antennae@.len()) as int, (rest_num_antennae@.len() - rest_max_switching_pattern_len@.len()) as int);
        }
        let (v_max_cte_len, rest_max_cte_len) = match <u8 as FromHciBytes<'de>>::from_hci_bytes(rest_max_switching_pattern_len) {
            Ok(x) => x,
            Err(e) => return Err(e),
        };
        proof {
            lemma_skip_skip(data@, (data@.len() - rest_max_switching_pattern_len@.len()) as int, (rest_max_switching_pattern_len@.len() - rest_max_cte_len@.len()) as int);
        }
        Ok((LeReadAntennaInformationReturn { supported_switching_sampling_rates: v_supported_switching_sampling_rates, num_antennae: v_num_antennae, max_switching_pattern_len: v_max_switching_pattern_len, max_cte_len: v_max_cte_len }, rest_max_cte_len))
    }
}

impl WriteHci for LeReadAntennaInformationReturn {
    open spec fn spec_hci_bytes(&self) -> Seq<u8> {
        self.supported_switching_sampling_rates.spec_hci_bytes() + self.num_antennae.spec_hci_bytes() + self.max_switching_pattern_len.spec_hci_bytes() + self.max_cte_len.spec_hci_bytes()
    }

    fn size(&self) -> (r: usize) {
        let mut n = self.supported_switching_sampling_rates.size();
        proof {
            assert(self.supported_switching_sampling_rates.spec_hci_bytes() + self.num_antennae.spec_hci_bytes() =~= (self.supported_switching_sampling_rates.spec_hci_bytes() + self.num_antennae.spec_hci_bytes()));
        }
        n = n + self.num_antennae.size();
        proof {
            assert(self.supported_switching_sampling_rates.spec_hci_bytes() + self.num_antennae.spec_hci_bytes() + self.max_switching_pattern_len.spec_hci_bytes() =~= (self.supported_switching_sampling_rates.spec_hci_bytes() + self.num_antennae.spec_hci_bytes() + self.max_switching_pattern_len.spec_hci_bytes()));
        }
        n = n + self.max_switching_pattern_len.size();
        proof {
            assert(self.supported_switching_sampling_rates.spec_hci_bytes() + self.num_antennae.spec_hci_bytes() + self.max_switching_pattern_len.spec_hci_bytes() + self.max_cte_len.spec_hci_bytes() =~= (self.supported_switching_sampling_rates.spec_hci_bytes() + self.num_antennae.spec_hci_bytes() + self.max_switching_pattern_len.spec_hci_bytes() + self.max_cte_len.spec_hci_bytes()));
        }
        n = n + self.max_cte_len.size();
        n
    }

    fn write_hci(&self, out: &mut Vec<u8>) {
        self.supported_switching_sampling_rates.write_hci(out);
        self.num_antennae.write_hci(out);
        self.max_switching_pattern_len.write_hci(out);
        self.max_cte_len.write_hci(out);
        proof {
            assert(out@ =~= old(out)@ + self.spec_hci_bytes());
        }
    }
}

impl LeReadAntennaInformationReturn {
    /// The bytes of a `LeReadAntennaInformationReturn` are the bytes of its fields, one after the
    /// other, in the order in which the fields are declared.
    pub proof fn lemma_fields_in_order(&self)
        ensures
            self.spec_hci_bytes() == self.supported_switching_sampling_rates.spec_hci_bytes() + self.num_antennae.spec_hci_bytes() + self.max_switching_pattern_len.spec_hci_bytes() + self.max_cte_len.spec_hci_bytes(),
    {
    }
}

impl FixedSizeValue for LeReadAntennaInformationReturn {
    open spec fn spec_size() -> nat {
        4
    }

    proof fn lemma_fixed_size(&self) {
        self.supported_switching_sampling_rates.lemma_fixed_size();
        self.num_antennae.lemma_fixed_size();
        self.max_switching_pattern_len.lemma_fixed_size();
        self.max_cte_len.lemma_fixed_size();
    }
}

impl<'de> HciCodec<'de> for LeReadAntennaInformationReturn {
    open spec fn spec_encodable(&self) -> bool {
        self.supported_switching_sampling_rates.spec_encodable() && self.num_antennae.spec_encodable() && self.max_switching_pattern_len.spec_encodable() && self.max_cte_len.spec_encodable()
    }

    proof fn lemma_write_then_read(&self, rest: Seq<u8>) {
        self.supported_switching_sampling_rates.lemma_fixed_size();
        self.num_antennae.lemma_fixed_size();
        self.max_switching_pattern_len.lemma_fixed_size();
        self.max_cte_len.lemma_fixed_size();
        let t_max_cte_len = self.max_cte_len.spec_hci_bytes() + rest;
        let t_max_switching_pattern_len = self.max_switching_pattern_len.spec_hci_bytes() + t_max_cte_len;
        let t_num_antennae = self.num_antennae.spec_hci_bytes() + t_max_switching_pattern_len;
        let t_supported_switching_sampling_rates = self.supported_switching_sampling_rates.spec_hci_bytes() + t_num_antennae;
        assert(self.spec_hci_bytes() + rest =~= t_supported_switching_sampling_rates);
        self.supported_switching_sampling_rates.lemma_write_then_read(t_num_antennae);
        self.num_antennae.lemma_write_then_read(t_max_switching_pattern_len);
        self.max_switching_pattern_len.lemma_write_then_read(t_max_cte_len);
        self.max_cte_len.lemma_write_then_read(rest);
        assert(t_supported_switching_sampling_rates.skip(self.supported_switching_sampling_rates.spec_hci_bytes().len() as int) =~= t_num_antennae);
        assert(t_num_antennae.skip(self.num_antennae.spec_hci_bytes().len() as int) =~= t_max_switching_pattern_len);
        assert(t_max_switching_pattern_len.skip(self.max_switching_pattern_len.spec_hci_bytes().len() as int) =~= t_max_cte_len);
    }
}

/// The LeReadAntennaInformation command (group LE, command 0x0058).
#[derive(Debug, Clone, Copy, PartialEq, Eq, PartialOrd, Ord, Hash, Default)]
pub struct LeReadAntennaInformation(());

impl LeReadAntennaInformation {
    /// Create a new instance of the command.
    pub fn new() -> (r: Self)
        ensures
            r.spec_params() == (),
    {
        LeReadAntennaInformation(())
    }

    /// This command's opcode is group LE, command 0x0058: 0x2058.
    pub proof fn lemma_opcode()
        ensures
            Self::spec_opcode() == 0x2058,
    {
        lemma_opcode_value(LE, 0x0058);
    }
}

impl Cmd for LeReadAntennaInformation {
    type Params = ();

    open spec fn spec_opcode() -> u16 {
        spec_opcode_raw(LE, 0x0058)
    }

    closed spec fn spec_params(&self) -> () {
        self.0
    }

    fn opcode() -> (r: Opcode) {
        Opcode::new(OpcodeGroup::new(LE), 0x0058)
    }

    fn params(&self) -> (r: &()) {
        &self.0
    }

    proof fn lemma_packet(&self) {
    }
}

impl WriteHci for LeReadAntennaInformation {
    closed spec fn spec_hci_bytes(&self) -> Seq<u8> {
        spec_cmd_packet(spec_opcode_raw(LE, 0x0058), self.0.spec_hci_bytes())
    }

    fn size(&self) -> (r: usize) {
        self.0.size() + 3
    }

    fn write_hci(&self, out: &mut Vec<u8>) {
        write_cmd_packet(Opcode::new(OpcodeGroup::new(LE), 0x0058), &self.0, out);
    }
}

impl SyncCmd for LeReadAntennaInformation {
    type Return = LeReadAntennaInformationReturn;
    type Handle = ();

    open spec fn spec_handle_ok(data: Seq<u8>, h: ()) -> bool {
        true
    }

    open spec fn spec_handle_err(data: Seq<u8>, e: FromHciBytesError) -> bool {
        false
    }

    open spec fn spec_return_ok(data: Seq<u8>, v: LeReadAntennaInformationReturn) -> bool {
        spec_decodes_complete::<LeReadAntennaInformationReturn>(data, v)
    }

    open spec fn spec_return_err(data: Seq<u8>, e: FromHciBytesError) -> bool {
        spec_decode_complete_err::<LeReadAntennaInformationReturn>(data, e)
    }

    fn param_handle(&self) -> (r: ())
        ensures
            r == (),
    {
    }

    fn return_handle(data: &[u8]) -> (r: Result<(), FromHciBytesError>) {
        Ok(())
    }

    fn return_from_hci_bytes(data: &[u8]) -> (r: Result<LeReadAntennaInformationReturn, FromHciBytesError>) {
        <LeReadAntennaInformationReturn as FromHciBytes>::from_hci_bytes_complete(data)
    }
}

/// Parameters for the [`LeSetPeriodicAdvReceiveEnable`] command.
#[derive(Debug, Clone, Copy, PartialEq, Eq, PartialOrd, Ord, Hash)]
#[allow(missing_docs)]
pub struct LeSetPeriodicAdvReceiveEnableParams {
    pub sync_handle: SyncHandle,
    pub enable: LePeriodicAdvReceiveEnable,
}

/// The value of a [`LeSetPeriodicAdvReceiveEnableParams`], with byte slices taken as sequences.
#[allow(missing_docs)]
pub struct LeSetPeriodicAdvReceiveEnableParamsView {
    pub sync_handle: u16,
    pub enable: u8,
}

impl View for LeSetPeriodicAdvReceiveEnableParams {
    type V = LeSetPeriodicAdvReceiveEnableParamsView;

    open spec fn view(&self) -> LeSetPeriodicAdvReceiveEnableParamsView {
        LeSetPeriodicAdvReceiveEnableParamsView { sync_handle: self.sync_handle@, enable: self.enable@ }
    }
}

impl WriteHci for LeSetPeriodicAdvReceiveEnableParams {
    open spec fn spec_hci_bytes(&self) -> Seq<u8> {
        self.sync_handle.spec_hci_bytes() + self.enable.spec_hci_bytes()
    }

    fn size(&self) -> (r: usize) {
        let mut n = self.sync_handle.size();
        proof {
            assert(self.sync_handle.spec_hci_bytes() + self.enable.spec_hci_bytes() =~= (self.sync_handle.spec_hci_bytes() + self.enable.spec_hci_bytes()));
        }
        n = n + self.enable.size();
        n
    }

    fn write_hci(&self, out: &mut Vec<u8>) {
        self.sync_handle.write_hci(out);
        self.enable.write_hci(out);
        proof {
            assert(out@ =~= old(out)@ + self.spec_hci_bytes());
        }
    }
}

impl LeSetPeriodicAdvReceiveEnableParams {
    /// The bytes of a `LeSetPeriodicAdvReceiveEnableParams` are the bytes of its fields, one after the
    /// other, in the order in which the fields are declared.
    pub proof fn lemma_fields_in_order(&self)
        ensures
            self.spec_hci_bytes() == self.sync_handle.spec_hci_bytes() + self.enable.spec_hci_bytes(),
    {
    }
}


/// The LeSetPeriodicAdvReceiveEnable command (group LE, command 0x0059).
#[derive(Debug, Clone, Copy, PartialEq, Eq, PartialOrd, Ord, Hash)]
pub struct LeSetPeriodicAdvReceiveEnable(LeSetPeriodicAdvReceiveEnableParams);

impl LeSetPeriodicAdvReceiveEnable {
    /// Create a new instance of the command.
    pub fn new(sync_handle: SyncHandle, enable: LePeriodicAdvReceiveEnable) -> (result: Self)
        ensures
            result.spec_params() == (LeSetPeriodicAdvReceiveEnableParams { sync_handle: sync_handle, enable: enable }),
    {
        LeSetPeriodicAdvReceiveEnable(LeSetPeriodicAdvReceiveEnableParams { sync_handle: sync_handle, enable: enable })
    }

    /// This command's opcode is group LE, command 0x0059: 0x2059.
    pub proof fn lemma_opcode()
        ensures
            Self::spec_opcode() == 0x2059,
    {
        lemma_opcode_value(LE, 0x0059);
    }
}

impl Cmd for LeSetPeriodicAdvReceiveEnable {
    type Params = LeSetPeriodicAdvReceiveEnableParams;

    open spec fn spec_opcode() -> u16 {
        spec_opcode_raw(LE, 0x0059)
    }

    closed spec fn spec_params(&self) -> LeSetPeriodicAdvReceiveEnableParams {
        self.0
    }

    fn opcode() -> (r: Opcode) {
        Opcode::new(OpcodeGroup::new(LE), 0x0059)
    }

    fn params(&self) -> (r: &LeSetPeriodicAdvReceiveEnableParams) {
        &self.0
    }

    proof fn lemma_packet(&self) {
    }
}

impl WriteHci for LeSetPeriodicAdvReceiveEnable {
    closed spec fn spec_hci_bytes(&self) -> Seq<u8> {
        spec_cmd_packet(spec_opcode_raw(LE, 0x0059), self.0.spec_hci_bytes())
    }

    fn size(&self) -> (r: usize) {
        self.0.size() + 3
    }

    fn write_hci(&self, out: &mut Vec<u8>) {
        write_cmd_packet(Opcode::new(OpcodeGroup::new(LE), 0x0059), &self.0, out);
    }
}

impl SyncCmd for LeSetPeriodicAdvReceiveEnable {
    type Return = ();
    type Handle = ();

    open spec fn spec_handle_ok(data: Seq<u8>, h: ()) -> bool {
        true
    }

    open spec fn spec_handle_err(data: Seq<u8>, e: FromHciBytesError) -> bool {
        false
    }

    open spec fn spec_return_ok(data: Seq<u8>, v: ()) -> bool {
        spec_decodes_complete::<()>(data, v)
    }

    open spec fn spec_return_err(data: Seq<u8>, e: FromHciBytesError) -> bool {
        spec_decode_complete_err::<()>(data, e)
    }

    fn param_handle(&self) -> (r: ())
        ensures
            r == (),
    {
    }

    fn return_handle(data: &[u8]) -> (r: Result<(), FromHciBytesError>) {
        Ok(())
    }

    fn return_from_hci_bytes(data: &[u8]) -> (r: Result<(), FromHciBytesError>) {
        <() as FromHciBytes>::from_hci_bytes_complete(data)
    }
}

/// Parameters for the [`LePeriodicAdvSyncTransfer`] command.
#[derive(Debug, Clone, Copy, PartialEq, Eq, PartialOrd, Ord, Hash)]
#[allow(missing_docs)]
pub struct LePeriodicAdvSyncTransferParams {
    pub handle: ConnHandle,
    pub service_data: u16,
    pub sync_handle: SyncHandle,
}

/// The value of a [`LePeriodicAdvSyncTransferParams`], with byte slices taken as sequences.
#[allow(missing_docs)]
pub struct LePeriodicAdvSyncTransferParamsView {
    pub handle: u16,
    pub service_data: u16,
    pub sync_handle: u16,
}

impl View for LePeriodicAdvSyncTransferParams {
    type V = LePeriodicAdvSyncTransferParamsView;

    open spec fn view(&self) -> LePeriodicAdvSyncTransferParamsView {
        LePeriodicAdvSyncTransferParamsView { handle: self.handle@, service_data: self.service_data@, sync_handle: self.sync_handle@ }
    }
}

impl WriteHci for LePeriodicAdvSyncTransferParams {
    open spec fn spec_hci_bytes(&self) -> Seq<u8> {
        self.handle.spec_hci_bytes() + self.service_data.spec_hci_bytes() + self.sync_handle.spec_hci_bytes()
    }

    fn size(&self) -> (r: usize) {
        let mut n = self.handle.size();
        proof {
            assert(self.handle.spec_hci_bytes() + self.service_data.spec_hci_bytes() =~= (self.handle.spec_hci_bytes() + self.service_data.spec_hci_bytes()));
        }
        n = n + self.service_data.size();
        proof {
            assert(self.handle.spec_hci_bytes() + self.service_data.spec_hci_bytes() + self.sync_handle.spec_hci_bytes() =~= (self.handle.spec_hci_bytes() + self.service_data.spec_hci_bytes() + self.sync_handle.spec_hci_bytes()));
        }
        n = n + self.sync_handle.size();
        n
    }

    fn write_hci(&self, out: &mut Vec<u8>) {
        self.handle.write_hci(out);
        self.service_data.write_hci(out);
        self.sync_handle.write_hci(out);
        proof {
            assert(out@ =~= old(out)@ + self.spec_hci_bytes());
        }
    }
}

impl LePeriodicAdvSyncTransferParams {
    /// The bytes of a `LePeriodicAdvSyncTransferParams` are the bytes of its fields, one after the
    /// other, in the order in which the fields are declared.
    pub proof fn lemma_fields_in_order(&self)
        ensures
            self.spec_hci_bytes() == self.handle.spec_hci_bytes() + self.service_data.spec_hci_bytes() + self.sync_handle.spec_hci_bytes(),
    {
    }
}


/// The LePeriodicAdvSyncTransfer command (group LE, command 0x005a).
#[derive(Debug, Clone, Copy, PartialEq, Eq, PartialOrd, Ord, Hash)]
pub struct LePeriodicAdvSyncTransfer(LePeriodicAdvSyncTransferParams);

impl LePeriodicAdvSyncTransfer {
    /// Create a new instance of the command.
    pub fn new(handle: ConnHandle, service_data: u16, sync_handle: SyncHandle) -> (result: Self)
        ensures
            result.spec_params() == (LePeriodicAdvSyncTransferParams { handle: handle, service_data: service_data, sync_handle: sync_handle }),
    {
        LePeriodicAdvSyncTransfer(LePeriodicAdvSyncTransferParams { handle: handle, service_data: service_data, sync_handle: sync_handle })
    }

    /// This command's opcode is group LE, command 0x005a: 0x205a.
    pub proof fn lemma_opcode()
        ensures
            Self::spec_opcode() == 0x205a,
    {
        lemma_opcode_value(LE, 0x005a);
    }
}

impl Cmd for LePeriodicAdvSyncTransfer {
    type Params = LePeriodicAdvSyncTransferParams;

    open spec fn spec_opcode() -> u16 {
        spec_opcode_raw(LE, 0x005a)
    }

    closed spec fn spec_params(&self) -> LePeriodicAdvSyncTransferParams {
        self.0
    }

    fn opcode() -> (r: Opcode) {
        Opcode::new(OpcodeGroup::new(LE), 0x005a)
    }

    fn params(&self) -> (r: &LePeriodicAdvSyncTransferParams) {
        &self.0
    }

    proof fn lemma_packet(&self) {
    }
}

impl WriteHci for LePeriodicAdvSyncTransfer {
    closed spec fn spec_hci_bytes(&self) -> Seq<u8> {
        spec_cmd_packet(spec_opcode_raw(LE, 0x005a), self.0.spec_hci_bytes())
    }

    fn size(&self) -> (r: usize) {
        self.0.size() + 3
    }

    fn write_hci(&self, out: &mut Vec<u8>) {
        write_cmd_packet(Opcode::new(OpcodeGroup::new(LE), 0x005a), &self.0, out);
    }
}

impl SyncCmd for LePeriodicAdvSyncTransfer {
    type Return = ConnHandle;
    type Handle = ConnHandle;

    open spec fn spec_handle_ok(data: Seq<u8>, h: ConnHandle) -> bool {
        spec_decodes_prefix::<ConnHandle>(data, h)
    }

    open spec fn spec_handle_err(data: Seq<u8>, e: FromHciBytesError) -> bool {
        spec_decode_prefix_err::<ConnHandle>(data, e)
    }

    open spec fn spec_return_ok(data: Seq<u8>, v: ConnHandle) -> bool {
        spec_decodes_complete::<ConnHandle>(data, v)
    }

    open spec fn spec_return_err(data: Seq<u8>, e: FromHciBytesError) -> bool {
        spec_decode_complete_err::<ConnHandle>(data, e)
    }

    fn param_handle(&self) -> (r: ConnHandle)
        ensures
            r == self.spec_params().handle,
    {
        self.0.handle
    }

    fn return_handle(data: &[u8]) -> (r: Result<ConnHandle, FromHciBytesError>) {
        match <ConnHandle as FromHciBytes>::from_hci_bytes(data) {
            Ok((x, _)) => Ok(x),
            Err(e) => Err(e),
        }
    }

    fn return_from_hci_bytes(data: &[u8]) -> (r: Result<ConnHandle, FromHciBytesError>) {
        <ConnHandle as FromHciBytes>::from_hci_bytes_complete(data)
    }
}

/// Parameters for the [`LePeriodicAdvSetInfoTransfer`] command.
#[derive(Debug, Clone, Copy, PartialEq, Eq, PartialOrd, Ord, Hash)]
#[allow(missing_docs)]
pub struct LePeriodicAdvSetInfoTransferParams {
    pub handle: ConnHandle,
    pub service_data: u16,
    pub adv_handle: AdvHandle,
}

/// The value of a [`LePeriodicAdvSetInfoTransferParams`], with byte slices taken as sequences.
#[allow(missing_docs)]
pub struct LePeriodicAdvSetInfoTransferParamsView {
    pub handle: u16,
    pub service_data: u16,
    pub adv_handle: u8,
}

impl View for LePeriodicAdvSetInfoTransferParams {
    type V = LePeriodicAdvSetInfoTransferParamsView;

    open spec fn view(&self) -> LePeriodicAdvSetInfoTransferParamsView {
        LePeriodicAdvSetInfoTransferParamsView { handle: self.handle@, service_data: self.service_data@, adv_handle: self.adv_handle@ }
    }
}

impl WriteHci for LePeriodicAdvSetInfoTransferParams {
    open spec fn spec_hci_bytes(&self) -> Seq<u8> {
        self.handle.spec_hci_bytes() + self.service_data.spec_hci_bytes() + self.adv_handle.spec_hci_bytes()
    }

    fn size(&self) -> (r: usize) {
        let mut n = self.handle.size();
        proof {
            assert(self.handle.spec_hci_bytes() + self.service_data.spec_hci_bytes() =~= (self.handle.spec_hci_bytes() + self.service_data.spec_hci_bytes()));
        }
        n = n + self.service_data.size();
        proof {
            assert(self.handle.spec_hci_bytes() + self.service_data.spec_hci_bytes() + self.adv_handle.spec_hci_bytes() =~= (self.handle.spec_hci_bytes() + self.service_data.spec_hci_bytes() + self.adv_handle.spec_hci_bytes()));
        }
        n = n + self.adv_handle.size();
        n
    }

    fn write_hci(&self, out: &mut Vec<u8>) {
        self.handle.write_hci(out);
        self.service_data.write_hci(out);
        self.adv_handle.write_hci(out);
        proof {
            assert(out@ =~= old(out)@ + self.spec_hci_bytes());
        }
    }
}

impl LePeriodicAdvSetInfoTransferParams {
    /// The bytes of a `LePeriodicAdvSetInfoTransferParams` are the bytes of its fields, one after the
    /// other, in the order in which the fields are declared.
    pub proof fn lemma_fields_in_order(&self)
        ensures
            self.spec_hci_bytes() == self.handle.spec_hci_bytes() + self.service_data.spec_hci_bytes() + self.adv_handle.spec_hci_bytes(),
    {
    }
}


/// The LePeriodicAdvSetInfoTransfer command (group LE, command 0x005b).
#[derive(Debug, Clone, Copy, PartialEq, Eq, PartialOrd, Ord, Hash)]
pub struct LePeriodicAdvSetInfoTransfer(LePeriodicAdvSetInfoTransferParams);

impl LePeriodicAdvSetInfoTransfer {
    /// Create a new instance of the command.
    pub fn new(handle: ConnHandle, service_data: u16, adv_handle: AdvHandle) -> (result: Self)
        ensures
            result.spec_params() == (LePeriodicAdvSetInfoTransferParams { handle: handle, service_data: service_data, adv_handle: adv_handle }),
    {
        LePeriodicAdvSetInfoTransfer(LePeriodicAdvSetInfoTransferParams { handle: handle, service_data: service_data, adv_handle: adv_handle })
    }

    /// This command's opcode is group LE, command 0x005b: 0x205b.
    pub proof fn lemma_opcode()
        ensures
            Self::spec_opcode() == 0x205b,
    {
        lemma_opcode_value(LE, 0x005b);
    }
}

impl Cmd for LePeriodicAdvSetInfoTransfer {
    type Params = LePeriodicAdvSetInfoTransferParams;

    open spec fn spec_opcode() -> u16 {
        spec_opcode_raw(LE, 0x005b)
    }

    closed spec fn spec_params(&self) -> LePeriodicAdvSetInfoTransferParams {
        self.0
    }

    fn opcode() -> (r: Opcode) {
        Opcode::new(OpcodeGroup::new(LE), 0x005b)
    }

    fn params(&self) -> (r: &LePeriodicAdvSetInfoTransferParams) {
        &self.0
    }

    proof fn lemma_packet(&self) {
    }
}

impl WriteHci for LePeriodicAdvSetInfoTransfer {
    closed spec fn spec_hci_bytes(&self) -> Seq<u8> {
        spec_cmd_packet(spec_opcode_raw(LE, 0x005b), self.0.spec_hci_bytes())
    }

    fn size(&self) -> (r: usize) {
        self.0.size() + 3
    }

    fn write_hci(&self, out: &mut Vec<u8>) {
        write_cmd_packet(Opcode::new(OpcodeGroup::new(LE), 0x005b), &self.0, out);
    }
}

impl SyncCmd for LePeriodicAdvSetInfoTransfer {
    type Return = ConnHandle;
    type Handle = ConnHandle;

    open spec fn spec_handle_ok(data: Seq<u8>, h: ConnHandle) -> bool {
        spec_decodes_prefix::<ConnHandle>(data, h)
    }

    open spec fn spec_handle_err(data: Seq<u8>, e: FromHciBytesError) -> bool {
        spec_decode_prefix_err::<ConnHandle>(data, e)
    }

    open spec fn spec_return_ok(data: Seq<u8>, v: ConnHandle) -> bool {
        spec_decodes_complete::<ConnHandle>(data, v)
    }

    open spec fn spec_return_err(data: Seq<u8>, e: FromHciBytesError) -> bool {
        spec_decode_complete_err::<ConnHandle>(data, e)
    }

    fn param_handle(&self) -> (r: ConnHandle)
        ensures
            r == self.spec_params().handle,
    {
        self.0.handle
    }

    fn return_handle(data: &[u8]) -> (r: Result<ConnHandle, FromHciBytesError>) {
        match <ConnHandle as FromHciBytes>::from_hci_bytes(data) {
            Ok((x, _)) => Ok(x),
            Err(e) => Err(e),
        }
    }

    fn return_from_hci_bytes(data: &[u8]) -> (r: Result<ConnHandle, FromHciBytesError>) {
        <ConnHandle as FromHciBytes>::from_hci_bytes_complete(data)
    }
}

/// Parameters for the [`LeSetPeriodicAdvSyncTransferParams`] command.
#[derive(Debug, Clone, Copy, PartialEq, Eq, PartialOrd, Ord, Hash)]
#[allow(missing_docs)]
pub struct LeSetPeriodicAdvSyncTransferParamsParams {
    pub handle: ConnHandle,
    pub mode: LePeriodicAdvSyncTransferMode,
    pub skip: u16,
    pub sync_timeout: Duration<10_000>,
    pub cte_kind: CteMask,
}

/// The value of a [`LeSetPeriodicAdvSyncTransferParamsParams`], with byte slices taken as sequences.
#[allow(missing_docs)]
pub struct LeSetPeriodicAdvSyncTransferParamsParamsView {
    pub handle: u16,
    pub mode: LePeriodicAdvSyncTransferMode,
    pub skip: u16,
    pub sync_timeout: u16,
    pub cte_kind: u8,
}

impl View for LeSetPeriodicAdvSyncTransferParamsParams {
    type V = LeSetPeriodicAdvSyncTransferParamsParamsView;

    open spec fn view(&self) -> LeSetPeriodicAdvSyncTransferParamsParamsView {
        LeSetPeriodicAdvSyncTransferParamsParamsView { handle: self.handle@, mode: self.mode@, skip: self.skip@, sync_timeout: self.sync_timeout@, cte_kind: self.cte_kind@ }
    }
}

impl WriteHci for LeSetPeriodicAdvSyncTransferParamsParams {
    open spec fn spec_hci_bytes(&self) -> Seq<u8> {
        self.handle.spec_hci_bytes() + self.mode.spec_hci_bytes() + self.skip.spec_hci_bytes() + self.sync_timeout.spec_hci_bytes() + self.cte_kind.spec_hci_bytes()
    }

    fn size(&self) -> (r: usize) {
        let mut n = self.handle.size();
        proof {
            assert(self.handle.spec_hci_bytes() + self.mode.spec_hci_bytes() =~= (self.handle.spec_hci_bytes() + self.mode.spec_hci_bytes()));
        }
        n = n + self.mode.size();
        proof {
            assert(self.handle.spec_hci_bytes() + self.mode.spec_hci_bytes() + self.skip.spec_hci_bytes() =~= (self.handle.spec_hci_bytes() + self.mode.spec_hci_bytes() + self.skip.spec_hci_bytes()));
        }
        n = n + self.skip.size();
        proof {
            assert(self.handle.spec_hci_bytes() + self.mode.spec_hci_bytes() + self.skip.spec_hci_bytes() + self.sync_timeout.spec_hci_bytes() =~= (self.handle.spec_hci_bytes() + self.mode.spec_hci_bytes() + self.skip.spec_hci_bytes() + self.sync_timeout.spec_hci_bytes()));
        }
        n = n + self.sync_timeout.size();
        proof {
            assert(self.handle.spec_hci_bytes() + self.mode.spec_hci_bytes() + self.skip.spec_hci_bytes() + self.sync_timeout.spec_hci_bytes() + self.cte_kind.spec_hci_bytes() =~= (self.handle.spec_hci_bytes() + self.mode.spec_hci_bytes() + self.skip.spec_hci_bytes() + self.sync_timeout.spec_hci_bytes() + self.cte_kind.spec_hci_bytes()));
        }
        n = n + self.cte_kind.size();
        n
    }

    fn write_hci(&self, out: &mut Vec<u8>) {
        self.handle.write_hci(out);
        self.mode.write_hci(out);
        self.skip.write_hci(out);
        self.sync_timeout.write_hci(out);
        self.cte_kind.write_hci(out);
        proof {
            assert(out@ =~= old(out)@ + self.spec_hci_bytes());
        }
    }
}

impl LeSetPeriodicAdvSyncTransferParamsParams {
    /// The bytes of a `LeSetPeriodicAdvSyncTransferParamsParams` are the bytes of its fields, one after the
    /// other, in the order in which the fields are declared.
    pub proof fn lemma_fields_in_order(&self)
        ensures
            self.spec_hci_bytes() == self.handle.spec_hci_bytes() + self.mode.spec_hci_bytes() + self.skip.spec_hci_bytes() + self.sync_timeout.spec_hci_bytes() + self.cte_kind.spec_hci_bytes(),
    {
    }
}


/// The LeSetPeriodicAdvSyncTransferParams command (group LE, command 0x005c).
#[derive(Debug, Clone, Copy, PartialEq, Eq, PartialOrd, Ord, Hash)]
pub struct LeSetPeriodicAdvSyncTransferParams(LeSetPeriodicAdvSyncTransferParamsParams);

impl LeSetPeriodicAdvSyncTransferParams {
    /// Create a new instance of the command.
    pub fn new(handle: ConnHandle, mode: LePeriodicAdvSyncTransferMode, skip: u16, sync_timeout: Duration<10_000>, cte_kind: CteMask) -> (result: Self)
        ensures
            result.spec_params() == (LeSetPeriodicAdvSyncTransferParamsParams { handle: handle, mode: mode, skip: skip, sync_timeout: sync_timeout, cte_kind: cte_kind }),
    {
        LeSetPeriodicAdvSyncTransferParams(LeSetPeriodicAdvSyncTransferParamsParams { handle: handle, mode: mode, skip: skip, sync_timeout: sync_timeout, cte_kind: cte_kind })
    }

    /// This command's opcode is group LE, command 0x005c: 0x205c.
    pub proof fn lemma_opcode()
        ensures
            Self::spec_opcode() == 0x205c,
    {
        lemma_opcode_value(LE, 0x005c);
    }
}

impl Cmd for LeSetPeriodicAdvSyncTransferParams {
    type Params = LeSetPeriodicAdvSyncTransferParamsParams;

    open spec fn spec_opcode() -> u16 {
        spec_opcode_raw(LE, 0x005c)
    }

    closed spec fn spec_params(&self) -> LeSetPeriodicAdvSyncTransferParamsParams {
        self.0
    }

    fn opcode() -> (r: Opcode) {
        Opcode::new(OpcodeGroup::new(LE), 0x005c)
    }

    fn params(&self) -> (r: &LeSetPeriodicAdvSyncTransferParamsParams) {
        &self.0
    }

    proof fn lemma_packet(&self) {
    }
}

impl WriteHci for LeSetPeriodicAdvSyncTransferParams {
    closed spec fn spec_hci_bytes(&self) -> Seq<u8> {
        spec_cmd_packet(spec_opcode_raw(LE, 0x005c), self.0.spec_hci_bytes())
    }

    fn size(&self) -> (r: usize) {
        self.0.size() + 3
    }

    fn write_hci(&self, out: &mut Vec<u8>) {
        write_cmd_packet(Opcode::new(OpcodeGroup::new(LE), 0x005c), &self.0, out);
    }
}

impl SyncCmd for LeSetPeriodicAdvSyncTransferParams {
    type Return = ConnHandle;
    type Handle = ConnHandle;

    open spec fn spec_handle_ok(data: Seq<u8>, h: ConnHandle) -> bool {
        spec_decodes_prefix::<ConnHandle>(data, h)
    }

    open spec fn spec_handle_err(data: Seq<u8>, e: FromHciBytesError) -> bool {
        spec_decode_prefix_err::<ConnHandle>(data, e)
    }

    open spec fn spec_return_ok(data: Seq<u8>, v: ConnHandle) -> bool {
        spec_decodes_complete::<ConnHandle>(data, v)
    }

    open spec fn spec_return_err(data: Seq<u8>, e: FromHciBytesError) -> bool {
        spec_decode_complete_err::<ConnHandle>(data, e)
    }

    fn param_handle(&self) -> (r: ConnHandle)
        ensures
            r == self.spec_params().handle,
    {
        self.0.handle
    }

    fn return_handle(data: &[u8]) -> (r: Result<ConnHandle, FromHciBytesError>) {
        match <ConnHandle as FromHciBytes>::from_hci_bytes(data) {
            Ok((x, _)) => Ok(x),
            Err(e) => Err(e),
        }
    }

    fn return_from_hci_bytes(data: &[u8]) -> (r: Result<ConnHandle, FromHciBytesError>) {
        <ConnHandle as FromHciBytes>::from_hci_bytes_complete(data)
    }
}

/// Parameters for the [`LeSetDefaultPeriodicAdvSyncTransferParams`] command.
#[derive(Debug, Clone, Copy, PartialEq, Eq, PartialOrd, Ord, Hash)]
#[allow(missing_docs)]
pub struct LeSetDefaultPeriodicAdvSyncTransferParamsParams {
    pub mode: LePeriodicAdvSyncTransferMode,
    pub skip: u16,
    pub sync_timeout: Duration<10_000>,
    pub cte_kind: CteMask,
}

/// The value of a [`LeSetDefaultPeriodicAdvSyncTransferParamsParams`], with byte slices taken as sequences.
#[allow(missing_docs)]
pub struct LeSetDefaultPeriodicAdvSyncTransferParamsParamsView {
    pub mode: LePeriodicAdvSyncTransferMode,
    pub skip: u16,
    pub sync_timeout: u16,
    pub cte_kind: u8,
}

impl View for LeSetDefaultPeriodicAdvSyncTransferParamsParams {
    type V = LeSetDefaultPeriodicAdvSyncTransferParamsParamsView;

    open spec fn view(&self) -> LeSetDefaultPeriodicAdvSyncTransferParamsParamsView {
        LeSetDefaultPeriodicAdvSyncTransferParamsParamsView { mode: self.mode@, skip: self.skip@, sync_timeout: self.sync_timeout@, cte_kind: self.cte_kind@ }
    }
}

impl WriteHci for LeSetDefaultPeriodicAdvSyncTransferParamsParams {
    open spec fn spec_hci_bytes(&self) -> Seq<u8> {
        self.mode.spec_hci_bytes() + self.skip.spec_hci_bytes() + self.sync_timeout.spec_hci_bytes() + self.cte_kind.spec_hci_bytes()
    }

    fn size(&self) -> (r: usize) {
        let mut n = self.mode.size();
        proof {
            assert(self.mode.spec_hci_bytes() + self.skip.spec_hci_bytes() =~= (self.mode.spec_hci_bytes() + self.skip.spec_hci_bytes()));
        }
        n = n + self.skip.size();
        proof {
            assert(self.mode.spec_hci_bytes() + self.skip.spec_hci_bytes() + self.sync_timeout.spec_hci_bytes() =~= (self.mode.spec_hci_bytes() + self.skip.spec_hci_bytes() + self.sync_timeout.spec_hci_bytes()));
        }
        n = n + self.sync_timeout.size();
        proof {
            assert(self.mode.spec_hci_bytes() + self.skip.spec_hci_bytes() + self.sync_timeout.spec_hci_bytes() + self.cte_kind.spec_hci_bytes() =~= (self.mode.spec_hci_bytes() + self.skip.spec_hci_bytes() + self.sync_timeout.spec_hci_bytes() + self.cte_kind.spec_hci_bytes()));
        }
        n = n + self.cte_kind.size();
        n
    }

    fn write_hci(&self, out: &mut Vec<u8>) {
        self.mode.write_hci(out);
        self.skip.write_hci(out);
        self.sync_timeout.write_hci(out);
        self.cte_kind.write_hci(out);
        proof {
            assert(out@ =~= old(out)@ + self.spec_hci_bytes());
        }
    }
}

impl LeSetDefaultPeriodicAdvSyncTransferParamsParams {
    /// The bytes of a `LeSetDefaultPeriodicAdvSyncTransferParamsParams` are the bytes of its fields, one after the
    /// other, in the order in which the fields are declared.
    pub proof fn lemma_fields_in_order(&self)
        ensures
            self.spec_hci_bytes() == self.mode.spec_hci_bytes() + self.skip.spec_hci_bytes() + self.sync_timeout.spec_hci_bytes() + self.cte_kind.spec_hci_bytes(),
    {
    }
}


/// The LeSetDefaultPeriodicAdvSyncTransferParams command (group LE, command 0x005d).
#[derive(Debug, Clone, Copy, PartialEq, Eq, PartialOrd, Ord, Hash)]
pub struct LeSetDefaultPeriodicAdvSyncTransferParams(LeSetDefaultPeriodicAdvSyncTransferParamsParams);

impl LeSetDefaultPeriodicAdvSyncTransferParams {
    /// Create a new instance of the command.
    pub fn new(mode: LePeriodicAdvSyncTransferMode, skip: u16, sync_timeout: Duration<10_000>, cte_kind: CteMask) -> (result: Self)
        ensures
            result.spec_params() == (LeSetDefaultPeriodicAdvSyncTransferParamsParams { mode: mode, skip: skip, sync_timeout: sync_timeout, cte_kind: cte_kind }),
    {
        LeSetDefaultPeriodicAdvSyncTransferParams(LeSetDefaultPeriodicAdvSyncTransferParamsParams { mode: mode, skip: skip, sync_timeout: sync_timeout, cte_kind: cte_kind })
    }

    /// This command's opcode is group LE, command 0x005d: 0x205d.
    pub proof fn lemma_opcode()
        ensures
            Self::spec_opcode() == 0x205d,
    {
        lemma_opcode_value(LE, 0x005d);
    }
}

impl Cmd for LeSetDefaultPeriodicAdvSyncTransferParams {
    type Params = LeSetDefaultPeriodicAdvSyncTransferParamsParams;

    open spec fn spec_opcode() -> u16 {
        spec_opcode_raw(LE, 0x005d)
    }

    closed spec fn spec_params(&self) -> LeSetDefaultPeriodicAdvSyncTransferParamsParams {
        self.0
    }

    fn opcode() -> (r: Opcode) {
        Opcode::new(OpcodeGroup::new(LE), 0x005d)
    }

    fn params(&self) -> (r: &LeSetDefaultPeriodicAdvSyncTransferParamsParams) {
        &self.0
    }

    proof fn lemma_packet(&self) {
    }
}

impl WriteHci for LeSetDefaultPeriodicAdvSyncTransferParams {
    closed spec fn spec_hci_bytes(&self) -> Seq<u8> {
        spec_cmd_packet(spec_opcode_raw(LE, 0x005d), self.0.spec_hci_bytes())
    }

    fn size(&self) -> (r: usize) {
        self.0.size() + 3
    }

    fn write_hci(&self, out: &mut Vec<u8>) {
        write_cmd_packet(Opcode::new(OpcodeGroup::new(LE), 0x005d), &self.0, out);
    }
}

impl SyncCmd for LeSetDefaultPeriodicAdvSyncTransferParams {
    type Return = ();
    type Handle = ();

    open spec fn spec_handle_ok(data: Seq<u8>, h: ()) -> bool {
        true
    }

    open spec fn spec_handle_err(data: Seq<u8>, e: FromHciBytesError) -> bool {
        false
    }

    open spec fn spec_return_ok(data: Seq<u8>, v: ()) -> bool {
        spec_decodes_complete::<()>(data, v)
    }

    open spec fn spec_return_err(data: Seq<u8>, e: FromHciBytesError) -> bool {
        spec_decode_complete_err::<()>(data, e)
    }

    fn param_handle(&self) -> (r: ())
        ensures
            r == (),
    {
    }

    fn return_handle(data: &[u8]) -> (r: Result<(), FromHciBytesError>) {
        Ok(())
    }

    fn return_from_hci_bytes(data: &[u8]) -> (r: Result<(), FromHciBytesError>) {
        <() as FromHciBytes>::from_hci_bytes_complete(data)
    }
}

/// The LeRequestPeerSca command (group LE, command 0x006d).
#[derive(Debug, Clone, Copy, PartialEq, Eq, PartialOrd, Ord, Hash)]
pub struct LeRequestPeerSca(ConnHandle);

impl LeRequestPeerSca {
    /// Create a new instance of the command with the provided parameters.
    pub fn new(param: ConnHandle) -> (r: Self)
        ensures
            r.spec_params() == param,
    {
        LeRequestPeerSca(param)
    }

    /// This command's opcode is group LE, command 0x006d: 0x206d.
    pub proof fn lemma_opcode()
        ensures
            Self::spec_opcode() == 0x206d,
    {
        lemma_opcode_value(LE, 0x006d);
    }
}

impl Cmd for LeRequestPeerSca {
    type Params = ConnHandle;

    open spec fn spec_opcode() -> u16 {
        spec_opcode_raw(LE, 0x006d)
    }

    closed spec fn spec_params(&self) -> ConnHandle {
        self.0
    }

    fn opcode() -> (r: Opcode) {
        Opcode::new(OpcodeGroup::new(LE), 0x006d)
    }

    fn params(&self) -> (r: &ConnHandle) {
        &self.0
    }

    proof fn lemma_packet(&self) {
    }
}

impl WriteHci for LeRequestPeerSca {
    closed spec fn spec_hci_bytes(&self) -> Seq<u8> {
        spec_cmd_packet(spec_opcode_raw(LE, 0x006d), self.0.spec_hci_bytes())
    }

    fn size(&self) -> (r: usize) {
        self.0.size() + 3
    }

    fn write_hci(&self, out: &mut Vec<u8>) {
        write_cmd_packet(Opcode::new(OpcodeGroup::new(LE), 0x006d), &self.0, out);
    }
}

impl AsyncCmd for LeRequestPeerSca {
}

/// Parameters for the [`LeSetHostFeature`] command.
#[derive(Debug, Clone, Copy, PartialEq, Eq, PartialOrd, Ord, Hash)]
#[allow(missing_docs)]
pub struct LeSetHostFeatureParams {
    pub bit_number: u8,
    pub bit_value: u8,
}

/// The value of a [`LeSetHostFeatureParams`], with byte slices taken as sequences.
#[allow(missing_docs)]
pub struct LeSetHostFeatureParamsView {
    pub bit_number: u8,
    pub bit_value: u8,
}

impl View for LeSetHostFeatureParams {
    type V = LeSetHostFeatureParamsView;

    open spec fn view(&self) -> LeSetHostFeatureParamsView {
        LeSetHostFeatureParamsView { bit_number: self.bit_number@, bit_value: self.bit_value@ }
    }
}

impl WriteHci for LeSetHostFeatureParams {
    open spec fn spec_hci_bytes(&self) -> Seq<u8> {
        self.bit_number.spec_hci_bytes() + self.bit_value.spec_hci_bytes()
    }

    fn size(&self) -> (r: usize) {
        let mut n = self.bit_number.size();
        proof {
            assert(self.bit_number.spec_hci_bytes() + self.bit_value.spec_hci_bytes() =~= (self.bit_number.spec_hci_bytes() + self.bit_value.spec_hci_bytes()));
        }
        n = n + self.bit_value.size();
        n
    }

    fn write_hci(&self, out: &mut Vec<u8>) {
        self.bit_number.write_hci(out);
        self.bit_value.write_hci(out);
        proof {
            assert(out@ =~= old(out)@ + self.spec_hci_bytes());
        }
    }
}

impl LeSetHostFeatureParams {
    /// The bytes of a `LeSetHostFeatureParams` are the bytes of its fields, one after the
    /// other, in the order in which the fields are declared.
    pub proof fn lemma_fields_in_order(&self)
        ensures
            self.spec_hci_bytes() == self.bit_number.spec_hci_bytes() + self.bit_value.spec_hci_bytes(),
    {
    }
}


/// The LeSetHostFeature command (group LE, command 0x0074).
#[derive(Debug, Clone, Copy, PartialEq, Eq, PartialOrd, Ord, Hash)]
pub struct LeSetHostFeature(LeSetHostFeatureParams);

impl LeSetHostFeature {
    /// Create a new instance of the command.
    pub fn new(bit_number: u8, bit_value: u8) -> (result: Self)
        ensures
            result.spec_params() == (LeSetHostFeatureParams { bit_number: bit_number, bit_value: bit_value }),
    {
        LeSetHostFeature(LeSetHostFeatureParams { bit_number: bit_number, bit_value: bit_value })
    }

    /// This command's opcode is group LE, command 0x0074: 0x2074.
    pub proof fn lemma_opcode()
        ensures
            Self::spec_opcode() == 0x2074,
    {
        lemma_opcode_value(LE, 0x0074);
    }
}

impl Cmd for LeSetHostFeature {
    type Params = LeSetHostFeatureParams;

    open spec fn spec_opcode() -> u16 {
        spec_opcode_raw(LE, 0x0074)
    }

    closed spec fn spec_params(&self) -> LeSetHostFeatureParams {
        self.0
    }

    fn opcode() -> (r: Opcode) {
        Opcode::new(OpcodeGroup::new(LE), 0x0074)
    }

    fn params(&self) -> (r: &LeSetHostFeatureParams) {
        &self.0
    }

    proof fn lemma_packet(&self) {
    }
}

impl WriteHci for LeSetHostFeature {
    closed spec fn spec_hci_bytes(&self) -> Seq<u8> {
        spec_cmd_packet(spec_opcode_raw(LE, 0x0074), self.0.spec_hci_bytes())
    }

    fn size(&self) -> (r: usize) {
        self.0.size() + 3
    }

    fn write_hci(&self, out: &mut Vec<u8>) {
        write_cmd_packet(Opcode::new(OpcodeGroup::new(LE), 0x0074), &self.0, out);
    }
}

impl SyncCmd for LeSetHostFeature {
    type Return = ();
    type Handle = ();

    open spec fn spec_handle_ok(data: Seq<u8>, h: ()) -> bool {
        true
    }

    open spec fn spec_handle_err(data: Seq<u8>, e: FromHciBytesError) -> bool {
        false
    }

    open spec fn spec_return_ok(data: Seq<u8>, v: ()) -> bool {
        spec_decodes_complete::<()>(data, v)
    }

    open spec fn spec_return_err(data: Seq<u8>, e: FromHciBytesError) -> bool {
        spec_decode_complete_err::<()>(data, e)
    }

    fn param_handle(&self) -> (r: ())
        ensures
            r == (),
    {
    }

    fn return_handle(data: &[u8]) -> (r: Result<(), FromHciBytesError>) {
        Ok(())
    }

    fn return_from_hci_bytes(data: &[u8]) -> (r: Result<(), FromHciBytesError>) {
        <() as FromHciBytes>::from_hci_bytes_complete(data)
    }
}

/// Parameters for the [`LeEnhancedReadTransmitPowerLevel`] command.
#[derive(Debug, Clone, Copy, PartialEq, Eq, PartialOrd, Ord, Hash)]
#[allow(missing_docs)]
pub struct LeEnhancedReadTransmitPowerLevelParams {
    pub handle: ConnHandle,
    pub phy: PhyKind,
}

/// The value of a [`LeEnhancedReadTransmitPowerLevelParams`], with byte slices taken as sequences.
#[allow(missing_docs)]
pub struct LeEnhancedReadTransmitPowerLevelParamsView {
    pub handle: u16,
    pub phy: PhyKind,
}

impl View for LeEnhancedReadTransmitPowerLevelParams {
    type V = LeEnhancedReadTransmitPowerLevelParamsView;

    open spec fn view(&self) -> LeEnhancedReadTransmitPowerLevelParamsView {
        LeEnhancedReadTransmitPowerLevelParamsView { handle: self.handle@, phy: self.phy@ }
    }
}

impl WriteHci for LeEnhancedReadTransmitPowerLevelParams {
    open spec fn spec_hci_bytes(&self) -> Seq<u8> {
        self.handle.spec_hci_bytes() + self.phy.spec_hci_bytes()
    }

    fn size(&self) -> (r: usize) {
        let mut n = self.handle.size();
        proof {
            assert(self.handle.spec_hci_bytes() + self.phy.spec_hci_bytes() =~= (self.handle.spec_hci_bytes() + self.phy.spec_hci_bytes()));
        }
        n = n + self.phy.size();
        n
    }

    fn write_hci(&self, out: &mut Vec<u8>) {
        self.handle.write_hci(out);
        self.phy.write_hci(out);
        proof {
            assert(out@ =~= old(out)@ + self.spec_hci_bytes());
        }
    }
}

impl LeEnhancedReadTransmitPowerLevelParams {
    /// The bytes of a `LeEnhancedReadTransmitPowerLevelParams` are the bytes of its fields, one after the
    /// other, in the order in which the fields are declared.
    pub proof fn lemma_fields_in_order(&self)
        ensures
            self.spec_hci_bytes() == self.handle.spec_hci_bytes() + self.phy.spec_hci_bytes(),
    {
    }
}


/// Return parameters for the [`LeEnhancedReadTransmitPowerLevel`] command.
#[derive(Debug, Clone, Copy, PartialEq, Eq, PartialOrd, Ord, Hash)]
#[allow(missing_docs)]
pub struct LeEnhancedReadTransmitPowerLevelReturn {
    pub handle: ConnHandle,
    pub phy: PhyKind,
    pub current_tx_power_level: i8,
    pub max_tx_power_level: i8,
}

/// The value of a [`LeEnhancedReadTransmitPowerLevelReturn`], with byte slices taken as sequences.
#[allow(missing_docs)]
pub struct LeEnhancedReadTransmitPowerLevelReturnView {
    pub handle: u16,
    pub phy: PhyKind,
    pub current_tx_power_level: i8,
    pub max_tx_power_level: i8,
}

impl View for LeEnhancedReadTransmitPowerLevelReturn {
    type V = LeEnhancedReadTransmitPowerLevelReturnView;

    open spec fn view(&self) -> LeEnhancedReadTransmitPowerLevelReturnView {
        LeEnhancedReadTransmitPowerLevelReturnView { handle: self.handle@, phy: self.phy@, current_tx_power_level: self.current_tx_power_level@, max_tx_power_level: self.max_tx_power_level@ }
    }
}

impl<'de> FromHciBytes<'de> for LeEnhancedReadTransmitPowerLevelReturn {
    open spec fn spec_from_hci_bytes(data: Seq<u8>) -> Result<(LeEnhancedReadTransmitPowerLevelReturnView, nat), FromHciBytesError> {
        if data.len() < 5 {
            Err(FromHciBytesError::InvalidSize)
        } else {
            match <ConnHandle as FromHciBytes<'de>>::spec_from_hci_bytes(data) {
                Err(e) => Err(e),
                Ok((v_handle, n_handle)) => {
                    match <PhyKind as FromHciBytes<'de>>::spec_from_hci_bytes(data.skip(n_handle as int)) {
                        Err(e) => Err(e),
                        Ok((v_phy, n_phy)) => {
                            match <i8 as FromHciBytes<'de>>::spec_from_hci_bytes(data.skip(n_handle as int).skip(n_phy as int)) {
                                Err(e) => Err(e),
                                Ok((v_current_tx_power_level, n_current_tx_power_level)) => {
                                    match <i8 as FromHciBytes<'de>>::spec_from_hci_bytes(data.skip(n_handle as int).skip(n_phy as int).skip(n_current_tx_power_level as int)) {
                                        Err(e) => Err(e),
                                        Ok((v_max_tx_power_level, n_max_tx_power_level)) => {
                                            Ok((LeEnhancedReadTransmitPowerLevelReturnView { handle: v_handle, phy: v_phy, current_tx_power_level: v_current_tx_power_level, max_tx_power_level: v_max_tx_power_level }, (n_handle + n_phy + n_current_tx_power_level + n_max_tx_power_level) as nat))
                                        },
                                    }
                                },
                            }
                        },
                    }
                },
            }
        }
    }

    fn from_hci_bytes(data: &'de [u8]) -> (r: Result<(LeEnhancedReadTransmitPowerLevelReturn, &'de [u8]), FromHciBytesError>) {
        if data.len() < 5 {
            return Err(FromHciBytesError::InvalidSize);
        }
        let (v_handle, rest_handle) = match <ConnHandle as FromHciBytes<'de>>::from_hci_bytes(data) {
            Ok(x) => x,
            Err(e) => return Err(e),
        };
        let (v_phy, rest_phy) = match <PhyKind as FromHciBytes<'de>>::from_hci_bytes(rest_handle) {
            Ok(x) => x,
            Err(e) => return Err(e),
        };
        proof {
            lemma_skip_skip(data@, (data@.len() - rest_handle@.len()) as int, (rest_handle@.len() - rest_phy@.len()) as int);
        }
        let (v_current_tx_power_level, rest_current_tx_power_level) = match <i8 as FromHciBytes<'de>>::from_hci_bytes(rest_phy) {
            Ok(x) => x,
            Err(e) => return Err(e),
        };
        proof {
            lemma_skip_skip(data@, (data@.len() - rest_phy@.len()) as int, (rest_phy@.len() - rest_current_tx_power_level@.len()) as int);
        }
        let (v_max_tx_power_level, rest_max_tx_power_level) = match <i8 as FromHciBytes<'de>>::from_hci_bytes(rest_current_tx_power_level) {
            Ok(x) => x,
            Err(e) => return Err(e),
        };
        proof {
            lemma_skip_skip(data@, (data@.len() - rest_current_tx_power_level@.len()) as int, (rest_current_tx_power_level@.len() - rest_max_tx_power_level@.len()) as int);
        }
        Ok((LeEnhancedReadTransmitPowerLevelReturn { handle: v_handle, phy: v_phy, current_tx_power_level: v_current_tx_power_level, max_tx_power_level: v_max_tx_power_level }, rest_max_tx_power_level))
    }
}

impl WriteHci for LeEnhancedReadTransmitPowerLevelReturn {
    open spec fn spec_hci_bytes(&self) -> Seq<u8> {
        self.handle.spec_hci_bytes() + self.phy.spec_hci_bytes() + self.current_tx_power_level.spec_hci_bytes() + self.max_tx_power_level.spec_hci_bytes()
    }

    fn size(&self) -> (r: usize) {
        let mut n = self.handle.size();
        proof {
            assert(self.handle.spec_hci_bytes() + self.phy.spec_hci_bytes() =~= (self.handle.spec_hci_bytes() + self.phy.spec_hci_bytes()));
        }
        n = n + self.phy.size();
        proof {
            assert(self.handle.spec_hci_bytes() + self.phy.spec_hci_bytes() + self.current_tx_power_level.spec_hci_bytes() =~= (self.handle.spec_hci_bytes() + self.phy.spec_hci_bytes() + self.current_tx_power_level.spec_hci_bytes()));
        }
        n = n + self.current_tx_power_level.size();
        proof {
            assert(self.handle.spec_hci_bytes() + self.phy.spec_hci_bytes() + self.current_tx_power_level.spec_hci_bytes() + self.max_tx_power_level.spec_hci_bytes() =~= (self.handle.spec_hci_bytes() + self.phy.spec_hci_bytes() + self.current_tx_power_level.spec_hci_bytes() + self.max_tx_power_level.spec_hci_bytes()));
        }
        n = n + self.max_tx_power_level.size();
        n
    }

    fn write_hci(&self, out: &mut Vec<u8>) {
        self.handle.write_hci(out);
        self.phy.write_hci(out);
        self.current_tx_power_level.write_hci(out);
        self.max_tx_power_level.write_hci(out);
        proof {
            assert(out@ =~= old(out)@ + self.spec_hci_bytes());
        }
    }
}

impl LeEnhancedReadTransmitPowerLevelReturn {
    /// The bytes of a `LeEnhancedReadTransmitPowerLevelReturn` are the bytes of its fields, one after the
    /// other, in the order in which the fields are declared.
    pub proof fn lemma_fields_in_order(&self)
        ensures
            self.spec_hci_bytes() == self.handle.spec_hci_bytes() + self.phy.spec_hci_bytes() + self.current_tx_power_level.spec_hci_bytes() + self.max_tx_power_level.spec_hci_bytes(),
    {
    }
}

impl FixedSizeValue for LeEnhancedReadTransmitPowerLevelReturn {
    open spec fn spec_size() -> nat {
        5
    }

    proof fn lemma_fixed_size(&self) {
        self.handle.lemma_fixed_size();
        self.phy.lemma_fixed_size();
        self.current_tx_power_level.lemma_fixed_size();
        self.max_tx_power_level.lemma_fixed_size();
    }
}

impl<'de> HciCodec<'de> for LeEnhancedReadTransmitPowerLevelReturn {
    open spec fn spec_encodable(&self) -> bool {
        self.handle.spec_encodable() && self.phy.spec_encodable() && self.current_tx_power_level.spec_encodable() && self.max_tx_power_level.spec_encodable()
    }

    proof fn lemma_write_then_read(&self, rest: Seq<u8>) {
        self.handle.lemma_fixed_size();
        self.phy.lemma_fixed_size();
        self.current_tx_power_level.lemma_fixed_size();
        self.max_tx_power_level.lemma_fixed_size();
        let t_max_tx_power_level = self.max_tx_power_level.spec_hci_bytes() + rest;
        let t_current_tx_power_level = self.current_tx_power_level.spec_hci_bytes() + t_max_tx_power_level;
        let t_phy = self.phy.spec_hci_bytes() + t_current_tx_power_level;
        let t_handle = self.handle.spec_hci_bytes() + t_phy;
        assert(self.spec_hci_bytes() + rest =~= t_handle);
        self.handle.lemma_write_then_read(t_phy);
        self.phy.lemma_write_then_read(t_current_tx_power_level);
        self.current_tx_power_level.lemma_write_then_read(t_max_tx_power_level);
        self.max_tx_power_level.lemma_write_then_read(rest);
        assert(t_handle.skip(self.handle.spec_hci_bytes().len() as int) =~= t_phy);
        assert(t_phy.skip(self.phy.spec_hci_bytes().len() as int) =~= t_current_tx_power_level);
        assert(t_current_tx_power_level.skip(self.current_tx_power_level.spec_hci_bytes().len() as int) =~= t_max_tx_power_level);
    }
}

/// The LeEnhancedReadTransmitPowerLevel command (group LE, command 0x0076).
#[derive(Debug, Clone, Copy, PartialEq, Eq, PartialOrd, Ord, Hash)]
pub struct LeEnhancedReadTransmitPowerLevel(LeEnhancedReadTransmitPowerLevelParams);

impl LeEnhancedReadTransmitPowerLevel {
    /// Create a new instance of the command.
    pub fn new(handle: ConnHandle, phy: PhyKind) -> (result: Self)
        ensures
            result.spec_params() == (LeEnhancedReadTransmitPowerLevelParams { handle: handle, phy: phy }),
    {
        LeEnhancedReadTransmitPowerLevel(LeEnhancedReadTransmitPowerLevelParams { handle: handle, phy: phy })
    }

    /// This command's opcode is group LE, command 0x0076: 0x2076.
    pub proof fn lemma_opcode()
        ensures
            Self::spec_opcode() == 0x2076,
    {
        lemma_opcode_value(LE, 0x0076);
    }
}

impl Cmd for LeEnhancedReadTransmitPowerLevel {
    type Params = LeEnhancedReadTransmitPowerLevelParams;

    open spec fn spec_opcode() -> u16 {
        spec_opcode_raw(LE, 0x0076)
    }

    closed spec fn spec_params(&self) -> LeEnhancedReadTransmitPowerLevelParams {
        self.0
    }

    fn opcode() -> (r: Opcode) {
        Opcode::new(OpcodeGroup::new(LE), 0x0076)
    }

    fn params(&self) -> (r: &LeEnhancedReadTransmitPowerLevelParams) {
        &self.0
    }

    proof fn lemma_packet(&self) {
    }
}

impl WriteHci for LeEnhancedReadTransmitPowerLevel {
    closed spec fn spec_hci_bytes(&self) -> Seq<u8> {
        spec_cmd_packet(spec_opcode_raw(LE, 0x0076), self.0.spec_hci_bytes())
    }

    fn size(&self) -> (r: usize) {
        self.0.size() + 3
    }

    fn write_hci(&self, out: &mut Vec<u8>) {
        write_cmd_packet(Opcode::new(OpcodeGroup::new(LE), 0x0076), &self.0, out);
    }
}

impl SyncCmd for LeEnhancedReadTransmitPowerLevel {
    type Return = LeEnhancedReadTransmitPowerLevelReturn;
    type Handle = ConnHandle;

    open spec fn spec_handle_ok(data: Seq<u8>, h: ConnHandle) -> bool {
        spec_decodes_prefix::<ConnHandle>(data, h)
    }

    open spec fn spec_handle_err(data: Seq<u8>, e: FromHciBytesError) -> bool {
        spec_decode_prefix_err::<ConnHandle>(data, e)
    }

    open spec fn spec_return_ok(data: Seq<u8>, v: LeEnhancedReadTransmitPowerLevelReturn) -> bool {
        spec_decodes_complete::<LeEnhancedReadTransmitPowerLevelReturn>(data, v)
    }

    open spec fn spec_return_err(data: Seq<u8>, e: FromHciBytesError) -> bool {
        spec_decode_complete_err::<LeEnhancedReadTransmitPowerLevelReturn>(data, e)
    }

    fn param_handle(&self) -> (r: ConnHandle)
        ensures
            r == self.spec_params().handle,
    {
        self.0.handle
    }

    fn return_handle(data: &[u8]) -> (r: Result<ConnHandle, FromHciBytesError>) {
        match <ConnHandle as FromHciBytes>::from_hci_bytes(data) {
            Ok((x, _)) => Ok(x),
            Err(e) => Err(e),
        }
    }

    fn return_from_hci_bytes(data: &[u8]) -> (r: Result<LeEnhancedReadTransmitPowerLevelReturn, FromHciBytesError>) {
        <LeEnhancedReadTransmitPowerLevelReturn as FromHciBytes>::from_hci_bytes_complete(data)
    }
}

/// Parameters for the [`LeReadRemoteTransmitPowerLevel`] command.
#[derive(Debug, Clone, Copy, PartialEq, Eq, PartialOrd, Ord, Hash)]
#[allow(missing_docs)]
pub struct LeReadRemoteTransmitPowerLevelParams {
    pub handle: ConnHandle,
    pub phy: PhyKind,
}

/// The value of a [`LeReadRemoteTransmitPowerLevelParams`], with byte slices taken as sequences.
#[allow(missing_docs)]
pub struct LeReadRemoteTransmitPowerLevelParamsView {
    pub handle: u16,
    pub phy: PhyKind,
}

impl View for LeReadRemoteTransmitPowerLevelParams {
    type V = LeReadRemoteTransmitPowerLevelParamsView;

    open spec fn view(&self) -> LeReadRemoteTransmitPowerLevelParamsView {
        LeReadRemoteTransmitPowerLevelParamsView { handle: self.handle@, phy: self.phy@ }
    }
}

impl WriteHci for LeReadRemoteTransmitPowerLevelParams {
    open spec fn spec_hci_bytes(&self) -> Seq<u8> {
        self.handle.spec_hci_bytes() + self.phy.spec_hci_bytes()
    }

    fn size(&self) -> (r: usize) {
        let mut n = self.handle.size();
        proof {
            assert(self.handle.spec_hci_bytes() + self.phy.spec_hci_bytes() =~= (self.handle.spec_hci_bytes() + self.phy.spec_hci_bytes()));
        }
        n = n + self.phy.size();
        n
    }

    fn write_hci(&self, out: &mut Vec<u8>) {
        self.handle.write_hci(out);
        self.phy.write_hci(out);
        proof {
            assert(out@ =~= old(out)@ + self.spec_hci_bytes());
        }
    }
}

impl LeReadRemoteTransmitPowerLevelParams {
    /// The bytes of a `LeReadRemoteTransmitPowerLevelParams` are the bytes of its fields, one after the
    /// other, in the order in which the fields are declared.
    pub proof fn lemma_fields_in_order(&self)
        ensures
            self.spec_hci_bytes() == self.handle.spec_hci_bytes() + self.phy.spec_hci_bytes(),
    {
    }
}


/// The LeReadRemoteTransmitPowerLevel command (group LE, command 0x0077).
#[derive(Debug, Clone, Copy, PartialEq, Eq, PartialOrd, Ord, Hash)]
pub struct LeReadRemoteTransmitPowerLevel(LeReadRemoteTransmitPowerLevelParams);

impl LeReadRemoteTransmitPowerLevel {
    /// Create a new instance of the command.
    pub fn new(handle: ConnHandle, phy: PhyKind) -> (result: Self)
        ensures
            result.spec_params() == (LeReadRemoteTransmitPowerLevelParams { handle: handle, phy: phy }),
    {
        LeReadRemoteTransmitPowerLevel(LeReadRemoteTransmitPowerLevelParams { handle: handle, phy: phy })
    }

    /// This command's opcode is group LE, command 0x0077: 0x2077.
    pub proof fn lemma_opcode()
        ensures
            Self::spec_opcode() == 0x2077,
    {
        lemma_opcode_value(LE, 0x0077);
    }
}

impl Cmd for LeReadRemoteTransmitPowerLevel {
    type Params = LeReadRemoteTransmitPowerLevelParams;

    open spec fn spec_opcode() -> u16 {
        spec_opcode_raw(LE, 0x0077)
    }

    closed spec fn spec_params(&self) -> LeReadRemoteTransmitPowerLevelParams {
        self.0
    }

    fn opcode() -> (r: Opcode) {
        Opcode::new(OpcodeGroup::new(LE), 0x0077)
    }

    fn params(&self) -> (r: &LeReadRemoteTransmitPowerLevelParams) {
        &self.0
    }

    proof fn lemma_packet(&self) {
    }
}

impl WriteHci for LeReadRemoteTransmitPowerLevel {
    closed spec fn spec_hci_bytes(&self) -> Seq<u8> {
        spec_cmd_packet(spec_opcode_raw(LE, 0x0077), self.0.spec_hci_bytes())
    }

    fn size(&self) -> (r: usize) {
        self.0.size() + 3
    }

    fn write_hci(&self, out: &mut Vec<u8>) {
        write_cmd_packet(Opcode::new(OpcodeGroup::new(LE), 0x0077), &self.0, out);
    }
}

impl AsyncCmd for LeReadRemoteTransmitPowerLevel {
}

/// Parameters for the [`LeSetPathLossReportingParams`] command.
#[derive(Debug, Clone, Copy, PartialEq, Eq, PartialOrd, Ord, Hash)]
#[allow(missing_docs)]
pub struct LeSetPathLossReportingParamsParams {
    pub handle: ConnHandle,
    pub high_threshold: i8,
    pub high_hysteresis: i8,
    pub low_threshold: i8,
    pub low_hysteresis: i8,
    pub min_time_spent: u16,
}

/// The value of a [`LeSetPathLossReportingParamsParams`], with byte slices taken as sequences.
#[allow(missing_docs)]
pub struct LeSetPathLossReportingParamsParamsView {
    pub handle: u16,
    pub high_threshold: i8,
    pub high_hysteresis: i8,
    pub low_threshold: i8,
    pub low_hysteresis: i8,
    pub min_time_spent: u16,
}

impl View for LeSetPathLossReportingParamsParams {
    type V = LeSetPathLossReportingParamsParamsView;

    open spec fn view(&self) -> LeSetPathLossReportingParamsParamsView {
        LeSetPathLossReportingParamsParamsView { handle: self.handle@, high_threshold: self.high_threshold@, high_hysteresis: self.high_hysteresis@, low_threshold: self.low_threshold@, low_hysteresis: self.low_hysteresis@, min_time_spent: self.min_time_spent@ }
    }
}

impl WriteHci for LeSetPathLossReportingParamsParams {
    open spec fn spec_hci_bytes(&self) -> Seq<u8> {
        self.handle.spec_hci_bytes() + self.high_threshold.spec_hci_bytes() + self.high_hysteresis.spec_hci_bytes() + self.low_threshold.spec_hci_bytes() + self.low_hysteresis.spec_hci_bytes() + self.min_time_spent.spec_hci_bytes()
    }

    fn size(&self) -> (r: usize) {
        let mut n = self.handle.size();
        proof {
            assert(self.handle.spec_hci_bytes() + self.high_threshold.spec_hci_bytes() =~= (self.handle.spec_hci_bytes() + self.high_threshold.spec_hci_bytes()));
        }
        n = n + self.high_threshold.size();
        proof {
            assert(self.handle.spec_hci_bytes() + self.high_threshold.spec_hci_bytes() + self.high_hysteresis.spec_hci_bytes() =~= (self.handle.spec_hci_bytes() + self.high_threshold.spec_hci_bytes() + self.high_hysteresis.spec_hci_bytes()));
        }
        n = n + self.high_hysteresis.size();
        proof {
            assert(self.handle.spec_hci_bytes() + self.high_threshold.spec_hci_bytes() + self.high_hysteresis.spec_hci_bytes() + self.low_threshold.spec_hci_bytes() =~= (self.handle.spec_hci_bytes() + self.high_threshold.spec_hci_bytes() + self.high_hysteresis.spec_hci_bytes() + self.low_threshold.spec_hci_bytes()));
        }
        n = n + self.low_threshold.size();
        proof {
            assert(self.handle.spec_hci_bytes() + self.high_threshold.spec_hci_bytes() + self.high_hysteresis.spec_hci_bytes() + self.low_threshold.spec_hci_bytes() + self.low_hysteresis.spec_hci_bytes() =~= (self.handle.spec_hci_bytes() + self.high_threshold.spec_hci_bytes() + self.high_hysteresis.spec_hci_bytes() + self.low_threshold.spec_hci_bytes() + self.low_hysteresis.spec_hci_bytes()));
        }
        n = n + self.low_hysteresis.size();
        proof {
            assert(self.handle.spec_hci_bytes() + self.high_threshold.spec_hci_bytes() + self.high_hysteresis.spec_hci_bytes() + self.low_threshold.spec_hci_bytes() + self.low_hysteresis.spec_hci_bytes() + self.min_time_spent.spec_hci_bytes() =~= (self.handle.spec_hci_bytes() + self.high_threshold.spec_hci_bytes() + self.high_hysteresis.spec_hci_bytes() + self.low_threshold.spec_hci_bytes() + self.low_hysteresis.spec_hci_bytes() + self.min_time_spent.spec_hci_bytes()));
        }
        n = n + self.min_time_spent.size();
        n
    }

    fn write_hci(&self, out: &mut Vec<u8>) {
        self.handle.write_hci(out);
        self.high_threshold.write_hci(out);
        self.high_hysteresis.write_hci(out);
        self.low_threshold.write_hci(out);
        self.low_hysteresis.write_hci(out);
        self.min_time_spent.write_hci(out);
        proof {
            assert(out@ =~= old(out)@ + self.spec_hci_bytes());
        }
    }
}

impl LeSetPathLossReportingParamsParams {
    /// The bytes of a `LeSetPathLossReportingParamsParams` are the bytes of its fields, one after the
    /// other, in the order in which the fields are declared.
    pub proof fn lemma_fields_in_order(&self)
        ensures
            self.spec_hci_bytes() == self.handle.spec_hci_bytes() + self.high_threshold.spec_hci_bytes() + self.high_hysteresis.spec_hci_bytes() + self.low_threshold.spec_hci_bytes() + self.low_hysteresis.spec_hci_bytes() + self.min_time_spent.spec_hci_bytes(),
    {
    }
}


/// The LeSetPathLossReportingParams command (group LE, command 0x0078).
#[derive(Debug, Clone, Copy, PartialEq, Eq, PartialOrd, Ord, Hash)]
pub struct LeSetPathLossReportingParams(LeSetPathLossReportingParamsParams);

impl LeSetPathLossReportingParams {
    /// Create a new instance of the command.
    pub fn new(handle: ConnHandle, high_threshold: i8, high_hysteresis: i8, low_threshold: i8, low_hysteresis: i8, min_time_spent: u16) -> (result: Self)
        ensures
            result.spec_params() == (LeSetPathLossReportingParamsParams { handle: handle, high_threshold: high_threshold, high_hysteresis: high_hysteresis, low_threshold: low_threshold, low_hysteresis: low_hysteresis, min_time_spent: min_time_spent }),
    {
        LeSetPathLossReportingParams(LeSetPathLossReportingParamsParams { handle: handle, high_threshold: high_threshold, high_hysteresis: high_hysteresis, low_threshold: low_threshold, low_hysteresis: low_hysteresis, min_time_spent: min_time_spent })
    }

    /// This command's opcode is group LE, command 0x0078: 0x2078.
    pub proof fn lemma_opcode()
        ensures
            Self::spec_opcode() == 0x2078,
    {
        lemma_opcode_value(LE, 0x0078);
    }
}

impl Cmd for LeSetPathLossReportingParams {
    type Params = LeSetPathLossReportingParamsParams;

    open spec fn spec_opcode() -> u16 {
        spec_opcode_raw(LE, 0x0078)
    }

    closed spec fn spec_params(&self) -> LeSetPathLossReportingParamsParams {
        self.0
    }

    fn opcode() -> (r: Opcode) {
        Opcode::new(OpcodeGroup::new(LE), 0x0078)
    }

    fn params(&self) -> (r: &LeSetPathLossReportingParamsParams) {
        &self.0
    }

    proof fn lemma_packet(&self) {
    }
}

impl WriteHci for LeSetPathLossReportingParams {
    closed spec fn spec_hci_bytes(&self) -> Seq<u8> {
        spec_cmd_packet(spec_opcode_raw(LE, 0x0078), self.0.spec_hci_bytes())
    }

    fn size(&self) -> (r: usize) {
        self.0.size() + 3
    }

    fn write_hci(&self, out: &mut Vec<u8>) {
        write_cmd_packet(Opcode::new(OpcodeGroup::new(LE), 0x0078), &self.0, out);
    }
}

impl SyncCmd for LeSetPathLossReportingParams {
    type Return = ConnHandle;
    type Handle = ConnHandle;

    open spec fn spec_handle_ok(data: Seq<u8>, h: ConnHandle) -> bool {
        spec_decodes_prefix::<ConnHandle>(data, h)
    }

    open spec fn spec_handle_err(data: Seq<u8>, e: FromHciBytesError) -> bool {
        spec_decode_prefix_err::<ConnHandle>(data, e)
    }

    open spec fn spec_return_ok(data: Seq<u8>, v: ConnHandle) -> bool {
        spec_decodes_complete::<ConnHandle>(data, v)
    }

    open spec fn spec_return_err(data: Seq<u8>, e: FromHciBytesError) -> bool {
        spec_decode_complete_err::<ConnHandle>(data, e)
    }

    fn param_handle(&self) -> (r: ConnHandle)
        ensures
            r == self.spec_params().handle,
    {
        self.0.handle
    }

    fn return_handle(data: &[u8]) -> (r: Result<ConnHandle, FromHciBytesError>) {
        match <ConnHandle as FromHciBytes>::from_hci_bytes(data) {
            Ok((x, _)) => Ok(x),
            Err(e) => Err(e),
        }
    }

    fn return_from_hci_bytes(data: &[u8]) -> (r: Result<ConnHandle, FromHciBytesError>) {
        <ConnHandle as FromHciBytes>::from_hci_bytes_complete(data)
    }
}

/// Parameters for the [`LeSetPathLossReportingEnable`] command.
#[derive(Debug, Clone, Copy, PartialEq, Eq, PartialOrd, Ord, Hash)]
#[allow(missing_docs)]
pub struct LeSetPathLossReportingEnableParams {
    pub handle: ConnHandle,
    pub enable: bool,
}

/// The value of a [`LeSetPathLossReportingEnableParams`], with byte slices taken as sequences.
#[allow(missing_docs)]
pub struct LeSetPathLossReportingEnableParamsView {
    pub handle: u16,
    pub enable: bool,
}

impl View for LeSetPathLossReportingEnableParams {
    type V = LeSetPathLossReportingEnableParamsView;

    open spec fn view(&self) -> LeSetPathLossReportingEnableParamsView {
        LeSetPathLossReportingEnableParamsView { handle: self.handle@, enable: self.enable@ }
    }
}

impl WriteHci for LeSetPathLossReportingEnableParams {
    open spec fn spec_hci_bytes(&self) -> Seq<u8> {
        self.handle.spec_hci_bytes() + self.enable.spec_hci_bytes()
    }

    fn size(&self) -> (r: usize) {
        let mut n = self.handle.size();
        proof {
            assert(self.handle.spec_hci_bytes() + self.enable.spec_hci_bytes() =~= (self.handle.spec_hci_bytes() + self.enable.spec_hci_bytes()));
        }
        n = n + self.enable.size();
        n
    }

    fn write_hci(&self, out: &mut Vec<u8>) {
        self.handle.write_hci(out);
        self.enable.write_hci(out);
        proof {
            assert(out@ =~= old(out)@ + self.spec_hci_bytes());
        }
    }
}

impl LeSetPathLossReportingEnableParams {
    /// The bytes of a `LeSetPathLossReportingEnableParams` are the bytes of its fields, one after the
    /// other, in the order in which the fields are declared.
    pub proof fn lemma_fields_in_order(&self)
        ensures
            self.spec_hci_bytes() == self.handle.spec_hci_bytes() + self.enable.spec_hci_bytes(),
    {
    }
}


/// The LeSetPathLossReportingEnable command (group LE, command 0x0079).
#[derive(Debug, Clone, Copy, PartialEq, Eq, PartialOrd, Ord, Hash)]
pub struct LeSetPathLossReportingEnable(LeSetPathLossReportingEnableParams);

impl LeSetPathLossReportingEnable {
    /// Create a new instance of the command.
    pub fn new(handle: ConnHandle, enable: bool) -> (result: Self)
        ensures
            result.spec_params() == (LeSetPathLossReportingEnableParams { handle: handle, enable: enable }),
    {
        LeSetPathLossReportingEnable(LeSetPathLossReportingEnableParams { handle: handle, enable: enable })
    }

    /// This command's opcode is group LE, command 0x0079: 0x2079.
    pub proof fn lemma_opcode()
        ensures
            Self::spec_opcode() == 0x2079,
    {
        lemma_opcode_value(LE, 0x0079);
    }
}

impl Cmd for LeSetPathLossReportingEnable {
    type Params = LeSetPathLossReportingEnableParams;

    open spec fn spec_opcode() -> u16 {
        spec_opcode_raw(LE, 0x0079)
    }

    closed spec fn spec_params(&self) -> LeSetPathLossReportingEnableParams {
        self.0
    }

    fn opcode() -> (r: Opcode) {
        Opcode::new(OpcodeGroup::new(LE), 0x0079)
    }

    fn params(&self) -> (r: &LeSetPathLossReportingEnableParams) {
        &self.0
    }

    proof fn lemma_packet(&self) {
    }
}

impl WriteHci for LeSetPathLossReportingEnable {
    closed spec fn spec_hci_bytes(&self) -> Seq<u8> {
        spec_cmd_packet(spec_opcode_raw(LE, 0x0079), self.0.spec_hci_bytes())
    }

    fn size(&self) -> (r: usize) {
        self.0.size() + 3
    }

    fn write_hci(&self, out: &mut Vec<u8>) {
        write_cmd_packet(Opcode::new(OpcodeGroup::new(LE), 0x0079), &self.0, out);
    }
}

impl SyncCmd for LeSetPathLossReportingEnable {
    type Return = ConnHandle;
    type Handle = ConnHandle;

    open spec fn spec_handle_ok(data: Seq<u8>, h: ConnHandle) -> bool {
        spec_decodes_prefix::<ConnHandle>(data, h)
    }

    open spec fn spec_handle_err(data: Seq<u8>, e: FromHciBytesError) -> bool {
        spec_decode_prefix_err::<ConnHandle>(data, e)
    }

    open spec fn spec_return_ok(data: Seq<u8>, v: ConnHandle) -> bool {
        spec_decodes_complete::<ConnHandle>(data, v)
    }

    open spec fn spec_return_err(data: Seq<u8>, e: FromHciBytesError) -> bool {
        spec_decode_complete_err::<ConnHandle>(data, e)
    }

    fn param_handle(&self) -> (r: ConnHandle)
        ensures
            r == self.spec_params().handle,
    {
        self.0.handle
    }

    fn return_handle(data: &[u8]) -> (r: Result<ConnHandle, FromHciBytesError>) {
        match <ConnHandle as FromHciBytes>::from_hci_bytes(data) {
            Ok((x, _)) => Ok(x),
            Err(e) => Err(e),
        }
    }

    fn return_from_hci_bytes(data: &[u8]) -> (r: Result<ConnHandle, FromHciBytesError>) {
        <ConnHandle as FromHciBytes>::from_hci_bytes_complete(data)
    }
}

/// Parameters for the [`LeSetTransmitPowerReportingEnable`] command.
#[derive(Debug, Clone, Copy, PartialEq, Eq, PartialOrd, Ord, Hash)]
#[allow(missing_docs)]
pub struct LeSetTransmitPowerReportingEnableParams {
    pub handle: ConnHandle,
    pub local_enable: bool,
    pub remote_enable: bool,
}

/// The value of a [`LeSetTransmitPowerReportingEnableParams`], with byte slices taken as sequences.
#[allow(missing_docs)]
pub struct LeSetTransmitPowerReportingEnableParamsView {
    pub handle: u16,
    pub local_enable: bool,
    pub remote_enable: bool,
}

impl View for LeSetTransmitPowerReportingEnableParams {
    type V = LeSetTransmitPowerReportingEnableParamsView;

    open spec fn view(&self) -> LeSetTransmitPowerReportingEnableParamsView {
        LeSetTransmitPowerReportingEnableParamsView { handle: self.handle@, local_enable: self.local_enable@, remote_enable: self.remote_enable@ }
    }
}

impl WriteHci for LeSetTransmitPowerReportingEnableParams {
    open spec fn spec_hci_bytes(&self) -> Seq<u8> {
        self.handle.spec_hci_bytes() + self.local_enable.spec_hci_bytes() + self.remote_enable.spec_hci_bytes()
    }

    fn size(&self) -> (r: usize) {
        let mut n = self.handle.size();
        proof {
            assert(self.handle.spec_hci_bytes() + self.local_enable.spec_hci_bytes() =~= (self.handle.spec_hci_bytes() + self.local_enable.spec_hci_bytes()));
        }
        n = n + self.local_enable.size();
        proof {
            assert(self.handle.spec_hci_bytes() + self.local_enable.spec_hci_bytes() + self.remote_enable.spec_hci_bytes() =~= (self.handle.spec_hci_bytes() + self.local_enable.spec_hci_bytes() + self.remote_enable.spec_hci_bytes()));
        }
        n = n + self.remote_enable.size();
        n
    }

    fn write_hci(&self, out: &mut Vec<u8>) {
        self.handle.write_hci(out);
        self.local_enable.write_hci(out);
        self.remote_enable.write_hci(out);
        proof {
            assert(out@ =~= old(out)@ + self.spec_hci_bytes());
        }
    }
}

impl LeSetTransmitPowerReportingEnableParams {
    /// The bytes of a `LeSetTransmitPowerReportingEnableParams` are the bytes of its fields, one after the
    /// other, in the order in which the fields are declared.
    pub proof fn lemma_fields_in_order(&self)
        ensures
            self.spec_hci_bytes() == self.handle.spec_hci_bytes() + self.local_enable.spec_hci_bytes() + self.remote_enable.spec_hci_bytes(),
    {
    }
}


/// The LeSetTransmitPowerReportingEnable command (group LE, command 0x007a).
#[derive(Debug, Clone, Copy, PartialEq, Eq, PartialOrd, Ord, Hash)]
pub struct LeSetTransmitPowerReportingEnable(LeSetTransmitPowerReportingEnableParams);

impl LeSetTransmitPowerReportingEnable {
    /// Create a new instance of the command.
    pub fn new(handle: ConnHandle, local_enable: bool, remote_enable: bool) -> (result: Self)
        ensures
            result.spec_params() == (LeSetTransmitPowerReportingEnableParams { handle: handle, local_enable: local_enable, remote_enable: remote_enable }),
    {
        LeSetTransmitPowerReportingEnable(LeSetTransmitPowerReportingEnableParams { handle: handle, local_enable: local_enable, remote_enable: remote_enable })
    }

    /// This command's opcode is group LE, command 0x007a: 0x207a.
    pub proof fn lemma_opcode()
        ensures
            Self::spec_opcode() == 0x207a,
    {
        lemma_opcode_value(LE, 0x007a);
    }
}

impl Cmd for LeSetTransmitPowerReportingEnable {
    type Params = LeSetTransmitPowerReportingEnableParams;

    open spec fn spec_opcode() -> u16 {
        spec_opcode_raw(LE, 0x007a)
    }

    closed spec fn spec_params(&self) -> LeSetTransmitPowerReportingEnableParams {
        self.0
    }

    fn opcode() -> (r: Opcode) {
        Opcode::new(OpcodeGroup::new(LE), 0x007a)
    }

    fn params(&self) -> (r: &LeSetTransmitPowerReportingEnableParams) {
        &self.0
    }

    proof fn lemma_packet(&self) {
    }
}

impl WriteHci for LeSetTransmitPowerReportingEnable {
    closed spec fn spec_hci_bytes(&self) -> Seq<u8> {
        spec_cmd_packet(spec_opcode_raw(LE, 0x007a), self.0.spec_hci_bytes())
    }

    fn size(&self) -> (r: usize) {
        self.0.size() + 3
    }

    fn write_hci(&self, out: &mut Vec<u8>) {
        write_cmd_packet(Opcode::new(OpcodeGroup::new(LE), 0x007a), &self.0, out);
    }
}

impl SyncCmd for LeSetTransmitPowerReportingEnable {
    type Return = ConnHandle;
    type Handle = ConnHandle;

    open spec fn spec_handle_ok(data: Seq<u8>, h: ConnHandle) -> bool {
        spec_decodes_prefix::<ConnHandle>(data, h)
    }

    open spec fn spec_handle_err(data: Seq<u8>, e: FromHciBytesError) -> bool {
        spec_decode_prefix_err::<ConnHandle>(data, e)
    }

    open spec fn spec_return_ok(data: Seq<u8>, v: ConnHandle) -> bool {
        spec_decodes_complete::<ConnHandle>(data, v)
    }

    open spec fn spec_return_err(data: Seq<u8>, e: FromHciBytesError) -> bool {
        spec_decode_complete_err::<ConnHandle>(data, e)
    }

    fn param_handle(&self) -> (r: ConnHandle)
        ensures
            r == self.spec_params().handle,
    {
        self.0.handle
    }

    fn return_handle(data: &[u8]) -> (r: Result<ConnHandle, FromHciBytesError>) {
        match <ConnHandle as FromHciBytes>::from_hci_bytes(data) {
            Ok((x, _)) => Ok(x),
            Err(e) => Err(e),
        }
    }

    fn return_from_hci_bytes(data: &[u8]) -> (r: Result<ConnHandle, FromHciBytesError>) {
        <ConnHandle as FromHciBytes>::from_hci_bytes_complete(data)
    }
}

/// Parameters for the [`LeSetDataRelatedAddrChanges`] command.
#[derive(Debug, Clone, Copy, PartialEq, Eq, PartialOrd, Ord, Hash)]
#[allow(missing_docs)]
pub struct LeSetDataRelatedAddrChangesParams {
    pub adv_handle: AdvHandle,
    pub change_reasons: LeDataRelatedAddrChangeReasons,
}

/// The value of a [`LeSetDataRelatedAddrChangesParams`], with byte slices taken as sequences.
#[allow(missing_docs)]
pub struct LeSetDataRelatedAddrChangesParamsView {
    pub adv_handle: u8,
    pub change_reasons: u8,
}

impl View for LeSetDataRelatedAddrChangesParams {
    type V = LeSetDataRelatedAddrChangesParamsView;

    open spec fn view(&self) -> LeSetDataRelatedAddrChangesParamsView {
        LeSetDataRelatedAddrChangesParamsView { adv_handle: self.adv_handle@, change_reasons: self.change_reasons@ }
    }
}

impl WriteHci for LeSetDataRelatedAddrChangesParams {
    open spec fn spec_hci_bytes(&self) -> Seq<u8> {
        self.adv_handle.spec_hci_bytes() + self.change_reasons.spec_hci_bytes()
    }

    fn size(&self) -> (r: usize) {
        let mut n = self.adv_handle.size();
        proof {
            assert(self.adv_handle.spec_hci_bytes() + self.change_reasons.spec_hci_bytes() =~= (self.adv_handle.spec_hci_bytes() + self.change_reasons.spec_hci_bytes()));
        }
        n = n + self.change_reasons.size();
        n
    }

    fn write_hci(&self, out: &mut Vec<u8>) {
        self.adv_handle.write_hci(out);
        self.change_reasons.write_hci(out);
        proof {
            assert(out@ =~= old(out)@ + self.spec_hci_bytes());
        }
    }
}

impl LeSetDataRelatedAddrChangesParams {
    /// The bytes of a `LeSetDataRelatedAddrChangesParams` are the bytes of its fields, one after the
    /// other, in the order in which the fields are declared.
    pub proof fn lemma_fields_in_order(&self)
        ensures
            self.spec_hci_bytes() == self.adv_handle.spec_hci_bytes() + self.change_reasons.spec_hci_bytes(),
    {
    }
}


/// The LeSetDataRelatedAddrChanges command (group LE, command 0x007c).
#[derive(Debug, Clone, Copy, PartialEq, Eq, PartialOrd, Ord, Hash)]
pub struct LeSetDataRelatedAddrChanges(LeSetDataRelatedAddrChangesParams);

impl LeSetDataRelatedAddrChanges {
    /// Create a new instance of the command.
    pub fn new(adv_handle: AdvHandle, change_reasons: LeDataRelatedAddrChangeReasons) -> (result: Self)
        ensures
            result.spec_params() == (LeSetDataRelatedAddrChangesParams { adv_handle: adv_handle, change_reasons: change_reasons }),
    {
        LeSetDataRelatedAddrChanges(LeSetDataRelatedAddrChangesParams { adv_handle: adv_handle, change_reasons: change_reasons })
    }

    /// This command's opcode is group LE, command 0x007c: 0x207c.
    pub proof fn lemma_opcode()
        ensures
            Self::spec_opcode() == 0x207c,
    {
        lemma_opcode_value(LE, 0x007c);
    }
}

impl Cmd for LeSetDataRelatedAddrChanges {
    type Params = LeSetDataRelatedAddrChangesParams;

    open spec fn spec_opcode() -> u16 {
        spec_opcode_raw(LE, 0x007c)
    }

    closed spec fn spec_params(&self) -> LeSetDataRelatedAddrChangesParams {
        self.0
    }

    fn opcode() -> (r: Opcode) {
        Opcode::new(OpcodeGroup::new(LE), 0x007c)
    }

    fn params(&self) -> (r: &LeSetDataRelatedAddrChangesParams) {
        &self.0
    }

    proof fn lemma_packet(&self) {
    }
}

impl WriteHci for LeSetDataRelatedAddrChanges {
    closed spec fn spec_hci_bytes(&self) -> Seq<u8> {
        spec_cmd_packet(spec_opcode_raw(LE, 0x007c), self.0.spec_hci_bytes())
    }

    fn size(&self) -> (r: usize) {
        self.0.size() + 3
    }

    fn write_hci(&self, out: &mut Vec<u8>) {
        write_cmd_packet(Opcode::new(OpcodeGroup::new(LE), 0x007c), &self.0, out);
    }
}

impl SyncCmd for LeSetDataRelatedAddrChanges {
    type Return = ();
    type Handle = ();

    open spec fn spec_handle_ok(data: Seq<u8>, h: ()) -> bool {
        true
    }

    open spec fn spec_handle_err(data: Seq<u8>, e: FromHciBytesError) -> bool {
        false
    }

    open spec fn spec_return_ok(data: Seq<u8>, v: ()) -> bool {
        spec_decodes_complete::<()>(data, v)
    }

    open spec fn spec_return_err(data: Seq<u8>, e: FromHciBytesError) -> bool {
        spec_decode_complete_err::<()>(data, e)
    }

    fn param_handle(&self) -> (r: ())
        ensures
            r == (),
    {
    }

    fn return_handle(data: &[u8]) -> (r: Result<(), FromHciBytesError>) {
        Ok(())
    }

    fn return_from_hci_bytes(data: &[u8]) -> (r: Result<(), FromHciBytesError>) {
        <() as FromHciBytes>::from_hci_bytes_complete(data)
    }
}

/// Parameters for the [`LeSetPeriodicAdvResponseData`] command.
#[derive(Debug, Clone, Copy, PartialEq, Eq, PartialOrd, Ord, Hash, Default)]
#[allow(missing_docs)]
pub struct LeSetPeriodicAdvResponseDataParams<'a> {
    pub adv_handle: SyncHandle,
    pub request_event: u16,
    pub request_subevent: u8,
    pub response_subevent: u8,
    pub response_slot: u8,
    pub response_data: &'a [u8],
}

/// The value of a [`LeSetPeriodicAdvResponseDataParams`], with byte slices taken as sequences.
#[allow(missing_docs)]
pub struct LeSetPeriodicAdvResponseDataParamsView {
    pub adv_handle: u16,
    pub request_event: u16,
    pub request_subevent: u8,
    pub response_subevent: u8,
    pub response_slot: u8,
    pub response_data: Seq<u8>,
}

impl<'a> View for LeSetPeriodicAdvResponseDataParams<'a> {
    type V = LeSetPeriodicAdvResponseDataParamsView;

    open spec fn view(&self) -> LeSetPeriodicAdvResponseDataParamsView {
        LeSetPeriodicAdvResponseDataParamsView { adv_handle: self.adv_handle@, request_event: self.request_event@, request_subevent: self.request_subevent@, response_subevent: self.response_subevent@, response_slot: self.response_slot@, response_data: self.response_data@ }
    }
}

impl<'a> WriteHci for LeSetPeriodicAdvResponseDataParams<'a> {
    open spec fn spec_hci_bytes(&self) -> Seq<u8> {
        self.adv_handle.spec_hci_bytes() + self.request_event.spec_hci_bytes() + self.request_subevent.spec_hci_bytes() + self.response_subevent.spec_hci_bytes() + self.response_slot.spec_hci_bytes() + self.response_data.spec_hci_bytes()
    }

    fn size(&self) -> (r: usize) {
        let mut n = self.adv_handle.size();
        proof {
            assert(self.adv_handle.spec_hci_bytes() + self.request_event.spec_hci_bytes() =~= (self.adv_handle.spec_hci_bytes() + self.request_event.spec_hci_bytes()));
        }
        n = n + self.request_event.size();
        proof {
            assert(self.adv_handle.spec_hci_bytes() + self.request_event.spec_hci_bytes() + self.request_subevent.spec_hci_bytes() =~= (self.adv_handle.spec_hci_bytes() + self.request_event.spec_hci_bytes() + self.request_subevent.spec_hci_bytes()));
        }
        n = n + self.request_subevent.size();
        proof {
            assert(self.adv_handle.spec_hci_bytes() + self.request_event.spec_hci_bytes() + self.request_subevent.spec_hci_bytes() + self.response_subevent.spec_hci_bytes() =~= (self.adv_handle.spec_hci_bytes() + self.request_event.spec_hci_bytes() + self.request_subevent.spec_hci_bytes() + self.response_subevent.spec_hci_bytes()));
        }
        n = n + self.response_subevent.size();
        proof {
            assert(self.adv_handle.spec_hci_bytes() + self.request_event.spec_hci_bytes() + self.request_subevent.spec_hci_bytes() + self.response_subevent.spec_hci_bytes() + self.response_slot.spec_hci_bytes() =~= (self.adv_handle.spec_hci_bytes() + self.request_event.spec_hci_bytes() + self.request_subevent.spec_hci_bytes() + self.response_subevent.spec_hci_bytes() + self.response_slot.spec_hci_bytes()));
        }
        n = n + self.response_slot.size();
        proof {
            assert(self.adv_handle.spec_hci_bytes() + self.request_event.spec_hci_bytes() + self.request_subevent.spec_hci_bytes() + self.response_subevent.spec_hci_bytes() + self.response_slot.spec_hci_bytes() + self.response_data.spec_hci_bytes() =~= (self.adv_handle.spec_hci_bytes() + self.request_event.spec_hci_bytes() + self.request_subevent.spec_hci_bytes() + self.response_subevent.spec_hci_bytes() + self.response_slot.spec_hci_bytes() + self.response_data.spec_hci_bytes()));
        }
        n = n + self.response_data.size();
        n
    }

    fn write_hci(&self, out: &mut Vec<u8>) {
        self.adv_handle.write_hci(out);
        self.request_event.write_hci(out);
        self.request_subevent.write_hci(out);
        self.response_subevent.write_hci(out);
        self.response_slot.write_hci(out);
        self.response_data.write_hci(out);
        proof {
            assert(out@ =~= old(out)@ + self.spec_hci_bytes());
        }
    }
}

impl<'a> LeSetPeriodicAdvResponseDataParams<'a> {
    /// The bytes of a `LeSetPeriodicAdvResponseDataParams` are the bytes of its fields, one after the
    /// other, in the order in which the fields are declared.
    pub proof fn lemma_fields_in_order(&self)
        ensures
            self.spec_hci_bytes() == self.adv_handle.spec_hci_bytes() + self.request_event.spec_hci_bytes() + self.request_subevent.spec_hci_bytes() + self.response_subevent.spec_hci_bytes() + self.response_slot.spec_hci_bytes() + self.response_data.spec_hci_bytes(),
    {
    }
}


/// The LeSetPeriodicAdvResponseData command (group LE, command 0x0083).
#[derive(Debug, Clone, Copy, PartialEq, Eq, PartialOrd, Ord, Hash)]
pub struct LeSetPeriodicAdvResponseData<'a>(LeSetPeriodicAdvResponseDataParams<'a>);

impl<'a> LeSetPeriodicAdvResponseData<'a> {
    /// Create a new instance of the command.
    pub fn new(adv_handle: SyncHandle, request_event: u16, request_subevent: u8, response_subevent: u8, response_slot: u8, response_data: &'a [u8]) -> (result: Self)
        ensures
            result.spec_params() == (LeSetPeriodicAdvResponseDataParams { adv_handle: adv_handle, request_event: request_event, request_subevent: request_subevent, response_subevent: response_subevent, response_slot: response_slot, response_data: response_data }),
    {
        LeSetPeriodicAdvResponseData(LeSetPeriodicAdvResponseDataParams { adv_handle: adv_handle, request_event: request_event, request_subevent: request_subevent, response_subevent: response_subevent, response_slot: response_slot, response_data: response_data })
    }

    /// This command's opcode is group LE, command 0x0083: 0x2083.
    pub proof fn lemma_opcode()
        ensures
            Self::spec_opcode() == 0x2083,
    {
        lemma_opcode_value(LE, 0x0083);
    }
}

impl<'a> Cmd for LeSetPeriodicAdvResponseData<'a> {
    type Params = LeSetPeriodicAdvResponseDataParams<'a>;

    open spec fn spec_opcode() -> u16 {
        spec_opcode_raw(LE, 0x0083)
    }

    closed spec fn spec_params(&self) -> LeSetPeriodicAdvResponseDataParams<'a> {
        self.0
    }

    fn opcode() -> (r: Opcode) {
        Opcode::new(OpcodeGroup::new(LE), 0x0083)
    }

    fn params(&self) -> (r: &LeSetPeriodicAdvResponseDataParams<'a>) {
        &self.0
    }

    proof fn lemma_packet(&self) {
    }
}

impl<'a> WriteHci for LeSetPeriodicAdvResponseData<'a> {
    closed spec fn spec_hci_bytes(&self) -> Seq<u8> {
        spec_cmd_packet(spec_opcode_raw(LE, 0x0083), self.0.spec_hci_bytes())
    }

    fn size(&self) -> (r: usize) {
        self.0.size() + 3
    }

    fn write_hci(&self, out: &mut Vec<u8>) {
        write_cmd_packet(Opcode::new(OpcodeGroup::new(LE), 0x0083), &self.0, out);
    }
}

impl<'a> SyncCmd for LeSetPeriodicAdvResponseData<'a> {
    type Return = SyncHandle;
    type Handle = ();

    open spec fn spec_handle_ok(data: Seq<u8>, h: ()) -> bool {
        true
    }

    open spec fn spec_handle_err(data: Seq<u8>, e: FromHciBytesError) -> bool {
        false
    }

    open spec fn spec_return_ok(data: Seq<u8>, v: SyncHandle) -> bool {
        spec_decodes_complete::<SyncHandle>(data, v)
    }

    open spec fn spec_return_err(data: Seq<u8>, e: FromHciBytesError) -> bool {
        spec_decode_complete_err::<SyncHandle>(data, e)
    }

    fn param_handle(&self) -> (r: ())
        ensures
            r == (),
    {
    }

    fn return_handle(data: &[u8]) -> (r: Result<(), FromHciBytesError>) {
        Ok(())
    }

    fn return_from_hci_bytes(data: &[u8]) -> (r: Result<SyncHandle, FromHciBytesError>) {
        <SyncHandle as FromHciBytes>::from_hci_bytes_complete(data)
    }
}

/// Parameters for the [`LeSetPeriodicSyncSubevent`] command.
#[derive(Debug, Clone, Copy, PartialEq, Eq, PartialOrd, Ord, Hash, Default)]
#[allow(missing_docs)]
pub struct LeSetPeriodicSyncSubeventParams<'a> {
    pub adv_handle: SyncHandle,
    pub periodic_adv_props: PeriodicAdvProps,
    pub subevents: &'a [u8],
}

/// The value of a [`LeSetPeriodicSyncSubeventParams`], with byte slices taken as sequences.
#[allow(missing_docs)]
pub struct LeSetPeriodicSyncSubeventParamsView {
    pub adv_handle: u16,
    pub periodic_adv_props: Seq<u8>,
    pub subevents: Seq<u8>,
}

impl<'a> View for LeSetPeriodicSyncSubeventParams<'a> {
    type V = LeSetPeriodicSyncSubeventParamsView;

    open spec fn view(&self) -> LeSetPeriodicSyncSubeventParamsView {
        LeSetPeriodicSyncSubeventParamsView { adv_handle: self.adv_handle@, periodic_adv_props: self.periodic_adv_props@, subevents: self.subevents@ }
    }
}

impl<'a> WriteHci for LeSetPeriodicSyncSubeventParams<'a> {
    open spec fn spec_hci_bytes(&self) -> Seq<u8> {
        self.adv_handle.spec_hci_bytes() + self.periodic_adv_props.spec_hci_bytes() + self.subevents.spec_hci_bytes()
    }

    fn size(&self) -> (r: usize) {
        let mut n = self.adv_handle.size();
        proof {
            assert(self.adv_handle.spec_hci_bytes() + self.periodic_adv_props.spec_hci_bytes() =~= (self.adv_handle.spec_hci_bytes() + self.periodic_adv_props.spec_hci_bytes()));
        }
        n = n + self.periodic_adv_props.size();
        proof {
            assert(self.adv_handle.spec_hci_bytes() + self.periodic_adv_props.spec_hci_bytes() + self.subevents.spec_hci_bytes() =~= (self.adv_handle.spec_hci_bytes() + self.periodic_adv_props.spec_hci_bytes() + self.subevents.spec_hci_bytes()));
        }
        n = n + self.subevents.size();
        n
    }

    fn write_hci(&self, out: &mut Vec<u8>) {
        self.adv_handle.write_hci(out);
        self.periodic_adv_props.write_hci(out);
        self.subevents.write_hci(out);
        proof {
            assert(out@ =~= old(out)@ + self.spec_hci_bytes());
        }
    }
}

impl<'a> LeSetPeriodicSyncSubeventParams<'a> {
    /// The bytes of a `LeSetPeriodicSyncSubeventParams` are the bytes of its fields, one after the
    /// other, in the order in which the fields are declared.
    pub proof fn lemma_fields_in_order(&self)
        ensures
            self.spec_hci_bytes() == self.adv_handle.spec_hci_bytes() + self.periodic_adv_props.spec_hci_bytes() + self.subevents.spec_hci_bytes(),
    {
    }
}


/// The LeSetPeriodicSyncSubevent command (group LE, command 0x0084).
#[derive(Debug, Clone, Copy, PartialEq, Eq, PartialOrd, Ord, Hash)]
pub struct LeSetPeriodicSyncSubevent<'a>(LeSetPeriodicSyncSubeventParams<'a>);

impl<'a> LeSetPeriodicSyncSubevent<'a> {
    /// Create a new instance of the command.
    pub fn new(adv_handle: SyncHandle, periodic_adv_props: PeriodicAdvProps, subevents: &'a [u8]) -> (result: Self)
        ensures
            result.spec_params() == (LeSetPeriodicSyncSubeventParams { adv_handle: adv_handle, periodic_adv_props: periodic_adv_props, subevents: subevents }),
    {
        LeSetPeriodicSyncSubevent(LeSetPeriodicSyncSubeventParams { adv_handle: adv_handle, periodic_adv_props: periodic_adv_props, subevents: subevents })
    }

    /// This command's opcode is group LE, command 0x0084: 0x2084.
    pub proof fn lemma_opcode()
        ensures
            Self::spec_opcode() == 0x2084,
    {
        lemma_opcode_value(LE, 0x0084);
    }
}

impl<'a> Cmd for LeSetPeriodicSyncSubevent<'a> {
    type Params = LeSetPeriodicSyncSubeventParams<'a>;

    open spec fn spec_opcode() -> u16 {
        spec_opcode_raw(LE, 0x0084)
    }

    closed spec fn spec_params(&self) -> LeSetPeriodicSyncSubeventParams<'a> {
        self.0
    }

    fn opcode() -> (r: Opcode) {
        Opcode::new(OpcodeGroup::new(LE), 0x0084)
    }

    fn params(&self) -> (r: &LeSetPeriodicSyncSubeventParams<'a>) {
        &self.0
    }

    proof fn lemma_packet(&self) {
    }
}

impl<'a> WriteHci for LeSetPeriodicSyncSubevent<'a> {
    closed spec fn spec_hci_bytes(&self) -> Seq<u8> {
        spec_cmd_packet(spec_opcode_raw(LE, 0x0084), self.0.spec_hci_bytes())
    }

    fn size(&self) -> (r: usize) {
        self.0.size() + 3
    }

    fn write_hci(&self, out: &mut Vec<u8>) {
        write_cmd_packet(Opcode::new(OpcodeGroup::new(LE), 0x0084), &self.0, out);
    }
}

impl<'a> SyncCmd for LeSetPeriodicSyncSubevent<'a> {
    type Return = SyncHandle;
    type Handle = ();

    open spec fn spec_handle_ok(data: Seq<u8>, h: ()) -> bool {
        true
    }

    open spec fn spec_handle_err(data: Seq<u8>, e: FromHciBytesError) -> bool {
        false
    }

    open spec fn spec_return_ok(data: Seq<u8>, v: SyncHandle) -> bool {
        spec_decodes_complete::<SyncHandle>(data, v)
    }

    open spec fn spec_return_err(data: Seq<u8>, e: FromHciBytesError) -> bool {
        spec_decode_complete_err::<SyncHandle>(data, e)
    }

    fn param_handle(&self) -> (r: ())
        ensures
            r == (),
    {
    }

    fn return_handle(data: &[u8]) -> (r: Result<(), FromHciBytesError>) {
        Ok(())
    }

    fn return_from_hci_bytes(data: &[u8]) -> (r: Result<SyncHandle, FromHciBytesError>) {
        <SyncHandle as FromHciBytes>::from_hci_bytes_complete(data)
    }
}

/// Parameters for the [`LeSetHostFeatureV2`] command.
#[derive(Debug, Clone, Copy, PartialEq, Eq, PartialOrd, Ord, Hash)]
#[allow(missing_docs)]
pub struct LeSetHostFeatureV2Params {
    pub bit_number: u16,
    pub bit_value: u8,
}

/// The value of a [`LeSetHostFeatureV2Params`], with byte slices taken as sequences.
#[allow(missing_docs)]
pub struct LeSetHostFeatureV2ParamsView {
    pub bit_number: u16,
    pub bit_value: u8,
}

impl View for LeSetHostFeatureV2Params {
    type V = LeSetHostFeatureV2ParamsView;

    open spec fn view(&self) -> LeSetHostFeatureV2ParamsView {
        LeSetHostFeatureV2ParamsView { bit_number: self.bit_number@, bit_value: self.bit_value@ }
    }
}

impl WriteHci for LeSetHostFeatureV2Params {
    open spec fn spec_hci_bytes(&self) -> Seq<u8> {
        self.bit_number.spec_hci_bytes() + self.bit_value.spec_hci_bytes()
    }

    fn size(&self) -> (r: usize) {
        let mut n = self.bit_number.size();
        proof {
            assert(self.bit_number.spec_hci_bytes() + self.bit_value.spec_hci_bytes() =~= (self.bit_number.spec_hci_bytes() + self.bit_value.spec_hci_bytes()));
        }
        n = n + self.bit_value.size();
        n
    }

    fn write_hci(&self, out: &mut Vec<u8>) {
        self.bit_number.write_hci(out);
        self.bit_value.write_hci(out);
        proof {
            assert(out@ =~= old(out)@ + self.spec_hci_bytes());
        }
    }
}

impl LeSetHostFeatureV2Params {
    /// The bytes of a `LeSetHostFeatureV2Params` are the bytes of its fields, one after the
    /// other, in the order in which the fields are declared.
    pub proof fn lemma_fields_in_order(&self)
        ensures
            self.spec_hci_bytes() == self.bit_number.spec_hci_bytes() + self.bit_value.spec_hci_bytes(),
    {
    }
}


/// The LeSetHostFeatureV2 command (group LE, command 0x0097).
#[derive(Debug, Clone, Copy, PartialEq, Eq, PartialOrd, Ord, Hash)]
pub struct LeSetHostFeatureV2(LeSetHostFeatureV2Params);

impl LeSetHostFeatureV2 {
    /// Create a new instance of the command.
    pub fn new(bit_number: u16, bit_value: u8) -> (result: Self)
        ensures
            result.spec_params() == (LeSetHostFeatureV2Params { bit_number: bit_number, bit_value: bit_value }),
    {
        LeSetHostFeatureV2(LeSetHostFeatureV2Params { bit_number: bit_number, bit_value: bit_value })
    }

    /// This command's opcode is group LE, command 0x0097: 0x2097.
    pub proof fn lemma_opcode()
        ensures
            Self::spec_opcode() == 0x2097,
    {
        lemma_opcode_value(LE, 0x0097);
    }
}

impl Cmd for LeSetHostFeatureV2 {
    type Params = LeSetHostFeatureV2Params;

    open spec fn spec_opcode() -> u16 {
        spec_opcode_raw(LE, 0x0097)
    }

    closed spec fn spec_params(&self) -> LeSetHostFeatureV2Params {
        self.0
    }

    fn opcode() -> (r: Opcode) {
        Opcode::new(OpcodeGroup::new(LE), 0x0097)
    }

    fn params(&self) -> (r: &LeSetHostFeatureV2Params) {
        &self.0
    }

    proof fn lemma_packet(&self) {
    }
}

impl WriteHci for LeSetHostFeatureV2 {
    closed spec fn spec_hci_bytes(&self) -> Seq<u8> {
        spec_cmd_packet(spec_opcode_raw(LE, 0x0097), self.0.spec_hci_bytes())
    }

    fn size(&self) -> (r: usize) {
        self.0.size() + 3
    }

    fn write_hci(&self, out: &mut Vec<u8>) {
        write_cmd_packet(Opcode::new(OpcodeGroup::new(LE), 0x0097), &self.0, out);
    }
}

impl SyncCmd for LeSetHostFeatureV2 {
    type Return = ();
    type Handle = ();

    open spec fn spec_handle_ok(data: Seq<u8>, h: ()) -> bool {
        true
    }

    open spec fn spec_handle_err(data: Seq<u8>, e: FromHciBytesError) -> bool {
        false
    }

    open spec fn spec_return_ok(data: Seq<u8>, v: ()) -> bool {
        spec_decodes_complete::<()>(data, v)
    }

    open spec fn spec_return_err(data: Seq<u8>, e: FromHciBytesError) -> bool {
        spec_decode_complete_err::<()>(data, e)
    }

    fn param_handle(&self) -> (r: ())
        ensures
            r == (),
    {
    }

    fn return_handle(data: &[u8]) -> (r: Result<(), FromHciBytesError>) {
        Ok(())
    }

    fn return_from_hci_bytes(data: &[u8]) -> (r: Result<(), FromHciBytesError>) {
        <() as FromHciBytes>::from_hci_bytes_complete(data)
    }
}

/// LeSetExtScanParamsParams parameter
#[derive(Debug, Clone, Copy, PartialEq, Eq, PartialOrd, Ord, Hash)]
#[allow(missing_docs)]
pub struct LeSetExtScanParamsParams {
    pub own_addr_kind: AddrKind,
    pub scanning_filter_policy: ScanningFilterPolicy,
    pub scanning_phys: PhyParams<ScanningPhy>,
}

/// The value of a [`LeSetExtScanParamsParams`], with byte slices taken as sequences.
#[allow(missing_docs)]
pub struct LeSetExtScanParamsParamsView {
    pub own_addr_kind: u8,
    pub scanning_filter_policy: ScanningFilterPolicy,
    pub scanning_phys: PhyParams<ScanningPhy>,
}

impl View for LeSetExtScanParamsParams {
    type V = LeSetExtScanParamsParamsView;

    open spec fn view(&self) -> LeSetExtScanParamsParamsView {
        LeSetExtScanParamsParamsView { own_addr_kind: self.own_addr_kind@, scanning_filter_policy: self.scanning_filter_policy@, scanning_phys: self.scanning_phys@ }
    }
}

impl WriteHci for LeSetExtScanParamsParams {
    open spec fn spec_hci_bytes(&self) -> Seq<u8> {
        self.own_addr_kind.spec_hci_bytes() + self.scanning_filter_policy.spec_hci_bytes() + self.scanning_phys.spec_hci_bytes()
    }

    fn size(&self) -> (r: usize) {
        let mut n = self.own_addr_kind.size();
        proof {
            assert(self.own_addr_kind.spec_hci_bytes() + self.scanning_filter_policy.spec_hci_bytes() =~= (self.own_addr_kind.spec_hci_bytes() + self.scanning_filter_policy.spec_hci_bytes()));
        }
        n = n + self.scanning_filter_policy.size();
        proof {
            assert(self.own_addr_kind.spec_hci_bytes() + self.scanning_filter_policy.spec_hci_bytes() + self.scanning_phys.spec_hci_bytes() =~= (self.own_addr_kind.spec_hci_bytes() + self.scanning_filter_policy.spec_hci_bytes() + self.scanning_phys.spec_hci_bytes()));
        }
        n = n + self.scanning_phys.size();
        n
    }

    fn write_hci(&self, out: &mut Vec<u8>) {
        self.own_addr_kind.write_hci(out);
        self.scanning_filter_policy.write_hci(out);
        self.scanning_phys.write_hci(out);
        proof {
            assert(out@ =~= old(out)@ + self.spec_hci_bytes());
        }
    }
}

impl LeSetExtScanParamsParams {
    /// The bytes of a `LeSetExtScanParamsParams` are the bytes of its fields, one after the
    /// other, in the order in which the fields are declared.
    pub proof fn lemma_fields_in_order(&self)
        ensures
            self.spec_hci_bytes() == self.own_addr_kind.spec_hci_bytes() + self.scanning_filter_policy.spec_hci_bytes() + self.scanning_phys.spec_hci_bytes(),
    {
    }
}


/// LeExtCreateConnParams parameter
#[derive(Debug, Clone, Copy, PartialEq, Eq, PartialOrd, Ord, Hash)]
#[allow(missing_docs)]
pub struct LeExtCreateConnParams {
    pub initiator_filter_policy: bool,
    pub own_addr_kind: AddrKind,
    pub peer_addr_kind: AddrKind,
    pub peer_addr: BdAddr,
    pub initiating_phys: PhyParams<InitiatingPhy>,
}

/// The value of a [`LeExtCreateConnParams`], with byte slices taken as sequences.
#[allow(missing_docs)]
pub struct LeExtCreateConnParamsView {
    pub initiator_filter_policy: bool,
    pub own_addr_kind: u8,
    pub peer_addr_kind: u8,
    pub peer_addr: Seq<u8>,
    pub initiating_phys: PhyParams<InitiatingPhy>,
}

impl View for LeExtCreateConnParams {
    type V = LeExtCreateConnParamsView;

    open spec fn view(&self) -> LeExtCreateConnParamsView {
        LeExtCreateConnParamsView { initiator_filter_policy: self.initiator_filter_policy@, own_addr_kind: self.own_addr_kind@, peer_addr_kind: self.peer_addr_kind@, peer_addr: self.peer_addr@, initiating_phys: self.initiating_phys@ }
    }
}

impl WriteHci for LeExtCreateConnParams {
    open spec fn spec_hci_bytes(&self) -> Seq<u8> {
        self.initiator_filter_policy.spec_hci_bytes() + self.own_addr_kind.spec_hci_bytes() + self.peer_addr_kind.spec_hci_bytes() + self.peer_addr.spec_hci_bytes() + self.initiating_phys.spec_hci_bytes()
    }

    fn size(&self) -> (r: usize) {
        let mut n = self.initiator_filter_policy.size();
        proof {
            assert(self.initiator_filter_policy.spec_hci_bytes() + self.own_addr_kind.spec_hci_bytes() =~= (self.initiator_filter_policy.spec_hci_bytes() + self.own_addr_kind.spec_hci_bytes()));
        }
        n = n + self.own_addr_kind.size();
        proof {
            assert(self.initiator_filter_policy.spec_hci_bytes() + self.own_addr_kind.spec_hci_bytes() + self.peer_addr_kind.spec_hci_bytes() =~= (self.initiator_filter_policy.spec_hci_bytes() + self.own_addr_kind.spec_hci_bytes() + self.peer_addr_kind.spec_hci_bytes()));
        }
        n = n + self.peer_addr_kind.size();
        proof {
            assert(self.initiator_filter_policy.spec_hci_bytes() + self.own_addr_kind.spec_hci_bytes() + self.peer_addr_kind.spec_hci_bytes() + self.peer_addr.spec_hci_bytes() =~= (self.initiator_filter_policy.spec_hci_bytes() + self.own_addr_kind.spec_hci_bytes() + self.peer_addr_kind.spec_hci_bytes() + self.peer_addr.spec_hci_bytes()));
        }
        n = n + self.peer_addr.size();
        proof {
            assert(self.initiator_filter_policy.spec_hci_bytes() + self.own_addr_kind.spec_hci_bytes() + self.peer_addr_kind.spec_hci_bytes() + self.peer_addr.spec_hci_bytes() + self.initiating_phys.spec_hci_bytes() =~= (self.initiator_filter_policy.spec_hci_bytes() + self.own_addr_kind.spec_hci_bytes() + self.peer_addr_kind.spec_hci_bytes() + self.peer_addr.spec_hci_bytes() + self.initiating_phys.spec_hci_bytes()));
        }
        n = n + self.initiating_phys.size();
        n
    }

    fn write_hci(&self, out: &mut Vec<u8>) {
        self.initiator_filter_policy.write_hci(out);
        self.own_addr_kind.write_hci(out);
        self.peer_addr_kind.write_hci(out);
        self.peer_addr.write_hci(out);
        self.initiating_phys.write_hci(out);
        proof {
            assert(out@ =~= old(out)@ + self.spec_hci_bytes());
        }
    }
}

impl LeExtCreateConnParams {
    /// The bytes of a `LeExtCreateConnParams` are the bytes of its fields, one after the
    /// other, in the order in which the fields are declared.
    pub proof fn lemma_fields_in_order(&self)
        ensures
            self.spec_hci_bytes() == self.initiator_filter_policy.spec_hci_bytes() + self.own_addr_kind.spec_hci_bytes() + self.peer_addr_kind.spec_hci_bytes() + self.peer_addr.spec_hci_bytes() + self.initiating_phys.spec_hci_bytes(),
    {
    }
}


/// LeExtCreateConnV2Params parameter
#[derive(Debug, Clone, Copy, PartialEq, Eq, PartialOrd, Ord, Hash)]
#[allow(missing_docs)]
pub struct LeExtCreateConnV2Params {
    pub adv_handle: AdvHandle,
    pub subevent: u8,
    pub initiator_filter_policy: bool,
    pub own_addr_kind: AddrKind,
    pub peer_addr_kind: AddrKind,
    pub peer_addr: BdAddr,
    pub initiating_phys: PhyParams<InitiatingPhy>,
}

/// The value of a [`LeExtCreateConnV2Params`], with byte slices taken as sequences.
#[allow(missing_docs)]
pub struct LeExtCreateConnV2ParamsView {
    pub adv_handle: u8,
    pub subevent: u8,
    pub initiator_filter_policy: bool,
    pub own_addr_kind: u8,
    pub peer_addr_kind: u8,
    pub peer_addr: Seq<u8>,
    pub initiating_phys: PhyParams<InitiatingPhy>,
}

impl View for LeExtCreateConnV2Params {
    type V = LeExtCreateConnV2ParamsView;

    open spec fn view(&self) -> LeExtCreateConnV2ParamsView {
        LeExtCreateConnV2ParamsView { adv_handle: self.adv_handle@, subevent: self.subevent@, initiator_filter_policy: self.initiator_filter_policy@, own_addr_kind: self.own_addr_kind@, peer_addr_kind: self.peer_addr_kind@, peer_addr: self.peer_addr@, initiating_phys: self.initiating_phys@ }
    }
}

impl WriteHci for LeExtCreateConnV2Params {
    open spec fn spec_hci_bytes(&self) -> Seq<u8> {
        self.adv_handle.spec_hci_bytes() + self.subevent.spec_hci_bytes() + self.initiator_filter_policy.spec_hci_bytes() + self.own_addr_kind.spec_hci_bytes() + self.peer_addr_kind.spec_hci_bytes() + self.peer_addr.spec_hci_bytes() + self.initiating_phys.spec_hci_bytes()
    }

    fn size(&self) -> (r: usize) {
        let mut n = self.adv_handle.size();
        proof {
            assert(self.adv_handle.spec_hci_bytes() + self.subevent.spec_hci_bytes() =~= (self.adv_handle.spec_hci_bytes() + self.subevent.spec_hci_bytes()));
        }
        n = n + self.subevent.size();
        proof {
            assert(self.adv_handle.spec_hci_bytes() + self.subevent.spec_hci_bytes() + self.initiator_filter_policy.spec_hci_bytes() =~= (self.adv_handle.spec_hci_bytes() + self.subevent.spec_hci_bytes() + self.initiator_filter_policy.spec_hci_bytes()));
        }
        n = n + self.initiator_filter_policy.size();
        proof {
            assert(self.adv_handle.spec_hci_bytes() + self.subevent.spec_hci_bytes() + self.initiator_filter_policy.spec_hci_bytes() + self.own_addr_kind.spec_hci_bytes() =~= (self.adv_handle.spec_hci_bytes() + self.subevent.spec_hci_bytes() + self.initiator_filter_policy.spec_hci_bytes() + self.own_addr_kind.spec_hci_bytes()));
        }
        n = n + self.own_addr_kind.size();
        proof {
            assert(self.adv_handle.spec_hci_bytes() + self.subevent.spec_hci_bytes() + self.initiator_filter_policy.spec_hci_bytes() + self.own_addr_kind.spec_hci_bytes() + self.peer_addr_kind.spec_hci_bytes() =~= (self.adv_handle.spec_hci_bytes() + self.subevent.spec_hci_bytes() + self.initiator_filter_policy.spec_hci_bytes() + self.own_addr_kind.spec_hci_bytes() + self.peer_addr_kind.spec_hci_bytes()));
        }
        n = n + self.peer_addr_kind.size();
        proof {
            assert(self.adv_handle.spec_hci_bytes() + self.subevent.spec_hci_bytes() + self.initiator_filter_policy.spec_hci_bytes() + self.own_addr_kind.spec_hci_bytes() + self.peer_addr_kind.spec_hci_bytes() + self.peer_addr.spec_hci_bytes() =~= (self.adv_handle.spec_hci_bytes() + self.subevent.spec_hci_bytes() + self.initiator_filter_policy.spec_hci_bytes() + self.own_addr_kind.spec_hci_bytes() + self.peer_addr_kind.spec_hci_bytes() + self.peer_addr.spec_hci_bytes()));
        }
        n = n + self.peer_addr.size();
        proof {
            assert(self.adv_handle.spec_hci_bytes() + self.subevent.spec_hci_bytes() + self.initiator_filter_policy.spec_hci_bytes() + self.own_addr_kind.spec_hci_bytes() + self.peer_addr_kind.spec_hci_bytes() + self.peer_addr.spec_hci_bytes() + self.initiating_phys.spec_hci_bytes() =~= (self.adv_handle.spec_hci_bytes() + self.subevent.spec_hci_bytes() + self.initiator_filter_policy.spec_hci_bytes() + self.own_addr_kind.spec_hci_bytes() + self.peer_addr_kind.spec_hci_bytes() + self.peer_addr.spec_hci_bytes() + self.initiating_phys.spec_hci_bytes()));
        }
        n = n + self.initiating_phys.size();
        n
    }

    fn write_hci(&self, out: &mut Vec<u8>) {
        self.adv_handle.write_hci(out);
        self.subevent.write_hci(out);
        self.initiator_filter_policy.write_hci(out);
        self.own_addr_kind.write_hci(out);
        self.peer_addr_kind.write_hci(out);
        self.peer_addr.write_hci(out);
        self.initiating_phys.write_hci(out);
        proof {
            assert(out@ =~= old(out)@ + self.spec_hci_bytes());
        }
    }
}

impl LeExtCreateConnV2Params {
    /// The bytes of a `LeExtCreateConnV2Params` are the bytes of its fields, one after the
    /// other, in the order in which the fields are declared.
    pub proof fn lemma_fields_in_order(&self)
        ensures
            self.spec_hci_bytes() == self.adv_handle.spec_hci_bytes() + self.subevent.spec_hci_bytes() + self.initiator_filter_policy.spec_hci_bytes() + self.own_addr_kind.spec_hci_bytes() + self.peer_addr_kind.spec_hci_bytes() + self.peer_addr.spec_hci_bytes() + self.initiating_phys.spec_hci_bytes(),
    {
    }
}


/// LE Set Extended Scan Parameters command (group LE, command 0x0041).
#[derive(Debug, Clone, Copy, PartialEq, Eq, PartialOrd, Ord, Hash)]
pub struct LeSetExtScanParams(LeSetExtScanParamsParams);

impl LeSetExtScanParams {
    /// Create a new instance of scan parameters.
    pub fn new(
        own_addr_kind: AddrKind,
        scanning_filter_policy: ScanningFilterPolicy,
        scanning_phys: PhyParams<ScanningPhy>,
    ) -> (r: Self)
        ensures
            r.spec_params() == (LeSetExtScanParamsParams { own_addr_kind, scanning_filter_policy, scanning_phys }),
    {
        LeSetExtScanParams(LeSetExtScanParamsParams { own_addr_kind, scanning_filter_policy, scanning_phys })
    }
}

impl Cmd for LeSetExtScanParams {
    type Params = LeSetExtScanParamsParams;

    open spec fn spec_opcode() -> u16 {
        spec_opcode_raw(LE, 0x0041)
    }

    closed spec fn spec_params(&self) -> LeSetExtScanParamsParams {
        self.0
    }

    fn opcode() -> (r: Opcode) {
        Opcode::new(OpcodeGroup::new(LE), 0x0041)
    }

    fn params(&self) -> (r: &LeSetExtScanParamsParams) {
        &self.0
    }

    proof fn lemma_packet(&self) {
    }
}

impl WriteHci for LeSetExtScanParams {
    closed spec fn spec_hci_bytes(&self) -> Seq<u8> {
        spec_cmd_packet(spec_opcode_raw(LE, 0x0041), self.0.spec_hci_bytes())
    }

    fn size(&self) -> (r: usize) {
        self.0.size() + 3
    }

    fn write_hci(&self, out: &mut Vec<u8>) {
        write_cmd_packet(Opcode::new(OpcodeGroup::new(LE), 0x0041), &self.0, out);
    }
}

impl SyncCmd for LeSetExtScanParams {
    type Return = ();
    type Handle = ();

    open spec fn spec_handle_ok(data: Seq<u8>, h: ()) -> bool {
        true
    }

    open spec fn spec_handle_err(data: Seq<u8>, e: FromHciBytesError) -> bool {
        false
    }

    open spec fn spec_return_ok(data: Seq<u8>, v: ()) -> bool {
        spec_decodes_complete::<()>(data, v)
    }

    open spec fn spec_return_err(data: Seq<u8>, e: FromHciBytesError) -> bool {
        spec_decode_complete_err::<()>(data, e)
    }

    fn param_handle(&self) -> (r: ())
        ensures
            r == (),
    {
    }

    fn return_handle(data: &[u8]) -> (r: Result<(), FromHciBytesError>) {
        Ok(())
    }

    fn return_from_hci_bytes(data: &[u8]) -> (r: Result<(), FromHciBytesError>) {
        <() as FromHciBytes>::from_hci_bytes_complete(data)
    }
}

/// LE Extended Create Connection (v1) command (group LE, command 0x0043).
#[derive(Debug, Clone, Copy, PartialEq, Eq, PartialOrd, Ord, Hash)]
pub struct LeExtCreateConn(LeExtCreateConnParams);

impl LeExtCreateConn {
    /// Create a new instance of this command.
    pub fn new(
        initiator_filter_policy: bool,
        own_addr_kind: AddrKind,
        peer_addr_kind: AddrKind,
        peer_addr: BdAddr,
        initiating_phys: PhyParams<InitiatingPhy>,
    ) -> (r: Self)
        ensures
            r.spec_params() == (LeExtCreateConnParams {
                initiator_filter_policy,
                own_addr_kind,
                peer_addr_kind,
                peer_addr,
                initiating_phys,
            }),
    {
        LeExtCreateConn(
            LeExtCreateConnParams { initiator_filter_policy, own_addr_kind, peer_addr_kind, peer_addr, initiating_phys },
        )
    }
}

impl Cmd for LeExtCreateConn {
    type Params = LeExtCreateConnParams;

    open spec fn spec_opcode() -> u16 {
        spec_opcode_raw(LE, 0x0043)
    }

    closed spec fn spec_params(&self) -> LeExtCreateConnParams {
        self.0
    }

    fn opcode() -> (r: Opcode) {
        Opcode::new(OpcodeGroup::new(LE), 0x0043)
    }

    fn params(&self) -> (r: &LeExtCreateConnParams) {
        &self.0
    }

    proof fn lemma_packet(&self) {
    }
}

impl WriteHci for LeExtCreateConn {
    closed spec fn spec_hci_bytes(&self) -> Seq<u8> {
        spec_cmd_packet(spec_opcode_raw(LE, 0x0043), self.0.spec_hci_bytes())
    }

    fn size(&self) -> (r: usize) {
        self.0.size() + 3
    }

    fn write_hci(&self, out: &mut Vec<u8>) {
        write_cmd_packet(Opcode::new(OpcodeGroup::new(LE), 0x0043), &self.0, out);
    }
}

impl AsyncCmd for LeExtCreateConn {
}

/// LE Extended Create Connection (v2) command (group LE, command 0x0085).
#[derive(Debug, Clone, Copy, PartialEq, Eq, PartialOrd, Ord, Hash)]
pub struct LeExtCreateConnV2(LeExtCreateConnV2Params);

impl LeExtCreateConnV2 {
    /// Create a new instance.
    pub fn new(
        adv_handle: AdvHandle,
        subevent: u8,
        initiator_filter_policy: bool,
        own_addr_kind: AddrKind,
        peer_addr_kind: AddrKind,
        peer_addr: BdAddr,
        initiating_phys: PhyParams<InitiatingPhy>,
    ) -> (r: Self)
        ensures
            r.spec_params() == (LeExtCreateConnV2Params {
                adv_handle,
                subevent,
                initiator_filter_policy,
                own_addr_kind,
                peer_addr_kind,
                peer_addr,
                initiating_phys,
            }),
    {
        LeExtCreateConnV2(
            LeExtCreateConnV2Params {
                adv_handle,
                subevent,
                initiator_filter_policy,
                own_addr_kind,
                peer_addr_kind,
                peer_addr,
                initiating_phys,
            },
        )
    }
}

impl Cmd for LeExtCreateConnV2 {
    type Params = LeExtCreateConnV2Params;

    open spec fn spec_opcode() -> u16 {
        spec_opcode_raw(LE, 0x0085)
    }

    closed spec fn spec_params(&self) -> LeExtCreateConnV2Params {
        self.0
    }

    fn opcode() -> (r: Opcode) {
        Opcode::new(OpcodeGroup::new(LE), 0x0085)
    }

    fn params(&self) -> (r: &LeExtCreateConnV2Params) {
        &self.0
    }

    proof fn lemma_packet(&self) {
    }
}

impl WriteHci for LeExtCreateConnV2 {
    closed spec fn spec_hci_bytes(&self) -> Seq<u8> {
        spec_cmd_packet(spec_opcode_raw(LE, 0x0085), self.0.spec_hci_bytes())
    }

    fn size(&self) -> (r: usize) {
        self.0.size() + 3
    }

    fn write_hci(&self, out: &mut Vec<u8>) {
        write_cmd_packet(Opcode::new(OpcodeGroup::new(LE), 0x0085), &self.0, out);
    }
}

impl AsyncCmd for LeExtCreateConnV2 {
}

/// Parameters for LE Set Periodic Advertising Subevent Data command.
#[derive(Default, Debug, Clone, Copy, PartialEq, Eq, PartialOrd, Ord, Hash)]
pub struct LeSetPeriodicAdvSubeventDataParams<'a, 'b> {
    /// Which advertising handle to use.
    pub adv_handle: AdvHandle,
    /// List of sub events used.
    pub subevent: &'b [LePeriodicAdvSubeventData<'a>],
}

impl<'a, 'b> WriteHci for LeSetPeriodicAdvSubeventDataParams<'a, 'b> {
    open spec fn spec_hci_bytes(&self) -> Seq<u8> {
        self.adv_handle.spec_hci_bytes() + self.subevent.spec_hci_bytes()
    }

    fn size(&self) -> (r: usize) {
        1 + self.subevent.size()
    }

    fn write_hci(&self, out: &mut Vec<u8>) {
        self.adv_handle.write_hci(out);
        self.subevent.write_hci(out);
        proof {
            assert(out@ =~= old(out)@ + self.spec_hci_bytes());
        }
    }
}

/// LE Set Periodic Advertising Subevent Data command (group LE, command 0x0082).
#[derive(Debug, Clone, Copy, PartialEq, Eq, PartialOrd, Ord, Hash)]
pub struct LeSetPeriodicAdvSubeventData<'a>(LeSetPeriodicAdvSubeventDataParams<'a, 'a>);

impl<'a> LeSetPeriodicAdvSubeventData<'a> {
    /// Create a new instance.
    pub fn new(adv_handle: AdvHandle, subevent: &'a [LePeriodicAdvSubeventData<'a>]) -> (r: Self)
        ensures
            r.spec_params() == (LeSetPeriodicAdvSubeventDataParams { adv_handle, subevent }),
    {
        LeSetPeriodicAdvSubeventData(LeSetPeriodicAdvSubeventDataParams { adv_handle, subevent })
    }
}

impl<'a> Cmd for LeSetPeriodicAdvSubeventData<'a> {
    type Params = LeSetPeriodicAdvSubeventDataParams<'a, 'a>;

    open spec fn spec_opcode() -> u16 {
        spec_opcode_raw(LE, 0x0082)
    }

    closed spec fn spec_params(&self) -> LeSetPeriodicAdvSubeventDataParams<'a, 'a> {
        self.0
    }

    fn opcode() -> (r: Opcode) {
        Opcode::new(OpcodeGroup::new(LE), 0x0082)
    }

    fn params(&self) -> (r: &LeSetPeriodicAdvSubeventDataParams<'a, 'a>) {
        &self.0
    }

    proof fn lemma_packet(&self) {
    }
}

impl<'a> WriteHci for LeSetPeriodicAdvSubeventData<'a> {
    closed spec fn spec_hci_bytes(&self) -> Seq<u8> {
        spec_cmd_packet(spec_opcode_raw(LE, 0x0082), self.0.spec_hci_bytes())
    }

    fn size(&self) -> (r: usize) {
        self.0.size() + 3
    }

    fn write_hci(&self, out: &mut Vec<u8>) {
        write_cmd_packet(Opcode::new(OpcodeGroup::new(LE), 0x0082), &self.0, out);
    }
}

impl<'a> SyncCmd for LeSetPeriodicAdvSubeventData<'a> {
    type Return = AdvHandle;
    type Handle = ();

    open spec fn spec_handle_ok(data: Seq<u8>, h: ()) -> bool {
        true
    }

    open spec fn spec_handle_err(data: Seq<u8>, e: FromHciBytesError) -> bool {
        false
    }

    open spec fn spec_return_ok(data: Seq<u8>, v: AdvHandle) -> bool {
        spec_decodes_complete::<AdvHandle>(data, v)
    }

    open spec fn spec_return_err(data: Seq<u8>, e: FromHciBytesError) -> bool {
        spec_decode_complete_err::<AdvHandle>(data, e)
    }

    fn param_handle(&self) -> (r: ())
        ensures
            r == (),
    {
    }

    fn return_handle(data: &[u8]) -> (r: Result<(), FromHciBytesError>) {
        Ok(())
    }

    fn return_from_hci_bytes(data: &[u8]) -> (r: Result<AdvHandle, FromHciBytesError>) {
        <AdvHandle as FromHciBytes>::from_hci_bytes_complete(data)
    }
}

} // verus!
