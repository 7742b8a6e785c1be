//! Informational parameters.

use vstd::prelude::*;

use crate::{FixedSizeValue, FromHciBytes, FromHciBytesError, HciCodec, WriteHci, parsed, failed, lemma_skip_skip};
use crate::cmd::{
    AsyncCmd, Cmd, Opcode, OpcodeGroup, SyncCmd, spec_cmd_packet, spec_decode_complete_err, spec_decode_prefix_err,
    spec_decodes_complete, spec_decodes_prefix, spec_opcode_raw, write_cmd_packet, lemma_opcode_value,
};
use crate::cmd::{CONTROL_BASEBAND, INFO_PARAMS, LE, LINK_CONTROL, STATUS_PARAMS};
use crate::param::{
    AddrKind, AdvChannelMap, AdvEventProps, AdvFilterPolicy, AdvHandle, AdvKind, AdvPhyOptions,
    AdvSet, AllPhys, AllowRoleSwitch, AuthenticationRequirements, BdAddr, BigHandle, ChannelMap,
    ClockAccuracy, ClockOffset, CmdMask, ConnHandle, ConnHandleCompletedPackets, ConnIntervalGroup,
    ConnectionLinkType, ControllerToHostFlowControl, CoreSpecificationVersion, CteKind, CteMask,
    DataStatus, DisconnectReason, DoneStatus, Duration,
    EnhancedAcceptSynchronousConnectionRequestParams, EnhancedSetupSynchronousConnectionParams,
    Error, EventMask, EventMaskPage2, ExtDuration, ExtendedLmpFeatures, FilterDuplicates,
    FrameSpaceInitiator, FrequencyCompensation, InitiatingPhy, IoCapability, KeyFlag,
    LeAdvEventKind, LeAdvReport, LeAdvReports, LeAdvReportsIter, LeAdvertisingReportParam,
    LeConnRole, LeCsSubeventStepData, LeCsSubeventStepDataIter, LeCsSubeventStepEntry,
    LeDataRelatedAddrChangeReasons, LeEventMask, LeExtAdvDataStatus, LeExtAdvEventKind,
    LeExtAdvReport, LeExtAdvReports, LeExtAdvReportsIter, LeFeatureMask, LeFeatureMaskPage1,
    LePeriodicAdvCreateSyncOptions, LePeriodicAdvReceiveEnable, LePeriodicAdvSubeventData,
    LePeriodicAdvSyncTransferMode, LePeriodicAdvertisingResponseReport,
    LePeriodicAdvertisingResponseReports, LePeriodicAdvertisingResponseReportsIter, LeScanKind,
    LeTxPowerReportingReason, LinkKeyType, LinkType, LmpFeatureMask, LmpFeatureMaskPage1,
    LmpFeatureMaskPage2, OobDataPresent, Operation, PackedAbortReasons, PacketStatus, PacketType,
    PageScanRepetitionMode, PeriodicAdvProps, PhyKind, PhyMask, PhyOptions, PhyParams,
    PowerLevelKind, PrivacyMode, ProcedureAbortReason, RejectReason, RemainingBytes,
    RemoteConnectionParamsRejectReason, RetransmissionEffort, Role, ScanningFilterPolicy,
    ScanningPhy, SpacingTypes, Status, SubeventAbortReason, SwitchingSamplingRates, SyncHandle,
    SyncPacketType, TxStatus, VoiceSetting, ZoneEntered
};

verus! {

/// Return parameters for the [`ReadLocalVersionInformation`] command.
#[derive(Debug, Clone, Copy, PartialEq, Eq, PartialOrd, Ord, Hash)]
#[allow(missing_docs)]
pub struct ReadLocalVersionInformationReturn {
    pub hci_version: CoreSpecificationVersion,
    pub hci_subversion: u16,
    pub lmp_version: CoreSpecificationVersion,
    pub company_identifier: u16,
    pub lmp_subversion: u16,
}

/// The value of a [`ReadLocalVersionInformationReturn`], with byte slices taken as sequences.
#[allow(missing_docs)]
pub struct ReadLocalVersionInformationReturnView {
    pub hci_version: u8,
    pub hci_subversion: u16,
    pub lmp_version: u8,
    pub company_identifier: u16,
    pub lmp_subversion: u16,
}

impl View for ReadLocalVersionInformationReturn {
    type V = ReadLocalVersionInformationReturnView;

    open spec fn view(&self) -> ReadLocalVersionInformationReturnView {
        ReadLocalVersionInformationReturnView { hci_version: self.hci_version@, hci_subversion: self.hci_subversion@, lmp_version: self.lmp_version@, company_identifier: self.company_identifier@, lmp_subversion: self.lmp_subversion@ }
    }
}

impl<'de> FromHciBytes<'de> for ReadLocalVersionInformationReturn {
    open spec fn spec_from_hci_bytes(data: Seq<u8>) -> Result<(ReadLocalVersionInformationReturnView, nat), FromHciBytesError> {
        if data.len() < 8 {
            Err(FromHciBytesError::InvalidSize)
        } else {
            match <CoreSpecificationVersion as FromHciBytes<'de>>::spec_from_hci_bytes(data) {
                Err(e) => Err(e),
                Ok((v_hci_version, n_hci_version)) => {
                    match <u16 as FromHciBytes<'de>>::spec_from_hci_bytes(data.skip(n_hci_version as int)) {
                        Err(e) => Err(e),
                        Ok((v_hci_subversion, n_hci_subversion)) => {
                            match <CoreSpecificationVersion as FromHciBytes<'de>>::spec_from_hci_bytes(data.skip(n_hci_version as int).skip(n_hci_subversion as int)) {
                                Err(e) => Err(e),
                                Ok((v_lmp_version, n_lmp_version)) => {
                                    match <u16 as FromHciBytes<'de>>::spec_from_hci_bytes(data.skip(n_hci_version as int).skip(n_hci_subversion as int).skip(n_lmp_version as int)) {
                                        Err(e) => Err(e),
                                        Ok((v_company_identifier, n_company_identifier)) => {
                                            match <u16 as FromHciBytes<'de>>::spec_from_hci_bytes(data.skip(n_hci_version as int).skip(n_hci_subversion as int).skip(n_lmp_version as int).skip(n_company_identifier as int)) {
                                                Err(e) => Err(e),
                                                Ok((v_lmp_subversion, n_lmp_subversion)) => {
                                                    Ok((ReadLocalVersionInformationReturnView { hci_version: v_hci_version, hci_subversion: v_hci_subversion, lmp_version: v_lmp_version, company_identifier: v_company_identifier, lmp_subversion: v_lmp_subversion }, (n_hci_version + n_hci_subversion + n_lmp_version + n_company_identifier + n_lmp_subversion) as nat))
                                                },
                                            }
                                        },
                                    }
                                },
                            }
                        },
                    }
                },
            }
        }
    }

    fn from_hci_bytes(data: &'de [u8]) -> (r: Result<(ReadLocalVersionInformationReturn, &'de [u8]), FromHciBytesError>) {
        if data.len() < 8 {
            return Err(FromHciBytesError::InvalidSize);
        }
        let (v_hci_version, rest_hci_version) = match <CoreSpecificationVersion as FromHciBytes<'de>>::from_hci_bytes(data) {
            Ok(x) => x,
            Err(e) => return Err(e),
        };
        let (v_hci_subversion, rest_hci_subversion) = match <u16 as FromHciBytes<'de>>::from_hci_bytes(rest_hci_version) {
            Ok(x) => x,
            Err(e) => return Err(e),
        };
        proof {
            lemma_skip_skip(data@, (data@.len() - rest_hci_version@.len()) as int, (rest_hci_version@.len() - rest_hci_subversion@.len()) as int);
        }
        let (v_lmp_version, rest_lmp_version) = match <CoreSpecificationVersion as FromHciBytes<'de>>::from_hci_bytes(rest_hci_subversion) {
            Ok(x) => x,
            Err(e) => return Err(e),
        };
        proof {
            lemma_skip_skip(data@, (data@.len() - rest_hci_subversion@.len()) as int, (rest_hci_subversion@.len() - rest_lmp_version@.len()) as int);
        }
        let (v_company_identifier, rest_company_identifier) = match <u16 as FromHciBytes<'de>>::from_hci_bytes(rest_lmp_version) {
            Ok(x) => x,
            Err(e) => return Err(e),
        };
        proof {
            lemma_skip_skip(data@, (data@.len() - rest_lmp_version@.len()) as int, (rest_lmp_version@.len() - rest_company_identifier@.len()) as int);
        }
        let (v_lmp_subversion, rest_lmp_subversion) = match <u16 as FromHciBytes<'de>>::from_hci_bytes(rest_company_identifier) {
            Ok(x) => x,
            Err(e) => return Err(e),
        };
        proof {
            lemma_skip_skip(data@, (data@.len() - rest_company_identifier@.len()) as int, (rest_company_identifier@.len() - rest_lmp_subversion@.len()) as int);
        }
        Ok((ReadLocalVersionInformationReturn { hci_version: v_hci_version, hci_subversion: v_hci_subversion, lmp_version: v_lmp_version, company_identifier: v_company_identifier, lmp_subversion: v_lmp_subversion }, rest_lmp_subversion))
    }
}

impl WriteHci for ReadLocalVersionInformationReturn {
    open spec fn spec_hci_bytes(&self) -> Seq<u8> {
        self.hci_version.spec_hci_bytes() + self.hci_subversion.spec_hci_bytes() + self.lmp_version.spec_hci_bytes() + self.company_identifier.spec_hci_bytes() + self.lmp_subversion.spec_hci_bytes()
    }

    fn size(&self) -> (r: usize) {
        let mut n = self.hci_version.size();
        proof {
            assert(self.hci_version.spec_hci_bytes() + self.hci_subversion.spec_hci_bytes() =~= (self.hci_version.spec_hci_bytes() + self.hci_subversion.spec_hci_bytes()));
        }
        n = n + self.hci_subversion.size();
        proof {
            assert(self.hci_version.spec_hci_bytes() + self.hci_subversion.spec_hci_bytes() + self.lmp_version.spec_hci_bytes() =~= (self.hci_version.spec_hci_bytes() + self.hci_subversion.spec_hci_bytes() + self.lmp_version.spec_hci_bytes()));
        }
        n = n + self.lmp_version.size();
        proof {
            assert(self.hci_version.spec_hci_bytes() + self.hci_subversion.spec_hci_bytes() + self.lmp_version.spec_hci_bytes() + self.company_identifier.spec_hci_bytes() =~= (self.hci_version.spec_hci_bytes() + self.hci_subversion.spec_hci_bytes() + self.lmp_version.spec_hci_bytes() + self.company_identifier.spec_hci_bytes()));
        }
        n = n + self.company_identifier.size();
        proof {
            assert(self.hci_version.spec_hci_bytes() + self.hci_subversion.spec_hci_bytes() + self.lmp_version.spec_hci_bytes() + self.company_identifier.spec_hci_bytes() + self.lmp_subversion.spec_hci_bytes() =~= (self.hci_version.spec_hci_bytes() + self.hci_subversion.spec_hci_bytes() + self.lmp_version.spec_hci_bytes() + self.company_identifier.spec_hci_bytes() + self.lmp_subversion.spec_hci_bytes()));
        }
        n = n + self.lmp_subversion.size();
        n
    }

    fn write_hci(&self, out: &mut Vec<u8>) {
        self.hci_version.write_hci(out);
        self.hci_subversion.write_hci(out);
        self.lmp_version.write_hci(out);
        self.company_identifier.write_hci(out);
        self.lmp_subversion.write_hci(out);
        proof {
            assert(out@ =~= old(out)@ + self.spec_hci_bytes());
        }
    }
}

impl ReadLocalVersionInformationReturn {
    /// The bytes of a `ReadLocalVersionInformationReturn` are the bytes of its fields, one after the
    /// other, in the order in which the fields are declared.
    pub proof fn lemma_fields_in_order(&self)
        ensures
            self.spec_hci_bytes() == self.hci_version.spec_hci_bytes() + self.hci_subversion.spec_hci_bytes() + self.lmp_version.spec_hci_bytes() + self.company_identifier.spec_hci_bytes() + self.lmp_subversion.spec_hci_bytes(),
    {
    }
}

impl FixedSizeValue for ReadLocalVersionInformationReturn {
    open spec fn spec_size() -> nat {
        8
    }

    proof fn lemma_fixed_size(&self) {
        self.hci_version.lemma_fixed_size();
        self.hci_subversion.lemma_fixed_size();
        self.lmp_version.lemma_fixed_size();
        self.company_identifier.lemma_fixed_size();
        self.lmp_subversion.lemma_fixed_size();
    }
}

impl<'de> HciCodec<'de> for ReadLocalVersionInformationReturn {
    open spec fn spec_encodable(&self) -> bool {
        self.hci_version.spec_encodable() && self.hci_subversion.spec_encodable() && self.lmp_version.spec_encodable() && self.company_identifier.spec_encodable() && self.lmp_subversion.spec_encodable()
    }

    proof fn lemma_write_then_read(&self, rest: Seq<u8>) {
        self.hci_version.lemma_fixed_size();
        self.hci_subversion.lemma_fixed_size();
        self.lmp_version.lemma_fixed_size();
        self.company_identifier.lemma_fixed_size();
        self.lmp_subversion.lemma_fixed_size();
        let t_lmp_subversion = self.lmp_subversion.spec_hci_bytes() + rest;
        let t_company_identifier = self.company_identifier.spec_hci_bytes() + t_lmp_subversion;
        let t_lmp_version = self.lmp_version.spec_hci_bytes() + t_company_identifier;
        let t_hci_subversion = self.hci_subversion.spec_hci_bytes() + t_lmp_version;
        let t_hci_version = self.hci_version.spec_hci_bytes() + t_hci_subversion;
        assert(self.spec_hci_bytes() + rest =~= t_hci_version);
        self.hci_version.lemma_write_then_read(t_hci_subversion);
        self.hci_subversion.lemma_write_then_read(t_lmp_version);
        self.lmp_version.lemma_write_then_read(t_company_identifier);
        self.company_identifier.lemma_write_then_read(t_lmp_subversion);
        self.lmp_subversion.lemma_write_then_read(rest);
        assert(t_hci_version.skip(self.hci_version.spec_hci_bytes().len() as int) =~= t_hci_subversion);
        assert(t_hci_subversion.skip(self.hci_subversion.spec_hci_bytes().len() as int) =~= t_lmp_version);
        assert(t_lmp_version.skip(self.lmp_version.spec_hci_bytes().len() as int) =~= t_company_identifier);
        assert(t_company_identifier.skip(self.company_identifier.spec_hci_bytes().len() as int) =~= t_lmp_subversion);
    }
}

/// The ReadLocalVersionInformation command (group INFO_PARAMS, command 0x0001).
#[derive(Debug, Clone, Copy, PartialEq, Eq, PartialOrd, Ord, Hash, Default)]
pub struct ReadLocalVersionInformation(());

impl ReadLocalVersionInformation {
    /// Create a new instance of the command.
    pub fn new() -> (r: Self)
        ensures
            r.spec_params() == (),
    {
        ReadLocalVersionInformation(())
    }

    /// This command's opcode is group INFO_PARAMS, command 0x0001: 0x1001.
    pub proof fn lemma_opcode()
        ensures
            Self::spec_opcode() == 0x1001,
    {
        lemma_opcode_value(INFO_PARAMS, 0x0001);
    }
}

impl Cmd for ReadLocalVersionInformation {
    type Params = ();

    open spec fn spec_opcode() -> u16 {
        spec_opcode_raw(INFO_PARAMS, 0x0001)
    }

    closed spec fn spec_params(&self) -> () {
        self.0
    }

    fn opcode() -> (r: Opcode) {
        Opcode::new(OpcodeGroup::new(INFO_PARAMS), 0x0001)
    }

    fn params(&self) -> (r: &()) {
        &self.0
    }

    proof fn lemma_packet(&self) {
    }
}

impl WriteHci for ReadLocalVersionInformation {
    closed spec fn spec_hci_bytes(&self) -> Seq<u8> {
        spec_cmd_packet(spec_opcode_raw(INFO_PARAMS, 0x0001), self.0.spec_hci_bytes())
    }

    fn size(&self) -> (r: usize) {
        self.0.size() + 3
    }

    fn write_hci(&self, out: &mut Vec<u8>) {
        write_cmd_packet(Opcode::new(OpcodeGroup::new(INFO_PARAMS), 0x0001), &self.0, out);
    }
}

impl SyncCmd for ReadLocalVersionInformation {
    type Return = ReadLocalVersionInformationReturn;
    type Handle = ();

    open spec fn spec_handle_ok(data: Seq<u8>, h: ()) -> bool {
        true
    }

    open spec fn spec_handle_err(data: Seq<u8>, e: FromHciBytesError) -> bool {
        false
    }

    open spec fn spec_return_ok(data: Seq<u8>, v: ReadLocalVersionInformationReturn) -> bool {
        spec_decodes_complete::<ReadLocalVersionInformationReturn>(data, v)
    }

    open spec fn spec_return_err(data: Seq<u8>, e: FromHciBytesError) -> bool {
        spec_decode_complete_err::<ReadLocalVersionInformationReturn>(data, e)
    }

    fn param_handle(&self) -> (r: ())
        ensures
            r == (),
    {
    }

    fn return_handle(data: &[u8]) -> (r: Result<(), FromHciBytesError>) {
        Ok(())
    }

    fn return_from_hci_bytes(data: &[u8]) -> (r: Result<ReadLocalVersionInformationReturn, FromHciBytesError>) {
        <ReadLocalVersionInformationReturn as FromHciBytes>::from_hci_bytes_complete(data)
    }
}

/// The ReadLocalSupportedCmds command (group INFO_PARAMS, command 0x0002).
#[derive(Debug, Clone, Copy, PartialEq, Eq, PartialOrd, Ord, Hash, Default)]
pub struct ReadLocalSupportedCmds(());

impl ReadLocalSupportedCmds {
    /// Create a new instance of the command.
    pub fn new() -> (r: Self)
        ensures
            r.spec_params() == (),
    {
        ReadLocalSupportedCmds(())
    }

    /// This command's opcode is group INFO_PARAMS, command 0x0002: 0x1002.
    pub proof fn lemma_opcode()
        ensures
            Self::spec_opcode() == 0x1002,
    {
        lemma_opcode_value(INFO_PARAMS, 0x0002);
    }
}

impl Cmd for ReadLocalSupportedCmds {
    type Params = ();

    open spec fn spec_opcode() -> u16 {
        spec_opcode_raw(INFO_PARAMS, 0x0002)
    }

    closed spec fn spec_params(&self) -> () {
        self.0
    }

    fn opcode() -> (r: Opcode) {
        Opcode::new(OpcodeGroup::new(INFO_PARAMS), 0x0002)
    }

    fn params(&self) -> (r: &()) {
        &self.0
    }

    proof fn lemma_packet(&self) {
    }
}

impl WriteHci for ReadLocalSupportedCmds {
    closed spec fn spec_hci_bytes(&self) -> Seq<u8> {
        spec_cmd_packet(spec_opcode_raw(INFO_PARAMS, 0x0002), self.0.spec_hci_bytes())
    }

    fn size(&self) -> (r: usize) {
        self.0.size() + 3
    }

    fn write_hci(&self, out: &mut Vec<u8>) {
        write_cmd_packet(Opcode::new(OpcodeGroup::new(INFO_PARAMS), 0x0002), &self.0, out);
    }
}

impl SyncCmd for ReadLocalSupportedCmds {
    type Return = CmdMask;
    type Handle = ();

    open spec fn spec_handle_ok(data: Seq<u8>, h: ()) -> bool {
        true
    }

    open spec fn spec_handle_err(data: Seq<u8>, e: FromHciBytesError) -> bool {
        false
    }

    open spec fn spec_return_ok(data: Seq<u8>, v: CmdMask) -> bool {
        spec_decodes_complete::<CmdMask>(data, v)
    }

    open spec fn spec_return_err(data: Seq<u8>, e: FromHciBytesError) -> bool {
        spec_decode_complete_err::<CmdMask>(data, e)
    }

    fn param_handle(&self) -> (r: ())
        ensures
            r == (),
    {
    }

    fn return_handle(data: &[u8]) -> (r: Result<(), FromHciBytesError>) {
        Ok(())
    }

    fn return_from_hci_bytes(data: &[u8]) -> (r: Result<CmdMask, FromHciBytesError>) {
        <CmdMask as FromHciBytes>::from_hci_bytes_complete(data)
    }
}

/// The ReadLocalSupportedFeatures command (group INFO_PARAMS, command 0x0003).
#[derive(Debug, Clone, Copy, PartialEq, Eq, PartialOrd, Ord, Hash, Default)]
pub struct ReadLocalSupportedFeatures(());

impl ReadLocalSupportedFeatures {
    /// Create a new instance of the command.
    pub fn new() -> (r: Self)
        ensures
            r.spec_params() == (),
    {
        ReadLocalSupportedFeatures(())
    }

    /// This command's opcode is group INFO_PARAMS, command 0x0003: 0x1003.
    pub proof fn lemma_opcode()
        ensures
            Self::spec_opcode() == 0x1003,
    {
        lemma_opcode_value(INFO_PARAMS, 0x0003);
    }
}

impl Cmd for ReadLocalSupportedFeatures {
    type Params = ();

    open spec fn spec_opcode() -> u16 {
        spec_opcode_raw(INFO_PARAMS, 0x0003)
    }

    closed spec fn spec_params(&self) -> () {
        self.0
    }

    fn opcode() -> (r: Opcode) {
        Opcode::new(OpcodeGroup::new(INFO_PARAMS), 0x0003)
    }

    fn params(&self) -> (r: &()) {
        &self.0
    }

    proof fn lemma_packet(&self) {
    }
}

impl WriteHci for ReadLocalSupportedFeatures {
    closed spec fn spec_hci_bytes(&self) -> Seq<u8> {
        spec_cmd_packet(spec_opcode_raw(INFO_PARAMS, 0x0003), self.0.spec_hci_bytes())
    }

    fn size(&self) -> (r: usize) {
        self.0.size() + 3
    }

    fn write_hci(&self, out: &mut Vec<u8>) {
        write_cmd_packet(Opcode::new(OpcodeGroup::new(INFO_PARAMS), 0x0003), &self.0, out);
    }
}

impl SyncCmd for ReadLocalSupportedFeatures {
    type Return = LmpFeatureMask;
    type Handle = ();

    open spec fn spec_handle_ok(data: Seq<u8>, h: ()) -> bool {
        true
    }

    open spec fn spec_handle_err(data: Seq<u8>, e: FromHciBytesError) -> bool {
        false
    }

    open spec fn spec_return_ok(data: Seq<u8>, v: LmpFeatureMask) -> bool {
        spec_decodes_complete::<LmpFeatureMask>(data, v)
    }

    open spec fn spec_return_err(data: Seq<u8>, e: FromHciBytesError) -> bool {
        spec_decode_complete_err::<LmpFeatureMask>(data, e)
    }

    fn param_handle(&self) -> (r: ())
        ensures
            r == (),
    {
    }

    fn return_handle(data: &[u8]) -> (r: Result<(), FromHciBytesError>) {
        Ok(())
    }

    fn return_from_hci_bytes(data: &[u8]) -> (r: Result<LmpFeatureMask, FromHciBytesError>) {
        <LmpFeatureMask as FromHciBytes>::from_hci_bytes_complete(data)
    }
}

/// The ReadBdAddr command (group INFO_PARAMS, command 0x0009).
#[derive(Debug, Clone, Copy, PartialEq, Eq, PartialOrd, Ord, Hash, Default)]
pub struct ReadBdAddr(());

impl ReadBdAddr {
    /// Create a new instance of the command.
    pub fn new() -> (r: Self)
        ensures
            r.spec_params() == (),
    {
        ReadBdAddr(())
    }

    /// This command's opcode is group INFO_PARAMS, command 0x0009: 0x1009.
    pub proof fn lemma_opcode()
        ensures
            Self::spec_opcode() == 0x1009,
    {
        lemma_opcode_value(INFO_PARAMS, 0x0009);
    }
}

impl Cmd for ReadBdAddr {
    type Params = ();

    open spec fn spec_opcode() -> u16 {
        spec_opcode_raw(INFO_PARAMS, 0x0009)
    }

    closed spec fn spec_params(&self) -> () {
        self.0
    }

    fn opcode() -> (r: Opcode) {
        Opcode::new(OpcodeGroup::new(INFO_PARAMS), 0x0009)
    }

    fn params(&self) -> (r: &()) {
        &self.0
    }

    proof fn lemma_packet(&self) {
    }
}

impl WriteHci for ReadBdAddr {
    closed spec fn spec_hci_bytes(&self) -> Seq<u8> {
        spec_cmd_packet(spec_opcode_raw(INFO_PARAMS, 0x0009), self.0.spec_hci_bytes())
    }

    fn size(&self) -> (r: usize) {
        self.0.size() + 3
    }

    fn write_hci(&self, out: &mut Vec<u8>) {
        write_cmd_packet(Opcode::new(OpcodeGroup::new(INFO_PARAMS), 0x0009), &self.0, out);
    }
}

impl SyncCmd for ReadBdAddr {
    type Return = BdAddr;
    type Handle = ();

    open spec fn spec_handle_ok(data: Seq<u8>, h: ()) -> bool {
        true
    }

    open spec fn spec_handle_err(data: Seq<u8>, e: FromHciBytesError) -> bool {
        false
    }

    open spec fn spec_return_ok(data: Seq<u8>, v: BdAddr) -> bool {
        spec_decodes_complete::<BdAddr>(data, v)
    }

    open spec fn spec_return_err(data: Seq<u8>, e: FromHciBytesError) -> bool {
        spec_decode_complete_err::<BdAddr>(data, e)
    }

    fn param_handle(&self) -> (r: ())
        ensures
            r == (),
    {
    }

    fn return_handle(data: &[u8]) -> (r: Result<(), FromHciBytesError>) {
        Ok(())
    }

    fn return_from_hci_bytes(data: &[u8]) -> (r: Result<BdAddr, FromHciBytesError>) {
        <BdAddr as FromHciBytes>::from_hci_bytes_complete(data)
    }
}

} // verus!
