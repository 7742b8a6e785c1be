//! Controller & Baseband commands.

use vstd::prelude::*;

use crate::{FixedSizeValue, FromHciBytes, FromHciBytesError, HciCodec, WriteHci, parsed, failed, lemma_skip_skip};
use crate::cmd::{
    AsyncCmd, Cmd, Opcode, OpcodeGroup, SyncCmd, spec_cmd_packet, spec_decode_complete_err, spec_decode_prefix_err,
    spec_decodes_complete, spec_decodes_prefix, spec_opcode_raw, write_cmd_packet, lemma_opcode_value,
};
use crate::cmd::{CONTROL_BASEBAND, INFO_PARAMS, LE, LINK_CONTROL, STATUS_PARAMS};
use crate::param::{
    AddrKind, AdvChannelMap, AdvEventProps, AdvFilterPolicy, AdvHandle, AdvKind, AdvPhyOptions,
    AdvSet, AllPhys, AllowRoleSwitch, AuthenticationRequirements, BdAddr, BigHandle, ChannelMap,
    ClockAccuracy, ClockOffset, CmdMask, ConnHandle, ConnHandleCompletedPackets, ConnIntervalGroup,
    ConnectionLinkType, ControllerToHostFlowControl, CoreSpecificationVersion, CteKind, CteMask,
    DataStatus, DisconnectReason, DoneStatus, Duration,
    EnhancedAcceptSynchronousConnectionRequestParams, EnhancedSetupSynchronousConnectionParams,
    Error, EventMask, EventMaskPage2, ExtDuration, ExtendedLmpFeatures, FilterDuplicates,
    FrameSpaceInitiator, FrequencyCompensation, InitiatingPhy, IoCapability, KeyFlag,
    LeAdvEventKind, LeAdvReport, LeAdvReports, LeAdvReportsIter, LeAdvertisingReportParam,
    LeConnRole, LeCsSubeventStepData, LeCsSubeventStepDataIter, LeCsSubeventStepEntry,
    LeDataRelatedAddrChangeReasons, LeEventMask, LeExtAdvDataStatus, LeExtAdvEventKind,
    LeExtAdvReport, LeExtAdvReports, LeExtAdvReportsIter, LeFeatureMask, LeFeatureMaskPage1,
    LePeriodicAdvCreateSyncOptions, LePeriodicAdvReceiveEnable, LePeriodicAdvSubeventData,
    LePeriodicAdvSyncTransferMode, LePeriodicAdvertisingResponseReport,
    LePeriodicAdvertisingResponseReports, LePeriodicAdvertisingResponseReportsIter, LeScanKind,
    LeTxPowerReportingReason, LinkKeyType, LinkType, LmpFeatureMask, LmpFeatureMaskPage1,
    LmpFeatureMaskPage2, OobDataPresent, Operation, PackedAbortReasons, PacketStatus, PacketType,
    PageScanRepetitionMode, PeriodicAdvProps, PhyKind, PhyMask, PhyOptions, PhyParams,
    PowerLevelKind, PrivacyMode, ProcedureAbortReason, RejectReason, RemainingBytes,
    RemoteConnectionParamsRejectReason, RetransmissionEffort, Role, ScanningFilterPolicy,
    ScanningPhy, SpacingTypes, Status, SubeventAbortReason, SwitchingSamplingRates, SyncHandle,
    SyncPacketType, TxStatus, VoiceSetting, ZoneEntered
};

verus! {

/// The Reset command (group CONTROL_BASEBAND, command 0x0003).
#[derive(Debug, Clone, Copy, PartialEq, Eq, PartialOrd, Ord, Hash, Default)]
pub struct Reset(());

impl Reset {
    /// Create a new instance of the command.
    pub fn new() -> (r: Self)
        ensures
            r.spec_params() == (),
    {
        Reset(())
    }

    /// This command's opcode is group CONTROL_BASEBAND, command 0x0003: 0x0c03.
    pub proof fn lemma_opcode()
        ensures
            Self::spec_opcode() == 0x0c03,
    {
        lemma_opcode_value(CONTROL_BASEBAND, 0x0003);
    }
}

impl Cmd for Reset {
    type Params = ();

    open spec fn spec_opcode() -> u16 {
        spec_opcode_raw(CONTROL_BASEBAND, 0x0003)
    }

    closed spec fn spec_params(&self) -> () {
        self.0
    }

    fn opcode() -> (r: Opcode) {
        Opcode::new(OpcodeGroup::new(CONTROL_BASEBAND), 0x0003)
    }

    fn params(&self) -> (r: &()) {
        &self.0
    }

    proof fn lemma_packet(&self) {
    }
}

impl WriteHci for Reset {
    closed spec fn spec_hci_bytes(&self) -> Seq<u8> {
        spec_cmd_packet(spec_opcode_raw(CONTROL_BASEBAND, 0x0003), self.0.spec_hci_bytes())
    }

    fn size(&self) -> (r: usize) {
        self.0.size() + 3
    }

    fn write_hci(&self, out: &mut Vec<u8>) {
        write_cmd_packet(Opcode::new(OpcodeGroup::new(CONTROL_BASEBAND), 0x0003), &self.0, out);
    }
}

impl SyncCmd for Reset {
    type Return = ();
    type Handle = ();

    open spec fn spec_handle_ok(data: Seq<u8>, h: ()) -> bool {
        true
    }

    open spec fn spec_handle_err(data: Seq<u8>, e: FromHciBytesError) -> bool {
        false
    }

    open spec fn spec_return_ok(data: Seq<u8>, v: ()) -> bool {
        spec_decodes_complete::<()>(data, v)
    }

    open spec fn spec_return_err(data: Seq<u8>, e: FromHciBytesError) -> bool {
        spec_decode_complete_err::<()>(data, e)
    }

    fn param_handle(&self) -> (r: ())
        ensures
            r == (),
    {
    }

    fn return_handle(data: &[u8]) -> (r: Result<(), FromHciBytesError>) {
        Ok(())
    }

    fn return_from_hci_bytes(data: &[u8]) -> (r: Result<(), FromHciBytesError>) {
        <() as FromHciBytes>::from_hci_bytes_complete(data)
    }
}

} // verus!
