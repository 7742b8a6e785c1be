//! Status parameters.

use vstd::prelude::*;

use crate::{FixedSizeValue, FromHciBytes, FromHciBytesError, HciCodec, WriteHci, parsed, failed, lemma_skip_skip};
use crate::cmd::{
    AsyncCmd, Cmd, Opcode, OpcodeGroup, SyncCmd, spec_cmd_packet, spec_decode_complete_err, spec_decode_prefix_err,
    spec_decodes_complete, spec_decodes_prefix, spec_opcode_raw, write_cmd_packet, lemma_opcode_value,
};
use crate::cmd::{CONTROL_BASEBAND, INFO_PARAMS, LE, LINK_CONTROL, STATUS_PARAMS};
use crate::param::{
    AddrKind, AdvChannelMap, AdvEventProps, AdvFilterPolicy, AdvHandle, AdvKind, AdvPhyOptions,
    AdvSet, AllPhys, AllowRoleSwitch, AuthenticationRequirements, BdAddr, BigHandle, ChannelMap,
    ClockAccuracy, ClockOffset, CmdMask, ConnHandle, ConnHandleCompletedPackets, ConnIntervalGroup,
    ConnectionLinkType, ControllerToHostFlowControl, CoreSpecificationVersion, CteKind, CteMask,
    DataStatus, DisconnectReason, DoneStatus, Duration,
    EnhancedAcceptSynchronousConnectionRequestParams, EnhancedSetupSynchronousConnectionParams,
    Error, EventMask, EventMaskPage2, ExtDuration, ExtendedLmpFeatures, FilterDuplicates,
    FrameSpaceInitiator, FrequencyCompensation, InitiatingPhy, IoCapability, KeyFlag,
    LeAdvEventKind, LeAdvReport, LeAdvReports, LeAdvReportsIter, LeAdvertisingReportParam,
    LeConnRole, LeCsSubeventStepData, LeCsSubeventStepDataIter, LeCsSubeventStepEntry,
    LeDataRelatedAddrChangeReasons, LeEventMask, LeExtAdvDataStatus, LeExtAdvEventKind,
    LeExtAdvReport, LeExtAdvReports, LeExtAdvReportsIter, LeFeatureMask, LeFeatureMaskPage1,
    LePeriodicAdvCreateSyncOptions, LePeriodicAdvReceiveEnable, LePeriodicAdvSubeventData,
    LePeriodicAdvSyncTransferMode, LePeriodicAdvertisingResponseReport,
    LePeriodicAdvertisingResponseReports, LePeriodicAdvertisingResponseReportsIter, LeScanKind,
    LeTxPowerReportingReason, LinkKeyType, LinkType, LmpFeatureMask, LmpFeatureMaskPage1,
    LmpFeatureMaskPage2, OobDataPresent, Operation, PackedAbortReasons, PacketStatus, PacketType,
    PageScanRepetitionMode, PeriodicAdvProps, PhyKind, PhyMask, PhyOptions, PhyParams,
    PowerLevelKind, PrivacyMode, ProcedureAbortReason, RejectReason, RemainingBytes,
    RemoteConnectionParamsRejectReason, RetransmissionEffort, Role, ScanningFilterPolicy,
    ScanningPhy, SpacingTypes, Status, SubeventAbortReason, SwitchingSamplingRates, SyncHandle,
    SyncPacketType, TxStatus, VoiceSetting, ZoneEntered
};

verus! {

/// Parameters for the [`ReadRssi`] command.
#[derive(Debug, Clone, Copy, PartialEq, Eq, PartialOrd, Ord, Hash)]
#[allow(missing_docs)]
pub struct Params {
    pub handle: ConnHandle,
}

/// The value of a [`Params`], with byte slices taken as sequences.
#[allow(missing_docs)]
pub struct ParamsView {
    pub handle: u16,
}

impl View for Params {
    type V = ParamsView;

    open spec fn view(&self) -> ParamsView {
        ParamsView { handle: self.handle@ }
    }
}

impl WriteHci for Params {
    open spec fn spec_hci_bytes(&self) -> Seq<u8> {
        self.handle.spec_hci_bytes()
    }

    fn size(&self) -> (r: usize) {
        self.handle.size()
    }

    fn write_hci(&self, out: &mut Vec<u8>) {
        self.handle.write_hci(out);
        proof {
            assert(out@ =~= old(out)@ + self.spec_hci_bytes());
        }
    }
}

impl Params {
    /// The bytes of a `Params` are the bytes of its fields, one after the
    /// other, in the order in which the fields are declared.
    pub proof fn lemma_fields_in_order(&self)
        ensures
            self.spec_hci_bytes() == self.handle.spec_hci_bytes(),
    {
    }
}


/// Return parameters for the [`ReadRssi`] command.
#[derive(Debug, Clone, Copy, PartialEq, Eq, PartialOrd, Ord, Hash)]
#[allow(missing_docs)]
pub struct ReadRssiReturn {
    pub handle: ConnHandle,
    pub rssi: i8,
}

/// The value of a [`ReadRssiReturn`], with byte slices taken as sequences.
#[allow(missing_docs)]
pub struct ReadRssiReturnView {
    pub handle: u16,
    pub rssi: i8,
}

impl View for ReadRssiReturn {
    type V = ReadRssiReturnView;

    open spec fn view(&self) -> ReadRssiReturnView {
        ReadRssiReturnView { handle: self.handle@, rssi: self.rssi@ }
    }
}

impl<'de> FromHciBytes<'de> for ReadRssiReturn {
    open spec fn spec_from_hci_bytes(data: Seq<u8>) -> Result<(ReadRssiReturnView, nat), FromHciBytesError> {
        if data.len() < 3 {
            Err(FromHciBytesError::InvalidSize)
        } else {
            match <ConnHandle as FromHciBytes<'de>>::spec_from_hci_bytes(data) {
                Err(e) => Err(e),
                Ok((v_handle, n_handle)) => {
                    match <i8 as FromHciBytes<'de>>::spec_from_hci_bytes(data.skip(n_handle as int)) {
                        Err(e) => Err(e),
                        Ok((v_rssi, n_rssi)) => {
                            Ok((ReadRssiReturnView { handle: v_handle, rssi: v_rssi }, (n_handle + n_rssi) as nat))
                        },
                    }
                },
            }
        }
    }

    fn from_hci_bytes(data: &'de [u8]) -> (r: Result<(ReadRssiReturn, &'de [u8]), FromHciBytesError>) {
        if data.len() < 3 {
            return Err(FromHciBytesError::InvalidSize);
        }
        let (v_handle, rest_handle) = match <ConnHandle as FromHciBytes<'de>>::from_hci_bytes(data) {
            Ok(x) => x,
            Err(e) => return Err(e),
        };
        let (v_rssi, rest_rssi) = match <i8 as FromHciBytes<'de>>::from_hci_bytes(rest_handle) {
            Ok(x) => x,
            Err(e) => return Err(e),
        };
        proof {
            lemma_skip_skip(data@, (data@.len() - rest_handle@.len()) as int, (rest_handle@.len() - rest_rssi@.len()) as int);
        }
        Ok((ReadRssiReturn { handle: v_handle, rssi: v_rssi }, rest_rssi))
    }
}

impl WriteHci for ReadRssiReturn {
    open spec fn spec_hci_bytes(&self) -> Seq<u8> {
        self.handle.spec_hci_bytes() + self.rssi.spec_hci_bytes()
    }

    fn size(&self) -> (r: usize) {
        let mut n = self.handle.size();
        proof {
            assert(self.handle.spec_hci_bytes() + self.rssi.spec_hci_bytes() =~= (self.handle.spec_hci_bytes() + self.rssi.spec_hci_bytes()));
        }
        n = n + self.rssi.size();
        n
    }

    fn write_hci(&self, out: &mut Vec<u8>) {
        self.handle.write_hci(out);
        self.rssi.write_hci(out);
        proof {
            assert(out@ =~= old(out)@ + self.spec_hci_bytes());
        }
    }
}

impl ReadRssiReturn {
    /// The bytes of a `ReadRssiReturn` are the bytes of its fields, one after the
    /// other, in the order in which the fields are declared.
    pub proof fn lemma_fields_in_order(&self)
        ensures
            self.spec_hci_bytes() == self.handle.spec_hci_bytes() + self.rssi.spec_hci_bytes(),
    {
    }
}

impl FixedSizeValue for ReadRssiReturn {
    open spec fn spec_size() -> nat {
        3
    }

    proof fn lemma_fixed_size(&self) {
        self.handle.lemma_fixed_size();
        self.rssi.lemma_fixed_size();
    }
}

impl<'de> HciCodec<'de> for ReadRssiReturn {
    open spec fn spec_encodable(&self) -> bool {
        self.handle.spec_encodable() && self.rssi.spec_encodable()
    }

    proof fn lemma_write_then_read(&self, rest: Seq<u8>) {
        self.handle.lemma_fixed_size();
        self.rssi.lemma_fixed_size();
        let t_rssi = self.rssi.spec_hci_bytes() + rest;
        let t_handle = self.handle.spec_hci_bytes() + t_rssi;
        assert(self.spec_hci_bytes() + rest =~= t_handle);
        self.handle.lemma_write_then_read(t_rssi);
        self.rssi.lemma_write_then_read(rest);
        assert(t_handle.skip(self.handle.spec_hci_bytes().len() as int) =~= t_rssi);
    }
}

/// The ReadRssi command (group STATUS_PARAMS, command 0x0005).
#[derive(Debug, Clone, Copy, PartialEq, Eq, PartialOrd, Ord, Hash)]
pub struct ReadRssi(Params);

impl ReadRssi {
    /// Create a new instance of the command.
    pub fn new(handle: ConnHandle) -> (result: Self)
        ensures
            result.spec_params() == (Params { handle: handle }),
    {
        ReadRssi(Params { handle: handle })
    }

    /// This command's opcode is group STATUS_PARAMS, command 0x0005: 0x1405.
    pub proof fn lemma_opcode()
        ensures
            Self::spec_opcode() == 0x1405,
    {
        lemma_opcode_value(STATUS_PARAMS, 0x0005);
    }
}

impl Cmd for ReadRssi {
    type Params = Params;

    open spec fn spec_opcode() -> u16 {
        spec_opcode_raw(STATUS_PARAMS, 0x0005)
    }

    closed spec fn spec_params(&self) -> Params {
        self.0
    }

    fn opcode() -> (r: Opcode) {
        Opcode::new(OpcodeGroup::new(STATUS_PARAMS), 0x0005)
    }

    fn params(&self) -> (r: &Params) {
        &self.0
    }

    proof fn lemma_packet(&self) {
    }
}

impl WriteHci for ReadRssi {
    closed spec fn spec_hci_bytes(&self) -> Seq<u8> {
        spec_cmd_packet(spec_opcode_raw(STATUS_PARAMS, 0x0005), self.0.spec_hci_bytes())
    }

    fn size(&self) -> (r: usize) {
        self.0.size() + 3
    }

    fn write_hci(&self, out: &mut Vec<u8>) {
        write_cmd_packet(Opcode::new(OpcodeGroup::new(STATUS_PARAMS), 0x0005), &self.0, out);
    }
}

impl SyncCmd for ReadRssi {
    type Return = ReadRssiReturn;
    type Handle = ();

    open spec fn spec_handle_ok(data: Seq<u8>, h: ()) -> bool {
        true
    }

    open spec fn spec_handle_err(data: Seq<u8>, e: FromHciBytesError) -> bool {
        false
    }

    open spec fn spec_return_ok(data: Seq<u8>, v: ReadRssiReturn) -> bool {
        spec_decodes_complete::<ReadRssiReturn>(data, v)
    }

    open spec fn spec_return_err(data: Seq<u8>, e: FromHciBytesError) -> bool {
        spec_decode_complete_err::<ReadRssiReturn>(data, e)
    }

    fn param_handle(&self) -> (r: ())
        ensures
            r == (),
    {
    }

    fn return_handle(data: &[u8]) -> (r: Result<(), FromHciBytesError>) {
        Ok(())
    }

    fn return_from_hci_bytes(data: &[u8]) -> (r: Result<ReadRssiReturn, FromHciBytesError>) {
        <ReadRssiReturn as FromHciBytes>::from_hci_bytes_complete(data)
    }
}

} // verus!
