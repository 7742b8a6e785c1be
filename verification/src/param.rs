//! Parameter types for HCI command and event packets.

use vstd::prelude::*;

use embassy_time::Duration as EmbassyDuration;

use crate::{AsHciBytes, FixedSizeValue, FromHciBytes, FromHciBytesError, HciCodec, WriteHci, parsed, failed, lemma_skip_skip};
use crate::param::bits::{bit_is_set, spec_bit, spec_with_bit, with_bit};
use crate::param::primitives::{
    read_u16_le, spec_le_u16, spec_u16_le_bytes, write_u16_le, lemma_u16_le_roundtrip,
};

pub mod bits;
pub mod classic;
pub mod cmd_mask;
pub mod events;
pub mod feature_masks;
pub mod le;
pub mod primitives;
pub mod status;

pub use classic::{
    AllowRoleSwitch, AuthenticationRequirements, ClockOffset, ConnectionLinkType,
    EnhancedAcceptSynchronousConnectionRequestParams, EnhancedSetupSynchronousConnectionParams,
    IoCapability, KeyFlag, LinkKeyType, OobDataPresent, PacketType, PageScanRepetitionMode,
    RejectReason, RetransmissionEffort, Role, SyncPacketType, VoiceSetting
};
pub use cmd_mask::CmdMask;
pub use events::{
    EventMask, EventMaskPage2, LeEventMask
};
pub use feature_masks::{
    ExtendedLmpFeatures, LeFeatureMask, LeFeatureMaskPage1, LmpFeatureMask, LmpFeatureMaskPage1,
    LmpFeatureMaskPage2
};
pub use le::{
    AddrKind, AdvChannelMap, AdvEventProps, AdvFilterPolicy, AdvHandle, AdvKind, AdvPhyOptions,
    AdvSet, AllPhys, BigHandle, ChannelMap, ClockAccuracy, ConnIntervalGroup, CteKind, CteMask,
    DataStatus, DoneStatus, FilterDuplicates, FrameSpaceInitiator, FrequencyCompensation,
    InitiatingPhy, LeAdvEventKind, LeAdvReport, LeAdvReports, LeAdvReportsIter,
    LeAdvertisingReportParam, LeConnRole, LeCsSubeventStepData, LeCsSubeventStepDataIter,
    LeCsSubeventStepEntry, LeDataRelatedAddrChangeReasons, LeExtAdvDataStatus, LeExtAdvEventKind,
    LeExtAdvReport, LeExtAdvReports, LeExtAdvReportsIter, LePeriodicAdvCreateSyncOptions,
    LePeriodicAdvReceiveEnable, LePeriodicAdvSubeventData, LePeriodicAdvSyncTransferMode,
    LePeriodicAdvertisingResponseReport, LePeriodicAdvertisingResponseReports,
    LePeriodicAdvertisingResponseReportsIter, LeScanKind, LeTxPowerReportingReason, Operation,
    PackedAbortReasons, PacketStatus, PeriodicAdvProps, PhyKind, PhyMask, PhyOptions, PhyParams,
    PrivacyMode, ProcedureAbortReason, ScanningFilterPolicy, ScanningPhy, SpacingTypes,
    SubeventAbortReason, SwitchingSamplingRates, SyncHandle, TxStatus, ZoneEntered
};
pub use status::{
    Error, Status
};

verus! {

/// A special parameter which takes all remaining bytes in the buffer
#[derive(Default, Debug, Clone, Copy, PartialEq, Eq, PartialOrd, Ord, Hash)]
pub struct RemainingBytes<'a>(&'a [u8]);

impl<'a> View for RemainingBytes<'a> {
    type V = Seq<u8>;

    closed spec fn view(&self) -> Seq<u8> {
        self.0@
    }
}

impl<'a> RemainingBytes<'a> {
    /// The bytes.
    pub fn into_inner(self) -> (r: &'a [u8])
        ensures
            r@ == self@,
    {
        self.0
    }

    /// The bytes.
    pub fn as_slice(&self) -> (r: &'a [u8])
        ensures
            r@ == self@,
    {
        self.0
    }

    /// The number of bytes.
    pub fn len(&self) -> (r: usize)
        ensures
            r == self@.len(),
    {
        self.0.len()
    }

    /// Whether there are no bytes.
    pub fn is_empty(&self) -> (r: bool)
        ensures
            r == (self@.len() == 0),
    {
        self.0.len() == 0
    }
}

impl<'de> FromHciBytes<'de> for RemainingBytes<'de> {
    open spec fn spec_from_hci_bytes(data: Seq<u8>) -> Result<(Seq<u8>, nat), FromHciBytesError> {
        Ok((data, data.len()))
    }

    fn from_hci_bytes(data: &'de [u8]) -> (r: Result<(RemainingBytes<'de>, &'de [u8]), FromHciBytesError>) {
        let (all, rest) = data.split_at(data.len());
        proof {
            assert(all@ =~= data@);
        }
        Ok((RemainingBytes(all), rest))
    }
}

impl<'a> WriteHci for RemainingBytes<'a> {
    open spec fn spec_hci_bytes(&self) -> Seq<u8> {
        self@
    }

    fn size(&self) -> (r: usize) {
        self.0.len()
    }

    fn write_hci(&self, out: &mut Vec<u8>) {
        let ghost start = out@;
        let mut i: usize = 0;
        while i < self.0.len()
            invariant
                i <= self.0@.len(),
                out@ == start + self.0@.take(i as int),
            decreases self.0@.len() - i,
        {
            out.push(self.0[i]);
            i = i + 1;
            proof {
                assert(out@ =~= start + self.0@.take(i as int));
            }
        }
        proof {
            assert(self.0@.take(self.0@.len() as int) =~= self.0@);
        }
    }
}

/// Decoding the bytes written for remaining bytes, with nothing after them,
/// gives them back.
pub proof fn lemma_remaining_bytes_roundtrip(r: RemainingBytes)
    ensures
        RemainingBytes::spec_from_hci_bytes(r.spec_hci_bytes()) == Ok::<(Seq<u8>, nat), FromHciBytesError>((r@, r@.len())),
{
}

/// BdAddr
#[derive(Debug, Clone, Copy, PartialEq, Eq, PartialOrd, Ord, Hash, Default)]
pub struct BdAddr([u8; 6]);

impl View for BdAddr {
    type V = Seq<u8>;

    closed spec fn view(&self) -> Seq<u8> {
        self.0@
    }
}

impl BdAddr {
    /// Get inner representation
    pub fn into_inner(self) -> (r: [u8; 6])
        ensures
            r@ == self@,
    {
        self.0
    }

    /// A `BdAddr` is written and read as its inner value.
    pub proof fn lemma_as_inner(data: Seq<u8>)
        ensures
            forall|v: BdAddr| (#[trigger] v.spec_hci_bytes()) == v@,
            <BdAddr as FromHciBytes>::spec_from_hci_bytes(data) == <[u8; 6] as FromHciBytes>::spec_from_hci_bytes(data),
    {
    }

    /// The representation has one byte per octet.
    pub proof fn lemma_len(&self)
        ensures
            self@.len() == 6,
    {
    }
}

impl<'de> FromHciBytes<'de> for BdAddr {
    open spec fn spec_from_hci_bytes(data: Seq<u8>) -> Result<(Seq<u8>, nat), FromHciBytesError> {
        <[u8; 6] as FromHciBytes<'de>>::spec_from_hci_bytes(data)
    }

    fn from_hci_bytes(data: &'de [u8]) -> (r: Result<(BdAddr, &'de [u8]), FromHciBytesError>) {
        match <[u8; 6] as FromHciBytes<'de>>::from_hci_bytes(data) {
            Ok((v, rest)) => Ok((BdAddr(v), rest)),
            Err(e) => Err(e),
        }
    }
}

impl WriteHci for BdAddr {
    open spec fn spec_hci_bytes(&self) -> Seq<u8> {
        self@
    }

    fn size(&self) -> (r: usize) {
        self.0.size()
    }

    fn write_hci(&self, out: &mut Vec<u8>) {
        self.0.write_hci(out);
    }
}

impl FixedSizeValue for BdAddr {
    open spec fn spec_size() -> nat {
        6
    }

    proof fn lemma_fixed_size(&self) {
        self.0.lemma_fixed_size();
    }
}

impl<'de> HciCodec<'de> for BdAddr {
    open spec fn spec_encodable(&self) -> bool {
        true
    }

    proof fn lemma_write_then_read(&self, rest: Seq<u8>) {
        self.0.lemma_write_then_read(rest);
    }
}

impl BdAddr {
    /// Create a new instance.
    pub fn new(val: [u8; 6]) -> (r: Self)
        ensures
            r@ == val@,
    {
        BdAddr(val)
    }

    /// Get the byte representation.
    pub fn raw(&self) -> (r: &[u8])
        ensures
            r@ == self@,
    {
        self.0.as_slice()
    }
}

impl<'a> AsHciBytes for RemainingBytes<'a> {
    /// The bytes themselves.
    fn as_hci_bytes(&self) -> (r: &[u8]) {
        self.0
    }
}

impl AsHciBytes for BdAddr {
    /// The six octets of the address.
    fn as_hci_bytes(&self) -> (r: &[u8]) {
        self.0.as_slice()
    }
}

/// ConnHandle
#[derive(Debug, Clone, Copy, PartialEq, Eq, PartialOrd, Ord, Hash, Default)]
pub struct ConnHandle(u16);

impl View for ConnHandle {
    type V = u16;

    closed spec fn view(&self) -> u16 {
        self.0@
    }
}

impl ConnHandle {
    /// Get inner representation
    pub fn into_inner(self) -> (r: u16)
        ensures
            r@ == self@,
    {
        self.0
    }

    /// A `ConnHandle` is written and read as its inner value.
    pub proof fn lemma_as_inner(data: Seq<u8>)
        ensures
            forall|v: ConnHandle| (#[trigger] v.spec_hci_bytes()) == v@.spec_hci_bytes(),
            <ConnHandle as FromHciBytes>::spec_from_hci_bytes(data) == <u16 as FromHciBytes>::spec_from_hci_bytes(data),
    {
    }
}

impl<'de> FromHciBytes<'de> for ConnHandle {
    open spec fn spec_from_hci_bytes(data: Seq<u8>) -> Result<(u16, nat), FromHciBytesError> {
        <u16 as FromHciBytes<'de>>::spec_from_hci_bytes(data)
    }

    fn from_hci_bytes(data: &'de [u8]) -> (r: Result<(ConnHandle, &'de [u8]), FromHciBytesError>) {
        match <u16 as FromHciBytes<'de>>::from_hci_bytes(data) {
            Ok((v, rest)) => Ok((ConnHandle(v), rest)),
            Err(e) => Err(e),
        }
    }
}

impl WriteHci for ConnHandle {
    open spec fn spec_hci_bytes(&self) -> Seq<u8> {
        spec_u16_le_bytes(self@)
    }

    fn size(&self) -> (r: usize) {
        self.0.size()
    }

    fn write_hci(&self, out: &mut Vec<u8>) {
        self.0.write_hci(out);
    }
}

impl FixedSizeValue for ConnHandle {
    open spec fn spec_size() -> nat {
        2
    }

    proof fn lemma_fixed_size(&self) {
        self.0.lemma_fixed_size();
    }
}

impl<'de> HciCodec<'de> for ConnHandle {
    open spec fn spec_encodable(&self) -> bool {
        true
    }

    proof fn lemma_write_then_read(&self, rest: Seq<u8>) {
        self.0.lemma_write_then_read(rest);
    }
}

impl ConnHandle {
    /// Create a new instance.
    pub fn new(val: u16) -> (r: Self)
        requires
            val <= 0xeff,
        ensures
            r@ == val,
    {
        ConnHandle(val)
    }

    /// Get the underlying representation.
    pub fn raw(&self) -> (r: u16)
        ensures
            r == self@,
    {
        self.0
    }
}

/// The whole number of `us`-microsecond units in `val` microseconds.
pub open spec fn spec_units(val: u64, us: int) -> int {
    (val as int) / us
}

/// The duration type of `embassy-time`, carried through opaque.
#[verifier::external_type_specification]
#[verifier::external_body]
pub struct ExEmbassyDuration(EmbassyDuration);

/// Calls `embassy_time::Duration::as_micros`: the duration in whole
/// microseconds, as its tick count scaled by the tick rate that the build of
/// `embassy-time` selects. That rate is a build setting, so no clause states
/// the value.
#[verifier::external_body]
fn embassy_micros(d: EmbassyDuration) -> (r: u64) {
    d.as_micros()
}

/// A 16-bit duration. The `US` generic parameter indicates the timebase in µs.
#[derive(Default, Debug, Clone, Copy, PartialEq, Eq, PartialOrd, Ord, Hash)]
pub struct Duration<const US: u32>(u16);

impl<const US: u32> View for Duration<US> {
    type V = u16;

    closed spec fn view(&self) -> u16 {
        self.0
    }
}

impl<const US: u32> Duration<US> {
    /// Create a new instance from raw value.
    pub fn from_u16(val: u16) -> (r: Self)
        ensures
            r@ == val,
    {
        Duration(val)
    }

    /// Create an instance from microseconds, or `None` where the count of
    /// `US` units does not fit in 16 bits.
    pub fn from_micros_checked(val: u64) -> (r: Option<Self>)
        requires
            US > 0,
        ensures
            match r {
                Some(d) => (val as int) / (US as int) <= u16::MAX && d@ == (val as int) / (US as int),
                None => (val as int) / (US as int) > u16::MAX,
            },
    {
        if val / (US as u64) <= 0xffff {
            Some(Self::from_micros(val))
        } else {
            None
        }
    }

    /// Create an instance from an `embassy_time::Duration`: its microseconds
    /// in `US` units, or `None` where they do not fit.
    pub fn from_embassy(d: EmbassyDuration) -> (r: Option<Self>)
        requires
            US > 0,
        ensures
            exists|m: u64|
                #![trigger spec_units(m, US as int)]
                match r {
                    Some(v) => spec_units(m, US as int) <= u16::MAX && v@ == spec_units(m, US as int),
                    None => spec_units(m, US as int) > u16::MAX,
                },
    {
        let micros = embassy_micros(d);
        let r = Self::from_micros_checked(micros);
        proof {
            assert(match r {
                Some(v) => spec_units(micros, US as int) <= u16::MAX && v@ == spec_units(micros, US as int),
                None => spec_units(micros, US as int) > u16::MAX,
            });
        }
        r
    }

    /// Create an instance from microseconds.
    pub fn from_micros(val: u64) -> (r: Self)
        requires
            US > 0,
            (val as int) / (US as int) <= u16::MAX,
        ensures
            r@ == (val as int) / (US as int),
    {
        Self::from_u16((val / (US as u64)) as u16)
    }

    /// Create an instance from milliseconds.
    pub fn from_millis(val: u32) -> (r: Self)
        requires
            US > 0,
            (val as int) * 1000 / (US as int) <= u16::MAX,
        ensures
            r@ == (val as int) * 1000 / (US as int),
    {
        Self::from_micros((val as u64) * 1000)
    }

    /// Create an instance from seconds.
    pub fn from_secs(val: u32) -> (r: Self)
        requires
            US > 0,
            (val as int) * 1_000_000 / (US as int) <= u16::MAX,
        ensures
            r@ == (val as int) * 1_000_000 / (US as int),
    {
        Self::from_micros((val as u64) * 1_000_000)
    }

    /// Get the underlying representation.
    pub fn as_u16(&self) -> (r: u16)
        ensures
            r == self@,
    {
        self.0
    }

    /// Get value as microseconds.
    pub fn as_micros(&self) -> (r: u64)
        ensures
            r == (self@ as int) * (US as int),
    {
        proof {
            assert((self.0 as int) * (US as int) <= 0xffff * 0xffff_ffff) by (nonlinear_arith)
                requires
                    self.0 <= 0xffff,
                    US <= 0xffff_ffff,
            ;
        }
        (self.0 as u64) * (US as u64)
    }

    /// Get value as milliseconds.
    pub fn as_millis(&self) -> (r: u32)
        requires
            (self@ as int) * (US as int) / 1000 <= u32::MAX,
        ensures
            r == (self@ as int) * (US as int) / 1000,
    {
        (self.as_micros() / 1000) as u32
    }

    /// Get value as seconds.
    pub fn as_secs(&self) -> (r: u32)
        ensures
            r == (self@ as int) * (US as int) / 1_000_000,
    {
        let m = self.as_micros();
        proof {
            assert((self@ as int) * (US as int) <= 0xffff * 0xffff_ffff) by (nonlinear_arith)
                requires
                    self@ <= 0xffff,
                    US <= 0xffff_ffff,
            ;
            assert(m / 1_000_000 <= 0xffff * 0xffff_ffff / 1_000_000) by (nonlinear_arith)
                requires
                    m <= 0xffff * 0xffff_ffff,
            ;
        }
        (m / 1_000_000) as u32
    }
}

/// A duration built from microseconds is the largest whole number of time
/// units not above them: converting back gives the microseconds rounded down
/// to the time unit, and converting the result forward again changes nothing.
pub proof fn lemma_duration_micros<const US: u32>(d: Duration<US>, val: u64)
    requires
        US > 0,
        (val as int) / (US as int) <= u16::MAX,
        d@ == (val as int) / (US as int),
    ensures
        (d@ as int) * (US as int) <= val,
        val < ((d@ as int) + 1) * (US as int),
        ((d@ as int) * (US as int)) / (US as int) == d@,
{
    let q = (val as int) / (US as int);
    assert(q * (US as int) <= val && val < (q + 1) * (US as int)) by (nonlinear_arith)
        requires
            US > 0,
            q == (val as int) / (US as int),
    ;
    assert((q * (US as int)) / (US as int) == q) by (nonlinear_arith)
        requires
            US > 0,
    ;
}

impl<'de, const US: u32> FromHciBytes<'de> for Duration<US> {
    open spec fn spec_from_hci_bytes(data: Seq<u8>) -> Result<(u16, nat), FromHciBytesError> {
        <u16 as FromHciBytes<'de>>::spec_from_hci_bytes(data)
    }

    fn from_hci_bytes(data: &'de [u8]) -> (r: Result<(Duration<US>, &'de [u8]), FromHciBytesError>) {
        match <u16 as FromHciBytes<'de>>::from_hci_bytes(data) {
            Ok((v, rest)) => Ok((Duration(v), rest)),
            Err(e) => Err(e),
        }
    }
}

impl<const US: u32> WriteHci for Duration<US> {
    open spec fn spec_hci_bytes(&self) -> Seq<u8> {
        spec_u16_le_bytes(self@)
    }

    fn size(&self) -> (r: usize) {
        2
    }

    fn write_hci(&self, out: &mut Vec<u8>) {
        write_u16_le(self.0, out);
    }
}

impl<const US: u32> FixedSizeValue for Duration<US> {
    open spec fn spec_size() -> nat {
        2
    }

    proof fn lemma_fixed_size(&self) {
    }
}

impl<'de, const US: u32> HciCodec<'de> for Duration<US> {
    open spec fn spec_encodable(&self) -> bool {
        true
    }

    proof fn lemma_write_then_read(&self, rest: Seq<u8>) {
        lemma_u16_le_roundtrip(self@);
    }
}

/// The 24-bit value whose little-endian bytes are the first three of `s`.
pub open spec fn spec_le_u24(s: Seq<u8>) -> u32 {
    (s[0] as int + 256 * (s[1] as int + 256 * s[2] as int)) as u32
}

/// The little-endian bytes of a 24-bit value.
pub open spec fn spec_u24_le_bytes(x: u32) -> Seq<u8> {
    seq![(x % 256) as u8, ((x / 256) % 256) as u8, ((x / 65536) % 256) as u8]
}

/// A 24-bit isochronous duration. The `US` generic parameter indicates the
/// timebase in µs.
#[derive(Default, Debug, Clone, Copy, PartialEq, Eq, PartialOrd, Ord, Hash)]
pub struct ExtDuration<const US: u16>([u8; 3]);

impl<const US: u16> View for ExtDuration<US> {
    type V = u32;

    closed spec fn view(&self) -> u32 {
        spec_le_u24(self.0@)
    }
}

impl<const US: u16> ExtDuration<US> {
    /// The value is below 2^24.
    pub proof fn lemma_bound(&self)
        ensures
            self@ < 0x100_0000,
    {
    }

    /// Create a new instance from raw value.
    pub fn from_u32(val: u32) -> (r: Self)
        requires
            val < 0x100_0000,
        ensures
            r@ == val,
    {
        let r = ExtDuration([(val % 256) as u8, ((val / 256) % 256) as u8, (val / 65536) as u8]);
        proof {
            assert(r.0@ =~= seq![(val % 256) as u8, ((val / 256) % 256) as u8, (val / 65536) as u8]);
        }
        r
    }

    /// Create an instance from microseconds, or `None` where the count of
    /// `US` units does not fit in 24 bits.
    pub fn from_micros_checked(val: u64) -> (r: Option<Self>)
        requires
            US > 0,
        ensures
            match r {
                Some(d) => (val as int) / (US as int) < 0x100_0000 && d@ == (val as int) / (US as int),
                None => (val as int) / (US as int) >= 0x100_0000,
            },
    {
        if val / (US as u64) < 0x100_0000 {
            Some(Self::from_micros(val))
        } else {
            None
        }
    }

    /// Create an instance from an `embassy_time::Duration`: its microseconds
    /// in `US` units, or `None` where they do not fit.
    pub fn from_embassy(d: EmbassyDuration) -> (r: Option<Self>)
        requires
            US > 0,
        ensures
            exists|m: u64|
                #![trigger spec_units(m, US as int)]
                match r {
                    Some(v) => spec_units(m, US as int) < 0x100_0000 && v@ == spec_units(m, US as int),
                    None => spec_units(m, US as int) >= 0x100_0000,
                },
    {
        let micros = embassy_micros(d);
        let r = Self::from_micros_checked(micros);
        proof {
            assert(match r {
                Some(v) => spec_units(micros, US as int) < 0x100_0000 && v@ == spec_units(micros, US as int),
                None => spec_units(micros, US as int) >= 0x100_0000,
            });
        }
        r
    }

    /// Create an instance from microseconds.
    pub fn from_micros(val: u64) -> (r: Self)
        requires
            US > 0,
            (val as int) / (US as int) < 0x100_0000,
        ensures
            r@ == (val as int) / (US as int),
    {
        Self::from_u32((val / (US as u64)) as u32)
    }

    /// Create an instance from milliseconds.
    pub fn from_millis(val: u32) -> (r: Self)
        requires
            US > 0,
            (val as int) * 1000 / (US as int) < 0x100_0000,
        ensures
            r@ == (val as int) * 1000 / (US as int),
    {
        Self::from_micros((val as u64) * 1000)
    }

    /// Create an instance from seconds.
    pub fn from_secs(val: u32) -> (r: Self)
        requires
            US > 0,
            (val as int) * 1_000_000 / (US as int) < 0x100_0000,
        ensures
            r@ == (val as int) * 1_000_000 / (US as int),
    {
        Self::from_micros((val as u64) * 1_000_000)
    }

    /// Get value as microseconds.
    pub fn as_micros(&self) -> (r: u64)
        ensures
            r == (self@ as int) * (US as int),
    {
        let v: u64 = (self.0[0] as u64) + 256 * ((self.0[1] as u64) + 256 * (self.0[2] as u64));
        proof {
            assert((v as int) * (US as int) <= 0xff_ffff * 0xffff) by (nonlinear_arith)
                requires
                    v <= 0xff_ffff,
                    US <= 0xffff,
            ;
        }
        v * (US as u64)
    }

    /// Get value as milliseconds.
    pub fn as_millis(&self) -> (r: u32)
        ensures
            r == (self@ as int) * (US as int) / 1000,
    {
        let m = self.as_micros();
        proof {
            assert(self@ as int * (US as int) <= 0xff_ffff * 0xffff) by (nonlinear_arith)
                requires
                    self@ <= 0xff_ffff,
                    US <= 0xffff,
            ;
        }
        (m / 1000) as u32
    }

    /// Get value as seconds.
    pub fn as_secs(&self) -> (r: u32)
        ensures
            r == (self@ as int) * (US as int) / 1_000_000,
    {
        let m = self.as_micros();
        proof {
            assert(self@ as int * (US as int) <= 0xff_ffff * 0xffff) by (nonlinear_arith)
                requires
                    self@ <= 0xff_ffff,
                    US <= 0xffff,
            ;
        }
        (m / 1_000_000) as u32
    }
}

impl<'de, const US: u16> FromHciBytes<'de> for ExtDuration<US> {
    open spec fn spec_from_hci_bytes(data: Seq<u8>) -> Result<(u32, nat), FromHciBytesError> {
        if data.len() < 3 {
            Err(FromHciBytesError::InvalidSize)
        } else {
            Ok((spec_le_u24(data), 3))
        }
    }

    fn from_hci_bytes(data: &'de [u8]) -> (r: Result<(ExtDuration<US>, &'de [u8]), FromHciBytesError>) {
        match <[u8; 3] as FromHciBytes<'de>>::from_hci_bytes(data) {
            Ok((v, rest)) => Ok((ExtDuration(v), rest)),
            Err(e) => Err(e),
        }
    }
}

impl<const US: u16> WriteHci for ExtDuration<US> {
    open spec fn spec_hci_bytes(&self) -> Seq<u8> {
        spec_u24_le_bytes(self@)
    }

    fn size(&self) -> (r: usize) {
        3
    }

    fn write_hci(&self, out: &mut Vec<u8>) {
        self.0.write_hci(out);
        proof {
            assert(self.0@ =~= spec_u24_le_bytes(self@));
        }
    }
}

impl<const US: u16> FixedSizeValue for ExtDuration<US> {
    open spec fn spec_size() -> nat {
        3
    }

    proof fn lemma_fixed_size(&self) {
    }
}

impl<'de, const US: u16> HciCodec<'de> for ExtDuration<US> {
    open spec fn spec_encodable(&self) -> bool {
        true
    }

    proof fn lemma_write_then_read(&self, rest: Seq<u8>) {
        self.lemma_bound();
    }
}

/// DisconnectReason.
#[derive(Debug, Clone, Copy, PartialEq, Eq, PartialOrd, Ord, Hash, Structural)]
#[allow(missing_docs)]
pub enum DisconnectReason {
    AuthenticationFailure,
    RemoteUserTerminatedConn,
    RemoteDeviceTerminatedConnLowResources,
    RemoteDeviceTerminatedConnPowerOff,
    UnsupportedRemoteFeature,
    PairingWithUnitKeyNotSupported,
    UnacceptableConnParameters,
}

impl View for DisconnectReason {
    type V = DisconnectReason;

    open spec fn view(&self) -> DisconnectReason {
        *self
    }
}

impl DisconnectReason {
    /// The byte that encodes this value.
    pub open spec fn spec_raw(self) -> u8 {
        match self {
            DisconnectReason::AuthenticationFailure => 0x05u8,
            DisconnectReason::RemoteUserTerminatedConn => 0x13u8,
            DisconnectReason::RemoteDeviceTerminatedConnLowResources => 0x14u8,
            DisconnectReason::RemoteDeviceTerminatedConnPowerOff => 0x15u8,
            DisconnectReason::UnsupportedRemoteFeature => 0x1au8,
            DisconnectReason::PairingWithUnitKeyNotSupported => 0x29u8,
            DisconnectReason::UnacceptableConnParameters => 0x3bu8,
        }
    }

    /// The value that a byte encodes, if it encodes one.
    pub open spec fn spec_from_raw(b: u8) -> Option<DisconnectReason> {
        if b == 0x05u8 {
            Some(DisconnectReason::AuthenticationFailure)
        } else if b == 0x13u8 {
            Some(DisconnectReason::RemoteUserTerminatedConn)
        } else if b == 0x14u8 {
            Some(DisconnectReason::RemoteDeviceTerminatedConnLowResources)
        } else if b == 0x15u8 {
            Some(DisconnectReason::RemoteDeviceTerminatedConnPowerOff)
        } else if b == 0x1au8 {
            Some(DisconnectReason::UnsupportedRemoteFeature)
        } else if b == 0x29u8 {
            Some(DisconnectReason::PairingWithUnitKeyNotSupported)
        } else if b == 0x3bu8 {
            Some(DisconnectReason::UnacceptableConnParameters)
        } else {
            None
        }
    }

    /// The byte that encodes this value.
    pub fn into_raw(self) -> (r: u8)
        ensures
            r == self.spec_raw(),
    {
        match self {
            DisconnectReason::AuthenticationFailure => 0x05u8,
            DisconnectReason::RemoteUserTerminatedConn => 0x13u8,
            DisconnectReason::RemoteDeviceTerminatedConnLowResources => 0x14u8,
            DisconnectReason::RemoteDeviceTerminatedConnPowerOff => 0x15u8,
            DisconnectReason::UnsupportedRemoteFeature => 0x1au8,
            DisconnectReason::PairingWithUnitKeyNotSupported => 0x29u8,
            DisconnectReason::UnacceptableConnParameters => 0x3bu8,
        }
    }

    /// The byte of each value is fixed, each of those bytes decodes to its
    /// value, and no other byte decodes.
    pub proof fn lemma_codes()
        ensures
            DisconnectReason::AuthenticationFailure.spec_raw() == 0x05u8,
            DisconnectReason::RemoteUserTerminatedConn.spec_raw() == 0x13u8,
            DisconnectReason::RemoteDeviceTerminatedConnLowResources.spec_raw() == 0x14u8,
            DisconnectReason::RemoteDeviceTerminatedConnPowerOff.spec_raw() == 0x15u8,
            DisconnectReason::UnsupportedRemoteFeature.spec_raw() == 0x1au8,
            DisconnectReason::PairingWithUnitKeyNotSupported.spec_raw() == 0x29u8,
            DisconnectReason::UnacceptableConnParameters.spec_raw() == 0x3bu8,
            DisconnectReason::spec_from_raw(0x05u8) == Some(DisconnectReason::AuthenticationFailure),
            DisconnectReason::spec_from_raw(0x13u8) == Some(DisconnectReason::RemoteUserTerminatedConn),
            DisconnectReason::spec_from_raw(0x14u8) == Some(DisconnectReason::RemoteDeviceTerminatedConnLowResources),
            DisconnectReason::spec_from_raw(0x15u8) == Some(DisconnectReason::RemoteDeviceTerminatedConnPowerOff),
            DisconnectReason::spec_from_raw(0x1au8) == Some(DisconnectReason::UnsupportedRemoteFeature),
            DisconnectReason::spec_from_raw(0x29u8) == Some(DisconnectReason::PairingWithUnitKeyNotSupported),
            DisconnectReason::spec_from_raw(0x3bu8) == Some(DisconnectReason::UnacceptableConnParameters),
            forall|b: u8| b != 0x05u8 && b != 0x13u8 && b != 0x14u8 && b != 0x15u8 && b != 0x1au8 && b != 0x29u8 && b != 0x3bu8 ==> (#[trigger] DisconnectReason::spec_from_raw(b)) is None,
            forall|v: DisconnectReason| (#[trigger] v.spec_hci_bytes()) == seq![v.spec_raw()],
            forall|data: Seq<u8>| data.len() >= 1 ==> (#[trigger] <DisconnectReason as FromHciBytes>::spec_from_hci_bytes(data)) == match DisconnectReason::spec_from_raw(data[0]) {
                Some(v) => Ok::<(DisconnectReason, nat), FromHciBytesError>((v, 1)),
                None => Err::<(DisconnectReason, nat), FromHciBytesError>(FromHciBytesError::InvalidValue),
            },
    {
    }

    /// The value that a byte encodes, if it encodes one.
    pub fn from_raw(b: u8) -> (r: Option<DisconnectReason>)
        ensures
            r == Self::spec_from_raw(b),
    {
        match b {
            0x05u8 => Some(DisconnectReason::AuthenticationFailure),
            0x13u8 => Some(DisconnectReason::RemoteUserTerminatedConn),
            0x14u8 => Some(DisconnectReason::RemoteDeviceTerminatedConnLowResources),
            0x15u8 => Some(DisconnectReason::RemoteDeviceTerminatedConnPowerOff),
            0x1au8 => Some(DisconnectReason::UnsupportedRemoteFeature),
            0x29u8 => Some(DisconnectReason::PairingWithUnitKeyNotSupported),
            0x3bu8 => Some(DisconnectReason::UnacceptableConnParameters),
            _ => None,
        }
    }
}

impl<'de> FromHciBytes<'de> for DisconnectReason {
    open spec fn spec_from_hci_bytes(data: Seq<u8>) -> Result<(DisconnectReason, nat), FromHciBytesError> {
        if data.len() < 1 {
            Err(FromHciBytesError::InvalidSize)
        } else {
            match DisconnectReason::spec_from_raw(data[0]) {
                Some(v) => Ok((v, 1)),
                None => Err(FromHciBytesError::InvalidValue),
            }
        }
    }

    fn from_hci_bytes(data: &'de [u8]) -> (r: Result<(DisconnectReason, &'de [u8]), FromHciBytesError>) {
        if data.len() < 1 {
            return Err(FromHciBytesError::InvalidSize);
        }
        match DisconnectReason::from_raw(data[0]) {
            Some(v) => {
                let (_, rest) = data.split_at(1);
                Ok((v, rest))
            },
            None => Err(FromHciBytesError::InvalidValue),
        }
    }
}

impl WriteHci for DisconnectReason {
    open spec fn spec_hci_bytes(&self) -> Seq<u8> {
        seq![self.spec_raw()]
    }

    fn size(&self) -> (r: usize) {
        1
    }

    fn write_hci(&self, out: &mut Vec<u8>) {
        out.push(self.into_raw());
        proof {
            assert(final(out)@ =~= old(out)@ + self.spec_hci_bytes());
        }
    }
}

impl FixedSizeValue for DisconnectReason {
    open spec fn spec_size() -> nat {
        1
    }

    proof fn lemma_fixed_size(&self) {
    }
}

impl<'de> HciCodec<'de> for DisconnectReason {
    open spec fn spec_encodable(&self) -> bool {
        true
    }

    proof fn lemma_write_then_read(&self, rest: Seq<u8>) {
        match *self {
            DisconnectReason::AuthenticationFailure => {},
            DisconnectReason::RemoteUserTerminatedConn => {},
            DisconnectReason::RemoteDeviceTerminatedConnLowResources => {},
            DisconnectReason::RemoteDeviceTerminatedConnPowerOff => {},
            DisconnectReason::UnsupportedRemoteFeature => {},
            DisconnectReason::PairingWithUnitKeyNotSupported => {},
            DisconnectReason::UnacceptableConnParameters => {},
        }
    }
}

/// RemoteConnectionParamsRejectReason.
#[derive(Debug, Clone, Copy, PartialEq, Eq, PartialOrd, Ord, Hash, Structural)]
#[allow(missing_docs)]
pub enum RemoteConnectionParamsRejectReason {
    UnacceptableConnParameters,
}

impl View for RemoteConnectionParamsRejectReason {
    type V = RemoteConnectionParamsRejectReason;

    open spec fn view(&self) -> RemoteConnectionParamsRejectReason {
        *self
    }
}

impl RemoteConnectionParamsRejectReason {
    /// The byte that encodes this value.
    pub open spec fn spec_raw(self) -> u8 {
        match self {
            RemoteConnectionParamsRejectReason::UnacceptableConnParameters => 0x3bu8,
        }
    }

    /// The value that a byte encodes, if it encodes one.
    pub open spec fn spec_from_raw(b: u8) -> Option<RemoteConnectionParamsRejectReason> {
        if b == 0x3bu8 {
            Some(RemoteConnectionParamsRejectReason::UnacceptableConnParameters)
        } else {
            None
        }
    }

    /// The byte that encodes this value.
    pub fn into_raw(self) -> (r: u8)
        ensures
            r == self.spec_raw(),
    {
        match self {
            RemoteConnectionParamsRejectReason::UnacceptableConnParameters => 0x3bu8,
        }
    }

    /// The byte of each value is fixed, each of those bytes decodes to its
    /// value, and no other byte decodes.
    pub proof fn lemma_codes()
        ensures
            RemoteConnectionParamsRejectReason::UnacceptableConnParameters.spec_raw() == 0x3bu8,
            RemoteConnectionParamsRejectReason::spec_from_raw(0x3bu8) == Some(RemoteConnectionParamsRejectReason::UnacceptableConnParameters),
            forall|b: u8| b != 0x3bu8 ==> (#[trigger] RemoteConnectionParamsRejectReason::spec_from_raw(b)) is None,
            forall|v: RemoteConnectionParamsRejectReason| (#[trigger] v.spec_hci_bytes()) == seq![v.spec_raw()],
            forall|data: Seq<u8>| data.len() >= 1 ==> (#[trigger] <RemoteConnectionParamsRejectReason as FromHciBytes>::spec_from_hci_bytes(data)) == match RemoteConnectionParamsRejectReason::spec_from_raw(data[0]) {
                Some(v) => Ok::<(RemoteConnectionParamsRejectReason, nat), FromHciBytesError>((v, 1)),
                None => Err::<(RemoteConnectionParamsRejectReason, nat), FromHciBytesError>(FromHciBytesError::InvalidValue),
            },
    {
    }

    /// The value that a byte encodes, if it encodes one.
    pub fn from_raw(b: u8) -> (r: Option<RemoteConnectionParamsRejectReason>)
        ensures
            r == Self::spec_from_raw(b),
    {
        match b {
            0x3bu8 => Some(RemoteConnectionParamsRejectReason::UnacceptableConnParameters),
            _ => None,
        }
    }
}

impl<'de> FromHciBytes<'de> for RemoteConnectionParamsRejectReason {
    open spec fn spec_from_hci_bytes(data: Seq<u8>) -> Result<(RemoteConnectionParamsRejectReason, nat), FromHciBytesError> {
        if data.len() < 1 {
            Err(FromHciBytesError::InvalidSize)
        } else {
            match RemoteConnectionParamsRejectReason::spec_from_raw(data[0]) {
                Some(v) => Ok((v, 1)),
                None => Err(FromHciBytesError::InvalidValue),
            }
        }
    }

    fn from_hci_bytes(data: &'de [u8]) -> (r: Result<(RemoteConnectionParamsRejectReason, &'de [u8]), FromHciBytesError>) {
        if data.len() < 1 {
            return Err(FromHciBytesError::InvalidSize);
        }
        match RemoteConnectionParamsRejectReason::from_raw(data[0]) {
            Some(v) => {
                let (_, rest) = data.split_at(1);
                Ok((v, rest))
            },
            None => Err(FromHciBytesError::InvalidValue),
        }
    }
}

impl WriteHci for RemoteConnectionParamsRejectReason {
    open spec fn spec_hci_bytes(&self) -> Seq<u8> {
        seq![self.spec_raw()]
    }

    fn size(&self) -> (r: usize) {
        1
    }

    fn write_hci(&self, out: &mut Vec<u8>) {
        out.push(self.into_raw());
        proof {
            assert(final(out)@ =~= old(out)@ + self.spec_hci_bytes());
        }
    }
}

impl FixedSizeValue for RemoteConnectionParamsRejectReason {
    open spec fn spec_size() -> nat {
        1
    }

    proof fn lemma_fixed_size(&self) {
    }
}

impl<'de> HciCodec<'de> for RemoteConnectionParamsRejectReason {
    open spec fn spec_encodable(&self) -> bool {
        true
    }

    proof fn lemma_write_then_read(&self, rest: Seq<u8>) {
        match *self {
            RemoteConnectionParamsRejectReason::UnacceptableConnParameters => {},
        }
    }
}

/// PowerLevelKind.
#[derive(Debug, Clone, Copy, PartialEq, Eq, PartialOrd, Ord, Hash, Structural, Default)]
#[allow(missing_docs)]
pub enum PowerLevelKind {
    #[default]
    Current,
    Maximum,
}

impl View for PowerLevelKind {
    type V = PowerLevelKind;

    open spec fn view(&self) -> PowerLevelKind {
        *self
    }
}

impl PowerLevelKind {
    /// The byte that encodes this value.
    pub open spec fn spec_raw(self) -> u8 {
        match self {
            PowerLevelKind::Current => 0x00u8,
            PowerLevelKind::Maximum => 0x01u8,
        }
    }

    /// The value that a byte encodes, if it encodes one.
    pub open spec fn spec_from_raw(b: u8) -> Option<PowerLevelKind> {
        if b == 0x00u8 {
            Some(PowerLevelKind::Current)
        } else if b == 0x01u8 {
            Some(PowerLevelKind::Maximum)
        } else {
            None
        }
    }

    /// The byte that encodes this value.
    pub fn into_raw(self) -> (r: u8)
        ensures
            r == self.spec_raw(),
    {
        match self {
            PowerLevelKind::Current => 0x00u8,
            PowerLevelKind::Maximum => 0x01u8,
        }
    }

    /// The byte of each value is fixed, each of those bytes decodes to its
    /// value, and no other byte decodes.
    pub proof fn lemma_codes()
        ensures
            PowerLevelKind::Current.spec_raw() == 0x00u8,
            PowerLevelKind::Maximum.spec_raw() == 0x01u8,
            PowerLevelKind::spec_from_raw(0x00u8) == Some(PowerLevelKind::Current),
            PowerLevelKind::spec_from_raw(0x01u8) == Some(PowerLevelKind::Maximum),
            forall|b: u8| b != 0x00u8 && b != 0x01u8 ==> (#[trigger] PowerLevelKind::spec_from_raw(b)) is None,
            forall|v: PowerLevelKind| (#[trigger] v.spec_hci_bytes()) == seq![v.spec_raw()],
            forall|data: Seq<u8>| data.len() >= 1 ==> (#[trigger] <PowerLevelKind as FromHciBytes>::spec_from_hci_bytes(data)) == match PowerLevelKind::spec_from_raw(data[0]) {
                Some(v) => Ok::<(PowerLevelKind, nat), FromHciBytesError>((v, 1)),
                None => Err::<(PowerLevelKind, nat), FromHciBytesError>(FromHciBytesError::InvalidValue),
            },
    {
    }

    /// The value that a byte encodes, if it encodes one.
    pub fn from_raw(b: u8) -> (r: Option<PowerLevelKind>)
        ensures
            r == Self::spec_from_raw(b),
    {
        match b {
            0x00u8 => Some(PowerLevelKind::Current),
            0x01u8 => Some(PowerLevelKind::Maximum),
            _ => None,
        }
    }
}

impl<'de> FromHciBytes<'de> for PowerLevelKind {
    open spec fn spec_from_hci_bytes(data: Seq<u8>) -> Result<(PowerLevelKind, nat), FromHciBytesError> {
        if data.len() < 1 {
            Err(FromHciBytesError::InvalidSize)
        } else {
            match PowerLevelKind::spec_from_raw(data[0]) {
                Some(v) => Ok((v, 1)),
                None => Err(FromHciBytesError::InvalidValue),
            }
        }
    }

    fn from_hci_bytes(data: &'de [u8]) -> (r: Result<(PowerLevelKind, &'de [u8]), FromHciBytesError>) {
        if data.len() < 1 {
            return Err(FromHciBytesError::InvalidSize);
        }
        match PowerLevelKind::from_raw(data[0]) {
            Some(v) => {
                let (_, rest) = data.split_at(1);
                Ok((v, rest))
            },
            None => Err(FromHciBytesError::InvalidValue),
        }
    }
}

impl WriteHci for PowerLevelKind {
    open spec fn spec_hci_bytes(&self) -> Seq<u8> {
        seq![self.spec_raw()]
    }

    fn size(&self) -> (r: usize) {
        1
    }

    fn write_hci(&self, out: &mut Vec<u8>) {
        out.push(self.into_raw());
        proof {
            assert(final(out)@ =~= old(out)@ + self.spec_hci_bytes());
        }
    }
}

impl FixedSizeValue for PowerLevelKind {
    open spec fn spec_size() -> nat {
        1
    }

    proof fn lemma_fixed_size(&self) {
    }
}

impl<'de> HciCodec<'de> for PowerLevelKind {
    open spec fn spec_encodable(&self) -> bool {
        true
    }

    proof fn lemma_write_then_read(&self, rest: Seq<u8>) {
        match *self {
            PowerLevelKind::Current => {},
            PowerLevelKind::Maximum => {},
        }
    }
}

/// ControllerToHostFlowControl.
#[derive(Debug, Clone, Copy, PartialEq, Eq, PartialOrd, Ord, Hash, Structural, Default)]
#[allow(missing_docs)]
pub enum ControllerToHostFlowControl {
    #[default]
    Off,
    AclOnSyncOff,
    AclOffSyncOn,
    BothOn,
}

impl View for ControllerToHostFlowControl {
    type V = ControllerToHostFlowControl;

    open spec fn view(&self) -> ControllerToHostFlowControl {
        *self
    }
}

impl ControllerToHostFlowControl {
    /// The byte that encodes this value.
    pub open spec fn spec_raw(self) -> u8 {
        match self {
            ControllerToHostFlowControl::Off => 0x00u8,
            ControllerToHostFlowControl::AclOnSyncOff => 0x01u8,
            ControllerToHostFlowControl::AclOffSyncOn => 0x02u8,
            ControllerToHostFlowControl::BothOn => 0x03u8,
        }
    }

    /// The value that a byte encodes, if it encodes one.
    pub open spec fn spec_from_raw(b: u8) -> Option<ControllerToHostFlowControl> {
        if b == 0x00u8 {
            Some(ControllerToHostFlowControl::Off)
        } else if b == 0x01u8 {
            Some(ControllerToHostFlowControl::AclOnSyncOff)
        } else if b == 0x02u8 {
            Some(ControllerToHostFlowControl::AclOffSyncOn)
        } else if b == 0x03u8 {
            Some(ControllerToHostFlowControl::BothOn)
        } else {
            None
        }
    }

    /// The byte that encodes this value.
    pub fn into_raw(self) -> (r: u8)
        ensures
            r == self.spec_raw(),
    {
        match self {
            ControllerToHostFlowControl::Off => 0x00u8,
            ControllerToHostFlowControl::AclOnSyncOff => 0x01u8,
            ControllerToHostFlowControl::AclOffSyncOn => 0x02u8,
            ControllerToHostFlowControl::BothOn => 0x03u8,
        }
    }

    /// The byte of each value is fixed, each of those bytes decodes to its
    /// value, and no other byte decodes.
    pub proof fn lemma_codes()
        ensures
            ControllerToHostFlowControl::Off.spec_raw() == 0x00u8,
            ControllerToHostFlowControl::AclOnSyncOff.spec_raw() == 0x01u8,
            ControllerToHostFlowControl::AclOffSyncOn.spec_raw() == 0x02u8,
            ControllerToHostFlowControl::BothOn.spec_raw() == 0x03u8,
            ControllerToHostFlowControl::spec_from_raw(0x00u8) == Some(ControllerToHostFlowControl::Off),
            ControllerToHostFlowControl::spec_from_raw(0x01u8) == Some(ControllerToHostFlowControl::AclOnSyncOff),
            ControllerToHostFlowControl::spec_from_raw(0x02u8) == Some(ControllerToHostFlowControl::AclOffSyncOn),
            ControllerToHostFlowControl::spec_from_raw(0x03u8) == Some(ControllerToHostFlowControl::BothOn),
            forall|b: u8| b != 0x00u8 && b != 0x01u8 && b != 0x02u8 && b != 0x03u8 ==> (#[trigger] ControllerToHostFlowControl::spec_from_raw(b)) is None,
            forall|v: ControllerToHostFlowControl| (#[trigger] v.spec_hci_bytes()) == seq![v.spec_raw()],
            forall|data: Seq<u8>| data.len() >= 1 ==> (#[trigger] <ControllerToHostFlowControl as FromHciBytes>::spec_from_hci_bytes(data)) == match ControllerToHostFlowControl::spec_from_raw(data[0]) {
                Some(v) => Ok::<(ControllerToHostFlowControl, nat), FromHciBytesError>((v, 1)),
                None => Err::<(ControllerToHostFlowControl, nat), FromHciBytesError>(FromHciBytesError::InvalidValue),
            },
    {
    }

    /// The value that a byte encodes, if it encodes one.
    pub fn from_raw(b: u8) -> (r: Option<ControllerToHostFlowControl>)
        ensures
            r == Self::spec_from_raw(b),
    {
        match b {
            0x00u8 => Some(ControllerToHostFlowControl::Off),
            0x01u8 => Some(ControllerToHostFlowControl::AclOnSyncOff),
            0x02u8 => Some(ControllerToHostFlowControl::AclOffSyncOn),
            0x03u8 => Some(ControllerToHostFlowControl::BothOn),
            _ => None,
        }
    }
}

impl<'de> FromHciBytes<'de> for ControllerToHostFlowControl {
    open spec fn spec_from_hci_bytes(data: Seq<u8>) -> Result<(ControllerToHostFlowControl, nat), FromHciBytesError> {
        if data.len() < 1 {
            Err(FromHciBytesError::InvalidSize)
        } else {
            match ControllerToHostFlowControl::spec_from_raw(data[0]) {
                Some(v) => Ok((v, 1)),
                None => Err(FromHciBytesError::InvalidValue),
            }
        }
    }

    fn from_hci_bytes(data: &'de [u8]) -> (r: Result<(ControllerToHostFlowControl, &'de [u8]), FromHciBytesError>) {
        if data.len() < 1 {
            return Err(FromHciBytesError::InvalidSize);
        }
        match ControllerToHostFlowControl::from_raw(data[0]) {
            Some(v) => {
                let (_, rest) = data.split_at(1);
                Ok((v, rest))
            },
            None => Err(FromHciBytesError::InvalidValue),
        }
    }
}

impl WriteHci for ControllerToHostFlowControl {
    open spec fn spec_hci_bytes(&self) -> Seq<u8> {
        seq![self.spec_raw()]
    }

    fn size(&self) -> (r: usize) {
        1
    }

    fn write_hci(&self, out: &mut Vec<u8>) {
        out.push(self.into_raw());
        proof {
            assert(final(out)@ =~= old(out)@ + self.spec_hci_bytes());
        }
    }
}

impl FixedSizeValue for ControllerToHostFlowControl {
    open spec fn spec_size() -> nat {
        1
    }

    proof fn lemma_fixed_size(&self) {
    }
}

impl<'de> HciCodec<'de> for ControllerToHostFlowControl {
    open spec fn spec_encodable(&self) -> bool {
        true
    }

    proof fn lemma_write_then_read(&self, rest: Seq<u8>) {
        match *self {
            ControllerToHostFlowControl::Off => {},
            ControllerToHostFlowControl::AclOnSyncOff => {},
            ControllerToHostFlowControl::AclOffSyncOn => {},
            ControllerToHostFlowControl::BothOn => {},
        }
    }
}

/// A disconnection reason is an HCI error code: each reason is sent as the
/// status code of the same name, and a received status code that names a
/// reason decodes to that reason. The same holds of the reason for
/// rejecting connection parameters.
pub proof fn lemma_reasons_are_status_codes()
    ensures
        DisconnectReason::AuthenticationFailure.spec_raw() == crate::param::status::AUTHENTICATION_FAILURE,
        DisconnectReason::RemoteUserTerminatedConn.spec_raw() == crate::param::status::REMOTE_USER_TERMINATED_CONN,
        DisconnectReason::RemoteDeviceTerminatedConnLowResources.spec_raw()
            == crate::param::status::REMOTE_DEVICE_TERMINATED_CONN_LOW_RESOURCES,
        DisconnectReason::RemoteDeviceTerminatedConnPowerOff.spec_raw()
            == crate::param::status::REMOTE_DEVICE_TERMINATED_CONN_POWER_OFF,
        DisconnectReason::UnsupportedRemoteFeature.spec_raw() == crate::param::status::UNSUPPORTED_REMOTE_FEATURE,
        DisconnectReason::PairingWithUnitKeyNotSupported.spec_raw()
            == crate::param::status::PAIRING_WITH_UNIT_KEY_NOT_SUPPORTED,
        DisconnectReason::UnacceptableConnParameters.spec_raw() == crate::param::status::UNACCEPTABLE_CONN_PARAMETERS,
        RemoteConnectionParamsRejectReason::UnacceptableConnParameters.spec_raw()
            == crate::param::status::UNACCEPTABLE_CONN_PARAMETERS,
        forall|r: DisconnectReason| DisconnectReason::spec_from_raw(#[trigger] r.spec_raw()) == Some(r),
        forall|b: u8| #[trigger] DisconnectReason::spec_from_raw(b) matches Some(r) ==> r.spec_raw() == b,
{
    assert forall|r: DisconnectReason| DisconnectReason::spec_from_raw(#[trigger] r.spec_raw()) == Some(r) by {
        match r {
            DisconnectReason::AuthenticationFailure => {},
            DisconnectReason::RemoteUserTerminatedConn => {},
            DisconnectReason::RemoteDeviceTerminatedConnLowResources => {},
            DisconnectReason::RemoteDeviceTerminatedConnPowerOff => {},
            DisconnectReason::UnsupportedRemoteFeature => {},
            DisconnectReason::PairingWithUnitKeyNotSupported => {},
            DisconnectReason::UnacceptableConnParameters => {},
        }
    }
}

/// CoreSpecificationVersion
#[derive(Debug, Clone, Copy, PartialEq, Eq, PartialOrd, Ord, Hash, Default)]
pub struct CoreSpecificationVersion(u8);

impl View for CoreSpecificationVersion {
    type V = u8;

    closed spec fn view(&self) -> u8 {
        self.0@
    }
}

impl CoreSpecificationVersion {
    /// Get inner representation
    pub fn into_inner(self) -> (r: u8)
        ensures
            r@ == self@,
    {
        self.0
    }

    /// A `CoreSpecificationVersion` is written and read as its inner value.
    pub proof fn lemma_as_inner(data: Seq<u8>)
        ensures
            forall|v: CoreSpecificationVersion| (#[trigger] v.spec_hci_bytes()) == v@.spec_hci_bytes(),
            <CoreSpecificationVersion as FromHciBytes>::spec_from_hci_bytes(data) == <u8 as FromHciBytes>::spec_from_hci_bytes(data),
    {
    }
}

impl<'de> FromHciBytes<'de> for CoreSpecificationVersion {
    open spec fn spec_from_hci_bytes(data: Seq<u8>) -> Result<(u8, nat), FromHciBytesError> {
        <u8 as FromHciBytes<'de>>::spec_from_hci_bytes(data)
    }

    fn from_hci_bytes(data: &'de [u8]) -> (r: Result<(CoreSpecificationVersion, &'de [u8]), FromHciBytesError>) {
        match <u8 as FromHciBytes<'de>>::from_hci_bytes(data) {
            Ok((v, rest)) => Ok((CoreSpecificationVersion(v), rest)),
            Err(e) => Err(e),
        }
    }
}

impl WriteHci for CoreSpecificationVersion {
    open spec fn spec_hci_bytes(&self) -> Seq<u8> {
        seq![self@]
    }

    fn size(&self) -> (r: usize) {
        self.0.size()
    }

    fn write_hci(&self, out: &mut Vec<u8>) {
        self.0.write_hci(out);
    }
}

impl FixedSizeValue for CoreSpecificationVersion {
    open spec fn spec_size() -> nat {
        1
    }

    proof fn lemma_fixed_size(&self) {
        self.0.lemma_fixed_size();
    }
}

impl<'de> HciCodec<'de> for CoreSpecificationVersion {
    open spec fn spec_encodable(&self) -> bool {
        true
    }

    proof fn lemma_write_then_read(&self, rest: Seq<u8>) {
        self.0.lemma_write_then_read(rest);
    }
}

/// LinkType.
#[derive(Debug, Clone, Copy, PartialEq, Eq, PartialOrd, Ord, Hash, Structural, Default)]
#[allow(missing_docs)]
pub enum LinkType {
    #[default]
    SyncData,
    AclData,
    IsoData,
}

impl View for LinkType {
    type V = LinkType;

    open spec fn view(&self) -> LinkType {
        *self
    }
}

impl LinkType {
    /// The byte that encodes this value.
    pub open spec fn spec_raw(self) -> u8 {
        match self {
            LinkType::SyncData => 0x00u8,
            LinkType::AclData => 0x01u8,
            LinkType::IsoData => 0x02u8,
        }
    }

    /// The value that a byte encodes, if it encodes one.
    pub open spec fn spec_from_raw(b: u8) -> Option<LinkType> {
        if b == 0x00u8 {
            Some(LinkType::SyncData)
        } else if b == 0x01u8 {
            Some(LinkType::AclData)
        } else if b == 0x02u8 {
            Some(LinkType::IsoData)
        } else {
            None
        }
    }

    /// The byte that encodes this value.
    pub fn into_raw(self) -> (r: u8)
        ensures
            r == self.spec_raw(),
    {
        match self {
            LinkType::SyncData => 0x00u8,
            LinkType::AclData => 0x01u8,
            LinkType::IsoData => 0x02u8,
        }
    }

    /// The byte of each value is fixed, each of those bytes decodes to its
    /// value, and no other byte decodes.
    pub proof fn lemma_codes()
        ensures
            LinkType::SyncData.spec_raw() == 0x00u8,
            LinkType::AclData.spec_raw() == 0x01u8,
            LinkType::IsoData.spec_raw() == 0x02u8,
            LinkType::spec_from_raw(0x00u8) == Some(LinkType::SyncData),
            LinkType::spec_from_raw(0x01u8) == Some(LinkType::AclData),
            LinkType::spec_from_raw(0x02u8) == Some(LinkType::IsoData),
            forall|b: u8| b != 0x00u8 && b != 0x01u8 && b != 0x02u8 ==> (#[trigger] LinkType::spec_from_raw(b)) is None,
            forall|v: LinkType| (#[trigger] v.spec_hci_bytes()) == seq![v.spec_raw()],
            forall|data: Seq<u8>| data.len() >= 1 ==> (#[trigger] <LinkType as FromHciBytes>::spec_from_hci_bytes(data)) == match LinkType::spec_from_raw(data[0]) {
                Some(v) => Ok::<(LinkType, nat), FromHciBytesError>((v, 1)),
                None => Err::<(LinkType, nat), FromHciBytesError>(FromHciBytesError::InvalidValue),
            },
    {
    }

    /// The value that a byte encodes, if it encodes one.
    pub fn from_raw(b: u8) -> (r: Option<LinkType>)
        ensures
            r == Self::spec_from_raw(b),
    {
        match b {
            0x00u8 => Some(LinkType::SyncData),
            0x01u8 => Some(LinkType::AclData),
            0x02u8 => Some(LinkType::IsoData),
            _ => None,
        }
    }
}

impl<'de> FromHciBytes<'de> for LinkType {
    open spec fn spec_from_hci_bytes(data: Seq<u8>) -> Result<(LinkType, nat), FromHciBytesError> {
        if data.len() < 1 {
            Err(FromHciBytesError::InvalidSize)
        } else {
            match LinkType::spec_from_raw(data[0]) {
                Some(v) => Ok((v, 1)),
                None => Err(FromHciBytesError::InvalidValue),
            }
        }
    }

    fn from_hci_bytes(data: &'de [u8]) -> (r: Result<(LinkType, &'de [u8]), FromHciBytesError>) {
        if data.len() < 1 {
            return Err(FromHciBytesError::InvalidSize);
        }
        match LinkType::from_raw(data[0]) {
            Some(v) => {
                let (_, rest) = data.split_at(1);
                Ok((v, rest))
            },
            None => Err(FromHciBytesError::InvalidValue),
        }
    }
}

impl WriteHci for LinkType {
    open spec fn spec_hci_bytes(&self) -> Seq<u8> {
        seq![self.spec_raw()]
    }

    fn size(&self) -> (r: usize) {
        1
    }

    fn write_hci(&self, out: &mut Vec<u8>) {
        out.push(self.into_raw());
        proof {
            assert(final(out)@ =~= old(out)@ + self.spec_hci_bytes());
        }
    }
}

impl FixedSizeValue for LinkType {
    open spec fn spec_size() -> nat {
        1
    }

    proof fn lemma_fixed_size(&self) {
    }
}

impl<'de> HciCodec<'de> for LinkType {
    open spec fn spec_encodable(&self) -> bool {
        true
    }

    proof fn lemma_write_then_read(&self, rest: Seq<u8>) {
        match *self {
            LinkType::SyncData => {},
            LinkType::AclData => {},
            LinkType::IsoData => {},
        }
    }
}

/// ConnHandleCompletedPackets
#[derive(Default, Debug, Clone, Copy, PartialEq, Eq, PartialOrd, Ord, Hash)]
pub struct ConnHandleCompletedPackets([u8; 4]);

impl View for ConnHandleCompletedPackets {
    type V = Seq<u8>;

    closed spec fn view(&self) -> Seq<u8> {
        self.0@
    }
}

impl ConnHandleCompletedPackets {
    /// Create a new instance.
    pub fn new(handle: ConnHandle, num_completed_packets: u16) -> (r: Self)
        ensures
            r@ == handle.spec_hci_bytes() + num_completed_packets.spec_hci_bytes(),
    {
        let h = handle.raw();
        let dest = [
            (h % 256) as u8,
            (h / 256) as u8,
            (num_completed_packets % 256) as u8,
            (num_completed_packets / 256) as u8,
        ];
        let r = ConnHandleCompletedPackets(dest);
        proof {
            assert(r@ =~= handle.spec_hci_bytes() + num_completed_packets.spec_hci_bytes());
        }
        r
    }

    /// Get value of handle
    pub fn handle(&self) -> (r: Result<ConnHandle, FromHciBytesError>)
        ensures
            r matches Ok(h) && h@ == spec_le_u16(self@[0], self@[1]),
    {
        let bytes = self.0.as_slice();
        match ConnHandle::from_hci_bytes(bytes) {
            Ok((h, _)) => Ok(h),
            Err(e) => Err(e),
        }
    }

    /// Get value of num_completed_packets
    pub fn num_completed_packets(&self) -> (r: Result<u16, FromHciBytesError>)
        ensures
            r matches Ok(n) && n == spec_le_u16(self@[2], self@[3]),
    {
        let (_, bytes) = self.0.as_slice().split_at(2);
        match <u16 as FromHciBytes>::from_hci_bytes(bytes) {
            Ok((n, _)) => Ok(n),
            Err(e) => Err(e),
        }
    }
}

/// The fields of a completed-packets entry read back what it was built from.
pub proof fn lemma_conn_handle_completed_packets(handle: ConnHandle, n: u16)
    ensures
        ({
            let bytes = handle.spec_hci_bytes() + n.spec_hci_bytes();
            spec_le_u16(bytes[0], bytes[1]) == handle@ && spec_le_u16(bytes[2], bytes[3]) == n
        }),
{
    lemma_u16_le_roundtrip(handle@);
    lemma_u16_le_roundtrip(n);
}

} // verus!
