//! Parameters of the Bluetooth Low Energy commands and events.

use vstd::prelude::*;

use crate::{FixedSizeValue, FromHciBytes, FromHciBytesError, HciCodec, WriteHci, parsed, failed, lemma_skip_skip};
use crate::param::{BdAddr, ConnHandle, Duration, RemainingBytes};
use crate::param::bits::{bit_is_set, spec_bit, spec_with_bit, with_bit, lemma_with_bit};
use crate::param::primitives::{spec_u16_le_bytes, spec_le_u16, spec_i8_of, lemma_u16_le_roundtrip, write_u16_le};

verus! {

/// AddrKind
#[derive(Debug, Clone, Copy, PartialEq, Eq, PartialOrd, Ord, Hash, Default)]
pub struct AddrKind(u8);

impl View for AddrKind {
    type V = u8;

    closed spec fn view(&self) -> u8 {
        self.0@
    }
}

impl AddrKind {
    /// Get inner representation
    pub fn into_inner(self) -> (r: u8)
        ensures
            r@ == self@,
    {
        self.0
    }

    /// A `AddrKind` is written and read as its inner value.
    pub proof fn lemma_as_inner(data: Seq<u8>)
        ensures
            forall|v: AddrKind| (#[trigger] v.spec_hci_bytes()) == v@.spec_hci_bytes(),
            <AddrKind as FromHciBytes>::spec_from_hci_bytes(data) == <u8 as FromHciBytes>::spec_from_hci_bytes(data),
    {
    }
}

impl<'de> FromHciBytes<'de> for AddrKind {
    open spec fn spec_from_hci_bytes(data: Seq<u8>) -> Result<(u8, nat), FromHciBytesError> {
        <u8 as FromHciBytes<'de>>::spec_from_hci_bytes(data)
    }

    fn from_hci_bytes(data: &'de [u8]) -> (r: Result<(AddrKind, &'de [u8]), FromHciBytesError>) {
        match <u8 as FromHciBytes<'de>>::from_hci_bytes(data) {
            Ok((v, rest)) => Ok((AddrKind(v), rest)),
            Err(e) => Err(e),
        }
    }
}

impl WriteHci for AddrKind {
    open spec fn spec_hci_bytes(&self) -> Seq<u8> {
        seq![self@]
    }

    fn size(&self) -> (r: usize) {
        self.0.size()
    }

    fn write_hci(&self, out: &mut Vec<u8>) {
        self.0.write_hci(out);
    }
}

impl FixedSizeValue for AddrKind {
    open spec fn spec_size() -> nat {
        1
    }

    proof fn lemma_fixed_size(&self) {
        self.0.lemma_fixed_size();
    }
}

impl<'de> HciCodec<'de> for AddrKind {
    open spec fn spec_encodable(&self) -> bool {
        true
    }

    proof fn lemma_write_then_read(&self, rest: Seq<u8>) {
        self.0.lemma_write_then_read(rest);
    }
}

impl AddrKind {
    /// Create a new instance.
    pub fn new(v: u8) -> (r: Self)
        ensures
            r@ == v,
    {
        AddrKind(v)
    }

    /// Get the inner representation.
    pub fn as_raw(&self) -> (r: u8)
        ensures
            r == self@,
    {
        self.0
    }
}

/// AdvChannelMap
#[derive(Debug, Clone, Copy, PartialEq, Eq, PartialOrd, Ord, Hash, Default)]
pub struct AdvChannelMap(u8);

impl View for AdvChannelMap {
    type V = u8;

    closed spec fn view(&self) -> u8 {
        self.0@
    }
}

impl AdvChannelMap {
    /// Create a new instance with every bit clear.
    pub fn new() -> (r: Self)
        ensures
            r@ == 0u8,
    {
        AdvChannelMap(0u8)
    }

    /// Get the inner representation.
    pub fn into_inner(self) -> (r: u8)
        ensures
            r@ == self@,
    {
        self.0
    }

    /// Whether bit 0 is set.
    pub fn is_channel_37_enabled(&self) -> (r: bool)
        ensures
            r == spec_bit(self@, 0u8),
    {
        bit_is_set(self.0, 0u8)
    }

    /// Set bit 0 to `val`.
    pub fn enable_channel_37(self, val: bool) -> (r: Self)
        ensures
            r@ == spec_with_bit(self@, 0u8, val),
    {
        AdvChannelMap(with_bit(self.0, 0u8, val))
    }

    /// Whether bit 1 is set.
    pub fn is_channel_38_enabled(&self) -> (r: bool)
        ensures
            r == spec_bit(self@, 1u8),
    {
        bit_is_set(self.0, 1u8)
    }

    /// Set bit 1 to `val`.
    pub fn enable_channel_38(self, val: bool) -> (r: Self)
        ensures
            r@ == spec_with_bit(self@, 1u8, val),
    {
        AdvChannelMap(with_bit(self.0, 1u8, val))
    }

    /// Whether bit 2 is set.
    pub fn is_channel_39_enabled(&self) -> (r: bool)
        ensures
            r == spec_bit(self@, 2u8),
    {
        bit_is_set(self.0, 2u8)
    }

    /// Set bit 2 to `val`.
    pub fn enable_channel_39(self, val: bool) -> (r: Self)
        ensures
            r@ == spec_with_bit(self@, 2u8, val),
    {
        AdvChannelMap(with_bit(self.0, 2u8, val))
    }
}

impl<'de> FromHciBytes<'de> for AdvChannelMap {
    open spec fn spec_from_hci_bytes(data: Seq<u8>) -> Result<(u8, nat), FromHciBytesError> {
        <u8 as FromHciBytes<'de>>::spec_from_hci_bytes(data)
    }

    fn from_hci_bytes(data: &'de [u8]) -> (r: Result<(AdvChannelMap, &'de [u8]), FromHciBytesError>) {
        match <u8 as FromHciBytes<'de>>::from_hci_bytes(data) {
            Ok((v, rest)) => Ok((AdvChannelMap(v), rest)),
            Err(e) => Err(e),
        }
    }
}

impl WriteHci for AdvChannelMap {
    open spec fn spec_hci_bytes(&self) -> Seq<u8> {
        seq![self@]
    }

    fn size(&self) -> (r: usize) {
        self.0.size()
    }

    fn write_hci(&self, out: &mut Vec<u8>) {
        self.0.write_hci(out);
    }
}

impl FixedSizeValue for AdvChannelMap {
    open spec fn spec_size() -> nat {
        1
    }

    proof fn lemma_fixed_size(&self) {
        self.0.lemma_fixed_size();
    }
}

impl<'de> HciCodec<'de> for AdvChannelMap {
    open spec fn spec_encodable(&self) -> bool {
        true
    }

    proof fn lemma_write_then_read(&self, rest: Seq<u8>) {
        self.0.lemma_write_then_read(rest);
    }
}

/// ChannelMap
#[derive(Debug, Clone, Copy, PartialEq, Eq, PartialOrd, Ord, Hash, Default)]
pub struct ChannelMap([u8; 5]);

impl View for ChannelMap {
    type V = Seq<u8>;

    closed spec fn view(&self) -> Seq<u8> {
        self.0@
    }
}

impl ChannelMap {
    /// Get inner representation
    pub fn into_inner(self) -> (r: [u8; 5])
        ensures
            r@ == self@,
    {
        self.0
    }

    /// A `ChannelMap` is written and read as its inner value.
    pub proof fn lemma_as_inner(data: Seq<u8>)
        ensures
            forall|v: ChannelMap| (#[trigger] v.spec_hci_bytes()) == v@,
            <ChannelMap as FromHciBytes>::spec_from_hci_bytes(data) == <[u8; 5] as FromHciBytes>::spec_from_hci_bytes(data),
    {
    }

    /// The representation has one byte per octet.
    pub proof fn lemma_len(&self)
        ensures
            self@.len() == 5,
    {
    }
}

impl<'de> FromHciBytes<'de> for ChannelMap {
    open spec fn spec_from_hci_bytes(data: Seq<u8>) -> Result<(Seq<u8>, nat), FromHciBytesError> {
        <[u8; 5] as FromHciBytes<'de>>::spec_from_hci_bytes(data)
    }

    fn from_hci_bytes(data: &'de [u8]) -> (r: Result<(ChannelMap, &'de [u8]), FromHciBytesError>) {
        match <[u8; 5] as FromHciBytes<'de>>::from_hci_bytes(data) {
            Ok((v, rest)) => Ok((ChannelMap(v), rest)),
            Err(e) => Err(e),
        }
    }
}

impl WriteHci for ChannelMap {
    open spec fn spec_hci_bytes(&self) -> Seq<u8> {
        self@
    }

    fn size(&self) -> (r: usize) {
        self.0.size()
    }

    fn write_hci(&self, out: &mut Vec<u8>) {
        self.0.write_hci(out);
    }
}

impl FixedSizeValue for ChannelMap {
    open spec fn spec_size() -> nat {
        5
    }

    proof fn lemma_fixed_size(&self) {
        self.0.lemma_fixed_size();
    }
}

impl<'de> HciCodec<'de> for ChannelMap {
    open spec fn spec_encodable(&self) -> bool {
        true
    }

    proof fn lemma_write_then_read(&self, rest: Seq<u8>) {
        self.0.lemma_write_then_read(rest);
    }
}

/// Whether `channel` is marked bad in the channel map bytes `m` (a clear
/// bit marks a bad channel).
pub open spec fn spec_is_channel_bad(m: Seq<u8>, channel: u8) -> bool {
    !spec_bit(m[(channel / 8) as int], channel % 8)
}

/// The channel map bytes `m` with `channel` marked as bad or good.
pub open spec fn spec_set_channel_bad(m: Seq<u8>, channel: u8, bad: bool) -> Seq<u8> {
    m.update((channel / 8) as int, spec_with_bit(m[(channel / 8) as int], channel % 8, !bad))
}

impl ChannelMap {
    /// Create a new instance: channels 0 to 36 good, 37 to 39 bad.
    pub fn new() -> (r: Self)
        ensures
            r@ == seq![0xffu8, 0xffu8, 0xffu8, 0xffu8, 0x1fu8],
    {
        let r = ChannelMap([0xff, 0xff, 0xff, 0xff, 0x1f]);
        proof {
            assert(r@ =~= seq![0xffu8, 0xffu8, 0xffu8, 0xffu8, 0x1fu8]);
        }
        r
    }

    /// Check if channel is marked as bad.
    pub fn is_channel_bad(&self, channel: u8) -> (r: bool)
        requires
            channel < 40,
        ensures
            r == spec_is_channel_bad(self@, channel),
    {
        let byte = (channel / 8) as usize;
        let bit = channel % 8;
        !bit_is_set(self.0[byte], bit)
    }

    /// Set channel to be marked as bad.
    pub fn set_channel_bad(&mut self, channel: u8, bad: bool)
        requires
            channel < 40,
        ensures
            final(self)@ == spec_set_channel_bad(old(self)@, channel, bad),
    {
        let byte = (channel / 8) as usize;
        let bit = channel % 8;
        let b = with_bit(self.0[byte], bit, !bad);
        self.0[byte] = b;
        proof {
            assert(final(self)@ =~= spec_set_channel_bad(old(self)@, channel, bad));
        }
    }
}

/// Marking a channel gives it the mark asked for and leaves every other
/// channel as it was.
pub proof fn lemma_set_channel_bad(m: ChannelMap, channel: u8, bad: bool, other: u8)
    requires
        channel < 40,
        other < 40,
    ensures
        spec_is_channel_bad(spec_set_channel_bad(m@, channel, bad), channel) == bad,
        other != channel ==> spec_is_channel_bad(spec_set_channel_bad(m@, channel, bad), other)
            == spec_is_channel_bad(m@, other),
{
    m.lemma_len();
    lemma_with_bit(m@[(channel / 8) as int], channel % 8, !bad);
    if other != channel && other / 8 == channel / 8 {
        assert(other % 8 != channel % 8);
    }
}

/// AdvKind.
#[derive(Debug, Clone, Copy, PartialEq, Eq, PartialOrd, Ord, Hash, Structural, Default)]
#[allow(missing_docs)]
pub enum AdvKind {
    #[default]
    AdvInd,
    AdvDirectIndHigh,
    AdvScanInd,
    AdvNonconnInd,
    AdvDirectIndLow,
}

impl View for AdvKind {
    type V = AdvKind;

    open spec fn view(&self) -> AdvKind {
        *self
    }
}

impl AdvKind {
    /// The byte that encodes this value.
    pub open spec fn spec_raw(self) -> u8 {
        match self {
            AdvKind::AdvInd => 0x00u8,
            AdvKind::AdvDirectIndHigh => 0x01u8,
            AdvKind::AdvScanInd => 0x02u8,
            AdvKind::AdvNonconnInd => 0x03u8,
            AdvKind::AdvDirectIndLow => 0x04u8,
        }
    }

    /// The value that a byte encodes, if it encodes one.
    pub open spec fn spec_from_raw(b: u8) -> Option<AdvKind> {
        if b == 0x00u8 {
            Some(AdvKind::AdvInd)
        } else if b == 0x01u8 {
            Some(AdvKind::AdvDirectIndHigh)
        } else if b == 0x02u8 {
            Some(AdvKind::AdvScanInd)
        } else if b == 0x03u8 {
            Some(AdvKind::AdvNonconnInd)
        } else if b == 0x04u8 {
            Some(AdvKind::AdvDirectIndLow)
        } else {
            None
        }
    }

    /// The byte that encodes this value.
    pub fn into_raw(self) -> (r: u8)
        ensures
            r == self.spec_raw(),
    {
        match self {
            AdvKind::AdvInd => 0x00u8,
            AdvKind::AdvDirectIndHigh => 0x01u8,
            AdvKind::AdvScanInd => 0x02u8,
            AdvKind::AdvNonconnInd => 0x03u8,
            AdvKind::AdvDirectIndLow => 0x04u8,
        }
    }

    /// The byte of each value is fixed, each of those bytes decodes to its
    /// value, and no other byte decodes.
    pub proof fn lemma_codes()
        ensures
            AdvKind::AdvInd.spec_raw() == 0x00u8,
            AdvKind::AdvDirectIndHigh.spec_raw() == 0x01u8,
            AdvKind::AdvScanInd.spec_raw() == 0x02u8,
            AdvKind::AdvNonconnInd.spec_raw() == 0x03u8,
            AdvKind::AdvDirectIndLow.spec_raw() == 0x04u8,
            AdvKind::spec_from_raw(0x00u8) == Some(AdvKind::AdvInd),
            AdvKind::spec_from_raw(0x01u8) == Some(AdvKind::AdvDirectIndHigh),
            AdvKind::spec_from_raw(0x02u8) == Some(AdvKind::AdvScanInd),
            AdvKind::spec_from_raw(0x03u8) == Some(AdvKind::AdvNonconnInd),
            AdvKind::spec_from_raw(0x04u8) == Some(AdvKind::AdvDirectIndLow),
            forall|b: u8| b != 0x00u8 && b != 0x01u8 && b != 0x02u8 && b != 0x03u8 && b != 0x04u8 ==> (#[trigger] AdvKind::spec_from_raw(b)) is None,
            forall|v: AdvKind| (#[trigger] v.spec_hci_bytes()) == seq![v.spec_raw()],
            forall|data: Seq<u8>| data.len() >= 1 ==> (#[trigger] <AdvKind as FromHciBytes>::spec_from_hci_bytes(data)) == match AdvKind::spec_from_raw(data[0]) {
                Some(v) => Ok::<(AdvKind, nat), FromHciBytesError>((v, 1)),
                None => Err::<(AdvKind, nat), FromHciBytesError>(FromHciBytesError::InvalidValue),
            },
    {
    }

    /// The value that a byte encodes, if it encodes one.
    pub fn from_raw(b: u8) -> (r: Option<AdvKind>)
        ensures
            r == Self::spec_from_raw(b),
    {
        match b {
            0x00u8 => Some(AdvKind::AdvInd),
            0x01u8 => Some(AdvKind::AdvDirectIndHigh),
            0x02u8 => Some(AdvKind::AdvScanInd),
            0x03u8 => Some(AdvKind::AdvNonconnInd),
            0x04u8 => Some(AdvKind::AdvDirectIndLow),
            _ => None,
        }
    }
}

impl<'de> FromHciBytes<'de> for AdvKind {
    open spec fn spec_from_hci_bytes(data: Seq<u8>) -> Result<(AdvKind, nat), FromHciBytesError> {
        if data.len() < 1 {
            Err(FromHciBytesError::InvalidSize)
        } else {
            match AdvKind::spec_from_raw(data[0]) {
                Some(v) => Ok((v, 1)),
                None => Err(FromHciBytesError::InvalidValue),
            }
        }
    }

    fn from_hci_bytes(data: &'de [u8]) -> (r: Result<(AdvKind, &'de [u8]), FromHciBytesError>) {
        if data.len() < 1 {
            return Err(FromHciBytesError::InvalidSize);
        }
        match AdvKind::from_raw(data[0]) {
            Some(v) => {
                let (_, rest) = data.split_at(1);
                Ok((v, rest))
            },
            None => Err(FromHciBytesError::InvalidValue),
        }
    }
}

impl WriteHci for AdvKind {
    open spec fn spec_hci_bytes(&self) -> Seq<u8> {
        seq![self.spec_raw()]
    }

    fn size(&self) -> (r: usize) {
        1
    }

    fn write_hci(&self, out: &mut Vec<u8>) {
        out.push(self.into_raw());
        proof {
            assert(final(out)@ =~= old(out)@ + self.spec_hci_bytes());
        }
    }
}

impl FixedSizeValue for AdvKind {
    open spec fn spec_size() -> nat {
        1
    }

    proof fn lemma_fixed_size(&self) {
    }
}

impl<'de> HciCodec<'de> for AdvKind {
    open spec fn spec_encodable(&self) -> bool {
        true
    }

    proof fn lemma_write_then_read(&self, rest: Seq<u8>) {
        match *self {
            AdvKind::AdvInd => {},
            AdvKind::AdvDirectIndHigh => {},
            AdvKind::AdvScanInd => {},
            AdvKind::AdvNonconnInd => {},
            AdvKind::AdvDirectIndLow => {},
        }
    }
}

/// AdvFilterPolicy.
#[derive(Debug, Clone, Copy, PartialEq, Eq, PartialOrd, Ord, Hash, Structural, Default)]
#[allow(missing_docs)]
pub enum AdvFilterPolicy {
    #[default]
    Unfiltered,
    FilterScan,
    FilterConn,
    FilterConnAndScan,
}

impl View for AdvFilterPolicy {
    type V = AdvFilterPolicy;

    open spec fn view(&self) -> AdvFilterPolicy {
        *self
    }
}

impl AdvFilterPolicy {
    /// The byte that encodes this value.
    pub open spec fn spec_raw(self) -> u8 {
        match self {
            AdvFilterPolicy::Unfiltered => 0x00u8,
            AdvFilterPolicy::FilterScan => 0x01u8,
            AdvFilterPolicy::FilterConn => 0x02u8,
            AdvFilterPolicy::FilterConnAndScan => 0x03u8,
        }
    }

    /// The value that a byte encodes, if it encodes one.
    pub open spec fn spec_from_raw(b: u8) -> Option<AdvFilterPolicy> {
        if b == 0x00u8 {
            Some(AdvFilterPolicy::Unfiltered)
        } else if b == 0x01u8 {
            Some(AdvFilterPolicy::FilterScan)
        } else if b == 0x02u8 {
            Some(AdvFilterPolicy::FilterConn)
        } else if b == 0x03u8 {
            Some(AdvFilterPolicy::FilterConnAndScan)
        } else {
            None
        }
    }

    /// The byte that encodes this value.
    pub fn into_raw(self) -> (r: u8)
        ensures
            r == self.spec_raw(),
    {
        match self {
            AdvFilterPolicy::Unfiltered => 0x00u8,
            AdvFilterPolicy::FilterScan => 0x01u8,
            AdvFilterPolicy::FilterConn => 0x02u8,
            AdvFilterPolicy::FilterConnAndScan => 0x03u8,
        }
    }

    /// The byte of each value is fixed, each of those bytes decodes to its
    /// value, and no other byte decodes.
    pub proof fn lemma_codes()
        ensures
            AdvFilterPolicy::Unfiltered.spec_raw() == 0x00u8,
            AdvFilterPolicy::FilterScan.spec_raw() == 0x01u8,
            AdvFilterPolicy::FilterConn.spec_raw() == 0x02u8,
            AdvFilterPolicy::FilterConnAndScan.spec_raw() == 0x03u8,
            AdvFilterPolicy::spec_from_raw(0x00u8) == Some(AdvFilterPolicy::Unfiltered),
            AdvFilterPolicy::spec_from_raw(0x01u8) == Some(AdvFilterPolicy::FilterScan),
            AdvFilterPolicy::spec_from_raw(0x02u8) == Some(AdvFilterPolicy::FilterConn),
            AdvFilterPolicy::spec_from_raw(0x03u8) == Some(AdvFilterPolicy::FilterConnAndScan),
            forall|b: u8| b != 0x00u8 && b != 0x01u8 && b != 0x02u8 && b != 0x03u8 ==> (#[trigger] AdvFilterPolicy::spec_from_raw(b)) is None,
            forall|v: AdvFilterPolicy| (#[trigger] v.spec_hci_bytes()) == seq![v.spec_raw()],
            forall|data: Seq<u8>| data.len() >= 1 ==> (#[trigger] <AdvFilterPolicy as FromHciBytes>::spec_from_hci_bytes(data)) == match AdvFilterPolicy::spec_from_raw(data[0]) {
                Some(v) => Ok::<(AdvFilterPolicy, nat), FromHciBytesError>((v, 1)),
                None => Err::<(AdvFilterPolicy, nat), FromHciBytesError>(FromHciBytesError::InvalidValue),
            },
    {
    }

    /// The value that a byte encodes, if it encodes one.
    pub fn from_raw(b: u8) -> (r: Option<AdvFilterPolicy>)
        ensures
            r == Self::spec_from_raw(b),
    {
        match b {
            0x00u8 => Some(AdvFilterPolicy::Unfiltered),
            0x01u8 => Some(AdvFilterPolicy::FilterScan),
            0x02u8 => Some(AdvFilterPolicy::FilterConn),
            0x03u8 => Some(AdvFilterPolicy::FilterConnAndScan),
            _ => None,
        }
    }
}

impl<'de> FromHciBytes<'de> for AdvFilterPolicy {
    open spec fn spec_from_hci_bytes(data: Seq<u8>) -> Result<(AdvFilterPolicy, nat), FromHciBytesError> {
        if data.len() < 1 {
            Err(FromHciBytesError::InvalidSize)
        } else {
            match AdvFilterPolicy::spec_from_raw(data[0]) {
                Some(v) => Ok((v, 1)),
                None => Err(FromHciBytesError::InvalidValue),
            }
        }
    }

    fn from_hci_bytes(data: &'de [u8]) -> (r: Result<(AdvFilterPolicy, &'de [u8]), FromHciBytesError>) {
        if data.len() < 1 {
            return Err(FromHciBytesError::InvalidSize);
        }
        match AdvFilterPolicy::from_raw(data[0]) {
            Some(v) => {
                let (_, rest) = data.split_at(1);
                Ok((v, rest))
            },
            None => Err(FromHciBytesError::InvalidValue),
        }
    }
}

impl WriteHci for AdvFilterPolicy {
    open spec fn spec_hci_bytes(&self) -> Seq<u8> {
        seq![self.spec_raw()]
    }

    fn size(&self) -> (r: usize) {
        1
    }

    fn write_hci(&self, out: &mut Vec<u8>) {
        out.push(self.into_raw());
        proof {
            assert(final(out)@ =~= old(out)@ + self.spec_hci_bytes());
        }
    }
}

impl FixedSizeValue for AdvFilterPolicy {
    open spec fn spec_size() -> nat {
        1
    }

    proof fn lemma_fixed_size(&self) {
    }
}

impl<'de> HciCodec<'de> for AdvFilterPolicy {
    open spec fn spec_encodable(&self) -> bool {
        true
    }

    proof fn lemma_write_then_read(&self, rest: Seq<u8>) {
        match *self {
            AdvFilterPolicy::Unfiltered => {},
            AdvFilterPolicy::FilterScan => {},
            AdvFilterPolicy::FilterConn => {},
            AdvFilterPolicy::FilterConnAndScan => {},
        }
    }
}

/// LeScanKind.
#[derive(Debug, Clone, Copy, PartialEq, Eq, PartialOrd, Ord, Hash, Structural, Default)]
#[allow(missing_docs)]
pub enum LeScanKind {
    #[default]
    Passive,
    Active,
}

impl View for LeScanKind {
    type V = LeScanKind;

    open spec fn view(&self) -> LeScanKind {
        *self
    }
}

impl LeScanKind {
    /// The byte that encodes this value.
    pub open spec fn spec_raw(self) -> u8 {
        match self {
            LeScanKind::Passive => 0x00u8,
            LeScanKind::Active => 0x01u8,
        }
    }

    /// The value that a byte encodes, if it encodes one.
    pub open spec fn spec_from_raw(b: u8) -> Option<LeScanKind> {
        if b == 0x00u8 {
            Some(LeScanKind::Passive)
        } else if b == 0x01u8 {
            Some(LeScanKind::Active)
        } else {
            None
        }
    }

    /// The byte that encodes this value.
    pub fn into_raw(self) -> (r: u8)
        ensures
            r == self.spec_raw(),
    {
        match self {
            LeScanKind::Passive => 0x00u8,
            LeScanKind::Active => 0x01u8,
        }
    }

    /// The byte of each value is fixed, each of those bytes decodes to its
    /// value, and no other byte decodes.
    pub proof fn lemma_codes()
        ensures
            LeScanKind::Passive.spec_raw() == 0x00u8,
            LeScanKind::Active.spec_raw() == 0x01u8,
            LeScanKind::spec_from_raw(0x00u8) == Some(LeScanKind::Passive),
            LeScanKind::spec_from_raw(0x01u8) == Some(LeScanKind::Active),
            forall|b: u8| b != 0x00u8 && b != 0x01u8 ==> (#[trigger] LeScanKind::spec_from_raw(b)) is None,
            forall|v: LeScanKind| (#[trigger] v.spec_hci_bytes()) == seq![v.spec_raw()],
            forall|data: Seq<u8>| data.len() >= 1 ==> (#[trigger] <LeScanKind as FromHciBytes>::spec_from_hci_bytes(data)) == match LeScanKind::spec_from_raw(data[0]) {
                Some(v) => Ok::<(LeScanKind, nat), FromHciBytesError>((v, 1)),
                None => Err::<(LeScanKind, nat), FromHciBytesError>(FromHciBytesError::InvalidValue),
            },
    {
    }

    /// The value that a byte encodes, if it encodes one.
    pub fn from_raw(b: u8) -> (r: Option<LeScanKind>)
        ensures
            r == Self::spec_from_raw(b),
    {
        match b {
            0x00u8 => Some(LeScanKind::Passive),
            0x01u8 => Some(LeScanKind::Active),
            _ => None,
        }
    }
}

impl<'de> FromHciBytes<'de> for LeScanKind {
    open spec fn spec_from_hci_bytes(data: Seq<u8>) -> Result<(LeScanKind, nat), FromHciBytesError> {
        if data.len() < 1 {
            Err(FromHciBytesError::InvalidSize)
        } else {
            match LeScanKind::spec_from_raw(data[0]) {
                Some(v) => Ok((v, 1)),
                None => Err(FromHciBytesError::InvalidValue),
            }
        }
    }

    fn from_hci_bytes(data: &'de [u8]) -> (r: Result<(LeScanKind, &'de [u8]), FromHciBytesError>) {
        if data.len() < 1 {
            return Err(FromHciBytesError::InvalidSize);
        }
        match LeScanKind::from_raw(data[0]) {
            Some(v) => {
                let (_, rest) = data.split_at(1);
                Ok((v, rest))
            },
            None => Err(FromHciBytesError::InvalidValue),
        }
    }
}

impl WriteHci for LeScanKind {
    open spec fn spec_hci_bytes(&self) -> Seq<u8> {
        seq![self.spec_raw()]
    }

    fn size(&self) -> (r: usize) {
        1
    }

    fn write_hci(&self, out: &mut Vec<u8>) {
        out.push(self.into_raw());
        proof {
            assert(final(out)@ =~= old(out)@ + self.spec_hci_bytes());
        }
    }
}

impl FixedSizeValue for LeScanKind {
    open spec fn spec_size() -> nat {
        1
    }

    proof fn lemma_fixed_size(&self) {
    }
}

impl<'de> HciCodec<'de> for LeScanKind {
    open spec fn spec_encodable(&self) -> bool {
        true
    }

    proof fn lemma_write_then_read(&self, rest: Seq<u8>) {
        match *self {
            LeScanKind::Passive => {},
            LeScanKind::Active => {},
        }
    }
}

/// ScanningFilterPolicy.
#[derive(Debug, Clone, Copy, PartialEq, Eq, PartialOrd, Ord, Hash, Structural, Default)]
#[allow(missing_docs)]
pub enum ScanningFilterPolicy {
    #[default]
    BasicUnfiltered,
    BasicFiltered,
    ExtUnfiltered,
    ExtFiltered,
}

impl View for ScanningFilterPolicy {
    type V = ScanningFilterPolicy;

    open spec fn view(&self) -> ScanningFilterPolicy {
        *self
    }
}

impl ScanningFilterPolicy {
    /// The byte that encodes this value.
    pub open spec fn spec_raw(self) -> u8 {
        match self {
            ScanningFilterPolicy::BasicUnfiltered => 0x00u8,
            ScanningFilterPolicy::BasicFiltered => 0x01u8,
            ScanningFilterPolicy::ExtUnfiltered => 0x02u8,
            ScanningFilterPolicy::ExtFiltered => 0x03u8,
        }
    }

    /// The value that a byte encodes, if it encodes one.
    pub open spec fn spec_from_raw(b: u8) -> Option<ScanningFilterPolicy> {
        if b == 0x00u8 {
            Some(ScanningFilterPolicy::BasicUnfiltered)
        } else if b == 0x01u8 {
            Some(ScanningFilterPolicy::BasicFiltered)
        } else if b == 0x02u8 {
            Some(ScanningFilterPolicy::ExtUnfiltered)
        } else if b == 0x03u8 {
            Some(ScanningFilterPolicy::ExtFiltered)
        } else {
            None
        }
    }

    /// The byte that encodes this value.
    pub fn into_raw(self) -> (r: u8)
        ensures
            r == self.spec_raw(),
    {
        match self {
            ScanningFilterPolicy::BasicUnfiltered => 0x00u8,
            ScanningFilterPolicy::BasicFiltered => 0x01u8,
            ScanningFilterPolicy::ExtUnfiltered => 0x02u8,
            ScanningFilterPolicy::ExtFiltered => 0x03u8,
        }
    }

    /// The byte of each value is fixed, each of those bytes decodes to its
    /// value, and no other byte decodes.
    pub proof fn lemma_codes()
        ensures
            ScanningFilterPolicy::BasicUnfiltered.spec_raw() == 0x00u8,
            ScanningFilterPolicy::BasicFiltered.spec_raw() == 0x01u8,
            ScanningFilterPolicy::ExtUnfiltered.spec_raw() == 0x02u8,
            ScanningFilterPolicy::ExtFiltered.spec_raw() == 0x03u8,
            ScanningFilterPolicy::spec_from_raw(0x00u8) == Some(ScanningFilterPolicy::BasicUnfiltered),
            ScanningFilterPolicy::spec_from_raw(0x01u8) == Some(ScanningFilterPolicy::BasicFiltered),
            ScanningFilterPolicy::spec_from_raw(0x02u8) == Some(ScanningFilterPolicy::ExtUnfiltered),
            ScanningFilterPolicy::spec_from_raw(0x03u8) == Some(ScanningFilterPolicy::ExtFiltered),
            forall|b: u8| b != 0x00u8 && b != 0x01u8 && b != 0x02u8 && b != 0x03u8 ==> (#[trigger] ScanningFilterPolicy::spec_from_raw(b)) is None,
            forall|v: ScanningFilterPolicy| (#[trigger] v.spec_hci_bytes()) == seq![v.spec_raw()],
            forall|data: Seq<u8>| data.len() >= 1 ==> (#[trigger] <ScanningFilterPolicy as FromHciBytes>::spec_from_hci_bytes(data)) == match ScanningFilterPolicy::spec_from_raw(data[0]) {
                Some(v) => Ok::<(ScanningFilterPolicy, nat), FromHciBytesError>((v, 1)),
                None => Err::<(ScanningFilterPolicy, nat), FromHciBytesError>(FromHciBytesError::InvalidValue),
            },
    {
    }

    /// The value that a byte encodes, if it encodes one.
    pub fn from_raw(b: u8) -> (r: Option<ScanningFilterPolicy>)
        ensures
            r == Self::spec_from_raw(b),
    {
        match b {
            0x00u8 => Some(ScanningFilterPolicy::BasicUnfiltered),
            0x01u8 => Some(ScanningFilterPolicy::BasicFiltered),
            0x02u8 => Some(ScanningFilterPolicy::ExtUnfiltered),
            0x03u8 => Some(ScanningFilterPolicy::ExtFiltered),
            _ => None,
        }
    }
}

impl<'de> FromHciBytes<'de> for ScanningFilterPolicy {
    open spec fn spec_from_hci_bytes(data: Seq<u8>) -> Result<(ScanningFilterPolicy, nat), FromHciBytesError> {
        if data.len() < 1 {
            Err(FromHciBytesError::InvalidSize)
        } else {
            match ScanningFilterPolicy::spec_from_raw(data[0]) {
                Some(v) => Ok((v, 1)),
                None => Err(FromHciBytesError::InvalidValue),
            }
        }
    }

    fn from_hci_bytes(data: &'de [u8]) -> (r: Result<(ScanningFilterPolicy, &'de [u8]), FromHciBytesError>) {
        if data.len() < 1 {
            return Err(FromHciBytesError::InvalidSize);
        }
        match ScanningFilterPolicy::from_raw(data[0]) {
            Some(v) => {
                let (_, rest) = data.split_at(1);
                Ok((v, rest))
            },
            None => Err(FromHciBytesError::InvalidValue),
        }
    }
}

impl WriteHci for ScanningFilterPolicy {
    open spec fn spec_hci_bytes(&self) -> Seq<u8> {
        seq![self.spec_raw()]
    }

    fn size(&self) -> (r: usize) {
        1
    }

    fn write_hci(&self, out: &mut Vec<u8>) {
        out.push(self.into_raw());
        proof {
            assert(final(out)@ =~= old(out)@ + self.spec_hci_bytes());
        }
    }
}

impl FixedSizeValue for ScanningFilterPolicy {
    open spec fn spec_size() -> nat {
        1
    }

    proof fn lemma_fixed_size(&self) {
    }
}

impl<'de> HciCodec<'de> for ScanningFilterPolicy {
    open spec fn spec_encodable(&self) -> bool {
        true
    }

    proof fn lemma_write_then_read(&self, rest: Seq<u8>) {
        match *self {
            ScanningFilterPolicy::BasicUnfiltered => {},
            ScanningFilterPolicy::BasicFiltered => {},
            ScanningFilterPolicy::ExtUnfiltered => {},
            ScanningFilterPolicy::ExtFiltered => {},
        }
    }
}

/// PhyKind.
#[derive(Debug, Clone, Copy, PartialEq, Eq, PartialOrd, Ord, Hash, Structural, Default)]
#[allow(missing_docs)]
pub enum PhyKind {
    #[default]
    Le1M,
    Le2M,
    LeCoded,
    LeCodedS2,
}

impl View for PhyKind {
    type V = PhyKind;

    open spec fn view(&self) -> PhyKind {
        *self
    }
}

impl PhyKind {
    /// The byte that encodes this value.
    pub open spec fn spec_raw(self) -> u8 {
        match self {
            PhyKind::Le1M => 0x01u8,
            PhyKind::Le2M => 0x02u8,
            PhyKind::LeCoded => 0x03u8,
            PhyKind::LeCodedS2 => 0x04u8,
        }
    }

    /// The value that a byte encodes, if it encodes one.
    pub open spec fn spec_from_raw(b: u8) -> Option<PhyKind> {
        if b == 0x01u8 {
            Some(PhyKind::Le1M)
        } else if b == 0x02u8 {
            Some(PhyKind::Le2M)
        } else if b == 0x03u8 {
            Some(PhyKind::LeCoded)
        } else if b == 0x04u8 {
            Some(PhyKind::LeCodedS2)
        } else {
            None
        }
    }

    /// The byte that encodes this value.
    pub fn into_raw(self) -> (r: u8)
        ensures
            r == self.spec_raw(),
    {
        match self {
            PhyKind::Le1M => 0x01u8,
            PhyKind::Le2M => 0x02u8,
            PhyKind::LeCoded => 0x03u8,
            PhyKind::LeCodedS2 => 0x04u8,
        }
    }

    /// The byte of each value is fixed, each of those bytes decodes to its
    /// value, and no other byte decodes.
    pub proof fn lemma_codes()
        ensures
            PhyKind::Le1M.spec_raw() == 0x01u8,
            PhyKind::Le2M.spec_raw() == 0x02u8,
            PhyKind::LeCoded.spec_raw() == 0x03u8,
            PhyKind::LeCodedS2.spec_raw() == 0x04u8,
            PhyKind::spec_from_raw(0x01u8) == Some(PhyKind::Le1M),
            PhyKind::spec_from_raw(0x02u8) == Some(PhyKind::Le2M),
            PhyKind::spec_from_raw(0x03u8) == Some(PhyKind::LeCoded),
            PhyKind::spec_from_raw(0x04u8) == Some(PhyKind::LeCodedS2),
            forall|b: u8| b != 0x01u8 && b != 0x02u8 && b != 0x03u8 && b != 0x04u8 ==> (#[trigger] PhyKind::spec_from_raw(b)) is None,
            forall|v: PhyKind| (#[trigger] v.spec_hci_bytes()) == seq![v.spec_raw()],
            forall|data: Seq<u8>| data.len() >= 1 ==> (#[trigger] <PhyKind as FromHciBytes>::spec_from_hci_bytes(data)) == match PhyKind::spec_from_raw(data[0]) {
                Some(v) => Ok::<(PhyKind, nat), FromHciBytesError>((v, 1)),
                None => Err::<(PhyKind, nat), FromHciBytesError>(FromHciBytesError::InvalidValue),
            },
    {
    }

    /// The value that a byte encodes, if it encodes one.
    pub fn from_raw(b: u8) -> (r: Option<PhyKind>)
        ensures
            r == Self::spec_from_raw(b),
    {
        match b {
            0x01u8 => Some(PhyKind::Le1M),
            0x02u8 => Some(PhyKind::Le2M),
            0x03u8 => Some(PhyKind::LeCoded),
            0x04u8 => Some(PhyKind::LeCodedS2),
            _ => None,
        }
    }
}

impl<'de> FromHciBytes<'de> for PhyKind {
    open spec fn spec_from_hci_bytes(data: Seq<u8>) -> Result<(PhyKind, nat), FromHciBytesError> {
        if data.len() < 1 {
            Err(FromHciBytesError::InvalidSize)
        } else {
            match PhyKind::spec_from_raw(data[0]) {
                Some(v) => Ok((v, 1)),
                None => Err(FromHciBytesError::InvalidValue),
            }
        }
    }

    fn from_hci_bytes(data: &'de [u8]) -> (r: Result<(PhyKind, &'de [u8]), FromHciBytesError>) {
        if data.len() < 1 {
            return Err(FromHciBytesError::InvalidSize);
        }
        match PhyKind::from_raw(data[0]) {
            Some(v) => {
                let (_, rest) = data.split_at(1);
                Ok((v, rest))
            },
            None => Err(FromHciBytesError::InvalidValue),
        }
    }
}

impl WriteHci for PhyKind {
    open spec fn spec_hci_bytes(&self) -> Seq<u8> {
        seq![self.spec_raw()]
    }

    fn size(&self) -> (r: usize) {
        1
    }

    fn write_hci(&self, out: &mut Vec<u8>) {
        out.push(self.into_raw());
        proof {
            assert(final(out)@ =~= old(out)@ + self.spec_hci_bytes());
        }
    }
}

impl FixedSizeValue for PhyKind {
    open spec fn spec_size() -> nat {
        1
    }

    proof fn lemma_fixed_size(&self) {
    }
}

impl<'de> HciCodec<'de> for PhyKind {
    open spec fn spec_encodable(&self) -> bool {
        true
    }

    proof fn lemma_write_then_read(&self, rest: Seq<u8>) {
        match *self {
            PhyKind::Le1M => {},
            PhyKind::Le2M => {},
            PhyKind::LeCoded => {},
            PhyKind::LeCodedS2 => {},
        }
    }
}

/// SpacingTypes
#[derive(Debug, Clone, Copy, PartialEq, Eq, PartialOrd, Ord, Hash, Default)]
pub struct SpacingTypes([u8; 2]);

impl View for SpacingTypes {
    type V = Seq<u8>;

    closed spec fn view(&self) -> Seq<u8> {
        self.0@
    }
}

impl SpacingTypes {
    /// Create a new instance with every bit clear.
    pub fn new() -> (r: Self)
        ensures
            r@ == Seq::new(2, |i: int| 0u8),
    {
        let r = SpacingTypes([0u8; 2]);
        proof {
            assert(r@ =~= Seq::new(2, |i: int| 0u8));
        }
        r
    }

    /// Get the inner representation.
    pub fn into_inner(self) -> (r: [u8; 2])
        ensures
            r@ == self@,
    {
        self.0
    }

    /// The representation has one byte per octet.
    pub proof fn lemma_len(&self)
        ensures
            self@.len() == 2,
    {
    }

    /// Whether bit 0 is set.
    pub fn has_t_ifs_acl_cp(&self) -> (r: bool)
        ensures
            r == spec_bit(self@[0], 0u8),
    {
        bit_is_set(self.0[0], 0u8)
    }

    /// Set bit 0 to `val`.
    pub fn set_t_ifs_acl_cp(self, val: bool) -> (r: Self)
        ensures
            r@ == self@.update(0, spec_with_bit(self@[0], 0u8, val)),
    {
        let mut bytes = self.0;
        bytes[0] = with_bit(bytes[0], 0u8, val);
        let r = SpacingTypes(bytes);
        proof {
            assert(r@ =~= self@.update(0, spec_with_bit(self@[0], 0u8, val)));
        }
        r
    }

    /// Whether bit 1 is set.
    pub fn has_t_ifs_acl_pc(&self) -> (r: bool)
        ensures
            r == spec_bit(self@[0], 1u8),
    {
        bit_is_set(self.0[0], 1u8)
    }

    /// Set bit 1 to `val`.
    pub fn set_t_ifs_acl_pc(self, val: bool) -> (r: Self)
        ensures
            r@ == self@.update(0, spec_with_bit(self@[0], 1u8, val)),
    {
        let mut bytes = self.0;
        bytes[0] = with_bit(bytes[0], 1u8, val);
        let r = SpacingTypes(bytes);
        proof {
            assert(r@ =~= self@.update(0, spec_with_bit(self@[0], 1u8, val)));
        }
        r
    }

    /// Whether bit 2 is set.
    pub fn has_t_mces(&self) -> (r: bool)
        ensures
            r == spec_bit(self@[0], 2u8),
    {
        bit_is_set(self.0[0], 2u8)
    }

    /// Set bit 2 to `val`.
    pub fn set_t_mces(self, val: bool) -> (r: Self)
        ensures
            r@ == self@.update(0, spec_with_bit(self@[0], 2u8, val)),
    {
        let mut bytes = self.0;
        bytes[0] = with_bit(bytes[0], 2u8, val);
        let r = SpacingTypes(bytes);
        proof {
            assert(r@ =~= self@.update(0, spec_with_bit(self@[0], 2u8, val)));
        }
        r
    }

    /// Whether bit 3 is set.
    pub fn has_t_ifs_cis(&self) -> (r: bool)
        ensures
            r == spec_bit(self@[0], 3u8),
    {
        bit_is_set(self.0[0], 3u8)
    }

    /// Set bit 3 to `val`.
    pub fn set_t_ifs_cis(self, val: bool) -> (r: Self)
        ensures
            r@ == self@.update(0, spec_with_bit(self@[0], 3u8, val)),
    {
        let mut bytes = self.0;
        bytes[0] = with_bit(bytes[0], 3u8, val);
        let r = SpacingTypes(bytes);
        proof {
            assert(r@ =~= self@.update(0, spec_with_bit(self@[0], 3u8, val)));
        }
        r
    }

    /// Whether bit 4 is set.
    pub fn has_t_mss_cis(&self) -> (r: bool)
        ensures
            r == spec_bit(self@[0], 4u8),
    {
        bit_is_set(self.0[0], 4u8)
    }

    /// Set bit 4 to `val`.
    pub fn set_t_mss_cis(self, val: bool) -> (r: Self)
        ensures
            r@ == self@.update(0, spec_with_bit(self@[0], 4u8, val)),
    {
        let mut bytes = self.0;
        bytes[0] = with_bit(bytes[0], 4u8, val);
        let r = SpacingTypes(bytes);
        proof {
            assert(r@ =~= self@.update(0, spec_with_bit(self@[0], 4u8, val)));
        }
        r
    }
}

impl<'de> FromHciBytes<'de> for SpacingTypes {
    open spec fn spec_from_hci_bytes(data: Seq<u8>) -> Result<(Seq<u8>, nat), FromHciBytesError> {
        <[u8; 2] as FromHciBytes<'de>>::spec_from_hci_bytes(data)
    }

    fn from_hci_bytes(data: &'de [u8]) -> (r: Result<(SpacingTypes, &'de [u8]), FromHciBytesError>) {
        match <[u8; 2] as FromHciBytes<'de>>::from_hci_bytes(data) {
            Ok((v, rest)) => Ok((SpacingTypes(v), rest)),
            Err(e) => Err(e),
        }
    }
}

impl WriteHci for SpacingTypes {
    open spec fn spec_hci_bytes(&self) -> Seq<u8> {
        self@
    }

    fn size(&self) -> (r: usize) {
        self.0.size()
    }

    fn write_hci(&self, out: &mut Vec<u8>) {
        self.0.write_hci(out);
    }
}

impl FixedSizeValue for SpacingTypes {
    open spec fn spec_size() -> nat {
        2
    }

    proof fn lemma_fixed_size(&self) {
        self.0.lemma_fixed_size();
    }
}

impl<'de> HciCodec<'de> for SpacingTypes {
    open spec fn spec_encodable(&self) -> bool {
        true
    }

    proof fn lemma_write_then_read(&self, rest: Seq<u8>) {
        self.0.lemma_write_then_read(rest);
    }
}

/// FrameSpaceInitiator.
#[derive(Debug, Clone, Copy, PartialEq, Eq, PartialOrd, Ord, Hash, Structural)]
#[allow(missing_docs)]
pub enum FrameSpaceInitiator {
    LocalHostInitiated,
    LocalControllerInitiated,
    PeerInitiated,
}

impl View for FrameSpaceInitiator {
    type V = FrameSpaceInitiator;

    open spec fn view(&self) -> FrameSpaceInitiator {
        *self
    }
}

impl FrameSpaceInitiator {
    /// The byte that encodes this value.
    pub open spec fn spec_raw(self) -> u8 {
        match self {
            FrameSpaceInitiator::LocalHostInitiated => 0x00u8,
            FrameSpaceInitiator::LocalControllerInitiated => 0x01u8,
            FrameSpaceInitiator::PeerInitiated => 0x02u8,
        }
    }

    /// The value that a byte encodes, if it encodes one.
    pub open spec fn spec_from_raw(b: u8) -> Option<FrameSpaceInitiator> {
        if b == 0x00u8 {
            Some(FrameSpaceInitiator::LocalHostInitiated)
        } else if b == 0x01u8 {
            Some(FrameSpaceInitiator::LocalControllerInitiated)
        } else if b == 0x02u8 {
            Some(FrameSpaceInitiator::PeerInitiated)
        } else {
            None
        }
    }

    /// The byte that encodes this value.
    pub fn into_raw(self) -> (r: u8)
        ensures
            r == self.spec_raw(),
    {
        match self {
            FrameSpaceInitiator::LocalHostInitiated => 0x00u8,
            FrameSpaceInitiator::LocalControllerInitiated => 0x01u8,
            FrameSpaceInitiator::PeerInitiated => 0x02u8,
        }
    }

    /// The byte of each value is fixed, each of those bytes decodes to its
    /// value, and no other byte decodes.
    pub proof fn lemma_codes()
        ensures
            FrameSpaceInitiator::LocalHostInitiated.spec_raw() == 0x00u8,
            FrameSpaceInitiator::LocalControllerInitiated.spec_raw() == 0x01u8,
            FrameSpaceInitiator::PeerInitiated.spec_raw() == 0x02u8,
            FrameSpaceInitiator::spec_from_raw(0x00u8) == Some(FrameSpaceInitiator::LocalHostInitiated),
            FrameSpaceInitiator::spec_from_raw(0x01u8) == Some(FrameSpaceInitiator::LocalControllerInitiated),
            FrameSpaceInitiator::spec_from_raw(0x02u8) == Some(FrameSpaceInitiator::PeerInitiated),
            forall|b: u8| b != 0x00u8 && b != 0x01u8 && b != 0x02u8 ==> (#[trigger] FrameSpaceInitiator::spec_from_raw(b)) is None,
            forall|v: FrameSpaceInitiator| (#[trigger] v.spec_hci_bytes()) == seq![v.spec_raw()],
            forall|data: Seq<u8>| data.len() >= 1 ==> (#[trigger] <FrameSpaceInitiator as FromHciBytes>::spec_from_hci_bytes(data)) == match FrameSpaceInitiator::spec_from_raw(data[0]) {
                Some(v) => Ok::<(FrameSpaceInitiator, nat), FromHciBytesError>((v, 1)),
                None => Err::<(FrameSpaceInitiator, nat), FromHciBytesError>(FromHciBytesError::InvalidValue),
            },
    {
    }

    /// The value that a byte encodes, if it encodes one.
    pub fn from_raw(b: u8) -> (r: Option<FrameSpaceInitiator>)
        ensures
            r == Self::spec_from_raw(b),
    {
        match b {
            0x00u8 => Some(FrameSpaceInitiator::LocalHostInitiated),
            0x01u8 => Some(FrameSpaceInitiator::LocalControllerInitiated),
            0x02u8 => Some(FrameSpaceInitiator::PeerInitiated),
            _ => None,
        }
    }
}

impl<'de> FromHciBytes<'de> for FrameSpaceInitiator {
    open spec fn spec_from_hci_bytes(data: Seq<u8>) -> Result<(FrameSpaceInitiator, nat), FromHciBytesError> {
        if data.len() < 1 {
            Err(FromHciBytesError::InvalidSize)
        } else {
            match FrameSpaceInitiator::spec_from_raw(data[0]) {
                Some(v) => Ok((v, 1)),
                None => Err(FromHciBytesError::InvalidValue),
            }
        }
    }

    fn from_hci_bytes(data: &'de [u8]) -> (r: Result<(FrameSpaceInitiator, &'de [u8]), FromHciBytesError>) {
        if data.len() < 1 {
            return Err(FromHciBytesError::InvalidSize);
        }
        match FrameSpaceInitiator::from_raw(data[0]) {
            Some(v) => {
                let (_, rest) = data.split_at(1);
                Ok((v, rest))
            },
            None => Err(FromHciBytesError::InvalidValue),
        }
    }
}

impl WriteHci for FrameSpaceInitiator {
    open spec fn spec_hci_bytes(&self) -> Seq<u8> {
        seq![self.spec_raw()]
    }

    fn size(&self) -> (r: usize) {
        1
    }

    fn write_hci(&self, out: &mut Vec<u8>) {
        out.push(self.into_raw());
        proof {
            assert(final(out)@ =~= old(out)@ + self.spec_hci_bytes());
        }
    }
}

impl FixedSizeValue for FrameSpaceInitiator {
    open spec fn spec_size() -> nat {
        1
    }

    proof fn lemma_fixed_size(&self) {
    }
}

impl<'de> HciCodec<'de> for FrameSpaceInitiator {
    open spec fn spec_encodable(&self) -> bool {
        true
    }

    proof fn lemma_write_then_read(&self, rest: Seq<u8>) {
        match *self {
            FrameSpaceInitiator::LocalHostInitiated => {},
            FrameSpaceInitiator::LocalControllerInitiated => {},
            FrameSpaceInitiator::PeerInitiated => {},
        }
    }
}

/// AllPhys
#[derive(Debug, Clone, Copy, PartialEq, Eq, PartialOrd, Ord, Hash, Default)]
pub struct AllPhys(u8);

impl View for AllPhys {
    type V = u8;

    closed spec fn view(&self) -> u8 {
        self.0@
    }
}

impl AllPhys {
    /// Create a new instance with every bit clear.
    pub fn new() -> (r: Self)
        ensures
            r@ == 0u8,
    {
        AllPhys(0u8)
    }

    /// Get the inner representation.
    pub fn into_inner(self) -> (r: u8)
        ensures
            r@ == self@,
    {
        self.0
    }

    /// Whether bit 0 is set.
    pub fn has_no_tx_phy_preference(&self) -> (r: bool)
        ensures
            r == spec_bit(self@, 0u8),
    {
        bit_is_set(self.0, 0u8)
    }

    /// Set bit 0 to `val`.
    pub fn set_has_no_tx_phy_preference(self, val: bool) -> (r: Self)
        ensures
            r@ == spec_with_bit(self@, 0u8, val),
    {
        AllPhys(with_bit(self.0, 0u8, val))
    }

    /// Whether bit 1 is set.
    pub fn has_no_rx_phy_preference(&self) -> (r: bool)
        ensures
            r == spec_bit(self@, 1u8),
    {
        bit_is_set(self.0, 1u8)
    }

    /// Set bit 1 to `val`.
    pub fn set_has_no_rx_phy_preference(self, val: bool) -> (r: Self)
        ensures
            r@ == spec_with_bit(self@, 1u8, val),
    {
        AllPhys(with_bit(self.0, 1u8, val))
    }
}

impl<'de> FromHciBytes<'de> for AllPhys {
    open spec fn spec_from_hci_bytes(data: Seq<u8>) -> Result<(u8, nat), FromHciBytesError> {
        <u8 as FromHciBytes<'de>>::spec_from_hci_bytes(data)
    }

    fn from_hci_bytes(data: &'de [u8]) -> (r: Result<(AllPhys, &'de [u8]), FromHciBytesError>) {
        match <u8 as FromHciBytes<'de>>::from_hci_bytes(data) {
            Ok((v, rest)) => Ok((AllPhys(v), rest)),
            Err(e) => Err(e),
        }
    }
}

impl WriteHci for AllPhys {
    open spec fn spec_hci_bytes(&self) -> Seq<u8> {
        seq![self@]
    }

    fn size(&self) -> (r: usize) {
        self.0.size()
    }

    fn write_hci(&self, out: &mut Vec<u8>) {
        self.0.write_hci(out);
    }
}

impl FixedSizeValue for AllPhys {
    open spec fn spec_size() -> nat {
        1
    }

    proof fn lemma_fixed_size(&self) {
        self.0.lemma_fixed_size();
    }
}

impl<'de> HciCodec<'de> for AllPhys {
    open spec fn spec_encodable(&self) -> bool {
        true
    }

    proof fn lemma_write_then_read(&self, rest: Seq<u8>) {
        self.0.lemma_write_then_read(rest);
    }
}

/// PhyMask
#[derive(Debug, Clone, Copy, PartialEq, Eq, PartialOrd, Ord, Hash, Default)]
pub struct PhyMask(u8);

impl View for PhyMask {
    type V = u8;

    closed spec fn view(&self) -> u8 {
        self.0@
    }
}

impl PhyMask {
    /// Create a new instance with every bit clear.
    pub fn new() -> (r: Self)
        ensures
            r@ == 0u8,
    {
        PhyMask(0u8)
    }

    /// Get the inner representation.
    pub fn into_inner(self) -> (r: u8)
        ensures
            r@ == self@,
    {
        self.0
    }

    /// Whether bit 0 is set.
    pub fn has_le_1m_phy(&self) -> (r: bool)
        ensures
            r == spec_bit(self@, 0u8),
    {
        bit_is_set(self.0, 0u8)
    }

    /// Set bit 0 to `val`.
    pub fn set_le_1m_phy(self, val: bool) -> (r: Self)
        ensures
            r@ == spec_with_bit(self@, 0u8, val),
    {
        PhyMask(with_bit(self.0, 0u8, val))
    }

    /// Whether bit 1 is set.
    pub fn has_le_2m_phy(&self) -> (r: bool)
        ensures
            r == spec_bit(self@, 1u8),
    {
        bit_is_set(self.0, 1u8)
    }

    /// Set bit 1 to `val`.
    pub fn set_le_2m_phy(self, val: bool) -> (r: Self)
        ensures
            r@ == spec_with_bit(self@, 1u8, val),
    {
        PhyMask(with_bit(self.0, 1u8, val))
    }

    /// Whether bit 2 is set.
    pub fn has_le_coded_phy(&self) -> (r: bool)
        ensures
            r == spec_bit(self@, 2u8),
    {
        bit_is_set(self.0, 2u8)
    }

    /// Set bit 2 to `val`.
    pub fn set_le_coded_phy(self, val: bool) -> (r: Self)
        ensures
            r@ == spec_with_bit(self@, 2u8, val),
    {
        PhyMask(with_bit(self.0, 2u8, val))
    }
}

impl<'de> FromHciBytes<'de> for PhyMask {
    open spec fn spec_from_hci_bytes(data: Seq<u8>) -> Result<(u8, nat), FromHciBytesError> {
        <u8 as FromHciBytes<'de>>::spec_from_hci_bytes(data)
    }

    fn from_hci_bytes(data: &'de [u8]) -> (r: Result<(PhyMask, &'de [u8]), FromHciBytesError>) {
        match <u8 as FromHciBytes<'de>>::from_hci_bytes(data) {
            Ok((v, rest)) => Ok((PhyMask(v), rest)),
            Err(e) => Err(e),
        }
    }
}

impl WriteHci for PhyMask {
    open spec fn spec_hci_bytes(&self) -> Seq<u8> {
        seq![self@]
    }

    fn size(&self) -> (r: usize) {
        self.0.size()
    }

    fn write_hci(&self, out: &mut Vec<u8>) {
        self.0.write_hci(out);
    }
}

impl FixedSizeValue for PhyMask {
    open spec fn spec_size() -> nat {
        1
    }

    proof fn lemma_fixed_size(&self) {
        self.0.lemma_fixed_size();
    }
}

impl<'de> HciCodec<'de> for PhyMask {
    open spec fn spec_encodable(&self) -> bool {
        true
    }

    proof fn lemma_write_then_read(&self, rest: Seq<u8>) {
        self.0.lemma_write_then_read(rest);
    }
}

/// Preferences when one can choose the phy.
#[derive(Default, Debug, Clone, Copy, PartialEq, Eq, PartialOrd, Ord, Hash, Structural)]
#[allow(missing_docs)]
pub enum PhyOptions {
    #[default]
    NoPreferredCoding,
    S2CodingPreferred,
    S8CodingPreferred,
}

impl View for PhyOptions {
    type V = PhyOptions;

    open spec fn view(&self) -> PhyOptions {
        *self
    }
}

impl PhyOptions {
    /// The 16-bit code of this value.
    pub open spec fn spec_raw(self) -> u16 {
        match self {
            PhyOptions::NoPreferredCoding => 0,
            PhyOptions::S2CodingPreferred => 1,
            PhyOptions::S8CodingPreferred => 2,
        }
    }

    /// The 16-bit code of this value.
    pub fn into_raw(self) -> (r: u16)
        ensures
            r == self.spec_raw(),
    {
        match self {
            PhyOptions::NoPreferredCoding => 0,
            PhyOptions::S2CodingPreferred => 1,
            PhyOptions::S8CodingPreferred => 2,
        }
    }
}

impl<'de> FromHciBytes<'de> for PhyOptions {
    open spec fn spec_from_hci_bytes(data: Seq<u8>) -> Result<(PhyOptions, nat), FromHciBytesError> {
        if data.len() < 2 {
            Err(FromHciBytesError::InvalidSize)
        } else if data[1] != 0 {
            Err(FromHciBytesError::InvalidValue)
        } else if data[0] == 0 {
            Ok((PhyOptions::NoPreferredCoding, 2))
        } else if data[0] == 1 {
            Ok((PhyOptions::S2CodingPreferred, 2))
        } else if data[0] == 2 {
            Ok((PhyOptions::S8CodingPreferred, 2))
        } else {
            Err(FromHciBytesError::InvalidValue)
        }
    }

    fn from_hci_bytes(data: &'de [u8]) -> (r: Result<(PhyOptions, &'de [u8]), FromHciBytesError>) {
        if data.len() < 2 {
            return Err(FromHciBytesError::InvalidSize);
        }
        if data[1] != 0 {
            return Err(FromHciBytesError::InvalidValue);
        }
        let v = match data[0] {
            0 => PhyOptions::NoPreferredCoding,
            1 => PhyOptions::S2CodingPreferred,
            2 => PhyOptions::S8CodingPreferred,
            _ => return Err(FromHciBytesError::InvalidValue),
        };
        let (_, rest) = data.split_at(2);
        Ok((v, rest))
    }
}

impl WriteHci for PhyOptions {
    open spec fn spec_hci_bytes(&self) -> Seq<u8> {
        spec_u16_le_bytes(self.spec_raw())
    }

    fn size(&self) -> (r: usize) {
        2
    }

    fn write_hci(&self, out: &mut Vec<u8>) {
        write_u16_le(self.into_raw(), out);
    }
}

impl FixedSizeValue for PhyOptions {
    open spec fn spec_size() -> nat {
        2
    }

    proof fn lemma_fixed_size(&self) {
    }
}

impl<'de> HciCodec<'de> for PhyOptions {
    open spec fn spec_encodable(&self) -> bool {
        true
    }

    proof fn lemma_write_then_read(&self, rest: Seq<u8>) {
    }
}

/// PHY preference or requirement during extended advertisement (BLE5.4)
#[derive(Default, Debug, Clone, Copy, PartialEq, Eq, PartialOrd, Ord, Hash, Structural)]
#[allow(missing_docs)]
pub enum AdvPhyOptions {
    #[default]
    NoPreferredCoding,
    S2CodingPreferred,
    S8CodingPreferred,
    S2CodingRequired,
    S8CodingRequired,
}

impl View for AdvPhyOptions {
    type V = AdvPhyOptions;

    open spec fn view(&self) -> AdvPhyOptions {
        *self
    }
}

impl AdvPhyOptions {
    /// The 16-bit code of this value.
    pub open spec fn spec_raw(self) -> u16 {
        match self {
            AdvPhyOptions::NoPreferredCoding => 0,
            AdvPhyOptions::S2CodingPreferred => 1,
            AdvPhyOptions::S8CodingPreferred => 2,
            AdvPhyOptions::S2CodingRequired => 3,
            AdvPhyOptions::S8CodingRequired => 4,
        }
    }

    /// The 16-bit code of this value.
    pub fn into_raw(self) -> (r: u16)
        ensures
            r == self.spec_raw(),
    {
        match self {
            AdvPhyOptions::NoPreferredCoding => 0,
            AdvPhyOptions::S2CodingPreferred => 1,
            AdvPhyOptions::S8CodingPreferred => 2,
            AdvPhyOptions::S2CodingRequired => 3,
            AdvPhyOptions::S8CodingRequired => 4,
        }
    }
}

impl<'de> FromHciBytes<'de> for AdvPhyOptions {
    open spec fn spec_from_hci_bytes(data: Seq<u8>) -> Result<(AdvPhyOptions, nat), FromHciBytesError> {
        if data.len() < 2 {
            Err(FromHciBytesError::InvalidSize)
        } else if data[1] != 0 {
            Err(FromHciBytesError::InvalidValue)
        } else if data[0] == 0 {
            Ok((AdvPhyOptions::NoPreferredCoding, 2))
        } else if data[0] == 1 {
            Ok((AdvPhyOptions::S2CodingPreferred, 2))
        } else if data[0] == 2 {
            Ok((AdvPhyOptions::S8CodingPreferred, 2))
        } else if data[0] == 3 {
            Ok((AdvPhyOptions::S2CodingRequired, 2))
        } else if data[0] == 4 {
            Ok((AdvPhyOptions::S8CodingRequired, 2))
        } else {
            Err(FromHciBytesError::InvalidValue)
        }
    }

    fn from_hci_bytes(data: &'de [u8]) -> (r: Result<(AdvPhyOptions, &'de [u8]), FromHciBytesError>) {
        if data.len() < 2 {
            return Err(FromHciBytesError::InvalidSize);
        }
        if data[1] != 0 {
            return Err(FromHciBytesError::InvalidValue);
        }
        let v = match data[0] {
            0 => AdvPhyOptions::NoPreferredCoding,
            1 => AdvPhyOptions::S2CodingPreferred,
            2 => AdvPhyOptions::S8CodingPreferred,
            3 => AdvPhyOptions::S2CodingRequired,
            4 => AdvPhyOptions::S8CodingRequired,
            _ => return Err(FromHciBytesError::InvalidValue),
        };
        let (_, rest) = data.split_at(2);
        Ok((v, rest))
    }
}

impl WriteHci for AdvPhyOptions {
    open spec fn spec_hci_bytes(&self) -> Seq<u8> {
        spec_u16_le_bytes(self.spec_raw())
    }

    fn size(&self) -> (r: usize) {
        2
    }

    fn write_hci(&self, out: &mut Vec<u8>) {
        write_u16_le(self.into_raw(), out);
    }
}

impl FixedSizeValue for AdvPhyOptions {
    open spec fn spec_size() -> nat {
        2
    }

    proof fn lemma_fixed_size(&self) {
    }
}

impl<'de> HciCodec<'de> for AdvPhyOptions {
    open spec fn spec_encodable(&self) -> bool {
        true
    }

    proof fn lemma_write_then_read(&self, rest: Seq<u8>) {
    }
}

/// ScanningPhy parameter
#[derive(Debug, Clone, Copy, PartialEq, Eq, PartialOrd, Ord, Hash)]
#[allow(missing_docs)]
pub struct ScanningPhy {
    pub active_scan: bool,
    pub scan_interval: Duration<625>,
    pub scan_window: Duration<625>,
}

/// The value of a [`ScanningPhy`], with byte slices taken as sequences.
#[allow(missing_docs)]
pub struct ScanningPhyView {
    pub active_scan: bool,
    pub scan_interval: u16,
    pub scan_window: u16,
}

impl View for ScanningPhy {
    type V = ScanningPhyView;

    open spec fn view(&self) -> ScanningPhyView {
        ScanningPhyView { active_scan: self.active_scan@, scan_interval: self.scan_interval@, scan_window: self.scan_window@ }
    }
}

impl<'de> FromHciBytes<'de> for ScanningPhy {
    open spec fn spec_from_hci_bytes(data: Seq<u8>) -> Result<(ScanningPhyView, nat), FromHciBytesError> {
        if data.len() < 5 {
            Err(FromHciBytesError::InvalidSize)
        } else {
            match <bool as FromHciBytes<'de>>::spec_from_hci_bytes(data) {
                Err(e) => Err(e),
                Ok((v_active_scan, n_active_scan)) => {
                    match <Duration<625> as FromHciBytes<'de>>::spec_from_hci_bytes(data.skip(n_active_scan as int)) {
                        Err(e) => Err(e),
                        Ok((v_scan_interval, n_scan_interval)) => {
                            match <Duration<625> as FromHciBytes<'de>>::spec_from_hci_bytes(data.skip(n_active_scan as int).skip(n_scan_interval as int)) {
                                Err(e) => Err(e),
                                Ok((v_scan_window, n_scan_window)) => {
                                    Ok((ScanningPhyView { active_scan: v_active_scan, scan_interval: v_scan_interval, scan_window: v_scan_window }, (n_active_scan + n_scan_interval + n_scan_window) as nat))
                                },
                            }
                        },
                    }
                },
            }
        }
    }

    fn from_hci_bytes(data: &'de [u8]) -> (r: Result<(ScanningPhy, &'de [u8]), FromHciBytesError>) {
        if data.len() < 5 {
            return Err(FromHciBytesError::InvalidSize);
        }
        let (v_active_scan, rest_active_scan) = match <bool as FromHciBytes<'de>>::from_hci_bytes(data) {
            Ok(x) => x,
            Err(e) => return Err(e),
        };
        let (v_scan_interval, rest_scan_interval) = match <Duration<625> as FromHciBytes<'de>>::from_hci_bytes(rest_active_scan) {
            Ok(x) => x,
            Err(e) => return Err(e),
        };
        proof {
            lemma_skip_skip(data@, (data@.len() - rest_active_scan@.len()) as int, (rest_active_scan@.len() - rest_scan_interval@.len()) as int);
        }
        let (v_scan_window, rest_scan_window) = match <Duration<625> as FromHciBytes<'de>>::from_hci_bytes(rest_scan_interval) {
            Ok(x) => x,
            Err(e) => return Err(e),
        };
        proof {
            lemma_skip_skip(data@, (data@.len() - rest_scan_interval@.len()) as int, (rest_scan_interval@.len() - rest_scan_window@.len()) as int);
        }
        Ok((ScanningPhy { active_scan: v_active_scan, scan_interval: v_scan_interval, scan_window: v_scan_window }, rest_scan_window))
    }
}

impl WriteHci for ScanningPhy {
    open spec fn spec_hci_bytes(&self) -> Seq<u8> {
        self.active_scan.spec_hci_bytes() + self.scan_interval.spec_hci_bytes() + self.scan_window.spec_hci_bytes()
    }

    fn size(&self) -> (r: usize) {
        let mut n = self.active_scan.size();
        proof {
            assert(self.active_scan.spec_hci_bytes() + self.scan_interval.spec_hci_bytes() =~= (self.active_scan.spec_hci_bytes() + self.scan_interval.spec_hci_bytes()));
        }
        n = n + self.scan_interval.size();
        proof {
            assert(self.active_scan.spec_hci_bytes() + self.scan_interval.spec_hci_bytes() + self.scan_window.spec_hci_bytes() =~= (self.active_scan.spec_hci_bytes() + self.scan_interval.spec_hci_bytes() + self.scan_window.spec_hci_bytes()));
        }
        n = n + self.scan_window.size();
        n
    }

    fn write_hci(&self, out: &mut Vec<u8>) {
        self.active_scan.write_hci(out);
        self.scan_interval.write_hci(out);
        self.scan_window.write_hci(out);
        proof {
            assert(out@ =~= old(out)@ + self.spec_hci_bytes());
        }
    }
}

impl ScanningPhy {
    /// The bytes of a `ScanningPhy` are the bytes of its fields, one after the
    /// other, in the order in which the fields are declared.
    pub proof fn lemma_fields_in_order(&self)
        ensures
            self.spec_hci_bytes() == self.active_scan.spec_hci_bytes() + self.scan_interval.spec_hci_bytes() + self.scan_window.spec_hci_bytes(),
    {
    }
}

impl FixedSizeValue for ScanningPhy {
    open spec fn spec_size() -> nat {
        5
    }

    proof fn lemma_fixed_size(&self) {
        self.active_scan.lemma_fixed_size();
        self.scan_interval.lemma_fixed_size();
        self.scan_window.lemma_fixed_size();
    }
}

impl<'de> HciCodec<'de> for ScanningPhy {
    open spec fn spec_encodable(&self) -> bool {
        self.active_scan.spec_encodable() && self.scan_interval.spec_encodable() && self.scan_window.spec_encodable()
    }

    proof fn lemma_write_then_read(&self, rest: Seq<u8>) {
        self.active_scan.lemma_fixed_size();
        self.scan_interval.lemma_fixed_size();
        self.scan_window.lemma_fixed_size();
        let t_scan_window = self.scan_window.spec_hci_bytes() + rest;
        let t_scan_interval = self.scan_interval.spec_hci_bytes() + t_scan_window;
        let t_active_scan = self.active_scan.spec_hci_bytes() + t_scan_interval;
        assert(self.spec_hci_bytes() + rest =~= t_active_scan);
        self.active_scan.lemma_write_then_read(t_scan_interval);
        self.scan_interval.lemma_write_then_read(t_scan_window);
        self.scan_window.lemma_write_then_read(rest);
        assert(t_active_scan.skip(self.active_scan.spec_hci_bytes().len() as int) =~= t_scan_interval);
        assert(t_scan_interval.skip(self.scan_interval.spec_hci_bytes().len() as int) =~= t_scan_window);
    }
}

/// InitiatingPhy parameter
#[derive(Debug, Clone, Copy, PartialEq, Eq, PartialOrd, Ord, Hash)]
#[allow(missing_docs)]
pub struct InitiatingPhy {
    pub scan_interval: Duration<625>,
    pub scan_window: Duration<625>,
    pub conn_interval_min: Duration<1_250>,
    pub conn_interval_max: Duration<1_250>,
    pub max_latency: u16,
    pub supervision_timeout: Duration<10_000>,
    pub min_ce_len: Duration<625>,
    pub max_ce_len: Duration<625>,
}

/// The value of a [`InitiatingPhy`], with byte slices taken as sequences.
#[allow(missing_docs)]
pub struct InitiatingPhyView {
    pub scan_interval: u16,
    pub scan_window: u16,
    pub conn_interval_min: u16,
    pub conn_interval_max: u16,
    pub max_latency: u16,
    pub supervision_timeout: u16,
    pub min_ce_len: u16,
    pub max_ce_len: u16,
}

impl View for InitiatingPhy {
    type V = InitiatingPhyView;

    open spec fn view(&self) -> InitiatingPhyView {
        InitiatingPhyView { scan_interval: self.scan_interval@, scan_window: self.scan_window@, conn_interval_min: self.conn_interval_min@, conn_interval_max: self.conn_interval_max@, max_latency: self.max_latency@, supervision_timeout: self.supervision_timeout@, min_ce_len: self.min_ce_len@, max_ce_len: self.max_ce_len@ }
    }
}

impl<'de> FromHciBytes<'de> for InitiatingPhy {
    open spec fn spec_from_hci_bytes(data: Seq<u8>) -> Result<(InitiatingPhyView, nat), FromHciBytesError> {
        if data.len() < 16 {
            Err(FromHciBytesError::InvalidSize)
        } else {
            match <Duration<625> as FromHciBytes<'de>>::spec_from_hci_bytes(data) {
                Err(e) => Err(e),
                Ok((v_scan_interval, n_scan_interval)) => {
                    match <Duration<625> as FromHciBytes<'de>>::spec_from_hci_bytes(data.skip(n_scan_interval as int)) {
                        Err(e) => Err(e),
                        Ok((v_scan_window, n_scan_window)) => {
                            match <Duration<1_250> as FromHciBytes<'de>>::spec_from_hci_bytes(data.skip(n_scan_interval as int).skip(n_scan_window as int)) {
                                Err(e) => Err(e),
                                Ok((v_conn_interval_min, n_conn_interval_min)) => {
                                    match <Duration<1_250> as FromHciBytes<'de>>::spec_from_hci_bytes(data.skip(n_scan_interval as int).skip(n_scan_window as int).skip(n_conn_interval_min as int)) {
                                        Err(e) => Err(e),
                                        Ok((v_conn_interval_max, n_conn_interval_max)) => {
                                            match <u16 as FromHciBytes<'de>>::spec_from_hci_bytes(data.skip(n_scan_interval as int).skip(n_scan_window as int).skip(n_conn_interval_min as int).skip(n_conn_interval_max as int)) {
                                                Err(e) => Err(e),
                                                Ok((v_max_latency, n_max_latency)) => {
                                                    match <Duration<10_000> as FromHciBytes<'de>>::spec_from_hci_bytes(data.skip(n_scan_interval as int).skip(n_scan_window as int).skip(n_conn_interval_min as int).skip(n_conn_interval_max as int).skip(n_max_latency as int)) {
                                                        Err(e) => Err(e),
                                                        Ok((v_supervision_timeout, n_supervision_timeout)) => {
                                                            match <Duration<625> as FromHciBytes<'de>>::spec_from_hci_bytes(data.skip(n_scan_interval as int).skip(n_scan_window as int).skip(n_conn_interval_min as int).skip(n_conn_interval_max as int).skip(n_max_latency as int).skip(n_supervision_timeout as int)) {
                                                                Err(e) => Err(e),
                                                                Ok((v_min_ce_len, n_min_ce_len)) => {
                                                                    match <Duration<625> as FromHciBytes<'de>>::spec_from_hci_bytes(data.skip(n_scan_interval as int).skip(n_scan_window as int).skip(n_conn_interval_min as int).skip(n_conn_interval_max as int).skip(n_max_latency as int).skip(n_supervision_timeout as int).skip(n_min_ce_len as int)) {
                                                                        Err(e) => Err(e),
                                                                        Ok((v_max_ce_len, n_max_ce_len)) => {
                                                                            Ok((InitiatingPhyView { scan_interval: v_scan_interval, scan_window: v_scan_window, conn_interval_min: v_conn_interval_min, conn_interval_max: v_conn_interval_max, max_latency: v_max_latency, supervision_timeout: v_supervision_timeout, min_ce_len: v_min_ce_len, max_ce_len: v_max_ce_len }, (n_scan_interval + n_scan_window + n_conn_interval_min + n_conn_interval_max + n_max_latency + n_supervision_timeout + n_min_ce_len + n_max_ce_len) as nat))
                                                                        },
                                                                    }
                                                                },
                                                            }
                                                        },
                                                    }
                                                },
                                            }
                                        },
                                    }
                                },
                            }
                        },
                    }
                },
            }
        }
    }

    fn from_hci_bytes(data: &'de [u8]) -> (r: Result<(InitiatingPhy, &'de [u8]), FromHciBytesError>) {
        if data.len() < 16 {
            return Err(FromHciBytesError::InvalidSize);
        }
        let (v_scan_interval, rest_scan_interval) = match <Duration<625> as FromHciBytes<'de>>::from_hci_bytes(data) {
            Ok(x) => x,
            Err(e) => return Err(e),
        };
        let (v_scan_window, rest_scan_window) = match <Duration<625> as FromHciBytes<'de>>::from_hci_bytes(rest_scan_interval) {
            Ok(x) => x,
            Err(e) => return Err(e),
        };
        proof {
            lemma_skip_skip(data@, (data@.len() - rest_scan_interval@.len()) as int, (rest_scan_interval@.len() - rest_scan_window@.len()) as int);
        }
        let (v_conn_interval_min, rest_conn_interval_min) = match <Duration<1_250> as FromHciBytes<'de>>::from_hci_bytes(rest_scan_window) {
            Ok(x) => x,
            Err(e) => return Err(e),
        };
        proof {
            lemma_skip_skip(data@, (data@.len() - rest_scan_window@.len()) as int, (rest_scan_window@.len() - rest_conn_interval_min@.len()) as int);
        }
        let (v_conn_interval_max, rest_conn_interval_max) = match <Duration<1_250> as FromHciBytes<'de>>::from_hci_bytes(rest_conn_interval_min) {
            Ok(x) => x,
            Err(e) => return Err(e),
        };
        proof {
            lemma_skip_skip(data@, (data@.len() - rest_conn_interval_min@.len()) as int, (rest_conn_interval_min@.len() - rest_conn_interval_max@.len()) as int);
        }
        let (v_max_latency, rest_max_latency) = match <u16 as FromHciBytes<'de>>::from_hci_bytes(rest_conn_interval_max) {
            Ok(x) => x,
            Err(e) => return Err(e),
        };
        proof {
            lemma_skip_skip(data@, (data@.len() - rest_conn_interval_max@.len()) as int, (rest_conn_interval_max@.len() - rest_max_latency@.len()) as int);
        }
        let (v_supervision_timeout, rest_supervision_timeout) = match <Duration<10_000> as FromHciBytes<'de>>::from_hci_bytes(rest_max_latency) {
            Ok(x) => x,
            Err(e) => return Err(e),
        };
        proof {
            lemma_skip_skip(data@, (data@.len() - rest_max_latency@.len()) as int, (rest_max_latency@.len() - rest_supervision_timeout@.len()) as int);
        }
        let (v_min_ce_len, rest_min_ce_len) = match <Duration<625> as FromHciBytes<'de>>::from_hci_bytes(rest_supervision_timeout) {
            Ok(x) => x,
            Err(e) => return Err(e),
        };
        proof {
            lemma_skip_skip(data@, (data@.len() - rest_supervision_timeout@.len()) as int, (rest_supervision_timeout@.len() - rest_min_ce_len@.len()) as int);
        }
        let (v_max_ce_len, rest_max_ce_len) = match <Duration<625> as FromHciBytes<'de>>::from_hci_bytes(rest_min_ce_len) {
            Ok(x) => x,
            Err(e) => return Err(e),
        };
        proof {
            lemma_skip_skip(data@, (data@.len() - rest_min_ce_len@.len()) as int, (rest_min_ce_len@.len() - rest_max_ce_len@.len()) as int);
        }
        Ok((InitiatingPhy { scan_interval: v_scan_interval, scan_window: v_scan_window, conn_interval_min: v_conn_interval_min, conn_interval_max: v_conn_interval_max, max_latency: v_max_latency, supervision_timeout: v_supervision_timeout, min_ce_len: v_min_ce_len, max_ce_len: v_max_ce_len }, rest_max_ce_len))
    }
}

impl WriteHci for InitiatingPhy {
    open spec fn spec_hci_bytes(&self) -> Seq<u8> {
        self.scan_interval.spec_hci_bytes() + self.scan_window.spec_hci_bytes() + self.conn_interval_min.spec_hci_bytes() + self.conn_interval_max.spec_hci_bytes() + self.max_latency.spec_hci_bytes() + self.supervision_timeout.spec_hci_bytes() + self.min_ce_len.spec_hci_bytes() + self.max_ce_len.spec_hci_bytes()
    }

    fn size(&self) -> (r: usize) {
        let mut n = self.scan_interval.size();
        proof {
            assert(self.scan_interval.spec_hci_bytes() + self.scan_window.spec_hci_bytes() =~= (self.scan_interval.spec_hci_bytes() + self.scan_window.spec_hci_bytes()));
        }
        n = n + self.scan_window.size();
        proof {
            assert(self.scan_interval.spec_hci_bytes() + self.scan_window.spec_hci_bytes() + self.conn_interval_min.spec_hci_bytes() =~= (self.scan_interval.spec_hci_bytes() + self.scan_window.spec_hci_bytes() + self.conn_interval_min.spec_hci_bytes()));
        }
        n = n + self.conn_interval_min.size();
        proof {
            assert(self.scan_interval.spec_hci_bytes() + self.scan_window.spec_hci_bytes() + self.conn_interval_min.spec_hci_bytes() + self.conn_interval_max.spec_hci_bytes() =~= (self.scan_interval.spec_hci_bytes() + self.scan_window.spec_hci_bytes() + self.conn_interval_min.spec_hci_bytes() + self.conn_interval_max.spec_hci_bytes()));
        }
        n = n + self.conn_interval_max.size();
        proof {
            assert(self.scan_interval.spec_hci_bytes() + self.scan_window.spec_hci_bytes() + self.conn_interval_min.spec_hci_bytes() + self.conn_interval_max.spec_hci_bytes() + self.max_latency.spec_hci_bytes() =~= (self.scan_interval.spec_hci_bytes() + self.scan_window.spec_hci_bytes() + self.conn_interval_min.spec_hci_bytes() + self.conn_interval_max.spec_hci_bytes() + self.max_latency.spec_hci_bytes()));
        }
        n = n + self.max_latency.size();
        proof {
            assert(self.scan_interval.spec_hci_bytes() + self.scan_window.spec_hci_bytes() + self.conn_interval_min.spec_hci_bytes() + self.conn_interval_max.spec_hci_bytes() + self.max_latency.spec_hci_bytes() + self.supervision_timeout.spec_hci_bytes() =~= (self.scan_interval.spec_hci_bytes() + self.scan_window.spec_hci_bytes() + self.conn_interval_min.spec_hci_bytes() + self.conn_interval_max.spec_hci_bytes() + self.max_latency.spec_hci_bytes() + self.supervision_timeout.spec_hci_bytes()));
        }
        n = n + self.supervision_timeout.size();
        proof {
            assert(self.scan_interval.spec_hci_bytes() + self.scan_window.spec_hci_bytes() + self.conn_interval_min.spec_hci_bytes() + self.conn_interval_max.spec_hci_bytes() + self.max_latency.spec_hci_bytes() + self.supervision_timeout.spec_hci_bytes() + self.min_ce_len.spec_hci_bytes() =~= (self.scan_interval.spec_hci_bytes() + self.scan_window.spec_hci_bytes() + self.conn_interval_min.spec_hci_bytes() + self.conn_interval_max.spec_hci_bytes() + self.max_latency.spec_hci_bytes() + self.supervision_timeout.spec_hci_bytes() + self.min_ce_len.spec_hci_bytes()));
        }
        n = n + self.min_ce_len.size();
        proof {
            assert(self.scan_interval.spec_hci_bytes() + self.scan_window.spec_hci_bytes() + self.conn_interval_min.spec_hci_bytes() + self.conn_interval_max.spec_hci_bytes() + self.max_latency.spec_hci_bytes() + self.supervision_timeout.spec_hci_bytes() + self.min_ce_len.spec_hci_bytes() + self.max_ce_len.spec_hci_bytes() =~= (self.scan_interval.spec_hci_bytes() + self.scan_window.spec_hci_bytes() + self.conn_interval_min.spec_hci_bytes() + self.conn_interval_max.spec_hci_bytes() + self.max_latency.spec_hci_bytes() + self.supervision_timeout.spec_hci_bytes() + self.min_ce_len.spec_hci_bytes() + self.max_ce_len.spec_hci_bytes()));
        }
        n = n + self.max_ce_len.size();
        n
    }

    fn write_hci(&self, out: &mut Vec<u8>) {
        self.scan_interval.write_hci(out);
        self.scan_window.write_hci(out);
        self.conn_interval_min.write_hci(out);
        self.conn_interval_max.write_hci(out);
        self.max_latency.write_hci(out);
        self.supervision_timeout.write_hci(out);
        self.min_ce_len.write_hci(out);
        self.max_ce_len.write_hci(out);
        proof {
            assert(out@ =~= old(out)@ + self.spec_hci_bytes());
        }
    }
}

impl InitiatingPhy {
    /// The bytes of a `InitiatingPhy` are the bytes of its fields, one after the
    /// other, in the order in which the fields are declared.
    pub proof fn lemma_fields_in_order(&self)
        ensures
            self.spec_hci_bytes() == self.scan_interval.spec_hci_bytes() + self.scan_window.spec_hci_bytes() + self.conn_interval_min.spec_hci_bytes() + self.conn_interval_max.spec_hci_bytes() + self.max_latency.spec_hci_bytes() + self.supervision_timeout.spec_hci_bytes() + self.min_ce_len.spec_hci_bytes() + self.max_ce_len.spec_hci_bytes(),
    {
    }
}

impl FixedSizeValue for InitiatingPhy {
    open spec fn spec_size() -> nat {
        16
    }

    proof fn lemma_fixed_size(&self) {
        self.scan_interval.lemma_fixed_size();
        self.scan_window.lemma_fixed_size();
        self.conn_interval_min.lemma_fixed_size();
        self.conn_interval_max.lemma_fixed_size();
        self.max_latency.lemma_fixed_size();
        self.supervision_timeout.lemma_fixed_size();
        self.min_ce_len.lemma_fixed_size();
        self.max_ce_len.lemma_fixed_size();
    }
}

impl<'de> HciCodec<'de> for InitiatingPhy {
    open spec fn spec_encodable(&self) -> bool {
        self.scan_interval.spec_encodable() && self.scan_window.spec_encodable() && self.conn_interval_min.spec_encodable() && self.conn_interval_max.spec_encodable() && self.max_latency.spec_encodable() && self.supervision_timeout.spec_encodable() && self.min_ce_len.spec_encodable() && self.max_ce_len.spec_encodable()
    }

    proof fn lemma_write_then_read(&self, rest: Seq<u8>) {
        self.scan_interval.lemma_fixed_size();
        self.scan_window.lemma_fixed_size();
        self.conn_interval_min.lemma_fixed_size();
        self.conn_interval_max.lemma_fixed_size();
        self.max_latency.lemma_fixed_size();
        self.supervision_timeout.lemma_fixed_size();
        self.min_ce_len.lemma_fixed_size();
        self.max_ce_len.lemma_fixed_size();
        let t_max_ce_len = self.max_ce_len.spec_hci_bytes() + rest;
        let t_min_ce_len = self.min_ce_len.spec_hci_bytes() + t_max_ce_len;
        let t_supervision_timeout = self.supervision_timeout.spec_hci_bytes() + t_min_ce_len;
        let t_max_latency = self.max_latency.spec_hci_bytes() + t_supervision_timeout;
        let t_conn_interval_max = self.conn_interval_max.spec_hci_bytes() + t_max_latency;
        let t_conn_interval_min = self.conn_interval_min.spec_hci_bytes() + t_conn_interval_max;
        let t_scan_window = self.scan_window.spec_hci_bytes() + t_conn_interval_min;
        let t_scan_interval = self.scan_interval.spec_hci_bytes() + t_scan_window;
        assert(self.spec_hci_bytes() + rest =~= t_scan_interval);
        self.scan_interval.lemma_write_then_read(t_scan_window);
        self.scan_window.lemma_write_then_read(t_conn_interval_min);
        self.conn_interval_min.lemma_write_then_read(t_conn_interval_max);
        self.conn_interval_max.lemma_write_then_read(t_max_latency);
        self.max_latency.lemma_write_then_read(t_supervision_timeout);
        self.supervision_timeout.lemma_write_then_read(t_min_ce_len);
        self.min_ce_len.lemma_write_then_read(t_max_ce_len);
        self.max_ce_len.lemma_write_then_read(rest);
        assert(t_scan_interval.skip(self.scan_interval.spec_hci_bytes().len() as int) =~= t_scan_window);
        assert(t_scan_window.skip(self.scan_window.spec_hci_bytes().len() as int) =~= t_conn_interval_min);
        assert(t_conn_interval_min.skip(self.conn_interval_min.spec_hci_bytes().len() as int) =~= t_conn_interval_max);
        assert(t_conn_interval_max.skip(self.conn_interval_max.spec_hci_bytes().len() as int) =~= t_max_latency);
        assert(t_max_latency.skip(self.max_latency.spec_hci_bytes().len() as int) =~= t_supervision_timeout);
        assert(t_supervision_timeout.skip(self.supervision_timeout.spec_hci_bytes().len() as int) =~= t_min_ce_len);
        assert(t_min_ce_len.skip(self.min_ce_len.spec_hci_bytes().len() as int) =~= t_max_ce_len);
    }
}

/// ConnIntervalGroup parameter
#[derive(Debug, Clone, Copy, PartialEq, Eq, PartialOrd, Ord, Hash)]
#[allow(missing_docs)]
pub struct ConnIntervalGroup {
    pub min: Duration<125>,
    pub max: Duration<125>,
    pub stride: Duration<125>,
}

/// The value of a [`ConnIntervalGroup`], with byte slices taken as sequences.
#[allow(missing_docs)]
pub struct ConnIntervalGroupView {
    pub min: u16,
    pub max: u16,
    pub stride: u16,
}

impl View for ConnIntervalGroup {
    type V = ConnIntervalGroupView;

    open spec fn view(&self) -> ConnIntervalGroupView {
        ConnIntervalGroupView { min: self.min@, max: self.max@, stride: self.stride@ }
    }
}

impl<'de> FromHciBytes<'de> for ConnIntervalGroup {
    open spec fn spec_from_hci_bytes(data: Seq<u8>) -> Result<(ConnIntervalGroupView, nat), FromHciBytesError> {
        if data.len() < 6 {
            Err(FromHciBytesError::InvalidSize)
        } else {
            match <Duration<125> as FromHciBytes<'de>>::spec_from_hci_bytes(data) {
                Err(e) => Err(e),
                Ok((v_min, n_min)) => {
                    match <Duration<125> as FromHciBytes<'de>>::spec_from_hci_bytes(data.skip(n_min as int)) {
                        Err(e) => Err(e),
                        Ok((v_max, n_max)) => {
                            match <Duration<125> as FromHciBytes<'de>>::spec_from_hci_bytes(data.skip(n_min as int).skip(n_max as int)) {
                                Err(e) => Err(e),
                                Ok((v_stride, n_stride)) => {
                                    Ok((ConnIntervalGroupView { min: v_min, max: v_max, stride: v_stride }, (n_min + n_max + n_stride) as nat))
                                },
                            }
                        },
                    }
                },
            }
        }
    }

    fn from_hci_bytes(data: &'de [u8]) -> (r: Result<(ConnIntervalGroup, &'de [u8]), FromHciBytesError>) {
        if data.len() < 6 {
            return Err(FromHciBytesError::InvalidSize);
        }
        let (v_min, rest_min) = match <Duration<125> as FromHciBytes<'de>>::from_hci_bytes(data) {
            Ok(x) => x,
            Err(e) => return Err(e),
        };
        let (v_max, rest_max) = match <Duration<125> as FromHciBytes<'de>>::from_hci_bytes(rest_min) {
            Ok(x) => x,
            Err(e) => return Err(e),
        };
        proof {
            lemma_skip_skip(data@, (data@.len() - rest_min@.len()) as int, (rest_min@.len() - rest_max@.len()) as int);
        }
        let (v_stride, rest_stride) = match <Duration<125> as FromHciBytes<'de>>::from_hci_bytes(rest_max) {
            Ok(x) => x,
            Err(e) => return Err(e),
        };
        proof {
            lemma_skip_skip(data@, (data@.len() - rest_max@.len()) as int, (rest_max@.len() - rest_stride@.len()) as int);
        }
        Ok((ConnIntervalGroup { min: v_min, max: v_max, stride: v_stride }, rest_stride))
    }
}

impl WriteHci for ConnIntervalGroup {
    open spec fn spec_hci_bytes(&self) -> Seq<u8> {
        self.min.spec_hci_bytes() + self.max.spec_hci_bytes() + self.stride.spec_hci_bytes()
    }

    fn size(&self) -> (r: usize) {
        let mut n = self.min.size();
        proof {
            assert(self.min.spec_hci_bytes() + self.max.spec_hci_bytes() =~= (self.min.spec_hci_bytes() + self.max.spec_hci_bytes()));
        }
        n = n + self.max.size();
        proof {
            assert(self.min.spec_hci_bytes() + self.max.spec_hci_bytes() + self.stride.spec_hci_bytes() =~= (self.min.spec_hci_bytes() + self.max.spec_hci_bytes() + self.stride.spec_hci_bytes()));
        }
        n = n + self.stride.size();
        n
    }

    fn write_hci(&self, out: &mut Vec<u8>) {
        self.min.write_hci(out);
        self.max.write_hci(out);
        self.stride.write_hci(out);
        proof {
            assert(out@ =~= old(out)@ + self.spec_hci_bytes());
        }
    }
}

impl ConnIntervalGroup {
    /// The bytes of a `ConnIntervalGroup` are the bytes of its fields, one after the
    /// other, in the order in which the fields are declared.
    pub proof fn lemma_fields_in_order(&self)
        ensures
            self.spec_hci_bytes() == self.min.spec_hci_bytes() + self.max.spec_hci_bytes() + self.stride.spec_hci_bytes(),
    {
    }
}

impl FixedSizeValue for ConnIntervalGroup {
    open spec fn spec_size() -> nat {
        6
    }

    proof fn lemma_fixed_size(&self) {
        self.min.lemma_fixed_size();
        self.max.lemma_fixed_size();
        self.stride.lemma_fixed_size();
    }
}

impl<'de> HciCodec<'de> for ConnIntervalGroup {
    open spec fn spec_encodable(&self) -> bool {
        self.min.spec_encodable() && self.max.spec_encodable() && self.stride.spec_encodable()
    }

    proof fn lemma_write_then_read(&self, rest: Seq<u8>) {
        self.min.lemma_fixed_size();
        self.max.lemma_fixed_size();
        self.stride.lemma_fixed_size();
        let t_stride = self.stride.spec_hci_bytes() + rest;
        let t_max = self.max.spec_hci_bytes() + t_stride;
        let t_min = self.min.spec_hci_bytes() + t_max;
        assert(self.spec_hci_bytes() + rest =~= t_min);
        self.min.lemma_write_then_read(t_max);
        self.max.lemma_write_then_read(t_stride);
        self.stride.lemma_write_then_read(rest);
        assert(t_min.skip(self.min.spec_hci_bytes().len() as int) =~= t_max);
        assert(t_max.skip(self.max.spec_hci_bytes().len() as int) =~= t_stride);
    }
}

/// Parameters for different phy representations.
#[derive(Debug, Clone, Copy, PartialEq, Eq, PartialOrd, Ord, Hash)]
pub struct PhyParams<T> {
    /// 1M phy parameters.
    pub le_1m_phy: Option<T>,
    /// 2M phy parameters.
    pub le_2m_phy: Option<T>,
    /// Coded phy parameters.
    pub le_coded_phy: Option<T>,
}

impl<T> View for PhyParams<T> {
    type V = PhyParams<T>;

    open spec fn view(&self) -> PhyParams<T> {
        *self
    }
}

/// The phy mask byte with bits 0, 1 and 2 set as given.
pub open spec fn spec_phy_mask(le_1m: bool, le_2m: bool, le_coded: bool) -> u8 {
    spec_with_bit(spec_with_bit(spec_with_bit(0u8, 0u8, le_1m), 1u8, le_2m), 2u8, le_coded)
}

impl<T> PhyParams<T> {
    /// The mask byte that announces which phys carry parameters.
    pub open spec fn spec_scanning_phys(&self) -> u8 {
        spec_phy_mask(self.le_1m_phy is Some, self.le_2m_phy is Some, self.le_coded_phy is Some)
    }

    /// Get the mask associated with the parameters.
    pub fn scanning_phys(&self) -> (r: PhyMask)
        ensures
            r@ == self.spec_scanning_phys(),
    {
        PhyMask::new().set_le_1m_phy(self.le_1m_phy.is_some()).set_le_2m_phy(
            self.le_2m_phy.is_some(),
        ).set_le_coded_phy(self.le_coded_phy.is_some())
    }
}

impl<T: WriteHci> WriteHci for PhyParams<T> {
    open spec fn spec_hci_bytes(&self) -> Seq<u8> {
        seq![self.spec_scanning_phys()] + self.le_1m_phy.spec_hci_bytes()
            + self.le_2m_phy.spec_hci_bytes() + self.le_coded_phy.spec_hci_bytes()
    }

    fn size(&self) -> (r: usize) {
        let a = self.le_1m_phy.size();
        let b = self.le_2m_phy.size();
        let c = self.le_coded_phy.size();
        1 + a + b + c
    }

    fn write_hci(&self, out: &mut Vec<u8>) {
        self.scanning_phys().write_hci(out);
        self.le_1m_phy.write_hci(out);
        self.le_2m_phy.write_hci(out);
        self.le_coded_phy.write_hci(out);
        proof {
            assert(out@ =~= old(out)@ + self.spec_hci_bytes());
        }
    }
}

/// AdvHandle
#[derive(Debug, Clone, Copy, PartialEq, Eq, PartialOrd, Ord, Hash, Default)]
pub struct AdvHandle(u8);

impl View for AdvHandle {
    type V = u8;

    closed spec fn view(&self) -> u8 {
        self.0@
    }
}

impl AdvHandle {
    /// Get inner representation
    pub fn into_inner(self) -> (r: u8)
        ensures
            r@ == self@,
    {
        self.0
    }

    /// A `AdvHandle` is written and read as its inner value.
    pub proof fn lemma_as_inner(data: Seq<u8>)
        ensures
            forall|v: AdvHandle| (#[trigger] v.spec_hci_bytes()) == v@.spec_hci_bytes(),
            <AdvHandle as FromHciBytes>::spec_from_hci_bytes(data) == <u8 as FromHciBytes>::spec_from_hci_bytes(data),
    {
    }
}

impl<'de> FromHciBytes<'de> for AdvHandle {
    open spec fn spec_from_hci_bytes(data: Seq<u8>) -> Result<(u8, nat), FromHciBytesError> {
        <u8 as FromHciBytes<'de>>::spec_from_hci_bytes(data)
    }

    fn from_hci_bytes(data: &'de [u8]) -> (r: Result<(AdvHandle, &'de [u8]), FromHciBytesError>) {
        match <u8 as FromHciBytes<'de>>::from_hci_bytes(data) {
            Ok((v, rest)) => Ok((AdvHandle(v), rest)),
            Err(e) => Err(e),
        }
    }
}

impl WriteHci for AdvHandle {
    open spec fn spec_hci_bytes(&self) -> Seq<u8> {
        seq![self@]
    }

    fn size(&self) -> (r: usize) {
        self.0.size()
    }

    fn write_hci(&self, out: &mut Vec<u8>) {
        self.0.write_hci(out);
    }
}

impl FixedSizeValue for AdvHandle {
    open spec fn spec_size() -> nat {
        1
    }

    proof fn lemma_fixed_size(&self) {
        self.0.lemma_fixed_size();
    }
}

impl<'de> HciCodec<'de> for AdvHandle {
    open spec fn spec_encodable(&self) -> bool {
        true
    }

    proof fn lemma_write_then_read(&self, rest: Seq<u8>) {
        self.0.lemma_write_then_read(rest);
    }
}

impl AdvHandle {
    /// Create a new instance.
    pub fn new(v: u8) -> (r: Self)
        ensures
            r@ == v,
    {
        AdvHandle(v)
    }

    /// Get the inner representation.
    pub fn as_raw(&self) -> (r: u8)
        ensures
            r == self@,
    {
        self.0
    }
}

/// AdvEventProps
#[derive(Debug, Clone, Copy, PartialEq, Eq, PartialOrd, Ord, Hash, Default)]
pub struct AdvEventProps([u8; 2]);

impl View for AdvEventProps {
    type V = Seq<u8>;

    closed spec fn view(&self) -> Seq<u8> {
        self.0@
    }
}

impl AdvEventProps {
    /// Create a new instance with every bit clear.
    pub fn new() -> (r: Self)
        ensures
            r@ == Seq::new(2, |i: int| 0u8),
    {
        let r = AdvEventProps([0u8; 2]);
        proof {
            assert(r@ =~= Seq::new(2, |i: int| 0u8));
        }
        r
    }

    /// Get the inner representation.
    pub fn into_inner(self) -> (r: [u8; 2])
        ensures
            r@ == self@,
    {
        self.0
    }

    /// The representation has one byte per octet.
    pub proof fn lemma_len(&self)
        ensures
            self@.len() == 2,
    {
    }

    /// Whether bit 0 is set.
    pub fn connectable_adv(&self) -> (r: bool)
        ensures
            r == spec_bit(self@[0], 0u8),
    {
        bit_is_set(self.0[0], 0u8)
    }

    /// Set bit 0 to `val`.
    pub fn set_connectable_adv(self, val: bool) -> (r: Self)
        ensures
            r@ == self@.update(0, spec_with_bit(self@[0], 0u8, val)),
    {
        let mut bytes = self.0;
        bytes[0] = with_bit(bytes[0], 0u8, val);
        let r = AdvEventProps(bytes);
        proof {
            assert(r@ =~= self@.update(0, spec_with_bit(self@[0], 0u8, val)));
        }
        r
    }

    /// Whether bit 1 is set.
    pub fn scannable_adv(&self) -> (r: bool)
        ensures
            r == spec_bit(self@[0], 1u8),
    {
        bit_is_set(self.0[0], 1u8)
    }

    /// Set bit 1 to `val`.
    pub fn set_scannable_adv(self, val: bool) -> (r: Self)
        ensures
            r@ == self@.update(0, spec_with_bit(self@[0], 1u8, val)),
    {
        let mut bytes = self.0;
        bytes[0] = with_bit(bytes[0], 1u8, val);
        let r = AdvEventProps(bytes);
        proof {
            assert(r@ =~= self@.update(0, spec_with_bit(self@[0], 1u8, val)));
        }
        r
    }

    /// Whether bit 2 is set.
    pub fn directed_adv(&self) -> (r: bool)
        ensures
            r == spec_bit(self@[0], 2u8),
    {
        bit_is_set(self.0[0], 2u8)
    }

    /// Set bit 2 to `val`.
    pub fn set_directed_adv(self, val: bool) -> (r: Self)
        ensures
            r@ == self@.update(0, spec_with_bit(self@[0], 2u8, val)),
    {
        let mut bytes = self.0;
        bytes[0] = with_bit(bytes[0], 2u8, val);
        let r = AdvEventProps(bytes);
        proof {
            assert(r@ =~= self@.update(0, spec_with_bit(self@[0], 2u8, val)));
        }
        r
    }

    /// Whether bit 3 is set.
    pub fn high_duty_cycle_directed_connectable_adv(&self) -> (r: bool)
        ensures
            r == spec_bit(self@[0], 3u8),
    {
        bit_is_set(self.0[0], 3u8)
    }

    /// Set bit 3 to `val`.
    pub fn set_high_duty_cycle_directed_connectable_adv(self, val: bool) -> (r: Self)
        ensures
            r@ == self@.update(0, spec_with_bit(self@[0], 3u8, val)),
    {
        let mut bytes = self.0;
        bytes[0] = with_bit(bytes[0], 3u8, val);
        let r = AdvEventProps(bytes);
        proof {
            assert(r@ =~= self@.update(0, spec_with_bit(self@[0], 3u8, val)));
        }
        r
    }

    /// Whether bit 4 is set.
    pub fn legacy_adv(&self) -> (r: bool)
        ensures
            r == spec_bit(self@[0], 4u8),
    {
        bit_is_set(self.0[0], 4u8)
    }

    /// Set bit 4 to `val`.
    pub fn set_legacy_adv(self, val: bool) -> (r: Self)
        ensures
            r@ == self@.update(0, spec_with_bit(self@[0], 4u8, val)),
    {
        let mut bytes = self.0;
        bytes[0] = with_bit(bytes[0], 4u8, val);
        let r = AdvEventProps(bytes);
        proof {
            assert(r@ =~= self@.update(0, spec_with_bit(self@[0], 4u8, val)));
        }
        r
    }

    /// Whether bit 5 is set.
    pub fn anonymous_adv(&self) -> (r: bool)
        ensures
            r == spec_bit(self@[0], 5u8),
    {
        bit_is_set(self.0[0], 5u8)
    }

    /// Set bit 5 to `val`.
    pub fn set_anonymous_adv(self, val: bool) -> (r: Self)
        ensures
            r@ == self@.update(0, spec_with_bit(self@[0], 5u8, val)),
    {
        let mut bytes = self.0;
        bytes[0] = with_bit(bytes[0], 5u8, val);
        let r = AdvEventProps(bytes);
        proof {
            assert(r@ =~= self@.update(0, spec_with_bit(self@[0], 5u8, val)));
        }
        r
    }

    /// Whether bit 6 is set.
    pub fn include_tx_power(&self) -> (r: bool)
        ensures
            r == spec_bit(self@[0], 6u8),
    {
        bit_is_set(self.0[0], 6u8)
    }

    /// Set bit 6 to `val`.
    pub fn set_include_tx_power(self, val: bool) -> (r: Self)
        ensures
            r@ == self@.update(0, spec_with_bit(self@[0], 6u8, val)),
    {
        let mut bytes = self.0;
        bytes[0] = with_bit(bytes[0], 6u8, val);
        let r = AdvEventProps(bytes);
        proof {
            assert(r@ =~= self@.update(0, spec_with_bit(self@[0], 6u8, val)));
        }
        r
    }
}

impl<'de> FromHciBytes<'de> for AdvEventProps {
    open spec fn spec_from_hci_bytes(data: Seq<u8>) -> Result<(Seq<u8>, nat), FromHciBytesError> {
        <[u8; 2] as FromHciBytes<'de>>::spec_from_hci_bytes(data)
    }

    fn from_hci_bytes(data: &'de [u8]) -> (r: Result<(AdvEventProps, &'de [u8]), FromHciBytesError>) {
        match <[u8; 2] as FromHciBytes<'de>>::from_hci_bytes(data) {
            Ok((v, rest)) => Ok((AdvEventProps(v), rest)),
            Err(e) => Err(e),
        }
    }
}

impl WriteHci for AdvEventProps {
    open spec fn spec_hci_bytes(&self) -> Seq<u8> {
        self@
    }

    fn size(&self) -> (r: usize) {
        self.0.size()
    }

    fn write_hci(&self, out: &mut Vec<u8>) {
        self.0.write_hci(out);
    }
}

impl FixedSizeValue for AdvEventProps {
    open spec fn spec_size() -> nat {
        2
    }

    proof fn lemma_fixed_size(&self) {
        self.0.lemma_fixed_size();
    }
}

impl<'de> HciCodec<'de> for AdvEventProps {
    open spec fn spec_encodable(&self) -> bool {
        true
    }

    proof fn lemma_write_then_read(&self, rest: Seq<u8>) {
        self.0.lemma_write_then_read(rest);
    }
}

/// Operation.
#[derive(Debug, Clone, Copy, PartialEq, Eq, PartialOrd, Ord, Hash, Structural, Default)]
#[allow(missing_docs)]
pub enum Operation {
    #[default]
    IntermediateFragment,
    FirstFragment,
    LastFragment,
    Complete,
    Unchanged,
}

impl View for Operation {
    type V = Operation;

    open spec fn view(&self) -> Operation {
        *self
    }
}

impl Operation {
    /// The byte that encodes this value.
    pub open spec fn spec_raw(self) -> u8 {
        match self {
            Operation::IntermediateFragment => 0x00u8,
            Operation::FirstFragment => 0x01u8,
            Operation::LastFragment => 0x02u8,
            Operation::Complete => 0x03u8,
            Operation::Unchanged => 0x04u8,
        }
    }

    /// The value that a byte encodes, if it encodes one.
    pub open spec fn spec_from_raw(b: u8) -> Option<Operation> {
        if b == 0x00u8 {
            Some(Operation::IntermediateFragment)
        } else if b == 0x01u8 {
            Some(Operation::FirstFragment)
        } else if b == 0x02u8 {
            Some(Operation::LastFragment)
        } else if b == 0x03u8 {
            Some(Operation::Complete)
        } else if b == 0x04u8 {
            Some(Operation::Unchanged)
        } else {
            None
        }
    }

    /// The byte that encodes this value.
    pub fn into_raw(self) -> (r: u8)
        ensures
            r == self.spec_raw(),
    {
        match self {
            Operation::IntermediateFragment => 0x00u8,
            Operation::FirstFragment => 0x01u8,
            Operation::LastFragment => 0x02u8,
            Operation::Complete => 0x03u8,
            Operation::Unchanged => 0x04u8,
        }
    }

    /// The byte of each value is fixed, each of those bytes decodes to its
    /// value, and no other byte decodes.
    pub proof fn lemma_codes()
        ensures
            Operation::IntermediateFragment.spec_raw() == 0x00u8,
            Operation::FirstFragment.spec_raw() == 0x01u8,
            Operation::LastFragment.spec_raw() == 0x02u8,
            Operation::Complete.spec_raw() == 0x03u8,
            Operation::Unchanged.spec_raw() == 0x04u8,
            Operation::spec_from_raw(0x00u8) == Some(Operation::IntermediateFragment),
            Operation::spec_from_raw(0x01u8) == Some(Operation::FirstFragment),
            Operation::spec_from_raw(0x02u8) == Some(Operation::LastFragment),
            Operation::spec_from_raw(0x03u8) == Some(Operation::Complete),
            Operation::spec_from_raw(0x04u8) == Some(Operation::Unchanged),
            forall|b: u8| b != 0x00u8 && b != 0x01u8 && b != 0x02u8 && b != 0x03u8 && b != 0x04u8 ==> (#[trigger] Operation::spec_from_raw(b)) is None,
            forall|v: Operation| (#[trigger] v.spec_hci_bytes()) == seq![v.spec_raw()],
            forall|data: Seq<u8>| data.len() >= 1 ==> (#[trigger] <Operation as FromHciBytes>::spec_from_hci_bytes(data)) == match Operation::spec_from_raw(data[0]) {
                Some(v) => Ok::<(Operation, nat), FromHciBytesError>((v, 1)),
                None => Err::<(Operation, nat), FromHciBytesError>(FromHciBytesError::InvalidValue),
            },
    {
    }

    /// The value that a byte encodes, if it encodes one.
    pub fn from_raw(b: u8) -> (r: Option<Operation>)
        ensures
            r == Self::spec_from_raw(b),
    {
        match b {
            0x00u8 => Some(Operation::IntermediateFragment),
            0x01u8 => Some(Operation::FirstFragment),
            0x02u8 => Some(Operation::LastFragment),
            0x03u8 => Some(Operation::Complete),
            0x04u8 => Some(Operation::Unchanged),
            _ => None,
        }
    }
}

impl<'de> FromHciBytes<'de> for Operation {
    open spec fn spec_from_hci_bytes(data: Seq<u8>) -> Result<(Operation, nat), FromHciBytesError> {
        if data.len() < 1 {
            Err(FromHciBytesError::InvalidSize)
        } else {
            match Operation::spec_from_raw(data[0]) {
                Some(v) => Ok((v, 1)),
                None => Err(FromHciBytesError::InvalidValue),
            }
        }
    }

    fn from_hci_bytes(data: &'de [u8]) -> (r: Result<(Operation, &'de [u8]), FromHciBytesError>) {
        if data.len() < 1 {
            return Err(FromHciBytesError::InvalidSize);
        }
        match Operation::from_raw(data[0]) {
            Some(v) => {
                let (_, rest) = data.split_at(1);
                Ok((v, rest))
            },
            None => Err(FromHciBytesError::InvalidValue),
        }
    }
}

impl WriteHci for Operation {
    open spec fn spec_hci_bytes(&self) -> Seq<u8> {
        seq![self.spec_raw()]
    }

    fn size(&self) -> (r: usize) {
        1
    }

    fn write_hci(&self, out: &mut Vec<u8>) {
        out.push(self.into_raw());
        proof {
            assert(final(out)@ =~= old(out)@ + self.spec_hci_bytes());
        }
    }
}

impl FixedSizeValue for Operation {
    open spec fn spec_size() -> nat {
        1
    }

    proof fn lemma_fixed_size(&self) {
    }
}

impl<'de> HciCodec<'de> for Operation {
    open spec fn spec_encodable(&self) -> bool {
        true
    }

    proof fn lemma_write_then_read(&self, rest: Seq<u8>) {
        match *self {
            Operation::IntermediateFragment => {},
            Operation::FirstFragment => {},
            Operation::LastFragment => {},
            Operation::Complete => {},
            Operation::Unchanged => {},
        }
    }
}

/// AdvSet parameter
#[derive(Debug, Clone, Copy, PartialEq, Eq, PartialOrd, Ord, Hash)]
#[allow(missing_docs)]
pub struct AdvSet {
    pub adv_handle: AdvHandle,
    pub duration: Duration<10_000>,
    pub max_ext_adv_events: u8,
}

/// The value of a [`AdvSet`], with byte slices taken as sequences.
#[allow(missing_docs)]
pub struct AdvSetView {
    pub adv_handle: u8,
    pub duration: u16,
    pub max_ext_adv_events: u8,
}

impl View for AdvSet {
    type V = AdvSetView;

    open spec fn view(&self) -> AdvSetView {
        AdvSetView { adv_handle: self.adv_handle@, duration: self.duration@, max_ext_adv_events: self.max_ext_adv_events@ }
    }
}

impl<'de> FromHciBytes<'de> for AdvSet {
    open spec fn spec_from_hci_bytes(data: Seq<u8>) -> Result<(AdvSetView, nat), FromHciBytesError> {
        if data.len() < 4 {
            Err(FromHciBytesError::InvalidSize)
        } else {
            match <AdvHandle as FromHciBytes<'de>>::spec_from_hci_bytes(data) {
                Err(e) => Err(e),
                Ok((v_adv_handle, n_adv_handle)) => {
                    match <Duration<10_000> as FromHciBytes<'de>>::spec_from_hci_bytes(data.skip(n_adv_handle as int)) {
                        Err(e) => Err(e),
                        Ok((v_duration, n_duration)) => {
                            match <u8 as FromHciBytes<'de>>::spec_from_hci_bytes(data.skip(n_adv_handle as int).skip(n_duration as int)) {
                                Err(e) => Err(e),
                                Ok((v_max_ext_adv_events, n_max_ext_adv_events)) => {
                                    Ok((AdvSetView { adv_handle: v_adv_handle, duration: v_duration, max_ext_adv_events: v_max_ext_adv_events }, (n_adv_handle + n_duration + n_max_ext_adv_events) as nat))
                                },
                            }
                        },
                    }
                },
            }
        }
    }

    fn from_hci_bytes(data: &'de [u8]) -> (r: Result<(AdvSet, &'de [u8]), FromHciBytesError>) {
        if data.len() < 4 {
            return Err(FromHciBytesError::InvalidSize);
        }
        let (v_adv_handle, rest_adv_handle) = match <AdvHandle as FromHciBytes<'de>>::from_hci_bytes(data) {
            Ok(x) => x,
            Err(e) => return Err(e),
        };
        let (v_duration, rest_duration) = match <Duration<10_000> as FromHciBytes<'de>>::from_hci_bytes(rest_adv_handle) {
            Ok(x) => x,
            Err(e) => return Err(e),
        };
        proof {
            lemma_skip_skip(data@, (data@.len() - rest_adv_handle@.len()) as int, (rest_adv_handle@.len() - rest_duration@.len()) as int);
        }
        let (v_max_ext_adv_events, rest_max_ext_adv_events) = match <u8 as FromHciBytes<'de>>::from_hci_bytes(rest_duration) {
            Ok(x) => x,
            Err(e) => return Err(e),
        };
        proof {
            lemma_skip_skip(data@, (data@.len() - rest_duration@.len()) as int, (rest_duration@.len() - rest_max_ext_adv_events@.len()) as int);
        }
        Ok((AdvSet { adv_handle: v_adv_handle, duration: v_duration, max_ext_adv_events: v_max_ext_adv_events }, rest_max_ext_adv_events))
    }
}

impl WriteHci for AdvSet {
    open spec fn spec_hci_bytes(&self) -> Seq<u8> {
        self.adv_handle.spec_hci_bytes() + self.duration.spec_hci_bytes() + self.max_ext_adv_events.spec_hci_bytes()
    }

    fn size(&self) -> (r: usize) {
        let mut n = self.adv_handle.size();
        proof {
            assert(self.adv_handle.spec_hci_bytes() + self.duration.spec_hci_bytes() =~= (self.adv_handle.spec_hci_bytes() + self.duration.spec_hci_bytes()));
        }
        n = n + self.duration.size();
        proof {
            assert(self.adv_handle.spec_hci_bytes() + self.duration.spec_hci_bytes() + self.max_ext_adv_events.spec_hci_bytes() =~= (self.adv_handle.spec_hci_bytes() + self.duration.spec_hci_bytes() + self.max_ext_adv_events.spec_hci_bytes()));
        }
        n = n + self.max_ext_adv_events.size();
        n
    }

    fn write_hci(&self, out: &mut Vec<u8>) {
        self.adv_handle.write_hci(out);
        self.duration.write_hci(out);
        self.max_ext_adv_events.write_hci(out);
        proof {
            assert(out@ =~= old(out)@ + self.spec_hci_bytes());
        }
    }
}

impl AdvSet {
    /// The bytes of a `AdvSet` are the bytes of its fields, one after the
    /// other, in the order in which the fields are declared.
    pub proof fn lemma_fields_in_order(&self)
        ensures
            self.spec_hci_bytes() == self.adv_handle.spec_hci_bytes() + self.duration.spec_hci_bytes() + self.max_ext_adv_events.spec_hci_bytes(),
    {
    }
}

impl FixedSizeValue for AdvSet {
    open spec fn spec_size() -> nat {
        4
    }

    proof fn lemma_fixed_size(&self) {
        self.adv_handle.lemma_fixed_size();
        self.duration.lemma_fixed_size();
        self.max_ext_adv_events.lemma_fixed_size();
    }
}

impl<'de> HciCodec<'de> for AdvSet {
    open spec fn spec_encodable(&self) -> bool {
        self.adv_handle.spec_encodable() && self.duration.spec_encodable() && self.max_ext_adv_events.spec_encodable()
    }

    proof fn lemma_write_then_read(&self, rest: Seq<u8>) {
        self.adv_handle.lemma_fixed_size();
        self.duration.lemma_fixed_size();
        self.max_ext_adv_events.lemma_fixed_size();
        let t_max_ext_adv_events = self.max_ext_adv_events.spec_hci_bytes() + rest;
        let t_duration = self.duration.spec_hci_bytes() + t_max_ext_adv_events;
        let t_adv_handle = self.adv_handle.spec_hci_bytes() + t_duration;
        assert(self.spec_hci_bytes() + rest =~= t_adv_handle);
        self.adv_handle.lemma_write_then_read(t_duration);
        self.duration.lemma_write_then_read(t_max_ext_adv_events);
        self.max_ext_adv_events.lemma_write_then_read(rest);
        assert(t_adv_handle.skip(self.adv_handle.spec_hci_bytes().len() as int) =~= t_duration);
        assert(t_duration.skip(self.duration.spec_hci_bytes().len() as int) =~= t_max_ext_adv_events);
    }
}

/// The bytes of a list of [`AdvSet`] entries, one after the other.
pub open spec fn spec_adv_set_list_bytes(s: Seq<AdvSet>) -> Seq<u8>
    decreases s.len(),
{
    if s.len() == 0 {
        Seq::empty()
    } else {
        spec_adv_set_list_bytes(s.drop_last()) + s.last().spec_hci_bytes()
    }
}

/// The bytes of the first entries are no longer than the bytes of all of them.
pub proof fn lemma_adv_set_list_prefix(s: Seq<AdvSet>, i: int)
    requires
        0 <= i <= s.len(),
    ensures
        spec_adv_set_list_bytes(s.take(i)).len() <= spec_adv_set_list_bytes(s).len(),
    decreases s.len(),
{
    if i < s.len() {
        assert(s.drop_last().take(i) =~= s.take(i));
        lemma_adv_set_list_prefix(s.drop_last(), i);
    } else {
        assert(s.take(i) =~= s);
    }
}

/// Taking one more entry appends its bytes.
pub proof fn lemma_adv_set_list_step(s: Seq<AdvSet>, i: int)
    requires
        0 <= i < s.len(),
    ensures
        spec_adv_set_list_bytes(s.take(i + 1)) == spec_adv_set_list_bytes(s.take(i)) + s[i].spec_hci_bytes(),
{
    assert(s.take(i + 1).drop_last() =~= s.take(i));
}

impl<'a> WriteHci for &'a [AdvSet] {
    open spec fn spec_hci_bytes(&self) -> Seq<u8> {
        seq![(self@.len() % 256) as u8] + spec_adv_set_list_bytes(self@)
    }

    fn size(&self) -> (r: usize) {
        let mut n: usize = 1;
        let mut i: usize = 0;
        while i < self.len()
            invariant
                i <= self@.len(),
                1 + spec_adv_set_list_bytes(self@).len() <= usize::MAX,
                n == 1 + spec_adv_set_list_bytes(self@.take(i as int)).len(),
            decreases self@.len() - i,
        {
            proof {
                lemma_adv_set_list_step(self@, i as int);
                lemma_adv_set_list_prefix(self@, i + 1);
            }
            n = n + self[i].size();
            i = i + 1;
        }
        proof {
            assert(self@.take(self@.len() as int) =~= self@);
        }
        n
    }

    fn write_hci(&self, out: &mut Vec<u8>) {
        out.push((self.len() % 256) as u8);
        let ghost start = out@;
        let mut i: usize = 0;
        while i < self.len()
            invariant
                i <= self@.len(),
                out@ == start + spec_adv_set_list_bytes(self@.take(i as int)),
            decreases self@.len() - i,
        {
            proof {
                lemma_adv_set_list_step(self@, i as int);
            }
            self[i].write_hci(out);
            i = i + 1;
            proof {
                assert(out@ =~= start + spec_adv_set_list_bytes(self@.take(i as int)));
            }
        }
        proof {
            assert(self@.take(self@.len() as int) =~= self@);
            assert(out@ =~= old(out)@ + self.spec_hci_bytes());
        }
    }
}

/// PeriodicAdvProps
#[derive(Debug, Clone, Copy, PartialEq, Eq, PartialOrd, Ord, Hash, Default)]
pub struct PeriodicAdvProps([u8; 2]);

impl View for PeriodicAdvProps {
    type V = Seq<u8>;

    closed spec fn view(&self) -> Seq<u8> {
        self.0@
    }
}

impl PeriodicAdvProps {
    /// Create a new instance with every bit clear.
    pub fn new() -> (r: Self)
        ensures
            r@ == Seq::new(2, |i: int| 0u8),
    {
        let r = PeriodicAdvProps([0u8; 2]);
        proof {
            assert(r@ =~= Seq::new(2, |i: int| 0u8));
        }
        r
    }

    /// Get the inner representation.
    pub fn into_inner(self) -> (r: [u8; 2])
        ensures
            r@ == self@,
    {
        self.0
    }

    /// The representation has one byte per octet.
    pub proof fn lemma_len(&self)
        ensures
            self@.len() == 2,
    {
    }

    /// Whether bit 6 is set.
    pub fn is_tx_power_included(&self) -> (r: bool)
        ensures
            r == spec_bit(self@[0], 6u8),
    {
        bit_is_set(self.0[0], 6u8)
    }

    /// Set bit 6 to `val`.
    pub fn include_tx_power(self, val: bool) -> (r: Self)
        ensures
            r@ == self@.update(0, spec_with_bit(self@[0], 6u8, val)),
    {
        let mut bytes = self.0;
        bytes[0] = with_bit(bytes[0], 6u8, val);
        let r = PeriodicAdvProps(bytes);
        proof {
            assert(r@ =~= self@.update(0, spec_with_bit(self@[0], 6u8, val)));
        }
        r
    }
}

impl<'de> FromHciBytes<'de> for PeriodicAdvProps {
    open spec fn spec_from_hci_bytes(data: Seq<u8>) -> Result<(Seq<u8>, nat), FromHciBytesError> {
        <[u8; 2] as FromHciBytes<'de>>::spec_from_hci_bytes(data)
    }

    fn from_hci_bytes(data: &'de [u8]) -> (r: Result<(PeriodicAdvProps, &'de [u8]), FromHciBytesError>) {
        match <[u8; 2] as FromHciBytes<'de>>::from_hci_bytes(data) {
            Ok((v, rest)) => Ok((PeriodicAdvProps(v), rest)),
            Err(e) => Err(e),
        }
    }
}

impl WriteHci for PeriodicAdvProps {
    open spec fn spec_hci_bytes(&self) -> Seq<u8> {
        self@
    }

    fn size(&self) -> (r: usize) {
        self.0.size()
    }

    fn write_hci(&self, out: &mut Vec<u8>) {
        self.0.write_hci(out);
    }
}

impl FixedSizeValue for PeriodicAdvProps {
    open spec fn spec_size() -> nat {
        2
    }

    proof fn lemma_fixed_size(&self) {
        self.0.lemma_fixed_size();
    }
}

impl<'de> HciCodec<'de> for PeriodicAdvProps {
    open spec fn spec_encodable(&self) -> bool {
        true
    }

    proof fn lemma_write_then_read(&self, rest: Seq<u8>) {
        self.0.lemma_write_then_read(rest);
    }
}

/// FilterDuplicates.
#[derive(Debug, Clone, Copy, PartialEq, Eq, PartialOrd, Ord, Hash, Structural, Default)]
#[allow(missing_docs)]
pub enum FilterDuplicates {
    #[default]
    Disabled,
    Enabled,
    EnabledPerScanPeriod,
}

impl View for FilterDuplicates {
    type V = FilterDuplicates;

    open spec fn view(&self) -> FilterDuplicates {
        *self
    }
}

impl FilterDuplicates {
    /// The byte that encodes this value.
    pub open spec fn spec_raw(self) -> u8 {
        match self {
            FilterDuplicates::Disabled => 0x00u8,
            FilterDuplicates::Enabled => 0x01u8,
            FilterDuplicates::EnabledPerScanPeriod => 0x02u8,
        }
    }

    /// The value that a byte encodes, if it encodes one.
    pub open spec fn spec_from_raw(b: u8) -> Option<FilterDuplicates> {
        if b == 0x00u8 {
            Some(FilterDuplicates::Disabled)
        } else if b == 0x01u8 {
            Some(FilterDuplicates::Enabled)
        } else if b == 0x02u8 {
            Some(FilterDuplicates::EnabledPerScanPeriod)
        } else {
            None
        }
    }

    /// The byte that encodes this value.
    pub fn into_raw(self) -> (r: u8)
        ensures
            r == self.spec_raw(),
    {
        match self {
            FilterDuplicates::Disabled => 0x00u8,
            FilterDuplicates::Enabled => 0x01u8,
            FilterDuplicates::EnabledPerScanPeriod => 0x02u8,
        }
    }

    /// The byte of each value is fixed, each of those bytes decodes to its
    /// value, and no other byte decodes.
    pub proof fn lemma_codes()
        ensures
            FilterDuplicates::Disabled.spec_raw() == 0x00u8,
            FilterDuplicates::Enabled.spec_raw() == 0x01u8,
            FilterDuplicates::EnabledPerScanPeriod.spec_raw() == 0x02u8,
            FilterDuplicates::spec_from_raw(0x00u8) == Some(FilterDuplicates::Disabled),
            FilterDuplicates::spec_from_raw(0x01u8) == Some(FilterDuplicates::Enabled),
            FilterDuplicates::spec_from_raw(0x02u8) == Some(FilterDuplicates::EnabledPerScanPeriod),
            forall|b: u8| b != 0x00u8 && b != 0x01u8 && b != 0x02u8 ==> (#[trigger] FilterDuplicates::spec_from_raw(b)) is None,
            forall|v: FilterDuplicates| (#[trigger] v.spec_hci_bytes()) == seq![v.spec_raw()],
            forall|data: Seq<u8>| data.len() >= 1 ==> (#[trigger] <FilterDuplicates as FromHciBytes>::spec_from_hci_bytes(data)) == match FilterDuplicates::spec_from_raw(data[0]) {
                Some(v) => Ok::<(FilterDuplicates, nat), FromHciBytesError>((v, 1)),
                None => Err::<(FilterDuplicates, nat), FromHciBytesError>(FromHciBytesError::InvalidValue),
            },
    {
    }

    /// The value that a byte encodes, if it encodes one.
    pub fn from_raw(b: u8) -> (r: Option<FilterDuplicates>)
        ensures
            r == Self::spec_from_raw(b),
    {
        match b {
            0x00u8 => Some(FilterDuplicates::Disabled),
            0x01u8 => Some(FilterDuplicates::Enabled),
            0x02u8 => Some(FilterDuplicates::EnabledPerScanPeriod),
            _ => None,
        }
    }
}

impl<'de> FromHciBytes<'de> for FilterDuplicates {
    open spec fn spec_from_hci_bytes(data: Seq<u8>) -> Result<(FilterDuplicates, nat), FromHciBytesError> {
        if data.len() < 1 {
            Err(FromHciBytesError::InvalidSize)
        } else {
            match FilterDuplicates::spec_from_raw(data[0]) {
                Some(v) => Ok((v, 1)),
                None => Err(FromHciBytesError::InvalidValue),
            }
        }
    }

    fn from_hci_bytes(data: &'de [u8]) -> (r: Result<(FilterDuplicates, &'de [u8]), FromHciBytesError>) {
        if data.len() < 1 {
            return Err(FromHciBytesError::InvalidSize);
        }
        match FilterDuplicates::from_raw(data[0]) {
            Some(v) => {
                let (_, rest) = data.split_at(1);
                Ok((v, rest))
            },
            None => Err(FromHciBytesError::InvalidValue),
        }
    }
}

impl WriteHci for FilterDuplicates {
    open spec fn spec_hci_bytes(&self) -> Seq<u8> {
        seq![self.spec_raw()]
    }

    fn size(&self) -> (r: usize) {
        1
    }

    fn write_hci(&self, out: &mut Vec<u8>) {
        out.push(self.into_raw());
        proof {
            assert(final(out)@ =~= old(out)@ + self.spec_hci_bytes());
        }
    }
}

impl FixedSizeValue for FilterDuplicates {
    open spec fn spec_size() -> nat {
        1
    }

    proof fn lemma_fixed_size(&self) {
    }
}

impl<'de> HciCodec<'de> for FilterDuplicates {
    open spec fn spec_encodable(&self) -> bool {
        true
    }

    proof fn lemma_write_then_read(&self, rest: Seq<u8>) {
        match *self {
            FilterDuplicates::Disabled => {},
            FilterDuplicates::Enabled => {},
            FilterDuplicates::EnabledPerScanPeriod => {},
        }
    }
}

/// LePeriodicAdvCreateSyncOptions
#[derive(Debug, Clone, Copy, PartialEq, Eq, PartialOrd, Ord, Hash, Default)]
pub struct LePeriodicAdvCreateSyncOptions(u8);

impl View for LePeriodicAdvCreateSyncOptions {
    type V = u8;

    closed spec fn view(&self) -> u8 {
        self.0@
    }
}

impl LePeriodicAdvCreateSyncOptions {
    /// Create a new instance with every bit clear.
    pub fn new() -> (r: Self)
        ensures
            r@ == 0u8,
    {
        LePeriodicAdvCreateSyncOptions(0u8)
    }

    /// Get the inner representation.
    pub fn into_inner(self) -> (r: u8)
        ensures
            r@ == self@,
    {
        self.0
    }

    /// Whether bit 0 is set.
    pub fn is_using_periodic_adv_list(&self) -> (r: bool)
        ensures
            r == spec_bit(self@, 0u8),
    {
        bit_is_set(self.0, 0u8)
    }

    /// Set bit 0 to `val`.
    pub fn use_periodic_adv_list(self, val: bool) -> (r: Self)
        ensures
            r@ == spec_with_bit(self@, 0u8, val),
    {
        LePeriodicAdvCreateSyncOptions(with_bit(self.0, 0u8, val))
    }

    /// Whether bit 1 is set.
    pub fn is_reporting_initially_disabled(&self) -> (r: bool)
        ensures
            r == spec_bit(self@, 1u8),
    {
        bit_is_set(self.0, 1u8)
    }

    /// Set bit 1 to `val`.
    pub fn disable_initial_reporting(self, val: bool) -> (r: Self)
        ensures
            r@ == spec_with_bit(self@, 1u8, val),
    {
        LePeriodicAdvCreateSyncOptions(with_bit(self.0, 1u8, val))
    }

    /// Whether bit 2 is set.
    pub fn is_duplicate_filtering_enabled(&self) -> (r: bool)
        ensures
            r == spec_bit(self@, 2u8),
    {
        bit_is_set(self.0, 2u8)
    }

    /// Set bit 2 to `val`.
    pub fn enable_duplicate_filtering(self, val: bool) -> (r: Self)
        ensures
            r@ == spec_with_bit(self@, 2u8, val),
    {
        LePeriodicAdvCreateSyncOptions(with_bit(self.0, 2u8, val))
    }
}

impl<'de> FromHciBytes<'de> for LePeriodicAdvCreateSyncOptions {
    open spec fn spec_from_hci_bytes(data: Seq<u8>) -> Result<(u8, nat), FromHciBytesError> {
        <u8 as FromHciBytes<'de>>::spec_from_hci_bytes(data)
    }

    fn from_hci_bytes(data: &'de [u8]) -> (r: Result<(LePeriodicAdvCreateSyncOptions, &'de [u8]), FromHciBytesError>) {
        match <u8 as FromHciBytes<'de>>::from_hci_bytes(data) {
            Ok((v, rest)) => Ok((LePeriodicAdvCreateSyncOptions(v), rest)),
            Err(e) => Err(e),
        }
    }
}

impl WriteHci for LePeriodicAdvCreateSyncOptions {
    open spec fn spec_hci_bytes(&self) -> Seq<u8> {
        seq![self@]
    }

    fn size(&self) -> (r: usize) {
        self.0.size()
    }

    fn write_hci(&self, out: &mut Vec<u8>) {
        self.0.write_hci(out);
    }
}

impl FixedSizeValue for LePeriodicAdvCreateSyncOptions {
    open spec fn spec_size() -> nat {
        1
    }

    proof fn lemma_fixed_size(&self) {
        self.0.lemma_fixed_size();
    }
}

impl<'de> HciCodec<'de> for LePeriodicAdvCreateSyncOptions {
    open spec fn spec_encodable(&self) -> bool {
        true
    }

    proof fn lemma_write_then_read(&self, rest: Seq<u8>) {
        self.0.lemma_write_then_read(rest);
    }
}

/// CteMask
#[derive(Debug, Clone, Copy, PartialEq, Eq, PartialOrd, Ord, Hash, Default)]
pub struct CteMask(u8);

impl View for CteMask {
    type V = u8;

    closed spec fn view(&self) -> u8 {
        self.0@
    }
}

impl CteMask {
    /// Create a new instance with every bit clear.
    pub fn new() -> (r: Self)
        ensures
            r@ == 0u8,
    {
        CteMask(0u8)
    }

    /// Get the inner representation.
    pub fn into_inner(self) -> (r: u8)
        ensures
            r@ == self@,
    {
        self.0
    }

    /// Whether bit 0 is set.
    pub fn is_aoa_cte(&self) -> (r: bool)
        ensures
            r == spec_bit(self@, 0u8),
    {
        bit_is_set(self.0, 0u8)
    }

    /// Set bit 0 to `val`.
    pub fn set_aoa_cte(self, val: bool) -> (r: Self)
        ensures
            r@ == spec_with_bit(self@, 0u8, val),
    {
        CteMask(with_bit(self.0, 0u8, val))
    }

    /// Whether bit 1 is set.
    pub fn is_aod_1us_cte(&self) -> (r: bool)
        ensures
            r == spec_bit(self@, 1u8),
    {
        bit_is_set(self.0, 1u8)
    }

    /// Set bit 1 to `val`.
    pub fn set_aod_1us_cte(self, val: bool) -> (r: Self)
        ensures
            r@ == spec_with_bit(self@, 1u8, val),
    {
        CteMask(with_bit(self.0, 1u8, val))
    }

    /// Whether bit 2 is set.
    pub fn is_aod_2us_cte(&self) -> (r: bool)
        ensures
            r == spec_bit(self@, 2u8),
    {
        bit_is_set(self.0, 2u8)
    }

    /// Set bit 2 to `val`.
    pub fn set_aod_2us_cte(self, val: bool) -> (r: Self)
        ensures
            r@ == spec_with_bit(self@, 2u8, val),
    {
        CteMask(with_bit(self.0, 2u8, val))
    }

    /// Whether bit 3 is set.
    pub fn is_type_3_cte(&self) -> (r: bool)
        ensures
            r == spec_bit(self@, 3u8),
    {
        bit_is_set(self.0, 3u8)
    }

    /// Set bit 3 to `val`.
    pub fn set_type_3_cte(self, val: bool) -> (r: Self)
        ensures
            r@ == spec_with_bit(self@, 3u8, val),
    {
        CteMask(with_bit(self.0, 3u8, val))
    }

    /// Whether bit 4 is set.
    pub fn is_non_cte(&self) -> (r: bool)
        ensures
            r == spec_bit(self@, 4u8),
    {
        bit_is_set(self.0, 4u8)
    }

    /// Set bit 4 to `val`.
    pub fn set_non_cte(self, val: bool) -> (r: Self)
        ensures
            r@ == spec_with_bit(self@, 4u8, val),
    {
        CteMask(with_bit(self.0, 4u8, val))
    }
}

impl<'de> FromHciBytes<'de> for CteMask {
    open spec fn spec_from_hci_bytes(data: Seq<u8>) -> Result<(u8, nat), FromHciBytesError> {
        <u8 as FromHciBytes<'de>>::spec_from_hci_bytes(data)
    }

    fn from_hci_bytes(data: &'de [u8]) -> (r: Result<(CteMask, &'de [u8]), FromHciBytesError>) {
        match <u8 as FromHciBytes<'de>>::from_hci_bytes(data) {
            Ok((v, rest)) => Ok((CteMask(v), rest)),
            Err(e) => Err(e),
        }
    }
}

impl WriteHci for CteMask {
    open spec fn spec_hci_bytes(&self) -> Seq<u8> {
        seq![self@]
    }

    fn size(&self) -> (r: usize) {
        self.0.size()
    }

    fn write_hci(&self, out: &mut Vec<u8>) {
        self.0.write_hci(out);
    }
}

impl FixedSizeValue for CteMask {
    open spec fn spec_size() -> nat {
        1
    }

    proof fn lemma_fixed_size(&self) {
        self.0.lemma_fixed_size();
    }
}

impl<'de> HciCodec<'de> for CteMask {
    open spec fn spec_encodable(&self) -> bool {
        true
    }

    proof fn lemma_write_then_read(&self, rest: Seq<u8>) {
        self.0.lemma_write_then_read(rest);
    }
}

/// SyncHandle
#[derive(Debug, Clone, Copy, PartialEq, Eq, PartialOrd, Ord, Hash, Default)]
pub struct SyncHandle(u16);

impl View for SyncHandle {
    type V = u16;

    closed spec fn view(&self) -> u16 {
        self.0@
    }
}

impl SyncHandle {
    /// Get inner representation
    pub fn into_inner(self) -> (r: u16)
        ensures
            r@ == self@,
    {
        self.0
    }

    /// A `SyncHandle` is written and read as its inner value.
    pub proof fn lemma_as_inner(data: Seq<u8>)
        ensures
            forall|v: SyncHandle| (#[trigger] v.spec_hci_bytes()) == v@.spec_hci_bytes(),
            <SyncHandle as FromHciBytes>::spec_from_hci_bytes(data) == <u16 as FromHciBytes>::spec_from_hci_bytes(data),
    {
    }
}

impl<'de> FromHciBytes<'de> for SyncHandle {
    open spec fn spec_from_hci_bytes(data: Seq<u8>) -> Result<(u16, nat), FromHciBytesError> {
        <u16 as FromHciBytes<'de>>::spec_from_hci_bytes(data)
    }

    fn from_hci_bytes(data: &'de [u8]) -> (r: Result<(SyncHandle, &'de [u8]), FromHciBytesError>) {
        match <u16 as FromHciBytes<'de>>::from_hci_bytes(data) {
            Ok((v, rest)) => Ok((SyncHandle(v), rest)),
            Err(e) => Err(e),
        }
    }
}

impl WriteHci for SyncHandle {
    open spec fn spec_hci_bytes(&self) -> Seq<u8> {
        spec_u16_le_bytes(self@)
    }

    fn size(&self) -> (r: usize) {
        self.0.size()
    }

    fn write_hci(&self, out: &mut Vec<u8>) {
        self.0.write_hci(out);
    }
}

impl FixedSizeValue for SyncHandle {
    open spec fn spec_size() -> nat {
        2
    }

    proof fn lemma_fixed_size(&self) {
        self.0.lemma_fixed_size();
    }
}

impl<'de> HciCodec<'de> for SyncHandle {
    open spec fn spec_encodable(&self) -> bool {
        true
    }

    proof fn lemma_write_then_read(&self, rest: Seq<u8>) {
        self.0.lemma_write_then_read(rest);
    }
}

/// BigHandle
#[derive(Debug, Clone, Copy, PartialEq, Eq, PartialOrd, Ord, Hash, Default)]
pub struct BigHandle(u16);

impl View for BigHandle {
    type V = u16;

    closed spec fn view(&self) -> u16 {
        self.0@
    }
}

impl BigHandle {
    /// Get inner representation
    pub fn into_inner(self) -> (r: u16)
        ensures
            r@ == self@,
    {
        self.0
    }

    /// A `BigHandle` is written and read as its inner value.
    pub proof fn lemma_as_inner(data: Seq<u8>)
        ensures
            forall|v: BigHandle| (#[trigger] v.spec_hci_bytes()) == v@.spec_hci_bytes(),
            <BigHandle as FromHciBytes>::spec_from_hci_bytes(data) == <u16 as FromHciBytes>::spec_from_hci_bytes(data),
    {
    }
}

impl<'de> FromHciBytes<'de> for BigHandle {
    open spec fn spec_from_hci_bytes(data: Seq<u8>) -> Result<(u16, nat), FromHciBytesError> {
        <u16 as FromHciBytes<'de>>::spec_from_hci_bytes(data)
    }

    fn from_hci_bytes(data: &'de [u8]) -> (r: Result<(BigHandle, &'de [u8]), FromHciBytesError>) {
        match <u16 as FromHciBytes<'de>>::from_hci_bytes(data) {
            Ok((v, rest)) => Ok((BigHandle(v), rest)),
            Err(e) => Err(e),
        }
    }
}

impl WriteHci for BigHandle {
    open spec fn spec_hci_bytes(&self) -> Seq<u8> {
        spec_u16_le_bytes(self@)
    }

    fn size(&self) -> (r: usize) {
        self.0.size()
    }

    fn write_hci(&self, out: &mut Vec<u8>) {
        self.0.write_hci(out);
    }
}

impl FixedSizeValue for BigHandle {
    open spec fn spec_size() -> nat {
        2
    }

    proof fn lemma_fixed_size(&self) {
        self.0.lemma_fixed_size();
    }
}

impl<'de> HciCodec<'de> for BigHandle {
    open spec fn spec_encodable(&self) -> bool {
        true
    }

    proof fn lemma_write_then_read(&self, rest: Seq<u8>) {
        self.0.lemma_write_then_read(rest);
    }
}

/// PrivacyMode.
#[derive(Debug, Clone, Copy, PartialEq, Eq, PartialOrd, Ord, Hash, Structural, Default)]
#[allow(missing_docs)]
pub enum PrivacyMode {
    #[default]
    Network,
    Device,
}

impl View for PrivacyMode {
    type V = PrivacyMode;

    open spec fn view(&self) -> PrivacyMode {
        *self
    }
}

impl PrivacyMode {
    /// The byte that encodes this value.
    pub open spec fn spec_raw(self) -> u8 {
        match self {
            PrivacyMode::Network => 0x00u8,
            PrivacyMode::Device => 0x01u8,
        }
    }

    /// The value that a byte encodes, if it encodes one.
    pub open spec fn spec_from_raw(b: u8) -> Option<PrivacyMode> {
        if b == 0x00u8 {
            Some(PrivacyMode::Network)
        } else if b == 0x01u8 {
            Some(PrivacyMode::Device)
        } else {
            None
        }
    }

    /// The byte that encodes this value.
    pub fn into_raw(self) -> (r: u8)
        ensures
            r == self.spec_raw(),
    {
        match self {
            PrivacyMode::Network => 0x00u8,
            PrivacyMode::Device => 0x01u8,
        }
    }

    /// The byte of each value is fixed, each of those bytes decodes to its
    /// value, and no other byte decodes.
    pub proof fn lemma_codes()
        ensures
            PrivacyMode::Network.spec_raw() == 0x00u8,
            PrivacyMode::Device.spec_raw() == 0x01u8,
            PrivacyMode::spec_from_raw(0x00u8) == Some(PrivacyMode::Network),
            PrivacyMode::spec_from_raw(0x01u8) == Some(PrivacyMode::Device),
            forall|b: u8| b != 0x00u8 && b != 0x01u8 ==> (#[trigger] PrivacyMode::spec_from_raw(b)) is None,
            forall|v: PrivacyMode| (#[trigger] v.spec_hci_bytes()) == seq![v.spec_raw()],
            forall|data: Seq<u8>| data.len() >= 1 ==> (#[trigger] <PrivacyMode as FromHciBytes>::spec_from_hci_bytes(data)) == match PrivacyMode::spec_from_raw(data[0]) {
                Some(v) => Ok::<(PrivacyMode, nat), FromHciBytesError>((v, 1)),
                None => Err::<(PrivacyMode, nat), FromHciBytesError>(FromHciBytesError::InvalidValue),
            },
    {
    }

    /// The value that a byte encodes, if it encodes one.
    pub fn from_raw(b: u8) -> (r: Option<PrivacyMode>)
        ensures
            r == Self::spec_from_raw(b),
    {
        match b {
            0x00u8 => Some(PrivacyMode::Network),
            0x01u8 => Some(PrivacyMode::Device),
            _ => None,
        }
    }
}

impl<'de> FromHciBytes<'de> for PrivacyMode {
    open spec fn spec_from_hci_bytes(data: Seq<u8>) -> Result<(PrivacyMode, nat), FromHciBytesError> {
        if data.len() < 1 {
            Err(FromHciBytesError::InvalidSize)
        } else {
            match PrivacyMode::spec_from_raw(data[0]) {
                Some(v) => Ok((v, 1)),
                None => Err(FromHciBytesError::InvalidValue),
            }
        }
    }

    fn from_hci_bytes(data: &'de [u8]) -> (r: Result<(PrivacyMode, &'de [u8]), FromHciBytesError>) {
        if data.len() < 1 {
            return Err(FromHciBytesError::InvalidSize);
        }
        match PrivacyMode::from_raw(data[0]) {
            Some(v) => {
                let (_, rest) = data.split_at(1);
                Ok((v, rest))
            },
            None => Err(FromHciBytesError::InvalidValue),
        }
    }
}

impl WriteHci for PrivacyMode {
    open spec fn spec_hci_bytes(&self) -> Seq<u8> {
        seq![self.spec_raw()]
    }

    fn size(&self) -> (r: usize) {
        1
    }

    fn write_hci(&self, out: &mut Vec<u8>) {
        out.push(self.into_raw());
        proof {
            assert(final(out)@ =~= old(out)@ + self.spec_hci_bytes());
        }
    }
}

impl FixedSizeValue for PrivacyMode {
    open spec fn spec_size() -> nat {
        1
    }

    proof fn lemma_fixed_size(&self) {
    }
}

impl<'de> HciCodec<'de> for PrivacyMode {
    open spec fn spec_encodable(&self) -> bool {
        true
    }

    proof fn lemma_write_then_read(&self, rest: Seq<u8>) {
        match *self {
            PrivacyMode::Network => {},
            PrivacyMode::Device => {},
        }
    }
}

/// CteKind.
#[derive(Debug, Clone, Copy, PartialEq, Eq, PartialOrd, Ord, Hash, Structural, Default)]
#[allow(missing_docs)]
pub enum CteKind {
    #[default]
    AoA,
    AoD1Us,
    AoD2Us,
    NoCte,
}

impl View for CteKind {
    type V = CteKind;

    open spec fn view(&self) -> CteKind {
        *self
    }
}

impl CteKind {
    /// The byte that encodes this value.
    pub open spec fn spec_raw(self) -> u8 {
        match self {
            CteKind::AoA => 0x00u8,
            CteKind::AoD1Us => 0x01u8,
            CteKind::AoD2Us => 0x02u8,
            CteKind::NoCte => 0xffu8,
        }
    }

    /// The value that a byte encodes, if it encodes one.
    pub open spec fn spec_from_raw(b: u8) -> Option<CteKind> {
        if b == 0x00u8 {
            Some(CteKind::AoA)
        } else if b == 0x01u8 {
            Some(CteKind::AoD1Us)
        } else if b == 0x02u8 {
            Some(CteKind::AoD2Us)
        } else if b == 0xffu8 {
            Some(CteKind::NoCte)
        } else {
            None
        }
    }

    /// The byte that encodes this value.
    pub fn into_raw(self) -> (r: u8)
        ensures
            r == self.spec_raw(),
    {
        match self {
            CteKind::AoA => 0x00u8,
            CteKind::AoD1Us => 0x01u8,
            CteKind::AoD2Us => 0x02u8,
            CteKind::NoCte => 0xffu8,
        }
    }

    /// The byte of each value is fixed, each of those bytes decodes to its
    /// value, and no other byte decodes.
    pub proof fn lemma_codes()
        ensures
            CteKind::AoA.spec_raw() == 0x00u8,
            CteKind::AoD1Us.spec_raw() == 0x01u8,
            CteKind::AoD2Us.spec_raw() == 0x02u8,
            CteKind::NoCte.spec_raw() == 0xffu8,
            CteKind::spec_from_raw(0x00u8) == Some(CteKind::AoA),
            CteKind::spec_from_raw(0x01u8) == Some(CteKind::AoD1Us),
            CteKind::spec_from_raw(0x02u8) == Some(CteKind::AoD2Us),
            CteKind::spec_from_raw(0xffu8) == Some(CteKind::NoCte),
            forall|b: u8| b != 0x00u8 && b != 0x01u8 && b != 0x02u8 && b != 0xffu8 ==> (#[trigger] CteKind::spec_from_raw(b)) is None,
            forall|v: CteKind| (#[trigger] v.spec_hci_bytes()) == seq![v.spec_raw()],
            forall|data: Seq<u8>| data.len() >= 1 ==> (#[trigger] <CteKind as FromHciBytes>::spec_from_hci_bytes(data)) == match CteKind::spec_from_raw(data[0]) {
                Some(v) => Ok::<(CteKind, nat), FromHciBytesError>((v, 1)),
                None => Err::<(CteKind, nat), FromHciBytesError>(FromHciBytesError::InvalidValue),
            },
    {
    }

    /// The value that a byte encodes, if it encodes one.
    pub fn from_raw(b: u8) -> (r: Option<CteKind>)
        ensures
            r == Self::spec_from_raw(b),
    {
        match b {
            0x00u8 => Some(CteKind::AoA),
            0x01u8 => Some(CteKind::AoD1Us),
            0x02u8 => Some(CteKind::AoD2Us),
            0xffu8 => Some(CteKind::NoCte),
            _ => None,
        }
    }
}

impl<'de> FromHciBytes<'de> for CteKind {
    open spec fn spec_from_hci_bytes(data: Seq<u8>) -> Result<(CteKind, nat), FromHciBytesError> {
        if data.len() < 1 {
            Err(FromHciBytesError::InvalidSize)
        } else {
            match CteKind::spec_from_raw(data[0]) {
                Some(v) => Ok((v, 1)),
                None => Err(FromHciBytesError::InvalidValue),
            }
        }
    }

    fn from_hci_bytes(data: &'de [u8]) -> (r: Result<(CteKind, &'de [u8]), FromHciBytesError>) {
        if data.len() < 1 {
            return Err(FromHciBytesError::InvalidSize);
        }
        match CteKind::from_raw(data[0]) {
            Some(v) => {
                let (_, rest) = data.split_at(1);
                Ok((v, rest))
            },
            None => Err(FromHciBytesError::InvalidValue),
        }
    }
}

impl WriteHci for CteKind {
    open spec fn spec_hci_bytes(&self) -> Seq<u8> {
        seq![self.spec_raw()]
    }

    fn size(&self) -> (r: usize) {
        1
    }

    fn write_hci(&self, out: &mut Vec<u8>) {
        out.push(self.into_raw());
        proof {
            assert(final(out)@ =~= old(out)@ + self.spec_hci_bytes());
        }
    }
}

impl FixedSizeValue for CteKind {
    open spec fn spec_size() -> nat {
        1
    }

    proof fn lemma_fixed_size(&self) {
    }
}

impl<'de> HciCodec<'de> for CteKind {
    open spec fn spec_encodable(&self) -> bool {
        true
    }

    proof fn lemma_write_then_read(&self, rest: Seq<u8>) {
        match *self {
            CteKind::AoA => {},
            CteKind::AoD1Us => {},
            CteKind::AoD2Us => {},
            CteKind::NoCte => {},
        }
    }
}

/// SwitchingSamplingRates
#[derive(Debug, Clone, Copy, PartialEq, Eq, PartialOrd, Ord, Hash, Default)]
pub struct SwitchingSamplingRates(u8);

impl View for SwitchingSamplingRates {
    type V = u8;

    closed spec fn view(&self) -> u8 {
        self.0@
    }
}

impl SwitchingSamplingRates {
    /// Create a new instance with every bit clear.
    pub fn new() -> (r: Self)
        ensures
            r@ == 0u8,
    {
        SwitchingSamplingRates(0u8)
    }

    /// Get the inner representation.
    pub fn into_inner(self) -> (r: u8)
        ensures
            r@ == self@,
    {
        self.0
    }

    /// Whether bit 0 is set.
    pub fn is_1us_aod_tx(&self) -> (r: bool)
        ensures
            r == spec_bit(self@, 0u8),
    {
        bit_is_set(self.0, 0u8)
    }

    /// Set bit 0 to `val`.
    pub fn set_1us_aod_tx(self, val: bool) -> (r: Self)
        ensures
            r@ == spec_with_bit(self@, 0u8, val),
    {
        SwitchingSamplingRates(with_bit(self.0, 0u8, val))
    }

    /// Whether bit 1 is set.
    pub fn is_1us_aod_rx(&self) -> (r: bool)
        ensures
            r == spec_bit(self@, 1u8),
    {
        bit_is_set(self.0, 1u8)
    }

    /// Set bit 1 to `val`.
    pub fn set_1us_aod_rx(self, val: bool) -> (r: Self)
        ensures
            r@ == spec_with_bit(self@, 1u8, val),
    {
        SwitchingSamplingRates(with_bit(self.0, 1u8, val))
    }

    /// Whether bit 2 is set.
    pub fn is_1us_aoa_rx(&self) -> (r: bool)
        ensures
            r == spec_bit(self@, 2u8),
    {
        bit_is_set(self.0, 2u8)
    }

    /// Set bit 2 to `val`.
    pub fn set_1us_aoa_rx(self, val: bool) -> (r: Self)
        ensures
            r@ == spec_with_bit(self@, 2u8, val),
    {
        SwitchingSamplingRates(with_bit(self.0, 2u8, val))
    }
}

impl<'de> FromHciBytes<'de> for SwitchingSamplingRates {
    open spec fn spec_from_hci_bytes(data: Seq<u8>) -> Result<(u8, nat), FromHciBytesError> {
        <u8 as FromHciBytes<'de>>::spec_from_hci_bytes(data)
    }

    fn from_hci_bytes(data: &'de [u8]) -> (r: Result<(SwitchingSamplingRates, &'de [u8]), FromHciBytesError>) {
        match <u8 as FromHciBytes<'de>>::from_hci_bytes(data) {
            Ok((v, rest)) => Ok((SwitchingSamplingRates(v), rest)),
            Err(e) => Err(e),
        }
    }
}

impl WriteHci for SwitchingSamplingRates {
    open spec fn spec_hci_bytes(&self) -> Seq<u8> {
        seq![self@]
    }

    fn size(&self) -> (r: usize) {
        self.0.size()
    }

    fn write_hci(&self, out: &mut Vec<u8>) {
        self.0.write_hci(out);
    }
}

impl FixedSizeValue for SwitchingSamplingRates {
    open spec fn spec_size() -> nat {
        1
    }

    proof fn lemma_fixed_size(&self) {
        self.0.lemma_fixed_size();
    }
}

impl<'de> HciCodec<'de> for SwitchingSamplingRates {
    open spec fn spec_encodable(&self) -> bool {
        true
    }

    proof fn lemma_write_then_read(&self, rest: Seq<u8>) {
        self.0.lemma_write_then_read(rest);
    }
}

/// LePeriodicAdvReceiveEnable
#[derive(Debug, Clone, Copy, PartialEq, Eq, PartialOrd, Ord, Hash, Default)]
pub struct LePeriodicAdvReceiveEnable(u8);

impl View for LePeriodicAdvReceiveEnable {
    type V = u8;

    closed spec fn view(&self) -> u8 {
        self.0@
    }
}

impl LePeriodicAdvReceiveEnable {
    /// Create a new instance with every bit clear.
    pub fn new() -> (r: Self)
        ensures
            r@ == 0u8,
    {
        LePeriodicAdvReceiveEnable(0u8)
    }

    /// Get the inner representation.
    pub fn into_inner(self) -> (r: u8)
        ensures
            r@ == self@,
    {
        self.0
    }

    /// Whether bit 0 is set.
    pub fn is_reporting(&self) -> (r: bool)
        ensures
            r == spec_bit(self@, 0u8),
    {
        bit_is_set(self.0, 0u8)
    }

    /// Set bit 0 to `val`.
    pub fn set_reporting(self, val: bool) -> (r: Self)
        ensures
            r@ == spec_with_bit(self@, 0u8, val),
    {
        LePeriodicAdvReceiveEnable(with_bit(self.0, 0u8, val))
    }

    /// Whether bit 1 is set.
    pub fn is_duplicate_filtering(&self) -> (r: bool)
        ensures
            r == spec_bit(self@, 1u8),
    {
        bit_is_set(self.0, 1u8)
    }

    /// Set bit 1 to `val`.
    pub fn set_duplicate_filtering(self, val: bool) -> (r: Self)
        ensures
            r@ == spec_with_bit(self@, 1u8, val),
    {
        LePeriodicAdvReceiveEnable(with_bit(self.0, 1u8, val))
    }
}

impl<'de> FromHciBytes<'de> for LePeriodicAdvReceiveEnable {
    open spec fn spec_from_hci_bytes(data: Seq<u8>) -> Result<(u8, nat), FromHciBytesError> {
        <u8 as FromHciBytes<'de>>::spec_from_hci_bytes(data)
    }

    fn from_hci_bytes(data: &'de [u8]) -> (r: Result<(LePeriodicAdvReceiveEnable, &'de [u8]), FromHciBytesError>) {
        match <u8 as FromHciBytes<'de>>::from_hci_bytes(data) {
            Ok((v, rest)) => Ok((LePeriodicAdvReceiveEnable(v), rest)),
            Err(e) => Err(e),
        }
    }
}

impl WriteHci for LePeriodicAdvReceiveEnable {
    open spec fn spec_hci_bytes(&self) -> Seq<u8> {
        seq![self@]
    }

    fn size(&self) -> (r: usize) {
        self.0.size()
    }

    fn write_hci(&self, out: &mut Vec<u8>) {
        self.0.write_hci(out);
    }
}

impl FixedSizeValue for LePeriodicAdvReceiveEnable {
    open spec fn spec_size() -> nat {
        1
    }

    proof fn lemma_fixed_size(&self) {
        self.0.lemma_fixed_size();
    }
}

impl<'de> HciCodec<'de> for LePeriodicAdvReceiveEnable {
    open spec fn spec_encodable(&self) -> bool {
        true
    }

    proof fn lemma_write_then_read(&self, rest: Seq<u8>) {
        self.0.lemma_write_then_read(rest);
    }
}

/// LePeriodicAdvSyncTransferMode.
#[derive(Debug, Clone, Copy, PartialEq, Eq, PartialOrd, Ord, Hash, Structural, Default)]
#[allow(missing_docs)]
pub enum LePeriodicAdvSyncTransferMode {
    #[default]
    NoSync,
    SyncRx,
    SyncRxReport,
    SyncRxReportFilterDuplicates,
}

impl View for LePeriodicAdvSyncTransferMode {
    type V = LePeriodicAdvSyncTransferMode;

    open spec fn view(&self) -> LePeriodicAdvSyncTransferMode {
        *self
    }
}

impl LePeriodicAdvSyncTransferMode {
    /// The byte that encodes this value.
    pub open spec fn spec_raw(self) -> u8 {
        match self {
            LePeriodicAdvSyncTransferMode::NoSync => 0x00u8,
            LePeriodicAdvSyncTransferMode::SyncRx => 0x01u8,
            LePeriodicAdvSyncTransferMode::SyncRxReport => 0x02u8,
            LePeriodicAdvSyncTransferMode::SyncRxReportFilterDuplicates => 0x03u8,
        }
    }

    /// The value that a byte encodes, if it encodes one.
    pub open spec fn spec_from_raw(b: u8) -> Option<LePeriodicAdvSyncTransferMode> {
        if b == 0x00u8 {
            Some(LePeriodicAdvSyncTransferMode::NoSync)
        } else if b == 0x01u8 {
            Some(LePeriodicAdvSyncTransferMode::SyncRx)
        } else if b == 0x02u8 {
            Some(LePeriodicAdvSyncTransferMode::SyncRxReport)
        } else if b == 0x03u8 {
            Some(LePeriodicAdvSyncTransferMode::SyncRxReportFilterDuplicates)
        } else {
            None
        }
    }

    /// The byte that encodes this value.
    pub fn into_raw(self) -> (r: u8)
        ensures
            r == self.spec_raw(),
    {
        match self {
            LePeriodicAdvSyncTransferMode::NoSync => 0x00u8,
            LePeriodicAdvSyncTransferMode::SyncRx => 0x01u8,
            LePeriodicAdvSyncTransferMode::SyncRxReport => 0x02u8,
            LePeriodicAdvSyncTransferMode::SyncRxReportFilterDuplicates => 0x03u8,
        }
    }

    /// The byte of each value is fixed, each of those bytes decodes to its
    /// value, and no other byte decodes.
    pub proof fn lemma_codes()
        ensures
            LePeriodicAdvSyncTransferMode::NoSync.spec_raw() == 0x00u8,
            LePeriodicAdvSyncTransferMode::SyncRx.spec_raw() == 0x01u8,
            LePeriodicAdvSyncTransferMode::SyncRxReport.spec_raw() == 0x02u8,
            LePeriodicAdvSyncTransferMode::SyncRxReportFilterDuplicates.spec_raw() == 0x03u8,
            LePeriodicAdvSyncTransferMode::spec_from_raw(0x00u8) == Some(LePeriodicAdvSyncTransferMode::NoSync),
            LePeriodicAdvSyncTransferMode::spec_from_raw(0x01u8) == Some(LePeriodicAdvSyncTransferMode::SyncRx),
            LePeriodicAdvSyncTransferMode::spec_from_raw(0x02u8) == Some(LePeriodicAdvSyncTransferMode::SyncRxReport),
            LePeriodicAdvSyncTransferMode::spec_from_raw(0x03u8) == Some(LePeriodicAdvSyncTransferMode::SyncRxReportFilterDuplicates),
            forall|b: u8| b != 0x00u8 && b != 0x01u8 && b != 0x02u8 && b != 0x03u8 ==> (#[trigger] LePeriodicAdvSyncTransferMode::spec_from_raw(b)) is None,
            forall|v: LePeriodicAdvSyncTransferMode| (#[trigger] v.spec_hci_bytes()) == seq![v.spec_raw()],
            forall|data: Seq<u8>| data.len() >= 1 ==> (#[trigger] <LePeriodicAdvSyncTransferMode as FromHciBytes>::spec_from_hci_bytes(data)) == match LePeriodicAdvSyncTransferMode::spec_from_raw(data[0]) {
                Some(v) => Ok::<(LePeriodicAdvSyncTransferMode, nat), FromHciBytesError>((v, 1)),
                None => Err::<(LePeriodicAdvSyncTransferMode, nat), FromHciBytesError>(FromHciBytesError::InvalidValue),
            },
    {
    }

    /// The value that a byte encodes, if it encodes one.
    pub fn from_raw(b: u8) -> (r: Option<LePeriodicAdvSyncTransferMode>)
        ensures
            r == Self::spec_from_raw(b),
    {
        match b {
            0x00u8 => Some(LePeriodicAdvSyncTransferMode::NoSync),
            0x01u8 => Some(LePeriodicAdvSyncTransferMode::SyncRx),
            0x02u8 => Some(LePeriodicAdvSyncTransferMode::SyncRxReport),
            0x03u8 => Some(LePeriodicAdvSyncTransferMode::SyncRxReportFilterDuplicates),
            _ => None,
        }
    }
}

impl<'de> FromHciBytes<'de> for LePeriodicAdvSyncTransferMode {
    open spec fn spec_from_hci_bytes(data: Seq<u8>) -> Result<(LePeriodicAdvSyncTransferMode, nat), FromHciBytesError> {
        if data.len() < 1 {
            Err(FromHciBytesError::InvalidSize)
        } else {
            match LePeriodicAdvSyncTransferMode::spec_from_raw(data[0]) {
                Some(v) => Ok((v, 1)),
                None => Err(FromHciBytesError::InvalidValue),
            }
        }
    }

    fn from_hci_bytes(data: &'de [u8]) -> (r: Result<(LePeriodicAdvSyncTransferMode, &'de [u8]), FromHciBytesError>) {
        if data.len() < 1 {
            return Err(FromHciBytesError::InvalidSize);
        }
        match LePeriodicAdvSyncTransferMode::from_raw(data[0]) {
            Some(v) => {
                let (_, rest) = data.split_at(1);
                Ok((v, rest))
            },
            None => Err(FromHciBytesError::InvalidValue),
        }
    }
}

impl WriteHci for LePeriodicAdvSyncTransferMode {
    open spec fn spec_hci_bytes(&self) -> Seq<u8> {
        seq![self.spec_raw()]
    }

    fn size(&self) -> (r: usize) {
        1
    }

    fn write_hci(&self, out: &mut Vec<u8>) {
        out.push(self.into_raw());
        proof {
            assert(final(out)@ =~= old(out)@ + self.spec_hci_bytes());
        }
    }
}

impl FixedSizeValue for LePeriodicAdvSyncTransferMode {
    open spec fn spec_size() -> nat {
        1
    }

    proof fn lemma_fixed_size(&self) {
    }
}

impl<'de> HciCodec<'de> for LePeriodicAdvSyncTransferMode {
    open spec fn spec_encodable(&self) -> bool {
        true
    }

    proof fn lemma_write_then_read(&self, rest: Seq<u8>) {
        match *self {
            LePeriodicAdvSyncTransferMode::NoSync => {},
            LePeriodicAdvSyncTransferMode::SyncRx => {},
            LePeriodicAdvSyncTransferMode::SyncRxReport => {},
            LePeriodicAdvSyncTransferMode::SyncRxReportFilterDuplicates => {},
        }
    }
}

/// LeDataRelatedAddrChangeReasons
#[derive(Debug, Clone, Copy, PartialEq, Eq, PartialOrd, Ord, Hash, Default)]
pub struct LeDataRelatedAddrChangeReasons(u8);

impl View for LeDataRelatedAddrChangeReasons {
    type V = u8;

    closed spec fn view(&self) -> u8 {
        self.0@
    }
}

impl LeDataRelatedAddrChangeReasons {
    /// Create a new instance with every bit clear.
    pub fn new() -> (r: Self)
        ensures
            r@ == 0u8,
    {
        LeDataRelatedAddrChangeReasons(0u8)
    }

    /// Get the inner representation.
    pub fn into_inner(self) -> (r: u8)
        ensures
            r@ == self@,
    {
        self.0
    }

    /// Whether bit 0 is set.
    pub fn change_on_adv_data_change(&self) -> (r: bool)
        ensures
            r == spec_bit(self@, 0u8),
    {
        bit_is_set(self.0, 0u8)
    }

    /// Set bit 0 to `val`.
    pub fn set_change_addr_on_adv_data_changes(self, val: bool) -> (r: Self)
        ensures
            r@ == spec_with_bit(self@, 0u8, val),
    {
        LeDataRelatedAddrChangeReasons(with_bit(self.0, 0u8, val))
    }

    /// Whether bit 1 is set.
    pub fn change_on_scan_response_data_change(&self) -> (r: bool)
        ensures
            r == spec_bit(self@, 1u8),
    {
        bit_is_set(self.0, 1u8)
    }

    /// Set bit 1 to `val`.
    pub fn set_change_addr_on_scan_response_data_changes(self, val: bool) -> (r: Self)
        ensures
            r@ == spec_with_bit(self@, 1u8, val),
    {
        LeDataRelatedAddrChangeReasons(with_bit(self.0, 1u8, val))
    }
}

impl<'de> FromHciBytes<'de> for LeDataRelatedAddrChangeReasons {
    open spec fn spec_from_hci_bytes(data: Seq<u8>) -> Result<(u8, nat), FromHciBytesError> {
        <u8 as FromHciBytes<'de>>::spec_from_hci_bytes(data)
    }

    fn from_hci_bytes(data: &'de [u8]) -> (r: Result<(LeDataRelatedAddrChangeReasons, &'de [u8]), FromHciBytesError>) {
        match <u8 as FromHciBytes<'de>>::from_hci_bytes(data) {
            Ok((v, rest)) => Ok((LeDataRelatedAddrChangeReasons(v), rest)),
            Err(e) => Err(e),
        }
    }
}

impl WriteHci for LeDataRelatedAddrChangeReasons {
    open spec fn spec_hci_bytes(&self) -> Seq<u8> {
        seq![self@]
    }

    fn size(&self) -> (r: usize) {
        self.0.size()
    }

    fn write_hci(&self, out: &mut Vec<u8>) {
        self.0.write_hci(out);
    }
}

impl FixedSizeValue for LeDataRelatedAddrChangeReasons {
    open spec fn spec_size() -> nat {
        1
    }

    proof fn lemma_fixed_size(&self) {
        self.0.lemma_fixed_size();
    }
}

impl<'de> HciCodec<'de> for LeDataRelatedAddrChangeReasons {
    open spec fn spec_encodable(&self) -> bool {
        true
    }

    proof fn lemma_write_then_read(&self, rest: Seq<u8>) {
        self.0.lemma_write_then_read(rest);
    }
}

/// LeConnRole.
#[derive(Debug, Clone, Copy, PartialEq, Eq, PartialOrd, Ord, Hash, Structural, Default)]
#[allow(missing_docs)]
pub enum LeConnRole {
    #[default]
    Central,
    Peripheral,
}

impl View for LeConnRole {
    type V = LeConnRole;

    open spec fn view(&self) -> LeConnRole {
        *self
    }
}

impl LeConnRole {
    /// The byte that encodes this value.
    pub open spec fn spec_raw(self) -> u8 {
        match self {
            LeConnRole::Central => 0x00u8,
            LeConnRole::Peripheral => 0x01u8,
        }
    }

    /// The value that a byte encodes, if it encodes one.
    pub open spec fn spec_from_raw(b: u8) -> Option<LeConnRole> {
        if b == 0x00u8 {
            Some(LeConnRole::Central)
        } else if b == 0x01u8 {
            Some(LeConnRole::Peripheral)
        } else {
            None
        }
    }

    /// The byte that encodes this value.
    pub fn into_raw(self) -> (r: u8)
        ensures
            r == self.spec_raw(),
    {
        match self {
            LeConnRole::Central => 0x00u8,
            LeConnRole::Peripheral => 0x01u8,
        }
    }

    /// The byte of each value is fixed, each of those bytes decodes to its
    /// value, and no other byte decodes.
    pub proof fn lemma_codes()
        ensures
            LeConnRole::Central.spec_raw() == 0x00u8,
            LeConnRole::Peripheral.spec_raw() == 0x01u8,
            LeConnRole::spec_from_raw(0x00u8) == Some(LeConnRole::Central),
            LeConnRole::spec_from_raw(0x01u8) == Some(LeConnRole::Peripheral),
            forall|b: u8| b != 0x00u8 && b != 0x01u8 ==> (#[trigger] LeConnRole::spec_from_raw(b)) is None,
            forall|v: LeConnRole| (#[trigger] v.spec_hci_bytes()) == seq![v.spec_raw()],
            forall|data: Seq<u8>| data.len() >= 1 ==> (#[trigger] <LeConnRole as FromHciBytes>::spec_from_hci_bytes(data)) == match LeConnRole::spec_from_raw(data[0]) {
                Some(v) => Ok::<(LeConnRole, nat), FromHciBytesError>((v, 1)),
                None => Err::<(LeConnRole, nat), FromHciBytesError>(FromHciBytesError::InvalidValue),
            },
    {
    }

    /// The value that a byte encodes, if it encodes one.
    pub fn from_raw(b: u8) -> (r: Option<LeConnRole>)
        ensures
            r == Self::spec_from_raw(b),
    {
        match b {
            0x00u8 => Some(LeConnRole::Central),
            0x01u8 => Some(LeConnRole::Peripheral),
            _ => None,
        }
    }
}

impl<'de> FromHciBytes<'de> for LeConnRole {
    open spec fn spec_from_hci_bytes(data: Seq<u8>) -> Result<(LeConnRole, nat), FromHciBytesError> {
        if data.len() < 1 {
            Err(FromHciBytesError::InvalidSize)
        } else {
            match LeConnRole::spec_from_raw(data[0]) {
                Some(v) => Ok((v, 1)),
                None => Err(FromHciBytesError::InvalidValue),
            }
        }
    }

    fn from_hci_bytes(data: &'de [u8]) -> (r: Result<(LeConnRole, &'de [u8]), FromHciBytesError>) {
        if data.len() < 1 {
            return Err(FromHciBytesError::InvalidSize);
        }
        match LeConnRole::from_raw(data[0]) {
            Some(v) => {
                let (_, rest) = data.split_at(1);
                Ok((v, rest))
            },
            None => Err(FromHciBytesError::InvalidValue),
        }
    }
}

impl WriteHci for LeConnRole {
    open spec fn spec_hci_bytes(&self) -> Seq<u8> {
        seq![self.spec_raw()]
    }

    fn size(&self) -> (r: usize) {
        1
    }

    fn write_hci(&self, out: &mut Vec<u8>) {
        out.push(self.into_raw());
        proof {
            assert(final(out)@ =~= old(out)@ + self.spec_hci_bytes());
        }
    }
}

impl FixedSizeValue for LeConnRole {
    open spec fn spec_size() -> nat {
        1
    }

    proof fn lemma_fixed_size(&self) {
    }
}

impl<'de> HciCodec<'de> for LeConnRole {
    open spec fn spec_encodable(&self) -> bool {
        true
    }

    proof fn lemma_write_then_read(&self, rest: Seq<u8>) {
        match *self {
            LeConnRole::Central => {},
            LeConnRole::Peripheral => {},
        }
    }
}

/// ClockAccuracy.
#[derive(Debug, Clone, Copy, PartialEq, Eq, PartialOrd, Ord, Hash, Structural, Default)]
#[allow(missing_docs)]
pub enum ClockAccuracy {
    #[default]
    Ppm500,
    Ppm250,
    Ppm150,
    Ppm100,
    Ppm75,
    Ppm50,
    Ppm30,
    Ppm20,
}

impl View for ClockAccuracy {
    type V = ClockAccuracy;

    open spec fn view(&self) -> ClockAccuracy {
        *self
    }
}

impl ClockAccuracy {
    /// The byte that encodes this value.
    pub open spec fn spec_raw(self) -> u8 {
        match self {
            ClockAccuracy::Ppm500 => 0x00u8,
            ClockAccuracy::Ppm250 => 0x01u8,
            ClockAccuracy::Ppm150 => 0x02u8,
            ClockAccuracy::Ppm100 => 0x03u8,
            ClockAccuracy::Ppm75 => 0x04u8,
            ClockAccuracy::Ppm50 => 0x05u8,
            ClockAccuracy::Ppm30 => 0x06u8,
            ClockAccuracy::Ppm20 => 0x07u8,
        }
    }

    /// The value that a byte encodes, if it encodes one.
    pub open spec fn spec_from_raw(b: u8) -> Option<ClockAccuracy> {
        if b == 0x00u8 {
            Some(ClockAccuracy::Ppm500)
        } else if b == 0x01u8 {
            Some(ClockAccuracy::Ppm250)
        } else if b == 0x02u8 {
            Some(ClockAccuracy::Ppm150)
        } else if b == 0x03u8 {
            Some(ClockAccuracy::Ppm100)
        } else if b == 0x04u8 {
            Some(ClockAccuracy::Ppm75)
        } else if b == 0x05u8 {
            Some(ClockAccuracy::Ppm50)
        } else if b == 0x06u8 {
            Some(ClockAccuracy::Ppm30)
        } else if b == 0x07u8 {
            Some(ClockAccuracy::Ppm20)
        } else {
            None
        }
    }

    /// The byte that encodes this value.
    pub fn into_raw(self) -> (r: u8)
        ensures
            r == self.spec_raw(),
    {
        match self {
            ClockAccuracy::Ppm500 => 0x00u8,
            ClockAccuracy::Ppm250 => 0x01u8,
            ClockAccuracy::Ppm150 => 0x02u8,
            ClockAccuracy::Ppm100 => 0x03u8,
            ClockAccuracy::Ppm75 => 0x04u8,
            ClockAccuracy::Ppm50 => 0x05u8,
            ClockAccuracy::Ppm30 => 0x06u8,
            ClockAccuracy::Ppm20 => 0x07u8,
        }
    }

    /// The byte of each value is fixed, each of those bytes decodes to its
    /// value, and no other byte decodes.
    pub proof fn lemma_codes()
        ensures
            ClockAccuracy::Ppm500.spec_raw() == 0x00u8,
            ClockAccuracy::Ppm250.spec_raw() == 0x01u8,
            ClockAccuracy::Ppm150.spec_raw() == 0x02u8,
            ClockAccuracy::Ppm100.spec_raw() == 0x03u8,
            ClockAccuracy::Ppm75.spec_raw() == 0x04u8,
            ClockAccuracy::Ppm50.spec_raw() == 0x05u8,
            ClockAccuracy::Ppm30.spec_raw() == 0x06u8,
            ClockAccuracy::Ppm20.spec_raw() == 0x07u8,
            ClockAccuracy::spec_from_raw(0x00u8) == Some(ClockAccuracy::Ppm500),
            ClockAccuracy::spec_from_raw(0x01u8) == Some(ClockAccuracy::Ppm250),
            ClockAccuracy::spec_from_raw(0x02u8) == Some(ClockAccuracy::Ppm150),
            ClockAccuracy::spec_from_raw(0x03u8) == Some(ClockAccuracy::Ppm100),
            ClockAccuracy::spec_from_raw(0x04u8) == Some(ClockAccuracy::Ppm75),
            ClockAccuracy::spec_from_raw(0x05u8) == Some(ClockAccuracy::Ppm50),
            ClockAccuracy::spec_from_raw(0x06u8) == Some(ClockAccuracy::Ppm30),
            ClockAccuracy::spec_from_raw(0x07u8) == Some(ClockAccuracy::Ppm20),
            forall|b: u8| b != 0x00u8 && b != 0x01u8 && b != 0x02u8 && b != 0x03u8 && b != 0x04u8 && b != 0x05u8 && b != 0x06u8 && b != 0x07u8 ==> (#[trigger] ClockAccuracy::spec_from_raw(b)) is None,
            forall|v: ClockAccuracy| (#[trigger] v.spec_hci_bytes()) == seq![v.spec_raw()],
            forall|data: Seq<u8>| data.len() >= 1 ==> (#[trigger] <ClockAccuracy as FromHciBytes>::spec_from_hci_bytes(data)) == match ClockAccuracy::spec_from_raw(data[0]) {
                Some(v) => Ok::<(ClockAccuracy, nat), FromHciBytesError>((v, 1)),
                None => Err::<(ClockAccuracy, nat), FromHciBytesError>(FromHciBytesError::InvalidValue),
            },
    {
    }

    /// The value that a byte encodes, if it encodes one.
    pub fn from_raw(b: u8) -> (r: Option<ClockAccuracy>)
        ensures
            r == Self::spec_from_raw(b),
    {
        match b {
            0x00u8 => Some(ClockAccuracy::Ppm500),
            0x01u8 => Some(ClockAccuracy::Ppm250),
            0x02u8 => Some(ClockAccuracy::Ppm150),
            0x03u8 => Some(ClockAccuracy::Ppm100),
            0x04u8 => Some(ClockAccuracy::Ppm75),
            0x05u8 => Some(ClockAccuracy::Ppm50),
            0x06u8 => Some(ClockAccuracy::Ppm30),
            0x07u8 => Some(ClockAccuracy::Ppm20),
            _ => None,
        }
    }
}

impl<'de> FromHciBytes<'de> for ClockAccuracy {
    open spec fn spec_from_hci_bytes(data: Seq<u8>) -> Result<(ClockAccuracy, nat), FromHciBytesError> {
        if data.len() < 1 {
            Err(FromHciBytesError::InvalidSize)
        } else {
            match ClockAccuracy::spec_from_raw(data[0]) {
                Some(v) => Ok((v, 1)),
                None => Err(FromHciBytesError::InvalidValue),
            }
        }
    }

    fn from_hci_bytes(data: &'de [u8]) -> (r: Result<(ClockAccuracy, &'de [u8]), FromHciBytesError>) {
        if data.len() < 1 {
            return Err(FromHciBytesError::InvalidSize);
        }
        match ClockAccuracy::from_raw(data[0]) {
            Some(v) => {
                let (_, rest) = data.split_at(1);
                Ok((v, rest))
            },
            None => Err(FromHciBytesError::InvalidValue),
        }
    }
}

impl WriteHci for ClockAccuracy {
    open spec fn spec_hci_bytes(&self) -> Seq<u8> {
        seq![self.spec_raw()]
    }

    fn size(&self) -> (r: usize) {
        1
    }

    fn write_hci(&self, out: &mut Vec<u8>) {
        out.push(self.into_raw());
        proof {
            assert(final(out)@ =~= old(out)@ + self.spec_hci_bytes());
        }
    }
}

impl FixedSizeValue for ClockAccuracy {
    open spec fn spec_size() -> nat {
        1
    }

    proof fn lemma_fixed_size(&self) {
    }
}

impl<'de> HciCodec<'de> for ClockAccuracy {
    open spec fn spec_encodable(&self) -> bool {
        true
    }

    proof fn lemma_write_then_read(&self, rest: Seq<u8>) {
        match *self {
            ClockAccuracy::Ppm500 => {},
            ClockAccuracy::Ppm250 => {},
            ClockAccuracy::Ppm150 => {},
            ClockAccuracy::Ppm100 => {},
            ClockAccuracy::Ppm75 => {},
            ClockAccuracy::Ppm50 => {},
            ClockAccuracy::Ppm30 => {},
            ClockAccuracy::Ppm20 => {},
        }
    }
}

/// LeAdvertisingReportParam parameter
#[derive(Debug, Clone, Copy, PartialEq, Eq, PartialOrd, Ord, Hash, Default)]
#[allow(missing_docs)]
pub struct LeAdvertisingReportParam<'a> {
    pub event_type: u8,
    pub addr_kind: AddrKind,
    pub addr: BdAddr,
    pub data: &'a [u8],
    pub rssi: i8,
}

/// The value of a [`LeAdvertisingReportParam`], with byte slices taken as sequences.
#[allow(missing_docs)]
pub struct LeAdvertisingReportParamView {
    pub event_type: u8,
    pub addr_kind: u8,
    pub addr: Seq<u8>,
    pub data: Seq<u8>,
    pub rssi: i8,
}

impl<'a> View for LeAdvertisingReportParam<'a> {
    type V = LeAdvertisingReportParamView;

    open spec fn view(&self) -> LeAdvertisingReportParamView {
        LeAdvertisingReportParamView { event_type: self.event_type@, addr_kind: self.addr_kind@, addr: self.addr@, data: self.data@, rssi: self.rssi@ }
    }
}

impl<'de> FromHciBytes<'de> for LeAdvertisingReportParam<'de> {
    open spec fn spec_from_hci_bytes(data: Seq<u8>) -> Result<(LeAdvertisingReportParamView, nat), FromHciBytesError> {
        match <u8 as FromHciBytes<'de>>::spec_from_hci_bytes(data) {
            Err(e) => Err(e),
            Ok((v_event_type, n_event_type)) => {
                match <AddrKind as FromHciBytes<'de>>::spec_from_hci_bytes(data.skip(n_event_type as int)) {
                    Err(e) => Err(e),
                    Ok((v_addr_kind, n_addr_kind)) => {
                        match <BdAddr as FromHciBytes<'de>>::spec_from_hci_bytes(data.skip(n_event_type as int).skip(n_addr_kind as int)) {
                            Err(e) => Err(e),
                            Ok((v_addr, n_addr)) => {
                                match <&'de [u8] as FromHciBytes<'de>>::spec_from_hci_bytes(data.skip(n_event_type as int).skip(n_addr_kind as int).skip(n_addr as int)) {
                                    Err(e) => Err(e),
                                    Ok((v_data, n_data)) => {
                                        match <i8 as FromHciBytes<'de>>::spec_from_hci_bytes(data.skip(n_event_type as int).skip(n_addr_kind as int).skip(n_addr as int).skip(n_data as int)) {
                                            Err(e) => Err(e),
                                            Ok((v_rssi, n_rssi)) => {
                                                Ok((LeAdvertisingReportParamView { event_type: v_event_type, addr_kind: v_addr_kind, addr: v_addr, data: v_data, rssi: v_rssi }, (n_event_type + n_addr_kind + n_addr + n_data + n_rssi) as nat))
                                            },
                                        }
                                    },
                                }
                            },
                        }
                    },
                }
            },
        }
    }

    fn from_hci_bytes(data: &'de [u8]) -> (r: Result<(LeAdvertisingReportParam<'de>, &'de [u8]), FromHciBytesError>) {
        let (v_event_type, rest_event_type) = match <u8 as FromHciBytes<'de>>::from_hci_bytes(data) {
            Ok(x) => x,
            Err(e) => return Err(e),
        };
        let (v_addr_kind, rest_addr_kind) = match <AddrKind as FromHciBytes<'de>>::from_hci_bytes(rest_event_type) {
            Ok(x) => x,
            Err(e) => return Err(e),
        };
        proof {
            lemma_skip_skip(data@, (data@.len() - rest_event_type@.len()) as int, (rest_event_type@.len() - rest_addr_kind@.len()) as int);
        }
        let (v_addr, rest_addr) = match <BdAddr as FromHciBytes<'de>>::from_hci_bytes(rest_addr_kind) {
            Ok(x) => x,
            Err(e) => return Err(e),
        };
        proof {
            lemma_skip_skip(data@, (data@.len() - rest_addr_kind@.len()) as int, (rest_addr_kind@.len() - rest_addr@.len()) as int);
        }
        let (v_data, rest_data) = match <&'de [u8] as FromHciBytes<'de>>::from_hci_bytes(rest_addr) {
            Ok(x) => x,
            Err(e) => return Err(e),
        };
        proof {
            lemma_skip_skip(data@, (data@.len() - rest_addr@.len()) as int, (rest_addr@.len() - rest_data@.len()) as int);
        }
        let (v_rssi, rest_rssi) = match <i8 as FromHciBytes<'de>>::from_hci_bytes(rest_data) {
            Ok(x) => x,
            Err(e) => return Err(e),
        };
        proof {
            lemma_skip_skip(data@, (data@.len() - rest_data@.len()) as int, (rest_data@.len() - rest_rssi@.len()) as int);
        }
        Ok((LeAdvertisingReportParam { event_type: v_event_type, addr_kind: v_addr_kind, addr: v_addr, data: v_data, rssi: v_rssi }, rest_rssi))
    }
}

impl<'a> WriteHci for LeAdvertisingReportParam<'a> {
    open spec fn spec_hci_bytes(&self) -> Seq<u8> {
        self.event_type.spec_hci_bytes() + self.addr_kind.spec_hci_bytes() + self.addr.spec_hci_bytes() + self.data.spec_hci_bytes() + self.rssi.spec_hci_bytes()
    }

    fn size(&self) -> (r: usize) {
        let mut n = self.event_type.size();
        proof {
            assert(self.event_type.spec_hci_bytes() + self.addr_kind.spec_hci_bytes() =~= (self.event_type.spec_hci_bytes() + self.addr_kind.spec_hci_bytes()));
        }
        n = n + self.addr_kind.size();
        proof {
            assert(self.event_type.spec_hci_bytes() + self.addr_kind.spec_hci_bytes() + self.addr.spec_hci_bytes() =~= (self.event_type.spec_hci_bytes() + self.addr_kind.spec_hci_bytes() + self.addr.spec_hci_bytes()));
        }
        n = n + self.addr.size();
        proof {
            assert(self.event_type.spec_hci_bytes() + self.addr_kind.spec_hci_bytes() + self.addr.spec_hci_bytes() + self.data.spec_hci_bytes() =~= (self.event_type.spec_hci_bytes() + self.addr_kind.spec_hci_bytes() + self.addr.spec_hci_bytes() + self.data.spec_hci_bytes()));
        }
        n = n + self.data.size();
        proof {
            assert(self.event_type.spec_hci_bytes() + self.addr_kind.spec_hci_bytes() + self.addr.spec_hci_bytes() + self.data.spec_hci_bytes() + self.rssi.spec_hci_bytes() =~= (self.event_type.spec_hci_bytes() + self.addr_kind.spec_hci_bytes() + self.addr.spec_hci_bytes() + self.data.spec_hci_bytes() + self.rssi.spec_hci_bytes()));
        }
        n = n + self.rssi.size();
        n
    }

    fn write_hci(&self, out: &mut Vec<u8>) {
        self.event_type.write_hci(out);
        self.addr_kind.write_hci(out);
        self.addr.write_hci(out);
        self.data.write_hci(out);
        self.rssi.write_hci(out);
        proof {
            assert(out@ =~= old(out)@ + self.spec_hci_bytes());
        }
    }
}

impl<'a> LeAdvertisingReportParam<'a> {
    /// The bytes of a `LeAdvertisingReportParam` are the bytes of its fields, one after the
    /// other, in the order in which the fields are declared.
    pub proof fn lemma_fields_in_order(&self)
        ensures
            self.spec_hci_bytes() == self.event_type.spec_hci_bytes() + self.addr_kind.spec_hci_bytes() + self.addr.spec_hci_bytes() + self.data.spec_hci_bytes() + self.rssi.spec_hci_bytes(),
    {
    }
}

impl<'de> HciCodec<'de> for LeAdvertisingReportParam<'de> {
    open spec fn spec_encodable(&self) -> bool {
        self.event_type.spec_encodable() && self.addr_kind.spec_encodable() && self.addr.spec_encodable() && self.data.spec_encodable() && self.rssi.spec_encodable()
    }

    proof fn lemma_write_then_read(&self, rest: Seq<u8>) {
        let t_rssi = self.rssi.spec_hci_bytes() + rest;
        let t_data = self.data.spec_hci_bytes() + t_rssi;
        let t_addr = self.addr.spec_hci_bytes() + t_data;
        let t_addr_kind = self.addr_kind.spec_hci_bytes() + t_addr;
        let t_event_type = self.event_type.spec_hci_bytes() + t_addr_kind;
        assert(self.spec_hci_bytes() + rest =~= t_event_type);
        self.event_type.lemma_write_then_read(t_addr_kind);
        self.addr_kind.lemma_write_then_read(t_addr);
        self.addr.lemma_write_then_read(t_data);
        self.data.lemma_write_then_read(t_rssi);
        self.rssi.lemma_write_then_read(rest);
        assert(t_event_type.skip(self.event_type.spec_hci_bytes().len() as int) =~= t_addr_kind);
        assert(t_addr_kind.skip(self.addr_kind.spec_hci_bytes().len() as int) =~= t_addr);
        assert(t_addr.skip(self.addr.spec_hci_bytes().len() as int) =~= t_data);
        assert(t_data.skip(self.data.spec_hci_bytes().len() as int) =~= t_rssi);
    }
}

/// DataStatus.
#[derive(Debug, Clone, Copy, PartialEq, Eq, PartialOrd, Ord, Hash, Structural, Default)]
#[allow(missing_docs)]
pub enum DataStatus {
    #[default]
    Complete,
    Incomplete,
    Failed,
}

impl View for DataStatus {
    type V = DataStatus;

    open spec fn view(&self) -> DataStatus {
        *self
    }
}

impl DataStatus {
    /// The byte that encodes this value.
    pub open spec fn spec_raw(self) -> u8 {
        match self {
            DataStatus::Complete => 0x00u8,
            DataStatus::Incomplete => 0x01u8,
            DataStatus::Failed => 0xffu8,
        }
    }

    /// The value that a byte encodes, if it encodes one.
    pub open spec fn spec_from_raw(b: u8) -> Option<DataStatus> {
        if b == 0x00u8 {
            Some(DataStatus::Complete)
        } else if b == 0x01u8 {
            Some(DataStatus::Incomplete)
        } else if b == 0xffu8 {
            Some(DataStatus::Failed)
        } else {
            None
        }
    }

    /// The byte that encodes this value.
    pub fn into_raw(self) -> (r: u8)
        ensures
            r == self.spec_raw(),
    {
        match self {
            DataStatus::Complete => 0x00u8,
            DataStatus::Incomplete => 0x01u8,
            DataStatus::Failed => 0xffu8,
        }
    }

    /// The byte of each value is fixed, each of those bytes decodes to its
    /// value, and no other byte decodes.
    pub proof fn lemma_codes()
        ensures
            DataStatus::Complete.spec_raw() == 0x00u8,
            DataStatus::Incomplete.spec_raw() == 0x01u8,
            DataStatus::Failed.spec_raw() == 0xffu8,
            DataStatus::spec_from_raw(0x00u8) == Some(DataStatus::Complete),
            DataStatus::spec_from_raw(0x01u8) == Some(DataStatus::Incomplete),
            DataStatus::spec_from_raw(0xffu8) == Some(DataStatus::Failed),
            forall|b: u8| b != 0x00u8 && b != 0x01u8 && b != 0xffu8 ==> (#[trigger] DataStatus::spec_from_raw(b)) is None,
            forall|v: DataStatus| (#[trigger] v.spec_hci_bytes()) == seq![v.spec_raw()],
            forall|data: Seq<u8>| data.len() >= 1 ==> (#[trigger] <DataStatus as FromHciBytes>::spec_from_hci_bytes(data)) == match DataStatus::spec_from_raw(data[0]) {
                Some(v) => Ok::<(DataStatus, nat), FromHciBytesError>((v, 1)),
                None => Err::<(DataStatus, nat), FromHciBytesError>(FromHciBytesError::InvalidValue),
            },
    {
    }

    /// The value that a byte encodes, if it encodes one.
    pub fn from_raw(b: u8) -> (r: Option<DataStatus>)
        ensures
            r == Self::spec_from_raw(b),
    {
        match b {
            0x00u8 => Some(DataStatus::Complete),
            0x01u8 => Some(DataStatus::Incomplete),
            0xffu8 => Some(DataStatus::Failed),
            _ => None,
        }
    }
}

impl<'de> FromHciBytes<'de> for DataStatus {
    open spec fn spec_from_hci_bytes(data: Seq<u8>) -> Result<(DataStatus, nat), FromHciBytesError> {
        if data.len() < 1 {
            Err(FromHciBytesError::InvalidSize)
        } else {
            match DataStatus::spec_from_raw(data[0]) {
                Some(v) => Ok((v, 1)),
                None => Err(FromHciBytesError::InvalidValue),
            }
        }
    }

    fn from_hci_bytes(data: &'de [u8]) -> (r: Result<(DataStatus, &'de [u8]), FromHciBytesError>) {
        if data.len() < 1 {
            return Err(FromHciBytesError::InvalidSize);
        }
        match DataStatus::from_raw(data[0]) {
            Some(v) => {
                let (_, rest) = data.split_at(1);
                Ok((v, rest))
            },
            None => Err(FromHciBytesError::InvalidValue),
        }
    }
}

impl WriteHci for DataStatus {
    open spec fn spec_hci_bytes(&self) -> Seq<u8> {
        seq![self.spec_raw()]
    }

    fn size(&self) -> (r: usize) {
        1
    }

    fn write_hci(&self, out: &mut Vec<u8>) {
        out.push(self.into_raw());
        proof {
            assert(final(out)@ =~= old(out)@ + self.spec_hci_bytes());
        }
    }
}

impl FixedSizeValue for DataStatus {
    open spec fn spec_size() -> nat {
        1
    }

    proof fn lemma_fixed_size(&self) {
    }
}

impl<'de> HciCodec<'de> for DataStatus {
    open spec fn spec_encodable(&self) -> bool {
        true
    }

    proof fn lemma_write_then_read(&self, rest: Seq<u8>) {
        match *self {
            DataStatus::Complete => {},
            DataStatus::Incomplete => {},
            DataStatus::Failed => {},
        }
    }
}

/// PacketStatus.
#[derive(Debug, Clone, Copy, PartialEq, Eq, PartialOrd, Ord, Hash, Structural, Default)]
#[allow(missing_docs)]
pub enum PacketStatus {
    #[default]
    CrcCorrect,
    CrcIncorrectUsedLength,
    CrcIncorrectUsedOther,
    InsufficientResources,
}

impl View for PacketStatus {
    type V = PacketStatus;

    open spec fn view(&self) -> PacketStatus {
        *self
    }
}

impl PacketStatus {
    /// The byte that encodes this value.
    pub open spec fn spec_raw(self) -> u8 {
        match self {
            PacketStatus::CrcCorrect => 0x00u8,
            PacketStatus::CrcIncorrectUsedLength => 0x01u8,
            PacketStatus::CrcIncorrectUsedOther => 0x02u8,
            PacketStatus::InsufficientResources => 0xffu8,
        }
    }

    /// The value that a byte encodes, if it encodes one.
    pub open spec fn spec_from_raw(b: u8) -> Option<PacketStatus> {
        if b == 0x00u8 {
            Some(PacketStatus::CrcCorrect)
        } else if b == 0x01u8 {
            Some(PacketStatus::CrcIncorrectUsedLength)
        } else if b == 0x02u8 {
            Some(PacketStatus::CrcIncorrectUsedOther)
        } else if b == 0xffu8 {
            Some(PacketStatus::InsufficientResources)
        } else {
            None
        }
    }

    /// The byte that encodes this value.
    pub fn into_raw(self) -> (r: u8)
        ensures
            r == self.spec_raw(),
    {
        match self {
            PacketStatus::CrcCorrect => 0x00u8,
            PacketStatus::CrcIncorrectUsedLength => 0x01u8,
            PacketStatus::CrcIncorrectUsedOther => 0x02u8,
            PacketStatus::InsufficientResources => 0xffu8,
        }
    }

    /// The byte of each value is fixed, each of those bytes decodes to its
    /// value, and no other byte decodes.
    pub proof fn lemma_codes()
        ensures
            PacketStatus::CrcCorrect.spec_raw() == 0x00u8,
            PacketStatus::CrcIncorrectUsedLength.spec_raw() == 0x01u8,
            PacketStatus::CrcIncorrectUsedOther.spec_raw() == 0x02u8,
            PacketStatus::InsufficientResources.spec_raw() == 0xffu8,
            PacketStatus::spec_from_raw(0x00u8) == Some(PacketStatus::CrcCorrect),
            PacketStatus::spec_from_raw(0x01u8) == Some(PacketStatus::CrcIncorrectUsedLength),
            PacketStatus::spec_from_raw(0x02u8) == Some(PacketStatus::CrcIncorrectUsedOther),
            PacketStatus::spec_from_raw(0xffu8) == Some(PacketStatus::InsufficientResources),
            forall|b: u8| b != 0x00u8 && b != 0x01u8 && b != 0x02u8 && b != 0xffu8 ==> (#[trigger] PacketStatus::spec_from_raw(b)) is None,
            forall|v: PacketStatus| (#[trigger] v.spec_hci_bytes()) == seq![v.spec_raw()],
            forall|data: Seq<u8>| data.len() >= 1 ==> (#[trigger] <PacketStatus as FromHciBytes>::spec_from_hci_bytes(data)) == match PacketStatus::spec_from_raw(data[0]) {
                Some(v) => Ok::<(PacketStatus, nat), FromHciBytesError>((v, 1)),
                None => Err::<(PacketStatus, nat), FromHciBytesError>(FromHciBytesError::InvalidValue),
            },
    {
    }

    /// The value that a byte encodes, if it encodes one.
    pub fn from_raw(b: u8) -> (r: Option<PacketStatus>)
        ensures
            r == Self::spec_from_raw(b),
    {
        match b {
            0x00u8 => Some(PacketStatus::CrcCorrect),
            0x01u8 => Some(PacketStatus::CrcIncorrectUsedLength),
            0x02u8 => Some(PacketStatus::CrcIncorrectUsedOther),
            0xffu8 => Some(PacketStatus::InsufficientResources),
            _ => None,
        }
    }
}

impl<'de> FromHciBytes<'de> for PacketStatus {
    open spec fn spec_from_hci_bytes(data: Seq<u8>) -> Result<(PacketStatus, nat), FromHciBytesError> {
        if data.len() < 1 {
            Err(FromHciBytesError::InvalidSize)
        } else {
            match PacketStatus::spec_from_raw(data[0]) {
                Some(v) => Ok((v, 1)),
                None => Err(FromHciBytesError::InvalidValue),
            }
        }
    }

    fn from_hci_bytes(data: &'de [u8]) -> (r: Result<(PacketStatus, &'de [u8]), FromHciBytesError>) {
        if data.len() < 1 {
            return Err(FromHciBytesError::InvalidSize);
        }
        match PacketStatus::from_raw(data[0]) {
            Some(v) => {
                let (_, rest) = data.split_at(1);
                Ok((v, rest))
            },
            None => Err(FromHciBytesError::InvalidValue),
        }
    }
}

impl WriteHci for PacketStatus {
    open spec fn spec_hci_bytes(&self) -> Seq<u8> {
        seq![self.spec_raw()]
    }

    fn size(&self) -> (r: usize) {
        1
    }

    fn write_hci(&self, out: &mut Vec<u8>) {
        out.push(self.into_raw());
        proof {
            assert(final(out)@ =~= old(out)@ + self.spec_hci_bytes());
        }
    }
}

impl FixedSizeValue for PacketStatus {
    open spec fn spec_size() -> nat {
        1
    }

    proof fn lemma_fixed_size(&self) {
    }
}

impl<'de> HciCodec<'de> for PacketStatus {
    open spec fn spec_encodable(&self) -> bool {
        true
    }

    proof fn lemma_write_then_read(&self, rest: Seq<u8>) {
        match *self {
            PacketStatus::CrcCorrect => {},
            PacketStatus::CrcIncorrectUsedLength => {},
            PacketStatus::CrcIncorrectUsedOther => {},
            PacketStatus::InsufficientResources => {},
        }
    }
}

/// TxStatus.
#[derive(Debug, Clone, Copy, PartialEq, Eq, PartialOrd, Ord, Hash, Structural, Default)]
#[allow(missing_docs)]
pub enum TxStatus {
    #[default]
    Transmitted,
    NotTransmitted,
}

impl View for TxStatus {
    type V = TxStatus;

    open spec fn view(&self) -> TxStatus {
        *self
    }
}

impl TxStatus {
    /// The byte that encodes this value.
    pub open spec fn spec_raw(self) -> u8 {
        match self {
            TxStatus::Transmitted => 0x00u8,
            TxStatus::NotTransmitted => 0x01u8,
        }
    }

    /// The value that a byte encodes, if it encodes one.
    pub open spec fn spec_from_raw(b: u8) -> Option<TxStatus> {
        if b == 0x00u8 {
            Some(TxStatus::Transmitted)
        } else if b == 0x01u8 {
            Some(TxStatus::NotTransmitted)
        } else {
            None
        }
    }

    /// The byte that encodes this value.
    pub fn into_raw(self) -> (r: u8)
        ensures
            r == self.spec_raw(),
    {
        match self {
            TxStatus::Transmitted => 0x00u8,
            TxStatus::NotTransmitted => 0x01u8,
        }
    }

    /// The byte of each value is fixed, each of those bytes decodes to its
    /// value, and no other byte decodes.
    pub proof fn lemma_codes()
        ensures
            TxStatus::Transmitted.spec_raw() == 0x00u8,
            TxStatus::NotTransmitted.spec_raw() == 0x01u8,
            TxStatus::spec_from_raw(0x00u8) == Some(TxStatus::Transmitted),
            TxStatus::spec_from_raw(0x01u8) == Some(TxStatus::NotTransmitted),
            forall|b: u8| b != 0x00u8 && b != 0x01u8 ==> (#[trigger] TxStatus::spec_from_raw(b)) is None,
            forall|v: TxStatus| (#[trigger] v.spec_hci_bytes()) == seq![v.spec_raw()],
            forall|data: Seq<u8>| data.len() >= 1 ==> (#[trigger] <TxStatus as FromHciBytes>::spec_from_hci_bytes(data)) == match TxStatus::spec_from_raw(data[0]) {
                Some(v) => Ok::<(TxStatus, nat), FromHciBytesError>((v, 1)),
                None => Err::<(TxStatus, nat), FromHciBytesError>(FromHciBytesError::InvalidValue),
            },
    {
    }

    /// The value that a byte encodes, if it encodes one.
    pub fn from_raw(b: u8) -> (r: Option<TxStatus>)
        ensures
            r == Self::spec_from_raw(b),
    {
        match b {
            0x00u8 => Some(TxStatus::Transmitted),
            0x01u8 => Some(TxStatus::NotTransmitted),
            _ => None,
        }
    }
}

impl<'de> FromHciBytes<'de> for TxStatus {
    open spec fn spec_from_hci_bytes(data: Seq<u8>) -> Result<(TxStatus, nat), FromHciBytesError> {
        if data.len() < 1 {
            Err(FromHciBytesError::InvalidSize)
        } else {
            match TxStatus::spec_from_raw(data[0]) {
                Some(v) => Ok((v, 1)),
                None => Err(FromHciBytesError::InvalidValue),
            }
        }
    }

    fn from_hci_bytes(data: &'de [u8]) -> (r: Result<(TxStatus, &'de [u8]), FromHciBytesError>) {
        if data.len() < 1 {
            return Err(FromHciBytesError::InvalidSize);
        }
        match TxStatus::from_raw(data[0]) {
            Some(v) => {
                let (_, rest) = data.split_at(1);
                Ok((v, rest))
            },
            None => Err(FromHciBytesError::InvalidValue),
        }
    }
}

impl WriteHci for TxStatus {
    open spec fn spec_hci_bytes(&self) -> Seq<u8> {
        seq![self.spec_raw()]
    }

    fn size(&self) -> (r: usize) {
        1
    }

    fn write_hci(&self, out: &mut Vec<u8>) {
        out.push(self.into_raw());
        proof {
            assert(final(out)@ =~= old(out)@ + self.spec_hci_bytes());
        }
    }
}

impl FixedSizeValue for TxStatus {
    open spec fn spec_size() -> nat {
        1
    }

    proof fn lemma_fixed_size(&self) {
    }
}

impl<'de> HciCodec<'de> for TxStatus {
    open spec fn spec_encodable(&self) -> bool {
        true
    }

    proof fn lemma_write_then_read(&self, rest: Seq<u8>) {
        match *self {
            TxStatus::Transmitted => {},
            TxStatus::NotTransmitted => {},
        }
    }
}

/// ZoneEntered.
#[derive(Debug, Clone, Copy, PartialEq, Eq, PartialOrd, Ord, Hash, Structural, Default)]
#[allow(missing_docs)]
pub enum ZoneEntered {
    #[default]
    Low,
    Middle,
    High,
}

impl View for ZoneEntered {
    type V = ZoneEntered;

    open spec fn view(&self) -> ZoneEntered {
        *self
    }
}

impl ZoneEntered {
    /// The byte that encodes this value.
    pub open spec fn spec_raw(self) -> u8 {
        match self {
            ZoneEntered::Low => 0x00u8,
            ZoneEntered::Middle => 0x01u8,
            ZoneEntered::High => 0x02u8,
        }
    }

    /// The value that a byte encodes, if it encodes one.
    pub open spec fn spec_from_raw(b: u8) -> Option<ZoneEntered> {
        if b == 0x00u8 {
            Some(ZoneEntered::Low)
        } else if b == 0x01u8 {
            Some(ZoneEntered::Middle)
        } else if b == 0x02u8 {
            Some(ZoneEntered::High)
        } else {
            None
        }
    }

    /// The byte that encodes this value.
    pub fn into_raw(self) -> (r: u8)
        ensures
            r == self.spec_raw(),
    {
        match self {
            ZoneEntered::Low => 0x00u8,
            ZoneEntered::Middle => 0x01u8,
            ZoneEntered::High => 0x02u8,
        }
    }

    /// The byte of each value is fixed, each of those bytes decodes to its
    /// value, and no other byte decodes.
    pub proof fn lemma_codes()
        ensures
            ZoneEntered::Low.spec_raw() == 0x00u8,
            ZoneEntered::Middle.spec_raw() == 0x01u8,
            ZoneEntered::High.spec_raw() == 0x02u8,
            ZoneEntered::spec_from_raw(0x00u8) == Some(ZoneEntered::Low),
            ZoneEntered::spec_from_raw(0x01u8) == Some(ZoneEntered::Middle),
            ZoneEntered::spec_from_raw(0x02u8) == Some(ZoneEntered::High),
            forall|b: u8| b != 0x00u8 && b != 0x01u8 && b != 0x02u8 ==> (#[trigger] ZoneEntered::spec_from_raw(b)) is None,
            forall|v: ZoneEntered| (#[trigger] v.spec_hci_bytes()) == seq![v.spec_raw()],
            forall|data: Seq<u8>| data.len() >= 1 ==> (#[trigger] <ZoneEntered as FromHciBytes>::spec_from_hci_bytes(data)) == match ZoneEntered::spec_from_raw(data[0]) {
                Some(v) => Ok::<(ZoneEntered, nat), FromHciBytesError>((v, 1)),
                None => Err::<(ZoneEntered, nat), FromHciBytesError>(FromHciBytesError::InvalidValue),
            },
    {
    }

    /// The value that a byte encodes, if it encodes one.
    pub fn from_raw(b: u8) -> (r: Option<ZoneEntered>)
        ensures
            r == Self::spec_from_raw(b),
    {
        match b {
            0x00u8 => Some(ZoneEntered::Low),
            0x01u8 => Some(ZoneEntered::Middle),
            0x02u8 => Some(ZoneEntered::High),
            _ => None,
        }
    }
}

impl<'de> FromHciBytes<'de> for ZoneEntered {
    open spec fn spec_from_hci_bytes(data: Seq<u8>) -> Result<(ZoneEntered, nat), FromHciBytesError> {
        if data.len() < 1 {
            Err(FromHciBytesError::InvalidSize)
        } else {
            match ZoneEntered::spec_from_raw(data[0]) {
                Some(v) => Ok((v, 1)),
                None => Err(FromHciBytesError::InvalidValue),
            }
        }
    }

    fn from_hci_bytes(data: &'de [u8]) -> (r: Result<(ZoneEntered, &'de [u8]), FromHciBytesError>) {
        if data.len() < 1 {
            return Err(FromHciBytesError::InvalidSize);
        }
        match ZoneEntered::from_raw(data[0]) {
            Some(v) => {
                let (_, rest) = data.split_at(1);
                Ok((v, rest))
            },
            None => Err(FromHciBytesError::InvalidValue),
        }
    }
}

impl WriteHci for ZoneEntered {
    open spec fn spec_hci_bytes(&self) -> Seq<u8> {
        seq![self.spec_raw()]
    }

    fn size(&self) -> (r: usize) {
        1
    }

    fn write_hci(&self, out: &mut Vec<u8>) {
        out.push(self.into_raw());
        proof {
            assert(final(out)@ =~= old(out)@ + self.spec_hci_bytes());
        }
    }
}

impl FixedSizeValue for ZoneEntered {
    open spec fn spec_size() -> nat {
        1
    }

    proof fn lemma_fixed_size(&self) {
    }
}

impl<'de> HciCodec<'de> for ZoneEntered {
    open spec fn spec_encodable(&self) -> bool {
        true
    }

    proof fn lemma_write_then_read(&self, rest: Seq<u8>) {
        match *self {
            ZoneEntered::Low => {},
            ZoneEntered::Middle => {},
            ZoneEntered::High => {},
        }
    }
}

/// LeTxPowerReportingReason.
#[derive(Debug, Clone, Copy, PartialEq, Eq, PartialOrd, Ord, Hash, Structural, Default)]
#[allow(missing_docs)]
pub enum LeTxPowerReportingReason {
    #[default]
    LocalTxPowerChanged,
    RemoteTxPowerChanged,
    LeReadRemoteTxPowerLevelCompleted,
}

impl View for LeTxPowerReportingReason {
    type V = LeTxPowerReportingReason;

    open spec fn view(&self) -> LeTxPowerReportingReason {
        *self
    }
}

impl LeTxPowerReportingReason {
    /// The byte that encodes this value.
    pub open spec fn spec_raw(self) -> u8 {
        match self {
            LeTxPowerReportingReason::LocalTxPowerChanged => 0x00u8,
            LeTxPowerReportingReason::RemoteTxPowerChanged => 0x01u8,
            LeTxPowerReportingReason::LeReadRemoteTxPowerLevelCompleted => 0x02u8,
        }
    }

    /// The value that a byte encodes, if it encodes one.
    pub open spec fn spec_from_raw(b: u8) -> Option<LeTxPowerReportingReason> {
        if b == 0x00u8 {
            Some(LeTxPowerReportingReason::LocalTxPowerChanged)
        } else if b == 0x01u8 {
            Some(LeTxPowerReportingReason::RemoteTxPowerChanged)
        } else if b == 0x02u8 {
            Some(LeTxPowerReportingReason::LeReadRemoteTxPowerLevelCompleted)
        } else {
            None
        }
    }

    /// The byte that encodes this value.
    pub fn into_raw(self) -> (r: u8)
        ensures
            r == self.spec_raw(),
    {
        match self {
            LeTxPowerReportingReason::LocalTxPowerChanged => 0x00u8,
            LeTxPowerReportingReason::RemoteTxPowerChanged => 0x01u8,
            LeTxPowerReportingReason::LeReadRemoteTxPowerLevelCompleted => 0x02u8,
        }
    }

    /// The byte of each value is fixed, each of those bytes decodes to its
    /// value, and no other byte decodes.
    pub proof fn lemma_codes()
        ensures
            LeTxPowerReportingReason::LocalTxPowerChanged.spec_raw() == 0x00u8,
            LeTxPowerReportingReason::RemoteTxPowerChanged.spec_raw() == 0x01u8,
            LeTxPowerReportingReason::LeReadRemoteTxPowerLevelCompleted.spec_raw() == 0x02u8,
            LeTxPowerReportingReason::spec_from_raw(0x00u8) == Some(LeTxPowerReportingReason::LocalTxPowerChanged),
            LeTxPowerReportingReason::spec_from_raw(0x01u8) == Some(LeTxPowerReportingReason::RemoteTxPowerChanged),
            LeTxPowerReportingReason::spec_from_raw(0x02u8) == Some(LeTxPowerReportingReason::LeReadRemoteTxPowerLevelCompleted),
            forall|b: u8| b != 0x00u8 && b != 0x01u8 && b != 0x02u8 ==> (#[trigger] LeTxPowerReportingReason::spec_from_raw(b)) is None,
            forall|v: LeTxPowerReportingReason| (#[trigger] v.spec_hci_bytes()) == seq![v.spec_raw()],
            forall|data: Seq<u8>| data.len() >= 1 ==> (#[trigger] <LeTxPowerReportingReason as FromHciBytes>::spec_from_hci_bytes(data)) == match LeTxPowerReportingReason::spec_from_raw(data[0]) {
                Some(v) => Ok::<(LeTxPowerReportingReason, nat), FromHciBytesError>((v, 1)),
                None => Err::<(LeTxPowerReportingReason, nat), FromHciBytesError>(FromHciBytesError::InvalidValue),
            },
    {
    }

    /// The value that a byte encodes, if it encodes one.
    pub fn from_raw(b: u8) -> (r: Option<LeTxPowerReportingReason>)
        ensures
            r == Self::spec_from_raw(b),
    {
        match b {
            0x00u8 => Some(LeTxPowerReportingReason::LocalTxPowerChanged),
            0x01u8 => Some(LeTxPowerReportingReason::RemoteTxPowerChanged),
            0x02u8 => Some(LeTxPowerReportingReason::LeReadRemoteTxPowerLevelCompleted),
            _ => None,
        }
    }
}

impl<'de> FromHciBytes<'de> for LeTxPowerReportingReason {
    open spec fn spec_from_hci_bytes(data: Seq<u8>) -> Result<(LeTxPowerReportingReason, nat), FromHciBytesError> {
        if data.len() < 1 {
            Err(FromHciBytesError::InvalidSize)
        } else {
            match LeTxPowerReportingReason::spec_from_raw(data[0]) {
                Some(v) => Ok((v, 1)),
                None => Err(FromHciBytesError::InvalidValue),
            }
        }
    }

    fn from_hci_bytes(data: &'de [u8]) -> (r: Result<(LeTxPowerReportingReason, &'de [u8]), FromHciBytesError>) {
        if data.len() < 1 {
            return Err(FromHciBytesError::InvalidSize);
        }
        match LeTxPowerReportingReason::from_raw(data[0]) {
            Some(v) => {
                let (_, rest) = data.split_at(1);
                Ok((v, rest))
            },
            None => Err(FromHciBytesError::InvalidValue),
        }
    }
}

impl WriteHci for LeTxPowerReportingReason {
    open spec fn spec_hci_bytes(&self) -> Seq<u8> {
        seq![self.spec_raw()]
    }

    fn size(&self) -> (r: usize) {
        1
    }

    fn write_hci(&self, out: &mut Vec<u8>) {
        out.push(self.into_raw());
        proof {
            assert(final(out)@ =~= old(out)@ + self.spec_hci_bytes());
        }
    }
}

impl FixedSizeValue for LeTxPowerReportingReason {
    open spec fn spec_size() -> nat {
        1
    }

    proof fn lemma_fixed_size(&self) {
    }
}

impl<'de> HciCodec<'de> for LeTxPowerReportingReason {
    open spec fn spec_encodable(&self) -> bool {
        true
    }

    proof fn lemma_write_then_read(&self, rest: Seq<u8>) {
        match *self {
            LeTxPowerReportingReason::LocalTxPowerChanged => {},
            LeTxPowerReportingReason::RemoteTxPowerChanged => {},
            LeTxPowerReportingReason::LeReadRemoteTxPowerLevelCompleted => {},
        }
    }
}

/// LeAdvEventKind.
#[derive(Debug, Clone, Copy, PartialEq, Eq, PartialOrd, Ord, Hash, Structural, Default)]
#[allow(missing_docs)]
pub enum LeAdvEventKind {
    #[default]
    AdvInd,
    AdvDirectInd,
    AdvScanInd,
    AdvNonconnInd,
    ScanRsp,
}

impl View for LeAdvEventKind {
    type V = LeAdvEventKind;

    open spec fn view(&self) -> LeAdvEventKind {
        *self
    }
}

impl LeAdvEventKind {
    /// The byte that encodes this value.
    pub open spec fn spec_raw(self) -> u8 {
        match self {
            LeAdvEventKind::AdvInd => 0x00u8,
            LeAdvEventKind::AdvDirectInd => 0x01u8,
            LeAdvEventKind::AdvScanInd => 0x02u8,
            LeAdvEventKind::AdvNonconnInd => 0x03u8,
            LeAdvEventKind::ScanRsp => 0x04u8,
        }
    }

    /// The value that a byte encodes, if it encodes one.
    pub open spec fn spec_from_raw(b: u8) -> Option<LeAdvEventKind> {
        if b == 0x00u8 {
            Some(LeAdvEventKind::AdvInd)
        } else if b == 0x01u8 {
            Some(LeAdvEventKind::AdvDirectInd)
        } else if b == 0x02u8 {
            Some(LeAdvEventKind::AdvScanInd)
        } else if b == 0x03u8 {
            Some(LeAdvEventKind::AdvNonconnInd)
        } else if b == 0x04u8 {
            Some(LeAdvEventKind::ScanRsp)
        } else {
            None
        }
    }

    /// The byte that encodes this value.
    pub fn into_raw(self) -> (r: u8)
        ensures
            r == self.spec_raw(),
    {
        match self {
            LeAdvEventKind::AdvInd => 0x00u8,
            LeAdvEventKind::AdvDirectInd => 0x01u8,
            LeAdvEventKind::AdvScanInd => 0x02u8,
            LeAdvEventKind::AdvNonconnInd => 0x03u8,
            LeAdvEventKind::ScanRsp => 0x04u8,
        }
    }

    /// The byte of each value is fixed, each of those bytes decodes to its
    /// value, and no other byte decodes.
    pub proof fn lemma_codes()
        ensures
            LeAdvEventKind::AdvInd.spec_raw() == 0x00u8,
            LeAdvEventKind::AdvDirectInd.spec_raw() == 0x01u8,
            LeAdvEventKind::AdvScanInd.spec_raw() == 0x02u8,
            LeAdvEventKind::AdvNonconnInd.spec_raw() == 0x03u8,
            LeAdvEventKind::ScanRsp.spec_raw() == 0x04u8,
            LeAdvEventKind::spec_from_raw(0x00u8) == Some(LeAdvEventKind::AdvInd),
            LeAdvEventKind::spec_from_raw(0x01u8) == Some(LeAdvEventKind::AdvDirectInd),
            LeAdvEventKind::spec_from_raw(0x02u8) == Some(LeAdvEventKind::AdvScanInd),
            LeAdvEventKind::spec_from_raw(0x03u8) == Some(LeAdvEventKind::AdvNonconnInd),
            LeAdvEventKind::spec_from_raw(0x04u8) == Some(LeAdvEventKind::ScanRsp),
            forall|b: u8| b != 0x00u8 && b != 0x01u8 && b != 0x02u8 && b != 0x03u8 && b != 0x04u8 ==> (#[trigger] LeAdvEventKind::spec_from_raw(b)) is None,
            forall|v: LeAdvEventKind| (#[trigger] v.spec_hci_bytes()) == seq![v.spec_raw()],
            forall|data: Seq<u8>| data.len() >= 1 ==> (#[trigger] <LeAdvEventKind as FromHciBytes>::spec_from_hci_bytes(data)) == match LeAdvEventKind::spec_from_raw(data[0]) {
                Some(v) => Ok::<(LeAdvEventKind, nat), FromHciBytesError>((v, 1)),
                None => Err::<(LeAdvEventKind, nat), FromHciBytesError>(FromHciBytesError::InvalidValue),
            },
    {
    }

    /// The value that a byte encodes, if it encodes one.
    pub fn from_raw(b: u8) -> (r: Option<LeAdvEventKind>)
        ensures
            r == Self::spec_from_raw(b),
    {
        match b {
            0x00u8 => Some(LeAdvEventKind::AdvInd),
            0x01u8 => Some(LeAdvEventKind::AdvDirectInd),
            0x02u8 => Some(LeAdvEventKind::AdvScanInd),
            0x03u8 => Some(LeAdvEventKind::AdvNonconnInd),
            0x04u8 => Some(LeAdvEventKind::ScanRsp),
            _ => None,
        }
    }
}

impl<'de> FromHciBytes<'de> for LeAdvEventKind {
    open spec fn spec_from_hci_bytes(data: Seq<u8>) -> Result<(LeAdvEventKind, nat), FromHciBytesError> {
        if data.len() < 1 {
            Err(FromHciBytesError::InvalidSize)
        } else {
            match LeAdvEventKind::spec_from_raw(data[0]) {
                Some(v) => Ok((v, 1)),
                None => Err(FromHciBytesError::InvalidValue),
            }
        }
    }

    fn from_hci_bytes(data: &'de [u8]) -> (r: Result<(LeAdvEventKind, &'de [u8]), FromHciBytesError>) {
        if data.len() < 1 {
            return Err(FromHciBytesError::InvalidSize);
        }
        match LeAdvEventKind::from_raw(data[0]) {
            Some(v) => {
                let (_, rest) = data.split_at(1);
                Ok((v, rest))
            },
            None => Err(FromHciBytesError::InvalidValue),
        }
    }
}

impl WriteHci for LeAdvEventKind {
    open spec fn spec_hci_bytes(&self) -> Seq<u8> {
        seq![self.spec_raw()]
    }

    fn size(&self) -> (r: usize) {
        1
    }

    fn write_hci(&self, out: &mut Vec<u8>) {
        out.push(self.into_raw());
        proof {
            assert(final(out)@ =~= old(out)@ + self.spec_hci_bytes());
        }
    }
}

impl FixedSizeValue for LeAdvEventKind {
    open spec fn spec_size() -> nat {
        1
    }

    proof fn lemma_fixed_size(&self) {
    }
}

impl<'de> HciCodec<'de> for LeAdvEventKind {
    open spec fn spec_encodable(&self) -> bool {
        true
    }

    proof fn lemma_write_then_read(&self, rest: Seq<u8>) {
        match *self {
            LeAdvEventKind::AdvInd => {},
            LeAdvEventKind::AdvDirectInd => {},
            LeAdvEventKind::AdvScanInd => {},
            LeAdvEventKind::AdvNonconnInd => {},
            LeAdvEventKind::ScanRsp => {},
        }
    }
}

/// LeExtAdvEventKind
#[derive(Debug, Clone, Copy, PartialEq, Eq, PartialOrd, Ord, Hash, Default)]
pub struct LeExtAdvEventKind(pub [u8; 2]);

impl View for LeExtAdvEventKind {
    type V = Seq<u8>;

    closed spec fn view(&self) -> Seq<u8> {
        self.0@
    }
}

impl LeExtAdvEventKind {
    /// Create a new instance with every bit clear.
    pub fn new() -> (r: Self)
        ensures
            r@ == Seq::new(2, |i: int| 0u8),
    {
        let r = LeExtAdvEventKind([0u8; 2]);
        proof {
            assert(r@ =~= Seq::new(2, |i: int| 0u8));
        }
        r
    }

    /// Get the inner representation.
    pub fn into_inner(self) -> (r: [u8; 2])
        ensures
            r@ == self@,
    {
        self.0
    }

    /// The representation has one byte per octet.
    pub proof fn lemma_len(&self)
        ensures
            self@.len() == 2,
    {
    }

    /// Whether bit 0 is set.
    pub fn connectable(&self) -> (r: bool)
        ensures
            r == spec_bit(self@[0], 0u8),
    {
        bit_is_set(self.0[0], 0u8)
    }

    /// Set bit 0 to `val`.
    pub fn set_connectable(self, val: bool) -> (r: Self)
        ensures
            r@ == self@.update(0, spec_with_bit(self@[0], 0u8, val)),
    {
        let mut bytes = self.0;
        bytes[0] = with_bit(bytes[0], 0u8, val);
        let r = LeExtAdvEventKind(bytes);
        proof {
            assert(r@ =~= self@.update(0, spec_with_bit(self@[0], 0u8, val)));
        }
        r
    }

    /// Whether bit 1 is set.
    pub fn scannable(&self) -> (r: bool)
        ensures
            r == spec_bit(self@[0], 1u8),
    {
        bit_is_set(self.0[0], 1u8)
    }

    /// Set bit 1 to `val`.
    pub fn set_scannable(self, val: bool) -> (r: Self)
        ensures
            r@ == self@.update(0, spec_with_bit(self@[0], 1u8, val)),
    {
        let mut bytes = self.0;
        bytes[0] = with_bit(bytes[0], 1u8, val);
        let r = LeExtAdvEventKind(bytes);
        proof {
            assert(r@ =~= self@.update(0, spec_with_bit(self@[0], 1u8, val)));
        }
        r
    }

    /// Whether bit 2 is set.
    pub fn directed(&self) -> (r: bool)
        ensures
            r == spec_bit(self@[0], 2u8),
    {
        bit_is_set(self.0[0], 2u8)
    }

    /// Set bit 2 to `val`.
    pub fn set_directed(self, val: bool) -> (r: Self)
        ensures
            r@ == self@.update(0, spec_with_bit(self@[0], 2u8, val)),
    {
        let mut bytes = self.0;
        bytes[0] = with_bit(bytes[0], 2u8, val);
        let r = LeExtAdvEventKind(bytes);
        proof {
            assert(r@ =~= self@.update(0, spec_with_bit(self@[0], 2u8, val)));
        }
        r
    }

    /// Whether bit 3 is set.
    pub fn scan_response(&self) -> (r: bool)
        ensures
            r == spec_bit(self@[0], 3u8),
    {
        bit_is_set(self.0[0], 3u8)
    }

    /// Set bit 3 to `val`.
    pub fn set_scan_response(self, val: bool) -> (r: Self)
        ensures
            r@ == self@.update(0, spec_with_bit(self@[0], 3u8, val)),
    {
        let mut bytes = self.0;
        bytes[0] = with_bit(bytes[0], 3u8, val);
        let r = LeExtAdvEventKind(bytes);
        proof {
            assert(r@ =~= self@.update(0, spec_with_bit(self@[0], 3u8, val)));
        }
        r
    }

    /// Whether bit 4 is set.
    pub fn legacy(&self) -> (r: bool)
        ensures
            r == spec_bit(self@[0], 4u8),
    {
        bit_is_set(self.0[0], 4u8)
    }

    /// Set bit 4 to `val`.
    pub fn set_legacy(self, val: bool) -> (r: Self)
        ensures
            r@ == self@.update(0, spec_with_bit(self@[0], 4u8, val)),
    {
        let mut bytes = self.0;
        bytes[0] = with_bit(bytes[0], 4u8, val);
        let r = LeExtAdvEventKind(bytes);
        proof {
            assert(r@ =~= self@.update(0, spec_with_bit(self@[0], 4u8, val)));
        }
        r
    }
}

impl<'de> FromHciBytes<'de> for LeExtAdvEventKind {
    open spec fn spec_from_hci_bytes(data: Seq<u8>) -> Result<(Seq<u8>, nat), FromHciBytesError> {
        <[u8; 2] as FromHciBytes<'de>>::spec_from_hci_bytes(data)
    }

    fn from_hci_bytes(data: &'de [u8]) -> (r: Result<(LeExtAdvEventKind, &'de [u8]), FromHciBytesError>) {
        match <[u8; 2] as FromHciBytes<'de>>::from_hci_bytes(data) {
            Ok((v, rest)) => Ok((LeExtAdvEventKind(v), rest)),
            Err(e) => Err(e),
        }
    }
}

impl WriteHci for LeExtAdvEventKind {
    open spec fn spec_hci_bytes(&self) -> Seq<u8> {
        self@
    }

    fn size(&self) -> (r: usize) {
        self.0.size()
    }

    fn write_hci(&self, out: &mut Vec<u8>) {
        self.0.write_hci(out);
    }
}

impl FixedSizeValue for LeExtAdvEventKind {
    open spec fn spec_size() -> nat {
        2
    }

    proof fn lemma_fixed_size(&self) {
        self.0.lemma_fixed_size();
    }
}

impl<'de> HciCodec<'de> for LeExtAdvEventKind {
    open spec fn spec_encodable(&self) -> bool {
        true
    }

    proof fn lemma_write_then_read(&self, rest: Seq<u8>) {
        self.0.lemma_write_then_read(rest);
    }
}

/// Advertising data status.
#[derive(Debug, Clone, Copy, PartialEq, Eq, Structural)]
#[allow(missing_docs)]
pub enum LeExtAdvDataStatus {
    Complete,
    IncompleteMoreExpected,
    IncompleteTruncated,
    Reserved,
}

impl LeExtAdvDataStatus {
    /// The two-bit code of this status.
    pub open spec fn spec_code(self) -> u8 {
        match self {
            LeExtAdvDataStatus::Complete => 0,
            LeExtAdvDataStatus::IncompleteMoreExpected => 1,
            LeExtAdvDataStatus::IncompleteTruncated => 2,
            LeExtAdvDataStatus::Reserved => 3,
        }
    }

    /// The status that a two-bit code stands for.
    pub open spec fn spec_from_code(c: u8) -> LeExtAdvDataStatus {
        if c == 0 {
            LeExtAdvDataStatus::Complete
        } else if c == 1 {
            LeExtAdvDataStatus::IncompleteMoreExpected
        } else if c == 2 {
            LeExtAdvDataStatus::IncompleteTruncated
        } else {
            LeExtAdvDataStatus::Reserved
        }
    }
}

/// The data status field: bits 5 and 6 of the first byte.
pub open spec fn spec_data_status_bits(b: u8) -> u8 {
    (b / 32) % 4
}

/// The first byte with its data status bits replaced by `code`.
pub open spec fn spec_with_data_status_bits(b: u8, code: u8) -> u8 {
    ((b % 32) + code * 32 + (b / 128) * 128) as u8
}

impl LeExtAdvEventKind {
    /// Get data status.
    pub fn data_status(&self) -> (r: LeExtAdvDataStatus)
        ensures
            r == LeExtAdvDataStatus::spec_from_code(spec_data_status_bits(self@[0])),
    {
        let data_status = (self.0[0] / 32) % 4;
        match data_status {
            0 => LeExtAdvDataStatus::Complete,
            1 => LeExtAdvDataStatus::IncompleteMoreExpected,
            2 => LeExtAdvDataStatus::IncompleteTruncated,
            _ => LeExtAdvDataStatus::Reserved,
        }
    }

    /// Set data status.
    pub fn set_data_status(self, status: LeExtAdvDataStatus) -> (r: Self)
        ensures
            r@ == self@.update(0, spec_with_data_status_bits(self@[0], status.spec_code())),
    {
        let value: u8 = match status {
            LeExtAdvDataStatus::Complete => 0,
            LeExtAdvDataStatus::IncompleteMoreExpected => 1,
            LeExtAdvDataStatus::IncompleteTruncated => 2,
            LeExtAdvDataStatus::Reserved => 3,
        };
        let mut bytes = self.0;
        let b = bytes[0];
        bytes[0] = (b % 32) + value * 32 + (b / 128) * 128;
        let r = LeExtAdvEventKind(bytes);
        proof {
            assert(r@ =~= self@.update(0, spec_with_data_status_bits(self@[0], status.spec_code())));
        }
        r
    }
}

/// Setting the data status and reading it back gives the status set; the
/// other five bits of the byte keep their values.
pub proof fn lemma_data_status_roundtrip(b: u8, status: LeExtAdvDataStatus)
    ensures
        LeExtAdvDataStatus::spec_from_code(
            spec_data_status_bits(spec_with_data_status_bits(b, status.spec_code())),
        ) == status,
        spec_with_data_status_bits(b, status.spec_code()) % 32 == b % 32,
        spec_with_data_status_bits(b, status.spec_code()) / 128 == b / 128,
{
}

/// LeAdvReport parameter
#[derive(Debug, Clone, Copy, PartialEq, Eq, PartialOrd, Ord, Hash, Default)]
#[allow(missing_docs)]
pub struct LeAdvReport<'a> {
    pub event_kind: LeAdvEventKind,
    pub addr_kind: AddrKind,
    pub addr: BdAddr,
    pub data: &'a [u8],
    pub rssi: i8,
}

/// The value of a [`LeAdvReport`], with byte slices taken as sequences.
#[allow(missing_docs)]
pub struct LeAdvReportView {
    pub event_kind: LeAdvEventKind,
    pub addr_kind: u8,
    pub addr: Seq<u8>,
    pub data: Seq<u8>,
    pub rssi: i8,
}

impl<'a> View for LeAdvReport<'a> {
    type V = LeAdvReportView;

    open spec fn view(&self) -> LeAdvReportView {
        LeAdvReportView { event_kind: self.event_kind@, addr_kind: self.addr_kind@, addr: self.addr@, data: self.data@, rssi: self.rssi@ }
    }
}

impl<'de> FromHciBytes<'de> for LeAdvReport<'de> {
    open spec fn spec_from_hci_bytes(data: Seq<u8>) -> Result<(LeAdvReportView, nat), FromHciBytesError> {
        match <LeAdvEventKind as FromHciBytes<'de>>::spec_from_hci_bytes(data) {
            Err(e) => Err(e),
            Ok((v_event_kind, n_event_kind)) => {
                match <AddrKind as FromHciBytes<'de>>::spec_from_hci_bytes(data.skip(n_event_kind as int)) {
                    Err(e) => Err(e),
                    Ok((v_addr_kind, n_addr_kind)) => {
                        match <BdAddr as FromHciBytes<'de>>::spec_from_hci_bytes(data.skip(n_event_kind as int).skip(n_addr_kind as int)) {
                            Err(e) => Err(e),
                            Ok((v_addr, n_addr)) => {
                                match <&'de [u8] as FromHciBytes<'de>>::spec_from_hci_bytes(data.skip(n_event_kind as int).skip(n_addr_kind as int).skip(n_addr as int)) {
                                    Err(e) => Err(e),
                                    Ok((v_data, n_data)) => {
                                        match <i8 as FromHciBytes<'de>>::spec_from_hci_bytes(data.skip(n_event_kind as int).skip(n_addr_kind as int).skip(n_addr as int).skip(n_data as int)) {
                                            Err(e) => Err(e),
                                            Ok((v_rssi, n_rssi)) => {
                                                Ok((LeAdvReportView { event_kind: v_event_kind, addr_kind: v_addr_kind, addr: v_addr, data: v_data, rssi: v_rssi }, (n_event_kind + n_addr_kind + n_addr + n_data + n_rssi) as nat))
                                            },
                                        }
                                    },
                                }
                            },
                        }
                    },
                }
            },
        }
    }

    fn from_hci_bytes(data: &'de [u8]) -> (r: Result<(LeAdvReport<'de>, &'de [u8]), FromHciBytesError>) {
        let (v_event_kind, rest_event_kind) = match <LeAdvEventKind as FromHciBytes<'de>>::from_hci_bytes(data) {
            Ok(x) => x,
            Err(e) => return Err(e),
        };
        let (v_addr_kind, rest_addr_kind) = match <AddrKind as FromHciBytes<'de>>::from_hci_bytes(rest_event_kind) {
            Ok(x) => x,
            Err(e) => return Err(e),
        };
        proof {
            lemma_skip_skip(data@, (data@.len() - rest_event_kind@.len()) as int, (rest_event_kind@.len() - rest_addr_kind@.len()) as int);
        }
        let (v_addr, rest_addr) = match <BdAddr as FromHciBytes<'de>>::from_hci_bytes(rest_addr_kind) {
            Ok(x) => x,
            Err(e) => return Err(e),
        };
        proof {
            lemma_skip_skip(data@, (data@.len() - rest_addr_kind@.len()) as int, (rest_addr_kind@.len() - rest_addr@.len()) as int);
        }
        let (v_data, rest_data) = match <&'de [u8] as FromHciBytes<'de>>::from_hci_bytes(rest_addr) {
            Ok(x) => x,
            Err(e) => return Err(e),
        };
        proof {
            lemma_skip_skip(data@, (data@.len() - rest_addr@.len()) as int, (rest_addr@.len() - rest_data@.len()) as int);
        }
        let (v_rssi, rest_rssi) = match <i8 as FromHciBytes<'de>>::from_hci_bytes(rest_data) {
            Ok(x) => x,
            Err(e) => return Err(e),
        };
        proof {
            lemma_skip_skip(data@, (data@.len() - rest_data@.len()) as int, (rest_data@.len() - rest_rssi@.len()) as int);
        }
        Ok((LeAdvReport { event_kind: v_event_kind, addr_kind: v_addr_kind, addr: v_addr, data: v_data, rssi: v_rssi }, rest_rssi))
    }
}

impl<'a> WriteHci for LeAdvReport<'a> {
    open spec fn spec_hci_bytes(&self) -> Seq<u8> {
        self.event_kind.spec_hci_bytes() + self.addr_kind.spec_hci_bytes() + self.addr.spec_hci_bytes() + self.data.spec_hci_bytes() + self.rssi.spec_hci_bytes()
    }

    fn size(&self) -> (r: usize) {
        let mut n = self.event_kind.size();
        proof {
            assert(self.event_kind.spec_hci_bytes() + self.addr_kind.spec_hci_bytes() =~= (self.event_kind.spec_hci_bytes() + self.addr_kind.spec_hci_bytes()));
        }
        n = n + self.addr_kind.size();
        proof {
            assert(self.event_kind.spec_hci_bytes() + self.addr_kind.spec_hci_bytes() + self.addr.spec_hci_bytes() =~= (self.event_kind.spec_hci_bytes() + self.addr_kind.spec_hci_bytes() + self.addr.spec_hci_bytes()));
        }
        n = n + self.addr.size();
        proof {
            assert(self.event_kind.spec_hci_bytes() + self.addr_kind.spec_hci_bytes() + self.addr.spec_hci_bytes() + self.data.spec_hci_bytes() =~= (self.event_kind.spec_hci_bytes() + self.addr_kind.spec_hci_bytes() + self.addr.spec_hci_bytes() + self.data.spec_hci_bytes()));
        }
        n = n + self.data.size();
        proof {
            assert(self.event_kind.spec_hci_bytes() + self.addr_kind.spec_hci_bytes() + self.addr.spec_hci_bytes() + self.data.spec_hci_bytes() + self.rssi.spec_hci_bytes() =~= (self.event_kind.spec_hci_bytes() + self.addr_kind.spec_hci_bytes() + self.addr.spec_hci_bytes() + self.data.spec_hci_bytes() + self.rssi.spec_hci_bytes()));
        }
        n = n + self.rssi.size();
        n
    }

    fn write_hci(&self, out: &mut Vec<u8>) {
        self.event_kind.write_hci(out);
        self.addr_kind.write_hci(out);
        self.addr.write_hci(out);
        self.data.write_hci(out);
        self.rssi.write_hci(out);
        proof {
            assert(out@ =~= old(out)@ + self.spec_hci_bytes());
        }
    }
}

impl<'a> LeAdvReport<'a> {
    /// The bytes of a `LeAdvReport` are the bytes of its fields, one after the
    /// other, in the order in which the fields are declared.
    pub proof fn lemma_fields_in_order(&self)
        ensures
            self.spec_hci_bytes() == self.event_kind.spec_hci_bytes() + self.addr_kind.spec_hci_bytes() + self.addr.spec_hci_bytes() + self.data.spec_hci_bytes() + self.rssi.spec_hci_bytes(),
    {
    }
}

impl<'de> HciCodec<'de> for LeAdvReport<'de> {
    open spec fn spec_encodable(&self) -> bool {
        self.event_kind.spec_encodable() && self.addr_kind.spec_encodable() && self.addr.spec_encodable() && self.data.spec_encodable() && self.rssi.spec_encodable()
    }

    proof fn lemma_write_then_read(&self, rest: Seq<u8>) {
        let t_rssi = self.rssi.spec_hci_bytes() + rest;
        let t_data = self.data.spec_hci_bytes() + t_rssi;
        let t_addr = self.addr.spec_hci_bytes() + t_data;
        let t_addr_kind = self.addr_kind.spec_hci_bytes() + t_addr;
        let t_event_kind = self.event_kind.spec_hci_bytes() + t_addr_kind;
        assert(self.spec_hci_bytes() + rest =~= t_event_kind);
        self.event_kind.lemma_write_then_read(t_addr_kind);
        self.addr_kind.lemma_write_then_read(t_addr);
        self.addr.lemma_write_then_read(t_data);
        self.data.lemma_write_then_read(t_rssi);
        self.rssi.lemma_write_then_read(rest);
        assert(t_event_kind.skip(self.event_kind.spec_hci_bytes().len() as int) =~= t_addr_kind);
        assert(t_addr_kind.skip(self.addr_kind.spec_hci_bytes().len() as int) =~= t_addr);
        assert(t_addr.skip(self.addr.spec_hci_bytes().len() as int) =~= t_data);
        assert(t_data.skip(self.data.spec_hci_bytes().len() as int) =~= t_rssi);
    }
}

/// LeAdvReports parameter
#[derive(Debug, Clone, Copy, PartialEq, Eq, PartialOrd, Ord, Hash, Default)]
#[allow(missing_docs)]
pub struct LeAdvReports<'a> {
    pub num_reports: u8,
    pub bytes: RemainingBytes<'a>,
}

/// The value of a [`LeAdvReports`], with byte slices taken as sequences.
#[allow(missing_docs)]
pub struct LeAdvReportsView {
    pub num_reports: u8,
    pub bytes: Seq<u8>,
}

impl<'a> View for LeAdvReports<'a> {
    type V = LeAdvReportsView;

    open spec fn view(&self) -> LeAdvReportsView {
        LeAdvReportsView { num_reports: self.num_reports@, bytes: self.bytes@ }
    }
}

impl<'de> FromHciBytes<'de> for LeAdvReports<'de> {
    open spec fn spec_from_hci_bytes(data: Seq<u8>) -> Result<(LeAdvReportsView, nat), FromHciBytesError> {
        match <u8 as FromHciBytes<'de>>::spec_from_hci_bytes(data) {
            Err(e) => Err(e),
            Ok((v_num_reports, n_num_reports)) => {
                match <RemainingBytes<'de> as FromHciBytes<'de>>::spec_from_hci_bytes(data.skip(n_num_reports as int)) {
                    Err(e) => Err(e),
                    Ok((v_bytes, n_bytes)) => {
                        Ok((LeAdvReportsView { num_reports: v_num_reports, bytes: v_bytes }, (n_num_reports + n_bytes) as nat))
                    },
                }
            },
        }
    }

    fn from_hci_bytes(data: &'de [u8]) -> (r: Result<(LeAdvReports<'de>, &'de [u8]), FromHciBytesError>) {
        let (v_num_reports, rest_num_reports) = match <u8 as FromHciBytes<'de>>::from_hci_bytes(data) {
            Ok(x) => x,
            Err(e) => return Err(e),
        };
        let (v_bytes, rest_bytes) = match <RemainingBytes<'de> as FromHciBytes<'de>>::from_hci_bytes(rest_num_reports) {
            Ok(x) => x,
            Err(e) => return Err(e),
        };
        proof {
            lemma_skip_skip(data@, (data@.len() - rest_num_reports@.len()) as int, (rest_num_reports@.len() - rest_bytes@.len()) as int);
        }
        Ok((LeAdvReports { num_reports: v_num_reports, bytes: v_bytes }, rest_bytes))
    }
}

impl<'a> WriteHci for LeAdvReports<'a> {
    open spec fn spec_hci_bytes(&self) -> Seq<u8> {
        self.num_reports.spec_hci_bytes() + self.bytes.spec_hci_bytes()
    }

    fn size(&self) -> (r: usize) {
        let mut n = self.num_reports.size();
        proof {
            assert(self.num_reports.spec_hci_bytes() + self.bytes.spec_hci_bytes() =~= (self.num_reports.spec_hci_bytes() + self.bytes.spec_hci_bytes()));
        }
        n = n + self.bytes.size();
        n
    }

    fn write_hci(&self, out: &mut Vec<u8>) {
        self.num_reports.write_hci(out);
        self.bytes.write_hci(out);
        proof {
            assert(out@ =~= old(out)@ + self.spec_hci_bytes());
        }
    }
}

impl<'a> LeAdvReports<'a> {
    /// The bytes of a `LeAdvReports` are the bytes of its fields, one after the
    /// other, in the order in which the fields are declared.
    pub proof fn lemma_fields_in_order(&self)
        ensures
            self.spec_hci_bytes() == self.num_reports.spec_hci_bytes() + self.bytes.spec_hci_bytes(),
    {
    }
}


impl<'a> LeAdvReports<'a> {
    /// Check if there are more reports available.
    pub fn is_empty(&self) -> (r: bool)
        ensures
            r == (self.num_reports == 0),
    {
        self.num_reports == 0
    }

    /// Number of advertising reports.
    pub fn len(&self) -> (r: usize)
        ensures
            r == self.num_reports,
    {
        self.num_reports as usize
    }

    /// Create an iterator over the advertising reports.
    pub fn iter(&self) -> (r: LeAdvReportsIter<'a>)
        ensures
            r.remaining() == self.num_reports,
            r.rest() == self.bytes@,
    {
        LeAdvReportsIter { len: self.num_reports as usize, bytes: self.bytes.as_slice() }
    }
}

/// An iterator for advertising reports.
pub struct LeAdvReportsIter<'a> {
    len: usize,
    bytes: &'a [u8],
}

impl<'a> LeAdvReportsIter<'a> {
    /// The number of reports still to come.
    pub closed spec fn remaining(&self) -> nat {
        self.len as nat
    }

    /// The bytes of the reports still to come.
    pub closed spec fn rest(&self) -> Seq<u8> {
        self.bytes@
    }

    /// The number of reports still to come.
    pub fn len(&self) -> (r: usize)
        ensures
            r == self.remaining(),
    {
        self.len
    }

    /// The next report: decoded from the front of the remaining bytes, or
    /// the decoding error (after which the iterator is exhausted), or `None`
    /// once all reports were taken.
    pub fn next(&mut self) -> (r: Option<Result<LeAdvReport<'a>, FromHciBytesError>>)
        ensures
            old(self).remaining() == 0 ==> r is None && final(self).remaining() == 0,
            old(self).remaining() > 0 ==> match <LeAdvReport<'a> as FromHciBytes<'a>>::spec_from_hci_bytes(old(self).rest()) {
                Ok((v, n)) => (r matches Some(Ok(rep)) && rep@ == v && final(self).rest() == old(self).rest().skip(n as int)
                    && final(self).remaining() == old(self).remaining() - 1),
                Err(e) => r == Some(Err::<LeAdvReport<'a>, FromHciBytesError>(e)) && final(self).remaining() == 0,
            },
    {
        if self.len == 0 {
            None
        } else {
            match LeAdvReport::from_hci_bytes(self.bytes) {
                Ok((report, rest)) => {
                    self.bytes = rest;
                    self.len = self.len - 1;
                    Some(Ok(report))
                },
                Err(err) => {
                    self.len = 0;
                    Some(Err(err))
                },
            }
        }
    }
}

/// The secondary phy of an extended report: zero for none, else a phy.
pub open spec fn spec_parse_secondary_phy(data: Seq<u8>) -> Result<(Option<PhyKind>, nat), FromHciBytesError> {
    if data.len() < 1 {
        Err(FromHciBytesError::InvalidSize)
    } else if data[0] == 0 {
        Ok((None, 1))
    } else {
        match PhyKind::spec_from_raw(data[0]) {
            Some(k) => Ok((Some(k), 1)),
            None => Err(FromHciBytesError::InvalidValue),
        }
    }
}

/// The byte that encodes a secondary phy.
pub open spec fn spec_secondary_phy_bytes(p: Option<PhyKind>) -> Seq<u8> {
    match p {
        None => seq![0u8],
        Some(k) => seq![k.spec_raw()],
    }
}

fn parse_secondary_phy(data: &[u8]) -> (r: Result<(Option<PhyKind>, &[u8]), FromHciBytesError>)
    ensures
        match r {
            Ok((v, rest)) => parsed(spec_parse_secondary_phy(data@), data@, v, rest@),
            Err(e) => failed(spec_parse_secondary_phy(data@), e),
        },
{
    if data.len() < 1 {
        return Err(FromHciBytesError::InvalidSize);
    }
    if data[0] == 0 {
        let (_, rest) = data.split_at(1);
        return Ok((None, rest));
    }
    match PhyKind::from_hci_bytes(data) {
        Ok((k, rest)) => Ok((Some(k), rest)),
        Err(e) => Err(e),
    }
}

fn write_secondary_phy(p: Option<PhyKind>, out: &mut Vec<u8>)
    ensures
        final(out)@ == old(out)@ + spec_secondary_phy_bytes(p),
{
    match p {
        None => out.push(0u8),
        Some(k) => out.push(k.into_raw()),
    }
    proof {
        assert(final(out)@ =~= old(out)@ + spec_secondary_phy_bytes(p));
    }
}

/// A secondary phy reads back from its byte.
pub proof fn lemma_secondary_phy_roundtrip(p: Option<PhyKind>, rest: Seq<u8>)
    ensures
        spec_parse_secondary_phy(spec_secondary_phy_bytes(p) + rest) == Ok::<(Option<PhyKind>, nat), FromHciBytesError>((p, 1)),
{
    match p {
        None => {},
        Some(k) => {
            match k {
                PhyKind::Le1M => {},
                PhyKind::Le2M => {},
                PhyKind::LeCoded => {},
                PhyKind::LeCodedS2 => {},
            }
        },
    }
}

/// LeExtAdvReport parameter
#[derive(Debug, Clone, Copy, PartialEq, Eq, PartialOrd, Ord, Hash, Default)]
#[allow(missing_docs)]
pub struct LeExtAdvReport<'a> {
    pub event_kind: LeExtAdvEventKind,
    pub addr_kind: AddrKind,
    pub addr: BdAddr,
    pub primary_adv_phy: PhyKind,
    pub secondary_adv_phy: Option<PhyKind>,
    pub adv_sid: u8,
    pub tx_power: i8,
    pub rssi: i8,
    pub adv_interval: Duration<1_250>,
    pub direct_addr_kind: AddrKind,
    pub direct_addr: BdAddr,
    pub data: &'a [u8],
}

/// The value of a [`LeExtAdvReport`], with byte slices taken as sequences.
#[allow(missing_docs)]
pub struct LeExtAdvReportView {
    pub event_kind: Seq<u8>,
    pub addr_kind: u8,
    pub addr: Seq<u8>,
    pub primary_adv_phy: PhyKind,
    pub secondary_adv_phy: Option<PhyKind>,
    pub adv_sid: u8,
    pub tx_power: i8,
    pub rssi: i8,
    pub adv_interval: u16,
    pub direct_addr_kind: u8,
    pub direct_addr: Seq<u8>,
    pub data: Seq<u8>,
}

impl<'a> View for LeExtAdvReport<'a> {
    type V = LeExtAdvReportView;

    open spec fn view(&self) -> LeExtAdvReportView {
        LeExtAdvReportView { event_kind: self.event_kind@, addr_kind: self.addr_kind@, addr: self.addr@, primary_adv_phy: self.primary_adv_phy@, secondary_adv_phy: self.secondary_adv_phy@, adv_sid: self.adv_sid@, tx_power: self.tx_power@, rssi: self.rssi@, adv_interval: self.adv_interval@, direct_addr_kind: self.direct_addr_kind@, direct_addr: self.direct_addr@, data: self.data@ }
    }
}

impl<'de> FromHciBytes<'de> for LeExtAdvReport<'de> {
    open spec fn spec_from_hci_bytes(data: Seq<u8>) -> Result<(LeExtAdvReportView, nat), FromHciBytesError> {
        match <LeExtAdvEventKind as FromHciBytes<'de>>::spec_from_hci_bytes(data) {
            Err(e) => Err(e),
            Ok((v_event_kind, n_event_kind)) => {
                match <AddrKind as FromHciBytes<'de>>::spec_from_hci_bytes(data.skip(n_event_kind as int)) {
                    Err(e) => Err(e),
                    Ok((v_addr_kind, n_addr_kind)) => {
                        match <BdAddr as FromHciBytes<'de>>::spec_from_hci_bytes(data.skip(n_event_kind as int).skip(n_addr_kind as int)) {
                            Err(e) => Err(e),
                            Ok((v_addr, n_addr)) => {
                                match <PhyKind as FromHciBytes<'de>>::spec_from_hci_bytes(data.skip(n_event_kind as int).skip(n_addr_kind as int).skip(n_addr as int)) {
                                    Err(e) => Err(e),
                                    Ok((v_primary_adv_phy, n_primary_adv_phy)) => {
                                        match spec_parse_secondary_phy(data.skip(n_event_kind as int).skip(n_addr_kind as int).skip(n_addr as int).skip(n_primary_adv_phy as int)) {
                                            Err(e) => Err(e),
                                            Ok((v_secondary_adv_phy, n_secondary_adv_phy)) => {
                                                match <u8 as FromHciBytes<'de>>::spec_from_hci_bytes(data.skip(n_event_kind as int).skip(n_addr_kind as int).skip(n_addr as int).skip(n_primary_adv_phy as int).skip(n_secondary_adv_phy as int)) {
                                                    Err(e) => Err(e),
                                                    Ok((v_adv_sid, n_adv_sid)) => {
                                                        match <i8 as FromHciBytes<'de>>::spec_from_hci_bytes(data.skip(n_event_kind as int).skip(n_addr_kind as int).skip(n_addr as int).skip(n_primary_adv_phy as int).skip(n_secondary_adv_phy as int).skip(n_adv_sid as int)) {
                                                            Err(e) => Err(e),
                                                            Ok((v_tx_power, n_tx_power)) => {
                                                                match <i8 as FromHciBytes<'de>>::spec_from_hci_bytes(data.skip(n_event_kind as int).skip(n_addr_kind as int).skip(n_addr as int).skip(n_primary_adv_phy as int).skip(n_secondary_adv_phy as int).skip(n_adv_sid as int).skip(n_tx_power as int)) {
                                                                    Err(e) => Err(e),
                                                                    Ok((v_rssi, n_rssi)) => {
                                                                        match <Duration<1_250> as FromHciBytes<'de>>::spec_from_hci_bytes(data.skip(n_event_kind as int).skip(n_addr_kind as int).skip(n_addr as int).skip(n_primary_adv_phy as int).skip(n_secondary_adv_phy as int).skip(n_adv_sid as int).skip(n_tx_power as int).skip(n_rssi as int)) {
                                                                            Err(e) => Err(e),
                                                                            Ok((v_adv_interval, n_adv_interval)) => {
                                                                                match <AddrKind as FromHciBytes<'de>>::spec_from_hci_bytes(data.skip(n_event_kind as int).skip(n_addr_kind as int).skip(n_addr as int).skip(n_primary_adv_phy as int).skip(n_secondary_adv_phy as int).skip(n_adv_sid as int).skip(n_tx_power as int).skip(n_rssi as int).skip(n_adv_interval as int)) {
                                                                                    Err(e) => Err(e),
                                                                                    Ok((v_direct_addr_kind, n_direct_addr_kind)) => {
                                                                                        match <BdAddr as FromHciBytes<'de>>::spec_from_hci_bytes(data.skip(n_event_kind as int).skip(n_addr_kind as int).skip(n_addr as int).skip(n_primary_adv_phy as int).skip(n_secondary_adv_phy as int).skip(n_adv_sid as int).skip(n_tx_power as int).skip(n_rssi as int).skip(n_adv_interval as int).skip(n_direct_addr_kind as int)) {
                                                                                            Err(e) => Err(e),
                                                                                            Ok((v_direct_addr, n_direct_addr)) => {
                                                                                                match <&'de [u8] as FromHciBytes<'de>>::spec_from_hci_bytes(data.skip(n_event_kind as int).skip(n_addr_kind as int).skip(n_addr as int).skip(n_primary_adv_phy as int).skip(n_secondary_adv_phy as int).skip(n_adv_sid as int).skip(n_tx_power as int).skip(n_rssi as int).skip(n_adv_interval as int).skip(n_direct_addr_kind as int).skip(n_direct_addr as int)) {
                                                                                                    Err(e) => Err(e),
                                                                                                    Ok((v_data, n_data)) => {
                                                                                                        Ok((LeExtAdvReportView { event_kind: v_event_kind, addr_kind: v_addr_kind, addr: v_addr, primary_adv_phy: v_primary_adv_phy, secondary_adv_phy: v_secondary_adv_phy, adv_sid: v_adv_sid, tx_power: v_tx_power, rssi: v_rssi, adv_interval: v_adv_interval, direct_addr_kind: v_direct_addr_kind, direct_addr: v_direct_addr, data: v_data }, (n_event_kind + n_addr_kind + n_addr + n_primary_adv_phy + n_secondary_adv_phy + n_adv_sid + n_tx_power + n_rssi + n_adv_interval + n_direct_addr_kind + n_direct_addr + n_data) as nat))
                                                                                                    },
                                                                                                }
                                                                                            },
                                                                                        }
                                                                                    },
                                                                                }
                                                                            },
                                                                        }
                                                                    },
                                                                }
                                                            },
                                                        }
                                                    },
                                                }
                                            },
                                        }
                                    },
                                }
                            },
                        }
                    },
                }
            },
        }
    }

    #[verifier::rlimit(60)]
    fn from_hci_bytes(data: &'de [u8]) -> (r: Result<(LeExtAdvReport<'de>, &'de [u8]), FromHciBytesError>) {
        let (v_event_kind, rest_event_kind) = match <LeExtAdvEventKind as FromHciBytes<'de>>::from_hci_bytes(data) {
            Ok(x) => x,
            Err(e) => return Err(e),
        };
        let (v_addr_kind, rest_addr_kind) = match <AddrKind as FromHciBytes<'de>>::from_hci_bytes(rest_event_kind) {
            Ok(x) => x,
            Err(e) => return Err(e),
        };
        proof {
            lemma_skip_skip(data@, (data@.len() - rest_event_kind@.len()) as int, (rest_event_kind@.len() - rest_addr_kind@.len()) as int);
        }
        let (v_addr, rest_addr) = match <BdAddr as FromHciBytes<'de>>::from_hci_bytes(rest_addr_kind) {
            Ok(x) => x,
            Err(e) => return Err(e),
        };
        proof {
            lemma_skip_skip(data@, (data@.len() - rest_addr_kind@.len()) as int, (rest_addr_kind@.len() - rest_addr@.len()) as int);
        }
        let (v_primary_adv_phy, rest_primary_adv_phy) = match <PhyKind as FromHciBytes<'de>>::from_hci_bytes(rest_addr) {
            Ok(x) => x,
            Err(e) => return Err(e),
        };
        proof {
            lemma_skip_skip(data@, (data@.len() - rest_addr@.len()) as int, (rest_addr@.len() - rest_primary_adv_phy@.len()) as int);
        }
        let (v_secondary_adv_phy, rest_secondary_adv_phy) = match parse_secondary_phy(rest_primary_adv_phy) {
            Ok(x) => x,
            Err(e) => return Err(e),
        };
        proof {
            lemma_skip_skip(data@, (data@.len() - rest_primary_adv_phy@.len()) as int, (rest_primary_adv_phy@.len() - rest_secondary_adv_phy@.len()) as int);
        }
        let (v_adv_sid, rest_adv_sid) = match <u8 as FromHciBytes<'de>>::from_hci_bytes(rest_secondary_adv_phy) {
            Ok(x) => x,
            Err(e) => return Err(e),
        };
        proof {
            lemma_skip_skip(data@, (data@.len() - rest_secondary_adv_phy@.len()) as int, (rest_secondary_adv_phy@.len() - rest_adv_sid@.len()) as int);
        }
        let (v_tx_power, rest_tx_power) = match <i8 as FromHciBytes<'de>>::from_hci_bytes(rest_adv_sid) {
            Ok(x) => x,
            Err(e) => return Err(e),
        };
        proof {
            lemma_skip_skip(data@, (data@.len() - rest_adv_sid@.len()) as int, (rest_adv_sid@.len() - rest_tx_power@.len()) as int);
        }
        let (v_rssi, rest_rssi) = match <i8 as FromHciBytes<'de>>::from_hci_bytes(rest_tx_power) {
            Ok(x) => x,
            Err(e) => return Err(e),
        };
        proof {
            lemma_skip_skip(data@, (data@.len() - rest_tx_power@.len()) as int, (rest_tx_power@.len() - rest_rssi@.len()) as int);
        }
        let (v_adv_interval, rest_adv_interval) = match <Duration<1_250> as FromHciBytes<'de>>::from_hci_bytes(rest_rssi) {
            Ok(x) => x,
            Err(e) => return Err(e),
        };
        proof {
            lemma_skip_skip(data@, (data@.len() - rest_rssi@.len()) as int, (rest_rssi@.len() - rest_adv_interval@.len()) as int);
        }
        let (v_direct_addr_kind, rest_direct_addr_kind) = match <AddrKind as FromHciBytes<'de>>::from_hci_bytes(rest_adv_interval) {
            Ok(x) => x,
            Err(e) => return Err(e),
        };
        proof {
            lemma_skip_skip(data@, (data@.len() - rest_adv_interval@.len()) as int, (rest_adv_interval@.len() - rest_direct_addr_kind@.len()) as int);
        }
        let (v_direct_addr, rest_direct_addr) = match <BdAddr as FromHciBytes<'de>>::from_hci_bytes(rest_direct_addr_kind) {
            Ok(x) => x,
            Err(e) => return Err(e),
        };
        proof {
            lemma_skip_skip(data@, (data@.len() - rest_direct_addr_kind@.len()) as int, (rest_direct_addr_kind@.len() - rest_direct_addr@.len()) as int);
        }
        let (v_data, rest_data) = match <&'de [u8] as FromHciBytes<'de>>::from_hci_bytes(rest_direct_addr) {
            Ok(x) => x,
            Err(e) => return Err(e),
        };
        proof {
            lemma_skip_skip(data@, (data@.len() - rest_direct_addr@.len()) as int, (rest_direct_addr@.len() - rest_data@.len()) as int);
        }
        Ok((LeExtAdvReport { event_kind: v_event_kind, addr_kind: v_addr_kind, addr: v_addr, primary_adv_phy: v_primary_adv_phy, secondary_adv_phy: v_secondary_adv_phy, adv_sid: v_adv_sid, tx_power: v_tx_power, rssi: v_rssi, adv_interval: v_adv_interval, direct_addr_kind: v_direct_addr_kind, direct_addr: v_direct_addr, data: v_data }, rest_data))
    }
}

impl<'a> WriteHci for LeExtAdvReport<'a> {
    open spec fn spec_hci_bytes(&self) -> Seq<u8> {
        self.event_kind.spec_hci_bytes() + self.addr_kind.spec_hci_bytes() + self.addr.spec_hci_bytes() + self.primary_adv_phy.spec_hci_bytes() + spec_secondary_phy_bytes(self.secondary_adv_phy) + self.adv_sid.spec_hci_bytes() + self.tx_power.spec_hci_bytes() + self.rssi.spec_hci_bytes() + self.adv_interval.spec_hci_bytes() + self.direct_addr_kind.spec_hci_bytes() + self.direct_addr.spec_hci_bytes() + self.data.spec_hci_bytes()
    }

    fn size(&self) -> (r: usize) {
        let mut n = self.event_kind.size();
        proof {
            assert(self.event_kind.spec_hci_bytes() + self.addr_kind.spec_hci_bytes() =~= (self.event_kind.spec_hci_bytes() + self.addr_kind.spec_hci_bytes()));
        }
        n = n + self.addr_kind.size();
        proof {
            assert(self.event_kind.spec_hci_bytes() + self.addr_kind.spec_hci_bytes() + self.addr.spec_hci_bytes() =~= (self.event_kind.spec_hci_bytes() + self.addr_kind.spec_hci_bytes() + self.addr.spec_hci_bytes()));
        }
        n = n + self.addr.size();
        proof {
            assert(self.event_kind.spec_hci_bytes() + self.addr_kind.spec_hci_bytes() + self.addr.spec_hci_bytes() + self.primary_adv_phy.spec_hci_bytes() =~= (self.event_kind.spec_hci_bytes() + self.addr_kind.spec_hci_bytes() + self.addr.spec_hci_bytes() + self.primary_adv_phy.spec_hci_bytes()));
        }
        n = n + self.primary_adv_phy.size();
        proof {
            assert(self.event_kind.spec_hci_bytes() + self.addr_kind.spec_hci_bytes() + self.addr.spec_hci_bytes() + self.primary_adv_phy.spec_hci_bytes() + spec_secondary_phy_bytes(self.secondary_adv_phy) =~= (self.event_kind.spec_hci_bytes() + self.addr_kind.spec_hci_bytes() + self.addr.spec_hci_bytes() + self.primary_adv_phy.spec_hci_bytes() + spec_secondary_phy_bytes(self.secondary_adv_phy)));
        }
        n = n + 1;
        proof {
            assert(self.event_kind.spec_hci_bytes() + self.addr_kind.spec_hci_bytes() + self.addr.spec_hci_bytes() + self.primary_adv_phy.spec_hci_bytes() + spec_secondary_phy_bytes(self.secondary_adv_phy) + self.adv_sid.spec_hci_bytes() =~= (self.event_kind.spec_hci_bytes() + self.addr_kind.spec_hci_bytes() + self.addr.spec_hci_bytes() + self.primary_adv_phy.spec_hci_bytes() + spec_secondary_phy_bytes(self.secondary_adv_phy) + self.adv_sid.spec_hci_bytes()));
        }
        n = n + self.adv_sid.size();
        proof {
            assert(self.event_kind.spec_hci_bytes() + self.addr_kind.spec_hci_bytes() + self.addr.spec_hci_bytes() + self.primary_adv_phy.spec_hci_bytes() + spec_secondary_phy_bytes(self.secondary_adv_phy) + self.adv_sid.spec_hci_bytes() + self.tx_power.spec_hci_bytes() =~= (self.event_kind.spec_hci_bytes() + self.addr_kind.spec_hci_bytes() + self.addr.spec_hci_bytes() + self.primary_adv_phy.spec_hci_bytes() + spec_secondary_phy_bytes(self.secondary_adv_phy) + self.adv_sid.spec_hci_bytes() + self.tx_power.spec_hci_bytes()));
        }
        n = n + self.tx_power.size();
        proof {
            assert(self.event_kind.spec_hci_bytes() + self.addr_kind.spec_hci_bytes() + self.addr.spec_hci_bytes() + self.primary_adv_phy.spec_hci_bytes() + spec_secondary_phy_bytes(self.secondary_adv_phy) + self.adv_sid.spec_hci_bytes() + self.tx_power.spec_hci_bytes() + self.rssi.spec_hci_bytes() =~= (self.event_kind.spec_hci_bytes() + self.addr_kind.spec_hci_bytes() + self.addr.spec_hci_bytes() + self.primary_adv_phy.spec_hci_bytes() + spec_secondary_phy_bytes(self.secondary_adv_phy) + self.adv_sid.spec_hci_bytes() + self.tx_power.spec_hci_bytes() + self.rssi.spec_hci_bytes()));
        }
        n = n + self.rssi.size();
        proof {
            assert(self.event_kind.spec_hci_bytes() + self.addr_kind.spec_hci_bytes() + self.addr.spec_hci_bytes() + self.primary_adv_phy.spec_hci_bytes() + spec_secondary_phy_bytes(self.secondary_adv_phy) + self.adv_sid.spec_hci_bytes() + self.tx_power.spec_hci_bytes() + self.rssi.spec_hci_bytes() + self.adv_interval.spec_hci_bytes() =~= (self.event_kind.spec_hci_bytes() + self.addr_kind.spec_hci_bytes() + self.addr.spec_hci_bytes() + self.primary_adv_phy.spec_hci_bytes() + spec_secondary_phy_bytes(self.secondary_adv_phy) + self.adv_sid.spec_hci_bytes() + self.tx_power.spec_hci_bytes() + self.rssi.spec_hci_bytes() + self.adv_interval.spec_hci_bytes()));
        }
        n = n + self.adv_interval.size();
        proof {
            assert(self.event_kind.spec_hci_bytes() + self.addr_kind.spec_hci_bytes() + self.addr.spec_hci_bytes() + self.primary_adv_phy.spec_hci_bytes() + spec_secondary_phy_bytes(self.secondary_adv_phy) + self.adv_sid.spec_hci_bytes() + self.tx_power.spec_hci_bytes() + self.rssi.spec_hci_bytes() + self.adv_interval.spec_hci_bytes() + self.direct_addr_kind.spec_hci_bytes() =~= (self.event_kind.spec_hci_bytes() + self.addr_kind.spec_hci_bytes() + self.addr.spec_hci_bytes() + self.primary_adv_phy.spec_hci_bytes() + spec_secondary_phy_bytes(self.secondary_adv_phy) + self.adv_sid.spec_hci_bytes() + self.tx_power.spec_hci_bytes() + self.rssi.spec_hci_bytes() + self.adv_interval.spec_hci_bytes() + self.direct_addr_kind.spec_hci_bytes()));
        }
        n = n + self.direct_addr_kind.size();
        proof {
            assert(self.event_kind.spec_hci_bytes() + self.addr_kind.spec_hci_bytes() + self.addr.spec_hci_bytes() + self.primary_adv_phy.spec_hci_bytes() + spec_secondary_phy_bytes(self.secondary_adv_phy) + self.adv_sid.spec_hci_bytes() + self.tx_power.spec_hci_bytes() + self.rssi.spec_hci_bytes() + self.adv_interval.spec_hci_bytes() + self.direct_addr_kind.spec_hci_bytes() + self.direct_addr.spec_hci_bytes() =~= (self.event_kind.spec_hci_bytes() + self.addr_kind.spec_hci_bytes() + self.addr.spec_hci_bytes() + self.primary_adv_phy.spec_hci_bytes() + spec_secondary_phy_bytes(self.secondary_adv_phy) + self.adv_sid.spec_hci_bytes() + self.tx_power.spec_hci_bytes() + self.rssi.spec_hci_bytes() + self.adv_interval.spec_hci_bytes() + self.direct_addr_kind.spec_hci_bytes() + self.direct_addr.spec_hci_bytes()));
        }
        n = n + self.direct_addr.size();
        proof {
            assert(self.event_kind.spec_hci_bytes() + self.addr_kind.spec_hci_bytes() + self.addr.spec_hci_bytes() + self.primary_adv_phy.spec_hci_bytes() + spec_secondary_phy_bytes(self.secondary_adv_phy) + self.adv_sid.spec_hci_bytes() + self.tx_power.spec_hci_bytes() + self.rssi.spec_hci_bytes() + self.adv_interval.spec_hci_bytes() + self.direct_addr_kind.spec_hci_bytes() + self.direct_addr.spec_hci_bytes() + self.data.spec_hci_bytes() =~= (self.event_kind.spec_hci_bytes() + self.addr_kind.spec_hci_bytes() + self.addr.spec_hci_bytes() + self.primary_adv_phy.spec_hci_bytes() + spec_secondary_phy_bytes(self.secondary_adv_phy) + self.adv_sid.spec_hci_bytes() + self.tx_power.spec_hci_bytes() + self.rssi.spec_hci_bytes() + self.adv_interval.spec_hci_bytes() + self.direct_addr_kind.spec_hci_bytes() + self.direct_addr.spec_hci_bytes() + self.data.spec_hci_bytes()));
        }
        n = n + self.data.size();
        n
    }

    fn write_hci(&self, out: &mut Vec<u8>) {
        self.event_kind.write_hci(out);
        self.addr_kind.write_hci(out);
        self.addr.write_hci(out);
        self.primary_adv_phy.write_hci(out);
        write_secondary_phy(self.secondary_adv_phy, out);
        self.adv_sid.write_hci(out);
        self.tx_power.write_hci(out);
        self.rssi.write_hci(out);
        self.adv_interval.write_hci(out);
        self.direct_addr_kind.write_hci(out);
        self.direct_addr.write_hci(out);
        self.data.write_hci(out);
        proof {
            assert(out@ =~= old(out)@ + self.spec_hci_bytes());
        }
    }
}

impl<'a> LeExtAdvReport<'a> {
    /// The bytes of a `LeExtAdvReport` are the bytes of its fields, one after the
    /// other, in the order in which the fields are declared.
    #[verifier::rlimit(60)]
    pub proof fn lemma_fields_in_order(&self)
        ensures
            self.spec_hci_bytes() == self.event_kind.spec_hci_bytes() + self.addr_kind.spec_hci_bytes() + self.addr.spec_hci_bytes() + self.primary_adv_phy.spec_hci_bytes() + spec_secondary_phy_bytes(self.secondary_adv_phy) + self.adv_sid.spec_hci_bytes() + self.tx_power.spec_hci_bytes() + self.rssi.spec_hci_bytes() + self.adv_interval.spec_hci_bytes() + self.direct_addr_kind.spec_hci_bytes() + self.direct_addr.spec_hci_bytes() + self.data.spec_hci_bytes(),
    {
    }
}

impl<'de> HciCodec<'de> for LeExtAdvReport<'de> {
    open spec fn spec_encodable(&self) -> bool {
        self.event_kind.spec_encodable() && self.addr_kind.spec_encodable() && self.addr.spec_encodable() && self.primary_adv_phy.spec_encodable() && true && self.adv_sid.spec_encodable() && self.tx_power.spec_encodable() && self.rssi.spec_encodable() && self.adv_interval.spec_encodable() && self.direct_addr_kind.spec_encodable() && self.direct_addr.spec_encodable() && self.data.spec_encodable()
    }

    #[verifier::rlimit(60)]
    proof fn lemma_write_then_read(&self, rest: Seq<u8>) {
        let t_data = self.data.spec_hci_bytes() + rest;
        let t_direct_addr = self.direct_addr.spec_hci_bytes() + t_data;
        let t_direct_addr_kind = self.direct_addr_kind.spec_hci_bytes() + t_direct_addr;
        let t_adv_interval = self.adv_interval.spec_hci_bytes() + t_direct_addr_kind;
        let t_rssi = self.rssi.spec_hci_bytes() + t_adv_interval;
        let t_tx_power = self.tx_power.spec_hci_bytes() + t_rssi;
        let t_adv_sid = self.adv_sid.spec_hci_bytes() + t_tx_power;
        let t_secondary_adv_phy = spec_secondary_phy_bytes(self.secondary_adv_phy) + t_adv_sid;
        let t_primary_adv_phy = self.primary_adv_phy.spec_hci_bytes() + t_secondary_adv_phy;
        let t_addr = self.addr.spec_hci_bytes() + t_primary_adv_phy;
        let t_addr_kind = self.addr_kind.spec_hci_bytes() + t_addr;
        let t_event_kind = self.event_kind.spec_hci_bytes() + t_addr_kind;
        assert(self.spec_hci_bytes() + rest =~= t_event_kind);
        self.event_kind.lemma_write_then_read(t_addr_kind);
        self.addr_kind.lemma_write_then_read(t_addr);
        self.addr.lemma_write_then_read(t_primary_adv_phy);
        self.primary_adv_phy.lemma_write_then_read(t_secondary_adv_phy);
        lemma_secondary_phy_roundtrip(self.secondary_adv_phy, t_adv_sid);
        self.adv_sid.lemma_write_then_read(t_tx_power);
        self.tx_power.lemma_write_then_read(t_rssi);
        self.rssi.lemma_write_then_read(t_adv_interval);
        self.adv_interval.lemma_write_then_read(t_direct_addr_kind);
        self.direct_addr_kind.lemma_write_then_read(t_direct_addr);
        self.direct_addr.lemma_write_then_read(t_data);
        self.data.lemma_write_then_read(rest);
        assert(t_event_kind.skip(self.event_kind.spec_hci_bytes().len() as int) =~= t_addr_kind);
        assert(t_addr_kind.skip(self.addr_kind.spec_hci_bytes().len() as int) =~= t_addr);
        assert(t_addr.skip(self.addr.spec_hci_bytes().len() as int) =~= t_primary_adv_phy);
        assert(t_primary_adv_phy.skip(self.primary_adv_phy.spec_hci_bytes().len() as int) =~= t_secondary_adv_phy);
        assert(t_secondary_adv_phy.skip(spec_secondary_phy_bytes(self.secondary_adv_phy).len() as int) =~= t_adv_sid);
        assert(t_adv_sid.skip(self.adv_sid.spec_hci_bytes().len() as int) =~= t_tx_power);
        assert(t_tx_power.skip(self.tx_power.spec_hci_bytes().len() as int) =~= t_rssi);
        assert(t_rssi.skip(self.rssi.spec_hci_bytes().len() as int) =~= t_adv_interval);
        assert(t_adv_interval.skip(self.adv_interval.spec_hci_bytes().len() as int) =~= t_direct_addr_kind);
        assert(t_direct_addr_kind.skip(self.direct_addr_kind.spec_hci_bytes().len() as int) =~= t_direct_addr);
        assert(t_direct_addr.skip(self.direct_addr.spec_hci_bytes().len() as int) =~= t_data);
    }
}

/// LeExtAdvReports parameter
#[derive(Debug, Clone, Copy, PartialEq, Eq, PartialOrd, Ord, Hash, Default)]
#[allow(missing_docs)]
pub struct LeExtAdvReports<'a> {
    pub num_reports: u8,
    pub bytes: RemainingBytes<'a>,
}

/// The value of a [`LeExtAdvReports`], with byte slices taken as sequences.
#[allow(missing_docs)]
pub struct LeExtAdvReportsView {
    pub num_reports: u8,
    pub bytes: Seq<u8>,
}

impl<'a> View for LeExtAdvReports<'a> {
    type V = LeExtAdvReportsView;

    open spec fn view(&self) -> LeExtAdvReportsView {
        LeExtAdvReportsView { num_reports: self.num_reports@, bytes: self.bytes@ }
    }
}

impl<'de> FromHciBytes<'de> for LeExtAdvReports<'de> {
    open spec fn spec_from_hci_bytes(data: Seq<u8>) -> Result<(LeExtAdvReportsView, nat), FromHciBytesError> {
        match <u8 as FromHciBytes<'de>>::spec_from_hci_bytes(data) {
            Err(e) => Err(e),
            Ok((v_num_reports, n_num_reports)) => {
                match <RemainingBytes<'de> as FromHciBytes<'de>>::spec_from_hci_bytes(data.skip(n_num_reports as int)) {
                    Err(e) => Err(e),
                    Ok((v_bytes, n_bytes)) => {
                        Ok((LeExtAdvReportsView { num_reports: v_num_reports, bytes: v_bytes }, (n_num_reports + n_bytes) as nat))
                    },
                }
            },
        }
    }

    fn from_hci_bytes(data: &'de [u8]) -> (r: Result<(LeExtAdvReports<'de>, &'de [u8]), FromHciBytesError>) {
        let (v_num_reports, rest_num_reports) = match <u8 as FromHciBytes<'de>>::from_hci_bytes(data) {
            Ok(x) => x,
            Err(e) => return Err(e),
        };
        let (v_bytes, rest_bytes) = match <RemainingBytes<'de> as FromHciBytes<'de>>::from_hci_bytes(rest_num_reports) {
            Ok(x) => x,
            Err(e) => return Err(e),
        };
        proof {
            lemma_skip_skip(data@, (data@.len() - rest_num_reports@.len()) as int, (rest_num_reports@.len() - rest_bytes@.len()) as int);
        }
        Ok((LeExtAdvReports { num_reports: v_num_reports, bytes: v_bytes }, rest_bytes))
    }
}

impl<'a> WriteHci for LeExtAdvReports<'a> {
    open spec fn spec_hci_bytes(&self) -> Seq<u8> {
        self.num_reports.spec_hci_bytes() + self.bytes.spec_hci_bytes()
    }

    fn size(&self) -> (r: usize) {
        let mut n = self.num_reports.size();
        proof {
            assert(self.num_reports.spec_hci_bytes() + self.bytes.spec_hci_bytes() =~= (self.num_reports.spec_hci_bytes() + self.bytes.spec_hci_bytes()));
        }
        n = n + self.bytes.size();
        n
    }

    fn write_hci(&self, out: &mut Vec<u8>) {
        self.num_reports.write_hci(out);
        self.bytes.write_hci(out);
        proof {
            assert(out@ =~= old(out)@ + self.spec_hci_bytes());
        }
    }
}

impl<'a> LeExtAdvReports<'a> {
    /// The bytes of a `LeExtAdvReports` are the bytes of its fields, one after the
    /// other, in the order in which the fields are declared.
    pub proof fn lemma_fields_in_order(&self)
        ensures
            self.spec_hci_bytes() == self.num_reports.spec_hci_bytes() + self.bytes.spec_hci_bytes(),
    {
    }
}


impl<'a> LeExtAdvReports<'a> {
    /// Check if there are more reports available.
    pub fn is_empty(&self) -> (r: bool)
        ensures
            r == (self.num_reports == 0),
    {
        self.num_reports == 0
    }

    /// Number of advertising reports.
    pub fn len(&self) -> (r: usize)
        ensures
            r == self.num_reports,
    {
        self.num_reports as usize
    }

    /// Create an iterator over the advertising reports.
    pub fn iter(&self) -> (r: LeExtAdvReportsIter<'a>)
        ensures
            r.remaining() == self.num_reports,
            r.rest() == self.bytes@,
    {
        LeExtAdvReportsIter { len: self.num_reports as usize, bytes: self.bytes.as_slice() }
    }
}

/// An iterator for extended advertising reports.
pub struct LeExtAdvReportsIter<'a> {
    len: usize,
    bytes: &'a [u8],
}

impl<'a> LeExtAdvReportsIter<'a> {
    /// The number of reports still to come.
    pub closed spec fn remaining(&self) -> nat {
        self.len as nat
    }

    /// The bytes of the reports still to come.
    pub closed spec fn rest(&self) -> Seq<u8> {
        self.bytes@
    }

    /// The number of reports still to come.
    pub fn len(&self) -> (r: usize)
        ensures
            r == self.remaining(),
    {
        self.len
    }

    /// The next report: decoded from the front of the remaining bytes, or
    /// the decoding error (after which the iterator is exhausted), or `None`
    /// once all reports were taken.
    pub fn next(&mut self) -> (r: Option<Result<LeExtAdvReport<'a>, FromHciBytesError>>)
        ensures
            old(self).remaining() == 0 ==> r is None && final(self).remaining() == 0,
            old(self).remaining() > 0 ==> match <LeExtAdvReport<'a> as FromHciBytes<'a>>::spec_from_hci_bytes(old(self).rest()) {
                Ok((v, n)) => (r matches Some(Ok(rep)) && rep@ == v && final(self).rest() == old(self).rest().skip(n as int)
                    && final(self).remaining() == old(self).remaining() - 1),
                Err(e) => r == Some(Err::<LeExtAdvReport<'a>, FromHciBytesError>(e)) && final(self).remaining() == 0,
            },
    {
        if self.len == 0 {
            None
        } else {
            match LeExtAdvReport::from_hci_bytes(self.bytes) {
                Ok((report, rest)) => {
                    self.bytes = rest;
                    self.len = self.len - 1;
                    Some(Ok(report))
                },
                Err(err) => {
                    self.len = 0;
                    Some(Err(err))
                },
            }
        }
    }
}

/// LePeriodicAdvSubeventData parameter
#[derive(Debug, Clone, Copy, PartialEq, Eq, PartialOrd, Ord, Hash, Default)]
#[allow(missing_docs)]
pub struct LePeriodicAdvSubeventData<'a> {
    pub subevent: u8,
    pub response_slot_start: u8,
    pub response_slot_count: u8,
    pub subevent_data: &'a [u8],
}

/// The value of a [`LePeriodicAdvSubeventData`], with byte slices taken as sequences.
#[allow(missing_docs)]
pub struct LePeriodicAdvSubeventDataView {
    pub subevent: u8,
    pub response_slot_start: u8,
    pub response_slot_count: u8,
    pub subevent_data: Seq<u8>,
}

impl<'a> View for LePeriodicAdvSubeventData<'a> {
    type V = LePeriodicAdvSubeventDataView;

    open spec fn view(&self) -> LePeriodicAdvSubeventDataView {
        LePeriodicAdvSubeventDataView { subevent: self.subevent@, response_slot_start: self.response_slot_start@, response_slot_count: self.response_slot_count@, subevent_data: self.subevent_data@ }
    }
}

impl<'de> FromHciBytes<'de> for LePeriodicAdvSubeventData<'de> {
    open spec fn spec_from_hci_bytes(data: Seq<u8>) -> Result<(LePeriodicAdvSubeventDataView, nat), FromHciBytesError> {
        match <u8 as FromHciBytes<'de>>::spec_from_hci_bytes(data) {
            Err(e) => Err(e),
            Ok((v_subevent, n_subevent)) => {
                match <u8 as FromHciBytes<'de>>::spec_from_hci_bytes(data.skip(n_subevent as int)) {
                    Err(e) => Err(e),
                    Ok((v_response_slot_start, n_response_slot_start)) => {
                        match <u8 as FromHciBytes<'de>>::spec_from_hci_bytes(data.skip(n_subevent as int).skip(n_response_slot_start as int)) {
                            Err(e) => Err(e),
                            Ok((v_response_slot_count, n_response_slot_count)) => {
                                match <&'de [u8] as FromHciBytes<'de>>::spec_from_hci_bytes(data.skip(n_subevent as int).skip(n_response_slot_start as int).skip(n_response_slot_count as int)) {
                                    Err(e) => Err(e),
                                    Ok((v_subevent_data, n_subevent_data)) => {
                                        Ok((LePeriodicAdvSubeventDataView { subevent: v_subevent, response_slot_start: v_response_slot_start, response_slot_count: v_response_slot_count, subevent_data: v_subevent_data }, (n_subevent + n_response_slot_start + n_response_slot_count + n_subevent_data) as nat))
                                    },
                                }
                            },
                        }
                    },
                }
            },
        }
    }

    fn from_hci_bytes(data: &'de [u8]) -> (r: Result<(LePeriodicAdvSubeventData<'de>, &'de [u8]), FromHciBytesError>) {
        let (v_subevent, rest_subevent) = match <u8 as FromHciBytes<'de>>::from_hci_bytes(data) {
            Ok(x) => x,
            Err(e) => return Err(e),
        };
        let (v_response_slot_start, rest_response_slot_start) = match <u8 as FromHciBytes<'de>>::from_hci_bytes(rest_subevent) {
            Ok(x) => x,
            Err(e) => return Err(e),
        };
        proof {
            lemma_skip_skip(data@, (data@.len() - rest_subevent@.len()) as int, (rest_subevent@.len() - rest_response_slot_start@.len()) as int);
        }
        let (v_response_slot_count, rest_response_slot_count) = match <u8 as FromHciBytes<'de>>::from_hci_bytes(rest_response_slot_start) {
            Ok(x) => x,
            Err(e) => return Err(e),
        };
        proof {
            lemma_skip_skip(data@, (data@.len() - rest_response_slot_start@.len()) as int, (rest_response_slot_start@.len() - rest_response_slot_count@.len()) as int);
        }
        let (v_subevent_data, rest_subevent_data) = match <&'de [u8] as FromHciBytes<'de>>::from_hci_bytes(rest_response_slot_count) {
            Ok(x) => x,
            Err(e) => return Err(e),
        };
        proof {
            lemma_skip_skip(data@, (data@.len() - rest_response_slot_count@.len()) as int, (rest_response_slot_count@.len() - rest_subevent_data@.len()) as int);
        }
        Ok((LePeriodicAdvSubeventData { subevent: v_subevent, response_slot_start: v_response_slot_start, response_slot_count: v_response_slot_count, subevent_data: v_subevent_data }, rest_subevent_data))
    }
}

impl<'a> WriteHci for LePeriodicAdvSubeventData<'a> {
    open spec fn spec_hci_bytes(&self) -> Seq<u8> {
        self.subevent.spec_hci_bytes() + self.response_slot_start.spec_hci_bytes() + self.response_slot_count.spec_hci_bytes() + self.subevent_data.spec_hci_bytes()
    }

    fn size(&self) -> (r: usize) {
        let mut n = self.subevent.size();
        proof {
            assert(self.subevent.spec_hci_bytes() + self.response_slot_start.spec_hci_bytes() =~= (self.subevent.spec_hci_bytes() + self.response_slot_start.spec_hci_bytes()));
        }
        n = n + self.response_slot_start.size();
        proof {
            assert(self.subevent.spec_hci_bytes() + self.response_slot_start.spec_hci_bytes() + self.response_slot_count.spec_hci_bytes() =~= (self.subevent.spec_hci_bytes() + self.response_slot_start.spec_hci_bytes() + self.response_slot_count.spec_hci_bytes()));
        }
        n = n + self.response_slot_count.size();
        proof {
            assert(self.subevent.spec_hci_bytes() + self.response_slot_start.spec_hci_bytes() + self.response_slot_count.spec_hci_bytes() + self.subevent_data.spec_hci_bytes() =~= (self.subevent.spec_hci_bytes() + self.response_slot_start.spec_hci_bytes() + self.response_slot_count.spec_hci_bytes() + self.subevent_data.spec_hci_bytes()));
        }
        n = n + self.subevent_data.size();
        n
    }

    fn write_hci(&self, out: &mut Vec<u8>) {
        self.subevent.write_hci(out);
        self.response_slot_start.write_hci(out);
        self.response_slot_count.write_hci(out);
        self.subevent_data.write_hci(out);
        proof {
            assert(out@ =~= old(out)@ + self.spec_hci_bytes());
        }
    }
}

impl<'a> LePeriodicAdvSubeventData<'a> {
    /// The bytes of a `LePeriodicAdvSubeventData` are the bytes of its fields, one after the
    /// other, in the order in which the fields are declared.
    pub proof fn lemma_fields_in_order(&self)
        ensures
            self.spec_hci_bytes() == self.subevent.spec_hci_bytes() + self.response_slot_start.spec_hci_bytes() + self.response_slot_count.spec_hci_bytes() + self.subevent_data.spec_hci_bytes(),
    {
    }
}

impl<'de> HciCodec<'de> for LePeriodicAdvSubeventData<'de> {
    open spec fn spec_encodable(&self) -> bool {
        self.subevent.spec_encodable() && self.response_slot_start.spec_encodable() && self.response_slot_count.spec_encodable() && self.subevent_data.spec_encodable()
    }

    proof fn lemma_write_then_read(&self, rest: Seq<u8>) {
        let t_subevent_data = self.subevent_data.spec_hci_bytes() + rest;
        let t_response_slot_count = self.response_slot_count.spec_hci_bytes() + t_subevent_data;
        let t_response_slot_start = self.response_slot_start.spec_hci_bytes() + t_response_slot_count;
        let t_subevent = self.subevent.spec_hci_bytes() + t_response_slot_start;
        assert(self.spec_hci_bytes() + rest =~= t_subevent);
        self.subevent.lemma_write_then_read(t_response_slot_start);
        self.response_slot_start.lemma_write_then_read(t_response_slot_count);
        self.response_slot_count.lemma_write_then_read(t_subevent_data);
        self.subevent_data.lemma_write_then_read(rest);
        assert(t_subevent.skip(self.subevent.spec_hci_bytes().len() as int) =~= t_response_slot_start);
        assert(t_response_slot_start.skip(self.response_slot_start.spec_hci_bytes().len() as int) =~= t_response_slot_count);
        assert(t_response_slot_count.skip(self.response_slot_count.spec_hci_bytes().len() as int) =~= t_subevent_data);
    }
}

/// The bytes of a list of [`LePeriodicAdvSubeventData`] entries, one after the other.
pub open spec fn spec_le_periodic_adv_subevent_data_list_bytes<'b>(s: Seq<LePeriodicAdvSubeventData<'b>>) -> Seq<u8>
    decreases s.len(),
{
    if s.len() == 0 {
        Seq::empty()
    } else {
        spec_le_periodic_adv_subevent_data_list_bytes(s.drop_last()) + s.last().spec_hci_bytes()
    }
}

/// The bytes of the first entries are no longer than the bytes of all of them.
pub proof fn lemma_le_periodic_adv_subevent_data_list_prefix<'b>(s: Seq<LePeriodicAdvSubeventData<'b>>, i: int)
    requires
        0 <= i <= s.len(),
    ensures
        spec_le_periodic_adv_subevent_data_list_bytes(s.take(i)).len() <= spec_le_periodic_adv_subevent_data_list_bytes(s).len(),
    decreases s.len(),
{
    if i < s.len() {
        assert(s.drop_last().take(i) =~= s.take(i));
        lemma_le_periodic_adv_subevent_data_list_prefix(s.drop_last(), i);
    } else {
        assert(s.take(i) =~= s);
    }
}

/// Taking one more entry appends its bytes.
pub proof fn lemma_le_periodic_adv_subevent_data_list_step<'b>(s: Seq<LePeriodicAdvSubeventData<'b>>, i: int)
    requires
        0 <= i < s.len(),
    ensures
        spec_le_periodic_adv_subevent_data_list_bytes(s.take(i + 1)) == spec_le_periodic_adv_subevent_data_list_bytes(s.take(i)) + s[i].spec_hci_bytes(),
{
    assert(s.take(i + 1).drop_last() =~= s.take(i));
}

impl<'a, 'b> WriteHci for &'a [LePeriodicAdvSubeventData<'b>] {
    open spec fn spec_hci_bytes(&self) -> Seq<u8> {
        seq![(self@.len() % 256) as u8] + spec_le_periodic_adv_subevent_data_list_bytes(self@)
    }

    fn size(&self) -> (r: usize) {
        let mut n: usize = 1;
        let mut i: usize = 0;
        while i < self.len()
            invariant
                i <= self@.len(),
                1 + spec_le_periodic_adv_subevent_data_list_bytes(self@).len() <= usize::MAX,
                n == 1 + spec_le_periodic_adv_subevent_data_list_bytes(self@.take(i as int)).len(),
            decreases self@.len() - i,
        {
            proof {
                lemma_le_periodic_adv_subevent_data_list_step(self@, i as int);
                lemma_le_periodic_adv_subevent_data_list_prefix(self@, i + 1);
            }
            n = n + self[i].size();
            i = i + 1;
        }
        proof {
            assert(self@.take(self@.len() as int) =~= self@);
        }
        n
    }

    fn write_hci(&self, out: &mut Vec<u8>) {
        out.push((self.len() % 256) as u8);
        let ghost start = out@;
        let mut i: usize = 0;
        while i < self.len()
            invariant
                i <= self@.len(),
                out@ == start + spec_le_periodic_adv_subevent_data_list_bytes(self@.take(i as int)),
            decreases self@.len() - i,
        {
            proof {
                lemma_le_periodic_adv_subevent_data_list_step(self@, i as int);
            }
            self[i].write_hci(out);
            i = i + 1;
            proof {
                assert(out@ =~= start + spec_le_periodic_adv_subevent_data_list_bytes(self@.take(i as int)));
            }
        }
        proof {
            assert(self@.take(self@.len() as int) =~= self@);
            assert(out@ =~= old(out)@ + self.spec_hci_bytes());
        }
    }
}

/// LePeriodicAdvertisingResponseReport parameter
#[derive(Debug, Clone, Copy, PartialEq, Eq, PartialOrd, Ord, Hash, Default)]
#[allow(missing_docs)]
pub struct LePeriodicAdvertisingResponseReport<'a> {
    pub tx_power: i8,
    pub rssi: i8,
    pub cte_type: CteKind,
    pub response_slot: u8,
    pub data_status: DataStatus,
    pub data_length: u8,
    pub data: &'a [u8],
}

/// The value of a [`LePeriodicAdvertisingResponseReport`], with byte slices taken as sequences.
#[allow(missing_docs)]
pub struct LePeriodicAdvertisingResponseReportView {
    pub tx_power: i8,
    pub rssi: i8,
    pub cte_type: CteKind,
    pub response_slot: u8,
    pub data_status: DataStatus,
    pub data_length: u8,
    pub data: Seq<u8>,
}

impl<'a> View for LePeriodicAdvertisingResponseReport<'a> {
    type V = LePeriodicAdvertisingResponseReportView;

    open spec fn view(&self) -> LePeriodicAdvertisingResponseReportView {
        LePeriodicAdvertisingResponseReportView { tx_power: self.tx_power@, rssi: self.rssi@, cte_type: self.cte_type@, response_slot: self.response_slot@, data_status: self.data_status@, data_length: self.data_length@, data: self.data@ }
    }
}

impl<'de> FromHciBytes<'de> for LePeriodicAdvertisingResponseReport<'de> {
    open spec fn spec_from_hci_bytes(data: Seq<u8>) -> Result<(LePeriodicAdvertisingResponseReportView, nat), FromHciBytesError> {
        match <i8 as FromHciBytes<'de>>::spec_from_hci_bytes(data) {
            Err(e) => Err(e),
            Ok((v_tx_power, n_tx_power)) => {
                match <i8 as FromHciBytes<'de>>::spec_from_hci_bytes(data.skip(n_tx_power as int)) {
                    Err(e) => Err(e),
                    Ok((v_rssi, n_rssi)) => {
                        match <CteKind as FromHciBytes<'de>>::spec_from_hci_bytes(data.skip(n_tx_power as int).skip(n_rssi as int)) {
                            Err(e) => Err(e),
                            Ok((v_cte_type, n_cte_type)) => {
                                match <u8 as FromHciBytes<'de>>::spec_from_hci_bytes(data.skip(n_tx_power as int).skip(n_rssi as int).skip(n_cte_type as int)) {
                                    Err(e) => Err(e),
                                    Ok((v_response_slot, n_response_slot)) => {
                                        match <DataStatus as FromHciBytes<'de>>::spec_from_hci_bytes(data.skip(n_tx_power as int).skip(n_rssi as int).skip(n_cte_type as int).skip(n_response_slot as int)) {
                                            Err(e) => Err(e),
                                            Ok((v_data_status, n_data_status)) => {
                                                match <u8 as FromHciBytes<'de>>::spec_from_hci_bytes(data.skip(n_tx_power as int).skip(n_rssi as int).skip(n_cte_type as int).skip(n_response_slot as int).skip(n_data_status as int)) {
                                                    Err(e) => Err(e),
                                                    Ok((v_data_length, n_data_length)) => {
                                                        match <&'de [u8] as FromHciBytes<'de>>::spec_from_hci_bytes(data.skip(n_tx_power as int).skip(n_rssi as int).skip(n_cte_type as int).skip(n_response_slot as int).skip(n_data_status as int).skip(n_data_length as int)) {
                                                            Err(e) => Err(e),
                                                            Ok((v_data, n_data)) => {
                                                                Ok((LePeriodicAdvertisingResponseReportView { tx_power: v_tx_power, rssi: v_rssi, cte_type: v_cte_type, response_slot: v_response_slot, data_status: v_data_status, data_length: v_data_length, data: v_data }, (n_tx_power + n_rssi + n_cte_type + n_response_slot + n_data_status + n_data_length + n_data) as nat))
                                                            },
                                                        }
                                                    },
                                                }
                                            },
                                        }
                                    },
                                }
                            },
                        }
                    },
                }
            },
        }
    }

    fn from_hci_bytes(data: &'de [u8]) -> (r: Result<(LePeriodicAdvertisingResponseReport<'de>, &'de [u8]), FromHciBytesError>) {
        let (v_tx_power, rest_tx_power) = match <i8 as FromHciBytes<'de>>::from_hci_bytes(data) {
            Ok(x) => x,
            Err(e) => return Err(e),
        };
        let (v_rssi, rest_rssi) = match <i8 as FromHciBytes<'de>>::from_hci_bytes(rest_tx_power) {
            Ok(x) => x,
            Err(e) => return Err(e),
        };
        proof {
            lemma_skip_skip(data@, (data@.len() - rest_tx_power@.len()) as int, (rest_tx_power@.len() - rest_rssi@.len()) as int);
        }
        let (v_cte_type, rest_cte_type) = match <CteKind as FromHciBytes<'de>>::from_hci_bytes(rest_rssi) {
            Ok(x) => x,
            Err(e) => return Err(e),
        };
        proof {
            lemma_skip_skip(data@, (data@.len() - rest_rssi@.len()) as int, (rest_rssi@.len() - rest_cte_type@.len()) as int);
        }
        let (v_response_slot, rest_response_slot) = match <u8 as FromHciBytes<'de>>::from_hci_bytes(rest_cte_type) {
            Ok(x) => x,
            Err(e) => return Err(e),
        };
        proof {
            lemma_skip_skip(data@, (data@.len() - rest_cte_type@.len()) as int, (rest_cte_type@.len() - rest_response_slot@.len()) as int);
        }
        let (v_data_status, rest_data_status) = match <DataStatus as FromHciBytes<'de>>::from_hci_bytes(rest_response_slot) {
            Ok(x) => x,
            Err(e) => return Err(e),
        };
        proof {
            lemma_skip_skip(data@, (data@.len() - rest_response_slot@.len()) as int, (rest_response_slot@.len() - rest_data_status@.len()) as int);
        }
        let (v_data_length, rest_data_length) = match <u8 as FromHciBytes<'de>>::from_hci_bytes(rest_data_status) {
            Ok(x) => x,
            Err(e) => return Err(e),
        };
        proof {
            lemma_skip_skip(data@, (data@.len() - rest_data_status@.len()) as int, (rest_data_status@.len() - rest_data_length@.len()) as int);
        }
        let (v_data, rest_data) = match <&'de [u8] as FromHciBytes<'de>>::from_hci_bytes(rest_data_length) {
            Ok(x) => x,
            Err(e) => return Err(e),
        };
        proof {
            lemma_skip_skip(data@, (data@.len() - rest_data_length@.len()) as int, (rest_data_length@.len() - rest_data@.len()) as int);
        }
        Ok((LePeriodicAdvertisingResponseReport { tx_power: v_tx_power, rssi: v_rssi, cte_type: v_cte_type, response_slot: v_response_slot, data_status: v_data_status, data_length: v_data_length, data: v_data }, rest_data))
    }
}

impl<'a> WriteHci for LePeriodicAdvertisingResponseReport<'a> {
    open spec fn spec_hci_bytes(&self) -> Seq<u8> {
        self.tx_power.spec_hci_bytes() + self.rssi.spec_hci_bytes() + self.cte_type.spec_hci_bytes() + self.response_slot.spec_hci_bytes() + self.data_status.spec_hci_bytes() + self.data_length.spec_hci_bytes() + self.data.spec_hci_bytes()
    }

    fn size(&self) -> (r: usize) {
        let mut n = self.tx_power.size();
        proof {
            assert(self.tx_power.spec_hci_bytes() + self.rssi.spec_hci_bytes() =~= (self.tx_power.spec_hci_bytes() + self.rssi.spec_hci_bytes()));
        }
        n = n + self.rssi.size();
        proof {
            assert(self.tx_power.spec_hci_bytes() + self.rssi.spec_hci_bytes() + self.cte_type.spec_hci_bytes() =~= (self.tx_power.spec_hci_bytes() + self.rssi.spec_hci_bytes() + self.cte_type.spec_hci_bytes()));
        }
        n = n + self.cte_type.size();
        proof {
            assert(self.tx_power.spec_hci_bytes() + self.rssi.spec_hci_bytes() + self.cte_type.spec_hci_bytes() + self.response_slot.spec_hci_bytes() =~= (self.tx_power.spec_hci_bytes() + self.rssi.spec_hci_bytes() + self.cte_type.spec_hci_bytes() + self.response_slot.spec_hci_bytes()));
        }
        n = n + self.response_slot.size();
        proof {
            assert(self.tx_power.spec_hci_bytes() + self.rssi.spec_hci_bytes() + self.cte_type.spec_hci_bytes() + self.response_slot.spec_hci_bytes() + self.data_status.spec_hci_bytes() =~= (self.tx_power.spec_hci_bytes() + self.rssi.spec_hci_bytes() + self.cte_type.spec_hci_bytes() + self.response_slot.spec_hci_bytes() + self.data_status.spec_hci_bytes()));
        }
        n = n + self.data_status.size();
        proof {
            assert(self.tx_power.spec_hci_bytes() + self.rssi.spec_hci_bytes() + self.cte_type.spec_hci_bytes() + self.response_slot.spec_hci_bytes() + self.data_status.spec_hci_bytes() + self.data_length.spec_hci_bytes() =~= (self.tx_power.spec_hci_bytes() + self.rssi.spec_hci_bytes() + self.cte_type.spec_hci_bytes() + self.response_slot.spec_hci_bytes() + self.data_status.spec_hci_bytes() + self.data_length.spec_hci_bytes()));
        }
        n = n + self.data_length.size();
        proof {
            assert(self.tx_power.spec_hci_bytes() + self.rssi.spec_hci_bytes() + self.cte_type.spec_hci_bytes() + self.response_slot.spec_hci_bytes() + self.data_status.spec_hci_bytes() + self.data_length.spec_hci_bytes() + self.data.spec_hci_bytes() =~= (self.tx_power.spec_hci_bytes() + self.rssi.spec_hci_bytes() + self.cte_type.spec_hci_bytes() + self.response_slot.spec_hci_bytes() + self.data_status.spec_hci_bytes() + self.data_length.spec_hci_bytes() + self.data.spec_hci_bytes()));
        }
        n = n + self.data.size();
        n
    }

    fn write_hci(&self, out: &mut Vec<u8>) {
        self.tx_power.write_hci(out);
        self.rssi.write_hci(out);
        self.cte_type.write_hci(out);
        self.response_slot.write_hci(out);
        self.data_status.write_hci(out);
        self.data_length.write_hci(out);
        self.data.write_hci(out);
        proof {
            assert(out@ =~= old(out)@ + self.spec_hci_bytes());
        }
    }
}

impl<'a> LePeriodicAdvertisingResponseReport<'a> {
    /// The bytes of a `LePeriodicAdvertisingResponseReport` are the bytes of its fields, one after the
    /// other, in the order in which the fields are declared.
    pub proof fn lemma_fields_in_order(&self)
        ensures
            self.spec_hci_bytes() == self.tx_power.spec_hci_bytes() + self.rssi.spec_hci_bytes() + self.cte_type.spec_hci_bytes() + self.response_slot.spec_hci_bytes() + self.data_status.spec_hci_bytes() + self.data_length.spec_hci_bytes() + self.data.spec_hci_bytes(),
    {
    }
}

impl<'de> HciCodec<'de> for LePeriodicAdvertisingResponseReport<'de> {
    open spec fn spec_encodable(&self) -> bool {
        self.tx_power.spec_encodable() && self.rssi.spec_encodable() && self.cte_type.spec_encodable() && self.response_slot.spec_encodable() && self.data_status.spec_encodable() && self.data_length.spec_encodable() && self.data.spec_encodable()
    }

    proof fn lemma_write_then_read(&self, rest: Seq<u8>) {
        let t_data = self.data.spec_hci_bytes() + rest;
        let t_data_length = self.data_length.spec_hci_bytes() + t_data;
        let t_data_status = self.data_status.spec_hci_bytes() + t_data_length;
        let t_response_slot = self.response_slot.spec_hci_bytes() + t_data_status;
        let t_cte_type = self.cte_type.spec_hci_bytes() + t_response_slot;
        let t_rssi = self.rssi.spec_hci_bytes() + t_cte_type;
        let t_tx_power = self.tx_power.spec_hci_bytes() + t_rssi;
        assert(self.spec_hci_bytes() + rest =~= t_tx_power);
        self.tx_power.lemma_write_then_read(t_rssi);
        self.rssi.lemma_write_then_read(t_cte_type);
        self.cte_type.lemma_write_then_read(t_response_slot);
        self.response_slot.lemma_write_then_read(t_data_status);
        self.data_status.lemma_write_then_read(t_data_length);
        self.data_length.lemma_write_then_read(t_data);
        self.data.lemma_write_then_read(rest);
        assert(t_tx_power.skip(self.tx_power.spec_hci_bytes().len() as int) =~= t_rssi);
        assert(t_rssi.skip(self.rssi.spec_hci_bytes().len() as int) =~= t_cte_type);
        assert(t_cte_type.skip(self.cte_type.spec_hci_bytes().len() as int) =~= t_response_slot);
        assert(t_response_slot.skip(self.response_slot.spec_hci_bytes().len() as int) =~= t_data_status);
        assert(t_data_status.skip(self.data_status.spec_hci_bytes().len() as int) =~= t_data_length);
        assert(t_data_length.skip(self.data_length.spec_hci_bytes().len() as int) =~= t_data);
    }
}

/// The sum of the first `i` lengths: where entry `i` starts in the data.
pub open spec fn spec_offset(lengths: Seq<u8>, i: int) -> int
    decreases i,
{
    if i <= 0 {
        0
    } else {
        spec_offset(lengths, i - 1) + lengths[i - 1]
    }
}

/// Offsets grow with the index.
pub proof fn lemma_offset_monotone(lengths: Seq<u8>, i: int, j: int)
    requires
        0 <= i <= j,
    ensures
        spec_offset(lengths, i) <= spec_offset(lengths, j),
    decreases j - i,
{
    if i < j {
        lemma_offset_monotone(lengths, i, j - 1);
    }
}

/// Whether the data area holds every entry whose length `lengths` gives.
pub open spec fn spec_entries_fit(lengths: Seq<u8>, data_len: nat) -> bool {
    spec_offset(lengths, lengths.len() as int) <= data_len
}

fn sum_lengths(lengths: &[u8], index: usize) -> (r: usize)
    requires
        index <= lengths@.len(),
        lengths@.len() <= 255,
    ensures
        r == spec_offset(lengths@, index as int),
{
    let mut total: usize = 0;
    let mut i: usize = 0;
    while i < index
        invariant
            i <= index <= lengths@.len() <= 255,
            total == spec_offset(lengths@, i as int),
            total <= 255 * i,
        decreases index - i,
    {
        total = total + lengths[i] as usize;
        i = i + 1;
    }
    total
}

/// The column-wise fields of the periodic advertising response reports.
pub struct LePeriodicAdvertisingResponseReportsView {
    pub num_responses: u8,
    pub tx_power: Seq<u8>,
    pub rssi: Seq<u8>,
    pub cte_type: Seq<u8>,
    pub response_slot: Seq<u8>,
    pub data_status: Seq<u8>,
    pub data_length: Seq<u8>,
    pub data: Seq<u8>,
}

/// Container for periodic advertising response report data.
#[derive(Debug, Clone, Copy, Hash)]
pub struct LePeriodicAdvertisingResponseReports<'a> {
    num_responses: u8,
    tx_power: &'a [u8],
    rssi: &'a [u8],
    cte_type: &'a [u8],
    response_slot: &'a [u8],
    data_status: &'a [u8],
    data_length: &'a [u8],
    data: &'a [u8],
}

impl<'a> View for LePeriodicAdvertisingResponseReports<'a> {
    type V = LePeriodicAdvertisingResponseReportsView;

    closed spec fn view(&self) -> LePeriodicAdvertisingResponseReportsView {
        LePeriodicAdvertisingResponseReportsView {
            num_responses: self.num_responses,
            tx_power: self.tx_power@,
            rssi: self.rssi@,
            cte_type: self.cte_type@,
            response_slot: self.response_slot@,
            data_status: self.data_status@,
            data_length: self.data_length@,
            data: self.data@,
        }
    }
}

/// Every byte of `s` encodes a constant tone extension kind.
pub open spec fn spec_all_cte_kinds(s: Seq<u8>) -> bool {
    forall|i: int| 0 <= i < s.len() ==> (#[trigger] CteKind::spec_from_raw(s[i])) is Some
}

/// Every byte of `s` encodes a data status.
pub open spec fn spec_all_data_status(s: Seq<u8>) -> bool {
    forall|i: int| 0 <= i < s.len() ==> (#[trigger] DataStatus::spec_from_raw(s[i])) is Some
}

/// The well-formed column-wise reports: every column has one entry per
/// response, with valid kinds and statuses.
pub open spec fn spec_response_reports_wf(v: LePeriodicAdvertisingResponseReportsView) -> bool {
    &&& v.tx_power.len() == v.num_responses
    &&& v.rssi.len() == v.num_responses
    &&& v.cte_type.len() == v.num_responses
    &&& v.response_slot.len() == v.num_responses
    &&& v.data_status.len() == v.num_responses
    &&& v.data_length.len() == v.num_responses
    &&& spec_all_cte_kinds(v.cte_type)
    &&& spec_all_data_status(v.data_status)
}

/// The report at `index`, with its data taken at its offset in the data area.
pub open spec fn spec_response_report(v: LePeriodicAdvertisingResponseReportsView, index: int) -> LePeriodicAdvertisingResponseReportView {
    let off = spec_offset(v.data_length, index);
    LePeriodicAdvertisingResponseReportView {
        tx_power: spec_i8_of(v.tx_power[index]),
        rssi: spec_i8_of(v.rssi[index]),
        cte_type: CteKind::spec_from_raw(v.cte_type[index]).unwrap(),
        response_slot: v.response_slot[index],
        data_status: DataStatus::spec_from_raw(v.data_status[index]).unwrap(),
        data_length: v.data_length[index],
        data: v.data.subrange(off, off + v.data_length[index]),
    }
}

impl<'a> LePeriodicAdvertisingResponseReports<'a> {
    #[verifier::type_invariant]
    spec fn wf(self) -> bool {
        spec_response_reports_wf(self@)
    }

    /// Returns `true` if there are no responses.
    pub fn is_empty(&self) -> (r: bool)
        ensures
            r == (self@.num_responses == 0),
    {
        self.num_responses == 0
    }

    /// Returns the number of responses.
    pub fn len(&self) -> (r: usize)
        ensures
            r == self@.num_responses,
    {
        self.num_responses as usize
    }

    /// Returns the response entry at the given index, or `None` if out of bounds.
    pub fn get(&self, index: usize) -> (r: Option<LePeriodicAdvertisingResponseReport<'a>>)
        requires
            index < self@.num_responses ==> spec_offset(self@.data_length, index as int)
                + self@.data_length[index as int] <= self@.data.len(),
        ensures
            index >= self@.num_responses ==> r is None,
            index < self@.num_responses ==> (r matches Some(rep) && rep@ == spec_response_report(self@, index as int)),
    {
        proof {
            use_type_invariant(self);
        }
        if index >= self.num_responses as usize {
            return None;
        }
        let data_offset = sum_lengths(self.data_length, index);
        let data_len = self.data_length[index] as usize;
        let cte_type = CteKind::from_raw(self.cte_type[index]).unwrap();
        let data_status = DataStatus::from_raw(self.data_status[index]).unwrap();
        let tx = self.tx_power[index];
        let rs = self.rssi[index];
        let (_, tail) = self.data.split_at(data_offset);
        let (data, _) = tail.split_at(data_len);
        proof {
            assert(data@ =~= self@.data.subrange(data_offset as int, data_offset + data_len));
        }
        Some(LePeriodicAdvertisingResponseReport {
            tx_power: i8_of(tx),
            rssi: i8_of(rs),
            cte_type,
            response_slot: self.response_slot[index],
            data_status,
            data_length: self.data_length[index],
            data,
        })
    }

    /// Returns an iterator over all response entries.
    pub fn iter(&self) -> (r: LePeriodicAdvertisingResponseReportsIter<'_>)
        ensures
            r.reports() == self@,
            r.index() == 0,
    {
        LePeriodicAdvertisingResponseReportsIter { reports: self, index: 0 }
    }
}

/// The signed byte with the two's complement bits of `b`.
pub fn i8_of(b: u8) -> (r: i8)
    ensures
        r == spec_i8_of(b),
{
    if b < 128 {
        b as i8
    } else {
        ((b as i16) - 256) as i8
    }
}

/// The column-wise reports: one byte of count, then six columns of one byte
/// per response, then the data of all responses (which takes the rest).
pub open spec fn spec_parse_response_reports(data: Seq<u8>) -> Result<(LePeriodicAdvertisingResponseReportsView, nat), FromHciBytesError> {
    if data.len() < 1 {
        Err(FromHciBytesError::InvalidSize)
    } else {
        let n = data[0] as int;
        if data.len() < 1 + 6 * n {
            Err(FromHciBytesError::InvalidSize)
        } else {
            let v = LePeriodicAdvertisingResponseReportsView {
                num_responses: data[0],
                tx_power: data.subrange(1, 1 + n),
                rssi: data.subrange(1 + n, 1 + 2 * n),
                cte_type: data.subrange(1 + 2 * n, 1 + 3 * n),
                response_slot: data.subrange(1 + 3 * n, 1 + 4 * n),
                data_status: data.subrange(1 + 4 * n, 1 + 5 * n),
                data_length: data.subrange(1 + 5 * n, 1 + 6 * n),
                data: data.skip(1 + 6 * n),
            };
            if !spec_all_cte_kinds(v.cte_type) || !spec_all_data_status(v.data_status) {
                Err(FromHciBytesError::InvalidValue)
            } else {
                Ok((v, data.len()))
            }
        }
    }
}

fn all_cte_kinds(s: &[u8]) -> (r: bool)
    ensures
        r == spec_all_cte_kinds(s@),
{
    let mut i: usize = 0;
    while i < s.len()
        invariant
            i <= s@.len(),
            forall|j: int| 0 <= j < i ==> (#[trigger] CteKind::spec_from_raw(s@[j])) is Some,
        decreases s@.len() - i,
    {
        if CteKind::from_raw(s[i]).is_none() {
            return false;
        }
        i = i + 1;
    }
    true
}

fn all_data_status(s: &[u8]) -> (r: bool)
    ensures
        r == spec_all_data_status(s@),
{
    let mut i: usize = 0;
    while i < s.len()
        invariant
            i <= s@.len(),
            forall|j: int| 0 <= j < i ==> (#[trigger] DataStatus::spec_from_raw(s@[j])) is Some,
        decreases s@.len() - i,
    {
        if DataStatus::from_raw(s[i]).is_none() {
            return false;
        }
        i = i + 1;
    }
    true
}

impl<'de> FromHciBytes<'de> for LePeriodicAdvertisingResponseReports<'de> {
    open spec fn spec_from_hci_bytes(data: Seq<u8>) -> Result<(LePeriodicAdvertisingResponseReportsView, nat), FromHciBytesError> {
        spec_parse_response_reports(data)
    }

    fn from_hci_bytes(data: &'de [u8]) -> (r: Result<(LePeriodicAdvertisingResponseReports<'de>, &'de [u8]), FromHciBytesError>) {
        if data.len() < 1 {
            return Err(FromHciBytesError::InvalidSize);
        }
        let num_responses = data[0];
        let n = num_responses as usize;
        if data.len() - 1 < 6 * n {
            return Err(FromHciBytesError::InvalidSize);
        }
        let (_, rest) = data.split_at(1);
        let (tx_power, rest) = rest.split_at(n);
        let (rssi, rest) = rest.split_at(n);
        let (cte_type, rest) = rest.split_at(n);
        let (response_slot, rest) = rest.split_at(n);
        let (data_status, rest) = rest.split_at(n);
        let (data_length, body) = rest.split_at(n);
        let (_, empty) = data.split_at(data.len());
        proof {
            let ni = n as int;
            assert(tx_power@ =~= data@.subrange(1, 1 + ni));
            assert(rssi@ =~= data@.subrange(1 + ni, 1 + 2 * ni));
            assert(cte_type@ =~= data@.subrange(1 + 2 * ni, 1 + 3 * ni));
            assert(response_slot@ =~= data@.subrange(1 + 3 * ni, 1 + 4 * ni));
            assert(data_status@ =~= data@.subrange(1 + 4 * ni, 1 + 5 * ni));
            assert(data_length@ =~= data@.subrange(1 + 5 * ni, 1 + 6 * ni));
            assert(body@ =~= data@.skip(1 + 6 * ni));
        }
        if !all_cte_kinds(cte_type) || !all_data_status(data_status) {
            return Err(FromHciBytesError::InvalidValue);
        }
        Ok((
            LePeriodicAdvertisingResponseReports {
                num_responses,
                tx_power,
                rssi,
                cte_type,
                response_slot,
                data_status,
                data_length,
                data: body,
            },
            empty,
        ))
    }
}

/// An iterator over the LePeriodicAdvertisingResponse reports.
pub struct LePeriodicAdvertisingResponseReportsIter<'a> {
    reports: &'a LePeriodicAdvertisingResponseReports<'a>,
    index: usize,
}

impl<'a> LePeriodicAdvertisingResponseReportsIter<'a> {
    /// The reports iterated over.
    pub closed spec fn reports(&self) -> LePeriodicAdvertisingResponseReportsView {
        self.reports@
    }

    /// The index of the next report.
    pub closed spec fn index(&self) -> nat {
        self.index as nat
    }

    /// The next report, or `None` once all were taken.
    pub fn next(&mut self) -> (r: Option<LePeriodicAdvertisingResponseReport<'a>>)
        requires
            spec_entries_fit(old(self).reports().data_length, old(self).reports().data.len()),
        ensures
            final(self).reports() == old(self).reports(),
            old(self).index() >= old(self).reports().num_responses ==> r is None && final(self).index() == old(self).index(),
            old(self).index() < old(self).reports().num_responses ==> (r matches Some(rep)
                && rep@ == spec_response_report(old(self).reports(), old(self).index() as int)
                && final(self).index() == old(self).index() + 1),
    {
        proof {
            use_type_invariant(self.reports);
            if self.index < self.reports.num_responses {
                lemma_offset_monotone(self.reports@.data_length, self.index + 1, self.reports@.data_length.len() as int);
            }
        }
        let entry = self.reports.get(self.index);
        if entry.is_some() {
            self.index = self.index + 1;
        }
        entry
    }
}

/// LeCsSubeventStepEntry parameter
#[derive(Debug, Clone, Copy, PartialEq, Eq, PartialOrd, Ord, Hash, Default)]
#[allow(missing_docs)]
pub struct LeCsSubeventStepEntry<'a> {
    pub step_mode: u8,
    pub step_channel: u8,
    pub step_data_length: u8,
    pub step_data: &'a [u8],
}

/// The value of a [`LeCsSubeventStepEntry`], with byte slices taken as sequences.
#[allow(missing_docs)]
pub struct LeCsSubeventStepEntryView {
    pub step_mode: u8,
    pub step_channel: u8,
    pub step_data_length: u8,
    pub step_data: Seq<u8>,
}

impl<'a> View for LeCsSubeventStepEntry<'a> {
    type V = LeCsSubeventStepEntryView;

    open spec fn view(&self) -> LeCsSubeventStepEntryView {
        LeCsSubeventStepEntryView { step_mode: self.step_mode@, step_channel: self.step_channel@, step_data_length: self.step_data_length@, step_data: self.step_data@ }
    }
}

impl<'de> FromHciBytes<'de> for LeCsSubeventStepEntry<'de> {
    open spec fn spec_from_hci_bytes(data: Seq<u8>) -> Result<(LeCsSubeventStepEntryView, nat), FromHciBytesError> {
        match <u8 as FromHciBytes<'de>>::spec_from_hci_bytes(data) {
            Err(e) => Err(e),
            Ok((v_step_mode, n_step_mode)) => {
                match <u8 as FromHciBytes<'de>>::spec_from_hci_bytes(data.skip(n_step_mode as int)) {
                    Err(e) => Err(e),
                    Ok((v_step_channel, n_step_channel)) => {
                        match <u8 as FromHciBytes<'de>>::spec_from_hci_bytes(data.skip(n_step_mode as int).skip(n_step_channel as int)) {
                            Err(e) => Err(e),
                            Ok((v_step_data_length, n_step_data_length)) => {
                                match <&'de [u8] as FromHciBytes<'de>>::spec_from_hci_bytes(data.skip(n_step_mode as int).skip(n_step_channel as int).skip(n_step_data_length as int)) {
                                    Err(e) => Err(e),
                                    Ok((v_step_data, n_step_data)) => {
                                        Ok((LeCsSubeventStepEntryView { step_mode: v_step_mode, step_channel: v_step_channel, step_data_length: v_step_data_length, step_data: v_step_data }, (n_step_mode + n_step_channel + n_step_data_length + n_step_data) as nat))
                                    },
                                }
                            },
                        }
                    },
                }
            },
        }
    }

    fn from_hci_bytes(data: &'de [u8]) -> (r: Result<(LeCsSubeventStepEntry<'de>, &'de [u8]), FromHciBytesError>) {
        let (v_step_mode, rest_step_mode) = match <u8 as FromHciBytes<'de>>::from_hci_bytes(data) {
            Ok(x) => x,
            Err(e) => return Err(e),
        };
        let (v_step_channel, rest_step_channel) = match <u8 as FromHciBytes<'de>>::from_hci_bytes(rest_step_mode) {
            Ok(x) => x,
            Err(e) => return Err(e),
        };
        proof {
            lemma_skip_skip(data@, (data@.len() - rest_step_mode@.len()) as int, (rest_step_mode@.len() - rest_step_channel@.len()) as int);
        }
        let (v_step_data_length, rest_step_data_length) = match <u8 as FromHciBytes<'de>>::from_hci_bytes(rest_step_channel) {
            Ok(x) => x,
            Err(e) => return Err(e),
        };
        proof {
            lemma_skip_skip(data@, (data@.len() - rest_step_channel@.len()) as int, (rest_step_channel@.len() - rest_step_data_length@.len()) as int);
        }
        let (v_step_data, rest_step_data) = match <&'de [u8] as FromHciBytes<'de>>::from_hci_bytes(rest_step_data_length) {
            Ok(x) => x,
            Err(e) => return Err(e),
        };
        proof {
            lemma_skip_skip(data@, (data@.len() - rest_step_data_length@.len()) as int, (rest_step_data_length@.len() - rest_step_data@.len()) as int);
        }
        Ok((LeCsSubeventStepEntry { step_mode: v_step_mode, step_channel: v_step_channel, step_data_length: v_step_data_length, step_data: v_step_data }, rest_step_data))
    }
}

impl<'a> WriteHci for LeCsSubeventStepEntry<'a> {
    open spec fn spec_hci_bytes(&self) -> Seq<u8> {
        self.step_mode.spec_hci_bytes() + self.step_channel.spec_hci_bytes() + self.step_data_length.spec_hci_bytes() + self.step_data.spec_hci_bytes()
    }

    fn size(&self) -> (r: usize) {
        let mut n = self.step_mode.size();
        proof {
            assert(self.step_mode.spec_hci_bytes() + self.step_channel.spec_hci_bytes() =~= (self.step_mode.spec_hci_bytes() + self.step_channel.spec_hci_bytes()));
        }
        n = n + self.step_channel.size();
        proof {
            assert(self.step_mode.spec_hci_bytes() + self.step_channel.spec_hci_bytes() + self.step_data_length.spec_hci_bytes() =~= (self.step_mode.spec_hci_bytes() + self.step_channel.spec_hci_bytes() + self.step_data_length.spec_hci_bytes()));
        }
        n = n + self.step_data_length.size();
        proof {
            assert(self.step_mode.spec_hci_bytes() + self.step_channel.spec_hci_bytes() + self.step_data_length.spec_hci_bytes() + self.step_data.spec_hci_bytes() =~= (self.step_mode.spec_hci_bytes() + self.step_channel.spec_hci_bytes() + self.step_data_length.spec_hci_bytes() + self.step_data.spec_hci_bytes()));
        }
        n = n + self.step_data.size();
        n
    }

    fn write_hci(&self, out: &mut Vec<u8>) {
        self.step_mode.write_hci(out);
        self.step_channel.write_hci(out);
        self.step_data_length.write_hci(out);
        self.step_data.write_hci(out);
        proof {
            assert(out@ =~= old(out)@ + self.spec_hci_bytes());
        }
    }
}

impl<'a> LeCsSubeventStepEntry<'a> {
    /// The bytes of a `LeCsSubeventStepEntry` are the bytes of its fields, one after the
    /// other, in the order in which the fields are declared.
    pub proof fn lemma_fields_in_order(&self)
        ensures
            self.spec_hci_bytes() == self.step_mode.spec_hci_bytes() + self.step_channel.spec_hci_bytes() + self.step_data_length.spec_hci_bytes() + self.step_data.spec_hci_bytes(),
    {
    }
}

impl<'de> HciCodec<'de> for LeCsSubeventStepEntry<'de> {
    open spec fn spec_encodable(&self) -> bool {
        self.step_mode.spec_encodable() && self.step_channel.spec_encodable() && self.step_data_length.spec_encodable() && self.step_data.spec_encodable()
    }

    proof fn lemma_write_then_read(&self, rest: Seq<u8>) {
        let t_step_data = self.step_data.spec_hci_bytes() + rest;
        let t_step_data_length = self.step_data_length.spec_hci_bytes() + t_step_data;
        let t_step_channel = self.step_channel.spec_hci_bytes() + t_step_data_length;
        let t_step_mode = self.step_mode.spec_hci_bytes() + t_step_channel;
        assert(self.spec_hci_bytes() + rest =~= t_step_mode);
        self.step_mode.lemma_write_then_read(t_step_channel);
        self.step_channel.lemma_write_then_read(t_step_data_length);
        self.step_data_length.lemma_write_then_read(t_step_data);
        self.step_data.lemma_write_then_read(rest);
        assert(t_step_mode.skip(self.step_mode.spec_hci_bytes().len() as int) =~= t_step_channel);
        assert(t_step_channel.skip(self.step_channel.spec_hci_bytes().len() as int) =~= t_step_data_length);
        assert(t_step_data_length.skip(self.step_data_length.spec_hci_bytes().len() as int) =~= t_step_data);
    }
}

/// The column-wise fields of the CS subevent steps.
pub struct LeCsSubeventStepDataView {
    pub num_steps_reported: u8,
    pub step_mode: Seq<u8>,
    pub step_channel: Seq<u8>,
    pub step_data_length: Seq<u8>,
    pub step_data: Seq<u8>,
}

/// Container for CS subevent step data.
///
/// Parses the column-major wire format:
/// `num_steps_reported | step_mode[] | step_channel[] | step_data_length[] | step_data[]`
#[derive(Debug, Clone, Copy, Hash)]
pub struct LeCsSubeventStepData<'a> {
    num_steps_reported: u8,
    step_mode: &'a [u8],
    step_channel: &'a [u8],
    step_data_length: &'a [u8],
    step_data: &'a [u8],
}

impl<'a> View for LeCsSubeventStepData<'a> {
    type V = LeCsSubeventStepDataView;

    closed spec fn view(&self) -> LeCsSubeventStepDataView {
        LeCsSubeventStepDataView {
            num_steps_reported: self.num_steps_reported,
            step_mode: self.step_mode@,
            step_channel: self.step_channel@,
            step_data_length: self.step_data_length@,
            step_data: self.step_data@,
        }
    }
}

/// The well-formed column-wise steps: every column has one entry per step.
pub open spec fn spec_step_data_wf(v: LeCsSubeventStepDataView) -> bool {
    &&& v.step_mode.len() == v.num_steps_reported
    &&& v.step_channel.len() == v.num_steps_reported
    &&& v.step_data_length.len() == v.num_steps_reported
}

/// The step at `index`, with its data taken at its offset in the data area.
pub open spec fn spec_step_entry(v: LeCsSubeventStepDataView, index: int) -> LeCsSubeventStepEntryView {
    let off = spec_offset(v.step_data_length, index);
    LeCsSubeventStepEntryView {
        step_mode: v.step_mode[index],
        step_channel: v.step_channel[index],
        step_data_length: v.step_data_length[index],
        step_data: v.step_data.subrange(off, off + v.step_data_length[index]),
    }
}

impl<'a> LeCsSubeventStepData<'a> {
    #[verifier::type_invariant]
    spec fn wf(self) -> bool {
        spec_step_data_wf(self@)
    }

    /// Returns `true` if there are no steps.
    pub fn is_empty(&self) -> (r: bool)
        ensures
            r == (self@.num_steps_reported == 0),
    {
        self.num_steps_reported == 0
    }

    /// Returns the number of steps.
    pub fn len(&self) -> (r: usize)
        ensures
            r == self@.num_steps_reported,
    {
        self.num_steps_reported as usize
    }

    /// Returns the step entry at the given index, or `None` if out of bounds.
    pub fn get(&self, index: usize) -> (r: Option<LeCsSubeventStepEntry<'a>>)
        requires
            index < self@.num_steps_reported ==> spec_offset(self@.step_data_length, index as int)
                + self@.step_data_length[index as int] <= self@.step_data.len(),
        ensures
            index >= self@.num_steps_reported ==> r is None,
            index < self@.num_steps_reported ==> (r matches Some(e) && e@ == spec_step_entry(self@, index as int)),
    {
        proof {
            use_type_invariant(self);
        }
        if index >= self.num_steps_reported as usize {
            return None;
        }
        let data_offset = sum_lengths(self.step_data_length, index);
        let data_len = self.step_data_length[index] as usize;
        let (_, tail) = self.step_data.split_at(data_offset);
        let (step_data, _) = tail.split_at(data_len);
        proof {
            assert(step_data@ =~= self@.step_data.subrange(data_offset as int, data_offset + data_len));
        }
        Some(LeCsSubeventStepEntry {
            step_mode: self.step_mode[index],
            step_channel: self.step_channel[index],
            step_data_length: self.step_data_length[index],
            step_data,
        })
    }

    /// Returns an iterator over all step entries.
    pub fn iter(&self) -> (r: LeCsSubeventStepDataIter<'_>)
        ensures
            r.steps() == self@,
            r.index() == 0,
    {
        LeCsSubeventStepDataIter { data: self, index: 0 }
    }
}

/// The column-wise steps: one byte of count, then three columns of one byte
/// per step, then the data of all steps (which takes the rest).
pub open spec fn spec_parse_step_data(data: Seq<u8>) -> Result<(LeCsSubeventStepDataView, nat), FromHciBytesError> {
    if data.len() < 1 {
        Err(FromHciBytesError::InvalidSize)
    } else {
        let n = data[0] as int;
        if data.len() < 1 + 3 * n {
            Err(FromHciBytesError::InvalidSize)
        } else {
            Ok((
                LeCsSubeventStepDataView {
                    num_steps_reported: data[0],
                    step_mode: data.subrange(1, 1 + n),
                    step_channel: data.subrange(1 + n, 1 + 2 * n),
                    step_data_length: data.subrange(1 + 2 * n, 1 + 3 * n),
                    step_data: data.skip(1 + 3 * n),
                },
                data.len(),
            ))
        }
    }
}

impl<'de> FromHciBytes<'de> for LeCsSubeventStepData<'de> {
    open spec fn spec_from_hci_bytes(data: Seq<u8>) -> Result<(LeCsSubeventStepDataView, nat), FromHciBytesError> {
        spec_parse_step_data(data)
    }

    fn from_hci_bytes(data: &'de [u8]) -> (r: Result<(LeCsSubeventStepData<'de>, &'de [u8]), FromHciBytesError>) {
        if data.len() < 1 {
            return Err(FromHciBytesError::InvalidSize);
        }
        let num_steps_reported = data[0];
        let n = num_steps_reported as usize;
        if data.len() - 1 < 3 * n {
            return Err(FromHciBytesError::InvalidSize);
        }
        let (_, rest) = data.split_at(1);
        let (step_mode, rest) = rest.split_at(n);
        let (step_channel, rest) = rest.split_at(n);
        let (step_data_length, body) = rest.split_at(n);
        let (_, empty) = data.split_at(data.len());
        proof {
            let ni = n as int;
            assert(step_mode@ =~= data@.subrange(1, 1 + ni));
            assert(step_channel@ =~= data@.subrange(1 + ni, 1 + 2 * ni));
            assert(step_data_length@ =~= data@.subrange(1 + 2 * ni, 1 + 3 * ni));
            assert(body@ =~= data@.skip(1 + 3 * ni));
        }
        Ok((
            LeCsSubeventStepData { num_steps_reported, step_mode, step_channel, step_data_length, step_data: body },
            empty,
        ))
    }
}

/// An iterator over LeCsSubeventStepEntry values.
pub struct LeCsSubeventStepDataIter<'a> {
    data: &'a LeCsSubeventStepData<'a>,
    index: usize,
}

impl<'a> LeCsSubeventStepDataIter<'a> {
    /// The steps iterated over.
    pub closed spec fn steps(&self) -> LeCsSubeventStepDataView {
        self.data@
    }

    /// The index of the next step.
    pub closed spec fn index(&self) -> nat {
        self.index as nat
    }

    /// The next step, or `None` once all were taken.
    pub fn next(&mut self) -> (r: Option<LeCsSubeventStepEntry<'a>>)
        requires
            spec_entries_fit(old(self).steps().step_data_length, old(self).steps().step_data.len()),
        ensures
            final(self).steps() == old(self).steps(),
            old(self).index() >= old(self).steps().num_steps_reported ==> r is None && final(self).index() == old(self).index(),
            old(self).index() < old(self).steps().num_steps_reported ==> (r matches Some(e)
                && e@ == spec_step_entry(old(self).steps(), old(self).index() as int)
                && final(self).index() == old(self).index() + 1),
    {
        proof {
            use_type_invariant(self.data);
            if self.index < self.data.num_steps_reported {
                lemma_offset_monotone(self.data@.step_data_length, self.index + 1, self.data@.step_data_length.len() as int);
            }
        }
        let entry = self.data.get(self.index);
        if entry.is_some() {
            self.index = self.index + 1;
        }
        entry
    }
}

/// DoneStatus.
#[derive(Debug, Clone, Copy, PartialEq, Eq, PartialOrd, Ord, Hash, Structural, Default)]
#[allow(missing_docs)]
pub enum DoneStatus {
    #[default]
    Complete,
    Partial,
    Aborted,
}

impl View for DoneStatus {
    type V = DoneStatus;

    open spec fn view(&self) -> DoneStatus {
        *self
    }
}

impl DoneStatus {
    /// The byte that encodes this value.
    pub open spec fn spec_raw(self) -> u8 {
        match self {
            DoneStatus::Complete => 0x00u8,
            DoneStatus::Partial => 0x01u8,
            DoneStatus::Aborted => 0x0fu8,
        }
    }

    /// The value that a byte encodes, if it encodes one.
    pub open spec fn spec_from_raw(b: u8) -> Option<DoneStatus> {
        if b == 0x00u8 {
            Some(DoneStatus::Complete)
        } else if b == 0x01u8 {
            Some(DoneStatus::Partial)
        } else if b == 0x0fu8 {
            Some(DoneStatus::Aborted)
        } else {
            None
        }
    }

    /// The byte that encodes this value.
    pub fn into_raw(self) -> (r: u8)
        ensures
            r == self.spec_raw(),
    {
        match self {
            DoneStatus::Complete => 0x00u8,
            DoneStatus::Partial => 0x01u8,
            DoneStatus::Aborted => 0x0fu8,
        }
    }

    /// The byte of each value is fixed, each of those bytes decodes to its
    /// value, and no other byte decodes.
    pub proof fn lemma_codes()
        ensures
            DoneStatus::Complete.spec_raw() == 0x00u8,
            DoneStatus::Partial.spec_raw() == 0x01u8,
            DoneStatus::Aborted.spec_raw() == 0x0fu8,
            DoneStatus::spec_from_raw(0x00u8) == Some(DoneStatus::Complete),
            DoneStatus::spec_from_raw(0x01u8) == Some(DoneStatus::Partial),
            DoneStatus::spec_from_raw(0x0fu8) == Some(DoneStatus::Aborted),
            forall|b: u8| b != 0x00u8 && b != 0x01u8 && b != 0x0fu8 ==> (#[trigger] DoneStatus::spec_from_raw(b)) is None,
            forall|v: DoneStatus| (#[trigger] v.spec_hci_bytes()) == seq![v.spec_raw()],
            forall|data: Seq<u8>| data.len() >= 1 ==> (#[trigger] <DoneStatus as FromHciBytes>::spec_from_hci_bytes(data)) == match DoneStatus::spec_from_raw(data[0]) {
                Some(v) => Ok::<(DoneStatus, nat), FromHciBytesError>((v, 1)),
                None => Err::<(DoneStatus, nat), FromHciBytesError>(FromHciBytesError::InvalidValue),
            },
    {
    }

    /// The value that a byte encodes, if it encodes one.
    pub fn from_raw(b: u8) -> (r: Option<DoneStatus>)
        ensures
            r == Self::spec_from_raw(b),
    {
        match b {
            0x00u8 => Some(DoneStatus::Complete),
            0x01u8 => Some(DoneStatus::Partial),
            0x0fu8 => Some(DoneStatus::Aborted),
            _ => None,
        }
    }
}

impl<'de> FromHciBytes<'de> for DoneStatus {
    open spec fn spec_from_hci_bytes(data: Seq<u8>) -> Result<(DoneStatus, nat), FromHciBytesError> {
        if data.len() < 1 {
            Err(FromHciBytesError::InvalidSize)
        } else {
            match DoneStatus::spec_from_raw(data[0]) {
                Some(v) => Ok((v, 1)),
                None => Err(FromHciBytesError::InvalidValue),
            }
        }
    }

    fn from_hci_bytes(data: &'de [u8]) -> (r: Result<(DoneStatus, &'de [u8]), FromHciBytesError>) {
        if data.len() < 1 {
            return Err(FromHciBytesError::InvalidSize);
        }
        match DoneStatus::from_raw(data[0]) {
            Some(v) => {
                let (_, rest) = data.split_at(1);
                Ok((v, rest))
            },
            None => Err(FromHciBytesError::InvalidValue),
        }
    }
}

impl WriteHci for DoneStatus {
    open spec fn spec_hci_bytes(&self) -> Seq<u8> {
        seq![self.spec_raw()]
    }

    fn size(&self) -> (r: usize) {
        1
    }

    fn write_hci(&self, out: &mut Vec<u8>) {
        out.push(self.into_raw());
        proof {
            assert(final(out)@ =~= old(out)@ + self.spec_hci_bytes());
        }
    }
}

impl FixedSizeValue for DoneStatus {
    open spec fn spec_size() -> nat {
        1
    }

    proof fn lemma_fixed_size(&self) {
    }
}

impl<'de> HciCodec<'de> for DoneStatus {
    open spec fn spec_encodable(&self) -> bool {
        true
    }

    proof fn lemma_write_then_read(&self, rest: Seq<u8>) {
        match *self {
            DoneStatus::Complete => {},
            DoneStatus::Partial => {},
            DoneStatus::Aborted => {},
        }
    }
}

/// Procedure abort reason.
#[derive(Default, Debug, Clone, Copy, PartialEq, Eq, Hash, Structural)]
pub enum ProcedureAbortReason {
    #[default]
    /// Report with no abort.
    NoAbort,
    /// Abort because of local Host or remote request.
    HostRequest,
    /// Abort because filtered channel map has less than 15 channels.
    FilteredChannelMap,
    /// Abort because the channel map update instant has passed.
    ChannelMapInstantPassed,
    /// Abort because of unspecified reasons.
    Unspecified,
}

impl ProcedureAbortReason {
    /// The reason a 4-bit code stands for; unknown codes are unspecified.
    pub open spec fn spec_from_code(v: u8) -> ProcedureAbortReason {
        if v == 0 {
            ProcedureAbortReason::NoAbort
        } else if v == 1 {
            ProcedureAbortReason::HostRequest
        } else if v == 2 {
            ProcedureAbortReason::FilteredChannelMap
        } else if v == 3 {
            ProcedureAbortReason::ChannelMapInstantPassed
        } else {
            ProcedureAbortReason::Unspecified
        }
    }
}

impl From<u8> for ProcedureAbortReason {
    fn from(v: u8) -> (r: Self) {
        match v {
            0x0 => ProcedureAbortReason::NoAbort,
            0x1 => ProcedureAbortReason::HostRequest,
            0x2 => ProcedureAbortReason::FilteredChannelMap,
            0x3 => ProcedureAbortReason::ChannelMapInstantPassed,
            _ => ProcedureAbortReason::Unspecified,
        }
    }
}

impl vstd::std_specs::convert::FromSpecImpl<u8> for ProcedureAbortReason {
    open spec fn obeys_from_spec() -> bool {
        true
    }

    open spec fn from_spec(v: u8) -> ProcedureAbortReason {
        ProcedureAbortReason::spec_from_code(v)
    }
}

/// Subevent abort reason.
#[derive(Default, Debug, Clone, Copy, PartialEq, Eq, Hash, Structural)]
pub enum SubeventAbortReason {
    #[default]
    /// Report with no abort.
    NoAbort,
    /// Abort because of local Host or remote request.
    HostRequest,
    /// Abort because no CS_SYNC (mode-0) received.
    NoCsSync,
    /// Abort because of scheduling conflicts or limited resources.
    SchedulingConflict,
    /// Abort because of unspecified reasons.
    Unspecified,
}

impl SubeventAbortReason {
    /// The reason a 4-bit code stands for; unknown codes are unspecified.
    pub open spec fn spec_from_code(v: u8) -> SubeventAbortReason {
        if v == 0 {
            SubeventAbortReason::NoAbort
        } else if v == 1 {
            SubeventAbortReason::HostRequest
        } else if v == 2 {
            SubeventAbortReason::NoCsSync
        } else if v == 3 {
            SubeventAbortReason::SchedulingConflict
        } else {
            SubeventAbortReason::Unspecified
        }
    }
}

impl From<u8> for SubeventAbortReason {
    fn from(v: u8) -> (r: Self) {
        match v {
            0x0 => SubeventAbortReason::NoAbort,
            0x1 => SubeventAbortReason::HostRequest,
            0x2 => SubeventAbortReason::NoCsSync,
            0x3 => SubeventAbortReason::SchedulingConflict,
            _ => SubeventAbortReason::Unspecified,
        }
    }
}

impl vstd::std_specs::convert::FromSpecImpl<u8> for SubeventAbortReason {
    open spec fn obeys_from_spec() -> bool {
        true
    }

    open spec fn from_spec(v: u8) -> SubeventAbortReason {
        SubeventAbortReason::spec_from_code(v)
    }
}

/// Abort reason for CS subevent result, packed as two 4-bit nibbles.
///
/// Bits 0-3: procedure abort reason ([`ProcedureAbortReason`])
/// Bits 4-7: subevent abort reason ([`SubeventAbortReason`])
#[derive(Default, Debug, Clone, Copy, PartialEq, Eq, Hash)]
pub struct PackedAbortReasons(pub u8);

impl View for PackedAbortReasons {
    type V = u8;

    open spec fn view(&self) -> u8 {
        self.0
    }
}

impl PackedAbortReasons {
    /// Returns the procedure-level abort reason.
    pub fn procedure_reason(&self) -> (r: ProcedureAbortReason)
        ensures
            r == ProcedureAbortReason::spec_from_code(self.0 % 16),
    {
        ProcedureAbortReason::from(self.0 % 16)
    }

    /// Returns the subevent-level abort reason.
    pub fn subevent_reason(&self) -> (r: SubeventAbortReason)
        ensures
            r == SubeventAbortReason::spec_from_code(self.0 / 16),
    {
        SubeventAbortReason::from(self.0 / 16)
    }
}

impl<'de> FromHciBytes<'de> for PackedAbortReasons {
    open spec fn spec_from_hci_bytes(data: Seq<u8>) -> Result<(u8, nat), FromHciBytesError> {
        <u8 as FromHciBytes<'de>>::spec_from_hci_bytes(data)
    }

    fn from_hci_bytes(data: &'de [u8]) -> (r: Result<(PackedAbortReasons, &'de [u8]), FromHciBytesError>) {
        match <u8 as FromHciBytes<'de>>::from_hci_bytes(data) {
            Ok((v, rest)) => Ok((PackedAbortReasons(v), rest)),
            Err(e) => Err(e),
        }
    }
}

impl WriteHci for PackedAbortReasons {
    open spec fn spec_hci_bytes(&self) -> Seq<u8> {
        seq![self.0]
    }

    fn size(&self) -> (r: usize) {
        1
    }

    fn write_hci(&self, out: &mut Vec<u8>) {
        self.0.write_hci(out);
    }
}

/// Frequency compensation value in units of 0.01 ppm.
#[derive(Default, Debug, Clone, Copy, PartialEq, Eq, Hash)]
pub struct FrequencyCompensation(pub u16);

impl View for FrequencyCompensation {
    type V = u16;

    open spec fn view(&self) -> u16 {
        self.0
    }
}

/// The code that marks a frequency compensation as not available.
pub const FREQUENCY_COMPENSATION_NOT_AVAILABLE: u16 = 0xC000;

/// The signed value of the low 15 bits of `raw`, in two's complement.
pub open spec fn spec_sign_extend_15(raw: u16) -> int {
    let v = raw % 0x8000;
    if v >= 0x4000 {
        v - 0x8000
    } else {
        v as int
    }
}

impl FrequencyCompensation {
    /// Returns the raw 16-bit value.
    pub fn as_raw(&self) -> (r: u16)
        ensures
            r == self.0,
    {
        self.0
    }

    /// Returns `true` if the value is available.
    pub fn is_available(&self) -> (r: bool)
        ensures
            r == (self.0 != FREQUENCY_COMPENSATION_NOT_AVAILABLE),
    {
        self.0 != FREQUENCY_COMPENSATION_NOT_AVAILABLE
    }

    /// Returns the frequency compensation in 0.01 ppm units, or `None` if not available.
    pub fn as_ppm_x100(&self) -> (r: Option<i16>)
        ensures
            self.0 == FREQUENCY_COMPENSATION_NOT_AVAILABLE ==> r is None,
            self.0 != FREQUENCY_COMPENSATION_NOT_AVAILABLE ==> (r matches Some(v) && v == spec_sign_extend_15(self.0)),
    {
        if !self.is_available() {
            return None;
        }
        let val = self.0 % 0x8000;
        if val >= 0x4000 {
            Some(((val as i32) - 0x8000) as i16)
        } else {
            Some(val as i16)
        }
    }
}

impl<'de> FromHciBytes<'de> for FrequencyCompensation {
    open spec fn spec_from_hci_bytes(data: Seq<u8>) -> Result<(u16, nat), FromHciBytesError> {
        <u16 as FromHciBytes<'de>>::spec_from_hci_bytes(data)
    }

    fn from_hci_bytes(data: &'de [u8]) -> (r: Result<(FrequencyCompensation, &'de [u8]), FromHciBytesError>) {
        match <u16 as FromHciBytes<'de>>::from_hci_bytes(data) {
            Ok((v, rest)) => Ok((FrequencyCompensation(v), rest)),
            Err(e) => Err(e),
        }
    }
}

impl WriteHci for FrequencyCompensation {
    open spec fn spec_hci_bytes(&self) -> Seq<u8> {
        spec_u16_le_bytes(self.0)
    }

    fn size(&self) -> (r: usize) {
        2
    }

    fn write_hci(&self, out: &mut Vec<u8>) {
        self.0.write_hci(out);
    }
}

} // verus!
