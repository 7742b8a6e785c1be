//! Parameters of the BR/EDR (classic) commands and events.

use vstd::prelude::*;

use crate::{FixedSizeValue, FromHciBytes, FromHciBytesError, HciCodec, WriteHci, parsed, failed, lemma_skip_skip};
use crate::param::{BdAddr, ConnHandle};
use crate::param::bits::{bit_is_set, spec_bit, spec_with_bit, with_bit};
use crate::param::primitives::spec_u16_le_bytes;

verus! {

/// PacketType
#[derive(Debug, Clone, Copy, PartialEq, Eq, PartialOrd, Ord, Hash, Default)]
pub struct PacketType([u8; 2]);

impl View for PacketType {
    type V = Seq<u8>;

    closed spec fn view(&self) -> Seq<u8> {
        self.0@
    }
}

impl PacketType {
    /// Create a new instance with every bit clear.
    pub fn new() -> (r: Self)
        ensures
            r@ == Seq::new(2, |i: int| 0u8),
    {
        let r = PacketType([0u8; 2]);
        proof {
            assert(r@ =~= Seq::new(2, |i: int| 0u8));
        }
        r
    }

    /// Get the inner representation.
    pub fn into_inner(self) -> (r: [u8; 2])
        ensures
            r@ == self@,
    {
        self.0
    }

    /// The representation has one byte per octet.
    pub proof fn lemma_len(&self)
        ensures
            self@.len() == 2,
    {
    }

    /// Whether bit 1 is set.
    pub fn shall_not_be_used_2dh1(&self) -> (r: bool)
        ensures
            r == spec_bit(self@[0], 1u8),
    {
        bit_is_set(self.0[0], 1u8)
    }

    /// Set bit 1 to `val`.
    pub fn set_shall_not_be_used_2dh1(self, val: bool) -> (r: Self)
        ensures
            r@ == self@.update(0, spec_with_bit(self@[0], 1u8, val)),
    {
        let mut bytes = self.0;
        bytes[0] = with_bit(bytes[0], 1u8, val);
        let r = PacketType(bytes);
        proof {
            assert(r@ =~= self@.update(0, spec_with_bit(self@[0], 1u8, val)));
        }
        r
    }

    /// Whether bit 2 is set.
    pub fn shall_not_be_used_3dh1(&self) -> (r: bool)
        ensures
            r == spec_bit(self@[0], 2u8),
    {
        bit_is_set(self.0[0], 2u8)
    }

    /// Set bit 2 to `val`.
    pub fn set_shall_not_be_used_3dh1(self, val: bool) -> (r: Self)
        ensures
            r@ == self@.update(0, spec_with_bit(self@[0], 2u8, val)),
    {
        let mut bytes = self.0;
        bytes[0] = with_bit(bytes[0], 2u8, val);
        let r = PacketType(bytes);
        proof {
            assert(r@ =~= self@.update(0, spec_with_bit(self@[0], 2u8, val)));
        }
        r
    }

    /// Whether bit 4 is set.
    pub fn dh1_may_be_used(&self) -> (r: bool)
        ensures
            r == spec_bit(self@[0], 4u8),
    {
        bit_is_set(self.0[0], 4u8)
    }

    /// Set bit 4 to `val`.
    pub fn set_dh1_may_be_used(self, val: bool) -> (r: Self)
        ensures
            r@ == self@.update(0, spec_with_bit(self@[0], 4u8, val)),
    {
        let mut bytes = self.0;
        bytes[0] = with_bit(bytes[0], 4u8, val);
        let r = PacketType(bytes);
        proof {
            assert(r@ =~= self@.update(0, spec_with_bit(self@[0], 4u8, val)));
        }
        r
    }

    /// Whether bit 5 is set.
    pub fn hv1_may_be_used(&self) -> (r: bool)
        ensures
            r == spec_bit(self@[0], 5u8),
    {
        bit_is_set(self.0[0], 5u8)
    }

    /// Set bit 5 to `val`.
    pub fn set_hv1_may_be_used(self, val: bool) -> (r: Self)
        ensures
            r@ == self@.update(0, spec_with_bit(self@[0], 5u8, val)),
    {
        let mut bytes = self.0;
        bytes[0] = with_bit(bytes[0], 5u8, val);
        let r = PacketType(bytes);
        proof {
            assert(r@ =~= self@.update(0, spec_with_bit(self@[0], 5u8, val)));
        }
        r
    }

    /// Whether bit 6 is set.
    pub fn hv2_may_be_used(&self) -> (r: bool)
        ensures
            r == spec_bit(self@[0], 6u8),
    {
        bit_is_set(self.0[0], 6u8)
    }

    /// Set bit 6 to `val`.
    pub fn set_hv2_may_be_used(self, val: bool) -> (r: Self)
        ensures
            r@ == self@.update(0, spec_with_bit(self@[0], 6u8, val)),
    {
        let mut bytes = self.0;
        bytes[0] = with_bit(bytes[0], 6u8, val);
        let r = PacketType(bytes);
        proof {
            assert(r@ =~= self@.update(0, spec_with_bit(self@[0], 6u8, val)));
        }
        r
    }

    /// Whether bit 7 is set.
    pub fn hv3_may_be_used(&self) -> (r: bool)
        ensures
            r == spec_bit(self@[0], 7u8),
    {
        bit_is_set(self.0[0], 7u8)
    }

    /// Set bit 7 to `val`.
    pub fn set_hv3_may_be_used(self, val: bool) -> (r: Self)
        ensures
            r@ == self@.update(0, spec_with_bit(self@[0], 7u8, val)),
    {
        let mut bytes = self.0;
        bytes[0] = with_bit(bytes[0], 7u8, val);
        let r = PacketType(bytes);
        proof {
            assert(r@ =~= self@.update(0, spec_with_bit(self@[0], 7u8, val)));
        }
        r
    }

    /// Whether bit 8 is set.
    pub fn shall_not_be_used_2dh3(&self) -> (r: bool)
        ensures
            r == spec_bit(self@[1], 0u8),
    {
        bit_is_set(self.0[1], 0u8)
    }

    /// Set bit 8 to `val`.
    pub fn set_shall_not_be_used_2dh3(self, val: bool) -> (r: Self)
        ensures
            r@ == self@.update(1, spec_with_bit(self@[1], 0u8, val)),
    {
        let mut bytes = self.0;
        bytes[1] = with_bit(bytes[1], 0u8, val);
        let r = PacketType(bytes);
        proof {
            assert(r@ =~= self@.update(1, spec_with_bit(self@[1], 0u8, val)));
        }
        r
    }

    /// Whether bit 9 is set.
    pub fn shall_not_be_used_3dh3(&self) -> (r: bool)
        ensures
            r == spec_bit(self@[1], 1u8),
    {
        bit_is_set(self.0[1], 1u8)
    }

    /// Set bit 9 to `val`.
    pub fn set_shall_not_be_used_3dh3(self, val: bool) -> (r: Self)
        ensures
            r@ == self@.update(1, spec_with_bit(self@[1], 1u8, val)),
    {
        let mut bytes = self.0;
        bytes[1] = with_bit(bytes[1], 1u8, val);
        let r = PacketType(bytes);
        proof {
            assert(r@ =~= self@.update(1, spec_with_bit(self@[1], 1u8, val)));
        }
        r
    }

    /// Whether bit 10 is set.
    pub fn dm3_may_be_used(&self) -> (r: bool)
        ensures
            r == spec_bit(self@[1], 2u8),
    {
        bit_is_set(self.0[1], 2u8)
    }

    /// Set bit 10 to `val`.
    pub fn set_dm3_may_be_used(self, val: bool) -> (r: Self)
        ensures
            r@ == self@.update(1, spec_with_bit(self@[1], 2u8, val)),
    {
        let mut bytes = self.0;
        bytes[1] = with_bit(bytes[1], 2u8, val);
        let r = PacketType(bytes);
        proof {
            assert(r@ =~= self@.update(1, spec_with_bit(self@[1], 2u8, val)));
        }
        r
    }

    /// Whether bit 11 is set.
    pub fn dh3_may_be_used(&self) -> (r: bool)
        ensures
            r == spec_bit(self@[1], 3u8),
    {
        bit_is_set(self.0[1], 3u8)
    }

    /// Set bit 11 to `val`.
    pub fn set_dh3_may_be_used(self, val: bool) -> (r: Self)
        ensures
            r@ == self@.update(1, spec_with_bit(self@[1], 3u8, val)),
    {
        let mut bytes = self.0;
        bytes[1] = with_bit(bytes[1], 3u8, val);
        let r = PacketType(bytes);
        proof {
            assert(r@ =~= self@.update(1, spec_with_bit(self@[1], 3u8, val)));
        }
        r
    }

    /// Whether bit 12 is set.
    pub fn shall_not_be_used_2dh5(&self) -> (r: bool)
        ensures
            r == spec_bit(self@[1], 4u8),
    {
        bit_is_set(self.0[1], 4u8)
    }

    /// Set bit 12 to `val`.
    pub fn set_shall_not_be_used_2dh5(self, val: bool) -> (r: Self)
        ensures
            r@ == self@.update(1, spec_with_bit(self@[1], 4u8, val)),
    {
        let mut bytes = self.0;
        bytes[1] = with_bit(bytes[1], 4u8, val);
        let r = PacketType(bytes);
        proof {
            assert(r@ =~= self@.update(1, spec_with_bit(self@[1], 4u8, val)));
        }
        r
    }

    /// Whether bit 13 is set.
    pub fn shall_not_be_used_3dh5(&self) -> (r: bool)
        ensures
            r == spec_bit(self@[1], 5u8),
    {
        bit_is_set(self.0[1], 5u8)
    }

    /// Set bit 13 to `val`.
    pub fn set_shall_not_be_used_3dh5(self, val: bool) -> (r: Self)
        ensures
            r@ == self@.update(1, spec_with_bit(self@[1], 5u8, val)),
    {
        let mut bytes = self.0;
        bytes[1] = with_bit(bytes[1], 5u8, val);
        let r = PacketType(bytes);
        proof {
            assert(r@ =~= self@.update(1, spec_with_bit(self@[1], 5u8, val)));
        }
        r
    }

    /// Whether bit 14 is set.
    pub fn dm5_may_be_used(&self) -> (r: bool)
        ensures
            r == spec_bit(self@[1], 6u8),
    {
        bit_is_set(self.0[1], 6u8)
    }

    /// Set bit 14 to `val`.
    pub fn set_dm5_may_be_used(self, val: bool) -> (r: Self)
        ensures
            r@ == self@.update(1, spec_with_bit(self@[1], 6u8, val)),
    {
        let mut bytes = self.0;
        bytes[1] = with_bit(bytes[1], 6u8, val);
        let r = PacketType(bytes);
        proof {
            assert(r@ =~= self@.update(1, spec_with_bit(self@[1], 6u8, val)));
        }
        r
    }

    /// Whether bit 15 is set.
    pub fn dh5_may_be_used(&self) -> (r: bool)
        ensures
            r == spec_bit(self@[1], 7u8),
    {
        bit_is_set(self.0[1], 7u8)
    }

    /// Set bit 15 to `val`.
    pub fn set_dh5_may_be_used(self, val: bool) -> (r: Self)
        ensures
            r@ == self@.update(1, spec_with_bit(self@[1], 7u8, val)),
    {
        let mut bytes = self.0;
        bytes[1] = with_bit(bytes[1], 7u8, val);
        let r = PacketType(bytes);
        proof {
            assert(r@ =~= self@.update(1, spec_with_bit(self@[1], 7u8, val)));
        }
        r
    }
}

impl<'de> FromHciBytes<'de> for PacketType {
    open spec fn spec_from_hci_bytes(data: Seq<u8>) -> Result<(Seq<u8>, nat), FromHciBytesError> {
        <[u8; 2] as FromHciBytes<'de>>::spec_from_hci_bytes(data)
    }

    fn from_hci_bytes(data: &'de [u8]) -> (r: Result<(PacketType, &'de [u8]), FromHciBytesError>) {
        match <[u8; 2] as FromHciBytes<'de>>::from_hci_bytes(data) {
            Ok((v, rest)) => Ok((PacketType(v), rest)),
            Err(e) => Err(e),
        }
    }
}

impl WriteHci for PacketType {
    open spec fn spec_hci_bytes(&self) -> Seq<u8> {
        self@
    }

    fn size(&self) -> (r: usize) {
        self.0.size()
    }

    fn write_hci(&self, out: &mut Vec<u8>) {
        self.0.write_hci(out);
    }
}

impl FixedSizeValue for PacketType {
    open spec fn spec_size() -> nat {
        2
    }

    proof fn lemma_fixed_size(&self) {
        self.0.lemma_fixed_size();
    }
}

impl<'de> HciCodec<'de> for PacketType {
    open spec fn spec_encodable(&self) -> bool {
        true
    }

    proof fn lemma_write_then_read(&self, rest: Seq<u8>) {
        self.0.lemma_write_then_read(rest);
    }
}

/// SyncPacketType
#[derive(Debug, Clone, Copy, PartialEq, Eq, PartialOrd, Ord, Hash, Default)]
pub struct SyncPacketType([u8; 2]);

impl View for SyncPacketType {
    type V = Seq<u8>;

    closed spec fn view(&self) -> Seq<u8> {
        self.0@
    }
}

impl SyncPacketType {
    /// Create a new instance with every bit clear.
    pub fn new() -> (r: Self)
        ensures
            r@ == Seq::new(2, |i: int| 0u8),
    {
        let r = SyncPacketType([0u8; 2]);
        proof {
            assert(r@ =~= Seq::new(2, |i: int| 0u8));
        }
        r
    }

    /// Get the inner representation.
    pub fn into_inner(self) -> (r: [u8; 2])
        ensures
            r@ == self@,
    {
        self.0
    }

    /// The representation has one byte per octet.
    pub proof fn lemma_len(&self)
        ensures
            self@.len() == 2,
    {
    }

    /// Whether bit 0 is set.
    pub fn hv1_may_be_used(&self) -> (r: bool)
        ensures
            r == spec_bit(self@[0], 0u8),
    {
        bit_is_set(self.0[0], 0u8)
    }

    /// Set bit 0 to `val`.
    pub fn set_hv1_may_be_used(self, val: bool) -> (r: Self)
        ensures
            r@ == self@.update(0, spec_with_bit(self@[0], 0u8, val)),
    {
        let mut bytes = self.0;
        bytes[0] = with_bit(bytes[0], 0u8, val);
        let r = SyncPacketType(bytes);
        proof {
            assert(r@ =~= self@.update(0, spec_with_bit(self@[0], 0u8, val)));
        }
        r
    }

    /// Whether bit 1 is set.
    pub fn hv2_may_be_used(&self) -> (r: bool)
        ensures
            r == spec_bit(self@[0], 1u8),
    {
        bit_is_set(self.0[0], 1u8)
    }

    /// Set bit 1 to `val`.
    pub fn set_hv2_may_be_used(self, val: bool) -> (r: Self)
        ensures
            r@ == self@.update(0, spec_with_bit(self@[0], 1u8, val)),
    {
        let mut bytes = self.0;
        bytes[0] = with_bit(bytes[0], 1u8, val);
        let r = SyncPacketType(bytes);
        proof {
            assert(r@ =~= self@.update(0, spec_with_bit(self@[0], 1u8, val)));
        }
        r
    }

    /// Whether bit 2 is set.
    pub fn hv3_may_be_used(&self) -> (r: bool)
        ensures
            r == spec_bit(self@[0], 2u8),
    {
        bit_is_set(self.0[0], 2u8)
    }

    /// Set bit 2 to `val`.
    pub fn set_hv3_may_be_used(self, val: bool) -> (r: Self)
        ensures
            r@ == self@.update(0, spec_with_bit(self@[0], 2u8, val)),
    {
        let mut bytes = self.0;
        bytes[0] = with_bit(bytes[0], 2u8, val);
        let r = SyncPacketType(bytes);
        proof {
            assert(r@ =~= self@.update(0, spec_with_bit(self@[0], 2u8, val)));
        }
        r
    }

    /// Whether bit 3 is set.
    pub fn ev3_may_be_used(&self) -> (r: bool)
        ensures
            r == spec_bit(self@[0], 3u8),
    {
        bit_is_set(self.0[0], 3u8)
    }

    /// Set bit 3 to `val`.
    pub fn set_ev3_may_be_used(self, val: bool) -> (r: Self)
        ensures
            r@ == self@.update(0, spec_with_bit(self@[0], 3u8, val)),
    {
        let mut bytes = self.0;
        bytes[0] = with_bit(bytes[0], 3u8, val);
        let r = SyncPacketType(bytes);
        proof {
            assert(r@ =~= self@.update(0, spec_with_bit(self@[0], 3u8, val)));
        }
        r
    }

    /// Whether bit 4 is set.
    pub fn ev4_may_be_used(&self) -> (r: bool)
        ensures
            r == spec_bit(self@[0], 4u8),
    {
        bit_is_set(self.0[0], 4u8)
    }

    /// Set bit 4 to `val`.
    pub fn set_ev4_may_be_used(self, val: bool) -> (r: Self)
        ensures
            r@ == self@.update(0, spec_with_bit(self@[0], 4u8, val)),
    {
        let mut bytes = self.0;
        bytes[0] = with_bit(bytes[0], 4u8, val);
        let r = SyncPacketType(bytes);
        proof {
            assert(r@ =~= self@.update(0, spec_with_bit(self@[0], 4u8, val)));
        }
        r
    }

    /// Whether bit 5 is set.
    pub fn ev5_may_be_used(&self) -> (r: bool)
        ensures
            r == spec_bit(self@[0], 5u8),
    {
        bit_is_set(self.0[0], 5u8)
    }

    /// Set bit 5 to `val`.
    pub fn set_ev5_may_be_used(self, val: bool) -> (r: Self)
        ensures
            r@ == self@.update(0, spec_with_bit(self@[0], 5u8, val)),
    {
        let mut bytes = self.0;
        bytes[0] = with_bit(bytes[0], 5u8, val);
        let r = SyncPacketType(bytes);
        proof {
            assert(r@ =~= self@.update(0, spec_with_bit(self@[0], 5u8, val)));
        }
        r
    }

    /// Whether bit 6 is set.
    pub fn shall_not_be_used_2ev3(&self) -> (r: bool)
        ensures
            r == spec_bit(self@[0], 6u8),
    {
        bit_is_set(self.0[0], 6u8)
    }

    /// Set bit 6 to `val`.
    pub fn set_shall_not_be_used_2ev3(self, val: bool) -> (r: Self)
        ensures
            r@ == self@.update(0, spec_with_bit(self@[0], 6u8, val)),
    {
        let mut bytes = self.0;
        bytes[0] = with_bit(bytes[0], 6u8, val);
        let r = SyncPacketType(bytes);
        proof {
            assert(r@ =~= self@.update(0, spec_with_bit(self@[0], 6u8, val)));
        }
        r
    }

    /// Whether bit 7 is set.
    pub fn shall_not_be_used_3ev3(&self) -> (r: bool)
        ensures
            r == spec_bit(self@[0], 7u8),
    {
        bit_is_set(self.0[0], 7u8)
    }

    /// Set bit 7 to `val`.
    pub fn set_shall_not_be_used_3ev3(self, val: bool) -> (r: Self)
        ensures
            r@ == self@.update(0, spec_with_bit(self@[0], 7u8, val)),
    {
        let mut bytes = self.0;
        bytes[0] = with_bit(bytes[0], 7u8, val);
        let r = SyncPacketType(bytes);
        proof {
            assert(r@ =~= self@.update(0, spec_with_bit(self@[0], 7u8, val)));
        }
        r
    }

    /// Whether bit 8 is set.
    pub fn shall_not_be_used_2ev5(&self) -> (r: bool)
        ensures
            r == spec_bit(self@[1], 0u8),
    {
        bit_is_set(self.0[1], 0u8)
    }

    /// Set bit 8 to `val`.
    pub fn set_shall_not_be_used_2ev5(self, val: bool) -> (r: Self)
        ensures
            r@ == self@.update(1, spec_with_bit(self@[1], 0u8, val)),
    {
        let mut bytes = self.0;
        bytes[1] = with_bit(bytes[1], 0u8, val);
        let r = SyncPacketType(bytes);
        proof {
            assert(r@ =~= self@.update(1, spec_with_bit(self@[1], 0u8, val)));
        }
        r
    }

    /// Whether bit 9 is set.
    pub fn shall_not_be_used_3ev5(&self) -> (r: bool)
        ensures
            r == spec_bit(self@[1], 1u8),
    {
        bit_is_set(self.0[1], 1u8)
    }

    /// Set bit 9 to `val`.
    pub fn set_shall_not_be_used_3ev5(self, val: bool) -> (r: Self)
        ensures
            r@ == self@.update(1, spec_with_bit(self@[1], 1u8, val)),
    {
        let mut bytes = self.0;
        bytes[1] = with_bit(bytes[1], 1u8, val);
        let r = SyncPacketType(bytes);
        proof {
            assert(r@ =~= self@.update(1, spec_with_bit(self@[1], 1u8, val)));
        }
        r
    }
}

impl<'de> FromHciBytes<'de> for SyncPacketType {
    open spec fn spec_from_hci_bytes(data: Seq<u8>) -> Result<(Seq<u8>, nat), FromHciBytesError> {
        <[u8; 2] as FromHciBytes<'de>>::spec_from_hci_bytes(data)
    }

    fn from_hci_bytes(data: &'de [u8]) -> (r: Result<(SyncPacketType, &'de [u8]), FromHciBytesError>) {
        match <[u8; 2] as FromHciBytes<'de>>::from_hci_bytes(data) {
            Ok((v, rest)) => Ok((SyncPacketType(v), rest)),
            Err(e) => Err(e),
        }
    }
}

impl WriteHci for SyncPacketType {
    open spec fn spec_hci_bytes(&self) -> Seq<u8> {
        self@
    }

    fn size(&self) -> (r: usize) {
        self.0.size()
    }

    fn write_hci(&self, out: &mut Vec<u8>) {
        self.0.write_hci(out);
    }
}

impl FixedSizeValue for SyncPacketType {
    open spec fn spec_size() -> nat {
        2
    }

    proof fn lemma_fixed_size(&self) {
        self.0.lemma_fixed_size();
    }
}

impl<'de> HciCodec<'de> for SyncPacketType {
    open spec fn spec_encodable(&self) -> bool {
        true
    }

    proof fn lemma_write_then_read(&self, rest: Seq<u8>) {
        self.0.lemma_write_then_read(rest);
    }
}

/// ClockOffset
#[derive(Debug, Clone, Copy, PartialEq, Eq, PartialOrd, Ord, Hash, Default)]
pub struct ClockOffset([u8; 2]);

impl View for ClockOffset {
    type V = Seq<u8>;

    closed spec fn view(&self) -> Seq<u8> {
        self.0@
    }
}

impl ClockOffset {
    /// Create a new instance with every bit clear.
    pub fn new() -> (r: Self)
        ensures
            r@ == Seq::new(2, |i: int| 0u8),
    {
        let r = ClockOffset([0u8; 2]);
        proof {
            assert(r@ =~= Seq::new(2, |i: int| 0u8));
        }
        r
    }

    /// Get the inner representation.
    pub fn into_inner(self) -> (r: [u8; 2])
        ensures
            r@ == self@,
    {
        self.0
    }

    /// The representation has one byte per octet.
    pub proof fn lemma_len(&self)
        ensures
            self@.len() == 2,
    {
    }

    /// Whether bit 0 is set.
    pub fn clock_offset_0(&self) -> (r: bool)
        ensures
            r == spec_bit(self@[0], 0u8),
    {
        bit_is_set(self.0[0], 0u8)
    }

    /// Set bit 0 to `val`.
    pub fn set_clock_offset_0(self, val: bool) -> (r: Self)
        ensures
            r@ == self@.update(0, spec_with_bit(self@[0], 0u8, val)),
    {
        let mut bytes = self.0;
        bytes[0] = with_bit(bytes[0], 0u8, val);
        let r = ClockOffset(bytes);
        proof {
            assert(r@ =~= self@.update(0, spec_with_bit(self@[0], 0u8, val)));
        }
        r
    }

    /// Whether bit 1 is set.
    pub fn clock_offset_1(&self) -> (r: bool)
        ensures
            r == spec_bit(self@[0], 1u8),
    {
        bit_is_set(self.0[0], 1u8)
    }

    /// Set bit 1 to `val`.
    pub fn set_clock_offset_1(self, val: bool) -> (r: Self)
        ensures
            r@ == self@.update(0, spec_with_bit(self@[0], 1u8, val)),
    {
        let mut bytes = self.0;
        bytes[0] = with_bit(bytes[0], 1u8, val);
        let r = ClockOffset(bytes);
        proof {
            assert(r@ =~= self@.update(0, spec_with_bit(self@[0], 1u8, val)));
        }
        r
    }

    /// Whether bit 2 is set.
    pub fn clock_offset_2(&self) -> (r: bool)
        ensures
            r == spec_bit(self@[0], 2u8),
    {
        bit_is_set(self.0[0], 2u8)
    }

    /// Set bit 2 to `val`.
    pub fn set_clock_offset_2(self, val: bool) -> (r: Self)
        ensures
            r@ == self@.update(0, spec_with_bit(self@[0], 2u8, val)),
    {
        let mut bytes = self.0;
        bytes[0] = with_bit(bytes[0], 2u8, val);
        let r = ClockOffset(bytes);
        proof {
            assert(r@ =~= self@.update(0, spec_with_bit(self@[0], 2u8, val)));
        }
        r
    }

    /// Whether bit 3 is set.
    pub fn clock_offset_3(&self) -> (r: bool)
        ensures
            r == spec_bit(self@[0], 3u8),
    {
        bit_is_set(self.0[0], 3u8)
    }

    /// Set bit 3 to `val`.
    pub fn set_clock_offset_3(self, val: bool) -> (r: Self)
        ensures
            r@ == self@.update(0, spec_with_bit(self@[0], 3u8, val)),
    {
        let mut bytes = self.0;
        bytes[0] = with_bit(bytes[0], 3u8, val);
        let r = ClockOffset(bytes);
        proof {
            assert(r@ =~= self@.update(0, spec_with_bit(self@[0], 3u8, val)));
        }
        r
    }

    /// Whether bit 4 is set.
    pub fn clock_offset_4(&self) -> (r: bool)
        ensures
            r == spec_bit(self@[0], 4u8),
    {
        bit_is_set(self.0[0], 4u8)
    }

    /// Set bit 4 to `val`.
    pub fn set_clock_offset_4(self, val: bool) -> (r: Self)
        ensures
            r@ == self@.update(0, spec_with_bit(self@[0], 4u8, val)),
    {
        let mut bytes = self.0;
        bytes[0] = with_bit(bytes[0], 4u8, val);
        let r = ClockOffset(bytes);
        proof {
            assert(r@ =~= self@.update(0, spec_with_bit(self@[0], 4u8, val)));
        }
        r
    }

    /// Whether bit 5 is set.
    pub fn clock_offset_5(&self) -> (r: bool)
        ensures
            r == spec_bit(self@[0], 5u8),
    {
        bit_is_set(self.0[0], 5u8)
    }

    /// Set bit 5 to `val`.
    pub fn set_clock_offset_5(self, val: bool) -> (r: Self)
        ensures
            r@ == self@.update(0, spec_with_bit(self@[0], 5u8, val)),
    {
        let mut bytes = self.0;
        bytes[0] = with_bit(bytes[0], 5u8, val);
        let r = ClockOffset(bytes);
        proof {
            assert(r@ =~= self@.update(0, spec_with_bit(self@[0], 5u8, val)));
        }
        r
    }

    /// Whether bit 6 is set.
    pub fn clock_offset_6(&self) -> (r: bool)
        ensures
            r == spec_bit(self@[0], 6u8),
    {
        bit_is_set(self.0[0], 6u8)
    }

    /// Set bit 6 to `val`.
    pub fn set_clock_offset_6(self, val: bool) -> (r: Self)
        ensures
            r@ == self@.update(0, spec_with_bit(self@[0], 6u8, val)),
    {
        let mut bytes = self.0;
        bytes[0] = with_bit(bytes[0], 6u8, val);
        let r = ClockOffset(bytes);
        proof {
            assert(r@ =~= self@.update(0, spec_with_bit(self@[0], 6u8, val)));
        }
        r
    }

    /// Whether bit 7 is set.
    pub fn clock_offset_7(&self) -> (r: bool)
        ensures
            r == spec_bit(self@[0], 7u8),
    {
        bit_is_set(self.0[0], 7u8)
    }

    /// Set bit 7 to `val`.
    pub fn set_clock_offset_7(self, val: bool) -> (r: Self)
        ensures
            r@ == self@.update(0, spec_with_bit(self@[0], 7u8, val)),
    {
        let mut bytes = self.0;
        bytes[0] = with_bit(bytes[0], 7u8, val);
        let r = ClockOffset(bytes);
        proof {
            assert(r@ =~= self@.update(0, spec_with_bit(self@[0], 7u8, val)));
        }
        r
    }

    /// Whether bit 8 is set.
    pub fn clock_offset_8(&self) -> (r: bool)
        ensures
            r == spec_bit(self@[1], 0u8),
    {
        bit_is_set(self.0[1], 0u8)
    }

    /// Set bit 8 to `val`.
    pub fn set_clock_offset_8(self, val: bool) -> (r: Self)
        ensures
            r@ == self@.update(1, spec_with_bit(self@[1], 0u8, val)),
    {
        let mut bytes = self.0;
        bytes[1] = with_bit(bytes[1], 0u8, val);
        let r = ClockOffset(bytes);
        proof {
            assert(r@ =~= self@.update(1, spec_with_bit(self@[1], 0u8, val)));
        }
        r
    }

    /// Whether bit 9 is set.
    pub fn clock_offset_9(&self) -> (r: bool)
        ensures
            r == spec_bit(self@[1], 1u8),
    {
        bit_is_set(self.0[1], 1u8)
    }

    /// Set bit 9 to `val`.
    pub fn set_clock_offset_9(self, val: bool) -> (r: Self)
        ensures
            r@ == self@.update(1, spec_with_bit(self@[1], 1u8, val)),
    {
        let mut bytes = self.0;
        bytes[1] = with_bit(bytes[1], 1u8, val);
        let r = ClockOffset(bytes);
        proof {
            assert(r@ =~= self@.update(1, spec_with_bit(self@[1], 1u8, val)));
        }
        r
    }

    /// Whether bit 10 is set.
    pub fn clock_offset_10(&self) -> (r: bool)
        ensures
            r == spec_bit(self@[1], 2u8),
    {
        bit_is_set(self.0[1], 2u8)
    }

    /// Set bit 10 to `val`.
    pub fn set_clock_offset_10(self, val: bool) -> (r: Self)
        ensures
            r@ == self@.update(1, spec_with_bit(self@[1], 2u8, val)),
    {
        let mut bytes = self.0;
        bytes[1] = with_bit(bytes[1], 2u8, val);
        let r = ClockOffset(bytes);
        proof {
            assert(r@ =~= self@.update(1, spec_with_bit(self@[1], 2u8, val)));
        }
        r
    }

    /// Whether bit 11 is set.
    pub fn clock_offset_11(&self) -> (r: bool)
        ensures
            r == spec_bit(self@[1], 3u8),
    {
        bit_is_set(self.0[1], 3u8)
    }

    /// Set bit 11 to `val`.
    pub fn set_clock_offset_11(self, val: bool) -> (r: Self)
        ensures
            r@ == self@.update(1, spec_with_bit(self@[1], 3u8, val)),
    {
        let mut bytes = self.0;
        bytes[1] = with_bit(bytes[1], 3u8, val);
        let r = ClockOffset(bytes);
        proof {
            assert(r@ =~= self@.update(1, spec_with_bit(self@[1], 3u8, val)));
        }
        r
    }

    /// Whether bit 12 is set.
    pub fn clock_offset_12(&self) -> (r: bool)
        ensures
            r == spec_bit(self@[1], 4u8),
    {
        bit_is_set(self.0[1], 4u8)
    }

    /// Set bit 12 to `val`.
    pub fn set_clock_offset_12(self, val: bool) -> (r: Self)
        ensures
            r@ == self@.update(1, spec_with_bit(self@[1], 4u8, val)),
    {
        let mut bytes = self.0;
        bytes[1] = with_bit(bytes[1], 4u8, val);
        let r = ClockOffset(bytes);
        proof {
            assert(r@ =~= self@.update(1, spec_with_bit(self@[1], 4u8, val)));
        }
        r
    }

    /// Whether bit 13 is set.
    pub fn clock_offset_13(&self) -> (r: bool)
        ensures
            r == spec_bit(self@[1], 5u8),
    {
        bit_is_set(self.0[1], 5u8)
    }

    /// Set bit 13 to `val`.
    pub fn set_clock_offset_13(self, val: bool) -> (r: Self)
        ensures
            r@ == self@.update(1, spec_with_bit(self@[1], 5u8, val)),
    {
        let mut bytes = self.0;
        bytes[1] = with_bit(bytes[1], 5u8, val);
        let r = ClockOffset(bytes);
        proof {
            assert(r@ =~= self@.update(1, spec_with_bit(self@[1], 5u8, val)));
        }
        r
    }

    /// Whether bit 14 is set.
    pub fn clock_offset_14(&self) -> (r: bool)
        ensures
            r == spec_bit(self@[1], 6u8),
    {
        bit_is_set(self.0[1], 6u8)
    }

    /// Set bit 14 to `val`.
    pub fn set_clock_offset_14(self, val: bool) -> (r: Self)
        ensures
            r@ == self@.update(1, spec_with_bit(self@[1], 6u8, val)),
    {
        let mut bytes = self.0;
        bytes[1] = with_bit(bytes[1], 6u8, val);
        let r = ClockOffset(bytes);
        proof {
            assert(r@ =~= self@.update(1, spec_with_bit(self@[1], 6u8, val)));
        }
        r
    }

    /// Whether bit 15 is set.
    pub fn clock_offset_valid_flag(&self) -> (r: bool)
        ensures
            r == spec_bit(self@[1], 7u8),
    {
        bit_is_set(self.0[1], 7u8)
    }

    /// Set bit 15 to `val`.
    pub fn set_clock_offset_valid_flag(self, val: bool) -> (r: Self)
        ensures
            r@ == self@.update(1, spec_with_bit(self@[1], 7u8, val)),
    {
        let mut bytes = self.0;
        bytes[1] = with_bit(bytes[1], 7u8, val);
        let r = ClockOffset(bytes);
        proof {
            assert(r@ =~= self@.update(1, spec_with_bit(self@[1], 7u8, val)));
        }
        r
    }
}

impl<'de> FromHciBytes<'de> for ClockOffset {
    open spec fn spec_from_hci_bytes(data: Seq<u8>) -> Result<(Seq<u8>, nat), FromHciBytesError> {
        <[u8; 2] as FromHciBytes<'de>>::spec_from_hci_bytes(data)
    }

    fn from_hci_bytes(data: &'de [u8]) -> (r: Result<(ClockOffset, &'de [u8]), FromHciBytesError>) {
        match <[u8; 2] as FromHciBytes<'de>>::from_hci_bytes(data) {
            Ok((v, rest)) => Ok((ClockOffset(v), rest)),
            Err(e) => Err(e),
        }
    }
}

impl WriteHci for ClockOffset {
    open spec fn spec_hci_bytes(&self) -> Seq<u8> {
        self@
    }

    fn size(&self) -> (r: usize) {
        self.0.size()
    }

    fn write_hci(&self, out: &mut Vec<u8>) {
        self.0.write_hci(out);
    }
}

impl FixedSizeValue for ClockOffset {
    open spec fn spec_size() -> nat {
        2
    }

    proof fn lemma_fixed_size(&self) {
        self.0.lemma_fixed_size();
    }
}

impl<'de> HciCodec<'de> for ClockOffset {
    open spec fn spec_encodable(&self) -> bool {
        true
    }

    proof fn lemma_write_then_read(&self, rest: Seq<u8>) {
        self.0.lemma_write_then_read(rest);
    }
}

/// VoiceSetting
#[derive(Debug, Clone, Copy, PartialEq, Eq, PartialOrd, Ord, Hash, Default)]
pub struct VoiceSetting([u8; 2]);

impl View for VoiceSetting {
    type V = Seq<u8>;

    closed spec fn view(&self) -> Seq<u8> {
        self.0@
    }
}

impl VoiceSetting {
    /// Create a new instance with every bit clear.
    pub fn new() -> (r: Self)
        ensures
            r@ == Seq::new(2, |i: int| 0u8),
    {
        let r = VoiceSetting([0u8; 2]);
        proof {
            assert(r@ =~= Seq::new(2, |i: int| 0u8));
        }
        r
    }

    /// Get the inner representation.
    pub fn into_inner(self) -> (r: [u8; 2])
        ensures
            r@ == self@,
    {
        self.0
    }

    /// The representation has one byte per octet.
    pub proof fn lemma_len(&self)
        ensures
            self@.len() == 2,
    {
    }

    /// Whether bit 0 is set.
    pub fn air_coding_format_0(&self) -> (r: bool)
        ensures
            r == spec_bit(self@[0], 0u8),
    {
        bit_is_set(self.0[0], 0u8)
    }

    /// Set bit 0 to `val`.
    pub fn set_air_coding_format_0(self, val: bool) -> (r: Self)
        ensures
            r@ == self@.update(0, spec_with_bit(self@[0], 0u8, val)),
    {
        let mut bytes = self.0;
        bytes[0] = with_bit(bytes[0], 0u8, val);
        let r = VoiceSetting(bytes);
        proof {
            assert(r@ =~= self@.update(0, spec_with_bit(self@[0], 0u8, val)));
        }
        r
    }

    /// Whether bit 1 is set.
    pub fn air_coding_format_1(&self) -> (r: bool)
        ensures
            r == spec_bit(self@[0], 1u8),
    {
        bit_is_set(self.0[0], 1u8)
    }

    /// Set bit 1 to `val`.
    pub fn set_air_coding_format_1(self, val: bool) -> (r: Self)
        ensures
            r@ == self@.update(0, spec_with_bit(self@[0], 1u8, val)),
    {
        let mut bytes = self.0;
        bytes[0] = with_bit(bytes[0], 1u8, val);
        let r = VoiceSetting(bytes);
        proof {
            assert(r@ =~= self@.update(0, spec_with_bit(self@[0], 1u8, val)));
        }
        r
    }

    /// Whether bit 2 is set.
    pub fn linear_pcm_bit_position_0(&self) -> (r: bool)
        ensures
            r == spec_bit(self@[0], 2u8),
    {
        bit_is_set(self.0[0], 2u8)
    }

    /// Set bit 2 to `val`.
    pub fn set_linear_pcm_bit_position_0(self, val: bool) -> (r: Self)
        ensures
            r@ == self@.update(0, spec_with_bit(self@[0], 2u8, val)),
    {
        let mut bytes = self.0;
        bytes[0] = with_bit(bytes[0], 2u8, val);
        let r = VoiceSetting(bytes);
        proof {
            assert(r@ =~= self@.update(0, spec_with_bit(self@[0], 2u8, val)));
        }
        r
    }

    /// Whether bit 3 is set.
    pub fn linear_pcm_bit_position_1(&self) -> (r: bool)
        ensures
            r == spec_bit(self@[0], 3u8),
    {
        bit_is_set(self.0[0], 3u8)
    }

    /// Set bit 3 to `val`.
    pub fn set_linear_pcm_bit_position_1(self, val: bool) -> (r: Self)
        ensures
            r@ == self@.update(0, spec_with_bit(self@[0], 3u8, val)),
    {
        let mut bytes = self.0;
        bytes[0] = with_bit(bytes[0], 3u8, val);
        let r = VoiceSetting(bytes);
        proof {
            assert(r@ =~= self@.update(0, spec_with_bit(self@[0], 3u8, val)));
        }
        r
    }

    /// Whether bit 4 is set.
    pub fn linear_pcm_bit_position_2(&self) -> (r: bool)
        ensures
            r == spec_bit(self@[0], 4u8),
    {
        bit_is_set(self.0[0], 4u8)
    }

    /// Set bit 4 to `val`.
    pub fn set_linear_pcm_bit_position_2(self, val: bool) -> (r: Self)
        ensures
            r@ == self@.update(0, spec_with_bit(self@[0], 4u8, val)),
    {
        let mut bytes = self.0;
        bytes[0] = with_bit(bytes[0], 4u8, val);
        let r = VoiceSetting(bytes);
        proof {
            assert(r@ =~= self@.update(0, spec_with_bit(self@[0], 4u8, val)));
        }
        r
    }

    /// Whether bit 5 is set.
    pub fn input_sample_size(&self) -> (r: bool)
        ensures
            r == spec_bit(self@[0], 5u8),
    {
        bit_is_set(self.0[0], 5u8)
    }

    /// Set bit 5 to `val`.
    pub fn set_input_sample_size(self, val: bool) -> (r: Self)
        ensures
            r@ == self@.update(0, spec_with_bit(self@[0], 5u8, val)),
    {
        let mut bytes = self.0;
        bytes[0] = with_bit(bytes[0], 5u8, val);
        let r = VoiceSetting(bytes);
        proof {
            assert(r@ =~= self@.update(0, spec_with_bit(self@[0], 5u8, val)));
        }
        r
    }

    /// Whether bit 6 is set.
    pub fn input_data_format_0(&self) -> (r: bool)
        ensures
            r == spec_bit(self@[0], 6u8),
    {
        bit_is_set(self.0[0], 6u8)
    }

    /// Set bit 6 to `val`.
    pub fn set_input_data_format_0(self, val: bool) -> (r: Self)
        ensures
            r@ == self@.update(0, spec_with_bit(self@[0], 6u8, val)),
    {
        let mut bytes = self.0;
        bytes[0] = with_bit(bytes[0], 6u8, val);
        let r = VoiceSetting(bytes);
        proof {
            assert(r@ =~= self@.update(0, spec_with_bit(self@[0], 6u8, val)));
        }
        r
    }

    /// Whether bit 7 is set.
    pub fn input_data_format_1(&self) -> (r: bool)
        ensures
            r == spec_bit(self@[0], 7u8),
    {
        bit_is_set(self.0[0], 7u8)
    }

    /// Set bit 7 to `val`.
    pub fn set_input_data_format_1(self, val: bool) -> (r: Self)
        ensures
            r@ == self@.update(0, spec_with_bit(self@[0], 7u8, val)),
    {
        let mut bytes = self.0;
        bytes[0] = with_bit(bytes[0], 7u8, val);
        let r = VoiceSetting(bytes);
        proof {
            assert(r@ =~= self@.update(0, spec_with_bit(self@[0], 7u8, val)));
        }
        r
    }

    /// Whether bit 8 is set.
    pub fn input_coding_format_0(&self) -> (r: bool)
        ensures
            r == spec_bit(self@[1], 0u8),
    {
        bit_is_set(self.0[1], 0u8)
    }

    /// Set bit 8 to `val`.
    pub fn set_input_coding_format_0(self, val: bool) -> (r: Self)
        ensures
            r@ == self@.update(1, spec_with_bit(self@[1], 0u8, val)),
    {
        let mut bytes = self.0;
        bytes[1] = with_bit(bytes[1], 0u8, val);
        let r = VoiceSetting(bytes);
        proof {
            assert(r@ =~= self@.update(1, spec_with_bit(self@[1], 0u8, val)));
        }
        r
    }

    /// Whether bit 9 is set.
    pub fn input_coding_format_1(&self) -> (r: bool)
        ensures
            r == spec_bit(self@[1], 1u8),
    {
        bit_is_set(self.0[1], 1u8)
    }

    /// Set bit 9 to `val`.
    pub fn set_input_coding_format_1(self, val: bool) -> (r: Self)
        ensures
            r@ == self@.update(1, spec_with_bit(self@[1], 1u8, val)),
    {
        let mut bytes = self.0;
        bytes[1] = with_bit(bytes[1], 1u8, val);
        let r = VoiceSetting(bytes);
        proof {
            assert(r@ =~= self@.update(1, spec_with_bit(self@[1], 1u8, val)));
        }
        r
    }
}

impl<'de> FromHciBytes<'de> for VoiceSetting {
    open spec fn spec_from_hci_bytes(data: Seq<u8>) -> Result<(Seq<u8>, nat), FromHciBytesError> {
        <[u8; 2] as FromHciBytes<'de>>::spec_from_hci_bytes(data)
    }

    fn from_hci_bytes(data: &'de [u8]) -> (r: Result<(VoiceSetting, &'de [u8]), FromHciBytesError>) {
        match <[u8; 2] as FromHciBytes<'de>>::from_hci_bytes(data) {
            Ok((v, rest)) => Ok((VoiceSetting(v), rest)),
            Err(e) => Err(e),
        }
    }
}

impl WriteHci for VoiceSetting {
    open spec fn spec_hci_bytes(&self) -> Seq<u8> {
        self@
    }

    fn size(&self) -> (r: usize) {
        self.0.size()
    }

    fn write_hci(&self, out: &mut Vec<u8>) {
        self.0.write_hci(out);
    }
}

impl FixedSizeValue for VoiceSetting {
    open spec fn spec_size() -> nat {
        2
    }

    proof fn lemma_fixed_size(&self) {
        self.0.lemma_fixed_size();
    }
}

impl<'de> HciCodec<'de> for VoiceSetting {
    open spec fn spec_encodable(&self) -> bool {
        true
    }

    proof fn lemma_write_then_read(&self, rest: Seq<u8>) {
        self.0.lemma_write_then_read(rest);
    }
}

/// PageScanRepetitionMode.
#[derive(Debug, Clone, Copy, PartialEq, Eq, PartialOrd, Ord, Hash, Structural)]
#[allow(missing_docs)]
pub enum PageScanRepetitionMode {
    R0,
    R1,
    R2,
}

impl View for PageScanRepetitionMode {
    type V = PageScanRepetitionMode;

    open spec fn view(&self) -> PageScanRepetitionMode {
        *self
    }
}

impl PageScanRepetitionMode {
    /// The byte that encodes this value.
    pub open spec fn spec_raw(self) -> u8 {
        match self {
            PageScanRepetitionMode::R0 => 0x00u8,
            PageScanRepetitionMode::R1 => 0x01u8,
            PageScanRepetitionMode::R2 => 0x02u8,
        }
    }

    /// The value that a byte encodes, if it encodes one.
    pub open spec fn spec_from_raw(b: u8) -> Option<PageScanRepetitionMode> {
        if b == 0x00u8 {
            Some(PageScanRepetitionMode::R0)
        } else if b == 0x01u8 {
            Some(PageScanRepetitionMode::R1)
        } else if b == 0x02u8 {
            Some(PageScanRepetitionMode::R2)
        } else {
            None
        }
    }

    /// The byte that encodes this value.
    pub fn into_raw(self) -> (r: u8)
        ensures
            r == self.spec_raw(),
    {
        match self {
            PageScanRepetitionMode::R0 => 0x00u8,
            PageScanRepetitionMode::R1 => 0x01u8,
            PageScanRepetitionMode::R2 => 0x02u8,
        }
    }

    /// The byte of each value is fixed, each of those bytes decodes to its
    /// value, and no other byte decodes.
    pub proof fn lemma_codes()
        ensures
            PageScanRepetitionMode::R0.spec_raw() == 0x00u8,
            PageScanRepetitionMode::R1.spec_raw() == 0x01u8,
            PageScanRepetitionMode::R2.spec_raw() == 0x02u8,
            PageScanRepetitionMode::spec_from_raw(0x00u8) == Some(PageScanRepetitionMode::R0),
            PageScanRepetitionMode::spec_from_raw(0x01u8) == Some(PageScanRepetitionMode::R1),
            PageScanRepetitionMode::spec_from_raw(0x02u8) == Some(PageScanRepetitionMode::R2),
            forall|b: u8| b != 0x00u8 && b != 0x01u8 && b != 0x02u8 ==> (#[trigger] PageScanRepetitionMode::spec_from_raw(b)) is None,
            forall|v: PageScanRepetitionMode| (#[trigger] v.spec_hci_bytes()) == seq![v.spec_raw()],
            forall|data: Seq<u8>| data.len() >= 1 ==> (#[trigger] <PageScanRepetitionMode as FromHciBytes>::spec_from_hci_bytes(data)) == match PageScanRepetitionMode::spec_from_raw(data[0]) {
                Some(v) => Ok::<(PageScanRepetitionMode, nat), FromHciBytesError>((v, 1)),
                None => Err::<(PageScanRepetitionMode, nat), FromHciBytesError>(FromHciBytesError::InvalidValue),
            },
    {
    }

    /// The value that a byte encodes, if it encodes one.
    pub fn from_raw(b: u8) -> (r: Option<PageScanRepetitionMode>)
        ensures
            r == Self::spec_from_raw(b),
    {
        match b {
            0x00u8 => Some(PageScanRepetitionMode::R0),
            0x01u8 => Some(PageScanRepetitionMode::R1),
            0x02u8 => Some(PageScanRepetitionMode::R2),
            _ => None,
        }
    }
}

impl<'de> FromHciBytes<'de> for PageScanRepetitionMode {
    open spec fn spec_from_hci_bytes(data: Seq<u8>) -> Result<(PageScanRepetitionMode, nat), FromHciBytesError> {
        if data.len() < 1 {
            Err(FromHciBytesError::InvalidSize)
        } else {
            match PageScanRepetitionMode::spec_from_raw(data[0]) {
                Some(v) => Ok((v, 1)),
                None => Err(FromHciBytesError::InvalidValue),
            }
        }
    }

    fn from_hci_bytes(data: &'de [u8]) -> (r: Result<(PageScanRepetitionMode, &'de [u8]), FromHciBytesError>) {
        if data.len() < 1 {
            return Err(FromHciBytesError::InvalidSize);
        }
        match PageScanRepetitionMode::from_raw(data[0]) {
            Some(v) => {
                let (_, rest) = data.split_at(1);
                Ok((v, rest))
            },
            None => Err(FromHciBytesError::InvalidValue),
        }
    }
}

impl WriteHci for PageScanRepetitionMode {
    open spec fn spec_hci_bytes(&self) -> Seq<u8> {
        seq![self.spec_raw()]
    }

    fn size(&self) -> (r: usize) {
        1
    }

    fn write_hci(&self, out: &mut Vec<u8>) {
        out.push(self.into_raw());
        proof {
            assert(final(out)@ =~= old(out)@ + self.spec_hci_bytes());
        }
    }
}

impl FixedSizeValue for PageScanRepetitionMode {
    open spec fn spec_size() -> nat {
        1
    }

    proof fn lemma_fixed_size(&self) {
    }
}

impl<'de> HciCodec<'de> for PageScanRepetitionMode {
    open spec fn spec_encodable(&self) -> bool {
        true
    }

    proof fn lemma_write_then_read(&self, rest: Seq<u8>) {
        match *self {
            PageScanRepetitionMode::R0 => {},
            PageScanRepetitionMode::R1 => {},
            PageScanRepetitionMode::R2 => {},
        }
    }
}

/// AllowRoleSwitch.
#[derive(Debug, Clone, Copy, PartialEq, Eq, PartialOrd, Ord, Hash, Structural)]
#[allow(missing_docs)]
pub enum AllowRoleSwitch {
    NotAllowed,
    Allowed,
}

impl View for AllowRoleSwitch {
    type V = AllowRoleSwitch;

    open spec fn view(&self) -> AllowRoleSwitch {
        *self
    }
}

impl AllowRoleSwitch {
    /// The byte that encodes this value.
    pub open spec fn spec_raw(self) -> u8 {
        match self {
            AllowRoleSwitch::NotAllowed => 0x00u8,
            AllowRoleSwitch::Allowed => 0x01u8,
        }
    }

    /// The value that a byte encodes, if it encodes one.
    pub open spec fn spec_from_raw(b: u8) -> Option<AllowRoleSwitch> {
        if b == 0x00u8 {
            Some(AllowRoleSwitch::NotAllowed)
        } else if b == 0x01u8 {
            Some(AllowRoleSwitch::Allowed)
        } else {
            None
        }
    }

    /// The byte that encodes this value.
    pub fn into_raw(self) -> (r: u8)
        ensures
            r == self.spec_raw(),
    {
        match self {
            AllowRoleSwitch::NotAllowed => 0x00u8,
            AllowRoleSwitch::Allowed => 0x01u8,
        }
    }

    /// The byte of each value is fixed, each of those bytes decodes to its
    /// value, and no other byte decodes.
    pub proof fn lemma_codes()
        ensures
            AllowRoleSwitch::NotAllowed.spec_raw() == 0x00u8,
            AllowRoleSwitch::Allowed.spec_raw() == 0x01u8,
            AllowRoleSwitch::spec_from_raw(0x00u8) == Some(AllowRoleSwitch::NotAllowed),
            AllowRoleSwitch::spec_from_raw(0x01u8) == Some(AllowRoleSwitch::Allowed),
            forall|b: u8| b != 0x00u8 && b != 0x01u8 ==> (#[trigger] AllowRoleSwitch::spec_from_raw(b)) is None,
            forall|v: AllowRoleSwitch| (#[trigger] v.spec_hci_bytes()) == seq![v.spec_raw()],
            forall|data: Seq<u8>| data.len() >= 1 ==> (#[trigger] <AllowRoleSwitch as FromHciBytes>::spec_from_hci_bytes(data)) == match AllowRoleSwitch::spec_from_raw(data[0]) {
                Some(v) => Ok::<(AllowRoleSwitch, nat), FromHciBytesError>((v, 1)),
                None => Err::<(AllowRoleSwitch, nat), FromHciBytesError>(FromHciBytesError::InvalidValue),
            },
    {
    }

    /// The value that a byte encodes, if it encodes one.
    pub fn from_raw(b: u8) -> (r: Option<AllowRoleSwitch>)
        ensures
            r == Self::spec_from_raw(b),
    {
        match b {
            0x00u8 => Some(AllowRoleSwitch::NotAllowed),
            0x01u8 => Some(AllowRoleSwitch::Allowed),
            _ => None,
        }
    }
}

impl<'de> FromHciBytes<'de> for AllowRoleSwitch {
    open spec fn spec_from_hci_bytes(data: Seq<u8>) -> Result<(AllowRoleSwitch, nat), FromHciBytesError> {
        if data.len() < 1 {
            Err(FromHciBytesError::InvalidSize)
        } else {
            match AllowRoleSwitch::spec_from_raw(data[0]) {
                Some(v) => Ok((v, 1)),
                None => Err(FromHciBytesError::InvalidValue),
            }
        }
    }

    fn from_hci_bytes(data: &'de [u8]) -> (r: Result<(AllowRoleSwitch, &'de [u8]), FromHciBytesError>) {
        if data.len() < 1 {
            return Err(FromHciBytesError::InvalidSize);
        }
        match AllowRoleSwitch::from_raw(data[0]) {
            Some(v) => {
                let (_, rest) = data.split_at(1);
                Ok((v, rest))
            },
            None => Err(FromHciBytesError::InvalidValue),
        }
    }
}

impl WriteHci for AllowRoleSwitch {
    open spec fn spec_hci_bytes(&self) -> Seq<u8> {
        seq![self.spec_raw()]
    }

    fn size(&self) -> (r: usize) {
        1
    }

    fn write_hci(&self, out: &mut Vec<u8>) {
        out.push(self.into_raw());
        proof {
            assert(final(out)@ =~= old(out)@ + self.spec_hci_bytes());
        }
    }
}

impl FixedSizeValue for AllowRoleSwitch {
    open spec fn spec_size() -> nat {
        1
    }

    proof fn lemma_fixed_size(&self) {
    }
}

impl<'de> HciCodec<'de> for AllowRoleSwitch {
    open spec fn spec_encodable(&self) -> bool {
        true
    }

    proof fn lemma_write_then_read(&self, rest: Seq<u8>) {
        match *self {
            AllowRoleSwitch::NotAllowed => {},
            AllowRoleSwitch::Allowed => {},
        }
    }
}

/// ConnectionLinkType.
#[derive(Debug, Clone, Copy, PartialEq, Eq, PartialOrd, Ord, Hash, Structural)]
#[allow(missing_docs)]
pub enum ConnectionLinkType {
    Sco,
    Acl,
    EnhancedSco,
}

impl View for ConnectionLinkType {
    type V = ConnectionLinkType;

    open spec fn view(&self) -> ConnectionLinkType {
        *self
    }
}

impl ConnectionLinkType {
    /// The byte that encodes this value.
    pub open spec fn spec_raw(self) -> u8 {
        match self {
            ConnectionLinkType::Sco => 0x00u8,
            ConnectionLinkType::Acl => 0x01u8,
            ConnectionLinkType::EnhancedSco => 0x02u8,
        }
    }

    /// The value that a byte encodes, if it encodes one.
    pub open spec fn spec_from_raw(b: u8) -> Option<ConnectionLinkType> {
        if b == 0x00u8 {
            Some(ConnectionLinkType::Sco)
        } else if b == 0x01u8 {
            Some(ConnectionLinkType::Acl)
        } else if b == 0x02u8 {
            Some(ConnectionLinkType::EnhancedSco)
        } else {
            None
        }
    }

    /// The byte that encodes this value.
    pub fn into_raw(self) -> (r: u8)
        ensures
            r == self.spec_raw(),
    {
        match self {
            ConnectionLinkType::Sco => 0x00u8,
            ConnectionLinkType::Acl => 0x01u8,
            ConnectionLinkType::EnhancedSco => 0x02u8,
        }
    }

    /// The byte of each value is fixed, each of those bytes decodes to its
    /// value, and no other byte decodes.
    pub proof fn lemma_codes()
        ensures
            ConnectionLinkType::Sco.spec_raw() == 0x00u8,
            ConnectionLinkType::Acl.spec_raw() == 0x01u8,
            ConnectionLinkType::EnhancedSco.spec_raw() == 0x02u8,
            ConnectionLinkType::spec_from_raw(0x00u8) == Some(ConnectionLinkType::Sco),
            ConnectionLinkType::spec_from_raw(0x01u8) == Some(ConnectionLinkType::Acl),
            ConnectionLinkType::spec_from_raw(0x02u8) == Some(ConnectionLinkType::EnhancedSco),
            forall|b: u8| b != 0x00u8 && b != 0x01u8 && b != 0x02u8 ==> (#[trigger] ConnectionLinkType::spec_from_raw(b)) is None,
            forall|v: ConnectionLinkType| (#[trigger] v.spec_hci_bytes()) == seq![v.spec_raw()],
            forall|data: Seq<u8>| data.len() >= 1 ==> (#[trigger] <ConnectionLinkType as FromHciBytes>::spec_from_hci_bytes(data)) == match ConnectionLinkType::spec_from_raw(data[0]) {
                Some(v) => Ok::<(ConnectionLinkType, nat), FromHciBytesError>((v, 1)),
                None => Err::<(ConnectionLinkType, nat), FromHciBytesError>(FromHciBytesError::InvalidValue),
            },
    {
    }

    /// The value that a byte encodes, if it encodes one.
    pub fn from_raw(b: u8) -> (r: Option<ConnectionLinkType>)
        ensures
            r == Self::spec_from_raw(b),
    {
        match b {
            0x00u8 => Some(ConnectionLinkType::Sco),
            0x01u8 => Some(ConnectionLinkType::Acl),
            0x02u8 => Some(ConnectionLinkType::EnhancedSco),
            _ => None,
        }
    }
}

impl<'de> FromHciBytes<'de> for ConnectionLinkType {
    open spec fn spec_from_hci_bytes(data: Seq<u8>) -> Result<(ConnectionLinkType, nat), FromHciBytesError> {
        if data.len() < 1 {
            Err(FromHciBytesError::InvalidSize)
        } else {
            match ConnectionLinkType::spec_from_raw(data[0]) {
                Some(v) => Ok((v, 1)),
                None => Err(FromHciBytesError::InvalidValue),
            }
        }
    }

    fn from_hci_bytes(data: &'de [u8]) -> (r: Result<(ConnectionLinkType, &'de [u8]), FromHciBytesError>) {
        if data.len() < 1 {
            return Err(FromHciBytesError::InvalidSize);
        }
        match ConnectionLinkType::from_raw(data[0]) {
            Some(v) => {
                let (_, rest) = data.split_at(1);
                Ok((v, rest))
            },
            None => Err(FromHciBytesError::InvalidValue),
        }
    }
}

impl WriteHci for ConnectionLinkType {
    open spec fn spec_hci_bytes(&self) -> Seq<u8> {
        seq![self.spec_raw()]
    }

    fn size(&self) -> (r: usize) {
        1
    }

    fn write_hci(&self, out: &mut Vec<u8>) {
        out.push(self.into_raw());
        proof {
            assert(final(out)@ =~= old(out)@ + self.spec_hci_bytes());
        }
    }
}

impl FixedSizeValue for ConnectionLinkType {
    open spec fn spec_size() -> nat {
        1
    }

    proof fn lemma_fixed_size(&self) {
    }
}

impl<'de> HciCodec<'de> for ConnectionLinkType {
    open spec fn spec_encodable(&self) -> bool {
        true
    }

    proof fn lemma_write_then_read(&self, rest: Seq<u8>) {
        match *self {
            ConnectionLinkType::Sco => {},
            ConnectionLinkType::Acl => {},
            ConnectionLinkType::EnhancedSco => {},
        }
    }
}

/// LinkKeyType.
#[derive(Debug, Clone, Copy, PartialEq, Eq, PartialOrd, Ord, Hash, Structural)]
#[allow(missing_docs)]
pub enum LinkKeyType {
    CombinationKey,
    DebugCombinationKey,
    UnauthenticatedCombinationKeyP192,
    AuthenticatedCombinationKeyP192,
    ChangedCombinationKey,
    UnauthenticatedCombinationKeyP256,
    AuthenticatedCombinationKeyP256,
}

impl View for LinkKeyType {
    type V = LinkKeyType;

    open spec fn view(&self) -> LinkKeyType {
        *self
    }
}

impl LinkKeyType {
    /// The byte that encodes this value.
    pub open spec fn spec_raw(self) -> u8 {
        match self {
            LinkKeyType::CombinationKey => 0x00u8,
            LinkKeyType::DebugCombinationKey => 0x03u8,
            LinkKeyType::UnauthenticatedCombinationKeyP192 => 0x04u8,
            LinkKeyType::AuthenticatedCombinationKeyP192 => 0x05u8,
            LinkKeyType::ChangedCombinationKey => 0x06u8,
            LinkKeyType::UnauthenticatedCombinationKeyP256 => 0x07u8,
            LinkKeyType::AuthenticatedCombinationKeyP256 => 0x08u8,
        }
    }

    /// The value that a byte encodes, if it encodes one.
    pub open spec fn spec_from_raw(b: u8) -> Option<LinkKeyType> {
        if b == 0x00u8 {
            Some(LinkKeyType::CombinationKey)
        } else if b == 0x03u8 {
            Some(LinkKeyType::DebugCombinationKey)
        } else if b == 0x04u8 {
            Some(LinkKeyType::UnauthenticatedCombinationKeyP192)
        } else if b == 0x05u8 {
            Some(LinkKeyType::AuthenticatedCombinationKeyP192)
        } else if b == 0x06u8 {
            Some(LinkKeyType::ChangedCombinationKey)
        } else if b == 0x07u8 {
            Some(LinkKeyType::UnauthenticatedCombinationKeyP256)
        } else if b == 0x08u8 {
            Some(LinkKeyType::AuthenticatedCombinationKeyP256)
        } else {
            None
        }
    }

    /// The byte that encodes this value.
    pub fn into_raw(self) -> (r: u8)
        ensures
            r == self.spec_raw(),
    {
        match self {
            LinkKeyType::CombinationKey => 0x00u8,
            LinkKeyType::DebugCombinationKey => 0x03u8,
            LinkKeyType::UnauthenticatedCombinationKeyP192 => 0x04u8,
            LinkKeyType::AuthenticatedCombinationKeyP192 => 0x05u8,
            LinkKeyType::ChangedCombinationKey => 0x06u8,
            LinkKeyType::UnauthenticatedCombinationKeyP256 => 0x07u8,
            LinkKeyType::AuthenticatedCombinationKeyP256 => 0x08u8,
        }
    }

    /// The byte of each value is fixed, each of those bytes decodes to its
    /// value, and no other byte decodes.
    pub proof fn lemma_codes()
        ensures
            LinkKeyType::CombinationKey.spec_raw() == 0x00u8,
            LinkKeyType::DebugCombinationKey.spec_raw() == 0x03u8,
            LinkKeyType::UnauthenticatedCombinationKeyP192.spec_raw() == 0x04u8,
            LinkKeyType::AuthenticatedCombinationKeyP192.spec_raw() == 0x05u8,
            LinkKeyType::ChangedCombinationKey.spec_raw() == 0x06u8,
            LinkKeyType::UnauthenticatedCombinationKeyP256.spec_raw() == 0x07u8,
            LinkKeyType::AuthenticatedCombinationKeyP256.spec_raw() == 0x08u8,
            LinkKeyType::spec_from_raw(0x00u8) == Some(LinkKeyType::CombinationKey),
            LinkKeyType::spec_from_raw(0x03u8) == Some(LinkKeyType::DebugCombinationKey),
            LinkKeyType::spec_from_raw(0x04u8) == Some(LinkKeyType::UnauthenticatedCombinationKeyP192),
            LinkKeyType::spec_from_raw(0x05u8) == Some(LinkKeyType::AuthenticatedCombinationKeyP192),
            LinkKeyType::spec_from_raw(0x06u8) == Some(LinkKeyType::ChangedCombinationKey),
            LinkKeyType::spec_from_raw(0x07u8) == Some(LinkKeyType::UnauthenticatedCombinationKeyP256),
            LinkKeyType::spec_from_raw(0x08u8) == Some(LinkKeyType::AuthenticatedCombinationKeyP256),
            forall|b: u8| b != 0x00u8 && b != 0x03u8 && b != 0x04u8 && b != 0x05u8 && b != 0x06u8 && b != 0x07u8 && b != 0x08u8 ==> (#[trigger] LinkKeyType::spec_from_raw(b)) is None,
            forall|v: LinkKeyType| (#[trigger] v.spec_hci_bytes()) == seq![v.spec_raw()],
            forall|data: Seq<u8>| data.len() >= 1 ==> (#[trigger] <LinkKeyType as FromHciBytes>::spec_from_hci_bytes(data)) == match LinkKeyType::spec_from_raw(data[0]) {
                Some(v) => Ok::<(LinkKeyType, nat), FromHciBytesError>((v, 1)),
                None => Err::<(LinkKeyType, nat), FromHciBytesError>(FromHciBytesError::InvalidValue),
            },
    {
    }

    /// The value that a byte encodes, if it encodes one.
    pub fn from_raw(b: u8) -> (r: Option<LinkKeyType>)
        ensures
            r == Self::spec_from_raw(b),
    {
        match b {
            0x00u8 => Some(LinkKeyType::CombinationKey),
            0x03u8 => Some(LinkKeyType::DebugCombinationKey),
            0x04u8 => Some(LinkKeyType::UnauthenticatedCombinationKeyP192),
            0x05u8 => Some(LinkKeyType::AuthenticatedCombinationKeyP192),
            0x06u8 => Some(LinkKeyType::ChangedCombinationKey),
            0x07u8 => Some(LinkKeyType::UnauthenticatedCombinationKeyP256),
            0x08u8 => Some(LinkKeyType::AuthenticatedCombinationKeyP256),
            _ => None,
        }
    }
}

impl<'de> FromHciBytes<'de> for LinkKeyType {
    open spec fn spec_from_hci_bytes(data: Seq<u8>) -> Result<(LinkKeyType, nat), FromHciBytesError> {
        if data.len() < 1 {
            Err(FromHciBytesError::InvalidSize)
        } else {
            match LinkKeyType::spec_from_raw(data[0]) {
                Some(v) => Ok((v, 1)),
                None => Err(FromHciBytesError::InvalidValue),
            }
        }
    }

    fn from_hci_bytes(data: &'de [u8]) -> (r: Result<(LinkKeyType, &'de [u8]), FromHciBytesError>) {
        if data.len() < 1 {
            return Err(FromHciBytesError::InvalidSize);
        }
        match LinkKeyType::from_raw(data[0]) {
            Some(v) => {
                let (_, rest) = data.split_at(1);
                Ok((v, rest))
            },
            None => Err(FromHciBytesError::InvalidValue),
        }
    }
}

impl WriteHci for LinkKeyType {
    open spec fn spec_hci_bytes(&self) -> Seq<u8> {
        seq![self.spec_raw()]
    }

    fn size(&self) -> (r: usize) {
        1
    }

    fn write_hci(&self, out: &mut Vec<u8>) {
        out.push(self.into_raw());
        proof {
            assert(final(out)@ =~= old(out)@ + self.spec_hci_bytes());
        }
    }
}

impl FixedSizeValue for LinkKeyType {
    open spec fn spec_size() -> nat {
        1
    }

    proof fn lemma_fixed_size(&self) {
    }
}

impl<'de> HciCodec<'de> for LinkKeyType {
    open spec fn spec_encodable(&self) -> bool {
        true
    }

    proof fn lemma_write_then_read(&self, rest: Seq<u8>) {
        match *self {
            LinkKeyType::CombinationKey => {},
            LinkKeyType::DebugCombinationKey => {},
            LinkKeyType::UnauthenticatedCombinationKeyP192 => {},
            LinkKeyType::AuthenticatedCombinationKeyP192 => {},
            LinkKeyType::ChangedCombinationKey => {},
            LinkKeyType::UnauthenticatedCombinationKeyP256 => {},
            LinkKeyType::AuthenticatedCombinationKeyP256 => {},
        }
    }
}

/// IoCapability.
#[derive(Debug, Clone, Copy, PartialEq, Eq, PartialOrd, Ord, Hash, Structural)]
#[allow(missing_docs)]
pub enum IoCapability {
    DisplayOnly,
    DisplayYesNo,
    KeyboardOnly,
    NoInputNoOutput,
}

impl View for IoCapability {
    type V = IoCapability;

    open spec fn view(&self) -> IoCapability {
        *self
    }
}

impl IoCapability {
    /// The byte that encodes this value.
    pub open spec fn spec_raw(self) -> u8 {
        match self {
            IoCapability::DisplayOnly => 0x00u8,
            IoCapability::DisplayYesNo => 0x01u8,
            IoCapability::KeyboardOnly => 0x02u8,
            IoCapability::NoInputNoOutput => 0x03u8,
        }
    }

    /// The value that a byte encodes, if it encodes one.
    pub open spec fn spec_from_raw(b: u8) -> Option<IoCapability> {
        if b == 0x00u8 {
            Some(IoCapability::DisplayOnly)
        } else if b == 0x01u8 {
            Some(IoCapability::DisplayYesNo)
        } else if b == 0x02u8 {
            Some(IoCapability::KeyboardOnly)
        } else if b == 0x03u8 {
            Some(IoCapability::NoInputNoOutput)
        } else {
            None
        }
    }

    /// The byte that encodes this value.
    pub fn into_raw(self) -> (r: u8)
        ensures
            r == self.spec_raw(),
    {
        match self {
            IoCapability::DisplayOnly => 0x00u8,
            IoCapability::DisplayYesNo => 0x01u8,
            IoCapability::KeyboardOnly => 0x02u8,
            IoCapability::NoInputNoOutput => 0x03u8,
        }
    }

    /// The byte of each value is fixed, each of those bytes decodes to its
    /// value, and no other byte decodes.
    pub proof fn lemma_codes()
        ensures
            IoCapability::DisplayOnly.spec_raw() == 0x00u8,
            IoCapability::DisplayYesNo.spec_raw() == 0x01u8,
            IoCapability::KeyboardOnly.spec_raw() == 0x02u8,
            IoCapability::NoInputNoOutput.spec_raw() == 0x03u8,
            IoCapability::spec_from_raw(0x00u8) == Some(IoCapability::DisplayOnly),
            IoCapability::spec_from_raw(0x01u8) == Some(IoCapability::DisplayYesNo),
            IoCapability::spec_from_raw(0x02u8) == Some(IoCapability::KeyboardOnly),
            IoCapability::spec_from_raw(0x03u8) == Some(IoCapability::NoInputNoOutput),
            forall|b: u8| b != 0x00u8 && b != 0x01u8 && b != 0x02u8 && b != 0x03u8 ==> (#[trigger] IoCapability::spec_from_raw(b)) is None,
            forall|v: IoCapability| (#[trigger] v.spec_hci_bytes()) == seq![v.spec_raw()],
            forall|data: Seq<u8>| data.len() >= 1 ==> (#[trigger] <IoCapability as FromHciBytes>::spec_from_hci_bytes(data)) == match IoCapability::spec_from_raw(data[0]) {
                Some(v) => Ok::<(IoCapability, nat), FromHciBytesError>((v, 1)),
                None => Err::<(IoCapability, nat), FromHciBytesError>(FromHciBytesError::InvalidValue),
            },
    {
    }

    /// The value that a byte encodes, if it encodes one.
    pub fn from_raw(b: u8) -> (r: Option<IoCapability>)
        ensures
            r == Self::spec_from_raw(b),
    {
        match b {
            0x00u8 => Some(IoCapability::DisplayOnly),
            0x01u8 => Some(IoCapability::DisplayYesNo),
            0x02u8 => Some(IoCapability::KeyboardOnly),
            0x03u8 => Some(IoCapability::NoInputNoOutput),
            _ => None,
        }
    }
}

impl<'de> FromHciBytes<'de> for IoCapability {
    open spec fn spec_from_hci_bytes(data: Seq<u8>) -> Result<(IoCapability, nat), FromHciBytesError> {
        if data.len() < 1 {
            Err(FromHciBytesError::InvalidSize)
        } else {
            match IoCapability::spec_from_raw(data[0]) {
                Some(v) => Ok((v, 1)),
                None => Err(FromHciBytesError::InvalidValue),
            }
        }
    }

    fn from_hci_bytes(data: &'de [u8]) -> (r: Result<(IoCapability, &'de [u8]), FromHciBytesError>) {
        if data.len() < 1 {
            return Err(FromHciBytesError::InvalidSize);
        }
        match IoCapability::from_raw(data[0]) {
            Some(v) => {
                let (_, rest) = data.split_at(1);
                Ok((v, rest))
            },
            None => Err(FromHciBytesError::InvalidValue),
        }
    }
}

impl WriteHci for IoCapability {
    open spec fn spec_hci_bytes(&self) -> Seq<u8> {
        seq![self.spec_raw()]
    }

    fn size(&self) -> (r: usize) {
        1
    }

    fn write_hci(&self, out: &mut Vec<u8>) {
        out.push(self.into_raw());
        proof {
            assert(final(out)@ =~= old(out)@ + self.spec_hci_bytes());
        }
    }
}

impl FixedSizeValue for IoCapability {
    open spec fn spec_size() -> nat {
        1
    }

    proof fn lemma_fixed_size(&self) {
    }
}

impl<'de> HciCodec<'de> for IoCapability {
    open spec fn spec_encodable(&self) -> bool {
        true
    }

    proof fn lemma_write_then_read(&self, rest: Seq<u8>) {
        match *self {
            IoCapability::DisplayOnly => {},
            IoCapability::DisplayYesNo => {},
            IoCapability::KeyboardOnly => {},
            IoCapability::NoInputNoOutput => {},
        }
    }
}

/// OobDataPresent.
#[derive(Debug, Clone, Copy, PartialEq, Eq, PartialOrd, Ord, Hash, Structural)]
#[allow(missing_docs)]
pub enum OobDataPresent {
    NotPresent,
    P192Present,
    P256Present,
    P192AndP256Present,
}

impl View for OobDataPresent {
    type V = OobDataPresent;

    open spec fn view(&self) -> OobDataPresent {
        *self
    }
}

impl OobDataPresent {
    /// The byte that encodes this value.
    pub open spec fn spec_raw(self) -> u8 {
        match self {
            OobDataPresent::NotPresent => 0x00u8,
            OobDataPresent::P192Present => 0x01u8,
            OobDataPresent::P256Present => 0x02u8,
            OobDataPresent::P192AndP256Present => 0x03u8,
        }
    }

    /// The value that a byte encodes, if it encodes one.
    pub open spec fn spec_from_raw(b: u8) -> Option<OobDataPresent> {
        if b == 0x00u8 {
            Some(OobDataPresent::NotPresent)
        } else if b == 0x01u8 {
            Some(OobDataPresent::P192Present)
        } else if b == 0x02u8 {
            Some(OobDataPresent::P256Present)
        } else if b == 0x03u8 {
            Some(OobDataPresent::P192AndP256Present)
        } else {
            None
        }
    }

    /// The byte that encodes this value.
    pub fn into_raw(self) -> (r: u8)
        ensures
            r == self.spec_raw(),
    {
        match self {
            OobDataPresent::NotPresent => 0x00u8,
            OobDataPresent::P192Present => 0x01u8,
            OobDataPresent::P256Present => 0x02u8,
            OobDataPresent::P192AndP256Present => 0x03u8,
        }
    }

    /// The byte of each value is fixed, each of those bytes decodes to its
    /// value, and no other byte decodes.
    pub proof fn lemma_codes()
        ensures
            OobDataPresent::NotPresent.spec_raw() == 0x00u8,
            OobDataPresent::P192Present.spec_raw() == 0x01u8,
            OobDataPresent::P256Present.spec_raw() == 0x02u8,
            OobDataPresent::P192AndP256Present.spec_raw() == 0x03u8,
            OobDataPresent::spec_from_raw(0x00u8) == Some(OobDataPresent::NotPresent),
            OobDataPresent::spec_from_raw(0x01u8) == Some(OobDataPresent::P192Present),
            OobDataPresent::spec_from_raw(0x02u8) == Some(OobDataPresent::P256Present),
            OobDataPresent::spec_from_raw(0x03u8) == Some(OobDataPresent::P192AndP256Present),
            forall|b: u8| b != 0x00u8 && b != 0x01u8 && b != 0x02u8 && b != 0x03u8 ==> (#[trigger] OobDataPresent::spec_from_raw(b)) is None,
            forall|v: OobDataPresent| (#[trigger] v.spec_hci_bytes()) == seq![v.spec_raw()],
            forall|data: Seq<u8>| data.len() >= 1 ==> (#[trigger] <OobDataPresent as FromHciBytes>::spec_from_hci_bytes(data)) == match OobDataPresent::spec_from_raw(data[0]) {
                Some(v) => Ok::<(OobDataPresent, nat), FromHciBytesError>((v, 1)),
                None => Err::<(OobDataPresent, nat), FromHciBytesError>(FromHciBytesError::InvalidValue),
            },
    {
    }

    /// The value that a byte encodes, if it encodes one.
    pub fn from_raw(b: u8) -> (r: Option<OobDataPresent>)
        ensures
            r == Self::spec_from_raw(b),
    {
        match b {
            0x00u8 => Some(OobDataPresent::NotPresent),
            0x01u8 => Some(OobDataPresent::P192Present),
            0x02u8 => Some(OobDataPresent::P256Present),
            0x03u8 => Some(OobDataPresent::P192AndP256Present),
            _ => None,
        }
    }
}

impl<'de> FromHciBytes<'de> for OobDataPresent {
    open spec fn spec_from_hci_bytes(data: Seq<u8>) -> Result<(OobDataPresent, nat), FromHciBytesError> {
        if data.len() < 1 {
            Err(FromHciBytesError::InvalidSize)
        } else {
            match OobDataPresent::spec_from_raw(data[0]) {
                Some(v) => Ok((v, 1)),
                None => Err(FromHciBytesError::InvalidValue),
            }
        }
    }

    fn from_hci_bytes(data: &'de [u8]) -> (r: Result<(OobDataPresent, &'de [u8]), FromHciBytesError>) {
        if data.len() < 1 {
            return Err(FromHciBytesError::InvalidSize);
        }
        match OobDataPresent::from_raw(data[0]) {
            Some(v) => {
                let (_, rest) = data.split_at(1);
                Ok((v, rest))
            },
            None => Err(FromHciBytesError::InvalidValue),
        }
    }
}

impl WriteHci for OobDataPresent {
    open spec fn spec_hci_bytes(&self) -> Seq<u8> {
        seq![self.spec_raw()]
    }

    fn size(&self) -> (r: usize) {
        1
    }

    fn write_hci(&self, out: &mut Vec<u8>) {
        out.push(self.into_raw());
        proof {
            assert(final(out)@ =~= old(out)@ + self.spec_hci_bytes());
        }
    }
}

impl FixedSizeValue for OobDataPresent {
    open spec fn spec_size() -> nat {
        1
    }

    proof fn lemma_fixed_size(&self) {
    }
}

impl<'de> HciCodec<'de> for OobDataPresent {
    open spec fn spec_encodable(&self) -> bool {
        true
    }

    proof fn lemma_write_then_read(&self, rest: Seq<u8>) {
        match *self {
            OobDataPresent::NotPresent => {},
            OobDataPresent::P192Present => {},
            OobDataPresent::P256Present => {},
            OobDataPresent::P192AndP256Present => {},
        }
    }
}

/// AuthenticationRequirements.
#[derive(Debug, Clone, Copy, PartialEq, Eq, PartialOrd, Ord, Hash, Structural)]
#[allow(missing_docs)]
pub enum AuthenticationRequirements {
    MitmNotRequiredNoBonding,
    MitmRequiredNoBonding,
    MitmNotRequiredDedicatedBonding,
    MitmRequiredDedicatedBonding,
    MitmNotRequiredGeneralBonding,
    MitmRequiredGeneralBonding,
}

impl View for AuthenticationRequirements {
    type V = AuthenticationRequirements;

    open spec fn view(&self) -> AuthenticationRequirements {
        *self
    }
}

impl AuthenticationRequirements {
    /// The byte that encodes this value.
    pub open spec fn spec_raw(self) -> u8 {
        match self {
            AuthenticationRequirements::MitmNotRequiredNoBonding => 0x00u8,
            AuthenticationRequirements::MitmRequiredNoBonding => 0x01u8,
            AuthenticationRequirements::MitmNotRequiredDedicatedBonding => 0x02u8,
            AuthenticationRequirements::MitmRequiredDedicatedBonding => 0x03u8,
            AuthenticationRequirements::MitmNotRequiredGeneralBonding => 0x04u8,
            AuthenticationRequirements::MitmRequiredGeneralBonding => 0x05u8,
        }
    }

    /// The value that a byte encodes, if it encodes one.
    pub open spec fn spec_from_raw(b: u8) -> Option<AuthenticationRequirements> {
        if b == 0x00u8 {
            Some(AuthenticationRequirements::MitmNotRequiredNoBonding)
        } else if b == 0x01u8 {
            Some(AuthenticationRequirements::MitmRequiredNoBonding)
        } else if b == 0x02u8 {
            Some(AuthenticationRequirements::MitmNotRequiredDedicatedBonding)
        } else if b == 0x03u8 {
            Some(AuthenticationRequirements::MitmRequiredDedicatedBonding)
        } else if b == 0x04u8 {
            Some(AuthenticationRequirements::MitmNotRequiredGeneralBonding)
        } else if b == 0x05u8 {
            Some(AuthenticationRequirements::MitmRequiredGeneralBonding)
        } else {
            None
        }
    }

    /// The byte that encodes this value.
    pub fn into_raw(self) -> (r: u8)
        ensures
            r == self.spec_raw(),
    {
        match self {
            AuthenticationRequirements::MitmNotRequiredNoBonding => 0x00u8,
            AuthenticationRequirements::MitmRequiredNoBonding => 0x01u8,
            AuthenticationRequirements::MitmNotRequiredDedicatedBonding => 0x02u8,
            AuthenticationRequirements::MitmRequiredDedicatedBonding => 0x03u8,
            AuthenticationRequirements::MitmNotRequiredGeneralBonding => 0x04u8,
            AuthenticationRequirements::MitmRequiredGeneralBonding => 0x05u8,
        }
    }

    /// The byte of each value is fixed, each of those bytes decodes to its
    /// value, and no other byte decodes.
    pub proof fn lemma_codes()
        ensures
            AuthenticationRequirements::MitmNotRequiredNoBonding.spec_raw() == 0x00u8,
            AuthenticationRequirements::MitmRequiredNoBonding.spec_raw() == 0x01u8,
            AuthenticationRequirements::MitmNotRequiredDedicatedBonding.spec_raw() == 0x02u8,
            AuthenticationRequirements::MitmRequiredDedicatedBonding.spec_raw() == 0x03u8,
            AuthenticationRequirements::MitmNotRequiredGeneralBonding.spec_raw() == 0x04u8,
            AuthenticationRequirements::MitmRequiredGeneralBonding.spec_raw() == 0x05u8,
            AuthenticationRequirements::spec_from_raw(0x00u8) == Some(AuthenticationRequirements::MitmNotRequiredNoBonding),
            AuthenticationRequirements::spec_from_raw(0x01u8) == Some(AuthenticationRequirements::MitmRequiredNoBonding),
            AuthenticationRequirements::spec_from_raw(0x02u8) == Some(AuthenticationRequirements::MitmNotRequiredDedicatedBonding),
            AuthenticationRequirements::spec_from_raw(0x03u8) == Some(AuthenticationRequirements::MitmRequiredDedicatedBonding),
            AuthenticationRequirements::spec_from_raw(0x04u8) == Some(AuthenticationRequirements::MitmNotRequiredGeneralBonding),
            AuthenticationRequirements::spec_from_raw(0x05u8) == Some(AuthenticationRequirements::MitmRequiredGeneralBonding),
            forall|b: u8| b != 0x00u8 && b != 0x01u8 && b != 0x02u8 && b != 0x03u8 && b != 0x04u8 && b != 0x05u8 ==> (#[trigger] AuthenticationRequirements::spec_from_raw(b)) is None,
            forall|v: AuthenticationRequirements| (#[trigger] v.spec_hci_bytes()) == seq![v.spec_raw()],
            forall|data: Seq<u8>| data.len() >= 1 ==> (#[trigger] <AuthenticationRequirements as FromHciBytes>::spec_from_hci_bytes(data)) == match AuthenticationRequirements::spec_from_raw(data[0]) {
                Some(v) => Ok::<(AuthenticationRequirements, nat), FromHciBytesError>((v, 1)),
                None => Err::<(AuthenticationRequirements, nat), FromHciBytesError>(FromHciBytesError::InvalidValue),
            },
    {
    }

    /// The value that a byte encodes, if it encodes one.
    pub fn from_raw(b: u8) -> (r: Option<AuthenticationRequirements>)
        ensures
            r == Self::spec_from_raw(b),
    {
        match b {
            0x00u8 => Some(AuthenticationRequirements::MitmNotRequiredNoBonding),
            0x01u8 => Some(AuthenticationRequirements::MitmRequiredNoBonding),
            0x02u8 => Some(AuthenticationRequirements::MitmNotRequiredDedicatedBonding),
            0x03u8 => Some(AuthenticationRequirements::MitmRequiredDedicatedBonding),
            0x04u8 => Some(AuthenticationRequirements::MitmNotRequiredGeneralBonding),
            0x05u8 => Some(AuthenticationRequirements::MitmRequiredGeneralBonding),
            _ => None,
        }
    }
}

impl<'de> FromHciBytes<'de> for AuthenticationRequirements {
    open spec fn spec_from_hci_bytes(data: Seq<u8>) -> Result<(AuthenticationRequirements, nat), FromHciBytesError> {
        if data.len() < 1 {
            Err(FromHciBytesError::InvalidSize)
        } else {
            match AuthenticationRequirements::spec_from_raw(data[0]) {
                Some(v) => Ok((v, 1)),
                None => Err(FromHciBytesError::InvalidValue),
            }
        }
    }

    fn from_hci_bytes(data: &'de [u8]) -> (r: Result<(AuthenticationRequirements, &'de [u8]), FromHciBytesError>) {
        if data.len() < 1 {
            return Err(FromHciBytesError::InvalidSize);
        }
        match AuthenticationRequirements::from_raw(data[0]) {
            Some(v) => {
                let (_, rest) = data.split_at(1);
                Ok((v, rest))
            },
            None => Err(FromHciBytesError::InvalidValue),
        }
    }
}

impl WriteHci for AuthenticationRequirements {
    open spec fn spec_hci_bytes(&self) -> Seq<u8> {
        seq![self.spec_raw()]
    }

    fn size(&self) -> (r: usize) {
        1
    }

    fn write_hci(&self, out: &mut Vec<u8>) {
        out.push(self.into_raw());
        proof {
            assert(final(out)@ =~= old(out)@ + self.spec_hci_bytes());
        }
    }
}

impl FixedSizeValue for AuthenticationRequirements {
    open spec fn spec_size() -> nat {
        1
    }

    proof fn lemma_fixed_size(&self) {
    }
}

impl<'de> HciCodec<'de> for AuthenticationRequirements {
    open spec fn spec_encodable(&self) -> bool {
        true
    }

    proof fn lemma_write_then_read(&self, rest: Seq<u8>) {
        match *self {
            AuthenticationRequirements::MitmNotRequiredNoBonding => {},
            AuthenticationRequirements::MitmRequiredNoBonding => {},
            AuthenticationRequirements::MitmNotRequiredDedicatedBonding => {},
            AuthenticationRequirements::MitmRequiredDedicatedBonding => {},
            AuthenticationRequirements::MitmNotRequiredGeneralBonding => {},
            AuthenticationRequirements::MitmRequiredGeneralBonding => {},
        }
    }
}

/// Role.
#[derive(Debug, Clone, Copy, PartialEq, Eq, PartialOrd, Ord, Hash, Structural)]
#[allow(missing_docs)]
pub enum Role {
    Central,
    Peripheral,
}

impl View for Role {
    type V = Role;

    open spec fn view(&self) -> Role {
        *self
    }
}

impl Role {
    /// The byte that encodes this value.
    pub open spec fn spec_raw(self) -> u8 {
        match self {
            Role::Central => 0x00u8,
            Role::Peripheral => 0x01u8,
        }
    }

    /// The value that a byte encodes, if it encodes one.
    pub open spec fn spec_from_raw(b: u8) -> Option<Role> {
        if b == 0x00u8 {
            Some(Role::Central)
        } else if b == 0x01u8 {
            Some(Role::Peripheral)
        } else {
            None
        }
    }

    /// The byte that encodes this value.
    pub fn into_raw(self) -> (r: u8)
        ensures
            r == self.spec_raw(),
    {
        match self {
            Role::Central => 0x00u8,
            Role::Peripheral => 0x01u8,
        }
    }

    /// The byte of each value is fixed, each of those bytes decodes to its
    /// value, and no other byte decodes.
    pub proof fn lemma_codes()
        ensures
            Role::Central.spec_raw() == 0x00u8,
            Role::Peripheral.spec_raw() == 0x01u8,
            Role::spec_from_raw(0x00u8) == Some(Role::Central),
            Role::spec_from_raw(0x01u8) == Some(Role::Peripheral),
            forall|b: u8| b != 0x00u8 && b != 0x01u8 ==> (#[trigger] Role::spec_from_raw(b)) is None,
            forall|v: Role| (#[trigger] v.spec_hci_bytes()) == seq![v.spec_raw()],
            forall|data: Seq<u8>| data.len() >= 1 ==> (#[trigger] <Role as FromHciBytes>::spec_from_hci_bytes(data)) == match Role::spec_from_raw(data[0]) {
                Some(v) => Ok::<(Role, nat), FromHciBytesError>((v, 1)),
                None => Err::<(Role, nat), FromHciBytesError>(FromHciBytesError::InvalidValue),
            },
    {
    }

    /// The value that a byte encodes, if it encodes one.
    pub fn from_raw(b: u8) -> (r: Option<Role>)
        ensures
            r == Self::spec_from_raw(b),
    {
        match b {
            0x00u8 => Some(Role::Central),
            0x01u8 => Some(Role::Peripheral),
            _ => None,
        }
    }
}

impl<'de> FromHciBytes<'de> for Role {
    open spec fn spec_from_hci_bytes(data: Seq<u8>) -> Result<(Role, nat), FromHciBytesError> {
        if data.len() < 1 {
            Err(FromHciBytesError::InvalidSize)
        } else {
            match Role::spec_from_raw(data[0]) {
                Some(v) => Ok((v, 1)),
                None => Err(FromHciBytesError::InvalidValue),
            }
        }
    }

    fn from_hci_bytes(data: &'de [u8]) -> (r: Result<(Role, &'de [u8]), FromHciBytesError>) {
        if data.len() < 1 {
            return Err(FromHciBytesError::InvalidSize);
        }
        match Role::from_raw(data[0]) {
            Some(v) => {
                let (_, rest) = data.split_at(1);
                Ok((v, rest))
            },
            None => Err(FromHciBytesError::InvalidValue),
        }
    }
}

impl WriteHci for Role {
    open spec fn spec_hci_bytes(&self) -> Seq<u8> {
        seq![self.spec_raw()]
    }

    fn size(&self) -> (r: usize) {
        1
    }

    fn write_hci(&self, out: &mut Vec<u8>) {
        out.push(self.into_raw());
        proof {
            assert(final(out)@ =~= old(out)@ + self.spec_hci_bytes());
        }
    }
}

impl FixedSizeValue for Role {
    open spec fn spec_size() -> nat {
        1
    }

    proof fn lemma_fixed_size(&self) {
    }
}

impl<'de> HciCodec<'de> for Role {
    open spec fn spec_encodable(&self) -> bool {
        true
    }

    proof fn lemma_write_then_read(&self, rest: Seq<u8>) {
        match *self {
            Role::Central => {},
            Role::Peripheral => {},
        }
    }
}

/// RejectReason.
#[derive(Debug, Clone, Copy, PartialEq, Eq, PartialOrd, Ord, Hash, Structural)]
#[allow(missing_docs)]
pub enum RejectReason {
    LimitedResources,
    SecurityReasons,
    UnacceptableBdAddr,
}

impl View for RejectReason {
    type V = RejectReason;

    open spec fn view(&self) -> RejectReason {
        *self
    }
}

impl RejectReason {
    /// The byte that encodes this value.
    pub open spec fn spec_raw(self) -> u8 {
        match self {
            RejectReason::LimitedResources => 0x0du8,
            RejectReason::SecurityReasons => 0x0eu8,
            RejectReason::UnacceptableBdAddr => 0x0fu8,
        }
    }

    /// The value that a byte encodes, if it encodes one.
    pub open spec fn spec_from_raw(b: u8) -> Option<RejectReason> {
        if b == 0x0du8 {
            Some(RejectReason::LimitedResources)
        } else if b == 0x0eu8 {
            Some(RejectReason::SecurityReasons)
        } else if b == 0x0fu8 {
            Some(RejectReason::UnacceptableBdAddr)
        } else {
            None
        }
    }

    /// The byte that encodes this value.
    pub fn into_raw(self) -> (r: u8)
        ensures
            r == self.spec_raw(),
    {
        match self {
            RejectReason::LimitedResources => 0x0du8,
            RejectReason::SecurityReasons => 0x0eu8,
            RejectReason::UnacceptableBdAddr => 0x0fu8,
        }
    }

    /// The byte of each value is fixed, each of those bytes decodes to its
    /// value, and no other byte decodes.
    pub proof fn lemma_codes()
        ensures
            RejectReason::LimitedResources.spec_raw() == 0x0du8,
            RejectReason::SecurityReasons.spec_raw() == 0x0eu8,
            RejectReason::UnacceptableBdAddr.spec_raw() == 0x0fu8,
            RejectReason::spec_from_raw(0x0du8) == Some(RejectReason::LimitedResources),
            RejectReason::spec_from_raw(0x0eu8) == Some(RejectReason::SecurityReasons),
            RejectReason::spec_from_raw(0x0fu8) == Some(RejectReason::UnacceptableBdAddr),
            forall|b: u8| b != 0x0du8 && b != 0x0eu8 && b != 0x0fu8 ==> (#[trigger] RejectReason::spec_from_raw(b)) is None,
            forall|v: RejectReason| (#[trigger] v.spec_hci_bytes()) == seq![v.spec_raw()],
            forall|data: Seq<u8>| data.len() >= 1 ==> (#[trigger] <RejectReason as FromHciBytes>::spec_from_hci_bytes(data)) == match RejectReason::spec_from_raw(data[0]) {
                Some(v) => Ok::<(RejectReason, nat), FromHciBytesError>((v, 1)),
                None => Err::<(RejectReason, nat), FromHciBytesError>(FromHciBytesError::InvalidValue),
            },
    {
    }

    /// The value that a byte encodes, if it encodes one.
    pub fn from_raw(b: u8) -> (r: Option<RejectReason>)
        ensures
            r == Self::spec_from_raw(b),
    {
        match b {
            0x0du8 => Some(RejectReason::LimitedResources),
            0x0eu8 => Some(RejectReason::SecurityReasons),
            0x0fu8 => Some(RejectReason::UnacceptableBdAddr),
            _ => None,
        }
    }
}

impl<'de> FromHciBytes<'de> for RejectReason {
    open spec fn spec_from_hci_bytes(data: Seq<u8>) -> Result<(RejectReason, nat), FromHciBytesError> {
        if data.len() < 1 {
            Err(FromHciBytesError::InvalidSize)
        } else {
            match RejectReason::spec_from_raw(data[0]) {
                Some(v) => Ok((v, 1)),
                None => Err(FromHciBytesError::InvalidValue),
            }
        }
    }

    fn from_hci_bytes(data: &'de [u8]) -> (r: Result<(RejectReason, &'de [u8]), FromHciBytesError>) {
        if data.len() < 1 {
            return Err(FromHciBytesError::InvalidSize);
        }
        match RejectReason::from_raw(data[0]) {
            Some(v) => {
                let (_, rest) = data.split_at(1);
                Ok((v, rest))
            },
            None => Err(FromHciBytesError::InvalidValue),
        }
    }
}

impl WriteHci for RejectReason {
    open spec fn spec_hci_bytes(&self) -> Seq<u8> {
        seq![self.spec_raw()]
    }

    fn size(&self) -> (r: usize) {
        1
    }

    fn write_hci(&self, out: &mut Vec<u8>) {
        out.push(self.into_raw());
        proof {
            assert(final(out)@ =~= old(out)@ + self.spec_hci_bytes());
        }
    }
}

impl FixedSizeValue for RejectReason {
    open spec fn spec_size() -> nat {
        1
    }

    proof fn lemma_fixed_size(&self) {
    }
}

impl<'de> HciCodec<'de> for RejectReason {
    open spec fn spec_encodable(&self) -> bool {
        true
    }

    proof fn lemma_write_then_read(&self, rest: Seq<u8>) {
        match *self {
            RejectReason::LimitedResources => {},
            RejectReason::SecurityReasons => {},
            RejectReason::UnacceptableBdAddr => {},
        }
    }
}

/// KeyFlag.
#[derive(Debug, Clone, Copy, PartialEq, Eq, PartialOrd, Ord, Hash, Structural)]
#[allow(missing_docs)]
pub enum KeyFlag {
    SemiPermanent,
    Temporary,
}

impl View for KeyFlag {
    type V = KeyFlag;

    open spec fn view(&self) -> KeyFlag {
        *self
    }
}

impl KeyFlag {
    /// The byte that encodes this value.
    pub open spec fn spec_raw(self) -> u8 {
        match self {
            KeyFlag::SemiPermanent => 0x00u8,
            KeyFlag::Temporary => 0x01u8,
        }
    }

    /// The value that a byte encodes, if it encodes one.
    pub open spec fn spec_from_raw(b: u8) -> Option<KeyFlag> {
        if b == 0x00u8 {
            Some(KeyFlag::SemiPermanent)
        } else if b == 0x01u8 {
            Some(KeyFlag::Temporary)
        } else {
            None
        }
    }

    /// The byte that encodes this value.
    pub fn into_raw(self) -> (r: u8)
        ensures
            r == self.spec_raw(),
    {
        match self {
            KeyFlag::SemiPermanent => 0x00u8,
            KeyFlag::Temporary => 0x01u8,
        }
    }

    /// The byte of each value is fixed, each of those bytes decodes to its
    /// value, and no other byte decodes.
    pub proof fn lemma_codes()
        ensures
            KeyFlag::SemiPermanent.spec_raw() == 0x00u8,
            KeyFlag::Temporary.spec_raw() == 0x01u8,
            KeyFlag::spec_from_raw(0x00u8) == Some(KeyFlag::SemiPermanent),
            KeyFlag::spec_from_raw(0x01u8) == Some(KeyFlag::Temporary),
            forall|b: u8| b != 0x00u8 && b != 0x01u8 ==> (#[trigger] KeyFlag::spec_from_raw(b)) is None,
            forall|v: KeyFlag| (#[trigger] v.spec_hci_bytes()) == seq![v.spec_raw()],
            forall|data: Seq<u8>| data.len() >= 1 ==> (#[trigger] <KeyFlag as FromHciBytes>::spec_from_hci_bytes(data)) == match KeyFlag::spec_from_raw(data[0]) {
                Some(v) => Ok::<(KeyFlag, nat), FromHciBytesError>((v, 1)),
                None => Err::<(KeyFlag, nat), FromHciBytesError>(FromHciBytesError::InvalidValue),
            },
    {
    }

    /// The value that a byte encodes, if it encodes one.
    pub fn from_raw(b: u8) -> (r: Option<KeyFlag>)
        ensures
            r == Self::spec_from_raw(b),
    {
        match b {
            0x00u8 => Some(KeyFlag::SemiPermanent),
            0x01u8 => Some(KeyFlag::Temporary),
            _ => None,
        }
    }
}

impl<'de> FromHciBytes<'de> for KeyFlag {
    open spec fn spec_from_hci_bytes(data: Seq<u8>) -> Result<(KeyFlag, nat), FromHciBytesError> {
        if data.len() < 1 {
            Err(FromHciBytesError::InvalidSize)
        } else {
            match KeyFlag::spec_from_raw(data[0]) {
                Some(v) => Ok((v, 1)),
                None => Err(FromHciBytesError::InvalidValue),
            }
        }
    }

    fn from_hci_bytes(data: &'de [u8]) -> (r: Result<(KeyFlag, &'de [u8]), FromHciBytesError>) {
        if data.len() < 1 {
            return Err(FromHciBytesError::InvalidSize);
        }
        match KeyFlag::from_raw(data[0]) {
            Some(v) => {
                let (_, rest) = data.split_at(1);
                Ok((v, rest))
            },
            None => Err(FromHciBytesError::InvalidValue),
        }
    }
}

impl WriteHci for KeyFlag {
    open spec fn spec_hci_bytes(&self) -> Seq<u8> {
        seq![self.spec_raw()]
    }

    fn size(&self) -> (r: usize) {
        1
    }

    fn write_hci(&self, out: &mut Vec<u8>) {
        out.push(self.into_raw());
        proof {
            assert(final(out)@ =~= old(out)@ + self.spec_hci_bytes());
        }
    }
}

impl FixedSizeValue for KeyFlag {
    open spec fn spec_size() -> nat {
        1
    }

    proof fn lemma_fixed_size(&self) {
    }
}

impl<'de> HciCodec<'de> for KeyFlag {
    open spec fn spec_encodable(&self) -> bool {
        true
    }

    proof fn lemma_write_then_read(&self, rest: Seq<u8>) {
        match *self {
            KeyFlag::SemiPermanent => {},
            KeyFlag::Temporary => {},
        }
    }
}

/// RetransmissionEffort.
#[derive(Debug, Clone, Copy, PartialEq, Eq, PartialOrd, Ord, Hash, Structural)]
#[allow(missing_docs)]
pub enum RetransmissionEffort {
    NoRetransmissions,
    OptimizePowerConsumption,
    OptimizeLinkQuality,
    DontCare,
}

impl View for RetransmissionEffort {
    type V = RetransmissionEffort;

    open spec fn view(&self) -> RetransmissionEffort {
        *self
    }
}

impl RetransmissionEffort {
    /// The byte that encodes this value.
    pub open spec fn spec_raw(self) -> u8 {
        match self {
            RetransmissionEffort::NoRetransmissions => 0x00u8,
            RetransmissionEffort::OptimizePowerConsumption => 0x01u8,
            RetransmissionEffort::OptimizeLinkQuality => 0x02u8,
            RetransmissionEffort::DontCare => 0xffu8,
        }
    }

    /// The value that a byte encodes, if it encodes one.
    pub open spec fn spec_from_raw(b: u8) -> Option<RetransmissionEffort> {
        if b == 0x00u8 {
            Some(RetransmissionEffort::NoRetransmissions)
        } else if b == 0x01u8 {
            Some(RetransmissionEffort::OptimizePowerConsumption)
        } else if b == 0x02u8 {
            Some(RetransmissionEffort::OptimizeLinkQuality)
        } else if b == 0xffu8 {
            Some(RetransmissionEffort::DontCare)
        } else {
            None
        }
    }

    /// The byte that encodes this value.
    pub fn into_raw(self) -> (r: u8)
        ensures
            r == self.spec_raw(),
    {
        match self {
            RetransmissionEffort::NoRetransmissions => 0x00u8,
            RetransmissionEffort::OptimizePowerConsumption => 0x01u8,
            RetransmissionEffort::OptimizeLinkQuality => 0x02u8,
            RetransmissionEffort::DontCare => 0xffu8,
        }
    }

    /// The byte of each value is fixed, each of those bytes decodes to its
    /// value, and no other byte decodes.
    pub proof fn lemma_codes()
        ensures
            RetransmissionEffort::NoRetransmissions.spec_raw() == 0x00u8,
            RetransmissionEffort::OptimizePowerConsumption.spec_raw() == 0x01u8,
            RetransmissionEffort::OptimizeLinkQuality.spec_raw() == 0x02u8,
            RetransmissionEffort::DontCare.spec_raw() == 0xffu8,
            RetransmissionEffort::spec_from_raw(0x00u8) == Some(RetransmissionEffort::NoRetransmissions),
            RetransmissionEffort::spec_from_raw(0x01u8) == Some(RetransmissionEffort::OptimizePowerConsumption),
            RetransmissionEffort::spec_from_raw(0x02u8) == Some(RetransmissionEffort::OptimizeLinkQuality),
            RetransmissionEffort::spec_from_raw(0xffu8) == Some(RetransmissionEffort::DontCare),
            forall|b: u8| b != 0x00u8 && b != 0x01u8 && b != 0x02u8 && b != 0xffu8 ==> (#[trigger] RetransmissionEffort::spec_from_raw(b)) is None,
            forall|v: RetransmissionEffort| (#[trigger] v.spec_hci_bytes()) == seq![v.spec_raw()],
            forall|data: Seq<u8>| data.len() >= 1 ==> (#[trigger] <RetransmissionEffort as FromHciBytes>::spec_from_hci_bytes(data)) == match RetransmissionEffort::spec_from_raw(data[0]) {
                Some(v) => Ok::<(RetransmissionEffort, nat), FromHciBytesError>((v, 1)),
                None => Err::<(RetransmissionEffort, nat), FromHciBytesError>(FromHciBytesError::InvalidValue),
            },
    {
    }

    /// The value that a byte encodes, if it encodes one.
    pub fn from_raw(b: u8) -> (r: Option<RetransmissionEffort>)
        ensures
            r == Self::spec_from_raw(b),
    {
        match b {
            0x00u8 => Some(RetransmissionEffort::NoRetransmissions),
            0x01u8 => Some(RetransmissionEffort::OptimizePowerConsumption),
            0x02u8 => Some(RetransmissionEffort::OptimizeLinkQuality),
            0xffu8 => Some(RetransmissionEffort::DontCare),
            _ => None,
        }
    }
}

impl<'de> FromHciBytes<'de> for RetransmissionEffort {
    open spec fn spec_from_hci_bytes(data: Seq<u8>) -> Result<(RetransmissionEffort, nat), FromHciBytesError> {
        if data.len() < 1 {
            Err(FromHciBytesError::InvalidSize)
        } else {
            match RetransmissionEffort::spec_from_raw(data[0]) {
                Some(v) => Ok((v, 1)),
                None => Err(FromHciBytesError::InvalidValue),
            }
        }
    }

    fn from_hci_bytes(data: &'de [u8]) -> (r: Result<(RetransmissionEffort, &'de [u8]), FromHciBytesError>) {
        if data.len() < 1 {
            return Err(FromHciBytesError::InvalidSize);
        }
        match RetransmissionEffort::from_raw(data[0]) {
            Some(v) => {
                let (_, rest) = data.split_at(1);
                Ok((v, rest))
            },
            None => Err(FromHciBytesError::InvalidValue),
        }
    }
}

impl WriteHci for RetransmissionEffort {
    open spec fn spec_hci_bytes(&self) -> Seq<u8> {
        seq![self.spec_raw()]
    }

    fn size(&self) -> (r: usize) {
        1
    }

    fn write_hci(&self, out: &mut Vec<u8>) {
        out.push(self.into_raw());
        proof {
            assert(final(out)@ =~= old(out)@ + self.spec_hci_bytes());
        }
    }
}

impl FixedSizeValue for RetransmissionEffort {
    open spec fn spec_size() -> nat {
        1
    }

    proof fn lemma_fixed_size(&self) {
    }
}

impl<'de> HciCodec<'de> for RetransmissionEffort {
    open spec fn spec_encodable(&self) -> bool {
        true
    }

    proof fn lemma_write_then_read(&self, rest: Seq<u8>) {
        match *self {
            RetransmissionEffort::NoRetransmissions => {},
            RetransmissionEffort::OptimizePowerConsumption => {},
            RetransmissionEffort::OptimizeLinkQuality => {},
            RetransmissionEffort::DontCare => {},
        }
    }
}

/// EnhancedSetupSynchronousConnectionParams parameter
#[derive(Debug, Clone, Copy, PartialEq, Eq, PartialOrd, Ord, Hash)]
#[allow(missing_docs)]
pub struct EnhancedSetupSynchronousConnectionParams {
    pub handle: ConnHandle,
    pub transmit_bandwidth: u32,
    pub receive_bandwidth: u32,
    pub transmit_coding_format: [u8; 5],
    pub receive_coding_format: [u8; 5],
    pub transmit_codec_frame_size: u16,
    pub receive_codec_frame_size: u16,
    pub input_bandwidth: u32,
    pub output_bandwidth: u32,
    pub input_coding_format: [u8; 5],
    pub output_coding_format: [u8; 5],
    pub input_coded_data_size: u16,
    pub output_coded_data_size: u16,
    pub input_pcm_data_format: u8,
    pub output_pcm_data_format: u8,
    pub input_pcm_sample_payload_msb_position: u8,
    pub output_pcm_sample_payload_msb_position: u8,
    pub input_data_path: u8,
    pub output_data_path: u8,
    pub input_transport_unit_size: u8,
    pub output_transport_unit_size: u8,
    pub max_latency: u16,
    pub packet_type: SyncPacketType,
    pub retransmission_effort: RetransmissionEffort,
}

/// The value of a [`EnhancedSetupSynchronousConnectionParams`], with byte slices taken as sequences.
#[allow(missing_docs)]
pub struct EnhancedSetupSynchronousConnectionParamsView {
    pub handle: u16,
    pub transmit_bandwidth: u32,
    pub receive_bandwidth: u32,
    pub transmit_coding_format: Seq<u8>,
    pub receive_coding_format: Seq<u8>,
    pub transmit_codec_frame_size: u16,
    pub receive_codec_frame_size: u16,
    pub input_bandwidth: u32,
    pub output_bandwidth: u32,
    pub input_coding_format: Seq<u8>,
    pub output_coding_format: Seq<u8>,
    pub input_coded_data_size: u16,
    pub output_coded_data_size: u16,
    pub input_pcm_data_format: u8,
    pub output_pcm_data_format: u8,
    pub input_pcm_sample_payload_msb_position: u8,
    pub output_pcm_sample_payload_msb_position: u8,
    pub input_data_path: u8,
    pub output_data_path: u8,
    pub input_transport_unit_size: u8,
    pub output_transport_unit_size: u8,
    pub max_latency: u16,
    pub packet_type: Seq<u8>,
    pub retransmission_effort: RetransmissionEffort,
}

impl View for EnhancedSetupSynchronousConnectionParams {
    type V = EnhancedSetupSynchronousConnectionParamsView;

    open spec fn view(&self) -> EnhancedSetupSynchronousConnectionParamsView {
        EnhancedSetupSynchronousConnectionParamsView { handle: self.handle@, transmit_bandwidth: self.transmit_bandwidth@, receive_bandwidth: self.receive_bandwidth@, transmit_coding_format: self.transmit_coding_format@, receive_coding_format: self.receive_coding_format@, transmit_codec_frame_size: self.transmit_codec_frame_size@, receive_codec_frame_size: self.receive_codec_frame_size@, input_bandwidth: self.input_bandwidth@, output_bandwidth: self.output_bandwidth@, input_coding_format: self.input_coding_format@, output_coding_format: self.output_coding_format@, input_coded_data_size: self.input_coded_data_size@, output_coded_data_size: self.output_coded_data_size@, input_pcm_data_format: self.input_pcm_data_format@, output_pcm_data_format: self.output_pcm_data_format@, input_pcm_sample_payload_msb_position: self.input_pcm_sample_payload_msb_position@, output_pcm_sample_payload_msb_position: self.output_pcm_sample_payload_msb_position@, input_data_path: self.input_data_path@, output_data_path: self.output_data_path@, input_transport_unit_size: self.input_transport_unit_size@, output_transport_unit_size: self.output_transport_unit_size@, max_latency: self.max_latency@, packet_type: self.packet_type@, retransmission_effort: self.retransmission_effort@ }
    }
}

impl WriteHci for EnhancedSetupSynchronousConnectionParams {
    open spec fn spec_hci_bytes(&self) -> Seq<u8> {
        self.handle.spec_hci_bytes() + self.transmit_bandwidth.spec_hci_bytes() + self.receive_bandwidth.spec_hci_bytes() + self.transmit_coding_format.spec_hci_bytes() + self.receive_coding_format.spec_hci_bytes() + self.transmit_codec_frame_size.spec_hci_bytes() + self.receive_codec_frame_size.spec_hci_bytes() + self.input_bandwidth.spec_hci_bytes() + self.output_bandwidth.spec_hci_bytes() + self.input_coding_format.spec_hci_bytes() + self.output_coding_format.spec_hci_bytes() + self.input_coded_data_size.spec_hci_bytes() + self.output_coded_data_size.spec_hci_bytes() + self.input_pcm_data_format.spec_hci_bytes() + self.output_pcm_data_format.spec_hci_bytes() + self.input_pcm_sample_payload_msb_position.spec_hci_bytes() + self.output_pcm_sample_payload_msb_position.spec_hci_bytes() + self.input_data_path.spec_hci_bytes() + self.output_data_path.spec_hci_bytes() + self.input_transport_unit_size.spec_hci_bytes() + self.output_transport_unit_size.spec_hci_bytes() + self.max_latency.spec_hci_bytes() + self.packet_type.spec_hci_bytes() + self.retransmission_effort.spec_hci_bytes()
    }

    fn size(&self) -> (r: usize) {
        let mut n = self.handle.size();
        proof {
            assert(self.handle.spec_hci_bytes() + self.transmit_bandwidth.spec_hci_bytes() =~= (self.handle.spec_hci_bytes() + self.transmit_bandwidth.spec_hci_bytes()));
        }
        n = n + self.transmit_bandwidth.size();
        proof {
            assert(self.handle.spec_hci_bytes() + self.transmit_bandwidth.spec_hci_bytes() + self.receive_bandwidth.spec_hci_bytes() =~= (self.handle.spec_hci_bytes() + self.transmit_bandwidth.spec_hci_bytes() + self.receive_bandwidth.spec_hci_bytes()));
        }
        n = n + self.receive_bandwidth.size();
        proof {
            assert(self.handle.spec_hci_bytes() + self.transmit_bandwidth.spec_hci_bytes() + self.receive_bandwidth.spec_hci_bytes() + self.transmit_coding_format.spec_hci_bytes() =~= (self.handle.spec_hci_bytes() + self.transmit_bandwidth.spec_hci_bytes() + self.receive_bandwidth.spec_hci_bytes() + self.transmit_coding_format.spec_hci_bytes()));
        }
        n = n + self.transmit_coding_format.size();
        proof {
            assert(self.handle.spec_hci_bytes() + self.transmit_bandwidth.spec_hci_bytes() + self.receive_bandwidth.spec_hci_bytes() + self.transmit_coding_format.spec_hci_bytes() + self.receive_coding_format.spec_hci_bytes() =~= (self.handle.spec_hci_bytes() + self.transmit_bandwidth.spec_hci_bytes() + self.receive_bandwidth.spec_hci_bytes() + self.transmit_coding_format.spec_hci_bytes() + self.receive_coding_format.spec_hci_bytes()));
        }
        n = n + self.receive_coding_format.size();
        proof {
            assert(self.handle.spec_hci_bytes() + self.transmit_bandwidth.spec_hci_bytes() + self.receive_bandwidth.spec_hci_bytes() + self.transmit_coding_format.spec_hci_bytes() + self.receive_coding_format.spec_hci_bytes() + self.transmit_codec_frame_size.spec_hci_bytes() =~= (self.handle.spec_hci_bytes() + self.transmit_bandwidth.spec_hci_bytes() + self.receive_bandwidth.spec_hci_bytes() + self.transmit_coding_format.spec_hci_bytes() + self.receive_coding_format.spec_hci_bytes() + self.transmit_codec_frame_size.spec_hci_bytes()));
        }
        n = n + self.transmit_codec_frame_size.size();
        proof {
            assert(self.handle.spec_hci_bytes() + self.transmit_bandwidth.spec_hci_bytes() + self.receive_bandwidth.spec_hci_bytes() + self.transmit_coding_format.spec_hci_bytes() + self.receive_coding_format.spec_hci_bytes() + self.transmit_codec_frame_size.spec_hci_bytes() + self.receive_codec_frame_size.spec_hci_bytes() =~= (self.handle.spec_hci_bytes() + self.transmit_bandwidth.spec_hci_bytes() + self.receive_bandwidth.spec_hci_bytes() + self.transmit_coding_format.spec_hci_bytes() + self.receive_coding_format.spec_hci_bytes() + self.transmit_codec_frame_size.spec_hci_bytes() + self.receive_codec_frame_size.spec_hci_bytes()));
        }
        n = n + self.receive_codec_frame_size.size();
        proof {
            assert(self.handle.spec_hci_bytes() + self.transmit_bandwidth.spec_hci_bytes() + self.receive_bandwidth.spec_hci_bytes() + self.transmit_coding_format.spec_hci_bytes() + self.receive_coding_format.spec_hci_bytes() + self.transmit_codec_frame_size.spec_hci_bytes() + self.receive_codec_frame_size.spec_hci_bytes() + self.input_bandwidth.spec_hci_bytes() =~= (self.handle.spec_hci_bytes() + self.transmit_bandwidth.spec_hci_bytes() + self.receive_bandwidth.spec_hci_bytes() + self.transmit_coding_format.spec_hci_bytes() + self.receive_coding_format.spec_hci_bytes() + self.transmit_codec_frame_size.spec_hci_bytes() + self.receive_codec_frame_size.spec_hci_bytes() + self.input_bandwidth.spec_hci_bytes()));
        }
        n = n + self.input_bandwidth.size();
        proof {
            assert(self.handle.spec_hci_bytes() + self.transmit_bandwidth.spec_hci_bytes() + self.receive_bandwidth.spec_hci_bytes() + self.transmit_coding_format.spec_hci_bytes() + self.receive_coding_format.spec_hci_bytes() + self.transmit_codec_frame_size.spec_hci_bytes() + self.receive_codec_frame_size.spec_hci_bytes() + self.input_bandwidth.spec_hci_bytes() + self.output_bandwidth.spec_hci_bytes() =~= (self.handle.spec_hci_bytes() + self.transmit_bandwidth.spec_hci_bytes() + self.receive_bandwidth.spec_hci_bytes() + self.transmit_coding_format.spec_hci_bytes() + self.receive_coding_format.spec_hci_bytes() + self.transmit_codec_frame_size.spec_hci_bytes() + self.receive_codec_frame_size.spec_hci_bytes() + self.input_bandwidth.spec_hci_bytes() + self.output_bandwidth.spec_hci_bytes()));
        }
        n = n + self.output_bandwidth.size();
        proof {
            assert(self.handle.spec_hci_bytes() + self.transmit_bandwidth.spec_hci_bytes() + self.receive_bandwidth.spec_hci_bytes() + self.transmit_coding_format.spec_hci_bytes() + self.receive_coding_format.spec_hci_bytes() + self.transmit_codec_frame_size.spec_hci_bytes() + self.receive_codec_frame_size.spec_hci_bytes() + self.input_bandwidth.spec_hci_bytes() + self.output_bandwidth.spec_hci_bytes() + self.input_coding_format.spec_hci_bytes() =~= (self.handle.spec_hci_bytes() + self.transmit_bandwidth.spec_hci_bytes() + self.receive_bandwidth.spec_hci_bytes() + self.transmit_coding_format.spec_hci_bytes() + self.receive_coding_format.spec_hci_bytes() + self.transmit_codec_frame_size.spec_hci_bytes() + self.receive_codec_frame_size.spec_hci_bytes() + self.input_bandwidth.spec_hci_bytes() + self.output_bandwidth.spec_hci_bytes() + self.input_coding_format.spec_hci_bytes()));
        }
        n = n + self.input_coding_format.size();
        proof {
            assert(self.handle.spec_hci_bytes() + self.transmit_bandwidth.spec_hci_bytes() + self.receive_bandwidth.spec_hci_bytes() + self.transmit_coding_format.spec_hci_bytes() + self.receive_coding_format.spec_hci_bytes() + self.transmit_codec_frame_size.spec_hci_bytes() + self.receive_codec_frame_size.spec_hci_bytes() + self.input_bandwidth.spec_hci_bytes() + self.output_bandwidth.spec_hci_bytes() + self.input_coding_format.spec_hci_bytes() + self.output_coding_format.spec_hci_bytes() =~= (self.handle.spec_hci_bytes() + self.transmit_bandwidth.spec_hci_bytes() + self.receive_bandwidth.spec_hci_bytes() + self.transmit_coding_format.spec_hci_bytes() + self.receive_coding_format.spec_hci_bytes() + self.transmit_codec_frame_size.spec_hci_bytes() + self.receive_codec_frame_size.spec_hci_bytes() + self.input_bandwidth.spec_hci_bytes() + self.output_bandwidth.spec_hci_bytes() + self.input_coding_format.spec_hci_bytes() + self.output_coding_format.spec_hci_bytes()));
        }
        n = n + self.output_coding_format.size();
        proof {
            assert(self.handle.spec_hci_bytes() + self.transmit_bandwidth.spec_hci_bytes() + self.receive_bandwidth.spec_hci_bytes() + self.transmit_coding_format.spec_hci_bytes() + self.receive_coding_format.spec_hci_bytes() + self.transmit_codec_frame_size.spec_hci_bytes() + self.receive_codec_frame_size.spec_hci_bytes() + self.input_bandwidth.spec_hci_bytes() + self.output_bandwidth.spec_hci_bytes() + self.input_coding_format.spec_hci_bytes() + self.output_coding_format.spec_hci_bytes() + self.input_coded_data_size.spec_hci_bytes() =~= (self.handle.spec_hci_bytes() + self.transmit_bandwidth.spec_hci_bytes() + self.receive_bandwidth.spec_hci_bytes() + self.transmit_coding_format.spec_hci_bytes() + self.receive_coding_format.spec_hci_bytes() + self.transmit_codec_frame_size.spec_hci_bytes() + self.receive_codec_frame_size.spec_hci_bytes() + self.input_bandwidth.spec_hci_bytes() + self.output_bandwidth.spec_hci_bytes() + self.input_coding_format.spec_hci_bytes() + self.output_coding_format.spec_hci_bytes() + self.input_coded_data_size.spec_hci_bytes()));
        }
        n = n + self.input_coded_data_size.size();
        proof {
            assert(self.handle.spec_hci_bytes() + self.transmit_bandwidth.spec_hci_bytes() + self.receive_bandwidth.spec_hci_bytes() + self.transmit_coding_format.spec_hci_bytes() + self.receive_coding_format.spec_hci_bytes() + self.transmit_codec_frame_size.spec_hci_bytes() + self.receive_codec_frame_size.spec_hci_bytes() + self.input_bandwidth.spec_hci_bytes() + self.output_bandwidth.spec_hci_bytes() + self.input_coding_format.spec_hci_bytes() + self.output_coding_format.spec_hci_bytes() + self.input_coded_data_size.spec_hci_bytes() + self.output_coded_data_size.spec_hci_bytes() =~= (self.handle.spec_hci_bytes() + self.transmit_bandwidth.spec_hci_bytes() + self.receive_bandwidth.spec_hci_bytes() + self.transmit_coding_format.spec_hci_bytes() + self.receive_coding_format.spec_hci_bytes() + self.transmit_codec_frame_size.spec_hci_bytes() + self.receive_codec_frame_size.spec_hci_bytes() + self.input_bandwidth.spec_hci_bytes() + self.output_bandwidth.spec_hci_bytes() + self.input_coding_format.spec_hci_bytes() + self.output_coding_format.spec_hci_bytes() + self.input_coded_data_size.spec_hci_bytes() + self.output_coded_data_size.spec_hci_bytes()));
        }
        n = n + self.output_coded_data_size.size();
        proof {
            assert(self.handle.spec_hci_bytes() + self.transmit_bandwidth.spec_hci_bytes() + self.receive_bandwidth.spec_hci_bytes() + self.transmit_coding_format.spec_hci_bytes() + self.receive_coding_format.spec_hci_bytes() + self.transmit_codec_frame_size.spec_hci_bytes() + self.receive_codec_frame_size.spec_hci_bytes() + self.input_bandwidth.spec_hci_bytes() + self.output_bandwidth.spec_hci_bytes() + self.input_coding_format.spec_hci_bytes() + self.output_coding_format.spec_hci_bytes() + self.input_coded_data_size.spec_hci_bytes() + self.output_coded_data_size.spec_hci_bytes() + self.input_pcm_data_format.spec_hci_bytes() =~= (self.handle.spec_hci_bytes() + self.transmit_bandwidth.spec_hci_bytes() + self.receive_bandwidth.spec_hci_bytes() + self.transmit_coding_format.spec_hci_bytes() + self.receive_coding_format.spec_hci_bytes() + self.transmit_codec_frame_size.spec_hci_bytes() + self.receive_codec_frame_size.spec_hci_bytes() + self.input_bandwidth.spec_hci_bytes() + self.output_bandwidth.spec_hci_bytes() + self.input_coding_format.spec_hci_bytes() + self.output_coding_format.spec_hci_bytes() + self.input_coded_data_size.spec_hci_bytes() + self.output_coded_data_size.spec_hci_bytes() + self.input_pcm_data_format.spec_hci_bytes()));
        }
        n = n + self.input_pcm_data_format.size();
        proof {
            assert(self.handle.spec_hci_bytes() + self.transmit_bandwidth.spec_hci_bytes() + self.receive_bandwidth.spec_hci_bytes() + self.transmit_coding_format.spec_hci_bytes() + self.receive_coding_format.spec_hci_bytes() + self.transmit_codec_frame_size.spec_hci_bytes() + self.receive_codec_frame_size.spec_hci_bytes() + self.input_bandwidth.spec_hci_bytes() + self.output_bandwidth.spec_hci_bytes() + self.input_coding_format.spec_hci_bytes() + self.output_coding_format.spec_hci_bytes() + self.input_coded_data_size.spec_hci_bytes() + self.output_coded_data_size.spec_hci_bytes() + self.input_pcm_data_format.spec_hci_bytes() + self.output_pcm_data_format.spec_hci_bytes() =~= (self.handle.spec_hci_bytes() + self.transmit_bandwidth.spec_hci_bytes() + self.receive_bandwidth.spec_hci_bytes() + self.transmit_coding_format.spec_hci_bytes() + self.receive_coding_format.spec_hci_bytes() + self.transmit_codec_frame_size.spec_hci_bytes() + self.receive_codec_frame_size.spec_hci_bytes() + self.input_bandwidth.spec_hci_bytes() + self.output_bandwidth.spec_hci_bytes() + self.input_coding_format.spec_hci_bytes() + self.output_coding_format.spec_hci_bytes() + self.input_coded_data_size.spec_hci_bytes() + self.output_coded_data_size.spec_hci_bytes() + self.input_pcm_data_format.spec_hci_bytes() + self.output_pcm_data_format.spec_hci_bytes()));
        }
        n = n + self.output_pcm_data_format.size();
        proof {
            assert(self.handle.spec_hci_bytes() + self.transmit_bandwidth.spec_hci_bytes() + self.receive_bandwidth.spec_hci_bytes() + self.transmit_coding_format.spec_hci_bytes() + self.receive_coding_format.spec_hci_bytes() + self.transmit_codec_frame_size.spec_hci_bytes() + self.receive_codec_frame_size.spec_hci_bytes() + self.input_bandwidth.spec_hci_bytes() + self.output_bandwidth.spec_hci_bytes() + self.input_coding_format.spec_hci_bytes() + self.output_coding_format.spec_hci_bytes() + self.input_coded_data_size.spec_hci_bytes() + self.output_coded_data_size.spec_hci_bytes() + self.input_pcm_data_format.spec_hci_bytes() + self.output_pcm_data_format.spec_hci_bytes() + self.input_pcm_sample_payload_msb_position.spec_hci_bytes() =~= (self.handle.spec_hci_bytes() + self.transmit_bandwidth.spec_hci_bytes() + self.receive_bandwidth.spec_hci_bytes() + self.transmit_coding_format.spec_hci_bytes() + self.receive_coding_format.spec_hci_bytes() + self.transmit_codec_frame_size.spec_hci_bytes() + self.receive_codec_frame_size.spec_hci_bytes() + self.input_bandwidth.spec_hci_bytes() + self.output_bandwidth.spec_hci_bytes() + self.input_coding_format.spec_hci_bytes() + self.output_coding_format.spec_hci_bytes() + self.input_coded_data_size.spec_hci_bytes() + self.output_coded_data_size.spec_hci_bytes() + self.input_pcm_data_format.spec_hci_bytes() + self.output_pcm_data_format.spec_hci_bytes() + self.input_pcm_sample_payload_msb_position.spec_hci_bytes()));
        }
        n = n + self.input_pcm_sample_payload_msb_position.size();
        proof {
            assert(self.handle.spec_hci_bytes() + self.transmit_bandwidth.spec_hci_bytes() + self.receive_bandwidth.spec_hci_bytes() + self.transmit_coding_format.spec_hci_bytes() + self.receive_coding_format.spec_hci_bytes() + self.transmit_codec_frame_size.spec_hci_bytes() + self.receive_codec_frame_size.spec_hci_bytes() + self.input_bandwidth.spec_hci_bytes() + self.output_bandwidth.spec_hci_bytes() + self.input_coding_format.spec_hci_bytes() + self.output_coding_format.spec_hci_bytes() + self.input_coded_data_size.spec_hci_bytes() + self.output_coded_data_size.spec_hci_bytes() + self.input_pcm_data_format.spec_hci_bytes() + self.output_pcm_data_format.spec_hci_bytes() + self.input_pcm_sample_payload_msb_position.spec_hci_bytes() + self.output_pcm_sample_payload_msb_position.spec_hci_bytes() =~= (self.handle.spec_hci_bytes() + self.transmit_bandwidth.spec_hci_bytes() + self.receive_bandwidth.spec_hci_bytes() + self.transmit_coding_format.spec_hci_bytes() + self.receive_coding_format.spec_hci_bytes() + self.transmit_codec_frame_size.spec_hci_bytes() + self.receive_codec_frame_size.spec_hci_bytes() + self.input_bandwidth.spec_hci_bytes() + self.output_bandwidth.spec_hci_bytes() + self.input_coding_format.spec_hci_bytes() + self.output_coding_format.spec_hci_bytes() + self.input_coded_data_size.spec_hci_bytes() + self.output_coded_data_size.spec_hci_bytes() + self.input_pcm_data_format.spec_hci_bytes() + self.output_pcm_data_format.spec_hci_bytes() + self.input_pcm_sample_payload_msb_position.spec_hci_bytes() + self.output_pcm_sample_payload_msb_position.spec_hci_bytes()));
        }
        n = n + self.output_pcm_sample_payload_msb_position.size();
        proof {
            assert(self.handle.spec_hci_bytes() + self.transmit_bandwidth.spec_hci_bytes() + self.receive_bandwidth.spec_hci_bytes() + self.transmit_coding_format.spec_hci_bytes() + self.receive_coding_format.spec_hci_bytes() + self.transmit_codec_frame_size.spec_hci_bytes() + self.receive_codec_frame_size.spec_hci_bytes() + self.input_bandwidth.spec_hci_bytes() + self.output_bandwidth.spec_hci_bytes() + self.input_coding_format.spec_hci_bytes() + self.output_coding_format.spec_hci_bytes() + self.input_coded_data_size.spec_hci_bytes() + self.output_coded_data_size.spec_hci_bytes() + self.input_pcm_data_format.spec_hci_bytes() + self.output_pcm_data_format.spec_hci_bytes() + self.input_pcm_sample_payload_msb_position.spec_hci_bytes() + self.output_pcm_sample_payload_msb_position.spec_hci_bytes() + self.input_data_path.spec_hci_bytes() =~= (self.handle.spec_hci_bytes() + self.transmit_bandwidth.spec_hci_bytes() + self.receive_bandwidth.spec_hci_bytes() + self.transmit_coding_format.spec_hci_bytes() + self.receive_coding_format.spec_hci_bytes() + self.transmit_codec_frame_size.spec_hci_bytes() + self.receive_codec_frame_size.spec_hci_bytes() + self.input_bandwidth.spec_hci_bytes() + self.output_bandwidth.spec_hci_bytes() + self.input_coding_format.spec_hci_bytes() + self.output_coding_format.spec_hci_bytes() + self.input_coded_data_size.spec_hci_bytes() + self.output_coded_data_size.spec_hci_bytes() + self.input_pcm_data_format.spec_hci_bytes() + self.output_pcm_data_format.spec_hci_bytes() + self.input_pcm_sample_payload_msb_position.spec_hci_bytes() + self.output_pcm_sample_payload_msb_position.spec_hci_bytes() + self.input_data_path.spec_hci_bytes()));
        }
        n = n + self.input_data_path.size();
        proof {
            assert(self.handle.spec_hci_bytes() + self.transmit_bandwidth.spec_hci_bytes() + self.receive_bandwidth.spec_hci_bytes() + self.transmit_coding_format.spec_hci_bytes() + self.receive_coding_format.spec_hci_bytes() + self.transmit_codec_frame_size.spec_hci_bytes() + self.receive_codec_frame_size.spec_hci_bytes() + self.input_bandwidth.spec_hci_bytes() + self.output_bandwidth.spec_hci_bytes() + self.input_coding_format.spec_hci_bytes() + self.output_coding_format.spec_hci_bytes() + self.input_coded_data_size.spec_hci_bytes() + self.output_coded_data_size.spec_hci_bytes() + self.input_pcm_data_format.spec_hci_bytes() + self.output_pcm_data_format.spec_hci_bytes() + self.input_pcm_sample_payload_msb_position.spec_hci_bytes() + self.output_pcm_sample_payload_msb_position.spec_hci_bytes() + self.input_data_path.spec_hci_bytes() + self.output_data_path.spec_hci_bytes() =~= (self.handle.spec_hci_bytes() + self.transmit_bandwidth.spec_hci_bytes() + self.receive_bandwidth.spec_hci_bytes() + self.transmit_coding_format.spec_hci_bytes() + self.receive_coding_format.spec_hci_bytes() + self.transmit_codec_frame_size.spec_hci_bytes() + self.receive_codec_frame_size.spec_hci_bytes() + self.input_bandwidth.spec_hci_bytes() + self.output_bandwidth.spec_hci_bytes() + self.input_coding_format.spec_hci_bytes() + self.output_coding_format.spec_hci_bytes() + self.input_coded_data_size.spec_hci_bytes() + self.output_coded_data_size.spec_hci_bytes() + self.input_pcm_data_format.spec_hci_bytes() + self.output_pcm_data_format.spec_hci_bytes() + self.input_pcm_sample_payload_msb_position.spec_hci_bytes() + self.output_pcm_sample_payload_msb_position.spec_hci_bytes() + self.input_data_path.spec_hci_bytes() + self.output_data_path.spec_hci_bytes()));
        }
        n = n + self.output_data_path.size();
        proof {
            assert(self.handle.spec_hci_bytes() + self.transmit_bandwidth.spec_hci_bytes() + self.receive_bandwidth.spec_hci_bytes() + self.transmit_coding_format.spec_hci_bytes() + self.receive_coding_format.spec_hci_bytes() + self.transmit_codec_frame_size.spec_hci_bytes() + self.receive_codec_frame_size.spec_hci_bytes() + self.input_bandwidth.spec_hci_bytes() + self.output_bandwidth.spec_hci_bytes() + self.input_coding_format.spec_hci_bytes() + self.output_coding_format.spec_hci_bytes() + self.input_coded_data_size.spec_hci_bytes() + self.output_coded_data_size.spec_hci_bytes() + self.input_pcm_data_format.spec_hci_bytes() + self.output_pcm_data_format.spec_hci_bytes() + self.input_pcm_sample_payload_msb_position.spec_hci_bytes() + self.output_pcm_sample_payload_msb_position.spec_hci_bytes() + self.input_data_path.spec_hci_bytes() + self.output_data_path.spec_hci_bytes() + self.input_transport_unit_size.spec_hci_bytes() =~= (self.handle.spec_hci_bytes() + self.transmit_bandwidth.spec_hci_bytes() + self.receive_bandwidth.spec_hci_bytes() + self.transmit_coding_format.spec_hci_bytes() + self.receive_coding_format.spec_hci_bytes() + self.transmit_codec_frame_size.spec_hci_bytes() + self.receive_codec_frame_size.spec_hci_bytes() + self.input_bandwidth.spec_hci_bytes() + self.output_bandwidth.spec_hci_bytes() + self.input_coding_format.spec_hci_bytes() + self.output_coding_format.spec_hci_bytes() + self.input_coded_data_size.spec_hci_bytes() + self.output_coded_data_size.spec_hci_bytes() + self.input_pcm_data_format.spec_hci_bytes() + self.output_pcm_data_format.spec_hci_bytes() + self.input_pcm_sample_payload_msb_position.spec_hci_bytes() + self.output_pcm_sample_payload_msb_position.spec_hci_bytes() + self.input_data_path.spec_hci_bytes() + self.output_data_path.spec_hci_bytes() + self.input_transport_unit_size.spec_hci_bytes()));
        }
        n = n + self.input_transport_unit_size.size();
        proof {
            assert(self.handle.spec_hci_bytes() + self.transmit_bandwidth.spec_hci_bytes() + self.receive_bandwidth.spec_hci_bytes() + self.transmit_coding_format.spec_hci_bytes() + self.receive_coding_format.spec_hci_bytes() + self.transmit_codec_frame_size.spec_hci_bytes() + self.receive_codec_frame_size.spec_hci_bytes() + self.input_bandwidth.spec_hci_bytes() + self.output_bandwidth.spec_hci_bytes() + self.input_coding_format.spec_hci_bytes() + self.output_coding_format.spec_hci_bytes() + self.input_coded_data_size.spec_hci_bytes() + self.output_coded_data_size.spec_hci_bytes() + self.input_pcm_data_format.spec_hci_bytes() + self.output_pcm_data_format.spec_hci_bytes() + self.input_pcm_sample_payload_msb_position.spec_hci_bytes() + self.output_pcm_sample_payload_msb_position.spec_hci_bytes() + self.input_data_path.spec_hci_bytes() + self.output_data_path.spec_hci_bytes() + self.input_transport_unit_size.spec_hci_bytes() + self.output_transport_unit_size.spec_hci_bytes() =~= (self.handle.spec_hci_bytes() + self.transmit_bandwidth.spec_hci_bytes() + self.receive_bandwidth.spec_hci_bytes() + self.transmit_coding_format.spec_hci_bytes() + self.receive_coding_format.spec_hci_bytes() + self.transmit_codec_frame_size.spec_hci_bytes() + self.receive_codec_frame_size.spec_hci_bytes() + self.input_bandwidth.spec_hci_bytes() + self.output_bandwidth.spec_hci_bytes() + self.input_coding_format.spec_hci_bytes() + self.output_coding_format.spec_hci_bytes() + self.input_coded_data_size.spec_hci_bytes() + self.output_coded_data_size.spec_hci_bytes() + self.input_pcm_data_format.spec_hci_bytes() + self.output_pcm_data_format.spec_hci_bytes() + self.input_pcm_sample_payload_msb_position.spec_hci_bytes() + self.output_pcm_sample_payload_msb_position.spec_hci_bytes() + self.input_data_path.spec_hci_bytes() + self.output_data_path.spec_hci_bytes() + self.input_transport_unit_size.spec_hci_bytes() + self.output_transport_unit_size.spec_hci_bytes()));
        }
        n = n + self.output_transport_unit_size.size();
        proof {
            assert(self.handle.spec_hci_bytes() + self.transmit_bandwidth.spec_hci_bytes() + self.receive_bandwidth.spec_hci_bytes() + self.transmit_coding_format.spec_hci_bytes() + self.receive_coding_format.spec_hci_bytes() + self.transmit_codec_frame_size.spec_hci_bytes() + self.receive_codec_frame_size.spec_hci_bytes() + self.input_bandwidth.spec_hci_bytes() + self.output_bandwidth.spec_hci_bytes() + self.input_coding_format.spec_hci_bytes() + self.output_coding_format.spec_hci_bytes() + self.input_coded_data_size.spec_hci_bytes() + self.output_coded_data_size.spec_hci_bytes() + self.input_pcm_data_format.spec_hci_bytes() + self.output_pcm_data_format.spec_hci_bytes() + self.input_pcm_sample_payload_msb_position.spec_hci_bytes() + self.output_pcm_sample_payload_msb_position.spec_hci_bytes() + self.input_data_path.spec_hci_bytes() + self.output_data_path.spec_hci_bytes() + self.input_transport_unit_size.spec_hci_bytes() + self.output_transport_unit_size.spec_hci_bytes() + self.max_latency.spec_hci_bytes() =~= (self.handle.spec_hci_bytes() + self.transmit_bandwidth.spec_hci_bytes() + self.receive_bandwidth.spec_hci_bytes() + self.transmit_coding_format.spec_hci_bytes() + self.receive_coding_format.spec_hci_bytes() + self.transmit_codec_frame_size.spec_hci_bytes() + self.receive_codec_frame_size.spec_hci_bytes() + self.input_bandwidth.spec_hci_bytes() + self.output_bandwidth.spec_hci_bytes() + self.input_coding_format.spec_hci_bytes() + self.output_coding_format.spec_hci_bytes() + self.input_coded_data_size.spec_hci_bytes() + self.output_coded_data_size.spec_hci_bytes() + self.input_pcm_data_format.spec_hci_bytes() + self.output_pcm_data_format.spec_hci_bytes() + self.input_pcm_sample_payload_msb_position.spec_hci_bytes() + self.output_pcm_sample_payload_msb_position.spec_hci_bytes() + self.input_data_path.spec_hci_bytes() + self.output_data_path.spec_hci_bytes() + self.input_transport_unit_size.spec_hci_bytes() + self.output_transport_unit_size.spec_hci_bytes() + self.max_latency.spec_hci_bytes()));
        }
        n = n + self.max_latency.size();
        proof {
            assert(self.handle.spec_hci_bytes() + self.transmit_bandwidth.spec_hci_bytes() + self.receive_bandwidth.spec_hci_bytes() + self.transmit_coding_format.spec_hci_bytes() + self.receive_coding_format.spec_hci_bytes() + self.transmit_codec_frame_size.spec_hci_bytes() + self.receive_codec_frame_size.spec_hci_bytes() + self.input_bandwidth.spec_hci_bytes() + self.output_bandwidth.spec_hci_bytes() + self.input_coding_format.spec_hci_bytes() + self.output_coding_format.spec_hci_bytes() + self.input_coded_data_size.spec_hci_bytes() + self.output_coded_data_size.spec_hci_bytes() + self.input_pcm_data_format.spec_hci_bytes() + self.output_pcm_data_format.spec_hci_bytes() + self.input_pcm_sample_payload_msb_position.spec_hci_bytes() + self.output_pcm_sample_payload_msb_position.spec_hci_bytes() + self.input_data_path.spec_hci_bytes() + self.output_data_path.spec_hci_bytes() + self.input_transport_unit_size.spec_hci_bytes() + self.output_transport_unit_size.spec_hci_bytes() + self.max_latency.spec_hci_bytes() + self.packet_type.spec_hci_bytes() =~= (self.handle.spec_hci_bytes() + self.transmit_bandwidth.spec_hci_bytes() + self.receive_bandwidth.spec_hci_bytes() + self.transmit_coding_format.spec_hci_bytes() + self.receive_coding_format.spec_hci_bytes() + self.transmit_codec_frame_size.spec_hci_bytes() + self.receive_codec_frame_size.spec_hci_bytes() + self.input_bandwidth.spec_hci_bytes() + self.output_bandwidth.spec_hci_bytes() + self.input_coding_format.spec_hci_bytes() + self.output_coding_format.spec_hci_bytes() + self.input_coded_data_size.spec_hci_bytes() + self.output_coded_data_size.spec_hci_bytes() + self.input_pcm_data_format.spec_hci_bytes() + self.output_pcm_data_format.spec_hci_bytes() + self.input_pcm_sample_payload_msb_position.spec_hci_bytes() + self.output_pcm_sample_payload_msb_position.spec_hci_bytes() + self.input_data_path.spec_hci_bytes() + self.output_data_path.spec_hci_bytes() + self.input_transport_unit_size.spec_hci_bytes() + self.output_transport_unit_size.spec_hci_bytes() + self.max_latency.spec_hci_bytes() + self.packet_type.spec_hci_bytes()));
        }
        n = n + self.packet_type.size();
        proof {
            assert(self.handle.spec_hci_bytes() + self.transmit_bandwidth.spec_hci_bytes() + self.receive_bandwidth.spec_hci_bytes() + self.transmit_coding_format.spec_hci_bytes() + self.receive_coding_format.spec_hci_bytes() + self.transmit_codec_frame_size.spec_hci_bytes() + self.receive_codec_frame_size.spec_hci_bytes() + self.input_bandwidth.spec_hci_bytes() + self.output_bandwidth.spec_hci_bytes() + self.input_coding_format.spec_hci_bytes() + self.output_coding_format.spec_hci_bytes() + self.input_coded_data_size.spec_hci_bytes() + self.output_coded_data_size.spec_hci_bytes() + self.input_pcm_data_format.spec_hci_bytes() + self.output_pcm_data_format.spec_hci_bytes() + self.input_pcm_sample_payload_msb_position.spec_hci_bytes() + self.output_pcm_sample_payload_msb_position.spec_hci_bytes() + self.input_data_path.spec_hci_bytes() + self.output_data_path.spec_hci_bytes() + self.input_transport_unit_size.spec_hci_bytes() + self.output_transport_unit_size.spec_hci_bytes() + self.max_latency.spec_hci_bytes() + self.packet_type.spec_hci_bytes() + self.retransmission_effort.spec_hci_bytes() =~= (self.handle.spec_hci_bytes() + self.transmit_bandwidth.spec_hci_bytes() + self.receive_bandwidth.spec_hci_bytes() + self.transmit_coding_format.spec_hci_bytes() + self.receive_coding_format.spec_hci_bytes() + self.transmit_codec_frame_size.spec_hci_bytes() + self.receive_codec_frame_size.spec_hci_bytes() + self.input_bandwidth.spec_hci_bytes() + self.output_bandwidth.spec_hci_bytes() + self.input_coding_format.spec_hci_bytes() + self.output_coding_format.spec_hci_bytes() + self.input_coded_data_size.spec_hci_bytes() + self.output_coded_data_size.spec_hci_bytes() + self.input_pcm_data_format.spec_hci_bytes() + self.output_pcm_data_format.spec_hci_bytes() + self.input_pcm_sample_payload_msb_position.spec_hci_bytes() + self.output_pcm_sample_payload_msb_position.spec_hci_bytes() + self.input_data_path.spec_hci_bytes() + self.output_data_path.spec_hci_bytes() + self.input_transport_unit_size.spec_hci_bytes() + self.output_transport_unit_size.spec_hci_bytes() + self.max_latency.spec_hci_bytes() + self.packet_type.spec_hci_bytes() + self.retransmission_effort.spec_hci_bytes()));
        }
        n = n + self.retransmission_effort.size();
        n
    }

    fn write_hci(&self, out: &mut Vec<u8>) {
        self.handle.write_hci(out);
        self.transmit_bandwidth.write_hci(out);
        self.receive_bandwidth.write_hci(out);
        self.transmit_coding_format.write_hci(out);
        self.receive_coding_format.write_hci(out);
        self.transmit_codec_frame_size.write_hci(out);
        self.receive_codec_frame_size.write_hci(out);
        self.input_bandwidth.write_hci(out);
        self.output_bandwidth.write_hci(out);
        self.input_coding_format.write_hci(out);
        self.output_coding_format.write_hci(out);
        self.input_coded_data_size.write_hci(out);
        self.output_coded_data_size.write_hci(out);
        self.input_pcm_data_format.write_hci(out);
        self.output_pcm_data_format.write_hci(out);
        self.input_pcm_sample_payload_msb_position.write_hci(out);
        self.output_pcm_sample_payload_msb_position.write_hci(out);
        self.input_data_path.write_hci(out);
        self.output_data_path.write_hci(out);
        self.input_transport_unit_size.write_hci(out);
        self.output_transport_unit_size.write_hci(out);
        self.max_latency.write_hci(out);
        self.packet_type.write_hci(out);
        self.retransmission_effort.write_hci(out);
        proof {
            assert(out@ =~= old(out)@ + self.spec_hci_bytes());
        }
    }
}

impl EnhancedSetupSynchronousConnectionParams {
    /// The bytes of a `EnhancedSetupSynchronousConnectionParams` are the bytes of its fields, one after the
    /// other, in the order in which the fields are declared.
    #[verifier::rlimit(60)]
    pub proof fn lemma_fields_in_order(&self)
        ensures
            self.spec_hci_bytes() == self.handle.spec_hci_bytes() + self.transmit_bandwidth.spec_hci_bytes() + self.receive_bandwidth.spec_hci_bytes() + self.transmit_coding_format.spec_hci_bytes() + self.receive_coding_format.spec_hci_bytes() + self.transmit_codec_frame_size.spec_hci_bytes() + self.receive_codec_frame_size.spec_hci_bytes() + self.input_bandwidth.spec_hci_bytes() + self.output_bandwidth.spec_hci_bytes() + self.input_coding_format.spec_hci_bytes() + self.output_coding_format.spec_hci_bytes() + self.input_coded_data_size.spec_hci_bytes() + self.output_coded_data_size.spec_hci_bytes() + self.input_pcm_data_format.spec_hci_bytes() + self.output_pcm_data_format.spec_hci_bytes() + self.input_pcm_sample_payload_msb_position.spec_hci_bytes() + self.output_pcm_sample_payload_msb_position.spec_hci_bytes() + self.input_data_path.spec_hci_bytes() + self.output_data_path.spec_hci_bytes() + self.input_transport_unit_size.spec_hci_bytes() + self.output_transport_unit_size.spec_hci_bytes() + self.max_latency.spec_hci_bytes() + self.packet_type.spec_hci_bytes() + self.retransmission_effort.spec_hci_bytes(),
    {
    }
}


/// EnhancedAcceptSynchronousConnectionRequestParams parameter
#[derive(Debug, Clone, Copy, PartialEq, Eq, PartialOrd, Ord, Hash)]
#[allow(missing_docs)]
pub struct EnhancedAcceptSynchronousConnectionRequestParams {
    pub bd_addr: BdAddr,
    pub transmit_bandwidth: u32,
    pub receive_bandwidth: u32,
    pub transmit_coding_format: [u8; 5],
    pub receive_coding_format: [u8; 5],
    pub transmit_codec_frame_size: u16,
    pub receive_codec_frame_size: u16,
    pub input_bandwidth: u32,
    pub output_bandwidth: u32,
    pub input_coding_format: [u8; 5],
    pub output_coding_format: [u8; 5],
    pub input_coded_data_size: u16,
    pub output_coded_data_size: u16,
    pub input_pcm_data_format: u8,
    pub output_pcm_data_format: u8,
    pub input_pcm_sample_payload_msb_position: u8,
    pub output_pcm_sample_payload_msb_position: u8,
    pub input_data_path: u8,
    pub output_data_path: u8,
    pub input_transport_unit_size: u8,
    pub output_transport_unit_size: u8,
    pub max_latency: u16,
    pub packet_type: SyncPacketType,
    pub retransmission_effort: RetransmissionEffort,
}

/// The value of a [`EnhancedAcceptSynchronousConnectionRequestParams`], with byte slices taken as sequences.
#[allow(missing_docs)]
pub struct EnhancedAcceptSynchronousConnectionRequestParamsView {
    pub bd_addr: Seq<u8>,
    pub transmit_bandwidth: u32,
    pub receive_bandwidth: u32,
    pub transmit_coding_format: Seq<u8>,
    pub receive_coding_format: Seq<u8>,
    pub transmit_codec_frame_size: u16,
    pub receive_codec_frame_size: u16,
    pub input_bandwidth: u32,
    pub output_bandwidth: u32,
    pub input_coding_format: Seq<u8>,
    pub output_coding_format: Seq<u8>,
    pub input_coded_data_size: u16,
    pub output_coded_data_size: u16,
    pub input_pcm_data_format: u8,
    pub output_pcm_data_format: u8,
    pub input_pcm_sample_payload_msb_position: u8,
    pub output_pcm_sample_payload_msb_position: u8,
    pub input_data_path: u8,
    pub output_data_path: u8,
    pub input_transport_unit_size: u8,
    pub output_transport_unit_size: u8,
    pub max_latency: u16,
    pub packet_type: Seq<u8>,
    pub retransmission_effort: RetransmissionEffort,
}

impl View for EnhancedAcceptSynchronousConnectionRequestParams {
    type V = EnhancedAcceptSynchronousConnectionRequestParamsView;

    open spec fn view(&self) -> EnhancedAcceptSynchronousConnectionRequestParamsView {
        EnhancedAcceptSynchronousConnectionRequestParamsView { bd_addr: self.bd_addr@, transmit_bandwidth: self.transmit_bandwidth@, receive_bandwidth: self.receive_bandwidth@, transmit_coding_format: self.transmit_coding_format@, receive_coding_format: self.receive_coding_format@, transmit_codec_frame_size: self.transmit_codec_frame_size@, receive_codec_frame_size: self.receive_codec_frame_size@, input_bandwidth: self.input_bandwidth@, output_bandwidth: self.output_bandwidth@, input_coding_format: self.input_coding_format@, output_coding_format: self.output_coding_format@, input_coded_data_size: self.input_coded_data_size@, output_coded_data_size: self.output_coded_data_size@, input_pcm_data_format: self.input_pcm_data_format@, output_pcm_data_format: self.output_pcm_data_format@, input_pcm_sample_payload_msb_position: self.input_pcm_sample_payload_msb_position@, output_pcm_sample_payload_msb_position: self.output_pcm_sample_payload_msb_position@, input_data_path: self.input_data_path@, output_data_path: self.output_data_path@, input_transport_unit_size: self.input_transport_unit_size@, output_transport_unit_size: self.output_transport_unit_size@, max_latency: self.max_latency@, packet_type: self.packet_type@, retransmission_effort: self.retransmission_effort@ }
    }
}

impl WriteHci for EnhancedAcceptSynchronousConnectionRequestParams {
    open spec fn spec_hci_bytes(&self) -> Seq<u8> {
        self.bd_addr.spec_hci_bytes() + self.transmit_bandwidth.spec_hci_bytes() + self.receive_bandwidth.spec_hci_bytes() + self.transmit_coding_format.spec_hci_bytes() + self.receive_coding_format.spec_hci_bytes() + self.transmit_codec_frame_size.spec_hci_bytes() + self.receive_codec_frame_size.spec_hci_bytes() + self.input_bandwidth.spec_hci_bytes() + self.output_bandwidth.spec_hci_bytes() + self.input_coding_format.spec_hci_bytes() + self.output_coding_format.spec_hci_bytes() + self.input_coded_data_size.spec_hci_bytes() + self.output_coded_data_size.spec_hci_bytes() + self.input_pcm_data_format.spec_hci_bytes() + self.output_pcm_data_format.spec_hci_bytes() + self.input_pcm_sample_payload_msb_position.spec_hci_bytes() + self.output_pcm_sample_payload_msb_position.spec_hci_bytes() + self.input_data_path.spec_hci_bytes() + self.output_data_path.spec_hci_bytes() + self.input_transport_unit_size.spec_hci_bytes() + self.output_transport_unit_size.spec_hci_bytes() + self.max_latency.spec_hci_bytes() + self.packet_type.spec_hci_bytes() + self.retransmission_effort.spec_hci_bytes()
    }

    fn size(&self) -> (r: usize) {
        let mut n = self.bd_addr.size();
        proof {
            assert(self.bd_addr.spec_hci_bytes() + self.transmit_bandwidth.spec_hci_bytes() =~= (self.bd_addr.spec_hci_bytes() + self.transmit_bandwidth.spec_hci_bytes()));
        }
        n = n + self.transmit_bandwidth.size();
        proof {
            assert(self.bd_addr.spec_hci_bytes() + self.transmit_bandwidth.spec_hci_bytes() + self.receive_bandwidth.spec_hci_bytes() =~= (self.bd_addr.spec_hci_bytes() + self.transmit_bandwidth.spec_hci_bytes() + self.receive_bandwidth.spec_hci_bytes()));
        }
        n = n + self.receive_bandwidth.size();
        proof {
            assert(self.bd_addr.spec_hci_bytes() + self.transmit_bandwidth.spec_hci_bytes() + self.receive_bandwidth.spec_hci_bytes() + self.transmit_coding_format.spec_hci_bytes() =~= (self.bd_addr.spec_hci_bytes() + self.transmit_bandwidth.spec_hci_bytes() + self.receive_bandwidth.spec_hci_bytes() + self.transmit_coding_format.spec_hci_bytes()));
        }
        n = n + self.transmit_coding_format.size();
        proof {
            assert(self.bd_addr.spec_hci_bytes() + self.transmit_bandwidth.spec_hci_bytes() + self.receive_bandwidth.spec_hci_bytes() + self.transmit_coding_format.spec_hci_bytes() + self.receive_coding_format.spec_hci_bytes() =~= (self.bd_addr.spec_hci_bytes() + self.transmit_bandwidth.spec_hci_bytes() + self.receive_bandwidth.spec_hci_bytes() + self.transmit_coding_format.spec_hci_bytes() + self.receive_coding_format.spec_hci_bytes()));
        }
        n = n + self.receive_coding_format.size();
        proof {
            assert(self.bd_addr.spec_hci_bytes() + self.transmit_bandwidth.spec_hci_bytes() + self.receive_bandwidth.spec_hci_bytes() + self.transmit_coding_format.spec_hci_bytes() + self.receive_coding_format.spec_hci_bytes() + self.transmit_codec_frame_size.spec_hci_bytes() =~= (self.bd_addr.spec_hci_bytes() + self.transmit_bandwidth.spec_hci_bytes() + self.receive_bandwidth.spec_hci_bytes() + self.transmit_coding_format.spec_hci_bytes() + self.receive_coding_format.spec_hci_bytes() + self.transmit_codec_frame_size.spec_hci_bytes()));
        }
        n = n + self.transmit_codec_frame_size.size();
        proof {
            assert(self.bd_addr.spec_hci_bytes() + self.transmit_bandwidth.spec_hci_bytes() + self.receive_bandwidth.spec_hci_bytes() + self.transmit_coding_format.spec_hci_bytes() + self.receive_coding_format.spec_hci_bytes() + self.transmit_codec_frame_size.spec_hci_bytes() + self.receive_codec_frame_size.spec_hci_bytes() =~= (self.bd_addr.spec_hci_bytes() + self.transmit_bandwidth.spec_hci_bytes() + self.receive_bandwidth.spec_hci_bytes() + self.transmit_coding_format.spec_hci_bytes() + self.receive_coding_format.spec_hci_bytes() + self.transmit_codec_frame_size.spec_hci_bytes() + self.receive_codec_frame_size.spec_hci_bytes()));
        }
        n = n + self.receive_codec_frame_size.size();
        proof {
            assert(self.bd_addr.spec_hci_bytes() + self.transmit_bandwidth.spec_hci_bytes() + self.receive_bandwidth.spec_hci_bytes() + self.transmit_coding_format.spec_hci_bytes() + self.receive_coding_format.spec_hci_bytes() + self.transmit_codec_frame_size.spec_hci_bytes() + self.receive_codec_frame_size.spec_hci_bytes() + self.input_bandwidth.spec_hci_bytes() =~= (self.bd_addr.spec_hci_bytes() + self.transmit_bandwidth.spec_hci_bytes() + self.receive_bandwidth.spec_hci_bytes() + self.transmit_coding_format.spec_hci_bytes() + self.receive_coding_format.spec_hci_bytes() + self.transmit_codec_frame_size.spec_hci_bytes() + self.receive_codec_frame_size.spec_hci_bytes() + self.input_bandwidth.spec_hci_bytes()));
        }
        n = n + self.input_bandwidth.size();
        proof {
            assert(self.bd_addr.spec_hci_bytes() + self.transmit_bandwidth.spec_hci_bytes() + self.receive_bandwidth.spec_hci_bytes() + self.transmit_coding_format.spec_hci_bytes() + self.receive_coding_format.spec_hci_bytes() + self.transmit_codec_frame_size.spec_hci_bytes() + self.receive_codec_frame_size.spec_hci_bytes() + self.input_bandwidth.spec_hci_bytes() + self.output_bandwidth.spec_hci_bytes() =~= (self.bd_addr.spec_hci_bytes() + self.transmit_bandwidth.spec_hci_bytes() + self.receive_bandwidth.spec_hci_bytes() + self.transmit_coding_format.spec_hci_bytes() + self.receive_coding_format.spec_hci_bytes() + self.transmit_codec_frame_size.spec_hci_bytes() + self.receive_codec_frame_size.spec_hci_bytes() + self.input_bandwidth.spec_hci_bytes() + self.output_bandwidth.spec_hci_bytes()));
        }
        n = n + self.output_bandwidth.size();
        proof {
            assert(self.bd_addr.spec_hci_bytes() + self.transmit_bandwidth.spec_hci_bytes() + self.receive_bandwidth.spec_hci_bytes() + self.transmit_coding_format.spec_hci_bytes() + self.receive_coding_format.spec_hci_bytes() + self.transmit_codec_frame_size.spec_hci_bytes() + self.receive_codec_frame_size.spec_hci_bytes() + self.input_bandwidth.spec_hci_bytes() + self.output_bandwidth.spec_hci_bytes() + self.input_coding_format.spec_hci_bytes() =~= (self.bd_addr.spec_hci_bytes() + self.transmit_bandwidth.spec_hci_bytes() + self.receive_bandwidth.spec_hci_bytes() + self.transmit_coding_format.spec_hci_bytes() + self.receive_coding_format.spec_hci_bytes() + self.transmit_codec_frame_size.spec_hci_bytes() + self.receive_codec_frame_size.spec_hci_bytes() + self.input_bandwidth.spec_hci_bytes() + self.output_bandwidth.spec_hci_bytes() + self.input_coding_format.spec_hci_bytes()));
        }
        n = n + self.input_coding_format.size();
        proof {
            assert(self.bd_addr.spec_hci_bytes() + self.transmit_bandwidth.spec_hci_bytes() + self.receive_bandwidth.spec_hci_bytes() + self.transmit_coding_format.spec_hci_bytes() + self.receive_coding_format.spec_hci_bytes() + self.transmit_codec_frame_size.spec_hci_bytes() + self.receive_codec_frame_size.spec_hci_bytes() + self.input_bandwidth.spec_hci_bytes() + self.output_bandwidth.spec_hci_bytes() + self.input_coding_format.spec_hci_bytes() + self.output_coding_format.spec_hci_bytes() =~= (self.bd_addr.spec_hci_bytes() + self.transmit_bandwidth.spec_hci_bytes() + self.receive_bandwidth.spec_hci_bytes() + self.transmit_coding_format.spec_hci_bytes() + self.receive_coding_format.spec_hci_bytes() + self.transmit_codec_frame_size.spec_hci_bytes() + self.receive_codec_frame_size.spec_hci_bytes() + self.input_bandwidth.spec_hci_bytes() + self.output_bandwidth.spec_hci_bytes() + self.input_coding_format.spec_hci_bytes() + self.output_coding_format.spec_hci_bytes()));
        }
        n = n + self.output_coding_format.size();
        proof {
            assert(self.bd_addr.spec_hci_bytes() + self.transmit_bandwidth.spec_hci_bytes() + self.receive_bandwidth.spec_hci_bytes() + self.transmit_coding_format.spec_hci_bytes() + self.receive_coding_format.spec_hci_bytes() + self.transmit_codec_frame_size.spec_hci_bytes() + self.receive_codec_frame_size.spec_hci_bytes() + self.input_bandwidth.spec_hci_bytes() + self.output_bandwidth.spec_hci_bytes() + self.input_coding_format.spec_hci_bytes() + self.output_coding_format.spec_hci_bytes() + self.input_coded_data_size.spec_hci_bytes() =~= (self.bd_addr.spec_hci_bytes() + self.transmit_bandwidth.spec_hci_bytes() + self.receive_bandwidth.spec_hci_bytes() + self.transmit_coding_format.spec_hci_bytes() + self.receive_coding_format.spec_hci_bytes() + self.transmit_codec_frame_size.spec_hci_bytes() + self.receive_codec_frame_size.spec_hci_bytes() + self.input_bandwidth.spec_hci_bytes() + self.output_bandwidth.spec_hci_bytes() + self.input_coding_format.spec_hci_bytes() + self.output_coding_format.spec_hci_bytes() + self.input_coded_data_size.spec_hci_bytes()));
        }
        n = n + self.input_coded_data_size.size();
        proof {
            assert(self.bd_addr.spec_hci_bytes() + self.transmit_bandwidth.spec_hci_bytes() + self.receive_bandwidth.spec_hci_bytes() + self.transmit_coding_format.spec_hci_bytes() + self.receive_coding_format.spec_hci_bytes() + self.transmit_codec_frame_size.spec_hci_bytes() + self.receive_codec_frame_size.spec_hci_bytes() + self.input_bandwidth.spec_hci_bytes() + self.output_bandwidth.spec_hci_bytes() + self.input_coding_format.spec_hci_bytes() + self.output_coding_format.spec_hci_bytes() + self.input_coded_data_size.spec_hci_bytes() + self.output_coded_data_size.spec_hci_bytes() =~= (self.bd_addr.spec_hci_bytes() + self.transmit_bandwidth.spec_hci_bytes() + self.receive_bandwidth.spec_hci_bytes() + self.transmit_coding_format.spec_hci_bytes() + self.receive_coding_format.spec_hci_bytes() + self.transmit_codec_frame_size.spec_hci_bytes() + self.receive_codec_frame_size.spec_hci_bytes() + self.input_bandwidth.spec_hci_bytes() + self.output_bandwidth.spec_hci_bytes() + self.input_coding_format.spec_hci_bytes() + self.output_coding_format.spec_hci_bytes() + self.input_coded_data_size.spec_hci_bytes() + self.output_coded_data_size.spec_hci_bytes()));
        }
        n = n + self.output_coded_data_size.size();
        proof {
            assert(self.bd_addr.spec_hci_bytes() + self.transmit_bandwidth.spec_hci_bytes() + self.receive_bandwidth.spec_hci_bytes() + self.transmit_coding_format.spec_hci_bytes() + self.receive_coding_format.spec_hci_bytes() + self.transmit_codec_frame_size.spec_hci_bytes() + self.receive_codec_frame_size.spec_hci_bytes() + self.input_bandwidth.spec_hci_bytes() + self.output_bandwidth.spec_hci_bytes() + self.input_coding_format.spec_hci_bytes() + self.output_coding_format.spec_hci_bytes() + self.input_coded_data_size.spec_hci_bytes() + self.output_coded_data_size.spec_hci_bytes() + self.input_pcm_data_format.spec_hci_bytes() =~= (self.bd_addr.spec_hci_bytes() + self.transmit_bandwidth.spec_hci_bytes() + self.receive_bandwidth.spec_hci_bytes() + self.transmit_coding_format.spec_hci_bytes() + self.receive_coding_format.spec_hci_bytes() + self.transmit_codec_frame_size.spec_hci_bytes() + self.receive_codec_frame_size.spec_hci_bytes() + self.input_bandwidth.spec_hci_bytes() + self.output_bandwidth.spec_hci_bytes() + self.input_coding_format.spec_hci_bytes() + self.output_coding_format.spec_hci_bytes() + self.input_coded_data_size.spec_hci_bytes() + self.output_coded_data_size.spec_hci_bytes() + self.input_pcm_data_format.spec_hci_bytes()));
        }
        n = n + self.input_pcm_data_format.size();
        proof {
            assert(self.bd_addr.spec_hci_bytes() + self.transmit_bandwidth.spec_hci_bytes() + self.receive_bandwidth.spec_hci_bytes() + self.transmit_coding_format.spec_hci_bytes() + self.receive_coding_format.spec_hci_bytes() + self.transmit_codec_frame_size.spec_hci_bytes() + self.receive_codec_frame_size.spec_hci_bytes() + self.input_bandwidth.spec_hci_bytes() + self.output_bandwidth.spec_hci_bytes() + self.input_coding_format.spec_hci_bytes() + self.output_coding_format.spec_hci_bytes() + self.input_coded_data_size.spec_hci_bytes() + self.output_coded_data_size.spec_hci_bytes() + self.input_pcm_data_format.spec_hci_bytes() + self.output_pcm_data_format.spec_hci_bytes() =~= (self.bd_addr.spec_hci_bytes() + self.transmit_bandwidth.spec_hci_bytes() + self.receive_bandwidth.spec_hci_bytes() + self.transmit_coding_format.spec_hci_bytes() + self.receive_coding_format.spec_hci_bytes() + self.transmit_codec_frame_size.spec_hci_bytes() + self.receive_codec_frame_size.spec_hci_bytes() + self.input_bandwidth.spec_hci_bytes() + self.output_bandwidth.spec_hci_bytes() + self.input_coding_format.spec_hci_bytes() + self.output_coding_format.spec_hci_bytes() + self.input_coded_data_size.spec_hci_bytes() + self.output_coded_data_size.spec_hci_bytes() + self.input_pcm_data_format.spec_hci_bytes() + self.output_pcm_data_format.spec_hci_bytes()));
        }
        n = n + self.output_pcm_data_format.size();
        proof {
            assert(self.bd_addr.spec_hci_bytes() + self.transmit_bandwidth.spec_hci_bytes() + self.receive_bandwidth.spec_hci_bytes() + self.transmit_coding_format.spec_hci_bytes() + self.receive_coding_format.spec_hci_bytes() + self.transmit_codec_frame_size.spec_hci_bytes() + self.receive_codec_frame_size.spec_hci_bytes() + self.input_bandwidth.spec_hci_bytes() + self.output_bandwidth.spec_hci_bytes() + self.input_coding_format.spec_hci_bytes() + self.output_coding_format.spec_hci_bytes() + self.input_coded_data_size.spec_hci_bytes() + self.output_coded_data_size.spec_hci_bytes() + self.input_pcm_data_format.spec_hci_bytes() + self.output_pcm_data_format.spec_hci_bytes() + self.input_pcm_sample_payload_msb_position.spec_hci_bytes() =~= (self.bd_addr.spec_hci_bytes() + self.transmit_bandwidth.spec_hci_bytes() + self.receive_bandwidth.spec_hci_bytes() + self.transmit_coding_format.spec_hci_bytes() + self.receive_coding_format.spec_hci_bytes() + self.transmit_codec_frame_size.spec_hci_bytes() + self.receive_codec_frame_size.spec_hci_bytes() + self.input_bandwidth.spec_hci_bytes() + self.output_bandwidth.spec_hci_bytes() + self.input_coding_format.spec_hci_bytes() + self.output_coding_format.spec_hci_bytes() + self.input_coded_data_size.spec_hci_bytes() + self.output_coded_data_size.spec_hci_bytes() + self.input_pcm_data_format.spec_hci_bytes() + self.output_pcm_data_format.spec_hci_bytes() + self.input_pcm_sample_payload_msb_position.spec_hci_bytes()));
        }
        n = n + self.input_pcm_sample_payload_msb_position.size();
        proof {
            assert(self.bd_addr.spec_hci_bytes() + self.transmit_bandwidth.spec_hci_bytes() + self.receive_bandwidth.spec_hci_bytes() + self.transmit_coding_format.spec_hci_bytes() + self.receive_coding_format.spec_hci_bytes() + self.transmit_codec_frame_size.spec_hci_bytes() + self.receive_codec_frame_size.spec_hci_bytes() + self.input_bandwidth.spec_hci_bytes() + self.output_bandwidth.spec_hci_bytes() + self.input_coding_format.spec_hci_bytes() + self.output_coding_format.spec_hci_bytes() + self.input_coded_data_size.spec_hci_bytes() + self.output_coded_data_size.spec_hci_bytes() + self.input_pcm_data_format.spec_hci_bytes() + self.output_pcm_data_format.spec_hci_bytes() + self.input_pcm_sample_payload_msb_position.spec_hci_bytes() + self.output_pcm_sample_payload_msb_position.spec_hci_bytes() =~= (self.bd_addr.spec_hci_bytes() + self.transmit_bandwidth.spec_hci_bytes() + self.receive_bandwidth.spec_hci_bytes() + self.transmit_coding_format.spec_hci_bytes() + self.receive_coding_format.spec_hci_bytes() + self.transmit_codec_frame_size.spec_hci_bytes() + self.receive_codec_frame_size.spec_hci_bytes() + self.input_bandwidth.spec_hci_bytes() + self.output_bandwidth.spec_hci_bytes() + self.input_coding_format.spec_hci_bytes() + self.output_coding_format.spec_hci_bytes() + self.input_coded_data_size.spec_hci_bytes() + self.output_coded_data_size.spec_hci_bytes() + self.input_pcm_data_format.spec_hci_bytes() + self.output_pcm_data_format.spec_hci_bytes() + self.input_pcm_sample_payload_msb_position.spec_hci_bytes() + self.output_pcm_sample_payload_msb_position.spec_hci_bytes()));
        }
        n = n + self.output_pcm_sample_payload_msb_position.size();
        proof {
            assert(self.bd_addr.spec_hci_bytes() + self.transmit_bandwidth.spec_hci_bytes() + self.receive_bandwidth.spec_hci_bytes() + self.transmit_coding_format.spec_hci_bytes() + self.receive_coding_format.spec_hci_bytes() + self.transmit_codec_frame_size.spec_hci_bytes() + self.receive_codec_frame_size.spec_hci_bytes() + self.input_bandwidth.spec_hci_bytes() + self.output_bandwidth.spec_hci_bytes() + self.input_coding_format.spec_hci_bytes() + self.output_coding_format.spec_hci_bytes() + self.input_coded_data_size.spec_hci_bytes() + self.output_coded_data_size.spec_hci_bytes() + self.input_pcm_data_format.spec_hci_bytes() + self.output_pcm_data_format.spec_hci_bytes() + self.input_pcm_sample_payload_msb_position.spec_hci_bytes() + self.output_pcm_sample_payload_msb_position.spec_hci_bytes() + self.input_data_path.spec_hci_bytes() =~= (self.bd_addr.spec_hci_bytes() + self.transmit_bandwidth.spec_hci_bytes() + self.receive_bandwidth.spec_hci_bytes() + self.transmit_coding_format.spec_hci_bytes() + self.receive_coding_format.spec_hci_bytes() + self.transmit_codec_frame_size.spec_hci_bytes() + self.receive_codec_frame_size.spec_hci_bytes() + self.input_bandwidth.spec_hci_bytes() + self.output_bandwidth.spec_hci_bytes() + self.input_coding_format.spec_hci_bytes() + self.output_coding_format.spec_hci_bytes() + self.input_coded_data_size.spec_hci_bytes() + self.output_coded_data_size.spec_hci_bytes() + self.input_pcm_data_format.spec_hci_bytes() + self.output_pcm_data_format.spec_hci_bytes() + self.input_pcm_sample_payload_msb_position.spec_hci_bytes() + self.output_pcm_sample_payload_msb_position.spec_hci_bytes() + self.input_data_path.spec_hci_bytes()));
        }
        n = n + self.input_data_path.size();
        proof {
            assert(self.bd_addr.spec_hci_bytes() + self.transmit_bandwidth.spec_hci_bytes() + self.receive_bandwidth.spec_hci_bytes() + self.transmit_coding_format.spec_hci_bytes() + self.receive_coding_format.spec_hci_bytes() + self.transmit_codec_frame_size.spec_hci_bytes() + self.receive_codec_frame_size.spec_hci_bytes() + self.input_bandwidth.spec_hci_bytes() + self.output_bandwidth.spec_hci_bytes() + self.input_coding_format.spec_hci_bytes() + self.output_coding_format.spec_hci_bytes() + self.input_coded_data_size.spec_hci_bytes() + self.output_coded_data_size.spec_hci_bytes() + self.input_pcm_data_format.spec_hci_bytes() + self.output_pcm_data_format.spec_hci_bytes() + self.input_pcm_sample_payload_msb_position.spec_hci_bytes() + self.output_pcm_sample_payload_msb_position.spec_hci_bytes() + self.input_data_path.spec_hci_bytes() + self.output_data_path.spec_hci_bytes() =~= (self.bd_addr.spec_hci_bytes() + self.transmit_bandwidth.spec_hci_bytes() + self.receive_bandwidth.spec_hci_bytes() + self.transmit_coding_format.spec_hci_bytes() + self.receive_coding_format.spec_hci_bytes() + self.transmit_codec_frame_size.spec_hci_bytes() + self.receive_codec_frame_size.spec_hci_bytes() + self.input_bandwidth.spec_hci_bytes() + self.output_bandwidth.spec_hci_bytes() + self.input_coding_format.spec_hci_bytes() + self.output_coding_format.spec_hci_bytes() + self.input_coded_data_size.spec_hci_bytes() + self.output_coded_data_size.spec_hci_bytes() + self.input_pcm_data_format.spec_hci_bytes() + self.output_pcm_data_format.spec_hci_bytes() + self.input_pcm_sample_payload_msb_position.spec_hci_bytes() + self.output_pcm_sample_payload_msb_position.spec_hci_bytes() + self.input_data_path.spec_hci_bytes() + self.output_data_path.spec_hci_bytes()));
        }
        n = n + self.output_data_path.size();
        proof {
            assert(self.bd_addr.spec_hci_bytes() + self.transmit_bandwidth.spec_hci_bytes() + self.receive_bandwidth.spec_hci_bytes() + self.transmit_coding_format.spec_hci_bytes() + self.receive_coding_format.spec_hci_bytes() + self.transmit_codec_frame_size.spec_hci_bytes() + self.receive_codec_frame_size.spec_hci_bytes() + self.input_bandwidth.spec_hci_bytes() + self.output_bandwidth.spec_hci_bytes() + self.input_coding_format.spec_hci_bytes() + self.output_coding_format.spec_hci_bytes() + self.input_coded_data_size.spec_hci_bytes() + self.output_coded_data_size.spec_hci_bytes() + self.input_pcm_data_format.spec_hci_bytes() + self.output_pcm_data_format.spec_hci_bytes() + self.input_pcm_sample_payload_msb_position.spec_hci_bytes() + self.output_pcm_sample_payload_msb_position.spec_hci_bytes() + self.input_data_path.spec_hci_bytes() + self.output_data_path.spec_hci_bytes() + self.input_transport_unit_size.spec_hci_bytes() =~= (self.bd_addr.spec_hci_bytes() + self.transmit_bandwidth.spec_hci_bytes() + self.receive_bandwidth.spec_hci_bytes() + self.transmit_coding_format.spec_hci_bytes() + self.receive_coding_format.spec_hci_bytes() + self.transmit_codec_frame_size.spec_hci_bytes() + self.receive_codec_frame_size.spec_hci_bytes() + self.input_bandwidth.spec_hci_bytes() + self.output_bandwidth.spec_hci_bytes() + self.input_coding_format.spec_hci_bytes() + self.output_coding_format.spec_hci_bytes() + self.input_coded_data_size.spec_hci_bytes() + self.output_coded_data_size.spec_hci_bytes() + self.input_pcm_data_format.spec_hci_bytes() + self.output_pcm_data_format.spec_hci_bytes() + self.input_pcm_sample_payload_msb_position.spec_hci_bytes() + self.output_pcm_sample_payload_msb_position.spec_hci_bytes() + self.input_data_path.spec_hci_bytes() + self.output_data_path.spec_hci_bytes() + self.input_transport_unit_size.spec_hci_bytes()));
        }
        n = n + self.input_transport_unit_size.size();
        proof {
            assert(self.bd_addr.spec_hci_bytes() + self.transmit_bandwidth.spec_hci_bytes() + self.receive_bandwidth.spec_hci_bytes() + self.transmit_coding_format.spec_hci_bytes() + self.receive_coding_format.spec_hci_bytes() + self.transmit_codec_frame_size.spec_hci_bytes() + self.receive_codec_frame_size.spec_hci_bytes() + self.input_bandwidth.spec_hci_bytes() + self.output_bandwidth.spec_hci_bytes() + self.input_coding_format.spec_hci_bytes() + self.output_coding_format.spec_hci_bytes() + self.input_coded_data_size.spec_hci_bytes() + self.output_coded_data_size.spec_hci_bytes() + self.input_pcm_data_format.spec_hci_bytes() + self.output_pcm_data_format.spec_hci_bytes() + self.input_pcm_sample_payload_msb_position.spec_hci_bytes() + self.output_pcm_sample_payload_msb_position.spec_hci_bytes() + self.input_data_path.spec_hci_bytes() + self.output_data_path.spec_hci_bytes() + self.input_transport_unit_size.spec_hci_bytes() + self.output_transport_unit_size.spec_hci_bytes() =~= (self.bd_addr.spec_hci_bytes() + self.transmit_bandwidth.spec_hci_bytes() + self.receive_bandwidth.spec_hci_bytes() + self.transmit_coding_format.spec_hci_bytes() + self.receive_coding_format.spec_hci_bytes() + self.transmit_codec_frame_size.spec_hci_bytes() + self.receive_codec_frame_size.spec_hci_bytes() + self.input_bandwidth.spec_hci_bytes() + self.output_bandwidth.spec_hci_bytes() + self.input_coding_format.spec_hci_bytes() + self.output_coding_format.spec_hci_bytes() + self.input_coded_data_size.spec_hci_bytes() + self.output_coded_data_size.spec_hci_bytes() + self.input_pcm_data_format.spec_hci_bytes() + self.output_pcm_data_format.spec_hci_bytes() + self.input_pcm_sample_payload_msb_position.spec_hci_bytes() + self.output_pcm_sample_payload_msb_position.spec_hci_bytes() + self.input_data_path.spec_hci_bytes() + self.output_data_path.spec_hci_bytes() + self.input_transport_unit_size.spec_hci_bytes() + self.output_transport_unit_size.spec_hci_bytes()));
        }
        n = n + self.output_transport_unit_size.size();
        proof {
            assert(self.bd_addr.spec_hci_bytes() + self.transmit_bandwidth.spec_hci_bytes() + self.receive_bandwidth.spec_hci_bytes() + self.transmit_coding_format.spec_hci_bytes() + self.receive_coding_format.spec_hci_bytes() + self.transmit_codec_frame_size.spec_hci_bytes() + self.receive_codec_frame_size.spec_hci_bytes() + self.input_bandwidth.spec_hci_bytes() + self.output_bandwidth.spec_hci_bytes() + self.input_coding_format.spec_hci_bytes() + self.output_coding_format.spec_hci_bytes() + self.input_coded_data_size.spec_hci_bytes() + self.output_coded_data_size.spec_hci_bytes() + self.input_pcm_data_format.spec_hci_bytes() + self.output_pcm_data_format.spec_hci_bytes() + self.input_pcm_sample_payload_msb_position.spec_hci_bytes() + self.output_pcm_sample_payload_msb_position.spec_hci_bytes() + self.input_data_path.spec_hci_bytes() + self.output_data_path.spec_hci_bytes() + self.input_transport_unit_size.spec_hci_bytes() + self.output_transport_unit_size.spec_hci_bytes() + self.max_latency.spec_hci_bytes() =~= (self.bd_addr.spec_hci_bytes() + self.transmit_bandwidth.spec_hci_bytes() + self.receive_bandwidth.spec_hci_bytes() + self.transmit_coding_format.spec_hci_bytes() + self.receive_coding_format.spec_hci_bytes() + self.transmit_codec_frame_size.spec_hci_bytes() + self.receive_codec_frame_size.spec_hci_bytes() + self.input_bandwidth.spec_hci_bytes() + self.output_bandwidth.spec_hci_bytes() + self.input_coding_format.spec_hci_bytes() + self.output_coding_format.spec_hci_bytes() + self.input_coded_data_size.spec_hci_bytes() + self.output_coded_data_size.spec_hci_bytes() + self.input_pcm_data_format.spec_hci_bytes() + self.output_pcm_data_format.spec_hci_bytes() + self.input_pcm_sample_payload_msb_position.spec_hci_bytes() + self.output_pcm_sample_payload_msb_position.spec_hci_bytes() + self.input_data_path.spec_hci_bytes() + self.output_data_path.spec_hci_bytes() + self.input_transport_unit_size.spec_hci_bytes() + self.output_transport_unit_size.spec_hci_bytes() + self.max_latency.spec_hci_bytes()));
        }
        n = n + self.max_latency.size();
        proof {
            assert(self.bd_addr.spec_hci_bytes() + self.transmit_bandwidth.spec_hci_bytes() + self.receive_bandwidth.spec_hci_bytes() + self.transmit_coding_format.spec_hci_bytes() + self.receive_coding_format.spec_hci_bytes() + self.transmit_codec_frame_size.spec_hci_bytes() + self.receive_codec_frame_size.spec_hci_bytes() + self.input_bandwidth.spec_hci_bytes() + self.output_bandwidth.spec_hci_bytes() + self.input_coding_format.spec_hci_bytes() + self.output_coding_format.spec_hci_bytes() + self.input_coded_data_size.spec_hci_bytes() + self.output_coded_data_size.spec_hci_bytes() + self.input_pcm_data_format.spec_hci_bytes() + self.output_pcm_data_format.spec_hci_bytes() + self.input_pcm_sample_payload_msb_position.spec_hci_bytes() + self.output_pcm_sample_payload_msb_position.spec_hci_bytes() + self.input_data_path.spec_hci_bytes() + self.output_data_path.spec_hci_bytes() + self.input_transport_unit_size.spec_hci_bytes() + self.output_transport_unit_size.spec_hci_bytes() + self.max_latency.spec_hci_bytes() + self.packet_type.spec_hci_bytes() =~= (self.bd_addr.spec_hci_bytes() + self.transmit_bandwidth.spec_hci_bytes() + self.receive_bandwidth.spec_hci_bytes() + self.transmit_coding_format.spec_hci_bytes() + self.receive_coding_format.spec_hci_bytes() + self.transmit_codec_frame_size.spec_hci_bytes() + self.receive_codec_frame_size.spec_hci_bytes() + self.input_bandwidth.spec_hci_bytes() + self.output_bandwidth.spec_hci_bytes() + self.input_coding_format.spec_hci_bytes() + self.output_coding_format.spec_hci_bytes() + self.input_coded_data_size.spec_hci_bytes() + self.output_coded_data_size.spec_hci_bytes() + self.input_pcm_data_format.spec_hci_bytes() + self.output_pcm_data_format.spec_hci_bytes() + self.input_pcm_sample_payload_msb_position.spec_hci_bytes() + self.output_pcm_sample_payload_msb_position.spec_hci_bytes() + self.input_data_path.spec_hci_bytes() + self.output_data_path.spec_hci_bytes() + self.input_transport_unit_size.spec_hci_bytes() + self.output_transport_unit_size.spec_hci_bytes() + self.max_latency.spec_hci_bytes() + self.packet_type.spec_hci_bytes()));
        }
        n = n + self.packet_type.size();
        proof {
            assert(self.bd_addr.spec_hci_bytes() + self.transmit_bandwidth.spec_hci_bytes() + self.receive_bandwidth.spec_hci_bytes() + self.transmit_coding_format.spec_hci_bytes() + self.receive_coding_format.spec_hci_bytes() + self.transmit_codec_frame_size.spec_hci_bytes() + self.receive_codec_frame_size.spec_hci_bytes() + self.input_bandwidth.spec_hci_bytes() + self.output_bandwidth.spec_hci_bytes() + self.input_coding_format.spec_hci_bytes() + self.output_coding_format.spec_hci_bytes() + self.input_coded_data_size.spec_hci_bytes() + self.output_coded_data_size.spec_hci_bytes() + self.input_pcm_data_format.spec_hci_bytes() + self.output_pcm_data_format.spec_hci_bytes() + self.input_pcm_sample_payload_msb_position.spec_hci_bytes() + self.output_pcm_sample_payload_msb_position.spec_hci_bytes() + self.input_data_path.spec_hci_bytes() + self.output_data_path.spec_hci_bytes() + self.input_transport_unit_size.spec_hci_bytes() + self.output_transport_unit_size.spec_hci_bytes() + self.max_latency.spec_hci_bytes() + self.packet_type.spec_hci_bytes() + self.retransmission_effort.spec_hci_bytes() =~= (self.bd_addr.spec_hci_bytes() + self.transmit_bandwidth.spec_hci_bytes() + self.receive_bandwidth.spec_hci_bytes() + self.transmit_coding_format.spec_hci_bytes() + self.receive_coding_format.spec_hci_bytes() + self.transmit_codec_frame_size.spec_hci_bytes() + self.receive_codec_frame_size.spec_hci_bytes() + self.input_bandwidth.spec_hci_bytes() + self.output_bandwidth.spec_hci_bytes() + self.input_coding_format.spec_hci_bytes() + self.output_coding_format.spec_hci_bytes() + self.input_coded_data_size.spec_hci_bytes() + self.output_coded_data_size.spec_hci_bytes() + self.input_pcm_data_format.spec_hci_bytes() + self.output_pcm_data_format.spec_hci_bytes() + self.input_pcm_sample_payload_msb_position.spec_hci_bytes() + self.output_pcm_sample_payload_msb_position.spec_hci_bytes() + self.input_data_path.spec_hci_bytes() + self.output_data_path.spec_hci_bytes() + self.input_transport_unit_size.spec_hci_bytes() + self.output_transport_unit_size.spec_hci_bytes() + self.max_latency.spec_hci_bytes() + self.packet_type.spec_hci_bytes() + self.retransmission_effort.spec_hci_bytes()));
        }
        n = n + self.retransmission_effort.size();
        n
    }

    fn write_hci(&self, out: &mut Vec<u8>) {
        self.bd_addr.write_hci(out);
        self.transmit_bandwidth.write_hci(out);
        self.receive_bandwidth.write_hci(out);
        self.transmit_coding_format.write_hci(out);
        self.receive_coding_format.write_hci(out);
        self.transmit_codec_frame_size.write_hci(out);
        self.receive_codec_frame_size.write_hci(out);
        self.input_bandwidth.write_hci(out);
        self.output_bandwidth.write_hci(out);
        self.input_coding_format.write_hci(out);
        self.output_coding_format.write_hci(out);
        self.input_coded_data_size.write_hci(out);
        self.output_coded_data_size.write_hci(out);
        self.input_pcm_data_format.write_hci(out);
        self.output_pcm_data_format.write_hci(out);
        self.input_pcm_sample_payload_msb_position.write_hci(out);
        self.output_pcm_sample_payload_msb_position.write_hci(out);
        self.input_data_path.write_hci(out);
        self.output_data_path.write_hci(out);
        self.input_transport_unit_size.write_hci(out);
        self.output_transport_unit_size.write_hci(out);
        self.max_latency.write_hci(out);
        self.packet_type.write_hci(out);
        self.retransmission_effort.write_hci(out);
        proof {
            assert(out@ =~= old(out)@ + self.spec_hci_bytes());
        }
    }
}

impl EnhancedAcceptSynchronousConnectionRequestParams {
    /// The bytes of a `EnhancedAcceptSynchronousConnectionRequestParams` are the bytes of its fields, one after the
    /// other, in the order in which the fields are declared.
    #[verifier::rlimit(60)]
    pub proof fn lemma_fields_in_order(&self)
        ensures
            self.spec_hci_bytes() == self.bd_addr.spec_hci_bytes() + self.transmit_bandwidth.spec_hci_bytes() + self.receive_bandwidth.spec_hci_bytes() + self.transmit_coding_format.spec_hci_bytes() + self.receive_coding_format.spec_hci_bytes() + self.transmit_codec_frame_size.spec_hci_bytes() + self.receive_codec_frame_size.spec_hci_bytes() + self.input_bandwidth.spec_hci_bytes() + self.output_bandwidth.spec_hci_bytes() + self.input_coding_format.spec_hci_bytes() + self.output_coding_format.spec_hci_bytes() + self.input_coded_data_size.spec_hci_bytes() + self.output_coded_data_size.spec_hci_bytes() + self.input_pcm_data_format.spec_hci_bytes() + self.output_pcm_data_format.spec_hci_bytes() + self.input_pcm_sample_payload_msb_position.spec_hci_bytes() + self.output_pcm_sample_payload_msb_position.spec_hci_bytes() + self.input_data_path.spec_hci_bytes() + self.output_data_path.spec_hci_bytes() + self.input_transport_unit_size.spec_hci_bytes() + self.output_transport_unit_size.spec_hci_bytes() + self.max_latency.spec_hci_bytes() + self.packet_type.spec_hci_bytes() + self.retransmission_effort.spec_hci_bytes(),
    {
    }
}


} // verus!
