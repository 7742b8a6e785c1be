//! Masks of the features that a controller or a remote device supports.

use vstd::prelude::*;

use crate::{FixedSizeValue, FromHciBytes, FromHciBytesError, HciCodec, WriteHci};
use crate::param::bits::{bit_is_set, spec_bit, spec_with_bit, with_bit};
use crate::param::primitives::spec_u16_le_bytes;

verus! {

/// Extended LMP features that can be viewed as different page types.
#[derive(Default, Debug, Clone, Copy, PartialEq, Eq, PartialOrd, Ord, Hash)]
pub struct ExtendedLmpFeatures([u8; 8]);

impl View for ExtendedLmpFeatures {
    type V = Seq<u8>;

    closed spec fn view(&self) -> Seq<u8> {
        self.0@
    }
}

impl ExtendedLmpFeatures {
    /// View as page 0 LMP features.
    pub fn as_page_0(&self) -> (r: LmpFeatureMask)
        ensures
            r@ == self@,
    {
        LmpFeatureMask(self.0)
    }

    /// View as page 1 LMP features.
    pub fn as_page_1(&self) -> (r: LmpFeatureMaskPage1)
        ensures
            r@ == self@,
    {
        LmpFeatureMaskPage1(self.0)
    }

    /// View as page 2 LMP features.
    pub fn as_page_2(&self) -> (r: LmpFeatureMaskPage2)
        ensures
            r@ == self@,
    {
        LmpFeatureMaskPage2(self.0)
    }
}

impl<'de> FromHciBytes<'de> for ExtendedLmpFeatures {
    open spec fn spec_from_hci_bytes(data: Seq<u8>) -> Result<(Seq<u8>, nat), FromHciBytesError> {
        <[u8; 8] as FromHciBytes<'de>>::spec_from_hci_bytes(data)
    }

    fn from_hci_bytes(data: &'de [u8]) -> (r: Result<(ExtendedLmpFeatures, &'de [u8]), FromHciBytesError>) {
        match <[u8; 8] as FromHciBytes<'de>>::from_hci_bytes(data) {
            Ok((v, rest)) => Ok((ExtendedLmpFeatures(v), rest)),
            Err(e) => Err(e),
        }
    }
}

impl WriteHci for ExtendedLmpFeatures {
    open spec fn spec_hci_bytes(&self) -> Seq<u8> {
        self@
    }

    fn size(&self) -> (r: usize) {
        8
    }

    fn write_hci(&self, out: &mut Vec<u8>) {
        self.0.write_hci(out);
    }
}

impl FixedSizeValue for ExtendedLmpFeatures {
    open spec fn spec_size() -> nat {
        8
    }

    proof fn lemma_fixed_size(&self) {
    }
}

impl<'de> HciCodec<'de> for ExtendedLmpFeatures {
    open spec fn spec_encodable(&self) -> bool {
        true
    }

    proof fn lemma_write_then_read(&self, rest: Seq<u8>) {
        self.0.lemma_write_then_read(rest);
    }
}

/// LmpFeatureMask
#[derive(Debug, Clone, Copy, PartialEq, Eq, PartialOrd, Ord, Hash, Default)]
pub struct LmpFeatureMask([u8; 8]);

impl View for LmpFeatureMask {
    type V = Seq<u8>;

    closed spec fn view(&self) -> Seq<u8> {
        self.0@
    }
}

impl LmpFeatureMask {
    /// Create a new instance with every bit clear.
    pub fn new() -> (r: Self)
        ensures
            r@ == Seq::new(8, |i: int| 0u8),
    {
        let r = LmpFeatureMask([0u8; 8]);
        proof {
            assert(r@ =~= Seq::new(8, |i: int| 0u8));
        }
        r
    }

    /// Get the inner representation.
    pub fn into_inner(self) -> (r: [u8; 8])
        ensures
            r@ == self@,
    {
        self.0
    }

    /// The representation has one byte per octet.
    pub proof fn lemma_len(&self)
        ensures
            self@.len() == 8,
    {
    }

    /// Whether bit 0 is set.
    pub fn supports_3_slot_packets(&self) -> (r: bool)
        ensures
            r == spec_bit(self@[0], 0u8),
    {
        bit_is_set(self.0[0], 0u8)
    }

    /// Set bit 0 to `val`.
    pub fn set_3_slot_packets(self, val: bool) -> (r: Self)
        ensures
            r@ == self@.update(0, spec_with_bit(self@[0], 0u8, val)),
    {
        let mut bytes = self.0;
        bytes[0] = with_bit(bytes[0], 0u8, val);
        let r = LmpFeatureMask(bytes);
        proof {
            assert(r@ =~= self@.update(0, spec_with_bit(self@[0], 0u8, val)));
        }
        r
    }

    /// Whether bit 1 is set.
    pub fn supports_5_slot_packets(&self) -> (r: bool)
        ensures
            r == spec_bit(self@[0], 1u8),
    {
        bit_is_set(self.0[0], 1u8)
    }

    /// Set bit 1 to `val`.
    pub fn set_5_slot_packets(self, val: bool) -> (r: Self)
        ensures
            r@ == self@.update(0, spec_with_bit(self@[0], 1u8, val)),
    {
        let mut bytes = self.0;
        bytes[0] = with_bit(bytes[0], 1u8, val);
        let r = LmpFeatureMask(bytes);
        proof {
            assert(r@ =~= self@.update(0, spec_with_bit(self@[0], 1u8, val)));
        }
        r
    }

    /// Whether bit 2 is set.
    pub fn supports_encryption(&self) -> (r: bool)
        ensures
            r == spec_bit(self@[0], 2u8),
    {
        bit_is_set(self.0[0], 2u8)
    }

    /// Set bit 2 to `val`.
    pub fn set_encryption(self, val: bool) -> (r: Self)
        ensures
            r@ == self@.update(0, spec_with_bit(self@[0], 2u8, val)),
    {
        let mut bytes = self.0;
        bytes[0] = with_bit(bytes[0], 2u8, val);
        let r = LmpFeatureMask(bytes);
        proof {
            assert(r@ =~= self@.update(0, spec_with_bit(self@[0], 2u8, val)));
        }
        r
    }

    /// Whether bit 3 is set.
    pub fn supports_slot_offset(&self) -> (r: bool)
        ensures
            r == spec_bit(self@[0], 3u8),
    {
        bit_is_set(self.0[0], 3u8)
    }

    /// Set bit 3 to `val`.
    pub fn set_slot_offset(self, val: bool) -> (r: Self)
        ensures
            r@ == self@.update(0, spec_with_bit(self@[0], 3u8, val)),
    {
        let mut bytes = self.0;
        bytes[0] = with_bit(bytes[0], 3u8, val);
        let r = LmpFeatureMask(bytes);
        proof {
            assert(r@ =~= self@.update(0, spec_with_bit(self@[0], 3u8, val)));
        }
        r
    }

    /// Whether bit 4 is set.
    pub fn supports_timing_accuracy(&self) -> (r: bool)
        ensures
            r == spec_bit(self@[0], 4u8),
    {
        bit_is_set(self.0[0], 4u8)
    }

    /// Set bit 4 to `val`.
    pub fn set_timing_accuracy(self, val: bool) -> (r: Self)
        ensures
            r@ == self@.update(0, spec_with_bit(self@[0], 4u8, val)),
    {
        let mut bytes = self.0;
        bytes[0] = with_bit(bytes[0], 4u8, val);
        let r = LmpFeatureMask(bytes);
        proof {
            assert(r@ =~= self@.update(0, spec_with_bit(self@[0], 4u8, val)));
        }
        r
    }

    /// Whether bit 5 is set.
    pub fn supports_role_switch(&self) -> (r: bool)
        ensures
            r == spec_bit(self@[0], 5u8),
    {
        bit_is_set(self.0[0], 5u8)
    }

    /// Set bit 5 to `val`.
    pub fn set_role_switch(self, val: bool) -> (r: Self)
        ensures
            r@ == self@.update(0, spec_with_bit(self@[0], 5u8, val)),
    {
        let mut bytes = self.0;
        bytes[0] = with_bit(bytes[0], 5u8, val);
        let r = LmpFeatureMask(bytes);
        proof {
            assert(r@ =~= self@.update(0, spec_with_bit(self@[0], 5u8, val)));
        }
        r
    }

    /// Whether bit 6 is set.
    pub fn supports_hold_mode(&self) -> (r: bool)
        ensures
            r == spec_bit(self@[0], 6u8),
    {
        bit_is_set(self.0[0], 6u8)
    }

    /// Set bit 6 to `val`.
    pub fn set_hold_mode(self, val: bool) -> (r: Self)
        ensures
            r@ == self@.update(0, spec_with_bit(self@[0], 6u8, val)),
    {
        let mut bytes = self.0;
        bytes[0] = with_bit(bytes[0], 6u8, val);
        let r = LmpFeatureMask(bytes);
        proof {
            assert(r@ =~= self@.update(0, spec_with_bit(self@[0], 6u8, val)));
        }
        r
    }

    /// Whether bit 7 is set.
    pub fn supports_sniff_mode(&self) -> (r: bool)
        ensures
            r == spec_bit(self@[0], 7u8),
    {
        bit_is_set(self.0[0], 7u8)
    }

    /// Set bit 7 to `val`.
    pub fn set_sniff_mode(self, val: bool) -> (r: Self)
        ensures
            r@ == self@.update(0, spec_with_bit(self@[0], 7u8, val)),
    {
        let mut bytes = self.0;
        bytes[0] = with_bit(bytes[0], 7u8, val);
        let r = LmpFeatureMask(bytes);
        proof {
            assert(r@ =~= self@.update(0, spec_with_bit(self@[0], 7u8, val)));
        }
        r
    }

    /// Whether bit 9 is set.
    pub fn supports_power_control_requests(&self) -> (r: bool)
        ensures
            r == spec_bit(self@[1], 1u8),
    {
        bit_is_set(self.0[1], 1u8)
    }

    /// Set bit 9 to `val`.
    pub fn set_power_control_requests(self, val: bool) -> (r: Self)
        ensures
            r@ == self@.update(1, spec_with_bit(self@[1], 1u8, val)),
    {
        let mut bytes = self.0;
        bytes[1] = with_bit(bytes[1], 1u8, val);
        let r = LmpFeatureMask(bytes);
        proof {
            assert(r@ =~= self@.update(1, spec_with_bit(self@[1], 1u8, val)));
        }
        r
    }

    /// Whether bit 10 is set.
    pub fn supports_cqddr(&self) -> (r: bool)
        ensures
            r == spec_bit(self@[1], 2u8),
    {
        bit_is_set(self.0[1], 2u8)
    }

    /// Set bit 10 to `val`.
    pub fn set_cqddr(self, val: bool) -> (r: Self)
        ensures
            r@ == self@.update(1, spec_with_bit(self@[1], 2u8, val)),
    {
        let mut bytes = self.0;
        bytes[1] = with_bit(bytes[1], 2u8, val);
        let r = LmpFeatureMask(bytes);
        proof {
            assert(r@ =~= self@.update(1, spec_with_bit(self@[1], 2u8, val)));
        }
        r
    }

    /// Whether bit 11 is set.
    pub fn supports_sco_link(&self) -> (r: bool)
        ensures
            r == spec_bit(self@[1], 3u8),
    {
        bit_is_set(self.0[1], 3u8)
    }

    /// Set bit 11 to `val`.
    pub fn set_sco_link(self, val: bool) -> (r: Self)
        ensures
            r@ == self@.update(1, spec_with_bit(self@[1], 3u8, val)),
    {
        let mut bytes = self.0;
        bytes[1] = with_bit(bytes[1], 3u8, val);
        let r = LmpFeatureMask(bytes);
        proof {
            assert(r@ =~= self@.update(1, spec_with_bit(self@[1], 3u8, val)));
        }
        r
    }

    /// Whether bit 12 is set.
    pub fn supports_hv2_packets(&self) -> (r: bool)
        ensures
            r == spec_bit(self@[1], 4u8),
    {
        bit_is_set(self.0[1], 4u8)
    }

    /// Set bit 12 to `val`.
    pub fn set_hv2_packets(self, val: bool) -> (r: Self)
        ensures
            r@ == self@.update(1, spec_with_bit(self@[1], 4u8, val)),
    {
        let mut bytes = self.0;
        bytes[1] = with_bit(bytes[1], 4u8, val);
        let r = LmpFeatureMask(bytes);
        proof {
            assert(r@ =~= self@.update(1, spec_with_bit(self@[1], 4u8, val)));
        }
        r
    }

    /// Whether bit 13 is set.
    pub fn supports_hv3_packets(&self) -> (r: bool)
        ensures
            r == spec_bit(self@[1], 5u8),
    {
        bit_is_set(self.0[1], 5u8)
    }

    /// Set bit 13 to `val`.
    pub fn set_hv3_packets(self, val: bool) -> (r: Self)
        ensures
            r@ == self@.update(1, spec_with_bit(self@[1], 5u8, val)),
    {
        let mut bytes = self.0;
        bytes[1] = with_bit(bytes[1], 5u8, val);
        let r = LmpFeatureMask(bytes);
        proof {
            assert(r@ =~= self@.update(1, spec_with_bit(self@[1], 5u8, val)));
        }
        r
    }

    /// Whether bit 14 is set.
    pub fn supports_mu_law_log_synchronous_data(&self) -> (r: bool)
        ensures
            r == spec_bit(self@[1], 6u8),
    {
        bit_is_set(self.0[1], 6u8)
    }

    /// Set bit 14 to `val`.
    pub fn set_mu_law_log_synchronous_data(self, val: bool) -> (r: Self)
        ensures
            r@ == self@.update(1, spec_with_bit(self@[1], 6u8, val)),
    {
        let mut bytes = self.0;
        bytes[1] = with_bit(bytes[1], 6u8, val);
        let r = LmpFeatureMask(bytes);
        proof {
            assert(r@ =~= self@.update(1, spec_with_bit(self@[1], 6u8, val)));
        }
        r
    }

    /// Whether bit 15 is set.
    pub fn supports_a_law_log_synchronous_data(&self) -> (r: bool)
        ensures
            r == spec_bit(self@[1], 7u8),
    {
        bit_is_set(self.0[1], 7u8)
    }

    /// Set bit 15 to `val`.
    pub fn set_a_law_log_synchronous_data(self, val: bool) -> (r: Self)
        ensures
            r@ == self@.update(1, spec_with_bit(self@[1], 7u8, val)),
    {
        let mut bytes = self.0;
        bytes[1] = with_bit(bytes[1], 7u8, val);
        let r = LmpFeatureMask(bytes);
        proof {
            assert(r@ =~= self@.update(1, spec_with_bit(self@[1], 7u8, val)));
        }
        r
    }

    /// Whether bit 16 is set.
    pub fn supports_cvsd_synchronous_data(&self) -> (r: bool)
        ensures
            r == spec_bit(self@[2], 0u8),
    {
        bit_is_set(self.0[2], 0u8)
    }

    /// Set bit 16 to `val`.
    pub fn set_cvsd_synchronous_data(self, val: bool) -> (r: Self)
        ensures
            r@ == self@.update(2, spec_with_bit(self@[2], 0u8, val)),
    {
        let mut bytes = self.0;
        bytes[2] = with_bit(bytes[2], 0u8, val);
        let r = LmpFeatureMask(bytes);
        proof {
            assert(r@ =~= self@.update(2, spec_with_bit(self@[2], 0u8, val)));
        }
        r
    }

    /// Whether bit 17 is set.
    pub fn supports_paging_parameter_negotiation(&self) -> (r: bool)
        ensures
            r == spec_bit(self@[2], 1u8),
    {
        bit_is_set(self.0[2], 1u8)
    }

    /// Set bit 17 to `val`.
    pub fn set_paging_parameter_negotiation(self, val: bool) -> (r: Self)
        ensures
            r@ == self@.update(2, spec_with_bit(self@[2], 1u8, val)),
    {
        let mut bytes = self.0;
        bytes[2] = with_bit(bytes[2], 1u8, val);
        let r = LmpFeatureMask(bytes);
        proof {
            assert(r@ =~= self@.update(2, spec_with_bit(self@[2], 1u8, val)));
        }
        r
    }

    /// Whether bit 18 is set.
    pub fn supports_power_control(&self) -> (r: bool)
        ensures
            r == spec_bit(self@[2], 2u8),
    {
        bit_is_set(self.0[2], 2u8)
    }

    /// Set bit 18 to `val`.
    pub fn set_power_control(self, val: bool) -> (r: Self)
        ensures
            r@ == self@.update(2, spec_with_bit(self@[2], 2u8, val)),
    {
        let mut bytes = self.0;
        bytes[2] = with_bit(bytes[2], 2u8, val);
        let r = LmpFeatureMask(bytes);
        proof {
            assert(r@ =~= self@.update(2, spec_with_bit(self@[2], 2u8, val)));
        }
        r
    }

    /// Whether bit 19 is set.
    pub fn supports_transparent_synchronous_data(&self) -> (r: bool)
        ensures
            r == spec_bit(self@[2], 3u8),
    {
        bit_is_set(self.0[2], 3u8)
    }

    /// Set bit 19 to `val`.
    pub fn set_transparent_synchronous_data(self, val: bool) -> (r: Self)
        ensures
            r@ == self@.update(2, spec_with_bit(self@[2], 3u8, val)),
    {
        let mut bytes = self.0;
        bytes[2] = with_bit(bytes[2], 3u8, val);
        let r = LmpFeatureMask(bytes);
        proof {
            assert(r@ =~= self@.update(2, spec_with_bit(self@[2], 3u8, val)));
        }
        r
    }

    /// Whether bit 20 is set.
    pub fn supports_flow_control_lag_lsb(&self) -> (r: bool)
        ensures
            r == spec_bit(self@[2], 4u8),
    {
        bit_is_set(self.0[2], 4u8)
    }

    /// Set bit 20 to `val`.
    pub fn set_flow_control_lag_lsb(self, val: bool) -> (r: Self)
        ensures
            r@ == self@.update(2, spec_with_bit(self@[2], 4u8, val)),
    {
        let mut bytes = self.0;
        bytes[2] = with_bit(bytes[2], 4u8, val);
        let r = LmpFeatureMask(bytes);
        proof {
            assert(r@ =~= self@.update(2, spec_with_bit(self@[2], 4u8, val)));
        }
        r
    }

    /// Whether bit 21 is set.
    pub fn supports_flow_control_lag_middle_bit(&self) -> (r: bool)
        ensures
            r == spec_bit(self@[2], 5u8),
    {
        bit_is_set(self.0[2], 5u8)
    }

    /// Set bit 21 to `val`.
    pub fn set_flow_control_lag_middle_bit(self, val: bool) -> (r: Self)
        ensures
            r@ == self@.update(2, spec_with_bit(self@[2], 5u8, val)),
    {
        let mut bytes = self.0;
        bytes[2] = with_bit(bytes[2], 5u8, val);
        let r = LmpFeatureMask(bytes);
        proof {
            assert(r@ =~= self@.update(2, spec_with_bit(self@[2], 5u8, val)));
        }
        r
    }

    /// Whether bit 22 is set.
    pub fn supports_flow_control_lag_msb(&self) -> (r: bool)
        ensures
            r == spec_bit(self@[2], 6u8),
    {
        bit_is_set(self.0[2], 6u8)
    }

    /// Set bit 22 to `val`.
    pub fn set_flow_control_lag_msb(self, val: bool) -> (r: Self)
        ensures
            r@ == self@.update(2, spec_with_bit(self@[2], 6u8, val)),
    {
        let mut bytes = self.0;
        bytes[2] = with_bit(bytes[2], 6u8, val);
        let r = LmpFeatureMask(bytes);
        proof {
            assert(r@ =~= self@.update(2, spec_with_bit(self@[2], 6u8, val)));
        }
        r
    }

    /// Whether bit 23 is set.
    pub fn supports_broadcast_encryption(&self) -> (r: bool)
        ensures
            r == spec_bit(self@[2], 7u8),
    {
        bit_is_set(self.0[2], 7u8)
    }

    /// Set bit 23 to `val`.
    pub fn set_broadcast_encryption(self, val: bool) -> (r: Self)
        ensures
            r@ == self@.update(2, spec_with_bit(self@[2], 7u8, val)),
    {
        let mut bytes = self.0;
        bytes[2] = with_bit(bytes[2], 7u8, val);
        let r = LmpFeatureMask(bytes);
        proof {
            assert(r@ =~= self@.update(2, spec_with_bit(self@[2], 7u8, val)));
        }
        r
    }

    /// Whether bit 25 is set.
    pub fn supports_enhanced_data_rate_acl_2mbps_mode(&self) -> (r: bool)
        ensures
            r == spec_bit(self@[3], 1u8),
    {
        bit_is_set(self.0[3], 1u8)
    }

    /// Set bit 25 to `val`.
    pub fn set_enhanced_data_rate_acl_2mbps_mode(self, val: bool) -> (r: Self)
        ensures
            r@ == self@.update(3, spec_with_bit(self@[3], 1u8, val)),
    {
        let mut bytes = self.0;
        bytes[3] = with_bit(bytes[3], 1u8, val);
        let r = LmpFeatureMask(bytes);
        proof {
            assert(r@ =~= self@.update(3, spec_with_bit(self@[3], 1u8, val)));
        }
        r
    }

    /// Whether bit 26 is set.
    pub fn supports_enhanced_data_rate_acl_3mbps_mode(&self) -> (r: bool)
        ensures
            r == spec_bit(self@[3], 2u8),
    {
        bit_is_set(self.0[3], 2u8)
    }

    /// Set bit 26 to `val`.
    pub fn set_enhanced_data_rate_acl_3mbps_mode(self, val: bool) -> (r: Self)
        ensures
            r@ == self@.update(3, spec_with_bit(self@[3], 2u8, val)),
    {
        let mut bytes = self.0;
        bytes[3] = with_bit(bytes[3], 2u8, val);
        let r = LmpFeatureMask(bytes);
        proof {
            assert(r@ =~= self@.update(3, spec_with_bit(self@[3], 2u8, val)));
        }
        r
    }

    /// Whether bit 27 is set.
    pub fn supports_enhanced_inquiry_scan(&self) -> (r: bool)
        ensures
            r == spec_bit(self@[3], 3u8),
    {
        bit_is_set(self.0[3], 3u8)
    }

    /// Set bit 27 to `val`.
    pub fn set_enhanced_inquiry_scan(self, val: bool) -> (r: Self)
        ensures
            r@ == self@.update(3, spec_with_bit(self@[3], 3u8, val)),
    {
        let mut bytes = self.0;
        bytes[3] = with_bit(bytes[3], 3u8, val);
        let r = LmpFeatureMask(bytes);
        proof {
            assert(r@ =~= self@.update(3, spec_with_bit(self@[3], 3u8, val)));
        }
        r
    }

    /// Whether bit 28 is set.
    pub fn supports_interlaced_inquiry_scan(&self) -> (r: bool)
        ensures
            r == spec_bit(self@[3], 4u8),
    {
        bit_is_set(self.0[3], 4u8)
    }

    /// Set bit 28 to `val`.
    pub fn set_interlaced_inquiry_scan(self, val: bool) -> (r: Self)
        ensures
            r@ == self@.update(3, spec_with_bit(self@[3], 4u8, val)),
    {
        let mut bytes = self.0;
        bytes[3] = with_bit(bytes[3], 4u8, val);
        let r = LmpFeatureMask(bytes);
        proof {
            assert(r@ =~= self@.update(3, spec_with_bit(self@[3], 4u8, val)));
        }
        r
    }

    /// Whether bit 29 is set.
    pub fn supports_interlaced_page_scan(&self) -> (r: bool)
        ensures
            r == spec_bit(self@[3], 5u8),
    {
        bit_is_set(self.0[3], 5u8)
    }

    /// Set bit 29 to `val`.
    pub fn set_interlaced_page_scan(self, val: bool) -> (r: Self)
        ensures
            r@ == self@.update(3, spec_with_bit(self@[3], 5u8, val)),
    {
        let mut bytes = self.0;
        bytes[3] = with_bit(bytes[3], 5u8, val);
        let r = LmpFeatureMask(bytes);
        proof {
            assert(r@ =~= self@.update(3, spec_with_bit(self@[3], 5u8, val)));
        }
        r
    }

    /// Whether bit 30 is set.
    pub fn supports_rssi_with_inquiry_results(&self) -> (r: bool)
        ensures
            r == spec_bit(self@[3], 6u8),
    {
        bit_is_set(self.0[3], 6u8)
    }

    /// Set bit 30 to `val`.
    pub fn set_rssi_with_inquiry_results(self, val: bool) -> (r: Self)
        ensures
            r@ == self@.update(3, spec_with_bit(self@[3], 6u8, val)),
    {
        let mut bytes = self.0;
        bytes[3] = with_bit(bytes[3], 6u8, val);
        let r = LmpFeatureMask(bytes);
        proof {
            assert(r@ =~= self@.update(3, spec_with_bit(self@[3], 6u8, val)));
        }
        r
    }

    /// Whether bit 31 is set.
    pub fn supports_ext_sco_link(&self) -> (r: bool)
        ensures
            r == spec_bit(self@[3], 7u8),
    {
        bit_is_set(self.0[3], 7u8)
    }

    /// Set bit 31 to `val`.
    pub fn set_ext_sco_link(self, val: bool) -> (r: Self)
        ensures
            r@ == self@.update(3, spec_with_bit(self@[3], 7u8, val)),
    {
        let mut bytes = self.0;
        bytes[3] = with_bit(bytes[3], 7u8, val);
        let r = LmpFeatureMask(bytes);
        proof {
            assert(r@ =~= self@.update(3, spec_with_bit(self@[3], 7u8, val)));
        }
        r
    }

    /// Whether bit 32 is set.
    pub fn supports_ev4_packets(&self) -> (r: bool)
        ensures
            r == spec_bit(self@[4], 0u8),
    {
        bit_is_set(self.0[4], 0u8)
    }

    /// Set bit 32 to `val`.
    pub fn set_ev4_packets(self, val: bool) -> (r: Self)
        ensures
            r@ == self@.update(4, spec_with_bit(self@[4], 0u8, val)),
    {
        let mut bytes = self.0;
        bytes[4] = with_bit(bytes[4], 0u8, val);
        let r = LmpFeatureMask(bytes);
        proof {
            assert(r@ =~= self@.update(4, spec_with_bit(self@[4], 0u8, val)));
        }
        r
    }

    /// Whether bit 33 is set.
    pub fn supports_ev5_packets(&self) -> (r: bool)
        ensures
            r == spec_bit(self@[4], 1u8),
    {
        bit_is_set(self.0[4], 1u8)
    }

    /// Set bit 33 to `val`.
    pub fn set_ev5_packets(self, val: bool) -> (r: Self)
        ensures
            r@ == self@.update(4, spec_with_bit(self@[4], 1u8, val)),
    {
        let mut bytes = self.0;
        bytes[4] = with_bit(bytes[4], 1u8, val);
        let r = LmpFeatureMask(bytes);
        proof {
            assert(r@ =~= self@.update(4, spec_with_bit(self@[4], 1u8, val)));
        }
        r
    }

    /// Whether bit 35 is set.
    pub fn supports_afh_capable_peripheral(&self) -> (r: bool)
        ensures
            r == spec_bit(self@[4], 3u8),
    {
        bit_is_set(self.0[4], 3u8)
    }

    /// Set bit 35 to `val`.
    pub fn set_afh_capable_peripheral(self, val: bool) -> (r: Self)
        ensures
            r@ == self@.update(4, spec_with_bit(self@[4], 3u8, val)),
    {
        let mut bytes = self.0;
        bytes[4] = with_bit(bytes[4], 3u8, val);
        let r = LmpFeatureMask(bytes);
        proof {
            assert(r@ =~= self@.update(4, spec_with_bit(self@[4], 3u8, val)));
        }
        r
    }

    /// Whether bit 36 is set.
    pub fn supports_afh_classification_peripheral(&self) -> (r: bool)
        ensures
            r == spec_bit(self@[4], 4u8),
    {
        bit_is_set(self.0[4], 4u8)
    }

    /// Set bit 36 to `val`.
    pub fn set_afh_classification_peripheral(self, val: bool) -> (r: Self)
        ensures
            r@ == self@.update(4, spec_with_bit(self@[4], 4u8, val)),
    {
        let mut bytes = self.0;
        bytes[4] = with_bit(bytes[4], 4u8, val);
        let r = LmpFeatureMask(bytes);
        proof {
            assert(r@ =~= self@.update(4, spec_with_bit(self@[4], 4u8, val)));
        }
        r
    }

    /// Whether bit 37 is set.
    pub fn supports_br_edr_not(&self) -> (r: bool)
        ensures
            r == spec_bit(self@[4], 5u8),
    {
        bit_is_set(self.0[4], 5u8)
    }

    /// Set bit 37 to `val`.
    pub fn set_br_edr_not(self, val: bool) -> (r: Self)
        ensures
            r@ == self@.update(4, spec_with_bit(self@[4], 5u8, val)),
    {
        let mut bytes = self.0;
        bytes[4] = with_bit(bytes[4], 5u8, val);
        let r = LmpFeatureMask(bytes);
        proof {
            assert(r@ =~= self@.update(4, spec_with_bit(self@[4], 5u8, val)));
        }
        r
    }

    /// Whether bit 38 is set.
    pub fn supports_le(&self) -> (r: bool)
        ensures
            r == spec_bit(self@[4], 6u8),
    {
        bit_is_set(self.0[4], 6u8)
    }

    /// Set bit 38 to `val`.
    pub fn set_le(self, val: bool) -> (r: Self)
        ensures
            r@ == self@.update(4, spec_with_bit(self@[4], 6u8, val)),
    {
        let mut bytes = self.0;
        bytes[4] = with_bit(bytes[4], 6u8, val);
        let r = LmpFeatureMask(bytes);
        proof {
            assert(r@ =~= self@.update(4, spec_with_bit(self@[4], 6u8, val)));
        }
        r
    }

    /// Whether bit 39 is set.
    pub fn supports_3_slot_enhanced_data_rate_acl_packets(&self) -> (r: bool)
        ensures
            r == spec_bit(self@[4], 7u8),
    {
        bit_is_set(self.0[4], 7u8)
    }

    /// Set bit 39 to `val`.
    pub fn set_3_slot_enhanced_data_rate_acl_packets(self, val: bool) -> (r: Self)
        ensures
            r@ == self@.update(4, spec_with_bit(self@[4], 7u8, val)),
    {
        let mut bytes = self.0;
        bytes[4] = with_bit(bytes[4], 7u8, val);
        let r = LmpFeatureMask(bytes);
        proof {
            assert(r@ =~= self@.update(4, spec_with_bit(self@[4], 7u8, val)));
        }
        r
    }

    /// Whether bit 40 is set.
    pub fn supports_5_slot_enhanced_data_rate_acl_packets(&self) -> (r: bool)
        ensures
            r == spec_bit(self@[5], 0u8),
    {
        bit_is_set(self.0[5], 0u8)
    }

    /// Set bit 40 to `val`.
    pub fn set_5_slot_enhanced_data_rate_acl_packets(self, val: bool) -> (r: Self)
        ensures
            r@ == self@.update(5, spec_with_bit(self@[5], 0u8, val)),
    {
        let mut bytes = self.0;
        bytes[5] = with_bit(bytes[5], 0u8, val);
        let r = LmpFeatureMask(bytes);
        proof {
            assert(r@ =~= self@.update(5, spec_with_bit(self@[5], 0u8, val)));
        }
        r
    }

    /// Whether bit 41 is set.
    pub fn supports_sniff_subrating(&self) -> (r: bool)
        ensures
            r == spec_bit(self@[5], 1u8),
    {
        bit_is_set(self.0[5], 1u8)
    }

    /// Set bit 41 to `val`.
    pub fn set_sniff_subrating(self, val: bool) -> (r: Self)
        ensures
            r@ == self@.update(5, spec_with_bit(self@[5], 1u8, val)),
    {
        let mut bytes = self.0;
        bytes[5] = with_bit(bytes[5], 1u8, val);
        let r = LmpFeatureMask(bytes);
        proof {
            assert(r@ =~= self@.update(5, spec_with_bit(self@[5], 1u8, val)));
        }
        r
    }

    /// Whether bit 42 is set.
    pub fn supports_pause_encryption(&self) -> (r: bool)
        ensures
            r == spec_bit(self@[5], 2u8),
    {
        bit_is_set(self.0[5], 2u8)
    }

    /// Set bit 42 to `val`.
    pub fn set_pause_encryption(self, val: bool) -> (r: Self)
        ensures
            r@ == self@.update(5, spec_with_bit(self@[5], 2u8, val)),
    {
        let mut bytes = self.0;
        bytes[5] = with_bit(bytes[5], 2u8, val);
        let r = LmpFeatureMask(bytes);
        proof {
            assert(r@ =~= self@.update(5, spec_with_bit(self@[5], 2u8, val)));
        }
        r
    }

    /// Whether bit 43 is set.
    pub fn supports_afh_capable_central(&self) -> (r: bool)
        ensures
            r == spec_bit(self@[5], 3u8),
    {
        bit_is_set(self.0[5], 3u8)
    }

    /// Set bit 43 to `val`.
    pub fn set_afh_capable_central(self, val: bool) -> (r: Self)
        ensures
            r@ == self@.update(5, spec_with_bit(self@[5], 3u8, val)),
    {
        let mut bytes = self.0;
        bytes[5] = with_bit(bytes[5], 3u8, val);
        let r = LmpFeatureMask(bytes);
        proof {
            assert(r@ =~= self@.update(5, spec_with_bit(self@[5], 3u8, val)));
        }
        r
    }

    /// Whether bit 44 is set.
    pub fn supports_afh_classification_central(&self) -> (r: bool)
        ensures
            r == spec_bit(self@[5], 4u8),
    {
        bit_is_set(self.0[5], 4u8)
    }

    /// Set bit 44 to `val`.
    pub fn set_afh_classification_central(self, val: bool) -> (r: Self)
        ensures
            r@ == self@.update(5, spec_with_bit(self@[5], 4u8, val)),
    {
        let mut bytes = self.0;
        bytes[5] = with_bit(bytes[5], 4u8, val);
        let r = LmpFeatureMask(bytes);
        proof {
            assert(r@ =~= self@.update(5, spec_with_bit(self@[5], 4u8, val)));
        }
        r
    }

    /// Whether bit 45 is set.
    pub fn supports_enhanced_data_rate_esco_2mbps_mode(&self) -> (r: bool)
        ensures
            r == spec_bit(self@[5], 5u8),
    {
        bit_is_set(self.0[5], 5u8)
    }

    /// Set bit 45 to `val`.
    pub fn set_enhanced_data_rate_esco_2mbps_mode(self, val: bool) -> (r: Self)
        ensures
            r@ == self@.update(5, spec_with_bit(self@[5], 5u8, val)),
    {
        let mut bytes = self.0;
        bytes[5] = with_bit(bytes[5], 5u8, val);
        let r = LmpFeatureMask(bytes);
        proof {
            assert(r@ =~= self@.update(5, spec_with_bit(self@[5], 5u8, val)));
        }
        r
    }

    /// Whether bit 46 is set.
    pub fn supports_enhanced_data_rate_esco_3mbps_mode(&self) -> (r: bool)
        ensures
            r == spec_bit(self@[5], 6u8),
    {
        bit_is_set(self.0[5], 6u8)
    }

    /// Set bit 46 to `val`.
    pub fn set_enhanced_data_rate_esco_3mbps_mode(self, val: bool) -> (r: Self)
        ensures
            r@ == self@.update(5, spec_with_bit(self@[5], 6u8, val)),
    {
        let mut bytes = self.0;
        bytes[5] = with_bit(bytes[5], 6u8, val);
        let r = LmpFeatureMask(bytes);
        proof {
            assert(r@ =~= self@.update(5, spec_with_bit(self@[5], 6u8, val)));
        }
        r
    }

    /// Whether bit 47 is set.
    pub fn supports_3_slot_enhanced_data_rate_esco_packets(&self) -> (r: bool)
        ensures
            r == spec_bit(self@[5], 7u8),
    {
        bit_is_set(self.0[5], 7u8)
    }

    /// Set bit 47 to `val`.
    pub fn set_3_slot_enhanced_data_rate_esco_packets(self, val: bool) -> (r: Self)
        ensures
            r@ == self@.update(5, spec_with_bit(self@[5], 7u8, val)),
    {
        let mut bytes = self.0;
        bytes[5] = with_bit(bytes[5], 7u8, val);
        let r = LmpFeatureMask(bytes);
        proof {
            assert(r@ =~= self@.update(5, spec_with_bit(self@[5], 7u8, val)));
        }
        r
    }

    /// Whether bit 48 is set.
    pub fn supports_ext_inquiry_response(&self) -> (r: bool)
        ensures
            r == spec_bit(self@[6], 0u8),
    {
        bit_is_set(self.0[6], 0u8)
    }

    /// Set bit 48 to `val`.
    pub fn set_ext_inquiry_response(self, val: bool) -> (r: Self)
        ensures
            r@ == self@.update(6, spec_with_bit(self@[6], 0u8, val)),
    {
        let mut bytes = self.0;
        bytes[6] = with_bit(bytes[6], 0u8, val);
        let r = LmpFeatureMask(bytes);
        proof {
            assert(r@ =~= self@.update(6, spec_with_bit(self@[6], 0u8, val)));
        }
        r
    }

    /// Whether bit 49 is set.
    pub fn supports_simultaneous_le_and_br_edr_to_same_devi(&self) -> (r: bool)
        ensures
            r == spec_bit(self@[6], 1u8),
    {
        bit_is_set(self.0[6], 1u8)
    }

    /// Set bit 49 to `val`.
    pub fn set_simultaneous_le_and_br_edr_to_same_devi(self, val: bool) -> (r: Self)
        ensures
            r@ == self@.update(6, spec_with_bit(self@[6], 1u8, val)),
    {
        let mut bytes = self.0;
        bytes[6] = with_bit(bytes[6], 1u8, val);
        let r = LmpFeatureMask(bytes);
        proof {
            assert(r@ =~= self@.update(6, spec_with_bit(self@[6], 1u8, val)));
        }
        r
    }

    /// Whether bit 51 is set.
    pub fn supports_secure_simple_pairing(&self) -> (r: bool)
        ensures
            r == spec_bit(self@[6], 3u8),
    {
        bit_is_set(self.0[6], 3u8)
    }

    /// Set bit 51 to `val`.
    pub fn set_secure_simple_pairing(self, val: bool) -> (r: Self)
        ensures
            r@ == self@.update(6, spec_with_bit(self@[6], 3u8, val)),
    {
        let mut bytes = self.0;
        bytes[6] = with_bit(bytes[6], 3u8, val);
        let r = LmpFeatureMask(bytes);
        proof {
            assert(r@ =~= self@.update(6, spec_with_bit(self@[6], 3u8, val)));
        }
        r
    }

    /// Whether bit 52 is set.
    pub fn supports_encapsulated_pdu(&self) -> (r: bool)
        ensures
            r == spec_bit(self@[6], 4u8),
    {
        bit_is_set(self.0[6], 4u8)
    }

    /// Set bit 52 to `val`.
    pub fn set_encapsulated_pdu(self, val: bool) -> (r: Self)
        ensures
            r@ == self@.update(6, spec_with_bit(self@[6], 4u8, val)),
    {
        let mut bytes = self.0;
        bytes[6] = with_bit(bytes[6], 4u8, val);
        let r = LmpFeatureMask(bytes);
        proof {
            assert(r@ =~= self@.update(6, spec_with_bit(self@[6], 4u8, val)));
        }
        r
    }

    /// Whether bit 53 is set.
    pub fn supports_erroneous_data_reporting(&self) -> (r: bool)
        ensures
            r == spec_bit(self@[6], 5u8),
    {
        bit_is_set(self.0[6], 5u8)
    }

    /// Set bit 53 to `val`.
    pub fn set_erroneous_data_reporting(self, val: bool) -> (r: Self)
        ensures
            r@ == self@.update(6, spec_with_bit(self@[6], 5u8, val)),
    {
        let mut bytes = self.0;
        bytes[6] = with_bit(bytes[6], 5u8, val);
        let r = LmpFeatureMask(bytes);
        proof {
            assert(r@ =~= self@.update(6, spec_with_bit(self@[6], 5u8, val)));
        }
        r
    }

    /// Whether bit 54 is set.
    pub fn supports_non_flushable_packet_boundary_flag(&self) -> (r: bool)
        ensures
            r == spec_bit(self@[6], 6u8),
    {
        bit_is_set(self.0[6], 6u8)
    }

    /// Set bit 54 to `val`.
    pub fn set_non_flushable_packet_boundary_flag(self, val: bool) -> (r: Self)
        ensures
            r@ == self@.update(6, spec_with_bit(self@[6], 6u8, val)),
    {
        let mut bytes = self.0;
        bytes[6] = with_bit(bytes[6], 6u8, val);
        let r = LmpFeatureMask(bytes);
        proof {
            assert(r@ =~= self@.update(6, spec_with_bit(self@[6], 6u8, val)));
        }
        r
    }

    /// Whether bit 56 is set.
    pub fn supports_hci_link_supervision_timeout_changed_event(&self) -> (r: bool)
        ensures
            r == spec_bit(self@[7], 0u8),
    {
        bit_is_set(self.0[7], 0u8)
    }

    /// Set bit 56 to `val`.
    pub fn set_hci_link_supervision_timeout_changed_event(self, val: bool) -> (r: Self)
        ensures
            r@ == self@.update(7, spec_with_bit(self@[7], 0u8, val)),
    {
        let mut bytes = self.0;
        bytes[7] = with_bit(bytes[7], 0u8, val);
        let r = LmpFeatureMask(bytes);
        proof {
            assert(r@ =~= self@.update(7, spec_with_bit(self@[7], 0u8, val)));
        }
        r
    }

    /// Whether bit 57 is set.
    pub fn supports_variable_inquiry_tx_power_level(&self) -> (r: bool)
        ensures
            r == spec_bit(self@[7], 1u8),
    {
        bit_is_set(self.0[7], 1u8)
    }

    /// Set bit 57 to `val`.
    pub fn set_variable_inquiry_tx_power_level(self, val: bool) -> (r: Self)
        ensures
            r@ == self@.update(7, spec_with_bit(self@[7], 1u8, val)),
    {
        let mut bytes = self.0;
        bytes[7] = with_bit(bytes[7], 1u8, val);
        let r = LmpFeatureMask(bytes);
        proof {
            assert(r@ =~= self@.update(7, spec_with_bit(self@[7], 1u8, val)));
        }
        r
    }

    /// Whether bit 58 is set.
    pub fn supports_enhanced_power_control(&self) -> (r: bool)
        ensures
            r == spec_bit(self@[7], 2u8),
    {
        bit_is_set(self.0[7], 2u8)
    }

    /// Set bit 58 to `val`.
    pub fn set_enhanced_power_control(self, val: bool) -> (r: Self)
        ensures
            r@ == self@.update(7, spec_with_bit(self@[7], 2u8, val)),
    {
        let mut bytes = self.0;
        bytes[7] = with_bit(bytes[7], 2u8, val);
        let r = LmpFeatureMask(bytes);
        proof {
            assert(r@ =~= self@.update(7, spec_with_bit(self@[7], 2u8, val)));
        }
        r
    }

    /// Whether bit 63 is set.
    pub fn supports_ext_features(&self) -> (r: bool)
        ensures
            r == spec_bit(self@[7], 7u8),
    {
        bit_is_set(self.0[7], 7u8)
    }

    /// Set bit 63 to `val`.
    pub fn set_ext_features(self, val: bool) -> (r: Self)
        ensures
            r@ == self@.update(7, spec_with_bit(self@[7], 7u8, val)),
    {
        let mut bytes = self.0;
        bytes[7] = with_bit(bytes[7], 7u8, val);
        let r = LmpFeatureMask(bytes);
        proof {
            assert(r@ =~= self@.update(7, spec_with_bit(self@[7], 7u8, val)));
        }
        r
    }
}

impl<'de> FromHciBytes<'de> for LmpFeatureMask {
    open spec fn spec_from_hci_bytes(data: Seq<u8>) -> Result<(Seq<u8>, nat), FromHciBytesError> {
        <[u8; 8] as FromHciBytes<'de>>::spec_from_hci_bytes(data)
    }

    fn from_hci_bytes(data: &'de [u8]) -> (r: Result<(LmpFeatureMask, &'de [u8]), FromHciBytesError>) {
        match <[u8; 8] as FromHciBytes<'de>>::from_hci_bytes(data) {
            Ok((v, rest)) => Ok((LmpFeatureMask(v), rest)),
            Err(e) => Err(e),
        }
    }
}

impl WriteHci for LmpFeatureMask {
    open spec fn spec_hci_bytes(&self) -> Seq<u8> {
        self@
    }

    fn size(&self) -> (r: usize) {
        self.0.size()
    }

    fn write_hci(&self, out: &mut Vec<u8>) {
        self.0.write_hci(out);
    }
}

impl FixedSizeValue for LmpFeatureMask {
    open spec fn spec_size() -> nat {
        8
    }

    proof fn lemma_fixed_size(&self) {
        self.0.lemma_fixed_size();
    }
}

impl<'de> HciCodec<'de> for LmpFeatureMask {
    open spec fn spec_encodable(&self) -> bool {
        true
    }

    proof fn lemma_write_then_read(&self, rest: Seq<u8>) {
        self.0.lemma_write_then_read(rest);
    }
}

/// LmpFeatureMaskPage1
#[derive(Debug, Clone, Copy, PartialEq, Eq, PartialOrd, Ord, Hash, Default)]
pub struct LmpFeatureMaskPage1([u8; 8]);

impl View for LmpFeatureMaskPage1 {
    type V = Seq<u8>;

    closed spec fn view(&self) -> Seq<u8> {
        self.0@
    }
}

impl LmpFeatureMaskPage1 {
    /// Create a new instance with every bit clear.
    pub fn new() -> (r: Self)
        ensures
            r@ == Seq::new(8, |i: int| 0u8),
    {
        let r = LmpFeatureMaskPage1([0u8; 8]);
        proof {
            assert(r@ =~= Seq::new(8, |i: int| 0u8));
        }
        r
    }

    /// Get the inner representation.
    pub fn into_inner(self) -> (r: [u8; 8])
        ensures
            r@ == self@,
    {
        self.0
    }

    /// The representation has one byte per octet.
    pub proof fn lemma_len(&self)
        ensures
            self@.len() == 8,
    {
    }

    /// Whether bit 0 is set.
    pub fn supports_secure_simple_pairing_host(&self) -> (r: bool)
        ensures
            r == spec_bit(self@[0], 0u8),
    {
        bit_is_set(self.0[0], 0u8)
    }

    /// Set bit 0 to `val`.
    pub fn set_secure_simple_pairing_host(self, val: bool) -> (r: Self)
        ensures
            r@ == self@.update(0, spec_with_bit(self@[0], 0u8, val)),
    {
        let mut bytes = self.0;
        bytes[0] = with_bit(bytes[0], 0u8, val);
        let r = LmpFeatureMaskPage1(bytes);
        proof {
            assert(r@ =~= self@.update(0, spec_with_bit(self@[0], 0u8, val)));
        }
        r
    }

    /// Whether bit 1 is set.
    pub fn supports_le_host(&self) -> (r: bool)
        ensures
            r == spec_bit(self@[0], 1u8),
    {
        bit_is_set(self.0[0], 1u8)
    }

    /// Set bit 1 to `val`.
    pub fn set_le_host(self, val: bool) -> (r: Self)
        ensures
            r@ == self@.update(0, spec_with_bit(self@[0], 1u8, val)),
    {
        let mut bytes = self.0;
        bytes[0] = with_bit(bytes[0], 1u8, val);
        let r = LmpFeatureMaskPage1(bytes);
        proof {
            assert(r@ =~= self@.update(0, spec_with_bit(self@[0], 1u8, val)));
        }
        r
    }

    /// Whether bit 3 is set.
    pub fn supports_secure_connections_host(&self) -> (r: bool)
        ensures
            r == spec_bit(self@[0], 3u8),
    {
        bit_is_set(self.0[0], 3u8)
    }

    /// Set bit 3 to `val`.
    pub fn set_secure_connections_host(self, val: bool) -> (r: Self)
        ensures
            r@ == self@.update(0, spec_with_bit(self@[0], 3u8, val)),
    {
        let mut bytes = self.0;
        bytes[0] = with_bit(bytes[0], 3u8, val);
        let r = LmpFeatureMaskPage1(bytes);
        proof {
            assert(r@ =~= self@.update(0, spec_with_bit(self@[0], 3u8, val)));
        }
        r
    }
}

impl<'de> FromHciBytes<'de> for LmpFeatureMaskPage1 {
    open spec fn spec_from_hci_bytes(data: Seq<u8>) -> Result<(Seq<u8>, nat), FromHciBytesError> {
        <[u8; 8] as FromHciBytes<'de>>::spec_from_hci_bytes(data)
    }

    fn from_hci_bytes(data: &'de [u8]) -> (r: Result<(LmpFeatureMaskPage1, &'de [u8]), FromHciBytesError>) {
        match <[u8; 8] as FromHciBytes<'de>>::from_hci_bytes(data) {
            Ok((v, rest)) => Ok((LmpFeatureMaskPage1(v), rest)),
            Err(e) => Err(e),
        }
    }
}

impl WriteHci for LmpFeatureMaskPage1 {
    open spec fn spec_hci_bytes(&self) -> Seq<u8> {
        self@
    }

    fn size(&self) -> (r: usize) {
        self.0.size()
    }

    fn write_hci(&self, out: &mut Vec<u8>) {
        self.0.write_hci(out);
    }
}

impl FixedSizeValue for LmpFeatureMaskPage1 {
    open spec fn spec_size() -> nat {
        8
    }

    proof fn lemma_fixed_size(&self) {
        self.0.lemma_fixed_size();
    }
}

impl<'de> HciCodec<'de> for LmpFeatureMaskPage1 {
    open spec fn spec_encodable(&self) -> bool {
        true
    }

    proof fn lemma_write_then_read(&self, rest: Seq<u8>) {
        self.0.lemma_write_then_read(rest);
    }
}

/// LmpFeatureMaskPage2
#[derive(Debug, Clone, Copy, PartialEq, Eq, PartialOrd, Ord, Hash, Default)]
pub struct LmpFeatureMaskPage2([u8; 8]);

impl View for LmpFeatureMaskPage2 {
    type V = Seq<u8>;

    closed spec fn view(&self) -> Seq<u8> {
        self.0@
    }
}

impl LmpFeatureMaskPage2 {
    /// Create a new instance with every bit clear.
    pub fn new() -> (r: Self)
        ensures
            r@ == Seq::new(8, |i: int| 0u8),
    {
        let r = LmpFeatureMaskPage2([0u8; 8]);
        proof {
            assert(r@ =~= Seq::new(8, |i: int| 0u8));
        }
        r
    }

    /// Get the inner representation.
    pub fn into_inner(self) -> (r: [u8; 8])
        ensures
            r@ == self@,
    {
        self.0
    }

    /// The representation has one byte per octet.
    pub proof fn lemma_len(&self)
        ensures
            self@.len() == 8,
    {
    }

    /// Whether bit 0 is set.
    pub fn supports_connectionless_peripheral_broadcast_transmitter(&self) -> (r: bool)
        ensures
            r == spec_bit(self@[0], 0u8),
    {
        bit_is_set(self.0[0], 0u8)
    }

    /// Set bit 0 to `val`.
    pub fn set_connectionless_peripheral_broadcast_transmitter(self, val: bool) -> (r: Self)
        ensures
            r@ == self@.update(0, spec_with_bit(self@[0], 0u8, val)),
    {
        let mut bytes = self.0;
        bytes[0] = with_bit(bytes[0], 0u8, val);
        let r = LmpFeatureMaskPage2(bytes);
        proof {
            assert(r@ =~= self@.update(0, spec_with_bit(self@[0], 0u8, val)));
        }
        r
    }

    /// Whether bit 1 is set.
    pub fn supports_connectionless_peripheral_broadcast_receiver(&self) -> (r: bool)
        ensures
            r == spec_bit(self@[0], 1u8),
    {
        bit_is_set(self.0[0], 1u8)
    }

    /// Set bit 1 to `val`.
    pub fn set_connectionless_peripheral_broadcast_receiver(self, val: bool) -> (r: Self)
        ensures
            r@ == self@.update(0, spec_with_bit(self@[0], 1u8, val)),
    {
        let mut bytes = self.0;
        bytes[0] = with_bit(bytes[0], 1u8, val);
        let r = LmpFeatureMaskPage2(bytes);
        proof {
            assert(r@ =~= self@.update(0, spec_with_bit(self@[0], 1u8, val)));
        }
        r
    }

    /// Whether bit 2 is set.
    pub fn supports_synchronization_train(&self) -> (r: bool)
        ensures
            r == spec_bit(self@[0], 2u8),
    {
        bit_is_set(self.0[0], 2u8)
    }

    /// Set bit 2 to `val`.
    pub fn set_synchronization_train(self, val: bool) -> (r: Self)
        ensures
            r@ == self@.update(0, spec_with_bit(self@[0], 2u8, val)),
    {
        let mut bytes = self.0;
        bytes[0] = with_bit(bytes[0], 2u8, val);
        let r = LmpFeatureMaskPage2(bytes);
        proof {
            assert(r@ =~= self@.update(0, spec_with_bit(self@[0], 2u8, val)));
        }
        r
    }

    /// Whether bit 3 is set.
    pub fn supports_synchronization_scan(&self) -> (r: bool)
        ensures
            r == spec_bit(self@[0], 3u8),
    {
        bit_is_set(self.0[0], 3u8)
    }

    /// Set bit 3 to `val`.
    pub fn set_synchronization_scan(self, val: bool) -> (r: Self)
        ensures
            r@ == self@.update(0, spec_with_bit(self@[0], 3u8, val)),
    {
        let mut bytes = self.0;
        bytes[0] = with_bit(bytes[0], 3u8, val);
        let r = LmpFeatureMaskPage2(bytes);
        proof {
            assert(r@ =~= self@.update(0, spec_with_bit(self@[0], 3u8, val)));
        }
        r
    }

    /// Whether bit 4 is set.
    pub fn supports_hci_inquiry_response_notification_event(&self) -> (r: bool)
        ensures
            r == spec_bit(self@[0], 4u8),
    {
        bit_is_set(self.0[0], 4u8)
    }

    /// Set bit 4 to `val`.
    pub fn set_hci_inquiry_response_notification_event(self, val: bool) -> (r: Self)
        ensures
            r@ == self@.update(0, spec_with_bit(self@[0], 4u8, val)),
    {
        let mut bytes = self.0;
        bytes[0] = with_bit(bytes[0], 4u8, val);
        let r = LmpFeatureMaskPage2(bytes);
        proof {
            assert(r@ =~= self@.update(0, spec_with_bit(self@[0], 4u8, val)));
        }
        r
    }

    /// Whether bit 5 is set.
    pub fn supports_generalized_interlaced_scan(&self) -> (r: bool)
        ensures
            r == spec_bit(self@[0], 5u8),
    {
        bit_is_set(self.0[0], 5u8)
    }

    /// Set bit 5 to `val`.
    pub fn set_generalized_interlaced_scan(self, val: bool) -> (r: Self)
        ensures
            r@ == self@.update(0, spec_with_bit(self@[0], 5u8, val)),
    {
        let mut bytes = self.0;
        bytes[0] = with_bit(bytes[0], 5u8, val);
        let r = LmpFeatureMaskPage2(bytes);
        proof {
            assert(r@ =~= self@.update(0, spec_with_bit(self@[0], 5u8, val)));
        }
        r
    }

    /// Whether bit 6 is set.
    pub fn supports_coarse_clock_adjustment(&self) -> (r: bool)
        ensures
            r == spec_bit(self@[0], 6u8),
    {
        bit_is_set(self.0[0], 6u8)
    }

    /// Set bit 6 to `val`.
    pub fn set_coarse_clock_adjustment(self, val: bool) -> (r: Self)
        ensures
            r@ == self@.update(0, spec_with_bit(self@[0], 6u8, val)),
    {
        let mut bytes = self.0;
        bytes[0] = with_bit(bytes[0], 6u8, val);
        let r = LmpFeatureMaskPage2(bytes);
        proof {
            assert(r@ =~= self@.update(0, spec_with_bit(self@[0], 6u8, val)));
        }
        r
    }

    /// Whether bit 8 is set.
    pub fn supports_secure_connections_controller(&self) -> (r: bool)
        ensures
            r == spec_bit(self@[1], 0u8),
    {
        bit_is_set(self.0[1], 0u8)
    }

    /// Set bit 8 to `val`.
    pub fn set_secure_connections_controller(self, val: bool) -> (r: Self)
        ensures
            r@ == self@.update(1, spec_with_bit(self@[1], 0u8, val)),
    {
        let mut bytes = self.0;
        bytes[1] = with_bit(bytes[1], 0u8, val);
        let r = LmpFeatureMaskPage2(bytes);
        proof {
            assert(r@ =~= self@.update(1, spec_with_bit(self@[1], 0u8, val)));
        }
        r
    }

    /// Whether bit 9 is set.
    pub fn supports_ping(&self) -> (r: bool)
        ensures
            r == spec_bit(self@[1], 1u8),
    {
        bit_is_set(self.0[1], 1u8)
    }

    /// Set bit 9 to `val`.
    pub fn set_ping(self, val: bool) -> (r: Self)
        ensures
            r@ == self@.update(1, spec_with_bit(self@[1], 1u8, val)),
    {
        let mut bytes = self.0;
        bytes[1] = with_bit(bytes[1], 1u8, val);
        let r = LmpFeatureMaskPage2(bytes);
        proof {
            assert(r@ =~= self@.update(1, spec_with_bit(self@[1], 1u8, val)));
        }
        r
    }

    /// Whether bit 10 is set.
    pub fn supports_slot_availability_mask(&self) -> (r: bool)
        ensures
            r == spec_bit(self@[1], 2u8),
    {
        bit_is_set(self.0[1], 2u8)
    }

    /// Set bit 10 to `val`.
    pub fn set_slot_availability_mask(self, val: bool) -> (r: Self)
        ensures
            r@ == self@.update(1, spec_with_bit(self@[1], 2u8, val)),
    {
        let mut bytes = self.0;
        bytes[1] = with_bit(bytes[1], 2u8, val);
        let r = LmpFeatureMaskPage2(bytes);
        proof {
            assert(r@ =~= self@.update(1, spec_with_bit(self@[1], 2u8, val)));
        }
        r
    }

    /// Whether bit 11 is set.
    pub fn supports_train_nudging(&self) -> (r: bool)
        ensures
            r == spec_bit(self@[1], 3u8),
    {
        bit_is_set(self.0[1], 3u8)
    }

    /// Set bit 11 to `val`.
    pub fn set_train_nudging(self, val: bool) -> (r: Self)
        ensures
            r@ == self@.update(1, spec_with_bit(self@[1], 3u8, val)),
    {
        let mut bytes = self.0;
        bytes[1] = with_bit(bytes[1], 3u8, val);
        let r = LmpFeatureMaskPage2(bytes);
        proof {
            assert(r@ =~= self@.update(1, spec_with_bit(self@[1], 3u8, val)));
        }
        r
    }
}

impl<'de> FromHciBytes<'de> for LmpFeatureMaskPage2 {
    open spec fn spec_from_hci_bytes(data: Seq<u8>) -> Result<(Seq<u8>, nat), FromHciBytesError> {
        <[u8; 8] as FromHciBytes<'de>>::spec_from_hci_bytes(data)
    }

    fn from_hci_bytes(data: &'de [u8]) -> (r: Result<(LmpFeatureMaskPage2, &'de [u8]), FromHciBytesError>) {
        match <[u8; 8] as FromHciBytes<'de>>::from_hci_bytes(data) {
            Ok((v, rest)) => Ok((LmpFeatureMaskPage2(v), rest)),
            Err(e) => Err(e),
        }
    }
}

impl WriteHci for LmpFeatureMaskPage2 {
    open spec fn spec_hci_bytes(&self) -> Seq<u8> {
        self@
    }

    fn size(&self) -> (r: usize) {
        self.0.size()
    }

    fn write_hci(&self, out: &mut Vec<u8>) {
        self.0.write_hci(out);
    }
}

impl FixedSizeValue for LmpFeatureMaskPage2 {
    open spec fn spec_size() -> nat {
        8
    }

    proof fn lemma_fixed_size(&self) {
        self.0.lemma_fixed_size();
    }
}

impl<'de> HciCodec<'de> for LmpFeatureMaskPage2 {
    open spec fn spec_encodable(&self) -> bool {
        true
    }

    proof fn lemma_write_then_read(&self, rest: Seq<u8>) {
        self.0.lemma_write_then_read(rest);
    }
}

/// LeFeatureMask
#[derive(Debug, Clone, Copy, PartialEq, Eq, PartialOrd, Ord, Hash, Default)]
pub struct LeFeatureMask([u8; 8]);

impl View for LeFeatureMask {
    type V = Seq<u8>;

    closed spec fn view(&self) -> Seq<u8> {
        self.0@
    }
}

impl LeFeatureMask {
    /// Create a new instance with every bit clear.
    pub fn new() -> (r: Self)
        ensures
            r@ == Seq::new(8, |i: int| 0u8),
    {
        let r = LeFeatureMask([0u8; 8]);
        proof {
            assert(r@ =~= Seq::new(8, |i: int| 0u8));
        }
        r
    }

    /// Get the inner representation.
    pub fn into_inner(self) -> (r: [u8; 8])
        ensures
            r@ == self@,
    {
        self.0
    }

    /// The representation has one byte per octet.
    pub proof fn lemma_len(&self)
        ensures
            self@.len() == 8,
    {
    }

    /// Whether bit 0 is set.
    pub fn supports_le_encryption(&self) -> (r: bool)
        ensures
            r == spec_bit(self@[0], 0u8),
    {
        bit_is_set(self.0[0], 0u8)
    }

    /// Set bit 0 to `val`.
    pub fn set_le_encryption(self, val: bool) -> (r: Self)
        ensures
            r@ == self@.update(0, spec_with_bit(self@[0], 0u8, val)),
    {
        let mut bytes = self.0;
        bytes[0] = with_bit(bytes[0], 0u8, val);
        let r = LeFeatureMask(bytes);
        proof {
            assert(r@ =~= self@.update(0, spec_with_bit(self@[0], 0u8, val)));
        }
        r
    }

    /// Whether bit 1 is set.
    pub fn supports_conn_parameters_request_procedure(&self) -> (r: bool)
        ensures
            r == spec_bit(self@[0], 1u8),
    {
        bit_is_set(self.0[0], 1u8)
    }

    /// Set bit 1 to `val`.
    pub fn set_conn_parameters_request_procedure(self, val: bool) -> (r: Self)
        ensures
            r@ == self@.update(0, spec_with_bit(self@[0], 1u8, val)),
    {
        let mut bytes = self.0;
        bytes[0] = with_bit(bytes[0], 1u8, val);
        let r = LeFeatureMask(bytes);
        proof {
            assert(r@ =~= self@.update(0, spec_with_bit(self@[0], 1u8, val)));
        }
        r
    }

    /// Whether bit 2 is set.
    pub fn supports_ext_reject_indication(&self) -> (r: bool)
        ensures
            r == spec_bit(self@[0], 2u8),
    {
        bit_is_set(self.0[0], 2u8)
    }

    /// Set bit 2 to `val`.
    pub fn set_ext_reject_indication(self, val: bool) -> (r: Self)
        ensures
            r@ == self@.update(0, spec_with_bit(self@[0], 2u8, val)),
    {
        let mut bytes = self.0;
        bytes[0] = with_bit(bytes[0], 2u8, val);
        let r = LeFeatureMask(bytes);
        proof {
            assert(r@ =~= self@.update(0, spec_with_bit(self@[0], 2u8, val)));
        }
        r
    }

    /// Whether bit 3 is set.
    pub fn supports_peripheral_initiated_features_exchange(&self) -> (r: bool)
        ensures
            r == spec_bit(self@[0], 3u8),
    {
        bit_is_set(self.0[0], 3u8)
    }

    /// Set bit 3 to `val`.
    pub fn set_peripheral_initiated_features_exchange(self, val: bool) -> (r: Self)
        ensures
            r@ == self@.update(0, spec_with_bit(self@[0], 3u8, val)),
    {
        let mut bytes = self.0;
        bytes[0] = with_bit(bytes[0], 3u8, val);
        let r = LeFeatureMask(bytes);
        proof {
            assert(r@ =~= self@.update(0, spec_with_bit(self@[0], 3u8, val)));
        }
        r
    }

    /// Whether bit 4 is set.
    pub fn supports_le_ping(&self) -> (r: bool)
        ensures
            r == spec_bit(self@[0], 4u8),
    {
        bit_is_set(self.0[0], 4u8)
    }

    /// Set bit 4 to `val`.
    pub fn set_le_ping(self, val: bool) -> (r: Self)
        ensures
            r@ == self@.update(0, spec_with_bit(self@[0], 4u8, val)),
    {
        let mut bytes = self.0;
        bytes[0] = with_bit(bytes[0], 4u8, val);
        let r = LeFeatureMask(bytes);
        proof {
            assert(r@ =~= self@.update(0, spec_with_bit(self@[0], 4u8, val)));
        }
        r
    }

    /// Whether bit 5 is set.
    pub fn supports_le_data_packet_length_extension(&self) -> (r: bool)
        ensures
            r == spec_bit(self@[0], 5u8),
    {
        bit_is_set(self.0[0], 5u8)
    }

    /// Set bit 5 to `val`.
    pub fn set_le_data_packet_length_extension(self, val: bool) -> (r: Self)
        ensures
            r@ == self@.update(0, spec_with_bit(self@[0], 5u8, val)),
    {
        let mut bytes = self.0;
        bytes[0] = with_bit(bytes[0], 5u8, val);
        let r = LeFeatureMask(bytes);
        proof {
            assert(r@ =~= self@.update(0, spec_with_bit(self@[0], 5u8, val)));
        }
        r
    }

    /// Whether bit 6 is set.
    pub fn supports_ll_privacy(&self) -> (r: bool)
        ensures
            r == spec_bit(self@[0], 6u8),
    {
        bit_is_set(self.0[0], 6u8)
    }

    /// Set bit 6 to `val`.
    pub fn set_ll_privacy(self, val: bool) -> (r: Self)
        ensures
            r@ == self@.update(0, spec_with_bit(self@[0], 6u8, val)),
    {
        let mut bytes = self.0;
        bytes[0] = with_bit(bytes[0], 6u8, val);
        let r = LeFeatureMask(bytes);
        proof {
            assert(r@ =~= self@.update(0, spec_with_bit(self@[0], 6u8, val)));
        }
        r
    }

    /// Whether bit 7 is set.
    pub fn supports_ext_scanner_filter_policies(&self) -> (r: bool)
        ensures
            r == spec_bit(self@[0], 7u8),
    {
        bit_is_set(self.0[0], 7u8)
    }

    /// Set bit 7 to `val`.
    pub fn set_ext_scanner_filter_policies(self, val: bool) -> (r: Self)
        ensures
            r@ == self@.update(0, spec_with_bit(self@[0], 7u8, val)),
    {
        let mut bytes = self.0;
        bytes[0] = with_bit(bytes[0], 7u8, val);
        let r = LeFeatureMask(bytes);
        proof {
            assert(r@ =~= self@.update(0, spec_with_bit(self@[0], 7u8, val)));
        }
        r
    }

    /// Whether bit 8 is set.
    pub fn supports_le_2m_phy(&self) -> (r: bool)
        ensures
            r == spec_bit(self@[1], 0u8),
    {
        bit_is_set(self.0[1], 0u8)
    }

    /// Set bit 8 to `val`.
    pub fn set_le_2m_phy(self, val: bool) -> (r: Self)
        ensures
            r@ == self@.update(1, spec_with_bit(self@[1], 0u8, val)),
    {
        let mut bytes = self.0;
        bytes[1] = with_bit(bytes[1], 0u8, val);
        let r = LeFeatureMask(bytes);
        proof {
            assert(r@ =~= self@.update(1, spec_with_bit(self@[1], 0u8, val)));
        }
        r
    }

    /// Whether bit 9 is set.
    pub fn supports_stable_modulation_index_tx(&self) -> (r: bool)
        ensures
            r == spec_bit(self@[1], 1u8),
    {
        bit_is_set(self.0[1], 1u8)
    }

    /// Set bit 9 to `val`.
    pub fn set_stable_modulation_index_tx(self, val: bool) -> (r: Self)
        ensures
            r@ == self@.update(1, spec_with_bit(self@[1], 1u8, val)),
    {
        let mut bytes = self.0;
        bytes[1] = with_bit(bytes[1], 1u8, val);
        let r = LeFeatureMask(bytes);
        proof {
            assert(r@ =~= self@.update(1, spec_with_bit(self@[1], 1u8, val)));
        }
        r
    }

    /// Whether bit 10 is set.
    pub fn supports_stable_modulation_index_rx(&self) -> (r: bool)
        ensures
            r == spec_bit(self@[1], 2u8),
    {
        bit_is_set(self.0[1], 2u8)
    }

    /// Set bit 10 to `val`.
    pub fn set_stable_modulation_index_rx(self, val: bool) -> (r: Self)
        ensures
            r@ == self@.update(1, spec_with_bit(self@[1], 2u8, val)),
    {
        let mut bytes = self.0;
        bytes[1] = with_bit(bytes[1], 2u8, val);
        let r = LeFeatureMask(bytes);
        proof {
            assert(r@ =~= self@.update(1, spec_with_bit(self@[1], 2u8, val)));
        }
        r
    }

    /// Whether bit 11 is set.
    pub fn supports_le_coded_phy(&self) -> (r: bool)
        ensures
            r == spec_bit(self@[1], 3u8),
    {
        bit_is_set(self.0[1], 3u8)
    }

    /// Set bit 11 to `val`.
    pub fn set_le_coded_phy(self, val: bool) -> (r: Self)
        ensures
            r@ == self@.update(1, spec_with_bit(self@[1], 3u8, val)),
    {
        let mut bytes = self.0;
        bytes[1] = with_bit(bytes[1], 3u8, val);
        let r = LeFeatureMask(bytes);
        proof {
            assert(r@ =~= self@.update(1, spec_with_bit(self@[1], 3u8, val)));
        }
        r
    }

    /// Whether bit 12 is set.
    pub fn supports_le_ext_adv(&self) -> (r: bool)
        ensures
            r == spec_bit(self@[1], 4u8),
    {
        bit_is_set(self.0[1], 4u8)
    }

    /// Set bit 12 to `val`.
    pub fn set_le_ext_adv(self, val: bool) -> (r: Self)
        ensures
            r@ == self@.update(1, spec_with_bit(self@[1], 4u8, val)),
    {
        let mut bytes = self.0;
        bytes[1] = with_bit(bytes[1], 4u8, val);
        let r = LeFeatureMask(bytes);
        proof {
            assert(r@ =~= self@.update(1, spec_with_bit(self@[1], 4u8, val)));
        }
        r
    }

    /// Whether bit 13 is set.
    pub fn supports_le_periodic_adv(&self) -> (r: bool)
        ensures
            r == spec_bit(self@[1], 5u8),
    {
        bit_is_set(self.0[1], 5u8)
    }

    /// Set bit 13 to `val`.
    pub fn set_le_periodic_adv(self, val: bool) -> (r: Self)
        ensures
            r@ == self@.update(1, spec_with_bit(self@[1], 5u8, val)),
    {
        let mut bytes = self.0;
        bytes[1] = with_bit(bytes[1], 5u8, val);
        let r = LeFeatureMask(bytes);
        proof {
            assert(r@ =~= self@.update(1, spec_with_bit(self@[1], 5u8, val)));
        }
        r
    }

    /// Whether bit 14 is set.
    pub fn supports_channel_selection_algorithm_2(&self) -> (r: bool)
        ensures
            r == spec_bit(self@[1], 6u8),
    {
        bit_is_set(self.0[1], 6u8)
    }

    /// Set bit 14 to `val`.
    pub fn set_channel_selection_algorithm_2(self, val: bool) -> (r: Self)
        ensures
            r@ == self@.update(1, spec_with_bit(self@[1], 6u8, val)),
    {
        let mut bytes = self.0;
        bytes[1] = with_bit(bytes[1], 6u8, val);
        let r = LeFeatureMask(bytes);
        proof {
            assert(r@ =~= self@.update(1, spec_with_bit(self@[1], 6u8, val)));
        }
        r
    }

    /// Whether bit 15 is set.
    pub fn supports_le_power_class_1(&self) -> (r: bool)
        ensures
            r == spec_bit(self@[1], 7u8),
    {
        bit_is_set(self.0[1], 7u8)
    }

    /// Set bit 15 to `val`.
    pub fn set_le_power_class_1(self, val: bool) -> (r: Self)
        ensures
            r@ == self@.update(1, spec_with_bit(self@[1], 7u8, val)),
    {
        let mut bytes = self.0;
        bytes[1] = with_bit(bytes[1], 7u8, val);
        let r = LeFeatureMask(bytes);
        proof {
            assert(r@ =~= self@.update(1, spec_with_bit(self@[1], 7u8, val)));
        }
        r
    }

    /// Whether bit 16 is set.
    pub fn supports_min_used_channels_procedure(&self) -> (r: bool)
        ensures
            r == spec_bit(self@[2], 0u8),
    {
        bit_is_set(self.0[2], 0u8)
    }

    /// Set bit 16 to `val`.
    pub fn set_min_used_channels_procedure(self, val: bool) -> (r: Self)
        ensures
            r@ == self@.update(2, spec_with_bit(self@[2], 0u8, val)),
    {
        let mut bytes = self.0;
        bytes[2] = with_bit(bytes[2], 0u8, val);
        let r = LeFeatureMask(bytes);
        proof {
            assert(r@ =~= self@.update(2, spec_with_bit(self@[2], 0u8, val)));
        }
        r
    }

    /// Whether bit 17 is set.
    pub fn supports_conn_cte_request(&self) -> (r: bool)
        ensures
            r == spec_bit(self@[2], 1u8),
    {
        bit_is_set(self.0[2], 1u8)
    }

    /// Set bit 17 to `val`.
    pub fn set_conn_cte_request(self, val: bool) -> (r: Self)
        ensures
            r@ == self@.update(2, spec_with_bit(self@[2], 1u8, val)),
    {
        let mut bytes = self.0;
        bytes[2] = with_bit(bytes[2], 1u8, val);
        let r = LeFeatureMask(bytes);
        proof {
            assert(r@ =~= self@.update(2, spec_with_bit(self@[2], 1u8, val)));
        }
        r
    }

    /// Whether bit 18 is set.
    pub fn supports_conn_cte_response(&self) -> (r: bool)
        ensures
            r == spec_bit(self@[2], 2u8),
    {
        bit_is_set(self.0[2], 2u8)
    }

    /// Set bit 18 to `val`.
    pub fn set_conn_cte_response(self, val: bool) -> (r: Self)
        ensures
            r@ == self@.update(2, spec_with_bit(self@[2], 2u8, val)),
    {
        let mut bytes = self.0;
        bytes[2] = with_bit(bytes[2], 2u8, val);
        let r = LeFeatureMask(bytes);
        proof {
            assert(r@ =~= self@.update(2, spec_with_bit(self@[2], 2u8, val)));
        }
        r
    }

    /// Whether bit 19 is set.
    pub fn supports_connectionless_cte_tx(&self) -> (r: bool)
        ensures
            r == spec_bit(self@[2], 3u8),
    {
        bit_is_set(self.0[2], 3u8)
    }

    /// Set bit 19 to `val`.
    pub fn set_connectionless_cte_tx(self, val: bool) -> (r: Self)
        ensures
            r@ == self@.update(2, spec_with_bit(self@[2], 3u8, val)),
    {
        let mut bytes = self.0;
        bytes[2] = with_bit(bytes[2], 3u8, val);
        let r = LeFeatureMask(bytes);
        proof {
            assert(r@ =~= self@.update(2, spec_with_bit(self@[2], 3u8, val)));
        }
        r
    }

    /// Whether bit 20 is set.
    pub fn supports_connectionless_cte_rx(&self) -> (r: bool)
        ensures
            r == spec_bit(self@[2], 4u8),
    {
        bit_is_set(self.0[2], 4u8)
    }

    /// Set bit 20 to `val`.
    pub fn set_connectionless_cte_rx(self, val: bool) -> (r: Self)
        ensures
            r@ == self@.update(2, spec_with_bit(self@[2], 4u8, val)),
    {
        let mut bytes = self.0;
        bytes[2] = with_bit(bytes[2], 4u8, val);
        let r = LeFeatureMask(bytes);
        proof {
            assert(r@ =~= self@.update(2, spec_with_bit(self@[2], 4u8, val)));
        }
        r
    }

    /// Whether bit 21 is set.
    pub fn supports_antenna_switching_during_cte_tx(&self) -> (r: bool)
        ensures
            r == spec_bit(self@[2], 5u8),
    {
        bit_is_set(self.0[2], 5u8)
    }

    /// Set bit 21 to `val`.
    pub fn set_antenna_switching_during_cte_tx(self, val: bool) -> (r: Self)
        ensures
            r@ == self@.update(2, spec_with_bit(self@[2], 5u8, val)),
    {
        let mut bytes = self.0;
        bytes[2] = with_bit(bytes[2], 5u8, val);
        let r = LeFeatureMask(bytes);
        proof {
            assert(r@ =~= self@.update(2, spec_with_bit(self@[2], 5u8, val)));
        }
        r
    }

    /// Whether bit 22 is set.
    pub fn supports_antenna_switching_during_cte_rx(&self) -> (r: bool)
        ensures
            r == spec_bit(self@[2], 6u8),
    {
        bit_is_set(self.0[2], 6u8)
    }

    /// Set bit 22 to `val`.
    pub fn set_antenna_switching_during_cte_rx(self, val: bool) -> (r: Self)
        ensures
            r@ == self@.update(2, spec_with_bit(self@[2], 6u8, val)),
    {
        let mut bytes = self.0;
        bytes[2] = with_bit(bytes[2], 6u8, val);
        let r = LeFeatureMask(bytes);
        proof {
            assert(r@ =~= self@.update(2, spec_with_bit(self@[2], 6u8, val)));
        }
        r
    }

    /// Whether bit 23 is set.
    pub fn supports_receiving_constant_tone_extensions(&self) -> (r: bool)
        ensures
            r == spec_bit(self@[2], 7u8),
    {
        bit_is_set(self.0[2], 7u8)
    }

    /// Set bit 23 to `val`.
    pub fn set_receiving_constant_tone_extensions(self, val: bool) -> (r: Self)
        ensures
            r@ == self@.update(2, spec_with_bit(self@[2], 7u8, val)),
    {
        let mut bytes = self.0;
        bytes[2] = with_bit(bytes[2], 7u8, val);
        let r = LeFeatureMask(bytes);
        proof {
            assert(r@ =~= self@.update(2, spec_with_bit(self@[2], 7u8, val)));
        }
        r
    }

    /// Whether bit 24 is set.
    pub fn supports_periodic_adv_sync_transfer_sender(&self) -> (r: bool)
        ensures
            r == spec_bit(self@[3], 0u8),
    {
        bit_is_set(self.0[3], 0u8)
    }

    /// Set bit 24 to `val`.
    pub fn set_periodic_adv_sync_transfer_sender(self, val: bool) -> (r: Self)
        ensures
            r@ == self@.update(3, spec_with_bit(self@[3], 0u8, val)),
    {
        let mut bytes = self.0;
        bytes[3] = with_bit(bytes[3], 0u8, val);
        let r = LeFeatureMask(bytes);
        proof {
            assert(r@ =~= self@.update(3, spec_with_bit(self@[3], 0u8, val)));
        }
        r
    }

    /// Whether bit 25 is set.
    pub fn supports_periodic_adv_sync_transfer_recipient(&self) -> (r: bool)
        ensures
            r == spec_bit(self@[3], 1u8),
    {
        bit_is_set(self.0[3], 1u8)
    }

    /// Set bit 25 to `val`.
    pub fn set_periodic_adv_sync_transfer_recipient(self, val: bool) -> (r: Self)
        ensures
            r@ == self@.update(3, spec_with_bit(self@[3], 1u8, val)),
    {
        let mut bytes = self.0;
        bytes[3] = with_bit(bytes[3], 1u8, val);
        let r = LeFeatureMask(bytes);
        proof {
            assert(r@ =~= self@.update(3, spec_with_bit(self@[3], 1u8, val)));
        }
        r
    }

    /// Whether bit 26 is set.
    pub fn supports_sleep_clock_accuracy_updates(&self) -> (r: bool)
        ensures
            r == spec_bit(self@[3], 2u8),
    {
        bit_is_set(self.0[3], 2u8)
    }

    /// Set bit 26 to `val`.
    pub fn set_sleep_clock_accuracy_updates(self, val: bool) -> (r: Self)
        ensures
            r@ == self@.update(3, spec_with_bit(self@[3], 2u8, val)),
    {
        let mut bytes = self.0;
        bytes[3] = with_bit(bytes[3], 2u8, val);
        let r = LeFeatureMask(bytes);
        proof {
            assert(r@ =~= self@.update(3, spec_with_bit(self@[3], 2u8, val)));
        }
        r
    }

    /// Whether bit 27 is set.
    pub fn supports_remote_public_key_validation(&self) -> (r: bool)
        ensures
            r == spec_bit(self@[3], 3u8),
    {
        bit_is_set(self.0[3], 3u8)
    }

    /// Set bit 27 to `val`.
    pub fn set_remote_public_key_validation(self, val: bool) -> (r: Self)
        ensures
            r@ == self@.update(3, spec_with_bit(self@[3], 3u8, val)),
    {
        let mut bytes = self.0;
        bytes[3] = with_bit(bytes[3], 3u8, val);
        let r = LeFeatureMask(bytes);
        proof {
            assert(r@ =~= self@.update(3, spec_with_bit(self@[3], 3u8, val)));
        }
        r
    }

    /// Whether bit 28 is set.
    pub fn supports_connected_isochronous_stream_central(&self) -> (r: bool)
        ensures
            r == spec_bit(self@[3], 4u8),
    {
        bit_is_set(self.0[3], 4u8)
    }

    /// Set bit 28 to `val`.
    pub fn set_connected_isochronous_stream_central(self, val: bool) -> (r: Self)
        ensures
            r@ == self@.update(3, spec_with_bit(self@[3], 4u8, val)),
    {
        let mut bytes = self.0;
        bytes[3] = with_bit(bytes[3], 4u8, val);
        let r = LeFeatureMask(bytes);
        proof {
            assert(r@ =~= self@.update(3, spec_with_bit(self@[3], 4u8, val)));
        }
        r
    }

    /// Whether bit 29 is set.
    pub fn supports_connected_isochronous_stream_peripheral(&self) -> (r: bool)
        ensures
            r == spec_bit(self@[3], 5u8),
    {
        bit_is_set(self.0[3], 5u8)
    }

    /// Set bit 29 to `val`.
    pub fn set_connected_isochronous_stream_peripheral(self, val: bool) -> (r: Self)
        ensures
            r@ == self@.update(3, spec_with_bit(self@[3], 5u8, val)),
    {
        let mut bytes = self.0;
        bytes[3] = with_bit(bytes[3], 5u8, val);
        let r = LeFeatureMask(bytes);
        proof {
            assert(r@ =~= self@.update(3, spec_with_bit(self@[3], 5u8, val)));
        }
        r
    }

    /// Whether bit 30 is set.
    pub fn supports_isochronous_broadcaster(&self) -> (r: bool)
        ensures
            r == spec_bit(self@[3], 6u8),
    {
        bit_is_set(self.0[3], 6u8)
    }

    /// Set bit 30 to `val`.
    pub fn set_isochronous_broadcaster(self, val: bool) -> (r: Self)
        ensures
            r@ == self@.update(3, spec_with_bit(self@[3], 6u8, val)),
    {
        let mut bytes = self.0;
        bytes[3] = with_bit(bytes[3], 6u8, val);
        let r = LeFeatureMask(bytes);
        proof {
            assert(r@ =~= self@.update(3, spec_with_bit(self@[3], 6u8, val)));
        }
        r
    }

    /// Whether bit 31 is set.
    pub fn supports_synchronized_receiver(&self) -> (r: bool)
        ensures
            r == spec_bit(self@[3], 7u8),
    {
        bit_is_set(self.0[3], 7u8)
    }

    /// Set bit 31 to `val`.
    pub fn set_synchronized_receiver(self, val: bool) -> (r: Self)
        ensures
            r@ == self@.update(3, spec_with_bit(self@[3], 7u8, val)),
    {
        let mut bytes = self.0;
        bytes[3] = with_bit(bytes[3], 7u8, val);
        let r = LeFeatureMask(bytes);
        proof {
            assert(r@ =~= self@.update(3, spec_with_bit(self@[3], 7u8, val)));
        }
        r
    }

    /// Whether bit 32 is set.
    pub fn supports_connected_isochronous_stream(&self) -> (r: bool)
        ensures
            r == spec_bit(self@[4], 0u8),
    {
        bit_is_set(self.0[4], 0u8)
    }

    /// Set bit 32 to `val`.
    pub fn set_connected_isochronous_stream(self, val: bool) -> (r: Self)
        ensures
            r@ == self@.update(4, spec_with_bit(self@[4], 0u8, val)),
    {
        let mut bytes = self.0;
        bytes[4] = with_bit(bytes[4], 0u8, val);
        let r = LeFeatureMask(bytes);
        proof {
            assert(r@ =~= self@.update(4, spec_with_bit(self@[4], 0u8, val)));
        }
        r
    }

    /// Whether bit 33 is set.
    pub fn supports_le_power_control_request(&self) -> (r: bool)
        ensures
            r == spec_bit(self@[4], 1u8),
    {
        bit_is_set(self.0[4], 1u8)
    }

    /// Set bit 33 to `val`.
    pub fn set_le_power_control_request(self, val: bool) -> (r: Self)
        ensures
            r@ == self@.update(4, spec_with_bit(self@[4], 1u8, val)),
    {
        let mut bytes = self.0;
        bytes[4] = with_bit(bytes[4], 1u8, val);
        let r = LeFeatureMask(bytes);
        proof {
            assert(r@ =~= self@.update(4, spec_with_bit(self@[4], 1u8, val)));
        }
        r
    }

    /// Whether bit 35 is set.
    pub fn supports_le_path_loss_monitoring(&self) -> (r: bool)
        ensures
            r == spec_bit(self@[4], 3u8),
    {
        bit_is_set(self.0[4], 3u8)
    }

    /// Set bit 35 to `val`.
    pub fn set_le_path_loss_monitoring(self, val: bool) -> (r: Self)
        ensures
            r@ == self@.update(4, spec_with_bit(self@[4], 3u8, val)),
    {
        let mut bytes = self.0;
        bytes[4] = with_bit(bytes[4], 3u8, val);
        let r = LeFeatureMask(bytes);
        proof {
            assert(r@ =~= self@.update(4, spec_with_bit(self@[4], 3u8, val)));
        }
        r
    }

    /// Whether bit 36 is set.
    pub fn supports_periodic_adv_adi(&self) -> (r: bool)
        ensures
            r == spec_bit(self@[4], 4u8),
    {
        bit_is_set(self.0[4], 4u8)
    }

    /// Set bit 36 to `val`.
    pub fn set_periodic_adv_adi(self, val: bool) -> (r: Self)
        ensures
            r@ == self@.update(4, spec_with_bit(self@[4], 4u8, val)),
    {
        let mut bytes = self.0;
        bytes[4] = with_bit(bytes[4], 4u8, val);
        let r = LeFeatureMask(bytes);
        proof {
            assert(r@ =~= self@.update(4, spec_with_bit(self@[4], 4u8, val)));
        }
        r
    }

    /// Whether bit 37 is set.
    pub fn supports_conn_subrating(&self) -> (r: bool)
        ensures
            r == spec_bit(self@[4], 5u8),
    {
        bit_is_set(self.0[4], 5u8)
    }

    /// Set bit 37 to `val`.
    pub fn set_conn_subrating(self, val: bool) -> (r: Self)
        ensures
            r@ == self@.update(4, spec_with_bit(self@[4], 5u8, val)),
    {
        let mut bytes = self.0;
        bytes[4] = with_bit(bytes[4], 5u8, val);
        let r = LeFeatureMask(bytes);
        proof {
            assert(r@ =~= self@.update(4, spec_with_bit(self@[4], 5u8, val)));
        }
        r
    }

    /// Whether bit 38 is set.
    pub fn supports_conn_subrating_host(&self) -> (r: bool)
        ensures
            r == spec_bit(self@[4], 6u8),
    {
        bit_is_set(self.0[4], 6u8)
    }

    /// Set bit 38 to `val`.
    pub fn set_conn_subrating_host(self, val: bool) -> (r: Self)
        ensures
            r@ == self@.update(4, spec_with_bit(self@[4], 6u8, val)),
    {
        let mut bytes = self.0;
        bytes[4] = with_bit(bytes[4], 6u8, val);
        let r = LeFeatureMask(bytes);
        proof {
            assert(r@ =~= self@.update(4, spec_with_bit(self@[4], 6u8, val)));
        }
        r
    }

    /// Whether bit 39 is set.
    pub fn supports_channel_classification(&self) -> (r: bool)
        ensures
            r == spec_bit(self@[4], 7u8),
    {
        bit_is_set(self.0[4], 7u8)
    }

    /// Set bit 39 to `val`.
    pub fn set_channel_classification(self, val: bool) -> (r: Self)
        ensures
            r@ == self@.update(4, spec_with_bit(self@[4], 7u8, val)),
    {
        let mut bytes = self.0;
        bytes[4] = with_bit(bytes[4], 7u8, val);
        let r = LeFeatureMask(bytes);
        proof {
            assert(r@ =~= self@.update(4, spec_with_bit(self@[4], 7u8, val)));
        }
        r
    }

    /// Whether bit 40 is set.
    pub fn supports_adv_coding_selection(&self) -> (r: bool)
        ensures
            r == spec_bit(self@[5], 0u8),
    {
        bit_is_set(self.0[5], 0u8)
    }

    /// Set bit 40 to `val`.
    pub fn set_adv_coding_selection(self, val: bool) -> (r: Self)
        ensures
            r@ == self@.update(5, spec_with_bit(self@[5], 0u8, val)),
    {
        let mut bytes = self.0;
        bytes[5] = with_bit(bytes[5], 0u8, val);
        let r = LeFeatureMask(bytes);
        proof {
            assert(r@ =~= self@.update(5, spec_with_bit(self@[5], 0u8, val)));
        }
        r
    }

    /// Whether bit 41 is set.
    pub fn supports_adv_coding_selection_host(&self) -> (r: bool)
        ensures
            r == spec_bit(self@[5], 1u8),
    {
        bit_is_set(self.0[5], 1u8)
    }

    /// Set bit 41 to `val`.
    pub fn set_adv_coding_selection_host(self, val: bool) -> (r: Self)
        ensures
            r@ == self@.update(5, spec_with_bit(self@[5], 1u8, val)),
    {
        let mut bytes = self.0;
        bytes[5] = with_bit(bytes[5], 1u8, val);
        let r = LeFeatureMask(bytes);
        proof {
            assert(r@ =~= self@.update(5, spec_with_bit(self@[5], 1u8, val)));
        }
        r
    }

    /// Whether bit 43 is set.
    pub fn supports_periodic_adv_with_resp_advertiser(&self) -> (r: bool)
        ensures
            r == spec_bit(self@[5], 3u8),
    {
        bit_is_set(self.0[5], 3u8)
    }

    /// Set bit 43 to `val`.
    pub fn set_periodic_adv_with_resp_advertiser(self, val: bool) -> (r: Self)
        ensures
            r@ == self@.update(5, spec_with_bit(self@[5], 3u8, val)),
    {
        let mut bytes = self.0;
        bytes[5] = with_bit(bytes[5], 3u8, val);
        let r = LeFeatureMask(bytes);
        proof {
            assert(r@ =~= self@.update(5, spec_with_bit(self@[5], 3u8, val)));
        }
        r
    }

    /// Whether bit 44 is set.
    pub fn supports_periodic_adv_with_resp_scanner(&self) -> (r: bool)
        ensures
            r == spec_bit(self@[5], 4u8),
    {
        bit_is_set(self.0[5], 4u8)
    }

    /// Set bit 44 to `val`.
    pub fn set_periodic_adv_with_resp_scanner(self, val: bool) -> (r: Self)
        ensures
            r@ == self@.update(5, spec_with_bit(self@[5], 4u8, val)),
    {
        let mut bytes = self.0;
        bytes[5] = with_bit(bytes[5], 4u8, val);
        let r = LeFeatureMask(bytes);
        proof {
            assert(r@ =~= self@.update(5, spec_with_bit(self@[5], 4u8, val)));
        }
        r
    }

    /// Whether bit 45 is set.
    pub fn supports_unsegmented_framed_mode(&self) -> (r: bool)
        ensures
            r == spec_bit(self@[5], 5u8),
    {
        bit_is_set(self.0[5], 5u8)
    }

    /// Set bit 45 to `val`.
    pub fn set_unsegmented_framed_mode(self, val: bool) -> (r: Self)
        ensures
            r@ == self@.update(5, spec_with_bit(self@[5], 5u8, val)),
    {
        let mut bytes = self.0;
        bytes[5] = with_bit(bytes[5], 5u8, val);
        let r = LeFeatureMask(bytes);
        proof {
            assert(r@ =~= self@.update(5, spec_with_bit(self@[5], 5u8, val)));
        }
        r
    }

    /// Whether bit 46 is set.
    pub fn supports_channel_sounding(&self) -> (r: bool)
        ensures
            r == spec_bit(self@[5], 6u8),
    {
        bit_is_set(self.0[5], 6u8)
    }

    /// Set bit 46 to `val`.
    pub fn set_channel_sounding(self, val: bool) -> (r: Self)
        ensures
            r@ == self@.update(5, spec_with_bit(self@[5], 6u8, val)),
    {
        let mut bytes = self.0;
        bytes[5] = with_bit(bytes[5], 6u8, val);
        let r = LeFeatureMask(bytes);
        proof {
            assert(r@ =~= self@.update(5, spec_with_bit(self@[5], 6u8, val)));
        }
        r
    }

    /// Whether bit 47 is set.
    pub fn supports_channel_sounding_host(&self) -> (r: bool)
        ensures
            r == spec_bit(self@[5], 7u8),
    {
        bit_is_set(self.0[5], 7u8)
    }

    /// Set bit 47 to `val`.
    pub fn set_channel_sounding_host(self, val: bool) -> (r: Self)
        ensures
            r@ == self@.update(5, spec_with_bit(self@[5], 7u8, val)),
    {
        let mut bytes = self.0;
        bytes[5] = with_bit(bytes[5], 7u8, val);
        let r = LeFeatureMask(bytes);
        proof {
            assert(r@ =~= self@.update(5, spec_with_bit(self@[5], 7u8, val)));
        }
        r
    }

    /// Whether bit 48 is set.
    pub fn supports_channel_sounding_tone_quality_indication(&self) -> (r: bool)
        ensures
            r == spec_bit(self@[6], 0u8),
    {
        bit_is_set(self.0[6], 0u8)
    }

    /// Set bit 48 to `val`.
    pub fn set_channel_sounding_tone_quality_indication(self, val: bool) -> (r: Self)
        ensures
            r@ == self@.update(6, spec_with_bit(self@[6], 0u8, val)),
    {
        let mut bytes = self.0;
        bytes[6] = with_bit(bytes[6], 0u8, val);
        let r = LeFeatureMask(bytes);
        proof {
            assert(r@ =~= self@.update(6, spec_with_bit(self@[6], 0u8, val)));
        }
        r
    }

    /// Whether bit 63 is set.
    pub fn supports_ll_extended_feature_set(&self) -> (r: bool)
        ensures
            r == spec_bit(self@[7], 7u8),
    {
        bit_is_set(self.0[7], 7u8)
    }

    /// Set bit 63 to `val`.
    pub fn set_ll_extended_feature_set(self, val: bool) -> (r: Self)
        ensures
            r@ == self@.update(7, spec_with_bit(self@[7], 7u8, val)),
    {
        let mut bytes = self.0;
        bytes[7] = with_bit(bytes[7], 7u8, val);
        let r = LeFeatureMask(bytes);
        proof {
            assert(r@ =~= self@.update(7, spec_with_bit(self@[7], 7u8, val)));
        }
        r
    }
}

impl<'de> FromHciBytes<'de> for LeFeatureMask {
    open spec fn spec_from_hci_bytes(data: Seq<u8>) -> Result<(Seq<u8>, nat), FromHciBytesError> {
        <[u8; 8] as FromHciBytes<'de>>::spec_from_hci_bytes(data)
    }

    fn from_hci_bytes(data: &'de [u8]) -> (r: Result<(LeFeatureMask, &'de [u8]), FromHciBytesError>) {
        match <[u8; 8] as FromHciBytes<'de>>::from_hci_bytes(data) {
            Ok((v, rest)) => Ok((LeFeatureMask(v), rest)),
            Err(e) => Err(e),
        }
    }
}

impl WriteHci for LeFeatureMask {
    open spec fn spec_hci_bytes(&self) -> Seq<u8> {
        self@
    }

    fn size(&self) -> (r: usize) {
        self.0.size()
    }

    fn write_hci(&self, out: &mut Vec<u8>) {
        self.0.write_hci(out);
    }
}

impl FixedSizeValue for LeFeatureMask {
    open spec fn spec_size() -> nat {
        8
    }

    proof fn lemma_fixed_size(&self) {
        self.0.lemma_fixed_size();
    }
}

impl<'de> HciCodec<'de> for LeFeatureMask {
    open spec fn spec_encodable(&self) -> bool {
        true
    }

    proof fn lemma_write_then_read(&self, rest: Seq<u8>) {
        self.0.lemma_write_then_read(rest);
    }
}

/// LeFeatureMaskPage1
#[derive(Debug, Clone, Copy, PartialEq, Eq, PartialOrd, Ord, Hash, Default)]
pub struct LeFeatureMaskPage1([u8; 8]);

impl View for LeFeatureMaskPage1 {
    type V = Seq<u8>;

    closed spec fn view(&self) -> Seq<u8> {
        self.0@
    }
}

impl LeFeatureMaskPage1 {
    /// Create a new instance with every bit clear.
    pub fn new() -> (r: Self)
        ensures
            r@ == Seq::new(8, |i: int| 0u8),
    {
        let r = LeFeatureMaskPage1([0u8; 8]);
        proof {
            assert(r@ =~= Seq::new(8, |i: int| 0u8));
        }
        r
    }

    /// Get the inner representation.
    pub fn into_inner(self) -> (r: [u8; 8])
        ensures
            r@ == self@,
    {
        self.0
    }

    /// The representation has one byte per octet.
    pub proof fn lemma_len(&self)
        ensures
            self@.len() == 8,
    {
    }

    /// Whether bit 0 is set.
    pub fn supports_monitoring_advertisers(&self) -> (r: bool)
        ensures
            r == spec_bit(self@[0], 0u8),
    {
        bit_is_set(self.0[0], 0u8)
    }

    /// Set bit 0 to `val`.
    pub fn set_monitoring_advertisers(self, val: bool) -> (r: Self)
        ensures
            r@ == self@.update(0, spec_with_bit(self@[0], 0u8, val)),
    {
        let mut bytes = self.0;
        bytes[0] = with_bit(bytes[0], 0u8, val);
        let r = LeFeatureMaskPage1(bytes);
        proof {
            assert(r@ =~= self@.update(0, spec_with_bit(self@[0], 0u8, val)));
        }
        r
    }

    /// Whether bit 1 is set.
    pub fn supports_frame_space_update(&self) -> (r: bool)
        ensures
            r == spec_bit(self@[0], 1u8),
    {
        bit_is_set(self.0[0], 1u8)
    }

    /// Set bit 1 to `val`.
    pub fn set_frame_space_update(self, val: bool) -> (r: Self)
        ensures
            r@ == self@.update(0, spec_with_bit(self@[0], 1u8, val)),
    {
        let mut bytes = self.0;
        bytes[0] = with_bit(bytes[0], 1u8, val);
        let r = LeFeatureMaskPage1(bytes);
        proof {
            assert(r@ =~= self@.update(0, spec_with_bit(self@[0], 1u8, val)));
        }
        r
    }

    /// Whether bit 2 is set.
    pub fn supports_utp_ota_mode(&self) -> (r: bool)
        ensures
            r == spec_bit(self@[0], 2u8),
    {
        bit_is_set(self.0[0], 2u8)
    }

    /// Set bit 2 to `val`.
    pub fn set_utp_ota_mode(self, val: bool) -> (r: Self)
        ensures
            r@ == self@.update(0, spec_with_bit(self@[0], 2u8, val)),
    {
        let mut bytes = self.0;
        bytes[0] = with_bit(bytes[0], 2u8, val);
        let r = LeFeatureMaskPage1(bytes);
        proof {
            assert(r@ =~= self@.update(0, spec_with_bit(self@[0], 2u8, val)));
        }
        r
    }

    /// Whether bit 3 is set.
    pub fn supports_utp_hci_mode(&self) -> (r: bool)
        ensures
            r == spec_bit(self@[0], 3u8),
    {
        bit_is_set(self.0[0], 3u8)
    }

    /// Set bit 3 to `val`.
    pub fn set_utp_hci_mode(self, val: bool) -> (r: Self)
        ensures
            r@ == self@.update(0, spec_with_bit(self@[0], 3u8, val)),
    {
        let mut bytes = self.0;
        bytes[0] = with_bit(bytes[0], 3u8, val);
        let r = LeFeatureMaskPage1(bytes);
        proof {
            assert(r@ =~= self@.update(0, spec_with_bit(self@[0], 3u8, val)));
        }
        r
    }

    /// Whether bit 4 is set.
    pub fn ll_ota_utp_ind_max_length_bit_68(&self) -> (r: bool)
        ensures
            r == spec_bit(self@[0], 4u8),
    {
        bit_is_set(self.0[0], 4u8)
    }

    /// Set bit 4 to `val`.
    pub fn set_ll_ota_utp_ind_max_length_bit_68(self, val: bool) -> (r: Self)
        ensures
            r@ == self@.update(0, spec_with_bit(self@[0], 4u8, val)),
    {
        let mut bytes = self.0;
        bytes[0] = with_bit(bytes[0], 4u8, val);
        let r = LeFeatureMaskPage1(bytes);
        proof {
            assert(r@ =~= self@.update(0, spec_with_bit(self@[0], 4u8, val)));
        }
        r
    }

    /// Whether bit 5 is set.
    pub fn ll_ota_utp_ind_max_length_bit_69(&self) -> (r: bool)
        ensures
            r == spec_bit(self@[0], 5u8),
    {
        bit_is_set(self.0[0], 5u8)
    }

    /// Set bit 5 to `val`.
    pub fn set_ll_ota_utp_ind_max_length_bit_69(self, val: bool) -> (r: Self)
        ensures
            r@ == self@.update(0, spec_with_bit(self@[0], 5u8, val)),
    {
        let mut bytes = self.0;
        bytes[0] = with_bit(bytes[0], 5u8, val);
        let r = LeFeatureMaskPage1(bytes);
        proof {
            assert(r@ =~= self@.update(0, spec_with_bit(self@[0], 5u8, val)));
        }
        r
    }

    /// Whether bit 8 is set.
    pub fn supports_shorter_connection_intervals(&self) -> (r: bool)
        ensures
            r == spec_bit(self@[1], 0u8),
    {
        bit_is_set(self.0[1], 0u8)
    }

    /// Set bit 8 to `val`.
    pub fn set_shorter_connection_intervals(self, val: bool) -> (r: Self)
        ensures
            r@ == self@.update(1, spec_with_bit(self@[1], 0u8, val)),
    {
        let mut bytes = self.0;
        bytes[1] = with_bit(bytes[1], 0u8, val);
        let r = LeFeatureMaskPage1(bytes);
        proof {
            assert(r@ =~= self@.update(1, spec_with_bit(self@[1], 0u8, val)));
        }
        r
    }

    /// Whether bit 9 is set.
    pub fn supports_shorter_connection_intervals_host(&self) -> (r: bool)
        ensures
            r == spec_bit(self@[1], 1u8),
    {
        bit_is_set(self.0[1], 1u8)
    }

    /// Set bit 9 to `val`.
    pub fn set_shorter_connection_intervals_host(self, val: bool) -> (r: Self)
        ensures
            r@ == self@.update(1, spec_with_bit(self@[1], 1u8, val)),
    {
        let mut bytes = self.0;
        bytes[1] = with_bit(bytes[1], 1u8, val);
        let r = LeFeatureMaskPage1(bytes);
        proof {
            assert(r@ =~= self@.update(1, spec_with_bit(self@[1], 1u8, val)));
        }
        r
    }

    /// Whether bit 10 is set.
    pub fn supports_le_flushable_acl_data(&self) -> (r: bool)
        ensures
            r == spec_bit(self@[1], 2u8),
    {
        bit_is_set(self.0[1], 2u8)
    }

    /// Set bit 10 to `val`.
    pub fn set_le_flushable_acl_data(self, val: bool) -> (r: Self)
        ensures
            r@ == self@.update(1, spec_with_bit(self@[1], 2u8, val)),
    {
        let mut bytes = self.0;
        bytes[1] = with_bit(bytes[1], 2u8, val);
        let r = LeFeatureMaskPage1(bytes);
        proof {
            assert(r@ =~= self@.update(1, spec_with_bit(self@[1], 2u8, val)));
        }
        r
    }

    /// Whether bit 11 is set.
    pub fn supports_channel_sounding_enhancement_1(&self) -> (r: bool)
        ensures
            r == spec_bit(self@[1], 3u8),
    {
        bit_is_set(self.0[1], 3u8)
    }

    /// Set bit 11 to `val`.
    pub fn set_channel_sounding_enhancement_1(self, val: bool) -> (r: Self)
        ensures
            r@ == self@.update(1, spec_with_bit(self@[1], 3u8, val)),
    {
        let mut bytes = self.0;
        bytes[1] = with_bit(bytes[1], 3u8, val);
        let r = LeFeatureMaskPage1(bytes);
        proof {
            assert(r@ =~= self@.update(1, spec_with_bit(self@[1], 3u8, val)));
        }
        r
    }
}

impl<'de> FromHciBytes<'de> for LeFeatureMaskPage1 {
    open spec fn spec_from_hci_bytes(data: Seq<u8>) -> Result<(Seq<u8>, nat), FromHciBytesError> {
        <[u8; 8] as FromHciBytes<'de>>::spec_from_hci_bytes(data)
    }

    fn from_hci_bytes(data: &'de [u8]) -> (r: Result<(LeFeatureMaskPage1, &'de [u8]), FromHciBytesError>) {
        match <[u8; 8] as FromHciBytes<'de>>::from_hci_bytes(data) {
            Ok((v, rest)) => Ok((LeFeatureMaskPage1(v), rest)),
            Err(e) => Err(e),
        }
    }
}

impl WriteHci for LeFeatureMaskPage1 {
    open spec fn spec_hci_bytes(&self) -> Seq<u8> {
        self@
    }

    fn size(&self) -> (r: usize) {
        self.0.size()
    }

    fn write_hci(&self, out: &mut Vec<u8>) {
        self.0.write_hci(out);
    }
}

impl FixedSizeValue for LeFeatureMaskPage1 {
    open spec fn spec_size() -> nat {
        8
    }

    proof fn lemma_fixed_size(&self) {
        self.0.lemma_fixed_size();
    }
}

impl<'de> HciCodec<'de> for LeFeatureMaskPage1 {
    open spec fn spec_encodable(&self) -> bool {
        true
    }

    proof fn lemma_write_then_read(&self, rest: Seq<u8>) {
        self.0.lemma_write_then_read(rest);
    }
}

} // verus!
