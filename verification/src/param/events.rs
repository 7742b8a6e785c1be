//! Masks that select which events the controller reports.

use vstd::prelude::*;

use crate::{FixedSizeValue, FromHciBytes, FromHciBytesError, HciCodec, WriteHci};
use crate::param::bits::{bit_is_set, spec_bit, spec_with_bit, with_bit};
use crate::param::primitives::spec_u16_le_bytes;

verus! {

/// EventMask
#[derive(Debug, Clone, Copy, PartialEq, Eq, PartialOrd, Ord, Hash, Default)]
pub struct EventMask([u8; 8]);

impl View for EventMask {
    type V = Seq<u8>;

    closed spec fn view(&self) -> Seq<u8> {
        self.0@
    }
}

impl EventMask {
    /// Create a new instance with every bit clear.
    pub fn new() -> (r: Self)
        ensures
            r@ == Seq::new(8, |i: int| 0u8),
    {
        let r = EventMask([0u8; 8]);
        proof {
            assert(r@ =~= Seq::new(8, |i: int| 0u8));
        }
        r
    }

    /// Get the inner representation.
    pub fn into_inner(self) -> (r: [u8; 8])
        ensures
            r@ == self@,
    {
        self.0
    }

    /// The representation has one byte per octet.
    pub proof fn lemma_len(&self)
        ensures
            self@.len() == 8,
    {
    }

    /// Whether bit 0 is set.
    pub fn is_inquiry_complete_enabled(&self) -> (r: bool)
        ensures
            r == spec_bit(self@[0], 0u8),
    {
        bit_is_set(self.0[0], 0u8)
    }

    /// Set bit 0 to `val`.
    pub fn enable_inquiry_complete(self, val: bool) -> (r: Self)
        ensures
            r@ == self@.update(0, spec_with_bit(self@[0], 0u8, val)),
    {
        let mut bytes = self.0;
        bytes[0] = with_bit(bytes[0], 0u8, val);
        let r = EventMask(bytes);
        proof {
            assert(r@ =~= self@.update(0, spec_with_bit(self@[0], 0u8, val)));
        }
        r
    }

    /// Whether bit 1 is set.
    pub fn is_inquiry_result_enabled(&self) -> (r: bool)
        ensures
            r == spec_bit(self@[0], 1u8),
    {
        bit_is_set(self.0[0], 1u8)
    }

    /// Set bit 1 to `val`.
    pub fn enable_inquiry_result(self, val: bool) -> (r: Self)
        ensures
            r@ == self@.update(0, spec_with_bit(self@[0], 1u8, val)),
    {
        let mut bytes = self.0;
        bytes[0] = with_bit(bytes[0], 1u8, val);
        let r = EventMask(bytes);
        proof {
            assert(r@ =~= self@.update(0, spec_with_bit(self@[0], 1u8, val)));
        }
        r
    }

    /// Whether bit 2 is set.
    pub fn is_conn_complete_enabled(&self) -> (r: bool)
        ensures
            r == spec_bit(self@[0], 2u8),
    {
        bit_is_set(self.0[0], 2u8)
    }

    /// Set bit 2 to `val`.
    pub fn enable_conn_complete(self, val: bool) -> (r: Self)
        ensures
            r@ == self@.update(0, spec_with_bit(self@[0], 2u8, val)),
    {
        let mut bytes = self.0;
        bytes[0] = with_bit(bytes[0], 2u8, val);
        let r = EventMask(bytes);
        proof {
            assert(r@ =~= self@.update(0, spec_with_bit(self@[0], 2u8, val)));
        }
        r
    }

    /// Whether bit 3 is set.
    pub fn is_conn_request_enabled(&self) -> (r: bool)
        ensures
            r == spec_bit(self@[0], 3u8),
    {
        bit_is_set(self.0[0], 3u8)
    }

    /// Set bit 3 to `val`.
    pub fn enable_conn_request(self, val: bool) -> (r: Self)
        ensures
            r@ == self@.update(0, spec_with_bit(self@[0], 3u8, val)),
    {
        let mut bytes = self.0;
        bytes[0] = with_bit(bytes[0], 3u8, val);
        let r = EventMask(bytes);
        proof {
            assert(r@ =~= self@.update(0, spec_with_bit(self@[0], 3u8, val)));
        }
        r
    }

    /// Whether bit 4 is set.
    pub fn is_disconnection_complete_enabled(&self) -> (r: bool)
        ensures
            r == spec_bit(self@[0], 4u8),
    {
        bit_is_set(self.0[0], 4u8)
    }

    /// Set bit 4 to `val`.
    pub fn enable_disconnection_complete(self, val: bool) -> (r: Self)
        ensures
            r@ == self@.update(0, spec_with_bit(self@[0], 4u8, val)),
    {
        let mut bytes = self.0;
        bytes[0] = with_bit(bytes[0], 4u8, val);
        let r = EventMask(bytes);
        proof {
            assert(r@ =~= self@.update(0, spec_with_bit(self@[0], 4u8, val)));
        }
        r
    }

    /// Whether bit 5 is set.
    pub fn is_authentication_complete_enabled(&self) -> (r: bool)
        ensures
            r == spec_bit(self@[0], 5u8),
    {
        bit_is_set(self.0[0], 5u8)
    }

    /// Set bit 5 to `val`.
    pub fn enable_authentication_complete(self, val: bool) -> (r: Self)
        ensures
            r@ == self@.update(0, spec_with_bit(self@[0], 5u8, val)),
    {
        let mut bytes = self.0;
        bytes[0] = with_bit(bytes[0], 5u8, val);
        let r = EventMask(bytes);
        proof {
            assert(r@ =~= self@.update(0, spec_with_bit(self@[0], 5u8, val)));
        }
        r
    }

    /// Whether bit 6 is set.
    pub fn is_remote_name_request_complete_enabled(&self) -> (r: bool)
        ensures
            r == spec_bit(self@[0], 6u8),
    {
        bit_is_set(self.0[0], 6u8)
    }

    /// Set bit 6 to `val`.
    pub fn enable_remote_name_request_complete(self, val: bool) -> (r: Self)
        ensures
            r@ == self@.update(0, spec_with_bit(self@[0], 6u8, val)),
    {
        let mut bytes = self.0;
        bytes[0] = with_bit(bytes[0], 6u8, val);
        let r = EventMask(bytes);
        proof {
            assert(r@ =~= self@.update(0, spec_with_bit(self@[0], 6u8, val)));
        }
        r
    }

    /// Whether bit 7 is set.
    pub fn is_encryption_change_v1_enabled(&self) -> (r: bool)
        ensures
            r == spec_bit(self@[0], 7u8),
    {
        bit_is_set(self.0[0], 7u8)
    }

    /// Set bit 7 to `val`.
    pub fn enable_encryption_change_v1(self, val: bool) -> (r: Self)
        ensures
            r@ == self@.update(0, spec_with_bit(self@[0], 7u8, val)),
    {
        let mut bytes = self.0;
        bytes[0] = with_bit(bytes[0], 7u8, val);
        let r = EventMask(bytes);
        proof {
            assert(r@ =~= self@.update(0, spec_with_bit(self@[0], 7u8, val)));
        }
        r
    }

    /// Whether bit 8 is set.
    pub fn is_change_conn_link_key_complete_enabled(&self) -> (r: bool)
        ensures
            r == spec_bit(self@[1], 0u8),
    {
        bit_is_set(self.0[1], 0u8)
    }

    /// Set bit 8 to `val`.
    pub fn enable_change_conn_link_key_complete(self, val: bool) -> (r: Self)
        ensures
            r@ == self@.update(1, spec_with_bit(self@[1], 0u8, val)),
    {
        let mut bytes = self.0;
        bytes[1] = with_bit(bytes[1], 0u8, val);
        let r = EventMask(bytes);
        proof {
            assert(r@ =~= self@.update(1, spec_with_bit(self@[1], 0u8, val)));
        }
        r
    }

    /// Whether bit 9 is set.
    pub fn is_link_key_type_changed_enabled(&self) -> (r: bool)
        ensures
            r == spec_bit(self@[1], 1u8),
    {
        bit_is_set(self.0[1], 1u8)
    }

    /// Set bit 9 to `val`.
    pub fn enable_link_key_type_changed(self, val: bool) -> (r: Self)
        ensures
            r@ == self@.update(1, spec_with_bit(self@[1], 1u8, val)),
    {
        let mut bytes = self.0;
        bytes[1] = with_bit(bytes[1], 1u8, val);
        let r = EventMask(bytes);
        proof {
            assert(r@ =~= self@.update(1, spec_with_bit(self@[1], 1u8, val)));
        }
        r
    }

    /// Whether bit 10 is set.
    pub fn supports_read_remote_features_complete_enabled(&self) -> (r: bool)
        ensures
            r == spec_bit(self@[1], 2u8),
    {
        bit_is_set(self.0[1], 2u8)
    }

    /// Set bit 10 to `val`.
    pub fn enable_read_remote_supported_features_complete(self, val: bool) -> (r: Self)
        ensures
            r@ == self@.update(1, spec_with_bit(self@[1], 2u8, val)),
    {
        let mut bytes = self.0;
        bytes[1] = with_bit(bytes[1], 2u8, val);
        let r = EventMask(bytes);
        proof {
            assert(r@ =~= self@.update(1, spec_with_bit(self@[1], 2u8, val)));
        }
        r
    }

    /// Whether bit 11 is set.
    pub fn is_read_remote_version_information_complete_enabled(&self) -> (r: bool)
        ensures
            r == spec_bit(self@[1], 3u8),
    {
        bit_is_set(self.0[1], 3u8)
    }

    /// Set bit 11 to `val`.
    pub fn enable_read_remote_version_information_complete(self, val: bool) -> (r: Self)
        ensures
            r@ == self@.update(1, spec_with_bit(self@[1], 3u8, val)),
    {
        let mut bytes = self.0;
        bytes[1] = with_bit(bytes[1], 3u8, val);
        let r = EventMask(bytes);
        proof {
            assert(r@ =~= self@.update(1, spec_with_bit(self@[1], 3u8, val)));
        }
        r
    }

    /// Whether bit 12 is set.
    pub fn is_qos_setup_complete_enabled(&self) -> (r: bool)
        ensures
            r == spec_bit(self@[1], 4u8),
    {
        bit_is_set(self.0[1], 4u8)
    }

    /// Set bit 12 to `val`.
    pub fn enable_qos_setup_complete(self, val: bool) -> (r: Self)
        ensures
            r@ == self@.update(1, spec_with_bit(self@[1], 4u8, val)),
    {
        let mut bytes = self.0;
        bytes[1] = with_bit(bytes[1], 4u8, val);
        let r = EventMask(bytes);
        proof {
            assert(r@ =~= self@.update(1, spec_with_bit(self@[1], 4u8, val)));
        }
        r
    }

    /// Whether bit 15 is set.
    pub fn is_hardware_error_enabled(&self) -> (r: bool)
        ensures
            r == spec_bit(self@[1], 7u8),
    {
        bit_is_set(self.0[1], 7u8)
    }

    /// Set bit 15 to `val`.
    pub fn enable_hardware_error(self, val: bool) -> (r: Self)
        ensures
            r@ == self@.update(1, spec_with_bit(self@[1], 7u8, val)),
    {
        let mut bytes = self.0;
        bytes[1] = with_bit(bytes[1], 7u8, val);
        let r = EventMask(bytes);
        proof {
            assert(r@ =~= self@.update(1, spec_with_bit(self@[1], 7u8, val)));
        }
        r
    }

    /// Whether bit 16 is set.
    pub fn is_flush_occurred_enabled(&self) -> (r: bool)
        ensures
            r == spec_bit(self@[2], 0u8),
    {
        bit_is_set(self.0[2], 0u8)
    }

    /// Set bit 16 to `val`.
    pub fn enable_flush_occurred(self, val: bool) -> (r: Self)
        ensures
            r@ == self@.update(2, spec_with_bit(self@[2], 0u8, val)),
    {
        let mut bytes = self.0;
        bytes[2] = with_bit(bytes[2], 0u8, val);
        let r = EventMask(bytes);
        proof {
            assert(r@ =~= self@.update(2, spec_with_bit(self@[2], 0u8, val)));
        }
        r
    }

    /// Whether bit 17 is set.
    pub fn is_role_change_enabled(&self) -> (r: bool)
        ensures
            r == spec_bit(self@[2], 1u8),
    {
        bit_is_set(self.0[2], 1u8)
    }

    /// Set bit 17 to `val`.
    pub fn enable_role_change(self, val: bool) -> (r: Self)
        ensures
            r@ == self@.update(2, spec_with_bit(self@[2], 1u8, val)),
    {
        let mut bytes = self.0;
        bytes[2] = with_bit(bytes[2], 1u8, val);
        let r = EventMask(bytes);
        proof {
            assert(r@ =~= self@.update(2, spec_with_bit(self@[2], 1u8, val)));
        }
        r
    }

    /// Whether bit 19 is set.
    pub fn is_mode_change_enabled(&self) -> (r: bool)
        ensures
            r == spec_bit(self@[2], 3u8),
    {
        bit_is_set(self.0[2], 3u8)
    }

    /// Set bit 19 to `val`.
    pub fn enable_mode_change(self, val: bool) -> (r: Self)
        ensures
            r@ == self@.update(2, spec_with_bit(self@[2], 3u8, val)),
    {
        let mut bytes = self.0;
        bytes[2] = with_bit(bytes[2], 3u8, val);
        let r = EventMask(bytes);
        proof {
            assert(r@ =~= self@.update(2, spec_with_bit(self@[2], 3u8, val)));
        }
        r
    }

    /// Whether bit 20 is set.
    pub fn is_return_link_keys_enabled(&self) -> (r: bool)
        ensures
            r == spec_bit(self@[2], 4u8),
    {
        bit_is_set(self.0[2], 4u8)
    }

    /// Set bit 20 to `val`.
    pub fn enable_return_link_keys(self, val: bool) -> (r: Self)
        ensures
            r@ == self@.update(2, spec_with_bit(self@[2], 4u8, val)),
    {
        let mut bytes = self.0;
        bytes[2] = with_bit(bytes[2], 4u8, val);
        let r = EventMask(bytes);
        proof {
            assert(r@ =~= self@.update(2, spec_with_bit(self@[2], 4u8, val)));
        }
        r
    }

    /// Whether bit 21 is set.
    pub fn is_pin_code_request_enabled(&self) -> (r: bool)
        ensures
            r == spec_bit(self@[2], 5u8),
    {
        bit_is_set(self.0[2], 5u8)
    }

    /// Set bit 21 to `val`.
    pub fn enable_pin_code_request(self, val: bool) -> (r: Self)
        ensures
            r@ == self@.update(2, spec_with_bit(self@[2], 5u8, val)),
    {
        let mut bytes = self.0;
        bytes[2] = with_bit(bytes[2], 5u8, val);
        let r = EventMask(bytes);
        proof {
            assert(r@ =~= self@.update(2, spec_with_bit(self@[2], 5u8, val)));
        }
        r
    }

    /// Whether bit 22 is set.
    pub fn is_link_key_request_enabled(&self) -> (r: bool)
        ensures
            r == spec_bit(self@[2], 6u8),
    {
        bit_is_set(self.0[2], 6u8)
    }

    /// Set bit 22 to `val`.
    pub fn enable_link_key_request(self, val: bool) -> (r: Self)
        ensures
            r@ == self@.update(2, spec_with_bit(self@[2], 6u8, val)),
    {
        let mut bytes = self.0;
        bytes[2] = with_bit(bytes[2], 6u8, val);
        let r = EventMask(bytes);
        proof {
            assert(r@ =~= self@.update(2, spec_with_bit(self@[2], 6u8, val)));
        }
        r
    }

    /// Whether bit 23 is set.
    pub fn is_link_key_notification_enabled(&self) -> (r: bool)
        ensures
            r == spec_bit(self@[2], 7u8),
    {
        bit_is_set(self.0[2], 7u8)
    }

    /// Set bit 23 to `val`.
    pub fn enable_link_key_notification(self, val: bool) -> (r: Self)
        ensures
            r@ == self@.update(2, spec_with_bit(self@[2], 7u8, val)),
    {
        let mut bytes = self.0;
        bytes[2] = with_bit(bytes[2], 7u8, val);
        let r = EventMask(bytes);
        proof {
            assert(r@ =~= self@.update(2, spec_with_bit(self@[2], 7u8, val)));
        }
        r
    }

    /// Whether bit 24 is set.
    pub fn is_loopback_cmd_enabled(&self) -> (r: bool)
        ensures
            r == spec_bit(self@[3], 0u8),
    {
        bit_is_set(self.0[3], 0u8)
    }

    /// Set bit 24 to `val`.
    pub fn enable_loopback_cmd(self, val: bool) -> (r: Self)
        ensures
            r@ == self@.update(3, spec_with_bit(self@[3], 0u8, val)),
    {
        let mut bytes = self.0;
        bytes[3] = with_bit(bytes[3], 0u8, val);
        let r = EventMask(bytes);
        proof {
            assert(r@ =~= self@.update(3, spec_with_bit(self@[3], 0u8, val)));
        }
        r
    }

    /// Whether bit 25 is set.
    pub fn is_data_buffer_overflow_enabled(&self) -> (r: bool)
        ensures
            r == spec_bit(self@[3], 1u8),
    {
        bit_is_set(self.0[3], 1u8)
    }

    /// Set bit 25 to `val`.
    pub fn enable_data_buffer_overflow(self, val: bool) -> (r: Self)
        ensures
            r@ == self@.update(3, spec_with_bit(self@[3], 1u8, val)),
    {
        let mut bytes = self.0;
        bytes[3] = with_bit(bytes[3], 1u8, val);
        let r = EventMask(bytes);
        proof {
            assert(r@ =~= self@.update(3, spec_with_bit(self@[3], 1u8, val)));
        }
        r
    }

    /// Whether bit 26 is set.
    pub fn is_max_slots_change_enabled(&self) -> (r: bool)
        ensures
            r == spec_bit(self@[3], 2u8),
    {
        bit_is_set(self.0[3], 2u8)
    }

    /// Set bit 26 to `val`.
    pub fn enable_max_slots_change(self, val: bool) -> (r: Self)
        ensures
            r@ == self@.update(3, spec_with_bit(self@[3], 2u8, val)),
    {
        let mut bytes = self.0;
        bytes[3] = with_bit(bytes[3], 2u8, val);
        let r = EventMask(bytes);
        proof {
            assert(r@ =~= self@.update(3, spec_with_bit(self@[3], 2u8, val)));
        }
        r
    }

    /// Whether bit 27 is set.
    pub fn is_read_clock_offset_complete_enabled(&self) -> (r: bool)
        ensures
            r == spec_bit(self@[3], 3u8),
    {
        bit_is_set(self.0[3], 3u8)
    }

    /// Set bit 27 to `val`.
    pub fn enable_read_clock_offset_complete(self, val: bool) -> (r: Self)
        ensures
            r@ == self@.update(3, spec_with_bit(self@[3], 3u8, val)),
    {
        let mut bytes = self.0;
        bytes[3] = with_bit(bytes[3], 3u8, val);
        let r = EventMask(bytes);
        proof {
            assert(r@ =~= self@.update(3, spec_with_bit(self@[3], 3u8, val)));
        }
        r
    }

    /// Whether bit 28 is set.
    pub fn is_conn_packet_type_changed_enabled(&self) -> (r: bool)
        ensures
            r == spec_bit(self@[3], 4u8),
    {
        bit_is_set(self.0[3], 4u8)
    }

    /// Set bit 28 to `val`.
    pub fn enable_conn_packet_type_changed(self, val: bool) -> (r: Self)
        ensures
            r@ == self@.update(3, spec_with_bit(self@[3], 4u8, val)),
    {
        let mut bytes = self.0;
        bytes[3] = with_bit(bytes[3], 4u8, val);
        let r = EventMask(bytes);
        proof {
            assert(r@ =~= self@.update(3, spec_with_bit(self@[3], 4u8, val)));
        }
        r
    }

    /// Whether bit 29 is set.
    pub fn is_qos_violation_enabled(&self) -> (r: bool)
        ensures
            r == spec_bit(self@[3], 5u8),
    {
        bit_is_set(self.0[3], 5u8)
    }

    /// Set bit 29 to `val`.
    pub fn enable_qos_violation(self, val: bool) -> (r: Self)
        ensures
            r@ == self@.update(3, spec_with_bit(self@[3], 5u8, val)),
    {
        let mut bytes = self.0;
        bytes[3] = with_bit(bytes[3], 5u8, val);
        let r = EventMask(bytes);
        proof {
            assert(r@ =~= self@.update(3, spec_with_bit(self@[3], 5u8, val)));
        }
        r
    }

    /// Whether bit 31 is set.
    pub fn is_page_scan_repetition_mode_change_enabled(&self) -> (r: bool)
        ensures
            r == spec_bit(self@[3], 7u8),
    {
        bit_is_set(self.0[3], 7u8)
    }

    /// Set bit 31 to `val`.
    pub fn enable_page_scan_repetition_mode_change(self, val: bool) -> (r: Self)
        ensures
            r@ == self@.update(3, spec_with_bit(self@[3], 7u8, val)),
    {
        let mut bytes = self.0;
        bytes[3] = with_bit(bytes[3], 7u8, val);
        let r = EventMask(bytes);
        proof {
            assert(r@ =~= self@.update(3, spec_with_bit(self@[3], 7u8, val)));
        }
        r
    }

    /// Whether bit 32 is set.
    pub fn is_flow_specification_complete_enabled(&self) -> (r: bool)
        ensures
            r == spec_bit(self@[4], 0u8),
    {
        bit_is_set(self.0[4], 0u8)
    }

    /// Set bit 32 to `val`.
    pub fn enable_flow_specification_complete(self, val: bool) -> (r: Self)
        ensures
            r@ == self@.update(4, spec_with_bit(self@[4], 0u8, val)),
    {
        let mut bytes = self.0;
        bytes[4] = with_bit(bytes[4], 0u8, val);
        let r = EventMask(bytes);
        proof {
            assert(r@ =~= self@.update(4, spec_with_bit(self@[4], 0u8, val)));
        }
        r
    }

    /// Whether bit 33 is set.
    pub fn is_inquiry_result_with_rssi_enabled(&self) -> (r: bool)
        ensures
            r == spec_bit(self@[4], 1u8),
    {
        bit_is_set(self.0[4], 1u8)
    }

    /// Set bit 33 to `val`.
    pub fn enable_inquiry_result_with_rssi(self, val: bool) -> (r: Self)
        ensures
            r@ == self@.update(4, spec_with_bit(self@[4], 1u8, val)),
    {
        let mut bytes = self.0;
        bytes[4] = with_bit(bytes[4], 1u8, val);
        let r = EventMask(bytes);
        proof {
            assert(r@ =~= self@.update(4, spec_with_bit(self@[4], 1u8, val)));
        }
        r
    }

    /// Whether bit 34 is set.
    pub fn is_read_remote_ext_features_complete_enabled(&self) -> (r: bool)
        ensures
            r == spec_bit(self@[4], 2u8),
    {
        bit_is_set(self.0[4], 2u8)
    }

    /// Set bit 34 to `val`.
    pub fn enable_read_remote_ext_features_complete(self, val: bool) -> (r: Self)
        ensures
            r@ == self@.update(4, spec_with_bit(self@[4], 2u8, val)),
    {
        let mut bytes = self.0;
        bytes[4] = with_bit(bytes[4], 2u8, val);
        let r = EventMask(bytes);
        proof {
            assert(r@ =~= self@.update(4, spec_with_bit(self@[4], 2u8, val)));
        }
        r
    }

    /// Whether bit 43 is set.
    pub fn is_synchronous_conn_complete_enabled(&self) -> (r: bool)
        ensures
            r == spec_bit(self@[5], 3u8),
    {
        bit_is_set(self.0[5], 3u8)
    }

    /// Set bit 43 to `val`.
    pub fn enable_synchronous_conn_complete(self, val: bool) -> (r: Self)
        ensures
            r@ == self@.update(5, spec_with_bit(self@[5], 3u8, val)),
    {
        let mut bytes = self.0;
        bytes[5] = with_bit(bytes[5], 3u8, val);
        let r = EventMask(bytes);
        proof {
            assert(r@ =~= self@.update(5, spec_with_bit(self@[5], 3u8, val)));
        }
        r
    }

    /// Whether bit 44 is set.
    pub fn is_synchronous_conn_changed_enabled(&self) -> (r: bool)
        ensures
            r == spec_bit(self@[5], 4u8),
    {
        bit_is_set(self.0[5], 4u8)
    }

    /// Set bit 44 to `val`.
    pub fn enable_synchronous_conn_changed(self, val: bool) -> (r: Self)
        ensures
            r@ == self@.update(5, spec_with_bit(self@[5], 4u8, val)),
    {
        let mut bytes = self.0;
        bytes[5] = with_bit(bytes[5], 4u8, val);
        let r = EventMask(bytes);
        proof {
            assert(r@ =~= self@.update(5, spec_with_bit(self@[5], 4u8, val)));
        }
        r
    }

    /// Whether bit 45 is set.
    pub fn is_sniff_subrating_enabled(&self) -> (r: bool)
        ensures
            r == spec_bit(self@[5], 5u8),
    {
        bit_is_set(self.0[5], 5u8)
    }

    /// Set bit 45 to `val`.
    pub fn enable_sniff_subrating(self, val: bool) -> (r: Self)
        ensures
            r@ == self@.update(5, spec_with_bit(self@[5], 5u8, val)),
    {
        let mut bytes = self.0;
        bytes[5] = with_bit(bytes[5], 5u8, val);
        let r = EventMask(bytes);
        proof {
            assert(r@ =~= self@.update(5, spec_with_bit(self@[5], 5u8, val)));
        }
        r
    }

    /// Whether bit 46 is set.
    pub fn is_ext_inquiry_result_enabled(&self) -> (r: bool)
        ensures
            r == spec_bit(self@[5], 6u8),
    {
        bit_is_set(self.0[5], 6u8)
    }

    /// Set bit 46 to `val`.
    pub fn enable_ext_inquiry_result(self, val: bool) -> (r: Self)
        ensures
            r@ == self@.update(5, spec_with_bit(self@[5], 6u8, val)),
    {
        let mut bytes = self.0;
        bytes[5] = with_bit(bytes[5], 6u8, val);
        let r = EventMask(bytes);
        proof {
            assert(r@ =~= self@.update(5, spec_with_bit(self@[5], 6u8, val)));
        }
        r
    }

    /// Whether bit 47 is set.
    pub fn is_encryption_key_refresh_complete_enabled(&self) -> (r: bool)
        ensures
            r == spec_bit(self@[5], 7u8),
    {
        bit_is_set(self.0[5], 7u8)
    }

    /// Set bit 47 to `val`.
    pub fn enable_encryption_key_refresh_complete(self, val: bool) -> (r: Self)
        ensures
            r@ == self@.update(5, spec_with_bit(self@[5], 7u8, val)),
    {
        let mut bytes = self.0;
        bytes[5] = with_bit(bytes[5], 7u8, val);
        let r = EventMask(bytes);
        proof {
            assert(r@ =~= self@.update(5, spec_with_bit(self@[5], 7u8, val)));
        }
        r
    }

    /// Whether bit 48 is set.
    pub fn is_io_capability_request_enabled(&self) -> (r: bool)
        ensures
            r == spec_bit(self@[6], 0u8),
    {
        bit_is_set(self.0[6], 0u8)
    }

    /// Set bit 48 to `val`.
    pub fn enable_io_capability_request(self, val: bool) -> (r: Self)
        ensures
            r@ == self@.update(6, spec_with_bit(self@[6], 0u8, val)),
    {
        let mut bytes = self.0;
        bytes[6] = with_bit(bytes[6], 0u8, val);
        let r = EventMask(bytes);
        proof {
            assert(r@ =~= self@.update(6, spec_with_bit(self@[6], 0u8, val)));
        }
        r
    }

    /// Whether bit 49 is set.
    pub fn is_io_capability_response_enabled(&self) -> (r: bool)
        ensures
            r == spec_bit(self@[6], 1u8),
    {
        bit_is_set(self.0[6], 1u8)
    }

    /// Set bit 49 to `val`.
    pub fn enable_io_capability_response(self, val: bool) -> (r: Self)
        ensures
            r@ == self@.update(6, spec_with_bit(self@[6], 1u8, val)),
    {
        let mut bytes = self.0;
        bytes[6] = with_bit(bytes[6], 1u8, val);
        let r = EventMask(bytes);
        proof {
            assert(r@ =~= self@.update(6, spec_with_bit(self@[6], 1u8, val)));
        }
        r
    }

    /// Whether bit 50 is set.
    pub fn is_user_confirmation_request_enabled(&self) -> (r: bool)
        ensures
            r == spec_bit(self@[6], 2u8),
    {
        bit_is_set(self.0[6], 2u8)
    }

    /// Set bit 50 to `val`.
    pub fn enable_user_confirmation_request(self, val: bool) -> (r: Self)
        ensures
            r@ == self@.update(6, spec_with_bit(self@[6], 2u8, val)),
    {
        let mut bytes = self.0;
        bytes[6] = with_bit(bytes[6], 2u8, val);
        let r = EventMask(bytes);
        proof {
            assert(r@ =~= self@.update(6, spec_with_bit(self@[6], 2u8, val)));
        }
        r
    }

    /// Whether bit 51 is set.
    pub fn is_user_passkey_request_enabled(&self) -> (r: bool)
        ensures
            r == spec_bit(self@[6], 3u8),
    {
        bit_is_set(self.0[6], 3u8)
    }

    /// Set bit 51 to `val`.
    pub fn enable_user_passkey_request(self, val: bool) -> (r: Self)
        ensures
            r@ == self@.update(6, spec_with_bit(self@[6], 3u8, val)),
    {
        let mut bytes = self.0;
        bytes[6] = with_bit(bytes[6], 3u8, val);
        let r = EventMask(bytes);
        proof {
            assert(r@ =~= self@.update(6, spec_with_bit(self@[6], 3u8, val)));
        }
        r
    }

    /// Whether bit 52 is set.
    pub fn is_remote_oob_data_request_enabled(&self) -> (r: bool)
        ensures
            r == spec_bit(self@[6], 4u8),
    {
        bit_is_set(self.0[6], 4u8)
    }

    /// Set bit 52 to `val`.
    pub fn enable_remote_oob_data_request(self, val: bool) -> (r: Self)
        ensures
            r@ == self@.update(6, spec_with_bit(self@[6], 4u8, val)),
    {
        let mut bytes = self.0;
        bytes[6] = with_bit(bytes[6], 4u8, val);
        let r = EventMask(bytes);
        proof {
            assert(r@ =~= self@.update(6, spec_with_bit(self@[6], 4u8, val)));
        }
        r
    }

    /// Whether bit 53 is set.
    pub fn is_simple_pairing_complete_enabled(&self) -> (r: bool)
        ensures
            r == spec_bit(self@[6], 5u8),
    {
        bit_is_set(self.0[6], 5u8)
    }

    /// Set bit 53 to `val`.
    pub fn enable_simple_pairing_complete(self, val: bool) -> (r: Self)
        ensures
            r@ == self@.update(6, spec_with_bit(self@[6], 5u8, val)),
    {
        let mut bytes = self.0;
        bytes[6] = with_bit(bytes[6], 5u8, val);
        let r = EventMask(bytes);
        proof {
            assert(r@ =~= self@.update(6, spec_with_bit(self@[6], 5u8, val)));
        }
        r
    }

    /// Whether bit 55 is set.
    pub fn is_link_supervision_timeout_changed_enabled(&self) -> (r: bool)
        ensures
            r == spec_bit(self@[6], 7u8),
    {
        bit_is_set(self.0[6], 7u8)
    }

    /// Set bit 55 to `val`.
    pub fn enable_link_supervision_timeout_changed(self, val: bool) -> (r: Self)
        ensures
            r@ == self@.update(6, spec_with_bit(self@[6], 7u8, val)),
    {
        let mut bytes = self.0;
        bytes[6] = with_bit(bytes[6], 7u8, val);
        let r = EventMask(bytes);
        proof {
            assert(r@ =~= self@.update(6, spec_with_bit(self@[6], 7u8, val)));
        }
        r
    }

    /// Whether bit 56 is set.
    pub fn is_enhanced_flush_complete_enabled(&self) -> (r: bool)
        ensures
            r == spec_bit(self@[7], 0u8),
    {
        bit_is_set(self.0[7], 0u8)
    }

    /// Set bit 56 to `val`.
    pub fn enable_enhanced_flush_complete(self, val: bool) -> (r: Self)
        ensures
            r@ == self@.update(7, spec_with_bit(self@[7], 0u8, val)),
    {
        let mut bytes = self.0;
        bytes[7] = with_bit(bytes[7], 0u8, val);
        let r = EventMask(bytes);
        proof {
            assert(r@ =~= self@.update(7, spec_with_bit(self@[7], 0u8, val)));
        }
        r
    }

    /// Whether bit 58 is set.
    pub fn is_user_passkey_notification_enabled(&self) -> (r: bool)
        ensures
            r == spec_bit(self@[7], 2u8),
    {
        bit_is_set(self.0[7], 2u8)
    }

    /// Set bit 58 to `val`.
    pub fn enable_user_passkey_notification(self, val: bool) -> (r: Self)
        ensures
            r@ == self@.update(7, spec_with_bit(self@[7], 2u8, val)),
    {
        let mut bytes = self.0;
        bytes[7] = with_bit(bytes[7], 2u8, val);
        let r = EventMask(bytes);
        proof {
            assert(r@ =~= self@.update(7, spec_with_bit(self@[7], 2u8, val)));
        }
        r
    }

    /// Whether bit 59 is set.
    pub fn is_keypress_notification_enabled(&self) -> (r: bool)
        ensures
            r == spec_bit(self@[7], 3u8),
    {
        bit_is_set(self.0[7], 3u8)
    }

    /// Set bit 59 to `val`.
    pub fn enable_keypress_notification(self, val: bool) -> (r: Self)
        ensures
            r@ == self@.update(7, spec_with_bit(self@[7], 3u8, val)),
    {
        let mut bytes = self.0;
        bytes[7] = with_bit(bytes[7], 3u8, val);
        let r = EventMask(bytes);
        proof {
            assert(r@ =~= self@.update(7, spec_with_bit(self@[7], 3u8, val)));
        }
        r
    }

    /// Whether bit 60 is set.
    pub fn supports_remote_host_features_notification_enabled(&self) -> (r: bool)
        ensures
            r == spec_bit(self@[7], 4u8),
    {
        bit_is_set(self.0[7], 4u8)
    }

    /// Set bit 60 to `val`.
    pub fn enable_remote_host_supported_features_notification(self, val: bool) -> (r: Self)
        ensures
            r@ == self@.update(7, spec_with_bit(self@[7], 4u8, val)),
    {
        let mut bytes = self.0;
        bytes[7] = with_bit(bytes[7], 4u8, val);
        let r = EventMask(bytes);
        proof {
            assert(r@ =~= self@.update(7, spec_with_bit(self@[7], 4u8, val)));
        }
        r
    }

    /// Whether bit 61 is set.
    pub fn is_le_meta_enabled(&self) -> (r: bool)
        ensures
            r == spec_bit(self@[7], 5u8),
    {
        bit_is_set(self.0[7], 5u8)
    }

    /// Set bit 61 to `val`.
    pub fn enable_le_meta(self, val: bool) -> (r: Self)
        ensures
            r@ == self@.update(7, spec_with_bit(self@[7], 5u8, val)),
    {
        let mut bytes = self.0;
        bytes[7] = with_bit(bytes[7], 5u8, val);
        let r = EventMask(bytes);
        proof {
            assert(r@ =~= self@.update(7, spec_with_bit(self@[7], 5u8, val)));
        }
        r
    }
}

impl<'de> FromHciBytes<'de> for EventMask {
    open spec fn spec_from_hci_bytes(data: Seq<u8>) -> Result<(Seq<u8>, nat), FromHciBytesError> {
        <[u8; 8] as FromHciBytes<'de>>::spec_from_hci_bytes(data)
    }

    fn from_hci_bytes(data: &'de [u8]) -> (r: Result<(EventMask, &'de [u8]), FromHciBytesError>) {
        match <[u8; 8] as FromHciBytes<'de>>::from_hci_bytes(data) {
            Ok((v, rest)) => Ok((EventMask(v), rest)),
            Err(e) => Err(e),
        }
    }
}

impl WriteHci for EventMask {
    open spec fn spec_hci_bytes(&self) -> Seq<u8> {
        self@
    }

    fn size(&self) -> (r: usize) {
        self.0.size()
    }

    fn write_hci(&self, out: &mut Vec<u8>) {
        self.0.write_hci(out);
    }
}

impl FixedSizeValue for EventMask {
    open spec fn spec_size() -> nat {
        8
    }

    proof fn lemma_fixed_size(&self) {
        self.0.lemma_fixed_size();
    }
}

impl<'de> HciCodec<'de> for EventMask {
    open spec fn spec_encodable(&self) -> bool {
        true
    }

    proof fn lemma_write_then_read(&self, rest: Seq<u8>) {
        self.0.lemma_write_then_read(rest);
    }
}

/// EventMaskPage2
#[derive(Debug, Clone, Copy, PartialEq, Eq, PartialOrd, Ord, Hash, Default)]
pub struct EventMaskPage2([u8; 8]);

impl View for EventMaskPage2 {
    type V = Seq<u8>;

    closed spec fn view(&self) -> Seq<u8> {
        self.0@
    }
}

impl EventMaskPage2 {
    /// Create a new instance with every bit clear.
    pub fn new() -> (r: Self)
        ensures
            r@ == Seq::new(8, |i: int| 0u8),
    {
        let r = EventMaskPage2([0u8; 8]);
        proof {
            assert(r@ =~= Seq::new(8, |i: int| 0u8));
        }
        r
    }

    /// Get the inner representation.
    pub fn into_inner(self) -> (r: [u8; 8])
        ensures
            r@ == self@,
    {
        self.0
    }

    /// The representation has one byte per octet.
    pub proof fn lemma_len(&self)
        ensures
            self@.len() == 8,
    {
    }

    /// Whether bit 8 is set.
    pub fn is_number_of_completed_data_blocks_enabled(&self) -> (r: bool)
        ensures
            r == spec_bit(self@[1], 0u8),
    {
        bit_is_set(self.0[1], 0u8)
    }

    /// Set bit 8 to `val`.
    pub fn enable_number_of_completed_data_blocks(self, val: bool) -> (r: Self)
        ensures
            r@ == self@.update(1, spec_with_bit(self@[1], 0u8, val)),
    {
        let mut bytes = self.0;
        bytes[1] = with_bit(bytes[1], 0u8, val);
        let r = EventMaskPage2(bytes);
        proof {
            assert(r@ =~= self@.update(1, spec_with_bit(self@[1], 0u8, val)));
        }
        r
    }

    /// Whether bit 14 is set.
    pub fn is_triggered_clock_capture_enabled(&self) -> (r: bool)
        ensures
            r == spec_bit(self@[1], 6u8),
    {
        bit_is_set(self.0[1], 6u8)
    }

    /// Set bit 14 to `val`.
    pub fn enable_triggered_clock_capture(self, val: bool) -> (r: Self)
        ensures
            r@ == self@.update(1, spec_with_bit(self@[1], 6u8, val)),
    {
        let mut bytes = self.0;
        bytes[1] = with_bit(bytes[1], 6u8, val);
        let r = EventMaskPage2(bytes);
        proof {
            assert(r@ =~= self@.update(1, spec_with_bit(self@[1], 6u8, val)));
        }
        r
    }

    /// Whether bit 15 is set.
    pub fn is_synchronization_train_complete_enabled(&self) -> (r: bool)
        ensures
            r == spec_bit(self@[1], 7u8),
    {
        bit_is_set(self.0[1], 7u8)
    }

    /// Set bit 15 to `val`.
    pub fn enable_synchronization_train_complete(self, val: bool) -> (r: Self)
        ensures
            r@ == self@.update(1, spec_with_bit(self@[1], 7u8, val)),
    {
        let mut bytes = self.0;
        bytes[1] = with_bit(bytes[1], 7u8, val);
        let r = EventMaskPage2(bytes);
        proof {
            assert(r@ =~= self@.update(1, spec_with_bit(self@[1], 7u8, val)));
        }
        r
    }

    /// Whether bit 16 is set.
    pub fn is_synchronization_train_received_enabled(&self) -> (r: bool)
        ensures
            r == spec_bit(self@[2], 0u8),
    {
        bit_is_set(self.0[2], 0u8)
    }

    /// Set bit 16 to `val`.
    pub fn enable_synchronization_train_received(self, val: bool) -> (r: Self)
        ensures
            r@ == self@.update(2, spec_with_bit(self@[2], 0u8, val)),
    {
        let mut bytes = self.0;
        bytes[2] = with_bit(bytes[2], 0u8, val);
        let r = EventMaskPage2(bytes);
        proof {
            assert(r@ =~= self@.update(2, spec_with_bit(self@[2], 0u8, val)));
        }
        r
    }

    /// Whether bit 17 is set.
    pub fn is_connectionless_peripheral_broadcast_receive_enabled(&self) -> (r: bool)
        ensures
            r == spec_bit(self@[2], 1u8),
    {
        bit_is_set(self.0[2], 1u8)
    }

    /// Set bit 17 to `val`.
    pub fn enable_connectionless_peripheral_broadcast_receive(self, val: bool) -> (r: Self)
        ensures
            r@ == self@.update(2, spec_with_bit(self@[2], 1u8, val)),
    {
        let mut bytes = self.0;
        bytes[2] = with_bit(bytes[2], 1u8, val);
        let r = EventMaskPage2(bytes);
        proof {
            assert(r@ =~= self@.update(2, spec_with_bit(self@[2], 1u8, val)));
        }
        r
    }

    /// Whether bit 18 is set.
    pub fn is_connectionless_peripheral_broadcast_timeout_enabled(&self) -> (r: bool)
        ensures
            r == spec_bit(self@[2], 2u8),
    {
        bit_is_set(self.0[2], 2u8)
    }

    /// Set bit 18 to `val`.
    pub fn enable_connectionless_peripheral_broadcast_timeout(self, val: bool) -> (r: Self)
        ensures
            r@ == self@.update(2, spec_with_bit(self@[2], 2u8, val)),
    {
        let mut bytes = self.0;
        bytes[2] = with_bit(bytes[2], 2u8, val);
        let r = EventMaskPage2(bytes);
        proof {
            assert(r@ =~= self@.update(2, spec_with_bit(self@[2], 2u8, val)));
        }
        r
    }

    /// Whether bit 19 is set.
    pub fn is_truncated_page_complete_enabled(&self) -> (r: bool)
        ensures
            r == spec_bit(self@[2], 3u8),
    {
        bit_is_set(self.0[2], 3u8)
    }

    /// Set bit 19 to `val`.
    pub fn enable_truncated_page_complete(self, val: bool) -> (r: Self)
        ensures
            r@ == self@.update(2, spec_with_bit(self@[2], 3u8, val)),
    {
        let mut bytes = self.0;
        bytes[2] = with_bit(bytes[2], 3u8, val);
        let r = EventMaskPage2(bytes);
        proof {
            assert(r@ =~= self@.update(2, spec_with_bit(self@[2], 3u8, val)));
        }
        r
    }

    /// Whether bit 20 is set.
    pub fn is_peripheral_page_response_timeout_enabled(&self) -> (r: bool)
        ensures
            r == spec_bit(self@[2], 4u8),
    {
        bit_is_set(self.0[2], 4u8)
    }

    /// Set bit 20 to `val`.
    pub fn enable_peripheral_page_response_timeout(self, val: bool) -> (r: Self)
        ensures
            r@ == self@.update(2, spec_with_bit(self@[2], 4u8, val)),
    {
        let mut bytes = self.0;
        bytes[2] = with_bit(bytes[2], 4u8, val);
        let r = EventMaskPage2(bytes);
        proof {
            assert(r@ =~= self@.update(2, spec_with_bit(self@[2], 4u8, val)));
        }
        r
    }

    /// Whether bit 21 is set.
    pub fn is_connectionless_peripheral_broadcast_channel_map_change_enabled(&self) -> (r: bool)
        ensures
            r == spec_bit(self@[2], 5u8),
    {
        bit_is_set(self.0[2], 5u8)
    }

    /// Set bit 21 to `val`.
    pub fn enable_connectionless_peripheral_broadcast_channel_map_change(self, val: bool) -> (r: Self)
        ensures
            r@ == self@.update(2, spec_with_bit(self@[2], 5u8, val)),
    {
        let mut bytes = self.0;
        bytes[2] = with_bit(bytes[2], 5u8, val);
        let r = EventMaskPage2(bytes);
        proof {
            assert(r@ =~= self@.update(2, spec_with_bit(self@[2], 5u8, val)));
        }
        r
    }

    /// Whether bit 22 is set.
    pub fn is_inquiry_response_notification_enabled(&self) -> (r: bool)
        ensures
            r == spec_bit(self@[2], 6u8),
    {
        bit_is_set(self.0[2], 6u8)
    }

    /// Set bit 22 to `val`.
    pub fn enable_inquiry_response_notification(self, val: bool) -> (r: Self)
        ensures
            r@ == self@.update(2, spec_with_bit(self@[2], 6u8, val)),
    {
        let mut bytes = self.0;
        bytes[2] = with_bit(bytes[2], 6u8, val);
        let r = EventMaskPage2(bytes);
        proof {
            assert(r@ =~= self@.update(2, spec_with_bit(self@[2], 6u8, val)));
        }
        r
    }

    /// Whether bit 23 is set.
    pub fn is_authenticated_payload_timeout_expired_enabled(&self) -> (r: bool)
        ensures
            r == spec_bit(self@[2], 7u8),
    {
        bit_is_set(self.0[2], 7u8)
    }

    /// Set bit 23 to `val`.
    pub fn enable_authenticated_payload_timeout_expired(self, val: bool) -> (r: Self)
        ensures
            r@ == self@.update(2, spec_with_bit(self@[2], 7u8, val)),
    {
        let mut bytes = self.0;
        bytes[2] = with_bit(bytes[2], 7u8, val);
        let r = EventMaskPage2(bytes);
        proof {
            assert(r@ =~= self@.update(2, spec_with_bit(self@[2], 7u8, val)));
        }
        r
    }

    /// Whether bit 24 is set.
    pub fn is_sam_status_change_enabled(&self) -> (r: bool)
        ensures
            r == spec_bit(self@[3], 0u8),
    {
        bit_is_set(self.0[3], 0u8)
    }

    /// Set bit 24 to `val`.
    pub fn enable_sam_status_change(self, val: bool) -> (r: Self)
        ensures
            r@ == self@.update(3, spec_with_bit(self@[3], 0u8, val)),
    {
        let mut bytes = self.0;
        bytes[3] = with_bit(bytes[3], 0u8, val);
        let r = EventMaskPage2(bytes);
        proof {
            assert(r@ =~= self@.update(3, spec_with_bit(self@[3], 0u8, val)));
        }
        r
    }

    /// Whether bit 25 is set.
    pub fn is_encryption_change_v2_enabled(&self) -> (r: bool)
        ensures
            r == spec_bit(self@[3], 1u8),
    {
        bit_is_set(self.0[3], 1u8)
    }

    /// Set bit 25 to `val`.
    pub fn enable_encryption_change_v2(self, val: bool) -> (r: Self)
        ensures
            r@ == self@.update(3, spec_with_bit(self@[3], 1u8, val)),
    {
        let mut bytes = self.0;
        bytes[3] = with_bit(bytes[3], 1u8, val);
        let r = EventMaskPage2(bytes);
        proof {
            assert(r@ =~= self@.update(3, spec_with_bit(self@[3], 1u8, val)));
        }
        r
    }
}

impl<'de> FromHciBytes<'de> for EventMaskPage2 {
    open spec fn spec_from_hci_bytes(data: Seq<u8>) -> Result<(Seq<u8>, nat), FromHciBytesError> {
        <[u8; 8] as FromHciBytes<'de>>::spec_from_hci_bytes(data)
    }

    fn from_hci_bytes(data: &'de [u8]) -> (r: Result<(EventMaskPage2, &'de [u8]), FromHciBytesError>) {
        match <[u8; 8] as FromHciBytes<'de>>::from_hci_bytes(data) {
            Ok((v, rest)) => Ok((EventMaskPage2(v), rest)),
            Err(e) => Err(e),
        }
    }
}

impl WriteHci for EventMaskPage2 {
    open spec fn spec_hci_bytes(&self) -> Seq<u8> {
        self@
    }

    fn size(&self) -> (r: usize) {
        self.0.size()
    }

    fn write_hci(&self, out: &mut Vec<u8>) {
        self.0.write_hci(out);
    }
}

impl FixedSizeValue for EventMaskPage2 {
    open spec fn spec_size() -> nat {
        8
    }

    proof fn lemma_fixed_size(&self) {
        self.0.lemma_fixed_size();
    }
}

impl<'de> HciCodec<'de> for EventMaskPage2 {
    open spec fn spec_encodable(&self) -> bool {
        true
    }

    proof fn lemma_write_then_read(&self, rest: Seq<u8>) {
        self.0.lemma_write_then_read(rest);
    }
}

/// LeEventMask
#[derive(Debug, Clone, Copy, PartialEq, Eq, PartialOrd, Ord, Hash, Default)]
pub struct LeEventMask([u8; 8]);

impl View for LeEventMask {
    type V = Seq<u8>;

    closed spec fn view(&self) -> Seq<u8> {
        self.0@
    }
}

impl LeEventMask {
    /// Create a new instance with every bit clear.
    pub fn new() -> (r: Self)
        ensures
            r@ == Seq::new(8, |i: int| 0u8),
    {
        let r = LeEventMask([0u8; 8]);
        proof {
            assert(r@ =~= Seq::new(8, |i: int| 0u8));
        }
        r
    }

    /// Get the inner representation.
    pub fn into_inner(self) -> (r: [u8; 8])
        ensures
            r@ == self@,
    {
        self.0
    }

    /// The representation has one byte per octet.
    pub proof fn lemma_len(&self)
        ensures
            self@.len() == 8,
    {
    }

    /// Whether bit 0 is set.
    pub fn is_le_conn_complete_enabled(&self) -> (r: bool)
        ensures
            r == spec_bit(self@[0], 0u8),
    {
        bit_is_set(self.0[0], 0u8)
    }

    /// Set bit 0 to `val`.
    pub fn enable_le_conn_complete(self, val: bool) -> (r: Self)
        ensures
            r@ == self@.update(0, spec_with_bit(self@[0], 0u8, val)),
    {
        let mut bytes = self.0;
        bytes[0] = with_bit(bytes[0], 0u8, val);
        let r = LeEventMask(bytes);
        proof {
            assert(r@ =~= self@.update(0, spec_with_bit(self@[0], 0u8, val)));
        }
        r
    }

    /// Whether bit 1 is set.
    pub fn is_le_adv_report_enabled(&self) -> (r: bool)
        ensures
            r == spec_bit(self@[0], 1u8),
    {
        bit_is_set(self.0[0], 1u8)
    }

    /// Set bit 1 to `val`.
    pub fn enable_le_adv_report(self, val: bool) -> (r: Self)
        ensures
            r@ == self@.update(0, spec_with_bit(self@[0], 1u8, val)),
    {
        let mut bytes = self.0;
        bytes[0] = with_bit(bytes[0], 1u8, val);
        let r = LeEventMask(bytes);
        proof {
            assert(r@ =~= self@.update(0, spec_with_bit(self@[0], 1u8, val)));
        }
        r
    }

    /// Whether bit 2 is set.
    pub fn is_le_conn_update_complete_enabled(&self) -> (r: bool)
        ensures
            r == spec_bit(self@[0], 2u8),
    {
        bit_is_set(self.0[0], 2u8)
    }

    /// Set bit 2 to `val`.
    pub fn enable_le_conn_update_complete(self, val: bool) -> (r: Self)
        ensures
            r@ == self@.update(0, spec_with_bit(self@[0], 2u8, val)),
    {
        let mut bytes = self.0;
        bytes[0] = with_bit(bytes[0], 2u8, val);
        let r = LeEventMask(bytes);
        proof {
            assert(r@ =~= self@.update(0, spec_with_bit(self@[0], 2u8, val)));
        }
        r
    }

    /// Whether bit 3 is set.
    pub fn is_le_read_remote_features_complete_enabled(&self) -> (r: bool)
        ensures
            r == spec_bit(self@[0], 3u8),
    {
        bit_is_set(self.0[0], 3u8)
    }

    /// Set bit 3 to `val`.
    pub fn enable_le_read_remote_features_complete(self, val: bool) -> (r: Self)
        ensures
            r@ == self@.update(0, spec_with_bit(self@[0], 3u8, val)),
    {
        let mut bytes = self.0;
        bytes[0] = with_bit(bytes[0], 3u8, val);
        let r = LeEventMask(bytes);
        proof {
            assert(r@ =~= self@.update(0, spec_with_bit(self@[0], 3u8, val)));
        }
        r
    }

    /// Whether bit 4 is set.
    pub fn is_le_long_term_key_request_enabled(&self) -> (r: bool)
        ensures
            r == spec_bit(self@[0], 4u8),
    {
        bit_is_set(self.0[0], 4u8)
    }

    /// Set bit 4 to `val`.
    pub fn enable_le_long_term_key_request(self, val: bool) -> (r: Self)
        ensures
            r@ == self@.update(0, spec_with_bit(self@[0], 4u8, val)),
    {
        let mut bytes = self.0;
        bytes[0] = with_bit(bytes[0], 4u8, val);
        let r = LeEventMask(bytes);
        proof {
            assert(r@ =~= self@.update(0, spec_with_bit(self@[0], 4u8, val)));
        }
        r
    }

    /// Whether bit 5 is set.
    pub fn is_le_remote_conn_parameter_request_enabled(&self) -> (r: bool)
        ensures
            r == spec_bit(self@[0], 5u8),
    {
        bit_is_set(self.0[0], 5u8)
    }

    /// Set bit 5 to `val`.
    pub fn enable_le_remote_conn_parameter_request(self, val: bool) -> (r: Self)
        ensures
            r@ == self@.update(0, spec_with_bit(self@[0], 5u8, val)),
    {
        let mut bytes = self.0;
        bytes[0] = with_bit(bytes[0], 5u8, val);
        let r = LeEventMask(bytes);
        proof {
            assert(r@ =~= self@.update(0, spec_with_bit(self@[0], 5u8, val)));
        }
        r
    }

    /// Whether bit 6 is set.
    pub fn is_le_data_length_change_enabled(&self) -> (r: bool)
        ensures
            r == spec_bit(self@[0], 6u8),
    {
        bit_is_set(self.0[0], 6u8)
    }

    /// Set bit 6 to `val`.
    pub fn enable_le_data_length_change(self, val: bool) -> (r: Self)
        ensures
            r@ == self@.update(0, spec_with_bit(self@[0], 6u8, val)),
    {
        let mut bytes = self.0;
        bytes[0] = with_bit(bytes[0], 6u8, val);
        let r = LeEventMask(bytes);
        proof {
            assert(r@ =~= self@.update(0, spec_with_bit(self@[0], 6u8, val)));
        }
        r
    }

    /// Whether bit 7 is set.
    pub fn is_le_read_local_p256_public_key_complete_enabled(&self) -> (r: bool)
        ensures
            r == spec_bit(self@[0], 7u8),
    {
        bit_is_set(self.0[0], 7u8)
    }

    /// Set bit 7 to `val`.
    pub fn enable_le_read_local_p256_public_key_complete(self, val: bool) -> (r: Self)
        ensures
            r@ == self@.update(0, spec_with_bit(self@[0], 7u8, val)),
    {
        let mut bytes = self.0;
        bytes[0] = with_bit(bytes[0], 7u8, val);
        let r = LeEventMask(bytes);
        proof {
            assert(r@ =~= self@.update(0, spec_with_bit(self@[0], 7u8, val)));
        }
        r
    }

    /// Whether bit 8 is set.
    pub fn is_le_generate_dhkey_complete_enabled(&self) -> (r: bool)
        ensures
            r == spec_bit(self@[1], 0u8),
    {
        bit_is_set(self.0[1], 0u8)
    }

    /// Set bit 8 to `val`.
    pub fn enable_le_generate_dhkey_complete(self, val: bool) -> (r: Self)
        ensures
            r@ == self@.update(1, spec_with_bit(self@[1], 0u8, val)),
    {
        let mut bytes = self.0;
        bytes[1] = with_bit(bytes[1], 0u8, val);
        let r = LeEventMask(bytes);
        proof {
            assert(r@ =~= self@.update(1, spec_with_bit(self@[1], 0u8, val)));
        }
        r
    }

    /// Whether bit 9 is set.
    pub fn is_le_enhanced_conn_complete_enabled(&self) -> (r: bool)
        ensures
            r == spec_bit(self@[1], 1u8),
    {
        bit_is_set(self.0[1], 1u8)
    }

    /// Set bit 9 to `val`.
    pub fn enable_le_enhanced_conn_complete(self, val: bool) -> (r: Self)
        ensures
            r@ == self@.update(1, spec_with_bit(self@[1], 1u8, val)),
    {
        let mut bytes = self.0;
        bytes[1] = with_bit(bytes[1], 1u8, val);
        let r = LeEventMask(bytes);
        proof {
            assert(r@ =~= self@.update(1, spec_with_bit(self@[1], 1u8, val)));
        }
        r
    }

    /// Whether bit 10 is set.
    pub fn is_le_directed_adv_report_enabled(&self) -> (r: bool)
        ensures
            r == spec_bit(self@[1], 2u8),
    {
        bit_is_set(self.0[1], 2u8)
    }

    /// Set bit 10 to `val`.
    pub fn enable_le_directed_adv_report(self, val: bool) -> (r: Self)
        ensures
            r@ == self@.update(1, spec_with_bit(self@[1], 2u8, val)),
    {
        let mut bytes = self.0;
        bytes[1] = with_bit(bytes[1], 2u8, val);
        let r = LeEventMask(bytes);
        proof {
            assert(r@ =~= self@.update(1, spec_with_bit(self@[1], 2u8, val)));
        }
        r
    }

    /// Whether bit 11 is set.
    pub fn is_le_phy_update_complete_enabled(&self) -> (r: bool)
        ensures
            r == spec_bit(self@[1], 3u8),
    {
        bit_is_set(self.0[1], 3u8)
    }

    /// Set bit 11 to `val`.
    pub fn enable_le_phy_update_complete(self, val: bool) -> (r: Self)
        ensures
            r@ == self@.update(1, spec_with_bit(self@[1], 3u8, val)),
    {
        let mut bytes = self.0;
        bytes[1] = with_bit(bytes[1], 3u8, val);
        let r = LeEventMask(bytes);
        proof {
            assert(r@ =~= self@.update(1, spec_with_bit(self@[1], 3u8, val)));
        }
        r
    }

    /// Whether bit 12 is set.
    pub fn is_le_ext_adv_report_enabled(&self) -> (r: bool)
        ensures
            r == spec_bit(self@[1], 4u8),
    {
        bit_is_set(self.0[1], 4u8)
    }

    /// Set bit 12 to `val`.
    pub fn enable_le_ext_adv_report(self, val: bool) -> (r: Self)
        ensures
            r@ == self@.update(1, spec_with_bit(self@[1], 4u8, val)),
    {
        let mut bytes = self.0;
        bytes[1] = with_bit(bytes[1], 4u8, val);
        let r = LeEventMask(bytes);
        proof {
            assert(r@ =~= self@.update(1, spec_with_bit(self@[1], 4u8, val)));
        }
        r
    }

    /// Whether bit 13 is set.
    pub fn is_le_periodic_adv_sync_established_enabled(&self) -> (r: bool)
        ensures
            r == spec_bit(self@[1], 5u8),
    {
        bit_is_set(self.0[1], 5u8)
    }

    /// Set bit 13 to `val`.
    pub fn enable_le_periodic_adv_sync_established(self, val: bool) -> (r: Self)
        ensures
            r@ == self@.update(1, spec_with_bit(self@[1], 5u8, val)),
    {
        let mut bytes = self.0;
        bytes[1] = with_bit(bytes[1], 5u8, val);
        let r = LeEventMask(bytes);
        proof {
            assert(r@ =~= self@.update(1, spec_with_bit(self@[1], 5u8, val)));
        }
        r
    }

    /// Whether bit 14 is set.
    pub fn is_le_periodic_adv_report_enabled(&self) -> (r: bool)
        ensures
            r == spec_bit(self@[1], 6u8),
    {
        bit_is_set(self.0[1], 6u8)
    }

    /// Set bit 14 to `val`.
    pub fn enable_le_periodic_adv_report(self, val: bool) -> (r: Self)
        ensures
            r@ == self@.update(1, spec_with_bit(self@[1], 6u8, val)),
    {
        let mut bytes = self.0;
        bytes[1] = with_bit(bytes[1], 6u8, val);
        let r = LeEventMask(bytes);
        proof {
            assert(r@ =~= self@.update(1, spec_with_bit(self@[1], 6u8, val)));
        }
        r
    }

    /// Whether bit 15 is set.
    pub fn is_le_periodic_adv_sync_lost_enabled(&self) -> (r: bool)
        ensures
            r == spec_bit(self@[1], 7u8),
    {
        bit_is_set(self.0[1], 7u8)
    }

    /// Set bit 15 to `val`.
    pub fn enable_le_periodic_adv_sync_lost(self, val: bool) -> (r: Self)
        ensures
            r@ == self@.update(1, spec_with_bit(self@[1], 7u8, val)),
    {
        let mut bytes = self.0;
        bytes[1] = with_bit(bytes[1], 7u8, val);
        let r = LeEventMask(bytes);
        proof {
            assert(r@ =~= self@.update(1, spec_with_bit(self@[1], 7u8, val)));
        }
        r
    }

    /// Whether bit 16 is set.
    pub fn is_le_scan_timeout_enabled(&self) -> (r: bool)
        ensures
            r == spec_bit(self@[2], 0u8),
    {
        bit_is_set(self.0[2], 0u8)
    }

    /// Set bit 16 to `val`.
    pub fn enable_le_scan_timeout(self, val: bool) -> (r: Self)
        ensures
            r@ == self@.update(2, spec_with_bit(self@[2], 0u8, val)),
    {
        let mut bytes = self.0;
        bytes[2] = with_bit(bytes[2], 0u8, val);
        let r = LeEventMask(bytes);
        proof {
            assert(r@ =~= self@.update(2, spec_with_bit(self@[2], 0u8, val)));
        }
        r
    }

    /// Whether bit 17 is set.
    pub fn is_le_adv_set_terminated_enabled(&self) -> (r: bool)
        ensures
            r == spec_bit(self@[2], 1u8),
    {
        bit_is_set(self.0[2], 1u8)
    }

    /// Set bit 17 to `val`.
    pub fn enable_le_adv_set_terminated(self, val: bool) -> (r: Self)
        ensures
            r@ == self@.update(2, spec_with_bit(self@[2], 1u8, val)),
    {
        let mut bytes = self.0;
        bytes[2] = with_bit(bytes[2], 1u8, val);
        let r = LeEventMask(bytes);
        proof {
            assert(r@ =~= self@.update(2, spec_with_bit(self@[2], 1u8, val)));
        }
        r
    }

    /// Whether bit 18 is set.
    pub fn is_le_scan_request_received_enabled(&self) -> (r: bool)
        ensures
            r == spec_bit(self@[2], 2u8),
    {
        bit_is_set(self.0[2], 2u8)
    }

    /// Set bit 18 to `val`.
    pub fn enable_le_scan_request_received(self, val: bool) -> (r: Self)
        ensures
            r@ == self@.update(2, spec_with_bit(self@[2], 2u8, val)),
    {
        let mut bytes = self.0;
        bytes[2] = with_bit(bytes[2], 2u8, val);
        let r = LeEventMask(bytes);
        proof {
            assert(r@ =~= self@.update(2, spec_with_bit(self@[2], 2u8, val)));
        }
        r
    }

    /// Whether bit 19 is set.
    pub fn is_le_channel_selection_algorithm_enabled(&self) -> (r: bool)
        ensures
            r == spec_bit(self@[2], 3u8),
    {
        bit_is_set(self.0[2], 3u8)
    }

    /// Set bit 19 to `val`.
    pub fn enable_le_channel_selection_algorithm(self, val: bool) -> (r: Self)
        ensures
            r@ == self@.update(2, spec_with_bit(self@[2], 3u8, val)),
    {
        let mut bytes = self.0;
        bytes[2] = with_bit(bytes[2], 3u8, val);
        let r = LeEventMask(bytes);
        proof {
            assert(r@ =~= self@.update(2, spec_with_bit(self@[2], 3u8, val)));
        }
        r
    }

    /// Whether bit 20 is set.
    pub fn is_le_connectionless_iq_report_enabled(&self) -> (r: bool)
        ensures
            r == spec_bit(self@[2], 4u8),
    {
        bit_is_set(self.0[2], 4u8)
    }

    /// Set bit 20 to `val`.
    pub fn enable_le_connectionless_iq_report(self, val: bool) -> (r: Self)
        ensures
            r@ == self@.update(2, spec_with_bit(self@[2], 4u8, val)),
    {
        let mut bytes = self.0;
        bytes[2] = with_bit(bytes[2], 4u8, val);
        let r = LeEventMask(bytes);
        proof {
            assert(r@ =~= self@.update(2, spec_with_bit(self@[2], 4u8, val)));
        }
        r
    }

    /// Whether bit 21 is set.
    pub fn is_le_conn_iq_report_enabled(&self) -> (r: bool)
        ensures
            r == spec_bit(self@[2], 5u8),
    {
        bit_is_set(self.0[2], 5u8)
    }

    /// Set bit 21 to `val`.
    pub fn enable_le_conn_iq_report(self, val: bool) -> (r: Self)
        ensures
            r@ == self@.update(2, spec_with_bit(self@[2], 5u8, val)),
    {
        let mut bytes = self.0;
        bytes[2] = with_bit(bytes[2], 5u8, val);
        let r = LeEventMask(bytes);
        proof {
            assert(r@ =~= self@.update(2, spec_with_bit(self@[2], 5u8, val)));
        }
        r
    }

    /// Whether bit 22 is set.
    pub fn is_le_cte_request_failed_enabled(&self) -> (r: bool)
        ensures
            r == spec_bit(self@[2], 6u8),
    {
        bit_is_set(self.0[2], 6u8)
    }

    /// Set bit 22 to `val`.
    pub fn enable_le_cte_request_failed(self, val: bool) -> (r: Self)
        ensures
            r@ == self@.update(2, spec_with_bit(self@[2], 6u8, val)),
    {
        let mut bytes = self.0;
        bytes[2] = with_bit(bytes[2], 6u8, val);
        let r = LeEventMask(bytes);
        proof {
            assert(r@ =~= self@.update(2, spec_with_bit(self@[2], 6u8, val)));
        }
        r
    }

    /// Whether bit 23 is set.
    pub fn is_le_periodic_adv_sync_transfer_received_enabled(&self) -> (r: bool)
        ensures
            r == spec_bit(self@[2], 7u8),
    {
        bit_is_set(self.0[2], 7u8)
    }

    /// Set bit 23 to `val`.
    pub fn enable_le_periodic_adv_sync_transfer_received(self, val: bool) -> (r: Self)
        ensures
            r@ == self@.update(2, spec_with_bit(self@[2], 7u8, val)),
    {
        let mut bytes = self.0;
        bytes[2] = with_bit(bytes[2], 7u8, val);
        let r = LeEventMask(bytes);
        proof {
            assert(r@ =~= self@.update(2, spec_with_bit(self@[2], 7u8, val)));
        }
        r
    }

    /// Whether bit 24 is set.
    pub fn is_le_cis_established_enabled(&self) -> (r: bool)
        ensures
            r == spec_bit(self@[3], 0u8),
    {
        bit_is_set(self.0[3], 0u8)
    }

    /// Set bit 24 to `val`.
    pub fn enable_le_cis_established(self, val: bool) -> (r: Self)
        ensures
            r@ == self@.update(3, spec_with_bit(self@[3], 0u8, val)),
    {
        let mut bytes = self.0;
        bytes[3] = with_bit(bytes[3], 0u8, val);
        let r = LeEventMask(bytes);
        proof {
            assert(r@ =~= self@.update(3, spec_with_bit(self@[3], 0u8, val)));
        }
        r
    }

    /// Whether bit 25 is set.
    pub fn is_le_cis_request_enabled(&self) -> (r: bool)
        ensures
            r == spec_bit(self@[3], 1u8),
    {
        bit_is_set(self.0[3], 1u8)
    }

    /// Set bit 25 to `val`.
    pub fn enable_le_cis_request(self, val: bool) -> (r: Self)
        ensures
            r@ == self@.update(3, spec_with_bit(self@[3], 1u8, val)),
    {
        let mut bytes = self.0;
        bytes[3] = with_bit(bytes[3], 1u8, val);
        let r = LeEventMask(bytes);
        proof {
            assert(r@ =~= self@.update(3, spec_with_bit(self@[3], 1u8, val)));
        }
        r
    }

    /// Whether bit 26 is set.
    pub fn is_le_create_big_complete_enabled(&self) -> (r: bool)
        ensures
            r == spec_bit(self@[3], 2u8),
    {
        bit_is_set(self.0[3], 2u8)
    }

    /// Set bit 26 to `val`.
    pub fn enable_le_create_big_complete(self, val: bool) -> (r: Self)
        ensures
            r@ == self@.update(3, spec_with_bit(self@[3], 2u8, val)),
    {
        let mut bytes = self.0;
        bytes[3] = with_bit(bytes[3], 2u8, val);
        let r = LeEventMask(bytes);
        proof {
            assert(r@ =~= self@.update(3, spec_with_bit(self@[3], 2u8, val)));
        }
        r
    }

    /// Whether bit 27 is set.
    pub fn is_le_terminate_big_complete_enabled(&self) -> (r: bool)
        ensures
            r == spec_bit(self@[3], 3u8),
    {
        bit_is_set(self.0[3], 3u8)
    }

    /// Set bit 27 to `val`.
    pub fn enable_le_terminate_big_complete(self, val: bool) -> (r: Self)
        ensures
            r@ == self@.update(3, spec_with_bit(self@[3], 3u8, val)),
    {
        let mut bytes = self.0;
        bytes[3] = with_bit(bytes[3], 3u8, val);
        let r = LeEventMask(bytes);
        proof {
            assert(r@ =~= self@.update(3, spec_with_bit(self@[3], 3u8, val)));
        }
        r
    }

    /// Whether bit 28 is set.
    pub fn is_le_big_sync_established_enabled(&self) -> (r: bool)
        ensures
            r == spec_bit(self@[3], 4u8),
    {
        bit_is_set(self.0[3], 4u8)
    }

    /// Set bit 28 to `val`.
    pub fn enable_le_big_sync_established(self, val: bool) -> (r: Self)
        ensures
            r@ == self@.update(3, spec_with_bit(self@[3], 4u8, val)),
    {
        let mut bytes = self.0;
        bytes[3] = with_bit(bytes[3], 4u8, val);
        let r = LeEventMask(bytes);
        proof {
            assert(r@ =~= self@.update(3, spec_with_bit(self@[3], 4u8, val)));
        }
        r
    }

    /// Whether bit 29 is set.
    pub fn is_le_big_sync_lost_enabled(&self) -> (r: bool)
        ensures
            r == spec_bit(self@[3], 5u8),
    {
        bit_is_set(self.0[3], 5u8)
    }

    /// Set bit 29 to `val`.
    pub fn enable_le_big_sync_lost(self, val: bool) -> (r: Self)
        ensures
            r@ == self@.update(3, spec_with_bit(self@[3], 5u8, val)),
    {
        let mut bytes = self.0;
        bytes[3] = with_bit(bytes[3], 5u8, val);
        let r = LeEventMask(bytes);
        proof {
            assert(r@ =~= self@.update(3, spec_with_bit(self@[3], 5u8, val)));
        }
        r
    }

    /// Whether bit 30 is set.
    pub fn is_le_request_peer_sca_complete_enabled(&self) -> (r: bool)
        ensures
            r == spec_bit(self@[3], 6u8),
    {
        bit_is_set(self.0[3], 6u8)
    }

    /// Set bit 30 to `val`.
    pub fn enable_le_request_peer_sca_complete(self, val: bool) -> (r: Self)
        ensures
            r@ == self@.update(3, spec_with_bit(self@[3], 6u8, val)),
    {
        let mut bytes = self.0;
        bytes[3] = with_bit(bytes[3], 6u8, val);
        let r = LeEventMask(bytes);
        proof {
            assert(r@ =~= self@.update(3, spec_with_bit(self@[3], 6u8, val)));
        }
        r
    }

    /// Whether bit 31 is set.
    pub fn is_le_path_loss_threshold_enabled(&self) -> (r: bool)
        ensures
            r == spec_bit(self@[3], 7u8),
    {
        bit_is_set(self.0[3], 7u8)
    }

    /// Set bit 31 to `val`.
    pub fn enable_le_path_loss_threshold(self, val: bool) -> (r: Self)
        ensures
            r@ == self@.update(3, spec_with_bit(self@[3], 7u8, val)),
    {
        let mut bytes = self.0;
        bytes[3] = with_bit(bytes[3], 7u8, val);
        let r = LeEventMask(bytes);
        proof {
            assert(r@ =~= self@.update(3, spec_with_bit(self@[3], 7u8, val)));
        }
        r
    }

    /// Whether bit 32 is set.
    pub fn is_le_transmit_power_reporting_enabled(&self) -> (r: bool)
        ensures
            r == spec_bit(self@[4], 0u8),
    {
        bit_is_set(self.0[4], 0u8)
    }

    /// Set bit 32 to `val`.
    pub fn enable_le_transmit_power_reporting(self, val: bool) -> (r: Self)
        ensures
            r@ == self@.update(4, spec_with_bit(self@[4], 0u8, val)),
    {
        let mut bytes = self.0;
        bytes[4] = with_bit(bytes[4], 0u8, val);
        let r = LeEventMask(bytes);
        proof {
            assert(r@ =~= self@.update(4, spec_with_bit(self@[4], 0u8, val)));
        }
        r
    }

    /// Whether bit 33 is set.
    pub fn is_le_biginfo_adv_report_enabled(&self) -> (r: bool)
        ensures
            r == spec_bit(self@[4], 1u8),
    {
        bit_is_set(self.0[4], 1u8)
    }

    /// Set bit 33 to `val`.
    pub fn enable_le_biginfo_adv_report(self, val: bool) -> (r: Self)
        ensures
            r@ == self@.update(4, spec_with_bit(self@[4], 1u8, val)),
    {
        let mut bytes = self.0;
        bytes[4] = with_bit(bytes[4], 1u8, val);
        let r = LeEventMask(bytes);
        proof {
            assert(r@ =~= self@.update(4, spec_with_bit(self@[4], 1u8, val)));
        }
        r
    }

    /// Whether bit 34 is set.
    pub fn is_le_subrate_change_enabled(&self) -> (r: bool)
        ensures
            r == spec_bit(self@[4], 2u8),
    {
        bit_is_set(self.0[4], 2u8)
    }

    /// Set bit 34 to `val`.
    pub fn enable_le_subrate_change(self, val: bool) -> (r: Self)
        ensures
            r@ == self@.update(4, spec_with_bit(self@[4], 2u8, val)),
    {
        let mut bytes = self.0;
        bytes[4] = with_bit(bytes[4], 2u8, val);
        let r = LeEventMask(bytes);
        proof {
            assert(r@ =~= self@.update(4, spec_with_bit(self@[4], 2u8, val)));
        }
        r
    }
}

impl<'de> FromHciBytes<'de> for LeEventMask {
    open spec fn spec_from_hci_bytes(data: Seq<u8>) -> Result<(Seq<u8>, nat), FromHciBytesError> {
        <[u8; 8] as FromHciBytes<'de>>::spec_from_hci_bytes(data)
    }

    fn from_hci_bytes(data: &'de [u8]) -> (r: Result<(LeEventMask, &'de [u8]), FromHciBytesError>) {
        match <[u8; 8] as FromHciBytes<'de>>::from_hci_bytes(data) {
            Ok((v, rest)) => Ok((LeEventMask(v), rest)),
            Err(e) => Err(e),
        }
    }
}

impl WriteHci for LeEventMask {
    open spec fn spec_hci_bytes(&self) -> Seq<u8> {
        self@
    }

    fn size(&self) -> (r: usize) {
        self.0.size()
    }

    fn write_hci(&self, out: &mut Vec<u8>) {
        self.0.write_hci(out);
    }
}

impl FixedSizeValue for LeEventMask {
    open spec fn spec_size() -> nat {
        8
    }

    proof fn lemma_fixed_size(&self) {
        self.0.lemma_fixed_size();
    }
}

impl<'de> HciCodec<'de> for LeEventMask {
    open spec fn spec_encodable(&self) -> bool {
        true
    }

    proof fn lemma_write_then_read(&self, rest: Seq<u8>) {
        self.0.lemma_write_then_read(rest);
    }
}

} // verus!
