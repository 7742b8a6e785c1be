//! The mask of the commands that a controller supports.

use vstd::prelude::*;

use crate::{FixedSizeValue, FromHciBytes, FromHciBytesError, HciCodec, WriteHci};
use crate::param::bits::{bit_is_set, spec_bit};

verus! {

/// The supported-commands mask: one bit per command, 64 octets.
#[derive(Debug, Clone, Copy, PartialEq, Eq, PartialOrd, Ord, Hash)]
pub struct CmdMask([u8; 64]);

impl View for CmdMask {
    type V = Seq<u8>;

    closed spec fn view(&self) -> Seq<u8> {
        self.0@
    }
}

impl Default for CmdMask {
    fn default() -> (r: Self)
        ensures
            r@ == Seq::new(64, |i: int| 0u8),
    {
        let r = CmdMask([0u8; 64]);
        proof {
            assert(r@ =~= Seq::new(64, |i: int| 0u8));
        }
        r
    }
}

impl CmdMask {
    /// Get the inner representation.
    pub fn into_inner(self) -> (r: [u8; 64])
        ensures
            r@ == self@,
    {
        self.0
    }

    /// The representation has one byte per octet.
    pub proof fn lemma_len(&self)
        ensures
            self@.len() == 64,
    {
    }


    /// Whether the command of bit 0 of octet 0 is supported.
    pub fn inquiry(&self) -> (r: bool)
        ensures
            r == spec_bit(self@[0], 0u8),
    {
        bit_is_set(self.0[0], 0u8)
    }

    /// Whether the command of bit 1 of octet 0 is supported.
    pub fn inquiry_cancel(&self) -> (r: bool)
        ensures
            r == spec_bit(self@[0], 1u8),
    {
        bit_is_set(self.0[0], 1u8)
    }

    /// Whether the command of bit 2 of octet 0 is supported.
    pub fn periodic_inquiry_mode(&self) -> (r: bool)
        ensures
            r == spec_bit(self@[0], 2u8),
    {
        bit_is_set(self.0[0], 2u8)
    }

    /// Whether the command of bit 3 of octet 0 is supported.
    pub fn exit_periodic_inquiry_mode(&self) -> (r: bool)
        ensures
            r == spec_bit(self@[0], 3u8),
    {
        bit_is_set(self.0[0], 3u8)
    }

    /// Whether the command of bit 4 of octet 0 is supported.
    pub fn create_conn(&self) -> (r: bool)
        ensures
            r == spec_bit(self@[0], 4u8),
    {
        bit_is_set(self.0[0], 4u8)
    }

    /// Whether the command of bit 5 of octet 0 is supported.
    pub fn disconnect(&self) -> (r: bool)
        ensures
            r == spec_bit(self@[0], 5u8),
    {
        bit_is_set(self.0[0], 5u8)
    }

    /// Whether the command of bit 7 of octet 0 is supported.
    pub fn create_conn_cancel(&self) -> (r: bool)
        ensures
            r == spec_bit(self@[0], 7u8),
    {
        bit_is_set(self.0[0], 7u8)
    }

    /// Whether the command of bit 0 of octet 1 is supported.
    pub fn accept_conn_request(&self) -> (r: bool)
        ensures
            r == spec_bit(self@[1], 0u8),
    {
        bit_is_set(self.0[1], 0u8)
    }

    /// Whether the command of bit 1 of octet 1 is supported.
    pub fn reject_conn_request(&self) -> (r: bool)
        ensures
            r == spec_bit(self@[1], 1u8),
    {
        bit_is_set(self.0[1], 1u8)
    }

    /// Whether the command of bit 2 of octet 1 is supported.
    pub fn link_key_request_reply(&self) -> (r: bool)
        ensures
            r == spec_bit(self@[1], 2u8),
    {
        bit_is_set(self.0[1], 2u8)
    }

    /// Whether the command of bit 3 of octet 1 is supported.
    pub fn link_key_request_negative_reply(&self) -> (r: bool)
        ensures
            r == spec_bit(self@[1], 3u8),
    {
        bit_is_set(self.0[1], 3u8)
    }

    /// Whether the command of bit 4 of octet 1 is supported.
    pub fn pin_code_request_reply(&self) -> (r: bool)
        ensures
            r == spec_bit(self@[1], 4u8),
    {
        bit_is_set(self.0[1], 4u8)
    }

    /// Whether the command of bit 5 of octet 1 is supported.
    pub fn pin_code_request_negative_reply(&self) -> (r: bool)
        ensures
            r == spec_bit(self@[1], 5u8),
    {
        bit_is_set(self.0[1], 5u8)
    }

    /// Whether the command of bit 6 of octet 1 is supported.
    pub fn change_conn_packet_kind(&self) -> (r: bool)
        ensures
            r == spec_bit(self@[1], 6u8),
    {
        bit_is_set(self.0[1], 6u8)
    }

    /// Whether the command of bit 7 of octet 1 is supported.
    pub fn authentication_requested(&self) -> (r: bool)
        ensures
            r == spec_bit(self@[1], 7u8),
    {
        bit_is_set(self.0[1], 7u8)
    }

    /// Whether the command of bit 0 of octet 2 is supported.
    pub fn set_conn_encryption(&self) -> (r: bool)
        ensures
            r == spec_bit(self@[2], 0u8),
    {
        bit_is_set(self.0[2], 0u8)
    }

    /// Whether the command of bit 1 of octet 2 is supported.
    pub fn change_conn_link_key(&self) -> (r: bool)
        ensures
            r == spec_bit(self@[2], 1u8),
    {
        bit_is_set(self.0[2], 1u8)
    }

    /// Whether the command of bit 2 of octet 2 is supported.
    pub fn link_key_selection(&self) -> (r: bool)
        ensures
            r == spec_bit(self@[2], 2u8),
    {
        bit_is_set(self.0[2], 2u8)
    }

    /// Whether the command of bit 3 of octet 2 is supported.
    pub fn remote_name_request(&self) -> (r: bool)
        ensures
            r == spec_bit(self@[2], 3u8),
    {
        bit_is_set(self.0[2], 3u8)
    }

    /// Whether the command of bit 4 of octet 2 is supported.
    pub fn remote_name_request_cancel(&self) -> (r: bool)
        ensures
            r == spec_bit(self@[2], 4u8),
    {
        bit_is_set(self.0[2], 4u8)
    }

    /// Whether the command of bit 5 of octet 2 is supported.
    pub fn read_remote_supported_features(&self) -> (r: bool)
        ensures
            r == spec_bit(self@[2], 5u8),
    {
        bit_is_set(self.0[2], 5u8)
    }

    /// Whether the command of bit 6 of octet 2 is supported.
    pub fn read_remote_ext_features(&self) -> (r: bool)
        ensures
            r == spec_bit(self@[2], 6u8),
    {
        bit_is_set(self.0[2], 6u8)
    }

    /// Whether the command of bit 7 of octet 2 is supported.
    pub fn read_remote_version_information(&self) -> (r: bool)
        ensures
            r == spec_bit(self@[2], 7u8),
    {
        bit_is_set(self.0[2], 7u8)
    }

    /// Whether the command of bit 0 of octet 3 is supported.
    pub fn read_clock_offset(&self) -> (r: bool)
        ensures
            r == spec_bit(self@[3], 0u8),
    {
        bit_is_set(self.0[3], 0u8)
    }

    /// Whether the command of bit 1 of octet 3 is supported.
    pub fn read_lmp_handle(&self) -> (r: bool)
        ensures
            r == spec_bit(self@[3], 1u8),
    {
        bit_is_set(self.0[3], 1u8)
    }

    /// Whether the command of bit 1 of octet 4 is supported.
    pub fn hold_mode(&self) -> (r: bool)
        ensures
            r == spec_bit(self@[4], 1u8),
    {
        bit_is_set(self.0[4], 1u8)
    }

    /// Whether the command of bit 2 of octet 4 is supported.
    pub fn sniff_mode(&self) -> (r: bool)
        ensures
            r == spec_bit(self@[4], 2u8),
    {
        bit_is_set(self.0[4], 2u8)
    }

    /// Whether the command of bit 3 of octet 4 is supported.
    pub fn exit_sniff_mode(&self) -> (r: bool)
        ensures
            r == spec_bit(self@[4], 3u8),
    {
        bit_is_set(self.0[4], 3u8)
    }

    /// Whether the command of bit 6 of octet 4 is supported.
    pub fn qos_setup(&self) -> (r: bool)
        ensures
            r == spec_bit(self@[4], 6u8),
    {
        bit_is_set(self.0[4], 6u8)
    }

    /// Whether the command of bit 7 of octet 4 is supported.
    pub fn role_discovery(&self) -> (r: bool)
        ensures
            r == spec_bit(self@[4], 7u8),
    {
        bit_is_set(self.0[4], 7u8)
    }

    /// Whether the command of bit 0 of octet 5 is supported.
    pub fn switch_role(&self) -> (r: bool)
        ensures
            r == spec_bit(self@[5], 0u8),
    {
        bit_is_set(self.0[5], 0u8)
    }

    /// Whether the command of bit 1 of octet 5 is supported.
    pub fn read_link_policy_settings(&self) -> (r: bool)
        ensures
            r == spec_bit(self@[5], 1u8),
    {
        bit_is_set(self.0[5], 1u8)
    }

    /// Whether the command of bit 2 of octet 5 is supported.
    pub fn write_link_policy_settings(&self) -> (r: bool)
        ensures
            r == spec_bit(self@[5], 2u8),
    {
        bit_is_set(self.0[5], 2u8)
    }

    /// Whether the command of bit 3 of octet 5 is supported.
    pub fn read_default_link_policy_settings(&self) -> (r: bool)
        ensures
            r == spec_bit(self@[5], 3u8),
    {
        bit_is_set(self.0[5], 3u8)
    }

    /// Whether the command of bit 4 of octet 5 is supported.
    pub fn write_default_link_policy_settings(&self) -> (r: bool)
        ensures
            r == spec_bit(self@[5], 4u8),
    {
        bit_is_set(self.0[5], 4u8)
    }

    /// Whether the command of bit 5 of octet 5 is supported.
    pub fn flow_specification(&self) -> (r: bool)
        ensures
            r == spec_bit(self@[5], 5u8),
    {
        bit_is_set(self.0[5], 5u8)
    }

    /// Whether the command of bit 6 of octet 5 is supported.
    pub fn set_event_mask(&self) -> (r: bool)
        ensures
            r == spec_bit(self@[5], 6u8),
    {
        bit_is_set(self.0[5], 6u8)
    }

    /// Whether the command of bit 7 of octet 5 is supported.
    pub fn reset(&self) -> (r: bool)
        ensures
            r == spec_bit(self@[5], 7u8),
    {
        bit_is_set(self.0[5], 7u8)
    }

    /// Whether the command of bit 0 of octet 6 is supported.
    pub fn set_event_filter(&self) -> (r: bool)
        ensures
            r == spec_bit(self@[6], 0u8),
    {
        bit_is_set(self.0[6], 0u8)
    }

    /// Whether the command of bit 1 of octet 6 is supported.
    pub fn flush(&self) -> (r: bool)
        ensures
            r == spec_bit(self@[6], 1u8),
    {
        bit_is_set(self.0[6], 1u8)
    }

    /// Whether the command of bit 2 of octet 6 is supported.
    pub fn read_pin_kind(&self) -> (r: bool)
        ensures
            r == spec_bit(self@[6], 2u8),
    {
        bit_is_set(self.0[6], 2u8)
    }

    /// Whether the command of bit 3 of octet 6 is supported.
    pub fn write_pin_kind(&self) -> (r: bool)
        ensures
            r == spec_bit(self@[6], 3u8),
    {
        bit_is_set(self.0[6], 3u8)
    }

    /// Whether the command of bit 5 of octet 6 is supported.
    pub fn read_stored_link_key(&self) -> (r: bool)
        ensures
            r == spec_bit(self@[6], 5u8),
    {
        bit_is_set(self.0[6], 5u8)
    }

    /// Whether the command of bit 6 of octet 6 is supported.
    pub fn write_stored_link_key(&self) -> (r: bool)
        ensures
            r == spec_bit(self@[6], 6u8),
    {
        bit_is_set(self.0[6], 6u8)
    }

    /// Whether the command of bit 7 of octet 6 is supported.
    pub fn delete_stored_link_key(&self) -> (r: bool)
        ensures
            r == spec_bit(self@[6], 7u8),
    {
        bit_is_set(self.0[6], 7u8)
    }

    /// Whether the command of bit 0 of octet 7 is supported.
    pub fn write_local_name(&self) -> (r: bool)
        ensures
            r == spec_bit(self@[7], 0u8),
    {
        bit_is_set(self.0[7], 0u8)
    }

    /// Whether the command of bit 1 of octet 7 is supported.
    pub fn read_local_name(&self) -> (r: bool)
        ensures
            r == spec_bit(self@[7], 1u8),
    {
        bit_is_set(self.0[7], 1u8)
    }

    /// Whether the command of bit 2 of octet 7 is supported.
    pub fn read_conn_accept_timeout(&self) -> (r: bool)
        ensures
            r == spec_bit(self@[7], 2u8),
    {
        bit_is_set(self.0[7], 2u8)
    }

    /// Whether the command of bit 3 of octet 7 is supported.
    pub fn write_conn_accept_timeout(&self) -> (r: bool)
        ensures
            r == spec_bit(self@[7], 3u8),
    {
        bit_is_set(self.0[7], 3u8)
    }

    /// Whether the command of bit 4 of octet 7 is supported.
    pub fn read_page_timeout(&self) -> (r: bool)
        ensures
            r == spec_bit(self@[7], 4u8),
    {
        bit_is_set(self.0[7], 4u8)
    }

    /// Whether the command of bit 5 of octet 7 is supported.
    pub fn write_page_timeout(&self) -> (r: bool)
        ensures
            r == spec_bit(self@[7], 5u8),
    {
        bit_is_set(self.0[7], 5u8)
    }

    /// Whether the command of bit 6 of octet 7 is supported.
    pub fn read_scan_enable(&self) -> (r: bool)
        ensures
            r == spec_bit(self@[7], 6u8),
    {
        bit_is_set(self.0[7], 6u8)
    }

    /// Whether the command of bit 7 of octet 7 is supported.
    pub fn write_scan_enable(&self) -> (r: bool)
        ensures
            r == spec_bit(self@[7], 7u8),
    {
        bit_is_set(self.0[7], 7u8)
    }

    /// Whether the command of bit 0 of octet 8 is supported.
    pub fn read_page_scan_activity(&self) -> (r: bool)
        ensures
            r == spec_bit(self@[8], 0u8),
    {
        bit_is_set(self.0[8], 0u8)
    }

    /// Whether the command of bit 1 of octet 8 is supported.
    pub fn write_page_scan_activity(&self) -> (r: bool)
        ensures
            r == spec_bit(self@[8], 1u8),
    {
        bit_is_set(self.0[8], 1u8)
    }

    /// Whether the command of bit 2 of octet 8 is supported.
    pub fn read_inquiry_scan_activity(&self) -> (r: bool)
        ensures
            r == spec_bit(self@[8], 2u8),
    {
        bit_is_set(self.0[8], 2u8)
    }

    /// Whether the command of bit 3 of octet 8 is supported.
    pub fn write_inquiry_scan_activity(&self) -> (r: bool)
        ensures
            r == spec_bit(self@[8], 3u8),
    {
        bit_is_set(self.0[8], 3u8)
    }

    /// Whether the command of bit 4 of octet 8 is supported.
    pub fn read_authentication_enable(&self) -> (r: bool)
        ensures
            r == spec_bit(self@[8], 4u8),
    {
        bit_is_set(self.0[8], 4u8)
    }

    /// Whether the command of bit 5 of octet 8 is supported.
    pub fn write_authentication_enable(&self) -> (r: bool)
        ensures
            r == spec_bit(self@[8], 5u8),
    {
        bit_is_set(self.0[8], 5u8)
    }

    /// Whether the command of bit 0 of octet 9 is supported.
    pub fn read_class_of_device(&self) -> (r: bool)
        ensures
            r == spec_bit(self@[9], 0u8),
    {
        bit_is_set(self.0[9], 0u8)
    }

    /// Whether the command of bit 1 of octet 9 is supported.
    pub fn write_class_of_device(&self) -> (r: bool)
        ensures
            r == spec_bit(self@[9], 1u8),
    {
        bit_is_set(self.0[9], 1u8)
    }

    /// Whether the command of bit 2 of octet 9 is supported.
    pub fn read_voice_setting(&self) -> (r: bool)
        ensures
            r == spec_bit(self@[9], 2u8),
    {
        bit_is_set(self.0[9], 2u8)
    }

    /// Whether the command of bit 3 of octet 9 is supported.
    pub fn write_voice_setting(&self) -> (r: bool)
        ensures
            r == spec_bit(self@[9], 3u8),
    {
        bit_is_set(self.0[9], 3u8)
    }

    /// Whether the command of bit 4 of octet 9 is supported.
    pub fn read_automatic_flush_timeout(&self) -> (r: bool)
        ensures
            r == spec_bit(self@[9], 4u8),
    {
        bit_is_set(self.0[9], 4u8)
    }

    /// Whether the command of bit 5 of octet 9 is supported.
    pub fn write_automatic_flush_timeout(&self) -> (r: bool)
        ensures
            r == spec_bit(self@[9], 5u8),
    {
        bit_is_set(self.0[9], 5u8)
    }

    /// Whether the command of bit 6 of octet 9 is supported.
    pub fn read_num_broadcast_retransmissions(&self) -> (r: bool)
        ensures
            r == spec_bit(self@[9], 6u8),
    {
        bit_is_set(self.0[9], 6u8)
    }

    /// Whether the command of bit 7 of octet 9 is supported.
    pub fn write_num_broadcast_retransmissions(&self) -> (r: bool)
        ensures
            r == spec_bit(self@[9], 7u8),
    {
        bit_is_set(self.0[9], 7u8)
    }

    /// Whether the command of bit 0 of octet 10 is supported.
    pub fn read_hold_mode_activity(&self) -> (r: bool)
        ensures
            r == spec_bit(self@[10], 0u8),
    {
        bit_is_set(self.0[10], 0u8)
    }

    /// Whether the command of bit 1 of octet 10 is supported.
    pub fn write_hold_mode_activity(&self) -> (r: bool)
        ensures
            r == spec_bit(self@[10], 1u8),
    {
        bit_is_set(self.0[10], 1u8)
    }

    /// Whether the command of bit 2 of octet 10 is supported.
    pub fn read_transmit_power_level(&self) -> (r: bool)
        ensures
            r == spec_bit(self@[10], 2u8),
    {
        bit_is_set(self.0[10], 2u8)
    }

    /// Whether the command of bit 3 of octet 10 is supported.
    pub fn read_synchronous_flow_control_enable(&self) -> (r: bool)
        ensures
            r == spec_bit(self@[10], 3u8),
    {
        bit_is_set(self.0[10], 3u8)
    }

    /// Whether the command of bit 4 of octet 10 is supported.
    pub fn write_synchronous_flow_control_enable(&self) -> (r: bool)
        ensures
            r == spec_bit(self@[10], 4u8),
    {
        bit_is_set(self.0[10], 4u8)
    }

    /// Whether the command of bit 5 of octet 10 is supported.
    pub fn set_controller_to_host_flow_control(&self) -> (r: bool)
        ensures
            r == spec_bit(self@[10], 5u8),
    {
        bit_is_set(self.0[10], 5u8)
    }

    /// Whether the command of bit 6 of octet 10 is supported.
    pub fn host_buffer_size(&self) -> (r: bool)
        ensures
            r == spec_bit(self@[10], 6u8),
    {
        bit_is_set(self.0[10], 6u8)
    }

    /// Whether the command of bit 7 of octet 10 is supported.
    pub fn host_number_of_completed_packets(&self) -> (r: bool)
        ensures
            r == spec_bit(self@[10], 7u8),
    {
        bit_is_set(self.0[10], 7u8)
    }

    /// Whether the command of bit 0 of octet 11 is supported.
    pub fn read_link_supervision_timeout(&self) -> (r: bool)
        ensures
            r == spec_bit(self@[11], 0u8),
    {
        bit_is_set(self.0[11], 0u8)
    }

    /// Whether the command of bit 1 of octet 11 is supported.
    pub fn write_link_supervision_timeout(&self) -> (r: bool)
        ensures
            r == spec_bit(self@[11], 1u8),
    {
        bit_is_set(self.0[11], 1u8)
    }

    /// Whether the command of bit 2 of octet 11 is supported.
    pub fn read_number_of_supported_iac(&self) -> (r: bool)
        ensures
            r == spec_bit(self@[11], 2u8),
    {
        bit_is_set(self.0[11], 2u8)
    }

    /// Whether the command of bit 3 of octet 11 is supported.
    pub fn read_current_iac_lap(&self) -> (r: bool)
        ensures
            r == spec_bit(self@[11], 3u8),
    {
        bit_is_set(self.0[11], 3u8)
    }

    /// Whether the command of bit 4 of octet 11 is supported.
    pub fn write_current_iac_lap(&self) -> (r: bool)
        ensures
            r == spec_bit(self@[11], 4u8),
    {
        bit_is_set(self.0[11], 4u8)
    }

    /// Whether the command of bit 1 of octet 12 is supported.
    pub fn set_afh_host_channel_classification(&self) -> (r: bool)
        ensures
            r == spec_bit(self@[12], 1u8),
    {
        bit_is_set(self.0[12], 1u8)
    }

    /// Whether the command of bit 4 of octet 12 is supported.
    pub fn read_inquiry_scan_kind(&self) -> (r: bool)
        ensures
            r == spec_bit(self@[12], 4u8),
    {
        bit_is_set(self.0[12], 4u8)
    }

    /// Whether the command of bit 5 of octet 12 is supported.
    pub fn write_inquiry_scan_kind(&self) -> (r: bool)
        ensures
            r == spec_bit(self@[12], 5u8),
    {
        bit_is_set(self.0[12], 5u8)
    }

    /// Whether the command of bit 6 of octet 12 is supported.
    pub fn read_inquiry_mode(&self) -> (r: bool)
        ensures
            r == spec_bit(self@[12], 6u8),
    {
        bit_is_set(self.0[12], 6u8)
    }

    /// Whether the command of bit 7 of octet 12 is supported.
    pub fn write_inquiry_mode(&self) -> (r: bool)
        ensures
            r == spec_bit(self@[12], 7u8),
    {
        bit_is_set(self.0[12], 7u8)
    }

    /// Whether the command of bit 0 of octet 13 is supported.
    pub fn read_page_scan_kind(&self) -> (r: bool)
        ensures
            r == spec_bit(self@[13], 0u8),
    {
        bit_is_set(self.0[13], 0u8)
    }

    /// Whether the command of bit 1 of octet 13 is supported.
    pub fn write_page_scan_kind(&self) -> (r: bool)
        ensures
            r == spec_bit(self@[13], 1u8),
    {
        bit_is_set(self.0[13], 1u8)
    }

    /// Whether the command of bit 2 of octet 13 is supported.
    pub fn read_afh_channel_assessment_mode(&self) -> (r: bool)
        ensures
            r == spec_bit(self@[13], 2u8),
    {
        bit_is_set(self.0[13], 2u8)
    }

    /// Whether the command of bit 3 of octet 13 is supported.
    pub fn write_afh_channel_assessment_mode(&self) -> (r: bool)
        ensures
            r == spec_bit(self@[13], 3u8),
    {
        bit_is_set(self.0[13], 3u8)
    }

    /// Whether the command of bit 3 of octet 14 is supported.
    pub fn read_local_version_information(&self) -> (r: bool)
        ensures
            r == spec_bit(self@[14], 3u8),
    {
        bit_is_set(self.0[14], 3u8)
    }

    /// Whether the command of bit 5 of octet 14 is supported.
    pub fn read_local_supported_features(&self) -> (r: bool)
        ensures
            r == spec_bit(self@[14], 5u8),
    {
        bit_is_set(self.0[14], 5u8)
    }

    /// Whether the command of bit 6 of octet 14 is supported.
    pub fn read_local_ext_features(&self) -> (r: bool)
        ensures
            r == spec_bit(self@[14], 6u8),
    {
        bit_is_set(self.0[14], 6u8)
    }

    /// Whether the command of bit 7 of octet 14 is supported.
    pub fn read_buffer_size(&self) -> (r: bool)
        ensures
            r == spec_bit(self@[14], 7u8),
    {
        bit_is_set(self.0[14], 7u8)
    }

    /// Whether the command of bit 1 of octet 15 is supported.
    pub fn read_bd_addr(&self) -> (r: bool)
        ensures
            r == spec_bit(self@[15], 1u8),
    {
        bit_is_set(self.0[15], 1u8)
    }

    /// Whether the command of bit 2 of octet 15 is supported.
    pub fn read_failed_contact_counter(&self) -> (r: bool)
        ensures
            r == spec_bit(self@[15], 2u8),
    {
        bit_is_set(self.0[15], 2u8)
    }

    /// Whether the command of bit 3 of octet 15 is supported.
    pub fn reset_failed_contact_counter(&self) -> (r: bool)
        ensures
            r == spec_bit(self@[15], 3u8),
    {
        bit_is_set(self.0[15], 3u8)
    }

    /// Whether the command of bit 4 of octet 15 is supported.
    pub fn read_link_quality(&self) -> (r: bool)
        ensures
            r == spec_bit(self@[15], 4u8),
    {
        bit_is_set(self.0[15], 4u8)
    }

    /// Whether the command of bit 5 of octet 15 is supported.
    pub fn read_rssi(&self) -> (r: bool)
        ensures
            r == spec_bit(self@[15], 5u8),
    {
        bit_is_set(self.0[15], 5u8)
    }

    /// Whether the command of bit 6 of octet 15 is supported.
    pub fn read_afh_channel_map(&self) -> (r: bool)
        ensures
            r == spec_bit(self@[15], 6u8),
    {
        bit_is_set(self.0[15], 6u8)
    }

    /// Whether the command of bit 7 of octet 15 is supported.
    pub fn read_clock(&self) -> (r: bool)
        ensures
            r == spec_bit(self@[15], 7u8),
    {
        bit_is_set(self.0[15], 7u8)
    }

    /// Whether the command of bit 0 of octet 16 is supported.
    pub fn read_loopback_mode(&self) -> (r: bool)
        ensures
            r == spec_bit(self@[16], 0u8),
    {
        bit_is_set(self.0[16], 0u8)
    }

    /// Whether the command of bit 1 of octet 16 is supported.
    pub fn write_loopback_mode(&self) -> (r: bool)
        ensures
            r == spec_bit(self@[16], 1u8),
    {
        bit_is_set(self.0[16], 1u8)
    }

    /// Whether the command of bit 2 of octet 16 is supported.
    pub fn enable_device_under_test_mode(&self) -> (r: bool)
        ensures
            r == spec_bit(self@[16], 2u8),
    {
        bit_is_set(self.0[16], 2u8)
    }

    /// Whether the command of bit 3 of octet 16 is supported.
    pub fn setup_synchronous_conn_request(&self) -> (r: bool)
        ensures
            r == spec_bit(self@[16], 3u8),
    {
        bit_is_set(self.0[16], 3u8)
    }

    /// Whether the command of bit 4 of octet 16 is supported.
    pub fn accept_synchronous_conn_request(&self) -> (r: bool)
        ensures
            r == spec_bit(self@[16], 4u8),
    {
        bit_is_set(self.0[16], 4u8)
    }

    /// Whether the command of bit 5 of octet 16 is supported.
    pub fn reject_synchronous_conn_request(&self) -> (r: bool)
        ensures
            r == spec_bit(self@[16], 5u8),
    {
        bit_is_set(self.0[16], 5u8)
    }

    /// Whether the command of bit 0 of octet 17 is supported.
    pub fn read_ext_inquiry_response(&self) -> (r: bool)
        ensures
            r == spec_bit(self@[17], 0u8),
    {
        bit_is_set(self.0[17], 0u8)
    }

    /// Whether the command of bit 1 of octet 17 is supported.
    pub fn write_ext_inquiry_response(&self) -> (r: bool)
        ensures
            r == spec_bit(self@[17], 1u8),
    {
        bit_is_set(self.0[17], 1u8)
    }

    /// Whether the command of bit 2 of octet 17 is supported.
    pub fn refresh_encryption_key(&self) -> (r: bool)
        ensures
            r == spec_bit(self@[17], 2u8),
    {
        bit_is_set(self.0[17], 2u8)
    }

    /// Whether the command of bit 4 of octet 17 is supported.
    pub fn sniff_subrating(&self) -> (r: bool)
        ensures
            r == spec_bit(self@[17], 4u8),
    {
        bit_is_set(self.0[17], 4u8)
    }

    /// Whether the command of bit 5 of octet 17 is supported.
    pub fn read_simple_pairing_mode(&self) -> (r: bool)
        ensures
            r == spec_bit(self@[17], 5u8),
    {
        bit_is_set(self.0[17], 5u8)
    }

    /// Whether the command of bit 6 of octet 17 is supported.
    pub fn write_simple_pairing_mode(&self) -> (r: bool)
        ensures
            r == spec_bit(self@[17], 6u8),
    {
        bit_is_set(self.0[17], 6u8)
    }

    /// Whether the command of bit 7 of octet 17 is supported.
    pub fn read_local_oob_data(&self) -> (r: bool)
        ensures
            r == spec_bit(self@[17], 7u8),
    {
        bit_is_set(self.0[17], 7u8)
    }

    /// Whether the command of bit 0 of octet 18 is supported.
    pub fn read_inquiry_response_transmit_power_level(&self) -> (r: bool)
        ensures
            r == spec_bit(self@[18], 0u8),
    {
        bit_is_set(self.0[18], 0u8)
    }

    /// Whether the command of bit 1 of octet 18 is supported.
    pub fn write_inquiry_transmit_power_level(&self) -> (r: bool)
        ensures
            r == spec_bit(self@[18], 1u8),
    {
        bit_is_set(self.0[18], 1u8)
    }

    /// Whether the command of bit 2 of octet 18 is supported.
    pub fn read_default_erroneous_data_reporting(&self) -> (r: bool)
        ensures
            r == spec_bit(self@[18], 2u8),
    {
        bit_is_set(self.0[18], 2u8)
    }

    /// Whether the command of bit 3 of octet 18 is supported.
    pub fn write_default_erroneous_data_reporting(&self) -> (r: bool)
        ensures
            r == spec_bit(self@[18], 3u8),
    {
        bit_is_set(self.0[18], 3u8)
    }

    /// Whether the command of bit 7 of octet 18 is supported.
    pub fn io_capability_request_reply(&self) -> (r: bool)
        ensures
            r == spec_bit(self@[18], 7u8),
    {
        bit_is_set(self.0[18], 7u8)
    }

    /// Whether the command of bit 0 of octet 19 is supported.
    pub fn user_confirmation_request_reply(&self) -> (r: bool)
        ensures
            r == spec_bit(self@[19], 0u8),
    {
        bit_is_set(self.0[19], 0u8)
    }

    /// Whether the command of bit 1 of octet 19 is supported.
    pub fn user_confirmation_request_negative_reply(&self) -> (r: bool)
        ensures
            r == spec_bit(self@[19], 1u8),
    {
        bit_is_set(self.0[19], 1u8)
    }

    /// Whether the command of bit 2 of octet 19 is supported.
    pub fn user_passkey_request_reply(&self) -> (r: bool)
        ensures
            r == spec_bit(self@[19], 2u8),
    {
        bit_is_set(self.0[19], 2u8)
    }

    /// Whether the command of bit 3 of octet 19 is supported.
    pub fn user_passkey_request_negative_reply(&self) -> (r: bool)
        ensures
            r == spec_bit(self@[19], 3u8),
    {
        bit_is_set(self.0[19], 3u8)
    }

    /// Whether the command of bit 4 of octet 19 is supported.
    pub fn remote_oob_data_request_reply(&self) -> (r: bool)
        ensures
            r == spec_bit(self@[19], 4u8),
    {
        bit_is_set(self.0[19], 4u8)
    }

    /// Whether the command of bit 5 of octet 19 is supported.
    pub fn write_simple_pairing_debug_mode(&self) -> (r: bool)
        ensures
            r == spec_bit(self@[19], 5u8),
    {
        bit_is_set(self.0[19], 5u8)
    }

    /// Whether the command of bit 6 of octet 19 is supported.
    pub fn enhanced_flush(&self) -> (r: bool)
        ensures
            r == spec_bit(self@[19], 6u8),
    {
        bit_is_set(self.0[19], 6u8)
    }

    /// Whether the command of bit 7 of octet 19 is supported.
    pub fn remote_oob_data_request_negative_reply(&self) -> (r: bool)
        ensures
            r == spec_bit(self@[19], 7u8),
    {
        bit_is_set(self.0[19], 7u8)
    }

    /// Whether the command of bit 2 of octet 20 is supported.
    pub fn send_keypress_notification(&self) -> (r: bool)
        ensures
            r == spec_bit(self@[20], 2u8),
    {
        bit_is_set(self.0[20], 2u8)
    }

    /// Whether the command of bit 3 of octet 20 is supported.
    pub fn io_capability_request_negative_reply(&self) -> (r: bool)
        ensures
            r == spec_bit(self@[20], 3u8),
    {
        bit_is_set(self.0[20], 3u8)
    }

    /// Whether the command of bit 4 of octet 20 is supported.
    pub fn read_encryption_key_size(&self) -> (r: bool)
        ensures
            r == spec_bit(self@[20], 4u8),
    {
        bit_is_set(self.0[20], 4u8)
    }

    /// Whether the command of bit 2 of octet 22 is supported.
    pub fn set_event_mask_page_2(&self) -> (r: bool)
        ensures
            r == spec_bit(self@[22], 2u8),
    {
        bit_is_set(self.0[22], 2u8)
    }

    /// Whether the command of bit 0 of octet 23 is supported.
    pub fn read_flow_control_mode(&self) -> (r: bool)
        ensures
            r == spec_bit(self@[23], 0u8),
    {
        bit_is_set(self.0[23], 0u8)
    }

    /// Whether the command of bit 1 of octet 23 is supported.
    pub fn write_flow_control_mode(&self) -> (r: bool)
        ensures
            r == spec_bit(self@[23], 1u8),
    {
        bit_is_set(self.0[23], 1u8)
    }

    /// Whether the command of bit 2 of octet 23 is supported.
    pub fn read_data_block_size(&self) -> (r: bool)
        ensures
            r == spec_bit(self@[23], 2u8),
    {
        bit_is_set(self.0[23], 2u8)
    }

    /// Whether the command of bit 0 of octet 24 is supported.
    pub fn read_enhanced_transmit_power_level(&self) -> (r: bool)
        ensures
            r == spec_bit(self@[24], 0u8),
    {
        bit_is_set(self.0[24], 0u8)
    }

    /// Whether the command of bit 5 of octet 24 is supported.
    pub fn read_le_host_support(&self) -> (r: bool)
        ensures
            r == spec_bit(self@[24], 5u8),
    {
        bit_is_set(self.0[24], 5u8)
    }

    /// Whether the command of bit 6 of octet 24 is supported.
    pub fn write_le_host_support(&self) -> (r: bool)
        ensures
            r == spec_bit(self@[24], 6u8),
    {
        bit_is_set(self.0[24], 6u8)
    }

    /// Whether the command of bit 0 of octet 25 is supported.
    pub fn le_set_event_mask(&self) -> (r: bool)
        ensures
            r == spec_bit(self@[25], 0u8),
    {
        bit_is_set(self.0[25], 0u8)
    }

    /// Whether the command of bit 1 of octet 25 is supported.
    pub fn le_read_buffer_size_v1(&self) -> (r: bool)
        ensures
            r == spec_bit(self@[25], 1u8),
    {
        bit_is_set(self.0[25], 1u8)
    }

    /// Whether the command of bit 2 of octet 25 is supported.
    pub fn le_read_local_supported_features(&self) -> (r: bool)
        ensures
            r == spec_bit(self@[25], 2u8),
    {
        bit_is_set(self.0[25], 2u8)
    }

    /// Whether the command of bit 4 of octet 25 is supported.
    pub fn le_set_random_addr(&self) -> (r: bool)
        ensures
            r == spec_bit(self@[25], 4u8),
    {
        bit_is_set(self.0[25], 4u8)
    }

    /// Whether the command of bit 5 of octet 25 is supported.
    pub fn le_set_adv_parameters(&self) -> (r: bool)
        ensures
            r == spec_bit(self@[25], 5u8),
    {
        bit_is_set(self.0[25], 5u8)
    }

    /// Whether the command of bit 6 of octet 25 is supported.
    pub fn le_read_adv_physical_channel_tx_power(&self) -> (r: bool)
        ensures
            r == spec_bit(self@[25], 6u8),
    {
        bit_is_set(self.0[25], 6u8)
    }

    /// Whether the command of bit 7 of octet 25 is supported.
    pub fn le_set_adv_data(&self) -> (r: bool)
        ensures
            r == spec_bit(self@[25], 7u8),
    {
        bit_is_set(self.0[25], 7u8)
    }

    /// Whether the command of bit 0 of octet 26 is supported.
    pub fn le_set_scan_response_data(&self) -> (r: bool)
        ensures
            r == spec_bit(self@[26], 0u8),
    {
        bit_is_set(self.0[26], 0u8)
    }

    /// Whether the command of bit 1 of octet 26 is supported.
    pub fn le_set_adv_enable(&self) -> (r: bool)
        ensures
            r == spec_bit(self@[26], 1u8),
    {
        bit_is_set(self.0[26], 1u8)
    }

    /// Whether the command of bit 2 of octet 26 is supported.
    pub fn le_set_scan_parameters(&self) -> (r: bool)
        ensures
            r == spec_bit(self@[26], 2u8),
    {
        bit_is_set(self.0[26], 2u8)
    }

    /// Whether the command of bit 3 of octet 26 is supported.
    pub fn le_set_scan_enable(&self) -> (r: bool)
        ensures
            r == spec_bit(self@[26], 3u8),
    {
        bit_is_set(self.0[26], 3u8)
    }

    /// Whether the command of bit 4 of octet 26 is supported.
    pub fn le_create_conn(&self) -> (r: bool)
        ensures
            r == spec_bit(self@[26], 4u8),
    {
        bit_is_set(self.0[26], 4u8)
    }

    /// Whether the command of bit 5 of octet 26 is supported.
    pub fn le_create_conn_cancel(&self) -> (r: bool)
        ensures
            r == spec_bit(self@[26], 5u8),
    {
        bit_is_set(self.0[26], 5u8)
    }

    /// Whether the command of bit 6 of octet 26 is supported.
    pub fn le_read_filter_accept_list_size(&self) -> (r: bool)
        ensures
            r == spec_bit(self@[26], 6u8),
    {
        bit_is_set(self.0[26], 6u8)
    }

    /// Whether the command of bit 7 of octet 26 is supported.
    pub fn le_clear_filter_accept_list(&self) -> (r: bool)
        ensures
            r == spec_bit(self@[26], 7u8),
    {
        bit_is_set(self.0[26], 7u8)
    }

    /// Whether the command of bit 0 of octet 27 is supported.
    pub fn le_add_device_to_filter_accept_list(&self) -> (r: bool)
        ensures
            r == spec_bit(self@[27], 0u8),
    {
        bit_is_set(self.0[27], 0u8)
    }

    /// Whether the command of bit 1 of octet 27 is supported.
    pub fn le_remove_device_from_filter_accept_list(&self) -> (r: bool)
        ensures
            r == spec_bit(self@[27], 1u8),
    {
        bit_is_set(self.0[27], 1u8)
    }

    /// Whether the command of bit 2 of octet 27 is supported.
    pub fn le_conn_update(&self) -> (r: bool)
        ensures
            r == spec_bit(self@[27], 2u8),
    {
        bit_is_set(self.0[27], 2u8)
    }

    /// Whether the command of bit 3 of octet 27 is supported.
    pub fn le_set_host_channel_classification(&self) -> (r: bool)
        ensures
            r == spec_bit(self@[27], 3u8),
    {
        bit_is_set(self.0[27], 3u8)
    }

    /// Whether the command of bit 4 of octet 27 is supported.
    pub fn le_read_channel_map(&self) -> (r: bool)
        ensures
            r == spec_bit(self@[27], 4u8),
    {
        bit_is_set(self.0[27], 4u8)
    }

    /// Whether the command of bit 5 of octet 27 is supported.
    pub fn le_read_remote_features(&self) -> (r: bool)
        ensures
            r == spec_bit(self@[27], 5u8),
    {
        bit_is_set(self.0[27], 5u8)
    }

    /// Whether the command of bit 6 of octet 27 is supported.
    pub fn le_encrypt(&self) -> (r: bool)
        ensures
            r == spec_bit(self@[27], 6u8),
    {
        bit_is_set(self.0[27], 6u8)
    }

    /// Whether the command of bit 7 of octet 27 is supported.
    pub fn le_rand(&self) -> (r: bool)
        ensures
            r == spec_bit(self@[27], 7u8),
    {
        bit_is_set(self.0[27], 7u8)
    }

    /// Whether the command of bit 0 of octet 28 is supported.
    pub fn le_enable_encryption(&self) -> (r: bool)
        ensures
            r == spec_bit(self@[28], 0u8),
    {
        bit_is_set(self.0[28], 0u8)
    }

    /// Whether the command of bit 1 of octet 28 is supported.
    pub fn le_long_term_key_request_reply(&self) -> (r: bool)
        ensures
            r == spec_bit(self@[28], 1u8),
    {
        bit_is_set(self.0[28], 1u8)
    }

    /// Whether the command of bit 2 of octet 28 is supported.
    pub fn le_long_term_key_request_negative_reply(&self) -> (r: bool)
        ensures
            r == spec_bit(self@[28], 2u8),
    {
        bit_is_set(self.0[28], 2u8)
    }

    /// Whether the command of bit 3 of octet 28 is supported.
    pub fn le_read_supported_states(&self) -> (r: bool)
        ensures
            r == spec_bit(self@[28], 3u8),
    {
        bit_is_set(self.0[28], 3u8)
    }

    /// Whether the command of bit 4 of octet 28 is supported.
    pub fn le_receiver_test_v1(&self) -> (r: bool)
        ensures
            r == spec_bit(self@[28], 4u8),
    {
        bit_is_set(self.0[28], 4u8)
    }

    /// Whether the command of bit 5 of octet 28 is supported.
    pub fn le_transmitter_test_v1(&self) -> (r: bool)
        ensures
            r == spec_bit(self@[28], 5u8),
    {
        bit_is_set(self.0[28], 5u8)
    }

    /// Whether the command of bit 6 of octet 28 is supported.
    pub fn le_test_end(&self) -> (r: bool)
        ensures
            r == spec_bit(self@[28], 6u8),
    {
        bit_is_set(self.0[28], 6u8)
    }

    /// Whether the command of bit 3 of octet 29 is supported.
    pub fn enhanced_setup_synchronous_conn(&self) -> (r: bool)
        ensures
            r == spec_bit(self@[29], 3u8),
    {
        bit_is_set(self.0[29], 3u8)
    }

    /// Whether the command of bit 4 of octet 29 is supported.
    pub fn enhanced_accept_synchronous_conn(&self) -> (r: bool)
        ensures
            r == spec_bit(self@[29], 4u8),
    {
        bit_is_set(self.0[29], 4u8)
    }

    /// Whether the command of bit 5 of octet 29 is supported.
    pub fn read_local_supported_codecs(&self) -> (r: bool)
        ensures
            r == spec_bit(self@[29], 5u8),
    {
        bit_is_set(self.0[29], 5u8)
    }

    /// Whether the command of bit 6 of octet 29 is supported.
    pub fn set_mws_channel_parameters(&self) -> (r: bool)
        ensures
            r == spec_bit(self@[29], 6u8),
    {
        bit_is_set(self.0[29], 6u8)
    }

    /// Whether the command of bit 7 of octet 29 is supported.
    pub fn set_external_frame_configuration(&self) -> (r: bool)
        ensures
            r == spec_bit(self@[29], 7u8),
    {
        bit_is_set(self.0[29], 7u8)
    }

    /// Whether the command of bit 0 of octet 30 is supported.
    pub fn set_mws_signaling(&self) -> (r: bool)
        ensures
            r == spec_bit(self@[30], 0u8),
    {
        bit_is_set(self.0[30], 0u8)
    }

    /// Whether the command of bit 1 of octet 30 is supported.
    pub fn set_mws_transport_layer(&self) -> (r: bool)
        ensures
            r == spec_bit(self@[30], 1u8),
    {
        bit_is_set(self.0[30], 1u8)
    }

    /// Whether the command of bit 2 of octet 30 is supported.
    pub fn set_mws_scan_frequency_table(&self) -> (r: bool)
        ensures
            r == spec_bit(self@[30], 2u8),
    {
        bit_is_set(self.0[30], 2u8)
    }

    /// Whether the command of bit 3 of octet 30 is supported.
    pub fn get_mws_transport_layer_configuration(&self) -> (r: bool)
        ensures
            r == spec_bit(self@[30], 3u8),
    {
        bit_is_set(self.0[30], 3u8)
    }

    /// Whether the command of bit 4 of octet 30 is supported.
    pub fn set_mws_pattern_configuration(&self) -> (r: bool)
        ensures
            r == spec_bit(self@[30], 4u8),
    {
        bit_is_set(self.0[30], 4u8)
    }

    /// Whether the command of bit 5 of octet 30 is supported.
    pub fn set_triggered_clock_capture(&self) -> (r: bool)
        ensures
            r == spec_bit(self@[30], 5u8),
    {
        bit_is_set(self.0[30], 5u8)
    }

    /// Whether the command of bit 6 of octet 30 is supported.
    pub fn truncated_page(&self) -> (r: bool)
        ensures
            r == spec_bit(self@[30], 6u8),
    {
        bit_is_set(self.0[30], 6u8)
    }

    /// Whether the command of bit 7 of octet 30 is supported.
    pub fn truncated_page_cancel(&self) -> (r: bool)
        ensures
            r == spec_bit(self@[30], 7u8),
    {
        bit_is_set(self.0[30], 7u8)
    }

    /// Whether the command of bit 0 of octet 31 is supported.
    pub fn set_connectionless_peripheral_broadcast(&self) -> (r: bool)
        ensures
            r == spec_bit(self@[31], 0u8),
    {
        bit_is_set(self.0[31], 0u8)
    }

    /// Whether the command of bit 1 of octet 31 is supported.
    pub fn set_connectionless_peripheral_broadcast_receive(&self) -> (r: bool)
        ensures
            r == spec_bit(self@[31], 1u8),
    {
        bit_is_set(self.0[31], 1u8)
    }

    /// Whether the command of bit 2 of octet 31 is supported.
    pub fn start_synchronization_train(&self) -> (r: bool)
        ensures
            r == spec_bit(self@[31], 2u8),
    {
        bit_is_set(self.0[31], 2u8)
    }

    /// Whether the command of bit 3 of octet 31 is supported.
    pub fn receive_synchronization_train(&self) -> (r: bool)
        ensures
            r == spec_bit(self@[31], 3u8),
    {
        bit_is_set(self.0[31], 3u8)
    }

    /// Whether the command of bit 4 of octet 31 is supported.
    pub fn set_reserved_lt_addr(&self) -> (r: bool)
        ensures
            r == spec_bit(self@[31], 4u8),
    {
        bit_is_set(self.0[31], 4u8)
    }

    /// Whether the command of bit 5 of octet 31 is supported.
    pub fn delete_reserved_lt_addr(&self) -> (r: bool)
        ensures
            r == spec_bit(self@[31], 5u8),
    {
        bit_is_set(self.0[31], 5u8)
    }

    /// Whether the command of bit 6 of octet 31 is supported.
    pub fn set_connectionless_peripheral_broadcast_data(&self) -> (r: bool)
        ensures
            r == spec_bit(self@[31], 6u8),
    {
        bit_is_set(self.0[31], 6u8)
    }

    /// Whether the command of bit 7 of octet 31 is supported.
    pub fn read_synchronization_train_parameters(&self) -> (r: bool)
        ensures
            r == spec_bit(self@[31], 7u8),
    {
        bit_is_set(self.0[31], 7u8)
    }

    /// Whether the command of bit 0 of octet 32 is supported.
    pub fn write_synchronization_train_parameters(&self) -> (r: bool)
        ensures
            r == spec_bit(self@[32], 0u8),
    {
        bit_is_set(self.0[32], 0u8)
    }

    /// Whether the command of bit 1 of octet 32 is supported.
    pub fn remote_oob_ext_data_request_reply(&self) -> (r: bool)
        ensures
            r == spec_bit(self@[32], 1u8),
    {
        bit_is_set(self.0[32], 1u8)
    }

    /// Whether the command of bit 2 of octet 32 is supported.
    pub fn read_secure_conns_host_support(&self) -> (r: bool)
        ensures
            r == spec_bit(self@[32], 2u8),
    {
        bit_is_set(self.0[32], 2u8)
    }

    /// Whether the command of bit 3 of octet 32 is supported.
    pub fn write_secure_conns_host_support(&self) -> (r: bool)
        ensures
            r == spec_bit(self@[32], 3u8),
    {
        bit_is_set(self.0[32], 3u8)
    }

    /// Whether the command of bit 4 of octet 32 is supported.
    pub fn read_authenticated_payload_timeout(&self) -> (r: bool)
        ensures
            r == spec_bit(self@[32], 4u8),
    {
        bit_is_set(self.0[32], 4u8)
    }

    /// Whether the command of bit 5 of octet 32 is supported.
    pub fn write_authenticated_payload_timeout(&self) -> (r: bool)
        ensures
            r == spec_bit(self@[32], 5u8),
    {
        bit_is_set(self.0[32], 5u8)
    }

    /// Whether the command of bit 6 of octet 32 is supported.
    pub fn read_local_oob_ext_data(&self) -> (r: bool)
        ensures
            r == spec_bit(self@[32], 6u8),
    {
        bit_is_set(self.0[32], 6u8)
    }

    /// Whether the command of bit 7 of octet 32 is supported.
    pub fn write_secure_conns_test_mode(&self) -> (r: bool)
        ensures
            r == spec_bit(self@[32], 7u8),
    {
        bit_is_set(self.0[32], 7u8)
    }

    /// Whether the command of bit 0 of octet 33 is supported.
    pub fn read_ext_page_timeout(&self) -> (r: bool)
        ensures
            r == spec_bit(self@[33], 0u8),
    {
        bit_is_set(self.0[33], 0u8)
    }

    /// Whether the command of bit 1 of octet 33 is supported.
    pub fn write_ext_page_timeout(&self) -> (r: bool)
        ensures
            r == spec_bit(self@[33], 1u8),
    {
        bit_is_set(self.0[33], 1u8)
    }

    /// Whether the command of bit 2 of octet 33 is supported.
    pub fn read_ext_inquiry_length(&self) -> (r: bool)
        ensures
            r == spec_bit(self@[33], 2u8),
    {
        bit_is_set(self.0[33], 2u8)
    }

    /// Whether the command of bit 3 of octet 33 is supported.
    pub fn write_ext_inquiry_length(&self) -> (r: bool)
        ensures
            r == spec_bit(self@[33], 3u8),
    {
        bit_is_set(self.0[33], 3u8)
    }

    /// Whether the command of bit 4 of octet 33 is supported.
    pub fn le_remote_conn_parameter_request_reply(&self) -> (r: bool)
        ensures
            r == spec_bit(self@[33], 4u8),
    {
        bit_is_set(self.0[33], 4u8)
    }

    /// Whether the command of bit 5 of octet 33 is supported.
    pub fn le_remote_conn_parameter_request_negative_reply(&self) -> (r: bool)
        ensures
            r == spec_bit(self@[33], 5u8),
    {
        bit_is_set(self.0[33], 5u8)
    }

    /// Whether the command of bit 6 of octet 33 is supported.
    pub fn le_set_data_length(&self) -> (r: bool)
        ensures
            r == spec_bit(self@[33], 6u8),
    {
        bit_is_set(self.0[33], 6u8)
    }

    /// Whether the command of bit 7 of octet 33 is supported.
    pub fn le_read_suggested_default_data_length(&self) -> (r: bool)
        ensures
            r == spec_bit(self@[33], 7u8),
    {
        bit_is_set(self.0[33], 7u8)
    }

    /// Whether the command of bit 0 of octet 34 is supported.
    pub fn le_write_suggested_default_data_length(&self) -> (r: bool)
        ensures
            r == spec_bit(self@[34], 0u8),
    {
        bit_is_set(self.0[34], 0u8)
    }

    /// Whether the command of bit 1 of octet 34 is supported.
    pub fn le_read_local_p256_public_key(&self) -> (r: bool)
        ensures
            r == spec_bit(self@[34], 1u8),
    {
        bit_is_set(self.0[34], 1u8)
    }

    /// Whether the command of bit 2 of octet 34 is supported.
    pub fn le_generate_dhkey_v1(&self) -> (r: bool)
        ensures
            r == spec_bit(self@[34], 2u8),
    {
        bit_is_set(self.0[34], 2u8)
    }

    /// Whether the command of bit 3 of octet 34 is supported.
    pub fn le_add_device_to_resolving_list(&self) -> (r: bool)
        ensures
            r == spec_bit(self@[34], 3u8),
    {
        bit_is_set(self.0[34], 3u8)
    }

    /// Whether the command of bit 4 of octet 34 is supported.
    pub fn le_remove_device_from_resolving_list(&self) -> (r: bool)
        ensures
            r == spec_bit(self@[34], 4u8),
    {
        bit_is_set(self.0[34], 4u8)
    }

    /// Whether the command of bit 5 of octet 34 is supported.
    pub fn le_clear_resolving_list(&self) -> (r: bool)
        ensures
            r == spec_bit(self@[34], 5u8),
    {
        bit_is_set(self.0[34], 5u8)
    }

    /// Whether the command of bit 6 of octet 34 is supported.
    pub fn le_read_resolving_list_size(&self) -> (r: bool)
        ensures
            r == spec_bit(self@[34], 6u8),
    {
        bit_is_set(self.0[34], 6u8)
    }

    /// Whether the command of bit 7 of octet 34 is supported.
    pub fn le_read_peer_resolvable_addr(&self) -> (r: bool)
        ensures
            r == spec_bit(self@[34], 7u8),
    {
        bit_is_set(self.0[34], 7u8)
    }

    /// Whether the command of bit 0 of octet 35 is supported.
    pub fn le_read_local_resolvable_addr(&self) -> (r: bool)
        ensures
            r == spec_bit(self@[35], 0u8),
    {
        bit_is_set(self.0[35], 0u8)
    }

    /// Whether the command of bit 1 of octet 35 is supported.
    pub fn le_set_addr_resolution_enable(&self) -> (r: bool)
        ensures
            r == spec_bit(self@[35], 1u8),
    {
        bit_is_set(self.0[35], 1u8)
    }

    /// Whether the command of bit 2 of octet 35 is supported.
    pub fn le_set_resolvable_private_addr_timeout(&self) -> (r: bool)
        ensures
            r == spec_bit(self@[35], 2u8),
    {
        bit_is_set(self.0[35], 2u8)
    }

    /// Whether the command of bit 3 of octet 35 is supported.
    pub fn le_read_maximum_data_length(&self) -> (r: bool)
        ensures
            r == spec_bit(self@[35], 3u8),
    {
        bit_is_set(self.0[35], 3u8)
    }

    /// Whether the command of bit 4 of octet 35 is supported.
    pub fn le_read_phy(&self) -> (r: bool)
        ensures
            r == spec_bit(self@[35], 4u8),
    {
        bit_is_set(self.0[35], 4u8)
    }

    /// Whether the command of bit 5 of octet 35 is supported.
    pub fn le_set_default_phy(&self) -> (r: bool)
        ensures
            r == spec_bit(self@[35], 5u8),
    {
        bit_is_set(self.0[35], 5u8)
    }

    /// Whether the command of bit 6 of octet 35 is supported.
    pub fn le_set_phy(&self) -> (r: bool)
        ensures
            r == spec_bit(self@[35], 6u8),
    {
        bit_is_set(self.0[35], 6u8)
    }

    /// Whether the command of bit 7 of octet 35 is supported.
    pub fn le_receiver_test_v2(&self) -> (r: bool)
        ensures
            r == spec_bit(self@[35], 7u8),
    {
        bit_is_set(self.0[35], 7u8)
    }

    /// Whether the command of bit 0 of octet 36 is supported.
    pub fn le_transmitter_test_v2(&self) -> (r: bool)
        ensures
            r == spec_bit(self@[36], 0u8),
    {
        bit_is_set(self.0[36], 0u8)
    }

    /// Whether the command of bit 1 of octet 36 is supported.
    pub fn le_set_adv_set_random_addr(&self) -> (r: bool)
        ensures
            r == spec_bit(self@[36], 1u8),
    {
        bit_is_set(self.0[36], 1u8)
    }

    /// Whether the command of bit 2 of octet 36 is supported.
    pub fn le_set_ext_adv_parameters(&self) -> (r: bool)
        ensures
            r == spec_bit(self@[36], 2u8),
    {
        bit_is_set(self.0[36], 2u8)
    }

    /// Whether the command of bit 3 of octet 36 is supported.
    pub fn le_set_ext_adv_data(&self) -> (r: bool)
        ensures
            r == spec_bit(self@[36], 3u8),
    {
        bit_is_set(self.0[36], 3u8)
    }

    /// Whether the command of bit 4 of octet 36 is supported.
    pub fn le_set_ext_scan_response_data(&self) -> (r: bool)
        ensures
            r == spec_bit(self@[36], 4u8),
    {
        bit_is_set(self.0[36], 4u8)
    }

    /// Whether the command of bit 5 of octet 36 is supported.
    pub fn le_set_ext_adv_enable(&self) -> (r: bool)
        ensures
            r == spec_bit(self@[36], 5u8),
    {
        bit_is_set(self.0[36], 5u8)
    }

    /// Whether the command of bit 6 of octet 36 is supported.
    pub fn le_read_maximum_adv_data_length(&self) -> (r: bool)
        ensures
            r == spec_bit(self@[36], 6u8),
    {
        bit_is_set(self.0[36], 6u8)
    }

    /// Whether the command of bit 7 of octet 36 is supported.
    pub fn le_read_number_of_supported_adv_sets(&self) -> (r: bool)
        ensures
            r == spec_bit(self@[36], 7u8),
    {
        bit_is_set(self.0[36], 7u8)
    }

    /// Whether the command of bit 0 of octet 37 is supported.
    pub fn le_remove_adv_set(&self) -> (r: bool)
        ensures
            r == spec_bit(self@[37], 0u8),
    {
        bit_is_set(self.0[37], 0u8)
    }

    /// Whether the command of bit 1 of octet 37 is supported.
    pub fn le_clear_adv_sets(&self) -> (r: bool)
        ensures
            r == spec_bit(self@[37], 1u8),
    {
        bit_is_set(self.0[37], 1u8)
    }

    /// Whether the command of bit 2 of octet 37 is supported.
    pub fn le_set_periodic_adv_parameters(&self) -> (r: bool)
        ensures
            r == spec_bit(self@[37], 2u8),
    {
        bit_is_set(self.0[37], 2u8)
    }

    /// Whether the command of bit 3 of octet 37 is supported.
    pub fn le_set_periodic_adv_data(&self) -> (r: bool)
        ensures
            r == spec_bit(self@[37], 3u8),
    {
        bit_is_set(self.0[37], 3u8)
    }

    /// Whether the command of bit 4 of octet 37 is supported.
    pub fn le_set_periodic_adv_enable(&self) -> (r: bool)
        ensures
            r == spec_bit(self@[37], 4u8),
    {
        bit_is_set(self.0[37], 4u8)
    }

    /// Whether the command of bit 5 of octet 37 is supported.
    pub fn le_set_ext_scan_parameters(&self) -> (r: bool)
        ensures
            r == spec_bit(self@[37], 5u8),
    {
        bit_is_set(self.0[37], 5u8)
    }

    /// Whether the command of bit 6 of octet 37 is supported.
    pub fn le_set_ext_scan_enable(&self) -> (r: bool)
        ensures
            r == spec_bit(self@[37], 6u8),
    {
        bit_is_set(self.0[37], 6u8)
    }

    /// Whether the command of bit 7 of octet 37 is supported.
    pub fn le_ext_create_conn(&self) -> (r: bool)
        ensures
            r == spec_bit(self@[37], 7u8),
    {
        bit_is_set(self.0[37], 7u8)
    }

    /// Whether the command of bit 0 of octet 38 is supported.
    pub fn le_periodic_adv_create_sync(&self) -> (r: bool)
        ensures
            r == spec_bit(self@[38], 0u8),
    {
        bit_is_set(self.0[38], 0u8)
    }

    /// Whether the command of bit 1 of octet 38 is supported.
    pub fn le_periodic_adv_create_sync_cancel(&self) -> (r: bool)
        ensures
            r == spec_bit(self@[38], 1u8),
    {
        bit_is_set(self.0[38], 1u8)
    }

    /// Whether the command of bit 2 of octet 38 is supported.
    pub fn le_periodic_adv_terminate_sync(&self) -> (r: bool)
        ensures
            r == spec_bit(self@[38], 2u8),
    {
        bit_is_set(self.0[38], 2u8)
    }

    /// Whether the command of bit 3 of octet 38 is supported.
    pub fn le_add_device_to_periodic_adv_list(&self) -> (r: bool)
        ensures
            r == spec_bit(self@[38], 3u8),
    {
        bit_is_set(self.0[38], 3u8)
    }

    /// Whether the command of bit 4 of octet 38 is supported.
    pub fn le_remove_device_from_periodic_adv_list(&self) -> (r: bool)
        ensures
            r == spec_bit(self@[38], 4u8),
    {
        bit_is_set(self.0[38], 4u8)
    }

    /// Whether the command of bit 5 of octet 38 is supported.
    pub fn le_clear_periodic_adv_list(&self) -> (r: bool)
        ensures
            r == spec_bit(self@[38], 5u8),
    {
        bit_is_set(self.0[38], 5u8)
    }

    /// Whether the command of bit 6 of octet 38 is supported.
    pub fn le_read_periodic_adv_list_size(&self) -> (r: bool)
        ensures
            r == spec_bit(self@[38], 6u8),
    {
        bit_is_set(self.0[38], 6u8)
    }

    /// Whether the command of bit 7 of octet 38 is supported.
    pub fn le_read_transmit_power(&self) -> (r: bool)
        ensures
            r == spec_bit(self@[38], 7u8),
    {
        bit_is_set(self.0[38], 7u8)
    }

    /// Whether the command of bit 0 of octet 39 is supported.
    pub fn le_read_rf_path_compensation(&self) -> (r: bool)
        ensures
            r == spec_bit(self@[39], 0u8),
    {
        bit_is_set(self.0[39], 0u8)
    }

    /// Whether the command of bit 1 of octet 39 is supported.
    pub fn le_write_rf_path_compensation(&self) -> (r: bool)
        ensures
            r == spec_bit(self@[39], 1u8),
    {
        bit_is_set(self.0[39], 1u8)
    }

    /// Whether the command of bit 2 of octet 39 is supported.
    pub fn le_set_privacy_mode(&self) -> (r: bool)
        ensures
            r == spec_bit(self@[39], 2u8),
    {
        bit_is_set(self.0[39], 2u8)
    }

    /// Whether the command of bit 3 of octet 39 is supported.
    pub fn le_receiver_test_v3(&self) -> (r: bool)
        ensures
            r == spec_bit(self@[39], 3u8),
    {
        bit_is_set(self.0[39], 3u8)
    }

    /// Whether the command of bit 4 of octet 39 is supported.
    pub fn le_transmitter_test_v3(&self) -> (r: bool)
        ensures
            r == spec_bit(self@[39], 4u8),
    {
        bit_is_set(self.0[39], 4u8)
    }

    /// Whether the command of bit 5 of octet 39 is supported.
    pub fn le_set_connectionless_cte_transmit_parameters(&self) -> (r: bool)
        ensures
            r == spec_bit(self@[39], 5u8),
    {
        bit_is_set(self.0[39], 5u8)
    }

    /// Whether the command of bit 6 of octet 39 is supported.
    pub fn le_set_connectionless_cte_transmit_enable(&self) -> (r: bool)
        ensures
            r == spec_bit(self@[39], 6u8),
    {
        bit_is_set(self.0[39], 6u8)
    }

    /// Whether the command of bit 7 of octet 39 is supported.
    pub fn le_set_connectionless_iq_sampling_enable(&self) -> (r: bool)
        ensures
            r == spec_bit(self@[39], 7u8),
    {
        bit_is_set(self.0[39], 7u8)
    }

    /// Whether the command of bit 0 of octet 40 is supported.
    pub fn le_set_conn_cte_receive_parameters(&self) -> (r: bool)
        ensures
            r == spec_bit(self@[40], 0u8),
    {
        bit_is_set(self.0[40], 0u8)
    }

    /// Whether the command of bit 1 of octet 40 is supported.
    pub fn le_set_conn_cte_transmit_parameters(&self) -> (r: bool)
        ensures
            r == spec_bit(self@[40], 1u8),
    {
        bit_is_set(self.0[40], 1u8)
    }

    /// Whether the command of bit 2 of octet 40 is supported.
    pub fn le_conn_cte_request_enable(&self) -> (r: bool)
        ensures
            r == spec_bit(self@[40], 2u8),
    {
        bit_is_set(self.0[40], 2u8)
    }

    /// Whether the command of bit 3 of octet 40 is supported.
    pub fn le_conn_cte_response_enable(&self) -> (r: bool)
        ensures
            r == spec_bit(self@[40], 3u8),
    {
        bit_is_set(self.0[40], 3u8)
    }

    /// Whether the command of bit 4 of octet 40 is supported.
    pub fn le_read_antenna_information(&self) -> (r: bool)
        ensures
            r == spec_bit(self@[40], 4u8),
    {
        bit_is_set(self.0[40], 4u8)
    }

    /// Whether the command of bit 5 of octet 40 is supported.
    pub fn le_set_periodic_adv_receive_enable(&self) -> (r: bool)
        ensures
            r == spec_bit(self@[40], 5u8),
    {
        bit_is_set(self.0[40], 5u8)
    }

    /// Whether the command of bit 6 of octet 40 is supported.
    pub fn le_periodic_adv_sync_transfer(&self) -> (r: bool)
        ensures
            r == spec_bit(self@[40], 6u8),
    {
        bit_is_set(self.0[40], 6u8)
    }

    /// Whether the command of bit 7 of octet 40 is supported.
    pub fn le_periodic_adv_set_info_transfer(&self) -> (r: bool)
        ensures
            r == spec_bit(self@[40], 7u8),
    {
        bit_is_set(self.0[40], 7u8)
    }

    /// Whether the command of bit 0 of octet 41 is supported.
    pub fn le_set_periodic_adv_sync_transfer_parameters(&self) -> (r: bool)
        ensures
            r == spec_bit(self@[41], 0u8),
    {
        bit_is_set(self.0[41], 0u8)
    }

    /// Whether the command of bit 1 of octet 41 is supported.
    pub fn le_set_default_periodic_adv_sync_transfer_parameters(&self) -> (r: bool)
        ensures
            r == spec_bit(self@[41], 1u8),
    {
        bit_is_set(self.0[41], 1u8)
    }

    /// Whether the command of bit 2 of octet 41 is supported.
    pub fn le_generate_dhkey_v2(&self) -> (r: bool)
        ensures
            r == spec_bit(self@[41], 2u8),
    {
        bit_is_set(self.0[41], 2u8)
    }

    /// Whether the command of bit 3 of octet 41 is supported.
    pub fn read_local_simple_pairing_options(&self) -> (r: bool)
        ensures
            r == spec_bit(self@[41], 3u8),
    {
        bit_is_set(self.0[41], 3u8)
    }

    /// Whether the command of bit 4 of octet 41 is supported.
    pub fn le_modify_sleep_clock_accuracy(&self) -> (r: bool)
        ensures
            r == spec_bit(self@[41], 4u8),
    {
        bit_is_set(self.0[41], 4u8)
    }

    /// Whether the command of bit 5 of octet 41 is supported.
    pub fn le_read_buffer_size_v2(&self) -> (r: bool)
        ensures
            r == spec_bit(self@[41], 5u8),
    {
        bit_is_set(self.0[41], 5u8)
    }

    /// Whether the command of bit 6 of octet 41 is supported.
    pub fn le_read_iso_tx_sync(&self) -> (r: bool)
        ensures
            r == spec_bit(self@[41], 6u8),
    {
        bit_is_set(self.0[41], 6u8)
    }

    /// Whether the command of bit 7 of octet 41 is supported.
    pub fn le_set_cig_parameters(&self) -> (r: bool)
        ensures
            r == spec_bit(self@[41], 7u8),
    {
        bit_is_set(self.0[41], 7u8)
    }

    /// Whether the command of bit 0 of octet 42 is supported.
    pub fn le_set_cig_parameters_test(&self) -> (r: bool)
        ensures
            r == spec_bit(self@[42], 0u8),
    {
        bit_is_set(self.0[42], 0u8)
    }

    /// Whether the command of bit 1 of octet 42 is supported.
    pub fn le_create_cis(&self) -> (r: bool)
        ensures
            r == spec_bit(self@[42], 1u8),
    {
        bit_is_set(self.0[42], 1u8)
    }

    /// Whether the command of bit 2 of octet 42 is supported.
    pub fn le_remove_cig(&self) -> (r: bool)
        ensures
            r == spec_bit(self@[42], 2u8),
    {
        bit_is_set(self.0[42], 2u8)
    }

    /// Whether the command of bit 3 of octet 42 is supported.
    pub fn le_accept_cis_request(&self) -> (r: bool)
        ensures
            r == spec_bit(self@[42], 3u8),
    {
        bit_is_set(self.0[42], 3u8)
    }

    /// Whether the command of bit 4 of octet 42 is supported.
    pub fn le_reject_cis_request(&self) -> (r: bool)
        ensures
            r == spec_bit(self@[42], 4u8),
    {
        bit_is_set(self.0[42], 4u8)
    }

    /// Whether the command of bit 5 of octet 42 is supported.
    pub fn le_create_big(&self) -> (r: bool)
        ensures
            r == spec_bit(self@[42], 5u8),
    {
        bit_is_set(self.0[42], 5u8)
    }

    /// Whether the command of bit 6 of octet 42 is supported.
    pub fn le_create_big_test(&self) -> (r: bool)
        ensures
            r == spec_bit(self@[42], 6u8),
    {
        bit_is_set(self.0[42], 6u8)
    }

    /// Whether the command of bit 7 of octet 42 is supported.
    pub fn le_terminate_big(&self) -> (r: bool)
        ensures
            r == spec_bit(self@[42], 7u8),
    {
        bit_is_set(self.0[42], 7u8)
    }

    /// Whether the command of bit 0 of octet 43 is supported.
    pub fn le_big_create_sync(&self) -> (r: bool)
        ensures
            r == spec_bit(self@[43], 0u8),
    {
        bit_is_set(self.0[43], 0u8)
    }

    /// Whether the command of bit 1 of octet 43 is supported.
    pub fn le_big_terminate_sync(&self) -> (r: bool)
        ensures
            r == spec_bit(self@[43], 1u8),
    {
        bit_is_set(self.0[43], 1u8)
    }

    /// Whether the command of bit 2 of octet 43 is supported.
    pub fn le_request_peer_sca(&self) -> (r: bool)
        ensures
            r == spec_bit(self@[43], 2u8),
    {
        bit_is_set(self.0[43], 2u8)
    }

    /// Whether the command of bit 3 of octet 43 is supported.
    pub fn le_setup_iso_data_path(&self) -> (r: bool)
        ensures
            r == spec_bit(self@[43], 3u8),
    {
        bit_is_set(self.0[43], 3u8)
    }

    /// Whether the command of bit 4 of octet 43 is supported.
    pub fn le_remove_iso_data_path(&self) -> (r: bool)
        ensures
            r == spec_bit(self@[43], 4u8),
    {
        bit_is_set(self.0[43], 4u8)
    }

    /// Whether the command of bit 5 of octet 43 is supported.
    pub fn le_iso_transmit_test(&self) -> (r: bool)
        ensures
            r == spec_bit(self@[43], 5u8),
    {
        bit_is_set(self.0[43], 5u8)
    }

    /// Whether the command of bit 6 of octet 43 is supported.
    pub fn le_iso_receive_test(&self) -> (r: bool)
        ensures
            r == spec_bit(self@[43], 6u8),
    {
        bit_is_set(self.0[43], 6u8)
    }

    /// Whether the command of bit 7 of octet 43 is supported.
    pub fn le_iso_read_test_counters(&self) -> (r: bool)
        ensures
            r == spec_bit(self@[43], 7u8),
    {
        bit_is_set(self.0[43], 7u8)
    }

    /// Whether the command of bit 0 of octet 44 is supported.
    pub fn le_iso_test_end(&self) -> (r: bool)
        ensures
            r == spec_bit(self@[44], 0u8),
    {
        bit_is_set(self.0[44], 0u8)
    }

    /// Whether the command of bit 1 of octet 44 is supported.
    pub fn le_set_host_feature(&self) -> (r: bool)
        ensures
            r == spec_bit(self@[44], 1u8),
    {
        bit_is_set(self.0[44], 1u8)
    }

    /// Whether the command of bit 2 of octet 44 is supported.
    pub fn le_read_iso_link_quality(&self) -> (r: bool)
        ensures
            r == spec_bit(self@[44], 2u8),
    {
        bit_is_set(self.0[44], 2u8)
    }

    /// Whether the command of bit 3 of octet 44 is supported.
    pub fn le_enhanced_read_transmit_power_level(&self) -> (r: bool)
        ensures
            r == spec_bit(self@[44], 3u8),
    {
        bit_is_set(self.0[44], 3u8)
    }

    /// Whether the command of bit 4 of octet 44 is supported.
    pub fn le_read_remote_transmit_power_level(&self) -> (r: bool)
        ensures
            r == spec_bit(self@[44], 4u8),
    {
        bit_is_set(self.0[44], 4u8)
    }

    /// Whether the command of bit 5 of octet 44 is supported.
    pub fn le_set_path_loss_reporting_parameters(&self) -> (r: bool)
        ensures
            r == spec_bit(self@[44], 5u8),
    {
        bit_is_set(self.0[44], 5u8)
    }

    /// Whether the command of bit 6 of octet 44 is supported.
    pub fn le_set_path_loss_reporting_enable(&self) -> (r: bool)
        ensures
            r == spec_bit(self@[44], 6u8),
    {
        bit_is_set(self.0[44], 6u8)
    }

    /// Whether the command of bit 7 of octet 44 is supported.
    pub fn le_set_transmit_power_reporting_enable(&self) -> (r: bool)
        ensures
            r == spec_bit(self@[44], 7u8),
    {
        bit_is_set(self.0[44], 7u8)
    }

    /// Whether the command of bit 0 of octet 45 is supported.
    pub fn le_transmitter_test_v4(&self) -> (r: bool)
        ensures
            r == spec_bit(self@[45], 0u8),
    {
        bit_is_set(self.0[45], 0u8)
    }

    /// Whether the command of bit 1 of octet 45 is supported.
    pub fn set_ecosystem_base_interval(&self) -> (r: bool)
        ensures
            r == spec_bit(self@[45], 1u8),
    {
        bit_is_set(self.0[45], 1u8)
    }

    /// Whether the command of bit 2 of octet 45 is supported.
    pub fn read_local_supported_codecs_v2(&self) -> (r: bool)
        ensures
            r == spec_bit(self@[45], 2u8),
    {
        bit_is_set(self.0[45], 2u8)
    }

    /// Whether the command of bit 3 of octet 45 is supported.
    pub fn read_local_supported_codec_capabilities(&self) -> (r: bool)
        ensures
            r == spec_bit(self@[45], 3u8),
    {
        bit_is_set(self.0[45], 3u8)
    }

    /// Whether the command of bit 4 of octet 45 is supported.
    pub fn read_local_supported_controller_delay(&self) -> (r: bool)
        ensures
            r == spec_bit(self@[45], 4u8),
    {
        bit_is_set(self.0[45], 4u8)
    }

    /// Whether the command of bit 5 of octet 45 is supported.
    pub fn configure_data_path(&self) -> (r: bool)
        ensures
            r == spec_bit(self@[45], 5u8),
    {
        bit_is_set(self.0[45], 5u8)
    }

    /// Whether the command of bit 6 of octet 45 is supported.
    pub fn le_set_data_related_addr_changes(&self) -> (r: bool)
        ensures
            r == spec_bit(self@[45], 6u8),
    {
        bit_is_set(self.0[45], 6u8)
    }

    /// Whether the command of bit 7 of octet 45 is supported.
    pub fn set_min_encryption_key_size(&self) -> (r: bool)
        ensures
            r == spec_bit(self@[45], 7u8),
    {
        bit_is_set(self.0[45], 7u8)
    }

    /// Whether the command of bit 0 of octet 46 is supported.
    pub fn le_set_default_subrate(&self) -> (r: bool)
        ensures
            r == spec_bit(self@[46], 0u8),
    {
        bit_is_set(self.0[46], 0u8)
    }

    /// Whether the command of bit 1 of octet 46 is supported.
    pub fn le_subrate_request(&self) -> (r: bool)
        ensures
            r == spec_bit(self@[46], 1u8),
    {
        bit_is_set(self.0[46], 1u8)
    }
}

impl<'de> FromHciBytes<'de> for CmdMask {
    open spec fn spec_from_hci_bytes(data: Seq<u8>) -> Result<(Seq<u8>, nat), FromHciBytesError> {
        <[u8; 64] as FromHciBytes<'de>>::spec_from_hci_bytes(data)
    }

    fn from_hci_bytes(data: &'de [u8]) -> (r: Result<(CmdMask, &'de [u8]), FromHciBytesError>) {
        match <[u8; 64] as FromHciBytes<'de>>::from_hci_bytes(data) {
            Ok((v, rest)) => Ok((CmdMask(v), rest)),
            Err(e) => Err(e),
        }
    }
}

impl WriteHci for CmdMask {
    open spec fn spec_hci_bytes(&self) -> Seq<u8> {
        self@
    }

    fn size(&self) -> (r: usize) {
        64
    }

    fn write_hci(&self, out: &mut Vec<u8>) {
        self.0.write_hci(out);
    }
}

impl FixedSizeValue for CmdMask {
    open spec fn spec_size() -> nat {
        64
    }

    proof fn lemma_fixed_size(&self) {
    }
}

impl<'de> HciCodec<'de> for CmdMask {
    open spec fn spec_encodable(&self) -> bool {
        true
    }

    proof fn lemma_write_then_read(&self, rest: Seq<u8>) {
        self.0.lemma_write_then_read(rest);
    }
}

} // verus!
