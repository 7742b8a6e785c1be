//! HCI status codes.

use vstd::prelude::*;

use crate::{FixedSizeValue, FromHciBytes, FromHciBytesError, HciCodec, WriteHci};

verus! {

/// An HCI status code: zero for success, or an error code.
#[derive(Default, Debug, Clone, Copy, PartialEq, Eq, PartialOrd, Ord, Hash)]
pub struct Status(u8);

impl View for Status {
    type V = u8;

    closed spec fn view(&self) -> u8 {
        self.0
    }
}

impl Status {
    /// The status code of a successful operation.
    pub fn success() -> (r: Status)
        ensures
            r@ == SUCCESS,
    {
        Status(SUCCESS)
    }

    /// Create a status from its code.
    pub fn new(n: u8) -> (r: Status)
        ensures
            r@ == n,
    {
        Status(n)
    }

    /// Get the status code.
    pub fn into_inner(self) -> (r: u8)
        ensures
            r == self@,
    {
        self.0
    }

    /// `Ok` for the success code, the error otherwise.
    pub fn to_result(self) -> (r: Result<(), Error>)
        ensures
            self@ == SUCCESS <==> r is Ok,
            r matches Err(e) ==> e@ == self@,
    {
        if self.0 == SUCCESS {
            Ok(())
        } else {
            Err(Error(self.0))
        }
    }
}

/// An HCI error code: a status code other than success.
#[derive(Debug, Clone, Copy, PartialEq, Eq, PartialOrd, Ord, Hash)]
pub struct Error(u8);

impl View for Error {
    type V = u8;

    closed spec fn view(&self) -> u8 {
        self.0
    }
}

impl Error {
    /// Create an error from its code; `None` for the success code.
    pub fn from_u8(n: u8) -> (r: Option<Error>)
        ensures
            n == SUCCESS <==> r is None,
            r matches Some(e) ==> e@ == n,
    {
        if n == SUCCESS {
            None
        } else {
            Some(Error(n))
        }
    }

    /// The status carrying this error code.
    pub fn to_status(self) -> (r: Status)
        ensures
            r@ == self@,
    {
        Status(self.0)
    }

    /// Get the error code.
    pub fn into_inner(self) -> (r: u8)
        ensures
            r == self@,
    {
        self.0
    }
}

/// The code of a successful operation.
pub const SUCCESS: u8 = 0x00;
/// Unknown HCI Command.
pub const UNKNOWN_CMD: u8 = 0x01;
/// Unknown Connection Identifier.
pub const UNKNOWN_CONN_IDENTIFIER: u8 = 0x02;
/// Hardware Failure.
pub const HARDWARE_FAILURE: u8 = 0x03;
/// Page Timeout.
pub const PAGE_TIMEOUT: u8 = 0x04;
/// Authentication Failure.
pub const AUTHENTICATION_FAILURE: u8 = 0x05;
/// PIN or Key Missing.
pub const PIN_OR_KEY_MISSING: u8 = 0x06;
/// Memory Capacity Exceeded.
pub const MEMORY_CAPACITY_EXCEEDED: u8 = 0x07;
/// Connection Timeout.
pub const CONN_TIMEOUT: u8 = 0x08;
/// Connection Limit Exceeded.
pub const CONN_LIMIT_EXCEEDED: u8 = 0x09;
/// Synchronous Connection Limit To A Device Exceeded.
pub const SYNCHRONOUS_CONN_LIMIT_EXCEEDED: u8 = 0x0a;
/// Connection Already Exists.
pub const CONN_ALREADY_EXISTS: u8 = 0x0b;
/// Command Disallowed.
pub const CMD_DISALLOWED: u8 = 0x0c;
/// Connection Rejected due to Limited Resources.
pub const CONN_REJECTED_LIMITED_RESOURCES: u8 = 0x0d;
/// Connection Rejected Due To Security Reasons.
pub const CONN_REJECTED_SECURITY_REASONS: u8 = 0x0e;
/// Connection Rejected due to Unacceptable BD_ADDR.
pub const CONN_REJECTED_UNACCEPTABLE_BD_ADDR: u8 = 0x0f;
/// Connection Accept Timeout Exceeded.
pub const CONN_ACCEPT_TIMEOUT_EXCEEDED: u8 = 0x10;
/// Unsupported Feature or Parameter Value.
pub const UNSUPPORTED: u8 = 0x11;
/// Invalid HCI Command Parameters.
pub const INVALID_HCI_PARAMETERS: u8 = 0x12;
/// Remote User Terminated Connection.
pub const REMOTE_USER_TERMINATED_CONN: u8 = 0x13;
/// Remote Device Terminated Connection due to Low Resources.
pub const REMOTE_DEVICE_TERMINATED_CONN_LOW_RESOURCES: u8 = 0x14;
/// Remote Device Terminated Connection due to Power Off.
pub const REMOTE_DEVICE_TERMINATED_CONN_POWER_OFF: u8 = 0x15;
/// Connection Terminated By Local Host.
pub const CONN_TERMINATED_BY_LOCAL_HOST: u8 = 0x16;
/// Repeated Attempts.
pub const REPEATED_ATTEMPTS: u8 = 0x17;
/// Pairing Not Allowed.
pub const PAIRING_NOT_ALLOWED: u8 = 0x18;
/// Unknown LMP PDU.
pub const UNKNOWN_LMP_PDU: u8 = 0x19;
/// Unsupported Remote Feature.
pub const UNSUPPORTED_REMOTE_FEATURE: u8 = 0x1a;
/// SCO Offset Rejected.
pub const SCO_OFFSET_REJECTED: u8 = 0x1b;
/// SCO Interval Rejected.
pub const SCO_INTERVAL_REJECTED: u8 = 0x1c;
/// SCO Air Mode Rejected.
pub const SCO_AIR_MODE_REJECTED: u8 = 0x1d;
/// Invalid LMP Parameters / Invalid LL Parameters.
pub const INVALID_LMP_LL_PARAMETERS: u8 = 0x1e;
/// Unspecified Error.
pub const UNSPECIFIED: u8 = 0x1f;
/// Unsupported LMP Parameter Value / Unsupported LL Parameter Value.
pub const UNSUPPORTED_LMP_LL_PARAMETER_VALUE: u8 = 0x20;
/// Role Change Not Allowed.
pub const ROLE_CHANGE_NOT_ALLOWED: u8 = 0x21;
/// LMP Response Timeout / LL Response Timeout.
pub const LMP_LL_RESPONSE_TIMEOUT: u8 = 0x22;
/// LMP Error Transaction Collision / LL Procedure Collision.
pub const LMP_LL_COLLISION: u8 = 0x23;
/// LMP PDU Not Allowed.
pub const LMP_PDU_NOT_ALLOWED: u8 = 0x24;
/// Encryption Mode Not Acceptable.
pub const ENCRYPTION_MODE_NOT_ACCEPTABLE: u8 = 0x25;
/// Link Key cannot be Changed.
pub const LINK_KEY_CANNOT_BE_CHANGED: u8 = 0x26;
/// Requested QoS Not Supported.
pub const REQUESTED_QOS_NOT_SUPPORTED: u8 = 0x27;
/// Instant Passed.
pub const INSTANT_PASSED: u8 = 0x28;
/// Pairing With Unit Key Not Supported.
pub const PAIRING_WITH_UNIT_KEY_NOT_SUPPORTED: u8 = 0x29;
/// Different Transaction Collision.
pub const DIFFERENT_TRANSACTION_COLLISION: u8 = 0x2a;
/// QoS Unacceptable Parameter.
pub const QOS_UNACCEPTABLE_PARAMETER: u8 = 0x2c;
/// QoS Rejected.
pub const QOS_REJECTED: u8 = 0x2d;
/// Channel Classification Not Supported.
pub const CHANNEL_CLASSIFICATION_NOT_SUPPORTED: u8 = 0x2e;
/// Insufficient Security.
pub const INSUFFICIENT_SECURITY: u8 = 0x2f;
/// Parameter Out Of Mandatory Range.
pub const PARAMETER_OUT_OF_RANGE: u8 = 0x30;
/// Role Switch Pending.
pub const ROLE_SWITCH_PENDING: u8 = 0x32;
/// Reserved Slot Violation.
pub const RESERVED_SLOT_VIOLATION: u8 = 0x34;
/// Role Switch Failed.
pub const ROLE_SWITCH_FAILED: u8 = 0x35;
/// Extended Inquiry Response Too Large.
pub const EXT_INQUIRY_RESPONSE_TOO_LARGE: u8 = 0x36;
/// Secure Simple Pairing Not Supported By Host.
pub const SECURE_SIMPLE_PAIRING_NOT_SUPPORTED_BY_HOST: u8 = 0x37;
/// Host Busy - Pairing.
pub const HOST_BUSY_PAIRING: u8 = 0x38;
/// Connection Rejected due to No Suitable Channel Found.
pub const CONN_REJECTED_NO_SUITABLE_CHANNEL_FOUND: u8 = 0x39;
/// Controller Busy.
pub const CONTROLLER_BUSY: u8 = 0x3a;
/// Unacceptable Connection Parameters.
pub const UNACCEPTABLE_CONN_PARAMETERS: u8 = 0x3b;
/// Advertising Timeout.
pub const ADV_TIMEOUT: u8 = 0x3c;
/// Connection Terminated due to MIC Failure.
pub const CONN_TERMINATED_DUE_TO_MIC_FAILURE: u8 = 0x3d;
/// Connection Failed to be Established / Synchronization Timeout.
pub const CONN_FAILED_SYNCHRONIZATION_TIMEOUT: u8 = 0x3e;
/// Coarse Clock Adjustment Rejected but Will Try to Adjust Using Clock Dragging.
pub const COARSE_CLOCK_ADJUSTMENT_REJECTED: u8 = 0x40;
/// Type0 Submap Not Defined.
pub const TYPE0_SUBMAP_NOT_DEFINED: u8 = 0x41;
/// Unknown Advertising Identifier.
pub const UNKNOWN_ADV_IDENTIFIER: u8 = 0x42;
/// Limit Reached.
pub const LIMIT_REACHED: u8 = 0x43;
/// Operation Cancelled by Host.
pub const OPERATION_CANCELLED_BY_HOST: u8 = 0x44;
/// Packet Too Long.
pub const PACKET_TOO_LONG: u8 = 0x45;

impl<'de> FromHciBytes<'de> for Status {
    open spec fn spec_from_hci_bytes(data: Seq<u8>) -> Result<(u8, nat), FromHciBytesError> {
        <u8 as FromHciBytes<'de>>::spec_from_hci_bytes(data)
    }

    fn from_hci_bytes(data: &'de [u8]) -> (r: Result<(Status, &'de [u8]), FromHciBytesError>) {
        match <u8 as FromHciBytes<'de>>::from_hci_bytes(data) {
            Ok((v, rest)) => Ok((Status(v), rest)),
            Err(e) => Err(e),
        }
    }
}

impl WriteHci for Status {
    open spec fn spec_hci_bytes(&self) -> Seq<u8> {
        seq![self@]
    }

    fn size(&self) -> (r: usize) {
        1
    }

    fn write_hci(&self, out: &mut Vec<u8>) {
        self.0.write_hci(out);
    }
}

impl FixedSizeValue for Status {
    open spec fn spec_size() -> nat {
        1
    }

    proof fn lemma_fixed_size(&self) {
    }
}

impl<'de> HciCodec<'de> for Status {
    open spec fn spec_encodable(&self) -> bool {
        true
    }

    proof fn lemma_write_then_read(&self, rest: Seq<u8>) {
    }
}

} // verus!
