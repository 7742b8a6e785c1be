//! LE Meta events: the subevent code that an LE Meta event starts with,
//! and the parameters that follow it.

use vstd::prelude::*;

use crate::{FromHciBytes, FromHciBytesError};

verus! {

/// A trait for objects which contain the parameters for a specific HCI LE event
pub trait LeEventParams<'a>: FromHciBytes<'a> {
    /// The LE meta event subevent code these parameters are for
    fn subevent_code() -> u8;
}

/// The subevent code of the LeConnectionComplete event.
pub const LE_CONNECTION_COMPLETE: u8 = 1;
/// The subevent code of the LeAdvertisingReport event.
pub const LE_ADVERTISING_REPORT: u8 = 2;
/// The subevent code of the LeConnectionUpdateComplete event.
pub const LE_CONNECTION_UPDATE_COMPLETE: u8 = 3;
/// The subevent code of the LeReadRemoteFeaturesComplete event.
pub const LE_READ_REMOTE_FEATURES_COMPLETE: u8 = 4;
/// The subevent code of the LeLongTermKeyRequest event.
pub const LE_LONG_TERM_KEY_REQUEST: u8 = 5;
/// The subevent code of the LeRemoteConnectionParameterRequest event.
pub const LE_REMOTE_CONNECTION_PARAMETER_REQUEST: u8 = 6;
/// The subevent code of the LeDataLengthChange event.
pub const LE_DATA_LENGTH_CHANGE: u8 = 7;
/// The subevent code of the LeReadLocalP256PublicKeyComplete event.
pub const LE_READ_LOCAL_P256_PUBLIC_KEY_COMPLETE: u8 = 8;
/// The subevent code of the LeGenerateDhkeyComplete event.
pub const LE_GENERATE_DHKEY_COMPLETE: u8 = 9;
/// The subevent code of the LeEnhancedConnectionComplete event.
pub const LE_ENHANCED_CONNECTION_COMPLETE: u8 = 10;
/// The subevent code of the LeDirectedAdvertisingReport event.
pub const LE_DIRECTED_ADVERTISING_REPORT: u8 = 11;
/// The subevent code of the LePhyUpdateComplete event.
pub const LE_PHY_UPDATE_COMPLETE: u8 = 12;
/// The subevent code of the LeExtendedAdvertisingReport event.
pub const LE_EXTENDED_ADVERTISING_REPORT: u8 = 13;
/// The subevent code of the LePeriodicAdvertisingSyncEstablished event.
pub const LE_PERIODIC_ADVERTISING_SYNC_ESTABLISHED: u8 = 14;
/// The subevent code of the LePeriodicAdvertisingReport event.
pub const LE_PERIODIC_ADVERTISING_REPORT: u8 = 15;
/// The subevent code of the LePeriodicAdvertisingSyncLost event.
pub const LE_PERIODIC_ADVERTISING_SYNC_LOST: u8 = 16;
/// The subevent code of the LeScanTimeout event.
pub const LE_SCAN_TIMEOUT: u8 = 17;
/// The subevent code of the LeAdvertisingSetTerminated event.
pub const LE_ADVERTISING_SET_TERMINATED: u8 = 18;
/// The subevent code of the LeScanRequestReceived event.
pub const LE_SCAN_REQUEST_RECEIVED: u8 = 19;
/// The subevent code of the LeChannelSelectionAlgorithm event.
pub const LE_CHANNEL_SELECTION_ALGORITHM: u8 = 20;
/// The subevent code of the LeConnectionlessIqReport event.
pub const LE_CONNECTIONLESS_IQ_REPORT: u8 = 21;
/// The subevent code of the LeConnectionIqReport event.
pub const LE_CONNECTION_IQ_REPORT: u8 = 22;
/// The subevent code of the LeCteRequestFailed event.
pub const LE_CTE_REQUEST_FAILED: u8 = 23;
/// The subevent code of the LePeriodicAdvertisingSyncTransferReceived event.
pub const LE_PERIODIC_ADVERTISING_SYNC_TRANSFER_RECEIVED: u8 = 24;
/// The subevent code of the LeCisEstablished event.
pub const LE_CIS_ESTABLISHED: u8 = 25;
/// The subevent code of the LeCisRequest event.
pub const LE_CIS_REQUEST: u8 = 26;
/// The subevent code of the LeCreateBigComplete event.
pub const LE_CREATE_BIG_COMPLETE: u8 = 27;
/// The subevent code of the LeTerminateBigComplete event.
pub const LE_TERMINATE_BIG_COMPLETE: u8 = 28;
/// The subevent code of the LeBigSyncEstablished event.
pub const LE_BIG_SYNC_ESTABLISHED: u8 = 29;
/// The subevent code of the LeBigSyncLost event.
pub const LE_BIG_SYNC_LOST: u8 = 30;
/// The subevent code of the LeRequestPeerScaComplete event.
pub const LE_REQUEST_PEER_SCA_COMPLETE: u8 = 31;
/// The subevent code of the LePathLossThreshold event.
pub const LE_PATH_LOSS_THRESHOLD: u8 = 32;
/// The subevent code of the LeTransmitPowerReporting event.
pub const LE_TRANSMIT_POWER_REPORTING: u8 = 33;
/// The subevent code of the LeBiginfoAdvertisingReport event.
pub const LE_BIGINFO_ADVERTISING_REPORT: u8 = 34;
/// The subevent code of the LeSubrateChange event.
pub const LE_SUBRATE_CHANGE: u8 = 35;

/// The highest subevent code that this library knows.
pub const MAX_SUBEVENT_CODE: u8 = 35;

/// LE Meta event type
#[derive(Debug, Clone, Copy, Hash, PartialEq, Eq, Structural)]
pub struct LeEventKind(pub u8);

impl View for LeEventKind {
    type V = u8;

    open spec fn view(&self) -> u8 {
        self.0
    }
}

/// Whether `code` is the subevent code of a known LE event.
pub open spec fn spec_known_subevent(code: u8) -> bool {
    1 <= code <= MAX_SUBEVENT_CODE
}

impl<'de> FromHciBytes<'de> for LeEventKind {
    /// The first byte, which must be a known subevent code.
    open spec fn spec_from_hci_bytes(data: Seq<u8>) -> Result<(u8, nat), FromHciBytesError> {
        if data.len() == 0 {
            Err(FromHciBytesError::InvalidSize)
        } else if spec_known_subevent(data[0]) {
            Ok((data[0], 1))
        } else {
            Err(FromHciBytesError::InvalidValue)
        }
    }

    fn from_hci_bytes(data: &'de [u8]) -> (r: Result<(LeEventKind, &'de [u8]), FromHciBytesError>) {
        if data.len() == 0 {
            return Err(FromHciBytesError::InvalidSize);
        }
        let code = data[0];
        if 1 <= code && code <= MAX_SUBEVENT_CODE {
            let (_, rest) = data.split_at(1);
            Ok((LeEventKind(code), rest))
        } else {
            Err(FromHciBytesError::InvalidValue)
        }
    }
}

/// The subevent code and parameters of an LE event packet.
pub struct LeEventPacketView {
    pub kind: u8,
    pub data: Seq<u8>,
}

/// An Le Event HCI packet
#[derive(Debug, Clone, Copy, Hash)]
pub struct LeEventPacket<'a> {
    /// Which kind of le event.
    pub kind: LeEventKind,
    /// Le event data.
    pub data: &'a [u8],
}

impl<'a> View for LeEventPacket<'a> {
    type V = LeEventPacketView;

    open spec fn view(&self) -> LeEventPacketView {
        LeEventPacketView { kind: self.kind.0, data: self.data@ }
    }
}

impl<'de> FromHciBytes<'de> for LeEventPacket<'de> {
    /// The subevent code, then the parameters: all the bytes that follow it.
    open spec fn spec_from_hci_bytes(data: Seq<u8>) -> Result<(LeEventPacketView, nat), FromHciBytesError> {
        match LeEventKind::spec_from_hci_bytes(data) {
            Err(e) => Err(e),
            Ok((kind, n)) => Ok((LeEventPacketView { kind, data: data.skip(n as int) }, data.len())),
        }
    }

    fn from_hci_bytes(data: &'de [u8]) -> (r: Result<(LeEventPacket<'de>, &'de [u8]), FromHciBytesError>) {
        match LeEventKind::from_hci_bytes(data) {
            Err(e) => Err(e),
            Ok((kind, params)) => {
                let (_, empty) = data.split_at(data.len());
                Ok((LeEventPacket { kind, data: params }, empty))
            },
        }
    }
}

} // verus!
