//! Types for the Bluetooth HCI (Host Controller Interface): parameters,
//! commands, events and data packets, with their byte encodings.
//!
//! Every type that crosses the interface is decoded by [`FromHciBytes`] and
//! encoded by [`WriteHci`]; both are specified over byte sequences, and
//! [`HciCodec`] states that decoding what was encoded gives the value back.
#![allow(unused_imports)]

use vstd::prelude::*;

use crate::data::{AclPacket, DataPacketView, IsoPacket, IsoPacketView, SyncPacket};
use crate::event::{EventPacket, EventPacketView};

pub mod cmd;
pub mod controller;
pub mod data;
pub mod event;
pub mod param;
pub mod transport;
pub mod update_uuids;
pub mod uuid;

verus! {

/// Errors from parsing HCI data.
#[derive(Debug, Clone, Copy, PartialEq, Eq, Structural)]
pub enum FromHciBytesError {
    /// Size of input did not match valid size.
    InvalidSize,
    /// Value of input did not match valid values.
    InvalidValue,
}

/// The decoding of `data` by `spec` succeeded with value `v`, leaving `rest`
/// (a suffix of `data`).
pub open spec fn parsed<V>(
    spec: Result<(V, nat), FromHciBytesError>,
    data: Seq<u8>,
    v: V,
    rest: Seq<u8>,
) -> bool {
    &&& spec matches Ok((sv, n))
    &&& sv == v
    &&& n <= data.len()
    &&& rest == data.skip(n as int)
}

/// The decoding of `data` by `spec` failed with error `e`.
pub open spec fn failed<V>(spec: Result<(V, nat), FromHciBytesError>, e: FromHciBytesError) -> bool {
    spec matches Err(se) && se == e
}

/// Skipping `a` elements and then `b` more is skipping `a + b`.
pub proof fn lemma_skip_skip<A>(s: Seq<A>, a: int, b: int)
    requires
        0 <= a,
        0 <= b,
        a + b <= s.len(),
    ensures
        s.skip(a).skip(b) == s.skip(a + b),
{
    assert(s.skip(a).skip(b) =~= s.skip(a + b));
}

/// A HCI type that can be deserialized from bytes.
///
/// `spec_from_hci_bytes(data)` is either an error, or the decoded value (by
/// its view) together with the number of bytes it took from the front of
/// `data`.
pub trait FromHciBytes<'de>: Sized + View {
    spec fn spec_from_hci_bytes(data: Seq<u8>) -> Result<(Self::V, nat), FromHciBytesError>;

    /// Deserialize bytes into a HCI type, return additional bytes.
    fn from_hci_bytes(data: &'de [u8]) -> (r: Result<(Self, &'de [u8]), FromHciBytesError>)
        ensures
            match r {
                Ok((v, rest)) => parsed(Self::spec_from_hci_bytes(data@), data@, v@, rest@),
                Err(e) => failed(Self::spec_from_hci_bytes(data@), e),
            },
    ;

    /// Deserialize bytes into a HCI type, must consume all bytes.
    fn from_hci_bytes_complete(data: &'de [u8]) -> (r: Result<Self, FromHciBytesError>)
        ensures
            match r {
                Ok(v) => Self::spec_from_hci_bytes(data@) matches Ok((sv, n)) && sv == v@ && n
                    == data@.len(),
                Err(e) => match Self::spec_from_hci_bytes(data@) {
                    Ok((_, n)) => n != data@.len() && e == FromHciBytesError::InvalidSize,
                    Err(se) => e == se,
                },
            },
    {
        match Self::from_hci_bytes(data) {
            Ok((val, buf)) => {
                if buf.len() == 0 {
                    Ok(val)
                } else {
                    Err(FromHciBytesError::InvalidSize)
                }
            },
            Err(e) => Err(e),
        }
    }
}

/// A HCI type with a byte representation.
pub trait WriteHci {
    /// The bytes that [`WriteHci::write_hci`] appends.
    spec fn spec_hci_bytes(&self) -> Seq<u8>;

    /// The number of bytes this value will write.
    fn size(&self) -> (r: usize)
        requires
            self.spec_hci_bytes().len() <= usize::MAX,
        ensures
            r == self.spec_hci_bytes().len(),
    ;

    /// Append the byte representation of this value to `out`.
    fn write_hci(&self, out: &mut Vec<u8>)
        ensures
            final(out)@ == old(out)@ + self.spec_hci_bytes(),
    ;

    /// The byte representation of this value.
    fn to_hci_bytes(&self) -> (r: Vec<u8>)
        ensures
            r@ == self.spec_hci_bytes(),
    {
        let mut out: Vec<u8> = Vec::new();
        self.write_hci(&mut out);
        proof {
            assert(out@ =~= self.spec_hci_bytes());
        }
        out
    }
}

/// A HCI type which can be represented as bytes.
pub trait AsHciBytes: WriteHci {
    /// Get the byte representation of this type.
    fn as_hci_bytes(&self) -> (r: &[u8])
        ensures
            r@ == self.spec_hci_bytes(),
    ;
}

/// A HCI type whose byte representation always has the same length.
pub trait FixedSizeValue: WriteHci {
    /// The length of the byte representation.
    spec fn spec_size() -> nat;

    /// Every value is written as exactly [`FixedSizeValue::spec_size`] bytes.
    proof fn lemma_fixed_size(&self)
        ensures
            self.spec_hci_bytes().len() == Self::spec_size(),
    ;
}

/// A HCI type whose encoding decodes back to the same value.
pub trait HciCodec<'de>: FromHciBytes<'de> + WriteHci {
    /// The values whose encoding is faithful (for example, lengths that fit
    /// their length field).
    spec fn spec_encodable(&self) -> bool;

    /// Decoding the bytes written for `self`, followed by anything, gives
    /// `self` back and takes exactly the written bytes.
    proof fn lemma_write_then_read(&self, rest: Seq<u8>)
        requires
            self.spec_encodable(),
        ensures
            Self::spec_from_hci_bytes(self.spec_hci_bytes() + rest) == Ok::<
                (Self::V, nat),
                FromHciBytesError,
            >((self@, self.spec_hci_bytes().len())),
    ;
}

/// A packet that the host sends to the controller.
pub trait HostToControllerPacket: WriteHci {
    /// The kind of this packet.
    spec fn spec_kind() -> PacketKind;

    /// The kind of this packet.
    fn kind() -> (r: PacketKind)
        ensures
            r == Self::spec_kind(),
    ;
}

/// PacketKind.
#[derive(Debug, Clone, Copy, PartialEq, Eq, PartialOrd, Ord, Hash, Structural)]
#[allow(missing_docs)]
pub enum PacketKind {
    Cmd,
    AclData,
    SyncData,
    Event,
    IsoData,
}

impl View for PacketKind {
    type V = PacketKind;

    open spec fn view(&self) -> PacketKind {
        *self
    }
}

impl PacketKind {
    /// The byte that encodes this value.
    pub open spec fn spec_raw(self) -> u8 {
        match self {
            PacketKind::Cmd => 0x01u8,
            PacketKind::AclData => 0x02u8,
            PacketKind::SyncData => 0x03u8,
            PacketKind::Event => 0x04u8,
            PacketKind::IsoData => 0x05u8,
        }
    }

    /// The value that a byte encodes, if it encodes one.
    pub open spec fn spec_from_raw(b: u8) -> Option<PacketKind> {
        if b == 0x01u8 {
            Some(PacketKind::Cmd)
        } else if b == 0x02u8 {
            Some(PacketKind::AclData)
        } else if b == 0x03u8 {
            Some(PacketKind::SyncData)
        } else if b == 0x04u8 {
            Some(PacketKind::Event)
        } else if b == 0x05u8 {
            Some(PacketKind::IsoData)
        } else {
            None
        }
    }

    /// The byte that encodes this value.
    pub fn into_raw(self) -> (r: u8)
        ensures
            r == self.spec_raw(),
    {
        match self {
            PacketKind::Cmd => 0x01u8,
            PacketKind::AclData => 0x02u8,
            PacketKind::SyncData => 0x03u8,
            PacketKind::Event => 0x04u8,
            PacketKind::IsoData => 0x05u8,
        }
    }

    /// The byte of each value is fixed, each of those bytes decodes to its
    /// value, and no other byte decodes.
    pub proof fn lemma_codes()
        ensures
            PacketKind::Cmd.spec_raw() == 0x01u8,
            PacketKind::AclData.spec_raw() == 0x02u8,
            PacketKind::SyncData.spec_raw() == 0x03u8,
            PacketKind::Event.spec_raw() == 0x04u8,
            PacketKind::IsoData.spec_raw() == 0x05u8,
            PacketKind::spec_from_raw(0x01u8) == Some(PacketKind::Cmd),
            PacketKind::spec_from_raw(0x02u8) == Some(PacketKind::AclData),
            PacketKind::spec_from_raw(0x03u8) == Some(PacketKind::SyncData),
            PacketKind::spec_from_raw(0x04u8) == Some(PacketKind::Event),
            PacketKind::spec_from_raw(0x05u8) == Some(PacketKind::IsoData),
            forall|b: u8| b != 0x01u8 && b != 0x02u8 && b != 0x03u8 && b != 0x04u8 && b != 0x05u8 ==> (#[trigger] PacketKind::spec_from_raw(b)) is None,
            forall|v: PacketKind| (#[trigger] v.spec_hci_bytes()) == seq![v.spec_raw()],
            forall|data: Seq<u8>| data.len() >= 1 ==> (#[trigger] <PacketKind as FromHciBytes>::spec_from_hci_bytes(data)) == match PacketKind::spec_from_raw(data[0]) {
                Some(v) => Ok::<(PacketKind, nat), FromHciBytesError>((v, 1)),
                None => Err::<(PacketKind, nat), FromHciBytesError>(FromHciBytesError::InvalidValue),
            },
    {
    }

    /// The value that a byte encodes, if it encodes one.
    pub fn from_raw(b: u8) -> (r: Option<PacketKind>)
        ensures
            r == Self::spec_from_raw(b),
    {
        match b {
            0x01u8 => Some(PacketKind::Cmd),
            0x02u8 => Some(PacketKind::AclData),
            0x03u8 => Some(PacketKind::SyncData),
            0x04u8 => Some(PacketKind::Event),
            0x05u8 => Some(PacketKind::IsoData),
            _ => None,
        }
    }
}

impl<'de> FromHciBytes<'de> for PacketKind {
    open spec fn spec_from_hci_bytes(data: Seq<u8>) -> Result<(PacketKind, nat), FromHciBytesError> {
        if data.len() < 1 {
            Err(FromHciBytesError::InvalidSize)
        } else {
            match PacketKind::spec_from_raw(data[0]) {
                Some(v) => Ok((v, 1)),
                None => Err(FromHciBytesError::InvalidValue),
            }
        }
    }

    fn from_hci_bytes(data: &'de [u8]) -> (r: Result<(PacketKind, &'de [u8]), FromHciBytesError>) {
        if data.len() < 1 {
            return Err(FromHciBytesError::InvalidSize);
        }
        match PacketKind::from_raw(data[0]) {
            Some(v) => {
                let (_, rest) = data.split_at(1);
                Ok((v, rest))
            },
            None => Err(FromHciBytesError::InvalidValue),
        }
    }
}

impl WriteHci for PacketKind {
    open spec fn spec_hci_bytes(&self) -> Seq<u8> {
        seq![self.spec_raw()]
    }

    fn size(&self) -> (r: usize) {
        1
    }

    fn write_hci(&self, out: &mut Vec<u8>) {
        out.push(self.into_raw());
        proof {
            assert(final(out)@ =~= old(out)@ + self.spec_hci_bytes());
        }
    }
}

impl FixedSizeValue for PacketKind {
    open spec fn spec_size() -> nat {
        1
    }

    proof fn lemma_fixed_size(&self) {
    }
}

impl<'de> HciCodec<'de> for PacketKind {
    open spec fn spec_encodable(&self) -> bool {
        true
    }

    proof fn lemma_write_then_read(&self, rest: Seq<u8>) {
        match *self {
            PacketKind::Cmd => {},
            PacketKind::AclData => {},
            PacketKind::SyncData => {},
            PacketKind::Event => {},
            PacketKind::IsoData => {},
        }
    }
}

impl<'a> HostToControllerPacket for AclPacket<'a> {
    open spec fn spec_kind() -> PacketKind {
        PacketKind::AclData
    }

    fn kind() -> (r: PacketKind) {
        PacketKind::AclData
    }
}

impl<'a> HostToControllerPacket for SyncPacket<'a> {
    open spec fn spec_kind() -> PacketKind {
        PacketKind::SyncData
    }

    fn kind() -> (r: PacketKind) {
        PacketKind::SyncData
    }
}

impl<'a> HostToControllerPacket for IsoPacket<'a> {
    open spec fn spec_kind() -> PacketKind {
        PacketKind::IsoData
    }

    fn kind() -> (r: PacketKind) {
        PacketKind::IsoData
    }
}

impl<T: cmd::Cmd> HostToControllerPacket for T {
    open spec fn spec_kind() -> PacketKind {
        PacketKind::Cmd
    }

    fn kind() -> (r: PacketKind) {
        PacketKind::Cmd
    }
}

/// A packet that the controller sends to the host.
#[derive(Debug)]
pub enum ControllerToHostPacket<'a> {
    /// An ACL data packet.
    Acl(AclPacket<'a>),
    /// A synchronous data packet.
    Sync(SyncPacket<'a>),
    /// An event packet.
    Event(EventPacket<'a>),
    /// An isochronous data packet.
    Iso(IsoPacket<'a>),
}

/// The value of a packet from the controller.
pub enum ControllerToHostPacketView {
    Acl(DataPacketView),
    Sync(DataPacketView),
    Event(EventPacketView),
    Iso(IsoPacketView),
}

impl<'a> View for ControllerToHostPacket<'a> {
    type V = ControllerToHostPacketView;

    open spec fn view(&self) -> ControllerToHostPacketView {
        match self {
            ControllerToHostPacket::Acl(p) => ControllerToHostPacketView::Acl(p@),
            ControllerToHostPacket::Sync(p) => ControllerToHostPacketView::Sync(p@),
            ControllerToHostPacket::Event(p) => ControllerToHostPacketView::Event(p@),
            ControllerToHostPacket::Iso(p) => ControllerToHostPacketView::Iso(p@),
        }
    }
}

impl ControllerToHostPacketView {
    /// The kind of this packet.
    pub open spec fn kind(self) -> PacketKind {
        match self {
            ControllerToHostPacketView::Acl(_) => PacketKind::AclData,
            ControllerToHostPacketView::Sync(_) => PacketKind::SyncData,
            ControllerToHostPacketView::Event(_) => PacketKind::Event,
            ControllerToHostPacketView::Iso(_) => PacketKind::IsoData,
        }
    }
}

/// A packet of kind `kind` decoded from the front of `data`: commands do
/// not come from the controller and are refused with `InvalidValue`.
pub open spec fn spec_packet_with_kind(kind: PacketKind, data: Seq<u8>) -> Result<(ControllerToHostPacketView, nat), FromHciBytesError> {
    match kind {
        PacketKind::Cmd => Err(FromHciBytesError::InvalidValue),
        PacketKind::AclData => match AclPacket::spec_from_hci_bytes(data) {
            Ok((p, n)) => Ok((ControllerToHostPacketView::Acl(p), n)),
            Err(e) => Err(e),
        },
        PacketKind::SyncData => match SyncPacket::spec_from_hci_bytes(data) {
            Ok((p, n)) => Ok((ControllerToHostPacketView::Sync(p), n)),
            Err(e) => Err(e),
        },
        PacketKind::Event => match EventPacket::spec_from_hci_bytes(data) {
            Ok((p, n)) => Ok((ControllerToHostPacketView::Event(p), n)),
            Err(e) => Err(e),
        },
        PacketKind::IsoData => match IsoPacket::spec_from_hci_bytes(data) {
            Ok((p, n)) => Ok((ControllerToHostPacketView::Iso(p), n)),
            Err(e) => Err(e),
        },
    }
}

impl<'a> ControllerToHostPacket<'a> {
    /// The kind of this packet.
    pub fn kind(&self) -> (r: PacketKind)
        ensures
            r == self@.kind(),
    {
        match self {
            ControllerToHostPacket::Acl(_) => PacketKind::AclData,
            ControllerToHostPacket::Sync(_) => PacketKind::SyncData,
            ControllerToHostPacket::Event(_) => PacketKind::Event,
            ControllerToHostPacket::Iso(_) => PacketKind::IsoData,
        }
    }

    /// Decode a packet of kind `kind` from the front of `data`. A decoded
    /// packet has the kind it was decoded as.
    pub fn from_hci_bytes_with_kind(kind: PacketKind, data: &'a [u8]) -> (r: Result<(ControllerToHostPacket<'a>, &'a [u8]), FromHciBytesError>)
        ensures
            match r {
                Ok((p, rest)) => parsed(spec_packet_with_kind(kind, data@), data@, p@, rest@) && p@.kind() == kind,
                Err(e) => failed(spec_packet_with_kind(kind, data@), e),
            },
    {
        match kind {
            PacketKind::Cmd => Err(FromHciBytesError::InvalidValue),
            PacketKind::AclData => match AclPacket::from_hci_bytes(data) {
                Ok((x, y)) => Ok((ControllerToHostPacket::Acl(x), y)),
                Err(e) => Err(e),
            },
            PacketKind::SyncData => match SyncPacket::from_hci_bytes(data) {
                Ok((x, y)) => Ok((ControllerToHostPacket::Sync(x), y)),
                Err(e) => Err(e),
            },
            PacketKind::Event => match EventPacket::from_hci_bytes(data) {
                Ok((x, y)) => Ok((ControllerToHostPacket::Event(x), y)),
                Err(e) => Err(e),
            },
            PacketKind::IsoData => match IsoPacket::from_hci_bytes(data) {
                Ok((x, y)) => Ok((ControllerToHostPacket::Iso(x), y)),
                Err(e) => Err(e),
            },
        }
    }
}

impl<'de> FromHciBytes<'de> for ControllerToHostPacket<'de> {
    /// The packet indicator byte, then the packet of that kind.
    open spec fn spec_from_hci_bytes(data: Seq<u8>) -> Result<(ControllerToHostPacketView, nat), FromHciBytesError> {
        match PacketKind::spec_from_hci_bytes(data) {
            Err(e) => Err(e),
            Ok((k, n)) => match spec_packet_with_kind(k, data.skip(n as int)) {
                Err(e) => Err(e),
                Ok((p, m)) => Ok((p, n + m)),
            },
        }
    }

    fn from_hci_bytes(data: &'de [u8]) -> (r: Result<(ControllerToHostPacket<'de>, &'de [u8]), FromHciBytesError>) {
        let (kind, rest) = match PacketKind::from_hci_bytes(data) {
            Ok(x) => x,
            Err(e) => return Err(e),
        };
        let r = ControllerToHostPacket::from_hci_bytes_with_kind(kind, rest);
        proof {
            if let Ok((_, rest2)) = &r {
                lemma_skip_skip(data@, 1, (rest@.len() - rest2@.len()) as int);
            }
        }
        r
    }
}

} // verus!
