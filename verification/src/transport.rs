//! Framing of host-to-controller packets for transports that share one
//! channel between all packet kinds.

use vstd::prelude::*;

use crate::{ControllerToHostPacket, ControllerToHostPacketView, FromHciBytes, FromHciBytesError, HciCodec, HostToControllerPacket, PacketKind, WriteHci};
use crate::data::{AclPacket, IsoPacket, SyncPacket};

verus! {

/// Wrapper for a [`HostToControllerPacket`] that will write the
/// [`PacketKind`] indicator byte before the packet itself when serialized
/// with [`WriteHci`].
pub struct WithIndicator<'a, T: HostToControllerPacket>(&'a T);

impl<'a, T: HostToControllerPacket> WithIndicator<'a, T> {
    /// Wrap a packet.
    pub fn new(pkt: &'a T) -> (r: Self)
        ensures
            r.packet() == pkt,
    {
        WithIndicator(pkt)
    }

    /// The wrapped packet.
    pub closed spec fn packet(&self) -> &'a T {
        self.0
    }
}

impl<'a, T: HostToControllerPacket> WriteHci for WithIndicator<'a, T> {
    closed spec fn spec_hci_bytes(&self) -> Seq<u8> {
        seq![T::spec_kind().spec_raw()] + self.0.spec_hci_bytes()
    }

    fn size(&self) -> (r: usize) {
        1 + self.0.size()
    }

    fn write_hci(&self, out: &mut Vec<u8>) {
        T::kind().write_hci(out);
        self.0.write_hci(out);
        proof {
            assert(out@ =~= old(out)@ + self.spec_hci_bytes());
        }
    }
}

impl<'a, T: HostToControllerPacket> WithIndicator<'a, T> {
    /// The bytes written are the kind byte, then the packet's own bytes.
    pub proof fn lemma_bytes(&self)
        ensures
            self.spec_hci_bytes() == seq![T::spec_kind().spec_raw()] + self.packet().spec_hci_bytes(),
    {
    }
}

/// An ACL packet written with its indicator reads back, as a packet from
/// the controller, as the same ACL packet, whatever follows it.
pub proof fn lemma_acl_with_indicator_roundtrip<'a>(w: WithIndicator<'a, AclPacket<'a>>, rest: Seq<u8>)
    requires
        w.packet().spec_encodable(),
    ensures
        ControllerToHostPacket::spec_from_hci_bytes(w.spec_hci_bytes() + rest)
            == Ok::<(ControllerToHostPacketView, nat), FromHciBytesError>(
            (ControllerToHostPacketView::Acl(w.packet()@), 1 + w.packet().spec_hci_bytes().len()),
        ),
{
    let p = w.0;
    p.lemma_write_then_read(rest);
    assert((w.spec_hci_bytes() + rest).skip(1) =~= p.spec_hci_bytes() + rest);
}

/// A synchronous packet written with its indicator reads back as the same
/// packet, whatever follows it.
pub proof fn lemma_sync_with_indicator_roundtrip<'a>(w: WithIndicator<'a, SyncPacket<'a>>, rest: Seq<u8>)
    requires
        w.packet().spec_encodable(),
    ensures
        ControllerToHostPacket::spec_from_hci_bytes(w.spec_hci_bytes() + rest)
            == Ok::<(ControllerToHostPacketView, nat), FromHciBytesError>(
            (ControllerToHostPacketView::Sync(w.packet()@), 1 + w.packet().spec_hci_bytes().len()),
        ),
{
    let p = w.0;
    p.lemma_write_then_read(rest);
    assert((w.spec_hci_bytes() + rest).skip(1) =~= p.spec_hci_bytes() + rest);
}

/// An isochronous packet written with its indicator reads back as the same
/// packet, whatever follows it.
pub proof fn lemma_iso_with_indicator_roundtrip<'a>(w: WithIndicator<'a, IsoPacket<'a>>, rest: Seq<u8>)
    requires
        w.packet().spec_encodable(),
    ensures
        ControllerToHostPacket::spec_from_hci_bytes(w.spec_hci_bytes() + rest)
            == Ok::<(ControllerToHostPacketView, nat), FromHciBytesError>(
            (ControllerToHostPacketView::Iso(w.packet()@), 1 + w.packet().spec_hci_bytes().len()),
        ),
{
    let p = w.0;
    p.lemma_write_then_read(rest);
    assert((w.spec_hci_bytes() + rest).skip(1) =~= p.spec_hci_bytes() + rest);
}

} // verus!
