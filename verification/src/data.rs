//! HCI data packets: ACL, synchronous and isochronous.

use vstd::prelude::*;

use crate::{FixedSizeValue, FromHciBytes, FromHciBytesError, HciCodec, WriteHci, parsed, failed, lemma_skip_skip};
use crate::param::ConnHandle;
use crate::param::primitives::{spec_u16_le_bytes, spec_u32_le_bytes, spec_le_u16, lemma_u16_le_roundtrip, lemma_u32_le_roundtrip, write_u16_le};

verus! {

/// The connection handle bits of a packet's first 16-bit field.
pub open spec fn spec_handle_bits(h: u16) -> u16 {
    h % 4096
}

/// The two bits after the connection handle.
pub open spec fn spec_flag_bits_12(h: u16) -> u16 {
    (h / 4096) % 4
}

/// The two highest bits.
pub open spec fn spec_flag_bits_14(h: u16) -> u16 {
    (h / 16384) % 4
}

/// A connection handle below 4096 with two 2-bit flags above it reads back
/// as the same handle and flags.
pub proof fn lemma_handle_fields(h: u16, f12: u16, f14: u16)
    requires
        h < 4096,
        f12 < 4,
        f14 < 4,
    ensures
        spec_handle_bits(h | (f12 << 12u16) | (f14 << 14u16)) == h,
        spec_flag_bits_12(h | (f12 << 12u16) | (f14 << 14u16)) == f12,
        spec_flag_bits_14(h | (f12 << 12u16) | (f14 << 14u16)) == f14,
{
    assert((h | (f12 << 12u16) | (f14 << 14u16)) % 4096 == h) by (bit_vector)
        requires
            h < 4096,
            f12 < 4,
            f14 < 4,
    ;
    assert(((h | (f12 << 12u16) | (f14 << 14u16)) / 4096) % 4 == f12) by (bit_vector)
        requires
            h < 4096,
            f12 < 4,
            f14 < 4,
    ;
    assert(((h | (f12 << 12u16) | (f14 << 14u16)) / 16384) % 4 == f14) by (bit_vector)
        requires
            h < 4096,
            f12 < 4,
            f14 < 4,
    ;
}

/// The flag codes of the data packets, as the HCI specification fixes
/// them, and where they sit in the 16-bit handle field: the connection
/// handle in bits 0-11, the boundary flag in bits 12-13 and the broadcast
/// (or status) flag in bits 14-15.
pub proof fn lemma_packet_flag_codes(h: u16)
    ensures
        AclPacketBoundary::FirstNonFlushable.spec_raw() == 0,
        AclPacketBoundary::Continuing.spec_raw() == 1,
        AclPacketBoundary::FirstFlushable.spec_raw() == 2,
        AclPacketBoundary::Complete.spec_raw() == 3,
        AclPacketBoundary::spec_from_bits(0) == AclPacketBoundary::FirstNonFlushable,
        AclPacketBoundary::spec_from_bits(1) == AclPacketBoundary::Continuing,
        AclPacketBoundary::spec_from_bits(2) == AclPacketBoundary::FirstFlushable,
        AclPacketBoundary::spec_from_bits(3) == AclPacketBoundary::Complete,
        AclBroadcastFlag::PointToPoint.spec_raw() == 0,
        AclBroadcastFlag::BrEdrBroadcast.spec_raw() == 1,
        AclBroadcastFlag::Reserved.spec_raw() == 2,
        AclBroadcastFlag::spec_from_bits(0) == AclBroadcastFlag::PointToPoint,
        AclBroadcastFlag::spec_from_bits(1) == AclBroadcastFlag::BrEdrBroadcast,
        AclBroadcastFlag::spec_from_bits(2) == AclBroadcastFlag::Reserved,
        AclBroadcastFlag::spec_from_bits(3) == AclBroadcastFlag::Reserved,
        SyncPacketStatus::spec_from_bits(0) == SyncPacketStatus::Correct,
        SyncPacketStatus::spec_from_bits(1) == SyncPacketStatus::PossiblyInvalid,
        SyncPacketStatus::spec_from_bits(2) == SyncPacketStatus::NoData,
        SyncPacketStatus::spec_from_bits(3) == SyncPacketStatus::PartiallyLost,
        IsoPacketBoundary::spec_from_bits(0) == IsoPacketBoundary::FirstFragment,
        IsoPacketBoundary::spec_from_bits(1) == IsoPacketBoundary::ContinuationFragment,
        IsoPacketBoundary::spec_from_bits(2) == IsoPacketBoundary::Complete,
        IsoPacketBoundary::spec_from_bits(3) == IsoPacketBoundary::LastFragment,
        spec_handle_bits(h) == h & 0x0fff,
        spec_flag_bits_12(h) == (h >> 12u16) & 3,
        spec_flag_bits_14(h) == h >> 14u16,
{
    assert(h % 4096 == h & 0x0fff) by (bit_vector);
    assert((h / 4096) % 4 == (h >> 12u16) & 3) by (bit_vector);
    assert((h / 16384) % 4 == h >> 14u16) by (bit_vector);
}

/// HCI ACL Data packet `Packet_Boundary_Flag`.
#[derive(Debug, Clone, Copy, PartialEq, Eq, PartialOrd, Ord, Hash, Structural)]
pub enum AclPacketBoundary {
    /// First non-automatically-flushable packet of a higher layer message (start of a non-automatically-flushable
    /// L2CAP PDU) from Host to Controller.
    FirstNonFlushable,
    /// Continuing fragment of a higher layer message
    Continuing,
    /// First automatically flushable packet of a higher layer message (start of an automatically-flushable L2CAP PDU).
    FirstFlushable,
    /// A complete L2CAP PDU. Automatically flushable.
    Complete,
}

impl AclPacketBoundary {
    /// The two-bit code of this flag.
    pub open spec fn spec_raw(self) -> u16 {
        match self {
            AclPacketBoundary::FirstNonFlushable => 0,
            AclPacketBoundary::Continuing => 1,
            AclPacketBoundary::FirstFlushable => 2,
            AclPacketBoundary::Complete => 3,
        }
    }

    /// The flag a two-bit code stands for.
    pub open spec fn spec_from_bits(b: u16) -> AclPacketBoundary {
        if b == 0 {
            AclPacketBoundary::FirstNonFlushable
        } else if b == 1 {
            AclPacketBoundary::Continuing
        } else if b == 2 {
            AclPacketBoundary::FirstFlushable
        } else {
            AclPacketBoundary::Complete
        }
    }

    /// The two-bit code of this flag.
    pub fn into_raw(self) -> (r: u16)
        ensures
            r == self.spec_raw(),
    {
        match self {
            AclPacketBoundary::FirstNonFlushable => 0,
            AclPacketBoundary::Continuing => 1,
            AclPacketBoundary::FirstFlushable => 2,
            AclPacketBoundary::Complete => 3,
        }
    }

    fn from_bits(b: u16) -> (r: AclPacketBoundary)
        ensures
            r == Self::spec_from_bits(b),
    {
        match b {
            0 => AclPacketBoundary::FirstNonFlushable,
            1 => AclPacketBoundary::Continuing,
            2 => AclPacketBoundary::FirstFlushable,
            _ => AclPacketBoundary::Complete,
        }
    }
}

/// HCI ACL Data packet `Broadcast_Flag`.
#[derive(Debug, Clone, Copy, PartialEq, Eq, PartialOrd, Ord, Hash, Structural)]
pub enum AclBroadcastFlag {
    /// Point-to-point (ACL-U or LE-U)
    PointToPoint,
    /// BR/EDR broadcast (APB-U)
    BrEdrBroadcast,
    /// Reserved for future use.
    Reserved,
}

impl AclBroadcastFlag {
    /// The two-bit code of this flag.
    pub open spec fn spec_raw(self) -> u16 {
        match self {
            AclBroadcastFlag::PointToPoint => 0,
            AclBroadcastFlag::BrEdrBroadcast => 1,
            AclBroadcastFlag::Reserved => 2,
        }
    }

    /// The flag a two-bit code stands for (both reserved codes give `Reserved`).
    pub open spec fn spec_from_bits(b: u16) -> AclBroadcastFlag {
        if b == 0 {
            AclBroadcastFlag::PointToPoint
        } else if b == 1 {
            AclBroadcastFlag::BrEdrBroadcast
        } else {
            AclBroadcastFlag::Reserved
        }
    }

    /// The two-bit code of this flag.
    pub fn into_raw(self) -> (r: u16)
        ensures
            r == self.spec_raw(),
    {
        match self {
            AclBroadcastFlag::PointToPoint => 0,
            AclBroadcastFlag::BrEdrBroadcast => 1,
            AclBroadcastFlag::Reserved => 2,
        }
    }

    fn from_bits(b: u16) -> (r: AclBroadcastFlag)
        ensures
            r == Self::spec_from_bits(b),
    {
        match b {
            0 => AclBroadcastFlag::PointToPoint,
            1 => AclBroadcastFlag::BrEdrBroadcast,
            _ => AclBroadcastFlag::Reserved,
        }
    }
}

/// AclPacketHeader parameter
#[derive(Debug, Clone, Copy, PartialEq, Eq, PartialOrd, Ord, Hash)]
#[allow(missing_docs)]
pub struct AclPacketHeader {
    pub handle: u16,
    pub data_len: u16,
}

/// The value of a [`AclPacketHeader`], with byte slices taken as sequences.
#[allow(missing_docs)]
pub struct AclPacketHeaderView {
    pub handle: u16,
    pub data_len: u16,
}

impl View for AclPacketHeader {
    type V = AclPacketHeaderView;

    open spec fn view(&self) -> AclPacketHeaderView {
        AclPacketHeaderView { handle: self.handle@, data_len: self.data_len@ }
    }
}

impl<'de> FromHciBytes<'de> for AclPacketHeader {
    open spec fn spec_from_hci_bytes(data: Seq<u8>) -> Result<(AclPacketHeaderView, nat), FromHciBytesError> {
        if data.len() < 4 {
            Err(FromHciBytesError::InvalidSize)
        } else {
            match <u16 as FromHciBytes<'de>>::spec_from_hci_bytes(data) {
                Err(e) => Err(e),
                Ok((v_handle, n_handle)) => {
                    match <u16 as FromHciBytes<'de>>::spec_from_hci_bytes(data.skip(n_handle as int)) {
                        Err(e) => Err(e),
                        Ok((v_data_len, n_data_len)) => {
                            Ok((AclPacketHeaderView { handle: v_handle, data_len: v_data_len }, (n_handle + n_data_len) as nat))
                        },
                    }
                },
            }
        }
    }

    fn from_hci_bytes(data: &'de [u8]) -> (r: Result<(AclPacketHeader, &'de [u8]), FromHciBytesError>) {
        if data.len() < 4 {
            return Err(FromHciBytesError::InvalidSize);
        }
        let (v_handle, rest_handle) = match <u16 as FromHciBytes<'de>>::from_hci_bytes(data) {
            Ok(x) => x,
            Err(e) => return Err(e),
        };
        let (v_data_len, rest_data_len) = match <u16 as FromHciBytes<'de>>::from_hci_bytes(rest_handle) {
            Ok(x) => x,
            Err(e) => return Err(e),
        };
        proof {
            lemma_skip_skip(data@, (data@.len() - rest_handle@.len()) as int, (rest_handle@.len() - rest_data_len@.len()) as int);
        }
        Ok((AclPacketHeader { handle: v_handle, data_len: v_data_len }, rest_data_len))
    }
}

impl WriteHci for AclPacketHeader {
    open spec fn spec_hci_bytes(&self) -> Seq<u8> {
        self.handle.spec_hci_bytes() + self.data_len.spec_hci_bytes()
    }

    fn size(&self) -> (r: usize) {
        let mut n = self.handle.size();
        proof {
            assert(self.handle.spec_hci_bytes() + self.data_len.spec_hci_bytes() =~= (self.handle.spec_hci_bytes() + self.data_len.spec_hci_bytes()));
        }
        n = n + self.data_len.size();
        n
    }

    fn write_hci(&self, out: &mut Vec<u8>) {
        self.handle.write_hci(out);
        self.data_len.write_hci(out);
        proof {
            assert(out@ =~= old(out)@ + self.spec_hci_bytes());
        }
    }
}

impl AclPacketHeader {
    /// The bytes of a `AclPacketHeader` are the bytes of its fields, one after the
    /// other, in the order in which the fields are declared.
    pub proof fn lemma_fields_in_order(&self)
        ensures
            self.spec_hci_bytes() == self.handle.spec_hci_bytes() + self.data_len.spec_hci_bytes(),
    {
    }
}

impl FixedSizeValue for AclPacketHeader {
    open spec fn spec_size() -> nat {
        4
    }

    proof fn lemma_fixed_size(&self) {
        self.handle.lemma_fixed_size();
        self.data_len.lemma_fixed_size();
    }
}

impl<'de> HciCodec<'de> for AclPacketHeader {
    open spec fn spec_encodable(&self) -> bool {
        self.handle.spec_encodable() && self.data_len.spec_encodable()
    }

    proof fn lemma_write_then_read(&self, rest: Seq<u8>) {
        self.handle.lemma_fixed_size();
        self.data_len.lemma_fixed_size();
        let t_data_len = self.data_len.spec_hci_bytes() + rest;
        let t_handle = self.handle.spec_hci_bytes() + t_data_len;
        assert(self.spec_hci_bytes() + rest =~= t_handle);
        self.handle.lemma_write_then_read(t_data_len);
        self.data_len.lemma_write_then_read(rest);
        assert(t_handle.skip(self.handle.spec_hci_bytes().len() as int) =~= t_data_len);
    }
}

impl AclPacketHeader {
    /// `Connection_Handle` to be used for transmitting a data packet or segment over a Controller.
    pub fn handle(&self) -> (r: ConnHandle)
        requires
            spec_handle_bits(self.handle) <= 0xeff,
        ensures
            r@ == spec_handle_bits(self.handle),
    {
        ConnHandle::new(self.handle % 4096)
    }

    /// The `Packet_Boundary_Flag` of the packet
    pub fn boundary_flag(&self) -> (r: AclPacketBoundary)
        ensures
            r == AclPacketBoundary::spec_from_bits(spec_flag_bits_12(self.handle)),
    {
        AclPacketBoundary::from_bits((self.handle / 4096) % 4)
    }

    /// The `Broadcast_Flag` of the packet
    pub fn broadcast_flag(&self) -> (r: AclBroadcastFlag)
        ensures
            r == AclBroadcastFlag::spec_from_bits(spec_flag_bits_14(self.handle)),
    {
        AclBroadcastFlag::from_bits((self.handle / 16384) % 4)
    }

    /// The length of the data field of the packet
    pub fn data_len(&self) -> (r: usize)
        ensures
            r == self.data_len,
    {
        self.data_len as usize
    }
}

/// The value of a data packet: its first 16-bit field and its data.
pub struct DataPacketView {
    pub handle: u16,
    pub data: Seq<u8>,
}

/// HCI ACL Data Packet.
#[derive(Debug, Clone, Copy, PartialEq, Eq, PartialOrd, Ord, Hash)]
pub struct AclPacket<'a> {
    handle: u16,
    data: &'a [u8],
}

impl<'a> View for AclPacket<'a> {
    type V = DataPacketView;

    closed spec fn view(&self) -> DataPacketView {
        DataPacketView { handle: self.handle, data: self.data@ }
    }
}

/// A packet's data taken from the front of `data` by the length its header
/// gives: the packet and what follows it, or `InvalidSize` when `data` is
/// too short.
pub open spec fn spec_from_header(handle: u16, len: nat, data: Seq<u8>) -> Result<(DataPacketView, nat), FromHciBytesError> {
    if data.len() < len {
        Err(FromHciBytesError::InvalidSize)
    } else {
        Ok((DataPacketView { handle, data: data.take(len as int) }, len))
    }
}

impl<'a> AclPacket<'a> {
    /// Create a new instance.
    pub fn new(handle: ConnHandle, pbf: AclPacketBoundary, bf: AclBroadcastFlag, data: &'a [u8]) -> (r: Self)
        ensures
            r@.handle == handle@ | (pbf.spec_raw() << 12u16) | (bf.spec_raw() << 14u16),
            r@.data == data@,
    {
        let handle: u16 = handle.into_inner() | (pbf.into_raw() << 12u16) | (bf.into_raw() << 14u16);
        AclPacket { handle, data }
    }

    /// Create an `AclPacket` from `header` and `data`
    pub fn from_header_hci_bytes(header: AclPacketHeader, data: &'a [u8]) -> (r: Result<(Self, &'a [u8]), FromHciBytesError>)
        ensures
            match r {
                Ok((p, rest)) => parsed(spec_from_header(header.handle, header.data_len as nat, data@), data@, p@, rest@),
                Err(e) => failed(spec_from_header(header.handle, header.data_len as nat, data@), e),
            },
    {
        let data_len = header.data_len as usize;
        if data.len() < data_len {
            Err(FromHciBytesError::InvalidSize)
        } else {
            let (data, rest) = data.split_at(data_len);
            Ok((AclPacket { handle: header.handle, data }, rest))
        }
    }

    /// `Connection_Handle` to be used for transmitting a data packet or segment over a Controller.
    pub fn handle(&self) -> (r: ConnHandle)
        requires
            spec_handle_bits(self@.handle) <= 0xeff,
        ensures
            r@ == spec_handle_bits(self@.handle),
    {
        ConnHandle::new(self.handle % 4096)
    }

    /// The `Packet_Boundary_Flag` of the packet
    pub fn boundary_flag(&self) -> (r: AclPacketBoundary)
        ensures
            r == AclPacketBoundary::spec_from_bits(spec_flag_bits_12(self@.handle)),
    {
        AclPacketBoundary::from_bits((self.handle / 4096) % 4)
    }

    /// The `Broadcast_Flag` of the packet
    pub fn broadcast_flag(&self) -> (r: AclBroadcastFlag)
        ensures
            r == AclBroadcastFlag::spec_from_bits(spec_flag_bits_14(self@.handle)),
    {
        AclBroadcastFlag::from_bits((self.handle / 16384) % 4)
    }

    /// The data of the packet
    pub fn data(&self) -> (r: &'a [u8])
        ensures
            r@ == self@.data,
    {
        self.data
    }
}

/// A packet built from a handle below 0xf00, flags and data reads back the
/// same handle, flags and data.
pub proof fn lemma_acl_packet_new(handle: ConnHandle, pbf: AclPacketBoundary, bf: AclBroadcastFlag, p: DataPacketView)
    requires
        handle@ <= 0xeff,
        p.handle == handle@ | (pbf.spec_raw() << 12u16) | (bf.spec_raw() << 14u16),
    ensures
        spec_handle_bits(p.handle) == handle@,
        AclPacketBoundary::spec_from_bits(spec_flag_bits_12(p.handle)) == pbf,
        AclBroadcastFlag::spec_from_bits(spec_flag_bits_14(p.handle)) == bf,
{
    lemma_handle_fields(handle@, pbf.spec_raw(), bf.spec_raw());
}

impl<'de> FromHciBytes<'de> for AclPacket<'de> {
    open spec fn spec_from_hci_bytes(data: Seq<u8>) -> Result<(DataPacketView, nat), FromHciBytesError> {
        match AclPacketHeader::spec_from_hci_bytes(data) {
            Err(e) => Err(e),
            Ok((h, n)) => match spec_from_header(h.handle, h.data_len as nat, data.skip(n as int)) {
                Err(e) => Err(e),
                Ok((p, m)) => Ok((p, n + m)),
            },
        }
    }

    fn from_hci_bytes(data: &'de [u8]) -> (r: Result<(AclPacket<'de>, &'de [u8]), FromHciBytesError>) {
        let (header, rest) = match AclPacketHeader::from_hci_bytes(data) {
            Ok(x) => x,
            Err(e) => return Err(e),
        };
        let r = AclPacket::from_header_hci_bytes(header, rest);
        proof {
            if let Ok((p, rest2)) = r {
                lemma_skip_skip(data@, (data@.len() - rest@.len()) as int, (rest@.len() - rest2@.len()) as int);
            }
        }
        r
    }
}

impl<'a> WriteHci for AclPacket<'a> {
    open spec fn spec_hci_bytes(&self) -> Seq<u8> {
        spec_u16_le_bytes(self@.handle) + spec_u16_le_bytes((self@.data.len() % 65536) as u16) + self@.data
    }

    fn size(&self) -> (r: usize) {
        4 + self.data.len()
    }

    fn write_hci(&self, out: &mut Vec<u8>) {
        let header = AclPacketHeader { handle: self.handle, data_len: (self.data.len() % 65536) as u16 };
        header.write_hci(out);
        write_bytes(self.data, out);
        proof {
            assert(out@ =~= old(out)@ + self.spec_hci_bytes());
        }
    }
}

impl<'de> HciCodec<'de> for AclPacket<'de> {
    open spec fn spec_encodable(&self) -> bool {
        self@.data.len() <= 65535
    }

    proof fn lemma_write_then_read(&self, rest: Seq<u8>) {
        let h = AclPacketHeader { handle: self.handle, data_len: (self.data@.len() % 65536) as u16 };
        h.lemma_write_then_read(self.data@ + rest);
        assert(self.spec_hci_bytes() + rest =~= h.spec_hci_bytes() + (self.data@ + rest));
        h.lemma_fixed_size();
        assert((self.spec_hci_bytes() + rest).skip(4) =~= self.data@ + rest);
        assert((self.data@ + rest).take(self.data@.len() as int) =~= self.data@);
    }
}

/// Append all of `s`.
pub fn write_bytes(s: &[u8], out: &mut Vec<u8>)
    ensures
        final(out)@ == old(out)@ + s@,
{
    let ghost start = out@;
    let mut i: usize = 0;
    while i < s.len()
        invariant
            i <= s@.len(),
            out@ == start + s@.take(i as int),
        decreases s@.len() - i,
    {
        out.push(s[i]);
        i = i + 1;
        proof {
            assert(out@ =~= start + s@.take(i as int));
        }
    }
    proof {
        assert(s@.take(s@.len() as int) =~= s@);
    }
}

/// HCI Synchronous Data packet `Packet_Status_Flag`.
#[derive(Debug, Clone, Copy, PartialEq, Eq, PartialOrd, Ord, Hash, Structural)]
pub enum SyncPacketStatus {
    /// Correctly received data.
    Correct,
    /// Possibly invalid data.
    PossiblyInvalid,
    /// No data received.
    NoData,
    /// Data partially lost.
    PartiallyLost,
}

impl SyncPacketStatus {
    /// The status a two-bit code stands for.
    pub open spec fn spec_from_bits(b: u16) -> SyncPacketStatus {
        if b == 0 {
            SyncPacketStatus::Correct
        } else if b == 1 {
            SyncPacketStatus::PossiblyInvalid
        } else if b == 2 {
            SyncPacketStatus::NoData
        } else {
            SyncPacketStatus::PartiallyLost
        }
    }

    fn from_bits(b: u16) -> (r: SyncPacketStatus)
        ensures
            r == Self::spec_from_bits(b),
    {
        match b {
            0 => SyncPacketStatus::Correct,
            1 => SyncPacketStatus::PossiblyInvalid,
            2 => SyncPacketStatus::NoData,
            _ => SyncPacketStatus::PartiallyLost,
        }
    }
}

/// SyncPacketHeader parameter
#[derive(Debug, Clone, Copy, PartialEq, Eq, PartialOrd, Ord, Hash)]
#[allow(missing_docs)]
pub struct SyncPacketHeader {
    pub handle: u16,
    pub data_len: u8,
}

/// The value of a [`SyncPacketHeader`], with byte slices taken as sequences.
#[allow(missing_docs)]
pub struct SyncPacketHeaderView {
    pub handle: u16,
    pub data_len: u8,
}

impl View for SyncPacketHeader {
    type V = SyncPacketHeaderView;

    open spec fn view(&self) -> SyncPacketHeaderView {
        SyncPacketHeaderView { handle: self.handle@, data_len: self.data_len@ }
    }
}

impl<'de> FromHciBytes<'de> for SyncPacketHeader {
    open spec fn spec_from_hci_bytes(data: Seq<u8>) -> Result<(SyncPacketHeaderView, nat), FromHciBytesError> {
        if data.len() < 3 {
            Err(FromHciBytesError::InvalidSize)
        } else {
            match <u16 as FromHciBytes<'de>>::spec_from_hci_bytes(data) {
                Err(e) => Err(e),
                Ok((v_handle, n_handle)) => {
                    match <u8 as FromHciBytes<'de>>::spec_from_hci_bytes(data.skip(n_handle as int)) {
                        Err(e) => Err(e),
                        Ok((v_data_len, n_data_len)) => {
                            Ok((SyncPacketHeaderView { handle: v_handle, data_len: v_data_len }, (n_handle + n_data_len) as nat))
                        },
                    }
                },
            }
        }
    }

    fn from_hci_bytes(data: &'de [u8]) -> (r: Result<(SyncPacketHeader, &'de [u8]), FromHciBytesError>) {
        if data.len() < 3 {
            return Err(FromHciBytesError::InvalidSize);
        }
        let (v_handle, rest_handle) = match <u16 as FromHciBytes<'de>>::from_hci_bytes(data) {
            Ok(x) => x,
            Err(e) => return Err(e),
        };
        let (v_data_len, rest_data_len) = match <u8 as FromHciBytes<'de>>::from_hci_bytes(rest_handle) {
            Ok(x) => x,
            Err(e) => return Err(e),
        };
        proof {
            lemma_skip_skip(data@, (data@.len() - rest_handle@.len()) as int, (rest_handle@.len() - rest_data_len@.len()) as int);
        }
        Ok((SyncPacketHeader { handle: v_handle, data_len: v_data_len }, rest_data_len))
    }
}

impl WriteHci for SyncPacketHeader {
    open spec fn spec_hci_bytes(&self) -> Seq<u8> {
        self.handle.spec_hci_bytes() + self.data_len.spec_hci_bytes()
    }

    fn size(&self) -> (r: usize) {
        let mut n = self.handle.size();
        proof {
            assert(self.handle.spec_hci_bytes() + self.data_len.spec_hci_bytes() =~= (self.handle.spec_hci_bytes() + self.data_len.spec_hci_bytes()));
        }
        n = n + self.data_len.size();
        n
    }

    fn write_hci(&self, out: &mut Vec<u8>) {
        self.handle.write_hci(out);
        self.data_len.write_hci(out);
        proof {
            assert(out@ =~= old(out)@ + self.spec_hci_bytes());
        }
    }
}

impl SyncPacketHeader {
    /// The bytes of a `SyncPacketHeader` are the bytes of its fields, one after the
    /// other, in the order in which the fields are declared.
    pub proof fn lemma_fields_in_order(&self)
        ensures
            self.spec_hci_bytes() == self.handle.spec_hci_bytes() + self.data_len.spec_hci_bytes(),
    {
    }
}

impl FixedSizeValue for SyncPacketHeader {
    open spec fn spec_size() -> nat {
        3
    }

    proof fn lemma_fixed_size(&self) {
        self.handle.lemma_fixed_size();
        self.data_len.lemma_fixed_size();
    }
}

impl<'de> HciCodec<'de> for SyncPacketHeader {
    open spec fn spec_encodable(&self) -> bool {
        self.handle.spec_encodable() && self.data_len.spec_encodable()
    }

    proof fn lemma_write_then_read(&self, rest: Seq<u8>) {
        self.handle.lemma_fixed_size();
        self.data_len.lemma_fixed_size();
        let t_data_len = self.data_len.spec_hci_bytes() + rest;
        let t_handle = self.handle.spec_hci_bytes() + t_data_len;
        assert(self.spec_hci_bytes() + rest =~= t_handle);
        self.handle.lemma_write_then_read(t_data_len);
        self.data_len.lemma_write_then_read(rest);
        assert(t_handle.skip(self.handle.spec_hci_bytes().len() as int) =~= t_data_len);
    }
}

impl SyncPacketHeader {
    /// `Connection_Handle` to be used to for transmitting a synchronous data packet or segment.
    pub fn handle(&self) -> (r: ConnHandle)
        requires
            spec_handle_bits(self.handle) <= 0xeff,
        ensures
            r@ == spec_handle_bits(self.handle),
    {
        ConnHandle::new(self.handle % 4096)
    }

    /// The `Packet_Status_Flag` of the packet
    pub fn status(&self) -> (r: SyncPacketStatus)
        ensures
            r == SyncPacketStatus::spec_from_bits(spec_flag_bits_12(self.handle)),
    {
        SyncPacketStatus::from_bits((self.handle / 4096) % 4)
    }

    /// The length of the data field of the packet
    pub fn data_len(&self) -> (r: usize)
        ensures
            r == self.data_len,
    {
        self.data_len as usize
    }
}

/// HCI Synchronous Data packet.
#[derive(Debug, Clone, Copy, PartialEq, Eq, PartialOrd, Ord, Hash)]
pub struct SyncPacket<'a> {
    handle: u16,
    data: &'a [u8],
}

impl<'a> View for SyncPacket<'a> {
    type V = DataPacketView;

    closed spec fn view(&self) -> DataPacketView {
        DataPacketView { handle: self.handle, data: self.data@ }
    }
}

impl<'a> SyncPacket<'a> {
    /// Create a `SyncPacket` from `header` and `data`
    pub fn from_header_hci_bytes(header: SyncPacketHeader, data: &'a [u8]) -> (r: Result<(Self, &'a [u8]), FromHciBytesError>)
        ensures
            match r {
                Ok((p, rest)) => parsed(spec_from_header(header.handle, header.data_len as nat, data@), data@, p@, rest@),
                Err(e) => failed(spec_from_header(header.handle, header.data_len as nat, data@), e),
            },
    {
        let data_len = header.data_len as usize;
        if data.len() < data_len {
            Err(FromHciBytesError::InvalidSize)
        } else {
            let (data, rest) = data.split_at(data_len);
            Ok((SyncPacket { handle: header.handle, data }, rest))
        }
    }

    /// `Connection_Handle` to be used to for transmitting a synchronous data packet or segment.
    pub fn handle(&self) -> (r: ConnHandle)
        requires
            spec_handle_bits(self@.handle) <= 0xeff,
        ensures
            r@ == spec_handle_bits(self@.handle),
    {
        ConnHandle::new(self.handle % 4096)
    }

    /// The `Packet_Status_Flag` of the packet
    pub fn status(&self) -> (r: SyncPacketStatus)
        ensures
            r == SyncPacketStatus::spec_from_bits(spec_flag_bits_12(self@.handle)),
    {
        SyncPacketStatus::from_bits((self.handle / 4096) % 4)
    }

    /// The data of the packet
    pub fn data(&self) -> (r: &'a [u8])
        ensures
            r@ == self@.data,
    {
        self.data
    }
}

impl<'de> FromHciBytes<'de> for SyncPacket<'de> {
    open spec fn spec_from_hci_bytes(data: Seq<u8>) -> Result<(DataPacketView, nat), FromHciBytesError> {
        match SyncPacketHeader::spec_from_hci_bytes(data) {
            Err(e) => Err(e),
            Ok((h, n)) => match spec_from_header(h.handle, h.data_len as nat, data.skip(n as int)) {
                Err(e) => Err(e),
                Ok((p, m)) => Ok((p, n + m)),
            },
        }
    }

    fn from_hci_bytes(data: &'de [u8]) -> (r: Result<(SyncPacket<'de>, &'de [u8]), FromHciBytesError>) {
        let (header, rest) = match SyncPacketHeader::from_hci_bytes(data) {
            Ok(x) => x,
            Err(e) => return Err(e),
        };
        let r = SyncPacket::from_header_hci_bytes(header, rest);
        proof {
            if let Ok((p, rest2)) = r {
                lemma_skip_skip(data@, (data@.len() - rest@.len()) as int, (rest@.len() - rest2@.len()) as int);
            }
        }
        r
    }
}

impl<'a> WriteHci for SyncPacket<'a> {
    open spec fn spec_hci_bytes(&self) -> Seq<u8> {
        spec_u16_le_bytes(self@.handle) + seq![(self@.data.len() % 256) as u8] + self@.data
    }

    fn size(&self) -> (r: usize) {
        3 + self.data.len()
    }

    fn write_hci(&self, out: &mut Vec<u8>) {
        let header = SyncPacketHeader { handle: self.handle, data_len: (self.data.len() % 256) as u8 };
        header.write_hci(out);
        write_bytes(self.data, out);
        proof {
            assert(out@ =~= old(out)@ + self.spec_hci_bytes());
        }
    }
}

impl<'de> HciCodec<'de> for SyncPacket<'de> {
    open spec fn spec_encodable(&self) -> bool {
        self@.data.len() <= 255
    }

    proof fn lemma_write_then_read(&self, rest: Seq<u8>) {
        let h = SyncPacketHeader { handle: self.handle, data_len: (self.data@.len() % 256) as u8 };
        h.lemma_write_then_read(self.data@ + rest);
        assert(self.spec_hci_bytes() + rest =~= h.spec_hci_bytes() + (self.data@ + rest));
        h.lemma_fixed_size();
        assert((self.spec_hci_bytes() + rest).skip(3) =~= self.data@ + rest);
        assert((self.data@ + rest).take(self.data@.len() as int) =~= self.data@);
    }
}

/// HCI ISO Data packet `PB_Flag`.
#[derive(Debug, Clone, Copy, PartialEq, Eq, PartialOrd, Ord, Hash, Structural)]
pub enum IsoPacketBoundary {
    /// The `ISO_Data_Load` field contains a header and the first fragment of a fragmented SDU.
    FirstFragment,
    /// The `ISO_Data_Load` field contains a continuation fragment of an SDU.
    ContinuationFragment,
    /// The `ISO_Data_Load` field contains a header and a complete SDU.
    Complete,
    /// The `ISO_Data_Load` field contains the last fragment of an SDU.
    LastFragment,
}

impl IsoPacketBoundary {
    /// The flag a two-bit code stands for.
    pub open spec fn spec_from_bits(b: u16) -> IsoPacketBoundary {
        if b == 0 {
            IsoPacketBoundary::FirstFragment
        } else if b == 1 {
            IsoPacketBoundary::ContinuationFragment
        } else if b == 2 {
            IsoPacketBoundary::Complete
        } else {
            IsoPacketBoundary::LastFragment
        }
    }

    /// Whether a packet with this flag starts with a data load header.
    pub open spec fn spec_has_load_header(self) -> bool {
        self == IsoPacketBoundary::FirstFragment || self == IsoPacketBoundary::Complete
    }

    fn from_bits(b: u16) -> (r: IsoPacketBoundary)
        ensures
            r == Self::spec_from_bits(b),
    {
        match b {
            0 => IsoPacketBoundary::FirstFragment,
            1 => IsoPacketBoundary::ContinuationFragment,
            2 => IsoPacketBoundary::Complete,
            _ => IsoPacketBoundary::LastFragment,
        }
    }
}

/// HCI ISO Data packet `Packet_Status_Flag`.
#[derive(Debug, Clone, Copy, PartialEq, Eq, PartialOrd, Ord, Hash, Structural)]
pub enum IsoPacketStatus {
    /// Valid data. The complete SDU was received correctly.
    Correct,
    /// Possibly invalid data.
    PossiblyInvalid,
    /// Part(s) of the SDU were not received correctly.
    PartiallyLost,
}

/// IsoPacketHeader parameter
#[derive(Debug, Clone, Copy, PartialEq, Eq, PartialOrd, Ord, Hash)]
#[allow(missing_docs)]
pub struct IsoPacketHeader {
    pub handle: u16,
    pub data_load_len: u16,
}

/// The value of a [`IsoPacketHeader`], with byte slices taken as sequences.
#[allow(missing_docs)]
pub struct IsoPacketHeaderView {
    pub handle: u16,
    pub data_load_len: u16,
}

impl View for IsoPacketHeader {
    type V = IsoPacketHeaderView;

    open spec fn view(&self) -> IsoPacketHeaderView {
        IsoPacketHeaderView { handle: self.handle@, data_load_len: self.data_load_len@ }
    }
}

impl<'de> FromHciBytes<'de> for IsoPacketHeader {
    open spec fn spec_from_hci_bytes(data: Seq<u8>) -> Result<(IsoPacketHeaderView, nat), FromHciBytesError> {
        if data.len() < 4 {
            Err(FromHciBytesError::InvalidSize)
        } else {
            match <u16 as FromHciBytes<'de>>::spec_from_hci_bytes(data) {
                Err(e) => Err(e),
                Ok((v_handle, n_handle)) => {
                    match <u16 as FromHciBytes<'de>>::spec_from_hci_bytes(data.skip(n_handle as int)) {
                        Err(e) => Err(e),
                        Ok((v_data_load_len, n_data_load_len)) => {
                            Ok((IsoPacketHeaderView { handle: v_handle, data_load_len: v_data_load_len }, (n_handle + n_data_load_len) as nat))
                        },
                    }
                },
            }
        }
    }

    fn from_hci_bytes(data: &'de [u8]) -> (r: Result<(IsoPacketHeader, &'de [u8]), FromHciBytesError>) {
        if data.len() < 4 {
            return Err(FromHciBytesError::InvalidSize);
        }
        let (v_handle, rest_handle) = match <u16 as FromHciBytes<'de>>::from_hci_bytes(data) {
            Ok(x) => x,
            Err(e) => return Err(e),
        };
        let (v_data_load_len, rest_data_load_len) = match <u16 as FromHciBytes<'de>>::from_hci_bytes(rest_handle) {
            Ok(x) => x,
            Err(e) => return Err(e),
        };
        proof {
            lemma_skip_skip(data@, (data@.len() - rest_handle@.len()) as int, (rest_handle@.len() - rest_data_load_len@.len()) as int);
        }
        Ok((IsoPacketHeader { handle: v_handle, data_load_len: v_data_load_len }, rest_data_load_len))
    }
}

impl WriteHci for IsoPacketHeader {
    open spec fn spec_hci_bytes(&self) -> Seq<u8> {
        self.handle.spec_hci_bytes() + self.data_load_len.spec_hci_bytes()
    }

    fn size(&self) -> (r: usize) {
        let mut n = self.handle.size();
        proof {
            assert(self.handle.spec_hci_bytes() + self.data_load_len.spec_hci_bytes() =~= (self.handle.spec_hci_bytes() + self.data_load_len.spec_hci_bytes()));
        }
        n = n + self.data_load_len.size();
        n
    }

    fn write_hci(&self, out: &mut Vec<u8>) {
        self.handle.write_hci(out);
        self.data_load_len.write_hci(out);
        proof {
            assert(out@ =~= old(out)@ + self.spec_hci_bytes());
        }
    }
}

impl IsoPacketHeader {
    /// The bytes of a `IsoPacketHeader` are the bytes of its fields, one after the
    /// other, in the order in which the fields are declared.
    pub proof fn lemma_fields_in_order(&self)
        ensures
            self.spec_hci_bytes() == self.handle.spec_hci_bytes() + self.data_load_len.spec_hci_bytes(),
    {
    }
}

impl FixedSizeValue for IsoPacketHeader {
    open spec fn spec_size() -> nat {
        4
    }

    proof fn lemma_fixed_size(&self) {
        self.handle.lemma_fixed_size();
        self.data_load_len.lemma_fixed_size();
    }
}

impl<'de> HciCodec<'de> for IsoPacketHeader {
    open spec fn spec_encodable(&self) -> bool {
        self.handle.spec_encodable() && self.data_load_len.spec_encodable()
    }

    proof fn lemma_write_then_read(&self, rest: Seq<u8>) {
        self.handle.lemma_fixed_size();
        self.data_load_len.lemma_fixed_size();
        let t_data_load_len = self.data_load_len.spec_hci_bytes() + rest;
        let t_handle = self.handle.spec_hci_bytes() + t_data_load_len;
        assert(self.spec_hci_bytes() + rest =~= t_handle);
        self.handle.lemma_write_then_read(t_data_load_len);
        self.data_load_len.lemma_write_then_read(rest);
        assert(t_handle.skip(self.handle.spec_hci_bytes().len() as int) =~= t_data_load_len);
    }
}

impl IsoPacketHeader {
    /// The identifier of the logical channel between the Host and the Controller.
    pub fn handle(&self) -> (r: ConnHandle)
        requires
            spec_handle_bits(self.handle) <= 0xeff,
        ensures
            r@ == spec_handle_bits(self.handle),
    {
        ConnHandle::new(self.handle % 4096)
    }

    /// The `PB_Flag` of the packet
    pub fn boundary_flag(&self) -> (r: IsoPacketBoundary)
        ensures
            r == IsoPacketBoundary::spec_from_bits(spec_flag_bits_12(self.handle)),
    {
        IsoPacketBoundary::from_bits((self.handle / 4096) % 4)
    }

    /// Indicates if the `ISO_Data_Load` field contains a `Time_Stamp` field.
    pub fn has_timestamp(&self) -> (r: bool)
        ensures
            r == ((self.handle / 16384) % 2 == 1),
    {
        (self.handle / 16384) % 2 == 1
    }

    /// The length of the `ISO_Data_Load` field in octets.
    pub fn data_load_len(&self) -> (r: usize)
        ensures
            r == self.data_load_len,
    {
        self.data_load_len as usize
    }
}

/// HCI ISO Data conditional header values.
#[derive(Debug, Clone, Copy, PartialEq, Eq, PartialOrd, Ord, Hash, Structural)]
pub struct IsoDataLoadHeader {
    /// A time in microseconds.
    pub timestamp: Option<u32>,
    /// The sequence number of the SDU.
    pub sequence_num: u16,
    /// The total length of the SDU (and not of any individual fragments), in octets.
    pub iso_sdu_len: u16,
}

/// The data load header at the front of `data`: a 32-bit timestamp when
/// `timestamp` says there is one, then the sequence number and the SDU
/// length.
pub open spec fn spec_parse_load_header(timestamp: bool, data: Seq<u8>) -> Result<(IsoDataLoadHeader, nat), FromHciBytesError> {
    let n: int = if timestamp { 4 } else { 0 };
    if data.len() < n + 4 {
        Err(FromHciBytesError::InvalidSize)
    } else {
        Ok((
            IsoDataLoadHeader {
                timestamp: if timestamp { Some(<u32 as FromHciBytes>::spec_from_hci_bytes(data)->Ok_0.0) } else { None },
                sequence_num: spec_le_u16(data[n], data[n + 1]),
                iso_sdu_len: spec_le_u16(data[n + 2], data[n + 3]),
            },
            (n + 4) as nat,
        ))
    }
}

impl IsoDataLoadHeader {
    /// Create an `IsoDataLoadHeader` from `data`.
    ///
    /// `timestamp` indicates whether the data load header includes a timestamp field.
    pub fn from_hci_bytes(timestamp: bool, data: &[u8]) -> (r: Result<(Self, &[u8]), FromHciBytesError>)
        ensures
            match r {
                Ok((h, rest)) => parsed(spec_parse_load_header(timestamp, data@), data@, h, rest@),
                Err(e) => failed(spec_parse_load_header(timestamp, data@), e),
            },
    {
        let (ts, data2) = if timestamp {
            match <u32 as FromHciBytes>::from_hci_bytes(data) {
                Ok((x, y)) => (Some(x), y),
                Err(e) => return Err(e),
            }
        } else {
            proof {
                assert(data@ =~= data@.skip(0));
            }
            (None, data)
        };
        let (sequence_num, data3) = match <u16 as FromHciBytes>::from_hci_bytes(data2) {
            Ok(x) => x,
            Err(e) => return Err(e),
        };
        let (iso_sdu_len, data4) = match <u16 as FromHciBytes>::from_hci_bytes(data3) {
            Ok(x) => x,
            Err(e) => return Err(e),
        };
        proof {
            let n: int = if timestamp { 4 } else { 0 };
            lemma_skip_skip(data@, n, 2);
            lemma_skip_skip(data@, n + 2, 2);
        }
        Ok((IsoDataLoadHeader { timestamp: ts, sequence_num, iso_sdu_len }, data4))
    }
}

impl WriteHci for IsoDataLoadHeader {
    open spec fn spec_hci_bytes(&self) -> Seq<u8> {
        self.timestamp.spec_hci_bytes() + spec_u16_le_bytes(self.sequence_num) + spec_u16_le_bytes(self.iso_sdu_len)
    }

    fn size(&self) -> (r: usize) {
        if self.timestamp.is_some() {
            8
        } else {
            4
        }
    }

    fn write_hci(&self, out: &mut Vec<u8>) {
        self.timestamp.write_hci(out);
        self.sequence_num.write_hci(out);
        self.iso_sdu_len.write_hci(out);
        proof {
            assert(out@ =~= old(out)@ + self.spec_hci_bytes());
        }
    }
}

/// A data load header reads back from its bytes, whatever follows them.
pub proof fn lemma_load_header_roundtrip(h: IsoDataLoadHeader, rest: Seq<u8>)
    ensures
        spec_parse_load_header(h.timestamp is Some, h.spec_hci_bytes() + rest)
            == Ok::<(IsoDataLoadHeader, nat), FromHciBytesError>((h, h.spec_hci_bytes().len())),
{
    let d = h.spec_hci_bytes() + rest;
    lemma_u16_le_roundtrip(h.sequence_num);
    lemma_u16_le_roundtrip(h.iso_sdu_len);
    match h.timestamp {
        Some(t) => {
            t.lemma_write_then_read(d.skip(4));
            assert(d =~= t.spec_hci_bytes() + d.skip(4));
        },
        None => {},
    }
}

/// HCI ISO Data packet.
#[derive(Debug, Clone, Copy, PartialEq, Eq, PartialOrd, Ord, Hash)]
pub struct IsoPacket<'a> {
    handle: u16,
    data_load_header: Option<IsoDataLoadHeader>,
    data: &'a [u8],
}

/// The value of an ISO packet.
pub struct IsoPacketView {
    pub handle: u16,
    pub data_load_header: Option<IsoDataLoadHeader>,
    pub data: Seq<u8>,
}

impl<'a> View for IsoPacket<'a> {
    type V = IsoPacketView;

    closed spec fn view(&self) -> IsoPacketView {
        IsoPacketView { handle: self.handle, data_load_header: self.data_load_header, data: self.data@ }
    }
}

/// An ISO packet taken from the front of `data` with the handle and length
/// of its header: the load header when the boundary flag calls for one, then
/// the rest of the data load.
pub open spec fn spec_iso_from_header(handle: u16, len: nat, data: Seq<u8>) -> Result<(IsoPacketView, nat), FromHciBytesError> {
    if data.len() < len {
        Err(FromHciBytesError::InvalidSize)
    } else {
        let load = data.take(len as int);
        if IsoPacketBoundary::spec_from_bits(spec_flag_bits_12(handle)).spec_has_load_header() {
            match spec_parse_load_header((handle / 16384) % 2 == 1, load) {
                Err(e) => Err(e),
                Ok((h, n)) => Ok((IsoPacketView { handle, data_load_header: Some(h), data: load.skip(n as int) }, len)),
            }
        } else {
            Ok((IsoPacketView { handle, data_load_header: None, data: load }, len))
        }
    }
}

/// The number of bytes of an optional data load header.
pub open spec fn spec_load_header_len(h: Option<IsoDataLoadHeader>) -> nat {
    match h {
        None => 0,
        Some(h) => if h.timestamp is Some { 8 } else { 4 },
    }
}

impl<'a> IsoPacket<'a> {
    /// Create an `IsoPacket` from `header` and `data`
    pub fn from_header_hci_bytes(header: IsoPacketHeader, data: &'a [u8]) -> (r: Result<(Self, &'a [u8]), FromHciBytesError>)
        ensures
            match r {
                Ok((p, rest)) => parsed(spec_iso_from_header(header.handle, header.data_load_len as nat, data@), data@, p@, rest@),
                Err(e) => failed(spec_iso_from_header(header.handle, header.data_load_len as nat, data@), e),
            },
    {
        let data_load_len = header.data_load_len as usize;
        if data.len() < data_load_len {
            return Err(FromHciBytesError::InvalidSize);
        }
        let (load, rest) = data.split_at(data_load_len);
        let boundary = header.boundary_flag();
        match boundary {
            IsoPacketBoundary::FirstFragment | IsoPacketBoundary::Complete => {
                match IsoDataLoadHeader::from_hci_bytes(header.has_timestamp(), load) {
                    Ok((h, body)) => Ok((IsoPacket { handle: header.handle, data_load_header: Some(h), data: body }, rest)),
                    Err(e) => Err(e),
                }
            },
            IsoPacketBoundary::ContinuationFragment | IsoPacketBoundary::LastFragment => {
                Ok((IsoPacket { handle: header.handle, data_load_header: None, data: load }, rest))
            },
        }
    }

    /// The identifier of the logical channel between the Host and the Controller.
    pub fn handle(&self) -> (r: ConnHandle)
        requires
            spec_handle_bits(self@.handle) <= 0xeff,
        ensures
            r@ == spec_handle_bits(self@.handle),
    {
        ConnHandle::new(self.handle % 4096)
    }

    /// The `PB_Flag` of the packet
    pub fn boundary_flag(&self) -> (r: IsoPacketBoundary)
        ensures
            r == IsoPacketBoundary::spec_from_bits(spec_flag_bits_12(self@.handle)),
    {
        IsoPacketBoundary::from_bits((self.handle / 4096) % 4)
    }

    /// Gets the [`IsoDataLoadHeader`] for this packet, if present.
    pub fn data_load_header(&self) -> (r: Option<IsoDataLoadHeader>)
        ensures
            r == self@.data_load_header,
    {
        self.data_load_header
    }

    /// Gets the size of the data section of this packet, including the [`IsoDataLoadHeader`] (if present).
    pub fn data_load_len(&self) -> (r: usize)
        requires
            spec_load_header_len(self@.data_load_header) + self@.data.len() <= usize::MAX,
        ensures
            r == spec_load_header_len(self@.data_load_header) + self@.data.len(),
    {
        let h: usize = match &self.data_load_header {
            Some(x) => x.size(),
            None => 0,
        };
        h + self.data.len()
    }

    /// Gets the data for this packet
    pub fn data(&self) -> (r: &'a [u8])
        ensures
            r@ == self@.data,
    {
        self.data
    }
}

impl<'de> FromHciBytes<'de> for IsoPacket<'de> {
    open spec fn spec_from_hci_bytes(data: Seq<u8>) -> Result<(IsoPacketView, nat), FromHciBytesError> {
        match IsoPacketHeader::spec_from_hci_bytes(data) {
            Err(e) => Err(e),
            Ok((h, n)) => match spec_iso_from_header(h.handle, h.data_load_len as nat, data.skip(n as int)) {
                Err(e) => Err(e),
                Ok((p, m)) => Ok((p, n + m)),
            },
        }
    }

    fn from_hci_bytes(data: &'de [u8]) -> (r: Result<(IsoPacket<'de>, &'de [u8]), FromHciBytesError>) {
        let (header, rest) = match IsoPacketHeader::from_hci_bytes(data) {
            Ok(x) => x,
            Err(e) => return Err(e),
        };
        let r = IsoPacket::from_header_hci_bytes(header, rest);
        proof {
            if let Ok((p, rest2)) = r {
                lemma_skip_skip(data@, (data@.len() - rest@.len()) as int, (rest@.len() - rest2@.len()) as int);
            }
        }
        r
    }
}

impl<'a> WriteHci for IsoPacket<'a> {
    open spec fn spec_hci_bytes(&self) -> Seq<u8> {
        spec_u16_le_bytes(self@.handle) + spec_u16_le_bytes(
            ((spec_load_header_len(self@.data_load_header) + self@.data.len()) % 65536) as u16,
        ) + self@.data_load_header.spec_hci_bytes() + self@.data
    }

    fn size(&self) -> (r: usize) {
        let h: usize = match &self.data_load_header {
            Some(x) => x.size(),
            None => 0,
        };
        4 + h + self.data.len()
    }

    fn write_hci(&self, out: &mut Vec<u8>) {
        let h: usize = match &self.data_load_header {
            Some(x) => x.size(),
            None => 0,
        };
        let l = self.data.len();
        let len = ((h as u64 + (l % 65536) as u64) % 65536) as u16;
        proof {
            assert((h + (l % 65536)) % 65536 == (h + l) % 65536) by (nonlinear_arith);
        }
        let header = IsoPacketHeader { handle: self.handle, data_load_len: len };
        header.write_hci(out);
        self.data_load_header.write_hci(out);
        write_bytes(self.data, out);
        proof {
            assert(out@ =~= old(out)@ + self.spec_hci_bytes());
        }
    }
}

impl<'de> HciCodec<'de> for IsoPacket<'de> {
    /// The data load fits the length field, and the load header is present
    /// exactly when the boundary flag calls for one, with a timestamp exactly
    /// when the timestamp flag is set.
    open spec fn spec_encodable(&self) -> bool {
        &&& spec_load_header_len(self@.data_load_header) + self@.data.len() <= 65535
        &&& (self@.data_load_header is Some) == IsoPacketBoundary::spec_from_bits(spec_flag_bits_12(self@.handle)).spec_has_load_header()
        &&& self@.data_load_header matches Some(h) ==> (h.timestamp is Some) == ((self@.handle / 16384) % 2 == 1)
    }

    proof fn lemma_write_then_read(&self, rest: Seq<u8>) {
        let load_len = spec_load_header_len(self.data_load_header) + self.data@.len();
        let h = IsoPacketHeader { handle: self.handle, data_load_len: load_len as u16 };
        let lh = self.data_load_header.spec_hci_bytes();
        let tail = lh + self.data@ + rest;
        h.lemma_write_then_read(tail);
        assert(self.spec_hci_bytes() + rest =~= h.spec_hci_bytes() + tail);
        h.lemma_fixed_size();
        assert((self.spec_hci_bytes() + rest).skip(4) =~= tail);
        let load = tail.take(load_len as int);
        assert(load =~= lh + self.data@);
        match self.data_load_header {
            Some(x) => {
                lemma_load_header_roundtrip(x, self.data@);
                assert(load.skip(lh.len() as int) =~= self.data@);
            },
            None => {
                assert(load =~= self.data@);
            },
        }
    }
}

/// An ACL data packet on the wire: the 16-bit handle field (low byte
/// first), the 16-bit data length (low byte first), then that many bytes of
/// data; fewer bytes than that are refused as too short.
pub proof fn lemma_acl_packet_layout(data: Seq<u8>)
    ensures
        data.len() < 4 ==> AclPacket::spec_from_hci_bytes(data) == Err::<(DataPacketView, nat), FromHciBytesError>(
            FromHciBytesError::InvalidSize,
        ),
        data.len() >= 4 ==> {
            let len = data[2] + 256 * data[3];
            &&& data.len() >= 4 + len ==> AclPacket::spec_from_hci_bytes(data) == Ok::<(DataPacketView, nat), FromHciBytesError>(
                (DataPacketView { handle: (data[0] + 256 * data[1]) as u16, data: data.subrange(4, 4 + len) }, (4 + len) as nat),
            )
            &&& data.len() < 4 + len ==> AclPacket::spec_from_hci_bytes(data) == Err::<(DataPacketView, nat), FromHciBytesError>(
                FromHciBytesError::InvalidSize,
            )
        },
{
    if data.len() >= 4 {
        crate::param::primitives::lemma_le_integer_encodings(0, 0, 0, data);
        crate::param::primitives::lemma_le_integer_encodings(0, 0, 0, data.skip(2));
        let len = data[2] + 256 * data[3];
        assert(data.skip(2)[0] == data[2] && data.skip(2)[1] == data[3]);
        assert(data.skip(2).skip(2) =~= data.skip(4));
        if data.len() >= 4 + len {
            assert(data.skip(4).take(len) =~= data.subrange(4, 4 + len));
        }
    }
}

/// A synchronous data packet on the wire: the 16-bit handle field (low
/// byte first), the one-byte data length, then that many bytes of data.
pub proof fn lemma_sync_packet_layout(data: Seq<u8>)
    ensures
        data.len() < 3 ==> SyncPacket::spec_from_hci_bytes(data) == Err::<(DataPacketView, nat), FromHciBytesError>(
            FromHciBytesError::InvalidSize,
        ),
        data.len() >= 3 ==> {
            let len = data[2] as int;
            &&& data.len() >= 3 + len ==> SyncPacket::spec_from_hci_bytes(data) == Ok::<(DataPacketView, nat), FromHciBytesError>(
                (DataPacketView { handle: (data[0] + 256 * data[1]) as u16, data: data.subrange(3, 3 + len) }, (3 + len) as nat),
            )
            &&& data.len() < 3 + len ==> SyncPacket::spec_from_hci_bytes(data) == Err::<(DataPacketView, nat), FromHciBytesError>(
                FromHciBytesError::InvalidSize,
            )
        },
{
    if data.len() >= 3 {
        crate::param::primitives::lemma_le_integer_encodings(0, 0, 0, data);
        crate::param::primitives::lemma_byte_encodings(0, 0, data.skip(2));
        assert(data.skip(2)[0] == data[2]);
        assert(data.skip(2).skip(1) =~= data.skip(3));
        let len = data[2] as int;
        if data.len() >= 3 + len {
            assert(data.skip(3).take(len) =~= data.subrange(3, 3 + len));
        }
    }
}

} // verus!
