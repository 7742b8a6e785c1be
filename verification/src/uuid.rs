//! Bluetooth UUIDs: 16-bit UUIDs and how they sit in the 128-bit base UUID.

use vstd::prelude::*;

pub mod appearance;

verus! {

/// The Bluetooth Base UUID, 0000xxxx-0000-1000-8000-00805F9B34FB, in the
/// byte order of its fields as stored little-endian.
pub const BLUETOOTH_BASE_UUID: [u8; 16] = [
    0x00, 0x00, 0x00, 0x00, 0x00, 0x00, 0x10, 0x00, 0x80, 0x00, 0x00, 0x80, 0x5F, 0x9B, 0x34, 0xFB,
];

/// The little-endian bytes of a 16-bit value.
pub open spec fn spec_le_bytes(x: u16) -> Seq<u8> {
    seq![(x % 256) as u8, (x / 256) as u8]
}

/// The 16-bit value of two little-endian bytes.
pub open spec fn spec_from_le(b: Seq<u8>) -> u16 {
    (b[0] as int + 256 * b[1] as int) as u16
}

fn le_bytes(x: u16) -> (r: [u8; 2])
    ensures
        r@ == spec_le_bytes(x),
        r == [(x % 256) as u8, (x / 256) as u8],
{
    let r = [(x % 256) as u8, (x / 256) as u8];
    proof {
        assert(r@ =~= spec_le_bytes(x));
    }
    r
}

/// The value of an appearance category and subcategory: the category in
/// the bits above the six low bits that hold the subcategory.
pub open spec fn spec_appearance(category: u8, subcategory: u8) -> u16 {
    ((category as u16) << 6u16) | (subcategory as u16)
}

/// An appearance value with a subcategory below 64 holds the category
/// times 64 plus the subcategory.
pub proof fn lemma_appearance_value(category: u8, subcategory: u8)
    requires
        subcategory < 64,
    ensures
        spec_appearance(category, subcategory) == category as int * 64 + subcategory as int,
{
    let c = category as u16;
    let s = subcategory as u16;
    assert(((c << 6u16) | s) == c * 64 + s) by (bit_vector)
        requires
            c < 256,
            s < 64,
    ;
}

/// Bluetooth UUID.
#[derive(Clone, Copy, PartialEq, Eq, Debug)]
pub struct BluetoothUuid16(u16);

impl View for BluetoothUuid16 {
    type V = u16;

    closed spec fn view(&self) -> u16 {
        self.0
    }
}

impl BluetoothUuid16 {
    /// Create a new `BluetoothUuid16`.
    pub fn new(uuid: u16) -> (r: Self)
        ensures
            r@ == uuid,
    {
        BluetoothUuid16(uuid)
    }

    /// Convert the `BluetoothUuid16` to a byte array.
    pub fn to_le_bytes(self) -> (r: [u8; 2])
        ensures
            r@ == spec_le_bytes(self@),
    {
        le_bytes(self.0)
    }

    /// Convert from a byte array to a `BluetoothUuid16`.
    pub fn from_le_bytes(bytes: [u8; 2]) -> (r: Self)
        ensures
            r@ == spec_from_le(bytes@),
    {
        BluetoothUuid16((bytes[0] as u16) + 256 * (bytes[1] as u16))
    }

    /// The 16 bytes of the 128-bit UUID, most significant first:
    /// 0000xxxx-0000-0010-8000-00805f9b34fb, with this UUID as xxxx.
    pub fn to_uuid_bytes(self) -> (r: [u8; 16])
        ensures
            r@ == seq![0u8, 0u8, (self@ / 256) as u8, (self@ % 256) as u8]
                + seq![0x00u8, 0x00u8, 0x00u8, 0x10u8, 0x80u8, 0x00u8, 0x00u8, 0x80u8, 0x5fu8, 0x9bu8, 0x34u8, 0xfbu8],
    {
        let r = [
            0u8, 0u8, (self.0 / 256) as u8, (self.0 % 256) as u8,
            0x00, 0x00, 0x00, 0x10, 0x80, 0x00, 0x00, 0x80, 0x5f, 0x9b, 0x34, 0xfb,
        ];
        proof {
            assert(r@ =~= seq![0u8, 0u8, (self@ / 256) as u8, (self@ % 256) as u8]
                + seq![0x00u8, 0x00u8, 0x00u8, 0x10u8, 0x80u8, 0x00u8, 0x00u8, 0x80u8, 0x5fu8, 0x9bu8, 0x34u8, 0xfbu8]);
        }
        r
    }

    /// The 16-bit value.
    pub fn into_u16(self) -> (r: u16)
        ensures
            r == self@,
    {
        self.0
    }
}

impl From<BluetoothUuid16> for u16 {
    fn from(uuid: BluetoothUuid16) -> (r: u16) {
        uuid.0
    }
}

impl vstd::std_specs::convert::FromSpecImpl<BluetoothUuid16> for u16 {
    open spec fn obeys_from_spec() -> bool {
        true
    }

    open spec fn from_spec(v: BluetoothUuid16) -> u16 {
        v@
    }
}

impl From<BluetoothUuid16> for [u8; 2] {
    fn from(uuid: BluetoothUuid16) -> (r: [u8; 2]) {
        le_bytes(uuid.0)
    }
}

impl vstd::std_specs::convert::FromSpecImpl<BluetoothUuid16> for [u8; 2] {
    open spec fn obeys_from_spec() -> bool {
        true
    }

    open spec fn from_spec(v: BluetoothUuid16) -> [u8; 2] {
        [(v@ % 256) as u8, (v@ / 256) as u8]
    }
}

/// Bluetooth UUID.
#[derive(Clone, Copy, PartialEq, Eq, Debug)]
pub struct BleUuid(u16);

impl View for BleUuid {
    type V = u16;

    closed spec fn view(&self) -> u16 {
        self.0
    }
}

impl BleUuid {
    /// Create a new `BleUuid`.
    pub fn new(uuid: u16) -> (r: Self)
        ensures
            r@ == uuid,
    {
        BleUuid(uuid)
    }

    /// Construct a new appearance value for the GAP Service.
    pub fn from_category(category: u8, subcategory: u8) -> (r: Self)
        ensures
            r@ == spec_appearance(category, subcategory),
    {
        BleUuid(((category as u16) << 6u16) | (subcategory as u16))
    }

    /// Convert the `BleUuid` to a byte array.
    pub fn to_le_bytes(self) -> (r: [u8; 2])
        ensures
            r@ == spec_le_bytes(self@),
    {
        le_bytes(self.0)
    }

    /// The 16-bit value.
    pub fn into_u16(self) -> (r: u16)
        ensures
            r == self@,
    {
        self.0
    }
}

impl From<BleUuid> for u16 {
    fn from(uuid: BleUuid) -> (r: u16) {
        uuid.0
    }
}

impl vstd::std_specs::convert::FromSpecImpl<BleUuid> for u16 {
    open spec fn obeys_from_spec() -> bool {
        true
    }

    open spec fn from_spec(v: BleUuid) -> u16 {
        v@
    }
}

impl From<BleUuid> for [u8; 2] {
    fn from(uuid: BleUuid) -> (r: [u8; 2]) {
        le_bytes(uuid.0)
    }
}

impl vstd::std_specs::convert::FromSpecImpl<BleUuid> for [u8; 2] {
    open spec fn obeys_from_spec() -> bool {
        true
    }

    open spec fn from_spec(v: BleUuid) -> [u8; 2] {
        [(v@ % 256) as u8, (v@ / 256) as u8]
    }
}

/// Reading the little-endian bytes of a UUID gives it back.
pub proof fn lemma_uuid_le_roundtrip(x: u16)
    ensures
        spec_from_le(spec_le_bytes(x)) == x,
{
}

} // verus!
