//! Encodings of the primitive HCI values: little-endian integers, booleans,
//! fixed-size byte arrays and length-prefixed byte slices.

use vstd::prelude::*;

use crate::{AsHciBytes, FixedSizeValue, FromHciBytes, FromHciBytesError, HciCodec, WriteHci, parsed, failed};

verus! {

/// The 16-bit value whose little-endian bytes are `b0`, `b1`.
pub open spec fn spec_le_u16(b0: u8, b1: u8) -> u16 {
    (b0 as int + b1 as int * 256) as u16
}

/// The little-endian bytes of a 16-bit value.
pub open spec fn spec_u16_le_bytes(x: u16) -> Seq<u8> {
    seq![(x % 256) as u8, (x / 256) as u8]
}

/// The 32-bit value whose little-endian bytes are the first four of `s`.
pub open spec fn spec_le_u32(s: Seq<u8>) -> u32 {
    (s[0] as int + 256 * (s[1] as int + 256 * (s[2] as int + 256 * s[3] as int))) as u32
}

/// The little-endian bytes of a 32-bit value.
pub open spec fn spec_u32_le_bytes(x: u32) -> Seq<u8> {
    seq![
        (x % 256) as u8,
        ((x / 256) % 256) as u8,
        ((x / 65536) % 256) as u8,
        (x / 16777216) as u8,
    ]
}

/// The 64-bit value whose little-endian bytes are the first eight of `s`.
pub open spec fn spec_le_u64(s: Seq<u8>) -> u64 {
    (spec_le_u32(s) as int + 4294967296 * spec_le_u32(s.skip(4)) as int) as u64
}

/// The little-endian bytes of a 64-bit value.
pub open spec fn spec_u64_le_bytes(x: u64) -> Seq<u8> {
    spec_u32_le_bytes((x % 4294967296) as u32) + spec_u32_le_bytes((x / 4294967296) as u32)
}

/// The signed byte with the two's complement bits of `b`.
pub open spec fn spec_i8_of(b: u8) -> i8 {
    if b < 128 {
        b as i8
    } else {
        (b - 256) as i8
    }
}

/// The two's complement bits of a signed byte.
pub open spec fn spec_u8_of_i8(x: i8) -> u8 {
    if x >= 0 {
        x as u8
    } else {
        (x + 256) as u8
    }
}

/// The signed 16-bit value with the two's complement bits of `x`.
pub open spec fn spec_i16_of(x: u16) -> i16 {
    if x < 32768 {
        x as i16
    } else {
        (x - 65536) as i16
    }
}

/// The two's complement bits of a signed 16-bit value.
pub open spec fn spec_u16_of_i16(x: i16) -> u16 {
    if x >= 0 {
        x as u16
    } else {
        (x + 65536) as u16
    }
}

/// Decode a little-endian 16-bit value from the first two bytes.
pub fn read_u16_le(data: &[u8]) -> (r: u16)
    requires
        data@.len() >= 2,
    ensures
        r == spec_le_u16(data@[0], data@[1]),
{
    (data[0] as u16) + (data[1] as u16) * 256
}

/// Append the little-endian bytes of a 16-bit value.
pub fn write_u16_le(x: u16, out: &mut Vec<u8>)
    ensures
        final(out)@ == old(out)@ + spec_u16_le_bytes(x),
{
    out.push((x % 256) as u8);
    out.push((x / 256) as u8);
    proof {
        assert(final(out)@ =~= old(out)@ + spec_u16_le_bytes(x));
    }
}

/// Decode a little-endian 32-bit value from the first four bytes.
pub fn read_u32_le(data: &[u8]) -> (r: u32)
    requires
        data@.len() >= 4,
    ensures
        r == spec_le_u32(data@),
{
    (data[0] as u32) + 256 * ((data[1] as u32) + 256 * ((data[2] as u32) + 256 * (data[3] as u32)))
}

/// Append the little-endian bytes of a 32-bit value.
pub fn write_u32_le(x: u32, out: &mut Vec<u8>)
    ensures
        final(out)@ == old(out)@ + spec_u32_le_bytes(x),
{
    out.push((x % 256) as u8);
    out.push(((x / 256) % 256) as u8);
    out.push(((x / 65536) % 256) as u8);
    out.push((x / 16777216) as u8);
    proof {
        assert(final(out)@ =~= old(out)@ + spec_u32_le_bytes(x));
    }
}

/// Decoding the little-endian bytes of a 16-bit value gives it back.
pub proof fn lemma_u16_le_roundtrip(x: u16)
    ensures
        spec_le_u16(spec_u16_le_bytes(x)[0], spec_u16_le_bytes(x)[1]) == x,
{
}

/// Encoding a decoded 16-bit value gives the same two bytes.
pub proof fn lemma_le_u16_bytes(b0: u8, b1: u8)
    ensures
        spec_u16_le_bytes(spec_le_u16(b0, b1)) == seq![b0, b1],
{
    assert(spec_u16_le_bytes(spec_le_u16(b0, b1)) =~= seq![b0, b1]);
}

/// Decoding the little-endian bytes of a 32-bit value gives it back.
pub proof fn lemma_u32_le_roundtrip(x: u32)
    ensures
        spec_le_u32(spec_u32_le_bytes(x)) == x,
{
}

/// Decoding the little-endian bytes of a 64-bit value gives it back.
pub proof fn lemma_u64_le_roundtrip(x: u64)
    ensures
        spec_le_u64(spec_u64_le_bytes(x)) == x,
{
    let lo = (x % 4294967296) as u32;
    let hi = (x / 4294967296) as u32;
    lemma_u32_le_roundtrip(lo);
    lemma_u32_le_roundtrip(hi);
    assert(spec_u64_le_bytes(x).skip(4) =~= spec_u32_le_bytes(hi));
    assert(spec_le_u32(spec_u64_le_bytes(x)) == spec_le_u32(spec_u32_le_bytes(lo)));
}

impl<'de> FromHciBytes<'de> for u8 {
    open spec fn spec_from_hci_bytes(data: Seq<u8>) -> Result<(u8, nat), FromHciBytesError> {
        if data.len() < 1 {
            Err(FromHciBytesError::InvalidSize)
        } else {
            Ok((data[0], 1))
        }
    }

    fn from_hci_bytes(data: &'de [u8]) -> (r: Result<(u8, &'de [u8]), FromHciBytesError>) {
        if data.len() < 1 {
            Err(FromHciBytesError::InvalidSize)
        } else {
            let (_, rest) = data.split_at(1);
            Ok((data[0], rest))
        }
    }
}

impl WriteHci for u8 {
    open spec fn spec_hci_bytes(&self) -> Seq<u8> {
        seq![*self]
    }

    fn size(&self) -> (r: usize) {
        proof {
            assert(self.spec_hci_bytes().len() == 1);
        }
        1
    }

    fn write_hci(&self, out: &mut Vec<u8>) {
        out.push(*self);
        proof {
            assert(final(out)@ =~= old(out)@ + self.spec_hci_bytes());
        }
    }
}

impl FixedSizeValue for u8 {
    open spec fn spec_size() -> nat {
        1
    }

    proof fn lemma_fixed_size(&self) {
    }
}

impl<'de> HciCodec<'de> for u8 {
    open spec fn spec_encodable(&self) -> bool {
        true
    }

    proof fn lemma_write_then_read(&self, rest: Seq<u8>) {
    }
}

impl<'de> FromHciBytes<'de> for i8 {
    open spec fn spec_from_hci_bytes(data: Seq<u8>) -> Result<(i8, nat), FromHciBytesError> {
        if data.len() < 1 {
            Err(FromHciBytesError::InvalidSize)
        } else {
            Ok((spec_i8_of(data[0]), 1))
        }
    }

    fn from_hci_bytes(data: &'de [u8]) -> (r: Result<(i8, &'de [u8]), FromHciBytesError>) {
        if data.len() < 1 {
            Err(FromHciBytesError::InvalidSize)
        } else {
            let (_, rest) = data.split_at(1);
            let b = data[0];
            let v: i8 = if b < 128 {
                b as i8
            } else {
                ((b as i16) - 256) as i8
            };
            Ok((v, rest))
        }
    }
}

impl WriteHci for i8 {
    open spec fn spec_hci_bytes(&self) -> Seq<u8> {
        seq![spec_u8_of_i8(*self)]
    }

    fn size(&self) -> (r: usize) {
        1
    }

    fn write_hci(&self, out: &mut Vec<u8>) {
        let x = *self;
        let b: u8 = if x >= 0 {
            x as u8
        } else {
            ((x as i16) + 256) as u8
        };
        out.push(b);
        proof {
            assert(final(out)@ =~= old(out)@ + self.spec_hci_bytes());
        }
    }
}

impl FixedSizeValue for i8 {
    open spec fn spec_size() -> nat {
        1
    }

    proof fn lemma_fixed_size(&self) {
    }
}

impl<'de> HciCodec<'de> for i8 {
    open spec fn spec_encodable(&self) -> bool {
        true
    }

    proof fn lemma_write_then_read(&self, rest: Seq<u8>) {
    }
}

impl<'de> FromHciBytes<'de> for u16 {
    open spec fn spec_from_hci_bytes(data: Seq<u8>) -> Result<(u16, nat), FromHciBytesError> {
        if data.len() < 2 {
            Err(FromHciBytesError::InvalidSize)
        } else {
            Ok((spec_le_u16(data[0], data[1]), 2))
        }
    }

    fn from_hci_bytes(data: &'de [u8]) -> (r: Result<(u16, &'de [u8]), FromHciBytesError>) {
        if data.len() < 2 {
            Err(FromHciBytesError::InvalidSize)
        } else {
            let (_, rest) = data.split_at(2);
            Ok((read_u16_le(data), rest))
        }
    }
}

impl WriteHci for u16 {
    open spec fn spec_hci_bytes(&self) -> Seq<u8> {
        spec_u16_le_bytes(*self)
    }

    fn size(&self) -> (r: usize) {
        2
    }

    fn write_hci(&self, out: &mut Vec<u8>) {
        write_u16_le(*self, out);
    }
}

impl FixedSizeValue for u16 {
    open spec fn spec_size() -> nat {
        2
    }

    proof fn lemma_fixed_size(&self) {
    }
}

impl<'de> HciCodec<'de> for u16 {
    open spec fn spec_encodable(&self) -> bool {
        true
    }

    proof fn lemma_write_then_read(&self, rest: Seq<u8>) {
        lemma_u16_le_roundtrip(*self);
    }
}

impl<'de> FromHciBytes<'de> for i16 {
    open spec fn spec_from_hci_bytes(data: Seq<u8>) -> Result<(i16, nat), FromHciBytesError> {
        if data.len() < 2 {
            Err(FromHciBytesError::InvalidSize)
        } else {
            Ok((spec_i16_of(spec_le_u16(data[0], data[1])), 2))
        }
    }

    fn from_hci_bytes(data: &'de [u8]) -> (r: Result<(i16, &'de [u8]), FromHciBytesError>) {
        if data.len() < 2 {
            Err(FromHciBytesError::InvalidSize)
        } else {
            let (_, rest) = data.split_at(2);
            let x = read_u16_le(data);
            let v: i16 = if x < 32768 {
                x as i16
            } else {
                ((x as i32) - 65536) as i16
            };
            Ok((v, rest))
        }
    }
}

impl WriteHci for i16 {
    open spec fn spec_hci_bytes(&self) -> Seq<u8> {
        spec_u16_le_bytes(spec_u16_of_i16(*self))
    }

    fn size(&self) -> (r: usize) {
        2
    }

    fn write_hci(&self, out: &mut Vec<u8>) {
        let x = *self;
        let u: u16 = if x >= 0 {
            x as u16
        } else {
            ((x as i32) + 65536) as u16
        };
        write_u16_le(u, out);
    }
}

impl FixedSizeValue for i16 {
    open spec fn spec_size() -> nat {
        2
    }

    proof fn lemma_fixed_size(&self) {
    }
}

impl<'de> HciCodec<'de> for i16 {
    open spec fn spec_encodable(&self) -> bool {
        true
    }

    proof fn lemma_write_then_read(&self, rest: Seq<u8>) {
        lemma_u16_le_roundtrip(spec_u16_of_i16(*self));
    }
}

impl<'de> FromHciBytes<'de> for u32 {
    open spec fn spec_from_hci_bytes(data: Seq<u8>) -> Result<(u32, nat), FromHciBytesError> {
        if data.len() < 4 {
            Err(FromHciBytesError::InvalidSize)
        } else {
            Ok((spec_le_u32(data), 4))
        }
    }

    fn from_hci_bytes(data: &'de [u8]) -> (r: Result<(u32, &'de [u8]), FromHciBytesError>) {
        if data.len() < 4 {
            Err(FromHciBytesError::InvalidSize)
        } else {
            let (_, rest) = data.split_at(4);
            Ok((read_u32_le(data), rest))
        }
    }
}

impl WriteHci for u32 {
    open spec fn spec_hci_bytes(&self) -> Seq<u8> {
        spec_u32_le_bytes(*self)
    }

    fn size(&self) -> (r: usize) {
        4
    }

    fn write_hci(&self, out: &mut Vec<u8>) {
        write_u32_le(*self, out);
    }
}

impl FixedSizeValue for u32 {
    open spec fn spec_size() -> nat {
        4
    }

    proof fn lemma_fixed_size(&self) {
    }
}

impl<'de> HciCodec<'de> for u32 {
    open spec fn spec_encodable(&self) -> bool {
        true
    }

    proof fn lemma_write_then_read(&self, rest: Seq<u8>) {
        lemma_u32_le_roundtrip(*self);
        assert((self.spec_hci_bytes() + rest)[0] == self.spec_hci_bytes()[0]);
        assert((self.spec_hci_bytes() + rest)[1] == self.spec_hci_bytes()[1]);
        assert((self.spec_hci_bytes() + rest)[2] == self.spec_hci_bytes()[2]);
        assert((self.spec_hci_bytes() + rest)[3] == self.spec_hci_bytes()[3]);
    }
}

impl<'de> FromHciBytes<'de> for u64 {
    open spec fn spec_from_hci_bytes(data: Seq<u8>) -> Result<(u64, nat), FromHciBytesError> {
        if data.len() < 8 {
            Err(FromHciBytesError::InvalidSize)
        } else {
            Ok((spec_le_u64(data), 8))
        }
    }

    fn from_hci_bytes(data: &'de [u8]) -> (r: Result<(u64, &'de [u8]), FromHciBytesError>) {
        if data.len() < 8 {
            Err(FromHciBytesError::InvalidSize)
        } else {
            let (lo_bytes, rest) = data.split_at(4);
            let (hi_bytes, rest) = rest.split_at(4);
            let lo = read_u32_le(lo_bytes);
            let hi = read_u32_le(hi_bytes);
            proof {
                assert(hi_bytes@ =~= data@.skip(4).take(4));
                assert(spec_le_u32(hi_bytes@) == spec_le_u32(data@.skip(4)));
                assert(spec_le_u32(lo_bytes@) == spec_le_u32(data@));
                assert(rest@ =~= data@.skip(8));
            }
            Ok(((lo as u64) + 4294967296 * (hi as u64), rest))
        }
    }
}

impl WriteHci for u64 {
    open spec fn spec_hci_bytes(&self) -> Seq<u8> {
        spec_u64_le_bytes(*self)
    }

    fn size(&self) -> (r: usize) {
        8
    }

    fn write_hci(&self, out: &mut Vec<u8>) {
        write_u32_le((*self % 4294967296) as u32, out);
        write_u32_le((*self / 4294967296) as u32, out);
        proof {
            assert(final(out)@ =~= old(out)@ + self.spec_hci_bytes());
        }
    }
}

impl FixedSizeValue for u64 {
    open spec fn spec_size() -> nat {
        8
    }

    proof fn lemma_fixed_size(&self) {
    }
}

impl<'de> HciCodec<'de> for u64 {
    open spec fn spec_encodable(&self) -> bool {
        true
    }

    proof fn lemma_write_then_read(&self, rest: Seq<u8>) {
        let b = self.spec_hci_bytes();
        lemma_u64_le_roundtrip(*self);
        let d = b + rest;
        assert(d.skip(4).take(4) =~= b.skip(4).take(4));
        assert(d.take(4) =~= b.take(4));
        assert(spec_le_u32(d) == spec_le_u32(b));
        assert(spec_le_u32(d.skip(4)) == spec_le_u32(b.skip(4)));
    }
}

impl<'de> FromHciBytes<'de> for bool {
    open spec fn spec_from_hci_bytes(data: Seq<u8>) -> Result<(bool, nat), FromHciBytesError> {
        if data.len() < 1 {
            Err(FromHciBytesError::InvalidSize)
        } else if data[0] >= 2 {
            Err(FromHciBytesError::InvalidValue)
        } else {
            Ok((data[0] == 1, 1))
        }
    }

    fn from_hci_bytes(data: &'de [u8]) -> (r: Result<(bool, &'de [u8]), FromHciBytesError>) {
        if data.len() < 1 {
            Err(FromHciBytesError::InvalidSize)
        } else if data[0] >= 2 {
            Err(FromHciBytesError::InvalidValue)
        } else {
            let (_, rest) = data.split_at(1);
            Ok((data[0] == 1, rest))
        }
    }
}

impl WriteHci for bool {
    open spec fn spec_hci_bytes(&self) -> Seq<u8> {
        seq![if *self { 1u8 } else { 0u8 }]
    }

    fn size(&self) -> (r: usize) {
        1
    }

    fn write_hci(&self, out: &mut Vec<u8>) {
        out.push(if *self { 1u8 } else { 0u8 });
        proof {
            assert(final(out)@ =~= old(out)@ + self.spec_hci_bytes());
        }
    }
}

impl FixedSizeValue for bool {
    open spec fn spec_size() -> nat {
        1
    }

    proof fn lemma_fixed_size(&self) {
    }
}

impl<'de> HciCodec<'de> for bool {
    open spec fn spec_encodable(&self) -> bool {
        true
    }

    proof fn lemma_write_then_read(&self, rest: Seq<u8>) {
    }
}

impl<'de> FromHciBytes<'de> for () {
    open spec fn spec_from_hci_bytes(data: Seq<u8>) -> Result<((), nat), FromHciBytesError> {
        Ok(((), 0))
    }

    fn from_hci_bytes(data: &'de [u8]) -> (r: Result<((), &'de [u8]), FromHciBytesError>) {
        proof {
            assert(data@ =~= data@.skip(0));
        }
        Ok(((), data))
    }
}

impl WriteHci for () {
    open spec fn spec_hci_bytes(&self) -> Seq<u8> {
        Seq::empty()
    }

    fn size(&self) -> (r: usize) {
        0
    }

    fn write_hci(&self, out: &mut Vec<u8>) {
        proof {
            assert(old(out)@ =~= old(out)@ + Seq::<u8>::empty());
        }
    }
}

impl FixedSizeValue for () {
    open spec fn spec_size() -> nat {
        0
    }

    proof fn lemma_fixed_size(&self) {
    }
}

impl<'de> HciCodec<'de> for () {
    open spec fn spec_encodable(&self) -> bool {
        true
    }

    proof fn lemma_write_then_read(&self, rest: Seq<u8>) {
    }
}

impl<'de, const N: usize> FromHciBytes<'de> for [u8; N] {
    open spec fn spec_from_hci_bytes(data: Seq<u8>) -> Result<(Seq<u8>, nat), FromHciBytesError> {
        if data.len() < N {
            Err(FromHciBytesError::InvalidSize)
        } else {
            Ok((data.take(N as int), N as nat))
        }
    }

    fn from_hci_bytes(data: &'de [u8]) -> (r: Result<([u8; N], &'de [u8]), FromHciBytesError>) {
        if data.len() < N {
            return Err(FromHciBytesError::InvalidSize);
        }
        let mut arr = [0u8; N];
        let mut i: usize = 0;
        while i < N
            invariant
                i <= N,
                N <= data@.len(),
                arr@.len() == N,
                forall|j: int| 0 <= j < i ==> arr@[j] == data@[j],
            decreases N - i,
        {
            arr[i] = data[i];
            i = i + 1;
        }
        let (_, rest) = data.split_at(N);
        proof {
            assert(arr@ =~= data@.take(N as int));
        }
        Ok((arr, rest))
    }
}

impl<const N: usize> WriteHci for [u8; N] {
    open spec fn spec_hci_bytes(&self) -> Seq<u8> {
        self@
    }

    fn size(&self) -> (r: usize) {
        proof {
            assert(self.spec_hci_bytes().len() == N);
        }
        N
    }

    fn write_hci(&self, out: &mut Vec<u8>) {
        let ghost start = old(out)@;
        let mut i: usize = 0;
        while i < N
            invariant
                i <= N,
                self@.len() == N,
                out@ == start + self@.take(i as int),
            decreases N - i,
        {
            out.push(self[i]);
            i = i + 1;
            proof {
                assert(out@ =~= start + self@.take(i as int));
            }
        }
        proof {
            assert(self@.take(N as int) =~= self@);
            assert(out@ =~= start + self.spec_hci_bytes());
        }
    }
}

impl<const N: usize> AsHciBytes for [u8; N] {
    /// The array's bytes.
    fn as_hci_bytes(&self) -> (r: &[u8]) {
        self.as_slice()
    }
}

impl<const N: usize> FixedSizeValue for [u8; N] {
    open spec fn spec_size() -> nat {
        N as nat
    }

    proof fn lemma_fixed_size(&self) {
    }
}

impl<'de, const N: usize> HciCodec<'de> for [u8; N] {
    open spec fn spec_encodable(&self) -> bool {
        true
    }

    proof fn lemma_write_then_read(&self, rest: Seq<u8>) {
        assert((self@ + rest).take(N as int) =~= self@);
    }
}

impl<'de> FromHciBytes<'de> for &'de [u8] {
    open spec fn spec_from_hci_bytes(data: Seq<u8>) -> Result<(Seq<u8>, nat), FromHciBytesError> {
        if data.len() < 1 {
            Err(FromHciBytesError::InvalidSize)
        } else if data.len() < 1 + data[0] {
            Err(FromHciBytesError::InvalidSize)
        } else {
            Ok((data.subrange(1, 1 + data[0]), (1 + data[0]) as nat))
        }
    }

    fn from_hci_bytes(data: &'de [u8]) -> (r: Result<(&'de [u8], &'de [u8]), FromHciBytesError>) {
        if data.len() < 1 {
            return Err(FromHciBytesError::InvalidSize);
        }
        let len = data[0] as usize;
        if data.len() - 1 < len {
            return Err(FromHciBytesError::InvalidSize);
        }
        let (_, body) = data.split_at(1);
        let (bytes, rest) = body.split_at(len);
        proof {
            assert(bytes@ =~= data@.subrange(1, 1 + data@[0]));
            assert(rest@ =~= data@.skip(1 + len));
        }
        Ok((bytes, rest))
    }
}

/// The bytes of a length-prefixed slice: the length (as one byte), then the
/// bytes themselves.
pub open spec fn spec_prefixed_bytes(s: Seq<u8>) -> Seq<u8> {
    seq![(s.len() % 256) as u8] + s
}

/// Append a length-prefixed byte slice.
pub fn write_prefixed_bytes(s: &[u8], out: &mut Vec<u8>)
    ensures
        final(out)@ == old(out)@ + spec_prefixed_bytes(s@),
{
    out.push((s.len() % 256) as u8);
    let ghost start = out@;
    let mut i: usize = 0;
    while i < s.len()
        invariant
            i <= s@.len(),
            out@ == start + s@.take(i as int),
        decreases s@.len() - i,
    {
        out.push(s[i]);
        i = i + 1;
        proof {
            assert(out@ =~= start + s@.take(i as int));
        }
    }
    proof {
        assert(s@.take(s@.len() as int) =~= s@);
        assert(final(out)@ =~= old(out)@ + spec_prefixed_bytes(s@));
    }
}

impl<'a> WriteHci for &'a [u8] {
    open spec fn spec_hci_bytes(&self) -> Seq<u8> {
        spec_prefixed_bytes(self@)
    }

    fn size(&self) -> (r: usize) {
        self.len() + 1
    }

    fn write_hci(&self, out: &mut Vec<u8>) {
        write_prefixed_bytes(self, out);
    }
}

impl<'de> HciCodec<'de> for &'de [u8] {
    open spec fn spec_encodable(&self) -> bool {
        self@.len() <= 255
    }

    proof fn lemma_write_then_read(&self, rest: Seq<u8>) {
        let d = self.spec_hci_bytes() + rest;
        assert(d[0] == self@.len());
        assert(d.subrange(1, 1 + d[0]) =~= self@);
    }
}

impl<T: WriteHci> WriteHci for Option<T> {
    open spec fn spec_hci_bytes(&self) -> Seq<u8> {
        match self {
            Some(v) => v.spec_hci_bytes(),
            None => Seq::empty(),
        }
    }

    fn size(&self) -> (r: usize) {
        match self {
            Some(v) => v.size(),
            None => 0,
        }
    }

    fn write_hci(&self, out: &mut Vec<u8>) {
        match self {
            Some(v) => v.write_hci(out),
            None => {
                proof {
                    assert(old(out)@ =~= old(out)@ + Seq::<u8>::empty());
                }
            },
        }
    }
}

/// A boolean is one byte: 1 for true, 0 for false; only those two bytes
/// decode, each to its value.
pub proof fn lemma_bool_encoding(b: bool, data: Seq<u8>)
    ensures
        b.spec_hci_bytes().len() == 1,
        b ==> b.spec_hci_bytes()[0] == 1,
        !b ==> b.spec_hci_bytes()[0] == 0,
        data.len() >= 1 && data[0] == 1 ==> <bool as FromHciBytes>::spec_from_hci_bytes(data) == Ok::<(bool, nat), FromHciBytesError>((true, 1)),
        data.len() >= 1 && data[0] == 0 ==> <bool as FromHciBytes>::spec_from_hci_bytes(data) == Ok::<(bool, nat), FromHciBytesError>((false, 1)),
        data.len() >= 1 && data[0] > 1 ==> <bool as FromHciBytes>::spec_from_hci_bytes(data) == Err::<(bool, nat), FromHciBytesError>(FromHciBytesError::InvalidValue),
{
}

/// A byte is itself; a signed byte is its two's complement bits (its value,
/// or its value plus 256 when negative), and decodes back from them.
pub proof fn lemma_byte_encodings(x: u8, y: i8, data: Seq<u8>)
    ensures
        x.spec_hci_bytes().len() == 1 && x.spec_hci_bytes()[0] == x,
        y.spec_hci_bytes().len() == 1,
        y >= 0 ==> y.spec_hci_bytes()[0] == y,
        y < 0 ==> y.spec_hci_bytes()[0] == y + 256,
        data.len() >= 1 ==> <u8 as FromHciBytes>::spec_from_hci_bytes(data) == Ok::<(u8, nat), FromHciBytesError>((data[0], 1)),
        data.len() >= 1 ==> (<i8 as FromHciBytes>::spec_from_hci_bytes(data) matches Ok((v, n)) && n == 1
            && (v == data[0] || v == data[0] - 256) && -128 <= v < 128),
{
}

/// Multi-byte integers are little-endian: byte `k` carries the value's
/// digit of weight 256^k, and decoding weighs the bytes the same way.
pub proof fn lemma_le_integer_encodings(x16: u16, y16: i16, x32: u32, data: Seq<u8>)
    ensures
        x16.spec_hci_bytes().len() == 2,
        x16.spec_hci_bytes()[0] + 256 * x16.spec_hci_bytes()[1] == x16,
        y16.spec_hci_bytes().len() == 2,
        y16 >= 0 ==> y16.spec_hci_bytes()[0] + 256 * y16.spec_hci_bytes()[1] == y16,
        y16 < 0 ==> y16.spec_hci_bytes()[0] + 256 * y16.spec_hci_bytes()[1] == y16 + 65536,
        x32.spec_hci_bytes().len() == 4,
        x32.spec_hci_bytes()[0] + 256 * x32.spec_hci_bytes()[1] + 65536 * x32.spec_hci_bytes()[2]
            + 16777216 * x32.spec_hci_bytes()[3] == x32,
        data.len() >= 2 ==> <u16 as FromHciBytes>::spec_from_hci_bytes(data) == Ok::<(u16, nat), FromHciBytesError>(
            ((data[0] + 256 * data[1]) as u16, 2),
        ),
        data.len() >= 4 ==> <u32 as FromHciBytes>::spec_from_hci_bytes(data) == Ok::<(u32, nat), FromHciBytesError>(
            ((data[0] + 256 * data[1] + 65536 * data[2] + 16777216 * data[3]) as u32, 4),
        ),
{
}

/// A 64-bit integer is little-endian too: its low four bytes carry the
/// value modulo 2^32, its high four the value divided by 2^32.
pub proof fn lemma_u64_encoding(x: u64, data: Seq<u8>)
    ensures
        x.spec_hci_bytes().len() == 8,
        ({
            let b = x.spec_hci_bytes();
            &&& b[0] + 256 * b[1] + 65536 * b[2] + 16777216 * b[3] == x % 4294967296
            &&& b[4] + 256 * b[5] + 65536 * b[6] + 16777216 * b[7] == x / 4294967296
        }),
        data.len() >= 8 ==> (<u64 as FromHciBytes>::spec_from_hci_bytes(data) matches Ok((v, n)) && n == 8
            && v == (data[0] + 256 * data[1] + 65536 * data[2] + 16777216 * data[3]) + 4294967296 * (data[4] + 256
            * data[5] + 65536 * data[6] + 16777216 * data[7])),
{
    let lo = (x % 4294967296) as u32;
    let hi = (x / 4294967296) as u32;
    lemma_le_integer_encodings(0, 0, lo, Seq::empty());
    lemma_le_integer_encodings(0, 0, hi, Seq::empty());
    assert(x.spec_hci_bytes() =~= lo.spec_hci_bytes() + hi.spec_hci_bytes());
    if data.len() >= 8 {
        let s = data;
        assert(s.skip(4)[0] == s[4] && s.skip(4)[1] == s[5] && s.skip(4)[2] == s[6] && s.skip(4)[3] == s[7]);
        let a = s[0] + 256 * s[1] + 65536 * s[2] + 16777216 * s[3];
        let c = s[4] + 256 * s[5] + 65536 * s[6] + 16777216 * s[7];
        assert(0 <= a < 4294967296 && 0 <= c < 4294967296);
        assert(0 <= a + 4294967296 * c < 18446744073709551616) by (nonlinear_arith)
            requires 0 <= a < 4294967296, 0 <= c < 4294967296;
    }
}

} // verus!
