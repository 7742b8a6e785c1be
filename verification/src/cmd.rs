//! HCI commands: opcodes, the command traits, and the command packets.

use vstd::prelude::*;

use crate::{FixedSizeValue, FromHciBytes, FromHciBytesError, HciCodec, WriteHci, parsed, failed};
use crate::param::primitives::{spec_u16_le_bytes, lemma_u16_le_roundtrip};

pub mod controller_baseband;
pub mod info;
pub mod le;
pub mod link_control;
pub mod status;

verus! {

/// An error type for HCI commands
#[derive(Debug)]
pub enum Error<E> {
    /// HCI error.
    Hci(crate::param::Error),
    /// I/O error.
    Io(E),
}

impl<E> From<crate::param::Error> for Error<E> {
    fn from(e: crate::param::Error) -> (r: Self) {
        Error::Hci(e)
    }
}

impl<E> vstd::std_specs::convert::FromSpecImpl<crate::param::Error> for Error<E> {
    open spec fn obeys_from_spec() -> bool {
        true
    }

    open spec fn from_spec(e: crate::param::Error) -> Self {
        Error::Hci(e)
    }
}

/// Link Control commands.
pub const LINK_CONTROL: u8 = 1;
/// Link Policy commands.
pub const LINK_POLICY: u8 = 2;
/// Controller & Baseband commands.
pub const CONTROL_BASEBAND: u8 = 3;
/// Informational parameters.
pub const INFO_PARAMS: u8 = 4;
/// Status parameters.
pub const STATUS_PARAMS: u8 = 5;
/// Testing commands.
pub const TESTING: u8 = 6;
/// LE Controller commands.
pub const LE: u8 = 8;
/// Vendor Specific Debug commands.
pub const VENDOR_SPECIFIC: u8 = 0x3f;

/// The 6-bit Opcode Group Field (OGF)
#[derive(Debug, Default, Clone, Copy, PartialEq, Eq, PartialOrd, Ord, Hash, Structural)]
pub struct OpcodeGroup(u8);

impl View for OpcodeGroup {
    type V = u8;

    closed spec fn view(&self) -> u8 {
        self.0
    }
}

impl OpcodeGroup {
    /// Create a new `OpcodeGroup` with the given value
    pub fn new(val: u8) -> (r: Self)
        ensures
            r@ == val,
    {
        OpcodeGroup(val)
    }
}

/// The raw opcode of command `ocf` in group `ogf`: the group in the six
/// high bits, the command in the ten low bits.
pub open spec fn spec_opcode_raw(ogf: u8, ocf: u16) -> u16 {
    ((ogf as u16) << 10u16) | ocf
}

/// Opcode
#[derive(Debug, Clone, Copy, PartialEq, Eq, PartialOrd, Ord, Hash, Default)]
pub struct Opcode(u16);

impl View for Opcode {
    type V = u16;

    closed spec fn view(&self) -> u16 {
        self.0@
    }
}

impl Opcode {
    /// Get inner representation
    pub fn into_inner(self) -> (r: u16)
        ensures
            r@ == self@,
    {
        self.0
    }

    /// A `Opcode` is written and read as its inner value.
    pub proof fn lemma_as_inner(data: Seq<u8>)
        ensures
            forall|v: Opcode| (#[trigger] v.spec_hci_bytes()) == v@.spec_hci_bytes(),
            <Opcode as FromHciBytes>::spec_from_hci_bytes(data) == <u16 as FromHciBytes>::spec_from_hci_bytes(data),
    {
    }
}

impl<'de> FromHciBytes<'de> for Opcode {
    open spec fn spec_from_hci_bytes(data: Seq<u8>) -> Result<(u16, nat), FromHciBytesError> {
        <u16 as FromHciBytes<'de>>::spec_from_hci_bytes(data)
    }

    fn from_hci_bytes(data: &'de [u8]) -> (r: Result<(Opcode, &'de [u8]), FromHciBytesError>) {
        match <u16 as FromHciBytes<'de>>::from_hci_bytes(data) {
            Ok((v, rest)) => Ok((Opcode(v), rest)),
            Err(e) => Err(e),
        }
    }
}

impl WriteHci for Opcode {
    open spec fn spec_hci_bytes(&self) -> Seq<u8> {
        spec_u16_le_bytes(self@)
    }

    fn size(&self) -> (r: usize) {
        self.0.size()
    }

    fn write_hci(&self, out: &mut Vec<u8>) {
        self.0.write_hci(out);
    }
}

impl FixedSizeValue for Opcode {
    open spec fn spec_size() -> nat {
        2
    }

    proof fn lemma_fixed_size(&self) {
        self.0.lemma_fixed_size();
    }
}

impl<'de> HciCodec<'de> for Opcode {
    open spec fn spec_encodable(&self) -> bool {
        true
    }

    proof fn lemma_write_then_read(&self, rest: Seq<u8>) {
        self.0.lemma_write_then_read(rest);
    }
}

impl Opcode {
    /// Special opcode for command events with no associated command
    pub fn unsolicited() -> (r: Opcode)
        ensures
            r@ == 0,
    {
        Opcode(0)
    }

    /// Create an `Opcode` with the given OGF and OCF values
    pub fn new(ogf: OpcodeGroup, ocf: u16) -> (r: Self)
        ensures
            r@ == spec_opcode_raw(ogf@, ocf),
    {
        Opcode(((ogf.0 as u16) << 10u16) | ocf)
    }

    /// Get the OGF value of this Opcode
    pub fn group(self) -> (r: OpcodeGroup)
        ensures
            r@ == (self@ >> 10u16) as u8,
    {
        OpcodeGroup((self.0 >> 10u16) as u8)
    }

    /// Get the OCF value of this Opcode
    pub fn cmd(self) -> (r: u16)
        ensures
            r == self@ & 0x03ffu16,
    {
        self.0 & 0x03ff
    }

    /// Get the raw 16-bit value for this Opcode
    pub fn to_raw(self) -> (r: u16)
        ensures
            r == self@,
    {
        self.0
    }
}

/// An opcode built from a group below 64 and a command below 1024 gives
/// them back.
pub proof fn lemma_opcode_fields(ogf: u8, ocf: u16)
    requires
        ogf < 64,
        ocf < 1024,
    ensures
        (spec_opcode_raw(ogf, ocf) >> 10u16) as u8 == ogf,
        spec_opcode_raw(ogf, ocf) & 0x03ffu16 == ocf,
{
    let g = ogf as u16;
    assert((((g << 10u16) | ocf) >> 10u16) == g && ((g << 10u16) | ocf) & 0x03ffu16 == ocf) by (bit_vector)
        requires
            g < 64,
            ocf < 1024,
    ;
}

/// The bytes of a command packet: the opcode, the length of the parameters
/// (as one byte), then the parameters.
pub open spec fn spec_cmd_packet(opcode: u16, params: Seq<u8>) -> Seq<u8> {
    spec_u16_le_bytes(opcode) + seq![(params.len() % 256) as u8] + params
}

/// The opcode of group `ogf` and command `ocf` is `ogf * 1024 + ocf`: the
/// command in the low ten bits, the group in the high six.
pub proof fn lemma_opcode_value(ogf: u8, ocf: u16)
    requires
        ogf < 64,
        ocf < 1024,
    ensures
        spec_opcode_raw(ogf, ocf) == ogf as int * 1024 + ocf as int,
{
    let g = ogf as u16;
    assert(((g << 10u16) | ocf) == g * 1024 + ocf) by (bit_vector)
        requires
            g < 64,
            ocf < 1024,
    ;
}

/// A command packet is the opcode (low byte first), the length of the
/// parameters, then the parameters.
pub proof fn lemma_cmd_packet_layout(opcode: u16, params: Seq<u8>)
    requires
        params.len() < 256,
    ensures
        spec_cmd_packet(opcode, params).len() == params.len() + 3,
        spec_cmd_packet(opcode, params)[0] + 256 * spec_cmd_packet(opcode, params)[1] == opcode,
        spec_cmd_packet(opcode, params)[2] == params.len(),
        spec_cmd_packet(opcode, params).skip(3) == params,
{
    crate::param::primitives::lemma_le_integer_encodings(opcode, 0, 0, Seq::empty());
    assert(spec_cmd_packet(opcode, params).skip(3) =~= params);
}

/// Append the command packet for `opcode` and `params`.
pub fn write_cmd_packet<P: WriteHci>(opcode: Opcode, params: &P, out: &mut Vec<u8>)
    ensures
        final(out)@ == old(out)@ + spec_cmd_packet(opcode@, params.spec_hci_bytes()),
{
    let mut body: Vec<u8> = Vec::new();
    params.write_hci(&mut body);
    let raw = opcode.to_raw();
    out.push((raw % 256) as u8);
    out.push((raw / 256) as u8);
    out.push((body.len() % 256) as u8);
    let ghost start = out@;
    let mut i: usize = 0;
    while i < body.len()
        invariant
            i <= body@.len(),
            out@ == start + body@.take(i as int),
        decreases body@.len() - i,
    {
        out.push(body[i]);
        i = i + 1;
        proof {
            assert(out@ =~= start + body@.take(i as int));
        }
    }
    proof {
        assert(body@ =~= params.spec_hci_bytes());
        assert(body@.take(body@.len() as int) =~= body@);
        assert(final(out)@ =~= old(out)@ + spec_cmd_packet(opcode@, params.spec_hci_bytes()));
    }
}

/// An object representing an HCI Command
pub trait Cmd: WriteHci + Sized {
    /// Parameters type for this command.
    type Params: WriteHci;

    /// The raw opcode identifying this kind of HCI Command.
    spec fn spec_opcode() -> u16;

    /// The parameters of this command.
    spec fn spec_params(&self) -> Self::Params;

    /// The opcode identifying this kind of HCI Command
    fn opcode() -> (r: Opcode)
        ensures
            r@ == Self::spec_opcode(),
    ;

    /// Parameters expected for this command.
    fn params(&self) -> (r: &Self::Params)
        ensures
            *r == self.spec_params(),
    ;

    /// The command packet header for this command
    fn header(&self) -> (r: [u8; 3])
        requires
            self.spec_params().spec_hci_bytes().len() <= usize::MAX,
        ensures
            r@ == spec_cmd_packet(Self::spec_opcode(), self.spec_params().spec_hci_bytes()).take(3),
    {
        let raw = Self::opcode().to_raw();
        let n = self.params().size();
        let r = [(raw % 256) as u8, (raw / 256) as u8, (n % 256) as u8];
        proof {
            assert(r@ =~= spec_cmd_packet(Self::spec_opcode(), self.spec_params().spec_hci_bytes()).take(3));
        }
        r
    }

    /// A command is written as its packet: header, then parameters.
    proof fn lemma_packet(&self)
        ensures
            self.spec_hci_bytes() == spec_cmd_packet(Self::spec_opcode(), self.spec_params().spec_hci_bytes()),
    ;
}

/// A marker trait for objects representing HCI Commands that generate
/// Command Status events
pub trait AsyncCmd: Cmd {
}

/// Type representing the buffer for a command response.
pub trait CmdReturnBuf: Copy + Sized {
    /// Length of buffer.
    fn buf_len() -> usize;

    /// Create a new instance of the buffer.
    fn new() -> Self;
}

impl<const N: usize> CmdReturnBuf for [u8; N] {
    /// The length of the array.
    fn buf_len() -> (r: usize)
        ensures
            r == N,
    {
        N
    }

    /// An array of zeros.
    fn new() -> (r: Self)
        ensures
            r@ == Seq::new(N as nat, |i: int| 0u8),
    {
        let r = [0u8; N];
        proof {
            assert(r@ =~= Seq::new(N as nat, |i: int| 0u8));
        }
        r
    }
}

/// A trait for objects representing HCI Commands that generate Command
/// Complete events
pub trait SyncCmd: Cmd {
    /// The type of the parameters for the Command Complete event
    type Return;
    /// Handle returned by this command.
    type Handle;

    /// `h` is the handle at the front of the return parameters `data`.
    spec fn spec_handle_ok(data: Seq<u8>, h: Self::Handle) -> bool;

    /// No handle can be read from the front of `data`, for reason `e`.
    spec fn spec_handle_err(data: Seq<u8>, e: FromHciBytesError) -> bool;

    /// `v` is what the return parameters `data` (all of them) decode to.
    spec fn spec_return_ok(data: Seq<u8>, v: Self::Return) -> bool;

    /// The return parameters `data` do not decode, for reason `e`.
    spec fn spec_return_err(data: Seq<u8>, e: FromHciBytesError) -> bool;

    /// Handle parameter for this command.
    fn param_handle(&self) -> Self::Handle;

    /// Extracts the [`Self::Handle`] from the return parameters for commands that return a handle.
    fn return_handle(data: &[u8]) -> (r: Result<Self::Handle, FromHciBytesError>)
        ensures
            match r {
                Ok(h) => Self::spec_handle_ok(data@, h),
                Err(e) => Self::spec_handle_err(data@, e),
            },
    ;

    /// Parses the return parameters of this command, which must take all of `data`.
    fn return_from_hci_bytes(data: &[u8]) -> (r: Result<Self::Return, FromHciBytesError>)
        ensures
            match r {
                Ok(v) => Self::spec_return_ok(data@, v),
                Err(e) => Self::spec_return_err(data@, e),
            },
    ;
}

/// `v` is what `data` (all of it) decodes to as a `T`.
pub open spec fn spec_decodes_complete<'a, T: FromHciBytes<'a>>(data: Seq<u8>, v: T) -> bool {
    T::spec_from_hci_bytes(data) matches Ok((sv, n)) && sv == v@ && n == data.len()
}

/// `data` (all of it) does not decode as a `T`, for reason `e`.
pub open spec fn spec_decode_complete_err<'a, T: FromHciBytes<'a>>(data: Seq<u8>, e: FromHciBytesError) -> bool {
    match T::spec_from_hci_bytes(data) {
        Ok((_, n)) => n != data.len() && e == FromHciBytesError::InvalidSize,
        Err(se) => e == se,
    }
}

/// `v` is what the front of `data` decodes to as a `T`.
pub open spec fn spec_decodes_prefix<'a, T: FromHciBytes<'a>>(data: Seq<u8>, v: T) -> bool {
    T::spec_from_hci_bytes(data) matches Ok((sv, _)) && sv == v@
}

/// The front of `data` does not decode as a `T`, for reason `e`.
pub open spec fn spec_decode_prefix_err<'a, T: FromHciBytes<'a>>(data: Seq<u8>, e: FromHciBytesError) -> bool {
    T::spec_from_hci_bytes(data) matches Err(se) && se == e
}

} // verus!
