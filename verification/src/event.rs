//! HCI events: the event packet, the events this crate decodes, and the
//! inquiry result iterator.

use vstd::prelude::*;

use crate::{FixedSizeValue, FromHciBytes, FromHciBytesError, HciCodec, WriteHci, parsed, failed, lemma_skip_skip};
use crate::cmd::{Opcode, SyncCmd};
use crate::param::{BdAddr, ClockOffset, Error, PageScanRepetitionMode, RemainingBytes, Status};
use crate::param::primitives::spec_i8_of;
use crate::param::status::INVALID_HCI_PARAMETERS;
use crate::param::le::i8_of;

pub mod le;

verus! {

/// A trait for objects which contain the parameters for a specific HCI event
pub trait EventParams<'a>: FromHciBytes<'a> {
    /// The event code these parameters are for
    fn event_code() -> u8;
}

/// EventPacketHeader parameter
#[derive(Debug, Clone, Copy, PartialEq, Eq, PartialOrd, Ord, Hash)]
#[allow(missing_docs)]
pub struct EventPacketHeader {
    pub code: u8,
    pub params_len: u8,
}

/// The value of a [`EventPacketHeader`], with byte slices taken as sequences.
#[allow(missing_docs)]
pub struct EventPacketHeaderView {
    pub code: u8,
    pub params_len: u8,
}

impl View for EventPacketHeader {
    type V = EventPacketHeaderView;

    open spec fn view(&self) -> EventPacketHeaderView {
        EventPacketHeaderView { code: self.code@, params_len: self.params_len@ }
    }
}

impl<'de> FromHciBytes<'de> for EventPacketHeader {
    open spec fn spec_from_hci_bytes(data: Seq<u8>) -> Result<(EventPacketHeaderView, nat), FromHciBytesError> {
        if data.len() < 2 {
            Err(FromHciBytesError::InvalidSize)
        } else {
            match <u8 as FromHciBytes<'de>>::spec_from_hci_bytes(data) {
                Err(e) => Err(e),
                Ok((v_code, n_code)) => {
                    match <u8 as FromHciBytes<'de>>::spec_from_hci_bytes(data.skip(n_code as int)) {
                        Err(e) => Err(e),
                        Ok((v_params_len, n_params_len)) => {
                            Ok((EventPacketHeaderView { code: v_code, params_len: v_params_len }, (n_code + n_params_len) as nat))
                        },
                    }
                },
            }
        }
    }

    fn from_hci_bytes(data: &'de [u8]) -> (r: Result<(EventPacketHeader, &'de [u8]), FromHciBytesError>) {
        if data.len() < 2 {
            return Err(FromHciBytesError::InvalidSize);
        }
        let (v_code, rest_code) = match <u8 as FromHciBytes<'de>>::from_hci_bytes(data) {
            Ok(x) => x,
            Err(e) => return Err(e),
        };
        let (v_params_len, rest_params_len) = match <u8 as FromHciBytes<'de>>::from_hci_bytes(rest_code) {
            Ok(x) => x,
            Err(e) => return Err(e),
        };
        proof {
            lemma_skip_skip(data@, (data@.len() - rest_code@.len()) as int, (rest_code@.len() - rest_params_len@.len()) as int);
        }
        Ok((EventPacketHeader { code: v_code, params_len: v_params_len }, rest_params_len))
    }
}

impl WriteHci for EventPacketHeader {
    open spec fn spec_hci_bytes(&self) -> Seq<u8> {
        self.code.spec_hci_bytes() + self.params_len.spec_hci_bytes()
    }

    fn size(&self) -> (r: usize) {
        let mut n = self.code.size();
        proof {
            assert(self.code.spec_hci_bytes() + self.params_len.spec_hci_bytes() =~= (self.code.spec_hci_bytes() + self.params_len.spec_hci_bytes()));
        }
        n = n + self.params_len.size();
        n
    }

    fn write_hci(&self, out: &mut Vec<u8>) {
        self.code.write_hci(out);
        self.params_len.write_hci(out);
        proof {
            assert(out@ =~= old(out)@ + self.spec_hci_bytes());
        }
    }
}

impl EventPacketHeader {
    /// The bytes of a `EventPacketHeader` are the bytes of its fields, one after the
    /// other, in the order in which the fields are declared.
    pub proof fn lemma_fields_in_order(&self)
        ensures
            self.spec_hci_bytes() == self.code.spec_hci_bytes() + self.params_len.spec_hci_bytes(),
    {
    }
}

impl FixedSizeValue for EventPacketHeader {
    open spec fn spec_size() -> nat {
        2
    }

    proof fn lemma_fixed_size(&self) {
        self.code.lemma_fixed_size();
        self.params_len.lemma_fixed_size();
    }
}

impl<'de> HciCodec<'de> for EventPacketHeader {
    open spec fn spec_encodable(&self) -> bool {
        self.code.spec_encodable() && self.params_len.spec_encodable()
    }

    proof fn lemma_write_then_read(&self, rest: Seq<u8>) {
        self.code.lemma_fixed_size();
        self.params_len.lemma_fixed_size();
        let t_params_len = self.params_len.spec_hci_bytes() + rest;
        let t_code = self.code.spec_hci_bytes() + t_params_len;
        assert(self.spec_hci_bytes() + rest =~= t_code);
        self.code.lemma_write_then_read(t_params_len);
        self.params_len.lemma_write_then_read(rest);
        assert(t_code.skip(self.code.spec_hci_bytes().len() as int) =~= t_params_len);
    }
}

/// The event code of a Command Complete event.
pub const COMMAND_COMPLETE: u8 = 0x0e;
/// The event code of a Command Status event.
pub const COMMAND_STATUS: u8 = 0x0f;
/// The event code of an LE Meta event.
pub const LE_META: u8 = 0x3e;

/// An Event kind
#[derive(Debug, Clone, Copy, Hash, PartialEq, Eq, Structural)]
pub struct EventKind(pub u8);

/// The kind and parameters of an event packet.
pub struct EventPacketView {
    pub kind: u8,
    pub data: Seq<u8>,
}

/// An Event HCI packet
#[derive(Debug, Clone, Copy, Hash)]
pub struct EventPacket<'a> {
    /// Which kind of event.
    pub kind: EventKind,
    /// Event data.
    pub data: &'a [u8],
}

impl<'a> View for EventPacket<'a> {
    type V = EventPacketView;

    open spec fn view(&self) -> EventPacketView {
        EventPacketView { kind: self.kind.0, data: self.data@ }
    }
}

/// The parameters that follow an event header: the first `len` bytes of
/// `data`, or `InvalidSize` when there are fewer.
pub open spec fn spec_event_params(len: u8, data: Seq<u8>) -> Result<Seq<u8>, FromHciBytesError> {
    if data.len() < len {
        Err(FromHciBytesError::InvalidSize)
    } else {
        Ok(data.take(len as int))
    }
}

impl<'a> EventPacket<'a> {
    /// Create an `EventPacket` from `header` and the bytes that follow it.
    pub fn from_header_hci_bytes(header: EventPacketHeader, data: &'a [u8]) -> (r: Result<Self, FromHciBytesError>)
        ensures
            match r {
                Ok(p) => spec_event_params(header.params_len, data@) == Ok::<Seq<u8>, FromHciBytesError>(p@.data)
                    && p@.kind == header.code,
                Err(e) => spec_event_params(header.params_len, data@) == Err::<Seq<u8>, FromHciBytesError>(e),
            },
    {
        let len = header.params_len as usize;
        if data.len() < len {
            return Err(FromHciBytesError::InvalidSize);
        }
        let (params, _) = data.split_at(len);
        Ok(EventPacket { kind: EventKind(header.code), data: params })
    }
}

impl<'de> FromHciBytes<'de> for EventPacket<'de> {
    /// The header, then its parameters; the packet takes all of `data`.
    open spec fn spec_from_hci_bytes(data: Seq<u8>) -> Result<(EventPacketView, nat), FromHciBytesError> {
        match EventPacketHeader::spec_from_hci_bytes(data) {
            Err(e) => Err(e),
            Ok((h, n)) => match spec_event_params(h.params_len, data.skip(n as int)) {
                Err(e) => Err(e),
                Ok(params) => Ok((EventPacketView { kind: h.code, data: params }, data.len())),
            },
        }
    }

    fn from_hci_bytes(data: &'de [u8]) -> (r: Result<(EventPacket<'de>, &'de [u8]), FromHciBytesError>) {
        let (header, rest) = match EventPacketHeader::from_hci_bytes(data) {
            Ok(x) => x,
            Err(e) => return Err(e),
        };
        match EventPacket::from_header_hci_bytes(header, rest) {
            Ok(p) => {
                let (_, empty) = data.split_at(data.len());
                Ok((p, empty))
            },
            Err(e) => Err(e),
        }
    }
}

/// CommandComplete parameter
#[derive(Debug, Clone, Copy, PartialEq, Eq, PartialOrd, Ord, Hash, Default)]
#[allow(missing_docs)]
pub struct CommandComplete<'a> {
    pub num_hci_cmd_pkts: u8,
    pub cmd_opcode: Opcode,
    pub bytes: RemainingBytes<'a>,
}

/// The value of a [`CommandComplete`], with byte slices taken as sequences.
#[allow(missing_docs)]
pub struct CommandCompleteView {
    pub num_hci_cmd_pkts: u8,
    pub cmd_opcode: u16,
    pub bytes: Seq<u8>,
}

impl<'a> View for CommandComplete<'a> {
    type V = CommandCompleteView;

    open spec fn view(&self) -> CommandCompleteView {
        CommandCompleteView { num_hci_cmd_pkts: self.num_hci_cmd_pkts@, cmd_opcode: self.cmd_opcode@, bytes: self.bytes@ }
    }
}

impl<'de> FromHciBytes<'de> for CommandComplete<'de> {
    open spec fn spec_from_hci_bytes(data: Seq<u8>) -> Result<(CommandCompleteView, nat), FromHciBytesError> {
        match <u8 as FromHciBytes<'de>>::spec_from_hci_bytes(data) {
            Err(e) => Err(e),
            Ok((v_num_hci_cmd_pkts, n_num_hci_cmd_pkts)) => {
                match <Opcode as FromHciBytes<'de>>::spec_from_hci_bytes(data.skip(n_num_hci_cmd_pkts as int)) {
                    Err(e) => Err(e),
                    Ok((v_cmd_opcode, n_cmd_opcode)) => {
                        match <RemainingBytes<'de> as FromHciBytes<'de>>::spec_from_hci_bytes(data.skip(n_num_hci_cmd_pkts as int).skip(n_cmd_opcode as int)) {
                            Err(e) => Err(e),
                            Ok((v_bytes, n_bytes)) => {
                                Ok((CommandCompleteView { num_hci_cmd_pkts: v_num_hci_cmd_pkts, cmd_opcode: v_cmd_opcode, bytes: v_bytes }, (n_num_hci_cmd_pkts + n_cmd_opcode + n_bytes) as nat))
                            },
                        }
                    },
                }
            },
        }
    }

    fn from_hci_bytes(data: &'de [u8]) -> (r: Result<(CommandComplete<'de>, &'de [u8]), FromHciBytesError>) {
        let (v_num_hci_cmd_pkts, rest_num_hci_cmd_pkts) = match <u8 as FromHciBytes<'de>>::from_hci_bytes(data) {
            Ok(x) => x,
            Err(e) => return Err(e),
        };
        let (v_cmd_opcode, rest_cmd_opcode) = match <Opcode as FromHciBytes<'de>>::from_hci_bytes(rest_num_hci_cmd_pkts) {
            Ok(x) => x,
            Err(e) => return Err(e),
        };
        proof {
            lemma_skip_skip(data@, (data@.len() - rest_num_hci_cmd_pkts@.len()) as int, (rest_num_hci_cmd_pkts@.len() - rest_cmd_opcode@.len()) as int);
        }
        let (v_bytes, rest_bytes) = match <RemainingBytes<'de> as FromHciBytes<'de>>::from_hci_bytes(rest_cmd_opcode) {
            Ok(x) => x,
            Err(e) => return Err(e),
        };
        proof {
            lemma_skip_skip(data@, (data@.len() - rest_cmd_opcode@.len()) as int, (rest_cmd_opcode@.len() - rest_bytes@.len()) as int);
        }
        Ok((CommandComplete { num_hci_cmd_pkts: v_num_hci_cmd_pkts, cmd_opcode: v_cmd_opcode, bytes: v_bytes }, rest_bytes))
    }
}

impl<'a> WriteHci for CommandComplete<'a> {
    open spec fn spec_hci_bytes(&self) -> Seq<u8> {
        self.num_hci_cmd_pkts.spec_hci_bytes() + self.cmd_opcode.spec_hci_bytes() + self.bytes.spec_hci_bytes()
    }

    fn size(&self) -> (r: usize) {
        let mut n = self.num_hci_cmd_pkts.size();
        proof {
            assert(self.num_hci_cmd_pkts.spec_hci_bytes() + self.cmd_opcode.spec_hci_bytes() =~= (self.num_hci_cmd_pkts.spec_hci_bytes() + self.cmd_opcode.spec_hci_bytes()));
        }
        n = n + self.cmd_opcode.size();
        proof {
            assert(self.num_hci_cmd_pkts.spec_hci_bytes() + self.cmd_opcode.spec_hci_bytes() + self.bytes.spec_hci_bytes() =~= (self.num_hci_cmd_pkts.spec_hci_bytes() + self.cmd_opcode.spec_hci_bytes() + self.bytes.spec_hci_bytes()));
        }
        n = n + self.bytes.size();
        n
    }

    fn write_hci(&self, out: &mut Vec<u8>) {
        self.num_hci_cmd_pkts.write_hci(out);
        self.cmd_opcode.write_hci(out);
        self.bytes.write_hci(out);
        proof {
            assert(out@ =~= old(out)@ + self.spec_hci_bytes());
        }
    }
}

impl<'a> CommandComplete<'a> {
    /// The bytes of a `CommandComplete` are the bytes of its fields, one after the
    /// other, in the order in which the fields are declared.
    pub proof fn lemma_fields_in_order(&self)
        ensures
            self.spec_hci_bytes() == self.num_hci_cmd_pkts.spec_hci_bytes() + self.cmd_opcode.spec_hci_bytes() + self.bytes.spec_hci_bytes(),
    {
    }
}


/// CommandStatus parameter
#[derive(Debug, Clone, Copy, PartialEq, Eq, PartialOrd, Ord, Hash)]
#[allow(missing_docs)]
pub struct CommandStatus {
    pub status: Status,
    pub num_hci_cmd_pkts: u8,
    pub cmd_opcode: Opcode,
}

/// The value of a [`CommandStatus`], with byte slices taken as sequences.
#[allow(missing_docs)]
pub struct CommandStatusView {
    pub status: u8,
    pub num_hci_cmd_pkts: u8,
    pub cmd_opcode: u16,
}

impl View for CommandStatus {
    type V = CommandStatusView;

    open spec fn view(&self) -> CommandStatusView {
        CommandStatusView { status: self.status@, num_hci_cmd_pkts: self.num_hci_cmd_pkts@, cmd_opcode: self.cmd_opcode@ }
    }
}

impl<'de> FromHciBytes<'de> for CommandStatus {
    open spec fn spec_from_hci_bytes(data: Seq<u8>) -> Result<(CommandStatusView, nat), FromHciBytesError> {
        if data.len() < 4 {
            Err(FromHciBytesError::InvalidSize)
        } else {
            match <Status as FromHciBytes<'de>>::spec_from_hci_bytes(data) {
                Err(e) => Err(e),
                Ok((v_status, n_status)) => {
                    match <u8 as FromHciBytes<'de>>::spec_from_hci_bytes(data.skip(n_status as int)) {
                        Err(e) => Err(e),
                        Ok((v_num_hci_cmd_pkts, n_num_hci_cmd_pkts)) => {
                            match <Opcode as FromHciBytes<'de>>::spec_from_hci_bytes(data.skip(n_status as int).skip(n_num_hci_cmd_pkts as int)) {
                                Err(e) => Err(e),
                                Ok((v_cmd_opcode, n_cmd_opcode)) => {
                                    Ok((CommandStatusView { status: v_status, num_hci_cmd_pkts: v_num_hci_cmd_pkts, cmd_opcode: v_cmd_opcode }, (n_status + n_num_hci_cmd_pkts + n_cmd_opcode) as nat))
                                },
                            }
                        },
                    }
                },
            }
        }
    }

    fn from_hci_bytes(data: &'de [u8]) -> (r: Result<(CommandStatus, &'de [u8]), FromHciBytesError>) {
        if data.len() < 4 {
            return Err(FromHciBytesError::InvalidSize);
        }
        let (v_status, rest_status) = match <Status as FromHciBytes<'de>>::from_hci_bytes(data) {
            Ok(x) => x,
            Err(e) => return Err(e),
        };
        let (v_num_hci_cmd_pkts, rest_num_hci_cmd_pkts) = match <u8 as FromHciBytes<'de>>::from_hci_bytes(rest_status) {
            Ok(x) => x,
            Err(e) => return Err(e),
        };
        proof {
            lemma_skip_skip(data@, (data@.len() - rest_status@.len()) as int, (rest_status@.len() - rest_num_hci_cmd_pkts@.len()) as int);
        }
        let (v_cmd_opcode, rest_cmd_opcode) = match <Opcode as FromHciBytes<'de>>::from_hci_bytes(rest_num_hci_cmd_pkts) {
            Ok(x) => x,
            Err(e) => return Err(e),
        };
        proof {
            lemma_skip_skip(data@, (data@.len() - rest_num_hci_cmd_pkts@.len()) as int, (rest_num_hci_cmd_pkts@.len() - rest_cmd_opcode@.len()) as int);
        }
        Ok((CommandStatus { status: v_status, num_hci_cmd_pkts: v_num_hci_cmd_pkts, cmd_opcode: v_cmd_opcode }, rest_cmd_opcode))
    }
}

impl WriteHci for CommandStatus {
    open spec fn spec_hci_bytes(&self) -> Seq<u8> {
        self.status.spec_hci_bytes() + self.num_hci_cmd_pkts.spec_hci_bytes() + self.cmd_opcode.spec_hci_bytes()
    }

    fn size(&self) -> (r: usize) {
        let mut n = self.status.size();
        proof {
            assert(self.status.spec_hci_bytes() + self.num_hci_cmd_pkts.spec_hci_bytes() =~= (self.status.spec_hci_bytes() + self.num_hci_cmd_pkts.spec_hci_bytes()));
        }
        n = n + self.num_hci_cmd_pkts.size();
        proof {
            assert(self.status.spec_hci_bytes() + self.num_hci_cmd_pkts.spec_hci_bytes() + self.cmd_opcode.spec_hci_bytes() =~= (self.status.spec_hci_bytes() + self.num_hci_cmd_pkts.spec_hci_bytes() + self.cmd_opcode.spec_hci_bytes()));
        }
        n = n + self.cmd_opcode.size();
        n
    }

    fn write_hci(&self, out: &mut Vec<u8>) {
        self.status.write_hci(out);
        self.num_hci_cmd_pkts.write_hci(out);
        self.cmd_opcode.write_hci(out);
        proof {
            assert(out@ =~= old(out)@ + self.spec_hci_bytes());
        }
    }
}

impl CommandStatus {
    /// The bytes of a `CommandStatus` are the bytes of its fields, one after the
    /// other, in the order in which the fields are declared.
    pub proof fn lemma_fields_in_order(&self)
        ensures
            self.spec_hci_bytes() == self.status.spec_hci_bytes() + self.num_hci_cmd_pkts.spec_hci_bytes() + self.cmd_opcode.spec_hci_bytes(),
    {
    }
}

impl FixedSizeValue for CommandStatus {
    open spec fn spec_size() -> nat {
        4
    }

    proof fn lemma_fixed_size(&self) {
        self.status.lemma_fixed_size();
        self.num_hci_cmd_pkts.lemma_fixed_size();
        self.cmd_opcode.lemma_fixed_size();
    }
}

impl<'de> HciCodec<'de> for CommandStatus {
    open spec fn spec_encodable(&self) -> bool {
        self.status.spec_encodable() && self.num_hci_cmd_pkts.spec_encodable() && self.cmd_opcode.spec_encodable()
    }

    proof fn lemma_write_then_read(&self, rest: Seq<u8>) {
        self.status.lemma_fixed_size();
        self.num_hci_cmd_pkts.lemma_fixed_size();
        self.cmd_opcode.lemma_fixed_size();
        let t_cmd_opcode = self.cmd_opcode.spec_hci_bytes() + rest;
        let t_num_hci_cmd_pkts = self.num_hci_cmd_pkts.spec_hci_bytes() + t_cmd_opcode;
        let t_status = self.status.spec_hci_bytes() + t_num_hci_cmd_pkts;
        assert(self.spec_hci_bytes() + rest =~= t_status);
        self.status.lemma_write_then_read(t_num_hci_cmd_pkts);
        self.num_hci_cmd_pkts.lemma_write_then_read(t_cmd_opcode);
        self.cmd_opcode.lemma_write_then_read(rest);
        assert(t_status.skip(self.status.spec_hci_bytes().len() as int) =~= t_num_hci_cmd_pkts);
        assert(t_num_hci_cmd_pkts.skip(self.num_hci_cmd_pkts.spec_hci_bytes().len() as int) =~= t_cmd_opcode);
    }
}

impl<'a> EventParams<'a> for CommandComplete<'a> {
    fn event_code() -> (r: u8)
        ensures
            r == COMMAND_COMPLETE,
    {
        COMMAND_COMPLETE
    }
}

impl<'a> EventParams<'a> for CommandStatus {
    fn event_code() -> (r: u8)
        ensures
            r == COMMAND_STATUS,
    {
        COMMAND_STATUS
    }
}

/// An Event HCI packet, decoded.
#[derive(Debug, Clone, Copy, Hash)]
pub enum Event<'a> {
    /// Command Complete event.
    CommandComplete(CommandComplete<'a>),
    /// Command Status event.
    CommandStatus(CommandStatus),
    /// An event with an unknown code value
    Unknown {
        /// The event code
        code: u8,
        /// The bytes of the event parameters
        params: &'a [u8],
    },
}

/// The value of a decoded event.
pub enum EventView {
    CommandComplete(CommandCompleteView),
    CommandStatus(CommandStatusView),
    Unknown { code: u8, params: Seq<u8> },
}

impl<'a> View for Event<'a> {
    type V = EventView;

    open spec fn view(&self) -> EventView {
        match self {
            Event::CommandComplete(e) => EventView::CommandComplete(e@),
            Event::CommandStatus(e) => EventView::CommandStatus(e@),
            Event::Unknown { code, params } => EventView::Unknown { code: *code, params: params@ },
        }
    }
}

/// The event that the parameters `params` of an event with code `code`
/// decode to: the parameters of a known event must be decoded whole.
pub open spec fn spec_event_from_params(code: u8, params: Seq<u8>) -> Result<EventView, FromHciBytesError> {
    if code == COMMAND_COMPLETE {
        match CommandComplete::spec_from_hci_bytes(params) {
            Ok((v, n)) => if n == params.len() {
                Ok(EventView::CommandComplete(v))
            } else {
                Err(FromHciBytesError::InvalidSize)
            },
            Err(e) => Err(e),
        }
    } else if code == COMMAND_STATUS {
        match CommandStatus::spec_from_hci_bytes(params) {
            Ok((v, n)) => if n == params.len() {
                Ok(EventView::CommandStatus(v))
            } else {
                Err(FromHciBytesError::InvalidSize)
            },
            Err(e) => Err(e),
        }
    } else {
        Ok(EventView::Unknown { code, params })
    }
}

impl<'a> Event<'a> {
    /// Decode the event of an event packet.
    pub fn from_packet(packet: EventPacket<'a>) -> (r: Result<Self, FromHciBytesError>)
        ensures
            match r {
                Ok(ev) => spec_event_from_params(packet.kind.0, packet.data@) == Ok::<EventView, FromHciBytesError>(ev@),
                Err(e) => spec_event_from_params(packet.kind.0, packet.data@) == Err::<EventView, FromHciBytesError>(e),
            },
    {
        Self::from_code_params(packet.kind.0, packet.data)
    }

    fn from_code_params(code: u8, params: &'a [u8]) -> (r: Result<Self, FromHciBytesError>)
        ensures
            match r {
                Ok(ev) => spec_event_from_params(code, params@) == Ok::<EventView, FromHciBytesError>(ev@),
                Err(e) => spec_event_from_params(code, params@) == Err::<EventView, FromHciBytesError>(e),
            },
    {
        if code == COMMAND_COMPLETE {
            match CommandComplete::from_hci_bytes_complete(params) {
                Ok(e) => Ok(Event::CommandComplete(e)),
                Err(e) => Err(e),
            }
        } else if code == COMMAND_STATUS {
            match CommandStatus::from_hci_bytes_complete(params) {
                Ok(e) => Ok(Event::CommandStatus(e)),
                Err(e) => Err(e),
            }
        } else {
            Ok(Event::Unknown { code, params })
        }
    }
}

impl<'a> TryFrom<EventPacket<'a>> for Event<'a> {
    type Error = FromHciBytesError;

    fn try_from(packet: EventPacket<'a>) -> (r: Result<Event<'a>, FromHciBytesError>) {
        Event::from_packet(packet)
    }
}

impl<'a> vstd::std_specs::convert::TryFromSpecImpl<EventPacket<'a>> for Event<'a> {
    open spec fn obeys_try_from_spec() -> bool {
        false
    }

    open spec fn try_from_spec(v: EventPacket<'a>) -> Result<Event<'a>, FromHciBytesError> {
        arbitrary()
    }
}

impl<'de> FromHciBytes<'de> for Event<'de> {
    /// The header, then its parameters decoded by the event code.
    open spec fn spec_from_hci_bytes(data: Seq<u8>) -> Result<(EventView, nat), FromHciBytesError> {
        match EventPacketHeader::spec_from_hci_bytes(data) {
            Err(e) => Err(e),
            Ok((h, n)) => match spec_event_params(h.params_len, data.skip(n as int)) {
                Err(e) => Err(e),
                Ok(params) => match spec_event_from_params(h.code, params) {
                    Err(e) => Err(e),
                    Ok(ev) => Ok((ev, (n + h.params_len) as nat)),
                },
            },
        }
    }

    fn from_hci_bytes(data: &'de [u8]) -> (r: Result<(Event<'de>, &'de [u8]), FromHciBytesError>) {
        let (header, rest) = match EventPacketHeader::from_hci_bytes(data) {
            Ok(x) => x,
            Err(e) => return Err(e),
        };
        let len = header.params_len as usize;
        if rest.len() < len {
            return Err(FromHciBytesError::InvalidSize);
        }
        let (params, rest2) = rest.split_at(len);
        proof {
            lemma_skip_skip(data@, 2, len as int);
        }
        match Event::from_code_params(header.code, params) {
            Ok(ev) => Ok((ev, rest2)),
            Err(e) => Err(e),
        }
    }
}

impl<'a> CommandComplete<'a> {
    /// Whether or not this event has a status
    pub fn has_status(&self) -> (r: bool)
        ensures
            r == (self.cmd_opcode@ != 0),
    {
        self.cmd_opcode.to_raw() != 0
    }
}

/// Struct representing a command complete event with status
#[derive(Debug, Clone, PartialEq, Eq)]
pub struct CommandCompleteWithStatus<'d> {
    /// Number of packets complete.
    pub num_hci_cmd_pkts: u8,
    /// Command opcode.
    pub cmd_opcode: Opcode,
    /// Command status.
    pub status: Status,
    /// Return parameters
    pub return_param_bytes: RemainingBytes<'d>,
}

impl<'d> CommandCompleteWithStatus<'d> {
    /// Split the status from the front of the return parameters of a
    /// Command Complete event. An unsolicited event (opcode zero) has no
    /// status and is refused with `InvalidSize`, as are empty parameters.
    pub fn from_command_complete(e: CommandComplete<'d>) -> (r: Result<Self, FromHciBytesError>)
        ensures
            e.cmd_opcode@ == 0 || e.bytes@.len() == 0 <==> r is Err,
            r matches Err(err) ==> err == FromHciBytesError::InvalidSize,
            r matches Ok(c) ==> c.num_hci_cmd_pkts == e.num_hci_cmd_pkts && c.cmd_opcode == e.cmd_opcode
                && c.status@ == e.bytes@[0] && c.return_param_bytes@ == e.bytes@.skip(1),
    {
        if e.cmd_opcode.to_raw() == 0 {
            return Err(FromHciBytesError::InvalidSize);
        }
        let bytes = e.bytes.into_inner();
        let (status, remaining) = match Status::from_hci_bytes(bytes) {
            Ok(x) => x,
            Err(err) => return Err(err),
        };
        let return_param_bytes = match RemainingBytes::from_hci_bytes_complete(remaining) {
            Ok(x) => x,
            Err(err) => return Err(err),
        };
        Ok(CommandCompleteWithStatus { num_hci_cmd_pkts: e.num_hci_cmd_pkts, cmd_opcode: e.cmd_opcode, status, return_param_bytes })
    }

    /// Gets the connection handle associated with the command that has completed.
    ///
    /// For commands that return the connection handle provided as a parameter as
    /// their first return parameter, this will be valid even if `status` is an error.
    pub fn handle<C: SyncCmd>(&self) -> (r: Result<C::Handle, FromHciBytesError>)
        ensures
            match r {
                Ok(h) => C::spec_handle_ok(self.return_param_bytes@, h),
                Err(e) => C::spec_handle_err(self.return_param_bytes@, e),
            },
    {
        C::return_handle(self.return_param_bytes.as_slice())
    }

    /// Gets a result with the return parameters for `C` or an `Error` if `status` is
    /// an error.
    pub fn to_result<C: SyncCmd>(&self) -> (r: Result<C::Return, Error>)
        requires
            self.cmd_opcode@ == C::spec_opcode(),
        ensures
            self.status@ != 0 ==> (r matches Err(e) && e@ == self.status@),
            self.status@ == 0 ==> match r {
                Ok(v) => C::spec_return_ok(self.return_param_bytes@, v),
                Err(e) => e@ == INVALID_HCI_PARAMETERS && exists|pe: FromHciBytesError| #[trigger] C::spec_return_err(self.return_param_bytes@, pe),
            },
    {
        match self.status.to_result() {
            Err(e) => Err(e),
            Ok(()) => match self.return_params::<C>() {
                Ok(v) => Ok(v),
                Err(_) => Err(Error::from_u8(INVALID_HCI_PARAMETERS).unwrap()),
            },
        }
    }

    /// Parses the return parameters for `C` from this event. This may fail if `status`
    /// is an error.
    pub fn return_params<C: SyncCmd>(&self) -> (r: Result<C::Return, FromHciBytesError>)
        requires
            self.cmd_opcode@ == C::spec_opcode(),
        ensures
            match r {
                Ok(v) => C::spec_return_ok(self.return_param_bytes@, v),
                Err(e) => C::spec_return_err(self.return_param_bytes@, e),
            },
    {
        C::return_from_hci_bytes(self.return_param_bytes.as_slice())
    }
}

/// Struct representing a single parsed inquiry result item
#[derive(Debug, Clone, PartialEq, Eq)]
pub struct InquiryResultItem {
    /// Bluetooth Device Address (BD_ADDR) of the device found
    pub bd_addr: BdAddr,
    /// Page scan repetition mode of the device
    pub page_scan_repetition_mode: Option<PageScanRepetitionMode>,
    /// Class of device (CoD) of the device found
    pub class_of_device: Option<[u8; 3]>,
    /// Clock offset of the device found
    pub clock_offset: Option<ClockOffset>,
    /// Received Signal Strength Indicator (RSSI) of the device found
    /// This field is only present in `InquiryResultWithRssi`
    pub rssi: Option<i8>,
}

/// The value of an inquiry result item, with byte arrays as sequences.
pub struct InquiryResultItemView {
    pub bd_addr: Seq<u8>,
    pub page_scan_repetition_mode: Option<PageScanRepetitionMode>,
    pub class_of_device: Option<Seq<u8>>,
    pub clock_offset: Option<Seq<u8>>,
    pub rssi: Option<i8>,
}

impl View for InquiryResultItem {
    type V = InquiryResultItemView;

    open spec fn view(&self) -> InquiryResultItemView {
        InquiryResultItemView {
            bd_addr: self.bd_addr@,
            page_scan_repetition_mode: self.page_scan_repetition_mode,
            class_of_device: match self.class_of_device {
                Some(c) => Some(c@),
                None => None,
            },
            clock_offset: match self.clock_offset {
                Some(c) => Some(c@),
                None => None,
            },
            rssi: self.rssi,
        }
    }
}

/// Kind of inquiry result, indicating whether it includes RSSI or not
#[derive(Copy, Clone, Debug, PartialEq, Eq, Structural)]
pub enum InquiryResultKind {
    /// Standard inquiry result without RSSI
    Standard,
    /// Inquiry result with RSSI
    WithRssi,
}

/// Iterator over inquiry result items
pub struct InquiryResultIter<'a> {
    bytes: &'a [u8],
    num_responses: usize,
    idx: usize,
    kind: InquiryResultKind,
}

/// The item at index `i` of `n` inquiry results laid out column by column in
/// `bytes`: all addresses, all page scan modes, the reserved bytes (two per
/// result, or one with RSSI), all classes of device, all clock offsets, then
/// (with RSSI) all RSSI values. `None` when the address does not fit; each
/// other field is `None` when its bytes do not fit (or, for the page scan
/// mode, do not hold a valid mode).
pub open spec fn spec_inquiry_item(bytes: Seq<u8>, n: int, i: int, kind: InquiryResultKind) -> Option<InquiryResultItemView> {
    let reserved_size = if kind == InquiryResultKind::Standard { n * 2 } else { n };
    let page_scan_off = n * 6 + i;
    let class_off = n * 6 + n + reserved_size + i * 3;
    let clock_off = n * 6 + n + reserved_size + n * 3 + i * 2;
    let rssi_off = n * 6 + n + reserved_size + n * 3 + n * 2 + i;
    if bytes.len() < i * 6 + 6 {
        None
    } else {
        Some(
            InquiryResultItemView {
                bd_addr: bytes.subrange(i * 6, i * 6 + 6),
                page_scan_repetition_mode: if page_scan_off < bytes.len() {
                    PageScanRepetitionMode::spec_from_raw(bytes[page_scan_off])
                } else {
                    None
                },
                class_of_device: if class_off + 3 <= bytes.len() {
                    Some(bytes.subrange(class_off, class_off + 3))
                } else {
                    None
                },
                clock_offset: if clock_off + 2 <= bytes.len() {
                    Some(bytes.subrange(clock_off, clock_off + 2))
                } else {
                    None
                },
                rssi: if kind == InquiryResultKind::WithRssi && rssi_off < bytes.len() {
                    Some(spec_i8_of(bytes[rssi_off]))
                } else {
                    None
                },
            },
        )
    }
}

/// Where the fields of inquiry result `i` of `n` sit: the results are laid
/// out column by column, six bytes of address each, then one page scan
/// mode each, then the reserved bytes (two per result, or one with RSSI),
/// then three bytes of class of device each, then two bytes of clock offset
/// each, then (with RSSI) one RSSI byte each. So with `n` standard results,
/// the class of device of result `i` is the three bytes at `9n + 3i`.
pub proof fn lemma_inquiry_layout(bytes: Seq<u8>, n: int, i: int, kind: InquiryResultKind)
    requires
        0 <= i < n,
        i * 6 + 6 <= bytes.len(),
    ensures
        spec_inquiry_item(bytes, n, i, kind) matches Some(item) && {
            &&& item.bd_addr == bytes.subrange(6 * i, 6 * i + 6)
            &&& (6 * n + i < bytes.len() ==> item.page_scan_repetition_mode
                == PageScanRepetitionMode::spec_from_raw(bytes[6 * n + i]))
            &&& (6 * n + i >= bytes.len() ==> item.page_scan_repetition_mode is None)
            &&& (kind == InquiryResultKind::Standard ==> {
                &&& (9 * n + 3 * i + 3 <= bytes.len() ==> item.class_of_device == Some(
                    bytes.subrange(9 * n + 3 * i, 9 * n + 3 * i + 3),
                ))
                &&& (9 * n + 3 * i + 3 > bytes.len() ==> item.class_of_device is None)
                &&& (12 * n + 2 * i + 2 <= bytes.len() ==> item.clock_offset == Some(
                    bytes.subrange(12 * n + 2 * i, 12 * n + 2 * i + 2),
                ))
                &&& (12 * n + 2 * i + 2 > bytes.len() ==> item.clock_offset is None)
                &&& item.rssi is None
            })
            &&& (kind == InquiryResultKind::WithRssi ==> {
                &&& (8 * n + 3 * i + 3 <= bytes.len() ==> item.class_of_device == Some(
                    bytes.subrange(8 * n + 3 * i, 8 * n + 3 * i + 3),
                ))
                &&& (8 * n + 3 * i + 3 > bytes.len() ==> item.class_of_device is None)
                &&& (11 * n + 2 * i + 2 <= bytes.len() ==> item.clock_offset == Some(
                    bytes.subrange(11 * n + 2 * i, 11 * n + 2 * i + 2),
                ))
                &&& (11 * n + 2 * i + 2 > bytes.len() ==> item.clock_offset is None)
                &&& (13 * n + i < bytes.len() ==> item.rssi == Some(spec_i8_of(bytes[13 * n + i])))
                &&& (13 * n + i >= bytes.len() ==> item.rssi is None)
            })
        },
{
}

/// The classes of device of two results never share a byte: each takes
/// its own three bytes, the next one starting where the last one ends.
pub proof fn lemma_inquiry_classes_apart(bytes: Seq<u8>, n: int, i: int, j: int, kind: InquiryResultKind)
    requires
        0 <= i < j < n,
        j * 6 + 6 <= bytes.len(),
        spec_inquiry_item(bytes, n, j, kind) matches Some(b) && b.class_of_device is Some,
    ensures
        spec_inquiry_item(bytes, n, i, kind) matches Some(a) && a.class_of_device matches Some(ca)
            && ca == bytes.subrange(
            (if kind == InquiryResultKind::Standard { 9 * n } else { 8 * n }) + 3 * i,
            (if kind == InquiryResultKind::Standard { 9 * n } else { 8 * n }) + 3 * i + 3,
        ) && (if kind == InquiryResultKind::Standard { 9 * n } else { 8 * n }) + 3 * i + 3 <= (if kind
            == InquiryResultKind::Standard { 9 * n } else { 8 * n }) + 3 * j,
{
    lemma_inquiry_layout(bytes, n, i, kind);
    lemma_inquiry_layout(bytes, n, j, kind);
}

impl<'a> InquiryResultIter<'a> {
    #[verifier::type_invariant]
    spec fn wf(self) -> bool {
        &&& self.num_responses <= usize::MAX / 14
        &&& self.idx <= self.num_responses
    }

    /// The bytes of the inquiry results.
    pub closed spec fn bytes(&self) -> Seq<u8> {
        self.bytes@
    }

    /// The number of results.
    pub closed spec fn num_responses(&self) -> nat {
        self.num_responses as nat
    }

    /// The index of the next result.
    pub closed spec fn index(&self) -> nat {
        self.idx as nat
    }

    /// Whether the results carry RSSI values.
    pub closed spec fn kind(&self) -> InquiryResultKind {
        self.kind
    }

    /// Creates a new iterator for standard inquiry results
    pub fn new_standard(bytes: &'a [u8], num_responses: usize) -> (r: Self)
        requires
            num_responses <= usize::MAX / 14,
        ensures
            r.bytes() == bytes@,
            r.num_responses() == num_responses,
            r.index() == 0,
            r.kind() == InquiryResultKind::Standard,
    {
        InquiryResultIter { bytes, num_responses, idx: 0, kind: InquiryResultKind::Standard }
    }

    /// Creates a new iterator for inquiry results with RSSI
    pub fn new_with_rssi(bytes: &'a [u8], num_responses: usize) -> (r: Self)
        requires
            num_responses <= usize::MAX / 14,
        ensures
            r.bytes() == bytes@,
            r.num_responses() == num_responses,
            r.index() == 0,
            r.kind() == InquiryResultKind::WithRssi,
    {
        InquiryResultIter { bytes, num_responses, idx: 0, kind: InquiryResultKind::WithRssi }
    }

    /// The next result item: `None` once all were taken, or when the address
    /// of the next one does not fit in the bytes (and then the iterator does
    /// not move on).
    pub fn next(&mut self) -> (r: Option<InquiryResultItem>)
        ensures
            final(self).bytes() == old(self).bytes(),
            final(self).num_responses() == old(self).num_responses(),
            final(self).kind() == old(self).kind(),
            old(self).index() >= old(self).num_responses() ==> r is None && final(self).index() == old(self).index(),
            old(self).index() < old(self).num_responses() ==> match spec_inquiry_item(
                old(self).bytes(),
                old(self).num_responses() as int,
                old(self).index() as int,
                old(self).kind(),
            ) {
                None => r is None && final(self).index() == old(self).index(),
                Some(v) => (r matches Some(item) && item@ == v && final(self).index() == old(self).index() + 1),
            },
    {
        proof {
            use_type_invariant(&*self);
        }
        if self.idx >= self.num_responses {
            return None;
        }
        let i = self.idx;
        let n = self.num_responses;
        let bd_addr_size = n * 6;
        let page_scan_size = n;
        let class_size = n * 3;
        let clock_size = n * 2;
        let reserved_size = match self.kind {
            InquiryResultKind::Standard => n * 2,
            InquiryResultKind::WithRssi => n,
        };
        let bd_addr_off = i * 6;
        let page_scan_off = bd_addr_size + i;
        let class_off = bd_addr_size + page_scan_size + reserved_size + i * 3;
        let clock_off = bd_addr_size + page_scan_size + reserved_size + class_size + i * 2;
        if self.bytes.len() < bd_addr_off + 6 {
            return None;
        }
        let bd_addr = BdAddr::new(
            [
                self.bytes[bd_addr_off],
                self.bytes[bd_addr_off + 1],
                self.bytes[bd_addr_off + 2],
                self.bytes[bd_addr_off + 3],
                self.bytes[bd_addr_off + 4],
                self.bytes[bd_addr_off + 5],
            ],
        );
        let page_scan_repetition_mode = if page_scan_off < self.bytes.len() {
            PageScanRepetitionMode::from_raw(self.bytes[page_scan_off])
        } else {
            None
        };
        let class_of_device = if class_off + 3 <= self.bytes.len() {
            Some([self.bytes[class_off], self.bytes[class_off + 1], self.bytes[class_off + 2]])
        } else {
            None
        };
        let clock_offset = if clock_off + 2 <= self.bytes.len() {
            let (_, tail) = self.bytes.split_at(clock_off);
            match ClockOffset::from_hci_bytes(tail) {
                Ok((c, _)) => Some(c),
                Err(_) => None,
            }
        } else {
            None
        };
        let rssi = if self.kind == InquiryResultKind::WithRssi {
            let rssi_off = bd_addr_size + page_scan_size + reserved_size + class_size + clock_size + i;
            if rssi_off < self.bytes.len() {
                Some(i8_of(self.bytes[rssi_off]))
            } else {
                None
            }
        } else {
            None
        };
        self.idx = self.idx + 1;
        let item = InquiryResultItem { bd_addr, page_scan_repetition_mode, class_of_device, clock_offset, rssi };
        proof {
            let bd = self.bytes@;
            assert(item@.bd_addr =~= bd.subrange(i * 6, i * 6 + 6));
            if class_off + 3 <= bd.len() {
                assert(item@.class_of_device->0 =~= bd.subrange(class_off as int, class_off + 3));
            }
            if clock_off + 2 <= bd.len() {
                assert(item@.clock_offset->0 =~= bd.subrange(clock_off as int, clock_off + 2));
            }
        }
        Some(item)
    }
}

/// An event packet on the wire: the event code, the parameter length, then
/// that many bytes of parameters (the packet takes all the bytes given);
/// fewer parameter bytes than announced are refused as too short.
pub proof fn lemma_event_packet_layout(data: Seq<u8>)
    ensures
        data.len() < 2 ==> EventPacket::spec_from_hci_bytes(data) == Err::<(EventPacketView, nat), FromHciBytesError>(
            FromHciBytesError::InvalidSize,
        ),
        data.len() >= 2 ==> {
            let len = data[1] as int;
            &&& data.len() >= 2 + len ==> EventPacket::spec_from_hci_bytes(data) == Ok::<(EventPacketView, nat), FromHciBytesError>(
                (EventPacketView { kind: data[0], data: data.subrange(2, 2 + len) }, data.len()),
            )
            &&& data.len() < 2 + len ==> EventPacket::spec_from_hci_bytes(data) == Err::<(EventPacketView, nat), FromHciBytesError>(
                FromHciBytesError::InvalidSize,
            )
        },
{
    if data.len() >= 2 {
        crate::param::primitives::lemma_byte_encodings(0, 0, data);
        crate::param::primitives::lemma_byte_encodings(0, 0, data.skip(1));
        assert(data.skip(1)[0] == data[1]);
        assert(data.skip(1).skip(1) =~= data.skip(2));
        let len = data[1] as int;
        if data.len() >= 2 + len {
            assert(data.skip(2).take(len) =~= data.subrange(2, 2 + len));
        }
    }
}

} // verus!
