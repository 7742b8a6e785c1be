//! The command slots of a controller: which commands wait for their
//! completion, and who is told what when a completion event arrives.
//!
//! A command reserves a slot before it is sent; a Command Complete or Command
//! Status event for its opcode signals the slot's waiter with the status and
//! the length of the return parameters; the waiter then releases the slot.

use vstd::prelude::*;

use crate::{ControllerToHostPacket, ControllerToHostPacketView, FromHciBytes, FromHciBytesError};
use crate::cmd::Opcode;
use crate::event::{COMMAND_COMPLETE, COMMAND_STATUS, CommandComplete, CommandCompleteWithStatus, CommandStatus};
use crate::param::Status;
use crate::param::status::CONTROLLER_BUSY;

pub mod blocking;

verus! {

/// The raw opcode of the Reset command.
pub const RESET_OPCODE: u16 = 0x0c03;

/// A command slot: free, or held by a command waiting for its completion.
#[derive(Debug, Clone, Copy, PartialEq, Eq, Structural)]
pub enum CommandSlot {
    /// No command holds this slot.
    Empty,
    /// A command with this raw opcode waits in this slot.
    Pending {
        /// The raw opcode of the waiting command.
        opcode: u16,
    },
}

/// What a waiting command is told when its completion arrives.
#[derive(Debug, Clone, Copy, PartialEq, Eq)]
pub struct CommandResponse {
    /// The status of the command.
    pub status: Status,
    /// The length of the return parameters copied to the waiter.
    pub len: usize,
}

/// The responses a completion for `op` sends to the slots among the first
/// `k`: for the Reset command, every pending slot is answered (the Reset
/// slots with the status, the others with Controller Busy); for any other
/// command, only the first slot pending for that opcode is answered.
pub open spec fn spec_signals_upto(slots: Seq<CommandSlot>, op: u16, status: u8, len: usize, k: int) -> Seq<(usize, u8, usize)>
    decreases k,
{
    if k <= 0 {
        Seq::empty()
    } else {
        let prev = spec_signals_upto(slots, op, status, len, k - 1);
        let i = k - 1;
        match slots[i] {
            CommandSlot::Empty => prev,
            CommandSlot::Pending { opcode } => if op == RESET_OPCODE {
                if opcode == op {
                    prev.push((i as usize, status, len))
                } else {
                    prev.push((i as usize, CONTROLLER_BUSY, 0usize))
                }
            } else if prev.len() == 0 && opcode == op {
                prev.push((i as usize, status, len))
            } else {
                prev
            },
        }
    }
}

/// Whether some slot is pending for `op`.
pub open spec fn spec_has_pending(slots: Seq<CommandSlot>, op: u16) -> bool {
    exists|i: int| 0 <= i < slots.len() && slots[i] == (CommandSlot::Pending { opcode: op })
}

/// Whether no two slots are pending for the same opcode.
pub open spec fn spec_unique_pending(slots: Seq<CommandSlot>) -> bool {
    forall|i: int, j: int|
        0 <= i < slots.len() && 0 <= j < slots.len() && i != j && (#[trigger] slots[i]) is Pending ==> slots[i] != #[trigger] slots[j]
}

/// The first empty slot, if any.
pub open spec fn spec_first_empty(slots: Seq<CommandSlot>) -> Option<int> {
    if exists|i: int| 0 <= i < slots.len() && slots[i] == CommandSlot::Empty {
        Some(choose|i: int| 0 <= i < slots.len() && slots[i] == CommandSlot::Empty
            && forall|j: int| 0 <= j < i ==> slots[j] != CommandSlot::Empty)
    } else {
        None
    }
}

proof fn lemma_first_empty(s: Seq<CommandSlot>, idx: int)
    requires
        0 <= idx < s.len(),
        s[idx] == CommandSlot::Empty,
        forall|j: int| 0 <= j < idx ==> s[j] != CommandSlot::Empty,
    ensures
        spec_first_empty(s) == Some(idx),
{
    let c = choose|i: int| 0 <= i < s.len() && s[i] == CommandSlot::Empty
        && forall|j: int| 0 <= j < i ==> s[j] != CommandSlot::Empty;
    assert(0 <= c < s.len() && s[c] == CommandSlot::Empty && forall|j: int| 0 <= j < c ==> s[j] != CommandSlot::Empty);
    if c < idx {
        assert(s[c] != CommandSlot::Empty);
    } else if c > idx {
        assert(s[idx] != CommandSlot::Empty);
    }
}

/// The command slots of a controller.
pub struct CommandSlots {
    slots: Vec<CommandSlot>,
}

/// The result of a completion event: the responses to deliver, slot by
/// slot, and the command permits to grant.
pub struct Completion {
    /// The slots to signal, each with the status and length to tell it.
    pub signals: Vec<(usize, CommandResponse)>,
    /// The number of command permits to release.
    pub release: usize,
}

impl CommandSlots {
    /// The slots.
    pub closed spec fn slots(&self) -> Seq<CommandSlot> {
        self.slots@
    }

    /// Create `n` empty slots.
    pub fn new(n: usize) -> (r: Self)
        ensures
            r.slots() == Seq::new(n as nat, |i: int| CommandSlot::Empty),
            spec_unique_pending(r.slots()),
    {
        let mut slots: Vec<CommandSlot> = Vec::new();
        let mut i: usize = 0;
        while i < n
            invariant
                i <= n,
                slots@ == Seq::new(i as nat, |j: int| CommandSlot::Empty),
            decreases n - i,
        {
            slots.push(CommandSlot::Empty);
            i = i + 1;
            proof {
                assert(slots@ =~= Seq::new(i as nat, |j: int| CommandSlot::Empty));
            }
        }
        CommandSlots { slots }
    }

    /// The number of slots.
    pub fn len(&self) -> (r: usize)
        ensures
            r == self.slots().len(),
    {
        self.slots.len()
    }

    /// Reserve a slot for a command with opcode `op`: refused (`None`) while
    /// another command with that opcode waits, or when every slot is held;
    /// otherwise the first free slot becomes pending for `op` and its index
    /// is returned.
    pub fn acquire_slot(&mut self, op: Opcode) -> (r: Option<usize>)
        ensures
            spec_has_pending(old(self).slots(), op@) ==> r is None && final(self).slots() == old(self).slots(),
            !spec_has_pending(old(self).slots(), op@) ==> match spec_first_empty(old(self).slots()) {
                None => r is None && final(self).slots() == old(self).slots(),
                Some(i) => r == Some(i as usize) && final(self).slots() == old(self).slots().update(
                    i,
                    CommandSlot::Pending { opcode: op@ },
                ),
            },
            spec_unique_pending(old(self).slots()) ==> spec_unique_pending(final(self).slots()),
    {
        let raw = op.to_raw();
        let mut k: usize = 0;
        while k < self.slots.len()
            invariant
                k <= self.slots@.len(),
                raw == op@,
                self.slots@ == old(self).slots@,
                forall|j: int| 0 <= j < k ==> self.slots@[j] != (CommandSlot::Pending { opcode: raw }),
            decreases self.slots@.len() - k,
        {
            if let CommandSlot::Pending { opcode } = self.slots[k] {
                if opcode == raw {
                    proof {
                        assert(old(self).slots()[k as int] == (CommandSlot::Pending { opcode: op@ }));
                    }
                    return None;
                }
            }
            k = k + 1;
        }
        let mut idx: usize = 0;
        while idx < self.slots.len()
            invariant
                idx <= self.slots@.len(),
                self.slots@ == old(self).slots@,
                forall|j: int| 0 <= j < idx ==> self.slots@[j] != CommandSlot::Empty,
            ensures
                idx <= self.slots@.len(),
                self.slots@ == old(self).slots@,
                forall|j: int| 0 <= j < idx ==> self.slots@[j] != CommandSlot::Empty,
                idx < self.slots@.len() ==> self.slots@[idx as int] == CommandSlot::Empty,
            decreases self.slots@.len() - idx,
        {
            if let CommandSlot::Empty = self.slots[idx] {
                break;
            }
            idx = idx + 1;
        }
        if idx == self.slots.len() {
            proof {
                assert(!(exists|i: int| 0 <= i < self.slots@.len() && self.slots@[i] == CommandSlot::Empty));
            }
            return None;
        }
        proof {
            lemma_first_empty(self.slots@, idx as int);
        }
        self.slots.set(idx, CommandSlot::Pending { opcode: raw });
        Some(idx)
    }

    /// Free slot `idx` once its waiter has taken its response.
    pub fn release_slot(&mut self, idx: usize)
        requires
            idx < old(self).slots().len(),
        ensures
            final(self).slots() == old(self).slots().update(idx as int, CommandSlot::Empty),
            spec_unique_pending(old(self).slots()) ==> spec_unique_pending(final(self).slots()),
    {
        self.slots.set(idx, CommandSlot::Empty);
    }

    /// The responses to a completion event for `op` with `status` and
    /// `len` bytes of return parameters, and the permits to grant so that
    /// no more than `num_hci_command_packets` are available (given that
    /// `permits` are available now). The slots themselves stay held until
    /// their waiters release them.
    pub fn complete(&self, op: Opcode, status: Status, num_hci_command_packets: usize, len: usize, permits: usize) -> (r: Completion)
        ensures
            r.signals@.len() == spec_signals_upto(self.slots(), op@, status@, len, self.slots().len() as int).len(),
            forall|j: int| 0 <= j < r.signals@.len() ==> {
                let s = spec_signals_upto(self.slots(), op@, status@, len, self.slots().len() as int)[j];
                &&& (#[trigger] r.signals@[j]).0 == s.0
                &&& r.signals@[j].1.status@ == s.1
                &&& r.signals@[j].1.len == s.2
            },
            r.release == if num_hci_command_packets > permits { num_hci_command_packets - permits } else { 0 },
    {
        let raw = op.to_raw();
        let mut signals: Vec<(usize, CommandResponse)> = Vec::new();
        let mut idx: usize = 0;
        while idx < self.slots.len()
            invariant
                idx <= self.slots@.len(),
                raw == op@,
                signals@.len() == spec_signals_upto(self.slots@, raw, status@, len, idx as int).len(),
                forall|j: int| 0 <= j < signals@.len() ==> {
                    let s = spec_signals_upto(self.slots@, raw, status@, len, idx as int)[j];
                    &&& (#[trigger] signals@[j]).0 == s.0
                    &&& signals@[j].1.status@ == s.1
                    &&& signals@[j].1.len == s.2
                },
            decreases self.slots@.len() - idx,
        {
            match self.slots[idx] {
                CommandSlot::Empty => {},
                CommandSlot::Pending { opcode } => {
                    if raw == RESET_OPCODE {
                        if opcode == raw {
                            signals.push((idx, CommandResponse { status, len }));
                        } else {
                            signals.push((idx, CommandResponse { status: Status::new(CONTROLLER_BUSY), len: 0 }));
                        }
                    } else if signals.len() == 0 && opcode == raw {
                        signals.push((idx, CommandResponse { status, len }));
                    }
                },
            }
            idx = idx + 1;
        }
        let release = if num_hci_command_packets > permits { num_hci_command_packets - permits } else { 0 };
        Completion { signals, release }
    }
}

/// With no two slots pending for the same opcode, a completion for a
/// command other than Reset answers exactly the slot pending for it, with
/// the status and length of the completion.
pub proof fn lemma_complete_answers_its_slot(slots: Seq<CommandSlot>, op: u16, status: u8, len: usize, i: int)
    requires
        spec_unique_pending(slots),
        op != RESET_OPCODE,
        0 <= i < slots.len(),
        slots[i] == (CommandSlot::Pending { opcode: op }),
    ensures
        spec_signals_upto(slots, op, status, len, slots.len() as int) == seq![(i as usize, status, len)],
{
    lemma_signals_single(slots, op, status, len, i, slots.len() as int);
}

proof fn lemma_signals_single(slots: Seq<CommandSlot>, op: u16, status: u8, len: usize, i: int, k: int)
    requires
        spec_unique_pending(slots),
        op != RESET_OPCODE,
        0 <= i < slots.len(),
        slots[i] == (CommandSlot::Pending { opcode: op }),
        0 <= k <= slots.len(),
    ensures
        k <= i ==> spec_signals_upto(slots, op, status, len, k).len() == 0,
        k > i ==> spec_signals_upto(slots, op, status, len, k) == seq![(i as usize, status, len)],
    decreases k,
{
    if k > 0 {
        lemma_signals_single(slots, op, status, len, i, k - 1);
        let j = k - 1;
        if j != i {
            assert(slots[j] != slots[i]);
        }
        if k - 1 == i {
            assert(spec_signals_upto(slots, op, status, len, k) =~= seq![(i as usize, status, len)]);
        }
    }
}

/// A completion for a command with no slot pending answers no one (unless
/// it is Reset, which answers every pending slot).
pub proof fn lemma_complete_without_waiter(slots: Seq<CommandSlot>, op: u16, status: u8, len: usize)
    requires
        op != RESET_OPCODE,
        !spec_has_pending(slots, op),
    ensures
        spec_signals_upto(slots, op, status, len, slots.len() as int).len() == 0,
{
    lemma_signals_none(slots, op, status, len, slots.len() as int);
}

proof fn lemma_signals_none(slots: Seq<CommandSlot>, op: u16, status: u8, len: usize, k: int)
    requires
        op != RESET_OPCODE,
        !spec_has_pending(slots, op),
        0 <= k <= slots.len(),
    ensures
        spec_signals_upto(slots, op, status, len, k).len() == 0,
    decreases k,
{
    if k > 0 {
        lemma_signals_none(slots, op, status, len, k - 1);
        assert(slots[k - 1] != (CommandSlot::Pending { opcode: op }));
    }
}

/// Releasing the slot that a command just acquired gives back the slots as
/// they were before.
pub proof fn lemma_acquire_then_release(slots: Seq<CommandSlot>, op: u16)
    requires
        !spec_has_pending(slots, op),
        spec_first_empty(slots) is Some,
    ensures
        ({
            let i = spec_first_empty(slots)->Some_0;
            slots.update(i, CommandSlot::Pending { opcode: op }).update(i, CommandSlot::Empty) == slots
        }),
{
    lemma_first_empty_is_empty(slots, 0);
    let i = spec_first_empty(slots)->Some_0;
    assert(slots.update(i, CommandSlot::Pending { opcode: op }).update(i, CommandSlot::Empty) =~= slots);
}

proof fn lemma_first_empty_is_empty(slots: Seq<CommandSlot>, k: int)
    requires
        0 <= k <= slots.len(),
        forall|j: int| 0 <= j < k ==> slots[j] != CommandSlot::Empty,
        exists|i: int| k <= i < slots.len() && slots[i] == CommandSlot::Empty,
    ensures
        spec_first_empty(slots) matches Some(i) && 0 <= i < slots.len() && slots[i] == CommandSlot::Empty,
    decreases slots.len() - k,
{
    if slots[k] == CommandSlot::Empty {
        lemma_first_empty(slots, k);
    } else {
        lemma_first_empty_is_empty(slots, k + 1);
    }
}

/// The answer a Reset completion with `status` and `len` bytes gives slot
/// `i`: the Reset's own slot gets the completion, any other waiting
/// command is told the controller is busy.
pub open spec fn spec_reset_answer(slots: Seq<CommandSlot>, i: int, status: u8, len: usize) -> (usize, u8, usize) {
    if slots[i] == (CommandSlot::Pending { opcode: RESET_OPCODE }) {
        (i as usize, status, len)
    } else {
        (i as usize, CONTROLLER_BUSY, 0usize)
    }
}

/// A Reset completion answers every waiting command, and only waiting
/// commands: each pending slot is signalled (the Reset itself with the
/// completion, every other command with Controller Busy).
pub proof fn lemma_reset_answers_every_waiter(slots: Seq<CommandSlot>, status: u8, len: usize)
    requires
        slots.len() <= usize::MAX,
    ensures
        forall|i: int| 0 <= i < slots.len() && (#[trigger] slots[i]) is Pending ==> exists|j: int|
            0 <= j < spec_signals_upto(slots, RESET_OPCODE, status, len, slots.len() as int).len()
                && spec_signals_upto(slots, RESET_OPCODE, status, len, slots.len() as int)[j] == spec_reset_answer(
                slots,
                i,
                status,
                len,
            ),
        forall|j: int| 0 <= j < spec_signals_upto(slots, RESET_OPCODE, status, len, slots.len() as int).len() ==> {
            let s = #[trigger] spec_signals_upto(slots, RESET_OPCODE, status, len, slots.len() as int)[j];
            &&& s.0 < slots.len()
            &&& slots[s.0 as int] is Pending
        },
{
    lemma_reset_signals(slots, status, len, slots.len() as int);
}

proof fn lemma_reset_signals(slots: Seq<CommandSlot>, status: u8, len: usize, k: int)
    requires
        slots.len() <= usize::MAX,
        0 <= k <= slots.len(),
    ensures
        forall|i: int| 0 <= i < k && (#[trigger] slots[i]) is Pending ==> exists|j: int|
            0 <= j < spec_signals_upto(slots, RESET_OPCODE, status, len, k).len()
                && spec_signals_upto(slots, RESET_OPCODE, status, len, k)[j] == spec_reset_answer(slots, i, status, len),
        forall|j: int| 0 <= j < spec_signals_upto(slots, RESET_OPCODE, status, len, k).len() ==> {
            let s = #[trigger] spec_signals_upto(slots, RESET_OPCODE, status, len, k)[j];
            &&& s.0 < k
            &&& slots[s.0 as int] is Pending
        },
    decreases k,
{
    if k > 0 {
        lemma_reset_signals(slots, status, len, k - 1);
        let prev = spec_signals_upto(slots, RESET_OPCODE, status, len, k - 1);
        let cur = spec_signals_upto(slots, RESET_OPCODE, status, len, k);
        let i = k - 1;
        match slots[i] {
            CommandSlot::Empty => {
                assert(cur == prev);
            },
            CommandSlot::Pending { opcode } => {
                assert(cur == prev.push(spec_reset_answer(slots, i, status, len)));
                assert forall|m: int| 0 <= m < k && (#[trigger] slots[m]) is Pending implies exists|j: int|
                    0 <= j < cur.len() && cur[j] == spec_reset_answer(slots, m, status, len) by {
                    if m == i {
                        assert(cur[prev.len() as int] == spec_reset_answer(slots, m, status, len));
                    } else {
                        let j = choose|j: int| 0 <= j < prev.len() && prev[j] == spec_reset_answer(slots, m, status, len);
                        assert(cur[j] == prev[j]);
                    }
                }
                assert forall|j: int| 0 <= j < cur.len() implies {
                    let s = #[trigger] cur[j];
                    &&& s.0 < k
                    &&& slots[s.0 as int] is Pending
                } by {
                    if j < prev.len() {
                        assert(cur[j] == prev[j]);
                    }
                }
            },
        }
    }
}

/// What a controller does with a packet it has read: hand it to the caller,
/// or complete the waiting command (and read on).
#[derive(Debug, Clone, Copy)]
pub enum ReadAction<'a> {
    /// Hand the packet to the caller.
    Deliver,
    /// Complete the command with this opcode.
    Complete {
        /// The opcode of the completed command.
        opcode: Opcode,
        /// Its status.
        status: Status,
        /// The number of commands the controller accepts now.
        num_hci_cmd_pkts: u8,
        /// The return parameters (empty for a Command Status event).
        params: &'a [u8],
    },
}

/// The value of a read action.
pub enum ReadActionView {
    Deliver,
    Complete { opcode: u16, status: u8, num_hci_cmd_pkts: u8, params: Seq<u8> },
}

impl<'a> View for ReadAction<'a> {
    type V = ReadActionView;

    open spec fn view(&self) -> ReadActionView {
        match self {
            ReadAction::Deliver => ReadActionView::Deliver,
            ReadAction::Complete { opcode, status, num_hci_cmd_pkts, params } => ReadActionView::Complete {
                opcode: opcode@,
                status: status@,
                num_hci_cmd_pkts: *num_hci_cmd_pkts,
                params: params@,
            },
        }
    }
}

/// The action for a packet read from the controller: a Command Complete
/// event with an opcode completes that command with the status at the
/// front of its return parameters (an unsolicited one, opcode zero, is
/// delivered); a Command Status event completes its command with no
/// return parameters; every other packet is delivered. The parameters of
/// these two events must decode whole, or the read fails.
pub open spec fn spec_read_action(p: ControllerToHostPacketView) -> Result<ReadActionView, FromHciBytesError> {
    match p {
        ControllerToHostPacketView::Event(ev) => if ev.kind == COMMAND_COMPLETE {
            match CommandComplete::spec_from_hci_bytes(ev.data) {
                Err(e) => Err(e),
                Ok((cc, n)) => if n != ev.data.len() {
                    Err(FromHciBytesError::InvalidSize)
                } else if cc.cmd_opcode == 0 {
                    Ok(ReadActionView::Deliver)
                } else if cc.bytes.len() == 0 {
                    Err(FromHciBytesError::InvalidSize)
                } else {
                    Ok(ReadActionView::Complete {
                        opcode: cc.cmd_opcode,
                        status: cc.bytes[0],
                        num_hci_cmd_pkts: cc.num_hci_cmd_pkts,
                        params: cc.bytes.skip(1),
                    })
                },
            }
        } else if ev.kind == COMMAND_STATUS {
            match CommandStatus::spec_from_hci_bytes(ev.data) {
                Err(e) => Err(e),
                Ok((cs, n)) => if n != ev.data.len() {
                    Err(FromHciBytesError::InvalidSize)
                } else {
                    Ok(ReadActionView::Complete {
                        opcode: cs.cmd_opcode,
                        status: cs.status,
                        num_hci_cmd_pkts: cs.num_hci_cmd_pkts,
                        params: Seq::empty(),
                    })
                },
            }
        } else {
            Ok(ReadActionView::Deliver)
        },
        _ => Ok(ReadActionView::Deliver),
    }
}

/// Decide what to do with a packet read from the controller.
pub fn read_action<'a>(packet: &ControllerToHostPacket<'a>) -> (r: Result<ReadAction<'a>, FromHciBytesError>)
    ensures
        match r {
            Ok(a) => spec_read_action(packet@) == Ok::<ReadActionView, FromHciBytesError>(a@),
            Err(e) => spec_read_action(packet@) == Err::<ReadActionView, FromHciBytesError>(e),
        },
{
    match packet {
        ControllerToHostPacket::Event(event) => {
            if event.kind.0 == COMMAND_COMPLETE {
                let e = match CommandComplete::from_hci_bytes_complete(event.data) {
                    Ok(e) => e,
                    Err(err) => return Err(err),
                };
                if !e.has_status() {
                    return Ok(ReadAction::Deliver);
                }
                let e = match CommandCompleteWithStatus::from_command_complete(e) {
                    Ok(e) => e,
                    Err(err) => return Err(err),
                };
                Ok(
                    ReadAction::Complete {
                        opcode: e.cmd_opcode,
                        status: e.status,
                        num_hci_cmd_pkts: e.num_hci_cmd_pkts,
                        params: e.return_param_bytes.as_slice(),
                    },
                )
            } else if event.kind.0 == COMMAND_STATUS {
                let e = match CommandStatus::from_hci_bytes_complete(event.data) {
                    Ok(e) => e,
                    Err(err) => return Err(err),
                };
                let empty: &'a [u8] = &[];
                proof {
                    assert(empty@ =~= Seq::<u8>::empty());
                }
                Ok(
                    ReadAction::Complete {
                        opcode: e.cmd_opcode,
                        status: e.status,
                        num_hci_cmd_pkts: e.num_hci_cmd_pkts,
                        params: empty,
                    },
                )
            } else {
                Ok(ReadAction::Deliver)
            }
        },
        _ => Ok(ReadAction::Deliver),
    }
}

/// What the bytes of a completion event tell the controller. A Command
/// Complete event (code 0x0e) is the number of commands the controller
/// accepts, the opcode (low byte first), the status, then the return
/// parameters: it completes that command, unless the opcode is zero (an
/// unsolicited event, delivered). A Command Status event (code 0x0f) is
/// exactly the status, the number of commands, and the opcode: it completes
/// that command with no return parameters. Every other event is delivered.
pub proof fn lemma_read_action_bytes(kind: u8, data: Seq<u8>)
    ensures
        kind == 0x0e && data.len() >= 4 && data[1] + 256 * data[2] != 0 ==> spec_read_action(
            ControllerToHostPacketView::Event(crate::event::EventPacketView { kind, data }),
        ) == Ok::<ReadActionView, FromHciBytesError>(
            ReadActionView::Complete {
                opcode: (data[1] + 256 * data[2]) as u16,
                status: data[3],
                num_hci_cmd_pkts: data[0],
                params: data.skip(4),
            },
        ),
        kind == 0x0e && data.len() >= 3 && data[1] == 0 && data[2] == 0 ==> spec_read_action(
            ControllerToHostPacketView::Event(crate::event::EventPacketView { kind, data }),
        ) == Ok::<ReadActionView, FromHciBytesError>(ReadActionView::Deliver),
        kind == 0x0f && data.len() == 4 ==> spec_read_action(
            ControllerToHostPacketView::Event(crate::event::EventPacketView { kind, data }),
        ) == Ok::<ReadActionView, FromHciBytesError>(
            ReadActionView::Complete {
                opcode: (data[2] + 256 * data[3]) as u16,
                status: data[0],
                num_hci_cmd_pkts: data[1],
                params: Seq::empty(),
            },
        ),
        kind != 0x0e && kind != 0x0f ==> spec_read_action(
            ControllerToHostPacketView::Event(crate::event::EventPacketView { kind, data }),
        ) == Ok::<ReadActionView, FromHciBytesError>(ReadActionView::Deliver),
{
    if data.len() >= 3 {
        crate::param::primitives::lemma_byte_encodings(0, 0, data);
        crate::param::primitives::lemma_le_integer_encodings(0, 0, 0, data.skip(1));
        Opcode::lemma_as_inner(data.skip(1));
        assert(data.skip(1)[0] == data[1] && data.skip(1)[1] == data[2]);
        assert(data.skip(1).skip(2) =~= data.skip(3));
        if data.len() >= 4 {
            assert(data.skip(3)[0] == data[3]);
            assert(data.skip(3).skip(1) =~= data.skip(4));
        }
    }
    if data.len() == 4 {
        crate::param::primitives::lemma_byte_encodings(0, 0, data);
        crate::param::primitives::lemma_byte_encodings(0, 0, data.skip(1));
        crate::param::primitives::lemma_le_integer_encodings(0, 0, 0, data.skip(2));
        Opcode::lemma_as_inner(data.skip(2));
        assert(data.skip(1)[0] == data[1]);
        assert(data.skip(2)[0] == data[2] && data.skip(2)[1] == data[3]);
        assert(data.skip(1).skip(1) =~= data.skip(2));
    }
}

} // verus!
