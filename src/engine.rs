//! The DFU engine. A procedure is started with one of the methods of `Dfu`
//! named after it; then `step` is called with the outcome of the previous
//! request (first with `Event::Begin`) and answers with the next USB request
//! or pause to perform, until it reports that the procedure has finished.
//! `step_spec` states what `step` does in every phase and for every reply.
use crate::descriptor::DfuDescriptor;
use crate::dfuse_command::{encoding, DfuseCommand};
use crate::error::{Error, UsbError};
use crate::memory_layout::{MemoryLayout, Page};
use crate::plan::{
    commands_ok, compare_chunk, erase_plan, first_difference, mass_erase_plan, parse_commands,
    push_chunk_ops, push_erase_ops, read_plan, reset_plan, set_address_plan, write_plan, ChunkUse,
    Op, Payload, UploadUse,
};
use crate::dfuse_command::command_of;
use crate::status::{code_of, status_of, State, Status};
use crate::text::copy_range;
use vstd::prelude::*;

verus! {

pub const DFU_DETACH: u8 = 0;
pub const DFU_DNLOAD: u8 = 1;
pub const DFU_UPLOAD: u8 = 2;
pub const DFU_GET_STATUS: u8 = 3;
pub const DFU_CLRSTATUS: u8 = 4;
pub const DFU_ABORT: u8 = 6;

/// Pause after a GET_STATUS that stalled, in milliseconds.
pub const STALL_BACKOFF_MS: u64 = 3000;
/// Pause after a malformed GET_STATUS reply, and between polls of a wait.
pub const POLL_INTERVAL_MS: u64 = 100;
/// Pause after a DNLOAD that stalled.
pub const DOWNLOAD_STALL_PAUSE_MS: u64 = 10;
/// Further tries of each status read that a wait makes.
pub const WAIT_READ_RETRIES: u8 = 10;

/// What the caller is to do next. Control transfers are class requests to
/// the interface.
#[derive(Debug)]
pub enum Request {
    ControlOut { request: u8, value: u16, index: u16, data: Vec<u8> },
    ControlIn { request: u8, value: u16, index: u16, length: u16 },
    Sleep { millis: u64 },
}

/// The outcome of the last request.
#[derive(Debug)]
pub enum Event {
    /// Nothing has been performed yet for this procedure.
    Begin,
    OutDone(Result<(), UsbError>),
    InDone(Result<Vec<u8>, UsbError>),
    Slept,
}

/// The engine's answer to an event.
#[derive(Debug)]
pub enum Step {
    Perform(Request),
    Finished(Result<(), Error>),
}

/// What a status read is for.
#[derive(Debug, Clone, Copy, PartialEq, Eq, Structural)]
pub enum Purpose {
    /// A `GetStatus` step: the status is kept.
    Plain,
    /// A `StatusBestEffort` step: the outcome is ignored.
    Ignore,
    /// The read after an ABORT, which must show DfuIdle.
    AbortCheck { after_stall: bool, lenient: bool },
    /// A poll of a wait for `state`, with `left` more polls allowed after it.
    Wait { state: State, left: u16, lenient: bool },
    /// The reads of the abort-to-idle-clear-once sequence.
    ClearOnceFirst,
    ClearOnceSecond,
    ClearOnceThird,
}

/// Where the engine is within the current step.
#[derive(Debug, Clone, Copy, PartialEq, Eq, Structural)]
pub enum Phase {
    /// The step at the current position has not started.
    Ready,
    /// A DNLOAD was sent.
    DnloadSent,
    /// An ABORT was sent.
    AbortSent { after_stall: bool, lenient: bool },
    /// A GET_STATUS was sent; `tries` more attempts remain after it.
    StatusSent { tries: u8, purpose: Purpose },
    /// Pausing after a failed GET_STATUS.
    StatusBackoff { tries: u8, purpose: Purpose, stalled: bool },
    /// Pausing after a stalled DNLOAD and its abort.
    StallPause,
    /// Pausing between two polls of a wait.
    WaitPause { purpose: Purpose },
    /// The ABORT of the abort-to-idle-clear-once sequence was sent.
    ClearOnceAbortSent,
    /// The CLR_STATUS of the abort-to-idle-clear-once sequence was sent.
    ClearOnceClearSent,
    /// A CLR_STATUS or DETACH step was sent.
    ControlSent,
    /// An UPLOAD was sent.
    UploadSent { usage: UploadUse },
    /// The procedure has finished.
    Done,
}

/// A class control-OUT request with these fields and this data.
pub open spec fn is_control_out(s: Step, request: u8, value: u16, index: u16, data: Seq<u8>) -> bool {
    match s {
        Step::Perform(Request::ControlOut { request: q, value: v, index: i, data: d }) => q
            == request && v == value && i == index && d@ == data,
        _ => false,
    }
}

/// A class control-IN request with these fields.
pub open spec fn is_control_in(s: Step, request: u8, value: u16, index: u16, length: u16) -> bool {
    s == Step::Perform(Request::ControlIn { request, value, index, length })
}

/// A GET_STATUS request to interface `index`: request 3, value 0, six bytes.
pub open spec fn is_status_read(s: Step, index: u16) -> bool {
    is_control_in(s, DFU_GET_STATUS, 0, index, 6)
}

pub open spec fn is_sleep(s: Step, millis: u64) -> bool {
    s == Step::Perform(Request::Sleep { millis })
}

/// The procedure ends with a USB error carrying `e`.
pub open spec fn finished_usb(s: Step, e: UsbError) -> bool {
    &&& s is Finished
    &&& s->Finished_0 is Err
    &&& s->Finished_0->Err_0 is USB
    &&& s->Finished_0->Err_0->USB_1 == e
}

/// The procedure ends with an error of the given kind.
pub open spec fn finished_with(s: Step, f: spec_fn(Error) -> bool) -> bool {
    &&& s is Finished
    &&& s->Finished_0 is Err
    &&& f(s->Finished_0->Err_0)
}

/// The event does not answer the last request.
pub open spec fn finished_unexpected(s: Step) -> bool {
    finished_with(s, |e: Error| e is Argument)
}

/// Steps that need no I/O and are passed over: marking as detached, and the
/// conditional abort when nothing is unsettled.
pub open spec fn skippable(op: Op, unsettled: bool) -> bool {
    op is MarkDetached || (op is AbortIfUnsettled && !unsettled)
}

/// The two engines run the same plan on the same device and data, and have
/// read, compared and recorded the same so far.
pub open spec fn same_job(old: Dfu, new: Dfu) -> bool {
    same_task(old, new) && same_records(old, new)
}

/// What the procedure has read, compared and recorded so far.
pub open spec fn records_are(
    new: Dfu,
    data: Seq<u8>,
    consumed: nat,
    commands: Seq<DfuseCommand>,
    status: Option<Status>,
    unsettled: bool,
) -> bool {
    &&& new.read_data() == data
    &&& new.consumed() == consumed
    &&& new.command_list() == commands
    &&& new.status_seen() == status
    &&& new.unsettled() == unsettled
}

/// Nothing read, compared or recorded changes.
pub open spec fn same_records(old: Dfu, new: Dfu) -> bool {
    records_are(
        new,
        old.read_data(),
        old.consumed(),
        old.command_list(),
        old.status_seen(),
        old.unsettled(),
    )
}

/// The two engines run the same plan on the same device and data.
pub open spec fn same_task(old: Dfu, new: Dfu) -> bool {
    &&& new.plan() == old.plan()
    &&& new.payload() == old.payload()
    &&& new.interface_number() == old.interface_number()
    &&& new.layout() == old.layout()
    &&& new.transfer_size() == old.transfer_size()
}

/// What starting the step `op` does: its first request, or its end, and the
/// phase that the engine then waits in.
pub open spec fn begins(op: Op, new: Dfu, s: Step) -> bool {
    let iface = new.interface_number();
    let payload = new.payload();
    match op {
        Op::Download { transaction, payload: p } => match p {
            Payload::Command(c) => is_control_out(s, DFU_DNLOAD, transaction, iface, encoding(c))
                && new.phase() == Phase::DnloadSent,
            Payload::Empty => is_control_out(s, DFU_DNLOAD, transaction, iface, Seq::empty())
                && new.phase() == Phase::DnloadSent,
            Payload::Chunk { offset, length } => if offset + length <= payload.len() {
                is_control_out(
                    s,
                    DFU_DNLOAD,
                    transaction,
                    iface,
                    payload.subrange(offset as int, offset + length),
                ) && new.phase() == Phase::DnloadSent
            } else {
                finished_with(s, |e: Error| e is FileIO)
            },
        },
        Op::Wait { retries, state, lenient } => is_status_read(s, iface) && new.phase()
            == Phase::StatusSent {
            tries: WAIT_READ_RETRIES,
            purpose: Purpose::Wait { state, left: retries as u16, lenient },
        },
        Op::Abort { lenient } => is_control_out(s, DFU_ABORT, 0, iface, Seq::empty())
            && new.phase() == Phase::AbortSent { after_stall: false, lenient },
        Op::AbortIfUnsettled => is_control_out(s, DFU_ABORT, 0, iface, Seq::empty())
            && new.phase() == Phase::AbortSent { after_stall: false, lenient: true },
        Op::AbortClearOnce => is_status_read(s, iface) && new.phase() == Phase::StatusSent {
            tries: 0,
            purpose: Purpose::ClearOnceFirst,
        },
        Op::ClearStatus => is_control_out(s, DFU_CLRSTATUS, 0, iface, Seq::empty())
            && new.phase() == Phase::ControlSent,
        Op::Detach => is_control_out(s, DFU_DETACH, 0, iface, Seq::empty()) && new.phase()
            == Phase::ControlSent,
        Op::Upload { transaction, length, usage } => is_control_in(
            s,
            DFU_UPLOAD,
            transaction,
            iface,
            length,
        ) && new.phase() == Phase::UploadSent { usage },
        Op::GetStatus { retries } => is_status_read(s, iface) && new.phase() == Phase::StatusSent {
            tries: retries,
            purpose: Purpose::Plain,
        },
        Op::StatusBestEffort => is_status_read(s, iface) && new.phase() == Phase::StatusSent {
            tries: 0,
            purpose: Purpose::Ignore,
        },
        Op::MarkDetached => false,
        Op::FailAddress(a) => s == Step::Finished(Err(Error::Address(a))),
    }
}

/// Running the plan from position `start` with nothing else recorded.
pub open spec fn runs_from(old: Dfu, new: Dfu, start: int, s: Step) -> bool {
    advances(old, new, start, s) && same_records(old, new)
}

/// Running the plan from position `start`: the steps that need no I/O are
/// passed over (a `MarkDetached` marks the engine as detached), then the
/// next step begins, or the procedure ends with `Ok(())` after the last.
pub open spec fn advances(old: Dfu, new: Dfu, start: int, s: Step) -> bool {
    let plan = old.plan();
    &&& same_task(old, new)
    &&& start <= new.position() <= plan.len()
    &&& forall|k: int|
        start <= k < new.position() ==> skippable(#[trigger] plan[k], new.unsettled())
    &&& forall|k: int|
        start <= k < new.position() && #[trigger] plan[k] is MarkDetached ==> new.is_detached()
    &&& old.is_detached() ==> new.is_detached()
    &&& new.position() == plan.len() ==> s == Step::Finished(Ok(()))
    &&& new.position() < plan.len() ==> begins(plan[new.position()], new, s)
}

/// What a status read for `purpose` leads to, once its tries are over and
/// it gave `res`.
pub open spec fn delivered(
    old: Dfu,
    new: Dfu,
    s: Step,
    purpose: Purpose,
    res: Result<Status, Error>,
) -> bool {
    let next = old.position() + 1;
    let iface = old.interface_number();
    match purpose {
        Purpose::Plain => match res {
            Ok(st) => advances(old, new, next, s) && records_are(new, old.read_data(), old.consumed(), old.command_list(), Some(st), old.unsettled()),
            Err(e) => s == Step::Finished(Err(e)),
        },
        Purpose::Ignore => runs_from(old, new, next, s),
        Purpose::AbortCheck { after_stall, lenient } => {
            let fine = lenient || (res is Ok && res->Ok_0.state == code_of(State::DfuIdle));
            if fine {
                if after_stall {
                    is_sleep(s, DOWNLOAD_STALL_PAUSE_MS) && new.phase() == Phase::StallPause
                        && same_job(old, new) && new.position() == old.position()
                } else {
                    runs_from(old, new, next, s)
                }
            } else {
                match res {
                    Ok(st) => s == Step::Finished(Err(Error::InvalidState(st, State::DfuIdle))),
                    Err(e) => s == Step::Finished(Err(e)),
                }
            }
        },
        Purpose::Wait { state, left, lenient } => match res {
            Ok(st) => if st.state == code_of(state) {
                if st.status == 0 {
                    advances(old, new, next, s) && records_are(new, old.read_data(), old.consumed(), old.command_list(), Some(st), old.unsettled())
                } else if lenient {
                    advances(old, new, next, s) && records_are(new, old.read_data(), old.consumed(), old.command_list(), old.status_seen(), true)
                } else {
                    s == Step::Finished(Err(Error::InvalidStatus(st, 0)))
                }
            } else if left > 0 {
                is_sleep(s, POLL_INTERVAL_MS) && new.phase() == Phase::WaitPause {
                    purpose: Purpose::Wait { state, left: (left - 1) as u16, lenient },
                } && same_job(old, new) && new.position() == old.position()
            } else if lenient {
                advances(old, new, next, s) && records_are(new, old.read_data(), old.consumed(), old.command_list(), old.status_seen(), true)
            } else {
                s == Step::Finished(Err(Error::InvalidState(st, state)))
            },
            Err(e) => if lenient {
                advances(old, new, next, s) && records_are(new, old.read_data(), old.consumed(), old.command_list(), old.status_seen(), true)
            } else {
                s == Step::Finished(Err(e))
            },
        },
        Purpose::ClearOnceFirst => match res {
            Ok(st) => if st.state == code_of(State::DfuIdle) {
                runs_from(old, new, next, s)
            } else {
                is_control_out(s, DFU_ABORT, 0, iface, Seq::empty()) && new.phase()
                    == Phase::ClearOnceAbortSent && same_job(old, new) && new.position()
                    == old.position()
            },
            Err(e) => s == Step::Finished(Err(e)),
        },
        Purpose::ClearOnceSecond => match res {
            Ok(st) => if st.state == code_of(State::DfuIdle) {
                runs_from(old, new, next, s)
            } else {
                is_control_out(s, DFU_CLRSTATUS, 0, iface, Seq::empty()) && new.phase()
                    == Phase::ClearOnceClearSent && same_job(old, new) && new.position()
                    == old.position()
            },
            Err(e) => s == Step::Finished(Err(e)),
        },
        Purpose::ClearOnceThird => match res {
            Ok(_) => runs_from(old, new, next, s),
            Err(e) => s == Step::Finished(Err(e)),
        },
    }
}

/// What the bytes of an UPLOAD lead to.
pub open spec fn uploaded(old: Dfu, new: Dfu, s: Step, usage: UploadUse, bytes: Seq<u8>) -> bool {
    let next = old.position() + 1;
    match usage {
        UploadUse::Read => advances(old, new, next, s) && records_are(
            new,
            old.read_data() + bytes,
            old.consumed(),
            old.command_list(),
            old.status_seen(),
            old.unsettled(),
        ),
        UploadUse::Verify { address } => {
            let c = old.consumed();
            let pl = old.payload();
            if bytes.len() > u32::MAX || c + bytes.len() > pl.len() {
                finished_with(s, |e: Error| e is FileIO)
            } else {
                let expected = pl.subrange(c as int, (c + bytes.len()) as int);
                if bytes == expected {
                    advances(old, new, next, s) && records_are(
                        new,
                        old.read_data(),
                        c + bytes.len(),
                        old.command_list(),
                        old.status_seen(),
                        old.unsettled(),
                    )
                } else {
                    s == Step::Finished(
                        Err(
                            Error::Verify(
                                ((address + first_difference(expected, bytes, 0)) % 0x1_0000_0000) as u32,
                            ),
                        ),
                    )
                }
            }
        },
        UploadUse::Commands => if commands_ok(bytes) {
            advances(old, new, next, s) && records_are(
                new,
                old.read_data(),
                old.consumed(),
                Seq::new((bytes.len() - 1) as nat, |i: int| command_of(bytes[i + 1])->Ok_0),
                old.status_seen(),
                old.unsettled(),
            )
        } else if bytes.len() == 0 || bytes[0] != 0 {
            finished_with(s, |e: Error| e is InvalidControlResponse)
        } else {
            finished_with(s, |e: Error| e is UnknownCommandByte)
        },
    }
}

/// What `step` does: `old` is the engine before, `new` after, `s` the answer.
pub open spec fn step_spec(old: Dfu, new: Dfu, event: Event, s: Step) -> bool {
    let iface = old.interface_number();
    let next = old.position() + 1;
    match old.phase() {
        Phase::Ready => runs_from(old, new, old.position(), s),
        Phase::Done => s == Step::Finished(Ok(())),
        Phase::DnloadSent => match event {
            Event::OutDone(Ok(())) => runs_from(old, new, next, s),
            Event::OutDone(Err(e)) => if e == UsbError::Stall {
                is_control_out(s, DFU_ABORT, 0, iface, Seq::empty()) && new.phase()
                    == Phase::AbortSent { after_stall: true, lenient: false } && same_job(old, new)
                    && new.position() == old.position()
            } else {
                finished_usb(s, e)
            },
            _ => finished_unexpected(s),
        },
        Phase::AbortSent { after_stall, lenient } => match event {
            Event::OutDone(Ok(())) => is_status_read(s, iface) && new.phase() == Phase::StatusSent {
                tries: 0,
                purpose: Purpose::AbortCheck { after_stall, lenient },
            } && same_job(old, new) && new.position() == old.position(),
            Event::OutDone(Err(e)) => if lenient {
                runs_from(old, new, next, s)
            } else {
                finished_usb(s, e)
            },
            _ => finished_unexpected(s),
        },
        Phase::StatusSent { tries, purpose } => match event {
            Event::InDone(Ok(bytes)) => if bytes@.len() != 6 {
                is_sleep(s, POLL_INTERVAL_MS) && new.phase() == Phase::StatusBackoff {
                    tries,
                    purpose,
                    stalled: false,
                } && same_job(old, new) && new.position() == old.position()
            } else {
                delivered(old, new, s, purpose, Ok(status_of(bytes@)))
            },
            Event::InDone(Err(e)) => if e == UsbError::Stall {
                is_sleep(s, STALL_BACKOFF_MS) && new.phase() == Phase::StatusBackoff {
                    tries,
                    purpose,
                    stalled: true,
                } && same_job(old, new) && new.position() == old.position()
            } else {
                exists|m: String| delivered(old, new, s, purpose, Err(Error::USB(m, e)))
            },
            _ => finished_unexpected(s),
        },
        Phase::StatusBackoff { tries, purpose, stalled } => match event {
            Event::Slept => if tries > 0 {
                is_status_read(s, iface) && new.phase() == Phase::StatusSent {
                    tries: (tries - 1) as u8,
                    purpose,
                } && same_job(old, new) && new.position() == old.position()
            } else if stalled {
                exists|m: String| delivered(old, new, s, purpose, Err(Error::USB(m, UsbError::Stall)))
            } else {
                exists|m: String|
                    delivered(old, new, s, purpose, Err(Error::InvalidControlResponse(m)))
            },
            _ => finished_unexpected(s),
        },
        Phase::StallPause => match event {
            Event::Slept => runs_from(old, new, next, s),
            _ => finished_unexpected(s),
        },
        Phase::WaitPause { purpose } => match event {
            Event::Slept => is_status_read(s, iface) && new.phase() == Phase::StatusSent {
                tries: WAIT_READ_RETRIES,
                purpose,
            } && same_job(old, new) && new.position() == old.position(),
            _ => finished_unexpected(s),
        },
        Phase::ClearOnceAbortSent => match event {
            Event::OutDone(Ok(())) => is_status_read(s, iface) && new.phase()
                == Phase::StatusSent { tries: 0, purpose: Purpose::ClearOnceSecond } && same_job(
                old,
                new,
            ) && new.position() == old.position(),
            Event::OutDone(Err(e)) => finished_usb(s, e),
            _ => finished_unexpected(s),
        },
        Phase::ClearOnceClearSent => match event {
            Event::OutDone(Ok(())) => is_status_read(s, iface) && new.phase()
                == Phase::StatusSent { tries: 0, purpose: Purpose::ClearOnceThird } && same_job(
                old,
                new,
            ) && new.position() == old.position(),
            Event::OutDone(Err(e)) => finished_usb(s, e),
            _ => finished_unexpected(s),
        },
        Phase::ControlSent => match event {
            Event::OutDone(Ok(())) => runs_from(old, new, next, s),
            Event::OutDone(Err(e)) => finished_usb(s, e),
            _ => finished_unexpected(s),
        },
        Phase::UploadSent { usage } => match event {
            Event::InDone(Ok(bytes)) => uploaded(old, new, s, usage, bytes@),
            Event::InDone(Err(e)) => finished_usb(s, e),
            _ => finished_unexpected(s),
        },
    }
}

/// The status that a GET_STATUS outcome gives.
fn status_from(res: Result<Vec<u8>, UsbError>) -> (r: Result<Status, Error>)
    ensures
        res is Err ==> r == Err::<Status, Error>(Error::USB(r->Err_0->USB_0, res->Err_0)),
        res is Ok && res->Ok_0@.len() != 6 ==> r is Err && r->Err_0 is InvalidControlResponse,
        res is Ok && res->Ok_0@.len() == 6 ==> r == Ok::<Status, Error>(status_of(res->Ok_0@)),
{
    match res {
        Ok(bytes) => Status::parse(bytes.as_slice()),
        Err(e) => Err(Error::USB("Control transfer: DFU_GET_STATUS".to_string(), e)),
    }
}

/// An opened DFU interface and the procedure in progress on it.
pub struct Dfu {
    interface: u16,
    descriptor: DfuDescriptor,
    mem_layout: MemoryLayout,
    detached: bool,
    ops: Vec<Op>,
    pc: usize,
    phase: Phase,
    payload: Vec<u8>,
    consumed: usize,
    data: Vec<u8>,
    commands: Vec<DfuseCommand>,
    last_status: Option<Status>,
    unsettled: bool,
}

impl Dfu {
    pub closed spec fn wf(&self) -> bool {
        &&& self.pc <= self.ops@.len()
        &&& !(self.phase is Ready || self.phase is Done) ==> self.pc < self.ops@.len()
    }

    /// The steps of the procedure in progress.
    pub closed spec fn plan(&self) -> Seq<Op> {
        self.ops@
    }

    /// Index in `plan()` of the step in progress.
    pub closed spec fn position(&self) -> int {
        self.pc as int
    }

    pub closed spec fn phase(&self) -> Phase {
        self.phase
    }

    /// The data that the procedure writes, or compares against.
    pub closed spec fn payload(&self) -> Seq<u8> {
        self.payload@
    }

    /// How much of the payload a verify has compared so far.
    pub closed spec fn consumed(&self) -> nat {
        self.consumed as nat
    }

    /// A lenient wait of the procedure has failed.
    pub closed spec fn unsettled(&self) -> bool {
        self.unsettled
    }

    /// No step of the procedure has run yet.
    pub open spec fn at_start(&self) -> bool {
        self.position() == 0 && self.phase() is Ready
    }

    pub closed spec fn interface_number(&self) -> u16 {
        self.interface
    }

    pub closed spec fn layout(&self) -> Seq<Page> {
        self.mem_layout@
    }

    /// The DFU functional descriptor of the interface.
    pub closed spec fn functional_descriptor(&self) -> DfuDescriptor {
        self.descriptor
    }

    pub closed spec fn transfer_size(&self) -> u16 {
        self.descriptor.transfer_size
    }

    pub closed spec fn is_detached(&self) -> bool {
        self.detached
    }

    /// The bytes read back so far by the procedure in progress.
    pub closed spec fn read_data(&self) -> Seq<u8> {
        self.data@
    }

    /// The commands found by the last supported-commands request.
    pub closed spec fn command_list(&self) -> Seq<DfuseCommand> {
        self.commands@
    }

    /// The last status that a status read or a wait returned.
    pub closed spec fn status_seen(&self) -> Option<Status> {
        self.last_status
    }

    /// `new` is `old` with a fresh procedure that has not run yet.
    pub open spec fn restarted(old: Dfu, new: Dfu) -> bool {
        &&& new.wf()
        &&& new.at_start()
        &&& new.interface_number() == old.interface_number()
        &&& new.layout() == old.layout()
        &&& new.transfer_size() == old.transfer_size()
        &&& new.is_detached() == old.is_detached()
        &&& new.consumed() == 0
        &&& new.read_data() == Seq::<u8>::empty()
        &&& new.command_list() == Seq::<DfuseCommand>::empty()
        &&& new.status_seen() == None::<Status>
        &&& !new.unsettled()
    }

    /// Fields that the internal steps leave alone unless they say otherwise.
    closed spec fn keeps(old: Dfu, new: Dfu) -> bool {
        &&& new.ops@ == old.ops@
        &&& new.payload@ == old.payload@
        &&& new.interface == old.interface
        &&& new.mem_layout@ == old.mem_layout@
        &&& new.descriptor == old.descriptor
        &&& new.data@ == old.data@
        &&& new.consumed == old.consumed
        &&& new.commands@ == old.commands@
        &&& new.last_status == old.last_status
        &&& new.unsettled == old.unsettled
    }

    /// An engine for `interface`, whose first procedure brings the device to
    /// DfuIdle (see `abort_to_idle_clear_once`).
    pub fn new(interface: u8, descriptor: DfuDescriptor, mem_layout: MemoryLayout) -> (r: Dfu)
        ensures
            r.wf(),
            r.at_start(),
            r.plan() == seq![Op::AbortClearOnce],
            r.interface_number() == interface as u16,
            r.layout() == mem_layout@,
            r.transfer_size() == descriptor.transfer_size,
            r.functional_descriptor() == descriptor,
            !r.is_detached(),
            !r.unsettled(),
            r.payload() == Seq::<u8>::empty(),
    {
        let mut ops: Vec<Op> = Vec::new();
        ops.push(Op::AbortClearOnce);
        Dfu {
            interface: interface as u16,
            descriptor,
            mem_layout,
            detached: false,
            ops,
            pc: 0,
            phase: Phase::Ready,
            payload: Vec::new(),
            consumed: 0,
            data: Vec::new(),
            commands: Vec::new(),
            last_status: None,
            unsettled: false,
        }
    }

    fn start(&mut self, ops: Vec<Op>)
        ensures
            Dfu::restarted(*old(self), *final(self)),
            final(self).plan() == ops@,
            final(self).payload() == old(self).payload(),
    {
        self.ops = ops;
        self.pc = 0;
        self.phase = Phase::Ready;
        self.consumed = 0;
        self.data = Vec::new();
        self.commands = Vec::new();
        self.last_status = None;
        self.unsettled = false;
    }

    /// Reads the status once, trying again up to `retries` times after a
    /// stall (3 s later) or a malformed reply (100 ms later).
    pub fn get_status(&mut self, retries: u8)
        ensures
            Dfu::restarted(*old(self), *final(self)),
            final(self).plan() == seq![Op::GetStatus { retries }],
    {
        let mut ops: Vec<Op> = Vec::new();
        ops.push(Op::GetStatus { retries });
        self.start(ops);
    }

    /// Sends CLR_STATUS.
    pub fn clear_status(&mut self)
        ensures
            Dfu::restarted(*old(self), *final(self)),
            final(self).plan() == seq![Op::ClearStatus],
    {
        let mut ops: Vec<Op> = Vec::new();
        ops.push(Op::ClearStatus);
        self.start(ops);
    }

    /// Sends DETACH.
    pub fn detach(&mut self)
        ensures
            Dfu::restarted(*old(self), *final(self)),
            final(self).plan() == seq![Op::Detach],
    {
        let mut ops: Vec<Op> = Vec::new();
        ops.push(Op::Detach);
        self.start(ops);
    }

    /// Polls the status until the device is in `wait_for_state` (by default
    /// DfuDownloadBusy), at most `retries + 1` reads 100 ms apart; fails with
    /// `InvalidState` if it never gets there and `InvalidStatus` if it does
    /// with a nonzero status.
    pub fn status_wait_for(&mut self, retries: u8, wait_for_state: Option<State>)
        ensures
            Dfu::restarted(*old(self), *final(self)),
            final(self).plan() == seq![
                Op::Wait {
                    retries,
                    state: match wait_for_state {
                        Some(s) => s,
                        None => State::DfuDownloadBusy,
                    },
                    lenient: false,
                },
            ],
    {
        let state = match wait_for_state {
            Some(s) => s,
            None => State::DfuDownloadBusy,
        };
        let mut ops: Vec<Op> = Vec::new();
        ops.push(Op::Wait { retries, state, lenient: false });
        self.start(ops);
    }

    /// Points the device at `address`.
    pub fn set_address(&mut self, address: u32)
        ensures
            Dfu::restarted(*old(self), *final(self)),
            final(self).plan() == set_address_plan(address),
    {
        let mut ops: Vec<Op> = Vec::new();
        ops.push(
            Op::Download {
                transaction: 0,
                payload: Payload::Command(DfuseCommand::SetAddress(address)),
            },
        );
        ops.push(Op::Wait { retries: 0, state: State::DfuDownloadIdle, lenient: false });
        assert(ops@ =~= set_address_plan(address));
        self.start(ops);
    }

    /// Makes the device boot the firmware at `address`; afterwards the engine
    /// does no more I/O when it is closed.
    pub fn reset_stm32(&mut self, address: u32)
        ensures
            Dfu::restarted(*old(self), *final(self)),
            final(self).plan() == reset_plan(address),
    {
        let mut ops: Vec<Op> = Vec::new();
        ops.push(
            Op::Download {
                transaction: 0,
                payload: Payload::Command(DfuseCommand::SetAddress(address)),
            },
        );
        ops.push(Op::Wait { retries: 0, state: State::DfuDownloadIdle, lenient: false });
        ops.push(Op::Download { transaction: 2, payload: Payload::Empty });
        ops.push(Op::StatusBestEffort);
        ops.push(Op::MarkDetached);
        assert(ops@ =~= reset_plan(address));
        self.start(ops);
    }

    /// Asks the device for the DfuSe commands it supports; the answer is in
    /// `commands` once the procedure has finished.
    pub fn dfuse_get_commands(&mut self)
        ensures
            Dfu::restarted(*old(self), *final(self)),
            final(self).plan() == seq![
                Op::Abort { lenient: false },
                Op::Upload { transaction: 0, length: 1024, usage: UploadUse::Commands },
            ],
    {
        let mut ops: Vec<Op> = Vec::new();
        ops.push(Op::Abort { lenient: false });
        ops.push(Op::Upload { transaction: 0, length: 1024, usage: UploadUse::Commands });
        self.start(ops);
    }

    /// Reads `length` bytes of flash at `address` and compares them with
    /// `expected`; fails with `Verify` at the first differing address.
    pub fn verify(&mut self, expected: Vec<u8>, address: u32, length: u32)
        ensures
            Dfu::restarted(*old(self), *final(self)),
            final(self).plan() == read_plan(
                old(self).transfer_size(),
                address,
                length,
                ChunkUse::Verify,
            ),
            final(self).payload() == expected@,
    {
        let ops = self.read_ops(address, length, ChunkUse::Verify);
        self.start(ops);
        self.payload = expected;
    }

    fn read_ops(&self, address: u32, length: u32, usage: ChunkUse) -> (r: Vec<Op>)
        ensures
            r@ == read_plan(self.transfer_size(), address, length, usage),
    {
        let mut ops: Vec<Op> = Vec::new();
        ops.push(
            Op::Download {
                transaction: 0,
                payload: Payload::Command(DfuseCommand::SetAddress(address)),
            },
        );
        ops.push(Op::Wait { retries: 0, state: State::DfuDownloadBusy, lenient: false });
        ops.push(Op::Abort { lenient: false });
        ops.push(Op::Wait { retries: 0, state: State::DfuIdle, lenient: false });
        push_chunk_ops(&mut ops, address, length, self.descriptor.transfer_size, usage);
        ops.push(Op::Abort { lenient: false });
        assert(ops@ =~= read_plan(self.transfer_size(), address, length, usage));
        ops
    }

    /// Erases the pages that `length` bytes from `address` touch, starting
    /// at the beginning of the page that holds `address`.
    pub fn erase_pages(&mut self, address: u32, length: u32)
        ensures
            Dfu::restarted(*old(self), *final(self)),
            final(self).plan() == erase_plan(old(self).layout(), address, length),
    {
        let mut ops: Vec<Op> = Vec::new();
        push_erase_ops(&mut ops, &self.mem_layout, address, length);
        assert(ops@ =~= erase_plan(self.layout(), address, length));
        self.start(ops);
    }

    /// Erases the whole flash.
    pub fn mass_erase(&mut self)
        ensures
            Dfu::restarted(*old(self), *final(self)),
            final(self).plan() == mass_erase_plan(),
    {
        let mut ops: Vec<Op> = Vec::new();
        ops.push(Op::Wait { retries: 0, state: State::DfuIdle, lenient: false });
        ops.push(Op::Download { transaction: 0, payload: Payload::Command(DfuseCommand::MassErase) });
        ops.push(Op::Wait { retries: 0, state: State::DfuDownloadBusy, lenient: false });
        ops.push(Op::Wait { retries: 10, state: State::DfuDownloadIdle, lenient: false });
        assert(ops@ =~= mass_erase_plan());
        self.start(ops);
    }

    fn write_ops(&self, address: u32, length: u32) -> (r: Vec<Op>)
        ensures
            r@ == write_plan(self.layout(), self.transfer_size(), address, length),
    {
        let mut ops: Vec<Op> = Vec::new();
        push_erase_ops(&mut ops, &self.mem_layout, address, length);
        ops.push(Op::Abort { lenient: false });
        ops.push(Op::Wait { retries: 0, state: State::DfuIdle, lenient: false });
        push_chunk_ops(&mut ops, address, length, self.descriptor.transfer_size, ChunkUse::Write);
        ops.push(Op::Abort { lenient: false });
        assert(ops@ =~= write_plan(self.layout(), self.transfer_size(), address, length));
        ops
    }

    /// Writes the first `length` bytes of `data` to flash at `address`: the
    /// pages are erased, then each chunk is sent after a SetAddress to it.
    pub fn download_raw(&mut self, data: Vec<u8>, address: u32, length: u32)
        ensures
            Dfu::restarted(*old(self), *final(self)),
            final(self).plan() == write_plan(
                old(self).layout(),
                old(self).transfer_size(),
                address,
                length,
            ),
            final(self).payload() == data@,
    {
        let ops = self.write_ops(address, length);
        self.start(ops);
        self.payload = data;
    }

    /// Writes `buf`, which must be shorter than one transfer, at `address`.
    pub fn write_flash_from_slice(&mut self, address: u32, buf: Vec<u8>) -> (r: Result<(), Error>)
        ensures
            r is Ok <==> buf@.len() < old(self).transfer_size(),
            r is Err ==> r->Err_0 is Argument && *final(self) == *old(self),
            r is Ok ==> Dfu::restarted(*old(self), *final(self)) && final(self).plan()
                == write_plan(
                old(self).layout(),
                old(self).transfer_size(),
                address,
                buf@.len() as u32,
            ) && final(self).payload() == buf@,
    {
        if buf.len() >= self.descriptor.transfer_size as usize {
            return Err(Error::Argument("data must be shorter than one transfer".to_string()));
        }
        let length = buf.len() as u32;
        self.download_raw(buf, address, length);
        Ok(())
    }

    /// Reads `length` bytes of flash at `address`; they are in `data` once the
    /// procedure has finished.
    pub fn upload(&mut self, address: u32, length: u32)
        ensures
            Dfu::restarted(*old(self), *final(self)),
            final(self).plan() == read_plan(
                old(self).transfer_size(),
                address,
                length,
                ChunkUse::Read,
            ),
    {
        let ops = self.read_ops(address, length, ChunkUse::Read);
        self.start(ops);
    }

    /// Reads `size` bytes of flash at `address` into `data`.
    pub fn read_flash_to_slice(&mut self, address: u32, size: u32)
        ensures
            Dfu::restarted(*old(self), *final(self)),
            final(self).plan() == read_plan(old(self).transfer_size(), address, size, ChunkUse::Read),
    {
        self.upload(address, size);
    }

    /// Brings the device to DfuIdle once: nothing if it is idle; else ABORT
    /// and, if still not idle, CLR_STATUS. Later procedures report what is
    /// left wrong.
    pub fn abort_to_idle_clear_once(&mut self)
        ensures
            Dfu::restarted(*old(self), *final(self)),
            final(self).plan() == seq![Op::AbortClearOnce],
    {
        let mut ops: Vec<Op> = Vec::new();
        ops.push(Op::AbortClearOnce);
        self.start(ops);
    }

    /// Sends ABORT and checks that the device is then in DfuIdle.
    pub fn abort_to_idle(&mut self)
        ensures
            Dfu::restarted(*old(self), *final(self)),
            final(self).plan() == seq![Op::Abort { lenient: false }],
    {
        let mut ops: Vec<Op> = Vec::new();
        ops.push(Op::Abort { lenient: false });
        self.start(ops);
    }

    /// What to do before the interface is let go: nothing after a reset;
    /// else wait for DfuIdle and, if that fails, abort to idle. Failures are
    /// not reported.
    pub fn close(&mut self)
        ensures
            Dfu::restarted(*old(self), *final(self)),
            old(self).is_detached() ==> final(self).plan() == Seq::<Op>::empty(),
            !old(self).is_detached() ==> final(self).plan() == seq![
                Op::Wait { retries: 0, state: State::DfuIdle, lenient: true },
                Op::AbortIfUnsettled,
            ],
    {
        let mut ops: Vec<Op> = Vec::new();
        if !self.detached {
            ops.push(Op::Wait { retries: 0, state: State::DfuIdle, lenient: true });
            ops.push(Op::AbortIfUnsettled);
        }
        self.start(ops);
    }

    pub fn memory_layout(&self) -> (r: &MemoryLayout)
        ensures
            r@ == self.layout(),
    {
        &self.mem_layout
    }

    pub fn descriptor(&self) -> (r: DfuDescriptor)
        ensures
            r == self.functional_descriptor(),
            r.transfer_size == self.transfer_size(),
    {
        self.descriptor
    }

    pub fn interface(&self) -> (r: u16)
        ensures
            r == self.interface_number(),
    {
        self.interface
    }

    /// Whether the device has been reset into its firmware.
    pub fn detached(&self) -> (r: bool)
        ensures
            r == self.is_detached(),
    {
        self.detached
    }

    /// The bytes read by the last upload.
    pub fn data(&self) -> (r: &Vec<u8>)
        ensures
            r@ == self.read_data(),
    {
        &self.data
    }

    /// The commands that the last `dfuse_get_commands` found.
    pub fn commands(&self) -> (r: &Vec<DfuseCommand>)
        ensures
            r@ == self.command_list(),
    {
        &self.commands
    }

    /// The last status that a status read or a wait returned.
    pub fn last_status(&self) -> (r: Option<Status>)
        ensures
            r == self.status_seen(),
    {
        self.last_status
    }

    fn finish(&mut self, r: Result<(), Error>) -> (s: Step)
        requires
            old(self).wf(),
        ensures
            final(self).wf(),
            s == Step::Finished(r),
            Dfu::keeps(*old(self), *final(self)),
            final(self).pc == old(self).pc,
            final(self).detached == old(self).detached,
    {
        self.phase = Phase::Done;
        Step::Finished(r)
    }

    fn status_request(&self) -> (r: Request)
        ensures
            is_status_read(Step::Perform(r), self.interface_number()),
    {
        Request::ControlIn { request: DFU_GET_STATUS, value: 0, index: self.interface, length: 6 }
    }

    fn plain_request(&self, request: u8) -> (r: Request)
        ensures
            is_control_out(Step::Perform(r), request, 0, self.interface_number(), Seq::empty()),
    {
        Request::ControlOut { request, value: 0, index: self.interface, data: Vec::new() }
    }

    /// Sends a GET_STATUS for `purpose`, with `tries` more attempts after it.
    fn read_status(&mut self, tries: u8, purpose: Purpose) -> (s: Step)
        requires
            old(self).wf(),
            old(self).pc < old(self).ops@.len(),
        ensures
            final(self).wf(),
            is_status_read(s, old(self).interface_number()),
            final(self).phase() == (Phase::StatusSent { tries, purpose }),
            Dfu::keeps(*old(self), *final(self)),
            final(self).pc == old(self).pc,
            final(self).detached == old(self).detached,
    {
        self.phase = Phase::StatusSent { tries, purpose };
        Step::Perform(self.status_request())
    }

    /// Sends a control-OUT without data and waits in `phase`.
    fn send_plain(&mut self, request: u8, phase: Phase) -> (s: Step)
        requires
            old(self).wf(),
            old(self).pc < old(self).ops@.len(),
        ensures
            final(self).wf(),
            is_control_out(s, request, 0, old(self).interface_number(), Seq::empty()),
            final(self).phase() == phase,
            Dfu::keeps(*old(self), *final(self)),
            final(self).pc == old(self).pc,
            final(self).detached == old(self).detached,
    {
        self.phase = phase;
        Step::Perform(self.plain_request(request))
    }

    /// Pauses and waits in `phase`.
    fn pause(&mut self, millis: u64, phase: Phase) -> (s: Step)
        requires
            old(self).wf(),
            old(self).pc < old(self).ops@.len(),
        ensures
            final(self).wf(),
            is_sleep(s, millis),
            final(self).phase() == phase,
            Dfu::keeps(*old(self), *final(self)),
            final(self).pc == old(self).pc,
            final(self).detached == old(self).detached,
    {
        self.phase = phase;
        Step::Perform(Request::Sleep { millis })
    }

    /// Runs the steps from `pc` on that need no I/O, up to the first that does.
    fn run(&mut self) -> (s: Step)
        requires
            old(self).wf(),
            old(self).phase is Ready,
        ensures
            final(self).wf(),
            runs_from(*old(self), *final(self), old(self).position(), s),
            Dfu::keeps(*old(self), *final(self)),
    {
        loop
            invariant
                self.wf(),
                self.phase is Ready,
                Dfu::keeps(*old(self), *self),
                old(self).pc <= self.pc <= self.ops@.len(),
                forall|k: int|
                    old(self).pc <= k < self.pc ==> skippable(
                        #[trigger] self.ops@[k],
                        self.unsettled,
                    ),
                forall|k: int|
                    old(self).pc <= k < self.pc && #[trigger] self.ops@[k] is MarkDetached
                        ==> self.detached,
                old(self).detached ==> self.detached,
            decreases self.ops@.len() - self.pc,
        {
            if self.pc >= self.ops.len() {
                return self.finish(Ok(()));
            }
            match self.ops[self.pc] {
                Op::Download { transaction, payload } => {
                    let data = match payload {
                        Payload::Command(c) => c.encode(),
                        Payload::Empty => Vec::new(),
                        Payload::Chunk { offset, length } => {
                            let end: u64 = offset as u64 + length as u64;
                            if end > self.payload.len() as u64 {
                                return self.finish(
                                    Err(
                                        Error::FileIO(
                                            "data is shorter than the requested length".to_string(),
                                        ),
                                    ),
                                );
                            }
                            copy_range(&self.payload, offset as usize, end as usize)
                        },
                    };
                    self.phase = Phase::DnloadSent;
                    return Step::Perform(
                        Request::ControlOut {
                            request: DFU_DNLOAD,
                            value: transaction,
                            index: self.interface,
                            data,
                        },
                    );
                },
                Op::Wait { retries, state, lenient } => {
                    return self.read_status(
                        WAIT_READ_RETRIES,
                        Purpose::Wait { state, left: retries as u16, lenient },
                    );
                },
                Op::Abort { lenient } => {
                    return self.send_plain(
                        DFU_ABORT,
                        Phase::AbortSent { after_stall: false, lenient },
                    );
                },
                Op::AbortIfUnsettled => {
                    if self.unsettled {
                        return self.send_plain(
                            DFU_ABORT,
                            Phase::AbortSent { after_stall: false, lenient: true },
                        );
                    }
                    self.pc += 1;
                },
                Op::AbortClearOnce => {
                    return self.read_status(0, Purpose::ClearOnceFirst);
                },
                Op::ClearStatus => {
                    return self.send_plain(DFU_CLRSTATUS, Phase::ControlSent);
                },
                Op::Detach => {
                    return self.send_plain(DFU_DETACH, Phase::ControlSent);
                },
                Op::Upload { transaction, length, usage } => {
                    self.phase = Phase::UploadSent { usage };
                    return Step::Perform(
                        Request::ControlIn {
                            request: DFU_UPLOAD,
                            value: transaction,
                            index: self.interface,
                            length,
                        },
                    );
                },
                Op::GetStatus { retries } => {
                    return self.read_status(retries, Purpose::Plain);
                },
                Op::StatusBestEffort => {
                    return self.read_status(0, Purpose::Ignore);
                },
                Op::MarkDetached => {
                    self.detached = true;
                    self.pc += 1;
                },
                Op::FailAddress(a) => {
                    return self.finish(Err(Error::Address(a)));
                },
            }
        }
    }

    /// Moves past the current step and runs on.
    fn next_op(&mut self) -> (s: Step)
        requires
            old(self).wf(),
            old(self).pc < old(self).ops@.len(),
        ensures
            final(self).wf(),
            runs_from(*old(self), *final(self), old(self).position() + 1, s),
            Dfu::keeps(*old(self), *final(self)),
    {
        if self.pc < self.ops.len() {
            self.pc += 1;
        }
        self.phase = Phase::Ready;
        self.run()
    }

    /// Acts on a status read, once its tries are over.
    fn on_status(&mut self, purpose: Purpose, res: Result<Status, Error>) -> (s: Step)
        requires
            old(self).wf(),
            old(self).pc < old(self).ops@.len(),
        ensures
            final(self).wf(),
            delivered(*old(self), *final(self), s, purpose, res),
            final(self).payload() == old(self).payload(),
            final(self).interface_number() == old(self).interface_number(),
    {
        match purpose {
            Purpose::Plain => match res {
                Ok(st) => {
                    self.last_status = Some(st);
                    self.next_op()
                },
                Err(e) => self.finish(Err(e)),
            },
            Purpose::Ignore => self.next_op(),
            Purpose::AbortCheck { after_stall, lenient } => {
                let idle = match &res {
                    Ok(st) => st.state == State::DfuIdle.code(),
                    Err(_) => false,
                };
                if lenient || idle {
                    if after_stall {
                        self.pause(DOWNLOAD_STALL_PAUSE_MS, Phase::StallPause)
                    } else {
                        self.next_op()
                    }
                } else {
                    match res {
                        Ok(st) => self.finish(Err(Error::InvalidState(st, State::DfuIdle))),
                        Err(e) => self.finish(Err(e)),
                    }
                }
            },
            Purpose::Wait { state, left, lenient } => match res {
                Ok(st) => {
                    if st.state == state.code() {
                        if st.status == 0 {
                            self.last_status = Some(st);
                            self.next_op()
                        } else if lenient {
                            self.unsettled = true;
                            self.next_op()
                        } else {
                            self.finish(Err(Error::InvalidStatus(st, 0)))
                        }
                    } else if left > 0 {
                        self.pause(
                            POLL_INTERVAL_MS,
                            Phase::WaitPause {
                                purpose: Purpose::Wait { state, left: left - 1, lenient },
                            },
                        )
                    } else if lenient {
                        self.unsettled = true;
                        self.next_op()
                    } else {
                        self.finish(Err(Error::InvalidState(st, state)))
                    }
                },
                Err(e) => {
                    if lenient {
                        self.unsettled = true;
                        self.next_op()
                    } else {
                        self.finish(Err(e))
                    }
                },
            },
            Purpose::ClearOnceFirst => match res {
                Ok(st) => {
                    if st.state == State::DfuIdle.code() {
                        self.next_op()
                    } else {
                        self.send_plain(DFU_ABORT, Phase::ClearOnceAbortSent)
                    }
                },
                Err(e) => self.finish(Err(e)),
            },
            Purpose::ClearOnceSecond => match res {
                Ok(st) => {
                    if st.state == State::DfuIdle.code() {
                        self.next_op()
                    } else {
                        self.send_plain(DFU_CLRSTATUS, Phase::ClearOnceClearSent)
                    }
                },
                Err(e) => self.finish(Err(e)),
            },
            Purpose::ClearOnceThird => match res {
                Ok(_) => self.next_op(),
                Err(e) => self.finish(Err(e)),
            },
        }
    }

    /// Acts on the bytes of an UPLOAD.
    fn on_upload(&mut self, usage: UploadUse, bytes: Vec<u8>) -> (s: Step)
        requires
            old(self).wf(),
            old(self).pc < old(self).ops@.len(),
        ensures
            final(self).wf(),
            uploaded(*old(self), *final(self), s, usage, bytes@),
    {
        match usage {
            UploadUse::Read => {
                let mut i: usize = 0;
                while i < bytes.len()
                    invariant
                        self.wf(),
                        self.pc == old(self).pc,
                        self.phase == old(self).phase,
                        self.detached == old(self).detached,
                        self.ops@ == old(self).ops@,
                        self.payload@ == old(self).payload@,
                        self.interface == old(self).interface,
                        self.mem_layout@ == old(self).mem_layout@,
                        self.descriptor == old(self).descriptor,
                        self.consumed == old(self).consumed,
                        self.commands@ == old(self).commands@,
                        self.last_status == old(self).last_status,
                        self.unsettled == old(self).unsettled,
                        i <= bytes@.len(),
                        self.data@ == old(self).data@ + bytes@.take(i as int),
                    decreases bytes@.len() - i,
                {
                    self.data.push(bytes[i]);
                    i += 1;
                    assert(self.data@ =~= old(self).data@ + bytes@.take(i as int));
                }
                assert(bytes@.take(i as int) =~= bytes@);
                self.next_op()
            },
            UploadUse::Verify { address } => {
                let n = bytes.len();
                if n > u32::MAX as usize || self.consumed > self.payload.len() || n
                    > self.payload.len() - self.consumed {
                    return self.finish(
                        Err(
                            Error::FileIO(
                                "expected data is shorter than the flash region".to_string(),
                            ),
                        ),
                    );
                }
                let expected = copy_range(&self.payload, self.consumed, self.consumed + n);
                match compare_chunk(address, bytes.as_slice(), expected.as_slice()) {
                    Ok(()) => {
                        self.consumed = self.consumed + n;
                        self.next_op()
                    },
                    Err(e) => self.finish(Err(e)),
                }
            },
            UploadUse::Commands => match parse_commands(bytes.as_slice()) {
                Ok(v) => {
                    self.commands = v;
                    self.next_op()
                },
                Err(e) => self.finish(Err(e)),
            },
        }
    }

    fn unexpected(&mut self) -> (s: Step)
        requires
            old(self).wf(),
        ensures
            final(self).wf(),
            finished_unexpected(s),
    {
        self.finish(Err(Error::Argument("event does not answer the last request".to_string())))
    }

    /// Takes the outcome of the last request and answers with the next one,
    /// or with the end of the procedure.
    pub fn step(&mut self, event: Event) -> (s: Step)
        requires
            old(self).wf(),
        ensures
            final(self).wf(),
            step_spec(*old(self), *final(self), event, s),
    {
        match self.phase {
            Phase::Ready => self.run(),
            Phase::Done => Step::Finished(Ok(())),
            Phase::DnloadSent => match event {
                Event::OutDone(Ok(())) => self.next_op(),
                Event::OutDone(Err(e)) => {
                    if e == UsbError::Stall {
                        self.send_plain(
                            DFU_ABORT,
                            Phase::AbortSent { after_stall: true, lenient: false },
                        )
                    } else {
                        self.finish(Err(Error::USB("Dfuse download".to_string(), e)))
                    }
                },
                _ => self.unexpected(),
            },
            Phase::AbortSent { after_stall, lenient } => match event {
                Event::OutDone(Ok(())) => self.read_status(
                    0,
                    Purpose::AbortCheck { after_stall, lenient },
                ),
                Event::OutDone(Err(e)) => {
                    if lenient {
                        self.next_op()
                    } else {
                        self.finish(Err(Error::USB("Abort to idle".to_string(), e)))
                    }
                },
                _ => self.unexpected(),
            },
            Phase::StatusSent { tries, purpose } => match event {
                Event::InDone(res) => {
                    let stalled = match &res {
                        Err(e) => *e == UsbError::Stall,
                        _ => false,
                    };
                    let malformed = match &res {
                        Ok(bytes) => bytes.len() != 6,
                        _ => false,
                    };
                    if stalled {
                        self.pause(
                            STALL_BACKOFF_MS,
                            Phase::StatusBackoff { tries, purpose, stalled: true },
                        )
                    } else if malformed {
                        self.pause(
                            POLL_INTERVAL_MS,
                            Phase::StatusBackoff { tries, purpose, stalled: false },
                        )
                    } else {
                        let st = status_from(res);
                        self.on_status(purpose, st)
                    }
                },
                _ => self.unexpected(),
            },
            Phase::StatusBackoff { tries, purpose, stalled } => match event {
                Event::Slept => {
                    if tries > 0 {
                        self.read_status(tries - 1, purpose)
                    } else if stalled {
                        self.on_status(
                            purpose,
                            Err(
                                Error::USB(
                                    "Control transfer: DFU_GET_STATUS".to_string(),
                                    UsbError::Stall,
                                ),
                            ),
                        )
                    } else {
                        self.on_status(
                            purpose,
                            Err(Error::InvalidControlResponse("Status length was not 6".to_string())),
                        )
                    }
                },
                _ => self.unexpected(),
            },
            Phase::StallPause => match event {
                Event::Slept => self.next_op(),
                _ => self.unexpected(),
            },
            Phase::WaitPause { purpose } => match event {
                Event::Slept => self.read_status(WAIT_READ_RETRIES, purpose),
                _ => self.unexpected(),
            },
            Phase::ClearOnceAbortSent => match event {
                Event::OutDone(Ok(())) => self.read_status(0, Purpose::ClearOnceSecond),
                Event::OutDone(Err(e)) => self.finish(
                    Err(Error::USB("Abort to idle".to_string(), e)),
                ),
                _ => self.unexpected(),
            },
            Phase::ClearOnceClearSent => match event {
                Event::OutDone(Ok(())) => self.read_status(0, Purpose::ClearOnceThird),
                Event::OutDone(Err(e)) => self.finish(
                    Err(Error::USB("Control transfer".to_string(), e)),
                ),
                _ => self.unexpected(),
            },
            Phase::ControlSent => match event {
                Event::OutDone(Ok(())) => self.next_op(),
                Event::OutDone(Err(e)) => self.finish(
                    Err(Error::USB("Control transfer".to_string(), e)),
                ),
                _ => self.unexpected(),
            },
            Phase::UploadSent { usage } => match event {
                Event::InDone(Ok(bytes)) => self.on_upload(usage, bytes),
                Event::InDone(Err(e)) => self.finish(Err(Error::USB("Dfuse upload".to_string(), e))),
                _ => self.unexpected(),
            },
        }
    }
}

} // verus!
