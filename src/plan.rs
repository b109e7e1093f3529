//! The DfuSe procedures (erase, write, read, verify, reset, ...) written out as
//! sequences of primitive steps, and the checks applied to what the device
//! sends back.
use crate::dfuse_command::{command_of, DfuseCommand};
use crate::error::Error;
use crate::memory_layout::{first_containing, pages_needed, MemoryLayout, Page};
use crate::status::State;
use crate::transaction::{advanced, start_of, Transaction};
use vstd::prelude::*;

verus! {

/// The data phase of a DNLOAD request.
#[derive(Debug, Clone, Copy, PartialEq, Eq, Structural)]
pub enum Payload {
    /// A DfuSe command, sent with transaction 0.
    Command(DfuseCommand),
    /// `length` bytes of the data to write, starting at `offset`.
    Chunk { offset: u32, length: u16 },
    /// No data at all.
    Empty,
}

/// What becomes of the bytes an UPLOAD returns.
#[derive(Debug, Clone, Copy, PartialEq, Eq, Structural)]
pub enum UploadUse {
    /// Kept as data read from the device.
    Read,
    /// Compared with the expected data; `address` is where the chunk starts.
    Verify { address: u32 },
    /// Decoded as the list of supported DfuSe commands.
    Commands,
}

/// One primitive step of a procedure.
#[derive(Debug, Clone, Copy, PartialEq, Eq, Structural)]
pub enum Op {
    /// DNLOAD with this transaction number; a stall is answered with an
    /// abort to idle and a 10 ms pause.
    Download { transaction: u16, payload: Payload },
    /// Poll the status until the device is in `state`, at most `retries + 1`
    /// reads 100 ms apart; when `lenient`, a failure only marks the procedure
    /// as unsettled.
    Wait { retries: u8, state: State, lenient: bool },
    /// ABORT, then one status read that must show DfuIdle; when `lenient`, a
    /// failure is ignored.
    Abort { lenient: bool },
    /// A lenient `Abort`, only if an earlier lenient `Wait` failed.
    AbortIfUnsettled,
    /// Bring the device to DfuIdle: nothing if it is idle, else ABORT and, if
    /// still not idle, CLR_STATUS; one status read after each.
    AbortClearOnce,
    /// CLR_STATUS.
    ClearStatus,
    /// DETACH.
    Detach,
    /// UPLOAD of `length` bytes with this transaction number.
    Upload { transaction: u16, length: u16, usage: UploadUse },
    /// One status read, with up to `retries` further tries on a transient failure.
    GetStatus { retries: u8 },
    /// One status read whose failure is ignored.
    StatusBestEffort,
    /// Remember that the device has left DFU mode.
    MarkDetached,
    /// End the procedure with `Error::Address` of this address.
    FailAddress(u32),
}

/// How a procedure treats each chunk of a chunked transfer.
#[derive(Debug, Clone, Copy, PartialEq, Eq, Structural)]
pub enum ChunkUse {
    Write,
    Read,
    Verify,
}

pub open spec fn strict_wait(retries: u8, state: State) -> Op {
    Op::Wait { retries, state, lenient: false }
}

pub open spec fn command_op(c: DfuseCommand) -> Op {
    Op::Download { transaction: 0, payload: Payload::Command(c) }
}

/// The steps that move one chunk.
pub open spec fn chunk_steps(t: Transaction, offset: u32, usage: ChunkUse) -> Seq<Op> {
    match usage {
        ChunkUse::Write => seq![
            command_op(DfuseCommand::SetAddress(t.address)),
            strict_wait(100, State::DfuDownloadIdle),
            Op::Download {
                transaction: t.transaction,
                payload: Payload::Chunk { offset, length: t.xfer },
            },
            strict_wait(100, State::DfuDownloadBusy),
            strict_wait(100, State::DfuDownloadIdle),
        ],
        ChunkUse::Read => seq![
            Op::Upload { transaction: t.transaction, length: t.xfer, usage: UploadUse::Read },
        ],
        ChunkUse::Verify => seq![
            Op::Upload {
                transaction: t.transaction,
                length: t.xfer,
                usage: UploadUse::Verify { address: t.address },
            },
        ],
    }
}

/// The steps for every chunk from `t` on; `offset` is how far into the data
/// the chunk at `t` starts.
pub open spec fn chunk_ops(t: Transaction, offset: u32, usage: ChunkUse) -> Seq<Op>
    decreases t.pending,
{
    if t.xfer == 0 {
        Seq::empty()
    } else if t.pending == 0 || t.xfer_max == 0 {
        chunk_steps(t, offset, usage)
    } else {
        chunk_steps(t, offset, usage) + chunk_ops(
            advanced(t),
            ((offset + t.xfer) % 0x1_0000_0000) as u32,
            usage,
        )
    }
}

/// The three steps that erase one page.
pub open spec fn erase_steps(a: u32) -> Seq<Op> {
    seq![
        command_op(DfuseCommand::ErasePage(a)),
        strict_wait(0, State::DfuDownloadBusy),
        strict_wait(100, State::DfuDownloadIdle),
    ]
}

/// The steps that erase `n` pages of `size` bytes, the first at `a`.
pub open spec fn erase_runs(a: u32, size: u32, n: nat) -> Seq<Op>
    decreases n,
{
    if n == 0 {
        Seq::empty()
    } else {
        erase_steps(a) + erase_runs(((a + size) % 0x1_0000_0000) as u32, size, (n - 1) as nat)
    }
}

/// Erasing `length` bytes from `address`: wait for DfuIdle, then erase each
/// page that the walk of `num_pages` counts, starting from the page that
/// holds `address`; the walk's unmapped address, or `address` itself when no
/// page holds it, ends the procedure.
pub open spec fn erase_plan(layout: Seq<Page>, address: u32, length: u32) -> Seq<Op> {
    seq![strict_wait(0, State::DfuIdle)] + match pages_needed(
        layout,
        address as int,
        address + length,
    ) {
        Err(a) => seq![Op::FailAddress(a)],
        Ok(n) => match first_containing(layout, address, 0) {
            None => seq![Op::FailAddress(address)],
            Some(p) => erase_runs(p.address, p.size, n),
        },
    }
}

/// Writing `length` bytes at `address` in chunks of `xfer`: erase, abort to
/// idle, then per chunk set the address, send the chunk and wait; abort at
/// the end.
pub open spec fn write_plan(layout: Seq<Page>, xfer: u16, address: u32, length: u32) -> Seq<Op> {
    erase_plan(layout, address, length) + seq![
        Op::Abort { lenient: false },
        strict_wait(0, State::DfuIdle),
    ] + chunk_ops(start_of(address, length, xfer), 0, ChunkUse::Write) + seq![
        Op::Abort { lenient: false },
    ]
}

/// Reading (or verifying) `length` bytes at `address` in chunks of `xfer`.
pub open spec fn read_plan(xfer: u16, address: u32, length: u32, usage: ChunkUse) -> Seq<Op> {
    seq![
        command_op(DfuseCommand::SetAddress(address)),
        strict_wait(0, State::DfuDownloadBusy),
        Op::Abort { lenient: false },
        strict_wait(0, State::DfuIdle),
    ] + chunk_ops(start_of(address, length, xfer), 0, usage) + seq![Op::Abort { lenient: false }]
}

pub open spec fn set_address_plan(address: u32) -> Seq<Op> {
    seq![command_op(DfuseCommand::SetAddress(address)), strict_wait(0, State::DfuDownloadIdle)]
}

/// Resetting into the firmware at `address`: set the address, an empty
/// DNLOAD with transaction 2, one status read whose failure is ignored.
pub open spec fn reset_plan(address: u32) -> Seq<Op> {
    set_address_plan(address) + seq![
        Op::Download { transaction: 2, payload: Payload::Empty },
        Op::StatusBestEffort,
        Op::MarkDetached,
    ]
}

pub open spec fn mass_erase_plan() -> Seq<Op> {
    seq![
        strict_wait(0, State::DfuIdle),
        command_op(DfuseCommand::MassErase),
        strict_wait(0, State::DfuDownloadBusy),
        strict_wait(10, State::DfuDownloadIdle),
    ]
}

proof fn lemma_chunk_ops_step(t: Transaction, offset: u32, usage: ChunkUse)
    requires
        t.xfer > 0,
    ensures
        chunk_ops(t, offset, usage) == chunk_steps(t, offset, usage) + chunk_ops(
            advanced(t),
            ((offset + t.xfer) % 0x1_0000_0000) as u32,
            usage,
        ),
{
    if t.pending == 0 || t.xfer_max == 0 {
        assert(advanced(t).xfer == 0);
        assert(chunk_steps(t, offset, usage) + Seq::<Op>::empty() =~= chunk_steps(
            t,
            offset,
            usage,
        ));
    }
}

fn push_chunk_steps(ops: &mut Vec<Op>, t: &Transaction, offset: u32, usage: ChunkUse)
    ensures
        final(ops)@ == old(ops)@ + chunk_steps(*t, offset, usage),
{
    let ghost before = ops@;
    match usage {
        ChunkUse::Write => {
            ops.push(
                Op::Download {
                    transaction: 0,
                    payload: Payload::Command(DfuseCommand::SetAddress(t.address)),
                },
            );
            ops.push(Op::Wait { retries: 100, state: State::DfuDownloadIdle, lenient: false });
            ops.push(
                Op::Download {
                    transaction: t.transaction,
                    payload: Payload::Chunk { offset, length: t.xfer },
                },
            );
            ops.push(Op::Wait { retries: 100, state: State::DfuDownloadBusy, lenient: false });
            ops.push(Op::Wait { retries: 100, state: State::DfuDownloadIdle, lenient: false });
        },
        ChunkUse::Read => {
            ops.push(Op::Upload { transaction: t.transaction, length: t.xfer, usage: UploadUse::Read });
        },
        ChunkUse::Verify => {
            ops.push(
                Op::Upload {
                    transaction: t.transaction,
                    length: t.xfer,
                    usage: UploadUse::Verify { address: t.address },
                },
            );
        },
    }
    assert(ops@ =~= before + chunk_steps(*t, offset, usage));
}

/// Appends the steps for every chunk of a job of `length` bytes at `address`.
pub fn push_chunk_ops(ops: &mut Vec<Op>, address: u32, length: u32, xfer: u16, usage: ChunkUse)
    ensures
        final(ops)@ == old(ops)@ + chunk_ops(start_of(address, length, xfer), 0, usage),
{
    let ghost target = old(ops)@ + chunk_ops(start_of(address, length, xfer), 0, usage);
    let mut t = Transaction::new(address, length, xfer);
    let mut offset: u32 = 0;
    while t.xfer > 0
        invariant
            ops@ + chunk_ops(t, offset, usage) == target,
        decreases t.pending as int + if t.xfer > 0 {
            1int
        } else {
            0int
        },
    {
        proof {
            lemma_chunk_ops_step(t, offset, usage);
        }
        let ghost before = ops@;
        push_chunk_steps(ops, &t, offset, usage);
        let ghost rest = chunk_ops(
            advanced(t),
            ((offset + t.xfer) % 0x1_0000_0000) as u32,
            usage,
        );
        assert(before + (chunk_steps(t, offset, usage) + rest) =~= ops@ + rest);
        offset = ((offset as u64 + t.xfer as u64) % 0x1_0000_0000) as u32;
        t.next();
    }
    assert(ops@ + Seq::<Op>::empty() =~= ops@);
}

/// Appends the steps that erase `length` bytes from `address`.
pub fn push_erase_ops(ops: &mut Vec<Op>, layout: &MemoryLayout, address: u32, length: u32)
    ensures
        final(ops)@ == old(ops)@ + erase_plan(layout@, address, length),
{
    let ghost before = ops@;
    ops.push(Op::Wait { retries: 0, state: State::DfuIdle, lenient: false });
    let n = match layout.num_pages(address, length) {
        Ok(n) => n,
        Err(e) => {
            let a = match e {
                Error::Address(a) => a,
                _ => address,
            };
            ops.push(Op::FailAddress(a));
            assert(ops@ =~= before + erase_plan(layout@, address, length));
            return ;
        },
    };
    let page = match layout.address(address) {
        Ok(p) => p,
        Err(_) => {
            ops.push(Op::FailAddress(address));
            assert(ops@ =~= before + erase_plan(layout@, address, length));
            return ;
        },
    };
    let ghost head = ops@;
    assert(head =~= before + seq![strict_wait(0, State::DfuIdle)]);
    let mut k: usize = 0;
    let mut a: u32 = page.address;
    while k < n
        invariant
            k <= n,
            ops@ + erase_runs(a, page.size, (n - k) as nat) == head + erase_runs(
                page.address,
                page.size,
                n as nat,
            ),
        decreases n - k,
    {
        let ghost prev = ops@;
        ops.push(Op::Download { transaction: 0, payload: Payload::Command(DfuseCommand::ErasePage(a)) });
        ops.push(Op::Wait { retries: 0, state: State::DfuDownloadBusy, lenient: false });
        ops.push(Op::Wait { retries: 100, state: State::DfuDownloadIdle, lenient: false });
        let ghost next_a = ((a + page.size) % 0x1_0000_0000) as u32;
        let ghost rest = erase_runs(next_a, page.size, (n - k - 1) as nat);
        assert(erase_runs(a, page.size, (n - k) as nat) == erase_steps(a) + rest);
        assert(prev + (erase_steps(a) + rest) =~= ops@ + rest);
        a = ((a as u64 + page.size as u64) % 0x1_0000_0000) as u32;
        k += 1;
    }
    assert(ops@ + Seq::<Op>::empty() =~= ops@);
    assert(head + erase_runs(page.address, page.size, n as nat) =~= before + erase_plan(
        layout@,
        address,
        length,
    ));
}

/// The supported-commands reply: a 0 byte, then one opcode per command.
pub open spec fn commands_ok(b: Seq<u8>) -> bool {
    &&& b.len() > 0
    &&& b[0] == 0
    &&& forall|i: int| 1 <= i < b.len() ==> (#[trigger] command_of(b[i])) is Ok
}

/// Decodes the reply to a supported-commands request.
pub fn parse_commands(cmds: &[u8]) -> (r: Result<Vec<DfuseCommand>, Error>)
    ensures
        r is Ok <==> commands_ok(cmds@),
        r is Ok ==> r->Ok_0@ == Seq::new(
            (cmds@.len() - 1) as nat,
            |i: int| command_of(cmds@[i + 1])->Ok_0,
        ),
        cmds@.len() == 0 || cmds@[0] != 0 ==> r is Err && r->Err_0 is InvalidControlResponse,
        cmds@.len() > 0 && cmds@[0] == 0 && !commands_ok(cmds@) ==> r is Err
            && r->Err_0 is UnknownCommandByte,
{
    if cmds.len() == 0 || cmds[0] != 0 {
        return Err(Error::InvalidControlResponse("Get command".to_string()));
    }
    let mut v: Vec<DfuseCommand> = Vec::new();
    let mut i: usize = 1;
    while i < cmds.len()
        invariant
            1 <= i <= cmds@.len(),
            cmds@[0] == 0,
            forall|k: int| 1 <= k < i ==> (#[trigger] command_of(cmds@[k])) is Ok,
            v@ == Seq::new((i - 1) as nat, |k: int| command_of(cmds@[k + 1])->Ok_0),
        decreases cmds@.len() - i,
    {
        let c = DfuseCommand::try_from(cmds[i]);
        match c {
            Ok(c) => {
                v.push(c);
            },
            Err(e) => {
                return Err(e);
            },
        }
        i += 1;
        assert(v@ =~= Seq::new((i - 1) as nat, |k: int| command_of(cmds@[k + 1])->Ok_0));
    }
    Ok(v)
}

/// Index of the first byte where `a` and `b` differ, or the length.
pub open spec fn first_difference(a: Seq<u8>, b: Seq<u8>, i: int) -> int
    decreases a.len() - i,
{
    if i < 0 || i >= a.len() || i >= b.len() {
        i
    } else if a[i] != b[i] {
        i
    } else {
        first_difference(a, b, i + 1)
    }
}

/// Compares a chunk read back from the device with the expected bytes.
pub fn compare_chunk(address: u32, device: &[u8], expected: &[u8]) -> (r: Result<(), Error>)
    requires
        device@.len() == expected@.len(),
        expected@.len() <= u32::MAX,
    ensures
        r is Ok <==> device@ == expected@,
        r is Err ==> r->Err_0 == Error::Verify(
            ((address + first_difference(expected@, device@, 0)) % 0x1_0000_0000) as u32,
        ),
{
    let mut i: usize = 0;
    while i < expected.len()
        invariant
            i <= expected@.len() == device@.len(),
            expected@.len() <= u32::MAX,
            forall|k: int| 0 <= k < i ==> device@[k] == expected@[k],
            first_difference(expected@, device@, 0) == first_difference(expected@, device@, i as int),
        decreases expected@.len() - i,
    {
        if expected[i] != device[i] {
            return Err(Error::Verify(((address as u64 + i as u64) % 0x1_0000_0000) as u32));
        }
        i += 1;
    }
    assert(device@ =~= expected@);
    Ok(())
}


/// The steps that write `n` whole chunks of `x` bytes: the k-th is set to
/// address `a + k·x`, carries the data from offset `off + k·x` and is
/// numbered `tr + k`.
pub open spec fn whole_write_chunks(a: int, x: u16, tr: int, off: int, n: nat) -> Seq<Op>
    decreases n,
{
    if n == 0 {
        Seq::empty()
    } else {
        seq![
            command_op(DfuseCommand::SetAddress(a as u32)),
            strict_wait(100, State::DfuDownloadIdle),
            Op::Download {
                transaction: tr as u16,
                payload: Payload::Chunk { offset: off as u32, length: x },
            },
            strict_wait(100, State::DfuDownloadBusy),
            strict_wait(100, State::DfuDownloadIdle),
        ] + whole_write_chunks(a + x, x, tr + 1, off + x, (n - 1) as nat)
    }
}

proof fn lemma_whole_chunks(t: Transaction, off: int, n: nat)
    requires
        n >= 1,
        t.xfer == t.xfer_max,
        t.xfer > 0,
        t.pending == (n - 1) * t.xfer,
        t.address + n * t.xfer <= u32::MAX,
        0 <= off,
        off + n * t.xfer <= u32::MAX,
        t.transaction + n <= u16::MAX,
    ensures
        chunk_ops(t, off as u32, ChunkUse::Write) == whole_write_chunks(
            t.address as int,
            t.xfer,
            t.transaction as int,
            off,
            n,
        ),
    decreases n,
{
    let x = t.xfer as int;
    if n == 1 {
        assert(t.pending == 0) by (nonlinear_arith)
            requires
                n == 1,
                t.pending == (n - 1) * x,
        ;
        assert(whole_write_chunks(t.address + x, t.xfer, t.transaction + 1, off + x, 0) =~= Seq::<
            Op,
        >::empty());
        assert(chunk_steps(t, off as u32, ChunkUse::Write) + Seq::<Op>::empty() =~= chunk_steps(
            t,
            off as u32,
            ChunkUse::Write,
        ));
    } else {
        assert((n - 1) * x >= x) by (nonlinear_arith)
            requires
                n >= 2,
                x > 0,
        ;
        assert((n - 1) * x - x == (n - 2) * x) by (nonlinear_arith);
        assert(n * x == x + (n - 1) * x) by (nonlinear_arith);
        let t2 = advanced(t);
        assert(t2.address == t.address + x);
        assert(t2.transaction == t.transaction + 1);
        assert(t2.xfer == t.xfer && t2.xfer_max == t.xfer_max);
        assert(t2.pending == ((n - 1) - 1) * x);
        lemma_whole_chunks(t2, off + x, (n - 1) as nat);
    }
}

/// A page that `first_containing` finds holds the address.
proof fn lemma_first_containing_holds(ps: Seq<Page>, a: u32, i: int)
    requires
        first_containing(ps, a, i) is Some,
    ensures
        ({
            let p = first_containing(ps, a, i)->Some_0;
            p.address <= a < p.address + p.size
        }),
    decreases ps.len() - i,
{
    if !(i < 0 || i >= ps.len()) && !(ps[i].address <= a && a < ps[i].address + ps[i].size) {
        lemma_first_containing_holds(ps, a, i + 1);
    }
}

/// Writing `n` whole chunks of `x` bytes at `a`, all inside the page `p`
/// that holds `a`: after the idle wait the page is erased once; after an
/// abort and another idle wait, chunk k is set to address `a + k·x`, sent
/// with the data from offset `k·x` as transaction `2 + k`, and waited on;
/// a final abort ends the plan.
pub proof fn lemma_write_within_one_page(layout: Seq<Page>, p: Page, a: u32, x: u16, n: nat)
    requires
        first_containing(layout, a, 0) == Some(p),
        a + n * x <= p.address + p.size,
        a + n * x <= u32::MAX,
        n >= 1,
        x > 0,
        n + 2 <= u16::MAX,
    ensures
        write_plan(layout, x, a, (n * x) as u32) == seq![strict_wait(0, State::DfuIdle)]
            + erase_steps(p.address) + seq![
            Op::Abort { lenient: false },
            strict_wait(0, State::DfuIdle),
        ] + whole_write_chunks(a as int, x, 2, 0, n) + seq![Op::Abort { lenient: false }],
{
    lemma_first_containing_holds(layout, a, 0);
    let len = (n * x) as u32;
    assert(n * x >= x) by (nonlinear_arith)
        requires
            n >= 1,
            x > 0,
    ;
    assert(n * x - x == (n - 1) * x) by (nonlinear_arith);
    assert(p.size > 0);
    assert(pages_needed(layout, a as int, a + len) == Ok::<nat, u32>(1));
    assert(erase_runs(p.address, p.size, 1) =~= erase_steps(p.address)) by {
        assert(erase_runs(((p.address + p.size) % 0x1_0000_0000) as u32, p.size, 0) =~= Seq::<
            Op,
        >::empty());
    }
    let t = start_of(a, len, x);
    assert(t.xfer == x && t.pending == (n - 1) * x && t.transaction == 2 && t.address == a);
    lemma_whole_chunks(t, 0, n);
}

} // verus!
