//! Walks one (address, length) job in chunks of at most the device's transfer
//! size, numbering each chunk with a transaction counter.
use vstd::prelude::*;

verus! {

/// Progress through one chunked operation. `xfer` is the size of the chunk at
/// `address` about to be transferred; 0 once the job is done.
#[derive(Debug, Clone, Copy, PartialEq, Eq, Structural)]
pub struct Transaction {
    pub transaction: u16,
    pub address: u32,
    pub pending: u32,
    pub xfer: u16,
    pub xfer_max: u16,
}

/// Takes the next chunk out of `pending`: a whole `xfer_max`, or what is left.
pub open spec fn take_chunk(t: Transaction) -> Transaction {
    if t.pending >= t.xfer_max {
        Transaction { xfer: t.xfer_max, pending: (t.pending - t.xfer_max) as u32, ..t }
    } else {
        Transaction { xfer: t.pending as u16, pending: 0, ..t }
    }
}

/// The state before the first chunk: counter 2, first chunk taken.
pub open spec fn start_of(address: u32, pending: u32, xfer_max: u16) -> Transaction {
    take_chunk(Transaction { transaction: 2, address, pending, xfer: xfer_max, xfer_max })
}

/// The state after one chunk: the address moves past it, the counter goes up
/// and the next chunk is taken; with nothing pending, `xfer` becomes 0.
pub open spec fn advanced(t: Transaction) -> Transaction {
    let moved = Transaction {
        address: ((t.address + t.xfer) % 0x1_0000_0000) as u32,
        transaction: ((t.transaction + 1) % 0x1_0000) as u16,
        ..t
    };
    if t.pending == 0 {
        Transaction { xfer: 0, ..moved }
    } else {
        take_chunk(moved)
    }
}

impl Transaction {
    /// Starts a job of `pending` bytes at `address` in chunks of `xfer_max`.
    pub fn new(address: u32, pending: u32, xfer_max: u16) -> (r: Transaction)
        ensures
            r == start_of(address, pending, xfer_max),
    {
        let mut t = Transaction { transaction: 2, address, pending, xfer: xfer_max, xfer_max };
        t.set_xfer();
        t
    }

    /// Takes the next chunk out of what is pending.
    pub fn set_xfer(&mut self)
        ensures
            *final(self) == take_chunk(*old(self)),
    {
        if self.pending >= self.xfer_max as u32 {
            self.xfer = self.xfer_max;
            self.pending = self.pending - self.xfer_max as u32;
        } else {
            self.xfer = self.pending as u16;
            self.pending = 0;
        }
    }

    /// Moves past the current chunk. Returns `None` when no chunk follows.
    pub fn next(&mut self) -> (r: Option<()>)
        ensures
            *final(self) == advanced(*old(self)),
            r is Some <==> old(self).pending != 0,
    {
        self.address = ((self.address as u64 + self.xfer as u64) % 0x1_0000_0000) as u32;
        self.transaction = ((self.transaction as u32 + 1) % 0x1_0000) as u16;
        if self.pending == 0 {
            self.xfer = 0;
            return None;
        }
        self.set_xfer();
        Some(())
    }
}

/// A job of three whole chunks goes out as three chunks of `x` at `a`,
/// `a + x` and `a + 2x`, numbered 2, 3 and 4, after which `xfer` is 0.
pub proof fn lemma_three_whole_chunks(a: u32, x: u16)
    requires
        x > 0,
        a + 3 * x <= u32::MAX,
    ensures
        ({
            let t0 = start_of(a, (3 * x) as u32, x);
            let t1 = advanced(t0);
            let t2 = advanced(t1);
            let t3 = advanced(t2);
            &&& t0.xfer == x && t0.transaction == 2 && t0.address == a
            &&& t1.xfer == x && t1.transaction == 3 && t1.address == a + x
            &&& t2.xfer == x && t2.transaction == 4 && t2.address == a + 2 * x
            &&& t3.xfer == 0
        }),
{
}

/// A job one byte longer than a chunk goes out as `x` bytes, then 1 byte,
/// numbered 2 and 3, after which `xfer` is 0.
pub proof fn lemma_chunk_and_one_byte(a: u32, x: u16)
    requires
        x > 0,
        a + x + 1 <= u32::MAX,
    ensures
        ({
            let t0 = start_of(a, (x + 1) as u32, x);
            let t1 = advanced(t0);
            let t2 = advanced(t1);
            &&& t0.xfer == x && t0.transaction == 2 && t0.address == a
            &&& t1.xfer == 1 && t1.transaction == 3 && t1.address == a + x
            &&& t2.xfer == 0
        }),
{
}

} // verus!
