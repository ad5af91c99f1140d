//! The boundary to the host kernel.
//!
//! [`HostCall`] lists the entry points of the host that this crate relies on,
//! each with the arguments it is invoked with. The crate builds such values;
//! a driver outside it performs them and reports what the host returned.
//!
//! A reference handed out by the host is an address of 64 bits. The host
//! reuses that channel to report failure: the null address and the topmost
//! [`MAX_ERRNO`] addresses never denote a resource.

use crate::kobj::RsSuperBlock;
use vstd::prelude::*;

verus! {

/// Largest error number that the host encodes in a reference.
pub const MAX_ERRNO: u64 = 4095;

/// First address of the range in which the host encodes error numbers.
pub const ERR_BASE: u64 = 0xffff_ffff_ffff_f001;

/// Whether `addr` is an error number encoded as a reference: one of the
/// topmost `MAX_ERRNO` addresses.
pub open spec fn spec_is_err(addr: u64) -> bool {
    addr as int > u64::MAX - MAX_ERRNO
}

/// Whether `addr` denotes a resource: neither null nor an encoded error.
pub open spec fn is_live(addr: u64) -> bool {
    addr != 0 && !spec_is_err(addr)
}

/// The error number that an encoded reference carries, as the host reports
/// it: negative, between `-MAX_ERRNO` and `-1`.
pub open spec fn spec_ptr_err(addr: u64) -> int {
    addr as int - 0x1_0000_0000_0000_0000
}

/// Why a reference denotes no resource.
#[derive(Debug, Clone, Copy, PartialEq, Eq, Structural)]
pub enum Absent {
    /// The reference is null.
    Null,
    /// The reference encodes this error number, a negative value.
    Errno(i32),
}

/// What a reference that the host returned stands for: the address of a
/// resource, or the reason why there is none.
pub open spec fn spec_check_ref(addr: u64) -> Result<u64, Absent> {
    if addr == 0 {
        Err(Absent::Null)
    } else if spec_is_err(addr) {
        Err(Absent::Errno(spec_ptr_err(addr) as i32))
    } else {
        Ok(addr)
    }
}

/// Tells whether `addr` is an error number encoded as a reference.
#[verifier::when_used_as_spec(spec_is_err)]
pub fn is_err(addr: u64) -> (r: bool)
    ensures
        r == spec_is_err(addr),
{
    addr >= ERR_BASE
}

/// Extracts the error number from an encoded reference.
pub fn ptr_err(addr: u64) -> (r: i32)
    requires
        spec_is_err(addr),
    ensures
        r as int == spec_ptr_err(addr),
        -(MAX_ERRNO as int) <= r <= -1,
{
    let below: u64 = u64::MAX - addr;
    -1 - (below as i32)
}

/// Sorts a reference that the host returned: the address if it denotes a
/// resource, else whether it is null or which error it encodes.
#[verifier::when_used_as_spec(spec_check_ref)]
pub fn check_ref(addr: u64) -> (r: Result<u64, Absent>)
    ensures
        r == spec_check_ref(addr),
        r is Ok <==> is_live(addr),
{
    if addr == 0 {
        Err(Absent::Null)
    } else if is_err(addr) {
        Err(Absent::Errno(ptr_err(addr)))
    } else {
        Ok(addr)
    }
}

/// Turns a reference returned by the host into an optional address: `None`
/// when the host returned null or an encoded error.
pub fn nullable(addr: u64) -> (r: Option<u64>)
    ensures
        r == (if is_live(addr) {
            Some(addr)
        } else {
            None::<u64>
        }),
{
    match check_ref(addr) {
        Ok(live) => Some(live),
        Err(_) => None,
    }
}

/// The call that reads block `blockno` of the device behind `sb`. The reply
/// is a reference for [`crate::kobj::RsBufferHead::from_raw`].
pub fn sb_bread(sb: &RsSuperBlock, blockno: u64) -> (r: HostCall)
    ensures
        r == (HostCall::SbBread { sb: sb.get_raw(), blockno }),
{
    HostCall::SbBread { sb: sb.get_raw(), blockno }
}

/// A block count as the host's `int` receives it: the same 32 bits, read as
/// a signed number.
pub open spec fn spec_c_int(n: u32) -> i32 {
    if n <= i32::MAX {
        n as i32
    } else {
        (n - 0x1_0000_0000) as i32
    }
}

/// Converts a block count to the host's `int`, keeping its 32 bits.
#[verifier::when_used_as_spec(spec_c_int)]
pub fn c_int(n: u32) -> (r: i32)
    ensures
        r == spec_c_int(n),
{
    if n <= 0x7fff_ffff {
        n as i32
    } else {
        (n as i64 - 0x1_0000_0000) as i32
    }
}

/// One invocation of an entry point of the host. References are addresses;
/// the comment of each variant names the host's symbol and what it returns.
#[must_use]
#[derive(Debug, Clone, Copy, PartialEq, Eq, Structural)]
pub enum HostCall {
    /// `rs_sb_bread`: reads block `blockno` of the device behind `sb`;
    /// returns a buffer reference.
    SbBread { sb: u64, blockno: u64 },
    /// `__brelse`: releases a buffer; returns nothing.
    Brelse { bh: u64 },
    /// `rs_super_block_get_s_bdev`: returns the block device of a superblock,
    /// as a reference.
    SuperBlockGetSBdev { sb: u64 },
    /// `rs_dump_super_block`: prints a superblock; returns nothing.
    DumpSuperBlock { sb: u64 },
    /// `rs_buffer_head_get_b_data`: returns the address of a buffer's bytes.
    BufferHeadGetBData { bh: u64 },
    /// `rs_buffer_head_get_b_size`: returns the number of a buffer's bytes.
    BufferHeadGetBSize { bh: u64 },
    /// `mark_buffer_dirty`: returns nothing.
    MarkBufferDirty { bh: u64 },
    /// `sync_dirty_buffer`: writes a buffer back; returns a status.
    SyncDirtyBuffer { bh: u64 },
    /// `rs_get_semaphore`: returns a reference to a new reader/writer lock.
    GetSemaphore,
    /// `rs_put_semaphore`: releases a lock; returns nothing.
    PutSemaphore { sem: u64 },
    /// `down_read`: takes the lock shared, blocking; returns nothing.
    DownRead { sem: u64 },
    /// `up_read`: gives a shared hold back; returns nothing.
    UpRead { sem: u64 },
    /// `down_write`: takes the lock exclusive, blocking; returns nothing.
    DownWrite { sem: u64 },
    /// `down_write_trylock`: tries to take the lock exclusive without
    /// blocking; returns a status.
    DownWriteTrylock { sem: u64 },
    /// `up_write`: gives the exclusive hold back; returns nothing.
    UpWrite { sem: u64 },
    /// `rs_get_wait_queue_head`: returns a reference to a new wait queue.
    GetWaitQueueHead,
    /// `rs_put_wait_queue_head`: releases a wait queue; returns nothing.
    PutWaitQueueHead { wq: u64 },
    /// `rs_wake_up`: wakes the threads blocked on a wait queue; returns
    /// nothing.
    WakeUp { wq: u64 },
    /// `rs_jbd2_journal_init_dev`: creates a journal over `len` blocks of
    /// `bsize` bytes from block `start` of `bdev`; returns a journal
    /// reference.
    JournalInitDev { bdev: u64, fs_dev: u64, start: u64, len: i32, bsize: i32 },
    /// `rs_jbd2_journal_load`: loads the log that is on disk; returns a
    /// status.
    JournalLoad { journal: u64 },
    /// `rs_jbd2_journal_set_barrier`: returns nothing.
    JournalSetBarrier { journal: u64 },
    /// `rs_jbd2_journal_set_async_commit`: returns nothing.
    JournalSetAsyncCommit { journal: u64 },
    /// `rs_jbd2_journal_start`: opens a transaction with room for `blocks`
    /// blocks; returns a transaction reference.
    JournalStart { journal: u64, blocks: i32 },
    /// `rs_jbd2_journal_get_write_access`: returns a status.
    JournalGetWriteAccess { handle: u64, bh: u64 },
    /// `rs_jbd2_journal_get_create_access`: returns a status.
    JournalGetCreateAccess { handle: u64, bh: u64 },
    /// `rs_jbd2_journal_dirty_metadata`: returns a status.
    JournalDirtyMetadata { handle: u64, bh: u64 },
    /// `rs_jbd2_journal_stop`: closes a transaction; returns a status.
    JournalStop { handle: u64 },
    /// `rs_jbd2_journal_force_commit`: flushes the log, blocking; returns a
    /// status.
    JournalForceCommit { journal: u64 },
    /// `rs_jbd2_journal_destroy`: tears a journal down; returns nothing.
    JournalDestroy { journal: u64 },
}

/// What the host returned from one call.
#[derive(Debug, Clone, Copy, PartialEq, Eq, Structural)]
pub enum HostReply {
    /// The call returns nothing.
    Unit,
    /// A status: zero for success, anything else names an error.
    Status(i32),
    /// A reference, which may be null or an encoded error.
    Ref(u64),
    /// A number of bytes.
    Size(usize),
}

/// How an operation that yields a status gets it.
#[must_use]
#[derive(Debug, Clone, Copy, PartialEq, Eq, Structural)]
pub enum Step {
    /// The status is known without the host.
    Done(i32),
    /// The host has to be called, and the status is what it returns.
    Call(HostCall),
}

} // verus!
