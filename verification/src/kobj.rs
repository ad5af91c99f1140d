//! Typed references to resources of the host, and the view over a
//! null-terminated byte string.
//!
//! Each reference type wraps the address of one kind of resource. A value
//! exists only for an address that denotes a resource: the constructors turn
//! the null address and encoded errors into `None`. The operations on a
//! reference build the [`HostCall`] to perform; none of them touches the
//! resource.
//!
//! Superblocks and block devices are lent by the host and never released
//! here. Buffers, locks and wait queues are acquired, and each of them
//! remembers whether it is still held: its release call is built once, and
//! its other operations are for a held reference only.

use crate::errno::Error;
use crate::ffi::{is_live, nullable, HostCall, ERR_BASE};
use vstd::prelude::*;

verus! {

/// A reference to a superblock of the host. The host lends it; this crate
/// never releases it.
#[derive(Debug, Clone, Copy)]
pub struct RsSuperBlock {
    raw: u64,
}

impl RsSuperBlock {
    #[verifier::type_invariant]
    spec fn inv(self) -> bool {
        is_live(self.raw)
    }

    /// The address of the superblock.
    pub closed spec fn spec_get_raw(&self) -> u64 {
        self.raw
    }

    /// Wraps a reference that the host returned, unless it is null or an
    /// encoded error.
    pub fn from_raw(addr: u64) -> (r: Option<RsSuperBlock>)
        ensures
            r is Some <==> is_live(addr),
            r matches Some(sb) ==> sb.get_raw() == addr,
    {
        match nullable(addr) {
            Some(raw) => Some(RsSuperBlock { raw }),
            None => None,
        }
    }

    /// The address of the superblock.
    #[verifier::when_used_as_spec(spec_get_raw)]
    pub fn get_raw(&self) -> (r: u64)
        ensures
            r == self.spec_get_raw(),
            is_live(r),
    {
        proof {
            use_type_invariant(self);
        }
        self.raw
    }

    /// The call that reads the superblock's block device. The reply is a
    /// reference for [`RsBlockDevice::from_raw`].
    pub fn s_bdev(&self) -> (r: HostCall)
        ensures
            r == (HostCall::SuperBlockGetSBdev { sb: self.get_raw() }),
    {
        HostCall::SuperBlockGetSBdev { sb: self.raw }
    }

    /// The call that prints the superblock.
    pub fn dump(&mut self) -> (r: HostCall)
        ensures
            r == (HostCall::DumpSuperBlock { sb: old(self).get_raw() }),
            *final(self) == *old(self),
    {
        HostCall::DumpSuperBlock { sb: self.raw }
    }
}

/// A reference to a block device of the host. The host lends it; this crate
/// never releases it.
#[derive(Debug, Clone, Copy)]
pub struct RsBlockDevice {
    raw: u64,
}

impl RsBlockDevice {
    #[verifier::type_invariant]
    spec fn inv(self) -> bool {
        is_live(self.raw)
    }

    /// The address of the block device.
    pub closed spec fn spec_get_raw(&self) -> u64 {
        self.raw
    }

    /// Wraps a reference that the host returned, unless it is null or an
    /// encoded error.
    pub fn from_raw(addr: u64) -> (r: Option<RsBlockDevice>)
        ensures
            r is Some <==> is_live(addr),
            r matches Some(dev) ==> dev.get_raw() == addr,
    {
        match nullable(addr) {
            Some(raw) => Some(RsBlockDevice { raw }),
            None => None,
        }
    }

    /// The address of the block device.
    #[verifier::when_used_as_spec(spec_get_raw)]
    pub fn get_raw(&self) -> (r: u64)
        ensures
            r == self.spec_get_raw(),
            is_live(r),
    {
        proof {
            use_type_invariant(self);
        }
        self.raw
    }
}

/// A block device as the file system sees it.
#[derive(Debug, Clone, Copy)]
pub struct BlockDevice {
    pub bdev: RsBlockDevice,
}

/// A disk: the block device that a mount was given.
#[derive(Debug, Clone, Copy)]
pub struct Disk {
    pub bdev: BlockDevice,
}

/// What a release does: the reference is no longer held, and the release
/// call goes out only if the reference was held until now.
pub open spec fn release_step(held: bool, call: HostCall) -> (bool, Option<HostCall>) {
    (false, if held { Some(call) } else { None })
}

/// The release calls that go out over a run of operations on one reference,
/// `call` being its release call. `ops[i]` tells whether the operation at
/// `i` is a release; any other operation leaves the reference as it is.
pub open spec fn releases_emitted(held: bool, call: HostCall, ops: Seq<bool>) -> Seq<HostCall>
    decreases ops.len(),
{
    if ops.len() == 0 {
        Seq::empty()
    } else if ops[0] {
        let (held_after, emitted) = release_step(held, call);
        let first = match emitted {
            Some(c) => seq![c],
            None => Seq::empty(),
        };
        first + releases_emitted(held_after, call, ops.drop_first())
    } else {
        releases_emitted(held, call, ops.drop_first())
    }
}

/// A reference that was acquired is released exactly once. Over any run of
/// operations in which the release occurs, however often, the release call
/// goes out once for a held reference, and never for one that is no longer
/// held.
pub proof fn lemma_released_exactly_once(held: bool, call: HostCall, ops: Seq<bool>)
    ensures
        releases_emitted(held, call, ops) == (if held && ops.contains(true) {
            seq![call]
        } else {
            Seq::empty()
        }),
    decreases ops.len(),
{
    if ops.len() > 0 {
        let rest = ops.drop_first();
        assert(ops.contains(true) <==> ops[0] || rest.contains(true)) by {
            if ops.contains(true) {
                let i: int = choose|i: int| 0 <= i < ops.len() && ops[i] == true;
                if i > 0 {
                    assert(rest[i - 1] == true);
                }
            }
            if rest.contains(true) {
                let i: int = choose|i: int| 0 <= i < rest.len() && rest[i] == true;
                assert(ops[i + 1] == true);
            }
        }
        if ops[0] {
            lemma_released_exactly_once(false, call, rest);
            assert(releases_emitted(held, call, ops) =~= (if held {
                seq![call]
            } else {
                Seq::empty()
            }));
        } else {
            lemma_released_exactly_once(held, call, rest);
        }
    }
}

/// Whether `len` bytes from address `ptr` are memory that a slice can be
/// made over: `ptr` denotes a resource, the bytes end before the range of
/// encoded errors, and there are no more of them than a slice can hold.
pub open spec fn is_region(ptr: u64, len: usize) -> bool {
    &&& is_live(ptr)
    &&& ptr + len <= ERR_BASE
    &&& len <= isize::MAX
}

/// The memory that holds a buffer's bytes: where it starts and how long it
/// is.
#[derive(Debug, Clone, Copy)]
pub struct MemContainer {
    ptr: u64,
    len: usize,
}

impl MemContainer {
    #[verifier::type_invariant]
    spec fn inv(self) -> bool {
        is_region(self.ptr, self.len)
    }

    /// The address of the first byte.
    pub closed spec fn spec_as_ptr(&self) -> u64 {
        self.ptr
    }

    /// The number of bytes.
    pub closed spec fn spec_len(&self) -> usize {
        self.len
    }

    /// The address of the first byte.
    #[verifier::when_used_as_spec(spec_as_ptr)]
    pub fn as_ptr(&self) -> (r: u64)
        ensures
            r == self.spec_as_ptr(),
            is_region(r, self.len()),
    {
        proof {
            use_type_invariant(self);
        }
        self.ptr
    }

    /// The number of bytes.
    #[verifier::when_used_as_spec(spec_len)]
    pub fn len(&self) -> (r: usize)
        ensures
            r == self.spec_len(),
    {
        self.len
    }
}

/// A reference to a block buffer that a block read acquired. It is released
/// by one `__brelse`, which [`RsBufferHead::brelse`] builds once.
#[derive(Debug)]
pub struct RsBufferHead {
    raw: u64,
    held: bool,
}

impl RsBufferHead {
    #[verifier::type_invariant]
    spec fn inv(self) -> bool {
        is_live(self.raw)
    }

    /// The address of the buffer.
    pub closed spec fn spec_get_raw(&self) -> u64 {
        self.raw
    }

    /// Whether the buffer has not been released yet.
    pub closed spec fn spec_is_held(&self) -> bool {
        self.held
    }

    /// Wraps the reference that a block read returned, unless it is null or
    /// an encoded error. The result is held.
    pub fn from_raw(addr: u64) -> (r: Option<RsBufferHead>)
        ensures
            r is Some <==> is_live(addr),
            r matches Some(bh) ==> bh.get_raw() == addr && bh.is_held(),
    {
        match nullable(addr) {
            Some(raw) => Some(RsBufferHead { raw, held: true }),
            None => None,
        }
    }

    /// The address of the buffer.
    #[verifier::when_used_as_spec(spec_get_raw)]
    pub fn get_raw(&self) -> (r: u64)
        ensures
            r == self.spec_get_raw(),
            is_live(r),
    {
        proof {
            use_type_invariant(self);
        }
        self.raw
    }

    /// Whether the buffer has not been released yet.
    #[verifier::when_used_as_spec(spec_is_held)]
    pub fn is_held(&self) -> (r: bool)
        ensures
            r == self.spec_is_held(),
    {
        self.held
    }

    /// The call that reads the address of the buffer's bytes.
    pub fn b_data(&self) -> (r: HostCall)
        requires
            self.is_held(),
        ensures
            r == (HostCall::BufferHeadGetBData { bh: self.get_raw() }),
    {
        HostCall::BufferHeadGetBData { bh: self.raw }
    }

    /// The call that reads the number of the buffer's bytes.
    pub fn b_size(&self) -> (r: HostCall)
        requires
            self.is_held(),
        ensures
            r == (HostCall::BufferHeadGetBSize { bh: self.get_raw() }),
    {
        HostCall::BufferHeadGetBSize { bh: self.raw }
    }

    /// The memory that holds the buffer's bytes, from what the host returned
    /// for [`RsBufferHead::b_data`] and [`RsBufferHead::b_size`]; `None`
    /// where that is no memory to make a slice over.
    pub fn get_buffer_data(&self, b_data: u64, b_size: usize) -> (r: Option<MemContainer>)
        requires
            self.is_held(),
        ensures
            r is Some <==> is_region(b_data, b_size),
            r matches Some(mem) ==> mem.as_ptr() == b_data && mem.len() == b_size,
    {
        match nullable(b_data) {
            Some(ptr) => {
                if b_size <= isize::MAX as usize && b_size as u64 <= ERR_BASE - ptr {
                    Some(MemContainer { ptr, len: b_size })
                } else {
                    None
                }
            },
            None => None,
        }
    }

    /// The call that marks the buffer dirty.
    pub fn mark_buffer_dirty(&mut self) -> (r: HostCall)
        requires
            old(self).is_held(),
        ensures
            r == (HostCall::MarkBufferDirty { bh: old(self).get_raw() }),
            final(self).get_raw() == old(self).get_raw(),
            final(self).is_held(),
    {
        HostCall::MarkBufferDirty { bh: self.raw }
    }

    /// The call that writes the buffer back. The reply is a status.
    pub fn sync_dirty_buffer(&mut self) -> (r: HostCall)
        requires
            old(self).is_held(),
        ensures
            r == (HostCall::SyncDirtyBuffer { bh: old(self).get_raw() }),
            final(self).get_raw() == old(self).get_raw(),
            final(self).is_held(),
    {
        HostCall::SyncDirtyBuffer { bh: self.raw }
    }

    /// Releases the buffer: the release call if the buffer was still held,
    /// nothing if it had been released before.
    pub fn brelse(&mut self) -> (r: Option<HostCall>)
        ensures
            final(self).get_raw() == old(self).get_raw(),
            (final(self).is_held(), r) == release_step(
                old(self).is_held(),
                (HostCall::Brelse { bh: old(self).get_raw() }),
            ),
    {
        proof {
            use_type_invariant(&*self);
        }
        if self.held {
            self.held = false;
            Some(HostCall::Brelse { bh: self.raw })
        } else {
            None
        }
    }
}

/// A block buffer: the cache entry of one block, with the block's number.
#[derive(Debug)]
pub struct BufferHead {
    pub bh: RsBufferHead,
    pub blocknr: u64,
}

impl BufferHead {
    /// The number of the block that the buffer caches.
    pub fn blocknr(&self) -> (r: u64)
        ensures
            r == self.blocknr,
    {
        self.blocknr
    }

    /// The address of the buffer.
    pub fn get_raw(&self) -> (r: u64)
        ensures
            r == self.bh.get_raw(),
            is_live(r),
    {
        self.bh.get_raw()
    }
}

/// A reference to a reader/writer lock of the host. It is released by one
/// `rs_put_semaphore`, which [`RsRwSemaphore::put`] builds once.
#[derive(Debug)]
pub struct RsRwSemaphore {
    raw: u64,
    held: bool,
}

impl RsRwSemaphore {
    #[verifier::type_invariant]
    spec fn inv(self) -> bool {
        is_live(self.raw)
    }

    /// The address of the lock.
    pub closed spec fn spec_get_raw(&self) -> u64 {
        self.raw
    }

    /// Whether the lock has not been released yet.
    pub closed spec fn spec_is_held(&self) -> bool {
        self.held
    }

    /// The call that acquires a new lock. The reply is a reference for
    /// [`RsRwSemaphore::from_raw`].
    pub fn get() -> (r: HostCall)
        ensures
            r == HostCall::GetSemaphore,
    {
        HostCall::GetSemaphore
    }

    /// Wraps the reference that acquiring a lock returned, unless it is null
    /// or an encoded error. The result is held.
    pub fn from_raw(addr: u64) -> (r: Option<RsRwSemaphore>)
        ensures
            r is Some <==> is_live(addr),
            r matches Some(sem) ==> sem.get_raw() == addr && sem.is_held(),
    {
        match nullable(addr) {
            Some(raw) => Some(RsRwSemaphore { raw, held: true }),
            None => None,
        }
    }

    /// The address of the lock.
    #[verifier::when_used_as_spec(spec_get_raw)]
    pub fn get_raw(&self) -> (r: u64)
        ensures
            r == self.spec_get_raw(),
            is_live(r),
    {
        proof {
            use_type_invariant(self);
        }
        self.raw
    }

    /// Whether the lock has not been released yet.
    #[verifier::when_used_as_spec(spec_is_held)]
    pub fn is_held(&self) -> (r: bool)
        ensures
            r == self.spec_is_held(),
    {
        self.held
    }

    /// The call that takes the lock shared. It blocks while a writer holds
    /// the lock.
    pub fn down_read(&self) -> (r: HostCall)
        requires
            self.is_held(),
        ensures
            r == (HostCall::DownRead { sem: self.get_raw() }),
    {
        HostCall::DownRead { sem: self.raw }
    }

    /// The call that gives a shared hold back.
    pub fn up_read(&self) -> (r: HostCall)
        requires
            self.is_held(),
        ensures
            r == (HostCall::UpRead { sem: self.get_raw() }),
    {
        HostCall::UpRead { sem: self.raw }
    }

    /// The call that takes the lock exclusive. It blocks while anyone holds
    /// the lock.
    pub fn down_write(&self) -> (r: HostCall)
        requires
            self.is_held(),
        ensures
            r == (HostCall::DownWrite { sem: self.get_raw() }),
    {
        HostCall::DownWrite { sem: self.raw }
    }

    /// The call that tries to take the lock exclusive. It never blocks; the
    /// reply is a status that tells whether the lock was taken.
    pub fn down_write_trylock(&self) -> (r: HostCall)
        requires
            self.is_held(),
        ensures
            r == (HostCall::DownWriteTrylock { sem: self.get_raw() }),
    {
        HostCall::DownWriteTrylock { sem: self.raw }
    }

    /// The call that gives the exclusive hold back.
    pub fn up_write(&self) -> (r: HostCall)
        requires
            self.is_held(),
        ensures
            r == (HostCall::UpWrite { sem: self.get_raw() }),
    {
        HostCall::UpWrite { sem: self.raw }
    }

    /// Releases the lock: the release call if the lock was still held,
    /// nothing if it had been released before.
    pub fn put(&mut self) -> (r: Option<HostCall>)
        ensures
            final(self).get_raw() == old(self).get_raw(),
            (final(self).is_held(), r) == release_step(
                old(self).is_held(),
                (HostCall::PutSemaphore { sem: old(self).get_raw() }),
            ),
    {
        proof {
            use_type_invariant(&*self);
        }
        if self.held {
            self.held = false;
            Some(HostCall::PutSemaphore { sem: self.raw })
        } else {
            None
        }
    }
}

/// A reference to a wait queue of the host. It is released by one
/// `rs_put_wait_queue_head`, which [`RsWaitQueueHead::put`] builds once.
#[derive(Debug)]
pub struct RsWaitQueueHead {
    raw: u64,
    held: bool,
}

impl RsWaitQueueHead {
    #[verifier::type_invariant]
    spec fn inv(self) -> bool {
        is_live(self.raw)
    }

    /// The address of the wait queue.
    pub closed spec fn spec_get_raw(&self) -> u64 {
        self.raw
    }

    /// Whether the wait queue has not been released yet.
    pub closed spec fn spec_is_held(&self) -> bool {
        self.held
    }

    /// The call that acquires a new wait queue. The reply is a reference for
    /// [`RsWaitQueueHead::from_raw`].
    pub fn get() -> (r: HostCall)
        ensures
            r == HostCall::GetWaitQueueHead,
    {
        HostCall::GetWaitQueueHead
    }

    /// Wraps the reference that acquiring a wait queue returned, unless it is
    /// null or an encoded error. The result is held.
    pub fn from_raw(addr: u64) -> (r: Option<RsWaitQueueHead>)
        ensures
            r is Some <==> is_live(addr),
            r matches Some(wq) ==> wq.get_raw() == addr && wq.is_held(),
    {
        match nullable(addr) {
            Some(raw) => Some(RsWaitQueueHead { raw, held: true }),
            None => None,
        }
    }

    /// The address of the wait queue.
    #[verifier::when_used_as_spec(spec_get_raw)]
    pub fn get_raw(&self) -> (r: u64)
        ensures
            r == self.spec_get_raw(),
            is_live(r),
    {
        proof {
            use_type_invariant(self);
        }
        self.raw
    }

    /// Whether the wait queue has not been released yet.
    #[verifier::when_used_as_spec(spec_is_held)]
    pub fn is_held(&self) -> (r: bool)
        ensures
            r == self.spec_is_held(),
    {
        self.held
    }

    /// The call that wakes the threads blocked on the wait queue.
    pub fn wake_up(&self) -> (r: HostCall)
        requires
            self.is_held(),
        ensures
            r == (HostCall::WakeUp { wq: self.get_raw() }),
    {
        HostCall::WakeUp { wq: self.raw }
    }

    /// Releases the wait queue: the release call if it was still held,
    /// nothing if it had been released before.
    pub fn put(&mut self) -> (r: Option<HostCall>)
        ensures
            final(self).get_raw() == old(self).get_raw(),
            (final(self).is_held(), r) == release_step(
                old(self).is_held(),
                (HostCall::PutWaitQueueHead { wq: old(self).get_raw() }),
            ),
    {
        proof {
            use_type_invariant(&*self);
        }
        if self.held {
            self.held = false;
            Some(HostCall::PutWaitQueueHead { wq: self.raw })
        } else {
            None
        }
    }
}

/// Whether `bytes` is a null-terminated string: it ends in a zero byte and
/// holds no other.
pub open spec fn is_c_string(bytes: Seq<u8>) -> bool {
    &&& bytes.len() > 0
    &&& bytes[bytes.len() - 1] == 0
    &&& forall|i: int| 0 <= i < bytes.len() - 1 ==> bytes[i] != 0
}

/// A view over a null-terminated byte string that someone else owns.
#[derive(Debug, Clone, Copy)]
pub struct CStr<'a> {
    inner: &'a [u8],
}

impl<'a> View for CStr<'a> {
    type V = Seq<u8>;

    /// The bytes of the string, the terminator included.
    closed spec fn view(&self) -> Seq<u8> {
        self.inner@
    }
}

impl<'a> CStr<'a> {
    #[verifier::type_invariant]
    spec fn inv(self) -> bool {
        is_c_string(self.inner@)
    }

    /// The bytes that the view is over, the terminator included.
    pub fn to_raw(&self) -> (r: &'a [u8])
        ensures
            r@ == self@,
            is_c_string(r@),
    {
        proof {
            use_type_invariant(self);
        }
        self.inner
    }

    /// The length of the string: the number of bytes before the terminator.
    pub fn len(&self) -> (r: usize)
        ensures
            r == self@.len() - 1,
    {
        proof {
            use_type_invariant(self);
        }
        let mut i: usize = 0;
        while self.inner[i] != 0
            invariant
                is_c_string(self.inner@),
                i < self.inner@.len(),
                forall|j: int| 0 <= j < i ==> self.inner@[j] != 0,
            decreases self.inner@.len() - i,
        {
            i += 1;
        }
        i
    }

    /// The bytes of the string before the terminator: a slice of length
    /// [`CStr::len`].
    pub fn to_bytes_with_nul(&self) -> (r: &'a [u8])
        ensures
            r@ == self@.subrange(0, self@.len() - 1),
    {
        let n: usize = self.len();
        vstd::slice::slice_subrange(self.inner, 0, n)
    }

    /// Makes a view over `bytes`.
    ///
    /// The first zero byte of `bytes` has to be its last byte. Where `bytes`
    /// holds no zero byte, or one before its end, the result is the
    /// input/output error.
    pub fn from_bytes_with_nul(bytes: &'a [u8]) -> (r: Result<CStr<'a>, Error>)
        ensures
            r is Ok <==> is_c_string(bytes@),
            r matches Ok(s) ==> s@ == bytes@,
            r matches Err(e) ==> e == Error::EIO,
    {
        let n: usize = bytes.len();
        let mut nul_pos: Option<usize> = None;
        let mut i: usize = 0;
        while i < n
            invariant_except_break
                nul_pos is None,
            invariant
                n == bytes@.len(),
                i <= n,
                forall|j: int| 0 <= j < i ==> bytes@[j] != 0,
            ensures
                nul_pos matches Some(p) ==> p == i && i < n && bytes@[i as int] == 0,
                nul_pos is None ==> i == n,
            decreases n - i,
        {
            if bytes[i] == 0 {
                nul_pos = Some(i);
                break ;
            }
            i += 1;
        }
        match nul_pos {
            Some(pos) => {
                if pos + 1 != n {
                    return Err(Error::EIO);
                }
                Ok(CStr { inner: bytes })
            },
            None => Err(Error::EIO),
        }
    }
}

} // verus!
