use bento::ffi::{
    c_int, check_ref, is_err, nullable, ptr_err, sb_bread, Absent, HostCall, HostReply, ERR_BASE,
    MAX_ERRNO,
};
use bento::kobj::{
    BufferHead, RsBlockDevice, RsBufferHead, RsRwSemaphore, RsSuperBlock, RsWaitQueueHead,
};

/// A stand-in for the host that counts what is acquired and what is released.
struct Accounts {
    next: u64,
    fail_reads: bool,
    acquired: u64,
    released: u64,
    live: Vec<u64>,
    calls: Vec<HostCall>,
}

impl Accounts {
    fn new() -> Accounts {
        Accounts {
            next: 0x1000,
            fail_reads: false,
            acquired: 0,
            released: 0,
            live: Vec::new(),
            calls: Vec::new(),
        }
    }

    fn acquire(&mut self) -> HostReply {
        let addr = self.next;
        self.next += 0x100;
        self.acquired += 1;
        self.live.push(addr);
        HostReply::Ref(addr)
    }

    fn release(&mut self, addr: u64) -> HostReply {
        let at = self.live.iter().position(|a| *a == addr);
        let at = at.expect("released what is not held");
        self.live.remove(at);
        self.released += 1;
        HostReply::Unit
    }

    fn perform(&mut self, call: HostCall) -> HostReply {
        self.calls.push(call);
        match call {
            HostCall::SbBread { .. } => {
                if self.fail_reads {
                    HostReply::Ref(0)
                } else {
                    self.acquire()
                }
            }
            HostCall::GetSemaphore | HostCall::GetWaitQueueHead => self.acquire(),
            HostCall::Brelse { bh } => self.release(bh),
            HostCall::PutSemaphore { sem } => self.release(sem),
            HostCall::PutWaitQueueHead { wq } => self.release(wq),
            HostCall::SyncDirtyBuffer { .. } | HostCall::DownWriteTrylock { .. } => {
                HostReply::Status(0)
            }
            HostCall::BufferHeadGetBData { bh } => HostReply::Ref(bh + 0x10_0000),
            HostCall::BufferHeadGetBSize { .. } => HostReply::Size(4096),
            _ => HostReply::Unit,
        }
    }
}

fn reference(reply: HostReply) -> u64 {
    match reply {
        HostReply::Ref(addr) => addr,
        other => panic!("expected a reference, got {:?}", other),
    }
}

#[test]
fn null_is_no_resource() {
    assert_eq!(nullable(0), None);
    assert_eq!(check_ref(0), Err(Absent::Null));
    assert!(!is_err(0));
}

#[test]
fn error_range_is_the_topmost_addresses() {
    assert_eq!(MAX_ERRNO, 4095);
    assert_eq!(ERR_BASE, u64::MAX - 4094);
    assert!(is_err(u64::MAX));
    assert!(is_err(ERR_BASE));
    assert!(!is_err(ERR_BASE - 1));
    assert!(!is_err(1));
}

#[test]
fn encoded_error_numbers_are_read_back() {
    assert_eq!(ptr_err(u64::MAX), -1);
    assert_eq!(ptr_err(u64::MAX - 4), -5);
    assert_eq!(ptr_err((-12i64) as u64), -12);
    assert_eq!(ptr_err(ERR_BASE), -4095);
}

#[test]
fn references_are_sorted_into_live_null_and_error() {
    assert_eq!(check_ref(0xffff_8800_0000_1000), Ok(0xffff_8800_0000_1000));
    assert_eq!(check_ref(1), Ok(1));
    assert_eq!(check_ref(ERR_BASE - 1), Ok(ERR_BASE - 1));
    assert_eq!(check_ref(ERR_BASE), Err(Absent::Errno(-4095)));
    assert_eq!(check_ref((-28i64) as u64), Err(Absent::Errno(-28)));
    assert_eq!(nullable(ERR_BASE - 1), Some(ERR_BASE - 1));
    assert_eq!(nullable(ERR_BASE), None);
    assert_eq!(nullable(u64::MAX), None);
    assert_eq!(nullable(0x1000), Some(0x1000));
}

#[test]
fn block_counts_keep_their_bits() {
    assert_eq!(c_int(0), 0);
    assert_eq!(c_int(3), 3);
    assert_eq!(c_int(0x7fff_ffff), i32::MAX);
    assert_eq!(c_int(0x8000_0000), i32::MIN);
    assert_eq!(c_int(u32::MAX), -1);
}

#[test]
fn constructors_refuse_sentinels() {
    assert!(RsSuperBlock::from_raw(0).is_none());
    assert!(RsSuperBlock::from_raw(u64::MAX - 1).is_none());
    assert!(RsBlockDevice::from_raw(0).is_none());
    assert!(RsBlockDevice::from_raw(ERR_BASE).is_none());
    assert!(RsBufferHead::from_raw(0).is_none());
    assert!(RsBufferHead::from_raw((-5i64) as u64).is_none());
    assert!(RsRwSemaphore::from_raw(0).is_none());
    assert!(RsRwSemaphore::from_raw(u64::MAX).is_none());
    assert!(RsWaitQueueHead::from_raw(0).is_none());
    assert!(RsWaitQueueHead::from_raw(ERR_BASE + 7).is_none());
}

#[test]
fn constructors_keep_the_address() {
    assert_eq!(RsSuperBlock::from_raw(0x2000).unwrap().get_raw(), 0x2000);
    assert_eq!(RsBlockDevice::from_raw(0x3000).unwrap().get_raw(), 0x3000);
    let bh = RsBufferHead::from_raw(0x4000).unwrap();
    assert_eq!(bh.get_raw(), 0x4000);
    assert!(bh.is_held());
    let sem = RsRwSemaphore::from_raw(ERR_BASE - 1).unwrap();
    assert_eq!(sem.get_raw(), ERR_BASE - 1);
    assert!(sem.is_held());
    let wq = RsWaitQueueHead::from_raw(0x5000).unwrap();
    assert_eq!(wq.get_raw(), 0x5000);
    assert!(wq.is_held());
}

#[test]
fn superblock_operations_name_the_superblock() {
    let mut sb = RsSuperBlock::from_raw(0x2000).unwrap();
    assert_eq!(sb.s_bdev(), HostCall::SuperBlockGetSBdev { sb: 0x2000 });
    assert_eq!(sb.dump(), HostCall::DumpSuperBlock { sb: 0x2000 });
    assert_eq!(sb_bread(&sb, 17), HostCall::SbBread { sb: 0x2000, blockno: 17 });
    assert_eq!(sb.get_raw(), 0x2000);
}

#[test]
fn buffer_operations_name_the_buffer() {
    let mut bh = RsBufferHead::from_raw(0x4000).unwrap();
    assert_eq!(bh.b_data(), HostCall::BufferHeadGetBData { bh: 0x4000 });
    assert_eq!(bh.b_size(), HostCall::BufferHeadGetBSize { bh: 0x4000 });
    assert_eq!(bh.mark_buffer_dirty(), HostCall::MarkBufferDirty { bh: 0x4000 });
    assert_eq!(bh.sync_dirty_buffer(), HostCall::SyncDirtyBuffer { bh: 0x4000 });
    assert!(bh.is_held());
    let buffer = BufferHead { bh, blocknr: 9 };
    assert_eq!(buffer.blocknr(), 9);
    assert_eq!(buffer.get_raw(), 0x4000);
}

#[test]
fn lock_operations_name_the_lock() {
    assert_eq!(RsRwSemaphore::get(), HostCall::GetSemaphore);
    let sem = RsRwSemaphore::from_raw(0x6000).unwrap();
    assert_eq!(sem.down_read(), HostCall::DownRead { sem: 0x6000 });
    assert_eq!(sem.up_read(), HostCall::UpRead { sem: 0x6000 });
    assert_eq!(sem.down_write(), HostCall::DownWrite { sem: 0x6000 });
    assert_eq!(sem.down_write_trylock(), HostCall::DownWriteTrylock { sem: 0x6000 });
    assert_eq!(sem.up_write(), HostCall::UpWrite { sem: 0x6000 });
}

#[test]
fn wait_queue_operations_name_the_wait_queue() {
    assert_eq!(RsWaitQueueHead::get(), HostCall::GetWaitQueueHead);
    let wq = RsWaitQueueHead::from_raw(0x7000).unwrap();
    assert_eq!(wq.wake_up(), HostCall::WakeUp { wq: 0x7000 });
}

#[test]
fn buffer_is_released_once() {
    let mut bh = RsBufferHead::from_raw(0x4000).unwrap();
    assert_eq!(bh.brelse(), Some(HostCall::Brelse { bh: 0x4000 }));
    assert!(!bh.is_held());
    assert_eq!(bh.brelse(), None);
    assert_eq!(bh.brelse(), None);
    assert_eq!(bh.get_raw(), 0x4000);
}

#[test]
fn lock_is_released_once() {
    let mut sem = RsRwSemaphore::from_raw(0x6000).unwrap();
    assert_eq!(sem.put(), Some(HostCall::PutSemaphore { sem: 0x6000 }));
    assert!(!sem.is_held());
    assert_eq!(sem.put(), None);
}

#[test]
fn wait_queue_is_released_once() {
    let mut wq = RsWaitQueueHead::from_raw(0x7000).unwrap();
    assert_eq!(wq.put(), Some(HostCall::PutWaitQueueHead { wq: 0x7000 }));
    assert!(!wq.is_held());
    assert_eq!(wq.put(), None);
}

#[test]
fn acquisitions_and_releases_balance() {
    let mut host = Accounts::new();
    let sb = RsSuperBlock::from_raw(0x2000).unwrap();

    let mut buffers = Vec::new();
    for blockno in [3u64, 4, 3, 900] {
        let reply = reference(host.perform(sb_bread(&sb, blockno)));
        buffers.push(RsBufferHead::from_raw(reply).unwrap());
    }
    let mut sem = RsRwSemaphore::from_raw(reference(host.perform(RsRwSemaphore::get()))).unwrap();
    let mut wq =
        RsWaitQueueHead::from_raw(reference(host.perform(RsWaitQueueHead::get()))).unwrap();
    assert_eq!(host.acquired, 6);
    assert_eq!(host.released, 0);

    assert_eq!(host.perform(sem.down_write()), HostReply::Unit);
    assert_eq!(host.perform(buffers[0].mark_buffer_dirty()), HostReply::Unit);
    assert_eq!(host.perform(buffers[0].sync_dirty_buffer()), HostReply::Status(0));
    assert_eq!(host.perform(sem.up_write()), HostReply::Unit);
    assert_eq!(host.perform(wq.wake_up()), HostReply::Unit);

    // Every scope end releases, some of them twice.
    for bh in buffers.iter_mut() {
        if let Some(call) = bh.brelse() {
            host.perform(call);
        }
    }
    for bh in buffers.iter_mut() {
        if let Some(call) = bh.brelse() {
            host.perform(call);
        }
    }
    for _ in 0..3 {
        if let Some(call) = sem.put() {
            host.perform(call);
        }
        if let Some(call) = wq.put() {
            host.perform(call);
        }
    }
    assert_eq!(host.acquired, 6);
    assert_eq!(host.released, 6);
    assert!(host.live.is_empty());
}

#[test]
fn failed_read_acquires_nothing_and_releases_nothing() {
    let mut host = Accounts::new();
    let sb = RsSuperBlock::from_raw(0x2000).unwrap();
    let first = RsBufferHead::from_raw(reference(host.perform(sb_bread(&sb, 1))));
    host.fail_reads = true;
    let second = RsBufferHead::from_raw(reference(host.perform(sb_bread(&sb, 2))));
    assert!(second.is_none());
    // The error path: give back what was acquired before the failure.
    let mut first = first.unwrap();
    if let Some(call) = first.brelse() {
        host.perform(call);
    }
    assert_eq!(host.acquired, 1);
    assert_eq!(host.released, 1);
    assert_eq!(
        host.calls,
        vec![
            HostCall::SbBread { sb: 0x2000, blockno: 1 },
            HostCall::SbBread { sb: 0x2000, blockno: 2 },
            HostCall::Brelse { bh: 0x1000 },
        ]
    );
}

#[test]
fn buffer_memory_is_described_by_address_and_size() {
    let mut host = Accounts::new();
    let bh = RsBufferHead::from_raw(0x4000).unwrap();
    let data = reference(host.perform(bh.b_data()));
    let size = match host.perform(bh.b_size()) {
        HostReply::Size(n) => n,
        other => panic!("expected a size, got {:?}", other),
    };
    let mem = bh.get_buffer_data(data, size).expect("memory of the buffer");
    assert_eq!(mem.as_ptr(), 0x10_4000);
    assert_eq!(mem.len(), 4096);
}

#[test]
fn buffer_memory_is_refused_for_sentinels_and_overlong_sizes() {
    let bh = RsBufferHead::from_raw(0x4000).unwrap();
    assert!(bh.get_buffer_data(0, 4096).is_none());
    assert!(bh.get_buffer_data(0, 0).is_none());
    assert!(bh.get_buffer_data((-5i64) as u64, 4096).is_none());
    assert!(bh.get_buffer_data(0x1000, usize::MAX).is_none());
    assert!(bh.get_buffer_data(0x1000, isize::MAX as usize + 1).is_none());
    assert!(bh.get_buffer_data(ERR_BASE - 4096, 4097).is_none());
    let edge = bh.get_buffer_data(ERR_BASE - 4096, 4096).expect("memory up to the error range");
    assert_eq!(edge.as_ptr(), ERR_BASE - 4096);
    assert_eq!(edge.len(), 4096);
    let empty = bh.get_buffer_data(0x1000, 0).expect("no bytes at a live address");
    assert_eq!(empty.len(), 0);
}
