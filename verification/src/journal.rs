//! The journal over a log region of a block device, and its transactions.
//!
//! The host's journaling subsystem orders, commits and replays the log. This
//! module is its client: it brings a journal up, opens transactions with a
//! declared budget of blocks, keeps track of the blocks that a transaction
//! has touched, and closes each transaction.

use crate::ffi::{c_int, check_ref, is_live, nullable, Absent, HostCall, HostReply, Step};
use crate::kobj::{BlockDevice, BufferHead, Disk};
use std::sync::Arc;
use vstd::prelude::*;

verus! {

/// Where the bring-up of a journal stands. Each of the first four stages
/// waits for the host's reply to one call.
#[derive(Debug, Clone, Copy, PartialEq, Eq, Structural)]
pub enum Stage {
    /// The journal is being created over the log region.
    Init,
    /// The log that is on disk is being loaded.
    Load,
    /// Write barriers are being switched on.
    Barrier,
    /// Asynchronous commit is being switched on.
    AsyncCommit,
    /// The journal is there.
    Ready,
    /// Creating or loading failed: there is no journal.
    Failed,
}

/// The bring-up of a journal as a mathematical value.
pub struct SetupView {
    pub stage: Stage,
    /// The device that holds the log.
    pub bdev: u64,
    /// The device that holds the file system.
    pub fs_dev: u64,
    /// First block of the log region.
    pub start: u64,
    /// Number of blocks of the log region.
    pub len: i32,
    /// Size of a block in bytes.
    pub bsize: i32,
    /// The journal, from stage `Load` on; zero before.
    pub journal: u64,
}

/// The call that the bring-up waits for, if any.
pub open spec fn setup_call(v: SetupView) -> Option<HostCall> {
    match v.stage {
        Stage::Init => Some(
            HostCall::JournalInitDev {
                bdev: v.bdev,
                fs_dev: v.fs_dev,
                start: v.start,
                len: v.len,
                bsize: v.bsize,
            },
        ),
        Stage::Load => Some(HostCall::JournalLoad { journal: v.journal }),
        Stage::Barrier => Some(HostCall::JournalSetBarrier { journal: v.journal }),
        Stage::AsyncCommit => Some(HostCall::JournalSetAsyncCommit { journal: v.journal }),
        Stage::Ready => None,
        Stage::Failed => None,
    }
}

/// The bring-up after the host has answered the pending call with `reply`.
///
/// Creation succeeds with a reference that denotes a journal, loading with
/// status zero. The two calls that switch modes on return nothing, so their
/// reply is not looked at. A finished bring-up stays as it is.
pub open spec fn setup_next(v: SetupView, reply: HostReply) -> SetupView {
    match v.stage {
        Stage::Init => match reply {
            HostReply::Ref(addr) => if is_live(addr) {
                SetupView { stage: Stage::Load, journal: addr, ..v }
            } else {
                SetupView { stage: Stage::Failed, ..v }
            },
            _ => SetupView { stage: Stage::Failed, ..v },
        },
        Stage::Load => if reply == HostReply::Status(0) {
            SetupView { stage: Stage::Barrier, ..v }
        } else {
            SetupView { stage: Stage::Failed, ..v }
        },
        Stage::Barrier => SetupView { stage: Stage::AsyncCommit, ..v },
        Stage::AsyncCommit => SetupView { stage: Stage::Ready, ..v },
        Stage::Ready => v,
        Stage::Failed => v,
    }
}

/// The journal that a bring-up ends with, given the host's replies to the
/// call that creates the journal and to the call that loads the log: the
/// reference that creation returned, if it denotes a journal and loading
/// returned status zero.
pub open spec fn setup_outcome(init: HostReply, load: HostReply) -> Option<u64> {
    match init {
        HostReply::Ref(addr) => if is_live(addr) && load == HostReply::Status(0) {
            Some(addr)
        } else {
            None
        },
        _ => None,
    }
}

/// A bring-up makes its calls in a fixed order and stops at the first
/// failure: the journal is created; if that gave a journal, the log is
/// loaded; if that succeeded, write barriers and then asynchronous commit are
/// switched on. It ends ready exactly when creation and loading succeeded,
/// with the journal that creation returned; otherwise it ends failed, and
/// from the failure on it asks nothing more of the host.
pub proof fn lemma_setup_outcome(
    v: SetupView,
    init: HostReply,
    load: HostReply,
    barrier: HostReply,
    commit: HostReply,
)
    requires
        v.stage is Init,
    ensures
        ({
            let v1 = setup_next(v, init);
            let v2 = setup_next(v1, load);
            let v3 = setup_next(v2, barrier);
            let v4 = setup_next(v3, commit);
            &&& setup_call(v) == Some(
                HostCall::JournalInitDev {
                    bdev: v.bdev,
                    fs_dev: v.fs_dev,
                    start: v.start,
                    len: v.len,
                    bsize: v.bsize,
                },
            )
            &&& v1.stage is Load || v1.stage is Failed
            &&& v1.stage is Load <==> (init matches HostReply::Ref(addr) && is_live(addr))
            &&& v1.stage is Load ==> setup_call(v1) == Some(
                HostCall::JournalLoad { journal: init->Ref_0 },
            )
            &&& v1.stage is Failed ==> setup_call(v1) is None && v4.stage is Failed
            &&& v1.stage is Load && load != HostReply::Status(0) ==> v2.stage is Failed
                && setup_call(v2) is None && v4.stage is Failed
            &&& match setup_outcome(init, load) {
                Some(journal) => {
                    &&& setup_call(v2) == Some(HostCall::JournalSetBarrier { journal })
                    &&& setup_call(v3) == Some(HostCall::JournalSetAsyncCommit { journal })
                    &&& v4.stage is Ready
                    &&& v4.journal == journal
                },
                None => v4.stage is Failed,
            }
            &&& setup_call(v4) is None
        }),
{
}

/// The bring-up of a journal: which call is pending, and what is known so far.
#[must_use]
#[derive(Debug)]
pub struct Setup {
    stage: Stage,
    bdev: u64,
    fs_dev: u64,
    start: u64,
    len: i32,
    bsize: i32,
    journal: u64,
}

impl View for Setup {
    type V = SetupView;

    closed spec fn view(&self) -> SetupView {
        SetupView {
            stage: self.stage,
            bdev: self.bdev,
            fs_dev: self.fs_dev,
            start: self.start,
            len: self.len,
            bsize: self.bsize,
            journal: self.journal,
        }
    }
}

impl Setup {
    #[verifier::type_invariant]
    spec fn inv(self) -> bool {
        (self.stage is Init ==> self.journal == 0) && (self.stage is Load || self.stage is Barrier
            || self.stage is AsyncCommit || self.stage is Ready ==> is_live(self.journal))
    }

    /// The stage that the bring-up is at.
    pub fn stage(&self) -> (r: Stage)
        ensures
            r == self@.stage,
    {
        self.stage
    }

    /// The call to perform next, or `None` once the bring-up has finished.
    pub fn call(&self) -> (r: Option<HostCall>)
        ensures
            r == setup_call(self@),
    {
        match self.stage {
            Stage::Init => Some(
                HostCall::JournalInitDev {
                    bdev: self.bdev,
                    fs_dev: self.fs_dev,
                    start: self.start,
                    len: self.len,
                    bsize: self.bsize,
                },
            ),
            Stage::Load => Some(HostCall::JournalLoad { journal: self.journal }),
            Stage::Barrier => Some(HostCall::JournalSetBarrier { journal: self.journal }),
            Stage::AsyncCommit => Some(HostCall::JournalSetAsyncCommit { journal: self.journal }),
            Stage::Ready => None,
            Stage::Failed => None,
        }
    }

    /// Takes the host's reply to the pending call and moves to the next
    /// stage.
    pub fn advance(self, reply: HostReply) -> (r: Setup)
        ensures
            r@ == setup_next(self@, reply),
    {
        proof {
            use_type_invariant(&self);
        }
        let Setup { stage, bdev, fs_dev, start, len, bsize, journal } = self;
        match stage {
            Stage::Init => {
                let found = match reply {
                    HostReply::Ref(addr) => nullable(addr),
                    _ => None,
                };
                match found {
                    Some(addr) => Setup {
                        stage: Stage::Load,
                        bdev,
                        fs_dev,
                        start,
                        len,
                        bsize,
                        journal: addr,
                    },
                    None => Setup { stage: Stage::Failed, bdev, fs_dev, start, len, bsize, journal },
                }
            },
            Stage::Load => {
                let loaded = match reply {
                    HostReply::Status(status) => status == 0,
                    _ => false,
                };
                if loaded {
                    Setup { stage: Stage::Barrier, bdev, fs_dev, start, len, bsize, journal }
                } else {
                    Setup { stage: Stage::Failed, bdev, fs_dev, start, len, bsize, journal }
                }
            },
            Stage::Barrier => Setup {
                stage: Stage::AsyncCommit,
                bdev,
                fs_dev,
                start,
                len,
                bsize,
                journal,
            },
            Stage::AsyncCommit => Setup {
                stage: Stage::Ready,
                bdev,
                fs_dev,
                start,
                len,
                bsize,
                journal,
            },
            Stage::Ready => Setup { stage, bdev, fs_dev, start, len, bsize, journal },
            Stage::Failed => Setup { stage, bdev, fs_dev, start, len, bsize, journal },
        }
    }

    /// Ends the bring-up: the journal if the stage is `Ready`, else nothing.
    pub fn finish(self) -> (r: Option<Journal>)
        ensures
            r is Some <==> self@.stage is Ready,
            r matches Some(j) ==> j.get_raw() == self@.journal,
    {
        proof {
            use_type_invariant(&self);
        }
        match self.stage {
            Stage::Ready => Some(Journal { journal: self.journal }),
            _ => None,
        }
    }
}

/// A journal of the host, bound to the log region that it was created over.
#[derive(Debug)]
pub struct Journal {
    journal: u64,
}

impl Journal {
    #[verifier::type_invariant]
    spec fn inv(self) -> bool {
        is_live(self.journal)
    }

    /// The address of the host's journal.
    pub closed spec fn spec_get_raw(&self) -> u64 {
        self.journal
    }

    /// The address of the host's journal.
    #[verifier::when_used_as_spec(spec_get_raw)]
    pub fn get_raw(&self) -> (r: u64)
        ensures
            r == self.spec_get_raw(),
            is_live(r),
    {
        proof {
            use_type_invariant(self);
        }
        self.journal
    }

    /// Starts the bring-up of a journal over `len` blocks of `bsize` bytes
    /// from block `start` of `bdev`, for the file system on `fs_dev`.
    ///
    /// The result waits for the first call. Perform [`Setup::call`] and hand
    /// the reply to [`Setup::advance`] until no call is left; then
    /// [`Setup::finish`] gives the journal, or nothing if the host could not
    /// create the journal or load the log.
    pub fn new(
        bdev: &BlockDevice,
        fs_dev: &BlockDevice,
        start: u64,
        len: i32,
        bsize: i32,
    ) -> (r: Setup)
        ensures
            r@ == (SetupView {
                stage: Stage::Init,
                bdev: bdev.bdev.get_raw(),
                fs_dev: fs_dev.bdev.get_raw(),
                start,
                len,
                bsize,
                journal: 0,
            }),
    {
        Setup {
            stage: Stage::Init,
            bdev: bdev.bdev.get_raw(),
            fs_dev: fs_dev.bdev.get_raw(),
            start,
            len,
            bsize,
            journal: 0,
        }
    }

    /// As [`Journal::new`], over the block devices of two disks.
    pub fn new_from_disk(
        disk: Arc<Disk>,
        fs_disk: Arc<Disk>,
        start: u64,
        len: i32,
        bsize: i32,
    ) -> (r: Setup)
        ensures
            r@ == (SetupView {
                stage: Stage::Init,
                bdev: disk.bdev.bdev.get_raw(),
                fs_dev: fs_disk.bdev.bdev.get_raw(),
                start,
                len,
                bsize,
                journal: 0,
            }),
    {
        Journal::new(&disk.bdev, &fs_disk.bdev, start, len, bsize)
    }

    /// Prepares a transaction with room for `blocks` distinct blocks. The
    /// result holds the call that opens it.
    pub fn begin_op(&self, blocks: u32) -> (r: Begin)
        ensures
            r.journal() == self.get_raw(),
            r.requested() == blocks,
    {
        proof {
            use_type_invariant(self);
        }
        Begin { journal: self.journal, requested: blocks }
    }

    /// The call that flushes every transaction committed so far to stable
    /// storage. It blocks until the log is written; the status that the host
    /// returns is the result of the flush, zero for success.
    pub fn force_commit(&self) -> (r: HostCall)
        ensures
            r == (HostCall::JournalForceCommit { journal: self.get_raw() }),
    {
        HostCall::JournalForceCommit { journal: self.journal }
    }

    /// The call that tears the journal down. It consumes the journal, so it
    /// is built once and nothing can be asked of the journal afterwards.
    pub fn destroy(self) -> (r: HostCall)
        ensures
            r == (HostCall::JournalDestroy { journal: self.get_raw() }),
    {
        HostCall::JournalDestroy { journal: self.journal }
    }
}

/// A transaction that the host has been, or is about to be, asked to open.
#[must_use]
#[derive(Debug)]
pub struct Begin {
    journal: u64,
    requested: u32,
}

impl Begin {
    #[verifier::type_invariant]
    spec fn inv(self) -> bool {
        is_live(self.journal)
    }

    /// The journal that the transaction is opened on.
    pub closed spec fn spec_journal(&self) -> u64 {
        self.journal
    }

    /// The budget of the transaction.
    pub closed spec fn spec_requested(&self) -> u32 {
        self.requested
    }

    /// The journal that the transaction is opened on.
    #[verifier::when_used_as_spec(spec_journal)]
    pub fn journal(&self) -> (r: u64)
        ensures
            r == self.spec_journal(),
            is_live(r),
    {
        proof {
            use_type_invariant(self);
        }
        self.journal
    }

    /// The budget of the transaction: the number of distinct blocks that its
    /// caller means to touch.
    #[verifier::when_used_as_spec(spec_requested)]
    pub fn requested(&self) -> (r: u32)
        ensures
            r == self.spec_requested(),
    {
        self.requested
    }

    /// The call that opens the transaction. The reply is a reference for
    /// [`Begin::finish`].
    pub fn call(&self) -> (r: HostCall)
        ensures
            r == (HostCall::JournalStart { journal: self.journal(), blocks: c_int(self.requested()) }),
    {
        HostCall::JournalStart { journal: self.journal, blocks: c_int(self.requested) }
    }

    /// Takes the host's reply to the call that opens the transaction.
    ///
    /// A reference that denotes a transaction gives an open handle with the
    /// budget asked for and no block registered. Null or an encoded error
    /// means that the host refused, as it does when the log is full or has
    /// been aborted; the error says which of the two came back.
    pub fn finish(self, reply: u64) -> (r: Result<Handle, TxError>)
        ensures
            r is Ok <==> is_live(reply),
            r matches Ok(h) ==> h@ == (HandleView {
                raw: reply,
                requested: self.requested(),
                blocks: Seq::empty(),
                state: TxState::Open,
            }),
            r matches Err(e) ==> (check_ref(reply) matches Err(why) && e == TxError::Refused(why)),
    {
        match check_ref(reply) {
            Ok(handle) => Ok(
                Handle {
                    handle,
                    requested: self.requested,
                    blocks: Vec::new(),
                    state: TxState::Open,
                },
            ),
            Err(why) => Err(TxError::Refused(why)),
        }
    }
}

/// The state of a transaction. It starts open and moves forward only: to
/// finalizing when it is stopped, and from there to committed or aborted.
#[derive(Debug, Clone, Copy, PartialEq, Eq, Structural)]
pub enum TxState {
    /// Blocks can be registered.
    Open,
    /// The host has been asked to close the transaction.
    Finalizing,
    /// The host closed the transaction with success.
    Committed,
    /// The host reported that the log aborted the transaction.
    Aborted,
}

/// Why a transaction did not open or did not commit.
#[derive(Debug, Clone, Copy, PartialEq, Eq, Structural)]
pub enum TxError {
    /// The host opened no transaction: the reference that it returned is
    /// null or an encoded error.
    Refused(Absent),
    /// The host closed the transaction with this status, which is not zero.
    Aborted(i32),
}

/// A transaction has registered more distinct blocks than its budget.
#[derive(Debug, Clone, Copy, PartialEq, Eq, Structural)]
pub struct OverBudget {
    /// Number of distinct blocks registered so far.
    pub unique: usize,
    /// The budget that the transaction was opened with.
    pub requested: u32,
}

/// What marking a buffer dirty asks of the driver.
#[must_use]
#[derive(Debug, Clone, Copy, PartialEq, Eq, Structural)]
pub struct Dirty {
    /// The call to perform; the status that the host returns is the result.
    pub call: HostCall,
    /// Set when the transaction is over its budget. The transaction goes on
    /// all the same; the caller under-declared, which is worth reporting.
    pub over_budget: Option<OverBudget>,
}

/// A transaction as a mathematical value.
pub struct HandleView {
    /// The address of the host's transaction.
    pub raw: u64,
    /// The budget: the number of distinct blocks that the caller declared.
    pub requested: u32,
    /// The blocks registered so far, each once, in the order in which they
    /// came.
    pub blocks: Seq<u64>,
    pub state: TxState,
}

/// The registered blocks after block `b` has been registered.
pub open spec fn register(blocks: Seq<u64>, b: u64) -> Seq<u64> {
    if blocks.contains(b) {
        blocks
    } else {
        blocks.push(b)
    }
}

impl HandleView {
    /// The transaction after block `b` has been registered.
    pub open spec fn registered(self, b: u64) -> HandleView {
        HandleView { blocks: register(self.blocks, b), ..self }
    }

    /// What a request for access to block `b` yields, `call` being the call
    /// that asks the host: success at once for a block that is registered,
    /// else the call.
    pub open spec fn access(self, b: u64, call: HostCall) -> Step {
        if self.blocks.contains(b) {
            Step::Done(0)
        } else {
            Step::Call(call)
        }
    }

    /// The report that is due when more distinct blocks are registered than
    /// the budget allows.
    pub open spec fn over_budget(self) -> Option<OverBudget> {
        if self.blocks.len() > self.requested {
            Some(OverBudget { unique: self.blocks.len() as usize, requested: self.requested })
        } else {
            None
        }
    }

    /// The transaction after it has been stopped.
    pub open spec fn stopped(self) -> HandleView {
        HandleView { state: TxState::Finalizing, ..self }
    }

    /// The transaction after the host has closed it with `status`.
    pub open spec fn finished(self, status: i32) -> HandleView {
        HandleView {
            state: if status == 0 {
                TxState::Committed
            } else {
                TxState::Aborted
            },
            ..self
        }
    }
}

/// Registering a block keeps every block registered once, and adds the block
/// to those registered.
pub proof fn lemma_register(blocks: Seq<u64>, b: u64)
    requires
        blocks.no_duplicates(),
    ensures
        register(blocks, b).no_duplicates(),
        register(blocks, b).to_set() == blocks.to_set().insert(b),
        register(blocks, b).contains(b),
{
    let after = register(blocks, b);
    if blocks.contains(b) {
        assert(after.to_set() =~= blocks.to_set().insert(b));
    } else {
        assert(after[after.len() - 1] == b);
        assert forall|x: u64| after.to_set().contains(x) <==> blocks.to_set().insert(b).contains(
            x,
        ) by {
            if after.contains(x) {
                let i: int = choose|i: int| 0 <= i < after.len() && after[i] == x;
                if i < blocks.len() {
                    assert(blocks[i] == x);
                }
            }
            if blocks.contains(x) {
                let i: int = choose|i: int| 0 <= i < blocks.len() && blocks[i] == x;
                assert(after[i] == x);
            }
        }
        assert(after.to_set() =~= blocks.to_set().insert(b));
    }
}

/// The registered blocks after the blocks `ids` have been registered one
/// after the other.
pub open spec fn register_all(blocks: Seq<u64>, ids: Seq<u64>) -> Seq<u64>
    decreases ids.len(),
{
    if ids.len() == 0 {
        blocks
    } else {
        register_all(register(blocks, ids[0]), ids.drop_first())
    }
}

/// Number of calls to the host that requests for access to the blocks `ids`,
/// one after the other, lead to: one for each block that is not registered
/// when its request comes.
pub open spec fn access_requests(blocks: Seq<u64>, ids: Seq<u64>) -> nat
    decreases ids.len(),
{
    if ids.len() == 0 {
        0
    } else {
        (if blocks.contains(ids[0]) {
            0nat
        } else {
            1nat
        }) + access_requests(register(blocks, ids[0]), ids.drop_first())
    }
}

/// Registration is idempotent. A second request for access to the same
/// block is answered with success, asks nothing of the host and changes
/// nothing; so two requests in a row for a block that was not registered
/// lead to exactly one call.
pub proof fn lemma_access_is_idempotent(v: HandleView, b: u64, first: HostCall, second: HostCall)
    ensures
        v.access(b, first) == (if v.blocks.contains(b) {
            Step::Done(0)
        } else {
            Step::Call(first)
        }),
        v.registered(b).access(b, second) == Step::Done(0),
        v.registered(b).registered(b) == v.registered(b),
        access_requests(v.blocks, seq![b, b]) == (if v.blocks.contains(b) {
            0nat
        } else {
            1nat
        }),
{
    let after = register(v.blocks, b);
    if !v.blocks.contains(b) {
        assert(after[after.len() - 1] == b);
    }
    assert(after.contains(b));
    let ids = seq![b, b];
    assert(ids.drop_first() =~= seq![b]);
    assert(seq![b].drop_first() =~= Seq::<u64>::empty());
    reveal_with_fuel(access_requests, 3);
}

/// Over any run of requests for access, the host is asked once for each
/// distinct block that was not registered before the run, and after the run
/// exactly those blocks and the earlier ones are registered, each once. On a
/// transaction that has registered nothing, the number of calls is the
/// number of distinct blocks among the requests.
pub proof fn lemma_requests_count_distinct_blocks(blocks: Seq<u64>, ids: Seq<u64>)
    requires
        blocks.no_duplicates(),
    ensures
        register_all(blocks, ids).no_duplicates(),
        register_all(blocks, ids).to_set() == blocks.to_set().union(ids.to_set()),
        access_requests(blocks, ids) == register_all(blocks, ids).len() - blocks.len(),
        access_requests(blocks, ids) == ids.to_set().difference(blocks.to_set()).len(),
        blocks.len() == 0 ==> access_requests(blocks, ids) == ids.to_set().len(),
    decreases ids.len(),
{
    blocks.unique_seq_to_set();
    if ids.len() == 0 {
        assert(ids.to_set() =~= Set::<u64>::empty());
        assert(blocks.to_set().union(ids.to_set()) =~= blocks.to_set());
        assert(ids.to_set().difference(blocks.to_set()) =~= Set::<u64>::empty());
    } else {
        let b: u64 = ids[0];
        let rest = ids.drop_first();
        let next = register(blocks, b);
        lemma_register(blocks, b);
        lemma_requests_count_distinct_blocks(next, rest);
        next.unique_seq_to_set();
        assert forall|x: u64| ids.to_set().contains(x) <==> rest.to_set().insert(b).contains(
            x,
        ) by {
            if ids.contains(x) {
                let i: int = choose|i: int| 0 <= i < ids.len() && ids[i] == x;
                if i > 0 {
                    assert(rest[i - 1] == x);
                }
            }
            if rest.contains(x) {
                let i: int = choose|i: int| 0 <= i < rest.len() && rest[i] == x;
                assert(ids[i + 1] == x);
            }
        }
        assert(ids.to_set() =~= rest.to_set().insert(b));
        assert(next.to_set().union(rest.to_set()) =~= blocks.to_set().union(ids.to_set()));
        let fresh_after = rest.to_set().difference(next.to_set());
        let fresh = ids.to_set().difference(blocks.to_set());
        vstd::seq_lib::seq_to_set_is_finite(rest);
        vstd::seq_lib::seq_to_set_is_finite(ids);
        if blocks.contains(b) {
            assert(fresh =~= fresh_after);
        } else {
            assert(!fresh_after.contains(b));
            assert(fresh =~= fresh_after.insert(b));
        }
        if blocks.len() == 0 {
            assert(blocks.to_set() =~= Set::<u64>::empty());
            assert(fresh =~= ids.to_set());
        }
    }
}

/// The budget is advisory. Registering a block never fails and never closes
/// the transaction, whatever the budget. A transaction is over budget
/// exactly when it has registered more distinct blocks than it declared,
/// and from then on it stays over budget.
pub proof fn lemma_budget_is_advisory(v: HandleView, b: u64)
    requires
        v.blocks.no_duplicates(),
    ensures
        v.registered(b).state == v.state,
        v.registered(b).requested == v.requested,
        v.registered(b).blocks.contains(b),
        v.over_budget() is Some <==> v.blocks.to_set().len() > v.requested,
        v.over_budget() is Some ==> v.registered(b).over_budget() is Some,
        v.blocks.len() >= v.requested && !v.blocks.contains(b) ==> v.registered(b).over_budget()
            is Some,
{
    lemma_register(v.blocks, b);
    v.blocks.unique_seq_to_set();
}

/// A transaction moves forward only. Stopping takes it from open to
/// finalizing, and the host's status from there to committed, for zero, or
/// aborted; registering blocks leaves the state alone. No step leads back to
/// open, so a transaction is finalized once and is not used again.
pub proof fn lemma_transaction_moves_forward(v: HandleView, b: u64, status: i32)
    ensures
        v.registered(b).state == v.state,
        v.stopped().state is Finalizing,
        v.stopped().blocks == v.blocks,
        v.stopped().finished(status).state is Committed <==> status == 0,
        v.stopped().finished(status).state is Aborted <==> status != 0,
        v.stopped().finished(status).blocks == v.blocks,
{
}

/// One transaction against the journal.
#[derive(Debug)]
pub struct Handle {
    handle: u64,
    requested: u32,
    blocks: Vec<u64>,
    state: TxState,
}

impl View for Handle {
    type V = HandleView;

    closed spec fn view(&self) -> HandleView {
        HandleView {
            raw: self.handle,
            requested: self.requested,
            blocks: self.blocks@,
            state: self.state,
        }
    }
}

/// Tells whether `b` is among `blocks`.
fn contains(blocks: &Vec<u64>, b: u64) -> (r: bool)
    ensures
        r == blocks@.contains(b),
{
    let mut i: usize = 0;
    while i < blocks.len()
        invariant
            i <= blocks@.len(),
            forall|j: int| 0 <= j < i ==> blocks@[j] != b,
        decreases blocks@.len() - i,
    {
        if blocks[i] == b {
            return true;
        }
        i += 1;
    }
    false
}

impl Handle {
    #[verifier::type_invariant]
    spec fn inv(self) -> bool {
        is_live(self.handle) && self.blocks@.no_duplicates()
    }

    /// The address of the host's transaction.
    pub fn get_raw(&self) -> (r: u64)
        ensures
            r == self@.raw,
            is_live(r),
    {
        proof {
            use_type_invariant(self);
        }
        self.handle
    }

    /// The budget that the transaction was opened with.
    pub fn requested(&self) -> (r: u32)
        ensures
            r == self@.requested,
    {
        self.requested
    }

    /// The blocks registered so far, each once, in the order in which they
    /// came.
    pub fn blocks(&self) -> (r: &Vec<u64>)
        ensures
            r@ == self@.blocks,
            r@.no_duplicates(),
    {
        proof {
            use_type_invariant(self);
        }
        &self.blocks
    }

    /// The state of the transaction.
    pub fn state(&self) -> (r: TxState)
        ensures
            r == self@.state,
    {
        self.state
    }

    /// Registers `b` unless it is registered, and tells whether it was new.
    fn note(&mut self, b: u64) -> (fresh: bool)
        ensures
            fresh == !old(self)@.blocks.contains(b),
            final(self)@ == old(self)@.registered(b),
    {
        proof {
            use_type_invariant(&*self);
            lemma_register(self.blocks@, b);
        }
        if contains(&self.blocks, b) {
            false
        } else {
            // The vector is taken out while it grows. Were the push to unwind,
            // the handle would be left with no block registered, which is
            // still a valid handle.
            let mut blocks: Vec<u64> = Vec::new();
            std::mem::swap(&mut self.blocks, &mut blocks);
            blocks.push(b);
            self.blocks = blocks;
            true
        }
    }

    /// Declares that `bh` will be modified as part of the transaction.
    ///
    /// For a block that is registered already nothing is asked of the host,
    /// and the status is success. Otherwise the block is registered, and the
    /// status is what the host returns from the call.
    pub fn get_write_access(&mut self, bh: &BufferHead) -> (r: Step)
        requires
            old(self)@.state is Open,
            bh.bh.is_held(),
        ensures
            final(self)@ == old(self)@.registered(bh.blocknr),
            r == old(self)@.access(
                bh.blocknr,
                (HostCall::JournalGetWriteAccess { handle: old(self)@.raw, bh: bh.bh.get_raw() }),
            ),
    {
        if self.note(bh.blocknr()) {
            Step::Call(HostCall::JournalGetWriteAccess { handle: self.handle, bh: bh.get_raw() })
        } else {
            Step::Done(0)
        }
    }

    /// Declares that `bh` will be filled anew as part of the transaction:
    /// what the block held before need not be kept.
    ///
    /// Blocks are registered as in [`Handle::get_write_access`].
    pub fn get_create_access(&mut self, bh: &BufferHead) -> (r: Step)
        requires
            old(self)@.state is Open,
            bh.bh.is_held(),
        ensures
            final(self)@ == old(self)@.registered(bh.blocknr),
            r == old(self)@.access(
                bh.blocknr,
                (HostCall::JournalGetCreateAccess { handle: old(self)@.raw, bh: bh.bh.get_raw() }),
            ),
    {
        if self.note(bh.blocknr()) {
            Step::Call(HostCall::JournalGetCreateAccess { handle: self.handle, bh: bh.get_raw() })
        } else {
            Step::Done(0)
        }
    }

    /// Makes what `bh` holds now part of what the transaction writes through
    /// the log.
    ///
    /// The block is registered if it is not, and the host is asked in every
    /// case. A transaction over its budget is reported in the result and
    /// goes on.
    pub fn journal_write(&mut self, bh: &mut BufferHead) -> (r: Dirty)
        requires
            old(self)@.state is Open,
            old(bh).bh.is_held(),
        ensures
            *final(bh) == *old(bh),
            final(self)@ == old(self)@.registered(old(bh).blocknr),
            r.call == (HostCall::JournalDirtyMetadata {
                handle: old(self)@.raw,
                bh: old(bh).bh.get_raw(),
            }),
            r.over_budget == final(self)@.over_budget(),
    {
        let blocknr: u64 = bh.blocknr();
        self.note(blocknr);
        let unique: usize = self.blocks.len();
        let over_budget = if unique > self.requested as usize {
            Some(OverBudget { unique, requested: self.requested })
        } else {
            None
        };
        Dirty {
            call: HostCall::JournalDirtyMetadata { handle: self.handle, bh: bh.get_raw() },
            over_budget,
        }
    }

    /// Ends the transaction: the call that closes it. The reply is a status
    /// for [`Handle::finish`].
    pub fn stop(&mut self) -> (r: HostCall)
        requires
            old(self)@.state is Open,
        ensures
            final(self)@ == old(self)@.stopped(),
            r == (HostCall::JournalStop { handle: old(self)@.raw }),
    {
        proof {
            use_type_invariant(&*self);
        }
        self.state = TxState::Finalizing;
        HostCall::JournalStop { handle: self.handle }
    }

    /// Takes the status with which the host closed the transaction: zero
    /// commits it, anything else means that the log aborted it.
    pub fn finish(&mut self, status: i32) -> (r: Result<(), TxError>)
        requires
            old(self)@.state is Finalizing,
        ensures
            final(self)@ == old(self)@.finished(status),
            r == (if status == 0 {
                Ok::<(), TxError>(())
            } else {
                Err(TxError::Aborted(status))
            }),
    {
        proof {
            use_type_invariant(&*self);
        }
        if status == 0 {
            self.state = TxState::Committed;
            Ok(())
        } else {
            self.state = TxState::Aborted;
            Err(TxError::Aborted(status))
        }
    }
}

} // verus!
