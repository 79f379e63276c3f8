//! The commands of the transaction protocol, and what a scheduler derives
//! from them.

use crate::context::{CommandPri, Context, ContextView, GetRequest, RawGetRequest};
use crate::key::{encode_spec, Key};
use crate::metrics;
use crate::metrics::CommandPriority;
use crate::mutation::{Lock, Mutation};
use crate::options::Options;
use crate::timestamp::TimeStamp;
use std::collections::HashMap;
use vstd::prelude::*;

verus! {

/// Get a single value.
pub struct PointGetCommand {
    pub ctx: Context,
    pub key: Key,
    /// `None` for a raw get, `Some` for a transactional get.
    pub ts: Option<TimeStamp>,
}

impl PointGetCommand {
    /// The transactional read that `request` asks for: of its key, at its
    /// version. The request gives up its context.
    pub fn from_get(request: &mut GetRequest) -> (cmd: PointGetCommand)
        ensures
            cmd.ctx@ == old(request).context@,
            cmd.key@ == encode_spec(old(request).key@),
            cmd.ts == Some(TimeStamp(old(request).version)),
            final(request).context@ == ContextView::empty(),
            final(request).key == old(request).key,
            final(request).version == old(request).version,
    {
        let ctx = request.take_context();
        PointGetCommand {
            ctx,
            key: Key::from_raw(request.get_key()),
            ts: Some(TimeStamp::new(request.get_version())),
        }
    }

    /// The raw read that `request` asks for: of its key, at no timestamp.
    /// The request gives up its context.
    pub fn from_raw_get(request: &mut RawGetRequest) -> (cmd: PointGetCommand)
        ensures
            cmd.ctx@ == old(request).context@,
            cmd.key@ == encode_spec(old(request).key@),
            cmd.ts == None::<TimeStamp>,
            final(request).context@ == ContextView::empty(),
            final(request).key == old(request).key,
            final(request).cf == old(request).cf,
    {
        let ctx = request.take_context();
        PointGetCommand { ctx, key: Key::from_raw(request.get_key()), ts: None }
    }

    /// A read of `key` at `ts`, under an empty context.
    pub fn from_key_ts(key: Key, ts: Option<TimeStamp>) -> (cmd: PointGetCommand)
        ensures
            cmd.ctx@ == ContextView::empty(),
            cmd.key == key,
            cmd.ts == ts,
    {
        PointGetCommand { ctx: Context::default(), key, ts }
    }
}

/// A command for the transaction scheduler: one operation of the protocol,
/// and the context of the request that asked for it.
pub struct Command {
    pub ctx: Context,
    pub kind: CommandKind,
}

/// The operations of the protocol.
pub enum CommandKind {
    /// The first phase of two-phase commit: stage the mutations, each under
    /// a lock. A `Commit` or a `Rollback` should follow.
    ///
    /// The transaction is optimistic if `options.for_update_ts` is zero,
    /// pessimistic otherwise.
    Prewrite {
        /// The mutations to stage.
        mutations: Vec<Mutation>,
        /// The primary key, whose lock the other locks refer to.
        primary: Vec<u8>,
        /// The transaction's timestamp.
        start_ts: TimeStamp,
        options: Options,
    },
    /// Lock keys before their values are known. A `Prewrite` completes the
    /// locks, a `PessimisticRollback` releases them.
    AcquirePessimisticLock {
        /// The keys to lock, each with its pessimistic flag.
        keys: Vec<(Key, bool)>,
        /// The primary key, whose lock the other locks refer to.
        primary: Vec<u8>,
        /// The transaction's timestamp.
        start_ts: TimeStamp,
        options: Options,
    },
    /// The second phase: make visible, at `commit_ts`, what the transaction
    /// that started at `lock_ts` staged under `keys`.
    Commit {
        keys: Vec<Key>,
        lock_ts: TimeStamp,
        commit_ts: TimeStamp,
    },
    /// Roll back what a prewrite staged under one key, if its lock has
    /// expired by `current_ts`.
    Cleanup {
        key: Key,
        /// The transaction's timestamp.
        start_ts: TimeStamp,
        /// Roughly the time of the request, against which the lock's TTL is
        /// held. Zero means not to check the TTL.
        current_ts: TimeStamp,
    },
    /// Roll back what the transaction that started at `start_ts` staged
    /// under `keys`.
    Rollback {
        keys: Vec<Key>,
        start_ts: TimeStamp,
    },
    /// Release the pessimistic locks that `start_ts` and `for_update_ts`
    /// identify.
    PessimisticRollback {
        keys: Vec<Key>,
        start_ts: TimeStamp,
        for_update_ts: TimeStamp,
    },
    /// Keep a transaction alive: raise the TTL of its primary lock to at
    /// least `advise_ttl`. A TTL that is already longer stays.
    TxnHeartBeat {
        primary_key: Key,
        start_ts: TimeStamp,
        advise_ttl: u64,
    },
    /// Look at the primary lock of another transaction. An expired lock is
    /// rolled back; a live one may have its minimum commit timestamp
    /// advanced.
    CheckTxnStatus {
        primary_key: Key,
        /// The timestamp of the lock, which is the start timestamp of the
        /// transaction that holds it.
        lock_ts: TimeStamp,
        /// The start timestamp of the transaction that asks.
        caller_start_ts: TimeStamp,
        /// Roughly the time of the request.
        current_ts: TimeStamp,
        /// What to do when neither a lock nor a commit or rollback record is
        /// found: roll the transaction back if set, answer with an error if not.
        rollback_if_not_exist: bool,
    },
    /// Collect, from `start_key` on, up to `limit` locks whose timestamp is
    /// at most `max_ts`.
    ScanLock {
        max_ts: TimeStamp,
        /// Where to start. `None` means at the very beginning.
        start_key: Option<Key>,
        limit: usize,
    },
    /// Resolve the locks of `key_locks` as `txn_status` says.
    ResolveLock {
        /// From a transaction's start timestamp to its commit timestamp, or
        /// to zero if it was rolled back. A lock whose timestamp is not a key
        /// of the map is left alone.
        txn_status: HashMap<TimeStamp, TimeStamp>,
        scan_key: Option<Key>,
        key_locks: Vec<(Key, Lock)>,
    },
    /// Resolve the locks of one transaction on a few known keys.
    ResolveLockLite {
        start_ts: TimeStamp,
        /// The commit timestamp, or zero to roll back.
        commit_ts: TimeStamp,
        resolve_keys: Vec<Key>,
    },
    /// Delete every version of every key in [`start_key`, `end_key`), for
    /// good and whatever its timestamp. Only for a range that nothing reads
    /// or writes any more.
    DeleteRange {
        start_key: Key,
        end_key: Key,
    },
    /// For tests: hold the latches of `keys` for `duration` milliseconds and
    /// do nothing.
    Pause {
        keys: Vec<Key>,
        duration: u64,
    },
    /// Show every version and the lock of one key.
    MvccByKey {
        key: Key,
    },
    /// Show every version and the lock of the key that the transaction
    /// started at `start_ts` committed first.
    MvccByStartTs {
        start_ts: TimeStamp,
    },
}

/// The label under which a priority is counted.
pub open spec fn spec_priority_tag(priority: CommandPri) -> CommandPriority {
    match priority {
        CommandPri::Low => CommandPriority::Low,
        CommandPri::Normal => CommandPriority::Normal,
        CommandPri::High => CommandPriority::High,
    }
}

/// The label under which a priority is counted. Labels are ordered as the
/// priorities are.
pub fn get_priority_tag(priority: CommandPri) -> (tag: CommandPriority)
    ensures
        tag == spec_priority_tag(priority),
        tag.rank() == priority.rank(),
{
    match priority {
        CommandPri::Low => CommandPriority::Low,
        CommandPri::Normal => CommandPriority::Normal,
        CommandPri::High => CommandPriority::High,
    }
}

impl CommandKind {
    /// Whether the scheduler may treat the operation as a read. A range
    /// deletion counts as one, because its caller answers for the range
    /// being out of use; a lock resolution only when it has no lock to
    /// resolve.
    pub open spec fn spec_readonly(self) -> bool {
        ||| self is ScanLock
        ||| self is DeleteRange
        ||| self is MvccByKey
        ||| self is MvccByStartTs
        ||| (self matches CommandKind::ResolveLock { key_locks, .. } && key_locks@.len() == 0)
    }

    /// Whether the operation belongs to the system's own housekeeping.
    pub open spec fn spec_is_sys_cmd(self) -> bool {
        self is ScanLock || self is ResolveLock || self is ResolveLockLite
    }

    /// The label under which the operation is counted.
    pub open spec fn spec_tag(self) -> metrics::CommandKind {
        match self {
            CommandKind::Prewrite { .. } => metrics::CommandKind::Prewrite,
            CommandKind::AcquirePessimisticLock { .. } => metrics::CommandKind::AcquirePessimisticLock,
            CommandKind::Commit { .. } => metrics::CommandKind::Commit,
            CommandKind::Cleanup { .. } => metrics::CommandKind::Cleanup,
            CommandKind::Rollback { .. } => metrics::CommandKind::Rollback,
            CommandKind::PessimisticRollback { .. } => metrics::CommandKind::PessimisticRollback,
            CommandKind::TxnHeartBeat { .. } => metrics::CommandKind::TxnHeartBeat,
            CommandKind::CheckTxnStatus { .. } => metrics::CommandKind::CheckTxnStatus,
            CommandKind::ScanLock { .. } => metrics::CommandKind::ScanLock,
            CommandKind::ResolveLock { .. } => metrics::CommandKind::ResolveLock,
            CommandKind::ResolveLockLite { .. } => metrics::CommandKind::ResolveLockLite,
            CommandKind::DeleteRange { .. } => metrics::CommandKind::DeleteRange,
            CommandKind::Pause { .. } => metrics::CommandKind::Pause,
            CommandKind::MvccByKey { .. } => metrics::CommandKind::KeyMvcc,
            CommandKind::MvccByStartTs { .. } => metrics::CommandKind::StartTsMvcc,
        }
    }

    /// The timestamp that governs the operation: the start timestamp of the
    /// transaction it belongs to, the timestamp of the lock it is about, or
    /// the bound of its scan. Zero where no single timestamp governs.
    pub open spec fn spec_ts(self) -> TimeStamp {
        match self {
            CommandKind::Prewrite { start_ts, .. } => start_ts,
            CommandKind::AcquirePessimisticLock { start_ts, .. } => start_ts,
            CommandKind::Commit { lock_ts, .. } => lock_ts,
            CommandKind::Cleanup { start_ts, .. } => start_ts,
            CommandKind::Rollback { start_ts, .. } => start_ts,
            CommandKind::PessimisticRollback { start_ts, .. } => start_ts,
            CommandKind::TxnHeartBeat { start_ts, .. } => start_ts,
            CommandKind::CheckTxnStatus { lock_ts, .. } => lock_ts,
            CommandKind::ScanLock { max_ts, .. } => max_ts,
            CommandKind::ResolveLock { .. } => TimeStamp::spec_zero(),
            CommandKind::ResolveLockLite { start_ts, .. } => start_ts,
            CommandKind::DeleteRange { .. } => TimeStamp::spec_zero(),
            CommandKind::Pause { .. } => TimeStamp::spec_zero(),
            CommandKind::MvccByKey { .. } => TimeStamp::spec_zero(),
            CommandKind::MvccByStartTs { start_ts } => start_ts,
        }
    }
}

impl Command {
    /// Whether the scheduler may treat the command as a read.
    pub fn readonly(&self) -> (r: bool)
        ensures
            r == self.kind.spec_readonly(),
    {
        match &self.kind {
            CommandKind::ScanLock { .. }
            | CommandKind::DeleteRange { .. }
            | CommandKind::MvccByKey { .. }
            | CommandKind::MvccByStartTs { .. } => true,
            CommandKind::ResolveLock { key_locks, .. } => key_locks.is_empty(),
            CommandKind::Prewrite { .. }
            | CommandKind::AcquirePessimisticLock { .. }
            | CommandKind::Commit { .. }
            | CommandKind::Cleanup { .. }
            | CommandKind::Rollback { .. }
            | CommandKind::PessimisticRollback { .. }
            | CommandKind::TxnHeartBeat { .. }
            | CommandKind::CheckTxnStatus { .. }
            | CommandKind::ResolveLockLite { .. }
            | CommandKind::Pause { .. } => false,
        }
    }

    /// The priority of the request, as its context gives it.
    pub fn priority(&self) -> (p: CommandPri)
        ensures
            p == self.ctx@.priority,
    {
        self.ctx.get_priority()
    }

    /// Whether the command belongs to the system's own housekeeping.
    pub fn is_sys_cmd(&self) -> (r: bool)
        ensures
            r == self.kind.spec_is_sys_cmd(),
    {
        match &self.kind {
            CommandKind::ScanLock { .. }
            | CommandKind::ResolveLock { .. }
            | CommandKind::ResolveLockLite { .. } => true,
            CommandKind::Prewrite { .. }
            | CommandKind::AcquirePessimisticLock { .. }
            | CommandKind::Commit { .. }
            | CommandKind::Cleanup { .. }
            | CommandKind::Rollback { .. }
            | CommandKind::PessimisticRollback { .. }
            | CommandKind::TxnHeartBeat { .. }
            | CommandKind::CheckTxnStatus { .. }
            | CommandKind::DeleteRange { .. }
            | CommandKind::Pause { .. }
            | CommandKind::MvccByKey { .. }
            | CommandKind::MvccByStartTs { .. } => false,
        }
    }

    /// The label under which the command's priority is counted.
    pub fn priority_tag(&self) -> (tag: CommandPriority)
        ensures
            tag == spec_priority_tag(self.ctx@.priority),
    {
        get_priority_tag(self.ctx.get_priority())
    }

    /// Whether the command must pass admission control: it writes, and it is
    /// not of high priority.
    pub open spec fn spec_need_flow_control(&self) -> bool {
        !self.kind.spec_readonly() && self.ctx@.priority != CommandPri::High
    }

    /// Whether the command must pass admission control.
    pub fn need_flow_control(&self) -> (r: bool)
        ensures
            r == self.spec_need_flow_control(),
    {
        !self.readonly() && self.priority() != CommandPri::High
    }

    /// The label under which the command's operation is counted.
    pub fn tag(&self) -> (tag: metrics::CommandKind)
        ensures
            tag == self.kind.spec_tag(),
    {
        match &self.kind {
            CommandKind::Prewrite { .. } => metrics::CommandKind::Prewrite,
            CommandKind::AcquirePessimisticLock { .. } => metrics::CommandKind::AcquirePessimisticLock,
            CommandKind::Commit { .. } => metrics::CommandKind::Commit,
            CommandKind::Cleanup { .. } => metrics::CommandKind::Cleanup,
            CommandKind::Rollback { .. } => metrics::CommandKind::Rollback,
            CommandKind::PessimisticRollback { .. } => metrics::CommandKind::PessimisticRollback,
            CommandKind::TxnHeartBeat { .. } => metrics::CommandKind::TxnHeartBeat,
            CommandKind::CheckTxnStatus { .. } => metrics::CommandKind::CheckTxnStatus,
            CommandKind::ScanLock { .. } => metrics::CommandKind::ScanLock,
            CommandKind::ResolveLock { .. } => metrics::CommandKind::ResolveLock,
            CommandKind::ResolveLockLite { .. } => metrics::CommandKind::ResolveLockLite,
            CommandKind::DeleteRange { .. } => metrics::CommandKind::DeleteRange,
            CommandKind::Pause { .. } => metrics::CommandKind::Pause,
            CommandKind::MvccByKey { .. } => metrics::CommandKind::KeyMvcc,
            CommandKind::MvccByStartTs { .. } => metrics::CommandKind::StartTsMvcc,
        }
    }

    /// The timestamp that governs the command, or zero where none does.
    pub fn ts(&self) -> (ts: TimeStamp)
        ensures
            ts == self.kind.spec_ts(),
    {
        match &self.kind {
            CommandKind::Prewrite { start_ts, .. }
            | CommandKind::AcquirePessimisticLock { start_ts, .. }
            | CommandKind::Cleanup { start_ts, .. }
            | CommandKind::Rollback { start_ts, .. }
            | CommandKind::PessimisticRollback { start_ts, .. }
            | CommandKind::MvccByStartTs { start_ts }
            | CommandKind::TxnHeartBeat { start_ts, .. } => *start_ts,
            CommandKind::Commit { lock_ts, .. } | CommandKind::CheckTxnStatus { lock_ts, .. } => {
                *lock_ts
            },
            CommandKind::ScanLock { max_ts, .. } => *max_ts,
            CommandKind::ResolveLockLite { start_ts, .. } => *start_ts,
            CommandKind::ResolveLock { .. }
            | CommandKind::DeleteRange { .. }
            | CommandKind::Pause { .. }
            | CommandKind::MvccByKey { .. } => TimeStamp::zero(),
        }
    }
}

} // verus!
