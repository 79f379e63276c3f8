//! What holds of every command, proved from the definitions of the
//! classification functions.

use crate::commands::{spec_priority_tag, Command, CommandKind};
use crate::context::CommandPri;
use crate::key::Key;
use crate::mutation::{Mutation, Value};
use crate::text::lemma_decimal_len;
use crate::timestamp::TimeStamp;
use vstd::prelude::*;

verus! {

impl CommandKind {
    /// Whether two commands are of the same operation, whatever they carry.
    pub open spec fn same_operation(self, other: CommandKind) -> bool {
        &&& self is Prewrite <==> other is Prewrite
        &&& self is AcquirePessimisticLock <==> other is AcquirePessimisticLock
        &&& self is Commit <==> other is Commit
        &&& self is Cleanup <==> other is Cleanup
        &&& self is Rollback <==> other is Rollback
        &&& self is PessimisticRollback <==> other is PessimisticRollback
        &&& self is TxnHeartBeat <==> other is TxnHeartBeat
        &&& self is CheckTxnStatus <==> other is CheckTxnStatus
        &&& self is ScanLock <==> other is ScanLock
        &&& self is ResolveLock <==> other is ResolveLock
        &&& self is ResolveLockLite <==> other is ResolveLockLite
        &&& self is DeleteRange <==> other is DeleteRange
        &&& self is Pause <==> other is Pause
        &&& self is MvccByKey <==> other is MvccByKey
        &&& self is MvccByStartTs <==> other is MvccByStartTs
    }

    /// How many bytes of keys the summary of the operation shows.
    pub open spec fn shown_key_bytes(self) -> nat {
        match self {
            CommandKind::Cleanup { key, .. } => key@.len(),
            CommandKind::TxnHeartBeat { primary_key, .. } => primary_key@.len(),
            CommandKind::CheckTxnStatus { primary_key, .. } => primary_key@.len(),
            CommandKind::ScanLock { start_key: Some(key), .. } => key@.len(),
            CommandKind::DeleteRange { start_key, end_key } => start_key@.len() + end_key@.len(),
            CommandKind::MvccByKey { key } => key@.len(),
            _ => 0,
        }
    }

    /// Whether no single timestamp governs the operation.
    pub open spec fn has_no_governing_ts(self) -> bool {
        self is ResolveLock || self is DeleteRange || self is Pause || self is MvccByKey
    }

    /// Whether every timestamp that the operation itself carries is other
    /// than zero.
    pub open spec fn carries_no_zero_ts(self) -> bool {
        match self {
            CommandKind::Prewrite { start_ts, .. } => start_ts@ != 0,
            CommandKind::AcquirePessimisticLock { start_ts, .. } => start_ts@ != 0,
            CommandKind::Commit { lock_ts, commit_ts, .. } => lock_ts@ != 0 && commit_ts@ != 0,
            CommandKind::Cleanup { start_ts, current_ts, .. } => start_ts@ != 0 && current_ts@ != 0,
            CommandKind::Rollback { start_ts, .. } => start_ts@ != 0,
            CommandKind::PessimisticRollback { start_ts, for_update_ts, .. } => {
                start_ts@ != 0 && for_update_ts@ != 0
            },
            CommandKind::TxnHeartBeat { start_ts, .. } => start_ts@ != 0,
            CommandKind::CheckTxnStatus { lock_ts, caller_start_ts, current_ts, .. } => {
                lock_ts@ != 0 && caller_start_ts@ != 0 && current_ts@ != 0
            },
            CommandKind::ScanLock { max_ts, .. } => max_ts@ != 0,
            CommandKind::ResolveLock { .. } => true,
            CommandKind::ResolveLockLite { start_ts, commit_ts, .. } => {
                start_ts@ != 0 && commit_ts@ != 0
            },
            CommandKind::DeleteRange { .. } => true,
            CommandKind::Pause { .. } => true,
            CommandKind::MvccByKey { .. } => true,
            CommandKind::MvccByStartTs { start_ts } => start_ts@ != 0,
        }
    }
}

/// Every operation has a label of its own: two commands get the same label
/// if and only if they are of the same operation. What a command carries
/// never changes its label.
pub proof fn lemma_tag_names_the_operation(a: CommandKind, b: CommandKind)
    ensures
        a.spec_tag() == b.spec_tag() <==> a.same_operation(b),
{
}

/// Lock scans, range deletions and the two MVCC queries are reads. A lock
/// resolution is a read exactly when it has no lock to resolve. Every other
/// operation is a write.
pub proof fn lemma_readonly_by_operation(kind: CommandKind)
    ensures
        kind is ScanLock || kind is DeleteRange || kind is MvccByKey || kind is MvccByStartTs
            ==> kind.spec_readonly(),
        kind matches CommandKind::ResolveLock { key_locks, .. } ==> (kind.spec_readonly()
            <==> key_locks@.len() == 0),
        kind is Prewrite || kind is Commit || kind is Rollback || kind is AcquirePessimisticLock
            || kind is PessimisticRollback || kind is Cleanup || kind is TxnHeartBeat
            || kind is CheckTxnStatus || kind is ResolveLockLite || kind is Pause
            ==> !kind.spec_readonly(),
{
}

/// A read passes by admission control, and so does any command of high
/// priority. Only a write of low or normal priority is held to it.
pub proof fn lemma_flow_control_spares_reads_and_high_priority(cmd: Command)
    ensures
        cmd.kind.spec_readonly() ==> !cmd.spec_need_flow_control(),
        cmd.ctx@.priority == CommandPri::High ==> !cmd.spec_need_flow_control(),
        cmd.spec_need_flow_control() <==> (!cmd.kind.spec_readonly() && (cmd.ctx@.priority
            == CommandPri::Low || cmd.ctx@.priority == CommandPri::Normal)),
{
}

/// Lock resolutions, range deletions, pauses and MVCC queries by key have
/// the zero timestamp. Every other operation has a timestamp other than
/// zero, provided the timestamps it carries are other than zero.
pub proof fn lemma_ts_zero_without_governing_ts(kind: CommandKind)
    ensures
        kind.has_no_governing_ts() ==> kind.spec_ts() == TimeStamp::spec_zero(),
        !kind.has_no_governing_ts() && kind.carries_no_zero_ts() ==> kind.spec_ts()
            != TimeStamp::spec_zero(),
        kind.carries_no_zero_ts() ==> (kind.spec_ts()@ == 0 <==> kind.has_no_governing_ts()),
{
}

/// Lock scans and both kinds of lock resolution are housekeeping. No other
/// operation is.
pub proof fn lemma_sys_cmd_by_operation(kind: CommandKind)
    ensures
        kind.spec_is_sys_cmd() <==> (kind is ScanLock || kind is ResolveLock
            || kind is ResolveLockLite),
        kind is Prewrite || kind is AcquirePessimisticLock || kind is Commit || kind is Cleanup
            || kind is Rollback || kind is PessimisticRollback || kind is TxnHeartBeat
            || kind is CheckTxnStatus || kind is DeleteRange || kind is Pause || kind is MvccByKey
            || kind is MvccByStartTs ==> !kind.spec_is_sys_cmd(),
{
}

/// A lock scan writes nothing, whatever it carries. Nor do range deletions
/// and MVCC queries count as writing.
pub proof fn lemma_scan_lock_writes_nothing(kind: CommandKind)
    ensures
        kind is ScanLock ==> kind.spec_write_bytes() == 0,
        kind is DeleteRange || kind is MvccByKey || kind is MvccByStartTs
            ==> kind.spec_write_bytes() == 0,
{
}

/// A prewrite that puts a value under one key and deletes another writes
/// the two encoded keys and the value.
pub proof fn lemma_prewrite_put_delete_weight(kind: CommandKind, k1: Key, v1: Value, k2: Key)
    requires
        kind matches CommandKind::Prewrite { mutations, .. } && mutations@ == seq![
            Mutation::Put((k1, v1)),
            Mutation::Delete(k2),
        ],
    ensures
        kind.spec_write_bytes() == k1@.len() + v1@.len() + k2@.len(),
{
    let weights = crate::weight::mutation_weights(kind->Prewrite_mutations@);
    assert(weights.len() == 2);
    assert(weights.drop_last().drop_last() =~= Seq::<nat>::empty());
    reveal_with_fuel(crate::weight::sum, 3);
}

/// The labels of priorities keep the order of the priorities.
pub proof fn lemma_priority_tag_keeps_order(p: CommandPri, q: CommandPri)
    ensures
        spec_priority_tag(p).rank() == p.rank(),
        p.rank() <= q.rank() <==> spec_priority_tag(p).rank() <= spec_priority_tag(q).rank(),
        p == q <==> spec_priority_tag(p) == spec_priority_tag(q),
{
}

/// The line that describes a command ends with a bar and the context of the
/// request in its debug form, whatever the operation.
pub proof fn lemma_rendering_ends_with_context(cmd: Command)
    ensures
        cmd.rendering().len() == cmd.kind.summary().len() + 3 + cmd.ctx@.debug_form.len(),
        cmd.rendering().skip(cmd.rendering().len() - cmd.ctx@.debug_form.len())
            == cmd.ctx@.debug_form,
        cmd.rendering().take(cmd.kind.summary().len() as int) == cmd.kind.summary(),
{
    reveal_strlit(" | ");
    let line = cmd.rendering();
    let ctx = cmd.ctx@.debug_form;
    assert(line.skip(line.len() - ctx.len()) =~= ctx);
    assert(line.take(cmd.kind.summary().len() as int) =~= cmd.kind.summary());
}

/// The summary of an operation is short: at most 106 characters, and
/// two more for each byte of a key that it shows.
pub proof fn lemma_summary_is_short(kind: CommandKind)
    ensures
        kind.summary().len() <= 106 + 2 * kind.shown_key_bytes(),
{
    reveal_strlit("kv::command::prewrite mutations(");
    reveal_strlit("kv::command::acquirepessimisticlock keys(");
    reveal_strlit("kv::command::commit ");
    reveal_strlit("kv::command::cleanup ");
    reveal_strlit("kv::command::rollback keys(");
    reveal_strlit("kv::command::pessimistic_rollback keys(");
    reveal_strlit("kv::command::txn_heart_beat ");
    reveal_strlit("kv::command::check_txn_status ");
    reveal_strlit("kv::scan_lock ");
    reveal_strlit("kv::resolve_lock");
    reveal_strlit("kv::resolve_lock_lite");
    reveal_strlit("kv::command::delete range [");
    reveal_strlit("kv::command::pause keys:(");
    reveal_strlit("kv::command::mvccbykey ");
    reveal_strlit("kv::command::mvccbystartts ");
    reveal_strlit(") @ ");
    reveal_strlit(" @ ");
    reveal_strlit(" ");
    reveal_strlit(" -> ");
    reveal_strlit(" ttl ");
    reveal_strlit(" curr(");
    reveal_strlit(", ");
    reveal_strlit(")");
    reveal_strlit(") ");
    reveal_strlit(" ms");
    reveal_strlit("Some(");
    reveal_strlit("None");
    reveal_strlit("TimeStamp(");
    match kind {
        CommandKind::Prewrite { mutations, start_ts, .. } => {
            assert(mutations@.len() == mutations.len());
            lemma_decimal_len(mutations@.len());
            lemma_decimal_len(start_ts@);
        },
        CommandKind::AcquirePessimisticLock { keys, start_ts, options, .. } => {
            assert(keys@.len() == keys.len());
            lemma_decimal_len(keys@.len());
            lemma_decimal_len(start_ts@);
            lemma_decimal_len(options.for_update_ts@);
        },
        CommandKind::Commit { keys, lock_ts, commit_ts } => {
            assert(keys@.len() == keys.len());
            lemma_decimal_len(keys@.len());
            lemma_decimal_len(lock_ts@);
            lemma_decimal_len(commit_ts@);
        },
        CommandKind::Cleanup { key, start_ts, .. } => {
            lemma_decimal_len(start_ts@);
        },
        CommandKind::Rollback { keys, start_ts } => {
            assert(keys@.len() == keys.len());
            lemma_decimal_len(keys@.len());
            lemma_decimal_len(start_ts@);
        },
        CommandKind::PessimisticRollback { keys, start_ts, for_update_ts } => {
            assert(keys@.len() == keys.len());
            lemma_decimal_len(keys@.len());
            lemma_decimal_len(start_ts@);
            lemma_decimal_len(for_update_ts@);
        },
        CommandKind::TxnHeartBeat { primary_key, start_ts, advise_ttl } => {
            lemma_decimal_len(start_ts@);
            lemma_decimal_len(advise_ttl as nat);
        },
        CommandKind::CheckTxnStatus { primary_key, lock_ts, caller_start_ts, current_ts, .. } => {
            lemma_decimal_len(lock_ts@);
            lemma_decimal_len(caller_start_ts@);
            lemma_decimal_len(current_ts@);
        },
        CommandKind::ScanLock { max_ts, start_key, limit } => {
            lemma_decimal_len(limit as nat);
            lemma_decimal_len(max_ts@);
        },
        CommandKind::ResolveLock { .. } => {},
        CommandKind::ResolveLockLite { .. } => {},
        CommandKind::DeleteRange { .. } => {},
        CommandKind::Pause { keys, duration } => {
            assert(keys@.len() == keys.len());
            lemma_decimal_len(keys@.len());
            lemma_decimal_len(duration as nat);
        },
        CommandKind::MvccByKey { .. } => {},
        CommandKind::MvccByStartTs { start_ts } => {
            lemma_decimal_len(start_ts@);
        },
    }
}

} // verus!
