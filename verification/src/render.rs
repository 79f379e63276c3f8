//! Commands as one line of text, for logs and slow-query diagnostics.

use crate::commands::{Command, CommandKind};
use crate::key::Key;
use crate::text::{decimal, hex_upper, push_decimal, push_hex_upper};
use crate::timestamp::TimeStamp;
use vstd::prelude::*;
use vstd::string::StringExecFns;

verus! {

/// A key in a log line: its encoded bytes in upper-case hexadecimal.
pub open spec fn key_text(key: Key) -> Seq<char> {
    hex_upper(key@)
}

/// A key that may be absent, in a log line.
pub open spec fn optional_key_text(key: Option<Key>) -> Seq<char> {
    match key {
        Some(key) => "Some("@ + key_text(key) + ")"@,
        None => "None"@,
    }
}

/// A timestamp in a log line: its number.
pub open spec fn timestamp_text(ts: TimeStamp) -> Seq<char> {
    decimal(ts@)
}

/// A timestamp in a log line, marked as one.
pub open spec fn marked_timestamp_text(ts: TimeStamp) -> Seq<char> {
    "TimeStamp("@ + timestamp_text(ts) + ")"@
}

fn push_key(out: &mut String, key: &Key)
    ensures
        final(out)@ == old(out)@ + key_text(*key),
{
    push_hex_upper(out, key.as_encoded().as_slice());
}

fn push_optional_key(out: &mut String, key: &Option<Key>)
    ensures
        final(out)@ == old(out)@ + optional_key_text(*key),
{
    match key {
        Some(key) => {
            let mut text = String::from_str("Some(");
            push_key(&mut text, key);
            text.append(")");
            out.append(text.as_str());
        },
        None => {
            out.append("None");
        },
    }
}

fn push_timestamp(out: &mut String, ts: TimeStamp)
    ensures
        final(out)@ == old(out)@ + timestamp_text(ts),
{
    push_decimal(out, ts.into_inner());
}

fn push_marked_timestamp(out: &mut String, ts: TimeStamp)
    ensures
        final(out)@ == old(out)@ + marked_timestamp_text(ts),
{
    let mut text = String::from_str("TimeStamp(");
    push_timestamp(&mut text, ts);
    text.append(")");
    out.append(text.as_str());
}

fn push_count(out: &mut String, n: usize)
    ensures
        final(out)@ == old(out)@ + decimal(n as nat),
{
    push_decimal(out, n as u64);
}

impl CommandKind {
    /// What a log line says of the operation itself: its name, how many keys
    /// it touches or which, and the timestamps that govern it.
    pub open spec fn summary(self) -> Seq<char> {
        match self {
            CommandKind::Prewrite { mutations, start_ts, .. } => {
                "kv::command::prewrite mutations("@ + decimal(mutations@.len()) + ") @ "@
                    + timestamp_text(start_ts)
            },
            CommandKind::AcquirePessimisticLock { keys, start_ts, options, .. } => {
                "kv::command::acquirepessimisticlock keys("@ + decimal(keys@.len()) + ") @ "@
                    + timestamp_text(start_ts) + " "@ + timestamp_text(options.for_update_ts)
            },
            CommandKind::Commit { keys, lock_ts, commit_ts } => {
                "kv::command::commit "@ + decimal(keys@.len()) + " "@ + timestamp_text(lock_ts)
                    + " -> "@ + timestamp_text(commit_ts)
            },
            CommandKind::Cleanup { key, start_ts, .. } => {
                "kv::command::cleanup "@ + key_text(key) + " @ "@ + timestamp_text(start_ts)
            },
            CommandKind::Rollback { keys, start_ts } => {
                "kv::command::rollback keys("@ + decimal(keys@.len()) + ") @ "@ + timestamp_text(
                    start_ts,
                )
            },
            CommandKind::PessimisticRollback { keys, start_ts, for_update_ts } => {
                "kv::command::pessimistic_rollback keys("@ + decimal(keys@.len()) + ") @ "@
                    + timestamp_text(start_ts) + " "@ + timestamp_text(for_update_ts)
            },
            CommandKind::TxnHeartBeat { primary_key, start_ts, advise_ttl } => {
                "kv::command::txn_heart_beat "@ + key_text(primary_key) + " @ "@ + timestamp_text(
                    start_ts,
                ) + " ttl "@ + decimal(advise_ttl as nat)
            },
            CommandKind::CheckTxnStatus { primary_key, lock_ts, caller_start_ts, current_ts, .. } => {
                "kv::command::check_txn_status "@ + key_text(primary_key) + " @ "@
                    + timestamp_text(lock_ts) + " curr("@ + timestamp_text(caller_start_ts)
                    + ", "@ + timestamp_text(current_ts) + ")"@
            },
            CommandKind::ScanLock { max_ts, start_key, limit } => {
                "kv::scan_lock "@ + optional_key_text(start_key) + " "@ + decimal(limit as nat)
                    + " @ "@ + timestamp_text(max_ts)
            },
            CommandKind::ResolveLock { .. } => "kv::resolve_lock"@,
            CommandKind::ResolveLockLite { .. } => "kv::resolve_lock_lite"@,
            CommandKind::DeleteRange { start_key, end_key } => {
                "kv::command::delete range ["@ + key_text(start_key) + ", "@ + key_text(end_key)
                    + ")"@
            },
            CommandKind::Pause { keys, duration } => {
                "kv::command::pause keys:("@ + decimal(keys@.len()) + ") "@ + decimal(
                    duration as nat,
                ) + " ms"@
            },
            CommandKind::MvccByKey { key } => "kv::command::mvccbykey "@ + key_text(key),
            CommandKind::MvccByStartTs { start_ts } => {
                "kv::command::mvccbystartts "@ + marked_timestamp_text(start_ts)
            },
        }
    }

    /// Says in one line what the operation is.
    pub fn summarize(&self) -> (line: String)
        ensures
            line@ == self.summary(),
    {
        match self {
            CommandKind::Prewrite { mutations, start_ts, .. } => {
                let mut line = String::from_str("kv::command::prewrite mutations(");
                push_count(&mut line, mutations.len());
                line.append(") @ ");
                push_timestamp(&mut line, *start_ts);
                line
            },
            CommandKind::AcquirePessimisticLock { keys, start_ts, options, .. } => {
                let mut line = String::from_str("kv::command::acquirepessimisticlock keys(");
                push_count(&mut line, keys.len());
                line.append(") @ ");
                push_timestamp(&mut line, *start_ts);
                line.append(" ");
                push_timestamp(&mut line, options.for_update_ts);
                line
            },
            CommandKind::Commit { keys, lock_ts, commit_ts } => {
                let mut line = String::from_str("kv::command::commit ");
                push_count(&mut line, keys.len());
                line.append(" ");
                push_timestamp(&mut line, *lock_ts);
                line.append(" -> ");
                push_timestamp(&mut line, *commit_ts);
                line
            },
            CommandKind::Cleanup { key, start_ts, .. } => {
                let mut line = String::from_str("kv::command::cleanup ");
                push_key(&mut line, key);
                line.append(" @ ");
                push_timestamp(&mut line, *start_ts);
                line
            },
            CommandKind::Rollback { keys, start_ts } => {
                let mut line = String::from_str("kv::command::rollback keys(");
                push_count(&mut line, keys.len());
                line.append(") @ ");
                push_timestamp(&mut line, *start_ts);
                line
            },
            CommandKind::PessimisticRollback { keys, start_ts, for_update_ts } => {
                let mut line = String::from_str("kv::command::pessimistic_rollback keys(");
                push_count(&mut line, keys.len());
                line.append(") @ ");
                push_timestamp(&mut line, *start_ts);
                line.append(" ");
                push_timestamp(&mut line, *for_update_ts);
                line
            },
            CommandKind::TxnHeartBeat { primary_key, start_ts, advise_ttl } => {
                let mut line = String::from_str("kv::command::txn_heart_beat ");
                push_key(&mut line, primary_key);
                line.append(" @ ");
                push_timestamp(&mut line, *start_ts);
                line.append(" ttl ");
                push_decimal(&mut line, *advise_ttl);
                line
            },
            CommandKind::CheckTxnStatus { primary_key, lock_ts, caller_start_ts, current_ts, .. } => {
                let mut line = String::from_str("kv::command::check_txn_status ");
                push_key(&mut line, primary_key);
                line.append(" @ ");
                push_timestamp(&mut line, *lock_ts);
                line.append(" curr(");
                push_timestamp(&mut line, *caller_start_ts);
                line.append(", ");
                push_timestamp(&mut line, *current_ts);
                line.append(")");
                line
            },
            CommandKind::ScanLock { max_ts, start_key, limit } => {
                let mut line = String::from_str("kv::scan_lock ");
                push_optional_key(&mut line, start_key);
                line.append(" ");
                push_count(&mut line, *limit);
                line.append(" @ ");
                push_timestamp(&mut line, *max_ts);
                line
            },
            CommandKind::ResolveLock { .. } => String::from_str("kv::resolve_lock"),
            CommandKind::ResolveLockLite { .. } => String::from_str("kv::resolve_lock_lite"),
            CommandKind::DeleteRange { start_key, end_key } => {
                let mut line = String::from_str("kv::command::delete range [");
                push_key(&mut line, start_key);
                line.append(", ");
                push_key(&mut line, end_key);
                line.append(")");
                line
            },
            CommandKind::Pause { keys, duration } => {
                let mut line = String::from_str("kv::command::pause keys:(");
                push_count(&mut line, keys.len());
                line.append(") ");
                push_decimal(&mut line, *duration);
                line.append(" ms");
                line
            },
            CommandKind::MvccByKey { key } => {
                let mut line = String::from_str("kv::command::mvccbykey ");
                push_key(&mut line, key);
                line
            },
            CommandKind::MvccByStartTs { start_ts } => {
                let mut line = String::from_str("kv::command::mvccbystartts ");
                push_marked_timestamp(&mut line, *start_ts);
                line
            },
        }
    }
}

impl Command {
    /// The line that describes the command: what its operation is, and
    /// after a bar the context of the request in its debug form.
    pub open spec fn rendering(&self) -> Seq<char> {
        self.kind.summary() + " | "@ + self.ctx@.debug_form
    }

    /// Describes the command in one line.
    pub fn to_string(&self) -> (line: String)
        ensures
            line@ == self.rendering(),
    {
        let mut line = self.kind.summarize();
        line.append(" | ");
        line.append(self.ctx.debug_form.as_str());
        line
    }
}

} // verus!
