//! How many bytes a command writes: the estimate that admission control
//! goes by.

use crate::commands::{Command, CommandKind};
use crate::key::Key;
use crate::mutation::{Lock, Mutation};
use vstd::prelude::*;

verus! {

/// The sum of the numbers of `s`.
pub open spec fn sum(s: Seq<nat>) -> nat
    decreases s.len(),
{
    if s.len() == 0 {
        0
    } else {
        sum(s.drop_last()) + s.last()
    }
}

/// The sum of the first `i + 1` numbers is the sum of the first `i`, and
/// the next.
pub proof fn lemma_sum_take_next(s: Seq<nat>, i: int)
    requires
        0 <= i < s.len(),
    ensures
        sum(s.take(i + 1)) == sum(s.take(i)) + s[i],
{
    assert(s.take(i + 1).drop_last() =~= s.take(i));
}

/// No sum of the first numbers of `s` is more than the sum of all.
pub proof fn lemma_sum_take_bounded(s: Seq<nat>, i: int)
    requires
        0 <= i <= s.len(),
    ensures
        sum(s.take(i)) <= sum(s),
    decreases s.len() - i,
{
    if i < s.len() {
        lemma_sum_take_next(s, i);
        lemma_sum_take_bounded(s, i + 1);
    } else {
        assert(s.take(i) =~= s);
    }
}

/// The lengths of the encoded keys of `keys`.
pub open spec fn key_lens(keys: Seq<Key>) -> Seq<nat> {
    Seq::new(keys.len(), |i: int| keys[i]@.len())
}

/// The lengths of the encoded keys of `keys`, whatever their flags.
pub open spec fn flagged_key_lens(keys: Seq<(Key, bool)>) -> Seq<nat> {
    Seq::new(keys.len(), |i: int| keys[i].0@.len())
}

/// The lengths of the encoded keys of `key_locks`, whatever their locks.
pub open spec fn locked_key_lens(key_locks: Seq<(Key, Lock)>) -> Seq<nat> {
    Seq::new(key_locks.len(), |i: int| key_locks[i].0@.len())
}

/// The weights of `mutations`.
pub open spec fn mutation_weights(mutations: Seq<Mutation>) -> Seq<nat> {
    Seq::new(mutations.len(), |i: int| mutations[i].weight())
}

impl CommandKind {
    /// The bytes that the operation writes: for each key it touches, the
    /// length of the encoded key, and for each value that a prewrite stores,
    /// the length of the value. Timestamps weigh nothing, nor do the keys of
    /// operations that only read or that delete a range.
    pub open spec fn spec_write_bytes(self) -> nat {
        match self {
            CommandKind::Prewrite { mutations, .. } => sum(mutation_weights(mutations@)),
            CommandKind::AcquirePessimisticLock { keys, .. } => sum(flagged_key_lens(keys@)),
            CommandKind::Commit { keys, .. } => sum(key_lens(keys@)),
            CommandKind::Cleanup { key, .. } => key@.len(),
            CommandKind::Rollback { keys, .. } => sum(key_lens(keys@)),
            CommandKind::PessimisticRollback { keys, .. } => sum(key_lens(keys@)),
            CommandKind::TxnHeartBeat { primary_key, .. } => primary_key@.len(),
            CommandKind::CheckTxnStatus { primary_key, .. } => primary_key@.len(),
            CommandKind::ScanLock { .. } => 0,
            CommandKind::ResolveLock { key_locks, .. } => sum(locked_key_lens(key_locks@)),
            CommandKind::ResolveLockLite { resolve_keys, .. } => sum(key_lens(resolve_keys@)),
            CommandKind::DeleteRange { .. } => 0,
            CommandKind::Pause { keys, .. } => sum(key_lens(keys@)),
            CommandKind::MvccByKey { .. } => 0,
            CommandKind::MvccByStartTs { .. } => 0,
        }
    }
}

/// Whether `bytes` is the number `total`, or stands for a total that no
/// `usize` holds.
pub open spec fn is_checked(bytes: Option<usize>, total: nat) -> bool {
    match bytes {
        Some(n) => n == total,
        None => total > usize::MAX,
    }
}

fn mutations_bytes(mutations: &Vec<Mutation>) -> (bytes: Option<usize>)
    ensures
        is_checked(bytes, sum(mutation_weights(mutations@))),
{
    let ghost weights = mutation_weights(mutations@);
    let mut bytes: usize = 0;
    let mut i: usize = 0;
    while i < mutations.len()
        invariant
            i <= mutations@.len(),
            weights == mutation_weights(mutations@),
            bytes == sum(weights.take(i as int)),
        decreases mutations@.len() - i,
    {
        proof {
            lemma_sum_take_next(weights, i as int);
            lemma_sum_take_bounded(weights, i + 1);
        }
        let weight: Option<usize> = match &mutations[i] {
            Mutation::Put((key, value)) | Mutation::Insert((key, value)) => {
                key.as_encoded().len().checked_add(value.len())
            },
            Mutation::Delete(key) | Mutation::Lock(key) => Some(key.as_encoded().len()),
        };
        let next: Option<usize> = match weight {
            Some(weight) => bytes.checked_add(weight),
            None => None,
        };
        match next {
            Some(next) => {
                bytes = next;
            },
            None => {
                return None;
            },
        }
        i = i + 1;
    }
    assert(weights.take(i as int) =~= weights);
    Some(bytes)
}

fn flagged_keys_bytes(keys: &Vec<(Key, bool)>) -> (bytes: Option<usize>)
    ensures
        is_checked(bytes, sum(flagged_key_lens(keys@))),
{
    let ghost lens = flagged_key_lens(keys@);
    let mut bytes: usize = 0;
    let mut i: usize = 0;
    while i < keys.len()
        invariant
            i <= keys@.len(),
            lens == flagged_key_lens(keys@),
            bytes == sum(lens.take(i as int)),
        decreases keys@.len() - i,
    {
        proof {
            lemma_sum_take_next(lens, i as int);
            lemma_sum_take_bounded(lens, i + 1);
        }
        match bytes.checked_add(keys[i].0.as_encoded().len()) {
            Some(next) => {
                bytes = next;
            },
            None => {
                return None;
            },
        }
        i = i + 1;
    }
    assert(lens.take(i as int) =~= lens);
    Some(bytes)
}

fn keys_bytes(keys: &Vec<Key>) -> (bytes: Option<usize>)
    ensures
        is_checked(bytes, sum(key_lens(keys@))),
{
    let ghost lens = key_lens(keys@);
    let mut bytes: usize = 0;
    let mut i: usize = 0;
    while i < keys.len()
        invariant
            i <= keys@.len(),
            lens == key_lens(keys@),
            bytes == sum(lens.take(i as int)),
        decreases keys@.len() - i,
    {
        proof {
            lemma_sum_take_next(lens, i as int);
            lemma_sum_take_bounded(lens, i + 1);
        }
        match bytes.checked_add(keys[i].as_encoded().len()) {
            Some(next) => {
                bytes = next;
            },
            None => {
                return None;
            },
        }
        i = i + 1;
    }
    assert(lens.take(i as int) =~= lens);
    Some(bytes)
}

fn locked_keys_bytes(key_locks: &Vec<(Key, Lock)>) -> (bytes: Option<usize>)
    ensures
        is_checked(bytes, sum(locked_key_lens(key_locks@))),
{
    let ghost lens = locked_key_lens(key_locks@);
    let mut bytes: usize = 0;
    let mut i: usize = 0;
    while i < key_locks.len()
        invariant
            i <= key_locks@.len(),
            lens == locked_key_lens(key_locks@),
            bytes == sum(lens.take(i as int)),
        decreases key_locks@.len() - i,
    {
        proof {
            lemma_sum_take_next(lens, i as int);
            lemma_sum_take_bounded(lens, i + 1);
        }
        match bytes.checked_add(key_locks[i].0.as_encoded().len()) {
            Some(next) => {
                bytes = next;
            },
            None => {
                return None;
            },
        }
        i = i + 1;
    }
    assert(lens.take(i as int) =~= lens);
    Some(bytes)
}

impl Command {
    /// The bytes that the command writes, or `None` where they are more
    /// than a `usize` can count.
    pub fn checked_write_bytes(&self) -> (bytes: Option<usize>)
        ensures
            is_checked(bytes, self.kind.spec_write_bytes()),
            bytes is Some <==> self.kind.spec_write_bytes() <= usize::MAX,
    {
        match &self.kind {
            CommandKind::Prewrite { mutations, .. } => mutations_bytes(mutations),
            CommandKind::AcquirePessimisticLock { keys, .. } => flagged_keys_bytes(keys),
            CommandKind::Commit { keys, .. }
            | CommandKind::Rollback { keys, .. }
            | CommandKind::PessimisticRollback { keys, .. }
            | CommandKind::Pause { keys, .. } => keys_bytes(keys),
            CommandKind::ResolveLock { key_locks, .. } => locked_keys_bytes(key_locks),
            CommandKind::ResolveLockLite { resolve_keys, .. } => keys_bytes(resolve_keys),
            CommandKind::Cleanup { key, .. } => Some(key.as_encoded().len()),
            CommandKind::TxnHeartBeat { primary_key, .. } => Some(primary_key.as_encoded().len()),
            CommandKind::CheckTxnStatus { primary_key, .. } => {
                Some(primary_key.as_encoded().len())
            },
            CommandKind::ScanLock { .. }
            | CommandKind::DeleteRange { .. }
            | CommandKind::MvccByKey { .. }
            | CommandKind::MvccByStartTs { .. } => Some(0),
        }
    }

    /// The bytes that the command writes.
    pub fn write_bytes(&self) -> (bytes: usize)
        requires
            self.kind.spec_write_bytes() <= usize::MAX,
        ensures
            bytes == self.kind.spec_write_bytes(),
    {
        self.checked_write_bytes().unwrap()
    }
}

} // verus!
