//! The tuning that write commands carry.

use crate::timestamp::TimeStamp;
use vstd::prelude::*;

verus! {

/// Per-command tuning. Nothing here is validated: whether a combination
/// makes sense is for the engine that executes the command.
#[derive(Clone, Debug)]
pub struct Options {
    pub lock_ttl: u64,
    pub skip_constraint_check: bool,
    pub key_only: bool,
    pub reverse_scan: bool,
    pub is_first_lock: bool,
    /// Zero for an optimistic transaction, non-zero for a pessimistic one.
    pub for_update_ts: TimeStamp,
    /// For each mutation of a prewrite, whether its key holds a pessimistic
    /// lock.
    pub is_pessimistic_lock: Vec<bool>,
    /// How many keys the transaction involves.
    pub txn_size: u64,
    pub min_commit_ts: TimeStamp,
    /// How long to wait for a lock to be released, in milliseconds. Zero
    /// means the default; a negative number means not to wait.
    pub wait_timeout: i64,
}

impl Options {
    /// Whether these are the options that `new` gives for the three values.
    pub open spec fn is_fresh(self, lock_ttl: u64, skip_constraint_check: bool, key_only: bool) -> bool {
        &&& self.lock_ttl == lock_ttl
        &&& self.skip_constraint_check == skip_constraint_check
        &&& self.key_only == key_only
        &&& !self.reverse_scan
        &&& !self.is_first_lock
        &&& self.for_update_ts == TimeStamp::spec_zero()
        &&& self.is_pessimistic_lock@ == Seq::<bool>::empty()
        &&& self.txn_size == 0
        &&& self.min_commit_ts == TimeStamp::spec_zero()
        &&& self.wait_timeout == 0
    }

    /// Options with the three given values; everything else is off, zero or
    /// empty.
    pub fn new(lock_ttl: u64, skip_constraint_check: bool, key_only: bool) -> (options: Options)
        ensures
            options.is_fresh(lock_ttl, skip_constraint_check, key_only),
    {
        Options {
            lock_ttl,
            skip_constraint_check,
            key_only,
            reverse_scan: false,
            is_first_lock: false,
            for_update_ts: TimeStamp::zero(),
            is_pessimistic_lock: Vec::new(),
            txn_size: 0,
            min_commit_ts: TimeStamp::zero(),
            wait_timeout: 0,
        }
    }

    /// The same options, for a scan that runs backwards.
    pub fn reverse_scan(self) -> (options: Options)
        ensures
            options.reverse_scan,
            options == (Options { reverse_scan: true, ..self }),
    {
        let mut options = self;
        options.reverse_scan = true;
        options
    }
}

impl Default for Options {
    fn default() -> (options: Options)
        ensures
            options.is_fresh(0, false, false),
    {
        Options::new(0, false, false)
    }
}

} // verus!
