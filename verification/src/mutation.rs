//! The changes a transaction stages, and the locks that guard them.

use crate::key::Key;
use crate::timestamp::TimeStamp;
use vstd::prelude::*;

verus! {

/// The bytes stored under a key.
pub type Value = Vec<u8>;

/// One change that a prewrite stages under a key.
#[derive(Debug)]
pub enum Mutation {
    /// Store the value under the key.
    Put((Key, Value)),
    /// Remove the key.
    Delete(Key),
    /// Lock the key and leave what it holds.
    Lock(Key),
    /// Store the value under the key, which must not exist yet.
    Insert((Key, Value)),
}

impl Mutation {
    /// The encoded key that the mutation is about.
    pub open spec fn spec_key(self) -> Seq<u8> {
        match self {
            Mutation::Put((key, _)) => key@,
            Mutation::Delete(key) => key@,
            Mutation::Lock(key) => key@,
            Mutation::Insert((key, _)) => key@,
        }
    }

    /// The value that the mutation stores, empty where it stores none.
    pub open spec fn spec_value(self) -> Seq<u8> {
        match self {
            Mutation::Put((_, value)) => value@,
            Mutation::Insert((_, value)) => value@,
            Mutation::Delete(_) => Seq::<u8>::empty(),
            Mutation::Lock(_) => Seq::<u8>::empty(),
        }
    }

    /// The bytes that the mutation adds to a write: those of its encoded key
    /// and, where it stores one, of its value.
    pub open spec fn weight(self) -> nat {
        self.spec_key().len() + self.spec_value().len()
    }

    /// The key that the mutation is about.
    pub fn key(&self) -> (key: &Key)
        ensures
            key@ == self.spec_key(),
    {
        match self {
            Mutation::Put((key, _)) => key,
            Mutation::Delete(key) => key,
            Mutation::Lock(key) => key,
            Mutation::Insert((key, _)) => key,
        }
    }
}

impl Clone for Mutation {
    fn clone(&self) -> (m: Mutation)
        ensures
            m.spec_key() == self.spec_key(),
            m.spec_value() == self.spec_value(),
            m is Put <==> self is Put,
            m is Delete <==> self is Delete,
            m is Lock <==> self is Lock,
            m is Insert <==> self is Insert,
    {
        match self {
            Mutation::Put((key, value)) => {
                let bytes: Vec<u8> = value.clone();
                assert(bytes@ =~= value@);
                Mutation::Put((key.clone(), bytes))
            },
            Mutation::Delete(key) => Mutation::Delete(key.clone()),
            Mutation::Lock(key) => Mutation::Lock(key.clone()),
            Mutation::Insert((key, value)) => {
                let bytes: Vec<u8> = value.clone();
                assert(bytes@ =~= value@);
                Mutation::Insert((key.clone(), bytes))
            },
        }
    }
}

/// The mark on a key whose newest version waits for its transaction to
/// commit or roll back.
#[derive(Clone, Debug)]
pub struct Lock {
    /// The start timestamp of the transaction that owns the lock.
    pub ts: TimeStamp,
    /// The transaction's primary key, as the user wrote it.
    pub primary: Vec<u8>,
    /// How long the lock lives, in milliseconds.
    pub ttl: u64,
    /// The value, where it is short enough to be kept in the lock.
    pub short_value: Option<Value>,
}

impl Lock {
    pub fn new(ts: TimeStamp, primary: Vec<u8>, ttl: u64, short_value: Option<Value>) -> (lock: Lock)
        ensures
            lock.ts == ts,
            lock.primary == primary,
            lock.ttl == ttl,
            lock.short_value == short_value,
    {
        Lock { ts, primary, ttl, short_value }
    }
}

} // verus!
