//! The labels under which commands are counted.

use vstd::prelude::*;

verus! {

/// The label of a command's operation: one for each operation of the
/// protocol.
#[derive(Clone, Copy, Debug, PartialEq, Eq, Structural, Hash)]
pub enum CommandKind {
    Prewrite,
    AcquirePessimisticLock,
    Commit,
    Cleanup,
    Rollback,
    PessimisticRollback,
    TxnHeartBeat,
    CheckTxnStatus,
    ScanLock,
    ResolveLock,
    ResolveLockLite,
    DeleteRange,
    Pause,
    KeyMvcc,
    StartTsMvcc,
}

/// The label of a command's priority.
#[derive(Clone, Copy, Debug, PartialEq, Eq, Structural, Hash)]
pub enum CommandPriority {
    Low,
    Normal,
    High,
}

impl CommandPriority {
    /// The place of a label in the order Low, Normal, High.
    pub open spec fn rank(self) -> int {
        match self {
            CommandPriority::Low => 0,
            CommandPriority::Normal => 1,
            CommandPriority::High => 2,
        }
    }
}

} // verus!
