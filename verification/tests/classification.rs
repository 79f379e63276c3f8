use std::collections::HashMap;

use txn_commands::commands::{get_priority_tag, Command, CommandKind};
use txn_commands::context::{CommandPri, Context};
use txn_commands::key::Key;
use txn_commands::metrics;
use txn_commands::metrics::CommandPriority;
use txn_commands::mutation::{Lock, Mutation};
use txn_commands::options::Options;
use txn_commands::timestamp::TimeStamp;

fn key(raw: &str) -> Key {
    Key::from_raw(raw.as_bytes())
}

fn lock_at(ts: u64) -> Lock {
    Lock::new(TimeStamp::new(ts), b"k1".to_vec(), 3000, None)
}

fn command(kind: CommandKind) -> Command {
    Command { ctx: Context::default(), kind }
}

fn command_with_priority(priority: CommandPri, kind: CommandKind) -> Command {
    let mut ctx = Context::default();
    ctx.set_priority(priority);
    Command { ctx, kind }
}

fn prewrite() -> CommandKind {
    CommandKind::Prewrite {
        mutations: vec![
            Mutation::Put((key("k1"), b"value1".to_vec())),
            Mutation::Delete(key("k2")),
        ],
        primary: b"k1".to_vec(),
        start_ts: TimeStamp::new(100),
        options: Options::new(3000, false, false),
    }
}

fn acquire_pessimistic_lock() -> CommandKind {
    let mut options = Options::new(3000, false, false);
    options.for_update_ts = TimeStamp::new(12);
    CommandKind::AcquirePessimisticLock {
        keys: vec![(key("k1"), false), (key("0123456789"), true)],
        primary: b"k1".to_vec(),
        start_ts: TimeStamp::new(11),
        options,
    }
}

fn commit() -> CommandKind {
    CommandKind::Commit {
        keys: vec![key("k1"), key("k2")],
        lock_ts: TimeStamp::new(21),
        commit_ts: TimeStamp::new(22),
    }
}

fn cleanup() -> CommandKind {
    CommandKind::Cleanup {
        key: key("k1"),
        start_ts: TimeStamp::new(31),
        current_ts: TimeStamp::new(32),
    }
}

fn rollback() -> CommandKind {
    CommandKind::Rollback { keys: vec![key("k1")], start_ts: TimeStamp::new(41) }
}

fn pessimistic_rollback() -> CommandKind {
    CommandKind::PessimisticRollback {
        keys: vec![key("k1"), key("k2"), key("k3")],
        start_ts: TimeStamp::new(51),
        for_update_ts: TimeStamp::new(52),
    }
}

fn txn_heart_beat() -> CommandKind {
    CommandKind::TxnHeartBeat {
        primary_key: key("k1"),
        start_ts: TimeStamp::new(61),
        advise_ttl: 5000,
    }
}

fn check_txn_status() -> CommandKind {
    CommandKind::CheckTxnStatus {
        primary_key: key("k1"),
        lock_ts: TimeStamp::new(71),
        caller_start_ts: TimeStamp::new(72),
        current_ts: TimeStamp::new(73),
        rollback_if_not_exist: false,
    }
}

fn scan_lock() -> CommandKind {
    CommandKind::ScanLock { max_ts: TimeStamp::new(81), start_key: Some(key("k1")), limit: 10 }
}

fn resolve_lock(key_locks: Vec<(Key, Lock)>) -> CommandKind {
    let mut txn_status: HashMap<TimeStamp, TimeStamp> = HashMap::new();
    txn_status.insert(TimeStamp::new(100), TimeStamp::new(101));
    txn_status.insert(TimeStamp::new(102), TimeStamp::zero());
    CommandKind::ResolveLock { txn_status, scan_key: None, key_locks }
}

fn three_key_locks() -> Vec<(Key, Lock)> {
    vec![(key("k1"), lock_at(100)), (key("k2"), lock_at(102)), (key("k3"), lock_at(104))]
}

fn resolve_lock_lite() -> CommandKind {
    CommandKind::ResolveLockLite {
        start_ts: TimeStamp::new(91),
        commit_ts: TimeStamp::new(92),
        resolve_keys: vec![key("k1"), key("k2")],
    }
}

fn delete_range() -> CommandKind {
    CommandKind::DeleteRange { start_key: key("a"), end_key: key("z") }
}

fn pause() -> CommandKind {
    CommandKind::Pause { keys: vec![key("k1"), key("k2")], duration: 500 }
}

fn mvcc_by_key() -> CommandKind {
    CommandKind::MvccByKey { key: key("k1") }
}

fn mvcc_by_start_ts() -> CommandKind {
    CommandKind::MvccByStartTs { start_ts: TimeStamp::new(95) }
}

/// One command of each operation, in the order of the catalogue.
fn one_of_each() -> Vec<Command> {
    vec![
        command(prewrite()),
        command(acquire_pessimistic_lock()),
        command(commit()),
        command(cleanup()),
        command(rollback()),
        command(pessimistic_rollback()),
        command(txn_heart_beat()),
        command(check_txn_status()),
        command(scan_lock()),
        command(resolve_lock(three_key_locks())),
        command(resolve_lock_lite()),
        command(delete_range()),
        command(pause()),
        command(mvcc_by_key()),
        command(mvcc_by_start_ts()),
    ]
}

#[test]
fn tags_are_pairwise_distinct() {
    let commands = one_of_each();
    assert_eq!(commands.len(), 15);
    for (i, a) in commands.iter().enumerate() {
        for (j, b) in commands.iter().enumerate() {
            assert_eq!(a.tag() == b.tag(), i == j);
        }
    }
}

#[test]
fn tag_of_each_operation() {
    let expected = vec![
        metrics::CommandKind::Prewrite,
        metrics::CommandKind::AcquirePessimisticLock,
        metrics::CommandKind::Commit,
        metrics::CommandKind::Cleanup,
        metrics::CommandKind::Rollback,
        metrics::CommandKind::PessimisticRollback,
        metrics::CommandKind::TxnHeartBeat,
        metrics::CommandKind::CheckTxnStatus,
        metrics::CommandKind::ScanLock,
        metrics::CommandKind::ResolveLock,
        metrics::CommandKind::ResolveLockLite,
        metrics::CommandKind::DeleteRange,
        metrics::CommandKind::Pause,
        metrics::CommandKind::KeyMvcc,
        metrics::CommandKind::StartTsMvcc,
    ];
    let tags: Vec<metrics::CommandKind> = one_of_each().iter().map(|c| c.tag()).collect();
    assert_eq!(tags, expected);
}

#[test]
fn tag_does_not_depend_on_what_is_carried() {
    assert_eq!(
        command(resolve_lock(Vec::new())).tag(),
        command(resolve_lock(three_key_locks())).tag()
    );
    assert_eq!(
        command_with_priority(CommandPri::High, rollback()).tag(),
        command(CommandKind::Rollback { keys: Vec::new(), start_ts: TimeStamp::zero() }).tag()
    );
}

#[test]
fn readonly_of_each_operation() {
    let expected = vec![
        false, false, false, false, false, false, false, false, true, false, false, true, false,
        true, true,
    ];
    let got: Vec<bool> = one_of_each().iter().map(|c| c.readonly()).collect();
    assert_eq!(got, expected);
}

#[test]
fn resolve_lock_is_readonly_only_without_key_locks() {
    assert!(command(resolve_lock(Vec::new())).readonly());
    assert!(!command(resolve_lock(vec![(key("k1"), lock_at(100))])).readonly());
    assert!(!command(resolve_lock(three_key_locks())).readonly());
}

#[test]
fn delete_range_counts_as_a_read() {
    let cmd = command(delete_range());
    assert!(cmd.readonly());
    assert!(!cmd.need_flow_control());
    assert_eq!(cmd.write_bytes(), 0);
}

#[test]
fn is_sys_cmd_of_each_operation() {
    let expected = vec![
        false, false, false, false, false, false, false, false, true, true, true, false, false,
        false, false,
    ];
    let got: Vec<bool> = one_of_each().iter().map(|c| c.is_sys_cmd()).collect();
    assert_eq!(got, expected);
    assert!(command(resolve_lock(Vec::new())).is_sys_cmd());
}

#[test]
fn priority_is_that_of_the_context() {
    assert_eq!(command(prewrite()).priority(), CommandPri::Normal);
    assert_eq!(command_with_priority(CommandPri::Low, prewrite()).priority(), CommandPri::Low);
    assert_eq!(command_with_priority(CommandPri::Normal, commit()).priority(), CommandPri::Normal);
    assert_eq!(command_with_priority(CommandPri::High, scan_lock()).priority(), CommandPri::High);
}

#[test]
fn priority_tag_of_each_priority() {
    assert_eq!(get_priority_tag(CommandPri::Low), CommandPriority::Low);
    assert_eq!(get_priority_tag(CommandPri::Normal), CommandPriority::Normal);
    assert_eq!(get_priority_tag(CommandPri::High), CommandPriority::High);
    assert_eq!(command(prewrite()).priority_tag(), CommandPriority::Normal);
    assert_eq!(
        command_with_priority(CommandPri::Low, prewrite()).priority_tag(),
        CommandPriority::Low
    );
    assert_eq!(
        command_with_priority(CommandPri::High, prewrite()).priority_tag(),
        CommandPriority::High
    );
}

#[test]
fn default_priority_is_normal() {
    assert_eq!(CommandPri::default(), CommandPri::Normal);
    assert_eq!(Context::default().get_priority(), CommandPri::Normal);
}

#[test]
fn flow_control_holds_only_writes_below_high_priority() {
    for priority in [CommandPri::Low, CommandPri::Normal, CommandPri::High] {
        let commands = vec![
            command_with_priority(priority, prewrite()),
            command_with_priority(priority, acquire_pessimistic_lock()),
            command_with_priority(priority, commit()),
            command_with_priority(priority, cleanup()),
            command_with_priority(priority, rollback()),
            command_with_priority(priority, pessimistic_rollback()),
            command_with_priority(priority, txn_heart_beat()),
            command_with_priority(priority, check_txn_status()),
            command_with_priority(priority, scan_lock()),
            command_with_priority(priority, resolve_lock(three_key_locks())),
            command_with_priority(priority, resolve_lock(Vec::new())),
            command_with_priority(priority, resolve_lock_lite()),
            command_with_priority(priority, delete_range()),
            command_with_priority(priority, pause()),
            command_with_priority(priority, mvcc_by_key()),
            command_with_priority(priority, mvcc_by_start_ts()),
        ];
        for cmd in commands.iter() {
            let expected = !cmd.readonly() && priority != CommandPri::High;
            assert_eq!(cmd.need_flow_control(), expected);
            if cmd.readonly() || priority == CommandPri::High {
                assert!(!cmd.need_flow_control());
            }
        }
    }
}

#[test]
fn flow_control_examples() {
    assert!(command_with_priority(CommandPri::Normal, prewrite()).need_flow_control());
    assert!(command_with_priority(CommandPri::Low, commit()).need_flow_control());
    assert!(!command_with_priority(CommandPri::High, prewrite()).need_flow_control());
    assert!(!command_with_priority(CommandPri::Normal, scan_lock()).need_flow_control());
    assert!(!command_with_priority(CommandPri::High, scan_lock()).need_flow_control());
    assert!(!command_with_priority(CommandPri::Low, resolve_lock(Vec::new())).need_flow_control());
    assert!(command_with_priority(CommandPri::Low, resolve_lock(three_key_locks()))
        .need_flow_control());
}

#[test]
fn ts_of_each_operation() {
    let expected: Vec<u64> = vec![100, 11, 21, 31, 41, 51, 61, 71, 81, 0, 91, 0, 0, 0, 95];
    let got: Vec<u64> = one_of_each().iter().map(|c| c.ts().into_inner()).collect();
    assert_eq!(got, expected);
}

#[test]
fn ts_is_zero_exactly_where_no_timestamp_governs() {
    for (i, cmd) in one_of_each().iter().enumerate() {
        let sentinel = matches!(
            cmd.kind,
            CommandKind::ResolveLock { .. }
                | CommandKind::DeleteRange { .. }
                | CommandKind::Pause { .. }
                | CommandKind::MvccByKey { .. }
        );
        assert_eq!(cmd.ts().is_zero(), sentinel, "command {}", i);
        assert_eq!(cmd.ts() == TimeStamp::zero(), sentinel, "command {}", i);
    }
}

#[test]
fn ts_of_commit_is_the_lock_ts_not_the_commit_ts() {
    assert_eq!(command(commit()).ts(), TimeStamp::new(21));
    assert_eq!(command(check_txn_status()).ts(), TimeStamp::new(71));
    assert_eq!(command(resolve_lock_lite()).ts(), TimeStamp::new(91));
}

#[test]
fn write_bytes_of_prewrite_with_put_and_delete() {
    let k1 = key("k1");
    let k2 = key("k2");
    let v1: Vec<u8> = b"value1".to_vec();
    let expected: usize = k1.as_encoded().len() + v1.len() + k2.as_encoded().len();
    assert_eq!(expected, 9 + 6 + 9);
    assert_eq!(command(prewrite()).write_bytes(), expected);
}

#[test]
fn write_bytes_of_prewrite_counts_values_of_put_and_insert_only() {
    let kind = CommandKind::Prewrite {
        mutations: vec![
            Mutation::Put((key("k1"), vec![1u8; 5])),
            Mutation::Insert((key("0123456789"), vec![2u8; 7])),
            Mutation::Delete(key("k3")),
            Mutation::Lock(key("k4")),
        ],
        primary: b"k1".to_vec(),
        start_ts: TimeStamp::new(1),
        options: Options::default(),
    };
    assert_eq!(command(kind).write_bytes(), (9 + 5) + (18 + 7) + 9 + 9);
}

#[test]
fn write_bytes_of_scan_lock_is_zero() {
    assert_eq!(command(scan_lock()).write_bytes(), 0);
    let wide = CommandKind::ScanLock {
        max_ts: TimeStamp::new(u64::MAX),
        start_key: Some(key("a long key that would weigh a lot")),
        limit: usize::MAX,
    };
    assert_eq!(command(wide).write_bytes(), 0);
    let bare = CommandKind::ScanLock { max_ts: TimeStamp::zero(), start_key: None, limit: 0 };
    assert_eq!(command(bare).write_bytes(), 0);
}

#[test]
fn write_bytes_of_each_operation() {
    let expected: Vec<usize> = vec![24, 27, 18, 9, 9, 27, 9, 9, 0, 27, 18, 0, 18, 0, 0];
    let got: Vec<usize> = one_of_each().iter().map(|c| c.write_bytes()).collect();
    assert_eq!(got, expected);
}

#[test]
fn write_bytes_of_empty_collections_is_zero() {
    let empty_prewrite = CommandKind::Prewrite {
        mutations: Vec::new(),
        primary: Vec::new(),
        start_ts: TimeStamp::new(1),
        options: Options::default(),
    };
    assert_eq!(command(empty_prewrite).write_bytes(), 0);
    assert_eq!(command(resolve_lock(Vec::new())).write_bytes(), 0);
    let empty_commit = CommandKind::Commit {
        keys: Vec::new(),
        lock_ts: TimeStamp::new(1),
        commit_ts: TimeStamp::new(2),
    };
    assert_eq!(command(empty_commit).write_bytes(), 0);
}

#[test]
fn write_bytes_leaves_timestamps_out() {
    let a = CommandKind::ResolveLockLite {
        start_ts: TimeStamp::new(1),
        commit_ts: TimeStamp::zero(),
        resolve_keys: vec![key("k1")],
    };
    let b = CommandKind::ResolveLockLite {
        start_ts: TimeStamp::new(u64::MAX),
        commit_ts: TimeStamp::new(u64::MAX),
        resolve_keys: vec![key("k1")],
    };
    assert_eq!(command(a).write_bytes(), 9);
    assert_eq!(command(b).write_bytes(), 9);
    let c = CommandKind::Cleanup {
        key: key("k1"),
        start_ts: TimeStamp::new(5),
        current_ts: TimeStamp::zero(),
    };
    assert_eq!(command(c).write_bytes(), 9);
}

#[test]
fn pessimistic_prewrite_round_trip() {
    let mut options = Options::new(3000, false, false);
    options.for_update_ts = TimeStamp::new(50);
    let cmd = command(CommandKind::Prewrite {
        mutations: vec![Mutation::Put((key("k1"), b"v1".to_vec()))],
        primary: b"k1".to_vec(),
        start_ts: TimeStamp::new(100),
        options,
    });
    assert_eq!(cmd.ts(), TimeStamp::new(100));
    assert!(!cmd.readonly());
    assert_eq!(cmd.tag(), metrics::CommandKind::Prewrite);
    match &cmd.kind {
        CommandKind::Prewrite { primary, options, .. } => {
            assert_eq!(primary.as_slice(), b"k1");
            assert_eq!(options.for_update_ts, TimeStamp::new(50));
            assert!(!options.for_update_ts.is_zero());
        }
        _ => panic!("not a prewrite"),
    }
}

#[test]
fn check_txn_status_carries_what_the_decision_needs() {
    let cmd = command(CommandKind::CheckTxnStatus {
        primary_key: key("k1"),
        lock_ts: TimeStamp::new(5),
        caller_start_ts: TimeStamp::new(9),
        current_ts: TimeStamp::new(10),
        rollback_if_not_exist: false,
    });
    assert_eq!(cmd.ts(), TimeStamp::new(5));
    assert!(!cmd.readonly());
    assert!(!cmd.is_sys_cmd());
    assert_eq!(cmd.tag(), metrics::CommandKind::CheckTxnStatus);
    match cmd.kind {
        CommandKind::CheckTxnStatus {
            primary_key,
            lock_ts,
            caller_start_ts,
            current_ts,
            rollback_if_not_exist,
        } => {
            assert_eq!(primary_key, key("k1"));
            assert_eq!(lock_ts, TimeStamp::new(5));
            assert_eq!(caller_start_ts, TimeStamp::new(9));
            assert_eq!(current_ts, TimeStamp::new(10));
            assert!(!rollback_if_not_exist);
        }
        _ => panic!("not a status check"),
    }
}

#[test]
fn resolve_lock_groups_locks_by_transaction_status() {
    let cmd = command(resolve_lock(three_key_locks()));
    assert!(!cmd.readonly());
    assert!(cmd.is_sys_cmd());
    assert!(cmd.ts().is_zero());
    assert_eq!(cmd.write_bytes(), 27);
    match &cmd.kind {
        CommandKind::ResolveLock { txn_status, scan_key, key_locks } => {
            assert_eq!(txn_status.len(), 2);
            assert!(scan_key.is_none());
            assert_eq!(key_locks.len(), 3);
            let outcomes: Vec<(Key, Option<TimeStamp>)> = key_locks
                .iter()
                .map(|(k, lock)| (k.clone(), txn_status.get(&lock.ts).copied()))
                .collect();
            assert_eq!(
                outcomes,
                vec![
                    (key("k1"), Some(TimeStamp::new(101))),
                    (key("k2"), Some(TimeStamp::zero())),
                    (key("k3"), None),
                ]
            );
            assert!(!outcomes[0].1.unwrap().is_zero());
            assert!(outcomes[1].1.unwrap().is_zero());
        }
        _ => panic!("not a lock resolution"),
    }
}

#[test]
fn checked_write_bytes_agrees_with_write_bytes() {
    for cmd in one_of_each().iter() {
        assert_eq!(cmd.checked_write_bytes(), Some(cmd.write_bytes()));
    }
    assert_eq!(command(prewrite()).checked_write_bytes(), Some(24));
    assert_eq!(command(scan_lock()).checked_write_bytes(), Some(0));
    assert_eq!(command(resolve_lock(Vec::new())).checked_write_bytes(), Some(0));
}
