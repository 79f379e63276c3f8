use std::collections::HashMap;

use txn_commands::commands::{Command, CommandKind};
use txn_commands::context::{CommandPri, Context};
use txn_commands::key::Key;
use txn_commands::mutation::{Lock, Mutation};
use txn_commands::options::Options;
use txn_commands::timestamp::TimeStamp;

fn key(raw: &str) -> Key {
    Key::from_raw(raw.as_bytes())
}

fn ctx() -> Context {
    Context::new(CommandPri::High, String::from("region_id: 2 priority: High"))
}

fn line(kind: CommandKind) -> String {
    Command { ctx: ctx(), kind }.to_string()
}

#[test]
fn render_prewrite() {
    let kind = CommandKind::Prewrite {
        mutations: vec![Mutation::Put((key("k1"), b"v".to_vec())), Mutation::Delete(key("k2"))],
        primary: b"k1".to_vec(),
        start_ts: TimeStamp::new(100),
        options: Options::default(),
    };
    assert_eq!(
        line(kind),
        "kv::command::prewrite mutations(2) @ 100 | region_id: 2 priority: High"
    );
}

#[test]
fn render_acquire_pessimistic_lock() {
    let mut options = Options::new(1, false, false);
    options.for_update_ts = TimeStamp::new(50);
    let kind = CommandKind::AcquirePessimisticLock {
        keys: vec![(key("k1"), false), (key("k2"), true), (key("k3"), true)],
        primary: b"k1".to_vec(),
        start_ts: TimeStamp::new(40),
        options,
    };
    assert_eq!(
        line(kind),
        "kv::command::acquirepessimisticlock keys(3) @ 40 50 | region_id: 2 priority: High"
    );
}

#[test]
fn render_commit() {
    let kind = CommandKind::Commit {
        keys: vec![key("k1")],
        lock_ts: TimeStamp::new(10),
        commit_ts: TimeStamp::new(20),
    };
    assert_eq!(line(kind), "kv::command::commit 1 10 -> 20 | region_id: 2 priority: High");
}

#[test]
fn render_cleanup() {
    let kind = CommandKind::Cleanup {
        key: key("k1"),
        start_ts: TimeStamp::new(7),
        current_ts: TimeStamp::new(9),
    };
    assert_eq!(
        line(kind),
        "kv::command::cleanup 6B31000000000000F9 @ 7 | region_id: 2 priority: High"
    );
}

#[test]
fn render_rollback() {
    let kind = CommandKind::Rollback { keys: Vec::new(), start_ts: TimeStamp::new(1234567890) };
    assert_eq!(
        line(kind),
        "kv::command::rollback keys(0) @ 1234567890 | region_id: 2 priority: High"
    );
}

#[test]
fn render_pessimistic_rollback() {
    let kind = CommandKind::PessimisticRollback {
        keys: vec![key("a"), key("b")],
        start_ts: TimeStamp::new(3),
        for_update_ts: TimeStamp::new(4),
    };
    assert_eq!(
        line(kind),
        "kv::command::pessimistic_rollback keys(2) @ 3 4 | region_id: 2 priority: High"
    );
}

#[test]
fn render_txn_heart_beat() {
    let kind = CommandKind::TxnHeartBeat {
        primary_key: key("k1"),
        start_ts: TimeStamp::new(5),
        advise_ttl: u64::MAX,
    };
    assert_eq!(
        line(kind),
        "kv::command::txn_heart_beat 6B31000000000000F9 @ 5 ttl 18446744073709551615 | region_id: 2 priority: High"
    );
}

#[test]
fn render_check_txn_status() {
    let kind = CommandKind::CheckTxnStatus {
        primary_key: key("k1"),
        lock_ts: TimeStamp::new(5),
        caller_start_ts: TimeStamp::new(9),
        current_ts: TimeStamp::new(10),
        rollback_if_not_exist: true,
    };
    assert_eq!(
        line(kind),
        "kv::command::check_txn_status 6B31000000000000F9 @ 5 curr(9, 10) | region_id: 2 priority: High"
    );
}

#[test]
fn render_scan_lock_from_a_key() {
    let kind =
        CommandKind::ScanLock { max_ts: TimeStamp::new(99), start_key: Some(key("k1")), limit: 16 };
    assert_eq!(
        line(kind),
        "kv::scan_lock Some(6B31000000000000F9) 16 @ 99 | region_id: 2 priority: High"
    );
}

#[test]
fn render_scan_lock_from_the_beginning() {
    let kind = CommandKind::ScanLock { max_ts: TimeStamp::new(99), start_key: None, limit: 0 };
    assert_eq!(line(kind), "kv::scan_lock None 0 @ 99 | region_id: 2 priority: High");
}

#[test]
fn render_resolve_lock() {
    let mut txn_status: HashMap<TimeStamp, TimeStamp> = HashMap::new();
    txn_status.insert(TimeStamp::new(100), TimeStamp::new(101));
    let kind = CommandKind::ResolveLock {
        txn_status,
        scan_key: Some(key("k1")),
        key_locks: vec![(key("k1"), Lock::new(TimeStamp::new(100), b"k1".to_vec(), 1, None))],
    };
    assert_eq!(line(kind), "kv::resolve_lock | region_id: 2 priority: High");
}

#[test]
fn render_resolve_lock_lite() {
    let kind = CommandKind::ResolveLockLite {
        start_ts: TimeStamp::new(1),
        commit_ts: TimeStamp::new(2),
        resolve_keys: vec![key("k1")],
    };
    assert_eq!(line(kind), "kv::resolve_lock_lite | region_id: 2 priority: High");
}

#[test]
fn render_delete_range() {
    let kind = CommandKind::DeleteRange {
        start_key: Key::from_encoded(vec![0x00, 0x0a, 0xab]),
        end_key: Key::from_encoded(vec![0xff]),
    };
    assert_eq!(
        line(kind),
        "kv::command::delete range [000AAB, FF) | region_id: 2 priority: High"
    );
}

#[test]
fn render_pause() {
    let kind = CommandKind::Pause { keys: vec![key("k1"), key("k2")], duration: 1500 };
    assert_eq!(
        line(kind),
        "kv::command::pause keys:(2) 1500 ms | region_id: 2 priority: High"
    );
}

#[test]
fn render_mvcc_by_key() {
    let kind = CommandKind::MvccByKey { key: Key::from_encoded(Vec::new()) };
    assert_eq!(line(kind), "kv::command::mvccbykey  | region_id: 2 priority: High");
}

#[test]
fn render_mvcc_by_start_ts() {
    let kind = CommandKind::MvccByStartTs { start_ts: TimeStamp::new(100) };
    assert_eq!(
        line(kind),
        "kv::command::mvccbystartts TimeStamp(100) | region_id: 2 priority: High"
    );
}

#[test]
fn render_under_an_empty_context() {
    let cmd = Command {
        ctx: Context::default(),
        kind: CommandKind::MvccByStartTs { start_ts: TimeStamp::zero() },
    };
    assert_eq!(cmd.to_string(), "kv::command::mvccbystartts TimeStamp(0) | ");
}

#[test]
fn render_numbers_in_decimal() {
    let numbers: Vec<u64> = vec![0, 9, 10, 99, 100, 101, 1000, 4294967296];
    for n in numbers {
        let cmd = Command {
            ctx: Context::default(),
            kind: CommandKind::Rollback { keys: Vec::new(), start_ts: TimeStamp::new(n) },
        };
        assert_eq!(cmd.to_string(), format!("kv::command::rollback keys(0) @ {} | ", n));
    }
}

#[test]
fn render_every_byte_in_upper_case_hexadecimal() {
    let bytes: Vec<u8> = (0u8..=255u8).collect();
    let mut expected = String::from("kv::command::mvccbykey ");
    for b in bytes.iter() {
        expected.push_str(&format!("{:02X}", b));
    }
    expected.push_str(" | ");
    let cmd = Command {
        ctx: Context::default(),
        kind: CommandKind::MvccByKey { key: Key::from_encoded(bytes) },
    };
    assert_eq!(cmd.to_string(), expected);
}

#[test]
fn render_always_ends_with_the_context() {
    let kinds = vec![
        CommandKind::MvccByStartTs { start_ts: TimeStamp::new(1) },
        CommandKind::ResolveLockLite {
            start_ts: TimeStamp::new(1),
            commit_ts: TimeStamp::new(2),
            resolve_keys: Vec::new(),
        },
        CommandKind::Pause { keys: Vec::new(), duration: 0 },
        CommandKind::DeleteRange { start_key: key("a"), end_key: key("b") },
    ];
    for kind in kinds {
        let summary = kind.summarize();
        let cmd = Command { ctx: ctx(), kind };
        assert_eq!(cmd.to_string(), format!("{} | region_id: 2 priority: High", summary));
    }
}

#[test]
fn summarize_leaves_the_context_out() {
    let kind = CommandKind::Pause { keys: vec![key("k1")], duration: 20 };
    assert_eq!(kind.summarize(), "kv::command::pause keys:(1) 20 ms");
    let kind = CommandKind::MvccByStartTs { start_ts: TimeStamp::new(3) };
    assert_eq!(kind.summarize(), "kv::command::mvccbystartts TimeStamp(3)");
}

#[test]
fn summary_is_short() {
    let big = TimeStamp::new(u64::MAX);
    let kind = CommandKind::CheckTxnStatus {
        primary_key: key("k1"),
        lock_ts: big,
        caller_start_ts: big,
        current_ts: big,
        rollback_if_not_exist: false,
    };
    let summary = kind.summarize();
    assert_eq!(
        summary,
        "kv::command::check_txn_status 6B31000000000000F9 @ 18446744073709551615 curr(18446744073709551615, 18446744073709551615)"
    );
    assert_eq!(summary.len(), 102 + 2 * 9);
    assert!(summary.len() <= 106 + 2 * 9);
    let mut options = Options::default();
    options.for_update_ts = big;
    let kind = CommandKind::AcquirePessimisticLock {
        keys: Vec::new(),
        primary: Vec::new(),
        start_ts: big,
        options,
    };
    assert!(kind.summarize().len() <= 106);
}
