use golem_common::cursor::ScanCursor;
use golem_common::events::{LogLevel, WorkerEvent};
use golem_common::filter::{FilterComparator, StringFilterComparator, WorkerFilter};
use golem_common::idempotency::IdempotencyKey;
use golem_common::schedule::{ScheduleId, ScheduledAction};
use golem_common::ids::{AccountId, ComponentId, OplogIndex, PromiseId, WorkerId};
use golem_common::shard::{ShardAssignment, ShardId};
use golem_common::status::{Timestamp, WorkerStatus};

#[test]
fn filter_text_forms() {
    let f = WorkerFilter::new_name(StringFilterComparator::Like, "w".to_string())
        .and(WorkerFilter::new_version(FilterComparator::GreaterEqual, 3))
        .or(WorkerFilter::new_env(
            "region".to_string(),
            StringFilterComparator::NotEqual,
            "eu".to_string(),
        ))
        .not();
    assert_eq!(
        f.to_string(),
        "NOT (((name like w AND version >= 3) OR env.region != eu))"
    );
    assert_eq!(
        WorkerFilter::new_status(FilterComparator::Less, WorkerStatus::Failed).to_string(),
        "status == Failed"
    );
    assert_eq!(
        WorkerFilter::new_created_at(FilterComparator::Greater, Timestamp::from_millis(1704067200000))
            .to_string(),
        "created_at > 2024-01-01T00:00:00.000Z"
    );
    assert_eq!(WorkerFilter::new_and(vec![]).to_string(), "()");
}

#[test]
fn timestamp_text_forms() {
    assert_eq!(Timestamp::from_millis(0).to_string(), "1970-01-01T00:00:00.000Z");
    assert_eq!(Timestamp::from_millis(1704067200123).to_string(), "2024-01-01T00:00:00.123Z");
    assert_eq!(
        Timestamp::parse("2024-01-01T00:00:00.123Z").unwrap(),
        Timestamp::from_millis(1704067200123)
    );
    assert!(Timestamp::parse("not a time").is_err());
}

#[test]
fn event_text_forms() {
    let key = IdempotencyKey::new("key-1".to_string());
    assert_eq!(WorkerEvent::stdout(b"hello".to_vec()).to_string(), "<stdout> hello");
    assert_eq!(WorkerEvent::stderr(vec![0xff, 0xfe]).to_string(), "<stderr> ");
    assert_eq!(
        WorkerEvent::log(LogLevel::Warn, "ctx", "careful").to_string(),
        "<log> Warn ctx careful"
    );
    assert_eq!(
        WorkerEvent::invocation_start("f", &key).to_string(),
        "<invocation-start> f key-1"
    );
    assert_eq!(
        WorkerEvent::invocation_finished("f", &key).to_string(),
        "<invocation-finished> f key-1"
    );
    assert_eq!(WorkerEvent::Close.to_string(), "<close>");
}

#[test]
fn shard_assignment_text() {
    let a = ShardAssignment::new(8, vec![ShardId::new(1), ShardId::new(5)]);
    assert_eq!(a.to_string(), "{ number_of_shards: 8, shard_ids: <1>,<5> }");
    assert_eq!(
        ShardAssignment::new(8, vec![]).to_string(),
        "{ number_of_shards: 8, shard_ids:  }"
    );
}

#[test]
fn schedule_id_text() {
    let id = ScheduleId {
        timestamp: -5,
        action: ScheduledAction::CompletePromise {
            account_id: AccountId { value: "acc".to_string() },
            promise_id: PromiseId {
                worker_id: WorkerId {
                    component_id: ComponentId(1),
                    worker_name: "w".to_string(),
                },
                oplog_idx: OplogIndex::from_u64(7),
            },
        },
    };
    assert_eq!(
        id.to_string(),
        "complete[00000000-0000-0000-0000-000000000001/w/7]@-5"
    );
}

#[test]
fn scan_cursor_finished_only_at_zero() {
    for (text, finished) in [("0/0", true), ("7/0", true), ("0/1", false), ("2/99", false)] {
        let c = ScanCursor::parse(text).unwrap();
        assert_eq!(c.is_finished(), finished);
        assert_eq!(c.to_string(), text);
    }
}
