use golem_common::cursor::ScanCursor;
use golem_common::events::{ComponentType, RibInputTypeMismatch};
use golem_common::filter::{
    FilterComparator, StringFilterComparator, WorkerAndFilter, WorkerFilter, WorkerOrFilter,
};
use golem_common::idempotency::IdempotencyKey;
use golem_common::ids::{
    AccountId, ComponentId, OplogIndex, OwnedWorkerId, PromiseId, TargetWorkerId, WorkerId,
};
use golem_common::schedule::ScheduledAction;
use golem_common::shard::{Pod, RoutingTable, RoutingTableEntry, ShardAssignment, ShardId};
use golem_common::status::{Timestamp, WorkerMetadata, WorkerStatus, WorkerStatusRecord};

const SAMPLE_UUID: u128 = 0xa1a2a3a4b1b2c1c2d1d2d3d4d5d6d7d8;

fn worker(component: u128, name: &str) -> WorkerId {
    WorkerId {
        component_id: ComponentId(component),
        worker_name: name.to_string(),
    }
}

fn metadata(env: Vec<(&str, &str)>) -> WorkerMetadata {
    WorkerMetadata {
        worker_id: worker(SAMPLE_UUID, "worker-1"),
        args: vec![],
        env: env
            .into_iter()
            .map(|(k, v)| (k.to_string(), v.to_string()))
            .collect(),
        account_id: AccountId {
            value: "account-1".to_string(),
        },
        created_at: Timestamp::from_millis(1_000),
        parent: None,
        last_known_status: WorkerStatusRecord {
            component_version: 3,
            ..WorkerStatusRecord::default()
        },
    }
}

#[test]
fn shard_hash_exact_values() {
    assert_eq!(ShardId::hash_worker_id(&worker(0, "a")), 206158431793);
    assert_eq!(ShardId::from_worker_id(&worker(0, "a"), 10), ShardId::new(3));
    assert_eq!(
        ShardId::hash_worker_id(&worker(SAMPLE_UUID, "worker-1")),
        -2884367955416155923
    );
    assert_eq!(
        ShardId::from_worker_id(&worker(SAMPLE_UUID, "worker-1"), 1000),
        ShardId::new(923)
    );
}

#[test]
fn shard_in_range_and_stable() {
    for n in [1usize, 2, 7, 1000] {
        for i in 0..50u128 {
            let w = worker(SAMPLE_UUID.wrapping_mul(i + 1), &format!("w{i}"));
            let s1 = ShardId::from_worker_id(&w, n);
            let s2 = ShardId::from_worker_id(&w.clone(), n);
            assert_eq!(s1, s2);
            assert!(s1.value >= 0 && (s1.value as usize) < n);
        }
    }
}

#[test]
fn shard_neighbors_and_text() {
    assert!(ShardId::new(3).is_left_neighbor(&ShardId::new(4)));
    assert!(!ShardId::new(4).is_left_neighbor(&ShardId::new(3)));
    assert!(!ShardId::new(i64::MAX).is_left_neighbor(&ShardId::new(i64::MIN)));
    assert_eq!(ShardId::new(-12).to_string(), "<-12>");
}

#[test]
fn named_target_keeps_its_name() {
    let t = TargetWorkerId {
        component_id: ComponentId(SAMPLE_UUID),
        worker_name: Some("w".to_string()),
    };
    let w = t.into_worker_id(&vec![ShardId::new(0)], 1000);
    assert_eq!(w, worker(SAMPLE_UUID, "w"));
}

#[test]
fn unnamed_target_gets_uuid_name() {
    let t = TargetWorkerId {
        component_id: ComponentId(SAMPLE_UUID),
        worker_name: None,
    };
    let w = t.into_worker_id(&vec![], 0);
    assert_eq!(w.component_id, ComponentId(SAMPLE_UUID));
    assert_eq!(w.worker_name.len(), 36);
}

#[test]
fn seeded_probe_is_first_landing() {
    let t = TargetWorkerId {
        component_id: ComponentId(SAMPLE_UUID),
        worker_name: None,
    };
    let shards = vec![ShardId::new(5)];
    let w = t
        .clone()
        .into_worker_id_seeded(&shards, 10, 77)
        .unwrap();
    assert_eq!(ShardId::from_worker_id(&w, 10), ShardId::new(5));
    let w2 = t.into_worker_id_seeded(&shards, 10, 77).unwrap();
    assert_eq!(w, w2);
    let none_needed = TargetWorkerId {
        component_id: ComponentId(SAMPLE_UUID),
        worker_name: None,
    }
    .into_worker_id_seeded(&vec![], 10, 0)
    .unwrap();
    assert_eq!(none_needed.worker_name, "00000000-0000-0000-0000-000000000000");
}

#[test]
fn routing_table_end_to_end() {
    let pod_a = Pod::new("pod-a".to_string(), 9000);
    let pod_b = Pod::new("pod-b".to_string(), 9001);
    let table = RoutingTable::new(
        2,
        vec![
            RoutingTableEntry::new(ShardId::new(0), pod_a.clone()),
            RoutingTableEntry::new(ShardId::new(1), pod_b.clone()),
        ],
    );
    let mut found_zero = false;
    let mut found_one = false;
    for i in 0..100 {
        let w = worker(SAMPLE_UUID, &format!("worker-{i}"));
        match ShardId::from_worker_id(&w, 2).value {
            0 => {
                assert_eq!(table.lookup(&w), Some(&pod_a));
                found_zero = true;
            }
            _ => {
                assert_eq!(table.lookup(&w), Some(&pod_b));
                found_one = true;
            }
        }
    }
    assert!(found_zero && found_one);
    let all = table.all();
    assert_eq!(all.len(), 2);
    assert!(all.contains(&&pod_a) && all.contains(&&pod_b));
    let r = table.random().unwrap();
    assert!(*r == pod_a || *r == pod_b);
    assert!(table.first().is_some());
}

#[test]
fn routing_table_gaps_and_overrides() {
    let pod_a = Pod::new("pod-a".to_string(), 1);
    let pod_b = Pod::new("pod-b".to_string(), 2);
    let table = RoutingTable::new(
        1,
        vec![
            RoutingTableEntry::new(ShardId::new(0), pod_a.clone()),
            RoutingTableEntry::new(ShardId::new(0), pod_b.clone()),
        ],
    );
    assert_eq!(table.lookup(&worker(1, "x")), Some(&pod_b));
    assert_eq!(table.all(), vec![&pod_b]);
    let empty = RoutingTable::new(4, vec![]);
    assert_eq!(empty.lookup(&worker(1, "x")), None);
    assert_eq!(empty.first(), None);
    assert_eq!(empty.random(), None);
    assert!(empty.all().is_empty());
    let no_shards = RoutingTable::new(0, vec![RoutingTableEntry::new(ShardId::new(0), pod_a)]);
    assert_eq!(no_shards.lookup(&worker(1, "x")), None);
    assert_eq!(Pod::new("host".to_string(), 8080).authority(), "host:8080");
}

#[test]
fn shard_assignment_updates() {
    let mut a = ShardAssignment::new(10, vec![ShardId::new(1), ShardId::new(2)]);
    a.assign_shards(&vec![ShardId::new(2), ShardId::new(3)]);
    assert_eq!(a.shard_ids, vec![ShardId::new(1), ShardId::new(2), ShardId::new(3)]);
    a.revoke_shards(&vec![ShardId::new(1), ShardId::new(9)]);
    assert_eq!(a.shard_ids, vec![ShardId::new(2), ShardId::new(3)]);
    a.register(20, &vec![ShardId::new(4)]);
    assert_eq!(a.number_of_shards, 20);
    assert_eq!(a.shard_ids, vec![ShardId::new(2), ShardId::new(3), ShardId::new(4)]);
}

#[test]
fn derived_key_is_reproducible_uuid() {
    let base = IdempotencyKey::new("9c19b15a-c83d-46f7-9bc3-ead7923733f4".to_string());
    let k1 = IdempotencyKey::derived(&base, OplogIndex::from_u64(5));
    let k2 = IdempotencyKey::derived(&base.clone(), OplogIndex::from_u64(5));
    assert_eq!(k1, k2);
    assert_ne!(k1, base);
    assert_eq!(k1.value.len(), 36);
    assert!(uuid::Uuid::parse_str(&k1.value).is_ok());
    assert_eq!(
        IdempotencyKey::index_name(OplogIndex::from_u64(42)),
        "oplog-index-42"
    );
    let other = IdempotencyKey::derived(&IdempotencyKey::new("x".to_string()), OplogIndex::from_u64(5));
    assert_ne!(other, k1);
}

#[test]
fn filter_parse_more_fields() {
    assert_eq!(
        WorkerFilter::parse("created_at > 2024-01-01T00:00:00Z").unwrap(),
        WorkerFilter::new_created_at(FilterComparator::Greater, Timestamp::from_millis(1704067200000))
    );
    assert_eq!(
        WorkerFilter::parse("name LIKE work").unwrap(),
        WorkerFilter::new_name(StringFilterComparator::Like, "work".to_string())
    );
    assert_eq!(
        WorkerFilter::parse("status lt IDLE").unwrap(),
        WorkerFilter::new_status(FilterComparator::Less, WorkerStatus::Idle)
    );
    assert!(WorkerFilter::parse("name = a b").is_err());
    assert!(WorkerFilter::parse("size = 3").is_err());
    assert!(WorkerFilter::parse("version = x").is_err());
    assert!(WorkerFilter::parse("version ~ 3").is_err());
    assert!(WorkerFilter::parse("status = Sleeping").is_err());
    assert!(WorkerFilter::parse("created_at = yesterday").is_err());
    assert!(WorkerFilter::parse("").is_err());
    let all = WorkerFilter::from(vec!["name = a".to_string(), "version > 1".to_string()]).unwrap();
    assert_eq!(
        all,
        WorkerFilter::new_and(vec![
            WorkerFilter::new_name(StringFilterComparator::Equal, "a".to_string()),
            WorkerFilter::new_version(FilterComparator::Greater, 1),
        ])
    );
    assert!(WorkerFilter::from(vec!["name = a".to_string(), "bad".to_string()]).is_err());
}

#[test]
fn filter_matches_empty_combinations_and_env() {
    let m = metadata(vec![("Tag", "first"), ("tag", "second")]);
    assert!(WorkerFilter::And(WorkerAndFilter::new(vec![])).matches(&m));
    assert!(!WorkerFilter::Or(WorkerOrFilter::new(vec![])).matches(&m));
    let env_first = WorkerFilter::new_env(
        "TAG".to_string(),
        StringFilterComparator::Equal,
        "first".to_string(),
    );
    let env_second = WorkerFilter::new_env(
        "tag".to_string(),
        StringFilterComparator::Equal,
        "second".to_string(),
    );
    assert!(env_first.matches(&m));
    assert!(!env_second.matches(&m));
    let missing = WorkerFilter::new_env(
        "other".to_string(),
        StringFilterComparator::NotEqual,
        "x".to_string(),
    );
    assert!(!missing.matches(&m));
}

#[test]
fn filter_comparators() {
    let m = metadata(vec![]);
    let like = WorkerFilter::new_name(StringFilterComparator::Like, "ker-".to_string());
    let not_like = WorkerFilter::new_name(StringFilterComparator::NotLike, "ker-".to_string());
    assert!(like.matches(&m));
    assert!(!not_like.matches(&m));
    assert!(WorkerFilter::new_version(FilterComparator::Greater, 2).matches(&m));
    assert!(!WorkerFilter::new_version(FilterComparator::Less, 3).matches(&m));
    assert!(WorkerFilter::new_status(FilterComparator::Greater, WorkerStatus::Running).matches(&m));
    assert!(WorkerFilter::new_created_at(FilterComparator::LessEqual, Timestamp::from_millis(1_000)).matches(&m));
    assert!(StringFilterComparator::parse("NotLike").unwrap() == StringFilterComparator::NotLike);
    assert!(StringFilterComparator::parse("<").is_err());
    assert_eq!(FilterComparator::parse("GE").unwrap(), FilterComparator::GreaterEqual);
    assert_eq!(FilterComparator::GreaterEqual.to_string(), ">=");
    assert_eq!(StringFilterComparator::NotLike.to_string(), "notlike");
}

#[test]
fn scan_cursor_text() {
    let done = ScanCursor::parse("0/0").unwrap();
    assert!(done.is_finished());
    let c = ScanCursor::parse("3/17").unwrap();
    assert_eq!(c, ScanCursor { cursor: 17, layer: 3 });
    assert!(!c.is_finished());
    assert_eq!(ScanCursor::parse(&c.to_string()).unwrap(), c);
    assert_eq!(ScanCursor::parse("+1/+2").unwrap(), ScanCursor { cursor: 2, layer: 1 });
    assert!(ScanCursor::parse("1/").is_err());
    assert!(ScanCursor::parse("1/2/3").is_err());
    assert!(ScanCursor::parse("x/2").is_err());
    assert!(ScanCursor::parse("1/18446744073709551616").is_err());
    assert_eq!(
        ScanCursor::parse("1-2").unwrap_err(),
        "Invalid cursor, must have 'layer/cursor' format"
    );
    assert_eq!(
        ScanCursor::parse("a/2").unwrap_err(),
        "Invalid layer part: invalid digit found in string"
    );
}

#[test]
fn identity_texts() {
    let w = worker(SAMPLE_UUID, "worker-1");
    assert_eq!(ComponentId(SAMPLE_UUID).to_string(), "a1a2a3a4-b1b2-c1c2-d1d2-d3d4d5d6d7d8");
    assert_eq!(w.to_redis_key(), "a1a2a3a4-b1b2-c1c2-d1d2-d3d4d5d6d7d8:worker-1");
    assert_eq!(w.to_string(), "a1a2a3a4-b1b2-c1c2-d1d2-d3d4d5d6d7d8/worker-1");
    assert_eq!(w.uri(), "urn:worker:a1a2a3a4-b1b2-c1c2-d1d2-d3d4d5d6d7d8/worker-1");
    let t = TargetWorkerId {
        component_id: ComponentId(SAMPLE_UUID),
        worker_name: None,
    };
    assert_eq!(t.to_string(), "a1a2a3a4-b1b2-c1c2-d1d2-d3d4d5d6d7d8/*");
    assert_eq!(t.try_into_worker_id(), None);
    let p = PromiseId {
        worker_id: w.clone(),
        oplog_idx: OplogIndex::from_u64(12),
    };
    assert_eq!(p.to_redis_key(), "a1a2a3a4-b1b2-c1c2-d1d2-d3d4d5d6d7d8:worker-1:12");
    assert_eq!(p.to_string(), "a1a2a3a4-b1b2-c1c2-d1d2-d3d4d5d6d7d8/worker-1/12");
    let owned = OwnedWorkerId::new(&AccountId { value: "acc".to_string() }, &w);
    assert_eq!(owned.to_string(), "acc/a1a2a3a4-b1b2-c1c2-d1d2-d3d4d5d6d7d8/worker-1");
    assert_eq!(owned.worker_name(), "worker-1");
    assert_eq!(owned.component_id(), ComponentId(SAMPLE_UUID));
}

#[test]
fn worker_id_parsing() {
    let w = WorkerId::parse("a1a2a3a4-b1b2-c1c2-d1d2-d3d4d5d6d7d8:worker-1").unwrap();
    assert_eq!(w, worker(SAMPLE_UUID, "worker-1"));
    assert!(WorkerId::parse("not-a-uuid:worker-1")
        .unwrap_err()
        .starts_with("invalid component id"));
    assert!(WorkerId::parse("a1a2a3a4-b1b2-c1c2-d1d2-d3d4d5d6d7d8:a:b")
        .unwrap_err()
        .starts_with("invalid worker id"));
    assert!(WorkerId::parse("no-colon").is_err());
}

#[test]
fn worker_status_words() {
    assert_eq!(WorkerStatus::parse("RETRYING").unwrap(), WorkerStatus::Retrying);
    assert!(WorkerStatus::parse("sleeping").is_err());
    assert_eq!(WorkerStatus::Exited.to_i32(), 6);
    assert_eq!(WorkerStatus::try_from_i32(2).unwrap(), WorkerStatus::Suspended);
    assert!(WorkerStatus::try_from_i32(7).is_err());
    assert_eq!(WorkerStatus::Interrupted.to_string(), "Interrupted");
    let d = WorkerStatusRecord::default();
    assert_eq!(d.status, WorkerStatus::Idle);
    assert_eq!(d.oplog_idx, OplogIndex::from_u64(0));
    assert!(d.pending_invocations.is_empty());
}

#[test]
fn scheduled_archive_decisions() {
    let owned = OwnedWorkerId::new(
        &AccountId { value: "acc".to_string() },
        &worker(SAMPLE_UUID, "w"),
    );
    let action = ScheduledAction::ArchiveOplog {
        owned_worker_id: owned.clone(),
        last_oplog_index: OplogIndex::from_u64(10),
        next_after: 500,
    };
    assert!(action.archives_now(OplogIndex::from_u64(10)));
    assert!(!action.archives_now(OplogIndex::from_u64(11)));
    let next = action.next_archive(true, OplogIndex::from_u64(12), 1_000).unwrap();
    assert_eq!(next.timestamp, 1_500);
    assert_eq!(
        next.action,
        ScheduledAction::ArchiveOplog {
            owned_worker_id: owned.clone(),
            last_oplog_index: OplogIndex::from_u64(12),
            next_after: 500,
        }
    );
    assert!(action.next_archive(false, OplogIndex::from_u64(12), 1_000).is_none());
    assert_eq!(action.owned_worker_id(), owned);
    assert_eq!(action.to_string(), "archive[acc/a1a2a3a4-b1b2-c1c2-d1d2-d3d4d5d6d7d8/w]");
    let complete = ScheduledAction::CompletePromise {
        account_id: AccountId { value: "acc".to_string() },
        promise_id: PromiseId {
            worker_id: worker(SAMPLE_UUID, "w"),
            oplog_idx: OplogIndex::from_u64(3),
        },
    };
    assert!(!complete.archives_now(OplogIndex::from_u64(3)));
    assert_eq!(complete.owned_worker_id(), owned);
    assert_eq!(complete.to_string(), "complete[a1a2a3a4-b1b2-c1c2-d1d2-d3d4d5d6d7d8/w/3]");
}

#[test]
fn small_types() {
    assert_eq!(ComponentType::parse("Durable").unwrap(), ComponentType::Durable);
    assert!(ComponentType::parse("durable").is_err());
    assert_eq!(ComponentType::try_from_i32(1).unwrap(), ComponentType::Ephemeral);
    assert!(ComponentType::try_from_i32(2).is_err());
    assert_eq!(
        RibInputTypeMismatch("bad".to_string()).to_string(),
        "Rib input type mismatch: bad"
    );
    assert!(Timestamp::now_utc().to_millis() > 1_600_000_000_000);
    assert_eq!(Timestamp::from_millis(-1).to_millis(), u64::MAX);
    assert_eq!(AccountId::generate().value.len(), 36);
}
