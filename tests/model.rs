use std::collections::HashSet;
use std::str::FromStr;
use std::time::SystemTime;

use golem_common::filter::{FilterComparator, StringFilterComparator, WorkerFilter};
use golem_common::idempotency::IdempotencyKey;
use golem_common::ids::{AccountId, ComponentId, OplogIndex, TargetWorkerId, WorkerId};
use golem_common::shard::ShardId;
use golem_common::status::{Timestamp, WorkerMetadata, WorkerStatus, WorkerStatusRecord};
use rand::{thread_rng, Rng};

#[test]
fn worker_filter_parse() {
    assert_eq!(
        WorkerFilter::from_str(" name =  worker-1").unwrap(),
        WorkerFilter::new_name(StringFilterComparator::Equal, "worker-1".to_string())
    );

    assert_eq!(
        WorkerFilter::from_str("status == Running").unwrap(),
        WorkerFilter::new_status(FilterComparator::Equal, WorkerStatus::Running)
    );

    assert_eq!(
        WorkerFilter::from_str("version >= 10").unwrap(),
        WorkerFilter::new_version(FilterComparator::GreaterEqual, 10)
    );

    assert_eq!(
        WorkerFilter::from_str("env.tag1 == abc ").unwrap(),
        WorkerFilter::new_env(
            "tag1".to_string(),
            StringFilterComparator::Equal,
            "abc".to_string(),
        )
    );
}

#[test]
fn worker_filter_combination() {
    assert_eq!(
        WorkerFilter::new_name(StringFilterComparator::Equal, "worker-1".to_string()).not(),
        WorkerFilter::new_not(WorkerFilter::new_name(
            StringFilterComparator::Equal,
            "worker-1".to_string(),
        ))
    );

    assert_eq!(
        WorkerFilter::new_name(StringFilterComparator::Equal, "worker-1".to_string()).and(
            WorkerFilter::new_status(FilterComparator::Equal, WorkerStatus::Running)
        ),
        WorkerFilter::new_and(vec![
            WorkerFilter::new_name(StringFilterComparator::Equal, "worker-1".to_string()),
            WorkerFilter::new_status(FilterComparator::Equal, WorkerStatus::Running),
        ])
    );

    assert_eq!(
        WorkerFilter::new_name(StringFilterComparator::Equal, "worker-1".to_string())
            .and(WorkerFilter::new_status(
                FilterComparator::Equal,
                WorkerStatus::Running,
            ))
            .and(WorkerFilter::new_version(FilterComparator::Equal, 1)),
        WorkerFilter::new_and(vec![
            WorkerFilter::new_name(StringFilterComparator::Equal, "worker-1".to_string()),
            WorkerFilter::new_status(FilterComparator::Equal, WorkerStatus::Running),
            WorkerFilter::new_version(FilterComparator::Equal, 1),
        ])
    );

    assert_eq!(
        WorkerFilter::new_name(StringFilterComparator::Equal, "worker-1".to_string()).or(
            WorkerFilter::new_status(FilterComparator::Equal, WorkerStatus::Running)
        ),
        WorkerFilter::new_or(vec![
            WorkerFilter::new_name(StringFilterComparator::Equal, "worker-1".to_string()),
            WorkerFilter::new_status(FilterComparator::Equal, WorkerStatus::Running),
        ])
    );

    assert_eq!(
        WorkerFilter::new_name(StringFilterComparator::Equal, "worker-1".to_string())
            .or(WorkerFilter::new_status(
                FilterComparator::NotEqual,
                WorkerStatus::Running,
            ))
            .or(WorkerFilter::new_version(FilterComparator::Equal, 1)),
        WorkerFilter::new_or(vec![
            WorkerFilter::new_name(StringFilterComparator::Equal, "worker-1".to_string()),
            WorkerFilter::new_status(FilterComparator::NotEqual, WorkerStatus::Running),
            WorkerFilter::new_version(FilterComparator::Equal, 1),
        ])
    );

    assert_eq!(
        WorkerFilter::new_name(StringFilterComparator::Equal, "worker-1".to_string())
            .and(WorkerFilter::new_status(
                FilterComparator::NotEqual,
                WorkerStatus::Running,
            ))
            .or(WorkerFilter::new_version(FilterComparator::Equal, 1)),
        WorkerFilter::new_or(vec![
            WorkerFilter::new_and(vec![
                WorkerFilter::new_name(StringFilterComparator::Equal, "worker-1".to_string()),
                WorkerFilter::new_status(FilterComparator::NotEqual, WorkerStatus::Running),
            ]),
            WorkerFilter::new_version(FilterComparator::Equal, 1),
        ])
    );

    assert_eq!(
        WorkerFilter::new_name(StringFilterComparator::Equal, "worker-1".to_string())
            .or(WorkerFilter::new_status(
                FilterComparator::NotEqual,
                WorkerStatus::Running,
            ))
            .and(WorkerFilter::new_version(FilterComparator::Equal, 1)),
        WorkerFilter::new_and(vec![
            WorkerFilter::new_or(vec![
                WorkerFilter::new_name(StringFilterComparator::Equal, "worker-1".to_string()),
                WorkerFilter::new_status(FilterComparator::NotEqual, WorkerStatus::Running),
            ]),
            WorkerFilter::new_version(FilterComparator::Equal, 1),
        ])
    );
}

#[test]
fn worker_filter_matches() {
    let component_id = ComponentId::new_v4();
    let worker_metadata = WorkerMetadata {
        worker_id: WorkerId {
            worker_name: "worker-1".to_string(),
            component_id,
        },
        args: vec![],
        env: vec![
            ("env1".to_string(), "value1".to_string()),
            ("env2".to_string(), "value2".to_string()),
        ],
        account_id: AccountId {
            value: "account-1".to_string(),
        },
        created_at: Timestamp::now_utc(),
        parent: None,
        last_known_status: WorkerStatusRecord {
            component_version: 1,
            ..WorkerStatusRecord::default()
        },
    };

    assert!(
        WorkerFilter::new_name(StringFilterComparator::Equal, "worker-1".to_string())
            .and(WorkerFilter::new_status(
                FilterComparator::Equal,
                WorkerStatus::Idle,
            ))
            .matches(&worker_metadata)
    );

    assert!(WorkerFilter::new_env(
        "env1".to_string(),
        StringFilterComparator::Equal,
        "value1".to_string(),
    )
    .and(WorkerFilter::new_status(
        FilterComparator::Equal,
        WorkerStatus::Idle,
    ))
    .matches(&worker_metadata));

    assert!(WorkerFilter::new_env(
        "env1".to_string(),
        StringFilterComparator::Equal,
        "value2".to_string(),
    )
    .not()
    .and(
        WorkerFilter::new_status(FilterComparator::Equal, WorkerStatus::Running).or(
            WorkerFilter::new_status(FilterComparator::Equal, WorkerStatus::Idle)
        )
    )
    .matches(&worker_metadata));

    assert!(
        WorkerFilter::new_name(StringFilterComparator::Equal, "worker-1".to_string())
            .and(WorkerFilter::new_version(FilterComparator::Equal, 1))
            .matches(&worker_metadata)
    );

    assert!(
        WorkerFilter::new_name(StringFilterComparator::Equal, "worker-2".to_string())
            .or(WorkerFilter::new_version(FilterComparator::Equal, 1))
            .matches(&worker_metadata)
    );

    assert!(WorkerFilter::new_version(FilterComparator::GreaterEqual, 1)
        .and(WorkerFilter::new_version(FilterComparator::Less, 2))
        .or(WorkerFilter::new_name(
            StringFilterComparator::Equal,
            "worker-2".to_string(),
        ))
        .matches(&worker_metadata));
}

#[test]
fn target_worker_id_force_shards() {
    let mut rng = thread_rng();
    const SHARD_COUNT: usize = 1000;
    const EXAMPLE_COUNT: usize = 1000;
    for _ in 0..EXAMPLE_COUNT {
        let mut shard_ids = HashSet::new();
        let count = rng.gen_range(0..100);
        for _ in 0..count {
            let shard_id = rng.gen_range(0..SHARD_COUNT);
            shard_ids.insert(ShardId::new(shard_id as i64));
        }
        let force_in_shard: Vec<ShardId> = shard_ids.iter().copied().collect();

        let component_id = ComponentId::new_v4();
        let target_worker_id = TargetWorkerId {
            component_id,
            worker_name: None,
        };

        let start = SystemTime::now();
        let worker_id = target_worker_id.into_worker_id(&force_in_shard, SHARD_COUNT);
        let end = SystemTime::now();
        println!(
            "Time with {count} valid shards: {:?}",
            end.duration_since(start).unwrap()
        );

        if !shard_ids.is_empty() {
            assert!(shard_ids.contains(&ShardId::from_worker_id(&worker_id, SHARD_COUNT)));
        }
    }
}

#[test]
fn derived_idempotency_key() {
    let base1 = IdempotencyKey::fresh();
    let base2 = IdempotencyKey::fresh();
    let base3 = IdempotencyKey {
        value: "base3".to_string(),
    };

    assert_ne!(base1, base2);

    let idx1 = OplogIndex::from_u64(2);
    let idx2 = OplogIndex::from_u64(11);

    let derived11a = IdempotencyKey::derived(&base1, idx1);
    let derived12a = IdempotencyKey::derived(&base1, idx2);
    let derived21a = IdempotencyKey::derived(&base2, idx1);
    let derived22a = IdempotencyKey::derived(&base2, idx2);

    let derived11b = IdempotencyKey::derived(&base1, idx1);
    let derived12b = IdempotencyKey::derived(&base1, idx2);
    let derived21b = IdempotencyKey::derived(&base2, idx1);
    let derived22b = IdempotencyKey::derived(&base2, idx2);

    let derived31 = IdempotencyKey::derived(&base3, idx1);
    let derived32 = IdempotencyKey::derived(&base3, idx2);

    assert_eq!(derived11a, derived11b);
    assert_eq!(derived12a, derived12b);
    assert_eq!(derived21a, derived21b);
    assert_eq!(derived22a, derived22b);

    assert_ne!(derived11a, derived12a);
    assert_ne!(derived11a, derived21a);
    assert_ne!(derived11a, derived22a);
    assert_ne!(derived12a, derived21a);
    assert_ne!(derived12a, derived22a);
    assert_ne!(derived21a, derived22a);

    assert_ne!(derived11a, derived31);
    assert_ne!(derived21a, derived31);
    assert_ne!(derived12a, derived32);
    assert_ne!(derived22a, derived32);
    assert_ne!(derived31, derived32);
}
