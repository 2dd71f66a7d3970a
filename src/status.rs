//! Timestamps, worker status, and the cached status record that is valid
//! only together with the log position it was computed at.
use vstd::prelude::*;
use vstd::string::*;
use crate::idempotency::IdempotencyKey;
use crate::ids::{AccountId, OplogIndex, OwnedWorkerId, WorkerId};
use crate::text::{lower_of, to_lower};

verus! {

/// A point in time: milliseconds since the Unix epoch (the 8-byte signed
/// offset that persisted records hold).
#[derive(Clone, Copy, Debug, PartialEq, Eq, Hash, PartialOrd, Ord, Structural)]
pub struct Timestamp {
    pub millis: i64,
}

/// What `iso8601_timestamp::Timestamp::parse` reads from a text, as
/// milliseconds since the epoch.
pub uninterp spec fn iso8601_millis(s: Seq<char>) -> Option<i64>;

/// Relies on `iso8601_timestamp::Timestamp::now_utc`, which panics before the
/// epoch, and `duration_since(UNIX_EPOCH)`: the current time.
#[verifier::external_body]
fn now_millis() -> (r: i64)
    ensures
        r >= 0,
{
    iso8601_timestamp::Timestamp::now_utc().duration_since(
        iso8601_timestamp::Timestamp::UNIX_EPOCH,
    ).whole_milliseconds() as i64
}

/// Relies on `iso8601_timestamp::Timestamp::parse` (any ISO 8601 text, offsets
/// applied) and `duration_since(UNIX_EPOCH)`.
#[verifier::external_body]
fn parse_iso8601(s: &str) -> (r: Option<i64>)
    ensures
        r == iso8601_millis(s@),
{
    match iso8601_timestamp::Timestamp::parse(s) {
        Some(ts) => Some(
            ts.duration_since(iso8601_timestamp::Timestamp::UNIX_EPOCH).whole_milliseconds() as i64,
        ),
        None => None,
    }
}

/// The ISO 8601 text (UTC, millisecond precision) of a time given in
/// milliseconds since the epoch, where the time can be represented.
pub uninterp spec fn iso8601_text(millis: i64) -> Option<Seq<char>>;

/// Relies on `iso8601_timestamp::Timestamp::checked_add` from `UNIX_EPOCH`
/// (`None` where the time is out of range) and the crate's `Display`.
#[verifier::external_body]
fn format_iso8601(millis: i64) -> (r: Option<String>)
    ensures
        match r {
            Some(t) => iso8601_text(millis) == Some(t@),
            None => iso8601_text(millis) is None,
        },
{
    match iso8601_timestamp::Timestamp::UNIX_EPOCH.checked_add(
        iso8601_timestamp::Duration::milliseconds(millis),
    ) {
        Some(ts) => Some(ts.to_string()),
        None => None,
    }
}

/// The text of a time: its ISO 8601 form, or the number of milliseconds
/// where no such form exists.
pub open spec fn timestamp_text(millis: i64) -> Seq<char> {
    match iso8601_text(millis) {
        Some(t) => t,
        None => crate::text::signed_decimal(millis as int),
    }
}

impl Timestamp {
    /// The time's ISO 8601 text.
    pub fn to_string(&self) -> (r: String)
        ensures
            r@ == timestamp_text(self.millis),
    {
        match format_iso8601(self.millis) {
            Some(t) => t,
            None => {
                let mut s = String::new();
                crate::text::push_signed_decimal(&mut s, self.millis);
                assert(s@ == Seq::<char>::empty() + crate::text::signed_decimal(self.millis as int));
                s
            },
        }
    }

    /// The current time.
    pub fn now_utc() -> (r: Timestamp)
        ensures
            r.millis >= 0,
    {
        Timestamp { millis: now_millis() }
    }

    pub fn from_millis(millis: i64) -> (r: Timestamp)
        ensures
            r.millis == millis,
    {
        Timestamp { millis }
    }

    /// Milliseconds since the epoch, as an unsigned number.
    pub fn to_millis(&self) -> (r: u64)
        ensures
            r == self.millis as u64,
    {
        self.millis as u64
    }

    /// Reads an ISO 8601 timestamp.
    pub fn parse(s: &str) -> (r: Result<Timestamp, String>)
        ensures
            match iso8601_millis(s@) {
                Some(m) => r == Ok::<Timestamp, String>(Timestamp { millis: m }),
                None => r is Err,
            },
    {
        match parse_iso8601(s) {
            Some(millis) => Ok(Timestamp { millis }),
            None => Err(String::from_str("Invalid timestamp")),
        }
    }
}

impl std::str::FromStr for Timestamp {
    type Err = String;

    fn from_str(s: &str) -> Result<Timestamp, String> {
        Timestamp::parse(s)
    }
}

/// The last known status of a worker.
#[derive(Clone, Copy, Debug, PartialEq, Eq, Hash, PartialOrd, Ord, Structural)]
pub enum WorkerStatus {
    /// The worker is running an invoked function
    Running,
    /// The worker is ready to run an invoked function
    Idle,
    /// An invocation is active but waiting for something (sleeping, waiting for a promise)
    Suspended,
    /// The last invocation was interrupted but will be resumed
    Interrupted,
    /// The last invocation failed and a retry was scheduled
    Retrying,
    /// The last invocation failed and the worker can no longer be used
    Failed,
    /// The worker exited after a successful invocation and can no longer be invoked
    Exited,
}

/// The position of a status in the order
/// `Running < Idle < Suspended < Interrupted < Retrying < Failed < Exited`.
pub open spec fn status_rank(s: WorkerStatus) -> int {
    match s {
        WorkerStatus::Running => 0,
        WorkerStatus::Idle => 1,
        WorkerStatus::Suspended => 2,
        WorkerStatus::Interrupted => 3,
        WorkerStatus::Retrying => 4,
        WorkerStatus::Failed => 5,
        WorkerStatus::Exited => 6,
    }
}

/// The status that a lower-case word names.
pub open spec fn status_word(t: Seq<char>) -> Option<WorkerStatus> {
    if t == "running"@ {
        Some(WorkerStatus::Running)
    } else if t == "idle"@ {
        Some(WorkerStatus::Idle)
    } else if t == "suspended"@ {
        Some(WorkerStatus::Suspended)
    } else if t == "interrupted"@ {
        Some(WorkerStatus::Interrupted)
    } else if t == "retrying"@ {
        Some(WorkerStatus::Retrying)
    } else if t == "failed"@ {
        Some(WorkerStatus::Failed)
    } else if t == "exited"@ {
        Some(WorkerStatus::Exited)
    } else {
        None
    }
}

/// The name of a status.
pub open spec fn status_name(s: WorkerStatus) -> Seq<char> {
    match s {
        WorkerStatus::Running => "Running"@,
        WorkerStatus::Idle => "Idle"@,
        WorkerStatus::Suspended => "Suspended"@,
        WorkerStatus::Interrupted => "Interrupted"@,
        WorkerStatus::Retrying => "Retrying"@,
        WorkerStatus::Failed => "Failed"@,
        WorkerStatus::Exited => "Exited"@,
    }
}

impl WorkerStatus {
    /// The status's number on the wire, which is also its rank.
    pub fn to_i32(&self) -> (r: i32)
        ensures
            r == status_rank(*self),
    {
        match self {
            WorkerStatus::Running => 0,
            WorkerStatus::Idle => 1,
            WorkerStatus::Suspended => 2,
            WorkerStatus::Interrupted => 3,
            WorkerStatus::Retrying => 4,
            WorkerStatus::Failed => 5,
            WorkerStatus::Exited => 6,
        }
    }

    /// The status with the wire number `value`.
    pub fn try_from_i32(value: i32) -> (r: Result<WorkerStatus, String>)
        ensures
            r is Ok <==> 0 <= value <= 6,
            r is Ok ==> status_rank(r->Ok_0) == value,
    {
        match value {
            0 => Ok(WorkerStatus::Running),
            1 => Ok(WorkerStatus::Idle),
            2 => Ok(WorkerStatus::Suspended),
            3 => Ok(WorkerStatus::Interrupted),
            4 => Ok(WorkerStatus::Retrying),
            5 => Ok(WorkerStatus::Failed),
            6 => Ok(WorkerStatus::Exited),
            _ => Err(String::from_str("Unknown worker status")),
        }
    }

    /// The status that the lower-case word `t` names.
    pub fn from_lowercase(t: &str) -> (r: Option<WorkerStatus>)
        ensures
            r == status_word(t@),
    {
        let cs = crate::text::chars_of(t);
        if crate::text::chars_eq_str(&cs, "running") {
            Some(WorkerStatus::Running)
        } else if crate::text::chars_eq_str(&cs, "idle") {
            Some(WorkerStatus::Idle)
        } else if crate::text::chars_eq_str(&cs, "suspended") {
            Some(WorkerStatus::Suspended)
        } else if crate::text::chars_eq_str(&cs, "interrupted") {
            Some(WorkerStatus::Interrupted)
        } else if crate::text::chars_eq_str(&cs, "retrying") {
            Some(WorkerStatus::Retrying)
        } else if crate::text::chars_eq_str(&cs, "failed") {
            Some(WorkerStatus::Failed)
        } else if crate::text::chars_eq_str(&cs, "exited") {
            Some(WorkerStatus::Exited)
        } else {
            None
        }
    }

    /// Reads a status name in any letter case.
    pub fn parse(s: &str) -> (r: Result<WorkerStatus, String>)
        ensures
            match status_word(lower_of(s@)) {
                Some(st) => r == Ok::<WorkerStatus, String>(st),
                None => r is Err,
            },
    {
        let lower = to_lower(s);
        match Self::from_lowercase(lower.as_str()) {
            Some(st) => Ok(st),
            None => {
                let mut e = String::from_str("Unknown worker status: ");
                e.append(s);
                Err(e)
            },
        }
    }

    /// The status's name.
    pub fn to_string(&self) -> (r: String)
        ensures
            r@ == status_name(*self),
    {
        let r = match self {
            WorkerStatus::Running => String::from_str("Running"),
            WorkerStatus::Idle => String::from_str("Idle"),
            WorkerStatus::Suspended => String::from_str("Suspended"),
            WorkerStatus::Interrupted => String::from_str("Interrupted"),
            WorkerStatus::Retrying => String::from_str("Retrying"),
            WorkerStatus::Failed => String::from_str("Failed"),
            WorkerStatus::Exited => String::from_str("Exited"),
        };
        r
    }
}

impl std::str::FromStr for WorkerStatus {
    type Err = String;

    fn from_str(s: &str) -> Result<WorkerStatus, String> {
        WorkerStatus::parse(s)
    }
}

/// A range of log positions, both ends included.
#[derive(Clone, Copy, Debug, PartialEq, Eq, Hash, Structural)]
pub struct OplogRegion {
    pub start: OplogIndex,
    pub end: OplogIndex,
}

/// The log regions that are logically deleted.
#[derive(Clone, Debug, PartialEq, Eq)]
pub struct DeletedRegions {
    pub regions: Vec<OplogRegion>,
}

impl DeletedRegions {
    pub fn new() -> (r: DeletedRegions)
        ensures
            r.regions@.len() == 0,
    {
        DeletedRegions { regions: Vec::new() }
    }
}

/// An override of the retry policy: how many attempts, and the bounds of the
/// delay between them.
#[derive(Clone, Copy, Debug, PartialEq, Eq, Structural)]
pub struct RetryConfig {
    pub max_attempts: u32,
    pub min_delay_millis: u64,
    pub max_delay_millis: u64,
}

/// How a pending component update is carried out.
#[derive(Clone, Debug, PartialEq, Eq)]
pub enum UpdateDescription {
    /// The worker's log is replayed on the new version.
    Automatic { target_version: u64 },
    /// The worker is restored on the new version from a saved snapshot.
    SnapshotBased { target_version: u64, payload: Vec<u8> },
}

#[derive(Clone, Debug, PartialEq, Eq)]
pub struct TimestampedUpdateDescription {
    pub timestamp: Timestamp,
    pub oplog_index: OplogIndex,
    pub description: UpdateDescription,
}

#[derive(Clone, Debug, PartialEq, Eq)]
pub struct FailedUpdateRecord {
    pub timestamp: Timestamp,
    pub target_version: u64,
    pub details: Option<String>,
}

#[derive(Clone, Copy, Debug, PartialEq, Eq, Structural)]
pub struct SuccessfulUpdateRecord {
    pub timestamp: Timestamp,
    pub target_version: u64,
}

/// Identifies a resource that a worker owns.
#[derive(Clone, Copy, Debug, PartialEq, Eq, Hash, PartialOrd, Ord, Structural)]
pub struct WorkerResourceId(pub u64);

/// The name and parameters under which an indexed resource was created.
#[derive(Clone, Debug, PartialEq, Eq, Hash)]
pub struct IndexedResourceKey {
    pub resource_name: String,
    pub resource_params: Vec<String>,
}

#[derive(Clone, Debug, PartialEq, Eq)]
pub struct WorkerResourceDescription {
    pub created_at: Timestamp,
    pub indexed_resource_key: Option<IndexedResourceKey>,
}

/// A pending invocation of a worker.
#[derive(Clone, Debug, PartialEq, Eq)]
pub enum WorkerInvocation {
    /// A call of an exported function, with its encoded arguments.
    ExportedFunction {
        idempotency_key: IdempotencyKey,
        full_function_name: String,
        function_input: Vec<Vec<u8>>,
    },
    /// A requested update to another component version.
    ManualUpdate { target_version: u64 },
}

impl WorkerInvocation {
    /// Whether this is a call made under the idempotency key `key`.
    pub fn is_idempotency_key(&self, key: &IdempotencyKey) -> (r: bool)
        ensures
            r == match self {
                WorkerInvocation::ExportedFunction { idempotency_key, .. } => idempotency_key.value@
                    == key.value@,
                _ => false,
            },
    {
        match self {
            WorkerInvocation::ExportedFunction { idempotency_key, .. } => idempotency_key.value
                == key.value,
            _ => false,
        }
    }

    /// The idempotency key of a call.
    pub fn idempotency_key(&self) -> (r: Option<&IdempotencyKey>)
        ensures
            match self {
                WorkerInvocation::ExportedFunction { idempotency_key, .. } => r == Some(
                    idempotency_key,
                ),
                _ => r is None,
            },
    {
        match self {
            WorkerInvocation::ExportedFunction { idempotency_key, .. } => Some(idempotency_key),
            _ => None,
        }
    }
}

#[derive(Clone, Debug, PartialEq, Eq)]
pub struct TimestampedWorkerInvocation {
    pub timestamp: Timestamp,
    pub invocation: WorkerInvocation,
}

/// What is known of a worker as of the log position `oplog_idx`. Every field
/// can be computed from the log alone; entries after `oplog_idx` must be
/// replayed on top of it to get the current state.
#[derive(Clone, Debug, PartialEq)]
pub struct WorkerStatusRecord {
    pub status: WorkerStatus,
    pub deleted_regions: DeletedRegions,
    pub overridden_retry_config: Option<RetryConfig>,
    pub pending_invocations: Vec<TimestampedWorkerInvocation>,
    pub pending_updates: std::collections::VecDeque<TimestampedUpdateDescription>,
    pub failed_updates: Vec<FailedUpdateRecord>,
    pub successful_updates: Vec<SuccessfulUpdateRecord>,
    /// The results of completed invocations, by idempotency key; each key once.
    pub invocation_results: Vec<(IdempotencyKey, OplogIndex)>,
    pub current_idempotency_key: Option<IdempotencyKey>,
    pub component_version: u64,
    pub component_size: u64,
    pub total_linear_memory_size: u64,
    /// The resources the worker owns, by id; each id once.
    pub owned_resources: Vec<(WorkerResourceId, WorkerResourceDescription)>,
    pub oplog_idx: OplogIndex,
}

/// The record of a worker that has not run yet: idle, nothing pending,
/// nothing owned, as of log position 0.
pub open spec fn is_initial_record(r: WorkerStatusRecord) -> bool {
    &&& r.status == WorkerStatus::Idle
    &&& r.deleted_regions.regions@.len() == 0
    &&& r.overridden_retry_config is None
    &&& r.pending_invocations@.len() == 0
    &&& r.pending_updates@.len() == 0
    &&& r.failed_updates@.len() == 0
    &&& r.successful_updates@.len() == 0
    &&& r.invocation_results@.len() == 0
    &&& r.current_idempotency_key is None
    &&& r.component_version == 0
    &&& r.component_size == 0
    &&& r.total_linear_memory_size == 0
    &&& r.owned_resources@.len() == 0
    &&& r.oplog_idx.0 == 0
}

impl Default for WorkerStatusRecord {
    fn default() -> (r: WorkerStatusRecord)
        ensures
            is_initial_record(r),
    {
        WorkerStatusRecord {
            status: WorkerStatus::Idle,
            deleted_regions: DeletedRegions::new(),
            overridden_retry_config: None,
            pending_invocations: Vec::new(),
            pending_updates: std::collections::VecDeque::new(),
            failed_updates: Vec::new(),
            successful_updates: Vec::new(),
            invocation_results: Vec::new(),
            current_idempotency_key: None,
            component_version: 0,
            component_size: 0,
            total_linear_memory_size: 0,
            owned_resources: Vec::new(),
            oplog_idx: OplogIndex(0),
        }
    }
}

/// A worker's metadata: identity, arguments, environment, owner, creation
/// time, parent and last known status.
#[derive(Clone, Debug)]
pub struct WorkerMetadata {
    pub worker_id: WorkerId,
    pub args: Vec<String>,
    pub env: Vec<(String, String)>,
    pub account_id: AccountId,
    pub created_at: Timestamp,
    pub parent: Option<WorkerId>,
    pub last_known_status: WorkerStatusRecord,
}

impl WorkerMetadata {
    /// The metadata of a new worker created now, with no arguments, no
    /// environment and no parent.
    pub fn default(worker_id: WorkerId, account_id: AccountId) -> (r: WorkerMetadata)
        ensures
            r.worker_id == worker_id,
            r.account_id == account_id,
            r.args@.len() == 0,
            r.env@.len() == 0,
            r.parent is None,
            r.created_at.millis >= 0,
            is_initial_record(r.last_known_status),
    {
        WorkerMetadata {
            worker_id,
            args: Vec::new(),
            env: Vec::new(),
            account_id,
            created_at: Timestamp::now_utc(),
            parent: None,
            last_known_status: WorkerStatusRecord::default(),
        }
    }

    pub fn owned_worker_id(&self) -> (r: OwnedWorkerId)
        ensures
            r.account_id == self.account_id,
            r.worker_id == self.worker_id,
    {
        OwnedWorkerId::new(&self.account_id, &self.worker_id)
    }
}

} // verus!
