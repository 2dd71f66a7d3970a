//! Actions scheduled for a point in time, and the decisions taken when one
//! comes due.
use vstd::prelude::*;
use vstd::string::*;
use crate::ids::{worker_text, AccountId, OplogIndex, OwnedWorkerId, PromiseId};
use crate::text::{push_char, push_signed_decimal, signed_decimal};

verus! {

/// Work deferred to a point in time.
#[derive(Debug, Hash, Eq, PartialEq)]
pub enum ScheduledAction {
    /// Completes a given promise
    CompletePromise { account_id: AccountId, promise_id: PromiseId },
    /// Archives all entries from the first non-empty layer of an oplog to the
    /// next layer, if the last oplog index did not change. If there are more
    /// layers below, schedules a next action to archive the next layer after
    /// `next_after` milliseconds.
    ArchiveOplog { owned_worker_id: OwnedWorkerId, last_oplog_index: OplogIndex, next_after: u64 },
}

impl Clone for ScheduledAction {
    fn clone(&self) -> (r: Self)
        ensures
            r == *self,
    {
        match self {
            ScheduledAction::CompletePromise { account_id, promise_id } => {
                ScheduledAction::CompletePromise {
                    account_id: account_id.clone(),
                    promise_id: promise_id.clone(),
                }
            },
            ScheduledAction::ArchiveOplog { owned_worker_id, last_oplog_index, next_after } => {
                ScheduledAction::ArchiveOplog {
                    owned_worker_id: owned_worker_id.clone(),
                    last_oplog_index: *last_oplog_index,
                    next_after: *next_after,
                }
            },
        }
    }
}

/// The worker that an action concerns, with its owner.
pub open spec fn action_owner(a: ScheduledAction) -> OwnedWorkerId {
    match a {
        ScheduledAction::CompletePromise { account_id, promise_id } => OwnedWorkerId {
            account_id,
            worker_id: promise_id.worker_id,
        },
        ScheduledAction::ArchiveOplog { owned_worker_id, .. } => owned_worker_id,
    }
}

/// `complete[<promise>]` or `archive[<owned worker>]`.
pub open spec fn action_text(a: ScheduledAction) -> Seq<char> {
    match a {
        ScheduledAction::CompletePromise { promise_id, .. } => "complete["@ + worker_text(
            promise_id.worker_id,
        ).push('/') + crate::text::decimal(promise_id.oplog_idx.0 as nat) + "]"@,
        ScheduledAction::ArchiveOplog { owned_worker_id, .. } => "archive["@
            + owned_worker_id.account_id.value@.push('/') + worker_text(owned_worker_id.worker_id)
            + "]"@,
    }
}

impl ScheduledAction {
    pub fn owned_worker_id(&self) -> (r: OwnedWorkerId)
        ensures
            r == action_owner(*self),
    {
        match self {
            ScheduledAction::CompletePromise { account_id, promise_id } => OwnedWorkerId::new(
                account_id,
                &promise_id.worker_id,
            ),
            ScheduledAction::ArchiveOplog { owned_worker_id, .. } => owned_worker_id.clone(),
        }
    }

    /// `complete[<promise>]` or `archive[<owned worker>]`.
    pub fn to_string(&self) -> (r: String)
        ensures
            r@ == action_text(*self),
    {
        let (mut s, inner) = match self {
            ScheduledAction::CompletePromise { promise_id, .. } => (
                String::from_str("complete["),
                promise_id.to_string(),
            ),
            ScheduledAction::ArchiveOplog { owned_worker_id, .. } => (
                String::from_str("archive["),
                owned_worker_id.to_string(),
            ),
        };
        s.append(inner.as_str());
        s.append("]");
        s
    }

    /// Whether a due `ArchiveOplog` still archives: the worker's log must
    /// still end at the index recorded when the action was scheduled. Any
    /// other action archives nothing.
    pub fn archives_now(&self, current_last_index: OplogIndex) -> (r: bool)
        ensures
            r == match *self {
                ScheduledAction::ArchiveOplog { last_oplog_index, .. } => last_oplog_index
                    == current_last_index,
                _ => false,
            },
    {
        match self {
            ScheduledAction::ArchiveOplog { last_oplog_index, .. } => last_oplog_index.0
                == current_last_index.0,
            _ => false,
        }
    }

    /// After a layer was archived at `now`: where more layers remain, the
    /// action that archives the next one, due `next_after` milliseconds later
    /// and fenced by the log's current last index; otherwise nothing.
    pub fn next_archive(
        &self,
        more_layers: bool,
        current_last_index: OplogIndex,
        now_millis: i64,
    ) -> (r: Option<ScheduleId>)
        requires
            self is ArchiveOplog,
            now_millis + self->next_after <= i64::MAX,
        ensures
            !more_layers ==> r is None,
            more_layers ==> r is Some && r->0.timestamp == now_millis + self->next_after
                && r->0.action == (ScheduledAction::ArchiveOplog {
                owned_worker_id: self->owned_worker_id,
                last_oplog_index: current_last_index,
                next_after: self->next_after,
            }),
    {
        match self {
            ScheduledAction::ArchiveOplog { owned_worker_id, next_after, .. } => {
                if more_layers {
                    Some(
                        ScheduleId {
                            timestamp: (now_millis as i128 + *next_after as i128) as i64,
                            action: ScheduledAction::ArchiveOplog {
                                owned_worker_id: owned_worker_id.clone(),
                                last_oplog_index: current_last_index,
                                next_after: *next_after,
                            },
                        },
                    )
                } else {
                    None
                }
            },
            _ => None,
        }
    }
}

/// An entry of the deferred-action queue: the action and the time (in
/// milliseconds since the epoch) at which it becomes due.
#[derive(Debug)]
pub struct ScheduleId {
    pub timestamp: i64,
    pub action: ScheduledAction,
}

impl ScheduleId {
    /// `<action>@<timestamp>`
    pub fn to_string(&self) -> (r: String)
        ensures
            r@ == action_text(self.action).push('@') + signed_decimal(self.timestamp as int),
    {
        let mut s = self.action.to_string();
        push_char(&mut s, '@');
        push_signed_decimal(&mut s, self.timestamp);
        s
    }
}

} // verus!
