//! Identity and addressing: components, workers, owners and promises.
use vstd::prelude::*;
use vstd::string::*;
use crate::text::{chars_of, decimal, push_char, push_decimal, string_of, sub_chars};
use crate::uuids::{new_v4, parse_uuid, uuid_parsed, uuid_string, uuid_text};

verus! {

/// Identifies a component (a versioned program package) by a 128-bit UUID.
#[derive(Clone, Copy, Debug, PartialEq, Eq, Hash, PartialOrd, Ord, Structural)]
pub struct ComponentId(pub u128);

impl ComponentId {
    /// A fresh random component id.
    pub fn new_v4() -> (r: ComponentId) {
        ComponentId(new_v4())
    }

    /// The hyphenated UUID text.
    pub fn to_string(&self) -> (r: String)
        ensures
            r@ == uuid_text(self.0),
    {
        uuid_string(self.0)
    }
}

/// A position in a worker's append-only operation log.
#[derive(Clone, Copy, Debug, PartialEq, Eq, Hash, PartialOrd, Ord, Default, Structural)]
pub struct OplogIndex(pub u64);

impl OplogIndex {
    pub fn from_u64(value: u64) -> (r: OplogIndex)
        ensures
            r.0 == value,
    {
        OplogIndex(value)
    }

    pub fn to_u64(&self) -> (r: u64)
        ensures
            r == self.0,
    {
        self.0
    }

    /// The decimal text of the index.
    pub fn to_string(&self) -> (r: String)
        ensures
            r@ == decimal(self.0 as nat),
    {
        crate::text::decimal_string(self.0)
    }
}

/// Identifies the account that owns workers.
#[derive(Debug, PartialEq, Eq, Hash, PartialOrd, Ord)]
pub struct AccountId {
    pub value: String,
}

impl Clone for AccountId {
    fn clone(&self) -> (r: Self)
        ensures
            r == *self,
    {
        AccountId { value: self.value.clone() }
    }
}

impl AccountId {
    /// A fresh account id: the text of a random UUID.
    pub fn generate() -> (r: AccountId)
        ensures
            exists|v: u128| r.value@ == uuid_text(v),
    {
        AccountId { value: uuid_string(new_v4()) }
    }

    pub fn to_string(&self) -> (r: String)
        ensures
            r@ == self.value@,
    {
        self.value.clone()
    }
}

impl std::str::FromStr for AccountId {
    type Err = String;

    fn from_str(s: &str) -> Result<AccountId, String> {
        Ok(AccountId { value: <String as StringExecFns>::from_str(s) })
    }
}

/// One durable worker: a component and a name unique within it.
#[derive(Debug, PartialEq, Eq, Hash)]
pub struct WorkerId {
    pub component_id: ComponentId,
    pub worker_name: String,
}

impl Clone for WorkerId {
    fn clone(&self) -> (r: Self)
        ensures
            r == *self,
    {
        WorkerId { component_id: self.component_id, worker_name: self.worker_name.clone() }
    }
}

/// `<component-uuid>:<worker-name>`
pub open spec fn worker_key_text(w: WorkerId) -> Seq<char> {
    uuid_text(w.component_id.0).push(':') + w.worker_name@
}

/// `<component-uuid>/<worker-name>`
pub open spec fn worker_text(w: WorkerId) -> Seq<char> {
    uuid_text(w.component_id.0).push('/') + w.worker_name@
}

/// `i` is the position of the one and only `c` in `s`.
pub open spec fn sole_index_of(s: Seq<char>, c: char, i: int) -> bool {
    0 <= i < s.len() && s[i] == c && forall|j: int| 0 <= j < s.len() && j != i ==> s[j] != c
}

/// The component that the worker id text `<component-uuid>:<worker-name>`
/// names: it holds exactly one `:`, and a UUID before it.
pub open spec fn worker_key_component(s: Seq<char>) -> Option<u128> {
    if exists|i: int| sole_index_of(s, ':', i) {
        let i = choose|i: int| sole_index_of(s, ':', i);
        uuid_parsed(s.subrange(0, i))
    } else {
        None
    }
}

pub open spec fn uri_prefix() -> Seq<char> {
    seq!['u', 'r', 'n', ':', 'w', 'o', 'r', 'k', 'e', 'r', ':']
}

/// The characters of a literal, as a `String`.
fn text_of(lit: &str) -> (r: String)
    ensures
        r@ == lit@,
{
    String::from_str(lit)
}

impl WorkerId {
    /// The key `<component-uuid>:<worker-name>`.
    pub fn to_redis_key(&self) -> (r: String)
        ensures
            r@ == worker_key_text(*self),
    {
        let mut s = uuid_string(self.component_id.0);
        push_char(&mut s, ':');
        s.append(self.worker_name.as_str());
        s
    }

    /// The display form `<component-uuid>/<worker-name>`.
    pub fn to_string(&self) -> (r: String)
        ensures
            r@ == worker_text(*self),
    {
        let mut s = uuid_string(self.component_id.0);
        push_char(&mut s, '/');
        s.append(self.worker_name.as_str());
        s
    }

    /// The worker's URN: `urn:worker:<component-uuid>/<worker-name>`.
    pub fn uri(&self) -> (r: String)
        ensures
            r@ == uri_prefix() + worker_text(*self),
    {
        self.clone().into_target_worker_id().uri()
    }

    /// The target that names exactly this worker.
    pub fn into_target_worker_id(self) -> (r: TargetWorkerId)
        ensures
            r.component_id == self.component_id,
            r.worker_name == Some(self.worker_name),
    {
        TargetWorkerId { component_id: self.component_id, worker_name: Some(self.worker_name) }
    }

    /// Reads `<component-uuid>:<worker-name>`.
    pub fn parse(s: &str) -> (r: Result<WorkerId, String>)
        ensures
            r is Ok <==> worker_key_component(s@) is Some,
            r is Ok ==> r->Ok_0.component_id.0 == worker_key_component(s@)->0,
            forall|i: int|
                sole_index_of(s@, ':', i) && r is Ok ==> r->Ok_0.worker_name@ == s@.subrange(
                    i + 1,
                    s@.len() as int,
                ),
    {
        let cs = chars_of(s);
        let mut count: usize = 0;
        let mut at: usize = 0;
        let mut k: usize = 0;
        while k < cs.len()
            invariant
                cs@ == s@,
                k <= cs@.len(),
                count <= k,
                count == 0 ==> forall|j: int| 0 <= j < k ==> cs@[j] != ':',
                count == 1 ==> at < k && cs@[at as int] == ':' && forall|j: int|
                    0 <= j < k && j != at ==> cs@[j] != ':',
                count >= 2 ==> !(exists|i: int| sole_index_of(s@, ':', i)),
            decreases cs@.len() - k,
        {
            if cs[k] == ':' {
                if count == 1 {
                    assert forall|i: int| !sole_index_of(s@, ':', i) by {
                        if sole_index_of(s@, ':', i) {
                            assert(i == at as int || i == k as int);
                        }
                    }
                }
                if count < 2 {
                    count = count + 1;
                }
                at = if count == 1 { k } else { at };
            }
            k = k + 1;
        }
        if count != 1 {
            assert(!(exists|i: int| sole_index_of(s@, ':', i))) by {
                if count == 0 {
                    assert forall|i: int| !sole_index_of(s@, ':', i) by {}
                }
            }
            let mut e = text_of("invalid worker id: ");
            e.append(s);
            e.append(" - expected format: <component_id>:<worker_name>");
            return Err(e);
        }
        assert(sole_index_of(s@, ':', at as int));
        assert forall|i: int| sole_index_of(s@, ':', i) implies i == at by {}
        let head = string_of(&sub_chars(&cs, 0, at));
        let tail = string_of(&sub_chars(&cs, at + 1, cs.len()));
        match parse_uuid(head.as_str()) {
            Some(v) => Ok(WorkerId { component_id: ComponentId(v), worker_name: tail }),
            None => {
                let mut e = text_of("invalid component id: ");
                e.append(s);
                e.append(" - expected uuid");
                Err(e)
            },
        }
    }
}

impl std::str::FromStr for WorkerId {
    type Err = String;

    fn from_str(s: &str) -> Result<WorkerId, String> {
        WorkerId::parse(s)
    }
}

/// A worker together with the account that owns it.
#[derive(Debug, PartialEq, Eq, Hash)]
pub struct OwnedWorkerId {
    pub account_id: AccountId,
    pub worker_id: WorkerId,
}

impl Clone for OwnedWorkerId {
    fn clone(&self) -> (r: Self)
        ensures
            r == *self,
    {
        OwnedWorkerId { account_id: self.account_id.clone(), worker_id: self.worker_id.clone() }
    }
}

impl OwnedWorkerId {
    pub fn new(account_id: &AccountId, worker_id: &WorkerId) -> (r: OwnedWorkerId)
        ensures
            r.account_id == *account_id,
            r.worker_id == *worker_id,
    {
        OwnedWorkerId { account_id: account_id.clone(), worker_id: worker_id.clone() }
    }

    pub fn worker_id(&self) -> (r: WorkerId)
        ensures
            r == self.worker_id,
    {
        self.worker_id.clone()
    }

    pub fn account_id(&self) -> (r: AccountId)
        ensures
            r == self.account_id,
    {
        self.account_id.clone()
    }

    pub fn component_id(&self) -> (r: ComponentId)
        ensures
            r == self.worker_id.component_id,
    {
        self.worker_id.component_id
    }

    pub fn worker_name(&self) -> (r: String)
        ensures
            r == self.worker_id.worker_name,
    {
        self.worker_id.worker_name.clone()
    }

    /// `<account>/<component-uuid>/<worker-name>`
    pub fn to_string(&self) -> (r: String)
        ensures
            r@ == self.account_id.value@.push('/') + worker_text(self.worker_id),
    {
        let mut s = self.account_id.value.clone();
        push_char(&mut s, '/');
        let w = self.worker_id.to_string();
        s.append(w.as_str());
        assert(s@ == self.account_id.value@.push('/') + worker_text(self.worker_id));
        s
    }
}

/// An invocation target: a component, and the worker's name if one is given.
#[derive(Debug, PartialEq, Eq, Hash)]
pub struct TargetWorkerId {
    pub component_id: ComponentId,
    pub worker_name: Option<String>,
}

impl Clone for TargetWorkerId {
    fn clone(&self) -> (r: Self)
        ensures
            r == *self,
    {
        let worker_name = match &self.worker_name {
            Some(n) => Some(n.clone()),
            None => None,
        };
        TargetWorkerId { component_id: self.component_id, worker_name }
    }
}

/// `<component-uuid>/<worker-name>`, or `<component-uuid>/*` without a name.
pub open spec fn target_text(t: TargetWorkerId) -> Seq<char> {
    match t.worker_name {
        Some(n) => uuid_text(t.component_id.0).push('/') + n@,
        None => uuid_text(t.component_id.0).push('/').push('*'),
    }
}

/// The URN of a target: `urn:worker:<component-uuid>`, then `/<worker-name>`
/// when a name is given.
pub open spec fn target_uri(t: TargetWorkerId) -> Seq<char> {
    match t.worker_name {
        Some(n) => uri_prefix() + uuid_text(t.component_id.0).push('/') + n@,
        None => uri_prefix() + uuid_text(t.component_id.0),
    }
}

impl TargetWorkerId {
    pub fn uri(&self) -> (r: String)
        ensures
            r@ == target_uri(*self),
    {
        let mut s = text_of("urn:worker:");
        proof {
            reveal_strlit("urn:worker:");
        }
        let c = uuid_string(self.component_id.0);
        s.append(c.as_str());
        if let Some(n) = &self.worker_name {
            push_char(&mut s, '/');
            s.append(n.as_str());
        }
        s
    }

    /// The worker this target names, if it names one.
    pub fn try_into_worker_id(self) -> (r: Option<WorkerId>)
        ensures
            r is Some <==> self.worker_name is Some,
            r is Some ==> r->0.component_id == self.component_id && r->0.worker_name
                == self.worker_name->0,
    {
        match self.worker_name {
            Some(worker_name) => Some(WorkerId { component_id: self.component_id, worker_name }),
            None => None,
        }
    }

    pub fn to_string(&self) -> (r: String)
        ensures
            r@ == target_text(*self),
    {
        let mut s = uuid_string(self.component_id.0);
        push_char(&mut s, '/');
        match &self.worker_name {
            Some(n) => s.append(n.as_str()),
            None => push_char(&mut s, '*'),
        }
        s
    }
}

/// A promise a worker waits on: the worker and the log position that created it.
#[derive(Debug, PartialEq, Eq, Hash)]
pub struct PromiseId {
    pub worker_id: WorkerId,
    pub oplog_idx: OplogIndex,
}

impl Clone for PromiseId {
    fn clone(&self) -> (r: Self)
        ensures
            r == *self,
    {
        PromiseId { worker_id: self.worker_id.clone(), oplog_idx: self.oplog_idx }
    }
}

impl PromiseId {
    /// `<component-uuid>:<worker-name>:<oplog-index>`
    pub fn to_redis_key(&self) -> (r: String)
        ensures
            r@ == worker_key_text(self.worker_id).push(':') + decimal(self.oplog_idx.0 as nat),
    {
        let mut s = self.worker_id.to_redis_key();
        push_char(&mut s, ':');
        push_decimal(&mut s, self.oplog_idx.0);
        s
    }

    /// `<component-uuid>/<worker-name>/<oplog-index>`
    pub fn to_string(&self) -> (r: String)
        ensures
            r@ == worker_text(self.worker_id).push('/') + decimal(self.oplog_idx.0 as nat),
    {
        let mut s = self.worker_id.to_string();
        push_char(&mut s, '/');
        push_decimal(&mut s, self.oplog_idx.0);
        s
    }
}

} // verus!
