//! Shard placement of workers, the routing table from shards to pods, and the
//! set of shards a pod owns.
use vstd::prelude::*;
use vstd::string::*;
use vstd::utf8::encode_utf8;
use vstd::arithmetic::div_mod::{lemma_add_mod_noop, lemma_small_mod};
use crate::ids::{TargetWorkerId, WorkerId};
use crate::text::{push_char, push_decimal, push_signed_decimal, signed_decimal, decimal};
use crate::uuids::{new_v4, uuid_string, uuid_text};

verus! {

/// The 32-bit polynomial string hash (base 31, wrapping) over every byte.
/// Deployed nodes guard this computation with a test for a zero hash that
/// only ever sees the initial value, so no byte is ever skipped; placement
/// depends on that exact arithmetic.
pub open spec fn poly_hash(bytes: Seq<u8>) -> i32
    decreases bytes.len(),
{
    if bytes.len() == 0 {
        0
    } else {
        31i32.wrapping_mul(poly_hash(bytes.drop_last())).wrapping_add(bytes.last() as i32)
    }
}

fn hash_bytes(bytes: &[u8]) -> (r: i32)
    ensures
        r == poly_hash(bytes@),
{
    let mut hash: i32 = 0;
    let mut i: usize = 0;
    while i < bytes.len()
        invariant
            i <= bytes@.len(),
            hash == poly_hash(bytes@.subrange(0, i as int)),
        decreases bytes@.len() - i,
    {
        assert(bytes@.subrange(0, i + 1).drop_last() == bytes@.subrange(0, i as int));
        hash = 31i32.wrapping_mul(hash).wrapping_add(bytes[i] as i32);
        i = i + 1;
    }
    assert(bytes@.subrange(0, i as int) == bytes@);
    hash
}


/// The hash of a text: the polynomial hash of its UTF-8 bytes.
pub open spec fn text_hash(s: Seq<char>) -> i32 {
    poly_hash(encode_utf8(s))
}

/// The 64 most significant bits of a UUID, read as a signed integer.
pub open spec fn high_bits(c: u128) -> i64 {
    (c >> 64u128) as i64
}

/// The 64 least significant bits of a UUID, read as a signed integer.
pub open spec fn low_bits(c: u128) -> i64 {
    c as i64
}

/// `(high as i64) << 32 | (low as i64 & 0xFFFFFFFF)`, written as arithmetic.
pub open spec fn combine_hashes(high: i32, low: i32) -> int {
    high as int * 0x1_0000_0000 + (low as int) % 0x1_0000_0000
}

/// The 64-bit hash of a worker: the hash of the decimal text of the
/// component's high bits, and the hash of the decimal text of its low bits
/// followed by the worker's name.
pub open spec fn worker_hash(component: u128, name: Seq<char>) -> int {
    combine_hashes(
        text_hash(signed_decimal(high_bits(component) as int)),
        text_hash(signed_decimal(low_bits(component) as int) + name),
    )
}

pub open spec fn abs(x: int) -> int {
    if x < 0 {
        -x
    } else {
        x
    }
}

/// The shard of a worker among `n` shards: the absolute value of its hash modulo `n`.
pub open spec fn shard_index(component: u128, name: Seq<char>, n: nat) -> int {
    abs(worker_hash(component, name)) % (n as int)
}

/// The shard of a worker id among `n` shards.
pub open spec fn shard_of(w: WorkerId, n: nat) -> int {
    shard_index(w.component_id.0, w.worker_name@, n)
}

/// One partition of the worker address space.
#[derive(Clone, Copy, Debug, PartialEq, Eq, PartialOrd, Ord, Hash, Structural)]
pub struct ShardId {
    pub value: i64,
}

fn hash_string(s: &str) -> (r: i32)
    ensures
        r == text_hash(s@),
{
    hash_bytes(s.as_bytes())
}

impl ShardId {
    pub fn new(value: i64) -> (r: ShardId)
        ensures
            r.value == value,
    {
        ShardId { value }
    }

    /// The shard that `worker_id` belongs to among `number_of_shards` shards.
    pub fn from_worker_id(worker_id: &WorkerId, number_of_shards: usize) -> (r: ShardId)
        requires
            0 < number_of_shards <= i64::MAX,
        ensures
            r.value == shard_of(*worker_id, number_of_shards as nat),
            0 <= r.value < number_of_shards,
    {
        let hash = Self::hash_worker_id(worker_id);
        let magnitude: u64 = if hash < 0 {
            (0i128 - hash as i128) as u64
        } else {
            hash as u64
        };
        let value = magnitude % (number_of_shards as u64);
        ShardId { value: value as i64 }
    }

    /// The 64-bit hash of a worker that its shard is computed from.
    pub fn hash_worker_id(worker_id: &WorkerId) -> (r: i64)
        ensures
            r == worker_hash(worker_id.component_id.0, worker_id.worker_name@),
    {
        let c = worker_id.component_id.0;
        let high_part = (c >> 64u128) as i64;
        let low_part = c as i64;
        let mut high_text = String::new();
        push_signed_decimal(&mut high_text, high_part);
        let high = hash_string(high_text.as_str());
        let mut low_text = String::new();
        push_signed_decimal(&mut low_text, low_part);
        low_text.append(worker_id.worker_name.as_str());
        let low = hash_string(low_text.as_str());
        let low_word: i64 = (low as u32) as i64;
        assert(low_word == (low as int) % 0x1_0000_0000) by (bit_vector)
            requires low_word == (low as u32) as i64;
        assert(-0x8000_0000_0000_0000 <= high as int * 0x1_0000_0000 <= 0x7fff_ffff_0000_0000)
            by (nonlinear_arith)
            requires -0x8000_0000 <= high as int <= 0x7fff_ffff;
        (high as i64) * 0x1_0000_0000i64 + low_word
    }

    /// Whether `other` is the shard right after this one.
    pub fn is_left_neighbor(&self, other: &ShardId) -> (r: bool)
        ensures
            r == (other.value == self.value + 1),
    {
        other.value as i128 == self.value as i128 + 1
    }

    /// The display form `<n>`.
    pub fn to_string(&self) -> (r: String)
        ensures
            r@ == seq!['<'] + signed_decimal(self.value as int) + seq!['>'],
    {
        let mut s = String::new();
        push_char(&mut s, '<');
        push_signed_decimal(&mut s, self.value);
        push_char(&mut s, '>');
        s
    }
}


/// Some shard of `shards` has the number `s`.
pub open spec fn in_shards(shards: Seq<ShardId>, s: int) -> bool {
    exists|i: int| 0 <= i < shards.len() && shards[i].value == s
}

fn contains_shard(shards: &Vec<ShardId>, s: ShardId) -> (r: bool)
    ensures
        r == in_shards(shards@, s.value as int),
{
    let mut i: usize = 0;
    while i < shards.len()
        invariant
            i <= shards@.len(),
            forall|j: int| 0 <= j < i ==> shards@[j].value != s.value,
        decreases shards@.len() - i,
    {
        if shards[i].value == s.value {
            return true;
        }
        i = i + 1;
    }
    false
}

/// The number of distinct 128-bit values.
pub open spec fn uuid_space() -> int {
    u128::MAX as int + 1
}

/// The `j`-th value probed from `seed`: `seed + j`, wrapping around.
pub open spec fn probe(seed: u128, j: int) -> u128 {
    ((seed as int + j) % uuid_space()) as u128
}

/// A worker of `component` named by the UUID text of `k` falls in one of `shards`.
pub open spec fn lands(component: u128, shards: Seq<ShardId>, n: nat, k: u128) -> bool {
    in_shards(shards, shard_index(component, uuid_text(k), n))
}

/// The generated worker named by the first value probed from `seed` that lands.
pub open spec fn first_landing(
    component: u128,
    shards: Seq<ShardId>,
    n: nat,
    seed: u128,
    w: WorkerId,
) -> bool {
    exists|j: int|
        0 <= j < uuid_space() && lands(component, shards, n, #[trigger] probe(seed, j))
            && w.worker_name@ == uuid_text(probe(seed, j)) && forall|i: int|
            0 <= i < j ==> !lands(component, shards, n, #[trigger] probe(seed, i))
}

impl TargetWorkerId {
    /// What `into_worker_id` does, given the random value `seed` that it draws.
    ///
    /// A named target is that worker. Without a name, and without a shard to
    /// land in, the name is the UUID text of `seed`. Otherwise the values
    /// `seed`, `seed + 1`, ... (wrapping) are probed in turn and the first whose
    /// UUID text puts the worker in one of `force_in_shard` names it; `None`
    /// when no 128-bit value does.
    pub fn into_worker_id_seeded(
        self,
        force_in_shard: &Vec<ShardId>,
        number_of_shards: usize,
        seed: u128,
    ) -> (r: Option<WorkerId>)
        requires
            number_of_shards <= i64::MAX,
        ensures
            self.worker_name is Some ==> r == Some(
                WorkerId { component_id: self.component_id, worker_name: self.worker_name->0 },
            ),
            self.worker_name is None && (force_in_shard@.len() == 0 || number_of_shards == 0)
                ==> r is Some && r->0.component_id == self.component_id && r->0.worker_name@
                == uuid_text(seed),
            self.worker_name is None && force_in_shard@.len() > 0 && number_of_shards > 0 ==> {
                &&& r is Some ==> r->0.component_id == self.component_id && first_landing(
                    self.component_id.0,
                    force_in_shard@,
                    number_of_shards as nat,
                    seed,
                    r->0,
                )
                &&& r is Some ==> in_shards(
                    force_in_shard@,
                    shard_of(r->0, number_of_shards as nat),
                )
                &&& r is None <==> forall|k: u128|
                    !lands(self.component_id.0, force_in_shard@, number_of_shards as nat, k)
            },
    {
        let component_id = self.component_id;
        match self.worker_name {
            Some(worker_name) => Some(WorkerId { component_id, worker_name }),
            None => {
                if force_in_shard.len() == 0 || number_of_shards == 0 {
                    Some(WorkerId { component_id, worker_name: uuid_string(seed) })
                } else {
                    let ghost c = component_id.0;
                    let ghost n = number_of_shards as nat;
                    let mut current: u128 = seed;
                    let mut tried: u128 = 0;
                    proof {
                        lemma_small_mod(seed as nat, uuid_space() as nat);
                    }
                    assert(probe(seed, 0) == seed);
                    loop
                        invariant
                            0 < number_of_shards <= i64::MAX,
                            self.worker_name is None,
                            force_in_shard@.len() > 0,
                            c == component_id.0,
                            c == self.component_id.0,
                            n == number_of_shards as nat,
                            current == probe(seed, tried as int),
                            forall|i: int|
                                0 <= i < tried ==> !lands(
                                    c,
                                    force_in_shard@,
                                    n,
                                    #[trigger] probe(seed, i),
                                ),
                        decreases u128::MAX - tried,
                    {
                        let worker_id = WorkerId { component_id, worker_name: uuid_string(current) };
                        let shard_id = ShardId::from_worker_id(&worker_id, number_of_shards);
                        if contains_shard(force_in_shard, shard_id) {
                            assert(lands(c, force_in_shard@, n, probe(seed, tried as int)));
                            assert(first_landing(c, force_in_shard@, n, seed, worker_id));
                            return Some(worker_id);
                        }
                        if tried == u128::MAX {
                            assert forall|k: u128| !lands(c, force_in_shard@, n, k) by {
                                let j = (k as int - seed as int) % uuid_space();
                                assert(probe(seed, j) == k);
                            }
                            return None;
                        }
                        proof {
                            lemma_add_mod_noop(seed as int + tried as int, 1, uuid_space());
                            lemma_small_mod(1, uuid_space() as nat);
                        }
                        current = current.wrapping_add(1);
                        tried = tried + 1;
                    }
                }
            },
        }
    }

    /// Resolves the target to a worker. A named target is that worker.
    /// Otherwise a fresh name is generated from a random UUID; when
    /// `force_in_shard` is not empty and `number_of_shards` is not zero, the
    /// generated worker falls in one of those shards (UUID values are probed
    /// from the random one upwards), provided that some UUID text does.
    pub fn into_worker_id(self, force_in_shard: &Vec<ShardId>, number_of_shards: usize) -> (r:
        WorkerId)
        requires
            number_of_shards <= i64::MAX,
        ensures
            r.component_id == self.component_id,
            self.worker_name is Some ==> r.worker_name == self.worker_name->0,
            self.worker_name is None ==> exists|k: u128| r.worker_name@ == uuid_text(k),
            self.worker_name is None && force_in_shard@.len() > 0 && number_of_shards > 0 && (
            exists|k: u128|
                lands(self.component_id.0, force_in_shard@, number_of_shards as nat, k))
                ==> in_shards(force_in_shard@, shard_of(r, number_of_shards as nat)),
    {
        let component_id = self.component_id;
        let seed = new_v4();
        match self.into_worker_id_seeded(force_in_shard, number_of_shards, seed) {
            Some(w) => w,
            None => WorkerId { component_id, worker_name: uuid_string(seed) },
        }
    }
}


/// The number of shards that all nodes agree on.
#[derive(Clone, Copy, Debug, PartialEq, Eq, Structural)]
pub struct NumberOfShards {
    pub value: usize,
}

/// A network endpoint that owns shards.
#[derive(Debug, PartialEq, Eq, Hash)]
pub struct Pod {
    pub host: String,
    pub port: u16,
}

impl View for Pod {
    type V = (Seq<char>, u16);

    open spec fn view(&self) -> (Seq<char>, u16) {
        (self.host@, self.port)
    }
}

impl Clone for Pod {
    fn clone(&self) -> (r: Self)
        ensures
            r == *self,
    {
        Pod { host: self.host.clone(), port: self.port }
    }
}

impl Pod {
    pub fn new(host: String, port: u16) -> (r: Pod)
        ensures
            r.host == host,
            r.port == port,
    {
        Pod { host, port }
    }

    /// `<host>:<port>`, the authority part of the pod's URI.
    pub fn authority(&self) -> (r: String)
        ensures
            r@ == self.host@.push(':') + decimal(self.port as nat),
    {
        let mut s = self.host.clone();
        push_char(&mut s, ':');
        push_decimal(&mut s, self.port as u64);
        s
    }

    fn same(&self, other: &Pod) -> (r: bool)
        ensures
            r == (self@ == other@),
    {
        self.port == other.port && self.host == other.host
    }
}

/// One shard and the pod that owns it.
#[derive(Debug, PartialEq, Eq)]
pub struct RoutingTableEntry {
    pub shard_id: ShardId,
    pub pod: Pod,
}

impl RoutingTableEntry {
    pub fn new(shard_id: ShardId, pod: Pod) -> (r: RoutingTableEntry)
        ensures
            r.shard_id == shard_id,
            r.pod == pod,
    {
        RoutingTableEntry { shard_id, pod }
    }
}

/// The assignment that a list of entries describes; a later entry for a shard
/// replaces an earlier one.
pub open spec fn entries_map(es: Seq<RoutingTableEntry>) -> Map<i64, (Seq<char>, u16)>
    decreases es.len(),
{
    if es.len() == 0 {
        Map::empty()
    } else {
        entries_map(es.drop_last()).insert(es.last().shard_id.value, es.last().pod@)
    }
}

/// Entry `i` is the last one for its shard.
pub open spec fn effective(es: Seq<RoutingTableEntry>, i: int) -> bool {
    0 <= i < es.len() && forall|j: int|
        i < j < es.len() ==> es[j].shard_id.value != es[i].shard_id.value
}

proof fn lemma_entries_map(es: Seq<RoutingTableEntry>, k: i64)
    ensures
        entries_map(es).contains_key(k) <==> exists|i: int|
            0 <= i < es.len() && es[i].shard_id.value == k,
        forall|i: int|
            effective(es, i) && es[i].shard_id.value == k ==> entries_map(es)[k] == es[i].pod@,
    decreases es.len(),
{
    if es.len() > 0 {
        let init = es.drop_last();
        lemma_entries_map(init, k);
        assert forall|i: int|
            effective(es, i) && es[i].shard_id.value == k implies entries_map(es)[k]
            == es[i].pod@ by {
            if i < es.len() - 1 {
                assert(effective(init, i));
                assert(init[i] == es[i]);
            }
        }
        if entries_map(es).contains_key(k) && es.last().shard_id.value != k {
            let i = choose|i: int| 0 <= i < init.len() && init[i].shard_id.value == k;
            assert(es[i] == init[i]);
        }
        if exists|i: int| 0 <= i < es.len() && es[i].shard_id.value == k {
            let i = choose|i: int| 0 <= i < es.len() && es[i].shard_id.value == k;
            if i < es.len() - 1 {
                assert(init[i] == es[i]);
            }
        }
    }
}

/// Every shard that the entries name has an entry that is the last for it.
proof fn lemma_effective_exists(es: Seq<RoutingTableEntry>, i: int)
    requires
        0 <= i < es.len(),
    ensures
        exists|e: int| effective(es, e) && es[e].shard_id.value == es[i].shard_id.value,
    decreases es.len() - i,
{
    if !effective(es, i) {
        let j = choose|j: int| i < j < es.len() && es[j].shard_id.value == es[i].shard_id.value;
        lemma_effective_exists(es, j);
    }
}

/// The current assignment of shards to pods. A table is never changed in
/// place: a new one replaces it.
pub struct RoutingTable {
    pub number_of_shards: NumberOfShards,
    shard_assignments: Vec<RoutingTableEntry>,
}

impl View for RoutingTable {
    type V = Map<i64, (Seq<char>, u16)>;

    closed spec fn view(&self) -> Map<i64, (Seq<char>, u16)> {
        entries_map(self.shard_assignments@)
    }
}

/// The pods that a table assigns, each once.
pub open spec fn assigned_pods(m: Map<i64, (Seq<char>, u16)>) -> Set<(Seq<char>, u16)> {
    Set::new(|p: (Seq<char>, u16)| exists|k: i64| m.contains_key(k) && m[k] == p)
}

pub open spec fn pods_view(v: Seq<&Pod>) -> Seq<(Seq<char>, u16)> {
    v.map_values(|p: &Pod| p@)
}

impl RoutingTable {
    /// The number of shards the table is for.
    pub closed spec fn shard_count(&self) -> nat {
        self.number_of_shards.value as nat
    }

    /// The table of `entries` over `number_of_shards` shards; where two
    /// entries name one shard, the later one holds.
    pub fn new(number_of_shards: usize, entries: Vec<RoutingTableEntry>) -> (r: RoutingTable)
        ensures
            r.shard_count() == number_of_shards,
            r@ == entries_map(entries@),
    {
        RoutingTable {
            number_of_shards: NumberOfShards { value: number_of_shards },
            shard_assignments: entries,
        }
    }

    /// The pod that owns `worker_id`'s shard, if one does. A table of no
    /// shards (or of more than `i64::MAX`) owns no worker.
    pub fn lookup(&self, worker_id: &WorkerId) -> (r: Option<&Pod>)
        ensures
            self.shard_count() == 0 || self.shard_count() > i64::MAX ==> r is None,
            0 < self.shard_count() <= i64::MAX ==> {
                let s = shard_of(*worker_id, self.shard_count()) as i64;
                &&& r is Some <==> self@.contains_key(s)
                &&& r is Some ==> r->0@ == self@[s]
            },
    {
        let n = self.number_of_shards.value;
        if n == 0 || n as u128 > i64::MAX as u128 {
            return None;
        }
        let shard = ShardId::from_worker_id(worker_id, n);
        let es = &self.shard_assignments;
        proof {
            lemma_entries_map(es@, shard.value);
        }
        let mut i: usize = es.len();
        while i > 0
            invariant
                0 < n <= i64::MAX,
                n == self.number_of_shards.value,
                shard.value == shard_of(*worker_id, n as nat),
                es == &self.shard_assignments,
                i <= es@.len(),
                forall|j: int| i <= j < es@.len() ==> es@[j].shard_id.value != shard.value,
            decreases i,
        {
            i = i - 1;
            if es[i].shard_id.value == shard.value {
                proof {
                    lemma_entries_map(es@, shard.value);
                    assert(effective(es@, i as int));
                }
                return Some(&es[i].pod);
            }
        }
        None
    }

    /// Indices of entries that are the last for their shard and whose pods
    /// are all distinct, covering every assigned pod.
    fn distinct_pod_indices(&self) -> (r: Vec<usize>)
        ensures
            forall|a: int| 0 <= a < r@.len() ==> effective(self.shard_assignments@, r@[a] as int),
            forall|a: int, b: int|
                0 <= a < b < r@.len() ==> self.shard_assignments@[r@[a] as int].pod@
                    != self.shard_assignments@[r@[b] as int].pod@,
            forall|p: (Seq<char>, u16)|
                assigned_pods(self@).contains(p) <==> exists|a: int|
                    0 <= a < r@.len() && self.shard_assignments@[r@[a] as int].pod@ == p,
    {
        let es = &self.shard_assignments;
        let mut r: Vec<usize> = Vec::new();
        let mut i: usize = 0;
        while i < es.len()
            invariant
                i <= es@.len(),
                forall|a: int| 0 <= a < r@.len() ==> effective(es@, r@[a] as int) && r@[a] < i,
                forall|a: int, b: int|
                    0 <= a < b < r@.len() ==> es@[r@[a] as int].pod@ != es@[r@[b] as int].pod@,
                forall|e: int|
                    0 <= e < i && effective(es@, e) ==> exists|a: int|
                        0 <= a < r@.len() && es@[r@[a] as int].pod@ == es@[e].pod@,
            decreases es@.len() - i,
        {
            let ghost r0 = r@;
            let mut last = true;
            let mut j: usize = i + 1;
            while j < es.len()
                invariant
                    i < es@.len(),
                    i + 1 <= j <= es@.len(),
                    last <==> forall|m: int|
                        i < m < j ==> es@[m].shard_id.value != es@[i as int].shard_id.value,
                decreases es@.len() - j,
            {
                if es[j].shard_id.value == es[i].shard_id.value {
                    last = false;
                }
                j = j + 1;
            }
            if last {
                let mut seen = false;
                let mut a: usize = 0;
                while a < r.len()
                    invariant
                        i < es@.len(),
                        a <= r@.len(),
                        forall|x: int| 0 <= x < r@.len() ==> r@[x] < i,
                        seen ==> exists|x: int|
                            0 <= x < r@.len() && es@[r@[x] as int].pod@ == es@[i as int].pod@,
                        !seen ==> forall|x: int|
                            0 <= x < a ==> es@[r@[x] as int].pod@ != es@[i as int].pod@,
                    decreases r@.len() - a,
                {
                    if es[r[a]].pod.same(&es[i].pod) {
                        seen = true;
                    }
                    a = a + 1;
                }
                if !seen {
                    r.push(i);
                    assert(es@[r@[r@.len() - 1] as int].pod@ == es@[i as int].pod@);
                }
            }
            assert forall|e: int|
                0 <= e < i + 1 && effective(es@, e) implies exists|a: int|
                    0 <= a < r@.len() && es@[r@[a] as int].pod@ == es@[e].pod@ by {
                if e < i {
                    let a = choose|a: int|
                        0 <= a < r0.len() && es@[r0[a] as int].pod@ == es@[e].pod@;
                    assert(r@[a] == r0[a]);
                }
            }
            i = i + 1;
        }
        assert forall|p: (Seq<char>, u16)|
            assigned_pods(self@).contains(p) implies exists|a: int|
                0 <= a < r@.len() && es@[r@[a] as int].pod@ == p by {
            let k = choose|k: i64| self@.contains_key(k) && self@[k] == p;
            lemma_entries_map(es@, k);
            let x = choose|x: int| 0 <= x < es@.len() && es@[x].shard_id.value == k;
            lemma_effective_exists(es@, x);
            let e = choose|e: int| effective(es@, e) && es@[e].shard_id.value == k;
        }
        assert forall|p: (Seq<char>, u16)|
            (exists|a: int| 0 <= a < r@.len() && es@[r@[a] as int].pod@ == p) implies assigned_pods(
            self@,
        ).contains(p) by {
            let a = choose|a: int| 0 <= a < r@.len() && es@[r@[a] as int].pod@ == p;
            let k = es@[r@[a] as int].shard_id.value;
            lemma_entries_map(es@, k);
        }
        r
    }

    /// An arbitrary but fixed pick among the assigned pods: the pod of the
    /// last entry given.
    pub fn first(&self) -> (r: Option<&Pod>)
        ensures
            r is Some <==> self@.dom() != Set::<i64>::empty(),
            r is Some ==> assigned_pods(self@).contains(r->0@),
    {
        let es = &self.shard_assignments;
        if es.len() == 0 {
            assert(self@ == Map::<i64, (Seq<char>, u16)>::empty());
            return None;
        }
        let i = es.len() - 1;
        proof {
            lemma_entries_map(es@, es@[i as int].shard_id.value);
            assert(effective(es@, i as int));
            assert(self@.contains_key(es@[i as int].shard_id.value));
        }
        Some(&es[i].pod)
    }

    /// Every assigned pod, each once.
    pub fn all(&self) -> (r: Vec<&Pod>)
        ensures
            forall|a: int, b: int|
                0 <= a < b < r@.len() ==> pods_view(r@)[a] != pods_view(r@)[b],
            pods_view(r@).to_set() == assigned_pods(self@),
    {
        let idx = self.distinct_pod_indices();
        let mut r: Vec<&Pod> = Vec::new();
        let mut a: usize = 0;
        while a < idx.len()
            invariant
                a <= idx@.len(),
                forall|x: int| 0 <= x < idx@.len() ==> idx@[x] < self.shard_assignments@.len(),
                r@.len() == a,
                forall|x: int|
                    0 <= x < a ==> r@[x]@ == self.shard_assignments@[idx@[x] as int].pod@,
            decreases idx@.len() - a,
        {
            r.push(&self.shard_assignments[idx[a]].pod);
            a = a + 1;
        }
        assert(pods_view(r@).to_set() =~= assigned_pods(self@)) by {
            assert forall|p| pods_view(r@).to_set().contains(p) implies assigned_pods(
                self@,
            ).contains(p) by {
                let x = choose|x: int| 0 <= x < pods_view(r@).len() && pods_view(r@)[x] == p;
            }
            assert forall|p| assigned_pods(self@).contains(p) implies pods_view(
                r@,
            ).to_set().contains(p) by {
                let x = choose|x: int|
                    0 <= x < idx@.len() && self.shard_assignments@[idx@[x] as int].pod@ == p;
                assert(pods_view(r@)[x] == p);
            }
        }
        r
    }

    /// A pod picked at random among the distinct assigned pods.
    pub fn random(&self) -> (r: Option<&Pod>)
        ensures
            r is Some <==> self@.dom() != Set::<i64>::empty(),
            r is Some ==> assigned_pods(self@).contains(r->0@),
    {
        let pods = self.all();
        if pods.len() == 0 {
            assert forall|k: i64| !self@.contains_key(k) by {
                if self@.contains_key(k) {
                    assert(assigned_pods(self@).contains(self@[k]));
                    assert(!pods_view(pods@).to_set().contains(self@[k]));
                }
            }
            assert(self@.dom() =~= Set::<i64>::empty());
            return None;
        }
        let i = random_index(pods.len());
        let p = pods[i];
        assert(pods_view(pods@).to_set().contains(pods_view(pods@)[i as int]));
        assert(assigned_pods(self@).contains(p@));
        let ghost k = choose|k: i64| self@.contains_key(k) && self@[k] == p@;
        assert(self@.dom().contains(k));
        Some(p)
    }
}

/// Relies on `rand::Rng::gen_range` over the thread's generator: a value in `[0, n)`.
#[verifier::external_body]
fn random_index(n: usize) -> (r: usize)
    requires
        n > 0,
    ensures
        r < n,
{
    rand::Rng::gen_range(&mut rand::thread_rng(), 0..n)
}


/// The shard numbers of a list of shards.
pub open spec fn shard_set(v: Seq<ShardId>) -> Set<i64> {
    Set::new(|x: i64| exists|i: int| 0 <= i < v.len() && v[i].value == x)
}

/// No shard is listed twice.
pub open spec fn no_duplicates(v: Seq<ShardId>) -> bool {
    forall|a: int, b: int| 0 <= a < b < v.len() ==> v[a].value != v[b].value
}

/// The shards that one pod owns, out of `number_of_shards`.
#[derive(Debug, Default)]
pub struct ShardAssignment {
    pub number_of_shards: usize,
    pub shard_ids: Vec<ShardId>,
}

proof fn lemma_shard_set_push(v: Seq<ShardId>, s: ShardId)
    ensures
        shard_set(v.push(s)) == shard_set(v).insert(s.value),
{
    let w = v.push(s);
    assert forall|x: i64| shard_set(w).contains(x) implies shard_set(v).insert(s.value).contains(
        x,
    ) by {
        let j = choose|j: int| 0 <= j < w.len() && w[j].value == x;
        if j < v.len() {
            assert(v[j] == w[j]);
        }
    }
    assert forall|x: i64| shard_set(v).insert(s.value).contains(x) implies shard_set(w).contains(
        x,
    ) by {
        if x != s.value {
            let j = choose|j: int| 0 <= j < v.len() && v[j].value == x;
            assert(w[j] == v[j]);
        } else {
            assert(w[v.len() as int] == s);
        }
    }
    assert(shard_set(w) =~= shard_set(v).insert(s.value));
}

fn add_shards(ids: &mut Vec<ShardId>, shard_ids: &Vec<ShardId>)
    ensures
        shard_set(final(ids)@) == shard_set(old(ids)@) + shard_set(shard_ids@),
        no_duplicates(old(ids)@) ==> no_duplicates(final(ids)@),
{
    let ghost start = ids@;
    let mut i: usize = 0;
    while i < shard_ids.len()
        invariant
            i <= shard_ids@.len(),
            shard_set(ids@) == shard_set(start) + shard_set(shard_ids@.subrange(0, i as int)),
            no_duplicates(start) ==> no_duplicates(ids@),
        decreases shard_ids@.len() - i,
    {
        let s = shard_ids[i];
        let ghost before = ids@;
        proof {
            lemma_shard_set_push(shard_ids@.subrange(0, i as int), s);
            assert(shard_ids@.subrange(0, i + 1) == shard_ids@.subrange(0, i as int).push(s));
        }
        if !contains_shard(ids, s) {
            ids.push(s);
            proof {
                lemma_shard_set_push(before, s);
            }
        } else {
            assert(shard_set(before).contains(s.value));
            assert(shard_set(before) =~= shard_set(before).insert(s.value));
        }
        assert(shard_set(ids@) =~= shard_set(start) + shard_set(
            shard_ids@.subrange(0, i + 1),
        ));
        i = i + 1;
    }
    assert(shard_ids@.subrange(0, i as int) == shard_ids@);
}

/// The texts `<n>` of the shards, joined by `,`.
pub open spec fn shard_list_text(v: Seq<ShardId>) -> Seq<char>
    decreases v.len(),
{
    if v.len() == 0 {
        Seq::empty()
    } else if v.len() == 1 {
        shard_text(v[0])
    } else {
        shard_list_text(v.drop_last()).push(',') + shard_text(v.last())
    }
}

/// `<n>`
pub open spec fn shard_text(s: ShardId) -> Seq<char> {
    seq!['<'] + signed_decimal(s.value as int) + seq!['>']
}

impl ShardAssignment {
    /// `{ number_of_shards: <n>, shard_ids: <a>,<b>,... }`
    pub fn to_string(&self) -> (r: String)
        ensures
            r@ == "{ number_of_shards: "@ + decimal(self.number_of_shards as nat) + ", shard_ids: "@
                + shard_list_text(self.shard_ids@) + " }"@,
    {
        let mut s = String::from_str("{ number_of_shards: ");
        push_decimal(&mut s, self.number_of_shards as u64);
        s.append(", shard_ids: ");
        let ghost start = s@;
        let mut i: usize = 0;
        while i < self.shard_ids.len()
            invariant
                i <= self.shard_ids@.len(),
                s@ == start + shard_list_text(self.shard_ids@.subrange(0, i as int)),
            decreases self.shard_ids@.len() - i,
        {
            let ghost prefix = self.shard_ids@.subrange(0, i + 1);
            assert(prefix.drop_last() == self.shard_ids@.subrange(0, i as int));
            if i > 0 {
                push_char(&mut s, ',');
            }
            let t = self.shard_ids[i].to_string();
            s.append(t.as_str());
            proof {
                if i == 0 {
                    assert(self.shard_ids@.subrange(0, 0) == Seq::<ShardId>::empty());
                }
            }
            i = i + 1;
        }
        assert(self.shard_ids@.subrange(0, i as int) == self.shard_ids@);
        s.append(" }");
        s
    }

    pub fn new(number_of_shards: usize, shard_ids: Vec<ShardId>) -> (r: ShardAssignment)
        ensures
            r.number_of_shards == number_of_shards,
            r.shard_ids == shard_ids,
    {
        ShardAssignment { number_of_shards, shard_ids }
    }

    /// Adds `shard_ids` to the owned shards.
    pub fn assign_shards(&mut self, shard_ids: &Vec<ShardId>)
        ensures
            final(self).number_of_shards == old(self).number_of_shards,
            shard_set(final(self).shard_ids@) == shard_set(old(self).shard_ids@) + shard_set(
                shard_ids@,
            ),
            no_duplicates(old(self).shard_ids@) ==> no_duplicates(final(self).shard_ids@),
    {
        add_shards(&mut self.shard_ids, shard_ids);
    }

    /// Sets the number of shards and adds `shard_ids` to the owned shards.
    pub fn register(&mut self, number_of_shards: usize, shard_ids: &Vec<ShardId>)
        ensures
            final(self).number_of_shards == number_of_shards,
            shard_set(final(self).shard_ids@) == shard_set(old(self).shard_ids@) + shard_set(
                shard_ids@,
            ),
            no_duplicates(old(self).shard_ids@) ==> no_duplicates(final(self).shard_ids@),
    {
        self.number_of_shards = number_of_shards;
        add_shards(&mut self.shard_ids, shard_ids);
    }

    /// Removes `shard_ids` from the owned shards.
    pub fn revoke_shards(&mut self, shard_ids: &Vec<ShardId>)
        ensures
            final(self).number_of_shards == old(self).number_of_shards,
            shard_set(final(self).shard_ids@) == shard_set(old(self).shard_ids@) - shard_set(
                shard_ids@,
            ),
            no_duplicates(old(self).shard_ids@) ==> no_duplicates(final(self).shard_ids@),
    {
        let mut kept: Vec<ShardId> = Vec::new();
        let mut i: usize = 0;
        let ghost old_ids = self.shard_ids@;
        while i < self.shard_ids.len()
            invariant
                self.shard_ids@ == old_ids,
                i <= old_ids.len(),
                shard_set(kept@) == shard_set(old_ids.subrange(0, i as int)) - shard_set(
                    shard_ids@,
                ),
                no_duplicates(old_ids) ==> no_duplicates(kept@) && forall|a: int, j: int|
                    0 <= a < kept@.len() && i <= j < old_ids.len() ==> kept@[a].value
                        != old_ids[j].value,
            decreases old_ids.len() - i,
        {
            let s = self.shard_ids[i];
            let ghost before = kept@;
            proof {
                lemma_shard_set_push(old_ids.subrange(0, i as int), s);
                assert(old_ids.subrange(0, i + 1) == old_ids.subrange(0, i as int).push(s));
            }
            if !contains_shard(shard_ids, s) {
                kept.push(s);
                proof {
                    lemma_shard_set_push(before, s);
                    if shard_set(shard_ids@).contains(s.value) {
                        let j = choose|j: int|
                            0 <= j < shard_ids@.len() && shard_ids@[j].value == s.value;
                        assert(in_shards(shard_ids@, s.value as int));
                    }
                }
            }
            assert(shard_set(kept@) =~= shard_set(old_ids.subrange(0, i + 1)) - shard_set(
                shard_ids@,
            ));
            i = i + 1;
        }
        assert(old_ids.subrange(0, i as int) == old_ids);
        self.shard_ids = kept;
    }
}

/// A worker's shard among `n > 0` shards lies in `[0, n)`, and it depends on
/// nothing but the component and the characters of the worker's name.
pub proof fn shard_is_stable_and_in_range(w1: WorkerId, w2: WorkerId, n: nat)
    requires
        n > 0,
        w1.component_id == w2.component_id,
        w1.worker_name@ == w2.worker_name@,
    ensures
        0 <= shard_of(w1, n) < n,
        shard_of(w1, n) == shard_of(w2, n),
{
}

/// In a table built from entries, a shard resolves to the pod of the last
/// entry for it, and a shard without an entry resolves to nothing.
pub proof fn table_resolves_to_last_entry(entries: Seq<RoutingTableEntry>, k: i64)
    ensures
        entries_map(entries).contains_key(k) <==> exists|i: int|
            0 <= i < entries.len() && entries[i].shard_id.value == k,
        forall|i: int|
            effective(entries, i) && entries[i].shard_id.value == k ==> entries_map(entries)[k]
                == entries[i].pod@,
{
    lemma_entries_map(entries, k);
}

} // verus!
