//! Idempotency keys, and the derivation of child keys that a replay
//! reproduces exactly.
use vstd::prelude::*;
use vstd::string::*;
use vstd::utf8::encode_utf8;
use crate::ids::OplogIndex;
use crate::text::{decimal, lemma_decimal_injective, push_decimal};
use crate::uuids::{new_v4, new_v5, parse_uuid, uuid_parsed, uuid_string, uuid_text, uuid_v5};

verus! {

/// The namespace in which keys that are no UUID are turned into one:
/// 9c19b15a-c83d-46f7-9bc3-ead7923733f4.
pub const ROOT_NS: u128 = 0x9C19B15A_C83D_46F7_9BC3_EAD7923733F4;

/// Identifies one logical invocation attempt.
#[derive(Debug, Eq, Hash, PartialEq)]
pub struct IdempotencyKey {
    pub value: String,
}

impl Clone for IdempotencyKey {
    fn clone(&self) -> (r: Self)
        ensures
            r == *self,
    {
        IdempotencyKey { value: self.value.clone() }
    }
}

/// The namespace of keys derived from `base`: `base` itself where it reads as
/// a UUID, else the version 5 UUID of its bytes in `ROOT_NS`.
pub open spec fn key_namespace(base: Seq<char>) -> u128 {
    match uuid_parsed(base) {
        Some(v) => v,
        None => uuid_v5(ROOT_NS, encode_utf8(base)),
    }
}

/// `oplog-index-<index>`
pub open spec fn index_name(oplog_index: u64) -> Seq<char> {
    seq!['o', 'p', 'l', 'o', 'g', '-', 'i', 'n', 'd', 'e', 'x', '-'] + decimal(oplog_index as nat)
}

/// The key derived from `base` for a log position.
pub open spec fn derived_key(base: Seq<char>, oplog_index: u64) -> Seq<char> {
    uuid_text(uuid_v5(key_namespace(base), encode_utf8(index_name(oplog_index))))
}

impl IdempotencyKey {
    pub fn new(value: String) -> (r: IdempotencyKey)
        ensures
            r.value == value,
    {
        IdempotencyKey { value }
    }

    /// The key whose text is that of the UUID `value`.
    pub fn from_uuid(value: u128) -> (r: IdempotencyKey)
        ensures
            r.value@ == uuid_text(value),
    {
        IdempotencyKey { value: uuid_string(value) }
    }

    /// A fresh key: the text of a random UUID.
    pub fn fresh() -> (r: IdempotencyKey)
        ensures
            exists|v: u128| r.value@ == uuid_text(v),
    {
        Self::from_uuid(new_v4())
    }

    /// The name under which the key for a log position is derived.
    pub fn index_name(oplog_index: OplogIndex) -> (r: String)
        ensures
            r@ == index_name(oplog_index.0),
    {
        let mut s = String::from_str("oplog-index-");
        proof {
            reveal_strlit("oplog-index-");
        }
        push_decimal(&mut s, oplog_index.0);
        s
    }

    /// The key for the log position `oplog_index` under the namespace of
    /// `base` (a version 5 UUID of the position's name). The same base and
    /// position always give the same key.
    pub fn derived(base: &IdempotencyKey, oplog_index: OplogIndex) -> (r: IdempotencyKey)
        ensures
            r.value@ == derived_key(base.value@, oplog_index.0),
    {
        let namespace = match parse_uuid(base.value.as_str()) {
            Some(v) => v,
            None => new_v5(ROOT_NS, base.value.as_str().as_bytes()),
        };
        let name = Self::index_name(oplog_index);
        Self::from_uuid(new_v5(namespace, name.as_str().as_bytes()))
    }

    pub fn to_string(&self) -> (r: String)
        ensures
            r@ == self.value@,
    {
        self.value.clone()
    }
}

/// Distinct log positions are derived under distinct names, so a base key
/// yields a separate key for each position wherever the version 5 UUID keeps
/// distinct names apart; and a derived key is a function of the base key's
/// text and the position alone.
pub proof fn derived_keys_are_reproducible_and_named_apart(
    base1: Seq<char>,
    base2: Seq<char>,
    i: u64,
    j: u64,
)
    ensures
        base1 == base2 ==> derived_key(base1, i) == derived_key(base2, i),
        i != j ==> index_name(i) != index_name(j),
{
    if i != j && index_name(i) == index_name(j) {
        let prefix = seq!['o', 'p', 'l', 'o', 'g', '-', 'i', 'n', 'd', 'e', 'x', '-'];
        assert(decimal(i as nat) == index_name(i).subrange(12, index_name(i).len() as int));
        assert(decimal(j as nat) == index_name(j).subrange(12, index_name(j).len() as int));
        lemma_decimal_injective(i as nat, j as nat);
    }
}

} // verus!
