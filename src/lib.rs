//! Identity, shard placement, idempotency keys, cached worker status,
//! scheduled actions and worker filters of a durable worker executor.
pub mod cursor;
pub mod events;
pub mod filter;
pub mod ids;
pub mod idempotency;
pub mod schedule;
pub mod shard;
pub mod status;
pub mod text;
pub mod uuids;
