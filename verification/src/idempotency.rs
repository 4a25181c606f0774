//! The bounded idempotency cache guarding watcher creation: a mapping
//! from client-supplied keys to created resource identifiers.  The
//! cache is held by the `moka` crate and may evict entries at any
//! time, so its contracts promise only that entries never appear from
//! nowhere.

use vstd::prelude::*;

verus! {

/// The entries the cache currently holds.  The name stands for the
/// live contents of the `moka` cache inside an `IdempotencyMap`.
pub uninterp spec fn idempotency_contents(m: IdempotencyMap) -> Map<u128, u128>;

/// A bounded cache from idempotency key to resource identifier,
/// holding at most 25 entries.  Relies on `moka::sync::Cache`.
#[verifier::external_body]
pub struct IdempotencyMap {
    resource_id_by_idempotency_id: moka::sync::Cache<u128, u128>,
}

impl IdempotencyMap {
    /// Relies on `moka::sync::Cache::new`: a fresh cache holds no
    /// entries.
    #[verifier::external_body]
    pub fn new() -> (r: IdempotencyMap)
        ensures
            idempotency_contents(r).dom() == Set::<u128>::empty(),
    {
        IdempotencyMap { resource_id_by_idempotency_id: moka::sync::Cache::new(25) }
    }

    /// Relies on `moka::sync::Cache::get`: returns exactly the entry
    /// held for `idempotency_id` when the call starts.  Maintenance
    /// during the call may evict entries, never add them.
    #[verifier::external_body]
    pub fn get_resource_id(&mut self, idempotency_id: u128) -> (r: Option<u128>)
        ensures
            r == (if idempotency_contents(*old(self)).contains_key(idempotency_id) {
                Some(idempotency_contents(*old(self))[idempotency_id])
            } else {
                None::<u128>
            }),
            idempotency_contents(*final(self)).submap_of(idempotency_contents(*old(self))),
    {
        self.resource_id_by_idempotency_id.get(&idempotency_id)
    }

    /// Relies on `moka::sync::Cache::insert`: records the mapping.
    /// The bounded cache may evict entries during or after the call,
    /// so no more is promised than that every entry held afterwards
    /// was held before or is the one inserted.
    #[verifier::external_body]
    pub fn insert(&mut self, idempotency_id: u128, resource_id: u128)
        ensures
            idempotency_contents(*final(self)).submap_of(
                idempotency_contents(*old(self)).insert(idempotency_id, resource_id),
            ),
    {
        self.resource_id_by_idempotency_id.insert(idempotency_id, resource_id);
    }
}

} // verus!
