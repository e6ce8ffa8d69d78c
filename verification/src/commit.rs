//! The commitment/reveal helper.
//!
//! A commitment stores a cryptographic digest as a one-time token: a
//! sentinel entry with no payload whose existence is the only semantic
//! signal.  Committing demands that no token for the digest exists yet and
//! creates it; revealing demands that the token exists and, by default,
//! clears it, so a reveal cannot be replayed.  Computing the digest from
//! the revealed data is the caller's hash primitive's job; the helper only
//! keys the store by the digest it is handed.  It is routinely composed
//! with a gated transition in the same invocation, so commit and reveal
//! phases are also state-gated.

use vstd::prelude::*;

use crate::fsm::{InvocationError, StorageType};
use crate::storage::{Digest, Store, StoreKey, StoreVal};

verus! {

/// The store key of the commitment token for `digest`.
pub open spec fn spec_token_key(digest: Digest) -> StoreKey {
    StoreKey::Token(digest)
}

/// Store a commitment token for `digest` under tier `storage_type`.  The
/// commitment is accepted exactly when no token for this digest exists
/// yet; a replayed commit fails and leaves the store exactly as it was.
pub fn commit(store: &mut Store, storage_type: StorageType, digest: Digest) -> (r: Result<
    (),
    InvocationError,
>)
    ensures
        r is Ok <==> !old(store).tier(storage_type).contains_key(spec_token_key(digest)),
        r is Err ==> r == Err::<(), InvocationError>(InvocationError::CommitmentExists)
            && *final(store) == *old(store),
        r is Ok ==> final(store).tier(storage_type) == old(store).tier(storage_type).insert(
            spec_token_key(digest),
            StoreVal::Sentinel,
        ),
        r is Ok ==> forall|u: StorageType|
            u != storage_type ==> final(store).tier(u) == old(store).tier(u),
{
    let key = StoreKey::Token(digest);
    if store.has(storage_type, key) {
        Err(InvocationError::CommitmentExists)
    } else {
        store.set(storage_type, key, StoreVal::Sentinel);
        Ok(())
    }
}

/// Validate the commitment token for `digest` under tier `storage_type`,
/// and clear it when `clear_commit` is set (the default composition), so
/// that the reveal cannot be replayed.  The reveal is accepted exactly
/// when the token exists; a failed reveal leaves the store exactly as it
/// was.
pub fn reveal_commitment(
    store: &mut Store,
    storage_type: StorageType,
    digest: Digest,
    clear_commit: bool,
) -> (r: Result<(), InvocationError>)
    ensures
        r is Ok <==> old(store).tier(storage_type).contains_key(spec_token_key(digest)),
        r is Err ==> r == Err::<(), InvocationError>(InvocationError::CommitmentMissing)
            && *final(store) == *old(store),
        r is Ok && clear_commit ==> final(store).tier(storage_type) == old(store).tier(
            storage_type,
        ).remove(spec_token_key(digest)),
        r is Ok && clear_commit ==> forall|u: StorageType|
            u != storage_type ==> final(store).tier(u) == old(store).tier(u),
        r is Ok && !clear_commit ==> *final(store) == *old(store),
{
    let key = StoreKey::Token(digest);
    if !store.has(storage_type, key) {
        Err(InvocationError::CommitmentMissing)
    } else {
        if clear_commit {
            store.remove(storage_type, key);
        }
        Ok(())
    }
}

} // verus!
