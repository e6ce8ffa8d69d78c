//! A rudimentary mock storage for testing and profiling outside the real
//! persistence environment.
//!
//! The mocks answer every question with a fixed value — `has` is always
//! true, `get` always finds nothing, writes and removals change nothing —
//! and their contracts say exactly that.

use vstd::prelude::*;

verus! {

/// Mock of the instance-scoped storage tier.
pub struct MockStorageInstance {}

impl MockStorageInstance {
    pub fn new() -> (r: Self) {
        MockStorageInstance {  }
    }

    /// Always reports the entry as present.
    pub fn has<K>(&self, _key: &K) -> (r: bool)
        ensures
            r,
    {
        true
    }

    /// Never finds a value.
    pub fn get<K, V>(&self, _key: &K) -> (r: Option<V>)
        ensures
            r is None,
    {
        None
    }

    /// Stores nothing.
    pub fn set<K, V>(&self, _key: &K, _val: &V) {
    }

    /// Extends nothing.
    pub fn extend_ttl(&self, _threshold: u32, _extend_to: u32) {
    }

    /// Removes nothing.
    pub fn remove<K>(&self, _key: &K) {
    }
}

/// Mock of the long-lived storage tier.
pub struct MockStoragePersistent {}

impl MockStoragePersistent {
    pub fn new() -> (r: Self) {
        MockStoragePersistent {  }
    }

    /// Always reports the entry as present.
    pub fn has<K>(&self, _key: &K) -> (r: bool)
        ensures
            r,
    {
        true
    }

    /// Never finds a value.
    pub fn get<K, V>(&self, _key: &K) -> (r: Option<V>)
        ensures
            r is None,
    {
        None
    }

    /// Stores nothing.
    pub fn set<K, V>(&self, _key: &K, _val: &V) {
    }

    /// Extends nothing.
    pub fn extend_ttl<K>(&self, _key: &K, _threshold: u32, _extend_to: u32) {
    }

    /// Removes nothing.
    pub fn remove<K>(&self, _key: &K) {
    }
}

/// Mock of the short-lived storage tier.
pub struct MockStorageTemporary {}

impl MockStorageTemporary {
    pub fn new() -> (r: Self) {
        MockStorageTemporary {  }
    }

    /// Always reports the entry as present.
    pub fn has<K>(&self, _key: &K) -> (r: bool)
        ensures
            r,
    {
        true
    }

    /// Never finds a value.
    pub fn get<K, V>(&self, _key: &K) -> (r: Option<V>)
        ensures
            r is None,
    {
        None
    }

    /// Stores nothing.
    pub fn set<K, V>(&self, _key: &K, _val: &V) {
    }

    /// Extends nothing.
    pub fn extend_ttl<K>(&self, _key: &K, _threshold: u32, _extend_to: u32) {
    }

    /// Removes nothing.
    pub fn remove<K>(&self, _key: &K) {
    }
}

} // verus!
