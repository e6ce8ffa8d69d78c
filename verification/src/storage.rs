//! The persistent store adapter.
//!
//! A keyed store with three persistence tiers.  Each tier maps opaque keys
//! to values; absence of an entry is meaningful (it stands for
//! "uninitialized") and is reported as `None` rather than as an error.
//! Each tier is abstracted as a [`Map`] from keys to values, and every
//! operation states exactly how it changes that map; a write to one tier
//! never touches another.

use vstd::prelude::*;

use crate::encoding::Tagged;
use crate::fsm::StorageType;

verus! {

/// A cryptographic digest used as a one-time commitment token key.
#[derive(Clone, Copy, Debug, PartialEq, Eq, Structural)]
pub struct Digest {
    pub w0: u64,
    pub w1: u64,
    pub w2: u64,
    pub w3: u64,
}

/// A store key: an encoded tagged variant (for state entries and plain data
/// entries) or a commitment digest.  Keys are compared structurally, so the
/// encoding preserves tag-plus-payload equality.
#[derive(Clone, Copy, Debug, PartialEq, Eq, Structural)]
pub enum StoreKey {
    /// Keyed by a tagged variant, typically a region.
    Variant(Tagged),
    /// Keyed by a commitment digest.
    Token(Digest),
}

/// A stored value.
#[derive(Clone, Copy, Debug, PartialEq, Eq, Structural)]
pub enum StoreVal {
    /// An encoded tagged variant, typically a state.
    Variant(Tagged),
    /// A plain two-word record.
    Record(u64, u64),
    /// A sentinel with no payload: the existence of the entry is the only
    /// semantic signal.
    Sentinel,
}

/// What a lookup of `key` in the tier map `m` returns: the entry's value if
/// one is present, `None` otherwise.
pub open spec fn lookup(m: Map<StoreKey, StoreVal>, key: StoreKey) -> Option<StoreVal> {
    if m.contains_key(key) {
        Some(m[key])
    } else {
        None
    }
}

#[derive(Clone, Copy, Debug, PartialEq, Eq)]
struct Entry {
    key: StoreKey,
    val: StoreVal,
}

spec fn distinct_keys(s: Seq<Entry>) -> bool {
    forall|i: int, j: int| 0 <= i < j < s.len() ==> s[i].key != s[j].key
}

spec fn entries_map(s: Seq<Entry>) -> Map<StoreKey, StoreVal>
    decreases s.len(),
{
    if s.len() == 0 {
        Map::empty()
    } else {
        entries_map(s.drop_last()).insert(s.last().key, s.last().val)
    }
}

proof fn lemma_entries_map_domain(s: Seq<Entry>)
    ensures
        forall|k: StoreKey|
            entries_map(s).contains_key(k) <==> exists|i: int| 0 <= i < s.len() && s[i].key == k,
    decreases s.len(),
{
    if s.len() > 0 {
        lemma_entries_map_domain(s.drop_last());
        assert(entries_map(s) == entries_map(s.drop_last()).insert(s.last().key, s.last().val));
        assert forall|k: StoreKey| entries_map(s).contains_key(k) implies exists|i: int|
            0 <= i < s.len() && s[i].key == k by {
            if k == s.last().key {
                assert(s[s.len() - 1].key == k);
            } else {
                assert(entries_map(s.drop_last()).contains_key(k));
                let i = choose|i: int| 0 <= i < s.drop_last().len() && s.drop_last()[i].key == k;
                assert(s.drop_last()[i] == s[i]);
                assert(s[i].key == k);
            }
        }
        assert forall|k: StoreKey|
            exists|i: int| 0 <= i < s.len() && s[i].key == k implies entries_map(
            s,
        ).contains_key(k) by {
            let i = choose|i: int| 0 <= i < s.len() && s[i].key == k;
            if i < s.len() - 1 {
                assert(s.drop_last()[i].key == k);
                assert(entries_map(s.drop_last()).contains_key(k));
            }
        }
    }
}

proof fn lemma_entries_map_index(s: Seq<Entry>, i: int)
    requires
        distinct_keys(s),
        0 <= i < s.len(),
    ensures
        entries_map(s).contains_key(s[i].key),
        entries_map(s)[s[i].key] == s[i].val,
    decreases s.len(),
{
    lemma_entries_map_domain(s);
    if i < s.len() - 1 {
        assert(distinct_keys(s.drop_last()));
        lemma_entries_map_index(s.drop_last(), i);
        assert(s[i].key != s.last().key);
    }
}

proof fn lemma_entries_map_push(s: Seq<Entry>, e: Entry)
    ensures
        entries_map(s.push(e)) == entries_map(s).insert(e.key, e.val),
{
    assert(s.push(e).drop_last() =~= s);
    assert(s.push(e).last() == e);
}

proof fn lemma_entries_map_remove(s: Seq<Entry>, i: int)
    requires
        distinct_keys(s),
        0 <= i < s.len(),
    ensures
        entries_map(s.remove(i)) == entries_map(s).remove(s[i].key),
    decreases s.len(),
{
    lemma_entries_map_domain(s);
    lemma_entries_map_domain(s.drop_last());
    if i == s.len() - 1 {
        assert(s.remove(i) =~= s.drop_last());
        // The removed key is not in the map of the remaining prefix.
        assert(!entries_map(s.drop_last()).contains_key(s[i].key));
        assert(entries_map(s.drop_last()).insert(s.last().key, s.last().val).remove(s[i].key)
            =~= entries_map(s.drop_last()));
    } else {
        assert(distinct_keys(s.drop_last()));
        lemma_entries_map_remove(s.drop_last(), i);
        assert(s.remove(i).drop_last() =~= s.drop_last().remove(i));
        assert(s.remove(i).last() == s.last());
        assert(entries_map(s.remove(i)) == entries_map(s.drop_last().remove(i)).insert(
            s.last().key,
            s.last().val,
        ));
        assert(entries_map(s.drop_last()).remove(s[i].key).insert(s.last().key, s.last().val)
            =~= entries_map(s.drop_last()).insert(s.last().key, s.last().val).remove(s[i].key));
    }
}

fn find_index(v: &Vec<Entry>, key: StoreKey) -> (r: Option<usize>)
    ensures
        match r {
            Some(i) => i < v@.len() && v@[i as int].key == key,
            None => forall|j: int| 0 <= j < v@.len() ==> v@[j].key != key,
        },
{
    let mut i: usize = 0;
    while i < v.len()
        invariant
            i <= v@.len(),
            forall|j: int| 0 <= j < i ==> v@[j].key != key,
        decreases v@.len() - i,
    {
        if v[i].key == key {
            return Some(i);
        }
        i = i + 1;
    }
    None
}

fn vec_get(v: &Vec<Entry>, key: StoreKey) -> (r: Option<StoreVal>)
    requires
        distinct_keys(v@),
    ensures
        r == lookup(entries_map(v@), key),
{
    proof {
        lemma_entries_map_domain(v@);
    }
    match find_index(v, key) {
        Some(i) => {
            proof {
                lemma_entries_map_index(v@, i as int);
            }
            Some(v[i].val)
        },
        None => None,
    }
}

fn vec_set(v: &mut Vec<Entry>, key: StoreKey, val: StoreVal)
    requires
        distinct_keys(old(v)@),
    ensures
        distinct_keys(final(v)@),
        entries_map(final(v)@) == entries_map(old(v)@).insert(key, val),
{
    proof {
        lemma_entries_map_domain(v@);
    }
    let entry = Entry { key, val };
    match find_index(v, key) {
        Some(i) => {
            let ghost s0 = v@;
            v.remove(i);
            proof {
                lemma_entries_map_remove(s0, i as int);
                assert(distinct_keys(v@));
            }
            let ghost s1 = v@;
            v.push(entry);
            proof {
                lemma_entries_map_push(s1, entry);
                lemma_entries_map_domain(s1);
                assert(entries_map(v@) =~= entries_map(s0).insert(key, val));
                assert forall|a: int, b: int| 0 <= a < b < v@.len() implies v@[a].key
                    != v@[b].key by {
                    if b == v@.len() - 1 {
                        assert(v@[a] == s0.remove(i as int)[a]);
                    }
                }
            }
        },
        None => {
            let ghost s0 = v@;
            v.push(entry);
            proof {
                lemma_entries_map_push(s0, entry);
            }
        },
    }
}

fn vec_remove(v: &mut Vec<Entry>, key: StoreKey)
    requires
        distinct_keys(old(v)@),
    ensures
        distinct_keys(final(v)@),
        entries_map(final(v)@) == entries_map(old(v)@).remove(key),
{
    proof {
        lemma_entries_map_domain(v@);
    }
    match find_index(v, key) {
        Some(i) => {
            let ghost s0 = v@;
            v.remove(i);
            proof {
                lemma_entries_map_remove(s0, i as int);
                assert(distinct_keys(v@));
            }
        },
        None => {
            proof {
                assert(!entries_map(v@).contains_key(key));
                assert(entries_map(v@).remove(key) =~= entries_map(v@));
            }
        },
    }
}

fn copy_entries(v: &Vec<Entry>) -> (r: Vec<Entry>)
    ensures
        r@ == v@,
{
    let mut r: Vec<Entry> = Vec::new();
    let mut i: usize = 0;
    while i < v.len()
        invariant
            i <= v@.len(),
            r@ == v@.subrange(0, i as int),
        decreases v@.len() - i,
    {
        r.push(v[i]);
        proof {
            assert(r@ =~= v@.subrange(0, i + 1));
        }
        i = i + 1;
    }
    proof {
        assert(r@ =~= v@);
    }
    r
}

/// The store: three independently keyed tiers of persisted entries.
///
/// For a given key and tier at most one value is persisted at a time;
/// absence of an entry stands for "uninitialized".
#[derive(Debug, PartialEq, Eq)]
pub struct Store {
    instance: Vec<Entry>,
    persistent: Vec<Entry>,
    temporary: Vec<Entry>,
}

impl Store {
    #[verifier::type_invariant]
    spec fn inv(self) -> bool {
        distinct_keys(self.instance@) && distinct_keys(self.persistent@) && distinct_keys(
            self.temporary@,
        )
    }

    /// The contents of one tier, as a map from keys to values.
    pub closed spec fn tier(self, t: StorageType) -> Map<StoreKey, StoreVal> {
        match t {
            StorageType::Instance => entries_map(self.instance@),
            StorageType::Persistent => entries_map(self.persistent@),
            StorageType::Temporary => entries_map(self.temporary@),
        }
    }

    /// An empty store: every tier is empty.
    pub fn new() -> (r: Store)
        ensures
            forall|t: StorageType| r.tier(t) == Map::<StoreKey, StoreVal>::empty(),
    {
        Store { instance: Vec::new(), persistent: Vec::new(), temporary: Vec::new() }
    }

    /// Read the entry under `key` in tier `t`; absence is `None`, not an
    /// error.
    pub fn get(&self, t: StorageType, key: StoreKey) -> (r: Option<StoreVal>)
        ensures
            r == lookup(self.tier(t), key),
    {
        proof {
            use_type_invariant(&*self);
        }
        match t {
            StorageType::Instance => vec_get(&self.instance, key),
            StorageType::Persistent => vec_get(&self.persistent, key),
            StorageType::Temporary => vec_get(&self.temporary, key),
        }
    }

    /// Whether an entry exists under `key` in tier `t`.
    pub fn has(&self, t: StorageType, key: StoreKey) -> (r: bool)
        ensures
            r == self.tier(t).contains_key(key),
    {
        self.get(t, key).is_some()
    }

    /// Write `val` under `key` in tier `t`, replacing any previous entry.
    /// No other tier and no other key is touched.
    pub fn set(&mut self, t: StorageType, key: StoreKey, val: StoreVal)
        ensures
            final(self).tier(t) == old(self).tier(t).insert(key, val),
            forall|u: StorageType| u != t ==> final(self).tier(u) == old(self).tier(u),
    {
        proof {
            use_type_invariant(&*self);
        }
        let mut v: Vec<Entry> = Vec::new();
        match t {
            StorageType::Instance => {
                std::mem::swap(&mut self.instance, &mut v);
                vec_set(&mut v, key, val);
                std::mem::swap(&mut self.instance, &mut v);
            },
            StorageType::Persistent => {
                std::mem::swap(&mut self.persistent, &mut v);
                vec_set(&mut v, key, val);
                std::mem::swap(&mut self.persistent, &mut v);
            },
            StorageType::Temporary => {
                std::mem::swap(&mut self.temporary, &mut v);
                vec_set(&mut v, key, val);
                std::mem::swap(&mut self.temporary, &mut v);
            },
        }
    }

    /// Delete the entry under `key` in tier `t`, if any.  No other tier and
    /// no other key is touched.
    pub fn remove(&mut self, t: StorageType, key: StoreKey)
        ensures
            final(self).tier(t) == old(self).tier(t).remove(key),
            forall|u: StorageType| u != t ==> final(self).tier(u) == old(self).tier(u),
    {
        proof {
            use_type_invariant(&*self);
        }
        let mut v: Vec<Entry> = Vec::new();
        match t {
            StorageType::Instance => {
                std::mem::swap(&mut self.instance, &mut v);
                vec_remove(&mut v, key);
                std::mem::swap(&mut self.instance, &mut v);
            },
            StorageType::Persistent => {
                std::mem::swap(&mut self.persistent, &mut v);
                vec_remove(&mut v, key);
                std::mem::swap(&mut self.persistent, &mut v);
            },
            StorageType::Temporary => {
                std::mem::swap(&mut self.temporary, &mut v);
                vec_remove(&mut v, key);
                std::mem::swap(&mut self.temporary, &mut v);
            },
        }
    }

    /// An independent copy of the store, tier for tier and entry for entry.
    pub fn duplicate(&self) -> (r: Store)
        ensures
            forall|t: StorageType| r.tier(t) == self.tier(t),
    {
        proof {
            use_type_invariant(&*self);
        }
        Store {
            instance: copy_entries(&self.instance),
            persistent: copy_entries(&self.persistent),
            temporary: copy_entries(&self.temporary),
        }
    }

    /// Ask the environment to extend the lifetime of the entry under `key`
    /// in tier `t` so that it survives at least to `extend_to` whenever it
    /// has fewer than `threshold` periods left.  Lifetime accounting is the
    /// environment's own; the store's contents are unchanged, and the call
    /// reports whether the entry exists.
    pub fn extend_ttl(&self, t: StorageType, key: StoreKey, threshold: u32, extend_to: u32) -> (r:
        bool)
        ensures
            r == self.tier(t).contains_key(key),
    {
        let _ = threshold;
        let _ = extend_to;
        self.has(t, key)
    }
}

} // verus!
