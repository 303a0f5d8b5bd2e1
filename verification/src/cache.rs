//! The bounded key-value store with least-recently-used ordering.
//!
//! The store keeps its entries in a `linked_hash_map::LinkedHashMap`, whose
//! hash index gives key lookup and whose internal list keeps the entries in
//! recency order: the front entry is the least recently used. The map is
//! taken on trust through a small set of wrappers; everything above them is
//! verified against the model of `crate::model`.

use vstd::prelude::*;

use crate::model::after_put;
use crate::model::byte_len;
use crate::model::distinct_keys;
use crate::model::entries_within;
use crate::model::has_key;
use crate::model::lemma_push_distinct;
use crate::model::lemma_push_within;
use crate::model::lemma_without_key_absent;
use crate::model::lemma_without_key_distinct;
use crate::model::lemma_without_key_len;
use crate::model::lemma_without_key_within;
use crate::model::value_of;
use crate::model::without_key;

verus! {

broadcast use vstd::slice::group_slice_axioms;

/// The number of bytes of the string, which is also the byte length its
/// characters take once UTF-8 encoded.
pub fn str_byte_len(s: &str) -> (n: usize)
    ensures
        n == byte_len(s@),
{
    s.as_bytes().len()
}

/// The ways a store operation can fail.
#[derive(Clone, Copy, Debug, PartialEq, Eq, Structural)]
pub enum CacheError {
    KeyNotFound,
    KeyTooLarge,
    ValueTooLarge,
}

impl CacheError {
    /// A short description of the error, as shown to callers.
    pub fn message(&self) -> (m: &'static str)
        ensures
            *self is KeyNotFound ==> m@ == "key not found"@,
            *self is KeyTooLarge ==> m@ == "key exceeds maximum length"@,
            *self is ValueTooLarge ==> m@ == "value exceeds maximum length"@,
    {
        match self {
            CacheError::KeyNotFound => "key not found",
            CacheError::KeyTooLarge => "key exceeds maximum length",
            CacheError::ValueTooLarge => "value exceeds maximum length",
        }
    }
}

#[verifier::external_type_specification]
#[verifier::external_body]
#[verifier::reject_recursive_types(K)]
#[verifier::reject_recursive_types(V)]
#[verifier::reject_recursive_types(S)]
pub struct ExLinkedHashMap<K, V, S>(linked_hash_map::LinkedHashMap<K, V, S>);

/// The entries the map holds, in recency order: the first entry is the least
/// recently used, the last the most recently used.
pub uninterp spec fn lhm_entries(
    m: linked_hash_map::LinkedHashMap<String, String>,
) -> Seq<(Seq<char>, Seq<char>)>;

/// Relies on `linked_hash_map::LinkedHashMap::new`: the new map is empty.
#[verifier::external_body]
fn lhm_new() -> (m: linked_hash_map::LinkedHashMap<String, String>)
    ensures
        lhm_entries(m) == Seq::<(Seq<char>, Seq<char>)>::empty(),
{
    linked_hash_map::LinkedHashMap::new()
}

/// Relies on `linked_hash_map::LinkedHashMap::insert`: it stores the value
/// under the key, detaches any old entry for that key, attaches the entry at
/// the back of the recency list, and returns the old value if one was there.
#[verifier::external_body]
fn lhm_insert(
    m: &mut linked_hash_map::LinkedHashMap<String, String>,
    k: String,
    v: String,
) -> (r: Option<String>)
    ensures
        lhm_entries(*final(m)) == without_key(lhm_entries(*old(m)), k@).push((k@, v@)),
        r is Some <==> has_key(lhm_entries(*old(m)), k@),
        r is Some ==> r->0@ == value_of(lhm_entries(*old(m)), k@),
{
    m.insert(k, v)
}

/// Relies on `linked_hash_map::LinkedHashMap::remove`: it detaches the entry
/// for the key, if any, and returns its value.
#[verifier::external_body]
fn lhm_remove(m: &mut linked_hash_map::LinkedHashMap<String, String>, k: &str) -> (r: Option<
    String,
>)
    ensures
        lhm_entries(*final(m)) == without_key(lhm_entries(*old(m)), k@),
        r is Some <==> has_key(lhm_entries(*old(m)), k@),
        r is Some ==> r->0@ == value_of(lhm_entries(*old(m)), k@),
{
    m.remove(k)
}

/// Relies on `linked_hash_map::LinkedHashMap::pop_front`: it removes and
/// returns the front entry of the recency list, the least recently used one.
#[verifier::external_body]
fn lhm_pop_front(m: &mut linked_hash_map::LinkedHashMap<String, String>) -> (r: Option<
    (String, String),
>)
    ensures
        lhm_entries(*old(m)).len() == 0 ==> r is None && lhm_entries(*final(m)) == lhm_entries(
            *old(m),
        ),
        lhm_entries(*old(m)).len() > 0 ==> r is Some && (r->0).0@ == lhm_entries(*old(m))[0].0
            && (r->0).1@ == lhm_entries(*old(m))[0].1 && lhm_entries(*final(m)) == lhm_entries(
            *old(m),
        ).drop_first(),
{
    m.pop_front()
}

/// Relies on `linked_hash_map::LinkedHashMap::len`: the number of entries.
#[verifier::external_body]
fn lhm_len(m: &linked_hash_map::LinkedHashMap<String, String>) -> (n: usize)
    ensures
        n == lhm_entries(*m).len(),
{
    m.len()
}

/// A bounded mapping from string keys to string values that keeps its
/// entries in recency order and enforces per-key and per-value byte-length
/// limits fixed at construction.
pub struct Cache {
    data: linked_hash_map::LinkedHashMap<String, String>,
    max_key_size: usize,
    max_value_size: usize,
}

impl View for Cache {
    type V = Seq<(Seq<char>, Seq<char>)>;

    closed spec fn view(&self) -> Seq<(Seq<char>, Seq<char>)> {
        lhm_entries(self.data)
    }
}

impl Cache {
    /// The per-key byte-length limit the store was built with.
    pub closed spec fn key_limit(&self) -> usize {
        self.max_key_size
    }

    /// The per-value byte-length limit the store was built with.
    pub closed spec fn value_limit(&self) -> usize {
        self.max_value_size
    }

    /// The store's invariant: keys are distinct and every entry is within
    /// the size limits.
    pub open spec fn wf(&self) -> bool {
        &&& distinct_keys(self@)
        &&& entries_within(self@, self.key_limit() as nat, self.value_limit() as nat)
    }

    /// Whether the store and its limits are unchanged but for the entries.
    pub open spec fn same_limits(&self, other: &Cache) -> bool {
        self.key_limit() == other.key_limit() && self.value_limit() == other.value_limit()
    }

    /// Creates an empty store with the given byte-length limits.
    pub fn new(max_key_size: usize, max_value_size: usize) -> (c: Cache)
        ensures
            c.wf(),
            c@ == Seq::<(Seq<char>, Seq<char>)>::empty(),
            c.key_limit() == max_key_size,
            c.value_limit() == max_value_size,
    {
        let c = Cache { data: lhm_new(), max_key_size, max_value_size };
        proof {
            assert(distinct_keys(c@));
            assert(entries_within(c@, max_key_size as nat, max_value_size as nat));
        }
        c
    }

    /// The number of entries the store holds.
    pub fn len(&self) -> (n: usize)
        ensures
            n == self@.len(),
    {
        lhm_len(&self.data)
    }

    /// Inserts the value under the key, or replaces the value of an existing
    /// entry, and marks the entry most recently used. Fails, leaving the
    /// store unchanged, when the key or the value is over its limit; the key
    /// is checked first.
    pub fn put(&mut self, key: String, value: String) -> (r: Result<(), CacheError>)
        requires
            old(self).wf(),
        ensures
            final(self).wf(),
            final(self).same_limits(old(self)),
            byte_len(key@) > old(self).key_limit() ==> r == Err::<(), CacheError>(
                CacheError::KeyTooLarge,
            ) && final(self)@ == old(self)@,
            byte_len(key@) <= old(self).key_limit() && byte_len(value@) > old(self).value_limit()
                ==> r == Err::<(), CacheError>(CacheError::ValueTooLarge) && final(self)@ == old(
                self,
            )@,
            byte_len(key@) <= old(self).key_limit() && byte_len(value@) <= old(self).value_limit()
                ==> r == Ok::<(), CacheError>(()) && final(self)@ == after_put(
                old(self)@,
                key@,
                value@,
            ) && final(self)@.len() == old(self)@.len() + (if has_key(old(self)@, key@) {
                0int
            } else {
                1int
            }),
    {
        if str_byte_len(key.as_str()) > self.max_key_size {
            return Err(CacheError::KeyTooLarge);
        }
        if str_byte_len(value.as_str()) > self.max_value_size {
            return Err(CacheError::ValueTooLarge);
        }
        let ghost s = self@;
        let ghost k = key@;
        let ghost v = value@;
        lhm_insert(&mut self.data, key, value);
        proof {
            lemma_without_key_distinct(s, k);
            lemma_without_key_within(s, k, self.max_key_size as nat, self.max_value_size as nat);
            lemma_without_key_absent(s, k);
            lemma_push_distinct(without_key(s, k), (k, v));
            lemma_push_within(
                without_key(s, k),
                (k, v),
                self.max_key_size as nat,
                self.max_value_size as nat,
            );
            lemma_without_key_len(s, k);
        }
        Ok(())
    }

    /// Looks the key up. On a hit, marks the entry most recently used and
    /// returns a copy of its value; on a miss, fails with `KeyNotFound` and
    /// leaves the store unchanged.
    pub fn get(&mut self, key: &str) -> (r: Result<String, CacheError>)
        requires
            old(self).wf(),
        ensures
            final(self).wf(),
            final(self).same_limits(old(self)),
            has_key(old(self)@, key@) ==> r is Ok && r->Ok_0@ == value_of(old(self)@, key@)
                && final(self)@ == after_put(old(self)@, key@, value_of(old(self)@, key@)),
            !has_key(old(self)@, key@) ==> r == Err::<String, CacheError>(CacheError::KeyNotFound)
                && final(self)@ == old(self)@,
    {
        let ghost s = self@;
        let ghost k = key@;
        match lhm_remove(&mut self.data, key) {
            Some(value) => {
                let ret = value.clone();
                proof {
                    lemma_without_key_distinct(s, k);
                    lemma_without_key_within(
                        s,
                        k,
                        self.max_key_size as nat,
                        self.max_value_size as nat,
                    );
                    lemma_without_key_absent(s, k);
                    lemma_without_key_len(without_key(s, k), k);
                    lemma_value_of_within(s, k, self.max_key_size as nat, self.max_value_size as nat);
                    lemma_push_distinct(without_key(s, k), (k, value_of(s, k)));
                    lemma_push_within(
                        without_key(s, k),
                        (k, value_of(s, k)),
                        self.max_key_size as nat,
                        self.max_value_size as nat,
                    );
                }
                lhm_insert(&mut self.data, key.to_owned(), value);
                Ok(ret)
            },
            None => {
                proof {
                    lemma_without_key_len(s, k);
                }
                Err(CacheError::KeyNotFound)
            },
        }
    }

    /// Removes up to `max_count` entries from the least recently used end,
    /// stopping early when the store becomes empty, and returns the number
    /// actually removed.
    pub fn evict_lru(&mut self, max_count: usize) -> (removed: usize)
        requires
            old(self).wf(),
        ensures
            final(self).wf(),
            final(self).same_limits(old(self)),
            removed == vstd::math::min(max_count as int, old(self)@.len() as int),
            final(self)@ == old(self)@.skip(removed as int),
    {
        let mut removed: usize = 0;
        while removed < max_count
            invariant
                self.wf(),
                self.same_limits(old(self)),
                removed <= max_count,
                removed <= old(self)@.len(),
                self@ == old(self)@.skip(removed as int),
            ensures
                removed == max_count || self@.len() == 0,
            decreases max_count - removed,
        {
            let ghost s = self@;
            let r = lhm_pop_front(&mut self.data);
            match r {
                Some(_) => {
                    proof {
                        assert(self@ == s.drop_first());
                        assert(s.drop_first() =~= old(self)@.skip(removed + 1));
                    }
                    removed = removed + 1;
                },
                None => {
                    break ;
                },
            }
        }
        proof {
            assert(self@ =~= old(self)@.skip(removed as int));
        }
        removed
    }
}

/// The value stored under a present key is within the value limit.
pub proof fn lemma_value_of_within(s: Seq<(Seq<char>, Seq<char>)>, k: Seq<char>, mk: nat, mv: nat)
    requires
        entries_within(s, mk, mv),
        has_key(s, k),
    ensures
        byte_len(value_of(s, k)) <= mv,
        byte_len(k) <= mk,
    decreases s.len(),
{
    if s[0].0 == k {
    } else {
        lemma_value_of_within(s.drop_first(), k, mk, mv);
    }
}

} // verus!

