//! Mathematical model of the store's contents.
//!
//! The contents are modelled as a sequence of (key, value) pairs ordered by
//! recency: the first entry is the least recently used, the last entry the
//! most recently used. Keys and values are sequences of characters; sizes
//! are measured in UTF-8 bytes, as the store's limits are byte lengths.

use vstd::prelude::*;

verus! {

/// The byte length of a string with the given characters, once UTF-8 encoded.
pub open spec fn byte_len(s: Seq<char>) -> nat {
    vstd::utf8::encode_utf8(s).len()
}

/// Whether some entry of `s` has key `k`.
pub open spec fn has_key(s: Seq<(Seq<char>, Seq<char>)>, k: Seq<char>) -> bool
    decreases s.len(),
{
    s.len() > 0 && (s[0].0 == k || has_key(s.drop_first(), k))
}

/// The value of the first entry of `s` whose key is `k` (the only one, when
/// keys are distinct); the empty value when no entry has key `k`.
pub open spec fn value_of(s: Seq<(Seq<char>, Seq<char>)>, k: Seq<char>) -> Seq<char>
    decreases s.len(),
{
    if s.len() == 0 {
        Seq::empty()
    } else if s[0].0 == k {
        s[0].1
    } else {
        value_of(s.drop_first(), k)
    }
}

/// `s` with every entry keyed by `k` removed, other entries kept in order.
pub open spec fn without_key(
    s: Seq<(Seq<char>, Seq<char>)>,
    k: Seq<char>,
) -> Seq<(Seq<char>, Seq<char>)>
    decreases s.len(),
{
    if s.len() == 0 {
        Seq::empty()
    } else if s[0].0 == k {
        without_key(s.drop_first(), k)
    } else {
        seq![s[0]] + without_key(s.drop_first(), k)
    }
}

/// No two entries of `s` share a key.
pub open spec fn distinct_keys(s: Seq<(Seq<char>, Seq<char>)>) -> bool
    decreases s.len(),
{
    s.len() == 0 || (!has_key(s.drop_first(), s[0].0) && distinct_keys(s.drop_first()))
}

/// Every key of `s` is at most `mk` bytes and every value at most `mv` bytes.
pub open spec fn entries_within(s: Seq<(Seq<char>, Seq<char>)>, mk: nat, mv: nat) -> bool
    decreases s.len(),
{
    s.len() == 0 || (byte_len(s[0].0) <= mk && byte_len(s[0].1) <= mv && entries_within(
        s.drop_first(),
        mk,
        mv,
    ))
}

/// The store's contents after inserting or refreshing key `k` with value `v`:
/// any old entry for `k` is gone and `(k, v)` sits at the most recent end.
pub open spec fn after_put(
    s: Seq<(Seq<char>, Seq<char>)>,
    k: Seq<char>,
    v: Seq<char>,
) -> Seq<(Seq<char>, Seq<char>)> {
    without_key(s, k).push((k, v))
}

/// Appending an entry adds exactly its key to the keys of `s`.
pub proof fn lemma_push_has_key(
    s: Seq<(Seq<char>, Seq<char>)>,
    e: (Seq<char>, Seq<char>),
    k: Seq<char>,
)
    ensures
        has_key(s.push(e), k) == (has_key(s, k) || e.0 == k),
    decreases s.len(),
{
    if s.len() == 0 {
        assert(s.push(e)[0] == e);
        assert(s.push(e).drop_first() =~= Seq::<(Seq<char>, Seq<char>)>::empty());
        assert(!has_key(Seq::<(Seq<char>, Seq<char>)>::empty(), k));
    } else {
        assert(s.push(e)[0] == s[0]);
        assert(s.push(e).drop_first() =~= s.drop_first().push(e));
        lemma_push_has_key(s.drop_first(), e, k);
    }
}

/// Appending an entry leaves the values of present keys alone and gives the
/// appended value to a key that was absent.
pub proof fn lemma_push_value_of(
    s: Seq<(Seq<char>, Seq<char>)>,
    e: (Seq<char>, Seq<char>),
    k: Seq<char>,
)
    ensures
        has_key(s, k) ==> value_of(s.push(e), k) == value_of(s, k),
        !has_key(s, k) && e.0 == k ==> value_of(s.push(e), k) == e.1,
    decreases s.len(),
{
    if s.len() == 0 {
        assert(s.push(e)[0] == e);
    } else {
        assert(s.push(e)[0] == s[0]);
        assert(s.push(e).drop_first() =~= s.drop_first().push(e));
        lemma_push_value_of(s.drop_first(), e, k);
    }
}

/// Appending an entry with a fresh key keeps the keys distinct.
pub proof fn lemma_push_distinct(s: Seq<(Seq<char>, Seq<char>)>, e: (Seq<char>, Seq<char>))
    requires
        distinct_keys(s),
        !has_key(s, e.0),
    ensures
        distinct_keys(s.push(e)),
    decreases s.len(),
{
    if s.len() == 0 {
        assert(s.push(e)[0] == e);
        assert(s.push(e).drop_first() =~= Seq::<(Seq<char>, Seq<char>)>::empty());
        assert(!has_key(Seq::<(Seq<char>, Seq<char>)>::empty(), e.0));
        assert(distinct_keys(Seq::<(Seq<char>, Seq<char>)>::empty()));
    } else {
        assert(s.push(e)[0] == s[0]);
        assert(s.push(e).drop_first() =~= s.drop_first().push(e));
        lemma_push_distinct(s.drop_first(), e);
        lemma_push_has_key(s.drop_first(), e, s[0].0);
    }
}

/// Appending an entry within the size limits keeps every entry within them.
pub proof fn lemma_push_within(
    s: Seq<(Seq<char>, Seq<char>)>,
    e: (Seq<char>, Seq<char>),
    mk: nat,
    mv: nat,
)
    requires
        entries_within(s, mk, mv),
        byte_len(e.0) <= mk,
        byte_len(e.1) <= mv,
    ensures
        entries_within(s.push(e), mk, mv),
    decreases s.len(),
{
    if s.len() == 0 {
        assert(s.push(e)[0] == e);
        assert(s.push(e).drop_first() =~= Seq::<(Seq<char>, Seq<char>)>::empty());
        assert(entries_within(Seq::<(Seq<char>, Seq<char>)>::empty(), mk, mv));
    } else {
        assert(s.push(e)[0] == s[0]);
        assert(s.push(e).drop_first() =~= s.drop_first().push(e));
        lemma_push_within(s.drop_first(), e, mk, mv);
    }
}

/// Removing a key removes it: the result has no entry keyed by `k`.
pub proof fn lemma_without_key_absent(s: Seq<(Seq<char>, Seq<char>)>, k: Seq<char>)
    ensures
        !has_key(without_key(s, k), k),
    decreases s.len(),
{
    if s.len() == 0 {
    } else if s[0].0 == k {
        lemma_without_key_absent(s.drop_first(), k);
    } else {
        let rest = without_key(s.drop_first(), k);
        assert((seq![s[0]] + rest)[0] == s[0]);
        assert((seq![s[0]] + rest).drop_first() =~= rest);
        lemma_without_key_absent(s.drop_first(), k);
    }
}

/// Removing one key leaves every other key, and its value, untouched.
pub proof fn lemma_without_key_other(s: Seq<(Seq<char>, Seq<char>)>, k: Seq<char>, j: Seq<char>)
    requires
        j != k,
    ensures
        has_key(without_key(s, k), j) == has_key(s, j),
        has_key(s, j) ==> value_of(without_key(s, k), j) == value_of(s, j),
    decreases s.len(),
{
    if s.len() == 0 {
    } else if s[0].0 == k {
        lemma_without_key_other(s.drop_first(), k, j);
    } else {
        let rest = without_key(s.drop_first(), k);
        assert((seq![s[0]] + rest)[0] == s[0]);
        assert((seq![s[0]] + rest).drop_first() =~= rest);
        lemma_without_key_other(s.drop_first(), k, j);
    }
}

/// Removing a key keeps the remaining keys distinct.
pub proof fn lemma_without_key_distinct(s: Seq<(Seq<char>, Seq<char>)>, k: Seq<char>)
    requires
        distinct_keys(s),
    ensures
        distinct_keys(without_key(s, k)),
    decreases s.len(),
{
    if s.len() == 0 {
    } else if s[0].0 == k {
        lemma_without_key_distinct(s.drop_first(), k);
    } else {
        let rest = without_key(s.drop_first(), k);
        assert((seq![s[0]] + rest)[0] == s[0]);
        assert((seq![s[0]] + rest).drop_first() =~= rest);
        lemma_without_key_distinct(s.drop_first(), k);
        lemma_without_key_other(s.drop_first(), k, s[0].0);
    }
}

/// Removing a key keeps every remaining entry within the size limits.
pub proof fn lemma_without_key_within(
    s: Seq<(Seq<char>, Seq<char>)>,
    k: Seq<char>,
    mk: nat,
    mv: nat,
)
    requires
        entries_within(s, mk, mv),
    ensures
        entries_within(without_key(s, k), mk, mv),
    decreases s.len(),
{
    if s.len() == 0 {
    } else if s[0].0 == k {
        lemma_without_key_within(s.drop_first(), k, mk, mv);
    } else {
        let rest = without_key(s.drop_first(), k);
        assert((seq![s[0]] + rest)[0] == s[0]);
        assert((seq![s[0]] + rest).drop_first() =~= rest);
        lemma_without_key_within(s.drop_first(), k, mk, mv);
    }
}

/// When keys are distinct, removing a key shrinks the contents by exactly
/// one entry if the key was present and by none if it was absent; removing
/// an absent key changes nothing at all.
pub proof fn lemma_without_key_len(s: Seq<(Seq<char>, Seq<char>)>, k: Seq<char>)
    ensures
        without_key(s, k).len() <= s.len(),
        distinct_keys(s) ==> without_key(s, k).len() == s.len() - (if has_key(s, k) {
            1int
        } else {
            0int
        }),
        !has_key(s, k) ==> without_key(s, k) == s,
    decreases s.len(),
{
    if s.len() == 0 {
        assert(without_key(s, k) =~= s);
    } else if s[0].0 == k {
        lemma_without_key_len(s.drop_first(), k);
    } else {
        let rest = without_key(s.drop_first(), k);
        assert((seq![s[0]] + rest).len() == 1 + rest.len());
        lemma_without_key_len(s.drop_first(), k);
        if !has_key(s, k) {
            assert(seq![s[0]] + s.drop_first() =~= s);
        }
    }
}

/// Law: storing a value and then looking its key up yields that value.
/// After a put of `(k, v)` the store has key `k` and maps it to `v`.
pub proof fn lemma_put_then_get(s: Seq<(Seq<char>, Seq<char>)>, k: Seq<char>, v: Seq<char>)
    ensures
        has_key(after_put(s, k, v), k),
        value_of(after_put(s, k, v), k) == v,
{
    lemma_without_key_absent(s, k);
    lemma_push_has_key(without_key(s, k), (k, v), k);
    lemma_push_value_of(without_key(s, k), (k, v), k);
}

/// Law: a put touches no key but its own. After a put of `(k, v)` a key is
/// present exactly when it was present before or is `k` itself, and the
/// value of any other present key is unchanged.
pub proof fn lemma_put_other_keys(
    s: Seq<(Seq<char>, Seq<char>)>,
    k: Seq<char>,
    v: Seq<char>,
    j: Seq<char>,
)
    ensures
        has_key(after_put(s, k, v), j) == (has_key(s, j) || j == k),
        j != k && has_key(s, j) ==> value_of(after_put(s, k, v), j) == value_of(s, j),
{
    if j == k {
        lemma_put_then_get(s, k, v);
    } else {
        lemma_without_key_other(s, k, j);
        lemma_push_has_key(without_key(s, k), (k, v), j);
        lemma_push_value_of(without_key(s, k), (k, v), j);
    }
}

/// Law: an overwrite does not grow the store, and the second value wins.
/// Two puts of the same key leave as many entries as one, and a lookup
/// after them yields the later value.
pub proof fn lemma_overwrite(
    s: Seq<(Seq<char>, Seq<char>)>,
    k: Seq<char>,
    v1: Seq<char>,
    v2: Seq<char>,
)
    requires
        distinct_keys(s),
    ensures
        value_of(after_put(after_put(s, k, v1), k, v2), k) == v2,
        after_put(after_put(s, k, v1), k, v2).len() == after_put(s, k, v1).len(),
{
    let s1 = after_put(s, k, v1);
    lemma_without_key_absent(s, k);
    lemma_without_key_distinct(s, k);
    lemma_push_distinct(without_key(s, k), (k, v1));
    lemma_put_then_get(s, k, v1);
    lemma_without_key_len(s1, k);
    lemma_put_then_get(s1, k, v2);
}

/// Law: a put or a refreshing get marks its key most recently used — the
/// entry stands at the most recent end of the store.
pub proof fn lemma_recency(s: Seq<(Seq<char>, Seq<char>)>, k: Seq<char>, v: Seq<char>)
    ensures
        after_put(s, k, v).len() > 0,
        after_put(s, k, v).last() == (k, v),
{
}

} // verus!
