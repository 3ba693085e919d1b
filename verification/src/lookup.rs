//! First-match lookup in sequences keyed by a string in their first
//! component.
//!
//! Both the user table of the manager and the access cache are ordered
//! lists of `(String, value)` pairs in which only the first entry with a
//! given key is ever consulted. The spec functions here are their common
//! mathematical model.

use vstd::prelude::*;

verus! {

/// The index of the first entry of `s` whose key reads `key`, if any.
pub open spec fn spec_first_index<T>(s: Seq<(String, T)>, key: Seq<char>) -> Option<int>
    decreases s.len(),
{
    if s.len() == 0 {
        Option::None
    } else if s[0].0@ == key {
        Option::Some(0int)
    } else {
        match spec_first_index(s.drop_first(), key) {
            Option::Some(i) => Option::Some(i + 1),
            Option::None => Option::None,
        }
    }
}

/// The value of the first entry of `s` whose key reads `key`, if any.
pub open spec fn spec_first_value<T>(s: Seq<(String, T)>, key: Seq<char>) -> Option<T> {
    match spec_first_index(s, key) {
        Option::Some(i) => Option::Some(s[i].1),
        Option::None => Option::None,
    }
}

/// What `spec_first_index` finds: an in-range entry with the key sought and
/// nothing matching before it, or no matching entry at all.
pub proof fn lemma_first_index<T>(s: Seq<(String, T)>, key: Seq<char>)
    ensures
        match spec_first_index(s, key) {
            Option::Some(i) => 0 <= i < s.len() && s[i].0@ == key && forall|j: int|
                0 <= j < i ==> s[j].0@ != key,
            Option::None => forall|j: int| 0 <= j < s.len() ==> s[j].0@ != key,
        },
    decreases s.len(),
{
    if s.len() > 0 && s[0].0@ != key {
        lemma_first_index(s.drop_first(), key);
        assert(forall|j: int| 1 <= j < s.len() ==> s[j] == s.drop_first()[j - 1]);
    }
}

/// Replacing the entry at `i` with one carrying the same key leaves every
/// first-match index unchanged.
pub proof fn lemma_first_index_update<T>(s: Seq<(String, T)>, i: int, e: (String, T), key: Seq<
    char,
>)
    requires
        0 <= i < s.len(),
        e.0@ == s[i].0@,
    ensures
        spec_first_index(s.update(i, e), key) == spec_first_index(s, key),
    decreases s.len(),
{
    let t = s.update(i, e);
    assert(t.len() == s.len());
    if i == 0 {
        if s[0].0@ != key {
            assert(t.drop_first() =~= s.drop_first());
        }
    } else {
        assert(t[0] == s[0]);
        if s[0].0@ != key {
            assert(t.drop_first() =~= s.drop_first().update(i - 1, e));
            lemma_first_index_update(s.drop_first(), i - 1, e, key);
        }
    }
}

/// Appending an entry changes a first-match index only for a key that had
/// no entry yet, and then only when the new entry carries it.
pub proof fn lemma_first_index_push<T>(s: Seq<(String, T)>, e: (String, T), key: Seq<char>)
    ensures
        spec_first_index(s, key) is Some ==> spec_first_index(s.push(e), key)
            == spec_first_index(s, key),
        spec_first_index(s, key) is None ==> spec_first_index(s.push(e), key) == (if e.0@ == key {
            Option::Some(s.len() as int)
        } else {
            Option::None::<int>
        }),
    decreases s.len(),
{
    let t = s.push(e);
    if s.len() == 0 {
        assert(t[0] == e);
        if e.0@ != key {
            assert(t.drop_first() =~= Seq::<(String, T)>::empty());
            assert(spec_first_index(Seq::<(String, T)>::empty(), key) is None);
            assert(spec_first_index(t, key) is None);
        }
    } else {
        assert(t[0] == s[0]);
        if s[0].0@ != key {
            assert(t.drop_first() =~= s.drop_first().push(e));
            lemma_first_index_push(s.drop_first(), e, key);
            assert(spec_first_index(t.drop_first(), key) == spec_first_index(
                s.drop_first().push(e),
                key,
            ));
        }
    }
}

} // verus!
