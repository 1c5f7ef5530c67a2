//! The library's own model of a structured configuration document: an
//! arbitrary keyed tree of plain values. The supervisor reads and amends a
//! few well-known keys and passes everything else through untouched.

use vstd::prelude::*;

use crate::text::str_eq;

verus! {

/// One node of a configuration document.
pub enum ConfigValue {
    Null,
    Bool(bool),
    /// A non-negative integer.
    UInt(u64),
    /// A negative integer.
    Int(i64),
    /// Any other numeric literal, kept as its decimal text and passed
    /// through untouched.
    Num(String),
    Str(String),
    Arr(Vec<ConfigValue>),
    /// A keyed object: an ordered list of key/value pairs.
    Obj(Vec<(String, ConfigValue)>),
}

/// The value stored under `key`: the first entry whose key matches.
pub open spec fn lookup(es: Seq<(String, ConfigValue)>, key: Seq<char>) -> Option<ConfigValue>
    decreases es.len(),
{
    if es.len() == 0 {
        None
    } else if es[0].0@ == key {
        Some(es[0].1)
    } else {
        lookup(es.drop_first(), key)
    }
}

/// No two entries share a key.
pub open spec fn keys_unique(es: Seq<(String, ConfigValue)>) -> bool {
    forall|i: int, j: int|
        0 <= i < j < es.len() ==> (#[trigger] es[i]).0@ != (#[trigger] es[j]).0@
}

/// A key that no entry holds is not found.
proof fn lemma_lookup_absent(es: Seq<(String, ConfigValue)>, key: Seq<char>)
    requires
        forall|j: int| 0 <= j < es.len() ==> (#[trigger] es[j]).0@ != key,
    ensures
        lookup(es, key) is None,
    decreases es.len(),
{
    if es.len() > 0 {
        lemma_lookup_absent(es.drop_first(), key);
    }
}

/// The first matching index decides the lookup.
proof fn lemma_lookup_found(es: Seq<(String, ConfigValue)>, i: int)
    requires
        0 <= i < es.len(),
        forall|j: int| 0 <= j < i ==> (#[trigger] es[j]).0@ != es[i].0@,
    ensures
        lookup(es, es[i].0@) == Some(es[i].1),
    decreases i,
{
    if i > 0 {
        lemma_lookup_found(es.drop_first(), i - 1);
    }
}

/// Removing the entry at `i` does not change the lookup of other keys.
proof fn lemma_lookup_remove_other(es: Seq<(String, ConfigValue)>, i: int, key: Seq<char>)
    requires
        0 <= i < es.len(),
        es[i].0@ != key,
    ensures
        lookup(es.remove(i), key) == lookup(es, key),
    decreases i,
{
    if i == 0 {
        assert(es.remove(0) =~= es.drop_first());
    } else {
        assert(es.remove(i).drop_first() =~= es.drop_first().remove(i - 1));
        lemma_lookup_remove_other(es.drop_first(), i - 1, key);
    }
}

/// Appending an entry only affects the lookup of a key that was absent.
proof fn lemma_lookup_push(
    es: Seq<(String, ConfigValue)>,
    p: (String, ConfigValue),
    key: Seq<char>,
)
    ensures
        lookup(es, key) is Some ==> lookup(es.push(p), key) == lookup(es, key),
        lookup(es, key) is None && p.0@ == key ==> lookup(es.push(p), key) == Some(p.1),
        lookup(es, key) is None && p.0@ != key ==> lookup(es.push(p), key) is None,
    decreases es.len(),
{
    if es.len() == 0 {
        assert(es.push(p)[0] == p);
        assert(es.push(p).drop_first() =~= Seq::<(String, ConfigValue)>::empty());
        assert(lookup(es.push(p).drop_first(), key) is None);
    } else {
        assert(es.push(p)[0] == es[0]);
        assert(es.push(p).drop_first() =~= es.drop_first().push(p));
        lemma_lookup_push(es.drop_first(), p, key);
        if es[0].0@ == key {
            assert(lookup(es, key) == Some(es[0].1));
            assert(lookup(es.push(p), key) == Some(es[0].1));
        } else {
            assert(lookup(es, key) == lookup(es.drop_first(), key));
            assert(lookup(es.push(p), key) == lookup(es.drop_first().push(p), key));
        }
    }
}

/// Key uniqueness survives removing an entry.
proof fn lemma_unique_remove(es: Seq<(String, ConfigValue)>, i: int)
    requires
        keys_unique(es),
        0 <= i < es.len(),
    ensures
        keys_unique(es.remove(i)),
{
    let r = es.remove(i);
    assert forall|a: int, b: int| 0 <= a < b < r.len() implies (#[trigger] r[a]).0@ != (
    #[trigger] r[b]).0@ by {
        let a0: int = if a < i {
            a
        } else {
            a + 1
        };
        let b0: int = if b < i {
            b
        } else {
            b + 1
        };
        assert(r[a] == es[a0]);
        assert(r[b] == es[b0]);
    }
}

/// Find the first entry holding `key`, or how many entries were scanned.
fn find_key(es: &Vec<(String, ConfigValue)>, key: &str) -> (r: Option<usize>)
    ensures
        match r {
            Some(i) => {
                &&& 0 <= i < es@.len()
                &&& es@[i as int].0@ == key@
                &&& forall|j: int| 0 <= j < i ==> (#[trigger] es@[j]).0@ != key@
                &&& lookup(es@, key@) == Some(es@[i as int].1)
            },
            None => lookup(es@, key@) is None,
        },
{
    let n = es.len();
    let mut i: usize = 0;
    while i < n
        invariant
            0 <= i <= n,
            n == es@.len(),
            forall|j: int| 0 <= j < i ==> (#[trigger] es@[j]).0@ != key@,
        decreases n - i,
    {
        if str_eq(es[i].0.as_str(), key) {
            proof {
                lemma_lookup_found(es@, i as int);
            }
            return Some(i);
        }
        i = i + 1;
    }
    proof {
        lemma_lookup_absent(es@, key@);
    }
    None
}

/// Read the value stored under `key`.
pub fn obj_get<'a>(es: &'a Vec<(String, ConfigValue)>, key: &str) -> (r: Option<
    &'a ConfigValue,
>)
    ensures
        match r {
            Some(v) => lookup(es@, key@) == Some(*v),
            None => lookup(es@, key@) is None,
        },
{
    match find_key(es, key) {
        Some(i) => Some(&es[i].1),
        None => None,
    }
}

/// Remove and return the value stored under `key`.
pub fn obj_take(es: &mut Vec<(String, ConfigValue)>, key: &str) -> (r: Option<ConfigValue>)
    requires
        keys_unique(old(es)@),
    ensures
        keys_unique(final(es)@),
        r == lookup(old(es)@, key@),
        lookup(final(es)@, key@) is None,
        forall|k: Seq<char>| k != key@ ==> lookup(final(es)@, k) == lookup(old(es)@, k),
{
    match find_key(es, key) {
        Some(i) => {
            let pair = es.remove(i);
            proof {
                lemma_unique_remove(old(es)@, i as int);
                assert forall|k: Seq<char>| k != key@ implies lookup(es@, k) == lookup(
                    old(es)@,
                    k,
                ) by {
                    lemma_lookup_remove_other(old(es)@, i as int, k);
                }
                assert(forall|j: int|
                    0 <= j < es@.len() ==> (#[trigger] es@[j]).0@ != key@) by {
                    assert(forall|j: int|
                        0 <= j < es@.len() ==> es@[j] == if j < i as int {
                            old(es)@[j]
                        } else {
                            old(es)@[j + 1]
                        });
                }
                lemma_lookup_absent(es@, key@);
            }
            Some(pair.1)
        },
        None => None,
    }
}

/// Store `value` under `key`, replacing what was there.
pub fn obj_set(es: &mut Vec<(String, ConfigValue)>, key: String, value: ConfigValue)
    requires
        keys_unique(old(es)@),
    ensures
        keys_unique(final(es)@),
        lookup(final(es)@, key@) == Some(value),
        forall|k: Seq<char>| k != key@ ==> lookup(final(es)@, k) == lookup(old(es)@, k),
{
    let taken = obj_take(es, key.as_str());
    let ghost mid = es@;
    es.push((key, value));
    proof {
        assert forall|k: Seq<char>| k != key@ implies lookup(es@, k) == lookup(mid, k) by {
            lemma_lookup_push(mid, (key, value), k);
        }
        assert(lookup(es@, key@) == Some(value)) by {
            lemma_lookup_push(mid, (key, value), key@);
        }
        assert forall|a: int, b: int| 0 <= a < b < es@.len() implies (#[trigger] es@[a]).0@ != (
        #[trigger] es@[b]).0@ by {
            if b == es@.len() - 1 {
                assert(es@[b] == (key, value));
                if es@[a].0@ == key@ {
                    assert(mid[a] == es@[a]);
                    lemma_lookup_found_any(mid, a);
                }
            }
        }
    }
}

/// Some entry holds `key` only if lookup finds it.
proof fn lemma_lookup_found_any(es: Seq<(String, ConfigValue)>, i: int)
    requires
        0 <= i < es.len(),
    ensures
        lookup(es, es[i].0@) is Some,
    decreases i,
{
    if i > 0 && es[0].0@ != es[i].0@ {
        lemma_lookup_found_any(es.drop_first(), i - 1);
    }
}

} // verus!
