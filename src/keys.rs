use vstd::prelude::*;

verus! {

/// No two elements of `s` have the same key.
pub open spec fn unique_keys<A>(s: Seq<A>, key: spec_fn(A) -> Seq<char>) -> bool {
    forall|i: int, j: int|
        0 <= i < s.len() && 0 <= j < s.len() && i != j ==> key(#[trigger] s[i]) != key(#[trigger] s[j])
}

/// Some element of `s` has key `k`.
pub open spec fn has_key<A>(s: Seq<A>, key: spec_fn(A) -> Seq<char>, k: Seq<char>) -> bool {
    exists|i: int| 0 <= i < s.len() && key(#[trigger] s[i]) == k
}

/// Appending an element whose key is new keeps keys unique.
pub proof fn lemma_unique_push<A>(s: Seq<A>, x: A, key: spec_fn(A) -> Seq<char>)
    requires
        unique_keys(s, key),
        !has_key(s, key, key(x)),
    ensures
        unique_keys(s.push(x), key),
{
    let t = s.push(x);
    assert forall|i: int, j: int| 0 <= i < t.len() && 0 <= j < t.len() && i != j implies key(
        #[trigger] t[i],
    ) != key(#[trigger] t[j]) by {
        if i < s.len() {
            assert(t[i] == s[i]);
        }
        if j < s.len() {
            assert(t[j] == s[j]);
        }
    }
}

/// Replacing an element by one with the same key keeps keys unique.
pub proof fn lemma_unique_update<A>(s: Seq<A>, i: int, x: A, key: spec_fn(A) -> Seq<char>)
    requires
        unique_keys(s, key),
        0 <= i < s.len(),
        key(x) == key(s[i]),
    ensures
        unique_keys(s.update(i, x), key),
{
    let t = s.update(i, x);
    assert forall|a: int, b: int| 0 <= a < t.len() && 0 <= b < t.len() && a != b implies key(
        #[trigger] t[a],
    ) != key(#[trigger] t[b]) by {
        assert(key(t[a]) == key(s[a]));
        assert(key(t[b]) == key(s[b]));
    }
}

/// Removing an element keeps keys unique.
pub proof fn lemma_unique_remove<A>(s: Seq<A>, i: int, key: spec_fn(A) -> Seq<char>)
    requires
        unique_keys(s, key),
        0 <= i < s.len(),
    ensures
        unique_keys(s.remove(i), key),
{
    let t = s.remove(i);
    assert forall|a: int, b: int| 0 <= a < t.len() && 0 <= b < t.len() && a != b implies key(
        #[trigger] t[a],
    ) != key(#[trigger] t[b]) by {
        let oa = if a < i { a } else { a + 1 };
        let ob = if b < i { b } else { b + 1 };
        assert(t[a] == s[oa]);
        assert(t[b] == s[ob]);
    }
}

/// Times never decrease along `s`.
pub open spec fn non_decreasing<A>(s: Seq<A>, time: spec_fn(A) -> u64) -> bool {
    forall|i: int, j: int| 0 <= i <= j < s.len() ==> time(#[trigger] s[i]) <= time(#[trigger] s[j])
}

/// Appending an element no earlier than every other keeps times in order.
pub proof fn lemma_non_decreasing_push<A>(s: Seq<A>, x: A, time: spec_fn(A) -> u64)
    requires
        non_decreasing(s, time),
        forall|i: int| 0 <= i < s.len() ==> time(#[trigger] s[i]) <= time(x),
    ensures
        non_decreasing(s.push(x), time),
{
    let t = s.push(x);
    assert forall|i: int, j: int| 0 <= i <= j < t.len() implies time(#[trigger] t[i]) <= time(
        #[trigger] t[j],
    ) by {
        if i < s.len() {
            assert(t[i] == s[i]);
        }
        if j < s.len() {
            assert(t[j] == s[j]);
        }
    }
}

} // verus!
