//! First-match search over sequences.
//!
//! The gateway table, the module catalog, the mapping list and the image
//! store are all looked up by "the first element satisfying a predicate";
//! this module gives that search a single specification and the lemmas
//! the rest of the crate needs about it.

use vstd::prelude::*;

verus! {

/// Index of the first element of `s` satisfying `p`, if any.
pub open spec fn first_where<T>(s: Seq<T>, p: spec_fn(T) -> bool) -> Option<int>
    decreases s.len(),
{
    if s.len() == 0 {
        None
    } else if p(s[0]) {
        Some(0)
    } else {
        match first_where(s.skip(1), p) {
            None => None,
            Some(i) => Some(i + 1),
        }
    }
}

/// What a `first_where` answer means: a hit is in range, satisfies `p`,
/// and nothing before it does; a miss means nothing satisfies `p`.
pub proof fn lemma_first_where_props<T>(s: Seq<T>, p: spec_fn(T) -> bool)
    ensures
        match first_where(s, p) {
            None => forall|i: int| 0 <= i < s.len() ==> !p(#[trigger] s[i]),
            Some(k) => 0 <= k < s.len() && p(s[k]) && forall|i: int| 0 <= i < k ==> !p(
                #[trigger] s[i],
            ),
        },
    decreases s.len(),
{
    if s.len() != 0 && !p(s[0]) {
        let t = s.skip(1);
        lemma_first_where_props(t, p);
        match first_where(t, p) {
            None => {
                assert forall|i: int| 0 <= i < s.len() implies !p(#[trigger] s[i]) by {
                    if i >= 1 {
                        assert(!p(t[i - 1]));
                        assert(t[i - 1] == s[i]);
                    }
                }
            },
            Some(j) => {
                assert(t[j] == s[j + 1]);
                assert forall|i: int| 0 <= i < j + 1 implies !p(#[trigger] s[i]) by {
                    if i >= 1 {
                        assert(!p(t[i - 1]));
                        assert(t[i - 1] == s[i]);
                    }
                }
            },
        }
    }
}

/// Converse direction: an element satisfying `p`, with none before it,
/// is the answer of `first_where`.
pub proof fn lemma_first_where_is<T>(s: Seq<T>, p: spec_fn(T) -> bool, k: int)
    requires
        0 <= k < s.len(),
        p(s[k]),
        forall|i: int| 0 <= i < k ==> !p(#[trigger] s[i]),
    ensures
        first_where(s, p) == Some(k),
    decreases s.len(),
{
    if k == 0 {
    } else {
        let t = s.skip(1);
        assert forall|i: int| 0 <= i < t.len() implies #[trigger] t[i] == s[i + 1] by {}
        lemma_first_where_is(t, p, k - 1);
    }
}

/// A miss follows from every element failing `p`.
pub proof fn lemma_first_where_none<T>(s: Seq<T>, p: spec_fn(T) -> bool)
    requires
        forall|i: int| 0 <= i < s.len() ==> !p(#[trigger] s[i]),
    ensures
        first_where(s, p) == None::<int>,
{
    lemma_first_where_props(s, p);
    if first_where(s, p) is Some {
        let k = first_where(s, p)->Some_0;
        assert(!p(s[k]));
    }
}

/// Appending an element does not disturb an existing hit, and a miss
/// turns into a hit at the end exactly when the new element satisfies `p`.
pub proof fn lemma_first_where_push<T>(s: Seq<T>, p: spec_fn(T) -> bool, x: T)
    ensures
        first_where(s.push(x), p) == match first_where(s, p) {
            Some(k) => Some(k),
            None => if p(x) {
                Some(s.len() as int)
            } else {
                None
            },
        },
{
    lemma_first_where_props(s, p);
    let e = s.push(x);
    assert forall|i: int| 0 <= i < s.len() implies #[trigger] e[i] == s[i] by {}
    assert(e[s.len() as int] == x);
    match first_where(s, p) {
        Some(k) => {
            lemma_first_where_is(e, p, k);
        },
        None => {
            if p(x) {
                lemma_first_where_is(e, p, s.len() as int);
            } else {
                lemma_first_where_none(e, p);
            }
        },
    }
}

/// Mapping a push is pushing the mapped element.
pub proof fn lemma_map_values_push<T, U>(s: Seq<T>, f: spec_fn(T) -> U, x: T)
    ensures
        s.push(x).map_values(f) =~= s.map_values(f).push(f(x)),
{
}

} // verus!
