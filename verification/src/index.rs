//! The first index with a property, and how many indices have it.
use vstd::prelude::*;

verus! {

/// The first index from `k` below `n` with the property, or `n`.
pub open spec fn first_from(k: int, n: int, g: spec_fn(int) -> bool) -> int
    decreases n - k,
{
    if k >= n {
        n
    } else if g(k) {
        k
    } else {
        first_from(k + 1, n, g)
    }
}

/// The first index below `n` with the property, or `n`.
pub open spec fn first(n: int, g: spec_fn(int) -> bool) -> int {
    first_from(0, n, g)
}

pub proof fn lemma_first_from(k: int, n: int, g: spec_fn(int) -> bool)
    requires
        k <= n,
    ensures
        k <= first_from(k, n, g) <= n,
        first_from(k, n, g) < n ==> g(first_from(k, n, g)),
        forall|j: int| k <= j < first_from(k, n, g) ==> !#[trigger] g(j),
    decreases n - k,
{
    if k < n && !g(k) {
        lemma_first_from(k + 1, n, g);
    }
}

pub proof fn lemma_first(n: int, g: spec_fn(int) -> bool)
    requires
        0 <= n,
    ensures
        0 <= first(n, g) <= n,
        first(n, g) < n ==> g(first(n, g)),
        forall|j: int| 0 <= j < first(n, g) ==> !#[trigger] g(j),
{
    lemma_first_from(0, n, g);
}

/// What has the properties of the first index is the first index.
pub proof fn lemma_first_is(n: int, g: spec_fn(int) -> bool, i: int)
    requires
        0 <= i <= n,
        i < n ==> g(i),
        forall|j: int| 0 <= j < i ==> !#[trigger] g(j),
    ensures
        first(n, g) == i,
{
    lemma_first(n, g);
}

/// How many indices below `n` have the property.
pub open spec fn count(n: int, g: spec_fn(int) -> bool) -> int
    decreases n,
{
    if n <= 0 {
        0
    } else {
        count(n - 1, g) + if g(n - 1) {
            1int
        } else {
            0
        }
    }
}

pub proof fn lemma_count_bounds(n: int, g: spec_fn(int) -> bool)
    requires
        0 <= n,
    ensures
        0 <= count(n, g) <= n,
        (forall|j: int| 0 <= j < n ==> !#[trigger] g(j)) <==> count(n, g) == 0,
    decreases n,
{
    if n > 0 {
        lemma_count_bounds(n - 1, g);
    }
}

/// Two indices with the property are one, where only one has it.
pub proof fn lemma_count_one(n: int, g: spec_fn(int) -> bool, i: int, j: int)
    requires
        0 <= i < n,
        0 <= j < n,
        g(i),
        g(j),
        count(n, g) <= 1,
    ensures
        i == j,
    decreases n,
{
    lemma_count_bounds(n - 1, g);
    if i < n - 1 && j < n - 1 {
        lemma_count_one(n - 1, g, i, j);
    }
}

/// Where no two indices have the property, at most one has it.
pub proof fn lemma_count_at_most_one(n: int, g: spec_fn(int) -> bool)
    requires
        0 <= n,
        forall|i: int, j: int|
            0 <= i < n && 0 <= j < n && #[trigger] g(i) && #[trigger] g(j) ==> i == j,
    ensures
        count(n, g) <= 1,
    decreases n,
{
    if n > 0 {
        lemma_count_at_most_one(n - 1, g);
        lemma_count_bounds(n - 1, g);
    }
}

} // verus!
