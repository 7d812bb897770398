//! Cutting a sequence into consecutive runs of bounded length.

use vstd::prelude::*;

verus! {

/// How many runs of at most `size` items are needed to cover `len` items:
/// `len / size`, rounded up.
pub open spec fn run_count(len: nat, size: nat) -> nat
    recommends
        size > 0,
{
    ((len + size - 1) / (size as int)) as nat
}

/// Where the `i`-th run of a sequence of `len` items ends (exclusive).
pub open spec fn run_end(len: nat, size: nat, i: int) -> int {
    if (i + 1) * size <= len {
        (i + 1) * size
    } else {
        len as int
    }
}

/// The `i`-th run of `s`: the items from `i * size` up to `run_end`.
pub open spec fn run_at<A>(s: Seq<A>, size: nat, i: int) -> Seq<A> {
    s.subrange(i * size, run_end(s.len(), size, i))
}

/// `s` cut into consecutive runs of `size` items; only the last run may be
/// shorter. An empty sequence has no runs.
pub open spec fn runs<A>(s: Seq<A>, size: nat) -> Seq<Seq<A>>
    recommends
        size > 0,
{
    Seq::new(run_count(s.len(), size), |i: int| run_at(s, size, i))
}

/// The run count is the least `n` with `n * size >= len`.
pub proof fn lemma_run_count(len: nat, size: nat)
    requires
        size > 0,
    ensures
        run_count(len, size) * size >= len,
        len > 0 ==> (run_count(len, size) - 1) * size < len,
        len == 0 <==> run_count(len, size) == 0,
        len <= size && len > 0 ==> run_count(len, size) == 1,
{
    let n = (len + size - 1) / (size as int);
    let r = (len + size - 1) % (size as int);
    assert(len + size - 1 == n * size + r && 0 <= r < size) by (nonlinear_arith)
        requires
            n == (len + size - 1) / (size as int),
            r == (len + size - 1) % (size as int),
            size > 0,
    ;
    assert(n >= 0) by (nonlinear_arith)
        requires
            len + size - 1 == n * size + r,
            0 <= r < size,
            size > 0,
    ;
    assert((n - 1) * size == n * size - size) by (nonlinear_arith);
    if len == 0 {
        assert(n == 0) by (nonlinear_arith)
            requires
                size - 1 == n * size + r,
                0 <= r < size,
                size > 0,
                n >= 0,
        ;
    } else {
        assert(n >= 1) by (nonlinear_arith)
            requires
                len + size - 1 == n * size + r,
                0 <= r < size,
                len > 0,
                n >= 0,
        ;
        if len <= size {
            assert(n == 1) by (nonlinear_arith)
                requires
                    len + size - 1 == n * size + r,
                    0 <= r < size,
                    0 < len <= size,
                    n >= 1,
            ;
        }
    }
}

/// Every run starts inside the sequence, holds at least one item and at most
/// `size` of them.
pub proof fn lemma_run_bounds(len: nat, size: nat, i: int)
    requires
        size > 0,
        0 <= i < run_count(len, size),
    ensures
        0 <= i * size < len,
        i * size < run_end(len, size, i) <= len,
        run_end(len, size, i) - i * size <= size,
        run_end(len, size, i) == len <==> i == run_count(len, size) - 1,
{
    lemma_run_count(len, size);
    let n = run_count(len, size) as int;
    assert(i * size <= (n - 1) * size) by (nonlinear_arith)
        requires
            0 <= i <= n - 1,
            size > 0,
    ;
    assert(i * size >= 0) by (nonlinear_arith)
        requires
            0 <= i,
            size > 0,
    ;
    assert((i + 1) * size == i * size + size) by (nonlinear_arith);
    if i < n - 1 {
        assert((i + 1) * size <= (n - 1) * size) by (nonlinear_arith)
            requires
                i + 1 <= n - 1,
                size > 0,
        ;
    }
}

/// The first `k` runs, joined, are the items before the end of run `k - 1`.
proof fn lemma_runs_prefix<A>(s: Seq<A>, size: nat, k: int)
    requires
        size > 0,
        0 <= k <= run_count(s.len(), size),
    ensures
        runs(s, size).take(k).flatten() == s.take(
            if k == 0 {
                0
            } else {
                run_end(s.len(), size, k - 1)
            },
        ),
    decreases k,
{
    let all = runs(s, size);
    if k > 0 {
        lemma_runs_prefix(s, size, k - 1);
        lemma_run_bounds(s.len(), size, k - 1);
        let before = all.take(k - 1);
        assert(all.take(k) =~= before.push(all[k - 1]));
        before.lemma_flatten_push(all[k - 1]);
        if k > 1 {
            lemma_run_bounds(s.len(), size, k - 2);
        }
    }
}

/// Cutting a sequence into runs loses nothing and keeps the order: the runs,
/// joined, are the sequence.
pub proof fn lemma_runs_rebuild<A>(s: Seq<A>, size: nat)
    requires
        size > 0,
    ensures
        runs(s, size).flatten() == s,
{
    let n = run_count(s.len(), size) as int;
    lemma_run_count(s.len(), size);
    lemma_runs_prefix(s, size, n);
    assert(runs(s, size).take(n) =~= runs(s, size));
    if n > 0 {
        lemma_run_bounds(s.len(), size, n - 1);
    }
}

/// Where the runs of `len` items begin and end: for each run, in order, the
/// position of its first item and the position after its last.
pub fn run_spans(len: usize, size: usize) -> (spans: Vec<(usize, usize)>)
    requires
        size > 0,
    ensures
        spans@.len() == run_count(len as nat, size as nat),
        forall|i: int|
            0 <= i < spans@.len() ==> {
                &&& (#[trigger] spans@[i]).0 == i * size
                &&& spans@[i].1 == run_end(len as nat, size as nat, i)
                &&& spans@[i].0 < spans@[i].1 <= len
            },
{
    let mut spans: Vec<(usize, usize)> = Vec::new();
    let mut start: usize = 0;
    proof {
        lemma_run_count(len as nat, size as nat);
        assert(0 == 0 * size) by (nonlinear_arith);
    }
    while start < len
        invariant
            size > 0,
            start <= len,
            spans@.len() <= run_count(len as nat, size as nat),
            start == len <==> spans@.len() == run_count(len as nat, size as nat),
            start < len ==> start == spans@.len() * size,
            forall|i: int|
                0 <= i < spans@.len() ==> {
                    &&& (#[trigger] spans@[i]).0 == i * size
                    &&& spans@[i].1 == run_end(len as nat, size as nat, i)
                    &&& spans@[i].0 < spans@[i].1 <= len
                },
        decreases len - start,
    {
        let ghost i = spans@.len() as int;
        proof {
            lemma_run_bounds(len as nat, size as nat, i);
            assert((i + 1) * size == i * size + size) by (nonlinear_arith);
        }
        let end = if len - start <= size {
            len
        } else {
            start + size
        };
        spans.push((start, end));
        start = end;
    }
    spans
}

} // verus!
