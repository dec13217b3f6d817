//! Laws that relate several operations of `ArrayVec`, stated over the
//! sequences that the operations' own contracts speak of.

use vstd::prelude::*;
use crate::array_vec::{ArrayVec, prefix};

verus! {

/// One step of a stack-like use of a vector: a push of a value, or a pop.
pub enum StackOp<T> {
    Push(T),
    Pop,
}

/// The contents after applying `ops` in order to contents `s`, as `push`
/// and `pop` describe them.
pub open spec fn run_ops<T>(s: Seq<T>, ops: Seq<StackOp<T>>) -> Seq<T>
    decreases ops.len(),
{
    if ops.len() == 0 {
        s
    } else {
        let next = match ops[0] {
            StackOp::Push(x) => s.push(x),
            StackOp::Pop => s.drop_last(),
        };
        run_ops(next, ops.drop_first())
    }
}

/// Whether every push in `ops`, applied to `s`, finds room within capacity
/// `n`, and every pop finds a value to remove.
pub open spec fn within_capacity<T>(s: Seq<T>, ops: Seq<StackOp<T>>, n: nat) -> bool
    decreases ops.len(),
{
    if ops.len() == 0 {
        true
    } else {
        match ops[0] {
            StackOp::Push(x) => s.len() < n && within_capacity(s.push(x), ops.drop_first(), n),
            StackOp::Pop => s.len() > 0 && within_capacity(s.drop_last(), ops.drop_first(), n),
        }
    }
}

/// The number of pushes in `ops`.
pub open spec fn count_pushes<T>(ops: Seq<StackOp<T>>) -> nat
    decreases ops.len(),
{
    if ops.len() == 0 {
        0
    } else {
        (if ops[0] is Push { 1nat } else { 0nat }) + count_pushes(ops.drop_first())
    }
}

/// The number of pops in `ops`.
pub open spec fn count_pops<T>(ops: Seq<StackOp<T>>) -> nat
    decreases ops.len(),
{
    if ops.len() == 0 {
        0
    } else {
        (if ops[0] is Pop { 1nat } else { 0nat }) + count_pops(ops.drop_first())
    }
}

/// After pushes and pops that stay within capacity, the length is the
/// starting length plus the number of pushes minus the number of pops, and
/// it never exceeds the capacity.
pub proof fn lemma_push_pop_length<T>(s: Seq<T>, ops: Seq<StackOp<T>>, n: nat)
    requires
        s.len() <= n,
        within_capacity(s, ops, n),
    ensures
        run_ops(s, ops).len() == s.len() + count_pushes(ops) - count_pops(ops),
        run_ops(s, ops).len() <= n,
    decreases ops.len(),
{
    if ops.len() > 0 {
        match ops[0] {
            StackOp::Push(x) => lemma_push_pop_length(s.push(x), ops.drop_first(), n),
            StackOp::Pop => lemma_push_pop_length(s.drop_last(), ops.drop_first(), n),
        }
    }
}

/// The contents after one push or pop, as `push` and `pop` describe them.
pub open spec fn step<T>(s: Seq<T>, op: StackOp<T>) -> Seq<T> {
    match op {
        StackOp::Push(x) => s.push(x),
        StackOp::Pop => s.drop_last(),
    }
}

/// Whether one push finds room within capacity `n`, or one pop finds a value.
pub open spec fn step_ok<T>(s: Seq<T>, op: StackOp<T>, n: nat) -> bool {
    match op {
        StackOp::Push(_) => s.len() < n,
        StackOp::Pop => s.len() > 0,
    }
}

/// A history of pushes and pops grows one call at a time: one more call acts
/// on the contents the history left, and stays within capacity exactly when
/// the history did and the call finds room (or a value to pop). So the value
/// that a last `pop` returns is the last value of the contents before it.
pub proof fn lemma_run_ops_extend<T>(s: Seq<T>, ops: Seq<StackOp<T>>, op: StackOp<T>, n: nat)
    ensures
        run_ops(s, ops.push(op)) == step(run_ops(s, ops), op),
        within_capacity(s, ops.push(op), n) == (within_capacity(s, ops, n)
            && step_ok(run_ops(s, ops), op, n)),
    decreases ops.len(),
{
    if ops.len() == 0 {
        assert(ops.push(op)[0] == op);
        assert(ops.push(op).drop_first() =~= Seq::<StackOp<T>>::empty());
        reveal_with_fuel(run_ops, 2);
        reveal_with_fuel(within_capacity, 2);
    } else {
        assert(ops.push(op)[0] == ops[0]);
        assert(ops.push(op).drop_first() =~= ops.drop_first().push(op));
        let next = step(s, ops[0]);
        lemma_run_ops_extend(next, ops.drop_first(), op, n);
    }
}

/// Pushes alone append their values in order: the live values are the
/// starting ones followed by the pushed ones.
pub proof fn lemma_pushes_append<T>(s: Seq<T>, xs: Seq<T>)
    ensures
        run_ops(s, xs.map_values(|x: T| StackOp::Push(x))) == s + xs,
    decreases xs.len(),
{
    let ops = xs.map_values(|x: T| StackOp::Push(x));
    if xs.len() == 0 {
        assert(s + xs =~= s);
    } else {
        assert(ops.drop_first() =~= xs.drop_first().map_values(|x: T| StackOp::Push(x)));
        lemma_pushes_append(s.push(xs[0]), xs.drop_first());
        assert(s.push(xs[0]) + xs.drop_first() =~= s + xs);
    }
}

/// A pop right after a push hands back the pushed value and restores the
/// contents: values come out in stack order.
pub proof fn lemma_push_then_pop<T>(s: Seq<T>, x: T)
    ensures
        s.push(x).last() == x,
        s.push(x).drop_last() == s,
{
    assert(s.push(x).drop_last() =~= s);
}

/// Truncating to `k` leaves `min(k, len)` values, the first ones unchanged.
pub proof fn lemma_truncate_length<T>(s: Seq<T>, k: nat)
    ensures
        prefix(s, k as int).len() == if k < s.len() { k } else { s.len() },
        forall|i: int| 0 <= i < prefix(s, k as int).len() ==> #[trigger] prefix(s, k as int)[i] == s[i],
{
}

/// Building a vector from exactly `N` values keeps all of them, in order, so
/// the vector is full: the case in which `into_inner` succeeds and returns
/// an array whose view is its contents.
pub proof fn lemma_fill_round_trip<T, const N: usize>(s: Seq<T>)
    requires
        s.len() == N,
    ensures
        prefix(s, N as int) == s,
        prefix(s, N as int).len() == N,
{
}

/// Building from a source keeps its first `min(N, len)` values in order and
/// nothing else.
pub proof fn lemma_bulk_construction<T, const N: usize>(s: Seq<T>)
    ensures
        prefix(s, N as int).len() == if N < s.len() { N as nat } else { s.len() },
        forall|i: int| 0 <= i < prefix(s, N as int).len() ==> #[trigger] prefix(s, N as int)[i] == s[i],
{
}

/// Inserting at the end is pushing.
pub proof fn lemma_insert_at_end<T>(s: Seq<T>, x: T)
    ensures
        s.insert(s.len() as int, x) == s.push(x),
{
    assert(s.insert(s.len() as int, x) =~= s.push(x));
}

/// A vector of capacity zero is always empty, so it is always full, and
/// building one from any source gives no value.
pub proof fn lemma_zero_capacity<T>(v: ArrayVec<T, 0>, s: Seq<T>)
    requires
        v.wf(),
    ensures
        v@.len() == 0,
        prefix(s, 0) == Seq::<T>::empty(),
{
    assert(prefix(s, 0) =~= Seq::<T>::empty());
}

} // verus!
