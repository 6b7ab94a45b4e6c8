//! What holds of every sequence of calls: the transition model of the
//! counter, and proofs about runs of calls against it.

use vstd::prelude::*;
use crate::counter::counter_max;
use crate::counter::decrement_result;
use crate::counter::increment_result;

verus! {

/// One entry-point call, as it acts on the stored counter value.
pub enum CounterOp {
    /// An `increment` call.
    Increment,
    /// A `decrement` call.
    Decrement,
    /// A `reset` call.
    Reset,
    /// A `get_current_value` call.
    Read,
}

/// The counter value after one call: each arm is exactly what the
/// corresponding operation's `ensures` states of the slot it leaves behind.
pub open spec fn step(v: int, op: CounterOp) -> int {
    match op {
        CounterOp::Increment => increment_result(v),
        CounterOp::Decrement => decrement_result(v),
        CounterOp::Reset => 0,
        CounterOp::Read => v,
    }
}

/// The counter value after a sequence of calls, earliest call first.
pub open spec fn run(start: int, ops: Seq<CounterOp>) -> int
    decreases ops.len(),
{
    if ops.len() == 0 {
        start
    } else {
        run(step(start, ops[0]), ops.drop_first())
    }
}

/// Law: whatever sequence of calls is made, the counter never leaves
/// `0 ..= u32::MAX` — the decrement floor keeps it from going below zero,
/// and the saturating increment keeps it from overflowing the top.
pub proof fn lemma_value_stays_in_range(start: int, ops: Seq<CounterOp>)
    requires
        0 <= start <= counter_max(),
    ensures
        0 <= run(start, ops) <= counter_max(),
    decreases ops.len(),
{
    if ops.len() > 0 {
        lemma_value_stays_in_range(step(start, ops[0]), ops.drop_first());
    }
}

/// A run made only of reads leaves the value where it started.
proof fn lemma_reads_preserve(start: int, ops: Seq<CounterOp>)
    requires
        forall|i: int| 0 <= i < ops.len() ==> ops[i] is Read,
    ensures
        run(start, ops) == start,
    decreases ops.len(),
{
    if ops.len() > 0 {
        assert(forall|i: int| 0 <= i < ops.drop_first().len() ==> ops.drop_first()[i] is Read);
        lemma_reads_preserve(start, ops.drop_first());
    }
}

/// Law: `get_current_value` is idempotent and side-effect-free — any run
/// of reads answers the same starting value at every step and leaves the
/// counter unchanged at the end.
pub proof fn lemma_read_is_idempotent(start: int, ops: Seq<CounterOp>)
    requires
        forall|i: int| 0 <= i < ops.len() ==> ops[i] is Read,
    ensures
        run(start, ops) == start,
        forall|k: int| 0 <= k <= ops.len() ==> run(start, ops.take(k)) == start,
{
    lemma_reads_preserve(start, ops);
    assert forall|k: int| 0 <= k <= ops.len() implies run(start, ops.take(k)) == start by {
        assert(forall|i: int| 0 <= i < ops.take(k).len() ==> ops.take(k)[i] is Read);
        lemma_reads_preserve(start, ops.take(k));
    }
}

/// Splitting a run: running `a` and then `b` is running `b` from wherever
/// `a` ended.
pub proof fn lemma_run_concat(start: int, a: Seq<CounterOp>, b: Seq<CounterOp>)
    ensures
        run(start, a + b) == run(run(start, a), b),
    decreases a.len(),
{
    if a.len() == 0 {
        assert(a + b =~= b);
    } else {
        assert((a + b)[0] == a[0]);
        assert((a + b).drop_first() =~= a.drop_first() + b);
        lemma_run_concat(step(start, a[0]), a.drop_first(), b);
    }
}

/// Law: `reset` followed by `get_current_value` yields zero, whatever
/// calls came before and whatever the counter held.
pub proof fn lemma_reset_then_read_is_zero(start: int, ops: Seq<CounterOp>)
    ensures
        run(start, ops + seq![CounterOp::Reset, CounterOp::Read]) == 0,
{
    let tail = seq![CounterOp::Reset, CounterOp::Read];
    lemma_run_concat(start, ops, tail);
    let mid = run(start, ops);
    let rd = seq![CounterOp::Read];
    assert(tail.drop_first() =~= rd);
    assert(tail[0] is Reset);
    assert(run(mid, tail) == run(0, rd));
    assert(rd[0] is Read);
    assert(rd.drop_first() =~= Seq::<CounterOp>::empty());
    assert(run(0, Seq::<CounterOp>::empty()) == 0);
    assert(run(0, rd) == 0);
}

/// A run made only of increments adds its length, as long as it stays
/// under the top of the range.
proof fn lemma_increments_add(start: int, ops: Seq<CounterOp>)
    requires
        0 <= start,
        forall|i: int| 0 <= i < ops.len() ==> ops[i] is Increment,
        start + ops.len() <= counter_max(),
    ensures
        run(start, ops) == start + ops.len(),
    decreases ops.len(),
{
    if ops.len() > 0 {
        assert(step(start, ops[0]) == start + 1);
        assert(forall|i: int| 0 <= i < ops.drop_first().len() ==> ops.drop_first()[i] is Increment);
        lemma_increments_add(start + 1, ops.drop_first());
    }
}

/// Law: `increment` called N times on a fresh counter takes the value
/// through 1, 2, ..., N — after the k-th call the counter reads k. At the
/// very top of the range the increment saturates instead, so the law asks
/// that N stay within it.
pub proof fn lemma_increment_counts_up(ops: Seq<CounterOp>)
    requires
        forall|i: int| 0 <= i < ops.len() ==> ops[i] is Increment,
        ops.len() <= counter_max(),
    ensures
        forall|k: int| 0 <= k <= ops.len() ==> run(0, ops.take(k)) == k,
{
    assert forall|k: int| 0 <= k <= ops.len() implies run(0, ops.take(k)) == k by {
        assert(forall|i: int| 0 <= i < ops.take(k).len() ==> ops.take(k)[i] is Increment);
        lemma_increments_add(0, ops.take(k));
    }
}

} // verus!
