//! The counter: one signed 32-bit integer that steps up, steps down or
//! returns to zero.
//!
//! Stepping never fails. Past either end of the `i32` range the value wraps
//! round, as the machine's register does.

use vstd::prelude::*;
use vstd::multiset::Multiset;
use vstd::seq_lib::to_multiset_build;

verus! {

/// The value that a 32-bit two's complement register holds after it has been
/// asked to hold `x`: the one integer in the `i32` range that differs from `x`
/// by a multiple of 2^32.
pub open spec fn wrap32(x: int) -> int {
    (x + 0x8000_0000) % 0x1_0000_0000 - 0x8000_0000
}

/// One change to the counter.
#[derive(Clone, Copy, Debug, PartialEq, Eq)]
pub enum Operation {
    Increment,
    Decrement,
    Reset,
}

impl Operation {
    /// What the operation adds to the counter; a reset adds nothing, it
    /// replaces.
    pub open spec fn delta(self) -> int {
        match self {
            Operation::Increment => 1,
            Operation::Decrement => -1,
            Operation::Reset => 0,
        }
    }

    /// The counter value after the operation, given the value `v` before it.
    pub open spec fn after(self, v: int) -> int {
        match self {
            Operation::Increment => wrap32(v + 1),
            Operation::Decrement => wrap32(v - 1),
            Operation::Reset => 0,
        }
    }
}

/// The counter value after `ops` have been applied in order, starting at `v`.
pub open spec fn run(v: int, ops: Seq<Operation>) -> int
    decreases ops.len(),
{
    if ops.len() == 0 {
        v
    } else {
        ops.last().after(run(v, ops.drop_last()))
    }
}

/// The number of increments in `ops` less the number of decrements.
pub open spec fn net_sum(ops: Seq<Operation>) -> int
    decreases ops.len(),
{
    if ops.len() == 0 {
        0
    } else {
        net_sum(ops.drop_last()) + ops.last().delta()
    }
}

/// No operation in `ops` is a reset.
pub open spec fn only_steps(ops: Seq<Operation>) -> bool {
    forall|i: int| 0 <= i < ops.len() ==> ops[i] != Operation::Reset
}

/// The counter state. Its view is the integer it holds.
#[derive(Clone, Copy, Debug, PartialEq, Eq)]
pub struct Counter {
    value: i32,
}

impl View for Counter {
    type V = int;

    closed spec fn view(&self) -> int {
        self.value as int
    }
}

impl Counter {
    /// A counter at zero.
    pub fn new() -> (c: Counter)
        ensures
            c@ == 0,
    {
        Counter { value: 0 }
    }

    /// A counter that holds `value`.
    pub fn with_value(value: i32) -> (c: Counter)
        ensures
            c@ == value,
    {
        Counter { value }
    }

    /// The view of a counter is always a value that an `i32` can hold.
    pub proof fn lemma_view_in_range(self)
        ensures
            i32::MIN <= self@ <= i32::MAX,
    {
    }

    /// The current value.
    pub fn read(&self) -> (v: i32)
        ensures
            v == self@,
    {
        self.value
    }

    /// Steps the counter up by one and returns the new value. At `i32::MAX`
    /// the value wraps round to `i32::MIN`.
    pub fn increment(&mut self) -> (v: i32)
        ensures
            final(self)@ == wrap32(old(self)@ + 1),
            old(self)@ < i32::MAX ==> final(self)@ == old(self)@ + 1,
            v == final(self)@,
    {
        self.value = self.value.wrapping_add(1);
        self.value
    }

    /// Steps the counter down by one and returns the new value. At `i32::MIN`
    /// the value wraps round to `i32::MAX`.
    pub fn decrement(&mut self) -> (v: i32)
        ensures
            final(self)@ == wrap32(old(self)@ - 1),
            old(self)@ > i32::MIN ==> final(self)@ == old(self)@ - 1,
            v == final(self)@,
    {
        self.value = self.value.wrapping_sub(1);
        self.value
    }

    /// Puts the counter back to zero and returns the new value, zero.
    pub fn reset(&mut self) -> (v: i32)
        ensures
            final(self)@ == 0,
            v == 0,
    {
        self.value = 0;
        self.value
    }

    /// Applies one operation and returns the new value.
    pub fn apply(&mut self, op: Operation) -> (v: i32)
        ensures
            final(self)@ == op.after(old(self)@),
            v == final(self)@,
    {
        match op {
            Operation::Increment => self.increment(),
            Operation::Decrement => self.decrement(),
            Operation::Reset => self.reset(),
        }
    }

    /// Applies `ops` in order and returns the value the counter ends on.
    pub fn apply_all(&mut self, ops: &Vec<Operation>) -> (v: i32)
        ensures
            final(self)@ == run(old(self)@, ops@),
            v == final(self)@,
    {
        let mut i: usize = 0;
        while i < ops.len()
            invariant
                0 <= i <= ops.len(),
                self@ == run(old(self)@, ops@.take(i as int)),
            decreases ops.len() - i,
        {
            proof {
                let next = ops@.take(i + 1);
                assert(next.drop_last() == ops@.take(i as int));
                assert(next.last() == ops@[i as int]);
            }
            self.apply(ops[i]);
            i += 1;
        }
        proof {
            assert(ops@.take(i as int) == ops@);
        }
        self.value
    }
}

/// Wrapping commutes with adding: it makes no difference whether a sum is
/// wrapped once at the end or also along the way.
pub proof fn lemma_wrap32_absorbs(a: int, b: int)
    ensures
        wrap32(wrap32(a) + b) == wrap32(a + b),
        i32::MIN <= wrap32(a) <= i32::MAX,
        i32::MIN <= a <= i32::MAX ==> wrap32(a) == a,
{
}

/// A run of increments and decrements leaves the counter at its start plus
/// the net sum of the steps, wrapped into the `i32` range. Where the start is
/// zero and the net sum lies in that range, the counter holds exactly the net
/// sum, whatever lay between.
pub proof fn lemma_run_is_net_sum(v: int, ops: Seq<Operation>)
    requires
        only_steps(ops),
    ensures
        run(wrap32(v), ops) == wrap32(v + net_sum(ops)),
        i32::MIN <= net_sum(ops) <= i32::MAX ==> run(0, ops) == net_sum(ops),
    decreases ops.len(),
{
    if ops.len() > 0 {
        let front = ops.drop_last();
        assert(only_steps(front));
        lemma_run_is_net_sum(v, front);
        lemma_run_is_net_sum(0, front);
        lemma_wrap32_absorbs(v + net_sum(front), ops.last().delta());
        lemma_wrap32_absorbs(net_sum(front), ops.last().delta());
    }
    lemma_wrap32_absorbs(0, 0);
    lemma_wrap32_absorbs(net_sum(ops), 0);
}

/// A reset gives zero whatever the counter held, and a second reset changes
/// nothing.
pub proof fn lemma_reset_idempotent(v: int)
    ensures
        Operation::Reset.after(v) == 0,
        Operation::Reset.after(Operation::Reset.after(v)) == Operation::Reset.after(v),
{
}

/// Any run that ends in a reset leaves the counter at zero.
pub proof fn lemma_run_ending_in_reset(v: int, ops: Seq<Operation>)
    requires
        ops.len() > 0,
        ops.last() == Operation::Reset,
    ensures
        run(v, ops) == 0,
{
}

/// `n` increments applied one after another to a counter at zero leave it at
/// `n`, as long as `n` fits the counter: none is lost.
pub proof fn lemma_increments_add_up(n: nat)
    requires
        n <= i32::MAX,
    ensures
        run(0, Seq::new(n, |i: int| Operation::Increment)) == n,
{
    let ops = Seq::new(n, |i: int| Operation::Increment);
    lemma_all_increments(n);
    lemma_run_is_net_sum(0, ops);
}

/// The net sum is the number of increments less the number of decrements,
/// wherever in the sequence they stand.
pub proof fn lemma_net_sum_counts(ops: Seq<Operation>)
    ensures
        net_sum(ops) == ops.to_multiset().count(Operation::Increment) - ops.to_multiset().count(
            Operation::Decrement,
        ),
    decreases ops.len(),
{
    if ops.len() == 0 {
        assert(ops.to_multiset() =~= Multiset::<Operation>::empty()) by {
            ops.to_multiset_ensures();
        }
    } else {
        let front = ops.drop_last();
        lemma_net_sum_counts(front);
        assert(front.push(ops.last()) == ops);
        to_multiset_build(front, ops.last());
    }
}

/// Increments and decrements may be applied in any order: two runs of the
/// same steps, taken in different orders, leave the counter at the same
/// value. So whichever order concurrent requests are served in, none of their
/// steps is lost.
pub proof fn lemma_order_is_immaterial(v: int, a: Seq<Operation>, b: Seq<Operation>)
    requires
        i32::MIN <= v <= i32::MAX,
        only_steps(a),
        a.to_multiset() == b.to_multiset(),
    ensures
        only_steps(b),
        run(v, a) == run(v, b),
{
    assert forall|i: int| 0 <= i < b.len() implies b[i] != Operation::Reset by {
        a.to_multiset_ensures();
        b.to_multiset_ensures();
        assert(b.contains(b[i]));
        assert(b.to_multiset().count(b[i]) > 0);
        if b[i] == Operation::Reset {
            assert(a.to_multiset().count(Operation::Reset) > 0);
            assert(a.contains(Operation::Reset));
        }
    }
    lemma_net_sum_counts(a);
    lemma_net_sum_counts(b);
    lemma_wrap32_absorbs(v, 0);
    lemma_run_is_net_sum(v, a);
    lemma_run_is_net_sum(v, b);
}

/// The net sum of `n` increments is `n`.
proof fn lemma_all_increments(n: nat)
    ensures
        only_steps(Seq::new(n, |i: int| Operation::Increment)),
        net_sum(Seq::new(n, |i: int| Operation::Increment)) == n,
    decreases n,
{
    let ops = Seq::new(n, |i: int| Operation::Increment);
    if n > 0 {
        lemma_all_increments((n - 1) as nat);
        assert(ops.drop_last() == Seq::new((n - 1) as nat, |i: int| Operation::Increment));
    }
}

} // verus!
