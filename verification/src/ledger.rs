//! The read ledger: how many response bytes the commands so far will
//! produce, and where in the response each command's bytes will lie.

use std::ops::Range;
use vstd::prelude::*;

verus! {

/// A running count of the response bytes that the commands appended so far
/// will produce.
///
/// A command that reads declares its response width here as it is appended.
/// The ledger hands back where in the response that command's bytes will
/// lie, and moves on by the width. It never moves back.
#[derive(Debug, Copy, Clone, Eq, PartialEq)]
pub struct ReadLedger {
    total: usize,
}

impl View for ReadLedger {
    type V = nat;

    /// The number of response bytes declared so far.
    closed spec fn view(&self) -> nat {
        self.total as nat
    }
}

impl ReadLedger {
    /// A ledger with nothing declared.
    pub fn new() -> (ledger: Self)
        ensures
            ledger@ == 0,
    {
        ReadLedger { total: 0 }
    }

    /// The number of response bytes declared so far: the size of the buffer
    /// that will take the whole response.
    pub fn total(&self) -> (total: usize)
        ensures
            total == self@,
    {
        self.total
    }

    /// Declares a response of `width` bytes. The range handed back starts at
    /// the count before the call and is `width` long; the count moves to its
    /// end.
    pub fn declare(&mut self, width: usize) -> (range: Range<usize>)
        requires
            old(self)@ + width <= usize::MAX,
        ensures
            range.start == old(self)@,
            range.end == old(self)@ + width,
            final(self)@ == old(self)@ + width,
    {
        let start: usize = self.total;
        let end: usize = start + width;
        self.total = end;
        start..end
    }
}

/// The count that a ledger starting at `start` holds after `widths` have
/// been declared in order.
pub open spec fn total_after(start: nat, widths: Seq<nat>) -> nat
    decreases widths.len(),
{
    if widths.len() == 0 {
        start
    } else {
        total_after(start + widths[0], widths.drop_first())
    }
}

/// Where the response to the declaration at `index` begins: the count that
/// the ledger holds when the declarations before it have been made.
pub open spec fn offset_of(start: nat, widths: Seq<nat>, index: int) -> nat
    recommends
        0 <= index <= widths.len(),
{
    total_after(start, widths.take(index))
}

/// The sum of `widths`.
pub open spec fn sum(widths: Seq<nat>) -> nat
    decreases widths.len(),
{
    if widths.len() == 0 {
        0
    } else {
        sum(widths.drop_last()) + widths.last()
    }
}

/// Declaring one more width moves the count on by that width.
pub proof fn lemma_total_after_push(start: nat, widths: Seq<nat>, width: nat)
    ensures
        total_after(start, widths.push(width)) == total_after(start, widths) + width,
    decreases widths.len(),
{
    let pushed = widths.push(width);
    if widths.len() == 0 {
        assert(pushed.drop_first() =~= Seq::<nat>::empty());
        assert(total_after(start + width, pushed.drop_first()) == start + width);
    } else {
        assert(pushed.drop_first() =~= widths.drop_first().push(width));
        lemma_total_after_push(start + widths[0], widths.drop_first(), width);
    }
}

/// The response to the next declaration begins where the one before it
/// ends.
pub proof fn lemma_offset_step(start: nat, widths: Seq<nat>, index: int)
    requires
        0 <= index < widths.len(),
    ensures
        offset_of(start, widths, index + 1) == offset_of(start, widths, index) + widths[index],
{
    assert(widths.take(index + 1) =~= widths.take(index).push(widths[index]));
    lemma_total_after_push(start, widths.take(index), widths[index]);
}

/// A ledger that starts at `start` ends at `start` plus the sum of the
/// widths declared.
pub proof fn lemma_total_is_sum(start: nat, widths: Seq<nat>)
    ensures
        total_after(start, widths) == start + sum(widths),
    decreases widths.len(),
{
    if widths.len() > 0 {
        let front = widths.drop_last();
        assert(front.push(widths.last()) =~= widths);
        lemma_total_after_push(start, front, widths.last());
        lemma_total_is_sum(start, front);
    }
}

/// Of any run of declarations on a fresh ledger: each one's response begins
/// at the sum of the widths declared before it and is as wide as declared,
/// so it ends where the next begins; and the ledger ends at the sum of all.
pub proof fn lemma_offsets(widths: Seq<nat>, index: int)
    requires
        0 <= index < widths.len(),
    ensures
        offset_of(0, widths, index) == sum(widths.take(index)),
        offset_of(0, widths, index + 1) == offset_of(0, widths, index) + widths[index],
        total_after(0, widths) == sum(widths),
{
    lemma_total_is_sum(0, widths.take(index));
    lemma_total_is_sum(0, widths);
    lemma_offset_step(0, widths, index);
}

/// The ledger never moves back: a later offset is no smaller than an
/// earlier one.
pub proof fn lemma_offsets_monotonic(start: nat, widths: Seq<nat>, earlier: int, later: int)
    requires
        0 <= earlier <= later <= widths.len(),
    ensures
        start <= offset_of(start, widths, earlier) <= offset_of(start, widths, later),
    decreases later - earlier,
{
    lemma_total_is_sum(start, widths.take(earlier));
    if earlier < later {
        lemma_offset_step(start, widths, later - 1);
        lemma_offsets_monotonic(start, widths, earlier, later - 1);
    }
}

} // verus!
