use vstd::prelude::*;
use vstd::slice::SliceIndexSpec;
use core::ops::Range;
use core::slice::SliceIndex;

use crate::helper::{skipped, ParserHelper};

verus! {

/// The sum of a sequence of byte counts.
pub open spec fn total(counts: Seq<nat>) -> nat
    decreases counts.len(),
{
    if counts.len() == 0 {
        0
    } else {
        total(counts.drop_last()) + counts.last()
    }
}

/// Over any run of operations, each of which keeps the buffer and moves the position
/// forward by the bytes it consumed, the final position is the starting position plus
/// the sum of those counts, and the buffer is the one the run started with.
pub proof fn lemma_position_additive<'a>(states: Seq<ParserHelper<'a>>, consumed: Seq<nat>)
    requires
        states.len() == consumed.len() + 1,
        forall|i: int|
            0 <= i < consumed.len() ==> #[trigger] states[i].moved_to(
                &states[i + 1],
                states[i].pos() + consumed[i],
            ),
    ensures
        states.last().pos() == states[0].pos() + total(consumed),
        states.last().buffer() == states[0].buffer(),
        states[0].pos() <= states.last().pos(),
    decreases consumed.len(),
{
    if consumed.len() > 0 {
        let n = consumed.len() - 1;
        let prefix = states.subrange(0, n + 1);
        assert forall|i: int| 0 <= i < consumed.drop_last().len() implies #[trigger] prefix[i].moved_to(
            &prefix[i + 1],
            prefix[i].pos() + consumed.drop_last()[i],
        ) by {
            assert(states[i].moved_to(&states[i + 1], states[i].pos() + consumed[i]));
        }
        lemma_position_additive(prefix, consumed.drop_last());
        assert(states[n].moved_to(&states[n + 1], states[n].pos() + consumed[n]));
    }
}

/// Skipping twice in a row with the same deterministic predicate moves no further the
/// second time.
pub proof fn lemma_skip_idempotent<'a, F: Fn(u8) -> bool>(
    first: ParserHelper<'a>,
    second: ParserHelper<'a>,
    third: ParserHelper<'a>,
    pred: &F,
)
    requires
        forall|b: u8, x: bool, y: bool|
            pred.ensures((b,), x) && pred.ensures((b,), y) ==> x == y,
        skipped(first, second, pred),
        skipped(second, third, pred),
    ensures
        third.pos() == second.pos(),
        third.buffer() == second.buffer(),
{
    if third.pos() > second.pos() {
        let b = second.buffer()[second.pos()];
        assert(pred.ensures((third.buffer()[second.pos()],), true));
        assert(pred.ensures((b,), false));
    }
}

/// Slicing the whole range `0..len` gives the entire buffer, wherever the cursor stands.
pub proof fn lemma_slice_whole<'a>(helper: ParserHelper<'a>, whole: &'a [u8])
    requires
        call_ensures(
            <Range<usize> as SliceIndex<[u8]>>::index,
            (Range { start: 0usize, end: helper.input().len() }, helper.input()),
            whole,
        ),
    ensures
        whole@ == helper.buffer(),
{
    assert(whole@ =~= helper.buffer());
}

} // verus!
