//! Properties of the loop that relate several of its operations.
use crate::driver::{
    added, advanced, calls_since, only_updates, renders, Call, Error, GameLoop, Renderer, Updater,
};
use crate::time::Span;
use vstd::arithmetic::div_mod::{lemma_basic_div, lemma_mod_bound, lemma_small_mod};
use vstd::prelude::*;

verus! {

/// The total length of `spans`, in nanoseconds.
pub open spec fn total_of(spans: Seq<Span>) -> nat
    decreases spans.len(),
{
    if spans.len() == 0 {
        0
    } else {
        total_of(spans.drop_last()) + spans.last()@
    }
}

/// `loops` is the history of a loop to which `spans` were added one after
/// another with `add_accumulated_time`.
pub open spec fn adds_in_turn<T: Updater + Renderer>(
    loops: Seq<GameLoop<T>>,
    spans: Seq<Span>,
) -> bool {
    &&& loops.len() == spans.len() + 1
    &&& forall|i: int|
        0 <= i < spans.len() ==> #[trigger] added(loops[i], loops[i + 1], spans[i]@)
}

/// After spans are added in turn, the accumulator has grown by their total
/// and the interval is the same.
proof fn lemma_adds_accumulate<T: Updater + Renderer>(
    loops: Seq<GameLoop<T>>,
    spans: Seq<Span>,
)
    requires
        adds_in_turn(loops, spans),
    ensures
        loops.last().accumulated() == loops[0].accumulated() + total_of(spans),
        loops.last().interval() == loops[0].interval(),
        loops.last().calls() == loops[0].calls(),
    decreases spans.len(),
{
    if spans.len() > 0 {
        let n = spans.len() - 1;
        let front = loops.take(n + 1);
        assert(front.last() == loops[n]);
        assert(added(loops[n], loops[n + 1], spans[n]@));
        assert forall|i: int| 0 <= i < spans.drop_last().len() implies #[trigger] added(
            front[i],
            front[i + 1],
            spans.drop_last()[i]@,
        ) by {
            assert(added(loops[i], loops[i + 1], spans[i]@));
        }
        lemma_adds_accumulate(front, spans.drop_last());
    }
}

/// Spans added one after another, followed by a successful tick that
/// measured `elapsed`: the tick calls `update` once for each whole interval
/// in the start value of the accumulator plus the spans plus `elapsed`, then
/// `render` once with that sum modulo the interval, over the interval, and
/// leaves the sum modulo the interval in the accumulator.
pub proof fn lemma_adds_then_tick<T: Updater + Renderer>(
    loops: Seq<GameLoop<T>>,
    spans: Seq<Span>,
    elapsed: nat,
    post: GameLoop<T>,
    r: Result<(), Error<T>>,
)
    requires
        adds_in_turn(loops, spans),
        advanced(loops.last(), post, elapsed, r),
        r is Ok,
    ensures
        ({
            let sum = loops[0].accumulated() + total_of(spans) + elapsed;
            let interval = loops[0].interval();
            let made = calls_since(loops[0], post);
            &&& made.len() == sum / interval + 1
            &&& only_updates(made.drop_last())
            &&& renders(made.last(), sum % interval, interval)
            &&& post.accumulated() == sum % interval
        }),
{
    lemma_adds_accumulate(loops, spans);
}

/// After a successful tick the accumulator holds less than one interval, so
/// the remainder is at least zero and below one; so was the remainder that
/// the tick rendered with.
pub proof fn lemma_tick_leaves_remainder_in_range<T: Updater + Renderer>(
    pre: GameLoop<T>,
    post: GameLoop<T>,
    elapsed: nat,
    r: Result<(), Error<T>>,
)
    requires
        pre.wf(),
        advanced(pre, post, elapsed, r),
        r is Ok,
    ensures
        post.in_range(),
        match calls_since(pre, post).last() {
            Call::Render(remainder) => remainder.in_range(),
            Call::Update => false,
        },
{
    pre.lemma_interval_positive();
    lemma_mod_bound((pre.accumulated() + elapsed) as int, pre.interval() as int);
}

/// A tick with nothing accumulated and nothing measured calls `update` no
/// time and `render` exactly once, with a remainder of zero, whether or not
/// rendering succeeds.
pub proof fn lemma_empty_tick_only_renders<T: Updater + Renderer>(
    pre: GameLoop<T>,
    post: GameLoop<T>,
    r: Result<(), Error<T>>,
)
    requires
        pre.wf(),
        pre.accumulated() == 0,
        advanced(pre, post, 0, r),
    ensures
        calls_since(pre, post).len() == 1,
        renders(calls_since(pre, post)[0], 0, pre.interval()),
        r is Ok ==> post.accumulated() == 0,
{
    pre.lemma_interval_positive();
    lemma_small_mod(0, pre.interval());
    lemma_basic_div(0, pre.interval() as int);
}

} // verus!
