//! The fixed-timestep loop driver.
use crate::time::{
    duration_as_span, elapsed_since, instant_now, Span, MAX_NANOS, NANOS_PER_SECOND,
};
use std::time::Instant;
use vstd::arithmetic::div_mod::lemma_fundamental_div_mod_converse;
use vstd::prelude::*;

verus! {

/// The number of game state updates per second that `GameLoop::new` uses.
pub const DEFAULT_UPDATES_PER_SECOND: u64 = 100;

/// Updates the state of the game world.
///
/// By convention an implementer changes the simulated state here, not its
/// visual representation. An error is handed on to the caller of
/// `GameLoop::tick`.
pub trait Updater: core::fmt::Debug {
    /// The error returned when updating fails.
    type Error: core::fmt::Debug;

    /// Advances the game state by one fixed interval.
    fn update(&mut self) -> Result<(), Self::Error>;
}

/// Renders the state of the game world.
///
/// By convention an implementer draws the visual representation here and
/// leaves the simulated state alone. An error is handed on to the caller of
/// `GameLoop::tick`.
pub trait Renderer: core::fmt::Debug {
    /// The error returned when rendering fails.
    type Error: core::fmt::Debug;

    /// Draws one frame. `remainder` is how far the loop has come from the
    /// last update towards the next one.
    fn render(&mut self, remainder: Remainder) -> Result<(), Self::Error>;
}

/// The position between the last update and the next one: the accumulated
/// time that was not yet spent on updates, over the update interval. It is
/// always at least zero and below one.
#[derive(Clone, Copy, Debug, PartialEq, Eq)]
pub struct Remainder {
    accumulated: u128,
    interval: u64,
}

impl Remainder {
    /// The numerator of the fraction, in nanoseconds.
    pub closed spec fn numer(&self) -> nat {
        self.accumulated as nat
    }

    /// The denominator of the fraction, in nanoseconds.
    pub closed spec fn denom(&self) -> nat {
        self.interval as nat
    }

    /// The fraction is at least zero and below one.
    pub open spec fn in_range(&self) -> bool {
        self.numer() < self.denom()
    }

    /// The accumulated time not yet spent on updates, in nanoseconds.
    pub fn accumulated_nanos(&self) -> (r: u128)
        ensures
            r == self.numer(),
    {
        self.accumulated
    }

    /// The update interval, in nanoseconds.
    pub fn interval_nanos(&self) -> (r: u64)
        ensures
            r == self.denom(),
    {
        self.interval
    }
}

/// The error of a failed tick, wrapping the game state's own error.
#[derive(Debug)]
pub enum Error<T: Updater + Renderer> {
    /// The update call produced an error.
    Update(<T as Updater>::Error),
    /// The render call produced an error.
    Render(<T as Renderer>::Error),
}

/// Where a tick stands while it runs. A tick goes from `Idle` to `Updating`,
/// then to `Rendering`, and is done; outside `GameLoop::advance` it is never
/// seen.
#[derive(Clone, Copy, Debug, PartialEq, Eq)]
enum Phase {
    Idle,
    Updating,
    Rendering,
}

spec fn phase_rank(p: Phase) -> nat {
    match p {
        Phase::Idle => 2,
        Phase::Updating => 1,
        Phase::Rendering => 0,
    }
}

/// A call that the loop made on its game state.
pub enum Call {
    /// A call of `Updater::update`.
    Update,
    /// A call of `Renderer::render` with this remainder.
    Render(Remainder),
}

/// Every call in `calls` is an update.
pub open spec fn only_updates(calls: Seq<Call>) -> bool {
    forall|i: int| 0 <= i < calls.len() ==> #[trigger] calls[i] is Update
}

/// `call` renders with the remainder `numer` over `denom`.
pub open spec fn renders(call: Call, numer: nat, denom: nat) -> bool {
    match call {
        Call::Render(remainder) => remainder.numer() == numer && remainder.denom() == denom,
        Call::Update => false,
    }
}

/// The calls that `post` made after the state `pre`.
pub open spec fn calls_since<T: Updater + Renderer>(pre: GameLoop<T>, post: GameLoop<T>) -> Seq<
    Call,
> {
    post.calls().skip(pre.calls().len() as int)
}

/// The calls of `pre` are the first calls of `post`.
pub open spec fn extends<T: Updater + Renderer>(pre: GameLoop<T>, post: GameLoop<T>) -> bool {
    &&& pre.calls().len() <= post.calls().len()
    &&& post.calls().take(pre.calls().len() as int) == pre.calls()
}

/// What is kept of a tick once it has completed.
#[derive(Debug)]
struct Tick {
    /// When the tick started, on the monotonic clock.
    started_at: Instant,
}

/// The game loop. It owns the game state and calls its `update` and `render`
/// methods as time passes.
///
/// The loop does not advance by itself: each call of `tick` runs one step.
pub struct GameLoop<T: Updater + Renderer> {
    /// The game state.
    state: T,
    /// The fixed time between two updates, in nanoseconds.
    update_interval: u64,
    /// The tick that completed last, if any.
    previous_tick: Option<Tick>,
    /// Time available for updates, in nanoseconds.
    accumulated_time: u128,
    /// The calls this loop has made on the game state, in order.
    calls: Ghost<Seq<Call>>,
}

/// The accumulated time left when a tick that started from `total`
/// nanoseconds called `update` `calls` times and the last call failed: that
/// call spent nothing.
pub open spec fn residue_after_failure(total: nat, interval: nat, calls: nat) -> int {
    total - (calls - 1) * interval
}

/// The effect of one run of the update and render phases on a loop that
/// held `pre` and measured `elapsed` nanoseconds since the previous tick:
/// `update` is called once for each whole interval in the accumulator, then
/// `render` once with what is left over the interval, unless an update
/// fails, in which case the intervals before the failing one are spent and
/// nothing is rendered.
pub open spec fn advanced<T: Updater + Renderer>(
    pre: GameLoop<T>,
    post: GameLoop<T>,
    elapsed: nat,
    r: Result<(), Error<T>>,
) -> bool {
    let total = pre.accumulated() + elapsed;
    let interval = pre.interval();
    let made = calls_since(pre, post);
    &&& post.wf()
    &&& post.interval() == interval
    &&& extends(pre, post)
    &&& match r {
        Err(Error::Update(_)) => {
            &&& 1 <= made.len() <= total / interval
            &&& only_updates(made)
            &&& post.accumulated() == residue_after_failure(total, interval, made.len())
        },
        _ => {
            &&& made.len() == total / interval + 1
            &&& only_updates(made.drop_last())
            &&& renders(made.last(), total % interval, interval)
            &&& post.accumulated() == total % interval
        },
    }
}

/// `post` is `pre` with `add` nanoseconds more in the accumulator.
pub open spec fn added<T: Updater + Renderer>(pre: GameLoop<T>, post: GameLoop<T>, add: nat) -> bool {
    &&& post.wf()
    &&& post.accumulated() == pre.accumulated() + add
    &&& post.consumer() == pre.consumer()
    &&& post.interval() == pre.interval()
    &&& post.calls() == pre.calls()
    &&& post.previous_start() == pre.previous_start()
}

/// `post` agrees with `pre` in everything but the game state.
pub open spec fn kept_apart_from_state<T: Updater + Renderer>(
    pre: GameLoop<T>,
    post: GameLoop<T>,
) -> bool {
    &&& pre.wf() ==> post.wf()
    &&& post.accumulated() == pre.accumulated()
    &&& post.interval() == pre.interval()
    &&& post.calls() == pre.calls()
    &&& post.previous_start() == pre.previous_start()
}

impl<T: Updater + Renderer> GameLoop<T> {
    /// The accumulated time, in nanoseconds.
    pub closed spec fn accumulated(&self) -> nat {
        self.accumulated_time as nat
    }

    /// The update interval, in nanoseconds.
    pub closed spec fn interval(&self) -> nat {
        self.update_interval as nat
    }

    /// The calls this loop has made on the game state, in order.
    pub closed spec fn calls(&self) -> Seq<Call> {
        self.calls@
    }

    /// Whether a tick has completed, so that the next one measures time.
    pub open spec fn has_ticked(&self) -> bool {
        self.previous_start() is Some
    }

    /// When the tick that completed last started, if there was one.
    pub closed spec fn previous_start(&self) -> Option<Instant> {
        match self.previous_tick {
            Some(tick) => Some(tick.started_at),
            None => None,
        }
    }

    /// The game state.
    pub closed spec fn consumer(&self) -> T {
        self.state
    }

    /// The loop is well formed: the interval is positive, and the
    /// accumulator fits a `Duration`.
    pub closed spec fn wf(&self) -> bool {
        &&& self.update_interval > 0
        &&& self.accumulated_time <= MAX_NANOS
    }

    /// A well-formed loop has a positive interval.
    pub proof fn lemma_interval_positive(&self)
        requires
            self.wf(),
        ensures
            self.interval() > 0,
    {
    }

    /// The accumulator holds less than one interval, so that the remainder
    /// is below one.
    pub open spec fn in_range(&self) -> bool {
        self.accumulated() < self.interval()
    }

    /// Creates a game loop around `state` that updates it
    /// `DEFAULT_UPDATES_PER_SECOND` times per second.
    pub fn new(state: T) -> (r: Self)
        ensures
            r.wf(),
            r.interval() == NANOS_PER_SECOND / DEFAULT_UPDATES_PER_SECOND,
            r.accumulated() == 0,
            r.calls().len() == 0,
            !r.has_ticked(),
            r.consumer() == state,
    {
        Self::with_updates_per_second(state, DEFAULT_UPDATES_PER_SECOND)
    }

    /// Creates a game loop around `state` that updates it
    /// `updates_per_second` times per second: the update interval is a second
    /// divided by that rate, in whole nanoseconds.
    pub fn with_updates_per_second(state: T, updates_per_second: u64) -> (r: Self)
        requires
            0 < updates_per_second <= NANOS_PER_SECOND,
        ensures
            r.wf(),
            r.interval() == NANOS_PER_SECOND / updates_per_second,
            r.accumulated() == 0,
            r.calls().len() == 0,
            !r.has_ticked(),
            r.consumer() == state,
    {
        assert(NANOS_PER_SECOND / updates_per_second >= 1) by (nonlinear_arith)
            requires
                0 < updates_per_second <= NANOS_PER_SECOND,
        ;
        GameLoop {
            state,
            update_interval: NANOS_PER_SECOND / updates_per_second,
            previous_tick: None,
            accumulated_time: 0,
            calls: Ghost(Seq::empty()),
        }
    }

    /// Runs the update and render phases of one tick, after adding `elapsed`
    /// to the accumulator: `update` is called while the accumulator holds a
    /// whole interval, each successful call spending one interval, and then
    /// `render` is called once with the remainder. The first error stops the
    /// tick and is returned. The previous tick is left as it was.
    pub fn advance(&mut self, elapsed: Span) -> (r: Result<(), Error<T>>)
        requires
            old(self).wf(),
            elapsed.wf(),
            old(self).accumulated() + elapsed@ <= MAX_NANOS,
        ensures
            advanced(*old(self), *final(self), elapsed@, r),
            final(self).previous_start() == old(self).previous_start(),
    {
        let ghost total: nat = self.accumulated() + elapsed@;
        let ghost interval: nat = self.interval();
        let ghost before: Seq<Call> = self.calls();
        let mut phase = Phase::Idle;
        loop
            invariant
                self.wf(),
                interval > 0,
                self.interval() == interval,
                old(self).interval() == interval,
                self.previous_start() == old(self).previous_start(),
                old(self).calls() == before,
                before.len() <= self.calls().len(),
                self.calls().take(before.len() as int) == before,
                only_updates(self.calls().skip(before.len() as int)),
                phase == Phase::Idle ==> {
                    &&& self.accumulated() == old(self).accumulated()
                    &&& self.calls() == before
                },
                phase != Phase::Idle ==> self.accumulated() + (self.calls().len() - before.len())
                    * interval == total,
                phase == Phase::Rendering ==> self.accumulated() < interval,
                total == old(self).accumulated() + elapsed@,
                total <= MAX_NANOS,
            decreases phase_rank(phase), self.accumulated_time,
        {
            match phase {
                Phase::Idle => {
                    self.accumulated_time = self.accumulated_time + elapsed.as_nanos();
                    phase = Phase::Updating;
                },
                Phase::Updating => {
                    if self.accumulated_time >= self.update_interval as u128 {
                        let ghost done: nat = (self.calls().len() - before.len()) as nat;
                        proof {
                            self.lemma_failed_update_count(total, interval, done);
                            self.lemma_record_keeps_prefix(before, Call::Update);
                        }
                        self.calls = Ghost(self.calls@.push(Call::Update));
                        match self.state.update() {
                            Err(e) => {
                                return Err(Error::Update(e));
                            },
                            Ok(()) => {},
                        }
                        self.accumulated_time = self.accumulated_time
                            - self.update_interval as u128;
                        assert(self.accumulated() + (self.calls().len() - before.len())
                            * interval == total) by (nonlinear_arith)
                            requires
                                self.accumulated() == total - done * interval - interval,
                                self.calls().len() - before.len() == done + 1,
                        ;
                    } else {
                        phase = Phase::Rendering;
                    }
                },
                Phase::Rendering => {
                    let remainder = self.remainder();
                    proof {
                        lemma_fundamental_div_mod_converse(
                            total as int,
                            interval as int,
                            (self.calls().len() - before.len()) as int,
                            self.accumulated() as int,
                        );
                        self.lemma_record_keeps_prefix(before, Call::Render(remainder));
                    }
                    self.calls = Ghost(self.calls@.push(Call::Render(remainder)));
                    match self.state.render(remainder) {
                        Err(e) => {
                            return Err(Error::Render(e));
                        },
                        Ok(()) => {},
                    }
                    return Ok(());
                },
            }
        }
    }

    /// Recording one more call keeps the calls made before a tick as the
    /// first calls, and adds the call at the end of those the tick made.
    proof fn lemma_record_keeps_prefix(&self, before: Seq<Call>, call: Call)
        requires
            before.len() <= self.calls().len(),
            self.calls().take(before.len() as int) == before,
        ensures
            self.calls().push(call).take(before.len() as int) == before,
            self.calls().push(call).skip(before.len() as int) == self.calls().skip(
                before.len() as int,
            ).push(call),
    {
        assert(self.calls().push(call).take(before.len() as int) =~= before);
        assert(self.calls().push(call).skip(before.len() as int) =~= self.calls().skip(
            before.len() as int,
        ).push(call));
    }

    /// Runs one tick: adds the time since the previous completed tick (none
    /// for the first tick) to the accumulator, then runs the update and
    /// render phases as `advance` does. When the tick succeeds, its start
    /// becomes the previous tick.
    ///
    /// Time that would carry the accumulator past the largest `Duration` is
    /// left out.
    pub fn tick(&mut self) -> (r: Result<(), Error<T>>)
        requires
            old(self).wf(),
        ensures
            exists|elapsed: nat| advanced(*old(self), *final(self), elapsed, r),
            !old(self).has_ticked() ==> advanced(*old(self), *final(self), 0, r),
            r is Ok ==> final(self).has_ticked(),
            r is Err ==> final(self).previous_start() == old(self).previous_start(),
    {
        let started_at = instant_now();
        let measured = match &self.previous_tick {
            Some(previous) => duration_as_span(elapsed_since(&previous.started_at)),
            None => Span::zero(),
        };
        let room = MAX_NANOS - self.accumulated_time;
        let elapsed = if measured.as_nanos() <= room {
            measured
        } else {
            Span::from_nanos(room)
        };
        let r = self.advance(elapsed);
        if r.is_ok() {
            self.previous_tick = Some(Tick { started_at });
        }
        assert(advanced(*old(self), *self, elapsed@, r));
        r
    }

    /// Whether the accumulator holds less than one update interval, which
    /// `remainder` asks for.
    pub fn remainder_in_range(&self) -> (r: bool)
        ensures
            r == self.in_range(),
    {
        self.accumulated_time < self.update_interval as u128
    }

    /// The remainder that the next render would receive: the accumulated
    /// time over the update interval.
    pub fn remainder(&self) -> (r: Remainder)
        requires
            self.in_range(),
        ensures
            r.numer() == self.accumulated(),
            r.denom() == self.interval(),
            r.in_range(),
    {
        Remainder { accumulated: self.accumulated_time, interval: self.update_interval }
    }

    /// Mutable access to the game state. Nothing else of the loop changes.
    pub fn state(&mut self) -> (r: &mut T)
        ensures
            *r == old(self).consumer(),
            final(self).consumer() == *final(r),
            kept_apart_from_state(*old(self), *final(self)),
    {
        &mut self.state
    }

    /// Adds `add` to the accumulated time, as if that much time had passed.
    pub fn add_accumulated_time(&mut self, add: Span)
        requires
            old(self).wf(),
            add.wf(),
            old(self).accumulated() + add@ <= MAX_NANOS,
        ensures
            added(*old(self), *final(self), add@),
    {
        self.accumulated_time = self.accumulated_time + add.as_nanos();
    }

    /// Where an update fails with `done` intervals already spent and a whole
    /// interval still in the accumulator, the failing call is within the
    /// number of whole intervals in `total`.
    proof fn lemma_failed_update_count(&self, total: nat, interval: nat, done: nat)
        requires
            interval > 0,
            self.accumulated() >= interval,
            self.accumulated() + done * interval == total,
        ensures
            done + 1 <= total / interval,
    {
        let q = total / interval;
        let rest = total % interval;
        assert(total == q * interval + rest && 0 <= rest < interval) by (nonlinear_arith)
            requires
                interval > 0,
                q == total / interval,
                rest == total % interval,
        ;
        assert((done + 1) * interval == done * interval + interval) by (nonlinear_arith);
        assert(done + 1 <= q) by (nonlinear_arith)
            requires
                total == q * interval + rest,
                0 <= rest < interval,
                (done + 1) * interval <= total,
                interval > 0,
        ;
    }
}

} // verus!
