//! Long-lived state of a running session: the step timer and the record of
//! what the position consumer last applied.

use vstd::prelude::*;
use crate::store::{SnapshotStore, StoreState};
use crate::wrapper::{step_published, Runnable, VisualizerRobotWrapper};

verus! {

/// What the position consumer remembers between frames.
#[derive(Clone, Copy, Debug)]
pub struct MapInfo {
    /// The side of the drawn map, in cells.
    pub size: u32,
    /// The cell, as (row, column), that the marker was last moved to;
    /// none before the first position of a session is applied.
    pub last_known_robot_position: Option<(usize, usize)>,
    /// Whether the agent is held to be on the move. No consumer changes
    /// it.
    pub robot_moving: bool,
}

/// The abstract state of a [`GameTimer`], with time in whole nanoseconds.
pub struct TimerState {
    pub interval: nat,
    pub accumulated: nat,
    pub paused: bool,
}

/// Whether a running timer with `accumulated` gathered admits a step once
/// `delta` more has passed.
pub open spec fn admits(interval: nat, accumulated: nat, delta: nat) -> bool {
    accumulated + delta >= interval
}

/// What a running timer carries over to the next frame: on admission one
/// interval is taken off and the rest is kept.
pub open spec fn carried(interval: nat, accumulated: nat, delta: nat) -> nat {
    if admits(interval, accumulated, delta) {
        (accumulated + delta - interval) as nat
    } else {
        accumulated + delta
    }
}

impl TimerState {
    /// Whether the interval and what was gathered can both be counted in
    /// the width the timer counts in. This holds of every timer.
    pub open spec fn counted(self) -> bool {
        self.interval <= u64::MAX && self.accumulated <= u64::MAX
    }

    /// Whether a tick after `delta` more nanoseconds admits a step: the
    /// timer runs and has then gathered a whole interval.
    pub open spec fn fires(self, delta: nat) -> bool {
        !self.paused && admits(self.interval, self.accumulated, delta)
    }

    /// The timer after a tick of `delta` nanoseconds. A paused timer is
    /// left as it is; a running one carries over what it has gathered,
    /// held at the largest value that can be counted.
    pub open spec fn ticked(self, delta: nat) -> TimerState {
        if self.paused {
            self
        } else {
            let rest = carried(self.interval, self.accumulated, delta);
            TimerState {
                accumulated: if rest <= u64::MAX {
                    rest
                } else {
                    u64::MAX as nat
                },
                ..self
            }
        }
    }
}

/// The sum of a run of frame deltas.
pub open spec fn elapsed(deltas: Seq<nat>) -> nat
    decreases deltas.len(),
{
    if deltas.len() == 0 {
        0
    } else {
        elapsed(deltas.drop_last()) + deltas.last()
    }
}

/// The timer after a run of frames, one tick each.
pub open spec fn after_frames(timer: TimerState, deltas: Seq<nat>) -> TimerState
    decreases deltas.len(),
{
    if deltas.len() == 0 {
        timer
    } else {
        after_frames(timer, deltas.drop_last()).ticked(deltas.last())
    }
}

/// How many steps the timer admits over a run of frames, one tick each.
pub open spec fn admissions(timer: TimerState, deltas: Seq<nat>) -> nat
    decreases deltas.len(),
{
    if deltas.len() == 0 {
        0
    } else {
        let earlier = admissions(timer, deltas.drop_last());
        if after_frames(timer, deltas.drop_last()).fires(deltas.last()) {
            earlier + 1
        } else {
            earlier
        }
    }
}

/// A fixed-interval timer. Time is counted in whole nanoseconds.
///
/// The timer only advances when [`GameTimer::tick`] is called; it admits at
/// most one step per call and carries the remainder over.
#[derive(Clone, Copy, Debug)]
pub struct GameTimer {
    interval: u64,
    accumulated: u64,
    paused: bool,
}

impl View for GameTimer {
    type V = TimerState;

    closed spec fn view(&self) -> TimerState {
        TimerState {
            interval: self.interval as nat,
            accumulated: self.accumulated as nat,
            paused: self.paused,
        }
    }
}

impl GameTimer {
    /// A running timer with nothing accumulated.
    pub fn new(interval: u64) -> (timer: GameTimer)
        ensures
            timer@ == (TimerState { interval: interval as nat, accumulated: 0, paused: false }),
            timer@.counted(),
    {
        GameTimer { interval, accumulated: 0, paused: false }
    }

    /// The time between two admitted steps.
    pub fn interval(&self) -> (interval: u64)
        ensures
            interval == self@.interval,
            self@.counted(),
    {
        self.interval
    }

    /// The time gathered since the last admitted step.
    pub fn accumulated(&self) -> (accumulated: u64)
        ensures
            accumulated == self@.accumulated,
            self@.counted(),
    {
        self.accumulated
    }

    /// Whether the timer ignores ticks.
    pub fn paused(&self) -> (paused: bool)
        ensures
            paused == self@.paused,
            self@.counted(),
    {
        self.paused
    }

    /// Closes the timer: ticks pass without effect until it is reopened.
    pub fn pause(&mut self)
        ensures
            final(self)@ == (TimerState { paused: true, ..old(self)@ }),
            old(self)@.counted(),
            final(self)@.counted(),
    {
        self.paused = true;
    }

    /// Reopens the timer; what was accumulated before the pause is kept.
    pub fn unpause(&mut self)
        ensures
            final(self)@ == (TimerState { paused: false, ..old(self)@ }),
            old(self)@.counted(),
            final(self)@.counted(),
    {
        self.paused = false;
    }

    /// Advances the timer by one frame of `delta` nanoseconds and tells
    /// whether a step is admitted.
    ///
    /// A paused timer is left as it is. A running timer admits a step when
    /// what it has gathered reaches the interval, and then keeps what lies
    /// beyond one interval; a remainder too large to count is held at the
    /// largest value.
    pub fn tick(&mut self, delta: u64) -> (fire: bool)
        ensures
            fire == old(self)@.fires(delta as nat),
            final(self)@ == old(self)@.ticked(delta as nat),
            old(self)@.counted(),
            final(self)@.counted(),
    {
        if self.paused {
            return false;
        }
        let total: u128 = self.accumulated as u128 + delta as u128;
        if total >= self.interval as u128 {
            let rest: u128 = total - self.interval as u128;
            self.accumulated = if rest <= u64::MAX as u128 {
                rest as u64
            } else {
                u64::MAX
            };
            true
        } else {
            self.accumulated = total as u64;
            false
        }
    }
}

/// The times of every timer can be counted: neither its interval nor
/// what it has gathered goes beyond the width it counts in.
pub proof fn lemma_timer_counted(timer: GameTimer)
    ensures
        timer@.counted(),
{
}

/// The wrapped agent together with the world it acts on.
pub struct RunnerTag<T: Runnable> {
    robot: VisualizerRobotWrapper<T>,
    world: T::World,
}

impl<T: Runnable> RunnerTag<T> {
    /// What the store of the wrapped agent holds.
    pub closed spec fn published(&self) -> StoreState {
        self.robot.published()
    }

    /// The agent that is wrapped.
    pub closed spec fn agent(&self) -> T {
        self.robot.agent()
    }

    /// The world the agent acts on.
    pub closed spec fn world(&self) -> T::World {
        self.world
    }

    /// Puts a wrapped agent into a world.
    pub fn new(robot: VisualizerRobotWrapper<T>, world: T::World) -> (runner: Self)
        ensures
            runner.published() == robot.published(),
            runner.agent() == robot.agent(),
            runner.world() == world,
            runner.published().consistent(),
    {
        // Looking at the store tells that it is in order.
        let _ = robot.store();
        RunnerTag { robot, world }
    }

    /// The store that the steps fill.
    pub fn store(&self) -> (store: &SnapshotStore)
        ensures
            store@ == self.published(),
            store@.consistent(),
    {
        self.robot.store()
    }

    /// Runs one step of the agent against its world. A step that fails
    /// leaves the store as it was; one that succeeds publishes what the
    /// world then shows.
    pub fn game_tick(&mut self) -> (outcome: Result<(), T::Failure>)
        ensures
            exists|agent: &mut T, acted_on: &mut T::World|
                {
                    &&& mut_ref_current(agent) == old(self).agent()
                    &&& mut_ref_future(agent) == final(self).agent()
                    &&& mut_ref_current(acted_on) == old(self).world()
                    &&& mut_ref_future(acted_on) == final(self).world()
                    &&& #[trigger] call_ensures(T::process_tick, (agent, acted_on), outcome)
                },
            outcome is Err ==> final(self).published() == old(self).published(),
            outcome is Ok ==> step_published(
                old(self).published(),
                final(self).agent(),
                final(self).world(),
                final(self).published(),
            ),
            final(self).published().consistent(),
    {
        self.robot.process_tick(&mut self.world)
    }
}

/// A paused timer lets every frame pass: it admits no step and stays as
/// it is.
pub proof fn lemma_timer_paused(timer: TimerState, deltas: Seq<nat>)
    requires
        timer.paused,
    ensures
        after_frames(timer, deltas) == timer,
        admissions(timer, deltas) == 0,
    decreases deltas.len(),
{
    if deltas.len() > 0 {
        lemma_timer_paused(timer, deltas.drop_last());
    }
}

/// Nothing is lost between frames: what a run of frames brought to a
/// running timer, together with what it held before, is the admitted
/// intervals plus what it holds afterwards. This holds as long as the
/// time can be counted.
pub proof fn lemma_timer_conserves_time(timer: TimerState, deltas: Seq<nat>)
    requires
        !timer.paused,
        timer.accumulated + elapsed(deltas) <= u64::MAX,
    ensures
        timer.accumulated + elapsed(deltas) == admissions(timer, deltas) * timer.interval
            + after_frames(timer, deltas).accumulated,
        after_frames(timer, deltas).interval == timer.interval,
        !after_frames(timer, deltas).paused,
    decreases deltas.len(),
{
    if deltas.len() == 0 {
        assert(admissions(timer, deltas) * timer.interval == 0) by (nonlinear_arith)
            requires
                admissions(timer, deltas) == 0,
        ;
    } else {
        lemma_timer_conserves_time(timer, deltas.drop_last());
        let earlier = admissions(timer, deltas.drop_last());
        let before = after_frames(timer, deltas.drop_last());
        assert((earlier + 1) * timer.interval == earlier * timer.interval + timer.interval)
            by (nonlinear_arith);
        assert(earlier * timer.interval >= 0) by (nonlinear_arith)
            requires
                earlier >= 0,
                timer.interval >= 0,
        ;
        if before.fires(deltas.last()) {
            assert(admissions(timer, deltas) == earlier + 1);
        } else {
            assert(admissions(timer, deltas) == earlier);
        }
    }
}

/// A running timer that starts below its interval and is never handed a
/// frame longer than the interval stays below the interval, and loses
/// no time, however long it runs.
pub proof fn lemma_timer_keeps_up(timer: TimerState, deltas: Seq<nat>)
    requires
        !timer.paused,
        timer.interval <= u64::MAX,
        timer.accumulated < timer.interval,
        forall|i: int| 0 <= i < deltas.len() ==> deltas[i] <= timer.interval,
    ensures
        after_frames(timer, deltas).accumulated < timer.interval,
        after_frames(timer, deltas).interval == timer.interval,
        !after_frames(timer, deltas).paused,
        timer.accumulated + elapsed(deltas) == admissions(timer, deltas) * timer.interval
            + after_frames(timer, deltas).accumulated,
    decreases deltas.len(),
{
    if deltas.len() == 0 {
        assert(admissions(timer, deltas) * timer.interval == 0) by (nonlinear_arith)
            requires
                admissions(timer, deltas) == 0,
        ;
    } else {
        lemma_timer_keeps_up(timer, deltas.drop_last());
        let earlier = admissions(timer, deltas.drop_last());
        let before = after_frames(timer, deltas.drop_last());
        assert((earlier + 1) * timer.interval == earlier * timer.interval + timer.interval)
            by (nonlinear_arith);
        if before.fires(deltas.last()) {
            assert(admissions(timer, deltas) == earlier + 1);
        } else {
            assert(admissions(timer, deltas) == earlier);
        }
    }
}

/// A timer never admits more steps than whole intervals fit into the
/// time it was given, and it admits exactly that many when it is left
/// holding less than an interval; it then holds what is left over.
pub proof fn lemma_timer_admits_whole_intervals(timer: TimerState, deltas: Seq<nat>)
    requires
        !timer.paused,
        timer.interval > 0,
        timer.accumulated + elapsed(deltas) <= u64::MAX,
    ensures
        admissions(timer, deltas) <= (timer.accumulated + elapsed(deltas)) / timer.interval,
        after_frames(timer, deltas).accumulated < timer.interval <==> admissions(timer, deltas)
            == (timer.accumulated + elapsed(deltas)) / timer.interval,
        after_frames(timer, deltas).accumulated < timer.interval ==> after_frames(
            timer,
            deltas,
        ).accumulated == (timer.accumulated + elapsed(deltas)) % timer.interval,
{
    lemma_timer_conserves_time(timer, deltas);
    let count = admissions(timer, deltas) as int;
    let rest = after_frames(timer, deltas).accumulated as int;
    let given = (timer.accumulated + elapsed(deltas)) as int;
    let interval = timer.interval as int;
    if rest < interval {
        vstd::arithmetic::div_mod::lemma_fundamental_div_mod_converse(given, interval, count, rest);
    } else {
        vstd::arithmetic::div_mod::lemma_fundamental_div_mod(given, interval);
        vstd::arithmetic::div_mod::lemma_mod_bound(given, interval);
        let whole = given / interval;
        assert(count < whole) by (nonlinear_arith)
            requires
                given == count * interval + rest,
                given == interval * whole + given % interval,
                rest >= interval,
                0 <= given % interval < interval,
                interval > 0,
        ;
    }
}

/// A running timer that starts empty and is never handed a frame longer
/// than its interval admits exactly as many steps as whole intervals fit
/// into the sum of the frames, and holds what is left over.
pub proof fn lemma_timer_fidelity(timer: TimerState, deltas: Seq<nat>)
    requires
        !timer.paused,
        timer.accumulated == 0,
        0 < timer.interval <= u64::MAX,
        forall|i: int| 0 <= i < deltas.len() ==> deltas[i] <= timer.interval,
    ensures
        admissions(timer, deltas) == elapsed(deltas) / timer.interval,
        after_frames(timer, deltas).accumulated == elapsed(deltas) % timer.interval,
{
    lemma_timer_keeps_up(timer, deltas);
    vstd::arithmetic::div_mod::lemma_fundamental_div_mod_converse(
        elapsed(deltas) as int,
        timer.interval as int,
        admissions(timer, deltas) as int,
        after_frames(timer, deltas).accumulated as int,
    );
}

} // verus!
