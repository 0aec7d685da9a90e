use vstd::prelude::*;

use crate::time::SimulationConfig;

verus! {

/// Whether the clock is accumulating time.
#[derive(Debug, Clone, Copy, PartialEq, Eq, Structural)]
pub enum ClockState {
    Running,
    Paused,
    Stopped,
}

/// The abstract state of a `SimulationClock`.
///
/// Instants (`*_ns` anchors) are nanoseconds on the caller's monotonic
/// timeline; the clock never reads a clock of its own.
pub struct ClockView {
    pub config: SimulationConfig,
    pub state: ClockState,
    pub sim_time_ns: u64,
    pub wall_start_ns: u64,
    pub sim_start_ns: u64,
    pub last_step_ns: u64,
    pub total_steps: u64,
    pub accumulator_ns: u64,
}

/// Wall time from `last` to `now`, zero if `now` lies before `last`.
pub open spec fn elapsed_ns(last: u64, now: u64) -> int {
    if now >= last {
        now - last
    } else {
        0
    }
}

/// Elapsed wall time scaled by the multiplier given in thousandths.
pub open spec fn scaled_elapsed_ns(config: SimulationConfig, last: u64, now: u64) -> int {
    (elapsed_ns(last, now) * config.simulation_time_multiplier_milli) / 1000
}

/// The accumulator after adding scaled elapsed time, held at `u64::MAX`.
pub open spec fn accumulated_ns(v: ClockView, now: u64) -> u64 {
    let sum = v.accumulator_ns + scaled_elapsed_ns(v.config, v.last_step_ns, now);
    if sum > u64::MAX {
        u64::MAX
    } else {
        sum as u64
    }
}

/// Whether one more whole step still fits the counters.
pub open spec fn has_room_for_step(v: ClockView) -> bool {
    v.sim_time_ns + v.config.spec_time_step_ns() <= u64::MAX && v.total_steps < u64::MAX
}

/// The state after `start` at instant `now`.
pub open spec fn start_spec(v: ClockView, now: u64) -> ClockView {
    ClockView {
        state: ClockState::Running,
        wall_start_ns: now,
        sim_start_ns: now,
        last_step_ns: now,
        ..v
    }
}

/// The state after `pause`.
pub open spec fn pause_spec(v: ClockView) -> ClockView {
    ClockView { state: ClockState::Paused, ..v }
}

/// The state after `resume` at instant `now`.
pub open spec fn resume_spec(v: ClockView, now: u64) -> ClockView {
    ClockView { state: ClockState::Running, last_step_ns: now, ..v }
}

/// The state after `stop`.
pub open spec fn stop_spec(v: ClockView) -> ClockView {
    ClockView { state: ClockState::Stopped, ..v }
}

/// The state after `reset` at instant `now`.
pub open spec fn reset_spec(v: ClockView, now: u64) -> ClockView {
    ClockView { sim_time_ns: 0, total_steps: 0, accumulator_ns: 0, last_step_ns: now, ..v }
}

/// One call of `advance` at instant `now`: the new state and the step taken.
pub open spec fn advance_spec(v: ClockView, now: u64) -> (ClockView, Option<u64>) {
    if v.state != ClockState::Running {
        (v, None)
    } else {
        let acc = accumulated_ns(v, now);
        let step = v.config.spec_time_step_ns();
        if acc >= step && has_room_for_step(v) {
            (
                ClockView {
                    sim_time_ns: (v.sim_time_ns + step) as u64,
                    last_step_ns: now,
                    total_steps: (v.total_steps + 1) as u64,
                    accumulator_ns: (acc - step) as u64,
                    ..v
                },
                Some(step),
            )
        } else {
            (ClockView { last_step_ns: now, accumulator_ns: acc, ..v }, None)
        }
    }
}

impl ClockView {
    /// Simulated time is always a whole number of steps.
    pub open spec fn wf(self) -> bool {
        &&& self.config.wf()
        &&& self.sim_time_ns == self.total_steps * self.config.spec_time_step_ns()
    }
}

/// A fixed-timestep accumulator clock.
#[derive(Debug, Clone, Copy)]
pub struct SimulationClock {
    config: SimulationConfig,
    state: ClockState,
    sim_time_ns: u64,
    wall_start_ns: u64,
    sim_start_ns: u64,
    last_step_ns: u64,
    total_steps: u64,
    accumulator_ns: u64,
}

impl View for SimulationClock {
    type V = ClockView;

    closed spec fn view(&self) -> ClockView {
        ClockView {
            config: self.config,
            state: self.state,
            sim_time_ns: self.sim_time_ns,
            wall_start_ns: self.wall_start_ns,
            sim_start_ns: self.sim_start_ns,
            last_step_ns: self.last_step_ns,
            total_steps: self.total_steps,
            accumulator_ns: self.accumulator_ns,
        }
    }
}

impl SimulationClock {
    /// A stopped clock at simulated time zero, anchored at instant zero.
    pub fn new(config: SimulationConfig) -> (r: Self)
        requires
            config.wf(),
        ensures
            r@ == (ClockView {
                config,
                state: ClockState::Stopped,
                sim_time_ns: 0,
                wall_start_ns: 0,
                sim_start_ns: 0,
                last_step_ns: 0,
                total_steps: 0,
                accumulator_ns: 0,
            }),
            r@.wf(),
    {
        SimulationClock {
            config,
            state: ClockState::Stopped,
            sim_time_ns: 0,
            wall_start_ns: 0,
            sim_start_ns: 0,
            last_step_ns: 0,
            total_steps: 0,
            accumulator_ns: 0,
        }
    }

    /// Runs the clock and re-anchors all instants at `now_ns`; accumulated
    /// simulated time and the step count are kept.
    pub fn start(&mut self, now_ns: u64)
        ensures
            final(self)@ == start_spec(old(self)@, now_ns),
    {
        self.state = ClockState::Running;
        self.wall_start_ns = now_ns;
        self.sim_start_ns = now_ns;
        self.last_step_ns = now_ns;
    }

    /// Pauses the clock; nothing else changes.
    pub fn pause(&mut self)
        ensures
            final(self)@ == pause_spec(old(self)@),
    {
        self.state = ClockState::Paused;
    }

    /// Runs the clock again; the paused interval is not counted as elapsed.
    pub fn resume(&mut self, now_ns: u64)
        ensures
            final(self)@ == resume_spec(old(self)@, now_ns),
    {
        self.state = ClockState::Running;
        self.last_step_ns = now_ns;
    }

    /// Stops the clock; accumulated time is kept.
    pub fn stop(&mut self)
        ensures
            final(self)@ == stop_spec(old(self)@),
    {
        self.state = ClockState::Stopped;
    }

    /// Clears simulated time, the step count and the accumulator, and
    /// re-anchors the last step at `now_ns`; the run state is kept.
    pub fn reset(&mut self, now_ns: u64)
        ensures
            final(self)@ == reset_spec(old(self)@, now_ns),
    {
        self.sim_time_ns = 0;
        self.total_steps = 0;
        self.accumulator_ns = 0;
        self.last_step_ns = now_ns;
    }

    /// Accumulates the scaled wall time since the last call and takes at
    /// most one whole step; returns the step size when a step was taken.
    pub fn advance(&mut self, now_ns: u64) -> (r: Option<u64>)
        requires
            old(self)@.wf(),
        ensures
            (final(self)@, r) == advance_spec(old(self)@, now_ns),
            final(self)@.wf(),
    {
        if self.state != ClockState::Running {
            return None;
        }
        let elapsed: u64 = if now_ns >= self.last_step_ns {
            now_ns - self.last_step_ns
        } else {
            0
        };
        self.last_step_ns = now_ns;
        let milli = self.config.simulation_time_multiplier_milli;
        proof {
            assert((elapsed as int) * (milli as int) <= (u64::MAX as int) * (u64::MAX as int))
                by (nonlinear_arith)
                requires
                    elapsed <= u64::MAX,
                    milli <= u64::MAX,
            ;
        }
        let scaled: u128 = (elapsed as u128) * (milli as u128) / 1000;
        let sum: u128 = (self.accumulator_ns as u128) + scaled;
        self.accumulator_ns = if sum > (u64::MAX as u128) {
            u64::MAX
        } else {
            sum as u64
        };
        let time_step_ns = self.config.time_step();
        if self.accumulator_ns >= time_step_ns && self.sim_time_ns <= u64::MAX - time_step_ns
            && self.total_steps < u64::MAX {
            self.sim_time_ns = self.sim_time_ns + time_step_ns;
            self.accumulator_ns = self.accumulator_ns - time_step_ns;
            self.total_steps = self.total_steps + 1;
            proof {
                let t = self.total_steps as int;
                let s = time_step_ns as int;
                assert((t - 1) * s + s == t * s) by (nonlinear_arith);
            }
            Some(time_step_ns)
        } else {
            None
        }
    }

    /// Simulated nanoseconds accumulated so far.
    pub fn simulation_time_ns(&self) -> (r: u64)
        ensures
            r == self@.sim_time_ns,
    {
        self.sim_time_ns
    }

    /// Wall time from the start anchor to the last step, zero if the last
    /// step lies before the start anchor.
    pub fn wall_time_elapsed(&self) -> (r: u64)
        ensures
            r == elapsed_ns(self@.wall_start_ns, self@.last_step_ns),
    {
        if self.last_step_ns >= self.wall_start_ns {
            self.last_step_ns - self.wall_start_ns
        } else {
            0
        }
    }

    pub fn state(&self) -> (r: ClockState)
        ensures
            r == self@.state,
    {
        self.state
    }

    pub fn total_steps(&self) -> (r: u64)
        ensures
            r == self@.total_steps,
    {
        self.total_steps
    }

    /// The size of one step in nanoseconds.
    pub fn tick(&self) -> (r: u64)
        requires
            self@.wf(),
        ensures
            r == self@.config.spec_time_step_ns(),
    {
        self.config.time_step()
    }
}

/// `n` successive calls of `advance`, all at instant `now`: the final state
/// and what each call returned.
pub open spec fn advance_repeatedly(v: ClockView, now: u64, n: nat) -> (ClockView, Seq<Option<u64>>)
    decreases n,
{
    if n == 0 {
        (v, Seq::empty())
    } else {
        let (v1, r) = advance_spec(v, now);
        let (vn, rs) = advance_repeatedly(v1, now, (n - 1) as nat);
        (vn, seq![r] + rs)
    }
}

/// The catch-up run from an accumulator that holds exactly `j` steps.
proof fn lemma_drain_whole_steps(v: ClockView, now: u64, j: nat)
    requires
        v.wf(),
        v.state == ClockState::Running,
        v.config.spec_time_step_ns() > 0,
        accumulated_ns(v, now) == j * v.config.spec_time_step_ns(),
        v.sim_time_ns + j * v.config.spec_time_step_ns() <= u64::MAX,
    ensures
        ({
            let (w, rs) = advance_repeatedly(v, now, j + 1);
            let step = v.config.spec_time_step_ns();
            &&& rs.len() == j + 1
            &&& forall|i: int| 0 <= i < j ==> rs[i] == Some(step)
            &&& rs[j as int] == None::<u64>
            &&& w.accumulator_ns == 0
            &&& w.sim_time_ns == v.sim_time_ns + j * step
            &&& w.total_steps == v.total_steps + j
            &&& w.state == ClockState::Running
            &&& w.wf()
        }),
    decreases j,
{
    let step = v.config.spec_time_step_ns();
    let (v1, r) = advance_spec(v, now);
    reveal_with_fuel(advance_repeatedly, 2);
    if j == 0 {
        assert(j * step == 0) by (nonlinear_arith) requires j == 0;
        assert(v1.accumulator_ns == 0);
        let (w, rs) = advance_repeatedly(v, now, j + 1);
        assert(rs == seq![r] + Seq::<Option<u64>>::empty());
        assert(rs[0] == r);
    } else {
        assert(j * step == (j - 1) * step + step) by (nonlinear_arith);
        assert(v.total_steps < u64::MAX) by (nonlinear_arith)
            requires
                v.sim_time_ns == v.total_steps * step,
                v.sim_time_ns + j * step <= u64::MAX,
                j * step >= step,
                step > 0,
        ;
        assert(j * step >= step) by (nonlinear_arith) requires j >= 1, step > 0;
        assert(r == Some(step));
        assert(v1.sim_time_ns == v1.total_steps * step) by (nonlinear_arith)
            requires
                v1.sim_time_ns == v.sim_time_ns + step,
                v1.total_steps == v.total_steps + 1,
                v.sim_time_ns == v.total_steps * step,
        ;
        assert(elapsed_ns(v1.last_step_ns, now) == 0);
        assert(accumulated_ns(v1, now) == (j - 1) * step);
        lemma_drain_whole_steps(v1, now, (j - 1) as nat);
        let (w, rs1) = advance_repeatedly(v1, now, j);
        let (w0, rs) = advance_repeatedly(v, now, j + 1);
        assert(rs == seq![r] + rs1);
        assert forall|i: int| 0 <= i < j implies rs[i] == Some(step) by {
            if i > 0 {
                assert(rs[i] == rs1[i - 1]);
            }
        }
        assert(rs[j as int] == rs1[j - 1]);
    }
}

/// Calls of `advance` at the instants `ts`, in order: the final state and
/// what each call returned.
pub open spec fn advance_through(v: ClockView, ts: Seq<u64>) -> (ClockView, Seq<Option<u64>>)
    decreases ts.len(),
{
    if ts.len() == 0 {
        (v, Seq::empty())
    } else {
        let (v1, r) = advance_spec(v, ts[0]);
        let (vn, rs) = advance_through(v1, ts.drop_first());
        (vn, seq![r] + rs)
    }
}

/// How many of the results are steps.
pub open spec fn steps_taken(rs: Seq<Option<u64>>) -> nat
    decreases rs.len(),
{
    if rs.len() == 0 {
        0
    } else {
        (if rs[0] is Some {
            1nat
        } else {
            0nat
        }) + steps_taken(rs.drop_first())
    }
}

/// Instants that never go back.
pub open spec fn nondecreasing(ts: Seq<u64>) -> bool {
    forall|i: int, j: int| 0 <= i <= j < ts.len() ==> ts[i] <= ts[j]
}

/// A running real-time clock whose accumulated and stepped time together
/// account exactly for the wall time since `base_last`, from simulated time
/// `base_sim`.
pub open spec fn accounts_for_wall_time(v: ClockView, base_sim: u64, base_last: u64) -> bool {
    &&& v.wf()
    &&& v.state == ClockState::Running
    &&& v.config.simulation_time_multiplier_milli == 1000
    &&& v.config.spec_time_step_ns() > 0
    &&& v.sim_time_ns >= base_sim
    &&& v.last_step_ns >= base_last
    &&& v.accumulator_ns + (v.sim_time_ns - base_sim) == v.last_step_ns - base_last
}

proof fn lemma_one_call_accounts(v: ClockView, t: u64, base_sim: u64, base_last: u64, bound: int)
    requires
        accounts_for_wall_time(v, base_sim, base_last),
        v.last_step_ns <= t,
        t - base_last <= bound,
        base_sim + bound <= u64::MAX,
    ensures
        ({
            let (v1, r) = advance_spec(v, t);
            let step = v.config.spec_time_step_ns();
            &&& accounts_for_wall_time(v1, base_sim, base_last)
            &&& v1.last_step_ns == t
            &&& v1.config == v.config
            &&& (r is None ==> v1.total_steps == v.total_steps && v1.sim_time_ns == v.sim_time_ns)
            &&& (r is Some ==> r == Some(step) && v1.total_steps == v.total_steps + 1
                && v1.sim_time_ns == v.sim_time_ns + step)
        }),
{
    let step = v.config.spec_time_step_ns();
    let e = t - v.last_step_ns;
    assert(elapsed_ns(v.last_step_ns, t) == e);
    assert((e * 1000) / 1000 == e) by (nonlinear_arith);
    assert(accumulated_ns(v, t) == v.accumulator_ns + e);
    let (v1, r) = advance_spec(v, t);
    if accumulated_ns(v, t) >= step {
        assert(v.total_steps < u64::MAX) by (nonlinear_arith)
            requires
                v.sim_time_ns == v.total_steps * step,
                v.sim_time_ns + step <= u64::MAX,
                step > 0,
        ;
        assert(v1.sim_time_ns == v1.total_steps * step) by (nonlinear_arith)
            requires
                v1.sim_time_ns == v.sim_time_ns + step,
                v1.total_steps == v.total_steps + 1,
                v.sim_time_ns == v.total_steps * step,
        ;
    }
}

proof fn lemma_run_accounts(v: ClockView, ts: Seq<u64>, base_sim: u64, base_last: u64, bound: int)
    requires
        accounts_for_wall_time(v, base_sim, base_last),
        nondecreasing(ts),
        ts.len() > 0 ==> v.last_step_ns <= ts[0],
        forall|i: int| 0 <= i < ts.len() ==> ts[i] - base_last <= bound,
        base_sim + bound <= u64::MAX,
    ensures
        ({
            let (w, rs) = advance_through(v, ts);
            let step = v.config.spec_time_step_ns();
            &&& accounts_for_wall_time(w, base_sim, base_last)
            &&& w.config == v.config
            &&& w.last_step_ns == (if ts.len() == 0 {
                v.last_step_ns
            } else {
                ts.last()
            })
            &&& w.total_steps == v.total_steps + steps_taken(rs)
            &&& w.sim_time_ns == v.sim_time_ns + steps_taken(rs) * step
            &&& forall|i: int| 0 <= i < rs.len() && rs[i] is Some ==> rs[i] == Some(step)
        }),
    decreases ts.len(),
{
    let step = v.config.spec_time_step_ns();
    if ts.len() > 0 {
        lemma_one_call_accounts(v, ts[0], base_sim, base_last, bound);
        let (v1, r) = advance_spec(v, ts[0]);
        let rest = ts.drop_first();
        assert forall|i: int| 0 <= i < rest.len() implies rest[i] - base_last <= bound by {
            assert(rest[i] == ts[i + 1]);
        }
        assert(rest.len() > 0 ==> v1.last_step_ns <= rest[0]) by {
            if rest.len() > 0 {
                assert(rest[0] == ts[1]);
            }
        }
        lemma_run_accounts(v1, rest, base_sim, base_last, bound);
        let (w, rs1) = advance_through(v1, rest);
        let rs = seq![r] + rs1;
        assert(rs.drop_first() =~= rs1);
        assert(rs[0] == r);
        let n1 = steps_taken(rs1);
        assert(step + n1 * step == (1 + n1) * step) by (nonlinear_arith);
        assert forall|i: int| 0 <= i < rs.len() && rs[i] is Some implies rs[i] == Some(step) by {
            if i > 0 {
                assert(rs[i] == rs1[i - 1]);
            }
        }
        if rest.len() > 0 {
            assert(rest.last() == ts.last());
        }
    } else {
        assert(steps_taken(Seq::<Option<u64>>::empty()) == 0);
    }
}

/// A running clock with an empty accumulator and real-time multiplier,
/// driven through instants whose elapsed times sum to exactly `k` steps and
/// then, at the last instant, until a call returns nothing, takes exactly
/// `k` steps of one step size each and ends with an empty accumulator.
///
/// The first calls, at the instants `ts`, take `j` steps; the `k - j + 1`
/// calls after them at the last instant take the remaining `k - j` steps,
/// one each, and the final call returns nothing.
pub proof fn lemma_whole_steps_exactly(v: ClockView, ts: Seq<u64>, k: nat)
    requires
        v.wf(),
        v.state == ClockState::Running,
        v.accumulator_ns == 0,
        v.config.simulation_time_multiplier_milli == 1000,
        v.config.spec_time_step_ns() > 0,
        v.sim_time_ns + k * v.config.spec_time_step_ns() <= u64::MAX,
        ts.len() > 0,
        nondecreasing(ts),
        v.last_step_ns <= ts[0],
        ts.last() == v.last_step_ns + k * v.config.spec_time_step_ns(),
    ensures
        ({
            let step = v.config.spec_time_step_ns();
            let (w, rs) = advance_through(v, ts);
            let j = steps_taken(rs);
            let (w2, rs2) = advance_repeatedly(w, ts.last(), (k - j + 1) as nat);
            &&& j <= k
            &&& forall|i: int| 0 <= i < rs.len() && rs[i] is Some ==> rs[i] == Some(step)
            &&& rs2.len() == k - j + 1
            &&& forall|i: int| 0 <= i < k - j ==> rs2[i] == Some(step)
            &&& rs2[k - j] == None::<u64>
            &&& w2.accumulator_ns == 0
            &&& w2.sim_time_ns == v.sim_time_ns + k * step
            &&& w2.total_steps == v.total_steps + k
        }),
{
    let step = v.config.spec_time_step_ns();
    let bound = k * step;
    assert forall|i: int| 0 <= i < ts.len() implies ts[i] - v.last_step_ns <= bound by {
        assert(ts[i] <= ts[ts.len() - 1]);
    }
    lemma_run_accounts(v, ts, v.sim_time_ns, v.last_step_ns, bound);
    let (w, rs) = advance_through(v, ts);
    let j = steps_taken(rs);
    // w.accumulator_ns + j * step == k * step
    assert(j <= k) by (nonlinear_arith)
        requires
            w.accumulator_ns + j * step == k * step,
            step > 0,
    ;
    assert(w.accumulator_ns == (k - j) * step) by (nonlinear_arith)
        requires
            w.accumulator_ns + j * step == k * step,
            j <= k,
    ;
    assert(elapsed_ns(w.last_step_ns, ts.last()) == 0);
    assert(accumulated_ns(w, ts.last()) == (k - j) * step);
    assert(w.sim_time_ns + (k - j) * step == v.sim_time_ns + k * step) by (nonlinear_arith)
        requires
            w.sim_time_ns == v.sim_time_ns + j * step,
            j <= k,
    ;
    lemma_drain_whole_steps(w, ts.last(), (k - j) as nat);
}

/// Reset always brings simulated time back to zero.
pub proof fn lemma_reset_zeroes_time(v: ClockView, now: u64)
    ensures
        reset_spec(v, now).sim_time_ns == 0,
        reset_spec(v, now).total_steps == 0,
        reset_spec(v, now).accumulator_ns == 0,
{
}

/// Advancing a clock that is not running returns nothing and changes nothing.
pub proof fn lemma_advance_when_not_running(v: ClockView, now: u64)
    requires
        v.state != ClockState::Running,
    ensures
        advance_spec(v, now) == (v, None::<u64>),
{
}

/// Pausing twice is pausing once: the clock is paused and simulated time is
/// untouched.
pub proof fn lemma_pause_idempotent(v: ClockView)
    ensures
        pause_spec(pause_spec(v)) == pause_spec(v),
        pause_spec(pause_spec(v)).state == ClockState::Paused,
        pause_spec(pause_spec(v)).sim_time_ns == v.sim_time_ns,
{
}

} // verus!
