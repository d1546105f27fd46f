//! Pacing of the game simulation against the render loop: a simulation step
//! runs in a render frame when enough time has passed since the last one.
use vstd::prelude::*;
use std::time::{Duration, Instant};

verus! {

/// `std::time::Instant`, a point of the monotonic clock; opaque here.
#[verifier::external_type_specification]
#[verifier::external_body]
pub struct ExInstant(Instant);

/// `Instant::now`: reads the monotonic clock. Nothing is stated of the
/// result: it depends on when the call is made.
#[verifier::external_body]
pub(crate) fn instant_now() -> Instant {
    Instant::now()
}

/// `Instant::elapsed`: the time passed since `at`, read from the clock.
/// Nothing is stated of the result: it depends on when the call is made.
#[verifier::external_body]
pub(crate) fn instant_elapsed(at: &Instant) -> Duration {
    at.elapsed()
}

/// `Duration::as_millis`: whole milliseconds of a duration. Nothing is
/// stated of the result, since a `Duration` is opaque here; it is only ever
/// applied to a clock reading.
#[verifier::external_body]
pub(crate) fn duration_as_millis(d: &Duration) -> u128 {
    d.as_millis()
}

/// Largest duration `std::time::Duration` holds, in whole milliseconds.
pub open spec fn max_duration_millis() -> int {
    u64::MAX as int * 1000 + 999
}

/// Render-frame counter and simulation pacing state.
#[derive(Clone, Copy)]
pub struct SimulationTime {
    render_frame: u64,
    skip_next_simulation: bool,
    run_simulation_in_this_frame: bool,
    last_simulation_at: Instant,
    time_between_simulations: u128,
}

impl SimulationTime {
    /// Number of the current render frame.
    pub closed spec fn frame(&self) -> int {
        self.render_frame as int
    }

    /// Whether the next due simulation step is to be skipped.
    pub closed spec fn skips_next(&self) -> bool {
        self.skip_next_simulation
    }

    /// Whether a simulation step runs in the current frame.
    pub closed spec fn runs_now(&self) -> bool {
        self.run_simulation_in_this_frame
    }

    /// When the last simulation step ran.
    pub closed spec fn last_at(&self) -> Instant {
        self.last_simulation_at
    }

    /// Time between two simulation steps, in milliseconds.
    pub closed spec fn period(&self) -> int {
        self.time_between_simulations as int
    }

    /// The state after a render frame ends at `now`, where `due` says whether
    /// the period has passed since the last step: a due step runs and is
    /// recorded as run at `now`, unless it was to be skipped, in which case
    /// nothing runs and the skip is used up.
    pub open spec fn frame_end_ok(old_s: SimulationTime, new_s: SimulationTime, due: bool, now: Instant) -> bool {
        &&& new_s.frame() == old_s.frame() + 1
        &&& new_s.period() == old_s.period()
        &&& new_s.runs_now() == (due && !old_s.skips_next())
        &&& new_s.skips_next() == (old_s.skips_next() && !due)
        &&& new_s.last_at() == (if due && !old_s.skips_next() { now } else { old_s.last_at() })
    }

    /// A pacing state for `simulation_freq` steps per second: frame 1, a
    /// step due in this frame, none to skip, the last step now.
    pub fn new(simulation_freq: usize) -> (r: SimulationTime)
        requires
            simulation_freq > 0,
        ensures
            r.frame() == 1,
            !r.skips_next(),
            r.runs_now(),
            r.period() == 1000int / simulation_freq as int,
    {
        SimulationTime {
            render_frame: 1,
            skip_next_simulation: false,
            run_simulation_in_this_frame: true,
            last_simulation_at: instant_now(),
            time_between_simulations: (1000 / simulation_freq) as u128,
        }
    }

    /// A pacing state for tests: 30 ms between steps, whatever is passed.
    pub fn new_for_tests(_fix_dt_for_test: Duration) -> (r: SimulationTime)
        ensures
            r.frame() == 1,
            !r.skips_next(),
            r.runs_now(),
            r.period() == 30,
    {
        SimulationTime {
            last_simulation_at: instant_now(),
            render_frame: 1,
            run_simulation_in_this_frame: true,
            skip_next_simulation: false,
            time_between_simulations: 30,
        }
    }

    /// Number of the current render frame.
    pub fn render_frame(&self) -> (r: u64)
        ensures
            r == self.frame(),
    {
        self.render_frame
    }

    pub fn can_simulation_run(&self) -> (r: bool)
        ensures
            r == self.runs_now(),
    {
        self.run_simulation_in_this_frame
    }

    /// Time between two simulation steps, in whole milliseconds.
    pub fn get_time_between_simulations(&self) -> (r: u128)
        ensures
            r == self.period(),
    {
        self.time_between_simulations
    }

    /// Lengthens the period by a positive adjuster, in milliseconds; shortens
    /// it by a negative one only when the period (read as an `i64`) is longer
    /// than the shortening.
    pub fn adjust_simulation_freq(&mut self, simulation_duration_adjuster: i64)
        requires
            simulation_duration_adjuster != i64::MIN,
            simulation_duration_adjuster > 0 ==> old(self).period() + simulation_duration_adjuster
                <= max_duration_millis(),
            old(self).period() <= max_duration_millis(),
        ensures
            final(self).frame() == old(self).frame(),
            final(self).skips_next() == old(self).skips_next(),
            final(self).runs_now() == old(self).runs_now(),
            final(self).last_at() == old(self).last_at(),
            final(self).period() == (if simulation_duration_adjuster > 0 {
                old(self).period() + simulation_duration_adjuster
            } else if simulation_duration_adjuster < 0 && (old(self).period() as u128) as i64
                > -simulation_duration_adjuster {
                old(self).period() + simulation_duration_adjuster
            } else {
                old(self).period()
            }),
            Self::adjust_ok(*old(self), *final(self), simulation_duration_adjuster),
    {
        if simulation_duration_adjuster > 0 {
            self.time_between_simulations = self.time_between_simulations
                + simulation_duration_adjuster as u128;
        } else if simulation_duration_adjuster < 0 {
            let tmp: i64 = -simulation_duration_adjuster;
            let tb: u128 = self.time_between_simulations;
            if tb as i64 > tmp {
                proof {
                    assert((tb as i64) > 0 ==> ((tb as i64) as u128) <= tb) by (bit_vector);
                }
                self.time_between_simulations = self.time_between_simulations - tmp as u128;
            }
        }
    }

    /// The change that `adjust_simulation_freq(adjuster)` makes: only the
    /// period moves, as its contract says.
    pub open spec fn adjust_ok(old_s: SimulationTime, new_s: SimulationTime, adjuster: i64) -> bool {
        &&& new_s.frame() == old_s.frame()
        &&& new_s.skips_next() == old_s.skips_next()
        &&& new_s.runs_now() == old_s.runs_now()
        &&& new_s.last_at() == old_s.last_at()
        &&& new_s.period() == (if adjuster > 0 {
            old_s.period() + adjuster
        } else if adjuster < 0 && (old_s.period() as u128) as i64 > -adjuster {
            old_s.period() + adjuster
        } else {
            old_s.period()
        })
    }

    /// The change that `skip_next_simulation` makes: a skip is pending.
    pub open spec fn skip_ok(old_s: SimulationTime, new_s: SimulationTime) -> bool {
        &&& new_s.skips_next()
        &&& new_s.frame() == old_s.frame()
        &&& new_s.runs_now() == old_s.runs_now()
        &&& new_s.last_at() == old_s.last_at()
        &&& new_s.period() == old_s.period()
    }

    /// The change that `force_simulation` makes: a step runs in this frame.
    pub open spec fn force_ok(old_s: SimulationTime, new_s: SimulationTime) -> bool {
        &&& new_s.runs_now()
        &&& new_s.frame() == old_s.frame()
        &&& new_s.skips_next() == old_s.skips_next()
        &&& new_s.last_at() == old_s.last_at()
        &&& new_s.period() == old_s.period()
    }

    /// One call that is not the end of a render frame.
    pub open spec fn between_frames_ok(old_s: SimulationTime, new_s: SimulationTime) -> bool {
        ||| exists|adjuster: i64| #[trigger] Self::adjust_ok(old_s, new_s, adjuster)
        ||| Self::skip_ok(old_s, new_s)
        ||| Self::force_ok(old_s, new_s)
    }

    /// Ends a render frame at `now`, given `elapsed_millis`, the whole
    /// milliseconds passed since the last simulation step: a step is due when
    /// they reach the period (see `frame_end_ok`).
    pub fn frame_end_after(&mut self, elapsed_millis: u128, now: Instant)
        requires
            old(self).frame() < u64::MAX,
        ensures
            Self::frame_end_ok(*old(self), *final(self), elapsed_millis >= old(self).period(), now),
    {
        self.render_frame = self.render_frame + 1;
        self.run_simulation_in_this_frame = elapsed_millis >= self.time_between_simulations;
        if self.run_simulation_in_this_frame {
            if self.skip_next_simulation {
                self.run_simulation_in_this_frame = false;
                self.skip_next_simulation = false;
            } else {
                self.last_simulation_at = now;
            }
        }
    }

    /// Ends a render frame at `now`, reading from the clock how long ago the
    /// last simulation step ran; whichever the reading, the new state is the
    /// one `frame_end_ok` gives for some verdict on whether a step is due.
    pub fn render_frame_end(&mut self, now: Instant)
        requires
            old(self).frame() < u64::MAX,
        ensures
            exists|due: bool| Self::frame_end_ok(*old(self), *final(self), due, now),
    {
        let elapsed = instant_elapsed(&self.last_simulation_at);
        let elapsed_millis = duration_as_millis(&elapsed);
        let ghost due = elapsed_millis >= self.time_between_simulations;
        self.frame_end_after(elapsed_millis, now);
        assert(Self::frame_end_ok(*old(self), *self, due, now));
    }

    /// Makes a simulation step run in the current frame.
    pub fn force_simulation(&mut self)
        ensures
            final(self).runs_now(),
            final(self).frame() == old(self).frame(),
            final(self).skips_next() == old(self).skips_next(),
            final(self).last_at() == old(self).last_at(),
            final(self).period() == old(self).period(),
            Self::force_ok(*old(self), *final(self)),
    {
        self.run_simulation_in_this_frame = true;
    }

    /// Makes the next due simulation step be skipped.
    pub fn skip_next_simulation(&mut self)
        ensures
            final(self).skips_next(),
            final(self).frame() == old(self).frame(),
            final(self).runs_now() == old(self).runs_now(),
            final(self).last_at() == old(self).last_at(),
            final(self).period() == old(self).period(),
            Self::skip_ok(*old(self), *final(self)),
    {
        self.skip_next_simulation = true;
    }
}

/// A requested skip swallows exactly one due simulation step: of two frames
/// in a row in which a step is due, the first runs none and the second runs
/// one, recorded at its own end.
pub proof fn law_skip_swallows_one_due_step(
    s0: SimulationTime,
    s1: SimulationTime,
    s2: SimulationTime,
    now1: Instant,
    now2: Instant,
)
    requires
        s0.skips_next(),
        SimulationTime::frame_end_ok(s0, s1, true, now1),
        SimulationTime::frame_end_ok(s1, s2, true, now2),
    ensures
        !s1.runs_now(),
        s1.last_at() == s0.last_at(),
        s2.runs_now(),
        s2.last_at() == now2,
        s2.frame() == s0.frame() + 2,
{
}

/// Only the end of a render frame clears the run flag: from a state whose
/// flag is set (such as a new one), any run of period adjustments, skip
/// requests and forced steps leaves it set, in the same frame.
pub proof fn law_only_frame_end_clears_run_flag(states: Seq<SimulationTime>)
    requires
        states.len() >= 1,
        states[0].runs_now(),
        forall|i: int| 0 <= i < states.len() - 1
            ==> #[trigger] SimulationTime::between_frames_ok(states[i], states[i + 1]),
    ensures
        forall|i: int| 0 <= i < states.len() ==> #[trigger] states[i].runs_now(),
        forall|i: int| 0 <= i < states.len() ==> #[trigger] states[i].frame() == states[0].frame(),
    decreases states.len(),
{
    if states.len() > 1 {
        let shorter = states.drop_last();
        assert forall|i: int| 0 <= i < shorter.len() - 1
            implies #[trigger] SimulationTime::between_frames_ok(shorter[i], shorter[i + 1]) by {
            assert(SimulationTime::between_frames_ok(states[i], states[i + 1]));
        }
        law_only_frame_end_clears_run_flag(shorter);
        let last = states.len() - 1;
        let j = last - 1;
        assert(SimulationTime::between_frames_ok(states[j], states[j + 1]));
        assert(shorter[j] == states[j]);
        assert forall|i: int| 0 <= i < states.len() implies #[trigger] states[i].runs_now() by {
            if i < last {
                assert(shorter[i] == states[i]);
            }
        }
        assert forall|i: int| 0 <= i < states.len() implies #[trigger] states[i].frame() == states[0].frame() by {
            if i < last {
                assert(shorter[i] == states[i]);
            }
        }
    }
}

/// However many times a skip was requested before, of two frames in a row
/// in which a step is due, the first runs none and keeps the time of the
/// last step, and the second runs one, dated by its own end.
pub proof fn law_repeated_skips_swallow_one_due_step(
    states: Seq<SimulationTime>,
    s1: SimulationTime,
    s2: SimulationTime,
    now1: Instant,
    now2: Instant,
)
    requires
        states.len() >= 2,
        forall|i: int| 0 <= i < states.len() - 1
            ==> #[trigger] SimulationTime::skip_ok(states[i], states[i + 1]),
        SimulationTime::frame_end_ok(states.last(), s1, true, now1),
        SimulationTime::frame_end_ok(s1, s2, true, now2),
    ensures
        !s1.runs_now(),
        s1.last_at() == states[0].last_at(),
        s2.runs_now(),
        s2.last_at() == now2,
{
    let last = states.len() - 1;
    assert forall|i: int| 0 <= i <= last implies #[trigger] states[i].last_at() == states[0].last_at() by {
        lemma_skips_keep_last_at(states, i);
    }
    let j = last - 1;
    assert(SimulationTime::skip_ok(states[j], states[j + 1]));
    law_skip_swallows_one_due_step(states.last(), s1, s2, now1, now2);
}

/// Skip requests keep the time of the last step.
proof fn lemma_skips_keep_last_at(states: Seq<SimulationTime>, i: int)
    requires
        0 <= i < states.len(),
        forall|k: int| 0 <= k < states.len() - 1
            ==> #[trigger] SimulationTime::skip_ok(states[k], states[k + 1]),
    ensures
        states[i].last_at() == states[0].last_at(),
    decreases i,
{
    if i > 0 {
        lemma_skips_keep_last_at(states, i - 1);
        let k = i - 1;
        assert(SimulationTime::skip_ok(states[k], states[k + 1]));
    }
}

/// Adjusting the period never brings it below one millisecond once it is
/// at least that: a shortening is only made while it leaves some time.
pub proof fn law_adjusted_period_stays_positive(s0: SimulationTime, s1: SimulationTime, adjuster: i64)
    requires
        s0.period() >= 1,
        adjuster != i64::MIN,
        SimulationTime::adjust_ok(s0, s1, adjuster),
    ensures
        s1.period() >= 1,
{
    if adjuster < 0 && s0.period() <= i64::MAX {
        let p = s0.period();
        assert(((p as u128) as i64) as int == p);
    }
}

/// A frame in which no step is due runs none and keeps the time of the last
/// step and any pending skip.
pub proof fn law_not_due_runs_nothing(s0: SimulationTime, s1: SimulationTime, now: Instant)
    requires
        SimulationTime::frame_end_ok(s0, s1, false, now),
    ensures
        !s1.runs_now(),
        s1.last_at() == s0.last_at(),
        s1.skips_next() == s0.skips_next(),
{
}

} // verus!
