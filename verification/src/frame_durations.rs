//! Per-system timing statistics of the frame loop: for every named system,
//! the shortest and longest run seen and a running average.
use vstd::prelude::*;
use std::time::{Duration, Instant};
use crate::name_table::NameTable;
use crate::simulation::instant_now;

verus! {

/// `Instant::duration_since`: the time from `earlier` to `later`. Nothing is
/// stated of the result: `Instant` and `Duration` are opaque here.
#[verifier::external_body]
fn duration_since(later: &Instant, earlier: Instant) -> Duration {
    later.duration_since(earlier)
}

/// `Duration::as_micros`: whole microseconds of a duration. Nothing is
/// stated of the result: `Duration` is opaque here.
#[verifier::external_body]
fn duration_as_micros(d: &Duration) -> u128 {
    d.as_micros()
}

/// Statistics of one system, in microseconds.
#[derive(Clone, Copy, Debug, PartialEq, Eq, Structural)]
pub struct SystemFrameDurationsFrame {
    pub min: u32,
    pub max: u32,
    pub avg: u32,
}

/// The statistics of a system that has not run yet.
pub open spec fn fresh_frame() -> SystemFrameDurationsFrame {
    SystemFrameDurationsFrame { min: 100_000, max: 0, avg: 0 }
}

/// The statistics after one more run of `duration` microseconds: the
/// minimum and maximum take it in, and the average moves halfway to it.
pub open spec fn spec_record(f: SystemFrameDurationsFrame, duration: u32) -> SystemFrameDurationsFrame {
    SystemFrameDurationsFrame {
        min: if duration < f.min { duration } else { f.min },
        max: if duration > f.max { duration } else { f.max },
        avg: ((f.avg as int + duration as int) / 2) as u32,
    }
}

/// All statistics after one more run of `duration` microseconds of the
/// system `name`.
pub open spec fn spec_after_run(
    stats: Map<Seq<char>, SystemFrameDurationsFrame>,
    name: Seq<char>,
    duration: u32,
) -> Map<Seq<char>, SystemFrameDurationsFrame> {
    stats.insert(
        name,
        spec_record(if stats.dom().contains(name) { stats[name] } else { fresh_frame() }, duration),
    )
}

/// Statistics of every system, by name.
pub struct SystemFrameDurations(NameTable<SystemFrameDurationsFrame>);

impl SystemFrameDurations {
    pub closed spec fn view(&self) -> Map<Seq<char>, SystemFrameDurationsFrame> {
        self.0.view()
    }

    pub closed spec fn wf(&self) -> bool {
        self.0.wf()
    }

    /// No statistics yet.
    pub fn new() -> (r: Self)
        ensures
            r.wf(),
            r.view() == Map::<Seq<char>, SystemFrameDurationsFrame>::empty(),
    {
        SystemFrameDurations(NameTable::new())
    }

    /// The statistics of the system `name`, if it has run.
    pub fn get(&self, name: &str) -> (r: Option<SystemFrameDurationsFrame>)
        requires
            self.wf(),
        ensures
            r == (if self.view().dom().contains(name@) {
                Some(self.view()[name@])
            } else {
                None::<SystemFrameDurationsFrame>
            }),
    {
        let key = name.to_owned();
        self.0.get(&key)
    }

    /// Takes one run of `duration` microseconds of the system `name` into
    /// its statistics (starting from `fresh_frame` for a new name).
    pub fn record(&mut self, name: &str, duration: u32)
        requires
            old(self).wf(),
        ensures
            final(self).wf(),
            final(self).view() == spec_after_run(old(self).view(), name@, duration),
    {
        let key = name.to_owned();
        let durs = match self.0.get(&key) {
            Some(f) => f,
            None => SystemFrameDurationsFrame { min: 100_000, max: 0, avg: 0 },
        };
        let min = if duration < durs.min { duration } else { durs.min };
        let max = if duration > durs.max { duration } else { durs.max };
        let avg = ((durs.avg as u64 + duration as u64) / 2) as u32;
        self.0.insert(key, SystemFrameDurationsFrame { min, max, avg });
    }

    /// Takes the run of the system `name` that began at `started` and ends
    /// now into its statistics; the run's length is read from the clock
    /// (whole microseconds, kept to their low 32 bits), so whatever it was,
    /// the statistics of `name` are those `spec_record` gives for some length.
    pub fn system_finished(&mut self, started: Instant, name: &str)
        requires
            old(self).wf(),
        ensures
            final(self).wf(),
            exists|duration: u32| final(self).view() == #[trigger] spec_after_run(old(self).view(), name@, duration),
    {
        let now = instant_now();
        let elapsed = duration_since(&now, started);
        let duration = duration_as_micros(&elapsed) as u32;
        self.record(name, duration);
    }

    /// Starts timing a run of the system `name`.
    pub fn start_measurement(&self, name: &'static str) -> (r: SystemStopwatch)
        ensures
            r.name() == name,
    {
        SystemStopwatch::new(name)
    }
}

/// A running measurement of one system.
pub struct SystemStopwatch {
    started: Instant,
    name: &'static str,
}

impl SystemStopwatch {
    pub closed spec fn name(&self) -> &'static str {
        self.name
    }

    /// Starts timing a run of the system `name` now.
    pub fn new(name: &'static str) -> (r: SystemStopwatch)
        ensures
            r.name() == name,
    {
        SystemStopwatch { started: instant_now(), name }
    }

    /// Ends the run and takes it into `times`.
    pub fn stop(self, times: &mut SystemFrameDurations)
        requires
            old(times).wf(),
        ensures
            final(times).wf(),
            exists|duration: u32| final(times).view() == #[trigger] spec_after_run(old(times).view(), self.name()@, duration),
    {
        let ghost before = times.view();
        times.system_finished(self.started, self.name);
        proof {
            let d = choose|d: u32| times.view() == #[trigger] spec_after_run(before, self.name@, d);
            assert(times.view() == spec_after_run(old(times).view(), self.name()@, d));
        }
    }
}

/// Recording a run keeps the statistics consistent: the new minimum is at
/// most the run and the new maximum at least the run, and an average that
/// did not exceed the maximum (as with fresh statistics) still does not.
pub proof fn law_record_bounds(f: SystemFrameDurationsFrame, duration: u32)
    ensures
        spec_record(f, duration).min <= duration,
        spec_record(f, duration).min <= f.min,
        spec_record(f, duration).max >= duration,
        spec_record(f, duration).max >= f.max,
        f.avg <= f.max ==> spec_record(f, duration).avg <= spec_record(f, duration).max,
        fresh_frame().avg <= fresh_frame().max,
{
}

} // verus!
