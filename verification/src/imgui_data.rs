//! State of the debug windows: the last samples of the network and frame
//! counters, shown as graphs, and the characters whose windows are open.
use vstd::prelude::*;
use crate::skills::CharEntityId;

verus! {

/// Number of samples a graph shows.
pub const PING_COUNT: usize = 16;

/// The last `PING_COUNT` samples of a counter, oldest first.
pub struct SampleWindow {
    pub samples: [usize; 16],
}

/// The window after `v` was sampled: the oldest sample drops out and `v`
/// comes in last.
pub open spec fn spec_pushed(s: Seq<usize>, v: usize) -> Seq<usize> {
    s.skip(1).push(v)
}

impl SampleWindow {
    /// Sixteen zero samples.
    pub fn new() -> (r: Self)
        ensures
            r.samples@ == Seq::new(16, |i: int| 0usize),
    {
        let r = SampleWindow { samples: [0; 16] };
        assert(r.samples@ =~= Seq::new(16, |i: int| 0usize));
        r
    }

    /// Records a new sample; see `spec_pushed`.
    pub fn push(&mut self, v: usize)
        ensures
            final(self).samples@ == spec_pushed(old(self).samples@, v),
    {
        let mut i: usize = 0;
        while i < PING_COUNT - 1
            invariant
                i <= 15,
                self.samples@.len() == 16,
                forall|j: int| 0 <= j < i ==> #[trigger] self.samples@[j] == old(self).samples@[j + 1],
                forall|j: int| i <= j < 16 ==> #[trigger] self.samples@[j] == old(self).samples@[j],
            decreases 15 - i,
        {
            let next = self.samples[i + 1];
            self.samples.set(i, next);
            i = i + 1;
        }
        self.samples.set(PING_COUNT - 1, v);
        assert(self.samples@ =~= spec_pushed(old(self).samples@, v));
    }

    /// Adds one to the newest sample.
    pub fn increment_last(&mut self)
        requires
            old(self).samples@[15] < usize::MAX,
        ensures
            final(self).samples@ == old(self).samples@.update(15, (old(self).samples@[15] + 1) as usize),
    {
        let last = self.samples[PING_COUNT - 1];
        self.samples.set(PING_COUNT - 1, last + 1);
    }
}

/// The debug windows' state.
pub struct ImguiData {
    pub entity_under_cursor: Option<CharEntityId>,
    pub max_fps: usize,
    pub show_network_window: bool,
    pub show_entity_window: bool,
    pub pings: SampleWindow,
    pub unacked_prediction_count: usize,
    pub rollbacks_per_second: SampleWindow,
    pub fps: SampleWindow,
    pub inc_packets_per_second: SampleWindow,
    pub out_packets_per_second: SampleWindow,
    pub incoming_bytes_per_second: SampleWindow,
    pub outgoing_bytes_per_second: SampleWindow,
    pub inspected_entities: Vec<CharEntityId>,
}

/// No character occurs twice.
pub open spec fn no_duplicates(s: Seq<CharEntityId>) -> bool {
    forall|i: int, j: int| 0 <= i < j < s.len() ==> s[i] != s[j]
}

impl ImguiData {
    /// Windows closed, every sample zero, nothing inspected.
    pub fn new(max_fps: usize) -> (r: Self)
        ensures
            r.max_fps == max_fps,
            r.entity_under_cursor is None,
            !r.show_network_window && !r.show_entity_window,
            r.unacked_prediction_count == 0,
            r.pings.samples@ == Seq::new(16, |i: int| 0usize),
            r.fps.samples@ == Seq::new(16, |i: int| 0usize),
            r.rollbacks_per_second.samples@ == Seq::new(16, |i: int| 0usize),
            r.inc_packets_per_second.samples@ == Seq::new(16, |i: int| 0usize),
            r.out_packets_per_second.samples@ == Seq::new(16, |i: int| 0usize),
            r.incoming_bytes_per_second.samples@ == Seq::new(16, |i: int| 0usize),
            r.outgoing_bytes_per_second.samples@ == Seq::new(16, |i: int| 0usize),
            r.inspected_entities@.len() == 0,
    {
        ImguiData {
            entity_under_cursor: None,
            max_fps,
            show_network_window: false,
            show_entity_window: false,
            pings: SampleWindow::new(),
            unacked_prediction_count: 0,
            rollbacks_per_second: SampleWindow::new(),
            fps: SampleWindow::new(),
            inc_packets_per_second: SampleWindow::new(),
            out_packets_per_second: SampleWindow::new(),
            incoming_bytes_per_second: SampleWindow::new(),
            outgoing_bytes_per_second: SampleWindow::new(),
            inspected_entities: Vec::new(),
        }
    }

    /// Records a ping sample.
    pub fn ping(&mut self, ping: usize)
        ensures
            final(self).pings.samples@ == spec_pushed(old(self).pings.samples@, ping),
    {
        self.pings.push(ping);
    }

    /// Records an incoming-packets sample.
    pub fn incoming_packets_per_second(&mut self, count: usize)
        ensures
            final(self).inc_packets_per_second.samples@ == spec_pushed(old(self).inc_packets_per_second.samples@, count),
    {
        self.inc_packets_per_second.push(count);
    }

    /// Records an incoming-bytes sample.
    pub fn incoming_bytes_per_second(&mut self, count: usize)
        ensures
            final(self).incoming_bytes_per_second.samples@ == spec_pushed(old(self).incoming_bytes_per_second.samples@, count),
    {
        self.incoming_bytes_per_second.push(count);
    }

    /// Records an outgoing-bytes sample.
    pub fn outgoing_bytes_per_second(&mut self, count: usize)
        ensures
            final(self).outgoing_bytes_per_second.samples@ == spec_pushed(old(self).outgoing_bytes_per_second.samples@, count),
    {
        self.outgoing_bytes_per_second.push(count);
    }

    /// Records an outgoing-packets sample.
    pub fn outgoing_packets_per_second(&mut self, count: usize)
        ensures
            final(self).out_packets_per_second.samples@ == spec_pushed(old(self).out_packets_per_second.samples@, count),
    {
        self.out_packets_per_second.push(count);
    }

    /// Sets the number of predictions the server has not acknowledged.
    pub fn unacked_prediction_count(&mut self, count: usize)
        ensures
            final(self).unacked_prediction_count == count,
    {
        self.unacked_prediction_count = count;
    }

    /// Counts a rollback in the current second, if there was one.
    pub fn rollback(&mut self, had_rollback: bool)
        requires
            old(self).rollbacks_per_second.samples@[15] < usize::MAX,
        ensures
            final(self).rollbacks_per_second.samples@ == if had_rollback {
                old(self).rollbacks_per_second.samples@.update(15, (old(self).rollbacks_per_second.samples@[15] + 1) as usize)
            } else {
                old(self).rollbacks_per_second.samples@
            },
    {
        if had_rollback {
            self.rollbacks_per_second.increment_last();
        }
    }

    /// Starts counting rollbacks of a new second.
    pub fn set_rollback(&mut self)
        ensures
            final(self).rollbacks_per_second.samples@ == spec_pushed(old(self).rollbacks_per_second.samples@, 0),
    {
        self.rollbacks_per_second.push(0);
    }

    /// Records a frames-per-second sample.
    pub fn fps(&mut self, count: usize)
        ensures
            final(self).fps.samples@ == spec_pushed(old(self).fps.samples@, count),
    {
        self.fps.push(count);
    }

    /// Opens the window of `entity`, unless it is open already.
    pub fn inspect_entity(&mut self, entity: CharEntityId)
        requires
            no_duplicates(old(self).inspected_entities@),
        ensures
            no_duplicates(final(self).inspected_entities@),
            final(self).inspected_entities@ == if old(self).inspected_entities@.contains(entity) {
                old(self).inspected_entities@
            } else {
                old(self).inspected_entities@.push(entity)
            },
    {
        if self.is_inspecting(entity) {
            return;
        }
        self.inspected_entities.push(entity);
    }

    /// Whether the window of `entity` is open.
    pub fn is_inspecting(&self, entity: CharEntityId) -> (r: bool)
        ensures
            r == self.inspected_entities@.contains(entity),
    {
        let mut i: usize = 0;
        while i < self.inspected_entities.len()
            invariant
                i <= self.inspected_entities@.len(),
                forall|j: int| 0 <= j < i ==> self.inspected_entities@[j] != entity,
            decreases self.inspected_entities@.len() - i,
        {
            if self.inspected_entities[i].0 == entity.0 {
                assert(self.inspected_entities@[i as int] == entity);
                return true;
            }
            i = i + 1;
        }
        false
    }

    /// Closes the window of `entity`, which must be open: the last open
    /// window takes its place in the list.
    pub fn stop_inspecting_entity(&mut self, entity: CharEntityId)
        requires
            old(self).inspected_entities@.contains(entity),
            no_duplicates(old(self).inspected_entities@),
        ensures
            no_duplicates(final(self).inspected_entities@),
            !final(self).inspected_entities@.contains(entity),
            final(self).inspected_entities@ == old(self).inspected_entities@.update(
                old(self).inspected_entities@.index_of(entity),
                old(self).inspected_entities@.last(),
            ).drop_last(),
            forall|e: CharEntityId| e != entity ==> (final(self).inspected_entities@.contains(e)
                <==> old(self).inspected_entities@.contains(e)),
    {
        let ghost old_s = self.inspected_entities@;
        let mut index: usize = 0;
        while index < self.inspected_entities.len() && self.inspected_entities[index].0 != entity.0
            invariant
                self.inspected_entities@ == old_s,
                old_s.contains(entity),
                index <= old_s.len(),
                forall|j: int| 0 <= j < index ==> old_s[j] != entity,
            decreases old_s.len() - index,
        {
            index = index + 1;
        }
        assert(index < old_s.len() && old_s[index as int] == entity);
        proof {
            let k = old_s.index_of(entity);
            assert(0 <= k < old_s.len() && old_s[k] == entity);
            if k != index {
                if k < index {
                    assert(old_s[k] != old_s[index as int]);
                } else {
                    assert(old_s[index as int] != old_s[k]);
                }
            }
        }
        self.inspected_entities.swap_remove(index);
        let ghost new_s = self.inspected_entities@;
        assert(new_s == old_s.update(index as int, old_s.last()).drop_last());
        assert forall|i: int, j: int| 0 <= i < j < new_s.len() implies new_s[i] != new_s[j] by {
            if i == index {
                assert(new_s[i] == old_s[old_s.len() - 1]);
                assert(new_s[j] == old_s[j]);
            } else if j == index {
                assert(new_s[j] == old_s[old_s.len() - 1]);
                assert(new_s[i] == old_s[i]);
            } else {
                assert(new_s[i] == old_s[i] && new_s[j] == old_s[j]);
            }
        }
        assert forall|e: CharEntityId| e != entity implies (new_s.contains(e) <==> old_s.contains(e)) by {
            if old_s.contains(e) {
                let k = choose|k: int| 0 <= k < old_s.len() && old_s[k] == e;
                if k == old_s.len() - 1 {
                    if index < old_s.len() - 1 {
                        assert(new_s[index as int] == e);
                    }
                } else {
                    assert(k != index);
                    assert(new_s[k] == e);
                }
            }
            if new_s.contains(e) {
                let k = choose|k: int| 0 <= k < new_s.len() && new_s[k] == e;
                if k == index {
                    assert(old_s[old_s.len() - 1] == e);
                } else {
                    assert(old_s[k] == e);
                }
            }
        }
        assert(!new_s.contains(entity)) by {
            if new_s.contains(entity) {
                let k = choose|k: int| 0 <= k < new_s.len() && new_s[k] == entity;
                if k == index {
                    assert(old_s[old_s.len() - 1] == entity);
                    assert(index < old_s.len() - 1);
                } else {
                    assert(old_s[k] == entity);
                }
            }
        }
    }
}

} // verus!
