//! A receiving queue that holds incoming packets back for a fixed delay,
//! to try the game under network lag.
use vstd::prelude::*;
use std::time::Instant;
use crate::simulation::{duration_as_millis, instant_elapsed, instant_now};

verus! {

/// The packets whose flag in `due` is `due_value`, in their order.
pub open spec fn select<P>(packets: Seq<(Instant, P)>, due: Seq<bool>, due_value: bool) -> Seq<P>
    decreases packets.len(),
{
    if packets.len() == 0 {
        Seq::empty()
    } else {
        let before = select(packets.drop_last(), due.take(packets.len() - 1), due_value);
        if due[packets.len() - 1] == due_value { before.push(packets.last().1) } else { before }
    }
}

/// The entries (arrival time and packet) whose flag in `due` is `due_value`,
/// in their order.
pub open spec fn select_entries<P>(packets: Seq<(Instant, P)>, due: Seq<bool>, due_value: bool) -> Seq<(Instant, P)>
    decreases packets.len(),
{
    if packets.len() == 0 {
        Seq::empty()
    } else {
        let before = select_entries(packets.drop_last(), due.take(packets.len() - 1), due_value);
        if due[packets.len() - 1] == due_value { before.push(packets.last()) } else { before }
    }
}

/// The verdicts for packets waiting `elapsed` milliseconds each under a
/// delay of `delay_millis`: due once the delay has passed.
pub open spec fn due_flags(elapsed: Seq<u128>, delay_millis: u128) -> Seq<bool> {
    elapsed.map_values(|e: u128| e >= delay_millis)
}

/// With every packet due, all of them are given back and none stays.
proof fn lemma_all_due<P>(packets: Seq<(Instant, P)>, due: Seq<bool>)
    requires
        due.len() == packets.len(),
        forall|i: int| 0 <= i < due.len() ==> #[trigger] due[i],
    ensures
        select(packets, due, true) == packets.map_values(|e: (Instant, P)| e.1),
        select_entries(packets, due, false).len() == 0,
    decreases packets.len(),
{
    if packets.len() > 0 {
        let k = packets.len() - 1;
        let shorter = due.take(k);
        assert forall|i: int| 0 <= i < shorter.len() implies #[trigger] shorter[i] by {
            assert(shorter[i] == due[i]);
        }
        lemma_all_due(packets.drop_last(), shorter);
        assert(due[k]);
        assert(packets.map_values(|e: (Instant, P)| e.1) =~= packets.drop_last().map_values(
            |e: (Instant, P)| e.1,
        ).push(packets.last().1));
    }
}

/// Packets with their arrival times, held back for `delay_millis`.
pub struct DelayedPacketReceiver<P> {
    pub packets: Vec<(Instant, P)>,
    pub delay_millis: u128,
}

impl<P> DelayedPacketReceiver<P> {
    /// An empty queue that holds packets back for `delay_millis`.
    pub fn new(delay_millis: u128) -> (r: Self)
        ensures
            r.packets@.len() == 0,
            r.delay_millis == delay_millis,
    {
        DelayedPacketReceiver { packets: Vec::new(), delay_millis }
    }

    /// Queues `packet`, stamped with the current time.
    pub fn push(&mut self, packet: P)
        ensures
            final(self).packets@.len() == old(self).packets@.len() + 1,
            final(self).packets@.drop_last() == old(self).packets@,
            final(self).packets@.last().1 == packet,
            final(self).delay_millis == old(self).delay_millis,
    {
        let now = instant_now();
        self.packets.push((now, packet));
        assert(self.packets@.drop_last() =~= old(self).packets@);
    }

    /// Splits the queue by the verdicts `due` (one per queued packet, in
    /// order): the due packets are given back in their order, the others
    /// stay queued in theirs.
    pub fn split_due(&mut self, due: &Vec<bool>) -> (r: Vec<P>)
        requires
            due@.len() == old(self).packets@.len(),
        ensures
            r@ == select(old(self).packets@, due@, true),
            final(self).packets@ == select_entries(old(self).packets@, due@, false),
            final(self).delay_millis == old(self).delay_millis,
    {
        let ghost all = self.packets@;
        let n = self.packets.len();
        let mut rest: Vec<(Instant, P)> = Vec::new();
        let mut ready: Vec<P> = Vec::new();
        let mut queue: Vec<(Instant, P)> = Vec::new();
        std::mem::swap(&mut queue, &mut self.packets);
        let mut k: usize = 0;
        assert(all.take(0) =~= Seq::<(Instant, P)>::empty());
        assert(due@.take(0) =~= Seq::<bool>::empty());
        while queue.len() > 0
            invariant
                all.len() == due@.len(),
                n == all.len(),
                k <= all.len(),
                queue@ == all.skip(k as int),
                ready@ == select(all.take(k as int), due@.take(k as int), true),
                rest@ == select_entries(all.take(k as int), due@.take(k as int), false),
                self.packets@.len() == 0,
                self.delay_millis == old(self).delay_millis,
            decreases queue@.len(),
        {
            let entry = queue.remove(0);
            proof {
                assert(all.skip(k + 1) =~= all.skip(k as int).remove(0));
                assert(all.take(k + 1).drop_last() =~= all.take(k as int));
                assert(due@.take(k + 1).take(k as int) =~= due@.take(k as int));
                assert(all.take(k + 1).last() == entry);
            }
            if due[k] {
                ready.push(entry.1);
            } else {
                rest.push(entry);
            }
            k = k + 1;
        }
        proof {
            assert(all.take(k as int) =~= all);
            assert(due@.take(k as int) =~= due@);
        }
        self.packets = rest;
        ready
    }

    /// Given the milliseconds each queued packet has waited (in queue
    /// order), gives back those whose delay has passed, in their order;
    /// the others stay queued in theirs.
    pub fn take_due(&mut self, elapsed_millis: &Vec<u128>) -> (r: Vec<P>)
        requires
            elapsed_millis@.len() == old(self).packets@.len(),
        ensures
            r@ == select(old(self).packets@, due_flags(elapsed_millis@, old(self).delay_millis), true),
            final(self).packets@ == select_entries(old(self).packets@, due_flags(elapsed_millis@, old(self).delay_millis), false),
            final(self).delay_millis == old(self).delay_millis,
    {
        let mut due: Vec<bool> = Vec::new();
        let mut i: usize = 0;
        while i < elapsed_millis.len()
            invariant
                i <= elapsed_millis@.len(),
                due@ == due_flags(elapsed_millis@, self.delay_millis).take(i as int),
            decreases elapsed_millis@.len() - i,
        {
            due.push(elapsed_millis[i] >= self.delay_millis);
            proof {
                assert(due@ =~= due_flags(elapsed_millis@, self.delay_millis).take(i + 1));
            }
            i = i + 1;
        }
        proof {
            assert(due@ =~= due_flags(elapsed_millis@, self.delay_millis));
        }
        self.split_due(&due)
    }

    /// The packets whose delay has passed, by the clock, in their order;
    /// the others stay queued in theirs (see `take_due`). How long each has
    /// waited is read from the clock, so which ones are due depends on when
    /// the call is made; with no delay every packet is due.
    pub fn get_packets(&mut self) -> (r: Vec<P>)
        ensures
            exists|elapsed: Seq<u128>|
                elapsed.len() == old(self).packets@.len()
                    && r@ == select(old(self).packets@, due_flags(elapsed, old(self).delay_millis), true)
                    && final(self).packets@ == select_entries(old(self).packets@, due_flags(elapsed, old(self).delay_millis), false),
            old(self).delay_millis == 0 ==> r@ == old(self).packets@.map_values(|e: (Instant, P)| e.1)
                && final(self).packets@.len() == 0,
            final(self).delay_millis == old(self).delay_millis,
    {
        let mut elapsed: Vec<u128> = Vec::new();
        let mut i: usize = 0;
        while i < self.packets.len()
            invariant
                i <= self.packets@.len(),
                elapsed@.len() == i,
            decreases self.packets@.len() - i,
        {
            let waited = instant_elapsed(&self.packets[i].0);
            elapsed.push(duration_as_millis(&waited));
            i = i + 1;
        }
        let ghost flags = due_flags(elapsed@, self.delay_millis);
        proof {
            if self.delay_millis == 0 {
                lemma_all_due(self.packets@, flags);
            }
        }
        let r = self.take_due(&elapsed);
        assert(elapsed@.len() == old(self).packets@.len() && r@ == select(old(self).packets@, flags, true));
        r
    }
}

} // verus!
