//! Bookkeeping of client-side prediction against the server's
//! acknowledgements. The client predicts one snapshot per tick into a ring
//! of 64 ticks, each with the id of the command it was made under; the
//! server acknowledges ticks with the id of the last command it applied and
//! the states it computed. Whether a predicted snapshot matches the server's
//! (a comparison of positions and states) is decided by the caller and handed
//! in; this storage decides how far the acknowledgement moves and whether
//! the client has to roll back and predict again.
use vstd::prelude::*;

verus! {

/// Number of ticks the ring holds.
pub const SNAPSHOT_COUNT: usize = 64;

/// Slot of `tick` in the ring.
pub open spec fn ring_index(tick: int) -> int {
    tick % 64
}

/// What an acknowledgement asks of the client.
#[derive(Clone, Copy, Debug, PartialEq, Eq, Structural)]
pub enum ServerAckResult {
    /// The local player's prediction was wrong: its acknowledged state was
    /// overwritten and this many frames are to be predicted again.
    Rollback { repredict_this_many_frames: u64 },
    /// Only another entity was predicted wrongly: the server's states were
    /// taken over.
    RemoteEntityCorrection,
    /// There is no unacknowledged prediction: the server's states are to be
    /// taken as they are.
    ServerIsAheadOfClient,
    /// Every prediction was right.
    NoCorrection,
}

impl ServerAckResult {
    /// Whether this is a rollback.
    pub fn is_rollback(&self) -> (r: bool)
        ensures
            r == (*self is Rollback),
    {
        match self {
            ServerAckResult::Rollback { .. } => true,
            _ => false,
        }
    }
}

/// The first `i` in `[i0, 64]` whose tick `last_ack + i` was predicted under
/// command `acked_cid`.
pub open spec fn find_cid(cids: Seq<u32>, last_ack: int, acked_cid: u32, i: int) -> Option<int>
    decreases 65 - i,
{
    if i < 1 || i > 64 {
        None
    } else if cids[ring_index(last_ack + i)] == acked_cid {
        Some(i)
    } else {
        find_cid(cids, last_ack, acked_cid, i + 1)
    }
}

/// The local player's verdict on an acknowledgement of command `acked_cid`:
/// whether to roll back, and by how many ticks the acknowledgement moves.
/// `matches[i - 1]` says whether the server's state matches the prediction
/// for tick `last_ack + i`.
pub open spec fn spec_local_ack(cids: Seq<u32>, last_ack: int, acked_cid: u32, matches: Seq<bool>) -> (bool, int) {
    let cid_at_prediction = cids[ring_index(last_ack + 1)];
    if acked_cid < cid_at_prediction {
        // the server did not get the command yet: wait on a mismatch
        if matches[0] { (false, 1) } else { (false, 0) }
    } else if acked_cid > cid_at_prediction {
        if matches[0] {
            (false, 1)
        } else {
            // the client may have run ahead: look for the acknowledged command
            match find_cid(cids, last_ack, acked_cid, 1) {
                Some(i) => if matches[i - 1] { (false, i) } else { (true, 1) },
                None => (true, 1),
            }
        }
    } else {
        (!matches[0], 1)
    }
}

/// Whether any of the other entities' states mismatches its prediction.
pub open spec fn any_mismatch(remote_matches: Seq<bool>) -> bool {
    exists|k: int| 0 <= k < remote_matches.len() && !#[trigger] remote_matches[k]
}

/// A command found in the ring is found at most 64 ticks ahead.
proof fn lemma_find_cid_bound(cids: Seq<u32>, last_ack: int, acked_cid: u32, i: int)
    ensures
        find_cid(cids, last_ack, acked_cid, i) matches Some(k) ==> i <= k <= 64,
    decreases 65 - i,
{
    if 1 <= i <= 64 && cids[ring_index(last_ack + i)] != acked_cid {
        lemma_find_cid_bound(cids, last_ack, acked_cid, i + 1);
    }
}

/// An acknowledgement never moves the acknowledged tick back, moves it at
/// most a ring's length on, and moves it exactly one tick when the local
/// player has to roll back.
pub proof fn law_ack_moves_forward(cids: Seq<u32>, last_ack: int, acked_cid: u32, matches: Seq<bool>)
    requires
        cids.len() == SNAPSHOT_COUNT,
        matches.len() == SNAPSHOT_COUNT,
    ensures
        0 <= spec_local_ack(cids, last_ack, acked_cid, matches).1 <= 64,
        spec_local_ack(cids, last_ack, acked_cid, matches).0 ==> spec_local_ack(cids, last_ack,
            acked_cid, matches).1 == 1,
{
    lemma_find_cid_bound(cids, last_ack, acked_cid, 1);
}

/// The prediction counters and the ring of command ids.
pub struct SnapshotStorage {
    client_last_command_id: u32,
    last_acknowledged_index: u64,
    last_acknowledged_index_for_server_entities: u64,
    tail: u64,
    last_rollback_at: u64,
    intention_cids: Vec<u32>,
}

impl SnapshotStorage {
    pub closed spec fn last_ack(&self) -> int {
        self.last_acknowledged_index as int
    }

    pub closed spec fn last_ack_remote(&self) -> int {
        self.last_acknowledged_index_for_server_entities as int
    }

    pub closed spec fn tail_tick(&self) -> int {
        self.tail as int
    }

    pub closed spec fn rollback_at(&self) -> int {
        self.last_rollback_at as int
    }

    pub closed spec fn last_command_id(&self) -> u32 {
        self.client_last_command_id
    }

    /// Command id of each slot of the ring.
    pub closed spec fn cids(&self) -> Seq<u32> {
        self.intention_cids@
    }

    /// The ring holds 64 slots.
    pub closed spec fn wf(&self) -> bool {
        self.intention_cids@.len() == SNAPSHOT_COUNT
    }

    /// Nothing predicted yet: the next prediction goes to tick 1.
    pub fn new() -> (r: Self)
        ensures
            r.wf(),
            r.last_ack() == 0,
            r.last_ack_remote() == 0,
            r.tail_tick() == 1,
            r.rollback_at() == 0,
            r.last_command_id() == 0,
            forall|i: int| 0 <= i < 64 ==> #[trigger] r.cids()[i] == 0,
    {
        let mut cids: Vec<u32> = Vec::new();
        let mut k: usize = 0;
        while k < SNAPSHOT_COUNT
            invariant
                k <= SNAPSHOT_COUNT,
                cids@.len() == k,
                forall|i: int| 0 <= i < k ==> #[trigger] cids@[i] == 0,
            decreases SNAPSHOT_COUNT - k,
        {
            cids.push(0);
            k = k + 1;
        }
        SnapshotStorage {
            client_last_command_id: 0,
            last_acknowledged_index: 0,
            last_acknowledged_index_for_server_entities: 0,
            tail: 1,
            last_rollback_at: 0,
            intention_cids: cids,
        }
    }

    pub fn set_client_last_command_id(&mut self, cid: u32)
        ensures
            final(self).last_command_id() == cid,
            final(self).cids() == old(self).cids(),
            final(self).last_ack() == old(self).last_ack(),
            final(self).last_ack_remote() == old(self).last_ack_remote(),
            final(self).tail_tick() == old(self).tail_tick(),
            final(self).rollback_at() == old(self).rollback_at(),
            final(self).wf() == old(self).wf(),
    {
        self.client_last_command_id = cid;
    }

    /// The next prediction goes to the next tick.
    pub fn tick(&mut self)
        requires
            old(self).tail_tick() < u64::MAX,
        ensures
            final(self).tail_tick() == old(self).tail_tick() + 1,
            final(self).cids() == old(self).cids(),
            final(self).last_ack() == old(self).last_ack(),
            final(self).last_ack_remote() == old(self).last_ack_remote(),
            final(self).rollback_at() == old(self).rollback_at(),
            final(self).last_command_id() == old(self).last_command_id(),
            final(self).wf() == old(self).wf(),
    {
        self.tail = self.tail + 1;
    }

    /// Records the command id under which the tick at the tail is predicted.
    pub fn add_intention(&mut self, cid: u32)
        requires
            old(self).wf(),
        ensures
            final(self).wf(),
            final(self).cids() == old(self).cids().update(ring_index(old(self).tail_tick()), cid),
            final(self).last_ack() == old(self).last_ack(),
            final(self).last_ack_remote() == old(self).last_ack_remote(),
            final(self).tail_tick() == old(self).tail_tick(),
            final(self).rollback_at() == old(self).rollback_at(),
            final(self).last_command_id() == old(self).last_command_id(),
    {
        let i = (self.tail % 64) as usize;
        self.intention_cids.set(i, cid);
    }

    /// The command id recorded for the tick at the tail.
    pub fn pop_intention(&self) -> (r: u32)
        requires
            self.wf(),
        ensures
            r == self.cids()[ring_index(self.tail_tick())],
    {
        self.intention_cids[(self.tail % 64) as usize]
    }

    /// Predicting starts again right after the acknowledged tick.
    pub fn reset_tail_index(&mut self)
        requires
            old(self).last_ack() < u64::MAX,
        ensures
            final(self).tail_tick() == old(self).last_ack() + 1,
            final(self).cids() == old(self).cids(),
            final(self).last_ack() == old(self).last_ack(),
            final(self).last_ack_remote() == old(self).last_ack_remote(),
            final(self).rollback_at() == old(self).rollback_at(),
            final(self).last_command_id() == old(self).last_command_id(),
            final(self).wf() == old(self).wf(),
    {
        self.tail = self.last_acknowledged_index + 1;
    }

    pub fn get_tail(&self) -> (r: u64)
        ensures
            r == self.tail_tick(),
    {
        self.tail
    }

    pub fn get_last_acknowledged_index(&self) -> (r: u64)
        ensures
            r == self.last_ack(),
    {
        self.last_acknowledged_index
    }

    pub fn get_last_acknowledged_index_for_server_entities(&self) -> (r: u64)
        ensures
            r == self.last_ack_remote(),
    {
        self.last_acknowledged_index_for_server_entities
    }

    pub fn get_last_rollback_at(&self) -> (r: u64)
        ensures
            r == self.rollback_at(),
    {
        self.last_rollback_at
    }

    /// Number of predicted ticks not acknowledged yet: those strictly between
    /// the acknowledged tick and the tail.
    pub fn get_unacked_prediction_count(&self) -> (r: usize)
        requires
            self.tail_tick() > self.last_ack(),
        ensures
            r == ((self.tail_tick() - self.last_ack() - 1) as usize),
    {
        ((self.tail - self.last_acknowledged_index) - 1) as usize
    }

    /// See `spec_local_ack`.
    fn ack_for_local_player(&self, acked_cid: u32, matches: &Vec<bool>) -> (r: (bool, u64))
        requires
            self.wf(),
            matches@.len() == SNAPSHOT_COUNT,
            self.last_ack() + 64 <= u64::MAX,
        ensures
            r.0 == spec_local_ack(self.cids(), self.last_ack(), acked_cid, matches@).0,
            r.1 == spec_local_ack(self.cids(), self.last_ack(), acked_cid, matches@).1,
            r.1 <= 64,
    {
        let last = self.last_acknowledged_index;
        let cid_at_prediction = self.intention_cids[((last + 1) % 64) as usize];
        if acked_cid < cid_at_prediction {
            if matches[0] { (false, 1) } else { (false, 0) }
        } else if acked_cid > cid_at_prediction {
            if matches[0] {
                return (false, 1);
            }
            let mut i: u64 = 1;
            while i <= 64
                invariant
                    1 <= i <= 65,
                    self.wf(),
                    !matches@[0],
                    acked_cid > cid_at_prediction,
                    cid_at_prediction == self.cids()[ring_index(last + 1)],
                    matches@.len() == SNAPSHOT_COUNT,
                    last == self.last_ack(),
                    last + 64 <= u64::MAX,
                    find_cid(self.cids(), last as int, acked_cid, 1) == find_cid(self.cids(), last as int, acked_cid, i as int),
                decreases 65 - i,
            {
                let cid = self.intention_cids[((last + i) % 64) as usize];
                if acked_cid == cid {
                    return if matches[(i - 1) as usize] { (false, i) } else { (true, 1) };
                }
                i = i + 1;
            }
            (true, 1)
        } else {
            (!matches[0], 1)
        }
    }

    /// Takes in the server's acknowledgement of command `acked_cid` at
    /// `client_tick`. `local_matches[i - 1]` says whether the server's state
    /// of the local player matches its prediction for the tick `i` after the
    /// acknowledged one; `remote_matches` whether each other entity's state
    /// matches its prediction for the tick after theirs.
    ///
    /// With no unacknowledged prediction nothing changes and the server is
    /// ahead. Otherwise the acknowledgement moves as `spec_local_ack` says
    /// and the other entities' by one tick; on a wrong prediction the others'
    /// acknowledged tick becomes the one before the tail, the rollback is
    /// dated `client_tick`, and the local player's own mistake asks for a
    /// rollback over the ticks left before the tail, another's for a
    /// correction.
    pub fn ack_arrived(
        &mut self,
        client_tick: u64,
        acked_cid: u32,
        local_matches: &Vec<bool>,
        remote_matches: &Vec<bool>,
    ) -> (r: ServerAckResult)
        requires
            old(self).wf(),
            old(self).tail_tick() > old(self).last_ack(),
            local_matches@.len() == SNAPSHOT_COUNT,
            old(self).last_ack() + 64 <= u64::MAX,
            old(self).last_ack_remote() < u64::MAX,
        ensures
            final(self).wf(),
            final(self).cids() == old(self).cids(),
            final(self).tail_tick() == old(self).tail_tick(),
            final(self).last_command_id() == old(self).last_command_id(),
            ({
                let count = ((old(self).tail_tick() - old(self).last_ack() - 1) as usize);
                let local = spec_local_ack(old(self).cids(), old(self).last_ack(), acked_cid, local_matches@);
                let rollback = local.0 || any_mismatch(remote_matches@);
                if count == 0 {
                    &&& r == ServerAckResult::ServerIsAheadOfClient
                    &&& final(self).last_ack() == old(self).last_ack()
                    &&& final(self).last_ack_remote() == old(self).last_ack_remote()
                    &&& final(self).rollback_at() == old(self).rollback_at()
                } else {
                    &&& final(self).last_ack() == old(self).last_ack() + local.1
                    &&& final(self).last_ack_remote() == (if rollback {
                        old(self).tail_tick() - 1
                    } else {
                        old(self).last_ack_remote() + 1
                    })
                    &&& final(self).rollback_at() == (if rollback { client_tick as int } else { old(self).rollback_at() })
                    &&& r == (if local.0 {
                        ServerAckResult::Rollback {
                            repredict_this_many_frames: (old(self).tail_tick() - final(self).last_ack() - 1) as u64,
                        }
                    } else if rollback {
                        ServerAckResult::RemoteEntityCorrection
                    } else {
                        ServerAckResult::NoCorrection
                    })
                }
            }),
    {
        if self.get_unacked_prediction_count() == 0 {
            return ServerAckResult::ServerIsAheadOfClient;
        }
        let (mut need_rollback, increase_index_ack_by) = self.ack_for_local_player(acked_cid, local_matches);
        let rollback_only_local_client = need_rollback;
        if !need_rollback {
            let mut k: usize = 0;
            while k < remote_matches.len() && remote_matches[k]
                invariant
                    k <= remote_matches@.len(),
                    forall|j: int| 0 <= j < k ==> #[trigger] remote_matches@[j],
                decreases remote_matches@.len() - k,
            {
                k = k + 1;
            }
            need_rollback = k < remote_matches.len();
            proof {
                if !need_rollback {
                    assert(!any_mismatch(remote_matches@));
                } else {
                    assert(!remote_matches@[k as int]);
                }
            }
        }
        if increase_index_ack_by > 1 {
            self.last_acknowledged_index = self.last_acknowledged_index + (increase_index_ack_by - 1);
        }
        if increase_index_ack_by > 0 {
            self.last_acknowledged_index = self.last_acknowledged_index + 1;
        }
        self.last_acknowledged_index_for_server_entities = self.last_acknowledged_index_for_server_entities + 1;
        if need_rollback {
            self.last_acknowledged_index_for_server_entities = self.tail - 1;
            self.last_rollback_at = client_tick;
            if rollback_only_local_client {
                ServerAckResult::Rollback {
                    repredict_this_many_frames: self.tail - self.last_acknowledged_index - 1,
                }
            } else {
                ServerAckResult::RemoteEntityCorrection
            }
        } else {
            ServerAckResult::NoCorrection
        }
    }
}

} // verus!
