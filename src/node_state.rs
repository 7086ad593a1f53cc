use vstd::prelude::*;

use crate::ant_agent::{decayed, AntAgent, AntModel, MIN_ANT_ENERGY};
use crate::pheromone::{
    evaporated, is_unset_key, Pheromone, PheromoneModel, CONSENSUS_THRESHOLD,
    INITIAL_PHEROMONE_INTENSITY, INTENSITY_ONE, MIN_PHEROMONE_INTENSITY,
};
use crate::signing::pkcs8_accepted;
use crate::types::{ConsensusError, ConsensusValue, NodeId};

verus! {

/// Evaporation rate of a new node (0.01).
pub const DEFAULT_EVAPORATION_RATE: u64 = INTENSITY_ONE / 100;

/// Soft bound on the number of neighbors.
pub const MAX_NEIGHBORS: usize = 32;

/// Counters of what a node has done.
#[derive(Debug, Clone, Copy)]
pub struct NodeStats {
    pub pheromones_received: u64,
    pub pheromones_emitted: u64,
    pub ants_created: u64,
    pub consensus_reached: u64,
    pub messages_sent: u64,
    pub messages_received: u64,
}

impl Default for NodeStats {
    fn default() -> (r: Self)
        ensures
            r.pheromones_received == 0,
            r.pheromones_emitted == 0,
            r.ants_created == 0,
            r.consensus_reached == 0,
            r.messages_sent == 0,
            r.messages_received == 0,
    {
        NodeStats {
            pheromones_received: 0,
            pheromones_emitted: 0,
            ants_created: 0,
            consensus_reached: 0,
            messages_sent: 0,
            messages_received: 0,
        }
    }
}

/// A counter after one more event; it stops at its maximum.
pub open spec fn bumped(c: u64) -> u64 {
    if c < u64::MAX {
        (c + 1) as u64
    } else {
        c
    }
}

fn bump(c: u64) -> (r: u64)
    ensures
        r == bumped(c),
{
    if c < u64::MAX {
        c + 1
    } else {
        c
    }
}

/// The pheromones held for one value.
#[derive(Debug)]
pub struct ValueTrail {
    pub value: ConsensusValue,
    pub pheromones: Vec<Pheromone>,
}

/// What a trail holds, as plain values.
pub struct TrailModel {
    pub digest: Seq<u8>,
    pub markers: Seq<PheromoneModel>,
}

impl View for ValueTrail {
    type V = TrailModel;

    open spec fn view(&self) -> TrailModel {
        TrailModel { digest: self.value.hash@, markers: self.pheromones@.map_values(|p: Pheromone| p@) }
    }
}

/// The state of one node.
#[derive(Debug)]
pub struct NodeState {
    pub id: NodeId,
    /// The value agreed on, once consensus is reached.
    pub current_value: Option<ConsensusValue>,
    /// Pheromones grouped by value, one trail per value.
    pub pheromones: Vec<ValueTrail>,
    pub ants: Vec<AntAgent>,
    /// Known neighbors, each once, in the order they were learned.
    pub neighbors: Vec<NodeId>,
    /// Fixed-point evaporation rate.
    pub evaporation_rate: u64,
    pub stats: NodeStats,
}

/// The trails as plain values.
pub open spec fn trails_of(ts: Seq<ValueTrail>) -> Seq<TrailModel> {
    ts.map_values(|t: ValueTrail| t@)
}

/// The ants as plain values.
pub open spec fn ants_of(ants: Seq<AntAgent>) -> Seq<AntModel> {
    ants.map_values(|a: AntAgent| a@)
}

/// Every trail is non-empty, holds only pheromones for its own value, and no
/// two trails are for the same value.
pub open spec fn trails_wf(ts: Seq<TrailModel>) -> bool {
    &&& forall|i: int| 0 <= i < ts.len() ==> #[trigger] ts[i].markers.len() > 0
    &&& forall|i: int, k: int|
        0 <= i < ts.len() && 0 <= k < ts[i].markers.len() ==> #[trigger] ts[i].markers[k].digest
            == ts[i].digest
    &&& forall|i: int, j: int|
        0 <= i < ts.len() && 0 <= j < ts.len() && i != j ==> #[trigger] ts[i].digest
            != #[trigger] ts[j].digest
}

/// The neighbor list after learning of `n`: a node is never its own
/// neighbor, and each neighbor is listed once.
pub open spec fn with_neighbor(ns: Seq<NodeId>, id: NodeId, n: NodeId) -> Seq<NodeId> {
    if n == id || ns.contains(n) {
        ns
    } else {
        ns.push(n)
    }
}

/// The position of the trail for `digest`, or -1.
pub open spec fn trail_position(ts: Seq<TrailModel>, digest: Seq<u8>) -> int {
    if exists|k: int| 0 <= k < ts.len() && ts[k].digest == digest {
        choose|k: int| 0 <= k < ts.len() && ts[k].digest == digest
    } else {
        -1
    }
}

/// The trails after storing `p`: appended to the trail for its value, or in
/// a new trail at the end.
pub open spec fn stored(ts: Seq<TrailModel>, p: PheromoneModel) -> Seq<TrailModel> {
    let k = trail_position(ts, p.digest);
    if k >= 0 {
        ts.update(k, TrailModel { digest: ts[k].digest, markers: ts[k].markers.push(p) })
    } else {
        ts.push(TrailModel { digest: p.digest, markers: seq![p] })
    }
}

/// A pheromone after evaporating at `rate`.
pub open spec fn faded(m: PheromoneModel, rate: u64) -> PheromoneModel {
    PheromoneModel { intensity: evaporated(m.intensity, rate), ..m }
}

/// The pheromones of a trail after evaporation, without those that fell
/// below the removal floor, in their order.
pub open spec fn surviving(ms: Seq<PheromoneModel>, rate: u64) -> Seq<PheromoneModel>
    decreases ms.len(),
{
    if ms.len() == 0 {
        Seq::empty()
    } else {
        let rest = surviving(ms.drop_last(), rate);
        let e = faded(ms.last(), rate);
        if e.intensity >= MIN_PHEROMONE_INTENSITY {
            rest.push(e)
        } else {
            rest
        }
    }
}

/// All trails after evaporation, without those left empty.
pub open spec fn evaporate_all(ts: Seq<TrailModel>, rate: u64) -> Seq<TrailModel>
    decreases ts.len(),
{
    if ts.len() == 0 {
        Seq::empty()
    } else {
        let rest = evaporate_all(ts.drop_last(), rate);
        let t = ts.last();
        let kept = surviving(t.markers, rate);
        if kept.len() > 0 {
            rest.push(TrailModel { digest: t.digest, markers: kept })
        } else {
            rest
        }
    }
}

/// The total intensity of a trail's pheromones.
pub open spec fn sum_intensity(ms: Seq<PheromoneModel>) -> int
    decreases ms.len(),
{
    if ms.len() == 0 {
        0
    } else {
        sum_intensity(ms.drop_last()) + ms.last().intensity
    }
}

/// The average intensity of a trail, rounded down.
pub open spec fn average(t: TrailModel) -> int {
    if t.markers.len() == 0 {
        0
    } else {
        sum_intensity(t.markers) / t.markers.len() as int
    }
}

/// Among the first `n` trails, the first with the highest average.
pub open spec fn best_in(ts: Seq<TrailModel>, n: int) -> int
    decreases n,
{
    if n <= 1 {
        0
    } else {
        let b = best_in(ts, n - 1);
        if average(ts[n - 1]) > average(ts[b]) {
            n - 1
        } else {
            b
        }
    }
}

/// The value agreed on: the trail with the highest average, if that average
/// reaches the consensus threshold.
pub open spec fn consensus_of(ts: Seq<TrailModel>) -> Option<Seq<u8>> {
    if ts.len() > 0 && average(ts[best_in(ts, ts.len() as int)]) >= CONSENSUS_THRESHOLD {
        Some(ts[best_in(ts, ts.len() as int)].digest)
    } else {
        None
    }
}

/// Among the first `n` pheromones, the last with the highest intensity.
pub open spec fn strongest_in(ms: Seq<PheromoneModel>, n: int) -> int
    decreases n,
{
    if n <= 1 {
        0
    } else {
        let b = strongest_in(ms, n - 1);
        if ms[n - 1].intensity >= ms[b].intensity {
            n - 1
        } else {
            b
        }
    }
}

/// An ant after one step of energy decay.
pub open spec fn aged(a: AntModel) -> AntModel {
    AntModel { energy_level: decayed(a.energy_level), ..a }
}

/// The ants that are still alive, in their order.
pub open spec fn living(ants: Seq<AntModel>) -> Seq<AntModel>
    decreases ants.len(),
{
    if ants.len() == 0 {
        Seq::empty()
    } else {
        let rest = living(ants.drop_last());
        if ants.last().energy_level > MIN_ANT_ENERGY {
            rest.push(ants.last())
        } else {
            rest
        }
    }
}

proof fn lemma_surviving_digest(ms: Seq<PheromoneModel>, rate: u64, d: Seq<u8>)
    requires
        forall|k: int| 0 <= k < ms.len() ==> #[trigger] ms[k].digest == d,
    ensures
        forall|k: int|
            0 <= k < surviving(ms, rate).len() ==> #[trigger] surviving(ms, rate)[k].digest == d,
    decreases ms.len(),
{
    if ms.len() > 0 {
        let prev = ms.drop_last();
        assert forall|k: int| 0 <= k < prev.len() implies #[trigger] prev[k].digest == d by {
            assert(prev[k] == ms[k]);
        }
        lemma_surviving_digest(prev, rate, d);
        assert(ms[ms.len() - 1].digest == d);
        let rest = surviving(prev, rate);
        let e = faded(ms.last(), rate);
        assert(e.digest == d);
        assert forall|k: int| 0 <= k < surviving(ms, rate).len() implies #[trigger] surviving(ms, rate)[k].digest == d by {
            if k < rest.len() {
                assert(surviving(ms, rate)[k] == rest[k]);
            }
        }
    }
}

proof fn lemma_evaporate_all_digests(ts: Seq<TrailModel>, rate: u64)
    ensures
        forall|k: int|
            0 <= k < evaporate_all(ts, rate).len() ==> exists|i: int|
                0 <= i < ts.len() && ts[i].digest == #[trigger] evaporate_all(ts, rate)[k].digest,
    decreases ts.len(),
{
    if ts.len() > 0 {
        lemma_evaporate_all_digests(ts.drop_last(), rate);
        let rest = evaporate_all(ts.drop_last(), rate);
        assert forall|k: int| 0 <= k < evaporate_all(ts, rate).len() implies exists|i: int|
            0 <= i < ts.len() && ts[i].digest == #[trigger] evaporate_all(ts, rate)[k].digest by {
            if k < rest.len() {
                let i = choose|i: int|
                    0 <= i < ts.drop_last().len() && ts.drop_last()[i].digest == rest[k].digest;
                assert(ts[i].digest == evaporate_all(ts, rate)[k].digest);
            } else {
                assert(ts[ts.len() - 1].digest == evaporate_all(ts, rate)[k].digest);
            }
        }
    }
}

proof fn lemma_evaporate_all_wf(ts: Seq<TrailModel>, rate: u64)
    requires
        trails_wf(ts),
    ensures
        trails_wf(evaporate_all(ts, rate)),
    decreases ts.len(),
{
    if ts.len() > 0 {
        let prev = ts.drop_last();
        assert(trails_wf(prev)) by {
            assert forall|i: int| 0 <= i < prev.len() implies #[trigger] prev[i].markers.len() > 0 by {
                assert(prev[i] == ts[i]);
            }
            assert forall|i: int, k: int|
                0 <= i < prev.len() && 0 <= k < prev[i].markers.len() implies #[trigger] prev[i].markers[k].digest
                == prev[i].digest by {
                assert(prev[i] == ts[i]);
            }
            assert forall|i: int, j: int|
                0 <= i < prev.len() && 0 <= j < prev.len() && i != j implies #[trigger] prev[i].digest
                != #[trigger] prev[j].digest by {
                assert(prev[i] == ts[i]);
                assert(prev[j] == ts[j]);
            }
        }
        lemma_evaporate_all_wf(prev, rate);
        lemma_evaporate_all_digests(prev, rate);
        let t = ts.last();
        assert forall|k: int| 0 <= k < t.markers.len() implies #[trigger] t.markers[k].digest == t.digest by {
            assert(ts[ts.len() - 1] == t);
        }
        lemma_surviving_digest(t.markers, rate, t.digest);
        let rest = evaporate_all(prev, rate);
        assert forall|k: int| 0 <= k < rest.len() implies #[trigger] rest[k].digest != t.digest by {
            let i = choose|i: int| 0 <= i < prev.len() && prev[i].digest == rest[k].digest;
            assert(ts[i].digest != ts[ts.len() - 1].digest);
        }
    }
}

proof fn lemma_stored_wf(ts: Seq<TrailModel>, p: PheromoneModel)
    requires
        trails_wf(ts),
    ensures
        trails_wf(stored(ts, p)),
{
    let k = trail_position(ts, p.digest);
    if k >= 0 {
        assert(ts[k].digest == p.digest);
        let s = stored(ts, p);
        assert forall|i: int, m: int|
            0 <= i < s.len() && 0 <= m < s[i].markers.len() implies #[trigger] s[i].markers[m].digest
            == s[i].digest by {
            if i != k {
                assert(s[i] == ts[i]);
            } else if m < ts[k].markers.len() {
                assert(s[i].markers[m] == ts[k].markers[m]);
            }
        }
    } else {
        let s = stored(ts, p);
        assert forall|i: int, j: int|
            0 <= i < s.len() && 0 <= j < s.len() && i != j implies #[trigger] s[i].digest
            != #[trigger] s[j].digest by {
            if i < ts.len() && j < ts.len() {
                assert(s[i] == ts[i]);
                assert(s[j] == ts[j]);
            } else if i < ts.len() {
                assert(s[i] == ts[i]);
            } else {
                assert(s[j] == ts[j]);
            }
        }
    }
}

/// Learning of the same neighbor twice is the same as learning of it once.
pub proof fn lemma_add_neighbor_idempotent(ns: Seq<NodeId>, id: NodeId, n: NodeId)
    ensures
        with_neighbor(with_neighbor(ns, id, n), id, n) == with_neighbor(ns, id, n),
{
    if !(n == id || ns.contains(n)) {
        assert(ns.push(n)[ns.len() as int] == n);
    }
}

/// A node never becomes its own neighbor, and no neighbor is listed twice.
pub proof fn lemma_add_neighbor_keeps_list_wf(ns: Seq<NodeId>, id: NodeId, n: NodeId)
    requires
        !ns.contains(id),
        ns.no_duplicates(),
    ensures
        !with_neighbor(ns, id, n).contains(id),
        with_neighbor(ns, id, n).no_duplicates(),
{
    if !(n == id || ns.contains(n)) {
        let s = ns.push(n);
        assert forall|x: NodeId| s.contains(x) implies x == n || ns.contains(x) by {
            let k = choose|k: int| 0 <= k < s.len() && s[k] == x;
            if k < ns.len() {
                assert(ns[k] == x);
            }
        }
    }
}

/// Evaporation never leaves an empty trail, and on a node without
/// pheromones it changes nothing.
pub proof fn lemma_evaporation_leaves_no_empty_trail(ts: Seq<TrailModel>, rate: u64)
    requires
        trails_wf(ts),
    ensures
        forall|i: int|
            0 <= i < evaporate_all(ts, rate).len() ==> #[trigger] evaporate_all(ts, rate)[i].markers.len()
                > 0,
        ts.len() == 0 ==> evaporate_all(ts, rate) == ts,
{
    lemma_evaporate_all_wf(ts, rate);
    if ts.len() == 0 {
        assert(evaporate_all(ts, rate) =~= ts);
    }
}

impl NodeState {
    /// The invariant of a node's state.
    pub open spec fn wf(&self) -> bool {
        &&& !self.neighbors@.contains(self.id)
        &&& self.neighbors@.no_duplicates()
        &&& trails_wf(trails_of(self.pheromones@))
    }

    /// A fresh node with nothing stored and no neighbors.
    pub fn new(id: NodeId) -> (r: Self)
        ensures
            r.wf(),
            r.id == id,
            r.current_value is None,
            r.pheromones@.len() == 0,
            r.ants@.len() == 0,
            r.neighbors@.len() == 0,
            r.evaporation_rate == DEFAULT_EVAPORATION_RATE,
            r.stats == (NodeStats {
                pheromones_received: 0,
                pheromones_emitted: 0,
                ants_created: 0,
                consensus_reached: 0,
                messages_sent: 0,
                messages_received: 0,
            }),
    {
        let r = NodeState {
            id,
            current_value: None,
            pheromones: Vec::new(),
            ants: Vec::new(),
            neighbors: Vec::new(),
            evaporation_rate: DEFAULT_EVAPORATION_RATE,
            stats: NodeStats::default(),
        };
        assert(trails_of(r.pheromones@) =~= Seq::<TrailModel>::empty());
        r
    }

    /// Learn of neighbor `neighbor`, unless it is this node or already known.
    pub fn add_neighbor(&mut self, neighbor: NodeId)
        requires
            old(self).wf(),
        ensures
            final(self).wf(),
            final(self).neighbors@ == with_neighbor(old(self).neighbors@, old(self).id, neighbor),
            final(self).id == old(self).id,
            final(self).current_value == old(self).current_value,
            final(self).pheromones@ == old(self).pheromones@,
            final(self).ants@ == old(self).ants@,
            final(self).evaporation_rate == old(self).evaporation_rate,
            final(self).stats == old(self).stats,
    {
        proof {
            lemma_add_neighbor_keeps_list_wf(self.neighbors@, self.id, neighbor);
        }
        if neighbor != self.id && !self.knows_neighbor(neighbor) {
            self.neighbors.push(neighbor);
        }
    }

    /// Whether `n` is a known neighbor.
    pub fn knows_neighbor(&self, n: NodeId) -> (r: bool)
        ensures
            r == self.neighbors@.contains(n),
    {
        let mut i: usize = 0;
        while i < self.neighbors.len()
            invariant
                i <= self.neighbors@.len(),
                forall|j: int| 0 <= j < i ==> self.neighbors@[j] != n,
            decreases self.neighbors@.len() - i,
        {
            if self.neighbors[i] == n {
                return true;
            }
            i = i + 1;
        }
        false
    }

    /// Forget neighbor `neighbor`.
    pub fn remove_neighbor(&mut self, neighbor: NodeId)
        requires
            old(self).wf(),
        ensures
            final(self).wf(),
            final(self).neighbors@.to_set() == old(self).neighbors@.to_set().remove(neighbor),
            final(self).id == old(self).id,
            final(self).current_value == old(self).current_value,
            final(self).pheromones@ == old(self).pheromones@,
            final(self).ants@ == old(self).ants@,
            final(self).evaporation_rate == old(self).evaporation_rate,
            final(self).stats == old(self).stats,
    {
        let ghost ns = self.neighbors@;
        match self.neighbor_position(neighbor) {
            Some(i) => {
                let _ = self.neighbors.remove(i);
                let ghost k = i as int;
                let ghost rs = self.neighbors@;
                assert(rs =~= ns.remove(k));
                assert forall|a: int, b: int|
                    0 <= a < rs.len() && 0 <= b < rs.len() && a != b implies rs[a] != rs[b] by {
                    let oa = if a < k { a } else { a + 1 };
                    let ob = if b < k { b } else { b + 1 };
                    assert(rs[a] == ns[oa]);
                    assert(rs[b] == ns[ob]);
                }
                assert forall|x: NodeId| rs.to_set().contains(x) <==> ns.to_set().remove(neighbor).contains(x) by {
                    if rs.contains(x) {
                        let a = choose|a: int| 0 <= a < rs.len() && rs[a] == x;
                        let oa = if a < k { a } else { a + 1 };
                        assert(ns[oa] == x);
                        assert(oa != k);
                    }
                    if ns.contains(x) && x != neighbor {
                        let o = choose|o: int| 0 <= o < ns.len() && ns[o] == x;
                        assert(o != k);
                        if o < k {
                            assert(rs[o] == x);
                        } else {
                            assert(rs[o - 1] == x);
                        }
                    }
                }
                assert(rs.to_set() =~= ns.to_set().remove(neighbor));
                assert(!rs.contains(self.id)) by {
                    if rs.contains(self.id) {
                        assert(rs.to_set().contains(self.id));
                        assert(ns.contains(self.id));
                    }
                }
            },
            None => {
                assert(ns.to_set() =~= ns.to_set().remove(neighbor));
            },
        }
    }

    /// Where `n` stands in the neighbor list.
    fn neighbor_position(&self, n: NodeId) -> (r: Option<usize>)
        ensures
            r matches Some(i) ==> i < self.neighbors@.len() && self.neighbors@[i as int] == n,
            r is None ==> !self.neighbors@.contains(n),
    {
        let mut i: usize = 0;
        while i < self.neighbors.len()
            invariant
                i <= self.neighbors@.len(),
                forall|j: int| 0 <= j < i ==> self.neighbors@[j] != n,
            decreases self.neighbors@.len() - i,
        {
            if self.neighbors[i] == n {
                return Some(i);
            }
            i = i + 1;
        }
        None
    }

    /// Where the trail for `value` stands.
    fn trail_index(&self, value: &ConsensusValue) -> (r: Option<usize>)
        requires
            self.wf(),
        ensures
            r matches Some(i) ==> i < self.pheromones@.len() && trail_position(
                trails_of(self.pheromones@),
                value.hash@,
            ) == i,
            r is None ==> trail_position(trails_of(self.pheromones@), value.hash@) == -1,
    {
        let ghost ts = trails_of(self.pheromones@);
        let mut i: usize = 0;
        while i < self.pheromones.len()
            invariant
                i <= self.pheromones@.len(),
                ts == trails_of(self.pheromones@),
                trails_wf(ts),
                forall|j: int| 0 <= j < i ==> ts[j].digest != value.hash@,
            decreases self.pheromones@.len() - i,
        {
            if self.pheromones[i].value.same_as(value) {
                proof {
                    let k = i as int;
                    assert(ts[k].digest == value.hash@);
                    assert(exists|c: int| 0 <= c < ts.len() && ts[c].digest == value.hash@);
                    let c = trail_position(ts, value.hash@);
                    assert(0 <= c < ts.len() && ts[c].digest == value.hash@);
                    if c != k {
                        assert(ts[c].digest != ts[k].digest);
                    }
                }
                return Some(i);
            }
            i = i + 1;
        }
        None
    }

    /// Store `pheromone` in the trail for its value.
    fn store(&mut self, pheromone: Pheromone)
        requires
            old(self).wf(),
        ensures
            final(self).wf(),
            trails_of(final(self).pheromones@) == stored(trails_of(old(self).pheromones@), pheromone@),
            final(self).id == old(self).id,
            final(self).current_value == old(self).current_value,
            final(self).neighbors@ == old(self).neighbors@,
            final(self).ants@ == old(self).ants@,
            final(self).evaporation_rate == old(self).evaporation_rate,
            final(self).stats == old(self).stats,
    {
        let ghost ts = trails_of(self.pheromones@);
        proof {
            lemma_stored_wf(ts, pheromone@);
        }
        match self.trail_index(&pheromone.value) {
            Some(i) => {
                let ghost k = i as int;
                let mut trail = self.pheromones.remove(i);
                assert(trail@ == ts[k]);
                trail.pheromones.push(pheromone);
                self.pheromones.insert(i, trail);
                assert(trail@.markers =~= ts[k].markers.push(pheromone@));
                assert(trails_of(self.pheromones@) =~= stored(ts, pheromone@));
            },
            None => {
                let value = pheromone.value;
                let mut fresh: Vec<Pheromone> = Vec::new();
                fresh.push(pheromone);
                let trail = ValueTrail { value, pheromones: fresh };
                assert(trail@.markers =~= seq![pheromone@]);
                self.pheromones.push(trail);
                assert(trails_of(self.pheromones@) =~= stored(ts, pheromone@));
            },
        }
    }

    /// Emit a pheromone for `value` from this node, signed with
    /// `private_key`, and keep a copy of it.
    pub fn emit_pheromone(&mut self, value: ConsensusValue, private_key: &[u8]) -> (r: Result<
        Pheromone,
        ConsensusError,
    >)
        requires
            old(self).wf(),
        ensures
            final(self).wf(),
            final(self).id == old(self).id,
            final(self).current_value == old(self).current_value,
            final(self).neighbors@ == old(self).neighbors@,
            final(self).ants@ == old(self).ants@,
            final(self).evaporation_rate == old(self).evaporation_rate,
            r matches Ok(p) ==> {
                &&& p.value == value
                &&& p.source == old(self).id
                &&& p.intensity == INITIAL_PHEROMONE_INTENSITY
                &&& trails_of(final(self).pheromones@) == stored(
                    trails_of(old(self).pheromones@),
                    p@,
                )
                &&& final(self).stats == (NodeStats {
                    pheromones_emitted: bumped(old(self).stats.pheromones_emitted),
                    ..old(self).stats
                })
            },
            r is Err ==> final(self).pheromones@ == old(self).pheromones@ && final(self).stats
                == old(self).stats,
            r matches Err(ConsensusError::Crypto(_)) <==> !is_unset_key(private_key@)
                && !pkcs8_accepted(private_key@) && !(r matches Err(ConsensusError::Internal(_))),
            r matches Err(e) ==> (e matches ConsensusError::Crypto(_)) || (e matches ConsensusError::Internal(_)),
    {
        let pheromone = match Pheromone::new(value, self.id, private_key) {
            Ok(p) => p,
            Err(e) => {
                return Err(e);
            },
        };
        let copy = pheromone.duplicate();
        self.store(copy);
        self.stats.pheromones_emitted = bump(self.stats.pheromones_emitted);
        Ok(pheromone)
    }

    /// Store a pheromone received from another node. The signature is not
    /// checked here.
    pub fn receive_pheromone(&mut self, pheromone: Pheromone)
        requires
            old(self).wf(),
        ensures
            final(self).wf(),
            trails_of(final(self).pheromones@) == stored(trails_of(old(self).pheromones@), pheromone@),
            final(self).stats == (NodeStats {
                pheromones_received: bumped(old(self).stats.pheromones_received),
                ..old(self).stats
            }),
            final(self).id == old(self).id,
            final(self).current_value == old(self).current_value,
            final(self).neighbors@ == old(self).neighbors@,
            final(self).ants@ == old(self).ants@,
            final(self).evaporation_rate == old(self).evaporation_rate,
    {
        self.store(pheromone);
        self.stats.pheromones_received = bump(self.stats.pheromones_received);
    }

    /// Evaporate every pheromone at the node's rate, drop those below the
    /// removal floor, then drop the trails left empty.
    pub fn evaporate_pheromones(&mut self)
        requires
            old(self).wf(),
        ensures
            final(self).wf(),
            trails_of(final(self).pheromones@) == evaporate_all(
                trails_of(old(self).pheromones@),
                old(self).evaporation_rate,
            ),
            forall|i: int|
                0 <= i < final(self).pheromones@.len() ==> (#[trigger] final(self).pheromones@[i]).pheromones@.len() > 0,
            final(self).id == old(self).id,
            final(self).current_value == old(self).current_value,
            final(self).neighbors@ == old(self).neighbors@,
            final(self).ants@ == old(self).ants@,
            final(self).evaporation_rate == old(self).evaporation_rate,
            final(self).stats == old(self).stats,
    {
        let ghost ts = trails_of(self.pheromones@);
        let rate = self.evaporation_rate;
        let mut out: Vec<ValueTrail> = Vec::new();
        let mut i: usize = 0;
        while i < self.pheromones.len()
            invariant
                i <= self.pheromones@.len(),
                ts == trails_of(self.pheromones@),
                rate == self.evaporation_rate,
                trails_of(out@) == evaporate_all(ts.subrange(0, i as int), rate),
            decreases self.pheromones@.len() - i,
        {
            let trail = &self.pheromones[i];
            let ghost markers = ts[i as int].markers;
            let mut kept: Vec<Pheromone> = Vec::new();
            let mut j: usize = 0;
            while j < trail.pheromones.len()
                invariant
                    j <= trail.pheromones@.len(),
                    markers == trail@.markers,
                    kept@.map_values(|p: Pheromone| p@) == surviving(
                        markers.subrange(0, j as int),
                        rate,
                    ),
                decreases trail.pheromones@.len() - j,
            {
                let mut p = trail.pheromones[j].duplicate();
                p.evaporate(rate);
                assert(markers.subrange(0, j + 1).drop_last() =~= markers.subrange(0, j as int));
                assert(p@ == faded(markers[j as int], rate));
                if !p.should_remove() {
                    kept.push(p);
                }
                j = j + 1;
                assert(kept@.map_values(|p: Pheromone| p@) =~= surviving(
                    markers.subrange(0, j as int),
                    rate,
                ));
            }
            assert(markers.subrange(0, j as int) =~= markers);
            assert(ts.subrange(0, i + 1).drop_last() =~= ts.subrange(0, i as int));
            if kept.len() > 0 {
                let t = ValueTrail { value: trail.value, pheromones: kept };
                out.push(t);
            }
            i = i + 1;
            assert(trails_of(out@) =~= evaporate_all(ts.subrange(0, i as int), rate));
        }
        assert(ts.subrange(0, i as int) =~= ts);
        proof {
            lemma_evaporate_all_wf(ts, rate);
        }
        self.pheromones = out;
        assert forall|i: int| 0 <= i < self.pheromones@.len() implies (
        #[trigger] self.pheromones@[i]).pheromones@.len() > 0 by {
            assert(trails_of(self.pheromones@)[i].markers.len() > 0);
        }
    }

    /// Latch and return the value whose trail has the highest average
    /// intensity, if that average reaches the consensus threshold.
    pub fn check_consensus(&mut self) -> (r: Option<ConsensusValue>)
        requires
            old(self).wf(),
        ensures
            final(self).wf(),
            consensus_of(trails_of(old(self).pheromones@)) is None ==> r is None,
            consensus_of(trails_of(old(self).pheromones@)) matches Some(d) ==> (r matches Some(v)
                && v.hash@ == d),
            r is Some ==> final(self).current_value == r && final(self).stats == (NodeStats {
                consensus_reached: bumped(old(self).stats.consensus_reached),
                ..old(self).stats
            }),
            r is None ==> final(self).current_value == old(self).current_value && final(self).stats
                == old(self).stats,
            final(self).id == old(self).id,
            final(self).pheromones@ == old(self).pheromones@,
            final(self).neighbors@ == old(self).neighbors@,
            final(self).ants@ == old(self).ants@,
            final(self).evaporation_rate == old(self).evaporation_rate,
    {
        let ghost ts = trails_of(self.pheromones@);
        if self.pheromones.len() == 0 {
            return None;
        }
        let mut best: usize = 0;
        let mut best_avg: u128 = average_intensity(&self.pheromones[0]);
        let mut i: usize = 1;
        while i < self.pheromones.len()
            invariant
                1 <= i <= self.pheromones@.len(),
                ts == trails_of(self.pheromones@),
                best < i,
                best == best_in(ts, i as int),
                best_avg == average(ts[best as int]),
            decreases self.pheromones@.len() - i,
        {
            let avg = average_intensity(&self.pheromones[i]);
            if avg > best_avg {
                best = i;
                best_avg = avg;
            }
            i = i + 1;
        }
        if best_avg >= CONSENSUS_THRESHOLD as u128 {
            let value = self.pheromones[best].value;
            self.current_value = Some(value);
            self.stats.consensus_reached = bump(self.stats.consensus_reached);
            Some(value)
        } else {
            None
        }
    }

    /// The strongest pheromone held for `value` (the last of equals).
    pub fn get_strongest_pheromone(&self, value: &ConsensusValue) -> (r: Option<&Pheromone>)
        requires
            self.wf(),
        ensures
            trail_position(trails_of(self.pheromones@), value.hash@) < 0 ==> r is None,
            trail_position(trails_of(self.pheromones@), value.hash@) >= 0 ==> (r matches Some(p)
                && {
                let t = trails_of(self.pheromones@)[trail_position(
                    trails_of(self.pheromones@),
                    value.hash@,
                )];
                p@ == t.markers[strongest_in(t.markers, t.markers.len() as int)]
            }),
    {
        let ghost ts = trails_of(self.pheromones@);
        match self.trail_index(value) {
            Some(i) => {
                let trail = &self.pheromones[i];
                let ghost ms = ts[i as int].markers;
                assert(ms.len() > 0);
                let mut s: usize = 0;
                let mut j: usize = 1;
                while j < trail.pheromones.len()
                    invariant
                        1 <= j <= trail.pheromones@.len(),
                        ms == trail@.markers,
                        s < j,
                        s == strongest_in(ms, j as int),
                    decreases trail.pheromones@.len() - j,
                {
                    if trail.pheromones[j].intensity >= trail.pheromones[s].intensity {
                        s = j;
                    }
                    j = j + 1;
                }
                Some(&trail.pheromones[s])
            },
            None => None,
        }
    }

    /// Take in an ant.
    pub fn add_ant(&mut self, ant: AntAgent)
        ensures
            final(self).ants@ == old(self).ants@.push(ant),
            final(self).stats == (NodeStats {
                ants_created: bumped(old(self).stats.ants_created),
                ..old(self).stats
            }),
            final(self).id == old(self).id,
            final(self).current_value == old(self).current_value,
            final(self).pheromones@ == old(self).pheromones@,
            final(self).neighbors@ == old(self).neighbors@,
            final(self).evaporation_rate == old(self).evaporation_rate,
    {
        self.ants.push(ant);
        self.stats.ants_created = bump(self.stats.ants_created);
    }

    /// Remove the dead ants, keeping the order of the others.
    pub fn cleanup_dead_ants(&mut self)
        ensures
            ants_of(final(self).ants@) == living(ants_of(old(self).ants@)),
            final(self).id == old(self).id,
            final(self).current_value == old(self).current_value,
            final(self).pheromones@ == old(self).pheromones@,
            final(self).neighbors@ == old(self).neighbors@,
            final(self).evaporation_rate == old(self).evaporation_rate,
            final(self).stats == old(self).stats,
    {
        self.sweep_ants(false);
    }

    /// One step for every ant: each loses energy, then the dead are removed.
    pub fn update_ants(&mut self)
        ensures
            ants_of(final(self).ants@) == living(ants_of(old(self).ants@).map_values(|a: AntModel| aged(a))),
            final(self).id == old(self).id,
            final(self).current_value == old(self).current_value,
            final(self).pheromones@ == old(self).pheromones@,
            final(self).neighbors@ == old(self).neighbors@,
            final(self).evaporation_rate == old(self).evaporation_rate,
            final(self).stats == old(self).stats,
    {
        self.sweep_ants(true);
    }

    fn sweep_ants(&mut self, age: bool)
        ensures
            age ==> ants_of(final(self).ants@) == living(ants_of(old(self).ants@).map_values(|a: AntModel| aged(a))),
            !age ==> ants_of(final(self).ants@) == living(ants_of(old(self).ants@)),
            final(self).id == old(self).id,
            final(self).current_value == old(self).current_value,
            final(self).pheromones@ == old(self).pheromones@,
            final(self).neighbors@ == old(self).neighbors@,
            final(self).evaporation_rate == old(self).evaporation_rate,
            final(self).stats == old(self).stats,
    {
        let ghost orig = if age {
            ants_of(self.ants@).map_values(|a: AntModel| aged(a))
        } else {
            ants_of(self.ants@)
        };
        let mut pending: Vec<AntAgent> = Vec::new();
        std::mem::swap(&mut self.ants, &mut pending);
        let ghost n = pending@.len();
        let ghost start = pending@;
        let mut kept: Vec<AntAgent> = Vec::new();
        let ghost mut i: int = 0;
        while pending.len() > 0
            invariant
                0 <= i <= n,
                n == orig.len(),
                orig == (if age {
                    ants_of(start).map_values(|a: AntModel| aged(a))
                } else {
                    ants_of(start)
                }),
                pending@ == start.subrange(i, n as int),
                ants_of(kept@) == living(orig.subrange(0, i)),
            decreases pending@.len(),
        {
            let mut ant = pending.remove(0);
            assert(ant == start[i]);
            if age {
                ant.update_energy();
            }
            assert(ant@ == orig[i]);
            assert(orig.subrange(0, i + 1).drop_last() =~= orig.subrange(0, i));
            if ant.is_alive() {
                kept.push(ant);
            }
            proof {
                i = i + 1;
            }
            assert(ants_of(kept@) =~= living(orig.subrange(0, i)));
            assert(pending@ =~= start.subrange(i, n as int));
        }
        assert(orig.subrange(0, i) =~= orig);
        self.ants = kept;
    }

    /// The known neighbors.
    pub fn get_neighbors(&self) -> (r: Vec<NodeId>)
        ensures
            r@ == self.neighbors@,
    {
        self.neighbors.clone()
    }

    /// The node's counters.
    pub fn get_stats(&self) -> (r: &NodeStats)
        ensures
            *r == self.stats,
    {
        &self.stats
    }
}

/// The average intensity of a trail, rounded down.
fn average_intensity(trail: &ValueTrail) -> (r: u128)
    ensures
        r == average(trail@),
{
    let ghost ms = trail@.markers;
    let mut total: u128 = 0;
    let mut j: usize = 0;
    while j < trail.pheromones.len()
        invariant
            j <= trail.pheromones@.len(),
            ms == trail@.markers,
            total == sum_intensity(ms.subrange(0, j as int)),
            total <= j as int * u64::MAX as int,
        decreases trail.pheromones@.len() - j,
    {
        assert(ms.subrange(0, j + 1).drop_last() =~= ms.subrange(0, j as int));
        proof {
            assert((j + 1) as int * u64::MAX as int <= u128::MAX) by (nonlinear_arith)
                requires
                    j < usize::MAX,
            ;
        }
        total = total + trail.pheromones[j].intensity as u128;
        j = j + 1;
        assert(total <= j as int * u64::MAX as int) by (nonlinear_arith)
            requires
                total <= (j - 1) as int * u64::MAX as int + u64::MAX as int,
        ;
    }
    assert(ms.subrange(0, j as int) =~= ms);
    if j == 0 {
        0
    } else {
        total / (j as u128)
    }
}

} // verus!
