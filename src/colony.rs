use vstd::prelude::*;

use crate::ant_agent::{
    next_node_choice, remembered, AntAgent, AntModel, INITIAL_ANT_ENERGY, MIN_ANT_ENERGY,
};
use crate::message::Message;
use crate::node_state::{
    ants_of, aged, bumped, consensus_of, evaporate_all, living, stored, trails_of, NodeState,
    NodeStats, TrailModel,
};
use crate::pheromone::{
    is_unset_key, Pheromone, PheromoneModel, INITIAL_PHEROMONE_INTENSITY, INTENSITY_ONE,
};
use crate::signing::pkcs8_accepted;
use crate::types::{AntId, ConsensusError, ConsensusValue, NodeId};

verus! {

/// Intensity reported for every neighbor when routing ants (0.5).
pub const NEIGHBOR_PATH_INTENSITY: u64 = INTENSITY_ONE / 2;

/// Most explorer ants sent out for one proposal.
pub const MAX_EXPLORER_ANTS: usize = 5;

/// What one step of the consensus driver decided.
#[derive(Debug)]
pub struct StepOutcome {
    /// The value agreed on in this step, if any.
    pub consensus: Option<ConsensusValue>,
    /// Messages to broadcast, in order.
    pub outgoing: Vec<Message>,
}

/// The identifier after `id`, wrapping at the maximum.
pub open spec fn after_id(id: AntId) -> AntId {
    if id < u64::MAX {
        (id + 1) as u64
    } else {
        0
    }
}

/// The identifier handed out `k` identifiers after `start`.
pub open spec fn nth_id(start: AntId, k: nat) -> AntId
    decreases k,
{
    if k == 0 {
        start
    } else {
        after_id(nth_id(start, (k - 1) as nat))
    }
}

/// A counter after `k` more events.
pub open spec fn bumped_times(c: u64, k: nat) -> u64
    decreases k,
{
    if k == 0 {
        c
    } else {
        bumped(bumped_times(c, (k - 1) as nat))
    }
}

/// The trails after storing each of `ps`, in order.
pub open spec fn stored_each(ts: Seq<TrailModel>, ps: Seq<PheromoneModel>) -> Seq<TrailModel>
    decreases ps.len(),
{
    if ps.len() == 0 {
        ts
    } else {
        stored(stored_each(ts, ps.drop_last()), ps.last())
    }
}

/// How many explorer ants a proposal sends with `n` neighbors.
pub open spec fn explorer_count(n: nat) -> int {
    if n < MAX_EXPLORER_ANTS {
        n as int
    } else {
        MAX_EXPLORER_ANTS as int
    }
}

/// The intensities reported when routing ants: 0.5 for every neighbor.
pub open spec fn uniform_intensities(ns: Seq<NodeId>) -> Seq<(NodeId, u64)> {
    ns.map_values(|n: NodeId| (n, NEIGHBOR_PATH_INTENSITY))
}

/// Whether the move step moves this ant: it is alive, stands at `here`,
/// and there is a neighbor to go to.
pub open spec fn hops(a: AntModel, here: NodeId, ns: Seq<NodeId>) -> bool {
    a.current_node == here && a.energy_level > MIN_ANT_ENERGY && ns.len() > 0
}

/// An ant after the move step: one that hops goes to a neighbor that the
/// routing rule can choose for some draw and remembers it; every other ant
/// is unchanged.
pub open spec fn moved_properly(before: AntModel, after: AntModel, here: NodeId, ns: Seq<NodeId>) -> bool {
    &&& after.id == before.id
    &&& after.start_node == before.start_node
    &&& after.energy_level == before.energy_level
    &&& after.carried == before.carried
    &&& if hops(before, here, ns) {
        &&& ns.contains(after.current_node)
        &&& exists|d: u128|
            next_node_choice(before.visited, ns, uniform_intensities(ns), d) == Some(
                after.current_node,
            )
        &&& after.visited == remembered(before.visited, before.start_node, after.current_node)
    } else {
        after == before
    }
}

/// A carried pheromone as plain values.
pub open spec fn carried_view(p: Option<Pheromone>) -> Option<PheromoneModel> {
    match p {
        Some(q) => Some(q@),
        None => None,
    }
}

/// The ant id, origin, destination and pheromone of an ant-movement
/// message; nothing for other messages.
pub open spec fn movement_of(m: Message) -> Option<(AntId, NodeId, NodeId, Option<PheromoneModel>)> {
    match m {
        Message::AntMovement { ant_id, from_node, to_node, carried_pheromone } => Some(
            (ant_id, from_node, to_node, carried_view(carried_pheromone)),
        ),
        _ => None,
    }
}

/// The movements announced by the move step, in the order of the ants: one
/// per ant that hops, with its id, its new node and what it carries.
pub open spec fn announced_moves(
    before: Seq<AntModel>,
    after: Seq<AntModel>,
    here: NodeId,
    ns: Seq<NodeId>,
) -> Seq<Option<(AntId, NodeId, NodeId, Option<PheromoneModel>)>>
    decreases before.len(),
{
    if before.len() == 0 || after.len() == 0 {
        Seq::empty()
    } else {
        let rest = announced_moves(before.drop_last(), after.drop_last(), here, ns);
        if hops(before.last(), here, ns) {
            rest.push(Some((after.last().id, here, after.last().current_node, after.last().carried)))
        } else {
            rest
        }
    }
}

fn duplicate_carried(p: &Option<Pheromone>) -> (r: Option<Pheromone>)
    ensures
        carried_view(r) == carried_view(*p),
{
    match p {
        Some(q) => Some(q.duplicate()),
        None => None,
    }
}

impl NodeState {
    /// The intensity each neighbor is reported with when routing ants: the
    /// same 0.5 for every neighbor.
    pub fn get_pheromone_intensities(&self) -> (r: Vec<(NodeId, u64)>)
        ensures
            r@.len() == self.neighbors@.len(),
            forall|i: int|
                0 <= i < r@.len() ==> #[trigger] r@[i] == (self.neighbors@[i], NEIGHBOR_PATH_INTENSITY),
    {
        let mut out: Vec<(NodeId, u64)> = Vec::new();
        let mut i: usize = 0;
        while i < self.neighbors.len()
            invariant
                i <= self.neighbors@.len(),
                out@.len() == i,
                forall|j: int| 0 <= j < i ==> #[trigger] out@[j] == (self.neighbors@[j], NEIGHBOR_PATH_INTENSITY),
            decreases self.neighbors@.len() - i,
        {
            out.push((self.neighbors[i], NEIGHBOR_PATH_INTENSITY));
            i = i + 1;
        }
        out
    }

    /// Move every live ant that stands at this node to a neighbor it
    /// chooses, and return one ant-movement message per move, in the order
    /// of the ants.
    pub fn move_ants(&mut self) -> (r: Vec<Message>)
        ensures
            final(self).id == old(self).id,
            final(self).current_value == old(self).current_value,
            final(self).pheromones@ == old(self).pheromones@,
            final(self).neighbors@ == old(self).neighbors@,
            final(self).evaporation_rate == old(self).evaporation_rate,
            final(self).stats == old(self).stats,
            final(self).ants@.len() == old(self).ants@.len(),
            forall|i: int|
                0 <= i < old(self).ants@.len() ==> moved_properly(
                    #[trigger] ants_of(old(self).ants@)[i],
                    ants_of(final(self).ants@)[i],
                    old(self).id,
                    old(self).neighbors@,
                ),
            r@.map_values(|m: Message| movement_of(m)) == announced_moves(
                ants_of(old(self).ants@),
                ants_of(final(self).ants@),
                old(self).id,
                old(self).neighbors@,
            ),
            forall|k: int|
                0 <= k < r@.len() ==> (#[trigger] r@[k] matches Message::AntMovement {
                    from_node,
                    to_node,
                    ..
                } && from_node == old(self).id && old(self).neighbors@.contains(to_node)),
    {
        let neighbors = self.get_neighbors();
        let intensities = self.get_pheromone_intensities();
        assert(intensities@ =~= uniform_intensities(neighbors@));
        let ghost start = ants_of(self.ants@);
        let mut pending: Vec<AntAgent> = Vec::new();
        std::mem::swap(&mut self.ants, &mut pending);
        let ghost whole = pending@;
        let ghost n = pending@.len();
        let mut done: Vec<AntAgent> = Vec::new();
        let mut out: Vec<Message> = Vec::new();
        while pending.len() > 0
            invariant
                neighbors@ == self.neighbors@,
                intensities@ == uniform_intensities(neighbors@),
                self.id == old(self).id,
                self.neighbors@ == old(self).neighbors@,
                start == ants_of(whole),
                n == whole.len(),
                done@.len() + pending@.len() == n,
                pending@ == whole.subrange(done@.len() as int, n as int),
                forall|i: int|
                    0 <= i < done@.len() ==> moved_properly(
                        #[trigger] start[i],
                        ants_of(done@)[i],
                        self.id,
                        neighbors@,
                    ),
                out@.map_values(|m: Message| movement_of(m)) == announced_moves(
                    start.subrange(0, done@.len() as int),
                    ants_of(done@),
                    self.id,
                    neighbors@,
                ),
                forall|k: int|
                    0 <= k < out@.len() ==> (#[trigger] out@[k] matches Message::AntMovement {
                        from_node,
                        to_node,
                        ..
                    } && from_node == self.id && neighbors@.contains(to_node)),
            decreases pending@.len(),
        {
            let ghost i = done@.len() as int;
            let ghost out_before = out@;
            let mut ant = pending.remove(0);
            assert(ant@ == start[i]);
            if ant.is_alive() && ant.current_node == self.id {
                match ant.select_next_node(neighbors.as_slice(), intensities.as_slice()) {
                    Some(next) => {
                        ant.move_to(next);
                        let carried = duplicate_carried(&ant.carried_pheromone);
                        out.push(
                            Message::AntMovement {
                                ant_id: ant.id,
                                from_node: self.id,
                                to_node: next,
                                carried_pheromone: carried,
                            },
                        );
                        assert(out@.map_values(|m: Message| movement_of(m)) =~= out_before.map_values(
                            |m: Message| movement_of(m),
                        ).push(movement_of(out@[out@.len() - 1])));
                    },
                    None => {},
                }
            }
            let ghost done_before = done@;
            done.push(ant);
            assert(ants_of(done@)[i] == ant@);
            assert(ants_of(done@).drop_last() =~= ants_of(done_before));
            assert(start.subrange(0, i + 1).drop_last() =~= start.subrange(0, i));
            assert(start.subrange(0, i + 1).last() == start[i]);
            assert forall|j: int| 0 <= j < done@.len() implies moved_properly(
                #[trigger] start[j],
                ants_of(done@)[j],
                self.id,
                neighbors@,
            ) by {
                if j < i {
                    assert(ants_of(done@)[j] == ants_of(done_before)[j]);
                }
            }
            assert(pending@ =~= whole.subrange(done@.len() as int, n as int));
        }
        assert(start.subrange(0, n as int) =~= start);
        self.ants = done;
        out
    }

    /// One tick of the consensus driver: evaporate, age the ants, check for
    /// consensus, then move the ants. The messages are the consensus
    /// announcement, when consensus is reached, followed by the ant
    /// movements.
    pub fn step(&mut self) -> (r: StepOutcome)
        requires
            old(self).wf(),
        ensures
            final(self).wf(),
            final(self).id == old(self).id,
            trails_of(final(self).pheromones@) == evaporate_all(
                trails_of(old(self).pheromones@),
                old(self).evaporation_rate,
            ),
            final(self).neighbors@ == old(self).neighbors@,
            consensus_of(
                evaporate_all(trails_of(old(self).pheromones@), old(self).evaporation_rate),
            ) is None ==> {
                &&& r.consensus is None
                &&& final(self).current_value == old(self).current_value
                &&& final(self).stats == old(self).stats
                &&& forall|k: int|
                    0 <= k < r.outgoing@.len() ==> #[trigger] movement_of(r.outgoing@[k]) is Some
            },
            consensus_of(
                evaporate_all(trails_of(old(self).pheromones@), old(self).evaporation_rate),
            ) matches Some(d) ==> (r.consensus matches Some(v) && v.hash@ == d
                && final(self).current_value == r.consensus && r.outgoing@.len() > 0
                && r.outgoing@[0] == (Message::ConsensusAnnouncement {
                node_id: old(self).id,
                value: v,
            }) && final(self).stats == (NodeStats {
                consensus_reached: bumped(old(self).stats.consensus_reached),
                ..old(self).stats
            }) && forall|k: int|
                1 <= k < r.outgoing@.len() ==> #[trigger] movement_of(r.outgoing@[k]) is Some),
            final(self).ants@.len() == living(
                ants_of(old(self).ants@).map_values(|a: AntModel| aged(a)),
            ).len(),
            forall|i: int|
                0 <= i < final(self).ants@.len() ==> moved_properly(
                    living(ants_of(old(self).ants@).map_values(|a: AntModel| aged(a)))[i],
                    #[trigger] ants_of(final(self).ants@)[i],
                    old(self).id,
                    old(self).neighbors@,
                ),
    {
        self.evaporate_pheromones();
        self.update_ants();
        let consensus = self.check_consensus();
        let mut outgoing: Vec<Message> = Vec::new();
        if let Some(value) = consensus {
            outgoing.push(Message::ConsensusAnnouncement { node_id: self.id, value });
        }
        let ghost first = outgoing@;
        let mut moves = self.move_ants();
        let ghost moved = moves@;
        outgoing.append(&mut moves);
        assert(outgoing@ == first + moved);
        assert forall|k: int| first.len() <= k < outgoing@.len() implies #[trigger] movement_of(
            outgoing@[k],
        ) is Some by {
            assert(outgoing@[k] == moved[k - first.len()]);
        }
        StepOutcome { consensus, outgoing }
    }

    /// Emit this node's pheromone for a proposed value, keep a copy, and
    /// return the broadcast that carries it.
    pub fn emit_proposal(&mut self, value: ConsensusValue, private_key: &[u8]) -> (r: Result<
        Message,
        ConsensusError,
    >)
        requires
            old(self).wf(),
        ensures
            final(self).wf(),
            final(self).id == old(self).id,
            final(self).current_value == old(self).current_value,
            final(self).neighbors@ == old(self).neighbors@,
            final(self).ants@ == old(self).ants@,
            final(self).evaporation_rate == old(self).evaporation_rate,
            r matches Ok(m) ==> (m matches Message::PheromoneBroadcast { pheromone, sender }
                && sender == old(self).id && pheromone.value == value && pheromone.source == old(
                self,
            ).id && pheromone.intensity == INITIAL_PHEROMONE_INTENSITY && trails_of(
                final(self).pheromones@,
            ) == stored(trails_of(old(self).pheromones@), pheromone@) && final(self).stats == (
            NodeStats {
                pheromones_emitted: bumped(old(self).stats.pheromones_emitted),
                ..old(self).stats
            })),
            r is Err ==> final(self).pheromones@ == old(self).pheromones@ && final(self).stats
                == old(self).stats,
            r matches Err(ConsensusError::Crypto(_)) <==> !is_unset_key(private_key@)
                && !pkcs8_accepted(private_key@) && !(r matches Err(ConsensusError::Internal(_))),
            r matches Err(e) ==> (e matches ConsensusError::Crypto(_)) || (e matches ConsensusError::Internal(_)),
    {
        match self.emit_pheromone(value, private_key) {
            Ok(pheromone) => Ok(Message::PheromoneBroadcast { pheromone, sender: self.id }),
            Err(e) => Err(e),
        }
    }

    /// Send out explorer ants for a proposed value: one per neighbor, at
    /// most five, each with the next identifier and its own freshly emitted
    /// pheromone, which this node also keeps. `next_ant_id` is the next
    /// identifier to hand out; one is used up by a failed emission too.
    pub fn create_explorer_ants(
        &mut self,
        value: ConsensusValue,
        private_key: &[u8],
        next_ant_id: &mut AntId,
    ) -> (r: Result<(), ConsensusError>)
        requires
            old(self).wf(),
        ensures
            final(self).wf(),
            final(self).id == old(self).id,
            final(self).current_value == old(self).current_value,
            final(self).neighbors@ == old(self).neighbors@,
            final(self).evaporation_rate == old(self).evaporation_rate,
            final(self).ants@.len() >= old(self).ants@.len(),
            forall|i: int|
                0 <= i < old(self).ants@.len() ==> #[trigger] final(self).ants@[i] == old(
                    self,
                ).ants@[i],
            forall|i: int|
                old(self).ants@.len() <= i < final(self).ants@.len() ==> {
                    let a = #[trigger] ants_of(final(self).ants@)[i];
                    &&& a.id == nth_id(*old(next_ant_id), (i - old(self).ants@.len()) as nat)
                    &&& a.current_node == old(self).id
                    &&& a.start_node == old(self).id
                    &&& a.energy_level == INITIAL_ANT_ENERGY
                    &&& a.visited == Set::<NodeId>::empty().insert(old(self).id)
                    &&& a.carried matches Some(p) && p.digest == value.hash@ && p.source
                        == old(self).id && p.intensity == INITIAL_PHEROMONE_INTENSITY
                },
            trails_of(final(self).pheromones@) == stored_each(
                trails_of(old(self).pheromones@),
                ants_of(final(self).ants@).subrange(
                    old(self).ants@.len() as int,
                    final(self).ants@.len() as int,
                ).map_values(|a: AntModel| a.carried->Some_0),
            ),
            final(self).stats == (NodeStats {
                pheromones_emitted: bumped_times(
                    old(self).stats.pheromones_emitted,
                    (final(self).ants@.len() - old(self).ants@.len()) as nat,
                ),
                ants_created: bumped_times(
                    old(self).stats.ants_created,
                    (final(self).ants@.len() - old(self).ants@.len()) as nat,
                ),
                ..old(self).stats
            }),
            *final(next_ant_id) == nth_id(
                *old(next_ant_id),
                (final(self).ants@.len() - old(self).ants@.len() + if r is Err {
                    1int
                } else {
                    0int
                }) as nat,
            ),
            old(self).neighbors@.len() == 0 ==> r is Ok,
            r is Ok ==> final(self).ants@.len() == old(self).ants@.len() + explorer_count(
                old(self).neighbors@.len(),
            ),
            r matches Err(ConsensusError::Crypto(_)) <==> old(self).neighbors@.len() > 0
                && !is_unset_key(private_key@) && !pkcs8_accepted(private_key@) && !(r matches Err(
                ConsensusError::Internal(_),
            )),
            r matches Err(e) ==> (e matches ConsensusError::Crypto(_)) || (e matches ConsensusError::Internal(_)),
    {
        let count: usize = if self.neighbors.len() < MAX_EXPLORER_ANTS {
            self.neighbors.len()
        } else {
            MAX_EXPLORER_ANTS
        };
        let ghost before = self.ants@;
        let ghost trails0 = trails_of(self.pheromones@);
        let ghost stats0 = self.stats;
        let ghost id0 = *next_ant_id;
        let mut made: usize = 0;
        assert(ants_of(self.ants@).subrange(before.len() as int, before.len() as int).map_values(
            |a: AntModel| a.carried->Some_0,
        ) =~= Seq::<PheromoneModel>::empty());
        while made < count
            invariant
                made <= count,
                count == explorer_count(old(self).neighbors@.len()),
                self.wf(),
                self.id == old(self).id,
                self.current_value == old(self).current_value,
                self.neighbors@ == old(self).neighbors@,
                self.evaporation_rate == old(self).evaporation_rate,
                before == old(self).ants@,
                trails0 == trails_of(old(self).pheromones@),
                stats0 == old(self).stats,
                id0 == *old(next_ant_id),
                self.ants@.len() == before.len() + made,
                *next_ant_id == nth_id(id0, made as nat),
                made > 0 ==> is_unset_key(private_key@) || pkcs8_accepted(private_key@),
                forall|i: int| 0 <= i < before.len() ==> #[trigger] self.ants@[i] == before[i],
                forall|i: int|
                    before.len() <= i < self.ants@.len() ==> {
                        let a = #[trigger] ants_of(self.ants@)[i];
                        &&& a.id == nth_id(id0, (i - before.len()) as nat)
                        &&& a.current_node == old(self).id
                        &&& a.start_node == old(self).id
                        &&& a.energy_level == INITIAL_ANT_ENERGY
                        &&& a.visited == Set::<NodeId>::empty().insert(old(self).id)
                        &&& a.carried matches Some(p) && p.digest == value.hash@ && p.source
                            == old(self).id && p.intensity == INITIAL_PHEROMONE_INTENSITY
                    },
                trails_of(self.pheromones@) == stored_each(
                    trails0,
                    ants_of(self.ants@).subrange(before.len() as int, self.ants@.len() as int).map_values(
                        |a: AntModel| a.carried->Some_0,
                    ),
                ),
                self.stats == (NodeStats {
                    pheromones_emitted: bumped_times(stats0.pheromones_emitted, made as nat),
                    ants_created: bumped_times(stats0.ants_created, made as nat),
                    ..stats0
                }),
            decreases count - made,
        {
            let ant_id = *next_ant_id;
            *next_ant_id = if ant_id < u64::MAX { ant_id + 1 } else { 0 };
            assert(*next_ant_id == nth_id(id0, (made + 1) as nat));
            let ghost prev = self.ants@;
            let ghost prev_trails = trails_of(self.pheromones@);
            let pheromone = match self.emit_pheromone(value, private_key) {
                Ok(p) => p,
                Err(e) => {
                    return Err(e);
                },
            };
            let ghost marker = pheromone@;
            let ant = AntAgent::with_pheromone(ant_id, self.id, pheromone);
            self.add_ant(ant);
            assert forall|i: int| 0 <= i < before.len() implies #[trigger] self.ants@[i] == before[i] by {
                assert(self.ants@[i] == prev[i]);
            }
            assert forall|i: int| before.len() <= i < self.ants@.len() implies {
                let a = #[trigger] ants_of(self.ants@)[i];
                &&& a.id == nth_id(id0, (i - before.len()) as nat)
                &&& a.current_node == old(self).id
                &&& a.start_node == old(self).id
                &&& a.energy_level == INITIAL_ANT_ENERGY
                &&& a.visited == Set::<NodeId>::empty().insert(old(self).id)
                &&& a.carried matches Some(p) && p.digest == value.hash@ && p.source
                    == old(self).id && p.intensity == INITIAL_PHEROMONE_INTENSITY
            } by {
                if i < prev.len() {
                    assert(self.ants@[i] == prev[i]);
                    assert(ants_of(self.ants@)[i] == ants_of(prev)[i]);
                }
            }
            let ghost olds = ants_of(prev).subrange(before.len() as int, prev.len() as int).map_values(
                |a: AntModel| a.carried->Some_0,
            );
            let ghost news = ants_of(self.ants@).subrange(before.len() as int, self.ants@.len() as int).map_values(
                |a: AntModel| a.carried->Some_0,
            );
            assert(ants_of(self.ants@)[self.ants@.len() - 1].carried == Some(marker));
            assert(news.drop_last() =~= olds) by {
                assert forall|k: int| 0 <= k < olds.len() implies news[k] == olds[k] by {
                    assert(self.ants@[before.len() + k] == prev[before.len() + k]);
                }
            }
            assert(news.last() == marker);
            assert(trails_of(self.pheromones@) == stored(prev_trails, marker));
            made = made + 1;
        }
        Ok(())
    }
}

} // verus!
