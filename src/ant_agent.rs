use vstd::prelude::*;

use crate::pheromone::{Pheromone, PheromoneModel, INTENSITY_ONE};
use crate::random::random_below;
use crate::types::{AntId, NodeId};

verus! {

broadcast use vstd::std_specs::hash::group_hash_axioms;

/// Energy of a new ant, in tenths (100.0).
pub const INITIAL_ANT_ENERGY: u64 = 1000;

/// Energy lost per step, in tenths (0.1).
pub const ENERGY_DECAY_RATE: u64 = 1;

/// An ant whose energy is at or below this is dead.
pub const MIN_ANT_ENERGY: u64 = 0;

/// Number of nodes an ant remembers.
pub const ANT_MEMORY_SIZE: usize = 256;

/// Intensity assumed for a neighbor that no observation covers (0.1).
pub const DEFAULT_PATH_INTENSITY: u64 = INTENSITY_ONE / 10;

/// A mobile token that carries a pheromone across the neighbor graph.
#[derive(Debug)]
pub struct AntAgent {
    pub id: AntId,
    pub current_node: NodeId,
    pub carried_pheromone: Option<Pheromone>,
    /// Nodes visited, so that the ant avoids loops.
    pub visited_nodes: std::collections::HashSet<NodeId>,
    /// Energy in tenths.
    pub energy_level: u64,
    pub start_node: NodeId,
}

/// What an ant holds, as plain values.
pub struct AntModel {
    pub id: AntId,
    pub current_node: NodeId,
    pub start_node: NodeId,
    pub energy_level: u64,
    pub visited: Set<NodeId>,
    pub carried: Option<PheromoneModel>,
}

impl View for AntAgent {
    type V = AntModel;

    open spec fn view(&self) -> AntModel {
        AntModel {
            id: self.id,
            current_node: self.current_node,
            start_node: self.start_node,
            energy_level: self.energy_level,
            visited: self.visited_nodes@,
            carried: match self.carried_pheromone {
                Some(p) => Some(p@),
                None => None,
            },
        }
    }
}

/// The neighbors not yet visited, in their given order.
pub open spec fn available_of(visited: Set<NodeId>, neighbors: Seq<NodeId>) -> Seq<NodeId> {
    neighbors.filter(|n: NodeId| !visited.contains(n))
}

/// The intensity that the first pair naming `node` gives, or the default.
pub open spec fn intensity_for(pairs: Seq<(NodeId, u64)>, node: NodeId) -> u64
    decreases pairs.len(),
{
    if pairs.len() == 0 {
        DEFAULT_PATH_INTENSITY
    } else if pairs[0].0 == node {
        pairs[0].1
    } else {
        intensity_for(pairs.drop_first(), node)
    }
}

/// The intensity of each candidate.
pub open spec fn weights_of(candidates: Seq<NodeId>, pairs: Seq<(NodeId, u64)>) -> Seq<u64> {
    candidates.map_values(|n: NodeId| intensity_for(pairs, n))
}

/// The sum of a sequence of weights.
pub open spec fn sum_of(w: Seq<u64>) -> int
    decreases w.len(),
{
    if w.len() == 0 {
        0
    } else {
        sum_of(w.drop_last()) + w.last()
    }
}

/// Roulette wheel: the first candidate whose cumulative weight reaches `r`.
pub open spec fn roulette(candidates: Seq<NodeId>, w: Seq<u64>, r: int) -> Option<NodeId>
    decreases candidates.len(),
{
    if candidates.len() == 0 || w.len() == 0 {
        None
    } else if r <= w[0] {
        Some(candidates[0])
    } else {
        roulette(candidates.drop_first(), w.drop_first(), r - w[0])
    }
}

/// The next hop for a draw `draw`: none without neighbors; the first
/// neighbor once all are visited; else, among the unvisited, a uniform pick
/// when all weights are zero and a roulette-wheel pick otherwise.
pub open spec fn next_node_choice(
    visited: Set<NodeId>,
    neighbors: Seq<NodeId>,
    pairs: Seq<(NodeId, u64)>,
    draw: u128,
) -> Option<NodeId> {
    if neighbors.len() == 0 {
        None
    } else {
        let avail = available_of(visited, neighbors);
        if avail.len() == 0 {
            Some(neighbors[0])
        } else {
            let w = weights_of(avail, pairs);
            let total = sum_of(w);
            if total == 0 {
                Some(avail[draw as int % avail.len() as int])
            } else {
                match roulette(avail, w, draw as int % total) {
                    Some(n) => Some(n),
                    None => Some(avail[0]),
                }
            }
        }
    }
}

/// The memory after a move to `node`: `node` is added, and `start` is
/// dropped when the memory then exceeds its bound.
pub open spec fn remembered(visited: Set<NodeId>, start: NodeId, node: NodeId) -> Set<NodeId> {
    let grown = visited.insert(node);
    if grown.len() > ANT_MEMORY_SIZE {
        grown.remove(start)
    } else {
        grown
    }
}

/// The energy after one step.
pub open spec fn decayed(energy: u64) -> u64 {
    if energy > ENERGY_DECAY_RATE {
        (energy - ENERGY_DECAY_RATE) as u64
    } else {
        0
    }
}

/// After a move, the ant's memory holds the node it now stands on and stays
/// within `ANT_MEMORY_SIZE`, provided that, when the memory is full, it still
/// holds the start node or the node moved to.
pub proof fn lemma_memory_after_move(visited: Set<NodeId>, start: NodeId, node: NodeId)
    requires
        visited.finite(),
        visited.len() <= ANT_MEMORY_SIZE,
        visited.len() == ANT_MEMORY_SIZE ==> visited.contains(start) || visited.contains(node),
    ensures
        remembered(visited, start, node).finite(),
        remembered(visited, start, node).len() <= ANT_MEMORY_SIZE,
        remembered(visited, start, node).contains(node),
{
    let grown = visited.insert(node);
    if visited.contains(node) {
        assert(grown =~= visited);
    } else {
        assert(grown.len() == visited.len() + 1);
        if grown.len() > ANT_MEMORY_SIZE {
            assert(visited.contains(start));
            assert(start != node);
            assert(grown.contains(start));
            assert(grown.remove(start).len() == grown.len() - 1);
        }
    }
}

proof fn lemma_roulette_member(candidates: Seq<NodeId>, w: Seq<u64>, r: int)
    ensures
        roulette(candidates, w, r) matches Some(n) ==> candidates.contains(n),
    decreases candidates.len(),
{
    if candidates.len() > 0 && w.len() > 0 && r > w[0] {
        lemma_roulette_member(candidates.drop_first(), w.drop_first(), r - w[0]);
        if let Some(n) = roulette(candidates, w, r) {
            let k = choose|k: int| 0 <= k < candidates.drop_first().len() && candidates.drop_first()[k] == n;
            assert(candidates[k + 1] == n);
        }
    }
}

fn intensity_lookup(pairs: &[(NodeId, u64)], node: NodeId) -> (r: u64)
    ensures
        r == intensity_for(pairs@, node),
{
    let mut i: usize = 0;
    assert(pairs@.subrange(0, pairs@.len() as int) =~= pairs@);
    while i < pairs.len()
        invariant
            i <= pairs@.len(),
            intensity_for(pairs@, node) == intensity_for(pairs@.subrange(i as int, pairs@.len() as int), node),
        decreases pairs@.len() - i,
    {
        let pair = pairs[i];
        assert(pairs@.subrange(i as int, pairs@.len() as int).drop_first() =~= pairs@.subrange(
            i + 1,
            pairs@.len() as int,
        ));
        if pair.0 == node {
            return pair.1;
        }
        i = i + 1;
    }
    DEFAULT_PATH_INTENSITY
}

fn path_weights(candidates: &Vec<NodeId>, pairs: &[(NodeId, u64)]) -> (r: Vec<u64>)
    ensures
        r@ == weights_of(candidates@, pairs@),
{
    let mut w: Vec<u64> = Vec::new();
    let mut i: usize = 0;
    while i < candidates.len()
        invariant
            i <= candidates@.len(),
            w@ =~= weights_of(candidates@.subrange(0, i as int), pairs@),
        decreases candidates@.len() - i,
    {
        w.push(intensity_lookup(pairs, candidates[i]));
        i = i + 1;
        assert(w@ =~= weights_of(candidates@.subrange(0, i as int), pairs@));
    }
    assert(candidates@.subrange(0, i as int) =~= candidates@);
    w
}

fn total_weight(w: &Vec<u64>) -> (r: u128)
    ensures
        r == sum_of(w@),
{
    let mut total: u128 = 0;
    let mut i: usize = 0;
    while i < w.len()
        invariant
            i <= w@.len(),
            total == sum_of(w@.subrange(0, i as int)),
            total <= i as int * u64::MAX as int,
        decreases w@.len() - i,
    {
        assert(w@.subrange(0, i + 1).drop_last() =~= w@.subrange(0, i as int));
        proof {
            assert((i + 1) as int * u64::MAX as int <= u128::MAX) by (nonlinear_arith)
                requires
                    i < usize::MAX,
            ;
        }
        total = total + w[i] as u128;
        i = i + 1;
        assert(total <= i as int * u64::MAX as int) by (nonlinear_arith)
            requires
                total <= (i - 1) as int * u64::MAX as int + u64::MAX as int,
        ;
    }
    assert(w@.subrange(0, i as int) =~= w@);
    total
}

fn roulette_pick(candidates: &Vec<NodeId>, w: &Vec<u64>, r: u128) -> (res: Option<NodeId>)
    requires
        candidates@.len() == w@.len(),
    ensures
        res == roulette(candidates@, w@, r as int),
{
    let mut cumulative: u128 = 0;
    let mut i: usize = 0;
    assert(candidates@.subrange(0, candidates@.len() as int) =~= candidates@);
    assert(w@.subrange(0, w@.len() as int) =~= w@);
    while i < candidates.len()
        invariant
            i <= candidates@.len(),
            candidates@.len() == w@.len(),
            cumulative <= r,
            roulette(candidates@, w@, r as int) == roulette(
                candidates@.subrange(i as int, candidates@.len() as int),
                w@.subrange(i as int, w@.len() as int),
                r - cumulative,
            ),
        decreases candidates@.len() - i,
    {
        assert(candidates@.subrange(i as int, candidates@.len() as int).drop_first() =~= candidates@.subrange(
            i + 1,
            candidates@.len() as int,
        ));
        assert(w@.subrange(i as int, w@.len() as int).drop_first() =~= w@.subrange(
            i + 1,
            w@.len() as int,
        ));
        if r - cumulative <= w[i] as u128 {
            return Some(candidates[i]);
        }
        cumulative = cumulative + w[i] as u128;
        i = i + 1;
    }
    None
}

impl AntAgent {
    /// An ant at `start_node` that remembers only that node.
    pub fn new(id: AntId, start_node: NodeId) -> (r: Self)
        ensures
            r.id == id,
            r.current_node == start_node,
            r.start_node == start_node,
            r.carried_pheromone is None,
            r.visited_nodes@ == Set::<NodeId>::empty().insert(start_node),
            r.energy_level == INITIAL_ANT_ENERGY,
    {
        let mut visited = std::collections::HashSet::new();
        visited.insert(start_node);
        AntAgent {
            id,
            current_node: start_node,
            carried_pheromone: None,
            visited_nodes: visited,
            energy_level: INITIAL_ANT_ENERGY,
            start_node,
        }
    }

    /// A new ant that carries `pheromone`.
    pub fn with_pheromone(id: AntId, start_node: NodeId, pheromone: Pheromone) -> (r: Self)
        ensures
            r.id == id,
            r.current_node == start_node,
            r.start_node == start_node,
            r.carried_pheromone == Some(pheromone),
            r.visited_nodes@ == Set::<NodeId>::empty().insert(start_node),
            r.energy_level == INITIAL_ANT_ENERGY,
    {
        let mut ant = Self::new(id, start_node);
        ant.carried_pheromone = Some(pheromone);
        ant
    }

    /// Lose one step's energy.
    pub fn update_energy(&mut self)
        ensures
            final(self).energy_level == decayed(old(self).energy_level),
            final(self).energy_level <= old(self).energy_level,
            final(self).id == old(self).id,
            final(self).current_node == old(self).current_node,
            final(self).start_node == old(self).start_node,
            final(self).carried_pheromone == old(self).carried_pheromone,
            final(self).visited_nodes@ == old(self).visited_nodes@,
    {
        if self.energy_level > ENERGY_DECAY_RATE {
            self.energy_level = self.energy_level - ENERGY_DECAY_RATE;
        } else {
            self.energy_level = 0;
        }
    }

    /// Whether the ant still has energy.
    pub fn is_alive(&self) -> (r: bool)
        ensures
            r == (self.energy_level > MIN_ANT_ENERGY),
    {
        self.energy_level > MIN_ANT_ENERGY
    }

    /// The neighbors this ant has not visited, in their given order.
    pub fn available_neighbors(&self, neighbors: &[NodeId]) -> (r: Vec<NodeId>)
        ensures
            r@ == available_of(self.visited_nodes@, neighbors@),
    {
        let mut out: Vec<NodeId> = Vec::new();
        let mut i: usize = 0;
        while i < neighbors.len()
            invariant
                i <= neighbors@.len(),
                out@ == available_of(self.visited_nodes@, neighbors@.subrange(0, i as int)),
            decreases neighbors@.len() - i,
        {
            let n = neighbors[i];
            proof {
                reveal(Seq::filter);
                assert(neighbors@.subrange(0, i + 1).drop_last() =~= neighbors@.subrange(0, i as int));
                assert(neighbors@.subrange(0, i + 1).last() == n);
            }
            if !self.visited_nodes.contains(&n) {
                out.push(n);
            }
            i = i + 1;
        }
        assert(neighbors@.subrange(0, i as int) =~= neighbors@);
        out
    }

    /// The next hop for a given random draw (see `next_node_choice`).
    pub fn select_next_node_with(
        &self,
        neighbors: &[NodeId],
        pheromone_intensities: &[(NodeId, u64)],
        draw: u128,
    ) -> (r: Option<NodeId>)
        ensures
            r == next_node_choice(self.visited_nodes@, neighbors@, pheromone_intensities@, draw),
            r is None <==> neighbors@.len() == 0,
            r matches Some(n) ==> neighbors@.contains(n),
    {
        if neighbors.len() == 0 {
            return None;
        }
        let available = self.available_neighbors(neighbors);
        proof {
            let pred = |n: NodeId| !self.visited_nodes@.contains(n);
            assert forall|n: NodeId| available@.contains(n) implies neighbors@.contains(n) by {
                neighbors@.lemma_filter_contains_rev(pred, n);
            }
        }
        if available.len() == 0 {
            assert(neighbors@.contains(neighbors@[0]));
            return Some(neighbors[0]);
        }
        let weights = path_weights(&available, pheromone_intensities);
        let total = total_weight(&weights);
        if total == 0 {
            let k = (draw % (available.len() as u128)) as usize;
            assert(available@.contains(available@[k as int]));
            return Some(available[k]);
        }
        let picked = roulette_pick(&available, &weights, draw % total);
        proof {
            lemma_roulette_member(available@, weights@, (draw % total) as int);
            assert(available@.contains(available@[0]));
        }
        match picked {
            Some(n) => Some(n),
            None => Some(available[0]),
        }
    }

    /// Choose the next hop: the roulette wheel over unvisited neighbors,
    /// weighted by the given intensities, with a fresh random draw.
    pub fn select_next_node(&self, neighbors: &[NodeId], pheromone_intensities: &[(NodeId, u64)]) -> (r:
        Option<NodeId>)
        ensures
            exists|draw: u128|
                r == next_node_choice(
                    self.visited_nodes@,
                    neighbors@,
                    pheromone_intensities@,
                    draw,
                ),
            r is None <==> neighbors@.len() == 0,
            r matches Some(n) ==> neighbors@.contains(n),
    {
        let available = self.available_neighbors(neighbors);
        let mut bound: u128 = 1;
        if available.len() > 0 {
            let weights = path_weights(&available, pheromone_intensities);
            let total = total_weight(&weights);
            bound = if total == 0 { available.len() as u128 } else { total };
        }
        let draw = random_below(bound);
        let r = self.select_next_node_with(neighbors, pheromone_intensities, draw);
        assert(r == next_node_choice(self.visited_nodes@, neighbors@, pheromone_intensities@, draw));
        r
    }

    /// Move to `node` and remember it; past the memory bound the start node
    /// is forgotten.
    pub fn move_to(&mut self, node: NodeId)
        ensures
            final(self).current_node == node,
            final(self).visited_nodes@ == remembered(
                old(self).visited_nodes@,
                old(self).start_node,
                node,
            ),
            old(self).visited_nodes@.finite() ==> final(self).visited_nodes@.finite(),
            final(self).id == old(self).id,
            final(self).start_node == old(self).start_node,
            final(self).energy_level == old(self).energy_level,
            final(self).carried_pheromone == old(self).carried_pheromone,
    {
        self.visited_nodes.insert(node);
        self.current_node = node;
        if self.visited_nodes.len() > ANT_MEMORY_SIZE {
            self.visited_nodes.remove(&self.start_node);
        }
    }

    /// Hand over the carried pheromone, if any, and carry nothing.
    pub fn drop_pheromone(&mut self) -> (r: Option<Pheromone>)
        ensures
            r == old(self).carried_pheromone,
            final(self).carried_pheromone is None,
            final(self).id == old(self).id,
            final(self).current_node == old(self).current_node,
            final(self).start_node == old(self).start_node,
            final(self).energy_level == old(self).energy_level,
            final(self).visited_nodes@ == old(self).visited_nodes@,
    {
        self.carried_pheromone.take()
    }

    /// Carry `pheromone`, replacing whatever was carried.
    pub fn pick_up_pheromone(&mut self, pheromone: Pheromone)
        ensures
            final(self).carried_pheromone == Some(pheromone),
            final(self).id == old(self).id,
            final(self).current_node == old(self).current_node,
            final(self).start_node == old(self).start_node,
            final(self).energy_level == old(self).energy_level,
            final(self).visited_nodes@ == old(self).visited_nodes@,
    {
        self.carried_pheromone = Some(pheromone);
    }
}

} // verus!
