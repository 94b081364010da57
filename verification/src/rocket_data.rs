use vstd::prelude::*;
use crate::types::Action;

verus! {

/// Statistics of a run, shown by the report server when the run ends.
///
/// `action_values` counts how often each kind of action was carried out, in
/// the order walk to target, walk to discover, escape, discover, rest,
/// collect (see `action_slot`).
#[derive(Debug, Clone)]
pub struct RocketData {
    pub action_values: Vec<usize>,
    pub energy_vector: Vec<usize>,
    pub thirst_vector: Vec<usize>,
    pub hunger_vector: Vec<usize>,
    pub heatmap: Vec<Vec<usize>>,
    pub map_dim: usize,
    pub n_zombies: usize,
    pub n_shelters: usize,
}

/// The counter of `action_values` that an action adds to.
pub open spec fn action_slot(a: Action) -> int {
    match a {
        Action::WalkToTarget(..) => 0,
        Action::WalkDiscover(..) => 1,
        Action::ESCAPE(..) => 2,
        Action::DISCOVER(..) => 3,
        Action::REST => 4,
        Action::COLLECT(..) => 5,
    }
}

/// `new` is `old` with one more action of the kind of `a` counted: walks to
/// a target at index 0, walks to discover at 1, escapes at 2, searches by
/// the dog at 3, rests at 4 and collections at 5.
pub open spec fn counted(old: Seq<usize>, new: Seq<usize>, a: Action) -> bool {
    match a {
        Action::WalkToTarget(..) => new == old.update(0, (old[0] + 1) as usize),
        Action::WalkDiscover(..) => new == old.update(1, (old[1] + 1) as usize),
        Action::ESCAPE(..) => new == old.update(2, (old[2] + 1) as usize),
        Action::DISCOVER(..) => new == old.update(3, (old[3] + 1) as usize),
        Action::REST => new == old.update(4, (old[4] + 1) as usize),
        Action::COLLECT(..) => new == old.update(5, (old[5] + 1) as usize),
    }
}

/// A `dim` by `dim` square of zeros.
pub open spec fn zero_square(m: Seq<Vec<usize>>, dim: int) -> bool {
    &&& m.len() == dim
    &&& forall|i: int| 0 <= i < dim ==> #[trigger] m[i]@.len() == dim
    &&& forall|i: int, j: int| 0 <= i < dim && 0 <= j < dim ==> #[trigger] m[i]@[j] == 0
}

impl RocketData {
    /// No action counted yet (six counters at zero), no history, no heatmap.
    pub fn new() -> (r: RocketData)
        ensures
            r.action_values@ == seq![0usize, 0, 0, 0, 0, 0],
            r.energy_vector@.len() == 0,
            r.thirst_vector@.len() == 0,
            r.hunger_vector@.len() == 0,
            r.heatmap@.len() == 0,
            r.map_dim == 0,
            r.n_zombies == 0,
            r.n_shelters == 0,
    {
        let mut action_values: Vec<usize> = Vec::new();
        let mut i: usize = 0;
        while i < 6
            invariant
                i <= 6,
                action_values@ == Seq::new(i as nat, |k: int| 0usize),
            decreases 6 - i,
        {
            action_values.push(0);
            i = i + 1;
            assert(action_values@ =~= Seq::new(i as nat, |k: int| 0usize));
        }
        assert(action_values@ =~= seq![0usize, 0, 0, 0, 0, 0]);
        RocketData {
            action_values,
            energy_vector: Vec::new(),
            thirst_vector: Vec::new(),
            hunger_vector: Vec::new(),
            heatmap: Vec::new(),
            map_dim: 0,
            n_zombies: 0,
            n_shelters: 0,
        }
    }

    /// Starts a heatmap of visits for a map of side `dim`.
    pub fn init_heatmap(&mut self, dim: usize)
        ensures
            zero_square(final(self).heatmap@, dim as int),
            final(self).map_dim == dim,
            final(self).action_values@ == old(self).action_values@,
            final(self).energy_vector@ == old(self).energy_vector@,
            final(self).thirst_vector@ == old(self).thirst_vector@,
            final(self).hunger_vector@ == old(self).hunger_vector@,
            final(self).n_zombies == old(self).n_zombies,
            final(self).n_shelters == old(self).n_shelters,
    {
        let mut heatmap: Vec<Vec<usize>> = Vec::new();
        let mut i: usize = 0;
        while i < dim
            invariant
                i <= dim,
                heatmap@.len() == i,
                forall|a: int| 0 <= a < i ==> #[trigger] heatmap@[a]@.len() == dim,
                forall|a: int, b: int| 0 <= a < i && 0 <= b < dim ==> #[trigger] heatmap@[a]@[b] == 0,
            decreases dim - i,
        {
            let mut row: Vec<usize> = Vec::new();
            let mut j: usize = 0;
            while j < dim
                invariant
                    j <= dim,
                    row@.len() == j,
                    forall|b: int| 0 <= b < j ==> #[trigger] row@[b] == 0,
                decreases dim - j,
            {
                row.push(0);
                j = j + 1;
            }
            heatmap.push(row);
            i = i + 1;
        }
        self.heatmap = heatmap;
        self.map_dim = dim;
    }

    /// Records the state at the start of a tick: energy, hunger and thirst are
    /// appended to their histories, the tile `pos` gets one more visit, and the
    /// numbers of known zombies and shelters are kept.
    pub fn record_tick(
        &mut self,
        energy: usize,
        hunger: usize,
        thirst: usize,
        pos: (usize, usize),
        n_zombies: usize,
        n_shelters: usize,
    )
        requires
            pos.0 < old(self).heatmap@.len(),
            pos.1 < old(self).heatmap@[pos.0 as int]@.len(),
            old(self).heatmap@[pos.0 as int]@[pos.1 as int] < usize::MAX,
        ensures
            final(self).energy_vector@ == old(self).energy_vector@.push(energy),
            final(self).hunger_vector@ == old(self).hunger_vector@.push(hunger),
            final(self).thirst_vector@ == old(self).thirst_vector@.push(thirst),
            final(self).heatmap@.len() == old(self).heatmap@.len(),
            forall|i: int| 0 <= i < old(self).heatmap@.len() ==> #[trigger] final(self).heatmap@[i]@
                == if i == pos.0 {
                    old(self).heatmap@[i]@.update(pos.1 as int, (old(self).heatmap@[i]@[pos.1 as int] + 1) as usize)
                } else {
                    old(self).heatmap@[i]@
                },
            final(self).n_zombies == n_zombies,
            final(self).n_shelters == n_shelters,
            final(self).action_values@ == old(self).action_values@,
            final(self).map_dim == old(self).map_dim,
    {
        self.energy_vector.push(energy);
        self.hunger_vector.push(hunger);
        self.thirst_vector.push(thirst);
        self.heatmap[pos.0][pos.1] = self.heatmap[pos.0][pos.1] + 1;
        self.n_zombies = n_zombies;
        self.n_shelters = n_shelters;
    }

    /// Counts one more `action`.
    pub fn count_action(&mut self, action: &Action)
        requires
            old(self).action_values@.len() >= 6,
            old(self).action_values@[action_slot(*action)] < usize::MAX,
        ensures
            final(self).action_values@ == old(self).action_values@.update(
                action_slot(*action),
                (old(self).action_values@[action_slot(*action)] + 1) as usize,
            ),
            counted(old(self).action_values@, final(self).action_values@, *action),
            final(self).energy_vector@ == old(self).energy_vector@,
            final(self).hunger_vector@ == old(self).hunger_vector@,
            final(self).thirst_vector@ == old(self).thirst_vector@,
            final(self).heatmap@ == old(self).heatmap@,
            final(self).map_dim == old(self).map_dim,
            final(self).n_zombies == old(self).n_zombies,
            final(self).n_shelters == old(self).n_shelters,
    {
        let slot: usize = match action {
            Action::WalkToTarget(..) => 0,
            Action::WalkDiscover(..) => 1,
            Action::ESCAPE(..) => 2,
            Action::DISCOVER(..) => 3,
            Action::REST => 4,
            Action::COLLECT(..) => 5,
        };
        self.action_values[slot] = self.action_values[slot] + 1;
    }
}

} // verus!
