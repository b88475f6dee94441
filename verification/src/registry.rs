//! The registry: the simulations of one server, each under its identifier.

use crate::cell_map::CellMap;
use crate::clock::{current_time, seconds_since};
use crate::coords::Point;
use crate::components::CellState;
use crate::ids::new_simulation_id;
use crate::simulation::SimulationData;
use std::time::SystemTime;
use vstd::prelude::*;

verus! {

/// One entry of the registry.
struct Entry {
    key: String,
    simulation: SimulationData,
}

/// The simulations of one server.
pub struct Simulations {
    entries: Vec<Entry>,
    server_start_time: SystemTime,
}

impl View for Simulations {
    type V = Map<Seq<char>, SimulationData>;

    closed spec fn view(&self) -> Map<Seq<char>, SimulationData> {
        Map::new(
            |id: Seq<char>| self.position(id) is Some,
            |id: Seq<char>| self.entries@[self.position(id)->0].simulation,
        )
    }
}

impl Simulations {
    /// Where the entry of `id` stands, if there is one.
    closed spec fn position(&self, id: Seq<char>) -> Option<int> {
        if exists|i: int| 0 <= i < self.entries@.len() && (#[trigger] self.entries@[i]).key@ == id {
            Some(
                choose|i: int|
                    0 <= i < self.entries@.len() && (#[trigger] self.entries@[i]).key@ == id,
            )
        } else {
            None
        }
    }

    /// No identifier stands in the registry twice.
    pub closed spec fn wf(&self) -> bool {
        forall|i: int, j: int|
            0 <= i < self.entries@.len() && 0 <= j < self.entries@.len() && (
            #[trigger] self.entries@[i]).key@ == (#[trigger] self.entries@[j]).key@ ==> i == j
    }

    /// The moment at which the server started.
    pub closed spec fn started(&self) -> SystemTime {
        self.server_start_time
    }

    /// The entry at `i` is the entry of its identifier.
    proof fn lemma_position(&self, i: int)
        requires
            self.wf(),
            0 <= i < self.entries@.len(),
        ensures
            self.position(self.entries@[i].key@) == Some(i),
            self@.contains_key(self.entries@[i].key@),
            self@[self.entries@[i].key@] == self.entries@[i].simulation,
    {
    }

    /// An empty registry of a server that starts now.
    pub fn new() -> (registry: Simulations)
        ensures
            registry.wf(),
            registry@ == Map::<Seq<char>, SimulationData>::empty(),
    {
        let registry = Simulations { entries: Vec::new(), server_start_time: current_time() };
        assert(registry@ =~= Map::<Seq<char>, SimulationData>::empty());
        registry
    }

    /// Where the entry of `id` stands, if there is one.
    fn find(&self, id: &str) -> (found: Option<usize>)
        requires
            self.wf(),
        ensures
            match found {
                Some(i) => i < self.entries@.len() && self.position(id@) == Some(i as int),
                None => self.position(id@) is None,
            },
    {
        let wanted = id.to_string();
        let mut i: usize = 0;
        while i < self.entries.len()
            invariant
                i <= self.entries@.len(),
                self.wf(),
                wanted@ == id@,
                forall|j: int| 0 <= j < i ==> (#[trigger] self.entries@[j]).key@ != id@,
            decreases self.entries.len() - i,
        {
            if self.entries[i].key == wanted {
                proof {
                    self.lemma_position(i as int);
                }
                return Some(i);
            }
            i += 1;
        }
        None
    }

    /// Registers a new, empty simulation of the given size under a fresh
    /// identifier and returns the identifier.  The name of an initial
    /// pattern is accepted and not acted upon: a simulation starts empty.
    pub fn create_simulation(&mut self, width: i32, height: i32, initial_pattern: Option<String>) -> (id:
        String)
        requires
            old(self).wf(),
        ensures
            final(self).wf(),
            final(self).started() == old(self).started(),
            id@.len() == 36,
            final(self)@.dom() == old(self)@.dom().insert(id@),
            is_new_simulation(final(self)@[id@], id@, width, height),
            forall|other: Seq<char>|
                other != id@ && old(self)@.contains_key(other) ==> final(self)@[other] == old(
                    self,
                )@[other],
    {
        self.create(width, height, false, initial_pattern)
    }

    /// Registers a new, empty simulation of the given size and boundary
    /// under a fresh identifier and returns the identifier: with
    /// `wrap_edges` the grid wraps at its edges, without it positions
    /// beyond an edge are left out.  The name of an initial pattern is
    /// accepted and not acted upon: a simulation starts empty.
    pub fn create(
        &mut self,
        width: i32,
        height: i32,
        wrap_edges: bool,
        initial_pattern: Option<String>,
    ) -> (id: String)
        requires
            old(self).wf(),
        ensures
            final(self).wf(),
            final(self).started() == old(self).started(),
            id@.len() == 36,
            final(self)@.dom() == old(self)@.dom().insert(id@),
            is_created(final(self)@[id@], id@, width, height, wrap_edges),
            forall|other: Seq<char>|
                other != id@ && old(self)@.contains_key(other) ==> final(self)@[other] == old(
                    self,
                )@[other],
    {
        let id = new_simulation_id();
        self.register_with(id.clone(), width, height, wrap_edges);
        id
    }

    /// Registers a new, empty simulation of the given size under `id`,
    /// without wrapping.  A simulation that stood under `id` before is
    /// replaced.
    pub fn register(&mut self, id: String, width: i32, height: i32)
        requires
            old(self).wf(),
        ensures
            final(self).wf(),
            final(self).started() == old(self).started(),
            final(self)@.dom() == old(self)@.dom().insert(id@),
            is_new_simulation(final(self)@[id@], id@, width, height),
            forall|other: Seq<char>|
                other != id@ && old(self)@.contains_key(other) ==> final(self)@[other] == old(
                    self,
                )@[other],
    {
        self.register_with(id, width, height, false);
    }

    /// Registers a new, empty simulation of the given size and boundary
    /// under `id`.  A simulation that stood under `id` before is replaced.
    pub fn register_with(&mut self, id: String, width: i32, height: i32, wrap_edges: bool)
        requires
            old(self).wf(),
        ensures
            final(self).wf(),
            final(self).started() == old(self).started(),
            final(self)@.dom() == old(self)@.dom().insert(id@),
            is_created(final(self)@[id@], id@, width, height, wrap_edges),
            forall|other: Seq<char>|
                other != id@ && old(self)@.contains_key(other) ==> final(self)@[other] == old(
                    self,
                )@[other],
    {
        let simulation = SimulationData {
            id: id.clone(),
            generation: 0,
            width,
            height,
            wrap_edges,
            cells: CellMap::new(),
            is_running: false,
            created_at: current_time(),
        };
        let ghost before = *self;
        match self.find(id.as_str()) {
            Some(i) => {
                self.entries.set(i, Entry { key: id, simulation });
                proof {
                    assert forall|other: Seq<char>| before.position(other) is Some implies self.position(other) == before.position(other) by {
                        let j = before.position(other)->0;
                        assert(self.entries@[j].key@ == other);
                        self.lemma_position(j);
                    }
                    assert forall|other: Seq<char>| self.position(other) is Some implies before.position(other) is Some by {
                        let j = self.position(other)->0;
                        assert(before.entries@[j].key@ == other);
                    }
                    self.lemma_position(i as int);
                    assert(self@.dom() =~= before@.dom().insert(id@));
                }
            },
            None => {
                self.entries.push(Entry { key: id, simulation });
                proof {
                    let last = before.entries@.len() as int;
                    assert forall|other: Seq<char>| before.position(other) is Some implies self.position(other) == before.position(other) by {
                        let j = before.position(other)->0;
                        assert(self.entries@[j].key@ == other);
                        self.lemma_position(j);
                    }
                    assert forall|other: Seq<char>| self.position(other) is Some && other != id@ implies before.position(other) is Some by {
                        let j = self.position(other)->0;
                        assert(before.entries@[j].key@ == other);
                    }
                    self.lemma_position(last);
                    assert(self@.dom() =~= before@.dom().insert(id@));
                }
            },
        }
    }

    /// The simulation under `id`, if there is one.
    pub fn get_simulation(&self, id: &str) -> (found: Option<&SimulationData>)
        requires
            self.wf(),
        ensures
            match found {
                Some(simulation) => self@.contains_key(id@) && *simulation == self@[id@],
                None => !self@.contains_key(id@),
            },
    {
        match self.find(id) {
            Some(i) => Some(&self.entries[i].simulation),
            None => None,
        }
    }

    /// The simulation under `id`, for changing it, if there is one.  What
    /// the caller does to the simulation is what happens to the registry's
    /// simulation under `id`, and to no other.
    pub fn get_simulation_mut(&mut self, id: &str) -> (found: Option<&mut SimulationData>)
        requires
            old(self).wf(),
        ensures
            final(self).wf(),
            final(self).started() == old(self).started(),
            match found {
                Some(simulation) => {
                    &&& old(self)@.contains_key(id@)
                    &&& *simulation == old(self)@[id@]
                    &&& final(self)@ == old(self)@.insert(id@, *final(simulation))
                },
                None => !old(self)@.contains_key(id@) && final(self)@ == old(self)@,
            },
    {
        match self.find(id) {
            Some(i) => {
                let ghost before = *self;
                proof {
                    before.lemma_position(i as int);
                }
                proof {
                    assert forall|after: Simulations|
                        after.server_start_time == before.server_start_time && after.entries@
                            == before.entries@.update(
                            i as int,
                            Entry {
                                key: before.entries@[i as int].key,
                                simulation: after.entries@[i as int].simulation,
                            },
                        ) implies #[trigger] after.wf() && after@ == before@.insert(
                        id@,
                        after.entries@[i as int].simulation,
                    ) by {
                        lemma_replaced(before, after, i as int, after.entries@[i as int].simulation);
                    }
                }
                let entry = &mut self.entries[i];
                Some(&mut entry.simulation)
            },
            None => None,
        }
    }

    /// Replaces the cells of the simulation under `id` by the listed ones,
    /// each fresh; listed cells outside its grid are left out.  The result
    /// says whether there is such a simulation.
    pub fn set_cells(&mut self, id: &str, cells: &[(i32, i32)]) -> (found: bool)
        requires
            old(self).wf(),
        ensures
            final(self).wf(),
            final(self).started() == old(self).started(),
            found == old(self)@.contains_key(id@),
            !found ==> final(self)@ == old(self)@,
            found ==> {
                &&& final(self)@ == old(self)@.insert(id@, final(self)@[id@])
                &&& final(self)@[id@].cells@ == crate::simulation::cells_set_to(
                    cells@,
                    old(self)@[id@].width as int,
                    old(self)@[id@].height as int,
                )
                &&& final(self)@[id@].generation == old(self)@[id@].generation
                &&& final(self)@[id@].same_frame(&old(self)@[id@])
            },
    {
        match self.get_simulation_mut(id) {
            Some(simulation) => {
                simulation.set_cells(cells);
                true
            },
            None => false,
        }
    }

    /// Puts a pattern at an offset on the grid of the simulation under
    /// `id` and returns the number of cells added, or nothing where there
    /// is no such simulation.
    pub fn add_pattern(&mut self, id: &str, pattern: &[(i32, i32)], offset_x: i32, offset_y: i32) -> (added:
        Option<i32>)
        requires
            old(self).wf(),
        ensures
            final(self).wf(),
            final(self).started() == old(self).started(),
            added is Some == old(self)@.contains_key(id@),
            added is None ==> final(self)@ == old(self)@,
            added is Some ==> {
                let targets = crate::simulation::pattern_targets(
                    pattern@,
                    offset_x as int,
                    offset_y as int,
                    old(self)@[id@].width as int,
                    old(self)@[id@].height as int,
                );
                &&& final(self)@ == old(self)@.insert(id@, final(self)@[id@])
                &&& final(self)@[id@].cells@ == crate::simulation::cells_with_pattern(
                    old(self)@[id@].cells@,
                    targets,
                )
                &&& added->0 == crate::simulation::small_count_of(
                    crate::simulation::pattern_additions(old(self)@[id@].cells@, targets).len(),
                )
                &&& final(self)@[id@].generation == old(self)@[id@].generation
                &&& final(self)@[id@].same_frame(&old(self)@[id@])
            },
    {
        match self.get_simulation_mut(id) {
            Some(simulation) => Some(simulation.add_pattern(pattern, offset_x, offset_y)),
            None => None,
        }
    }

    /// Removes the simulation under `id`.  The result says whether there was
    /// one.
    pub fn delete_simulation(&mut self, id: &str) -> (removed: bool)
        requires
            old(self).wf(),
        ensures
            final(self).wf(),
            final(self).started() == old(self).started(),
            removed == old(self)@.contains_key(id@),
            final(self)@ == old(self)@.remove(id@),
    {
        let ghost before = *self;
        match self.find(id) {
            Some(i) => {
                self.entries.remove(i);
                proof {
                    assert forall|j: int| 0 <= j < self.entries@.len() implies #[trigger] self.entries@[j] == before.entries@[if j < i { j } else { j + 1 }] by {}
                    assert forall|other: Seq<char>| other != id@ && before.position(other) is Some implies self.position(other) is Some && self.entries@[self.position(other)->0].simulation == before.entries@[before.position(other)->0].simulation by {
                        let j = before.position(other)->0;
                        let k = if j < i { j } else { j - 1 };
                        assert(self.entries@[k].key@ == other);
                        let p = self.position(other)->0;
                        let q = if p < i { p } else { p + 1 };
                        assert(before.entries@[q].key@ == other);
                    }
                    assert forall|other: Seq<char>| self.position(other) is Some implies other != id@ && before.position(other) is Some by {
                        let p = self.position(other)->0;
                        let q = if p < i { p } else { p + 1 };
                        assert(before.entries@[q].key@ == other);
                    }
                    assert(self@ =~= before@.remove(id@));
                }
                true
            },
            None => {
                proof {
                    assert(self@ =~= before@.remove(id@));
                }
                false
            },
        }
    }

    /// What the system clock says of the time since the server started: the
    /// whole seconds that have passed, or nothing where the clock has gone
    /// backwards.
    pub(crate) fn elapsed_seconds(&self) -> Option<u64> {
        seconds_since(&self.server_start_time)
    }

    /// The whole seconds for which the server has been up, as the system
    /// clock tells them.  Whatever the clock says, an uptime is never
    /// negative: it is zero where the clock has gone backwards, and the
    /// greatest number that the result can hold where more seconds have
    /// passed than that.
    pub fn uptime_seconds(&self) -> (uptime: i64)
        ensures
            0 <= uptime,
    {
        uptime_from(self.elapsed_seconds())
    }
}

/// Replacing the simulation of one entry changes the registry at that
/// entry's identifier and nowhere else.
proof fn lemma_replaced(before: Simulations, after: Simulations, i: int, simulation: SimulationData)
    requires
        before.wf(),
        0 <= i < before.entries@.len(),
        after.server_start_time == before.server_start_time,
        after.entries@ == before.entries@.update(
            i,
            Entry { key: before.entries@[i].key, simulation },
        ),
    ensures
        after.wf(),
        after@ == before@.insert(before.entries@[i].key@, simulation),
{
    let id = before.entries@[i].key@;
    assert forall|other: Seq<char>| before.position(other) is Some implies after.position(other)
        == before.position(other) by {
        let j = before.position(other)->0;
        assert(after.entries@[j].key@ == other);
        after.lemma_position(j);
    }
    assert forall|other: Seq<char>| after.position(other) is Some implies before.position(
        other,
    ) is Some by {
        let j = after.position(other)->0;
        assert(before.entries@[j].key@ == other);
    }
    before.lemma_position(i);
    after.lemma_position(i);
    assert(after@ =~= before@.insert(id, simulation));
}

/// Whether `simulation` is a simulation as the registry creates it: under
/// the given identifier, of the given size and boundary, at generation
/// zero, empty and at rest.
pub open spec fn is_created(
    simulation: SimulationData,
    id: Seq<char>,
    width: i32,
    height: i32,
    wrap_edges: bool,
) -> bool {
    &&& simulation.id@ == id
    &&& simulation.generation == 0
    &&& simulation.width == width
    &&& simulation.height == height
    &&& simulation.wrap_edges == wrap_edges
    &&& simulation.cells@ == Map::<Point, CellState>::empty()
    &&& !simulation.is_running
}

/// Whether `simulation` is a simulation as the registry creates it without
/// wrapping.
pub open spec fn is_new_simulation(
    simulation: SimulationData,
    id: Seq<char>,
    width: i32,
    height: i32,
) -> bool {
    is_created(simulation, id, width, height, false)
}

/// The uptime that is reported for what the clock says has passed: the
/// seconds themselves, or the greatest signed number of sixty-four bits
/// where they are more, and zero where the clock has gone backwards.
pub open spec fn uptime_of(elapsed: Option<u64>) -> int {
    match elapsed {
        Some(seconds) => if seconds <= i64::MAX {
            seconds as int
        } else {
            i64::MAX as int
        },
        None => 0,
    }
}

/// The uptime that is reported for what the clock says has passed.
pub fn uptime_from(elapsed: Option<u64>) -> (uptime: i64)
    ensures
        uptime == uptime_of(elapsed),
{
    match elapsed {
        Some(seconds) => if seconds > 0x7fff_ffff_ffff_ffff {
            0x7fff_ffff_ffff_ffff
        } else {
            seconds as i64
        },
        None => 0,
    }
}

} // verus!
