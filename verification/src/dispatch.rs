//! Dependency-ordered system scheduler. Systems are registered under a
//! name together with the names of the systems that must run before them;
//! a dependency may only name an already-registered system, so the
//! registration order is itself a topological order of the dependency
//! graph, with ties broken by registration order. Unknown dependency names
//! and duplicate system names are rejected at registration time, before
//! the simulation loop starts. The built dispatcher re-runs the full
//! ordered sequence once per frame.

use crate::continuum_crowds::reset_cell;
use crate::continuum_crowds::total_density;
use crate::continuum_crowds::total_wvel_x;
use crate::continuum_crowds::total_wvel_y;
use crate::continuum_crowds::div_toward_zero;
use crate::continuum_crowds::AssignDensitiesAndVelocities;
use crate::continuum_crowds::ResetShared;
use crate::continuum_crowds::SharedCell;
use crate::grid::position_at;
use crate::systems::step_entity;
use crate::systems::SayHello;
use crate::systems::UpdatePos;
use crate::world::World;
use crate::world::WorldModel;
use vstd::prelude::*;

verus! {

/// The units of per-frame logic this simulation knows.
#[derive(Clone, Copy, Debug, PartialEq, Eq, Structural)]
pub enum SystemKind {
    /// Clear the shared field's accumulated values.
    ResetShared,
    /// Rebuild the density and average-velocity field from the agents.
    AssignDensitiesAndVelocities,
    /// Integrate agent positions from velocity and elapsed time.
    UpdatePos,
    /// Print a greeting for every positioned agent.
    SayHello,
}

/// A registered system: its name, the names of the systems that must run
/// before it, and what it does.
pub struct SystemEntry {
    pub name: String,
    pub deps: Vec<String>,
    pub kind: SystemKind,
}

/// A schedule rejected at setup time.
#[derive(Clone, Copy, Debug, PartialEq, Eq, Structural)]
pub enum ScheduleError {
    /// A system was registered under a name that is already taken.
    DuplicateName,
    /// A dependency names no already-registered system.
    UnknownDependency,
}

/// Some registered system bears the name `nm`.
pub open spec fn has_system_named(s: Seq<SystemEntry>, nm: Seq<char>) -> bool {
    exists|j: int| 0 <= j < s.len() && (#[trigger] s[j]).name@ == nm
}

/// Some system registered strictly before position `i` bears the name
/// `nm`.
pub open spec fn has_system_named_before(s: Seq<SystemEntry>, i: int, nm: Seq<char>) -> bool {
    exists|j: int| 0 <= j < i && (#[trigger] s[j]).name@ == nm
}

/// Registration produced a valid order: names are unique, and every
/// dependency of a system names a system registered strictly before it.
pub open spec fn schedule_wf(s: Seq<SystemEntry>) -> bool {
    &&& forall|i: int, j: int|
        0 <= i < j < s.len() ==> (#[trigger] s[i]).name@ != (#[trigger] s[j]).name@
    &&& forall|i: int, d: int|
        0 <= i < s.len() && 0 <= d < s[i].deps@.len() ==> #[trigger] has_system_named_before(
            s,
            i,
            s[i].deps@[d]@,
        )
}

/// What one system does to the store, as a function over its snapshot.
pub open spec fn run_system(kind: SystemKind, m: WorldModel) -> WorldModel {
    match kind {
        SystemKind::ResetShared => WorldModel {
            cells: Seq::new(m.cells.len(), |k: int| reset_cell(m.cells[k])),
            ..m
        },
        SystemKind::AssignDensitiesAndVelocities => WorldModel {
            cells: Seq::new(m.cells.len(), |k: int| accum_cell(m, k)),
            ..m
        },
        SystemKind::UpdatePos => WorldModel {
            entities: Seq::new(m.entities.len(), |i: int| step_entity(m.entities[i], m.dt)),
            ..m
        },
        SystemKind::SayHello => m,
    }
}

/// The cell at rank `k` after the field accumulator ran: density is the
/// agents' total weight on the cell's coordinate, velocity their weighted
/// average (zero where no agent weighs on the cell), all other fields kept.
pub open spec fn accum_cell(m: WorldModel, k: int) -> SharedCell {
    let p = position_at(m.width, m.x_off, m.y_off, k);
    let c = m.cells[k];
    let d = total_density(m.entities, p.0, p.1);
    SharedCell {
        density: d as i64,
        avg_velocity: (
            if d > 0 {
                div_toward_zero(total_wvel_x(m.entities, p.0, p.1), d) as i64
            } else {
                0i64
            },
            if d > 0 {
                div_toward_zero(total_wvel_y(m.entities, p.0, p.1), d) as i64
            } else {
                0i64
            },
        ),
        ..c
    }
}

/// The store after every system of the schedule ran once, in order.
pub open spec fn run_schedule(s: Seq<SystemEntry>, m: WorldModel) -> WorldModel
    decreases s.len(),
{
    if s.len() == 0 {
        m
    } else {
        run_system(s.last().kind, run_schedule(s.drop_last(), m))
    }
}

/// In a valid schedule every declared dependency of a system refers to an
/// earlier entry: the execution order, which is the registration order,
/// always runs a system after all of its dependencies.
pub proof fn lemma_schedule_respects_deps(s: Seq<SystemEntry>, i: int, d: int)
    requires
        schedule_wf(s),
        0 <= i < s.len(),
        0 <= d < s[i].deps@.len(),
    ensures
        has_system_named_before(s, i, s[i].deps@[d]@),
{
}

/// Running the same schedule on equal stores yields equal stores: a closed
/// system without external mutation is deterministic.
pub proof fn lemma_schedule_deterministic(s: Seq<SystemEntry>, m1: WorldModel, m2: WorldModel)
    requires
        m1 == m2,
    ensures
        run_schedule(s, m1) == run_schedule(s, m2),
{
}

/// Whether some registered system bears the given name.
fn find_name(systems: &Vec<SystemEntry>, name: &String) -> (r: bool)
    ensures
        r == has_system_named(systems@, name@),
{
    let mut j: usize = 0;
    let mut found = false;
    while j < systems.len()
        invariant
            j <= systems@.len(),
            found == has_system_named_before(systems@, j as int, name@),
        decreases systems@.len() - j,
    {
        if systems[j].name == *name {
            found = true;
            proof {
                assert((systems@[j as int]).name@ == name@);
            }
        }
        j = j + 1;
    }
    found
}

/// Collects systems with their dependencies and checks the schedule as it
/// grows.
pub struct DispatcherBuilder {
    systems: Vec<SystemEntry>,
}

/// A checked schedule, run once per frame.
pub struct Dispatcher {
    systems: Vec<SystemEntry>,
}

impl DispatcherBuilder {
    /// The registered systems, in registration order.
    pub closed spec fn systems(&self) -> Seq<SystemEntry> {
        self.systems@
    }

    /// The schedule built so far is valid.
    pub open spec fn wf(&self) -> bool {
        schedule_wf(self.systems())
    }

    /// An empty schedule.
    pub fn new() -> (r: DispatcherBuilder)
        ensures
            r.wf(),
            r.systems().len() == 0,
    {
        DispatcherBuilder { systems: Vec::new() }
    }

    /// Registers a system under `name`, to run after the named
    /// dependencies. Fails fast, leaving the schedule unchanged, when the
    /// name is already taken or a dependency names no registered system.
    pub fn with(&mut self, kind: SystemKind, name: String, deps: Vec<String>) -> (r: Result<
        (),
        ScheduleError,
    >)
        requires
            old(self).wf(),
        ensures
            final(self).wf(),
            ({
                let s0 = old(self).systems();
                let taken = has_system_named(s0, name@);
                let all_known = forall|d: int|
                    0 <= d < deps@.len() ==> has_system_named(s0, (#[trigger] deps@[d])@);
                match r {
                    Ok(()) => {
                        &&& !taken
                        &&& all_known
                        &&& final(self).systems().len() == s0.len() + 1
                        &&& final(self).systems().drop_last() == s0
                        &&& final(self).systems().last().name@ == name@
                        &&& final(self).systems().last().deps@ == deps@
                        &&& final(self).systems().last().kind == kind
                    },
                    Err(ScheduleError::DuplicateName) => taken && final(self).systems() == s0,
                    Err(ScheduleError::UnknownDependency) => !taken && !all_known
                        && final(self).systems() == s0,
                }
            }),
    {
        if find_name(&self.systems, &name) {
            return Err(ScheduleError::DuplicateName);
        }
        let mut d: usize = 0;
        let mut all_known = true;
        while d < deps.len()
            invariant
                d <= deps@.len(),
                all_known == forall|t: int|
                    0 <= t < d ==> has_system_named(self.systems@, (#[trigger] deps@[t])@),
            decreases deps@.len() - d,
        {
            let found = find_name(&self.systems, &deps[d]);
            if !found {
                all_known = false;
                proof {
                    assert(!has_system_named(self.systems@, deps@[d as int]@));
                }
            }
            d = d + 1;
        }
        if !all_known {
            return Err(ScheduleError::UnknownDependency);
        }
        let ghost s0 = self.systems@;
        let entry = SystemEntry { name, deps, kind };
        self.systems.push(entry);
        proof {
            let s1 = self.systems@;
            assert(s1.drop_last() =~= s0);
            assert forall|i: int, j: int| 0 <= i < j < s1.len() implies (#[trigger] s1[i]).name@
                != (#[trigger] s1[j]).name@ by {
                if j == s1.len() - 1 {
                    assert(!has_system_named(s0, s1[j].name@));
                    assert(s1[i] == s0[i]);
                }
            }
            assert forall|i: int, d2: int|
                0 <= i < s1.len() && 0 <= d2 < s1[i].deps@.len() implies #[trigger] has_system_named_before(
                s1,
                i,
                s1[i].deps@[d2]@,
            ) by {
                if i < s1.len() - 1 {
                    assert(s1[i] == s0[i]);
                    assert(has_system_named_before(s0, i, s0[i].deps@[d2]@));
                    let w = choose|j: int| 0 <= j < i && (#[trigger] s0[j]).name@ == s0[i].deps@[d2]@;
                    assert(s1[w] == s0[w]);
                    assert((s1[w]).name@ == s1[i].deps@[d2]@);
                } else {
                    assert(has_system_named(s0, (s1[i].deps@)[d2]@));
                    let w = choose|j: int|
                        0 <= j < s0.len() && (#[trigger] s0[j]).name@ == (s1[i].deps@)[d2]@;
                    assert(s1[w] == s0[w]);
                    assert((s1[w]).name@ == s1[i].deps@[d2]@);
                }
            }
        }
        Ok(())
    }

    /// The checked schedule, ready to run.
    pub fn build(self) -> (r: Dispatcher)
        requires
            self.wf(),
        ensures
            r.wf(),
            r.systems() == self.systems(),
    {
        Dispatcher { systems: self.systems }
    }
}

impl Dispatcher {
    /// The scheduled systems, in execution order.
    pub closed spec fn systems(&self) -> Seq<SystemEntry> {
        self.systems@
    }

    /// The schedule is valid.
    pub open spec fn wf(&self) -> bool {
        schedule_wf(self.systems())
    }

    /// The scheduled systems' names, in execution order.
    pub fn system_names(&self) -> (r: Vec<String>)
        ensures
            r@.len() == self.systems().len(),
            forall|i: int| 0 <= i < r@.len() ==> (#[trigger] r@[i])@ == self.systems()[i].name@,
    {
        let mut names: Vec<String> = Vec::new();
        let mut i: usize = 0;
        while i < self.systems.len()
            invariant
                i <= self.systems@.len(),
                names@.len() == i,
                forall|j: int| 0 <= j < i ==> (#[trigger] names@[j])@ == self.systems@[j].name@,
            decreases self.systems@.len() - i,
        {
            names.push(self.systems[i].name.clone());
            i = i + 1;
        }
        names
    }

    /// Runs every scheduled system once, in order: the store afterwards is
    /// exactly the schedule's function applied to the store before, and
    /// nothing else of the world is touched.
    pub fn dispatch(&self, world: &mut World)
        requires
            old(world).wf(),
        ensures
            final(world).wf(),
            final(world).model() == run_schedule(self.systems(), old(world).model()),
            final(world).group_grids == old(world).group_grids,
            final(world).shared_grid.0.same_window(&old(world).shared_grid.0),
    {
        let ghost m0 = world.model();
        let mut i: usize = 0;
        while i < self.systems.len()
            invariant
                world.wf(),
                i <= self.systems@.len(),
                m0 == old(world).model(),
                world.model() == run_schedule(self.systems@.take(i as int), m0),
                world.group_grids == old(world).group_grids,
                world.shared_grid.0.same_window(&old(world).shared_grid.0),
            decreases self.systems@.len() - i,
        {
            let ghost mpre = world.model();
            match self.systems[i].kind {
                SystemKind::ResetShared => {
                    ResetShared::run(&mut world.shared_grid);
                    proof {
                        assert(world.model().cells =~= Seq::new(
                            mpre.cells.len(),
                            |k: int| reset_cell(mpre.cells[k]),
                        ));
                        assert(world.model() =~= run_system(SystemKind::ResetShared, mpre));
                    }
                },
                SystemKind::AssignDensitiesAndVelocities => {
                    AssignDensitiesAndVelocities::run(&mut world.shared_grid, &world.entities);
                    proof {
                        let g1 = world.shared_grid.0;
                        assert forall|k: int| 0 <= k < g1@.len() implies g1@[k] == accum_cell(
                            mpre,
                            k,
                        ) by {
                            assert(0 < mpre.width) by (nonlinear_arith)
                                requires
                                    0 <= k < mpre.width * mpre.height,
                                    0 <= mpre.height,
                            ;
                            crate::grid::lemma_rank_roundtrip(
                                mpre.width,
                                mpre.height,
                                mpre.x_off,
                                mpre.y_off,
                                k,
                            );
                            let p = position_at(mpre.width, mpre.x_off, mpre.y_off, k);
                            assert(g1.cell_at(p.0, p.1) == g1@[k]);
                        }
                        assert(world.model().cells =~= Seq::new(
                            mpre.cells.len(),
                            |k: int| accum_cell(mpre, k),
                        ));
                        assert(world.model() =~= run_system(
                            SystemKind::AssignDensitiesAndVelocities,
                            mpre,
                        ));
                    }
                },
                SystemKind::UpdatePos => {
                    UpdatePos::run(&mut world.entities, &world.duration_since_last_frame);
                    proof {
                        assert(world.model().entities =~= Seq::new(
                            mpre.entities.len(),
                            |t: int| step_entity(mpre.entities[t], mpre.dt),
                        ));
                        assert(world.model() =~= run_system(SystemKind::UpdatePos, mpre));
                    }
                },
                SystemKind::SayHello => {
                    SayHello::run(&world.entities);
                },
            }
            proof {
                assert(self.systems@.take(i + 1).drop_last() =~= self.systems@.take(i as int));
                assert(self.systems@.take(i + 1).last() == self.systems@[i as int]);
            }
            i = i + 1;
        }
        proof {
            assert(self.systems@.take(self.systems@.len() as int) =~= self.systems@);
        }
    }
}

} // verus!
