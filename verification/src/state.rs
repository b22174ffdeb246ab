//! The simulation task's state and its per-step decisions. The task owns
//! the frame clock, the store, the grids and the scheduler; the embedding
//! program runs the loop, draining the inbound command queue, sleeping out
//! the pacing wait this module computes, and handing each step the current
//! reading of a monotonic millisecond clock.

use crate::channel::MessageToSimulation;
use crate::component::Entity;
use crate::component::Position;
use crate::component::Velocity;
use crate::component::SCALE;
use crate::dispatch::has_system_named;
use crate::dispatch::run_schedule;
use crate::dispatch::Dispatcher;
use crate::dispatch::DispatcherBuilder;
use crate::dispatch::SystemKind;
use crate::frame::Frame;
use crate::resources::DurationSinceLastFrame;
use crate::resources::ElapsedFramesCount;
use crate::world::World;
use crate::world::WorldModel;
use vstd::arithmetic::div_mod::lemma_fundamental_div_mod_converse_div;
use vstd::arithmetic::div_mod::lemma_fundamental_div_mod_converse_mod;
use vstd::pervasive::unreached;
use vstd::prelude::*;

verus! {

/// Target frame period of the simulation, in milliseconds.
pub const FRAME_DURATION: u64 = 32;

/// Width, in cells, of the grids the simulation starts with.
pub const WORLD_GRID_WIDTH: usize = 16;

/// Height, in cells, of the grids the simulation starts with.
pub const WORLD_GRID_HEIGHT: usize = 16;

/// Number of agents along each axis of the initial square formation.
pub const INITIAL_AGENTS_PER_AXIS: u64 = 10;

/// The entity at rank `n` of the initial formation: the formation fills a
/// square column by column, agents three tenths of a cell apart, all
/// drifting a fifth of a cell per second toward higher coordinates.
pub open spec fn initial_entity(n: int) -> Entity {
    let axis = INITIAL_AGENTS_PER_AXIS as int;
    let gx = n / axis + 1;
    let gy = n % axis + 1;
    Entity {
        position: Some(
            Position { x: (gx * 3 * SCALE / 10) as i64, y: (gy * 3 * SCALE / 10) as i64 },
        ),
        velocity: Some(Velocity { x: (SCALE as int / 5) as i64, y: (SCALE as int / 5) as i64 }),
    }
}

/// The three per-frame systems in dependency order: reset the shared
/// field, rebuild it from the agents, then integrate agent positions.
pub open spec fn default_schedule_shape(s: Seq<crate::dispatch::SystemEntry>) -> bool {
    &&& s.len() == 3
    &&& s[0].kind == SystemKind::ResetShared
    &&& s[0].name@ == "reset_shared"@
    &&& s[1].kind == SystemKind::AssignDensitiesAndVelocities
    &&& s[1].name@ == "assign_densities_and_velocities"@
    &&& s[2].kind == SystemKind::UpdatePos
    &&& s[2].name@ == "update_pos"@
}

/// The simulation task's state: the store, the checked schedule, and the
/// frame clock, which is absent until the first step runs.
pub struct State {
    pub world: World,
    pub dispatcher: Dispatcher,
    pub frame: Option<Frame>,
}

/// The frame the simulation holds after a step at clock reading `now`.
pub open spec fn spec_step_frame(s: State, now: u64) -> Frame {
    match s.frame {
        None => Frame::spec_initial(FRAME_DURATION, now),
        Some(f) => f.spec_stepped(now),
    }
}

/// The resources a step at `now` publishes: frames elapsed and
/// milliseconds passed since the previous frame.
pub open spec fn spec_step_resources(s: State, now: u64) -> (u64, u64) {
    match s.frame {
        None => (0u64, 0u64),
        Some(f) => ((f.spec_next_index(now) - f.index) as u64, (now - f.start_time) as u64),
    }
}

/// The store's snapshot after a step at `now`: the published resources,
/// then every scheduled system in order, then the queued structural
/// changes applied.
pub open spec fn spec_step_model(s: State, now: u64) -> WorldModel {
    let (elapsed, dt) = spec_step_resources(s, now);
    let m1 = WorldModel { elapsed: elapsed, dt: dt, ..s.world.model() };
    let m2 = run_schedule(s.dispatcher.systems(), m1);
    WorldModel { entities: m2.entities + m2.pending, pending: Seq::empty(), ..m2 }
}

/// A step is a deterministic function of the prior state and the clock
/// reading alone: equal states stepped at equal readings agree on the
/// next frame, on every component value, and on every cell of the field.
pub proof fn lemma_step_deterministic(s1: State, s2: State, now: u64)
    requires
        s1 == s2,
    ensures
        spec_step_frame(s1, now) == spec_step_frame(s2, now),
        spec_step_model(s1, now) == spec_step_model(s2, now),
{
}

impl State {
    /// The store and schedule are valid and the clock, once running, is on
    /// the fixed cadence.
    pub open spec fn wf(&self) -> bool {
        &&& self.world.wf()
        &&& self.dispatcher.wf()
        &&& (self.frame matches Some(f) ==> f.wf() && f.ideal_duration == FRAME_DURATION)
    }

    /// A fresh simulation: a square formation of slowly drifting agents on
    /// zeroed grids, the three per-frame systems scheduled in dependency
    /// order, and the clock not yet started.
    pub fn new() -> (r: State)
        ensures
            r.wf(),
            r.frame is None,
            r.world.entities@.len() == INITIAL_AGENTS_PER_AXIS * INITIAL_AGENTS_PER_AXIS,
            forall|n: int|
                0 <= n < r.world.entities@.len() ==> #[trigger] r.world.entities@[n]
                    == initial_entity(n),
            r.world.pending@.len() == 0,
            default_schedule_shape(r.dispatcher.systems()),
            r.world.shared_grid.0.width() == WORLD_GRID_WIDTH,
            r.world.shared_grid.0.height() == WORLD_GRID_HEIGHT,
            r.world.shared_grid.0.x_off() == 0,
            r.world.shared_grid.0.y_off() == 0,
            forall|i: int|
                0 <= i < r.world.shared_grid.0@.len() ==> {
                    let c = #[trigger] r.world.shared_grid.0@[i];
                    c.density == 0 && c.avg_velocity == (0i64, 0i64)
                },
            crate::world::group_grid_fresh(
                &r.world.group_grids.0,
                WORLD_GRID_WIDTH as int,
                WORLD_GRID_HEIGHT as int,
            ),
            crate::world::group_grid_fresh(
                &r.world.group_grids.1,
                WORLD_GRID_WIDTH as int,
                WORLD_GRID_HEIGHT as int,
            ),
            crate::world::group_grid_fresh(
                &r.world.group_grids.2,
                WORLD_GRID_WIDTH as int,
                WORLD_GRID_HEIGHT as int,
            ),
            crate::world::group_grid_fresh(
                &r.world.group_grids.3,
                WORLD_GRID_WIDTH as int,
                WORLD_GRID_HEIGHT as int,
            ),
    {
        let mut world = World::new(WORLD_GRID_WIDTH, WORLD_GRID_HEIGHT);
        let ghost base_shared = world.shared_grid;
        let ghost base_groups = world.group_grids;
        let mut x: u64 = 1;
        while x <= INITIAL_AGENTS_PER_AXIS
            invariant
                1 <= x <= INITIAL_AGENTS_PER_AXIS + 1,
                world.wf(),
                world.shared_grid == base_shared,
                world.group_grids == base_groups,
                world.entities@.len() == (x - 1) * INITIAL_AGENTS_PER_AXIS,
                forall|n: int|
                    0 <= n < world.entities@.len() ==> #[trigger] world.entities@[n]
                        == initial_entity(n),
                world.pending@.len() == 0,
            decreases INITIAL_AGENTS_PER_AXIS + 1 - x,
        {
            let mut y: u64 = 1;
            while y <= INITIAL_AGENTS_PER_AXIS
                invariant
                    1 <= x <= INITIAL_AGENTS_PER_AXIS,
                    1 <= y <= INITIAL_AGENTS_PER_AXIS + 1,
                    world.wf(),
                    world.shared_grid == base_shared,
                    world.group_grids == base_groups,
                    world.entities@.len() == (x - 1) * INITIAL_AGENTS_PER_AXIS + (y - 1),
                    forall|n: int|
                        0 <= n < world.entities@.len() ==> #[trigger] world.entities@[n]
                            == initial_entity(n),
                    world.pending@.len() == 0,
                decreases INITIAL_AGENTS_PER_AXIS + 1 - y,
            {
                // agents 0.3 cells apart, drifting 0.2 cells per second
                let px = ((x as i64) * 3 * SCALE) / 10;
                let py = ((y as i64) * 3 * SCALE) / 10;
                let e = Entity {
                    position: Some(Position { x: px, y: py }),
                    velocity: Some(Velocity { x: SCALE / 5, y: SCALE / 5 }),
                };
                let created = world.create_entity(e);
                assert(created);
                proof {
                    let n = (x - 1) * INITIAL_AGENTS_PER_AXIS + (y - 1);
                    let axis = INITIAL_AGENTS_PER_AXIS as int;
                    lemma_fundamental_div_mod_converse_div(n as int, axis, x - 1, y - 1);
                    lemma_fundamental_div_mod_converse_mod(n as int, axis, x - 1, y - 1);
                    assert(world.entities@[n as int] == initial_entity(n as int));
                }
                y = y + 1;
            }
            proof {
                assert((x - 1) * INITIAL_AGENTS_PER_AXIS + INITIAL_AGENTS_PER_AXIS == (x as int)
                    * INITIAL_AGENTS_PER_AXIS) by (nonlinear_arith);
            }
            x = x + 1;
        }
        let dispatcher = default_schedule();
        State { world, dispatcher, frame: None }
    }

    /// Milliseconds the task should sleep before stepping: zero before the
    /// clock starts and once a full frame has passed.
    pub fn pacing_wait(&self, now: u64) -> (r: u64)
        requires
            self.wf(),
            self.frame matches Some(f) ==> now >= f.ideal_start_time,
        ensures
            r == match self.frame {
                None => 0u64,
                Some(f) => if now - f.ideal_start_time < f.ideal_duration {
                    (f.ideal_start_time + f.ideal_duration - now) as u64
                } else {
                    0u64
                },
            },
    {
        match &self.frame {
            None => 0,
            Some(f) => f.wait_millis(now),
        }
    }

    /// Handles one inbound command. Commands currently carry no payload;
    /// whatever arrives, the store is not corrupted: the state is left
    /// exactly as it was.
    pub fn handle_command(&mut self, msg: MessageToSimulation)
        ensures
            *final(self) == *old(self),
    {
        let MessageToSimulation {  } = msg;
    }

    /// One step of the simulation: advance the clock, publish the new
    /// elapsed-frames and elapsed-time resources, run every scheduled
    /// system in order, then apply the store's queued structural changes.
    pub fn step(&mut self, now: u64)
        requires
            old(self).wf(),
            old(self).frame matches Some(f) ==> now >= f.start_time && f.spec_next_index(now)
                <= u64::MAX,
        ensures
            final(self).wf(),
            final(self).dispatcher == old(self).dispatcher,
            final(self).frame == Some(spec_step_frame(*old(self), now)),
            final(self).world.model() == spec_step_model(*old(self), now),
    {
        match &self.frame {
            None => {
                self.frame = Some(Frame::new(FRAME_DURATION, now));
                self.world.elapsed_frames = ElapsedFramesCount(0);
                self.world.duration_since_last_frame = DurationSinceLastFrame(0);
            },
            Some(f) => {
                let next_frame = f.next(now);
                self.world.elapsed_frames = ElapsedFramesCount(next_frame.index - f.index);
                self.world.duration_since_last_frame = DurationSinceLastFrame(now - f.start_time);
                self.frame = Some(next_frame);
            },
        }
        let ghost m1 = self.world.model();
        self.dispatcher.dispatch(&mut self.world);
        let ghost m2 = self.world.model();
        self.world.maintain();
        proof {
            let (elapsed, dt) = spec_step_resources(*old(self), now);
            assert(m1 == WorldModel { elapsed: elapsed, dt: dt, ..old(self).world.model() });
            assert(final(self).world.pending@ =~= Seq::<Entity>::empty());
            assert(final(self).world.model() =~= spec_step_model(*old(self), now));
        }
    }
}

/// The simulation's schedule: reset the shared field, rebuild it from the
/// agents, then integrate agent positions, each step after its
/// dependencies.
pub fn default_schedule() -> (r: Dispatcher)
    ensures
        r.wf(),
        default_schedule_shape(r.systems()),
{
    proof {
        reveal_strlit("reset_shared");
        reveal_strlit("assign_densities_and_velocities");
        reveal_strlit("update_pos");
    }
    let mut builder = DispatcherBuilder::new();
    let ghost s0 = builder.systems();
    let r1 = builder.with(SystemKind::ResetShared, String::from_str("reset_shared"), Vec::new());
    if r1.is_err() {
        proof {
            assert(!has_system_named(s0, "reset_shared"@));
            assert(false);
        }
        return unreached();
    }
    proof {
        assert(builder.systems()[0].name@ == "reset_shared"@);
        assert(has_system_named(builder.systems(), "reset_shared"@));
    }
    let ghost s1 = builder.systems();
    let mut assign_deps: Vec<String> = Vec::new();
    assign_deps.push(String::from_str("reset_shared"));
    let r2 = builder.with(
        SystemKind::AssignDensitiesAndVelocities,
        String::from_str("assign_densities_and_velocities"),
        assign_deps,
    );
    if r2.is_err() {
        proof {
            assert(!has_system_named(s1, "assign_densities_and_velocities"@));
            assert(false);
        }
        return unreached();
    }
    proof {
        assert(builder.systems()[0].name@ == "reset_shared"@);
        assert(builder.systems()[1].name@ == "assign_densities_and_velocities"@);
        assert(has_system_named(builder.systems(), "assign_densities_and_velocities"@));
    }
    let mut update_deps: Vec<String> = Vec::new();
    update_deps.push(String::from_str("assign_densities_and_velocities"));
    let ghost s2 = builder.systems();
    let r3 = builder.with(SystemKind::UpdatePos, String::from_str("update_pos"), update_deps);
    if r3.is_err() {
        proof {
            assert(!has_system_named(s2, "update_pos"@));
            assert(false);
        }
        return unreached();
    }
    proof {
        assert(builder.systems()[2].name@ == "update_pos"@);
    }
    builder.build()
}

} // verus!
