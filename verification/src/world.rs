//! Entity/component store: the set of agents with their optional
//! components, the field grids, and the per-step resources. The store is
//! owned and mutated by the simulation task alone; structural changes
//! requested during a step are queued and applied by `maintain` between
//! frames.

use crate::component::Entity;
use crate::component::MAX_AGENTS;
use crate::continuum_crowds::GroupCell;
use crate::continuum_crowds::GroupGrids;
use crate::continuum_crowds::SharedCell;
use crate::continuum_crowds::SharedGrid;
use crate::resources::DurationSinceLastFrame;
use crate::resources::ElapsedFramesCount;
use vstd::prelude::*;

verus! {

/// The group grid covers a `w` by `h` window at the origin and every
/// cell's potential is zero.
pub open spec fn group_grid_fresh(g: &crate::grid::RowMajorGrid<GroupCell>, w: int, h: int) -> bool {
    &&& g.wf()
    &&& g.width() == w
    &&& g.height() == h
    &&& g.x_off() == 0
    &&& g.y_off() == 0
    &&& forall|i: int| 0 <= i < g@.len() ==> (#[trigger] g@[i]).potential == 0
}

/// Everything a system may read or write during a step.
pub struct World {
    /// The live entities, in creation order.
    pub entities: Vec<Entity>,
    /// Entities whose creation was queued during a step; `maintain` moves
    /// them into `entities`.
    pub pending: Vec<Entity>,
    /// The shared density and average-velocity field.
    pub shared_grid: SharedGrid,
    /// The per-group navigation fields.
    pub group_grids: GroupGrids,
    /// Frames elapsed since the previous step; rewritten by the simulation
    /// task at the start of every step.
    pub elapsed_frames: ElapsedFramesCount,
    /// Milliseconds elapsed since the previous frame; rewritten by the
    /// simulation task at the start of every step.
    pub duration_since_last_frame: DurationSinceLastFrame,
}

/// Ghost snapshot of the parts of the store that the per-frame systems
/// read and write; the scheduler's contract is a function over it.
#[verifier::ext_equal]
pub ghost struct WorldModel {
    pub entities: Seq<Entity>,
    pub pending: Seq<Entity>,
    pub cells: Seq<SharedCell>,
    pub width: int,
    pub height: int,
    pub x_off: int,
    pub y_off: int,
    pub elapsed: u64,
    pub dt: u64,
}

impl World {
    /// The store never exceeds the agent limit, every component is within
    /// the accumulator's safe range, and the grids are well formed.
    pub open spec fn wf(&self) -> bool {
        &&& self.entities@.len() + self.pending@.len() <= MAX_AGENTS
        &&& forall|i: int| 0 <= i < self.entities@.len() ==> (#[trigger] self.entities@[i]).bounded()
        &&& forall|i: int| 0 <= i < self.pending@.len() ==> (#[trigger] self.pending@[i]).bounded()
        &&& self.shared_grid.0.wf()
        &&& self.group_grids.0.wf()
        &&& self.group_grids.1.wf()
        &&& self.group_grids.2.wf()
        &&& self.group_grids.3.wf()
    }

    /// The snapshot the systems operate on.
    pub open spec fn model(&self) -> WorldModel {
        WorldModel {
            entities: self.entities@,
            pending: self.pending@,
            cells: self.shared_grid.0@,
            width: self.shared_grid.0.width(),
            height: self.shared_grid.0.height(),
            x_off: self.shared_grid.0.x_off(),
            y_off: self.shared_grid.0.y_off(),
            elapsed: self.elapsed_frames.0,
            dt: self.duration_since_last_frame.0,
        }
    }

    /// An empty store over freshly zeroed grids whose windows start at the
    /// origin.
    pub fn new(width: usize, height: usize) -> (r: World)
        requires
            width * height <= usize::MAX,
        ensures
            r.wf(),
            r.entities@.len() == 0,
            r.pending@.len() == 0,
            r.shared_grid.0.width() == width,
            r.shared_grid.0.height() == height,
            r.shared_grid.0.x_off() == 0,
            r.shared_grid.0.y_off() == 0,
            forall|i: int|
                0 <= i < r.shared_grid.0@.len() ==> {
                    let c = #[trigger] r.shared_grid.0@[i];
                    c.density == 0 && c.avg_velocity == (0i64, 0i64)
                },
            group_grid_fresh(&r.group_grids.0, width as int, height as int),
            group_grid_fresh(&r.group_grids.1, width as int, height as int),
            group_grid_fresh(&r.group_grids.2, width as int, height as int),
            group_grid_fresh(&r.group_grids.3, width as int, height as int),
            r.elapsed_frames.0 == 0,
            r.duration_since_last_frame.0 == 0,
    {
        World {
            entities: Vec::new(),
            pending: Vec::new(),
            shared_grid: SharedGrid(
                crate::grid::RowMajorGrid::new(width, height, SharedCell::default()),
            ),
            group_grids: GroupGrids(
                crate::grid::RowMajorGrid::new(
                    width,
                    height,
                    crate::continuum_crowds::GroupCell::default(),
                ),
                crate::grid::RowMajorGrid::new(
                    width,
                    height,
                    crate::continuum_crowds::GroupCell::default(),
                ),
                crate::grid::RowMajorGrid::new(
                    width,
                    height,
                    crate::continuum_crowds::GroupCell::default(),
                ),
                crate::grid::RowMajorGrid::new(
                    width,
                    height,
                    crate::continuum_crowds::GroupCell::default(),
                ),
            ),
            elapsed_frames: ElapsedFramesCount(0),
            duration_since_last_frame: DurationSinceLastFrame(0),
        }
    }

    /// Adds an entity to the live set at world initialization. Returns
    /// whether the store had room for it; a full store is left unchanged.
    pub fn create_entity(&mut self, e: Entity) -> (r: bool)
        requires
            old(self).wf(),
            e.bounded(),
        ensures
            final(self).wf(),
            r == (old(self).entities@.len() + old(self).pending@.len() < MAX_AGENTS),
            if r {
                final(self).entities@ == old(self).entities@.push(e)
            } else {
                final(self).entities@ == old(self).entities@
            },
            final(self).pending@ == old(self).pending@,
            final(self).shared_grid == old(self).shared_grid,
            final(self).group_grids == old(self).group_grids,
            final(self).elapsed_frames == old(self).elapsed_frames,
            final(self).duration_since_last_frame == old(self).duration_since_last_frame,
    {
        if self.entities.len() < MAX_AGENTS && self.pending.len() <= MAX_AGENTS
            - self.entities.len() - 1 {
            self.entities.push(e);
            true
        } else {
            false
        }
    }

    /// Queues an entity creation to be applied between frames by
    /// `maintain`. Returns whether the store had room for it.
    pub fn queue_entity(&mut self, e: Entity) -> (r: bool)
        requires
            old(self).wf(),
            e.bounded(),
        ensures
            final(self).wf(),
            r == (old(self).entities@.len() + old(self).pending@.len() < MAX_AGENTS),
            if r {
                final(self).pending@ == old(self).pending@.push(e)
            } else {
                final(self).pending@ == old(self).pending@
            },
            final(self).entities@ == old(self).entities@,
            final(self).shared_grid == old(self).shared_grid,
            final(self).group_grids == old(self).group_grids,
            final(self).elapsed_frames == old(self).elapsed_frames,
            final(self).duration_since_last_frame == old(self).duration_since_last_frame,
    {
        if self.pending.len() < MAX_AGENTS && self.entities.len() <= MAX_AGENTS - self.pending.len()
            - 1 {
            self.pending.push(e);
            true
        } else {
            false
        }
    }

    /// Applies the queued structural changes: every pending entity joins
    /// the live set, in the order it was queued.
    pub fn maintain(&mut self)
        requires
            old(self).wf(),
        ensures
            final(self).wf(),
            final(self).entities@ == old(self).entities@ + old(self).pending@,
            final(self).pending@.len() == 0,
            final(self).shared_grid == old(self).shared_grid,
            final(self).group_grids == old(self).group_grids,
            final(self).elapsed_frames == old(self).elapsed_frames,
            final(self).duration_since_last_frame == old(self).duration_since_last_frame,
    {
        let mut incoming: Vec<Entity> = Vec::new();
        std::mem::swap(&mut incoming, &mut self.pending);
        self.entities.append(&mut incoming);
    }
}

} // verus!
