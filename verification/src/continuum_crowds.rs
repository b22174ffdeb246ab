//! Density and velocity fields in the style of continuum-crowds navigation:
//! each frame the shared grid is rebuilt from scratch by splatting every
//! agent's density and velocity onto the four cells whose centers surround
//! it, then dividing each cell's accumulated velocity by its accumulated
//! density.
//!
//! All quantities are signed fixed-point integers with `SCALE` units per
//! cell width: a lone agent sitting exactly on a cell center contributes a
//! density of exactly `SCALE` to that cell and nothing anywhere else. A
//! cell's weight is the smaller of its two axis weights, the linear
//! falloff that a unit density exponent gives; larger exponents, which
//! would concentrate an agent's weight onto its nearest cell, are not
//! modelled here.

use crate::component::Entity;
use crate::component::Position;
use crate::component::COORD_LIMIT;
use crate::component::HALF_SCALE;
use crate::component::MAX_AGENTS;
use crate::component::SCALE;
use crate::grid::position_at;
use crate::grid::RowMajorGrid;
use vstd::arithmetic::div_mod::lemma_fundamental_div_mod_converse_div;
use vstd::arithmetic::div_mod::lemma_fundamental_div_mod_converse_mod;
use vstd::math::min;
use vstd::prelude::*;

verus! {

/// Width of the grids a simulation starts with, in cells.
pub const GRID_WIDTH: usize = 8;

/// Height of the grids a simulation starts with, in cells.
pub const GRID_HEIGHT: usize = 8;

/// Per-cell record of one directional face of a shared cell.
#[derive(Clone, Copy, Debug)]
pub struct SharedCellFace {
    /// Only set to zero for now.
    pub height_gradient: i64,
}

/// Per-cell aggregate of the field shared by every agent group.
#[derive(Clone, Copy, Debug)]
pub struct SharedCell {
    /// Accumulated agent density; `SCALE` is one agent's full weight.
    pub density: i64,
    /// Only set to zero for now.
    pub height: i64,
    /// Designer-placed discomfort of the cell.
    pub discomfort: i64,
    /// Average velocity of the agents weighted into the cell; meaningful
    /// only while `density` is positive, zero otherwise.
    pub avg_velocity: (i64, i64),
    pub east_face: SharedCellFace,
    pub north_face: SharedCellFace,
    pub west_face: SharedCellFace,
    pub south_face: SharedCellFace,
}

/// Per-cell record of one directional face of a group cell.
#[derive(Clone, Copy, Debug)]
pub struct GroupCellFace {}

/// Per-cell state of one agent group's navigation field.
#[derive(Clone, Copy, Debug)]
pub struct GroupCell {
    pub potential: i64,
    pub east_face: GroupCellFace,
    pub north_face: GroupCellFace,
    pub west_face: GroupCellFace,
    pub south_face: GroupCellFace,
}

impl Default for SharedCellFace {
    fn default() -> (r: SharedCellFace)
        ensures
            r.height_gradient == 0,
    {
        SharedCellFace { height_gradient: 0 }
    }
}

impl Default for SharedCell {
    fn default() -> (r: SharedCell)
        ensures
            r.density == 0,
            r.height == 0,
            r.discomfort == 0,
            r.avg_velocity == (0i64, 0i64),
            r.east_face.height_gradient == 0,
            r.north_face.height_gradient == 0,
            r.west_face.height_gradient == 0,
            r.south_face.height_gradient == 0,
    {
        SharedCell {
            density: 0,
            height: 0,
            discomfort: 0,
            avg_velocity: (0, 0),
            east_face: SharedCellFace { height_gradient: 0 },
            north_face: SharedCellFace { height_gradient: 0 },
            west_face: SharedCellFace { height_gradient: 0 },
            south_face: SharedCellFace { height_gradient: 0 },
        }
    }
}

impl Default for GroupCellFace {
    fn default() -> (r: GroupCellFace) {
        GroupCellFace {  }
    }
}

impl Default for GroupCell {
    fn default() -> (r: GroupCell)
        ensures
            r.potential == 0,
    {
        GroupCell {
            potential: 0,
            east_face: GroupCellFace {  },
            north_face: GroupCellFace {  },
            west_face: GroupCellFace {  },
            south_face: GroupCellFace {  },
        }
    }
}

/// The density and average-velocity field shared by every agent group.
#[derive(Debug)]
pub struct SharedGrid(pub RowMajorGrid<SharedCell>);

/// One navigation field per agent group.
#[derive(Debug)]
pub struct GroupGrids(
    pub RowMajorGrid<GroupCell>,
    pub RowMajorGrid<GroupCell>,
    pub RowMajorGrid<GroupCell>,
    pub RowMajorGrid<GroupCell>,
);

/// The grids a simulation starts with: one shared field and four group
/// fields, every cell zeroed, windows at the origin.
pub fn init() -> (r: (SharedGrid, GroupGrids))
    ensures
        r.0.0.wf(),
        r.0.0.width() == GRID_WIDTH,
        r.0.0.height() == GRID_HEIGHT,
        r.0.0.x_off() == 0,
        r.0.0.y_off() == 0,
        forall|i: int|
            0 <= i < r.0.0@.len() ==> (#[trigger] r.0.0@[i]).density == 0 && r.0.0@[i].avg_velocity
                == (0i64, 0i64),
        crate::world::group_grid_fresh(&r.1.0, GRID_WIDTH as int, GRID_HEIGHT as int),
        crate::world::group_grid_fresh(&r.1.1, GRID_WIDTH as int, GRID_HEIGHT as int),
        crate::world::group_grid_fresh(&r.1.2, GRID_WIDTH as int, GRID_HEIGHT as int),
        crate::world::group_grid_fresh(&r.1.3, GRID_WIDTH as int, GRID_HEIGHT as int),
{
    let shared_grid = SharedGrid(RowMajorGrid::new(GRID_WIDTH, GRID_HEIGHT, SharedCell::default()));
    let group_a_grid = RowMajorGrid::new(GRID_WIDTH, GRID_HEIGHT, GroupCell::default());
    let group_b_grid = RowMajorGrid::new(GRID_WIDTH, GRID_HEIGHT, GroupCell::default());
    let group_c_grid = RowMajorGrid::new(GRID_WIDTH, GRID_HEIGHT, GroupCell::default());
    let group_d_grid = RowMajorGrid::new(GRID_WIDTH, GRID_HEIGHT, GroupCell::default());
    (shared_grid, GroupGrids(group_a_grid, group_b_grid, group_c_grid, group_d_grid))
}

/// Index of the cell column whose center lies nearest at or below the
/// fixed-point coordinate `p`: cell `k`'s center sits at `k * SCALE +
/// HALF_SCALE`.
pub open spec fn anchor(p: int) -> int {
    (p + HALF_SCALE) / (SCALE as int)
}

/// Fixed-point offset of the coordinate `p` from the center of its anchor
/// cell, in `[0, SCALE)`.
pub open spec fn frac(p: int) -> int {
    (p + HALF_SCALE) % (SCALE as int)
}

/// Interpolation weight with which an agent at the fixed-point position
/// `(px, py)` contributes to the cell `(cx, cy)`: each of the four cells
/// whose centers surround the agent receives the smaller of its two axis
/// weights, and every other cell receives nothing.
pub open spec fn splat_weight(px: int, py: int, cx: int, cy: int) -> int {
    let kx = anchor(px);
    let ky = anchor(py);
    let dx = frac(px);
    let dy = frac(py);
    let s = SCALE as int;
    if cx == kx - 1 && cy == ky - 1 {
        min(s - dx, s - dy)
    } else if cx == kx && cy == ky - 1 {
        min(dx, s - dy)
    } else if cx == kx && cy == ky {
        min(dx, dy)
    } else if cx == kx - 1 && cy == ky {
        min(s - dx, dy)
    } else {
        0
    }
}

/// Density the entity contributes to the cell `(cx, cy)`: its splat weight
/// when it carries both a position and a velocity, nothing otherwise.
pub open spec fn ent_weight(e: Entity, cx: int, cy: int) -> int {
    match (e.position, e.velocity) {
        (Some(p), Some(v)) => splat_weight(p.x as int, p.y as int, cx, cy),
        _ => 0,
    }
}

/// x component of the weighted velocity the entity contributes to the cell
/// `(cx, cy)`.
pub open spec fn ent_wvel_x(e: Entity, cx: int, cy: int) -> int {
    match (e.position, e.velocity) {
        (Some(p), Some(v)) => splat_weight(p.x as int, p.y as int, cx, cy) * v.x,
        _ => 0,
    }
}

/// y component of the weighted velocity the entity contributes to the cell
/// `(cx, cy)`.
pub open spec fn ent_wvel_y(e: Entity, cx: int, cy: int) -> int {
    match (e.position, e.velocity) {
        (Some(p), Some(v)) => splat_weight(p.x as int, p.y as int, cx, cy) * v.y,
        _ => 0,
    }
}

/// Total density the entities contribute to the cell `(cx, cy)`.
pub open spec fn total_density(ents: Seq<Entity>, cx: int, cy: int) -> int
    decreases ents.len(),
{
    if ents.len() == 0 {
        0
    } else {
        total_density(ents.drop_last(), cx, cy) + ent_weight(ents.last(), cx, cy)
    }
}

/// Total x component of the weighted velocity the entities contribute to
/// the cell `(cx, cy)`.
pub open spec fn total_wvel_x(ents: Seq<Entity>, cx: int, cy: int) -> int
    decreases ents.len(),
{
    if ents.len() == 0 {
        0
    } else {
        total_wvel_x(ents.drop_last(), cx, cy) + ent_wvel_x(ents.last(), cx, cy)
    }
}

/// Total y component of the weighted velocity the entities contribute to
/// the cell `(cx, cy)`.
pub open spec fn total_wvel_y(ents: Seq<Entity>, cx: int, cy: int) -> int
    decreases ents.len(),
{
    if ents.len() == 0 {
        0
    } else {
        total_wvel_y(ents.drop_last(), cx, cy) + ent_wvel_y(ents.last(), cx, cy)
    }
}

/// Quotient of `a` by a positive `b`, rounded toward zero.
pub open spec fn div_toward_zero(a: int, b: int) -> int {
    if a >= 0 {
        a / b
    } else {
        -((-a) / b)
    }
}

/// `density` and `avg_velocity` cleared, every other field kept.
pub open spec fn reset_cell(c: SharedCell) -> SharedCell {
    SharedCell { density: 0, avg_velocity: (0, 0), ..c }
}

/// The two fields the accumulator never touches are the same in both cells.
pub open spec fn statics_eq(a: SharedCell, b: SharedCell) -> bool {
    &&& a.height == b.height
    &&& a.discomfort == b.discomfort
    &&& a.east_face == b.east_face
    &&& a.north_face == b.north_face
    &&& a.west_face == b.west_face
    &&& a.south_face == b.south_face
}

/// The smaller of two fixed-point values.
fn min_i64(a: i64, b: i64) -> (r: i64)
    ensures
        r == min(a as int, b as int),
{
    if a < b {
        a
    } else {
        b
    }
}

/// Euclidean quotient and remainder of `t` by `SCALE`: the anchor cell and
/// fractional offset of a fixed-point coordinate already shifted by half a
/// cell.
fn divmod_scale(t: i64) -> (r: (i64, i64))
    requires
        -0x7FFF_FFFF_FFFF_F000 <= t <= 0x7FFF_FFFF_FFFF_F000,
    ensures
        r.0 == (t as int) / (SCALE as int),
        r.1 == (t as int) % (SCALE as int),
        0 <= r.1 < SCALE,
{
    proof {
        vstd::arithmetic::div_mod::lemma_mod_bound(t as int, SCALE as int);
    }
    if t >= 0 {
        let q = ((t as u64) / (SCALE as u64)) as i64;
        let m = ((t as u64) % (SCALE as u64)) as i64;
        (q, m)
    } else {
        let n = (-t) as u64;
        let q = (n / (SCALE as u64)) as i64;
        let m = (n % (SCALE as u64)) as i64;
        proof {
            vstd::arithmetic::div_mod::lemma_fundamental_div_mod(n as int, SCALE as int);
            vstd::arithmetic::div_mod::lemma_mod_bound(n as int, SCALE as int);
            vstd::arithmetic::div_mod::lemma_div_pos_is_pos(n as int, SCALE as int);
            vstd::arithmetic::div_mod::lemma_div_nonincreasing(n as int, SCALE as int);
            assert((SCALE as int) * ((n as int) / (SCALE as int)) == ((n as int) / (SCALE as int))
                * (SCALE as int)) by (nonlinear_arith);
        }
        if m == 0 {
            proof {
                assert((-q) * (SCALE as int) + 0 == t) by (nonlinear_arith)
                    requires
                        (n as int) == q * (SCALE as int) + m,
                        m == 0,
                        (n as int) == -(t as int),
                ;
                lemma_fundamental_div_mod_converse_div(t as int, SCALE as int, -q, 0);
                lemma_fundamental_div_mod_converse_mod(t as int, SCALE as int, -q, 0);
            }
            (-q, 0)
        } else {
            proof {
                assert((-q - 1) * (SCALE as int) + (SCALE - m) == t) by (nonlinear_arith)
                    requires
                        (n as int) == q * (SCALE as int) + m,
                        (n as int) == -(t as int),
                ;
                lemma_fundamental_div_mod_converse_div(t as int, SCALE as int, -q - 1, SCALE - m);
                lemma_fundamental_div_mod_converse_mod(t as int, SCALE as int, -q - 1, SCALE - m);
            }
            (-q - 1, SCALE - m)
        }
    }
}

/// Quotient of `a` by a positive `b`, rounded toward zero.
pub(crate) fn div_trunc(a: i64, b: i64) -> (r: i64)
    requires
        b > 0,
        a > i64::MIN,
    ensures
        r == div_toward_zero(a as int, b as int),
{
    if a >= 0 {
        proof {
            vstd::arithmetic::div_mod::lemma_div_pos_is_pos(a as int, b as int);
            vstd::arithmetic::div_mod::lemma_div_nonincreasing(a as int, b as int);
        }
        ((a as u64) / (b as u64)) as i64
    } else {
        let n = (-a) as u64;
        proof {
            vstd::arithmetic::div_mod::lemma_div_pos_is_pos(n as int, b as int);
            vstd::arithmetic::div_mod::lemma_div_nonincreasing(n as int, b as int);
        }
        -((n / (b as u64)) as i64)
    }
}

/// Splat weights are never negative and never exceed one agent's full
/// weight.
pub proof fn lemma_splat_weight_bounds(px: int, py: int, cx: int, cy: int)
    ensures
        0 <= splat_weight(px, py, cx, cy) <= SCALE,
{
    vstd::arithmetic::div_mod::lemma_mod_bound(px + HALF_SCALE, SCALE as int);
    vstd::arithmetic::div_mod::lemma_mod_bound(py + HALF_SCALE, SCALE as int);
}

/// Entity contributions are bounded: at most one agent's full weight of
/// density, and a weighted velocity of at most `SCALE * COORD_LIMIT` in
/// magnitude.
pub proof fn lemma_ent_bounds(e: Entity, cx: int, cy: int)
    requires
        e.bounded(),
    ensures
        0 <= ent_weight(e, cx, cy) <= SCALE,
        -(SCALE * COORD_LIMIT) <= ent_wvel_x(e, cx, cy) <= SCALE * COORD_LIMIT,
        -(SCALE * COORD_LIMIT) <= ent_wvel_y(e, cx, cy) <= SCALE * COORD_LIMIT,
{
    match (e.position, e.velocity) {
        (Some(p), Some(v)) => {
            lemma_splat_weight_bounds(p.x as int, p.y as int, cx, cy);
            let w = splat_weight(p.x as int, p.y as int, cx, cy);
            assert(-(SCALE * COORD_LIMIT) <= w * v.x <= SCALE * COORD_LIMIT) by (nonlinear_arith)
                requires
                    0 <= w <= SCALE,
                    -COORD_LIMIT <= v.x <= COORD_LIMIT,
                    SCALE > 0,
                    COORD_LIMIT > 0,
            ;
            assert(-(SCALE * COORD_LIMIT) <= w * v.y <= SCALE * COORD_LIMIT) by (nonlinear_arith)
                requires
                    0 <= w <= SCALE,
                    -COORD_LIMIT <= v.y <= COORD_LIMIT,
                    SCALE > 0,
                    COORD_LIMIT > 0,
            ;
        },
        _ => {},
    }
}

/// Totals over bounded entities grow at most linearly: after `n` entities
/// the density lies in `[0, n * SCALE]` and each weighted-velocity
/// component within `n * SCALE * COORD_LIMIT` of zero.
pub proof fn lemma_total_bounds(ents: Seq<Entity>, cx: int, cy: int)
    requires
        forall|i: int| 0 <= i < ents.len() ==> (#[trigger] ents[i]).bounded(),
    ensures
        0 <= total_density(ents, cx, cy) <= ents.len() * SCALE,
        -(ents.len() * SCALE * COORD_LIMIT) <= total_wvel_x(ents, cx, cy) <= ents.len() * SCALE
            * COORD_LIMIT,
        -(ents.len() * SCALE * COORD_LIMIT) <= total_wvel_y(ents, cx, cy) <= ents.len() * SCALE
            * COORD_LIMIT,
    decreases ents.len(),
{
    if ents.len() == 0 {
    } else {
        let prefix = ents.drop_last();
        let last = ents.last();
        assert(forall|i: int| 0 <= i < prefix.len() ==> (#[trigger] prefix[i]).bounded());
        lemma_total_bounds(prefix, cx, cy);
        lemma_ent_bounds(last, cx, cy);
        let n = prefix.len() as int;
        assert((n + 1) * SCALE == n * SCALE + SCALE) by (nonlinear_arith);
        assert((n + 1) * SCALE * COORD_LIMIT == n * SCALE * COORD_LIMIT + SCALE * COORD_LIMIT)
            by (nonlinear_arith);
    }
}

/// An agent standing exactly on the center of cell `(i, j)` weighs fully
/// on that cell — one whole agent's worth of density — and not at all on
/// any other cell.
pub proof fn lemma_center_splat(i: int, j: int, cx: int, cy: int)
    ensures
        splat_weight(i * SCALE + HALF_SCALE, j * SCALE + HALF_SCALE, i, j) == SCALE,
        cx != i || cy != j ==> splat_weight(
            i * SCALE + HALF_SCALE,
            j * SCALE + HALF_SCALE,
            cx,
            cy,
        ) == 0,
{
    let s = SCALE as int;
    assert((i + 1) * s == i * s + s) by (nonlinear_arith);
    assert((j + 1) * s == j * s + s) by (nonlinear_arith);
    lemma_fundamental_div_mod_converse_div(i * s + HALF_SCALE + HALF_SCALE, s, i + 1, 0);
    lemma_fundamental_div_mod_converse_mod(i * s + HALF_SCALE + HALF_SCALE, s, i + 1, 0);
    lemma_fundamental_div_mod_converse_div(j * s + HALF_SCALE + HALF_SCALE, s, j + 1, 0);
    lemma_fundamental_div_mod_converse_mod(j * s + HALF_SCALE + HALF_SCALE, s, j + 1, 0);
}

/// An agent at the exact midpoint of four cell centers splits its weight
/// evenly: each of the four surrounding cells receives exactly half an
/// agent's weight, and no other cell receives anything.
pub proof fn lemma_midpoint_splat(i: int, j: int)
    ensures
        splat_weight(i * SCALE, j * SCALE, i - 1, j - 1) == HALF_SCALE,
        splat_weight(i * SCALE, j * SCALE, i, j - 1) == HALF_SCALE,
        splat_weight(i * SCALE, j * SCALE, i, j) == HALF_SCALE,
        splat_weight(i * SCALE, j * SCALE, i - 1, j) == HALF_SCALE,
{
    let s = SCALE as int;
    lemma_fundamental_div_mod_converse_div(i * s + HALF_SCALE, s, i, HALF_SCALE as int);
    lemma_fundamental_div_mod_converse_mod(i * s + HALF_SCALE, s, i, HALF_SCALE as int);
    lemma_fundamental_div_mod_converse_div(j * s + HALF_SCALE, s, j, HALF_SCALE as int);
    lemma_fundamental_div_mod_converse_mod(j * s + HALF_SCALE, s, j, HALF_SCALE as int);
}

/// Density stored in the first `n` cells of a grid's storage.
pub open spec fn sum_cell_density(cells: Seq<SharedCell>, n: int) -> int
    decreases n,
{
    if n <= 0 {
        0
    } else {
        sum_cell_density(cells, n - 1) + cells[n - 1].density
    }
}

/// Density the entities lay on the first `n` ranks of a row-major walk
/// of a window `w` cells wide at `(xo, yo)`.
pub open spec fn window_density(ents: Seq<Entity>, w: int, xo: int, yo: int, n: int) -> int
    decreases n,
{
    if n <= 0 {
        0
    } else {
        let p = position_at(w, xo, yo, n - 1);
        window_density(ents, w, xo, yo, n - 1) + total_density(ents, p.0, p.1)
    }
}

/// One entity's weight summed over the first `n` ranks of the walk.
pub open spec fn ent_window_weight(e: Entity, w: int, xo: int, yo: int, n: int) -> int
    decreases n,
{
    if n <= 0 {
        0
    } else {
        let p = position_at(w, xo, yo, n - 1);
        ent_window_weight(e, w, xo, yo, n - 1) + ent_weight(e, p.0, p.1)
    }
}

/// The entities' window weights, summed agent by agent.
pub open spec fn total_window_weight(ents: Seq<Entity>, w: int, xo: int, yo: int, n: int) -> int
    decreases ents.len(),
{
    if ents.len() == 0 {
        0
    } else {
        total_window_weight(ents.drop_last(), w, xo, yo, n) + ent_window_weight(
            ents.last(),
            w,
            xo,
            yo,
            n,
        )
    }
}

/// The position stands exactly on the center of cell `(i, j)`.
pub open spec fn at_cell_center(p: Position, i: int, j: int) -> bool {
    p.x == i * SCALE + HALF_SCALE && p.y == j * SCALE + HALF_SCALE
}

/// The entity carries both components and stands on the center of some
/// cell of the `w` by `h` window at `(xo, yo)`.
pub open spec fn on_window_cell_center(e: Entity, w: int, h: int, xo: int, yo: int) -> bool {
    &&& e.velocity is Some
    &&& e.position matches Some(p) && exists|i: int, j: int|
        #[trigger] at_cell_center(p, i, j) && xo <= i < xo + w && yo <= j < yo + h
}

/// No entities lay no density anywhere.
proof fn lemma_window_density_zero(ents: Seq<Entity>, w: int, xo: int, yo: int, n: int)
    requires
        ents.len() == 0,
    ensures
        window_density(ents, w, xo, yo, n) == 0,
    decreases n,
{
    if n > 0 {
        lemma_window_density_zero(ents, w, xo, yo, n - 1);
    }
}

/// The walk's density splits off the last entity's window weight.
proof fn lemma_window_density_split(ents: Seq<Entity>, w: int, xo: int, yo: int, n: int)
    requires
        ents.len() > 0,
    ensures
        window_density(ents, w, xo, yo, n) == window_density(ents.drop_last(), w, xo, yo, n)
            + ent_window_weight(ents.last(), w, xo, yo, n),
    decreases n,
{
    if n > 0 {
        lemma_window_density_split(ents, w, xo, yo, n - 1);
    }
}

/// No mass is lost or duplicated: the density summed over the first `n`
/// ranks of the walk is the sum over the agents of each agent's weight on
/// those ranks.
pub proof fn lemma_mass_conservation(ents: Seq<Entity>, w: int, xo: int, yo: int, n: int)
    ensures
        window_density(ents, w, xo, yo, n) == total_window_weight(ents, w, xo, yo, n),
    decreases ents.len(),
{
    if ents.len() == 0 {
        lemma_window_density_zero(ents, w, xo, yo, n);
    } else {
        lemma_mass_conservation(ents.drop_last(), w, xo, yo, n);
        lemma_window_density_split(ents, w, xo, yo, n);
    }
}

/// A centered agent's weight over a prefix of the walk: one full weight
/// once the walk has passed the agent's cell, nothing before.
proof fn lemma_centered_weight_prefix(
    e: Entity,
    w: int,
    h: int,
    xo: int,
    yo: int,
    i: int,
    j: int,
    n: int,
)
    requires
        0 < w,
        0 <= h,
        e.position matches Some(p) && at_cell_center(p, i, j),
        e.velocity is Some,
        xo <= i < xo + w,
        yo <= j < yo + h,
        0 <= n <= w * h,
    ensures
        ent_window_weight(e, w, xo, yo, n) == if (j - yo) * w + (i - xo) < n {
            SCALE as int
        } else {
            0
        },
    decreases n,
{
    let k0 = (j - yo) * w + (i - xo);
    assert(0 <= k0 < w * h) by (nonlinear_arith)
        requires
            0 <= i - xo < w,
            0 <= j - yo < h,
            k0 == (j - yo) * w + (i - xo),
    ;
    if n > 0 {
        lemma_centered_weight_prefix(e, w, h, xo, yo, i, j, n - 1);
        let p = position_at(w, xo, yo, n - 1);
        let pos = e.position->Some_0;
        lemma_center_splat(i, j, p.0, p.1);
        crate::grid::lemma_rank_roundtrip(w, h, xo, yo, n - 1);
        crate::grid::lemma_rank_roundtrip(w, h, xo, yo, k0);
        let p0 = position_at(w, xo, yo, k0);
        assert(p0.0 == i && p0.1 == j) by (nonlinear_arith)
            requires
                (p0.1 - yo) * w + (p0.0 - xo) == k0,
                k0 == (j - yo) * w + (i - xo),
                0 <= p0.0 - xo < w,
                0 <= i - xo < w,
                0 <= p0.1 - yo,
                0 <= j - yo,
        ;
        if p.0 == i && p.1 == j {
            assert(n - 1 == k0);
            assert(ent_weight(e, p.0, p.1) == SCALE);
        } else {
            assert(ent_weight(e, p.0, p.1) == 0);
        }
    }
}

/// Centered agents weigh one full agent each on the whole window.
proof fn lemma_total_window_weight_centered(
    ents: Seq<Entity>,
    w: int,
    h: int,
    xo: int,
    yo: int,
)
    requires
        0 < w,
        0 <= h,
        forall|t: int|
            0 <= t < ents.len() ==> on_window_cell_center(#[trigger] ents[t], w, h, xo, yo),
    ensures
        total_window_weight(ents, w, xo, yo, w * h) == ents.len() * SCALE,
    decreases ents.len(),
{
    if ents.len() > 0 {
        let prefix = ents.drop_last();
        assert(forall|t: int|
            0 <= t < prefix.len() ==> on_window_cell_center(#[trigger] prefix[t], w, h, xo, yo));
        lemma_total_window_weight_centered(prefix, w, h, xo, yo);
        let e = ents.last();
        assert(on_window_cell_center(e, w, h, xo, yo));
        let pos = e.position->Some_0;
        let (i, j) = choose|i: int, j: int|
            #[trigger] at_cell_center(pos, i, j) && xo <= i < xo + w && yo <= j < yo + h;
        lemma_centered_weight_prefix(e, w, h, xo, yo, i, j, w * h);
        assert((j - yo) * w + (i - xo) < w * h) by (nonlinear_arith)
            requires
                0 <= i - xo < w,
                0 <= j - yo < h,
        ;
        assert((prefix.len() + 1) * SCALE == prefix.len() * SCALE + SCALE) by (nonlinear_arith);
    }
}

/// When every in-window cell holds the entities' total density there, the
/// density stored in the first `n` cells equals the density the entities
/// lay on the first `n` ranks of the walk.
proof fn lemma_grid_walk_mass(g: &RowMajorGrid<SharedCell>, ents: Seq<Entity>, n: int)
    requires
        g.wf(),
        0 < g.width(),
        forall|x: int, y: int|
            g.spec_in_bounds(x, y) ==> (#[trigger] g.cell_at(x, y)).density == total_density(
                ents,
                x,
                y,
            ),
        0 <= n <= g@.len(),
    ensures
        sum_cell_density(g@, n) == window_density(ents, g.width(), g.x_off(), g.y_off(), n),
    decreases n,
{
    if n > 0 {
        lemma_grid_walk_mass(g, ents, n - 1);
        crate::grid::lemma_rank_roundtrip(g.width(), g.height(), g.x_off(), g.y_off(), n - 1);
        let p = position_at(g.width(), g.x_off(), g.y_off(), n - 1);
        assert(g.cell_at(p.0, p.1) == g@[n - 1]);
    }
}

/// After the accumulator rebuilds the field from agents that all stand on
/// in-window cell centers, the density summed over the whole grid is
/// exactly one full agent weight per agent: the grid total equals the sum
/// of the individual contributions, and none is lost or duplicated.
pub proof fn lemma_total_mass_of_centered_agents(g: &RowMajorGrid<SharedCell>, ents: Seq<Entity>)
    requires
        g.wf(),
        0 < g.width(),
        forall|x: int, y: int|
            g.spec_in_bounds(x, y) ==> (#[trigger] g.cell_at(x, y)).density == total_density(
                ents,
                x,
                y,
            ),
        forall|t: int|
            0 <= t < ents.len() ==> on_window_cell_center(
                #[trigger] ents[t],
                g.width(),
                g.height(),
                g.x_off(),
                g.y_off(),
            ),
    ensures
        sum_cell_density(g@, g@.len() as int) == ents.len() * SCALE,
{
    let n = g@.len() as int;
    lemma_grid_walk_mass(g, ents, n);
    lemma_mass_conservation(ents, g.width(), g.x_off(), g.y_off(), n);
    lemma_total_window_weight_centered(ents, g.width(), g.height(), g.x_off(), g.y_off());
}

/// Appending one entity to a prefix adds exactly that entity's
/// contribution to every total.
pub proof fn lemma_total_push(ents: Seq<Entity>, i: int, cx: int, cy: int)
    requires
        0 <= i < ents.len(),
    ensures
        total_density(ents.take(i + 1), cx, cy) == total_density(ents.take(i), cx, cy)
            + ent_weight(ents[i], cx, cy),
        total_wvel_x(ents.take(i + 1), cx, cy) == total_wvel_x(ents.take(i), cx, cy) + ent_wvel_x(
            ents[i],
            cx,
            cy,
        ),
        total_wvel_y(ents.take(i + 1), cx, cy) == total_wvel_y(ents.take(i), cx, cy) + ent_wvel_y(
            ents[i],
            cx,
            cy,
        ),
{
    assert(ents.take(i + 1).drop_last() =~= ents.take(i));
    assert(ents.take(i + 1).last() == ents[i]);
}

/// System that clears the shared grid's accumulated fields: every cell's
/// density and average velocity are reset to zero and every other field is
/// kept, so the accumulator can rebuild the field from scratch.
pub struct ResetShared;

impl ResetShared {
    /// Runs the reset pass over the whole shared grid.
    pub fn run(grid: &mut SharedGrid)
        requires
            old(grid).0.wf(),
        ensures
            final(grid).0.wf(),
            final(grid).0.same_window(&old(grid).0),
            final(grid).0@.len() == old(grid).0@.len(),
            forall|i: int|
                0 <= i < old(grid).0@.len() ==> final(grid).0@[i] == reset_cell(
                    #[trigger] old(grid).0@[i],
                ),
    {
        let mut it = grid.0.position_iter();
        loop
            invariant
                grid.0.wf(),
                it.wf(),
                it.window_of(grid.0.width(), grid.0.height(), grid.0.x_off(), grid.0.y_off()),
                grid.0.same_window(&old(grid).0),
                grid.0@.len() == old(grid).0@.len(),
                it.emitted() <= grid.0@.len(),
                forall|j: int|
                    0 <= j < it.emitted() ==> grid.0@[j] == reset_cell(#[trigger] old(grid).0@[j]),
                forall|j: int|
                    it.emitted() <= j < grid.0@.len() ==> grid.0@[j] == #[trigger] old(grid).0@[j],
            ensures
                grid.0.wf(),
                grid.0.same_window(&old(grid).0),
                grid.0@.len() == old(grid).0@.len(),
                forall|j: int|
                    0 <= j < grid.0@.len() ==> grid.0@[j] == reset_cell(#[trigger] old(grid).0@[j]),
            decreases grid.0@.len() - it.emitted(),
        {
            proof {
                if it.emitted() < grid.0.width() * grid.0.height() {
                    assert(0 < grid.0.width()) by (nonlinear_arith)
                        requires
                            0 <= it.emitted() < grid.0.width() * grid.0.height(),
                            0 <= grid.0.height(),
                    ;
                    crate::grid::lemma_rank_roundtrip(
                        grid.0.width(),
                        grid.0.height(),
                        grid.0.x_off(),
                        grid.0.y_off(),
                        it.emitted(),
                    );
                }
            }
            match it.next() {
                Some((x, y)) => {
                    if let Some(c) = grid.0.get(x, y) {
                        let mut cell = *c;
                        cell.density = 0;
                        cell.avg_velocity = (0, 0);
                        grid.0.set(x, y, cell);
                    }
                },
                None => {
                    break ;
                },
            }
        }
    }
}

/// Adds a weighted contribution to the candidate corner cell `(cx, cy)`:
/// in-window cells accumulate the weight into their density and the
/// weighted velocity into their velocity sum; a candidate outside the
/// window is skipped, and every other cell is untouched.
fn splat_into(grid: &mut SharedGrid, cx: i64, cy: i64, w: i64, vx: i64, vy: i64)
    requires
        old(grid).0.wf(),
        0 <= w <= SCALE,
        -COORD_LIMIT <= vx <= COORD_LIMIT,
        -COORD_LIMIT <= vy <= COORD_LIMIT,
        old(grid).0.spec_in_bounds(cx as int, cy as int) ==> ({
            let c = old(grid).0.cell_at(cx as int, cy as int);
            &&& c.density + w <= i64::MAX
            &&& i64::MIN <= c.avg_velocity.0 + w * vx <= i64::MAX
            &&& i64::MIN <= c.avg_velocity.1 + w * vy <= i64::MAX
        }),
    ensures
        final(grid).0.wf(),
        final(grid).0.same_window(&old(grid).0),
        final(grid).0@.len() == old(grid).0@.len(),
        forall|x: int, y: int|
            old(grid).0.spec_in_bounds(x, y) ==> {
                let c0 = old(grid).0.cell_at(x, y);
                let c1 = #[trigger] final(grid).0.cell_at(x, y);
                if x == cx && y == cy {
                    &&& c1.density == c0.density + w
                    &&& c1.avg_velocity.0 == c0.avg_velocity.0 + w * vx
                    &&& c1.avg_velocity.1 == c0.avg_velocity.1 + w * vy
                    &&& statics_eq(c1, c0)
                } else {
                    c1 == c0
                }
            },
{
    if cx >= 0 && cy >= 0 && (cx as u64) <= (usize::MAX as u64) && (cy as u64) <= (
    usize::MAX as u64) {
        // a candidate past the machine word cannot be in any window

        let ux = cx as usize;
        let uy = cy as usize;
        if let Some(c) = grid.0.get(ux, uy) {
            proof {
                grid.0.lemma_index_of_in_range(cx as int, cy as int);
            }
            let mut cell = *c;
            proof {
                assert(-(SCALE * COORD_LIMIT) <= w * vx <= SCALE * COORD_LIMIT)
                    by (nonlinear_arith)
                    requires
                        0 <= w <= SCALE,
                        -COORD_LIMIT <= vx <= COORD_LIMIT,
                ;
                assert(-(SCALE * COORD_LIMIT) <= w * vy <= SCALE * COORD_LIMIT)
                    by (nonlinear_arith)
                    requires
                        0 <= w <= SCALE,
                        -COORD_LIMIT <= vy <= COORD_LIMIT,
                ;
            }
            cell.density = cell.density + w;
            cell.avg_velocity = (cell.avg_velocity.0 + w * vx, cell.avg_velocity.1 + w * vy);
            grid.0.set(ux, uy, cell);
            proof {
                assert forall|x: int, y: int|
                    old(grid).0.spec_in_bounds(x, y) && !(x == cx && y == cy) implies #[trigger] grid
                    .0.cell_at(x, y) == old(grid).0.cell_at(x, y) by {
                    grid.0.lemma_index_of_in_range(x, y);
                    if old(grid).0.index_of(x, y) == old(grid).0.index_of(cx as int, cy as int) {
                        old(grid).0.lemma_index_of_injective(x, y, cx as int, cy as int);
                    }
                }
            }
        }
    }
}

/// Numeric room: the running totals of at most `MAX_AGENTS` agents stay
/// far away from the edges of a 64-bit word.
proof fn lemma_partial_sum_bounds(n: int)
    requires
        0 <= n <= MAX_AGENTS,
    ensures
        n * SCALE <= 0x100_0000_0000,
        n * SCALE * COORD_LIMIT <= 0x1000_0000_0000_0000,
{
    assert(n * SCALE <= 0x100_0000_0000 && n * SCALE * COORD_LIMIT <= 0x1000_0000_0000_0000)
        by (nonlinear_arith)
        requires
            0 <= n <= MAX_AGENTS,
    ;
}

/// A weighted velocity component never exceeds `SCALE * COORD_LIMIT` in
/// magnitude.
proof fn lemma_wv_bound(w: int, v: int)
    requires
        0 <= w <= SCALE,
        -COORD_LIMIT <= v <= COORD_LIMIT,
    ensures
        -(SCALE * COORD_LIMIT) <= w * v <= SCALE * COORD_LIMIT,
{
    assert(-(SCALE * COORD_LIMIT) <= w * v <= SCALE * COORD_LIMIT) by (nonlinear_arith)
        requires
            0 <= w <= SCALE,
            -COORD_LIMIT <= v <= COORD_LIMIT,
    ;
}

/// Splats one entity onto the four cells whose centers surround it: each
/// corner cell that exists within the window accumulates the entity's
/// weight into its density and the entity's weighted velocity into its
/// velocity sum. An entity missing either component contributes nothing.
fn splat_entity(grid: &mut SharedGrid, e: &Entity)
    requires
        old(grid).0.wf(),
        e.bounded(),
        forall|x: int, y: int|
            old(grid).0.spec_in_bounds(x, y) ==> ({
                let c = #[trigger] old(grid).0.cell_at(x, y);
                &&& c.density + SCALE <= i64::MAX
                &&& i64::MIN + SCALE * COORD_LIMIT <= c.avg_velocity.0 <= i64::MAX - SCALE
                    * COORD_LIMIT
                &&& i64::MIN + SCALE * COORD_LIMIT <= c.avg_velocity.1 <= i64::MAX - SCALE
                    * COORD_LIMIT
            }),
    ensures
        final(grid).0.wf(),
        final(grid).0.same_window(&old(grid).0),
        final(grid).0@.len() == old(grid).0@.len(),
        forall|x: int, y: int|
            old(grid).0.spec_in_bounds(x, y) ==> ({
                let c0 = old(grid).0.cell_at(x, y);
                let c1 = #[trigger] final(grid).0.cell_at(x, y);
                &&& c1.density == c0.density + ent_weight(*e, x, y)
                &&& c1.avg_velocity.0 == c0.avg_velocity.0 + ent_wvel_x(*e, x, y)
                &&& c1.avg_velocity.1 == c0.avg_velocity.1 + ent_wvel_y(*e, x, y)
                &&& statics_eq(c1, c0)
            }),
{
    let (p, v) = match (e.position, e.velocity) {
        (Some(p), Some(v)) => (p, v),
        _ => {
            return ;
        },
    };
    let (kx, dx) = divmod_scale(p.x + HALF_SCALE);
    let (ky, dy) = divmod_scale(p.y + HALF_SCALE);
    let wa = min_i64(SCALE - dx, SCALE - dy);
    let wb = min_i64(dx, SCALE - dy);
    let wc = min_i64(dx, dy);
    let wd = min_i64(SCALE - dx, dy);
    proof {
        lemma_wv_bound(wa as int, v.x as int);
        lemma_wv_bound(wa as int, v.y as int);
        lemma_wv_bound(wb as int, v.x as int);
        lemma_wv_bound(wb as int, v.y as int);
        lemma_wv_bound(wc as int, v.x as int);
        lemma_wv_bound(wc as int, v.y as int);
        lemma_wv_bound(wd as int, v.x as int);
        lemma_wv_bound(wd as int, v.y as int);
    }
    let ghost g0 = *grid;
    splat_into(grid, kx - 1, ky - 1, wa, v.x, v.y);
    let ghost g1 = *grid;
    splat_into(grid, kx, ky - 1, wb, v.x, v.y);
    let ghost g2 = *grid;
    splat_into(grid, kx, ky, wc, v.x, v.y);
    let ghost g3 = *grid;
    splat_into(grid, kx - 1, ky, wd, v.x, v.y);
    proof {
        assert forall|x: int, y: int| old(grid).0.spec_in_bounds(x, y) implies ({
            let c0 = old(grid).0.cell_at(x, y);
            let c1 = #[trigger] grid.0.cell_at(x, y);
            &&& c1.density == c0.density + ent_weight(*e, x, y)
            &&& c1.avg_velocity.0 == c0.avg_velocity.0 + ent_wvel_x(*e, x, y)
            &&& c1.avg_velocity.1 == c0.avg_velocity.1 + ent_wvel_y(*e, x, y)
            &&& statics_eq(c1, c0)
        }) by {
            let c0 = g0.0.cell_at(x, y);
            let c1 = g1.0.cell_at(x, y);
            let c2 = g2.0.cell_at(x, y);
            let c3 = g3.0.cell_at(x, y);
            let c4 = grid.0.cell_at(x, y);
            assert(g0 == *old(grid));
            assert(c1.density == c0.density + (if x == kx - 1 && y == ky - 1 {
                wa as int
            } else {
                0
            }));
            assert(c2.density == c1.density + (if x == kx && y == ky - 1 {
                wb as int
            } else {
                0
            }));
            assert(c3.density == c2.density + (if x == kx && y == ky {
                wc as int
            } else {
                0
            }));
            assert(c4.density == c3.density + (if x == kx - 1 && y == ky {
                wd as int
            } else {
                0
            }));
            assert(ent_weight(*e, x, y) == splat_weight(p.x as int, p.y as int, x, y));
        }
    }
}

/// System that rebuilds the shared grid's density and average-velocity
/// field from the agents: every agent's density and velocity are splatted
/// onto the four cells around it, then each cell's velocity sum is divided
/// by its density. A cell no agent weighs on keeps a zero velocity instead
/// of dividing by zero.
pub struct AssignDensitiesAndVelocities;

impl AssignDensitiesAndVelocities {
    /// Rebuilds the field from scratch: resets every cell, splats every
    /// agent, then normalizes each cell's velocity sum by its density.
    pub fn run(grid: &mut SharedGrid, entities: &Vec<Entity>)
        requires
            old(grid).0.wf(),
            entities@.len() <= MAX_AGENTS,
            forall|i: int| 0 <= i < entities@.len() ==> (#[trigger] entities@[i]).bounded(),
        ensures
            final(grid).0.wf(),
            final(grid).0.same_window(&old(grid).0),
            final(grid).0@.len() == old(grid).0@.len(),
            forall|x: int, y: int|
                old(grid).0.spec_in_bounds(x, y) ==> ({
                    let d = total_density(entities@, x, y);
                    let c0 = old(grid).0.cell_at(x, y);
                    let c1 = #[trigger] final(grid).0.cell_at(x, y);
                    &&& c1.density == d
                    &&& c1.avg_velocity.0 == (if d > 0 {
                        div_toward_zero(total_wvel_x(entities@, x, y), d)
                    } else {
                        0
                    })
                    &&& c1.avg_velocity.1 == (if d > 0 {
                        div_toward_zero(total_wvel_y(entities@, x, y), d)
                    } else {
                        0
                    })
                    &&& statics_eq(c1, c0)
                }),
    {
        ResetShared::run(grid);
        proof {
            assert forall|x: int, y: int| old(grid).0.spec_in_bounds(x, y) implies ({
                let c = #[trigger] grid.0.cell_at(x, y);
                c.density == 0 && c.avg_velocity == (0i64, 0i64) && statics_eq(
                    c,
                    old(grid).0.cell_at(x, y),
                )
            }) by {
                old(grid).0.lemma_index_of_in_range(x, y);
                let c0 = old(grid).0.cell_at(x, y);
                let c = grid.0.cell_at(x, y);
                assert(c == reset_cell(c0));
            }
        }
        let ghost ents = entities@;
        let mut i: usize = 0;
        while i < entities.len()
            invariant
                grid.0.wf(),
                grid.0.same_window(&old(grid).0),
                grid.0@.len() == old(grid).0@.len(),
                ents == entities@,
                i <= ents.len(),
                ents.len() <= MAX_AGENTS,
                forall|j: int| 0 <= j < ents.len() ==> (#[trigger] ents[j]).bounded(),
                forall|x: int, y: int|
                    old(grid).0.spec_in_bounds(x, y) ==> ({
                        let c0 = old(grid).0.cell_at(x, y);
                        let c = #[trigger] grid.0.cell_at(x, y);
                        &&& c.density == total_density(ents.take(i as int), x, y)
                        &&& c.avg_velocity.0 == total_wvel_x(ents.take(i as int), x, y)
                        &&& c.avg_velocity.1 == total_wvel_y(ents.take(i as int), x, y)
                        &&& statics_eq(c, c0)
                    }),
            decreases ents.len() - i,
        {
            proof {
                assert forall|x: int, y: int| grid.0.spec_in_bounds(x, y) implies ({
                    let c = #[trigger] grid.0.cell_at(x, y);
                    &&& c.density + SCALE <= i64::MAX
                    &&& i64::MIN + SCALE * COORD_LIMIT <= c.avg_velocity.0 <= i64::MAX - SCALE
                        * COORD_LIMIT
                    &&& i64::MIN + SCALE * COORD_LIMIT <= c.avg_velocity.1 <= i64::MAX - SCALE
                        * COORD_LIMIT
                }) by {
                    let pre = ents.take(i as int);
                    assert(forall|j: int| 0 <= j < pre.len() ==> (#[trigger] pre[j]).bounded());
                    lemma_total_bounds(pre, x, y);
                    lemma_partial_sum_bounds(i as int);
                }
            }
            let e = &entities[i];
            splat_entity(grid, e);
            proof {
                assert forall|x: int, y: int| old(grid).0.spec_in_bounds(x, y) implies ({
                    let c = #[trigger] grid.0.cell_at(x, y);
                    &&& c.density == total_density(ents.take(i + 1), x, y)
                    &&& c.avg_velocity.0 == total_wvel_x(ents.take(i + 1), x, y)
                    &&& c.avg_velocity.1 == total_wvel_y(ents.take(i + 1), x, y)
                }) by {
                    lemma_total_push(ents, i as int, x, y);
                }
            }
            i = i + 1;
        }
        proof {
            assert(ents.take(ents.len() as int) =~= ents);
        }
        let mut it = grid.0.position_iter();
        let ghost mid = *grid;
        loop
            invariant
                grid.0.wf(),
                it.wf(),
                it.window_of(grid.0.width(), grid.0.height(), grid.0.x_off(), grid.0.y_off()),
                grid.0.same_window(&old(grid).0),
                grid.0@.len() == old(grid).0@.len(),
                it.emitted() <= grid.0@.len(),
                ents == entities@,
                ents.len() <= MAX_AGENTS,
                forall|j: int| 0 <= j < ents.len() ==> (#[trigger] ents[j]).bounded(),
                forall|x: int, y: int|
                    old(grid).0.spec_in_bounds(x, y) ==> ({
                        let d = total_density(ents, x, y);
                        let c0 = old(grid).0.cell_at(x, y);
                        let c = #[trigger] grid.0.cell_at(x, y);
                        let k = grid.0.index_of(x, y);
                        &&& c.density == d
                        &&& statics_eq(c, c0)
                        &&& if k < it.emitted() {
                            &&& c.avg_velocity.0 == (if d > 0 {
                                div_toward_zero(total_wvel_x(ents, x, y), d)
                            } else {
                                0
                            })
                            &&& c.avg_velocity.1 == (if d > 0 {
                                div_toward_zero(total_wvel_y(ents, x, y), d)
                            } else {
                                0
                            })
                        } else {
                            &&& c.avg_velocity.0 == total_wvel_x(ents, x, y)
                            &&& c.avg_velocity.1 == total_wvel_y(ents, x, y)
                        }
                    }),
            ensures
                grid.0.wf(),
                grid.0.same_window(&old(grid).0),
                grid.0@.len() == old(grid).0@.len(),
                forall|x: int, y: int|
                    old(grid).0.spec_in_bounds(x, y) ==> ({
                        let d = total_density(ents, x, y);
                        let c0 = old(grid).0.cell_at(x, y);
                        let c = #[trigger] grid.0.cell_at(x, y);
                        &&& c.density == d
                        &&& statics_eq(c, c0)
                        &&& c.avg_velocity.0 == (if d > 0 {
                            div_toward_zero(total_wvel_x(ents, x, y), d)
                        } else {
                            0
                        })
                        &&& c.avg_velocity.1 == (if d > 0 {
                            div_toward_zero(total_wvel_y(ents, x, y), d)
                        } else {
                            0
                        })
                    }),
            decreases grid.0@.len() - it.emitted(),
        {
            proof {
                if it.emitted() < grid.0.width() * grid.0.height() {
                    assert(0 < grid.0.width()) by (nonlinear_arith)
                        requires
                            0 <= it.emitted() < grid.0.width() * grid.0.height(),
                            0 <= grid.0.height(),
                    ;
                    crate::grid::lemma_rank_roundtrip(
                        grid.0.width(),
                        grid.0.height(),
                        grid.0.x_off(),
                        grid.0.y_off(),
                        it.emitted(),
                    );
                }
            }
            let ghost before = *grid;
            let ghost k = it.emitted();
            match it.next() {
                Some((x, y)) => {
                    if let Some(c) = grid.0.get(x, y) {
                        let mut cell = *c;
                        proof {
                            lemma_total_bounds(ents, x as int, y as int);
                            lemma_partial_sum_bounds(ents.len() as int);
                        }
                        if cell.density > 0 {
                            cell.avg_velocity = (
                                div_trunc(cell.avg_velocity.0, cell.density),
                                div_trunc(cell.avg_velocity.1, cell.density),
                            );
                        } else {
                            cell.avg_velocity = (0, 0);
                        }
                        grid.0.set(x, y, cell);
                        proof {
                            assert forall|x2: int, y2: int|
                                old(grid).0.spec_in_bounds(x2, y2) implies ({
                                let d = total_density(ents, x2, y2);
                                let c0 = old(grid).0.cell_at(x2, y2);
                                let c1 = #[trigger] grid.0.cell_at(x2, y2);
                                let k2 = grid.0.index_of(x2, y2);
                                &&& c1.density == d
                                &&& statics_eq(c1, c0)
                                &&& if k2 < it.emitted() {
                                    &&& c1.avg_velocity.0 == (if d > 0 {
                                        div_toward_zero(total_wvel_x(ents, x2, y2), d)
                                    } else {
                                        0
                                    })
                                    &&& c1.avg_velocity.1 == (if d > 0 {
                                        div_toward_zero(total_wvel_y(ents, x2, y2), d)
                                    } else {
                                        0
                                    })
                                } else {
                                    &&& c1.avg_velocity.0 == total_wvel_x(ents, x2, y2)
                                    &&& c1.avg_velocity.1 == total_wvel_y(ents, x2, y2)
                                }
                            }) by {
                                before.0.lemma_index_of_in_range(x2, y2);
                                let cpre = before.0.cell_at(x2, y2);
                                if before.0.index_of(x2, y2) == before.0.index_of(
                                    x as int,
                                    y as int,
                                ) {
                                    before.0.lemma_index_of_injective(x2, y2, x as int, y as int);
                                }
                            }
                        }
                    }
                },
                None => {
                    proof {
                        assert forall|x2: int, y2: int|
                            grid.0.spec_in_bounds(x2, y2) implies 0 <= #[trigger] grid.0.index_of(
                            x2,
                            y2,
                        ) < grid.0@.len() by {
                            grid.0.lemma_index_of_in_range(x2, y2);
                        }
                    }
                    break ;
                },
            }
        }
    }
}

} // verus!
