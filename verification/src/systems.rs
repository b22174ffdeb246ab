//! Per-frame systems that read and write agent components: greeting every
//! positioned agent, and integrating agent positions from their velocities
//! and the elapsed time.

use crate::component::Entity;
use crate::component::Position;
use crate::component::COORD_LIMIT;
use crate::continuum_crowds::div_toward_zero;
use crate::resources::DurationSinceLastFrame;
use std::io::Write;
use vstd::math::min;
use vstd::prelude::*;

verus! {

/// Longest stretch of time, in milliseconds, that one integration step
/// accounts for; a longer gap is treated as this long.
pub const DT_LIMIT: u64 = 0x1_0000_0000;

/// Milliseconds per second: velocities are in fixed-point cell units per
/// second.
pub const MILLIS_PER_SECOND: i64 = 1000;

/// A coordinate forced back into the store's safe range.
pub open spec fn clamp_coord(v: int) -> int {
    if v < -COORD_LIMIT {
        -COORD_LIMIT as int
    } else if v > COORD_LIMIT {
        COORD_LIMIT as int
    } else {
        v
    }
}

/// One integrated coordinate: the position moves by velocity times the
/// elapsed seconds (elapsed time capped at `DT_LIMIT`), then is clamped
/// into the store's safe range.
pub open spec fn step_coord(p: int, v: int, dt: u64) -> int {
    clamp_coord(p + div_toward_zero(v * min(dt as int, DT_LIMIT as int), MILLIS_PER_SECOND as int))
}

/// One integrated entity: an entity carrying both components moves; one
/// missing either component is untouched.
pub open spec fn step_entity(e: Entity, dt: u64) -> Entity {
    match (e.position, e.velocity) {
        (Some(p), Some(v)) => Entity {
            position: Some(
                Position {
                    x: step_coord(p.x as int, v.x as int, dt) as i64,
                    y: step_coord(p.y as int, v.y as int, dt) as i64,
                },
            ),
            velocity: e.velocity,
        },
        _ => e,
    }
}

/// An integrated entity is still bounded, and integration with a zero
/// velocity, or over zero elapsed time, moves nothing.
pub proof fn lemma_step_entity_bounded(e: Entity, dt: u64)
    requires
        e.bounded(),
    ensures
        step_entity(e, dt).bounded(),
        step_entity(e, dt).velocity == e.velocity,
        e.velocity matches Some(v) && v.x == 0 && v.y == 0 ==> step_entity(e, dt) == e,
        dt == 0 ==> step_entity(e, dt) == e,
{
    match (e.position, e.velocity) {
        (Some(p), Some(v)) => {
            let s = MILLIS_PER_SECOND as int;
            let dte = min(dt as int, DT_LIMIT as int);
            if (v.x == 0 && v.y == 0) || dt == 0 {
                assert(v.x as int * dte == 0 && v.y as int * dte == 0) by (nonlinear_arith)
                    requires
                        (v.x == 0 && v.y == 0) || dte == 0,
                ;
                vstd::arithmetic::div_mod::lemma_div_of0(s);
            }
        },
        _ => {},
    }
}

/// System that prints a greeting for every entity that carries a
/// position. The store is left untouched.
pub struct SayHello;

impl SayHello {
    /// Greets each positioned entity, in store order.
    pub fn run(entities: &Vec<Entity>) {
        let mut i: usize = 0;
        while i < entities.len()
            invariant
                i <= entities@.len(),
            decreases entities@.len() - i,
        {
            if let Some(p) = entities[i].position {
                greet(&p);
            }
            i = i + 1;
        }
    }
}

/// Relies on std::io::stdout: writes one greeting line for a position.
#[verifier::external_body]
fn greet(p: &Position) {
    let _ = writeln!(std::io::stdout(), "Hello, Position {{ x: {}, y: {} }}", p.x, p.y);
}

/// System that integrates every agent's position from its velocity and
/// the time elapsed since the previous frame.
pub struct UpdatePos;

impl UpdatePos {
    /// Moves every entity that carries both components; the others are
    /// untouched.
    pub fn run(entities: &mut Vec<Entity>, delta: &DurationSinceLastFrame)
        requires
            forall|i: int| 0 <= i < old(entities)@.len() ==> (#[trigger] old(entities)@[i]).bounded(),
        ensures
            final(entities)@.len() == old(entities)@.len(),
            forall|i: int|
                0 <= i < old(entities)@.len() ==> final(entities)@[i] == step_entity(
                    #[trigger] old(entities)@[i],
                    delta.0,
                ),
            forall|i: int| 0 <= i < final(entities)@.len() ==> (#[trigger] final(entities)@[i]).bounded(),
    {
        let dt = if delta.0 > DT_LIMIT {
            DT_LIMIT
        } else {
            delta.0
        };
        let mut i: usize = 0;
        while i < entities.len()
            invariant
                i <= entities@.len(),
                entities@.len() == old(entities)@.len(),
                dt == min(delta.0 as int, DT_LIMIT as int),
                forall|j: int|
                    0 <= j < entities@.len() ==> (#[trigger] old(entities)@[j]).bounded(),
                forall|j: int|
                    0 <= j < i ==> entities@[j] == step_entity(
                        #[trigger] old(entities)@[j],
                        delta.0,
                    ),
                forall|j: int| i <= j < entities@.len() ==> entities@[j] == old(entities)@[j],
            decreases entities@.len() - i,
        {
            let e = entities[i];
            match (e.position, e.velocity) {
                (Some(p), Some(v)) => {
                    let x = integrate_coord(p.x, v.x, dt);
                    let y = integrate_coord(p.y, v.y, dt);
                    let moved = Entity {
                        position: Some(Position { x, y }),
                        velocity: e.velocity,
                    };
                    entities.set(i, moved);
                },
                _ => {},
            }
            i = i + 1;
        }
        proof {
            assert forall|i2: int|
                0 <= i2 < final(entities)@.len() implies (#[trigger] final(entities)@[i2]).bounded()
                by {
                lemma_step_entity_bounded(old(entities)@[i2], delta.0);
            }
        }
    }
}

/// One coordinate moved by its velocity over a capped time slice, clamped
/// into the store's safe range.
fn integrate_coord(p: i64, v: i64, dt: u64) -> (r: i64)
    requires
        -COORD_LIMIT <= p <= COORD_LIMIT,
        -COORD_LIMIT <= v <= COORD_LIMIT,
        dt <= DT_LIMIT,
    ensures
        r == clamp_coord(p + div_toward_zero(v * dt, MILLIS_PER_SECOND as int)),
{
    proof {
        assert(-0x10_0000_0000_0000_0i64 <= v * dt <= 0x10_0000_0000_0000_0i64)
            by (nonlinear_arith)
            requires
                -COORD_LIMIT <= v <= COORD_LIMIT,
                0 <= dt <= DT_LIMIT,
        ;
    }
    let prod = v * (dt as i64);
    let q = crate::continuum_crowds::div_trunc(prod, MILLIS_PER_SECOND);
    let sum = p + q;
    if sum < -COORD_LIMIT {
        -COORD_LIMIT
    } else if sum > COORD_LIMIT {
        COORD_LIMIT
    } else {
        sum
    }
}

} // verus!
