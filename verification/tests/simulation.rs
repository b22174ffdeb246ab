use crowd_sim::component::Entity;
use crowd_sim::component::Position;
use crowd_sim::component::Velocity;
use crowd_sim::component::SCALE;
use crowd_sim::channel::MessageToSimulation;
use crowd_sim::grid::Grid;
use crowd_sim::state::default_schedule;
use crowd_sim::state::State;
use crowd_sim::world::World;

fn hundred_still_agents() -> World {
    let mut world = World::new(16, 16);
    for i in 0..10i64 {
        for j in 0..10i64 {
            let created = world.create_entity(Entity {
                position: Some(
                    Position { x: i * SCALE + SCALE / 2, y: j * SCALE + SCALE / 2 },
                ),
                velocity: Some(Velocity { x: 0, y: 0 }),
            });
            assert!(created);
        }
    }
    world
}

#[test]
fn one_tick_with_still_agents_keeps_positions_and_accumulates_all_mass() {
    let mut state = State {
        world: hundred_still_agents(),
        dispatcher: default_schedule(),
        frame: None,
    };
    state.step(0);

    // every agent's position is unchanged
    assert_eq!(state.world.entities.len(), 100);
    let mut n = 0;
    for i in 0..10i64 {
        for j in 0..10i64 {
            let e = &state.world.entities[n];
            assert_eq!(
                e.position,
                Some(Position { x: i * SCALE + SCALE / 2, y: j * SCALE + SCALE / 2 })
            );
            assert_eq!(e.velocity, Some(Velocity { x: 0, y: 0 }));
            n += 1;
        }
    }

    // the grid's total accumulated density is one full weight per agent
    let mut total = 0i64;
    let mut it = state.world.shared_grid.0.position_iter();
    while let Some((x, y)) = it.next() {
        total += state.world.shared_grid.0.get(x, y).unwrap().density;
    }
    assert_eq!(total, 100 * SCALE);
}

#[test]
fn first_step_starts_the_clock_and_later_steps_keep_cadence() {
    let mut state = State {
        world: hundred_still_agents(),
        dispatcher: default_schedule(),
        frame: None,
    };
    assert_eq!(state.pacing_wait(500), 0);
    state.step(500);
    let f = state.frame.unwrap();
    assert_eq!(f.index, 0);
    assert_eq!(f.ideal_start_time, 500);
    assert_eq!(state.pacing_wait(510), 22);
    state.step(532);
    let f = state.frame.unwrap();
    assert_eq!(f.index, 1);
    assert_eq!(f.ideal_start_time, 532);
    assert_eq!((f.ideal_start_time - 500) % 32, 0);
}

#[test]
fn inbound_commands_do_not_corrupt_the_store() {
    let mut state = State {
        world: hundred_still_agents(),
        dispatcher: default_schedule(),
        frame: None,
    };
    state.handle_command(MessageToSimulation {});
    assert_eq!(state.world.entities.len(), 100);
    assert!(state.frame.is_none());
}

#[test]
fn fresh_simulation_has_the_square_formation_and_three_systems() {
    let state = State::new();
    assert_eq!(state.world.entities.len(), 100);
    assert!(state.frame.is_none());
    let names = state.dispatcher.system_names();
    assert_eq!(
        names,
        vec![
            "reset_shared".to_string(),
            "assign_densities_and_velocities".to_string(),
            "update_pos".to_string(),
        ]
    );
}

#[test]
fn moving_agents_integrate_position_over_the_elapsed_time() {
    let mut world = World::new(8, 8);
    assert!(world.create_entity(Entity {
        position: Some(Position { x: SCALE, y: SCALE }),
        velocity: Some(Velocity { x: SCALE / 2, y: -SCALE / 4 }),
    }));
    let mut state = State { world, dispatcher: default_schedule(), frame: None };
    state.step(1000);
    // dt 2000 ms: two seconds of drift at (0.5, -0.25) cells per second
    state.step(1000 + 2000);
    let p = state.world.entities[0].position.unwrap();
    assert_eq!(p, Position { x: SCALE + SCALE, y: SCALE - SCALE / 2 });
}
