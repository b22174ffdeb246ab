use crowd_sim::component::Entity;
use crowd_sim::component::Position;
use crowd_sim::component::Velocity;
use crowd_sim::component::SCALE;
use crowd_sim::dispatch::DispatcherBuilder;
use crowd_sim::dispatch::ScheduleError;
use crowd_sim::dispatch::SystemKind;
use crowd_sim::grid::Grid;
use crowd_sim::resources::DurationSinceLastFrame;
use crowd_sim::world::World;

fn world_with_one_agent() -> World {
    let mut world = World::new(8, 8);
    let created = world.create_entity(Entity {
        position: Some(Position { x: 3 * SCALE + SCALE / 2, y: 3 * SCALE + SCALE / 2 }),
        velocity: Some(Velocity { x: SCALE, y: 0 }),
    });
    assert!(created);
    world.duration_since_last_frame = DurationSinceLastFrame(1000);
    world
}

#[test]
fn dependencies_run_before_their_dependents() {
    let mut b = DispatcherBuilder::new();
    assert!(b.with(SystemKind::ResetShared, "a".to_string(), vec![]).is_ok());
    assert!(b.with(SystemKind::AssignDensitiesAndVelocities, "b".to_string(), vec!["a".to_string()]).is_ok());
    assert!(b.with(SystemKind::UpdatePos, "c".to_string(), vec!["a".to_string()]).is_ok());
    let d = b.build();
    let names = d.system_names();
    let pos_a = names.iter().position(|n| n == "a").unwrap();
    let pos_b = names.iter().position(|n| n == "b").unwrap();
    let pos_c = names.iter().position(|n| n == "c").unwrap();
    assert!(pos_a < pos_b);
    assert!(pos_a < pos_c);
}

#[test]
fn unknown_dependency_is_rejected_at_setup() {
    let mut b = DispatcherBuilder::new();
    assert!(b.with(SystemKind::ResetShared, "a".to_string(), vec![]).is_ok());
    let r = b.with(SystemKind::UpdatePos, "b".to_string(), vec!["missing".to_string()]);
    assert_eq!(r, Err(ScheduleError::UnknownDependency));
    // the rejected entry was not kept: its name is still free
    assert!(b.with(SystemKind::UpdatePos, "b".to_string(), vec!["a".to_string()]).is_ok());
    let names = b.build().system_names();
    assert_eq!(names, vec!["a".to_string(), "b".to_string()]);
}

#[test]
fn duplicate_name_is_rejected_at_setup() {
    let mut b = DispatcherBuilder::new();
    assert!(b.with(SystemKind::ResetShared, "a".to_string(), vec![]).is_ok());
    let r = b.with(SystemKind::UpdatePos, "a".to_string(), vec![]);
    assert_eq!(r, Err(ScheduleError::DuplicateName));
}

#[test]
fn running_the_schedule_twice_from_equal_stores_gives_equal_results() {
    let mut b1 = DispatcherBuilder::new();
    assert!(b1.with(SystemKind::ResetShared, "reset".to_string(), vec![]).is_ok());
    assert!(b1
        .with(
            SystemKind::AssignDensitiesAndVelocities,
            "accumulate".to_string(),
            vec!["reset".to_string()],
        )
        .is_ok());
    assert!(b1
        .with(SystemKind::UpdatePos, "integrate".to_string(), vec!["accumulate".to_string()])
        .is_ok());
    let d1 = b1.build();

    let mut w1 = world_with_one_agent();
    let mut w2 = world_with_one_agent();
    d1.dispatch(&mut w1);
    d1.dispatch(&mut w2);

    assert_eq!(w1.entities.len(), w2.entities.len());
    for i in 0..w1.entities.len() {
        assert_eq!(w1.entities[i].position, w2.entities[i].position);
        assert_eq!(w1.entities[i].velocity, w2.entities[i].velocity);
    }
    let mut it = w1.shared_grid.0.position_iter();
    while let Some((x, y)) = it.next() {
        let c1 = w1.shared_grid.0.get(x, y).unwrap();
        let c2 = w2.shared_grid.0.get(x, y).unwrap();
        assert_eq!(c1.density, c2.density);
        assert_eq!(c1.avg_velocity, c2.avg_velocity);
    }
    // and the one agent moved one cell along x: one full second at one
    // cell per second
    assert_eq!(
        w1.entities[0].position,
        Some(Position { x: 4 * SCALE + SCALE / 2, y: 3 * SCALE + SCALE / 2 })
    );
}
