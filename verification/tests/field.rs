use crowd_sim::component::Entity;
use crowd_sim::grid::Grid;
use crowd_sim::component::Position;
use crowd_sim::component::Velocity;
use crowd_sim::component::SCALE;
use crowd_sim::continuum_crowds::init;
use crowd_sim::continuum_crowds::AssignDensitiesAndVelocities;
use crowd_sim::continuum_crowds::ResetShared;
use crowd_sim::continuum_crowds::SharedGrid;

fn agent(px: i64, py: i64, vx: i64, vy: i64) -> Entity {
    Entity {
        position: Some(Position { x: px, y: py }),
        velocity: Some(Velocity { x: vx, y: vy }),
    }
}

fn center(i: i64, j: i64) -> (i64, i64) {
    (i * SCALE + SCALE / 2, j * SCALE + SCALE / 2)
}

fn density_at(grid: &SharedGrid, x: usize, y: usize) -> i64 {
    grid.0.get(x, y).unwrap().density
}

fn total_density_over(grid: &SharedGrid) -> i64 {
    let mut total = 0;
    let mut it = grid.0.position_iter();
    while let Some((x, y)) = it.next() {
        total += grid.0.get(x, y).unwrap().density;
    }
    total
}

#[test]
fn agent_on_a_cell_center_weighs_on_that_cell_alone() {
    let (mut shared, _groups) = init();
    let (px, py) = center(3, 4);
    let agents = vec![agent(px, py, 300, -200)];
    AssignDensitiesAndVelocities::run(&mut shared, &agents);
    let mut it = shared.0.position_iter();
    while let Some((x, y)) = it.next() {
        let c = shared.0.get(x, y).unwrap();
        if (x, y) == (3, 4) {
            assert_eq!(c.density, SCALE);
            assert_eq!(c.avg_velocity, (300, -200));
        } else {
            assert_eq!(c.density, 0);
            assert_eq!(c.avg_velocity, (0, 0));
        }
    }
    assert_eq!(total_density_over(&shared), SCALE);
}

#[test]
fn agent_on_a_midpoint_splits_evenly_across_four_cells() {
    let (mut shared, _groups) = init();
    let agents = vec![agent(2 * SCALE, 2 * SCALE, 100, 60)];
    AssignDensitiesAndVelocities::run(&mut shared, &agents);
    for (x, y) in [(1, 1), (2, 1), (2, 2), (1, 2)] {
        assert_eq!(density_at(&shared, x, y), SCALE / 2);
            assert_eq!(shared.0.get(x, y).unwrap().avg_velocity, (100, 60));
    }
    // no mass is lost or duplicated: the grid total is the sum of the
    // four per-cell contributions
    assert_eq!(total_density_over(&shared), 4 * (SCALE / 2));
}

#[test]
fn grid_total_is_the_sum_of_per_agent_contributions() {
    let (mut shared, _groups) = init();
    let (ax, ay) = center(1, 1);
    let (bx, by) = center(5, 2);
    let agents = vec![agent(ax, ay, 0, 0), agent(bx, by, 0, 0), agent(bx, by, 10, 10)];
    AssignDensitiesAndVelocities::run(&mut shared, &agents);
    assert_eq!(density_at(&shared, 1, 1), SCALE);
    assert_eq!(density_at(&shared, 5, 2), 2 * SCALE);
    assert_eq!(total_density_over(&shared), 3 * SCALE);
}

#[test]
fn zero_density_cells_keep_zero_velocity() {
    let (mut shared, _groups) = init();
    let agents: Vec<Entity> = Vec::new();
    AssignDensitiesAndVelocities::run(&mut shared, &agents);
    let mut it = shared.0.position_iter();
    while let Some((x, y)) = it.next() {
        let c = shared.0.get(x, y).unwrap();
        assert_eq!(c.density, 0);
        assert_eq!(c.avg_velocity, (0, 0));
    }
}

#[test]
fn velocity_is_the_weighted_average_of_agents_on_the_cell() {
    let (mut shared, _groups) = init();
    let (px, py) = center(4, 4);
    let agents = vec![agent(px, py, 100, 0), agent(px, py, 300, 0)];
    AssignDensitiesAndVelocities::run(&mut shared, &agents);
    let c = shared.0.get(4, 4).unwrap();
    assert_eq!(c.density, 2 * SCALE);
    assert_eq!(c.avg_velocity, (200, 0));
}

#[test]
fn entity_missing_a_component_contributes_nothing() {
    let (mut shared, _groups) = init();
    let (px, py) = center(2, 2);
    let agents = vec![
        Entity { position: Some(Position { x: px, y: py }), velocity: None },
        Entity { position: None, velocity: Some(Velocity { x: 5, y: 5 }) },
        Entity { position: None, velocity: None },
    ];
    AssignDensitiesAndVelocities::run(&mut shared, &agents);
    assert_eq!(total_density_over(&shared), 0);
}

#[test]
fn agent_out_of_the_window_adds_no_density() {
    let (mut shared, _groups) = init();
    // far past the 8x8 window
    let (px, py) = center(20, 20);
    let agents = vec![agent(px, py, 1, 1)];
    AssignDensitiesAndVelocities::run(&mut shared, &agents);
    assert_eq!(total_density_over(&shared), 0);
}

#[test]
fn reset_clears_accumulated_fields_and_keeps_the_rest() {
    let (mut shared, _groups) = init();
    let (px, py) = center(1, 3);
    let agents = vec![agent(px, py, 40, 50)];
    AssignDensitiesAndVelocities::run(&mut shared, &agents);
    assert_eq!(density_at(&shared, 1, 3), SCALE);
    ResetShared::run(&mut shared);
    let mut it = shared.0.position_iter();
    while let Some((x, y)) = it.next() {
        let c = shared.0.get(x, y).unwrap();
        assert_eq!(c.density, 0);
        assert_eq!(c.avg_velocity, (0, 0));
        assert_eq!(c.height, 0);
        assert_eq!(c.discomfort, 0);
    }
}
