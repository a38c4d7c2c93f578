use sand_simulator::field::FieldState;
use sand_simulator::particle::ParticleUpdateState;
use sand_simulator::simulator::{get_id_from_pos, Simulator};
use sand_simulator::vec::Vec2;

fn grid(width: usize, height: usize) -> Simulator {
    Simulator::new(Vec2::new(width, height), 0)
}

fn put(sim: &mut Simulator, x: usize, y: usize, kind: FieldState) -> usize {
    let size = sim.grid_size();
    assert!(x < size.x && y < size.y);
    let pos = Vec2::new(x, y);
    assert!(sim.field(pos).is_empty());
    let id = sim.particles().len();
    let state = match kind {
        FieldState::Sand(_) => FieldState::Sand(id),
        FieldState::Water(_) => FieldState::Water(id),
        FieldState::Wood(_) => FieldState::Wood(id),
        FieldState::Empty => panic!("a particle of no material"),
    };
    sim.create_particle(get_id_from_pos(pos, size), pos, state);
    id
}

fn pos(sim: &Simulator, id: usize) -> (usize, usize) {
    let p = sim.particles()[id];
    (p.pos.x, p.pos.y)
}

fn step(sim: &mut Simulator, id: usize) -> ParticleUpdateState {
    sim.update_particle(id)
}

fn assert_consistent(sim: &Simulator) {
    let size = sim.grid_size();
    for (i, p) in sim.particles().iter().enumerate() {
        assert!(p.pos.x < size.x && p.pos.y < size.y);
        assert_eq!(sim.field(p.pos), p.kind);
        let owner = match p.kind {
            FieldState::Sand(o) | FieldState::Water(o) | FieldState::Wood(o) => o,
            FieldState::Empty => panic!("a particle of no material"),
        };
        assert_eq!(owner, i);
    }
    for x in 0..size.x {
        for y in 0..size.y {
            match sim.field(Vec2::new(x, y)) {
                FieldState::Sand(o) | FieldState::Water(o) | FieldState::Wood(o) => {
                    assert!(o < sim.particles().len());
                    assert_eq!(pos(sim, o), (x, y));
                }
                FieldState::Empty => {}
            }
        }
    }
}

#[test]
fn basic_fall() {
    let mut sim = Simulator::new(Vec2::new(10, 10), 2);
    let id = put(&mut sim, 5, 0, FieldState::Sand(0));
    let height = sim.grid_size().y;
    for _ in 0..height - 1 {
        sim.update(Vec2::new(0, 0));
    }
    assert_eq!(pos(&sim, id), (5, height - 1));
    assert_eq!(sim.particles()[id].velocity, 10);
    assert_eq!(sim.field(Vec2::new(5, 9)), FieldState::Sand(0));
    assert_eq!(sim.field(Vec2::new(5, 0)), FieldState::Empty);
    assert_eq!(sim.particles().len(), 1);
    let at = sim.particles()[id].pos;
    let cell = get_id_from_pos(at, sim.grid_size());
    assert_eq!(sim.update_sand(id, cell, at), ParticleUpdateState::Stable);
    assert_eq!(pos(&sim, id), (5, 9));
}

#[test]
fn free_fall_gains_nine_tenths_per_tick() {
    let mut sim = Simulator::new(Vec2::new(3, 40), 1);
    let id = put(&mut sim, 1, 0, FieldState::Sand(0));
    let expected = [(19u64, 1usize), (28, 3), (37, 6), (46, 10), (55, 15), (64, 21), (73, 28)];
    for (velocity, y) in expected {
        sim.update(Vec2::new(0, 0));
        assert_eq!(sim.particles()[id].velocity, velocity);
        assert_eq!(pos(&sim, id), (1, y));
        assert!(!sim.particles()[id].updated);
    }
    sim.update(Vec2::new(0, 0));
    assert_eq!(pos(&sim, id), (1, 36));
    assert_eq!(sim.particles()[id].velocity, 82);
    sim.update(Vec2::new(0, 0));
    assert_eq!(pos(&sim, id), (1, 39));
    assert_eq!(sim.particles()[id].velocity, 10);
}

#[test]
fn displacement() {
    let mut sim = Simulator::new(Vec2::new(10, 10), 2);
    let water = put(&mut sim, 5, 5, FieldState::Water(0));
    let sand = put(&mut sim, 5, 4, FieldState::Sand(0));
    sim.update(Vec2::new(0, 0));
    assert_eq!(pos(&sim, sand), (5, 5));
    assert_ne!(pos(&sim, water), (5, 5));
    assert_eq!(pos(&sim, water), (4, 6));
    assert_eq!(sim.field(Vec2::new(5, 5)), FieldState::Sand(1));
    assert_eq!(sim.field(Vec2::new(4, 6)), FieldState::Water(0));
    assert_eq!(sim.field(Vec2::new(5, 4)), FieldState::Empty);
    assert_consistent(&sim);
}

#[test]
fn sand_follows_water_that_moved_out_of_its_way() {
    let mut sim = Simulator::new(Vec2::new(10, 10), 2);
    let sand = put(&mut sim, 5, 4, FieldState::Sand(0));
    let water = put(&mut sim, 5, 5, FieldState::Water(0));
    sim.update(Vec2::new(0, 0));
    // the water, created last, went first
    assert_eq!(pos(&sim, water), (5, 6));
    assert_eq!(pos(&sim, sand), (5, 5));
    assert_eq!(sim.particles()[water].velocity, 19);
    assert_eq!(sim.particles()[sand].velocity, 19);
    assert_consistent(&sim);
}

#[test]
fn displacement_exchanges_places_and_lets_the_water_step() {
    let mut sim = grid(3, 4);
    let wood_left = put(&mut sim, 0, 2, FieldState::Wood(0));
    let wood_right = put(&mut sim, 2, 2, FieldState::Wood(0));
    let water = put(&mut sim, 1, 2, FieldState::Water(0));
    let sand = put(&mut sim, 1, 1, FieldState::Sand(0));
    let cell = get_id_from_pos(Vec2::new(1, 1), sim.grid_size());
    assert!(sim.sand_case(cell, sand, Vec2::new(1, 2)));
    assert_eq!(pos(&sim, sand), (1, 2));
    // the water went to where the sand was, then flowed: below and the
    // diagonals are taken, left of it is free
    assert_eq!(pos(&sim, water), (0, 1));
    assert!(!sim.particles()[water].updated);
    assert_eq!(sim.particles()[water].velocity, 10);
    assert_eq!(pos(&sim, wood_left), (0, 2));
    assert_eq!(pos(&sim, wood_right), (2, 2));
    assert_eq!(sim.field(Vec2::new(1, 2)), FieldState::Sand(3));
    assert_eq!(sim.field(Vec2::new(0, 1)), FieldState::Water(2));
    assert_eq!(sim.field(Vec2::new(1, 1)), FieldState::Empty);
    assert_consistent(&sim);
}

#[test]
fn displaced_water_that_cannot_move_takes_the_place_of_the_sand() {
    let mut sim = grid(1, 3);
    let water = put(&mut sim, 0, 2, FieldState::Water(0));
    let sand = put(&mut sim, 0, 1, FieldState::Sand(0));
    assert_eq!(step(&mut sim, sand), ParticleUpdateState::Moving);
    assert_eq!(pos(&sim, sand), (0, 2));
    assert_eq!(pos(&sim, water), (0, 1));
    assert_eq!(sim.field(Vec2::new(0, 1)), FieldState::Water(0));
    assert_eq!(sim.field(Vec2::new(0, 2)), FieldState::Sand(1));
    assert_consistent(&sim);
}

#[test]
fn sand_does_not_displace_sand_or_wood() {
    let mut sim = grid(1, 3);
    let lower = put(&mut sim, 0, 2, FieldState::Wood(0));
    let middle = put(&mut sim, 0, 1, FieldState::Sand(0));
    let upper = put(&mut sim, 0, 0, FieldState::Sand(0));
    let cell = get_id_from_pos(Vec2::new(0, 1), sim.grid_size());
    assert!(!sim.sand_case(cell, middle, Vec2::new(0, 2)));
    let cell = get_id_from_pos(Vec2::new(0, 0), sim.grid_size());
    assert!(!sim.sand_case(cell, upper, Vec2::new(0, 1)));
    assert_eq!(pos(&sim, lower), (0, 2));
    assert_eq!(pos(&sim, middle), (0, 1));
    assert_eq!(pos(&sim, upper), (0, 0));
    assert_eq!(step(&mut sim, upper), ParticleUpdateState::Stable);
    assert_eq!(step(&mut sim, middle), ParticleUpdateState::Stable);
}

#[test]
fn wood_immobility() {
    let mut sim = Simulator::new(Vec2::new(10, 10), 2);
    let wood = put(&mut sim, 3, 3, FieldState::Wood(0));
    let sand = put(&mut sim, 3, 2, FieldState::Sand(0));
    let water = put(&mut sim, 3, 1, FieldState::Water(0));
    for _ in 0..25 {
        sim.update(Vec2::new(0, 0));
        assert_eq!(pos(&sim, wood), (3, 3));
        assert_eq!(sim.particles()[wood].kind, FieldState::Wood(0));
        assert_eq!(sim.particles()[wood].velocity, 10);
        assert_eq!(sim.field(Vec2::new(3, 3)), FieldState::Wood(0));
        assert_consistent(&sim);
    }
    assert_eq!(sim.particles()[sand].kind, FieldState::Sand(1));
    assert_eq!(sim.particles()[water].kind, FieldState::Water(2));
    assert_eq!(pos(&sim, sand).1, 9);
    assert_eq!(pos(&sim, water).1, 9);
}

#[test]
fn wood_in_mid_air_stays_there() {
    let mut sim = grid(3, 5);
    let wood = put(&mut sim, 1, 0, FieldState::Wood(0));
    for _ in 0..10 {
        sim.update(Vec2::new(2, 2));
    }
    assert_eq!(pos(&sim, wood), (1, 0));
    assert_eq!(sim.particles()[wood].velocity, 10);
    assert!(!sim.particles()[wood].updated);
}

#[test]
fn bottom_row_is_stable_without_a_move() {
    let mut sim = grid(4, 3);
    let sand = put(&mut sim, 1, 2, FieldState::Sand(0));
    let water = put(&mut sim, 3, 2, FieldState::Water(0));
    assert_eq!(step(&mut sim, sand), ParticleUpdateState::Stable);
    assert_eq!(step(&mut sim, water), ParticleUpdateState::Stable);
    let cell = get_id_from_pos(Vec2::new(3, 2), sim.grid_size());
    assert_eq!(sim.update_water(water, cell, Vec2::new(3, 2)), ParticleUpdateState::Stable);
    // water on the bottom row does not flow, though the cell left of it is free
    assert_eq!(pos(&sim, sand), (1, 2));
    assert_eq!(pos(&sim, water), (3, 2));
    assert_eq!(sim.field(Vec2::new(2, 2)), FieldState::Empty);
    assert_eq!(sim.field(Vec2::new(0, 2)), FieldState::Empty);
}

#[test]
fn arrival_on_the_bottom_row_is_stable_within_the_tick_if_budget_is_left() {
    let mut sim = grid(1, 3);
    let sand = put(&mut sim, 0, 0, FieldState::Sand(0));
    sim.update(Vec2::new(0, 0));
    assert_eq!(pos(&sim, sand), (0, 1));
    assert_eq!(sim.particles()[sand].velocity, 19);
    // two sub-steps: one to the bottom row, one that finds it stable
    sim.update(Vec2::new(0, 0));
    assert_eq!(pos(&sim, sand), (0, 2));
    assert_eq!(sim.particles()[sand].velocity, 10);
}

#[test]
fn arrival_with_the_last_sub_step_settles_in_the_next_tick() {
    let mut sim = grid(1, 2);
    let sand = put(&mut sim, 0, 0, FieldState::Sand(0));
    sim.update_movable_particle(sand);
    assert_eq!(pos(&sim, sand), (0, 1));
    assert_eq!(sim.particles()[sand].velocity, 19);
    assert!(sim.particles()[sand].updated);
    sim.reset_updated_status();
    assert!(!sim.particles()[sand].updated);
    sim.update_movable_particle(sand);
    assert_eq!(pos(&sim, sand), (0, 1));
    assert_eq!(sim.particles()[sand].velocity, 10);
    assert!(!sim.particles()[sand].updated);
}

#[test]
fn settling_resets_velocity() {
    let mut sim = grid(2, 30);
    let sand = put(&mut sim, 0, 0, FieldState::Sand(0));
    let mut fastest = 0;
    for _ in 0..7 {
        sim.update(Vec2::new(0, 0));
        fastest = fastest.max(sim.particles()[sand].velocity);
    }
    assert_eq!(fastest, 73);
    assert_eq!(pos(&sim, sand), (0, 28));
    sim.update(Vec2::new(0, 0));
    assert_eq!(pos(&sim, sand), (0, 29));
    assert_eq!(sim.particles()[sand].velocity, 10);
}

#[test]
fn sliding_does_not_reset_velocity() {
    let mut sim = grid(3, 3);
    put(&mut sim, 1, 2, FieldState::Wood(0));
    let sand = put(&mut sim, 1, 1, FieldState::Sand(0));
    sim.update(Vec2::new(0, 0));
    assert_eq!(pos(&sim, sand), (0, 2));
    assert_eq!(sim.particles()[sand].velocity, 19);
    assert!(!sim.particles()[sand].updated);
    sim.update(Vec2::new(0, 0));
    assert_eq!(pos(&sim, sand), (0, 2));
    assert_eq!(sim.particles()[sand].velocity, 10);
}

#[test]
fn sand_slides_left_before_right() {
    let mut sim = grid(3, 3);
    put(&mut sim, 1, 2, FieldState::Wood(0));
    let sand = put(&mut sim, 1, 1, FieldState::Sand(0));
    assert_eq!(step(&mut sim, sand), ParticleUpdateState::Stopped);
    assert_eq!(pos(&sim, sand), (0, 2));

    let mut sim = grid(3, 3);
    put(&mut sim, 1, 2, FieldState::Wood(0));
    put(&mut sim, 0, 2, FieldState::Wood(0));
    let sand = put(&mut sim, 1, 1, FieldState::Sand(0));
    assert_eq!(step(&mut sim, sand), ParticleUpdateState::Stopped);
    assert_eq!(pos(&sim, sand), (2, 2));

    let mut sim = grid(3, 3);
    put(&mut sim, 1, 2, FieldState::Wood(0));
    put(&mut sim, 0, 2, FieldState::Wood(0));
    put(&mut sim, 2, 2, FieldState::Wood(0));
    let sand = put(&mut sim, 1, 1, FieldState::Sand(0));
    assert_eq!(step(&mut sim, sand), ParticleUpdateState::Stable);
    assert_eq!(pos(&sim, sand), (1, 1));
}

#[test]
fn sand_does_not_flow_sideways() {
    let mut sim = grid(3, 2);
    put(&mut sim, 0, 1, FieldState::Wood(0));
    put(&mut sim, 1, 1, FieldState::Wood(0));
    put(&mut sim, 2, 1, FieldState::Wood(0));
    let sand = put(&mut sim, 1, 0, FieldState::Sand(0));
    assert_eq!(step(&mut sim, sand), ParticleUpdateState::Stable);
    assert_eq!(pos(&sim, sand), (1, 0));
}

#[test]
fn water_falls_then_slides_then_flows() {
    // straight down
    let mut sim = grid(3, 3);
    let water = put(&mut sim, 1, 0, FieldState::Water(0));
    assert_eq!(step(&mut sim, water), ParticleUpdateState::Moving);
    assert_eq!(pos(&sim, water), (1, 1));

    // down-left before down-right
    let mut sim = grid(3, 3);
    put(&mut sim, 1, 2, FieldState::Wood(0));
    let water = put(&mut sim, 1, 1, FieldState::Water(0));
    assert_eq!(step(&mut sim, water), ParticleUpdateState::Stopped);
    assert_eq!(pos(&sim, water), (0, 2));

    // down-right when down-left is taken
    let mut sim = grid(3, 3);
    put(&mut sim, 1, 2, FieldState::Wood(0));
    put(&mut sim, 0, 2, FieldState::Wood(0));
    let water = put(&mut sim, 1, 1, FieldState::Water(0));
    assert_eq!(step(&mut sim, water), ParticleUpdateState::Stopped);
    assert_eq!(pos(&sim, water), (2, 2));
}

#[test]
fn water_flows_left_before_right() {
    let mut sim = grid(3, 3);
    for x in 0..3 {
        put(&mut sim, x, 2, FieldState::Wood(0));
    }
    let water = put(&mut sim, 1, 1, FieldState::Water(0));
    assert_eq!(step(&mut sim, water), ParticleUpdateState::Stopped);
    assert_eq!(pos(&sim, water), (0, 1));

    let mut sim = grid(3, 3);
    for x in 0..3 {
        put(&mut sim, x, 2, FieldState::Wood(0));
    }
    put(&mut sim, 0, 1, FieldState::Wood(0));
    let water = put(&mut sim, 1, 1, FieldState::Water(0));
    assert_eq!(step(&mut sim, water), ParticleUpdateState::Stopped);
    assert_eq!(pos(&sim, water), (2, 1));

    let mut sim = grid(3, 3);
    for x in 0..3 {
        put(&mut sim, x, 2, FieldState::Wood(0));
    }
    put(&mut sim, 0, 1, FieldState::Wood(0));
    put(&mut sim, 2, 1, FieldState::Wood(0));
    let water = put(&mut sim, 1, 1, FieldState::Water(0));
    assert_eq!(step(&mut sim, water), ParticleUpdateState::Stable);
    assert_eq!(pos(&sim, water), (1, 1));
}

#[test]
fn water_does_not_displace_anything() {
    let mut sim = grid(1, 3);
    let sand = put(&mut sim, 0, 2, FieldState::Sand(0));
    let lower = put(&mut sim, 0, 1, FieldState::Water(0));
    let upper = put(&mut sim, 0, 0, FieldState::Water(0));
    assert_eq!(step(&mut sim, upper), ParticleUpdateState::Stable);
    assert_eq!(step(&mut sim, lower), ParticleUpdateState::Stable);
    assert_eq!(pos(&sim, sand), (0, 2));
    assert_eq!(pos(&sim, lower), (0, 1));
    assert_eq!(pos(&sim, upper), (0, 0));
}

#[test]
fn edges_guard_the_sideways_candidates() {
    // at the left edge only the right-hand candidates are tried
    let mut sim = grid(3, 3);
    put(&mut sim, 0, 2, FieldState::Wood(0));
    put(&mut sim, 1, 2, FieldState::Wood(0));
    let water = put(&mut sim, 0, 1, FieldState::Water(0));
    assert_eq!(step(&mut sim, water), ParticleUpdateState::Stopped);
    assert_eq!(pos(&sim, water), (1, 1));

    // at the right edge only the left-hand candidates are tried
    let mut sim = grid(3, 3);
    put(&mut sim, 2, 2, FieldState::Wood(0));
    put(&mut sim, 1, 2, FieldState::Wood(0));
    put(&mut sim, 1, 1, FieldState::Wood(0));
    let water = put(&mut sim, 2, 1, FieldState::Water(0));
    assert_eq!(step(&mut sim, water), ParticleUpdateState::Stable);
    assert_eq!(pos(&sim, water), (2, 1));

    // a grid wider than high: the right edge is the width, not the height
    let mut sim = grid(5, 2);
    put(&mut sim, 3, 1, FieldState::Wood(0));
    let sand = put(&mut sim, 3, 0, FieldState::Sand(0));
    put(&mut sim, 2, 1, FieldState::Wood(0));
    assert_eq!(step(&mut sim, sand), ParticleUpdateState::Stopped);
    assert_eq!(pos(&sim, sand), (4, 1));

    // a single column: nothing to either side
    let mut sim = grid(1, 2);
    put(&mut sim, 0, 1, FieldState::Wood(0));
    let water = put(&mut sim, 0, 0, FieldState::Water(0));
    assert_eq!(step(&mut sim, water), ParticleUpdateState::Stable);
}

#[test]
fn standard_case_moves_only_onto_an_empty_cell() {
    let mut sim = grid(2, 2);
    let water = put(&mut sim, 0, 0, FieldState::Water(0));
    put(&mut sim, 1, 0, FieldState::Sand(0));
    let cell = get_id_from_pos(Vec2::new(0, 0), sim.grid_size());
    assert!(!sim.standard_case(cell, water, Vec2::new(1, 0)));
    assert_eq!(pos(&sim, water), (0, 0));
    assert!(sim.standard_case(cell, water, Vec2::new(1, 1)));
    assert_eq!(pos(&sim, water), (1, 1));
    assert_eq!(sim.field(Vec2::new(0, 0)), FieldState::Empty);
    assert_eq!(sim.field(Vec2::new(1, 1)), FieldState::Water(0));
    assert_consistent(&sim);
}

#[test]
fn the_sweep_visits_the_last_created_first() {
    let mut sim = grid(3, 4);
    let first = put(&mut sim, 1, 1, FieldState::Sand(0));
    let second = put(&mut sim, 1, 0, FieldState::Sand(0));
    sim.update_particle_pos();
    // the later one moved while the earlier one was still below it
    assert_eq!(pos(&sim, second), (0, 1));
    assert_eq!(pos(&sim, first), (1, 2));
    assert!(!sim.particles()[second].updated);
    assert!(sim.particles()[first].updated);
    sim.reset_updated_status();
    assert!(sim.particles().iter().all(|p| !p.updated));
}

#[test]
fn the_sweep_skips_particles_marked_updated() {
    let mut sim = grid(1, 5);
    let sand = put(&mut sim, 0, 0, FieldState::Sand(0));
    sim.update_particle_pos();
    assert_eq!(pos(&sim, sand), (0, 1));
    assert!(sim.particles()[sand].updated);
    sim.update_particle_pos();
    assert_eq!(pos(&sim, sand), (0, 1));
    assert_eq!(sim.particles()[sand].velocity, 19);
}

#[test]
fn a_tick_leaves_no_particle_marked_updated() {
    let mut sim = grid(4, 6);
    put(&mut sim, 1, 0, FieldState::Sand(0));
    put(&mut sim, 2, 0, FieldState::Water(0));
    put(&mut sim, 3, 3, FieldState::Wood(0));
    for _ in 0..6 {
        sim.update(Vec2::new(0, 0));
        assert!(sim.particles().iter().all(|p| !p.updated));
        assert_consistent(&sim);
    }
}

#[test]
fn a_pile_stays_consistent() {
    let mut sim = Simulator::new(Vec2::new(9, 9), 1);
    for round in 0..12 {
        let kind = if round % 3 == 0 { FieldState::Water(0) } else { FieldState::Sand(0) };
        sim.place_particle(Vec2::new(4, 0), Vec2::new(4, 0), kind);
        sim.place_particle(Vec2::new(3, 1), Vec2::new(3, 1), FieldState::Water(0));
        for _ in 0..3 {
            sim.update(Vec2::new(4, 4));
            assert_consistent(&sim);
        }
    }
    assert!(sim.particles().len() > 12);
    for (i, p) in sim.particles().iter().enumerate() {
        assert!(p.velocity >= 10);
        assert_eq!(
            p.kind,
            match p.kind {
                FieldState::Sand(_) => FieldState::Sand(i),
                FieldState::Water(_) => FieldState::Water(i),
                other => other,
            }
        );
    }
}
