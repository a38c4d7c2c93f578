//! The simulation: a grid and a particle store that are kept consistent
//! while particles fall, slide, flow and displace one another.

use vstd::prelude::*;
use crate::field::{FieldState, Pixel};
use crate::particle::{Particle, ParticleUpdateState, BASE_VELOCITY, GRAVITY, VELOCITY_UNIT};
use crate::state::{lemma_index_in_range, SimState};
use crate::vec::Vec2;

verus! {

/// The grid of cells, the particles that occupy them, and the brush.
pub struct Simulator {
    pub(crate) particles: Vec<Particle>,
    pub(crate) current_spawning_field: Option<FieldState>,
    pub(crate) grid: Vec<FieldState>,
    pub(crate) grid_size: Vec2<usize>,
    pub(crate) brush_radius: usize,
}

/// The index of the cell at `pos` in a row-major grid of size `grid_size`.
pub fn get_id_from_pos(pos: Vec2<usize>, grid_size: Vec2<usize>) -> (id: usize)
    requires
        pos.x < grid_size.x,
        pos.y < grid_size.y,
        grid_size.x * grid_size.y <= usize::MAX,
    ensures
        id == pos.x + grid_size.x * pos.y,
        id < grid_size.x * grid_size.y,
{
    proof {
        lemma_index_in_range(pos.x as int, pos.y as int, grid_size.x as int, grid_size.y as int);
    }
    pos.x + grid_size.x * pos.y
}

/// The side of a cell on the screen, in pixels.
pub const SCALE: usize = 1;

/// The square that shows a particle on the screen.
pub open spec fn spec_pixel(p: Particle) -> Pixel {
    Pixel {
        x: (p.pos.x * SCALE) as usize,
        y: (p.pos.y * SCALE) as usize,
        size: SCALE,
        color: p.color,
    }
}

impl Simulator {
    /// The simulation as a mathematical value.
    pub open(crate) spec fn view(&self) -> SimState {
        SimState {
            width: self.grid_size.x as nat,
            height: self.grid_size.y as nat,
            brush_radius: self.brush_radius as nat,
            grid: self.grid@,
            particles: self.particles@,
            armed: self.current_spawning_field,
        }
    }

    /// Grid and particle store are consistent.
    pub open spec fn wf(&self) -> bool {
        self@.wf()
    }

    /// An empty simulation on a grid of `grid_size.x` by `grid_size.y` cells
    /// with a brush of the given radius. The grid must hold the whole brush.
    pub fn new(grid_size: Vec2<usize>, brush_radius: usize) -> (sim: Self)
        requires
            grid_size.x * grid_size.y <= usize::MAX,
            2 * brush_radius <= grid_size.x,
            2 * brush_radius <= grid_size.y,
        ensures
            sim.wf(),
            sim@ == SimState::empty(
                grid_size.x as nat,
                grid_size.y as nat,
                brush_radius as nat,
            ),
    {
        let sim = Self {
            particles: Vec::new(),
            current_spawning_field: None,
            grid: vec![FieldState::Empty; grid_size.x * grid_size.y],
            grid_size,
            brush_radius,
        };
        assert(sim@.grid =~= SimState::empty(
            grid_size.x as nat,
            grid_size.y as nat,
            brush_radius as nat,
        ).grid);
        sim
    }

    /// Exchanges the contents of two cells of the grid.
    pub(crate) fn swap_fields_on_grid(&mut self, id_a: usize, id_b: usize)
        requires
            id_a < old(self)@.grid.len(),
            id_b < old(self)@.grid.len(),
        ensures
            final(self)@ == old(self)@.swap_cells(id_a as int, id_b as int),
    {
        let field_a = self.grid[id_a];
        let field_b = self.grid[id_b];
        self.grid[id_a] = field_b;
        self.grid[id_b] = field_a;
    }

    /// Exchanges the recorded places of two particles.
    pub(crate) fn swap_particles_positions(&mut self, id_a: usize, id_b: usize)
        requires
            id_a < old(self)@.particles.len(),
            id_b < old(self)@.particles.len(),
        ensures
            final(self)@ == old(self)@.with_pos(
                id_b as int,
                old(self)@.particles[id_a as int].pos,
            ).with_pos(id_a as int, old(self)@.particles[id_b as int].pos),
    {
        let temp_b_pos = self.particles[id_b].pos;
        let pos_a = self.particles[id_a].pos;
        self.particles[id_b].pos = pos_a;
        self.particles[id_a].pos = temp_b_pos;
    }

    /// The standard rule: particle `id`, which lies on cell `grid_id`, moves
    /// onto `check_pos` if that cell is empty. Says whether it moved.
    pub fn standard_case(&mut self, grid_id: usize, id: usize, check_pos: Vec2<usize>) -> (moved: bool)
        requires
            old(self).wf(),
            id < old(self)@.particles.len(),
            !(old(self)@.particles[id as int].kind is Wood),
            grid_id == old(self)@.index_of(old(self)@.particles[id as int].pos),
            old(self)@.in_bounds(check_pos),
        ensures
            final(self)@ == old(self)@.standard_case(id as int, check_pos).0,
            moved == old(self)@.standard_case(id as int, check_pos).1,
            final(self).wf(),
            final(self)@.moved_from(old(self)@),
    {
        proof {
            assert(self@.particle_ok(id as int));
            self@.lemma_index(check_pos);
            self@.lemma_index(self@.particles[id as int].pos);
        }
        if self.grid[get_id_from_pos(check_pos, self.grid_size)].is_empty() {
            proof {
                self@.lemma_move_to(id as int, check_pos);
            }
            self.swap_fields_on_grid(grid_id, get_id_from_pos(check_pos, self.grid_size));
            self.particles[id].pos = check_pos;
            return true;
        }
        false
    }

    /// One sub-step of the water particle `id`, which lies at `pos`, on cell
    /// `grid_id`: straight down, else diagonally down, else sideways, left
    /// before right. On the bottom row it is at rest without a probe.
    pub fn update_water(
        &mut self,
        id: usize,
        grid_id: usize,
        pos: Vec2<usize>,
    ) -> (outcome: ParticleUpdateState)
        requires
            old(self).wf(),
            id < old(self)@.particles.len(),
            old(self)@.particles[id as int].kind is Water,
            pos == old(self)@.particles[id as int].pos,
            grid_id == old(self)@.index_of(pos),
        ensures
            final(self)@ == old(self)@.water_step(id as int).0,
            outcome == old(self)@.water_step(id as int).1,
            final(self).wf(),
            final(self)@.moved_from(old(self)@),
            pos.y + 1 >= old(self)@.height ==> outcome is Stable && final(self)@ == old(self)@,
    {
        let x = pos.x;
        let y = pos.y;
        assert(self@.particle_ok(id as int));
        if y >= self.grid_size.y - 1 {
            return ParticleUpdateState::Stable;
        }
        if self.standard_case(grid_id, id, [x, y + 1].into()) {
            return ParticleUpdateState::Moving;
        }
        let width = self.grid_size.x;
        if (x > 0 && self.standard_case(grid_id, id, [x - 1, y + 1].into()))
            || (x < width - 1 && self.standard_case(grid_id, id, [x + 1, y + 1].into()))
            || (x > 0 && self.standard_case(grid_id, id, [x - 1, y].into()))
            || (x < width - 1 && self.standard_case(grid_id, id, [x + 1, y].into()))
        {
            return ParticleUpdateState::Stopped;
        }
        ParticleUpdateState::Stable
    }

    /// The rule for sand: particle `id`, which lies on cell `grid_id`, moves
    /// onto `check_pos` if that cell is empty, and takes the place of the
    /// water there if it holds water. The displaced water takes one sub-step
    /// of its own at once and is left not updated. Says whether the sand
    /// moved.
    pub fn sand_case(&mut self, grid_id: usize, id: usize, check_pos: Vec2<usize>) -> (moved: bool)
        requires
            old(self).wf(),
            id < old(self)@.particles.len(),
            old(self)@.particles[id as int].kind is Sand,
            grid_id == old(self)@.index_of(old(self)@.particles[id as int].pos),
            old(self)@.in_bounds(check_pos),
        ensures
            final(self)@ == old(self)@.sand_case(id as int, check_pos).0,
            moved == old(self)@.sand_case(id as int, check_pos).1,
            moved == old(self)@.sand_accepts(check_pos),
            final(self).wf(),
            final(self)@.moved_from(old(self)@),
    {
        if self.standard_case(grid_id, id, check_pos) {
            return true;
        }
        proof {
            assert(self@.particle_ok(id as int));
            self@.lemma_index(check_pos);
            self@.lemma_index(self@.particles[id as int].pos);
        }
        if let FieldState::Water(id_b) = self.grid[get_id_from_pos(check_pos, self.grid_size)] {
            proof {
                self@.lemma_exchange(id as int, check_pos);
            }
            self.swap_fields_on_grid(grid_id, get_id_from_pos(check_pos, self.grid_size));
            self.swap_particles_positions(id, id_b);
            assert(self@ == old(self)@.exchange(id as int, check_pos));
            let water_pos = self.particles[id_b].pos;
            let ghost exchanged = self@;
            self.update_water(id_b, grid_id, water_pos);
            proof {
                self@.lemma_with_updated(id_b as int, false);
                self@.lemma_moved_from_trans(exchanged, old(self)@);
                self@.with_updated(id_b as int, false).lemma_moved_from_trans(self@, old(self)@);
            }
            self.particles[id_b].updated = false;
            return true;
        }
        false
    }

    /// One sub-step of the sand particle `id`, which lies at `pos`, on cell
    /// `grid_id`: straight down, else diagonally down, left before right. On
    /// the bottom row it is at rest without a probe.
    pub fn update_sand(
        &mut self,
        id: usize,
        grid_id: usize,
        pos: Vec2<usize>,
    ) -> (outcome: ParticleUpdateState)
        requires
            old(self).wf(),
            id < old(self)@.particles.len(),
            old(self)@.particles[id as int].kind is Sand,
            pos == old(self)@.particles[id as int].pos,
            grid_id == old(self)@.index_of(pos),
        ensures
            final(self)@ == old(self)@.sand_step(id as int).0,
            outcome == old(self)@.sand_step(id as int).1,
            final(self).wf(),
            final(self)@.moved_from(old(self)@),
            pos.y + 1 >= old(self)@.height ==> outcome is Stable && final(self)@ == old(self)@,
    {
        let x = pos.x;
        let y = pos.y;
        assert(self@.particle_ok(id as int));
        if y >= self.grid_size.y - 1 {
            return ParticleUpdateState::Stable;
        }
        if self.sand_case(grid_id, id, [x, y + 1].into()) {
            return ParticleUpdateState::Moving;
        }
        let width = self.grid_size.x;
        if (x > 0 && self.sand_case(grid_id, id, [x - 1, y + 1].into()))
            || (x < width - 1 && self.sand_case(grid_id, id, [x + 1, y + 1].into()))
        {
            return ParticleUpdateState::Stopped;
        }
        ParticleUpdateState::Stable
    }

    /// One sub-step of the movable particle `id` by the rule of its material.
    pub fn update_particle(&mut self, id: usize) -> (outcome: ParticleUpdateState)
        requires
            old(self).wf(),
            id < old(self)@.particles.len(),
            old(self)@.particles[id as int].kind is Sand
                || old(self)@.particles[id as int].kind is Water,
        ensures
            final(self)@ == old(self)@.step(id as int).0,
            outcome == old(self)@.step(id as int).1,
            final(self).wf(),
            final(self)@.moved_from(old(self)@),
            old(self)@.particles[id as int].pos.y + 1 >= old(self)@.height
                ==> outcome is Stable && final(self)@ == old(self)@,
    {
        assert(self@.particle_ok(id as int));
        let pos = self.particles[id].pos;
        let grid_id = get_id_from_pos(pos, self.grid_size);
        match self.particles[id].kind {
            FieldState::Sand(_) => self.update_sand(id, grid_id, pos),
            _ => self.update_water(id, grid_id, pos),
        }
    }

    /// The turn of the movable particle `id` within a tick: gravity adds to
    /// its velocity, then it takes as many sub-steps as the velocity has
    /// whole cells. A sub-step that ends `Stopped` or `Stable` ends the turn;
    /// `Stable` puts the velocity back to its base. A particle that used up
    /// its budget is marked updated.
    pub fn update_movable_particle(&mut self, id: usize)
        requires
            old(self).wf(),
            id < old(self)@.particles.len(),
            old(self)@.particles[id as int].kind is Sand
                || old(self)@.particles[id as int].kind is Water,
        ensures
            final(self)@ == old(self)@.advance(id as int).0,
            final(self).wf(),
            final(self)@.moved_from(old(self)@),
            old(self)@.advance(id as int).1 is Stable
                ==> final(self)@.particles[id as int].velocity == BASE_VELOCITY,
    {
        assert(self@.particle_ok(id as int));
        let velocity = self.particles[id].velocity.saturating_add(GRAVITY);
        proof {
            self@.lemma_with_velocity(id as int, velocity);
        }
        self.particles[id].velocity = velocity;
        let budget: u64 = velocity / VELOCITY_UNIT;
        let ghost start = self@;
        let mut taken: u64 = 0;
        while taken < budget
            invariant
                self.wf(),
                id < self@.particles.len(),
                start.moved_from(old(self)@),
                self@.moved_from(start),
                start.particles[id as int].kind is Sand || start.particles[id as int].kind is Water,
                taken <= budget,
                start.run(id as int, budget as nat) == old(self)@.advance(id as int),
                self@.run(id as int, (budget - taken) as nat) == start.run(id as int, budget as nat),
            decreases budget - taken,
        {
            let ghost before = self@;
            let outcome = self.update_particle(id);
            proof {
                self@.lemma_moved_from_trans(before, start);
            }
            match outcome {
                ParticleUpdateState::Stopped => {
                    proof {
                        self@.lemma_moved_from_trans(start, old(self)@);
                    }
                    return ;
                },
                ParticleUpdateState::Stable => {
                    proof {
                        self@.lemma_with_velocity(id as int, BASE_VELOCITY);
                        self@.with_velocity(id as int, BASE_VELOCITY).lemma_moved_from_trans(
                            self@,
                            start,
                        );
                        self@.with_velocity(id as int, BASE_VELOCITY).lemma_moved_from_trans(
                            start,
                            old(self)@,
                        );
                    }
                    self.particles[id].velocity = BASE_VELOCITY;
                    return ;
                },
                ParticleUpdateState::Moving => {},
            }
            taken += 1;
        }
        proof {
            self@.lemma_with_updated(id as int, true);
            self@.with_updated(id as int, true).lemma_moved_from_trans(self@, start);
            self@.with_updated(id as int, true).lemma_moved_from_trans(start, old(self)@);
        }
        self.particles[id].updated = true;
    }

    /// The sweep of a tick: every particle that is sand or water and is not
    /// marked updated takes its turn, the last created first.
    pub fn update_particle_pos(&mut self)
        requires
            old(self).wf(),
        ensures
            final(self)@ == old(self)@.sweep(old(self)@.particles.len()),
            final(self).wf(),
            final(self)@.moved_from(old(self)@),
    {
        let mut id: usize = self.particles.len();
        while id > 0
            invariant
                self.wf(),
                self@.moved_from(old(self)@),
                id <= self@.particles.len(),
                self@.sweep(id as nat) == old(self)@.sweep(old(self)@.particles.len()),
            decreases id,
        {
            id -= 1;
            let ghost before = self@;
            if !self.particles[id].updated {
                match self.particles[id].kind {
                    FieldState::Sand(_) | FieldState::Water(_) => {
                        self.update_movable_particle(id);
                    },
                    _ => {},
                }
            }
            proof {
                self@.lemma_moved_from_trans(before, old(self)@);
            }
        }
    }

    /// Clears the "updated" flag of every particle.
    pub fn reset_updated_status(&mut self)
        requires
            old(self).wf(),
        ensures
            final(self)@ == old(self)@.reset_updated(),
            final(self).wf(),
            final(self)@.moved_from(old(self)@),
    {
        let count = self.particles.len();
        let mut id: usize = 0;
        while id < count
            invariant
                self.wf(),
                self@.moved_from(old(self)@),
                id <= count == self@.particles.len(),
                forall|i: int| 0 <= i < id ==> #[trigger] self@.particles[i] == (Particle {
                    updated: false,
                    ..old(self)@.particles[i]
                }),
                forall|i: int|
                    id <= i < count ==> #[trigger] self@.particles[i] == old(self)@.particles[i],
                self@.grid == old(self)@.grid,
            decreases count - id,
        {
            proof {
                self@.lemma_with_updated(id as int, false);
                self@.with_updated(id as int, false).lemma_moved_from_trans(self@, old(self)@);
            }
            self.particles[id].updated = false;
            id += 1;
        }
        assert(self@.particles =~= old(self)@.reset_updated().particles);
    }

    /// One tick with the pointer at `mouse_pos`: the sweep over the
    /// particles, then the brush, then all "updated" flags are cleared. Grid
    /// and store are consistent afterwards, and no wood has moved.
    pub fn update(&mut self, mouse_pos: Vec2<usize>)
        requires
            old(self).wf(),
        ensures
            final(self).wf(),
            final(self)@.ticked_from(old(self)@, mouse_pos),
            final(self)@.grown_from(old(self)@),
            forall|i: int|
                0 <= i < final(self)@.particles.len() ==> !(#[trigger] final(self)@.particles[i])
                    .updated,
    {
        self.update_particle_pos();
        let ghost swept = self@;
        self.create_particles(mouse_pos);
        let ghost brushed = self@;
        self.reset_updated_status();
        proof {
            assert(brushed.brushed_from(swept, swept.brush_center(mouse_pos)));
            assert forall|i: int| 0 <= i < old(self)@.particles.len() implies {
                &&& (#[trigger] self@.particles[i]).kind == old(self)@.particles[i].kind
                &&& self@.particles[i].color == old(self)@.particles[i].color
                &&& old(self)@.particles[i].kind is Wood ==> {
                    &&& self@.particles[i].pos == old(self)@.particles[i].pos
                    &&& self@.particles[i].velocity == old(self)@.particles[i].velocity
                }
            } by {
                let a = swept.particles[i];
                let b = brushed.particles[i];
            }
        }
    }

    /// What is to be drawn: one square for each particle, in creation order.
    pub fn render(&self) -> (pixels: Vec<Pixel>)
        requires
            self.wf(),
        ensures
            pixels@ == self@.particles.map_values(|p: Particle| spec_pixel(p)),
    {
        let mut pixels: Vec<Pixel> = Vec::new();
        let count = self.particles.len();
        let mut id: usize = 0;
        while id < count
            invariant
                self.wf(),
                id <= count == self@.particles.len(),
                pixels@ == self@.particles.take(id as int).map_values(|p: Particle| spec_pixel(p)),
            decreases count - id,
        {
            let p = self.particles[id];
            assert(self@.particle_ok(id as int));
            pixels.push(
                Pixel { x: p.pos.x * SCALE, y: p.pos.y * SCALE, size: SCALE, color: p.color },
            );
            assert(pixels@ =~= self@.particles.take(id + 1).map_values(
                |p: Particle| spec_pixel(p),
            ));
            id += 1;
        }
        assert(self@.particles.take(count as int) =~= self@.particles);
        pixels
    }

    /// The particles, in creation order.
    pub fn particles(&self) -> (particles: &Vec<Particle>)
        ensures
            particles@ == self@.particles,
    {
        &self.particles
    }

    /// What the cell at `pos` holds. `pos` must lie inside the grid.
    pub fn field(&self, pos: Vec2<usize>) -> (field: FieldState)
        requires
            self.wf(),
            self@.in_bounds(pos),
        ensures
            field == self@.cell(pos),
    {
        self.grid[get_id_from_pos(pos, self.grid_size)]
    }

    /// The material that the brush is armed with, if any.
    pub fn current_spawning_field(&self) -> (armed: Option<FieldState>)
        ensures
            armed == self@.armed,
    {
        self.current_spawning_field
    }

    /// The number of columns (`x`) and of rows (`y`) of the grid.
    pub fn grid_size(&self) -> (size: Vec2<usize>)
        ensures
            size.x == self@.width,
            size.y == self@.height,
    {
        self.grid_size
    }

    /// The radius of the brush, in cells.
    pub fn brush_radius(&self) -> (radius: usize)
        ensures
            radius == self@.brush_radius,
    {
        self.brush_radius
    }
}

} // verus!
