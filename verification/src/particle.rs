//! A particle: one candidate solution with position, velocity and the
//! best point it has individually visited.

use vstd::prelude::*;
use crate::fixed::{fx_mul, sat_add, sat_sub, spec_fx_mul, spec_sat_add, spec_sat_sub};
use crate::objective::Objective;

verus! {

/// One candidate solution of the swarm.
pub struct Particle {
    pub position: Vec<i64>,
    pub velocity: Vec<i64>,
    pub best_position: Vec<i64>,
    pub best_fitness: i64,
}

/// The mathematical view of a particle.
pub struct ParticleModel {
    pub position: Seq<i64>,
    pub velocity: Seq<i64>,
    pub best_position: Seq<i64>,
    pub best_fitness: i64,
}

impl View for Particle {
    type V = ParticleModel;

    open spec fn view(&self) -> ParticleModel {
        ParticleModel {
            position: self.position@,
            velocity: self.velocity@,
            best_position: self.best_position@,
            best_fitness: self.best_fitness,
        }
    }
}

/// Dimensional consistency: all three vectors have the configured length.
pub open spec fn particle_wf(p: ParticleModel, dims: nat) -> bool {
    &&& p.position.len() == dims
    &&& p.velocity.len() == dims
    &&& p.best_position.len() == dims
}

/// The personal best records an actual evaluation of the objective.
pub open spec fn particle_consistent<O: Objective>(p: ParticleModel, objective: O) -> bool {
    p.best_fitness == objective.eval_spec(p.best_position)
}

/// One velocity component after an update: inertia times the previous
/// component, plus a cognitive pull toward the personal best scaled by the
/// random factor `r1`, plus a social pull toward the swarm's global best
/// scaled by the independent random factor `r2`.
pub open spec fn velocity_component(
    inertia: i64,
    cognitive: i64,
    social: i64,
    r1: i64,
    r2: i64,
    v: i64,
    x: i64,
    personal: i64,
    global: i64,
) -> i64 {
    spec_sat_add(
        spec_sat_add(
            spec_fx_mul(inertia, v),
            spec_fx_mul(spec_fx_mul(cognitive, r1), spec_sat_sub(personal, x)),
        ),
        spec_fx_mul(spec_fx_mul(social, r2), spec_sat_sub(global, x)),
    )
}

/// The whole velocity vector after an update against the global best
/// `global`, with one pair of random factors for the particle.
pub open spec fn updated_velocity(
    p: ParticleModel,
    global: Seq<i64>,
    inertia: i64,
    cognitive: i64,
    social: i64,
    r1: i64,
    r2: i64,
) -> Seq<i64> {
    Seq::new(
        p.velocity.len(),
        |d: int| velocity_component(
            inertia,
            cognitive,
            social,
            r1,
            r2,
            p.velocity[d],
            p.position[d],
            p.best_position[d],
            global[d],
        ),
    )
}

/// The position after the velocity has been applied. Positions are not
/// clamped back into the configured bounds: a particle may drift outside
/// them, as the update rule prescribes.
pub open spec fn moved_position(position: Seq<i64>, velocity: Seq<i64>) -> Seq<i64> {
    Seq::new(position.len(), |d: int| spec_sat_add(position[d], velocity[d]))
}

/// The particle after a position update against objective value `fitness`
/// at the moved position: the personal best is overwritten exactly when
/// the move strictly improved on it.
pub open spec fn position_updated(p: ParticleModel, fitness: i64) -> ParticleModel {
    let moved = moved_position(p.position, p.velocity);
    if fitness < p.best_fitness {
        ParticleModel {
            position: moved,
            velocity: p.velocity,
            best_position: moved,
            best_fitness: fitness,
        }
    } else {
        ParticleModel { position: moved, velocity: p.velocity, ..p }
    }
}

impl Particle {
    /// Recompute the velocity per the update rule, reading the global best
    /// as it stood at the start of the iteration.
    pub fn update_velocity(
        &mut self,
        global: &Vec<i64>,
        inertia: i64,
        cognitive: i64,
        social: i64,
        r1: i64,
        r2: i64,
    )
        requires
            old(self)@.velocity.len() == old(self)@.position.len(),
            old(self)@.best_position.len() == old(self)@.position.len(),
            global@.len() == old(self)@.position.len(),
        ensures
            final(self)@.velocity == updated_velocity(
                old(self)@, global@, inertia, cognitive, social, r1, r2,
            ),
            final(self)@.position == old(self)@.position,
            final(self)@.best_position == old(self)@.best_position,
            final(self)@.best_fitness == old(self)@.best_fitness,
    {
        let dims = self.velocity.len();
        let mut fresh: Vec<i64> = Vec::new();
        let mut d: usize = 0;
        while d < dims
            invariant
                dims == self.velocity.len(),
                self == old(self),
                d <= dims,
                global@.len() == dims,
                self@.position.len() == dims,
                self@.best_position.len() == dims,
                fresh@.len() == d,
                forall|k: int| 0 <= k < d ==> fresh@[k] == updated_velocity(
                    self@, global@, inertia, cognitive, social, r1, r2,
                )[k],
            decreases dims - d,
        {
            let pull_personal = fx_mul(fx_mul(cognitive, r1), sat_sub(self.best_position[d], self.position[d]));
            let pull_global = fx_mul(fx_mul(social, r2), sat_sub(global[d], self.position[d]));
            let component = sat_add(sat_add(fx_mul(inertia, self.velocity[d]), pull_personal), pull_global);
            fresh.push(component);
            d = d + 1;
        }
        proof {
            assert(fresh@ =~= updated_velocity(self@, global@, inertia, cognitive, social, r1, r2));
        }
        self.velocity = fresh;
    }

    /// Apply the velocity to the position, re-evaluate the objective there,
    /// and overwrite the personal best exactly on strict improvement.
    pub fn update_position<O: Objective>(&mut self, objective: &O)
        requires
            old(self)@.velocity.len() == old(self)@.position.len(),
        ensures
            final(self)@ == position_updated(
                old(self)@,
                objective.eval_spec(moved_position(old(self)@.position, old(self)@.velocity)),
            ),
    {
        let dims = self.position.len();
        let mut moved: Vec<i64> = Vec::new();
        let mut d: usize = 0;
        while d < dims
            invariant
                dims == self.position.len(),
                self == old(self),
                d <= dims,
                self@.velocity.len() == dims,
                moved@.len() == d,
                forall|k: int| 0 <= k < d ==> moved@[k] == moved_position(
                    self@.position, self@.velocity,
                )[k],
            decreases dims - d,
        {
            moved.push(sat_add(self.position[d], self.velocity[d]));
            d = d + 1;
        }
        proof {
            assert(moved@ =~= moved_position(self@.position, self@.velocity));
        }
        let fitness = objective.eval(&moved);
        if fitness < self.best_fitness {
            self.best_position = moved.clone();
            self.best_fitness = fitness;
        }
        self.position = moved;
    }
}

} // verus!
