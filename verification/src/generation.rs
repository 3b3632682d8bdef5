//! The building blocks of a simulation.

use vstd::prelude::*;

verus! {

/// One system that the simulation creates when it is set up.
#[derive(Clone, Copy, Debug, PartialEq)]
pub enum Prefab<V, S, C> {
    /// A particle without mass: bodies attract it, and it attracts nothing.
    Particle { initial_position: V, initial_velocity: V, color: C },
    /// A celestial body: like a particle, but with mass.
    Body { mass: S, radius: S, color: C, initial_position: V, initial_velocity: V },
    /// A galaxy: a body at the centre and `amount` particles that circle it
    /// in `arms` spiral arms. `normal` is the direction that the galaxy
    /// faces.
    Galaxy {
        amount: u32,
        arms: u32,
        center_mass: S,
        center_pos: V,
        center_vel: V,
        normal: V,
        particle_color: C,
        center_color: C,
    },
    /// A belt of `amount` particles on a circle. `normal` is the direction
    /// that the belt faces.
    AsteroidBelt {
        amount: u32,
        radius: S,
        center_mass: S,
        center_pos: V,
        center_vel: V,
        normal: V,
        particle_color: C,
    },
}

impl<V, S, C> Prefab<V, S, C> {
    /// Whether the prefab can be created: a galaxy with particles has at
    /// least one arm to put them in.
    pub open spec fn well_formed(self) -> bool {
        match self {
            Prefab::Galaxy { amount, arms, .. } => amount > 0 ==> arms > 0,
            _ => true,
        }
    }

    /// Tells whether the prefab can be created.
    pub fn is_well_formed(&self) -> (ok: bool)
        ensures
            ok == self.well_formed(),
    {
        match self {
            Prefab::Galaxy { amount, arms, .. } => *amount == 0 || *arms > 0,
            _ => true,
        }
    }

    /// The number of bodies that the prefab creates.
    pub open spec fn bodies(self) -> nat {
        match self {
            Prefab::Particle { .. } => 0,
            Prefab::Body { .. } => 1,
            Prefab::Galaxy { .. } => 1,
            Prefab::AsteroidBelt { .. } => 0,
        }
    }

    /// The number of particles that the prefab creates.
    pub open spec fn particles(self) -> nat {
        match self {
            Prefab::Particle { .. } => 1,
            Prefab::Body { .. } => 0,
            Prefab::Galaxy { amount, .. } => amount as nat,
            Prefab::AsteroidBelt { amount, .. } => amount as nat,
        }
    }
}

} // verus!
