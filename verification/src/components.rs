//! The records of the entity store.
//!
//! The library is generic over the types of its quantities: `V` is the type of
//! a position, a velocity or an acceleration, `S` the type of a mass, a length
//! or a time, and `C` the type of a colour. It stores such values, moves them
//! and hands them to the callbacks that do the arithmetic; it never looks
//! inside one.

use vstd::prelude::*;

verus! {

/// The acceleration that an entity has gathered during the current tick.
#[derive(Clone, Copy, Debug, PartialEq)]
pub struct Acceleration<V>(pub V);

/// The position that an entity had one tick ago.
#[derive(Clone, Copy, Debug, PartialEq)]
pub struct LastPos<V>(pub V);

/// The mass of a body.
#[derive(Clone, Copy, Debug, PartialEq)]
pub struct Mass<S>(pub S);

/// An entity with mass: it attracts every other entity and is attracted by
/// every other body.
#[derive(Clone, Copy, Debug, PartialEq)]
pub struct Body<V, S, C> {
    pub mass: Mass<S>,
    /// Display radius; no pass reads it.
    pub radius: S,
    /// Display colour; no pass reads it.
    pub color: C,
    pub position: V,
    pub last_pos: LastPos<V>,
    pub acceleration: Acceleration<V>,
}

/// An entity without mass: bodies attract it, and it attracts nothing.
#[derive(Clone, Copy, Debug, PartialEq)]
pub struct Particle<V, C> {
    /// Display colour; no pass reads it.
    pub color: C,
    pub position: V,
    pub last_pos: LastPos<V>,
    pub acceleration: Acceleration<V>,
}

impl<V, S, C> Body<V, S, C> {
    /// A new body at `position`, which stood at `last` one tick before, with
    /// `zero` as its accumulated acceleration.
    pub open spec fn spec_seeded(mass: S, radius: S, color: C, position: V, last: V, zero: V) -> Self {
        Body {
            mass: Mass(mass),
            radius,
            color,
            position,
            last_pos: LastPos(last),
            acceleration: Acceleration(zero),
        }
    }

    /// A new body at `position`, which stood at `last` one tick before, with
    /// `zero` as its accumulated acceleration.
    #[verifier::when_used_as_spec(spec_seeded)]
    pub fn seeded(mass: S, radius: S, color: C, position: V, last: V, zero: V) -> (body: Self)
        ensures
            body == Self::spec_seeded(mass, radius, color, position, last, zero),
    {
        Body {
            mass: Mass(mass),
            radius,
            color,
            position,
            last_pos: LastPos(last),
            acceleration: Acceleration(zero),
        }
    }

    /// This body with another accumulated acceleration.
    pub open spec fn spec_accelerated(self, acceleration: V) -> Self {
        Body { acceleration: Acceleration(acceleration), ..self }
    }

    /// This body with another accumulated acceleration.
    #[verifier::when_used_as_spec(spec_accelerated)]
    pub fn accelerated(self, acceleration: V) -> (body: Self)
        ensures
            body == self.spec_accelerated(acceleration),
    {
        Body { acceleration: Acceleration(acceleration), ..self }
    }

    /// This body one step later, at `position`: its position became its last
    /// position, and `zero` its accumulated acceleration.
    pub open spec fn spec_stepped(self, position: V, zero: V) -> Self {
        Body {
            position,
            last_pos: LastPos(self.position),
            acceleration: Acceleration(zero),
            ..self
        }
    }

    /// This body one step later, at `position`: its position became its last
    /// position, and `zero` its accumulated acceleration.
    #[verifier::when_used_as_spec(spec_stepped)]
    pub fn stepped(self, position: V, zero: V) -> (body: Self)
        ensures
            body == self.spec_stepped(position, zero),
    {
        Body {
            position,
            last_pos: LastPos(self.position),
            acceleration: Acceleration(zero),
            ..self
        }
    }

    /// Whether the body stands where it stood one tick before and has
    /// gathered no acceleration, `zero` being the clear accumulator.
    pub open spec fn at_rest(self, zero: V) -> bool {
        self.last_pos.0 == self.position && self.acceleration.0 == zero
    }

    /// Whether `other` is this body but for its accumulated acceleration.
    pub open spec fn same_but_acceleration(self, other: Self) -> bool {
        other == self.accelerated(other.acceleration.0)
    }
}

impl<V, C> Particle<V, C> {
    /// A new particle at `position`, which stood at `last` one tick before,
    /// with `zero` as its accumulated acceleration.
    pub open spec fn spec_seeded(color: C, position: V, last: V, zero: V) -> Self {
        Particle { color, position, last_pos: LastPos(last), acceleration: Acceleration(zero) }
    }

    /// A new particle at `position`, which stood at `last` one tick before,
    /// with `zero` as its accumulated acceleration.
    #[verifier::when_used_as_spec(spec_seeded)]
    pub fn seeded(color: C, position: V, last: V, zero: V) -> (particle: Self)
        ensures
            particle == Self::spec_seeded(color, position, last, zero),
    {
        Particle { color, position, last_pos: LastPos(last), acceleration: Acceleration(zero) }
    }

    /// This particle with another accumulated acceleration.
    pub open spec fn spec_accelerated(self, acceleration: V) -> Self {
        Particle { acceleration: Acceleration(acceleration), ..self }
    }

    /// This particle with another accumulated acceleration.
    #[verifier::when_used_as_spec(spec_accelerated)]
    pub fn accelerated(self, acceleration: V) -> (particle: Self)
        ensures
            particle == self.spec_accelerated(acceleration),
    {
        Particle { acceleration: Acceleration(acceleration), ..self }
    }

    /// This particle one step later, at `position`: its position became its
    /// last position, and `zero` its accumulated acceleration.
    pub open spec fn spec_stepped(self, position: V, zero: V) -> Self {
        Particle {
            position,
            last_pos: LastPos(self.position),
            acceleration: Acceleration(zero),
            ..self
        }
    }

    /// This particle one step later, at `position`: its position became its
    /// last position, and `zero` its accumulated acceleration.
    #[verifier::when_used_as_spec(spec_stepped)]
    pub fn stepped(self, position: V, zero: V) -> (particle: Self)
        ensures
            particle == self.spec_stepped(position, zero),
    {
        Particle {
            position,
            last_pos: LastPos(self.position),
            acceleration: Acceleration(zero),
            ..self
        }
    }

    /// Whether the particle stands where it stood one tick before and has
    /// gathered no acceleration, `zero` being the clear accumulator.
    pub open spec fn at_rest(self, zero: V) -> bool {
        self.last_pos.0 == self.position && self.acceleration.0 == zero
    }

    /// Whether `other` is this particle but for its accumulated acceleration.
    pub open spec fn same_but_acceleration(self, other: Self) -> bool {
        other == self.accelerated(other.acceleration.0)
    }
}

/// What an [`EntityStore`] holds, as two sequences.
pub struct Entities<V, S, C> {
    pub bodies: Seq<Body<V, S, C>>,
    pub particles: Seq<Particle<V, C>>,
}

/// The two arenas of a simulation. An entity's handle is its index in its
/// arena; entities are never removed, so a handle stays valid.
#[derive(Clone, Debug)]
pub struct EntityStore<V, S, C> {
    pub bodies: Vec<Body<V, S, C>>,
    pub particles: Vec<Particle<V, C>>,
}

impl<V, S, C> View for EntityStore<V, S, C> {
    type V = Entities<V, S, C>;

    open spec fn view(&self) -> Entities<V, S, C> {
        Entities { bodies: self.bodies@, particles: self.particles@ }
    }
}

impl<V: Copy, S: Copy, C: Copy> EntityStore<V, S, C> {
    /// A store without entities.
    pub fn new() -> (store: Self)
        ensures
            store@.bodies == Seq::<Body<V, S, C>>::empty(),
            store@.particles == Seq::<Particle<V, C>>::empty(),
    {
        EntityStore { bodies: Vec::new(), particles: Vec::new() }
    }
}

} // verus!
