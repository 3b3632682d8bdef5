use miniverse::components::{Acceleration, Body, EntityStore, LastPos, Mass, Particle};

#[test]
fn seeded_body_has_a_clear_accumulator() {
    let body: Body<i32, u8, char> = Body::seeded(3, 2, 'y', 10, 8, 0);
    assert_eq!(
        body,
        Body {
            mass: Mass(3),
            radius: 2,
            color: 'y',
            position: 10,
            last_pos: LastPos(8),
            acceleration: Acceleration(0),
        }
    );
}

#[test]
fn seeded_particle_has_a_clear_accumulator() {
    let particle: Particle<i32, char> = Particle::seeded('b', -4, -5, 0);
    assert_eq!(
        particle,
        Particle { color: 'b', position: -4, last_pos: LastPos(-5), acceleration: Acceleration(0) }
    );
}

#[test]
fn accelerated_entity_changes_its_accumulator_only() {
    let body: Body<i32, u8, char> = Body::seeded(3, 2, 'y', 10, 8, 0);
    assert_eq!(body.accelerated(7), Body { acceleration: Acceleration(7), ..body });
    assert_eq!(body.accelerated(7).accelerated(-1), Body { acceleration: Acceleration(-1), ..body });
    let particle: Particle<i32, char> = Particle::seeded('b', -4, -5, 0);
    assert_eq!(particle.accelerated(9), Particle { acceleration: Acceleration(9), ..particle });
}

#[test]
fn stepped_entity_remembers_where_it_stood() {
    let body: Body<i32, u8, char> = Body::seeded(3, 2, 'y', 10, 8, 0).accelerated(5);
    assert_eq!(
        body.stepped(17, 0),
        Body {
            mass: Mass(3),
            radius: 2,
            color: 'y',
            position: 17,
            last_pos: LastPos(10),
            acceleration: Acceleration(0),
        }
    );
    let particle: Particle<i32, char> = Particle::seeded('b', -4, -5, 0).accelerated(2);
    assert_eq!(
        particle.stepped(-1, 0),
        Particle { color: 'b', position: -1, last_pos: LastPos(-4), acceleration: Acceleration(0) }
    );
}

#[test]
fn store_keeps_its_entities_by_handle() {
    let mut store: EntityStore<i32, u8, char> = EntityStore::new();
    assert!(store.bodies.is_empty());
    assert!(store.particles.is_empty());
    store.bodies.push(Body::seeded(1, 1, 'a', 0, 0, 0));
    store.particles.push(Particle::seeded('b', 1, 1, 0));
    store.bodies.push(Body::seeded(2, 1, 'c', 2, 2, 0));
    let copy = store.clone();
    assert_eq!(copy.bodies[1].mass, Mass(2));
    assert_eq!(copy.particles[0].color, 'b');
    assert_eq!(copy.bodies, store.bodies);
}
