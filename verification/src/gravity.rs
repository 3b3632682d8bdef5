//! The two force passes and the integrator.
//!
//! The arithmetic of a pass is a callback; the pass fixes which entities the
//! callback is applied to, in which order, and which fields of the store its
//! result may change. A postcondition speaks of a callback through the
//! callback's own `ensures`.

use vstd::prelude::*;
use crate::components::{Body, Entities, EntityStore, Particle};
use crate::pairs::{pair_order, pairs_before, row_pairs};
use crate::Settings;

verus! {

/// `after` is `before` with the pair `(p.0, p.1)` visited once: the callback
/// was applied to the two bodies as they stood, and its two results became
/// their accumulated accelerations. Nothing else differs.
pub open spec fn pair_applied<V, S, C, F: Fn(S, Body<V, S, C>, Body<V, S, C>) -> (V, V)>(
    pair: F,
    gravity_constant: S,
    p: (nat, nat),
    before: Seq<Body<V, S, C>>,
    after: Seq<Body<V, S, C>>,
) -> bool {
    let i = p.0 as int;
    let j = p.1 as int;
    &&& 0 <= i < j < before.len()
    &&& after.len() == before.len()
    &&& pair.ensures(
        (gravity_constant, before[i], before[j]),
        (after[i].acceleration.0, after[j].acceleration.0),
    )
    &&& after == before.update(i, before[i].accelerated(after[i].acceleration.0)).update(
        j,
        before[j].accelerated(after[j].acceleration.0),
    )
}

/// `after` is `before` with the pairs of `order` visited one after another.
pub open spec fn pairs_applied<V, S, C, F: Fn(S, Body<V, S, C>, Body<V, S, C>) -> (V, V)>(
    pair: F,
    gravity_constant: S,
    order: Seq<(nat, nat)>,
    before: Seq<Body<V, S, C>>,
    after: Seq<Body<V, S, C>>,
) -> bool
    decreases order.len(),
{
    if order.len() == 0 {
        after == before
    } else {
        exists|mid: Seq<Body<V, S, C>>|
            pairs_applied(pair, gravity_constant, order.drop_last(), before, mid)
                && #[trigger] pair_applied(pair, gravity_constant, order.last(), mid, after)
    }
}

/// What [`interact_bodies`] does: every unordered pair of bodies is visited
/// once, in the order of `pair_order`, and no particle changes.
pub open spec fn bodies_interacted<V, S, C, F: Fn(S, Body<V, S, C>, Body<V, S, C>) -> (V, V)>(
    pair: F,
    gravity_constant: S,
    before: Entities<V, S, C>,
    after: Entities<V, S, C>,
) -> bool {
    &&& after.particles == before.particles
    &&& pairs_applied(
        pair,
        gravity_constant,
        pair_order(before.bodies.len()),
        before.bodies,
        after.bodies,
    )
}

/// `after` is `before` pulled once by `body`: the callback's result became
/// the particle's accumulated acceleration. Nothing else differs.
pub open spec fn pull_applied<V, S, C, F: Fn(S, Particle<V, C>, Body<V, S, C>) -> V>(
    attract: F,
    gravity_constant: S,
    body: Body<V, S, C>,
    before: Particle<V, C>,
    after: Particle<V, C>,
) -> bool {
    &&& attract.ensures((gravity_constant, before, body), after.acceleration.0)
    &&& before.same_but_acceleration(after)
}

/// `after` is `before` pulled by the first `k` of `bodies`, one after
/// another.
pub open spec fn pulls_applied<V, S, C, F: Fn(S, Particle<V, C>, Body<V, S, C>) -> V>(
    attract: F,
    gravity_constant: S,
    bodies: Seq<Body<V, S, C>>,
    k: nat,
    before: Particle<V, C>,
    after: Particle<V, C>,
) -> bool
    decreases k,
{
    if k == 0 {
        after == before
    } else {
        exists|mid: Particle<V, C>|
            pulls_applied(attract, gravity_constant, bodies, (k - 1) as nat, before, mid)
                && #[trigger] pull_applied(attract, gravity_constant, bodies[k - 1], mid, after)
    }
}

/// What [`interact_particles_with_bodies`] does: every particle is pulled by
/// every body, in the order of the bodies, and no body changes.
pub open spec fn particles_attracted<V, S, C, F: Fn(S, Particle<V, C>, Body<V, S, C>) -> V>(
    attract: F,
    gravity_constant: S,
    before: Entities<V, S, C>,
    after: Entities<V, S, C>,
) -> bool {
    &&& after.bodies == before.bodies
    &&& after.particles.len() == before.particles.len()
    &&& forall|p: int|
        0 <= p < before.particles.len() ==> pulls_applied(
            attract,
            gravity_constant,
            before.bodies,
            before.bodies.len(),
            before.particles[p],
            #[trigger] after.particles[p],
        )
}

/// `after` is the body `before` one step later: the callback gave the new
/// position, the old position became the last one, and the accumulator was
/// cleared.
pub open spec fn body_stepped<V, S, C, F: Fn(S, V, V, V) -> V>(
    step: F,
    time_step: S,
    zero: V,
    before: Body<V, S, C>,
    after: Body<V, S, C>,
) -> bool {
    &&& step.ensures(
        (time_step, before.position, before.last_pos.0, before.acceleration.0),
        after.position,
    )
    &&& after == before.stepped(after.position, zero)
}

/// `after` is the particle `before` one step later.
pub open spec fn particle_stepped<V, C, S, F: Fn(S, V, V, V) -> V>(
    step: F,
    time_step: S,
    zero: V,
    before: Particle<V, C>,
    after: Particle<V, C>,
) -> bool {
    &&& step.ensures(
        (time_step, before.position, before.last_pos.0, before.acceleration.0),
        after.position,
    )
    &&& after == before.stepped(after.position, zero)
}

/// What [`integrate`] does: every entity is stepped once.
pub open spec fn integrated<V, S, C, F: Fn(S, V, V, V) -> V>(
    step: F,
    time_step: S,
    zero: V,
    before: Entities<V, S, C>,
    after: Entities<V, S, C>,
) -> bool {
    &&& after.bodies.len() == before.bodies.len()
    &&& after.particles.len() == before.particles.len()
    &&& forall|i: int|
        0 <= i < before.bodies.len() ==> body_stepped(
            step,
            time_step,
            zero,
            before.bodies[i],
            #[trigger] after.bodies[i],
        )
    &&& forall|i: int|
        0 <= i < before.particles.len() ==> particle_stepped(
            step,
            time_step,
            zero,
            before.particles[i],
            #[trigger] after.particles[i],
        )
}

/// Visiting one more pair extends the order by that pair.
pub proof fn lemma_pairs_applied_push<V, S, C, F: Fn(S, Body<V, S, C>, Body<V, S, C>) -> (V, V)>(
    pair: F,
    gravity_constant: S,
    order: Seq<(nat, nat)>,
    p: (nat, nat),
    before: Seq<Body<V, S, C>>,
    mid: Seq<Body<V, S, C>>,
    after: Seq<Body<V, S, C>>,
)
    requires
        pairs_applied(pair, gravity_constant, order, before, mid),
        pair_applied(pair, gravity_constant, p, mid, after),
    ensures
        pairs_applied(pair, gravity_constant, order.push(p), before, after),
{
    let longer = order.push(p);
    assert(longer.drop_last() =~= order);
    assert(pair_applied(pair, gravity_constant, longer.last(), mid, after));
}

/// The body-body pass changes accumulated accelerations and nothing else:
/// the bodies keep their number, and each keeps its mass, its position, its
/// last position and its look.
pub proof fn lemma_pairs_applied_frame<V, S, C, F: Fn(S, Body<V, S, C>, Body<V, S, C>) -> (V, V)>(
    pair: F,
    gravity_constant: S,
    order: Seq<(nat, nat)>,
    before: Seq<Body<V, S, C>>,
    after: Seq<Body<V, S, C>>,
)
    requires
        pairs_applied(pair, gravity_constant, order, before, after),
    ensures
        after.len() == before.len(),
        forall|i: int|
            0 <= i < before.len() ==> before[i].same_but_acceleration(#[trigger] after[i]),
    decreases order.len(),
{
    if order.len() > 0 {
        let mid = choose|mid: Seq<Body<V, S, C>>|
            pairs_applied(pair, gravity_constant, order.drop_last(), before, mid)
                && #[trigger] pair_applied(pair, gravity_constant, order.last(), mid, after);
        lemma_pairs_applied_frame(pair, gravity_constant, order.drop_last(), before, mid);
    }
}

/// The body-to-particle pass changes accumulated accelerations and nothing
/// else: a particle keeps its position, its last position and its colour.
pub proof fn lemma_pulls_applied_frame<V, S, C, F: Fn(S, Particle<V, C>, Body<V, S, C>) -> V>(
    attract: F,
    gravity_constant: S,
    bodies: Seq<Body<V, S, C>>,
    k: nat,
    before: Particle<V, C>,
    after: Particle<V, C>,
)
    requires
        pulls_applied(attract, gravity_constant, bodies, k, before, after),
    ensures
        before.same_but_acceleration(after),
    decreases k,
{
    if k > 0 {
        let mid = choose|mid: Particle<V, C>|
            pulls_applied(attract, gravity_constant, bodies, (k - 1) as nat, before, mid)
                && #[trigger] pull_applied(attract, gravity_constant, bodies[k - 1], mid, after);
        lemma_pulls_applied_frame(attract, gravity_constant, bodies, (k - 1) as nat, before, mid);
    }
}

/// Whether `pair` is a function: for each argument it allows one result.
pub open spec fn pair_single_valued<V, S, C, F: Fn(S, Body<V, S, C>, Body<V, S, C>) -> (V, V)>(
    pair: F,
) -> bool {
    forall|g: S, a: Body<V, S, C>, b: Body<V, S, C>, r1: (V, V), r2: (V, V)|
        #[trigger] pair.ensures((g, a, b), r1) && #[trigger] pair.ensures((g, a, b), r2) ==> r1
            == r2
}

/// Whether `attract` is a function: for each argument it allows one result.
pub open spec fn attract_single_valued<V, S, C, F: Fn(S, Particle<V, C>, Body<V, S, C>) -> V>(
    attract: F,
) -> bool {
    forall|g: S, p: Particle<V, C>, b: Body<V, S, C>, r1: V, r2: V|
        #[trigger] attract.ensures((g, p, b), r1) && #[trigger] attract.ensures((g, p, b), r2)
            ==> r1 == r2
}

/// Whether `step` is a function: for each argument it allows one result.
pub open spec fn step_single_valued<V, S, F: Fn(S, V, V, V) -> V>(step: F) -> bool {
    forall|dt: S, position: V, last: V, acceleration: V, r1: V, r2: V|
        #[trigger] step.ensures((dt, position, last, acceleration), r1) && #[trigger] step.ensures(
            (dt, position, last, acceleration),
            r2,
        ) ==> r1 == r2
}

/// The body-body pass adds no choice of its own: where `pair` is a function,
/// the bodies before the pass decide the bodies after it.
pub proof fn lemma_pairs_applied_unique<
    V,
    S,
    C,
    F: Fn(S, Body<V, S, C>, Body<V, S, C>) -> (V, V),
>(
    pair: F,
    gravity_constant: S,
    order: Seq<(nat, nat)>,
    before: Seq<Body<V, S, C>>,
    one: Seq<Body<V, S, C>>,
    other: Seq<Body<V, S, C>>,
)
    requires
        pair_single_valued(pair),
        pairs_applied(pair, gravity_constant, order, before, one),
        pairs_applied(pair, gravity_constant, order, before, other),
    ensures
        one == other,
    decreases order.len(),
{
    if order.len() > 0 {
        let mid_one = choose|mid: Seq<Body<V, S, C>>|
            pairs_applied(pair, gravity_constant, order.drop_last(), before, mid)
                && #[trigger] pair_applied(pair, gravity_constant, order.last(), mid, one);
        let mid_other = choose|mid: Seq<Body<V, S, C>>|
            pairs_applied(pair, gravity_constant, order.drop_last(), before, mid)
                && #[trigger] pair_applied(pair, gravity_constant, order.last(), mid, other);
        lemma_pairs_applied_unique(
            pair,
            gravity_constant,
            order.drop_last(),
            before,
            mid_one,
            mid_other,
        );
    }
}

/// The body-to-particle pass adds no choice of its own: where `attract` is a
/// function, the particle before the pass and the bodies decide the particle
/// after it.
pub proof fn lemma_pulls_applied_unique<V, S, C, F: Fn(S, Particle<V, C>, Body<V, S, C>) -> V>(
    attract: F,
    gravity_constant: S,
    bodies: Seq<Body<V, S, C>>,
    k: nat,
    before: Particle<V, C>,
    one: Particle<V, C>,
    other: Particle<V, C>,
)
    requires
        attract_single_valued(attract),
        pulls_applied(attract, gravity_constant, bodies, k, before, one),
        pulls_applied(attract, gravity_constant, bodies, k, before, other),
    ensures
        one == other,
    decreases k,
{
    if k > 0 {
        let mid_one = choose|mid: Particle<V, C>|
            pulls_applied(attract, gravity_constant, bodies, (k - 1) as nat, before, mid)
                && #[trigger] pull_applied(attract, gravity_constant, bodies[k - 1], mid, one);
        let mid_other = choose|mid: Particle<V, C>|
            pulls_applied(attract, gravity_constant, bodies, (k - 1) as nat, before, mid)
                && #[trigger] pull_applied(attract, gravity_constant, bodies[k - 1], mid, other);
        lemma_pulls_applied_unique(
            attract,
            gravity_constant,
            bodies,
            (k - 1) as nat,
            before,
            mid_one,
            mid_other,
        );
    }
}

/// The integrator adds no choice of its own: where `step` is a function, the
/// entities before the step decide the entities after it.
pub proof fn lemma_integrated_unique<V, S, C, F: Fn(S, V, V, V) -> V>(
    step: F,
    time_step: S,
    zero: V,
    before: Entities<V, S, C>,
    one: Entities<V, S, C>,
    other: Entities<V, S, C>,
)
    requires
        step_single_valued(step),
        integrated(step, time_step, zero, before, one),
        integrated(step, time_step, zero, before, other),
    ensures
        one == other,
{
    assert(one.bodies =~= other.bodies);
    assert(one.particles =~= other.particles);
}

/// Whether `step` keeps an entity at rest in its place: called with a last
/// position that is the position, and with `zero` as the acceleration, it
/// gives the position again.
pub open spec fn step_keeps_rest<V, S, F: Fn(S, V, V, V) -> V>(step: F, zero: V) -> bool {
    forall|dt: S, position: V, next: V| #[trigger]
        step.ensures((dt, position, position, zero), next) ==> next == position
}

/// An entity at rest stays at rest: where `step` keeps an entity at rest in
/// its place, the integrator leaves every such entity as it was.
pub proof fn lemma_rest_is_kept<V, S, C, F: Fn(S, V, V, V) -> V>(
    step: F,
    time_step: S,
    zero: V,
    before: Entities<V, S, C>,
    after: Entities<V, S, C>,
)
    requires
        step_keeps_rest(step, zero),
        integrated(step, time_step, zero, before, after),
    ensures
        forall|i: int|
            0 <= i < before.bodies.len() && before.bodies[i].at_rest(zero) ==> #[trigger] after.bodies[i]
                == before.bodies[i],
        forall|i: int|
            0 <= i < before.particles.len() && before.particles[i].at_rest(zero)
                ==> #[trigger] after.particles[i] == before.particles[i],
{
}

/// With two bodies the body-body pass makes one call: both new accelerations
/// are the two results of `pair` applied to the first body and the second.
pub proof fn lemma_two_bodies_interact_once<
    V,
    S,
    C,
    F: Fn(S, Body<V, S, C>, Body<V, S, C>) -> (V, V),
>(pair: F, gravity_constant: S, before: Entities<V, S, C>, after: Entities<V, S, C>)
    requires
        before.bodies.len() == 2,
        bodies_interacted(pair, gravity_constant, before, after),
    ensures
        after.bodies.len() == 2,
        pair.ensures(
            (gravity_constant, before.bodies[0], before.bodies[1]),
            (after.bodies[0].acceleration.0, after.bodies[1].acceleration.0),
        ),
        before.bodies[0].same_but_acceleration(after.bodies[0]),
        before.bodies[1].same_but_acceleration(after.bodies[1]),
{
    reveal_with_fuel(pairs_before, 3);
    let order = pair_order(2);
    assert(order =~= seq![(0nat, 1nat)]);
    assert(order.drop_last() =~= Seq::<(nat, nat)>::empty());
    let mid = choose|mid: Seq<Body<V, S, C>>|
        pairs_applied(pair, gravity_constant, order.drop_last(), before.bodies, mid)
            && #[trigger] pair_applied(pair, gravity_constant, order.last(), mid, after.bodies);
    assert(mid == before.bodies);
}

/// With fewer than two bodies the body-body pass changes nothing.
pub proof fn lemma_lone_body_unchanged<
    V,
    S,
    C,
    F: Fn(S, Body<V, S, C>, Body<V, S, C>) -> (V, V),
>(pair: F, gravity_constant: S, before: Entities<V, S, C>, after: Entities<V, S, C>)
    requires
        before.bodies.len() <= 1,
        bodies_interacted(pair, gravity_constant, before, after),
    ensures
        after == before,
{
    reveal_with_fuel(pairs_before, 2);
    assert(pair_order(before.bodies.len()) =~= Seq::<(nat, nat)>::empty());
}

/// The body-body pass: for every unordered pair of bodies, `pair` is called
/// once with the gravitational constant and the two bodies, the one of the
/// lower handle first, and gives the two new accumulated accelerations.
///
/// For Newton's law `pair` takes `delta`, the way from the first body to the
/// second, and `f = delta * (g / |delta|^2)`; it adds `f * second.mass` to
/// the acceleration of the first body and takes `f * first.mass` from that
/// of the second. One call serves both directions of a pair.
pub fn interact_bodies<V: Copy, S: Copy, C: Copy, F: Fn(S, Body<V, S, C>, Body<V, S, C>) -> (V, V)>(
    settings: &Settings<S>,
    store: &mut EntityStore<V, S, C>,
    pair: &F,
)
    requires
        forall|g: S, a: Body<V, S, C>, b: Body<V, S, C>| pair.requires((g, a, b)),
    ensures
        bodies_interacted(*pair, settings.gravity_constant, old(store)@, final(store)@),
        final(store)@.bodies.len() == old(store)@.bodies.len(),
        forall|i: int|
            0 <= i < old(store)@.bodies.len() ==> old(store)@.bodies[i].same_but_acceleration(
                #[trigger] final(store)@.bodies[i],
            ),
{
    let g = settings.gravity_constant;
    let n = store.bodies.len();
    let ghost start = store.bodies@;
    let mut i: usize = 0;
    while i < n
        invariant
            forall|g: S, a: Body<V, S, C>, b: Body<V, S, C>| pair.requires((g, a, b)),
            i <= n,
            n == start.len(),
            store.bodies@.len() == n,
            store.particles@ == old(store).particles@,
            pairs_applied(*pair, g, pairs_before(n as nat, i as nat), start, store.bodies@),
        decreases n - i,
    {
        let mut j: usize = i + 1;
        while j < n
            invariant
                forall|g: S, a: Body<V, S, C>, b: Body<V, S, C>| pair.requires((g, a, b)),
                i < j <= n,
                n == start.len(),
                store.bodies@.len() == n,
                store.particles@ == old(store).particles@,
                pairs_applied(
                    *pair,
                    g,
                    pairs_before(n as nat, i as nat) + row_pairs(n as nat, i as nat).take(
                        j - i - 1,
                    ),
                    start,
                    store.bodies@,
                ),
            decreases n - j,
        {
            let ghost mid = store.bodies@;
            let ghost order = pairs_before(n as nat, i as nat) + row_pairs(
                n as nat,
                i as nat,
            ).take(j - i - 1);
            let first = store.bodies[i];
            let second = store.bodies[j];
            let (x, y) = pair(g, first, second);
            store.bodies.set(i, first.accelerated(x));
            store.bodies.set(j, second.accelerated(y));
            proof {
                let p = (i as nat, j as nat);
                lemma_pairs_applied_push(*pair, g, order, p, start, mid, store.bodies@);
                assert(order.push(p) =~= pairs_before(n as nat, i as nat) + row_pairs(
                    n as nat,
                    i as nat,
                ).take(j + 1 - i - 1));
            }
            j = j + 1;
        }
        proof {
            let row = row_pairs(n as nat, i as nat);
            assert(row.take(n - i - 1) =~= row);
        }
        i = i + 1;
    }
    proof {
        lemma_pairs_applied_frame(*pair, g, pair_order(n as nat), start, store.bodies@);
    }
}

/// The body-to-particle pass: for every particle and every body, `attract`
/// is called once with the gravitational constant, the particle and the
/// body, and gives the particle's new accumulated acceleration.
///
/// For Newton's law `attract` takes `delta`, the way from the particle to
/// the body, and adds `delta * (g / |delta|^2) * body.mass` to the
/// acceleration of the particle. No body is changed: a particle pulls
/// nothing.
pub fn interact_particles_with_bodies<V: Copy, S: Copy, C: Copy, F: Fn(S, Particle<V, C>, Body<V, S, C>) -> V>(
    settings: &Settings<S>,
    store: &mut EntityStore<V, S, C>,
    attract: &F,
)
    requires
        forall|g: S, p: Particle<V, C>, b: Body<V, S, C>| attract.requires((g, p, b)),
    ensures
        particles_attracted(*attract, settings.gravity_constant, old(store)@, final(store)@),
        forall|p: int|
            0 <= p < old(store)@.particles.len() ==> old(
                store,
            )@.particles[p].same_but_acceleration(#[trigger] final(store)@.particles[p]),
{
    let g = settings.gravity_constant;
    let n = store.particles.len();
    let m = store.bodies.len();
    let mut p: usize = 0;
    while p < n
        invariant
            forall|g: S, p: Particle<V, C>, b: Body<V, S, C>| attract.requires((g, p, b)),
            p <= n,
            n == old(store)@.particles.len(),
            m == old(store)@.bodies.len(),
            store.particles@.len() == n,
            store.bodies@ == old(store)@.bodies,
            forall|q: int|
                0 <= q < p ==> pulls_applied(
                    *attract,
                    g,
                    old(store)@.bodies,
                    m as nat,
                    old(store)@.particles[q],
                    #[trigger] store.particles@[q],
                ),
            forall|q: int|
                0 <= q < p ==> old(store)@.particles[q].same_but_acceleration(
                    #[trigger] store.particles@[q],
                ),
            forall|q: int| p <= q < n ==> store.particles@[q] == old(store)@.particles[q],
        decreases n - p,
    {
        let ghost origin = store.particles@[p as int];
        let mut particle = store.particles[p];
        let mut b: usize = 0;
        while b < m
            invariant
                forall|g: S, p: Particle<V, C>, b: Body<V, S, C>| attract.requires((g, p, b)),
                b <= m,
                m == store.bodies@.len(),
                store.bodies@ == old(store)@.bodies,
                pulls_applied(*attract, g, old(store)@.bodies, b as nat, origin, particle),
            decreases m - b,
        {
            let body = store.bodies[b];
            let x = attract(g, particle, body);
            let ghost mid = particle;
            particle = particle.accelerated(x);
            b = b + 1;
            proof {
                let bodies = old(store)@.bodies;
                assert(pull_applied(*attract, g, bodies[b - 1], mid, particle));
            }
        }
        proof {
            lemma_pulls_applied_frame(*attract, g, old(store)@.bodies, m as nat, origin, particle);
        }
        store.particles.set(p, particle);
        p = p + 1;
    }
}

/// The integrator: for every entity, `step` is called once with the time
/// step, the position, the last position and the accumulated acceleration,
/// and gives the new position. The old position becomes the last one, and
/// the accumulator is set to `zero`.
///
/// For Verlet integration `step` gives
/// `2 * position - last + acceleration * dt^2`.
pub fn integrate<V: Copy, S: Copy, C: Copy, F: Fn(S, V, V, V) -> V>(
    settings: &Settings<S>,
    store: &mut EntityStore<V, S, C>,
    zero: V,
    step: &F,
)
    requires
        forall|dt: S, position: V, last: V, acceleration: V|
            step.requires((dt, position, last, acceleration)),
    ensures
        integrated(*step, settings.time_step, zero, old(store)@, final(store)@),
{
    let dt = settings.time_step;
    let n = store.bodies.len();
    let mut i: usize = 0;
    while i < n
        invariant
            forall|dt: S, position: V, last: V, acceleration: V|
                step.requires((dt, position, last, acceleration)),
            i <= n,
            n == old(store)@.bodies.len(),
            store.bodies@.len() == n,
            store.particles@ == old(store)@.particles,
            forall|k: int|
                0 <= k < i ==> body_stepped(
                    *step,
                    dt,
                    zero,
                    old(store)@.bodies[k],
                    #[trigger] store.bodies@[k],
                ),
            forall|k: int| i <= k < n ==> store.bodies@[k] == old(store)@.bodies[k],
        decreases n - i,
    {
        let body = store.bodies[i];
        let position = step(dt, body.position, body.last_pos.0, body.acceleration.0);
        store.bodies.set(i, body.stepped(position, zero));
        i = i + 1;
    }
    let m = store.particles.len();
    let mut j: usize = 0;
    while j < m
        invariant
            forall|dt: S, position: V, last: V, acceleration: V|
                step.requires((dt, position, last, acceleration)),
            j <= m,
            m == old(store)@.particles.len(),
            store.particles@.len() == m,
            store.bodies@.len() == old(store)@.bodies.len(),
            forall|k: int|
                0 <= k < old(store)@.bodies.len() ==> body_stepped(
                    *step,
                    dt,
                    zero,
                    old(store)@.bodies[k],
                    #[trigger] store.bodies@[k],
                ),
            forall|k: int|
                0 <= k < j ==> particle_stepped(
                    *step,
                    dt,
                    zero,
                    old(store)@.particles[k],
                    #[trigger] store.particles@[k],
                ),
            forall|k: int| j <= k < m ==> store.particles@[k] == old(store)@.particles[k],
        decreases m - j,
    {
        let particle = store.particles[j];
        let position = step(
            dt,
            particle.position,
            particle.last_pos.0,
            particle.acceleration.0,
        );
        store.particles.set(j, particle.stepped(position, zero));
        j = j + 1;
    }
}

} // verus!
