//! Cube rotation: every frame each cube turns about the vertical axis by an
//! angle proportional to the frame's elapsed time.  The spin rate is one
//! radian per second, so a cube's accumulated yaw in microradians is the
//! total frame time it has seen in microseconds; app code converts the yaw
//! to whatever angle representation its renderer wants.

use vstd::prelude::*;

use crate::scene::{Cube, Entity, World};

verus! {

/// A cube's accumulated yaw in microradians; zero for anything else.
pub open spec fn cube_spin(e: Entity) -> int {
    match e {
        Entity::Cube(c) => c.spin_micros as int,
        _ => 0,
    }
}

/// One frame's effect on one entity: a cube gains `delta_micros` of yaw,
/// everything else is untouched.  The addition is stated with wrap-around so
/// it is total; `animate_cube` itself refuses inputs that would wrap.
pub open spec fn rotate_entity(e: Entity, delta_micros: u64) -> Entity {
    match e {
        Entity::Cube(c) => Entity::Cube(
            Cube {
                mesh: c.mesh,
                material: c.material,
                spin_micros: (c.spin_micros + delta_micros) as u64,
            },
        ),
        _ => e,
    }
}

/// One frame's effect on all entities.
pub open spec fn rotated_entities(s: Seq<Entity>, delta_micros: u64) -> Seq<Entity> {
    s.map_values(|e: Entity| rotate_entity(e, delta_micros))
}

/// A whole run of frames, one delta per frame, applied in order.
pub open spec fn rotated_over(s: Seq<Entity>, deltas: Seq<u64>) -> Seq<Entity>
    decreases deltas.len(),
{
    if deltas.len() == 0 {
        s
    } else {
        rotated_entities(rotated_over(s, deltas.drop_last()), deltas.last())
    }
}

/// The total time of a run of frames, in microseconds.
pub open spec fn total_micros(deltas: Seq<u64>) -> int
    decreases deltas.len(),
{
    if deltas.len() == 0 {
        0
    } else {
        total_micros(deltas.drop_last()) + deltas.last()
    }
}

/// No cube's yaw would overflow when the frame's delta is added.
pub open spec fn spin_fits(s: Seq<Entity>, delta_micros: u64) -> bool {
    forall|i: int|
        0 <= i < s.len() ==> cube_spin(#[trigger] s[i]) + delta_micros <= u64::MAX
}

/// One frame of the rotation system: every cube gains the frame's elapsed
/// time as yaw; no other entity and no image changes.
pub fn animate_cube(world: &mut World, delta_micros: u64)
    requires
        spin_fits(old(world).entities@, delta_micros),
    ensures
        final(world).entities@ == rotated_entities(old(world).entities@, delta_micros),
        final(world).images@ == old(world).images@,
{
    let ghost entities0 = world.entities@;
    let n = world.entities.len();
    let mut i: usize = 0;
    while i < n
        invariant
            i <= n,
            n == entities0.len(),
            world.entities@.len() == n,
            world.images@ == old(world).images@,
            spin_fits(entities0, delta_micros),
            forall|j: int|
                0 <= j < i ==> world.entities@[j] == rotate_entity(entities0[j], delta_micros),
            forall|j: int| i <= j < n ==> world.entities@[j] == entities0[j],
        decreases n - i,
    {
        let e = world.entities[i];
        if let Entity::Cube(c) = e {
            assert(cube_spin(entities0[i as int]) + delta_micros <= u64::MAX);
            let turned = Entity::Cube(
                Cube {
                    mesh: c.mesh,
                    material: c.material,
                    spin_micros: c.spin_micros + delta_micros,
                },
            );
            world.entities.set(i, turned);
        }
        i = i + 1;
    }
    proof {
        assert(world.entities@ =~= rotated_entities(entities0, delta_micros));
    }
}

/// Rotation accumulates exactly: over any run of frames, a cube's yaw grows
/// by the run's total elapsed time, however that time was split into frames.
/// In particular the yaw after a run depends on the deltas only through their
/// sum, so it is the same at any frame rate, and it never decreases, since
/// each delta is non-negative.
pub proof fn lemma_rotation_accumulates(s: Seq<Entity>, deltas: Seq<u64>, i: int)
    requires
        0 <= i < s.len(),
    ensures
        rotated_over(s, deltas).len() == s.len(),
        0 <= total_micros(deltas),
        s[i] is Cube ==> rotated_over(s, deltas)[i] is Cube,
        !(s[i] is Cube) ==> rotated_over(s, deltas)[i] == s[i],
        (s[i] is Cube && cube_spin(s[i]) + total_micros(deltas) <= u64::MAX) ==> cube_spin(
            rotated_over(s, deltas)[i],
        ) == cube_spin(s[i]) + total_micros(deltas),
    decreases deltas.len(),
{
    if deltas.len() > 0 {
        lemma_rotation_accumulates(s, deltas.drop_last(), i);
    }
}

} // verus!
