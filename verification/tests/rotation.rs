use dual_viewport::{animate_cube, init, BoxMesh, Color, Cube, Entity, Vec3i, World};

fn cube_world(spin_micros: u64) -> World {
    World {
        entities: vec![Entity::Cube(Cube {
            mesh: BoxMesh {
                min_milli: Vec3i { x: -500, y: -500, z: -500 },
                max_milli: Vec3i { x: 500, y: 500, z: 500 },
            },
            material: Color { red: 255, green: 0, blue: 0 },
            spin_micros,
        })],
        images: vec![],
    }
}

fn spin_of(w: &World) -> u64 {
    w.entities
        .iter()
        .find_map(|e| match e {
            Entity::Cube(c) => Some(c.spin_micros),
            _ => None,
        })
        .unwrap()
}

#[test]
fn one_frame_adds_its_delta() {
    let mut w = cube_world(0);
    animate_cube(&mut w, 16_667);
    assert_eq!(spin_of(&w), 16_667);
}

#[test]
fn yaw_is_the_sum_of_the_deltas() {
    let mut w = cube_world(0);
    for delta in [16_000u64, 33_000, 7_000, 16_000] {
        animate_cube(&mut w, delta);
    }
    assert_eq!(spin_of(&w), 72_000);
}

#[test]
fn yaw_is_frame_rate_independent() {
    // The same second of time, split into frames two different ways.
    let mut slow = cube_world(0);
    for delta in [500_000u64, 500_000] {
        animate_cube(&mut slow, delta);
    }
    let mut fast = cube_world(0);
    for _ in 0..100 {
        animate_cube(&mut fast, 10_000);
    }
    assert_eq!(spin_of(&slow), 1_000_000);
    assert_eq!(spin_of(&fast), 1_000_000);
    assert_eq!(spin_of(&slow), spin_of(&fast));
}

#[test]
fn zero_delta_leaves_the_cube_still() {
    let mut w = cube_world(123);
    animate_cube(&mut w, 0);
    assert_eq!(spin_of(&w), 123);
}

#[test]
fn rotation_leaves_other_entities_alone() {
    let mut w = init(true);
    let before = w.entities.clone();
    animate_cube(&mut w, 42);
    for (old, new) in before.iter().zip(w.entities.iter()) {
        match old {
            Entity::Cube(c) => {
                let Entity::Cube(turned) = new else { panic!() };
                assert_eq!(turned.spin_micros, c.spin_micros + 42);
                assert_eq!(turned.mesh, c.mesh);
                assert_eq!(turned.material, c.material);
            }
            _ => assert_eq!(old, new),
        }
    }
}
