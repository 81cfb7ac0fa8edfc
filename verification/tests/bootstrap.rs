use dual_viewport::{
    init, BoxMesh, Camera3d, CameraTarget, Color, Cube, Entity, Extent, PointLight, TextureFormat,
    TextureUsages, Vec3i,
};

fn population(entities: &[Entity]) -> (usize, usize, usize, usize, usize) {
    let mut cubes = 0;
    let mut cameras3d = 0;
    let mut lights = 0;
    let mut cameras2d = 0;
    let mut panels = 0;
    for e in entities {
        match e {
            Entity::Cube(_) => cubes += 1,
            Entity::Camera3d(_) => cameras3d += 1,
            Entity::PointLight(_) => lights += 1,
            Entity::Camera2d => cameras2d += 1,
            Entity::UiPanel(_) => panels += 1,
        }
    }
    (cubes, cameras3d, lights, cameras2d, panels)
}

#[test]
fn plain_scene_population() {
    let w = init(false);
    assert_eq!(population(&w.entities), (1, 1, 1, 0, 0));
    assert_eq!(w.images.len(), 0);
}

#[test]
fn dual_viewport_scene_population() {
    let w = init(true);
    assert_eq!(population(&w.entities), (1, 1, 1, 1, 2));
    assert_eq!(w.images.len(), 1);
}

#[test]
fn cube_spawns_red_centred_and_still() {
    let w = init(true);
    let cube = w
        .entities
        .iter()
        .find_map(|e| match e {
            Entity::Cube(c) => Some(*c),
            _ => None,
        })
        .unwrap();
    assert_eq!(
        cube,
        Cube {
            mesh: BoxMesh {
                min_milli: Vec3i { x: -500, y: -500, z: -500 },
                max_milli: Vec3i { x: 500, y: 500, z: 500 },
            },
            material: Color { red: 255, green: 0, blue: 0 },
            spin_micros: 0,
        }
    );
}

#[test]
fn camera_aims_at_image_before_overlay() {
    let w = init(true);
    let camera = w
        .entities
        .iter()
        .find_map(|e| match e {
            Entity::Camera3d(c) => Some(*c),
            _ => None,
        })
        .unwrap();
    assert_eq!(
        camera,
        Camera3d {
            position: Vec3i { x: 2, y: 3, z: 4 },
            target: CameraTarget::Image(0),
            order: -1,
        }
    );
}

#[test]
fn plain_camera_aims_at_window() {
    let w = init(false);
    let camera = w
        .entities
        .iter()
        .find_map(|e| match e {
            Entity::Camera3d(c) => Some(*c),
            _ => None,
        })
        .unwrap();
    assert_eq!(camera.target, CameraTarget::Window);
    assert_eq!(camera.order, 0);
}

#[test]
fn light_sits_beside_camera() {
    let w = init(true);
    let light = w
        .entities
        .iter()
        .find_map(|e| match e {
            Entity::PointLight(l) => Some(*l),
            _ => None,
        })
        .unwrap();
    assert_eq!(light, PointLight { position: Vec3i { x: 2, y: 3, z: 4 } });
}

#[test]
fn offscreen_image_descriptor() {
    let w = init(true);
    let image = w.images[0];
    assert_eq!(
        image.extent,
        Extent { width: 0, height: 0, depth_or_array_layers: 0 }
    );
    assert_eq!(image.format, TextureFormat::Bgra8UnormSrgb);
    assert_eq!(image.mip_level_count, 1);
    assert_eq!(image.sample_count, 1);
    assert_eq!(
        image.usages,
        TextureUsages { texture_binding: true, copy_dst: true, render_attachment: true }
    );
}

#[test]
fn panels_spawn_unsized_on_the_shared_image() {
    let w = init(true);
    let panels: Vec<_> = w
        .entities
        .iter()
        .filter_map(|e| match e {
            Entity::UiPanel(p) => Some(*p),
            _ => None,
        })
        .collect();
    assert_eq!(panels.len(), 2);
    for p in panels {
        assert_eq!(p.width, 0);
        assert_eq!(p.height, 0);
        assert_eq!(p.image, 0);
    }
}
