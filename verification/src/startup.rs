//! Scene bootstrap: what the world holds right after startup.
//!
//! The plain program spawns a cube, a 3-D camera aimed at the window, and a
//! point light.  The dual-viewport program aims the camera at a fresh
//! offscreen image instead, ordered before the overlay pass, and adds a 2-D
//! camera and two UI panels that both display that image.

use vstd::prelude::*;

use crate::scene::{
    count_kind, BoxMesh, Camera3d, CameraTarget, Color, Cube, Entity, EntityKind, Extent, Image,
    Panel, PointLight, TextureFormat, TextureUsages, Vec3i, World,
};

verus! {

/// The cube as spawned: a unit box centred on the origin (corners at half a
/// unit in each direction), solid red, not yet rotated.
pub open spec fn initial_cube() -> Entity {
    Entity::Cube(
        Cube {
            mesh: BoxMesh {
                min_milli: Vec3i { x: -500i32, y: -500i32, z: -500i32 },
                max_milli: Vec3i { x: 500, y: 500, z: 500 },
            },
            material: Color { red: 255, green: 0, blue: 0 },
            spin_micros: 0,
        },
    )
}

/// The 3-D camera as spawned: at (2,3,4), looking at the origin.  In the
/// dual-viewport program it draws into image 0 and is ordered before the
/// overlay pass; otherwise it draws straight into the window.
pub open spec fn initial_camera3d(dual_viewport: bool) -> Entity {
    Entity::Camera3d(
        Camera3d {
            position: Vec3i { x: 2, y: 3, z: 4 },
            target: if dual_viewport {
                CameraTarget::Image(0)
            } else {
                CameraTarget::Window
            },
            order: if dual_viewport {
                -1i32
            } else {
                0
            },
        },
    )
}

/// The point light as spawned, at (2,3,4).
pub open spec fn initial_light() -> Entity {
    Entity::PointLight(PointLight { position: Vec3i { x: 2, y: 3, z: 4 } })
}

/// A UI panel as spawned: not yet laid out, displaying image 0.
pub open spec fn initial_panel() -> Entity {
    Entity::UiPanel(Panel { width: 0, height: 0, image: 0 })
}

/// The offscreen render target as allocated: a zero-area BGRA sRGB color
/// image with one mip level and one sample, usable as a shader input, a copy
/// destination and a render attachment.  The size-sync pass grows it to the
/// panels' laid-out size on the first frame.
pub open spec fn initial_image() -> Image {
    Image {
        extent: Extent { width: 0, height: 0, depth_or_array_layers: 0 },
        format: TextureFormat::Bgra8UnormSrgb,
        mip_level_count: 1,
        sample_count: 1,
        usages: TextureUsages { texture_binding: true, copy_dst: true, render_attachment: true },
    }
}

/// The entities the bootstrap spawns, in spawn order.
pub open spec fn initial_entities(dual_viewport: bool) -> Seq<Entity> {
    if dual_viewport {
        seq![
            initial_cube(),
            initial_camera3d(true),
            initial_light(),
            Entity::Camera2d,
            initial_panel(),
            initial_panel(),
        ]
    } else {
        seq![initial_cube(), initial_camera3d(false), initial_light()]
    }
}

/// The images the bootstrap allocates: the one offscreen target, or none.
pub open spec fn initial_images(dual_viewport: bool) -> Seq<Image> {
    if dual_viewport {
        seq![initial_image()]
    } else {
        Seq::empty()
    }
}

/// Builds the startup world: the plain scene, or the dual-viewport scene
/// with its offscreen render target and two panels.
pub fn init(dual_viewport: bool) -> (world: World)
    ensures
        world.entities@ == initial_entities(dual_viewport),
        world.images@ == initial_images(dual_viewport),
        world.wf(),
{
    let cube = Entity::Cube(
        Cube {
            mesh: BoxMesh {
                min_milli: Vec3i { x: -500, y: -500, z: -500 },
                max_milli: Vec3i { x: 500, y: 500, z: 500 },
            },
            material: Color { red: 255, green: 0, blue: 0 },
            spin_micros: 0,
        },
    );
    let camera3d = Entity::Camera3d(
        Camera3d {
            position: Vec3i { x: 2, y: 3, z: 4 },
            target: if dual_viewport {
                CameraTarget::Image(0)
            } else {
                CameraTarget::Window
            },
            order: if dual_viewport {
                -1
            } else {
                0
            },
        },
    );
    let light = Entity::PointLight(PointLight { position: Vec3i { x: 2, y: 3, z: 4 } });

    let mut entities: Vec<Entity> = Vec::new();
    let mut images: Vec<Image> = Vec::new();
    entities.push(cube);
    entities.push(camera3d);
    entities.push(light);
    if dual_viewport {
        images.push(
            Image {
                extent: Extent { width: 0, height: 0, depth_or_array_layers: 0 },
                format: TextureFormat::Bgra8UnormSrgb,
                mip_level_count: 1,
                sample_count: 1,
                usages: TextureUsages {
                    texture_binding: true,
                    copy_dst: true,
                    render_attachment: true,
                },
            },
        );
        entities.push(Entity::Camera2d);
        entities.push(Entity::UiPanel(Panel { width: 0, height: 0, image: 0 }));
        entities.push(Entity::UiPanel(Panel { width: 0, height: 0, image: 0 }));
    }
    let world = World { entities, images };
    proof {
        assert(world.entities@ =~= initial_entities(dual_viewport));
        assert(world.images@ =~= initial_images(dual_viewport));
    }
    world
}

/// The startup population is exact: one cube, one 3-D camera and one point
/// light; the dual-viewport scene additionally holds one 2-D camera, two UI
/// panels and a single offscreen image, which both panels display.
pub proof fn lemma_startup_population(dual_viewport: bool)
    ensures
        count_kind(initial_entities(dual_viewport), EntityKind::Cube) == 1,
        count_kind(initial_entities(dual_viewport), EntityKind::Camera3d) == 1,
        count_kind(initial_entities(dual_viewport), EntityKind::PointLight) == 1,
        count_kind(initial_entities(dual_viewport), EntityKind::Camera2d) == if dual_viewport {
            1int
        } else {
            0int
        },
        count_kind(initial_entities(dual_viewport), EntityKind::UiPanel) == if dual_viewport {
            2int
        } else {
            0int
        },
        initial_images(dual_viewport).len() == if dual_viewport {
            1int
        } else {
            0int
        },
        dual_viewport ==> crate::frame::shares_single_image(
            initial_entities(true),
            initial_images(true),
        ),
{
    reveal_with_fuel(count_kind, 8);
    let s = initial_entities(dual_viewport);
    if dual_viewport {
        let s5 = s.drop_last();
        let s4 = s5.drop_last();
        let s3 = s4.drop_last();
        let s2 = s3.drop_last();
        let s1 = s2.drop_last();
        let s0 = s1.drop_last();
        assert(s5 =~= seq![
            initial_cube(),
            initial_camera3d(true),
            initial_light(),
            Entity::Camera2d,
            initial_panel(),
        ]);
        assert(s4 =~= seq![
            initial_cube(),
            initial_camera3d(true),
            initial_light(),
            Entity::Camera2d,
        ]);
        assert(s3 =~= seq![initial_cube(), initial_camera3d(true), initial_light()]);
        assert(s2 =~= seq![initial_cube(), initial_camera3d(true)]);
        assert(s1 =~= seq![initial_cube()]);
        assert(s0 =~= Seq::<Entity>::empty());
    } else {
        let s2 = s.drop_last();
        let s1 = s2.drop_last();
        let s0 = s1.drop_last();
        assert(s2 =~= seq![initial_cube(), initial_camera3d(false)]);
        assert(s1 =~= seq![initial_cube()]);
        assert(s0 =~= Seq::<Entity>::empty());
    }
}

} // verus!
