//! The data model of the scene: the entities a program spawns, the images
//! they draw into, and the well-formedness of a world.

use vstd::prelude::*;

verus! {

/// A position in world space, in whole world units.
#[derive(Clone, Copy, PartialEq, Eq, Structural, Debug)]
pub struct Vec3i {
    pub x: i32,
    pub y: i32,
    pub z: i32,
}

/// A solid color with 8-bit channels.
#[derive(Clone, Copy, PartialEq, Eq, Structural, Debug)]
pub struct Color {
    pub red: u8,
    pub green: u8,
    pub blue: u8,
}

/// An axis-aligned box given by two opposite corners, in thousandths of a
/// world unit.
#[derive(Clone, Copy, PartialEq, Eq, Structural, Debug)]
pub struct BoxMesh {
    pub min_milli: Vec3i,
    pub max_milli: Vec3i,
}

/// Pixel dimensions of an image.
#[derive(Clone, Copy, PartialEq, Eq, Structural, Debug)]
pub struct Extent {
    pub width: u32,
    pub height: u32,
    pub depth_or_array_layers: u32,
}

/// The pixel format of an image.
#[derive(Clone, Copy, PartialEq, Eq, Structural, Debug)]
pub enum TextureFormat {
    Bgra8UnormSrgb,
}

/// What an image may be used for on the GPU side.
#[derive(Clone, Copy, PartialEq, Eq, Structural, Debug)]
pub struct TextureUsages {
    pub texture_binding: bool,
    pub copy_dst: bool,
    pub render_attachment: bool,
}

/// A GPU-backed image resource; the offscreen render target is one of these.
#[derive(Clone, Copy, PartialEq, Eq, Structural, Debug)]
pub struct Image {
    pub extent: Extent,
    pub format: TextureFormat,
    pub mip_level_count: u32,
    pub sample_count: u32,
    pub usages: TextureUsages,
}

/// Where a camera draws: the window, or an image in `World::images`.
#[derive(Clone, Copy, PartialEq, Eq, Structural, Debug)]
pub enum CameraTarget {
    Window,
    Image(usize),
}

/// The rotating cube: its mesh, its material, and its accumulated yaw.
///
/// The cube spins at one radian per second, so its yaw in microradians is
/// the total frame time it has seen in microseconds.
#[derive(Clone, Copy, PartialEq, Eq, Structural, Debug)]
pub struct Cube {
    pub mesh: BoxMesh,
    pub material: Color,
    pub spin_micros: u64,
}

/// The 3-D camera: where it stands, where it draws, and in what order.
#[derive(Clone, Copy, PartialEq, Eq, Structural, Debug)]
pub struct Camera3d {
    pub position: Vec3i,
    pub target: CameraTarget,
    pub order: i32,
}

/// A point light.
#[derive(Clone, Copy, PartialEq, Eq, Structural, Debug)]
pub struct PointLight {
    pub position: Vec3i,
}

/// A rectangle of the 2-D overlay that displays an image.
///
/// `width` and `height` are the laid-out size in logical pixels, as the UI
/// layout reports it; `image` is an index into `World::images`.
#[derive(Clone, Copy, PartialEq, Eq, Structural, Debug)]
pub struct Panel {
    pub width: i32,
    pub height: i32,
    pub image: usize,
}

/// One entity of the world.
#[derive(Clone, Copy, PartialEq, Eq, Structural, Debug)]
pub enum Entity {
    Cube(Cube),
    Camera3d(Camera3d),
    PointLight(PointLight),
    Camera2d,
    UiPanel(Panel),
}

/// The role an entity plays, for counting the population of a world.
#[derive(Clone, Copy, PartialEq, Eq, Structural, Debug)]
pub enum EntityKind {
    Cube,
    Camera3d,
    PointLight,
    Camera2d,
    UiPanel,
}

/// The whole state a program owns: its entities and its image resources.
pub struct World {
    pub entities: Vec<Entity>,
    pub images: Vec<Image>,
}

/// The role of an entity.
pub open spec fn kind_of(e: Entity) -> EntityKind {
    match e {
        Entity::Cube(_) => EntityKind::Cube,
        Entity::Camera3d(_) => EntityKind::Camera3d,
        Entity::PointLight(_) => EntityKind::PointLight,
        Entity::Camera2d => EntityKind::Camera2d,
        Entity::UiPanel(_) => EntityKind::UiPanel,
    }
}

/// How many entities of role `k` the sequence holds.
pub open spec fn count_kind(s: Seq<Entity>, k: EntityKind) -> int
    decreases s.len(),
{
    if s.len() == 0 {
        0
    } else {
        count_kind(s.drop_last(), k) + if kind_of(s.last()) == k {
            1int
        } else {
            0int
        }
    }
}

/// Every image index held by a panel or a camera points at an existing image.
pub open spec fn wf_seqs(entities: Seq<Entity>, images: Seq<Image>) -> bool {
    forall|i: int|
        0 <= i < entities.len() ==> match #[trigger] entities[i] {
            Entity::UiPanel(p) => (p.image as int) < images.len(),
            Entity::Camera3d(c) => c.target matches CameraTarget::Image(j) ==> (j as int)
                < images.len(),
            _ => true,
        }
}

impl World {
    /// A world is well formed when every image reference resolves.
    pub open spec fn wf(self) -> bool {
        wf_seqs(self.entities@, self.images@)
    }
}

/// A map that keeps every entity's role keeps every count.
pub proof fn lemma_count_kind_map(s: Seq<Entity>, f: spec_fn(Entity) -> Entity, k: EntityKind)
    requires
        forall|e: Entity| kind_of(#[trigger] f(e)) == kind_of(e),
    ensures
        count_kind(s.map_values(f), k) == count_kind(s, k),
    decreases s.len(),
{
    if s.len() > 0 {
        assert(s.map_values(f).drop_last() =~= s.drop_last().map_values(f));
        lemma_count_kind_map(s.drop_last(), f, k);
        assert(s.map_values(f).last() == f(s.last()));
    }
}

} // verus!
