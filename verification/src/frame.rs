//! One frame of the dual-viewport program: the UI layout hands each panel
//! its pixel size, the size-sync system follows it, the rotation system
//! spins the cube, and the exit check decides whether the loop goes on.
//! The driver loop around the library performs one `run_frame` per rendered
//! frame and stops as soon as it answers `Exit`.

use vstd::prelude::*;

use crate::rotate::{animate_cube, cube_spin, rotated_entities, spin_fits};
use crate::scene::{count_kind, kind_of, Entity, EntityKind, Image, Panel, World};
use crate::sync::{synced_images, update_image_size};

verus! {

/// What the engine reports for one frame: the elapsed time since the last
/// frame, whether Escape was seen pressed, and the window's logical size,
/// which the flex layout turns into panel sizes.
#[derive(Clone, Copy, PartialEq, Eq, Structural, Debug)]
pub struct FrameInput {
    pub delta_micros: u64,
    pub escape_pressed: bool,
    pub window_width: i32,
    pub window_height: i32,
}

/// What the loop does after a frame: keep running, or close the window.
#[derive(Clone, Copy, PartialEq, Eq, Structural, Debug)]
pub enum FrameAction {
    Run,
    Exit,
}

/// The flex layout's effect on one entity: the row of two half-width,
/// full-height panels gives each panel half the window's width and the whole
/// of its height; nothing else has a layout.
pub open spec fn layout_entity(e: Entity, window_width: i32, window_height: i32) -> Entity {
    match e {
        Entity::UiPanel(p) => Entity::UiPanel(
            Panel {
                width: (window_width as int / 2) as i32,
                height: window_height,
                image: p.image,
            },
        ),
        _ => e,
    }
}

/// The flex layout's effect on all entities.
pub open spec fn laid_out(s: Seq<Entity>, window_width: i32, window_height: i32) -> Seq<Entity> {
    s.map_values(|e: Entity| layout_entity(e, window_width, window_height))
}

/// Lays the UI out for a window of the given logical size: each panel takes
/// half the width and the full height.
pub fn layout_ui(world: &mut World, window_width: i32, window_height: i32)
    requires
        0 <= window_width,
        0 <= window_height,
    ensures
        final(world).entities@ == laid_out(old(world).entities@, window_width, window_height),
        final(world).images@ == old(world).images@,
        old(world).wf() ==> final(world).wf(),
{
    let ghost entities0 = world.entities@;
    let half_width: i32 = window_width / 2;
    let n = world.entities.len();
    let mut i: usize = 0;
    while i < n
        invariant
            i <= n,
            n == entities0.len(),
            world.entities@.len() == n,
            world.images@ == old(world).images@,
            half_width == window_width as int / 2,
            forall|j: int|
                0 <= j < i ==> world.entities@[j] == layout_entity(
                    entities0[j],
                    window_width,
                    window_height,
                ),
            forall|j: int| i <= j < n ==> world.entities@[j] == entities0[j],
        decreases n - i,
    {
        let e = world.entities[i];
        if let Entity::UiPanel(p) = e {
            let placed = Entity::UiPanel(
                Panel { width: half_width, height: window_height, image: p.image },
            );
            world.entities.set(i, placed);
        }
        i = i + 1;
    }
    proof {
        assert(world.entities@ =~= laid_out(entities0, window_width, window_height));
        if old(world).wf() {
            assert forall|j: int| 0 <= j < world.entities@.len() implies match #[trigger] world
                .entities@[j] {
                Entity::UiPanel(p) => (p.image as int) < world.images@.len(),
                Entity::Camera3d(c) => c.target matches crate::scene::CameraTarget::Image(t) ==> (
                t as int) < world.images@.len(),
                _ => true,
            } by {
                assert(world.entities@[j] == layout_entity(
                    entities0[j],
                    window_width,
                    window_height,
                ));
            }
        }
    }
}

/// The exit check: close when Escape was pressed this frame.
pub fn close_on_esc(escape_pressed: bool) -> (action: FrameAction)
    ensures
        action is Exit <==> escape_pressed,
{
    if escape_pressed {
        FrameAction::Exit
    } else {
        FrameAction::Run
    }
}

/// One whole frame of the dual-viewport program, in system order: the layout
/// sizes the panels from the window, size-sync follows the panels, the cube
/// gains the frame's elapsed time as yaw, and the answer says whether an
/// observed Escape press ends the loop — the frame's systems still run on
/// that last frame, and none runs after it.
pub fn run_frame(world: &mut World, input: &FrameInput) -> (action: FrameAction)
    requires
        old(world).wf(),
        0 <= input.window_width,
        0 <= input.window_height,
        spin_fits(old(world).entities@, input.delta_micros),
    ensures
        action is Exit <==> input.escape_pressed,
        final(world).entities@ == rotated_entities(
            laid_out(old(world).entities@, input.window_width, input.window_height),
            input.delta_micros,
        ),
        final(world).images@ == synced_images(
            laid_out(old(world).entities@, input.window_width, input.window_height),
            old(world).images@,
        ),
        final(world).wf(),
{
    let ghost entities0 = world.entities@;
    layout_ui(world, input.window_width, input.window_height);
    let ghost placed = world.entities@;
    update_image_size(world);
    proof {
        assert forall|i: int| 0 <= i < placed.len() implies cube_spin(#[trigger] placed[i])
            + input.delta_micros <= u64::MAX by {
            assert(placed[i] == layout_entity(
                entities0[i],
                input.window_width,
                input.window_height,
            ));
            assert(cube_spin(entities0[i]) + input.delta_micros <= u64::MAX);
        }
    }
    animate_cube(world, input.delta_micros);
    proof {
        lemma_rotated_keeps_wf(placed, world.images@, input.delta_micros);
    }
    close_on_esc(input.escape_pressed)
}

/// Rotation rewrites only cubes, so every image reference survives it.
proof fn lemma_rotated_keeps_wf(entities: Seq<Entity>, images: Seq<Image>, delta_micros: u64)
    requires
        crate::scene::wf_seqs(entities, images),
    ensures
        crate::scene::wf_seqs(rotated_entities(entities, delta_micros), images),
{
    let turned = rotated_entities(entities, delta_micros);
    assert forall|i: int| 0 <= i < turned.len() implies match #[trigger] turned[i] {
        Entity::UiPanel(p) => (p.image as int) < images.len(),
        Entity::Camera3d(c) => c.target matches crate::scene::CameraTarget::Image(t) ==> (t as int)
            < images.len(),
        _ => true,
    } by {
        assert(turned[i] == crate::rotate::rotate_entity(entities[i], delta_micros));
    }
}

/// The dual-viewport sharing invariant: a single image, exactly two panels,
/// and every panel displaying that image.
pub open spec fn shares_single_image(entities: Seq<Entity>, images: Seq<Image>) -> bool {
    &&& images.len() == 1
    &&& count_kind(entities, EntityKind::UiPanel) == 2
    &&& forall|i: int|
        0 <= i < entities.len() ==> ((#[trigger] entities[i]) matches Entity::UiPanel(p)
            ==> p.image == 0)
}

/// The single-render-target invariant holds at all times: if before a frame
/// there is one image shared by exactly two panels, the same is true after
/// the frame's layout, size-sync and rotation — no panel ever comes to
/// display anything but the shared image.
pub proof fn lemma_single_target_preserved(
    entities: Seq<Entity>,
    images: Seq<Image>,
    window_width: i32,
    window_height: i32,
    delta_micros: u64,
)
    requires
        shares_single_image(entities, images),
    ensures
        shares_single_image(
            rotated_entities(laid_out(entities, window_width, window_height), delta_micros),
            synced_images(laid_out(entities, window_width, window_height), images),
        ),
{
    let placed = laid_out(entities, window_width, window_height);
    let turned = rotated_entities(placed, delta_micros);
    crate::sync::lemma_synced_images_len(placed, images);
    let lay = |e: Entity| layout_entity(e, window_width, window_height);
    let rot = |e: Entity| crate::rotate::rotate_entity(e, delta_micros);
    assert forall|e: Entity| kind_of(#[trigger] lay(e)) == kind_of(e) by {}
    assert forall|e: Entity| kind_of(#[trigger] rot(e)) == kind_of(e) by {}
    crate::scene::lemma_count_kind_map(entities, lay, EntityKind::UiPanel);
    crate::scene::lemma_count_kind_map(placed, rot, EntityKind::UiPanel);
    assert forall|i: int| 0 <= i < turned.len() implies ((#[trigger] turned[i]) matches
        Entity::UiPanel(p) ==> p.image == 0) by {
        assert(turned[i] == rot(placed[i]));
        assert(placed[i] == lay(entities[i]));
    }
}

} // verus!
