//! A verified model of a small two-program scene demo: a bootstrapper that
//! populates a world with a cube, a camera and a light, and a dual-viewport
//! variant that renders the scene into an offscreen image shown by two UI
//! panels, keeping the image's extent in step with the panels' laid-out size
//! and spinning the cube by the elapsed time of each frame.

mod frame;
mod rotate;
mod scene;
mod startup;
mod sync;

pub use scene::{
    BoxMesh, Camera3d, CameraTarget, Color, Cube, Entity, EntityKind, Extent, Image, Panel,
    PointLight, TextureFormat, TextureUsages, Vec3i, World,
};
pub use scene::{count_kind, kind_of, wf_seqs};
pub use startup::{
    init, initial_camera3d, initial_cube, initial_entities, initial_image, initial_images,
    initial_light, initial_panel, lemma_startup_population,
};
pub use sync::{
    apply_entity, clamped, clamped_extent, displays, lemma_resize_clamps, lemma_sync_floors_extent,
    lemma_sync_idempotent, lemma_synced_images_len, lemma_synced_images_pointwise, synced_image,
    synced_images, target_extent, update_image_size, with_extent,
};
pub use frame::{
    close_on_esc, laid_out, layout_entity, layout_ui, lemma_single_target_preserved, run_frame,
    shares_single_image, FrameAction, FrameInput,
};
pub use rotate::{
    animate_cube, cube_spin, lemma_rotation_accumulates, rotate_entity, rotated_entities,
    rotated_over, spin_fits, total_micros,
};
