//! Texture size synchronization: every frame, each UI panel drives the image
//! it displays to the panel's laid-out size, floored at 1×1 so the image
//! never becomes a degenerate render target.  Panels are visited in entity
//! order, so when two panels that share an image disagree, the last one wins.

use vstd::prelude::*;
use vstd::pervasive::VecAdditionalExecFns;

use crate::scene::{Entity, Extent, Image, Panel, World};

verus! {

/// A dimension floored at one pixel.
pub open spec fn clamped(v: int) -> int {
    if v < 1 {
        1
    } else {
        v
    }
}

/// The extent a panel asks of the image it displays: its laid-out size,
/// floored at 1×1, with depth 1.
pub open spec fn target_extent(p: Panel) -> Extent {
    Extent {
        width: clamped(p.width as int) as u32,
        height: clamped(p.height as int) as u32,
        depth_or_array_layers: 1,
    }
}

/// The image, resized: only the extent changes.
pub open spec fn with_extent(im: Image, e: Extent) -> Image {
    Image {
        extent: e,
        format: im.format,
        mip_level_count: im.mip_level_count,
        sample_count: im.sample_count,
        usages: im.usages,
    }
}

/// One entity's effect on the images: a panel resizes the image it displays,
/// every other entity leaves them alone.
pub open spec fn apply_entity(images: Seq<Image>, e: Entity) -> Seq<Image> {
    match e {
        Entity::UiPanel(p) => if (p.image as int) < images.len() {
            images.update(p.image as int, with_extent(images[p.image as int], target_extent(p)))
        } else {
            images
        },
        _ => images,
    }
}

/// The images after one size-sync pass over the entities, in entity order.
pub open spec fn synced_images(entities: Seq<Entity>, images: Seq<Image>) -> Seq<Image>
    decreases entities.len(),
{
    if entities.len() == 0 {
        images
    } else {
        apply_entity(synced_images(entities.drop_last(), images), entities.last())
    }
}

/// Image `j` after a pass, followed pointwise: its extent comes from the last
/// panel that displays it, and nothing else about it changes.
pub open spec fn synced_image(entities: Seq<Entity>, j: int, im0: Image) -> Image
    decreases entities.len(),
{
    if entities.len() == 0 {
        im0
    } else {
        match entities.last() {
            Entity::UiPanel(p) => if p.image as int == j {
                with_extent(im0, target_extent(p))
            } else {
                synced_image(entities.drop_last(), j, im0)
            },
            _ => synced_image(entities.drop_last(), j, im0),
        }
    }
}

/// The extent a panel asks for.
pub fn clamped_extent(p: Panel) -> (e: Extent)
    ensures
        e == target_extent(p),
{
    let width: u32 = if p.width < 1 {
        1
    } else {
        p.width as u32
    };
    let height: u32 = if p.height < 1 {
        1
    } else {
        p.height as u32
    };
    Extent { width, height, depth_or_array_layers: 1 }
}

/// One frame of the size-sync system: walks the panels in entity order and
/// resizes each panel's image to the panel's laid-out size, floored at 1×1.
/// An image already at the asked-for extent is left untouched.
pub fn update_image_size(world: &mut World)
    requires
        old(world).wf(),
    ensures
        final(world).entities@ == old(world).entities@,
        final(world).images@ == synced_images(old(world).entities@, old(world).images@),
        final(world).wf(),
{
    let ghost entities0 = world.entities@;
    let ghost images0 = world.images@;
    let n = world.entities.len();
    let mut i: usize = 0;
    while i < n
        invariant
            i <= n,
            n == entities0.len(),
            world.entities@ == entities0,
            world.images@ == synced_images(entities0.subrange(0, i as int), images0),
            world.images@.len() == images0.len(),
            crate::scene::wf_seqs(entities0, images0),
        decreases n - i,
    {
        let ghost prefix = entities0.subrange(0, i as int);
        let e = world.entities[i];
        if let Entity::UiPanel(p) = e {
            let target = clamped_extent(p);
            assert((p.image as int) < images0.len());
            let current = world.images[p.image];
            if !(current.extent == target) {
                let resized = Image {
                    extent: target,
                    format: current.format,
                    mip_level_count: current.mip_level_count,
                    sample_count: current.sample_count,
                    usages: current.usages,
                };
                world.images.set(p.image, resized);
            } else {
                proof {
                    assert(with_extent(current, target) == current);
                    assert(world.images@.update(p.image as int, current) =~= world.images@);
                }
            }
        }
        proof {
            assert(entities0.subrange(0, i + 1).drop_last() =~= prefix);
            assert(entities0.subrange(0, i + 1).last() == entities0[i as int]);
        }
        i = i + 1;
    }
    proof {
        assert(entities0.subrange(0, n as int) =~= entities0);
    }
}

/// Some panel among the entities displays image `j`.
pub open spec fn displays(entities: Seq<Entity>, j: int) -> bool {
    exists|i: int|
        {
            &&& 0 <= i < entities.len()
            &&& (#[trigger] entities[i]) matches Entity::UiPanel(p)
            &&& p.image as int == j
        }
}

/// Resizing clamps to a 1×1 floor: whatever size a panel reports, the extent
/// it asks of its image is (max(1,w), max(1,h)) with depth 1, so a zero- or
/// negative-area layout still yields a valid one-pixel target.
pub proof fn lemma_resize_clamps(p: Panel)
    ensures
        target_extent(p).width == if p.width < 1 { 1int } else { p.width as int },
        target_extent(p).height == if p.height < 1 { 1int } else { p.height as int },
        target_extent(p).depth_or_array_layers == 1,
        target_extent(p).width >= 1,
        target_extent(p).height >= 1,
{
}

/// A size-sync pass never adds or removes an image.
pub proof fn lemma_synced_images_len(entities: Seq<Entity>, images: Seq<Image>)
    ensures
        synced_images(entities, images).len() == images.len(),
    decreases entities.len(),
{
    if entities.len() > 0 {
        lemma_synced_images_len(entities.drop_last(), images);
    }
}

/// Following one image through a pass only ever rewrites its extent.
proof fn lemma_synced_image_only_extent(entities: Seq<Entity>, j: int, im0: Image)
    ensures
        synced_image(entities, j, im0) == with_extent(im0, synced_image(entities, j, im0).extent),
    decreases entities.len(),
{
    if entities.len() > 0 {
        lemma_synced_image_only_extent(entities.drop_last(), j, im0);
    }
}

/// What a pass does to each image, pointwise: image `j` afterwards is its old
/// value, with the extent asked for by the last panel that displays it (or
/// untouched when no panel does).
pub proof fn lemma_synced_images_pointwise(entities: Seq<Entity>, images: Seq<Image>, j: int)
    requires
        0 <= j < images.len(),
    ensures
        synced_images(entities, images).len() == images.len(),
        synced_images(entities, images)[j] == synced_image(entities, j, images[j]),
    decreases entities.len(),
{
    lemma_synced_images_len(entities, images);
    if entities.len() > 0 {
        let prev = synced_images(entities.drop_last(), images);
        lemma_synced_images_pointwise(entities.drop_last(), images, j);
        lemma_synced_image_only_extent(entities.drop_last(), j, images[j]);
        match entities.last() {
            Entity::UiPanel(p) => {
                if p.image as int == j {
                    assert(synced_images(entities, images)[j] == with_extent(
                        prev[j],
                        target_extent(p),
                    ));
                }
            },
            _ => {},
        }
    }
}

/// Re-running the pointwise pass changes nothing the second time.
proof fn lemma_synced_image_idempotent(entities: Seq<Entity>, j: int, im0: Image)
    ensures
        synced_image(entities, j, synced_image(entities, j, im0)) == synced_image(
            entities,
            j,
            im0,
        ),
    decreases entities.len(),
{
    if entities.len() > 0 {
        lemma_synced_image_idempotent(entities.drop_last(), j, im0);
    }
}

/// Size-sync is idempotent: with the panels unchanged, a second pass over the
/// images is a no-op.
pub proof fn lemma_sync_idempotent(entities: Seq<Entity>, images: Seq<Image>)
    ensures
        synced_images(entities, synced_images(entities, images)) == synced_images(
            entities,
            images,
        ),
{
    let once = synced_images(entities, images);
    lemma_synced_images_len(entities, images);
    lemma_synced_images_len(entities, once);
    assert forall|j: int| 0 <= j < once.len() implies synced_images(entities, once)[j] == once[j]
        by {
        lemma_synced_images_pointwise(entities, images, j);
        lemma_synced_images_pointwise(entities, once, j);
        lemma_synced_image_idempotent(entities, j, images[j]);
    }
    assert(synced_images(entities, once) =~= once);
}

/// Pointwise form of the floor: an image some panel displays ends a pass with
/// an extent of at least 1×1 and depth 1.
proof fn lemma_synced_image_floored(entities: Seq<Entity>, j: int, im0: Image)
    requires
        displays(entities, j),
    ensures
        synced_image(entities, j, im0).extent.width >= 1,
        synced_image(entities, j, im0).extent.height >= 1,
        synced_image(entities, j, im0).extent.depth_or_array_layers == 1,
    decreases entities.len(),
{
    let i = choose|i: int|
        {
            &&& 0 <= i < entities.len()
            &&& (#[trigger] entities[i]) matches Entity::UiPanel(p)
            &&& p.image as int == j
        };
    match entities.last() {
        Entity::UiPanel(p) => {
            if p.image as int != j {
                assert(i < entities.len() - 1);
                assert(entities.drop_last()[i] == entities[i]);
                lemma_synced_image_floored(entities.drop_last(), j, im0);
            }
        },
        _ => {
            assert(i < entities.len() - 1);
            assert(entities.drop_last()[i] == entities[i]);
            lemma_synced_image_floored(entities.drop_last(), j, im0);
        },
    }
}

/// After a size-sync pass, every image that some panel displays has an extent
/// of at least 1×1 with depth 1: the render target a panel shows is never
/// degenerate.
pub proof fn lemma_sync_floors_extent(entities: Seq<Entity>, images: Seq<Image>, j: int)
    requires
        0 <= j < images.len(),
        displays(entities, j),
    ensures
        synced_images(entities, images)[j].extent.width >= 1,
        synced_images(entities, images)[j].extent.height >= 1,
        synced_images(entities, images)[j].extent.depth_or_array_layers == 1,
{
    lemma_synced_images_pointwise(entities, images, j);
    lemma_synced_image_floored(entities, j, images[j]);
}

} // verus!
