use dual_viewport::{
    init, layout_ui, run_frame, Entity, Extent, FrameAction, FrameInput, World,
};

fn input(delta_micros: u64, escape_pressed: bool) -> FrameInput {
    FrameInput { delta_micros, escape_pressed, window_width: 640, window_height: 480 }
}

fn panels_of(w: &World) -> Vec<dual_viewport::Panel> {
    w.entities
        .iter()
        .filter_map(|e| match e {
            Entity::UiPanel(p) => Some(*p),
            _ => None,
        })
        .collect()
}

fn cube_spin_of(w: &World) -> u64 {
    w.entities
        .iter()
        .find_map(|e| match e {
            Entity::Cube(c) => Some(c.spin_micros),
            _ => None,
        })
        .unwrap()
}

#[test]
fn layout_gives_each_panel_half_the_window() {
    let mut w = init(true);
    layout_ui(&mut w, 801, 600);
    for p in panels_of(&w) {
        assert_eq!(p.width, 400);
        assert_eq!(p.height, 600);
    }
}

#[test]
fn first_frame_sizes_the_image_to_the_panels() {
    let mut w = init(true);
    let action = run_frame(&mut w, &input(16_000, false));
    assert_eq!(action, FrameAction::Run);
    assert_eq!(
        w.images[0].extent,
        Extent { width: 320, height: 480, depth_or_array_layers: 1 }
    );
    assert_eq!(cube_spin_of(&w), 16_000);
}

#[test]
fn image_stays_shared_across_frames() {
    let mut w = init(true);
    for _ in 0..5 {
        run_frame(&mut w, &input(16_000, false));
        let panels = panels_of(&w);
        assert_eq!(w.images.len(), 1);
        assert_eq!(panels.len(), 2);
        for p in panels {
            assert_eq!(p.image, 0);
        }
    }
}

#[test]
fn escape_ends_the_loop_after_its_frame() {
    let mut w = init(true);
    let script = [
        (16_000u64, false),
        (17_000, false),
        (15_000, true),
        (20_000, false),
        (20_000, false),
    ];
    let mut frames_run = 0;
    for (delta, escape) in script {
        let action = run_frame(&mut w, &input(delta, escape));
        frames_run += 1;
        if action == FrameAction::Exit {
            break;
        }
    }
    // The loop stopped with the frame that saw Escape...
    assert_eq!(frames_run, 3);
    // ...whose systems still ran: the cube carries all three deltas and none
    // of the later ones.
    assert_eq!(cube_spin_of(&w), 48_000);
}

#[test]
fn escape_on_the_first_frame_exits_at_once() {
    let mut w = init(true);
    let action = run_frame(&mut w, &input(16_000, true));
    assert_eq!(action, FrameAction::Exit);
}

#[test]
fn resize_converges_after_a_window_change() {
    let mut w = init(true);
    run_frame(&mut w, &input(16_000, false));
    let grown = FrameInput {
        delta_micros: 16_000,
        escape_pressed: false,
        window_width: 1920,
        window_height: 1080,
    };
    run_frame(&mut w, &grown);
    assert_eq!(
        w.images[0].extent,
        Extent { width: 960, height: 1080, depth_or_array_layers: 1 }
    );
}

#[test]
fn zero_area_window_keeps_a_one_pixel_image() {
    let mut w = init(true);
    let flat = FrameInput {
        delta_micros: 16_000,
        escape_pressed: false,
        window_width: 0,
        window_height: 0,
    };
    run_frame(&mut w, &flat);
    assert_eq!(
        w.images[0].extent,
        Extent { width: 1, height: 1, depth_or_array_layers: 1 }
    );
}
