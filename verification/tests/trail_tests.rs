use tablet_visualizer::trail::{DrawCmd, Trail};
use tablet_visualizer::units::{Rgba, FP_ONE};

const RED: Rgba = Rgba { r: 255, g: 0, b: 0, a: 255 };

#[test]
fn new_trail_is_empty() {
    let t = Trail::new(FP_ONE, RED, 2 * FP_ONE, false, None);
    assert_eq!(t.points.len(), 0);
    assert_eq!(t.decay_rate, FP_ONE);
    assert_eq!(t.size, 2 * FP_ONE);
    assert!(!t.is_image);
    assert_eq!(t.tex, None);
}

#[test]
fn fresh_points_keep_age_after_small_decay() {
    // decay 0.5 age-units/s for 1 s: every point added this frame keeps
    // age 1.0 - 0.5 and none is removed.
    let mut t = Trail::new(500_000, RED, FP_ONE, false, None);
    t.add_new(10, 20);
    t.add_new(30, 40);
    t.add_new(50, 60);
    t.update(1_000_000);
    assert_eq!(t.points.len(), 3);
    for p in &t.points {
        assert_eq!(p.age, 500_000);
    }
    assert_eq!((t.points[0].x, t.points[0].y), (10, 20));
    assert_eq!((t.points[1].x, t.points[1].y), (30, 40));
    assert_eq!((t.points[2].x, t.points[2].y), (50, 60));
}

#[test]
fn repeated_updates_decrease_age_until_pruned() {
    // decay 0.3 age-units/s, 1 s per frame: 0.7, 0.4, 0.1, then gone.
    let mut t = Trail::new(300_000, RED, FP_ONE, false, None);
    t.add_new(1, 2);
    t.update(1_000_000);
    assert_eq!(t.points[0].age, 700_000);
    t.update(1_000_000);
    assert_eq!(t.points[0].age, 400_000);
    t.update(1_000_000);
    assert_eq!(t.points[0].age, 100_000);
    t.update(1_000_000);
    assert_eq!(t.points.len(), 0);
    // once pruned, the point never reappears in draw output
    assert_eq!(t.draw().len(), 0);
    t.update(1_000_000);
    assert_eq!(t.draw().len(), 0);
}

#[test]
fn draw_without_mutation_is_idempotent() {
    let mut t = Trail::new(FP_ONE, RED, FP_ONE, false, None);
    t.add_new(5, 6);
    t.add_new(7, 8);
    t.update(250_000);
    let first = t.draw();
    let second = t.draw();
    let third = t.draw();
    assert_eq!(first, second);
    assert_eq!(second, third);
}

#[test]
fn update_on_empty_trail_is_noop() {
    let mut t = Trail::new(FP_ONE, RED, FP_ONE, false, None);
    t.update(1_000_000);
    assert_eq!(t.points.len(), 0);
    t.update(0);
    assert_eq!(t.points.len(), 0);
}

#[test]
fn age_exactly_zero_after_decay_is_removed() {
    // decay 1.0 age-units/s for exactly 1 s: new age is exactly 0, removed.
    let mut t = Trail::new(FP_ONE, RED, FP_ONE, false, None);
    t.add_new(3, 4);
    t.update(1_000_000);
    assert_eq!(t.points.len(), 0);
}

#[test]
fn half_life_scenario() {
    // decay_rate = 1.0, dt = 0.5: one update leaves age 0.5 and the point
    // present; a second update reaches age 0 and removes it.
    let mut t = Trail::new(FP_ONE, RED, FP_ONE, false, None);
    t.add_new(11, 12);
    t.update(500_000);
    assert_eq!(t.points.len(), 1);
    assert_eq!(t.points[0].age, 500_000);
    t.update(500_000);
    assert_eq!(t.points.len(), 0);
}

#[test]
fn draw_renders_in_insertion_order() {
    let mut t = Trail::new(FP_ONE, RED, 3 * FP_ONE, false, None);
    t.add_new(100, 101);
    t.add_new(200, 201);
    t.add_new(300, 301);
    let cmds = t.draw();
    assert_eq!(cmds.len(), 3);
    let expect = [(100, 101), (200, 201), (300, 301)];
    for (cmd, (ex, ey)) in cmds.iter().zip(expect.iter()) {
        match cmd {
            DrawCmd::Circle { x, y, radius, color } => {
                assert_eq!((*x, *y), (*ex, *ey));
                assert_eq!(*radius, 3 * FP_ONE);
                // full age: fully opaque
                assert_eq!(*color, Rgba { r: 255, g: 0, b: 0, a: 255 });
            }
            DrawCmd::Sprite { .. } => panic!("flat trail must draw circles"),
        }
    }
}

#[test]
fn alpha_fades_with_age() {
    // age 0.5 modulates the alpha channel to floor(0.5 * 255) = 127.
    let mut t = Trail::new(FP_ONE, RED, FP_ONE, false, None);
    t.add_new(1, 1);
    t.update(500_000);
    let cmds = t.draw();
    assert_eq!(cmds.len(), 1);
    match &cmds[0] {
        DrawCmd::Circle { color, .. } => assert_eq!(color.a, 127),
        DrawCmd::Sprite { .. } => panic!("flat trail must draw circles"),
    }
}

#[test]
fn image_trail_draws_sprites() {
    let mut t = Trail::new(FP_ONE, RED, 2 * FP_ONE, true, Some(7));
    t.add_new(40, 50);
    let cmds = t.draw();
    assert_eq!(cmds.len(), 1);
    match &cmds[0] {
        DrawCmd::Sprite { handle, x, y, size, color } => {
            assert_eq!(*handle, 7);
            assert_eq!((*x, *y), (40, 50));
            assert_eq!(*size, 2 * FP_ONE);
            assert_eq!(color.a, 255);
        }
        DrawCmd::Circle { .. } => panic!("image trail with a texture must draw sprites"),
    }
}

#[test]
fn image_trail_without_texture_falls_back_to_circles() {
    let mut t = Trail::new(FP_ONE, RED, FP_ONE, true, None);
    t.add_new(9, 9);
    let cmds = t.draw();
    assert!(matches!(cmds[0], DrawCmd::Circle { .. }));
}

#[test]
fn oversized_decay_prunes_everything_without_panic() {
    let mut t = Trail::new(u64::MAX, RED, FP_ONE, false, None);
    t.add_new(0, 0);
    t.add_new(1, 1);
    t.update(u64::MAX);
    assert_eq!(t.points.len(), 0);
}

#[test]
fn tiny_decay_product_leaves_age_unchanged() {
    // one tick of rate for one tick of time truncates to zero loss
    let mut t = Trail::new(1, RED, FP_ONE, false, None);
    t.add_new(2, 3);
    t.update(1);
    assert_eq!(t.points.len(), 1);
    assert_eq!(t.points[0].age, FP_ONE);
}
