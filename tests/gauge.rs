use floatingball::geometry::{
    circle_layout, clamp_to_circle, gear_layout, isqrt, resize_layout, within, Point, Size,
};
use floatingball::wave::{
    edge_damping, wave_crest, wave_phase_at, wave_strength, water_fill, water_segment, WaterFill,
    TAU_MICRORAD, WAVE_SAMPLES,
};
use floatingball::RATIO_SCALE;

fn p(x: i32, y: i32) -> Point {
    Point { x, y }
}

fn inside(q: Point, c: Point, r: i32) -> bool {
    let dx = (q.x - c.x) as i64;
    let dy = (q.y - c.y) as i64;
    dx * dx + dy * dy <= (r as i64) * (r as i64)
}

#[test]
fn layout_of_a_square_canvas() {
    let (center, radius) = circle_layout(Size { width: 120_000, height: 120_000 });
    assert_eq!(center, p(60_000, 60_000));
    assert_eq!(radius, 59_400);
    let (gear, gear_radius) = gear_layout(center, radius);
    assert_eq!(gear, p(92_670, 27_330));
    assert_eq!(gear_radius, 13_068);
    let (handle, handle_radius) = resize_layout(center, radius);
    assert_eq!(handle, p(92_670, 92_670));
    assert_eq!(handle_radius, 13_068);
}

#[test]
fn layout_uses_the_shorter_side_and_a_floor() {
    let (center, radius) = circle_layout(Size { width: 200_000, height: 100_000 });
    assert_eq!(center, p(100_000, 50_000));
    assert_eq!(radius, 49_500);
    let (_, tiny) = circle_layout(Size { width: 0, height: 0 });
    assert_eq!(tiny, 1_000);
}

#[test]
fn hit_test_is_a_disk_not_a_box() {
    let c = p(0, 0);
    assert!(within(p(3, 4), c, 5));
    assert!(!within(p(4, 4), c, 5));
    assert!(!within(p(0, 0), c, -1));
    assert!(within(p(i32::MAX, 0), p(i32::MIN, 0), i32::MAX) == false);
}

#[test]
fn integer_square_root() {
    assert_eq!(isqrt(0), 0);
    assert_eq!(isqrt(15), 3);
    assert_eq!(isqrt(16), 4);
    assert_eq!(isqrt(u64::MAX), 4_294_967_295);
}

#[test]
fn clamp_to_circle_holds_y_in_the_column() {
    let c = p(0, 0);
    assert_eq!(clamp_to_circle(c, 5, 3, 10), 4);
    assert_eq!(clamp_to_circle(c, 5, 3, -10), -4);
    assert_eq!(clamp_to_circle(c, 5, 3, 2), 2);
    assert_eq!(clamp_to_circle(c, 5, 9, 100), 100);
}

#[test]
fn segment_exists_only_strictly_between_empty_and_full() {
    let c = p(60_000, 60_000);
    assert!(water_segment(c, 59_400, 0).is_none());
    assert!(water_segment(c, 59_400, RATIO_SCALE).is_none());
    assert!(water_segment(c, 59_400, 1).is_some());
    assert!(water_segment(c, 59_400, RATIO_SCALE - 1).is_some());
    assert_eq!(water_fill(c, 59_400, 0), WaterFill::Empty);
    assert_eq!(water_fill(c, 59_400, RATIO_SCALE), WaterFill::Disk);
    assert_eq!(water_fill(c, 59_400, RATIO_SCALE + 7), WaterFill::Disk);
}

#[test]
fn half_full_chord_is_the_diameter() {
    let c = p(60_000, 60_000);
    let seg = water_segment(c, 59_400, RATIO_SCALE / 2).unwrap();
    assert_eq!(seg.level, 0);
    assert_eq!(seg.left, p(600, 60_000));
    assert_eq!(seg.right, p(119_400, 60_000));
    assert_eq!(water_fill(c, 59_400, RATIO_SCALE / 2), WaterFill::Wave(seg));
}

#[test]
fn quarter_full_chord_lies_below_center() {
    let c = p(0, 0);
    let seg = water_segment(c, 10_000, 2_500).unwrap();
    assert_eq!(seg.level, 5_000);
    assert_eq!(seg.left.y, 5_000);
    assert_eq!(seg.right.x, 8_660);
    assert_eq!(seg.left.x, -8_660);
}

#[test]
fn strength_peaks_at_half() {
    assert_eq!(wave_strength(RATIO_SCALE / 2), RATIO_SCALE);
    assert_eq!(wave_strength(0), 0);
    assert_eq!(wave_strength(RATIO_SCALE), 0);
    assert_eq!(wave_strength(2_500), 7_500);
    assert_eq!(wave_strength(50_000), 0);
}

#[test]
fn edge_damping_vanishes_at_the_ends() {
    assert_eq!(edge_damping(0, 64), 0);
    assert_eq!(edge_damping(64, 64), 0);
    assert_eq!(edge_damping(32, 64), RATIO_SCALE);
    assert_eq!(edge_damping(16, 64), 7_500);
}

#[test]
fn crest_stays_inside_the_disk() {
    let c = p(60_000, 60_000);
    let r = 59_400;
    let wobble: Vec<i32> = (0..WAVE_SAMPLES).map(|i| if i % 2 == 0 { 10_000 } else { -10_000 }).collect();
    for ratio in [1u32, 300, 5_000, 9_700, 9_999] {
        let points = wave_crest(c, r, ratio, 10_000, &wobble).unwrap();
        assert_eq!(points.len(), WAVE_SAMPLES);
        for q in &points {
            assert!(inside(*q, c, r));
        }
        let seg = water_segment(c, r, ratio).unwrap();
        assert_eq!(points[WAVE_SAMPLES - 1].x, seg.right.x);
    }
    assert!(wave_crest(c, r, 0, 0, &wobble).is_none());
    assert!(wave_crest(c, r, RATIO_SCALE, 0, &wobble).is_none());
}

#[test]
fn flat_crest_follows_the_chord() {
    let c = p(0, 0);
    let wobble = vec![0; WAVE_SAMPLES];
    let points = wave_crest(c, 10_000, 5_000, 0, &wobble).unwrap();
    for q in &points[..WAVE_SAMPLES - 1] {
        assert_eq!(q.y, 0);
    }
    assert_eq!(points[31].x, 0);
}

#[test]
fn crest_sways_ends_in_opposite_directions() {
    let c = p(0, 0);
    let wobble = vec![0; WAVE_SAMPLES];
    let points = wave_crest(c, 100_000, 5_000, 10_000, &wobble).unwrap();
    assert!(points[0].y > 0);
    assert!(points[WAVE_SAMPLES - 2].y < 0);
    assert_eq!(points[31].y, 0);
}

#[test]
fn phase_turns_and_wraps() {
    assert_eq!(wave_phase_at(0), 0);
    assert_eq!(wave_phase_at(1_000), 2_200_000);
    assert_eq!(wave_phase_at(3_000), 6_600_000 - 6_283_185);
    assert!((wave_phase_at(u64::MAX) as u64) < TAU_MICRORAD);
}

#[test]
fn crest_values_follow_the_formula() {
    let c = p(0, 0);
    let still = vec![0; WAVE_SAMPLES];
    // Sway alone: 0.035 of the radius, tilting the ends apart.
    let points = wave_crest(c, 100_000, 5_000, 10_000, &still).unwrap();
    assert_eq!(points[0], p(-96_875, 3_390));
    assert_eq!(points[62], p(96_875, -3_391));
    // Wobble alone: 0.055 of the radius, undamped in the middle.
    let high = vec![10_000; WAVE_SAMPLES];
    let points = wave_crest(c, 10_000, 5_000, 0, &high).unwrap();
    assert_eq!(points[31], p(0, 550));
    assert_eq!(points[15].y, 412);
}

#[test]
fn nearly_full_small_gauge_keeps_a_real_chord() {
    let c = p(0, 0);
    let seg = water_segment(c, 1_000, RATIO_SCALE - 1).unwrap();
    assert_eq!(seg.left, p(-44, -999));
    assert_eq!(seg.right, p(44, -999));
    let seg = water_segment(c, 1_000, 1).unwrap();
    assert_eq!(seg.left, p(-44, 999));
    assert!(seg.left.x < seg.right.x);
}
