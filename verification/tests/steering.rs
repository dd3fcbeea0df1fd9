use boids::fixed::Fixed;
use boids::flock::{Boid, FlockParameters};
use boids::rules::{alignment_pass, cohesion_pass, mean_of, separation_pass, survey};
use boids::vector::Vec2;

fn vec2(x: i32, y: i32) -> Vec2 {
    Vec2::new(Fixed::from_int(x), Fixed::from_int(y))
}

fn bits(x: i64, y: i64) -> Vec2 {
    Vec2::new(Fixed::from_bits(x), Fixed::from_bits(y))
}

fn boid(px: i32, py: i32, vx: i32, vy: i32) -> Boid {
    Boid::new(vec2(px, py), vec2(vx, vy))
}

fn pair() -> Vec<Boid> {
    vec![boid(100, 100, 30, 40), boid(103, 104, -40, 30)]
}

/// Two boids on one point, a third exactly ten away from them, a fourth far
/// off.
fn crowd() -> Vec<Boid> {
    vec![boid(10, 20, 1, 0), boid(10, 20, 0, 7), boid(16, 28, -3, 5), boid(400, 300, 50, 0)]
}

#[test]
fn survey_counts_and_sums_the_neighbors() {
    let flock = crowd();
    let seen = survey(&flock, vec2(10, 20), Fixed::from_int(20));
    assert_eq!(seen.count, 1usize);
    assert_eq!(seen.offset_x, -6i128 << 32);
    assert_eq!(seen.offset_y, -8i128 << 32);
    assert_eq!(seen.velocity_x, -3i128 << 32);
    assert_eq!(seen.velocity_y, 5i128 << 32);
    assert_eq!(seen.position_x, 16i128 << 32);
    assert_eq!(seen.position_y, 28i128 << 32);

    let from_third = survey(&flock, vec2(16, 28), Fixed::from_int(20));
    assert_eq!(from_third.count, 2usize);
    assert_eq!(from_third.offset_x, 12i128 << 32);
    assert_eq!(from_third.offset_y, 16i128 << 32);
    assert_eq!(from_third.velocity_x, 1i128 << 32);
    assert_eq!(from_third.velocity_y, 7i128 << 32);
    assert_eq!(from_third.position_x, 20i128 << 32);
    assert_eq!(from_third.position_y, 40i128 << 32);
    assert_eq!(from_third.close_vector(), vec2(12, 16));
    assert_eq!(from_third.mean_position(), vec2(10, 20));
    assert_eq!(from_third.mean_velocity(), bits(1i64 << 31, 7i64 << 31));
}

#[test]
fn survey_of_an_empty_flock_is_empty() {
    let flock: Vec<Boid> = Vec::new();
    let seen = survey(&flock, vec2(0, 0), Fixed::from_int(20));
    assert_eq!(seen.count, 0usize);
    assert_eq!(seen.close_vector(), Vec2::zero());
    assert_eq!(seen.mean_velocity(), Vec2::zero());
    assert_eq!(seen.mean_position(), Vec2::zero());
}

#[test]
fn survey_skips_boids_at_the_range_and_beyond() {
    let flock = crowd();
    // The third boid is exactly ten away: not nearer than ten.
    assert_eq!(survey(&flock, vec2(10, 20), Fixed::from_int(10)).count, 0usize);
    assert_eq!(survey(&flock, vec2(10, 20), Fixed::from_bits((10i64 << 32) + 1)).count, 1usize);
}

#[test]
fn survey_skips_every_boid_on_the_same_point() {
    let flock = vec![boid(5, 5, 1, 1), boid(5, 5, 2, 2), boid(5, 5, 3, 3)];
    let seen = survey(&flock, vec2(5, 5), Fixed::from_int(100));
    assert_eq!(seen.count, 0usize);
    let beside = survey(&flock, vec2(5, 6), Fixed::from_int(100));
    assert_eq!(beside.count, 3usize);
    assert_eq!(beside.velocity_x, 6i128 << 32);
}

#[test]
fn mean_rounds_toward_zero_and_is_zero_of_nothing() {
    assert_eq!(mean_of(7, 2).bits, 3i64);
    assert_eq!(mean_of(-7, 2).bits, -3i64);
    assert_eq!(mean_of(0, 0).bits, 0i64);
    assert_eq!(mean_of(12345, 0).bits, 0i64);
    assert_eq!(mean_of(i128::MAX, 1).bits, i64::MAX);
    assert_eq!(mean_of(3 * (i64::MIN as i128), 3).bits, i64::MIN);
}

#[test]
fn separation_pushes_a_close_pair_apart() {
    let params = FlockParameters::default();
    let after = separation_pass(&pair(), &params);
    assert_eq!(after.len(), 2usize);
    // Offsets (-3, -4) and (3, 4), times the avoid factor of two.
    assert_eq!(after[0], boid(100, 100, 24, 32));
    assert_eq!(after[1], boid(103, 104, -34, 38));
    assert_eq!(after[0].velocity, bits(103_079_215_104, 137_438_953_472));
    assert_eq!(after[1].velocity, bits(-146_028_888_064, 163_208_757_248));
}

#[test]
fn separation_change_points_away_from_the_other_boid() {
    let params = FlockParameters::default();
    let before = pair();
    let after = separation_pass(&before, &params);
    let away_x: i128 = (before[0].position.x.bits - before[1].position.x.bits) as i128;
    let away_y: i128 = (before[0].position.y.bits - before[1].position.y.bits) as i128;
    let gain_a_x: i128 = (after[0].velocity.x.bits - before[0].velocity.x.bits) as i128;
    let gain_a_y: i128 = (after[0].velocity.y.bits - before[0].velocity.y.bits) as i128;
    let gain_b_x: i128 = (after[1].velocity.x.bits - before[1].velocity.x.bits) as i128;
    let gain_b_y: i128 = (after[1].velocity.y.bits - before[1].velocity.y.bits) as i128;
    assert!(gain_a_x * away_x + gain_a_y * away_y > 0);
    assert!(gain_b_x * away_x + gain_b_y * away_y < 0);
}

#[test]
fn separation_leaves_boids_outside_the_protected_range_alone() {
    let params = FlockParameters::default();
    let before = crowd();
    let after = separation_pass(&before, &params);
    assert_eq!(after, before);
}

#[test]
fn separation_with_a_tiny_push_rounds_to_nothing() {
    let mut params = FlockParameters::default();
    params.avoid_factor = Fixed::from_bits(1);
    let before = vec![
        Boid::new(bits(0, 0), bits(5, 5)),
        Boid::new(bits(3, 0), bits(5, 5)),
    ];
    let after = separation_pass(&before, &params);
    assert_eq!(after, before);
}

#[test]
fn alignment_without_neighbors_pulls_toward_rest() {
    let params = FlockParameters::default();
    let before = vec![boid(100, 100, 40, -20), boid(500, 500, 7, 7)];
    let after = alignment_pass(&before, &params);
    // velocity + (0 - velocity) * 0.05
    let pull = Vec2::zero().sub(before[0].velocity).scale(params.matching_factor);
    assert_eq!(after[0].velocity, before[0].velocity.add(pull));
    assert_eq!(after[0].velocity, bits(163_208_757_280, -81_604_378_640));
    assert_eq!(after[0].position, before[0].position);
}

#[test]
fn alignment_of_a_lone_boid_pulls_toward_rest() {
    let params = FlockParameters::default();
    let before = vec![boid(0, 0, 100, 0)];
    let after = alignment_pass(&before, &params);
    // 100 - 100 * 0.05, with 0.05 rounded down to a multiple of 2^-32.
    assert_eq!(after[0].velocity, bits(408_021_893_200, 0));
}

#[test]
fn alignment_moves_toward_the_mean_velocity() {
    let params = FlockParameters::default();
    let after = alignment_pass(&pair(), &params);
    assert_eq!(after[0].velocity, bits(113_816_633_400, 169_651_208_200));
    assert_eq!(after[1].velocity, bits(-156_766_306_360, 130_996_502_520));
    assert_eq!(after[0].position, vec2(100, 100));
    assert_eq!(after[1].position, vec2(103, 104));
}

#[test]
fn alignment_ignores_a_boid_on_the_same_point() {
    let params = FlockParameters::default();
    let after = alignment_pass(&crowd(), &params);
    assert_eq!(after[0].velocity, bits(3_435_973_840, 1_073_741_820));
    assert_eq!(after[1].velocity, bits(-644_245_092, 29_635_274_344));
    assert_eq!(after[2].velocity, bits(-12_133_282_614, 21_152_713_934));
    assert_eq!(after[3].velocity, bits(204_010_946_600, 0));
}

#[test]
fn cohesion_moves_toward_the_mean_position() {
    let params = FlockParameters::default();
    let after = cohesion_pass(&pair(), &params);
    assert_eq!(after[0].velocity, bits(128_855_461_329, 171_807_281_772));
    assert_eq!(after[1].velocity, bits(-171_805_134_289, 128_840_428_948));
    assert_eq!(after[0].position, vec2(100, 100));
}

#[test]
fn cohesion_without_neighbors_pulls_toward_the_origin() {
    let params = FlockParameters::default();
    let after = cohesion_pass(&crowd(), &params);
    assert_eq!(after[0].velocity, bits(4_307_852_194, 17_179_864));
    assert_eq!(after[1].velocity, bits(12_884_898, 30_081_950_936));
    assert_eq!(after[2].velocity, bits(-12_897_786_786, 21_457_656_616));
    // The far boid sees nobody: (0 - position) * 0.0005 is added.
    assert_eq!(after[3].velocity, bits(213_889_371_600, -644_244_900));
}

#[test]
fn visible_range_below_protected_range_is_allowed() {
    let mut params = FlockParameters::default();
    params.visible_range = Fixed::from_int(1);
    let before = pair();
    let apart = separation_pass(&before, &params);
    assert_eq!(apart[0], boid(100, 100, 24, 32));
    let matched = alignment_pass(&before, &params);
    let rest_pull = Vec2::zero().sub(before[0].velocity).scale(params.matching_factor);
    assert_eq!(matched[0].velocity, before[0].velocity.add(rest_pull));
}

#[test]
fn passes_of_an_empty_flock_are_empty() {
    let params = FlockParameters::default();
    let none: Vec<Boid> = Vec::new();
    assert!(separation_pass(&none, &params).is_empty());
    assert!(alignment_pass(&none, &params).is_empty());
    assert!(cohesion_pass(&none, &params).is_empty());
}
