use psycho_core::components::{collides, Circle, Particle, Transform};
use psycho_core::creator::LazyCreator;
use psycho_core::geometry::{
    cos_mdeg_i64, div_trunc_i64, isqrt_i64, sin_mdeg_i64, unit_scaled, Vec2, DIR_SCALE,
};
use psycho_core::reader::BallEnemy;

#[test]
fn div_trunc_rounds_toward_zero() {
    assert_eq!(div_trunc_i64(7, 2), 3);
    assert_eq!(div_trunc_i64(-7, 2), -3);
    assert_eq!(div_trunc_i64(6, 3), 2);
    assert_eq!(div_trunc_i64(-6, 3), -2);
    assert_eq!(div_trunc_i64(0, 5), 0);
}

#[test]
fn isqrt_exact_and_rounded() {
    assert_eq!(isqrt_i64(0), 0);
    assert_eq!(isqrt_i64(1), 1);
    assert_eq!(isqrt_i64(2), 1);
    assert_eq!(isqrt_i64(1_000_000), 1000);
    assert_eq!(isqrt_i64(999_999), 999);
    assert_eq!(isqrt_i64(2500), 50);
}

#[test]
fn sine_is_exact_on_the_cardinal_points() {
    assert_eq!(sin_mdeg_i64(0), 0);
    assert_eq!(sin_mdeg_i64(90_000), DIR_SCALE);
    assert_eq!(sin_mdeg_i64(180_000), 0);
    assert_eq!(sin_mdeg_i64(270_000), -DIR_SCALE);
    assert_eq!(cos_mdeg_i64(0), DIR_SCALE);
    assert_eq!(cos_mdeg_i64(90_000), 0);
    assert_eq!(cos_mdeg_i64(180_000), -DIR_SCALE);
    // Negative angles wrap around.
    assert_eq!(sin_mdeg_i64(-90_000), -DIR_SCALE);
}

#[test]
fn unit_direction_of_a_pythagorean_vector() {
    let u = unit_scaled(Vec2::new(3, 4));
    assert_eq!(u, Vec2::new(39321, 52428));
    // The zero vector falls back to straight down the screen.
    assert_eq!(unit_scaled(Vec2::new(0, 0)), Vec2::new(0, DIR_SCALE));
}

#[test]
fn circles_collide_by_border_distance() {
    let t1 = Transform::new(0, 0);
    let t2 = Transform::new(8, 0);
    let c5 = Circle::with_radius(5);
    assert!(collides(&t1, &c5, &t2, &c5, 2));
    assert!(!collides(&t1, &c5, &t2, &c5, 3));
    // A negative effective reach is clamped to zero: only a shared center
    // still counts as touching.
    let t3 = Transform::new(1, 0);
    assert!(!collides(&t1, &Circle::with_radius(1), &t3, &Circle::with_radius(1), 10));
    assert!(collides(&t1, &Circle::with_radius(1), &t1, &Circle::with_radius(1), 10));
}

#[test]
fn particle_percent_caps_at_full() {
    let p = Particle { created: 0, lifetime: 1000 };
    assert_eq!(p.percent(250), 250);
    assert_eq!(p.percent(1000), 1000);
    assert_eq!(p.percent(5000), 1000);
}

#[test]
fn default_colors_tag_the_enemy_kinds() {
    let mut creator = LazyCreator::new();
    creator.create_enemy(
        BallEnemy::Simple,
        Circle::with_radius(1),
        Transform::new(0, 0),
        psycho_core::components::Moving::new(0, 0),
    );
    assert_eq!(creator.enemies[0].color, BallEnemy::Simple.default_color());
    assert_eq!(BallEnemy::Simple.default_color().inner(), [100, 100, 900, 1000]);
    assert_eq!(BallEnemy::Double.default_color().inner(), [950, 300, 100, 1000]);
}
