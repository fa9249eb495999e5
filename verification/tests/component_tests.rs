use tower_sim::components::{Bullet, Hitbox, Tower, BULLET_LIFETIME_MS};
use tower_sim::fixed::{SIZE_MAX, SPEED_MAX};
use tower_sim::frame::cube_spawner;
use tower_sim::timer::{ConfigError, TimerMode};

#[test]
fn hitbox_negative_extent_rejected() {
    assert_eq!(Hitbox::new(100, -1, 100), Err(ConfigError::NegativeExtent));
}

#[test]
fn hitbox_zero_extent_is_point_collider() {
    let h = Hitbox::new(0, 0, 0).unwrap();
    assert_eq!(h.half_extents.x, 0);
    assert_eq!(h.half_extents.y, 0);
    assert_eq!(h.half_extents.z, 0);
}

#[test]
fn tower_zero_period_rejected() {
    assert_eq!(
        Tower::new(0, 1000, 10_000),
        Err(ConfigError::NonPositiveDuration)
    );
}

#[test]
fn tower_size_too_large_rejected() {
    assert_eq!(
        Tower::new(1000, SIZE_MAX + 1, 10_000),
        Err(ConfigError::SizeTooLarge)
    );
}

#[test]
fn tower_speed_too_large_rejected() {
    assert_eq!(
        Tower::new(1000, 1000, SPEED_MAX + 1),
        Err(ConfigError::SpeedTooLarge)
    );
}

#[test]
fn tower_valid_configuration() {
    let t = Tower::new(1000, 1000, 10_000).unwrap();
    assert_eq!(t.shooting_timer.duration, 1000);
    assert_eq!(t.shooting_timer.elapsed, 0);
    assert_eq!(t.shooting_timer.mode, TimerMode::Repeating);
    assert_eq!(t.size, 1000);
    assert_eq!(t.bullet_speed, 10_000);
}

#[test]
fn bullet_speed_too_large_rejected() {
    assert_eq!(Bullet::new(SPEED_MAX + 1), Err(ConfigError::SpeedTooLarge));
}

#[test]
fn bullet_has_fresh_fixed_lifetime() {
    let b = Bullet::new(10_000).unwrap();
    assert_eq!(b.lifetime.duration, BULLET_LIFETIME_MS);
    assert_eq!(b.lifetime.elapsed, 0);
    assert_eq!(b.lifetime.mode, TimerMode::Repeating);
    assert_eq!(b.speed, 10_000);
}

#[test]
fn cube_spawner_only_on_press() {
    assert!(cube_spawner(false).is_none());
    let req = cube_spawner(true).unwrap();
    assert_eq!(req.transform.pos.y, 500);
    assert_eq!(req.transform.pos.z, -5000);
    let h = req.hitbox.unwrap();
    assert_eq!(h.half_extents.x, 500);
    assert!(req.tower.is_none());
    assert!(req.bullet.is_none());
}
