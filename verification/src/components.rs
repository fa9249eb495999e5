//! Entity components: spatial transform, hitbox, tower, bullet.
//!
//! An entity is an identifier plus an unordered set of attached components;
//! every entity carries a transform, the rest are optional. Orientation is
//! carried as the world-space direction of the entity's local +Z axis (a
//! fixed-point unit vector); the collision volume is world-axis-aligned
//! regardless of orientation, so that direction is all the core reads of an
//! entity's rotation.

use vstd::prelude::*;

use crate::fixed::{sat_add, sat_add_i64, sat_sub, sat_sub_i64, AXIS_UNIT, DUR_MAX, SIZE_MAX, SPEED_MAX};
use crate::timer::{ConfigError, Timer, TimerMode};

verus! {

/// A 3D vector in fixed point: components are milli-units.
#[derive(Clone, Copy, PartialEq, Eq, Structural, Debug)]
pub struct Vec3Fix {
    pub x: i64,
    pub y: i64,
    pub z: i64,
}

/// Component-wise saturating vector sum.
pub open spec fn spec_add3(a: Vec3Fix, b: Vec3Fix) -> Vec3Fix {
    Vec3Fix {
        x: sat_add(a.x as int, b.x as int) as i64,
        y: sat_add(a.y as int, b.y as int) as i64,
        z: sat_add(a.z as int, b.z as int) as i64,
    }
}

impl Vec3Fix {
    pub fn new(x: i64, y: i64, z: i64) -> (v: Vec3Fix)
        ensures
            v == (Vec3Fix { x, y, z }),
    {
        Vec3Fix { x, y, z }
    }

    /// Saturating vector addition.
    pub fn add(self, other: Vec3Fix) -> (v: Vec3Fix)
        ensures
            v == spec_add3(self, other),
    {
        Vec3Fix {
            x: sat_add_i64(self.x, other.x),
            y: sat_add_i64(self.y, other.y),
            z: sat_add_i64(self.z, other.z),
        }
    }
}

/// Component-wise saturating vector difference.
pub open spec fn spec_sub3(a: Vec3Fix, b: Vec3Fix) -> Vec3Fix {
    Vec3Fix {
        x: sat_sub(a.x as int, b.x as int) as i64,
        y: sat_sub(a.y as int, b.y as int) as i64,
        z: sat_sub(a.z as int, b.z as int) as i64,
    }
}

/// Saturating vector subtraction.
pub fn sub3(a: Vec3Fix, b: Vec3Fix) -> (v: Vec3Fix)
    ensures
        v == spec_sub3(a, b),
{
    Vec3Fix {
        x: sat_sub_i64(a.x, b.x),
        y: sat_sub_i64(a.y, b.y),
        z: sat_sub_i64(a.z, b.z),
    }
}

/// Position and orientation of an entity in world space.
#[derive(Clone, Copy, PartialEq, Eq, Structural, Debug)]
pub struct Transform {
    /// World position in milli-units.
    pub pos: Vec3Fix,
    /// World direction of the entity's local +Z axis; components are in
    /// `[-AXIS_UNIT, AXIS_UNIT]`, with `(0, 0, AXIS_UNIT)` the identity
    /// orientation.
    pub axis_z: Vec3Fix,
}

impl Transform {
    pub open spec fn inv(self) -> bool {
        &&& -(AXIS_UNIT as int) <= self.axis_z.x <= AXIS_UNIT
        &&& -(AXIS_UNIT as int) <= self.axis_z.y <= AXIS_UNIT
        &&& -(AXIS_UNIT as int) <= self.axis_z.z <= AXIS_UNIT
    }

    /// A transform at the given position with identity orientation.
    pub fn from_xyz(x: i64, y: i64, z: i64) -> (t: Transform)
        ensures
            t == (Transform {
                pos: Vec3Fix { x, y, z },
                axis_z: Vec3Fix { x: 0, y: 0, z: AXIS_UNIT as i64 },
            }),
            t.inv(),
    {
        Transform { pos: Vec3Fix { x, y, z }, axis_z: Vec3Fix { x: 0, y: 0, z: 1000 } }
    }
}

/// Axis-aligned collision volume centered on the entity's position.
#[derive(Clone, Copy, PartialEq, Eq, Structural, Debug)]
pub struct Hitbox {
    /// Per-axis half-extents in milli-units; all non-negative, zero
    /// degenerates that axis to a point test.
    pub half_extents: Vec3Fix,
}

impl Hitbox {
    pub open spec fn inv(self) -> bool {
        &&& self.half_extents.x >= 0
        &&& self.half_extents.y >= 0
        &&& self.half_extents.z >= 0
    }

    /// Attach-time validation: a negative half-extent is a configuration
    /// error; zero is permitted (point collider).
    pub fn new(x: i64, y: i64, z: i64) -> (r: Result<Hitbox, ConfigError>)
        ensures
            r is Ok <==> x >= 0 && y >= 0 && z >= 0,
            r is Ok ==> r->Ok_0 == (Hitbox { half_extents: Vec3Fix { x, y, z } })
                && r->Ok_0.inv(),
            !(x >= 0 && y >= 0 && z >= 0) ==> r == Err::<Hitbox, ConfigError>(
                ConfigError::NegativeExtent,
            ),
    {
        if x >= 0 && y >= 0 && z >= 0 {
            Ok(Hitbox { half_extents: Vec3Fix { x, y, z } })
        } else {
            Err(ConfigError::NegativeExtent)
        }
    }
}

/// A periodically firing emplacement.
#[derive(Clone, Copy, PartialEq, Eq, Structural, Debug)]
pub struct Tower {
    /// Repeating timer with the fixed shooting period.
    pub shooting_timer: Timer,
    /// Body size in milli-units; half of it plus the muzzle clearance is the
    /// spawn offset of a bullet along the local backward axis.
    pub size: u64,
    /// Speed given to spawned bullets, milli-units per second.
    pub bullet_speed: u64,
}

impl Tower {
    pub open spec fn inv(self) -> bool {
        &&& self.shooting_timer.inv()
        &&& self.shooting_timer.mode is Repeating
        &&& self.size <= SIZE_MAX
        &&& self.bullet_speed <= SPEED_MAX
    }

    pub fn new(period_ms: u64, size: u64, bullet_speed: u64) -> (r: Result<Tower, ConfigError>)
        ensures
            r is Ok <==> 1 <= period_ms <= DUR_MAX && size <= SIZE_MAX && bullet_speed
                <= SPEED_MAX,
            r is Ok ==> r->Ok_0 == (Tower {
                shooting_timer: Timer {
                    duration: period_ms,
                    elapsed: 0,
                    mode: TimerMode::Repeating,
                    fired: false,
                },
                size,
                bullet_speed,
            }) && r->Ok_0.inv(),
            period_ms == 0 ==> r == Err::<Tower, ConfigError>(ConfigError::NonPositiveDuration),
            period_ms > DUR_MAX ==> r == Err::<Tower, ConfigError>(ConfigError::DurationTooLarge),
            (1 <= period_ms <= DUR_MAX && size > SIZE_MAX) ==> r == Err::<Tower, ConfigError>(
                ConfigError::SizeTooLarge,
            ),
            (1 <= period_ms <= DUR_MAX && size <= SIZE_MAX && bullet_speed > SPEED_MAX) ==> r
                == Err::<Tower, ConfigError>(ConfigError::SpeedTooLarge),
    {
        match Timer::new(period_ms, TimerMode::Repeating) {
            Err(e) => Err(e),
            Ok(timer) => {
                if size > SIZE_MAX {
                    Err(ConfigError::SizeTooLarge)
                } else if bullet_speed > SPEED_MAX {
                    Err(ConfigError::SpeedTooLarge)
                } else {
                    Ok(Tower { shooting_timer: timer, size, bullet_speed })
                }
            },
        }
    }
}

/// Fixed lifetime of a spawned bullet, in milliseconds.
pub const BULLET_LIFETIME_MS: u64 = 500;

/// A projectile with a finite lifetime.
#[derive(Clone, Copy, PartialEq, Eq, Structural, Debug)]
pub struct Bullet {
    /// Repeating timer used as a one-shot "time since creation" measure:
    /// its first boundary crossing expires the bullet.
    pub lifetime: Timer,
    /// Travel speed in milli-units per second.
    pub speed: u64,
}

impl Bullet {
    pub open spec fn inv(self) -> bool {
        &&& self.lifetime.inv()
        &&& self.lifetime.mode is Repeating
        &&& self.speed <= SPEED_MAX
    }

    /// A fresh bullet with the fixed lifetime and the given speed.
    pub fn new(speed: u64) -> (r: Result<Bullet, ConfigError>)
        ensures
            r is Ok <==> speed <= SPEED_MAX,
            speed <= SPEED_MAX ==> r == Ok::<Bullet, ConfigError>(
                Bullet {
                    lifetime: Timer {
                        duration: BULLET_LIFETIME_MS,
                        elapsed: 0,
                        mode: TimerMode::Repeating,
                        fired: false,
                    },
                    speed,
                },
            ),
            speed > SPEED_MAX ==> r == Err::<Bullet, ConfigError>(ConfigError::SpeedTooLarge),
            r is Ok ==> r->Ok_0.inv(),
    {
        if speed > SPEED_MAX {
            Err(ConfigError::SpeedTooLarge)
        } else {
            match Timer::new(BULLET_LIFETIME_MS, TimerMode::Repeating) {
                Ok(lifetime) => Ok(Bullet { lifetime, speed }),
                Err(e) => Err(e),
            }
        }
    }
}

/// A live entity: an identifier plus its attached components.
#[derive(Clone, Copy, PartialEq, Eq, Structural, Debug)]
pub struct Entity {
    pub id: u64,
    pub transform: Transform,
    pub hitbox: Option<Hitbox>,
    pub tower: Option<Tower>,
    pub bullet: Option<Bullet>,
    /// Back-reference to a parent entity, used only to suppress collision
    /// between a projectile and its firing tower. Non-owning: it may dangle
    /// after a despawn, and a dangling reference never matches a live id.
    pub parent: Option<u64>,
}

impl Entity {
    pub open spec fn wf(self) -> bool {
        &&& self.transform.inv()
        &&& self.hitbox is Some ==> self.hitbox->0.inv()
        &&& self.tower is Some ==> self.tower->0.inv()
        &&& self.bullet is Some ==> self.bullet->0.inv()
    }
}

/// A deferred entity-creation request; the store resolves it into a
/// concrete identifier when the frame's mutation batch is applied.
#[derive(Clone, Copy, PartialEq, Eq, Structural, Debug)]
pub struct SpawnRequest {
    pub transform: Transform,
    pub hitbox: Option<Hitbox>,
    pub tower: Option<Tower>,
    pub bullet: Option<Bullet>,
    pub parent: Option<u64>,
}

impl SpawnRequest {
    pub open spec fn wf(self) -> bool {
        &&& self.transform.inv()
        &&& self.hitbox is Some ==> self.hitbox->0.inv()
        &&& self.tower is Some ==> self.tower->0.inv()
        &&& self.bullet is Some ==> self.bullet->0.inv()
    }
}

/// The entity a request becomes once the store assigns it an identifier.
pub open spec fn entity_of(req: SpawnRequest, id: int) -> Entity {
    Entity {
        id: id as u64,
        transform: req.transform,
        hitbox: req.hitbox,
        tower: req.tower,
        bullet: req.bullet,
        parent: req.parent,
    }
}

} // verus!
