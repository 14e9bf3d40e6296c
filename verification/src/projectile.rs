//! Projectiles: what flies from a weapon until it hits or its time is up.

use crate::geometry::Vec3;
use crate::pool::{pool_aged, Handle, Pool, Timed};
use crate::text::{refusal, refusal_text};
use crate::weapon::saturating_rest;
use vstd::prelude::*;

verus! {

/// The kinds of projectile.
#[derive(Copy, Clone, Debug, PartialEq, Eq, Structural)]
pub enum ProjectileKind {
    Plasma,
    Bullet,
    Rocket,
}

/// What is fixed for a kind of projectile.
#[derive(Copy, Clone, Debug, PartialEq, Eq, Structural)]
pub struct ProjectileDefinition {
    /// The harm a hit does.
    pub damage: u32,
    /// The speed in millimetres per second.
    pub speed: u32,
    /// How long the projectile flies at most, in milliseconds.
    pub lifetime: u32,
}

impl ProjectileKind {
    /// What is fixed for this kind of projectile.
    pub open spec fn spec_definition(self) -> ProjectileDefinition {
        match self {
            ProjectileKind::Plasma => ProjectileDefinition {
                damage: 30,
                speed: 12_000,
                lifetime: 10_000,
            },
            ProjectileKind::Bullet => ProjectileDefinition {
                damage: 15,
                speed: 75_000,
                lifetime: 10_000,
            },
            ProjectileKind::Rocket => ProjectileDefinition {
                damage: 50,
                speed: 5_000,
                lifetime: 10_000,
            },
        }
    }

    /// What is fixed for this kind of projectile.
    pub fn definition(self) -> (definition: ProjectileDefinition)
        ensures
            definition == self.spec_definition(),
    {
        match self {
            ProjectileKind::Plasma => ProjectileDefinition {
                damage: 30,
                speed: 12_000,
                lifetime: 10_000,
            },
            ProjectileKind::Bullet => ProjectileDefinition {
                damage: 15,
                speed: 75_000,
                lifetime: 10_000,
            },
            ProjectileKind::Rocket => ProjectileDefinition {
                damage: 50,
                speed: 5_000,
                lifetime: 10_000,
            },
        }
    }
}

impl ProjectileKind {
    /// The number under which a kind is kept.
    pub open spec fn spec_id(self) -> u32 {
        match self {
            ProjectileKind::Plasma => 0,
            ProjectileKind::Bullet => 1,
            ProjectileKind::Rocket => 2,
        }
    }

    /// The kind kept under `id`, if there is one.
    pub open spec fn spec_from_id(id: u32) -> Option<ProjectileKind> {
        if id == 0 {
            Some(ProjectileKind::Plasma)
        } else if id == 1 {
            Some(ProjectileKind::Bullet)
        } else if id == 2 {
            Some(ProjectileKind::Rocket)
        } else {
            None
        }
    }

    /// The number under which this kind is kept.
    pub fn id(self) -> (id: u32)
        ensures
            id == self.spec_id(),
    {
        match self {
            ProjectileKind::Plasma => 0,
            ProjectileKind::Bullet => 1,
            ProjectileKind::Rocket => 2,
        }
    }

    /// Reads a kind back from its number. A number that stands for no kind
    /// is refused with a message that names the number.
    pub fn from_id(id: u32) -> (r: Result<ProjectileKind, String>)
        ensures
            match r {
                Ok(kind) => Self::spec_from_id(id) == Some(kind),
                Err(text) => Self::spec_from_id(id).is_none() && text@ == refusal_text(
                    "Invalid projectile kind id "@,
                    id,
                ),
            },
    {
        match id {
            0 => Ok(ProjectileKind::Plasma),
            1 => Ok(ProjectileKind::Bullet),
            2 => Ok(ProjectileKind::Rocket),
            _ => Err(refusal("Invalid projectile kind id ", id)),
        }
    }

    /// Every kind is read back from its own number, and a number that
    /// stands for a kind is the number of that kind.
    pub proof fn lemma_id_round_trip(kind: ProjectileKind, id: u32)
        ensures
            Self::spec_from_id(kind.spec_id()) == Some(kind),
            Self::spec_from_id(id) matches Some(read) ==> read.spec_id() == id,
            Self::spec_from_id(id).is_some() <==> id < 3,
    {
    }
}

/// A projectile in flight.
#[derive(Copy, Clone, Debug, PartialEq, Eq, Structural)]
pub struct Projectile {
    pub kind: ProjectileKind,
    /// The weapon that fired the projectile, or the handle that names
    /// nothing once that weapon is gone.
    pub owner: Handle,
    pub position: Vec3,
    /// What the projectile covers in a second.
    pub velocity: Vec3,
    /// How long the projectile still flies, in milliseconds.
    pub lifetime: u32,
}

impl Projectile {
    /// A new projectile: it flies along `direction` at the speed of its
    /// kind, on top of the velocity `initial_velocity` of what fired it.
    pub open spec fn spec_new(
        kind: ProjectileKind,
        direction: Vec3,
        position: Vec3,
        owner: Handle,
        initial_velocity: Vec3,
    ) -> Projectile {
        Projectile {
            kind,
            owner,
            position,
            velocity: direction.spec_normalized().spec_scaled(
                kind.spec_definition().speed as nat,
                1000,
            ).spec_offset(initial_velocity),
            lifetime: kind.spec_definition().lifetime,
        }
    }

    /// A new projectile.
    pub fn new(
        kind: ProjectileKind,
        direction: Vec3,
        position: Vec3,
        owner: Handle,
        initial_velocity: Vec3,
    ) -> (projectile: Projectile)
        ensures
            projectile == Projectile::spec_new(kind, direction, position, owner, initial_velocity),
    {
        let definition = kind.definition();
        Projectile {
            kind,
            owner,
            position,
            velocity: direction.normalized().scaled(definition.speed, 1000).offset(
                &initial_velocity,
            ),
            lifetime: definition.lifetime,
        }
    }

    /// The harm a hit of this projectile does.
    pub fn damage(&self) -> (damage: u32)
        ensures
            damage == self.kind.spec_definition().damage,
    {
        self.kind.definition().damage
    }
}

impl Timed for Projectile {
    /// In a frame a projectile covers its velocity's share of a second, and
    /// its time runs down.
    open spec fn aged(&self, dt: u32) -> Projectile {
        Projectile {
            position: self.position.spec_offset(self.velocity.spec_scaled(dt as nat, 1000)),
            lifetime: saturating_rest(self.lifetime, dt),
            ..*self
        }
    }

    /// A projectile is spent when its time is up.
    open spec fn spent(&self) -> bool {
        self.lifetime == 0
    }

    fn age(&self, dt: u32) -> (after: Projectile) {
        let mut after = *self;
        after.position = self.position.offset(&self.velocity.scaled(dt, 1000));
        after.lifetime = if dt >= self.lifetime {
            0
        } else {
            self.lifetime - dt
        };
        after
    }

    fn is_spent(&self) -> (spent: bool) {
        self.lifetime == 0
    }
}

/// The projectiles of a level.
pub struct ProjectileContainer {
    pub pool: Pool<Projectile>,
}

impl ProjectileContainer {
    /// No projectiles.
    pub fn new() -> (projectiles: ProjectileContainer)
        ensures
            projectiles.pool.wf(),
            projectiles.pool.records@.len() == 0,
            projectiles.pool.free@.len() == 0,
    {
        ProjectileContainer { pool: Pool::new() }
    }

    /// Takes a projectile in and gives its handle.
    pub fn add(&mut self, projectile: Projectile) -> (handle: Handle)
        requires
            old(self).pool.wf(),
        ensures
            final(self).pool.wf(),
            handle == old(self).pool.next_handle(),
            old(self).pool.spawned(projectile, &final(self).pool),
            handle.spec_is_none() ==> final(self).pool == old(self).pool,
            !handle.spec_is_none() ==> final(self).pool.contains(handle) && final(self).pool.value(
                handle,
            ) == projectile && !old(self).pool.issued(handle),
            forall|h: Handle|
                h != handle ==> final(self).pool.contains(h) == old(self).pool.contains(h),
            forall|h: Handle|
                old(self).pool.contains(h) ==> final(self).pool.value(h) == old(self).pool.value(h),
    {
        self.pool.spawn(projectile)
    }

    /// Takes every projectile through a frame of `dt` milliseconds; those
    /// whose time is up leave.
    pub fn update(&mut self, dt: u32)
        requires
            old(self).pool.wf(),
        ensures
            final(self).pool.wf(),
            pool_aged(old(self).pool, dt, final(self).pool),
    {
        self.pool.age(dt);
    }
}

} // verus!
