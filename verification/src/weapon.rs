//! Weapons: what they fire, how fast, and with how much ammunition.

use crate::geometry::Vec3;
use crate::pool::{pool_aged, Handle, Pool, Timed};
use crate::projectile::ProjectileKind;
use crate::text::{refusal, refusal_text};
use vstd::prelude::*;

verus! {

/// The kinds of weapon.
#[derive(Copy, Clone, Debug, PartialEq, Eq, Structural)]
pub enum WeaponKind {
    M4,
    Ak47,
    PlasmaRifle,
}

/// What is fixed for a kind of weapon.
#[derive(Copy, Clone, Debug, PartialEq, Eq, Structural)]
pub struct WeaponDefinition {
    /// What the weapon fires.
    pub projectile: ProjectileKind,
    /// The time between two shots, in milliseconds.
    pub shoot_interval: u32,
    /// The ammunition a new weapon comes with.
    pub ammo: u32,
}

impl WeaponKind {
    /// What is fixed for this kind of weapon.
    pub open spec fn spec_definition(self) -> WeaponDefinition {
        match self {
            WeaponKind::M4 => WeaponDefinition {
                projectile: ProjectileKind::Bullet,
                shoot_interval: 100,
                ammo: 200,
            },
            WeaponKind::Ak47 => WeaponDefinition {
                projectile: ProjectileKind::Bullet,
                shoot_interval: 150,
                ammo: 200,
            },
            WeaponKind::PlasmaRifle => WeaponDefinition {
                projectile: ProjectileKind::Plasma,
                shoot_interval: 250,
                ammo: 100,
            },
        }
    }

    /// What is fixed for this kind of weapon.
    pub fn definition(self) -> (definition: WeaponDefinition)
        ensures
            definition == self.spec_definition(),
    {
        match self {
            WeaponKind::M4 => WeaponDefinition {
                projectile: ProjectileKind::Bullet,
                shoot_interval: 100,
                ammo: 200,
            },
            WeaponKind::Ak47 => WeaponDefinition {
                projectile: ProjectileKind::Bullet,
                shoot_interval: 150,
                ammo: 200,
            },
            WeaponKind::PlasmaRifle => WeaponDefinition {
                projectile: ProjectileKind::Plasma,
                shoot_interval: 250,
                ammo: 100,
            },
        }
    }
}

impl WeaponKind {
    /// The number under which a kind is kept.
    pub open spec fn spec_id(self) -> u32 {
        match self {
            WeaponKind::M4 => 0,
            WeaponKind::Ak47 => 1,
            WeaponKind::PlasmaRifle => 2,
        }
    }

    /// The kind kept under `id`, if there is one.
    pub open spec fn spec_from_id(id: u32) -> Option<WeaponKind> {
        if id == 0 {
            Some(WeaponKind::M4)
        } else if id == 1 {
            Some(WeaponKind::Ak47)
        } else if id == 2 {
            Some(WeaponKind::PlasmaRifle)
        } else {
            None
        }
    }

    /// The number under which this kind is kept.
    pub fn id(self) -> (id: u32)
        ensures
            id == self.spec_id(),
    {
        match self {
            WeaponKind::M4 => 0,
            WeaponKind::Ak47 => 1,
            WeaponKind::PlasmaRifle => 2,
        }
    }

    /// Reads a kind back from its number. A number that stands for no kind
    /// is refused with a message that names the number.
    pub fn from_id(id: u32) -> (r: Result<WeaponKind, String>)
        ensures
            match r {
                Ok(kind) => Self::spec_from_id(id) == Some(kind),
                Err(text) => Self::spec_from_id(id).is_none() && text@ == refusal_text(
                    "Invalid weapon kind id "@,
                    id,
                ),
            },
    {
        match id {
            0 => Ok(WeaponKind::M4),
            1 => Ok(WeaponKind::Ak47),
            2 => Ok(WeaponKind::PlasmaRifle),
            _ => Err(refusal("Invalid weapon kind id ", id)),
        }
    }

    /// Every kind is read back from its own number, and a number that
    /// stands for a kind is the number of that kind.
    pub proof fn lemma_id_round_trip(kind: WeaponKind, id: u32)
        ensures
            Self::spec_from_id(kind.spec_id()) == Some(kind),
            Self::spec_from_id(id) matches Some(read) ==> read.spec_id() == id,
            Self::spec_from_id(id).is_some() <==> id < 3,
    {
    }
}

/// A weapon.
#[derive(Copy, Clone, Debug, PartialEq, Eq, Structural)]
pub struct Weapon {
    pub kind: WeaponKind,
    /// The actor that carries the weapon, or the handle that names
    /// nothing.
    pub owner: Handle,
    pub ammo: u32,
    /// The time until the weapon can fire again, in milliseconds.
    pub cooldown: u32,
    pub visible: bool,
    pub definition: WeaponDefinition,
    /// Where a shot leaves the weapon.
    pub shot_position: Vec3,
    /// Where the weapon points.
    pub shot_direction: Vec3,
}

/// The sum of two amounts, held at the largest amount there is.
pub open spec fn saturating_sum(a: u32, b: u32) -> u32 {
    if a + b > u32::MAX {
        u32::MAX
    } else {
        (a + b) as u32
    }
}

/// What is left of `a` when `b` is taken from it; nothing if `b` is more.
pub open spec fn saturating_rest(a: u32, b: u32) -> u32 {
    if b >= a {
        0
    } else {
        (a - b) as u32
    }
}

impl Weapon {
    /// A new weapon of the given kind: without owner, fully loaded, ready
    /// to fire, visible.
    pub open spec fn spec_new(kind: WeaponKind) -> Weapon {
        Weapon {
            kind,
            owner: Handle::spec_none(),
            ammo: kind.spec_definition().ammo,
            cooldown: 0,
            visible: true,
            definition: kind.spec_definition(),
            shot_position: Vec3::spec_zero(),
            shot_direction: Vec3::spec_forward(),
        }
    }

    /// Whether the weapon can fire now.
    pub open spec fn can_shoot(self) -> bool {
        self.ammo > 0 && self.cooldown == 0
    }

    /// The weapon after it has fired.
    pub open spec fn fired(self) -> Weapon {
        Weapon { ammo: (self.ammo - 1) as u32, cooldown: self.definition.shoot_interval, ..self }
    }

    /// A new weapon of the given kind.
    pub fn new(kind: WeaponKind) -> (weapon: Weapon)
        ensures
            weapon == Weapon::spec_new(kind),
    {
        let definition = kind.definition();
        Weapon {
            kind,
            owner: Handle::none(),
            ammo: definition.ammo,
            cooldown: 0,
            visible: true,
            definition,
            shot_position: Vec3::zero(),
            shot_direction: Vec3::new(0, 0, crate::geometry::METRE),
        }
    }

    /// The kind of the weapon.
    pub fn get_kind(&self) -> (kind: WeaponKind)
        ensures
            kind == self.kind,
    {
        self.kind
    }

    /// The actor that carries the weapon.
    pub fn owner(&self) -> (owner: Handle)
        ensures
            owner == self.owner,
    {
        self.owner
    }

    /// Gives the weapon to an actor.
    pub fn set_owner(&mut self, owner: Handle)
        ensures
            *final(self) == (Weapon { owner, ..*old(self) }),
    {
        self.owner = owner;
    }

    /// Says where a shot leaves the weapon and where the weapon points.
    pub fn aim(&mut self, shot_position: Vec3, shot_direction: Vec3)
        ensures
            *final(self) == (Weapon { shot_position, shot_direction, ..*old(self) }),
    {
        self.shot_position = shot_position;
        self.shot_direction = shot_direction;
    }

    /// Shows or hides the weapon.
    pub fn set_visibility(&mut self, visible: bool)
        ensures
            *final(self) == (Weapon { visible, ..*old(self) }),
    {
        self.visible = visible;
    }

    /// Adds ammunition; the count stops at the largest there is.
    pub fn add_ammo(&mut self, amount: u32)
        ensures
            *final(self) == (Weapon { ammo: saturating_sum(old(self).ammo, amount), ..*old(self) }),
    {
        self.ammo = self.ammo.saturating_add(amount);
    }

    /// Fires if the weapon is loaded and ready, and tells whether it did.
    /// A shot takes one round and starts the wait for the next shot.
    pub fn try_shoot(&mut self) -> (shot: bool)
        ensures
            shot == old(self).can_shoot(),
            shot ==> *final(self) == old(self).fired(),
            !shot ==> *final(self) == *old(self),
    {
        if self.ammo > 0 && self.cooldown == 0 {
            self.ammo = self.ammo - 1;
            self.cooldown = self.definition.shoot_interval;
            true
        } else {
            false
        }
    }
}

impl Timed for Weapon {
    /// A frame brings the next shot nearer.
    open spec fn aged(&self, dt: u32) -> Weapon {
        Weapon { cooldown: saturating_rest(self.cooldown, dt), ..*self }
    }

    /// A weapon is never spent.
    open spec fn spent(&self) -> bool {
        false
    }

    fn age(&self, dt: u32) -> (after: Weapon) {
        let mut after = *self;
        after.cooldown = if dt >= self.cooldown {
            0
        } else {
            self.cooldown - dt
        };
        after
    }

    fn is_spent(&self) -> (spent: bool) {
        false
    }
}

/// The weapons of a level.
pub struct WeaponContainer {
    pub pool: Pool<Weapon>,
}

impl WeaponContainer {
    /// No weapons.
    pub fn new() -> (weapons: WeaponContainer)
        ensures
            weapons.pool.wf(),
            weapons.pool.records@.len() == 0,
            weapons.pool.free@.len() == 0,
    {
        WeaponContainer { pool: Pool::new() }
    }

    /// Takes a weapon in and gives its handle.
    pub fn add(&mut self, weapon: Weapon) -> (handle: Handle)
        requires
            old(self).pool.wf(),
        ensures
            final(self).pool.wf(),
            handle == old(self).pool.next_handle(),
            old(self).pool.spawned(weapon, &final(self).pool),
            handle.spec_is_none() ==> final(self).pool == old(self).pool,
            !handle.spec_is_none() ==> final(self).pool.contains(handle) && final(self).pool.value(
                handle,
            ) == weapon && !old(self).pool.issued(handle),
            forall|h: Handle|
                h != handle ==> final(self).pool.contains(h) == old(self).pool.contains(h),
            forall|h: Handle|
                old(self).pool.contains(h) ==> final(self).pool.value(h) == old(self).pool.value(h),
    {
        self.pool.spawn(weapon)
    }

    /// Tells whether `handle` names a weapon.
    pub fn contains(&self, handle: Handle) -> (yes: bool)
        ensures
            yes == self.pool.contains(handle),
    {
        self.pool.is_valid_handle(handle)
    }

    /// The weapon that `handle` names.
    pub fn get(&self, handle: Handle) -> (weapon: Option<Weapon>)
        ensures
            weapon == (if self.pool.contains(handle) {
                Some(self.pool.value(handle))
            } else {
                None
            }),
    {
        match self.pool.try_borrow(handle) {
            Some(weapon) => Some(*weapon),
            None => None,
        }
    }

    /// Takes every weapon through a frame of `dt` milliseconds.
    pub fn update(&mut self, dt: u32)
        requires
            old(self).pool.wf(),
        ensures
            final(self).pool.wf(),
            pool_aged(old(self).pool, dt, final(self).pool),
    {
        self.pool.age(dt);
    }
}

} // verus!
