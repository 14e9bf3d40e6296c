//! Items that lie in a level until somebody picks them up or their time
//! is up.

use crate::geometry::Vec3;
use crate::pool::{pool_aged, Handle, Pool, Timed};
use crate::text::{refusal, refusal_text};
use crate::weapon::{saturating_rest, WeaponKind};
use vstd::prelude::*;

verus! {

/// The kinds of item.
#[derive(Copy, Clone, Debug, PartialEq, Eq, Structural)]
pub enum ItemKind {
    Medkit,
    Plasma,
    Ak47Ammo,
    M4Ammo,
    Ak47,
    PlasmaGun,
    M4,
    RocketLauncher,
}

impl ItemKind {
    /// The weapon that an item of this kind is, if it is one that can be
    /// handed out.
    pub open spec fn spec_weapon(self) -> Option<WeaponKind> {
        match self {
            ItemKind::Ak47 => Some(WeaponKind::Ak47),
            ItemKind::PlasmaGun => Some(WeaponKind::PlasmaRifle),
            ItemKind::M4 => Some(WeaponKind::M4),
            _ => None,
        }
    }

    /// The weapon that an item of this kind is ammunition for, if it is
    /// ammunition.
    pub open spec fn spec_ammo_for(self) -> Option<WeaponKind> {
        match self {
            ItemKind::Plasma => Some(WeaponKind::PlasmaRifle),
            ItemKind::Ak47Ammo => Some(WeaponKind::Ak47),
            ItemKind::M4Ammo => Some(WeaponKind::M4),
            _ => None,
        }
    }

    /// The item that a weapon of kind `kind` becomes when it is dropped.
    pub open spec fn spec_of_weapon(kind: WeaponKind) -> ItemKind {
        match kind {
            WeaponKind::M4 => ItemKind::M4,
            WeaponKind::Ak47 => ItemKind::Ak47,
            WeaponKind::PlasmaRifle => ItemKind::PlasmaGun,
        }
    }

    /// The weapon that an item of this kind is, if it is one that can be
    /// handed out.
    pub fn weapon(self) -> (kind: Option<WeaponKind>)
        ensures
            kind == self.spec_weapon(),
    {
        match self {
            ItemKind::Ak47 => Some(WeaponKind::Ak47),
            ItemKind::PlasmaGun => Some(WeaponKind::PlasmaRifle),
            ItemKind::M4 => Some(WeaponKind::M4),
            _ => None,
        }
    }

    /// The weapon that an item of this kind is ammunition for.
    pub fn ammo_for(self) -> (kind: Option<WeaponKind>)
        ensures
            kind == self.spec_ammo_for(),
    {
        match self {
            ItemKind::Plasma => Some(WeaponKind::PlasmaRifle),
            ItemKind::Ak47Ammo => Some(WeaponKind::Ak47),
            ItemKind::M4Ammo => Some(WeaponKind::M4),
            _ => None,
        }
    }

    /// The item that a weapon of kind `kind` becomes when it is dropped.
    pub fn of_weapon(kind: WeaponKind) -> (item: ItemKind)
        ensures
            item == ItemKind::spec_of_weapon(kind),
    {
        match kind {
            WeaponKind::M4 => ItemKind::M4,
            WeaponKind::Ak47 => ItemKind::Ak47,
            WeaponKind::PlasmaRifle => ItemKind::PlasmaGun,
        }
    }
}

impl ItemKind {
    /// The number under which a kind is kept.
    pub open spec fn spec_id(self) -> u32 {
        match self {
            ItemKind::Medkit => 0,
            ItemKind::Plasma => 1,
            ItemKind::Ak47Ammo => 2,
            ItemKind::M4Ammo => 3,
            ItemKind::Ak47 => 4,
            ItemKind::PlasmaGun => 5,
            ItemKind::M4 => 6,
            ItemKind::RocketLauncher => 7,
        }
    }

    /// The kind kept under `id`, if there is one.
    pub open spec fn spec_from_id(id: u32) -> Option<ItemKind> {
        if id == 0 {
            Some(ItemKind::Medkit)
        } else if id == 1 {
            Some(ItemKind::Plasma)
        } else if id == 2 {
            Some(ItemKind::Ak47Ammo)
        } else if id == 3 {
            Some(ItemKind::M4Ammo)
        } else if id == 4 {
            Some(ItemKind::Ak47)
        } else if id == 5 {
            Some(ItemKind::PlasmaGun)
        } else if id == 6 {
            Some(ItemKind::M4)
        } else if id == 7 {
            Some(ItemKind::RocketLauncher)
        } else {
            None
        }
    }

    /// The number under which this kind is kept.
    pub fn id(self) -> (id: u32)
        ensures
            id == self.spec_id(),
    {
        match self {
            ItemKind::Medkit => 0,
            ItemKind::Plasma => 1,
            ItemKind::Ak47Ammo => 2,
            ItemKind::M4Ammo => 3,
            ItemKind::Ak47 => 4,
            ItemKind::PlasmaGun => 5,
            ItemKind::M4 => 6,
            ItemKind::RocketLauncher => 7,
        }
    }

    /// Reads a kind back from its number. A number that stands for no kind
    /// is refused with a message that names the number.
    pub fn from_id(id: u32) -> (r: Result<ItemKind, String>)
        ensures
            match r {
                Ok(kind) => Self::spec_from_id(id) == Some(kind),
                Err(text) => Self::spec_from_id(id).is_none() && text@ == refusal_text(
                    "Invalid item kind id "@,
                    id,
                ),
            },
    {
        match id {
            0 => Ok(ItemKind::Medkit),
            1 => Ok(ItemKind::Plasma),
            2 => Ok(ItemKind::Ak47Ammo),
            3 => Ok(ItemKind::M4Ammo),
            4 => Ok(ItemKind::Ak47),
            5 => Ok(ItemKind::PlasmaGun),
            6 => Ok(ItemKind::M4),
            7 => Ok(ItemKind::RocketLauncher),
            _ => Err(refusal("Invalid item kind id ", id)),
        }
    }

    /// Every kind is read back from its own number, and a number that
    /// stands for a kind is the number of that kind.
    pub proof fn lemma_id_round_trip(kind: ItemKind, id: u32)
        ensures
            Self::spec_from_id(kind.spec_id()) == Some(kind),
            Self::spec_from_id(id) matches Some(read) ==> read.spec_id() == id,
            Self::spec_from_id(id).is_some() <==> id < 8,
    {
    }
}

/// An item.
#[derive(Copy, Clone, Debug, PartialEq, Eq, Structural)]
pub struct Item {
    pub kind: ItemKind,
    pub position: Vec3,
    /// How long the item still lies there, in milliseconds; an item without
    /// a lifetime lies there until it is picked up.
    pub lifetime: Option<u32>,
    /// Whether the item still waits to be put on the ground below it.
    pub unsettled: bool,
}

impl Item {
    /// A new item that stays until it is picked up.
    pub fn new(kind: ItemKind, position: Vec3) -> (item: Item)
        ensures
            item == (Item { kind, position, lifetime: None, unsettled: false }),
    {
        Item { kind, position, lifetime: None, unsettled: false }
    }

    /// The kind of the item.
    pub fn get_kind(&self) -> (kind: ItemKind)
        ensures
            kind == self.kind,
    {
        self.kind
    }

    /// Where the item lies.
    pub fn position(&self) -> (position: Vec3)
        ensures
            position == self.position,
    {
        self.position
    }

    /// Sets how long the item still lies there.
    pub fn set_lifetime(&mut self, lifetime: Option<u32>)
        ensures
            *final(self) == (Item { lifetime, ..*old(self) }),
    {
        self.lifetime = lifetime;
    }
}

impl Timed for Item {
    /// A frame shortens the lifetime of an item that has one.
    open spec fn aged(&self, dt: u32) -> Item {
        Item {
            lifetime: match self.lifetime {
                Some(rest) => Some(saturating_rest(rest, dt)),
                None => None,
            },
            ..*self
        }
    }

    /// An item is spent when its lifetime is over.
    open spec fn spent(&self) -> bool {
        self.lifetime == Some(0u32)
    }

    fn age(&self, dt: u32) -> (after: Item) {
        let mut after = *self;
        after.lifetime = match self.lifetime {
            Some(rest) => Some(
                if dt >= rest {
                    0
                } else {
                    rest - dt
                },
            ),
            None => None,
        };
        after
    }

    fn is_spent(&self) -> (spent: bool) {
        match self.lifetime {
            Some(rest) => rest == 0,
            None => false,
        }
    }
}

/// The items of a level.
pub struct ItemContainer {
    pub pool: Pool<Item>,
}

impl ItemContainer {
    /// No items.
    pub fn new() -> (items: ItemContainer)
        ensures
            items.pool.wf(),
            items.pool.records@.len() == 0,
            items.pool.free@.len() == 0,
    {
        ItemContainer { pool: Pool::new() }
    }

    /// Takes an item in and gives its handle.
    pub fn add(&mut self, item: Item) -> (handle: Handle)
        requires
            old(self).pool.wf(),
        ensures
            final(self).pool.wf(),
            handle == old(self).pool.next_handle(),
            old(self).pool.spawned(item, &final(self).pool),
            handle.spec_is_none() ==> final(self).pool == old(self).pool,
            !handle.spec_is_none() ==> final(self).pool.contains(handle) && final(self).pool.value(
                handle,
            ) == item && !old(self).pool.issued(handle),
            forall|h: Handle|
                h != handle ==> final(self).pool.contains(h) == old(self).pool.contains(h),
            forall|h: Handle|
                old(self).pool.contains(h) ==> final(self).pool.value(h) == old(self).pool.value(h),
    {
        self.pool.spawn(item)
    }

    /// Tells whether `handle` names an item.
    pub fn contains(&self, handle: Handle) -> (yes: bool)
        ensures
            yes == self.pool.contains(handle),
    {
        self.pool.is_valid_handle(handle)
    }

    /// Takes every item through a frame of `dt` milliseconds; those whose
    /// lifetime is over leave.
    pub fn update(&mut self, dt: u32)
        requires
            old(self).pool.wf(),
        ensures
            final(self).pool.wf(),
            pool_aged(old(self).pool, dt, final(self).pool),
    {
        self.pool.age(dt);
    }
}

} // verus!
