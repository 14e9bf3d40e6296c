//! Messages: what is asked of a level, queued until the level gets to it.

use crate::actor::BotKind;
use crate::geometry::Vec3;
use crate::item::ItemKind;
use crate::pool::Handle;
use crate::projectile::ProjectileKind;
use crate::weapon::WeaponKind;
use vstd::prelude::*;

verus! {

/// The kinds of visual effect.
#[derive(Copy, Clone, Debug, PartialEq, Eq, Structural)]
pub enum EffectKind {
    BulletImpact,
    ItemAppear,
    Smoke,
    Steam,
}

/// Where the sound of an item that is picked up is kept.
pub const ITEM_PICKUP_SOUND: &'static str = "data/sounds/item_pickup.ogg";

/// What can be asked of a level.
#[allow(inconsistent_fields)]
#[derive(Debug, PartialEq, Eq)]
pub enum Message {
    GiveNewWeapon { actor: Handle, kind: WeaponKind },
    AddBot { kind: BotKind, position: Vec3 },
    RemoveActor { actor: Handle },
    GiveItem { actor: Handle, kind: ItemKind },
    PickUpItem { actor: Handle, item: Handle },
    ShootWeapon { weapon: Handle, initial_velocity: Vec3, direction: Option<Vec3> },
    CreateProjectile {
        kind: ProjectileKind,
        position: Vec3,
        direction: Vec3,
        initial_velocity: Vec3,
        owner: Handle,
    },
    ShowWeapon { weapon: Handle, state: bool },
    SpawnBot { kind: BotKind },
    /// Harm done to `actor` by `who`; by nobody if `who` names nothing.
    DamageActor { actor: Handle, who: Handle, amount: u32 },
    CreateEffect { kind: EffectKind, position: Vec3 },
    SpawnPlayer,
    SpawnItem { kind: ItemKind, position: Vec3, adjust_height: bool, lifetime: Option<u32> },
    /// The sound kept at `path`, to be played at a place; gain and rolloff
    /// in thousandths, radius in millimetres.
    PlaySound { path: String, position: Vec3, gain: u32, rolloff_factor: u32, radius: u32 },
    EndMatch,
}

/// The queue of messages. What is sent first is taken first.
pub struct MessageBus {
    pub queue: Vec<Message>,
}

impl View for MessageBus {
    type V = Seq<Message>;

    open spec fn view(&self) -> Seq<Message> {
        self.queue@
    }
}

impl MessageBus {
    /// An empty queue.
    pub fn new() -> (bus: MessageBus)
        ensures
            bus@ == Seq::<Message>::empty(),
    {
        MessageBus { queue: Vec::new() }
    }

    /// Puts a message at the end of the queue.
    pub fn send(&mut self, message: Message)
        ensures
            final(self)@ == old(self)@.push(message),
    {
        self.queue.push(message);
    }

    /// The number of messages that wait.
    pub fn len(&self) -> (count: usize)
        ensures
            count == self@.len(),
    {
        self.queue.len()
    }

    /// Tells whether no message waits.
    pub fn is_empty(&self) -> (empty: bool)
        ensures
            empty == (self@.len() == 0),
    {
        self.queue.len() == 0
    }

    /// Takes all messages that wait, in the order in which they were sent,
    /// and leaves the queue empty.
    pub fn take_all(&mut self) -> (batch: Vec<Message>)
        ensures
            batch@ == old(self)@,
            final(self)@ == Seq::<Message>::empty(),
    {
        let mut batch: Vec<Message> = Vec::new();
        core::mem::swap(&mut batch, &mut self.queue);
        batch
    }
}

} // verus!
