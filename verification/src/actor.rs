//! Actors: the player and the bots.

use crate::geometry::Vec3;
use crate::level::UpdateContext;
use crate::player::upper_body::{CombatWeaponKind, UpperBodyMachine, UpperBodyMachineInput};
use crate::pool::{Handle, Pool, Record};
use crate::pose::PoseTerm;
use crate::text::{refusal, refusal_text};
use crate::weapon::saturating_rest;
use vstd::prelude::*;

verus! {

/// The health of an actor that has not been harmed.
pub const MAX_HEALTH: u32 = 100;

/// The kinds of bot.
#[derive(Copy, Clone, Debug, PartialEq, Eq, Structural)]
pub enum BotKind {
    Mutant,
    Parasite,
    Maw,
}

/// Who an actor is.
#[derive(Copy, Clone, Debug, PartialEq, Eq, Structural)]
pub enum ActorKind {
    Player,
    Bot(BotKind),
}

impl ActorKind {
    /// The number under which a kind is kept.
    pub open spec fn spec_id(self) -> u32 {
        match self {
            ActorKind::Player => 0,
            ActorKind::Bot(BotKind::Mutant) => 1,
            ActorKind::Bot(BotKind::Parasite) => 2,
            ActorKind::Bot(BotKind::Maw) => 3,
        }
    }

    /// The kind kept under `id`, if there is one.
    pub open spec fn spec_from_id(id: u32) -> Option<ActorKind> {
        if id == 0 {
            Some(ActorKind::Player)
        } else if id == 1 {
            Some(ActorKind::Bot(BotKind::Mutant))
        } else if id == 2 {
            Some(ActorKind::Bot(BotKind::Parasite))
        } else if id == 3 {
            Some(ActorKind::Bot(BotKind::Maw))
        } else {
            None
        }
    }

    /// The number under which this kind is kept.
    pub fn id(self) -> (id: u32)
        ensures
            id == self.spec_id(),
    {
        match self {
            ActorKind::Player => 0,
            ActorKind::Bot(BotKind::Mutant) => 1,
            ActorKind::Bot(BotKind::Parasite) => 2,
            ActorKind::Bot(BotKind::Maw) => 3,
        }
    }

    /// Reads a kind back from its number. A number that stands for no kind
    /// is refused with a message that names the number.
    pub fn from_id(id: u32) -> (r: Result<ActorKind, String>)
        ensures
            match r {
                Ok(kind) => Self::spec_from_id(id) == Some(kind),
                Err(text) => Self::spec_from_id(id).is_none() && text@ == refusal_text(
                    "Invalid actor kind id "@,
                    id,
                ),
            },
    {
        match id {
            0 => Ok(ActorKind::Player),
            1 => Ok(ActorKind::Bot(BotKind::Mutant)),
            2 => Ok(ActorKind::Bot(BotKind::Parasite)),
            3 => Ok(ActorKind::Bot(BotKind::Maw)),
            _ => Err(refusal("Invalid actor kind id ", id)),
        }
    }

    /// Every kind is read back from its own number, and a number that
    /// stands for a kind is the number of that kind.
    pub proof fn lemma_id_round_trip(kind: ActorKind, id: u32)
        ensures
            Self::spec_from_id(kind.spec_id()) == Some(kind),
            Self::spec_from_id(id) matches Some(read) ==> read.spec_id() == id,
            Self::spec_from_id(id).is_some() <==> id < 4,
    {
    }
}

/// An actor.
pub struct Actor {
    pub kind: ActorKind,
    pub position: Vec3,
    pub health: u32,
    /// The weapons the actor carries, in the order in which it got them.
    pub weapons: Vec<Handle>,
    /// Whether the actor was harmed since it was last updated.
    pub hit: bool,
    /// What the actor means to do, as its controls or its mind say.
    pub intent: UpperBodyMachineInput,
    /// For a bot: where the harm last came from, and when.
    pub point_of_interest: Option<(Vec3, u64)>,
    /// The machine that animates the actor, if the actor has a skeleton.
    pub animator: Option<UpperBodyMachine>,
}

/// What an actor that does nothing means to do: it stands on the ground
/// with a rifle.
pub open spec fn idle_intent() -> UpperBodyMachineInput {
    UpperBodyMachineInput {
        is_walking: false,
        is_jumping: false,
        run_factor: 0,
        has_ground_contact: true,
        is_aiming: false,
        toss_grenade: false,
        weapon_kind: CombatWeaponKind::Rifle,
        change_weapon: false,
        is_dead: false,
        should_be_stunned: false,
    }
}

/// The health after healing: no more than full health.
pub open spec fn healed(health: u32, amount: u32) -> u32 {
    if health + amount >= MAX_HEALTH {
        if health > MAX_HEALTH {
            health
        } else {
            MAX_HEALTH
        }
    } else {
        (health + amount) as u32
    }
}

/// A pose that may be there, as a plain sequence.
pub open spec fn pose_view(pose: Option<Vec<PoseTerm>>) -> Option<Seq<PoseTerm>> {
    match pose {
        Some(p) => Some(p@),
        None => None,
    }
}

impl Actor {
    /// Whether the actor is sound: its machine is whole.
    pub open spec fn wf(&self) -> bool {
        self.animator matches Some(m) ==> m.wf()
    }

    /// Whether the actor is dead: it has no health left.
    pub open spec fn spec_is_dead(&self) -> bool {
        self.health == 0
    }

    /// What the actor's machine is told in the next frame: what the actor
    /// means to do, whether it is dead, and whether it was harmed.
    pub open spec fn spec_animation_input(&self) -> UpperBodyMachineInput {
        UpperBodyMachineInput {
            is_dead: self.spec_is_dead(),
            should_be_stunned: self.hit,
            ..self.intent
        }
    }

    /// Whether `after` is this actor with nothing changed but its machine
    /// and whether it was harmed.
    pub open spec fn same_but_animation(&self, after: &Actor) -> bool {
        &&& after.kind == self.kind
        &&& after.position == self.position
        &&& after.health == self.health
        &&& after.weapons == self.weapons
        &&& after.intent == self.intent
        &&& after.point_of_interest == self.point_of_interest
    }

    /// Whether `after` is this actor with nothing changed but the weapons
    /// it carries.
    pub open spec fn same_but_weapons(&self, after: &Actor) -> bool {
        &&& after.kind == self.kind
        &&& after.position == self.position
        &&& after.health == self.health
        &&& after.hit == self.hit
        &&& after.intent == self.intent
        &&& after.point_of_interest == self.point_of_interest
        &&& after.animator == self.animator
    }

    /// Whether `after` is this actor with nothing changed but its health,
    /// whether it was harmed, and what it knows of where harm came from.
    pub open spec fn same_but_vitals(&self, after: &Actor) -> bool {
        &&& after.kind == self.kind
        &&& after.position == self.position
        &&& after.weapons == self.weapons
        &&& after.intent == self.intent
        &&& after.animator == self.animator
    }

    /// Whether `after` is this actor with nothing changed but where it is
    /// and what it means to do.
    pub open spec fn same_but_controls(&self, after: &Actor) -> bool {
        &&& after.kind == self.kind
        &&& after.health == self.health
        &&& after.hit == self.hit
        &&& after.weapons == self.weapons
        &&& after.point_of_interest == self.point_of_interest
        &&& after.animator == self.animator
    }

    /// Whether `after` and `pose` are this actor and its pose after a frame
    /// of `dt` milliseconds: its machine, if it has one, has gone through
    /// the frame, and the harm it had taken is answered.
    pub open spec fn updated(&self, dt: u32, after: &Actor, pose: Option<Seq<PoseTerm>>) -> bool {
        &&& self.same_but_animation(after)
        &&& !after.hit
        &&& match self.animator {
            None => after.animator.is_none() && pose.is_none(),
            Some(machine) => after.animator.is_some() && pose.is_some() && machine.applied(
                dt,
                self.spec_animation_input(),
                after.animator.unwrap(),
                pose.unwrap(),
            ),
        }
    }

    /// Tells whether the actor is sound.
    pub fn check(&self) -> (sound: bool)
        ensures
            sound == self.wf(),
    {
        match &self.animator {
            Some(machine) => machine.check(),
            None => true,
        }
    }

    /// A new actor in full health, without weapons, that means to do
    /// nothing.
    pub fn new(kind: ActorKind, position: Vec3, animator: Option<UpperBodyMachine>) -> (actor: Actor)
        requires
            animator matches Some(m) ==> m.wf(),
        ensures
            actor.wf(),
            actor.kind == kind,
            actor.position == position,
            actor.health == MAX_HEALTH,
            actor.weapons@.len() == 0,
            !actor.hit,
            actor.intent == idle_intent(),
            actor.point_of_interest.is_none(),
            actor.animator == animator,
    {
        Actor {
            kind,
            position,
            health: MAX_HEALTH,
            weapons: Vec::new(),
            hit: false,
            intent: UpperBodyMachineInput {
                is_walking: false,
                is_jumping: false,
                run_factor: 0,
                has_ground_contact: true,
                is_aiming: false,
                toss_grenade: false,
                weapon_kind: CombatWeaponKind::Rifle,
                change_weapon: false,
                is_dead: false,
                should_be_stunned: false,
            },
            point_of_interest: None,
            animator,
        }
    }

    /// Where the actor is.
    pub fn position(&self) -> (position: Vec3)
        ensures
            position == self.position,
    {
        self.position
    }

    /// Puts the actor somewhere.
    pub fn set_position(&mut self, position: Vec3)
        ensures
            final(self).position == position,
            final(self).kind == old(self).kind,
            final(self).health == old(self).health,
            final(self).weapons == old(self).weapons,
            final(self).hit == old(self).hit,
            final(self).intent == old(self).intent,
            final(self).point_of_interest == old(self).point_of_interest,
            final(self).animator == old(self).animator,
    {
        self.position = position;
    }

    /// Tells whether the actor is dead.
    pub fn is_dead(&self) -> (dead: bool)
        ensures
            dead == self.spec_is_dead(),
    {
        self.health == 0
    }

    /// Tells whether the actor is the player.
    pub fn is_player(&self) -> (player: bool)
        ensures
            player == (self.kind == ActorKind::Player),
    {
        match self.kind {
            ActorKind::Player => true,
            ActorKind::Bot(_) => false,
        }
    }

    /// Harms the actor: its health falls by `amount`, to nothing at most,
    /// and it is marked as harmed.
    pub fn damage(&mut self, amount: u32)
        ensures
            final(self).health == saturating_rest(old(self).health, amount),
            final(self).hit,
            final(self).kind == old(self).kind,
            final(self).position == old(self).position,
            final(self).weapons == old(self).weapons,
            final(self).intent == old(self).intent,
            final(self).point_of_interest == old(self).point_of_interest,
            final(self).animator == old(self).animator,
    {
        self.health = if amount >= self.health {
            0
        } else {
            self.health - amount
        };
        self.hit = true;
    }

    /// Heals the actor: its health rises by `amount`, to full health at
    /// most.
    pub fn heal(&mut self, amount: u32)
        ensures
            final(self).health == healed(old(self).health, amount),
            final(self).hit == old(self).hit,
            final(self).kind == old(self).kind,
            final(self).position == old(self).position,
            final(self).weapons == old(self).weapons,
            final(self).intent == old(self).intent,
            final(self).point_of_interest == old(self).point_of_interest,
            final(self).animator == old(self).animator,
    {
        if self.health as u64 + amount as u64 >= MAX_HEALTH as u64 {
            if self.health <= MAX_HEALTH {
                self.health = MAX_HEALTH;
            }
        } else {
            self.health = self.health + amount;
        }
    }

    /// Gives the actor one more weapon to carry.
    pub fn add_weapon(&mut self, weapon: Handle)
        ensures
            final(self).weapons@ == old(self).weapons@.push(weapon),
            final(self).health == old(self).health,
            final(self).hit == old(self).hit,
            final(self).kind == old(self).kind,
            final(self).position == old(self).position,
            final(self).intent == old(self).intent,
            final(self).point_of_interest == old(self).point_of_interest,
            final(self).animator == old(self).animator,
    {
        self.weapons.push(weapon);
    }

    /// Says what the actor means to do.
    pub fn set_intent(&mut self, intent: UpperBodyMachineInput)
        ensures
            final(self).intent == intent,
            final(self).health == old(self).health,
            final(self).hit == old(self).hit,
            final(self).kind == old(self).kind,
            final(self).position == old(self).position,
            final(self).weapons == old(self).weapons,
            final(self).point_of_interest == old(self).point_of_interest,
            final(self).animator == old(self).animator,
    {
        self.intent = intent;
    }

    /// Tells a bot where harm came from, and when. The player is told
    /// nothing.
    pub fn set_point_of_interest(&mut self, position: Vec3, time: u64)
        ensures
            final(self).point_of_interest == (if old(self).kind is Bot {
                Some((position, time))
            } else {
                old(self).point_of_interest
            }),
            final(self).health == old(self).health,
            final(self).hit == old(self).hit,
            final(self).kind == old(self).kind,
            final(self).position == old(self).position,
            final(self).weapons == old(self).weapons,
            final(self).intent == old(self).intent,
            final(self).animator == old(self).animator,
    {
        match self.kind {
            ActorKind::Bot(_) => {
                self.point_of_interest = Some((position, time));
            },
            ActorKind::Player => {},
        }
    }

    /// What the actor's machine is told in the next frame.
    pub fn animation_input(&self) -> (input: UpperBodyMachineInput)
        ensures
            input == self.spec_animation_input(),
    {
        UpperBodyMachineInput {
            is_walking: self.intent.is_walking,
            is_jumping: self.intent.is_jumping,
            run_factor: self.intent.run_factor,
            has_ground_contact: self.intent.has_ground_contact,
            is_aiming: self.intent.is_aiming,
            toss_grenade: self.intent.toss_grenade,
            weapon_kind: self.intent.weapon_kind,
            change_weapon: self.intent.change_weapon,
            is_dead: self.health == 0,
            should_be_stunned: self.hit,
        }
    }

    /// Takes the actor through a frame of `dt` milliseconds and gives the
    /// pose of its upper body, if it has a skeleton.
    pub fn update(&mut self, dt: u32) -> (pose: Option<Vec<PoseTerm>>)
        requires
            old(self).wf(),
        ensures
            final(self).wf(),
            old(self).updated(dt, final(self), pose_view(pose)),
    {
        let input = self.animation_input();
        self.hit = false;
        if self.animator.is_some() {
            match &mut self.animator {
                Some(machine) => Some(machine.apply(dt, input)),
                None => None,
            }
        } else {
            None
        }
    }
}

/// Whether a slot holds an actor that stands nearer to `point` than
/// `distance`.
pub open spec fn actor_within(slot: Option<Actor>, point: Vec3, distance: u32) -> bool {
    slot matches Some(actor) && actor.position.spec_distance_squared(point) < distance * distance
}

/// The actors of a level.
pub struct ActorContainer {
    pub pool: Pool<Actor>,
}

impl ActorContainer {
    /// Whether the actors are sound: their pool is, and each of them is.
    pub open spec fn wf(&self) -> bool {
        &&& self.pool.wf()
        &&& forall|i: int|
            0 <= i < self.pool.records@.len() ==> ((
            #[trigger] self.pool.records@[i]).payload matches Some(actor) ==> actor.wf())
    }

    /// Whether `after` and `poses` are these actors and their poses after
    /// a frame of `dt` milliseconds: each actor has gone through the frame
    /// on its own, and `poses` holds, slot by slot, the pose of each.
    pub open spec fn updated(
        &self,
        dt: u32,
        after: &ActorContainer,
        poses: Seq<Option<Vec<PoseTerm>>>,
    ) -> bool {
        &&& after.pool.free == self.pool.free
        &&& after.pool.records@.len() == self.pool.records@.len()
        &&& poses.len() == self.pool.records@.len()
        &&& forall|i: int|
            0 <= i < self.pool.records@.len() ==> {
                &&& (#[trigger] after.pool.records@[i]).generation
                    == self.pool.records@[i].generation
                &&& match self.pool.records@[i].payload {
                    None => after.pool.records@[i].payload.is_none() && poses[i].is_none(),
                    Some(actor) => after.pool.records@[i].payload.is_some() && actor.updated(
                        dt,
                        &after.pool.records@[i].payload.unwrap(),
                        pose_view(poses[i]),
                    ),
                }
            }
    }

    /// Whether some actor stands nearer to `point` than `distance`.
    pub open spec fn spec_any_within(&self, point: Vec3, distance: u32) -> bool {
        exists|i: int|
            0 <= i < self.pool.records@.len() && actor_within(
                (#[trigger] self.pool.records@[i]).payload,
                point,
                distance,
            )
    }

    /// Tells whether some actor stands nearer to `point` than `distance`.
    pub fn any_within(&self, point: &Vec3, distance: u32) -> (near: bool)
        ensures
            near == self.spec_any_within(*point, distance),
    {
        assert(distance * distance <= 0xffff_ffff * 0xffff_ffff) by (nonlinear_arith)
            requires
                0 <= distance <= 0xffff_ffff,
        ;
        let limit: u128 = (distance as u128) * (distance as u128);
        let mut i: usize = 0;
        while i < self.pool.records.len()
            invariant
                i <= self.pool.records@.len(),
                limit == distance * distance,
                forall|k: int|
                    0 <= k < i ==> !actor_within(
                        (#[trigger] self.pool.records@[k]).payload,
                        *point,
                        distance,
                    ),
            decreases self.pool.records@.len() - i,
        {
            match &self.pool.records[i].payload {
                Some(actor) => {
                    if actor.position.distance_squared(point) < limit {
                        assert(actor_within(self.pool.records@[i as int].payload, *point, distance));
                        return true;
                    }
                },
                None => {},
            }
            i += 1;
        }
        false
    }

    /// Actors of which one was changed in its place, and is sound, are
    /// sound; the same handles name actors, and every other actor is as it
    /// was.
    pub proof fn lemma_changed_in_place(&self, after: &ActorContainer, handle: Handle)
        requires
            self.wf(),
            self.pool.contains(handle),
            after.pool.free == self.pool.free,
            after.pool.records@ == self.pool.records@.update(
                handle.index as int,
                Record { generation: handle.generation, payload: Some(after.pool.value(handle)) },
            ),
            after.pool.value(handle).wf(),
        ensures
            after.wf(),
            self.pool.same_but_value(&after.pool, handle),
            forall|h: Handle| after.pool.contains(h) == self.pool.contains(h),
            forall|h: Handle|
                h != handle && self.pool.contains(h) ==> after.pool.value(h) == self.pool.value(h),
            forall|h: Handle| self.pool.stale(h) ==> after.pool.stale(h),
    {
        self.pool.lemma_changed_in_place(&after.pool, handle, after.pool.value(handle));
        assert forall|i: int| 0 <= i < after.pool.records@.len() implies ((
        #[trigger] after.pool.records@[i]).payload matches Some(actor) ==> actor.wf()) by {
            if i != handle.index {
                assert(after.pool.records@[i] == self.pool.records@[i]);
            }
        }
    }

    /// Tells whether the actors are sound.
    pub fn check(&self) -> (sound: bool)
        ensures
            sound == self.wf(),
    {
        if !self.pool.check() {
            return false;
        }
        let mut i: usize = 0;
        while i < self.pool.records.len()
            invariant
                i <= self.pool.records@.len(),
                forall|k: int|
                    0 <= k < i ==> ((#[trigger] self.pool.records@[k]).payload matches Some(actor)
                        ==> actor.wf()),
            decreases self.pool.records@.len() - i,
        {
            let sound = match &self.pool.records[i].payload {
                Some(actor) => actor.check(),
                None => true,
            };
            if !sound {
                return false;
            }
            i += 1;
        }
        true
    }

    /// No actors.
    pub fn new() -> (actors: ActorContainer)
        ensures
            actors.wf(),
            actors.pool.records@.len() == 0,
            actors.pool.free@.len() == 0,
    {
        ActorContainer { pool: Pool::new() }
    }

    /// Takes an actor in and gives its handle.
    pub fn add(&mut self, actor: Actor) -> (handle: Handle)
        requires
            old(self).wf(),
            actor.wf(),
        ensures
            final(self).wf(),
            handle == old(self).pool.next_handle(),
            old(self).pool.spawned(actor, &final(self).pool),
            handle.spec_is_none() ==> final(self).pool == old(self).pool,
            !handle.spec_is_none() ==> final(self).pool.contains(handle) && final(self).pool.value(
                handle,
            ) == actor && !old(self).pool.issued(handle),
            forall|h: Handle|
                h != handle ==> final(self).pool.contains(h) == old(self).pool.contains(h),
            forall|h: Handle|
                old(self).pool.contains(h) ==> final(self).pool.value(h) == old(self).pool.value(h),
            forall|h: Handle| old(self).pool.stale(h) ==> final(self).pool.stale(h),
    {
        let handle = self.pool.spawn(actor);
        proof {
            assert forall|i: int| 0 <= i < self.pool.records@.len() implies ((
            #[trigger] self.pool.records@[i]).payload matches Some(a) ==> a.wf()) by {
                if !handle.spec_is_none() && i != handle.index {
                    assert(self.pool.records@[i] == old(self).pool.records@[i]);
                }
            }
        }
        handle
    }

    /// Takes the actor that `handle` names out. A handle that names no
    /// actor takes nothing out.
    pub fn free(&mut self, handle: Handle) -> (actor: Option<Actor>)
        requires
            old(self).wf(),
        ensures
            final(self).wf(),
            old(self).pool.freed(handle, &final(self).pool),
            match actor {
                Some(gone) => old(self).pool.contains(handle) && gone == old(self).pool.value(
                    handle,
                ),
                None => !old(self).pool.contains(handle) && final(self).pool == old(self).pool,
            },
            forall|h: Handle| old(self).pool.stale(h) ==> final(self).pool.stale(h),
    {
        let actor = self.pool.free(handle);
        proof {
            assert forall|i: int| 0 <= i < self.pool.records@.len() implies ((
            #[trigger] self.pool.records@[i]).payload matches Some(a) ==> a.wf()) by {
                if i != handle.index {
                    assert(self.pool.records@[i] == old(self).pool.records@[i]);
                }
            }
        }
        actor
    }

    /// Tells whether `handle` names an actor.
    pub fn contains(&self, handle: Handle) -> (yes: bool)
        ensures
            yes == self.pool.contains(handle),
    {
        self.pool.is_valid_handle(handle)
    }

    /// The actor that `handle` names.
    pub fn get(&self, handle: Handle) -> (actor: Option<&Actor>)
        ensures
            match actor {
                Some(a) => self.pool.contains(handle) && *a == self.pool.value(handle),
                None => !self.pool.contains(handle),
            },
    {
        self.pool.try_borrow(handle)
    }

    /// The number of slots, with and without an actor.
    pub fn capacity(&self) -> (count: usize)
        ensures
            count == self.pool.records@.len(),
    {
        self.pool.capacity()
    }

    /// Takes every actor through the frame of `context` and gives, slot by
    /// slot, the pose of each.
    pub fn update(&mut self, context: &UpdateContext) -> (poses: Vec<Option<Vec<PoseTerm>>>)
        requires
            old(self).wf(),
        ensures
            final(self).wf(),
            old(self).updated(context.time.delta, final(self), poses@),
    {
        let dt = context.time.delta;
        let mut poses: Vec<Option<Vec<PoseTerm>>> = Vec::new();
        let count = self.pool.records.len();
        let mut i: usize = 0;
        while i < count
            invariant
                i <= count,
                count == old(self).pool.records@.len(),
                self.pool.records@.len() == count,
                self.pool.free == old(self).pool.free,
                self.wf(),
                poses@.len() == i,
                forall|k: int| i <= k < count ==> #[trigger] self.pool.records@[k] == old(
                    self,
                ).pool.records@[k],
                forall|k: int|
                    0 <= k < i ==> {
                        &&& (#[trigger] self.pool.records@[k]).generation == old(
                            self,
                        ).pool.records@[k].generation
                        &&& match old(self).pool.records@[k].payload {
                            None => self.pool.records@[k].payload.is_none() && poses@[k].is_none(),
                            Some(actor) => self.pool.records@[k].payload.is_some() && actor.updated(
                                dt,
                                &self.pool.records@[k].payload.unwrap(),
                                pose_view(poses@[k]),
                            ),
                        }
                    },
            decreases count - i,
        {
            let ghost before = *self;
            let pose = match self.pool.handle_at(i) {
                Some(handle) => {
                    assert(before.pool.records@[i as int].payload matches Some(actor)
                        ==> actor.wf());
                    let pose = match self.pool.try_borrow_mut(handle) {
                        Some(actor) => actor.update(dt),
                        None => None,
                    };
                    proof {
                        before.lemma_changed_in_place(self, handle);
                    }
                    pose
                },
                None => None,
            };
            poses.push(pose);
            i += 1;
        }
        poses
    }
}

} // verus!
