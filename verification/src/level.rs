//! The level: actors, weapons, projectiles, items and doors, and the frame
//! that takes them all one step on.
//!
//! Whoever wants something changed sends a message. The level takes the
//! messages that wait once in every frame, in the order in which they were
//! sent, and carries each out as one change. What is sent while the level
//! does so waits for the next frame. A message about somebody or something
//! that is no longer there is passed over.

use crate::actor::{healed, idle_intent, Actor, ActorContainer, ActorKind, BotKind, MAX_HEALTH};
use crate::door::{Color, DoorCommand, DoorContainer};
use crate::geometry::{Aabb, Vec3};
use crate::item::{Item, ItemContainer, ItemKind};
use crate::message::{EffectKind, Message, MessageBus, ITEM_PICKUP_SOUND};
use crate::player::upper_body::{AnimationLengths, UpperBodyMachine, UpperBodyMachineInput};
use crate::pool::{pool_aged, Handle, Pool, Record};
use crate::pose::PoseTerm;
use crate::projectile::{Projectile, ProjectileContainer, ProjectileKind};
use crate::text::{has_prefix, starts_with};
use crate::weapon::{saturating_rest, saturating_sum, Weapon, WeaponContainer, WeaponKind};
use vstd::prelude::*;

verus! {

/// How long a fighter that died waits to come back, in milliseconds.
pub const RESPAWN_TIME: u32 = 4000;

/// How far above a spawn point the player is put, in millimetres.
pub const PLAYER_HEIGHT: i32 = 1500;

/// The harm that a death zone does.
pub const DEATH_ZONE_DAMAGE: u32 = 99999;

/// How long a weapon that was dropped lies there, in milliseconds.
pub const DROPPED_ITEM_LIFETIME: u32 = 20_000;

/// The rounds that an item of ammunition or a second weapon of a kind
/// gives.
pub const AMMO_GIFT: u32 = 200;

/// The health that a medkit gives.
pub const MEDKIT_HEALTH: u32 = 20;

/// The clock of a frame.
#[derive(Copy, Clone, Debug, PartialEq, Eq, Structural)]
pub struct GameTime {
    /// The time since the level began, in milliseconds.
    pub elapsed: u64,
    /// The length of the frame, in milliseconds.
    pub delta: u32,
}

/// A place where fighters enter the level.
#[derive(Copy, Clone, Debug, PartialEq, Eq, Structural)]
pub struct SpawnPoint {
    pub position: Vec3,
}

impl Default for SpawnPoint {
    fn default() -> (point: SpawnPoint)
        ensures
            point.position == Vec3::spec_zero(),
    {
        SpawnPoint { position: Vec3::zero() }
    }
}

/// A box in which nobody survives.
#[derive(Copy, Clone, Debug, PartialEq, Eq, Structural)]
pub struct DeathZone {
    pub bounds: Aabb,
}

impl Default for DeathZone {
    fn default() -> (zone: DeathZone)
        ensures
            zone.bounds == (Aabb { min: Vec3::spec_zero(), max: Vec3::spec_zero() }),
    {
        DeathZone { bounds: Aabb { min: Vec3::zero(), max: Vec3::zero() } }
    }
}

/// What the physics of the level tells about a projectile and an actor.
#[derive(Copy, Clone, Debug, PartialEq, Eq, Structural)]
pub struct ProximityEvent {
    pub projectile: Handle,
    pub actor: Handle,
    /// Whether the two touch.
    pub intersecting: bool,
}

/// What a frame hands to the actors: its clock, and the items and weapons
/// to look at. It is made anew in every frame.
pub struct UpdateContext<'a> {
    pub time: GameTime,
    pub items: &'a ItemContainer,
    pub weapons: &'a WeaponContainer,
}

/// The level.
pub struct Level {
    /// The actor that is the player, or the handle that names nothing.
    pub player: Handle,
    pub projectiles: ProjectileContainer,
    pub actors: ActorContainer,
    pub weapons: WeaponContainer,
    pub items: ItemContainer,
    pub doors: DoorContainer,
    pub spawn_points: Vec<SpawnPoint>,
    pub death_zones: Vec<DeathZone>,
    /// The messages that wait.
    pub sender: MessageBus,
    /// The time since the level began, in milliseconds.
    pub time: u64,
    /// The lengths of the clips of a fighter's machine.
    pub lengths: AnimationLengths,
}

/// What is left of a projectile slot when the weapon `weapon` goes: a
/// projectile that the weapon fired belongs to nobody any more.
pub open spec fn disowned(slot: Option<Projectile>, weapon: Handle) -> Option<Projectile> {
    match slot {
        Some(projectile) => Some(
            if projectile.owner == weapon {
                Projectile { owner: Handle::spec_none(), ..projectile }
            } else {
                projectile
            },
        ),
        None => None,
    }
}

/// Whether `after` is the pool of projectiles `before` with every
/// projectile that the weapon `weapon` fired belonging to nobody.
pub open spec fn projectiles_disowned(
    before: &ProjectileContainer,
    weapon: Handle,
    after: &ProjectileContainer,
) -> bool {
    &&& after.pool.free == before.pool.free
    &&& after.pool.records@.len() == before.pool.records@.len()
    &&& forall|i: int|
        0 <= i < before.pool.records@.len() ==> (#[trigger] after.pool.records@[i]).generation
            == before.pool.records@[i].generation && after.pool.records@[i].payload == disowned(
            before.pool.records@[i].payload,
            weapon,
        )
}

/// Whether `after` is the actors `before` with the weapon `weapon` added
/// to what the actor `actor` carries.
pub open spec fn actor_got_weapon(
    before: &ActorContainer,
    actor: Handle,
    weapon: Handle,
    after: &ActorContainer,
) -> bool {
    &&& before.pool.same_but_value(&after.pool, actor)
    &&& before.pool.value(actor).same_but_weapons(&after.pool.value(actor))
    &&& after.pool.value(actor).weapons@ == before.pool.value(actor).weapons@.push(weapon)
}

/// The weapon that an actor is given: new, its own, shown or hidden.
pub open spec fn weapon_for(actor: Handle, kind: WeaponKind, visible: bool) -> Weapon {
    Weapon { owner: actor, visible, ..Weapon::spec_new(kind) }
}

/// Whether `actors_after` and `weapons_after` are the actors and weapons
/// after the actor `actor` was given a new weapon of kind `kind`. An actor
/// that is not there is given nothing, and so is everybody when there is no
/// room for one more weapon.
pub open spec fn weapon_given(
    actors: &ActorContainer,
    weapons: &WeaponContainer,
    actor: Handle,
    kind: WeaponKind,
    visible: bool,
    actors_after: &ActorContainer,
    weapons_after: &WeaponContainer,
) -> bool {
    if !actors.pool.contains(actor) {
        actors_after == actors && weapons_after == weapons
    } else {
        let handle = weapons.pool.next_handle();
        &&& weapons.pool.spawned(weapon_for(actor, kind, visible), &weapons_after.pool)
        &&& if handle.spec_is_none() {
            actors_after == actors
        } else {
            actor_got_weapon(actors, actor, handle, actors_after)
        }
    }
}

/// The place among the first `upto` weapons of `list` of the first that is
/// there and is of kind `kind`.
pub open spec fn first_of_kind(
    weapons: &Pool<Weapon>,
    list: Seq<Handle>,
    kind: WeaponKind,
    upto: int,
) -> Option<int>
    decreases upto,
{
    if upto <= 0 {
        None
    } else {
        match first_of_kind(weapons, list, kind, upto - 1) {
            Some(j) => Some(j),
            None => if weapons.contains(list[upto - 1]) && weapons.value(list[upto - 1]).kind
                == kind {
                Some(upto - 1)
            } else {
                None
            },
        }
    }
}

/// Whether `after` is the weapons `before` with rounds added to the weapon
/// `weapon`.
pub open spec fn ammo_added(
    before: &WeaponContainer,
    weapon: Handle,
    amount: u32,
    after: &WeaponContainer,
) -> bool {
    &&& before.pool.same_but_value(&after.pool, weapon)
    &&& after.pool.value(weapon) == (Weapon {
        ammo: saturating_sum(before.pool.value(weapon).ammo, amount),
        ..before.pool.value(weapon)
    })
}

/// Whether `actors_after` and `weapons_after` are the actors and weapons
/// after the actor `actor` was given an item of kind `kind`. A medkit
/// heals. A weapon adds rounds to the first weapon of its kind that the
/// actor carries, or is handed over as a new weapon if the actor carries
/// none. Ammunition adds rounds to the first weapon it is for, if the actor
/// carries one. Anything else, or an actor that is not there, changes
/// nothing.
pub open spec fn item_given(
    actors: &ActorContainer,
    weapons: &WeaponContainer,
    actor: Handle,
    kind: ItemKind,
    actors_after: &ActorContainer,
    weapons_after: &WeaponContainer,
) -> bool {
    if !actors.pool.contains(actor) {
        actors_after == actors && weapons_after == weapons
    } else {
        let carrier = actors.pool.value(actor);
        let list = carrier.weapons@;
        if kind == ItemKind::Medkit {
            let now = actors_after.pool.value(actor);
            &&& weapons_after == weapons
            &&& actors.pool.same_but_value(&actors_after.pool, actor)
            &&& carrier.same_but_vitals(&now)
            &&& now.health == healed(carrier.health, MEDKIT_HEALTH)
            &&& now.hit == carrier.hit
            &&& now.point_of_interest == carrier.point_of_interest
        } else if kind.spec_weapon().is_some() {
            match first_of_kind(&weapons.pool, list, kind.spec_weapon().unwrap(), list.len() as int) {
                Some(j) => actors_after == actors && ammo_added(
                    weapons,
                    list[j],
                    AMMO_GIFT,
                    weapons_after,
                ),
                None => weapon_given(
                    actors,
                    weapons,
                    actor,
                    kind.spec_weapon().unwrap(),
                    true,
                    actors_after,
                    weapons_after,
                ),
            }
        } else if kind.spec_ammo_for().is_some() {
            match first_of_kind(&weapons.pool, list, kind.spec_ammo_for().unwrap(), list.len() as int) {
                Some(j) => actors_after == actors && ammo_added(
                    weapons,
                    list[j],
                    AMMO_GIFT,
                    weapons_after,
                ),
                None => actors_after == actors && weapons_after == weapons,
            }
        } else {
            actors_after == actors && weapons_after == weapons
        }
    }
}

/// Whether `message` asks for the sound of an item that is picked up at
/// `position`.
pub open spec fn is_pickup_sound(message: Message, position: Vec3) -> bool {
    message matches Message::PlaySound { path, position: place, gain, rolloff_factor, radius }
        && path@ == ITEM_PICKUP_SOUND@ && place == position && gain == 1000 && rolloff_factor
        == 3000 && radius == 2000
}

/// Whether every link of a chain of levels holds: `step(k, a, b)` for each
/// level `a` at place `k` and the level `b` after it.
pub open spec fn linked(chain: Seq<Level>, step: spec_fn(int, Level, Level) -> bool) -> bool {
    forall|k: int| 0 <= k < chain.len() - 1 ==> step(k, #[trigger] chain[k], chain[k + 1])
}

/// The sum of the distances from `point` to the living actors in the
/// first `upto` slots.
pub open spec fn distance_sum(point: Vec3, records: Seq<Record<Actor>>, upto: int) -> nat
    decreases upto,
{
    if upto <= 0 {
        0
    } else {
        distance_sum(point, records, upto - 1) + (match records[upto - 1].payload {
            Some(actor) => if actor.spec_is_dead() {
                0
            } else {
                point.spec_distance(actor.position)
            },
            None => 0,
        })
    }
}

/// Whether spawn point `index` is the most suitable: no spawn point is
/// farther from the actors taken together, and none before it is as far.
pub open spec fn most_suitable(
    points: Seq<SpawnPoint>,
    records: Seq<Record<Actor>>,
    index: int,
) -> bool {
    &&& 0 <= index < points.len()
    &&& forall|j: int|
        0 <= j < points.len() ==> distance_sum(
            (#[trigger] points[j]).position,
            records,
            records.len() as int,
        ) <= distance_sum(points[index].position, records, records.len() as int)
    &&& forall|j: int|
        0 <= j < index ==> distance_sum(
            (#[trigger] points[j]).position,
            records,
            records.len() as int,
        ) < distance_sum(points[index].position, records, records.len() as int)
}

/// At most one spawn point is the most suitable.
pub proof fn lemma_most_suitable_is_unique(
    points: Seq<SpawnPoint>,
    records: Seq<Record<Actor>>,
    first: int,
    second: int,
)
    requires
        most_suitable(points, records, first),
        most_suitable(points, records, second),
    ensures
        first == second,
{
    if first < second {
        assert(distance_sum(points[first].position, records, records.len() as int) < distance_sum(
            points[second].position,
            records,
            records.len() as int,
        ));
        assert(distance_sum(points[second].position, records, records.len() as int)
            <= distance_sum(points[first].position, records, records.len() as int));
    } else if second < first {
        assert(distance_sum(points[second].position, records, records.len() as int)
            < distance_sum(points[first].position, records, records.len() as int));
        assert(distance_sum(points[first].position, records, records.len() as int)
            <= distance_sum(points[second].position, records, records.len() as int));
    }
}

/// The sum of the distances from a point to the actors of a pool is
/// bounded by the number of slots.
pub proof fn lemma_distance_sum_bound(point: Vec3, records: Seq<Record<Actor>>, upto: int)
    requires
        0 <= upto <= records.len(),
    ensures
        distance_sum(point, records, upto) <= upto * 0x2_0000_0000,
    decreases upto,
{
    if upto > 0 {
        lemma_distance_sum_bound(point, records, upto - 1);
        if let Some(actor) = records[upto - 1].payload {
            crate::geometry::lemma_distance_bound(point, actor.position);
        }
        assert((upto - 1) * 0x2_0000_0000 + 0x2_0000_0000 == upto * 0x2_0000_0000)
            by (nonlinear_arith);
    }
}

/// Computes the sum of the distances from `point` to all actors.
fn total_distance(point: &Vec3, actors: &ActorContainer) -> (sum: u128)
    requires
        actors.pool.wf(),
    ensures
        sum == distance_sum(*point, actors.pool.records@, actors.pool.records@.len() as int),
{
    let mut sum: u128 = 0;
    let mut i: usize = 0;
    while i < actors.pool.records.len()
        invariant
            i <= actors.pool.records@.len(),
            actors.pool.records@.len() <= u32::MAX,
            sum == distance_sum(*point, actors.pool.records@, i as int),
            sum <= i * 0x2_0000_0000,
        decreases actors.pool.records@.len() - i,
    {
        proof {
            lemma_distance_sum_bound(*point, actors.pool.records@, i + 1);
            assert(i * 0x2_0000_0000 <= 0xffff_ffff * 0x2_0000_0000) by (nonlinear_arith)
                requires
                    0 <= i <= 0xffff_ffff,
            ;
        }
        match &actors.pool.records[i].payload {
            Some(actor) => {
                if !actor.is_dead() {
                    sum = sum + point.distance(&actor.position) as u128;
                }
            },
            None => {},
        }
        i += 1;
    }
    sum
}

/// Chooses the spawn point that is farthest from all living actors taken
/// together; of several that are equally far, the first. Tells its number,
/// or nothing if there is no spawn point.
pub fn find_suitable_spawn_point(spawn_points: &Vec<SpawnPoint>, actors: &ActorContainer) -> (chosen:
    Option<usize>)
    requires
        actors.pool.wf(),
    ensures
        match chosen {
            Some(index) => most_suitable(spawn_points@, actors.pool.records@, index as int),
            None => spawn_points@.len() == 0,
        },
{
    if spawn_points.len() == 0 {
        return None;
    }
    let mut index: usize = 0;
    let mut max_distance: u128 = total_distance(&spawn_points[0].position, actors);
    let mut i: usize = 1;
    while i < spawn_points.len()
        invariant
            1 <= i <= spawn_points@.len(),
            index < i,
            actors.pool.wf(),
            max_distance == distance_sum(
                spawn_points@[index as int].position,
                actors.pool.records@,
                actors.pool.records@.len() as int,
            ),
            forall|j: int|
                0 <= j < i ==> distance_sum(
                    (#[trigger] spawn_points@[j]).position,
                    actors.pool.records@,
                    actors.pool.records@.len() as int,
                ) <= max_distance,
            forall|j: int|
                0 <= j < index ==> distance_sum(
                    (#[trigger] spawn_points@[j]).position,
                    actors.pool.records@,
                    actors.pool.records@.len() as int,
                ) < max_distance,
        decreases spawn_points@.len() - i,
    {
        let sum_distance = total_distance(&spawn_points[i].position, actors);
        if sum_distance > max_distance {
            max_distance = sum_distance;
            index = i;
        }
        i += 1;
    }
    Some(index)
}

/// Whether `actor` is an actor as it is when it has just entered the
/// level: in full health, without weapons, meaning to do nothing, with a
/// machine that has just been built.
pub open spec fn fresh_actor(
    actor: Actor,
    kind: ActorKind,
    position: Vec3,
    lengths: AnimationLengths,
) -> bool {
    &&& actor.kind == kind
    &&& actor.position == position
    &&& actor.health == MAX_HEALTH
    &&& actor.weapons@.len() == 0
    &&& !actor.hit
    &&& actor.intent == idle_intent()
    &&& actor.point_of_interest.is_none()
    &&& actor.animator.is_some()
    &&& actor.animator.unwrap().fresh(lengths)
}

/// Whether `after` is the actors `before` with one more actor, fresh. When
/// there is no room for one more, nothing changes.
pub open spec fn actor_added(
    before: &ActorContainer,
    kind: ActorKind,
    position: Vec3,
    lengths: AnimationLengths,
    after: &ActorContainer,
) -> bool {
    &&& before.pool.grown(&after.pool)
    &&& !before.pool.next_handle().spec_is_none() ==> fresh_actor(
        after.pool.value(before.pool.next_handle()),
        kind,
        position,
        lengths,
    )
}

/// A place, lifted to where a fighter stands on it.
pub open spec fn lifted(position: Vec3) -> Vec3 {
    position.spec_offset(Vec3 { x: 0, y: PLAYER_HEIGHT, z: 0 })
}

/// The most suitable spawn point, if there is a spawn point at all.
pub open spec fn spawn_place(points: Seq<SpawnPoint>, records: Seq<Record<Actor>>) -> Option<Vec3> {
    if points.len() == 0 {
        None
    } else {
        Some(points[choose|index: int| most_suitable(points, records, index)].position)
    }
}

/// Where the player enters: above the most suitable spawn point, or above
/// the origin if there is no spawn point.
pub open spec fn player_place(points: Seq<SpawnPoint>, records: Seq<Record<Actor>>) -> Vec3 {
    match spawn_place(points, records) {
        Some(position) => lifted(position),
        None => lifted(Vec3::spec_zero()),
    }
}

/// Where a bot enters: at the most suitable spawn point, or above the
/// origin if there is no spawn point.
pub open spec fn bot_place(points: Seq<SpawnPoint>, records: Seq<Record<Actor>>) -> Vec3 {
    match spawn_place(points, records) {
        Some(position) => position,
        None => lifted(Vec3::spec_zero()),
    }
}

/// The harm that a death zone does to the actor `actor`.
pub open spec fn death_message(actor: Handle) -> Message {
    Message::DamageActor { actor, who: Handle::spec_none(), amount: DEATH_ZONE_DAMAGE }
}

/// The messages that the first `upto` death zones send about an actor at
/// `position`: one from each zone that holds the position.
pub open spec fn zone_hits(actor: Handle, position: Vec3, zones: Seq<DeathZone>, upto: int) -> Seq<
    Message,
>
    decreases upto,
{
    if upto <= 0 {
        Seq::empty()
    } else if zones[upto - 1].bounds.spec_contains(position) {
        zone_hits(actor, position, zones, upto - 1).push(death_message(actor))
    } else {
        zone_hits(actor, position, zones, upto - 1)
    }
}

/// The messages that the death zones send about the actors in the first
/// `upto` slots, actor by actor and, for each actor, zone by zone.
pub open spec fn death_messages(records: Seq<Record<Actor>>, zones: Seq<DeathZone>, upto: int)
    -> Seq<Message>
    decreases upto,
{
    if upto <= 0 {
        Seq::empty()
    } else {
        death_messages(records, zones, upto - 1) + (match records[upto - 1].payload {
            Some(actor) => zone_hits(
                Handle { index: (upto - 1) as u32, generation: records[upto - 1].generation },
                actor.position,
                zones,
                zones.len() as int,
            ),
            None => Seq::empty(),
        })
    }
}

/// A node of the scene, as far as the level looks at it.
pub struct SceneNode {
    /// What names the node in the scene.
    pub handle: u64,
    pub name: String,
    pub position: Vec3,
    /// Whether the node is a mesh.
    pub is_mesh: bool,
    /// The box that holds the node.
    pub bounds: Aabb,
}

/// What a node of the scene is to the level.
#[derive(Copy, Clone, Debug, PartialEq, Eq, Structural)]
pub enum NodeRole {
    /// An item of the given kind lies here.
    Item(ItemKind),
    SpawnPoint,
    DeathZone,
    Other,
}

/// What a node is to the level, by the beginning of its name. A death
/// zone must be a mesh.
pub open spec fn role_of(name: Seq<char>, is_mesh: bool) -> NodeRole {
    if has_prefix(name, "Medkit"@) {
        NodeRole::Item(ItemKind::Medkit)
    } else if has_prefix(name, "Ammo_Ak47"@) {
        NodeRole::Item(ItemKind::Ak47Ammo)
    } else if has_prefix(name, "Ammo_M4"@) {
        NodeRole::Item(ItemKind::M4Ammo)
    } else if has_prefix(name, "Ammo_Plasma"@) {
        NodeRole::Item(ItemKind::Plasma)
    } else if has_prefix(name, "SpawnPoint"@) {
        NodeRole::SpawnPoint
    } else if has_prefix(name, "DeathZone"@) && is_mesh {
        NodeRole::DeathZone
    } else {
        NodeRole::Other
    }
}

/// The items that lie at the first `upto` nodes, in the order of the nodes.
pub open spec fn found_items(nodes: Seq<SceneNode>, upto: int) -> Seq<Item>
    decreases upto,
{
    if upto <= 0 {
        Seq::empty()
    } else {
        match role_of(nodes[upto - 1].name@, nodes[upto - 1].is_mesh) {
            NodeRole::Item(kind) => found_items(nodes, upto - 1).push(
                Item { kind, position: nodes[upto - 1].position, lifetime: None, unsettled: false },
            ),
            _ => found_items(nodes, upto - 1),
        }
    }
}

/// The spawn points among the first `upto` nodes, in the order of the
/// nodes.
pub open spec fn found_spawn_points(nodes: Seq<SceneNode>, upto: int) -> Seq<SpawnPoint>
    decreases upto,
{
    if upto <= 0 {
        Seq::empty()
    } else {
        match role_of(nodes[upto - 1].name@, nodes[upto - 1].is_mesh) {
            NodeRole::SpawnPoint => found_spawn_points(nodes, upto - 1).push(
                SpawnPoint { position: nodes[upto - 1].position },
            ),
            _ => found_spawn_points(nodes, upto - 1),
        }
    }
}

/// The death zones among the first `upto` nodes, in the order of the
/// nodes.
pub open spec fn found_death_zones(nodes: Seq<SceneNode>, upto: int) -> Seq<DeathZone>
    decreases upto,
{
    if upto <= 0 {
        Seq::empty()
    } else {
        match role_of(nodes[upto - 1].name@, nodes[upto - 1].is_mesh) {
            NodeRole::DeathZone => found_death_zones(nodes, upto - 1).push(
                DeathZone { bounds: nodes[upto - 1].bounds },
            ),
            _ => found_death_zones(nodes, upto - 1),
        }
    }
}

/// The nodes among the first `upto` that are not to be seen: the death
/// zones.
pub open spec fn hidden_nodes(nodes: Seq<SceneNode>, upto: int) -> Seq<u64>
    decreases upto,
{
    if upto <= 0 {
        Seq::empty()
    } else {
        match role_of(nodes[upto - 1].name@, nodes[upto - 1].is_mesh) {
            NodeRole::DeathZone => hidden_nodes(nodes, upto - 1).push(nodes[upto - 1].handle),
            _ => hidden_nodes(nodes, upto - 1),
        }
    }
}

/// Whether a pool holds the items `items` and nothing else, each in the
/// slot of its number; of more items than a pool has room for, the first.
pub open spec fn holds_items(pool: &Pool<Item>, items: Seq<Item>) -> bool {
    &&& pool.free@.len() == 0
    &&& pool.records@.len() == (if items.len() > u32::MAX {
        u32::MAX as nat
    } else {
        items.len()
    })
    &&& forall|i: int|
        0 <= i < pool.records@.len() ==> #[trigger] pool.records@[i] == (Record {
            generation: 1,
            payload: Some(items[i]),
        })
}

/// What the level finds when it looks over a scene.
pub struct AnalysisResult {
    pub items: ItemContainer,
    pub death_zones: Vec<DeathZone>,
    pub spawn_points: Vec<SpawnPoint>,
    /// The nodes that are not to be seen.
    pub hidden: Vec<u64>,
}

/// Tells what a node is to the level.
pub fn role(node: &SceneNode) -> (role: NodeRole)
    ensures
        role == role_of(node.name@, node.is_mesh),
{
    let name = node.name.as_str();
    if starts_with(name, "Medkit") {
        NodeRole::Item(ItemKind::Medkit)
    } else if starts_with(name, "Ammo_Ak47") {
        NodeRole::Item(ItemKind::Ak47Ammo)
    } else if starts_with(name, "Ammo_M4") {
        NodeRole::Item(ItemKind::M4Ammo)
    } else if starts_with(name, "Ammo_Plasma") {
        NodeRole::Item(ItemKind::Plasma)
    } else if starts_with(name, "SpawnPoint") {
        NodeRole::SpawnPoint
    } else if starts_with(name, "DeathZone") && node.is_mesh {
        NodeRole::DeathZone
    } else {
        NodeRole::Other
    }
}

/// Looks over the nodes of a scene and finds the items that lie there, the
/// spawn points and the death zones.
pub fn analyze(nodes: &Vec<SceneNode>) -> (result: AnalysisResult)
    ensures
        result.items.pool.wf(),
        holds_items(&result.items.pool, found_items(nodes@, nodes@.len() as int)),
        result.spawn_points@ == found_spawn_points(nodes@, nodes@.len() as int),
        result.death_zones@ == found_death_zones(nodes@, nodes@.len() as int),
        result.hidden@ == hidden_nodes(nodes@, nodes@.len() as int),
{
    let mut items = ItemContainer::new();
    let mut spawn_points: Vec<SpawnPoint> = Vec::new();
    let mut death_zones: Vec<DeathZone> = Vec::new();
    let mut hidden: Vec<u64> = Vec::new();
    let mut i: usize = 0;
    while i < nodes.len()
        invariant
            i <= nodes@.len(),
            items.pool.wf(),
            holds_items(&items.pool, found_items(nodes@, i as int)),
            spawn_points@ == found_spawn_points(nodes@, i as int),
            death_zones@ == found_death_zones(nodes@, i as int),
            hidden@ == hidden_nodes(nodes@, i as int),
        decreases nodes@.len() - i,
    {
        let node = &nodes[i];
        match role(node) {
            NodeRole::Item(kind) => {
                let ghost before = items.pool;
                let handle = items.add(Item::new(kind, node.position));
                proof {
                    let found = found_items(nodes@, i + 1);
                    assert forall|k: int| 0 <= k < items.pool.records@.len() implies #[trigger] items.pool.records@[k]
                        == (Record { generation: 1, payload: Some(found[k]) }) by {
                        if k < before.records@.len() {
                            assert(items.pool.records@[k] == before.records@[k]);
                        }
                    }
                }
            },
            NodeRole::SpawnPoint => {
                spawn_points.push(SpawnPoint { position: node.position });
            },
            NodeRole::DeathZone => {
                hidden.push(node.handle);
                death_zones.push(DeathZone { bounds: node.bounds });
            },
            NodeRole::Other => {},
        }
        i += 1;
    }
    AnalysisResult { items, death_zones, spawn_points, hidden }
}

/// How the sound of a level is mixed, in thousandths and milliseconds.
#[derive(Copy, Clone, Debug, PartialEq, Eq, Structural)]
pub struct SoundManager {
    /// The gain of the reverb.
    pub gain: u32,
    /// The share of the sound as it is.
    pub dry: u32,
    /// The share of the reverb.
    pub wet: u32,
    /// How long the reverb takes to fade.
    pub decay_time: u32,
}

/// A sound to be played once at a place.
#[derive(Debug, PartialEq, Eq)]
pub struct SoundSource {
    /// Where the sound is kept.
    pub path: String,
    pub position: Vec3,
    pub gain: u32,
    pub rolloff_factor: u32,
    pub radius: u32,
    pub play_once: bool,
}

impl SoundManager {
    /// The sound that `message` asks for, if it asks for one.
    pub open spec fn spec_sound(message: Message) -> Option<SoundSource> {
        match message {
            Message::PlaySound { path, position, gain, rolloff_factor, radius } => Some(
                SoundSource { path, position, gain, rolloff_factor, radius, play_once: true },
            ),
            _ => None,
        }
    }

    /// The mix of a level: a reverb of gain 0.7, half dry and half wet,
    /// that fades in three seconds.
    pub fn new() -> (manager: SoundManager)
        ensures
            manager == (SoundManager { gain: 700, dry: 500, wet: 500, decay_time: 3000 }),
    {
        SoundManager { gain: 700, dry: 500, wet: 500, decay_time: 3000 }
    }

    /// Tells which sound `message` asks for, if it asks for one.
    pub fn handle_message(&self, message: &Message) -> (source: Option<SoundSource>)
        ensures
            source == SoundManager::spec_sound(*message),
    {
        match message {
            Message::PlaySound { path, position, gain, rolloff_factor, radius } => Some(
                SoundSource {
                    path: path.clone(),
                    position: *position,
                    gain: *gain,
                    rolloff_factor: *rolloff_factor,
                    radius: *radius,
                    play_once: true,
                },
            ),
            _ => None,
        }
    }
}

/// What is drawn to show a level from the inside.
#[derive(Copy, Clone, Debug, PartialEq, Eq, Structural)]
pub struct DebugBox {
    pub bounds: Aabb,
    pub color: Color,
}

/// What a frame gives to whoever shows the level.
pub struct FrameOutput {
    /// What is to be done to each door, slot by slot.
    pub doors: Vec<Option<DoorCommand>>,
    /// The pose of each actor, slot by slot.
    pub poses: Vec<Option<Vec<PoseTerm>>>,
    /// The messages that the level took in this frame, in their order.
    pub handled: Vec<Message>,
}

/// The sounds that the first `upto` of `messages` ask for, in their order.
pub open spec fn sounds_of(messages: Seq<Message>, upto: int) -> Seq<SoundSource>
    decreases upto,
{
    if upto <= 0 {
        Seq::empty()
    } else {
        match SoundManager::spec_sound(messages[upto - 1]) {
            Some(source) => sounds_of(messages, upto - 1).push(source),
            None => sounds_of(messages, upto - 1),
        }
    }
}

impl Default for Level {
    fn default() -> (level: Level)
        ensures
            level.wf(),
            level.is_empty(),
            level.lengths == AnimationLengths::spec_zero(),
    {
        Level {
            player: Handle::none(),
            projectiles: ProjectileContainer::new(),
            actors: ActorContainer::new(),
            weapons: WeaponContainer::new(),
            items: ItemContainer::new(),
            doors: DoorContainer::new(),
            spawn_points: Vec::new(),
            death_zones: Vec::new(),
            sender: MessageBus::new(),
            time: 0,
            lengths: AnimationLengths::default(),
        }
    }
}

impl Level {
    /// Whether the level is sound: its pools are, and its actors are.
    pub open spec fn wf(&self) -> bool {
        &&& self.projectiles.pool.wf()
        &&& self.actors.wf()
        &&& self.weapons.pool.wf()
        &&& self.items.pool.wf()
        &&& self.doors.doors.wf()
    }

    /// Whether `after` is this level but for the parts named: where a flag
    /// is set, that part may differ; every other part is as it was.
    pub open spec fn same_except(
        &self,
        after: &Level,
        player: bool,
        projectiles: bool,
        actors: bool,
        weapons: bool,
        items: bool,
        sender: bool,
    ) -> bool {
        &&& player || after.player == self.player
        &&& projectiles || after.projectiles == self.projectiles
        &&& actors || after.actors == self.actors
        &&& weapons || after.weapons == self.weapons
        &&& items || after.items == self.items
        &&& sender || after.sender == self.sender
        &&& after.doors == self.doors
        &&& after.spawn_points == self.spawn_points
        &&& after.death_zones == self.death_zones
        &&& after.time == self.time
        &&& after.lengths == self.lengths
    }

    /// Whether `after` is this level after the weapon `weapon` was taken
    /// away: the projectiles it fired belong to nobody, and the weapon is
    /// gone. A weapon that is not there is not taken away, and nothing
    /// changes.
    pub open spec fn weapon_removed(&self, weapon: Handle, after: &Level) -> bool {
        if !self.weapons.pool.contains(weapon) {
            after == self
        } else {
            &&& self.same_except(after, false, true, false, true, false, false)
            &&& projectiles_disowned(&self.projectiles, weapon, &after.projectiles)
            &&& self.weapons.pool.freed(weapon, &after.weapons.pool)
        }
    }

    /// Whether `after` is this level after the actor `actor` was given a
    /// new weapon of kind `kind`.
    pub open spec fn new_weapon_given(
        &self,
        actor: Handle,
        kind: WeaponKind,
        visible: bool,
        after: &Level,
    ) -> bool {
        &&& self.same_except(after, false, false, true, true, false, false)
        &&& weapon_given(
            &self.actors,
            &self.weapons,
            actor,
            kind,
            visible,
            &after.actors,
            &after.weapons,
        )
    }

    /// Whether `after` is this level after an item was put into it.
    pub open spec fn item_spawned(
        &self,
        kind: ItemKind,
        position: Vec3,
        adjust_height: bool,
        lifetime: Option<u32>,
        after: &Level,
    ) -> bool {
        &&& self.same_except(after, false, false, false, false, true, false)
        &&& self.items.pool.spawned(
            Item { kind, position, lifetime, unsettled: adjust_height },
            &after.items.pool,
        )
    }

    /// Whether `after` is this level after a projectile was put into it.
    pub open spec fn projectile_created(
        &self,
        kind: ProjectileKind,
        position: Vec3,
        direction: Vec3,
        initial_velocity: Vec3,
        owner: Handle,
        after: &Level,
    ) -> bool {
        &&& self.same_except(after, false, true, false, false, false, false)
        &&& self.projectiles.pool.spawned(
            Projectile::spec_new(kind, direction, position, owner, initial_velocity),
            &after.projectiles.pool,
        )
    }

    /// Whether harm that `who` does to `actor` counts: the one harmed is
    /// there, and so is the one who harms, unless it is nobody.
    pub open spec fn harm_counts(&self, actor: Handle, who: Handle) -> bool {
        self.actors.pool.contains(actor) && (who.spec_is_none() || self.actors.pool.contains(who))
    }

    /// Whether `after` is this level after `who` did harm of `amount` to
    /// `actor`: the health of the one harmed has fallen, it is marked as
    /// harmed, and a bot that was harmed by somebody knows where that one
    /// stood.
    pub open spec fn actor_damaged(&self, actor: Handle, who: Handle, amount: u32, after: &Level)
        -> bool {
        if !self.harm_counts(actor, who) {
            after == self
        } else {
            let before = self.actors.pool.value(actor);
            let now = after.actors.pool.value(actor);
            &&& self.same_except(after, false, false, true, false, false, false)
            &&& self.actors.pool.same_but_value(&after.actors.pool, actor)
            &&& before.same_but_vitals(&now)
            &&& now.health == saturating_rest(before.health, amount)
            &&& now.hit
            &&& now.point_of_interest == (if !who.spec_is_none() && before.kind is Bot {
                Some((self.actors.pool.value(who).position, self.time))
            } else {
                before.point_of_interest
            })
        }
    }

    /// Whether `after` is this level after the weapon `weapon` was asked
    /// to fire: a weapon that is there, loaded and ready has fired, and its
    /// projectile flies from where the shot leaves the weapon, along
    /// `direction` or, without one, where the weapon points.
    pub open spec fn weapon_shot(
        &self,
        weapon: Handle,
        initial_velocity: Vec3,
        direction: Option<Vec3>,
        after: &Level,
    ) -> bool {
        if !self.weapons.pool.contains(weapon) || !self.weapons.pool.value(weapon).can_shoot() {
            after == self
        } else {
            let before = self.weapons.pool.value(weapon);
            let along = match direction {
                Some(d) => d,
                None => before.shot_direction,
            };
            &&& self.same_except(after, false, true, false, true, false, false)
            &&& self.weapons.pool.same_but_value(&after.weapons.pool, weapon)
            &&& after.weapons.pool.value(weapon) == before.fired()
            &&& self.projectiles.pool.spawned(
                Projectile::spec_new(
                    before.definition.projectile,
                    along,
                    before.shot_position,
                    weapon,
                    initial_velocity,
                ),
                &after.projectiles.pool,
            )
        }
    }

    /// Whether `after` is this level after the weapon `weapon` was shown
    /// or hidden.
    pub open spec fn weapon_shown(&self, weapon: Handle, state: bool, after: &Level) -> bool {
        if !self.weapons.pool.contains(weapon) {
            after == self
        } else {
            &&& self.same_except(after, false, false, false, true, false, false)
            &&& self.weapons.pool.same_but_value(&after.weapons.pool, weapon)
            &&& after.weapons.pool.value(weapon) == (Weapon {
                visible: state,
                ..self.weapons.pool.value(weapon)
            })
        }
    }

    /// Whether `after` is this level after the actor `actor` was given an
    /// item of kind `kind`.
    pub open spec fn item_handed(&self, actor: Handle, kind: ItemKind, after: &Level) -> bool {
        &&& self.same_except(after, false, false, true, true, false, false)
        &&& item_given(&self.actors, &self.weapons, actor, kind, &after.actors, &after.weapons)
    }

    /// Whether `after` is this level after the actor `actor` picked up the
    /// item `item`: the item is gone, its sound is asked for, and the actor
    /// has what the item gives. Nothing happens unless both are there.
    pub open spec fn item_picked_up(&self, actor: Handle, item: Handle, after: &Level) -> bool {
        if !(self.actors.pool.contains(actor) && self.items.pool.contains(item)) {
            after == self
        } else {
            let picked = self.items.pool.value(item);
            &&& self.same_except(after, false, false, true, true, true, true)
            &&& self.items.pool.freed(item, &after.items.pool)
            &&& after.sender@.len() == self.sender@.len() + 1
            &&& after.sender@.drop_last() == self.sender@
            &&& is_pickup_sound(after.sender@.last(), picked.position)
            &&& item_given(
                &self.actors,
                &self.weapons,
                actor,
                picked.kind,
                &after.actors,
                &after.weapons,
            )
        }
    }

    /// Whether `after` is this level after the weapon `weapon` was dropped
    /// at `position`: the weapon lies there as an item for a while, waiting
    /// to be put on the ground, and is gone as a weapon. A weapon that is
    /// not there drops nothing.
    pub open spec fn weapon_dropped(&self, weapon: Handle, position: Vec3, after: &Level) -> bool {
        if !self.weapons.pool.contains(weapon) {
            after == self
        } else {
            &&& self.same_except(after, false, true, false, true, true, false)
            &&& self.items.pool.spawned(
                Item {
                    kind: ItemKind::spec_of_weapon(self.weapons.pool.value(weapon).kind),
                    position,
                    lifetime: Some(DROPPED_ITEM_LIFETIME),
                    unsettled: true,
                },
                &after.items.pool,
            )
            &&& projectiles_disowned(&self.projectiles, weapon, &after.projectiles)
            &&& self.weapons.pool.freed(weapon, &after.weapons.pool)
        }
    }

    /// Whether `after` is this level after the actor `actor` left it: the
    /// weapons it carried were dropped one by one where it stood, in the
    /// order in which it carried them, `dropped` holding the level before
    /// the first and after each; the actor is gone; and if it was the
    /// player, there is no player.
    pub open spec fn actor_removed_with(&self, actor: Handle, dropped: Seq<Level>, after: &Level)
        -> bool {
        let leaver = self.actors.pool.value(actor);
        let list = leaver.weapons@;
        &&& dropped.len() == list.len() + 1
        &&& dropped[0] == *self
        &&& linked(
            dropped,
            |k: int, a: Level, b: Level| a.weapon_dropped(list[k], leaver.position, &b),
        )
        &&& dropped.last().same_except(after, true, false, true, false, false, false)
        &&& dropped.last().actors.pool.freed(actor, &after.actors.pool)
        &&& after.player == (if self.player == actor {
            Handle::spec_none()
        } else {
            self.player
        })
    }

    /// Whether `after` is this level after the actor `actor` left it. An
    /// actor that is not there leaves nothing behind.
    pub open spec fn actor_removed(&self, actor: Handle, after: &Level) -> bool {
        if !self.actors.pool.contains(actor) {
            after == self
        } else {
            exists|dropped: Seq<Level>| #[trigger] self.actor_removed_with(actor, dropped, after)
        }
    }

    /// Whether `after` is this level after a fresh actor entered it at
    /// `position`.
    pub open spec fn actor_placed(&self, kind: ActorKind, position: Vec3, after: &Level) -> bool {
        &&& self.same_except(after, false, false, true, false, false, false)
        &&& actor_added(&self.actors, kind, position, self.lengths, &after.actors)
    }

    /// Whether `after` is this level after a bot of kind `kind` entered it
    /// at `position`, `placed` being the level when the bot had entered and
    /// had no weapon yet: the bot is there and carries a new rifle.
    pub open spec fn bot_added_with(
        &self,
        kind: BotKind,
        position: Vec3,
        placed: Level,
        after: &Level,
    ) -> bool {
        &&& self.actor_placed(ActorKind::Bot(kind), position, &placed)
        &&& placed.new_weapon_given(
            self.actors.pool.next_handle(),
            WeaponKind::Ak47,
            true,
            after,
        )
    }

    /// Whether `after` is this level after a bot of kind `kind` entered it
    /// at `position`.
    pub open spec fn bot_added(&self, kind: BotKind, position: Vec3, after: &Level) -> bool {
        exists|placed: Level| #[trigger] self.bot_added_with(kind, position, placed, after)
    }

    /// Whether `after` is this level after a bot of kind `kind` entered it
    /// where bots enter.
    pub open spec fn bot_spawned(&self, kind: BotKind, after: &Level) -> bool {
        self.bot_added(kind, bot_place(self.spawn_points@, self.actors.pool.records@), after)
    }

    /// Whether `after` is this level after the player entered it, `steps`
    /// holding the level before, when the player had entered, and after each
    /// of the three weapons it is given: two rifles, hidden, and a plasma
    /// rifle, shown. The actor that entered is the player from now on.
    pub open spec fn player_spawned_with(&self, steps: Seq<Level>, after: &Level) -> bool {
        let handle = self.actors.pool.next_handle();
        &&& steps.len() == 5
        &&& steps[0] == *self
        &&& steps[0].actor_placed(
            ActorKind::Player,
            player_place(self.spawn_points@, self.actors.pool.records@),
            &steps[1],
        )
        &&& steps[1].new_weapon_given(handle, WeaponKind::M4, false, &steps[2])
        &&& steps[2].new_weapon_given(handle, WeaponKind::Ak47, false, &steps[3])
        &&& steps[3].new_weapon_given(handle, WeaponKind::PlasmaRifle, true, &steps[4])
        &&& steps[4].same_except(after, true, false, false, false, false, false)
        &&& after.player == handle
    }

    /// Whether `after` is this level after the player entered it.
    pub open spec fn player_spawned(&self, after: &Level) -> bool {
        exists|steps: Seq<Level>| #[trigger] self.player_spawned_with(steps, after)
    }

    /// Whether `after` is this level after the death zones were looked at:
    /// for every actor in a death zone, harm that kills has been asked for.
    pub open spec fn death_zones_checked(&self, after: &Level) -> bool {
        &&& self.same_except(after, false, false, false, false, false, true)
        &&& after.sender@ == self.sender@ + death_messages(
            self.actors.pool.records@,
            self.death_zones@,
            self.actors.pool.records@.len() as int,
        )
    }

    /// Whether the match is over: the player is there and is dead.
    pub open spec fn match_over(&self) -> bool {
        self.actors.pool.contains(self.player) && self.actors.pool.value(
            self.player,
        ).spec_is_dead()
    }

    /// Whether `after` is this level after it was looked at whether the
    /// match is over: if it is, the end of the match has been asked for.
    pub open spec fn ending_checked(&self, after: &Level) -> bool {
        if self.match_over() {
            &&& self.same_except(after, false, false, false, false, false, true)
            &&& after.sender@ == self.sender@.push(Message::EndMatch)
        } else {
            after == self
        }
    }

    /// The actor that fired the projectile `projectile`, if the weapon it
    /// flew from and its carrier are still there.
    pub open spec fn shooter_of(&self, projectile: Projectile) -> Handle {
        if self.weapons.pool.contains(projectile.owner) && self.actors.pool.contains(
            self.weapons.pool.value(projectile.owner).owner,
        ) {
            self.weapons.pool.value(projectile.owner).owner
        } else {
            Handle::spec_none()
        }
    }

    /// Whether what the physics tells is a hit: a projectile that is there
    /// touches an actor that is there and did not fire it.
    pub open spec fn is_hit(&self, event: ProximityEvent) -> bool {
        &&& event.intersecting
        &&& self.projectiles.pool.contains(event.projectile)
        &&& self.actors.pool.contains(event.actor)
        &&& self.shooter_of(self.projectiles.pool.value(event.projectile)) != event.actor
    }

    /// Whether `after` is this level after it was told `event`: for a hit,
    /// harm to the actor and an effect where the projectile is have been
    /// asked for, and the projectile's time is up.
    pub open spec fn proximity_handled(&self, event: ProximityEvent, after: &Level) -> bool {
        if !self.is_hit(event) {
            after == self
        } else {
            let projectile = self.projectiles.pool.value(event.projectile);
            &&& self.same_except(after, false, true, false, false, false, true)
            &&& self.projectiles.pool.same_but_value(&after.projectiles.pool, event.projectile)
            &&& after.projectiles.pool.value(event.projectile) == (Projectile {
                lifetime: 0,
                ..projectile
            })
            &&& after.sender@ == self.sender@.push(
                Message::DamageActor {
                    actor: event.actor,
                    who: self.shooter_of(projectile),
                    amount: projectile.kind.spec_definition().damage,
                },
            ).push(
                Message::CreateEffect {
                    kind: EffectKind::BulletImpact,
                    position: projectile.position,
                },
            )
        }
    }

    /// Whether `first` is this level with its clock `dt` milliseconds on.
    pub open spec fn clock_advanced(&self, dt: u32, first: &Level) -> bool {
        &&& first.player == self.player
        &&& first.projectiles == self.projectiles
        &&& first.actors == self.actors
        &&& first.weapons == self.weapons
        &&& first.items == self.items
        &&& first.doors == self.doors
        &&& first.spawn_points == self.spawn_points
        &&& first.death_zones == self.death_zones
        &&& first.sender == self.sender
        &&& first.lengths == self.lengths
        &&& first.time == (if self.time + dt > u64::MAX {
            u64::MAX
        } else {
            (self.time + dt) as u64
        })
    }

    /// Whether `after` is this level after its clock went `dt` milliseconds
    /// on and it was told `events` one by one, `told` holding the level
    /// before the first event and after each.
    pub open spec fn events_resolved_with(
        &self,
        dt: u32,
        events: Seq<ProximityEvent>,
        told: Seq<Level>,
        after: &Level,
    ) -> bool {
        &&& told.len() == events.len() + 1
        &&& self.clock_advanced(dt, &told[0])
        &&& linked(told, |k: int, a: Level, b: Level| a.proximity_handled(events[k], &b))
        &&& *after == told.last()
    }

    /// Whether `after` is this level after its clock went `dt` milliseconds
    /// on and it was told `events` one by one, in their order.
    pub open spec fn events_resolved(&self, dt: u32, events: Seq<ProximityEvent>, after: &Level)
        -> bool {
        exists|told: Seq<Level>| #[trigger] self.events_resolved_with(dt, events, told, after)
    }

    /// Whether `after`, `doors` and `poses` are this level, what is to be
    /// done to its doors and the poses of its actors after everything in it
    /// moved through a frame of `dt` milliseconds: the doors among the
    /// actors as they were, the death zones looking at the actors as they
    /// were, weapons, projectiles and items ageing, and the actors each on
    /// its own. Nothing here changes what another part looks at.
    pub open spec fn world_moved(
        &self,
        dt: u32,
        after: &Level,
        doors: Seq<Option<DoorCommand>>,
        poses: Seq<Option<Vec<PoseTerm>>>,
    ) -> bool {
        &&& after.player == self.player
        &&& after.spawn_points == self.spawn_points
        &&& after.death_zones == self.death_zones
        &&& after.time == self.time
        &&& after.lengths == self.lengths
        &&& self.doors.updated(&self.actors, dt, &after.doors, doors)
        &&& after.sender@ == self.sender@ + death_messages(
            self.actors.pool.records@,
            self.death_zones@,
            self.actors.pool.records@.len() as int,
        )
        &&& pool_aged(self.weapons.pool, dt, after.weapons.pool)
        &&& pool_aged(self.projectiles.pool, dt, after.projectiles.pool)
        &&& pool_aged(self.items.pool, dt, after.items.pool)
        &&& self.actors.updated(dt, &after.actors, poses)
    }

    /// Whether `after` is this level after it carried out `message`. A
    /// message that asks nothing of the level itself changes nothing.
    pub open spec fn handled(&self, message: Message, after: &Level) -> bool {
        match message {
            Message::GiveNewWeapon { actor, kind } => self.new_weapon_given(
                actor,
                kind,
                true,
                after,
            ),
            Message::AddBot { kind, position } => self.bot_added(kind, position, after),
            Message::RemoveActor { actor } => self.actor_removed(actor, after),
            Message::GiveItem { actor, kind } => self.item_handed(actor, kind, after),
            Message::PickUpItem { actor, item } => self.item_picked_up(actor, item, after),
            Message::ShootWeapon { weapon, initial_velocity, direction } => self.weapon_shot(
                weapon,
                initial_velocity,
                direction,
                after,
            ),
            Message::CreateProjectile {
                kind,
                position,
                direction,
                initial_velocity,
                owner,
            } => self.projectile_created(
                kind,
                position,
                direction,
                initial_velocity,
                owner,
                after,
            ),
            Message::ShowWeapon { weapon, state } => self.weapon_shown(weapon, state, after),
            Message::SpawnBot { kind } => self.bot_spawned(kind, after),
            Message::DamageActor { actor, who, amount } => self.actor_damaged(
                actor,
                who,
                amount,
                after,
            ),
            Message::SpawnPlayer => self.player_spawned(after),
            Message::SpawnItem { kind, position, adjust_height, lifetime } => self.item_spawned(
                kind,
                position,
                adjust_height,
                lifetime,
                after,
            ),
            Message::CreateEffect { .. } => after == self,
            Message::PlaySound { .. } => after == self,
            Message::EndMatch => after == self,
        }
    }

    /// Whether `after` and `handled` are this level and the messages it
    /// took after it took all messages that waited: exactly those, each
    /// carried out in the order in which they were sent, `taken` holding
    /// the level before the first and after each. The queue is empty when
    /// the first is carried out, so what waits afterwards was sent while
    /// the messages were carried out.
    pub open spec fn drained_with(&self, taken: Seq<Level>, after: &Level, handled: Seq<Message>)
        -> bool {
        &&& handled == self.sender@
        &&& taken.len() == handled.len() + 1
        &&& self.same_except(&taken[0], false, false, false, false, false, true)
        &&& taken[0].sender@ == Seq::<Message>::empty()
        &&& linked(taken, |k: int, a: Level, b: Level| a.handled(handled[k], &b))
        &&& *after == taken.last()
    }

    /// Whether `after` and `handled` are this level and the messages it
    /// took after it took all messages that waited.
    pub open spec fn drained(&self, after: &Level, handled: Seq<Message>) -> bool {
        exists|taken: Seq<Level>| #[trigger] self.drained_with(taken, after, handled)
    }

    /// Whether `after` and what it gives are this level after a frame of
    /// `dt` milliseconds in which the physics told `events`. In order: the
    /// clock goes on and the events are resolved; everything moves; the
    /// messages that wait are carried out; and it is looked at whether the
    /// match is over.
    pub open spec fn updated(
        &self,
        dt: u32,
        events: Seq<ProximityEvent>,
        after: &Level,
        doors: Seq<Option<DoorCommand>>,
        poses: Seq<Option<Vec<PoseTerm>>>,
        handled: Seq<Message>,
    ) -> bool {
        exists|resolved: Level, moved: Level, emptied: Level|
            #![trigger self.events_resolved(dt, events, &resolved), resolved.world_moved(dt, &moved, doors, poses), moved.drained(&emptied, handled)]
            {
                &&& self.events_resolved(dt, events, &resolved)
                &&& resolved.world_moved(dt, &moved, doors, poses)
                &&& moved.drained(&emptied, handled)
                &&& emptied.ending_checked(after)
            }
    }

    /// Whether the level is empty: nobody and nothing is in it, no message
    /// waits, and its clock stands at nothing.
    pub open spec fn is_empty(&self) -> bool {
        &&& self.player == Handle::spec_none()
        &&& self.projectiles.pool.records@.len() == 0
        &&& self.projectiles.pool.free@.len() == 0
        &&& self.actors.pool.records@.len() == 0
        &&& self.actors.pool.free@.len() == 0
        &&& self.weapons.pool.records@.len() == 0
        &&& self.weapons.pool.free@.len() == 0
        &&& self.items.pool.records@.len() == 0
        &&& self.items.pool.free@.len() == 0
        &&& self.doors.doors.records@.len() == 0
        &&& self.doors.doors.free@.len() == 0
        &&& self.spawn_points@.len() == 0
        &&& self.death_zones@.len() == 0
        &&& self.sender@.len() == 0
        &&& self.time == 0
    }

    /// Whether this is the level as it is founded on a scene: it holds what
    /// was found in the scene, and nobody has entered it yet.
    pub open spec fn founded_on(&self, nodes: Seq<SceneNode>, lengths: AnimationLengths) -> bool {
        &&& self.player == Handle::spec_none()
        &&& self.projectiles.pool.records@.len() == 0
        &&& self.projectiles.pool.free@.len() == 0
        &&& self.actors.pool.records@.len() == 0
        &&& self.actors.pool.free@.len() == 0
        &&& self.weapons.pool.records@.len() == 0
        &&& self.weapons.pool.free@.len() == 0
        &&& self.doors.doors.records@.len() == 0
        &&& self.doors.doors.free@.len() == 0
        &&& holds_items(&self.items.pool, found_items(nodes, nodes.len() as int))
        &&& self.spawn_points@ == found_spawn_points(nodes, nodes.len() as int)
        &&& self.death_zones@ == found_death_zones(nodes, nodes.len() as int)
        &&& self.sender@.len() == 0
        &&& self.time == 0
        &&& self.lengths == lengths
    }

    /// Builds the level on the nodes of a scene: the items, spawn points
    /// and death zones found there are in it, and the player has entered.
    /// Gives the level and the nodes that are not to be seen.
    pub fn new(nodes: &Vec<SceneNode>, lengths: AnimationLengths) -> (made: (Level, Vec<u64>))
        ensures
            made.0.wf(),
            made.1@ == hidden_nodes(nodes@, nodes@.len() as int),
            exists|founded: Level| #[trigger]
                founded.founded_on(nodes@, lengths) && founded.player_spawned(&made.0),
    {
        let analysis = analyze(nodes);
        let mut level = Level {
            player: Handle::none(),
            projectiles: ProjectileContainer::new(),
            actors: ActorContainer::new(),
            weapons: WeaponContainer::new(),
            items: analysis.items,
            doors: DoorContainer::new(),
            spawn_points: analysis.spawn_points,
            death_zones: analysis.death_zones,
            sender: MessageBus::new(),
            time: 0,
            lengths,
        };
        let ghost founded = level;
        let player = level.spawn_player();
        proof {
            assert(founded.founded_on(nodes@, lengths) && founded.player_spawned(&level));
        }
        (level, analysis.hidden)
    }

    /// The sounds that the messages `handled` ask for, in their order.
    pub fn sounds(manager: &SoundManager, handled: &Vec<Message>) -> (sources: Vec<SoundSource>)
        ensures
            sources@ == sounds_of(handled@, handled@.len() as int),
    {
        let mut sources: Vec<SoundSource> = Vec::new();
        let mut i: usize = 0;
        while i < handled.len()
            invariant
                i <= handled@.len(),
                sources@ == sounds_of(handled@, i as int),
            decreases handled@.len() - i,
        {
            match manager.handle_message(&handled[i]) {
                Some(source) => {
                    sources.push(source);
                },
                None => {},
            }
            i += 1;
        }
        sources
    }

    /// Tells whether the level is sound.
    pub fn check(&self) -> (sound: bool)
        ensures
            sound == self.wf(),
    {
        self.projectiles.pool.check() && self.actors.check() && self.weapons.pool.check()
            && self.items.pool.check() && self.doors.doors.check()
    }

    /// The player, or the handle that names nothing.
    pub fn get_player(&self) -> (player: Handle)
        ensures
            player == self.player,
    {
        self.player
    }

    /// The actors.
    pub fn actors(&self) -> (actors: &ActorContainer)
        ensures
            *actors == self.actors,
    {
        &self.actors
    }

    /// The weapons.
    pub fn weapons(&self) -> (weapons: &WeaponContainer)
        ensures
            *weapons == self.weapons,
    {
        &self.weapons
    }

    /// Takes the weapon `weapon` away. Projectiles that it fired and that
    /// still fly belong to nobody from now on, so that none of them names
    /// a weapon that is gone. A weapon that is not there is not taken away:
    /// nothing changes, whatever the projectiles name.
    pub fn remove_weapon(&mut self, weapon: Handle)
        requires
            old(self).wf(),
        ensures
            final(self).wf(),
            old(self).weapon_removed(weapon, final(self)),
    {
        if !self.weapons.contains(weapon) {
            return ;
        }
        let count = self.projectiles.pool.records.len();
        let mut i: usize = 0;
        while i < count
            invariant
                i <= count,
                count == old(self).projectiles.pool.records@.len(),
                self.projectiles.pool.records@.len() == count,
                self.projectiles.pool.free == old(self).projectiles.pool.free,
                self.projectiles.pool.wf(),
                old(self).same_except(self, false, true, false, false, false, false),
                forall|k: int|
                    i <= k < count ==> #[trigger] self.projectiles.pool.records@[k] == old(
                        self,
                    ).projectiles.pool.records@[k],
                forall|k: int|
                    0 <= k < i ==> (#[trigger] self.projectiles.pool.records@[k]).generation
                        == old(self).projectiles.pool.records@[k].generation
                        && self.projectiles.pool.records@[k].payload == disowned(
                        old(self).projectiles.pool.records@[k].payload,
                        weapon,
                    ),
            decreases count - i,
        {
            let ghost before = self.projectiles.pool;
            match self.projectiles.pool.handle_at(i) {
                Some(handle) => {
                    match self.projectiles.pool.try_borrow_mut(handle) {
                        Some(projectile) => {
                            if projectile.owner == weapon {
                                projectile.owner = Handle::none();
                            }
                        },
                        None => {},
                    }
                    proof {
                        before.lemma_changed_in_place(
                            &self.projectiles.pool,
                            handle,
                            self.projectiles.pool.value(handle),
                        );
                    }
                },
                None => {},
            }
            i += 1;
        }
        let gone = self.weapons.pool.free(weapon);
    }

    /// Gives the actor `actor` a new weapon of kind `kind`, shown or
    /// hidden. An actor that is not there is given nothing.
    pub fn give_new_weapon(&mut self, actor: Handle, kind: WeaponKind, visible: bool)
        requires
            old(self).wf(),
        ensures
            final(self).wf(),
            old(self).new_weapon_given(actor, kind, visible, final(self)),
    {
        if self.actors.contains(actor) {
            let mut weapon = Weapon::new(kind);
            weapon.set_owner(actor);
            weapon.set_visibility(visible);
            let handle = self.weapons.add(weapon);
            if handle.is_some() {
                let ghost before = self.actors;
                match self.actors.pool.try_borrow_mut(actor) {
                    Some(carrier) => {
                        carrier.add_weapon(handle);
                    },
                    None => {},
                }
                proof {
                    before.lemma_changed_in_place(&self.actors, actor);
                }
            }
        }
    }

    /// Puts an item into the level. An item whose height is to be adjusted
    /// waits to be put on the ground below it.
    pub fn spawn_item(
        &mut self,
        kind: ItemKind,
        position: Vec3,
        adjust_height: bool,
        lifetime: Option<u32>,
    )
        requires
            old(self).wf(),
        ensures
            final(self).wf(),
            old(self).item_spawned(kind, position, adjust_height, lifetime, final(self)),
    {
        let mut item = Item::new(kind, position);
        item.set_lifetime(lifetime);
        item.unsettled = adjust_height;
        let handle = self.items.add(item);
    }

    /// Puts a projectile into the level.
    pub fn create_projectile(
        &mut self,
        kind: ProjectileKind,
        position: Vec3,
        direction: Vec3,
        initial_velocity: Vec3,
        owner: Handle,
    )
        requires
            old(self).wf(),
        ensures
            final(self).wf(),
            old(self).projectile_created(
                kind,
                position,
                direction,
                initial_velocity,
                owner,
                final(self),
            ),
    {
        let projectile = Projectile::new(kind, direction, position, owner, initial_velocity);
        let handle = self.projectiles.add(projectile);
    }

    /// Does harm of `amount` to `actor` in the name of `who`. Harm to
    /// somebody who is not there, or by somebody who is not there, is
    /// passed over.
    pub fn damage_actor(&mut self, actor: Handle, who: Handle, amount: u32)
        requires
            old(self).wf(),
        ensures
            final(self).wf(),
            old(self).actor_damaged(actor, who, amount, final(self)),
    {
        if self.actors.contains(actor) && (who.is_none() || self.actors.contains(who)) {
            let who_position = if who.is_some() {
                match self.actors.get(who) {
                    Some(attacker) => Some(attacker.position()),
                    None => None,
                }
            } else {
                None
            };
            let time = self.time;
            let ghost before = self.actors;
            match self.actors.pool.try_borrow_mut(actor) {
                Some(harmed) => {
                    match who_position {
                        Some(position) => {
                            harmed.set_point_of_interest(position, time);
                        },
                        None => {},
                    }
                    harmed.damage(amount);
                },
                None => {},
            }
            proof {
                before.lemma_changed_in_place(&self.actors, actor);
            }
        }
    }

    /// Asks the weapon `weapon` to fire. A weapon that is not there, is
    /// empty or is not ready does nothing.
    pub fn shoot_weapon(&mut self, weapon: Handle, initial_velocity: Vec3, direction: Option<Vec3>)
        requires
            old(self).wf(),
        ensures
            final(self).wf(),
            old(self).weapon_shot(weapon, initial_velocity, direction, final(self)),
    {
        let ready = match self.weapons.get(weapon) {
            Some(w) => w.ammo > 0 && w.cooldown == 0,
            None => false,
        };
        if ready {
            let ghost before = self.weapons.pool;
            let mut shot: Option<(ProjectileKind, Vec3, Vec3)> = None;
            match self.weapons.pool.try_borrow_mut(weapon) {
                Some(w) => {
                    let fired = w.try_shoot();
                    let along = match direction {
                        Some(d) => d,
                        None => w.shot_direction,
                    };
                    shot = Some((w.definition.projectile, w.shot_position, along));
                },
                None => {},
            }
            proof {
                before.lemma_changed_in_place(
                    &self.weapons.pool,
                    weapon,
                    self.weapons.pool.value(weapon),
                );
            }
            match shot {
                Some((kind, position, along)) => {
                    let projectile = Projectile::new(
                        kind,
                        along,
                        position,
                        weapon,
                        initial_velocity,
                    );
                    let handle = self.projectiles.add(projectile);
                },
                None => {},
            }
        }
    }

    /// Shows or hides the weapon `weapon`.
    pub fn show_weapon(&mut self, weapon: Handle, state: bool)
        requires
            old(self).wf(),
        ensures
            final(self).wf(),
            old(self).weapon_shown(weapon, state, final(self)),
    {
        if self.weapons.contains(weapon) {
            let ghost before = self.weapons.pool;
            match self.weapons.pool.try_borrow_mut(weapon) {
                Some(w) => {
                    w.set_visibility(state);
                },
                None => {},
            }
            proof {
                before.lemma_changed_in_place(
                    &self.weapons.pool,
                    weapon,
                    self.weapons.pool.value(weapon),
                );
            }
        }
    }

    /// The actors, to be changed.
    pub fn actors_mut(&mut self) -> (actors: &mut ActorContainer)
        ensures
            *actors == old(self).actors,
            final(self).actors == *final(actors),
            final(self).player == old(self).player,
            final(self).projectiles == old(self).projectiles,
            final(self).weapons == old(self).weapons,
            final(self).items == old(self).items,
            final(self).doors == old(self).doors,
            final(self).spawn_points == old(self).spawn_points,
            final(self).death_zones == old(self).death_zones,
            final(self).sender == old(self).sender,
            final(self).time == old(self).time,
            final(self).lengths == old(self).lengths,
    {
        &mut self.actors
    }

    /// The place among the weapons that `actor` carries of the first that
    /// is there and is of kind `kind`.
    fn find_weapon_of_kind(&self, actor: Handle, kind: WeaponKind) -> (found: Option<Handle>)
        requires
            self.wf(),
            self.actors.pool.contains(actor),
        ensures
            match first_of_kind(
                &self.weapons.pool,
                self.actors.pool.value(actor).weapons@,
                kind,
                self.actors.pool.value(actor).weapons@.len() as int,
            ) {
                Some(j) => found == Some(self.actors.pool.value(actor).weapons@[j])
                    && self.weapons.pool.contains(self.actors.pool.value(actor).weapons@[j]),
                None => found.is_none(),
            },
    {
        match self.actors.get(actor) {
            Some(carrier) => {
                let mut j: usize = 0;
                while j < carrier.weapons.len()
                    invariant
                        j <= carrier.weapons@.len(),
                        *carrier == self.actors.pool.value(actor),
                        first_of_kind(&self.weapons.pool, carrier.weapons@, kind, j as int).is_none(),
                    decreases carrier.weapons@.len() - j,
                {
                    let handle = carrier.weapons[j];
                    match self.weapons.get(handle) {
                        Some(weapon) => {
                            if weapon.kind == kind {
                                proof {
                                    lemma_first_of_kind_found(
                                        &self.weapons.pool,
                                        carrier.weapons@,
                                        kind,
                                        j as int,
                                        carrier.weapons@.len() as int,
                                    );
                                    assert(*carrier == self.actors.pool.value(actor));
                                    assert(first_of_kind(
                                        &self.weapons.pool,
                                        self.actors.pool.value(actor).weapons@,
                                        kind,
                                        self.actors.pool.value(actor).weapons@.len() as int,
                                    ) == Some(j as int));
                                }
                                return Some(handle);
                            }
                        },
                        None => {},
                    }
                    j += 1;
                }
                None
            },
            None => None,
        }
    }

    /// Adds rounds to the weapon `weapon`.
    fn add_ammo(&mut self, weapon: Handle, amount: u32)
        requires
            old(self).wf(),
            old(self).weapons.pool.contains(weapon),
        ensures
            final(self).wf(),
            old(self).same_except(final(self), false, false, false, true, false, false),
            ammo_added(&old(self).weapons, weapon, amount, &final(self).weapons),
    {
        let ghost before = self.weapons.pool;
        match self.weapons.pool.try_borrow_mut(weapon) {
            Some(w) => {
                w.add_ammo(amount);
            },
            None => {},
        }
        proof {
            before.lemma_changed_in_place(
                &self.weapons.pool,
                weapon,
                self.weapons.pool.value(weapon),
            );
        }
    }

    /// Gives the actor `actor` an item of kind `kind`.
    pub fn give_item(&mut self, actor: Handle, kind: ItemKind)
        requires
            old(self).wf(),
        ensures
            final(self).wf(),
            old(self).item_handed(actor, kind, final(self)),
    {
        if self.actors.contains(actor) {
            match kind {
                ItemKind::Medkit => {
                    let ghost before = self.actors;
                    match self.actors.pool.try_borrow_mut(actor) {
                        Some(carrier) => {
                            carrier.heal(MEDKIT_HEALTH);
                        },
                        None => {},
                    }
                    proof {
                        before.lemma_changed_in_place(&self.actors, actor);
                    }
                },
                ItemKind::Ak47 | ItemKind::PlasmaGun | ItemKind::M4 => {
                    let weapon_kind = kind.weapon().unwrap();
                    match self.find_weapon_of_kind(actor, weapon_kind) {
                        Some(weapon) => {
                            self.add_ammo(weapon, AMMO_GIFT);
                        },
                        None => {
                            self.give_new_weapon(actor, weapon_kind, true);
                        },
                    }
                },
                ItemKind::Plasma | ItemKind::Ak47Ammo | ItemKind::M4Ammo => {
                    let weapon_kind = kind.ammo_for().unwrap();
                    match self.find_weapon_of_kind(actor, weapon_kind) {
                        Some(weapon) => {
                            self.add_ammo(weapon, AMMO_GIFT);
                        },
                        None => {},
                    }
                },
                ItemKind::RocketLauncher => {},
            }
        }
    }

    /// Lets the actor `actor` pick up the item `item`.
    pub fn pickup_item(&mut self, actor: Handle, item: Handle)
        requires
            old(self).wf(),
        ensures
            final(self).wf(),
            old(self).item_picked_up(actor, item, final(self)),
    {
        if self.actors.contains(actor) && self.items.contains(item) {
            match self.items.pool.free(item) {
                Some(picked) => {
                    self.sender.send(
                        Message::PlaySound {
                            path: String::from_str(ITEM_PICKUP_SOUND),
                            position: picked.position,
                            gain: 1000,
                            rolloff_factor: 3000,
                            radius: 2000,
                        },
                    );
                    proof {
                        assert(self.sender@.drop_last() =~= old(self).sender@);
                        assert(is_pickup_sound(self.sender@.last(), picked.position));
                    }
                    self.give_item(actor, picked.kind);
                },
                None => {},
            }
        }
    }

    /// Drops the weapon `weapon` at `position`.
    fn drop_weapon(&mut self, weapon: Handle, position: Vec3)
        requires
            old(self).wf(),
        ensures
            final(self).wf(),
            old(self).weapon_dropped(weapon, position, final(self)),
    {
        match self.weapons.get(weapon) {
            Some(w) => {
                let item_kind = ItemKind::of_weapon(w.kind);
                self.spawn_item(item_kind, position, true, Some(DROPPED_ITEM_LIFETIME));
                self.remove_weapon(weapon);
            },
            None => {},
        }
    }

    /// Takes the actor `actor` out of the level. The weapons it carried
    /// are dropped where it stood and lie there for a while.
    pub fn remove_actor(&mut self, actor: Handle)
        requires
            old(self).wf(),
        ensures
            final(self).wf(),
            old(self).actor_removed(actor, final(self)),
    {
        if self.actors.contains(actor) {
            let mut list: Vec<Handle> = Vec::new();
            let mut drop_position = Vec3::zero();
            match self.actors.get(actor) {
                Some(leaver) => {
                    drop_position = leaver.position();
                    let mut j: usize = 0;
                    while j < leaver.weapons.len()
                        invariant
                            j <= leaver.weapons@.len(),
                            list@ == leaver.weapons@.take(j as int),
                        decreases leaver.weapons@.len() - j,
                    {
                        list.push(leaver.weapons[j]);
                        j += 1;
                        assert(list@ =~= leaver.weapons@.take(j as int));
                    }
                    assert(leaver.weapons@.take(j as int) =~= leaver.weapons@);
                },
                None => {},
            }
            let ghost weapons = old(self).actors.pool.value(actor).weapons@;
            let ghost mut dropped: Seq<Level> = seq![*self];
            let ghost step = |k: int, a: Level, b: Level|
                a.weapon_dropped(weapons[k], drop_position, &b);
            let mut k: usize = 0;
            while k < list.len()
                invariant
                    k <= list@.len(),
                    list@ == weapons,
                    self.wf(),
                    dropped.len() == k + 1,
                    dropped[0] == *old(self),
                    dropped.last() == *self,
                    self.actors == old(self).actors,
                    self.player == old(self).player,
                    step == (|k: int, a: Level, b: Level|
                        a.weapon_dropped(weapons[k], drop_position, &b)),
                    linked(dropped, step),
                decreases list@.len() - k,
            {
                let ghost before = *self;
                let ghost chain = dropped;
                self.drop_weapon(list[k], drop_position);
                proof {
                    dropped = dropped.push(*self);
                    assert forall|i: int| 0 <= i < dropped.len() - 1 implies step(
                        i,
                        #[trigger] dropped[i],
                        dropped[i + 1],
                    ) by {
                        if i < chain.len() - 1 {
                            assert(step(i, chain[i], chain[i + 1]));
                        } else {
                            assert(dropped[i] == before);
                            assert(before.weapon_dropped(weapons[i], drop_position, self));
                        }
                    }
                }
                k += 1;
            }
            let gone = self.actors.free(actor);
            if self.player == actor {
                self.player = Handle::none();
            }
            proof {
                assert(old(self).actor_removed_with(actor, dropped, self));
            }
        }
    }

    /// Where something that falls from `from` comes to lie: where the ray
    /// down from it hits the ground, or `from` if it hits nothing.
    pub fn pick(from: Vec3, hit: Option<Vec3>) -> (position: Vec3)
        ensures
            position == (match hit {
                Some(ground) => ground,
                None => from,
            }),
    {
        match hit {
            Some(ground) => ground,
            None => from,
        }
    }

    /// Puts the item `item` on the ground: `hit` is where the ray down from
    /// the item hits the ground, if it hits any. The item waits no longer.
    pub fn settle_item(&mut self, item: Handle, hit: Option<Vec3>)
        requires
            old(self).wf(),
        ensures
            final(self).wf(),
            !old(self).items.pool.contains(item) ==> *final(self) == *old(self),
            old(self).items.pool.contains(item) ==> {
                &&& old(self).same_except(final(self), false, false, false, false, true, false)
                &&& old(self).items.pool.same_but_value(&final(self).items.pool, item)
                &&& final(self).items.pool.value(item) == (Item {
                    position: match hit {
                        Some(ground) => ground,
                        None => old(self).items.pool.value(item).position,
                    },
                    unsettled: false,
                    ..old(self).items.pool.value(item)
                })
            },
    {
        if self.items.contains(item) {
            let ghost before = self.items.pool;
            match self.items.pool.try_borrow_mut(item) {
                Some(lying) => {
                    lying.position = Level::pick(lying.position, hit);
                    lying.unsettled = false;
                },
                None => {},
            }
            proof {
                before.lemma_changed_in_place(
                    &self.items.pool,
                    item,
                    self.items.pool.value(item),
                );
            }
        }
    }

    /// Tells the actor `actor` where its body stands and what it means to
    /// do, as the physics and its mind say. An actor that is not there is
    /// told nothing.
    pub fn steer_actor(&mut self, actor: Handle, position: Vec3, intent: UpperBodyMachineInput)
        requires
            old(self).wf(),
        ensures
            final(self).wf(),
            !old(self).actors.pool.contains(actor) ==> *final(self) == *old(self),
            old(self).actors.pool.contains(actor) ==> {
                let before = old(self).actors.pool.value(actor);
                let now = final(self).actors.pool.value(actor);
                &&& old(self).same_except(final(self), false, false, true, false, false, false)
                &&& old(self).actors.pool.same_but_value(&final(self).actors.pool, actor)
                &&& before.same_but_controls(&now)
                &&& now.position == position
                &&& now.intent == intent
            },
    {
        if self.actors.contains(actor) {
            let ghost before = self.actors;
            match self.actors.pool.try_borrow_mut(actor) {
                Some(steered) => {
                    steered.set_position(position);
                    steered.set_intent(intent);
                },
                None => {},
            }
            proof {
                before.lemma_changed_in_place(&self.actors, actor);
            }
        }
    }

    /// Tells the weapon `weapon` where a shot leaves it and where it
    /// points, as the scene says. A weapon that is not there is told
    /// nothing.
    pub fn aim_weapon(&mut self, weapon: Handle, shot_position: Vec3, shot_direction: Vec3)
        requires
            old(self).wf(),
        ensures
            final(self).wf(),
            !old(self).weapons.pool.contains(weapon) ==> *final(self) == *old(self),
            old(self).weapons.pool.contains(weapon) ==> {
                &&& old(self).same_except(final(self), false, false, false, true, false, false)
                &&& old(self).weapons.pool.same_but_value(&final(self).weapons.pool, weapon)
                &&& final(self).weapons.pool.value(weapon) == (Weapon {
                    shot_position,
                    shot_direction,
                    ..old(self).weapons.pool.value(weapon)
                })
            },
    {
        if self.weapons.contains(weapon) {
            let ghost before = self.weapons.pool;
            match self.weapons.pool.try_borrow_mut(weapon) {
                Some(w) => {
                    w.aim(shot_position, shot_direction);
                },
                None => {},
            }
            proof {
                before.lemma_changed_in_place(
                    &self.weapons.pool,
                    weapon,
                    self.weapons.pool.value(weapon),
                );
            }
        }
    }

    /// Tells the player what its controls say it means to do. Without a
    /// player nothing happens.
    pub fn process_input_event(&mut self, intent: UpperBodyMachineInput)
        requires
            old(self).wf(),
        ensures
            final(self).wf(),
            !(old(self).actors.pool.contains(old(self).player) && old(self).actors.pool.value(
                old(self).player,
            ).kind == ActorKind::Player) ==> *final(self) == *old(self),
            old(self).actors.pool.contains(old(self).player) && old(self).actors.pool.value(
                old(self).player,
            ).kind == ActorKind::Player ==> {
                let before = old(self).actors.pool.value(old(self).player);
                let now = final(self).actors.pool.value(old(self).player);
                &&& old(self).same_except(final(self), false, false, true, false, false, false)
                &&& old(self).actors.pool.same_but_value(&final(self).actors.pool, old(self).player)
                &&& before.same_but_controls(&now)
                &&& now.position == before.position
                &&& now.intent == intent
            },
    {
        let player = self.player;
        let is_player = match self.actors.get(player) {
            Some(actor) => actor.is_player(),
            None => false,
        };
        if is_player {
            let ghost before = self.actors;
            match self.actors.pool.try_borrow_mut(player) {
                Some(actor) => {
                    actor.set_intent(intent);
                },
                None => {},
            }
            proof {
                before.lemma_changed_in_place(&self.actors, player);
            }
        }
    }

    /// Lets a fresh actor enter the level at `position` and gives its
    /// handle; the handle that names nothing if there is no room.
    fn place_actor(&mut self, kind: ActorKind, position: Vec3) -> (handle: Handle)
        requires
            old(self).wf(),
        ensures
            final(self).wf(),
            handle == old(self).actors.pool.next_handle(),
            old(self).actor_placed(kind, position, final(self)),
    {
        let machine = UpperBodyMachine::new(self.lengths);
        let actor = Actor::new(kind, position, Some(machine));
        self.actors.add(actor)
    }

    /// Lets a bot of kind `kind` enter the level at `position`, with a
    /// rifle, and gives its handle.
    pub fn add_bot(&mut self, kind: BotKind, position: Vec3) -> (bot: Handle)
        requires
            old(self).wf(),
        ensures
            final(self).wf(),
            bot == old(self).actors.pool.next_handle(),
            old(self).bot_added(kind, position, final(self)),
    {
        let bot = self.place_actor(ActorKind::Bot(kind), position);
        let ghost placed = *self;
        self.give_new_weapon(bot, WeaponKind::Ak47, true);
        proof {
            assert(old(self).bot_added_with(kind, position, placed, self));
        }
        bot
    }

    /// Where a fighter enters: the most suitable spawn point, if there is
    /// a spawn point.
    fn choose_spawn_place(&self) -> (place: Option<Vec3>)
        requires
            self.wf(),
        ensures
            place == spawn_place(self.spawn_points@, self.actors.pool.records@),
    {
        match find_suitable_spawn_point(&self.spawn_points, &self.actors) {
            Some(index) => {
                proof {
                    let chosen = choose|i: int|
                        most_suitable(self.spawn_points@, self.actors.pool.records@, i);
                    lemma_most_suitable_is_unique(
                        self.spawn_points@,
                        self.actors.pool.records@,
                        index as int,
                        chosen,
                    );
                }
                Some(self.spawn_points[index].position)
            },
            None => None,
        }
    }

    /// Lets a bot of kind `kind` enter the level where bots enter, and
    /// gives its handle.
    pub fn spawn_bot(&mut self, kind: BotKind) -> (bot: Handle)
        requires
            old(self).wf(),
        ensures
            final(self).wf(),
            bot == old(self).actors.pool.next_handle(),
            old(self).bot_spawned(kind, final(self)),
    {
        let spawn_position = match self.choose_spawn_place() {
            Some(position) => position,
            None => Vec3::zero().offset(&Vec3::new(0, PLAYER_HEIGHT, 0)),
        };
        self.add_bot(kind, spawn_position)
    }

    /// Lets the player enter the level where the player enters, with its
    /// three weapons, the last of them in its hands. The actor that entered
    /// is the player from now on.
    pub fn spawn_player(&mut self) -> (player: Handle)
        requires
            old(self).wf(),
        ensures
            final(self).wf(),
            player == old(self).actors.pool.next_handle(),
            old(self).player_spawned(final(self)),
    {
        let spawn_position = match self.choose_spawn_place() {
            Some(position) => position.offset(&Vec3::new(0, PLAYER_HEIGHT, 0)),
            None => Vec3::zero().offset(&Vec3::new(0, PLAYER_HEIGHT, 0)),
        };
        let ghost mut steps: Seq<Level> = seq![*self];
        let player = self.place_actor(ActorKind::Player, spawn_position);
        proof {
            steps = steps.push(*self);
        }
        self.give_new_weapon(player, WeaponKind::M4, false);
        proof {
            steps = steps.push(*self);
        }
        self.give_new_weapon(player, WeaponKind::Ak47, false);
        proof {
            steps = steps.push(*self);
        }
        self.give_new_weapon(player, WeaponKind::PlasmaRifle, true);
        proof {
            steps = steps.push(*self);
        }
        self.player = player;
        proof {
            assert(old(self).player_spawned_with(steps, self));
        }
        player
    }

    /// Looks at the death zones and asks for harm that kills for every
    /// actor in one of them.
    pub fn update_death_zones(&mut self)
        requires
            old(self).wf(),
        ensures
            final(self).wf(),
            old(self).death_zones_checked(final(self)),
    {
        let count = self.actors.pool.records.len();
        let mut i: usize = 0;
        while i < count
            invariant
                i <= count,
                count == self.actors.pool.records@.len(),
                count <= u32::MAX,
                self.wf(),
                old(self).same_except(self, false, false, false, false, false, true),
                self.sender@ == old(self).sender@ + death_messages(
                    self.actors.pool.records@,
                    self.death_zones@,
                    i as int,
                ),
            decreases count - i,
        {
            let generation = self.actors.pool.records[i].generation;
            let place: Option<Vec3> = match &self.actors.pool.records[i].payload {
                Some(actor) => Some(actor.position()),
                None => None,
            };
            match place {
                Some(position) => {
                    let handle = Handle::new(i as u32, generation);
                    let ghost before = self.sender@;
                    let mut z: usize = 0;
                    while z < self.death_zones.len()
                        invariant
                            z <= self.death_zones@.len(),
                            self.wf(),
                            old(self).same_except(self, false, false, false, false, false, true),
                            self.sender@ == before + zone_hits(
                                handle,
                                position,
                                self.death_zones@,
                                z as int,
                            ),
                        decreases self.death_zones@.len() - z,
                    {
                        if self.death_zones[z].bounds.contains(&position) {
                            self.sender.send(
                                Message::DamageActor {
                                    actor: handle,
                                    who: Handle::none(),
                                    amount: DEATH_ZONE_DAMAGE,
                                },
                            );
                        }
                        z += 1;
                        assert(self.sender@ =~= before + zone_hits(
                            handle,
                            position,
                            self.death_zones@,
                            z as int,
                        ));
                    }
                    assert(self.sender@ =~= old(self).sender@ + death_messages(
                        self.actors.pool.records@,
                        self.death_zones@,
                        i + 1,
                    ));
                },
                None => {
                    assert(self.sender@ =~= old(self).sender@ + death_messages(
                        self.actors.pool.records@,
                        self.death_zones@,
                        i + 1,
                    ));
                },
            }
            i += 1;
        }
    }

    /// Looks at whether the match is over, and asks for its end if the
    /// player is dead.
    pub fn update_game_ending(&mut self)
        requires
            old(self).wf(),
        ensures
            final(self).wf(),
            old(self).ending_checked(final(self)),
    {
        let over = match self.actors.get(self.player) {
            Some(player) => player.is_dead(),
            None => false,
        };
        if over {
            self.sender.send(Message::EndMatch);
        }
    }

    /// Takes in what the physics tells about a projectile and an actor.
    pub fn handle_proximity(&mut self, event: &ProximityEvent)
        requires
            old(self).wf(),
        ensures
            final(self).wf(),
            old(self).proximity_handled(*event, final(self)),
    {
        if !event.intersecting || !self.actors.contains(event.actor) {
            return ;
        }
        let flying: Option<Projectile> = match self.projectiles.pool.try_borrow(event.projectile) {
            Some(projectile) => Some(*projectile),
            None => None,
        };
        match flying {
            Some(projectile) => {
                let shooter = match self.weapons.get(projectile.owner) {
                    Some(weapon) => if self.actors.contains(weapon.owner) {
                        weapon.owner
                    } else {
                        Handle::none()
                    },
                    None => Handle::none(),
                };
                if shooter != event.actor {
                    let ghost before = self.projectiles.pool;
                    match self.projectiles.pool.try_borrow_mut(event.projectile) {
                        Some(hit) => {
                            hit.lifetime = 0;
                        },
                        None => {},
                    }
                    proof {
                        before.lemma_changed_in_place(
                            &self.projectiles.pool,
                            event.projectile,
                            self.projectiles.pool.value(event.projectile),
                        );
                    }
                    self.sender.send(
                        Message::DamageActor {
                            actor: event.actor,
                            who: shooter,
                            amount: projectile.damage(),
                        },
                    );
                    self.sender.send(
                        Message::CreateEffect {
                            kind: EffectKind::BulletImpact,
                            position: projectile.position,
                        },
                    );
                }
            },
            None => {},
        }
    }

    /// Sets the clock `dt` milliseconds on and takes in what the physics
    /// tells, event by event.
    pub fn resolve_events(&mut self, dt: u32, events: &Vec<ProximityEvent>)
        requires
            old(self).wf(),
        ensures
            final(self).wf(),
            old(self).events_resolved(dt, events@, final(self)),
    {
        self.time = self.time.saturating_add(dt as u64);
        let ghost mut told: Seq<Level> = seq![*self];
        let ghost step = |k: int, a: Level, b: Level| a.proximity_handled(events@[k], &b);
        let mut k: usize = 0;
        while k < events.len()
            invariant
                k <= events@.len(),
                self.wf(),
                told.len() == k + 1,
                old(self).clock_advanced(dt, &told[0]),
                told.last() == *self,
                step == (|k: int, a: Level, b: Level| a.proximity_handled(events@[k], &b)),
                linked(told, step),
            decreases events@.len() - k,
        {
            let ghost before = *self;
            let ghost chain = told;
            self.handle_proximity(&events[k]);
            proof {
                told = told.push(*self);
                assert forall|i: int| 0 <= i < told.len() - 1 implies step(
                    i,
                    #[trigger] told[i],
                    told[i + 1],
                ) by {
                    if i < chain.len() - 1 {
                        assert(step(i, chain[i], chain[i + 1]));
                    } else {
                        assert(told[i] == before);
                    }
                }
            }
            k += 1;
        }
        proof {
            assert(old(self).events_resolved_with(dt, events@, told, self));
        }
    }

    /// Moves everything in the level through a frame of `dt` milliseconds:
    /// doors, death zones, weapons, projectiles, items and actors.
    pub fn move_world(&mut self, dt: u32) -> (out: (Vec<Option<DoorCommand>>, Vec<Option<Vec<PoseTerm>>>))
        requires
            old(self).wf(),
        ensures
            final(self).wf(),
            old(self).world_moved(dt, final(self), out.0@, out.1@),
    {
        let doors = self.doors.update(&self.actors, dt);
        self.update_death_zones();
        self.weapons.update(dt);
        self.projectiles.update(dt);
        self.items.update(dt);
        let context = UpdateContext {
            time: GameTime { elapsed: self.time, delta: dt },
            items: &self.items,
            weapons: &self.weapons,
        };
        let poses = self.actors.update(&context);
        (doors, poses)
    }

    /// Carries out `message`.
    pub fn handle_message(&mut self, message: &Message)
        requires
            old(self).wf(),
        ensures
            final(self).wf(),
            old(self).handled(*message, final(self)),
    {
        match message {
            Message::GiveNewWeapon { actor, kind } => {
                self.give_new_weapon(*actor, *kind, true);
            },
            Message::AddBot { kind, position } => {
                let bot = self.add_bot(*kind, *position);
            },
            Message::RemoveActor { actor } => {
                self.remove_actor(*actor);
            },
            Message::GiveItem { actor, kind } => {
                self.give_item(*actor, *kind);
            },
            Message::PickUpItem { actor, item } => {
                self.pickup_item(*actor, *item);
            },
            Message::ShootWeapon { weapon, initial_velocity, direction } => {
                self.shoot_weapon(*weapon, *initial_velocity, *direction);
            },
            Message::CreateProjectile { kind, position, direction, initial_velocity, owner } => {
                self.create_projectile(*kind, *position, *direction, *initial_velocity, *owner);
            },
            Message::ShowWeapon { weapon, state } => {
                self.show_weapon(*weapon, *state);
            },
            Message::SpawnBot { kind } => {
                let bot = self.spawn_bot(*kind);
            },
            Message::DamageActor { actor, who, amount } => {
                self.damage_actor(*actor, *who, *amount);
            },
            Message::SpawnPlayer => {
                let player = self.spawn_player();
            },
            Message::SpawnItem { kind, position, adjust_height, lifetime } => {
                self.spawn_item(*kind, *position, *adjust_height, *lifetime);
            },
            Message::CreateEffect { .. } => {},
            Message::PlaySound { .. } => {},
            Message::EndMatch => {},
        }
    }

    /// Takes all messages that wait and carries them out in the order in
    /// which they were sent. Gives the messages it took. What is sent
    /// meanwhile waits for the next time.
    pub fn drain_messages(&mut self) -> (handled: Vec<Message>)
        requires
            old(self).wf(),
        ensures
            final(self).wf(),
            old(self).drained(final(self), handled@),
    {
        let batch = self.sender.take_all();
        let ghost mut taken: Seq<Level> = seq![*self];
        let ghost step = |k: int, a: Level, b: Level| a.handled(batch@[k], &b);
        let mut k: usize = 0;
        while k < batch.len()
            invariant
                k <= batch@.len(),
                batch@ == old(self).sender@,
                self.wf(),
                taken.len() == k + 1,
                old(self).same_except(&taken[0], false, false, false, false, false, true),
                taken[0].sender@ == Seq::<Message>::empty(),
                taken.last() == *self,
                step == (|k: int, a: Level, b: Level| a.handled(batch@[k], &b)),
                linked(taken, step),
            decreases batch@.len() - k,
        {
            let ghost before = *self;
            let ghost chain = taken;
            self.handle_message(&batch[k]);
            proof {
                taken = taken.push(*self);
                assert forall|i: int| 0 <= i < taken.len() - 1 implies step(
                    i,
                    #[trigger] taken[i],
                    taken[i + 1],
                ) by {
                    if i < chain.len() - 1 {
                        assert(step(i, chain[i], chain[i + 1]));
                    } else {
                        assert(taken[i] == before);
                    }
                }
            }
            k += 1;
        }
        proof {
            assert(old(self).drained_with(taken, self, batch@));
        }
        batch
    }

    /// Takes the level through a frame of `dt` milliseconds in which the
    /// physics told `events`.
    pub fn update(&mut self, dt: u32, events: &Vec<ProximityEvent>) -> (out: FrameOutput)
        requires
            old(self).wf(),
        ensures
            final(self).wf(),
            old(self).updated(dt, events@, final(self), out.doors@, out.poses@, out.handled@),
    {
        self.resolve_events(dt, events);
        let ghost resolved = *self;
        let (doors, poses) = self.move_world(dt);
        let ghost moved = *self;
        let handled = self.drain_messages();
        let ghost emptied = *self;
        self.update_game_ending();
        proof {
            assert(old(self).events_resolved(dt, events@, &resolved));
            assert(resolved.world_moved(dt, &moved, doors@, poses@));
            assert(moved.drained(&emptied, handled@));
            assert(emptied.ending_checked(self));
        }
        FrameOutput { doors, poses, handled }
    }

    /// Gives the level another queue for its messages.
    pub fn set_message_sender(&mut self, sender: MessageBus)
        ensures
            final(self).sender == sender,
            old(self).same_except(final(self), false, false, false, false, false, true),
    {
        self.sender = sender;
    }

    /// What is drawn to show the level from the inside: the death zones,
    /// in blue.
    pub fn debug_draw(&self) -> (shapes: Vec<DebugBox>)
        ensures
            shapes@.len() == self.death_zones@.len(),
            forall|i: int|
                0 <= i < shapes@.len() ==> #[trigger] shapes@[i] == (DebugBox {
                    bounds: self.death_zones@[i].bounds,
                    color: Color::spec_opaque(0, 0, 200),
                }),
    {
        let mut shapes: Vec<DebugBox> = Vec::new();
        let mut i: usize = 0;
        while i < self.death_zones.len()
            invariant
                i <= self.death_zones@.len(),
                shapes@.len() == i,
                forall|k: int|
                    0 <= k < i ==> #[trigger] shapes@[k] == (DebugBox {
                        bounds: self.death_zones@[k].bounds,
                        color: Color::spec_opaque(0, 0, 200),
                    }),
            decreases self.death_zones@.len() - i,
        {
            shapes.push(
                DebugBox { bounds: self.death_zones[i].bounds, color: Color::opaque(0, 0, 200) },
            );
            i += 1;
        }
        shapes
    }
}

/// A weapon that is there and of the kind looked for, with none before it
/// that is, is the first of its kind.
pub proof fn lemma_first_of_kind_found(
    weapons: &Pool<Weapon>,
    list: Seq<Handle>,
    kind: WeaponKind,
    j: int,
    upto: int,
)
    requires
        0 <= j < upto <= list.len(),
        first_of_kind(weapons, list, kind, j).is_none(),
        weapons.contains(list[j]),
        weapons.value(list[j]).kind == kind,
    ensures
        first_of_kind(weapons, list, kind, upto) == Some(j),
    decreases upto - j,
{
    if upto > j + 1 {
        lemma_first_of_kind_found(weapons, list, kind, j, upto - 1);
    }
}

/// Once a weapon that was there is taken away, no projectile names it:
/// what it fired belongs to nobody.
pub proof fn lemma_no_projectile_names_removed_weapon(before: Level, weapon: Handle, after: Level)
    requires
        before.wf(),
        before.weapons.pool.contains(weapon),
        before.weapon_removed(weapon, &after),
    ensures
        forall|i: int|
            0 <= i < after.projectiles.pool.records@.len() ==> ((
            #[trigger] after.projectiles.pool.records@[i]).payload matches Some(projectile)
                ==> projectile.owner != weapon),
        !after.weapons.pool.contains(weapon),
{
    assert forall|i: int| 0 <= i < after.projectiles.pool.records@.len() implies ((
    #[trigger] after.projectiles.pool.records@[i]).payload matches Some(projectile)
        ==> projectile.owner != weapon) by {
        assert(after.projectiles.pool.records@[i].payload == disowned(
            before.projectiles.pool.records@[i].payload,
            weapon,
        ));
    }
}

/// While an actor's weapons are dropped one by one, no message is sent and
/// nobody enters or leaves.
proof fn lemma_dropping_sends_nothing(
    dropped: Seq<Level>,
    list: Seq<Handle>,
    position: Vec3,
    upto: int,
)
    requires
        0 <= upto < dropped.len(),
        linked(dropped, |k: int, a: Level, b: Level| a.weapon_dropped(list[k], position, &b)),
    ensures
        dropped[upto].sender == dropped[0].sender,
    decreases upto,
{
    if upto > 0 {
        lemma_dropping_sends_nothing(dropped, list, position, upto - 1);
        let step = |k: int, a: Level, b: Level| a.weapon_dropped(list[k], position, &b);
        assert(step(upto - 1, dropped[upto - 1], dropped[upto]));
    }
}

/// Carrying out a message takes nothing from the queue and puts nothing
/// before what waits: what waited still waits, in its order, and what was
/// sent waits behind it.
pub proof fn lemma_handled_only_appends(before: Level, message: Message, after: Level)
    requires
        before.handled(message, &after),
    ensures
        before.sender@.is_prefix_of(after.sender@),
{
    match message {
        Message::AddBot { kind, position } => {
            let placed = choose|placed: Level| #[trigger]
                before.bot_added_with(kind, position, placed, &after);
            assert(after.sender == before.sender);
        },
        Message::SpawnBot { kind } => {
            let position = bot_place(before.spawn_points@, before.actors.pool.records@);
            let placed = choose|placed: Level| #[trigger]
                before.bot_added_with(kind, position, placed, &after);
            assert(after.sender == before.sender);
        },
        Message::RemoveActor { actor } => {
            if before.actors.pool.contains(actor) {
                let dropped = choose|dropped: Seq<Level>| #[trigger]
                    before.actor_removed_with(actor, dropped, &after);
                let leaver = before.actors.pool.value(actor);
                lemma_dropping_sends_nothing(
                    dropped,
                    leaver.weapons@,
                    leaver.position,
                    dropped.len() - 1,
                );
                assert(after.sender == before.sender);
            }
        },
        Message::SpawnPlayer => {
            let steps = choose|steps: Seq<Level>| #[trigger]
                before.player_spawned_with(steps, &after);
            assert(steps[1].sender == steps[0].sender);
            assert(steps[2].sender == steps[1].sender);
            assert(steps[3].sender == steps[2].sender);
            assert(steps[4].sender == steps[3].sender);
            assert(after.sender == before.sender);
        },
        Message::PickUpItem { actor, item } => {},
        _ => {
            assert(after.sender == before.sender);
        },
    }
}

/// While a level carries out the messages it took, its queue only grows:
/// what waits after any of them still waits in the end, in its order.
proof fn lemma_queue_only_grows(
    before: Level,
    taken: Seq<Level>,
    after: Level,
    handled: Seq<Message>,
    k: int,
)
    requires
        before.drained_with(taken, &after, handled),
        0 <= k < taken.len(),
    ensures
        taken[k].sender@.is_prefix_of(after.sender@),
    decreases taken.len() - k,
{
    if k < taken.len() - 1 {
        assert(taken[k].sender@.is_prefix_of(taken[k + 1].sender@)) by {
            let step = |k: int, a: Level, b: Level| a.handled(handled[k], &b);
            assert(step(k, taken[k], taken[k + 1]));
            lemma_handled_only_appends(taken[k], handled[k], taken[k + 1]);
        }
        lemma_queue_only_grows(before, taken, after, handled, k + 1);
        let here = taken[k].sender@;
        let next = taken[k + 1].sender@;
        let last = after.sender@;
        assert forall|i: int| 0 <= i < here.len() implies here[i] == last[i] by {
            assert(here[i] == next[i]);
            assert(next[i] == last[i]);
        }
    }
}

/// The messages that a level takes in a frame are exactly those that
/// waited when it began to take them, and they are carried out in the order
/// in which they were sent. What is sent while they are carried out is not
/// taken in this frame: the queue is empty before the first is carried
/// out, only grows from then on, and what it holds in the end waits for the
/// next frame.
pub proof fn lemma_sent_while_draining_waits(
    before: Level,
    taken: Seq<Level>,
    after: Level,
    handled: Seq<Message>,
    k: int,
)
    requires
        before.drained_with(taken, &after, handled),
        0 <= k < taken.len(),
    ensures
        handled == before.sender@,
        taken[0].sender@.len() == 0,
        k < handled.len() ==> taken[k].handled(handled[k], &taken[k + 1]),
        taken[k].sender@.is_prefix_of(after.sender@),
{
    lemma_queue_only_grows(before, taken, after, handled, k);
    if k < handled.len() {
        let step = |k: int, a: Level, b: Level| a.handled(handled[k], &b);
        assert(step(k, taken[k], taken[k + 1]));
    }
}

/// A message about an actor that is not there is passed over: the level
/// stays exactly as it is.
pub proof fn lemma_missing_actor_is_passed_over(before: Level, message: Message, after: Level)
    requires
        before.handled(message, &after),
        match message {
            Message::GiveNewWeapon { actor, .. } => !before.actors.pool.contains(actor),
            Message::RemoveActor { actor } => !before.actors.pool.contains(actor),
            Message::GiveItem { actor, .. } => !before.actors.pool.contains(actor),
            Message::PickUpItem { actor, item } => !before.actors.pool.contains(actor)
                || !before.items.pool.contains(item),
            Message::DamageActor { actor, who, .. } => !before.actors.pool.contains(actor) || (
            !who.spec_is_none() && !before.actors.pool.contains(who)),
            Message::ShootWeapon { weapon, .. } => !before.weapons.pool.contains(weapon),
            Message::ShowWeapon { weapon, .. } => !before.weapons.pool.contains(weapon),
            _ => false,
        },
    ensures
        after.player == before.player,
        after.projectiles == before.projectiles,
        after.actors == before.actors,
        after.weapons == before.weapons,
        after.items == before.items,
        after.doors == before.doors,
        after.sender == before.sender,
        after.time == before.time,
{
}

} // verus!
