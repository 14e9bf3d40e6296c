use shooter_core::actor::{Actor, ActorContainer, ActorKind, BotKind, MAX_HEALTH};
use shooter_core::door::{Color, Door, DoorState};
use shooter_core::geometry::{Aabb, Vec3};
use shooter_core::item::{Item, ItemKind};
use shooter_core::level::{
    analyze, find_suitable_spawn_point, role, DeathZone, DebugBox, Level, NodeRole,
    ProximityEvent, SceneNode, SoundManager, SoundSource, SpawnPoint,
};
use shooter_core::message::{EffectKind, Message, MessageBus, ITEM_PICKUP_SOUND};
use shooter_core::player::upper_body::{
    AnimationLengths, CombatWeaponKind, UpperBodyMachineInput, DYING_STATE, IDLE_STATE,
};
use shooter_core::pool::Handle;
use shooter_core::projectile::{Projectile, ProjectileKind};
use shooter_core::weapon::{Weapon, WeaponKind};

fn clip_lengths() -> AnimationLengths {
    let all = 1_000_000;
    AnimationLengths {
        hit_reaction_rifle: all,
        hit_reaction_pistol: all,
        aim_rifle: all,
        aim_pistol: all,
        toss_grenade: all,
        idle: all,
        idle_pistol: all,
        jump: all,
        falling: all,
        landing: all,
        put_back: all,
        grab: all,
        dying: all,
        walk: all,
        walk_pistol: all,
        run: all,
        run_pistol: all,
    }
}

fn empty_level() -> Level {
    let mut level = Level::default();
    level.lengths = clip_lengths();
    level
}

fn point(x: i32, y: i32, z: i32) -> SpawnPoint {
    SpawnPoint { position: Vec3::new(x, y, z) }
}

fn no_events() -> Vec<ProximityEvent> {
    Vec::new()
}

fn health(level: &Level, actor: Handle) -> u32 {
    level.actors().get(actor).unwrap().health
}

#[test]
fn spawn_point_farthest_from_all_actors_is_chosen() {
    let points = vec![point(0, 0, 0), point(10_000, 0, 0), point(20_000, 0, 0)];
    let mut actors = ActorContainer::new();
    actors.add(Actor::new(ActorKind::Player, Vec3::new(0, 0, 0), None));
    actors.add(Actor::new(ActorKind::Bot(BotKind::Mutant), Vec3::new(1000, 0, 0), None));
    assert_eq!(find_suitable_spawn_point(&points, &actors), Some(2));

    let points = vec![point(20_000, 0, 0), point(10_000, 0, 0), point(0, 0, 0)];
    assert_eq!(find_suitable_spawn_point(&points, &actors), Some(0));

    let points = vec![point(0, 0, 0), point(30_000, 0, 0), point(-29_000, 0, 0)];
    assert_eq!(find_suitable_spawn_point(&points, &actors), Some(1));
}

#[test]
fn of_equally_far_spawn_points_the_first_is_chosen() {
    let points = vec![point(0, 5000, 0), point(0, -5000, 0), point(0, 0, 5000)];
    let mut actors = ActorContainer::new();
    assert_eq!(find_suitable_spawn_point(&points, &actors), Some(0));
    actors.add(Actor::new(ActorKind::Player, Vec3::new(0, 0, 0), None));
    assert_eq!(find_suitable_spawn_point(&points, &actors), Some(0));
}

#[test]
fn without_spawn_points_none_is_chosen() {
    let actors = ActorContainer::new();
    assert_eq!(find_suitable_spawn_point(&Vec::new(), &actors), None);
}

#[test]
fn the_dead_do_not_count_when_a_spawn_point_is_chosen() {
    let points = vec![point(0, 0, 0), point(10_000, 0, 0)];
    let mut actors = ActorContainer::new();
    let near_first = actors.add(Actor::new(ActorKind::Player, Vec3::new(0, 0, 0), None));
    actors.add(Actor::new(ActorKind::Bot(BotKind::Maw), Vec3::new(9000, 0, 0), None));
    assert_eq!(find_suitable_spawn_point(&points, &actors), Some(1));
    actors.pool.try_borrow_mut(near_first).unwrap().damage(1000);
    assert_eq!(find_suitable_spawn_point(&points, &actors), Some(0));
    let mut actors = ActorContainer::new();
    actors.add(Actor::new(ActorKind::Player, Vec3::new(0, 0, 0), None));
    let far = actors.add(Actor::new(ActorKind::Bot(BotKind::Maw), Vec3::new(100_000, 0, 0), None));
    assert_eq!(find_suitable_spawn_point(&points, &actors), Some(0));
    actors.pool.try_borrow_mut(far).unwrap().damage(1000);
    assert_eq!(find_suitable_spawn_point(&points, &actors), Some(1));
}

#[test]
fn removing_a_weapon_disowns_its_projectiles() {
    let mut level = empty_level();
    let weapon = level.weapons.add(Weapon::new(WeaponKind::M4));
    let other = level.weapons.add(Weapon::new(WeaponKind::Ak47));
    let zero = Vec3::zero();
    level.create_projectile(ProjectileKind::Bullet, zero, Vec3::new(0, 0, 1), zero, weapon);
    level.create_projectile(ProjectileKind::Plasma, zero, Vec3::new(0, 0, 1), zero, other);
    level.create_projectile(ProjectileKind::Bullet, zero, Vec3::new(0, 0, 1), zero, weapon);
    let owners = |level: &Level| -> Vec<Handle> {
        (0..3).map(|i| level.projectiles.pool.at(i).unwrap().owner).collect()
    };
    assert_eq!(owners(&level), vec![weapon, other, weapon]);
    level.remove_weapon(weapon);
    assert_eq!(owners(&level), vec![Handle::none(), other, Handle::none()]);
    assert!(!level.weapons().contains(weapon));
    assert!(level.weapons().contains(other));
    level.remove_weapon(weapon);
    assert_eq!(owners(&level), vec![Handle::none(), other, Handle::none()]);
}

#[test]
fn messages_are_taken_in_the_order_in_which_they_were_sent() {
    let mut level = empty_level();
    let actor = level.add_bot(BotKind::Mutant, Vec3::zero());
    level.sender.send(Message::DamageActor { actor, who: Handle::none(), amount: 30 });
    level.sender.send(Message::GiveItem { actor, kind: ItemKind::Medkit });
    let out = level.update(16, &no_events());
    assert_eq!(
        out.handled,
        vec![
            Message::DamageActor { actor, who: Handle::none(), amount: 30 },
            Message::GiveItem { actor, kind: ItemKind::Medkit },
        ]
    );
    assert_eq!(health(&level, actor), 90);

    let mut level = empty_level();
    let actor = level.add_bot(BotKind::Mutant, Vec3::zero());
    level.sender.send(Message::GiveItem { actor, kind: ItemKind::Medkit });
    level.sender.send(Message::DamageActor { actor, who: Handle::none(), amount: 30 });
    level.update(16, &no_events());
    assert_eq!(health(&level, actor), 70);
}

#[test]
fn message_sent_while_messages_are_taken_waits_for_the_next_frame() {
    let mut level = empty_level();
    let place = Vec3::new(1, 2, 3);
    let actor = level.add_bot(BotKind::Mutant, Vec3::zero());
    level.damage_actor(actor, Handle::none(), 50);
    level.spawn_item(ItemKind::Medkit, place, false, None);
    let item = Handle::new(0, 1);
    assert!(level.items.contains(item));
    level.sender.send(Message::PickUpItem { actor, item });

    let out = level.update(16, &no_events());
    assert_eq!(out.handled, vec![Message::PickUpItem { actor, item }]);
    assert_eq!(health(&level, actor), 70);
    assert!(!level.items.contains(item));
    let sound = || Message::PlaySound {
        path: String::from("data/sounds/item_pickup.ogg"),
        position: place,
        gain: 1000,
        rolloff_factor: 3000,
        radius: 2000,
    };
    assert_eq!(level.sender.queue, vec![sound()]);

    let out = level.update(16, &no_events());
    assert_eq!(out.handled, vec![sound()]);
    assert!(level.sender.is_empty());
    let out = level.update(16, &no_events());
    assert!(out.handled.is_empty());
}

#[test]
fn sounds_of_the_messages_that_were_taken() {
    let manager = SoundManager::new();
    assert_eq!(manager, SoundManager { gain: 700, dry: 500, wet: 500, decay_time: 3000 });
    let sound = |path: &str| Message::PlaySound {
        path: String::from(path),
        position: Vec3::new(1, 2, 3),
        gain: 1000,
        rolloff_factor: 3000,
        radius: 2000,
    };
    let source = |path: &str| SoundSource {
        path: String::from(path),
        position: Vec3::new(1, 2, 3),
        gain: 1000,
        rolloff_factor: 3000,
        radius: 2000,
        play_once: true,
    };
    assert_eq!(manager.handle_message(&sound("a.ogg")), Some(source("a.ogg")));
    assert_eq!(manager.handle_message(&Message::EndMatch), None);
    assert_eq!(
        Level::sounds(&manager, &vec![Message::SpawnPlayer, sound("data/shot.ogg"), sound("")]),
        vec![source("data/shot.ogg"), source("")]
    );
    assert_eq!(ITEM_PICKUP_SOUND, "data/sounds/item_pickup.ogg");
}

#[test]
fn sound_of_any_path_is_taken_and_changes_nothing() {
    let mut level = empty_level();
    let bot = level.add_bot(BotKind::Mutant, Vec3::zero());
    let sound = || Message::PlaySound {
        path: String::from("data/sounds/somewhere/else.wav"),
        position: Vec3::new(4, 5, 6),
        gain: 1,
        rolloff_factor: 2,
        radius: 3,
    };
    level.sender.send(sound());
    let out = level.update(16, &no_events());
    assert_eq!(out.handled, vec![sound()]);
    assert!(level.sender.is_empty());
    assert_eq!(health(&level, bot), 100);
    let sources = Level::sounds(&SoundManager::new(), &out.handled);
    assert_eq!(sources.len(), 1);
    assert_eq!(sources[0].path, "data/sounds/somewhere/else.wav");
    assert!(sources[0].play_once);
}

#[test]
fn removing_a_weapon_that_is_not_there_changes_nothing() {
    let mut level = empty_level();
    let weapon = level.weapons.add(Weapon::new(WeaponKind::M4));
    let zero = Vec3::zero();
    level.remove_weapon(weapon);
    let never = Handle::new(7, 3);
    level.create_projectile(ProjectileKind::Bullet, zero, Vec3::new(0, 0, 1), zero, weapon);
    level.create_projectile(ProjectileKind::Bullet, zero, Vec3::new(0, 0, 1), zero, never);
    level.create_projectile(ProjectileKind::Bullet, zero, Vec3::new(0, 0, 1), zero, Handle::none());
    let owners = |level: &Level| -> Vec<Handle> {
        (0..3).map(|i| level.projectiles.pool.at(i).unwrap().owner).collect()
    };
    for missing in [weapon, never, Handle::none()] {
        level.remove_weapon(missing);
        assert_eq!(owners(&level), vec![weapon, never, Handle::none()]);
        assert_eq!(level.weapons().pool.capacity(), 1);
        assert!(!level.weapons().contains(missing));
    }
    let again = level.weapons.add(Weapon::new(WeaponKind::Ak47));
    assert_eq!(again, Handle::new(0, 2));
    level.remove_weapon(weapon);
    assert_eq!(owners(&level), vec![weapon, never, Handle::none()]);
    assert!(level.weapons().contains(again));
}

#[test]
fn player_enters_above_the_spawn_point_with_three_weapons() {
    let mut level = empty_level();
    level.spawn_points = vec![point(5000, 0, 0)];
    level.sender.send(Message::SpawnPlayer);
    level.update(16, &no_events());
    let player = level.get_player();
    assert_eq!(player, Handle::new(0, 1));
    let actor = level.actors().get(player).unwrap();
    assert_eq!(actor.kind, ActorKind::Player);
    assert_eq!(actor.position(), Vec3::new(5000, 1500, 0));
    assert_eq!(actor.health, MAX_HEALTH);
    assert_eq!(actor.weapons, vec![Handle::new(0, 1), Handle::new(1, 1), Handle::new(2, 1)]);
    let kinds: Vec<(WeaponKind, bool, Handle)> = actor
        .weapons
        .iter()
        .map(|h| level.weapons().get(*h).unwrap())
        .map(|w| (w.kind, w.visible, w.owner))
        .collect();
    assert_eq!(
        kinds,
        vec![
            (WeaponKind::M4, false, player),
            (WeaponKind::Ak47, false, player),
            (WeaponKind::PlasmaRifle, true, player),
        ]
    );
    assert_eq!(actor.animator.as_ref().unwrap().active_state(), IDLE_STATE);
}

#[test]
fn without_spawn_points_fighters_enter_above_the_origin() {
    let mut level = empty_level();
    let player = level.spawn_player();
    assert_eq!(level.actors().get(player).unwrap().position(), Vec3::new(0, 1500, 0));
    let bot = level.spawn_bot(BotKind::Parasite);
    assert_eq!(level.actors().get(bot).unwrap().position(), Vec3::new(0, 1500, 0));
}

#[test]
fn bot_enters_at_the_spawn_point_with_a_rifle() {
    let mut level = empty_level();
    level.spawn_points = vec![point(5000, 0, 0), point(-5000, 0, 0)];
    level.sender.send(Message::SpawnBot { kind: BotKind::Maw });
    level.sender.send(Message::SpawnBot { kind: BotKind::Mutant });
    level.sender.send(Message::AddBot { kind: BotKind::Parasite, position: Vec3::new(7, 7, 7) });
    level.update(16, &no_events());
    let first = level.actors().get(Handle::new(0, 1)).unwrap();
    assert_eq!(first.kind, ActorKind::Bot(BotKind::Maw));
    assert_eq!(first.position(), Vec3::new(5000, 0, 0));
    let second = level.actors().get(Handle::new(1, 1)).unwrap();
    assert_eq!(second.kind, ActorKind::Bot(BotKind::Mutant));
    assert_eq!(second.position(), Vec3::new(-5000, 0, 0));
    let third = level.actors().get(Handle::new(2, 1)).unwrap();
    assert_eq!(third.position(), Vec3::new(7, 7, 7));
    assert_eq!(third.weapons, vec![Handle::new(2, 1)]);
    let rifle = level.weapons().get(Handle::new(2, 1)).unwrap();
    assert_eq!((rifle.kind, rifle.visible, rifle.owner), (WeaponKind::Ak47, true, Handle::new(2, 1)));
    assert_eq!(level.get_player(), Handle::none());
}

#[test]
fn harm_that_kills_leads_to_dying_and_ends_the_match() {
    let mut level = empty_level();
    let player = level.spawn_player();
    level.sender.send(Message::DamageActor { actor: player, who: Handle::none(), amount: 100 });
    let out = level.update(16, &no_events());
    assert_eq!(out.handled.len(), 1);
    assert_eq!(health(&level, player), 0);
    assert!(level.actors().get(player).unwrap().is_dead());
    assert_eq!(level.sender.queue, vec![Message::EndMatch]);
    assert_eq!(out.poses.len(), 1);
    let state = |level: &Level| level.actors().get(player).unwrap().animator.as_ref().unwrap().machine.phase;
    assert_eq!(state(&level).active, IDLE_STATE);
    assert_eq!(state(&level).transition, None);

    let out = level.update(16, &no_events());
    assert_eq!(out.handled, vec![Message::EndMatch]);
    assert_eq!(state(&level).active, IDLE_STATE);
    assert_eq!(state(&level).transition, Some(26));
    assert!(!level.actors().get(player).unwrap().hit);
    for _ in 1..13 {
        level.update(16, &no_events());
    }
    assert_eq!(state(&level).active, DYING_STATE);
    assert_eq!(state(&level).transition, None);
    for _ in 0..100 {
        level.update(16, &no_events());
        assert_eq!(state(&level).active, DYING_STATE);
        assert_eq!(state(&level).transition, None);
    }
}

#[test]
fn harm_does_not_go_below_nothing_and_healing_not_above_full_health() {
    let mut level = empty_level();
    let actor = level.add_bot(BotKind::Mutant, Vec3::zero());
    level.give_item(actor, ItemKind::Medkit);
    assert_eq!(health(&level, actor), 100);
    level.damage_actor(actor, Handle::none(), 95);
    assert_eq!(health(&level, actor), 5);
    level.give_item(actor, ItemKind::Medkit);
    assert_eq!(health(&level, actor), 25);
    level.damage_actor(actor, Handle::none(), u32::MAX);
    assert_eq!(health(&level, actor), 0);
    level.give_item(actor, ItemKind::Medkit);
    assert_eq!(health(&level, actor), 20);
}

#[test]
fn a_bot_learns_where_harm_came_from() {
    let mut level = empty_level();
    let bot = level.add_bot(BotKind::Mutant, Vec3::zero());
    let player = level.spawn_player();
    level.actors_mut().pool.try_borrow_mut(player).unwrap().set_position(Vec3::new(4, 5, 6));
    level.update(250, &no_events());
    level.damage_actor(bot, player, 10);
    let harmed = level.actors().get(bot).unwrap();
    assert_eq!(harmed.health, 90);
    assert!(harmed.hit);
    assert_eq!(harmed.point_of_interest, Some((Vec3::new(4, 5, 6), 250)));
    level.damage_actor(player, bot, 10);
    assert_eq!(level.actors().get(player).unwrap().point_of_interest, None);
    level.damage_actor(bot, Handle::none(), 10);
    assert_eq!(
        level.actors().get(bot).unwrap().point_of_interest,
        Some((Vec3::new(4, 5, 6), 250))
    );
}

#[test]
fn messages_about_what_is_not_there_are_passed_over() {
    let mut level = empty_level();
    let bot = level.add_bot(BotKind::Mutant, Vec3::zero());
    let gone = Handle::new(7, 1);
    let stale = Handle::new(0, 2);
    for missing in [gone, stale, Handle::none()] {
        level.sender.send(Message::RemoveActor { actor: missing });
        level.sender.send(Message::GiveItem { actor: missing, kind: ItemKind::Ak47 });
        level.sender.send(Message::GiveNewWeapon { actor: missing, kind: WeaponKind::M4 });
        level.sender.send(Message::PickUpItem { actor: missing, item: missing });
        level.sender.send(Message::PickUpItem { actor: bot, item: missing });
        level.sender.send(Message::ShowWeapon { weapon: missing, state: false });
        level.sender.send(Message::ShootWeapon {
            weapon: missing,
            initial_velocity: Vec3::zero(),
            direction: None,
        });
        level.sender.send(Message::DamageActor { actor: missing, who: bot, amount: 5 });
    }
    level.sender.send(Message::DamageActor { actor: bot, who: gone, amount: 5 });
    level.sender.send(Message::DamageActor { actor: bot, who: stale, amount: 5 });
    let out = level.update(16, &no_events());
    assert_eq!(out.handled.len(), 26);
    assert_eq!(health(&level, bot), 100);
    assert_eq!(level.actors().get(bot).unwrap().weapons, vec![Handle::new(0, 1)]);
    assert_eq!(level.weapons().pool.capacity(), 1);
    assert_eq!(level.items.pool.capacity(), 0);
    assert_eq!(level.projectiles.pool.capacity(), 0);
    assert!(level.sender.is_empty());
}

#[test]
fn leaving_actor_drops_its_weapons_as_items() {
    let mut level = empty_level();
    let player = level.spawn_player();
    level.actors_mut().pool.try_borrow_mut(player).unwrap().set_position(Vec3::new(9, 9, 9));
    let bot = level.add_bot(BotKind::Mutant, Vec3::zero());
    let zero = Vec3::zero();
    level.create_projectile(ProjectileKind::Plasma, zero, zero, zero, Handle::new(2, 1));
    level.sender.send(Message::RemoveActor { actor: player });
    level.update(16, &no_events());
    assert_eq!(level.get_player(), Handle::none());
    assert!(!level.actors().contains(player));
    assert!(level.actors().contains(bot));
    for index in 0..3 {
        assert!(!level.weapons().contains(Handle::new(index, 1)));
    }
    assert!(level.weapons().contains(Handle::new(3, 1)));
    let dropped: Vec<Item> = (0..3).map(|i| *level.items.pool.at(i).unwrap()).collect();
    let lying = |kind| Item { kind, position: Vec3::new(9, 9, 9), lifetime: Some(20_000), unsettled: true };
    assert_eq!(dropped, vec![lying(ItemKind::M4), lying(ItemKind::Ak47), lying(ItemKind::PlasmaGun)]);
    assert_eq!(level.projectiles.pool.at(0).unwrap().owner, Handle::none());
}

#[test]
fn removing_a_bot_leaves_the_player() {
    let mut level = empty_level();
    let player = level.spawn_player();
    let bot = level.add_bot(BotKind::Mutant, Vec3::zero());
    level.remove_actor(bot);
    assert_eq!(level.get_player(), player);
    assert!(!level.actors().contains(bot));
    assert_eq!(level.items.pool.at(0).unwrap().kind, ItemKind::Ak47);
}

#[test]
fn dropped_weapon_is_put_on_the_ground_and_lies_for_a_while() {
    let mut level = empty_level();
    level.spawn_item(ItemKind::M4, Vec3::new(0, 5000, 0), true, Some(40));
    level.spawn_item(ItemKind::M4, Vec3::new(0, 6000, 0), true, None);
    let first = Handle::new(0, 1);
    let second = Handle::new(1, 1);
    assert_eq!(Level::pick(Vec3::new(1, 1, 1), None), Vec3::new(1, 1, 1));
    assert_eq!(Level::pick(Vec3::new(1, 1, 1), Some(Vec3::new(1, 0, 1))), Vec3::new(1, 0, 1));
    level.settle_item(first, Some(Vec3::new(0, 100, 0)));
    level.settle_item(second, None);
    level.settle_item(Handle::new(5, 1), Some(Vec3::zero()));
    assert_eq!(
        *level.items.pool.try_borrow(first).unwrap(),
        Item { kind: ItemKind::M4, position: Vec3::new(0, 100, 0), lifetime: Some(40), unsettled: false }
    );
    assert_eq!(
        *level.items.pool.try_borrow(second).unwrap(),
        Item { kind: ItemKind::M4, position: Vec3::new(0, 6000, 0), lifetime: None, unsettled: false }
    );
    level.update(16, &no_events());
    assert_eq!(level.items.pool.try_borrow(first).unwrap().lifetime, Some(24));
    level.update(16, &no_events());
    assert_eq!(level.items.pool.try_borrow(first).unwrap().lifetime, Some(8));
    level.update(16, &no_events());
    assert!(!level.items.contains(first));
    assert!(level.items.contains(second));
}

#[test]
fn items_give_what_they_are() {
    let mut level = empty_level();
    let bot = level.add_bot(BotKind::Mutant, Vec3::zero());
    let rifle = Handle::new(0, 1);
    let ammo = |level: &Level, weapon: Handle| level.weapons().get(weapon).unwrap().ammo;
    assert_eq!(ammo(&level, rifle), 200);

    level.give_item(bot, ItemKind::Ak47);
    assert_eq!(ammo(&level, rifle), 400);
    assert_eq!(level.actors().get(bot).unwrap().weapons.len(), 1);

    level.give_item(bot, ItemKind::Ak47Ammo);
    assert_eq!(ammo(&level, rifle), 600);

    level.give_item(bot, ItemKind::M4Ammo);
    level.give_item(bot, ItemKind::Plasma);
    level.give_item(bot, ItemKind::RocketLauncher);
    assert_eq!(ammo(&level, rifle), 600);
    assert_eq!(level.actors().get(bot).unwrap().weapons.len(), 1);

    level.give_item(bot, ItemKind::PlasmaGun);
    let plasma = Handle::new(1, 1);
    assert_eq!(level.actors().get(bot).unwrap().weapons, vec![rifle, plasma]);
    let gun = level.weapons().get(plasma).unwrap();
    assert_eq!((gun.kind, gun.ammo, gun.visible, gun.owner), (WeaponKind::PlasmaRifle, 100, true, bot));
    level.give_item(bot, ItemKind::Plasma);
    assert_eq!(ammo(&level, plasma), 300);

    level.weapons.pool.try_borrow_mut(rifle).unwrap().add_ammo(u32::MAX);
    assert_eq!(ammo(&level, rifle), u32::MAX);
}

#[test]
fn ammunition_goes_to_the_first_weapon_of_its_kind_that_is_still_there() {
    let mut level = empty_level();
    let bot = level.add_bot(BotKind::Mutant, Vec3::zero());
    level.give_new_weapon(bot, WeaponKind::Ak47, true);
    let first = Handle::new(0, 1);
    let second = Handle::new(1, 1);
    level.remove_weapon(first);
    assert_eq!(level.actors().get(bot).unwrap().weapons, vec![first, second]);
    level.give_item(bot, ItemKind::Ak47Ammo);
    assert_eq!(level.weapons().get(second).unwrap().ammo, 400);
}

#[test]
fn weapon_fires_when_loaded_and_ready() {
    let mut level = empty_level();
    let weapon = level.weapons.add(Weapon::new(WeaponKind::M4));
    level.weapons.pool.try_borrow_mut(weapon).unwrap().aim(Vec3::new(10, 20, 30), Vec3::new(5, 0, 0));
    let shoot = || Message::ShootWeapon {
        weapon,
        initial_velocity: Vec3::new(0, 100, 0),
        direction: None,
    };
    level.sender.send(shoot());
    level.sender.send(shoot());
    level.update(0, &no_events());
    let fired = level.weapons().get(weapon).unwrap();
    assert_eq!((fired.ammo, fired.cooldown), (199, 100));
    assert_eq!(level.projectiles.pool.capacity(), 1);
    assert_eq!(
        *level.projectiles.pool.at(0).unwrap(),
        Projectile {
            kind: ProjectileKind::Bullet,
            owner: weapon,
            position: Vec3::new(10, 20, 30),
            velocity: Vec3::new(75_000, 100, 0),
            lifetime: 10_000,
        }
    );
    level.update(60, &no_events());
    assert_eq!(level.weapons().get(weapon).unwrap().cooldown, 40);
    assert_eq!(level.projectiles.pool.at(0).unwrap().position, Vec3::new(4510, 26, 30));
    assert_eq!(level.projectiles.pool.at(0).unwrap().lifetime, 9940);
    level.sender.send(shoot());
    level.update(60, &no_events());
    let fired = level.weapons().get(weapon).unwrap();
    assert_eq!((fired.ammo, fired.cooldown), (198, 100));
    assert_eq!(level.projectiles.pool.capacity(), 2);
}

#[test]
fn shot_without_a_way_flies_along_the_third_axis() {
    let mut level = empty_level();
    let weapon = level.weapons.add(Weapon::new(WeaponKind::PlasmaRifle));
    level.shoot_weapon(weapon, Vec3::zero(), Some(Vec3::zero()));
    assert_eq!(level.projectiles.pool.at(0).unwrap().velocity, Vec3::new(0, 0, 12_000));
    assert_eq!(level.projectiles.pool.at(0).unwrap().kind, ProjectileKind::Plasma);
}

#[test]
fn empty_weapon_does_not_fire() {
    let mut level = empty_level();
    let weapon = level.weapons.add(Weapon::new(WeaponKind::PlasmaRifle));
    level.weapons.pool.try_borrow_mut(weapon).unwrap().ammo = 0;
    level.shoot_weapon(weapon, Vec3::zero(), None);
    assert_eq!(level.projectiles.pool.capacity(), 0);
    assert_eq!(level.weapons().get(weapon).unwrap().cooldown, 0);
}

#[test]
fn weapon_is_shown_and_hidden() {
    let mut level = empty_level();
    let weapon = level.weapons.add(Weapon::new(WeaponKind::M4));
    level.sender.send(Message::ShowWeapon { weapon, state: false });
    level.update(16, &no_events());
    assert!(!level.weapons().get(weapon).unwrap().visible);
    level.show_weapon(weapon, true);
    assert!(level.weapons().get(weapon).unwrap().visible);
}

#[test]
fn projectile_leaves_when_its_time_is_up() {
    let mut level = empty_level();
    let zero = Vec3::zero();
    level.sender.send(Message::CreateProjectile {
        kind: ProjectileKind::Rocket,
        position: zero,
        direction: Vec3::new(0, -3, 0),
        initial_velocity: zero,
        owner: Handle::none(),
    });
    level.update(16, &no_events());
    let rocket = Handle::new(0, 1);
    assert_eq!(level.projectiles.pool.try_borrow(rocket).unwrap().velocity, Vec3::new(0, -5000, 0));
    level.update(9_999, &no_events());
    assert_eq!(level.projectiles.pool.try_borrow(rocket).unwrap().position, Vec3::new(0, -49_995, 0));
    assert_eq!(level.projectiles.pool.try_borrow(rocket).unwrap().lifetime, 1);
    level.update(1, &no_events());
    assert!(level.projectiles.pool.try_borrow(rocket).is_none());
}

#[test]
fn projectile_that_hits_harms_and_is_spent() {
    let mut level = empty_level();
    let player = level.spawn_player();
    let bot = level.add_bot(BotKind::Mutant, Vec3::new(0, 0, 9000));
    let rifle = level.actors().get(player).unwrap().weapons[0];
    level.shoot_weapon(rifle, Vec3::zero(), None);
    let bullet = Handle::new(0, 1);
    assert!(level.projectiles.pool.is_valid_handle(bullet));

    let own = ProximityEvent { projectile: bullet, actor: player, intersecting: true };
    let apart = ProximityEvent { projectile: bullet, actor: bot, intersecting: false };
    let out = level.update(10, &vec![own, apart]);
    assert!(out.handled.is_empty());
    assert!(level.projectiles.pool.is_valid_handle(bullet));
    assert_eq!(health(&level, bot), 100);

    let hit = ProximityEvent { projectile: bullet, actor: bot, intersecting: true };
    let out = level.update(10, &vec![hit, hit]);
    assert_eq!(
        out.handled,
        vec![
            Message::DamageActor { actor: bot, who: player, amount: 15 },
            Message::CreateEffect { kind: EffectKind::BulletImpact, position: Vec3::new(0, 0, 750) },
            Message::DamageActor { actor: bot, who: player, amount: 15 },
            Message::CreateEffect { kind: EffectKind::BulletImpact, position: Vec3::new(0, 0, 750) },
        ]
    );
    assert!(!level.projectiles.pool.is_valid_handle(bullet));
    assert_eq!(health(&level, bot), 70);
    assert_eq!(
        level.actors().get(bot).unwrap().point_of_interest,
        Some((Vec3::new(0, 1500, 0), 20))
    );
    let out = level.update(10, &vec![hit]);
    assert!(out.handled.is_empty());
}

#[test]
fn death_zone_kills_who_is_in_it() {
    let mut level = empty_level();
    level.death_zones = vec![
        DeathZone { bounds: Aabb { min: Vec3::new(-10, -10, -10), max: Vec3::new(10, 10, 10) } },
        DeathZone { bounds: Aabb { min: Vec3::new(0, 0, 0), max: Vec3::new(50, 50, 50) } },
    ];
    let inside = level.add_bot(BotKind::Mutant, Vec3::new(5, 5, 5));
    let outside = level.add_bot(BotKind::Mutant, Vec3::new(500, 5, 5));
    let edge = level.add_bot(BotKind::Mutant, Vec3::new(50, 50, 50));
    let out = level.update(16, &no_events());
    let harm = |actor| Message::DamageActor { actor, who: Handle::none(), amount: 99999 };
    assert_eq!(out.handled, vec![harm(inside), harm(inside), harm(edge)]);
    assert_eq!(health(&level, inside), 0);
    assert_eq!(health(&level, outside), 100);
    assert_eq!(health(&level, edge), 0);
    assert!(level.sender.is_empty());
}

#[test]
fn match_does_not_end_without_a_player() {
    let mut level = empty_level();
    let bot = level.add_bot(BotKind::Mutant, Vec3::zero());
    level.damage_actor(bot, Handle::none(), 100);
    level.update(16, &no_events());
    assert!(level.sender.is_empty());
    level.update_game_ending();
    assert!(level.sender.is_empty());
}

#[test]
fn clock_runs_with_the_frames() {
    let mut level = empty_level();
    level.update(16, &no_events());
    level.update(17, &no_events());
    assert_eq!(level.time, 33);
    level.time = u64::MAX - 5;
    level.update(16, &no_events());
    assert_eq!(level.time, u64::MAX);
}

#[test]
fn player_is_told_what_its_controls_say() {
    let mut level = empty_level();
    let walking = UpperBodyMachineInput {
        is_walking: true,
        is_jumping: false,
        run_factor: 0,
        has_ground_contact: true,
        is_aiming: false,
        toss_grenade: false,
        weapon_kind: CombatWeaponKind::Pistol,
        change_weapon: false,
        is_dead: true,
        should_be_stunned: true,
    };
    level.process_input_event(walking);
    let bot = level.add_bot(BotKind::Mutant, Vec3::zero());
    level.player = bot;
    level.process_input_event(walking);
    assert!(!level.actors().get(bot).unwrap().intent.is_walking);
    let player = level.spawn_player();
    level.process_input_event(walking);
    let actor = level.actors().get(player).unwrap();
    assert_eq!(actor.intent, walking);
    let input = actor.animation_input();
    assert!(input.is_walking && !input.is_dead && !input.should_be_stunned);
    assert_eq!(input.weapon_kind, CombatWeaponKind::Pistol);
    let out = level.update(16, &no_events());
    let pose = out.poses[player.index() as usize].as_ref().unwrap();
    assert_eq!(pose.len(), 2);
    assert_eq!(
        level.actors().get(player).unwrap().animator.as_ref().unwrap().machine.phase.transition,
        Some(2)
    );
}

#[test]
fn doors_of_the_level_open_for_its_actors() {
    let mut level = empty_level();
    let door = level.doors.add(Door::new(77, vec![78], DoorState::Closed, Vec3::new(0, 0, 1000), Vec3::new(5, 0, 0)));
    level.add_bot(BotKind::Mutant, Vec3::zero());
    let out = level.update(100, &no_events());
    assert_eq!(out.doors.len(), 1);
    let command = out.doors[0].unwrap();
    assert_eq!((command.node, command.offset, command.lights.enabled), (77, 100, false));
    assert_eq!(command.position, Vec3::new(100, 0, 1000));
    assert_eq!(level.doors.doors.try_borrow(door).unwrap().state, DoorState::Opening);
}

fn node(handle: u64, name: &str, x: i32, is_mesh: bool) -> SceneNode {
    SceneNode {
        handle,
        name: String::from(name),
        position: Vec3::new(x, 0, 0),
        is_mesh,
        bounds: Aabb { min: Vec3::new(x, 0, 0), max: Vec3::new(x + 1, 1, 1) },
    }
}

#[test]
fn nodes_are_told_apart_by_the_beginning_of_their_names() {
    assert_eq!(role(&node(1, "Medkit", 0, false)), NodeRole::Item(ItemKind::Medkit));
    assert_eq!(role(&node(1, "Ammo_Ak47_3", 0, true)), NodeRole::Item(ItemKind::Ak47Ammo));
    assert_eq!(role(&node(1, "Ammo_M4", 0, false)), NodeRole::Item(ItemKind::M4Ammo));
    assert_eq!(role(&node(1, "Ammo_Plasma.001", 0, false)), NodeRole::Item(ItemKind::Plasma));
    assert_eq!(role(&node(1, "SpawnPointA", 0, false)), NodeRole::SpawnPoint);
    assert_eq!(role(&node(1, "DeathZone", 0, true)), NodeRole::DeathZone);
    assert_eq!(role(&node(1, "DeathZone", 0, false)), NodeRole::Other);
    assert_eq!(role(&node(1, "Ammo_", 0, false)), NodeRole::Other);
    assert_eq!(role(&node(1, "A Medkit", 0, false)), NodeRole::Other);
    assert_eq!(role(&node(1, "", 0, false)), NodeRole::Other);
}

fn scene() -> Vec<SceneNode> {
    vec![
        node(1, "Root", 0, false),
        node(2, "SpawnPoint1", 10, false),
        node(3, "Medkit1", 20, true),
        node(4, "DeathZone1", 30, true),
        node(5, "Ammo_M4", 40, false),
        node(6, "DeathZone2", 50, false),
        node(7, "SpawnPoint2", 60, true),
        node(8, "DeathZoneBig", 70, true),
    ]
}

#[test]
fn analysis_finds_items_spawn_points_and_death_zones() {
    let found = analyze(&scene());
    assert_eq!(found.spawn_points, vec![point(10, 0, 0), point(60, 0, 0)]);
    assert_eq!(
        found.death_zones,
        vec![
            DeathZone { bounds: Aabb { min: Vec3::new(30, 0, 0), max: Vec3::new(31, 1, 1) } },
            DeathZone { bounds: Aabb { min: Vec3::new(70, 0, 0), max: Vec3::new(71, 1, 1) } },
        ]
    );
    assert_eq!(found.hidden, vec![4, 8]);
    assert_eq!(found.items.pool.capacity(), 2);
    assert_eq!(
        *found.items.pool.try_borrow(Handle::new(0, 1)).unwrap(),
        Item { kind: ItemKind::Medkit, position: Vec3::new(20, 0, 0), lifetime: None, unsettled: false }
    );
    assert_eq!(found.items.pool.try_borrow(Handle::new(1, 1)).unwrap().kind, ItemKind::M4Ammo);
}

#[test]
fn new_level_holds_what_the_scene_holds_and_the_player() {
    let (level, hidden) = Level::new(&scene(), clip_lengths());
    assert_eq!(hidden, vec![4, 8]);
    assert_eq!(level.spawn_points.len(), 2);
    assert_eq!(level.death_zones.len(), 2);
    assert_eq!(level.items.pool.capacity(), 2);
    assert_eq!(level.time, 0);
    assert!(level.sender.is_empty());
    let player = level.get_player();
    assert_eq!(player, Handle::new(0, 1));
    assert_eq!(level.actors().get(player).unwrap().position(), Vec3::new(10, 1500, 0));
    assert_eq!(level.actors().get(player).unwrap().weapons.len(), 3);
    assert_eq!(
        level.debug_draw(),
        vec![
            DebugBox {
                bounds: Aabb { min: Vec3::new(30, 0, 0), max: Vec3::new(31, 1, 1) },
                color: Color::opaque(0, 0, 200),
            },
            DebugBox {
                bounds: Aabb { min: Vec3::new(70, 0, 0), max: Vec3::new(71, 1, 1) },
                color: Color::opaque(0, 0, 200),
            },
        ]
    );
}

#[test]
fn level_takes_another_queue() {
    let mut level = empty_level();
    level.sender.send(Message::EndMatch);
    let mut queue = MessageBus::new();
    assert!(queue.is_empty());
    queue.send(Message::SpawnPlayer);
    queue.send(Message::EndMatch);
    assert_eq!(queue.len(), 2);
    level.set_message_sender(queue);
    let out = level.update(16, &no_events());
    assert_eq!(out.handled, vec![Message::SpawnPlayer, Message::EndMatch]);
    assert_eq!(level.get_player(), Handle::new(0, 1));
}

#[test]
fn empty_level_has_nobody_in_it() {
    let level = Level::default();
    assert_eq!(level.get_player(), Handle::none());
    assert_eq!(level.actors().capacity(), 0);
    assert_eq!(level.weapons().pool.capacity(), 0);
    assert_eq!(level.time, 0);
    assert_eq!(SpawnPoint::default(), point(0, 0, 0));
    assert_eq!(DeathZone::default().bounds, Aabb { min: Vec3::zero(), max: Vec3::zero() });
}

#[test]
fn actors_and_weapons_are_told_what_the_scene_says() {
    let mut level = empty_level();
    let bot = level.add_bot(BotKind::Mutant, Vec3::zero());
    let rifle = level.actors().get(bot).unwrap().weapons[0];
    let walking = UpperBodyMachineInput {
        is_walking: true,
        is_jumping: false,
        run_factor: 500,
        has_ground_contact: true,
        is_aiming: false,
        toss_grenade: false,
        weapon_kind: CombatWeaponKind::Rifle,
        change_weapon: false,
        is_dead: false,
        should_be_stunned: false,
    };
    level.steer_actor(bot, Vec3::new(1, 2, 3), walking);
    level.steer_actor(Handle::new(9, 9), Vec3::new(1, 2, 3), walking);
    level.aim_weapon(rifle, Vec3::new(1, 1502, 3), Vec3::new(0, 0, -2));
    level.aim_weapon(Handle::new(9, 9), Vec3::zero(), Vec3::zero());
    let actor = level.actors().get(bot).unwrap();
    assert_eq!((actor.position(), actor.intent, actor.health), (Vec3::new(1, 2, 3), walking, 100));
    level.shoot_weapon(rifle, Vec3::zero(), None);
    assert_eq!(
        *level.projectiles.pool.at(0).unwrap(),
        Projectile {
            kind: ProjectileKind::Bullet,
            owner: rifle,
            position: Vec3::new(1, 1502, 3),
            velocity: Vec3::new(0, 0, -75_000),
            lifetime: 10_000,
        }
    );
    level.update(16, &no_events());
    assert_eq!(
        level.actors().get(bot).unwrap().animator.as_ref().unwrap().machine.phase.transition,
        Some(2)
    );
}
