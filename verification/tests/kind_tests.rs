use shooter_core::actor::{ActorKind, BotKind};
use shooter_core::item::ItemKind;
use shooter_core::projectile::ProjectileKind;
use shooter_core::weapon::WeaponKind;

#[test]
fn weapon_kinds_are_read_back_from_their_numbers() {
    let kinds = [WeaponKind::M4, WeaponKind::Ak47, WeaponKind::PlasmaRifle];
    for (number, kind) in kinds.into_iter().enumerate() {
        assert_eq!(kind.id(), number as u32);
        assert_eq!(WeaponKind::from_id(kind.id()), Ok(kind));
    }
    assert_eq!(WeaponKind::from_id(3), Err(String::from("Invalid weapon kind id 3!")));
}

#[test]
fn projectile_kinds_are_read_back_from_their_numbers() {
    let kinds = [ProjectileKind::Plasma, ProjectileKind::Bullet, ProjectileKind::Rocket];
    for (number, kind) in kinds.into_iter().enumerate() {
        assert_eq!(kind.id(), number as u32);
        assert_eq!(ProjectileKind::from_id(kind.id()), Ok(kind));
    }
    assert_eq!(
        ProjectileKind::from_id(77),
        Err(String::from("Invalid projectile kind id 77!"))
    );
}

#[test]
fn item_kinds_are_read_back_from_their_numbers() {
    let kinds = [
        ItemKind::Medkit,
        ItemKind::Plasma,
        ItemKind::Ak47Ammo,
        ItemKind::M4Ammo,
        ItemKind::Ak47,
        ItemKind::PlasmaGun,
        ItemKind::M4,
        ItemKind::RocketLauncher,
    ];
    for (number, kind) in kinds.into_iter().enumerate() {
        assert_eq!(kind.id(), number as u32);
        assert_eq!(ItemKind::from_id(kind.id()), Ok(kind));
    }
    assert_eq!(ItemKind::from_id(8), Err(String::from("Invalid item kind id 8!")));
    assert_eq!(
        ItemKind::from_id(u32::MAX),
        Err(String::from("Invalid item kind id 4294967295!"))
    );
}

#[test]
fn actor_kinds_are_read_back_from_their_numbers() {
    let kinds = [
        ActorKind::Player,
        ActorKind::Bot(BotKind::Mutant),
        ActorKind::Bot(BotKind::Parasite),
        ActorKind::Bot(BotKind::Maw),
    ];
    for (number, kind) in kinds.into_iter().enumerate() {
        assert_eq!(kind.id(), number as u32);
        assert_eq!(ActorKind::from_id(kind.id()), Ok(kind));
    }
    assert_eq!(ActorKind::from_id(4), Err(String::from("Invalid actor kind id 4!")));
}
