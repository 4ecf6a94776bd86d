use megablast::game::shop::{
    buy, sell, Item, Shop, ShopError, CANNON_PRICES, DRONE_PRICE, EXTRA_LIFE_PRICE, MAX_DRONES,
    REAR_SHOT_PRICE, REPAIR_PRICE, SIDE_SHOTS_PRICE,
};
use megablast::game::weapons::Loadout;

fn full_loadout(cash: u32) -> (Shop, Loadout, u32, u32, u32) {
    (Shop { cash }, Loadout::default(), 3, 100, 100)
}

#[test]
fn buy_cannon_success_and_price_progression() {
    let (mut shop, mut loadout, mut lives, mut hp, max_hp) = full_loadout(300);
    assert_eq!(
        buy(
            &mut shop,
            &mut loadout,
            &mut lives,
            &mut hp,
            max_hp,
            Item::Cannon
        ),
        Ok(())
    );
    assert_eq!(loadout.cannon_tier, 2);
    assert_eq!(shop.cash, 0);
}

#[test]
fn buy_cannon_insufficient_funds() {
    let (mut shop, mut loadout, mut lives, mut hp, max_hp) = full_loadout(299);
    assert_eq!(
        buy(
            &mut shop,
            &mut loadout,
            &mut lives,
            &mut hp,
            max_hp,
            Item::Cannon
        ),
        Err(ShopError::InsufficientFunds)
    );
    assert_eq!(loadout.cannon_tier, 1);
    assert_eq!(shop.cash, 299);
}

#[test]
fn buy_cannon_max_tier() {
    let (mut shop, mut loadout, mut lives, mut hp, max_hp) = full_loadout(u32::MAX);
    loadout.cannon_tier = 4;
    assert_eq!(
        buy(
            &mut shop,
            &mut loadout,
            &mut lives,
            &mut hp,
            max_hp,
            Item::Cannon
        ),
        Err(ShopError::MaxTier)
    );
    assert_eq!(loadout.cannon_tier, 4);
}

#[test]
fn buy_side_shots_success_and_already_owned() {
    let (mut shop, mut loadout, mut lives, mut hp, max_hp) = full_loadout(SIDE_SHOTS_PRICE);
    assert_eq!(
        buy(
            &mut shop,
            &mut loadout,
            &mut lives,
            &mut hp,
            max_hp,
            Item::SideShots
        ),
        Ok(())
    );
    assert!(loadout.has_side);
    assert_eq!(shop.cash, 0);
    shop.cash = SIDE_SHOTS_PRICE;
    assert_eq!(
        buy(
            &mut shop,
            &mut loadout,
            &mut lives,
            &mut hp,
            max_hp,
            Item::SideShots
        ),
        Err(ShopError::AlreadyOwned)
    );
}

#[test]
fn buy_side_shots_insufficient_funds() {
    let (mut shop, mut loadout, mut lives, mut hp, max_hp) = full_loadout(SIDE_SHOTS_PRICE - 1);
    assert_eq!(
        buy(
            &mut shop,
            &mut loadout,
            &mut lives,
            &mut hp,
            max_hp,
            Item::SideShots
        ),
        Err(ShopError::InsufficientFunds)
    );
    assert!(!loadout.has_side);
}

#[test]
fn buy_rear_shot_success_and_already_owned() {
    let (mut shop, mut loadout, mut lives, mut hp, max_hp) = full_loadout(REAR_SHOT_PRICE);
    assert_eq!(
        buy(
            &mut shop,
            &mut loadout,
            &mut lives,
            &mut hp,
            max_hp,
            Item::RearShot
        ),
        Ok(())
    );
    assert!(loadout.has_rear);
    shop.cash = REAR_SHOT_PRICE;
    assert_eq!(
        buy(
            &mut shop,
            &mut loadout,
            &mut lives,
            &mut hp,
            max_hp,
            Item::RearShot
        ),
        Err(ShopError::AlreadyOwned)
    );
}

#[test]
fn buy_rear_shot_insufficient_funds() {
    let (mut shop, mut loadout, mut lives, mut hp, max_hp) = full_loadout(REAR_SHOT_PRICE - 1);
    assert_eq!(
        buy(
            &mut shop,
            &mut loadout,
            &mut lives,
            &mut hp,
            max_hp,
            Item::RearShot
        ),
        Err(ShopError::InsufficientFunds)
    );
    assert!(!loadout.has_rear);
}

#[test]
fn buy_drone_success_and_max_drones() {
    let (mut shop, mut loadout, mut lives, mut hp, max_hp) = full_loadout(DRONE_PRICE * 2);
    assert_eq!(
        buy(
            &mut shop,
            &mut loadout,
            &mut lives,
            &mut hp,
            max_hp,
            Item::Drone
        ),
        Ok(())
    );
    assert_eq!(
        buy(
            &mut shop,
            &mut loadout,
            &mut lives,
            &mut hp,
            max_hp,
            Item::Drone
        ),
        Ok(())
    );
    assert_eq!(loadout.drones, MAX_DRONES);
    assert_eq!(
        buy(
            &mut shop,
            &mut loadout,
            &mut lives,
            &mut hp,
            max_hp,
            Item::Drone
        ),
        Err(ShopError::MaxDrones)
    );
}

#[test]
fn buy_drone_insufficient_funds() {
    let (mut shop, mut loadout, mut lives, mut hp, max_hp) = full_loadout(DRONE_PRICE - 1);
    assert_eq!(
        buy(
            &mut shop,
            &mut loadout,
            &mut lives,
            &mut hp,
            max_hp,
            Item::Drone
        ),
        Err(ShopError::InsufficientFunds)
    );
    assert_eq!(loadout.drones, 0);
}

#[test]
fn buy_repair_heals_and_caps_at_max_hp() {
    let (mut shop, mut loadout, mut lives, _, max_hp) = full_loadout(REPAIR_PRICE);
    let mut hp = 90;
    assert_eq!(
        buy(
            &mut shop,
            &mut loadout,
            &mut lives,
            &mut hp,
            max_hp,
            Item::Repair
        ),
        Ok(())
    );
    // 90 + 25% of 100 = 115, capped at 100.
    assert_eq!(hp, 100);
    assert_eq!(shop.cash, 0);
}

#[test]
fn buy_repair_insufficient_funds() {
    let (mut shop, mut loadout, mut lives, mut hp, max_hp) = full_loadout(REPAIR_PRICE - 1);
    assert_eq!(
        buy(
            &mut shop,
            &mut loadout,
            &mut lives,
            &mut hp,
            max_hp,
            Item::Repair
        ),
        Err(ShopError::InsufficientFunds)
    );
    assert_eq!(hp, 100);
}

#[test]
fn buy_extra_life_success() {
    let (mut shop, mut loadout, mut lives, mut hp, max_hp) = full_loadout(EXTRA_LIFE_PRICE);
    assert_eq!(
        buy(
            &mut shop,
            &mut loadout,
            &mut lives,
            &mut hp,
            max_hp,
            Item::ExtraLife
        ),
        Ok(())
    );
    assert_eq!(lives, 4);
    assert_eq!(shop.cash, 0);
}

#[test]
fn buy_extra_life_insufficient_funds() {
    let (mut shop, mut loadout, mut lives, mut hp, max_hp) = full_loadout(EXTRA_LIFE_PRICE - 1);
    assert_eq!(
        buy(
            &mut shop,
            &mut loadout,
            &mut lives,
            &mut hp,
            max_hp,
            Item::ExtraLife
        ),
        Err(ShopError::InsufficientFunds)
    );
    assert_eq!(lives, 3);
}

#[test]
fn sell_cannon_success_and_not_owned_at_tier_one() {
    let mut shop = Shop { cash: 0 };
    let mut loadout = Loadout {
        cannon_tier: 2,
        ..Loadout::default()
    };
    assert_eq!(sell(&mut shop, &mut loadout, Item::Cannon), Ok(()));
    assert_eq!(loadout.cannon_tier, 1);
    assert_eq!(shop.cash, CANNON_PRICES[0] / 2);
    assert_eq!(
        sell(&mut shop, &mut loadout, Item::Cannon),
        Err(ShopError::NotOwned)
    );
}

#[test]
fn sell_side_shots_success_and_not_owned() {
    let mut shop = Shop { cash: 0 };
    let mut loadout = Loadout {
        has_side: true,
        ..Loadout::default()
    };
    assert_eq!(sell(&mut shop, &mut loadout, Item::SideShots), Ok(()));
    assert!(!loadout.has_side);
    assert_eq!(shop.cash, SIDE_SHOTS_PRICE / 2);
    assert_eq!(
        sell(&mut shop, &mut loadout, Item::SideShots),
        Err(ShopError::NotOwned)
    );
}

#[test]
fn sell_rear_shot_success_and_not_owned() {
    let mut shop = Shop { cash: 0 };
    let mut loadout = Loadout {
        has_rear: true,
        ..Loadout::default()
    };
    assert_eq!(sell(&mut shop, &mut loadout, Item::RearShot), Ok(()));
    assert!(!loadout.has_rear);
    assert_eq!(shop.cash, REAR_SHOT_PRICE / 2);
    assert_eq!(
        sell(&mut shop, &mut loadout, Item::RearShot),
        Err(ShopError::NotOwned)
    );
}

#[test]
fn sell_drone_success_and_not_owned() {
    let mut shop = Shop { cash: 0 };
    let mut loadout = Loadout {
        drones: 1,
        ..Loadout::default()
    };
    assert_eq!(sell(&mut shop, &mut loadout, Item::Drone), Ok(()));
    assert_eq!(loadout.drones, 0);
    assert_eq!(shop.cash, DRONE_PRICE / 2);
    assert_eq!(
        sell(&mut shop, &mut loadout, Item::Drone),
        Err(ShopError::NotOwned)
    );
}

#[test]
fn sell_repair_and_extra_life_are_never_owned() {
    let mut shop = Shop { cash: 0 };
    let mut loadout = Loadout::default();
    assert_eq!(
        sell(&mut shop, &mut loadout, Item::Repair),
        Err(ShopError::NotOwned)
    );
    assert_eq!(
        sell(&mut shop, &mut loadout, Item::ExtraLife),
        Err(ShopError::NotOwned)
    );
}
