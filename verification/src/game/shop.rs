//! Shop economy: buying and selling weapon-tree items, repairs and extra
//! lives with the cash collected from enemy drops.

use vstd::prelude::*;

use super::weapons::{Loadout, MAX_CANNON_TIER};

verus! {

#[derive(Debug, Clone, Copy, PartialEq, Eq, Structural)]
pub enum Item {
    Cannon,
    SideShots,
    RearShot,
    Drone,
    Repair,
    ExtraLife,
}

#[derive(Debug, Clone, Copy, PartialEq, Eq, Structural)]
pub enum ShopError {
    InsufficientFunds,
    MaxTier,
    AlreadyOwned,
    NotOwned,
    MaxDrones,
}

/// Cannon upgrade price by the tier being upgraded from (index `tier - 1`).
pub const CANNON_PRICES: [u32; 3] = [300, 600, 1000];
pub const SIDE_SHOTS_PRICE: u32 = 400;
pub const REAR_SHOT_PRICE: u32 = 250;
pub const DRONE_PRICE: u32 = 500;
pub const REPAIR_PRICE: u32 = 150;
/// A repair restores this percentage of the maximum hit points.
pub const REPAIR_PERCENT: u32 = 25;
pub const EXTRA_LIFE_PRICE: u32 = 900;
/// Most drones the ship can carry.
pub const MAX_DRONES: u8 = 2;

#[derive(Debug, Clone)]
pub struct Shop {
    pub cash: u32,
}

impl Default for Shop {
    fn default() -> (s: Self)
        ensures
            s.cash == 0,
    {
        Shop { cash: 0 }
    }
}

/// Price to upgrade the cannon from `tier`; none from tier 4 (the top) up.
pub open spec fn cannon_price_spec(tier: int) -> Option<u32> {
    if tier == 1 {
        Some(300u32)
    } else if tier == 2 {
        Some(600u32)
    } else if tier == 3 {
        Some(1000u32)
    } else {
        None
    }
}

/// Price to upgrade the cannon from its current tier, or `None` if already
/// at the max tier (4).
pub fn cannon_price(tier: u8) -> (p: Option<u32>)
    requires
        tier >= 1,
    ensures
        p == cannon_price_spec(tier as int),
{
    let i: usize = (tier - 1) as usize;
    if i < CANNON_PRICES.len() {
        Some(CANNON_PRICES[i])
    } else {
        None
    }
}


/// What buying `item` with `loadout` would cost, or why it is refused before
/// cash is even looked at.
pub open spec fn buy_price(l: Loadout, item: Item) -> Result<u32, ShopError> {
    match item {
        Item::Cannon => match cannon_price_spec(l.cannon_tier as int) {
            Some(p) => Ok(p),
            None => Err(ShopError::MaxTier),
        },
        Item::SideShots => if l.has_side {
            Err(ShopError::AlreadyOwned)
        } else {
            Ok(SIDE_SHOTS_PRICE)
        },
        Item::RearShot => if l.has_rear {
            Err(ShopError::AlreadyOwned)
        } else {
            Ok(REAR_SHOT_PRICE)
        },
        Item::Drone => if l.drones >= MAX_DRONES {
            Err(ShopError::MaxDrones)
        } else {
            Ok(DRONE_PRICE)
        },
        Item::Repair => Ok(REPAIR_PRICE),
        Item::ExtraLife => Ok(EXTRA_LIFE_PRICE),
    }
}

/// The loadout after buying `item`.
pub open spec fn bought(l: Loadout, item: Item) -> Loadout {
    match item {
        Item::Cannon => Loadout { cannon_tier: (l.cannon_tier + 1) as u8, ..l },
        Item::SideShots => Loadout { has_side: true, ..l },
        Item::RearShot => Loadout { has_rear: true, ..l },
        Item::Drone => Loadout { drones: (l.drones + 1) as u8, ..l },
        _ => l,
    }
}

/// Hit points after a repair: a quarter of `max_hp` more, capped at
/// `max_hp`. Hit points are whole numbers, so the quarter is rounded down
/// (`max_hp * 25 / 100`); for the game's `MAX_HP` of 100 it is exactly 25.
pub open spec fn repaired_hp(hp: u32, max_hp: u32) -> u32 {
    let heal: int = max_hp * REPAIR_PERCENT / 100;
    if hp + heal > max_hp {
        max_hp
    } else {
        (hp + heal) as u32
    }
}

/// The price an owned `item` was bought at (it sells for half), or why it
/// cannot be sold. Repairs and extra lives are used up at once, so they are
/// never owned.
pub open spec fn sell_price(l: Loadout, item: Item) -> Result<u32, ShopError> {
    match item {
        Item::Cannon => if l.cannon_tier <= 1 {
            Err(ShopError::NotOwned)
        } else {
            Ok(cannon_price_spec(l.cannon_tier - 1).unwrap())
        },
        Item::SideShots => if !l.has_side {
            Err(ShopError::NotOwned)
        } else {
            Ok(SIDE_SHOTS_PRICE)
        },
        Item::RearShot => if !l.has_rear {
            Err(ShopError::NotOwned)
        } else {
            Ok(REAR_SHOT_PRICE)
        },
        Item::Drone => if l.drones == 0 {
            Err(ShopError::NotOwned)
        } else {
            Ok(DRONE_PRICE)
        },
        Item::Repair | Item::ExtraLife => Err(ShopError::NotOwned),
    }
}

/// The loadout after selling `item`.
pub open spec fn sold(l: Loadout, item: Item) -> Loadout {
    match item {
        Item::Cannon => Loadout { cannon_tier: (l.cannon_tier - 1) as u8, ..l },
        Item::SideShots => Loadout { has_side: false, ..l },
        Item::RearShot => Loadout { has_rear: false, ..l },
        Item::Drone => Loadout { drones: (l.drones - 1) as u8, ..l },
        _ => l,
    }
}

/// The outcome of buying `item` with `cash`, the loadout `l`, `lives` and
/// `hp` hit points out of `max_hp`: the result, then cash, loadout, lives and
/// hit points afterwards. A refusal (the item cannot be bought, or costs more
/// than `cash`) changes nothing; a purchase pays the price and applies the
/// item.
pub open spec fn buy_effect(cash: u32, l: Loadout, lives: u32, hp: u32, max_hp: u32, item: Item) -> (
    Result<(), ShopError>,
    u32,
    Loadout,
    u32,
    u32,
) {
    match buy_price(l, item) {
        Err(e) => (Err(e), cash, l, lives, hp),
        Ok(p) => if cash < p {
            (Err(ShopError::InsufficientFunds), cash, l, lives, hp)
        } else {
            (
                Ok(()),
                (cash - p) as u32,
                bought(l, item),
                if item == Item::ExtraLife { (lives + 1) as u32 } else { lives },
                if item == Item::Repair { repaired_hp(hp, max_hp) } else { hp },
            )
        },
    }
}

/// Buys `item`, mutating `loadout`/`lives`/`player_hp` and `shop.cash` on
/// success (a repair heals a quarter of `max_hp`, rounded down to whole hit
/// points). Refused purchases change nothing.
pub fn buy(
    shop: &mut Shop,
    loadout: &mut Loadout,
    lives: &mut u32,
    player_hp: &mut u32,
    max_hp: u32,
    item: Item,
) -> (r: Result<(), ShopError>)
    requires
        item == Item::Cannon ==> old(loadout).cannon_tier >= 1,
        item == Item::ExtraLife && old(shop).cash >= EXTRA_LIFE_PRICE ==> *old(lives) < u32::MAX,
    ensures
        (r, final(shop).cash, *final(loadout), *final(lives), *final(player_hp)) == buy_effect(
            old(shop).cash,
            *old(loadout),
            *old(lives),
            *old(player_hp),
            max_hp,
            item,
        ),
        old(loadout).wf() ==> final(loadout).wf(),
{
    let price: u32 = match item {
        Item::Cannon => match cannon_price(loadout.cannon_tier) {
            Some(p) => p,
            None => return Err(ShopError::MaxTier),
        },
        Item::SideShots => {
            if loadout.has_side {
                return Err(ShopError::AlreadyOwned);
            }
            SIDE_SHOTS_PRICE
        },
        Item::RearShot => {
            if loadout.has_rear {
                return Err(ShopError::AlreadyOwned);
            }
            REAR_SHOT_PRICE
        },
        Item::Drone => {
            if loadout.drones >= MAX_DRONES {
                return Err(ShopError::MaxDrones);
            }
            DRONE_PRICE
        },
        Item::Repair => REPAIR_PRICE,
        Item::ExtraLife => EXTRA_LIFE_PRICE,
    };
    if shop.cash < price {
        return Err(ShopError::InsufficientFunds);
    }
    shop.cash = shop.cash - price;
    match item {
        Item::Cannon => loadout.cannon_tier = loadout.cannon_tier + 1,
        Item::SideShots => loadout.has_side = true,
        Item::RearShot => loadout.has_rear = true,
        Item::Drone => loadout.drones = loadout.drones + 1,
        Item::Repair => {
            let heal: u64 = (max_hp as u64) * (REPAIR_PERCENT as u64) / 100;
            let healed: u64 = (*player_hp as u64) + heal;
            *player_hp = if healed > max_hp as u64 { max_hp } else { healed as u32 };
        },
        Item::ExtraLife => *lives = *lives + 1,
    }
    Ok(())
}

/// The refund (half the price) selling `item` would pay, or `None` when it
/// is not owned.
pub fn sell_refund(loadout: &Loadout, item: Item) -> (r: Option<u32>)
    requires
        item == Item::Cannon ==> loadout.cannon_tier <= MAX_CANNON_TIER,
    ensures
        r == (match sell_price(*loadout, item) {
            Ok(p) => Some((p / 2) as u32),
            Err(_) => None::<u32>,
        }),
{
    let price: u32 = match item {
        Item::Cannon => {
            if loadout.cannon_tier <= 1 {
                return None;
            }
            match cannon_price(loadout.cannon_tier - 1) {
                Some(p) => p,
                None => return None,
            }
        },
        Item::SideShots => {
            if !loadout.has_side {
                return None;
            }
            SIDE_SHOTS_PRICE
        },
        Item::RearShot => {
            if !loadout.has_rear {
                return None;
            }
            REAR_SHOT_PRICE
        },
        Item::Drone => {
            if loadout.drones == 0 {
                return None;
            }
            DRONE_PRICE
        },
        Item::Repair | Item::ExtraLife => return None,
    };
    Some(price / 2)
}

/// The outcome of selling `item` with `cash` and the loadout `l`: the
/// result, then cash and loadout afterwards. A refusal changes nothing; a
/// sale refunds half the price and removes the item.
pub open spec fn sell_effect(cash: u32, l: Loadout, item: Item) -> (Result<(), ShopError>, u32, Loadout) {
    match sell_price(l, item) {
        Err(e) => (Err(e), cash, l),
        Ok(p) => (Ok(()), (cash + p / 2) as u32, sold(l, item)),
    }
}

/// Sells `item` back at half its price into `shop.cash`. `Repair` and
/// `ExtraLife` are consumed instantly rather than owned, so they can never
/// be sold back -- always `NotOwned`. Refused sales change nothing.
pub fn sell(shop: &mut Shop, loadout: &mut Loadout, item: Item) -> (r: Result<(), ShopError>)
    requires
        item == Item::Cannon ==> old(loadout).cannon_tier <= MAX_CANNON_TIER,
        sell_price(*old(loadout), item) is Ok ==> old(shop).cash + sell_price(*old(loadout), item)->Ok_0 / 2
            <= u32::MAX,
    ensures
        (r, final(shop).cash, *final(loadout)) == sell_effect(old(shop).cash, *old(loadout), item),
        old(loadout).wf() ==> final(loadout).wf(),
{
    let price: u32 = match item {
        Item::Cannon => {
            if loadout.cannon_tier <= 1 {
                return Err(ShopError::NotOwned);
            }
            match cannon_price(loadout.cannon_tier - 1) {
                Some(p) => p,
                None => return Err(ShopError::NotOwned),
            }
        },
        Item::SideShots => {
            if !loadout.has_side {
                return Err(ShopError::NotOwned);
            }
            SIDE_SHOTS_PRICE
        },
        Item::RearShot => {
            if !loadout.has_rear {
                return Err(ShopError::NotOwned);
            }
            REAR_SHOT_PRICE
        },
        Item::Drone => {
            if loadout.drones == 0 {
                return Err(ShopError::NotOwned);
            }
            DRONE_PRICE
        },
        Item::Repair | Item::ExtraLife => return Err(ShopError::NotOwned),
    };
    shop.cash = shop.cash + price / 2;
    match item {
        Item::Cannon => loadout.cannon_tier = loadout.cannon_tier - 1,
        Item::SideShots => loadout.has_side = false,
        Item::RearShot => loadout.has_rear = false,
        Item::Drone => loadout.drones = loadout.drones - 1,
        Item::Repair | Item::ExtraLife => {},
    }
    Ok(())
}


/// Items that stay in the loadout once bought, and so can be sold back.
pub open spec fn ownable(item: Item) -> bool {
    item != Item::Repair && item != Item::ExtraLife
}

/// Buying an ownable item and selling it straight back restores the loadout
/// and refunds half the price: the round trip costs `price - price / 2`.
pub proof fn lemma_buy_then_sell(l: Loadout, item: Item)
    requires
        l.wf(),
        ownable(item),
        buy_price(l, item) is Ok,
    ensures
        sell_price(bought(l, item), item) == buy_price(l, item),
        sold(bought(l, item), item) == l,
        bought(l, item).wf(),
{
}

/// Selling an owned item and buying it straight back restores the loadout,
/// at the same price it sold for twice over.
pub proof fn lemma_sell_then_buy(l: Loadout, item: Item)
    requires
        l.wf(),
        sell_price(l, item) is Ok,
    ensures
        ownable(item),
        buy_price(sold(l, item), item) == sell_price(l, item),
        bought(sold(l, item), item) == l,
        sold(l, item).wf(),
{
}

/// Repairs and extra lives are never owned, so never sold.
pub proof fn lemma_consumables_never_sold(l: Loadout)
    ensures
        sell_price(l, Item::Repair) == Err::<u32, ShopError>(ShopError::NotOwned),
        sell_price(l, Item::ExtraLife) == Err::<u32, ShopError>(ShopError::NotOwned),
{
}

/// A repair heals a quarter of the maximum, capped at the maximum: it never
/// overshoots, and never lowers hit points that were within the maximum.
pub proof fn lemma_repair_caps_at_max(hp: u32, max_hp: u32)
    ensures
        repaired_hp(hp, max_hp) <= max_hp,
        hp <= max_hp ==> repaired_hp(hp, max_hp) >= hp,
        hp + max_hp * REPAIR_PERCENT / 100 <= max_hp ==> repaired_hp(hp, max_hp) == hp + max_hp
            * REPAIR_PERCENT / 100,
{
}

/// The cannon upgrade from tier `t` (1 to 3) costs `CANNON_PRICES[t - 1]`
/// -- 300, 600, then 1000 -- and there is none from tier 4: a purchase at
/// tier `t` succeeds exactly when the cash covers that price, takes exactly
/// that much, and raises the tier by one.
pub proof fn lemma_cannon_upgrade_prices(l: Loadout, cash: u32, lives: u32, hp: u32, max_hp: u32)
    requires
        l.wf(),
    ensures
        l.cannon_tier < MAX_CANNON_TIER ==> buy_price(l, Item::Cannon) == Ok::<u32, ShopError>(
            CANNON_PRICES[l.cannon_tier - 1],
        ),
        l.cannon_tier == MAX_CANNON_TIER ==> buy_price(l, Item::Cannon) == Err::<u32, ShopError>(ShopError::MaxTier),
        CANNON_PRICES[0] < CANNON_PRICES[1] < CANNON_PRICES[2],
        CANNON_PRICES[2] == 1000,
        ({
            let e = buy_effect(cash, l, lives, hp, max_hp, Item::Cannon);
            l.cannon_tier < MAX_CANNON_TIER ==> {
                &&& (e.0 is Ok <==> cash >= CANNON_PRICES[l.cannon_tier - 1])
                &&& e.0 is Ok ==> e.1 == cash - CANNON_PRICES[l.cannon_tier - 1] && e.2.cannon_tier == l.cannon_tier + 1
                &&& e.0 is Err ==> e.0 == Err::<(), ShopError>(ShopError::InsufficientFunds) && e.1 == cash
            }
        }),
{
}

} // verus!
