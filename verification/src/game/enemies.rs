//! Enemy hit points, scores, kills, and the credit pickups they drop.

use vstd::prelude::*;

use crate::levels::EnemyKind;

verus! {

/// Radius of an enemy's hitbox, pixels.
pub const RADIUS: u32 = 14;
/// Radius of an enemy bullet, pixels.
pub const BULLET_RADIUS: u32 = 3;
/// Credit pickups fall at this speed, pixels per second.
pub const PICKUP_FALL_SPEED: u32 = 100;
/// Radius of a credit pickup, pixels.
pub const PICKUP_RADIUS: u32 = 6;
/// One popcorn kill in this many drops a pickup (20%).
pub const POPCORN_DROP_ONE_IN: u32 = 5;

pub open spec fn max_hp_spec(kind: EnemyKind) -> i32 {
    match kind {
        EnemyKind::Popcorn => 10,
        EnemyKind::Diver => 20,
        EnemyKind::Weaver => 30,
        EnemyKind::Turret => 40,
        EnemyKind::Boss => 1200,
    }
}

pub open spec fn score_value_spec(kind: EnemyKind) -> u32 {
    match kind {
        EnemyKind::Popcorn => 50,
        EnemyKind::Diver => 100,
        EnemyKind::Weaver => 120,
        EnemyKind::Turret => 150,
        EnemyKind::Boss => 5000,
    }
}

/// Credits a kill is worth: a tenth of its score.
pub open spec fn credit_value_spec(kind: EnemyKind) -> u32 {
    score_value_spec(kind) / 10
}

/// Hit points a freshly spawned enemy of `kind` has.
pub fn max_hp(kind: EnemyKind) -> (hp: i32)
    ensures
        hp == max_hp_spec(kind),
{
    match kind {
        EnemyKind::Popcorn => 10,
        EnemyKind::Diver => 20,
        EnemyKind::Weaver => 30,
        EnemyKind::Turret => 40,
        EnemyKind::Boss => 1200,
    }
}

/// Points a kill of `kind` scores.
pub fn score_value(kind: EnemyKind) -> (s: u32)
    ensures
        s == score_value_spec(kind),
{
    match kind {
        EnemyKind::Popcorn => 50,
        EnemyKind::Diver => 100,
        EnemyKind::Weaver => 120,
        EnemyKind::Turret => 150,
        EnemyKind::Boss => 5000,
    }
}

/// Credits a kill of `kind` is worth: a tenth of its score.
pub fn credit_value(kind: EnemyKind) -> (c: u32)
    ensures
        c == credit_value_spec(kind),
{
    score_value(kind) / 10
}

/// Applies `dmg` to an enemy of `kind` with `hp` hit points. If that brings
/// it to zero or below, it dies and the credits it is worth come back;
/// otherwise `None`.
pub fn apply_damage(kind: EnemyKind, hp: &mut i32, dmg: i32) -> (death: Option<u32>)
    requires
        i32::MIN <= *old(hp) - dmg <= i32::MAX,
    ensures
        *final(hp) == *old(hp) - dmg,
        death == (if *final(hp) <= 0 { Some(credit_value_spec(kind)) } else { None }),
{
    *hp = *hp - dmg;
    if *hp <= 0 {
        Some(credit_value(kind))
    } else {
        None
    }
}

/// Whether a kill drops its credits, given a roll of the dice: every kill
/// but popcorn always drops; popcorn drops on one roll in five.
pub open spec fn drops_for_roll(kind: EnemyKind, roll: u32) -> bool {
    kind != EnemyKind::Popcorn || roll % POPCORN_DROP_ONE_IN == 0
}

/// The pickup value a kill of `kind` worth `credit_value` leaves for a given
/// roll: `Some(credit_value)` when it drops, `None` otherwise.
pub fn drop_for_roll(kind: EnemyKind, credit_value: u32, roll: u32) -> (value: Option<u32>)
    ensures
        value == (if drops_for_roll(kind, roll) { Some(credit_value) } else { None }),
{
    let drops = match kind {
        EnemyKind::Popcorn => roll % POPCORN_DROP_ONE_IN == 0,
        _ => true,
    };
    if drops {
        Some(credit_value)
    } else {
        None
    }
}

/// Calls `rand::random::<u32>()`, a value from the thread-local generator.
/// Nothing is promised of the value: any `u32` may come back.
#[verifier::external_body]
fn random_roll() -> (roll: u32) {
    rand::random::<u32>()
}

/// Drop table: 20% of popcorn kills, every other kill, leave a pickup worth
/// `credit_value`; the popcorn roll comes from the thread-local generator.
pub fn maybe_drop(kind: EnemyKind, credit_value: u32) -> (value: Option<u32>)
    ensures
        value == None::<u32> || value == Some(credit_value),
        kind != EnemyKind::Popcorn ==> value == Some(credit_value),
{
    let roll: u32 = random_roll();
    drop_for_roll(kind, credit_value, roll)
}

/// Every enemy but popcorn drops with certainty; popcorn drops on exactly
/// one residue of the roll out of five.
pub proof fn lemma_drop_table(kind: EnemyKind, roll: u32)
    ensures
        kind != EnemyKind::Popcorn ==> drops_for_roll(kind, roll),
        kind == EnemyKind::Popcorn ==> (drops_for_roll(kind, roll) <==> roll % 5 == 0),
{
}

/// A kill is worth a tenth of its score in credits, and every fresh enemy
/// has hit points to lose.
pub proof fn lemma_kill_values(kind: EnemyKind)
    ensures
        credit_value_spec(kind) * 10 == score_value_spec(kind),
        max_hp_spec(kind) > 0,
{
}

} // verus!
