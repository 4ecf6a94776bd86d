//! Weapon tree: main cannon tiers 1-4, side and rear shots, drones, and
//! which projectiles each volley fires. Durations are in microseconds.

use vstd::prelude::*;

use super::shop::MAX_DRONES;

verus! {

/// Damage of one main-cannon, side or rear projectile.
pub const CANNON_DAMAGE: u32 = 10;
/// Damage of one drone projectile.
pub const DRONE_DAMAGE: u32 = 10;
/// Radius of a player projectile, pixels.
pub const SHOT_RADIUS: u32 = 4;
/// Projectile speed, pixels per second.
pub const PROJECTILE_SPEED: u32 = 520;
/// Six volleys per second, at every tier (microseconds between volleys).
pub const FIRE_INTERVAL_US: u32 = 166_667;
/// Two shots per second per drone (microseconds between drone shots).
pub const DRONE_FIRE_INTERVAL_US: u32 = 500_000;
/// Highest main-cannon tier.
pub const MAX_CANNON_TIER: u8 = 4;

/// The ship's weapon tree plus its two firing cooldowns.
#[derive(Debug, Clone, Copy, PartialEq, Eq, Structural)]
pub struct Loadout {
    /// 1..=4
    pub cannon_tier: u8,
    pub has_side: bool,
    pub has_rear: bool,
    /// 0..=2
    pub drones: u8,
    /// Microseconds until the next volley may fire.
    pub fire_cooldown: u32,
    /// Microseconds until the drones may fire again.
    pub drone_cooldown: u32,
}

impl Loadout {
    /// A loadout the game can be in: a cannon tier in 1..=4 and at most two drones.
    pub open spec fn wf(self) -> bool {
        &&& 1 <= self.cannon_tier <= MAX_CANNON_TIER
        &&& self.drones <= MAX_DRONES
    }

    /// The weapon tree alone: the loadout without its cooldowns.
    pub open spec fn tree(self) -> (u8, bool, bool, u8) {
        (self.cannon_tier, self.has_side, self.has_rear, self.drones)
    }
}

/// The starting loadout: tier-1 cannon, nothing else, both cooldowns ready.
pub open spec fn starting_loadout() -> Loadout {
    Loadout {
        cannon_tier: 1,
        has_side: false,
        has_rear: false,
        drones: 0,
        fire_cooldown: 0,
        drone_cooldown: 0,
    }
}

impl Default for Loadout {
    fn default() -> (l: Self)
        ensures
            l == starting_loadout(),
    {
        Loadout {
            cannon_tier: 1,
            has_side: false,
            has_rear: false,
            drones: 0,
            fire_cooldown: 0,
            drone_cooldown: 0,
        }
    }
}

/// What fired this tick: the number of forward main-cannon projectiles, the
/// side pair, the rear shot, and one forward shot per drone.
#[derive(Debug, Clone, Copy, PartialEq, Eq, Structural)]
pub struct Volley {
    pub cannon: u32,
    pub side: bool,
    pub rear: bool,
    pub drone_shots: u8,
}

/// Projectiles per main-cannon volley at each tier: 1, 2, 3, 5.
pub open spec fn cannon_count_spec(tier: u8) -> u32 {
    if tier <= 1 {
        1
    } else if tier == 2 {
        2
    } else if tier == 3 {
        3
    } else {
        5
    }
}

/// Total projectiles of a volley.
pub open spec fn volley_size(v: Volley) -> int {
    v.cannon + (if v.side { 2int } else { 0int }) + (if v.rear { 1int } else { 0int }) + v.drone_shots
}

/// Projectiles per main-cannon volley at `tier`.
pub fn cannon_count(tier: u8) -> (n: u32)
    ensures
        n == cannon_count_spec(tier),
{
    if tier <= 1 {
        1
    } else if tier == 2 {
        2
    } else if tier == 3 {
        3
    } else {
        5
    }
}

/// The volley a loadout fires when both cooldowns are ready.
pub open spec fn full_volley(l: Loadout) -> Volley {
    Volley { cannon: cannon_count_spec(l.cannon_tier), side: l.has_side, rear: l.has_rear, drone_shots: l.drones }
}

/// `x - y`, floored at zero.
pub open spec fn sub_floor(x: u32, y: u32) -> u32 {
    if x > y {
        (x - y) as u32
    } else {
        0
    }
}

/// The loadout and volley after one tick of `dt_us` microseconds: both
/// cooldowns tick down (floored at zero); then, while fire is held, a main
/// volley fires if its cooldown has run out (restarting it), and every drone
/// fires one shot if the drone cooldown has run out (restarting that one).
pub open spec fn update_spec(l: Loadout, fire_held: bool, dt_us: u32) -> (Loadout, Volley) {
    let fc: u32 = sub_floor(l.fire_cooldown, dt_us);
    let dc: u32 = sub_floor(l.drone_cooldown, dt_us);
    let main = fire_held && fc == 0;
    let drone = fire_held && dc == 0 && l.drones > 0;
    (
        Loadout {
            fire_cooldown: if main { FIRE_INTERVAL_US } else { fc },
            drone_cooldown: if drone { DRONE_FIRE_INTERVAL_US } else { dc },
            ..l
        },
        Volley {
            cannon: if main { cannon_count_spec(l.cannon_tier) } else { 0 },
            side: main && l.has_side,
            rear: main && l.has_rear,
            drone_shots: if drone { l.drones } else { 0 },
        },
    )
}

/// Advances the firing cooldowns by `dt_us` and reports what fired.
pub fn update(loadout: &mut Loadout, fire_held: bool, dt_us: u32) -> (v: Volley)
    ensures
        (*final(loadout), v) == update_spec(*old(loadout), fire_held, dt_us),
{
    loadout.fire_cooldown = if loadout.fire_cooldown > dt_us { loadout.fire_cooldown - dt_us } else { 0 };
    loadout.drone_cooldown = if loadout.drone_cooldown > dt_us { loadout.drone_cooldown - dt_us } else { 0 };
    let mut v = Volley { cannon: 0, side: false, rear: false, drone_shots: 0 };
    if fire_held {
        if loadout.fire_cooldown == 0 {
            v.cannon = cannon_count(loadout.cannon_tier);
            v.side = loadout.has_side;
            v.rear = loadout.has_rear;
            loadout.fire_cooldown = FIRE_INTERVAL_US;
        }
        if loadout.drones > 0 && loadout.drone_cooldown == 0 {
            v.drone_shots = loadout.drones;
            loadout.drone_cooldown = DRONE_FIRE_INTERVAL_US;
        }
    }
    v
}

/// The main cannon tier after losing a life: one tier down, floored at 1.
pub open spec fn downgraded_tier(tier: u8) -> u8 {
    if tier <= 1 {
        1
    } else {
        (tier - 1) as u8
    }
}

/// One-tier downgrade on life loss, floored at tier 1; nothing else changes.
pub fn downgrade(loadout: &mut Loadout)
    ensures
        *final(loadout) == (Loadout { cannon_tier: downgraded_tier(old(loadout).cannon_tier), ..*old(loadout) }),
{
    loadout.cannon_tier = if loadout.cannon_tier <= 1 { 1 } else { loadout.cannon_tier - 1 };
}

/// Losing a life never leaves a loadout outside the tiers the game uses.
pub proof fn lemma_downgrade_keeps_wf(l: Loadout)
    requires
        l.wf(),
    ensures
        (Loadout { cannon_tier: downgraded_tier(l.cannon_tier), ..l }).wf(),
        downgraded_tier(l.cannon_tier) <= l.cannon_tier,
{
}

/// Volley composition: with fire held and both cooldowns run out, a tick
/// fires the whole tree -- 1/2/3/5 cannon projectiles by tier, the side pair
/// if owned, the rear shot if owned, one shot per drone -- and never changes
/// the weapon tree itself.
pub proof fn lemma_ready_volley_is_full(l: Loadout, dt_us: u32)
    requires
        l.fire_cooldown <= dt_us,
        l.drone_cooldown <= dt_us,
    ensures
        update_spec(l, true, dt_us).1 == full_volley(l),
        update_spec(l, true, dt_us).0.tree() == l.tree(),
{
}

/// Nothing fires while fire is released, whatever the cooldowns.
pub proof fn lemma_no_fire_without_trigger(l: Loadout, dt_us: u32)
    ensures
        volley_size(update_spec(l, false, dt_us).1) == 0,
{
}

/// Total of a sequence of tick lengths.
pub open spec fn total_time(dts: Seq<u32>) -> int
    decreases dts.len(),
{
    if dts.len() == 0 {
        0
    } else {
        total_time(dts.drop_last()) + dts.last()
    }
}

/// Main-cannon projectiles fired over a run of ticks with fire held, and the
/// loadout afterwards.
pub open spec fn run_held(l: Loadout, dts: Seq<u32>) -> (Loadout, int)
    decreases dts.len(),
{
    if dts.len() == 0 {
        (l, 0)
    } else {
        let (l1, n) = run_held(l, dts.drop_last());
        let (l2, v) = update_spec(l1, true, dts.last());
        (l2, n + v.cannon)
    }
}

/// Fire rate: once a main volley has fired, no other fires until a full fire
/// interval has passed, however that time is cut into ticks; meanwhile the
/// cooldown is exactly the interval minus the time gone by.
pub proof fn lemma_fire_rate(l: Loadout, dts: Seq<u32>)
    requires
        l.fire_cooldown == FIRE_INTERVAL_US,
        total_time(dts) < FIRE_INTERVAL_US,
    ensures
        run_held(l, dts).1 == 0,
        run_held(l, dts).0.fire_cooldown == FIRE_INTERVAL_US - total_time(dts),
        run_held(l, dts).0.tree() == l.tree(),
    decreases dts.len(),
{
    if dts.len() > 0 {
        assert(total_time(dts.drop_last()) >= 0) by {
            lemma_total_time_nonneg(dts.drop_last());
        }
        lemma_fire_rate(l, dts.drop_last());
    }
}

proof fn lemma_total_time_nonneg(dts: Seq<u32>)
    ensures
        total_time(dts) >= 0,
    decreases dts.len(),
{
    if dts.len() > 0 {
        lemma_total_time_nonneg(dts.drop_last());
    }
}

/// `m` ticks of `dt_us` each.
pub open spec fn ticks(m: nat, dt_us: u32) -> Seq<u32> {
    Seq::new(m, |i: int| dt_us)
}

proof fn lemma_total_time_ticks(m: nat, dt_us: u32)
    ensures
        total_time(ticks(m, dt_us)) == m * dt_us,
    decreases m,
{
    if m > 0 {
        assert(ticks(m, dt_us).drop_last() =~= ticks((m - 1) as nat, dt_us));
        assert(ticks(m, dt_us).last() == dt_us);
        assert(total_time(ticks(m, dt_us)) == total_time(ticks(m, dt_us).drop_last()) + ticks(m, dt_us).last());
        lemma_total_time_ticks((m - 1) as nat, dt_us);
        assert(m * dt_us == (m - 1) * dt_us + dt_us) by (nonlinear_arith);
    } else {
        assert(m * dt_us == 0) by (nonlinear_arith)
            requires
                m == 0,
        ;
    }
}

/// Running ticks back to back is running the first ones, then the rest.
proof fn lemma_run_held_concat(l: Loadout, a: Seq<u32>, b: Seq<u32>)
    ensures
        run_held(l, a + b) == ({
            let (l1, n1) = run_held(l, a);
            let (l2, n2) = run_held(l1, b);
            (l2, n1 + n2)
        }),
    decreases b.len(),
{
    if b.len() == 0 {
        assert(a + b =~= a);
    } else {
        assert((a + b).drop_last() =~= a + b.drop_last());
        assert((a + b).last() == b.last());
        lemma_run_held_concat(l, a, b.drop_last());
    }
}

/// One period at the game's tick: from a cooldown that runs out within a
/// tick, 20 ticks with fire held fire exactly one volley, on the first tick,
/// and leave the cooldown running out within a tick again.
proof fn lemma_one_period(l: Loadout)
    requires
        l.fire_cooldown <= super::TICK_US,
    ensures
        run_held(l, ticks(20, super::TICK_US)).1 == cannon_count_spec(l.cannon_tier),
        run_held(l, ticks(20, super::TICK_US)).0.fire_cooldown <= super::TICK_US,
        run_held(l, ticks(20, super::TICK_US)).0.tree() == l.tree(),
{
    let t = super::TICK_US;
    assert(ticks(20, t) =~= ticks(1, t) + ticks(19, t));
    lemma_run_held_concat(l, ticks(1, t), ticks(19, t));
    assert(ticks(1, t).drop_last() =~= Seq::<u32>::empty());
    assert(run_held(l, Seq::<u32>::empty()) == (l, 0int));
    assert(ticks(1, t).last() == t);
    let l1 = update_spec(l, true, t).0;
    assert(run_held(l, ticks(1, t)) == (l1, cannon_count_spec(l.cannon_tier) as int));
    lemma_total_time_ticks(19, t);
    lemma_fire_rate(l1, ticks(19, t));
}

/// Fire rate: at the game's 120 Hz tick, fire held from a ready cannon fires
/// one volley every 20 ticks -- exactly `k` volleys in `20 * k` ticks, so
/// six a second -- and leaves the weapon tree alone.
pub proof fn lemma_six_volleys_a_second(l: Loadout, k: nat)
    requires
        l.fire_cooldown <= super::TICK_US,
    ensures
        run_held(l, ticks(20 * k, super::TICK_US)).1 == k * cannon_count_spec(l.cannon_tier),
        run_held(l, ticks(20 * k, super::TICK_US)).0.fire_cooldown <= super::TICK_US,
        run_held(l, ticks(20 * k, super::TICK_US)).0.tree() == l.tree(),
    decreases k,
{
    let t = super::TICK_US;
    if k == 0 {
        assert(ticks(0, t) =~= Seq::<u32>::empty());
    } else {
        let k1 = (k - 1) as nat;
        lemma_six_volleys_a_second(l, k1);
        assert(20 * k == 20 * k1 + 20);
        assert(ticks(20 * k, t) =~= ticks(20 * k1, t) + ticks(20, t));
        lemma_run_held_concat(l, ticks(20 * k1, t), ticks(20, t));
        let lm = run_held(l, ticks(20 * k1, t)).0;
        lemma_one_period(lm);
        assert(lm.cannon_tier == l.cannon_tier);
        assert(k * cannon_count_spec(l.cannon_tier) == k1 * cannon_count_spec(l.cannon_tier) + cannon_count_spec(
            l.cannon_tier,
        )) by (nonlinear_arith)
            requires
                k == k1 + 1,
        ;
    }
}

/// Drone shots fired over a run of ticks with fire held, and the loadout
/// afterwards.
pub open spec fn run_drones(l: Loadout, dts: Seq<u32>) -> (Loadout, int)
    decreases dts.len(),
{
    if dts.len() == 0 {
        (l, 0)
    } else {
        let (l1, n) = run_drones(l, dts.drop_last());
        let (l2, v) = update_spec(l1, true, dts.last());
        (l2, n + v.drone_shots)
    }
}

/// When the drones fire, every drone fires once and their cooldown restarts
/// at half a second (500 000 us), the drones' own interval -- not the main
/// cannon's.
pub proof fn lemma_drone_shot_restarts_half_second(l: Loadout, dt_us: u32)
    requires
        update_spec(l, true, dt_us).1.drone_shots > 0,
    ensures
        update_spec(l, true, dt_us).1.drone_shots == l.drones,
        update_spec(l, true, dt_us).0.drone_cooldown == 500_000,
        update_spec(l, true, dt_us).0.drone_cooldown != FIRE_INTERVAL_US,
{
}

/// After the drones fire, no drone fires again until half a second of tick
/// time has passed, however that time is cut into ticks.
pub proof fn lemma_drone_rate(l: Loadout, dts: Seq<u32>)
    requires
        l.drone_cooldown == 500_000,
        total_time(dts) < 500_000,
    ensures
        run_drones(l, dts).1 == 0,
        run_drones(l, dts).0.drone_cooldown == 500_000 - total_time(dts),
        run_drones(l, dts).0.tree() == l.tree(),
    decreases dts.len(),
{
    if dts.len() > 0 {
        lemma_total_time_nonneg(dts.drop_last());
        lemma_drone_rate(l, dts.drop_last());
    }
}

proof fn lemma_run_drones_concat(l: Loadout, a: Seq<u32>, b: Seq<u32>)
    ensures
        run_drones(l, a + b) == ({
            let (l1, n1) = run_drones(l, a);
            let (l2, n2) = run_drones(l1, b);
            (l2, n1 + n2)
        }),
    decreases b.len(),
{
    if b.len() == 0 {
        assert(a + b =~= a);
    } else {
        assert((a + b).drop_last() =~= a + b.drop_last());
        assert((a + b).last() == b.last());
        lemma_run_drones_concat(l, a, b.drop_last());
    }
}

proof fn lemma_one_drone_period(l: Loadout)
    requires
        l.drone_cooldown <= super::TICK_US,
        l.drones >= 1,
    ensures
        run_drones(l, ticks(60, super::TICK_US)).1 == l.drones,
        run_drones(l, ticks(60, super::TICK_US)).0.drone_cooldown <= super::TICK_US,
        run_drones(l, ticks(60, super::TICK_US)).0.tree() == l.tree(),
{
    let t = super::TICK_US;
    assert(ticks(60, t) =~= ticks(1, t) + ticks(59, t));
    lemma_run_drones_concat(l, ticks(1, t), ticks(59, t));
    assert(ticks(1, t).drop_last() =~= Seq::<u32>::empty());
    assert(run_drones(l, Seq::<u32>::empty()) == (l, 0int));
    assert(ticks(1, t).last() == t);
    let l1 = update_spec(l, true, t).0;
    assert(run_drones(l, ticks(1, t)) == (l1, l.drones as int));
    lemma_total_time_ticks(59, t);
    lemma_drone_rate(l1, ticks(59, t));
}

/// Drone fire rate: at the game's 120 Hz tick, fire held with at least one
/// drone fires one shot per drone every 60 ticks -- exactly `k` shots per
/// drone in `60 * k` ticks, so two a second per drone.
pub proof fn lemma_two_drone_shots_a_second(l: Loadout, k: nat)
    requires
        l.drone_cooldown <= super::TICK_US,
        l.drones >= 1,
    ensures
        run_drones(l, ticks(60 * k, super::TICK_US)).1 == k * l.drones,
        run_drones(l, ticks(60 * k, super::TICK_US)).0.drone_cooldown <= super::TICK_US,
        run_drones(l, ticks(60 * k, super::TICK_US)).0.tree() == l.tree(),
    decreases k,
{
    let t = super::TICK_US;
    if k == 0 {
        assert(ticks(0, t) =~= Seq::<u32>::empty());
    } else {
        let k1 = (k - 1) as nat;
        lemma_two_drone_shots_a_second(l, k1);
        assert(60 * k == 60 * k1 + 60);
        assert(ticks(60 * k, t) =~= ticks(60 * k1, t) + ticks(60, t));
        lemma_run_drones_concat(l, ticks(60 * k1, t), ticks(60, t));
        let lm = run_drones(l, ticks(60 * k1, t)).0;
        lemma_one_drone_period(lm);
        assert(k * l.drones == k1 * l.drones + l.drones) by (nonlinear_arith)
            requires
                k == k1 + 1,
        ;
    }
}

} // verus!
