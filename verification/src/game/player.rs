//! The ship's hit points, lives and invulnerability window. Durations are
//! in microseconds; the ship's position is kept by the caller.

use vstd::prelude::*;

verus! {

/// Radius of the ship's hitbox, pixels.
pub const PLAYER_RADIUS: u32 = 12;
/// Full hit points.
pub const MAX_HP: u32 = 100;
/// Ship speed, pixels per second (diagonals normalized).
pub const SPEED: u32 = 260;
/// Invulnerability after taking a hit: 1.5 s.
pub const INVULN_ON_HIT_US: u32 = 1_500_000;
/// Invulnerability after respawning: 2 s.
pub const INVULN_ON_RESPAWN_US: u32 = 2_000_000;
/// Lives at the start of a game.
pub const STARTING_LIVES: u32 = 3;

#[derive(Debug, Clone, Copy, PartialEq, Eq, Structural)]
pub struct Player {
    pub hp: u32,
    /// Microseconds of invulnerability left.
    pub invuln_timer: u32,
    pub lives: u32,
}

/// What one hit did.
#[derive(Debug, Clone, Copy, PartialEq, Eq, Structural)]
pub enum HitOutcome {
    /// The ship was invulnerable: nothing changed.
    Ignored,
    /// Hit points went down; the ship is briefly invulnerable.
    Damaged,
    /// Hit points reached zero: a life was spent and the ship respawned.
    LifeLost,
}

impl Player {
    /// Hit points within `1..=MAX_HP`.
    pub open spec fn wf(self) -> bool {
        0 < self.hp <= MAX_HP
    }

    pub open spec fn spawned() -> Player {
        Player { hp: MAX_HP, invuln_timer: 0, lives: STARTING_LIVES }
    }

    pub fn new() -> (p: Self)
        ensures
            p == Player::spawned(),
    {
        Player { hp: MAX_HP, invuln_timer: 0, lives: STARTING_LIVES }
    }

    /// The player after `dmg` damage: nothing while invulnerable; otherwise
    /// the hit lands and starts a 1.5 s invulnerability window, unless it
    /// brings hit points to zero, in which case a life is spent and the ship
    /// respawns at full hit points with 2 s of invulnerability.
    pub open spec fn hit_spec(self, dmg: u32) -> (Player, HitOutcome) {
        if self.invuln_timer > 0 {
            (self, HitOutcome::Ignored)
        } else if dmg >= self.hp {
            (
                Player {
                    hp: MAX_HP,
                    invuln_timer: INVULN_ON_RESPAWN_US,
                    lives: if self.lives > 0 { (self.lives - 1) as u32 } else { 0 },
                },
                HitOutcome::LifeLost,
            )
        } else {
            (
                Player { hp: (self.hp - dmg) as u32, invuln_timer: INVULN_ON_HIT_US, ..self },
                HitOutcome::Damaged,
            )
        }
    }

    /// The player after `dt_us` microseconds: the invulnerability window
    /// counts down, floored at zero.
    pub open spec fn ticked(self, dt_us: u32) -> Player {
        Player {
            invuln_timer: if self.invuln_timer > dt_us {
                (self.invuln_timer - dt_us) as u32
            } else {
                0
            },
            ..self
        }
    }

    /// Counts the invulnerability window down by `dt_us`, floored at zero.
    pub fn update(&mut self, dt_us: u32)
        ensures
            *final(self) == old(self).ticked(dt_us),
    {
        self.invuln_timer = if self.invuln_timer > dt_us { self.invuln_timer - dt_us } else { 0 };
    }

    /// Applies `dmg` unless currently invulnerable; reports whether the hit
    /// was ignored, landed, or spent a life (which also respawns the ship).
    pub fn hit(&mut self, dmg: u32) -> (r: HitOutcome)
        ensures
            (*final(self), r) == old(self).hit_spec(dmg),
    {
        if self.invuln_timer > 0 {
            return HitOutcome::Ignored;
        }
        self.invuln_timer = INVULN_ON_HIT_US;
        if dmg >= self.hp {
            self.lives = if self.lives > 0 { self.lives - 1 } else { 0 };
            self.hp = MAX_HP;
            self.invuln_timer = INVULN_ON_RESPAWN_US;
            HitOutcome::LifeLost
        } else {
            self.hp = self.hp - dmg;
            HitOutcome::Damaged
        }
    }
}

/// Hits keep hit points within `1..=MAX_HP`, never add lives, and spend at
/// most one life each -- exactly one when the outcome is `LifeLost`.
pub proof fn lemma_hit_keeps_vitals(p: Player, dmg: u32)
    requires
        p.wf(),
    ensures
        p.hit_spec(dmg).0.wf(),
        p.hit_spec(dmg).0.lives <= p.lives,
        p.hit_spec(dmg).1 == HitOutcome::LifeLost && p.lives > 0 ==> p.hit_spec(dmg).0.lives == p.lives - 1,
        p.hit_spec(dmg).1 != HitOutcome::LifeLost ==> p.hit_spec(dmg).0.lives == p.lives,
{
}

/// Invulnerability window: once a hit lands, any further hit within the
/// next 1.5 s (2 s after a respawn) is ignored.
pub proof fn lemma_invulnerability_window(p: Player, dmg1: u32, elapsed_us: u32, dmg2: u32)
    requires
        p.hit_spec(dmg1).1 != HitOutcome::Ignored,
        elapsed_us < INVULN_ON_HIT_US,
    ensures
        ({
            let q = p.hit_spec(dmg1).0.ticked(elapsed_us);
            q.hit_spec(dmg2) == (q, HitOutcome::Ignored)
        }),
{
}

/// HP accounting: a hit on a vulnerable ship spends a life exactly when the
/// damage is at least the hit points left; otherwise the ship keeps all its
/// lives and exactly `hp - dmg` hit points.
pub proof fn lemma_life_spent_exactly_at_zero_hp(p: Player, dmg: u32)
    requires
        p.invuln_timer == 0,
    ensures
        (p.hit_spec(dmg).1 == HitOutcome::LifeLost) <==> dmg >= p.hp,
        dmg < p.hp ==> {
            &&& p.hit_spec(dmg).1 == HitOutcome::Damaged
            &&& p.hit_spec(dmg).0.hp + dmg == p.hp
            &&& p.hit_spec(dmg).0.lives == p.lives
            &&& p.hit_spec(dmg).0.invuln_timer == 1_500_000
        },
        dmg >= p.hp ==> p.hit_spec(dmg).0.hp == 100 && p.hit_spec(dmg).0.invuln_timer == 2_000_000,
{
}

} // verus!
