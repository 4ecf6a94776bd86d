//! Resolving one tick's collisions: which enemy each player shot strikes,
//! which enemy bullets reach the ship, and whether an enemy rams it. The
//! overlap tests themselves are geometry done by the caller; given which
//! shapes overlap, the rules here decide everything that follows.

use vstd::prelude::*;

use super::enemies;
use super::player::HitOutcome;
use super::{bullet_hit_step, player_hit_step, Game, GameView, CONTACT_DAMAGE};
use crate::levels::EnemyKind;

verus! {

/// What the rules need of one enemy: its kind and hit points.
#[derive(Debug, Clone, Copy, PartialEq, Eq, Structural)]
pub struct Foe {
    pub kind: EnemyKind,
    pub hp: i32,
}

/// Player shot number `shot` struck enemy number `enemy`, killing it or not.
#[derive(Debug, Clone, Copy, PartialEq, Eq, Structural)]
pub struct Strike {
    pub shot: usize,
    pub enemy: usize,
    pub killed: bool,
}

/// Everything one tick's collisions did.
pub struct HitReport {
    /// Which enemies are still alive, by their index in the enemy list.
    pub alive: Vec<bool>,
    /// The shots that struck an enemy, in the order they were resolved (last
    /// shot first); every other shot flies on.
    pub strikes: Vec<Strike>,
    /// The enemy bullets that reached the ship, last first, each with what it
    /// did: `None` when a drone absorbed it.
    pub bullets: Vec<(usize, Option<HitOutcome>)>,
    /// What ramming did to the ship, if a live enemy touches it.
    pub contact: Option<HitOutcome>,
}

/// The first enemy from index `j` on that is alive and overlaps the shot
/// (`row[i]`), or `alive.len()` when there is none.
pub open spec fn first_from(row: Seq<bool>, alive: Seq<bool>, j: int) -> int
    decreases alive.len() - j,
{
    if j >= alive.len() || j < 0 {
        alive.len() as int
    } else if alive[j] && row[j] {
        j
    } else {
        first_from(row, alive, j + 1)
    }
}

/// Every enemy alive.
pub open spec fn all_alive(n: nat) -> Seq<bool> {
    Seq::new(n, |i: int| true)
}

/// The enemies, which of them are alive, and the strikes so far, after the
/// last `k` player shots have been resolved, last shot first: each shot
/// strikes the first live enemy it overlaps, which loses the shot's damage
/// (taken as an `i32`, as the enemy's hit points are) and dies at zero hit
/// points or below; a shot that overlaps none flies on.
pub open spec fn shots_phase(
    foes: Seq<Foe>,
    rows: Seq<Seq<bool>>,
    dmgs: Seq<u32>,
    k: int,
) -> (Seq<Foe>, Seq<bool>, Seq<Strike>)
    decreases k,
{
    if k <= 0 {
        (foes, all_alive(foes.len()), Seq::empty())
    } else {
        let (f, a, st) = shots_phase(foes, rows, dmgs, k - 1);
        let s = rows.len() - k;
        let j = first_from(rows[s], a, 0);
        if j < a.len() {
            let hp = f[j].hp - (dmgs[s] as i32);
            (
                f.update(j, Foe { hp: hp as i32, ..f[j] }),
                if hp <= 0 { a.update(j, false) } else { a },
                st.push(Strike { shot: s as usize, enemy: j as usize, killed: hp <= 0 }),
            )
        } else {
            (f, a, st)
        }
    }
}

/// Whether resolving the last `k` shots keeps every struck enemy's hit
/// points within `i32`: a damage above `i32::MAX` turns negative as an `i32`
/// and heals the enemy it strikes, which must not push it past `i32::MAX`.
pub open spec fn shots_fit(foes: Seq<Foe>, rows: Seq<Seq<bool>>, dmgs: Seq<u32>, k: int) -> bool
    decreases k,
{
    if k <= 0 {
        true
    } else {
        let (f, a, st) = shots_phase(foes, rows, dmgs, k - 1);
        let s = rows.len() - k;
        let j = first_from(rows[s], a, 0);
        &&& shots_fit(foes, rows, dmgs, k - 1)
        &&& j < a.len() ==> f[j].hp - (dmgs[s] as i32) <= i32::MAX
    }
}

/// The points the killing strikes among `st` score, by the struck enemies'
/// kinds in `foes`.
pub open spec fn kill_score(st: Seq<Strike>, foes: Seq<Foe>) -> int
    decreases st.len(),
{
    if st.len() == 0 {
        0
    } else {
        kill_score(st.drop_last(), foes) + if st.last().killed {
            enemies::score_value_spec(foes[st.last().enemy as int].kind) as int
        } else {
            0int
        }
    }
}

/// The game and the bullet outcomes after the last `k` enemy bullets have
/// been looked at, last first: each one that overlaps the ship hits it (a
/// drone absorbing it if there is one).
pub open spec fn bullets_phase(g: GameView, overlaps: Seq<bool>, dmgs: Seq<u32>, k: int) -> (
    GameView,
    Seq<(usize, Option<HitOutcome>)>,
)
    decreases k,
{
    if k <= 0 {
        (g, Seq::empty())
    } else {
        let (g1, outs) = bullets_phase(g, overlaps, dmgs, k - 1);
        let b = overlaps.len() - k;
        if overlaps[b] {
            let (g2, o) = bullet_hit_step(g1, dmgs[b]);
            (g2, outs.push((b as usize, o)))
        } else {
            (g1, outs)
        }
    }
}

/// Whether some live enemy overlaps the ship.
pub open spec fn rammed(alive: Seq<bool>, contact: Seq<bool>) -> bool {
    exists|j: int| 0 <= j < alive.len() && alive[j] && contact[j]
}

/// The views of a list of overlap rows.
pub open spec fn row_views(rows: Seq<Vec<bool>>) -> Seq<Seq<bool>> {
    rows.map_values(|r: Vec<bool>| r@)
}

/// A shot strikes exactly the first live enemy it overlaps: that one is
/// alive and overlapped, and no live enemy before it is.
pub proof fn lemma_first_from(row: Seq<bool>, alive: Seq<bool>, j: int)
    requires
        0 <= j <= alive.len(),
        row.len() == alive.len(),
    ensures
        j <= first_from(row, alive, j) <= alive.len(),
        first_from(row, alive, j) < alive.len() ==> alive[first_from(row, alive, j)] && row[first_from(
            row,
            alive,
            j,
        )],
        forall|i: int| j <= i < first_from(row, alive, j) ==> !(alive[i] && row[i]),
    decreases alive.len() - j,
{
    if j < alive.len() && !(alive[j] && row[j]) {
        lemma_first_from(row, alive, j + 1);
    }
}

/// Live enemies keep positive hit points while shots resolve, a killed enemy
/// is never struck again, and the enemy list keeps its length.
pub proof fn lemma_shots_phase_keeps_live_hp(foes: Seq<Foe>, rows: Seq<Seq<bool>>, dmgs: Seq<u32>, k: int)
    requires
        0 <= k <= rows.len(),
        rows.len() == dmgs.len(),
        forall|s: int| 0 <= s < rows.len() ==> (#[trigger] rows[s]).len() == foes.len(),
        shots_fit(foes, rows, dmgs, k),
        forall|j: int| 0 <= j < foes.len() ==> #[trigger] foes[j].hp > 0,
    ensures
        ({
            let (f, a, st) = shots_phase(foes, rows, dmgs, k);
            &&& f.len() == foes.len()
            &&& a.len() == foes.len()
            &&& forall|j: int| 0 <= j < a.len() && #[trigger] a[j] ==> f[j].hp > 0
            &&& forall|j: int| 0 <= j < f.len() ==> #[trigger] f[j].kind == foes[j].kind
        }),
    decreases k,
{
    if k > 0 {
        lemma_shots_phase_keeps_live_hp(foes, rows, dmgs, k - 1);
        let (f, a, st) = shots_phase(foes, rows, dmgs, k - 1);
        let s = rows.len() - k;
        lemma_first_from(rows[s], a, 0);
    }
}

proof fn lemma_shots_fit_prefix(foes: Seq<Foe>, rows: Seq<Seq<bool>>, dmgs: Seq<u32>, k1: int, k2: int)
    requires
        k1 <= k2,
        shots_fit(foes, rows, dmgs, k2),
    ensures
        shots_fit(foes, rows, dmgs, k1),
    decreases k2 - k1,
{
    if k1 < k2 {
        lemma_shots_fit_prefix(foes, rows, dmgs, k1, k2 - 1);
    }
}

/// Every damage the weapons deal fits in an `i32`, and then resolving shots
/// can never push hit points out of range.
pub proof fn lemma_small_damage_fits(foes: Seq<Foe>, rows: Seq<Seq<bool>>, dmgs: Seq<u32>, k: int)
    requires
        0 <= k <= rows.len(),
        rows.len() == dmgs.len(),
        forall|s: int| 0 <= s < rows.len() ==> (#[trigger] rows[s]).len() == foes.len(),
        forall|s: int| 0 <= s < dmgs.len() ==> #[trigger] dmgs[s] <= i32::MAX,
        forall|j: int| 0 <= j < foes.len() ==> #[trigger] foes[j].hp > 0,
    ensures
        shots_fit(foes, rows, dmgs, k),
    decreases k,
{
    if k > 0 {
        lemma_small_damage_fits(foes, rows, dmgs, k - 1);
        lemma_shots_phase_keeps_live_hp(foes, rows, dmgs, k - 1);
        let (f, a, st) = shots_phase(foes, rows, dmgs, k - 1);
        let s = rows.len() - k;
        lemma_first_from(rows[s], a, 0);
        assert(dmgs[s] as i32 == dmgs[s]);
    }
}

/// Kills only add to the score: resolving more shots never scores less.
pub proof fn lemma_kill_score_grows(foes: Seq<Foe>, rows: Seq<Seq<bool>>, dmgs: Seq<u32>, k1: int, k2: int)
    requires
        0 <= k1 <= k2,
    ensures
        0 <= kill_score(shots_phase(foes, rows, dmgs, k1).2, foes) <= kill_score(
            shots_phase(foes, rows, dmgs, k2).2,
            foes,
        ),
    decreases k2,
{
    if k2 > k1 {
        lemma_kill_score_grows(foes, rows, dmgs, k1, k2 - 1);
        let st = shots_phase(foes, rows, dmgs, k2 - 1).2;
        let st2 = shots_phase(foes, rows, dmgs, k2).2;
        if st2 != st {
            assert(st2.drop_last() =~= st);
        }
    } else if k1 > 0 {
        lemma_kill_score_nonneg(shots_phase(foes, rows, dmgs, k1).2, foes);
    }
}

proof fn lemma_kill_score_nonneg(st: Seq<Strike>, foes: Seq<Foe>)
    ensures
        kill_score(st, foes) >= 0,
    decreases st.len(),
{
    if st.len() > 0 {
        lemma_kill_score_nonneg(st.drop_last(), foes);
    }
}

/// A killed enemy is struck by no later shot, and stays dead.
pub proof fn lemma_killed_foe_is_never_struck_again(
    foes: Seq<Foe>,
    rows: Seq<Seq<bool>>,
    dmgs: Seq<u32>,
    k: int,
)
    requires
        0 <= k <= rows.len(),
        rows.len() == dmgs.len(),
        foes.len() <= usize::MAX,
        forall|s: int| 0 <= s < rows.len() ==> (#[trigger] rows[s]).len() == foes.len(),
    ensures
        ({
            let (f, a, st) = shots_phase(foes, rows, dmgs, k);
            &&& a.len() == foes.len()
            &&& forall|t: int| 0 <= t < st.len() ==> (#[trigger] st[t]).enemy < a.len()
            &&& forall|t: int| 0 <= t < st.len() && (#[trigger] st[t]).killed ==> !a[st[t].enemy as int]
            &&& forall|t: int, u: int|
                0 <= t < u < st.len() && (#[trigger] st[t]).killed ==> (#[trigger] st[u]).enemy != st[t].enemy
        }),
    decreases k,
{
    if k > 0 {
        lemma_killed_foe_is_never_struck_again(foes, rows, dmgs, k - 1);
        let (f, a, st) = shots_phase(foes, rows, dmgs, k - 1);
        let s = rows.len() - k;
        lemma_first_from(rows[s], a, 0);
        let j = first_from(rows[s], a, 0);
        if j < a.len() {
            let (f2, a2, st2) = shots_phase(foes, rows, dmgs, k);
            assert(a[j]);
            let hp = f[j].hp - (dmgs[s] as i32);
            assert(a2 == (if hp <= 0 { a.update(j, false) } else { a }));
            assert(st2 == st.push(Strike { shot: s as usize, enemy: j as usize, killed: hp <= 0 }));
            assert forall|t: int| 0 <= t < st2.len() && (#[trigger] st2[t]).killed implies !a2[st2[t].enemy as int] by {
                if t < st.len() {
                    assert(st2[t] == st[t]);
                    assert(st[t].killed);
                    assert(!a[st[t].enemy as int]);
                    assert(st[t].enemy != j);
                }
            }
            assert forall|t: int, u: int|
                0 <= t < u < st2.len() && (#[trigger] st2[t]).killed implies (#[trigger] st2[u]).enemy != st2[t].enemy by {
                assert(st2[t] == st[t]);
                if u < st.len() {
                    assert(st2[u] == st[u]);
                } else {
                    assert(st2[u].enemy == j);
                    assert(!a[st[t].enemy as int]);
                }
            }
        }
    }
}

impl Game {
    /// Resolves one tick's collisions, given which shapes overlap:
    /// `shot_rows[s][j]` whether player shot `s` overlaps enemy `j`,
    /// `bullet_overlaps[b]` whether enemy bullet `b` overlaps the ship, and
    /// `contact[j]` whether enemy `j` does. Shots resolve last first, each
    /// striking the first live enemy it overlaps and scoring every kill; then
    /// bullets, last first,
    /// each hitting the ship (a drone absorbs it if there is one); then one
    /// ramming hit if any enemy still alive touches the ship.
    pub fn resolve_hits(
        &mut self,
        foes: &mut Vec<Foe>,
        shot_rows: &[Vec<bool>],
        shot_damage: &[u32],
        bullet_overlaps: &[bool],
        bullet_damage: &[u32],
        contact: &[bool],
    ) -> (r: HitReport)
        requires
            old(self)@.wf(),
            shot_rows@.len() == shot_damage@.len(),
            forall|s: int| 0 <= s < shot_rows@.len() ==> (#[trigger] shot_rows@[s])@.len() == old(foes)@.len(),
            shots_fit(old(foes)@, row_views(shot_rows@), shot_damage@, shot_rows@.len() as int),
            forall|j: int| 0 <= j < old(foes)@.len() ==> #[trigger] old(foes)@[j].hp > 0,
            bullet_overlaps@.len() == bullet_damage@.len(),
            contact@.len() == old(foes)@.len(),
            old(self).score + kill_score(
                shots_phase(old(foes)@, row_views(shot_rows@), shot_damage@, shot_rows@.len() as int).2,
                old(foes)@,
            ) <= u32::MAX,
        ensures
            ({
                let (f, a, st) = shots_phase(
                    old(foes)@,
                    row_views(shot_rows@),
                    shot_damage@,
                    shot_rows@.len() as int,
                );
                let scored = GameView { score: (old(self).score + kill_score(st, old(foes)@)) as u32, ..old(self)@ };
                let (g1, outs) = bullets_phase(
                    scored,
                    bullet_overlaps@,
                    bullet_damage@,
                    bullet_overlaps@.len() as int,
                );
                &&& final(foes)@ == f
                &&& r.alive@ == a
                &&& r.strikes@ == st
                &&& r.bullets@ == outs
                &&& (final(self)@, r.contact) == (if rammed(a, contact@) {
                    let (g2, o) = player_hit_step(g1, CONTACT_DAMAGE);
                    (g2, Some(o))
                } else {
                    (g1, None::<HitOutcome>)
                })
            }),
            final(self)@.wf(),
    {
        let n: usize = foes.len();
        let ns: usize = shot_rows.len();
        let ghost rows = row_views(shot_rows@);
        let ghost foes0 = foes@;

        let mut alive: Vec<bool> = Vec::new();
        while alive.len() < n
            invariant
                alive@.len() <= n,
                forall|i: int| 0 <= i < alive@.len() ==> #[trigger] alive@[i],
            decreases n - alive.len(),
        {
            alive.push(true);
        }
        assert(alive@ =~= all_alive(n as nat));

        let mut strikes: Vec<Strike> = Vec::new();
        let mut k: usize = 0;
        let ghost old_score = self.score;
        let ghost g_start = self@;
        while k < ns
            invariant
                ns == shot_rows@.len(),
                ns == shot_damage@.len(),
                n == foes0.len(),
                rows == row_views(shot_rows@),
                k <= ns,
                forall|s: int| 0 <= s < shot_rows@.len() ==> (#[trigger] shot_rows@[s])@.len() == foes0.len(),
                shots_fit(foes0, rows, shot_damage@, ns as int),
                forall|j: int| 0 <= j < foes0.len() ==> #[trigger] foes0[j].hp > 0,
                (foes@, alive@, strikes@) == shots_phase(foes0, rows, shot_damage@, k as int),
                old_score + kill_score(shots_phase(foes0, rows, shot_damage@, ns as int).2, foes0) <= u32::MAX,
                self@ == (GameView { score: (old_score + kill_score(strikes@, foes0)) as u32, ..g_start }),
                self.score == old_score + kill_score(strikes@, foes0),
            decreases ns - k,
        {
            proof {
                assert(rows.len() == ns);
                assert forall|s: int| 0 <= s < rows.len() implies (#[trigger] rows[s]).len() == foes0.len() by {
                    assert(rows[s] == shot_rows@[s]@);
                }
                lemma_shots_fit_prefix(foes0, rows, shot_damage@, k as int + 1, ns as int);
                lemma_shots_phase_keeps_live_hp(foes0, rows, shot_damage@, k as int);
                lemma_kill_score_grows(foes0, rows, shot_damage@, k as int + 1, ns as int);
            }
            let s: usize = ns - 1 - k;
            let row = &shot_rows[s];
            proof {
                assert(rows[s as int] == row@);
            }
            let mut j: usize = 0;
            while j < n && !(alive[j] && row[j])
                invariant
                    j <= n,
                    n == alive@.len(),
                    row@.len() == n,
                    first_from(row@, alive@, 0) == first_from(row@, alive@, j as int),
                decreases n - j,
            {
                j = j + 1;
            }
            let ghost st_before = strikes@;
            if j < n {
                let dmg: i32 = shot_damage[s] as i32;
                let mut f: Foe = foes[j];
                let died = enemies::apply_damage(f.kind, &mut f.hp, dmg);
                let killed: bool = died.is_some();
                foes.set(j, f);
                if killed {
                    alive.set(j, false);
                }
                strikes.push(Strike { shot: s, enemy: j, killed });
                proof {
                    assert(strikes@.drop_last() =~= st_before);
                    assert((foes@, alive@, strikes@) == shots_phase(foes0, rows, shot_damage@, k as int + 1));
                    assert(foes0[j as int].kind == f.kind);
                }
                if killed {
                    self.score = self.score + enemies::score_value(f.kind);
                }
            }
            k = k + 1;
        }

        proof {
            lemma_shots_phase_keeps_live_hp(foes0, rows, shot_damage@, ns as int);
        }
        let nb: usize = bullet_overlaps.len();
        let ghost g0 = self@;
        let mut bullets: Vec<(usize, Option<HitOutcome>)> = Vec::new();
        let mut kb: usize = 0;
        while kb < nb
            invariant
                nb == bullet_overlaps@.len(),
                nb == bullet_damage@.len(),
                kb <= nb,
                self@.wf(),
                (self@, bullets@) == bullets_phase(g0, bullet_overlaps@, bullet_damage@, kb as int),
            decreases nb - kb,
        {
            let b: usize = nb - 1 - kb;
            if bullet_overlaps[b] {
                let o = self.enemy_bullet_hit(bullet_damage[b]);
                bullets.push((b, o));
            }
            kb = kb + 1;
        }

        let mut touched: bool = false;
        let mut c: usize = 0;
        while c < n
            invariant
                c <= n,
                n == alive@.len(),
                n == contact@.len(),
                touched <==> exists|j: int| 0 <= j < c && alive@[j] && contact@[j],
            decreases n - c,
        {
            if alive[c] && contact[c] {
                touched = true;
            }
            c = c + 1;
        }
        let contact_hit = if touched {
            Some(self.apply_player_hit(CONTACT_DAMAGE))
        } else {
            None
        };
        HitReport { alive, strikes, bullets, contact: contact_hit }
    }
}

} // verus!
