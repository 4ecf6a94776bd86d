//! Level data: the scroll speed and the wave script of each level, consumed
//! in order by `game::waves::Scheduler` as the world scrolls.

use vstd::prelude::*;

verus! {

/// The five enemy types.
#[derive(Debug, Clone, Copy, PartialEq, Eq, Structural, Hash)]
pub enum EnemyKind {
    Popcorn,
    Diver,
    Turret,
    Weaver,
    Boss,
}

/// How a wave's enemies enter the playfield.
#[derive(Debug, Clone, Copy, PartialEq, Eq, Structural)]
pub enum EntryPattern {
    Line,
    Column,
    V,
}

/// One scripted group of enemies.
#[derive(Debug, Clone, Copy, PartialEq, Eq, Structural)]
pub struct Wave {
    pub enemy: EnemyKind,
    pub count: u32,
    pub pattern: EntryPattern,
    /// Pixels between entries along the pattern.
    pub spacing: u32,
}

/// A level: background scroll speed (pixels per second) plus
/// `(trigger_scroll_y, wave)` entries, triggers in pixels of scroll.
#[derive(Debug, Clone)]
pub struct LevelScript {
    pub scroll_speed: u32,
    pub waves: Vec<(u32, Wave)>,
}

/// Number of levels in the game.
pub const TOTAL_LEVELS: usize = 2;

pub open spec fn wave_of(enemy: EnemyKind, count: u32, pattern: EntryPattern, spacing: u32) -> Wave {
    Wave { enemy, count, pattern, spacing }
}

/// The wave script of level 1.
pub open spec fn level_1_waves() -> Seq<(u32, Wave)> {
    seq![
        (300u32, wave_of(EnemyKind::Popcorn, 5, EntryPattern::Line, 40)),
        (650u32, wave_of(EnemyKind::Diver, 3, EntryPattern::V, 60)),
        (1000u32, wave_of(EnemyKind::Popcorn, 6, EntryPattern::Line, 45)),
        (1350u32, wave_of(EnemyKind::Diver, 4, EntryPattern::V, 55)),
        (1700u32, wave_of(EnemyKind::Turret, 2, EntryPattern::Column, 220)),
        (2100u32, wave_of(EnemyKind::Popcorn, 5, EntryPattern::Line, 40)),
        (2450u32, wave_of(EnemyKind::Turret, 3, EntryPattern::Line, 260)),
        (2800u32, wave_of(EnemyKind::Diver, 5, EntryPattern::V, 50)),
        (3200u32, wave_of(EnemyKind::Boss, 1, EntryPattern::Line, 0)),
    ]
}

/// The wave script of level 2.
pub open spec fn level_2_waves() -> Seq<(u32, Wave)> {
    seq![
        (200u32, wave_of(EnemyKind::Weaver, 4, EntryPattern::V, 70)),
        (420u32, wave_of(EnemyKind::Turret, 4, EntryPattern::Column, 100)),
        (650u32, wave_of(EnemyKind::Weaver, 5, EntryPattern::Line, 60)),
        (870u32, wave_of(EnemyKind::Turret, 5, EntryPattern::Line, 90)),
        (1090u32, wave_of(EnemyKind::Weaver, 6, EntryPattern::V, 55)),
        (1300u32, wave_of(EnemyKind::Turret, 6, EntryPattern::Column, 75)),
        (1520u32, wave_of(EnemyKind::Weaver, 5, EntryPattern::Line, 60)),
        (1730u32, wave_of(EnemyKind::Turret, 7, EntryPattern::Line, 70)),
        (2200u32, wave_of(EnemyKind::Boss, 1, EntryPattern::Line, 0)),
    ]
}

/// Base scroll speed of every level, in pixels per second.
pub open spec fn base_scroll_speed() -> u32 {
    40
}

/// The wave script of the 1-based level `n`.
pub open spec fn level_waves(n: int) -> Seq<(u32, Wave)> {
    if n == 1 {
        level_1_waves()
    } else {
        level_2_waves()
    }
}

/// Level 1: popcorn and divers, then two sparse turret waves, ending in the boss.
pub fn level_1() -> (s: LevelScript)
    ensures
        s.scroll_speed == base_scroll_speed(),
        s.waves@ == level_1_waves(),
{
    LevelScript {
        scroll_speed: 40,
        waves: vec![
            (300, Wave { enemy: EnemyKind::Popcorn, count: 5, pattern: EntryPattern::Line, spacing: 40 }),
            (650, Wave { enemy: EnemyKind::Diver, count: 3, pattern: EntryPattern::V, spacing: 60 }),
            (1000, Wave { enemy: EnemyKind::Popcorn, count: 6, pattern: EntryPattern::Line, spacing: 45 }),
            (1350, Wave { enemy: EnemyKind::Diver, count: 4, pattern: EntryPattern::V, spacing: 55 }),
            // Sparse: only 2 turrets, spread far apart.
            (1700, Wave { enemy: EnemyKind::Turret, count: 2, pattern: EntryPattern::Column, spacing: 220 }),
            (2100, Wave { enemy: EnemyKind::Popcorn, count: 5, pattern: EntryPattern::Line, spacing: 40 }),
            (2450, Wave { enemy: EnemyKind::Turret, count: 3, pattern: EntryPattern::Line, spacing: 260 }),
            (2800, Wave { enemy: EnemyKind::Diver, count: 5, pattern: EntryPattern::V, spacing: 50 }),
            // A single boss: pattern and spacing are moot.
            (3200, Wave { enemy: EnemyKind::Boss, count: 1, pattern: EntryPattern::Line, spacing: 0 }),
        ],
    }
}

/// Level 2: weavers and dense turret waves on tighter triggers, ending in the boss.
pub fn level_2() -> (s: LevelScript)
    ensures
        s.scroll_speed == base_scroll_speed(),
        s.waves@ == level_2_waves(),
{
    LevelScript {
        scroll_speed: 40,
        waves: vec![
            (200, Wave { enemy: EnemyKind::Weaver, count: 4, pattern: EntryPattern::V, spacing: 70 }),
            (420, Wave { enemy: EnemyKind::Turret, count: 4, pattern: EntryPattern::Column, spacing: 100 }),
            (650, Wave { enemy: EnemyKind::Weaver, count: 5, pattern: EntryPattern::Line, spacing: 60 }),
            (870, Wave { enemy: EnemyKind::Turret, count: 5, pattern: EntryPattern::Line, spacing: 90 }),
            (1090, Wave { enemy: EnemyKind::Weaver, count: 6, pattern: EntryPattern::V, spacing: 55 }),
            (1300, Wave { enemy: EnemyKind::Turret, count: 6, pattern: EntryPattern::Column, spacing: 75 }),
            (1520, Wave { enemy: EnemyKind::Weaver, count: 5, pattern: EntryPattern::Line, spacing: 60 }),
            // Densest turret wave of the level, right before the boss.
            (1730, Wave { enemy: EnemyKind::Turret, count: 7, pattern: EntryPattern::Line, spacing: 70 }),
            (2200, Wave { enemy: EnemyKind::Boss, count: 1, pattern: EntryPattern::Line, spacing: 0 }),
        ],
    }
}

/// 1-based level lookup; only levels 1 and 2 exist.
pub fn level(n: usize) -> (s: LevelScript)
    requires
        1 <= n <= TOTAL_LEVELS,
    ensures
        s.scroll_speed == base_scroll_speed(),
        s.waves@ == level_waves(n as int),
{
    if n == 1 {
        level_1()
    } else {
        level_2()
    }
}

/// The boss palette of a level: level 2 has its own, every other level shares one.
pub open spec fn boss_variant_spec(level: int) -> u32 {
    if level == 2 {
        1
    } else {
        0
    }
}

/// Per-level boss palette variant: 0 for level 1, 1 for level 2, 0 otherwise.
pub fn boss_variant(level: usize) -> (v: u32)
    ensures
        v == boss_variant_spec(level as int),
{
    match level {
        1 => 0,
        2 => 1,
        _ => 0,
    }
}


/// Gap, in pixels of scroll, between wave `i` and wave `i + 1` of a script.
pub open spec fn trigger_gap(waves: Seq<(u32, Wave)>, i: int) -> int {
    waves[i + 1].0 - waves[i].0
}

/// Number of waves of `kind` in a script.
pub open spec fn count_kind(waves: Seq<(u32, Wave)>, kind: EnemyKind) -> nat
    decreases waves.len(),
{
    if waves.len() == 0 {
        0
    } else {
        count_kind(waves.drop_last(), kind) + if waves.last().1.enemy == kind { 1nat } else { 0nat }
    }
}

/// Every level's triggers are strictly increasing, and consecutive waves are
/// at least 200 pixels of scroll apart, so no wave lands on top of the last.
pub proof fn lemma_triggers_increasing_and_spaced(n: int)
    requires
        1 <= n <= TOTAL_LEVELS,
    ensures
        forall|i: int| 0 <= i < level_waves(n).len() - 1 ==> trigger_gap(level_waves(n), i) >= 200,
        forall|i: int, j: int|
            0 <= i < j < level_waves(n).len() ==> level_waves(n)[i].0 < level_waves(n)[j].0,
{
    let w = level_waves(n);
    assert forall|i: int| 0 <= i < w.len() - 1 implies trigger_gap(w, i) >= 200 by {
        if n == 1 {
            assert(0 <= i < 8);
        } else {
            assert(0 <= i < 8);
        }
    }
    assert forall|i: int, j: int| 0 <= i < j < w.len() implies w[i].0 < w[j].0 by {
        assert(w.len() == 9);
    }
}

/// Every level ends in a single boss, and the boss appears nowhere else.
pub proof fn lemma_levels_end_in_single_boss(n: int)
    requires
        1 <= n <= TOTAL_LEVELS,
    ensures
        level_waves(n).len() > 0,
        level_waves(n).last().1.enemy == EnemyKind::Boss,
        level_waves(n).last().1.count == 1,
        forall|i: int| 0 <= i < level_waves(n).len() - 1 ==> level_waves(n)[i].1.enemy != EnemyKind::Boss,
{
}

/// Level 1 teaches: it has popcorn and divers, and at least two turret waves,
/// each sparse (at most 3 turrets, spread at least 200 pixels apart).
pub proof fn lemma_level_1_teaches()
    ensures
        exists|i: int| 0 <= i < level_1_waves().len() && level_1_waves()[i].1.enemy == EnemyKind::Popcorn,
        exists|i: int| 0 <= i < level_1_waves().len() && level_1_waves()[i].1.enemy == EnemyKind::Diver,
        count_kind(level_1_waves(), EnemyKind::Turret) >= 2,
        forall|i: int|
            0 <= i < level_1_waves().len() && level_1_waves()[i].1.enemy == EnemyKind::Turret
                ==> level_1_waves()[i].1.count <= 3 && level_1_waves()[i].1.spacing >= 200,
{
    let w = level_1_waves();
    assert(w[0].1.enemy == EnemyKind::Popcorn);
    assert(w[1].1.enemy == EnemyKind::Diver);
    reveal_with_fuel(count_kind, 10);
}

/// Level 2 escalates: it introduces weavers, has at least two weaver waves
/// and two turret waves, and every turret wave out-counts any of level 1's.
pub proof fn lemma_level_2_escalates()
    ensures
        count_kind(level_1_waves(), EnemyKind::Weaver) == 0,
        count_kind(level_2_waves(), EnemyKind::Weaver) >= 2,
        count_kind(level_2_waves(), EnemyKind::Turret) >= 2,
        forall|i: int|
            0 <= i < level_2_waves().len() && level_2_waves()[i].1.enemy == EnemyKind::Turret
                ==> level_2_waves()[i].1.count > 3,
{
    reveal_with_fuel(count_kind, 10);
}

/// Level 2's triggers come closer together: some gap in level 2 is smaller
/// than every gap in level 1.
pub proof fn lemma_level_2_tighter_than_level_1()
    ensures
        exists|k: int|
            #![trigger trigger_gap(level_2_waves(), k)]
            0 <= k < level_2_waves().len() - 1 && forall|i: int|
                0 <= i < level_1_waves().len() - 1 ==> #[trigger] trigger_gap(level_1_waves(), i)
                    > trigger_gap(level_2_waves(), k),
{
    let w2 = level_2_waves();
    let w1 = level_1_waves();
    assert(trigger_gap(w2, 5) == 220);
    assert forall|i: int| 0 <= i < w1.len() - 1 implies #[trigger] trigger_gap(w1, i) > trigger_gap(w2, 5) by {
        assert(0 <= i < 8);
    }
}

/// The two levels' bosses use different palettes.
pub proof fn lemma_boss_variants_differ()
    ensures
        boss_variant_spec(1) != boss_variant_spec(2),
{
}

} // verus!
