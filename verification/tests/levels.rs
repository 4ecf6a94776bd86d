use megablast::levels::{boss_variant, level, level_1, level_2, EnemyKind, EntryPattern, Wave};

#[test]
fn level_1_teaches_popcorn_diver_and_sparse_turrets_then_ends_in_boss() {
    let script = level_1();
    let kinds: Vec<EnemyKind> = script.waves.iter().map(|(_, w)| w.enemy).collect();

    assert!(kinds.contains(&EnemyKind::Popcorn));
    assert!(kinds.contains(&EnemyKind::Diver));
    let turret_waves: Vec<_> = script
        .waves
        .iter()
        .filter(|(_, w)| w.enemy == EnemyKind::Turret)
        .collect();
    // "Sparse" turrets: low count, widely spaced, and there's more
    // than one such wave partway through the level.
    assert!(turret_waves.len() >= 2);
    for (_, w) in &turret_waves {
        assert!(w.count <= 3);
        assert!(w.spacing >= 200);
    }

    let (_, last_wave) = script.waves.last().expect("level 1 has waves");
    assert_eq!(last_wave.enemy, EnemyKind::Boss);
    assert_eq!(last_wave.count, 1);
}

#[test]
fn level_1_triggers_are_strictly_increasing_and_well_spaced() {
    let script = level_1();
    for window in script.waves.windows(2) {
        let (a, _) = &window[0];
        let (b, _) = &window[1];
        assert!(b > a, "triggers must be in increasing order");
        assert!(
            b - a >= 200,
            "waves should be spaced far enough apart not to overlap"
        );
    }
}

#[test]
fn level_2_escalates_with_weavers_and_dense_turrets_then_ends_in_boss() {
    let script = level_2();
    let kinds: Vec<EnemyKind> = script.waves.iter().map(|(_, w)| w.enemy).collect();

    assert!(
        kinds.contains(&EnemyKind::Weaver),
        "level 2 must introduce weavers"
    );

    let turret_waves: Vec<_> = script
        .waves
        .iter()
        .filter(|(_, w)| w.enemy == EnemyKind::Turret)
        .collect();
    let weaver_waves: Vec<_> = script
        .waves
        .iter()
        .filter(|(_, w)| w.enemy == EnemyKind::Weaver)
        .collect();
    assert!(turret_waves.len() >= 2);
    assert!(weaver_waves.len() >= 2);

    // "Dense" turrets: every level 2 turret wave beats level 1's max
    // count (3) and every level 2 turret wave's max count beats
    // level 1's, i.e. the escalation is real, not just "some wave
    // somewhere".
    for (_, w) in &turret_waves {
        assert!(w.count > 3, "level 2 turret waves must out-count level 1");
    }
    let max_turret_count = turret_waves.iter().map(|(_, w)| w.count).max().unwrap();
    assert!(max_turret_count > 3);

    let (_, last_wave) = script.waves.last().expect("level 2 has waves");
    assert_eq!(last_wave.enemy, EnemyKind::Boss);
    assert_eq!(last_wave.count, 1);
}

#[test]
fn level_2_triggers_are_strictly_increasing_well_spaced_and_tighter_than_level_1() {
    let script = level_2();
    for window in script.waves.windows(2) {
        let (a, _) = &window[0];
        let (b, _) = &window[1];
        assert!(b > a, "triggers must be in increasing order");
        assert!(
            b - a >= 200,
            "waves should be spaced far enough apart not to overlap"
        );
    }

    // "Closer trigger spacing than level 1's sparse turrets": the
    // smallest gap anywhere in level 2 is tighter than the smallest
    // gap anywhere in level 1, while both stay at/above the 200px
    // no-overlap floor.
    let min_gap = |waves: &[(u32, Wave)]| -> f32 {
        waves
            .windows(2)
            .map(|w| (w[1].0 - w[0].0) as f32)
            .fold(f32::INFINITY, f32::min)
    };
    assert!(min_gap(&level_2().waves) < min_gap(&level_1().waves));
}

#[test]
fn boss_variant_differs_between_level_1_and_level_2() {
    // "Pattern colors varied": the two levels must not resolve to
    // the same variant value.
    assert_ne!(boss_variant(1), boss_variant(2));
}

#[test]
fn level_lookup_and_scroll_speed() {
    let l1 = level(1);
    let l2 = level(2);
    assert_eq!(l1.scroll_speed, 40);
    assert_eq!(l2.scroll_speed, 40);
    assert_eq!(l1.waves, level_1().waves);
    assert_eq!(l2.waves, level_2().waves);
    assert_eq!(l1.waves[0], (300, Wave { enemy: EnemyKind::Popcorn, count: 5, pattern: EntryPattern::Line, spacing: 40 }));
    assert_eq!(l2.waves[8].0, 2200);
}

#[test]
fn boss_variant_of_other_levels_is_the_default_palette() {
    assert_eq!(boss_variant(1), 0);
    assert_eq!(boss_variant(2), 1);
    assert_eq!(boss_variant(0), 0);
    assert_eq!(boss_variant(3), 0);
}
