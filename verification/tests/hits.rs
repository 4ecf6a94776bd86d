use megablast::game::hits::{Foe, Strike};
use megablast::game::player::{HitOutcome, MAX_HP};
use megablast::game::{Game, GameState, CONTACT_DAMAGE};
use megablast::levels::EnemyKind;

fn playing() -> Game {
    let mut g = Game::new();
    g.state = GameState::Playing;
    g
}

#[test]
fn each_shot_strikes_only_the_first_live_enemy_it_touches() {
    let mut g = playing();
    let mut foes = vec![
        Foe { kind: EnemyKind::Popcorn, hp: 10 },
        Foe { kind: EnemyKind::Diver, hp: 20 },
    ];
    // Shot 0 touches both enemies, shot 1 touches only the popcorn, shot 2 nothing.
    let rows = vec![vec![true, true], vec![true, false], vec![false, false]];
    let r = g.resolve_hits(&mut foes, &rows, &[10, 10, 10], &[], &[], &[false, false]);
    // Last shot first: shot 1 kills the popcorn, so shot 0 strikes the diver.
    assert_eq!(
        r.strikes,
        vec![
            Strike { shot: 1, enemy: 0, killed: true },
            Strike { shot: 0, enemy: 1, killed: false },
        ]
    );
    assert_eq!(r.alive, vec![false, true]);
    assert_eq!(foes[1].hp, 10);
    // The popcorn kill scores 50; the wounded diver scores nothing yet.
    assert_eq!(g.score, 50);
    assert_eq!(r.contact, None);
}

#[test]
fn bullets_hit_the_ship_last_first_and_drones_absorb_them() {
    let mut g = playing();
    g.loadout.drones = 1;
    let mut foes = Vec::new();
    let r = g.resolve_hits(&mut foes, &[], &[], &[true, false, true], &[10, 10, 10], &[]);
    assert_eq!(r.bullets, vec![(2, None), (0, Some(HitOutcome::Damaged))]);
    assert_eq!(g.loadout.drones, 0);
    assert_eq!(g.player.hp, MAX_HP - 10);
}

#[test]
fn only_a_live_enemy_rams_the_ship() {
    let mut g = playing();
    let mut foes = vec![Foe { kind: EnemyKind::Turret, hp: 5 }];
    let r = g.resolve_hits(&mut foes, &[vec![true]], &[10], &[], &[], &[true]);
    assert_eq!(r.alive, vec![false]);
    assert_eq!(r.contact, None);
    assert_eq!(g.player.hp, MAX_HP);
    assert_eq!(g.score, 150);

    let mut foes = vec![Foe { kind: EnemyKind::Boss, hp: 1200 }];
    let r = g.resolve_hits(&mut foes, &[vec![true]], &[10], &[], &[], &[true]);
    assert_eq!(foes[0].hp, 1190);
    assert_eq!(r.contact, Some(HitOutcome::Damaged));
    assert_eq!(g.player.hp, MAX_HP - CONTACT_DAMAGE);
}

#[test]
fn a_shot_kill_scores_and_removes_the_enemy() {
    // One popcorn at the shot's position: the shot kills it and scores 50.
    let mut g = Game::new();
    let mut foes = vec![Foe { kind: EnemyKind::Popcorn, hp: 10 }];
    let r = g.resolve_hits(&mut foes, &[vec![true]], &[10], &[], &[], &[false]);
    assert_eq!(r.strikes, vec![Strike { shot: 0, enemy: 0, killed: true }]);
    assert_eq!(r.alive, vec![false]);
    assert_eq!(g.score, 50);
    assert_eq!(g.player.hp, MAX_HP);
    assert_eq!(g.state, GameState::Menu);
}

#[test]
fn a_damage_beyond_i32_heals_as_it_wraps() {
    // As an i32, 4294967286 is -10: the struck enemy gains 10 hit points.
    let mut g = playing();
    let mut foes = vec![Foe { kind: EnemyKind::Turret, hp: 40 }];
    let r = g.resolve_hits(&mut foes, &[vec![true]], &[u32::MAX - 9], &[], &[], &[false]);
    assert_eq!(foes[0].hp, 50);
    assert_eq!(r.strikes, vec![Strike { shot: 0, enemy: 0, killed: false }]);
}
