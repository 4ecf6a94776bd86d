use megablast::game::enemies::{apply_damage, credit_value, drop_for_roll, max_hp, maybe_drop, score_value};
use megablast::game::player::{HitOutcome, Player, INVULN_ON_HIT_US, INVULN_ON_RESPAWN_US, MAX_HP};
use megablast::game::shop::{Item, ShopError};
use megablast::game::waves::Scheduler;
use megablast::game::weapons::{downgrade, update, Loadout, FIRE_INTERVAL_US};
use megablast::game::{Dispatch, Game, GameState, Input, ShopOutcome, CONTACT_DAMAGE, LEAVE_SLOT, TICK_US};
use megablast::levels::{level, EnemyKind};

fn keys(up: bool, down: bool, left: bool, right: bool, fire: bool, pause: bool) -> Input {
    Input { up, down, left, right, fire, pause }
}

fn none() -> Input {
    Input::default()
}

fn fire() -> Input {
    keys(false, false, false, false, true, false)
}

fn pause() -> Input {
    keys(false, false, false, false, false, true)
}

/// One full fixed tick of the state machine (no simulation).
fn tick(g: &mut Game, input: Input) -> Dispatch {
    let d = g.dispatch(&input);
    g.debounce_pause(&input);
    d
}

fn in_shop(cash: u32) -> Game {
    let mut g = Game::new();
    g.state = GameState::Shop;
    g.shop.cash = cash;
    g
}

#[test]
fn new_game_starts_in_the_menu_at_level_1() {
    let g = Game::new();
    assert_eq!(g.state, GameState::Menu);
    assert_eq!(g.level, 1);
    assert_eq!(g.score, 0);
    assert_eq!(g.shop.cash, 0);
    assert_eq!(g.player.lives, 3);
    assert_eq!(g.player.hp, MAX_HP);
    assert_eq!(g.loadout.cannon_tier, 1);
    assert_eq!(g.scheduler.next_index, 0);
    assert_eq!(g.scheduler.script.waves.len(), 9);
}

#[test]
fn fire_in_the_menu_starts_play_and_playing_hands_ticks_to_the_simulation() {
    let mut g = Game::new();
    assert_eq!(tick(&mut g, none()), Dispatch::Idle);
    assert_eq!(g.state, GameState::Menu);
    assert_eq!(tick(&mut g, fire()), Dispatch::Idle);
    assert_eq!(g.state, GameState::Playing);
    assert_eq!(tick(&mut g, fire()), Dispatch::Simulate);
}

#[test]
fn pause_toggles_on_the_press_not_while_held() {
    let mut g = Game::new();
    g.state = GameState::Playing;
    tick(&mut g, pause());
    assert_eq!(g.state, GameState::Paused);
    tick(&mut g, pause());
    assert_eq!(g.state, GameState::Paused);
    assert_eq!(tick(&mut g, none()), Dispatch::Idle);
    assert_eq!(g.state, GameState::Paused);
    tick(&mut g, pause());
    assert_eq!(g.state, GameState::Playing);
}

#[test]
fn pause_is_ignored_outside_play() {
    let mut g = Game::new();
    tick(&mut g, pause());
    assert_eq!(g.state, GameState::Menu);
    g.state = GameState::GameOver;
    tick(&mut g, none());
    tick(&mut g, keys(true, true, true, true, true, true));
    assert_eq!(g.state, GameState::GameOver);
    g.state = GameState::Victory;
    tick(&mut g, none());
    tick(&mut g, keys(true, true, true, true, true, true));
    assert_eq!(g.state, GameState::Victory);
}

#[test]
fn first_shop_tick_only_seeds_the_held_keys() {
    let mut g = in_shop(1000);
    // Fire still held from the fight: no purchase on the first tick...
    assert_eq!(tick(&mut g, fire()), Dispatch::Shop(ShopOutcome::Idle));
    assert_eq!(g.shop.cash, 1000);
    // ...nor while it stays held.
    assert_eq!(tick(&mut g, fire()), Dispatch::Shop(ShopOutcome::Idle));
    assert_eq!(g.loadout.cannon_tier, 1);
    // Released then pressed again: buys the highlighted cannon upgrade.
    tick(&mut g, none());
    assert_eq!(tick(&mut g, fire()), Dispatch::Shop(ShopOutcome::Bought(Item::Cannon)));
    assert_eq!(g.loadout.cannon_tier, 2);
    assert_eq!(g.shop.cash, 700);
}

#[test]
fn shop_cursor_moves_and_wraps() {
    let mut g = in_shop(0);
    tick(&mut g, none());
    tick(&mut g, keys(false, false, true, false, false, false));
    assert_eq!(g.shop_cursor, LEAVE_SLOT);
    tick(&mut g, none());
    tick(&mut g, keys(false, false, false, true, false, false));
    assert_eq!(g.shop_cursor, 0);
    tick(&mut g, none());
    tick(&mut g, keys(false, false, false, true, false, false));
    assert_eq!(g.shop_cursor, 1);
}

#[test]
fn refused_purchase_changes_nothing() {
    let mut g = in_shop(299);
    tick(&mut g, none());
    assert_eq!(
        tick(&mut g, fire()),
        Dispatch::Shop(ShopOutcome::Refused(ShopError::InsufficientFunds))
    );
    assert_eq!(g.shop.cash, 299);
    assert_eq!(g.loadout.cannon_tier, 1);
}

#[test]
fn up_or_down_sells_the_highlighted_item() {
    let mut g = in_shop(0);
    g.loadout.cannon_tier = 3;
    tick(&mut g, none());
    assert_eq!(
        tick(&mut g, keys(true, false, false, false, false, false)),
        Dispatch::Shop(ShopOutcome::Sold(Item::Cannon))
    );
    assert_eq!(g.loadout.cannon_tier, 2);
    assert_eq!(g.shop.cash, 300);
    // Still held: no second sale.
    assert_eq!(
        tick(&mut g, keys(false, true, false, false, false, false)),
        Dispatch::Shop(ShopOutcome::Idle)
    );
    assert_eq!(g.loadout.cannon_tier, 2);
}

#[test]
fn leaving_the_shop_starts_level_2_then_wins_after_it() {
    let mut g = in_shop(0);
    g.scheduler.next_index = 9;
    tick(&mut g, none());
    tick(&mut g, keys(false, false, true, false, false, false));
    assert_eq!(tick(&mut g, fire()), Dispatch::Shop(ShopOutcome::NextLevel));
    assert_eq!(g.state, GameState::Playing);
    assert_eq!(g.level, 2);
    assert_eq!(g.scheduler.next_index, 0);
    assert_eq!(g.scheduler.script.waves[0].0, 200);
    assert_eq!(g.shop_prev_input, None);

    g.state = GameState::Shop;
    tick(&mut g, fire());
    tick(&mut g, none());
    assert_eq!(g.shop_cursor, LEAVE_SLOT);
    assert_eq!(tick(&mut g, fire()), Dispatch::Shop(ShopOutcome::Victory));
    assert_eq!(g.state, GameState::Victory);
    assert_eq!(g.level, 2);
}

#[test]
fn shop_sells_repairs_and_extra_lives_through_the_menu() {
    let mut g = in_shop(150 + 900);
    g.player.hp = 50;
    tick(&mut g, none());
    for _ in 0..4 {
        tick(&mut g, keys(false, false, false, true, false, false));
        tick(&mut g, none());
    }
    assert_eq!(g.shop_cursor, 4);
    assert_eq!(tick(&mut g, fire()), Dispatch::Shop(ShopOutcome::Bought(Item::Repair)));
    assert_eq!(g.player.hp, 75);
    tick(&mut g, keys(false, false, false, true, false, false));
    assert_eq!(g.shop_cursor, 5);
    // Right still held, fire newly pressed: buys without moving on.
    assert_eq!(
        tick(&mut g, keys(false, false, false, true, true, false)),
        Dispatch::Shop(ShopOutcome::Bought(Item::ExtraLife))
    );
    assert_eq!(g.player.lives, 4);
    assert_eq!(g.shop.cash, 0);
    tick(&mut g, none());
    assert_eq!(
        tick(&mut g, keys(false, true, false, false, false, false)),
        Dispatch::Shop(ShopOutcome::Refused(ShopError::NotOwned))
    );
}

#[test]
fn drones_absorb_one_bullet_each() {
    let mut g = Game::new();
    g.state = GameState::Playing;
    g.loadout.drones = 2;
    assert_eq!(g.enemy_bullet_hit(10), None);
    assert_eq!(g.enemy_bullet_hit(10), None);
    assert_eq!(g.loadout.drones, 0);
    assert_eq!(g.player.hp, MAX_HP);
    assert_eq!(g.enemy_bullet_hit(10), Some(HitOutcome::Damaged));
    assert_eq!(g.player.hp, 90);
}

#[test]
fn losing_a_life_downgrades_the_cannon_and_keeps_the_cash() {
    let mut g = Game::new();
    g.state = GameState::Playing;
    g.loadout.cannon_tier = 3;
    g.shop.cash = 1234;
    g.score = 500;
    for _ in 0..3 {
        assert_eq!(g.apply_player_hit(CONTACT_DAMAGE), HitOutcome::Damaged);
        g.player.update(INVULN_ON_HIT_US);
    }
    assert_eq!(g.player.hp, 25);
    assert_eq!(g.apply_player_hit(CONTACT_DAMAGE), HitOutcome::LifeLost);
    assert_eq!(g.player.lives, 2);
    assert_eq!(g.player.hp, MAX_HP);
    assert_eq!(g.player.invuln_timer, INVULN_ON_RESPAWN_US);
    assert_eq!(g.loadout.cannon_tier, 2);
    assert_eq!(g.shop.cash, 1234);
    assert_eq!(g.score, 500);
    assert_eq!(g.state, GameState::Playing);
}

#[test]
fn the_last_life_ends_the_game_and_the_tier_floors_at_one() {
    let mut g = Game::new();
    g.state = GameState::Playing;
    for lives_left in [2, 1, 0] {
        g.player.update(INVULN_ON_RESPAWN_US);
        assert_eq!(g.apply_player_hit(1000), HitOutcome::LifeLost);
        assert_eq!(g.player.lives, lives_left);
        assert_eq!(g.loadout.cannon_tier, 1);
    }
    assert_eq!(g.state, GameState::GameOver);
    assert_eq!(tick(&mut g, fire()), Dispatch::Idle);
    assert_eq!(g.state, GameState::GameOver);
}

#[test]
fn hits_during_the_invulnerability_window_are_ignored() {
    let mut p = Player::new();
    assert_eq!(p.hit(10), HitOutcome::Damaged);
    assert_eq!(p.hp, 90);
    p.update(INVULN_ON_HIT_US - 1);
    assert_eq!(p.hit(10), HitOutcome::Ignored);
    assert_eq!(p.hp, 90);
    p.update(1);
    assert_eq!(p.invuln_timer, 0);
    assert_eq!(p.hit(90), HitOutcome::LifeLost);
    assert_eq!(p.lives, 2);
    assert_eq!(p.hp, MAX_HP);
}

#[test]
fn credits_and_kills_add_up() {
    let mut g = Game::new();
    assert_eq!(g.collect_credits(&[5, 10, 500]), 515);
    assert_eq!(g.shop.cash, 515);
    assert_eq!(g.collect_credits(&[]), 0);
    assert_eq!(g.shop.cash, 515);
    assert_eq!(g.score, 0);
}

#[test]
fn waves_are_released_exactly_at_their_triggers() {
    let mut g = Game::new();
    assert!(g.release_waves(299).is_empty());
    let due = g.release_waves(300);
    assert_eq!(due.len(), 1);
    assert_eq!(due[0].enemy, EnemyKind::Popcorn);
    assert_eq!(due[0].count, 5);
    assert!(g.release_waves(649).is_empty());
    let due = g.release_waves(1000);
    assert_eq!(due.len(), 2);
    assert_eq!(due[0].enemy, EnemyKind::Diver);
    assert_eq!(due[1].enemy, EnemyKind::Popcorn);
    assert!(!g.scheduler.is_done());
    let due = g.release_waves(100_000);
    assert_eq!(due.len(), 6);
    assert_eq!(due[5].enemy, EnemyKind::Boss);
    assert!(g.scheduler.is_done());
    assert!(g.release_waves(200_000).is_empty());
}

#[test]
fn the_same_scroll_releases_the_same_waves_however_it_is_stepped() {
    let mut a = Scheduler::new(level(2));
    let mut b = Scheduler::new(level(2));
    let mut from_a = Vec::new();
    let mut scroll = 0;
    while scroll <= 2300 {
        from_a.extend(a.update(scroll));
        scroll += 1;
    }
    let from_b = b.update(2300);
    assert_eq!(from_a, from_b);
    assert_eq!(from_b.len(), 9);
}

#[test]
fn the_level_is_cleared_once_the_released_boss_is_dead() {
    let mut g = Game::new();
    g.state = GameState::Playing;
    assert!(!g.check_level_cleared(&[]));
    g.release_waves(3199);
    assert!(!g.check_level_cleared(&[]));
    g.release_waves(3200);
    assert!(!g.check_level_cleared(&[EnemyKind::Popcorn, EnemyKind::Boss]));
    assert_eq!(g.state, GameState::Playing);
    assert!(g.check_level_cleared(&[EnemyKind::Turret]));
    assert_eq!(g.state, GameState::Shop);
}

#[test]
fn volley_composition_per_tier_and_ownership() {
    let expected = [1, 2, 3, 5];
    for tier in 1..=4u8 {
        for (side, rear) in [(false, false), (true, false), (false, true), (true, true)] {
            for drones in 0..=2u8 {
                let mut l = Loadout { cannon_tier: tier, has_side: side, has_rear: rear, drones, ..Loadout::default() };
                let v = update(&mut l, true, 8333);
                assert_eq!(v.cannon, expected[tier as usize - 1]);
                assert_eq!(v.side, side);
                assert_eq!(v.rear, rear);
                assert_eq!(v.drone_shots, drones);
            }
        }
    }
}

#[test]
fn cannon_fires_six_times_a_second_only_while_held() {
    let mut l = Loadout::default();
    assert_eq!(update(&mut l, false, TICK_US).cannon, 0);
    let mut fired_at = Vec::new();
    // One second of 120 Hz ticks with fire held.
    for tick in 0..120 {
        if update(&mut l, true, TICK_US).cannon > 0 {
            fired_at.push(tick);
        }
        if tick == 0 {
            assert_eq!(l.fire_cooldown, FIRE_INTERVAL_US);
        }
    }
    assert_eq!(fired_at, vec![0, 20, 40, 60, 80, 100]);
}

#[test]
fn downgrade_drops_one_tier_and_floors_at_one() {
    let mut l = Loadout { cannon_tier: 4, ..Loadout::default() };
    downgrade(&mut l);
    assert_eq!(l.cannon_tier, 3);
    downgrade(&mut l);
    downgrade(&mut l);
    assert_eq!(l.cannon_tier, 1);
    downgrade(&mut l);
    assert_eq!(l.cannon_tier, 1);
}

#[test]
fn enemy_hit_points_scores_and_credits() {
    assert_eq!(max_hp(EnemyKind::Popcorn), 10);
    assert_eq!(max_hp(EnemyKind::Boss), 1200);
    assert_eq!(score_value(EnemyKind::Weaver), 120);
    assert_eq!(credit_value(EnemyKind::Turret), 15);
    assert_eq!(credit_value(EnemyKind::Boss), 500);
    let mut hp = max_hp(EnemyKind::Diver);
    assert_eq!(apply_damage(EnemyKind::Diver, &mut hp, 10), None);
    assert_eq!(hp, 10);
    assert_eq!(apply_damage(EnemyKind::Diver, &mut hp, 10), Some(10));
    assert_eq!(hp, 0);
}

#[test]
fn drop_table_is_every_fifth_popcorn_roll_and_every_other_kill() {
    assert_eq!(drop_for_roll(EnemyKind::Popcorn, 5, 0), Some(5));
    assert_eq!(drop_for_roll(EnemyKind::Popcorn, 5, 1), None);
    assert_eq!(drop_for_roll(EnemyKind::Popcorn, 5, 10), Some(5));
    let drops = (0..1000u32).filter(|r| drop_for_roll(EnemyKind::Popcorn, 5, *r).is_some()).count();
    assert_eq!(drops, 200);
    for kind in [EnemyKind::Diver, EnemyKind::Turret, EnemyKind::Weaver, EnemyKind::Boss] {
        assert_eq!(drop_for_roll(kind, 7, 1), Some(7));
        assert_eq!(maybe_drop(kind, credit_value(kind)), Some(credit_value(kind)));
    }
    for _ in 0..100 {
        let d = maybe_drop(EnemyKind::Popcorn, 5);
        assert!(d == None || d == Some(5));
    }
}

#[test]
fn shop_ticks_that_cannot_overflow_run_at_any_cash_or_lives() {
    let mut g = in_shop(u32::MAX);
    g.player.lives = u32::MAX;
    assert!(g.shop_tick_fits(&fire()));
    assert_eq!(tick(&mut g, fire()), Dispatch::Shop(ShopOutcome::Idle));
    assert!(g.shop_tick_fits(&keys(false, false, true, false, false, false)));
    tick(&mut g, keys(false, false, true, false, false, false));
    assert_eq!(g.shop_cursor, LEAVE_SLOT);
    // A purchase only lowers the cash.
    tick(&mut g, none());
    tick(&mut g, keys(false, false, true, false, false, false));
    tick(&mut g, none());
    tick(&mut g, keys(false, false, true, false, false, false));
    assert_eq!(g.shop_cursor, 4);
    assert_eq!(tick(&mut g, fire()), Dispatch::Shop(ShopOutcome::Bought(Item::Repair)));
    assert_eq!(g.shop.cash, u32::MAX - 150);
    // Buying an extra life would overflow the lives: that tick does not fit.
    tick(&mut g, none());
    tick(&mut g, keys(false, false, false, true, false, false));
    tick(&mut g, none());
    assert_eq!(g.shop_cursor, 5);
    assert!(!g.shop_tick_fits(&fire()));
    // Selling something not owned fits; a refund that overflows does not.
    assert!(g.shop_tick_fits(&keys(true, false, false, false, false, false)));
    g.loadout.drones = 1;
    g.shop_cursor = 3;
    assert!(!g.shop_tick_fits(&keys(true, false, false, false, false, false)));
    g.shop.cash = u32::MAX - 250;
    assert!(g.shop_tick_fits(&keys(true, false, false, false, false, false)));
    assert_eq!(
        tick(&mut g, keys(true, false, false, false, false, false)),
        Dispatch::Shop(ShopOutcome::Sold(Item::Drone))
    );
    assert_eq!(g.shop.cash, u32::MAX);
}
