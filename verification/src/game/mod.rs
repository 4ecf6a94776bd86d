//! `Game`: the discrete state of a run -- the explicit state machine
//! (`Menu -> Playing <-> Paused -> Shop -> Playing ... -> GameOver/Victory`),
//! the player's vitals, the weapon tree, the shop, score, level and the
//! spawn scheduler -- and the rules that change it each fixed tick.
//!
//! Continuous motion and collision geometry are not part of this type: the
//! caller runs them while `dispatch` reports `Dispatch::Simulate`, and feeds
//! what they found back in through the `Playing`-phase methods below
//! (`resolve_hits`, `apply_player_hit`, `enemy_bullet_hit`, `collect_credits`,
//! `release_waves`, `check_level_cleared`).

pub mod enemies;
pub mod hits;
pub mod player;
pub mod shop;
pub mod waves;
pub mod weapons;

use vstd::prelude::*;

use crate::levels::{base_scroll_speed, level, level_waves, EnemyKind, Wave, TOTAL_LEVELS};
use player::{HitOutcome, Player, MAX_HP};
use shop::{buy_effect, sell_effect, sell_price, Item, Shop, ShopError, EXTRA_LIFE_PRICE};
use waves::{next_after, waves_between, Scheduler};
use weapons::{downgraded_tier, Loadout};

verus! {

/// Logical portrait playfield, pixels.
pub const PLAYFIELD_WIDTH: u32 = 600;
pub const PLAYFIELD_HEIGHT: u32 = 800;

/// One fixed 120 Hz simulation tick in whole microseconds, rounded up so
/// that every timer runs out on the same tick as with exact time: the fire
/// interval after 20 ticks, a drone's after 60, a hit's invulnerability
/// after 180 and a respawn's after 240.
pub const TICK_US: u32 = 8_334;

/// Damage the ship takes from touching an enemy.
pub const CONTACT_DAMAGE: u32 = 25;

/// Slots of the shop menu: the six items, then "Leave".
pub const SHOP_SLOTS: usize = 7;
/// The shop menu's "Leave" slot.
pub const LEAVE_SLOT: usize = 6;

#[derive(Debug, Clone, Copy, PartialEq, Eq, Structural)]
pub struct Input {
    pub up: bool,
    pub down: bool,
    pub left: bool,
    pub right: bool,
    pub fire: bool,
    pub pause: bool,
}

impl Default for Input {
    fn default() -> (i: Self)
        ensures
            !i.up && !i.down && !i.left && !i.right && !i.fire && !i.pause,
    {
        Input { up: false, down: false, left: false, right: false, fire: false, pause: false }
    }
}

#[derive(Debug, Clone, Copy, PartialEq, Eq, Structural)]
pub enum GameState {
    Menu,
    Playing,
    Paused,
    Shop,
    GameOver,
    Victory,
}

impl Default for GameState {
    fn default() -> (s: Self)
        ensures
            s == GameState::Menu,
    {
        GameState::Menu
    }
}

/// What a shop tick did.
#[derive(Debug, Clone, Copy, PartialEq, Eq, Structural)]
pub enum ShopOutcome {
    /// Nothing was bought, sold or left.
    Idle,
    Bought(Item),
    Sold(Item),
    /// A purchase or sale was attempted and refused; nothing changed.
    Refused(ShopError),
    /// Left the shop into the next level.
    NextLevel,
    /// Left the shop after the last level: the game is won.
    Victory,
}

/// What `dispatch` did with a tick.
#[derive(Debug, Clone, Copy, PartialEq, Eq, Structural)]
pub enum Dispatch {
    /// The game is being played: the caller now runs this tick's simulation.
    Simulate,
    /// A shop tick ran.
    Shop(ShopOutcome),
    /// A menu tick, or a state in which ticks do nothing.
    Idle,
}

/// The mathematical state of a game.
pub struct GameView {
    pub state: GameState,
    pub player: Player,
    pub loadout: Loadout,
    pub cash: u32,
    pub score: u32,
    pub level: usize,
    pub shop_cursor: usize,
    pub pause_was_held: bool,
    pub shop_prev_input: Option<Input>,
    /// The current level's wave script and scroll speed.
    pub waves: Seq<(u32, Wave)>,
    pub scroll_speed: u32,
    /// Index of the first wave not yet released.
    pub next_index: usize,
}

pub struct Game {
    pub state: GameState,
    pub player: Player,
    pub loadout: Loadout,
    pub shop: Shop,
    pub score: u32,
    /// 1-based current level.
    pub level: usize,
    /// Which of the shop menu's 7 slots is highlighted (0..7, wrapping):
    /// Cannon, SideShots, RearShot, Drone, Repair, ExtraLife, then Leave.
    pub shop_cursor: usize,
    pub scheduler: Scheduler,
    /// Pause key as seen on the previous tick (edge detection).
    pub pause_was_held: bool,
    /// The input seen on the previous shop tick, so held keys don't repeat;
    /// `None` right after entering the shop (the first tick only seeds it).
    pub shop_prev_input: Option<Input>,
}

impl View for Game {
    type V = GameView;

    open spec fn view(&self) -> GameView {
        GameView {
            state: self.state,
            player: self.player,
            loadout: self.loadout,
            cash: self.shop.cash,
            score: self.score,
            level: self.level,
            shop_cursor: self.shop_cursor,
            pause_was_held: self.pause_was_held,
            shop_prev_input: self.shop_prev_input,
            waves: self.scheduler.script.waves@,
            scroll_speed: self.scheduler.script.scroll_speed,
            next_index: self.scheduler.next_index,
        }
    }
}

impl GameView {
    /// A state the game can be in.
    pub open spec fn wf(self) -> bool {
        &&& 1 <= self.level <= TOTAL_LEVELS
        &&& self.shop_cursor < SHOP_SLOTS
        &&& self.loadout.wf()
        &&& self.player.wf()
        &&& self.waves == level_waves(self.level as int)
        &&& self.scroll_speed == base_scroll_speed()
        &&& self.next_index <= self.waves.len()
    }
}

/// The state a new game starts in: the menu, level 1 with no wave released,
/// a fresh ship, the starting loadout, no cash and no score.
pub open spec fn new_game() -> GameView {
    GameView {
        state: GameState::Menu,
        player: Player::spawned(),
        loadout: weapons::starting_loadout(),
        cash: 0,
        score: 0,
        level: 1,
        shop_cursor: 0,
        pause_was_held: false,
        shop_prev_input: None,
        waves: level_waves(1),
        scroll_speed: base_scroll_speed(),
        next_index: 0,
    }
}

/// Pause toggles Playing <-> Paused on the tick the key goes down (a held
/// key does not toggle again); other states ignore it.
pub open spec fn pause_step(g: GameView, input: Input) -> GameView {
    GameView {
        state: if input.pause && !g.pause_was_held {
            match g.state {
                GameState::Playing => GameState::Paused,
                GameState::Paused => GameState::Playing,
                other => other,
            }
        } else {
            g.state
        },
        pause_was_held: input.pause,
        ..g
    }
}

/// Fire starts the game from the menu.
pub open spec fn menu_step(g: GameView, input: Input) -> GameView {
    if input.fire {
        GameView { state: GameState::Playing, ..g }
    } else {
        g
    }
}

/// The item on shop slot `slot` (slots 0 to 5).
pub open spec fn shop_item_spec(slot: int) -> Item {
    if slot == 0 {
        Item::Cannon
    } else if slot == 1 {
        Item::SideShots
    } else if slot == 2 {
        Item::RearShot
    } else if slot == 3 {
        Item::Drone
    } else if slot == 4 {
        Item::Repair
    } else {
        Item::ExtraLife
    }
}

/// The shop cursor after left (one slot back) and right (one slot on), each
/// on its key going down, wrapping over the seven slots.
pub open spec fn cursor_after(cursor: usize, input: Input, prev: Input) -> usize {
    let c1: usize = if input.left && !prev.left {
        ((cursor + SHOP_SLOTS - 1) % (SHOP_SLOTS as int)) as usize
    } else {
        cursor
    };
    if input.right && !prev.right {
        ((c1 + 1) % (SHOP_SLOTS as int)) as usize
    } else {
        c1
    }
}

/// One shop tick. The first tick after entering only records the input.
/// Afterwards, each action happens on its key going down: left/right move
/// the cursor; fire buys the highlighted item or, on "Leave", starts the
/// next level (or wins the game after the last one); up or down sell the
/// highlighted item.
pub open spec fn shop_step(g: GameView, input: Input) -> (GameView, ShopOutcome) {
    match g.shop_prev_input {
        None => (GameView { shop_prev_input: Some(input), ..g }, ShopOutcome::Idle),
        Some(prev) => {
            let g1 = GameView {
                shop_prev_input: Some(input),
                shop_cursor: cursor_after(g.shop_cursor, input, prev),
                ..g
            };
            let item = shop_item_spec(g1.shop_cursor as int);
            if input.fire && !prev.fire {
                if g1.shop_cursor == LEAVE_SLOT {
                    if g1.level < TOTAL_LEVELS {
                        (
                            GameView {
                                shop_prev_input: None,
                                level: (g1.level + 1) as usize,
                                waves: level_waves(g1.level + 1),
                                scroll_speed: base_scroll_speed(),
                                next_index: 0,
                                state: GameState::Playing,
                                ..g1
                            },
                            ShopOutcome::NextLevel,
                        )
                    } else {
                        (
                            GameView { shop_prev_input: None, state: GameState::Victory, ..g1 },
                            ShopOutcome::Victory,
                        )
                    }
                } else {
                    let e = buy_effect(g1.cash, g1.loadout, g1.player.lives, g1.player.hp, MAX_HP, item);
                    (
                        GameView {
                            cash: e.1,
                            loadout: e.2,
                            player: Player { lives: e.3, hp: e.4, ..g1.player },
                            ..g1
                        },
                        match e.0 {
                            Ok(_) => ShopOutcome::Bought(item),
                            Err(err) => ShopOutcome::Refused(err),
                        },
                    )
                }
            } else if (input.up || input.down) && !(prev.up || prev.down) && g1.shop_cursor != LEAVE_SLOT {
                let e = sell_effect(g1.cash, g1.loadout, item);
                (
                    GameView { cash: e.1, loadout: e.2, ..g1 },
                    match e.0 {
                        Ok(_) => ShopOutcome::Sold(item),
                        Err(err) => ShopOutcome::Refused(err),
                    },
                )
            } else {
                (g1, ShopOutcome::Idle)
            }
        },
    }
}

/// Whether a shop tick's arithmetic fits in 32 bits: the only overflows a
/// shop tick can hit are buying an extra life with `u32::MAX` lives already,
/// and a sale whose half-price refund does not fit in the cash. Every other
/// tick -- seeding, cursor moves, leaving, other purchases, refunds that fit
/// -- always fits.
pub open spec fn shop_tick_fits(g: GameView, input: Input) -> bool {
    match g.shop_prev_input {
        None => true,
        Some(prev) => {
            let c = cursor_after(g.shop_cursor, input, prev);
            let item = shop_item_spec(c as int);
            if input.fire && !prev.fire {
                c != LEAVE_SLOT && item == Item::ExtraLife && g.cash >= EXTRA_LIFE_PRICE ==> g.player.lives
                    < u32::MAX
            } else if (input.up || input.down) && !(prev.up || prev.down) && c != LEAVE_SLOT {
                sell_price(g.loadout, item) is Ok ==> g.cash + sell_price(g.loadout, item)->Ok_0 / 2 <= u32::MAX
            } else {
                true
            }
        },
    }
}

/// The state-machine half of a tick: the menu and the shop act on the input,
/// playing hands the tick to the simulation, every other state waits.
pub open spec fn dispatch_step(g: GameView, input: Input) -> (GameView, Dispatch) {
    match g.state {
        GameState::Menu => (menu_step(g, input), Dispatch::Idle),
        GameState::Playing => (g, Dispatch::Simulate),
        GameState::Shop => {
            let (g2, o) = shop_step(g, input);
            (g2, Dispatch::Shop(o))
        },
        _ => (g, Dispatch::Idle),
    }
}

/// `dmg` damage to the ship. Spending a life also downgrades the cannon one
/// tier, and spending the last one ends the game.
pub open spec fn player_hit_step(g: GameView, dmg: u32) -> (GameView, HitOutcome) {
    let (p, out) = g.player.hit_spec(dmg);
    if out == HitOutcome::LifeLost {
        (
            GameView {
                player: p,
                loadout: Loadout { cannon_tier: downgraded_tier(g.loadout.cannon_tier), ..g.loadout },
                state: if p.lives == 0 { GameState::GameOver } else { g.state },
                ..g
            },
            out,
        )
    } else {
        (GameView { player: p, ..g }, out)
    }
}

/// An enemy bullet reaching the ship: a drone absorbs it (and is lost) if
/// there is one; otherwise the ship takes the bullet's damage.
pub open spec fn bullet_hit_step(g: GameView, dmg: u32) -> (GameView, Option<HitOutcome>) {
    if g.loadout.drones > 0 {
        (GameView { loadout: Loadout { drones: (g.loadout.drones - 1) as u8, ..g.loadout }, ..g }, None)
    } else {
        let (g2, o) = player_hit_step(g, dmg);
        (g2, Some(o))
    }
}

/// Sum of a sequence of credit values.
pub open spec fn seq_sum(s: Seq<u32>) -> int
    decreases s.len(),
{
    if s.len() == 0 {
        0
    } else {
        seq_sum(s.drop_last()) + s.last()
    }
}

/// Whether the level is cleared: the script has a boss, every wave has been
/// released, and no boss is alive.
pub open spec fn level_cleared(g: GameView, live: Seq<EnemyKind>) -> bool {
    &&& exists|i: int| 0 <= i < g.waves.len() && g.waves[i].1.enemy == EnemyKind::Boss
    &&& !live.contains(EnemyKind::Boss)
    &&& g.next_index >= g.waves.len()
}

proof fn lemma_seq_sum_step(s: Seq<u32>, i: int)
    requires
        0 <= i < s.len(),
    ensures
        seq_sum(s.take(i + 1)) == seq_sum(s.take(i)) + s[i],
        seq_sum(s.take(i)) >= 0,
    decreases i,
{
    assert(s.take(i + 1).drop_last() =~= s.take(i));
    if i > 0 {
        lemma_seq_sum_step(s, i - 1);
    }
}

impl Game {
    pub fn new() -> (g: Self)
        ensures
            g@ == new_game(),
            g@.wf(),
    {
        Game {
            state: GameState::Menu,
            player: Player::new(),
            loadout: Loadout::default(),
            shop: Shop { cash: 0 },
            score: 0,
            level: 1,
            shop_cursor: 0,
            scheduler: Scheduler::new(level(1)),
            pause_was_held: false,
            shop_prev_input: None,
        }
    }

    /// Whether the shop tick `input` would make fits in 32 bits (see
    /// `shop_tick_fits`); callers check it before a shop tick.
    pub fn shop_tick_fits(&self, input: &Input) -> (fits: bool)
        requires
            self@.wf(),
        ensures
            fits == shop_tick_fits(self@, *input),
    {
        let prev = match self.shop_prev_input {
            None => return true,
            Some(p) => p,
        };
        let mut c: usize = self.shop_cursor;
        if input.left && !prev.left {
            c = (c + SHOP_SLOTS - 1) % SHOP_SLOTS;
        }
        if input.right && !prev.right {
            c = (c + 1) % SHOP_SLOTS;
        }
        if c == LEAVE_SLOT {
            return true;
        }
        let item = shop_item(c);
        if input.fire && !prev.fire {
            !(item == Item::ExtraLife && self.shop.cash >= EXTRA_LIFE_PRICE) || self.player.lives < u32::MAX
        } else if (input.up || input.down) && !(prev.up || prev.down) {
            match shop::sell_refund(&self.loadout, item) {
                Some(r) => self.shop.cash <= u32::MAX - r,
                None => true,
            }
        } else {
            true
        }
    }

    /// Runs the state-machine half of a fixed tick: dispatches on `state`.
    /// On `Dispatch::Simulate` the caller runs the playing simulation; either
    /// way it then calls `debounce_pause`.
    pub fn dispatch(&mut self, input: &Input) -> (d: Dispatch)
        requires
            old(self)@.wf(),
            old(self).state == GameState::Shop ==> shop_tick_fits(old(self)@, *input),
        ensures
            (final(self)@, d) == dispatch_step(old(self)@, *input),
            final(self)@.wf(),
    {
        match self.state {
            GameState::Menu => {
                self.tick_menu(input);
                Dispatch::Idle
            },
            GameState::Playing => Dispatch::Simulate,
            GameState::Shop => Dispatch::Shop(self.tick_shop(input)),
            _ => Dispatch::Idle,
        }
    }

    /// Edge-detects Pause so a held key doesn't toggle every tick.
    pub fn debounce_pause(&mut self, input: &Input)
        ensures
            final(self)@ == pause_step(old(self)@, *input),
            final(self).scheduler.script == old(self).scheduler.script,
    {
        if input.pause && !self.pause_was_held {
            self.state = match self.state {
                GameState::Playing => GameState::Paused,
                GameState::Paused => GameState::Playing,
                other => other,
            };
        }
        self.pause_was_held = input.pause;
    }

    /// Fire starts the game.
    pub fn tick_menu(&mut self, input: &Input)
        ensures
            final(self)@ == menu_step(old(self)@, *input),
    {
        if input.fire {
            self.state = GameState::Playing;
        }
    }

    /// One tick of the shop menu (see `shop_step`).
    pub fn tick_shop(&mut self, input: &Input) -> (o: ShopOutcome)
        requires
            old(self)@.wf(),
            shop_tick_fits(old(self)@, *input),
        ensures
            (final(self)@, o) == shop_step(old(self)@, *input),
            final(self)@.wf(),
    {
        let prev = match self.shop_prev_input {
            None => {
                self.shop_prev_input = Some(*input);
                return ShopOutcome::Idle;
            },
            Some(p) => p,
        };
        self.shop_prev_input = Some(*input);

        if input.left && !prev.left {
            self.shop_cursor = (self.shop_cursor + SHOP_SLOTS - 1) % SHOP_SLOTS;
        }
        if input.right && !prev.right {
            self.shop_cursor = (self.shop_cursor + 1) % SHOP_SLOTS;
        }

        if input.fire && !prev.fire {
            if self.shop_cursor == LEAVE_SLOT {
                self.shop_prev_input = None;
                if self.level < TOTAL_LEVELS {
                    self.level = self.level + 1;
                    self.scheduler = Scheduler::new(level(self.level));
                    self.state = GameState::Playing;
                    return ShopOutcome::NextLevel;
                } else {
                    self.state = GameState::Victory;
                    return ShopOutcome::Victory;
                }
            } else {
                let item = shop_item(self.shop_cursor);
                let r = shop::buy(
                    &mut self.shop,
                    &mut self.loadout,
                    &mut self.player.lives,
                    &mut self.player.hp,
                    MAX_HP,
                    item,
                );
                return match r {
                    Ok(()) => ShopOutcome::Bought(item),
                    Err(e) => ShopOutcome::Refused(e),
                };
            }
        }

        let sell_now = input.up || input.down;
        let sell_prev = prev.up || prev.down;
        if sell_now && !sell_prev && self.shop_cursor != LEAVE_SLOT {
            let item = shop_item(self.shop_cursor);
            match shop::sell(&mut self.shop, &mut self.loadout, item) {
                Ok(()) => ShopOutcome::Sold(item),
                Err(e) => ShopOutcome::Refused(e),
            }
        } else {
            ShopOutcome::Idle
        }
    }

    /// Damages the player and reacts to a life being spent: downgrade the
    /// cannon one tier, and Game Over when no lives are left.
    pub fn apply_player_hit(&mut self, dmg: u32) -> (o: HitOutcome)
        requires
            old(self)@.wf(),
        ensures
            (final(self)@, o) == player_hit_step(old(self)@, dmg),
            final(self)@.wf(),
    {
        let o = self.player.hit(dmg);
        if o == HitOutcome::LifeLost {
            weapons::downgrade(&mut self.loadout);
            if self.player.lives == 0 {
                self.state = GameState::GameOver;
            }
        }
        o
    }

    /// An enemy bullet reached the ship: a drone absorbs it if there is one
    /// (`None`), otherwise the ship takes `dmg`.
    pub fn enemy_bullet_hit(&mut self, dmg: u32) -> (o: Option<HitOutcome>)
        requires
            old(self)@.wf(),
        ensures
            (final(self)@, o) == bullet_hit_step(old(self)@, dmg),
            final(self)@.wf(),
    {
        if self.loadout.drones > 0 {
            self.loadout.drones = self.loadout.drones - 1;
            None
        } else {
            Some(self.apply_player_hit(dmg))
        }
    }

    /// Adds the values of the credit pickups collected this tick to the cash
    /// and returns their total.
    pub fn collect_credits(&mut self, values: &[u32]) -> (total: u32)
        requires
            old(self).shop.cash + seq_sum(values@) <= u32::MAX,
        ensures
            total == seq_sum(values@),
            final(self)@ == (GameView { cash: (old(self).shop.cash + total) as u32, ..old(self)@ }),
    {
        let mut total: u32 = 0;
        let mut i: usize = 0;
        while i < values.len()
            invariant
                i <= values@.len(),
                total == seq_sum(values@.take(i as int)),
                old(self).shop.cash + seq_sum(values@) <= u32::MAX,
                self.shop.cash == old(self).shop.cash,
                values@.take(values@.len() as int) =~= values@,
            decreases values.len() - i,
        {
            proof {
                lemma_seq_sum_step(values@, i as int);
                lemma_seq_sum_prefix_le(values@, i as int + 1);
            }
            total = total + values[i];
            i = i + 1;
        }
        self.shop.cash = self.shop.cash + total;
        total
    }

    /// Releases the waves now due at scroll position `scroll_px` (pixels).
    pub fn release_waves(&mut self, scroll_px: u32) -> (due: Vec<Wave>)
        requires
            old(self)@.wf(),
        ensures
            final(self)@ == (GameView {
                next_index: next_after(old(self)@.waves, old(self)@.next_index as int, scroll_px) as usize,
                ..old(self)@
            }),
            due@ == waves_between(old(self)@.waves, old(self)@.next_index as int, final(self)@.next_index as int),
            final(self)@.wf(),
    {
        self.scheduler.update(scroll_px)
    }

    /// Ends the level into the shop once its boss has been released and
    /// killed (`live` lists the kinds of the enemies still alive).
    pub fn check_level_cleared(&mut self, live: &[EnemyKind]) -> (cleared: bool)
        ensures
            cleared == level_cleared(old(self)@, live@),
            final(self)@ == (if cleared { GameView { state: GameState::Shop, ..old(self)@ } } else { old(self)@ }),
    {
        let waves = &self.scheduler.script.waves;
        let mut boss_scripted = false;
        let mut i: usize = 0;
        while i < waves.len()
            invariant
                i <= waves@.len(),
                boss_scripted <==> exists|j: int| 0 <= j < i && waves@[j].1.enemy == EnemyKind::Boss,
            decreases waves.len() - i,
        {
            if waves[i].1.enemy == EnemyKind::Boss {
                boss_scripted = true;
            }
            i = i + 1;
        }
        let mut boss_alive = false;
        let mut k: usize = 0;
        while k < live.len()
            invariant
                k <= live@.len(),
                boss_alive <==> exists|j: int| 0 <= j < k && live@[j] == EnemyKind::Boss,
            decreases live.len() - k,
        {
            if live[k] == EnemyKind::Boss {
                boss_alive = true;
            }
            k = k + 1;
        }
        let cleared = boss_scripted && !boss_alive && self.scheduler.is_done();
        if cleared {
            self.state = GameState::Shop;
        }
        cleared
    }
}

/// The item on shop slot `slot` (slots 0 to 5).
pub fn shop_item(slot: usize) -> (item: Item)
    ensures
        item == shop_item_spec(slot as int),
{
    if slot == 0 {
        Item::Cannon
    } else if slot == 1 {
        Item::SideShots
    } else if slot == 2 {
        Item::RearShot
    } else if slot == 3 {
        Item::Drone
    } else if slot == 4 {
        Item::Repair
    } else {
        Item::ExtraLife
    }
}

proof fn lemma_seq_sum_prefix_le(s: Seq<u32>, i: int)
    requires
        0 <= i <= s.len(),
    ensures
        0 <= seq_sum(s.take(i)) <= seq_sum(s),
    decreases s.len() - i,
{
    if i < s.len() {
        lemma_seq_sum_prefix_le(s, i + 1);
        lemma_seq_sum_step(s, i);
    } else {
        assert(s.take(i) =~= s);
        if i > 0 {
            lemma_seq_sum_step(s, i - 1);
        }
    }
}

/// An input with only the pause key in the given position.
pub open spec fn pause_only(held: bool) -> Input {
    Input { up: false, down: false, left: false, right: false, fire: false, pause: held }
}

/// Pause: pressing it toggles Playing <-> Paused, holding it does not toggle
/// again, and press-release-press comes back to the original state.
pub proof fn lemma_pause_toggles_on_press(g: GameView)
    requires
        g.state == GameState::Playing || g.state == GameState::Paused,
        !g.pause_was_held,
    ensures
        ({
            let g1 = pause_step(g, pause_only(true));
            let g2 = pause_step(g1, pause_only(true));
            let g3 = pause_step(pause_step(g1, pause_only(false)), pause_only(true));
            &&& g1.state != g.state
            &&& g1.state == GameState::Playing || g1.state == GameState::Paused
            &&& g2.state == g1.state
            &&& g3.state == g.state
        }),
{
}

/// Pause never moves any state other than Playing and Paused.
pub proof fn lemma_pause_only_affects_play(g: GameView, input: Input)
    requires
        g.state != GameState::Playing && g.state != GameState::Paused,
    ensures
        pause_step(g, input).state == g.state,
{
}

/// Game Over and Victory are final: no tick leaves them.
pub proof fn lemma_end_states_are_final(g: GameView, input: Input)
    requires
        g.state == GameState::GameOver || g.state == GameState::Victory,
    ensures
        dispatch_step(g, input) == (g, Dispatch::Idle),
        pause_step(dispatch_step(g, input).0, input).state == g.state,
{
}

/// Shop edge detection: a tick whose input is the same as the previous
/// shop tick's does nothing at all -- held keys never repeat.
pub proof fn lemma_shop_held_keys_do_not_repeat(g: GameView, input: Input)
    requires
        g.shop_prev_input == Some(input),
    ensures
        shop_step(g, input) == (g, ShopOutcome::Idle),
{
}

/// The first shop tick only records the input (keys held from the fight
/// that just ended do not act in the shop).
pub proof fn lemma_shop_first_tick_only_seeds(g: GameView, input: Input)
    requires
        g.shop_prev_input is None,
    ensures
        shop_step(g, input) == (GameView { shop_prev_input: Some(input), ..g }, ShopOutcome::Idle),
{
}

/// Leaving the shop starts the next level at its first wave, or wins the
/// game after the last level.
pub proof fn lemma_leaving_the_shop(g: GameView, input: Input, prev: Input)
    requires
        g.wf(),
        g.shop_prev_input == Some(prev),
        cursor_after(g.shop_cursor, input, prev) == LEAVE_SLOT,
        input.fire && !prev.fire,
    ensures
        ({
            let (g2, o) = shop_step(g, input);
            &&& g2.wf()
            &&& g2.shop_prev_input is None
            &&& g.level < TOTAL_LEVELS ==> {
                &&& o == ShopOutcome::NextLevel
                &&& g2.state == GameState::Playing
                &&& g2.level == g.level + 1
                &&& g2.next_index == 0
                &&& g2.waves == level_waves(g.level + 1)
            }
            &&& g.level == TOTAL_LEVELS ==> o == ShopOutcome::Victory && g2.state == GameState::Victory
            &&& g2.cash == g.cash && g2.loadout == g.loadout && g2.player == g.player && g2.score == g.score
        }),
{
}

/// Shop accounting: a purchase pays exactly the item's price, a sale refunds
/// exactly half, and a refusal changes neither cash nor loadout.
pub proof fn lemma_shop_accounting(g: GameView, input: Input)
    requires
        g.wf(),
        g.shop_prev_input is Some,
        shop_tick_fits(g, input),
    ensures
        ({
            let (g2, o) = shop_step(g, input);
            let item = shop_item_spec(g2.shop_cursor as int);
            &&& o == ShopOutcome::Bought(item) ==> g2.cash == g.cash - shop::buy_price(g.loadout, item)->Ok_0
                && g2.loadout == shop::bought(g.loadout, item)
            &&& o == ShopOutcome::Sold(item) ==> g2.cash == g.cash + shop::sell_price(g.loadout, item)->Ok_0 / 2
                && g2.loadout == shop::sold(g.loadout, item)
            &&& (o is Refused || o is Idle) ==> g2.cash == g.cash && g2.loadout == g.loadout && g2.player
                == g.player
        }),
{
}

/// Losing a life: one life spent, the cannon down one tier (never below 1),
/// cash and score kept (credits persist across lives), and Game Over exactly
/// when no life is left.
pub proof fn lemma_life_loss(g: GameView, dmg: u32)
    requires
        g.wf(),
        g.player.lives > 0,
        player_hit_step(g, dmg).1 == HitOutcome::LifeLost,
    ensures
        ({
            let g2 = player_hit_step(g, dmg).0;
            &&& g2.player.lives == g.player.lives - 1
            &&& g2.player.hp == MAX_HP
            &&& g2.loadout.cannon_tier == downgraded_tier(g.loadout.cannon_tier)
            &&& g2.loadout.cannon_tier >= 1
            &&& g2.cash == g.cash
            &&& g2.score == g.score
            &&& (g2.state == GameState::GameOver <==> (g2.player.lives == 0 || g.state == GameState::GameOver))
        }),
{
}

/// A hit that does not spend a life never touches the loadout, the cash or
/// the state; while invulnerable, nothing changes at all.
pub proof fn lemma_hit_without_life_loss(g: GameView, dmg: u32)
    requires
        player_hit_step(g, dmg).1 != HitOutcome::LifeLost,
    ensures
        player_hit_step(g, dmg).0 == (GameView { player: player_hit_step(g, dmg).0.player, ..g }),
        g.player.invuln_timer > 0 ==> player_hit_step(g, dmg) == (g, HitOutcome::Ignored),
{
}

/// Drones absorb one enemy bullet each, then are lost: the ship is untouched.
pub proof fn lemma_drone_absorbs_bullet(g: GameView, dmg: u32)
    requires
        g.loadout.drones > 0,
    ensures
        ({
            let (g2, o) = bullet_hit_step(g, dmg);
            &&& o is None
            &&& g2.loadout.drones == g.loadout.drones - 1
            &&& g2.player == g.player
            &&& g2.state == g.state
        }),
{
}

/// Every level has a boss, so a level is cleared exactly when all its waves
/// have been released and no boss is left alive.
pub proof fn lemma_level_cleared_when_boss_gone(g: GameView, live: Seq<EnemyKind>)
    requires
        g.wf(),
    ensures
        level_cleared(g, live) <==> (!live.contains(EnemyKind::Boss) && g.next_index == g.waves.len()),
{
    crate::levels::lemma_levels_end_in_single_boss(g.level as int);
    let w = g.waves;
    assert(w[w.len() - 1].1.enemy == EnemyKind::Boss);
}

/// The edges of the state diagram: Menu -> Playing <-> Paused,
/// Playing -> Shop (level cleared) or GameOver (last life spent),
/// Shop -> Playing (next level) or Victory (after the last one).
pub open spec fn diagram_edge(a: GameState, b: GameState) -> bool {
    a == b || match (a, b) {
        (GameState::Menu, GameState::Playing) => true,
        (GameState::Playing, GameState::Paused) => true,
        (GameState::Paused, GameState::Playing) => true,
        (GameState::Playing, GameState::Shop) => true,
        (GameState::Playing, GameState::GameOver) => true,
        (GameState::Shop, GameState::Playing) => true,
        (GameState::Shop, GameState::Victory) => true,
        _ => false,
    }
}

/// Every step of the game moves its state along an edge of the diagram:
/// a tick's dispatch, its pause check, a hit on the ship (alone or through a
/// bullet), and the level-cleared check.
pub proof fn lemma_transitions_follow_the_diagram(
    g: GameView,
    input: Input,
    dmg: u32,
    live: Seq<EnemyKind>,
)
    ensures
        diagram_edge(g.state, dispatch_step(g, input).0.state),
        diagram_edge(g.state, pause_step(g, input).state),
        g.state == GameState::Playing ==> diagram_edge(g.state, player_hit_step(g, dmg).0.state),
        g.state == GameState::Playing ==> diagram_edge(g.state, bullet_hit_step(g, dmg).0.state),
        g.state == GameState::Playing ==> diagram_edge(
            g.state,
            if level_cleared(g, live) { GameState::Shop } else { g.state },
        ),
{
}

/// The shop cursor always stays on one of the seven slots, and a left press
/// followed by a right press comes back to the same slot.
pub proof fn lemma_cursor_wraps(cursor: usize, prev: Input)
    requires
        cursor < SHOP_SLOTS,
        !prev.left && !prev.right,
    ensures
        ({
            let left = Input { left: true, right: false, ..prev };
            let right = Input { left: false, right: true, ..prev };
            let c1 = cursor_after(cursor, left, prev);
            &&& c1 < SHOP_SLOTS
            &&& c1 == (if cursor == 0 { LEAVE_SLOT } else { (cursor - 1) as usize })
            &&& cursor_after(c1, right, left) == cursor
        }),
{
}

/// The shop never reads the pause key: a shop tick does the same with it
/// held or not (only the recorded input differs).
pub proof fn lemma_shop_ignores_pause(g: GameView, input: Input)
    ensures
        ({
            let other = Input { pause: !input.pause, ..input };
            &&& shop_step(g, other).1 == shop_step(g, input).1
            &&& (GameView { shop_prev_input: None, ..shop_step(g, other).0 }) == (GameView {
                shop_prev_input: None,
                ..shop_step(g, input).0
            })
            &&& shop_tick_fits(g, other) == shop_tick_fits(g, input)
        }),
{
}

/// The shop cursor law, for every shop tick: a fresh left press moves one
/// slot back, a fresh right press one slot on, both wrapping over the seven
/// slots, and a key already held on the previous tick does not move it.
pub proof fn lemma_cursor_law(cursor: usize, input: Input, prev: Input)
    requires
        cursor < SHOP_SLOTS,
    ensures
        cursor_after(cursor, input, prev) < SHOP_SLOTS,
        cursor_after(cursor, input, prev) == (cursor + (if input.left && !prev.left { 6int } else { 0int }) + (
        if input.right && !prev.right { 1int } else { 0int })) % 7,
{
}

/// The six item slots of the shop menu hold Cannon, SideShots, RearShot,
/// Drone, Repair, ExtraLife in that order: every item is on exactly one slot.
pub proof fn lemma_shop_slots_hold_every_item_once(item: Item)
    ensures
        exists|s: int| 0 <= s < LEAVE_SLOT && shop_item_spec(s) == item,
        forall|s1: int, s2: int|
            0 <= s1 < LEAVE_SLOT && 0 <= s2 < LEAVE_SLOT && shop_item_spec(s1) == item && shop_item_spec(s2) == item
                ==> s1 == s2,
        shop_item_spec(0) == Item::Cannon && shop_item_spec(1) == Item::SideShots && shop_item_spec(2)
            == Item::RearShot,
        shop_item_spec(3) == Item::Drone && shop_item_spec(4) == Item::Repair && shop_item_spec(5)
            == Item::ExtraLife,
{
    let s: int = match item {
        Item::Cannon => 0,
        Item::SideShots => 1,
        Item::RearShot => 2,
        Item::Drone => 3,
        Item::Repair => 4,
        Item::ExtraLife => 5,
    };
    assert(shop_item_spec(s) == item);
}

/// Fire on a shop slot buys that slot's item: on slot 2 with the rear shot
/// not yet owned and at least its price in cash, the tick reports
/// `Bought(RearShot)`, sets the rear shot and takes exactly 250.
pub proof fn lemma_fire_on_slot_2_buys_the_rear_shot(g: GameView, input: Input, prev: Input)
    requires
        g.shop_prev_input == Some(prev),
        cursor_after(g.shop_cursor, input, prev) == 2,
        input.fire && !prev.fire,
        !g.loadout.has_rear,
        g.cash >= 250,
    ensures
        shop_step(g, input).1 == ShopOutcome::Bought(Item::RearShot),
        shop_step(g, input).0.loadout.has_rear,
        shop_step(g, input).0.loadout.has_side == g.loadout.has_side,
        shop_step(g, input).0.cash == g.cash - 250,
{
}

} // verus!
