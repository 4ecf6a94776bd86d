//! Deterministic spawn scheduler: consumes a level's wave script in order,
//! releasing each wave once the scroll position reaches its trigger.

use vstd::prelude::*;

use crate::levels::{LevelScript, Wave};

verus! {

pub struct Scheduler {
    pub script: LevelScript,
    /// Index of the first wave not yet released.
    pub next_index: usize,
}

/// Triggers in non-decreasing order.
pub open spec fn sorted_triggers(waves: Seq<(u32, Wave)>) -> bool {
    forall|i: int, j: int| 0 <= i < j < waves.len() ==> waves[i].0 <= waves[j].0
}

/// Where the scheduler's cursor lands after releasing, from `from` on and in
/// order, every wave whose trigger is at most `scroll`, stopping at the first
/// one that is not yet due.
pub open spec fn next_after(waves: Seq<(u32, Wave)>, from: int, scroll: u32) -> int
    decreases waves.len() - from,
{
    if 0 <= from < waves.len() && waves[from].0 <= scroll {
        next_after(waves, from + 1, scroll)
    } else {
        from
    }
}

/// The waves with index in `[from, to)`.
pub open spec fn waves_between(waves: Seq<(u32, Wave)>, from: int, to: int) -> Seq<Wave> {
    waves.subrange(from, to).map_values(|p: (u32, Wave)| p.1)
}

impl Scheduler {
    pub open spec fn wf(&self) -> bool {
        self.next_index <= self.script.waves@.len()
    }

    pub fn new(script: LevelScript) -> (s: Self)
        ensures
            s.script == script,
            s.next_index == 0,
            s.wf(),
    {
        Scheduler { script, next_index: 0 }
    }

    /// Releases, in script order, every not-yet-released wave whose trigger
    /// the scroll position `scroll_px` has reached, stopping at the first
    /// one still ahead, and returns them.
    pub fn update(&mut self, scroll_px: u32) -> (due: Vec<Wave>)
        requires
            old(self).wf(),
        ensures
            final(self).wf(),
            final(self).script == old(self).script,
            final(self).next_index == next_after(old(self).script.waves@, old(self).next_index as int, scroll_px),
            due@ == waves_between(old(self).script.waves@, old(self).next_index as int, final(self).next_index as int),
    {
        let mut due: Vec<Wave> = Vec::new();
        let ghost start = self.next_index as int;
        let n: usize = self.script.waves.len();
        while self.next_index < n && self.script.waves[self.next_index].0 <= scroll_px
            invariant
                n == self.script.waves@.len(),
                self.script == old(self).script,
                start <= self.next_index <= n,
                start == old(self).next_index,
                next_after(self.script.waves@, start, scroll_px) == next_after(self.script.waves@, self.next_index as int, scroll_px),
                due@ == waves_between(self.script.waves@, start, self.next_index as int),
            decreases n - self.next_index,
        {
            let w = self.script.waves[self.next_index].1;
            due.push(w);
            proof {
                assert(waves_between(self.script.waves@, start, self.next_index + 1) =~= waves_between(
                    self.script.waves@,
                    start,
                    self.next_index as int,
                ).push(w));
            }
            self.next_index = self.next_index + 1;
        }
        due
    }

    /// Whether every wave of the script has been released.
    pub fn is_done(&self) -> (done: bool)
        ensures
            done == (self.next_index >= self.script.waves@.len()),
    {
        self.next_index >= self.script.waves.len()
    }
}

/// With triggers in order, an update at `scroll` releases exactly the waves
/// still pending whose trigger is at most `scroll`: those before the new
/// cursor are due, those from it on are not.
pub proof fn lemma_releases_exactly_the_due_waves(waves: Seq<(u32, Wave)>, from: int, scroll: u32)
    requires
        sorted_triggers(waves),
        0 <= from <= waves.len(),
    ensures
        from <= next_after(waves, from, scroll) <= waves.len(),
        forall|i: int| from <= i < next_after(waves, from, scroll) ==> waves[i].0 <= scroll,
        forall|i: int| next_after(waves, from, scroll) <= i < waves.len() ==> waves[i].0 > scroll,
    decreases waves.len() - from,
{
    if from < waves.len() && waves[from].0 <= scroll {
        lemma_releases_exactly_the_due_waves(waves, from + 1, scroll);
    }
}

/// Tick-size independence: scrolling to `s1` and then to `s2 >= s1` releases
/// the same waves, in the same order, as scrolling straight to `s2`.
pub proof fn lemma_split_scroll(waves: Seq<(u32, Wave)>, from: int, s1: u32, s2: u32)
    requires
        sorted_triggers(waves),
        0 <= from <= waves.len(),
        s1 <= s2,
    ensures
        next_after(waves, next_after(waves, from, s1), s2) == next_after(waves, from, s2),
    decreases waves.len() - from,
{
    if from < waves.len() && waves[from].0 <= s1 {
        lemma_split_scroll(waves, from + 1, s1, s2);
    }
}

/// Scroll positions that never go back.
pub open spec fn non_decreasing(scrolls: Seq<u32>) -> bool {
    forall|i: int, j: int| 0 <= i < j < scrolls.len() ==> scrolls[i] <= scrolls[j]
}

/// The scheduler's cursor after one `update` per scroll position in
/// `scrolls`, starting from `from`.
pub open spec fn run_cursor(waves: Seq<(u32, Wave)>, from: int, scrolls: Seq<u32>) -> int
    decreases scrolls.len(),
{
    if scrolls.len() == 0 {
        from
    } else {
        next_after(waves, run_cursor(waves, from, scrolls.drop_last()), scrolls.last())
    }
}

/// Everything those updates released, in the order they released it.
pub open spec fn run_released(waves: Seq<(u32, Wave)>, from: int, scrolls: Seq<u32>) -> Seq<Wave>
    decreases scrolls.len(),
{
    if scrolls.len() == 0 {
        Seq::empty()
    } else {
        run_released(waves, from, scrolls.drop_last()) + waves_between(
            waves,
            run_cursor(waves, from, scrolls.drop_last()),
            run_cursor(waves, from, scrolls),
        )
    }
}

proof fn lemma_next_after_bounds(waves: Seq<(u32, Wave)>, from: int, scroll: u32)
    requires
        0 <= from <= waves.len(),
    ensures
        from <= next_after(waves, from, scroll) <= waves.len(),
    decreases waves.len() - from,
{
    if from < waves.len() && waves[from].0 <= scroll {
        lemma_next_after_bounds(waves, from + 1, scroll);
    }
}

proof fn lemma_waves_between_concat(waves: Seq<(u32, Wave)>, a: int, b: int, c: int)
    requires
        0 <= a <= b <= c <= waves.len(),
    ensures
        waves_between(waves, a, b) + waves_between(waves, b, c) =~= waves_between(waves, a, c),
{
    assert(waves.subrange(a, c) =~= waves.subrange(a, b) + waves.subrange(b, c));
}

/// Any number of updates: with triggers in order and a scroll that never
/// goes back, a run of updates releases every wave at most once, in script
/// order, and ends exactly where one update at the last scroll position
/// would -- so every wave whose trigger the last position has reached has
/// been released, no other has, and the scheduler is done exactly when
/// every trigger has been reached.
pub proof fn lemma_release_over_many_updates(waves: Seq<(u32, Wave)>, from: int, scrolls: Seq<u32>)
    requires
        sorted_triggers(waves),
        0 <= from <= waves.len(),
        non_decreasing(scrolls),
    ensures
        from <= run_cursor(waves, from, scrolls) <= waves.len(),
        run_released(waves, from, scrolls) == waves_between(waves, from, run_cursor(waves, from, scrolls)),
        scrolls.len() > 0 ==> run_cursor(waves, from, scrolls) == next_after(waves, from, scrolls.last()),
        scrolls.len() > 0 ==> forall|i: int|
            from <= i < run_cursor(waves, from, scrolls) ==> waves[i].0 <= scrolls.last(),
        scrolls.len() > 0 ==> forall|i: int|
            run_cursor(waves, from, scrolls) <= i < waves.len() ==> waves[i].0 > scrolls.last(),
        scrolls.len() > 0 ==> (run_cursor(waves, from, scrolls) == waves.len() <==> forall|i: int|
            from <= i < waves.len() ==> waves[i].0 <= scrolls.last()),
    decreases scrolls.len(),
{
    if scrolls.len() > 0 {
        let init = scrolls.drop_last();
        assert(non_decreasing(init));
        lemma_release_over_many_updates(waves, from, init);
        let c0 = run_cursor(waves, from, init);
        lemma_next_after_bounds(waves, c0, scrolls.last());
        let c1 = run_cursor(waves, from, scrolls);
        lemma_waves_between_concat(waves, from, c0, c1);
        if init.len() > 0 {
            assert(init.last() <= scrolls.last());
            lemma_split_scroll(waves, from, init.last(), scrolls.last());
        }
        lemma_releases_exactly_the_due_waves(waves, from, scrolls.last());
        let last = scrolls.last();
        if c1 < waves.len() {
            assert(waves[c1].0 > last);
        }
    } else {
        assert(waves_between(waves, from, from) =~= Seq::<Wave>::empty());
    }
}

} // verus!
