//! Decides, on each loop tick, which categories of channels are due for a
//! new sample.
use vstd::prelude::*;
use crate::config::RefreshRates;

verus! {

/// One category of channels: how often it is sampled, and when it was last.
/// Times are milliseconds on a monotonic clock.
#[derive(Debug, Clone, Copy, PartialEq, Eq, Structural)]
pub struct Category {
    pub cadence_ms: u64,
    pub last_fired_ms: u64,
}

/// Milliseconds since `c` last fired; zero if `now` lies before that.
pub open spec fn elapsed(c: Category, now: u64) -> int {
    if now >= c.last_fired_ms {
        now - c.last_fired_ms
    } else {
        0
    }
}

/// Whether `c` is due at `now`.
pub open spec fn is_due_at(c: Category, now: u64) -> bool {
    elapsed(c, now) >= c.cadence_ms
}

/// Indices, in increasing order, of the categories among the first `k` that
/// are due at `now`.
pub open spec fn due_prefix(cats: Seq<Category>, now: u64, k: int) -> Seq<usize>
    decreases k,
{
    if k <= 0 {
        Seq::empty()
    } else if is_due_at(cats[k - 1], now) {
        due_prefix(cats, now, k - 1).push((k - 1) as usize)
    } else {
        due_prefix(cats, now, k - 1)
    }
}

/// Indices of all categories due at `now`, in increasing order.
pub open spec fn due_indices(cats: Seq<Category>, now: u64) -> Seq<usize> {
    due_prefix(cats, now, cats.len() as int)
}

/// The category after a tick at `now`: a due one has fired at `now`.
pub open spec fn after_tick(c: Category, now: u64) -> Category {
    if is_due_at(c, now) {
        Category { cadence_ms: c.cadence_ms, last_fired_ms: now }
    } else {
        c
    }
}

/// No catch-up: a category that fires at `now` records `now` itself, so it
/// is not due again before a full cadence has passed from `now`, however
/// late `now` was.
pub proof fn lemma_no_catch_up(c: Category, now: u64, later: u64)
    requires
        is_due_at(c, now),
        now <= later,
        later - now < c.cadence_ms,
    ensures
        after_tick(c, now).last_fired_ms == now,
        !is_due_at(after_tick(c, now), later),
{
}

/// Index of the fast category of `Scheduler::for_refresh_rates`.
pub const FAST_CATEGORY: usize = 0;

/// Index of the disk category of `Scheduler::for_refresh_rates`.
pub const DISK_CATEGORY: usize = 1;

/// Index of the process category of `Scheduler::for_refresh_rates`.
pub const PROCESS_CATEGORY: usize = 2;

/// Categories with their cadences and a pause flag that stops all firing.
pub struct Scheduler {
    pub categories: Vec<Category>,
    pub paused: bool,
}

impl Scheduler {
    /// A running scheduler with no categories.
    pub fn new() -> (r: Self)
        ensures
            r.categories@.len() == 0,
            !r.paused,
    {
        Scheduler { categories: Vec::new(), paused: false }
    }

    /// The dashboard's three categories, all counted from `now_ms`: the fast
    /// metrics (cpu, memory, network, sensors) at the cpu cadence, then disks
    /// at the disk cadence, then processes at the process cadence.
    pub fn for_refresh_rates(rates: &RefreshRates, now_ms: u64) -> (r: Self)
        ensures
            !r.paused,
            r.categories@ == seq![
                Category { cadence_ms: rates.cpu, last_fired_ms: now_ms },
                Category { cadence_ms: rates.disk, last_fired_ms: now_ms },
                Category { cadence_ms: rates.process, last_fired_ms: now_ms },
            ],
    {
        let mut s = Scheduler::new();
        s.add_category(rates.cpu, now_ms);
        s.add_category(rates.disk, now_ms);
        s.add_category(rates.process, now_ms);
        assert(s.categories@ =~= seq![
            Category { cadence_ms: rates.cpu, last_fired_ms: now_ms },
            Category { cadence_ms: rates.disk, last_fired_ms: now_ms },
            Category { cadence_ms: rates.process, last_fired_ms: now_ms },
        ]);
        s
    }

    /// Adds a category sampled every `cadence_ms`, counted from `now_ms`, and
    /// returns its index.
    pub fn add_category(&mut self, cadence_ms: u64, now_ms: u64) -> (r: usize)
        ensures
            r == old(self).categories@.len(),
            final(self).categories@ == old(self).categories@.push(
                Category { cadence_ms, last_fired_ms: now_ms },
            ),
            final(self).paused == old(self).paused,
    {
        let r = self.categories.len();
        self.categories.push(Category { cadence_ms, last_fired_ms: now_ms });
        r
    }

    /// Suspends or resumes firing; the times of the last fires are kept.
    pub fn set_paused(&mut self, paused: bool)
        ensures
            final(self).paused == paused,
            final(self).categories@ == old(self).categories@,
    {
        self.paused = paused;
    }

    pub fn is_paused(&self) -> (r: bool)
        ensures
            r == self.paused,
    {
        self.paused
    }

    /// Whether category `i` is due at `now_ms`, the pause flag aside.
    pub fn is_due(&self, i: usize, now_ms: u64) -> (r: bool)
        requires
            i < self.categories@.len(),
        ensures
            r == is_due_at(self.categories@[i as int], now_ms),
    {
        let c = self.categories[i];
        let elapsed: u64 = if now_ms >= c.last_fired_ms {
            now_ms - c.last_fired_ms
        } else {
            0
        };
        elapsed >= c.cadence_ms
    }

    /// One loop tick at `now_ms`: returns the indices of the categories that
    /// fire, in increasing order, and records `now_ms` as their last fire.
    /// A paused scheduler fires nothing and changes nothing.
    pub fn tick(&mut self, now_ms: u64) -> (r: Vec<usize>)
        ensures
            final(self).paused == old(self).paused,
            final(self).categories@.len() == old(self).categories@.len(),
            old(self).paused ==> r@ == Seq::<usize>::empty() && final(self).categories@
                == old(self).categories@,
            !old(self).paused ==> r@ == due_indices(old(self).categories@, now_ms),
            !old(self).paused ==> forall|i: int|
                0 <= i < old(self).categories@.len() ==> #[trigger] final(self).categories@[i]
                    == after_tick(old(self).categories@[i], now_ms),
    {
        let mut fired: Vec<usize> = Vec::new();
        if self.paused {
            return fired;
        }
        let ghost start = self.categories@;
        let n = self.categories.len();
        let mut i: usize = 0;
        while i < n
            invariant
                n == start.len(),
                self.categories@.len() == n,
                !self.paused,
                i <= n,
                fired@ == due_prefix(start, now_ms, i as int),
                forall|k: int| 0 <= k < i ==> #[trigger] self.categories@[k] == after_tick(start[k], now_ms),
                forall|k: int| i <= k < n ==> #[trigger] self.categories@[k] == start[k],
            decreases n - i,
        {
            if self.is_due(i, now_ms) {
                let c = self.categories[i];
                self.categories.set(i, Category { cadence_ms: c.cadence_ms, last_fired_ms: now_ms });
                fired.push(i);
            }
            i = i + 1;
        }
        fired
    }
}

} // verus!
