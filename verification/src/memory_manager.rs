//! The adaptive memory manager: a watchdog that asks for the resident model to be
//! unloaded under high pressure, at most once per cooldown.
use vstd::prelude::*;
use crate::classifier::count_up;
use crate::governor::clamped;
use crate::pressure::LiveSystemStats;

verus! {

/// What one tick of the watchdog did.
#[derive(Clone, Debug)]
pub enum MemoryAction {
    /// Nothing was loaded or unloaded.
    NoAction,
    Unloaded(String),
    Loaded(String),
}

/// What one tick of the watchdog asks for.
#[derive(Clone, Copy, Debug, PartialEq, Eq, Structural)]
pub enum TickPlan {
    /// Nothing is to be done.
    Idle,
    /// The resident model, if there is one, is to be unloaded.
    Unload,
}

/// Counters and thresholds of the watchdog. Thresholds are in basis points.
#[derive(Clone, Copy, Debug, PartialEq, Eq, Structural)]
pub struct MemoryManagerStats {
    pub enabled: bool,
    pub total_unloads: u64,
    pub total_loads: u64,
    pub memory_threshold_high_bp: u32,
    pub memory_threshold_low_bp: u32,
    pub cpu_threshold_high_bp: u32,
    pub cpu_threshold_low_bp: u32,
}

/// The watchdog's state.
#[derive(Clone, Copy, Debug, PartialEq, Eq, Structural)]
pub struct AdaptiveMemoryManager {
    pub enabled: bool,
    pub memory_threshold_high_bp: u32,
    pub memory_threshold_low_bp: u32,
    pub cpu_threshold_high_bp: u32,
    pub cpu_threshold_low_bp: u32,
    /// When the last unload succeeded, in milliseconds.
    pub last_unload_ms: Option<u64>,
    pub unload_cooldown_secs: u64,
    pub total_unloads: u64,
    pub total_loads: u64,
}

impl AdaptiveMemoryManager {
    /// Memory use or processor load has reached its high threshold.
    pub open spec fn is_high_pressure(self, stats: LiveSystemStats) -> bool {
        stats.memory_at_least(self.memory_threshold_high_bp as int) || stats.cpu_usage_bp
            >= self.cpu_threshold_high_bp
    }

    /// Memory use and processor load are both at or under their low thresholds.
    pub open spec fn is_low_pressure(self, stats: LiveSystemStats) -> bool {
        !stats.memory_above(self.memory_threshold_low_bp as int) && stats.cpu_usage_bp
            <= self.cpu_threshold_low_bp
    }

    /// Counters and thresholds as reported to observers.
    pub open spec fn stats(self) -> MemoryManagerStats {
        MemoryManagerStats {
            enabled: self.enabled,
            total_unloads: self.total_unloads,
            total_loads: self.total_loads,
            memory_threshold_high_bp: self.memory_threshold_high_bp,
            memory_threshold_low_bp: self.memory_threshold_low_bp,
            cpu_threshold_high_bp: self.cpu_threshold_high_bp,
            cpu_threshold_low_bp: self.cpu_threshold_low_bp,
        }
    }

    /// The cooldown in milliseconds.
    pub open spec fn cooldown_ms(self) -> int {
        self.unload_cooldown_secs * 1_000
    }

    /// The last unload lies less than the cooldown before `now_ms`.
    pub open spec fn in_cooldown(self, now_ms: u64) -> bool {
        match self.last_unload_ms {
            Some(at) => (if now_ms >= at {
                now_ms - at
            } else {
                0
            }) < self.cooldown_ms(),
            None => false,
        }
    }

    /// What a tick asks for: an unload while the watchdog is enabled, pressure is
    /// high and no cooldown runs; nothing otherwise. Low pressure loads nothing:
    /// which model to load is for the router to say.
    pub open spec fn tick_plan(self, stats: LiveSystemStats, now_ms: u64) -> TickPlan {
        if self.enabled && self.is_high_pressure(stats) && !self.in_cooldown(now_ms) {
            TickPlan::Unload
        } else {
            TickPlan::Idle
        }
    }

    /// The state after an unload that succeeded at `now_ms`.
    pub open spec fn unloaded_at(self, now_ms: u64) -> AdaptiveMemoryManager {
        AdaptiveMemoryManager {
            last_unload_ms: Some(now_ms),
            total_unloads: if self.total_unloads < u64::MAX {
                (self.total_unloads + 1) as u64
            } else {
                self.total_unloads
            },
            ..self
        }
    }

    /// A watchdog with the usual thresholds: 85 % high and 65 % low for memory,
    /// 85 % high and 50 % low for the processor, and a cooldown of 30 seconds.
    pub fn new() -> (manager: Self)
        ensures
            manager == (AdaptiveMemoryManager {
                enabled: true,
                memory_threshold_high_bp: 8_500,
                memory_threshold_low_bp: 6_500,
                cpu_threshold_high_bp: 8_500,
                cpu_threshold_low_bp: 5_000,
                last_unload_ms: None,
                unload_cooldown_secs: 30,
                total_unloads: 0,
                total_loads: 0,
            }),
    {
        AdaptiveMemoryManager {
            enabled: true,
            memory_threshold_high_bp: 8_500,
            memory_threshold_low_bp: 6_500,
            cpu_threshold_high_bp: 8_500,
            cpu_threshold_low_bp: 5_000,
            last_unload_ms: None,
            unload_cooldown_secs: 30,
            total_unloads: 0,
            total_loads: 0,
        }
    }

    /// A watchdog with thresholds of the caller's, each brought into its range,
    /// and a cooldown of 90 seconds.
    pub fn with_thresholds(
        memory_high_bp: u32,
        memory_low_bp: u32,
        cpu_high_bp: u32,
        cpu_low_bp: u32,
    ) -> (manager: Self)
        ensures
            manager == (AdaptiveMemoryManager {
                enabled: true,
                memory_threshold_high_bp: clamped(memory_high_bp as int, 5_000, 9_800) as u32,
                memory_threshold_low_bp: clamped(memory_low_bp as int, 2_000, 9_500) as u32,
                cpu_threshold_high_bp: clamped(cpu_high_bp as int, 4_000, 9_900) as u32,
                cpu_threshold_low_bp: clamped(cpu_low_bp as int, 1_000, 9_000) as u32,
                last_unload_ms: None,
                unload_cooldown_secs: 90,
                total_unloads: 0,
                total_loads: 0,
            }),
    {
        AdaptiveMemoryManager {
            enabled: true,
            memory_threshold_high_bp: clamp_bp(memory_high_bp, 5_000, 9_800),
            memory_threshold_low_bp: clamp_bp(memory_low_bp, 2_000, 9_500),
            cpu_threshold_high_bp: clamp_bp(cpu_high_bp, 4_000, 9_900),
            cpu_threshold_low_bp: clamp_bp(cpu_low_bp, 1_000, 9_000),
            last_unload_ms: None,
            unload_cooldown_secs: 90,
            total_unloads: 0,
            total_loads: 0,
        }
    }

    /// Switches the watchdog on or off.
    pub fn set_enabled(&mut self, enabled: bool)
        ensures
            *final(self) == (AdaptiveMemoryManager { enabled, ..*old(self) }),
    {
        self.enabled = enabled;
    }

    /// Whether the watchdog is switched on.
    pub fn is_enabled(&self) -> (enabled: bool)
        ensures
            enabled == self.enabled,
    {
        self.enabled
    }

    /// Decides what a tick asks for.
    pub fn check_and_manage(&self, stats: &LiveSystemStats, now_ms: u64) -> (plan: TickPlan)
        ensures
            plan == self.tick_plan(*stats, now_ms),
    {
        if !self.enabled {
            return TickPlan::Idle;
        }
        let high = stats.memory_share_at_least(self.memory_threshold_high_bp) || stats.cpu_usage_bp
            >= self.cpu_threshold_high_bp;
        if high {
            return self.maybe_unload_model(now_ms);
        }
        if self.under_low_pressure(stats) {
            return self.maybe_load_model(now_ms);
        }
        TickPlan::Idle
    }

    /// Whether memory use and processor load are both at or under their low
    /// thresholds.
    pub fn under_low_pressure(&self, stats: &LiveSystemStats) -> (low: bool)
        ensures
            low == self.is_low_pressure(*stats),
    {
        !stats.memory_share_above(self.memory_threshold_low_bp) && stats.cpu_usage_bp
            <= self.cpu_threshold_low_bp
    }

    /// Under high pressure: asks for an unload unless a cooldown runs.
    pub fn maybe_unload_model(&self, now_ms: u64) -> (plan: TickPlan)
        ensures
            plan == if self.in_cooldown(now_ms) {
                TickPlan::Idle
            } else {
                TickPlan::Unload
            },
    {
        match self.last_unload_ms {
            Some(at) => {
                let elapsed: u64 = if now_ms >= at {
                    now_ms - at
                } else {
                    0
                };
                if (elapsed as u128) < (self.unload_cooldown_secs as u128) * 1_000 {
                    TickPlan::Idle
                } else {
                    TickPlan::Unload
                }
            },
            None => TickPlan::Unload,
        }
    }

    /// Under low pressure: asks for nothing, within 30 seconds of an unload and
    /// after. Loading is left to the components that know which model to load.
    pub fn maybe_load_model(&self, now_ms: u64) -> (plan: TickPlan)
        ensures
            plan == TickPlan::Idle,
    {
        TickPlan::Idle
    }

    /// Takes note of how the unload that a tick asked for went: where the model
    /// at `path` was unloaded, the time is kept and the unload counted.
    pub fn finish_unload(&mut self, now_ms: u64, path: String, unloaded: bool) -> (action:
        MemoryAction)
        ensures
            *final(self) == if unloaded {
                old(self).unloaded_at(now_ms)
            } else {
                *old(self)
            },
            action == if unloaded {
                MemoryAction::Unloaded(path)
            } else {
                MemoryAction::NoAction
            },
    {
        if unloaded {
            self.last_unload_ms = Some(now_ms);
            self.total_unloads = count_up(self.total_unloads);
            MemoryAction::Unloaded(path)
        } else {
            MemoryAction::NoAction
        }
    }

    /// Counters and thresholds as reported to observers.
    pub fn get_stats(&self) -> (stats: MemoryManagerStats)
        ensures
            stats == self.stats(),
    {
        MemoryManagerStats {
            enabled: self.enabled,
            total_unloads: self.total_unloads,
            total_loads: self.total_loads,
            memory_threshold_high_bp: self.memory_threshold_high_bp,
            memory_threshold_low_bp: self.memory_threshold_low_bp,
            cpu_threshold_high_bp: self.cpu_threshold_high_bp,
            cpu_threshold_low_bp: self.cpu_threshold_low_bp,
        }
    }
}

fn clamp_bp(value: u32, lo: u32, hi: u32) -> (r: u32)
    requires
        lo <= hi,
    ensures
        r == clamped(value as int, lo as int, hi as int),
{
    if value < lo {
        lo
    } else if value > hi {
        hi
    } else {
        value
    }
}

/// One tick of a watchdog run: the time and the reading.
pub struct Tick {
    pub now_ms: u64,
    pub stats: LiveSystemStats,
}

/// The state after the first `n` ticks of a run in which a model is resident at
/// every tick and every unload succeeds: the run with the most unloads.
pub open spec fn state_after(
    start: AdaptiveMemoryManager,
    ticks: Seq<Tick>,
    n: int,
) -> AdaptiveMemoryManager
    decreases n,
{
    if n <= 0 {
        start
    } else {
        let before = state_after(start, ticks, n - 1);
        if n <= ticks.len() && before.tick_plan(ticks[n - 1].stats, ticks[n - 1].now_ms)
            == TickPlan::Unload {
            before.unloaded_at(ticks[n - 1].now_ms)
        } else {
            before
        }
    }
}

/// Tick `i` of such a run unloads.
pub open spec fn unloads_at(start: AdaptiveMemoryManager, ticks: Seq<Tick>, i: int) -> bool {
    0 <= i < ticks.len() && state_after(start, ticks, i).tick_plan(ticks[i].stats, ticks[i].now_ms)
        == TickPlan::Unload
}

/// The times of a run do not go back.
pub open spec fn in_time_order(ticks: Seq<Tick>) -> bool {
    forall|i: int, j: int| 0 <= i <= j < ticks.len() ==> ticks[i].now_ms <= ticks[j].now_ms
}

proof fn lemma_last_unload(start: AdaptiveMemoryManager, ticks: Seq<Tick>, i: int, n: int)
    requires
        in_time_order(ticks),
        unloads_at(start, ticks, i),
        i < n <= ticks.len(),
    ensures
        state_after(start, ticks, n).last_unload_ms is Some,
        state_after(start, ticks, n).last_unload_ms->0 >= ticks[i].now_ms,
        state_after(start, ticks, n).unload_cooldown_secs == start.unload_cooldown_secs,
    decreases n,
{
    lemma_run_keeps_cooldown(start, ticks, n);
    if n > i + 1 {
        lemma_last_unload(start, ticks, i, n - 1);
    }
}

proof fn lemma_run_keeps_cooldown(start: AdaptiveMemoryManager, ticks: Seq<Tick>, n: int)
    ensures
        state_after(start, ticks, n).unload_cooldown_secs == start.unload_cooldown_secs,
    decreases n,
{
    if n > 0 {
        lemma_run_keeps_cooldown(start, ticks, n - 1);
    }
}

/// Hysteresis: in any run whose times do not go back, two unloads are at least
/// one cooldown apart, however the readings oscillate around the thresholds.
pub proof fn lemma_unloads_respect_cooldown(
    start: AdaptiveMemoryManager,
    ticks: Seq<Tick>,
    i: int,
    j: int,
)
    requires
        in_time_order(ticks),
        unloads_at(start, ticks, i),
        unloads_at(start, ticks, j),
        i < j,
    ensures
        ticks[j].now_ms - ticks[i].now_ms >= start.cooldown_ms(),
{
    lemma_last_unload(start, ticks, i, j);
    let before = state_after(start, ticks, j);
    assert(!before.in_cooldown(ticks[j].now_ms));
    lemma_last_unload_is_a_tick(start, ticks, j);
}

proof fn lemma_last_unload_is_a_tick(start: AdaptiveMemoryManager, ticks: Seq<Tick>, n: int)
    requires
        in_time_order(ticks),
        0 <= n <= ticks.len(),
    ensures
        state_after(start, ticks, n).last_unload_ms == start.last_unload_ms || (n > 0
            && state_after(start, ticks, n).last_unload_ms is Some && state_after(
            start,
            ticks,
            n,
        ).last_unload_ms->0 <= ticks[n - 1].now_ms),
    decreases n,
{
    if n > 0 {
        lemma_last_unload_is_a_tick(start, ticks, n - 1);
    }
}

} // verus!
