//! The predictive preloader: a bounded queue of complexity samples and the
//! decision to warm the inference engine ahead of a heavy request.
use std::collections::VecDeque;
use vstd::arithmetic::mul::lemma_mul_upper_bound;
use vstd::prelude::*;
use crate::hardware::{load_decision, should_load_model, LoadDecision};
use crate::pressure::LiveSystemStats;
use crate::text::{count_hits, count_words, hit_count, lowercase, to_lowercase, word_count};

verus! {

/// Most samples that the queue holds.
pub const SAMPLE_CAPACITY: usize = 128;

/// The full complexity score: a score counts in 24 000ths.
pub const COMPLEXITY_FULL: u32 = 24_000;

/// Mean complexity, in 24 000ths, from which a preload is worth it: 0.62.
pub const PRELOAD_THRESHOLD: u64 = 14_880;

/// Mean complexity, in 24 000ths, that a host without embedding service asks
/// for: 0.75.
pub const PRELOAD_THRESHOLD_WITHOUT_EMBEDDING: u64 = 18_000;

/// Samples older than this many milliseconds do not count for the mean.
pub const TRAILING_WINDOW_MS: u64 = 300_000;

/// Samples older than this many milliseconds are dropped by the background loop.
pub const SAMPLE_RETENTION_MS: u64 = 1_200_000;

/// Size, in megabytes, of the model that a preload makes room for.
pub const PRELOAD_MODEL_MB: i64 = 4_096;

/// Seconds for which no further preload starts after one was fired.
pub const PRELOAD_COOLDOWN_SECS: u64 = 30;

/// One observed query: when it came, in milliseconds, and how complex it looked,
/// in 24 000ths.
#[derive(Clone, Copy, Debug, PartialEq, Eq, Structural)]
pub struct QueryContext {
    pub observed_at_ms: u64,
    pub estimated_complexity: u32,
}

/// What the background loop did in one round.
#[derive(Clone, Copy, Debug, PartialEq, Eq, Structural)]
pub enum PredictorTick {
    /// The preloader is switched off.
    Disabled,
    /// Processor load is above 85 % or memory use above 88 %: nothing was touched.
    Paused,
    /// This many stale samples were dropped.
    Trimmed(usize),
}

/// Tokens that point to code in a request.
pub open spec fn code_indicators() -> Seq<&'static str> {
    seq!["```", "function", "class", "def ", "import ", "const ", "let ", "error", "stack"]
}

/// Word stems that point to reasoning in a request.
pub open spec fn reasoning_indicators() -> Seq<&'static str> {
    seq!["analy", "compare", "tradeoff", "reason", "optimiz", "performance", "architecture"]
}

/// The smaller of two counts.
pub open spec fn at_most(value: nat, cap: nat) -> nat {
    if value <= cap {
        value
    } else {
        cap
    }
}

/// The complexity of a text in 24 000ths: 35 % for its length, full at 48 words;
/// 40 % for code indicators, full at five; 25 % for reasoning indicators, full at
/// four.
pub open spec fn complexity_of(raw: Seq<char>, lowered: Seq<char>) -> nat {
    175 * at_most(word_count(raw), 48) + 1_920 * at_most(hit_count(lowered, code_indicators()), 5)
        + 1_500 * at_most(hit_count(lowered, reasoning_indicators()), 4)
}

/// Estimates the complexity of a text whose lower-case form the caller supplies.
pub fn estimate_complexity_lowered(raw: &str, lowered: &str) -> (score: u32)
    ensures
        score == complexity_of(raw@, lowered@),
        score <= COMPLEXITY_FULL,
{
    let code_list: [&'static str; 9] = [
        "```",
        "function",
        "class",
        "def ",
        "import ",
        "const ",
        "let ",
        "error",
        "stack",
    ];
    let reasoning_list: [&'static str; 7] = [
        "analy",
        "compare",
        "tradeoff",
        "reason",
        "optimiz",
        "performance",
        "architecture",
    ];
    assert(code_list@ =~= code_indicators());
    assert(reasoning_list@ =~= reasoning_indicators());
    let words = count_words(raw);
    let code_hits = count_hits(lowered, &code_list);
    let reasoning_hits = count_hits(lowered, &reasoning_list);
    let length_part: u32 = if words < 48 {
        words as u32
    } else {
        48
    };
    let code_part: u32 = if code_hits < 5 {
        code_hits as u32
    } else {
        5
    };
    let reasoning_part: u32 = if reasoning_hits < 4 {
        reasoning_hits as u32
    } else {
        4
    };
    175 * length_part + 1_920 * code_part + 1_500 * reasoning_part
}

/// Estimates the complexity of a text.
pub fn estimate_complexity(query: &str) -> (score: u32)
    ensures
        score == complexity_of(query@, lowercase(query@)),
        score <= COMPLEXITY_FULL,
{
    let lowered = to_lowercase(query);
    estimate_complexity_lowered(query, lowered.as_str())
}

/// Milliseconds from `then` to `now`; zero where `then` lies ahead.
pub open spec fn age_of(now: u64, then: u64) -> int {
    if now >= then {
        now - then
    } else {
        0
    }
}

/// The queue after one more sample: the sample joins the back, and the oldest
/// sample goes where more than 128 would be held.
pub open spec fn enqueued(samples: Seq<QueryContext>, sample: QueryContext) -> Seq<QueryContext> {
    let grown = samples.push(sample);
    if grown.len() > SAMPLE_CAPACITY {
        grown.subrange(grown.len() - SAMPLE_CAPACITY, grown.len() as int)
    } else {
        grown
    }
}

/// Number of the newest samples, counted from the back, that are no older than
/// five minutes: the count stops at the first older one.
pub open spec fn trailing_count(samples: Seq<QueryContext>, now: u64) -> nat
    decreases samples.len(),
{
    if samples.len() == 0 || age_of(now, samples.last().observed_at_ms) > TRAILING_WINDOW_MS {
        0
    } else {
        1 + trailing_count(samples.drop_last(), now)
    }
}

/// Sum of the complexities of those samples.
pub open spec fn trailing_sum(samples: Seq<QueryContext>, now: u64) -> nat
    decreases samples.len(),
{
    if samples.len() == 0 || age_of(now, samples.last().observed_at_ms) > TRAILING_WINDOW_MS {
        0
    } else {
        samples.last().estimated_complexity as nat + trailing_sum(samples.drop_last(), now)
    }
}

/// The mean complexity of the trailing samples is at least `bound` 24 000ths; the
/// mean of no samples is zero.
pub open spec fn trailing_mean_at_least(samples: Seq<QueryContext>, now: u64, bound: int) -> bool {
    let count = trailing_count(samples, now);
    if count == 0 {
        0 >= bound
    } else {
        trailing_sum(samples, now) >= bound * count
    }
}

/// Number of samples at the front that are older than twenty minutes.
pub open spec fn stale_front(samples: Seq<QueryContext>, now: u64) -> nat
    decreases samples.len(),
{
    if samples.len() == 0 || age_of(now, samples[0].observed_at_ms) <= SAMPLE_RETENTION_MS {
        0
    } else {
        1 + stale_front(samples.drop_first(), now)
    }
}

/// The preloader's state.
pub struct PredictivePreloader {
    enabled: bool,
    has_embedding: bool,
    recent_queries: VecDeque<QueryContext>,
    preload_scheduled: bool,
    cooldown_secs: u64,
}

/// What the preloader holds, as plain values.
pub struct PreloaderView {
    pub enabled: bool,
    pub has_embedding: bool,
    pub samples: Seq<QueryContext>,
    /// A preload is under way or cooling down.
    pub scheduled: bool,
    pub cooldown_secs: u64,
}

impl PreloaderView {
    /// The state after a query of the given complexity was seen at `now_ms`: a
    /// preloader that is switched off takes no sample.
    pub open spec fn with_query(self, complexity: nat, now_ms: u64) -> PreloaderView {
        PreloaderView {
            samples: if self.enabled {
                enqueued(
                    self.samples,
                    QueryContext {
                        observed_at_ms: now_ms,
                        estimated_complexity: complexity as u32,
                    },
                )
            } else {
                self.samples
            },
            ..self
        }
    }

    /// Whether a preload is to be fired for a reading: the preloader is on and
    /// idle, the trailing mean complexity reaches 0.62, and 0.75 where no
    /// embedding service is present, and the host would load a model of 4 096 MB
    /// now or in the background.
    pub open spec fn wants_preload(self, stats: LiveSystemStats, now_ms: u64) -> bool {
        &&& self.enabled
        &&& !self.scheduled
        &&& trailing_mean_at_least(self.samples, now_ms, PRELOAD_THRESHOLD as int)
        &&& self.has_embedding || trailing_mean_at_least(
            self.samples,
            now_ms,
            PRELOAD_THRESHOLD_WITHOUT_EMBEDDING as int,
        )
        &&& load_decision(stats, PRELOAD_MODEL_MB as int) == LoadDecision::LoadNow
            || load_decision(stats, PRELOAD_MODEL_MB as int) == LoadDecision::BackgroundOnly
    }
}

impl View for PredictivePreloader {
    type V = PreloaderView;

    closed spec fn view(&self) -> PreloaderView {
        PreloaderView {
            enabled: self.enabled,
            has_embedding: self.has_embedding,
            samples: self.recent_queries@,
            scheduled: self.preload_scheduled,
            cooldown_secs: self.cooldown_secs,
        }
    }
}

impl PredictivePreloader {
    /// The queue holds at most 128 samples.
    pub open spec fn wf(&self) -> bool {
        self@.samples.len() <= SAMPLE_CAPACITY
    }

    /// A preloader that is switched on, idle and without samples.
    pub fn new(has_embedding: bool) -> (preloader: Self)
        ensures
            preloader.wf(),
            preloader@ == (PreloaderView {
                enabled: true,
                has_embedding,
                samples: Seq::empty(),
                scheduled: false,
                cooldown_secs: PRELOAD_COOLDOWN_SECS,
            }),
    {
        PredictivePreloader {
            enabled: true,
            has_embedding,
            recent_queries: VecDeque::new(),
            preload_scheduled: false,
            cooldown_secs: PRELOAD_COOLDOWN_SECS,
        }
    }

    /// Switches the preloader on or off.
    pub fn set_enabled(&mut self, enabled: bool)
        ensures
            final(self)@ == (PreloaderView { enabled, ..old(self)@ }),
    {
        self.enabled = enabled;
    }

    /// Whether the preloader is switched on.
    pub fn is_enabled(&self) -> (enabled: bool)
        ensures
            enabled == self@.enabled,
    {
        self.enabled
    }

    /// Seconds to wait after a preload before the next may start.
    pub fn cooldown_secs(&self) -> (secs: u64)
        ensures
            secs == self@.cooldown_secs,
    {
        self.cooldown_secs
    }

    /// Number of samples held.
    pub fn sample_count(&self) -> (n: usize)
        ensures
            n == self@.samples.len(),
    {
        self.recent_queries.len()
    }

    /// Takes a sample of a query, unless the preloader is switched off.
    pub fn record_query(&mut self, query: &str, now_ms: u64)
        requires
            old(self).wf(),
        ensures
            final(self).wf(),
            final(self)@ == old(self)@.with_query(complexity_of(query@, lowercase(query@)), now_ms),
    {
        if !self.enabled {
            return ;
        }
        let sample = QueryContext {
            observed_at_ms: now_ms,
            estimated_complexity: estimate_complexity(query),
        };
        self.recent_queries.push_back(sample);
        if self.recent_queries.len() > SAMPLE_CAPACITY {
            let _ = self.recent_queries.pop_front();
        }
    }

    /// Whether the mean complexity of the trailing samples is at least `bound`.
    fn recent_complexity_at_least(&self, now_ms: u64, bound: u64) -> (reached: bool)
        requires
            self.wf(),
            bound <= COMPLEXITY_FULL,
        ensures
            reached == trailing_mean_at_least(self@.samples, now_ms, bound as int),
    {
        let mut count: u64 = 0;
        let mut sum: u64 = 0;
        let mut i: usize = self.recent_queries.len();
        let ghost all = self.recent_queries@;
        let mut stopped = false;
        assert(all.take(all.len() as int) =~= all);
        while i > 0 && !stopped
            invariant
                i <= all.len() <= SAMPLE_CAPACITY,
                all == self.recent_queries@,
                count == all.len() - i,
                sum <= count * u32::MAX,
                stopped ==> trailing_count(all.take(i as int), now_ms) == 0 && trailing_sum(
                    all.take(i as int),
                    now_ms,
                ) == 0,
                trailing_count(all, now_ms) == count + trailing_count(all.take(i as int), now_ms),
                trailing_sum(all, now_ms) == sum + trailing_sum(all.take(i as int), now_ms),
            decreases i + if stopped { 0int } else { 1int },
        {
            let sample = self.recent_queries[i - 1];
            let age: u64 = if now_ms >= sample.observed_at_ms {
                now_ms - sample.observed_at_ms
            } else {
                0
            };
            proof {
                assert(all.take(i as int).last() == all[i - 1]);
                assert(all.take(i as int).drop_last() =~= all.take(i - 1));
            }
            if age > TRAILING_WINDOW_MS {
                stopped = true;
            } else {
                count = count + 1;
                sum = sum + sample.estimated_complexity as u64;
                i = i - 1;
            }
        }
        if count == 0 {
            bound == 0
        } else {
            proof {
                lemma_mul_upper_bound(bound as int, COMPLEXITY_FULL as int, count as int, 128);
            }
            sum >= bound * count
        }
    }

    /// Decides whether to fire a preload and, where it does, marks the preloader
    /// as busy so that no second preload starts beside the first.
    pub fn maybe_preload(&mut self, stats: &LiveSystemStats, now_ms: u64) -> (fire: bool)
        requires
            old(self).wf(),
        ensures
            final(self).wf(),
            fire == old(self)@.wants_preload(*stats, now_ms),
            final(self)@ == (PreloaderView {
                scheduled: old(self)@.scheduled || fire,
                ..old(self)@
            }),
    {
        if !self.enabled || self.preload_scheduled {
            return false;
        }
        if !self.recent_complexity_at_least(now_ms, PRELOAD_THRESHOLD) {
            return false;
        }
        let decision = should_load_model(stats, PRELOAD_MODEL_MB);
        if !self.has_embedding && !self.recent_complexity_at_least(
            now_ms,
            PRELOAD_THRESHOLD_WITHOUT_EMBEDDING,
        ) {
            return false;
        }
        match decision {
            LoadDecision::LoadNow | LoadDecision::BackgroundOnly => self.trigger_preload(),
            LoadDecision::Defer | LoadDecision::Skip => false,
        }
    }

    /// Claims the single preload slot: true for the caller that took it.
    pub fn trigger_preload(&mut self) -> (claimed: bool)
        ensures
            claimed == !old(self)@.scheduled,
            final(self)@ == (PreloaderView { scheduled: true, ..old(self)@ }),
    {
        let claimed = !self.preload_scheduled;
        self.preload_scheduled = true;
        claimed
    }

    /// Frees the preload slot once the cooldown after a preload has passed.
    pub fn finish_preload(&mut self)
        ensures
            final(self)@ == (PreloaderView { scheduled: false, ..old(self)@ }),
    {
        self.preload_scheduled = false;
    }

    /// One round of the background loop: while the preloader is on and the host
    /// is not under high pressure, the samples at the front that are older than
    /// twenty minutes go.
    pub fn background_tick(&mut self, stats: &LiveSystemStats, now_ms: u64) -> (outcome:
        PredictorTick)
        requires
            old(self).wf(),
        ensures
            final(self).wf(),
            outcome == if !old(self)@.enabled {
                PredictorTick::Disabled
            } else if stats.cpu_usage_bp > 8_500 || stats.memory_above(8_800) {
                PredictorTick::Paused
            } else {
                PredictorTick::Trimmed(stale_front(old(self)@.samples, now_ms) as usize)
            },
            final(self)@ == (PreloaderView {
                samples: if outcome is Trimmed {
                    old(self)@.samples.skip(stale_front(old(self)@.samples, now_ms) as int)
                } else {
                    old(self)@.samples
                },
                ..old(self)@
            }),
    {
        if !self.enabled {
            return PredictorTick::Disabled;
        }
        if stats.cpu_usage_bp > 8_500 || stats.memory_share_above(8_800) {
            return PredictorTick::Paused;
        }
        let ghost all = self.recent_queries@;
        let mut dropped: usize = 0;
        let mut done = false;
        while !done
            invariant
                dropped <= all.len() <= SAMPLE_CAPACITY,
                self.recent_queries@ =~= all.skip(dropped as int),
                stale_front(all, now_ms) == dropped + stale_front(self.recent_queries@, now_ms),
                done ==> stale_front(self.recent_queries@, now_ms) == 0,
                self@.enabled == old(self)@.enabled,
                self@.has_embedding == old(self)@.has_embedding,
                self@.scheduled == old(self)@.scheduled,
                self@.cooldown_secs == old(self)@.cooldown_secs,
            decreases all.len() - dropped + if done { 0int } else { 1int },
        {
            if self.recent_queries.len() == 0 {
                done = true;
            } else {
                let front = self.recent_queries[0];
                let age: u64 = if now_ms >= front.observed_at_ms {
                    now_ms - front.observed_at_ms
                } else {
                    0
                };
                if age > SAMPLE_RETENTION_MS {
                    let ghost before = self.recent_queries@;
                    let _ = self.recent_queries.pop_front();
                    proof {
                        assert(self.recent_queries@ =~= before.drop_first());
                        assert(before.drop_first() =~= all.skip(dropped + 1));
                    }
                    dropped = dropped + 1;
                } else {
                    done = true;
                }
            }
        }
        PredictorTick::Trimmed(dropped)
    }
}

} // verus!
