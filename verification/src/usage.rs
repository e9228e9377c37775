//! The usage learner: rolling statistics on query length, categories, hours of use
//! and models, and the suggestions drawn from them.
use vstd::arithmetic::mul::lemma_mul_upper_bound;
use vstd::prelude::*;
use crate::classifier::{count_up, next_count, CategoryTally, QueryCategory};
use crate::text::{same_text, texts, utf8_len};

verus! {

/// Most session hours that are held.
pub const SESSION_HOURS_MAX: usize = 200;

/// Session hours that are dropped, oldest first, when more than the most are held.
pub const SESSION_HOURS_DROPPED: usize = 100;

/// Milliseconds after which the hourly counters start over.
pub const HOURLY_RESET_MS: u64 = 86_400_000;

/// How often one model was used.
#[derive(Debug)]
pub struct ModelUsage {
    pub name: String,
    pub count: u64,
}

/// A digest of what the learner has seen.
#[derive(Clone, Copy, Debug, PartialEq, Eq, Structural)]
pub struct LearningStats {
    pub total_queries: u64,
    /// Mean query length in thousandths of a byte, rounded down.
    pub avg_query_length_milli: u64,
    pub total_sessions: u64,
    /// The hour of the day with the most use, the latest of them among equals.
    pub peak_hour: usize,
    /// The category asked for most often, none before the first query.
    pub top_category: Option<QueryCategory>,
}

/// Number of the first `n` hours that equal `hour`.
pub open spec fn hours_matching(hours: Seq<u8>, hour: u8, n: int) -> nat
    decreases n,
{
    if n <= 0 {
        0
    } else {
        hours_matching(hours, hour, n - 1) + if n <= hours.len() && hours[n - 1] == hour {
            1nat
        } else {
            0nat
        }
    }
}

/// The session hours after one more session: the hour is appended, and once more
/// than 200 are held the oldest 100 go.
pub open spec fn hours_after(hours: Seq<u8>, hour: u8) -> Seq<u8> {
    let grown = hours.push(hour);
    if grown.len() > SESSION_HOURS_MAX {
        grown.subrange(SESSION_HOURS_DROPPED as int, grown.len() as int)
    } else {
        grown
    }
}

/// `hour` has the highest count, and every later hour has a lower one.
pub open spec fn is_peak_hour(counts: Seq<u32>, hour: int) -> bool {
    &&& 0 <= hour < counts.len()
    &&& forall|j: int| 0 <= j < counts.len() ==> counts[j] <= counts[hour]
    &&& forall|j: int| hour < j < counts.len() ==> counts[j] < counts[hour]
}

/// The hourly counters after one more use at `hour`, `elapsed_ms` after they last
/// started over: they start over first where more than a day has gone by.
pub open spec fn hourly_after(counts: Seq<u32>, hour: int, elapsed_ms: int) -> Seq<u32> {
    let base = if elapsed_ms > HOURLY_RESET_MS {
        Seq::new(24, |i: int| 0u32)
    } else {
        counts
    };
    base.update(
        hour,
        if base[hour] < u32::MAX {
            (base[hour] + 1) as u32
        } else {
            base[hour]
        },
    )
}

/// Position of the model of the given name, if it was used before.
pub open spec fn usage_index(usage: Seq<ModelUsage>, name: Seq<char>, i: int) -> bool {
    0 <= i < usage.len() && usage[i].name@ == name
}

/// The usage counts after one more use of `name`: its count goes up, or it joins
/// the end of the list with a count of one.
pub open spec fn usage_after(
    usage: Seq<ModelUsage>,
    name: Seq<char>,
    after: Seq<ModelUsage>,
) -> bool {
    if exists|i: int| usage_index(usage, name, i) {
        let i = choose|i: int| usage_index(usage, name, i);
        &&& after.len() == usage.len()
        &&& forall|j: int|
            0 <= j < usage.len() ==> #[trigger] after[j].name@ == usage[j].name@ && after[j].count
                == next_count(usage[j].count, j == i)
    } else {
        &&& after.len() == usage.len() + 1
        &&& forall|j: int| 0 <= j < usage.len() ==> #[trigger] after[j] == usage[j]
        &&& after[usage.len() as int].name@ == name
        &&& after[usage.len() as int].count == 1
    }
}

/// No two entries share a name.
pub open spec fn distinct_names(usage: Seq<ModelUsage>) -> bool {
    forall|i: int, j: int|
        0 <= i < usage.len() && 0 <= j < usage.len() && i != j ==> usage[i].name@
            != usage[j].name@
}

/// `i` is the most used model apart from `skip`, the one used first among equals.
pub open spec fn leads_usage(usage: Seq<ModelUsage>, skip: Option<int>, i: int) -> bool {
    &&& 0 <= i < usage.len()
    &&& skip != Some(i)
    &&& forall|j: int| 0 <= j < usage.len() && skip != Some(j) ==> usage[j].count <= usage[i].count
    &&& forall|j: int| 0 <= j < i && skip != Some(j) ==> usage[j].count < usage[i].count
}

/// The mean of `total` over `count` items is below `bound`; the mean of nothing
/// is zero.
pub open spec fn mean_below(total: u64, count: u64, bound: int) -> bool {
    if count == 0 {
        0 < bound
    } else {
        total < bound * count
    }
}

/// Retrieval slots that suit the mean query length: 16 below 50 bytes, 28 below
/// 150, 44 below 300, else 64.
pub open spec fn context_window_for(total: u64, count: u64) -> int {
    if mean_below(total, count, 50) {
        16
    } else if mean_below(total, count, 150) {
        28
    } else if mean_below(total, count, 300) {
        44
    } else {
        64
    }
}

/// More than 15 % of the session hours held equal `hour`.
pub open spec fn is_peak(hours: Seq<u8>, hour: u8) -> bool {
    let matching = hours_matching(hours, hour, hours.len() as int);
    let total = if hours.len() == 0 {
        1
    } else {
        hours.len() as int
    };
    matching * 20 > 3 * total
}

/// `total + more`, or the largest count where that does not fit.
pub open spec fn capped_sum(total: u64, more: nat) -> u64 {
    if total + more <= u64::MAX {
        (total + more) as u64
    } else {
        u64::MAX
    }
}

/// What the learner holds, as plain values.
pub struct LearnerView {
    pub sessions: u64,
    pub session_hours: Seq<u8>,
    pub queries: u64,
    /// Sum of the lengths, in bytes, of the queries seen.
    pub query_len_sum: u64,
    pub categories: CategoryTally,
    pub hourly: Seq<u32>,
    /// When the hourly counters last started over, in milliseconds.
    pub reset_at_ms: u64,
    pub usage: Seq<ModelUsage>,
    pub preferred: Option<String>,
    pub fallback: Option<String>,
}

impl LearnerView {
    /// The state after one more query of `len` bytes and of the given category.
    pub open spec fn with_query(self, len: nat, category: QueryCategory) -> LearnerView {
        LearnerView {
            queries: next_count(self.queries, true),
            query_len_sum: capped_sum(self.query_len_sum, len),
            categories: self.categories.bumped(category),
            ..self
        }
    }

    /// The state after one more session that starts at the given hour.
    pub open spec fn with_session(self, hour: u8) -> LearnerView {
        LearnerView {
            sessions: next_count(self.sessions, true),
            session_hours: hours_after(self.session_hours, hour),
            ..self
        }
    }

    /// The state after one more use at the given hour, noted at `now_ms`.
    pub open spec fn with_time_usage(self, hour: u8, now_ms: u64) -> LearnerView {
        LearnerView {
            hourly: hourly_after(self.hourly, hour as int, elapsed_ms(now_ms, self.reset_at_ms)),
            reset_at_ms: if elapsed_ms(now_ms, self.reset_at_ms) > HOURLY_RESET_MS {
                now_ms
            } else {
                self.reset_at_ms
            },
            ..self
        }
    }
}

/// `preferred` names the most used model; there is none only before the first use.
pub open spec fn names_leader(usage: Seq<ModelUsage>, preferred: Option<String>) -> bool {
    match preferred {
        Some(name) => exists|i: int| leads_usage(usage, None, i) && usage[i].name@ == name@,
        None => usage.len() == 0,
    }
}

/// `fallback` names the most used model after the preferred one; there is none
/// while fewer than two models were used.
pub open spec fn names_runner_up(usage: Seq<ModelUsage>, fallback: Option<String>) -> bool {
    match fallback {
        Some(name) => exists|top: int, i: int|
            leads_usage(usage, None, top) && leads_usage(usage, Some(top), i) && usage[i].name@
                == name@,
        None => usage.len() <= 1,
    }
}

/// The suggestions that a state of the learner gives rise to, in their fixed order.
pub open spec fn suggestions_for(view: LearnerView, hour: u8) -> Seq<Seq<char>> {
    let lengthen: Seq<Seq<char>> = if mean_above(view.query_len_sum, view.queries, 200) {
        seq!["increase_context_window"@]
    } else {
        seq![]
    };
    let lighten: Seq<Seq<char>> = if view.queries > 100 && view.categories.led_by(
        QueryCategory::Simple,
    ) {
        seq!["prefer_lightweight_model"@]
    } else {
        seq![]
    };
    let defer: Seq<Seq<char>> = if is_peak(view.session_hours, hour) {
        seq!["defer_background_jobs"@]
    } else {
        seq![]
    };
    lengthen + lighten + defer
}

/// The mean of `total` over `count` items is above `bound`; the mean of nothing
/// is zero.
pub open spec fn mean_above(total: u64, count: u64, bound: int) -> bool {
    if count == 0 {
        0 > bound
    } else {
        total > bound * count
    }
}

/// The mean of `total` over `count` items in thousandths, rounded down; zero for
/// no items, and the largest count where it does not fit.
pub open spec fn mean_milli(total: u64, count: u64) -> int {
    if count == 0 {
        0
    } else if total * 1_000 / (count as int) > u64::MAX {
        u64::MAX as int
    } else {
        total * 1_000 / (count as int)
    }
}

/// A tally has at most one leader.
pub proof fn lemma_leader_unique(tally: CategoryTally, a: QueryCategory, b: QueryCategory)
    requires
        tally.led_by(a),
    ensures
        tally.led_by(b) ==> a == b,
{
    if tally.led_by(b) {
        assert(tally.of(a) <= tally.of(b));
        assert(tally.of(b) <= tally.of(a));
        if a.position() < b.position() {
            assert(tally.of(a) < tally.of(b));
        }
        if b.position() < a.position() {
            assert(tally.of(b) < tally.of(a));
        }
    }
}

/// The learner's state.
pub struct UsageLearner {
    total_sessions: u64,
    session_hours: Vec<u8>,
    total_queries: u64,
    total_query_len: u64,
    categories: CategoryTally,
    hourly_counts: Vec<u32>,
    last_reset_ms: u64,
    model_usage: Vec<ModelUsage>,
    preferred_model: Option<String>,
    fallback_model: Option<String>,
}

fn find_usage(usage: &Vec<ModelUsage>, name: &str) -> (found: Option<usize>)
    ensures
        match found {
            Some(i) => usage_index(usage@, name@, i as int),
            None => forall|i: int| !usage_index(usage@, name@, i),
        },
{
    let mut i: usize = 0;
    while i < usage.len()
        invariant
            i <= usage.len(),
            forall|j: int| 0 <= j < i ==> !usage_index(usage@, name@, j),
        decreases usage.len() - i,
    {
        if same_text(usage[i].name.as_str(), name) {
            return Some(i);
        }
        i = i + 1;
    }
    None
}

fn find_leader(usage: &Vec<ModelUsage>, skip: Option<usize>) -> (found: Option<usize>)
    ensures
        match found {
            Some(i) => leads_usage(
                usage@,
                match skip {
                    Some(k) => Some(k as int),
                    None => None,
                },
                i as int,
            ),
            None => usage.len() == 0 || (usage.len() == 1 && skip == Some(0usize)),
        },
{
    let ghost skipped: Option<int> = match skip {
        Some(k) => Some(k as int),
        None => None,
    };
    let mut best: Option<usize> = None;
    let mut i: usize = 0;
    while i < usage.len()
        invariant
            i <= usage.len(),
            skipped == match skip {
                Some(k) => Some(k as int),
                None => None,
            },
            match best {
                Some(b) => {
                    &&& b < i
                    &&& skipped != Some(b as int)
                    &&& forall|j: int|
                        0 <= j < i && skipped != Some(j) ==> usage@[j].count
                            <= usage@[b as int].count
                    &&& forall|j: int|
                        0 <= j < b && skipped != Some(j) ==> usage@[j].count
                            < usage@[b as int].count
                },
                None => i == 0 || (i == 1 && skipped == Some(0int)),
            },
        decreases usage.len() - i,
    {
        let skip_this = match skip {
            Some(k) => k == i,
            None => false,
        };
        if !skip_this {
            let better = match best {
                Some(b) => usage[i].count > usage[b].count,
                None => true,
            };
            if better {
                best = Some(i);
            }
        }
        i = i + 1;
    }
    best
}

impl View for UsageLearner {
    type V = LearnerView;

    closed spec fn view(&self) -> LearnerView {
        LearnerView {
            sessions: self.total_sessions,
            session_hours: self.session_hours@,
            queries: self.total_queries,
            query_len_sum: self.total_query_len,
            categories: self.categories,
            hourly: self.hourly_counts@,
            reset_at_ms: self.last_reset_ms,
            usage: self.model_usage@,
            preferred: self.preferred_model,
            fallback: self.fallback_model,
        }
    }
}

impl UsageLearner {
    /// At most 200 session hours are held, there are 24 hourly counters, and no
    /// model is counted twice.
    pub open spec fn wf(&self) -> bool {
        &&& self@.session_hours.len() <= SESSION_HOURS_MAX
        &&& self@.hourly.len() == 24
        &&& distinct_names(self@.usage)
    }

    /// A learner that has seen nothing, with hourly counters that start at `now_ms`.
    pub fn new(now_ms: u64) -> (learner: Self)
        ensures
            learner.wf(),
            learner@.sessions == 0,
            learner@.session_hours == Seq::<u8>::empty(),
            learner@.queries == 0,
            learner@.query_len_sum == 0,
            learner@.categories.all_zero(),
            learner@.hourly == Seq::new(24, |i: int| 0u32),
            learner@.reset_at_ms == now_ms,
            learner@.usage.len() == 0,
            learner@.preferred is None,
            learner@.fallback is None,
    {
        let mut hourly_counts: Vec<u32> = Vec::new();
        while hourly_counts.len() < 24
            invariant
                hourly_counts.len() <= 24,
                forall|i: int| 0 <= i < hourly_counts.len() ==> hourly_counts[i] == 0,
            decreases 24 - hourly_counts.len(),
        {
            hourly_counts.push(0);
        }
        assert(hourly_counts@ =~= Seq::new(24, |i: int| 0u32));
        UsageLearner {
            total_sessions: 0,
            session_hours: Vec::new(),
            total_queries: 0,
            total_query_len: 0,
            categories: CategoryTally::zero(),
            hourly_counts,
            last_reset_ms: now_ms,
            model_usage: Vec::new(),
            preferred_model: None,
            fallback_model: None,
        }
    }

    /// Takes note of one query of the given category.
    pub fn record_query(&mut self, query: &str, category: QueryCategory)
        requires
            old(self).wf(),
        ensures
            final(self).wf(),
            final(self)@ == old(self)@.with_query(utf8_len(query@) as nat, category),
    {
        self.total_queries = count_up(self.total_queries);
        let len = query.len() as u64;
        self.total_query_len = if self.total_query_len <= u64::MAX - len {
            self.total_query_len + len
        } else {
            u64::MAX
        };
        self.categories.bump(category);
    }

    /// Takes note of a session that starts at the given hour of the day.
    pub fn record_session_start(&mut self, hour: u8)
        requires
            old(self).wf(),
        ensures
            final(self).wf(),
            final(self)@ == old(self)@.with_session(hour),
    {
        self.total_sessions = count_up(self.total_sessions);
        if self.session_hours.len() < SESSION_HOURS_MAX {
            self.session_hours.push(hour);
        } else {
            let ghost grown = self.session_hours@.push(hour);
            let mut kept: Vec<u8> = Vec::new();
            let mut i: usize = SESSION_HOURS_DROPPED;
            while i < self.session_hours.len()
                invariant
                    SESSION_HOURS_DROPPED <= i <= self.session_hours.len(),
                    self.session_hours.len() == SESSION_HOURS_MAX,
                    kept@ =~= self.session_hours@.subrange(SESSION_HOURS_DROPPED as int, i as int),
                decreases self.session_hours.len() - i,
            {
                kept.push(self.session_hours[i]);
                i = i + 1;
            }
            kept.push(hour);
            assert(kept@ =~= grown.subrange(SESSION_HOURS_DROPPED as int, grown.len() as int));
            self.session_hours = kept;
        }
    }

    /// Takes note of one use at the given hour of the day.
    pub fn record_time_usage(&mut self, hour: u8, now_ms: u64)
        requires
            old(self).wf(),
            hour < 24,
        ensures
            final(self).wf(),
            final(self)@ == old(self)@.with_time_usage(hour, now_ms),
    {
        let elapsed = if now_ms >= self.last_reset_ms {
            now_ms - self.last_reset_ms
        } else {
            0
        };
        if elapsed > HOURLY_RESET_MS {
            let mut cleared: Vec<u32> = Vec::new();
            while cleared.len() < 24
                invariant
                    cleared.len() <= 24,
                    forall|i: int| 0 <= i < cleared.len() ==> cleared[i] == 0,
                decreases 24 - cleared.len(),
            {
                cleared.push(0);
            }
            assert(cleared@ =~= Seq::new(24, |i: int| 0u32));
            self.hourly_counts = cleared;
            self.last_reset_ms = now_ms;
        }
        let slot = hour as usize;
        let count = self.hourly_counts[slot];
        let next = if count < u32::MAX {
            count + 1
        } else {
            count
        };
        self.hourly_counts.set(slot, next);
    }

    /// Takes note of one use of a model and names anew the preferred model and
    /// the fallback: the two most used, the one used first among equals.
    pub fn record_model_usage(&mut self, model_name: &str)
        requires
            old(self).wf(),
        ensures
            final(self).wf(),
            usage_after(old(self)@.usage, model_name@, final(self)@.usage),
            names_leader(final(self)@.usage, final(self)@.preferred),
            final(self)@.preferred is Some,
            names_runner_up(final(self)@.usage, final(self)@.fallback),
            final(self)@.sessions == old(self)@.sessions,
            final(self)@.session_hours == old(self)@.session_hours,
            final(self)@.queries == old(self)@.queries,
            final(self)@.query_len_sum == old(self)@.query_len_sum,
            final(self)@.categories == old(self)@.categories,
            final(self)@.hourly == old(self)@.hourly,
            final(self)@.reset_at_ms == old(self)@.reset_at_ms,
    {
        let ghost before = self.model_usage@;
        match find_usage(&self.model_usage, model_name) {
            Some(i) => {
                let name = self.model_usage[i].name.clone();
                let count = count_up(self.model_usage[i].count);
                self.model_usage.set(i, ModelUsage { name, count });
                proof {
                    let witness = choose|k: int| usage_index(before, model_name@, k);
                    assert(usage_index(before, model_name@, i as int));
                    assert(witness == i as int) by {
                        if witness != i as int {
                            assert(before[witness].name@ != before[i as int].name@);
                        }
                    }
                    assert forall|a: int, b: int|
                        0 <= a < self.model_usage@.len() && 0 <= b < self.model_usage@.len() && a
                            != b implies self.model_usage@[a].name@
                        != self.model_usage@[b].name@ by {
                        assert(self.model_usage@[a].name@ == before[a].name@);
                        assert(self.model_usage@[b].name@ == before[b].name@);
                    }
                }
            },
            None => {
                self.model_usage.push(ModelUsage { name: model_name.to_owned(), count: 1 });
                assert forall|a: int, b: int|
                    0 <= a < self.model_usage@.len() && 0 <= b < self.model_usage@.len() && a
                        != b implies self.model_usage@[a].name@ != self.model_usage@[b].name@ by {
                    if a < before.len() {
                        assert(!usage_index(before, model_name@, a));
                    }
                    if b < before.len() {
                        assert(!usage_index(before, model_name@, b));
                    }
                }
            },
        }
        assert(distinct_names(self.model_usage@));
        let top = find_leader(&self.model_usage, None);
        match top {
            Some(t) => {
                self.preferred_model = Some(self.model_usage[t].name.clone());
                let second = find_leader(&self.model_usage, Some(t));
                match second {
                    Some(r) => {
                        self.fallback_model = Some(self.model_usage[r].name.clone());
                    },
                    None => {
                        self.fallback_model = None;
                    },
                }
            },
            None => {
                assert(false);
            },
        }
    }

    /// Retrieval slots that suit the mean query length.
    pub fn get_optimal_context_window(&self) -> (slots: usize)
        ensures
            slots == context_window_for(self@.query_len_sum, self@.queries),
    {
        if self.mean_is_below(50) {
            16
        } else if self.mean_is_below(150) {
            28
        } else if self.mean_is_below(300) {
            44
        } else {
            64
        }
    }

    fn mean_is_below(&self, bound: u64) -> (below: bool)
        ensures
            below == mean_below(self@.query_len_sum, self@.queries, bound as int),
    {
        if self.total_queries == 0 {
            0 < bound
        } else {
            proof {
                lemma_mul_upper_bound(
                    bound as int,
                    u64::MAX as int,
                    self.total_queries as int,
                    u64::MAX as int,
                );
            }
            (self.total_query_len as u128) < (bound as u128) * (self.total_queries as u128)
        }
    }

    /// The preferred model and the fallback, as last named.
    pub fn get_model_recommendation(&self) -> (names: (Option<String>, Option<String>))
        ensures
            names.0 == self@.preferred,
            names.1 == self@.fallback,
    {
        (
            match &self.preferred_model {
                Some(name) => Some(name.clone()),
                None => None,
            },
            match &self.fallback_model {
                Some(name) => Some(name.clone()),
                None => None,
            },
        )
    }

    /// Whether the given hour is one at which sessions tend to start.
    pub fn is_peak_hours(&self, current_hour: u8) -> (peak: bool)
        requires
            self.wf(),
        ensures
            peak == is_peak(self@.session_hours, current_hour),
    {
        let mut matching: usize = 0;
        let mut i: usize = 0;
        while i < self.session_hours.len()
            invariant
                i <= self.session_hours.len() <= SESSION_HOURS_MAX,
                matching <= i,
                matching == hours_matching(self.session_hours@, current_hour, i as int),
            decreases self.session_hours.len() - i,
        {
            if self.session_hours[i] == current_hour {
                matching = matching + 1;
            }
            i = i + 1;
        }
        let total = if self.session_hours.len() == 0 {
            1
        } else {
            self.session_hours.len()
        };
        matching * 20 > 3 * total
    }

    /// A digest of what was seen.
    pub fn get_learning_stats(&self) -> (stats: LearningStats)
        requires
            self.wf(),
        ensures
            stats.total_queries == self@.queries,
            stats.avg_query_length_milli == mean_milli(self@.query_len_sum, self@.queries),
            stats.total_sessions == self@.sessions,
            is_peak_hour(self@.hourly, stats.peak_hour as int),
            match stats.top_category {
                Some(category) => self@.categories.led_by(category),
                None => self@.categories.all_zero(),
            },
    {
        let mut peak_hour: usize = 0;
        let mut i: usize = 1;
        while i < 24
            invariant
                1 <= i <= 24,
                self.hourly_counts.len() == 24,
                peak_hour < i,
                forall|j: int|
                    0 <= j < i ==> self.hourly_counts@[j]
                        <= self.hourly_counts@[peak_hour as int],
                forall|j: int|
                    peak_hour < j < i ==> self.hourly_counts@[j]
                        < self.hourly_counts@[peak_hour as int],
            decreases 24 - i,
        {
            if self.hourly_counts[i] >= self.hourly_counts[peak_hour] {
                peak_hour = i;
            }
            i = i + 1;
        }
        let avg_query_length_milli: u64 = if self.total_queries == 0 {
            0
        } else {
            let scaled: u128 = (self.total_query_len as u128) * 1_000
                / (self.total_queries as u128);
            if scaled > u64::MAX as u128 {
                u64::MAX
            } else {
                scaled as u64
            }
        };
        LearningStats {
            total_queries: self.total_queries,
            avg_query_length_milli,
            total_sessions: self.total_sessions,
            peak_hour,
            top_category: self.categories.leader(),
        }
    }

    /// What the usage seen suggests: a longer context for long queries, a lighter
    /// model for a stream of simple ones, and deferring background jobs at a peak hour.
    pub fn suggest_optimizations(&self, current_hour: u8) -> (suggestions: Vec<String>)
        requires
            self.wf(),
        ensures
            texts(suggestions@) == suggestions_for(self@, current_hour),
    {
        let mut suggestions: Vec<String> = Vec::new();
        let long_queries = if self.total_queries == 0 {
            false
        } else {
            (self.total_query_len as u128) > 200 * (self.total_queries as u128)
        };
        if long_queries {
            suggestions.push("increase_context_window".to_owned());
        }
        let ghost first = texts(suggestions@);
        assert(first =~= if mean_above(self@.query_len_sum, self@.queries, 200) {
            seq!["increase_context_window"@]
        } else {
            seq![]
        });
        let top = self.categories.leader();
        let simple_leads = match top {
            Some(QueryCategory::Simple) => true,
            _ => false,
        };
        proof {
            if let Some(category) = top {
                lemma_leader_unique(self.categories, category, QueryCategory::Simple);
            } else {
                assert(self.categories.of(QueryCategory::Simple) == 0);
            }
        }
        if self.total_queries > 100 && simple_leads {
            suggestions.push("prefer_lightweight_model".to_owned());
        }
        let ghost second = texts(suggestions@);
        assert(second =~= first + if self@.queries > 100 && self@.categories.led_by(
            QueryCategory::Simple,
        ) {
            seq!["prefer_lightweight_model"@]
        } else {
            seq![]
        });
        if self.is_peak_hours(current_hour) {
            suggestions.push("defer_background_jobs".to_owned());
        }
        assert(texts(suggestions@) =~= second + if is_peak(self@.session_hours, current_hour) {
            seq!["defer_background_jobs"@]
        } else {
            seq![]
        });
        suggestions
    }
}

/// Milliseconds from `then` to `now`; zero where `then` lies ahead.
pub open spec fn elapsed_ms(now: u64, then: u64) -> int {
    if now >= then {
        now - then
    } else {
        0
    }
}

} // verus!
