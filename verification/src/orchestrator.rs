//! The runtime orchestrator: the service budget of a tier under pressure, and the
//! plan of one request.
use vstd::arithmetic::mul::lemma_mul_upper_bound;
use vstd::prelude::*;
use crate::classifier::{
    appended, classification, record_of, CategoryTally, QueryCategory, SmartQueryClassifier,
    DISTRIBUTION_WINDOW_MS,
};
use crate::governor::{classify_pressure, Qos, RuntimePolicy};
use crate::hardware::DeviceTier;
use crate::memory_manager::{AdaptiveMemoryManager, MemoryManagerStats};
use crate::preloader::{complexity_of, PredictivePreloader, PreloaderView};
use crate::pressure::{LiveSystemStats, PressureLevel};
use crate::router::{normalize_qos, normalize_task_type, qos_named_or_balanced, text_of, TaskType};
use crate::text::{lowercase, texts, trimmed, utf8_len};
use crate::usage::{
    context_window_for, is_peak_hour, mean_milli, suggestions_for, LearningStats, UsageLearner,
};

verus! {

/// Fewest interactive tokens that a budget or a plan grants.
pub const MIN_INTERACTIVE_TOKENS: usize = 96;

/// Fewest background tokens that a budget grants.
pub const MIN_BACKGROUND_TOKENS: usize = 64;

/// Most retrieval candidates under critical pressure.
pub const CRITICAL_RETRIEVAL_LIMIT: usize = 3;

/// Capability toggles of a session, fixed at startup.
#[derive(Clone, Copy, Debug, PartialEq, Eq, Structural)]
pub struct FeatureGate {
    pub rag_enabled: bool,
    pub mcp_enabled: bool,
    pub spotify_enabled: bool,
    pub background_tasks_enabled: bool,
    pub predictive_preload_enabled: bool,
    pub adaptive_memory_enabled: bool,
}

/// The resource envelope of one request.
#[derive(Clone, Copy, Debug, PartialEq, Eq, Structural)]
pub struct ServiceBudget {
    pub interactive_max_tokens: usize,
    pub background_max_tokens: usize,
    pub retrieval_candidate_limit: usize,
    pub interactive_max_concurrency: usize,
    pub background_max_concurrency: usize,
}

/// The plan of one request.
#[derive(Clone, Copy, Debug, PartialEq, Eq, Structural)]
pub struct OrchestratedRequest {
    pub task_type: TaskType,
    pub qos: Qos,
    pub query_category: QueryCategory,
    pub max_tokens_hint: usize,
    pub context_window_hint: usize,
    pub pressure_level: PressureLevel,
    pub defer_background: bool,
}

/// Tiers, pressure, budget and policy of a session at one moment.
#[derive(Clone, Copy, Debug, PartialEq, Eq, Structural)]
pub struct RuntimeProfileSnapshot {
    pub detected_tier: DeviceTier,
    pub active_tier: DeviceTier,
    /// The session runs at the `Low` or the `Minimal` tier.
    pub low_safe_startup: bool,
    pub pressure_level: PressureLevel,
    pub feature_gates: FeatureGate,
    pub service_budget: ServiceBudget,
    pub policy: RuntimePolicy,
}

/// Which components are up, and the watchdog's counters.
#[derive(Clone, Copy, Debug, PartialEq, Eq, Structural)]
pub struct ServiceHealthSnapshot {
    pub query_classifier_ready: bool,
    pub usage_learner_ready: bool,
    pub adaptive_memory_enabled: bool,
    pub predictive_preload_enabled: bool,
    pub recent_query_samples: usize,
    pub memory_manager: MemoryManagerStats,
}

/// What the learner, the watchdog and the classifier have gathered.
#[derive(Debug)]
pub struct OptimizationStatsSnapshot {
    pub learning: LearningStats,
    pub memory_manager: MemoryManagerStats,
    pub suggested_optimizations: Vec<String>,
    pub recommended_context_window: usize,
    pub preferred_model: Option<String>,
    pub fallback_model: Option<String>,
    pub classification_distribution: CategoryTally,
}

/// The capabilities of a session that starts at `startup_tier`: tools and
/// Spotify always, retrieval where its services came up, background tasks as the
/// tier's configuration says, the preloader on every tier but `Minimal`, and the
/// memory watchdog always.
pub open spec fn startup_gates(
    startup_tier: DeviceTier,
    rag_available: bool,
    background_tasks_enabled: bool,
) -> FeatureGate {
    FeatureGate {
        rag_enabled: rag_available,
        mcp_enabled: true,
        spotify_enabled: true,
        background_tasks_enabled,
        predictive_preload_enabled: startup_tier != DeviceTier::Minimal,
        adaptive_memory_enabled: true,
    }
}

/// Fixes the capabilities of a session at startup.
pub fn startup_feature_gates(
    startup_tier: DeviceTier,
    rag_available: bool,
    background_tasks_enabled: bool,
) -> (gates: FeatureGate)
    ensures
        gates == startup_gates(startup_tier, rag_available, background_tasks_enabled),
{
    FeatureGate {
        rag_enabled: rag_available,
        mcp_enabled: true,
        spotify_enabled: true,
        background_tasks_enabled,
        predictive_preload_enabled: match startup_tier {
            DeviceTier::Minimal => false,
            _ => true,
        },
        adaptive_memory_enabled: true,
    }
}

/// The smaller of two integers.
pub open spec fn lesser(a: int, b: int) -> int {
    if a <= b {
        a
    } else {
        b
    }
}

/// The larger of two integers.
pub open spec fn greater(a: int, b: int) -> int {
    if a >= b {
        a
    } else {
        b
    }
}

/// `value x percent / 100`, rounded to the nearest integer (a half rounds up).
pub open spec fn scaled(value: int, percent: int) -> int {
    (value * percent + 50) / 100
}

/// Token ceiling that the free memory allows: 512, and 100 more for each full
/// 1 024 MB that is free.
pub open spec fn dynamic_max_tokens(free_mb: int) -> int {
    512 + (free_mb / 1_024) * 100
}

/// Interactive token ceiling of a tier.
pub open spec fn tier_interactive_cap(tier: DeviceTier) -> int {
    match tier {
        DeviceTier::Potato => 128,
        DeviceTier::Minimal => 256,
        DeviceTier::Low => 512,
        DeviceTier::Medium => 1_024,
        DeviceTier::High => 4_096,
        DeviceTier::Ultra => 16_384,
    }
}

/// Background token ceiling of a tier.
pub open spec fn tier_background_cap(tier: DeviceTier) -> int {
    match tier {
        DeviceTier::Potato => 64,
        DeviceTier::Minimal => 128,
        DeviceTier::Low => 192,
        DeviceTier::Medium => 320,
        DeviceTier::High => 1_024,
        DeviceTier::Ultra => 4_096,
    }
}

/// Retrieval candidates of a tier.
pub open spec fn tier_retrieval_limit(tier: DeviceTier) -> int {
    match tier {
        DeviceTier::Potato => 4,
        DeviceTier::Minimal => 12,
        DeviceTier::Low => 24,
        DeviceTier::Medium => 48,
        DeviceTier::High => 96,
        DeviceTier::Ultra => 256,
    }
}

/// Interactive requests that a tier runs at once.
pub open spec fn tier_interactive_concurrency(tier: DeviceTier) -> int {
    match tier {
        DeviceTier::Potato | DeviceTier::Minimal | DeviceTier::Low => 1,
        DeviceTier::Medium => 2,
        DeviceTier::High => 3,
        DeviceTier::Ultra => 5,
    }
}

/// Background requests that a tier runs at once.
pub open spec fn tier_background_concurrency(tier: DeviceTier) -> int {
    match tier {
        DeviceTier::Potato | DeviceTier::Minimal | DeviceTier::Low | DeviceTier::Medium => 1,
        DeviceTier::High => 2,
        DeviceTier::Ultra => 4,
    }
}

/// Share of a tier's token ceilings that is left under a pressure level, in
/// percent.
pub open spec fn budget_percent(level: PressureLevel) -> int {
    match level {
        PressureLevel::Critical => 50,
        PressureLevel::High => 70,
        PressureLevel::Warm => 90,
        PressureLevel::Normal => 100,
    }
}

/// Share of a token hint that is left under a pressure level, in percent.
pub open spec fn plan_percent(level: PressureLevel) -> int {
    match level {
        PressureLevel::Critical => 45,
        PressureLevel::High => 65,
        PressureLevel::Warm => 85,
        PressureLevel::Normal => 100,
    }
}

/// The budget of a tier with `free_mb` of free memory under a pressure level and
/// a policy. The tier gives the ceilings, the pressure scales the token ceilings
/// down, the policy caps every figure, and critical pressure leaves at most three
/// retrieval candidates. Tokens and concurrency never fall under their floors.
pub open spec fn budget_of(
    tier: DeviceTier,
    free_mb: int,
    pressure: PressureLevel,
    policy: RuntimePolicy,
) -> ServiceBudget {
    let ceiling = lesser(dynamic_max_tokens(free_mb), tier_interactive_cap(tier));
    let retrieval = if pressure == PressureLevel::Critical {
        lesser(tier_retrieval_limit(tier), CRITICAL_RETRIEVAL_LIMIT as int)
    } else {
        tier_retrieval_limit(tier)
    };
    ServiceBudget {
        interactive_max_tokens: greater(
            lesser(
                scaled(ceiling, budget_percent(pressure)),
                policy.interactive_max_tokens as int,
            ),
            MIN_INTERACTIVE_TOKENS as int,
        ) as usize,
        background_max_tokens: greater(
            lesser(
                scaled(tier_background_cap(tier), budget_percent(pressure)),
                policy.background_max_tokens as int,
            ),
            MIN_BACKGROUND_TOKENS as int,
        ) as usize,
        retrieval_candidate_limit: lesser(retrieval, policy.retrieval_candidate_limit as int)
            as usize,
        interactive_max_concurrency: greater(
            lesser(tier_interactive_concurrency(tier), policy.interactive_max_concurrency as int),
            1,
        ) as usize,
        background_max_concurrency: greater(
            lesser(tier_background_concurrency(tier), policy.background_max_concurrency as int),
            1,
        ) as usize,
    }
}

/// The token hint of a plan: the category's hint, cut to the budget, scaled by
/// the pressure and kept between 96 and the budget.
pub open spec fn planned_tokens(
    category: QueryCategory,
    pressure: PressureLevel,
    budget: ServiceBudget,
) -> int {
    let wanted = lesser(category.token_hint(), budget.interactive_max_tokens as int);
    let eased = scaled(wanted, plan_percent(pressure));
    if eased < MIN_INTERACTIVE_TOKENS {
        MIN_INTERACTIVE_TOKENS as int
    } else if eased > budget.interactive_max_tokens {
        budget.interactive_max_tokens as int
    } else {
        eased
    }
}

/// The task type that a category stands for where the caller names none.
pub open spec fn category_task_type(category: QueryCategory) -> TaskType {
    match category {
        QueryCategory::Code => TaskType::Code,
        QueryCategory::Math | QueryCategory::Analytical | QueryCategory::Complex =>
            TaskType::Reasoning,
        QueryCategory::Creative | QueryCategory::Simple | QueryCategory::Medium => TaskType::Chat,
        QueryCategory::Summarization | QueryCategory::Translation => TaskType::Reasoning,
    }
}

/// The lane that a category stands for where the caller names none.
pub open spec fn category_qos(category: QueryCategory) -> Qos {
    match category {
        QueryCategory::Simple => Qos::Fast,
        QueryCategory::Medium | QueryCategory::Creative | QueryCategory::Summarization
        | QueryCategory::Translation => Qos::Balanced,
        QueryCategory::Complex | QueryCategory::Code | QueryCategory::Math
        | QueryCategory::Analytical => Qos::MaxQuality,
    }
}

/// Reads a task type that a caller names: surrounding blanks and letter case do
/// not matter, and a name off the list stands for `Chat`.
pub fn sanitize_task_type(task_type: &str) -> (task: TaskType)
    ensures
        task == TaskType::named_or_chat(lowercase(trimmed(task_type@))),
{
    normalize_task_type(task_type)
}

/// Reads a lane that a caller names: surrounding blanks and letter case do not
/// matter, and a name off the list stands for `Balanced`.
pub fn sanitize_qos(qos: &str) -> (lane: Qos)
    ensures
        lane == qos_named_or_balanced(lowercase(trimmed(qos@))),
{
    normalize_qos(qos)
}

/// The task type that a category stands for. This goes by the category alone and
/// may differ from what the router reads in the words of the same request.
pub fn infer_task_type_from_category(category: &QueryCategory) -> (task: TaskType)
    ensures
        task == category_task_type(*category),
{
    match category {
        QueryCategory::Code => TaskType::Code,
        QueryCategory::Math | QueryCategory::Analytical | QueryCategory::Complex =>
            TaskType::Reasoning,
        QueryCategory::Creative => TaskType::Chat,
        QueryCategory::Simple | QueryCategory::Medium => TaskType::Chat,
        QueryCategory::Summarization | QueryCategory::Translation => TaskType::Reasoning,
    }
}

/// The lane that a category stands for.
pub fn infer_qos_from_category(category: &QueryCategory) -> (lane: Qos)
    ensures
        lane == category_qos(*category),
{
    match category {
        QueryCategory::Simple => Qos::Fast,
        QueryCategory::Medium | QueryCategory::Creative | QueryCategory::Summarization
        | QueryCategory::Translation => Qos::Balanced,
        QueryCategory::Complex | QueryCategory::Code | QueryCategory::Math
        | QueryCategory::Analytical => Qos::MaxQuality,
    }
}

fn min_usize(a: usize, b: usize) -> (m: usize)
    ensures
        m == lesser(a as int, b as int),
{
    if a <= b {
        a
    } else {
        b
    }
}

fn max_usize(a: usize, b: usize) -> (m: usize)
    ensures
        m == greater(a as int, b as int),
{
    if a >= b {
        a
    } else {
        b
    }
}

fn scale(value: usize, percent: u32) -> (r: usize)
    requires
        value <= 65_536,
        percent <= 100,
    ensures
        r == scaled(value as int, percent as int),
        r <= value,
{
    proof {
        lemma_mul_upper_bound(value as int, 65_536, percent as int, 100);
        lemma_mul_upper_bound(value as int, value as int, percent as int, 100);
    }
    let product: u64 = (value as u64) * (percent as u64) + 50;
    (product / 100) as usize
}

/// Computes the budget of a tier under a pressure level.
pub fn budget_for(
    tier: DeviceTier,
    free_ram_mb: u64,
    pressure: PressureLevel,
    policy: &RuntimePolicy,
) -> (budget: ServiceBudget)
    ensures
        budget == budget_of(tier, free_ram_mb as int, pressure, *policy),
        budget.interactive_max_tokens >= MIN_INTERACTIVE_TOKENS,
        budget.background_max_tokens >= MIN_BACKGROUND_TOKENS,
        budget.interactive_max_concurrency >= 1,
        budget.background_max_concurrency >= 1,
        budget.interactive_max_tokens <= greater(
            policy.interactive_max_tokens as int,
            MIN_INTERACTIVE_TOKENS as int,
        ),
        budget.background_max_tokens <= greater(
            policy.background_max_tokens as int,
            MIN_BACKGROUND_TOKENS as int,
        ),
        budget.retrieval_candidate_limit <= policy.retrieval_candidate_limit,
        pressure == PressureLevel::Critical ==> budget.retrieval_candidate_limit
            <= CRITICAL_RETRIEVAL_LIMIT,
{
    let (interactive_cap, background_cap, retrieval, interactive_slots, background_slots): (
        usize,
        usize,
        usize,
        usize,
        usize,
    ) = match tier {
        DeviceTier::Potato => (128, 64, 4, 1, 1),
        DeviceTier::Minimal => (256, 128, 12, 1, 1),
        DeviceTier::Low => (512, 192, 24, 1, 1),
        DeviceTier::Medium => (1_024, 320, 48, 2, 1),
        DeviceTier::High => (4_096, 1_024, 96, 3, 2),
        DeviceTier::Ultra => (16_384, 4_096, 256, 5, 4),
    };
    let dynamic: u64 = 512 + (free_ram_mb / 1_024) * 100;
    let ceiling: usize = if dynamic < interactive_cap as u64 {
        dynamic as usize
    } else {
        interactive_cap
    };
    let (percent, critical): (u32, bool) = match pressure {
        PressureLevel::Critical => (50, true),
        PressureLevel::High => (70, false),
        PressureLevel::Warm => (90, false),
        PressureLevel::Normal => (100, false),
    };
    let retrieval_now = if critical {
        min_usize(retrieval, CRITICAL_RETRIEVAL_LIMIT)
    } else {
        retrieval
    };
    ServiceBudget {
        interactive_max_tokens: max_usize(
            min_usize(scale(ceiling, percent), policy.interactive_max_tokens),
            MIN_INTERACTIVE_TOKENS,
        ),
        background_max_tokens: max_usize(
            min_usize(scale(background_cap, percent), policy.background_max_tokens),
            MIN_BACKGROUND_TOKENS,
        ),
        retrieval_candidate_limit: min_usize(retrieval_now, policy.retrieval_candidate_limit),
        interactive_max_concurrency: max_usize(
            min_usize(interactive_slots, policy.interactive_max_concurrency),
            1,
        ),
        background_max_concurrency: max_usize(
            min_usize(background_slots, policy.background_max_concurrency),
            1,
        ),
    }
}

/// Rounding keeps the order of two shares of the same value.
proof fn lemma_scaled_monotone(value: int, low: int, high: int)
    requires
        value >= 0,
        low <= high,
    ensures
        scaled(value, low) <= scaled(value, high),
{
    assert(value * low <= value * high) by (nonlinear_arith)
        requires
            value >= 0,
            low <= high,
    ;
}

/// Monotonic degradation: for a fixed tier, free memory and policy, no figure of
/// the budget grows when the pressure gets worse.
pub proof fn lemma_budget_degrades(
    tier: DeviceTier,
    free_ram_mb: u64,
    policy: RuntimePolicy,
    milder: PressureLevel,
    worse: PressureLevel,
)
    requires
        milder.severity() <= worse.severity(),
    ensures
        budget_of(tier, free_ram_mb as int, worse, policy).interactive_max_tokens <= budget_of(
            tier,
            free_ram_mb as int,
            milder,
            policy,
        ).interactive_max_tokens,
        budget_of(tier, free_ram_mb as int, worse, policy).background_max_tokens <= budget_of(
            tier,
            free_ram_mb as int,
            milder,
            policy,
        ).background_max_tokens,
        budget_of(tier, free_ram_mb as int, worse, policy).retrieval_candidate_limit <= budget_of(
            tier,
            free_ram_mb as int,
            milder,
            policy,
        ).retrieval_candidate_limit,
        budget_of(tier, free_ram_mb as int, worse, policy).interactive_max_concurrency
            == budget_of(tier, free_ram_mb as int, milder, policy).interactive_max_concurrency,
        budget_of(tier, free_ram_mb as int, worse, policy).background_max_concurrency == budget_of(
            tier,
            free_ram_mb as int,
            milder,
            policy,
        ).background_max_concurrency,
{
    let ceiling = lesser(dynamic_max_tokens(free_ram_mb as int), tier_interactive_cap(tier));
    assert(0 <= ceiling <= 16_384);
    lemma_scaled_monotone(ceiling, budget_percent(worse), budget_percent(milder));
    lemma_scaled_monotone(
        tier_background_cap(tier),
        budget_percent(worse),
        budget_percent(milder),
    );
}

/// The policy is a ceiling of the budget: no figure exceeds the policy's, except
/// that tokens and concurrency never fall under their floors of 96, 64 and 1.
pub proof fn lemma_budget_within_policy(
    tier: DeviceTier,
    free_ram_mb: u64,
    pressure: PressureLevel,
    policy: RuntimePolicy,
)
    ensures
        budget_of(tier, free_ram_mb as int, pressure, policy).interactive_max_tokens <= greater(
            policy.interactive_max_tokens as int,
            MIN_INTERACTIVE_TOKENS as int,
        ),
        budget_of(tier, free_ram_mb as int, pressure, policy).background_max_tokens <= greater(
            policy.background_max_tokens as int,
            MIN_BACKGROUND_TOKENS as int,
        ),
        budget_of(tier, free_ram_mb as int, pressure, policy).retrieval_candidate_limit
            <= policy.retrieval_candidate_limit,
        budget_of(tier, free_ram_mb as int, pressure, policy).interactive_max_concurrency
            <= greater(policy.interactive_max_concurrency as int, 1),
        budget_of(tier, free_ram_mb as int, pressure, policy).background_max_concurrency
            <= greater(policy.background_max_concurrency as int, 1),
        policy.in_bounds() ==> budget_of(
            tier,
            free_ram_mb as int,
            pressure,
            policy,
        ).interactive_max_tokens <= policy.interactive_max_tokens,
        budget_of(tier, free_ram_mb as int, pressure, policy).interactive_max_tokens
            <= tier_interactive_cap(tier) || budget_of(
            tier,
            free_ram_mb as int,
            pressure,
            policy,
        ).interactive_max_tokens == MIN_INTERACTIVE_TOKENS,
{
    let ceiling = lesser(dynamic_max_tokens(free_ram_mb as int), tier_interactive_cap(tier));
    assert(0 <= ceiling <= 16_384);
    lemma_scaled_monotone(ceiling, budget_percent(pressure), 100);
    lemma_scaled_monotone(tier_background_cap(tier), budget_percent(pressure), 100);
}

/// The orchestrator of one session: the tier that was detected, the tier that
/// the session runs at, and the capabilities that the session has.
#[derive(Clone, Copy, Debug)]
pub struct RuntimeOrchestratorService {
    pub detected_tier: DeviceTier,
    pub active_tier: DeviceTier,
    pub feature_gates: FeatureGate,
}

impl RuntimeOrchestratorService {
    /// An orchestrator for a session with the given tiers and capabilities.
    pub fn new(
        detected_tier: DeviceTier,
        active_tier: DeviceTier,
        feature_gates: FeatureGate,
    ) -> (service: Self)
        ensures
            service.detected_tier == detected_tier,
            service.active_tier == active_tier,
            service.feature_gates == feature_gates,
    {
        RuntimeOrchestratorService { detected_tier, active_tier, feature_gates }
    }

    /// The budget of the active tier for a reading: the pressure and the free
    /// memory both come from the reading.
    pub open spec fn budget(self, policy: RuntimePolicy, stats: LiveSystemStats) -> ServiceBudget {
        budget_of(self.active_tier, stats.free_mb(), policy.pressure(stats), policy)
    }

    /// Computes the budget of the active tier for a reading.
    pub fn compute_budget(&self, policy: &RuntimePolicy, stats: &LiveSystemStats) -> (budget:
        ServiceBudget)
        ensures
            budget == self.budget(*policy, *stats),
            budget.interactive_max_tokens >= MIN_INTERACTIVE_TOKENS,
    {
        let pressure = classify_pressure(stats, policy);
        budget_for(self.active_tier, stats.free_memory_mb(), pressure, policy)
    }

    /// The plan of a request of a given category: the task type and lane that the
    /// caller names, else those of the category; the token hint of the category
    /// within the budget and the pressure; and whether background work steps
    /// aside, which takes the caller's leave, the policy's and high pressure.
    pub open spec fn plan(
        self,
        category: QueryCategory,
        context_window_hint: usize,
        explicit_task_type: Option<Seq<char>>,
        explicit_qos: Option<Seq<char>>,
        allow_background_defer: bool,
        policy: RuntimePolicy,
        stats: LiveSystemStats,
    ) -> OrchestratedRequest {
        let pressure = policy.pressure(stats);
        OrchestratedRequest {
            task_type: match explicit_task_type {
                Some(name) => TaskType::named_or_chat(lowercase(trimmed(name))),
                None => category_task_type(category),
            },
            qos: match explicit_qos {
                Some(name) => qos_named_or_balanced(lowercase(trimmed(name))),
                None => category_qos(category),
            },
            query_category: category,
            max_tokens_hint: planned_tokens(category, pressure, self.budget(policy, stats))
                as usize,
            context_window_hint,
            pressure_level: pressure,
            defer_background: allow_background_defer && policy.defer_background_under_pressure
                && pressure.severity() >= 2,
        }
    }

    /// Plans a request that was classified.
    pub fn plan_request(
        &self,
        category: QueryCategory,
        context_window_hint: usize,
        explicit_task_type: Option<&str>,
        explicit_qos: Option<&str>,
        allow_background_defer: bool,
        policy: &RuntimePolicy,
        stats: &LiveSystemStats,
    ) -> (request: OrchestratedRequest)
        ensures
            request == self.plan(
                category,
                context_window_hint,
                text_of(explicit_task_type),
                text_of(explicit_qos),
                allow_background_defer,
                *policy,
                *stats,
            ),
            MIN_INTERACTIVE_TOKENS <= request.max_tokens_hint,
            request.max_tokens_hint <= self.budget(*policy, *stats).interactive_max_tokens,
    {
        let pressure = classify_pressure(stats, policy);
        let task_type = match explicit_task_type {
            Some(name) => sanitize_task_type(name),
            None => infer_task_type_from_category(&category),
        };
        let qos = match explicit_qos {
            Some(name) => sanitize_qos(name),
            None => infer_qos_from_category(&category),
        };
        let budget = self.compute_budget(policy, stats);
        let wanted = min_usize(category.max_tokens_hint(), budget.interactive_max_tokens);
        let percent: u32 = match pressure {
            PressureLevel::Critical => 45,
            PressureLevel::High => 65,
            PressureLevel::Warm => 85,
            PressureLevel::Normal => 100,
        };
        let eased = scale(wanted, percent);
        let max_tokens_hint = if eased < MIN_INTERACTIVE_TOKENS {
            MIN_INTERACTIVE_TOKENS
        } else if eased > budget.interactive_max_tokens {
            budget.interactive_max_tokens
        } else {
            eased
        };
        OrchestratedRequest {
            task_type,
            qos,
            query_category: category,
            max_tokens_hint,
            context_window_hint,
            pressure_level: pressure,
            defer_background: allow_background_defer && policy.defer_background_under_pressure
                && pressure.is_elevated(),
        }
    }
}

impl RuntimeOrchestratorService {
    /// Switches the watchdog and the preloader on or off as the session's
    /// capabilities say, before their loops start.
    pub fn start_background_loops(
        &self,
        adaptive_memory: &mut AdaptiveMemoryManager,
        predictive_preloader: &mut PredictivePreloader,
    )
        ensures
            *final(adaptive_memory) == (AdaptiveMemoryManager {
                enabled: self.feature_gates.adaptive_memory_enabled,
                ..*old(adaptive_memory)
            }),
            final(predictive_preloader)@ == (PreloaderView {
                enabled: self.feature_gates.predictive_preload_enabled,
                ..old(predictive_preloader)@
            }),
    {
        adaptive_memory.set_enabled(self.feature_gates.adaptive_memory_enabled);
        predictive_preloader.set_enabled(self.feature_gates.predictive_preload_enabled);
    }

    /// Takes in a request before it is planned: classifies it, and lets the
    /// learner and the preloader take note of it. The category depends on the
    /// text alone.
    pub fn observe_query(
        &self,
        query_classifier: &mut SmartQueryClassifier,
        usage_learner: &mut UsageLearner,
        predictive_preloader: &mut PredictivePreloader,
        content: &str,
        now_ms: u64,
        hour: u8,
    ) -> (category: QueryCategory)
        requires
            old(query_classifier).wf(),
            old(usage_learner).wf(),
            old(predictive_preloader).wf(),
            hour < 24,
        ensures
            category == classification(content@),
            final(query_classifier).wf(),
            final(usage_learner).wf(),
            final(predictive_preloader).wf(),
            final(query_classifier).history() == appended(
                old(query_classifier).history(),
                record_of(category, now_ms),
            ),
            final(usage_learner)@ == old(usage_learner)@.with_query(
                utf8_len(content@) as nat,
                category,
            ).with_time_usage(hour, now_ms).with_session(hour),
            final(predictive_preloader)@ == old(predictive_preloader)@.with_query(
                complexity_of(content@, lowercase(content@)),
                now_ms,
            ),
    {
        let category = query_classifier.classify(content, now_ms);
        usage_learner.record_query(content, category);
        usage_learner.record_time_usage(hour, now_ms);
        usage_learner.record_session_start(hour);
        predictive_preloader.record_query(content, now_ms);
        category
    }

    /// Lets the preloader decide on a preload, where the session has the
    /// capability at all.
    pub fn maybe_preload_model(
        &self,
        predictive_preloader: &mut PredictivePreloader,
        stats: &LiveSystemStats,
        now_ms: u64,
    ) -> (fire: bool)
        requires
            old(predictive_preloader).wf(),
        ensures
            final(predictive_preloader).wf(),
            fire == (self.feature_gates.predictive_preload_enabled && old(
                predictive_preloader,
            )@.wants_preload(*stats, now_ms)),
            final(predictive_preloader)@ == (PreloaderView {
                scheduled: old(predictive_preloader)@.scheduled || fire,
                ..old(predictive_preloader)@
            }),
    {
        if !self.feature_gates.predictive_preload_enabled {
            return false;
        }
        predictive_preloader.maybe_preload(stats, now_ms)
    }

    /// The session's tiers, the pressure of a reading and the budget it leaves.
    pub fn get_runtime_profile(&self, policy: &RuntimePolicy, stats: &LiveSystemStats) -> (snapshot:
        RuntimeProfileSnapshot)
        ensures
            snapshot == (RuntimeProfileSnapshot {
                detected_tier: self.detected_tier,
                active_tier: self.active_tier,
                low_safe_startup: self.active_tier == DeviceTier::Low || self.active_tier
                    == DeviceTier::Minimal,
                pressure_level: policy.pressure(*stats),
                feature_gates: self.feature_gates,
                service_budget: self.budget(*policy, *stats),
                policy: *policy,
            }),
    {
        RuntimeProfileSnapshot {
            detected_tier: self.detected_tier,
            active_tier: self.active_tier,
            low_safe_startup: match self.active_tier {
                DeviceTier::Low | DeviceTier::Minimal => true,
                _ => false,
            },
            pressure_level: classify_pressure(stats, policy),
            feature_gates: self.feature_gates,
            service_budget: self.compute_budget(policy, stats),
            policy: *policy,
        }
    }

    /// Which components are up.
    pub fn get_service_health(
        &self,
        adaptive_memory: &AdaptiveMemoryManager,
        predictive_preloader: &PredictivePreloader,
    ) -> (snapshot: ServiceHealthSnapshot)
        ensures
            snapshot == (ServiceHealthSnapshot {
                query_classifier_ready: true,
                usage_learner_ready: true,
                adaptive_memory_enabled: adaptive_memory.enabled,
                predictive_preload_enabled: predictive_preloader@.enabled,
                recent_query_samples: predictive_preloader@.samples.len() as usize,
                memory_manager: adaptive_memory.stats(),
            }),
    {
        ServiceHealthSnapshot {
            query_classifier_ready: true,
            usage_learner_ready: true,
            adaptive_memory_enabled: adaptive_memory.is_enabled(),
            predictive_preload_enabled: predictive_preloader.is_enabled(),
            recent_query_samples: predictive_preloader.sample_count(),
            memory_manager: adaptive_memory.get_stats(),
        }
    }

    /// What the learner, the watchdog and the classifier have gathered, as of
    /// `now_ms` at the given hour of the day.
    pub fn get_optimization_stats(
        &self,
        usage_learner: &UsageLearner,
        adaptive_memory: &AdaptiveMemoryManager,
        query_classifier: &SmartQueryClassifier,
        now_ms: u64,
        hour: u8,
    ) -> (snapshot: OptimizationStatsSnapshot)
        requires
            usage_learner.wf(),
            query_classifier.wf(),
        ensures
            snapshot.learning.total_queries == usage_learner@.queries,
            snapshot.learning.total_sessions == usage_learner@.sessions,
            snapshot.learning.avg_query_length_milli == mean_milli(
                usage_learner@.query_len_sum,
                usage_learner@.queries,
            ),
            is_peak_hour(usage_learner@.hourly, snapshot.learning.peak_hour as int),
            snapshot.memory_manager == adaptive_memory.stats(),
            match snapshot.learning.top_category {
                Some(category) => usage_learner@.categories.led_by(category),
                None => usage_learner@.categories.all_zero(),
            },
            texts(snapshot.suggested_optimizations@) == suggestions_for(usage_learner@, hour),
            snapshot.recommended_context_window == context_window_for(
                usage_learner@.query_len_sum,
                usage_learner@.queries,
            ),
            snapshot.preferred_model == usage_learner@.preferred,
            snapshot.fallback_model == usage_learner@.fallback,
            snapshot.classification_distribution.counts(
                query_classifier.history(),
                now_ms,
                DISTRIBUTION_WINDOW_MS,
                query_classifier.history().len() as int,
            ),
    {
        let learning = usage_learner.get_learning_stats();
        let memory_manager = adaptive_memory.get_stats();
        let suggested_optimizations = usage_learner.suggest_optimizations(hour);
        let recommended_context_window = usage_learner.get_optimal_context_window();
        let (preferred_model, fallback_model) = usage_learner.get_model_recommendation();
        let classification_distribution = query_classifier.distribution_snapshot(now_ms);
        OptimizationStatsSnapshot {
            learning,
            memory_manager,
            suggested_optimizations,
            recommended_context_window,
            preferred_model,
            fallback_model,
            classification_distribution,
        }
    }
}

} // verus!
