//! The runtime governor: the tunable policy, its partial updates, the pressure
//! classification and the tuning of generation parameters.
use vstd::arithmetic::mul::lemma_mul_upper_bound;
use vstd::prelude::*;
use crate::pressure::{pressure_from, pressure_of, LiveSystemStats, PressureLevel};

verus! {

/// Fewest tokens that a tuned request is cut down to by its budget.
pub const MIN_TUNED_TOKENS: usize = 96;

/// Sampling temperature, in thousandths, that the fast lane is pinned to.
pub const FAST_TEMPERATURE_MILLI: u32 = 100;

/// Requested quality-of-service lane.
#[derive(Clone, Copy, Debug, PartialEq, Eq, Hash, Structural)]
pub enum Qos {
    Fast,
    Balanced,
    MaxQuality,
}

impl Qos {
    /// The lane's name in snake case.
    pub open spec fn name(self) -> Seq<char> {
        match self {
            Qos::Fast => "fast"@,
            Qos::Balanced => "balanced"@,
            Qos::MaxQuality => "max_quality"@,
        }
    }

    /// Share of the lane cap that the lane grants, in percent.
    pub open spec fn percent(self) -> int {
        match self {
            Qos::Fast => 72,
            Qos::Balanced => 100,
            Qos::MaxQuality => 120,
        }
    }

    /// The lane's name in snake case.
    pub fn as_str(&self) -> (s: &'static str)
        ensures
            s@ == self.name(),
    {
        match self {
            Qos::Fast => "fast",
            Qos::Balanced => "balanced",
            Qos::MaxQuality => "max_quality",
        }
    }

    /// Share of the lane cap that the lane grants, in percent.
    pub fn factor_percent(&self) -> (p: u32)
        ensures
            p == self.percent(),
    {
        match self {
            Qos::Fast => 72,
            Qos::Balanced => 100,
            Qos::MaxQuality => 120,
        }
    }
}

/// Share of the lane cap that is left under a pressure level, in percent.
pub open spec fn pressure_percent(level: PressureLevel) -> int {
    match level {
        PressureLevel::Critical => 40,
        PressureLevel::High => 60,
        PressureLevel::Warm => 85,
        PressureLevel::Normal => 100,
    }
}

/// Share of the lane cap that is left under a pressure level, in percent.
pub fn pressure_factor_percent(level: PressureLevel) -> (p: u32)
    ensures
        p == pressure_percent(level),
{
    match level {
        PressureLevel::Critical => 40,
        PressureLevel::High => 60,
        PressureLevel::Warm => 85,
        PressureLevel::Normal => 100,
    }
}

/// Tunable thresholds and caps of the governor.
#[derive(Clone, Copy, Debug, PartialEq, Eq, Structural)]
pub struct RuntimePolicy {
    /// Processor load, in basis points, from which pressure is high.
    pub pressure_cpu_bp: u32,
    /// Memory use, in basis points, from which pressure is high.
    pub pressure_memory_bp: u32,
    pub interactive_max_tokens: usize,
    pub background_max_tokens: usize,
    pub interactive_max_concurrency: usize,
    pub background_max_concurrency: usize,
    pub retrieval_candidate_limit: usize,
    pub defer_background_under_pressure: bool,
}

/// A partial update of a policy: only the fields that are present change.
#[derive(Clone, Copy, Debug)]
pub struct RuntimePolicyPatch {
    pub pressure_cpu_bp: Option<u32>,
    pub pressure_memory_bp: Option<u32>,
    pub interactive_max_tokens: Option<usize>,
    pub background_max_tokens: Option<usize>,
    pub interactive_max_concurrency: Option<usize>,
    pub background_max_concurrency: Option<usize>,
    pub retrieval_candidate_limit: Option<usize>,
    pub defer_background_under_pressure: Option<bool>,
}

/// `value` brought into `lo ..= hi`.
pub open spec fn clamped(value: int, lo: int, hi: int) -> int {
    if value < lo {
        lo
    } else if value > hi {
        hi
    } else {
        value
    }
}

/// The compiled defaults.
pub open spec fn default_policy() -> RuntimePolicy {
    RuntimePolicy {
        pressure_cpu_bp: 8_200,
        pressure_memory_bp: 8_500,
        interactive_max_tokens: 640,
        background_max_tokens: 256,
        interactive_max_concurrency: 1,
        background_max_concurrency: 1,
        retrieval_candidate_limit: 36,
        defer_background_under_pressure: true,
    }
}

impl RuntimePolicy {
    /// Every field lies in the range that a patch clamps it to.
    pub open spec fn in_bounds(self) -> bool {
        &&& 5_000 <= self.pressure_cpu_bp <= 9_900
        &&& 5_000 <= self.pressure_memory_bp <= 9_900
        &&& 96 <= self.interactive_max_tokens <= 4_096
        &&& 64 <= self.background_max_tokens <= 2_048
        &&& 1 <= self.interactive_max_concurrency <= 4
        &&& 1 <= self.background_max_concurrency <= 4
        &&& 8 <= self.retrieval_candidate_limit <= 128
    }

    /// The policy after a patch: each field that the patch names takes the
    /// patch's value, clamped to the field's range; the others stay.
    pub open spec fn patched(self, patch: RuntimePolicyPatch) -> RuntimePolicy {
        RuntimePolicy {
            pressure_cpu_bp: match patch.pressure_cpu_bp {
                Some(v) => clamped(v as int, 5_000, 9_900) as u32,
                None => self.pressure_cpu_bp,
            },
            pressure_memory_bp: match patch.pressure_memory_bp {
                Some(v) => clamped(v as int, 5_000, 9_900) as u32,
                None => self.pressure_memory_bp,
            },
            interactive_max_tokens: match patch.interactive_max_tokens {
                Some(v) => clamped(v as int, 96, 4_096) as usize,
                None => self.interactive_max_tokens,
            },
            background_max_tokens: match patch.background_max_tokens {
                Some(v) => clamped(v as int, 64, 2_048) as usize,
                None => self.background_max_tokens,
            },
            interactive_max_concurrency: match patch.interactive_max_concurrency {
                Some(v) => clamped(v as int, 1, 4) as usize,
                None => self.interactive_max_concurrency,
            },
            background_max_concurrency: match patch.background_max_concurrency {
                Some(v) => clamped(v as int, 1, 4) as usize,
                None => self.background_max_concurrency,
            },
            retrieval_candidate_limit: match patch.retrieval_candidate_limit {
                Some(v) => clamped(v as int, 8, 128) as usize,
                None => self.retrieval_candidate_limit,
            },
            defer_background_under_pressure: match patch.defer_background_under_pressure {
                Some(v) => v,
                None => self.defer_background_under_pressure,
            },
        }
    }

    /// The token cap of a lane.
    pub open spec fn lane_cap(self, is_background: bool) -> usize {
        if is_background {
            self.background_max_tokens
        } else {
            self.interactive_max_tokens
        }
    }

    /// The pressure that a reading stands for under this policy.
    pub open spec fn pressure(self, stats: LiveSystemStats) -> PressureLevel {
        pressure_of(stats, self.pressure_cpu_bp, self.pressure_memory_bp)
    }
}

impl Default for RuntimePolicy {
    fn default() -> (policy: Self)
        ensures
            policy == default_policy(),
            policy.in_bounds(),
    {
        RuntimePolicy {
            pressure_cpu_bp: 8_200,
            pressure_memory_bp: 8_500,
            interactive_max_tokens: 640,
            background_max_tokens: 256,
            interactive_max_concurrency: 1,
            background_max_concurrency: 1,
            retrieval_candidate_limit: 36,
            defer_background_under_pressure: true,
        }
    }
}

impl RuntimePolicyPatch {
    /// A patch that changes nothing.
    pub fn empty() -> (patch: Self)
        ensures
            patch.pressure_cpu_bp is None,
            patch.pressure_memory_bp is None,
            patch.interactive_max_tokens is None,
            patch.background_max_tokens is None,
            patch.interactive_max_concurrency is None,
            patch.background_max_concurrency is None,
            patch.retrieval_candidate_limit is None,
            patch.defer_background_under_pressure is None,
    {
        RuntimePolicyPatch {
            pressure_cpu_bp: None,
            pressure_memory_bp: None,
            interactive_max_tokens: None,
            background_max_tokens: None,
            interactive_max_concurrency: None,
            background_max_concurrency: None,
            retrieval_candidate_limit: None,
            defer_background_under_pressure: None,
        }
    }
}

fn clamp_u32(value: u32, lo: u32, hi: u32) -> (r: u32)
    requires
        lo <= hi,
    ensures
        r == clamped(value as int, lo as int, hi as int),
{
    if value < lo {
        lo
    } else if value > hi {
        hi
    } else {
        value
    }
}

fn clamp_usize(value: usize, lo: usize, hi: usize) -> (r: usize)
    requires
        lo <= hi,
    ensures
        r == clamped(value as int, lo as int, hi as int),
{
    if value < lo {
        lo
    } else if value > hi {
        hi
    } else {
        value
    }
}

/// Applies a partial update in place, clamping each value it names.
pub fn apply_patch(policy: &mut RuntimePolicy, patch: RuntimePolicyPatch)
    ensures
        *final(policy) == old(policy).patched(patch),
        old(policy).in_bounds() ==> final(policy).in_bounds(),
{
    if let Some(value) = patch.pressure_cpu_bp {
        policy.pressure_cpu_bp = clamp_u32(value, 5_000, 9_900);
    }
    if let Some(value) = patch.pressure_memory_bp {
        policy.pressure_memory_bp = clamp_u32(value, 5_000, 9_900);
    }
    if let Some(value) = patch.interactive_max_tokens {
        policy.interactive_max_tokens = clamp_usize(value, 96, 4_096);
    }
    if let Some(value) = patch.background_max_tokens {
        policy.background_max_tokens = clamp_usize(value, 64, 2_048);
    }
    if let Some(value) = patch.interactive_max_concurrency {
        policy.interactive_max_concurrency = clamp_usize(value, 1, 4);
    }
    if let Some(value) = patch.background_max_concurrency {
        policy.background_max_concurrency = clamp_usize(value, 1, 4);
    }
    if let Some(value) = patch.retrieval_candidate_limit {
        policy.retrieval_candidate_limit = clamp_usize(value, 8, 128);
    }
    if let Some(value) = patch.defer_background_under_pressure {
        policy.defer_background_under_pressure = value;
    }
}

/// What the store holds for one scope of the policy.
#[derive(Clone, Copy, Debug, PartialEq, Eq, Structural)]
pub enum StoredPolicy {
    /// The scope has no row.
    Missing,
    /// The scope has a row that does not hold a policy.
    Malformed,
    /// The scope has a row with this policy.
    Valid(RuntimePolicy),
}

/// The policy in force: that of the user's row where there is one, else that of
/// the global row; the compiled defaults where the row that counts holds no
/// policy, and where there is no row at all.
pub open spec fn resolved_policy(user: StoredPolicy, global: StoredPolicy) -> RuntimePolicy {
    match user {
        StoredPolicy::Valid(policy) => policy,
        StoredPolicy::Malformed => default_policy(),
        StoredPolicy::Missing => match global {
            StoredPolicy::Valid(policy) => policy,
            _ => default_policy(),
        },
    }
}

/// Resolves the policy in force from what the store holds for the user and for
/// everybody.
pub fn resolve_policy(user: StoredPolicy, global: StoredPolicy) -> (policy: RuntimePolicy)
    ensures
        policy == resolved_policy(user, global),
{
    match user {
        StoredPolicy::Valid(policy) => policy,
        StoredPolicy::Malformed => RuntimePolicy::default(),
        StoredPolicy::Missing => match global {
            StoredPolicy::Valid(policy) => policy,
            _ => RuntimePolicy::default(),
        },
    }
}

/// Classifies a reading under a policy. Total: every reading has exactly one level.
pub fn classify_pressure(stats: &LiveSystemStats, policy: &RuntimePolicy) -> (level: PressureLevel)
    ensures
        level == policy.pressure(*stats),
{
    pressure_from(stats, policy.pressure_cpu_bp, policy.pressure_memory_bp)
}

/// Parameters of one generation call. Temperature and nucleus mass are held in
/// thousandths.
#[derive(Clone, Copy, Debug, PartialEq, Eq, Structural)]
pub struct GenerationOptions {
    pub temperature_milli: u32,
    pub top_p_milli: u32,
    pub max_tokens: usize,
}

impl Default for GenerationOptions {
    fn default() -> (options: Self)
        ensures
            options.temperature_milli == 200,
            options.top_p_milli == 950,
            options.max_tokens == 512,
    {
        GenerationOptions { temperature_milli: 200, top_p_milli: 950, max_tokens: 512 }
    }
}

/// `lane_cap x qos factor x pressure factor`, rounded to the nearest token (a half
/// rounds up).
pub open spec fn generation_budget(lane_cap: int, qos: Qos, pressure: PressureLevel) -> int {
    (lane_cap * (qos.percent() * pressure_percent(pressure)) + 5_000) / 10_000
}

/// The token limit of a tuned request: the requested limit, cut to the lane cap
/// and to the budget, where the budget counts as at least 96.
pub open spec fn tuned_max_tokens(
    requested: int,
    lane_cap: int,
    qos: Qos,
    pressure: PressureLevel,
) -> int {
    let budget = generation_budget(lane_cap, qos, pressure);
    let floor = if budget > MIN_TUNED_TOKENS {
        budget
    } else {
        MIN_TUNED_TOKENS as int
    };
    let capped = if requested < lane_cap {
        requested
    } else {
        lane_cap
    };
    if capped < floor {
        capped
    } else {
        floor
    }
}

/// The policy is a hard ceiling: whatever patch a policy has taken and whatever is
/// asked for, the tuned token limit of a lane does not exceed the lane's cap in
/// the patched policy, nor what was asked for; and where the patch names the cap,
/// not the upper end of the cap's range either.
pub proof fn lemma_policy_is_hard_ceiling(
    policy: RuntimePolicy,
    patch: RuntimePolicyPatch,
    requested: usize,
    qos: Qos,
    pressure: PressureLevel,
    is_background: bool,
)
    ensures
        tuned_max_tokens(
            requested as int,
            policy.patched(patch).lane_cap(is_background) as int,
            qos,
            pressure,
        ) <= policy.patched(patch).lane_cap(is_background),
        tuned_max_tokens(
            requested as int,
            policy.patched(patch).lane_cap(is_background) as int,
            qos,
            pressure,
        ) <= requested,
        patch.interactive_max_tokens is Some ==> tuned_max_tokens(
            requested as int,
            policy.patched(patch).lane_cap(false) as int,
            qos,
            pressure,
        ) <= 4_096,
        patch.background_max_tokens is Some ==> tuned_max_tokens(
            requested as int,
            policy.patched(patch).lane_cap(true) as int,
            qos,
            pressure,
        ) <= 2_048,
{
}

/// A patch leaves a policy within its bounds, and brings every field that it
/// names into them.
pub proof fn lemma_patch_keeps_bounds(policy: RuntimePolicy, patch: RuntimePolicyPatch)
    ensures
        policy.in_bounds() ==> policy.patched(patch).in_bounds(),
        patch.pressure_cpu_bp is Some ==> 5_000 <= policy.patched(patch).pressure_cpu_bp <= 9_900,
        patch.pressure_memory_bp is Some ==> 5_000 <= policy.patched(patch).pressure_memory_bp
            <= 9_900,
        patch.interactive_max_tokens is Some ==> 96 <= policy.patched(
            patch,
        ).interactive_max_tokens <= 4_096,
        patch.background_max_tokens is Some ==> 64 <= policy.patched(patch).background_max_tokens
            <= 2_048,
        patch.interactive_max_concurrency is Some ==> 1 <= policy.patched(
            patch,
        ).interactive_max_concurrency <= 4,
        patch.background_max_concurrency is Some ==> 1 <= policy.patched(
            patch,
        ).background_max_concurrency <= 4,
        patch.retrieval_candidate_limit is Some ==> 8 <= policy.patched(
            patch,
        ).retrieval_candidate_limit <= 128,
{
}

/// Pressure is total and critical dominates: every reading has exactly one
/// level under every policy; it is critical exactly from 95 % processor load or
/// 93 % memory use, whatever the policy's thresholds; and each lower level holds
/// exactly where its own condition does and no higher one.
pub proof fn lemma_pressure_total(stats: LiveSystemStats, policy: RuntimePolicy)
    ensures
        policy.pressure(stats) == PressureLevel::Critical <==> (stats.cpu_usage_bp >= 9_500
            || stats.memory_at_least(9_300)),
        policy.pressure(stats) == PressureLevel::High <==> (policy.pressure(stats)
            != PressureLevel::Critical && (stats.cpu_usage_bp >= policy.pressure_cpu_bp
            || stats.memory_at_least(policy.pressure_memory_bp as int))),
        policy.pressure(stats) == PressureLevel::Warm <==> (policy.pressure(stats)
            != PressureLevel::Critical && policy.pressure(stats) != PressureLevel::High && (
        stats.cpu_usage_bp >= 7_000 || stats.memory_at_least(7_500))),
        policy.pressure(stats) == PressureLevel::Normal <==> (stats.cpu_usage_bp < 9_500
            && !stats.memory_at_least(9_300) && stats.cpu_usage_bp < policy.pressure_cpu_bp
            && !stats.memory_at_least(policy.pressure_memory_bp as int) && stats.cpu_usage_bp
            < 7_000 && !stats.memory_at_least(7_500)),
{
}

/// Tunes the parameters of a request to its lane, the requested quality and the
/// current pressure. The fast lane also pins the temperature.
pub fn tune_generation(
    base: GenerationOptions,
    policy: &RuntimePolicy,
    qos: Qos,
    pressure: PressureLevel,
    is_background: bool,
) -> (tuned: GenerationOptions)
    ensures
        tuned.max_tokens == tuned_max_tokens(
            base.max_tokens as int,
            policy.lane_cap(is_background) as int,
            qos,
            pressure,
        ),
        tuned.max_tokens <= policy.lane_cap(is_background),
        tuned.max_tokens <= base.max_tokens,
        tuned.temperature_milli == if qos == Qos::Fast {
            FAST_TEMPERATURE_MILLI
        } else {
            base.temperature_milli
        },
        tuned.top_p_milli == base.top_p_milli,
{
    let lane_cap: usize = if is_background {
        policy.background_max_tokens
    } else {
        policy.interactive_max_tokens
    };
    let factor: u32 = qos.factor_percent() * pressure_factor_percent(pressure);
    proof {
        lemma_mul_upper_bound(lane_cap as int, usize::MAX as int, factor as int, 12_000);
    }
    let budget: u128 = ((lane_cap as u128) * (factor as u128) + 5_000) / 10_000;
    let floor: u128 = if budget > 96 {
        budget
    } else {
        96
    };
    let capped: usize = if base.max_tokens < lane_cap {
        base.max_tokens
    } else {
        lane_cap
    };
    let max_tokens: usize = if (capped as u128) < floor {
        capped
    } else {
        floor as usize
    };
    GenerationOptions {
        temperature_milli: match qos {
            Qos::Fast => FAST_TEMPERATURE_MILLI,
            _ => base.temperature_milli,
        },
        top_p_milli: base.top_p_milli,
        max_tokens,
    }
}

} // verus!
