//! Hardware profile, device tiers, per-tier configuration, the load decision and
//! the debounced telemetry cache.
use vstd::arithmetic::div_mod::lemma_div_is_ordered;
use vstd::prelude::*;
use crate::pressure::LiveSystemStats;
use crate::text::same_text;

verus! {

/// User-selected throttle.
#[derive(Clone, Copy, Debug, PartialEq, Eq, Structural)]
pub enum PerformanceMode {
    Max,
    Balanced,
    Multitasking,
}

/// Coarse capability class of the host, strongest first.
#[derive(Clone, Copy, Debug, PartialEq, Eq, Hash, Structural)]
pub enum DeviceTier {
    Ultra,
    High,
    Medium,
    Low,
    Minimal,
    Potato,
}

/// What to do about loading a model right now.
#[derive(Clone, Copy, Debug, PartialEq, Eq, Structural)]
pub enum LoadDecision {
    LoadNow,
    BackgroundOnly,
    Defer,
    Skip,
}

impl DeviceTier {
    /// The tier's name in lower case.
    pub open spec fn name(self) -> Seq<char> {
        match self {
            DeviceTier::Ultra => "ultra"@,
            DeviceTier::High => "high"@,
            DeviceTier::Medium => "medium"@,
            DeviceTier::Low => "low"@,
            DeviceTier::Minimal => "minimal"@,
            DeviceTier::Potato => "potato"@,
        }
    }

    /// Position in the order of the tiers: 0 for `Ultra`, 5 for `Potato`.
    pub open spec fn position(self) -> int {
        match self {
            DeviceTier::Ultra => 0,
            DeviceTier::High => 1,
            DeviceTier::Medium => 2,
            DeviceTier::Low => 3,
            DeviceTier::Minimal => 4,
            DeviceTier::Potato => 5,
        }
    }

    /// The tier that the multitasking mode runs a host at.
    pub open spec fn throttled(self) -> DeviceTier {
        match self {
            DeviceTier::Ultra | DeviceTier::High => DeviceTier::Low,
            DeviceTier::Medium | DeviceTier::Low => DeviceTier::Minimal,
            DeviceTier::Minimal | DeviceTier::Potato => DeviceTier::Potato,
        }
    }

    /// The tier that a session starts at, whatever was detected: `Low` for every
    /// host that reaches it, `Minimal` below.
    pub open spec fn startup(self) -> DeviceTier {
        match self {
            DeviceTier::Ultra | DeviceTier::High | DeviceTier::Medium | DeviceTier::Low =>
                DeviceTier::Low,
            DeviceTier::Minimal | DeviceTier::Potato => DeviceTier::Minimal,
        }
    }

    /// The tier's name in lower case.
    pub fn as_str(&self) -> (s: &'static str)
        ensures
            s@ == self.name(),
    {
        match self {
            DeviceTier::Ultra => "ultra",
            DeviceTier::High => "high",
            DeviceTier::Medium => "medium",
            DeviceTier::Low => "low",
            DeviceTier::Minimal => "minimal",
            DeviceTier::Potato => "potato",
        }
    }

    /// Position in the order of the tiers: 0 for `Ultra`, 5 for `Potato`.
    pub fn rank(&self) -> (r: u8)
        ensures
            r == self.position(),
    {
        match self {
            DeviceTier::Ultra => 0,
            DeviceTier::High => 1,
            DeviceTier::Medium => 2,
            DeviceTier::Low => 3,
            DeviceTier::Minimal => 4,
            DeviceTier::Potato => 5,
        }
    }

    /// The tier that a session starts at.
    pub fn startup_tier(&self) -> (tier: DeviceTier)
        ensures
            tier == self.startup(),
    {
        match self {
            DeviceTier::Ultra | DeviceTier::High | DeviceTier::Medium | DeviceTier::Low =>
                DeviceTier::Low,
            DeviceTier::Minimal | DeviceTier::Potato => DeviceTier::Minimal,
        }
    }
}

impl PerformanceMode {
    /// The mode that a stored setting stands for: `max` and `multitasking` by
    /// name, `Balanced` for anything else and for no setting.
    pub open spec fn of_setting(value: Option<Seq<char>>) -> PerformanceMode {
        match value {
            Some(v) => if v == "max"@ {
                PerformanceMode::Max
            } else if v == "multitasking"@ {
                PerformanceMode::Multitasking
            } else {
                PerformanceMode::Balanced
            },
            None => PerformanceMode::Balanced,
        }
    }

    /// Reads the mode off a stored setting.
    pub fn from_setting(value: Option<&str>) -> (mode: PerformanceMode)
        ensures
            mode == PerformanceMode::of_setting(
                match value {
                    Some(v) => Some(v@),
                    None => None,
                },
            ),
    {
        match value {
            Some(v) => {
                if same_text(v, "max") {
                    PerformanceMode::Max
                } else if same_text(v, "multitasking") {
                    PerformanceMode::Multitasking
                } else {
                    PerformanceMode::Balanced
                }
            },
            None => PerformanceMode::Balanced,
        }
    }
}

/// One hardware snapshot. Sizes are in megabytes unless the name says otherwise;
/// the capability flags are 0 or 1.
#[derive(Clone, Debug)]
pub struct SystemProfile {
    pub id: String,
    pub cpu_brand: String,
    pub cpu_cores: i64,
    pub cpu_threads: i64,
    pub cpu_frequency_mhz: Option<i64>,
    pub total_ram_mb: i64,
    pub available_ram_mb: Option<i64>,
    pub gpu_name: Option<String>,
    pub gpu_vendor: Option<String>,
    pub gpu_vram_mb: Option<i64>,
    pub gpu_backend: Option<String>,
    pub storage_total_gb: Option<i64>,
    pub storage_available_gb: Option<i64>,
    pub storage_type: Option<String>,
    pub os_name: String,
    pub os_version: String,
    pub os_arch: String,
    pub platform: String,
    /// Benchmark throughput in thousandths of a token per second.
    pub benchmark_tokens_per_sec_milli: Option<u64>,
    /// Benchmark embedding latency in microseconds.
    pub benchmark_embed_us: Option<u64>,
    /// Capability score in millionths: 1 000 000 is the best score.
    pub capability_score_ppm: Option<u32>,
    pub supports_cuda: i64,
    pub supports_metal: i64,
    pub supports_vulkan: i64,
    pub supports_avx2: i64,
    pub supports_avx512: i64,
    pub last_scan_at: String,
    pub created_at: String,
    pub updated_at: String,
}

/// `x / 2`, rounded toward zero.
pub open spec fn half_toward_zero(x: int) -> int {
    if x >= 0 {
        x / 2
    } else {
        -((-x) / 2)
    }
}

/// The smaller of two integers.
pub open spec fn least(a: int, b: int) -> int {
    if a <= b {
        a
    } else {
        b
    }
}

/// `value` brought into `0 ..= hi`.
pub open spec fn within(value: int, hi: int) -> int {
    if value < 0 {
        0
    } else if value > hi {
        hi
    } else {
        value
    }
}

/// The composite score counts in units of this fraction of a point.
pub const COMPOSITE_UNIT: u64 = 2_048_000;

/// The capability score before scaling: this many units make the best score.
pub const CAPABILITY_UNIT: u64 = 3_686_400_000;

impl SystemProfile {
    /// The backend shares memory with the host: Metal, or CUDA that reports no
    /// memory of its own.
    pub open spec fn has_unified_memory(self) -> bool {
        match self.gpu_backend {
            Some(backend) => backend@ == "metal"@ || (backend@ == "cuda"@ && self.reported_vram()
                == 0),
            None => false,
        }
    }

    /// Video memory as the profile reports it, zero where it reports none.
    pub open spec fn reported_vram(self) -> int {
        match self.gpu_vram_mb {
            Some(v) => v as int,
            None => 0,
        }
    }

    /// Video memory that models can use: half of the system memory where the
    /// backend shares it, else what the profile reports.
    pub open spec fn usable_vram_mb(self) -> int {
        if self.has_unified_memory() {
            half_toward_zero(self.total_ram_mb as int)
        } else {
            self.reported_vram()
        }
    }

    /// Processor bonus in percent: 120 with AVX-512, 105 with AVX2, else 100.
    pub open spec fn vector_bonus(self) -> int {
        if self.supports_avx512 > 0 {
            120
        } else if self.supports_avx2 > 0 {
            105
        } else {
            100
        }
    }

    /// The weighted composite in units of `1 / 2 048 000` of a point: 35 points
    /// for 64 000 MB of memory, 25 for 16 threads with the vector bonus, 40 for
    /// 16 384 MB of usable video memory, each share capped at its full weight.
    pub open spec fn composite_units(self) -> int {
        1_120 * least(self.total_ram_mb as int, 64_000) + 32_000 * least(
            least(self.cpu_threads as int, 16) * self.vector_bonus(),
            1_600,
        ) + 5_000 * least(self.usable_vram_mb(), 16_384)
    }

    /// The composite reaches `points` out of 100.
    pub open spec fn composite_at_least(self, points: int) -> bool {
        self.composite_units() >= points * COMPOSITE_UNIT
    }

    /// The tier of the profile. Each of the three upper tiers asks for a
    /// composite score, a memory floor and a video-memory floor; the lower tiers
    /// go by memory alone.
    pub open spec fn tier(self) -> DeviceTier {
        let ram = self.total_ram_mb as int;
        let vram = self.usable_vram_mb();
        if self.composite_at_least(80) && ram >= 60 * 1_024 && vram >= 15_000 {
            DeviceTier::Ultra
        } else if self.composite_at_least(55) && ram >= 30 * 1_024 && vram >= 7_000 {
            DeviceTier::High
        } else if self.composite_at_least(30) && ram >= 14 * 1_024 && vram >= 3_000 {
            DeviceTier::Medium
        } else if ram >= 7 * 1_024 {
            DeviceTier::Low
        } else if ram >= 5 * 1_024 {
            DeviceTier::Minimal
        } else {
            DeviceTier::Potato
        }
    }

    /// The capability score in units of `1 / 3 686 400 000`: 30 % processor (of
    /// which 60 % threads against 16 and 40 % clock against 4 500 MHz, 2 200 MHz
    /// where unknown), 25 % memory against 32 768 MB, 45 % video memory against
    /// 12 288 MB. Each share lies between nothing and its full weight: a host
    /// without video memory earns none of the last.
    pub open spec fn capability_units(self) -> int {
        let clock = match self.cpu_frequency_mhz {
            Some(f) => f as int,
            None => 2_200,
        };
        41_472_000 * within(self.cpu_threads as int, 16) + 98_304 * within(clock, 4_500) + 28_125
            * within(self.total_ram_mb as int, 32_768) + 135_000 * within(
            self.reported_vram(),
            12_288,
        )
    }

    /// The capability score in millionths, rounded down.
    pub open spec fn capability_ppm(self) -> int {
        self.capability_units() * 10 / 36_864
    }

    fn vram_for_tiering(&self) -> (vram: i64)
        ensures
            vram == self.usable_vram_mb(),
    {
        let reported: i64 = match self.gpu_vram_mb {
            Some(v) => v,
            None => 0,
        };
        let unified = match &self.gpu_backend {
            Some(backend) => same_text(backend.as_str(), "metal") || (same_text(
                backend.as_str(),
                "cuda",
            ) && reported == 0),
            None => false,
        };
        if unified {
            if self.total_ram_mb >= 0 {
                self.total_ram_mb / 2
            } else {
                let positive: i128 = -(self.total_ram_mb as i128);
                (-(positive / 2)) as i64
            }
        } else {
            reported
        }
    }

    /// Classifies the host into its tier.
    pub fn classify(&self) -> (tier: DeviceTier)
        ensures
            tier == self.tier(),
    {
        let vram = self.vram_for_tiering();
        let bonus: i128 = if self.supports_avx512 > 0 {
            120
        } else if self.supports_avx2 > 0 {
            105
        } else {
            100
        };
        let ram_part: i128 = if self.total_ram_mb <= 64_000 {
            self.total_ram_mb as i128
        } else {
            64_000
        };
        let threads: i128 = if self.cpu_threads <= 16 {
            self.cpu_threads as i128
        } else {
            16
        };
        let boosted: i128 = threads * bonus;
        let cpu_part: i128 = if boosted <= 1_600 {
            boosted
        } else {
            1_600
        };
        let gpu_part: i128 = if vram <= 16_384 {
            vram as i128
        } else {
            16_384
        };
        let units: i128 = 1_120 * ram_part + 32_000 * cpu_part + 5_000 * gpu_part;
        let ram = self.total_ram_mb;
        if units >= 80 * 2_048_000 && ram >= 61_440 && vram >= 15_000 {
            DeviceTier::Ultra
        } else if units >= 55 * 2_048_000 && ram >= 30_720 && vram >= 7_000 {
            DeviceTier::High
        } else if units >= 30 * 2_048_000 && ram >= 14_336 && vram >= 3_000 {
            DeviceTier::Medium
        } else if ram >= 7_168 {
            DeviceTier::Low
        } else if ram >= 5_120 {
            DeviceTier::Minimal
        } else {
            DeviceTier::Potato
        }
    }
}

fn cap_at(value: i64, hi: u64) -> (r: u64)
    requires
        hi <= i64::MAX,
    ensures
        r == within(value as int, hi as int),
{
    if value < 0 {
        0
    } else if value as u64 > hi {
        hi
    } else {
        value as u64
    }
}

/// Scores the capability of a host in millionths of the best score.
pub fn compute_capability_score(profile: &SystemProfile) -> (ppm: u32)
    ensures
        ppm == profile.capability_ppm(),
        ppm <= 1_000_000,
{
    let clock: i64 = match profile.cpu_frequency_mhz {
        Some(f) => f,
        None => 2_200,
    };
    let vram: i64 = match profile.gpu_vram_mb {
        Some(v) => v,
        None => 0,
    };
    let units: u64 = 41_472_000 * cap_at(profile.cpu_threads, 16) + 98_304 * cap_at(clock, 4_500)
        + 28_125 * cap_at(profile.total_ram_mb, 32_768) + 135_000 * cap_at(vram, 12_288);
    (units * 10 / 36_864) as u32
}

/// The capability score lies between nothing and the best score and grows with
/// the video memory: of two hosts that differ in their video memory alone, the
/// one with more of it does not score less. A host that reports no video memory
/// counts as having none.
pub proof fn lemma_capability_grows_with_video_memory(less: SystemProfile, more: SystemProfile)
    requires
        more == (SystemProfile { gpu_vram_mb: more.gpu_vram_mb, ..less }),
        less.reported_vram() <= more.reported_vram(),
    ensures
        0 <= less.capability_ppm() <= more.capability_ppm() <= 1_000_000,
{
    let low = less.capability_units();
    let high = more.capability_units();
    assert(0 <= low <= high <= CAPABILITY_UNIT);
    lemma_div_is_ordered(0, low * 10, 36_864);
    lemma_div_is_ordered(low * 10, high * 10, 36_864);
    lemma_div_is_ordered(high * 10, CAPABILITY_UNIT * 10, 36_864);
}

/// How many layers of a model to place on the graphics processor: none without
/// video memory, all of them (`-1`) where the video memory exceeds the model by
/// more than a tenth, else as many as fit, a layer counting for a 32nd of the
/// model and for 51.2 MB at least.
pub open spec fn gpu_layers(vram_mb: int, model_size_mb: int) -> int {
    if vram_mb <= 0 {
        0
    } else if vram_mb * 10 > model_size_mb * 11 {
        -1
    } else if model_size_mb * 10 >= 16_384 {
        vram_mb * 32 / model_size_mb
    } else {
        vram_mb * 5 / 256
    }
}

/// Suggests how many layers of a model to place on the graphics processor.
pub fn suggest_n_gpu_layers(profile: &SystemProfile, model_size_mb: u64) -> (layers: i32)
    ensures
        layers == gpu_layers(profile.reported_vram(), model_size_mb as int),
        -1 <= layers <= 36,
{
    let vram: i64 = match profile.gpu_vram_mb {
        Some(v) => v,
        None => 0,
    };
    if vram <= 0 {
        return 0;
    }
    let vram_wide: u128 = vram as u128;
    let model_wide: u128 = model_size_mb as u128;
    if vram_wide * 10 > model_wide * 11 {
        return -1;
    }
    if model_wide * 10 >= 16_384 {
        let layers: u128 = vram_wide * 32 / model_wide;
        assert(layers <= 36) by (nonlinear_arith)
            requires
                vram_wide * 10 <= model_wide * 11,
                model_wide > 0,
                layers == (vram_wide * 32) as int / model_wide as int,
        ;
        layers as i32
    } else {
        (vram_wide * 5 / 256) as i32
    }
}

/// Whether a model of the given size fits beside a safety margin: the free
/// memory exceeds the model by more than a quarter of the total, and by more than
/// 2 048 MB. A host that reports no memory figures is taken to have room.
pub open spec fn has_headroom(stats: LiveSystemStats, required_ram_mb: int) -> bool {
    if stats.memory_total_mb == 0 {
        true
    } else {
        let quarter_x4 = stats.memory_total_mb as int;
        let available_x4 = 4 * (stats.memory_total_mb - stats.memory_used_mb);
        available_x4 > 4 * required_ram_mb + if quarter_x4 >= 8_192 {
            quarter_x4
        } else {
            8_192int
        }
    }
}

/// Whether a model of the given size fits beside the safety margin.
pub fn can_load_model(stats: &LiveSystemStats, required_ram_mb: i64) -> (fits: bool)
    ensures
        fits == has_headroom(*stats, required_ram_mb as int),
{
    if stats.memory_total_mb == 0 {
        return true;
    }
    let available_x4: i128 = 4 * (stats.memory_total_mb as i128 - stats.memory_used_mb as i128);
    let margin_x4: i128 = if stats.memory_total_mb >= 8_192 {
        stats.memory_total_mb as i128
    } else {
        8_192
    };
    available_x4 > 4 * (required_ram_mb as i128) + margin_x4
}

/// The load decision for a reading: defer from 90 % processor load or memory use,
/// background only from 70 %, else load now where the model fits and skip where
/// it does not.
pub open spec fn load_decision(stats: LiveSystemStats, model_size_mb: int) -> LoadDecision {
    if stats.cpu_usage_bp >= 9_000 || stats.memory_at_least(9_000) {
        LoadDecision::Defer
    } else if stats.cpu_usage_bp >= 7_000 || stats.memory_at_least(7_000) {
        LoadDecision::BackgroundOnly
    } else if has_headroom(stats, model_size_mb) {
        LoadDecision::LoadNow
    } else {
        LoadDecision::Skip
    }
}

/// Decides what to do about loading a model of the given size.
pub fn should_load_model(stats: &LiveSystemStats, model_size_mb: i64) -> (decision: LoadDecision)
    ensures
        decision == load_decision(*stats, model_size_mb as int),
{
    if stats.cpu_usage_bp >= 9_000 || stats.memory_share_at_least(9_000) {
        LoadDecision::Defer
    } else if stats.cpu_usage_bp >= 7_000 || stats.memory_share_at_least(7_000) {
        LoadDecision::BackgroundOnly
    } else if can_load_model(stats, model_size_mb) {
        LoadDecision::LoadNow
    } else {
        LoadDecision::Skip
    }
}

/// Model names and cache sizes that a tier runs with.
#[derive(Debug)]
pub struct TierConfig {
    pub embedding_model: Option<String>,
    pub reranker_model: Option<String>,
    pub max_context: usize,
    pub embed_cache_capacity: u64,
    pub session_cache_capacity: u64,
    pub settings_cache_capacity: u64,
    pub background_tasks_enabled: bool,
    pub auto_load_model: bool,
}

impl Clone for TierConfig {
    fn clone(&self) -> (copy: Self)
        ensures
            copy == *self,
    {
        TierConfig {
            embedding_model: match &self.embedding_model {
                Some(name) => Some(name.clone()),
                None => None,
            },
            reranker_model: match &self.reranker_model {
                Some(name) => Some(name.clone()),
                None => None,
            },
            max_context: self.max_context,
            embed_cache_capacity: self.embed_cache_capacity,
            session_cache_capacity: self.session_cache_capacity,
            settings_cache_capacity: self.settings_cache_capacity,
            background_tasks_enabled: self.background_tasks_enabled,
            auto_load_model: self.auto_load_model,
        }
    }
}

/// The tier whose table row applies: the tier itself, or its throttled form in
/// the multitasking mode.
pub open spec fn effective_tier(tier: DeviceTier, mode: PerformanceMode) -> DeviceTier {
    if mode == PerformanceMode::Multitasking {
        tier.throttled()
    } else {
        tier
    }
}

/// Context length of a tier's table row.
pub open spec fn tier_max_context(tier: DeviceTier) -> int {
    match tier {
        DeviceTier::Ultra => 16_384,
        DeviceTier::High => 8_192,
        DeviceTier::Medium => 4_096,
        DeviceTier::Low => 2_048,
        DeviceTier::Minimal => 1_024,
        DeviceTier::Potato => 512,
    }
}

/// Embedding cache entries of a tier's table row.
pub open spec fn tier_embed_cache(tier: DeviceTier) -> int {
    match tier {
        DeviceTier::Ultra => 100_000,
        DeviceTier::High => 50_000,
        DeviceTier::Medium => 25_000,
        DeviceTier::Low => 10_000,
        DeviceTier::Minimal => 1_000,
        DeviceTier::Potato => 100,
    }
}

/// Session cache entries of a tier's table row.
pub open spec fn tier_session_cache(tier: DeviceTier) -> int {
    match tier {
        DeviceTier::Ultra => 8_192,
        DeviceTier::High => 4_096,
        DeviceTier::Medium => 2_048,
        DeviceTier::Low => 512,
        DeviceTier::Minimal => 128,
        DeviceTier::Potato => 32,
    }
}

/// Settings cache entries of a tier's table row.
pub open spec fn tier_settings_cache(tier: DeviceTier) -> int {
    match tier {
        DeviceTier::Ultra => 1_024,
        DeviceTier::High => 512,
        DeviceTier::Medium => 256,
        DeviceTier::Low => 128,
        DeviceTier::Minimal => 32,
        DeviceTier::Potato => 16,
    }
}

/// Whether a tier runs the embedding and reranking models.
pub open spec fn tier_has_retrieval_models(tier: DeviceTier) -> bool {
    tier.position() <= DeviceTier::Low.position()
}

/// Whether a tier's table row runs background tasks.
pub open spec fn tier_runs_background(tier: DeviceTier) -> bool {
    tier.position() <= DeviceTier::Low.position()
}

/// Whether a tier's table row lets a model load by itself.
pub open spec fn tier_auto_loads(tier: DeviceTier) -> bool {
    tier.position() <= DeviceTier::Medium.position()
}

/// `config` is the configuration of `tier` under `mode`: the table row of the
/// effective tier; in the multitasking mode without background tasks and
/// automatic loading, with at most 1 024 tokens of context, a tenth of the
/// embedding cache and a quarter of the session cache.
pub open spec fn is_tier_config(
    config: TierConfig,
    tier: DeviceTier,
    mode: PerformanceMode,
) -> bool {
    let row = effective_tier(tier, mode);
    let saving = mode == PerformanceMode::Multitasking;
    &&& match config.embedding_model {
        Some(name) => tier_has_retrieval_models(row) && name@ == "bge-small-en-v1.5"@,
        None => !tier_has_retrieval_models(row),
    }
    &&& match config.reranker_model {
        Some(name) => tier_has_retrieval_models(row) && name@ == "bge-reranker-base"@,
        None => !tier_has_retrieval_models(row),
    }
    &&& config.max_context == if saving {
        least(tier_max_context(row), 1_024)
    } else {
        tier_max_context(row)
    }
    &&& config.embed_cache_capacity == if saving {
        tier_embed_cache(row) / 10
    } else {
        tier_embed_cache(row)
    }
    &&& config.session_cache_capacity == if saving {
        tier_session_cache(row) / 4
    } else {
        tier_session_cache(row)
    }
    &&& config.settings_cache_capacity == tier_settings_cache(row)
    &&& config.background_tasks_enabled == (tier_runs_background(row) && !saving)
    &&& config.auto_load_model == (tier_auto_loads(row) && !saving)
}

fn table_row(tier: DeviceTier) -> (config: TierConfig)
    ensures
        is_tier_config(config, tier, PerformanceMode::Balanced),
{
    let with_models = match tier {
        DeviceTier::Ultra | DeviceTier::High | DeviceTier::Medium | DeviceTier::Low => true,
        DeviceTier::Minimal | DeviceTier::Potato => false,
    };
    let embedding_model = if with_models {
        Some("bge-small-en-v1.5".to_owned())
    } else {
        None
    };
    let reranker_model = if with_models {
        Some("bge-reranker-base".to_owned())
    } else {
        None
    };
    match tier {
        DeviceTier::Ultra => TierConfig {
            embedding_model,
            reranker_model,
            max_context: 16_384,
            embed_cache_capacity: 100_000,
            session_cache_capacity: 8_192,
            settings_cache_capacity: 1_024,
            background_tasks_enabled: true,
            auto_load_model: true,
        },
        DeviceTier::High => TierConfig {
            embedding_model,
            reranker_model,
            max_context: 8_192,
            embed_cache_capacity: 50_000,
            session_cache_capacity: 4_096,
            settings_cache_capacity: 512,
            background_tasks_enabled: true,
            auto_load_model: true,
        },
        DeviceTier::Medium => TierConfig {
            embedding_model,
            reranker_model,
            max_context: 4_096,
            embed_cache_capacity: 25_000,
            session_cache_capacity: 2_048,
            settings_cache_capacity: 256,
            background_tasks_enabled: true,
            auto_load_model: true,
        },
        DeviceTier::Low => TierConfig {
            embedding_model,
            reranker_model,
            max_context: 2_048,
            embed_cache_capacity: 10_000,
            session_cache_capacity: 512,
            settings_cache_capacity: 128,
            background_tasks_enabled: true,
            auto_load_model: false,
        },
        DeviceTier::Minimal => TierConfig {
            embedding_model,
            reranker_model,
            max_context: 1_024,
            embed_cache_capacity: 1_000,
            session_cache_capacity: 128,
            settings_cache_capacity: 32,
            background_tasks_enabled: false,
            auto_load_model: false,
        },
        DeviceTier::Potato => TierConfig {
            embedding_model,
            reranker_model,
            max_context: 512,
            embed_cache_capacity: 100,
            session_cache_capacity: 32,
            settings_cache_capacity: 16,
            background_tasks_enabled: false,
            auto_load_model: false,
        },
    }
}

/// The configuration that a tier runs with under a performance mode.
pub fn get_tier_config(tier: DeviceTier, mode: PerformanceMode) -> (config: TierConfig)
    ensures
        is_tier_config(config, tier, mode),
{
    let saving = match mode {
        PerformanceMode::Multitasking => true,
        _ => false,
    };
    let row = if saving {
        match tier {
            DeviceTier::Ultra | DeviceTier::High => DeviceTier::Low,
            DeviceTier::Medium | DeviceTier::Low => DeviceTier::Minimal,
            DeviceTier::Minimal | DeviceTier::Potato => DeviceTier::Potato,
        }
    } else {
        tier
    };
    let mut config = table_row(row);
    if saving {
        config.auto_load_model = false;
        config.background_tasks_enabled = false;
        if config.max_context > 1_024 {
            config.max_context = 1_024;
        }
        config.embed_cache_capacity = config.embed_cache_capacity / 10;
        config.session_cache_capacity = config.session_cache_capacity / 4;
    }
    config
}

/// What the probe of the graphics processor found.
#[derive(Debug)]
pub struct GpuFacts {
    pub name: Option<String>,
    pub vendor: Option<String>,
    pub vram_mb: Option<i64>,
    pub backend: Option<String>,
    pub supports_cuda: i64,
    pub supports_metal: i64,
    pub supports_vulkan: i64,
}

/// `facts` describe an NVIDIA device of the given name and memory where a name
/// is given, and a host without graphics processor where none is.
pub open spec fn is_gpu_facts(
    facts: GpuFacts,
    nvidia_name: Option<String>,
    nvidia_vram_mb: Option<i64>,
) -> bool {
    match nvidia_name {
        Some(name) => {
            &&& facts.name == Some(name)
            &&& facts.vendor is Some && facts.vendor->0@ == "nvidia"@
            &&& facts.vram_mb == nvidia_vram_mb
            &&& facts.backend is Some && facts.backend->0@ == "cuda"@
            &&& facts.supports_cuda == 1
            &&& facts.supports_metal == 0
            &&& facts.supports_vulkan == 1
        },
        None => {
            &&& facts.name is None
            &&& facts.vendor is Some && facts.vendor->0@ == "none"@
            &&& facts.vram_mb is None
            &&& facts.backend is Some && facts.backend->0@ == "cpu"@
            &&& facts.supports_cuda == 0
            &&& facts.supports_metal == 0
            &&& facts.supports_vulkan == 0
        },
    }
}

/// Turns the outcome of the NVIDIA probe into the facts that a profile records.
pub fn detect_gpu(nvidia_name: Option<String>, nvidia_vram_mb: Option<i64>) -> (facts: GpuFacts)
    ensures
        is_gpu_facts(facts, nvidia_name, nvidia_vram_mb),
{
    match nvidia_name {
        Some(name) => GpuFacts {
            name: Some(name),
            vendor: Some("nvidia".to_owned()),
            vram_mb: nvidia_vram_mb,
            backend: Some("cuda".to_owned()),
            supports_cuda: 1,
            supports_metal: 0,
            supports_vulkan: 1,
        },
        None => GpuFacts {
            name: None,
            vendor: Some("none".to_owned()),
            vram_mb: None,
            backend: Some("cpu".to_owned()),
            supports_cuda: 0,
            supports_metal: 0,
            supports_vulkan: 0,
        },
    }
}

/// Seconds for which a telemetry reading is served again before the host is
/// polled anew.
pub const STATS_DEBOUNCE_SECS: u64 = 5;

/// The telemetry cache of the hardware profiler: the last reading and the time,
/// in seconds, at which it was taken.
pub struct HardwareService {
    last_stats: LiveSystemStats,
    last_check_secs: u64,
}

impl HardwareService {
    /// The reading held.
    pub closed spec fn held(&self) -> LiveSystemStats {
        self.last_stats
    }

    /// When the reading held was taken.
    pub closed spec fn checked_at(&self) -> u64 {
        self.last_check_secs
    }

    /// The reading held is still served at `now`: it was taken less than five
    /// seconds ago, and not in the future.
    pub open spec fn is_fresh(&self, now_secs: u64) -> bool {
        self.checked_at() <= now_secs && now_secs - self.checked_at() < STATS_DEBOUNCE_SECS
    }

    /// A cache that holds the reading of an idle host, taken at time zero.
    pub fn new() -> (service: Self)
        ensures
            service.checked_at() == 0,
            service.held().cpu_usage_bp == 0,
            service.held().memory_used_mb == 0,
            service.held().memory_total_mb == 0,
            service.held().process_count == 0,
            service.held().gpu_name is None,
            service.held().gpu_usage_bp is None,
    {
        HardwareService { last_stats: LiveSystemStats::idle(), last_check_secs: 0 }
    }

    /// The reading to serve at `now` without polling, if there is one.
    pub fn cached_stats(&self, now_secs: u64) -> (hit: Option<LiveSystemStats>)
        ensures
            hit == if self.is_fresh(now_secs) {
                Some(self.held())
            } else {
                None
            },
    {
        if self.last_check_secs <= now_secs && now_secs - self.last_check_secs
            < STATS_DEBOUNCE_SECS {
            Some(self.last_stats.duplicate())
        } else {
            None
        }
    }

    /// Keeps a fresh reading, taken at `now`.
    pub fn store_stats(&mut self, now_secs: u64, stats: LiveSystemStats)
        ensures
            final(self).held() == stats,
            final(self).checked_at() == now_secs,
    {
        self.last_stats = stats;
        self.last_check_secs = now_secs;
    }
}

} // verus!
