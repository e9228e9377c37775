//! Live telemetry and the pressure level derived from it.
//!
//! Shares of a whole are held in basis points: 10 000 stands for 100 %. Memory
//! use is compared as the exact ratio of used to total megabytes.
use vstd::arithmetic::mul::lemma_mul_upper_bound;
use vstd::prelude::*;

verus! {

/// One hundred percent, in basis points.
pub const FULL_BP: u32 = 10_000;

/// Instantaneous resource scarcity, from least to most severe.
#[derive(Clone, Copy, Debug, PartialEq, Eq, Hash, Structural)]
pub enum PressureLevel {
    Normal,
    Warm,
    High,
    Critical,
}

impl PressureLevel {
    /// Position on the severity scale, 0 for `Normal` up to 3 for `Critical`.
    pub open spec fn severity(self) -> int {
        match self {
            PressureLevel::Normal => 0,
            PressureLevel::Warm => 1,
            PressureLevel::High => 2,
            PressureLevel::Critical => 3,
        }
    }

    /// The level's name in lower case.
    pub open spec fn name(self) -> Seq<char> {
        match self {
            PressureLevel::Normal => "normal"@,
            PressureLevel::Warm => "warm"@,
            PressureLevel::High => "high"@,
            PressureLevel::Critical => "critical"@,
        }
    }

    /// Position on the severity scale, 0 for `Normal` up to 3 for `Critical`.
    pub fn rank(&self) -> (r: u8)
        ensures
            r == self.severity(),
    {
        match self {
            PressureLevel::Normal => 0,
            PressureLevel::Warm => 1,
            PressureLevel::High => 2,
            PressureLevel::Critical => 3,
        }
    }

    /// The level's name in lower case.
    pub fn as_str(&self) -> (s: &'static str)
        ensures
            s@ == self.name(),
    {
        match self {
            PressureLevel::Normal => "normal",
            PressureLevel::Warm => "warm",
            PressureLevel::High => "high",
            PressureLevel::Critical => "critical",
        }
    }

    /// Whether background work should step aside: at `High` and `Critical`.
    pub fn is_elevated(&self) -> (elevated: bool)
        ensures
            elevated == (self.severity() >= 2),
    {
        match self {
            PressureLevel::High | PressureLevel::Critical => true,
            _ => false,
        }
    }
}

/// Point-in-time resource usage of the host.
#[derive(Clone, Debug)]
pub struct LiveSystemStats {
    /// Processor load in basis points of full load.
    pub cpu_usage_bp: u32,
    pub memory_used_mb: u64,
    pub memory_total_mb: u64,
    pub process_count: usize,
    pub gpu_name: Option<String>,
    /// Graphics load in basis points of full load, where it is known.
    pub gpu_usage_bp: Option<u32>,
}

/// `used / total` is at least `bp` basis points. A host that reports no memory at
/// all counts as using none of it.
pub open spec fn share_at_least(used: u64, total: u64, bp: int) -> bool {
    if total == 0 {
        0 >= bp
    } else {
        used * 10_000 >= bp * total
    }
}

/// `used / total` is more than `bp` basis points.
pub open spec fn share_above(used: u64, total: u64, bp: int) -> bool {
    if total == 0 {
        0 > bp
    } else {
        used * 10_000 > bp * total
    }
}

impl LiveSystemStats {
    /// Memory in use is at least `bp` basis points of the total.
    pub open spec fn memory_at_least(self, bp: int) -> bool {
        share_at_least(self.memory_used_mb, self.memory_total_mb, bp)
    }

    /// Memory in use is more than `bp` basis points of the total.
    pub open spec fn memory_above(self, bp: int) -> bool {
        share_above(self.memory_used_mb, self.memory_total_mb, bp)
    }

    /// Megabytes not in use; zero where more is reported used than exists.
    pub open spec fn free_mb(self) -> int {
        if self.memory_total_mb >= self.memory_used_mb {
            self.memory_total_mb - self.memory_used_mb
        } else {
            0
        }
    }

    /// A reading of an idle host without memory figures.
    pub fn idle() -> (stats: Self)
        ensures
            stats.cpu_usage_bp == 0,
            stats.memory_used_mb == 0,
            stats.memory_total_mb == 0,
            stats.process_count == 0,
            stats.gpu_name is None,
            stats.gpu_usage_bp is None,
    {
        LiveSystemStats {
            cpu_usage_bp: 0,
            memory_used_mb: 0,
            memory_total_mb: 0,
            process_count: 0,
            gpu_name: None,
            gpu_usage_bp: None,
        }
    }

    /// Whether memory in use is at least `bp` basis points of the total.
    pub fn memory_share_at_least(&self, bp: u32) -> (reached: bool)
        ensures
            reached == self.memory_at_least(bp as int),
    {
        if self.memory_total_mb == 0 {
            bp == 0
        } else {
            proof {
                lemma_mul_upper_bound(
                    bp as int,
                    u32::MAX as int,
                    self.memory_total_mb as int,
                    u64::MAX as int,
                );
            }
            (self.memory_used_mb as u128) * 10_000 >= (bp as u128) * (self.memory_total_mb as u128)
        }
    }

    /// Whether memory in use is more than `bp` basis points of the total.
    pub fn memory_share_above(&self, bp: u32) -> (exceeded: bool)
        ensures
            exceeded == self.memory_above(bp as int),
    {
        if self.memory_total_mb == 0 {
            false
        } else {
            proof {
                lemma_mul_upper_bound(
                    bp as int,
                    u32::MAX as int,
                    self.memory_total_mb as int,
                    u64::MAX as int,
                );
            }
            (self.memory_used_mb as u128) * 10_000 > (bp as u128) * (self.memory_total_mb as u128)
        }
    }

    /// Megabytes not in use.
    pub fn free_memory_mb(&self) -> (free: u64)
        ensures
            free == self.free_mb(),
    {
        if self.memory_total_mb >= self.memory_used_mb {
            self.memory_total_mb - self.memory_used_mb
        } else {
            0
        }
    }

    /// A copy of the reading.
    pub fn duplicate(&self) -> (copy: Self)
        ensures
            copy == *self,
    {
        LiveSystemStats {
            cpu_usage_bp: self.cpu_usage_bp,
            memory_used_mb: self.memory_used_mb,
            memory_total_mb: self.memory_total_mb,
            process_count: self.process_count,
            gpu_name: match &self.gpu_name {
                Some(name) => Some(name.clone()),
                None => None,
            },
            gpu_usage_bp: self.gpu_usage_bp,
        }
    }
}

/// The pressure that a reading stands for under given thresholds: critical from
/// 95 % processor load or 93 % memory use; else high from either configured
/// threshold; else warm from 70 % processor load or 75 % memory use; else normal.
pub open spec fn pressure_of(
    stats: LiveSystemStats,
    pressure_cpu_bp: u32,
    pressure_memory_bp: u32,
) -> PressureLevel {
    if stats.cpu_usage_bp >= 9_500 || stats.memory_at_least(9_300) {
        PressureLevel::Critical
    } else if stats.cpu_usage_bp >= pressure_cpu_bp || stats.memory_at_least(
        pressure_memory_bp as int,
    ) {
        PressureLevel::High
    } else if stats.cpu_usage_bp >= 7_000 || stats.memory_at_least(7_500) {
        PressureLevel::Warm
    } else {
        PressureLevel::Normal
    }
}

/// Classifies a reading against the two configured thresholds, both in basis points.
pub fn pressure_from(
    stats: &LiveSystemStats,
    pressure_cpu_bp: u32,
    pressure_memory_bp: u32,
) -> (level: PressureLevel)
    ensures
        level == pressure_of(*stats, pressure_cpu_bp, pressure_memory_bp),
{
    if stats.cpu_usage_bp >= 9_500 || stats.memory_share_at_least(9_300) {
        PressureLevel::Critical
    } else if stats.cpu_usage_bp >= pressure_cpu_bp || stats.memory_share_at_least(
        pressure_memory_bp,
    ) {
        PressureLevel::High
    } else if stats.cpu_usage_bp >= 7_000 || stats.memory_share_at_least(7_500) {
        PressureLevel::Warm
    } else {
        PressureLevel::Normal
    }
}

} // verus!
