use runtime_governor::memory_manager::{AdaptiveMemoryManager, MemoryAction, TickPlan};
use runtime_governor::pressure::LiveSystemStats;

fn reading(cpu_usage_bp: u32, memory_used_mb: u64, memory_total_mb: u64) -> LiveSystemStats {
    LiveSystemStats {
        cpu_usage_bp,
        memory_used_mb,
        memory_total_mb,
        process_count: 1,
        gpu_name: None,
        gpu_usage_bp: None,
    }
}

fn run(manager: &mut AdaptiveMemoryManager, trace: &[(u64, LiveSystemStats)]) -> Vec<u64> {
    let mut unloads = Vec::new();
    for (now_ms, stats) in trace {
        if manager.check_and_manage(stats, *now_ms) == TickPlan::Unload {
            let action = manager.finish_unload(*now_ms, "model.gguf".to_string(), true);
            assert!(matches!(action, MemoryAction::Unloaded(path) if path == "model.gguf"));
            unloads.push(*now_ms);
        }
    }
    unloads
}

fn oscillating(seconds: u64) -> Vec<(u64, LiveSystemStats)> {
    (0..seconds)
        .map(|second| {
            let used = if second % 2 == 0 { 8_600 } else { 8_400 };
            (second * 1_000, reading(1_000, used, 10_000))
        })
        .collect()
}

#[test]
fn oscillating_memory_unloads_once_per_cooldown() {
    let mut manager = AdaptiveMemoryManager::new();
    let unloads = run(&mut manager, &oscillating(121));
    assert_eq!(unloads, vec![0, 30_000, 60_000, 90_000, 120_000]);
    assert_eq!(manager.total_unloads, 5);
    assert_eq!(manager.get_stats().total_unloads, 5);
    assert_eq!(manager.get_stats().total_loads, 0);
}

#[test]
fn longer_cooldown_spaces_the_unloads_further() {
    let mut manager = AdaptiveMemoryManager::with_thresholds(8_500, 6_500, 8_500, 5_000);
    assert_eq!(manager.unload_cooldown_secs, 90);
    let unloads = run(&mut manager, &oscillating(200));
    assert_eq!(unloads, vec![0, 90_000, 180_000]);
    for pair in unloads.windows(2) {
        assert!(pair[1] - pair[0] >= 90_000);
    }
}

#[test]
fn constant_high_pressure_respects_the_cooldown_too() {
    let mut manager = AdaptiveMemoryManager::new();
    let trace: Vec<_> = (0..100u64).map(|s| (s * 1_000 + 7, reading(9_900, 0, 0))).collect();
    let unloads = run(&mut manager, &trace);
    assert_eq!(unloads, vec![7, 30_007, 60_007, 90_007]);
}

#[test]
fn failed_unload_starts_no_cooldown() {
    let mut manager = AdaptiveMemoryManager::new();
    let hot = reading(0, 9_000, 10_000);
    assert_eq!(manager.check_and_manage(&hot, 1_000), TickPlan::Unload);
    let action = manager.finish_unload(1_000, "m".to_string(), false);
    assert!(matches!(action, MemoryAction::NoAction));
    assert_eq!(manager.total_unloads, 0);
    assert_eq!(manager.last_unload_ms, None);
    assert_eq!(manager.check_and_manage(&hot, 2_000), TickPlan::Unload);
    manager.finish_unload(2_000, "m".to_string(), true);
    assert_eq!(manager.last_unload_ms, Some(2_000));
    assert_eq!(manager.check_and_manage(&hot, 31_999), TickPlan::Idle);
    assert_eq!(manager.check_and_manage(&hot, 32_000), TickPlan::Unload);
    // A clock that went back does not end the cooldown.
    assert_eq!(manager.check_and_manage(&hot, 0), TickPlan::Idle);
}

#[test]
fn thresholds_of_the_watchdog() {
    let manager = AdaptiveMemoryManager::new();
    assert_eq!(manager.check_and_manage(&reading(0, 8_499, 10_000), 0), TickPlan::Idle);
    assert_eq!(manager.check_and_manage(&reading(0, 8_500, 10_000), 0), TickPlan::Unload);
    assert_eq!(manager.check_and_manage(&reading(8_499, 0, 10_000), 0), TickPlan::Idle);
    assert_eq!(manager.check_and_manage(&reading(8_500, 0, 10_000), 0), TickPlan::Unload);
    // Low pressure loads nothing.
    assert!(manager.under_low_pressure(&reading(5_000, 6_500, 10_000)));
    assert!(!manager.under_low_pressure(&reading(5_001, 6_500, 10_000)));
    assert!(!manager.under_low_pressure(&reading(5_000, 6_501, 10_000)));
    assert_eq!(manager.check_and_manage(&reading(100, 100, 10_000), 0), TickPlan::Idle);
    assert_eq!(manager.maybe_load_model(0), TickPlan::Idle);
    assert_eq!(manager.maybe_unload_model(0), TickPlan::Unload);
}

#[test]
fn disabled_watchdog_asks_for_nothing() {
    let mut manager = AdaptiveMemoryManager::new();
    assert!(manager.is_enabled());
    manager.set_enabled(false);
    assert!(!manager.is_enabled());
    assert_eq!(manager.check_and_manage(&reading(10_000, 10, 10), 0), TickPlan::Idle);
    assert!(!manager.get_stats().enabled);
}

#[test]
fn custom_thresholds_are_clamped() {
    let manager = AdaptiveMemoryManager::with_thresholds(0, 0, 0, 0);
    assert_eq!(manager.memory_threshold_high_bp, 5_000);
    assert_eq!(manager.memory_threshold_low_bp, 2_000);
    assert_eq!(manager.cpu_threshold_high_bp, 4_000);
    assert_eq!(manager.cpu_threshold_low_bp, 1_000);
    let manager = AdaptiveMemoryManager::with_thresholds(10_000, 10_000, 10_000, 10_000);
    assert_eq!(manager.memory_threshold_high_bp, 9_800);
    assert_eq!(manager.memory_threshold_low_bp, 9_500);
    assert_eq!(manager.cpu_threshold_high_bp, 9_900);
    assert_eq!(manager.cpu_threshold_low_bp, 9_000);
    let manager = AdaptiveMemoryManager::with_thresholds(9_000, 3_000, 6_000, 2_000);
    assert_eq!(manager.get_stats().memory_threshold_high_bp, 9_000);
    assert_eq!(manager.get_stats().memory_threshold_low_bp, 3_000);
    assert_eq!(manager.get_stats().cpu_threshold_high_bp, 6_000);
    assert_eq!(manager.get_stats().cpu_threshold_low_bp, 2_000);
    assert_eq!(manager.check_and_manage(&reading(6_000, 0, 100), 0), TickPlan::Unload);
}
