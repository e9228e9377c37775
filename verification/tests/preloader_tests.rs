use runtime_governor::preloader::{
    estimate_complexity, estimate_complexity_lowered, PredictivePreloader, PredictorTick,
};
use runtime_governor::pressure::LiveSystemStats;

const HEAVY: &str = "function class error stack import analyze compare tradeoff reason";

fn reading(cpu_usage_bp: u32, memory_used_mb: u64, memory_total_mb: u64) -> LiveSystemStats {
    LiveSystemStats {
        cpu_usage_bp,
        memory_used_mb,
        memory_total_mb,
        process_count: 1,
        gpu_name: None,
        gpu_usage_bp: None,
    }
}

fn roomy() -> LiveSystemStats {
    reading(1_000, 3_200, 32_000)
}

#[test]
fn complexity_values() {
    assert_eq!(estimate_complexity(""), 0);
    assert_eq!(estimate_complexity("hello world"), 350);
    // 6 words, five code indicators.
    assert_eq!(estimate_complexity("function class error stack import x"), 10_650);
    // 9 words, five code indicators, four reasoning indicators.
    assert_eq!(estimate_complexity(HEAVY), 17_175);
    assert_eq!(estimate_complexity(&HEAVY.to_uppercase()), 17_175);
    assert_eq!(estimate_complexity_lowered(HEAVY, "nothing"), 1_575);
}

#[test]
fn complexity_is_capped() {
    let long = vec!["word"; 48].join(" ");
    assert_eq!(estimate_complexity(&long), 8_400);
    let longer = vec!["word"; 500].join(" ");
    assert_eq!(estimate_complexity(&longer), 8_400);
    let everything = format!(
        "{longer} ``` function class def import const let error stack \
         analyze compare tradeoff reason optimize performance architecture"
    );
    assert_eq!(estimate_complexity(&everything), 24_000);
}

#[test]
fn queue_holds_128_samples() {
    let mut preloader = PredictivePreloader::new(true);
    for i in 0..128u64 {
        preloader.record_query("hello", i);
    }
    assert_eq!(preloader.sample_count(), 128);
    preloader.record_query("hello", 128);
    preloader.record_query("hello", 129);
    assert_eq!(preloader.sample_count(), 128);
}

#[test]
fn switched_off_preloader_takes_no_samples() {
    let mut preloader = PredictivePreloader::new(true);
    preloader.set_enabled(false);
    assert!(!preloader.is_enabled());
    preloader.record_query(HEAVY, 0);
    assert_eq!(preloader.sample_count(), 0);
    assert!(!preloader.maybe_preload(&roomy(), 0));
    assert_eq!(preloader.background_tick(&roomy(), 0), PredictorTick::Disabled);
}

#[test]
fn heavy_queries_fire_one_preload() {
    let mut preloader = PredictivePreloader::new(true);
    assert!(!preloader.maybe_preload(&roomy(), 0));
    preloader.record_query(HEAVY, 1_000);
    assert!(preloader.maybe_preload(&roomy(), 2_000));
    // The slot is taken until the cooldown has passed.
    assert!(!preloader.maybe_preload(&roomy(), 2_001));
    assert!(!preloader.trigger_preload());
    assert_eq!(preloader.cooldown_secs(), 30);
    preloader.finish_preload();
    assert!(preloader.maybe_preload(&roomy(), 32_000));
}

#[test]
fn mean_complexity_must_reach_the_threshold() {
    let mut preloader = PredictivePreloader::new(true);
    preloader.record_query(HEAVY, 0);
    preloader.record_query("hello world", 0);
    // (17 175 + 350) / 2 is under 14 880.
    assert!(!preloader.maybe_preload(&roomy(), 1));
    let mut preloader = PredictivePreloader::new(true);
    preloader.record_query(HEAVY, 0);
    preloader.record_query(HEAVY, 0);
    preloader.record_query(HEAVY, 0);
    preloader.record_query("function class error stack import analyze compare x", 0);
    // (3 x 17 175 + 15 500) / 4 = 16 756.
    assert!(preloader.maybe_preload(&roomy(), 1));
}

#[test]
fn without_embedding_service_the_bar_is_higher() {
    let mut preloader = PredictivePreloader::new(false);
    preloader.record_query(HEAVY, 0);
    assert!(!preloader.maybe_preload(&roomy(), 1));
    let heavier = format!("{HEAVY} one two three four five");
    let mut preloader = PredictivePreloader::new(false);
    preloader.record_query(&heavier, 0);
    // 14 words: 15 600 + 2 450 = 18 050.
    assert!(preloader.maybe_preload(&roomy(), 1));
}

#[test]
fn only_the_trailing_five_minutes_count() {
    let mut preloader = PredictivePreloader::new(true);
    preloader.record_query(HEAVY, 0);
    assert!(!preloader.maybe_preload(&roomy(), 300_001));
    assert!(preloader.maybe_preload(&roomy(), 300_000));
    let mut preloader = PredictivePreloader::new(true);
    preloader.record_query("hello", 0);
    preloader.record_query(HEAVY, 400_000);
    // The old light sample is out of the window.
    assert!(preloader.maybe_preload(&roomy(), 500_000));
    let mut preloader = PredictivePreloader::new(true);
    preloader.record_query(HEAVY, 400_000);
    preloader.record_query(HEAVY, 0);
    // The newest sample is too old: the count stops there.
    assert!(!preloader.maybe_preload(&roomy(), 500_000));
}

#[test]
fn load_decision_gates_the_preload() {
    let fire = |stats: LiveSystemStats| {
        let mut preloader = PredictivePreloader::new(true);
        preloader.record_query(HEAVY, 0);
        preloader.maybe_preload(&stats, 1)
    };
    assert!(fire(roomy()));
    // Background only.
    assert!(fire(reading(7_500, 3_200, 32_000)));
    // Defer.
    assert!(!fire(reading(9_100, 3_200, 32_000)));
    // Skip: no room for 4 096 MB beside the margin.
    assert!(!fire(reading(1_000, 4_000, 8_000)));
}

#[test]
fn background_loop_drops_stale_samples() {
    let mut preloader = PredictivePreloader::new(true);
    preloader.record_query("a", 0);
    preloader.record_query("b", 100_000);
    preloader.record_query("c", 1_300_000);
    assert_eq!(preloader.background_tick(&roomy(), 1_200_000), PredictorTick::Trimmed(0));
    assert_eq!(preloader.background_tick(&roomy(), 1_200_001), PredictorTick::Trimmed(1));
    assert_eq!(preloader.sample_count(), 2);
    assert_eq!(
        preloader.background_tick(&reading(8_501, 0, 100), 9_000_000),
        PredictorTick::Paused
    );
    assert_eq!(
        preloader.background_tick(&reading(0, 8_801, 10_000), 9_000_000),
        PredictorTick::Paused
    );
    assert_eq!(preloader.sample_count(), 2);
    assert_eq!(
        preloader.background_tick(&reading(8_500, 8_800, 10_000), 9_000_000),
        PredictorTick::Trimmed(2)
    );
    assert_eq!(preloader.sample_count(), 0);
}
