use runtime_governor::classifier::{QueryCategory, SmartQueryClassifier};
use runtime_governor::governor::{Qos, RuntimePolicy};
use runtime_governor::hardware::DeviceTier;
use runtime_governor::memory_manager::AdaptiveMemoryManager;
use runtime_governor::orchestrator::{
    budget_for, infer_qos_from_category, infer_task_type_from_category, sanitize_qos,
    sanitize_task_type, startup_feature_gates, FeatureGate, RuntimeOrchestratorService,
    ServiceBudget,
};
use runtime_governor::preloader::PredictivePreloader;
use runtime_governor::pressure::{LiveSystemStats, PressureLevel};
use runtime_governor::router::{infer_task_type, TaskType};
use runtime_governor::usage::UsageLearner;

const LEVELS: [PressureLevel; 4] = [
    PressureLevel::Normal,
    PressureLevel::Warm,
    PressureLevel::High,
    PressureLevel::Critical,
];

const TIERS: [DeviceTier; 6] = [
    DeviceTier::Potato,
    DeviceTier::Minimal,
    DeviceTier::Low,
    DeviceTier::Medium,
    DeviceTier::High,
    DeviceTier::Ultra,
];

fn gates() -> FeatureGate {
    FeatureGate {
        rag_enabled: true,
        mcp_enabled: true,
        spotify_enabled: true,
        background_tasks_enabled: false,
        predictive_preload_enabled: true,
        adaptive_memory_enabled: true,
    }
}

fn reading(cpu_usage_bp: u32, memory_used_mb: u64, memory_total_mb: u64) -> LiveSystemStats {
    LiveSystemStats {
        cpu_usage_bp,
        memory_used_mb,
        memory_total_mb,
        process_count: 1,
        gpu_name: None,
        gpu_usage_bp: None,
    }
}

fn wide_policy() -> RuntimePolicy {
    RuntimePolicy {
        pressure_cpu_bp: 8_200,
        pressure_memory_bp: 8_500,
        interactive_max_tokens: 4_096,
        background_max_tokens: 2_048,
        interactive_max_concurrency: 4,
        background_max_concurrency: 4,
        retrieval_candidate_limit: 128,
        defer_background_under_pressure: true,
    }
}

#[test]
fn potato_budget_stays_within_128_tokens() {
    let service = RuntimeOrchestratorService::new(DeviceTier::Potato, DeviceTier::Potato, gates());
    let budget = service.compute_budget(&RuntimePolicy::default(), &reading(1_000, 1_000, 4_096));
    assert!(budget.interactive_max_tokens <= 128);
    assert_eq!(
        budget,
        ServiceBudget {
            interactive_max_tokens: 128,
            background_max_tokens: 64,
            retrieval_candidate_limit: 4,
            interactive_max_concurrency: 1,
            background_max_concurrency: 1,
        }
    );
}

#[test]
fn budget_of_a_high_tier_by_pressure() {
    let policy = wide_policy();
    let budget = |pressure| budget_for(DeviceTier::High, 20_480, pressure, &policy);
    // 512 + 20 x 100 tokens, under the tier's 4 096.
    assert_eq!(budget(PressureLevel::Normal).interactive_max_tokens, 2_512);
    assert_eq!(budget(PressureLevel::Warm).interactive_max_tokens, 2_261);
    assert_eq!(budget(PressureLevel::High).interactive_max_tokens, 1_758);
    assert_eq!(budget(PressureLevel::Critical).interactive_max_tokens, 1_256);
    assert_eq!(budget(PressureLevel::Normal).background_max_tokens, 1_024);
    assert_eq!(budget(PressureLevel::Warm).background_max_tokens, 922);
    assert_eq!(budget(PressureLevel::High).background_max_tokens, 717);
    assert_eq!(budget(PressureLevel::Critical).background_max_tokens, 512);
    assert_eq!(budget(PressureLevel::High).retrieval_candidate_limit, 96);
    assert_eq!(budget(PressureLevel::Critical).retrieval_candidate_limit, 3);
    assert_eq!(budget(PressureLevel::Critical).interactive_max_concurrency, 3);
    assert_eq!(budget(PressureLevel::Critical).background_max_concurrency, 2);
}

#[test]
fn policy_caps_the_budget() {
    let policy = RuntimePolicy::default();
    let budget = budget_for(DeviceTier::Ultra, 1_000_000, PressureLevel::Normal, &policy);
    assert_eq!(
        budget,
        ServiceBudget {
            interactive_max_tokens: 640,
            background_max_tokens: 256,
            retrieval_candidate_limit: 36,
            interactive_max_concurrency: 1,
            background_max_concurrency: 1,
        }
    );
    let wide = budget_for(DeviceTier::Ultra, u64::MAX, PressureLevel::Normal, &wide_policy());
    assert_eq!(wide.interactive_max_tokens, 4_096);
    assert_eq!(wide.background_max_tokens, 2_048);
    assert_eq!(wide.retrieval_candidate_limit, 128);
    assert_eq!(wide.interactive_max_concurrency, 4);
    assert_eq!(wide.background_max_concurrency, 4);
}

#[test]
fn free_memory_sets_the_ceiling_where_the_tier_allows_more() {
    let policy = wide_policy();
    let tokens = |tier, free_mb| {
        budget_for(tier, free_mb, PressureLevel::Normal, &policy).interactive_max_tokens
    };
    assert_eq!(tokens(DeviceTier::Medium, 0), 512);
    assert_eq!(tokens(DeviceTier::Medium, 1_023), 512);
    assert_eq!(tokens(DeviceTier::Medium, 1_024), 612);
    assert_eq!(tokens(DeviceTier::Medium, 5 * 1_024), 1_012);
    assert_eq!(tokens(DeviceTier::Medium, 6 * 1_024), 1_024);
    assert_eq!(tokens(DeviceTier::Low, 0), 512);
    assert_eq!(tokens(DeviceTier::Minimal, 0), 256);
    assert_eq!(tokens(DeviceTier::Ultra, 36 * 1_024), 4_096);
}

#[test]
fn budget_floors_hold_under_critical_pressure() {
    let policy = RuntimePolicy::default();
    let budget = budget_for(DeviceTier::Potato, 0, PressureLevel::Critical, &policy);
    assert_eq!(budget.interactive_max_tokens, 96);
    assert_eq!(budget.background_max_tokens, 64);
    assert_eq!(budget.retrieval_candidate_limit, 3);
    assert_eq!(budget.interactive_max_concurrency, 1);
    assert_eq!(budget.background_max_concurrency, 1);
}

#[test]
fn budget_never_grows_as_pressure_worsens() {
    for policy in [RuntimePolicy::default(), wide_policy()] {
        for tier in TIERS {
            for free_mb in [0u64, 900, 4_096, 20_000, 64_000, 10_000_000] {
                let mut last: Option<ServiceBudget> = None;
                for pressure in LEVELS {
                    let budget = budget_for(tier, free_mb, pressure, &policy);
                    assert!(budget.interactive_max_tokens <= policy.interactive_max_tokens);
                    assert!(budget.background_max_tokens <= policy.background_max_tokens);
                    assert!(budget.retrieval_candidate_limit <= policy.retrieval_candidate_limit);
                    if let Some(previous) = last {
                        assert!(budget.interactive_max_tokens <= previous.interactive_max_tokens);
                        assert!(budget.background_max_tokens <= previous.background_max_tokens);
                        assert!(
                            budget.retrieval_candidate_limit <= previous.retrieval_candidate_limit
                        );
                    }
                    last = Some(budget);
                }
            }
        }
    }
}

#[test]
fn plan_of_a_code_request() {
    let service = RuntimeOrchestratorService::new(DeviceTier::High, DeviceTier::Low, gates());
    let policy = RuntimePolicy::default();
    let calm = reading(1_000, 1_000, 4_096);
    let request =
        service.plan_request(QueryCategory::Code, 32, None, None, true, &policy, &calm);
    assert_eq!(request.task_type, TaskType::Code);
    assert_eq!(request.qos, Qos::MaxQuality);
    assert_eq!(request.query_category, QueryCategory::Code);
    assert_eq!(request.max_tokens_hint, 512);
    assert_eq!(request.context_window_hint, 32);
    assert_eq!(request.pressure_level, PressureLevel::Normal);
    assert!(!request.defer_background);
}

#[test]
fn plan_under_pressure() {
    let service = RuntimeOrchestratorService::new(DeviceTier::High, DeviceTier::Low, gates());
    let policy = RuntimePolicy::default();
    let critical = reading(9_600, 1_000, 4_096);
    let request =
        service.plan_request(QueryCategory::Code, 18, None, None, true, &policy, &critical);
    // The budget is 256; 256 x 0.45 = 115.2.
    assert_eq!(request.max_tokens_hint, 115);
    assert_eq!(request.pressure_level, PressureLevel::Critical);
    assert!(request.defer_background);
    let high = reading(8_300, 1_000, 4_096);
    let request = service.plan_request(QueryCategory::Simple, 18, None, None, true, &policy, &high);
    // The budget is 358; min(256, 358) x 0.65 = 166.4.
    assert_eq!(request.max_tokens_hint, 166);
    assert!(request.defer_background);
    let warm = reading(7_500, 1_000, 4_096);
    let request = service.plan_request(QueryCategory::Simple, 18, None, None, true, &policy, &warm);
    // min(256, 461) x 0.85 = 217.6.
    assert_eq!(request.max_tokens_hint, 218);
    assert!(!request.defer_background);
}

#[test]
fn plan_never_goes_under_96_tokens() {
    let service = RuntimeOrchestratorService::new(DeviceTier::Potato, DeviceTier::Potato, gates());
    let policy = RuntimePolicy::default();
    let critical = reading(9_600, 1_000, 4_096);
    let request =
        service.plan_request(QueryCategory::Simple, 18, None, None, false, &policy, &critical);
    assert_eq!(request.max_tokens_hint, 96);
    assert!(!request.defer_background);
}

#[test]
fn deferral_needs_leave_policy_and_pressure() {
    let service = RuntimeOrchestratorService::new(DeviceTier::Low, DeviceTier::Low, gates());
    let mut policy = RuntimePolicy::default();
    let high = reading(8_300, 10, 100);
    let calm = reading(10, 10, 100);
    let defer = |allow, policy: &RuntimePolicy, stats: &LiveSystemStats| {
        service
            .plan_request(QueryCategory::Medium, 18, None, None, allow, policy, stats)
            .defer_background
    };
    assert!(defer(true, &policy, &high));
    assert!(!defer(false, &policy, &high));
    assert!(!defer(true, &policy, &calm));
    policy.defer_background_under_pressure = false;
    assert!(!defer(true, &policy, &high));
}

#[test]
fn explicit_task_type_and_lane_are_sanitised() {
    let service = RuntimeOrchestratorService::new(DeviceTier::Low, DeviceTier::Low, gates());
    let policy = RuntimePolicy::default();
    let calm = reading(10, 10, 100);
    let request = service.plan_request(
        QueryCategory::Code,
        18,
        Some(" Tool_Heavy "),
        Some("FAST"),
        false,
        &policy,
        &calm,
    );
    assert_eq!(request.task_type, TaskType::ToolHeavy);
    assert_eq!(request.qos, Qos::Fast);
    let request = service.plan_request(
        QueryCategory::Code,
        18,
        Some("nonsense"),
        Some(""),
        false,
        &policy,
        &calm,
    );
    assert_eq!(request.task_type, TaskType::Chat);
    assert_eq!(request.qos, Qos::Balanced);
    assert_eq!(sanitize_task_type("reasoning"), TaskType::Reasoning);
    assert_eq!(sanitize_qos("max_quality"), Qos::MaxQuality);
}

#[test]
fn task_type_and_lane_of_each_category() {
    let task = |category| infer_task_type_from_category(&category);
    let lane = |category| infer_qos_from_category(&category);
    assert_eq!(task(QueryCategory::Code), TaskType::Code);
    assert_eq!(task(QueryCategory::Math), TaskType::Reasoning);
    assert_eq!(task(QueryCategory::Analytical), TaskType::Reasoning);
    assert_eq!(task(QueryCategory::Complex), TaskType::Reasoning);
    assert_eq!(task(QueryCategory::Summarization), TaskType::Reasoning);
    assert_eq!(task(QueryCategory::Translation), TaskType::Reasoning);
    assert_eq!(task(QueryCategory::Creative), TaskType::Chat);
    assert_eq!(task(QueryCategory::Simple), TaskType::Chat);
    assert_eq!(task(QueryCategory::Medium), TaskType::Chat);
    assert_eq!(lane(QueryCategory::Simple), Qos::Fast);
    assert_eq!(lane(QueryCategory::Medium), Qos::Balanced);
    assert_eq!(lane(QueryCategory::Creative), Qos::Balanced);
    assert_eq!(lane(QueryCategory::Summarization), Qos::Balanced);
    assert_eq!(lane(QueryCategory::Translation), Qos::Balanced);
    assert_eq!(lane(QueryCategory::Complex), Qos::MaxQuality);
    assert_eq!(lane(QueryCategory::Code), Qos::MaxQuality);
    assert_eq!(lane(QueryCategory::Math), Qos::MaxQuality);
    assert_eq!(lane(QueryCategory::Analytical), Qos::MaxQuality);
}

#[test]
fn the_two_inferences_may_disagree() {
    let text = "summarize the document";
    let mut classifier = SmartQueryClassifier::new();
    let category = classifier.classify(text, 0);
    assert_eq!(category, QueryCategory::Summarization);
    assert_eq!(infer_task_type_from_category(&category), TaskType::Reasoning);
    assert_eq!(infer_task_type(text), TaskType::RetrievalHeavy);
}

#[test]
fn debug_request_is_planned_as_code() {
    let service = RuntimeOrchestratorService::new(DeviceTier::Low, DeviceTier::Low, gates());
    let mut classifier = SmartQueryClassifier::new();
    let mut learner = UsageLearner::new(0);
    let mut preloader = PredictivePreloader::new(true);
    let text = "Debug this Rust function: fn add(a,b) { a+b }";
    let category =
        service.observe_query(&mut classifier, &mut learner, &mut preloader, text, 5_000, 14);
    assert_eq!(category, QueryCategory::Code);
    assert_eq!(classifier.suggest_max_tokens(&category), 1_280);
    assert_eq!(infer_task_type_from_category(&category), TaskType::Code);
    assert_eq!(classifier.sample_count(), 1);
    assert_eq!(preloader.sample_count(), 1);
    let stats = learner.get_learning_stats();
    assert_eq!(stats.total_queries, 1);
    assert_eq!(stats.total_sessions, 1);
    assert_eq!(stats.peak_hour, 14);
    assert_eq!(stats.top_category, Some(QueryCategory::Code));
    let policy = RuntimePolicy::default();
    let request = service.plan_request(
        category,
        classifier.context_window_hint(5_000),
        None,
        None,
        true,
        &policy,
        &reading(500, 2_000, 16_000),
    );
    assert_eq!(request.task_type, TaskType::Code);
    assert_eq!(request.context_window_hint, 48);
    assert_eq!(request.max_tokens_hint, 512);
}

#[test]
fn snapshots_for_observers() {
    let service = RuntimeOrchestratorService::new(DeviceTier::High, DeviceTier::Low, gates());
    let policy = RuntimePolicy::default();
    let profile = service.get_runtime_profile(&policy, &reading(7_100, 0, 16_000));
    assert_eq!(profile.detected_tier, DeviceTier::High);
    assert_eq!(profile.active_tier, DeviceTier::Low);
    assert!(profile.low_safe_startup);
    assert_eq!(profile.pressure_level, PressureLevel::Warm);
    assert_eq!(profile.service_budget.interactive_max_tokens, 461);
    assert_eq!(profile.policy, policy);
    assert_eq!(profile.feature_gates, gates());
    let potato = RuntimeOrchestratorService::new(DeviceTier::Potato, DeviceTier::Potato, gates());
    assert!(!potato.get_runtime_profile(&policy, &reading(0, 0, 0)).low_safe_startup);

    let mut memory = AdaptiveMemoryManager::new();
    let mut preloader = PredictivePreloader::new(false);
    let mut closed = gates();
    closed.predictive_preload_enabled = false;
    let quiet = RuntimeOrchestratorService::new(DeviceTier::Low, DeviceTier::Low, closed);
    quiet.start_background_loops(&mut memory, &mut preloader);
    let health = quiet.get_service_health(&memory, &preloader);
    assert!(health.query_classifier_ready);
    assert!(health.usage_learner_ready);
    assert!(health.adaptive_memory_enabled);
    assert!(!health.predictive_preload_enabled);
    assert_eq!(health.recent_query_samples, 0);
    assert_eq!(health.memory_manager.total_unloads, 0);
    assert_eq!(health.memory_manager.memory_threshold_high_bp, 8_500);
    assert!(!quiet.maybe_preload_model(&mut preloader, &reading(0, 0, 64_000), 0));

    let mut classifier = SmartQueryClassifier::new();
    let mut learner = UsageLearner::new(0);
    classifier.store(QueryCategory::Math, 10);
    learner.record_query("what is two plus two", QueryCategory::Math);
    learner.record_model_usage("tiny");
    let stats = service.get_optimization_stats(&learner, &memory, &classifier, 20, 9);
    assert_eq!(stats.learning.total_queries, 1);
    assert_eq!(stats.learning.avg_query_length_milli, 20_000);
    assert_eq!(stats.learning.top_category, Some(QueryCategory::Math));
    assert_eq!(stats.recommended_context_window, 16);
    assert_eq!(stats.preferred_model.as_deref(), Some("tiny"));
    assert_eq!(stats.fallback_model, None);
    assert_eq!(stats.classification_distribution.math, 1);
    assert!(stats.suggested_optimizations.is_empty());
}

#[test]
fn capabilities_fixed_at_startup() {
    let low = startup_feature_gates(DeviceTier::Low, true, false);
    assert_eq!(
        low,
        FeatureGate {
            rag_enabled: true,
            mcp_enabled: true,
            spotify_enabled: true,
            background_tasks_enabled: false,
            predictive_preload_enabled: true,
            adaptive_memory_enabled: true,
        }
    );
    let minimal = startup_feature_gates(DeviceTier::Minimal, false, true);
    assert!(!minimal.rag_enabled);
    assert!(minimal.background_tasks_enabled);
    assert!(!minimal.predictive_preload_enabled);
    assert!(minimal.adaptive_memory_enabled);
    assert!(startup_feature_gates(DeviceTier::Potato, false, false).predictive_preload_enabled);
}
