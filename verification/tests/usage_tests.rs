use runtime_governor::classifier::QueryCategory;
use runtime_governor::usage::UsageLearner;

#[test]
fn fresh_learner() {
    let learner = UsageLearner::new(0);
    let stats = learner.get_learning_stats();
    assert_eq!(stats.total_queries, 0);
    assert_eq!(stats.avg_query_length_milli, 0);
    assert_eq!(stats.total_sessions, 0);
    assert_eq!(stats.peak_hour, 23);
    assert_eq!(stats.top_category, None);
    assert_eq!(learner.get_optimal_context_window(), 16);
    assert_eq!(learner.get_model_recommendation(), (None, None));
    assert!(!learner.is_peak_hours(12));
    assert!(learner.suggest_optimizations(12).is_empty());
}

#[test]
fn mean_query_length_and_context_window() {
    let mut learner = UsageLearner::new(0);
    learner.record_query(&"x".repeat(49), QueryCategory::Simple);
    assert_eq!(learner.get_optimal_context_window(), 16);
    learner.record_query(&"x".repeat(51), QueryCategory::Simple);
    // The mean is exactly 50.
    assert_eq!(learner.get_optimal_context_window(), 28);
    assert_eq!(learner.get_learning_stats().avg_query_length_milli, 50_000);
    learner.record_query(&"x".repeat(350), QueryCategory::Simple);
    // 450 / 3 = 150.
    assert_eq!(learner.get_optimal_context_window(), 44);
    learner.record_query(&"x".repeat(750), QueryCategory::Simple);
    // 1 200 / 4 = 300.
    assert_eq!(learner.get_optimal_context_window(), 64);
    learner.record_query("", QueryCategory::Simple);
    // 1 200 / 5 = 240.
    assert_eq!(learner.get_optimal_context_window(), 44);
    assert_eq!(learner.get_learning_stats().avg_query_length_milli, 240_000);
    assert_eq!(learner.get_learning_stats().total_queries, 5);
}

#[test]
fn query_length_counts_bytes() {
    let mut learner = UsageLearner::new(0);
    learner.record_query("héllo", QueryCategory::Simple);
    assert_eq!(learner.get_learning_stats().avg_query_length_milli, 6_000);
    learner.record_query("ab", QueryCategory::Simple);
    learner.record_query("ab", QueryCategory::Simple);
    // 10 / 3, rounded down to thousandths.
    assert_eq!(learner.get_learning_stats().avg_query_length_milli, 3_333);
}

#[test]
fn top_category_is_the_most_frequent() {
    let mut learner = UsageLearner::new(0);
    learner.record_query("a", QueryCategory::Code);
    learner.record_query("a", QueryCategory::Math);
    learner.record_query("a", QueryCategory::Math);
    assert_eq!(learner.get_learning_stats().top_category, Some(QueryCategory::Math));
    learner.record_query("a", QueryCategory::Code);
    assert_eq!(learner.get_learning_stats().top_category, Some(QueryCategory::Code));
}

#[test]
fn preferred_and_fallback_model() {
    let mut learner = UsageLearner::new(0);
    learner.record_model_usage("alpha");
    assert_eq!(learner.get_model_recommendation(), (Some("alpha".to_string()), None));
    learner.record_model_usage("beta");
    assert_eq!(
        learner.get_model_recommendation(),
        (Some("alpha".to_string()), Some("beta".to_string()))
    );
    learner.record_model_usage("beta");
    assert_eq!(
        learner.get_model_recommendation(),
        (Some("beta".to_string()), Some("alpha".to_string()))
    );
    learner.record_model_usage("gamma");
    learner.record_model_usage("gamma");
    learner.record_model_usage("gamma");
    assert_eq!(
        learner.get_model_recommendation(),
        (Some("gamma".to_string()), Some("beta".to_string()))
    );
    learner.record_model_usage("alpha");
    // alpha and beta both stand at 2: the one used first comes first.
    assert_eq!(
        learner.get_model_recommendation(),
        (Some("gamma".to_string()), Some("alpha".to_string()))
    );
}

#[test]
fn hourly_counters_and_peak_hour() {
    let mut learner = UsageLearner::new(1_000);
    learner.record_time_usage(9, 2_000);
    learner.record_time_usage(9, 3_000);
    learner.record_time_usage(17, 4_000);
    assert_eq!(learner.get_learning_stats().peak_hour, 9);
    learner.record_time_usage(17, 5_000);
    // Two hours share the highest count: the later one is named.
    assert_eq!(learner.get_learning_stats().peak_hour, 17);
    // Exactly a day after the start nothing is reset yet.
    learner.record_time_usage(3, 86_401_000);
    assert_eq!(learner.get_learning_stats().peak_hour, 17);
    learner.record_time_usage(3, 86_401_001);
    assert_eq!(learner.get_learning_stats().peak_hour, 3);
    learner.record_time_usage(0, 86_401_002);
    assert_eq!(learner.get_learning_stats().peak_hour, 3);
    learner.record_time_usage(0, 86_401_003);
    learner.record_time_usage(23, 86_401_004);
    assert_eq!(learner.get_learning_stats().peak_hour, 0);
}

#[test]
fn peak_hours_need_more_than_fifteen_percent() {
    let mut learner = UsageLearner::new(0);
    for _ in 0..17 {
        learner.record_session_start(8);
    }
    for _ in 0..3 {
        learner.record_session_start(20);
    }
    // 3 of 20 is exactly 15 %.
    assert!(!learner.is_peak_hours(20));
    assert!(learner.is_peak_hours(8));
    assert!(!learner.is_peak_hours(9));
    learner.record_session_start(20);
    // 4 of 21.
    assert!(learner.is_peak_hours(20));
    assert_eq!(learner.get_learning_stats().total_sessions, 21);
}

#[test]
fn session_hours_drop_the_oldest_hundred() {
    let mut learner = UsageLearner::new(0);
    for _ in 0..100 {
        learner.record_session_start(1);
    }
    for _ in 0..100 {
        learner.record_session_start(2);
    }
    assert!(learner.is_peak_hours(1));
    learner.record_session_start(3);
    // 101 hours are left: a hundred of hour 2 and one of hour 3.
    assert!(!learner.is_peak_hours(1));
    assert!(learner.is_peak_hours(2));
    assert!(!learner.is_peak_hours(3));
    assert_eq!(learner.get_learning_stats().total_sessions, 201);
}

#[test]
fn suggestions() {
    let mut learner = UsageLearner::new(0);
    learner.record_query(&"x".repeat(200), QueryCategory::Simple);
    assert!(learner.suggest_optimizations(0).is_empty());
    learner.record_query(&"x".repeat(201), QueryCategory::Simple);
    assert_eq!(learner.suggest_optimizations(0), vec!["increase_context_window"]);
    for _ in 0..98 {
        learner.record_query(&"x".repeat(300), QueryCategory::Simple);
    }
    // A hundred queries are not more than a hundred.
    assert_eq!(learner.suggest_optimizations(0), vec!["increase_context_window"]);
    learner.record_query(&"x".repeat(300), QueryCategory::Simple);
    learner.record_session_start(7);
    assert_eq!(
        learner.suggest_optimizations(7),
        vec!["increase_context_window", "prefer_lightweight_model", "defer_background_jobs"]
    );
    assert_eq!(
        learner.suggest_optimizations(8),
        vec!["increase_context_window", "prefer_lightweight_model"]
    );
}

#[test]
fn lightweight_model_only_while_simple_queries_lead() {
    let mut learner = UsageLearner::new(0);
    for _ in 0..60 {
        learner.record_query("hi", QueryCategory::Simple);
    }
    for _ in 0..61 {
        learner.record_query("hi", QueryCategory::Code);
    }
    assert!(learner.suggest_optimizations(0).is_empty());
    learner.record_query("hi", QueryCategory::Simple);
    assert_eq!(learner.suggest_optimizations(0), vec!["prefer_lightweight_model"]);
}
