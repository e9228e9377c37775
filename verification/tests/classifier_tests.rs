use runtime_governor::classifier::{
    classify_lowered, classify_query, pick_category, score_lowered, CategoryScores, CategoryTally,
    QueryCategory, SmartQueryClassifier,
};

fn scores(values: [u32; 9]) -> CategoryScores {
    CategoryScores {
        code: values[0],
        math: values[1],
        analytical: values[2],
        creative: values[3],
        summarization: values[4],
        translation: values[5],
        simple: values[6],
        complex: values[7],
        medium: values[8],
    }
}

#[test]
fn debug_request_is_code() {
    let category = classify_query("Debug this Rust function: fn add(a,b) { a+b }");
    assert_eq!(category, QueryCategory::Code);
    assert_eq!(category.max_tokens_hint(), 1280);
    assert_eq!(category.as_str(), "code");
    assert_eq!(category.priority(), 4);
}

#[test]
fn debug_request_scores() {
    let raw = "Debug this Rust function: fn add(a,b) { a+b }";
    let table = score_lowered(&raw.to_lowercase(), 9, 1);
    assert_eq!(table.code, 90);
    assert_eq!(table.math, 0);
    assert_eq!(table.simple, 10);
    assert_eq!(table.complex, 0);
    assert_eq!(table.medium, 0);
}

#[test]
fn classification_is_repeatable() {
    let text = "Compare the tradeoff between two cache strategy options";
    let first = classify_query(text);
    let mut classifier = SmartQueryClassifier::new();
    let second = classifier.classify(text, 1_000);
    let third = classifier.classify(text, 2_000);
    assert_eq!(first, QueryCategory::Analytical);
    assert_eq!(second, first);
    assert_eq!(third, first);
    assert_eq!(classifier.sample_count(), 2);
}

#[test]
fn short_plain_text_is_simple() {
    assert_eq!(classify_query("hello there"), QueryCategory::Simple);
    assert_eq!(classify_query(""), QueryCategory::Simple);
}

#[test]
fn plain_text_of_middle_length_falls_back_to_medium() {
    let text = "one two three four five six seven eight nine ten eleven twelve";
    assert_eq!(classify_query(text), QueryCategory::Medium);
}

#[test]
fn long_plain_text_is_complex() {
    let text = vec!["word"; 81].join(" ");
    assert_eq!(classify_query(&text), QueryCategory::Complex);
    let shorter = vec!["word"; 80].join(" ");
    assert_eq!(classify_query(&shorter), QueryCategory::Medium);
    let edge = vec!["word"; 36].join(" ");
    assert_eq!(classify_query(&edge), QueryCategory::Medium);
}

#[test]
fn keyword_categories_are_recognised() {
    assert_eq!(classify_query("summarize this"), QueryCategory::Summarization);
    assert_eq!(classify_query("tl;dr"), QueryCategory::Summarization);
    assert_eq!(classify_query("translate hello in french"), QueryCategory::Translation);
    assert_eq!(classify_query("write a poem"), QueryCategory::Creative);
    assert_eq!(classify_query("solve the equation"), QueryCategory::Math);
    assert_eq!(classify_query("evaluate the strategy"), QueryCategory::Analytical);
}

#[test]
fn case_does_not_matter_for_keywords() {
    assert_eq!(classify_query("SUMMARIZE THIS"), QueryCategory::Summarization);
    assert_eq!(
        classify_lowered("SUMMARIZE THIS", "SUMMARIZE THIS"),
        QueryCategory::Simple
    );
}

#[test]
fn arithmetic_signs_count_for_math() {
    assert_eq!(classify_query("1+2=3"), QueryCategory::Simple);
    assert_eq!(classify_query("1+2-3=0"), QueryCategory::Math);
}

#[test]
fn code_wins_a_tie_with_math() {
    assert_eq!(classify_query("rust 1+2-3=0"), QueryCategory::Code);
    assert_eq!(
        pick_category(&scores([20, 20, 0, 0, 0, 0, 10, 0, 0]), 2),
        QueryCategory::Code
    );
}

#[test]
fn ties_go_to_the_lower_precedence_rank() {
    assert_eq!(
        pick_category(&scores([0, 0, 0, 30, 30, 0, 10, 0, 0]), 3),
        QueryCategory::Creative
    );
    assert_eq!(
        pick_category(&scores([0, 0, 0, 0, 0, 0, 10, 0, 10]), 3),
        QueryCategory::Simple
    );
    assert_eq!(
        pick_category(&scores([0, 0, 0, 0, 0, 25, 10, 0, 0]), 3),
        QueryCategory::Translation
    );
}

#[test]
fn empty_scores_fall_back_by_word_count() {
    assert_eq!(pick_category(&scores([0; 9]), 7), QueryCategory::Simple);
    assert_eq!(pick_category(&scores([0; 9]), 8), QueryCategory::Medium);
}

#[test]
fn token_hints_per_category() {
    assert_eq!(QueryCategory::Simple.max_tokens_hint(), 256);
    assert_eq!(QueryCategory::Medium.max_tokens_hint(), 512);
    assert_eq!(QueryCategory::Complex.max_tokens_hint(), 1024);
    assert_eq!(QueryCategory::Code.max_tokens_hint(), 1280);
    assert_eq!(QueryCategory::Math.max_tokens_hint(), 768);
    assert_eq!(QueryCategory::Creative.max_tokens_hint(), 768);
    assert_eq!(QueryCategory::Analytical.max_tokens_hint(), 1024);
    assert_eq!(QueryCategory::Summarization.max_tokens_hint(), 300);
    assert_eq!(QueryCategory::Translation.max_tokens_hint(), 1024);
    let classifier = SmartQueryClassifier::new();
    assert_eq!(classifier.suggest_max_tokens(&QueryCategory::Summarization), 300);
}

#[test]
fn priorities_and_names_per_category() {
    assert_eq!(QueryCategory::Simple.priority(), 1);
    assert_eq!(QueryCategory::Medium.priority(), 2);
    assert_eq!(QueryCategory::Complex.priority(), 3);
    assert_eq!(QueryCategory::Math.priority(), 4);
    assert_eq!(QueryCategory::Creative.priority(), 2);
    assert_eq!(QueryCategory::Analytical.priority(), 3);
    assert_eq!(QueryCategory::Translation.priority(), 2);
    assert_eq!(QueryCategory::Summarization.as_str(), "summarization");
    assert_eq!(QueryCategory::Translation.as_str(), "translation");
    assert_eq!(QueryCategory::Analytical.as_str(), "analytical");
}

#[test]
fn history_is_trimmed_to_192_on_overflow() {
    let mut classifier = SmartQueryClassifier::new();
    for i in 0..256u64 {
        classifier.store(QueryCategory::Simple, i);
    }
    assert_eq!(classifier.sample_count(), 256);
    classifier.store(QueryCategory::Code, 256);
    assert_eq!(classifier.sample_count(), 192);
    let tally = classifier.distribution_snapshot(256);
    assert_eq!(tally.count_of(QueryCategory::Code), 1);
    assert_eq!(tally.count_of(QueryCategory::Simple), 191);
}

#[test]
fn context_window_hint_buckets() {
    let mut classifier = SmartQueryClassifier::new();
    // Nothing was classified: the lowest slot.
    assert_eq!(classifier.context_window_hint(0), 18);
    classifier.store(QueryCategory::Code, 1_000);
    assert_eq!(classifier.context_window_hint(2_000), 48);
    classifier.store(QueryCategory::Simple, 1_500);
    // mean priority 2.5
    assert_eq!(classifier.context_window_hint(2_000), 32);
    classifier.store(QueryCategory::Simple, 1_600);
    classifier.store(QueryCategory::Simple, 1_700);
    // mean priority 1.75
    assert_eq!(classifier.context_window_hint(2_000), 18);
}

#[test]
fn context_window_hint_thresholds_are_exact() {
    // Four of priority 4 and one of priority 1 have the mean 3.4.
    let mut classifier = SmartQueryClassifier::new();
    for _ in 0..4 {
        classifier.store(QueryCategory::Math, 10);
    }
    classifier.store(QueryCategory::Simple, 10);
    assert_eq!(classifier.context_window_hint(20), 48);
    // Two of priority 3 and three of priority 2, with one of 1: mean 13 / 6.
    let mut lower = SmartQueryClassifier::new();
    lower.store(QueryCategory::Complex, 10);
    for _ in 0..4 {
        lower.store(QueryCategory::Medium, 10);
    }
    // mean 11 / 5 = 2.2
    assert_eq!(lower.context_window_hint(20), 32);
    lower.store(QueryCategory::Medium, 10);
    // mean 13 / 6 < 2.2
    assert_eq!(lower.context_window_hint(20), 18);
}

#[test]
fn old_records_do_not_count_for_the_hint() {
    let mut classifier = SmartQueryClassifier::new();
    classifier.store(QueryCategory::Code, 0);
    assert_eq!(classifier.context_window_hint(299_999), 48);
    assert_eq!(classifier.context_window_hint(300_000), 18);
    assert_eq!(classifier.sample_count(), 1);
}

#[test]
fn distribution_covers_fifteen_minutes() {
    let mut classifier = SmartQueryClassifier::new();
    classifier.store(QueryCategory::Code, 0);
    classifier.store(QueryCategory::Math, 500_000);
    classifier.store(QueryCategory::Math, 600_000);
    let early = classifier.distribution_snapshot(899_999);
    assert_eq!(early.count_of(QueryCategory::Code), 1);
    assert_eq!(early.count_of(QueryCategory::Math), 2);
    let late = classifier.distribution_snapshot(900_000);
    assert_eq!(late.count_of(QueryCategory::Code), 0);
    assert_eq!(late.math, 2);
    assert_eq!(late.simple, 0);
}

#[test]
fn tally_leader_prefers_the_first_declared() {
    let mut tally = CategoryTally::zero();
    assert_eq!(tally.leader(), None);
    tally.bump(QueryCategory::Code);
    tally.bump(QueryCategory::Medium);
    assert_eq!(tally.leader(), Some(QueryCategory::Medium));
    tally.bump(QueryCategory::Code);
    assert_eq!(tally.leader(), Some(QueryCategory::Code));
}

#[test]
fn context_window_hint_is_always_one_of_three_slots() {
    let categories = [
        QueryCategory::Simple,
        QueryCategory::Medium,
        QueryCategory::Complex,
        QueryCategory::Code,
        QueryCategory::Math,
        QueryCategory::Creative,
        QueryCategory::Analytical,
        QueryCategory::Summarization,
        QueryCategory::Translation,
    ];
    let mut classifier = SmartQueryClassifier::new();
    for step in 0..300u64 {
        let slots = classifier.context_window_hint(step * 7_000);
        assert!(slots == 18 || slots == 32 || slots == 48);
        classifier.store(categories[(step * step % 9) as usize], step * 7_000);
    }
    let late = classifier.context_window_hint(u64::MAX);
    assert_eq!(late, 18);
}
