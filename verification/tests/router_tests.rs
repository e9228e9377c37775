use runtime_governor::audit::{fallback_chain_text, routing_event};
use runtime_governor::governor::{Qos, RuntimePolicy};
use runtime_governor::pressure::{LiveSystemStats, PressureLevel};
use runtime_governor::router::{
    base_max_tokens, default_qos, fallback_chain, infer_task_type, infer_task_type_lowered,
    normalize_qos, normalize_task_type, parse_qos, preview, route, route_resolved, select_index,
    select_model, Model, RoutingPreviewRequest, TaskType,
};

fn model(id: &str, is_default: i64, context_length: i64, tier: &str) -> Model {
    Model {
        id: id.to_string(),
        name: format!("{id}-name"),
        display_name: format!("{id} display"),
        file_path: None,
        is_default,
        context_length,
        performance_tier: tier.to_string(),
    }
}

fn calm() -> LiveSystemStats {
    LiveSystemStats {
        cpu_usage_bp: 1_000,
        memory_used_mb: 1_000,
        memory_total_mb: 16_000,
        process_count: 10,
        gpu_name: None,
        gpu_usage_bp: None,
    }
}

fn ids(selected: Option<Model>) -> Option<String> {
    selected.map(|m| m.id)
}

#[test]
fn nothing_installed_selects_nothing() {
    let decision = route("hello", None, None, false, &RuntimePolicy::default(), &calm(), &[]);
    assert_eq!(decision.selected_model_id, None);
    assert_eq!(decision.selected_model_name, None);
    assert!(decision.fallback_chain.is_empty());
    assert_eq!(decision.task_type, TaskType::Chat);
    assert_eq!(decision.qos, Qos::Balanced);
    assert_eq!(decision.max_tokens, 512);
    assert_eq!(decision.reason, "task=chat, qos=balanced, pressure=normal, fallback=0");
    assert_eq!(select_index(&[], TaskType::Reasoning, Qos::Fast), None);
}

#[test]
fn default_model_serves_balanced_chat() {
    let installed = vec![
        model("a", 0, 4_096, "fast"),
        model("b", 1, 2_048, "balanced"),
        model("c", 1, 8_192, "quality"),
    ];
    assert_eq!(ids(select_model(&installed, TaskType::Chat, Qos::Balanced)), Some("b".into()));
    assert_eq!(select_index(&installed, TaskType::Chat, Qos::Balanced), Some(1));
}

#[test]
fn fast_lane_takes_the_first_fast_model() {
    let installed = vec![
        model("a", 1, 4_096, "balanced"),
        model("b", 0, 2_048, "fast"),
        model("c", 0, 8_192, "fast"),
    ];
    assert_eq!(ids(select_model(&installed, TaskType::Chat, Qos::Fast)), Some("b".into()));
    assert_eq!(ids(select_model(&installed, TaskType::ToolHeavy, Qos::Fast)), Some("b".into()));
    let none_fast = vec![model("a", 0, 4_096, "balanced"), model("b", 1, 2_048, "quality")];
    assert_eq!(ids(select_model(&none_fast, TaskType::Chat, Qos::Fast)), Some("b".into()));
}

#[test]
fn quality_lane_takes_the_longest_context_outside_the_fast_tier() {
    let installed = vec![
        model("a", 1, 4_096, "balanced"),
        model("b", 0, 32_768, "fast"),
        model("c", 0, 8_192, "quality"),
        model("d", 0, 8_192, "balanced"),
        model("e", 0, 1_024, "quality"),
    ];
    // Two share the longest context: the later one is taken.
    assert_eq!(ids(select_model(&installed, TaskType::Chat, Qos::MaxQuality)), Some("d".into()));
    assert_eq!(
        ids(select_model(&installed, TaskType::Reasoning, Qos::Balanced)),
        Some("d".into())
    );
    assert_eq!(select_index(&installed, TaskType::Code, Qos::MaxQuality), Some(3));
}

#[test]
fn selection_falls_back_to_default_or_first() {
    let all_fast = vec![model("a", 0, 4_096, "fast"), model("b", 1, 2_048, "fast")];
    assert_eq!(ids(select_model(&all_fast, TaskType::Code, Qos::MaxQuality)), Some("b".into()));
    let no_default = vec![model("a", 0, 4_096, "balanced"), model("b", 0, 2_048, "quality")];
    assert_eq!(ids(select_model(&no_default, TaskType::Chat, Qos::Balanced)), Some("a".into()));
    assert_eq!(ids(select_model(&no_default, TaskType::Code, Qos::Balanced)), Some("a".into()));
    let with_default = vec![model("a", 0, 4_096, "balanced"), model("b", 1, 2_048, "quality")];
    assert_eq!(ids(select_model(&with_default, TaskType::Code, Qos::Balanced)), Some("b".into()));
    // Only the value 1 marks the default.
    let odd_flag = vec![model("a", 0, 4_096, "balanced"), model("b", 2, 2_048, "quality")];
    assert_eq!(ids(select_model(&odd_flag, TaskType::Chat, Qos::Balanced)), Some("a".into()));
}

#[test]
fn fallback_chain_leaves_out_the_selection() {
    let installed = vec![
        model("a", 0, 1, "x"),
        model("b", 1, 1, "x"),
        model("c", 0, 1, "x"),
        model("d", 0, 1, "x"),
        model("e", 0, 1, "x"),
    ];
    assert_eq!(fallback_chain(&installed, Some("b")), vec!["a", "c", "d"]);
    assert_eq!(fallback_chain(&installed, Some("e")), vec!["a", "b", "c"]);
    assert_eq!(fallback_chain(&installed, Some("zz")), vec!["a", "b", "c"]);
    assert_eq!(fallback_chain(&installed, None), vec!["a", "b", "c"]);
    assert_eq!(fallback_chain(&installed[..2], Some("a")), vec!["b"]);
    assert_eq!(fallback_chain(&installed[..1], Some("a")), Vec::<String>::new());
    let twins = vec![model("a", 0, 1, "x"), model("a", 0, 1, "x"), model("b", 0, 1, "x")];
    assert_eq!(fallback_chain(&twins, Some("a")), vec!["b"]);
}

#[test]
fn routed_chain_never_holds_the_selected_model() {
    let installed = vec![
        model("a", 0, 4_096, "fast"),
        model("b", 1, 2_048, "balanced"),
        model("c", 0, 8_192, "quality"),
        model("d", 0, 8_192, "fast"),
        model("e", 0, 512, "balanced"),
    ];
    let policy = RuntimePolicy::default();
    for task in [
        TaskType::Chat,
        TaskType::Code,
        TaskType::Reasoning,
        TaskType::RetrievalHeavy,
        TaskType::ToolHeavy,
    ] {
        for qos in [Qos::Fast, Qos::Balanced, Qos::MaxQuality] {
            for count in 2..=installed.len() {
                let decision =
                    route_resolved(task, qos, false, &policy, &calm(), &installed[..count]);
                let selected = decision.selected_model_id.clone().unwrap();
                assert!(decision.fallback_chain.len() <= 3);
                assert!(!decision.fallback_chain.contains(&selected));
                assert!(!decision.fallback_chain.is_empty());
            }
        }
    }
}

#[test]
fn task_type_from_the_words_of_a_request() {
    assert_eq!(
        infer_task_type("Debug this Rust function: fn add(a,b) { a+b }"),
        TaskType::Code
    );
    assert_eq!(infer_task_type("There is an ERROR in my tool"), TaskType::Code);
    assert_eq!(infer_task_type("please analyse the numbers"), TaskType::Reasoning);
    assert_eq!(infer_task_type("Compare these documents"), TaskType::Reasoning);
    assert_eq!(infer_task_type("find the source of this quote"), TaskType::RetrievalHeavy);
    assert_eq!(infer_task_type("add it to my calendar"), TaskType::ToolHeavy);
    assert_eq!(infer_task_type("how far can you run"), TaskType::ToolHeavy);
    assert_eq!(infer_task_type("good morning"), TaskType::Chat);
    assert_eq!(infer_task_type(""), TaskType::Chat);
    assert_eq!(infer_task_type_lowered("DEBUG"), TaskType::Chat);
}

#[test]
fn named_task_types_and_lanes() {
    assert_eq!(normalize_task_type("  Code "), TaskType::Code);
    assert_eq!(normalize_task_type("REASONING"), TaskType::Reasoning);
    assert_eq!(normalize_task_type("retrieval_heavy"), TaskType::RetrievalHeavy);
    assert_eq!(normalize_task_type("tool_heavy\n"), TaskType::ToolHeavy);
    assert_eq!(normalize_task_type("chat"), TaskType::Chat);
    assert_eq!(normalize_task_type("poetry"), TaskType::Chat);
    assert_eq!(normalize_task_type("co de"), TaskType::Chat);
    assert_eq!(normalize_qos(" FAST"), Qos::Fast);
    assert_eq!(normalize_qos("Max_Quality"), Qos::MaxQuality);
    assert_eq!(normalize_qos("balanced"), Qos::Balanced);
    assert_eq!(normalize_qos("best"), Qos::Balanced);
    assert_eq!(TaskType::parse("code"), Some(TaskType::Code));
    assert_eq!(TaskType::parse("Code"), None);
    assert_eq!(parse_qos("fast"), Some(Qos::Fast));
    assert_eq!(parse_qos("fast "), None);
    assert_eq!(TaskType::RetrievalHeavy.as_str(), "retrieval_heavy");
    assert_eq!(TaskType::ToolHeavy.as_str(), "tool_heavy");
}

#[test]
fn usual_lane_and_base_tokens_of_each_task_type() {
    assert_eq!(default_qos(TaskType::Reasoning), Qos::MaxQuality);
    assert_eq!(default_qos(TaskType::ToolHeavy), Qos::Fast);
    assert_eq!(default_qos(TaskType::Chat), Qos::Balanced);
    assert_eq!(default_qos(TaskType::Code), Qos::Balanced);
    assert_eq!(default_qos(TaskType::RetrievalHeavy), Qos::Balanced);
    assert_eq!(base_max_tokens(TaskType::Reasoning), 1_024);
    assert_eq!(base_max_tokens(TaskType::Code), 768);
    assert_eq!(base_max_tokens(TaskType::RetrievalHeavy), 640);
    assert_eq!(base_max_tokens(TaskType::ToolHeavy), 384);
    assert_eq!(base_max_tokens(TaskType::Chat), 512);
}

#[test]
fn routing_a_reasoning_request() {
    let installed = vec![
        model("small", 1, 2_048, "fast"),
        model("large", 0, 32_768, "quality"),
        model("mid", 0, 8_192, "balanced"),
    ];
    let mut policy = RuntimePolicy::default();
    policy.interactive_max_tokens = 2_000;
    let decision =
        route("compare the two plans", None, None, false, &policy, &calm(), &installed);
    assert_eq!(decision.task_type, TaskType::Reasoning);
    assert_eq!(decision.qos, Qos::MaxQuality);
    assert_eq!(decision.selected_model_id.as_deref(), Some("large"));
    assert_eq!(decision.selected_model_name.as_deref(), Some("large display"));
    assert_eq!(decision.pressure_level, PressureLevel::Normal);
    assert_eq!(decision.max_tokens, 1_024);
    assert_eq!(decision.fallback_chain, vec!["small", "mid"]);
    assert_eq!(
        decision.reason,
        "task=reasoning, qos=max_quality, pressure=normal, fallback=2"
    );
}

#[test]
fn routing_under_pressure_on_the_background_lane() {
    let installed = vec![model("only", 0, 2_048, "balanced")];
    let policy = RuntimePolicy::default();
    let mut busy = calm();
    busy.cpu_usage_bp = 9_700;
    let decision = route("hello", Some("CODE"), Some("fast"), true, &policy, &busy, &installed);
    assert_eq!(decision.task_type, TaskType::Code);
    assert_eq!(decision.qos, Qos::Fast);
    assert_eq!(decision.pressure_level, PressureLevel::Critical);
    // 256 x 0.72 x 0.40 = 73.7, raised to the floor of 96.
    assert_eq!(decision.max_tokens, 96);
    assert_eq!(decision.selected_model_id.as_deref(), Some("only"));
    assert!(decision.fallback_chain.is_empty());
    assert_eq!(decision.reason, "task=code, qos=fast, pressure=critical, fallback=0");
}

#[test]
fn explicit_values_override_the_words() {
    let policy = RuntimePolicy::default();
    let decision = route("debug this", Some("chat"), None, false, &policy, &calm(), &[]);
    assert_eq!(decision.task_type, TaskType::Chat);
    assert_eq!(decision.qos, Qos::Balanced);
    let decision = route("debug this", Some("unknown"), Some("??"), false, &policy, &calm(), &[]);
    assert_eq!(decision.task_type, TaskType::Chat);
    assert_eq!(decision.qos, Qos::Balanced);
    let decision = route("use a tool", None, None, false, &policy, &calm(), &[]);
    assert_eq!(decision.task_type, TaskType::ToolHeavy);
    assert_eq!(decision.qos, Qos::Fast);
    // 640 x 0.72 = 460.8 leaves the 384 of the task type untouched.
    assert_eq!(decision.max_tokens, 384);
}

#[test]
fn preview_is_the_interactive_route_without_reason() {
    let installed = vec![model("a", 1, 2_048, "balanced"), model("b", 0, 4_096, "fast")];
    let policy = RuntimePolicy::default();
    let shown = preview("refactor this", None, Some("fast"), &policy, &calm(), &installed);
    assert_eq!(shown.reason, "preview");
    assert_eq!(shown.task_type, TaskType::Code);
    assert_eq!(shown.qos, Qos::Fast);
    assert_eq!(shown.selected_model_id.as_deref(), Some("b"));
    assert_eq!(shown.fallback_chain, vec!["a"]);
    // min(768, 640, 461)
    assert_eq!(shown.max_tokens, 461);
    let request = RoutingPreviewRequest {
        user_id: "u".to_string(),
        session_id: None,
        content: "refactor this".to_string(),
        task_type: None,
        qos: Some("fast".to_string()),
    };
    let again = preview(
        &request.content,
        request.task_type.as_deref(),
        request.qos.as_deref(),
        &policy,
        &calm(),
        &installed,
    );
    assert_eq!(again.max_tokens, shown.max_tokens);
    assert_eq!(again.selected_model_id, shown.selected_model_id);
}

#[test]
fn audit_row_of_a_decision() {
    let installed = vec![
        model("m1", 1, 2_048, "balanced"),
        model("m\"2", 0, 4_096, "fast"),
        model("m3", 0, 4_096, "fast"),
    ];
    let policy = RuntimePolicy::default();
    let decision = route("hello", None, None, false, &policy, &calm(), &installed);
    let event = routing_event("user-1", Some("session-9"), &decision);
    assert_eq!(event.user_id, "user-1");
    assert_eq!(event.session_id.as_deref(), Some("session-9"));
    assert_eq!(event.requested_task_type, "chat");
    assert_eq!(event.requested_qos, "balanced");
    assert_eq!(event.selected_model_id.as_deref(), Some("m1"));
    assert_eq!(event.fallback_chain, "[\"m\\\"2\",\"m3\"]");
    assert_eq!(event.pressure_level, "normal");
    assert_eq!(event.max_tokens, 512);
    assert_eq!(event.reason, decision.reason);
    let empty = route("hello", None, None, false, &policy, &calm(), &[]);
    let event = routing_event("user-1", None, &empty);
    assert_eq!(event.session_id, None);
    assert_eq!(event.selected_model_id, None);
    assert_eq!(event.fallback_chain, "[]");
}

#[test]
fn stored_chain_text_of_an_encoder_outcome() {
    assert_eq!(fallback_chain_text(Ok("[\"a\"]".to_string())), "[\"a\"]");
    let failure = serde_json::from_str::<Vec<String>>("not json").unwrap_err();
    assert_eq!(fallback_chain_text(Err(failure)), "[]");
}
