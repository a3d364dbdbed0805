//! String helpers, configuration defaults, variants and the error
//! taxonomy.

use uniq::benchmark::UserRating;
use uniq::config::{
    default_metrics,
    BenchmarkConfig,
    GenerationConfig,
    SearchConfig,
    UniqConfig,
};
use uniq::error::UniqError;
use uniq::phase::Phase;
use uniq::research::Complexity;
use uniq::text::{chars_of, dec_string, shorten, string_from_chars, truncate};
use uniq::variant::{Variant, VariantId, VariantStatus};

#[test]
fn dec_string_renders_decimals() {
    assert_eq!(dec_string(0), "0");
    assert_eq!(dec_string(7), "7");
    assert_eq!(dec_string(10), "10");
    assert_eq!(dec_string(1234), "1234");
    assert_eq!(dec_string(u64::MAX), "18446744073709551615");
}

#[test]
fn truncate_keeps_short_strings_whole() {
    assert_eq!(truncate("hi", 10), "hi");
    assert_eq!(truncate("exact", 5), "exact");
}

#[test]
fn truncate_marks_long_strings_with_ellipsis() {
    assert_eq!(truncate("hello world", 8), "hello...");
    assert_eq!(truncate("hello", 4), "h...");
}

#[test]
fn truncate_below_the_ellipsis_floor_cuts_plainly() {
    assert_eq!(truncate("hello", 3), "hel");
    assert_eq!(truncate("hello", 0), "");
}

#[test]
fn shorten_cuts_at_the_last_word_boundary() {
    assert_eq!(shorten("alpha beta gamma", 100), "alpha beta gamma");
    // Window of 12 characters: "alpha beta g"; the last space sits
    // after "beta", so the cut lands there.
    assert_eq!(shorten("alpha beta gamma", 12), "alpha beta");
    // No space in the window: a hard cut.
    assert_eq!(shorten("abcdefghij", 4), "abcd");
}

#[test]
fn chars_round_trip_through_strings() {
    let v = chars_of("héllo ~ world");
    assert_eq!(string_from_chars(&v), "héllo ~ world");
    assert_eq!(v.len(), 13);
}

#[test]
fn config_defaults_match_the_documented_values() {
    let c = UniqConfig::default();
    assert_eq!(c.api_keys.anthropic, "");
    assert_eq!(c.search.max_papers, 500);
    assert_eq!(c.search.top_techniques, 10);
    assert_eq!(c.search.year_range, [2015, 2026]);
    assert!(c.search.prefer_open_access);
    assert_eq!(c.generation.claude_model, "sonnet-4-20250514");
    assert_eq!(c.generation.max_tokens_per_variant, 8192);
    assert_eq!(c.benchmark.timeout_seconds, 300);
    assert_eq!(
        c.benchmark.metrics,
        vec!["build_success", "test_pass", "runtime_ms", "memory_mb"]
    );
}

#[test]
fn config_sections_default_independently() {
    assert_eq!(SearchConfig::default().max_papers, 500);
    assert_eq!(GenerationConfig::default().max_tokens_per_variant, 8192);
    assert_eq!(BenchmarkConfig::default().metrics, default_metrics());
}

#[test]
fn error_describe_prefixes_the_class() {
    assert_eq!(
        UniqError::Config("missing key".to_string()).describe(),
        "Configuration error: missing key"
    );
    assert_eq!(
        UniqError::Sidecar("refused".to_string()).describe(),
        "Sidecar communication error: refused"
    );
    assert_eq!(
        UniqError::Serialization("bad json".to_string()).describe(),
        "Serialization error: bad json"
    );
}

#[test]
fn variant_stub_mints_id_and_branch_from_its_position() {
    let card = uniq::research::TechniqueCard {
        name: "low-rank adapters".to_string(),
        paper_id: "p9".to_string(),
        paper_title: "t".to_string(),
        methodology: String::new(),
        key_components: vec![],
        required_data_format: String::new(),
        implementation_complexity: Complexity::Low,
        hardware_requirements: String::new(),
        dependencies: vec![],
        relevance_score: 5000,
        integration_approach: String::new(),
        selected: true,
    };
    let v = Variant::from_technique(3, &card);
    assert_eq!(v.id, VariantId("variant-3".to_string()));
    assert_eq!(v.display_name, "low-rank adapters");
    assert_eq!(v.branch_name, "uniq/variant-3");
    assert_eq!(v.status, VariantStatus::Pending);
    assert!(!v.is_merge());
    assert!(!v.is_terminal());
}

#[test]
fn variant_terminal_states() {
    let card = uniq::research::TechniqueCard {
        name: "x".to_string(),
        paper_id: "p".to_string(),
        paper_title: String::new(),
        methodology: String::new(),
        key_components: vec![],
        required_data_format: String::new(),
        implementation_complexity: Complexity::High,
        hardware_requirements: String::new(),
        dependencies: vec![],
        relevance_score: 0,
        integration_approach: String::new(),
        selected: false,
    };
    let mut v = Variant::from_technique(1, &card);
    v.status = VariantStatus::Generating;
    assert!(!v.is_terminal());
    v.status = VariantStatus::Ready;
    assert!(v.is_terminal() && v.is_ready());
    v.status = VariantStatus::Failed("no branch".to_string());
    assert!(v.is_terminal() && !v.is_ready());
}

#[test]
fn phases_are_totally_ordered_with_labels() {
    let all = Phase::all();
    assert_eq!(all.len(), 5);
    for (i, p) in all.iter().enumerate() {
        assert_eq!(p.index(), i);
    }
    assert_eq!(Phase::ProjectIntake.label(), "1.Intake");
    assert_eq!(Phase::Benchmarking.label(), "5.Benchmark");
    assert_eq!(Phase::ProjectIntake.prev(), None);
    assert_eq!(Phase::Benchmarking.next(), None);
    assert_eq!(
        Phase::ResearchDiscovery.next(),
        Some(Phase::TechniqueSelection)
    );
    assert_eq!(
        Phase::TechniqueSelection.prev(),
        Some(Phase::ResearchDiscovery)
    );
}

#[test]
fn complexity_labels() {
    assert_eq!(Complexity::Low.label(), "Low");
    assert_eq!(Complexity::Medium.label(), "Medium");
    assert_eq!(Complexity::High.label(), "High");
}

#[test]
fn user_rating_holds_stars_and_notes() {
    let r = UserRating {
        stars: 4,
        notes: "solid but slow".to_string(),
    };
    assert_eq!(r.clone(), r);
}
