//! The action-dispatch engine: navigation, auto-advance, fan-out jobs
//! and the merge dialog, driven through the public dispatcher.

use uniq::action::{Action, Command};
use uniq::app::App;
use uniq::components::merge_dialog::MergeField;
use uniq::merge::BlendRatio;
use uniq::phase::{InputMode, Phase};
use uniq::project::ProjectProfile;
use uniq::research::{Complexity, PaperMeta, PaperSource, TechniqueCard};
use uniq::variant::{Variant, VariantId, VariantStatus};

fn profile() -> ProjectProfile {
    ProjectProfile {
        languages: vec!["Rust".to_string()],
        file_count: 42,
        summary: "a retrieval pipeline".to_string(),
        path: "/work/project".to_string(),
    }
}

fn paper(id: &str, title: &str, pdf: Option<&str>) -> PaperMeta {
    PaperMeta {
        id: id.to_string(),
        title: title.to_string(),
        authors: vec![],
        year: Some(2024),
        published_day: None,
        abstract_text: String::new(),
        citation_count: None,
        url: String::new(),
        pdf_url: pdf.map(|s| s.to_string()),
        doi: None,
        source: PaperSource::SemanticScholar,
        fields: vec![],
        relevance_score: None,
    }
}

fn card(name: &str, paper_id: &str, relevance: u32) -> TechniqueCard {
    TechniqueCard {
        name: name.to_string(),
        paper_id: paper_id.to_string(),
        paper_title: format!("paper {}", paper_id),
        methodology: "do the thing".to_string(),
        key_components: vec![],
        required_data_format: "text".to_string(),
        implementation_complexity: Complexity::Medium,
        hardware_requirements: "none".to_string(),
        dependencies: vec![],
        relevance_score: relevance,
        integration_approach: "wire it in".to_string(),
        selected: false,
    }
}

fn sent_actions(cmds: &[Command]) -> Vec<&Action> {
    cmds.iter()
        .filter_map(|c| match c {
            Command::SendAction(a) => Some(a),
            _ => None,
        })
        .collect()
}

#[test]
fn quit_sets_the_flag_and_nothing_else() {
    let mut app = App::new();
    let cmds = app.dispatch(Action::Quit);
    assert!(app.should_quit);
    assert!(cmds.is_empty());
}

#[test]
fn next_phase_is_suppressed_while_editing() {
    let mut app = App::new();
    // The intake phase starts in text capture, so Next must not steal
    // the keystroke...
    assert_eq!(app.current_input_mode(), InputMode::Editing);
    app.dispatch(Action::NextPhase);
    assert_eq!(app.current_phase, Phase::ProjectIntake);
    // ...but a direct jump still works.
    app.dispatch(Action::GoToPhase(Phase::Benchmarking));
    assert_eq!(app.current_phase, Phase::Benchmarking);
    assert_eq!(app.status_bar.current_phase, Phase::Benchmarking);
}

#[test]
fn prev_phase_stops_at_the_first_phase() {
    let mut app = App::new();
    app.dispatch(Action::GoToPhase(Phase::ResearchDiscovery));
    app.dispatch(Action::PrevPhase);
    assert_eq!(app.current_phase, Phase::ProjectIntake);
    // No wraparound below the first phase; editing mode is active again
    // so Prev is suppressed anyway, and GoTo confirms the phase.
    app.dispatch(Action::PrevPhase);
    assert_eq!(app.current_phase, Phase::ProjectIntake);
}

#[test]
fn help_overlay_toggles_and_any_key_closes_it() {
    let mut app = App::new();
    app.dispatch(Action::ToggleHelp);
    assert!(app.help.visible);
    assert_eq!(app.current_input_mode(), InputMode::Normal);
    app.dispatch(Action::Tick);
    assert!(!app.help.visible);
}

#[test]
fn submit_without_collaborator_reports_failure_through_the_bus() {
    let mut app = App::new();
    let cmds = app.dispatch(Action::SubmitProject {
        path: "/work/project".to_string(),
        description: "add retrieval".to_string(),
    });
    let sent = sent_actions(&cmds);
    assert!(sent
        .iter()
        .any(|a| matches!(a, Action::ProjectAnalysisFailed(m)
            if m == "Sidecar is not running. Cannot analyze project.")));
    assert_eq!(app.user_description, "add retrieval");
}

#[test]
fn submit_with_collaborator_asks_for_analysis() {
    let mut app = App::new();
    app.dispatch(Action::SidecarReady);
    let cmds = app.dispatch(Action::SubmitProject {
        path: "/work/project".to_string(),
        description: "add retrieval".to_string(),
    });
    let analyze = cmds.iter().find_map(|c| match c {
        Command::AnalyzeProject(r) => Some(r),
        _ => None,
    });
    let req = analyze.expect("analysis request");
    assert_eq!(req.path, "/work/project");
    assert_eq!(req.description, "add retrieval");
}

#[test]
fn project_analysis_auto_advances_and_triggers_research() {
    let mut app = App::new();
    app.dispatch(Action::SidecarReady);
    let cmds = app.dispatch(Action::ProjectAnalyzed(Box::new(profile())));
    assert_eq!(app.current_phase, Phase::ResearchDiscovery);
    assert!(app.project_intake.profile.is_some());
    assert!(!app.project_intake.analyzing);
    let sent = sent_actions(&cmds);
    assert!(sent.iter().any(|a| matches!(a, Action::StartResearch)));
}

#[test]
fn research_builds_queries_from_short_prefixes() {
    let mut app = App::new();
    app.dispatch(Action::SidecarReady);
    app.dispatch(Action::SubmitProject {
        path: "/p".to_string(),
        description: "graph attention".to_string(),
    });
    app.dispatch(Action::ProjectAnalyzed(Box::new(profile())));
    let cmds = app.dispatch(Action::StartResearch);
    let reqs = cmds
        .iter()
        .find_map(|c| match c {
            Command::SearchPapers(r) => Some(r),
            _ => None,
        })
        .expect("search requests");
    assert_eq!(reqs.len(), 4);
    assert_eq!(reqs[0].queries, vec!["graph attention".to_string()]);
    assert_eq!(
        reqs[1].queries,
        vec!["graph attention machine learning".to_string()]
    );
    assert_eq!(
        reqs[2].queries,
        vec!["graph attention deep learning".to_string()]
    );
    assert_eq!(reqs[3].queries, vec!["a retrieval pipeline".to_string()]);
    for r in reqs {
        assert_eq!(r.max_results, 20);
        assert_eq!(r.year_min, Some(2020));
        assert!(r.prefer_open_access);
    }
    assert!(app.research_explorer.searching);
}

#[test]
fn extraction_fanout_completes_exactly_once_through_dispatch() {
    // 3 papers submitted to the extraction fan-out; paper #2 has no
    // retrievable source.
    let mut app = App::new();
    app.dispatch(Action::SidecarReady);
    app.dispatch(Action::ProjectAnalyzed(Box::new(profile())));
    let papers = vec![
        paper("p1", "first", Some("https://pdf/1")),
        paper("p2", "second", None),
        paper("p3", "third", Some("https://pdf/3")),
    ];
    let cmds = app.dispatch(Action::StartExtraction(papers));
    assert!(app.technique_cards.extracting);
    assert!(app.technique_cards.extraction_attempted);
    // Paper #2 reports failure immediately, with zero remote calls.
    let calls = cmds
        .iter()
        .find_map(|c| match c {
            Command::ExtractTechniques(calls) => Some(calls),
            _ => None,
        })
        .expect("extraction calls");
    assert_eq!(calls.len(), 2);
    assert!(calls.iter().all(|c| c.paper_id != "p2"));
    let sent = sent_actions(&cmds);
    assert!(sent.iter().any(
        |a| matches!(a, Action::TechniqueExtractionFailed { paper_id, error }
            if paper_id == "p2" && error == "No PDF URL or DOI available")
    ));

    // Reports land while the selection phase is active, as they do
    // when extraction was auto-triggered on entering it.
    app.dispatch(Action::GoToPhase(Phase::TechniqueSelection));
    // Feed the three terminal reports in a scrambled order: the job
    // completes exactly once, after the last report.
    app.dispatch(Action::TechniqueExtractionFailed {
        paper_id: "p2".to_string(),
        error: "No PDF URL or DOI available".to_string(),
    });
    assert!(app.technique_cards.extracting);
    app.dispatch(Action::TechniqueExtracted(Box::new(card("late", "p3", 7000))));
    assert!(app.technique_cards.extracting);
    app.dispatch(Action::TechniqueExtracted(Box::new(card("early", "p1", 9000))));
    // The third terminal report chained ExtractionComplete.
    assert!(!app.technique_cards.extracting);
    let tracker = app.extraction_tracker.as_ref().expect("tracker");
    assert!(tracker.is_completed());
    assert_eq!(tracker.successes(), 2);
    assert_eq!(tracker.failures(), 1);
    // Extraction auto-selected the techniques, best relevance first.
    assert_eq!(app.technique_cards.techniques.len(), 2);
    assert_eq!(app.technique_cards.techniques[0].name, "early");
    assert!(app.technique_cards.techniques[0].selected);
    assert_eq!(
        app.status_bar.message,
        "Extracted 2 techniques. Select and press [Right] to generate variants."
    );
}

#[test]
fn generation_completes_when_every_variant_is_terminal() {
    let mut app = App::new();
    app.dispatch(Action::SidecarReady);
    app.dispatch(Action::ProjectAnalyzed(Box::new(profile())));
    app.dispatch(Action::GoToPhase(Phase::TechniqueSelection));
    app.dispatch(Action::TechniqueExtracted(Box::new(card("one", "p1", 9000))));
    app.dispatch(Action::TechniqueExtracted(Box::new(card("two", "p2", 8000))));
    app.dispatch(Action::ToggleTechnique(0));
    app.dispatch(Action::ToggleTechnique(1));
    let cmds = app.dispatch(Action::StartGeneration);
    assert!(app.variant_builder.generating);
    assert_eq!(app.variant_builder.variants.len(), 2);
    assert_eq!(app.variant_builder.variants[0].id.0, "variant-1");
    assert_eq!(
        app.variant_builder.variants[0].branch_name,
        "uniq/variant-1"
    );
    let calls = cmds
        .iter()
        .find_map(|c| match c {
            Command::GenerateVariants(calls) => Some(calls),
            _ => None,
        })
        .expect("generation calls");
    assert_eq!(calls.len(), 2);
    assert_eq!(calls[0].0, "variant-1");
    assert_eq!(calls[1].1.branch_name, "uniq/variant-2");

    // Reports land while the generation phase is active.
    app.dispatch(Action::GoToPhase(Phase::VariantGeneration));
    // First unit fails: generation keeps running — one unit's failure
    // never aborts its sibling.
    app.dispatch(Action::VariantGenerationFailed {
        variant_id: "variant-1".to_string(),
        error: "patch rejected".to_string(),
    });
    assert!(app.variant_builder.generating);
    assert!(matches!(
        app.variant_builder.variants[0].status,
        VariantStatus::Failed(_)
    ));
    // Second unit succeeds: all variants terminal, completion chains.
    let mut done = Variant::from_technique(2, &card("two", "p2", 8000));
    done.status = VariantStatus::Ready;
    app.dispatch(Action::VariantGenerated(Box::new(done)));
    assert!(!app.variant_builder.generating);
    assert_eq!(
        app.status_bar.message,
        "1/2 variants generated. Press [Right] to benchmark."
    );
}

#[test]
fn benchmark_start_syncs_variants_and_asks_for_both_runs() {
    let mut app = App::new();
    app.dispatch(Action::SidecarReady);
    app.dispatch(Action::SubmitProject {
        path: "/p".to_string(),
        description: "goal".to_string(),
    });
    app.dispatch(Action::ProjectAnalyzed(Box::new(profile())));
    app.dispatch(Action::GoToPhase(Phase::VariantGeneration));
    let mut v = Variant::from_technique(1, &card("one", "p1", 9000));
    v.status = VariantStatus::Ready;
    app.dispatch(Action::VariantGenerated(Box::new(v)));
    let cmds = app.dispatch(Action::StartBenchmark);
    assert!(app.benchmark_dashboard.benchmarking);
    assert_eq!(app.benchmark_dashboard.variants.len(), 1);
    let bench = cmds
        .iter()
        .find_map(|c| match c {
            Command::RunBenchmark(r) => Some(r),
            _ => None,
        })
        .expect("benchmark request");
    assert_eq!(bench.variant_branches, vec!["uniq/variant-1".to_string()]);
    assert_eq!(bench.project_path, "/work/project");
    assert_eq!(bench.timeout_seconds, 300);
    let judge = cmds
        .iter()
        .find_map(|c| match c {
            Command::LlmJudge(r) => Some(r),
            _ => None,
        })
        .expect("judge request");
    assert_eq!(judge.variant_branches, vec!["uniq/variant-1".to_string()]);
    assert_eq!(judge.user_request, "goal");
    // The completion report lands while the benchmarking phase is
    // active.
    app.dispatch(Action::GoToPhase(Phase::Benchmarking));
    app.dispatch(Action::BenchmarkComplete);
    assert!(!app.benchmark_dashboard.benchmarking);
    assert_eq!(app.status_bar.message, "Benchmarking complete!");
}

#[test]
fn merge_dialog_blend_slider_keeps_the_ordinal_inverse_pair() {
    let mut app = App::new();
    app.dispatch(Action::GoToPhase(Phase::VariantGeneration));
    let mut a = Variant::from_technique(1, &card("one", "p1", 9000));
    a.status = VariantStatus::Ready;
    let mut b = Variant::from_technique(2, &card("two", "p2", 8000));
    b.status = VariantStatus::Ready;
    app.dispatch(Action::VariantGenerated(Box::new(a)));
    app.dispatch(Action::VariantGenerated(Box::new(b)));
    app.dispatch(Action::OpenMergeDialog);
    assert!(app.merge_dialog.visible);
    assert_eq!(app.merge_dialog.available_variants.len(), 2);
    // Move focus to the blend slider and step it once.
    app.dispatch(Action::SelectNext);
    app.dispatch(Action::SelectNext);
    assert_eq!(app.merge_dialog.focused, MergeField::BlendSlider);
    app.dispatch(Action::NextPhase);
    assert_eq!(app.merge_dialog.blend_a, BlendRatio::ThreeQuarter);
    assert_eq!(app.merge_dialog.blend_b, BlendRatio::Quarter);
    // Confirm chains a StartMerge carrying the percentages, which asks
    // for the merge call.
    let cmds = app.dispatch(Action::SidecarReady);
    assert!(cmds.is_empty());
    let cmds = app.dispatch(Action::Confirm);
    let merge = cmds
        .iter()
        .find_map(|c| match c {
            Command::MergeVariants {
                variant_id,
                display_name,
                request,
            } => Some((variant_id, display_name, request)),
            _ => None,
        })
        .expect("merge command");
    assert_eq!(merge.0, "merge-3");
    assert_eq!(merge.1, "one + two");
    assert_eq!(merge.2.blend_a, 75);
    assert_eq!(merge.2.blend_b, 25);
    assert_eq!(merge.2.target_branch, "uniq/merge-3");
    assert!(!app.merge_dialog.visible);
}

#[test]
fn merge_dialog_refuses_self_merge() {
    let mut app = App::new();
    app.dispatch(Action::OpenMergeDialog);
    app.merge_dialog.variant_b_idx = 0;
    let _ = app.dispatch(Action::Confirm);
    assert_eq!(app.status_bar.message, "Cannot merge a variant with itself");
    // With distinct indices but fewer than two variants, the other
    // guard answers.
    app.dispatch(Action::OpenMergeDialog);
    app.merge_dialog.variant_b_idx = 1;
    let _ = app.dispatch(Action::Confirm);
    assert_eq!(app.status_bar.message, "Need at least 2 variants to merge");
}

#[test]
fn intake_typing_edits_the_path_and_asks_for_suggestions() {
    let mut app = App::new();
    assert_eq!(app.project_intake.path_input, vec!['~', '/']);
    let cmds = app.dispatch(Action::CharInput('s'));
    assert_eq!(app.project_intake.path_input, vec!['~', '/', 's']);
    assert_eq!(app.project_intake.cursor, 3);
    assert!(cmds
        .iter()
        .any(|c| matches!(c, Command::RefreshSuggestions(p) if p == "~/s")));
    app.dispatch(Action::BackspaceInput);
    assert_eq!(app.project_intake.path_input, vec!['~', '/']);
}

#[test]
fn intake_submit_form_with_empty_description_sets_status() {
    let mut app = App::new();
    app.dispatch(Action::SubmitForm);
    assert_eq!(
        app.status_bar.message,
        "Enter a description of what AI capability to add"
    );
}

#[test]
fn replay_reaches_the_same_state() {
    let script = || {
        vec![
            Action::SidecarReady,
            Action::ProjectAnalyzed(Box::new(profile())),
            Action::GoToPhase(Phase::TechniqueSelection),
            Action::TechniqueExtracted(Box::new(card("one", "p1", 9000))),
            Action::ToggleTechnique(0),
            Action::StartGeneration,
        ]
    };
    let mut a = App::new();
    let cmds_a = a.run_actions(script());
    let mut b = App::new();
    let cmds_b = b.run_actions(script());
    assert_eq!(a.current_phase, b.current_phase);
    assert_eq!(a.status_bar.message, b.status_bar.message);
    assert_eq!(
        a.variant_builder.variants.len(),
        b.variant_builder.variants.len()
    );
    assert_eq!(cmds_a.len(), cmds_b.len());
}
