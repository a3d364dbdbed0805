//! The application aggregate and the action-dispatch engine.
//!
//! One logical consumer drains the action bus and calls `dispatch`,
//! which folds the action into the whole application state and answers
//! with the commands the runtime must perform. Chained follow-up
//! actions are dispatched immediately through an explicit bounded
//! trampoline, never an unbounded drain loop. Dispatch is a function
//! of the state and the action alone, so a run is replayable: feed the
//! same action list, reach the same state.

use vstd::prelude::*;
use crate::action::{Action, ActionView, Command, CommandView};
use crate::components::benchmark_dashboard::{
    spec_benchmark_dashboard_step,
    BenchmarkDashboardComponent,
    BenchmarkDashboardView,
};
use crate::components::help::{spec_help_step, HelpComponent, HelpView};
use crate::components::merge_dialog::{
    spec_merge_dialog_step,
    MergeDialogComponent,
    MergeDialogView,
};
use crate::components::project_intake::{
    spec_intake_step,
    ProjectIntakeComponent,
    ProjectIntakeView,
};
use crate::components::research_explorer::{
    spec_research_step,
    ResearchExplorerComponent,
    ResearchExplorerView,
};
use crate::components::status_bar::{spec_status_bar_step, StatusBarComponent, StatusBarView};
use crate::components::technique_cards::{
    spec_selected_count,
    spec_technique_cards_step,
    TechniqueCardsComponent,
    TechniqueCardsView,
};
use crate::components::variant_builder::{
    spec_variant_builder_step,
    VariantBuilderComponent,
    VariantBuilderView,
};
use crate::fanout::{plan_extraction, FanOutTracker, FanOutTrackerView};
use crate::phase::{InputMode, Phase};
use crate::protocol::{
    AnalyzeProjectRequest,
    GenerateVariantRequest,
    GenerateVariantRequestView,
    LlmJudgeRequest,
    MergeVariantsRequest,
    RunBenchmarkRequest,
    SearchPapersRequest,
    SearchPapersRequestView,
};
use crate::research::{clone_papers, clone_strings, TechniqueCard, TechniqueCardView};
use crate::text::{dec_string, shorten, spec_dec, spec_shorten};
use crate::variant::{
    clone_variants,
    spec_from_technique,
    spec_variant_branch,
    spec_variant_ident,
    Variant,
    VariantView,
};

verus! {

/// The aggregate application state: the active phase, cross-cutting
/// fields, and every phase's own state. Exclusively owned and mutated
/// by the dispatcher.
#[derive(Debug)]
pub struct App {
    /// Current active phase.
    pub current_phase: Phase,
    /// Whether the app should exit.
    pub should_quit: bool,
    /// The user's description (saved at project submission).
    pub user_description: String,
    /// Whether the collaborator finished its background startup and
    /// can be called.
    pub sidecar_available: bool,
    /// Completion tracking for the running extraction fan-out, if any.
    pub extraction_tracker: Option<FanOutTracker>,
    pub project_intake: ProjectIntakeComponent,
    pub research_explorer: ResearchExplorerComponent,
    pub technique_cards: TechniqueCardsComponent,
    pub variant_builder: VariantBuilderComponent,
    pub benchmark_dashboard: BenchmarkDashboardComponent,
    pub merge_dialog: MergeDialogComponent,
    pub status_bar: StatusBarComponent,
    pub help: HelpComponent,
}

/// Mathematical image of the whole application.
#[verifier::ext_equal]
pub struct AppView {
    pub current_phase: Phase,
    pub should_quit: bool,
    pub user_description: Seq<char>,
    pub sidecar_available: bool,
    pub extraction_tracker: Option<FanOutTrackerView>,
    pub project_intake: ProjectIntakeView,
    pub research_explorer: ResearchExplorerView,
    pub technique_cards: TechniqueCardsView,
    pub variant_builder: VariantBuilderView,
    pub benchmark_dashboard: BenchmarkDashboardView,
    pub merge_dialog: MergeDialogView,
    pub status_bar: StatusBarView,
    pub help: HelpView,
}

impl DeepView for App {
    type V = AppView;

    open spec fn deep_view(&self) -> AppView {
        AppView {
            current_phase: self.current_phase,
            should_quit: self.should_quit,
            user_description: self.user_description.deep_view(),
            sidecar_available: self.sidecar_available,
            extraction_tracker: self.extraction_tracker.deep_view(),
            project_intake: self.project_intake.deep_view(),
            research_explorer: self.research_explorer.deep_view(),
            technique_cards: self.technique_cards.deep_view(),
            variant_builder: self.variant_builder.deep_view(),
            benchmark_dashboard: self.benchmark_dashboard.deep_view(),
            merge_dialog: self.merge_dialog.deep_view(),
            status_bar: self.status_bar.deep_view(),
            help: self.help.deep_view(),
        }
    }
}

impl AppView {
    /// The application's one structural invariant: a live extraction
    /// tracker is well-formed.
    pub open spec fn wf(self) -> bool {
        match self.extraction_tracker {
            Some(t) => t.wf(),
            None => true,
        }
    }

    /// What input mode should be active: overlays force normal mode,
    /// and only the intake phase captures text, while it still wants
    /// input.
    pub open spec fn spec_input_mode(self) -> InputMode {
        if self.help.visible || self.merge_dialog.visible {
            InputMode::Normal
        } else if self.current_phase is ProjectIntake && self.project_intake.profile is None
            && !self.project_intake.analyzing {
            InputMode::Editing
        } else {
            InputMode::Normal
        }
    }
}

/// The selected technique cards, in order.
pub open spec fn spec_selected_cards(ts: Seq<TechniqueCardView>) -> Seq<TechniqueCardView>
    decreases ts.len(),
{
    if ts.len() == 0 {
        Seq::empty()
    } else {
        let rest = spec_selected_cards(ts.drop_last());
        if ts.last().selected {
            rest.push(ts.last())
        } else {
            rest
        }
    }
}

/// The branch names of the `Ready` variants, in order.
pub open spec fn spec_ready_branches(vs: Seq<VariantView>) -> Seq<Seq<char>>
    decreases vs.len(),
{
    if vs.len() == 0 {
        Seq::empty()
    } else {
        let rest = spec_ready_branches(vs.drop_last());
        if vs.last().status is Ready {
            rest.push(vs.last().branch_name)
        } else {
            rest
        }
    }
}

/// Whether every variant reached a terminal state — the declarative
/// completion recomputation for the generation fan-out.
pub open spec fn spec_all_variants_terminal(vs: Seq<VariantView>) -> bool {
    forall|k: int| 0 <= k < vs.len() ==> (#[trigger] vs[k]).status.is_terminal()
}

/// The start-job action auto-triggered on entering a phase, if its
/// pure precondition over the aggregate state holds and the job was
/// not already attempted this episode.
pub open spec fn spec_auto_trigger(s: AppView, phase: Phase) -> Seq<CommandView> {
    match phase {
        Phase::ResearchDiscovery => {
            if s.project_intake.profile is Some && s.research_explorer.papers.len() == 0
                && !s.research_explorer.searching {
                seq![CommandView::SendAction(ActionView::StartResearch)]
            } else {
                Seq::empty()
            }
        },
        Phase::TechniqueSelection => {
            if s.research_explorer.papers.len() > 0 && s.technique_cards.techniques.len() == 0
                && !s.technique_cards.extracting && !s.technique_cards.extraction_attempted {
                seq![
                    CommandView::SendAction(
                        ActionView::StartExtraction(s.research_explorer.papers),
                    ),
                ]
            } else {
                Seq::empty()
            }
        },
        Phase::VariantGeneration => {
            if spec_selected_count(s.technique_cards.techniques) > 0
                && s.variant_builder.variants.len() == 0 && !s.variant_builder.generating {
                seq![CommandView::SendAction(ActionView::StartGeneration)]
            } else {
                Seq::empty()
            }
        },
        Phase::Benchmarking => {
            let has_ready = exists|k: int|
                0 <= k < s.variant_builder.variants.len() && (#[trigger] s.variant_builder
                    .variants[k]).status is Ready;
            let none_benchmarked = s.benchmark_dashboard.variants.len() == 0 || forall|k: int|
                0 <= k < s.benchmark_dashboard.variants.len() ==> (#[trigger] s
                    .benchmark_dashboard.variants[k]).benchmark_results is None;
            if has_ready && none_benchmarked && !s.benchmark_dashboard.benchmarking {
                seq![CommandView::SendAction(ActionView::StartBenchmark)]
            } else {
                Seq::empty()
            }
        },
        Phase::ProjectIntake => Seq::empty(),
    }
}

impl App {
    /// A fresh application: intake phase active, nothing running.
    pub fn new() -> (r: Self)
        ensures
            r.deep_view().current_phase is ProjectIntake,
            !r.deep_view().should_quit,
            r.deep_view().user_description == Seq::<char>::empty(),
            !r.deep_view().sidecar_available,
            r.deep_view().extraction_tracker is None,
            r.deep_view().wf(),
    {
        App {
            current_phase: Phase::ProjectIntake,
            should_quit: false,
            user_description: String::new(),
            sidecar_available: false,
            extraction_tracker: None,
            project_intake: ProjectIntakeComponent::new(),
            research_explorer: ResearchExplorerComponent::new(),
            technique_cards: TechniqueCardsComponent::new(),
            variant_builder: VariantBuilderComponent::new(),
            benchmark_dashboard: BenchmarkDashboardComponent::new(),
            merge_dialog: MergeDialogComponent::new(),
            status_bar: StatusBarComponent::new(),
            help: HelpComponent::new(),
        }
    }

    /// What input mode should be active right now.
    pub fn current_input_mode(&self) -> (r: InputMode)
        ensures
            r == self.deep_view().spec_input_mode(),
    {
        if self.help.visible || self.merge_dialog.visible {
            InputMode::Normal
        } else {
            match self.current_phase {
                Phase::ProjectIntake => {
                    if self.project_intake.wants_input() {
                        InputMode::Editing
                    } else {
                        InputMode::Normal
                    }
                },
                _ => InputMode::Normal,
            }
        }
    }

    /// The selected technique cards, copied out in order.
    fn selected_cards(&self) -> (r: Vec<TechniqueCard>)
        ensures
            r.deep_view() == spec_selected_cards(self.deep_view().technique_cards.techniques),
    {
        let ghost ts = self.deep_view().technique_cards.techniques;
        let mut r: Vec<TechniqueCard> = Vec::new();
        let n = self.technique_cards.techniques.len();
        let mut i: usize = 0;
        while i < n
            invariant
                i <= n,
                n == self.technique_cards.techniques@.len(),
                ts == self.deep_view().technique_cards.techniques,
                r.deep_view() =~= spec_selected_cards(ts.take(i as int)),
            decreases n - i,
        {
            proof {
                assert(ts.take(i + 1).drop_last() =~= ts.take(i as int));
            }
            if self.technique_cards.techniques[i].selected {
                let ghost prev = r.deep_view();
                let c = self.technique_cards.techniques[i].clone();
                let ghost cv = c.deep_view();
                proof {
                    assert(cv =~= ts[i as int]);
                }
                r.push(c);
                proof {
                    assert(r.deep_view() =~= prev.push(ts[i as int]));
                }
            }
            i = i + 1;
            proof {
                assert(r.deep_view() =~= spec_selected_cards(ts.take(i as int)));
            }
        }
        proof {
            assert(ts.take(n as int) =~= ts);
        }
        r
    }

    /// The branch names of the `Ready` variants, copied out in order.
    fn ready_branches(&self) -> (r: Vec<String>)
        ensures
            r.deep_view() == spec_ready_branches(self.deep_view().variant_builder.variants),
    {
        let ghost vs = self.deep_view().variant_builder.variants;
        let mut r: Vec<String> = Vec::new();
        let n = self.variant_builder.variants.len();
        let mut i: usize = 0;
        while i < n
            invariant
                i <= n,
                n == self.variant_builder.variants@.len(),
                vs == self.deep_view().variant_builder.variants,
                r.deep_view() =~= spec_ready_branches(vs.take(i as int)),
            decreases n - i,
        {
            proof {
                assert(vs.take(i + 1).drop_last() =~= vs.take(i as int));
            }
            if self.variant_builder.variants[i].is_ready() {
                let ghost prev = r.deep_view();
                let b = self.variant_builder.variants[i].branch_name.clone();
                r.push(b);
                proof {
                    assert(r.deep_view() =~= prev.push(vs[i as int].branch_name));
                }
            }
            i = i + 1;
            proof {
                assert(r.deep_view() =~= spec_ready_branches(vs.take(i as int)));
            }
        }
        proof {
            assert(vs.take(n as int) =~= vs);
        }
        r
    }

    /// Recompute, over the live collection, whether every variant is
    /// terminal.
    fn variants_all_terminal(&self) -> (r: bool)
        ensures
            r == spec_all_variants_terminal(self.deep_view().variant_builder.variants),
    {
        let n = self.variant_builder.variants.len();
        let mut i: usize = 0;
        while i < n
            invariant
                i <= n,
                n == self.variant_builder.variants@.len(),
                forall|k: int|
                    0 <= k < i ==> (#[trigger] self.deep_view().variant_builder.variants[
                        k
                    ]).status.is_terminal(),
            decreases n - i,
        {
            if !self.variant_builder.variants[i].is_terminal() {
                proof {
                    assert(!self.deep_view().variant_builder.variants[i as int]
                        .status.is_terminal());
                }
                return false;
            }
            i = i + 1;
        }
        true
    }

    /// Evaluate a phase's auto-trigger and queue its start-job action
    /// at most once per entry episode.
    fn auto_trigger_commands(&self, phase: Phase) -> (r: Vec<Command>)
        ensures
            r.deep_view() == spec_auto_trigger(self.deep_view(), phase),
    {
        let mut r: Vec<Command> = Vec::new();
        match phase {
            Phase::ResearchDiscovery => {
                if self.project_intake.profile.is_some()
                    && self.research_explorer.papers.len() == 0
                    && !self.research_explorer.searching {
                    r.push(Command::SendAction(Action::StartResearch));
                }
            },
            Phase::TechniqueSelection => {
                if self.research_explorer.papers.len() > 0
                    && self.technique_cards.techniques.len() == 0
                    && !self.technique_cards.extracting
                    && !self.technique_cards.extraction_attempted {
                    let papers = clone_papers(&self.research_explorer.papers);
                    r.push(Command::SendAction(Action::StartExtraction(papers)));
                }
            },
            Phase::VariantGeneration => {
                if self.technique_cards.selected_count() > 0
                    && self.variant_builder.variants.len() == 0
                    && !self.variant_builder.generating {
                    r.push(Command::SendAction(Action::StartGeneration));
                }
            },
            Phase::Benchmarking => {
                let mut has_ready = false;
                let n = self.variant_builder.variants.len();
                let mut i: usize = 0;
                while i < n
                    invariant
                        i <= n,
                        n == self.variant_builder.variants@.len(),
                        has_ready <==> exists|k: int|
                            0 <= k < i && (#[trigger] self.deep_view().variant_builder.variants[
                                k
                            ]).status is Ready,
                    decreases n - i,
                {
                    if self.variant_builder.variants[i].is_ready() {
                        proof {
                            assert(self.deep_view().variant_builder.variants[i as int]
                                .status is Ready);
                        }
                        has_ready = true;
                    }
                    i = i + 1;
                }
                let mut none_benchmarked = true;
                let m = self.benchmark_dashboard.variants.len();
                let mut j: usize = 0;
                while j < m
                    invariant
                        j <= m,
                        m == self.benchmark_dashboard.variants@.len(),
                        none_benchmarked <==> forall|k: int|
                            0 <= k < j ==> (#[trigger] self.deep_view().benchmark_dashboard
                                .variants[k]).benchmark_results is None,
                    decreases m - j,
                {
                    if self.benchmark_dashboard.variants[j].benchmark_results.is_some() {
                        proof {
                            assert(!(self.deep_view().benchmark_dashboard.variants[j as int]
                                .benchmark_results is None));
                        }
                        none_benchmarked = false;
                    }
                    j = j + 1;
                }
                let none_benchmarked = m == 0 || none_benchmarked;
                if has_ready && none_benchmarked && !self.benchmark_dashboard.benchmarking {
                    r.push(Command::SendAction(Action::StartBenchmark));
                }
            },
            Phase::ProjectIntake => {},
        }
        proof {
            assert(r.deep_view() =~= spec_auto_trigger(self.deep_view(), phase));
        }
        r
    }
}

/// The summary of the analyzed project, or nothing before analysis.
pub open spec fn spec_profile_summary(s: AppView) -> Seq<char> {
    match s.project_intake.profile {
        Some(p) => p.summary,
        None => Seq::empty(),
    }
}

/// Project submission: the description is saved, then analysis is
/// asked of the collaborator — or, without a live collaborator, the
/// failure is reported through the bus at once.
pub open spec fn spec_handle_submit(s: AppView, path: Seq<char>, description: Seq<char>) -> (
    AppView,
    Seq<CommandView>,
) {
    let s1 = AppView { user_description: description, ..s };
    if !s.sidecar_available {
        (
            s1,
            seq![
                CommandView::SendAction(
                    ActionView::ProjectAnalysisFailed(
                        "Sidecar is not running. Cannot analyze project."@,
                    ),
                ),
            ],
        )
    } else {
        (
            s1,
            seq![
                CommandView::SendAction(ActionView::SetStatus("Analyzing project..."@)),
                CommandView::AnalyzeProject(
                    crate::protocol::AnalyzeProjectRequestView { path, description },
                ),
            ],
        )
    }
}

/// The search queries built from the user's description and the
/// project summary: short focused prefixes rather than whole texts.
pub open spec fn spec_search_requests(s: AppView) -> Seq<SearchPapersRequestView> {
    let sd = spec_shorten(s.user_description, 120);
    let ss = spec_shorten(spec_profile_summary(s), 120);
    let queries = seq![sd, sd + " machine learning"@, sd + " deep learning"@, ss];
    Seq::new(
        queries.len(),
        |i: int| SearchPapersRequestView {
            queries: seq![queries[i]],
            max_results: 20usize,
            year_min: Some(2020u16),
            year_max: None,
            prefer_open_access: true,
        },
    )
}

/// Research start: at most one search runs at a time; the search
/// requests are built from the saved description and profile summary.
pub open spec fn spec_handle_start_research(s: AppView) -> (AppView, Seq<CommandView>) {
    if s.research_explorer.searching {
        (s, Seq::empty())
    } else {
        let s1 = AppView {
            research_explorer: ResearchExplorerView { searching: true, ..s.research_explorer },
            ..s
        };
        if !s.sidecar_available {
            (
                s1,
                seq![
                    CommandView::SendAction(
                        ActionView::ResearchFailed("Sidecar is not running."@),
                    ),
                ],
            )
        } else {
            (
                s1,
                seq![
                    CommandView::SendAction(ActionView::SetStatus("Searching for papers..."@)),
                    CommandView::SearchPapers(spec_search_requests(s)),
                ],
            )
        }
    }
}

/// Extraction start: the batch is split into remote calls and
/// immediate precondition failures, a fresh fan-out tracker takes the
/// units, and one task per retrievable paper is asked for.
pub open spec fn spec_handle_start_extraction(
    s: AppView,
    papers: Seq<crate::research::PaperMetaView>,
) -> (AppView, Seq<CommandView>) {
    if s.technique_cards.extracting {
        (s, Seq::empty())
    } else {
        let s1 = AppView {
            technique_cards: TechniqueCardsView {
                extracting: true,
                extraction_attempted: true,
                progress: (0usize, papers.len() as usize),
                ..s.technique_cards
            },
            ..s
        };
        if !s.sidecar_available {
            (
                s1,
                seq![
                    CommandView::SendAction(
                        ActionView::TechniqueExtractionFailed {
                            paper_id: "all"@,
                            error: "Sidecar is not running."@,
                        },
                    ),
                ],
            )
        } else {
            let summary = spec_profile_summary(s);
            let calls = crate::fanout::spec_extraction_calls(papers, summary, s.user_description);
            let fails = crate::fanout::spec_precondition_failures(papers);
            let ids = crate::fanout::spec_dedup(crate::fanout::spec_paper_ids(papers));
            let tracker = FanOutTrackerView {
                unit_ids: ids,
                terminal: Seq::new(ids.len(), |k: int| false),
                successes: 0,
                failures: 0,
                completed: false,
            };
            let s2 = AppView { extraction_tracker: Some(tracker), ..s1 };
            let msg = "Extracting techniques from "@ + spec_dec(papers.len() as int)
                + " papers..."@;
            let cmds = seq![CommandView::SendAction(ActionView::SetStatus(msg))] + Seq::new(
                fails.len(),
                |i: int| CommandView::SendAction(
                    ActionView::TechniqueExtractionFailed {
                        paper_id: fails[i].0,
                        error: fails[i].1,
                    },
                ),
            ) + seq![CommandView::ExtractTechniques(calls)];
            (s2, cmds)
        }
    }
}

/// Generation start: one pending variant stub per selected technique
/// is appended, and one generation call per stub is asked for.
pub open spec fn spec_handle_start_generation(s: AppView) -> (AppView, Seq<CommandView>) {
    if s.variant_builder.generating {
        (s, Seq::empty())
    } else if !s.sidecar_available {
        (
            s,
            seq![
                CommandView::SendAction(
                    ActionView::VariantGenerationFailed {
                        variant_id: "all"@,
                        error: "Sidecar is not running."@,
                    },
                ),
            ],
        )
    } else if s.project_intake.profile is None {
        (
            s,
            seq![
                CommandView::SendAction(
                    ActionView::SetStatus("No project profile — analyze a project first."@),
                ),
            ],
        )
    } else {
        let sel = spec_selected_cards(s.technique_cards.techniques);
        if sel.len() == 0 {
            (
                s,
                seq![
                    CommandView::SendAction(
                        ActionView::SetStatus(
                            "No techniques selected. Go back to Phase 3 and select some."@,
                        ),
                    ),
                ],
            )
        } else {
            let stubs = Seq::new(sel.len(), |i: int| spec_from_technique(i + 1, sel[i].name));
            let s1 = AppView {
                variant_builder: VariantBuilderView {
                    generating: true,
                    variants: s.variant_builder.variants + stubs,
                    ..s.variant_builder
                },
                ..s
            };
            let profile = s.project_intake.profile.unwrap();
            let calls = Seq::new(
                sel.len(),
                |i: int| (
                    spec_variant_ident(i + 1),
                    GenerateVariantRequestView {
                        technique: sel[i],
                        project: profile,
                        branch_name: spec_variant_branch(i + 1),
                    },
                ),
            );
            let msg = "Generating "@ + spec_dec(sel.len() as int) + " variants..."@;
            (
                s1,
                seq![
                    CommandView::SendAction(ActionView::SetStatus(msg)),
                    CommandView::GenerateVariants(calls),
                ],
            )
        }
    }
}

/// Benchmark start: the live variants are synced into the dashboard,
/// and the execution benchmark and the judge are asked for in
/// parallel over the ready branches.
pub open spec fn spec_handle_start_benchmark(s: AppView) -> (AppView, Seq<CommandView>) {
    if s.benchmark_dashboard.benchmarking {
        (s, Seq::empty())
    } else if !s.sidecar_available {
        (s, seq![CommandView::SendAction(ActionView::SetStatus("Sidecar is not running."@))])
    } else if s.project_intake.profile is None {
        (s, seq![CommandView::SendAction(ActionView::SetStatus("No project path available."@))])
    } else {
        let s1 = AppView {
            benchmark_dashboard: BenchmarkDashboardView {
                variants: s.variant_builder.variants,
                benchmarking: true,
                ..s.benchmark_dashboard
            },
            ..s
        };
        let branches = spec_ready_branches(s.variant_builder.variants);
        if branches.len() == 0 {
            (
                AppView {
                    benchmark_dashboard: BenchmarkDashboardView {
                        benchmarking: false,
                        ..s1.benchmark_dashboard
                    },
                    ..s1
                },
                seq![
                    CommandView::SendAction(
                        ActionView::SetStatus("No ready variants to benchmark."@),
                    ),
                ],
            )
        } else {
            let path = s.project_intake.profile.unwrap().path;
            let msg = "Running benchmarks on "@ + spec_dec(branches.len() as int)
                + " variants..."@;
            (
                s1,
                seq![
                    CommandView::SendAction(ActionView::SetStatus(msg)),
                    CommandView::RunBenchmark(
                        crate::protocol::RunBenchmarkRequestView {
                            variant_branches: branches,
                            project_path: path,
                            metrics: Seq::empty(),
                            timeout_seconds: 300u64,
                        },
                    ),
                    CommandView::LlmJudge(
                        crate::protocol::LlmJudgeRequestView {
                            variant_branches: branches,
                            project_path: path,
                            user_request: s.user_description,
                        },
                    ),
                ],
            )
        }
    }
}

/// Merge start: both parents are looked up among the live variants, a
/// fresh id and target branch are minted, and the merge call is asked
/// for.
pub open spec fn spec_handle_start_merge(
    s: AppView,
    a_id: Seq<char>,
    b_id: Seq<char>,
    blend_a: u8,
    blend_b: u8,
) -> (AppView, Seq<CommandView>) {
    if !s.sidecar_available {
        (s, seq![CommandView::SendAction(ActionView::MergeFailed("Sidecar is not running."@))])
    } else {
        let fa = crate::components::variant_builder::spec_find_variant(
            s.variant_builder.variants,
            a_id,
        );
        let fb = crate::components::variant_builder::spec_find_variant(
            s.variant_builder.variants,
            b_id,
        );
        if fa < 0 || fb < 0 {
            (s, seq![CommandView::SendAction(ActionView::MergeFailed("Merge source not found"@))])
        } else {
            let va = s.variant_builder.variants[fa];
            let vb = s.variant_builder.variants[fb];
            let n = s.variant_builder.variants.len() as int;
            let nn = if n < usize::MAX {
                n + 1
            } else {
                n
            };
            let vid = "merge-"@ + spec_dec(nn);
            let target = "uniq/merge-"@ + spec_dec(nn);
            let display = va.display_name + " + "@ + vb.display_name;
            (
                s,
                seq![
                    CommandView::MergeVariants {
                        variant_id: vid,
                        display_name: display,
                        request: crate::protocol::MergeVariantsRequestView {
                            variant_a_branch: va.branch_name,
                            variant_a_technique: va.display_name,
                            variant_b_branch: vb.branch_name,
                            variant_b_technique: vb.display_name,
                            blend_a,
                            blend_b,
                            target_branch: target,
                        },
                    },
                ],
            )
        }
    }
}

/// The merge dialog's selectable list rebuilt from the live variants.
pub open spec fn spec_open_merge_dialog(s: AppView) -> AppView {
    AppView {
        merge_dialog: MergeDialogView {
            available_variants: Seq::new(
                s.variant_builder.variants.len(),
                |i: int| (
                    s.variant_builder.variants[i].id,
                    s.variant_builder.variants[i].display_name,
                ),
            ),
            ..s.merge_dialog
        },
        ..s
    }
}

impl App {
    fn profile_summary(&self) -> (r: String)
        ensures
            r@ == spec_profile_summary(self.deep_view()),
    {
        match &self.project_intake.profile {
            Some(p) => p.summary.clone(),
            None => String::new(),
        }
    }

    fn handle_submit_project(&mut self, path: &String, description: &String) -> (cmds: Vec<
        Command,
    >)
        ensures
            final(self).deep_view() == spec_handle_submit(
                old(self).deep_view(),
                path@,
                description@,
            ).0,
            cmds.deep_view() == spec_handle_submit(old(self).deep_view(), path@, description@).1,
    {
        let ghost pre = self.deep_view();
        self.user_description = description.clone();
        let mut cmds: Vec<Command> = Vec::new();
        if !self.sidecar_available {
            cmds.push(
                Command::SendAction(
                    Action::ProjectAnalysisFailed(
                        "Sidecar is not running. Cannot analyze project.".to_owned(),
                    ),
                ),
            );
        } else {
            cmds.push(
                Command::SendAction(Action::SetStatus("Analyzing project...".to_owned())),
            );
            cmds.push(
                Command::AnalyzeProject(
                    AnalyzeProjectRequest { path: path.clone(), description: description.clone() },
                ),
            );
        }
        proof {
            assert(self.deep_view() =~= spec_handle_submit(pre, path@, description@).0);
            assert(cmds.deep_view() =~= spec_handle_submit(pre, path@, description@).1);
        }
        cmds
    }

    fn handle_start_research(&mut self) -> (cmds: Vec<Command>)
        ensures
            final(self).deep_view() == spec_handle_start_research(old(self).deep_view()).0,
            cmds.deep_view() == spec_handle_start_research(old(self).deep_view()).1,
    {
        let ghost pre = self.deep_view();
        let mut cmds: Vec<Command> = Vec::new();
        if self.research_explorer.searching {
            proof {
                assert(self.deep_view() =~= spec_handle_start_research(pre).0);
                assert(cmds.deep_view() =~= spec_handle_start_research(pre).1);
            }
            return cmds;
        }
        self.research_explorer.searching = true;
        if !self.sidecar_available {
            cmds.push(
                Command::SendAction(Action::ResearchFailed("Sidecar is not running.".to_owned())),
            );
        } else {
            let summary = self.profile_summary();
            let short_desc = shorten(self.user_description.as_str(), 120);
            let short_summary = shorten(summary.as_str(), 120);
            let mut q2 = short_desc.clone();
            q2.append(" machine learning");
            let mut q3 = short_desc.clone();
            q3.append(" deep learning");
            let mut queries: Vec<String> = Vec::new();
            queries.push(short_desc);
            queries.push(q2);
            queries.push(q3);
            queries.push(short_summary);
            let mut requests: Vec<SearchPapersRequest> = Vec::new();
            let mut i: usize = 0;
            while i < queries.len()
                invariant
                    i <= queries@.len(),
                    requests.deep_view() =~= Seq::new(
                        i as nat,
                        |k: int| SearchPapersRequestView {
                            queries: seq![queries.deep_view()[k]],
                            max_results: 20usize,
                            year_min: Some(2020u16),
                            year_max: None,
                            prefer_open_access: true,
                        },
                    ),
                decreases queries@.len() - i,
            {
                let ghost prev = requests.deep_view();
                let ghost prevraw = requests@;
                let mut one: Vec<String> = Vec::new();
                one.push(queries[i].clone());
                let req = SearchPapersRequest {
                    queries: one,
                    max_results: 20,
                    year_min: Some(2020),
                    year_max: None,
                    prefer_open_access: true,
                };
                let ghost rv = req.deep_view();
                proof {
                    assert(rv.queries =~= seq![queries.deep_view()[i as int]]);
                }
                requests.push(req);
                i = i + 1;
                proof {
                    assert(requests@ =~= prevraw.push(requests@[prevraw.len() as int]));
                    assert(prev.len() == prevraw.len());
                    assert(prevraw.len() == i - 1);
                    assert(requests.deep_view().len() == i);
                    assert forall|k: int| 0 <= k < i implies requests.deep_view()[k]
                        =~= (Seq::new(
                        i as nat,
                        |x: int| SearchPapersRequestView {
                            queries: seq![queries.deep_view()[x]],
                            max_results: 20usize,
                            year_min: Some(2020u16),
                            year_max: None,
                            prefer_open_access: true,
                        },
                    ))[k] by {
                        if k < i - 1 {
                            assert(requests.deep_view()[k] == prev[k]);
                        } else {
                            assert(requests.deep_view()[k] == rv);
                        }
                    }
                    assert(requests.deep_view() =~= Seq::new(
                        i as nat,
                        |k: int| SearchPapersRequestView {
                            queries: seq![queries.deep_view()[k]],
                            max_results: 20usize,
                            year_min: Some(2020u16),
                            year_max: None,
                            prefer_open_access: true,
                        },
                    ));
                }
            }
            proof {
                assert(queries.deep_view() =~= seq![
                    spec_shorten(pre.user_description, 120),
                    spec_shorten(pre.user_description, 120) + " machine learning"@,
                    spec_shorten(pre.user_description, 120) + " deep learning"@,
                    spec_shorten(spec_profile_summary(pre), 120),
                ]);
                assert(requests.deep_view() =~= spec_search_requests(pre));
            }
            cmds.push(
                Command::SendAction(Action::SetStatus("Searching for papers...".to_owned())),
            );
            cmds.push(Command::SearchPapers(requests));
        }
        proof {
            assert(self.deep_view() =~= spec_handle_start_research(pre).0);
            assert(cmds.deep_view() =~= spec_handle_start_research(pre).1);
        }
        cmds
    }

    fn handle_start_extraction(&mut self, papers: &Vec<crate::research::PaperMeta>) -> (cmds: Vec<
        Command,
    >)
        requires
            old(self).deep_view().wf(),
        ensures
            final(self).deep_view() == spec_handle_start_extraction(
                old(self).deep_view(),
                papers.deep_view(),
            ).0,
            cmds.deep_view() == spec_handle_start_extraction(
                old(self).deep_view(),
                papers.deep_view(),
            ).1,
            final(self).deep_view().wf(),
    {
        let ghost pre = self.deep_view();
        let ghost pv = papers.deep_view();
        let mut cmds: Vec<Command> = Vec::new();
        if self.technique_cards.extracting {
            proof {
                assert(self.deep_view() =~= spec_handle_start_extraction(pre, pv).0);
                assert(cmds.deep_view() =~= spec_handle_start_extraction(pre, pv).1);
            }
            return cmds;
        }
        self.technique_cards.extracting = true;
        self.technique_cards.extraction_attempted = true;
        self.technique_cards.progress = (0, papers.len());
        if !self.sidecar_available {
            cmds.push(
                Command::SendAction(
                    Action::TechniqueExtractionFailed {
                        paper_id: "all".to_owned(),
                        error: "Sidecar is not running.".to_owned(),
                    },
                ),
            );
        } else {
            let summary = self.profile_summary();
            let plan = plan_extraction(papers, &summary, &self.user_description);
            let tracker = FanOutTracker::new(plan.unit_ids);
            proof {
                let spec_tracker = FanOutTrackerView {
                    unit_ids: crate::fanout::spec_dedup(crate::fanout::spec_paper_ids(pv)),
                    terminal: Seq::new(
                        crate::fanout::spec_dedup(crate::fanout::spec_paper_ids(pv)).len(),
                        |k: int| false,
                    ),
                    successes: 0,
                    failures: 0,
                    completed: false,
                };
                assert(tracker.deep_view() =~= spec_tracker);
            }
            self.extraction_tracker = Some(tracker);
            let mut msg = "Extracting techniques from ".to_owned();
            let cnt = dec_string(papers.len() as u64);
            msg.append(cnt.as_str());
            msg.append(" papers...");
            cmds.push(Command::SendAction(Action::SetStatus(msg)));
            let ghost base = cmds.deep_view();
            let mut fi: usize = 0;
            let fails = plan.precondition_failures;
            while fi < fails.len()
                invariant
                    fi <= fails@.len(),
                    fails.deep_view() == crate::fanout::spec_precondition_failures(pv),
                    cmds.deep_view() =~= base + Seq::new(
                        fi as nat,
                        |i: int| CommandView::SendAction(
                            ActionView::TechniqueExtractionFailed {
                                paper_id: fails.deep_view()[i].0,
                                error: fails.deep_view()[i].1,
                            },
                        ),
                    ),
                decreases fails@.len() - fi,
            {
                let ghost prev = cmds.deep_view();
                let ghost prevraw = cmds@;
                let entry = Command::SendAction(
                    Action::TechniqueExtractionFailed {
                        paper_id: fails[fi].0.clone(),
                        error: fails[fi].1.clone(),
                    },
                );
                let ghost ev = entry.deep_view();
                proof {
                    assert(ev == CommandView::SendAction(
                        ActionView::TechniqueExtractionFailed {
                            paper_id: fails.deep_view()[fi as int].0,
                            error: fails.deep_view()[fi as int].1,
                        },
                    ));
                }
                cmds.push(entry);
                fi = fi + 1;
                proof {
                    assert(cmds@ =~= prevraw.push(cmds@[prevraw.len() as int]));
                    assert(prev.len() == prevraw.len());
                    assert(cmds.deep_view().len() == prevraw.len() + 1);
                    assert forall|k: int| 0 <= k < cmds.deep_view().len() implies cmds.deep_view()[
                        k
                    ] == (base + Seq::new(
                        fi as nat,
                        |i: int| CommandView::SendAction(
                            ActionView::TechniqueExtractionFailed {
                                paper_id: fails.deep_view()[i].0,
                                error: fails.deep_view()[i].1,
                            },
                        ),
                    ))[k] by {
                        if k < cmds.deep_view().len() - 1 {
                            assert(cmds.deep_view()[k] == prev[k]);
                        } else {
                            assert(cmds.deep_view()[k] == ev);
                        }
                    }
                    assert(cmds.deep_view() =~= base + Seq::new(
                        fi as nat,
                        |i: int| CommandView::SendAction(
                            ActionView::TechniqueExtractionFailed {
                                paper_id: fails.deep_view()[i].0,
                                error: fails.deep_view()[i].1,
                            },
                        ),
                    ));
                }
            }
            let ghost prevall = cmds.deep_view();
            let ghost prevallraw = cmds@;
            let ghost callsv = plan.calls.deep_view();
            cmds.push(Command::ExtractTechniques(plan.calls));
            proof {
                assert(cmds@ =~= prevallraw.push(cmds@[prevallraw.len() as int]));
                assert(prevall.len() == prevallraw.len());
                assert(cmds.deep_view().len() == prevall.len() + 1);
                assert forall|k: int| 0 <= k < cmds.deep_view().len() implies cmds.deep_view()[k]
                    == prevall.push(CommandView::ExtractTechniques(callsv))[k] by {
                    if k < cmds.deep_view().len() - 1 {
                        assert(cmds.deep_view()[k] == prevall[k]);
                    } else {
                        assert(cmds.deep_view()[k] == CommandView::ExtractTechniques(callsv));
                    }
                }
                assert(cmds.deep_view() =~= prevall.push(
                    CommandView::ExtractTechniques(callsv),
                ));
            }
        }
        proof {
            assert(self.deep_view() =~= spec_handle_start_extraction(pre, pv).0);
            assert(cmds.deep_view() =~= spec_handle_start_extraction(pre, pv).1);
        }
        cmds
    }

    fn handle_start_generation(&mut self) -> (cmds: Vec<Command>)
        ensures
            final(self).deep_view() == spec_handle_start_generation(old(self).deep_view()).0,
            cmds.deep_view() == spec_handle_start_generation(old(self).deep_view()).1,
    {
        let ghost pre = self.deep_view();
        let mut cmds: Vec<Command> = Vec::new();
        if self.variant_builder.generating {
            proof {
                assert(self.deep_view() =~= spec_handle_start_generation(pre).0);
                assert(cmds.deep_view() =~= spec_handle_start_generation(pre).1);
            }
            return cmds;
        }
        if !self.sidecar_available {
            cmds.push(
                Command::SendAction(
                    Action::VariantGenerationFailed {
                        variant_id: "all".to_owned(),
                        error: "Sidecar is not running.".to_owned(),
                    },
                ),
            );
            proof {
                assert(self.deep_view() =~= spec_handle_start_generation(pre).0);
                assert(cmds.deep_view() =~= spec_handle_start_generation(pre).1);
            }
            return cmds;
        }
        let profile = match &self.project_intake.profile {
            Some(p) => p.clone(),
            None => {
                cmds.push(
                    Command::SendAction(
                        Action::SetStatus(
                            "No project profile — analyze a project first.".to_owned(),
                        ),
                    ),
                );
                proof {
                    assert(self.deep_view() =~= spec_handle_start_generation(pre).0);
                    assert(cmds.deep_view() =~= spec_handle_start_generation(pre).1);
                }
                return cmds;
            },
        };
        let sel = self.selected_cards();
        if sel.len() == 0 {
            cmds.push(
                Command::SendAction(
                    Action::SetStatus(
                        "No techniques selected. Go back to Phase 3 and select some.".to_owned(),
                    ),
                ),
            );
            proof {
                assert(self.deep_view() =~= spec_handle_start_generation(pre).0);
                assert(cmds.deep_view() =~= spec_handle_start_generation(pre).1);
            }
            return cmds;
        }
        self.variant_builder.generating = true;
        let mut msg = "Generating ".to_owned();
        let cnt = dec_string(sel.len() as u64);
        msg.append(cnt.as_str());
        msg.append(" variants...");
        cmds.push(Command::SendAction(Action::SetStatus(msg)));
        let ghost mid = self.deep_view();
        let ghost selv = sel.deep_view();
        let ghost basevars = self.deep_view().variant_builder.variants;
        let ghost profv = profile.deep_view();
        let mut calls: Vec<(String, GenerateVariantRequest)> = Vec::new();
        proof {
            assert(Seq::new(0nat, |k: int| spec_from_technique(k + 1, selv[k].name))
                =~= Seq::<VariantView>::empty());
            assert(basevars + Seq::new(0nat, |k: int| spec_from_technique(k + 1, selv[k].name))
                =~= basevars);
            assert(self.deep_view() =~~= AppView {
                variant_builder: VariantBuilderView {
                    variants: basevars + Seq::new(
                        0nat,
                        |k: int| spec_from_technique(k + 1, selv[k].name),
                    ),
                    ..mid.variant_builder
                },
                ..mid
            });
        }
        let n = sel.len();
        let mut i: usize = 0;
        while i < n
            invariant
                i <= n,
                n == sel@.len(),
                selv == sel.deep_view(),
                profv == profile.deep_view(),
                self.deep_view() =~~= (AppView {
                    variant_builder: VariantBuilderView {
                        variants: basevars + Seq::new(
                            i as nat,
                            |k: int| spec_from_technique(k + 1, selv[k].name),
                        ),
                        ..mid.variant_builder
                    },
                    ..mid
                }),
                basevars == mid.variant_builder.variants,
                calls.deep_view() =~= Seq::new(
                    i as nat,
                    |k: int| (
                        spec_variant_ident(k + 1),
                        GenerateVariantRequestView {
                            technique: selv[k],
                            project: profv,
                            branch_name: spec_variant_branch(k + 1),
                        },
                    ),
                ),
            decreases n - i,
        {
            let ghost prevvars = self.deep_view().variant_builder.variants;
            let ghost prevvarsraw = self.variant_builder.variants@;
            let ghost prevcalls = calls.deep_view();
            let ghost prevcallsraw = calls@;
            let tech = &sel[i];
            let v = Variant::from_technique(i + 1, tech);
            let vid = v.id.0.clone();
            let branch = v.branch_name.clone();
            let ghost vv = v.deep_view();
            proof {
                assert(vv == spec_from_technique(i + 1, selv[i as int].name));
            }
            self.variant_builder.variants.push(v);
            let entry = (
                vid,
                GenerateVariantRequest {
                    technique: tech.clone(),
                    project: profile.clone(),
                    branch_name: branch,
                },
            );
            let ghost ev = entry.deep_view();
            proof {
                assert(ev =~= (
                    spec_variant_ident(i + 1),
                    GenerateVariantRequestView {
                        technique: selv[i as int],
                        project: profv,
                        branch_name: spec_variant_branch(i + 1),
                    },
                ));
            }
            calls.push(entry);
            i = i + 1;
            proof {
                assert(self.variant_builder.variants@ =~= prevvarsraw.push(
                    self.variant_builder.variants@[prevvarsraw.len() as int],
                ));
                assert(prevvars.len() == prevvarsraw.len());
                assert(calls@ =~= prevcallsraw.push(calls@[prevcallsraw.len() as int]));
                assert(prevcalls.len() == prevcallsraw.len());
                assert(prevcallsraw.len() == i - 1);
                assert(calls.deep_view().len() == i);
                assert forall|k: int| 0 <= k < prevvars.len() implies self.deep_view()
                    .variant_builder.variants[k] == prevvars[k] by {
                    assert(self.variant_builder.variants@[k] == prevvarsraw[k]);
                }
                assert(self.deep_view().variant_builder.variants =~= prevvars.push(vv));
                assert(self.deep_view().variant_builder.variants =~= basevars + Seq::new(
                    i as nat,
                    |k: int| spec_from_technique(k + 1, selv[k].name),
                ));
                assert(self.deep_view() =~~= AppView {
                    variant_builder: VariantBuilderView {
                        variants: basevars + Seq::new(
                            i as nat,
                            |k: int| spec_from_technique(k + 1, selv[k].name),
                        ),
                        ..mid.variant_builder
                    },
                    ..mid
                });
                assert forall|k: int| 0 <= k < i implies calls.deep_view()[k] =~= (Seq::new(
                    i as nat,
                    |x: int| (
                        spec_variant_ident(x + 1),
                        GenerateVariantRequestView {
                            technique: selv[x],
                            project: profv,
                            branch_name: spec_variant_branch(x + 1),
                        },
                    ),
                ))[k] by {
                    if k < i - 1 {
                        assert(calls.deep_view()[k] == prevcalls[k]);
                    } else {
                        assert(calls.deep_view()[k] == ev);
                    }
                }
                assert(calls.deep_view() =~= Seq::new(
                    i as nat,
                    |k: int| (
                        spec_variant_ident(k + 1),
                        GenerateVariantRequestView {
                            technique: selv[k],
                            project: profv,
                            branch_name: spec_variant_branch(k + 1),
                        },
                    ),
                ));
            }
        }
        cmds.push(Command::GenerateVariants(calls));
        proof {
            assert(self.deep_view() =~= spec_handle_start_generation(pre).0);
            assert(cmds.deep_view() =~= spec_handle_start_generation(pre).1);
        }
        cmds
    }

    fn handle_start_benchmark(&mut self) -> (cmds: Vec<Command>)
        ensures
            final(self).deep_view() == spec_handle_start_benchmark(old(self).deep_view()).0,
            cmds.deep_view() == spec_handle_start_benchmark(old(self).deep_view()).1,
    {
        let ghost pre = self.deep_view();
        let mut cmds: Vec<Command> = Vec::new();
        if self.benchmark_dashboard.benchmarking {
            proof {
                assert(self.deep_view() =~= spec_handle_start_benchmark(pre).0);
                assert(cmds.deep_view() =~= spec_handle_start_benchmark(pre).1);
            }
            return cmds;
        }
        if !self.sidecar_available {
            cmds.push(
                Command::SendAction(Action::SetStatus("Sidecar is not running.".to_owned())),
            );
            proof {
                assert(self.deep_view() =~= spec_handle_start_benchmark(pre).0);
                assert(cmds.deep_view() =~= spec_handle_start_benchmark(pre).1);
            }
            return cmds;
        }
        let path = match &self.project_intake.profile {
            Some(p) => p.path.clone(),
            None => {
                cmds.push(
                    Command::SendAction(
                        Action::SetStatus("No project path available.".to_owned()),
                    ),
                );
                proof {
                    assert(self.deep_view() =~= spec_handle_start_benchmark(pre).0);
                    assert(cmds.deep_view() =~= spec_handle_start_benchmark(pre).1);
                }
                return cmds;
            },
        };
        self.benchmark_dashboard.variants = clone_variants(&self.variant_builder.variants);
        self.benchmark_dashboard.benchmarking = true;
        let branches = self.ready_branches();
        if branches.len() == 0 {
            cmds.push(
                Command::SendAction(
                    Action::SetStatus("No ready variants to benchmark.".to_owned()),
                ),
            );
            self.benchmark_dashboard.benchmarking = false;
            proof {
                assert(self.deep_view() =~= spec_handle_start_benchmark(pre).0);
                assert(cmds.deep_view() =~= spec_handle_start_benchmark(pre).1);
            }
            return cmds;
        }
        let mut msg = "Running benchmarks on ".to_owned();
        let cnt = dec_string(branches.len() as u64);
        msg.append(cnt.as_str());
        msg.append(" variants...");
        cmds.push(Command::SendAction(Action::SetStatus(msg)));
        let branches2 = clone_strings(&branches);
        let path2 = path.clone();
        let req1 = RunBenchmarkRequest {
            variant_branches: branches,
            project_path: path,
            metrics: Vec::new(),
            timeout_seconds: 300,
        };
        proof {
            assert(req1.deep_view() =~= crate::protocol::RunBenchmarkRequestView {
                variant_branches: spec_ready_branches(pre.variant_builder.variants),
                project_path: pre.project_intake.profile.unwrap().path,
                metrics: Seq::empty(),
                timeout_seconds: 300u64,
            });
        }
        cmds.push(Command::RunBenchmark(req1));
        let req2 = LlmJudgeRequest {
            variant_branches: branches2,
            project_path: path2,
            user_request: self.user_description.clone(),
        };
        proof {
            assert(req2.deep_view() =~= crate::protocol::LlmJudgeRequestView {
                variant_branches: spec_ready_branches(pre.variant_builder.variants),
                project_path: pre.project_intake.profile.unwrap().path,
                user_request: pre.user_description,
            });
        }
        cmds.push(Command::LlmJudge(req2));
        proof {
            assert(self.deep_view() =~= spec_handle_start_benchmark(pre).0);
            assert(cmds.deep_view() =~= spec_handle_start_benchmark(pre).1);
        }
        cmds
    }

    fn handle_start_merge(
        &mut self,
        variant_a_id: &String,
        variant_b_id: &String,
        blend_a: u8,
        blend_b: u8,
    ) -> (cmds: Vec<Command>)
        ensures
            final(self).deep_view() == spec_handle_start_merge(
                old(self).deep_view(),
                variant_a_id@,
                variant_b_id@,
                blend_a,
                blend_b,
            ).0,
            cmds.deep_view() == spec_handle_start_merge(
                old(self).deep_view(),
                variant_a_id@,
                variant_b_id@,
                blend_a,
                blend_b,
            ).1,
    {
        let ghost pre = self.deep_view();
        let ghost target = spec_handle_start_merge(
            pre,
            variant_a_id@,
            variant_b_id@,
            blend_a,
            blend_b,
        );
        let mut cmds: Vec<Command> = Vec::new();
        if !self.sidecar_available {
            cmds.push(
                Command::SendAction(Action::MergeFailed("Sidecar is not running.".to_owned())),
            );
            proof {
                assert(cmds.deep_view() =~= target.1);
            }
            return cmds;
        }
        let fa = self.variant_builder.find_by_id(variant_a_id);
        let fb = self.variant_builder.find_by_id(variant_b_id);
        match (fa, fb) {
            (Some(ia), Some(ib)) => {
                let n = self.variant_builder.variants.len();
                let nn: usize = if n < usize::MAX {
                    n + 1
                } else {
                    n
                };
                let num = dec_string(nn as u64);
                let mut vid = "merge-".to_owned();
                vid.append(num.as_str());
                let mut target_branch = "uniq/merge-".to_owned();
                target_branch.append(num.as_str());
                let va_name = self.variant_builder.variants[ia].display_name.clone();
                let vb_name = self.variant_builder.variants[ib].display_name.clone();
                let mut display = va_name.clone();
                display.append(" + ");
                display.append(vb_name.as_str());
                let request = MergeVariantsRequest {
                    variant_a_branch: self.variant_builder.variants[ia].branch_name.clone(),
                    variant_a_technique: va_name,
                    variant_b_branch: self.variant_builder.variants[ib].branch_name.clone(),
                    variant_b_technique: vb_name,
                    blend_a,
                    blend_b,
                    target_branch,
                };
                cmds.push(
                    Command::MergeVariants { variant_id: vid, display_name: display, request },
                );
                proof {
                    assert(cmds.deep_view() =~= target.1);
                }
            },
            _ => {
                cmds.push(
                    Command::SendAction(Action::MergeFailed("Merge source not found".to_owned())),
                );
                proof {
                    assert(cmds.deep_view() =~= target.1);
                }
            },
        }
        cmds
    }

    fn open_merge_dialog_with_variants(&mut self)
        ensures
            final(self).deep_view() == spec_open_merge_dialog(old(self).deep_view()),
    {
        let ghost pre = self.deep_view();
        let vars = clone_variants(&self.variant_builder.variants);
        self.merge_dialog.set_variants(&vars);
        proof {
            assert(self.deep_view() =~= spec_open_merge_dialog(pre));
        }
    }

    /// The global handling stage of dispatch.
    fn handle_global(&mut self, action: &Action) -> (cmds: Vec<Command>)
        requires
            old(self).deep_view().wf(),
        ensures
            final(self).deep_view() == spec_global(old(self).deep_view(), action.deep_view()).0,
            cmds.deep_view() == spec_global(old(self).deep_view(), action.deep_view()).1,
            final(self).deep_view().wf(),
    {
        let ghost pre = self.deep_view();
        let ghost av = action.deep_view();
        let cmds: Vec<Command> = match action {
            Action::GoToPhase(phase) => {
                self.current_phase = *phase;
                self.status_bar.current_phase = *phase;
                proof {
                    assert(self.deep_view() =~= spec_global(pre, av).0);
                }
                self.auto_trigger_commands(*phase)
            },
            Action::NextPhase => {
                let editing = match self.current_input_mode() {
                    InputMode::Editing => true,
                    InputMode::Normal => false,
                };
                if !editing && !self.merge_dialog.visible {
                    match self.current_phase.next() {
                        Some(next) => {
                            self.current_phase = next;
                            self.status_bar.current_phase = next;
                            proof {
                                assert(self.deep_view() =~= spec_global(pre, av).0);
                            }
                            self.auto_trigger_commands(next)
                        },
                        None => Vec::new(),
                    }
                } else {
                    Vec::new()
                }
            },
            Action::PrevPhase => {
                let editing = match self.current_input_mode() {
                    InputMode::Editing => true,
                    InputMode::Normal => false,
                };
                if !editing && !self.merge_dialog.visible {
                    match self.current_phase.prev() {
                        Some(prev) => {
                            self.current_phase = prev;
                            self.status_bar.current_phase = prev;
                            Vec::new()
                        },
                        None => Vec::new(),
                    }
                } else {
                    Vec::new()
                }
            },
            Action::SubmitProject { path, description } => {
                self.handle_submit_project(path, description)
            },
            Action::StartResearch => self.handle_start_research(),
            Action::StartExtraction(papers) => self.handle_start_extraction(papers),
            Action::StartGeneration => self.handle_start_generation(),
            Action::StartBenchmark => self.handle_start_benchmark(),
            Action::StartMerge { variant_a_id, variant_b_id, blend_a, blend_b } => {
                self.handle_start_merge(variant_a_id, variant_b_id, *blend_a, *blend_b)
            },
            Action::OpenMergeDialog => {
                self.open_merge_dialog_with_variants();
                Vec::new()
            },
            Action::SidecarReady => {
                self.sidecar_available = true;
                Vec::new()
            },
            _ => { Vec::new() },
        };
        proof {
            assert(self.deep_view() =~= spec_global(pre, av).0);
            assert(cmds.deep_view() =~= spec_global(pre, av).1);
        }
        cmds
    }
}

/// The global handling stage of dispatch: navigation, job starts and
/// collaborator availability, before the action is forwarded to the
/// components.
pub open spec fn spec_global(s: AppView, a: ActionView) -> (AppView, Seq<CommandView>) {
    match a {
        ActionView::GoToPhase(p) => {
            let s1 = AppView {
                current_phase: p,
                status_bar: StatusBarView { current_phase: p, ..s.status_bar },
                ..s
            };
            (s1, spec_auto_trigger(s1, p))
        },
        ActionView::NextPhase => {
            if !(s.spec_input_mode() is Editing) && s.current_phase.spec_next() is Some
                && !s.merge_dialog.visible {
                let p = s.current_phase.spec_next().unwrap();
                let s1 = AppView {
                    current_phase: p,
                    status_bar: StatusBarView { current_phase: p, ..s.status_bar },
                    ..s
                };
                (s1, spec_auto_trigger(s1, p))
            } else {
                (s, Seq::empty())
            }
        },
        ActionView::PrevPhase => {
            if !(s.spec_input_mode() is Editing) && s.current_phase.spec_prev() is Some
                && !s.merge_dialog.visible {
                let p = s.current_phase.spec_prev().unwrap();
                let s1 = AppView {
                    current_phase: p,
                    status_bar: StatusBarView { current_phase: p, ..s.status_bar },
                    ..s
                };
                (s1, Seq::empty())
            } else {
                (s, Seq::empty())
            }
        },
        ActionView::SubmitProject { path, description } => spec_handle_submit(
            s,
            path,
            description,
        ),
        ActionView::StartResearch => spec_handle_start_research(s),
        ActionView::StartExtraction(papers) => spec_handle_start_extraction(s, papers),
        ActionView::StartGeneration => spec_handle_start_generation(s),
        ActionView::StartBenchmark => spec_handle_start_benchmark(s),
        ActionView::StartMerge { variant_a_id, variant_b_id, blend_a, blend_b } => {
            spec_handle_start_merge(s, variant_a_id, variant_b_id, blend_a, blend_b)
        },
        ActionView::OpenMergeDialog => (spec_open_merge_dialog(s), Seq::empty()),
        ActionView::SidecarReady => (AppView { sidecar_available: true, ..s }, Seq::empty()),
        _ => (s, Seq::empty()),
    }
}

/// A chained action as a (possibly empty) list.
pub open spec fn opt_seq(o: Option<ActionView>) -> Seq<ActionView> {
    match o {
        Some(x) => seq![x],
        None => Seq::empty(),
    }
}

/// The forwarding stage: the action goes to the active phase's
/// component, then to the overlays and the status bar. Chained actions
/// are collected in that order; the intake component may also ask for
/// commands.
pub open spec fn spec_forward(s: AppView, a: ActionView) -> (
    AppView,
    Seq<ActionView>,
    Seq<CommandView>,
) {
    let active = match s.current_phase {
        Phase::ProjectIntake => {
            let r = spec_intake_step(s.project_intake, a);
            (AppView { project_intake: r.0, ..s }, opt_seq(r.1), r.2)
        },
        Phase::ResearchDiscovery => {
            let r = spec_research_step(s.research_explorer, a);
            (AppView { research_explorer: r.0, ..s }, opt_seq(r.1), Seq::empty())
        },
        Phase::TechniqueSelection => {
            let r = spec_technique_cards_step(s.technique_cards, a);
            (AppView { technique_cards: r.0, ..s }, opt_seq(r.1), Seq::empty())
        },
        Phase::VariantGeneration => {
            let r = spec_variant_builder_step(s.variant_builder, a);
            (AppView { variant_builder: r.0, ..s }, opt_seq(r.1), Seq::empty())
        },
        Phase::Benchmarking => {
            let r = spec_benchmark_dashboard_step(s.benchmark_dashboard, a);
            (AppView { benchmark_dashboard: r.0, ..s }, opt_seq(r.1), Seq::empty())
        },
    };
    let s1 = active.0;
    let md = spec_merge_dialog_step(s1.merge_dialog, a);
    let s2 = AppView { merge_dialog: md.0, ..s1 };
    let s3 = AppView { help: spec_help_step(s2.help, a), ..s2 };
    let s4 = AppView { status_bar: spec_status_bar_step(s3.status_bar, a), ..s3 };
    (s4, active.1 + opt_seq(md.1), active.2)
}

/// The auto-advance stage: a successful project analysis moves to the
/// research phase and evaluates its auto-trigger.
pub open spec fn spec_advance(s: AppView, a: ActionView) -> (AppView, Seq<CommandView>) {
    if a is ProjectAnalyzed && s.project_intake.profile is Some {
        let s1 = AppView {
            current_phase: Phase::ResearchDiscovery,
            status_bar: StatusBarView {
                current_phase: Phase::ResearchDiscovery,
                ..s.status_bar
            },
            ..s
        };
        (s1, spec_auto_trigger(s1, Phase::ResearchDiscovery))
    } else {
        (s, Seq::empty())
    }
}

/// The unit whose terminal report this action carries, if any.
pub open spec fn spec_report_unit(a: ActionView) -> Seq<char> {
    match a {
        ActionView::TechniqueExtracted(c) => c.paper_id,
        ActionView::TechniqueExtractionFailed { paper_id, .. } => paper_id,
        _ => Seq::empty(),
    }
}

/// The completion stage: after every terminal unit report, the
/// extraction tracker records it and completion is recomputed
/// declaratively — job-complete chains exactly once per job. The
/// generation fan-out recomputes "all variants terminal" over the live
/// collection.
pub open spec fn spec_completions(s: AppView, a: ActionView) -> (AppView, Seq<ActionView>) {
    let is_report = a is TechniqueExtracted || a is TechniqueExtractionFailed;
    let first = if s.technique_cards.extracting && is_report && s.extraction_tracker is Some {
        let t = s.extraction_tracker.unwrap();
        let id = spec_report_unit(a);
        let fired = t.spec_fires(id);
        (
            AppView {
                extraction_tracker: Some(t.spec_record(id, a is TechniqueExtracted)),
                ..s
            },
            if fired {
                seq![ActionView::ExtractionComplete]
            } else {
                Seq::empty()
            },
        )
    } else {
        (s, Seq::empty())
    };
    let s1 = first.0;
    let is_gen_report = a is VariantGenerated || a is VariantGenerationFailed;
    let ch2 = if s1.variant_builder.generating && is_gen_report && spec_all_variants_terminal(
        s1.variant_builder.variants,
    ) {
        seq![ActionView::GenerationComplete]
    } else {
        Seq::empty()
    };
    (s1, first.1 + ch2)
}

/// One whole dispatch step before the trampoline: the global stage,
/// forwarding, auto-advance and completion detection. Returns the new
/// state, the commands, and the chained actions still to dispatch.
pub open spec fn spec_dispatch_core(s: AppView, a: ActionView) -> (
    AppView,
    Seq<CommandView>,
    Seq<ActionView>,
) {
    if a is Quit {
        (AppView { should_quit: true, ..s }, Seq::empty(), Seq::empty())
    } else {
        let g = spec_global(s, a);
        let f = spec_forward(g.0, a);
        let adv = spec_advance(f.0, a);
        let comp = spec_completions(adv.0, a);
        (comp.0, g.1 + f.2 + adv.1, f.1 + comp.1)
    }
}

/// A dispatch with the given trampoline fuel: chained actions are
/// dispatched immediately with one unit of fuel less, and dropped once
/// the fuel runs out — bounded recursion, never an unbounded drain.
pub open spec fn spec_dispatch_at(s: AppView, a: ActionView, fuel: nat) -> (
    AppView,
    Seq<CommandView>,
)
    decreases fuel, 0nat, 0nat,
{
    let core = spec_dispatch_core(s, a);
    if fuel == 0 {
        (core.0, core.1)
    } else {
        let rest = spec_dispatch_list(core.0, core.2, (fuel - 1) as nat);
        (rest.0, core.1 + rest.1)
    }
}

/// A list of chained actions dispatched in order, each at the given
/// fuel.
pub open spec fn spec_dispatch_list(s: AppView, list: Seq<ActionView>, fuel: nat) -> (
    AppView,
    Seq<CommandView>,
)
    decreases fuel, 1nat, list.len(),
{
    if list.len() == 0 {
        (s, Seq::empty())
    } else {
        let first = spec_dispatch_at(s, list.first(), fuel);
        let rest = spec_dispatch_list(first.0, list.drop_first(), fuel);
        (rest.0, first.1 + rest.1)
    }
}

/// The depth the chained-action trampoline is bounded to.
pub const CHAIN_FUEL: u64 = 3;

/// One dispatch of the action bus's consumer: what `dispatch` does to
/// the state and which commands it answers with.
pub open spec fn spec_dispatch(s: AppView, a: ActionView) -> (AppView, Seq<CommandView>) {
    spec_dispatch_at(s, a, CHAIN_FUEL as nat)
}

/// A whole run replayed: the actions folded in arrival order, with the
/// commands they produce.
pub open spec fn spec_run(s: AppView, acts: Seq<ActionView>) -> (AppView, Seq<CommandView>)
    decreases acts.len(),
{
    if acts.len() == 0 {
        (s, Seq::empty())
    } else {
        let first = spec_dispatch(s, acts.first());
        let rest = spec_run(first.0, acts.drop_first());
        (rest.0, first.1 + rest.1)
    }
}

/// For any sequence of actions, the only state change attributable to
/// an action is the one performed inside its own dispatch call: a run
/// is the fold of `spec_dispatch` over the arrival order, so splitting
/// the sequence anywhere changes nothing — no action's effect depends
/// on unobserved background interleaving.
pub proof fn lemma_replay_composes(s: AppView, xs: Seq<ActionView>, ys: Seq<ActionView>)
    ensures
        spec_run(s, xs + ys).0 == spec_run(spec_run(s, xs).0, ys).0,
        spec_run(s, xs + ys).1 == spec_run(s, xs).1 + spec_run(spec_run(s, xs).0, ys).1,
    decreases xs.len(),
{
    if xs.len() == 0 {
        assert(xs + ys =~= ys);
        assert(spec_run(s, xs).1 + spec_run(spec_run(s, xs).0, ys).1 =~= spec_run(s, ys).1);
    } else {
        assert((xs + ys).first() == xs.first());
        assert((xs + ys).drop_first() =~= xs.drop_first() + ys);
        let s1 = spec_dispatch(s, xs.first()).0;
        lemma_replay_composes(s1, xs.drop_first(), ys);
        assert(spec_run(s, xs + ys).1 =~= spec_run(s, xs).1 + spec_run(spec_run(s, xs).0, ys).1);
    }
}

impl App {
    /// The forwarding stage: hand the action to the active phase's
    /// component, the overlays and the status bar, collecting chained
    /// actions and the intake component's commands.
    fn forward_stage(&mut self, action: &Action) -> (r: (Vec<Action>, Vec<Command>))
        ensures
            final(self).deep_view() == spec_forward(old(self).deep_view(), action.deep_view()).0,
            r.0.deep_view() == spec_forward(old(self).deep_view(), action.deep_view()).1,
            r.1.deep_view() == spec_forward(old(self).deep_view(), action.deep_view()).2,
            final(self).deep_view().extraction_tracker == old(
                self,
            ).deep_view().extraction_tracker,
    {
        let ghost pre = self.deep_view();
        let ghost av = action.deep_view();
        let ghost f = spec_forward(pre, av);
        let mut chained: Vec<Action> = Vec::new();
        let mut cmds: Vec<Command> = Vec::new();
        match self.current_phase {
            Phase::ProjectIntake => {
                let (ch, mut c2) = self.project_intake.handle_action(action);
                if let Some(a2) = ch {
                    chained.push(a2);
                }
                cmds.append(&mut c2);
            },
            Phase::ResearchDiscovery => {
                if let Some(a2) = self.research_explorer.handle_action(action) {
                    chained.push(a2);
                }
            },
            Phase::TechniqueSelection => {
                if let Some(a2) = self.technique_cards.handle_action(action) {
                    chained.push(a2);
                }
            },
            Phase::VariantGeneration => {
                if let Some(a2) = self.variant_builder.handle_action(action) {
                    chained.push(a2);
                }
            },
            Phase::Benchmarking => {
                if let Some(a2) = self.benchmark_dashboard.handle_action(action) {
                    chained.push(a2);
                }
            },
        }
        if let Some(a2) = self.merge_dialog.handle_action(action) {
            chained.push(a2);
        }
        let _ = self.help.handle_action(action);
        let _ = self.status_bar.handle_action(action);
        proof {
            assert(self.deep_view() =~= f.0);
            assert(chained.deep_view() =~= f.1);
            assert(cmds.deep_view() =~= f.2);
        }
        (chained, cmds)
    }

    /// The auto-advance stage after a successful project analysis.
    fn advance_stage(&mut self, action: &Action) -> (cmds: Vec<Command>)
        ensures
            final(self).deep_view() == spec_advance(old(self).deep_view(), action.deep_view()).0,
            cmds.deep_view() == spec_advance(old(self).deep_view(), action.deep_view()).1,
            final(self).deep_view().extraction_tracker == old(
                self,
            ).deep_view().extraction_tracker,
    {
        let ghost pre = self.deep_view();
        let ghost av = action.deep_view();
        let is_analyzed = matches!(action, Action::ProjectAnalyzed(_));
        if is_analyzed && self.project_intake.profile.is_some() {
            self.current_phase = Phase::ResearchDiscovery;
            self.status_bar.current_phase = Phase::ResearchDiscovery;
            proof {
                assert(self.deep_view() =~= spec_advance(pre, av).0);
            }
            let cmds = self.auto_trigger_commands(Phase::ResearchDiscovery);
            proof {
                assert(cmds.deep_view() =~= spec_advance(pre, av).1);
            }
            cmds
        } else {
            let cmds: Vec<Command> = Vec::new();
            proof {
                assert(self.deep_view() =~= spec_advance(pre, av).0);
                assert(cmds.deep_view() =~= spec_advance(pre, av).1);
            }
            cmds
        }
    }

    /// The completion stage: record terminal unit reports in the
    /// extraction tracker and recompute both fan-outs' completion
    /// declaratively.
    fn completion_stage(&mut self, action: &Action) -> (chained: Vec<Action>)
        requires
            old(self).deep_view().wf(),
        ensures
            final(self).deep_view() == spec_completions(
                old(self).deep_view(),
                action.deep_view(),
            ).0,
            chained.deep_view() == spec_completions(old(self).deep_view(), action.deep_view()).1,
            final(self).deep_view().wf(),
    {
        let ghost pre = self.deep_view();
        let ghost av = action.deep_view();
        let ghost comp = spec_completions(pre, av);
        let mut chained: Vec<Action> = Vec::new();
        let is_report = matches!(
            action,
            Action::TechniqueExtracted(_) | Action::TechniqueExtractionFailed { .. },
        );
        if self.technique_cards.extracting && is_report {
            let tr = self.extraction_tracker.take();
            match tr {
                Some(mut t) => {
                    proof {
                        assert(t.deep_view().wf());
                    }
                    let fired = match action {
                        Action::TechniqueExtracted(c) => t.record(&c.paper_id, true),
                        Action::TechniqueExtractionFailed { paper_id, .. } => t.record(
                            paper_id,
                            false,
                        ),
                        _ => false,
                    };
                    self.extraction_tracker = Some(t);
                    if fired {
                        chained.push(Action::ExtractionComplete);
                    }
                },
                None => {},
            }
        }
        proof {
            assert(self.deep_view() =~= comp.0);
        }
        let is_gen_report = matches!(
            action,
            Action::VariantGenerated(_) | Action::VariantGenerationFailed { .. },
        );
        if self.variant_builder.generating && is_gen_report {
            if self.variants_all_terminal() {
                chained.push(Action::GenerationComplete);
            }
        }
        proof {
            assert(self.deep_view() =~= comp.0);
            assert(chained.deep_view() =~= comp.1);
        }
        chained
    }

    /// One whole dispatch step before the trampoline.
    fn dispatch_core(&mut self, action: &Action) -> (r: (Vec<Command>, Vec<Action>))
        requires
            old(self).deep_view().wf(),
        ensures
            final(self).deep_view() == spec_dispatch_core(
                old(self).deep_view(),
                action.deep_view(),
            ).0,
            r.0.deep_view() == spec_dispatch_core(old(self).deep_view(), action.deep_view()).1,
            r.1.deep_view() == spec_dispatch_core(old(self).deep_view(), action.deep_view()).2,
            final(self).deep_view().wf(),
    {
        let ghost pre = self.deep_view();
        let ghost av = action.deep_view();
        if let Action::Quit = action {
            self.should_quit = true;
            let cmds: Vec<Command> = Vec::new();
            let chained: Vec<Action> = Vec::new();
            proof {
                assert(self.deep_view() =~= spec_dispatch_core(pre, av).0);
                assert(cmds.deep_view() =~= spec_dispatch_core(pre, av).1);
                assert(chained.deep_view() =~= spec_dispatch_core(pre, av).2);
            }
            return (cmds, chained);
        }
        proof {
            assert(!(av is Quit));
        }
        let mut cmds = self.handle_global(action);
        let (mut chained, mut c2) = self.forward_stage(action);
        cmds.append(&mut c2);
        let mut c3 = self.advance_stage(action);
        cmds.append(&mut c3);
        proof {
            let g = spec_global(pre, av);
            let f = spec_forward(g.0, av);
            let adv = spec_advance(f.0, av);
            assert(cmds.deep_view() =~= g.1 + f.2 + adv.1);
        }
        let mut ch2 = self.completion_stage(action);
        chained.append(&mut ch2);
        proof {
            let g = spec_global(pre, av);
            let f = spec_forward(g.0, av);
            let adv = spec_advance(f.0, av);
            let comp = spec_completions(adv.0, av);
            assert(chained.deep_view() =~= f.1 + comp.1);
            assert(self.deep_view() =~= spec_dispatch_core(pre, av).0);
        }
        (cmds, chained)
    }

    /// Dispatch one action with the given trampoline fuel.
    fn dispatch_at(&mut self, action: Action, fuel: u64) -> (cmds: Vec<Command>)
        requires
            old(self).deep_view().wf(),
        ensures
            final(self).deep_view() == spec_dispatch_at(
                old(self).deep_view(),
                action.deep_view(),
                fuel as nat,
            ).0,
            cmds.deep_view() == spec_dispatch_at(
                old(self).deep_view(),
                action.deep_view(),
                fuel as nat,
            ).1,
            final(self).deep_view().wf(),
        decreases fuel,
    {
        let ghost pre = self.deep_view();
        let ghost av = action.deep_view();
        let (mut cmds, mut chained) = self.dispatch_core(&action);
        if fuel == 0 {
            proof {
                assert(cmds.deep_view() =~= spec_dispatch_at(pre, av, fuel as nat).1);
            }
            return cmds;
        }
        let ghost core_state = self.deep_view();
        let ghost core_cmds = cmds.deep_view();
        let ghost sub_fuel = (fuel - 1) as nat;
        let ghost target = spec_dispatch_list(core_state, chained.deep_view(), sub_fuel);
        let mut extra: Vec<Command> = Vec::new();
        while chained.len() > 0
            invariant
                fuel >= 1,
                sub_fuel == (fuel - 1) as nat,
                self.deep_view().wf(),
                spec_dispatch_list(self.deep_view(), chained.deep_view(), sub_fuel).0 == target.0,
                extra.deep_view() + spec_dispatch_list(
                    self.deep_view(),
                    chained.deep_view(),
                    sub_fuel,
                ).1 =~= target.1,
            decreases chained@.len(),
        {
            let ghost before_state = self.deep_view();
            let ghost before_list = chained.deep_view();
            let a2 = chained.remove(0);
            proof {
                assert(a2.deep_view() == before_list.first());
                assert(chained.deep_view() =~= before_list.drop_first());
            }
            let mut sub = self.dispatch_at(a2, fuel - 1);
            extra.append(&mut sub);
            proof {
                assert(extra.deep_view() + spec_dispatch_list(
                    self.deep_view(),
                    chained.deep_view(),
                    sub_fuel,
                ).1 =~= target.1);
            }
        }
        proof {
            assert(chained.deep_view() =~= Seq::<ActionView>::empty());
            assert(self.deep_view() == target.0);
            assert(extra.deep_view() =~= target.1);
        }
        cmds.append(&mut extra);
        proof {
            assert(self.deep_view() == spec_dispatch_at(pre, av, fuel as nat).0);
            assert(cmds.deep_view() =~= core_cmds + target.1);
            assert(cmds.deep_view() =~= spec_dispatch_at(pre, av, fuel as nat).1);
        }
        cmds
    }

    /// Dispatch one action: fold it into the state and answer with the
    /// commands the runtime must perform. Chained follow-up actions are
    /// dispatched immediately, to the bounded trampoline depth.
    pub fn dispatch(&mut self, action: Action) -> (cmds: Vec<Command>)
        requires
            old(self).deep_view().wf(),
        ensures
            final(self).deep_view() == spec_dispatch(old(self).deep_view(), action.deep_view()).0,
            cmds.deep_view() == spec_dispatch(old(self).deep_view(), action.deep_view()).1,
            final(self).deep_view().wf(),
    {
        self.dispatch_at(action, CHAIN_FUEL)
    }

    /// Replay a whole action list in arrival order. The final state is
    /// a function of the initial state and the list alone.
    pub fn run_actions(&mut self, actions: Vec<Action>) -> (cmds: Vec<Command>)
        requires
            old(self).deep_view().wf(),
        ensures
            final(self).deep_view() == spec_run(
                old(self).deep_view(),
                actions.deep_view(),
            ).0,
            cmds.deep_view() == spec_run(old(self).deep_view(), actions.deep_view()).1,
            final(self).deep_view().wf(),
    {
        let ghost pre = self.deep_view();
        let ghost target = spec_run(pre, actions.deep_view());
        let mut actions = actions;
        let mut cmds: Vec<Command> = Vec::new();
        while actions.len() > 0
            invariant
                self.deep_view().wf(),
                spec_run(self.deep_view(), actions.deep_view()).0 == target.0,
                cmds.deep_view() + spec_run(self.deep_view(), actions.deep_view()).1 =~= target.1,
            decreases actions@.len(),
        {
            let ghost before_list = actions.deep_view();
            let a = actions.remove(0);
            proof {
                assert(a.deep_view() == before_list.first());
                assert(actions.deep_view() =~= before_list.drop_first());
            }
            let mut sub = self.dispatch(a);
            cmds.append(&mut sub);
            proof {
                assert(cmds.deep_view() + spec_run(
                    self.deep_view(),
                    actions.deep_view(),
                ).1 =~= target.1);
            }
        }
        proof {
            assert(actions.deep_view() =~= Seq::<ActionView>::empty());
            assert(cmds.deep_view() =~= target.1);
        }
        cmds
    }
}

} // verus!
