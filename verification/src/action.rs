//! The action bus vocabulary.
//!
//! Every event in the system — user input, navigation, and the results
//! of background work — is one `Action` value. Actions are immutable
//! and ownership passes to the bus on send; a single consumer folds
//! them into the application state in arrival order. The dispatcher
//! answers with `Command` values: the outside work (remote calls,
//! clipboard reads, actions to queue) that the runtime performs.

use vstd::prelude::*;
use crate::components::project_intake::{PathSuggestion, PathSuggestionView};
use crate::phase::Phase;
use crate::project::{ProjectProfile, ProjectProfileView};
use crate::protocol::{
    AnalyzeProjectRequest,
    AnalyzeProjectRequestView,
    ExtractTechniqueRequest,
    ExtractTechniqueRequestView,
    GenerateVariantRequest,
    GenerateVariantRequestView,
    LlmJudgeRequest,
    LlmJudgeRequestView,
    MergeVariantsRequest,
    MergeVariantsRequestView,
    RunBenchmarkRequest,
    RunBenchmarkRequestView,
    SearchPapersRequest,
    SearchPapersRequestView,
};
use crate::research::{PaperMeta, PaperMetaView, TechniqueCard, TechniqueCardView};
use crate::variant::{Variant, VariantView};

verus! {

/// Every possible action that can occur in the application.
#[derive(Debug)]
pub enum Action {
    /// Switch to a specific phase tab.
    GoToPhase(Phase),
    /// Move to the next phase.
    NextPhase,
    /// Move to the previous phase.
    PrevPhase,
    /// Quit the application.
    Quit,
    /// Toggle the help overlay.
    ToggleHelp,
    /// Display a status message in the status bar.
    SetStatus(String),
    /// Clear the status message.
    ClearStatus,
    /// A tick event for animations and polling.
    Tick,
    /// User submitted project path and description.
    SubmitProject { path: String, description: String },
    /// Project analysis completed.
    ProjectAnalyzed(Box<ProjectProfile>),
    /// Project analysis failed.
    ProjectAnalysisFailed(String),
    /// Start searching for papers.
    StartResearch,
    /// A search query is starting (for progress display).
    SearchQueryStarted { query: String, query_idx: usize, total_queries: usize },
    /// Papers found (batch update).
    PapersFound(Vec<PaperMeta>),
    /// Research search completed.
    ResearchComplete,
    /// Research failed.
    ResearchFailed(String),
    /// Start extracting techniques from these papers.
    StartExtraction(Vec<PaperMeta>),
    /// Extraction started for a specific paper (for progress display).
    ExtractionStarted { paper_id: String, paper_title: String },
    /// A technique card was extracted.
    TechniqueExtracted(Box<TechniqueCard>),
    /// Technique extraction failed for a paper.
    TechniqueExtractionFailed { paper_id: String, error: String },
    /// All extraction complete.
    ExtractionComplete,
    /// Toggle selection of a technique.
    ToggleTechnique(usize),
    /// Confirm technique selection and proceed to generation.
    ConfirmTechniques,
    /// Start generating variants.
    StartGeneration,
    /// A variant was generated successfully.
    VariantGenerated(Box<Variant>),
    /// A variant generation failed.
    VariantGenerationFailed { variant_id: String, error: String },
    /// All variants generated.
    GenerationComplete,
    /// Start benchmarking all variants.
    StartBenchmark,
    /// Benchmark results updated for a variant.
    BenchmarkUpdated { variant_id: String },
    /// All benchmarks complete.
    BenchmarkComplete,
    /// User rated a variant.
    UserRated { variant_id: String, stars: u8, notes: String },
    /// Open the merge dialog.
    OpenMergeDialog,
    /// Close the merge dialog.
    CloseMergeDialog,
    /// Start merging two variants.
    StartMerge { variant_a_id: String, variant_b_id: String, blend_a: u8, blend_b: u8 },
    /// Merge completed.
    MergeComplete(Box<Variant>),
    /// Merge failed.
    MergeFailed(String),
    /// A character was typed (only sent when in input mode).
    CharInput(char),
    /// Backspace pressed (only sent when in input mode).
    BackspaceInput,
    /// Delete word (Ctrl+Backspace or Ctrl+W).
    DeleteWord,
    /// Insert a newline in the current text field.
    NewlineInput,
    /// Switch focus between input fields (Tab in input mode).
    SwitchInputField,
    /// Submit the form (Ctrl+Enter in editing mode).
    SubmitForm,
    /// Ask for the clipboard's contents (Ctrl+V in editing mode).
    PasteInput,
    /// Bulk paste: the whole pasted text at once.
    PasteBulk(String),
    /// Fresh filesystem suggestions for the path field.
    SuggestionsComputed(Vec<PathSuggestion>),
    /// The background collaborator startup succeeded.
    SidecarReady,
    /// The background collaborator startup failed.
    SidecarFailed(String),
    ScrollUp,
    ScrollDown,
    SelectNext,
    SelectPrev,
    Confirm,
}

/// Mathematical image of an action.
pub enum ActionView {
    GoToPhase(Phase),
    NextPhase,
    PrevPhase,
    Quit,
    ToggleHelp,
    SetStatus(Seq<char>),
    ClearStatus,
    Tick,
    SubmitProject { path: Seq<char>, description: Seq<char> },
    ProjectAnalyzed(ProjectProfileView),
    ProjectAnalysisFailed(Seq<char>),
    StartResearch,
    SearchQueryStarted { query: Seq<char>, query_idx: usize, total_queries: usize },
    PapersFound(Seq<PaperMetaView>),
    ResearchComplete,
    ResearchFailed(Seq<char>),
    StartExtraction(Seq<PaperMetaView>),
    ExtractionStarted { paper_id: Seq<char>, paper_title: Seq<char> },
    TechniqueExtracted(TechniqueCardView),
    TechniqueExtractionFailed { paper_id: Seq<char>, error: Seq<char> },
    ExtractionComplete,
    ToggleTechnique(usize),
    ConfirmTechniques,
    StartGeneration,
    VariantGenerated(VariantView),
    VariantGenerationFailed { variant_id: Seq<char>, error: Seq<char> },
    GenerationComplete,
    StartBenchmark,
    BenchmarkUpdated { variant_id: Seq<char> },
    BenchmarkComplete,
    UserRated { variant_id: Seq<char>, stars: u8, notes: Seq<char> },
    OpenMergeDialog,
    CloseMergeDialog,
    StartMerge { variant_a_id: Seq<char>, variant_b_id: Seq<char>, blend_a: u8, blend_b: u8 },
    MergeComplete(VariantView),
    MergeFailed(Seq<char>),
    CharInput(char),
    BackspaceInput,
    DeleteWord,
    NewlineInput,
    SwitchInputField,
    SubmitForm,
    PasteInput,
    PasteBulk(Seq<char>),
    SuggestionsComputed(Seq<PathSuggestionView>),
    SidecarReady,
    SidecarFailed(Seq<char>),
    ScrollUp,
    ScrollDown,
    SelectNext,
    SelectPrev,
    Confirm,
}

impl DeepView for Action {
    type V = ActionView;

    open spec fn deep_view(&self) -> ActionView {
        match self {
            Action::GoToPhase(p) => ActionView::GoToPhase(*p),
            Action::NextPhase => ActionView::NextPhase,
            Action::PrevPhase => ActionView::PrevPhase,
            Action::Quit => ActionView::Quit,
            Action::ToggleHelp => ActionView::ToggleHelp,
            Action::SetStatus(m) => ActionView::SetStatus(m.deep_view()),
            Action::ClearStatus => ActionView::ClearStatus,
            Action::Tick => ActionView::Tick,
            Action::SubmitProject { path, description } => ActionView::SubmitProject {
                path: path.deep_view(),
                description: description.deep_view(),
            },
            Action::ProjectAnalyzed(p) => ActionView::ProjectAnalyzed(p.deep_view()),
            Action::ProjectAnalysisFailed(e) => ActionView::ProjectAnalysisFailed(e.deep_view()),
            Action::StartResearch => ActionView::StartResearch,
            Action::SearchQueryStarted { query, query_idx, total_queries } => {
                ActionView::SearchQueryStarted {
                    query: query.deep_view(),
                    query_idx: *query_idx,
                    total_queries: *total_queries,
                }
            },
            Action::PapersFound(ps) => ActionView::PapersFound(ps.deep_view()),
            Action::ResearchComplete => ActionView::ResearchComplete,
            Action::ResearchFailed(e) => ActionView::ResearchFailed(e.deep_view()),
            Action::StartExtraction(ps) => ActionView::StartExtraction(ps.deep_view()),
            Action::ExtractionStarted { paper_id, paper_title } => ActionView::ExtractionStarted {
                paper_id: paper_id.deep_view(),
                paper_title: paper_title.deep_view(),
            },
            Action::TechniqueExtracted(c) => ActionView::TechniqueExtracted(c.deep_view()),
            Action::TechniqueExtractionFailed { paper_id, error } => {
                ActionView::TechniqueExtractionFailed {
                    paper_id: paper_id.deep_view(),
                    error: error.deep_view(),
                }
            },
            Action::ExtractionComplete => ActionView::ExtractionComplete,
            Action::ToggleTechnique(i) => ActionView::ToggleTechnique(*i),
            Action::ConfirmTechniques => ActionView::ConfirmTechniques,
            Action::StartGeneration => ActionView::StartGeneration,
            Action::VariantGenerated(v) => ActionView::VariantGenerated(v.deep_view()),
            Action::VariantGenerationFailed { variant_id, error } => {
                ActionView::VariantGenerationFailed {
                    variant_id: variant_id.deep_view(),
                    error: error.deep_view(),
                }
            },
            Action::GenerationComplete => ActionView::GenerationComplete,
            Action::StartBenchmark => ActionView::StartBenchmark,
            Action::BenchmarkUpdated { variant_id } => ActionView::BenchmarkUpdated {
                variant_id: variant_id.deep_view(),
            },
            Action::BenchmarkComplete => ActionView::BenchmarkComplete,
            Action::UserRated { variant_id, stars, notes } => ActionView::UserRated {
                variant_id: variant_id.deep_view(),
                stars: *stars,
                notes: notes.deep_view(),
            },
            Action::OpenMergeDialog => ActionView::OpenMergeDialog,
            Action::CloseMergeDialog => ActionView::CloseMergeDialog,
            Action::StartMerge { variant_a_id, variant_b_id, blend_a, blend_b } => {
                ActionView::StartMerge {
                    variant_a_id: variant_a_id.deep_view(),
                    variant_b_id: variant_b_id.deep_view(),
                    blend_a: *blend_a,
                    blend_b: *blend_b,
                }
            },
            Action::MergeComplete(v) => ActionView::MergeComplete(v.deep_view()),
            Action::MergeFailed(e) => ActionView::MergeFailed(e.deep_view()),
            Action::CharInput(c) => ActionView::CharInput(*c),
            Action::BackspaceInput => ActionView::BackspaceInput,
            Action::DeleteWord => ActionView::DeleteWord,
            Action::NewlineInput => ActionView::NewlineInput,
            Action::SwitchInputField => ActionView::SwitchInputField,
            Action::SubmitForm => ActionView::SubmitForm,
            Action::PasteInput => ActionView::PasteInput,
            Action::PasteBulk(s) => ActionView::PasteBulk(s.deep_view()),
            Action::SuggestionsComputed(s) => ActionView::SuggestionsComputed(s.deep_view()),
            Action::SidecarReady => ActionView::SidecarReady,
            Action::SidecarFailed(e) => ActionView::SidecarFailed(e.deep_view()),
            Action::ScrollUp => ActionView::ScrollUp,
            Action::ScrollDown => ActionView::ScrollDown,
            Action::SelectNext => ActionView::SelectNext,
            Action::SelectPrev => ActionView::SelectPrev,
            Action::Confirm => ActionView::Confirm,
        }
    }
}

/// Outside work the dispatcher asks the runtime to perform. Each
/// remote call reports back with actions; a queued action goes through
/// the bus like any other.
#[derive(Debug)]
pub enum Command {
    /// Call the analyze-project endpoint.
    AnalyzeProject(AnalyzeProjectRequest),
    /// Run these search requests in order, reporting per-query progress
    /// and found papers through the bus.
    SearchPapers(Vec<SearchPapersRequest>),
    /// Spawn one extraction call per request; each reports one terminal
    /// action.
    ExtractTechniques(Vec<ExtractTechniqueRequest>),
    /// Spawn one generation call per (variant id, request) pair.
    GenerateVariants(Vec<(String, GenerateVariantRequest)>),
    /// Call the merge-variants endpoint; on success the new variant
    /// carries this id and display name.
    MergeVariants { variant_id: String, display_name: String, request: MergeVariantsRequest },
    /// Call the run-benchmark endpoint.
    RunBenchmark(RunBenchmarkRequest),
    /// Call the llm-judge endpoint.
    LlmJudge(LlmJudgeRequest),
    /// Queue an action on the bus.
    SendAction(Action),
    /// Read the clipboard and queue its text as a bulk paste.
    ReadClipboard,
    /// Recompute filesystem suggestions for this path input.
    RefreshSuggestions(String),
}

/// Mathematical image of a command.
pub enum CommandView {
    AnalyzeProject(AnalyzeProjectRequestView),
    SearchPapers(Seq<SearchPapersRequestView>),
    ExtractTechniques(Seq<ExtractTechniqueRequestView>),
    GenerateVariants(Seq<(Seq<char>, GenerateVariantRequestView)>),
    MergeVariants {
        variant_id: Seq<char>,
        display_name: Seq<char>,
        request: MergeVariantsRequestView,
    },
    RunBenchmark(RunBenchmarkRequestView),
    LlmJudge(LlmJudgeRequestView),
    SendAction(ActionView),
    ReadClipboard,
    RefreshSuggestions(Seq<char>),
}

impl DeepView for Command {
    type V = CommandView;

    open spec fn deep_view(&self) -> CommandView {
        match self {
            Command::AnalyzeProject(r) => CommandView::AnalyzeProject(r.deep_view()),
            Command::SearchPapers(rs) => CommandView::SearchPapers(rs.deep_view()),
            Command::ExtractTechniques(rs) => CommandView::ExtractTechniques(rs.deep_view()),
            Command::GenerateVariants(rs) => CommandView::GenerateVariants(rs.deep_view()),
            Command::MergeVariants { variant_id, display_name, request } => {
                CommandView::MergeVariants {
                    variant_id: variant_id.deep_view(),
                    display_name: display_name.deep_view(),
                    request: request.deep_view(),
                }
            },
            Command::RunBenchmark(r) => CommandView::RunBenchmark(r.deep_view()),
            Command::LlmJudge(r) => CommandView::LlmJudge(r.deep_view()),
            Command::SendAction(a) => CommandView::SendAction(a.deep_view()),
            Command::ReadClipboard => CommandView::ReadClipboard,
            Command::RefreshSuggestions(s) => CommandView::RefreshSuggestions(s.deep_view()),
        }
    }
}

} // verus!
