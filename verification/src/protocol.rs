//! Request and response bodies of the collaborator's wire contract.
//!
//! The transport (HTTP, JSON) lives outside the library; the library
//! builds and consumes these values, so the dispatch contracts can pin
//! down exactly what each remote call is asked and answers.

use vstd::prelude::*;
use crate::benchmark::{BenchmarkOutcome, BenchmarkOutcomeView};
use crate::project::{ProjectProfile, ProjectProfileView};
use crate::research::{TechniqueCard, TechniqueCardView};

verus! {

/// Answer of the health endpoint.
#[derive(Debug, PartialEq, Eq)]
pub struct HealthResponse {
    pub status: String,
    pub version: String,
}

/// Ask the collaborator to analyze a project directory.
#[derive(Debug, PartialEq, Eq)]
pub struct AnalyzeProjectRequest {
    pub path: String,
    pub description: String,
}

/// Mathematical image of an analyze request.
#[verifier::ext_equal]
pub struct AnalyzeProjectRequestView {
    pub path: Seq<char>,
    pub description: Seq<char>,
}

impl DeepView for AnalyzeProjectRequest {
    type V = AnalyzeProjectRequestView;

    open spec fn deep_view(&self) -> AnalyzeProjectRequestView {
        AnalyzeProjectRequestView {
            path: self.path.deep_view(),
            description: self.description.deep_view(),
        }
    }
}

/// Ask the collaborator to search for papers.
#[derive(Debug, PartialEq, Eq)]
pub struct SearchPapersRequest {
    pub queries: Vec<String>,
    pub max_results: usize,
    pub year_min: Option<u16>,
    pub year_max: Option<u16>,
    pub prefer_open_access: bool,
}

/// Mathematical image of a paper-search request.
#[verifier::ext_equal]
pub struct SearchPapersRequestView {
    pub queries: Seq<Seq<char>>,
    pub max_results: usize,
    pub year_min: Option<u16>,
    pub year_max: Option<u16>,
    pub prefer_open_access: bool,
}

impl DeepView for SearchPapersRequest {
    type V = SearchPapersRequestView;

    open spec fn deep_view(&self) -> SearchPapersRequestView {
        SearchPapersRequestView {
            queries: self.queries.deep_view(),
            max_results: self.max_results,
            year_min: self.year_min,
            year_max: self.year_max,
            prefer_open_access: self.prefer_open_access,
        }
    }
}

/// Ask the collaborator to extract a technique card from one paper.
#[derive(Debug, PartialEq, Eq)]
pub struct ExtractTechniqueRequest {
    pub pdf_url: String,
    pub paper_id: String,
    pub paper_title: String,
    pub project_summary: String,
    pub user_request: String,
}

/// Mathematical image of an extraction request.
#[verifier::ext_equal]
pub struct ExtractTechniqueRequestView {
    pub pdf_url: Seq<char>,
    pub paper_id: Seq<char>,
    pub paper_title: Seq<char>,
    pub project_summary: Seq<char>,
    pub user_request: Seq<char>,
}

impl DeepView for ExtractTechniqueRequest {
    type V = ExtractTechniqueRequestView;

    open spec fn deep_view(&self) -> ExtractTechniqueRequestView {
        ExtractTechniqueRequestView {
            pdf_url: self.pdf_url.deep_view(),
            paper_id: self.paper_id.deep_view(),
            paper_title: self.paper_title.deep_view(),
            project_summary: self.project_summary.deep_view(),
            user_request: self.user_request.deep_view(),
        }
    }
}

/// Ask the collaborator to generate one variant.
#[derive(Debug, PartialEq, Eq)]
pub struct GenerateVariantRequest {
    pub technique: TechniqueCard,
    pub project: ProjectProfile,
    pub branch_name: String,
}

/// Mathematical image of a generation request.
#[verifier::ext_equal]
pub struct GenerateVariantRequestView {
    pub technique: TechniqueCardView,
    pub project: ProjectProfileView,
    pub branch_name: Seq<char>,
}

impl DeepView for GenerateVariantRequest {
    type V = GenerateVariantRequestView;

    open spec fn deep_view(&self) -> GenerateVariantRequestView {
        GenerateVariantRequestView {
            technique: self.technique.deep_view(),
            project: self.project.deep_view(),
            branch_name: self.branch_name.deep_view(),
        }
    }
}

/// What the collaborator answers for a generation or merge request.
#[derive(Debug, PartialEq, Eq)]
pub struct GenerateVariantResponse {
    pub success: bool,
    pub modified_files: Vec<String>,
    pub new_dependencies: Vec<String>,
    pub error: Option<String>,
}

/// Mathematical image of a generation response.
#[verifier::ext_equal]
pub struct GenerateVariantResponseView {
    pub success: bool,
    pub modified_files: Seq<Seq<char>>,
    pub new_dependencies: Seq<Seq<char>>,
    pub error: Option<Seq<char>>,
}

impl DeepView for GenerateVariantResponse {
    type V = GenerateVariantResponseView;

    open spec fn deep_view(&self) -> GenerateVariantResponseView {
        GenerateVariantResponseView {
            success: self.success,
            modified_files: self.modified_files.deep_view(),
            new_dependencies: self.new_dependencies.deep_view(),
            error: self.error.deep_view(),
        }
    }
}

/// Ask the collaborator to merge two variant branches.
#[derive(Debug, PartialEq, Eq)]
pub struct MergeVariantsRequest {
    pub variant_a_branch: String,
    pub variant_a_technique: String,
    pub variant_b_branch: String,
    pub variant_b_technique: String,
    pub blend_a: u8,
    pub blend_b: u8,
    pub target_branch: String,
}

/// Mathematical image of a merge request.
#[verifier::ext_equal]
pub struct MergeVariantsRequestView {
    pub variant_a_branch: Seq<char>,
    pub variant_a_technique: Seq<char>,
    pub variant_b_branch: Seq<char>,
    pub variant_b_technique: Seq<char>,
    pub blend_a: u8,
    pub blend_b: u8,
    pub target_branch: Seq<char>,
}

impl DeepView for MergeVariantsRequest {
    type V = MergeVariantsRequestView;

    open spec fn deep_view(&self) -> MergeVariantsRequestView {
        MergeVariantsRequestView {
            variant_a_branch: self.variant_a_branch.deep_view(),
            variant_a_technique: self.variant_a_technique.deep_view(),
            variant_b_branch: self.variant_b_branch.deep_view(),
            variant_b_technique: self.variant_b_technique.deep_view(),
            blend_a: self.blend_a,
            blend_b: self.blend_b,
            target_branch: self.target_branch.deep_view(),
        }
    }
}

/// Ask the collaborator to run benchmarks on variant branches.
#[derive(Debug, PartialEq, Eq)]
pub struct RunBenchmarkRequest {
    pub variant_branches: Vec<String>,
    pub project_path: String,
    pub metrics: Vec<String>,
    pub timeout_seconds: u64,
}

/// Mathematical image of a benchmark request.
#[verifier::ext_equal]
pub struct RunBenchmarkRequestView {
    pub variant_branches: Seq<Seq<char>>,
    pub project_path: Seq<char>,
    pub metrics: Seq<Seq<char>>,
    pub timeout_seconds: u64,
}

impl DeepView for RunBenchmarkRequest {
    type V = RunBenchmarkRequestView;

    open spec fn deep_view(&self) -> RunBenchmarkRequestView {
        RunBenchmarkRequestView {
            variant_branches: self.variant_branches.deep_view(),
            project_path: self.project_path.deep_view(),
            metrics: self.metrics.deep_view(),
            timeout_seconds: self.timeout_seconds,
        }
    }
}

/// The plain parts of what the benchmark run reports, one entry per
/// branch.
#[derive(Debug, PartialEq, Eq)]
pub struct RunBenchmarkResponse {
    pub results: Vec<(String, BenchmarkOutcome)>,
}

impl DeepView for RunBenchmarkResponse {
    type V = Seq<(Seq<char>, BenchmarkOutcomeView)>;

    open spec fn deep_view(&self) -> Seq<(Seq<char>, BenchmarkOutcomeView)> {
        self.results.deep_view()
    }
}

/// Ask the collaborator to judge variants.
#[derive(Debug, PartialEq, Eq)]
pub struct LlmJudgeRequest {
    pub variant_branches: Vec<String>,
    pub project_path: String,
    pub user_request: String,
}

/// Mathematical image of a judge request.
#[verifier::ext_equal]
pub struct LlmJudgeRequestView {
    pub variant_branches: Seq<Seq<char>>,
    pub project_path: Seq<char>,
    pub user_request: Seq<char>,
}

impl DeepView for LlmJudgeRequest {
    type V = LlmJudgeRequestView;

    open spec fn deep_view(&self) -> LlmJudgeRequestView {
        LlmJudgeRequestView {
            variant_branches: self.variant_branches.deep_view(),
            project_path: self.project_path.deep_view(),
            user_request: self.user_request.deep_view(),
        }
    }
}

/// The plain parts of the judge's answer: each judged branch with its
/// overall score in basis points (0 to 10000).
#[derive(Debug, PartialEq, Eq)]
pub struct LlmJudgeResponse {
    pub scores: Vec<(String, u32)>,
}

impl DeepView for LlmJudgeResponse {
    type V = Seq<(Seq<char>, u32)>;

    open spec fn deep_view(&self) -> Seq<(Seq<char>, u32)> {
        self.scores.deep_view()
    }
}

} // verus!
