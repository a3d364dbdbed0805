//! Candidate implementation variants produced by the pipeline.

use vstd::prelude::*;
use crate::benchmark::{BenchmarkOutcome, BenchmarkOutcomeView};
use crate::research::{clone_strings, TechniqueCard};
use crate::text::{dec_string, spec_dec};

verus! {

/// Identifier of a variant.
#[derive(Debug, PartialEq, Eq)]
pub struct VariantId(pub String);

impl DeepView for VariantId {
    type V = Seq<char>;

    open spec fn deep_view(&self) -> Seq<char> {
        self.0.deep_view()
    }
}

impl Clone for VariantId {
    /// Copies the identifier; the mathematical value is unchanged.
    fn clone(&self) -> (r: Self)
        ensures
            r.deep_view() == self.deep_view(),
    {
        VariantId(self.0.clone())
    }
}

/// Lifecycle of one variant. A variant is created `Pending`, and moves
/// to exactly one of `Ready` or `Failed` once.
#[derive(Debug, PartialEq, Eq)]
pub enum VariantStatus {
    Pending,
    Generating,
    Ready,
    Failed(String),
}

/// Mathematical image of a variant status.
pub enum VariantStatusView {
    Pending,
    Generating,
    Ready,
    Failed(Seq<char>),
}

impl VariantStatusView {
    /// A terminal status is `Ready` or `Failed`; pending and generating
    /// variants are still owed a report.
    pub open spec fn is_terminal(self) -> bool {
        self is Ready || self is Failed
    }
}

impl DeepView for VariantStatus {
    type V = VariantStatusView;

    open spec fn deep_view(&self) -> VariantStatusView {
        match self {
            VariantStatus::Pending => VariantStatusView::Pending,
            VariantStatus::Generating => VariantStatusView::Generating,
            VariantStatus::Ready => VariantStatusView::Ready,
            VariantStatus::Failed(e) => VariantStatusView::Failed(e.deep_view()),
        }
    }
}

impl Clone for VariantStatus {
    /// Copies the status; the mathematical value is unchanged.
    fn clone(&self) -> (r: Self)
        ensures
            r.deep_view() == self.deep_view(),
    {
        match self {
            VariantStatus::Pending => VariantStatus::Pending,
            VariantStatus::Generating => VariantStatus::Generating,
            VariantStatus::Ready => VariantStatus::Ready,
            VariantStatus::Failed(e) => VariantStatus::Failed(e.clone()),
        }
    }
}

/// One candidate implementation: an original research-based variant or
/// a merge-derived one.
#[derive(Debug, PartialEq, Eq)]
pub struct Variant {
    /// Identifier, unique among the run's variants.
    pub id: VariantId,
    /// Human-readable name.
    pub display_name: String,
    /// Branch the variant's code lives on.
    pub branch_name: String,
    /// Lifecycle status.
    pub status: VariantStatus,
    /// Files the generation touched.
    pub modified_files: Vec<String>,
    /// Dependencies the generation added.
    pub new_dependencies: Vec<String>,
    /// Benchmark outcome, once benchmarked.
    pub benchmark_results: Option<BenchmarkOutcome>,
    /// Whether this variant was produced by merging two parents.
    pub merged: bool,
}

/// Mathematical image of a variant.
#[verifier::ext_equal]
pub struct VariantView {
    pub id: Seq<char>,
    pub display_name: Seq<char>,
    pub branch_name: Seq<char>,
    pub status: VariantStatusView,
    pub modified_files: Seq<Seq<char>>,
    pub new_dependencies: Seq<Seq<char>>,
    pub benchmark_results: Option<BenchmarkOutcomeView>,
    pub merged: bool,
}

impl DeepView for Variant {
    type V = VariantView;

    open spec fn deep_view(&self) -> VariantView {
        VariantView {
            id: self.id.deep_view(),
            display_name: self.display_name.deep_view(),
            branch_name: self.branch_name.deep_view(),
            status: self.status.deep_view(),
            modified_files: self.modified_files.deep_view(),
            new_dependencies: self.new_dependencies.deep_view(),
            benchmark_results: self.benchmark_results.deep_view(),
            merged: self.merged,
        }
    }
}

impl Clone for Variant {
    /// Copies every field; the mathematical value is unchanged.
    fn clone(&self) -> (r: Self)
        ensures
            r.deep_view() == self.deep_view(),
    {
        let r = Variant {
            id: self.id.clone(),
            display_name: self.display_name.clone(),
            branch_name: self.branch_name.clone(),
            status: self.status.clone(),
            modified_files: clone_strings(&self.modified_files),
            new_dependencies: clone_strings(&self.new_dependencies),
            benchmark_results: match &self.benchmark_results {
                Some(b) => Some(b.clone()),
                None => None,
            },
            merged: self.merged,
        };
        proof {
            assert(r.deep_view() =~= self.deep_view());
        }
        r
    }
}

/// The identifier minted for the research variant with this 1-based
/// position.
pub open spec fn spec_variant_ident(index: int) -> Seq<char> {
    "variant-"@ + spec_dec(index)
}

/// The branch name minted for the research variant with this 1-based
/// position.
pub open spec fn spec_variant_branch(index: int) -> Seq<char> {
    "uniq/variant-"@ + spec_dec(index)
}

/// The fresh pending variant minted for a technique at a 1-based
/// position.
pub open spec fn spec_from_technique(index: int, name: Seq<char>) -> VariantView {
    VariantView {
        id: spec_variant_ident(index),
        display_name: name,
        branch_name: spec_variant_branch(index),
        status: VariantStatusView::Pending,
        modified_files: Seq::empty(),
        new_dependencies: Seq::empty(),
        benchmark_results: None,
        merged: false,
    }
}

impl Variant {
    /// Create a pending variant stub for one selected technique; `index`
    /// is the variant's 1-based position in the generation batch.
    pub fn from_technique(index: usize, technique: &TechniqueCard) -> (r: Variant)
        ensures
            r.deep_view() == spec_from_technique(index as int, technique.deep_view().name),
    {
        let num = dec_string(index as u64);
        let mut ident = "variant-".to_owned();
        ident.append(num.as_str());
        let mut branch = "uniq/variant-".to_owned();
        branch.append(num.as_str());
        let r = Variant {
            id: VariantId(ident),
            display_name: technique.name.clone(),
            branch_name: branch,
            status: VariantStatus::Pending,
            modified_files: Vec::new(),
            new_dependencies: Vec::new(),
            benchmark_results: None,
            merged: false,
        };
        proof {
            assert(r.deep_view() =~= spec_from_technique(
                index as int,
                technique.deep_view().name,
            ));
        }
        r
    }

    /// Whether this variant was produced by a merge.
    pub fn is_merge(&self) -> (r: bool)
        ensures
            r == self.deep_view().merged,
    {
        self.merged
    }

    /// Whether this variant has reached a terminal status.
    pub fn is_terminal(&self) -> (r: bool)
        ensures
            r == self.deep_view().status.is_terminal(),
    {
        match &self.status {
            VariantStatus::Ready => true,
            VariantStatus::Failed(_) => true,
            VariantStatus::Pending => false,
            VariantStatus::Generating => false,
        }
    }

    /// Whether this variant is ready to benchmark or merge.
    pub fn is_ready(&self) -> (r: bool)
        ensures
            r == (self.deep_view().status is Ready),
    {
        match &self.status {
            VariantStatus::Ready => true,
            _ => false,
        }
    }
}

/// Copy a list of variants, keeping its mathematical value.
pub fn clone_variants(v: &Vec<Variant>) -> (r: Vec<Variant>)
    ensures
        r.deep_view() == v.deep_view(),
{
    let mut r: Vec<Variant> = Vec::new();
    let mut i: usize = 0;
    while i < v.len()
        invariant
            i <= v@.len(),
            r.deep_view() =~= v.deep_view().take(i as int),
        decreases v@.len() - i,
    {
        let x = v[i].clone();
        proof {
            assert(x.deep_view() == v.deep_view()[i as int]);
        }
        let ghost prev = r.deep_view();
        let ghost prevraw = r@;
        r.push(x);
        i = i + 1;
        proof {
            assert(r@ == prevraw.push(x));
            assert(prev.len() == prevraw.len());
            assert(prevraw.len() == i - 1);
            assert(r.deep_view().len() == i);
            assert forall|k: int| 0 <= k < i implies r.deep_view()[k]
                == v.deep_view().take(i as int)[k] by {
                if k < i - 1 {
                    assert(r.deep_view()[k] == prev[k]);
                } else {
                    assert(r.deep_view()[k] == x.deep_view());
                }
            }
            assert(r.deep_view() =~= v.deep_view().take(i as int));
        }
    }
    proof {
        assert(r.deep_view() =~= v.deep_view());
    }
    r
}

} // verus!
