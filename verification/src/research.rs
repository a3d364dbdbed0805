//! Paper metadata and extracted technique cards.
//!
//! Scores that the collaborator reports as fractions are held as basis
//! points (0 to 10000), and publication dates as day numbers, so that the
//! orchestration logic works on plain integer values.

use vstd::prelude::*;

verus! {

/// Source of a paper record.
#[derive(Debug, Clone, Copy, PartialEq, Eq, Structural)]
pub enum PaperSource {
    SemanticScholar,
    ArXiv,
}

impl DeepView for PaperSource {
    type V = PaperSource;

    open spec fn deep_view(&self) -> PaperSource {
        *self
    }
}

/// Estimated implementation complexity of a technique.
#[derive(Debug, Clone, Copy, PartialEq, Eq, Structural)]
pub enum Complexity {
    Low,
    Medium,
    High,
}

impl Complexity {
    /// The display label of each complexity level.
    pub open spec fn spec_label(self) -> Seq<char> {
        match self {
            Complexity::Low => "Low"@,
            Complexity::Medium => "Medium"@,
            Complexity::High => "High"@,
        }
    }

    /// Display label.
    pub fn label(&self) -> (r: &'static str)
        ensures
            r@ == self.spec_label(),
    {
        match self {
            Complexity::Low => "Low",
            Complexity::Medium => "Medium",
            Complexity::High => "High",
        }
    }
}

impl DeepView for Complexity {
    type V = Complexity;

    open spec fn deep_view(&self) -> Complexity {
        *self
    }
}

/// Metadata about an academic paper.
#[derive(Debug, PartialEq, Eq)]
pub struct PaperMeta {
    /// Unique identifier.
    pub id: String,
    /// Paper title.
    pub title: String,
    /// List of author names.
    pub authors: Vec<String>,
    /// Publication year.
    pub year: Option<u16>,
    /// Publication date as a day number, if available.
    pub published_day: Option<i64>,
    /// Abstract text.
    pub abstract_text: String,
    /// Number of citations.
    pub citation_count: Option<u32>,
    /// URL to the paper's page.
    pub url: String,
    /// Direct URL to an open-access PDF, if available.
    pub pdf_url: Option<String>,
    /// DOI identifier, if available.
    pub doi: Option<String>,
    /// Source of this paper record.
    pub source: PaperSource,
    /// Fields of study / categories.
    pub fields: Vec<String>,
    /// Relevance score in basis points (0 to 10000), if computed.
    pub relevance_score: Option<u32>,
}

/// Mathematical image of a paper record.
#[verifier::ext_equal]
pub struct PaperMetaView {
    pub id: Seq<char>,
    pub title: Seq<char>,
    pub authors: Seq<Seq<char>>,
    pub year: Option<u16>,
    pub published_day: Option<i64>,
    pub abstract_text: Seq<char>,
    pub citation_count: Option<u32>,
    pub url: Seq<char>,
    pub pdf_url: Option<Seq<char>>,
    pub doi: Option<Seq<char>>,
    pub source: PaperSource,
    pub fields: Seq<Seq<char>>,
    pub relevance_score: Option<u32>,
}

impl PaperMetaView {
    /// A paper can be fetched when it has a PDF URL or a DOI; without
    /// either, nothing can be downloaded for it.
    pub open spec fn has_retrievable_source(self) -> bool {
        self.pdf_url is Some || self.doi is Some
    }
}

impl DeepView for PaperMeta {
    type V = PaperMetaView;

    open spec fn deep_view(&self) -> PaperMetaView {
        PaperMetaView {
            id: self.id.deep_view(),
            title: self.title.deep_view(),
            authors: self.authors.deep_view(),
            year: self.year,
            published_day: self.published_day,
            abstract_text: self.abstract_text.deep_view(),
            citation_count: self.citation_count,
            url: self.url.deep_view(),
            pdf_url: self.pdf_url.deep_view(),
            doi: self.doi.deep_view(),
            source: self.source,
            fields: self.fields.deep_view(),
            relevance_score: self.relevance_score,
        }
    }
}

/// Copy a list of strings, keeping its mathematical value.
pub fn clone_strings(v: &Vec<String>) -> (r: Vec<String>)
    ensures
        r.deep_view() == v.deep_view(),
{
    let mut r: Vec<String> = Vec::new();
    let mut i: usize = 0;
    while i < v.len()
        invariant
            i <= v@.len(),
            r.deep_view() =~= v.deep_view().take(i as int),
        decreases v@.len() - i,
    {
        let x = v[i].clone();
        proof {
            assert(x.deep_view() == v.deep_view()[i as int]);
        }
        let ghost prev = r.deep_view();
        let ghost prevraw = r@;
        r.push(x);
        i = i + 1;
        proof {
            assert(r@ == prevraw.push(x));
            assert(r@.len() == prevraw.len() + 1);
            assert(prev.len() == prevraw.len());
            assert(prevraw.len() == i - 1);
            assert(r.deep_view().len() == r@.len());
            assert(r.deep_view().len() == i);
            assert forall|k: int| 0 <= k < i implies r.deep_view()[k]
                == v.deep_view().take(i as int)[k] by {
                if k < i - 1 {
                    assert(r.deep_view()[k] == prev[k]);
                } else {
                    assert(r.deep_view()[k] == x.deep_view());
                }
            }
            assert(r.deep_view() =~= v.deep_view().take(i as int));
        }
    }
    proof {
        assert(r.deep_view() =~= v.deep_view());
    }
    r
}

/// Copy an optional string, keeping its mathematical value.
pub fn clone_opt_string(v: &Option<String>) -> (r: Option<String>)
    ensures
        r.deep_view() == v.deep_view(),
{
    match v {
        Some(s) => Some(s.clone()),
        None => None,
    }
}

impl Clone for PaperMeta {
    /// Copies every field; the mathematical value is unchanged.
    fn clone(&self) -> (r: Self)
        ensures
            r.deep_view() == self.deep_view(),
    {
        let r = PaperMeta {
            id: self.id.clone(),
            title: self.title.clone(),
            authors: clone_strings(&self.authors),
            year: self.year,
            published_day: self.published_day,
            abstract_text: self.abstract_text.clone(),
            citation_count: self.citation_count,
            url: self.url.clone(),
            pdf_url: clone_opt_string(&self.pdf_url),
            doi: clone_opt_string(&self.doi),
            source: self.source,
            fields: clone_strings(&self.fields),
            relevance_score: self.relevance_score,
        };
        proof {
            assert(r.deep_view() =~= self.deep_view());
        }
        r
    }
}

/// Copy a list of papers, keeping its mathematical value.
pub fn clone_papers(v: &Vec<PaperMeta>) -> (r: Vec<PaperMeta>)
    ensures
        r.deep_view() == v.deep_view(),
{
    let mut r: Vec<PaperMeta> = Vec::new();
    let mut i: usize = 0;
    while i < v.len()
        invariant
            i <= v@.len(),
            r.deep_view() =~= v.deep_view().take(i as int),
        decreases v@.len() - i,
    {
        let x = v[i].clone();
        proof {
            assert(x.deep_view() == v.deep_view()[i as int]);
        }
        let ghost prev = r.deep_view();
        let ghost prevraw = r@;
        r.push(x);
        i = i + 1;
        proof {
            assert(r@ == prevraw.push(x));
            assert(prev.len() == prevraw.len());
            assert(prevraw.len() == i - 1);
            assert(r.deep_view().len() == i);
            assert forall|k: int| 0 <= k < i implies r.deep_view()[k]
                == v.deep_view().take(i as int)[k] by {
                if k < i - 1 {
                    assert(r.deep_view()[k] == prev[k]);
                } else {
                    assert(r.deep_view()[k] == x.deep_view());
                }
            }
            assert(r.deep_view() =~= v.deep_view().take(i as int));
        }
    }
    proof {
        assert(r.deep_view() =~= v.deep_view());
    }
    r
}

/// A structured technique extracted from a research paper.
#[derive(Debug, PartialEq, Eq)]
pub struct TechniqueCard {
    /// Human-readable name for this technique.
    pub name: String,
    /// Reference to the source paper.
    pub paper_id: String,
    /// Paper title for display.
    pub paper_title: String,
    /// Detailed description of the methodology.
    pub methodology: String,
    /// Key algorithmic or architectural components.
    pub key_components: Vec<String>,
    /// What data format / input this technique expects.
    pub required_data_format: String,
    /// Estimated implementation complexity.
    pub implementation_complexity: Complexity,
    /// Hardware requirements or recommendations.
    pub hardware_requirements: String,
    /// External dependencies needed (libraries, packages).
    pub dependencies: Vec<String>,
    /// How well this technique fits the project, in basis points (0 to 10000).
    pub relevance_score: u32,
    /// Suggested approach for integrating into the project.
    pub integration_approach: String,
    /// Whether the user has selected this technique for variant generation.
    pub selected: bool,
}

/// Mathematical image of a technique card.
#[verifier::ext_equal]
pub struct TechniqueCardView {
    pub name: Seq<char>,
    pub paper_id: Seq<char>,
    pub paper_title: Seq<char>,
    pub methodology: Seq<char>,
    pub key_components: Seq<Seq<char>>,
    pub required_data_format: Seq<char>,
    pub implementation_complexity: Complexity,
    pub hardware_requirements: Seq<char>,
    pub dependencies: Seq<Seq<char>>,
    pub relevance_score: u32,
    pub integration_approach: Seq<char>,
    pub selected: bool,
}

impl TechniqueCardView {
    /// The same card with the selection flag replaced.
    pub open spec fn with_selected(self, selected: bool) -> TechniqueCardView {
        TechniqueCardView { selected, ..self }
    }
}

impl DeepView for TechniqueCard {
    type V = TechniqueCardView;

    open spec fn deep_view(&self) -> TechniqueCardView {
        TechniqueCardView {
            name: self.name.deep_view(),
            paper_id: self.paper_id.deep_view(),
            paper_title: self.paper_title.deep_view(),
            methodology: self.methodology.deep_view(),
            key_components: self.key_components.deep_view(),
            required_data_format: self.required_data_format.deep_view(),
            implementation_complexity: self.implementation_complexity,
            hardware_requirements: self.hardware_requirements.deep_view(),
            dependencies: self.dependencies.deep_view(),
            relevance_score: self.relevance_score,
            integration_approach: self.integration_approach.deep_view(),
            selected: self.selected,
        }
    }
}

impl Clone for TechniqueCard {
    /// Copies every field; the mathematical value is unchanged.
    fn clone(&self) -> (r: Self)
        ensures
            r.deep_view() == self.deep_view(),
    {
        let r = TechniqueCard {
            name: self.name.clone(),
            paper_id: self.paper_id.clone(),
            paper_title: self.paper_title.clone(),
            methodology: self.methodology.clone(),
            key_components: clone_strings(&self.key_components),
            required_data_format: self.required_data_format.clone(),
            implementation_complexity: self.implementation_complexity,
            hardware_requirements: self.hardware_requirements.clone(),
            dependencies: clone_strings(&self.dependencies),
            relevance_score: self.relevance_score,
            integration_approach: self.integration_approach.clone(),
            selected: self.selected,
        };
        proof {
            assert(r.deep_view() =~= self.deep_view());
        }
        r
    }
}

/// Copy a list of technique cards, keeping its mathematical value.
pub fn clone_techniques(v: &Vec<TechniqueCard>) -> (r: Vec<TechniqueCard>)
    ensures
        r.deep_view() == v.deep_view(),
{
    let mut r: Vec<TechniqueCard> = Vec::new();
    let mut i: usize = 0;
    while i < v.len()
        invariant
            i <= v@.len(),
            r.deep_view() =~= v.deep_view().take(i as int),
        decreases v@.len() - i,
    {
        let x = v[i].clone();
        proof {
            assert(x.deep_view() == v.deep_view()[i as int]);
        }
        let ghost prev = r.deep_view();
        let ghost prevraw = r@;
        r.push(x);
        i = i + 1;
        proof {
            assert(r@ == prevraw.push(x));
            assert(prev.len() == prevraw.len());
            assert(prevraw.len() == i - 1);
            assert(r.deep_view().len() == i);
            assert forall|k: int| 0 <= k < i implies r.deep_view()[k]
                == v.deep_view().take(i as int)[k] by {
                if k < i - 1 {
                    assert(r.deep_view()[k] == prev[k]);
                } else {
                    assert(r.deep_view()[k] == x.deep_view());
                }
            }
            assert(r.deep_view() =~= v.deep_view().take(i as int));
        }
    }
    proof {
        assert(r.deep_view() =~= v.deep_view());
    }
    r
}

} // verus!
