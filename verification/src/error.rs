//! The failure taxonomy. Every network, process, or deserialization
//! failure at a task boundary is caught and carried as one of these —
//! never allowed to cross into a panic.

use vstd::prelude::*;

verus! {

/// One failure, classified by where it arose. Failures of outside
/// origin (git, I/O, serialization) carry their message as text.
#[derive(Debug, PartialEq, Eq)]
pub enum UniqError {
    Config(String),
    ProjectAnalysis(String),
    Research(String),
    PdfExtraction(String),
    VariantGeneration(String),
    VariantMerge(String),
    Benchmark(String),
    Git(String),
    Sidecar(String),
    Io(String),
    Serialization(String),
}

/// Mathematical image of an error.
pub enum UniqErrorView {
    Config(Seq<char>),
    ProjectAnalysis(Seq<char>),
    Research(Seq<char>),
    PdfExtraction(Seq<char>),
    VariantGeneration(Seq<char>),
    VariantMerge(Seq<char>),
    Benchmark(Seq<char>),
    Git(Seq<char>),
    Sidecar(Seq<char>),
    Io(Seq<char>),
    Serialization(Seq<char>),
}

impl DeepView for UniqError {
    type V = UniqErrorView;

    open spec fn deep_view(&self) -> UniqErrorView {
        match self {
            UniqError::Config(m) => UniqErrorView::Config(m.deep_view()),
            UniqError::ProjectAnalysis(m) => UniqErrorView::ProjectAnalysis(m.deep_view()),
            UniqError::Research(m) => UniqErrorView::Research(m.deep_view()),
            UniqError::PdfExtraction(m) => UniqErrorView::PdfExtraction(m.deep_view()),
            UniqError::VariantGeneration(m) => UniqErrorView::VariantGeneration(m.deep_view()),
            UniqError::VariantMerge(m) => UniqErrorView::VariantMerge(m.deep_view()),
            UniqError::Benchmark(m) => UniqErrorView::Benchmark(m.deep_view()),
            UniqError::Git(m) => UniqErrorView::Git(m.deep_view()),
            UniqError::Sidecar(m) => UniqErrorView::Sidecar(m.deep_view()),
            UniqError::Io(m) => UniqErrorView::Io(m.deep_view()),
            UniqError::Serialization(m) => UniqErrorView::Serialization(m.deep_view()),
        }
    }
}

impl UniqErrorView {
    /// The prefix each class of failure is shown with.
    pub open spec fn spec_prefix(self) -> Seq<char> {
        match self {
            UniqErrorView::Config(_) => "Configuration error: "@,
            UniqErrorView::ProjectAnalysis(_) => "Project analysis error: "@,
            UniqErrorView::Research(_) => "Research discovery error: "@,
            UniqErrorView::PdfExtraction(_) => "PDF extraction error: "@,
            UniqErrorView::VariantGeneration(_) => "Variant generation error: "@,
            UniqErrorView::VariantMerge(_) => "Variant merge error: "@,
            UniqErrorView::Benchmark(_) => "Benchmark error: "@,
            UniqErrorView::Git(_) => "Git operation error: "@,
            UniqErrorView::Sidecar(_) => "Sidecar communication error: "@,
            UniqErrorView::Io(_) => "IO error: "@,
            UniqErrorView::Serialization(_) => "Serialization error: "@,
        }
    }

    /// The message the error carries.
    pub open spec fn spec_message(self) -> Seq<char> {
        match self {
            UniqErrorView::Config(m) => m,
            UniqErrorView::ProjectAnalysis(m) => m,
            UniqErrorView::Research(m) => m,
            UniqErrorView::PdfExtraction(m) => m,
            UniqErrorView::VariantGeneration(m) => m,
            UniqErrorView::VariantMerge(m) => m,
            UniqErrorView::Benchmark(m) => m,
            UniqErrorView::Git(m) => m,
            UniqErrorView::Sidecar(m) => m,
            UniqErrorView::Io(m) => m,
            UniqErrorView::Serialization(m) => m,
        }
    }
}

impl UniqError {
    /// The display text: the class prefix followed by the message.
    pub fn describe(&self) -> (r: String)
        ensures
            r@ == self.deep_view().spec_prefix() + self.deep_view().spec_message(),
    {
        let prefix: &'static str = match self {
            UniqError::Config(_) => "Configuration error: ",
            UniqError::ProjectAnalysis(_) => "Project analysis error: ",
            UniqError::Research(_) => "Research discovery error: ",
            UniqError::PdfExtraction(_) => "PDF extraction error: ",
            UniqError::VariantGeneration(_) => "Variant generation error: ",
            UniqError::VariantMerge(_) => "Variant merge error: ",
            UniqError::Benchmark(_) => "Benchmark error: ",
            UniqError::Git(_) => "Git operation error: ",
            UniqError::Sidecar(_) => "Sidecar communication error: ",
            UniqError::Io(_) => "IO error: ",
            UniqError::Serialization(_) => "Serialization error: ",
        };
        let message: &str = match self {
            UniqError::Config(m) => m.as_str(),
            UniqError::ProjectAnalysis(m) => m.as_str(),
            UniqError::Research(m) => m.as_str(),
            UniqError::PdfExtraction(m) => m.as_str(),
            UniqError::VariantGeneration(m) => m.as_str(),
            UniqError::VariantMerge(m) => m.as_str(),
            UniqError::Benchmark(m) => m.as_str(),
            UniqError::Git(m) => m.as_str(),
            UniqError::Sidecar(m) => m.as_str(),
            UniqError::Io(m) => m.as_str(),
            UniqError::Serialization(m) => m.as_str(),
        };
        let mut r = prefix.to_owned();
        r.append(message);
        r
    }
}

} // verus!
