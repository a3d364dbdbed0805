//! The analyzed project profile handed back by the collaborator.

use vstd::prelude::*;
use crate::research::clone_strings;

verus! {

/// What the collaborator learned about the project under analysis.
#[derive(Debug, PartialEq, Eq)]
pub struct ProjectProfile {
    /// Languages found in the project.
    pub languages: Vec<String>,
    /// Number of source files.
    pub file_count: u64,
    /// Prose summary of the project.
    pub summary: String,
    /// Path to the project root.
    pub path: String,
}

/// Mathematical image of a project profile.
#[verifier::ext_equal]
pub struct ProjectProfileView {
    pub languages: Seq<Seq<char>>,
    pub file_count: u64,
    pub summary: Seq<char>,
    pub path: Seq<char>,
}

impl DeepView for ProjectProfile {
    type V = ProjectProfileView;

    open spec fn deep_view(&self) -> ProjectProfileView {
        ProjectProfileView {
            languages: self.languages.deep_view(),
            file_count: self.file_count,
            summary: self.summary.deep_view(),
            path: self.path.deep_view(),
        }
    }
}

impl Clone for ProjectProfile {
    /// Copies every field; the mathematical value is unchanged.
    fn clone(&self) -> (r: Self)
        ensures
            r.deep_view() == self.deep_view(),
    {
        let r = ProjectProfile {
            languages: clone_strings(&self.languages),
            file_count: self.file_count,
            summary: self.summary.clone(),
            path: self.path.clone(),
        };
        proof {
            assert(r.deep_view() =~= self.deep_view());
        }
        r
    }
}

} // verus!
