//! The five pipeline phases and the input-capture mode.

use vstd::prelude::*;

verus! {

/// Whether raw keys should be forwarded to the focused text field or
/// interpreted as global shortcuts.
#[derive(Debug, Clone, Copy, PartialEq, Eq, Structural)]
pub enum InputMode {
    /// Normal mode — keys are global shortcuts.
    Normal,
    /// Text input mode — keys go to the focused text field.
    Editing,
}

/// The five pipeline phases, in order.
#[derive(Debug, Clone, Copy, PartialEq, Eq, Hash, Structural)]
pub enum Phase {
    ProjectIntake,
    ResearchDiscovery,
    TechniqueSelection,
    VariantGeneration,
    Benchmarking,
}

impl Phase {
    /// Position of this phase in the pipeline, from 0 to 4.
    pub open spec fn ordinal(self) -> int {
        match self {
            Phase::ProjectIntake => 0,
            Phase::ResearchDiscovery => 1,
            Phase::TechniqueSelection => 2,
            Phase::VariantGeneration => 3,
            Phase::Benchmarking => 4,
        }
    }

    /// The phase one step forward, if any: the last phase has none.
    pub open spec fn spec_next(self) -> Option<Phase> {
        match self {
            Phase::ProjectIntake => Some(Phase::ResearchDiscovery),
            Phase::ResearchDiscovery => Some(Phase::TechniqueSelection),
            Phase::TechniqueSelection => Some(Phase::VariantGeneration),
            Phase::VariantGeneration => Some(Phase::Benchmarking),
            Phase::Benchmarking => None,
        }
    }

    /// The phase one step back, if any: the first phase has none.
    pub open spec fn spec_prev(self) -> Option<Phase> {
        match self {
            Phase::ProjectIntake => None,
            Phase::ResearchDiscovery => Some(Phase::ProjectIntake),
            Phase::TechniqueSelection => Some(Phase::ResearchDiscovery),
            Phase::VariantGeneration => Some(Phase::TechniqueSelection),
            Phase::Benchmarking => Some(Phase::VariantGeneration),
        }
    }

    /// Get all phases in order.
    pub fn all() -> (r: Vec<Phase>)
        ensures
            r@ =~= seq![
                Phase::ProjectIntake,
                Phase::ResearchDiscovery,
                Phase::TechniqueSelection,
                Phase::VariantGeneration,
                Phase::Benchmarking,
            ],
    {
        let mut v: Vec<Phase> = Vec::new();
        v.push(Phase::ProjectIntake);
        v.push(Phase::ResearchDiscovery);
        v.push(Phase::TechniqueSelection);
        v.push(Phase::VariantGeneration);
        v.push(Phase::Benchmarking);
        v
    }

    /// The display label for the phase tab.
    pub open spec fn spec_label(self) -> Seq<char> {
        match self {
            Phase::ProjectIntake => "1.Intake"@,
            Phase::ResearchDiscovery => "2.Research"@,
            Phase::TechniqueSelection => "3.Techniques"@,
            Phase::VariantGeneration => "4.Build"@,
            Phase::Benchmarking => "5.Benchmark"@,
        }
    }

    /// Get the display label for the phase tab.
    pub fn label(&self) -> (r: &'static str)
        ensures
            r@ == self.spec_label(),
    {
        match self {
            Phase::ProjectIntake => "1.Intake",
            Phase::ResearchDiscovery => "2.Research",
            Phase::TechniqueSelection => "3.Techniques",
            Phase::VariantGeneration => "4.Build",
            Phase::Benchmarking => "5.Benchmark",
        }
    }

    /// Get the next phase, if any. There is no wraparound.
    pub fn next(&self) -> (r: Option<Phase>)
        ensures
            r == self.spec_next(),
            r is Some <==> self.ordinal() < 4,
            r is Some ==> r.unwrap().ordinal() == self.ordinal() + 1,
    {
        match self {
            Phase::ProjectIntake => Some(Phase::ResearchDiscovery),
            Phase::ResearchDiscovery => Some(Phase::TechniqueSelection),
            Phase::TechniqueSelection => Some(Phase::VariantGeneration),
            Phase::VariantGeneration => Some(Phase::Benchmarking),
            Phase::Benchmarking => None,
        }
    }

    /// Get the previous phase, if any. There is no wraparound.
    pub fn prev(&self) -> (r: Option<Phase>)
        ensures
            r == self.spec_prev(),
            r is Some <==> self.ordinal() > 0,
            r is Some ==> r.unwrap().ordinal() == self.ordinal() - 1,
    {
        match self {
            Phase::ProjectIntake => None,
            Phase::ResearchDiscovery => Some(Phase::ProjectIntake),
            Phase::TechniqueSelection => Some(Phase::ResearchDiscovery),
            Phase::VariantGeneration => Some(Phase::TechniqueSelection),
            Phase::Benchmarking => Some(Phase::VariantGeneration),
        }
    }

    /// Numeric index (0-based).
    pub fn index(&self) -> (r: usize)
        ensures
            r == self.ordinal(),
    {
        match self {
            Phase::ProjectIntake => 0,
            Phase::ResearchDiscovery => 1,
            Phase::TechniqueSelection => 2,
            Phase::VariantGeneration => 3,
            Phase::Benchmarking => 4,
        }
    }
}

impl View for Phase {
    type V = Phase;

    open spec fn view(&self) -> Phase {
        *self
    }
}

impl DeepView for Phase {
    type V = Phase;

    open spec fn deep_view(&self) -> Phase {
        *self
    }
}

impl View for InputMode {
    type V = InputMode;

    open spec fn view(&self) -> InputMode {
        *self
    }
}

impl DeepView for InputMode {
    type V = InputMode;

    open spec fn deep_view(&self) -> InputMode {
        *self
    }
}

} // verus!
