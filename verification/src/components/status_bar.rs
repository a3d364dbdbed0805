//! Status bar at the bottom of the display.

use vstd::prelude::*;
use crate::action::{Action, ActionView};
use crate::phase::Phase;

verus! {

/// The status bar's state: the message shown and the active phase.
#[derive(Debug, PartialEq, Eq)]
pub struct StatusBarComponent {
    /// Current status message.
    pub message: String,
    /// Current active phase.
    pub current_phase: Phase,
}

/// Mathematical image of the status bar.
#[verifier::ext_equal]
pub struct StatusBarView {
    pub message: Seq<char>,
    pub current_phase: Phase,
}

impl DeepView for StatusBarComponent {
    type V = StatusBarView;

    open spec fn deep_view(&self) -> StatusBarView {
        StatusBarView {
            message: self.message.deep_view(),
            current_phase: self.current_phase,
        }
    }
}

/// The message the bar starts with.
pub open spec fn spec_welcome_message() -> Seq<char> {
    "Welcome to uniq. Set up your project in Phase 1."@
}

/// How the status bar folds one action: status messages replace or
/// clear the text, and phase jumps move the badge.
pub open spec fn spec_status_bar_step(s: StatusBarView, a: ActionView) -> StatusBarView {
    match a {
        ActionView::SetStatus(m) => StatusBarView { message: m, ..s },
        ActionView::ClearStatus => StatusBarView { message: Seq::empty(), ..s },
        ActionView::GoToPhase(p) => StatusBarView { current_phase: p, ..s },
        _ => s,
    }
}

impl StatusBarComponent {
    /// The bar starts with the welcome message on the first phase.
    pub fn new() -> (r: Self)
        ensures
            r.deep_view().message == spec_welcome_message(),
            r.deep_view().current_phase is ProjectIntake,
    {
        StatusBarComponent {
            message: "Welcome to uniq. Set up your project in Phase 1.".to_owned(),
            current_phase: Phase::ProjectIntake,
        }
    }

    /// Short phase name for the badge.
    pub fn phase_badge(&self) -> (r: &'static str)
        ensures
            r@ == spec_phase_badge(self.deep_view().current_phase),
    {
        match self.current_phase {
            Phase::ProjectIntake => "Intake",
            Phase::ResearchDiscovery => "Research",
            Phase::TechniqueSelection => "Techniques",
            Phase::VariantGeneration => "Build",
            Phase::Benchmarking => "Benchmark",
        }
    }

    /// Fold one action into the bar's state.
    pub fn handle_action(&mut self, action: &Action) -> (chained: Option<Action>)
        ensures
            final(self).deep_view() == spec_status_bar_step(
                old(self).deep_view(),
                action.deep_view(),
            ),
            chained is None,
    {
        match action {
            Action::SetStatus(msg) => {
                self.message = msg.clone();
            },
            Action::ClearStatus => {
                self.message = String::new();
            },
            Action::GoToPhase(phase) => {
                self.current_phase = *phase;
            },
            _ => {},
        }
        proof {
            assert(self.deep_view() =~= spec_status_bar_step(
                old(self).deep_view(),
                action.deep_view(),
            ));
        }
        None
    }
}

/// The badge text of each phase.
pub open spec fn spec_phase_badge(p: Phase) -> Seq<char> {
    match p {
        Phase::ProjectIntake => "Intake"@,
        Phase::ResearchDiscovery => "Research"@,
        Phase::TechniqueSelection => "Techniques"@,
        Phase::VariantGeneration => "Build"@,
        Phase::Benchmarking => "Benchmark"@,
    }
}

} // verus!
