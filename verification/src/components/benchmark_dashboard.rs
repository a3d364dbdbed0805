//! Benchmarking phase — the variants under comparison.

use vstd::prelude::*;
use crate::action::{Action, ActionView};
use crate::variant::{Variant, VariantView};

verus! {

/// The benchmarking phase's state.
#[derive(Debug, PartialEq, Eq)]
pub struct BenchmarkDashboardComponent {
    /// The variants under comparison (synced from the generation phase
    /// when benchmarking starts).
    pub variants: Vec<Variant>,
    /// Currently selected variant.
    pub selected: usize,
    /// Whether benchmarking is in progress.
    pub benchmarking: bool,
}

/// Mathematical image of the benchmarking phase.
#[verifier::ext_equal]
pub struct BenchmarkDashboardView {
    pub variants: Seq<VariantView>,
    pub selected: usize,
    pub benchmarking: bool,
}

impl DeepView for BenchmarkDashboardComponent {
    type V = BenchmarkDashboardView;

    open spec fn deep_view(&self) -> BenchmarkDashboardView {
        BenchmarkDashboardView {
            variants: self.variants.deep_view(),
            selected: self.selected,
            benchmarking: self.benchmarking,
        }
    }
}

/// How the benchmarking phase folds one action.
pub open spec fn spec_benchmark_dashboard_step(s: BenchmarkDashboardView, a: ActionView) -> (
    BenchmarkDashboardView,
    Option<ActionView>,
) {
    match a {
        ActionView::ScrollUp | ActionView::SelectPrev => (
            BenchmarkDashboardView {
                selected: if s.selected > 0 {
                    (s.selected - 1) as usize
                } else {
                    s.selected
                },
                ..s
            },
            None,
        ),
        ActionView::ScrollDown | ActionView::SelectNext => (
            BenchmarkDashboardView {
                selected: if s.selected + 1 < s.variants.len() {
                    (s.selected + 1) as usize
                } else {
                    s.selected
                },
                ..s
            },
            None,
        ),
        ActionView::BenchmarkComplete => (
            BenchmarkDashboardView { benchmarking: false, ..s },
            Some(ActionView::SetStatus("Benchmarking complete!"@)),
        ),
        _ => (s, None),
    }
}

impl BenchmarkDashboardComponent {
    /// The phase starts with no variants.
    pub fn new() -> (r: Self)
        ensures
            r.deep_view().variants == Seq::<VariantView>::empty(),
            r.deep_view().selected == 0,
            !r.deep_view().benchmarking,
    {
        let r = BenchmarkDashboardComponent {
            variants: Vec::new(),
            selected: 0,
            benchmarking: false,
        };
        proof {
            assert(r.deep_view().variants =~= Seq::<VariantView>::empty());
        }
        r
    }

    /// Fold one action into the phase's state.
    pub fn handle_action(&mut self, action: &Action) -> (chained: Option<Action>)
        ensures
            final(self).deep_view() == spec_benchmark_dashboard_step(
                old(self).deep_view(),
                action.deep_view(),
            ).0,
            chained.deep_view() == spec_benchmark_dashboard_step(
                old(self).deep_view(),
                action.deep_view(),
            ).1,
    {
        let ghost pre = self.deep_view();
        let ghost av = action.deep_view();
        let r: Option<Action> = match action {
            Action::ScrollUp | Action::SelectPrev => {
                if self.selected > 0 {
                    self.selected = self.selected - 1;
                }
                None
            },
            Action::ScrollDown | Action::SelectNext => {
                let len = self.variants.len();
                if len > 0 && self.selected < len - 1 {
                    self.selected = self.selected + 1;
                }
                None
            },
            Action::BenchmarkComplete => {
                self.benchmarking = false;
                Some(Action::SetStatus("Benchmarking complete!".to_owned()))
            },
            _ => { None },
        };
        proof {
            assert(self.deep_view() =~= spec_benchmark_dashboard_step(pre, av).0);
        }
        r
    }
}

} // verus!
