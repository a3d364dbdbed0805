//! Help overlay — keybinding reference.

use vstd::prelude::*;
use crate::action::{Action, ActionView};

verus! {

/// The help overlay's state: only whether it is shown.
#[derive(Debug, PartialEq, Eq)]
pub struct HelpComponent {
    pub visible: bool,
}

/// Mathematical image of the help overlay.
#[verifier::ext_equal]
pub struct HelpView {
    pub visible: bool,
}

impl DeepView for HelpComponent {
    type V = HelpView;

    open spec fn deep_view(&self) -> HelpView {
        HelpView { visible: self.visible }
    }
}

/// How the help overlay folds one action: toggling on the help key,
/// and closing on any other action while visible.
pub open spec fn spec_help_step(s: HelpView, a: ActionView) -> HelpView {
    match a {
        ActionView::ToggleHelp => HelpView { visible: !s.visible },
        _ => {
            if s.visible {
                HelpView { visible: false }
            } else {
                s
            }
        },
    }
}

impl HelpComponent {
    /// The overlay starts hidden.
    pub fn new() -> (r: Self)
        ensures
            !r.deep_view().visible,
    {
        HelpComponent { visible: false }
    }

    /// Fold one action into the overlay's state.
    pub fn handle_action(&mut self, action: &Action) -> (chained: Option<Action>)
        ensures
            final(self).deep_view() == spec_help_step(old(self).deep_view(), action.deep_view()),
            chained is None,
    {
        match action {
            Action::ToggleHelp => {
                self.visible = !self.visible;
            },
            _ => {
                if self.visible {
                    self.visible = false;
                }
            },
        }
        proof {
            assert(self.deep_view() =~= spec_help_step(old(self).deep_view(), action.deep_view()));
        }
        None
    }
}

} // verus!
