//! Merge dialog — overlay for selecting two variants and a blend ratio.

use vstd::prelude::*;
use crate::action::{Action, ActionView};
use crate::merge::BlendRatio;
use crate::variant::Variant;

verus! {

/// Which field in the merge dialog is focused.
#[derive(Debug, Clone, Copy, PartialEq, Eq, Structural)]
pub enum MergeField {
    VariantA,
    VariantB,
    BlendSlider,
}

/// The merge dialog's state.
#[derive(Debug, PartialEq, Eq)]
pub struct MergeDialogComponent {
    /// Whether the dialog is visible.
    pub visible: bool,
    /// Available variants to merge: (id, display name). Selectability
    /// is independent of lineage ownership, so the same variant may
    /// appear here however it is owned in a lineage tree.
    pub available_variants: Vec<(String, String)>,
    /// Selected index for variant A.
    pub variant_a_idx: usize,
    /// Selected index for variant B.
    pub variant_b_idx: usize,
    /// Current blend ratio for A.
    pub blend_a: BlendRatio,
    /// Current blend ratio for B.
    pub blend_b: BlendRatio,
    /// Which field is focused.
    pub focused: MergeField,
    /// Whether a merge is in progress.
    pub merging: bool,
}

/// Mathematical image of the merge dialog.
#[verifier::ext_equal]
pub struct MergeDialogView {
    pub visible: bool,
    pub available_variants: Seq<(Seq<char>, Seq<char>)>,
    pub variant_a_idx: usize,
    pub variant_b_idx: usize,
    pub blend_a: BlendRatio,
    pub blend_b: BlendRatio,
    pub focused: MergeField,
    pub merging: bool,
}

impl DeepView for MergeDialogComponent {
    type V = MergeDialogView;

    open spec fn deep_view(&self) -> MergeDialogView {
        MergeDialogView {
            visible: self.visible,
            available_variants: self.available_variants.deep_view(),
            variant_a_idx: self.variant_a_idx,
            variant_b_idx: self.variant_b_idx,
            blend_a: self.blend_a,
            blend_b: self.blend_b,
            focused: self.focused,
            merging: self.merging,
        }
    }
}

/// How the dialog folds one action. While hidden it reacts only to
/// being opened. Arrow keys move between its fields; left/right cycle
/// the selected variant, or step the blend — the B side always showing
/// the ordinal inverse of the A side. Confirm hands a `StartMerge`
/// back, or explains why it cannot.
pub open spec fn spec_merge_dialog_step(s: MergeDialogView, a: ActionView) -> (
    MergeDialogView,
    Option<ActionView>,
) {
    if !s.visible {
        if a is OpenMergeDialog {
            (MergeDialogView { visible: true, focused: MergeField::VariantA, ..s }, None)
        } else {
            (s, None)
        }
    } else {
        match a {
            ActionView::CloseMergeDialog => (MergeDialogView { visible: false, ..s }, None),
            ActionView::ScrollDown | ActionView::SelectNext => (
                MergeDialogView {
                    focused: match s.focused {
                        MergeField::VariantA => MergeField::VariantB,
                        MergeField::VariantB => MergeField::BlendSlider,
                        MergeField::BlendSlider => MergeField::BlendSlider,
                    },
                    ..s
                },
                None,
            ),
            ActionView::ScrollUp | ActionView::SelectPrev => (
                MergeDialogView {
                    focused: match s.focused {
                        MergeField::VariantA => MergeField::VariantA,
                        MergeField::VariantB => MergeField::VariantA,
                        MergeField::BlendSlider => MergeField::VariantB,
                    },
                    ..s
                },
                None,
            ),
            ActionView::NextPhase => (
                match s.focused {
                    MergeField::VariantA => MergeDialogView {
                        variant_a_idx: if s.variant_a_idx + 1 < s.available_variants.len() {
                            (s.variant_a_idx + 1) as usize
                        } else {
                            s.variant_a_idx
                        },
                        ..s
                    },
                    MergeField::VariantB => MergeDialogView {
                        variant_b_idx: if s.variant_b_idx + 1 < s.available_variants.len() {
                            (s.variant_b_idx + 1) as usize
                        } else {
                            s.variant_b_idx
                        },
                        ..s
                    },
                    MergeField::BlendSlider => MergeDialogView {
                        blend_a: s.blend_a.spec_next(),
                        blend_b: s.blend_a.spec_next().spec_paired(),
                        ..s
                    },
                },
                None,
            ),
            ActionView::PrevPhase => (
                match s.focused {
                    MergeField::VariantA => MergeDialogView {
                        variant_a_idx: if s.variant_a_idx > 0 {
                            (s.variant_a_idx - 1) as usize
                        } else {
                            s.variant_a_idx
                        },
                        ..s
                    },
                    MergeField::VariantB => MergeDialogView {
                        variant_b_idx: if s.variant_b_idx > 0 {
                            (s.variant_b_idx - 1) as usize
                        } else {
                            s.variant_b_idx
                        },
                        ..s
                    },
                    MergeField::BlendSlider => MergeDialogView {
                        blend_a: s.blend_a.spec_prev(),
                        blend_b: s.blend_a.spec_prev().spec_paired(),
                        ..s
                    },
                },
                None,
            ),
            ActionView::Confirm => {
                if s.variant_a_idx == s.variant_b_idx {
                    (s, Some(ActionView::SetStatus("Cannot merge a variant with itself"@)))
                } else if s.available_variants.len() < 2 || s.variant_a_idx
                    >= s.available_variants.len() || s.variant_b_idx
                    >= s.available_variants.len() {
                    (s, Some(ActionView::SetStatus("Need at least 2 variants to merge"@)))
                } else {
                    (
                        MergeDialogView { merging: true, visible: false, ..s },
                        Some(
                            ActionView::StartMerge {
                                variant_a_id: s.available_variants[s.variant_a_idx as int].0,
                                variant_b_id: s.available_variants[s.variant_b_idx as int].0,
                                blend_a: (25 * s.blend_a.ordinal()) as u8,
                                blend_b: (25 * s.blend_b.ordinal()) as u8,
                            },
                        ),
                    )
                }
            },
            _ => (s, None),
        }
    }
}

impl MergeDialogComponent {
    /// The dialog starts hidden, with an even blend.
    pub fn new() -> (r: Self)
        ensures
            !r.deep_view().visible,
            r.deep_view().available_variants == Seq::<(Seq<char>, Seq<char>)>::empty(),
            r.deep_view().variant_a_idx == 0,
            r.deep_view().variant_b_idx == 1,
            r.deep_view().blend_a is Half,
            r.deep_view().blend_b is Half,
            !r.deep_view().merging,
    {
        let r = MergeDialogComponent {
            visible: false,
            available_variants: Vec::new(),
            variant_a_idx: 0,
            variant_b_idx: 1,
            blend_a: BlendRatio::Half,
            blend_b: BlendRatio::Half,
            focused: MergeField::VariantA,
            merging: false,
        };
        proof {
            assert(r.deep_view().available_variants =~= Seq::<(Seq<char>, Seq<char>)>::empty());
        }
        r
    }

    /// Update the available variants list from the live variants.
    pub fn set_variants(&mut self, variants: &Vec<Variant>)
        ensures
            final(self).deep_view() == (MergeDialogView {
                available_variants: Seq::new(
                    variants.deep_view().len(),
                    |i: int| (variants.deep_view()[i].id, variants.deep_view()[i].display_name),
                ),
                ..old(self).deep_view()
            }),
    {
        let ghost pre = self.deep_view();
        let mut avail: Vec<(String, String)> = Vec::new();
        let mut i: usize = 0;
        while i < variants.len()
            invariant
                i <= variants@.len(),
                avail.deep_view() =~= Seq::new(
                    i as nat,
                    |k: int| (variants.deep_view()[k].id, variants.deep_view()[k].display_name),
                ),
            decreases variants@.len() - i,
        {
            let ghost prev = avail.deep_view();
            let ghost prevraw = avail@;
            let entry = (variants[i].id.0.clone(), variants[i].display_name.clone());
            let ghost ev = entry.deep_view();
            proof {
                assert(ev == (
                    variants.deep_view()[i as int].id,
                    variants.deep_view()[i as int].display_name,
                ));
            }
            avail.push(entry);
            i = i + 1;
            proof {
                assert(avail@ =~= prevraw.push(avail@[prevraw.len() as int]));
                assert(prev.len() == prevraw.len());
                assert(prevraw.len() == i - 1);
                assert(avail.deep_view().len() == i);
                assert forall|k: int| 0 <= k < i implies avail.deep_view()[k] == (
                    variants.deep_view()[k].id,
                    variants.deep_view()[k].display_name,
                ) by {
                    if k < i - 1 {
                        assert(avail.deep_view()[k] == prev[k]);
                    } else {
                        assert(avail@[k] == avail@.last());
                        assert(avail.deep_view()[k] == ev);
                    }
                }
                assert(avail.deep_view() =~= Seq::new(
                    i as nat,
                    |k: int| (variants.deep_view()[k].id, variants.deep_view()[k].display_name),
                ));
            }
        }
        self.available_variants = avail;
        proof {
            assert(self.deep_view() =~= MergeDialogView {
                available_variants: Seq::new(
                    variants.deep_view().len(),
                    |k: int| (variants.deep_view()[k].id, variants.deep_view()[k].display_name),
                ),
                ..pre
            });
        }
    }

    /// Fold one action into the dialog's state.
    pub fn handle_action(&mut self, action: &Action) -> (chained: Option<Action>)
        ensures
            final(self).deep_view() == spec_merge_dialog_step(
                old(self).deep_view(),
                action.deep_view(),
            ).0,
            chained.deep_view() == spec_merge_dialog_step(
                old(self).deep_view(),
                action.deep_view(),
            ).1,
    {
        let ghost pre = self.deep_view();
        let ghost av = action.deep_view();
        if !self.visible {
            if let Action::OpenMergeDialog = action {
                self.visible = true;
                self.focused = MergeField::VariantA;
            }
            proof {
                assert(self.deep_view() =~= spec_merge_dialog_step(pre, av).0);
            }
            return None;
        }
        let r: Option<Action> = match action {
            Action::CloseMergeDialog => {
                self.visible = false;
                None
            },
            Action::ScrollDown | Action::SelectNext => {
                self.focused = match self.focused {
                    MergeField::VariantA => MergeField::VariantB,
                    MergeField::VariantB => MergeField::BlendSlider,
                    MergeField::BlendSlider => MergeField::BlendSlider,
                };
                None
            },
            Action::ScrollUp | Action::SelectPrev => {
                self.focused = match self.focused {
                    MergeField::VariantA => MergeField::VariantA,
                    MergeField::VariantB => MergeField::VariantA,
                    MergeField::BlendSlider => MergeField::VariantB,
                };
                None
            },
            Action::NextPhase => {
                match self.focused {
                    MergeField::VariantA => {
                        let len = self.available_variants.len();
                        if len > 0 && self.variant_a_idx < len - 1 {
                            self.variant_a_idx = self.variant_a_idx + 1;
                        }
                    },
                    MergeField::VariantB => {
                        let len = self.available_variants.len();
                        if len > 0 && self.variant_b_idx < len - 1 {
                            self.variant_b_idx = self.variant_b_idx + 1;
                        }
                    },
                    MergeField::BlendSlider => {
                        self.blend_a = self.blend_a.next();
                        self.blend_b = self.blend_a.paired();
                    },
                }
                None
            },
            Action::PrevPhase => {
                match self.focused {
                    MergeField::VariantA => {
                        if self.variant_a_idx > 0 {
                            self.variant_a_idx = self.variant_a_idx - 1;
                        }
                    },
                    MergeField::VariantB => {
                        if self.variant_b_idx > 0 {
                            self.variant_b_idx = self.variant_b_idx - 1;
                        }
                    },
                    MergeField::BlendSlider => {
                        self.blend_a = self.blend_a.prev();
                        self.blend_b = self.blend_a.paired();
                    },
                }
                None
            },
            Action::Confirm => {
                if self.variant_a_idx == self.variant_b_idx {
                    Some(Action::SetStatus("Cannot merge a variant with itself".to_owned()))
                } else if self.available_variants.len() < 2 || self.variant_a_idx
                    >= self.available_variants.len() || self.variant_b_idx
                    >= self.available_variants.len() {
                    Some(Action::SetStatus("Need at least 2 variants to merge".to_owned()))
                } else {
                    let va = self.available_variants[self.variant_a_idx].0.clone();
                    let vb = self.available_variants[self.variant_b_idx].0.clone();
                    self.merging = true;
                    self.visible = false;
                    Some(
                        Action::StartMerge {
                            variant_a_id: va,
                            variant_b_id: vb,
                            blend_a: self.blend_a.as_percent(),
                            blend_b: self.blend_b.as_percent(),
                        },
                    )
                }
            },
            _ => { None },
        };
        proof {
            assert(self.deep_view() =~= spec_merge_dialog_step(pre, av).0);
            assert(r.deep_view() == spec_merge_dialog_step(pre, av).1);
        }
        r
    }
}

} // verus!
