//! Variant generation phase — the list of variants being generated.

use vstd::prelude::*;
use crate::action::{Action, ActionView};
use crate::text::{dec_string, spec_dec};
use crate::variant::{Variant, VariantStatus, VariantStatusView, VariantView};

verus! {

/// The generation phase's state.
#[derive(Debug, PartialEq, Eq)]
pub struct VariantBuilderComponent {
    /// All variants (original + merged).
    pub variants: Vec<Variant>,
    /// Currently selected variant.
    pub selected: usize,
    /// Whether generation is in progress.
    pub generating: bool,
}

/// Mathematical image of the generation phase.
#[verifier::ext_equal]
pub struct VariantBuilderView {
    pub variants: Seq<VariantView>,
    pub selected: usize,
    pub generating: bool,
}

impl DeepView for VariantBuilderComponent {
    type V = VariantBuilderView;

    open spec fn deep_view(&self) -> VariantBuilderView {
        VariantBuilderView {
            variants: self.variants.deep_view(),
            selected: self.selected,
            generating: self.generating,
        }
    }
}

/// First index of the variant with this id, or -1.
pub open spec fn spec_find_variant(vs: Seq<VariantView>, id: Seq<char>) -> int
    decreases vs.len(),
{
    if vs.len() == 0 {
        -1
    } else if vs.first().id == id {
        0
    } else {
        let r = spec_find_variant(vs.drop_first(), id);
        if r < 0 {
            -1
        } else {
            r + 1
        }
    }
}

pub proof fn lemma_find_variant_hit(vs: Seq<VariantView>, id: Seq<char>, f: int)
    requires
        0 <= f < vs.len(),
        vs[f].id == id,
        forall|k: int| 0 <= k < f ==> vs[k].id != id,
    ensures
        spec_find_variant(vs, id) == f,
    decreases f,
{
    if f > 0 {
        assert forall|k: int| 0 <= k < f - 1 implies vs.drop_first()[k].id != id by {
            assert(vs.drop_first()[k] == vs[k + 1]);
        }
        lemma_find_variant_hit(vs.drop_first(), id, f - 1);
    }
}

pub proof fn lemma_find_variant_miss(vs: Seq<VariantView>, id: Seq<char>)
    requires
        forall|k: int| 0 <= k < vs.len() ==> vs[k].id != id,
    ensures
        spec_find_variant(vs, id) == -1,
    decreases vs.len(),
{
    if vs.len() > 0 {
        assert forall|k: int| 0 <= k < vs.len() - 1 implies vs.drop_first()[k].id != id by {
            assert(vs.drop_first()[k] == vs[k + 1]);
        }
        lemma_find_variant_miss(vs.drop_first(), id);
    }
}

/// Number of variants whose status is `Ready`.
pub open spec fn spec_count_ready(vs: Seq<VariantView>) -> int
    decreases vs.len(),
{
    if vs.len() == 0 {
        0
    } else {
        spec_count_ready(vs.drop_last()) + if vs.last().status is Ready {
            1int
        } else {
            0int
        }
    }
}

/// The status message after generation completes:
/// `<ready>/<total> variants generated. Press [Right] to benchmark.`
pub open spec fn spec_generation_done_message(ready: int, total: int) -> Seq<char> {
    spec_dec(ready) + "/"@ + spec_dec(total) + " variants generated. Press [Right] to benchmark."@
}

/// How the generation phase folds one action.
pub open spec fn spec_variant_builder_step(s: VariantBuilderView, a: ActionView) -> (
    VariantBuilderView,
    Option<ActionView>,
) {
    match a {
        ActionView::ScrollUp | ActionView::SelectPrev => (
            VariantBuilderView {
                selected: if s.selected > 0 {
                    (s.selected - 1) as usize
                } else {
                    s.selected
                },
                ..s
            },
            None,
        ),
        ActionView::ScrollDown | ActionView::SelectNext => (
            VariantBuilderView {
                selected: if s.selected + 1 < s.variants.len() {
                    (s.selected + 1) as usize
                } else {
                    s.selected
                },
                ..s
            },
            None,
        ),
        ActionView::VariantGenerated(v) => {
            let f = spec_find_variant(s.variants, v.id);
            let variants = if f >= 0 {
                s.variants.update(f, v)
            } else {
                s.variants.push(v)
            };
            (VariantBuilderView { variants, ..s }, None)
        },
        ActionView::VariantGenerationFailed { variant_id, error } => {
            let f = spec_find_variant(s.variants, variant_id);
            let variants = if f >= 0 {
                s.variants.update(
                    f,
                    VariantView { status: VariantStatusView::Failed(error), ..s.variants[f] },
                )
            } else {
                s.variants
            };
            (VariantBuilderView { variants, ..s }, None)
        },
        ActionView::GenerationComplete => (
            VariantBuilderView { generating: false, ..s },
            Some(
                ActionView::SetStatus(
                    spec_generation_done_message(
                        spec_count_ready(s.variants),
                        s.variants.len() as int,
                    ),
                ),
            ),
        ),
        ActionView::MergeComplete(v) => (
            VariantBuilderView { variants: s.variants.push(v), ..s },
            None,
        ),
        _ => (s, None),
    }
}

impl VariantBuilderComponent {
    /// The phase starts with no variants.
    pub fn new() -> (r: Self)
        ensures
            r.deep_view().variants == Seq::<VariantView>::empty(),
            r.deep_view().selected == 0,
            !r.deep_view().generating,
    {
        let r = VariantBuilderComponent { variants: Vec::new(), selected: 0, generating: false };
        proof {
            assert(r.deep_view().variants =~= Seq::<VariantView>::empty());
        }
        r
    }

    /// First index of the variant with this id, if any.
    pub fn find_by_id(&self, id: &String) -> (r: Option<usize>)
        ensures
            match r {
                Some(f) => 0 <= f < self.deep_view().variants.len() && spec_find_variant(
                    self.deep_view().variants,
                    id@,
                ) == f,
                None => spec_find_variant(self.deep_view().variants, id@) == -1,
            },
    {
        let n = self.variants.len();
        let mut i: usize = 0;
        while i < n
            invariant
                i <= n,
                n == self.variants@.len(),
                forall|k: int| 0 <= k < i ==> self.deep_view().variants[k].id != id@,
            decreases n - i,
        {
            let eq = self.variants[i].id.0 == *id;
            proof {
                assert(eq == (self.deep_view().variants[i as int].id == id@));
            }
            if eq {
                proof {
                    lemma_find_variant_hit(self.deep_view().variants, id@, i as int);
                }
                return Some(i);
            }
            i = i + 1;
        }
        proof {
            lemma_find_variant_miss(self.deep_view().variants, id@);
        }
        None
    }

    /// Number of `Ready` variants.
    fn count_ready(&self) -> (r: usize)
        ensures
            r == spec_count_ready(self.deep_view().variants),
    {
        let n = self.variants.len();
        let mut count: usize = 0;
        let mut i: usize = 0;
        while i < n
            invariant
                i <= n,
                n == self.variants@.len(),
                count == spec_count_ready(self.deep_view().variants.take(i as int)),
                count <= i,
            decreases n - i,
        {
            proof {
                assert(self.deep_view().variants.take(i + 1).drop_last() =~= self.deep_view()
                    .variants.take(i as int));
            }
            if self.variants[i].is_ready() {
                count = count + 1;
            }
            i = i + 1;
        }
        proof {
            assert(self.deep_view().variants.take(n as int) =~= self.deep_view().variants);
        }
        count
    }

    /// Fold one action into the phase's state.
    pub fn handle_action(&mut self, action: &Action) -> (chained: Option<Action>)
        ensures
            final(self).deep_view() == spec_variant_builder_step(
                old(self).deep_view(),
                action.deep_view(),
            ).0,
            chained.deep_view() == spec_variant_builder_step(
                old(self).deep_view(),
                action.deep_view(),
            ).1,
    {
        let ghost pre = self.deep_view();
        let ghost av = action.deep_view();
        match action {
            Action::ScrollUp | Action::SelectPrev => {
                if self.selected > 0 {
                    self.selected = self.selected - 1;
                }
                proof {
                    assert(self.deep_view() =~= spec_variant_builder_step(pre, av).0);
                }
                None
            },
            Action::ScrollDown | Action::SelectNext => {
                let len = self.variants.len();
                if len > 0 && self.selected < len - 1 {
                    self.selected = self.selected + 1;
                }
                proof {
                    assert(self.deep_view() =~= spec_variant_builder_step(pre, av).0);
                }
                None
            },
            Action::VariantGenerated(variant) => {
                let v: Variant = (**variant).clone();
                match self.find_by_id(&v.id.0) {
                    Some(f) => {
                        self.variants[f] = v;
                        proof {
                            assert(self.deep_view().variants =~= pre.variants.update(
                                spec_find_variant(pre.variants, av->VariantGenerated_0.id),
                                av->VariantGenerated_0,
                            ));
                        }
                    },
                    None => {
                        self.variants.push(v);
                        proof {
                            assert(self.deep_view().variants =~= pre.variants.push(
                                av->VariantGenerated_0,
                            ));
                        }
                    },
                }
                proof {
                    assert(self.deep_view() =~= spec_variant_builder_step(pre, av).0);
                }
                None
            },
            Action::VariantGenerationFailed { variant_id, error } => {
                match self.find_by_id(variant_id) {
                    Some(f) => {
                        let mut nv = self.variants[f].clone();
                        nv.status = VariantStatus::Failed(error.clone());
                        self.variants[f] = nv;
                        proof {
                            let fi = spec_find_variant(pre.variants, variant_id@);
                            assert(self.deep_view().variants =~= pre.variants.update(
                                fi,
                                VariantView {
                                    status: VariantStatusView::Failed(error@),
                                    ..pre.variants[fi]
                                },
                            ));
                        }
                    },
                    None => {},
                }
                proof {
                    assert(self.deep_view() =~= spec_variant_builder_step(pre, av).0);
                }
                None
            },
            Action::GenerationComplete => {
                self.generating = false;
                let ready = self.count_ready();
                let total = self.variants.len();
                let mut msg = dec_string(ready as u64);
                msg.append("/");
                let t = dec_string(total as u64);
                msg.append(t.as_str());
                msg.append(" variants generated. Press [Right] to benchmark.");
                proof {
                    assert(self.deep_view() =~= spec_variant_builder_step(pre, av).0);
                    assert(msg@ == spec_generation_done_message(
                        spec_count_ready(pre.variants),
                        pre.variants.len() as int,
                    ));
                }
                Some(Action::SetStatus(msg))
            },
            Action::MergeComplete(variant) => {
                let v: Variant = (**variant).clone();
                self.variants.push(v);
                proof {
                    assert(self.deep_view() =~= spec_variant_builder_step(pre, av).0);
                }
                None
            },
            _ => {
                proof {
                    assert(self.deep_view() =~= spec_variant_builder_step(pre, av).0);
                }
                None
            },
        }
    }
}

} // verus!
