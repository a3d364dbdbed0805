//! Technique selection phase — extracted technique cards and their
//! selection state.

use vstd::prelude::*;
use crate::action::{Action, ActionView};
use crate::research::{TechniqueCard, TechniqueCardView};
use crate::text::{dec_string, spec_dec};

verus! {

/// The selection phase's state.
#[derive(Debug, PartialEq, Eq)]
pub struct TechniqueCardsComponent {
    /// All extracted technique cards, ordered by relevance, best first.
    pub techniques: Vec<TechniqueCard>,
    /// Currently highlighted technique.
    pub selected: usize,
    /// Whether extraction is in progress.
    pub extracting: bool,
    /// Whether extraction was already attempted this episode
    /// (prevents re-trigger loops).
    pub extraction_attempted: bool,
    /// Progress: (done, total papers), for display.
    pub progress: (usize, usize),
    /// Errors during extraction: (paper id, error).
    pub errors: Vec<(String, String)>,
    /// Spinner animation frame counter.
    pub spinner_tick: usize,
    /// Title of the paper most recently started.
    pub current_paper: String,
    /// (paper id, title) of papers being processed concurrently.
    pub active_papers: Vec<(String, String)>,
}

/// Mathematical image of the selection phase.
#[verifier::ext_equal]
pub struct TechniqueCardsView {
    pub techniques: Seq<TechniqueCardView>,
    pub selected: usize,
    pub extracting: bool,
    pub extraction_attempted: bool,
    pub progress: (usize, usize),
    pub errors: Seq<(Seq<char>, Seq<char>)>,
    pub spinner_tick: usize,
    pub current_paper: Seq<char>,
    pub active_papers: Seq<(Seq<char>, Seq<char>)>,
}

impl DeepView for TechniqueCardsComponent {
    type V = TechniqueCardsView;

    open spec fn deep_view(&self) -> TechniqueCardsView {
        TechniqueCardsView {
            techniques: self.techniques.deep_view(),
            selected: self.selected,
            extracting: self.extracting,
            extraction_attempted: self.extraction_attempted,
            progress: self.progress,
            errors: self.errors.deep_view(),
            spinner_tick: self.spinner_tick,
            current_paper: self.current_paper.deep_view(),
            active_papers: self.active_papers.deep_view(),
        }
    }
}

/// One saturating display-counter step.
pub open spec fn spec_inc(x: usize) -> usize {
    if x < usize::MAX {
        (x + 1) as usize
    } else {
        x
    }
}

/// One animation step, wrapping at the counter's top.
pub open spec fn spec_wrap_inc(t: usize) -> usize {
    if t == usize::MAX {
        0
    } else {
        (t + 1) as usize
    }
}

/// Where a card with this relevance score is inserted to keep the list
/// sorted best-first: before the first card that scores strictly
/// lower.
pub open spec fn spec_insert_pos(ts: Seq<TechniqueCardView>, score: u32) -> int
    decreases ts.len(),
{
    if ts.len() == 0 {
        0
    } else if ts.first().relevance_score < score {
        0
    } else {
        1 + spec_insert_pos(ts.drop_first(), score)
    }
}

pub proof fn lemma_insert_pos_at(ts: Seq<TechniqueCardView>, score: u32, p: int)
    requires
        0 <= p <= ts.len(),
        forall|k: int| 0 <= k < p ==> ts[k].relevance_score >= score,
        p < ts.len() ==> ts[p].relevance_score < score,
    ensures
        spec_insert_pos(ts, score) == p,
    decreases p,
{
    if p > 0 {
        assert(ts.first().relevance_score >= score);
        assert forall|k: int| 0 <= k < p - 1 implies ts.drop_first()[k].relevance_score
            >= score by {
            assert(ts.drop_first()[k] == ts[k + 1]);
        }
        if p - 1 < ts.drop_first().len() {
            assert(ts.drop_first()[p - 1] == ts[p]);
        }
        lemma_insert_pos_at(ts.drop_first(), score, p - 1);
    }
}

/// First index of the active paper with this id, or -1.
pub open spec fn spec_find_active(aps: Seq<(Seq<char>, Seq<char>)>, id: Seq<char>) -> int
    decreases aps.len(),
{
    if aps.len() == 0 {
        -1
    } else if aps.first().0 == id {
        0
    } else {
        let r = spec_find_active(aps.drop_first(), id);
        if r < 0 {
            -1
        } else {
            r + 1
        }
    }
}

pub proof fn lemma_find_active_hit(aps: Seq<(Seq<char>, Seq<char>)>, id: Seq<char>, f: int)
    requires
        0 <= f < aps.len(),
        aps[f].0 == id,
        forall|k: int| 0 <= k < f ==> aps[k].0 != id,
    ensures
        spec_find_active(aps, id) == f,
    decreases f,
{
    if f > 0 {
        assert forall|k: int| 0 <= k < f - 1 implies aps.drop_first()[k].0 != id by {
            assert(aps.drop_first()[k] == aps[k + 1]);
        }
        lemma_find_active_hit(aps.drop_first(), id, f - 1);
    }
}

pub proof fn lemma_find_active_miss(aps: Seq<(Seq<char>, Seq<char>)>, id: Seq<char>)
    requires
        forall|k: int| 0 <= k < aps.len() ==> aps[k].0 != id,
    ensures
        spec_find_active(aps, id) == -1,
    decreases aps.len(),
{
    if aps.len() > 0 {
        assert forall|k: int| 0 <= k < aps.len() - 1 implies aps.drop_first()[k].0 != id by {
            assert(aps.drop_first()[k] == aps[k + 1]);
        }
        lemma_find_active_miss(aps.drop_first(), id);
    }
}

/// The active list with the first entry carrying this id removed.
pub open spec fn spec_remove_active(
    aps: Seq<(Seq<char>, Seq<char>)>,
    id: Seq<char>,
) -> Seq<(Seq<char>, Seq<char>)> {
    let f = spec_find_active(aps, id);
    if f >= 0 {
        aps.remove(f)
    } else {
        aps
    }
}

/// The status message after extraction completes:
/// `Extracted <n> techniques. Select and press [Right] to generate variants.`
pub open spec fn spec_extraction_done_message(n: int) -> Seq<char> {
    "Extracted "@ + spec_dec(n) + " techniques. Select and press [Right] to generate variants."@
}

/// How the selection phase folds one action.
pub open spec fn spec_technique_cards_step(s: TechniqueCardsView, a: ActionView) -> (
    TechniqueCardsView,
    Option<ActionView>,
) {
    match a {
        ActionView::Tick => (
            if s.extracting {
                TechniqueCardsView { spinner_tick: spec_wrap_inc(s.spinner_tick), ..s }
            } else {
                s
            },
            None,
        ),
        ActionView::ScrollUp | ActionView::SelectPrev => (
            TechniqueCardsView {
                selected: if s.selected > 0 {
                    (s.selected - 1) as usize
                } else {
                    s.selected
                },
                ..s
            },
            None,
        ),
        ActionView::ScrollDown | ActionView::SelectNext => (
            TechniqueCardsView {
                selected: if s.selected + 1 < s.techniques.len() {
                    (s.selected + 1) as usize
                } else {
                    s.selected
                },
                ..s
            },
            None,
        ),
        ActionView::ToggleTechnique(idx) => (
            if idx < s.techniques.len() {
                TechniqueCardsView {
                    techniques: s.techniques.update(
                        idx as int,
                        s.techniques[idx as int].with_selected(
                            !s.techniques[idx as int].selected,
                        ),
                    ),
                    ..s
                }
            } else {
                s
            },
            None,
        ),
        ActionView::Confirm => (
            if s.selected < s.techniques.len() {
                TechniqueCardsView {
                    techniques: s.techniques.update(
                        s.selected as int,
                        s.techniques[s.selected as int].with_selected(
                            !s.techniques[s.selected as int].selected,
                        ),
                    ),
                    ..s
                }
            } else {
                s
            },
            None,
        ),
        ActionView::ExtractionStarted { paper_id, paper_title } => {
            let pushed = s.active_papers.push((paper_id, paper_title));
            let active = if pushed.len() > 5 {
                pushed.drop_first()
            } else {
                pushed
            };
            (TechniqueCardsView { current_paper: paper_title, active_papers: active, ..s }, None)
        },
        ActionView::TechniqueExtracted(card) => {
            let pos = spec_insert_pos(s.techniques, card.relevance_score);
            (
                TechniqueCardsView {
                    progress: (spec_inc(s.progress.0), s.progress.1),
                    active_papers: spec_remove_active(s.active_papers, card.paper_id),
                    techniques: s.techniques.insert(pos, card),
                    ..s
                },
                None,
            )
        },
        ActionView::TechniqueExtractionFailed { paper_id, error } => (
            TechniqueCardsView {
                progress: (spec_inc(s.progress.0), s.progress.1),
                active_papers: spec_remove_active(s.active_papers, paper_id),
                errors: s.errors.push((paper_id, error)),
                ..s
            },
            None,
        ),
        ActionView::ExtractionComplete => (
            TechniqueCardsView {
                extracting: false,
                active_papers: Seq::empty(),
                current_paper: Seq::empty(),
                techniques: Seq::new(
                    s.techniques.len(),
                    |i: int| s.techniques[i].with_selected(i < 10),
                ),
                ..s
            },
            Some(
                ActionView::SetStatus(spec_extraction_done_message(s.techniques.len() as int)),
            ),
        ),
        _ => (s, None),
    }
}

impl TechniqueCardsComponent {
    /// The phase starts with no techniques and extraction not yet
    /// attempted.
    pub fn new() -> (r: Self)
        ensures
            r.deep_view().techniques == Seq::<TechniqueCardView>::empty(),
            !r.deep_view().extracting,
            !r.deep_view().extraction_attempted,
            r.deep_view().progress == (0usize, 0usize),
            r.deep_view().errors == Seq::<(Seq<char>, Seq<char>)>::empty(),
            r.deep_view().active_papers == Seq::<(Seq<char>, Seq<char>)>::empty(),
    {
        let r = TechniqueCardsComponent {
            techniques: Vec::new(),
            selected: 0,
            extracting: false,
            extraction_attempted: false,
            progress: (0, 0),
            errors: Vec::new(),
            spinner_tick: 0,
            current_paper: String::new(),
            active_papers: Vec::new(),
        };
        proof {
            assert(r.deep_view().techniques =~= Seq::<TechniqueCardView>::empty());
            assert(r.deep_view().errors =~= Seq::<(Seq<char>, Seq<char>)>::empty());
            assert(r.deep_view().active_papers =~= Seq::<(Seq<char>, Seq<char>)>::empty());
        }
        r
    }

    /// Get the number of selected techniques.
    pub fn selected_count(&self) -> (r: usize)
        ensures
            r == spec_selected_count(self.deep_view().techniques),
    {
        let n = self.techniques.len();
        let mut count: usize = 0;
        let mut i: usize = 0;
        while i < n
            invariant
                i <= n,
                n == self.techniques@.len(),
                count == spec_selected_count(self.deep_view().techniques.take(i as int)),
                count <= i,
            decreases n - i,
        {
            proof {
                assert(self.deep_view().techniques.take(i + 1).drop_last() =~= self.deep_view()
                    .techniques.take(i as int));
            }
            if self.techniques[i].selected {
                count = count + 1;
            }
            i = i + 1;
        }
        proof {
            assert(self.deep_view().techniques.take(n as int) =~= self.deep_view().techniques);
        }
        count
    }

    fn saturating_bump(&mut self)
        ensures
            final(self).deep_view() == (TechniqueCardsView {
                progress: (spec_inc(old(self).deep_view().progress.0), old(self).progress.1),
                ..old(self).deep_view()
            }),
    {
        if self.progress.0 < usize::MAX {
            self.progress.0 = self.progress.0 + 1;
        }
        proof {
            assert(self.deep_view() =~= TechniqueCardsView {
                progress: (spec_inc(old(self).deep_view().progress.0), old(self).progress.1),
                ..old(self).deep_view()
            });
        }
    }

    fn remove_active(&mut self, id: &String)
        ensures
            final(self).deep_view() == (TechniqueCardsView {
                active_papers: spec_remove_active(old(self).deep_view().active_papers, id@),
                ..old(self).deep_view()
            }),
    {
        let ghost pre = self.deep_view();
        let n = self.active_papers.len();
        let mut i: usize = 0;
        while i < n
            invariant
                i <= n,
                n == self.active_papers@.len(),
                self == old(self),
                self.deep_view() == pre,
                forall|k: int| 0 <= k < i ==> self.deep_view().active_papers[k].0 != id@,
            decreases n - i,
        {
            let eq = self.active_papers[i].0 == *id;
            proof {
                assert(eq == (self.deep_view().active_papers[i as int].0 == id@));
            }
            if eq {
                proof {
                    assert(pre.active_papers.len() == n);
                    lemma_find_active_hit(pre.active_papers, id@, i as int);
                }
                let ghost prevraw = self.active_papers@;
                self.active_papers.remove(i);
                proof {
                    assert(self.active_papers@ == prevraw.remove(i as int));
                    assert forall|k: int| 0 <= k < self.deep_view().active_papers.len()
                        implies self.deep_view().active_papers[k] == pre.active_papers.remove(
                        i as int,
                    )[k] by {
                        if k < i {
                            assert(self.active_papers@[k] == prevraw[k]);
                            assert(pre.active_papers.remove(i as int)[k] == pre.active_papers[k]);
                        } else {
                            assert(self.active_papers@[k] == prevraw[k + 1]);
                            assert(pre.active_papers.remove(i as int)[k] == pre.active_papers[
                                k + 1
                            ]);
                        }
                    }
                    assert(self.deep_view().active_papers =~= pre.active_papers.remove(i as int));
                    assert(self.deep_view() =~= TechniqueCardsView {
                        active_papers: spec_remove_active(pre.active_papers, id@),
                        ..pre
                    });
                }
                return ;
            }
            i = i + 1;
        }
        proof {
            lemma_find_active_miss(pre.active_papers, id@);
            assert(self.deep_view() =~= TechniqueCardsView {
                active_papers: spec_remove_active(pre.active_papers, id@),
                ..pre
            });
        }
    }

    /// Fold one action into the phase's state.
    pub fn handle_action(&mut self, action: &Action) -> (chained: Option<Action>)
        ensures
            final(self).deep_view() == spec_technique_cards_step(
                old(self).deep_view(),
                action.deep_view(),
            ).0,
            chained.deep_view() == spec_technique_cards_step(
                old(self).deep_view(),
                action.deep_view(),
            ).1,
    {
        let ghost pre = self.deep_view();
        let ghost av = action.deep_view();
        let r: Option<Action> = match action {
            Action::Tick => {
                if self.extracting {
                    if self.spinner_tick == usize::MAX {
                        self.spinner_tick = 0;
                    } else {
                        self.spinner_tick = self.spinner_tick + 1;
                    }
                }
                None
            },
            Action::ScrollUp | Action::SelectPrev => {
                if self.selected > 0 {
                    self.selected = self.selected - 1;
                }
                None
            },
            Action::ScrollDown | Action::SelectNext => {
                let len = self.techniques.len();
                if len > 0 && self.selected < len - 1 {
                    self.selected = self.selected + 1;
                }
                None
            },
            Action::ToggleTechnique(idx) => {
                if *idx < self.techniques.len() {
                    let mut t = self.techniques[*idx].clone();
                    t.selected = !t.selected;
                    self.techniques[*idx] = t;
                    proof {
                        assert(self.deep_view().techniques =~= pre.techniques.update(
                            *idx as int,
                            pre.techniques[*idx as int].with_selected(
                                !pre.techniques[*idx as int].selected,
                            ),
                        ));
                    }
                }
                None
            },
            Action::Confirm => {
                if self.selected < self.techniques.len() {
                    let idx = self.selected;
                    let mut t = self.techniques[idx].clone();
                    t.selected = !t.selected;
                    self.techniques[idx] = t;
                    proof {
                        assert(self.deep_view().techniques =~= pre.techniques.update(
                            pre.selected as int,
                            pre.techniques[pre.selected as int].with_selected(
                                !pre.techniques[pre.selected as int].selected,
                            ),
                        ));
                    }
                }
                None
            },
            Action::ExtractionStarted { paper_id, paper_title } => {
                self.current_paper = paper_title.clone();
                self.active_papers.push((paper_id.clone(), paper_title.clone()));
                proof {
                    assert(self.deep_view().active_papers =~= pre.active_papers.push(
                        (paper_id@, paper_title@),
                    ));
                }
                if self.active_papers.len() > 5 {
                    let ghost mid = self.deep_view().active_papers;
                    self.active_papers.remove(0);
                    proof {
                        assert(self.deep_view().active_papers =~= mid.drop_first());
                    }
                }
                None
            },
            Action::TechniqueExtracted(card) => {
                self.saturating_bump();
                let c: TechniqueCard = (**card).clone();
                self.remove_active(&c.paper_id);
                let ghost mid = self.deep_view();
                let n = self.techniques.len();
                let mut pos: usize = 0;
                let mut found = false;
                while pos < n && !found
                    invariant
                        pos <= n,
                        n == self.techniques@.len(),
                        self.deep_view() == mid,
                        forall|k: int|
                            0 <= k < pos ==> mid.techniques[k].relevance_score
                                >= c.deep_view().relevance_score,
                        found ==> pos < n && mid.techniques[pos as int].relevance_score
                            < c.deep_view().relevance_score,
                    decreases n - pos + if found {
                        0int
                    } else {
                        1int
                    },
                {
                    if self.techniques[pos].relevance_score < c.relevance_score {
                        found = true;
                    } else {
                        pos = pos + 1;
                    }
                }
                proof {
                    lemma_insert_pos_at(
                        mid.techniques,
                        c.deep_view().relevance_score,
                        pos as int,
                    );
                }
                let ghost cv = c.deep_view();
                self.techniques.insert(pos, c);
                proof {
                    assert(self.deep_view().techniques =~= mid.techniques.insert(
                        pos as int,
                        cv,
                    ));
                }
                None
            },
            Action::TechniqueExtractionFailed { paper_id, error } => {
                self.saturating_bump();
                self.remove_active(paper_id);
                self.errors.push((paper_id.clone(), error.clone()));
                proof {
                    assert(self.deep_view().errors =~= pre.errors.push((paper_id@, error@)));
                }
                None
            },
            Action::ExtractionComplete => {
                self.extracting = false;
                self.active_papers = Vec::new();
                self.current_paper = String::new();
                let n = self.techniques.len();
                let ghost mid = self.deep_view();
                let mut i: usize = 0;
                while i < n
                    invariant
                        i <= n,
                        n == self.techniques@.len(),
                        self.deep_view() =~= (TechniqueCardsView {
                            techniques: self.deep_view().techniques,
                            ..mid
                        }),
                        self.deep_view().techniques.len() == n,
                        mid.techniques.len() == n,
                        forall|k: int|
                            0 <= k < i ==> self.deep_view().techniques[k] == mid.techniques[
                                k
                            ].with_selected(k < 10),
                        forall|k: int|
                            i <= k < n ==> self.deep_view().techniques[k] == mid.techniques[k],
                    decreases n - i,
                {
                    let ghost before = self.deep_view().techniques;
                    let mut t = self.techniques[i].clone();
                    t.selected = i < 10;
                    let ghost tv = t.deep_view();
                    proof {
                        assert(tv =~= mid.techniques[i as int].with_selected(i < 10));
                    }
                    self.techniques[i] = t;
                    i = i + 1;
                    proof {
                        assert forall|k: int| 0 <= k < i implies self.deep_view().techniques[k]
                            == mid.techniques[k].with_selected(k < 10) by {
                            if k == i - 1 {
                                assert(self.deep_view().techniques[k] == tv);
                            } else {
                                assert(self.deep_view().techniques[k] == before[k]);
                            }
                        }
                        assert forall|k: int| i <= k < n implies self.deep_view().techniques[k]
                            == mid.techniques[k] by {
                            assert(self.deep_view().techniques[k] == before[k]);
                        }
                    }
                }
                proof {
                    assert(self.deep_view().techniques =~= Seq::new(
                        mid.techniques.len(),
                        |k: int| mid.techniques[k].with_selected(k < 10),
                    ));
                }
                let mut msg = "Extracted ".to_owned();
                let cnt = dec_string(n as u64);
                msg.append(cnt.as_str());
                msg.append(" techniques. Select and press [Right] to generate variants.");
                proof {
                    assert(msg@ == spec_extraction_done_message(pre.techniques.len() as int));
                }
                Some(Action::SetStatus(msg))
            },
            _ => { None },
        };
        proof {
            assert(self.deep_view() =~= spec_technique_cards_step(pre, av).0);
        }
        r
    }
}

/// Number of selected techniques.
pub open spec fn spec_selected_count(ts: Seq<TechniqueCardView>) -> int
    decreases ts.len(),
{
    if ts.len() == 0 {
        0
    } else {
        spec_selected_count(ts.drop_last()) + if ts.last().selected {
            1int
        } else {
            0int
        }
    }
}

} // verus!
