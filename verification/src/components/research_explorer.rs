//! Research discovery phase — the list of found papers.

use vstd::prelude::*;
use crate::action::{Action, ActionView};
use crate::research::{clone_papers, PaperMeta, PaperMetaView};
use crate::text::{dec_string, spec_dec};

verus! {

/// The research phase's state.
#[derive(Debug, PartialEq, Eq)]
pub struct ResearchExplorerComponent {
    /// All discovered papers.
    pub papers: Vec<PaperMeta>,
    /// Currently selected paper index.
    pub selected: usize,
    /// Whether search is in progress.
    pub searching: bool,
    /// Progress (papers found so far vs target), for display.
    pub progress: (usize, usize),
    /// Error message.
    pub error: Option<String>,
    /// Whether the expanded detail view is open.
    pub detail_expanded: bool,
    /// Scroll position within the expanded detail view.
    pub detail_scroll: u16,
    /// Spinner animation frame counter.
    pub spinner_tick: usize,
    /// Current query being searched.
    pub current_query: String,
    /// Query-level progress: (current index, total).
    pub query_progress: (usize, usize),
}

/// Mathematical image of the research phase.
#[verifier::ext_equal]
pub struct ResearchExplorerView {
    pub papers: Seq<PaperMetaView>,
    pub selected: usize,
    pub searching: bool,
    pub progress: (usize, usize),
    pub error: Option<Seq<char>>,
    pub detail_expanded: bool,
    pub detail_scroll: u16,
    pub spinner_tick: usize,
    pub current_query: Seq<char>,
    pub query_progress: (usize, usize),
}

impl DeepView for ResearchExplorerComponent {
    type V = ResearchExplorerView;

    open spec fn deep_view(&self) -> ResearchExplorerView {
        ResearchExplorerView {
            papers: self.papers.deep_view(),
            selected: self.selected,
            searching: self.searching,
            progress: self.progress,
            error: self.error.deep_view(),
            detail_expanded: self.detail_expanded,
            detail_scroll: self.detail_scroll,
            spinner_tick: self.spinner_tick,
            current_query: self.current_query.deep_view(),
            query_progress: self.query_progress,
        }
    }
}

/// One animation step, wrapping at the counter's top.
pub open spec fn spec_spin(t: usize) -> usize {
    if t == usize::MAX {
        0
    } else {
        (t + 1) as usize
    }
}

/// The status message after research completes:
/// `Found <n> papers. Press [Enter] to view, [Right] for next phase.`
pub open spec fn spec_research_done_message(n: int) -> Seq<char> {
    "Found "@ + spec_dec(n) + " papers. Press [Enter] to view, [Right] for next phase."@
}

/// How the research phase folds one action.
pub open spec fn spec_research_step(s: ResearchExplorerView, a: ActionView) -> (
    ResearchExplorerView,
    Option<ActionView>,
) {
    match a {
        ActionView::Tick => (
            if s.searching {
                ResearchExplorerView { spinner_tick: spec_spin(s.spinner_tick), ..s }
            } else {
                s
            },
            None,
        ),
        ActionView::Confirm => (
            if s.detail_expanded {
                ResearchExplorerView { detail_expanded: false, detail_scroll: 0, ..s }
            } else if s.papers.len() > 0 {
                ResearchExplorerView { detail_expanded: true, detail_scroll: 0, ..s }
            } else {
                s
            },
            None,
        ),
        ActionView::CloseMergeDialog => (
            if s.detail_expanded {
                ResearchExplorerView { detail_expanded: false, detail_scroll: 0, ..s }
            } else {
                s
            },
            None,
        ),
        ActionView::ScrollUp | ActionView::SelectPrev => (
            if s.detail_expanded {
                ResearchExplorerView {
                    detail_scroll: if s.detail_scroll > 0 {
                        (s.detail_scroll - 1) as u16
                    } else {
                        0u16
                    },
                    ..s
                }
            } else if s.selected > 0 {
                ResearchExplorerView { selected: (s.selected - 1) as usize, ..s }
            } else {
                s
            },
            None,
        ),
        ActionView::ScrollDown | ActionView::SelectNext => (
            if s.detail_expanded {
                ResearchExplorerView {
                    detail_scroll: if s.detail_scroll < u16::MAX {
                        (s.detail_scroll + 1) as u16
                    } else {
                        s.detail_scroll
                    },
                    ..s
                }
            } else if s.selected + 1 < s.papers.len() {
                ResearchExplorerView { selected: (s.selected + 1) as usize, ..s }
            } else {
                s
            },
            None,
        ),
        ActionView::SearchQueryStarted { query, query_idx, total_queries } => (
            ResearchExplorerView {
                current_query: query,
                query_progress: (query_idx, total_queries),
                ..s
            },
            None,
        ),
        ActionView::PapersFound(ps) => (
            ResearchExplorerView { papers: s.papers + ps, ..s },
            None,
        ),
        ActionView::ResearchComplete => (
            ResearchExplorerView { searching: false, current_query: Seq::empty(), ..s },
            Some(ActionView::SetStatus(spec_research_done_message(s.papers.len() as int))),
        ),
        ActionView::ResearchFailed(e) => (
            ResearchExplorerView { searching: false, error: Some(e), ..s },
            None,
        ),
        _ => (s, None),
    }
}

impl ResearchExplorerComponent {
    /// The phase starts with no papers and no search running.
    pub fn new() -> (r: Self)
        ensures
            r.deep_view().papers == Seq::<PaperMetaView>::empty(),
            !r.deep_view().searching,
            r.deep_view().selected == 0,
            r.deep_view().error is None,
    {
        let r = ResearchExplorerComponent {
            papers: Vec::new(),
            selected: 0,
            searching: false,
            progress: (0, 0),
            error: None,
            detail_expanded: false,
            detail_scroll: 0,
            spinner_tick: 0,
            current_query: String::new(),
            query_progress: (0, 0),
        };
        proof {
            assert(r.deep_view().papers =~= Seq::<PaperMetaView>::empty());
        }
        r
    }

    /// Fold one action into the phase's state.
    pub fn handle_action(&mut self, action: &Action) -> (chained: Option<Action>)
        ensures
            final(self).deep_view() == spec_research_step(
                old(self).deep_view(),
                action.deep_view(),
            ).0,
            chained.deep_view() == spec_research_step(
                old(self).deep_view(),
                action.deep_view(),
            ).1,
    {
        let ghost pre = self.deep_view();
        let ghost av = action.deep_view();
        let r: Option<Action> = match action {
            Action::Tick => {
                if self.searching {
                    if self.spinner_tick == usize::MAX {
                        self.spinner_tick = 0;
                    } else {
                        self.spinner_tick = self.spinner_tick + 1;
                    }
                }
                None
            },
            Action::Confirm => {
                if self.detail_expanded {
                    self.detail_expanded = false;
                    self.detail_scroll = 0;
                } else if self.papers.len() > 0 {
                    self.detail_expanded = true;
                    self.detail_scroll = 0;
                }
                None
            },
            Action::CloseMergeDialog => {
                if self.detail_expanded {
                    self.detail_expanded = false;
                    self.detail_scroll = 0;
                }
                None
            },
            Action::ScrollUp | Action::SelectPrev => {
                if self.detail_expanded {
                    if self.detail_scroll > 0 {
                        self.detail_scroll = self.detail_scroll - 1;
                    }
                } else if self.selected > 0 {
                    self.selected = self.selected - 1;
                }
                None
            },
            Action::ScrollDown | Action::SelectNext => {
                if self.detail_expanded {
                    if self.detail_scroll < u16::MAX {
                        self.detail_scroll = self.detail_scroll + 1;
                    }
                } else {
                    let len = self.papers.len();
                    if len > 0 && self.selected < len - 1 {
                        self.selected = self.selected + 1;
                    }
                }
                None
            },
            Action::SearchQueryStarted { query, query_idx, total_queries } => {
                self.current_query = query.clone();
                self.query_progress = (*query_idx, *total_queries);
                None
            },
            Action::PapersFound(papers) => {
                let mut found = clone_papers(papers);
                self.papers.append(&mut found);
                proof {
                    assert(self.deep_view().papers =~= pre.papers + papers.deep_view());
                }
                None
            },
            Action::ResearchComplete => {
                self.searching = false;
                self.current_query = String::new();
                let mut msg = "Found ".to_owned();
                let n = dec_string(self.papers.len() as u64);
                msg.append(n.as_str());
                msg.append(" papers. Press [Enter] to view, [Right] for next phase.");
                proof {
                    assert(msg@ == spec_research_done_message(pre.papers.len() as int));
                }
                Some(Action::SetStatus(msg))
            },
            Action::ResearchFailed(err) => {
                self.searching = false;
                self.error = Some(err.clone());
                None
            },
            _ => { None },
        };
        proof {
            assert(self.deep_view() =~= spec_research_step(pre, av).0);
        }
        r
    }
}

} // verus!
