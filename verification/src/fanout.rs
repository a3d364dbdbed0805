//! Fan-out/fan-in tracking for batches of concurrent collaborator calls.
//!
//! A job spawns one task per unit of work; each unit reports exactly one
//! terminal outcome back through the action bus. Completion is detected
//! declaratively: after every terminal report the tracker recomputes
//! "are all tracked units terminal?" over the live collection, and the
//! first time that becomes true it fires job-complete — exactly once,
//! whatever order the reports arrive in. The (done, total) counters are
//! for display only and are never the completion oracle.

use vstd::prelude::*;
use crate::protocol::{ExtractTechniqueRequest, ExtractTechniqueRequestView};
use crate::research::{PaperMeta, PaperMetaView};

verus! {

/// Number of `true` entries in a sequence of flags.
pub open spec fn count_true(s: Seq<bool>) -> int
    decreases s.len(),
{
    if s.len() == 0 {
        0
    } else {
        count_true(s.drop_last()) + if s.last() {
            1int
        } else {
            0int
        }
    }
}

proof fn lemma_count_true_bound(s: Seq<bool>)
    ensures
        0 <= count_true(s) <= s.len(),
    decreases s.len(),
{
    if s.len() > 0 {
        lemma_count_true_bound(s.drop_last());
    }
}

proof fn lemma_count_true_update(s: Seq<bool>, i: int)
    requires
        0 <= i < s.len(),
        !s[i],
    ensures
        count_true(s.update(i, true)) == count_true(s) + 1,
    decreases s.len(),
{
    let u = s.update(i, true);
    if i == s.len() - 1 {
        assert(u.drop_last() =~= s.drop_last());
    } else {
        assert(u.drop_last() =~= s.drop_last().update(i, true));
        lemma_count_true_update(s.drop_last(), i);
    }
}

/// Tracks one fan-out job: which units have reached a terminal state,
/// the display counters, and whether job-complete has already fired.
#[derive(Debug, PartialEq, Eq)]
pub struct FanOutTracker {
    /// Identifiers of the tracked units, fixed at job start.
    pub unit_ids: Vec<String>,
    /// Whether each unit has reported a terminal outcome.
    pub terminal: Vec<bool>,
    /// Units that reported success, for display.
    pub successes: usize,
    /// Units that reported failure, for display.
    pub failures: usize,
    /// Whether job-complete has fired for this job.
    pub completed: bool,
}

/// Mathematical image of a fan-out tracker.
#[verifier::ext_equal]
pub struct FanOutTrackerView {
    pub unit_ids: Seq<Seq<char>>,
    pub terminal: Seq<bool>,
    pub successes: int,
    pub failures: int,
    pub completed: bool,
}

impl DeepView for FanOutTracker {
    type V = FanOutTrackerView;

    open spec fn deep_view(&self) -> FanOutTrackerView {
        FanOutTrackerView {
            unit_ids: self.unit_ids.deep_view(),
            terminal: self.terminal.deep_view(),
            successes: self.successes as int,
            failures: self.failures as int,
            completed: self.completed,
        }
    }
}

impl FanOutTrackerView {
    /// All tracked units have reached a terminal state.
    pub open spec fn all_terminal(self) -> bool {
        forall|k: int| 0 <= k < self.terminal.len() ==> self.terminal[k]
    }

    /// No two tracked units share an identifier.
    pub open spec fn distinct_ids(self) -> bool {
        forall|i: int, j: int|
            0 <= i < j < self.unit_ids.len() ==> self.unit_ids[i] != self.unit_ids[j]
    }

    /// Well-formedness: one flag per unit, distinct identifiers, the
    /// counters count exactly the terminal units, and once completed
    /// every unit is terminal.
    pub open spec fn wf(self) -> bool {
        &&& self.terminal.len() == self.unit_ids.len()
        &&& self.distinct_ids()
        &&& self.successes + self.failures == count_true(self.terminal)
        &&& self.successes >= 0
        &&& self.failures >= 0
        &&& (self.completed ==> self.all_terminal())
    }

    /// A tracker at job start: nothing terminal, nothing fired.
    pub open spec fn fresh(self) -> bool {
        &&& self.wf()
        &&& !self.completed
        &&& forall|k: int| 0 <= k < self.terminal.len() ==> !self.terminal[k]
    }

    /// Whether some unit carries this identifier and has not reported
    /// yet.
    pub open spec fn hits(self, id: Seq<char>) -> bool {
        exists|k: int|
            0 <= k < self.unit_ids.len() && self.unit_ids[k] == id && !self.terminal[k]
    }

    /// The tracker after one terminal report for unit `id`: the unit's
    /// flag is set, the matching display counter moves once per unit,
    /// completion is recomputed over the whole collection, and the
    /// completed flag latches the first (and only) firing.
    pub open spec fn spec_record(self, id: Seq<char>, success: bool) -> FanOutTrackerView {
        let marked = Seq::new(
            self.terminal.len(),
            |k: int| self.terminal[k] || self.unit_ids[k] == id,
        );
        let hit = self.hits(id);
        let after = FanOutTrackerView {
            unit_ids: self.unit_ids,
            terminal: marked,
            successes: self.successes + if hit && success {
                1int
            } else {
                0int
            },
            failures: self.failures + if hit && !success {
                1int
            } else {
                0int
            },
            completed: self.completed,
        };
        FanOutTrackerView { completed: self.completed || after.all_terminal(), ..after }
    }

    /// Whether a terminal report for unit `id` fires job-complete.
    pub open spec fn spec_fires(self, id: Seq<char>) -> bool {
        self.spec_record(id, true).completed && !self.completed
    }
}

impl FanOutTracker {
    /// Start tracking a job over these units. Identifiers must be
    /// distinct, so that each report is attributed to one unit.
    pub fn new(unit_ids: Vec<String>) -> (r: FanOutTracker)
        requires
            forall|i: int, j: int|
                0 <= i < j < unit_ids.deep_view().len() ==> unit_ids.deep_view()[i]
                    != unit_ids.deep_view()[j],
        ensures
            r.deep_view().fresh(),
            r.deep_view().unit_ids == unit_ids.deep_view(),
            r.deep_view().successes == 0,
            r.deep_view().failures == 0,
    {
        let n = unit_ids.len();
        let mut terminal: Vec<bool> = Vec::new();
        let mut i: usize = 0;
        while i < n
            invariant
                i <= n,
                terminal@.len() == i,
                forall|k: int| 0 <= k < i ==> !terminal@[k],
            decreases n - i,
        {
            terminal.push(false);
            i = i + 1;
        }
        let r = FanOutTracker { unit_ids, terminal, successes: 0, failures: 0, completed: false };
        proof {
            assert(r.deep_view().terminal =~= r.terminal@);
            assert(count_true(r.deep_view().terminal) == 0) by {
                lemma_count_true_all_false(r.deep_view().terminal);
            }
        }
        r
    }

    /// Number of tracked units.
    pub fn total(&self) -> (r: usize)
        ensures
            r == self.deep_view().unit_ids.len(),
    {
        self.unit_ids.len()
    }

    /// Units that reported so far, for display: (done, total). Display
    /// only — never the completion oracle.
    pub fn progress(&self) -> (r: (usize, usize))
        requires
            self.deep_view().wf(),
        ensures
            r.0 == self.deep_view().successes + self.deep_view().failures,
            r.1 == self.deep_view().unit_ids.len(),
    {
        let total = self.unit_ids.len();
        proof {
            lemma_count_true_bound(self.deep_view().terminal);
            assert(self.deep_view().terminal.len() == self.terminal@.len());
            assert(self.successes as int + self.failures as int <= total as int);
        }
        (self.successes + self.failures, total)
    }

    /// How many units reported success.
    pub fn successes(&self) -> (r: usize)
        ensures
            r == self.deep_view().successes,
    {
        self.successes
    }

    /// How many units reported failure.
    pub fn failures(&self) -> (r: usize)
        ensures
            r == self.deep_view().failures,
    {
        self.failures
    }

    /// Whether job-complete has fired.
    pub fn is_completed(&self) -> (r: bool)
        ensures
            r == self.deep_view().completed,
    {
        self.completed
    }

    /// Recompute "are all tracked units terminal?" over the live
    /// collection.
    fn all_terminal(&self) -> (r: bool)
        ensures
            r == self.deep_view().all_terminal(),
    {
        let n = self.terminal.len();
        let mut i: usize = 0;
        while i < n
            invariant
                i <= n,
                n == self.terminal@.len(),
                forall|k: int| 0 <= k < i ==> self.deep_view().terminal[k],
            decreases n - i,
        {
            if !self.terminal[i] {
                proof {
                    assert(!self.deep_view().terminal[i as int]);
                }
                return false;
            }
            i = i + 1;
        }
        true
    }

    /// Record one terminal report. Marks the unit, moves the display
    /// counter, recomputes completion declaratively, and returns whether
    /// job-complete fires now — which happens at most once per job.
    pub fn record(&mut self, unit_id: &String, success: bool) -> (fired: bool)
        requires
            old(self).deep_view().wf(),
        ensures
            final(self).deep_view() == old(self).deep_view().spec_record(unit_id@, success),
            final(self).deep_view().wf(),
            fired == old(self).deep_view().spec_fires(unit_id@),
            final(self).deep_view().completed == (old(self).deep_view().completed || fired),
    {
        let ghost pre = self.deep_view();
        let n = self.unit_ids.len();
        let mut i: usize = 0;
        let mut found: Option<usize> = None;
        while i < n
            invariant
                i <= n,
                n == self.unit_ids@.len(),
                self == old(self),
                found is None ==> forall|k: int|
                    0 <= k < i ==> self.deep_view().unit_ids[k] != unit_id@,
                match found {
                    Some(f) => f < n && self.deep_view().unit_ids[f as int] == unit_id@,
                    None => true,
                },
            decreases n - i,
        {
            if found.is_none() {
                if self.unit_ids[i] == *unit_id {
                    found = Some(i);
                }
            }
            i = i + 1;
        }
        proof {
            if let Some(f) = found {
                let fi = f as int;
                assert forall|k: int|
                    0 <= k < pre.unit_ids.len() && k != fi implies pre.unit_ids[k]
                        != unit_id@ by {
                    if k < fi {
                        assert(pre.unit_ids[k] != pre.unit_ids[fi]);
                    } else {
                        assert(pre.unit_ids[fi] != pre.unit_ids[k]);
                    }
                }
            }
        }
        let hit: bool = match found {
            Some(f) => !self.terminal[f],
            None => false,
        };
        proof {
            match found {
                Some(f) => {
                    let fi = f as int;
                    if !pre.terminal[fi] {
                        assert(pre.hits(unit_id@));
                    } else {
                        assert(!pre.hits(unit_id@));
                    }
                },
                None => {
                    assert(!pre.hits(unit_id@));
                },
            }
            assert(hit == pre.hits(unit_id@));
            lemma_count_true_bound(pre.terminal);
        }
        let ghost marked = Seq::new(
            pre.terminal.len(),
            |k: int| pre.terminal[k] || pre.unit_ids[k] == unit_id@,
        );
        if let Some(f) = found {
            if !self.terminal[f] {
                proof {
                    lemma_count_true_update(pre.terminal, f as int);
                    lemma_count_true_bound(pre.terminal.update(f as int, true));
                }
                self.terminal[f] = true;
                if success {
                    self.successes = self.successes + 1;
                } else {
                    self.failures = self.failures + 1;
                }
                proof {
                    assert(self.deep_view().terminal =~= pre.terminal.update(f as int, true));
                    assert(self.deep_view().terminal =~= marked);
                    assert(count_true(self.deep_view().terminal) == count_true(pre.terminal) + 1);
                }
            } else {
                proof {
                    assert(self.deep_view().terminal =~= marked);
                    assert(self.deep_view().terminal =~= pre.terminal);
                }
            }
        } else {
            proof {
                assert(self.deep_view().terminal =~= marked);
                assert(self.deep_view().terminal =~= pre.terminal);
            }
        }
        let fired = if self.all_terminal() && !self.completed {
            self.completed = true;
            true
        } else {
            false
        };
        proof {
            assert(self.deep_view() =~= pre.spec_record(unit_id@, success));
            assert(final(self).deep_view().wf());
        }
        fired
    }
}

proof fn lemma_count_true_all_false(s: Seq<bool>)
    requires
        forall|k: int| 0 <= k < s.len() ==> !s[k],
    ensures
        count_true(s) == 0,
    decreases s.len(),
{
    if s.len() > 0 {
        lemma_count_true_all_false(s.drop_last());
    }
}

/// The tracker after a whole sequence of terminal reports, processed in
/// order.
pub open spec fn spec_run_reports(
    t: FanOutTrackerView,
    rs: Seq<(Seq<char>, bool)>,
) -> FanOutTrackerView
    decreases rs.len(),
{
    if rs.len() == 0 {
        t
    } else {
        spec_run_reports(t.spec_record(rs.first().0, rs.first().1), rs.drop_first())
    }
}

/// How many of the reports fire job-complete.
pub open spec fn spec_fire_count(t: FanOutTrackerView, rs: Seq<(Seq<char>, bool)>) -> int
    decreases rs.len(),
{
    if rs.len() == 0 {
        0
    } else {
        (if t.spec_fires(rs.first().0) {
            1int
        } else {
            0int
        }) + spec_fire_count(t.spec_record(rs.first().0, rs.first().1), rs.drop_first())
    }
}

/// Every unit that has not reported yet appears among the reports.
pub open spec fn reports_cover(t: FanOutTrackerView, rs: Seq<(Seq<char>, bool)>) -> bool {
    forall|k: int|
        0 <= k < t.terminal.len() && !(#[trigger] t.terminal[k]) ==> exists|j: int|
            0 <= j < rs.len() && (#[trigger] rs[j]).0 == t.unit_ids[k]
}

proof fn lemma_record_completed_same(t: FanOutTrackerView, id: Seq<char>, success: bool)
    ensures
        t.spec_record(id, success).completed == t.spec_record(id, true).completed,
        t.spec_record(id, success).terminal == t.spec_record(id, true).terminal,
        t.spec_record(id, success).unit_ids == t.unit_ids,
{
}

proof fn lemma_fire_count_completed(t: FanOutTrackerView, rs: Seq<(Seq<char>, bool)>)
    requires
        t.completed,
    ensures
        spec_fire_count(t, rs) == 0,
    decreases rs.len(),
{
    if rs.len() > 0 {
        lemma_fire_count_completed(t.spec_record(rs.first().0, rs.first().1), rs.drop_first());
    }
}

/// Job-complete never fires twice: over any tracker and any sequence of
/// terminal reports, at most one report fires it, because the completed
/// flag latches on the first firing.
pub proof fn lemma_fire_count_at_most_one(t: FanOutTrackerView, rs: Seq<(Seq<char>, bool)>)
    ensures
        spec_fire_count(t, rs) <= 1,
    decreases rs.len(),
{
    if rs.len() > 0 {
        let t1 = t.spec_record(rs.first().0, rs.first().1);
        if t.spec_fires(rs.first().0) {
            lemma_record_completed_same(t, rs.first().0, rs.first().1);
            lemma_fire_count_completed(t1, rs.drop_first());
        } else {
            lemma_fire_count_at_most_one(t1, rs.drop_first());
        }
    }
}

proof fn lemma_fire_count_exact_general(t: FanOutTrackerView, rs: Seq<(Seq<char>, bool)>)
    requires
        t.terminal.len() == t.unit_ids.len(),
        t.distinct_ids(),
        !t.completed,
        reports_cover(t, rs),
        exists|k: int| 0 <= k < t.terminal.len() && !t.terminal[k],
    ensures
        spec_fire_count(t, rs) == 1,
    decreases rs.len(),
{
    let k0 = choose|k: int| 0 <= k < t.terminal.len() && !t.terminal[k];
    assert(exists|j: int| 0 <= j < rs.len() && (#[trigger] rs[j]).0 == t.unit_ids[k0]);
    assert(rs.len() > 0);
    let id0 = rs.first().0;
    let t1 = t.spec_record(id0, rs.first().1);
    lemma_record_completed_same(t, id0, rs.first().1);
    if t.spec_fires(id0) {
        lemma_fire_count_completed(t1, rs.drop_first());
    } else {
        assert(!t1.completed);
        assert(!t1.all_terminal());
        assert(t1.terminal.len() == t1.unit_ids.len());
        assert(t1.distinct_ids());
        let m = choose|k: int| 0 <= k < t1.terminal.len() && !t1.terminal[k];
        assert(!t.terminal[m] && t.unit_ids[m] != id0);
        assert forall|k: int| 0 <= k < t1.terminal.len() && !(#[trigger] t1.terminal[k])
            implies exists|j: int|
                0 <= j < rs.drop_first().len() && (#[trigger] rs.drop_first()[j]).0
                    == t1.unit_ids[k] by {
            assert(!t.terminal[k]);
            let j = choose|j: int| 0 <= j < rs.len() && (#[trigger] rs[j]).0 == t.unit_ids[k];
            assert(t.unit_ids[k] != id0);
            assert(j != 0);
            assert(rs.drop_first()[j - 1].0 == t1.unit_ids[k]);
        }
        lemma_fire_count_exact_general(t1, rs.drop_first());
    }
}

/// Job-complete fires exactly once per job, whatever order the unit
/// reports arrive in: for a fresh tracker over at least one unit, any
/// sequence of reports that covers every unit — in particular every
/// permutation of the units' own reports — fires job-complete exactly
/// once, and the job ends completed.
pub proof fn lemma_job_complete_fires_once(t: FanOutTrackerView, rs: Seq<(Seq<char>, bool)>)
    requires
        t.fresh(),
        t.unit_ids.len() > 0,
        reports_cover(t, rs),
    ensures
        spec_fire_count(t, rs) == 1,
        spec_run_reports(t, rs).completed,
    decreases rs.len(),
{
    assert(!t.terminal[0]);
    lemma_fire_count_exact_general(t, rs);
    lemma_run_completed_when_fired(t, rs);
}

proof fn lemma_run_completed_when_fired(t: FanOutTrackerView, rs: Seq<(Seq<char>, bool)>)
    requires
        spec_fire_count(t, rs) >= 1,
    ensures
        spec_run_reports(t, rs).completed,
    decreases rs.len(),
{
    let t1 = t.spec_record(rs.first().0, rs.first().1);
    if t.spec_fires(rs.first().0) {
        lemma_record_completed_same(t, rs.first().0, rs.first().1);
        lemma_run_preserves_completed(t1, rs.drop_first());
    } else {
        lemma_run_completed_when_fired(t1, rs.drop_first());
    }
}

proof fn lemma_run_preserves_completed(t: FanOutTrackerView, rs: Seq<(Seq<char>, bool)>)
    requires
        t.completed,
    ensures
        spec_run_reports(t, rs).completed,
    decreases rs.len(),
{
    if rs.len() > 0 {
        lemma_run_preserves_completed(t.spec_record(rs.first().0, rs.first().1), rs.drop_first());
    }
}

/// The identifiers with later repetitions removed, first occurrences
/// kept in order.
pub open spec fn spec_dedup(s: Seq<Seq<char>>) -> Seq<Seq<char>>
    decreases s.len(),
{
    if s.len() == 0 {
        Seq::empty()
    } else {
        let rest = spec_dedup(s.drop_last());
        if rest.contains(s.last()) {
            rest
        } else {
            rest.push(s.last())
        }
    }
}

/// Remove repeated identifiers, keeping first occurrences in order, so
/// that a tracker can attribute each report to one unit.
pub fn dedup_ids(v: &Vec<String>) -> (r: Vec<String>)
    ensures
        r.deep_view() == spec_dedup(v.deep_view()),
        forall|i: int, j: int|
            0 <= i < j < r.deep_view().len() ==> r.deep_view()[i] != r.deep_view()[j],
{
    let mut r: Vec<String> = Vec::new();
    let mut i: usize = 0;
    while i < v.len()
        invariant
            i <= v@.len(),
            r.deep_view() == spec_dedup(v.deep_view().take(i as int)),
            forall|a: int, b: int|
                0 <= a < b < r.deep_view().len() ==> r.deep_view()[a] != r.deep_view()[b],
        decreases v@.len() - i,
    {
        let mut seen = false;
        let mut j: usize = 0;
        while j < r.len()
            invariant
                i < v@.len(),
                j <= r@.len(),
                seen <==> exists|k: int| 0 <= k < j && r.deep_view()[k] == v.deep_view()[i as int],
            decreases r@.len() - j,
        {
            let eq = r[j] == v[i];
            proof {
                assert(eq == (r.deep_view()[j as int] == v.deep_view()[i as int]));
            }
            if eq {
                seen = true;
            }
            j = j + 1;
        }
        proof {
            assert(seen <==> r.deep_view().contains(v.deep_view()[i as int]));
        }
        let ghost prev = r.deep_view();
        let ghost prevraw = r@;
        if !seen {
            let x = v[i].clone();
            r.push(x);
            proof {
                assert(r@ == prevraw.push(x));
                assert(r.deep_view() =~= prev.push(v.deep_view()[i as int]));
            }
        }
        i = i + 1;
        proof {
            assert(v.deep_view().take(i as int).drop_last() =~= v.deep_view().take(i - 1));
            assert(v.deep_view().take(i as int).last() == v.deep_view()[i - 1]);
        }
    }
    proof {
        assert(v.deep_view().take(v.deep_view().len() as int) =~= v.deep_view());
    }
    r
}

/// The standard error for a paper with no retrievable source.
pub open spec fn spec_no_source_error() -> Seq<char> {
    "No PDF URL or DOI available"@
}

/// The URL a paper's document is fetched from: the open-access PDF when
/// there is one, the DOI otherwise.
pub open spec fn spec_source_url(p: PaperMetaView) -> Seq<char> {
    if p.pdf_url is Some {
        p.pdf_url.unwrap()
    } else if p.doi is Some {
        p.doi.unwrap()
    } else {
        Seq::empty()
    }
}

/// The extraction request built for one paper.
pub open spec fn spec_extract_request(
    p: PaperMetaView,
    summary: Seq<char>,
    request: Seq<char>,
) -> ExtractTechniqueRequestView {
    ExtractTechniqueRequestView {
        pdf_url: spec_source_url(p),
        paper_id: p.id,
        paper_title: p.title,
        project_summary: summary,
        user_request: request,
    }
}

/// The remote calls an extraction fan-out makes: one per paper with a
/// retrievable source, in paper order. Papers without a source get no
/// call.
pub open spec fn spec_extraction_calls(
    ps: Seq<PaperMetaView>,
    summary: Seq<char>,
    request: Seq<char>,
) -> Seq<ExtractTechniqueRequestView>
    decreases ps.len(),
{
    if ps.len() == 0 {
        Seq::empty()
    } else {
        let rest = spec_extraction_calls(ps.drop_last(), summary, request);
        if ps.last().has_retrievable_source() {
            rest.push(spec_extract_request(ps.last(), summary, request))
        } else {
            rest
        }
    }
}

/// The units an extraction fan-out fails immediately, with the error
/// reported for each: exactly the papers without a retrievable source.
pub open spec fn spec_precondition_failures(ps: Seq<PaperMetaView>) -> Seq<(Seq<char>, Seq<char>)>
    decreases ps.len(),
{
    if ps.len() == 0 {
        Seq::empty()
    } else {
        let rest = spec_precondition_failures(ps.drop_last());
        if ps.last().has_retrievable_source() {
            rest
        } else {
            rest.push((ps.last().id, spec_no_source_error()))
        }
    }
}

/// The identifiers of all papers, in order.
pub open spec fn spec_paper_ids(ps: Seq<PaperMetaView>) -> Seq<Seq<char>> {
    ps.map_values(|p: PaperMetaView| p.id)
}

/// The work an extraction fan-out will do, split before any task is
/// spawned.
#[derive(Debug, PartialEq, Eq)]
pub struct ExtractionPlan {
    /// One remote call per paper with a retrievable source.
    pub calls: Vec<ExtractTechniqueRequest>,
    /// (paper id, error) for each paper that fails its local
    /// precondition: these report failure at once, with no remote call.
    pub precondition_failures: Vec<(String, String)>,
    /// Identifiers of all units the job tracks, repetitions removed.
    pub unit_ids: Vec<String>,
}

/// Split a batch of papers into the remote calls to make and the units
/// that fail immediately. A paper with neither a PDF URL nor a DOI
/// cannot be fetched, so it reports failure with zero remote calls
/// while its siblings proceed.
pub fn plan_extraction(
    papers: &Vec<PaperMeta>,
    project_summary: &String,
    user_request: &String,
) -> (r: ExtractionPlan)
    ensures
        r.calls.deep_view() == spec_extraction_calls(
            papers.deep_view(),
            project_summary@,
            user_request@,
        ),
        r.precondition_failures.deep_view() == spec_precondition_failures(papers.deep_view()),
        r.unit_ids.deep_view() == spec_dedup(spec_paper_ids(papers.deep_view())),
        forall|i: int, j: int|
            0 <= i < j < r.unit_ids.deep_view().len() ==> r.unit_ids.deep_view()[i]
                != r.unit_ids.deep_view()[j],
{
    let mut calls: Vec<ExtractTechniqueRequest> = Vec::new();
    let mut failures: Vec<(String, String)> = Vec::new();
    let mut ids: Vec<String> = Vec::new();
    let mut i: usize = 0;
    while i < papers.len()
        invariant
            i <= papers@.len(),
            calls.deep_view() == spec_extraction_calls(
                papers.deep_view().take(i as int),
                project_summary@,
                user_request@,
            ),
            failures.deep_view() == spec_precondition_failures(papers.deep_view().take(i as int)),
            ids.deep_view() =~= spec_paper_ids(papers.deep_view().take(i as int)),
        decreases papers@.len() - i,
    {
        let ghost prefix = papers.deep_view().take(i as int);
        let ghost pv = papers.deep_view()[i as int];
        let paper = &papers[i];
        let retrievable = match (&paper.pdf_url, &paper.doi) {
            (None, None) => false,
            _ => true,
        };
        proof {
            assert(retrievable == pv.has_retrievable_source());
        }
        if retrievable {
            let url = match &paper.pdf_url {
                Some(u) => u.clone(),
                None => match &paper.doi {
                    Some(d) => d.clone(),
                    None => String::new(),
                },
            };
            proof {
                assert(url@ == spec_source_url(pv));
            }
            let ghost prevc = calls.deep_view();
            let req = ExtractTechniqueRequest {
                pdf_url: url,
                paper_id: paper.id.clone(),
                paper_title: paper.title.clone(),
                project_summary: project_summary.clone(),
                user_request: user_request.clone(),
            };
            proof {
                assert(req.deep_view() =~= spec_extract_request(pv, project_summary@, user_request@));
            }
            calls.push(req);
            proof {
                assert(calls.deep_view() =~= prevc.push(
                    spec_extract_request(pv, project_summary@, user_request@),
                ));
            }
        } else {
            let ghost prevf = failures.deep_view();
            let entry = (paper.id.clone(), "No PDF URL or DOI available".to_owned());
            failures.push(entry);
            proof {
                assert(failures.deep_view() =~= prevf.push((pv.id, spec_no_source_error())));
            }
        }
        let ghost previds = ids.deep_view();
        ids.push(paper.id.clone());
        i = i + 1;
        proof {
            let now = papers.deep_view().take(i as int);
            assert(now.drop_last() =~= prefix);
            assert(now.last() == pv);
            assert(ids.deep_view() =~= previds.push(pv.id));
            assert(spec_paper_ids(now) =~= spec_paper_ids(prefix).push(pv.id));
        }
    }
    proof {
        assert(papers.deep_view().take(papers.deep_view().len() as int) =~= papers.deep_view());
    }
    let unit_ids = dedup_ids(&ids);
    proof {
        assert(ids.deep_view() =~= spec_paper_ids(papers.deep_view()));
    }
    ExtractionPlan { calls, precondition_failures: failures, unit_ids }
}

} // verus!
