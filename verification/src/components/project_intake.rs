//! Project intake phase — the path and description the user types in,
//! with filesystem path suggestions.
//!
//! Text is held as character buffers with a character-index cursor.
//! Reading the filesystem for suggestions, the clipboard for pastes,
//! and `~` expansion happen outside the library; the component asks for
//! them with commands and folds the answers back in.

use vstd::prelude::*;
use crate::action::{Action, ActionView, Command, CommandView};
use crate::project::{ProjectProfile, ProjectProfileView};
use crate::text::{
    spec_first_index_from,
    spec_last_index_of,
    first_index_from,
    last_index_before,
    string_from_chars,
};

verus! {

/// Which input field is currently focused.
#[derive(Debug, Clone, Copy, PartialEq, Eq, Structural)]
pub enum InputField {
    Path,
    Description,
}

/// A single path suggestion entry.
#[derive(Debug, PartialEq, Eq)]
pub struct PathSuggestion {
    /// The full path.
    pub full_path: Vec<char>,
    /// Just the file or directory name, for display.
    pub name: String,
    /// Whether this is a directory.
    pub is_dir: bool,
}

/// Mathematical image of a path suggestion.
#[verifier::ext_equal]
pub struct PathSuggestionView {
    pub full_path: Seq<char>,
    pub name: Seq<char>,
    pub is_dir: bool,
}

impl DeepView for PathSuggestion {
    type V = PathSuggestionView;

    open spec fn deep_view(&self) -> PathSuggestionView {
        PathSuggestionView {
            full_path: self.full_path.deep_view(),
            name: self.name.deep_view(),
            is_dir: self.is_dir,
        }
    }
}

/// The intake phase's state.
#[derive(Debug, PartialEq, Eq)]
pub struct ProjectIntakeComponent {
    /// Current project path input.
    pub path_input: Vec<char>,
    /// Current description input (may contain newlines).
    pub description_input: Vec<char>,
    /// Which field is focused.
    pub focused: InputField,
    /// Cursor position (character index) within the focused field.
    pub cursor: usize,
    /// The analyzed profile, once analysis succeeded.
    pub profile: Option<ProjectProfile>,
    /// Whether analysis is in progress.
    pub analyzing: bool,
    /// Error message if analysis failed.
    pub error: Option<String>,
    /// Current filesystem suggestions for the path input.
    pub suggestions: Vec<PathSuggestion>,
    /// Which suggestion is highlighted.
    pub suggestion_index: Option<usize>,
}

/// Mathematical image of the intake phase.
#[verifier::ext_equal]
pub struct ProjectIntakeView {
    pub path_input: Seq<char>,
    pub description_input: Seq<char>,
    pub focused: InputField,
    pub cursor: usize,
    pub profile: Option<ProjectProfileView>,
    pub analyzing: bool,
    pub error: Option<Seq<char>>,
    pub suggestions: Seq<PathSuggestionView>,
    pub suggestion_index: Option<usize>,
}

impl DeepView for ProjectIntakeComponent {
    type V = ProjectIntakeView;

    open spec fn deep_view(&self) -> ProjectIntakeView {
        ProjectIntakeView {
            path_input: self.path_input.deep_view(),
            description_input: self.description_input.deep_view(),
            focused: self.focused,
            cursor: self.cursor,
            profile: self.profile.deep_view(),
            analyzing: self.analyzing,
            error: self.error.deep_view(),
            suggestions: self.suggestions.deep_view(),
            suggestion_index: self.suggestion_index,
        }
    }
}

/// The cursor clamped into the text it edits.
pub open spec fn spec_clamp(cur: usize, len: nat) -> nat {
    if cur <= len {
        cur as nat
    } else {
        len
    }
}

/// A character inserted at the (clamped) cursor; the cursor follows it.
pub open spec fn spec_after_insert(s: Seq<char>, cur: usize, c: char) -> (Seq<char>, nat) {
    let p = spec_clamp(cur, s.len());
    (s.take(p as int) + seq![c] + s.skip(p as int), p + 1)
}

/// The character before the (clamped) cursor removed.
pub open spec fn spec_after_delete(s: Seq<char>, cur: usize) -> (Seq<char>, nat) {
    let p = spec_clamp(cur, s.len());
    if p > 0 {
        (s.remove(p - 1), (p - 1) as nat)
    } else {
        (s, p)
    }
}

/// Largest index `j <= i` with only spaces between `j` and `i`.
pub open spec fn spec_skip_spaces_back(s: Seq<char>, i: nat) -> nat
    decreases i,
{
    if i > 0 && i <= s.len() && s[i - 1] == ' ' {
        spec_skip_spaces_back(s, (i - 1) as nat)
    } else {
        i
    }
}

/// Largest index `j <= i` with only non-spaces between `j` and `i`.
pub open spec fn spec_skip_word_back(s: Seq<char>, i: nat) -> nat
    decreases i,
{
    if i > 0 && i <= s.len() && s[i - 1] != ' ' {
        spec_skip_word_back(s, (i - 1) as nat)
    } else {
        i
    }
}

/// The word before the (clamped) cursor removed: trailing spaces, then
/// the word itself.
pub open spec fn spec_after_delete_word(s: Seq<char>, cur: usize) -> (Seq<char>, nat) {
    let p = spec_clamp(cur, s.len());
    if p > 0 {
        let end = spec_skip_spaces_back(s, p);
        let start = spec_skip_word_back(s, end);
        (s.take(start as int) + s.skip(p as int), start)
    } else {
        (s, p)
    }
}

/// A text block inserted at the (clamped) cursor; the cursor follows
/// it.
pub open spec fn spec_after_insert_seq(s: Seq<char>, cur: usize, t: Seq<char>) -> (Seq<char>, nat) {
    let p = spec_clamp(cur, s.len());
    (s.take(p as int) + t + s.skip(p as int), p + t.len())
}

/// The line the (clamped) cursor is on, and its column within it.
pub open spec fn spec_line_col(s: Seq<char>, cur: usize) -> (int, int) {
    let p = spec_clamp(cur, s.len());
    let before = s.take(p as int);
    let nl = spec_last_index_of(before, '\n');
    (spec_count_char(before, '\n'), p - (nl + 1))
}

/// Number of occurrences of `c`.
pub open spec fn spec_count_char(s: Seq<char>, c: char) -> int
    decreases s.len(),
{
    if s.len() == 0 {
        0
    } else {
        spec_count_char(s.drop_last(), c) + if s.last() == c {
            1int
        } else {
            0int
        }
    }
}

/// The cursor moved up one line, keeping the column where the previous
/// line allows.
pub open spec fn spec_cursor_up(s: Seq<char>, cur: usize) -> nat {
    let p = spec_clamp(cur, s.len());
    let nl1 = spec_last_index_of(s.take(p as int), '\n');
    if nl1 < 0 {
        p
    } else {
        let col = p - (nl1 + 1);
        let nl2 = spec_last_index_of(s.take(nl1), '\n');
        let prev_start = nl2 + 1;
        let prev_len = nl1 - prev_start;
        (prev_start + if col <= prev_len {
            col
        } else {
            prev_len
        }) as nat
    }
}

/// The cursor moved down one line, keeping the column where the next
/// line allows.
pub open spec fn spec_cursor_down(s: Seq<char>, cur: usize) -> nat {
    let p = spec_clamp(cur, s.len());
    let nl1 = spec_first_index_from(s, p as int, '\n');
    if nl1 < 0 {
        p
    } else {
        let col = p - (spec_last_index_of(s.take(p as int), '\n') + 1);
        let next_start = nl1 + 1;
        let nl2 = spec_first_index_from(s, next_start, '\n');
        let next_end = if nl2 < 0 {
            s.len() as int
        } else {
            nl2
        };
        let next_len = next_end - next_start;
        (next_start + if col <= next_len {
            col
        } else {
            next_len
        }) as nat
    }
}

fn clamp_cursor(v: &Vec<char>, cursor: usize) -> (r: usize)
    ensures
        r == spec_clamp(cursor, v@.len()),
{
    let len = v.len();
    if cursor <= len {
        cursor
    } else {
        len
    }
}

fn edit_insert_char(v: &mut Vec<char>, cursor: &mut usize, c: char)
    ensures
        old(v)@.len() < usize::MAX ==> final(v)@ == spec_after_insert(old(v)@, *old(cursor), c).0
            && *final(cursor) == spec_after_insert(old(v)@, *old(cursor), c).1,
        old(v)@.len() >= usize::MAX ==> final(v)@ == old(v)@ && *final(cursor) == *old(cursor),
{
    if v.len() < usize::MAX {
        let p = clamp_cursor(v, *cursor);
        v.insert(p, c);
        *cursor = p + 1;
        proof {
            assert(v@ =~= spec_after_insert(old(v)@, *old(cursor), c).0);
        }
    }
}

fn edit_delete_char(v: &mut Vec<char>, cursor: &mut usize)
    ensures
        final(v)@ == spec_after_delete(old(v)@, *old(cursor)).0,
        *final(cursor) == spec_after_delete(old(v)@, *old(cursor)).1,
{
    let p = clamp_cursor(v, *cursor);
    if p > 0 {
        v.remove(p - 1);
        *cursor = p - 1;
        proof {
            assert(v@ =~= spec_after_delete(old(v)@, *old(cursor)).0);
        }
    } else {
        *cursor = p;
    }
}

fn edit_delete_word(v: &mut Vec<char>, cursor: &mut usize)
    ensures
        final(v)@ == spec_after_delete_word(old(v)@, *old(cursor)).0,
        *final(cursor) == spec_after_delete_word(old(v)@, *old(cursor)).1,
{
    let p = clamp_cursor(v, *cursor);
    if p > 0 {
        let mut end: usize = p;
        while end > 0 && v[end - 1] == ' '
            invariant
                end <= p <= v@.len(),
                spec_skip_spaces_back(v@, p as nat) == spec_skip_spaces_back(v@, end as nat),
            decreases end,
        {
            end = end - 1;
        }
        proof {
            assert(end == spec_skip_spaces_back(v@, p as nat));
        }
        let mut start: usize = end;
        while start > 0 && v[start - 1] != ' '
            invariant
                start <= end <= v@.len(),
                spec_skip_word_back(v@, end as nat) == spec_skip_word_back(v@, start as nat),
            decreases start,
        {
            start = start - 1;
        }
        proof {
            assert(start == spec_skip_word_back(v@, spec_skip_spaces_back(v@, p as nat)));
        }
        let ghost prev = v@;
        let mut tail: Vec<char> = Vec::new();
        let mut i: usize = p;
        let n = v.len();
        while i < n
            invariant
                p <= i <= n,
                n == v@.len(),
                v@ == prev,
                tail@ =~= prev.subrange(p as int, i as int),
            decreases n - i,
        {
            tail.push(v[i]);
            i = i + 1;
        }
        v.truncate(start);
        proof {
            assert(v@ =~= prev.take(start as int));
        }
        let mut j: usize = 0;
        let m = tail.len();
        while j < m
            invariant
                j <= m,
                m == tail@.len(),
                tail@ =~= prev.subrange(p as int, prev.len() as int),
                v@ =~= prev.take(start as int) + tail@.take(j as int),
            decreases m - j,
        {
            let ghost before = v@;
            v.push(tail[j]);
            j = j + 1;
            proof {
                assert(v@ =~= prev.take(start as int) + tail@.take(j as int));
            }
        }
        *cursor = start;
        proof {
            assert(tail@.take(m as int) =~= tail@);
            assert(v@ =~= spec_after_delete_word(prev, *old(cursor)).0);
        }
    } else {
        *cursor = p;
    }
}

fn edit_insert_seq(v: &mut Vec<char>, cursor: &mut usize, t: &Vec<char>)
    ensures
        old(v)@.len() + t@.len() < usize::MAX ==> final(v)@ == spec_after_insert_seq(
            old(v)@,
            *old(cursor),
            t@,
        ).0 && *final(cursor) == spec_after_insert_seq(old(v)@, *old(cursor), t@).1,
        old(v)@.len() + t@.len() >= usize::MAX ==> final(v)@ == old(v)@ && *final(cursor) == *old(
            cursor,
        ),
{
    if t.len() < usize::MAX && v.len() < usize::MAX - t.len() {
        let p = clamp_cursor(v, *cursor);
        let ghost prev = v@;
        let mut j: usize = 0;
        let m = t.len();
        while j < m
            invariant
                j <= m,
                m == t@.len(),
                p == spec_clamp(*old(cursor), prev.len()),
                p + j <= v@.len(),
                v@ =~= prev.take(p as int) + t@.take(j as int) + prev.skip(p as int),
            decreases m - j,
        {
            let cur_len = v.len();
            proof {
                assert(p + j <= cur_len);
            }
            v.insert(p + j, t[j]);
            j = j + 1;
            proof {
                assert(v@ =~= prev.take(p as int) + t@.take(j as int) + prev.skip(p as int));
            }
        }
        *cursor = p + m;
        proof {
            assert(t@.take(m as int) =~= t@);
            assert(v@ =~= spec_after_insert_seq(prev, *old(cursor), t@).0);
        }
    }
}

fn line_col(v: &Vec<char>, cursor: usize) -> (r: (usize, usize))
    ensures
        r.0 == spec_line_col(v@, cursor).0,
        r.1 == spec_line_col(v@, cursor).1,
{
    let p = clamp_cursor(v, cursor);
    let mut count: usize = 0;
    let mut i: usize = 0;
    while i < p
        invariant
            i <= p <= v@.len(),
            count == spec_count_char(v@.take(i as int), '\n'),
            count <= i,
        decreases p - i,
    {
        proof {
            assert(v@.take(i + 1).drop_last() =~= v@.take(i as int));
        }
        if v[i] == '\n' {
            count = count + 1;
        }
        i = i + 1;
    }
    let nl = last_index_before(v, p, '\n');
    proof {
        crate::text::lemma_last_index_of_bound(v@.take(p as int), '\n');
    }
    let col = match nl {
        Some(x) => p - x - 1,
        None => p,
    };
    (count, col)
}

fn cursor_up_in(v: &Vec<char>, cursor: usize) -> (r: usize)
    ensures
        r == spec_cursor_up(v@, cursor),
{
    let p = clamp_cursor(v, cursor);
    match last_index_before(v, p, '\n') {
        None => p,
        Some(nl1) => {
            proof {
                crate::text::lemma_last_index_of_bound(v@.take(p as int), '\n');
                assert(v@.take(p as int).take(nl1 as int) =~= v@.take(nl1 as int));
            }
            let col = p - nl1 - 1;
            let nl2 = last_index_before(v, nl1, '\n');
            proof {
                crate::text::lemma_last_index_of_bound(v@.take(nl1 as int), '\n');
            }
            let prev_start = match nl2 {
                Some(x) => x + 1,
                None => 0,
            };
            let prev_len = nl1 - prev_start;
            if col <= prev_len {
                prev_start + col
            } else {
                prev_start + prev_len
            }
        },
    }
}

/// An edit applied to one text buffer: the new text and cursor. The
/// buffer is left alone at the (unreachable) size ceiling.
pub open spec fn spec_edit_insert(s: Seq<char>, cur: usize, c: char) -> (Seq<char>, usize) {
    if s.len() < usize::MAX {
        let r = spec_after_insert(s, cur, c);
        (r.0, r.1 as usize)
    } else {
        (s, cur)
    }
}

/// A block paste applied to one text buffer.
pub open spec fn spec_edit_insert_seq(s: Seq<char>, cur: usize, t: Seq<char>) -> (
    Seq<char>,
    usize,
) {
    if s.len() + t.len() < usize::MAX {
        let r = spec_after_insert_seq(s, cur, t);
        (r.0, r.1 as usize)
    } else {
        (s, cur)
    }
}

/// The first line of a pasted block: everything before the first
/// newline.
pub open spec fn spec_first_line(t: Seq<char>) -> Seq<char> {
    let nl = spec_first_index_from(t, 0, '\n');
    if nl < 0 {
        t
    } else {
        t.take(nl)
    }
}

/// Whether path suggestions are showing: the path field is focused and
/// the list is non-empty.
pub open spec fn spec_has_suggestions(s: ProjectIntakeView) -> bool {
    s.focused is Path && s.suggestions.len() > 0
}

/// Focus moved to the other field, the cursor at its end; leaving the
/// path field dismisses the suggestions.
pub open spec fn spec_switch_field(s: ProjectIntakeView) -> ProjectIntakeView {
    match s.focused {
        InputField::Path => ProjectIntakeView {
            focused: InputField::Description,
            cursor: s.description_input.len() as usize,
            suggestions: Seq::empty(),
            suggestion_index: None,
            ..s
        },
        InputField::Description => ProjectIntakeView {
            focused: InputField::Path,
            cursor: s.path_input.len() as usize,
            ..s
        },
    }
}

/// The highlighted suggestion (or the first) accepted into the path
/// field, with a trailing slash for directories; the stale list is
/// dismissed so fresh suggestions can be asked for.
pub open spec fn spec_accept_suggestion(s: ProjectIntakeView) -> ProjectIntakeView {
    let idx = if s.suggestion_index is Some {
        s.suggestion_index.unwrap() as int
    } else {
        0int
    };
    if idx < s.suggestions.len() {
        let sug = s.suggestions[idx];
        let np = if sug.is_dir && !(sug.full_path.len() > 0 && sug.full_path.last() == '/')
            && sug.full_path.len() < usize::MAX {
            sug.full_path.push('/')
        } else {
            sug.full_path
        };
        ProjectIntakeView {
            path_input: np,
            cursor: np.len() as usize,
            suggestions: Seq::empty(),
            suggestion_index: None,
            ..s
        }
    } else {
        s
    }
}

/// The form submitted: with both fields filled, analysis begins and a
/// `SubmitProject` is chained; otherwise a status message says which
/// field is missing. Any suggestions are dismissed either way.
pub open spec fn spec_try_submit(s: ProjectIntakeView) -> (ProjectIntakeView, Option<ActionView>) {
    let s1 = ProjectIntakeView { suggestions: Seq::empty(), suggestion_index: None, ..s };
    if s.path_input.len() > 0 && s.description_input.len() > 0 {
        (
            ProjectIntakeView { analyzing: true, error: None, ..s1 },
            Some(
                ActionView::SubmitProject {
                    path: s.path_input,
                    description: s.description_input,
                },
            ),
        )
    } else if s.path_input.len() == 0 {
        (s1, Some(ActionView::SetStatus("Enter a project path first"@)))
    } else {
        (s1, Some(ActionView::SetStatus("Enter a description of what AI capability to add"@)))
    }
}

/// The command asking for fresh suggestions on the current path input.
pub open spec fn spec_refresh_cmd(s: ProjectIntakeView) -> Seq<CommandView> {
    seq![CommandView::RefreshSuggestions(s.path_input)]
}

/// How the intake phase folds one action: the resulting state, the
/// chained action handed back to the dispatcher, and the commands the
/// runtime must perform (suggestion refreshes, clipboard reads).
pub open spec fn spec_intake_step(s: ProjectIntakeView, a: ActionView) -> (
    ProjectIntakeView,
    Option<ActionView>,
    Seq<CommandView>,
) {
    match a {
        ActionView::CharInput(c) => {
            match s.focused {
                InputField::Path => {
                    let e = spec_edit_insert(s.path_input, s.cursor, c);
                    let s1 = ProjectIntakeView { path_input: e.0, cursor: e.1, ..s };
                    (s1, None, spec_refresh_cmd(s1))
                },
                InputField::Description => {
                    let e = spec_edit_insert(s.description_input, s.cursor, c);
                    (
                        ProjectIntakeView { description_input: e.0, cursor: e.1, ..s },
                        None,
                        Seq::empty(),
                    )
                },
            }
        },
        ActionView::BackspaceInput => {
            match s.focused {
                InputField::Path => {
                    let e = spec_after_delete(s.path_input, s.cursor);
                    let s1 = ProjectIntakeView {
                        path_input: e.0,
                        cursor: e.1 as usize,
                        ..s
                    };
                    (s1, None, spec_refresh_cmd(s1))
                },
                InputField::Description => {
                    let e = spec_after_delete(s.description_input, s.cursor);
                    (
                        ProjectIntakeView {
                            description_input: e.0,
                            cursor: e.1 as usize,
                            ..s
                        },
                        None,
                        Seq::empty(),
                    )
                },
            }
        },
        ActionView::DeleteWord => {
            match s.focused {
                InputField::Path => {
                    let e = spec_after_delete_word(s.path_input, s.cursor);
                    let s1 = ProjectIntakeView {
                        path_input: e.0,
                        cursor: e.1 as usize,
                        ..s
                    };
                    (s1, None, spec_refresh_cmd(s1))
                },
                InputField::Description => {
                    let e = spec_after_delete_word(s.description_input, s.cursor);
                    (
                        ProjectIntakeView {
                            description_input: e.0,
                            cursor: e.1 as usize,
                            ..s
                        },
                        None,
                        Seq::empty(),
                    )
                },
            }
        },
        ActionView::PasteInput => (s, None, seq![CommandView::ReadClipboard]),
        ActionView::PasteBulk(text) => {
            if text.len() == 0 {
                (s, None, Seq::empty())
            } else {
                match s.focused {
                    InputField::Path => {
                        let e = spec_edit_insert_seq(
                            s.path_input,
                            s.cursor,
                            spec_first_line(text),
                        );
                        let s1 = ProjectIntakeView { path_input: e.0, cursor: e.1, ..s };
                        (s1, None, spec_refresh_cmd(s1))
                    },
                    InputField::Description => {
                        let e = spec_edit_insert_seq(s.description_input, s.cursor, text);
                        (
                            ProjectIntakeView { description_input: e.0, cursor: e.1, ..s },
                            None,
                            Seq::empty(),
                        )
                    },
                }
            }
        },
        ActionView::SwitchInputField => {
            if spec_has_suggestions(s) {
                let s1 = spec_accept_suggestion(s);
                (s1, None, spec_refresh_cmd(s1))
            } else {
                (spec_switch_field(s), None, Seq::empty())
            }
        },
        ActionView::ScrollDown | ActionView::SelectNext => {
            if spec_has_suggestions(s) {
                let ni = match s.suggestion_index {
                    None => 0int,
                    Some(i) => if i + 1 < s.suggestions.len() {
                        i + 1
                    } else {
                        s.suggestions.len() - 1
                    },
                };
                (
                    ProjectIntakeView { suggestion_index: Some(ni as usize), ..s },
                    None,
                    Seq::empty(),
                )
            } else if s.focused is Description {
                (
                    ProjectIntakeView {
                        cursor: spec_cursor_down(s.description_input, s.cursor) as usize,
                        ..s
                    },
                    None,
                    Seq::empty(),
                )
            } else {
                (spec_switch_field(s), None, Seq::empty())
            }
        },
        ActionView::ScrollUp | ActionView::SelectPrev => {
            if spec_has_suggestions(s) {
                let ni = match s.suggestion_index {
                    None => None,
                    Some(i) => if i == 0 {
                        None
                    } else {
                        Some((i - 1) as usize)
                    },
                };
                (ProjectIntakeView { suggestion_index: ni, ..s }, None, Seq::empty())
            } else if s.focused is Description {
                if spec_line_col(s.description_input, s.cursor).0 == 0 {
                    (spec_switch_field(s), None, Seq::empty())
                } else {
                    (
                        ProjectIntakeView {
                            cursor: spec_cursor_up(s.description_input, s.cursor) as usize,
                            ..s
                        },
                        None,
                        Seq::empty(),
                    )
                }
            } else {
                (s, None, Seq::empty())
            }
        },
        ActionView::NewlineInput => {
            match s.focused {
                InputField::Path => {
                    if spec_has_suggestions(s) && s.suggestion_index is Some {
                        let s1 = spec_accept_suggestion(s);
                        (s1, None, spec_refresh_cmd(s1))
                    } else {
                        let s1 = ProjectIntakeView {
                            suggestions: Seq::empty(),
                            suggestion_index: None,
                            ..s
                        };
                        if s.path_input.len() > 0 {
                            (spec_switch_field(s1), None, Seq::empty())
                        } else {
                            (s1, None, Seq::empty())
                        }
                    }
                },
                InputField::Description => {
                    let e = spec_edit_insert(s.description_input, s.cursor, '\n');
                    (
                        ProjectIntakeView { description_input: e.0, cursor: e.1, ..s },
                        None,
                        Seq::empty(),
                    )
                },
            }
        },
        ActionView::SubmitForm | ActionView::Confirm => {
            let r = spec_try_submit(s);
            (r.0, r.1, Seq::empty())
        },
        ActionView::ProjectAnalyzed(p) => (
            ProjectIntakeView { analyzing: false, profile: Some(p), ..s },
            None,
            Seq::empty(),
        ),
        ActionView::ProjectAnalysisFailed(e) => (
            ProjectIntakeView { analyzing: false, error: Some(e), ..s },
            None,
            Seq::empty(),
        ),
        ActionView::SuggestionsComputed(list) => (
            ProjectIntakeView { suggestions: list, suggestion_index: None, ..s },
            None,
            Seq::empty(),
        ),
        _ => (s, None, Seq::empty()),
    }
}

fn cursor_down_in(v: &Vec<char>, cursor: usize) -> (r: usize)
    ensures
        r == spec_cursor_down(v@, cursor),
{
    let p = clamp_cursor(v, cursor);
    match first_index_from(v, p, '\n') {
        None => p,
        Some(nl1) => {
            let n = v.len();
            proof {
                crate::text::lemma_first_index_from_bound(v@, p as int, '\n');
                crate::text::lemma_last_index_of_bound(v@.take(p as int), '\n');
                assert(nl1 < n);
            }
            let col = match last_index_before(v, p, '\n') {
                Some(x) => p - x - 1,
                None => p,
            };
            let next_start = nl1 + 1;
            let next_end = match first_index_from(v, next_start, '\n') {
                Some(x) => x,
                None => v.len(),
            };
            proof {
                crate::text::lemma_first_index_from_bound(v@, next_start as int, '\n');
            }
            let next_len = next_end - next_start;
            if col <= next_len {
                next_start + col
            } else {
                next_start + next_len
            }
        },
    }
}

impl ProjectIntakeComponent {
    /// The phase starts focused on the path field, prefilled with `~/`.
    pub fn new() -> (r: Self)
        ensures
            r.deep_view() == (ProjectIntakeView {
                path_input: "~/"@,
                description_input: Seq::empty(),
                focused: InputField::Path,
                cursor: 2usize,
                profile: None,
                analyzing: false,
                error: None,
                suggestions: Seq::empty(),
                suggestion_index: None,
            }),
    {
        broadcast use crate::text::lemma_chars_deep_view;

        let path = crate::text::chars_of("~/");
        proof {
            reveal_strlit("~/");
        }
        let r = ProjectIntakeComponent {
            path_input: path,
            description_input: Vec::new(),
            focused: InputField::Path,
            cursor: 2,
            profile: None,
            analyzing: false,
            error: None,
            suggestions: Vec::new(),
            suggestion_index: None,
        };
        proof {
            assert(r.deep_view() =~= ProjectIntakeView {
                path_input: "~/"@,
                description_input: Seq::empty(),
                focused: InputField::Path,
                cursor: 2usize,
                profile: None,
                analyzing: false,
                error: None,
                suggestions: Seq::empty(),
                suggestion_index: None,
            });
        }
        r
    }

    /// Whether this phase wants to capture raw key input.
    pub fn wants_input(&self) -> (r: bool)
        ensures
            r == (self.deep_view().profile is None && !self.deep_view().analyzing),
    {
        self.profile.is_none() && !self.analyzing
    }

    /// Whether suggestions are currently showing.
    fn has_suggestions(&self) -> (r: bool)
        ensures
            r == spec_has_suggestions(self.deep_view()),
    {
        match self.focused {
            InputField::Path => self.suggestions.len() > 0,
            InputField::Description => false,
        }
    }

    fn switch_field(&mut self)
        ensures
            final(self).deep_view() == spec_switch_field(old(self).deep_view()),
    {
        broadcast use crate::text::lemma_chars_deep_view;

        match self.focused {
            InputField::Path => {
                self.focused = InputField::Description;
                self.cursor = self.description_input.len();
                self.suggestions = Vec::new();
                self.suggestion_index = None;
            },
            InputField::Description => {
                self.focused = InputField::Path;
                self.cursor = self.path_input.len();
            },
        }
        proof {
            assert(self.deep_view().suggestions =~= spec_switch_field(
                old(self).deep_view(),
            ).suggestions);
            assert(self.deep_view() =~= spec_switch_field(old(self).deep_view()));
        }
    }

    fn accept_suggestion(&mut self)
        ensures
            final(self).deep_view() == spec_accept_suggestion(old(self).deep_view()),
    {
        broadcast use crate::text::lemma_chars_deep_view;

        let ghost pre = self.deep_view();
        let idx: usize = match self.suggestion_index {
            Some(i) => i,
            None => 0,
        };
        if idx < self.suggestions.len() {
            let sug = &self.suggestions[idx];
            let mut np: Vec<char> = Vec::new();
            let mut k: usize = 0;
            let m = sug.full_path.len();
            while k < m
                invariant
                    k <= m,
                    m == sug.full_path@.len(),
                    np@ =~= sug.full_path@.take(k as int),
                decreases m - k,
            {
                np.push(sug.full_path[k]);
                k = k + 1;
            }
            proof {
                assert(np@ =~= sug.full_path@);
            }
            let needs_slash = if sug.is_dir {
                if m == 0 {
                    true
                } else {
                    np[m - 1] != '/'
                }
            } else {
                false
            };
            if needs_slash && m < usize::MAX {
                np.push('/');
            }
            self.cursor = np.len();
            self.path_input = np;
            self.suggestions = Vec::new();
            self.suggestion_index = None;
            proof {
                assert(self.deep_view().suggestions =~= Seq::<PathSuggestionView>::empty());
                assert(self.deep_view() =~= spec_accept_suggestion(pre));
            }
        } else {
            proof {
                assert(self.deep_view() =~= spec_accept_suggestion(pre));
            }
        }
    }

    fn try_submit(&mut self) -> (chained: Option<Action>)
        ensures
            final(self).deep_view() == spec_try_submit(old(self).deep_view()).0,
            chained.deep_view() == spec_try_submit(old(self).deep_view()).1,
    {
        broadcast use crate::text::lemma_chars_deep_view;

        let ghost pre = self.deep_view();
        self.suggestions = Vec::new();
        self.suggestion_index = None;
        let r: Option<Action> = if self.path_input.len() > 0 && self.description_input.len() > 0 {
            self.analyzing = true;
            self.error = None;
            Some(
                Action::SubmitProject {
                    path: string_from_chars(&self.path_input),
                    description: string_from_chars(&self.description_input),
                },
            )
        } else if self.path_input.len() == 0 {
            Some(Action::SetStatus("Enter a project path first".to_owned()))
        } else {
            Some(
                Action::SetStatus(
                    "Enter a description of what AI capability to add".to_owned(),
                ),
            )
        };
        proof {
            assert(self.deep_view().suggestions =~= Seq::<PathSuggestionView>::empty());
            assert(self.deep_view() =~= spec_try_submit(pre).0);
        }
        r
    }

    fn refresh_command(&self) -> (r: Command)
        ensures
            r.deep_view() == CommandView::RefreshSuggestions(self.deep_view().path_input),
    {
        broadcast use crate::text::lemma_chars_deep_view;

        Command::RefreshSuggestions(string_from_chars(&self.path_input))
    }

    /// Fold one action into the phase's state. Besides the optional
    /// chained action, hands back the commands the runtime must
    /// perform.
    #[verifier::rlimit(100)]
    pub fn handle_action(&mut self, action: &Action) -> (r: (Option<Action>, Vec<Command>))
        ensures
            final(self).deep_view() == spec_intake_step(
                old(self).deep_view(),
                action.deep_view(),
            ).0,
            r.0.deep_view() == spec_intake_step(old(self).deep_view(), action.deep_view()).1,
            r.1.deep_view() == spec_intake_step(old(self).deep_view(), action.deep_view()).2,
    {
        broadcast use crate::text::lemma_chars_deep_view;

        let ghost pre = self.deep_view();
        let ghost av = action.deep_view();
        let mut cmds: Vec<Command> = Vec::new();
        let mut chained: Option<Action> = None;
        match action {
            Action::CharInput(c) => {
                match self.focused {
                    InputField::Path => {
                        edit_insert_char(&mut self.path_input, &mut self.cursor, *c);
                        cmds.push(self.refresh_command());
                    },
                    InputField::Description => {
                        edit_insert_char(&mut self.description_input, &mut self.cursor, *c);
                    },
                }
            },
            Action::BackspaceInput => {
                match self.focused {
                    InputField::Path => {
                        edit_delete_char(&mut self.path_input, &mut self.cursor);
                        cmds.push(self.refresh_command());
                    },
                    InputField::Description => {
                        edit_delete_char(&mut self.description_input, &mut self.cursor);
                    },
                }
            },
            Action::DeleteWord => {
                match self.focused {
                    InputField::Path => {
                        edit_delete_word(&mut self.path_input, &mut self.cursor);
                        cmds.push(self.refresh_command());
                    },
                    InputField::Description => {
                        edit_delete_word(&mut self.description_input, &mut self.cursor);
                    },
                }
            },
            Action::PasteInput => {
                cmds.push(Command::ReadClipboard);
            },
            Action::PasteBulk(text) => {
                if text.unicode_len() > 0 {
                    let chars = crate::text::chars_of(text.as_str());
                    match self.focused {
                        InputField::Path => {
                            let line_end = match first_index_from(&chars, 0, '\n') {
                                Some(x) => x,
                                None => chars.len(),
                            };
                            proof {
                                crate::text::lemma_first_index_from_bound(chars@, 0, '\n');
                            }
                            let mut first_line: Vec<char> = Vec::new();
                            let mut k: usize = 0;
                            while k < line_end
                                invariant
                                    k <= line_end <= chars@.len(),
                                    first_line@ =~= chars@.take(k as int),
                                decreases line_end - k,
                            {
                                first_line.push(chars[k]);
                                k = k + 1;
                            }
                            proof {
                                assert(first_line@ =~= spec_first_line(text@));
                            }
                            edit_insert_seq(&mut self.path_input, &mut self.cursor, &first_line);
                            cmds.push(self.refresh_command());
                        },
                        InputField::Description => {
                            edit_insert_seq(
                                &mut self.description_input,
                                &mut self.cursor,
                                &chars,
                            );
                        },
                    }
                }
            },
            Action::SwitchInputField => {
                if self.has_suggestions() {
                    self.accept_suggestion();
                    cmds.push(self.refresh_command());
                } else {
                    self.switch_field();
                }
            },
            Action::ScrollDown | Action::SelectNext => {
                if self.has_suggestions() {
                    let len = self.suggestions.len();
                    let ni: usize = match self.suggestion_index {
                        None => 0,
                        Some(i) => if i < len - 1 {
                            i + 1
                        } else {
                            len - 1
                        },
                    };
                    self.suggestion_index = Some(ni);
                } else {
                    match self.focused {
                        InputField::Description => {
                            self.cursor = cursor_down_in(&self.description_input, self.cursor);
                        },
                        InputField::Path => {
                            self.switch_field();
                        },
                    }
                }
            },
            Action::ScrollUp | Action::SelectPrev => {
                if self.has_suggestions() {
                    self.suggestion_index = match self.suggestion_index {
                        None => None,
                        Some(i) => if i == 0 {
                            None
                        } else {
                            Some(i - 1)
                        },
                    };
                } else {
                    match self.focused {
                        InputField::Description => {
                            let lc = line_col(&self.description_input, self.cursor);
                            if lc.0 == 0 {
                                self.switch_field();
                            } else {
                                self.cursor = cursor_up_in(&self.description_input, self.cursor);
                            }
                        },
                        InputField::Path => {},
                    }
                }
            },
            Action::NewlineInput => {
                match self.focused {
                    InputField::Path => {
                        if self.has_suggestions() && self.suggestion_index.is_some() {
                            self.accept_suggestion();
                            cmds.push(self.refresh_command());
                        } else {
                            self.suggestions = Vec::new();
                            self.suggestion_index = None;
                            proof {
                                assert(self.deep_view().suggestions =~= Seq::<
                                    PathSuggestionView,
                                >::empty());
                            }
                            if self.path_input.len() > 0 {
                                self.switch_field();
                            }
                        }
                    },
                    InputField::Description => {
                        edit_insert_char(&mut self.description_input, &mut self.cursor, '\n');
                    },
                }
            },
            Action::SubmitForm | Action::Confirm => {
                chained = self.try_submit();
            },
            Action::ProjectAnalyzed(profile) => {
                self.analyzing = false;
                self.profile = Some((**profile).clone());
            },
            Action::ProjectAnalysisFailed(err) => {
                self.analyzing = false;
                self.error = Some(err.clone());
            },
            Action::SuggestionsComputed(list) => {
                let mut copy: Vec<PathSuggestion> = Vec::new();
                let mut k: usize = 0;
                while k < list.len()
                    invariant
                        k <= list@.len(),
                        copy.deep_view() =~= list.deep_view().take(k as int),
                    decreases list@.len() - k,
                {
                    let ghost prev = copy.deep_view();
                    let ghost prevraw = copy@;
                    let item = &list[k];
                    let mut fp: Vec<char> = Vec::new();
                    let mut j: usize = 0;
                    let m = item.full_path.len();
                    while j < m
                        invariant
                            j <= m,
                            m == item.full_path@.len(),
                            fp@ =~= item.full_path@.take(j as int),
                        decreases m - j,
                    {
                        fp.push(item.full_path[j]);
                        j = j + 1;
                    }
                    proof {
                        assert(fp@ =~= item.full_path@);
                    }
                    let entry = PathSuggestion {
                        full_path: fp,
                        name: item.name.clone(),
                        is_dir: item.is_dir,
                    };
                    let ghost ev = entry.deep_view();
                    proof {
                        assert(ev =~= list.deep_view()[k as int]);
                    }
                    copy.push(entry);
                    k = k + 1;
                    proof {
                        assert(prev.len() == prevraw.len());
                        assert(copy.deep_view().len() == k);
                        assert forall|x: int| 0 <= x < k implies copy.deep_view()[x] == list
                            .deep_view().take(k as int)[x] by {
                            if x < k - 1 {
                                assert(copy.deep_view()[x] == prev[x]);
                            } else {
                                assert(copy.deep_view()[x] == ev);
                            }
                        }
                        assert(copy.deep_view() =~= list.deep_view().take(k as int));
                    }
                }
                proof {
                    assert(copy.deep_view() =~= list.deep_view());
                }
                self.suggestions = copy;
                self.suggestion_index = None;
            },
            _ => {},
        }
        proof {
            assert(self.deep_view() =~= spec_intake_step(pre, av).0);
            assert(chained.deep_view() == spec_intake_step(pre, av).1);
            assert(cmds.deep_view() =~= spec_intake_step(pre, av).2);
        }
        (chained, cmds)
    }
}

} // verus!
