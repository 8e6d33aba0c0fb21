//! The render projector: a pure mapping from an application-state snapshot
//! to the contents of the interface's panes. No transition logic lives here;
//! the same state always projects to the same panes, so the projection can
//! be tested against golden outputs.
//!
//! The panes: the watched source with line numbers and an "updated at"
//! title; a status line present once a test outcome exists; the entry-point
//! selector with the chosen name highlighted; one artifact text picked by
//! the selected tab; and a detail pane showing the test output after a pass,
//! the captured error after a failure, and a placeholder otherwise.

use vstd::prelude::*;

use crate::state::{App, AppView};

verus! {

/// A rectangular region with a title and its text content.
pub struct Pane {
    pub title: String,
    pub text: String,
}

/// Mathematical view of a pane.
#[verifier::ext_equal]
pub ghost struct PaneView {
    pub title: Seq<char>,
    pub text: Seq<char>,
}

impl View for Pane {
    type V = PaneView;

    open spec fn view(&self) -> PaneView {
        PaneView { title: self.title@, text: self.text@ }
    }
}

/// The pass/fail status line under the code pane.
pub struct StatusLine {
    pub text: String,
    pub passed: bool,
}

/// Mathematical view of the status line.
#[verifier::ext_equal]
pub ghost struct StatusLineView {
    pub text: Seq<char>,
    pub passed: bool,
}

impl View for StatusLine {
    type V = StatusLineView;

    open spec fn view(&self) -> StatusLineView {
        StatusLineView { text: self.text@, passed: self.passed }
    }
}

impl DeepView for StatusLine {
    type V = StatusLineView;

    open spec fn deep_view(&self) -> StatusLineView {
        self.view()
    }
}

/// One name in the entry-point selector, already formatted: the selected
/// one is bracketed.
pub struct EntryItem {
    pub text: String,
    pub selected: bool,
}

/// Mathematical view of a selector item.
#[verifier::ext_equal]
pub ghost struct EntryItemView {
    pub text: Seq<char>,
    pub selected: bool,
}

impl View for EntryItem {
    type V = EntryItemView;

    open spec fn view(&self) -> EntryItemView {
        EntryItemView { text: self.text@, selected: self.selected }
    }
}

impl DeepView for EntryItem {
    type V = EntryItemView;

    open spec fn deep_view(&self) -> EntryItemView {
        self.view()
    }
}

/// How the detail pane is to be colored.
#[derive(Clone, Copy, PartialEq, Eq, Structural, Debug)]
pub enum Tone {
    /// The last run passed its tests.
    Positive,
    /// The last run failed.
    Negative,
    /// Nothing to report yet.
    Neutral,
}

/// Everything the terminal needs to draw one frame.
pub struct RenderModel {
    pub code_pane: Pane,
    pub status_line: Option<StatusLine>,
    pub entry_items: Vec<EntryItem>,
    pub selected_tab: usize,
    pub artifact_text: String,
    pub detail_pane: Pane,
    pub detail_tone: Tone,
}

/// Mathematical view of a frame.
#[verifier::ext_equal]
pub ghost struct RenderModelView {
    pub code_pane: PaneView,
    pub status_line: Option<StatusLineView>,
    pub entry_items: Seq<EntryItemView>,
    pub selected_tab: int,
    pub artifact_text: Seq<char>,
    pub detail_pane: PaneView,
    pub detail_tone: Tone,
}

impl View for RenderModel {
    type V = RenderModelView;

    open spec fn view(&self) -> RenderModelView {
        RenderModelView {
            code_pane: self.code_pane@,
            status_line: self.status_line.deep_view(),
            entry_items: self.entry_items.deep_view(),
            selected_tab: self.selected_tab as int,
            artifact_text: self.artifact_text@,
            detail_pane: self.detail_pane@,
            detail_tone: self.detail_tone,
        }
    }
}

/// First position at or after `j` holding a newline, or the end of the text.
pub open spec fn line_end(s: Seq<char>, j: int) -> int
    decreases s.len() - j,
{
    if 0 <= j && j < s.len() && s[j] != '\n' {
        line_end(s, j + 1)
    } else {
        j
    }
}

/// A line with one trailing carriage return removed, as the display splits
/// both plain and CRLF line endings.
pub open spec fn strip_cr(l: Seq<char>) -> Seq<char> {
    if l.len() > 0 && l[l.len() - 1] == '\r' {
        l.drop_last()
    } else {
        l
    }
}

/// The display lines of `s` from position `pos` on: segments split at
/// newlines, each with a trailing carriage return removed, and with no empty
/// segment after a final newline.
pub open spec fn lines_from(s: Seq<char>, pos: int) -> Seq<Seq<char>>
    decreases s.len() - pos when 0 <= pos <= s.len() via lines_from_decreases
{
    if pos >= s.len() {
        Seq::empty()
    } else {
        let j = line_end(s, pos);
        let line = strip_cr(s.subrange(pos, j));
        if j >= s.len() {
            seq![line]
        } else {
            seq![line] + lines_from(s, j + 1)
        }
    }
}

#[via_fn]
proof fn lines_from_decreases(s: Seq<char>, pos: int) {
    lemma_line_end_bounds(s, pos);
}

/// The display lines of a whole text.
pub open spec fn display_lines(s: Seq<char>) -> Seq<Seq<char>> {
    lines_from(s, 0)
}

proof fn lemma_line_end_bounds(s: Seq<char>, pos: int)
    requires
        0 <= pos <= s.len(),
    ensures
        pos <= line_end(s, pos) <= s.len(),
    decreases s.len() - pos,
{
    if pos < s.len() && s[pos] != '\n' {
        lemma_line_end_bounds(s, pos + 1);
    }
}

proof fn lemma_line_end_from(s: Seq<char>, a: int, j: int)
    requires
        0 <= a <= j <= s.len(),
        forall|k: int| a <= k < j ==> s[k] != '\n',
        j == s.len() || s[j] == '\n',
    ensures
        line_end(s, a) == j,
    decreases j - a,
{
    if a < j {
        lemma_line_end_from(s, a + 1, j);
    }
}

/// The decimal digit character for `d`.
pub open spec fn digit_char(d: int) -> char {
    if d == 0 {
        '0'
    } else if d == 1 {
        '1'
    } else if d == 2 {
        '2'
    } else if d == 3 {
        '3'
    } else if d == 4 {
        '4'
    } else if d == 5 {
        '5'
    } else if d == 6 {
        '6'
    } else if d == 7 {
        '7'
    } else if d == 8 {
        '8'
    } else {
        '9'
    }
}

/// The decimal digits of a non-negative number, most significant first.
pub open spec fn dec_digits(n: int) -> Seq<char>
    decreases n,
{
    if n < 10 {
        seq![digit_char(n)]
    } else {
        dec_digits(n / 10).push(digit_char(n % 10))
    }
}

/// `k` spaces.
pub open spec fn spaces(k: int) -> Seq<char>
    decreases k,
{
    if k <= 0 {
        Seq::empty()
    } else {
        spaces(k - 1).push(' ')
    }
}

/// `s` right-aligned in a field of four characters; longer texts stand as
/// they are.
pub open spec fn pad4(s: Seq<char>) -> Seq<char> {
    spaces(4 - s.len()) + s
}

/// Display line `n`: the line number right-aligned to four characters, one
/// space, and the line's text.
pub open spec fn numbered_line(n: int, line: Seq<char>) -> Seq<char> {
    pad4(dec_digits(n)) + seq![' '] + line
}

/// The first `i` display lines numbered from one and joined with newlines.
pub open spec fn numbered_prefix(ls: Seq<Seq<char>>, i: int) -> Seq<char>
    decreases i,
{
    if i <= 0 {
        Seq::empty()
    } else if i == 1 {
        numbered_line(1, ls[0])
    } else {
        numbered_prefix(ls, i - 1) + seq!['\n'] + numbered_line(i, ls[i - 1])
    }
}

/// The whole line-numbered rendering of a source text.
pub open spec fn numbered_code(s: Seq<char>) -> Seq<char> {
    numbered_prefix(display_lines(s), display_lines(s).len() as int)
}

/// The code pane's title: the last reload stamp, or a plain name before the
/// first reload.
pub open spec fn code_title_of(v: AppView) -> Seq<char> {
    match v.last_update {
        Some(t) => "updated at "@ + t,
        None => "File"@,
    }
}

/// The status line, present exactly once a test outcome exists.
pub open spec fn status_of(v: AppView) -> Option<StatusLineView> {
    match v.tests_passed {
        Some(true) => Some(StatusLineView { text: "Tests passed"@, passed: true }),
        Some(false) => Some(
            StatusLineView { text: "Artifact generation error"@, passed: false },
        ),
        None => None,
    }
}

/// One selector item: the selected name is bracketed, every name carries a
/// trailing space as separator.
pub open spec fn entry_item_of(name: Seq<char>, selected: bool) -> EntryItemView {
    EntryItemView {
        text: if selected {
            "["@ + name + "] "@
        } else {
            name + " "@
        },
        selected: selected,
    }
}

/// All selector items, in entry order.
pub open spec fn entry_items_of(v: AppView) -> Seq<EntryItemView> {
    Seq::new(v.entry_points.len(), |i: int| entry_item_of(v.entry_points[i], i == v.selected_entry))
}

/// The artifact text the selected tab shows.
pub open spec fn artifact_of(v: AppView) -> Seq<char> {
    if v.selected_tab == 0 {
        v.unopt_ir
    } else if v.selected_tab == 1 {
        v.opt_ir
    } else if v.selected_tab == 2 {
        v.delay_info
    } else {
        Seq::empty()
    }
}

/// The detail pane and its tone: the test output after a pass, the captured
/// error after a failure, and a neutral placeholder otherwise.
pub open spec fn detail_of(v: AppView) -> (PaneView, Tone) {
    if v.tests_passed == Some(true) {
        (
            PaneView {
                title: "test output"@,
                text: match v.test_output {
                    Some(t) => t,
                    None => "[ no test output ]"@,
                },
            },
            Tone::Positive,
        )
    } else {
        match v.error_message {
            Some(e) => (PaneView { title: "Error"@, text: e }, Tone::Negative),
            None => (PaneView { title: "Error"@, text: "[ none ]"@ }, Tone::Neutral),
        }
    }
}

/// The frame a state snapshot projects to.
pub open spec fn render_view(v: AppView) -> RenderModelView {
    RenderModelView {
        code_pane: PaneView { title: code_title_of(v), text: numbered_code(v.code) },
        status_line: status_of(v),
        entry_items: entry_items_of(v),
        selected_tab: v.selected_tab,
        artifact_text: artifact_of(v),
        detail_pane: detail_of(v).0,
        detail_tone: detail_of(v).1,
    }
}

fn find_line_end(s: &str, from: usize, n: usize) -> (j: usize)
    requires
        n == s@.len(),
        from <= n,
    ensures
        from <= j <= n,
        j == line_end(s@, from as int),
{
    let mut j = from;
    while j < n && s.get_char(j) != '\n'
        invariant
            n == s@.len(),
            from <= j <= n,
            forall|k: int| from <= k < j ==> s@[k] != '\n',
        decreases n - j,
    {
        j += 1;
    }
    proof {
        lemma_line_end_from(s@, from as int, j as int);
    }
    j
}

/// Splits a text into its display lines.
fn split_lines(s: &str) -> (lines: Vec<String>)
    ensures
        lines.deep_view() == display_lines(s@),
{
    let n = s.unicode_len();
    let mut lines: Vec<String> = Vec::new();
    let mut pos: usize = 0;
    proof {
        assert(lines.deep_view() + lines_from(s@, 0) =~= display_lines(s@));
    }
    while pos < n
        invariant
            n == s@.len(),
            pos <= n,
            lines.deep_view() + lines_from(s@, pos as int) == display_lines(s@),
        decreases n - pos,
    {
        let lend = find_line_end(s, pos, n);
        let text_end = if lend > pos && s.get_char(lend - 1) == '\r' {
            lend - 1
        } else {
            lend
        };
        let line = s.substring_char(pos, text_end).to_owned();
        let ghost previous = lines.deep_view();
        let ghost rest = lines_from(s@, pos as int);
        lines.push(line);
        proof {
            assert(line@ =~= strip_cr(s@.subrange(pos as int, lend as int)));
            assert(lines.deep_view() =~= previous.push(line@));
        }
        if lend >= n {
            pos = n;
            proof {
                assert(rest =~= seq![line@]);
                assert(lines.deep_view() + lines_from(s@, pos as int) =~= display_lines(s@));
            }
        } else {
            pos = lend + 1;
            proof {
                assert(rest =~= seq![line@] + lines_from(s@, pos as int));
                assert(lines.deep_view() + lines_from(s@, pos as int) =~= display_lines(s@));
            }
        }
    }
    proof {
        assert(lines.deep_view() =~= display_lines(s@));
    }
    lines
}

fn digit_str(d: usize) -> (r: &'static str)
    requires
        d < 10,
    ensures
        r@ == seq![digit_char(d as int)],
{
    let r = match d {
        0 => "0",
        1 => "1",
        2 => "2",
        3 => "3",
        4 => "4",
        5 => "5",
        6 => "6",
        7 => "7",
        8 => "8",
        _ => "9",
    };
    proof {
        reveal_strlit("0");
        reveal_strlit("1");
        reveal_strlit("2");
        reveal_strlit("3");
        reveal_strlit("4");
        reveal_strlit("5");
        reveal_strlit("6");
        reveal_strlit("7");
        reveal_strlit("8");
        reveal_strlit("9");
        assert(r@ =~= seq![digit_char(d as int)]);
    }
    r
}

fn push_decimal(n: usize, out: &mut String)
    ensures
        final(out)@ == old(out)@ + dec_digits(n as int),
    decreases n,
{
    if n >= 10 {
        push_decimal(n / 10, out);
    }
    out.append(digit_str(n % 10));
    proof {
        assert(out@ =~= old(out)@ + dec_digits(n as int));
    }
}

fn push_padded_number(n: usize, out: &mut String)
    ensures
        final(out)@ == old(out)@ + pad4(dec_digits(n as int)),
{
    let mut digits = String::new();
    push_decimal(n, &mut digits);
    let width = digits.as_str().unicode_len();
    let mut k: usize = width;
    while k < 4
        invariant
            digits@ == dec_digits(n as int),
            width == digits@.len(),
            width <= k,
            width < 4 ==> k <= 4,
            width >= 4 ==> k == width,
            out@ == old(out)@ + spaces(k - width),
        decreases 4 - k,
    {
        out.append(" ");
        k += 1;
        proof {
            reveal_strlit(" ");
            assert(out@ =~= old(out)@ + spaces(k - width));
        }
    }
    out.append(digits.as_str());
    proof {
        assert(out@ =~= old(out)@ + pad4(dec_digits(n as int)));
    }
}

/// Renders a source text with right-aligned line numbers, one numbered line
/// per display line.
pub fn number_lines(code: &str) -> (r: String)
    ensures
        r@ == numbered_code(code@),
{
    let lines = split_lines(code);
    let mut out = String::new();
    let mut i: usize = 0;
    while i < lines.len()
        invariant
            lines.deep_view() == display_lines(code@),
            i <= lines.len(),
            out@ == numbered_prefix(lines.deep_view(), i as int),
        decreases lines.len() - i,
    {
        if i > 0 {
            out.append("\n");
        }
        push_padded_number(i + 1, &mut out);
        out.append(" ");
        out.append(lines[i].as_str());
        i += 1;
        proof {
            reveal_strlit(" ");
            reveal_strlit("\n");
            assert(lines.deep_view()[i - 1] == lines[i as int - 1]@);
            assert(out@ =~= numbered_prefix(lines.deep_view(), i as int));
        }
    }
    proof {
        assert(out@ =~= numbered_code(code@));
    }
    out
}

/// Projects a state snapshot to the frame the terminal must draw. Pure: the
/// state is only read, and equal states project to equal frames.
pub fn render_model(app: &App) -> (m: RenderModel)
    ensures
        m@ == render_view(app@),
{
    let title = match &app.last_update {
        Some(t) => {
            let mut s = String::from_str("updated at ");
            s.append(t.as_str());
            s
        },
        None => String::from_str("File"),
    };
    let code_pane = Pane { title, text: number_lines(app.code.as_str()) };

    let status_line = match app.tests_passed {
        Some(true) => Some(StatusLine { text: String::from_str("Tests passed"), passed: true }),
        Some(false) => Some(
            StatusLine { text: String::from_str("Artifact generation error"), passed: false },
        ),
        None => None,
    };

    let mut entry_items: Vec<EntryItem> = Vec::new();
    let mut i: usize = 0;
    while i < app.entry_points.len()
        invariant
            entry_items.len() == i,
            i <= app.entry_points.len(),
            forall|k: int|
                0 <= k < i ==> entry_items.deep_view()[k] == entry_item_of(
                    app@.entry_points[k],
                    k == app@.selected_entry,
                ),
        decreases app.entry_points.len() - i,
    {
        let selected = i == app.selected_entry;
        let text = if selected {
            let mut t = String::from_str("[");
            t.append(app.entry_points[i].as_str());
            t.append("] ");
            t
        } else {
            let mut t = app.entry_points[i].clone();
            t.append(" ");
            t
        };
        let ghost previous = entry_items.deep_view();
        let ghost item = EntryItemView {
            text: text@,
            selected: i == app@.selected_entry,
        };
        entry_items.push(EntryItem { text, selected });
        i += 1;
        proof {
            assert(entry_items.deep_view() =~= previous.push(item));
            assert(item == entry_item_of(app@.entry_points[i - 1], i - 1 == app@.selected_entry));
        }
    }
    proof {
        assert(entry_items.deep_view() =~= entry_items_of(app@));
    }

    let artifact_text = if app.selected_tab == 0 {
        app.unopt_ir.clone()
    } else if app.selected_tab == 1 {
        app.opt_ir.clone()
    } else if app.selected_tab == 2 {
        app.delay_info.clone()
    } else {
        String::new()
    };

    let passed = match app.tests_passed {
        Some(true) => true,
        _ => false,
    };
    let (detail_pane, detail_tone) = if passed {
        let text = match &app.test_output {
            Some(t) => t.clone(),
            None => String::from_str("[ no test output ]"),
        };
        (Pane { title: String::from_str("test output"), text }, Tone::Positive)
    } else {
        match &app.error_message {
            Some(e) => (
                Pane { title: String::from_str("Error"), text: e.clone() },
                Tone::Negative,
            ),
            None => (
                Pane { title: String::from_str("Error"), text: String::from_str("[ none ]") },
                Tone::Neutral,
            ),
        }
    };

    let m = RenderModel {
        code_pane,
        status_line,
        entry_items,
        selected_tab: app.selected_tab,
        artifact_text,
        detail_pane,
        detail_tone,
    };
    proof {
        assert(m@ =~= render_view(app@));
    }
    m
}

} // verus!
