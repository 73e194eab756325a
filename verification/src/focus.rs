//! Focus view of tool calls: successful tools are hidden, failures keep a
//! one-line identity ("• tool: status") bounded by the terminal width, and
//! the full transcript of the cell is left untouched.

use vstd::prelude::*;
use crate::focus_mode::HistoryRenderMode;
use crate::styled::{
    copy_lines, line_text, lines_view, plain_line, plain_lines, plain_style, red_style, Line,
    LineView, Span, Style,
};
use crate::text::{
    char_cols, collapse_whitespace, collapse_ws, cut_len, lemma_text_cols_concat,
    lemma_text_cols_step, cut_text, is_cut, lemma_cut_len, lemma_cut_unique,
    lemma_text_cols_monotone, same_text, str_width, take_prefix_by_width, text_cols,
    unicode_str_width,
};

verus! {

/// Columns left for the tool name once "• ", ": " and the status are placed.
pub open spec fn summary_budget(width: u16, status: Seq<char>) -> nat {
    let need = unicode_str_width(status) + 4;
    if width >= need {
        (width - need) as nat
    } else {
        0
    }
}

/// The tool name with its whitespace collapsed, cut to `budget` columns; when
/// it does not fit whole it is cut one column shorter and ends in "…".
pub open spec fn tool_label(tool: Seq<char>, budget: nat) -> Seq<char> {
    let t = collapse_whitespace(tool);
    if cut_len(t, budget) == t.len() {
        t
    } else {
        cut_text(t, if budget >= 1 { (budget - 1) as nat } else { 0 }) + seq!['…']
    }
}

/// The identity of a failed tool call before it is cut to the width.
pub open spec fn identity_text(tool: Seq<char>, status: Seq<char>, width: u16) -> Seq<char> {
    seq!['•', ' '] + tool_label(tool, summary_budget(width, status)) + seq![':', ' '] + status
}

/// The identity cut to the terminal width.
pub open spec fn summary_text(tool: Seq<char>, status: Seq<char>, width: u16) -> Seq<char> {
    cut_text(identity_text(tool, status, width), width as nat)
}

/// What the focus view shows of a tool call: nothing when it completed or
/// when there are no columns, otherwise one red identity line.
pub open spec fn focus_summary(tool: Seq<char>, status: Seq<char>, width: u16) -> Seq<LineView> {
    if status == "completed"@ || width == 0 {
        Seq::empty()
    } else {
        seq![seq![(summary_text(tool, status, width), red_style())]]
    }
}

/// The one-line identity of a tool call that the focus view keeps, or no
/// line when the call completed or the width is zero.
pub fn focus_tool_summary(tool: &str, status: &str, width: u16) -> (lines: Vec<Line>)
    ensures
        lines_view(lines@) == focus_summary(tool@, status@, width),
{
    if same_text(status, "completed") || width == 0 {
        let empty: Vec<Line> = Vec::new();
        proof {
            assert(lines_view(empty@) =~= Seq::<LineView>::empty());
        }
        return empty;
    }
    let collapsed = collapse_ws(tool);
    let need = str_width(status).saturating_add(4);
    let available = (width as usize).saturating_sub(need);
    let ghost budget = summary_budget(width, status@);
    assert(available == budget);
    let (prefix, rest, _) = take_prefix_by_width(collapsed.as_str(), available);
    proof {
        lemma_cut_len(collapsed@, budget);
        assert(prefix@.len() == cut_len(collapsed@, budget));
    }
    let label = if rest.is_empty() {
        proof {
            assert(prefix@ =~= collapsed@);
        }
        prefix
    } else {
        let (shorter, _, _) = take_prefix_by_width(collapsed.as_str(), available.saturating_sub(1));
        let mut l = shorter;
        l.append("…");
        proof {
            reveal_strlit("…");
        }
        l
    };
    assert(label@ == tool_label(tool@, budget));
    let mut text = String::from_str("• ");
    text.append(label.as_str());
    text.append(": ");
    text.append(status);
    proof {
        reveal_strlit("• ");
        reveal_strlit(": ");
    }
    let (cut, _, _) = take_prefix_by_width(text.as_str(), width as usize);
    let line = Line::single(Span::from_string(cut, Style::red()));
    let mut lines: Vec<Line> = Vec::new();
    lines.push(line);
    proof {
        assert(text@ =~= identity_text(tool@, status@, width));
        assert(lines_view(lines@) =~= focus_summary(tool@, status@, width));
    }
    lines
}

/// A cell that shows a fixed list of lines.
pub struct PlainHistoryCell {
    pub lines: Vec<Line>,
}

impl PlainHistoryCell {
    /// The lines as the transcript shows them, whatever the width.
    pub fn display_lines(&self, width: u16) -> (r: Vec<Line>)
        ensures
            lines_view(r@) == lines_view(self.lines@),
    {
        copy_lines(&self.lines)
    }

    /// The lines without styles, as the raw view shows them.
    pub fn raw_lines(&self) -> (r: Vec<Line>)
        ensures
            lines_view(r@) == lines_view(self.lines@).map_values(|l: LineView| plain_line(l)),
    {
        plain_lines(&self.lines)
    }
}

/// The line that an artifact adds to the focus view.
pub open spec fn artifact_lines(artifact: Option<Line>) -> Seq<LineView> {
    match artifact {
        Some(line) => seq![line@],
        None => Seq::empty(),
    }
}

/// A finished tool call: its full transcript, its identity (tool and
/// status) and an optional artifact line that stays visible in focus view.
pub struct FocusToolResultCell {
    pub full: PlainHistoryCell,
    pub tool: String,
    pub status: String,
    pub artifact: Option<Line>,
}

impl FocusToolResultCell {
    /// The full transcript of the call.
    pub fn display_lines(&self, width: u16) -> (r: Vec<Line>)
        ensures
            lines_view(r@) == lines_view(self.full.lines@),
    {
        self.full.display_lines(width)
    }

    /// The full transcript without styles.
    pub fn raw_lines(&self) -> (r: Vec<Line>)
        ensures
            lines_view(r@) == lines_view(self.full.lines@).map_values(|l: LineView| plain_line(l)),
    {
        self.full.raw_lines()
    }

    /// What the focus view shows: the identity line of a call that did not
    /// complete, then the artifact line, if any.
    pub fn focus_hyperlink_lines(&self, width: u16) -> (r: Vec<Line>)
        ensures
            lines_view(r@) == focus_summary(self.tool@, self.status@, width) + artifact_lines(
                self.artifact,
            ),
    {
        let mut lines = focus_tool_summary(self.tool.as_str(), self.status.as_str(), width);
        let ghost before = lines@;
        match &self.artifact {
            Some(line) => {
                lines.push(line.copy());
                proof {
                    assert(lines_view(lines@) =~= lines_view(before).push(line@));
                }
            },
            None => {},
        }
        proof {
            assert(lines_view(lines@) =~= focus_summary(self.tool@, self.status@, width)
                + artifact_lines(self.artifact));
        }
        lines
    }
}

/// The lines a cell shows in each render mode.
pub open spec fn mode_lines(
    full: Seq<LineView>,
    focus: Seq<LineView>,
    mode: HistoryRenderMode,
) -> Seq<LineView> {
    match mode {
        HistoryRenderMode::Rich => full,
        HistoryRenderMode::Focus => focus,
        HistoryRenderMode::Raw => full.map_values(|l: LineView| plain_line(l)),
    }
}

impl FocusToolResultCell {
    /// The lines of the cell in a render mode: the full transcript, its
    /// focus view, or the unstyled transcript.
    pub fn display_lines_for_mode(&self, width: u16, mode: HistoryRenderMode) -> (r: Vec<Line>)
        ensures
            lines_view(r@) == mode_lines(
                lines_view(self.full.lines@),
                focus_summary(self.tool@, self.status@, width) + artifact_lines(self.artifact),
                mode,
            ),
            mode == HistoryRenderMode::Rich ==> lines_view(r@) == lines_view(self.full.lines@),
            mode == HistoryRenderMode::Focus ==> lines_view(r@) == focus_summary(
                self.tool@,
                self.status@,
                width,
            ) + artifact_lines(self.artifact),
            mode == HistoryRenderMode::Raw ==> lines_view(r@) == lines_view(
                self.full.lines@,
            ).map_values(|l: LineView| plain_line(l)),
    {
        match mode {
            HistoryRenderMode::Rich => self.display_lines(width),
            HistoryRenderMode::Focus => self.focus_hyperlink_lines(width),
            HistoryRenderMode::Raw => self.raw_lines(),
        }
    }
}

// ---------------------------------------------------------------------------
// Laws of the focus view
// ---------------------------------------------------------------------------

proof fn lemma_single_span_text(text: Seq<char>)
    ensures
        line_text(seq![(text, red_style())]) == text,
{
    let l = seq![(text, red_style())];
    assert(l.drop_last() =~= Seq::<(Seq<char>, Style)>::empty());
    assert(line_text(l.drop_last()) =~= Seq::<char>::empty());
    assert(line_text(l) =~= text);
}

/// A text is kept whole by a cut when it fits the budget and, if it uses
/// the budget up exactly, its last char takes a column.
pub proof fn lemma_cut_keeps_fitting_text(text: Seq<char>, max: nat)
    requires
        text_cols(text) <= max,
        text.len() == 0 || text_cols(text) < max || char_cols(text.last()) > 0,
    ensures
        cut_len(text, max) == text.len(),
        cut_text(text, max) == text,
{
    assert(text.take(text.len() as int) =~= text);
    if text.len() > 0 {
        lemma_text_cols_step(text, text.len() - 1);
        lemma_text_cols_monotone(text, text.len() - 1, text.len() as int);
    }
    assert(is_cut(text, max, text.len() as int));
    lemma_cut_len(text, max);
    lemma_cut_unique(text, max, text.len() as int, cut_len(text, max));
}

proof fn lemma_text_cols_one(a: char)
    ensures
        text_cols(seq![a]) == char_cols(a),
{
    assert(seq![a].drop_last() =~= Seq::<char>::empty());
    assert(text_cols(Seq::<char>::empty()) == 0);
    assert(seq![a].last() == a);
}

proof fn lemma_text_cols_two(a: char, b: char)
    ensures
        text_cols(seq![a, b]) == char_cols(a) + char_cols(b),
{
    lemma_text_cols_one(a);
    assert(seq![a, b].drop_last() =~= seq![a]);
}

proof fn lemma_text_cols_three(a: char, b: char, c: char)
    ensures
        text_cols(seq![a, b, c]) == char_cols(a) + char_cols(b) + char_cols(c),
{
    lemma_text_cols_two(a, b);
    assert(seq![a, b, c].drop_last() =~= seq![a, b]);
}

/// The columns of an identity "• " + label + ": " + status.
proof fn lemma_identity_cols(label: Seq<char>, status: Seq<char>)
    requires
        char_cols('•') == 1,
        char_cols(' ') == 1,
        char_cols(':') == 1,
    ensures
        text_cols(seq!['•', ' '] + label + seq![':', ' '] + status) == text_cols(label) + text_cols(
            status,
        ) + 4,
        (seq!['•', ' '] + label + seq![':', ' '] + status).len() > 0,
        char_cols((seq!['•', ' '] + label + seq![':', ' '] + status).last()) > 0 || (status.len() > 0
            && char_cols(status.last()) == 0),
{
    lemma_text_cols_two('•', ' ');
    lemma_text_cols_two(':', ' ');
    lemma_text_cols_concat(seq!['•', ' '], label);
    lemma_text_cols_concat(seq!['•', ' '] + label, seq![':', ' ']);
    lemma_text_cols_concat(seq!['•', ' '] + label + seq![':', ' '], status);
    let full = seq!['•', ' '] + label + seq![':', ' '] + status;
    if status.len() > 0 {
        assert(full.last() == status.last());
    } else {
        assert(full.last() == ' ');
    }
}

/// The focus view shows at most one identity line, and it never takes more
/// columns than the terminal is wide.
pub proof fn lemma_summary_fits_width(tool: Seq<char>, status: Seq<char>, width: u16)
    ensures
        focus_summary(tool, status, width).len() <= 1,
        forall|i: int|
            0 <= i < focus_summary(tool, status, width).len() ==> text_cols(
                line_text(#[trigger] focus_summary(tool, status, width)[i]),
            ) <= width,
{
    let id = identity_text(tool, status, width);
    lemma_cut_len(id, width as nat);
    lemma_single_span_text(summary_text(tool, status, width));
}

/// A call that completed, or a terminal without columns, shows nothing in
/// focus view.
pub proof fn lemma_completed_or_zero_width_hidden(tool: Seq<char>, status: Seq<char>, width: u16)
    ensures
        focus_summary(tool, "completed"@, width).len() == 0,
        focus_summary(tool, status, 0).len() == 0,
{
}

/// Any other call shows exactly one line, and when its whole identity fits
/// it is shown whole: "• ", the tool with its whitespace collapsed, ": ",
/// and the status.
pub proof fn lemma_identity_shown_whole(tool: Seq<char>, status: Seq<char>, width: u16)
    requires
        status != "completed"@,
        width > 0,
        text_cols(collapse_whitespace(tool)) < summary_budget(width, status),
        text_cols(seq!['•', ' '] + collapse_whitespace(tool) + seq![':', ' '] + status) < width,
    ensures
        focus_summary(tool, status, width) == seq![
            seq![(seq!['•', ' '] + collapse_whitespace(tool) + seq![':', ' '] + status, red_style())],
        ],
{
    lemma_cut_keeps_fitting_text(collapse_whitespace(tool), summary_budget(width, status));
    lemma_cut_keeps_fitting_text(identity_text(tool, status, width), width as nat);
}

/// The artifact of a tool call stays visible in focus view: it is the last
/// line shown, after at most the identity line.
pub proof fn lemma_artifact_stays_visible(cell: FocusToolResultCell, width: u16)
    requires
        cell.artifact is Some,
    ensures
        ({
            let shown = focus_summary(cell.tool@, cell.status@, width) + artifact_lines(cell.artifact);
            &&& shown.len() >= 1
            &&& shown.len() <= 2
            &&& shown.last() == cell.artifact->0@
        }),
{
}

/// Switching the focus view on and off leaves the full and raw renderings
/// of a cell as they were: they do not depend on the focus view at all.
pub proof fn lemma_focus_leaves_transcript(cell: FocusToolResultCell, w1: u16, w2: u16)
    ensures
        mode_lines(
            lines_view(cell.full.lines@),
            focus_summary(cell.tool@, cell.status@, w1) + artifact_lines(cell.artifact),
            HistoryRenderMode::Rich,
        ) == mode_lines(
            lines_view(cell.full.lines@),
            focus_summary(cell.tool@, cell.status@, w2) + artifact_lines(cell.artifact),
            HistoryRenderMode::Rich,
        ),
        mode_lines(
            lines_view(cell.full.lines@),
            focus_summary(cell.tool@, cell.status@, w1) + artifact_lines(cell.artifact),
            HistoryRenderMode::Raw,
        ) == lines_view(cell.full.lines@).map_values(|l: LineView| plain_line(l)),
{
}

/// When the whole identity fits the terminal, measured in display columns,
/// it is shown whole: "• ", the tool with its whitespace collapsed, ": ",
/// and the status.  This holds where the tool's and the status's display
/// widths are the sums of their chars' widths (true of any text without the
/// sequences unicode-width treats as ligatures), and where a name or status
/// that uses the last column up ends in a char that takes a column.
pub proof fn lemma_fitting_identity_shown_whole(tool: Seq<char>, status: Seq<char>, width: u16)
    requires
        status != "completed"@,
        width > 0,
        char_cols('•') == 1,
        char_cols(' ') == 1,
        char_cols(':') == 1,
        text_cols(collapse_whitespace(tool)) == unicode_str_width(collapse_whitespace(tool)),
        text_cols(status) == unicode_str_width(status),
        unicode_str_width(collapse_whitespace(tool)) + unicode_str_width(status) + 4 <= width,
        collapse_whitespace(tool).len() == 0 || char_cols(collapse_whitespace(tool).last()) > 0,
        status.len() == 0 || char_cols(status.last()) > 0,
    ensures
        focus_summary(tool, status, width) == seq![
            seq![(seq!['•', ' '] + collapse_whitespace(tool) + seq![':', ' '] + status, red_style())],
        ],
{
    let n = collapse_whitespace(tool);
    lemma_cut_keeps_fitting_text(n, summary_budget(width, status));
    let full = seq!['•', ' '] + n + seq![':', ' '] + status;
    lemma_identity_cols(n, status);
    assert(identity_text(tool, status, width) == full);
    lemma_cut_keeps_fitting_text(full, width as nat);
}

/// When the identity does not fit but the status and the marker do, only
/// the tool is shortened: it is cut to what is left once "• ", "…", ": "
/// and the status are placed, and the status is shown whole.  This holds
/// where the status's display width is the sum of its chars' widths and
/// its last char takes a column.
pub proof fn lemma_long_tool_shortened_status_kept(tool: Seq<char>, status: Seq<char>, width: u16)
    requires
        status != "completed"@,
        char_cols('•') == 1,
        char_cols(' ') == 1,
        char_cols(':') == 1,
        char_cols('…') == 1,
        text_cols(collapse_whitespace(tool)) == unicode_str_width(collapse_whitespace(tool)),
        text_cols(status) == unicode_str_width(status),
        unicode_str_width(collapse_whitespace(tool)) + unicode_str_width(status) + 4 > width,
        width >= unicode_str_width(status) + 5,
        status.len() == 0 || char_cols(status.last()) > 0,
    ensures
        focus_summary(tool, status, width) == seq![
            seq![
                (seq!['•', ' '] + cut_text(
                    collapse_whitespace(tool),
                    (width - unicode_str_width(status) - 5) as nat,
                ) + seq!['…', ':', ' '] + status, red_style()),
            ],
        ],
{
    let n = collapse_whitespace(tool);
    let budget = summary_budget(width, status);
    assert(budget == width - unicode_str_width(status) - 4);
    lemma_cut_len(n, budget);
    if cut_len(n, budget) == n.len() {
        assert(n.take(n.len() as int) =~= n);
        assert(false);
    }
    let shorter = cut_text(n, (budget - 1) as nat);
    lemma_cut_len(n, (budget - 1) as nat);
    let label = shorter + seq!['…'];
    assert(tool_label(tool, budget) == label);
    lemma_text_cols_one('…');
    lemma_text_cols_concat(shorter, seq!['…']);
    lemma_identity_cols(label, status);
    let full = seq!['•', ' '] + label + seq![':', ' '] + status;
    assert(identity_text(tool, status, width) == full);
    lemma_cut_keeps_fitting_text(full, width as nat);
    assert(full =~= seq!['•', ' '] + shorter + seq!['…', ':', ' '] + status);
}

/// The identity line is never wider than the terminal in display columns
/// where its display width is the sum of its chars' widths.  (A tool name
/// with an emoji presentation sequence such as "☺\u{FE0F}" is one column
/// wider on screen than its chars, and can exceed the width.)
pub proof fn lemma_summary_display_width(tool: Seq<char>, status: Seq<char>, width: u16)
    requires
        unicode_str_width(summary_text(tool, status, width)) == text_cols(
            summary_text(tool, status, width),
        ),
    ensures
        forall|i: int|
            0 <= i < focus_summary(tool, status, width).len() ==> unicode_str_width(
                line_text(#[trigger] focus_summary(tool, status, width)[i]),
            ) <= width,
{
    lemma_summary_fits_width(tool, status, width);
    lemma_single_span_text(summary_text(tool, status, width));
}

/// Each render mode shows what it is for, whatever the cell holds: the
/// rich view is the full transcript with its styles, the focus view is
/// exactly the focus lines (nothing else, even when they are empty), and
/// the raw view is the transcript line for line with every style reset.
pub proof fn lemma_render_modes(full: Seq<LineView>, focus: Seq<LineView>)
    ensures
        mode_lines(full, focus, HistoryRenderMode::Rich) == full,
        mode_lines(full, focus, HistoryRenderMode::Focus) == focus,
        mode_lines(full, focus, HistoryRenderMode::Raw).len() == full.len(),
        forall|i: int|
            0 <= i < full.len() ==> line_text(
                #[trigger] mode_lines(full, focus, HistoryRenderMode::Raw)[i],
            ) == line_text(full[i]),
        forall|i: int, j: int|
            0 <= i < full.len() && 0 <= j < full[i].len() ==> (#[trigger] mode_lines(
                full,
                focus,
                HistoryRenderMode::Raw,
            )[i][j]).1 == plain_style(),
{
    assert forall|i: int| 0 <= i < full.len() implies line_text(
        #[trigger] mode_lines(full, focus, HistoryRenderMode::Raw)[i],
    ) == line_text(full[i]) by {
        lemma_plain_line_text(full[i]);
    }
}

proof fn lemma_plain_line_text(l: LineView)
    ensures
        line_text(plain_line(l)) == line_text(l),
    decreases l.len(),
{
    if l.len() > 0 {
        assert(plain_line(l).drop_last() =~= plain_line(l.drop_last()));
        lemma_plain_line_text(l.drop_last());
    }
}

/// In focus view a call that completed shows nothing but its artifact: no
/// line of its transcript and no identity line, on a terminal of any width.
/// A completed call without an artifact disappears.
pub proof fn lemma_completed_call_shows_only_artifact(
    full: Seq<LineView>,
    tool: Seq<char>,
    artifact: Option<Line>,
    width: u16,
)
    ensures
        mode_lines(
            full,
            focus_summary(tool, "completed"@, width) + artifact_lines(artifact),
            HistoryRenderMode::Focus,
        ) == artifact_lines(artifact),
        artifact is None ==> mode_lines(
            full,
            focus_summary(tool, "completed"@, width) + artifact_lines(artifact),
            HistoryRenderMode::Focus,
        ).len() == 0,
        mode_lines(
            full,
            focus_summary(tool, "completed"@, width) + artifact_lines(artifact),
            HistoryRenderMode::Rich,
        ) == full,
{
    assert(focus_summary(tool, "completed"@, width) + artifact_lines(artifact) =~= artifact_lines(
        artifact,
    ));
}

} // verus!
