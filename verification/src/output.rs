//! Rendering of command output in a transcript: the output is split into
//! lines, long output keeps its first and last lines around a "… +N lines"
//! marker, and every output line is dimmed.

use vstd::prelude::*;
use crate::styled::{
    dim_style, lemma_line_text_one, lemma_line_text_two, line_text, lines_view, plain_style, Line,
    LineView, Span, Style,
};
use crate::text::push_char;

verus! {

// ---------------------------------------------------------------------------
// Lines of a text
// ---------------------------------------------------------------------------

/// A line without the '\r' of a "\r\n" ending.
pub open spec fn strip_cr(l: Seq<char>) -> Seq<char> {
    if l.len() > 0 && l.last() == '\r' {
        l.drop_last()
    } else {
        l
    }
}

/// The chars after the last '\n'.
pub open spec fn open_line(s: Seq<char>) -> Seq<char>
    decreases s.len(),
{
    if s.len() == 0 {
        Seq::empty()
    } else if s.last() == '\n' {
        Seq::empty()
    } else {
        open_line(s.drop_last()).push(s.last())
    }
}

/// The lines that a '\n' ends, each without its line ending.
pub open spec fn closed_lines(s: Seq<char>) -> Seq<Seq<char>>
    decreases s.len(),
{
    if s.len() == 0 {
        Seq::empty()
    } else if s.last() == '\n' {
        closed_lines(s.drop_last()).push(strip_cr(open_line(s.drop_last())))
    } else {
        closed_lines(s.drop_last())
    }
}

/// The lines of a text as `str::lines` yields them: split at '\n', a '\r'
/// just before a '\n' dropped, and no empty line after a final '\n'.
pub open spec fn text_lines(s: Seq<char>) -> Seq<Seq<char>> {
    if open_line(s).len() > 0 {
        closed_lines(s).push(open_line(s))
    } else {
        closed_lines(s)
    }
}

pub open spec fn strings_view(v: Seq<String>) -> Seq<Seq<char>> {
    v.map_values(|s: String| s@)
}

/// A string holding the first `n` of the given chars.
fn string_of(chars: &Vec<char>, n: usize) -> (s: String)
    requires
        n <= chars.len(),
    ensures
        s@ == chars@.take(n as int),
{
    let mut s = String::new();
    let mut i: usize = 0;
    while i < n
        invariant
            i <= n,
            n <= chars.len(),
            s@ == chars@.take(i as int),
        decreases n - i,
    {
        push_char(&mut s, chars[i]);
        proof {
            assert(chars@.take(i + 1) =~= chars@.take(i as int).push(chars@[i as int]));
        }
        i = i + 1;
    }
    s
}

/// The lines of `text`, as `str::lines` yields them.
pub fn split_lines(text: &str) -> (lines: Vec<String>)
    ensures
        strings_view(lines@) == text_lines(text@),
{
    let chars = crate::text::to_chars(text);
    let mut done: Vec<String> = Vec::new();
    let mut cur: Vec<char> = Vec::new();
    let mut i: usize = 0;
    proof {
        assert(text@.take(0) =~= Seq::<char>::empty());
        assert(strings_view(done@) =~= Seq::<Seq<char>>::empty());
    }
    while i < chars.len()
        invariant
            chars@ == text@,
            i <= chars.len(),
            strings_view(done@) == closed_lines(text@.take(i as int)),
            cur@ == open_line(text@.take(i as int)),
        decreases chars.len() - i,
    {
        let c = chars[i];
        let ghost pre = text@.take(i as int);
        let ghost post = text@.take(i + 1);
        proof {
            assert(post.drop_last() =~= pre);
            assert(post.last() == c);
        }
        if c == '\n' {
            let n = cur.len();
            let keep = if n > 0 && cur[n - 1] == '\r' {
                n - 1
            } else {
                n
            };
            let line = string_of(&cur, keep);
            proof {
                assert(line@ =~= strip_cr(open_line(pre)));
            }
            let ghost before = done@;
            done.push(line);
            proof {
                assert(strings_view(done@) =~= strings_view(before).push(line@));
            }
            cur = Vec::new();
            proof {
                assert(cur@ =~= open_line(post));
            }
        } else {
            cur.push(c);
        }
        i = i + 1;
    }
    proof {
        assert(text@.take(chars.len() as int) =~= text@);
    }
    if cur.len() > 0 {
        let n = cur.len();
        let last = string_of(&cur, n);
        let ghost before = done@;
        done.push(last);
        proof {
            assert(cur@.take(n as int) =~= cur@);
            assert(strings_view(done@) =~= strings_view(before).push(last@));
        }
    }
    done
}

// ---------------------------------------------------------------------------
// Decimal numbers
// ---------------------------------------------------------------------------

pub open spec fn digit_char(d: nat) -> char {
    if d == 0 {
        '0'
    } else if d == 1 {
        '1'
    } else if d == 2 {
        '2'
    } else if d == 3 {
        '3'
    } else if d == 4 {
        '4'
    } else if d == 5 {
        '5'
    } else if d == 6 {
        '6'
    } else if d == 7 {
        '7'
    } else if d == 8 {
        '8'
    } else {
        '9'
    }
}

/// The decimal digits of `n`, most significant first, without leading zeros.
pub open spec fn decimal(n: nat) -> Seq<char>
    decreases n,
{
    if n < 10 {
        seq![digit_char(n)]
    } else {
        decimal(n / 10).push(digit_char(n % 10))
    }
}

fn digit(d: usize) -> (c: char)
    requires
        d < 10,
    ensures
        c == digit_char(d as nat),
{
    if d == 0 {
        '0'
    } else if d == 1 {
        '1'
    } else if d == 2 {
        '2'
    } else if d == 3 {
        '3'
    } else if d == 4 {
        '4'
    } else if d == 5 {
        '5'
    } else if d == 6 {
        '6'
    } else if d == 7 {
        '7'
    } else if d == 8 {
        '8'
    } else {
        '9'
    }
}

/// `n` written in decimal, as `format!("{n}")` writes it.
pub fn decimal_string(n: usize) -> (s: String)
    ensures
        s@ == decimal(n as nat),
    decreases n,
{
    if n < 10 {
        let mut s = String::new();
        push_char(&mut s, digit(n));
        proof {
            assert(s@ =~= seq![digit_char(n as nat)]);
        }
        s
    } else {
        let mut s = decimal_string(n / 10);
        push_char(&mut s, digit(n % 10));
        s
    }
}

// ---------------------------------------------------------------------------
// Command output
// ---------------------------------------------------------------------------

/// The output of a finished command.
pub struct CommandOutput {
    pub exit_code: i32,
    pub aggregated_output: String,
}

impl CommandOutput {
    pub fn new(exit_code: i32, aggregated_output: String) -> (o: CommandOutput)
        ensures
            o.exit_code == exit_code,
            o.aggregated_output == aggregated_output,
    {
        CommandOutput { exit_code, aggregated_output }
    }
}

/// How command output is rendered.
#[derive(Clone, Copy)]
pub struct OutputLinesParams {
    /// How many lines are kept at the head and at the tail.
    pub line_limit: usize,
    /// Render nothing for a command that exited with code 0.
    pub only_err: bool,
    /// Start the first line with "  └ " rather than an indent.
    pub include_angle_pipe: bool,
    /// Indent the output lines.
    pub include_prefix: bool,
}

/// Rendered command output.
pub struct OutputLines {
    pub lines: Vec<Line>,
    /// How many lines the "… +N lines" marker stands for.
    pub omitted: Option<usize>,
}

/// The prefix of the `i`-th head line.
pub open spec fn head_prefix(i: int, p: OutputLinesParams) -> Seq<char> {
    if !p.include_prefix {
        Seq::empty()
    } else if i == 0 && p.include_angle_pipe {
        seq![' ', ' ', '└', ' ']
    } else {
        seq![' ', ' ', ' ', ' ']
    }
}

/// A line of the head: its prefix and the output line, both dimmed.
pub open spec fn head_line(raw: Seq<char>, i: int, p: OutputLinesParams) -> LineView {
    seq![(head_prefix(i, p), dim_style()), (raw, dim_style())]
}

/// A line of the tail: indented if asked, dimmed.
pub open spec fn tail_line(raw: Seq<char>, p: OutputLinesParams) -> LineView {
    if p.include_prefix {
        seq![(seq![' ', ' ', ' ', ' '], dim_style()), (raw, dim_style())]
    } else {
        seq![(raw, dim_style())]
    }
}

/// "… +N lines".
pub open spec fn omitted_text(n: nat) -> Seq<char> {
    seq!['…', ' ', '+'] + decimal(n) + seq![' ', 'l', 'i', 'n', 'e', 's']
}

/// Whether the output is long enough to be shortened.
pub open spec fn is_shortened(total: nat, limit: nat) -> bool {
    total > 2 * limit
}

/// The rendering of output `out` of a command that exited with `exit_code`:
/// the first `line_limit` lines, and when there are more than twice as many
/// lines, a marker for the omitted ones and the last `line_limit` lines;
/// otherwise every remaining line.
pub open spec fn output_view(out: Seq<char>, exit_code: i32, p: OutputLinesParams) -> Seq<LineView> {
    if p.only_err && exit_code == 0 {
        Seq::empty()
    } else {
        let ls = text_lines(out);
        let total = ls.len();
        let limit = p.line_limit as nat;
        let head_end = if total < limit { total } else { limit };
        let short = is_shortened(total, limit);
        let tail_start: nat = if short { (total - limit) as nat } else { head_end };
        let head = Seq::new(head_end, |i: int| head_line(ls[i], i, p));
        let marker = if short {
            seq![seq![(omitted_text((total - 2 * limit) as nat), plain_style())]]
        } else {
            Seq::empty()
        };
        let tail = Seq::new((total - tail_start) as nat, |j: int| tail_line(ls[tail_start + j], p));
        head + marker + tail
    }
}

/// How many lines the marker stands for.
pub open spec fn omitted_count(out: Seq<char>, exit_code: i32, p: OutputLinesParams) -> Option<usize> {
    let total = text_lines(out).len();
    if p.only_err && exit_code == 0 {
        None
    } else if is_shortened(total, p.line_limit as nat) {
        Some((total - 2 * p.line_limit) as usize)
    } else {
        None
    }
}

fn prefixed_line(prefix: &str, raw: &String) -> (l: Line)
    ensures
        l@ == seq![(prefix@, dim_style()), (raw@, dim_style())],
{
    Line::pair(Span::styled(prefix, Style::dim()), Span::from_string(raw.clone(), Style::dim()))
}

/// Renders command output: nothing when only errors are asked for and the
/// command succeeded; otherwise the head of the output, a "… +N lines"
/// marker when more than twice `line_limit` lines were written, and the
/// tail.  Output lines are dimmed and shown as plain text.
pub fn output_lines(output: Option<&CommandOutput>, params: OutputLinesParams) -> (r: OutputLines)
    ensures
        match output {
            Some(o) => {
                &&& lines_view(r.lines@) == output_view(o.aggregated_output@, o.exit_code, params)
                &&& r.omitted == omitted_count(o.aggregated_output@, o.exit_code, params)
            },
            None => r.lines@.len() == 0 && r.omitted is None,
        },
{
    let o = match output {
        Some(o) => o,
        None => {
            return OutputLines { lines: Vec::new(), omitted: None };
        },
    };
    if params.only_err && o.exit_code == 0 {
        let empty: Vec<Line> = Vec::new();
        proof {
            assert(lines_view(empty@) =~= Seq::<LineView>::empty());
        }
        return OutputLines { lines: empty, omitted: None };
    }
    let ls = split_lines(o.aggregated_output.as_str());
    let ghost sv = text_lines(o.aggregated_output@);
    let ghost target = output_view(o.aggregated_output@, o.exit_code, params);
    let total = ls.len();
    let limit = params.line_limit;
    let head_end = if total < limit {
        total
    } else {
        limit
    };
    let short = total > limit && total - limit > limit;
    assert(short == is_shortened(total as nat, limit as nat));
    let mut out: Vec<Line> = Vec::new();
    let mut i: usize = 0;
    while i < head_end
        invariant
            strings_view(ls@) == sv,
            total == ls.len(),
            head_end <= total,
            head_end <= limit,
            i <= head_end,
            lines_view(out@) == Seq::new(i as nat, |k: int| head_line(sv[k], k, params)),
        decreases head_end - i,
    {
        let prefix = if !params.include_prefix {
            ""
        } else if i == 0 && params.include_angle_pipe {
            "  └ "
        } else {
            "    "
        };
        proof {
            reveal_strlit("");
            reveal_strlit("  └ ");
            reveal_strlit("    ");
        }
        let line = prefixed_line(prefix, &ls[i]);
        let ghost before = out@;
        out.push(line);
        proof {
            assert(prefix@ =~= head_prefix(i as int, params));
            assert(ls@[i as int]@ == sv[i as int]);
            assert(line@ == head_line(sv[i as int], i as int, params));
            assert(lines_view(out@) =~= lines_view(before).push(line@));
            assert(lines_view(out@) =~= Seq::new((i + 1) as nat, |k: int| head_line(sv[k], k, params)));
        }
        i = i + 1;
    }
    let ghost head_part = lines_view(out@);
    let mut omitted: Option<usize> = None;
    if short {
        let n = total - limit - limit;
        let mut text = String::from_str("… +");
        text.append(decimal_string(n).as_str());
        text.append(" lines");
        proof {
            reveal_strlit("… +");
            reveal_strlit(" lines");
            assert(text@ =~= omitted_text(n as nat));
        }
        let ghost before = out@;
        out.push(Line::single(Span::from_string(text, Style::plain())));
        proof {
            assert(lines_view(out@) =~= lines_view(before).push(seq![(omitted_text(n as nat), plain_style())]));
        }
        omitted = Some(n);
    }
    let ghost with_marker = lines_view(out@);
    let tail_start = if short {
        total - limit
    } else {
        head_end
    };
    let mut j: usize = tail_start;
    while j < total
        invariant
            strings_view(ls@) == sv,
            total == ls.len(),
            tail_start <= j <= total,
            lines_view(out@) == with_marker + Seq::new((j - tail_start) as nat, |k: int| tail_line(sv[tail_start + k], params)),
        decreases total - j,
    {
        proof {
            reveal_strlit("    ");
            assert("    "@ =~= seq![' ', ' ', ' ', ' ']);
            assert(ls@[j as int]@ == sv[j as int]);
        }
        let line = if params.include_prefix {
            let l = prefixed_line("    ", &ls[j]);
            assert(l@ =~= tail_line(sv[j as int], params));
            l
        } else {
            let l = Line::single(Span::from_string(ls[j].clone(), Style::dim()));
            assert(l@ =~= tail_line(sv[j as int], params));
            l
        };
        let ghost before = out@;
        out.push(line);
        proof {
            assert(line@ =~= tail_line(sv[j as int], params));
            assert(lines_view(out@) =~= lines_view(before).push(line@));
            assert(lines_view(out@) =~= with_marker + Seq::new((j + 1 - tail_start) as nat, |k: int| tail_line(sv[tail_start + k], params)));
        }
        j = j + 1;
    }
    proof {
        assert(lines_view(out@) =~= target);
    }
    OutputLines { lines: out, omitted }
}

// ---------------------------------------------------------------------------
// Laws of rendered output
// ---------------------------------------------------------------------------

/// The indent of the `k`-th rendered output line: none without prefixes,
/// "  └ " on the first line when the angle pipe is asked for, four spaces
/// otherwise.
pub open spec fn indent_of(k: int, p: OutputLinesParams) -> Seq<char> {
    if !p.include_prefix {
        Seq::empty()
    } else if k == 0 && p.include_angle_pipe {
        seq![' ', ' ', '└', ' ']
    } else {
        seq![' ', ' ', ' ', ' ']
    }
}

proof fn lemma_head_text(raw: Seq<char>, k: int, p: OutputLinesParams)
    ensures
        line_text(head_line(raw, k, p)) == indent_of(k, p) + raw,
{
    lemma_line_text_two((head_prefix(k, p), dim_style()), (raw, dim_style()));
}

proof fn lemma_tail_text(raw: Seq<char>, p: OutputLinesParams)
    ensures
        line_text(tail_line(raw, p)) == indent_of(1, p) + raw,
{
    if p.include_prefix {
        lemma_line_text_two((seq![' ', ' ', ' ', ' '], dim_style()), (raw, dim_style()));
    } else {
        lemma_line_text_one((raw, dim_style()));
        assert(indent_of(1, p) + raw =~= raw);
    }
}

/// A successful command renders nothing when only errors are asked for.
pub proof fn lemma_success_hidden_when_only_errors(out: Seq<char>, p: OutputLinesParams)
    requires
        p.only_err,
    ensures
        output_view(out, 0, p).len() == 0,
{
}

/// Output of at most twice `line_limit` lines is shown whole: one rendered
/// line per output line, in order, each being its indent followed by the
/// output line, and no marker.
pub proof fn lemma_short_output_shown_whole(out: Seq<char>, exit_code: i32, p: OutputLinesParams)
    requires
        !(p.only_err && exit_code == 0),
        text_lines(out).len() <= 2 * p.line_limit,
    ensures
        output_view(out, exit_code, p).len() == text_lines(out).len(),
        forall|k: int|
            0 <= k < text_lines(out).len() ==> line_text(#[trigger] output_view(out, exit_code, p)[k])
                == indent_of(k, p) + text_lines(out)[k],
        forall|k: int, j: int|
            0 <= k < text_lines(out).len() && 0 <= j < output_view(out, exit_code, p)[k].len() ==> (
            #[trigger] output_view(out, exit_code, p)[k][j]).1 == dim_style(),
{
    let ls = text_lines(out);
    let total = ls.len();
    let limit = p.line_limit as nat;
    let head_end = if total < limit { total } else { limit };
    let v = output_view(out, exit_code, p);
    assert(!is_shortened(total, limit));
    let head = Seq::new(head_end, |i: int| head_line(ls[i], i, p));
    let tail = Seq::new((total - head_end) as nat, |j: int| tail_line(ls[head_end + j], p));
    assert(v =~= head + tail);
    assert forall|k: int| 0 <= k < total implies line_text(#[trigger] v[k]) == indent_of(k, p)
        + ls[k] by {
        if k < head_end {
            assert(v[k] == head_line(ls[k], k, p));
            lemma_head_text(ls[k], k, p);
        } else {
            assert(v[k] == tail_line(ls[head_end + (k - head_end)], p));
            assert(head_end + (k - head_end) == k);
            lemma_tail_text(ls[k], p);
            assert(k != 0);
        }
    }
    assert forall|k: int, j: int| 0 <= k < total && 0 <= j < v[k].len() implies (#[trigger] v[k][j]).1
        == dim_style() by {
        if k < head_end {
            assert(v[k] == head_line(ls[k], k, p));
        } else {
            assert(v[k] == tail_line(ls[head_end + (k - head_end)], p));
        }
    }
}

/// No line of a text holds a '\n', and a non-empty text without one is a
/// single line.
pub proof fn lemma_text_lines_split_at_newlines(s: Seq<char>)
    ensures
        forall|k: int, i: int|
            0 <= k < text_lines(s).len() && 0 <= i < text_lines(s)[k].len() ==> #[trigger] text_lines(
                s,
            )[k][i] != '\n',
        (forall|i: int| 0 <= i < s.len() ==> s[i] != '\n') ==> text_lines(s) == (if s.len() == 0 {
            Seq::<Seq<char>>::empty()
        } else {
            seq![s]
        }),
{
    lemma_lines_no_newline(s);
    if forall|i: int| 0 <= i < s.len() ==> s[i] != '\n' {
        lemma_open_line_without_newline(s);
    }
}

proof fn lemma_open_line_without_newline(s: Seq<char>)
    requires
        forall|i: int| 0 <= i < s.len() ==> s[i] != '\n',
    ensures
        open_line(s) == s,
        closed_lines(s).len() == 0,
    decreases s.len(),
{
    if s.len() > 0 {
        assert(s.last() == s[s.len() - 1]);
        lemma_open_line_without_newline(s.drop_last());
        assert(open_line(s) =~= s);
    }
}

proof fn lemma_lines_no_newline(s: Seq<char>)
    ensures
        forall|i: int| 0 <= i < open_line(s).len() ==> open_line(s)[i] != '\n',
        forall|k: int, i: int|
            0 <= k < closed_lines(s).len() && 0 <= i < closed_lines(s)[k].len()
                ==> #[trigger] closed_lines(s)[k][i] != '\n',
        forall|k: int, i: int|
            0 <= k < text_lines(s).len() && 0 <= i < text_lines(s)[k].len()
                ==> #[trigger] text_lines(s)[k][i] != '\n',
    decreases s.len(),
{
    if s.len() > 0 {
        let prev = s.drop_last();
        lemma_lines_no_newline(prev);
        if s.last() == '\n' {
            let l = strip_cr(open_line(prev));
            assert forall|i: int| 0 <= i < l.len() implies l[i] != '\n' by {
                assert(l[i] == open_line(prev)[i]);
            }
            assert(closed_lines(s) == closed_lines(prev).push(l));
            assert forall|k: int, i: int|
                0 <= k < closed_lines(s).len() && 0 <= i < closed_lines(s)[k].len()
                    implies #[trigger] closed_lines(s)[k][i] != '\n' by {
                if k < closed_lines(prev).len() {
                    assert(closed_lines(s)[k] == closed_lines(prev)[k]);
                } else {
                    assert(closed_lines(s)[k] == l);
                }
            }
        } else {
            assert(open_line(s) == open_line(prev).push(s.last()));
            assert forall|i: int| 0 <= i < open_line(s).len() implies open_line(s)[i] != '\n' by {
                if i < open_line(prev).len() {
                    assert(open_line(s)[i] == open_line(prev)[i]);
                }
            }
        }
    }
    assert forall|k: int, i: int|
        0 <= k < text_lines(s).len() && 0 <= i < text_lines(s)[k].len()
            implies #[trigger] text_lines(s)[k][i] != '\n' by {
        if k < closed_lines(s).len() {
            assert(text_lines(s)[k] == closed_lines(s)[k]);
        } else {
            assert(text_lines(s)[k] == open_line(s));
        }
    }
}

/// Output of more than twice `line_limit` lines is shown as its first
/// `line_limit` lines, a "… +N lines" marker for the `N` lines left out,
/// and its last `line_limit` lines, in order.
pub proof fn lemma_long_output_head_marker_tail(out: Seq<char>, exit_code: i32, p: OutputLinesParams)
    requires
        !(p.only_err && exit_code == 0),
        text_lines(out).len() > 2 * p.line_limit,
    ensures
        output_view(out, exit_code, p).len() == 2 * p.line_limit + 1,
        forall|k: int|
            0 <= k < p.line_limit ==> line_text(#[trigger] output_view(out, exit_code, p)[k])
                == indent_of(k, p) + text_lines(out)[k],
        line_text(output_view(out, exit_code, p)[p.line_limit as int]) == seq!['…', ' ', '+']
            + decimal((text_lines(out).len() - 2 * p.line_limit) as nat) + seq![
            ' ',
            'l',
            'i',
            'n',
            'e',
            's',
        ],
        forall|k: int|
            0 <= k < p.line_limit ==> line_text(
                #[trigger] output_view(out, exit_code, p)[p.line_limit + 1 + k],
            ) == indent_of(p.line_limit + 1 + k, p) + text_lines(out)[text_lines(out).len()
                - p.line_limit + k],
        forall|k: int, j: int|
            0 <= k < 2 * p.line_limit + 1 && k != p.line_limit && 0 <= j < output_view(
                out,
                exit_code,
                p,
            )[k].len() ==> (#[trigger] output_view(out, exit_code, p)[k][j]).1 == dim_style(),
        output_view(out, exit_code, p)[p.line_limit as int][0].1 == plain_style(),
{
    let ls = text_lines(out);
    let total = ls.len();
    let limit = p.line_limit as nat;
    let v = output_view(out, exit_code, p);
    let head = Seq::new(limit, |i: int| head_line(ls[i], i, p));
    let n = (total - 2 * limit) as nat;
    let marker = seq![seq![(omitted_text(n), plain_style())]];
    let tail_start = (total - limit) as nat;
    let tail = Seq::new((total - tail_start) as nat, |j: int| tail_line(ls[tail_start + j], p));
    assert(v =~= head + marker + tail);
    assert forall|k: int| 0 <= k < limit implies line_text(#[trigger] v[k]) == indent_of(k, p)
        + ls[k] by {
        assert(v[k] == head_line(ls[k], k, p));
        lemma_head_text(ls[k], k, p);
    }
    assert(v[limit as int] == seq![(omitted_text(n), plain_style())]);
    lemma_line_text_one((omitted_text(n), plain_style()));
    assert forall|k: int| 0 <= k < limit implies line_text(#[trigger] v[limit + 1 + k])
        == indent_of(limit + 1 + k, p) + ls[total - limit + k] by {
        assert(v[limit + 1 + k] == tail_line(ls[tail_start + k], p));
        lemma_tail_text(ls[tail_start + k], p);
    }
    assert forall|k: int, j: int| 0 <= k < 2 * limit + 1 && k != limit && 0 <= j < v[k].len() implies (
    #[trigger] v[k][j]).1 == dim_style() by {
        if k < limit {
            assert(v[k] == head_line(ls[k], k, p));
        } else {
            assert(v[k] == tail_line(ls[tail_start + (k - limit - 1)], p));
        }
    }
}

} // verus!
