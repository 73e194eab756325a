//! Styled transcript lines: spans of text with a foreground colour and the
//! bold and dim modifiers, as the terminal renders them.

use vstd::prelude::*;

verus! {

/// Foreground colour of a span.
#[derive(Clone, Copy, Debug, PartialEq, Eq, Structural)]
pub enum Color {
    Reset,
    Red,
    Magenta,
}

/// Style of a span.
#[derive(Clone, Copy, Debug, PartialEq, Eq, Structural)]
pub struct Style {
    pub fg: Color,
    pub bold: bool,
    pub dim: bool,
}

pub open spec fn plain_style() -> Style {
    Style { fg: Color::Reset, bold: false, dim: false }
}

pub open spec fn dim_style() -> Style {
    Style { fg: Color::Reset, bold: false, dim: true }
}

pub open spec fn bold_style() -> Style {
    Style { fg: Color::Reset, bold: true, dim: false }
}

pub open spec fn red_style() -> Style {
    Style { fg: Color::Red, bold: false, dim: false }
}

pub open spec fn red_bold_style() -> Style {
    Style { fg: Color::Red, bold: true, dim: false }
}

pub open spec fn magenta_bold_style() -> Style {
    Style { fg: Color::Magenta, bold: true, dim: false }
}

/// The same style with the dim modifier added.
pub open spec fn dimmed(s: Style) -> Style {
    Style { dim: true, ..s }
}

impl Style {
    pub fn plain() -> (s: Style)
        ensures
            s == plain_style(),
    {
        Style { fg: Color::Reset, bold: false, dim: false }
    }

    pub fn dim() -> (s: Style)
        ensures
            s == dim_style(),
    {
        Style { fg: Color::Reset, bold: false, dim: true }
    }

    pub fn bold() -> (s: Style)
        ensures
            s == bold_style(),
    {
        Style { fg: Color::Reset, bold: true, dim: false }
    }

    pub fn red() -> (s: Style)
        ensures
            s == red_style(),
    {
        Style { fg: Color::Red, bold: false, dim: false }
    }

    pub fn red_bold() -> (s: Style)
        ensures
            s == red_bold_style(),
    {
        Style { fg: Color::Red, bold: true, dim: false }
    }

    pub fn magenta_bold() -> (s: Style)
        ensures
            s == magenta_bold_style(),
    {
        Style { fg: Color::Magenta, bold: true, dim: false }
    }

    /// This style with the dim modifier added.
    pub fn add_dim(self) -> (s: Style)
        ensures
            s == dimmed(self),
    {
        Style { fg: self.fg, bold: self.bold, dim: true }
    }
}

/// A span as the model sees it: its text and its style.
pub type SpanView = (Seq<char>, Style);

/// A line as the model sees it: its spans in order.
pub type LineView = Seq<SpanView>;

/// A run of text in one style.
#[derive(Debug, PartialEq, Eq)]
pub struct Span {
    pub content: String,
    pub style: Style,
}

impl View for Span {
    type V = SpanView;

    open spec fn view(&self) -> SpanView {
        (self.content@, self.style)
    }
}

/// One line of a transcript cell.
#[derive(Debug, PartialEq, Eq)]
pub struct Line {
    pub spans: Vec<Span>,
}

impl View for Line {
    type V = LineView;

    open spec fn view(&self) -> LineView {
        self.spans@.map_values(|s: Span| s@)
    }
}

/// The model of a list of lines.
pub open spec fn lines_view(lines: Seq<Line>) -> Seq<LineView> {
    lines.map_values(|l: Line| l@)
}

/// The text of a line, its spans' texts one after the other.
pub open spec fn line_text(line: LineView) -> Seq<char>
    decreases line.len(),
{
    if line.len() == 0 {
        Seq::empty()
    } else {
        line_text(line.drop_last()) + line.last().0
    }
}

/// The same line with every span's style reset.
pub open spec fn plain_line(line: LineView) -> LineView {
    line.map_values(|s: SpanView| (s.0, plain_style()))
}

/// The same line with the dim modifier added to every span.
pub open spec fn dim_line(line: LineView) -> LineView {
    line.map_values(|s: SpanView| (s.0, dimmed(s.1)))
}

impl Span {
    /// A span of `text` in `style`.
    pub fn styled(text: &str, style: Style) -> (s: Span)
        ensures
            s@ == (text@, style),
    {
        Span { content: String::from_str(text), style }
    }

    /// A span that owns `text`, in `style`.
    pub fn from_string(text: String, style: Style) -> (s: Span)
        ensures
            s@ == (text@, style),
    {
        Span { content: text, style }
    }

    pub fn copy(&self) -> (s: Span)
        ensures
            s@ == self@,
    {
        Span { content: self.content.clone(), style: self.style }
    }
}

impl Line {
    /// A line of the given spans.
    pub fn from_spans(spans: Vec<Span>) -> (l: Line)
        ensures
            l@ == spans@.map_values(|s: Span| s@),
    {
        Line { spans }
    }

    /// A line of one span.
    pub fn single(span: Span) -> (l: Line)
        ensures
            l@ == seq![span@],
    {
        let mut spans: Vec<Span> = Vec::new();
        spans.push(span);
        proof {
            assert(spans@.map_values(|s: Span| s@) =~= seq![span@]);
        }
        Line { spans }
    }

    /// A line of two spans.
    pub fn pair(a: Span, b: Span) -> (l: Line)
        ensures
            l@ == seq![a@, b@],
    {
        let mut spans: Vec<Span> = Vec::new();
        spans.push(a);
        spans.push(b);
        proof {
            assert(spans@.map_values(|s: Span| s@) =~= seq![a@, b@]);
        }
        Line { spans }
    }

    /// A line of three spans.
    pub fn triple(a: Span, b: Span, c: Span) -> (l: Line)
        ensures
            l@ == seq![a@, b@, c@],
    {
        let mut spans: Vec<Span> = Vec::new();
        spans.push(a);
        spans.push(b);
        spans.push(c);
        proof {
            assert(spans@.map_values(|s: Span| s@) =~= seq![a@, b@, c@]);
        }
        Line { spans }
    }

    /// A copy of this line.
    pub fn copy(&self) -> (l: Line)
        ensures
            l@ == self@,
    {
        let mut spans: Vec<Span> = Vec::new();
        let mut i: usize = 0;
        while i < self.spans.len()
            invariant
                i <= self.spans.len(),
                spans@.map_values(|s: Span| s@) == self@.take(i as int),
            decreases self.spans.len() - i,
        {
            let ghost before = spans@;
            spans.push(self.spans[i].copy());
            proof {
                assert(spans@.map_values(|s: Span| s@) =~= before.map_values(|s: Span| s@).push(
                    self.spans@[i as int]@,
                ));
                assert(self@.take(i + 1) =~= self@.take(i as int).push(self@[i as int]));
            }
            i = i + 1;
        }
        proof {
            assert(self@.take(self.spans.len() as int) =~= self@);
        }
        Line { spans }
    }

    /// The same line with every span's style reset.
    pub fn to_plain(&self) -> (l: Line)
        ensures
            l@ == plain_line(self@),
    {
        let mut spans: Vec<Span> = Vec::new();
        let mut i: usize = 0;
        while i < self.spans.len()
            invariant
                i <= self.spans.len(),
                spans@.map_values(|s: Span| s@) == plain_line(self@).take(i as int),
            decreases self.spans.len() - i,
        {
            let ghost before = spans@;
            spans.push(Span { content: self.spans[i].content.clone(), style: Style::plain() });
            proof {
                assert(spans@.map_values(|s: Span| s@) =~= before.map_values(|s: Span| s@).push(
                    plain_line(self@)[i as int],
                ));
                assert(plain_line(self@).take(i + 1) =~= plain_line(self@).take(i as int).push(
                    plain_line(self@)[i as int],
                ));
            }
            i = i + 1;
        }
        proof {
            assert(plain_line(self@).take(self.spans.len() as int) =~= plain_line(self@));
        }
        Line { spans }
    }

    /// The same line with the dim modifier added to every span.
    pub fn to_dim(self) -> (l: Line)
        ensures
            l@ == dim_line(self@),
    {
        let mut spans: Vec<Span> = Vec::new();
        let mut i: usize = 0;
        while i < self.spans.len()
            invariant
                i <= self.spans.len(),
                spans@.map_values(|s: Span| s@) == dim_line(self@).take(i as int),
            decreases self.spans.len() - i,
        {
            let ghost before = spans@;
            let st = self.spans[i].style.add_dim();
            spans.push(Span { content: self.spans[i].content.clone(), style: st });
            proof {
                assert(spans@.map_values(|s: Span| s@) =~= before.map_values(|s: Span| s@).push(
                    dim_line(self@)[i as int],
                ));
                assert(dim_line(self@).take(i + 1) =~= dim_line(self@).take(i as int).push(
                    dim_line(self@)[i as int],
                ));
            }
            i = i + 1;
        }
        proof {
            assert(dim_line(self@).take(self.spans.len() as int) =~= dim_line(self@));
        }
        Line { spans }
    }

    /// The text of the line, without styles.
    pub fn text(&self) -> (s: String)
        ensures
            s@ == line_text(self@),
    {
        let mut out = String::new();
        let mut i: usize = 0;
        proof {
            assert(self@.take(0) =~= Seq::<SpanView>::empty());
        }
        while i < self.spans.len()
            invariant
                i <= self.spans.len(),
                out@ == line_text(self@.take(i as int)),
            decreases self.spans.len() - i,
        {
            out.append(self.spans[i].content.as_str());
            proof {
                assert(self@.take(i + 1).drop_last() =~= self@.take(i as int));
            }
            i = i + 1;
        }
        proof {
            assert(self@.take(self.spans.len() as int) =~= self@);
        }
        out
    }
}

/// Copies of the given lines.
pub fn copy_lines(lines: &Vec<Line>) -> (r: Vec<Line>)
    ensures
        lines_view(r@) == lines_view(lines@),
{
    let mut out: Vec<Line> = Vec::new();
    let mut i: usize = 0;
    while i < lines.len()
        invariant
            i <= lines.len(),
            lines_view(out@) == lines_view(lines@).take(i as int),
        decreases lines.len() - i,
    {
        let ghost before = out@;
        out.push(lines[i].copy());
        proof {
            assert(lines_view(out@) =~= lines_view(before).push(lines@[i as int]@));
            assert(lines_view(lines@).take(i + 1) =~= lines_view(lines@).take(i as int).push(
                lines@[i as int]@,
            ));
        }
        i = i + 1;
    }
    proof {
        assert(lines_view(lines@).take(lines.len() as int) =~= lines_view(lines@));
    }
    out
}

/// The given lines with every style reset.
pub fn plain_lines(lines: &Vec<Line>) -> (r: Vec<Line>)
    ensures
        lines_view(r@) == lines_view(lines@).map_values(|l: LineView| plain_line(l)),
{
    let ghost target = lines_view(lines@).map_values(|l: LineView| plain_line(l));
    let mut out: Vec<Line> = Vec::new();
    let mut i: usize = 0;
    while i < lines.len()
        invariant
            i <= lines.len(),
            target == lines_view(lines@).map_values(|l: LineView| plain_line(l)),
            lines_view(out@) == target.take(i as int),
        decreases lines.len() - i,
    {
        let ghost before = out@;
        out.push(lines[i].to_plain());
        proof {
            assert(lines_view(out@) =~= lines_view(before).push(target[i as int]));
            assert(target.take(i + 1) =~= target.take(i as int).push(target[i as int]));
        }
        i = i + 1;
    }
    proof {
        assert(target.take(lines.len() as int) =~= target);
    }
    out
}

/// The text of a one-span line is that span's text.
pub proof fn lemma_line_text_one(a: SpanView)
    ensures
        line_text(seq![a]) == a.0,
{
    assert(seq![a].drop_last() =~= Seq::<SpanView>::empty());
    assert(line_text(Seq::<SpanView>::empty()) =~= Seq::<char>::empty());
    assert(line_text(seq![a]) =~= a.0);
}

/// The text of a two-span line is the two texts one after the other.
pub proof fn lemma_line_text_two(a: SpanView, b: SpanView)
    ensures
        line_text(seq![a, b]) == a.0 + b.0,
{
    lemma_line_text_one(a);
    assert(seq![a, b].drop_last() =~= seq![a]);
}

/// The text of a three-span line is the three texts one after the other.
pub proof fn lemma_line_text_three(a: SpanView, b: SpanView, c: SpanView)
    ensures
        line_text(seq![a, b, c]) == a.0 + b.0 + c.0,
{
    lemma_line_text_two(a, b);
    assert(seq![a, b, c].drop_last() =~= seq![a, b]);
}

} // verus!
