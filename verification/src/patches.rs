//! Patch summaries and image-tool transcript cells, and what the focus view
//! keeps of them.

use vstd::prelude::*;
use crate::focus::{artifact_lines, focus_summary, FocusToolResultCell, PlainHistoryCell};
use crate::output::{
    indent_of, lemma_short_output_shown_whole, output_lines, output_view, text_lines, CommandOutput,
    OutputLinesParams,
};
use crate::styled::{
    bold_style, dim_style, lemma_line_text_one, lemma_line_text_three, lemma_line_text_two,
    line_text, lines_view, magenta_bold_style, plain_style, red_bold_style, Line, LineView, Span,
    Style,
};
use crate::text::{all_white_space, is_blank, same_text};

verus! {

/// How many output lines a tool call keeps at the head and at the tail.
pub const TOOL_CALL_MAX_LINES: usize = 5;

/// A change that a patch makes to one file.
pub enum FileChange {
    Add { content: String },
    Delete { content: String },
    Update { unified_diff: String, move_path: Option<String> },
}

/// The file-level summary of a proposed or applied patch.
pub struct PatchHistoryCell {
    changes: Vec<(String, FileChange)>,
    cwd: String,
    approval_preview: bool,
}

impl PatchHistoryCell {
    pub closed spec fn spec_changes(&self) -> Seq<(String, FileChange)> {
        self.changes@
    }

    pub closed spec fn spec_cwd(&self) -> Seq<char> {
        self.cwd@
    }

    pub closed spec fn spec_approval_preview(&self) -> bool {
        self.approval_preview
    }

    /// Whether the cell previews a patch that awaits approval.
    pub fn is_approval_preview(&self) -> (b: bool)
        ensures
            b == self.spec_approval_preview(),
    {
        self.approval_preview
    }

    /// The changed files, by path.
    pub fn changes(&self) -> (c: &Vec<(String, FileChange)>)
        ensures
            c@ == self.spec_changes(),
    {
        &self.changes
    }

    /// The directory the paths are shown relative to.
    pub fn cwd(&self) -> (c: &str)
        ensures
            c@ == self.spec_cwd(),
    {
        self.cwd.as_str()
    }

    /// What the focus view shows of the patch, given the lines the
    /// transcript shows of it: all of them for a patch awaiting approval,
    /// none otherwise.
    pub fn focus_hyperlink_lines(&self, display_lines: Vec<Line>) -> (r: Vec<Line>)
        ensures
            lines_view(r@) == (if self.spec_approval_preview() {
                lines_view(display_lines@)
            } else {
                Seq::empty()
            }),
    {
        if self.approval_preview {
            display_lines
        } else {
            let empty: Vec<Line> = Vec::new();
            proof {
                assert(lines_view(empty@) =~= Seq::<LineView>::empty());
            }
            empty
        }
    }
}

/// A cell that lists the file-level summary of a patch.
pub fn new_patch_event(changes: Vec<(String, FileChange)>, cwd: &str) -> (cell: PatchHistoryCell)
    ensures
        cell.spec_changes() == changes@,
        cell.spec_cwd() == cwd@,
        !cell.spec_approval_preview(),
{
    PatchHistoryCell { changes, cwd: String::from_str(cwd), approval_preview: false }
}

/// The same summary, for a patch that awaits approval.
pub fn new_patch_approval_preview(changes: Vec<(String, FileChange)>, cwd: &str) -> (cell: PatchHistoryCell)
    ensures
        cell.spec_changes() == changes@,
        cell.spec_cwd() == cwd@,
        cell.spec_approval_preview(),
{
    let event = new_patch_event(changes, cwd);
    PatchHistoryCell { approval_preview: true, ..event }
}

/// How the output of a failed patch is rendered.
pub open spec fn failure_output_params() -> OutputLinesParams {
    OutputLinesParams {
        line_limit: TOOL_CALL_MAX_LINES,
        only_err: true,
        include_angle_pipe: true,
        include_prefix: true,
    }
}

/// "✘ Failed to apply patch", magenta and bold.
pub open spec fn patch_failure_title() -> LineView {
    seq![("✘ Failed to apply patch"@, magenta_bold_style())]
}

/// The transcript of a failed patch: the title, then the error output
/// unless it is blank.
pub open spec fn patch_failure_lines(stderr: Seq<char>) -> Seq<LineView> {
    if all_white_space(stderr) {
        seq![patch_failure_title()]
    } else {
        seq![patch_failure_title()] + output_view(stderr, 1, failure_output_params())
    }
}

/// A cell for a patch that could not be applied; its identity
/// ("apply_patch", "failed") stays visible in focus view.
pub fn new_patch_apply_failure(stderr: String) -> (cell: FocusToolResultCell)
    ensures
        cell.tool@ == "apply_patch"@,
        cell.status@ == "failed"@,
        cell.artifact is None,
        lines_view(cell.full.lines@) == patch_failure_lines(stderr@),
{
    let mut lines: Vec<Line> = Vec::new();
    lines.push(Line::single(Span::styled("✘ Failed to apply patch", Style::magenta_bold())));
    if !is_blank(stderr.as_str()) {
        let ghost before = lines@;
        let params = OutputLinesParams {
            line_limit: TOOL_CALL_MAX_LINES,
            only_err: true,
            include_angle_pipe: true,
            include_prefix: true,
        };
        let output = CommandOutput::new(1, stderr);
        let mut rendered = output_lines(Some(&output), params);
        lines.append(&mut rendered.lines);
        proof {
            assert(lines_view(lines@) =~= lines_view(before) + output_view(output.aggregated_output@, 1, params));
            assert(lines_view(lines@) =~= patch_failure_lines(output.aggregated_output@));
        }
        FocusToolResultCell {
            full: PlainHistoryCell { lines },
            tool: String::from_str("apply_patch"),
            status: String::from_str("failed"),
            artifact: None,
        }
    } else {
        proof {
            assert(lines_view(lines@) =~= patch_failure_lines(stderr@));
        }
        FocusToolResultCell {
            full: PlainHistoryCell { lines },
            tool: String::from_str("apply_patch"),
            status: String::from_str("failed"),
            artifact: None,
        }
    }
}

// ---------------------------------------------------------------------------
// Image tools
// ---------------------------------------------------------------------------

/// "• Viewed Image" then the path, both as the transcript shows them.
pub open spec fn view_image_lines(display_path: Seq<char>) -> Seq<LineView> {
    seq![
        seq![("• "@, dim_style()), ("Viewed Image"@, bold_style())],
        seq![("  └ "@, dim_style()), (display_path, dim_style())],
    ]
}

/// A cell for an image the agent viewed; the path line stays visible in
/// focus view.
pub fn new_view_image_tool_call(display_path: &str) -> (cell: FocusToolResultCell)
    ensures
        cell.tool@ == "view_image"@,
        cell.status@ == "completed"@,
        lines_view(cell.full.lines@) == view_image_lines(display_path@),
        artifact_lines(cell.artifact) == seq![view_image_lines(display_path@)[1]],
{
    let heading = Line::pair(Span::styled("• ", Style::dim()), Span::styled("Viewed Image", Style::bold()));
    let path_line = Line::pair(Span::styled("  └ ", Style::dim()), Span::styled(display_path, Style::dim()));
    let artifact = path_line.copy();
    let mut lines: Vec<Line> = Vec::new();
    lines.push(heading);
    lines.push(path_line);
    proof {
        assert(lines_view(lines@) =~= view_image_lines(display_path@));
    }
    FocusToolResultCell {
        artifact: Some(artifact),
        full: PlainHistoryCell { lines },
        tool: String::from_str("view_image"),
        status: String::from_str("completed"),
    }
}

/// The heading of an image generation: red "✗ " and "Image generation
/// failed" for a failure, "• Generated Image:" otherwise.
pub open spec fn image_heading(failed: bool) -> LineView {
    if failed {
        seq![("✗ "@, red_bold_style()), ("Image generation failed"@, bold_style())]
    } else {
        seq![("• "@, dim_style()), ("Generated Image:"@, bold_style())]
    }
}

/// "  └ Saved to: <location>".
pub open spec fn saved_line(location: Seq<char>) -> LineView {
    seq![("  └ "@, dim_style()), ("Saved to: "@, dim_style()), (location, plain_style())]
}

/// The transcript of an image generation: the heading, the revised prompt
/// (or the call id when there is none), and where the image was saved.
pub open spec fn image_generation_lines(
    call_id: Seq<char>,
    failed: bool,
    revised_prompt: Option<Seq<char>>,
    location: Option<Seq<char>>,
) -> Seq<LineView> {
    let detail = match revised_prompt {
        Some(p) => p,
        None => call_id,
    };
    let base = seq![image_heading(failed), seq![("  └ "@, dim_style()), (detail, dim_style())]];
    match location {
        Some(l) => base.push(saved_line(l)),
        None => base,
    }
}

/// The line an image generation keeps visible in focus view.
pub open spec fn image_artifact(location: Option<Seq<char>>) -> Seq<LineView> {
    match location {
        Some(l) => seq![saved_line(l)],
        None => Seq::empty(),
    }
}

pub open spec fn opt_view(o: Option<String>) -> Option<Seq<char>> {
    match o {
        Some(s) => Some(s@),
        None => None,
    }
}

/// The cell of an image generation, given where the image was saved as it
/// is to be shown.  A failure keeps its identity in focus view; a saved
/// image keeps its location line there.
pub fn image_generation_cell(
    call_id: String,
    status: &str,
    revised_prompt: Option<String>,
    saved_location: Option<String>,
) -> (cell: FocusToolResultCell)
    ensures
        cell.tool@ == "image_generation"@,
        cell.status@ == (if status@ == "failed"@ { "failed"@ } else { "completed"@ }),
        lines_view(cell.full.lines@) == image_generation_lines(
            call_id@,
            status@ == "failed"@,
            opt_view(revised_prompt),
            opt_view(saved_location),
        ),
        artifact_lines(cell.artifact) == image_artifact(opt_view(saved_location)),
{
    let failed = same_text(status, "failed");
    let ghost prompt_view = opt_view(revised_prompt);
    let ghost call_view = call_id@;
    let detail = match revised_prompt {
        Some(p) => p,
        None => call_id,
    };
    let heading = if failed {
        Line::pair(Span::styled("✗ ", Style::red_bold()), Span::styled("Image generation failed", Style::bold()))
    } else {
        Line::pair(Span::styled("• ", Style::dim()), Span::styled("Generated Image:", Style::bold()))
    };
    let detail_line = Line::pair(Span::styled("  └ ", Style::dim()), Span::from_string(detail, Style::dim()));
    let mut lines: Vec<Line> = Vec::new();
    lines.push(heading);
    lines.push(detail_line);
    let ghost loc_view = opt_view(saved_location);
    let artifact = match saved_location {
        Some(location) => {
            let line = Line::triple(
                Span::styled("  └ ", Style::dim()),
                Span::styled("Saved to: ", Style::dim()),
                Span::from_string(location, Style::plain()),
            );
            let copy = line.copy();
            lines.push(line);
            Some(copy)
        },
        None => None,
    };
    proof {
        assert(lines_view(lines@) =~= image_generation_lines(call_view, failed, prompt_view, loc_view));
        assert(artifact_lines(artifact) =~= image_artifact(loc_view));
    }
    let status_text = if failed {
        String::from_str("failed")
    } else {
        String::from_str("completed")
    };
    FocusToolResultCell {
        artifact,
        full: PlainHistoryCell { lines },
        tool: String::from_str("image_generation"),
        status: status_text,
    }
}

/// A char that URLs never percent-encode: ASCII letters, digits and
/// `-`, `.`, `_`, `~`.
pub open spec fn is_url_unreserved(c: char) -> bool {
    ||| 'a' <= c <= 'z'
    ||| 'A' <= c <= 'Z'
    ||| '0' <= c <= '9'
    ||| c == '-'
    ||| c == '.'
    ||| c == '_'
    ||| c == '~'
}

/// A path of the form "/seg/seg/...": at least one segment, each segment
/// non-empty and made of URL-unreserved chars, no "." or ".." segment, and
/// no trailing '/'.
pub open spec fn is_plain_absolute_path(p: Seq<char>) -> bool {
    &&& p.len() >= 2
    &&& p[0] == '/'
    &&& p.last() != '/'
    &&& forall|i: int| 0 <= i < p.len() ==> (#[trigger] p[i] == '/' || is_url_unreserved(p[i]))
    &&& forall|i: int| 0 <= i < p.len() - 1 && #[trigger] p[i] == '/' ==> p[i + 1] != '/'
    &&& forall|i: int|
        1 <= i < p.len() && p[i - 1] == '/' && #[trigger] p[i] == '.' ==> {
            &&& i + 1 < p.len()
            &&& p[i + 1] != '/'
            &&& !(p[i + 1] == '.' && (i + 2 == p.len() || p[i + 2] == '/'))
        }
}

/// `Url::from_file_path` of the url crate, rendered with `to_string`: the
/// `file:` URL of a path, or `None` when the path is not absolute.  Every
/// URL it returns starts with "file://".  For a plain absolute path the
/// result is either `None` (where the platform does not take such a path as
/// absolute) or "file://" followed by the path: the source joins the path's
/// components with '/' and leaves unreserved chars unencoded.  How other
/// paths are encoded depends on the platform and is not stated.
#[verifier::external_body]
fn file_url(path: &str) -> (url: Option<String>)
    ensures
        url matches Some(u) ==> "file://"@.is_prefix_of(u@),
        is_plain_absolute_path(path@) ==> (url matches Some(u) ==> u@ == "file://"@ + path@),
{
    match url::Url::from_file_path(path) {
        Ok(u) => Some(u.to_string()),
        Err(()) => None,
    }
}

/// Where a saved image is shown: its `file:` URL when the path has one,
/// otherwise the path itself.
pub open spec fn is_shown_location(path: Seq<char>, location: Seq<char>) -> bool {
    location == path || "file://"@.is_prefix_of(location)
}

/// A cell for an image generation call, with the path the image was saved
/// to, if any.
pub fn new_image_generation_call(
    call_id: String,
    status: &str,
    revised_prompt: Option<String>,
    saved_path: Option<String>,
) -> (cell: FocusToolResultCell)
    ensures
        cell.tool@ == "image_generation"@,
        cell.status@ == (if status@ == "failed"@ { "failed"@ } else { "completed"@ }),
        exists|location: Option<Seq<char>>|
            {
                &&& (location is Some <==> saved_path is Some)
                &&& (location matches Some(l) ==> is_shown_location(saved_path->0@, l))
                &&& (location matches Some(l) ==> is_plain_absolute_path(saved_path->0@) ==> (l
                    == saved_path->0@ || l == "file://"@ + saved_path->0@))
                &&& lines_view(cell.full.lines@) == image_generation_lines(
                    call_id@,
                    status@ == "failed"@,
                    opt_view(revised_prompt),
                    location,
                )
                &&& artifact_lines(cell.artifact) == image_artifact(location)
            },
{
    let location = match saved_path {
        Some(path) => match file_url(path.as_str()) {
            Some(u) => Some(u),
            None => Some(path),
        },
        None => None,
    };
    let ghost loc = opt_view(location);
    let cell = image_generation_cell(call_id, status, revised_prompt, location);
    assert(loc is Some <==> saved_path is Some);
    cell
}

// ---------------------------------------------------------------------------
// Laws
// ---------------------------------------------------------------------------

/// A patch that failed to apply keeps its identity line in focus view on
/// any terminal with columns, while its output stays in the transcript.
pub proof fn lemma_patch_failure_visible(width: u16)
    requires
        width > 0,
    ensures
        focus_summary("apply_patch"@, "failed"@, width).len() == 1,
{
    reveal_strlit("failed");
    reveal_strlit("completed");
    assert("failed"@.len() != "completed"@.len());
}

/// A saved image keeps exactly its location line in focus view when the
/// generation completed; the prompt and heading stay in the transcript.
pub proof fn lemma_saved_image_stays_visible(location: Seq<char>, width: u16)
    ensures
        focus_summary("image_generation"@, "completed"@, width) + image_artifact(Some(location))
            == seq![saved_line(location)],
{
    assert(focus_summary("image_generation"@, "completed"@, width) + image_artifact(Some(location))
        =~= seq![saved_line(location)]);
}

/// A failed image generation keeps its identity line in focus view.
pub proof fn lemma_failed_image_visible(width: u16)
    requires
        width > 0,
    ensures
        focus_summary("image_generation"@, "failed"@, width).len() == 1,
{
    reveal_strlit("failed");
    reveal_strlit("completed");
    assert("failed"@.len() != "completed"@.len());
}

/// The transcript of an image generation: a heading that depends only on
/// whether it failed, then "  └ " and the revised prompt when one is given
/// (the call id only when none is), whether or not it failed, then, when
/// the image was saved, "  └ Saved to: " and where.
pub proof fn lemma_image_generation_transcript(
    call_id: Seq<char>,
    failed: bool,
    revised_prompt: Option<Seq<char>>,
    location: Option<Seq<char>>,
)
    ensures
        ({
            let lines = image_generation_lines(call_id, failed, revised_prompt, location);
            &&& lines.len() == (if location is Some { 3int } else { 2int })
            &&& line_text(lines[0]) == (if failed {
                "✗ "@ + "Image generation failed"@
            } else {
                "• "@ + "Generated Image:"@
            })
            &&& line_text(lines[1]) == "  └ "@ + (match revised_prompt {
                Some(p) => p,
                None => call_id,
            })
            &&& (location matches Some(l) ==> line_text(lines[2]) == "  └ "@ + "Saved to: "@ + l)
            &&& lines[0][0].1 == (if failed { red_bold_style() } else { dim_style() })
            &&& lines[1][1].1 == dim_style()
            &&& image_artifact(location) == (if location is Some {
                seq![lines[2]]
            } else {
                Seq::<LineView>::empty()
            })
        }),
{
    let detail = match revised_prompt {
        Some(p) => p,
        None => call_id,
    };
    let lines = image_generation_lines(call_id, failed, revised_prompt, location);
    if failed {
        lemma_line_text_two(("✗ "@, red_bold_style()), ("Image generation failed"@, bold_style()));
    } else {
        lemma_line_text_two(("• "@, dim_style()), ("Generated Image:"@, bold_style()));
    }
    lemma_line_text_two(("  └ "@, dim_style()), (detail, dim_style()));
    match location {
        Some(l) => {
            lemma_line_text_three(("  └ "@, dim_style()), ("Saved to: "@, dim_style()), (l, plain_style()));
        },
        None => {},
    }
}

/// The error of a failed patch is shown whole after the title when it has
/// at most ten lines (twice the number kept at each end): one line per
/// error line, in order, the first after "  └ " and the others indented by
/// four spaces.
pub proof fn lemma_short_patch_error_shown_whole(stderr: Seq<char>)
    requires
        !all_white_space(stderr),
        text_lines(stderr).len() <= 10,
    ensures
        patch_failure_lines(stderr).len() == 1 + text_lines(stderr).len(),
        line_text(patch_failure_lines(stderr)[0]) == "✘ Failed to apply patch"@,
        forall|k: int|
            0 <= k < text_lines(stderr).len() ==> line_text(
                #[trigger] patch_failure_lines(stderr)[k + 1],
            ) == (if k == 0 {
                seq![' ', ' ', '└', ' ']
            } else {
                seq![' ', ' ', ' ', ' ']
            }) + text_lines(stderr)[k],
{
    let p = failure_output_params();
    assert(p.line_limit == 5);
    lemma_short_output_shown_whole(stderr, 1, p);
    lemma_line_text_one(("✘ Failed to apply patch"@, magenta_bold_style()));
    let v = output_view(stderr, 1, p);
    assert(patch_failure_lines(stderr) =~= seq![patch_failure_title()] + v);
    assert forall|k: int| 0 <= k < text_lines(stderr).len() implies line_text(
        #[trigger] patch_failure_lines(stderr)[k + 1],
    ) == (if k == 0 {
        seq![' ', ' ', '└', ' ']
    } else {
        seq![' ', ' ', ' ', ' ']
    }) + text_lines(stderr)[k] by {
        assert(patch_failure_lines(stderr)[k + 1] == v[k]);
        assert(indent_of(k, p) == (if k == 0 {
            seq![' ', ' ', '└', ' ']
        } else {
            seq![' ', ' ', ' ', ' ']
        }));
    }
}

/// The transcript of a viewed image is "• Viewed Image" then "  └ " and
/// the path, and its focus view keeps exactly the path line.
pub proof fn lemma_view_image_transcript(display_path: Seq<char>, width: u16)
    ensures
        view_image_lines(display_path).len() == 2,
        line_text(view_image_lines(display_path)[0]) == "• "@ + "Viewed Image"@,
        line_text(view_image_lines(display_path)[1]) == "  └ "@ + display_path,
        focus_summary("view_image"@, "completed"@, width) + seq![view_image_lines(display_path)[1]]
            == seq![view_image_lines(display_path)[1]],
{
    lemma_line_text_two(("• "@, dim_style()), ("Viewed Image"@, bold_style()));
    lemma_line_text_two(("  └ "@, dim_style()), (display_path, dim_style()));
    assert(focus_summary("view_image"@, "completed"@, width) + seq![view_image_lines(display_path)[1]]
        =~= seq![view_image_lines(display_path)[1]]);
}

} // verus!
