use focus_view::focus::{focus_tool_summary, FocusToolResultCell, PlainHistoryCell};
use focus_view::focus_mode::HistoryRenderMode;
use focus_view::patches::{
    image_generation_cell, new_image_generation_call, new_patch_apply_failure, new_patch_event,
    new_view_image_tool_call, FileChange,
};
use focus_view::styled::{Color, Line, Span, Style};
use unicode_width::UnicodeWidthStr;

fn texts(lines: &[Line]) -> Vec<String> {
    lines.iter().map(|l| l.text()).collect()
}

fn joined(lines: &[Line]) -> String {
    texts(lines).join("\n")
}

fn red() -> Style {
    Style { fg: Color::Red, bold: false, dim: false }
}

#[test]
fn focus_unicode_identity_is_bounded_on_narrow_terminals() {
    let mut snapshots = Vec::new();
    for width in [80u16, 24, 12, 0] {
        let lines = focus_tool_summary("workspace.分析_arquivo_muito_longo", "failed", width);
        assert!(lines
            .iter()
            .all(|line| line.text().as_str().width() <= usize::from(width)));
        snapshots.push(format!("{width}: {}", joined(&lines)));
    }
    assert_eq!(
        snapshots,
        vec![
            "80: • workspace.分析_arquivo_muito_longo: failed".to_string(),
            "24: • workspace.分…: failed".to_string(),
            "12: • w…: failed".to_string(),
            "0: ".to_string(),
        ]
    );
}

#[test]
fn focus_image_artifact_remains_accessible() {
    let cell = new_image_generation_call(
        "fixture-image".into(),
        "completed",
        Some("DETAILED_IMAGE_PROMPT".into()),
        Some("/tmp/generated-image.png".into()),
    );
    let focused = joined(&cell.display_lines_for_mode(80, HistoryRenderMode::Focus));
    assert!(focused.contains("Saved to:"));
    assert!(focused.contains("generated-image.png"));
    assert_eq!(focused.lines().count(), 1);
    assert!(!focused.contains("DETAILED_IMAGE_PROMPT"));
    assert!(texts(&cell.display_lines(80))
        .iter()
        .any(|line| line.contains("DETAILED_IMAGE_PROMPT")));
    assert_eq!(focused, "  └ Saved to: file:///tmp/generated-image.png");
}

#[test]
fn focus_hides_patch_and_background_interactions_but_retains_details() {
    let patch = new_patch_event(
        vec![(
            "/tmp/fixture.rs".to_string(),
            FileChange::Add { content: "fixture".into() },
        )],
        "/tmp",
    );
    let shown = vec![Line { spans: vec![Span { content: "• Added /tmp/fixture.rs (+1 -0)".into(), style: Style { fg: Color::Reset, bold: false, dim: false } }] }];
    assert!(!shown.is_empty());
    assert!(patch.focus_hyperlink_lines(shown).is_empty());
    assert_eq!(patch.cwd(), "/tmp");
    assert_eq!(patch.changes().len(), 1);
    let failure = new_patch_apply_failure("Permission denied".into());
    let before = failure.display_lines(80);
    let raw = failure.raw_lines();
    assert!(!before.is_empty());
    assert!(!failure.focus_hyperlink_lines(80).is_empty());
    assert_eq!(failure.display_lines(80), before);
    assert_eq!(failure.raw_lines(), raw);
    assert_eq!(texts(&failure.focus_hyperlink_lines(80)), vec!["• apply_patch: failed".to_string()]);
    assert_eq!(
        texts(&failure.display_lines(80)),
        vec!["✘ Failed to apply patch".to_string(), "  └ Permission denied".to_string()]
    );
}

#[test]
fn summary_hidden_for_completed_and_zero_width() {
    assert!(focus_tool_summary("exec_command", "completed", 80).is_empty());
    assert!(focus_tool_summary("exec_command", "failed", 0).is_empty());
    let lines = focus_tool_summary("exec_command", "interrupted", 80);
    assert_eq!(texts(&lines), vec!["• exec_command: interrupted".to_string()]);
    assert_eq!(lines[0].spans.len(), 1);
    assert_eq!(lines[0].spans[0].style, red());
}

#[test]
fn summary_collapses_whitespace_in_tool_name() {
    let lines = focus_tool_summary("  fixture \t\n inspect\u{3000}now  ", "failed", 80);
    assert_eq!(texts(&lines), vec!["• fixture inspect now: failed".to_string()]);
    let lines = focus_tool_summary(" \t ", "failed", 80);
    assert_eq!(texts(&lines), vec!["• : failed".to_string()]);
}

#[test]
fn summary_status_width_uses_display_columns() {
    // The status "失败" takes four columns, leaving 20 - 8 = 12 for the tool.
    let lines = focus_tool_summary("abcdefghijklmnop", "失败", 20);
    assert_eq!(texts(&lines), vec!["• abcdefghijk…: 失败".to_string()]);
    // With a one-column status the tool gets 20 - 5 = 15 columns.
    let lines = focus_tool_summary("abcdefghijklmnop", "x", 20);
    assert_eq!(texts(&lines), vec!["• abcdefghijklmn…: x".to_string()]);
}

#[test]
fn summary_whole_identity_is_cut_to_width() {
    // The status alone is wider than the terminal.
    let lines = focus_tool_summary("tool", "a-very-long-status", 10);
    assert_eq!(texts(&lines), vec!["• …: a-ver".to_string()]);
    // A wide char that does not fit in the last column is left out.
    let lines = focus_tool_summary("t", "状态状态", 8);
    assert_eq!(texts(&lines), vec!["• …: 状".to_string()]);
    for line in &lines {
        assert!(line.text().as_str().width() <= 8);
    }
}

#[test]
fn summary_exact_fit_is_not_shortened() {
    // Budget 10 - (6 + 4) = 0: the tool is cut to nothing and marked.
    let lines = focus_tool_summary("abc", "failed", 10);
    assert_eq!(texts(&lines), vec!["• …: faile".to_string()]);
    // Budget 13 - 10 = 3: "abc" fits exactly and is kept whole.
    let lines = focus_tool_summary("abc", "failed", 13);
    assert_eq!(texts(&lines), vec!["• abc: failed".to_string()]);
}

#[test]
fn tool_result_cell_focus_keeps_identity_then_artifact() {
    let artifact = Line { spans: vec![Span { content: "  └ out.png".into(), style: Style { fg: Color::Reset, bold: false, dim: true } }] };
    let artifact_copy = Line { spans: vec![Span { content: "  └ out.png".into(), style: Style { fg: Color::Reset, bold: false, dim: true } }] };
    let cell = FocusToolResultCell {
        full: PlainHistoryCell {
            lines: vec![Line { spans: vec![Span { content: "full".into(), style: Style { fg: Color::Red, bold: true, dim: false } }] }],
        },
        tool: "image_generation".into(),
        status: "failed".into(),
        artifact: Some(artifact),
    };
    let focus = cell.focus_hyperlink_lines(80);
    assert_eq!(texts(&focus), vec!["• image_generation: failed".to_string(), "  └ out.png".to_string()]);
    assert_eq!(focus[1], artifact_copy);
    // The transcript is untouched by the focus view.
    assert_eq!(texts(&cell.display_lines_for_mode(80, HistoryRenderMode::Rich)), vec!["full".to_string()]);
    let raw = cell.display_lines_for_mode(80, HistoryRenderMode::Raw);
    assert_eq!(raw[0].spans[0].style, Style { fg: Color::Reset, bold: false, dim: false });
    assert_eq!(cell.display_lines(80)[0].spans[0].style, Style { fg: Color::Red, bold: true, dim: false });
}

#[test]
fn view_image_keeps_path_in_focus() {
    let cell = new_view_image_tool_call("images/cat.png");
    assert_eq!(texts(&cell.display_lines(80)), vec!["• Viewed Image".to_string(), "  └ images/cat.png".to_string()]);
    assert_eq!(texts(&cell.focus_hyperlink_lines(80)), vec!["  └ images/cat.png".to_string()]);
    assert_eq!(cell.tool, "view_image");
    assert_eq!(cell.status, "completed");
}

#[test]
fn image_generation_failure_and_locations() {
    let cell = new_image_generation_call("call-1".into(), "failed", None, None);
    assert_eq!(
        texts(&cell.display_lines(80)),
        vec!["✗ Image generation failed".to_string(), "  └ call-1".to_string()]
    );
    assert_eq!(cell.display_lines(80)[0].spans[0].style, Style { fg: Color::Red, bold: true, dim: false });
    assert_eq!(texts(&cell.focus_hyperlink_lines(80)), vec!["• image_generation: failed".to_string()]);
    assert_eq!(cell.status, "failed");

    let cell = new_image_generation_call("call-2".into(), "generating", Some("a cat".into()), Some("/tmp/a b.png".into()));
    assert_eq!(
        texts(&cell.display_lines(80)),
        vec![
            "• Generated Image:".to_string(),
            "  └ a cat".to_string(),
            "  └ Saved to: file:///tmp/a%20b.png".to_string(),
        ]
    );
    assert_eq!(cell.status, "completed");

    // A relative path has no file URL and is shown as it is.
    let cell = new_image_generation_call("call-3".into(), "completed", None, Some("out/x.png".into()));
    assert_eq!(texts(&cell.focus_hyperlink_lines(80)), vec!["  └ Saved to: out/x.png".to_string()]);

    let cell = image_generation_cell("call-4".into(), "completed", None, Some("somewhere".into()));
    assert_eq!(texts(&cell.focus_hyperlink_lines(80)), vec!["  └ Saved to: somewhere".to_string()]);
}
