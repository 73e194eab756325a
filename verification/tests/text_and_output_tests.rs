use focus_view::focus_mode::{
    history_render_mode, save_failure_message, toggle_focus_mode, HistoryRenderMode,
};
use focus_view::focus_policy::{
    context, AdditionalContextKind, FOCUS_CONTEXT_KEY, FOCUS_DISABLED_POLICY, FOCUS_ENABLED_POLICY,
};
use focus_view::output::{
    decimal_string, output_lines, split_lines, CommandOutput, OutputLinesParams,
};
use focus_view::styled::{Color, Style};
use focus_view::text::{char_is_whitespace, char_columns, collapse_ws, is_blank, same_text, take_prefix_by_width, to_chars};

fn dim() -> Style {
    Style { fg: Color::Reset, bold: false, dim: true }
}

fn params(limit: usize) -> OutputLinesParams {
    OutputLinesParams { line_limit: limit, only_err: true, include_angle_pipe: true, include_prefix: true }
}

#[test]
fn take_prefix_stops_at_first_char_that_does_not_fit() {
    let (prefix, rest, cols) = take_prefix_by_width("ab分cd", 3);
    assert_eq!((prefix.as_str(), rest, cols), ("ab", "分cd", 2));
    let (prefix, rest, cols) = take_prefix_by_width("ab分cd", 4);
    assert_eq!((prefix.as_str(), rest, cols), ("ab分", "cd", 4));
}

#[test]
fn take_prefix_stops_once_budget_is_used_up() {
    // A zero-width combining mark after the budget is used up stays in the rest.
    let (prefix, rest, cols) = take_prefix_by_width("ab\u{301}c", 2);
    assert_eq!((prefix.as_str(), rest, cols), ("ab", "\u{301}c", 2));
    // Before the budget is used up it is kept.
    let (prefix, rest, cols) = take_prefix_by_width("a\u{301}bc", 2);
    assert_eq!((prefix.as_str(), rest, cols), ("a\u{301}b", "c", 2));
}

#[test]
fn take_prefix_edge_cases() {
    assert_eq!(take_prefix_by_width("abc", 0), (String::new(), "abc", 0));
    assert_eq!(take_prefix_by_width("", 5), (String::new(), "", 0));
    assert_eq!(take_prefix_by_width("abc", 10), ("abc".to_string(), "", 3));
    // Control characters take no columns.
    assert_eq!(take_prefix_by_width("a\u{1b}b", 2), ("a\u{1b}b".to_string(), "", 2));
}

#[test]
fn take_prefix_then_rest_is_the_text() {
    for text in ["", "x", "分析_abc", "a\u{301}\u{301}b", "  \t"] {
        for max in 0..8 {
            let (prefix, rest, cols) = take_prefix_by_width(text, max);
            assert_eq!(format!("{prefix}{rest}"), text);
            assert!(cols <= max);
        }
    }
}

#[test]
fn char_columns_of_ascii_control_and_wide() {
    assert_eq!(char_columns('a'), 1);
    assert_eq!(char_columns('\n'), 0);
    assert_eq!(char_columns('\u{7f}'), 0);
    assert_eq!(char_columns('分'), 2);
    assert_eq!(char_columns('\u{301}'), 0);
}

#[test]
fn collapse_and_blank() {
    assert_eq!(collapse_ws("a  b\t\nc"), "a b c");
    assert_eq!(collapse_ws(""), "");
    assert_eq!(collapse_ws("\u{a0}x\u{2003}y\u{85}"), "x y");
    assert!(is_blank(" \t\r\n\u{3000}"));
    assert!(is_blank(""));
    assert!(!is_blank("  x "));
    assert!(same_text("abc", "abc"));
    assert!(!same_text("abc", "abd"));
    assert!(!same_text("abc", "ab"));
    assert_eq!(to_chars("a分"), vec!['a', '分']);
}

#[test]
fn split_lines_matches_str_lines() {
    for text in ["", "a", "a\n", "a\n\n", "a\r\nb", "\n", "a\rb\r", "x\r\n\r\ny", "\r\n"] {
        let expected: Vec<String> = text.lines().map(str::to_string).collect();
        assert_eq!(split_lines(text), expected, "{text:?}");
    }
}

#[test]
fn decimal_numbers() {
    assert_eq!(decimal_string(0), "0");
    assert_eq!(decimal_string(7), "7");
    assert_eq!(decimal_string(10), "10");
    assert_eq!(decimal_string(90210), "90210");
    assert_eq!(decimal_string(usize::MAX), usize::MAX.to_string());
}

#[test]
fn output_lines_short_output() {
    let output = CommandOutput::new(1, "one\ntwo".into());
    let rendered = output_lines(Some(&output), params(5));
    assert_eq!(rendered.omitted, None);
    let texts: Vec<String> = rendered.lines.iter().map(|l| l.text()).collect();
    assert_eq!(texts, vec!["  └ one".to_string(), "    two".to_string()]);
    for line in &rendered.lines {
        assert!(line.spans.iter().all(|s| s.style == dim()));
    }
}

#[test]
fn output_lines_long_output_keeps_head_and_tail() {
    let text: Vec<String> = (1..=12).map(|i| format!("line {i}")).collect();
    let output = CommandOutput::new(2, text.join("\n"));
    let rendered = output_lines(Some(&output), params(5));
    assert_eq!(rendered.omitted, Some(2));
    let texts: Vec<String> = rendered.lines.iter().map(|l| l.text()).collect();
    assert_eq!(
        texts,
        vec![
            "  └ line 1", "    line 2", "    line 3", "    line 4", "    line 5", "… +2 lines",
            "    line 8", "    line 9", "    line 10", "    line 11", "    line 12",
        ]
    );
    assert_eq!(rendered.lines[5].spans[0].style, Style { fg: Color::Reset, bold: false, dim: false });
}

#[test]
fn output_lines_between_one_and_two_limits_shows_all() {
    let text: Vec<String> = (1..=8).map(|i| format!("{i}")).collect();
    let output = CommandOutput::new(1, text.join("\n"));
    let rendered = output_lines(Some(&output), params(5));
    assert_eq!(rendered.omitted, None);
    assert_eq!(rendered.lines.len(), 8);
}

#[test]
fn output_lines_only_errors_and_no_prefix() {
    let ok = CommandOutput::new(0, "fine".into());
    let rendered = output_lines(Some(&ok), params(5));
    assert!(rendered.lines.is_empty());
    assert!(output_lines(None, params(5)).lines.is_empty());
    let p = OutputLinesParams { line_limit: 1, only_err: false, include_angle_pipe: false, include_prefix: false };
    let rendered = output_lines(Some(&ok), p);
    assert_eq!(rendered.lines.len(), 1);
    assert_eq!(rendered.lines[0].spans.len(), 2);
    assert_eq!(rendered.lines[0].text(), "fine");
    let three = CommandOutput::new(0, "a\nb\nc".into());
    let rendered = output_lines(Some(&three), p);
    let texts: Vec<String> = rendered.lines.iter().map(|l| l.text()).collect();
    assert_eq!(texts, vec!["a", "… +1 lines", "c"]);
    assert_eq!(rendered.lines[2].spans.len(), 1);
}

#[test]
fn focus_context_enables_and_revokes() {
    let on = context(true);
    let off = context(false);
    assert_eq!(on.len(), 1);
    assert_eq!(off.len(), 1);
    assert_eq!(on[0].0, "tui.focus_mode");
    assert_eq!(off[0].0, FOCUS_CONTEXT_KEY);
    assert_eq!(on[0].1.value, FOCUS_ENABLED_POLICY);
    assert_eq!(off[0].1.value, FOCUS_DISABLED_POLICY);
    assert!(off[0].1.value.contains("Focus mode is disabled"));
    assert_eq!(on[0].1.kind, AdditionalContextKind::Application);
    assert_ne!(on[0].1.value, off[0].1.value);
}

#[test]
fn toggle_focus_mode_and_back() {
    let on = toggle_focus_mode(false);
    assert!(on.enabled);
    assert_eq!(on.notice, "Focus view on. Ctrl+T shows transcript details; /raw takes precedence.");
    assert_eq!(on.setting_path, vec!["tui".to_string(), "focus_mode".to_string()]);
    let off = toggle_focus_mode(on.enabled);
    assert!(!off.enabled);
    assert_eq!(off.notice, "Focus view off. Standard chat view restored.");
    assert_eq!(
        save_failure_message("disk full"),
        "Focus view changed for this session, but could not save preference: disk full"
    );
}

#[test]
fn raw_output_takes_precedence_over_focus() {
    assert_eq!(history_render_mode(true, true), HistoryRenderMode::Raw);
    assert_eq!(history_render_mode(true, false), HistoryRenderMode::Raw);
    assert_eq!(history_render_mode(false, true), HistoryRenderMode::Focus);
    assert_eq!(history_render_mode(false, false), HistoryRenderMode::Rich);
}

#[test]
fn white_space_property_matches_std() {
    for u in 0u32..=0x10ffff {
        if let Some(c) = char::from_u32(u) {
            assert_eq!(char_is_whitespace(c), c.is_whitespace(), "U+{u:04X}");
        }
    }
}
