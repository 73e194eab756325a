# focus_view

The focus view of a terminal chat transcript, verified with Verus.

When the focus view is on, successful tool calls disappear from the
transcript, failed or interrupted ones keep a single red identity line
("• tool: status") cut to the terminal width, saved artifacts stay visible,
and the full transcript of every cell is left as it was.

- `src/text.rs`: display widths (unicode-width), cutting text to a column
  budget, whitespace collapsing.
- `src/styled.rs`: styled spans and lines.
- `src/focus.rs`: the identity line, tool result cells, render modes and the
  laws of the focus view.
- `src/output.rs`: rendering of command output (head, "… +N lines", tail).
- `src/patches.rs`: patch and image-tool cells.
- `src/focus_policy.rs`: the focus-mode instructions sent with each turn.
- `src/focus_mode.rs`: toggling the focus view and the render-mode precedence.
- `app/`: applying a toggle to a session and saving the preference.
