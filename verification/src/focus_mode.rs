//! Turning the focus view on and off.  The change is local and reversible:
//! it decides how cells are rendered and never rewrites stored cells or the
//! conversation history; the preference is saved as `tui.focus_mode`.

use vstd::prelude::*;

verus! {

/// How the transcript renders its cells.
#[derive(Clone, Copy, Debug, PartialEq, Eq, Structural)]
pub enum HistoryRenderMode {
    /// Every cell in full.
    Rich,
    /// Only what each cell keeps for the focus view.
    Focus,
    /// Unstyled text.
    Raw,
}

/// The render mode for the raw-output and focus settings: raw output takes
/// precedence over focus.
pub open spec fn spec_render_mode(raw_output: bool, focus: bool) -> HistoryRenderMode {
    if raw_output {
        HistoryRenderMode::Raw
    } else if focus {
        HistoryRenderMode::Focus
    } else {
        HistoryRenderMode::Rich
    }
}

/// The render mode for the raw-output and focus settings.
pub fn history_render_mode(raw_output: bool, focus: bool) -> (m: HistoryRenderMode)
    ensures
        m == spec_render_mode(raw_output, focus),
{
    if raw_output {
        HistoryRenderMode::Raw
    } else if focus {
        HistoryRenderMode::Focus
    } else {
        HistoryRenderMode::Rich
    }
}

pub open spec fn focus_on_notice() -> Seq<char> {
    "Focus view on. Ctrl+T shows transcript details; /raw takes precedence."@
}

pub open spec fn focus_off_notice() -> Seq<char> {
    "Focus view off. Standard chat view restored."@
}

/// The notice shown when the focus view is turned on or off.
pub open spec fn toggle_notice(enabled: bool) -> Seq<char> {
    if enabled {
        focus_on_notice()
    } else {
        focus_off_notice()
    }
}

pub open spec fn save_failure_prefix() -> Seq<char> {
    "Focus view changed for this session, but could not save preference: "@
}

/// What toggling the focus view decides: the new setting, the notice shown
/// to the user, and where the preference is saved.
pub struct FocusToggle {
    pub enabled: bool,
    pub notice: String,
    pub setting_path: Vec<String>,
}

/// Toggles the focus view: the new setting is the opposite of `current`,
/// the notice says which view is now shown, and the preference is saved
/// under `tui` / `focus_mode`.
pub fn toggle_focus_mode(current: bool) -> (t: FocusToggle)
    ensures
        t.enabled == !current,
        t.notice@ == toggle_notice(t.enabled),
        t.setting_path@.len() == 2,
        t.setting_path@[0]@ == "tui"@,
        t.setting_path@[1]@ == "focus_mode"@,
{
    let enabled = !current;
    let notice = if enabled {
        String::from_str("Focus view on. Ctrl+T shows transcript details; /raw takes precedence.")
    } else {
        String::from_str("Focus view off. Standard chat view restored.")
    };
    let mut setting_path: Vec<String> = Vec::new();
    setting_path.push(String::from_str("tui"));
    setting_path.push(String::from_str("focus_mode"));
    FocusToggle { enabled, notice, setting_path }
}

/// The error shown when the preference could not be saved; the focus view
/// still changed for this session.
pub fn save_failure_message(err: &str) -> (m: String)
    ensures
        m@ == save_failure_prefix() + err@,
{
    let mut m = String::from_str("Focus view changed for this session, but could not save preference: ");
    m.append(err);
    m
}

/// Toggling twice, each time from the setting the previous toggle left,
/// restores the setting and the render mode, and the two toggles show
/// different notices, the second one that of the view restored.
pub proof fn lemma_toggle_twice_restores(
    current: bool,
    raw_output: bool,
    first: FocusToggle,
    second: FocusToggle,
)
    requires
        first.enabled == !current,
        first.notice@ == toggle_notice(first.enabled),
        second.enabled == !first.enabled,
        second.notice@ == toggle_notice(second.enabled),
    ensures
        second.enabled == current,
        spec_render_mode(raw_output, second.enabled) == spec_render_mode(raw_output, current),
        second.notice@ == toggle_notice(current),
        first.notice@ != second.notice@,
{
    reveal_strlit("Focus view on. Ctrl+T shows transcript details; /raw takes precedence.");
    reveal_strlit("Focus view off. Standard chat view restored.");
    assert(focus_on_notice().len() != focus_off_notice().len());
}

/// Raw output takes precedence over focus, and turning it off brings the
/// focus view back.
pub proof fn lemma_raw_takes_precedence(focus: bool)
    ensures
        spec_render_mode(true, focus) == HistoryRenderMode::Raw,
        spec_render_mode(false, true) == HistoryRenderMode::Focus,
        spec_render_mode(false, false) == HistoryRenderMode::Rich,
{
}

} // verus!
