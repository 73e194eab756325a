//! The instructions that tell the model whether focus mode is on for a turn.

use vstd::prelude::*;

verus! {

/// The key under which the focus-mode instructions are sent.
pub const FOCUS_CONTEXT_KEY: &'static str = "tui.focus_mode";

/// Instructions sent while focus mode is on.
pub const FOCUS_ENABLED_POLICY: &'static str = "Focus mode is enabled for this turn. This replaces routine preamble and progress-update preferences: omit announcements, acknowledgments, and commentary that merely describe the next action. For an authorized implementation task, continue using tools until the requested work is completed and verified, or a genuine blocker requires user input; do not end the turn merely to promise the next step. Give one concise final answer with the outcome and any remaining blocker. Still ask necessary blocking questions and preserve approval, safety, and current collaboration-mode requirements, including plan-mode restrictions. Do not announce this policy.";

/// Instructions sent while focus mode is off, revoking the earlier ones.
pub const FOCUS_DISABLED_POLICY: &'static str = "Focus mode is disabled for this turn. The previous Focus-mode communication policy no longer applies. Follow the normal communication instructions and current collaboration mode.";

/// Where an additional context entry comes from.
#[derive(Clone, Copy, Debug, PartialEq, Eq, Structural)]
pub enum AdditionalContextKind {
    /// Set by the application rather than typed by the user.
    Application,
}

/// One entry of additional context sent with a turn.
pub struct AdditionalContextEntry {
    pub value: String,
    pub kind: AdditionalContextKind,
}

/// The instructions for a turn with focus mode on or off.
pub open spec fn focus_policy_text(focus_mode: bool) -> Seq<char> {
    if focus_mode {
        FOCUS_ENABLED_POLICY@
    } else {
        FOCUS_DISABLED_POLICY@
    }
}

/// The additional context of a turn: one entry under "tui.focus_mode",
/// set by the application, holding the instructions for focus mode on or
/// off.
pub fn context(focus_mode: bool) -> (entries: Vec<(String, AdditionalContextEntry)>)
    ensures
        entries@.len() == 1,
        entries@[0].0@ == FOCUS_CONTEXT_KEY@,
        entries@[0].1.value@ == focus_policy_text(focus_mode),
        entries@[0].1.kind == AdditionalContextKind::Application,
{
    let value = if focus_mode {
        FOCUS_ENABLED_POLICY
    } else {
        FOCUS_DISABLED_POLICY
    };
    let entry = AdditionalContextEntry {
        value: String::from_str(value),
        kind: AdditionalContextKind::Application,
    };
    let mut entries: Vec<(String, AdditionalContextEntry)> = Vec::new();
    entries.push((String::from_str(FOCUS_CONTEXT_KEY), entry));
    entries
}

/// Turning focus mode off sends other instructions under the same key, so
/// the model sees the earlier policy revoked rather than merely absent.
pub proof fn lemma_disabling_revokes_policy()
    ensures
        focus_policy_text(true) != focus_policy_text(false),
{
    reveal_strlit("Focus mode is enabled for this turn. This replaces routine preamble and progress-update preferences: omit announcements, acknowledgments, and commentary that merely describe the next action. For an authorized implementation task, continue using tools until the requested work is completed and verified, or a genuine blocker requires user input; do not end the turn merely to promise the next step. Give one concise final answer with the outcome and any remaining blocker. Still ask necessary blocking questions and preserve approval, safety, and current collaboration-mode requirements, including plan-mode restrictions. Do not announce this policy.");
    reveal_strlit("Focus mode is disabled for this turn. The previous Focus-mode communication policy no longer applies. Follow the normal communication instructions and current collaboration mode.");
    assert(FOCUS_ENABLED_POLICY@[14] != FOCUS_DISABLED_POLICY@[14]);
}

} // verus!
