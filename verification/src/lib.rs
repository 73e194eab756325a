//! Focus view of a chat transcript: which parts of each history cell stay
//! on screen when the focus view is on, and how the short identity line of
//! a failed tool call is cut to the terminal width.

pub mod text;
pub mod styled;
pub mod focus;
pub mod output;
pub mod patches;
pub mod focus_policy;
pub mod focus_mode;
