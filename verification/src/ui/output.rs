//! How a status is shown: its sign, its words and the tone of both.
use crate::git::worktree::{icon_of, label_of, WorktreeStatus};
use vstd::prelude::*;

verus! {

/// The tone in which a piece of text is shown.
#[derive(Debug, Clone, Copy, PartialEq, Eq, Structural)]
pub enum Tone {
    Green,
    Blue,
    Yellow,
    Magenta,
    Red,
    Dimmed,
}

/// A piece of text and the tone to show it in.
#[derive(Debug, Clone, PartialEq, Eq)]
pub struct Styled {
    pub text: String,
    pub tone: Tone,
}

/// The tone of a status: green for clean, blue for ahead, yellow for
/// behind, magenta for diverged, red for modified, dimmed for unknown.
pub open spec fn tone_of(status: WorktreeStatus) -> Tone {
    match status {
        WorktreeStatus::Clean => Tone::Green,
        WorktreeStatus::Ahead(_) => Tone::Blue,
        WorktreeStatus::Behind(_) => Tone::Yellow,
        WorktreeStatus::Diverged { .. } => Tone::Magenta,
        WorktreeStatus::Modified => Tone::Red,
        WorktreeStatus::Unknown => Tone::Dimmed,
    }
}

/// The tone of a status.
pub fn status_tone(status: &WorktreeStatus) -> (t: Tone)
    ensures
        t == tone_of(*status),
{
    match status {
        WorktreeStatus::Clean => Tone::Green,
        WorktreeStatus::Ahead(_) => Tone::Blue,
        WorktreeStatus::Behind(_) => Tone::Yellow,
        WorktreeStatus::Diverged { .. } => Tone::Magenta,
        WorktreeStatus::Modified => Tone::Red,
        WorktreeStatus::Unknown => Tone::Dimmed,
    }
}

/// The sign of a status, in the tone of the status.
pub fn status_icon(status: &WorktreeStatus) -> (s: Styled)
    ensures
        s.text@ == icon_of(*status),
        s.tone == tone_of(*status),
{
    Styled { text: status.icon().to_owned(), tone: status_tone(status) }
}

/// The words of a status, in the tone of the status.
pub fn status_label(status: &WorktreeStatus) -> (s: Styled)
    ensures
        s.text@ == label_of(*status),
        s.tone == tone_of(*status),
{
    Styled { text: status.label(), tone: status_tone(status) }
}

} // verus!
