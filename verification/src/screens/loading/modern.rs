//! The text of the loading screen.

use crate::text::join3;
use vstd::prelude::*;
use vstd::string::*;

verus! {

/// The number of frames of the progress indicator.
pub const SPINNER_FRAMES: usize = 8;

/// The frame of the progress indicator in phase `phase`.
pub open spec fn spinner_frame(phase: int) -> Seq<char> {
    if phase == 0 {
        "⠁"@
    } else if phase == 1 {
        "⠂"@
    } else if phase == 2 {
        "⠄"@
    } else if phase == 3 {
        "⡀"@
    } else if phase == 4 {
        "⢀"@
    } else if phase == 5 {
        "⠠"@
    } else if phase == 6 {
        "⠐"@
    } else {
        "⠈"@
    }
}

/// The text of the loading screen after `spinner_state` ticks: an empty
/// line, then the frame for this tick, two spaces and the message.
pub open spec fn loading_text(message: Seq<char>, spinner_state: usize) -> Seq<char> {
    "\n"@ + spinner_frame(spinner_state as int % 8) + "  "@ + message
}

/// The frame shown after `spinner_state` ticks. The frames come round
/// every eight ticks.
pub fn spinner(spinner_state: usize) -> (r: &'static str)
    ensures
        r@ == spinner_frame(spinner_state as int % 8),
{
    let phase: usize = spinner_state % SPINNER_FRAMES;
    if phase == 0 {
        "⠁"
    } else if phase == 1 {
        "⠂"
    } else if phase == 2 {
        "⠄"
    } else if phase == 3 {
        "⡀"
    } else if phase == 4 {
        "⢀"
    } else if phase == 5 {
        "⠠"
    } else if phase == 6 {
        "⠐"
    } else {
        "⠈"
    }
}

/// The text that the loading screen shows.
pub fn render_modern(message: &str, spinner_state: usize) -> (r: String)
    ensures
        r@ == loading_text(message@, spinner_state),
{
    let mut text = join3("\n", spinner(spinner_state), "  ");
    text.append(message);
    text
}

} // verus!
