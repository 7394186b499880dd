//! The prototype's window configuration: the values the window is opened
//! with.  Opening it is the surrounding program's job; the library only
//! states what they are.

use vstd::prelude::*;

verus! {

/// How frames are presented to the display.
#[derive(Clone, Copy, Debug, PartialEq, Eq, Structural)]
pub enum PresentMode {
    Immediate,
    Mailbox,
    Fifo,
}

/// The window's screen mode.
#[derive(Clone, Copy, Debug, PartialEq, Eq, Structural)]
pub enum WindowMode {
    Windowed,
    SizedFullscreen,
    Fullscreen,
}

/// The window setup of the prototype.
pub struct WindowPlugin;

impl WindowPlugin {
    /// The window title.
    pub fn title() -> (t: &'static str)
        ensures
            t@ == "Unistone"@,
    {
        "Unistone"
    }

    /// Frames are presented through the mailbox queue.
    pub fn present_mode() -> (m: PresentMode)
        ensures
            m == PresentMode::Mailbox,
    {
        PresentMode::Mailbox
    }

    /// The window fills the screen at its own size.
    pub fn mode() -> (m: WindowMode)
        ensures
            m == WindowMode::SizedFullscreen,
    {
        WindowMode::SizedFullscreen
    }
}

} // verus!
