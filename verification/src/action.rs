//! The closed set of intents that the input layer can hand to the core.

use vstd::prelude::*;

verus! {

/// Which shell's quoting rules to use when a command line is copied.
#[derive(Debug, Clone, Copy, PartialEq, Eq, Structural)]
pub enum SupportedShell {
    Bash,
    Sh,
    Fish,
}

/// What part of the selected event should be copied to the clipboard.
#[derive(Debug, Clone, Copy, PartialEq, Eq, Structural)]
pub enum CopyTarget {
    Commandline(SupportedShell),
    Env,
    Argv,
    Filename,
}

/// Which popup, if any, is shown above the event list. A detail view refers
/// to its event by index into the append-only event log, so the popup stays
/// valid while the log grows.
#[derive(Debug, Clone, Copy, PartialEq, Eq, Structural)]
pub enum ActivePopup {
    Help,
    ViewDetails(usize),
    CopyTargetSelection,
}

/// An intent produced by the input layer. Navigation intents are resolved by
/// the windowed event list; the rest are interpreted by the surrounding
/// application.
#[derive(Debug, Clone, Copy, PartialEq, Eq, Structural)]
pub enum Action {
    // Application
    Quit,
    // Rendering
    Render,
    // Resize
    Resize { width: u16, height: u16 },
    // Navigation
    NextItem,
    PrevItem,
    PageDown,
    PageUp,
    PageLeft,
    PageRight,
    ScrollLeft,
    ScrollRight,
    ScrollToTop,
    ScrollToBottom,
    ScrollToStart,
    ScrollToEnd,
    ToggleFollow,
    StopFollow,
    // Sizing
    ShrinkPane,
    GrowPane,
    // Layout
    SwitchLayout,
    // Pane
    SwitchActivePane,
    // Popup
    SetActivePopup(ActivePopup),
    // Clipboard
    CopyToClipboard(CopyTarget),
}

} // verus!
