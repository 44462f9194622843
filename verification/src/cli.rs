use vstd::prelude::*;

use crate::overlay::OverlayResult;

verus! {

/// The command line: one subcommand.
#[derive(Debug)]
pub struct Cli {
    pub command: Command,
}

/// What to do.
#[derive(Debug)]
pub enum Command {
    /// Open the interactive region selection UI.
    Area(CaptureOptions),
    /// Capture a whole output directly.
    Screen(ScreenOptions),
    /// Print the resolved config path.
    ConfigPath,
}

/// Options shared by the capturing subcommands.
#[derive(Debug, Clone)]
pub struct CaptureOptions {
    /// Save to the configured screenshot path after copying to the clipboard.
    pub write_to_disk: bool,
    /// Include the pointer in the initial screenshot.
    pub show_pointer: bool,
    /// Override the output path for this capture (the bytes of the path).
    pub path: Option<Vec<u8>>,
}

/// Options of the `screen` subcommand.
#[derive(Debug, Clone)]
pub struct ScreenOptions {
    pub capture: CaptureOptions,
    /// Capture a specific output by name.
    pub output: Option<String>,
}

impl CaptureOptions {
    /// Whether a region picked in the overlay is saved: only when both the command line
    /// and the way the picker was confirmed ask for it (copy-only never saves).
    pub fn saves_selection(&self, selection: &OverlayResult) -> (r: bool)
        ensures
            r == (self.write_to_disk && selection.write_to_disk),
    {
        self.write_to_disk && selection.write_to_disk
    }
}

} // verus!
