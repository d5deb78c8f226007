//! Command-line options of the launcher.
use vstd::prelude::*;

verus! {

/// The launcher's command-line options.
#[derive(Debug)]
pub struct CliArgs {
    /// Launch directly into Big Picture mode (Console CoverFlow Carousel).
    pub big_picture: bool,
    /// Filter initial platform by name (e.g. "SNES", "PlayStation", "Wine", "Steam").
    pub platform: Option<String>,
    /// Check and install the latest release update from GitHub.
    pub update: bool,
    /// Uninstall TUI Game Station from the system.
    pub uninstall: bool,
    /// Purge configuration and database when uninstalling.
    pub purge: bool,
}

} // verus!
