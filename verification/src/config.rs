//! What a host needs to know before it opens a window.

use vstd::prelude::*;

verus! {

/// The size of a window's drawable area, in pixels.
#[derive(Clone, Copy, Debug, PartialEq, Eq, Structural)]
pub struct WindowSize {
    pub width: u32,
    pub height: u32,
}

/// The window settings a host recognises. `None` leaves a setting at
/// whatever the host does by default.
#[derive(Clone, Copy, Debug, PartialEq, Eq, Structural)]
pub struct WindowOptions {
    /// Width and height of the drawable area.
    pub size: Option<WindowSize>,
    /// Whether presenting a frame waits for the display's refresh.
    pub vsync: Option<bool>,
    /// Whether the user may resize the window.
    pub resizable: Option<bool>,
}

impl WindowOptions {
    /// No setting overridden.
    pub open spec fn unset() -> WindowOptions {
        WindowOptions { size: None, vsync: None, resizable: None }
    }

    /// Leaves every setting to the host.
    #[verifier::when_used_as_spec(unset)]
    pub fn host_defaults() -> (options: WindowOptions)
        ensures
            options == WindowOptions::unset(),
    {
        WindowOptions { size: None, vsync: None, resizable: None }
    }
}

/// The configuration handed to a host when it is started.
#[derive(Debug)]
pub struct HostConfig {
    /// The name of the application.
    pub title: String,
    /// Who publishes it. Hosts use this together with the title to name the
    /// window and to find per-user directories.
    pub organization: String,
    /// Window settings.
    pub window: WindowOptions,
}

impl HostConfig {
    /// The configuration of the animation: the title "Blocks Game", the
    /// organization "ex", and a window left at the host's defaults.
    pub fn blocks_game() -> (config: HostConfig)
        ensures
            config.title@ == "Blocks Game"@,
            config.organization@ == "ex"@,
            config.window == WindowOptions::unset(),
    {
        HostConfig {
            title: "Blocks Game".to_owned(),
            organization: "ex".to_owned(),
            window: WindowOptions::host_defaults(),
        }
    }
}

} // verus!
