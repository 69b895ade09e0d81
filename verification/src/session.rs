//! The session actions of the bar, each one a command for the compositor.
use vstd::prelude::*;

verus! {

/// The session actions: each gives the compositor command that performs it.
pub struct Session;

impl Session {
    /// Locks the screen.
    pub fn lock() -> (cmd: &'static str)
        ensures
            cmd@ == "exec hyprlock"@,
    {
        "exec hyprlock"
    }

    /// Restarts the machine.
    pub fn reboot() -> (cmd: &'static str)
        ensures
            cmd@ == "exec systemctl reboot"@,
    {
        "exec systemctl reboot"
    }

    /// Powers the machine off.
    pub fn shutdown() -> (cmd: &'static str)
        ensures
            cmd@ == "exec systemctl poweroff"@,
    {
        "exec systemctl poweroff"
    }

    /// Ends the session.
    pub fn logout() -> (cmd: &'static str)
        ensures
            cmd@ == "exit"@,
    {
        "exit"
    }

    /// Switches to the next wallpaper and theme.
    pub fn change_theme() -> (cmd: &'static str)
        ensures
            cmd@ == "exec ~/.config/hypr/wallpaper-change.sh"@,
    {
        "exec ~/.config/hypr/wallpaper-change.sh"
    }
}

} // verus!
