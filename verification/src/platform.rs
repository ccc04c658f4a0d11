//! The platform the app runs on and what differs by it: whether the
//! focused application's name can be read, and what closing the Hub
//! window does.

use vstd::prelude::*;

use crate::text::opt_view;

verus! {

/// The platform the app runs on, for the places where wording or choices
/// differ by platform.
#[derive(Debug, Clone, Copy, PartialEq, Eq, Structural)]
pub enum Platform {
    MacOs,
    Windows,
    Linux,
}

/// The focused application's name, as the platform reports it. Only macOS
/// reports one (`reported`, read from the workspace); elsewhere there is
/// none.
pub fn frontmost_app_name(platform: Platform, reported: Option<String>) -> (name: Option<String>)
    ensures
        opt_view(name) == (if platform is MacOs {
            opt_view(reported)
        } else {
            None
        }),
{
    match platform {
        Platform::MacOs => reported,
        _ => None,
    }
}

/// What closing the Hub window does: hide it to the tray where the
/// platform has one (macOS, Windows), so the tray's Quit is the only exit;
/// quit the app where there is no tray to bring it back from.
pub fn close_hides_to_tray(platform: Platform) -> (hide: bool)
    ensures
        hide == !(platform is Linux),
{
    match platform {
        Platform::Linux => false,
        _ => true,
    }
}

} // verus!
