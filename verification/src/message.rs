//! Message numbers and the typed events that cross into the application.
use vstd::prelude::*;

verus! {

/// The empty message, which the platform never assigns to a registered name.
pub const WM_NULL: u32 = 0x0000;

/// Sent while a window is being created.
pub const WM_CREATE: u32 = 0x0001;

/// Sent when a window is being destroyed.
pub const WM_DESTROY: u32 = 0x0002;

/// First number of the band that is left to an application's private messages.
pub const WM_USER: u32 = 0x0400;

/// The bootstrap message: delivered once the window exists, it asks the bridge
/// to register the dynamic message.
pub const WM_USER_CREATE: u32 = WM_USER + 1;

/// The events that the bridge injects into the application's event loop.
#[derive(Debug, Clone, Copy, PartialEq, Eq, Structural)]
pub enum AppEvent {
    /// The shell has created its taskbar anew.
    WindowsTaskbarCreated,
}

/// The bootstrap message sits at a fixed offset in the band of private
/// messages, apart from the platform's own notifications that the bridge
/// looks at.
pub proof fn bootstrap_is_private()
    ensures
        WM_USER_CREATE == 0x0401,
        WM_USER_CREATE > WM_USER,
        WM_USER_CREATE != WM_DESTROY,
        WM_USER_CREATE != WM_CREATE,
        WM_USER_CREATE != WM_NULL,
{
}

} // verus!
