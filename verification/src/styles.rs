//! Window, class, and control style bits, by their native numeric values.

use vstd::prelude::*;

verus! {

/// The window is a child of another window.
pub const WS_CHILD: u32 = 0x4000_0000;

/// The window is initially visible.
pub const WS_VISIBLE: u32 = 0x1000_0000;

/// The window takes part in tab-key navigation.
pub const WS_TABSTOP: u32 = 0x0001_0000;

/// The window starts a keyboard-navigation group.
pub const WS_GROUP: u32 = 0x0002_0000;

/// The window has a title bar.
pub const WS_CAPTION: u32 = 0x00C0_0000;

/// The window has a system menu on its title bar.
pub const WS_SYSMENU: u32 = 0x0008_0000;

/// Drawing excludes the area covered by child windows.
pub const WS_CLIPCHILDREN: u32 = 0x0200_0000;

/// The window has a thin border.
pub const WS_BORDER: u32 = 0x0080_0000;

/// The window has a sizing border.
pub const WS_SIZEBOX: u32 = 0x0004_0000;

/// The window has a maximize button.
pub const WS_MAXIMIZEBOX: u32 = 0x0001_0000;

/// The window has a minimize button.
pub const WS_MINIMIZEBOX: u32 = 0x0002_0000;

/// Extended style: left-aligned, the default.
pub const WS_EX_LEFT: u32 = 0x0000_0000;

/// Extended style: the double border of a modal dialog frame.
pub const WS_EX_DLGMODALFRAME: u32 = 0x0001;

/// Class style: the window receives double-click messages.
pub const CS_DBLCLKS: u32 = 0x0008;

/// Button style: a radio button that checks itself on click.
pub const BS_AUTORADIOBUTTON: u32 = 0x0009;

/// Date-time picker style: long date format.
pub const DTS_LONGDATEFORMAT: u32 = 0x0004;

/// Month calendar style: none.
pub const MCS_NONE: u32 = 0x0000;

/// Status bar style: a sizing grip at the right end of the bar.
pub const SBARS_SIZEGRIP: u32 = 0x0100;

/// Status bar style: the bar shows tooltips.
pub const SBARS_TOOLTIPS: u32 = 0x0800;

/// Show-window command: show the window in its current size and position.
pub const SW_SHOW: u32 = 5;

/// System color index: the face color of buttons and dialogs.  The brush
/// for a system color is the pseudo-handle one above the index.
pub const COLOR_BTNFACE: u32 = 15;

/// Whether `style` has every bit of `flag` set.
pub open spec fn has_style(style: u32, flag: u32) -> bool {
    style & flag == flag
}

/// Tests whether `style` has every bit of `flag` set.
pub fn style_has(style: u32, flag: u32) -> (r: bool)
    ensures
        r == has_style(style, flag),
{
    style & flag == flag
}

} // verus!
