//! Portable fallbacks for the native desktop integration. On platforms
//! without a native status bar, color panel or window vibrancy these
//! answers are final; a platform layer with real integrations replaces
//! them outside the core.

use vstd::prelude::*;

verus! {

/// Why a vibrancy operation could not be carried out.
#[derive(Clone, Copy, Debug, PartialEq, Eq, Structural)]
pub enum VibrancyError {
    Unavailable,
}

/// No notification center is available; showing a saved-file notice is a
/// no-op.
pub fn show_saved_notification(path: &str) {
    let _ = path;
}

/// Window vibrancy needs a native compositor integration; none is
/// available here.
pub fn supports_vibrancy() -> (r: bool)
    ensures
        r == false,
{
    false
}

/// Installing the (absent) vibrancy layer succeeds vacuously.
pub fn install_vibrancy() -> (r: Result<(), VibrancyError>)
    ensures
        r is Ok,
{
    Ok(())
}

/// Refreshing the (absent) vibrancy layer succeeds vacuously.
pub fn update_vibrancy() -> (r: Result<(), VibrancyError>)
    ensures
        r is Ok,
{
    Ok(())
}

/// Removing the (absent) vibrancy layer is a no-op.
pub fn remove_vibrancy() {
}

/// There is no native color panel, so it never reports a picked color.
pub fn poll_native_color_panel_color() -> (r: Option<[u8; 4]>)
    ensures
        r is None,
{
    None
}

/// Closing the (absent) native color panel is a no-op.
pub fn close_native_color_panel() {
}

/// No pasteboard change counter exists outside the native clipboard; the
/// watcher falls back to reading the clipboard content itself.
pub fn clipboard_change_count() -> (r: Option<i64>)
    ensures
        r is None,
{
    None
}

/// There is no dock to show or hide an icon in.
pub fn set_dock_icon_visible(visible: bool) {
    let _ = visible;
}

} // verus!
