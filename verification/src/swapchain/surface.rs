//! From the handles of a window to the kind of surface that shows on it.

use vstd::pervasive::unreached;
use vstd::prelude::*;

verus! {

/// The handle of a window, by windowing system. Pointers are held as
/// addresses.
#[derive(Clone, Copy, Debug, PartialEq, Eq, Structural)]
pub enum WindowHandle {
    /// A window of the Android NDK.
    AndroidNdk { a_native_window: usize },
    /// A view of UIKit.
    UiKit { ui_view: usize },
    /// A view of AppKit.
    AppKit { ns_view: usize },
    /// A surface of Wayland.
    Wayland { surface: usize },
    /// A window of Win32, with the instance of its module.
    Win32 { hinstance: usize, hwnd: usize },
    /// A window of an XCB connection.
    Xcb { window: u32 },
    /// A window of an Xlib display.
    Xlib { window: u64 },
    /// A canvas of a web page.
    Web,
    /// A window of another system.
    Other,
}

/// The handle of the display that a window is on, by windowing system.
#[derive(Clone, Copy, Debug, PartialEq, Eq, Structural)]
pub enum DisplayHandle {
    /// A display of Wayland.
    Wayland { display: usize },
    /// A connection of XCB.
    Xcb { connection: usize },
    /// A display of Xlib.
    Xlib { display: usize },
    /// A display of another system.
    Other,
}

/// What a surface is created from.
#[derive(Clone, Copy, Debug, PartialEq, Eq, Structural)]
pub enum SurfaceSource {
    /// A window of Android.
    Android { window: usize },
    /// The layer of a view of iOS.
    Ios { view: usize },
    /// The layer of a view of macOS.
    MacOs { view: usize },
    /// A surface of a display of Wayland.
    Wayland { display: usize, surface: usize },
    /// A window of Win32.
    Win32 { hinstance: usize, hwnd: usize },
    /// A window of a connection of XCB.
    Xcb { connection: usize, window: u32 },
    /// A window of a display of Xlib.
    Xlib { display: usize, window: u64 },
}

/// What the surface of a window is created from, where a surface can be
/// created for it: the window's system must be one of the seven known ones,
/// and a window of Wayland, XCB or Xlib must come with the display of the
/// same system.
pub open spec fn surface_source_spec(window: WindowHandle, display: DisplayHandle) -> Option<
    SurfaceSource,
> {
    match window {
        WindowHandle::AndroidNdk { a_native_window } => Some(
            SurfaceSource::Android { window: a_native_window },
        ),
        WindowHandle::UiKit { ui_view } => Some(SurfaceSource::Ios { view: ui_view }),
        WindowHandle::AppKit { ns_view } => Some(SurfaceSource::MacOs { view: ns_view }),
        WindowHandle::Wayland { surface } => match display {
            DisplayHandle::Wayland { display } => Some(SurfaceSource::Wayland { display, surface }),
            _ => None,
        },
        WindowHandle::Win32 { hinstance, hwnd } => Some(SurfaceSource::Win32 { hinstance, hwnd }),
        WindowHandle::Xcb { window } => match display {
            DisplayHandle::Xcb { connection } => Some(SurfaceSource::Xcb { connection, window }),
            _ => None,
        },
        WindowHandle::Xlib { window } => match display {
            DisplayHandle::Xlib { display } => Some(SurfaceSource::Xlib { display, window }),
            _ => None,
        },
        WindowHandle::Web => None,
        WindowHandle::Other => None,
    }
}

/// Whether a surface can be created for the window on the display.
pub fn has_surface_source(window: WindowHandle, display: DisplayHandle) -> (r: bool)
    ensures
        r == surface_source_spec(window, display) is Some,
{
    match window {
        WindowHandle::AndroidNdk { .. }
        | WindowHandle::UiKit { .. }
        | WindowHandle::AppKit { .. }
        | WindowHandle::Win32 { .. } => true,
        WindowHandle::Wayland { .. } => match display {
            DisplayHandle::Wayland { .. } => true,
            _ => false,
        },
        WindowHandle::Xcb { .. } => match display {
            DisplayHandle::Xcb { .. } => true,
            _ => false,
        },
        WindowHandle::Xlib { .. } => match display {
            DisplayHandle::Xlib { .. } => true,
            _ => false,
        },
        WindowHandle::Web | WindowHandle::Other => false,
    }
}

/// Says what the surface of a window is created from.
pub fn create_surface_from_handle(window: WindowHandle, display: DisplayHandle) -> (source:
    SurfaceSource)
    requires
        surface_source_spec(window, display) is Some,
    ensures
        Some(source) == surface_source_spec(window, display),
{
    match window {
        WindowHandle::AndroidNdk { a_native_window } => SurfaceSource::Android {
            window: a_native_window,
        },
        WindowHandle::UiKit { ui_view } => SurfaceSource::Ios { view: ui_view },
        WindowHandle::AppKit { ns_view } => SurfaceSource::MacOs { view: ns_view },
        WindowHandle::Wayland { surface } => match display {
            DisplayHandle::Wayland { display } => SurfaceSource::Wayland { display, surface },
            _ => unreached(),
        },
        WindowHandle::Win32 { hinstance, hwnd } => SurfaceSource::Win32 { hinstance, hwnd },
        WindowHandle::Xcb { window } => match display {
            DisplayHandle::Xcb { connection } => SurfaceSource::Xcb { connection, window },
            _ => unreached(),
        },
        WindowHandle::Xlib { window } => match display {
            DisplayHandle::Xlib { display } => SurfaceSource::Xlib { display, window },
            _ => unreached(),
        },
        WindowHandle::Web | WindowHandle::Other => unreached(),
    }
}

} // verus!
