//! The fixed configuration the bar is launched with: one small, undecorated,
//! always-on-top window, and the application settings around it.

use vstd::prelude::*;

verus! {

/// Window options that only take effect on macOS: they strip the title bar
/// down so that the bare field fills the window.
#[derive(Debug, Clone, Copy, PartialEq, Eq, Structural)]
pub struct PlatformWindowConfig {
    pub title_hidden: bool,
    pub titlebar_transparent: bool,
    pub fullsize_content_view: bool,
}

/// On macOS every title-bar concession is taken; elsewhere none applies.
pub open spec fn spec_platform_window_config(macos: bool) -> PlatformWindowConfig {
    PlatformWindowConfig {
        title_hidden: macos,
        titlebar_transparent: macos,
        fullsize_content_view: macos,
    }
}

/// The platform-specific window options for the host named by `macos`.
pub fn platform_window_config(macos: bool) -> (r: PlatformWindowConfig)
    ensures
        r == spec_platform_window_config(macos),
{
    if macos {
        PlatformWindowConfig {
            title_hidden: true,
            titlebar_transparent: true,
            fullsize_content_view: true,
        }
    } else {
        PlatformWindowConfig {
            title_hidden: false,
            titlebar_transparent: false,
            fullsize_content_view: false,
        }
    }
}

/// The shape and behaviour of the one window, in logical pixels.
#[derive(Debug, Clone, Copy, PartialEq, Eq, Structural)]
pub struct WindowConfig {
    pub width: u32,
    pub height: u32,
    pub visible: bool,
    pub resizable: bool,
    pub decorations: bool,
    pub transparent: bool,
    pub always_on_top: bool,
    pub close_button: bool,
    pub minimize_button: bool,
    pub maximize_button: bool,
    pub platform: PlatformWindowConfig,
}

/// A wide, shallow strip: visible but fixed in size, transparent, kept above
/// every other window, with all window buttons removed.
pub open spec fn spec_window_config(macos: bool) -> WindowConfig {
    WindowConfig {
        width: 800,
        height: 50,
        visible: true,
        resizable: false,
        decorations: true,
        transparent: true,
        always_on_top: true,
        close_button: false,
        minimize_button: false,
        maximize_button: false,
        platform: spec_platform_window_config(macos),
    }
}

/// The window configuration for the host named by `macos`.
pub fn window_config(macos: bool) -> (r: WindowConfig)
    ensures
        r == spec_window_config(macos),
{
    WindowConfig {
        width: 800,
        height: 50,
        visible: true,
        resizable: false,
        decorations: true,
        transparent: true,
        always_on_top: true,
        close_button: false,
        minimize_button: false,
        maximize_button: false,
        platform: platform_window_config(macos),
    }
}

/// Application-wide settings: the window, the default text size in points,
/// and how rendering and closing behave.
#[derive(Debug, Clone, Copy, PartialEq, Eq, Structural)]
pub struct LaunchConfig {
    pub window: WindowConfig,
    pub text_size_points: u8,
    pub antialiasing: bool,
    pub exit_on_close_request: bool,
}

/// The bar launches with 18-point text, antialiased, and exits as soon as the
/// window is asked to close.
pub open spec fn spec_launch_config(macos: bool) -> LaunchConfig {
    LaunchConfig {
        window: spec_window_config(macos),
        text_size_points: 18,
        antialiasing: true,
        exit_on_close_request: true,
    }
}

/// The whole launch configuration for the host named by `macos`.
pub fn launch_config(macos: bool) -> (r: LaunchConfig)
    ensures
        r == spec_launch_config(macos),
{
    LaunchConfig {
        window: window_config(macos),
        text_size_points: 18,
        antialiasing: true,
        exit_on_close_request: true,
    }
}

} // verus!
