//! The plain values that describe a window to be opened and a window that
//! has been opened.

use vstd::prelude::*;
use crate::scale::{LogicalSize, PhysicalSize, ScaleFactor, ScalePolicy};

verus! {

/// The windowing system that a host handle belongs to.
#[derive(Clone, Copy, Debug, PartialEq, Eq, Structural)]
pub enum HandleKind {
    UiKit,
    AppKit,
    Orbital,
    Xlib,
    Xcb,
    Wayland,
    Drm,
    Gbm,
    Win32,
    WinRt,
    Web,
    AndroidNdk,
    Haiku,
    /// A windowing system that is not listed here.
    Other,
}

/// How to reach the host window: which windowing system it lives in and the
/// number by which that system knows it. It owns nothing and keeps nothing
/// alive.
#[derive(Clone, Copy, Debug, PartialEq, Eq, Structural)]
pub struct HostHandle {
    pub kind: HandleKind,
    pub value: u64,
}

/// The monitor that a position refers to.
#[derive(Clone, Copy, Debug, PartialEq, Eq, Structural)]
pub enum MonitorSelection {
    Current,
    Primary,
    Index(usize),
}

/// Where a window is to be placed.
#[derive(Clone, Copy, Debug, PartialEq, Eq, Structural)]
pub enum WindowPosition {
    /// Left to the window manager.
    Automatic,
    /// In the middle of a monitor.
    Centered(MonitorSelection),
    /// With its top left corner at this point, in physical pixels.
    At { x: i32, y: i32 },
}

/// What the scene graph asks of the window.
#[derive(Clone, Copy, Debug, PartialEq, Eq, Structural)]
pub struct WindowDescriptor {
    pub position: WindowPosition,
}

/// What the caller asks of the native window.
#[derive(Clone, Copy, Debug, PartialEq, Eq, Structural)]
pub struct WindowOpenOptions {
    /// The requested size, in logical pixels.
    pub size: LogicalSize,
    /// How the scale factor is chosen.
    pub scale: ScalePolicy,
    /// The host window under which the new window is opened.
    pub parent: HostHandle,
}

/// What the native windowing library is asked to open.
#[derive(Clone, Copy, Debug, PartialEq, Eq, Structural)]
pub struct OpenRequest {
    pub parent: HostHandle,
    pub size: PhysicalSize,
    pub scale: ScaleFactor,
}

/// The scene-facing description of a window that has been opened.
#[derive(Clone, Copy, Debug, PartialEq, Eq, Structural)]
pub struct WindowRecord {
    pub position: WindowPosition,
    pub size: PhysicalSize,
    pub scale: ScaleFactor,
    pub parent: HostHandle,
}

/// The record of the window that `request` opened for `descriptor`.
pub open spec fn record_of(descriptor: WindowDescriptor, request: OpenRequest) -> WindowRecord {
    WindowRecord {
        position: descriptor.position,
        size: request.size,
        scale: request.scale,
        parent: request.parent,
    }
}

} // verus!
