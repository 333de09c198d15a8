use vstd::prelude::*;

verus! {

/// Mathematical image of a [`WindowModel`].
pub struct WindowState {
    pub delegate: Option<u64>,
    pub visible: bool,
    pub native_handle: bool,
}

/// The observable state of a host window, as plain values.
///
/// The window itself lives in the host framework; the platform adapter
/// mirrors what this layer reads of it: the active event handler (delegate),
/// visibility, and whether a platform window handle can be obtained.
/// Event handlers are carried as opaque numeric identities chosen by the
/// adapter; two handlers are the same exactly when their identities are.
#[derive(Clone, Debug, PartialEq)]
pub struct WindowModel {
    /// Identity of the window's active event handler, if one is installed.
    pub delegate: Option<u64>,
    /// Whether the window is currently in the window list.
    pub visible: bool,
    /// Whether the platform window handle is obtainable.
    pub native_handle: bool,
}

impl View for WindowModel {
    type V = WindowState;

    open spec fn view(&self) -> WindowState {
        WindowState { delegate: self.delegate, visible: self.visible, native_handle: self.native_handle }
    }
}

} // verus!
