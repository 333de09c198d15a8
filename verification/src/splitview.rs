use vstd::prelude::*;

use crate::builder::{PaneConfig, PaneSpec, SplitViewOrientation};
use crate::delegate::{install, uninstall, DelegateState};
use crate::error::Error;
use crate::window::{WindowModel, WindowState};

verus! {

/// Mathematical image of a [`Pane`].
pub struct PaneState {
    pub content: PaneSpec,
    pub collapsed: bool,
}

/// One child region of a split container.
///
/// `collapsed` mirrors the live collapse state of the native subview; the
/// platform adapter keeps it current. A freshly added pane is not collapsed.
#[derive(Debug, PartialEq)]
pub struct Pane {
    pub content: PaneConfig,
    pub collapsed: bool,
}

impl View for Pane {
    type V = PaneState;

    open spec fn view(&self) -> PaneState {
        PaneState { content: self.content@, collapsed: self.collapsed }
    }
}

/// The views of a sequence of panes.
pub open spec fn pane_views(panes: Seq<Pane>) -> Seq<PaneState> {
    panes.map_values(|p: Pane| p@)
}

/// Mathematical image of a [`SplitContainer`].
pub struct ContainerState {
    pub orientation: SplitViewOrientation,
    pub panes: Seq<PaneState>,
    pub dividers: Seq<u64>,
    pub divider_thickness_bits: u64,
}

impl ContainerState {
    /// For N panes there are N-1 dividers (and none for an empty container).
    pub open spec fn wf(self) -> bool {
        self.dividers.len() == if self.panes.len() == 0 {
            0int
        } else {
            self.panes.len() - 1
        }
    }
}

/// Model of the native container view: orientation, the ordered direct
/// child panes, and divider geometry.
///
/// Divider positions and thickness are carried as bit patterns of the
/// host's 64-bit floats; the platform adapter converts at the boundary.
#[derive(Debug, PartialEq)]
pub struct SplitContainer {
    pub orientation: SplitViewOrientation,
    pub panes: Vec<Pane>,
    pub dividers: Vec<u64>,
    pub divider_thickness_bits: u64,
}

impl View for SplitContainer {
    type V = ContainerState;

    open spec fn view(&self) -> ContainerState {
        ContainerState {
            orientation: self.orientation,
            panes: pane_views(self.panes@),
            dividers: self.dividers@,
            divider_thickness_bits: self.divider_thickness_bits,
        }
    }
}

/// Mathematical image of a [`BasicSplitView`].
pub struct SplitViewState {
    pub container: ContainerState,
    pub label: Seq<char>,
    pub window: Option<WindowState>,
    pub captured: Option<Option<u64>>,
    pub handler: Option<u64>,
}

impl SplitViewState {
    /// Validity: the container's divider count matches its pane count, and
    /// a custom handler is only ever active after the original handler has
    /// been captured (the snapshot is taken at the first install).
    pub open spec fn wf(self) -> bool {
        &&& self.container.wf()
        &&& (self.handler is Some ==> self.captured is Some)
    }

    /// The delegate-interception state embedded in this split view.
    pub open spec fn delegate_state(self) -> DelegateState
        recommends
            self.window is Some,
    {
        DelegateState {
            captured: self.captured,
            current: self.handler,
            active: self.window->0.delegate,
        }
    }
}

/// A split view: a container dividing a window's area into resizable panes.
///
/// Owns the model of its container view, holds its immutable label (equal
/// to the owning window's identifier), a reference to the owning window's
/// observable state (absent once the window is no longer resolvable), and
/// the delegate-interception fields: the write-once snapshot of the
/// window's original event handler and the currently installed custom
/// handler.
#[derive(Debug, PartialEq)]
pub struct BasicSplitView {
    pub split_view: SplitContainer,
    pub label: String,
    pub window: Option<WindowModel>,
    pub original_delegate: Option<Option<u64>>,
    pub event_handler: Option<u64>,
}

impl View for BasicSplitView {
    type V = SplitViewState;

    open spec fn view(&self) -> SplitViewState {
        SplitViewState {
            container: self.split_view@,
            label: self.label@,
            window: match self.window {
                Some(w) => Some(w@),
                None => None,
            },
            captured: self.original_delegate,
            handler: self.event_handler,
        }
    }
}

impl BasicSplitView {
    /// Assemble a split view from an already-configured container model,
    /// its label, and the owning window's observable state (absent when
    /// the window is not resolvable). No custom handler is installed and
    /// no original handler has been captured yet.
    pub fn new(split_view: SplitContainer, label: String, window: Option<WindowModel>) -> (r: Self)
        ensures
            r@.container == split_view@,
            r@.label == label@,
            r@.window == (match window {
                Some(w) => Some(w@),
                None => None,
            }),
            r@.captured is None,
            r@.handler is None,
    {
        BasicSplitView { split_view, label, window, original_delegate: None, event_handler: None }
    }

    /// Convert a window into a split view.
    ///
    /// Fails exactly when the platform window handle is unavailable. On
    /// success the window's captured content view (`content`) is re-parented
    /// as the container's first and only pane, the container's orientation
    /// is vertical, and no custom handler is installed. The conversion is
    /// one-way: there is no operation that restores the original content
    /// view.
    pub fn from_window(window: WindowModel, content: PaneConfig, label: String) -> (r: Result<
        BasicSplitView,
        Error,
    >)
        ensures
            r is Ok <==> window.native_handle,
            r matches Err(e) ==> e == Error::NativeHandleUnavailable,
            r matches Ok(sv) ==> {
                &&& sv@.wf()
                &&& sv@.label == label@
                &&& sv@.container.orientation == SplitViewOrientation::Vertical
                &&& sv@.container.panes.len() == 1
                &&& sv@.container.panes[0] == (PaneState { content: content@, collapsed: false })
                &&& sv@.container.dividers.len() == 0
                &&& sv@.container.divider_thickness_bits == 0
                &&& sv@.window == Some(window@)
                &&& sv@.captured is None
                &&& sv@.handler is None
            },
    {
        if !window.native_handle {
            return Err(Error::NativeHandleUnavailable);
        }
        let panes = vec![Pane { content, collapsed: false }];
        let container = SplitContainer {
            orientation: SplitViewOrientation::Vertical,
            panes,
            dividers: Vec::new(),
            divider_thickness_bits: 0,
        };
        Ok(BasicSplitView::new(container, label, Some(window)))
    }

    /// The split view's immutable identifier.
    pub fn label(&self) -> (r: &str)
        ensures
            r@ == self@.label,
    {
        self.label.as_str()
    }

    /// The model of the underlying container view.
    pub fn as_split_view(&self) -> (r: &SplitContainer)
        ensures
            r@ == self@.container,
    {
        &self.split_view
    }

    /// Resolve the owning window, or report it gone.
    pub fn to_window(&self) -> (r: Option<&WindowModel>)
        ensures
            r is Some <==> self@.window is Some,
            r matches Some(w) ==> Some(w@) == self@.window,
    {
        match &self.window {
            Some(w) => Some(w),
            None => None,
        }
    }

    /// The owning native window's observable state, or absent.
    pub fn window(&self) -> (r: Option<&WindowModel>)
        ensures
            r is Some <==> self@.window is Some,
            r matches Some(w) ==> Some(w@) == self@.window,
    {
        match &self.window {
            Some(w) => Some(w),
            None => None,
        }
    }

    /// Request that the owning window be brought to front. No-op if the
    /// owning window is no longer resolvable.
    pub fn show(&mut self)
        ensures
            old(self)@.window is None ==> final(self)@ == old(self)@,
            old(self)@.window is Some ==> final(self)@ == (SplitViewState {
                window: Some(WindowState { visible: true, ..old(self)@.window->0 }),
                ..old(self)@
            }),
    {
        match &mut self.window {
            Some(w) => {
                w.visible = true;
            },
            None => {},
        }
    }

    /// Request that the owning window be ordered out of the window list.
    /// No-op if the owning window is no longer resolvable.
    pub fn hide_window(&mut self)
        ensures
            old(self)@.window is None ==> final(self)@ == old(self)@,
            old(self)@.window is Some ==> final(self)@ == (SplitViewState {
                window: Some(WindowState { visible: false, ..old(self)@.window->0 }),
                ..old(self)@
            }),
    {
        match &mut self.window {
            Some(w) => {
                w.visible = false;
            },
            None => {},
        }
    }

    /// Whether the owning window is visible; false if it is unresolvable.
    pub fn is_visible(&self) -> (r: bool)
        ensures
            r == (self@.window matches Some(w) && w.visible),
    {
        match &self.window {
            Some(w) => w.visible,
            None => false,
        }
    }

    /// Whether the container splits side-by-side (vertical) rather than
    /// stacked (horizontal).
    pub fn is_vertical(&self) -> (r: bool)
        ensures
            r == (self@.container.orientation == SplitViewOrientation::Vertical),
    {
        self.split_view.orientation.is_vertical()
    }

    /// The number of direct child panes the container currently holds.
    pub fn pane_count(&self) -> (r: usize)
        ensures
            r == self@.container.panes.len(),
    {
        self.split_view.panes.len()
    }

    /// Append a pane as the container's last child, growing the divider
    /// list to keep one divider between each adjacent pair of panes. The
    /// new divider's position starts at zero until the adapter reports the
    /// real geometry.
    pub fn add_pane(&mut self, pane: Pane)
        requires
            old(self)@.wf(),
        ensures
            final(self)@.wf(),
            final(self)@ == (SplitViewState {
                container: ContainerState {
                    panes: old(self)@.container.panes.push(pane@),
                    dividers: if old(self)@.container.panes.len() == 0 {
                        old(self)@.container.dividers
                    } else {
                        old(self)@.container.dividers.push(0u64)
                    },
                    ..old(self)@.container
                },
                ..old(self)@
            }),
    {
        if self.split_view.panes.len() > 0 {
            self.split_view.dividers.push(0);
        }
        let ghost old_panes = self.split_view.panes@;
        self.split_view.panes.push(pane);
        proof {
            assert(pane_views(self.split_view.panes@) =~= pane_views(old_panes).push(pane@));
        }
    }

    /// Record the position of the boundary between pane `divider_index`
    /// and pane `divider_index + 1`, as the bit pattern of the host float.
    pub fn set_divider_position(&mut self, divider_index: usize, position_bits: u64)
        requires
            divider_index < old(self)@.container.dividers.len(),
        ensures
            final(self)@ == (SplitViewState {
                container: ContainerState {
                    dividers: old(self)@.container.dividers.update(
                        divider_index as int,
                        position_bits,
                    ),
                    ..old(self)@.container
                },
                ..old(self)@
            }),
    {
        self.split_view.dividers[divider_index] = position_bits;
    }

    /// The recorded position of divider `divider_index`, or the zero
    /// position for an out-of-range index: with N panes the valid divider
    /// indices are 0 up to N-2, and any other index answers zero rather
    /// than failing.
    pub fn get_divider_position(&self, divider_index: usize) -> (r: u64)
        requires
            self@.wf(),
        ensures
            r == if divider_index + 1 < self@.container.panes.len() {
                self@.container.dividers[divider_index as int]
            } else {
                0u64
            },
    {
        let count = self.split_view.panes.len();
        if count >= 1 && divider_index < count - 1 {
            self.split_view.dividers[divider_index]
        } else {
            0
        }
    }

    /// Recorded as a request only: the underlying container does not
    /// support post-construction thickness mutation, so this is a
    /// documented no-op and callers must not assume an effect.
    pub fn set_divider_thickness(&mut self, thickness_bits: u64)
        ensures
            final(self)@ == old(self)@,
    {
        let _ = thickness_bits;
    }

    /// The container's divider thickness, as mirrored by the adapter.
    pub fn divider_thickness(&self) -> (r: u64)
        ensures
            r == self@.container.divider_thickness_bits,
    {
        self.split_view.divider_thickness_bits
    }

    /// The pane at `index`, or absent if out of range.
    pub fn pane_at_index(&self, index: usize) -> (r: Option<&Pane>)
        ensures
            r is Some <==> index < self@.container.panes.len(),
            r matches Some(p) ==> p@ == self@.container.panes[index as int],
    {
        if index < self.split_view.panes.len() {
            Some(&self.split_view.panes[index])
        } else {
            None
        }
    }

    /// Collapse constraints are not enforced by this layer: a documented
    /// no-op, kept so callers see the gap rather than a pretended success.
    pub fn set_pane_collapsible(&mut self, index: usize, collapsible: bool)
        ensures
            final(self)@ == old(self)@,
    {
        let _ = index;
        let _ = collapsible;
    }

    /// Whether the pane at `index` is collapsed; false for an out-of-range
    /// index.
    pub fn is_pane_collapsed(&self, index: usize) -> (r: bool)
        ensures
            r == (index < self@.container.panes.len()
                && self@.container.panes[index as int].collapsed),
    {
        if index < self.split_view.panes.len() {
            self.split_view.panes[index].collapsed
        } else {
            false
        }
    }

    /// Size constraints are not enforced by this layer: a documented no-op.
    pub fn set_pane_min_size(&mut self, index: usize, size_bits: u64)
        ensures
            final(self)@ == old(self)@,
    {
        let _ = index;
        let _ = size_bits;
    }

    /// Size constraints are not enforced by this layer: a documented no-op.
    pub fn set_pane_max_size(&mut self, index: usize, size_bits: u64)
        ensures
            final(self)@ == old(self)@,
    {
        let _ = index;
        let _ = size_bits;
    }

    /// Install a custom event handler on the owning window, or remove the
    /// current one (`None`).
    ///
    /// Follows the delegate-interception protocol: the first install
    /// captures the window's pre-existing handler once and for all; every
    /// install makes the given handler current and active; a removal from
    /// the managed state restores the captured handler; a removal when no
    /// custom handler is active is a no-op. No-op if the owning window is
    /// no longer resolvable.
    pub fn set_event_handler(&mut self, handler: Option<u64>)
        requires
            old(self)@.wf(),
        ensures
            final(self)@.wf(),
            old(self)@.window is None ==> final(self)@ == old(self)@,
            old(self)@.window is Some ==> {
                &&& final(self)@.delegate_state() == (match handler {
                    Some(h) => install(old(self)@.delegate_state(), h),
                    None => uninstall(old(self)@.delegate_state()),
                })
                &&& final(self)@.window is Some
                &&& final(self)@.container == old(self)@.container
                &&& final(self)@.label == old(self)@.label
                &&& final(self)@.window->0.visible == old(self)@.window->0.visible
                &&& final(self)@.window->0.native_handle == old(self)@.window->0.native_handle
            },
    {
        match &mut self.window {
            Some(w) => {
                match handler {
                    Some(h) => {
                        if self.event_handler.is_none() && self.original_delegate.is_none() {
                            self.original_delegate = Some(w.delegate);
                        }
                        self.event_handler = Some(h);
                        w.delegate = Some(h);
                    },
                    None => {
                        if self.event_handler.is_some() {
                            self.event_handler = None;
                            w.delegate = match &self.original_delegate {
                                Some(original) => *original,
                                None => w.delegate,
                            };
                        }
                    },
                }
            },
            None => {},
        }
    }
}

} // verus!
