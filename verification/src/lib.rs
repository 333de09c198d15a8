//! A verified core for a window split-view layer.
//!
//! A host application converts one of its windows into a multi-pane
//! container. This crate holds the verified model of that layer: the
//! split-view state and its capability surface, the delegate-interception
//! protocol that preserves a window's original event handler, the
//! process-wide registry mapping window labels to split views, and the
//! builder that assembles configuration into a split view.
//!
//! The native rendering toolkit and the host window framework are external
//! collaborators: a platform adapter performs the actual native calls and
//! mirrors their observable state into the plain values these types hold.
//! Geometric quantities (divider positions, thickness, logical coordinates)
//! are carried as IEEE-754 bit patterns of the host's 64-bit floats, and
//! event handlers as opaque numeric identities chosen by the adapter.

pub mod builder;
pub mod delegate;
pub mod error;
pub mod registry;
pub mod splitview;
pub mod window;

pub use builder::{PaneConfig, Position, Size, SplitViewBuilder, SplitViewConfig,
    SplitViewOrientation, WindowRequest};
pub use delegate::DelegateState;
pub use error::Error;
pub use registry::Store;
pub use splitview::{BasicSplitView, Pane, SplitContainer};
pub use window::WindowModel;
