use vstd::prelude::*;

verus! {

/// Failures surfaced by the split-view layer.
///
/// All failures are synchronous typed results; there are no retries and no
/// partial-construction rollback.
#[derive(Clone, Copy, Debug, PartialEq, Eq, Structural)]
pub enum Error {
    /// A registry lookup found no split view under the requested label.
    SplitViewNotFound,
    /// Conversion of a window could not obtain the platform window handle.
    NativeHandleUnavailable,
}

} // verus!
