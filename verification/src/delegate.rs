use vstd::prelude::*;

verus! {

/// The delegate-interception protocol, as a state machine over plain values.
///
/// A split view may install a custom event handler on its owning window
/// while preserving the handler that was active before any custom handler
/// was ever installed, so the window's original behavior can always be
/// restored. Handlers are opaque numeric identities.
///
/// The state is `Unmanaged` when `current` is absent (no custom handler
/// active) and `Managed` when `current` is present.
pub struct DelegateState {
    /// Snapshot of the window's pre-existing handler, taken at the first
    /// install and never overwritten (write-once). `None` means no install
    /// has ever captured; `Some(d)` means the snapshot is `d` (which may
    /// itself be an absent handler).
    pub captured: Option<Option<u64>>,
    /// The custom handler currently active, if any.
    pub current: Option<u64>,
    /// The window's active event handler.
    pub active: Option<u64>,
}

/// States reachable by the protocol: a custom handler is only ever active
/// after the original handler has been captured.
pub open spec fn delegate_inv(s: DelegateState) -> bool {
    s.current is Some ==> s.captured is Some
}

/// Install a custom handler `h`.
///
/// From `Unmanaged` with no snapshot yet, the window's active handler is
/// captured first; from `Managed`, or once a snapshot exists, the snapshot
/// is untouched. Either way `h` becomes both the current custom handler and
/// the window's active handler.
pub open spec fn install(s: DelegateState, h: u64) -> DelegateState {
    let captured = if s.current is None && s.captured is None {
        Some(s.active)
    } else {
        s.captured
    };
    DelegateState { captured, current: Some(h), active: Some(h) }
}

/// Remove the custom handler.
///
/// From `Managed`, the current handler is cleared and the captured snapshot
/// becomes the window's active handler again. From `Unmanaged` this is a
/// no-op: it guards against a double restore when no capture ever happened.
pub open spec fn uninstall(s: DelegateState) -> DelegateState {
    if s.current is Some {
        DelegateState {
            captured: s.captured,
            current: None,
            active: match s.captured {
                Some(original) => original,
                None => s.active,
            },
        }
    } else {
        s
    }
}

/// Install the handlers of `hs` one after the other, first element first.
pub open spec fn install_all(s: DelegateState, hs: Seq<u64>) -> DelegateState
    decreases hs.len(),
{
    if hs.len() == 0 {
        s
    } else {
        install_all(install(s, hs[0]), hs.drop_first())
    }
}

/// Both transitions stay within the protocol's reachable states.
pub proof fn lemma_transitions_preserve_inv(s: DelegateState, h: u64)
    requires
        delegate_inv(s),
    ensures
        delegate_inv(install(s, h)),
        delegate_inv(uninstall(s)),
{
}

/// Removing the custom handler twice has the same effect as removing it
/// once: the second removal finds the protocol `Unmanaged` and does nothing.
pub proof fn lemma_uninstall_idempotent(s: DelegateState)
    ensures
        uninstall(uninstall(s)) == uninstall(s),
{
}

/// Once a snapshot of the original handler exists, no number of further
/// installs disturbs it; and after at least one install the last handler
/// installed is both current and active.
pub proof fn lemma_install_all_keeps_capture(s: DelegateState, hs: Seq<u64>)
    requires
        s.captured is Some,
    ensures
        install_all(s, hs).captured == s.captured,
        hs.len() > 0 ==> install_all(s, hs).current == Some(hs.last())
            && install_all(s, hs).active == Some(hs.last()),
        hs.len() == 0 ==> install_all(s, hs) == s,
    decreases hs.len(),
{
    if hs.len() > 0 {
        let s1 = install(s, hs[0]);
        lemma_install_all_keeps_capture(s1, hs.drop_first());
        if hs.len() > 1 {
            assert(hs.drop_first().last() == hs.last());
        }
    }
}

/// The original handler survives any number of installs: starting from a
/// fresh state, installing one or more custom handlers and then removing
/// the custom handler restores the handler that was active before the first
/// install, and leaves the protocol `Unmanaged`.
pub proof fn lemma_original_restored(s: DelegateState, hs: Seq<u64>)
    requires
        s.current is None,
        s.captured is None,
        hs.len() > 0,
    ensures
        uninstall(install_all(s, hs)).active == s.active,
        uninstall(install_all(s, hs)).current is None,
{
    let s1 = install(s, hs[0]);
    lemma_install_all_keeps_capture(s1, hs.drop_first());
    assert(install_all(s, hs) == install_all(s1, hs.drop_first()));
}

} // verus!
