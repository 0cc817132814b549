//! Guarded mutation of a collection's root storage location.
//!
//! The root location may only change while no synchronization against it is
//! running, and writing a value equal to the current one is reported as a
//! distinct, neutral outcome so that callers can skip downstream reactions.

use vstd::prelude::*;

verus! {

/// Whether a background synchronization currently owns the collection.
///
/// Transitions are driven by the external synchronization subsystem; the
/// settings updater only reads the flag.
#[derive(Clone, Copy, Debug, PartialEq, Eq, Structural)]
pub enum SyncState {
    Idle,
    Synchronizing,
}

/// Outcome of a successful root-location update request.
#[derive(Clone, Copy, Debug, PartialEq, Eq, Structural)]
pub enum RootUpdate {
    /// The stored value was replaced by a different one.
    Updated,
    /// The requested value equals the stored one; nothing was written.
    Unchanged,
}

/// Failure of a root-location update request.
#[derive(Clone, Copy, Debug, PartialEq, Eq, Structural)]
pub enum SettingsError {
    /// A synchronization is in flight; the root must not change under it.
    SynchronizationInProgress,
}

/// Per-collection-session settings state: the current root location and the
/// synchronization flag that guards it.
///
/// The root is written only through [`SettingsState::update_root`]; the flag
/// only through the transition methods that stand in for the external
/// synchronization subsystem.
pub struct SettingsState {
    root: Option<String>,
    sync: SyncState,
}

/// Result reported for an update request against the given stored root and
/// synchronization flag.
pub open spec fn update_outcome(
    root: Option<Seq<char>>,
    sync: SyncState,
    new_root: Option<Seq<char>>,
) -> Result<RootUpdate, SettingsError> {
    if sync == SyncState::Synchronizing {
        Err(SettingsError::SynchronizationInProgress)
    } else if new_root == root {
        Ok(RootUpdate::Unchanged)
    } else {
        Ok(RootUpdate::Updated)
    }
}

/// Root stored after an update request against the given stored root and
/// synchronization flag.
pub open spec fn root_after_update(
    root: Option<Seq<char>>,
    sync: SyncState,
    new_root: Option<Seq<char>>,
) -> Option<Seq<char>> {
    if sync == SyncState::Synchronizing {
        root
    } else {
        new_root
    }
}

impl SettingsState {
    /// The stored root location, as a mathematical value.
    pub closed spec fn root_view(&self) -> Option<Seq<char>> {
        self.root.deep_view()
    }

    /// The synchronization flag.
    pub closed spec fn sync_state(&self) -> SyncState {
        self.sync
    }

    /// A fresh session: no root stored, no synchronization running.
    pub fn new() -> (s: Self)
        ensures
            s.root_view() is None,
            s.sync_state() == SyncState::Idle,
    {
        SettingsState { root: None, sync: SyncState::Idle }
    }

    /// The currently stored root location.
    pub fn current_root(&self) -> (r: &Option<String>)
        ensures
            r.deep_view() == self.root_view(),
    {
        &self.root
    }

    /// Whether a synchronization currently owns the collection.
    pub fn is_synchronizing(&self) -> (r: bool)
        ensures
            r == (self.sync_state() == SyncState::Synchronizing),
    {
        self.sync == SyncState::Synchronizing
    }

    /// Record that the external synchronization subsystem has started or
    /// finished. Never touches the stored root.
    pub fn set_sync_state(&mut self, sync: SyncState)
        ensures
            final(self).sync_state() == sync,
            final(self).root_view() == old(self).root_view(),
    {
        self.sync = sync;
    }

    /// Requests a change of the root location.
    ///
    /// Fails while a synchronization is running, without touching any state.
    /// Otherwise compares the requested value against the stored one under
    /// full semantic equality (absent included): an equal value is reported
    /// as `Unchanged` and nothing is written; a different value replaces the
    /// stored one and is reported as `Updated`. The synchronization flag is
    /// never written here.
    pub fn update_root(&mut self, new_root: Option<String>) -> (r: Result<
        RootUpdate,
        SettingsError,
    >)
        ensures
            r == update_outcome(old(self).root_view(), old(self).sync_state(), new_root.deep_view()),
            final(self).root_view() == root_after_update(
                old(self).root_view(),
                old(self).sync_state(),
                new_root.deep_view(),
            ),
            final(self).sync_state() == old(self).sync_state(),
    {
        if self.is_synchronizing() {
            return Err(SettingsError::SynchronizationInProgress);
        }
        if opt_string_eq(&new_root, &self.root) {
            return Ok(RootUpdate::Unchanged);
        }
        self.root = new_root;
        Ok(RootUpdate::Updated)
    }
}

/// Full semantic equality of two optional strings, the absent case included.
fn opt_string_eq(a: &Option<String>, b: &Option<String>) -> (r: bool)
    ensures
        r == (a.deep_view() == b.deep_view()),
{
    match (a, b) {
        (None, None) => true,
        (Some(x), Some(y)) => String::eq(x, y),
        _ => false,
    }
}

/// While a synchronization is running, every update request fails with the
/// synchronization conflict and leaves the stored root untouched, whatever
/// value was requested.
pub proof fn lemma_update_during_sync_rejected(root: Option<Seq<char>>, new_root: Option<Seq<char>>)
    ensures
        update_outcome(root, SyncState::Synchronizing, new_root) == Err::<RootUpdate, SettingsError>(
            SettingsError::SynchronizationInProgress,
        ),
        root_after_update(root, SyncState::Synchronizing, new_root) == root,
{
}

/// Requesting the same root twice in the idle state: the first request
/// reports `Updated` exactly when the value differs from the stored one, the
/// second reports `Unchanged`, and after both the stored root equals the
/// requested value.
pub proof fn lemma_update_root_twice(root: Option<Seq<char>>, new_root: Option<Seq<char>>)
    ensures
        update_outcome(root, SyncState::Idle, new_root) == Ok::<RootUpdate, SettingsError>(
            if new_root == root {
                RootUpdate::Unchanged
            } else {
                RootUpdate::Updated
            },
        ),
        update_outcome(
            root_after_update(root, SyncState::Idle, new_root),
            SyncState::Idle,
            new_root,
        ) == Ok::<RootUpdate, SettingsError>(RootUpdate::Unchanged),
        root_after_update(
            root_after_update(root, SyncState::Idle, new_root),
            SyncState::Idle,
            new_root,
        ) == new_root,
{
}

} // verus!
